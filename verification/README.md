# stellar-canary

Checks a Stellar project against an upcoming protocol version: XDR values
are decoded and re-encoded with the official `stellar-xdr` crate, RPC
responses are checked field by field, and the results are reported as
terminal text, Markdown or versioned JSON, with a documented exit code
(0 pass, 1 compatibility failure, 2 configuration error, 3 execution or
RPC error, 4 invalid fixture, 5 internal error).

## Layout

- `src/` is the library, written in Verus and verified.
  - `model`, `errors`, `config`: the domain types, errors and the
    configuration schema.
  - `project`: capabilities and project type from detection signals, and
    the steps of the WASM artifact search.
  - `plan`, `execution`, `policy`: which fixtures run, how a cached result
    stands in for a run, result order, the policy decision and exit codes.
  - `xdr`: XDR fixtures and their evaluation through `stellar-xdr`.
  - `rpc_client`, `json_value`, `rpc_runner`: the RPC client's decisions
    (statuses, retries, envelopes) and RPC fixture evaluation.
  - `soroban`: the unsigned `InvokeHostFunction` envelope, built with
    `stellar-strkey` and `stellar-xdr`.
  - `report`, `terminal`, `markdown`, `json_report`: the reporters; the
    JSON report reads back into the run it came from.
  - `cache`: cache keys and file names, and which results may be stored.
  - `commands`: the text and decisions of the command-line commands.
- `app/` is the `stellar-canary` program: arguments, files, HTTP and
  printing, handing plain values to the library.
- `tests/` exercises the library from outside.

Trusted items (contracts assumed rather than proved) are the wrappers
around `stellar-xdr`, `stellar-strkey`, `serde_json` (reading a JSON-RPC
response body), `Debug` formatting of strings and the clock, and a few specifications of standard-library functions
(`String::push`, `PathBuf::clone`, `Duration::from_millis`), each
documented where it is declared.
