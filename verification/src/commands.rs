//! The decisions of the command-line commands: which protocol a run
//! targets, what an endpoint's reported network identity means for the
//! run, and the one-line status of a quiet run.

use vstd::prelude::*;

use crate::errors::CanaryError;
use crate::config::TestsSection;
use crate::model::{network_name_text, project_type_name, surface_name, Capability, NetworkName, FixtureMetadata, FixtureStore, ProjectContext, ProjectType, ProtocolVersion, Surface};
use crate::project::resolve_project_type;
use crate::report::{heading, overall, surface_heading, ReportInput, ReportStatus, SkipSummary};
use crate::rpc_client::{network_mismatch_text, passphrase_accepted, protocol_mismatch_text, rpc_error_text, validate_network_info, NetworkInfo, RpcError};
use crate::terminal::decision_text;
use crate::text::{decimal, owned, push_decimal};

verus! {

/// Rejects `--protocol 0` the same way the configuration rejects
/// `protocol = 0`, so the flag cannot bypass that validation.
pub fn validated_protocol_flag(protocol: Option<u32>) -> (r: Result<Option<u32>, CanaryError>)
    ensures
        protocol == Some(0u32) ==> (r matches Err(CanaryError::Configuration(m))
            && m@ == "--protocol must be a positive protocol version number"@),
        protocol != Some(0u32) ==> r == Ok::<Option<u32>, CanaryError>(protocol),
{
    match protocol {
        Some(0) => Err(CanaryError::Configuration(owned("--protocol must be a positive protocol version number"))),
        other => Ok(other),
    }
}

/// The protocol a run targets: the `--protocol` flag when given, else the
/// configured protocol (which itself defaults to the built-in default).
pub fn target_protocol(flag: Option<u32>, configured: u32) -> (r: Result<ProtocolVersion, CanaryError>)
    ensures
        flag == Some(0u32) ==> (r matches Err(CanaryError::Configuration(m))
            && m@ == "--protocol must be a positive protocol version number"@),
        flag != Some(0u32) ==> r == Ok::<ProtocolVersion, CanaryError>(ProtocolVersion(
            match flag {
                Some(p) => p,
                None => configured,
            },
        )),
{
    match validated_protocol_flag(flag) {
        Ok(Some(p)) => Ok(ProtocolVersion(p)),
        Ok(None) => Ok(ProtocolVersion(configured)),
        Err(e) => Err(e),
    }
}

/// What a run learned of the live network before any check ran.
#[derive(Debug, Clone, PartialEq, Eq)]
pub struct NetworkObservation {
    /// The protocol the endpoint reported, when it could be asked.
    pub observed_protocol: Option<ProtocolVersion>,
    /// A warning for the user: the endpoint reports another protocol than
    /// the run targets.
    pub warning: Option<String>,
    /// Why the endpoint's identity could not be fetched.
    pub error: Option<String>,
}

/// What the outcome of `getNetwork` means for a run. A failure to fetch
/// leaves the protocol unobserved (with the error kept for the report)
/// and does not block the run. A passphrase mismatch aborts as a
/// configuration error, since results from the wrong network must not be
/// attributed to the requested one. A protocol mismatch is a warning: the
/// run continues with the observed protocol.
pub fn observe_network_identity(fetched: &Result<NetworkInfo, RpcError>, passphrase: &str, target: ProtocolVersion) -> (r: Result<NetworkObservation, CanaryError>)
    ensures
        match fetched {
            Err(e) => r matches Ok(o) && o.observed_protocol is None && o.warning is None
                && (o.error matches Some(m) && m@ == rpc_error_text(*e)),
            Ok(info) => if !passphrase_accepted(*info, passphrase@) {
                r matches Err(CanaryError::Configuration(m)) && m@ == network_mismatch_text(passphrase@, info.passphrase@)
            } else if info.protocol_version != target.0 {
                r matches Ok(o) && o.observed_protocol == Some(ProtocolVersion(info.protocol_version))
                    && o.error is None && (o.warning matches Some(w) && w@ == protocol_mismatch_text(target.0, info.protocol_version))
            } else {
                r matches Ok(o) && o.observed_protocol == Some(ProtocolVersion(info.protocol_version))
                    && o.error is None && o.warning is None
            },
        },
{
    match fetched {
        Err(e) => Ok(NetworkObservation { observed_protocol: None, warning: None, error: Some(e.message()) }),
        Ok(info) => match validate_network_info(info, passphrase, target.0) {
            Ok(()) => Ok(NetworkObservation {
                observed_protocol: Some(ProtocolVersion(info.protocol_version)),
                warning: None,
                error: None,
            }),
            Err(err) => {
                let message = err.message();
                match err {
                    RpcError::ProtocolMismatch { .. } => Ok(NetworkObservation {
                        observed_protocol: Some(ProtocolVersion(info.protocol_version)),
                        warning: Some(message),
                        error: None,
                    }),
                    _ => Err(CanaryError::Configuration(message)),
                }
            },
        },
    }
}

/// The single line a quiet terminal run prints.
pub fn quiet_status_line(input: &ReportInput) -> (s: String)
    ensures
        s@ == "Status: "@ + decision_text(overall(input.results@, input.decision)),
{
    let mut s = owned("Status: ");
    let label = match input.overall_status() {
        ReportStatus::Pass => "PASS",
        ReportStatus::Warning => "WARNING",
        ReportStatus::Fail => "NOT READY",
        ReportStatus::Error => "ERROR",
    };
    s.append(label);
    s
}

/// The ids, one per indented line, of the fixtures for `protocol` on
/// `surface`, in store order.
pub open spec fn listed_ids(fs: Seq<FixtureMetadata>, protocol: ProtocolVersion, surface: Surface) -> Seq<char>
    decreases fs.len(),
{
    if fs.len() == 0 {
        Seq::empty()
    } else {
        let f = fs.last();
        listed_ids(fs.drop_last(), protocol, surface) + if f.protocol == protocol && f.surface == surface {
            "  "@ + f.id@ + "\n"@
        } else {
            Seq::empty()
        }
    }
}

/// Whether some fixture is for `protocol` on `surface`.
pub open spec fn any_listed(fs: Seq<FixtureMetadata>, protocol: ProtocolVersion, surface: Surface) -> bool {
    exists|i: int| 0 <= i < fs.len() && #[trigger] fs[i].protocol == protocol && fs[i].surface == surface
}

/// A surface's section of the fixture listing: its heading, its fixtures
/// and a blank line, or nothing when it has no fixture.
pub open spec fn listing_block(fs: Seq<FixtureMetadata>, protocol: ProtocolVersion, surface: Surface) -> Seq<char> {
    if any_listed(fs, protocol, surface) {
        heading(surface) + "\n"@ + listed_ids(fs, protocol, surface) + "\n"@
    } else {
        Seq::empty()
    }
}

/// The text `fixtures` prints: a title, then each surface's fixtures in
/// the fixed surface order, or a note naming the directory when there is
/// none.
pub open spec fn fixtures_listing_text(fs: Seq<FixtureMetadata>, protocol: u32, dir: Seq<char>) -> Seq<char> {
    let p = ProtocolVersion(protocol);
    "Protocol "@ + decimal(protocol as nat) + " fixtures\n\n"@ + listing_block(fs, p, Surface::Xdr) + listing_block(
        fs,
        p,
        Surface::Rpc,
    ) + listing_block(fs, p, Surface::Soroban) + if any_listed(fs, p, Surface::Xdr) || any_listed(fs, p, Surface::Rpc)
        || any_listed(fs, p, Surface::Soroban) {
        Seq::empty()
    } else {
        "(no fixtures found in "@ + dir + ")\n"@
    }
}

/// Appends a surface's section of the fixture listing; says whether it
/// had a fixture.
fn push_listing_block(out: &mut String, fixtures: &[FixtureMetadata], protocol: ProtocolVersion, surface: Surface) -> (any: bool)
    ensures
        any == any_listed(fixtures@, protocol, surface),
        final(out)@ == old(out)@ + listing_block(fixtures@, protocol, surface),
{
    let mut lines = String::new();
    let mut any = false;
    let mut i: usize = 0;
    while i < fixtures.len()
        invariant
            i <= fixtures@.len(),
            lines@ == listed_ids(fixtures@.take(i as int), protocol, surface),
            any == any_listed(fixtures@.take(i as int), protocol, surface),
        decreases fixtures@.len() - i,
    {
        let f = &fixtures[i];
        proof {
            assert(fixtures@.take(i + 1).drop_last() =~= fixtures@.take(i as int));
        }
        if f.protocol == protocol && f.surface == surface {
            lines.append("  ");
            lines.append(f.id.as_str());
            lines.append("\n");
            any = true;
            assert(fixtures@.take(i + 1)[i as int] == *f);
        } else {
            assert forall|j: int| 0 <= j < i + 1 && #[trigger] fixtures@.take(i + 1)[j].protocol == protocol
                && fixtures@.take(i + 1)[j].surface == surface implies 0 <= j < i && fixtures@.take(i as int)[j].protocol == protocol by {
            }
        }
        i = i + 1;
    }
    proof {
        assert(fixtures@.take(i as int) =~= fixtures@);
    }
    if any {
        out.append(surface_heading(surface));
        out.append("\n");
        out.append(lines.as_str());
        out.append("\n");
    }
    any
}

/// The text `fixtures` prints for the fixtures of `protocol` in a store,
/// naming `dir` when there is none.
pub fn fixtures_listing(store: &FixtureStore, protocol: u32, dir: &str) -> (s: String)
    ensures
        s@ == fixtures_listing_text(store.contents(), protocol, dir@),
{
    let fixtures = store.all();
    let p = ProtocolVersion(protocol);
    let mut s = owned("Protocol ");
    push_decimal(&mut s, protocol as u64);
    s.append(" fixtures\n\n");
    let x = push_listing_block(&mut s, fixtures, p, Surface::Xdr);
    let r = push_listing_block(&mut s, fixtures, p, Surface::Rpc);
    let o = push_listing_block(&mut s, fixtures, p, Surface::Soroban);
    if !(x || r || o) {
        s.append("(no fixtures found in ");
        s.append(dir);
        s.append(")\n");
    }
    s
}

/// `true` or `false`, as `Display` writes a `bool`.
pub open spec fn bool_text(b: bool) -> Seq<char> {
    if b { "true"@ } else { "false"@ }
}

/// The detected-capability lines of `inspect`.
pub open spec fn capabilities_text(caps: Seq<Capability>) -> Seq<char> {
    "\nDetected Stellar SDK/XDR dependency: "@ + bool_text(caps.contains(Capability::StellarSdkDependency))
        + "\nDetected Soroban contract usage: "@ + bool_text(caps.contains(Capability::SorobanContract))
        + "\nDetected RPC client dependency: "@ + bool_text(caps.contains(Capability::RpcClient))
        + "\nDetected WASM artifact: "@ + bool_text(caps.contains(Capability::WasmArtifact))
}

fn push_capabilities(out: &mut String, detected: &ProjectContext)
    ensures
        final(out)@ == old(out)@ + capabilities_text(detected.capabilities@),
{
    out.append("\nDetected Stellar SDK/XDR dependency: ");
    push_bool(out, detected.has_capability(&Capability::StellarSdkDependency));
    out.append("\nDetected Soroban contract usage: ");
    push_bool(out, detected.has_capability(&Capability::SorobanContract));
    out.append("\nDetected RPC client dependency: ");
    push_bool(out, detected.has_capability(&Capability::RpcClient));
    out.append("\nDetected WASM artifact: ");
    push_bool(out, detected.has_capability(&Capability::WasmArtifact));
}

/// The first part of what `inspect` prints: the project root and type
/// (noting when configuration overrode detection), the detected
/// capabilities, and the configured protocol.
pub open spec fn inspect_project_text(
    root: Seq<char>,
    detected: ProjectContext,
    explicit: Option<ProjectType>,
    configured_protocol: u32,
) -> Seq<char> {
    let resolved = match explicit {
        Some(t) => t,
        None => detected.project_type,
    };
    let caps = detected.capabilities@;
    "Project root: "@ + root + "\nProject type: "@ + project_type_name(resolved) + "\n"@ + if explicit is Some
        && resolved != detected.project_type {
        "  (detected as "@ + project_type_name(detected.project_type)
            + " by auto-detection; overridden by configuration)\n"@
    } else {
        Seq::empty()
    } + capabilities_text(caps) + "\n\nConfigured protocol: "@ + decimal(configured_protocol as nat) + "\n"@
}

fn push_bool(out: &mut String, b: bool)
    ensures
        final(out)@ == old(out)@ + bool_text(b),
{
    if b {
        out.append("true");
    } else {
        out.append("false");
    }
}

/// The first part of what `inspect` prints, for a project found at
/// `root` and the configured project type and protocol.
pub fn inspect_project(root: &str, detected: &ProjectContext, explicit: Option<ProjectType>, configured_protocol: u32) -> (s: String)
    ensures
        s@ == inspect_project_text(root@, *detected, explicit, configured_protocol),
{
    let resolved = resolve_project_type(detected.project_type, explicit);
    let mut s = owned("Project root: ");
    s.append(root);
    s.append("\nProject type: ");
    s.append(resolved.as_str());
    s.append("\n");
    if explicit.is_some() && resolved != detected.project_type {
        s.append("  (detected as ");
        s.append(detected.project_type.as_str());
        s.append(" by auto-detection; overridden by configuration)\n");
    }
    push_capabilities(&mut s, detected);
    s.append("\n\nConfigured protocol: ");
    push_decimal(&mut s, configured_protocol as u64);
    s.append("\n");
    s
}

/// `enabled` or `disabled`.
pub open spec fn switch_text(on: bool) -> Seq<char> {
    if on { "enabled"@ } else { "disabled"@ }
}

/// The second part of what `inspect` prints: the target protocol and
/// which surfaces are enabled.
pub open spec fn inspect_surfaces_text(target: ProtocolVersion, tests: TestsSection) -> Seq<char> {
    "Target protocol for fixture plan: "@ + decimal(target.0 as nat) + "\nAvailable compatibility surfaces:\n  xdr:     "@
        + switch_text(tests.xdr) + "\n  rpc:     "@ + switch_text(tests.rpc) + "\n  soroban: "@ + switch_text(
        tests.soroban,
    ) + "\n"@
}

fn push_switch(out: &mut String, on: bool)
    ensures
        final(out)@ == old(out)@ + switch_text(on),
{
    if on {
        out.append("enabled");
    } else {
        out.append("disabled");
    }
}

/// The second part of what `inspect` prints.
pub fn inspect_surfaces(target: ProtocolVersion, tests: &TestsSection) -> (s: String)
    ensures
        s@ == inspect_surfaces_text(target, *tests),
{
    let mut s = owned("Target protocol for fixture plan: ");
    push_decimal(&mut s, target.0 as u64);
    s.append("\nAvailable compatibility surfaces:\n  xdr:     ");
    push_switch(&mut s, tests.xdr);
    s.append("\n  rpc:     ");
    push_switch(&mut s, tests.rpc);
    s.append("\n  soroban: ");
    push_switch(&mut s, tests.soroban);
    s.append("\n");
    s
}

/// One indented line per fixture id, each prefixed with its surface.
pub open spec fn planned_lines(label: Seq<char>, ids: Seq<String>) -> Seq<char>
    decreases ids.len(),
{
    if ids.len() == 0 {
        Seq::empty()
    } else {
        planned_lines(label, ids.drop_last()) + "    "@ + label + ": "@ + ids.last()@ + "\n"@
    }
}

/// One indented line per skipped fixture: its id, surface and reason.
pub open spec fn skipped_lines(skipped: Seq<SkipSummary>) -> Seq<char>
    decreases skipped.len(),
{
    if skipped.len() == 0 {
        Seq::empty()
    } else {
        let k = skipped.last();
        skipped_lines(skipped.drop_last()) + "    "@ + k.fixture_id@ + " ["@ + surface_name(k.surface) + "]: "@
            + k.reason@ + "\n"@
    }
}

/// The last part of what `inspect` prints: the offline fixture plan, the
/// fixtures that would run by surface, then the skipped ones.
pub open spec fn inspect_plan_text(
    dir: Seq<char>,
    xdr: Seq<String>,
    rpc: Seq<String>,
    soroban: Seq<String>,
    skipped: Seq<SkipSummary>,
) -> Seq<char> {
    "\nFixture compatibility plan (offline):\n  Directory: "@ + dir + "\n  Loaded fixtures that would run:\n"@ + if xdr.len()
        + rpc.len() + soroban.len() == 0 {
        "    (none)\n"@
    } else {
        planned_lines("xdr"@, xdr) + planned_lines("rpc"@, rpc) + planned_lines("soroban"@, soroban)
    } + "  Skipped fixtures:\n"@ + if skipped.len() == 0 {
        "    (none)\n"@
    } else {
        skipped_lines(skipped)
    }
}

fn push_planned(out: &mut String, label: &str, ids: &Vec<String>)
    ensures
        final(out)@ == old(out)@ + planned_lines(label@, ids@),
{
    let ghost start = out@;
    let mut i: usize = 0;
    while i < ids.len()
        invariant
            i <= ids@.len(),
            out@ == start + planned_lines(label@, ids@.take(i as int)),
        decreases ids@.len() - i,
    {
        proof {
            assert(ids@.take(i + 1).drop_last() =~= ids@.take(i as int));
        }
        out.append("    ");
        out.append(label);
        out.append(": ");
        out.append(ids[i].as_str());
        out.append("\n");
        i = i + 1;
    }
    proof {
        assert(ids@.take(i as int) =~= ids@);
    }
}

fn push_skipped(out: &mut String, skipped: &Vec<SkipSummary>)
    ensures
        final(out)@ == old(out)@ + skipped_lines(skipped@),
{
    let ghost start = out@;
    let mut i: usize = 0;
    while i < skipped.len()
        invariant
            i <= skipped@.len(),
            out@ == start + skipped_lines(skipped@.take(i as int)),
        decreases skipped@.len() - i,
    {
        proof {
            assert(skipped@.take(i + 1).drop_last() =~= skipped@.take(i as int));
        }
        let k = &skipped[i];
        out.append("    ");
        out.append(k.fixture_id.as_str());
        out.append(" [");
        out.append(k.surface.as_str());
        out.append("]: ");
        out.append(k.reason.as_str());
        out.append("\n");
        i = i + 1;
    }
    proof {
        assert(skipped@.take(i as int) =~= skipped@);
    }
}

/// The last part of what `inspect` prints, for the fixtures directory
/// `dir`, the ids of the planned fixtures by surface and the skipped
/// fixtures.
pub fn inspect_plan(dir: &str, xdr: &Vec<String>, rpc: &Vec<String>, soroban: &Vec<String>, skipped: &Vec<SkipSummary>) -> (s: String)
    ensures
        s@ == inspect_plan_text(dir@, xdr@, rpc@, soroban@, skipped@),
{
    let mut s = owned("\nFixture compatibility plan (offline):\n  Directory: ");
    s.append(dir);
    s.append("\n  Loaded fixtures that would run:\n");
    if xdr.len() == 0 && rpc.len() == 0 && soroban.len() == 0 {
        s.append("    (none)\n");
    } else {
        push_planned(&mut s, "xdr", xdr);
        push_planned(&mut s, "rpc", rpc);
        push_planned(&mut s, "soroban", soroban);
    }
    s.append("  Skipped fixtures:\n");
    if skipped.len() == 0 {
        s.append("    (none)\n");
    } else {
        push_skipped(&mut s, skipped);
    }
    s
}

/// The network passphrase a well-known network uses; a custom network
/// has none built in.
pub open spec fn known_passphrase(name: NetworkName) -> Option<Seq<char>> {
    match name {
        NetworkName::Testnet => Some("Test SDF Network ; September 2015"@),
        NetworkName::Mainnet => Some("Public Global Stellar Network ; September 2015"@),
        NetworkName::Futurenet => Some("Test SDF Future Network ; October 2022"@),
        NetworkName::Custom(_) => None,
    }
}

/// The passphrase a run assumes for a network: the built-in one, or
/// empty for a custom network.
pub fn default_passphrase(name: &NetworkName) -> (p: String)
    ensures
        p@ == match known_passphrase(*name) {
            Some(k) => k,
            None => Seq::empty(),
        },
{
    match name {
        NetworkName::Testnet => owned("Test SDF Network ; September 2015"),
        NetworkName::Mainnet => owned("Public Global Stellar Network ; September 2015"),
        NetworkName::Futurenet => owned("Test SDF Future Network ; October 2022"),
        NetworkName::Custom(_) => String::new(),
    }
}

/// The endpoint a live run uses: the `--rpc-url` flag when given, else
/// the network's built-in endpoint; with neither, a configuration error
/// naming the network.
pub fn resolve_rpc_url(flag: Option<String>, built_in: Option<&str>, network: &NetworkName) -> (r: Result<String, CanaryError>)
    ensures
        flag matches Some(u) ==> r == Ok::<String, CanaryError>(u),
        flag is None && built_in is Some ==> (r matches Ok(u) && u@ == built_in->0@),
        flag is None && built_in is None ==> (r matches Err(CanaryError::Configuration(m)) && m@
            == "--rpc-url is required for network "@ + network_name_text(*network) + " (no built-in default)"@),
{
    match flag {
        Some(u) => Ok(u),
        None => match built_in {
            Some(u) => Ok(owned(u)),
            None => {
                let mut m = owned("--rpc-url is required for network ");
                let name = network.to_string();
                m.append(name.as_str());
                m.append(" (no built-in default)");
                Err(CanaryError::Configuration(m))
            },
        },
    }
}

/// The public RPC endpoint a well-known network offers, if it offers one:
/// SDF's endpoints for testnet and futurenet; none for mainnet or a
/// custom network.
pub open spec fn known_rpc_url(name: NetworkName) -> Option<Seq<char>> {
    match name {
        NetworkName::Testnet => Some("https://soroban-testnet.stellar.org"@),
        NetworkName::Futurenet => Some("https://rpc-futurenet.stellar.org"@),
        _ => None,
    }
}

/// The built-in RPC endpoint of a network, if it has one.
pub fn default_rpc_url(name: &NetworkName) -> (u: Option<&'static str>)
    ensures
        match known_rpc_url(*name) {
            Some(k) => u matches Some(v) && v@ == k,
            None => u is None,
        },
{
    match name {
        NetworkName::Testnet => Some("https://soroban-testnet.stellar.org"),
        NetworkName::Futurenet => Some("https://rpc-futurenet.stellar.org"),
        _ => None,
    }
}

} // verus!
