//! The decisions of the Stellar RPC (JSON-RPC 2.0 over HTTP) client: how
//! an HTTP outcome and a JSON-RPC envelope are classified, when a failed
//! call is retried, and whether an endpoint's reported network identity
//! matches what a run assumed. Sending the requests is the caller's part.

use vstd::prelude::*;

use crate::text::{decimal, owned, push_decimal, push_signed_decimal, signed_decimal};

verus! {

/// How `Debug` writes a string: quoted, with quotes, backslashes and
/// non-printable characters escaped.
pub uninterp spec fn debug_text(s: Seq<char>) -> Seq<char>;

/// `<str as Debug>::fmt`: the quoted, escaped form of `s`, as `{:?}`
/// writes it. The contract claims only that the result is that form of
/// the argument.
#[verifier::external_body]
pub(crate) fn debug_quoted(s: &str) -> (r: String)
    ensures
        r@ == debug_text(s@),
{
    format!("{:?}", s)
}

/// Network identity reported by `getNetwork`.
#[derive(Debug, Clone, PartialEq, Eq)]
pub struct NetworkInfo {
    pub friendbot_url: Option<String>,
    pub passphrase: String,
    pub protocol_version: u32,
}

/// Why an RPC call did not produce a usable result.
#[derive(Debug, Clone, PartialEq, Eq)]
pub enum RpcError {
    Transport { method: String, message: String },
    Timeout { method: String, attempts: u32 },
    InvalidJson { method: String, message: String },
    JsonRpcError { method: String, code: i64, message: String },
    InvalidResponse { method: String, reason: String },
    /// The endpoint is on a different network than the run requested.
    /// Raised only by [`validate_network_info`].
    NetworkMismatch { expected: String, actual: String },
    /// The endpoint reports a different protocol version than the run
    /// targets. Raised only by [`validate_network_info`].
    ProtocolMismatch { target: u32, observed: u32 },
    RateLimited { method: String, attempts: u32 },
}

/// The message of a network mismatch.
pub open spec fn network_mismatch_text(expected: Seq<char>, actual: Seq<char>) -> Seq<char> {
    "the RPC endpoint's network passphrase ("@ + debug_text(actual)
        + ") does not match the expected passphrase ("@ + debug_text(expected) + ")"@
}

/// The message of a protocol mismatch.
pub open spec fn protocol_mismatch_text(target: u32, observed: u32) -> Seq<char> {
    "the RPC endpoint reports protocol "@ + decimal(observed as nat) + ", but this run targets protocol "@
        + decimal(target as nat)
}

/// The message of an RPC error.
pub open spec fn rpc_error_text(e: RpcError) -> Seq<char> {
    match e {
        RpcError::Transport { method, message } => "network transport error calling "@ + method@
            + ": "@ + message@,
        RpcError::Timeout { method, attempts } => "timed out calling "@ + method@ + " after "@
            + decimal(attempts as nat) + " attempt(s)"@,
        RpcError::InvalidJson { method, message } => "invalid JSON response from "@ + method@
            + ": "@ + message@,
        RpcError::JsonRpcError { method, code, message } => "RPC "@ + method@
            + " returned a JSON-RPC error (code "@ + signed_decimal(code as int) + "): "@ + message@,
        RpcError::InvalidResponse { method, reason } => "unexpected response shape from "@ + method@
            + ": "@ + reason@,
        RpcError::NetworkMismatch { expected, actual } => network_mismatch_text(expected@, actual@),
        RpcError::ProtocolMismatch { target, observed } => protocol_mismatch_text(target, observed),
        RpcError::RateLimited { method, attempts } => "RPC endpoint rate-limited "@ + method@
            + " after "@ + decimal(attempts as nat) + " attempt(s)"@,
    }
}

impl RpcError {
    /// The human-readable message of this error.
    pub fn message(&self) -> (s: String)
        ensures
            s@ == rpc_error_text(*self),
    {
        match self {
            RpcError::Transport { method, message } => {
                let mut s = owned("network transport error calling ");
                s.append(method.as_str());
                s.append(": ");
                s.append(message.as_str());
                s
            },
            RpcError::Timeout { method, attempts } => {
                let mut s = owned("timed out calling ");
                s.append(method.as_str());
                s.append(" after ");
                push_decimal(&mut s, *attempts as u64);
                s.append(" attempt(s)");
                s
            },
            RpcError::InvalidJson { method, message } => {
                let mut s = owned("invalid JSON response from ");
                s.append(method.as_str());
                s.append(": ");
                s.append(message.as_str());
                s
            },
            RpcError::JsonRpcError { method, code, message } => {
                let mut s = owned("RPC ");
                s.append(method.as_str());
                s.append(" returned a JSON-RPC error (code ");
                push_signed_decimal(&mut s, *code);
                s.append("): ");
                s.append(message.as_str());
                s
            },
            RpcError::InvalidResponse { method, reason } => {
                let mut s = owned("unexpected response shape from ");
                s.append(method.as_str());
                s.append(": ");
                s.append(reason.as_str());
                s
            },
            RpcError::NetworkMismatch { expected, actual } => {
                let mut s = owned("the RPC endpoint's network passphrase (");
                let a = debug_quoted(actual.as_str());
                s.append(a.as_str());
                s.append(") does not match the expected passphrase (");
                let e = debug_quoted(expected.as_str());
                s.append(e.as_str());
                s.append(")");
                s
            },
            RpcError::ProtocolMismatch { target, observed } => {
                let mut s = owned("the RPC endpoint reports protocol ");
                push_decimal(&mut s, *observed as u64);
                s.append(", but this run targets protocol ");
                push_decimal(&mut s, *target as u64);
                s
            },
            RpcError::RateLimited { method, attempts } => {
                let mut s = owned("RPC endpoint rate-limited ");
                s.append(method.as_str());
                s.append(" after ");
                push_decimal(&mut s, *attempts as u64);
                s.append(" attempt(s)");
                s
            },
        }
    }
}

/// Whether the endpoint's passphrase is acceptable: it equals the
/// expected one, or none is expected (custom networks have no well-known
/// passphrase).
pub open spec fn passphrase_accepted(info: NetworkInfo, expected_passphrase: Seq<char>) -> bool {
    expected_passphrase.len() == 0 || info.passphrase@ == expected_passphrase
}

/// Checks a freshly fetched [`NetworkInfo`] against the run's expected
/// network passphrase and target protocol.
pub fn validate_network_info(info: &NetworkInfo, expected_passphrase: &str, target_protocol: u32) -> (r: Result<(), RpcError>)
    ensures
        match r {
            Ok(()) => passphrase_accepted(*info, expected_passphrase@) && info.protocol_version
                == target_protocol,
            Err(RpcError::NetworkMismatch { expected, actual }) => {
                &&& !passphrase_accepted(*info, expected_passphrase@)
                &&& expected@ == expected_passphrase@
                &&& actual == info.passphrase
            },
            Err(RpcError::ProtocolMismatch { target, observed }) => {
                &&& passphrase_accepted(*info, expected_passphrase@)
                &&& info.protocol_version != target_protocol
                &&& target == target_protocol
                &&& observed == info.protocol_version
            },
            Err(_) => false,
        },
{
    let expected = owned(expected_passphrase);
    if !expected_passphrase.is_empty() && info.passphrase != expected {
        return Err(RpcError::NetworkMismatch { expected, actual: info.passphrase.clone() });
    }
    if info.protocol_version != target_protocol {
        return Err(
            RpcError::ProtocolMismatch { target: target_protocol, observed: info.protocol_version },
        );
    }
    Ok(())
}

/// Bounded retry policy for transient failures.
#[derive(Debug, Clone, Copy)]
pub struct RetryPolicy {
    pub max_attempts: u32,
    pub base_delay: std::time::Duration,
}

/// `Duration::from_millis` makes a duration of that many milliseconds;
/// nothing about the value is claimed here.
pub assume_specification[ core::time::Duration::from_millis ](millis: u64) -> core::time::Duration;

impl Default for RetryPolicy {
    fn default() -> (p: Self)
        ensures
            p.max_attempts == 3,
    {
        RetryPolicy { max_attempts: 3, base_delay: std::time::Duration::from_millis(200) }
    }
}

/// Only transport errors, timeouts and rate limiting are transient;
/// malformed requests, JSON-RPC errors and invalid responses are
/// deterministic and retrying them would never help.
pub open spec fn retryable(e: RpcError) -> bool {
    e matches RpcError::Transport { .. } || e matches RpcError::Timeout { .. }
        || e matches RpcError::RateLimited { .. }
}

pub fn is_retryable(error: &RpcError) -> (b: bool)
    ensures
        b == retryable(*error),
{
    match error {
        RpcError::Transport { .. } | RpcError::Timeout { .. } | RpcError::RateLimited { .. } => true,
        _ => false,
    }
}

/// What the client does after one attempt of a call.
#[derive(Debug)]
pub enum CallStep<T> {
    /// The call is over, with this outcome.
    Done(Result<T, RpcError>),
    /// Sleep for the base delay times this factor, then try again.
    RetryAfter(u32),
}

/// The outcome a call ends with after `attempt` attempts, the last of
/// which gave `e`: a timeout or rate limiting reports the number of
/// attempts made; any other error is returned as it is.
pub open spec fn final_error(e: RpcError, attempt: u32) -> RpcError {
    match e {
        RpcError::Timeout { method, .. } => RpcError::Timeout { method, attempts: attempt },
        RpcError::RateLimited { method, .. } => RpcError::RateLimited { method, attempts: attempt },
        other => other,
    }
}

/// The step after the `attempt`-th attempt (counted from one) of a call
/// allowed `max_attempts` attempts gave `outcome`: a success ends the
/// call; a transient error is retried after `attempt` times the base delay
/// while fewer than `max_attempts` attempts have been made; anything else
/// ends the call with [`final_error`].
pub open spec fn next_step<T>(max_attempts: u32, attempt: u32, outcome: Result<T, RpcError>) -> CallStep<T> {
    match outcome {
        Ok(v) => CallStep::Done(Ok(v)),
        Err(e) => if retryable(e) && attempt < max_attempts {
            CallStep::RetryAfter(attempt)
        } else {
            CallStep::Done(Err(final_error(e, attempt)))
        },
    }
}

/// Decides the next step of a call after its `attempt`-th attempt gave
/// `outcome`, as [`next_step`] says.
pub fn call_step<T>(policy: &RetryPolicy, attempt: u32, outcome: Result<T, RpcError>) -> (s: CallStep<T>)
    ensures
        s == next_step(policy.max_attempts, attempt, outcome),
        attempt >= policy.max_attempts ==> s is Done,
{
    match outcome {
        Ok(v) => CallStep::Done(Ok(v)),
        Err(err) => {
            if is_retryable(&err) && attempt < policy.max_attempts {
                CallStep::RetryAfter(attempt)
            } else {
                match err {
                    RpcError::Timeout { method, .. } => CallStep::Done(
                        Err(RpcError::Timeout { method, attempts: attempt }),
                    ),
                    RpcError::RateLimited { method, .. } => CallStep::Done(
                        Err(RpcError::RateLimited { method, attempts: attempt }),
                    ),
                    other => CallStep::Done(Err(other)),
                }
            }
        },
    }
}

/// How a whole call ends when its attempts give `outcomes` in turn (the
/// `k`-th attempt gives `outcomes[k - 1]`) and each is followed by
/// [`next_step`]: the number of the attempt that ends it, counted from
/// `attempt` on, and the outcome it ends with.
pub open spec fn call_end<T>(max_attempts: u32, outcomes: Seq<Result<T, RpcError>>, attempt: int) -> (int, Result<T, RpcError>)
    decreases max_attempts - attempt,
{
    if 1 <= attempt && attempt < max_attempts {
        match next_step(max_attempts, attempt as u32, outcomes[attempt - 1]) {
            CallStep::Done(r) => (attempt, r),
            CallStep::RetryAfter(_) => call_end(max_attempts, outcomes, attempt + 1),
        }
    } else {
        match next_step(max_attempts, attempt as u32, outcomes[attempt - 1]) {
            CallStep::Done(r) => (attempt, r),
            CallStep::RetryAfter(_) => (attempt, outcomes[attempt - 1]),
        }
    }
}

/// The number of attempts a call allowed `max_attempts` makes at most:
/// the first attempt is always made.
pub open spec fn attempt_budget(max_attempts: u32) -> int {
    if max_attempts == 0 { 1 } else { max_attempts as int }
}

/// Whether an attempt failed with a transient error.
pub open spec fn transient_failure<T>(outcome: Result<T, RpcError>) -> bool {
    outcome is Err && retryable(outcome->Err_0)
}

/// When every attempt fails with a transient error (transport, timeout,
/// rate limiting), a call makes exactly `max(max_attempts, 1)` attempts
/// and ends with the last attempt's error, a timeout or rate limiting
/// reporting that number of attempts.
pub proof fn lemma_transient_failures_use_every_attempt<T>(max_attempts: u32, outcomes: Seq<Result<T, RpcError>>)
    requires
        outcomes.len() >= attempt_budget(max_attempts),
        forall|k: int| 0 <= k < attempt_budget(max_attempts) ==> transient_failure(#[trigger] outcomes[k]),
    ensures
        call_end(max_attempts, outcomes, 1) == (
            attempt_budget(max_attempts),
            Err::<T, RpcError>(final_error(outcomes[attempt_budget(max_attempts) - 1]->Err_0, attempt_budget(max_attempts) as u32)),
        ),
{
    lemma_transient_failures_from::<T>(max_attempts, outcomes, 1);
}

proof fn lemma_transient_failures_from<T>(max_attempts: u32, outcomes: Seq<Result<T, RpcError>>, attempt: int)
    requires
        1 <= attempt <= attempt_budget(max_attempts),
        outcomes.len() >= attempt_budget(max_attempts),
        forall|k: int| 0 <= k < attempt_budget(max_attempts) ==> transient_failure(#[trigger] outcomes[k]),
    ensures
        call_end(max_attempts, outcomes, attempt) == (
            attempt_budget(max_attempts),
            Err::<T, RpcError>(final_error(outcomes[attempt_budget(max_attempts) - 1]->Err_0, attempt_budget(max_attempts) as u32)),
        ),
    decreases max_attempts - attempt,
{
    assert(transient_failure(outcomes[attempt - 1]));
    if attempt < max_attempts {
        lemma_transient_failures_from(max_attempts, outcomes, attempt + 1);
    }
}

/// When the first attempt fails with an error that is not transient (a
/// JSON-RPC error, invalid JSON, an invalid response), a call makes that
/// one attempt and ends with that error, whatever `max_attempts` is.
pub proof fn lemma_permanent_failure_ends_the_call<T>(max_attempts: u32, outcomes: Seq<Result<T, RpcError>>)
    requires
        outcomes.len() >= 1,
        outcomes[0] is Err && !retryable(outcomes[0]->Err_0),
    ensures
        call_end(max_attempts, outcomes, 1) == (1int, outcomes[0]),
{
}

/// Classifies an HTTP response status. `status_text` is the status as it
/// is displayed (code and reason).
pub fn classify_status(method: &str, status: u16, status_text: &str) -> (r: Option<RpcError>)
    ensures
        match r {
            None => !(status == 429 || (500 <= status <= 599)),
            Some(RpcError::RateLimited { method: m, attempts }) => status == 429 && m@ == method@
                && attempts == 0,
            Some(RpcError::Transport { method: m, message }) => 500 <= status <= 599 && m@ == method@
                && message@ == "server returned status "@ + status_text@,
            Some(_) => false,
        },
{
    if status == 429 {
        Some(RpcError::RateLimited { method: owned(method), attempts: 0 })
    } else if 500 <= status && status <= 599 {
        let mut message = owned("server returned status ");
        message.append(status_text);
        Some(RpcError::Transport { method: owned(method), message })
    } else {
        None
    }
}

/// Classifies a failure to send a request: a timeout, or a transport
/// error with the client's message.
pub fn classify_send_error(method: &str, is_timeout: bool, message: String) -> (e: RpcError)
    ensures
        is_timeout ==> (e matches RpcError::Timeout { method: m, attempts } && m@ == method@
            && attempts == 0),
        !is_timeout ==> (e matches RpcError::Transport { method: m, message: msg } && m@ == method@
            && msg == message),
{
    if is_timeout {
        RpcError::Timeout { method: owned(method), attempts: 0 }
    } else {
        RpcError::Transport { method: owned(method), message }
    }
}

/// What a JSON-RPC response envelope holds, as far as the client reads it.
#[derive(Debug, Clone, PartialEq, Eq)]
pub struct Envelope {
    /// The `error` member, when present: its integer `code` and string
    /// `message`, each when present with that type.
    pub error: Option<(Option<i64>, Option<String>)>,
    /// Whether the `result` member is present.
    pub has_result: bool,
}

/// Reads an envelope: an `error` member becomes a JSON-RPC error (code 0
/// and message `unknown error` when missing); without a `result` member
/// the response shape is invalid; otherwise the result can be decoded.
pub fn check_envelope(method: &str, envelope: &Envelope) -> (r: Result<(), RpcError>)
    ensures
        match envelope.error {
            Some((code, message)) => r matches Err(RpcError::JsonRpcError { method: m, code: c, message: msg })
                && m@ == method@ && c == (match code { Some(x) => x, None => 0i64 }) && msg@ == match message {
                Some(x) => x@,
                None => "unknown error"@,
            },
            None => if envelope.has_result {
                r is Ok
            } else {
                r matches Err(RpcError::InvalidResponse { method: m, reason }) && m@ == method@
                    && reason@ == "response has neither \"result\" nor \"error\""@
            },
        },
{
    match &envelope.error {
        Some((code, message)) => {
            let code = match code {
                Some(c) => *c,
                None => 0,
            };
            let message = match message {
                Some(m) => m.clone(),
                None => owned("unknown error"),
            };
            Err(RpcError::JsonRpcError { method: owned(method), code, message })
        },
        None => {
            if envelope.has_result {
                Ok(())
            } else {
                Err(
                    RpcError::InvalidResponse {
                        method: owned(method),
                        reason: owned("response has neither \"result\" nor \"error\""),
                    },
                )
            }
        },
    }
}

/// What a JSON-RPC response body holds, as far as the client reads it: the
/// `error` member's integer `code` and string `message` (each when present
/// with that type), and the compact JSON text of the `result` member.
#[derive(Debug, Clone, PartialEq, Eq)]
pub struct ResponseBody {
    pub error: Option<(Option<i64>, Option<String>)>,
    pub result: Option<String>,
}

/// The view of a response body.
pub open spec fn body_view(b: ResponseBody) -> (Option<(Option<i64>, Option<Seq<char>>)>, Option<Seq<char>>) {
    (
        match b.error {
            Some((code, message)) => Some(
                (
                    code,
                    match message {
                        Some(m) => Some(m@),
                        None => None,
                    },
                ),
            ),
            None => None,
        },
        match b.result {
            Some(t) => Some(t@),
            None => None,
        },
    )
}

/// What `serde_json` reads from a response body's text: the members the
/// client uses, or the parser's message.
pub uninterp spec fn json_response_body(text: Seq<char>) -> Result<
    (Option<(Option<i64>, Option<Seq<char>>)>, Option<Seq<char>>),
    Seq<char>,
>;

/// `serde_json::from_str` into a `serde_json::Value`, then the members
/// `error.code` (`as_i64`), `error.message` (`as_str`) and `result` (as
/// its compact JSON text); a parse failure is kept as the parser's
/// message. The contract claims only that the outcome is the named
/// function of the text.
#[verifier::external_body]
fn parse_response_body(text: &str) -> (r: Result<ResponseBody, String>)
    ensures
        match r {
            Ok(b) => json_response_body(text@) == Ok::<_, Seq<char>>(body_view(b)),
            Err(m) => json_response_body(text@) == Err::<(Option<(Option<i64>, Option<Seq<char>>)>, Option<Seq<char>>), Seq<char>>(m@),
        },
{
    let v: serde_json::Value = serde_json::from_str(text).map_err(|e| e.to_string())?;
    let error = v.get("error").map(|e| {
        (e.get("code").and_then(serde_json::Value::as_i64), e.get("message").and_then(serde_json::Value::as_str).map(str::to_string))
    });
    Ok(ResponseBody { error, result: v.get("result").map(|r| r.to_string()) })
}

/// Reads a JSON-RPC response body: text that is not JSON is an invalid
/// JSON error carrying the parser's message; otherwise the envelope is
/// checked as [`check_envelope`] does, and a good envelope gives the
/// compact JSON text of its `result` member.
pub fn read_response(method: &str, text: &str) -> (r: Result<String, RpcError>)
    ensures
        match json_response_body(text@) {
            Err(m) => r matches Err(RpcError::InvalidJson { method: me, message }) && me@ == method@
                && message@ == m,
            Ok((error, result)) => match error {
                Some((code, message)) => r matches Err(RpcError::JsonRpcError { method: me, code: c, message: msg })
                    && me@ == method@ && c == (match code { Some(x) => x, None => 0i64 }) && msg@ == match message {
                    Some(x) => x,
                    None => "unknown error"@,
                },
                None => match result {
                    Some(t) => r matches Ok(s) && s@ == t,
                    None => r matches Err(RpcError::InvalidResponse { method: me, reason }) && me@ == method@
                        && reason@ == "response has neither \"result\" nor \"error\""@,
                },
            },
        },
{
    match parse_response_body(text) {
        Err(message) => Err(RpcError::InvalidJson { method: owned(method), message }),
        Ok(body) => {
            let envelope = Envelope { error: body.error, has_result: body.result.is_some() };
            match check_envelope(method, &envelope) {
                Err(e) => Err(e),
                Ok(()) => match body.result {
                    Some(t) => Ok(t),
                    None => Err(
                        RpcError::InvalidResponse {
                            method: owned(method),
                            reason: owned("response has neither \"result\" nor \"error\""),
                        },
                    ),
                },
            }
        },
    }
}

} // verus!
