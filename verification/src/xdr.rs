//! The XDR compatibility runner: reading an XDR fixture's body, and
//! judging a value's decoding and re-encoding with the official
//! `stellar-xdr` crate against the fixture's declared expectation.

use stellar_xdr::{Limits, ReadXdr, WriteXdr};
use vstd::prelude::*;

use crate::errors::CanaryError;
use crate::model::{CompatibilityResult, ExecutionContext, FixtureMetadata, Status, Surface};
use crate::rpc_client::{debug_quoted, debug_text};
use crate::text::{owned, str_eq};

verus! {

/// A fixture body that cannot be used.
#[derive(Debug, Clone, PartialEq, Eq)]
pub enum XdrError {
    InvalidFixtureBody { source_path: std::path::PathBuf, reason: String },
}

/// The XDR types fixtures can name.
#[derive(Debug, Clone, Copy, PartialEq, Eq, Structural)]
pub enum XdrTypeName {
    StellarValue,
    ContractExecutable,
    ScVal,
}

/// The name of an XDR type, as it is displayed and written in fixtures.
pub open spec fn xdr_type_text(t: XdrTypeName) -> Seq<char> {
    match t {
        XdrTypeName::StellarValue => "StellarValue"@,
        XdrTypeName::ContractExecutable => "ContractExecutable"@,
        XdrTypeName::ScVal => "ScVal"@,
    }
}

/// The type a fixture names, or why the name is not supported; the
/// reason lists every supported type.
pub open spec fn xdr_type_named(s: Seq<char>) -> Result<XdrTypeName, Seq<char>> {
    if s == "StellarValue"@ {
        Ok(XdrTypeName::StellarValue)
    } else if s == "ContractExecutable"@ {
        Ok(XdrTypeName::ContractExecutable)
    } else if s == "ScVal"@ {
        Ok(XdrTypeName::ScVal)
    } else {
        Err(
            "unsupported xdr type "@ + debug_text(s)
                + ": supported types are: \"StellarValue\", \"ContractExecutable\", \"ScVal\""@,
        )
    }
}

impl XdrTypeName {
    pub fn as_str(&self) -> (s: &'static str)
        ensures
            s@ == xdr_type_text(*self),
    {
        match self {
            XdrTypeName::StellarValue => "StellarValue",
            XdrTypeName::ContractExecutable => "ContractExecutable",
            XdrTypeName::ScVal => "ScVal",
        }
    }

    pub fn from_str(s: &str) -> (r: Result<XdrTypeName, String>)
        ensures
            match r {
                Ok(t) => xdr_type_named(s@) == Ok::<XdrTypeName, Seq<char>>(t),
                Err(e) => xdr_type_named(s@) == Err::<XdrTypeName, Seq<char>>(e@),
            },
    {
        if str_eq(s, "StellarValue") {
            Ok(XdrTypeName::StellarValue)
        } else if str_eq(s, "ContractExecutable") {
            Ok(XdrTypeName::ContractExecutable)
        } else if str_eq(s, "ScVal") {
            Ok(XdrTypeName::ScVal)
        } else {
            let mut e = owned("unsupported xdr type ");
            let q = debug_quoted(s);
            e.append(q.as_str());
            e.append(": supported types are: \"StellarValue\", \"ContractExecutable\", \"ScVal\"");
            Err(e)
        }
    }
}

/// What decoding a base64 value as an XDR type and encoding the decoded
/// value again gives.
#[derive(Debug, Clone, PartialEq, Eq)]
pub enum XdrRoundtrip {
    /// Decoding failed, with the decoder's message.
    DecodeFailed(String),
    /// Decoding succeeded and re-encoding failed, with the encoder's
    /// message.
    EncodeFailed(String),
    /// Decoding and re-encoding succeeded, giving this base64 text.
    Encoded(String),
}

/// The view of a round-trip outcome.
pub open spec fn roundtrip_view(r: XdrRoundtrip) -> (u8, Seq<char>) {
    match r {
        XdrRoundtrip::DecodeFailed(m) => (0, m@),
        XdrRoundtrip::EncodeFailed(m) => (1, m@),
        XdrRoundtrip::Encoded(s) => (2, s@),
    }
}

/// The deepest nesting, counted as `stellar-xdr` counts it, that a value
/// is decoded and encoded with. Deeper input is refused with an error
/// rather than recursing without bound.
pub const XDR_DEPTH_LIMIT: u32 = 500;

/// The outcome of decoding base64 text as a `StellarValue` and
/// re-encoding it, with this depth limit.
pub uninterp spec fn stellar_value_roundtrip(value_base64: Seq<char>, depth: u32) -> (u8, Seq<char>);

/// The outcome of decoding base64 text as a `ContractExecutable` and
/// re-encoding it, with this depth limit.
pub uninterp spec fn contract_executable_roundtrip(value_base64: Seq<char>, depth: u32) -> (u8, Seq<char>);

/// The outcome of decoding base64 text as an `ScVal` and re-encoding it,
/// with this depth limit.
pub uninterp spec fn sc_val_roundtrip(value_base64: Seq<char>, depth: u32) -> (u8, Seq<char>);

/// The outcome of decoding `value_base64` as the XDR type `xdr_type` with
/// `stellar-xdr` (depth limit [`XDR_DEPTH_LIMIT`], no length limit) and
/// re-encoding the decoded value to base64: `(0, message)` when decoding
/// fails, `(1, message)` when re-encoding fails, `(2, text)` for the
/// re-encoded text.
pub open spec fn roundtrip_outcome(xdr_type: XdrTypeName, value_base64: Seq<char>) -> (u8, Seq<char>) {
    match xdr_type {
        XdrTypeName::StellarValue => stellar_value_roundtrip(value_base64, XDR_DEPTH_LIMIT),
        XdrTypeName::ContractExecutable => contract_executable_roundtrip(value_base64, XDR_DEPTH_LIMIT),
        XdrTypeName::ScVal => sc_val_roundtrip(value_base64, XDR_DEPTH_LIMIT),
    }
}

/// `StellarValue::from_xdr_base64` then, on success, `to_xdr_base64` of
/// the decoded value, both with `Limits::depth(depth)`; errors are kept as
/// their messages. The contract claims only that the outcome is the named
/// function of the input and the limit. The limit is kept at most
/// [`XDR_DEPTH_LIMIT`], so that the decoder's recursion stays shallow.
#[verifier::external_body]
fn roundtrip_stellar_value(value_base64: &str, depth: u32) -> (r: XdrRoundtrip)
    requires
        depth <= XDR_DEPTH_LIMIT,
    ensures
        roundtrip_view(r) == stellar_value_roundtrip(value_base64@, depth),
{
    match stellar_xdr::StellarValue::from_xdr_base64(value_base64, Limits::depth(depth)) {
        Err(e) => XdrRoundtrip::DecodeFailed(e.to_string()),
        Ok(v) => match v.to_xdr_base64(Limits::depth(depth)) {
            Ok(s) => XdrRoundtrip::Encoded(s),
            Err(e) => XdrRoundtrip::EncodeFailed(e.to_string()),
        },
    }
}

/// `ContractExecutable::from_xdr_base64` then, on success,
/// `to_xdr_base64` of the decoded value, both with `Limits::depth(depth)`;
/// errors are kept as their messages. The contract claims only that the
/// outcome is the named function of the input and the limit.
#[verifier::external_body]
fn roundtrip_contract_executable(value_base64: &str, depth: u32) -> (r: XdrRoundtrip)
    requires
        depth <= XDR_DEPTH_LIMIT,
    ensures
        roundtrip_view(r) == contract_executable_roundtrip(value_base64@, depth),
{
    match stellar_xdr::ContractExecutable::from_xdr_base64(value_base64, Limits::depth(depth)) {
        Err(e) => XdrRoundtrip::DecodeFailed(e.to_string()),
        Ok(v) => match v.to_xdr_base64(Limits::depth(depth)) {
            Ok(s) => XdrRoundtrip::Encoded(s),
            Err(e) => XdrRoundtrip::EncodeFailed(e.to_string()),
        },
    }
}

/// `ScVal::from_xdr_base64` then, on success, `to_xdr_base64` of the
/// decoded value, both with `Limits::depth(depth)`; errors are kept as
/// their messages. The contract claims only that the outcome is the named
/// function of the input and the limit. `ScVal` nests without bound, so
/// the limit is what turns deeply nested input into a decoding error.
#[verifier::external_body]
fn roundtrip_sc_val(value_base64: &str, depth: u32) -> (r: XdrRoundtrip)
    requires
        depth <= XDR_DEPTH_LIMIT,
    ensures
        roundtrip_view(r) == sc_val_roundtrip(value_base64@, depth),
{
    match stellar_xdr::ScVal::from_xdr_base64(value_base64, Limits::depth(depth)) {
        Err(e) => XdrRoundtrip::DecodeFailed(e.to_string()),
        Ok(v) => match v.to_xdr_base64(Limits::depth(depth)) {
            Ok(s) => XdrRoundtrip::Encoded(s),
            Err(e) => XdrRoundtrip::EncodeFailed(e.to_string()),
        },
    }
}

/// Decodes `value_base64` as `xdr_type` and re-encodes the decoded value,
/// with the depth limit [`XDR_DEPTH_LIMIT`].
pub fn xdr_roundtrip(xdr_type: XdrTypeName, value_base64: &str) -> (r: XdrRoundtrip)
    ensures
        roundtrip_view(r) == roundtrip_outcome(xdr_type, value_base64@),
{
    match xdr_type {
        XdrTypeName::StellarValue => roundtrip_stellar_value(value_base64, XDR_DEPTH_LIMIT),
        XdrTypeName::ContractExecutable => roundtrip_contract_executable(value_base64, XDR_DEPTH_LIMIT),
        XdrTypeName::ScVal => roundtrip_sc_val(value_base64, XDR_DEPTH_LIMIT),
    }
}

/// The assertion an XDR fixture makes about a value.
#[derive(Debug, Clone, PartialEq, Eq)]
pub enum XdrAssertion {
    /// The value must decode successfully.
    DecodeSuccess { value_base64: String },
    /// The value must fail to decode.
    DecodeFailure { value_base64: String },
    /// Decoding then re-encoding the value must reproduce the same bytes.
    Roundtrip { value_base64: String },
    /// Decoding then re-encoding the value must produce `expected_base64`.
    EncodeEquals { value_base64: String, expected_base64: String },
}

/// A fully parsed XDR compatibility fixture.
#[derive(Debug, Clone)]
pub struct XdrFixture {
    pub metadata: FixtureMetadata,
    pub xdr_type: XdrTypeName,
    pub assertion: XdrAssertion,
}

/// The value an assertion is about.
pub open spec fn assertion_input(a: XdrAssertion) -> Seq<char> {
    match a {
        XdrAssertion::DecodeSuccess { value_base64 } => value_base64@,
        XdrAssertion::DecodeFailure { value_base64 } => value_base64@,
        XdrAssertion::Roundtrip { value_base64 } => value_base64@,
        XdrAssertion::EncodeEquals { value_base64, .. } => value_base64@,
    }
}

/// The status, summary and details a fixture gets, given the outcome of
/// decoding and re-encoding its value.
pub open spec fn xdr_evaluation(fixture: XdrFixture) -> (Status, Seq<char>, Option<Seq<char>>) {
    let t = xdr_type_text(fixture.xdr_type);
    let outcome = roundtrip_outcome(fixture.xdr_type, assertion_input(fixture.assertion));
    let decoded = outcome.0 != 0;
    match fixture.assertion {
        XdrAssertion::DecodeSuccess { .. } => if decoded {
            (Status::Pass, "decoded "@ + t + " successfully"@, None)
        } else {
            (Status::Fail, "failed to decode "@ + t, Some(outcome.1))
        },
        XdrAssertion::DecodeFailure { .. } => if decoded {
            (Status::Fail, "expected decoding "@ + t + " to fail, but it succeeded"@, None)
        } else {
            (Status::Pass, t + " was correctly rejected"@, Some(outcome.1))
        },
        XdrAssertion::Roundtrip { value_base64 } => if outcome.0 == 0 {
            (Status::Fail, "failed to decode "@ + t + " for roundtrip"@, Some(outcome.1))
        } else if outcome.0 == 1 {
            (Status::Error, "failed to re-encode a successfully decoded value"@, Some(outcome.1))
        } else if outcome.1 == value_base64@ {
            (Status::Pass, t + " round-tripped byte-for-byte"@, None)
        } else {
            (
                Status::Fail,
                t + " did not round-trip byte-for-byte"@,
                Some("input:  "@ + value_base64@ + "\noutput: "@ + outcome.1),
            )
        },
        XdrAssertion::EncodeEquals { expected_base64, .. } => if outcome.0 == 0 {
            (Status::Fail, "failed to decode "@ + t + " input"@, Some(outcome.1))
        } else if outcome.0 == 1 {
            (Status::Error, "failed to re-encode a successfully decoded value"@, Some(outcome.1))
        } else if outcome.1 == expected_base64@ {
            (Status::Pass, t + " encoded to the expected bytes"@, None)
        } else {
            (
                Status::Fail,
                t + " did not encode to the expected bytes"@,
                Some("expected: "@ + expected_base64@ + "\nactual:   "@ + outcome.1),
            )
        },
    }
}

/// What each XDR assertion demands of its value, decoded and re-encoded as
/// the fixture's type. `decode-success` passes exactly when the value
/// decodes and `decode-failure` exactly when it does not; `roundtrip`
/// passes exactly when re-encoding gives the value's own text back, and
/// `encode-equals` exactly when it gives the expected text. For those two,
/// a value that re-encoding fails on is an execution error, and anything
/// else a failure. Whenever a value that had to decode does not, the
/// fixture fails with the decoder's message as its details.
pub proof fn lemma_each_xdr_assertion_demands_what_it_names(f: XdrFixture)
    ensures
        f.assertion matches XdrAssertion::DecodeSuccess { value_base64 } ==> {
            let o = roundtrip_outcome(f.xdr_type, value_base64@);
            &&& (xdr_evaluation(f).0 == Status::Pass <==> o.0 != 0)
            &&& (o.0 == 0 ==> xdr_evaluation(f).0 == Status::Fail && xdr_evaluation(f).2 == Some(o.1))
        },
        f.assertion matches XdrAssertion::DecodeFailure { value_base64 } ==> {
            let o = roundtrip_outcome(f.xdr_type, value_base64@);
            &&& (xdr_evaluation(f).0 == Status::Pass <==> o.0 == 0)
            &&& (o.0 != 0 ==> xdr_evaluation(f).0 == Status::Fail)
        },
        f.assertion matches XdrAssertion::Roundtrip { value_base64 } ==> {
            let o = roundtrip_outcome(f.xdr_type, value_base64@);
            &&& (xdr_evaluation(f).0 == Status::Pass <==> o.0 != 0 && o.0 != 1 && o.1 == value_base64@)
            &&& (xdr_evaluation(f).0 == Status::Error <==> o.0 == 1)
            &&& (o.0 == 0 ==> xdr_evaluation(f).0 == Status::Fail && xdr_evaluation(f).2 == Some(o.1))
            &&& (xdr_evaluation(f).0 == Status::Pass || xdr_evaluation(f).0 == Status::Fail
                || xdr_evaluation(f).0 == Status::Error)
        },
        f.assertion matches XdrAssertion::EncodeEquals { value_base64, expected_base64 } ==> {
            let o = roundtrip_outcome(f.xdr_type, value_base64@);
            &&& (xdr_evaluation(f).0 == Status::Pass <==> o.0 != 0 && o.0 != 1 && o.1 == expected_base64@)
            &&& (xdr_evaluation(f).0 == Status::Error <==> o.0 == 1)
            &&& (o.0 == 0 ==> xdr_evaluation(f).0 == Status::Fail && xdr_evaluation(f).2 == Some(o.1))
            &&& (xdr_evaluation(f).0 == Status::Pass || xdr_evaluation(f).0 == Status::Fail
                || xdr_evaluation(f).0 == Status::Error)
        },
{
}

fn phrase(a: &str, b: &str) -> (s: String)
    ensures
        s@ == a@ + b@,
{
    let mut s = owned(a);
    s.append(b);
    s
}

fn phrase3(a: &str, b: &str, c: &str) -> (s: String)
    ensures
        s@ == a@ + b@ + c@,
{
    let mut s = owned(a);
    s.append(b);
    s.append(c);
    s
}

/// Judges a fixture's value against its assertion.
pub fn evaluate(fixture: &XdrFixture) -> (r: (Status, String, Option<String>))
    ensures
        r.0 == xdr_evaluation(*fixture).0,
        r.1@ == xdr_evaluation(*fixture).1,
        match r.2 {
            Some(d) => xdr_evaluation(*fixture).2 == Some(d@),
            None => xdr_evaluation(*fixture).2 is None,
        },
{
    let t = fixture.xdr_type.as_str();
    match &fixture.assertion {
        XdrAssertion::DecodeSuccess { value_base64 } => match xdr_roundtrip(fixture.xdr_type, value_base64.as_str()) {
            XdrRoundtrip::DecodeFailed(e) => (Status::Fail, phrase("failed to decode ", t), Some(e)),
            _ => (Status::Pass, phrase3("decoded ", t, " successfully"), None),
        },
        XdrAssertion::DecodeFailure { value_base64 } => match xdr_roundtrip(fixture.xdr_type, value_base64.as_str()) {
            XdrRoundtrip::DecodeFailed(e) => (Status::Pass, phrase(t, " was correctly rejected"), Some(e)),
            _ => (Status::Fail, phrase3("expected decoding ", t, " to fail, but it succeeded"), None),
        },
        XdrAssertion::Roundtrip { value_base64 } => match xdr_roundtrip(fixture.xdr_type, value_base64.as_str()) {
            XdrRoundtrip::DecodeFailed(e) => (Status::Fail, phrase3("failed to decode ", t, " for roundtrip"), Some(e)),
            XdrRoundtrip::EncodeFailed(e) => (Status::Error, owned("failed to re-encode a successfully decoded value"), Some(e)),
            XdrRoundtrip::Encoded(re_encoded) => {
                if re_encoded == *value_base64 {
                    (Status::Pass, phrase(t, " round-tripped byte-for-byte"), None)
                } else {
                    let mut d = phrase("input:  ", value_base64.as_str());
                    d.append("\noutput: ");
                    d.append(re_encoded.as_str());
                    (Status::Fail, phrase(t, " did not round-trip byte-for-byte"), Some(d))
                }
            },
        },
        XdrAssertion::EncodeEquals { value_base64, expected_base64 } => match xdr_roundtrip(fixture.xdr_type, value_base64.as_str()) {
            XdrRoundtrip::DecodeFailed(e) => (Status::Fail, phrase3("failed to decode ", t, " input"), Some(e)),
            XdrRoundtrip::EncodeFailed(e) => (Status::Error, owned("failed to re-encode a successfully decoded value"), Some(e)),
            XdrRoundtrip::Encoded(actual) => {
                if actual == *expected_base64 {
                    (Status::Pass, phrase(t, " encoded to the expected bytes"), None)
                } else {
                    let mut d = phrase("expected: ", expected_base64.as_str());
                    d.append("\nactual:   ");
                    d.append(actual.as_str());
                    (Status::Fail, phrase(t, " did not encode to the expected bytes"), Some(d))
                }
            },
        },
    }
}

/// The body of an XDR fixture, as far as it is read: each key is present
/// only when it holds a string.
#[derive(Debug, Clone)]
pub struct XdrFixtureBody {
    pub is_table: bool,
    pub xdr_type: Option<String>,
    pub kind: Option<String>,
    pub value_base64: Option<String>,
    pub expected_base64: Option<String>,
}

/// The message for a missing string key.
pub open spec fn missing_key_text(name: Seq<char>) -> Seq<char> {
    "missing required string field "@ + debug_text(name)
}

/// Why an XDR fixture body cannot be read, checked in this order: not a
/// table, no `type`, an unsupported type, no `kind`, then by kind a
/// missing `value_base64` or `expected_base64`, or an unsupported kind.
pub open spec fn xdr_body_error(b: XdrFixtureBody) -> Option<Seq<char>> {
    if !b.is_table {
        Some("fixture body must be a table"@)
    } else if b.xdr_type is None {
        Some("missing required string field \"type\""@)
    } else if xdr_type_named(b.xdr_type->0@) is Err {
        Some(xdr_type_named(b.xdr_type->0@)->Err_0)
    } else if b.kind is None {
        Some("missing required string field \"kind\""@)
    } else {
        let kind = b.kind->0@;
        if kind == "decode-success"@ || kind == "decode-failure"@ || kind == "roundtrip"@ {
            if b.value_base64 is None { Some(missing_key_text("value_base64"@)) } else { None }
        } else if kind == "encode-equals"@ {
            if b.value_base64 is None {
                Some(missing_key_text("value_base64"@))
            } else if b.expected_base64 is None {
                Some(missing_key_text("expected_base64"@))
            } else {
                None
            }
        } else {
            Some(
                "unsupported assertion kind "@ + debug_text(kind)
                    + ": expected one of \"decode-success\", \"decode-failure\", \"roundtrip\", \"encode-equals\""@,
            )
        }
    }
}

/// `a` is the assertion a readable body `b` declares.
pub open spec fn body_assertion(b: XdrFixtureBody, a: XdrAssertion) -> bool {
    let kind = b.kind->0@;
    &&& kind == "decode-success"@ ==> a == XdrAssertion::DecodeSuccess { value_base64: b.value_base64->0 }
    &&& kind == "decode-failure"@ ==> a == XdrAssertion::DecodeFailure { value_base64: b.value_base64->0 }
    &&& kind == "roundtrip"@ ==> a == XdrAssertion::Roundtrip { value_base64: b.value_base64->0 }
    &&& kind == "encode-equals"@ ==> a == XdrAssertion::EncodeEquals {
        value_base64: b.value_base64->0,
        expected_base64: b.expected_base64->0,
    }
}

fn required_string(value: Option<String>, name: &str) -> (r: Result<String, String>)
    ensures
        match r {
            Ok(v) => value == Some(v),
            Err(m) => value is None && m@ == missing_key_text(name@),
        },
{
    match value {
        Some(v) => Ok(v),
        None => {
            let mut m = owned("missing required string field ");
            let q = debug_quoted(name);
            m.append(q.as_str());
            Err(m)
        },
    }
}

impl XdrFixture {
    /// Reads an XDR fixture from its metadata and body.
    pub fn from_body(metadata: FixtureMetadata, source_path: std::path::PathBuf, body: XdrFixtureBody) -> (r: Result<XdrFixture, XdrError>)
        ensures
            match r {
                Ok(f) => {
                    &&& xdr_body_error(body) is None
                    &&& f.metadata == metadata
                    &&& xdr_type_named(body.xdr_type->0@) == Ok::<XdrTypeName, Seq<char>>(f.xdr_type)
                    &&& body_assertion(body, f.assertion)
                },
                Err(XdrError::InvalidFixtureBody { source_path: p, reason }) => {
                    &&& p == source_path
                    &&& xdr_body_error(body) == Some(reason@)
                },
            },
    {
        proof {
            reveal_strlit("decode-success");
            reveal_strlit("decode-failure");
            reveal_strlit("roundtrip");
            reveal_strlit("encode-equals");
            reveal_strlit("value_base64");
            reveal_strlit("expected_base64");
            assert("decode-success"@[7] != "decode-failure"@[7]);
            assert("decode-success"@.len() != "roundtrip"@.len());
            assert("decode-success"@.len() != "encode-equals"@.len());
            assert("decode-failure"@.len() != "roundtrip"@.len());
            assert("decode-failure"@.len() != "encode-equals"@.len());
            assert("roundtrip"@.len() != "encode-equals"@.len());
        }
        if !body.is_table {
            return Err(XdrError::InvalidFixtureBody { source_path, reason: owned("fixture body must be a table") });
        }
        let xdr_type = match &body.xdr_type {
            Some(t) => match XdrTypeName::from_str(t.as_str()) {
                Ok(t) => t,
                Err(reason) => {
                    return Err(XdrError::InvalidFixtureBody { source_path, reason });
                },
            },
            None => {
                return Err(XdrError::InvalidFixtureBody {
                    source_path,
                    reason: owned("missing required string field \"type\""),
                });
            },
        };
        let kind = match &body.kind {
            Some(k) => k,
            None => {
                return Err(XdrError::InvalidFixtureBody {
                    source_path,
                    reason: owned("missing required string field \"kind\""),
                });
            },
        };
        let assertion = if str_eq(kind.as_str(), "decode-success") {
            match required_string(body.value_base64.clone(), "value_base64") {
                Ok(v) => XdrAssertion::DecodeSuccess { value_base64: v },
                Err(reason) => {
                    return Err(XdrError::InvalidFixtureBody { source_path, reason });
                },
            }
        } else if str_eq(kind.as_str(), "decode-failure") {
            match required_string(body.value_base64.clone(), "value_base64") {
                Ok(v) => XdrAssertion::DecodeFailure { value_base64: v },
                Err(reason) => {
                    return Err(XdrError::InvalidFixtureBody { source_path, reason });
                },
            }
        } else if str_eq(kind.as_str(), "roundtrip") {
            match required_string(body.value_base64.clone(), "value_base64") {
                Ok(v) => XdrAssertion::Roundtrip { value_base64: v },
                Err(reason) => {
                    return Err(XdrError::InvalidFixtureBody { source_path, reason });
                },
            }
        } else if str_eq(kind.as_str(), "encode-equals") {
            let value_base64 = match required_string(body.value_base64.clone(), "value_base64") {
                Ok(v) => v,
                Err(reason) => {
                    return Err(XdrError::InvalidFixtureBody { source_path, reason });
                },
            };
            match required_string(body.expected_base64.clone(), "expected_base64") {
                Ok(e) => XdrAssertion::EncodeEquals { value_base64, expected_base64: e },
                Err(reason) => {
                    return Err(XdrError::InvalidFixtureBody { source_path, reason });
                },
            }
        } else {
            let mut reason = owned("unsupported assertion kind ");
            let q = debug_quoted(kind.as_str());
            reason.append(q.as_str());
            reason.append(": expected one of \"decode-success\", \"decode-failure\", \"roundtrip\", \"encode-equals\"");
            return Err(XdrError::InvalidFixtureBody { source_path, reason });
        };
        Ok(XdrFixture { metadata, xdr_type, assertion })
    }
}

#[verifier::external_type_specification]
#[verifier::external_body]
pub struct ExInstant(std::time::Instant);

/// `Instant::now`: the current time; nothing is claimed of it.
#[verifier::external_body]
pub(crate) fn now() -> std::time::Instant {
    std::time::Instant::now()
}

/// `Instant::elapsed` of `start`, in whole milliseconds, saturating at
/// `u64::MAX`; it depends on the clock, so nothing is claimed of it.
#[verifier::external_body]
pub(crate) fn millis_since(start: &std::time::Instant) -> u64 {
    u64::try_from(start.elapsed().as_millis()).unwrap_or(u64::MAX)
}

/// `r` is the result of running `fixture` in `duration_ms` milliseconds.
pub open spec fn xdr_result_matches(r: CompatibilityResult, fixture: XdrFixture, duration_ms: u64) -> bool {
    let ev = xdr_evaluation(fixture);
    &&& r.test_id == fixture.metadata.id
    &&& r.protocol == fixture.metadata.protocol
    &&& r.surface == Surface::Xdr
    &&& r.status == ev.0
    &&& r.summary@ == ev.1
    &&& match r.details {
        Some(d) => ev.2 == Some(d@),
        None => ev.2 is None,
    }
    &&& r.duration_ms == duration_ms
    &&& r.fixture_id == Some(fixture.metadata.id)
}

/// Runs a single XDR fixture and produces its result.
pub trait XdrRunner {
    fn run(&self, fixture: &XdrFixture, context: &ExecutionContext) -> Result<CompatibilityResult, CanaryError>;
}

/// The runner used in production: decodes and encodes with `stellar-xdr`.
#[derive(Debug, Default, Clone, Copy)]
pub struct DefaultXdrRunner;

impl XdrRunner for DefaultXdrRunner {
    fn run(&self, fixture: &XdrFixture, _context: &ExecutionContext) -> (r: Result<CompatibilityResult, CanaryError>)
        ensures
            r matches Ok(res) && xdr_result_matches(res, *fixture, res.duration_ms),
    {
        let start = now();
        let (status, summary, details) = evaluate(fixture);
        let duration_ms = millis_since(&start);
        Ok(CompatibilityResult {
            test_id: fixture.metadata.id.clone(),
            protocol: fixture.metadata.protocol,
            surface: Surface::Xdr,
            status,
            summary,
            details,
            duration_ms,
            fixture_id: Some(fixture.metadata.id.clone()),
        })
    }
}

} // verus!
