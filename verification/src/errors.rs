//! The library's error type.

use vstd::prelude::*;

use crate::text::owned;

verus! {

/// An error that ends a run, by the part of the pipeline it came from.
#[derive(Debug, Clone, PartialEq, Eq)]
pub enum CanaryError {
    Configuration(String),
    Fixture(String),
    Cache(String),
    Rpc(String),
    Xdr(String),
    Internal(String),
}

/// The message of an error: its category, a colon, and its detail.
pub open spec fn canary_error_text(e: CanaryError) -> Seq<char> {
    match e {
        CanaryError::Configuration(m) => "configuration error: "@ + m@,
        CanaryError::Fixture(m) => "invalid fixture: "@ + m@,
        CanaryError::Cache(m) => "cache error: "@ + m@,
        CanaryError::Rpc(m) => "RPC error: "@ + m@,
        CanaryError::Xdr(m) => "XDR error: "@ + m@,
        CanaryError::Internal(m) => "internal error: "@ + m@,
    }
}

impl CanaryError {
    pub fn message(&self) -> (s: String)
        ensures
            s@ == canary_error_text(*self),
    {
        let (mut s, m) = match self {
            CanaryError::Configuration(m) => (owned("configuration error: "), m),
            CanaryError::Fixture(m) => (owned("invalid fixture: "), m),
            CanaryError::Cache(m) => (owned("cache error: "), m),
            CanaryError::Rpc(m) => (owned("RPC error: "), m),
            CanaryError::Xdr(m) => (owned("XDR error: "), m),
            CanaryError::Internal(m) => (owned("internal error: "), m),
        };
        s.append(m.as_str());
        s
    }
}

} // verus!
