//! The run-level decision over a run's results, and the documented exit
//! codes: 0 pass, 1 compatibility failure, 2 configuration error, 3
//! execution or RPC error, 4 invalid fixture, 5 internal error.

use vstd::prelude::*;

use crate::errors::CanaryError;
use crate::model::{is_failure_status, CompatibilityResult, PolicyDecision, Status};
use crate::report::{any_failure, any_status, has_failure, has_status, overall, ReportStatus};

verus! {

/// How results are turned into a decision.
#[derive(Debug, Clone, Copy, PartialEq, Eq)]
pub struct Policy {
    pub warnings_are_failures: bool,
}

/// The decision: any failing or erroring result fails the run; otherwise a
/// warning makes it a warning, or a failure when warnings count as
/// failures; otherwise it passes.
pub open spec fn policy_decision(results: Seq<CompatibilityResult>, policy: Policy) -> PolicyDecision {
    if has_failure(results) {
        PolicyDecision::Fail
    } else if has_status(results, Status::Warning) {
        if policy.warnings_are_failures {
            PolicyDecision::Fail
        } else {
            PolicyDecision::Warning
        }
    } else {
        PolicyDecision::Pass
    }
}

/// Evaluates the policy over a run's results.
pub fn evaluate_policy(results: &Vec<CompatibilityResult>, policy: &Policy) -> (d: PolicyDecision)
    ensures
        d == policy_decision(results@, *policy),
{
    if any_failure(results) {
        PolicyDecision::Fail
    } else if any_status(results, Status::Warning) {
        if policy.warnings_are_failures {
            PolicyDecision::Fail
        } else {
            PolicyDecision::Warning
        }
    } else {
        PolicyDecision::Pass
    }
}

/// How a command ends.
#[derive(Debug, Clone, Copy, PartialEq, Eq, Structural)]
pub enum ExitCode {
    Pass,
    CompatibilityFailure,
    ConfigurationError,
    ExecutionError,
    InvalidFixture,
    InternalError,
}

/// The process exit status of each way a command ends.
pub open spec fn exit_status(c: ExitCode) -> u8 {
    match c {
        ExitCode::Pass => 0,
        ExitCode::CompatibilityFailure => 1,
        ExitCode::ConfigurationError => 2,
        ExitCode::ExecutionError => 3,
        ExitCode::InvalidFixture => 4,
        ExitCode::InternalError => 5,
    }
}

/// How a run that produced a report ends: an execution error wins, then
/// a failing decision; a passing or warning decision passes.
pub open spec fn run_exit(results: Seq<CompatibilityResult>, decision: PolicyDecision) -> ExitCode {
    match overall(results, decision) {
        ReportStatus::Error => ExitCode::ExecutionError,
        ReportStatus::Fail => ExitCode::CompatibilityFailure,
        _ => ExitCode::Pass,
    }
}

/// How a command that stopped on an error ends.
pub open spec fn error_exit(e: CanaryError) -> ExitCode {
    match e {
        CanaryError::Configuration(_) => ExitCode::ConfigurationError,
        CanaryError::Fixture(_) => ExitCode::InvalidFixture,
        CanaryError::Rpc(_) => ExitCode::ExecutionError,
        CanaryError::Xdr(_) => ExitCode::InvalidFixture,
        CanaryError::Cache(_) => ExitCode::InternalError,
        CanaryError::Internal(_) => ExitCode::InternalError,
    }
}

impl ExitCode {
    /// The process exit status.
    pub fn code(&self) -> (c: u8)
        ensures
            c == exit_status(*self),
    {
        match self {
            ExitCode::Pass => 0,
            ExitCode::CompatibilityFailure => 1,
            ExitCode::ConfigurationError => 2,
            ExitCode::ExecutionError => 3,
            ExitCode::InvalidFixture => 4,
            ExitCode::InternalError => 5,
        }
    }

    /// How a command that stopped on `error` ends.
    pub fn from_error(error: &CanaryError) -> (c: ExitCode)
        ensures
            c == error_exit(*error),
    {
        match error {
            CanaryError::Configuration(_) => ExitCode::ConfigurationError,
            CanaryError::Fixture(_) => ExitCode::InvalidFixture,
            CanaryError::Rpc(_) => ExitCode::ExecutionError,
            CanaryError::Xdr(_) => ExitCode::InvalidFixture,
            CanaryError::Cache(_) => ExitCode::InternalError,
            CanaryError::Internal(_) => ExitCode::InternalError,
        }
    }
}

/// How a run with these results and decision ends.
pub fn exit_code_for_run(results: &Vec<CompatibilityResult>, decision: PolicyDecision) -> (c: ExitCode)
    ensures
        c == run_exit(results@, decision),
{
    if any_status(results, Status::Error) {
        ExitCode::ExecutionError
    } else {
        match decision {
            PolicyDecision::Fail => ExitCode::CompatibilityFailure,
            _ => ExitCode::Pass,
        }
    }
}

/// A run's exit status is 0 exactly when it neither failed nor hit an
/// execution error, whatever the policy: a run whose results hold no
/// failing or erroring result, and no warning when warnings count as
/// failures, exits 0.
pub proof fn lemma_clean_runs_exit_zero(results: Seq<CompatibilityResult>, policy: Policy)
    ensures
        (exit_status(run_exit(results, policy_decision(results, policy))) == 0) <==> (!has_failure(results) && !(
        policy.warnings_are_failures && has_status(results, Status::Warning))),
{
    if has_status(results, Status::Error) {
        let i = choose|i: int| 0 <= i < results.len() && (#[trigger] results[i]).status == Status::Error;
        assert(is_failure_status(results[i].status));
    }
}

} // verus!
