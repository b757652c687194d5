//! The normalized input every reporter renders, and the run's overall
//! outcome as every reporter shows it. The policy decision is part of the
//! input; reporters only present it.

use vstd::prelude::*;

use crate::model::{
    deref_all, is_failure_status, CompatibilityResult, GitContext, NetworkName, PolicyDecision,
    ProjectType, ProtocolVersion, Status, Surface,
};

verus! {

/// A fixture the planner decided not to run, and why.
#[derive(Debug, Clone, PartialEq, Eq)]
pub struct SkipSummary {
    pub fixture_id: String,
    pub surface: Surface,
    pub reason: String,
}

/// What is known about the project under test, for the report header.
#[derive(Debug, Clone, PartialEq, Eq)]
pub struct ProjectSummary {
    pub name: String,
    pub project_type: ProjectType,
}

/// What is known about the live network, when a live check ran.
#[derive(Debug, Clone, PartialEq, Eq)]
pub struct NetworkSummary {
    pub name: NetworkName,
    pub observed_protocol: Option<ProtocolVersion>,
    pub error: Option<String>,
}

/// Everything a reporter needs to render a finished run.
#[derive(Debug, Clone)]
pub struct ReportInput {
    pub tool_version: String,
    pub target_protocol: ProtocolVersion,
    pub project: ProjectSummary,
    pub network: Option<NetworkSummary>,
    pub results: Vec<CompatibilityResult>,
    pub skipped: Vec<SkipSummary>,
    pub decision: PolicyDecision,
    pub git: GitContext,
    pub verbose: bool,
}

/// The overall outcome of a run, as every reporter renders it.
#[derive(Debug, Clone, Copy, PartialEq, Eq, Structural)]
pub enum ReportStatus {
    Pass,
    Warning,
    Fail,
    Error,
}

/// Whether some result has status `st`.
pub open spec fn has_status(rs: Seq<CompatibilityResult>, st: Status) -> bool {
    exists|i: int| 0 <= i < rs.len() && (#[trigger] rs[i]).status == st
}

/// Whether some result is on surface `s`.
pub open spec fn has_surface(rs: Seq<CompatibilityResult>, s: Surface) -> bool {
    exists|i: int| 0 <= i < rs.len() && (#[trigger] rs[i]).surface == s
}

/// Whether some result on surface `s` has status `st`.
pub open spec fn has_status_on(rs: Seq<CompatibilityResult>, s: Surface, st: Status) -> bool {
    exists|i: int| 0 <= i < rs.len() && (#[trigger] rs[i]).surface == s && rs[i].status == st
}

/// Whether some result is a `Fail` or an `Error`.
pub open spec fn has_failure(rs: Seq<CompatibilityResult>) -> bool {
    exists|i: int| 0 <= i < rs.len() && is_failure_status((#[trigger] rs[i]).status)
}

/// The overall status: an execution error overrides the policy
/// decision; otherwise the decision is shown as it is.
pub open spec fn overall(results: Seq<CompatibilityResult>, decision: PolicyDecision) -> ReportStatus {
    if has_status(results, Status::Error) {
        ReportStatus::Error
    } else {
        match decision {
            PolicyDecision::Pass => ReportStatus::Pass,
            PolicyDecision::Warning => ReportStatus::Warning,
            PolicyDecision::Fail => ReportStatus::Fail,
        }
    }
}

/// The lowercase machine-readable form of a report status.
pub open spec fn report_status_name(s: ReportStatus) -> Seq<char> {
    match s {
        ReportStatus::Pass => "pass"@,
        ReportStatus::Warning => "warning"@,
        ReportStatus::Fail => "fail"@,
        ReportStatus::Error => "error"@,
    }
}

/// The uppercase form of a report status name.
pub open spec fn report_status_upper(s: ReportStatus) -> Seq<char> {
    match s {
        ReportStatus::Pass => "PASS"@,
        ReportStatus::Warning => "WARNING"@,
        ReportStatus::Fail => "FAIL"@,
        ReportStatus::Error => "ERROR"@,
    }
}

impl ReportStatus {
    /// The lowercase machine-readable form used in JSON output.
    pub fn as_str(&self) -> (s: &'static str)
        ensures
            s@ == report_status_name(*self),
    {
        match self {
            ReportStatus::Pass => "pass",
            ReportStatus::Warning => "warning",
            ReportStatus::Fail => "fail",
            ReportStatus::Error => "error",
        }
    }

    /// The uppercase form of [`ReportStatus::as_str`].
    pub fn as_upper_str(&self) -> (s: &'static str)
        ensures
            s@ == report_status_upper(*self),
    {
        match self {
            ReportStatus::Pass => "PASS",
            ReportStatus::Warning => "WARNING",
            ReportStatus::Fail => "FAIL",
            ReportStatus::Error => "ERROR",
        }
    }
}

/// Whether some result has status `st`, decided by a scan.
pub fn any_status(results: &Vec<CompatibilityResult>, st: Status) -> (b: bool)
    ensures
        b == has_status(results@, st),
{
    let mut i: usize = 0;
    while i < results.len()
        invariant
            i <= results@.len(),
            forall|j: int| 0 <= j < i ==> (#[trigger] results@[j]).status != st,
        decreases results@.len() - i,
    {
        if results[i].status == st {
            assert(results@[i as int].status == st);
            return true;
        }
        i = i + 1;
    }
    false
}

/// Whether some result on `s` has status `st`, decided by a scan.
pub fn any_status_on(results: &Vec<CompatibilityResult>, s: Surface, st: Status) -> (b: bool)
    ensures
        b == has_status_on(results@, s, st),
{
    let mut i: usize = 0;
    while i < results.len()
        invariant
            i <= results@.len(),
            forall|j: int| 0 <= j < i ==> !((#[trigger] results@[j]).surface == s && results@[j].status == st),
        decreases results@.len() - i,
    {
        if results[i].surface == s && results[i].status == st {
            assert(results@[i as int].surface == s);
            return true;
        }
        i = i + 1;
    }
    false
}

/// Whether some result is on `s`, decided by a scan.
pub fn any_on_surface(results: &Vec<CompatibilityResult>, s: Surface) -> (b: bool)
    ensures
        b == has_surface(results@, s),
{
    let mut i: usize = 0;
    while i < results.len()
        invariant
            i <= results@.len(),
            forall|j: int| 0 <= j < i ==> (#[trigger] results@[j]).surface != s,
        decreases results@.len() - i,
    {
        if results[i].surface == s {
            assert(results@[i as int].surface == s);
            return true;
        }
        i = i + 1;
    }
    false
}

/// Whether some result is a `Fail` or an `Error`, decided by a scan.
pub fn any_failure(results: &Vec<CompatibilityResult>) -> (b: bool)
    ensures
        b == has_failure(results@),
{
    let mut i: usize = 0;
    while i < results.len()
        invariant
            i <= results@.len(),
            forall|j: int| 0 <= j < i ==> !is_failure_status((#[trigger] results@[j]).status),
        decreases results@.len() - i,
    {
        if results[i].is_required_failure() {
            assert(is_failure_status(results@[i as int].status));
            return true;
        }
        i = i + 1;
    }
    false
}

impl ReportInput {
    /// The results on `surface`, in order.
    pub fn results_for(&self, surface: Surface) -> (r: Vec<&CompatibilityResult>)
        ensures
            deref_all(r@) == self.results@.filter(|c: CompatibilityResult| c.surface == surface),
    {
        let mut r: Vec<&CompatibilityResult> = Vec::new();
        let mut i: usize = 0;
        while i < self.results.len()
            invariant
                i <= self.results@.len(),
                deref_all(r@) == self.results@.take(i as int).filter(
                    |c: CompatibilityResult| c.surface == surface,
                ),
            decreases self.results@.len() - i,
        {
            proof {
                reveal_with_fuel(Seq::<_>::filter, 1);
                assert(self.results@.take(i + 1).drop_last() =~= self.results@.take(i as int));
            }
            if self.results[i].surface == surface {
                r.push(&self.results[i]);
                assert(deref_all(r@) =~= deref_all(r@.drop_last()).push(self.results@[i as int]));
            }
            i = i + 1;
        }
        assert(self.results@.take(i as int) =~= self.results@);
        r
    }

    pub fn has_any_error(&self) -> (b: bool)
        ensures
            b == has_status(self.results@, Status::Error),
    {
        any_status(&self.results, Status::Error)
    }

    /// The overall outcome every reporter renders: an execution error
    /// overrides the underlying policy decision.
    pub fn overall_status(&self) -> (s: ReportStatus)
        ensures
            s == overall(self.results@, self.decision),
    {
        if self.has_any_error() {
            ReportStatus::Error
        } else {
            match self.decision {
                PolicyDecision::Pass => ReportStatus::Pass,
                PolicyDecision::Warning => ReportStatus::Warning,
                PolicyDecision::Fail => ReportStatus::Fail,
            }
        }
    }
}

/// The fixed surface display order used by every reporter, matching the
/// order fixtures are executed in.
pub open spec fn surface_order_spec() -> Seq<Surface> {
    seq![Surface::Xdr, Surface::Rpc, Surface::Soroban]
}

pub fn surface_order() -> (v: [Surface; 3])
    ensures
        v@ == surface_order_spec(),
{
    let v = [Surface::Xdr, Surface::Rpc, Surface::Soroban];
    assert(v@ =~= surface_order_spec());
    v
}

/// The heading each reporter uses for a surface.
pub open spec fn heading(s: Surface) -> Seq<char> {
    match s {
        Surface::Xdr => "XDR"@,
        Surface::Rpc => "RPC"@,
        Surface::Soroban => "Soroban"@,
    }
}

pub fn surface_heading(surface: Surface) -> (h: &'static str)
    ensures
        h@ == heading(surface),
{
    match surface {
        Surface::Xdr => "XDR",
        Surface::Rpc => "RPC",
        Surface::Soroban => "Soroban",
    }
}

/// How many results have status `st`.
pub open spec fn count_status(rs: Seq<CompatibilityResult>, st: Status) -> nat
    decreases rs.len(),
{
    if rs.len() == 0 {
        0
    } else {
        count_status(rs.drop_last(), st) + if rs.last().status == st { 1nat } else { 0nat }
    }
}

pub fn count_with_status(results: &Vec<CompatibilityResult>, st: Status) -> (n: usize)
    ensures
        n == count_status(results@, st),
{
    let mut n: usize = 0;
    let mut i: usize = 0;
    while i < results.len()
        invariant
            i <= results@.len(),
            n == count_status(results@.take(i as int), st),
            n <= i,
        decreases results@.len() - i,
    {
        assert(results@.take(i + 1).drop_last() =~= results@.take(i as int));
        if results[i].status == st {
            n = n + 1;
        }
        i = i + 1;
    }
    assert(results@.take(i as int) =~= results@);
    n
}

} // verus!
