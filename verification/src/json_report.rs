//! The machine-readable JSON report: its versioned shape as plain data,
//! the conversion of a finished run into it, and the conversion of a
//! previously rendered report back into a run that can be re-rendered.
//!
//! Turning this shape into JSON text and back is done by the caller with
//! a JSON serializer; every decision about the content is made here.

use vstd::prelude::*;

use crate::model::{
    network_name_text, project_type_name, status_name, surface_name, CompatibilityResult,
    GitContext, NetworkName, PolicyDecision, ProjectType, ProtocolVersion, Status, Surface,
};
use crate::report::{
    count_status, count_with_status, overall, report_status_name, report_status_upper, NetworkSummary, ProjectSummary,
    ReportInput, ReportStatus, SkipSummary,
};
use crate::markdown::markdown_text;
use crate::rpc_client::{debug_quoted, debug_text};
use crate::terminal::{decision_text, terminal_text};
use crate::text::{decimal, owned, push_decimal, str_eq};

verus! {

/// The current JSON report schema version.
pub const SCHEMA_VERSION: u32 = 1;

/// The whole report.
#[derive(Debug, Clone, PartialEq, Eq)]
pub struct JsonReport {
    pub schema_version: u32,
    pub tool_version: String,
    pub target_protocol: u32,
    pub project: JsonProject,
    pub network: Option<JsonNetwork>,
    pub status: String,
    pub counts: JsonCounts,
    pub results: Vec<JsonResult>,
    pub skipped: Vec<JsonSkip>,
    pub git: JsonGit,
    /// Whether the run was verbose.
    pub verbose: bool,
}

#[derive(Debug, Clone, PartialEq, Eq)]
pub struct JsonProject {
    pub name: String,
    pub project_type: String,
}

#[derive(Debug, Clone, PartialEq, Eq)]
pub struct JsonNetwork {
    pub name: String,
    pub observed_protocol: Option<u32>,
    pub error: Option<String>,
}

#[derive(Debug, Clone, PartialEq, Eq)]
pub struct JsonResult {
    pub test_id: String,
    pub protocol: u32,
    pub surface: String,
    pub status: String,
    pub summary: String,
    pub details: Option<String>,
    pub duration_ms: u64,
    pub fixture_id: Option<String>,
}

#[derive(Debug, Clone, PartialEq, Eq)]
pub struct JsonSkip {
    pub fixture_id: String,
    pub surface: String,
    pub reason: String,
}

/// Aggregate counts over the results (never over the skipped fixtures,
/// which are counted separately: a skip is neither a pass nor a failure).
#[derive(Debug, Clone, Copy, Default, PartialEq, Eq, Structural)]
pub struct JsonCounts {
    pub total: usize,
    pub passed: usize,
    pub failed: usize,
    pub warnings: usize,
    pub errors: usize,
    pub skipped: usize,
}

#[derive(Debug, Clone, Default, PartialEq, Eq)]
pub struct JsonGit {
    pub commit: Option<String>,
    pub branch: Option<String>,
    pub is_dirty: Option<bool>,
}

/// Why a rendered report could not be read back.
#[derive(Debug, Clone, PartialEq, Eq)]
pub enum JsonReportError {
    /// The text is not a JSON report; the parser's message.
    Parse(String),
    UnsupportedSchemaVersion { found: u32, expected: u32 },
    UnknownSurface(String),
    UnknownStatus(String),
}

/// The text of a report-reading error, as it is displayed.
pub open spec fn json_report_error_text(e: JsonReportError) -> Seq<char> {
    match e {
        JsonReportError::Parse(m) => "failed to parse JSON report: "@ + m@,
        JsonReportError::UnsupportedSchemaVersion { found, expected } => "unsupported schema version (found "@
            + decimal(found as nat) + ", expected "@ + decimal(expected as nat) + ")"@,
        JsonReportError::UnknownSurface(v) => "unrecognized surface "@ + debug_text(v@) + " in JSON report"@,
        JsonReportError::UnknownStatus(v) => "unrecognized status "@ + debug_text(v@) + " in JSON report"@,
    }
}

impl JsonReportError {
    /// The error's text, as it is displayed.
    pub fn message(&self) -> (s: String)
        ensures
            s@ == json_report_error_text(*self),
    {
        match self {
            JsonReportError::Parse(m) => {
                let mut s = owned("failed to parse JSON report: ");
                s.append(m.as_str());
                s
            },
            JsonReportError::UnsupportedSchemaVersion { found, expected } => {
                let mut s = owned("unsupported schema version (found ");
                push_decimal(&mut s, *found as u64);
                s.append(", expected ");
                push_decimal(&mut s, *expected as u64);
                s.append(")");
                s
            },
            JsonReportError::UnknownSurface(v) => {
                let mut s = owned("unrecognized surface ");
                let q = debug_quoted(v.as_str());
                s.append(q.as_str());
                s.append(" in JSON report");
                s
            },
            JsonReportError::UnknownStatus(v) => {
                let mut s = owned("unrecognized status ");
                let q = debug_quoted(v.as_str());
                s.append(q.as_str());
                s.append(" in JSON report");
                s
            },
        }
    }
}

/// The counts of a run's results.
pub open spec fn counts_of(rs: Seq<CompatibilityResult>, skipped: nat) -> JsonCounts {
    JsonCounts {
        total: rs.len() as usize,
        passed: count_status(rs, Status::Pass) as usize,
        failed: count_status(rs, Status::Fail) as usize,
        warnings: count_status(rs, Status::Warning) as usize,
        errors: count_status(rs, Status::Error) as usize,
        skipped: skipped as usize,
    }
}

impl JsonCounts {
    pub fn from_results(results: &Vec<CompatibilityResult>, skipped: usize) -> (c: JsonCounts)
        ensures
            c == counts_of(results@, skipped as nat),
    {
        JsonCounts {
            total: results.len(),
            passed: count_with_status(results, Status::Pass),
            failed: count_with_status(results, Status::Fail),
            warnings: count_with_status(results, Status::Warning),
            errors: count_with_status(results, Status::Error),
            skipped,
        }
    }
}

fn copy_string_option(o: &Option<String>) -> (r: Option<String>)
    ensures
        r == *o,
{
    match o {
        Some(s) => Some(s.clone()),
        None => None,
    }
}

/// `j` is the JSON form of result `r`.
pub open spec fn json_result_matches(j: JsonResult, r: CompatibilityResult) -> bool {
    &&& j.test_id == r.test_id
    &&& j.protocol == r.protocol.0
    &&& j.surface@ == surface_name(r.surface)
    &&& j.status@ == status_name(r.status)
    &&& j.summary == r.summary
    &&& j.details == r.details
    &&& j.duration_ms == r.duration_ms
    &&& j.fixture_id == r.fixture_id
}

/// `j` is the JSON form of skipped fixture `s`.
pub open spec fn json_skip_matches(j: JsonSkip, s: SkipSummary) -> bool {
    &&& j.fixture_id == s.fixture_id
    &&& j.surface@ == surface_name(s.surface)
    &&& j.reason == s.reason
}

/// `j` is the JSON form of the network summary `n`.
pub open spec fn json_network_matches(j: Option<JsonNetwork>, n: Option<NetworkSummary>) -> bool {
    match (j, n) {
        (None, None) => true,
        (Some(jn), Some(sn)) => {
            &&& jn.name@ == network_name_text(sn.name)
            &&& (sn.name matches NetworkName::Custom(c) ==> jn.name == c)
            &&& jn.observed_protocol == match sn.observed_protocol {
                Some(p) => Some(p.0),
                None => None::<u32>,
            }
            &&& jn.error == sn.error
        },
        _ => false,
    }
}

/// `j` is the JSON report of the run `input`.
pub open spec fn json_report_matches(j: JsonReport, input: ReportInput) -> bool {
    &&& j.schema_version == SCHEMA_VERSION
    &&& j.tool_version == input.tool_version
    &&& j.target_protocol == input.target_protocol.0
    &&& j.project.name == input.project.name
    &&& j.project.project_type@ == project_type_name(input.project.project_type)
    &&& json_network_matches(j.network, input.network)
    &&& j.status@ == report_status_name(overall(input.results@, input.decision))
    &&& j.counts == counts_of(input.results@, input.skipped@.len())
    &&& j.results@.len() == input.results@.len()
    &&& forall|i: int| 0 <= i < j.results@.len() ==> json_result_matches(#[trigger] j.results@[i], input.results@[i])
    &&& j.skipped@.len() == input.skipped@.len()
    &&& forall|i: int| 0 <= i < j.skipped@.len() ==> json_skip_matches(#[trigger] j.skipped@[i], input.skipped@[i])
    &&& j.git.commit == input.git.commit
    &&& j.git.branch == input.git.branch
    &&& j.git.is_dirty == input.git.is_dirty
    &&& j.verbose == input.verbose
}

impl JsonReport {
    /// The JSON report of a finished run.
    pub fn from_input(input: &ReportInput) -> (j: JsonReport)
        ensures
            json_report_matches(j, *input),
    {
        let network = match &input.network {
            Some(n) => Some(
                JsonNetwork {
                    name: n.name.to_string(),
                    observed_protocol: match n.observed_protocol {
                        Some(p) => Some(p.0),
                        None => None,
                    },
                    error: copy_string_option(&n.error),
                },
            ),
            None => None,
        };
        let mut results: Vec<JsonResult> = Vec::new();
        let mut i: usize = 0;
        while i < input.results.len()
            invariant
                i <= input.results@.len(),
                results@.len() == i,
                forall|k: int| 0 <= k < i ==> json_result_matches(#[trigger] results@[k], input.results@[k]),
            decreases input.results@.len() - i,
        {
            let r = &input.results[i];
            results.push(
                JsonResult {
                    test_id: r.test_id.clone(),
                    protocol: r.protocol.0,
                    surface: owned(r.surface.as_str()),
                    status: owned(r.status.as_str()),
                    summary: r.summary.clone(),
                    details: copy_string_option(&r.details),
                    duration_ms: r.duration_ms,
                    fixture_id: copy_string_option(&r.fixture_id),
                },
            );
            i = i + 1;
        }
        let mut skipped: Vec<JsonSkip> = Vec::new();
        let mut i: usize = 0;
        while i < input.skipped.len()
            invariant
                i <= input.skipped@.len(),
                skipped@.len() == i,
                forall|k: int| 0 <= k < i ==> json_skip_matches(#[trigger] skipped@[k], input.skipped@[k]),
            decreases input.skipped@.len() - i,
        {
            let s = &input.skipped[i];
            skipped.push(
                JsonSkip {
                    fixture_id: s.fixture_id.clone(),
                    surface: owned(s.surface.as_str()),
                    reason: s.reason.clone(),
                },
            );
            i = i + 1;
        }
        JsonReport {
            schema_version: SCHEMA_VERSION,
            tool_version: input.tool_version.clone(),
            target_protocol: input.target_protocol.0,
            project: JsonProject {
                name: input.project.name.clone(),
                project_type: owned(input.project.project_type.as_str()),
            },
            network,
            status: owned(input.overall_status().as_str()),
            counts: JsonCounts::from_results(&input.results, input.skipped.len()),
            results,
            skipped,
            git: JsonGit {
                commit: copy_string_option(&input.git.commit),
                branch: copy_string_option(&input.git.branch),
                is_dirty: input.git.is_dirty,
            },
            verbose: input.verbose,
        }
    }
}

/// The surface a JSON surface name denotes, if any.
pub open spec fn surface_named(v: Seq<char>) -> Option<Surface> {
    if v == "xdr"@ {
        Some(Surface::Xdr)
    } else if v == "rpc"@ {
        Some(Surface::Rpc)
    } else if v == "soroban"@ {
        Some(Surface::Soroban)
    } else {
        None
    }
}

/// The status a JSON status name denotes, if any.
pub open spec fn status_named(v: Seq<char>) -> Option<Status> {
    if v == "pass"@ {
        Some(Status::Pass)
    } else if v == "warning"@ {
        Some(Status::Warning)
    } else if v == "fail"@ {
        Some(Status::Fail)
    } else if v == "skipped"@ {
        Some(Status::Skipped)
    } else if v == "error"@ {
        Some(Status::Error)
    } else {
        None
    }
}

/// The project type a JSON project type name denotes; anything
/// unrecognized reads as `Unknown`.
pub open spec fn project_type_named(v: Seq<char>) -> ProjectType {
    if v == "soroban"@ {
        ProjectType::Soroban
    } else if v == "rpc-consumer"@ {
        ProjectType::RpcConsumer
    } else if v == "stellar-sdk"@ {
        ProjectType::StellarSdk
    } else if v == "generic-stellar"@ {
        ProjectType::GenericStellar
    } else {
        ProjectType::Unknown
    }
}

/// The network a JSON network name denotes: a well-known network, or a
/// custom one of that name.
pub open spec fn network_named(v: String) -> NetworkName {
    if v@ == "testnet"@ {
        NetworkName::Testnet
    } else if v@ == "mainnet"@ {
        NetworkName::Mainnet
    } else if v@ == "futurenet"@ {
        NetworkName::Futurenet
    } else {
        NetworkName::Custom(v)
    }
}

/// The policy decision recovered from a stored overall status. This is
/// lossy only for `error`, which the results themselves still carry.
pub open spec fn decision_named(v: Seq<char>) -> PolicyDecision {
    if v == "pass"@ {
        PolicyDecision::Pass
    } else if v == "warning"@ {
        PolicyDecision::Warning
    } else {
        PolicyDecision::Fail
    }
}

pub fn parse_surface(value: &str) -> (r: Result<Surface, JsonReportError>)
    ensures
        match r {
            Ok(s) => surface_named(value@) == Some(s),
            Err(JsonReportError::UnknownSurface(v)) => surface_named(value@) is None && v@ == value@,
            Err(_) => false,
        },
{
    if str_eq(value, "xdr") {
        Ok(Surface::Xdr)
    } else if str_eq(value, "rpc") {
        Ok(Surface::Rpc)
    } else if str_eq(value, "soroban") {
        Ok(Surface::Soroban)
    } else {
        Err(JsonReportError::UnknownSurface(owned(value)))
    }
}

pub fn parse_status(value: &str) -> (r: Result<Status, JsonReportError>)
    ensures
        match r {
            Ok(s) => status_named(value@) == Some(s),
            Err(JsonReportError::UnknownStatus(v)) => status_named(value@) is None && v@ == value@,
            Err(_) => false,
        },
{
    if str_eq(value, "pass") {
        Ok(Status::Pass)
    } else if str_eq(value, "warning") {
        Ok(Status::Warning)
    } else if str_eq(value, "fail") {
        Ok(Status::Fail)
    } else if str_eq(value, "skipped") {
        Ok(Status::Skipped)
    } else if str_eq(value, "error") {
        Ok(Status::Error)
    } else {
        Err(JsonReportError::UnknownStatus(owned(value)))
    }
}

pub fn parse_network_name(value: String) -> (n: NetworkName)
    ensures
        n == network_named(value),
{
    if str_eq(value.as_str(), "testnet") {
        NetworkName::Testnet
    } else if str_eq(value.as_str(), "mainnet") {
        NetworkName::Mainnet
    } else if str_eq(value.as_str(), "futurenet") {
        NetworkName::Futurenet
    } else {
        NetworkName::Custom(value)
    }
}

pub fn parse_project_type(value: &str) -> (t: ProjectType)
    ensures
        t == project_type_named(value@),
{
    if str_eq(value, "soroban") {
        ProjectType::Soroban
    } else if str_eq(value, "rpc-consumer") {
        ProjectType::RpcConsumer
    } else if str_eq(value, "stellar-sdk") {
        ProjectType::StellarSdk
    } else if str_eq(value, "generic-stellar") {
        ProjectType::GenericStellar
    } else {
        ProjectType::Unknown
    }
}

/// Why one JSON result cannot be read: `(true, name)` for a surface
/// name, `(false, name)` for a status name; the surface is read first.
pub open spec fn result_error(r: JsonResult) -> Option<(bool, Seq<char>)> {
    if surface_named(r.surface@) is None {
        Some((true, r.surface@))
    } else if status_named(r.status@) is None {
        Some((false, r.status@))
    } else {
        None
    }
}

/// The error of the first unreadable result, in order.
pub open spec fn first_result_error(rs: Seq<JsonResult>) -> Option<(bool, Seq<char>)>
    decreases rs.len(),
{
    if rs.len() == 0 {
        None
    } else if first_result_error(rs.drop_last()) is Some {
        first_result_error(rs.drop_last())
    } else {
        result_error(rs.last())
    }
}

/// The first unreadable surface name among the skipped fixtures.
pub open spec fn first_skip_error(ss: Seq<JsonSkip>) -> Option<Seq<char>>
    decreases ss.len(),
{
    if ss.len() == 0 {
        None
    } else if first_skip_error(ss.drop_last()) is Some {
        first_skip_error(ss.drop_last())
    } else if surface_named(ss.last().surface@) is None {
        Some(ss.last().surface@)
    } else {
        None
    }
}

proof fn lemma_first_result_error_prefix(rs: Seq<JsonResult>, k: int)
    requires
        0 <= k <= rs.len(),
        first_result_error(rs.take(k)) is Some,
    ensures
        first_result_error(rs) == first_result_error(rs.take(k)),
    decreases rs.len() - k,
{
    if k < rs.len() {
        assert(rs.take(k + 1).drop_last() =~= rs.take(k));
        lemma_first_result_error_prefix(rs, k + 1);
    } else {
        assert(rs.take(k) =~= rs);
    }
}

proof fn lemma_first_skip_error_prefix(ss: Seq<JsonSkip>, k: int)
    requires
        0 <= k <= ss.len(),
        first_skip_error(ss.take(k)) is Some,
    ensures
        first_skip_error(ss) == first_skip_error(ss.take(k)),
    decreases ss.len() - k,
{
    if k < ss.len() {
        assert(ss.take(k + 1).drop_last() =~= ss.take(k));
        lemma_first_skip_error_prefix(ss, k + 1);
    } else {
        assert(ss.take(k) =~= ss);
    }
}

/// The result a readable JSON result stands for.
pub open spec fn result_of_json(j: JsonResult) -> CompatibilityResult {
    CompatibilityResult {
        test_id: j.test_id,
        protocol: ProtocolVersion(j.protocol),
        surface: surface_named(j.surface@)->0,
        status: status_named(j.status@)->0,
        summary: j.summary,
        details: j.details,
        duration_ms: j.duration_ms,
        fixture_id: j.fixture_id,
    }
}

/// The skipped fixture a readable JSON entry stands for.
pub open spec fn skip_of_json(j: JsonSkip) -> SkipSummary {
    SkipSummary { fixture_id: j.fixture_id, surface: surface_named(j.surface@)->0, reason: j.reason }
}

/// The network summary a JSON network entry stands for.
pub open spec fn network_of_json(n: Option<JsonNetwork>) -> Option<NetworkSummary> {
    match n {
        None => None,
        Some(jn) => Some(
            NetworkSummary {
                name: network_named(jn.name),
                observed_protocol: match jn.observed_protocol {
                    Some(p) => Some(ProtocolVersion(p)),
                    None => None,
                },
                error: jn.error,
            },
        ),
    }
}

/// `input` is the run a readable JSON report `j` stands for.
pub open spec fn input_matches_json(input: ReportInput, j: JsonReport) -> bool {
    &&& input.tool_version == j.tool_version
    &&& input.target_protocol == ProtocolVersion(j.target_protocol)
    &&& input.project == ProjectSummary {
        name: j.project.name,
        project_type: project_type_named(j.project.project_type@),
    }
    &&& input.network == network_of_json(j.network)
    &&& input.results@ == j.results@.map_values(|r: JsonResult| result_of_json(r))
    &&& input.skipped@ == j.skipped@.map_values(|s: JsonSkip| skip_of_json(s))
    &&& input.decision == decision_named(j.status@)
    &&& input.git == GitContext { commit: j.git.commit, branch: j.git.branch, is_dirty: j.git.is_dirty }
    &&& input.verbose == j.verbose
}

/// What reading `j` back yields, as a predicate on the outcome: the first
/// unreadable result name (in result order, surface before status), else
/// the first unreadable skipped surface, else the run it stands for.
pub open spec fn read_back_outcome(j: JsonReport, r: Result<ReportInput, JsonReportError>) -> bool {
    match first_result_error(j.results@) {
        Some(e) => if e.0 {
            r matches Err(JsonReportError::UnknownSurface(s)) && s@ == e.1
        } else {
            r matches Err(JsonReportError::UnknownStatus(s)) && s@ == e.1
        },
        None => match first_skip_error(j.skipped@) {
            Some(v) => r matches Err(JsonReportError::UnknownSurface(s)) && s@ == v,
            None => r matches Ok(input) && input_matches_json(input, j),
        },
    }
}

impl ReportInput {
    /// The run a readable JSON report stands for, or the first name in it
    /// that does not denote a surface or status.
    pub fn from_json_report(report: JsonReport) -> (r: Result<ReportInput, JsonReportError>)
        ensures
            read_back_outcome(report, r),
    {
        let ghost j = report;
        let json_results = &report.results;
        let json_skipped = &report.skipped;
        let mut results: Vec<CompatibilityResult> = Vec::new();
        let mut i: usize = 0;
        assert(json_results@.take(0) =~= Seq::<JsonResult>::empty());
        while i < json_results.len()
            invariant
                json_results@ == j.results@,
                j == report,
                i <= json_results@.len(),
                first_result_error(json_results@.take(i as int)) is None,
                results@ == json_results@.take(i as int).map_values(|r: JsonResult| result_of_json(r)),
            decreases json_results@.len() - i,
        {
            let jr = &json_results[i];
            proof {
                assert(json_results@.take(i + 1).drop_last() =~= json_results@.take(i as int));
                assert(json_results@.take(i + 1).last() == json_results@[i as int]);
                assert(first_result_error(json_results@.take(i + 1)) == result_error(json_results@[i as int]));
            }
            let surface = match parse_surface(jr.surface.as_str()) {
                Ok(s) => s,
                Err(e) => {
                    proof {
                        lemma_first_result_error_prefix(json_results@, i + 1);
                        assert(surface_named(json_results@[i as int].surface@) is None);
                        assert(result_error(json_results@[i as int]) == Some((true, jr.surface@)));
                        assert(first_result_error(j.results@) == Some((true, jr.surface@)));
                    }
                    return Err(e);
                },
            };
            let st = match parse_status(jr.status.as_str()) {
                Ok(s) => s,
                Err(e) => {
                    proof {
                        lemma_first_result_error_prefix(json_results@, i + 1);
                    }
                    return Err(e);
                },
            };
            results.push(
                CompatibilityResult {
                    test_id: jr.test_id.clone(),
                    protocol: ProtocolVersion(jr.protocol),
                    surface,
                    status: st,
                    summary: jr.summary.clone(),
                    details: copy_string_option(&jr.details),
                    duration_ms: jr.duration_ms,
                    fixture_id: copy_string_option(&jr.fixture_id),
                },
            );
            assert(json_results@.take(i + 1).map_values(|r: JsonResult| result_of_json(r))
                =~= json_results@.take(i as int).map_values(|r: JsonResult| result_of_json(r)).push(
                result_of_json(json_results@[i as int]),
            ));
            i = i + 1;
        }
        assert(json_results@.take(i as int) =~= json_results@);
        let mut skipped: Vec<SkipSummary> = Vec::new();
        let mut i: usize = 0;
        assert(json_skipped@.take(0) =~= Seq::<JsonSkip>::empty());
        while i < json_skipped.len()
            invariant
                json_skipped@ == j.skipped@,
                j == report,
                first_result_error(j.results@) is None,
                i <= json_skipped@.len(),
                first_skip_error(json_skipped@.take(i as int)) is None,
                skipped@ == json_skipped@.take(i as int).map_values(|s: JsonSkip| skip_of_json(s)),
            decreases json_skipped@.len() - i,
        {
            let js = &json_skipped[i];
            proof {
                assert(json_skipped@.take(i + 1).drop_last() =~= json_skipped@.take(i as int));
                assert(json_skipped@.take(i + 1).last() == json_skipped@[i as int]);
            }
            let surface = match parse_surface(js.surface.as_str()) {
                Ok(s) => s,
                Err(e) => {
                    proof {
                        lemma_first_skip_error_prefix(json_skipped@, i + 1);
                    }
                    return Err(e);
                },
            };
            skipped.push(SkipSummary { fixture_id: js.fixture_id.clone(), surface, reason: js.reason.clone() });
            assert(json_skipped@.take(i + 1).map_values(|s: JsonSkip| skip_of_json(s))
                =~= json_skipped@.take(i as int).map_values(|s: JsonSkip| skip_of_json(s)).push(
                skip_of_json(json_skipped@[i as int]),
            ));
            i = i + 1;
        }
        assert(json_skipped@.take(i as int) =~= json_skipped@);
        let decision = if str_eq(report.status.as_str(), "pass") {
            PolicyDecision::Pass
        } else if str_eq(report.status.as_str(), "warning") {
            PolicyDecision::Warning
        } else {
            PolicyDecision::Fail
        };
        let network = match &report.network {
            Some(n) => Some(
                NetworkSummary {
                    name: parse_network_name(n.name.clone()),
                    observed_protocol: match n.observed_protocol {
                        Some(p) => Some(ProtocolVersion(p)),
                        None => None,
                    },
                    error: copy_string_option(&n.error),
                },
            ),
            None => None,
        };
        let project_type = parse_project_type(report.project.project_type.as_str());
        Ok(
            ReportInput {
                tool_version: report.tool_version.clone(),
                target_protocol: ProtocolVersion(report.target_protocol),
                project: ProjectSummary { name: report.project.name.clone(), project_type },
                network,
                results,
                skipped,
                decision,
                git: GitContext {
                    commit: copy_string_option(&report.git.commit),
                    branch: copy_string_option(&report.git.branch),
                    is_dirty: report.git.is_dirty,
                },
                verbose: report.verbose,
            },
        )
    }
}

/// Reading a previously rendered report back: a report of another schema
/// version is refused; otherwise the outcome is that of
/// [`ReportInput::from_json_report`].
pub open spec fn parse_outcome(j: JsonReport, r: Result<ReportInput, JsonReportError>) -> bool {
    if j.schema_version != SCHEMA_VERSION {
        r == Err::<ReportInput, JsonReportError>(
            JsonReportError::UnsupportedSchemaVersion { found: j.schema_version, expected: SCHEMA_VERSION },
        )
    } else {
        read_back_outcome(j, r)
    }
}

/// Renders and reads back the versioned JSON report.
pub struct JsonReporter;

impl JsonReporter {
    /// The report shape of a finished run, ready to be written as JSON.
    pub fn report_of(input: &ReportInput) -> (j: JsonReport)
        ensures
            json_report_matches(j, *input),
    {
        JsonReport::from_input(input)
    }

    /// The run a report read from JSON stands for, refusing any schema
    /// version but the current one.
    pub fn parse_report(report: JsonReport) -> (r: Result<ReportInput, JsonReportError>)
        ensures
            parse_outcome(report, r),
    {
        if report.schema_version != SCHEMA_VERSION {
            return Err(
                JsonReportError::UnsupportedSchemaVersion {
                    found: report.schema_version,
                    expected: SCHEMA_VERSION,
                },
            );
        }
        ReportInput::from_json_report(report)
    }
}

proof fn lemma_surface_names(s: Surface)
    ensures
        surface_named(surface_name(s)) == Some(s),
{
    reveal_strlit("xdr");
    reveal_strlit("rpc");
    reveal_strlit("soroban");
    assert("xdr"@[0] != "rpc"@[0]);
    assert("xdr"@.len() != "soroban"@.len());
    assert("rpc"@.len() != "soroban"@.len());
}

proof fn lemma_status_names(s: Status)
    ensures
        status_named(status_name(s)) == Some(s),
{
    reveal_strlit("pass");
    reveal_strlit("warning");
    reveal_strlit("fail");
    reveal_strlit("skipped");
    reveal_strlit("error");
    assert("pass"@[0] != "fail"@[0]);
    assert("warning"@[0] != "skipped"@[0]);
    assert("pass"@.len() != "warning"@.len());
    assert("pass"@.len() != "error"@.len());
    assert("fail"@.len() != "error"@.len());
    assert("warning"@.len() != "error"@.len());
}

proof fn lemma_project_type_names(t: ProjectType)
    ensures
        project_type_named(project_type_name(t)) == t,
{
    reveal_strlit("soroban");
    reveal_strlit("rpc-consumer");
    reveal_strlit("stellar-sdk");
    reveal_strlit("generic-stellar");
    reveal_strlit("unknown");
    assert("soroban"@[0] != "unknown"@[0]);
    assert("soroban"@.len() != "rpc-consumer"@.len());
    assert("soroban"@.len() != "stellar-sdk"@.len());
    assert("soroban"@.len() != "generic-stellar"@.len());
    assert("unknown"@.len() != "rpc-consumer"@.len());
    assert("unknown"@.len() != "stellar-sdk"@.len());
    assert("unknown"@.len() != "generic-stellar"@.len());
    assert("rpc-consumer"@.len() != "stellar-sdk"@.len());
    assert("rpc-consumer"@.len() != "generic-stellar"@.len());
    assert("stellar-sdk"@.len() != "generic-stellar"@.len());
}

proof fn lemma_statuses_partition(rs: Seq<CompatibilityResult>)
    ensures
        count_status(rs, Status::Pass) + count_status(rs, Status::Fail) + count_status(rs, Status::Warning)
            + count_status(rs, Status::Error) + count_status(rs, Status::Skipped) == rs.len(),
    decreases rs.len(),
{
    if rs.len() > 0 {
        lemma_statuses_partition(rs.drop_last());
    }
}

/// The counts of a report partition its results: every result is counted
/// exactly once as passed, failed, a warning or an error, except results
/// whose own status is `skipped`; skipped fixtures are counted apart and
/// never in the total.
pub proof fn lemma_counts_partition_results(rs: Seq<CompatibilityResult>, skipped: nat)
    requires
        rs.len() <= usize::MAX,
        skipped <= usize::MAX,
    ensures
        counts_of(rs, skipped).total == counts_of(rs, skipped).passed + counts_of(rs, skipped).failed + counts_of(
            rs,
            skipped,
        ).warnings + counts_of(rs, skipped).errors + count_status(rs, Status::Skipped),
        counts_of(rs, skipped).skipped == skipped,
{
    lemma_statuses_partition(rs);
}

/// The results whose status is `st`, in order.
pub open spec fn results_with_status(rs: Seq<CompatibilityResult>, st: Status) -> Seq<CompatibilityResult> {
    rs.filter(|r: CompatibilityResult| r.status == st)
}

proof fn lemma_count_status_counts_matching_results(rs: Seq<CompatibilityResult>, st: Status)
    ensures
        count_status(rs, st) == results_with_status(rs, st).len(),
    decreases rs.len(),
{
    reveal(Seq::filter);
    if rs.len() > 0 {
        lemma_count_status_counts_matching_results(rs.drop_last(), st);
    }
}

/// Each count of a report counts exactly the results with its status:
/// `passed` the passing results, `failed` the failing ones, `warnings`
/// those with a warning and `errors` those with an execution error;
/// `total` counts every result and `skipped` the skipped fixtures.
pub proof fn lemma_each_count_counts_its_status(rs: Seq<CompatibilityResult>, skipped: nat)
    requires
        rs.len() <= usize::MAX,
        skipped <= usize::MAX,
    ensures
        counts_of(rs, skipped).total == rs.len(),
        counts_of(rs, skipped).passed == rs.filter(|r: CompatibilityResult| r.status == Status::Pass).len(),
        counts_of(rs, skipped).failed == rs.filter(|r: CompatibilityResult| r.status == Status::Fail).len(),
        counts_of(rs, skipped).warnings == rs.filter(|r: CompatibilityResult| r.status == Status::Warning).len(),
        counts_of(rs, skipped).errors == rs.filter(|r: CompatibilityResult| r.status == Status::Error).len(),
        counts_of(rs, skipped).skipped == skipped,
{
    lemma_count_status_counts_matching_results(rs, Status::Pass);
    lemma_count_status_counts_matching_results(rs, Status::Fail);
    lemma_count_status_counts_matching_results(rs, Status::Warning);
    lemma_count_status_counts_matching_results(rs, Status::Error);
    rs.lemma_filter_len(|r: CompatibilityResult| r.status == Status::Pass);
    rs.lemma_filter_len(|r: CompatibilityResult| r.status == Status::Fail);
    rs.lemma_filter_len(|r: CompatibilityResult| r.status == Status::Warning);
    rs.lemma_filter_len(|r: CompatibilityResult| r.status == Status::Error);
    assert(results_with_status(rs, Status::Pass) =~= rs.filter(|r: CompatibilityResult| r.status == Status::Pass));
    assert(results_with_status(rs, Status::Fail) =~= rs.filter(|r: CompatibilityResult| r.status == Status::Fail));
    assert(results_with_status(rs, Status::Warning) =~= rs.filter(|r: CompatibilityResult| r.status == Status::Warning));
    assert(results_with_status(rs, Status::Error) =~= rs.filter(|r: CompatibilityResult| r.status == Status::Error));
}

/// Every reporter shows the same outcome of a run: the terminal's
/// `Status:` line, the Markdown `**Result:**` line and the JSON report's
/// `status` field all name its overall status, and the terminal's
/// `NOT READY` is the JSON report's `fail`.
pub proof fn lemma_reporters_agree_on_the_outcome(input: ReportInput, j: JsonReport)
    requires
        json_report_matches(j, input),
    ensures
        exists|a: Seq<char>, b: Seq<char>|
            terminal_text(input) == a + "Status: "@ + decision_text(overall(input.results@, input.decision))
                + "\n"@ + b,
        exists|a: Seq<char>, b: Seq<char>|
            markdown_text(input) == a + "**Result: "@ + report_status_upper(overall(input.results@, input.decision))
                + "**\n"@ + b,
        j.status@ == report_status_name(overall(input.results@, input.decision)),
        (decision_text(overall(input.results@, input.decision)) == "NOT READY"@) <==> (j.status@ == "fail"@),
{
    let rs = input.results@;
    let st = overall(rs, input.decision);
    let t = terminal_text(input);
    let body = crate::terminal::terminal_head(input) + crate::terminal::surface_block(rs, Surface::Xdr)
        + crate::terminal::surface_block(rs, Surface::Rpc) + crate::terminal::surface_block(rs, Surface::Soroban)
        + crate::terminal::skipped_block(input.skipped@, input.verbose);
    let fa = crate::terminal::rule_text() + "\n"@ + "\n"@ + decimal(count_status(rs, Status::Pass)) + "/"@ + decimal(
        rs.len(),
    ) + " applicable checks passed.\n"@ + "\n"@;
    let tb = if crate::report::has_failure(rs) {
        "\n"@ + crate::terminal::failure_blocks(rs)
    } else {
        Seq::empty()
    };
    assert(crate::terminal::terminal_foot(input) =~= fa + "Status: "@ + decision_text(st) + "\n"@ + tb);
    assert(t == body + crate::terminal::terminal_foot(input));
    let ta = body + fa;
    assert(t =~= ta + "Status: "@ + decision_text(st) + "\n"@ + tb);
    let m = markdown_text(input);
    let ma = "## Stellar Protocol Canary\n"@ + "\n"@ + "Protocol "@ + decimal(input.target_protocol.0 as nat)
        + " compatibility\n"@ + "\n"@ + "| Surface | Result |\n"@ + "|---|---|\n"@ + crate::markdown::table_row(
        rs,
        Surface::Xdr,
    ) + crate::markdown::table_row(rs, Surface::Rpc) + crate::markdown::table_row(rs, Surface::Soroban) + "\n"@;
    let mb = (if crate::report::has_failure(rs) {
        "\n"@ + "### Failures\n"@ + crate::markdown::failure_items(rs)
    } else {
        Seq::empty()
    }) + crate::markdown::skipped_note(input.skipped@, input.verbose);
    assert(m =~= ma + "**Result: "@ + report_status_upper(st) + "**\n"@ + mb);
    reveal_strlit("NOT READY");
    reveal_strlit("PASS");
    reveal_strlit("WARNING");
    reveal_strlit("ERROR");
    reveal_strlit("fail");
    reveal_strlit("pass");
    reveal_strlit("warning");
    reveal_strlit("error");
    assert("NOT READY"@.len() != "PASS"@.len());
    assert("NOT READY"@.len() != "WARNING"@.len());
    assert("NOT READY"@.len() != "ERROR"@.len());
    assert("fail"@ != "pass"@) by {
        assert("fail"@[0] != "pass"@[0]);
    }
    assert("fail"@.len() != "warning"@.len());
    assert("fail"@.len() != "error"@.len());
}

/// A custom network name that does not spell a well-known network.
pub open spec fn is_distinct_network_name(n: NetworkName) -> bool {
    n matches NetworkName::Custom(c) ==> c@ != "testnet"@ && c@ != "mainnet"@ && c@ != "futurenet"@
}

/// Reading back the JSON report of a run gives the run back: the same
/// tool version, target protocol, project, network, results, skipped
/// fixtures, Git metadata and verbosity, and the same overall status. The policy decision itself
/// comes back only as far as the overall status shows it. A custom
/// network whose name spells a well-known network reads back as that
/// network, so such names are left out.
pub proof fn lemma_report_round_trip(input: ReportInput, j: JsonReport, r: Result<ReportInput, JsonReportError>)
    requires
        json_report_matches(j, input),
        parse_outcome(j, r),
        input.network matches Some(n) ==> is_distinct_network_name(n.name),
    ensures
        r matches Ok(back) && {
            &&& back.tool_version == input.tool_version
            &&& back.target_protocol == input.target_protocol
            &&& back.project == input.project
            &&& back.network == input.network
            &&& back.results@ == input.results@
            &&& back.skipped@ == input.skipped@
            &&& back.git == input.git
            &&& back.verbose == input.verbose
            &&& overall(back.results@, back.decision) == overall(input.results@, input.decision)
        },
{
    let rs = j.results@;
    let ss = j.skipped@;
    assert forall|i: int| 0 <= i < rs.len() implies result_of_json(#[trigger] rs[i]) == input.results@[i] && result_error(rs[i]) is None by {
        assert(json_result_matches(rs[i], input.results@[i]));
        lemma_surface_names(input.results@[i].surface);
        lemma_status_names(input.results@[i].status);
    }
    assert forall|i: int| 0 <= i < ss.len() implies skip_of_json(#[trigger] ss[i]) == input.skipped@[i] && surface_named(ss[i].surface@) is Some by {
        assert(json_skip_matches(ss[i], input.skipped@[i]));
        lemma_surface_names(input.skipped@[i].surface);
    }
    lemma_no_result_error(rs);
    lemma_no_skip_error(ss);
    lemma_project_type_names(input.project.project_type);
    reveal_strlit("testnet");
    reveal_strlit("mainnet");
    reveal_strlit("futurenet");
    reveal_strlit("pass");
    reveal_strlit("warning");
    reveal_strlit("fail");
    reveal_strlit("error");
    assert("testnet"@[0] != "mainnet"@[0]);
    assert("testnet"@.len() != "futurenet"@.len());
    assert("mainnet"@.len() != "futurenet"@.len());
    assert("pass"@[0] != "fail"@[0]);
    assert("pass"@.len() != "warning"@.len());
    assert("pass"@.len() != "error"@.len());
    assert("fail"@.len() != "error"@.len());
    assert("warning"@.len() != "error"@.len());
    let back = r->Ok_0;
    assert(back.results@ =~= input.results@);
    assert(back.skipped@ =~= input.skipped@);
}

proof fn lemma_no_result_error(rs: Seq<JsonResult>)
    requires
        forall|i: int| 0 <= i < rs.len() ==> result_error(#[trigger] rs[i]) is None,
    ensures
        first_result_error(rs) is None,
    decreases rs.len(),
{
    if rs.len() > 0 {
        assert forall|i: int| 0 <= i < rs.drop_last().len() implies result_error(#[trigger] rs.drop_last()[i]) is None by {
            assert(rs.drop_last()[i] == rs[i]);
        }
        lemma_no_result_error(rs.drop_last());
        assert(result_error(rs[rs.len() - 1]) is None);
    }
}

proof fn lemma_no_skip_error(ss: Seq<JsonSkip>)
    requires
        forall|i: int| 0 <= i < ss.len() ==> surface_named((#[trigger] ss[i]).surface@) is Some,
    ensures
        first_skip_error(ss) is None,
    decreases ss.len(),
{
    if ss.len() > 0 {
        assert forall|i: int| 0 <= i < ss.drop_last().len() implies surface_named((#[trigger] ss.drop_last()[i]).surface@) is Some by {
            assert(ss.drop_last()[i] == ss[i]);
        }
        lemma_no_skip_error(ss.drop_last());
        assert(surface_named(ss[ss.len() - 1].surface@) is Some);
    }
}

} // verus!
