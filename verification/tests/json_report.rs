use stellar_canary::json_report::{JsonReportError, JsonReporter, SCHEMA_VERSION};
use stellar_canary::model::{
    CompatibilityResult, GitContext, NetworkName, PolicyDecision, ProjectType, ProtocolVersion,
    Status, Surface,
};
use stellar_canary::report::{NetworkSummary, ProjectSummary, ReportInput, ReportStatus, SkipSummary};

fn input() -> ReportInput {
    ReportInput {
        tool_version: "0.1.0".into(),
        target_protocol: ProtocolVersion(28),
        project: ProjectSummary {
            name: "example".into(),
            project_type: ProjectType::Soroban,
        },
        network: Some(NetworkSummary {
            name: NetworkName::Testnet,
            observed_protocol: Some(ProtocolVersion(28)),
            error: None,
        }),
        results: vec![CompatibilityResult {
            test_id: "p28-xdr-1".into(),
            protocol: ProtocolVersion(28),
            surface: Surface::Xdr,
            status: Status::Pass,
            summary: "decoded successfully".into(),
            details: None,
            duration_ms: 3,
            fixture_id: Some("p28-xdr-1".into()),
        }],
        skipped: vec![SkipSummary {
            fixture_id: "p28-soroban-1".into(),
            surface: Surface::Soroban,
            reason: "requires a capability not declared by this project".into(),
        }],
        decision: PolicyDecision::Pass,
        git: GitContext::default(),
        verbose: false,
    }
}

#[test]
fn matches_the_documented_top_level_shape() {
    let report = JsonReporter::report_of(&input());
    assert_eq!(report.schema_version, 1);
    assert_eq!(report.tool_version, "0.1.0");
    assert_eq!(report.target_protocol, 28);
    assert_eq!(report.project.name, "example");
    assert_eq!(report.project.project_type, "soroban");
    let network = report.network.as_ref().unwrap();
    assert_eq!(network.name, "testnet");
    assert_eq!(network.observed_protocol, Some(28));
    assert_eq!(report.status, "pass");
    assert_eq!(report.results[0].test_id, "p28-xdr-1");
    assert_eq!(report.skipped[0].fixture_id, "p28-soroban-1");
    assert_eq!(report.counts.total, 1);
    assert_eq!(report.counts.passed, 1);
    assert_eq!(report.counts.failed, 0);
    assert_eq!(report.counts.skipped, 1);
}

#[test]
fn counts_reflect_a_mix_of_outcomes() {
    let mut mixed = input();
    mixed.results.push(CompatibilityResult {
        test_id: "p28-rpc-1".into(),
        protocol: ProtocolVersion(28),
        surface: Surface::Rpc,
        status: Status::Fail,
        summary: "mismatch".into(),
        details: None,
        duration_ms: 1,
        fixture_id: Some("p28-rpc-1".into()),
    });
    mixed.results.push(CompatibilityResult {
        test_id: "p28-soroban-1".into(),
        protocol: ProtocolVersion(28),
        surface: Surface::Soroban,
        status: Status::Warning,
        summary: "deprecated".into(),
        details: None,
        duration_ms: 1,
        fixture_id: Some("p28-soroban-1".into()),
    });
    let report = JsonReporter::report_of(&mixed);
    assert_eq!(report.counts.total, 3);
    assert_eq!(report.counts.passed, 1);
    assert_eq!(report.counts.failed, 1);
    assert_eq!(report.counts.warnings, 1);
    assert_eq!(report.counts.errors, 0);
}

#[test]
fn an_execution_error_is_reflected_in_the_status_field() {
    let mut input = input();
    input.results[0].status = Status::Error;
    let report = JsonReporter::report_of(&input);
    assert_eq!(report.status, "error");
}

#[test]
fn omits_the_network_field_entirely_for_an_offline_run() {
    let mut input = input();
    input.network = None;
    let report = JsonReporter::report_of(&input);
    assert!(report.network.is_none());
}

#[test]
fn output_is_deterministic_for_the_same_input() {
    let a = JsonReporter::report_of(&input());
    let b = JsonReporter::report_of(&input());
    assert_eq!(a, b);
}

#[test]
fn parses_its_own_rendered_output_back_into_an_equivalent_report() {
    let original = input();
    let report = JsonReporter::report_of(&original);
    let parsed = JsonReporter::parse_report(report).expect("parses");
    assert_eq!(parsed.tool_version, original.tool_version);
    assert_eq!(parsed.target_protocol, original.target_protocol);
    assert_eq!(parsed.project, original.project);
    assert_eq!(parsed.network, original.network);
    assert_eq!(parsed.results, original.results);
    assert_eq!(parsed.skipped, original.skipped);
    assert_eq!(parsed.overall_status(), original.overall_status());
}

#[test]
fn parsing_preserves_an_error_outcome_even_though_decision_is_approximated() {
    let mut original = input();
    original.results[0].status = Status::Error;
    let report = JsonReporter::report_of(&original);
    let parsed = JsonReporter::parse_report(report).expect("parses");
    assert_eq!(parsed.overall_status(), ReportStatus::Error);
}

#[test]
fn rejects_a_result_with_an_unrecognized_surface() {
    let mut report = JsonReporter::report_of(&input());
    report.results[0].surface = "wire".into();
    let err = JsonReporter::parse_report(report).unwrap_err();
    assert!(matches!(err, JsonReportError::UnknownSurface(surface) if surface == "wire"));
}

#[test]
fn rejects_a_result_with_an_unrecognized_status() {
    let mut report = JsonReporter::report_of(&input());
    report.results[0].status = "inconclusive".into();
    let err = JsonReporter::parse_report(report).unwrap_err();
    assert!(matches!(err, JsonReportError::UnknownStatus(status) if status == "inconclusive"));
}

#[test]
fn rejects_a_report_with_an_unsupported_schema_version() {
    let mut report = JsonReporter::report_of(&input());
    report.schema_version = 999;
    let err = JsonReporter::parse_report(report).unwrap_err();
    match err {
        JsonReportError::UnsupportedSchemaVersion { found, expected } => {
            assert_eq!(found, 999);
            assert_eq!(expected, SCHEMA_VERSION);
        }
        _ => panic!("Expected UnsupportedSchemaVersion error, got {:?}", err),
    }
}

#[test]
fn a_bad_skipped_surface_is_reported_after_the_results() {
    let mut report = JsonReporter::report_of(&input());
    report.skipped[0].surface = "network".into();
    let err = JsonReporter::parse_report(report).unwrap_err();
    assert_eq!(err, JsonReportError::UnknownSurface("network".into()));
}

#[test]
fn names_that_are_not_well_known_read_back_leniently() {
    let mut report = JsonReporter::report_of(&input());
    report.project.project_type = "something-else".into();
    report.network.as_mut().unwrap().name = "localnet".into();
    report.status = "warning".into();
    let parsed = JsonReporter::parse_report(report).unwrap();
    assert_eq!(parsed.project.project_type, ProjectType::Unknown);
    assert_eq!(parsed.network.unwrap().name, NetworkName::Custom("localnet".into()));
    assert_eq!(parsed.decision, PolicyDecision::Warning);
    assert!(!parsed.verbose);
}

#[test]
fn report_reading_errors_have_the_documented_wording() {
    assert_eq!(
        JsonReportError::UnsupportedSchemaVersion { found: 999, expected: SCHEMA_VERSION }.message(),
        "unsupported schema version (found 999, expected 1)"
    );
    assert_eq!(
        JsonReportError::UnknownSurface("wire".to_string()).message(),
        "unrecognized surface \"wire\" in JSON report"
    );
    assert_eq!(
        JsonReportError::UnknownStatus("inconclusive".to_string()).message(),
        "unrecognized status \"inconclusive\" in JSON report"
    );
    assert_eq!(
        JsonReportError::Parse("expected value".to_string()).message(),
        "failed to parse JSON report: expected value"
    );
}

#[test]
fn the_verbose_flag_is_passed_through_the_json_report() {
    let mut original = input();
    original.verbose = true;
    let report = JsonReporter::report_of(&original);
    assert!(report.verbose);
    let parsed = JsonReporter::parse_report(report).expect("parses");
    assert!(parsed.verbose);
    assert_eq!(parsed.git, original.git);
}
