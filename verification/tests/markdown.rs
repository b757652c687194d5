use stellar_canary::markdown::MarkdownReporter;
use stellar_canary::model::{
    CompatibilityResult, GitContext, PolicyDecision, ProjectType, ProtocolVersion, Status, Surface,
};
use stellar_canary::report::{ProjectSummary, ReportInput, SkipSummary};

fn result(id: &str, surface: Surface, status: Status) -> CompatibilityResult {
    CompatibilityResult {
        test_id: id.into(),
        protocol: ProtocolVersion(28),
        surface,
        status,
        summary: format!("{id} summary"),
        details: None,
        duration_ms: 1,
        fixture_id: Some(id.into()),
    }
}

fn base_input(results: Vec<CompatibilityResult>, decision: PolicyDecision) -> ReportInput {
    ReportInput {
        tool_version: "0.1.0".into(),
        target_protocol: ProtocolVersion(28),
        project: ProjectSummary {
            name: "example".into(),
            project_type: ProjectType::Soroban,
        },
        network: None,
        results,
        skipped: vec![],
        decision,
        git: GitContext::default(),
        verbose: false,
    }
}

#[test]
fn renders_the_documented_table_shape_on_a_clean_pass() {
    let input = base_input(
        vec![
            result("p28-xdr-1", Surface::Xdr, Status::Pass),
            result("p28-rpc-1", Surface::Rpc, Status::Pass),
            result("p28-soroban-1", Surface::Soroban, Status::Pass),
        ],
        PolicyDecision::Pass,
    );
    let text = MarkdownReporter::render(&input);
    assert!(text.starts_with("## Stellar Protocol Canary"));
    assert!(text.contains("| Surface | Result |"));
    assert!(text.contains("| XDR | ✅ Pass |"));
    assert!(text.contains("| RPC | ✅ Pass |"));
    assert!(text.contains("| Soroban | ✅ Pass |"));
    assert!(text.contains("**Result: PASS**"));
    assert!(!text.contains("### Failures"));
}

#[test]
fn a_failure_produces_a_failures_section_with_details() {
    let mut failing = result("p28-xdr-1", Surface::Xdr, Status::Fail);
    failing.details = Some("decode mismatch".to_string());
    let input = base_input(vec![failing], PolicyDecision::Fail);
    let text = MarkdownReporter::render(&input);
    assert!(text.contains("| XDR | ❌ Fail |"));
    assert!(text.contains("**Result: FAIL**"));
    assert!(text.contains("### Failures"));
    assert!(text.contains("p28-xdr-1"));
    assert!(text.contains("decode mismatch"));
}

#[test]
fn a_failure_with_multiline_details_renders_as_nested_bullets() {
    let mut failing = result("p28-xdr-2", Surface::Xdr, Status::Fail);
    failing.details =
        Some("error summary\nbyte offset: 12\nexpected something else".to_string());
    let input = base_input(vec![failing], PolicyDecision::Fail);
    let text = MarkdownReporter::render(&input);
    let expected = "- **p28-xdr-2**: p28-xdr-2 summary\n  - error summary\n  - byte offset: 12\n  - expected something else\n";
    assert!(text.contains(expected));
}

#[test]
fn an_execution_error_renders_as_error_result() {
    let input = base_input(
        vec![result("p28-rpc-1", Surface::Rpc, Status::Error)],
        PolicyDecision::Pass,
    );
    let text = MarkdownReporter::render(&input);
    assert!(text.contains("**Result: ERROR**"));
}

#[test]
fn mentions_skipped_fixture_count_when_present() {
    let mut input = base_input(vec![], PolicyDecision::Pass);
    input.skipped.push(SkipSummary {
        fixture_id: "p28-soroban-1".into(),
        surface: Surface::Soroban,
        reason: "requires a capability not declared by this project".into(),
    });
    let text = MarkdownReporter::render(&input);
    assert!(text.contains("Skipped 1 fixture(s)."));
}

#[test]
fn the_whole_markdown_report_for_a_mixed_run() {
    let mut failing = result("p28-rpc-2", Surface::Rpc, Status::Fail);
    failing.details = Some("line one\r\nline two\n".to_string());
    let input = base_input(
        vec![
            result("p28-xdr-1", Surface::Xdr, Status::Warning),
            failing,
        ],
        PolicyDecision::Fail,
    );
    let text = MarkdownReporter::render(&input);
    let expected = "## Stellar Protocol Canary\n\nProtocol 28 compatibility\n\n| Surface | Result |\n|---|---|\n| XDR | ⚠️ Warning |\n| RPC | ❌ Fail |\n\n**Result: FAIL**\n\n### Failures\n\n- **p28-rpc-2**: p28-rpc-2 summary\n  - line one\n  - line two\n";
    assert_eq!(text, expected);
}

#[test]
fn a_verbose_report_says_why_each_fixture_was_skipped() {
    let mut input = base_input(vec![result("p28-xdr-1", Surface::Xdr, Status::Pass)], PolicyDecision::Pass);
    input.skipped.push(SkipSummary {
        fixture_id: "p28-soroban-1".into(),
        surface: Surface::Soroban,
        reason: "requires a capability not declared by this project".into(),
    });
    let quiet = MarkdownReporter::render(&input);
    assert!(quiet.ends_with("Skipped 1 fixture(s).\n"));
    input.verbose = true;
    let verbose = MarkdownReporter::render(&input);
    assert!(verbose.ends_with(
        "Skipped 1 fixture(s).\n- p28-soroban-1 (soroban): requires a capability not declared by this project\n"
    ));
}
