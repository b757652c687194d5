use stellar_canary::model::{
    CompatibilityResult, GitContext, NetworkName, PolicyDecision, ProjectType, ProtocolVersion,
    Status, Surface,
};
use stellar_canary::report::{NetworkSummary, ProjectSummary, ReportInput, SkipSummary};
use stellar_canary::terminal::TerminalReporter;

fn result(id: &str, surface: Surface, status: Status) -> CompatibilityResult {
    CompatibilityResult {
        test_id: id.into(),
        protocol: ProtocolVersion(28),
        surface,
        status,
        summary: format!("{id} summary"),
        details: None,
        duration_ms: 1,
        fixture_id: Some(id.into()),
    }
}

fn base_input(results: Vec<CompatibilityResult>, decision: PolicyDecision) -> ReportInput {
    ReportInput {
        tool_version: "0.1.0".into(),
        target_protocol: ProtocolVersion(28),
        project: ProjectSummary {
            name: "example".into(),
            project_type: ProjectType::Soroban,
        },
        network: None,
        results,
        skipped: vec![],
        decision,
        git: GitContext::default(),
        verbose: false,
    }
}

#[test]
fn all_passing_renders_aggregate_counts_and_pass_status() {
    let input = base_input(
        vec![
            result("p28-xdr-1", Surface::Xdr, Status::Pass),
            result("p28-xdr-2", Surface::Xdr, Status::Pass),
        ],
        PolicyDecision::Pass,
    );
    let text = TerminalReporter::render(&input);
    assert!(text.contains("2/2 PASS"));
    assert!(text.contains("2/2 applicable checks passed."));
    assert!(text.contains("Status: PASS"));
    assert!(!text.contains("Failure:"));
}

#[test]
fn a_failure_is_listed_individually_with_its_details() {
    let mut failing = result("p28-xdr-1", Surface::Xdr, Status::Fail);
    failing.details = Some("decode mismatch".to_string());
    let input = base_input(vec![failing], PolicyDecision::Fail);
    let text = TerminalReporter::render(&input);
    assert!(text.contains("p28-xdr-1"));
    assert!(text.contains("FAIL"));
    assert!(text.contains("Status: NOT READY"));
    assert!(text.contains("Failure:"));
    assert!(text.contains("decode mismatch"));
}

#[test]
fn an_execution_error_reports_error_status_even_with_a_pass_decision() {
    let input = base_input(
        vec![result("p28-rpc-1", Surface::Rpc, Status::Error)],
        PolicyDecision::Pass,
    );
    let text = TerminalReporter::render(&input);
    assert!(text.contains("Status: ERROR"));
}

#[test]
fn skipped_fixtures_are_summarized() {
    let mut input = base_input(vec![], PolicyDecision::Pass);
    input.skipped.push(SkipSummary {
        fixture_id: "p28-soroban-1".into(),
        surface: Surface::Soroban,
        reason: "requires a capability not declared by this project".into(),
    });
    let text = TerminalReporter::render(&input);
    assert!(text.contains("Skipped fixtures: 1"));
}

#[test]
fn the_documented_failing_report_is_rendered_exactly() {
    let mut failing = result("demo-xdr-fail", Surface::Xdr, Status::Fail);
    failing.summary = "failed to decode StellarValue input".into();
    failing.details = Some("failed to fill whole buffer".into());
    let mut input = base_input(vec![failing], PolicyDecision::Fail);
    input.project = ProjectSummary {
        name: "Protocol-Canary".into(),
        project_type: ProjectType::Unknown,
    };
    input.network = Some(NetworkSummary {
        name: NetworkName::Testnet,
        observed_protocol: Some(ProtocolVersion(28)),
        error: None,
    });
    let text = TerminalReporter::render(&input);
    let expected = "Stellar Protocol Canary\n────────────────────────────────────────\n\nProject: Protocol-Canary (unknown)\nTarget protocol: 28\nNetwork: testnet (observed protocol 28)\n\nXDR\n  demo-xdr-fail                ❌ FAIL\n\n────────────────────────────────────────\n\n0/1 applicable checks passed.\n\nStatus: NOT READY\n\nFailure:\ndemo-xdr-fail\n\nfailed to decode StellarValue input\n\nfailed to fill whole buffer\n\n";
    assert_eq!(text, expected);
}

#[test]
fn an_unobserved_protocol_shows_the_network_error() {
    let mut input = base_input(vec![], PolicyDecision::Pass);
    input.network = Some(NetworkSummary {
        name: NetworkName::Custom("local".into()),
        observed_protocol: None,
        error: Some("server returned status 500".into()),
    });
    let text = TerminalReporter::render(&input);
    assert!(text.contains("Network: local (protocol not observed: server returned status 500)\n"));
    input.network.as_mut().unwrap().error = None;
    let text = TerminalReporter::render(&input);
    assert!(text.contains("Network: local (protocol not observed)\n"));
}

#[test]
fn verbose_runs_list_skip_reasons() {
    let mut input = base_input(vec![], PolicyDecision::Pass);
    input.verbose = true;
    input.skipped.push(SkipSummary {
        fixture_id: "p28-soroban-1".into(),
        surface: Surface::Soroban,
        reason: "requires a capability".into(),
    });
    let text = TerminalReporter::render(&input);
    assert!(text.contains("Skipped fixtures: 1\n  p28-soroban-1 (soroban): requires a capability\n"));
    assert!(text.contains("0/0 applicable checks passed."));
}

#[test]
fn a_surface_with_a_warning_lists_each_result_with_its_badge() {
    let input = base_input(
        vec![
            result("p28-rpc-1", Surface::Rpc, Status::Pass),
            result("p28-rpc-2", Surface::Rpc, Status::Warning),
        ],
        PolicyDecision::Warning,
    );
    let text = TerminalReporter::render(&input);
    assert!(text.contains("RPC\n  p28-rpc-1                    ✓ PASS\n  p28-rpc-2                    ⚠ WARN\n\n"));
    assert!(text.contains("1/2 applicable checks passed."));
    assert!(text.contains("Status: WARNING"));
}

#[test]
fn surface_blocks_follow_the_fixed_order_whatever_the_result_order() {
    let input = base_input(
        vec![
            result("p28-soroban-1", Surface::Soroban, Status::Pass),
            result("p28-rpc-1", Surface::Rpc, Status::Pass),
            result("p28-xdr-1", Surface::Xdr, Status::Pass),
        ],
        PolicyDecision::Pass,
    );
    let text = TerminalReporter::render(&input);
    let xdr = text.find("XDR").expect("an XDR block");
    let rpc = text.find("RPC").expect("an RPC block");
    let soroban = text.find("Soroban").expect("a Soroban block");
    assert!(xdr < rpc && rpc < soroban);
    let only_rpc = base_input(vec![result("p28-rpc-1", Surface::Rpc, Status::Pass)], PolicyDecision::Pass);
    let text = TerminalReporter::render(&only_rpc);
    assert!(!text.contains("XDR"));
}

#[test]
fn an_offline_run_has_no_network_line_and_an_observed_one_shows_its_protocol() {
    let offline = base_input(vec![], PolicyDecision::Pass);
    assert!(!TerminalReporter::render(&offline).contains("Network: "));
    let mut online = base_input(vec![], PolicyDecision::Pass);
    online.network = Some(NetworkSummary {
        name: NetworkName::Testnet,
        observed_protocol: Some(ProtocolVersion(28)),
        error: None,
    });
    assert!(TerminalReporter::render(&online).contains("Network: testnet (observed protocol 28)\n"));
}
