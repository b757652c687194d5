use stellar_canary::commands::observe_network_identity;
use stellar_canary::errors::CanaryError;
use stellar_canary::model::{GitContext, NetworkName, PolicyDecision, ProjectType, ProtocolVersion};
use stellar_canary::policy::{exit_code_for_run, ExitCode};
use stellar_canary::report::{NetworkSummary, ProjectSummary, ReportInput};
use stellar_canary::json_report::JsonReporter;
use stellar_canary::rpc_client::{NetworkInfo, RpcError};
use stellar_canary::terminal::TerminalReporter;

const TESTNET_PASSPHRASE: &str = "Test SDF Network ; September 2015";
const MAINNET_PASSPHRASE: &str = "Public Global Stellar Network ; September 2015";

fn info(passphrase: &str, protocol_version: u32) -> NetworkInfo {
    NetworkInfo { friendbot_url: None, passphrase: passphrase.to_string(), protocol_version }
}

/// The report of a live run with no fixtures, as `check` renders it for
/// an observed network.
fn report(observed: Option<ProtocolVersion>) -> ReportInput {
    ReportInput {
        tool_version: "0.1.1".to_string(),
        target_protocol: ProtocolVersion(28),
        project: ProjectSummary { name: "check".to_string(), project_type: ProjectType::Unknown },
        network: Some(NetworkSummary { name: NetworkName::Testnet, observed_protocol: observed, error: None }),
        results: vec![],
        skipped: vec![],
        decision: PolicyDecision::Pass,
        git: GitContext::default(),
        verbose: false,
    }
}

#[test]
fn a_protocol_mismatch_between_the_target_and_observed_protocol_is_surfaced_to_the_user() {
    let observation =
        observe_network_identity(&Ok(info(TESTNET_PASSPHRASE, 27)), TESTNET_PASSPHRASE, ProtocolVersion(28)).unwrap();
    let warning = format!("warning: {}", observation.warning.clone().expect("a mismatch is a warning"));
    assert!(warning.contains("warning:"));
    assert!(warning.contains("the RPC endpoint reports protocol 27, but this run targets protocol 28"));
    let input = report(observation.observed_protocol);
    assert_eq!(exit_code_for_run(&input.results, input.decision).code(), 0);
    assert!(TerminalReporter::render(&input).contains("Network: testnet (observed protocol 27)"));
}

#[test]
fn a_network_passphrase_mismatch_aborts_as_a_configuration_error() {
    let err = observe_network_identity(&Ok(info(MAINNET_PASSPHRASE, 28)), TESTNET_PASSPHRASE, ProtocolVersion(28))
        .unwrap_err();
    assert_eq!(ExitCode::from_error(&err).code(), 2);
    assert!(matches!(err, CanaryError::Configuration(_)));
    let text = format!("error: {}", err.message());
    assert!(text.contains("configuration error"));
    assert!(text.contains(MAINNET_PASSPHRASE) && text.contains(TESTNET_PASSPHRASE));
}

#[test]
fn a_matching_network_and_protocol_produce_no_mismatch_warning() {
    let observation =
        observe_network_identity(&Ok(info(TESTNET_PASSPHRASE, 28)), TESTNET_PASSPHRASE, ProtocolVersion(28)).unwrap();
    assert!(observation.warning.is_none());
    let input = report(observation.observed_protocol);
    assert_eq!(exit_code_for_run(&input.results, input.decision).code(), 0);
    assert!(TerminalReporter::render(&input).contains("Network: testnet (observed protocol 28)"));
}

#[test]
fn a_failing_get_network_call_surfaces_the_error() {
    let failure = RpcError::Transport {
        method: "getNetwork".to_string(),
        message: "server returned status 500 Internal Server Error".to_string(),
    };
    let observation = observe_network_identity(&Err(failure), TESTNET_PASSPHRASE, ProtocolVersion(28)).unwrap();
    let mut input = report(observation.observed_protocol);
    input.network = Some(NetworkSummary {
        name: NetworkName::Testnet,
        observed_protocol: observation.observed_protocol,
        error: observation.error.clone(),
    });
    let text = TerminalReporter::render(&input);
    assert!(text.contains("protocol not observed"));
    assert!(text.contains("Internal Server Error") || text.contains("500"), "Output was: {}", text);
    let json = JsonReporter::report_of(&input);
    let error_text = json.network.and_then(|n| n.error).expect("Network error field should be present and a string");
    assert!(error_text.contains("Internal Server Error") || error_text.contains("500"), "JSON error was: {}", error_text);
}
