use stellar_canary::commands::{
    default_passphrase, default_rpc_url, fixtures_listing, inspect_plan, inspect_project, inspect_surfaces,
    resolve_rpc_url,
};
use stellar_canary::config::TestsSection;
use stellar_canary::errors::CanaryError;
use stellar_canary::execution::{error_result, restore_fixture_order};
use stellar_canary::model::{
    Capability, FixtureMetadata, FixtureStore, NetworkName, ProjectContext, ProjectType,
    ProtocolVersion, Surface,
};
use stellar_canary::model::{PolicyDecision, Status};
use stellar_canary::plan::{plan_step, read_metadata, EnabledSurfaces, MetadataFields, PlanStep};
use stellar_canary::policy::{evaluate_policy, exit_code_for_run, ExitCode, Policy};
use stellar_canary::report::SkipSummary;

fn fixture(id: &str, protocol: u32, surface: Surface) -> FixtureMetadata {
    FixtureMetadata {
        id: id.to_string(),
        protocol: ProtocolVersion(protocol),
        surface,
        category: "c".to_string(),
        description: "d".to_string(),
        source_reference: None,
        required_capabilities: vec![],
    }
}

#[test]
fn the_fixture_listing_groups_ids_by_surface_in_the_fixed_order() {
    let store = FixtureStore::new(vec![
        fixture("p28-soroban-1", 28, Surface::Soroban),
        fixture("p28-xdr-1", 28, Surface::Xdr),
        fixture("p27-xdr-1", 27, Surface::Xdr),
        fixture("p28-xdr-2", 28, Surface::Xdr),
    ]);
    assert_eq!(
        fixtures_listing(&store, 28, "fixtures"),
        "Protocol 28 fixtures\n\nXDR\n  p28-xdr-1\n  p28-xdr-2\n\nSoroban\n  p28-soroban-1\n\n"
    );
}

#[test]
fn an_empty_fixture_listing_names_the_directory() {
    let store = FixtureStore::new(vec![fixture("p27-xdr-1", 27, Surface::Xdr)]);
    assert_eq!(
        fixtures_listing(&store, 28, "fixtures"),
        "Protocol 28 fixtures\n\n(no fixtures found in fixtures)\n"
    );
}

#[test]
fn inspect_reports_an_overridden_project_type_and_capabilities() {
    let detected = ProjectContext {
        root: ".".into(),
        name: "example".to_string(),
        project_type: ProjectType::RpcConsumer,
        capabilities: vec![Capability::RpcClient, Capability::WasmArtifact],
    };
    assert_eq!(
        inspect_project("/work/example", &detected, Some(ProjectType::Soroban), 28),
        "Project root: /work/example\nProject type: soroban\n  (detected as rpc-consumer by auto-detection; overridden by configuration)\n\
         \nDetected Stellar SDK/XDR dependency: false\nDetected Soroban contract usage: false\n\
         Detected RPC client dependency: true\nDetected WASM artifact: true\n\nConfigured protocol: 28\n"
    );
    assert_eq!(
        inspect_project("/w", &detected, None, 27),
        "Project root: /w\nProject type: rpc-consumer\n\nDetected Stellar SDK/XDR dependency: false\n\
         Detected Soroban contract usage: false\nDetected RPC client dependency: true\n\
         Detected WASM artifact: true\n\nConfigured protocol: 27\n"
    );
}

#[test]
fn an_explicit_type_equal_to_the_detected_one_is_not_noted() {
    let detected = ProjectContext {
        root: ".".into(),
        name: "example".to_string(),
        project_type: ProjectType::Soroban,
        capabilities: vec![],
    };
    let text = inspect_project("/w", &detected, Some(ProjectType::Soroban), 28);
    assert!(!text.contains("overridden"));
}

#[test]
fn inspect_lists_enabled_surfaces_and_the_plan() {
    let tests = TestsSection { xdr: true, rpc: false, soroban: true };
    assert_eq!(
        inspect_surfaces(ProtocolVersion(28), &tests),
        "Target protocol for fixture plan: 28\nAvailable compatibility surfaces:\n  xdr:     enabled\n  rpc:     disabled\n  soroban: enabled\n"
    );
    let skipped = vec![SkipSummary {
        fixture_id: "p28-soroban-1".to_string(),
        surface: Surface::Soroban,
        reason: "requires a capability not declared by this project".to_string(),
    }];
    assert_eq!(
        inspect_plan("fixtures", &vec!["p28-xdr-1".to_string()], &vec![], &vec![], &skipped),
        "\nFixture compatibility plan (offline):\n  Directory: fixtures\n  Loaded fixtures that would run:\n    xdr: p28-xdr-1\n  Skipped fixtures:\n    p28-soroban-1 [soroban]: requires a capability not declared by this project\n"
    );
    assert_eq!(
        inspect_plan("f", &vec![], &vec![], &vec![], &vec![]),
        "\nFixture compatibility plan (offline):\n  Directory: f\n  Loaded fixtures that would run:\n    (none)\n  Skipped fixtures:\n    (none)\n"
    );
}

#[test]
fn the_rpc_url_flag_wins_over_the_built_in_endpoint() {
    assert_eq!(
        resolve_rpc_url(Some("http://localhost:8000".to_string()), Some("https://default"), &NetworkName::Testnet),
        Ok("http://localhost:8000".to_string())
    );
    assert_eq!(
        resolve_rpc_url(None, Some("https://default"), &NetworkName::Testnet),
        Ok("https://default".to_string())
    );
    assert_eq!(
        resolve_rpc_url(None, None, &NetworkName::Custom("standalone".to_string())),
        Err(CanaryError::Configuration(
            "--rpc-url is required for network standalone (no built-in default)".to_string()
        ))
    );
}

#[test]
fn well_known_networks_have_their_passphrases() {
    assert_eq!(default_passphrase(&NetworkName::Testnet), "Test SDF Network ; September 2015");
    assert_eq!(default_passphrase(&NetworkName::Mainnet), "Public Global Stellar Network ; September 2015");
    assert_eq!(default_passphrase(&NetworkName::Custom("x".to_string())), "");
}

#[test]
fn results_finishing_out_of_order_are_put_back_in_fixture_order() {
    let r = |id: &str| error_result(id, ProtocolVersion(28), Surface::Soroban, "boom");
    let finished = vec![(2, r("c")), (0, r("a")), (3, r("d")), (1, r("b"))];
    let ordered = restore_fixture_order(finished);
    let ids: Vec<(usize, String)> = ordered.into_iter().map(|(i, res)| (i, res.test_id)).collect();
    assert_eq!(
        ids,
        vec![(0, "a".to_string()), (1, "b".to_string()), (2, "c".to_string()), (3, "d".to_string())]
    );
}

#[test]
fn exit_codes_follow_the_documented_numbers() {
    let pass = |id: &str, status: Status| {
        let mut r = error_result(id, ProtocolVersion(28), Surface::Xdr, "x");
        r.status = status;
        r
    };
    let lenient = Policy { warnings_are_failures: false };
    let strict = Policy { warnings_are_failures: true };
    let clean = vec![pass("a", Status::Pass)];
    assert_eq!(evaluate_policy(&clean, &lenient), PolicyDecision::Pass);
    assert_eq!(exit_code_for_run(&clean, PolicyDecision::Pass).code(), 0);
    let warned = vec![pass("a", Status::Pass), pass("b", Status::Warning)];
    assert_eq!(evaluate_policy(&warned, &lenient), PolicyDecision::Warning);
    assert_eq!(evaluate_policy(&warned, &strict), PolicyDecision::Fail);
    assert_eq!(exit_code_for_run(&warned, PolicyDecision::Warning).code(), 0);
    assert_eq!(exit_code_for_run(&warned, PolicyDecision::Fail).code(), 1);
    let failed = vec![pass("a", Status::Fail)];
    assert_eq!(evaluate_policy(&failed, &lenient), PolicyDecision::Fail);
    assert_eq!(exit_code_for_run(&failed, PolicyDecision::Fail), ExitCode::CompatibilityFailure);
    let errored = vec![pass("a", Status::Error)];
    assert_eq!(exit_code_for_run(&errored, PolicyDecision::Pass).code(), 3);
    assert_eq!(ExitCode::from_error(&CanaryError::Configuration("x".to_string())).code(), 2);
    assert_eq!(ExitCode::from_error(&CanaryError::Xdr("x".to_string())).code(), 4);
    assert_eq!(ExitCode::from_error(&CanaryError::Internal("x".to_string())).code(), 5);
}

#[test]
fn the_plan_runs_applicable_fixtures_and_skips_those_needing_undeclared_capabilities() {
    let project = ProjectContext {
        root: ".".into(),
        name: "example".to_string(),
        project_type: ProjectType::Unknown,
        capabilities: vec![Capability::RpcClient],
    };
    let all = EnabledSurfaces { xdr: true, rpc: true, soroban: true };
    let target = ProtocolVersion(28);
    assert_eq!(plan_step(&fixture("a", 28, Surface::Xdr), target, &all, &project), PlanStep::Run);
    assert_eq!(plan_step(&fixture("b", 27, Surface::Xdr), target, &all, &project), PlanStep::Ignore);
    let no_rpc = EnabledSurfaces { xdr: true, rpc: false, soroban: true };
    assert_eq!(plan_step(&fixture("c", 28, Surface::Rpc), target, &no_rpc, &project), PlanStep::Ignore);
    let mut needs = fixture("p28-soroban-1", 28, Surface::Soroban);
    needs.required_capabilities = vec![Capability::RpcClient, Capability::SorobanContract];
    assert_eq!(
        plan_step(&needs, target, &all, &project),
        PlanStep::Skip("requires a capability not declared by this project".to_string())
    );
    needs.required_capabilities = vec![Capability::RpcClient];
    assert_eq!(plan_step(&needs, target, &all, &project), PlanStep::Run);
}

fn fields() -> MetadataFields {
    MetadataFields {
        id: Some("p28-xdr-1".to_string()),
        protocol: Some(28),
        surface: Some("xdr".to_string()),
        category: Some("cap-83".to_string()),
        description: Some("StellarValue roundtrip".to_string()),
        source_reference: Some("CAP-0083".to_string()),
        required_capabilities: vec!["rpc-client".to_string()],
    }
}

#[test]
fn fixture_metadata_is_read_from_its_keys() {
    let m = read_metadata(fields()).unwrap();
    assert_eq!(m.id, "p28-xdr-1");
    assert_eq!(m.protocol, ProtocolVersion(28));
    assert_eq!(m.surface, Surface::Xdr);
    assert_eq!(m.source_reference.as_deref(), Some("CAP-0083"));
    assert_eq!(m.required_capabilities, vec![Capability::RpcClient]);
}

#[test]
fn unusable_fixture_metadata_names_the_key() {
    let mut f = fields();
    f.id = None;
    assert_eq!(read_metadata(f).unwrap_err(), "missing required string field \"id\"");
    let mut f = fields();
    f.protocol = Some(0);
    assert_eq!(read_metadata(f).unwrap_err(), "protocol must be a positive protocol version number");
    let mut f = fields();
    f.surface = Some("wire".to_string());
    assert_eq!(read_metadata(f).unwrap_err(), "unsupported surface \"wire\": expected one of \"xdr\", \"rpc\", \"soroban\"");
    let mut f = fields();
    f.required_capabilities = vec!["telepathy".to_string()];
    assert_eq!(read_metadata(f).unwrap_err(), "unsupported capability \"telepathy\"");
}

#[test]
fn testnet_and_futurenet_have_built_in_endpoints() {
    assert_eq!(default_rpc_url(&NetworkName::Testnet), Some("https://soroban-testnet.stellar.org"));
    assert_eq!(default_rpc_url(&NetworkName::Futurenet), Some("https://rpc-futurenet.stellar.org"));
    assert_eq!(default_rpc_url(&NetworkName::Mainnet), None);
    assert_eq!(
        resolve_rpc_url(None, default_rpc_url(&NetworkName::Mainnet), &NetworkName::Mainnet),
        Err(CanaryError::Configuration("--rpc-url is required for network mainnet (no built-in default)".to_string()))
    );
}

#[test]
fn results_with_the_same_index_keep_their_arrival_order() {
    let r = |id: &str| error_result(id, ProtocolVersion(28), Surface::Rpc, "boom");
    let finished = vec![(1, r("x")), (0, r("a")), (1, r("y")), (0, r("b")), (1, r("z"))];
    let ids: Vec<(usize, String)> =
        restore_fixture_order(finished).into_iter().map(|(i, res)| (i, res.test_id)).collect();
    assert_eq!(
        ids,
        vec![
            (0, "a".to_string()),
            (0, "b".to_string()),
            (1, "x".to_string()),
            (1, "y".to_string()),
            (1, "z".to_string()),
        ]
    );
}
