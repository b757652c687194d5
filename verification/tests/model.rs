use stellar_canary::config::{ConfigFile, ProjectTypeSetting};
use stellar_canary::model::{
    Capability, CompatibilityResult, FixtureMetadata, FixtureStore, ProjectContext, ProjectType,
    ProtocolVersion, Status, Surface,
};

#[test]
fn default_config_matches_the_documented_mvp_example() {
    let config = ConfigFile::default();
    assert_eq!(config.version, 1);
    assert_eq!(config.protocol, 28);
    assert_eq!(config.project.project_type, ProjectTypeSetting::Auto);
    assert!(config.tests.xdr && config.tests.rpc && config.tests.soroban);
    assert!(!config.policy.warnings_are_failures);
}

#[test]
fn project_type_setting_round_trips_through_strings() {
    for setting in [
        ProjectTypeSetting::Auto,
        ProjectTypeSetting::Explicit(ProjectType::Soroban),
        ProjectTypeSetting::Explicit(ProjectType::RpcConsumer),
        ProjectTypeSetting::Explicit(ProjectType::StellarSdk),
        ProjectTypeSetting::Explicit(ProjectType::GenericStellar),
    ] {
        let parsed = ProjectTypeSetting::from_str(setting.as_str()).unwrap();
        assert_eq!(setting, parsed);
    }
}

#[test]
fn unknown_project_type_string_is_rejected() {
    let result = ProjectTypeSetting::from_str("not-a-type");
    assert!(result.is_none());
}

#[test]
fn project_type_setting_texts_are_the_documented_ones() {
    assert_eq!(ProjectTypeSetting::Auto.as_str(), "auto");
    assert_eq!(ProjectTypeSetting::Explicit(ProjectType::RpcConsumer).as_str(), "rpc-consumer");
    assert_eq!(ProjectTypeSetting::Explicit(ProjectType::Unknown).as_str(), "unknown");
    assert_eq!(
        ProjectTypeSetting::from_str("unknown"),
        Some(ProjectTypeSetting::Explicit(ProjectType::Unknown))
    );
    assert_eq!(ProjectTypeSetting::from_str("Auto"), None);
}

#[test]
fn explicit_setting_names_its_type() {
    assert_eq!(ProjectTypeSetting::Auto.explicit_type(), None);
    assert_eq!(
        ProjectTypeSetting::Explicit(ProjectType::StellarSdk).explicit_type(),
        Some(ProjectType::StellarSdk)
    );
}

#[test]
fn protocol_version_displays_as_its_number() {
    assert_eq!(ProtocolVersion(28).to_string(), "28");
}

#[test]
fn protocol_version_display_has_no_leading_zeros() {
    assert_eq!(ProtocolVersion(0).to_string(), "0");
    assert_eq!(ProtocolVersion(4294967295).to_string(), "4294967295");
    assert_eq!(ProtocolVersion::from(105).to_string(), "105");
}

#[test]
fn protocol_versions_order_numerically() {
    assert!(ProtocolVersion(27) < ProtocolVersion(28));
}

fn two_fixtures() -> FixtureStore {
    FixtureStore::new(vec![
        FixtureMetadata {
            id: "p28-xdr-cap83-001".into(),
            protocol: ProtocolVersion(28),
            surface: Surface::Xdr,
            category: "cap-83".into(),
            description: "StellarValue roundtrip".into(),
            source_reference: Some("CAP-0083".into()),
            required_capabilities: vec![],
        },
        FixtureMetadata {
            id: "p27-rpc-001".into(),
            protocol: ProtocolVersion(27),
            surface: Surface::Rpc,
            category: "network".into(),
            description: "network identity".into(),
            source_reference: None,
            required_capabilities: vec![],
        },
    ])
}

#[test]
fn fixture_store_filters_by_surface_and_protocol() {
    let store = two_fixtures();
    assert_eq!(store.len(), 2);
    assert_eq!(store.for_surface(Surface::Xdr).len(), 1);
    assert_eq!(store.for_protocol(ProtocolVersion(28)).len(), 1);
    assert!(store.by_id("p28-xdr-cap83-001").is_some());
    assert!(store.by_id("missing").is_none());
}

#[test]
fn fixture_store_keeps_order_and_finds_by_id() {
    let store = two_fixtures();
    assert!(!store.is_empty());
    assert_eq!(store.all()[1].id, "p27-rpc-001");
    assert_eq!(store.by_id("p27-rpc-001").unwrap().protocol, ProtocolVersion(27));
    assert_eq!(store.for_surface(Surface::Soroban).len(), 0);
    assert_eq!(store.for_protocol(ProtocolVersion(27))[0].id, "p27-rpc-001");
    assert!(FixtureStore::default().is_empty());
}

#[test]
fn compatibility_result_distinguishes_fail_from_error() {
    let fail = CompatibilityResult {
        test_id: "t1".into(),
        protocol: ProtocolVersion(28),
        surface: Surface::Xdr,
        status: Status::Fail,
        summary: "decode mismatch".into(),
        details: None,
        duration_ms: 1,
        fixture_id: Some("p28-xdr-cap83-001".into()),
    };
    let error = CompatibilityResult {
        status: Status::Error,
        ..fail.clone()
    };
    assert!(fail.is_required_failure());
    assert!(error.is_required_failure());
    assert_ne!(fail.status, error.status);
}

#[test]
fn passes_warnings_and_skips_are_not_required_failures() {
    for status in [Status::Pass, Status::Warning, Status::Skipped] {
        let result = CompatibilityResult {
            test_id: "t".into(),
            protocol: ProtocolVersion(28),
            surface: Surface::Rpc,
            status,
            summary: "s".into(),
            details: None,
            duration_ms: 0,
            fixture_id: None,
        };
        assert!(!result.is_required_failure());
    }
}

#[test]
fn project_context_reports_declared_capabilities() {
    let ctx = ProjectContext {
        root: std::path::PathBuf::from("."),
        name: "example".into(),
        project_type: ProjectType::Soroban,
        capabilities: vec![Capability::SorobanContract],
    };
    assert!(ctx.has_capability(&Capability::SorobanContract));
    assert!(!ctx.has_capability(&Capability::RawLedgerAccess));
}

#[test]
fn names_are_displayed_in_their_documented_case() {
    assert_eq!(Surface::Soroban.as_str(), "soroban");
    assert_eq!(Status::Warning.as_str(), "warning");
    assert_eq!(ProjectType::GenericStellar.as_str(), "generic-stellar");
    assert_eq!(stellar_canary::model::NetworkName::Futurenet.to_string(), "futurenet");
    assert_eq!(
        stellar_canary::model::NetworkName::Custom("local".into()).to_string(),
        "local"
    );
}

#[test]
fn a_configuration_must_have_the_supported_version_and_a_positive_protocol() {
    let mut config = ConfigFile::default();
    assert_eq!(stellar_canary::config::validate_config(&config), Ok(()));
    config.protocol = 0;
    assert_eq!(
        stellar_canary::config::validate_config(&config),
        Err(stellar_canary::errors::CanaryError::Configuration(
            "protocol must be a positive protocol version number".to_string()
        ))
    );
    config.protocol = 28;
    config.version = 2;
    assert_eq!(
        stellar_canary::config::validate_config(&config),
        Err(stellar_canary::errors::CanaryError::Configuration(
            "unsupported configuration version 2 (expected 1)".to_string()
        ))
    );
}
