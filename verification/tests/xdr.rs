use stellar_canary::cache::CacheStore;
use stellar_canary::execution::{cache_key, error_result, run_xdr, run_xdr_fixture};
use stellar_canary::model::{
    CompatibilityResult, ExecutionContext, FixtureMetadata, FixtureStore, GitContext,
    NetworkContext, NetworkName, ProjectContext, ProjectType, ProtocolVersion, RunOptions, Status,
    Surface,
};
use stellar_canary::xdr::{
    evaluate, xdr_roundtrip, DefaultXdrRunner, XdrAssertion, XdrError, XdrFixture,
    XdrFixtureBody, XdrRoundtrip, XdrRunner, XdrTypeName,
};
use stellar_xdr::{
    ContractExecutable, ContractExecutableExternalRef, ContractId, Limits, ScAddress, ScString,
    StellarValue, WriteXdr,
};

fn valid_stellar_value_base64() -> String {
    StellarValue::default().to_xdr_base64(Limits::none()).unwrap()
}

fn metadata(id: &str) -> FixtureMetadata {
    FixtureMetadata {
        id: id.to_string(),
        protocol: ProtocolVersion(28),
        surface: Surface::Xdr,
        category: "cap-83".to_string(),
        description: "test".to_string(),
        source_reference: None,
        required_capabilities: vec![],
    }
}

fn body(xdr_type: Option<&str>, kind: Option<&str>, value: Option<&str>, expected: Option<&str>) -> XdrFixtureBody {
    XdrFixtureBody {
        is_table: true,
        xdr_type: xdr_type.map(|s| s.to_string()),
        kind: kind.map(|s| s.to_string()),
        value_base64: value.map(|s| s.to_string()),
        expected_base64: expected.map(|s| s.to_string()),
    }
}

fn fixture(id: &str, b: XdrFixtureBody) -> Result<XdrFixture, XdrError> {
    XdrFixture::from_body(metadata(id), std::path::PathBuf::from("test.toml"), b)
}

fn context() -> ExecutionContext {
    ExecutionContext {
        protocol: ProtocolVersion(28),
        project: ProjectContext {
            root: ".".into(),
            name: "test".into(),
            project_type: ProjectType::Unknown,
            capabilities: vec![],
        },
        network: NetworkContext {
            name: NetworkName::Testnet,
            rpc_url: "https://example.invalid".into(),
            passphrase: "Test SDF Network ; September 2015".into(),
            observed_protocol: None,
        },
        fixtures: FixtureStore::default(),
        git: GitContext::default(),
        cache: CacheStore::new(std::path::PathBuf::from("canary-xdr-runner-tests-cache")),
        options: RunOptions::default(),
    }
}

fn run(id: &str, b: XdrFixtureBody) -> CompatibilityResult {
    let f = fixture(id, b).unwrap();
    DefaultXdrRunner.run(&f, &context()).unwrap()
}

fn reason_of(err: XdrError) -> String {
    match err {
        XdrError::InvalidFixtureBody { reason, .. } => reason,
    }
}

#[test]
fn decode_success_fixture_passes_on_valid_input() {
    let v = valid_stellar_value_base64();
    let result = run("p28-xdr-1", body(Some("StellarValue"), Some("decode-success"), Some(&v), None));
    assert_eq!(result.status, Status::Pass);
    assert_eq!(result.summary, "decoded StellarValue successfully");
    assert_eq!(result.test_id, "p28-xdr-1");
    assert_eq!(result.fixture_id.as_deref(), Some("p28-xdr-1"));
    assert_eq!(result.surface, Surface::Xdr);
}

#[test]
fn decode_success_fixture_fails_on_garbage_input() {
    let result = run("p28-xdr-2", body(Some("StellarValue"), Some("decode-success"), Some("!!!not-xdr!!!"), None));
    assert_eq!(result.status, Status::Fail);
    assert_eq!(result.summary, "failed to decode StellarValue");
    assert!(result.details.is_some());
}

#[test]
fn decode_failure_fixture_passes_when_input_is_correctly_rejected() {
    let result = run("p28-xdr-3", body(Some("StellarValue"), Some("decode-failure"), Some("!!!not-xdr!!!"), None));
    assert_eq!(result.status, Status::Pass);
    assert_eq!(result.summary, "StellarValue was correctly rejected");
}

#[test]
fn decode_failure_fixture_fails_when_input_unexpectedly_decodes() {
    let v = valid_stellar_value_base64();
    let result = run("p28-xdr-4", body(Some("StellarValue"), Some("decode-failure"), Some(&v), None));
    assert_eq!(result.status, Status::Fail);
    assert_eq!(result.details, None);
}

#[test]
fn roundtrip_fixture_passes_for_canonical_input() {
    let v = valid_stellar_value_base64();
    let result = run("p28-xdr-5", body(Some("StellarValue"), Some("roundtrip"), Some(&v), None));
    assert_eq!(result.status, Status::Pass);
    assert_eq!(result.summary, "StellarValue round-tripped byte-for-byte");
}

#[test]
fn encode_equals_fixture_passes_when_output_matches_expectation() {
    let v = valid_stellar_value_base64();
    let result = run("p28-xdr-6", body(Some("StellarValue"), Some("encode-equals"), Some(&v), Some(&v)));
    assert_eq!(result.status, Status::Pass);
}

#[test]
fn encode_equals_fixture_fails_when_output_does_not_match_expectation() {
    let v = valid_stellar_value_base64();
    let result = run("p28-xdr-7", body(Some("StellarValue"), Some("encode-equals"), Some(&v), Some("AAAA")));
    assert_eq!(result.status, Status::Fail);
    assert_eq!(result.details, Some(format!("expected: AAAA\nactual:   {v}")));
}

#[test]
fn rejects_a_fixture_body_missing_the_type_field() {
    let err = fixture("p28-xdr-8", body(None, Some("decode-success"), Some("AAAA"), None)).unwrap_err();
    assert!(matches!(err, XdrError::InvalidFixtureBody { .. }));
}

#[test]
fn rejects_an_unsupported_assertion_kind() {
    let err = fixture("p28-xdr-9", body(Some("StellarValue"), Some("not-a-kind"), Some("AAAA"), None)).unwrap_err();
    assert!(matches!(err, XdrError::InvalidFixtureBody { .. }));
}

#[test]
fn rejects_a_well_formed_but_unsupported_xdr_type_name_and_lists_the_supported_ones() {
    let err = fixture("p28-xdr-10", body(Some("LedgerEntry"), Some("decode-success"), Some("AAAA"), None)).unwrap_err();
    match err {
        XdrError::InvalidFixtureBody { reason, .. } => {
            assert!(reason.contains("LedgerEntry"), "reason: {reason}");
            for supported in ["StellarValue", "ContractExecutable", "ScVal"] {
                assert!(reason.contains(supported), "reason must list supported type {supported:?}: {reason}");
            }
        }
    }
}

#[test]
fn test_roundtrip_fixture_fails_for_non_canonical_input() {
    let input_base64 = "AAAAAAAAAAI=";
    let expected_output = "AAAAAAAAAAA=";
    let result = run("p28-xdr-roundtrip-fail", body(Some("ScVal"), Some("roundtrip"), Some(input_base64), None));
    assert_eq!(result.status, Status::Fail);
    let details = result.details.expect("details should be present");
    assert!(details.contains(input_base64));
    assert!(details.contains(expected_output));
}

#[test]
fn fixture_body_errors_name_the_missing_field() {
    let not_table = XdrFixtureBody { is_table: false, ..body(Some("ScVal"), Some("roundtrip"), Some("AAAA"), None) };
    assert_eq!(reason_of(fixture("x", not_table).unwrap_err()), "fixture body must be a table");
    assert_eq!(
        reason_of(fixture("x", body(None, Some("roundtrip"), Some("AAAA"), None)).unwrap_err()),
        "missing required string field \"type\""
    );
    assert_eq!(
        reason_of(fixture("x", body(Some("ScVal"), None, Some("AAAA"), None)).unwrap_err()),
        "missing required string field \"kind\""
    );
    assert_eq!(
        reason_of(fixture("x", body(Some("ScVal"), Some("roundtrip"), None, None)).unwrap_err()),
        "missing required string field \"value_base64\""
    );
    assert_eq!(
        reason_of(fixture("x", body(Some("ScVal"), Some("encode-equals"), Some("AAAA"), None)).unwrap_err()),
        "missing required string field \"expected_base64\""
    );
    assert_eq!(
        reason_of(fixture("x", body(Some("ScVal"), Some("not-a-kind"), Some("AAAA"), None)).unwrap_err()),
        "unsupported assertion kind \"not-a-kind\": expected one of \"decode-success\", \"decode-failure\", \"roundtrip\", \"encode-equals\""
    );
    assert_eq!(
        reason_of(fixture("x", body(Some("LedgerEntry"), Some("roundtrip"), Some("AAAA"), None)).unwrap_err()),
        "unsupported xdr type \"LedgerEntry\": supported types are: \"StellarValue\", \"ContractExecutable\", \"ScVal\""
    );
}

#[test]
fn a_readable_body_gives_the_declared_assertion() {
    let f = fixture("x", body(Some("ContractExecutable"), Some("encode-equals"), Some("AAAA"), Some("BBBB"))).unwrap();
    assert_eq!(f.xdr_type, XdrTypeName::ContractExecutable);
    assert_eq!(
        f.assertion,
        XdrAssertion::EncodeEquals { value_base64: "AAAA".to_string(), expected_base64: "BBBB".to_string() }
    );
    assert_eq!(f.metadata.id, "x");
}

#[test]
fn xdr_type_names_read_back_as_themselves() {
    for t in [XdrTypeName::StellarValue, XdrTypeName::ContractExecutable, XdrTypeName::ScVal] {
        assert_eq!(XdrTypeName::from_str(t.as_str()), Ok(t));
    }
}

#[test]
fn the_roundtrip_reencodes_rather_than_echoing_its_input() {
    // A non-canonical boolean decodes as `false` and is written back canonically.
    assert_eq!(
        xdr_roundtrip(XdrTypeName::ScVal, "AAAAAAAAAAI="),
        XdrRoundtrip::Encoded("AAAAAAAAAAA=".to_string())
    );
    let v = valid_stellar_value_base64();
    assert_eq!(xdr_roundtrip(XdrTypeName::StellarValue, &v), XdrRoundtrip::Encoded(v.clone()));
    assert!(matches!(xdr_roundtrip(XdrTypeName::StellarValue, "!!!"), XdrRoundtrip::DecodeFailed(_)));
    assert!(matches!(xdr_roundtrip(XdrTypeName::ContractExecutable, "!!!"), XdrRoundtrip::DecodeFailed(_)));
}

#[test]
fn contract_executable_values_round_trip() {
    // ContractExecutable::StellarAsset has discriminant 1 and no payload.
    assert_eq!(
        xdr_roundtrip(XdrTypeName::ContractExecutable, "AAAAAQ=="),
        XdrRoundtrip::Encoded("AAAAAQ==".to_string())
    );
    let f = fixture("ce", body(Some("ContractExecutable"), Some("roundtrip"), Some("AAAAAQ=="), None)).unwrap();
    let (status, summary, details) = evaluate(&f);
    assert_eq!(status, Status::Pass);
    assert_eq!(summary, "ContractExecutable round-tripped byte-for-byte");
    assert_eq!(details, None);
}

#[test]
fn xdr_fixtures_run_synchronously_in_order() {
    let f1 = fixture("a", body(Some("StellarValue"), Some("decode-success"), Some("AAAA"), None)).unwrap();
    let f2 = fixture("b", body(Some("StellarValue"), Some("decode-failure"), Some("AAAA"), None)).unwrap();
    let results = run_xdr(&vec![f1, f2], &context(), vec![None, None]);
    assert_eq!(results.len(), 2);
    assert_eq!(results[0].0.test_id, "a");
    assert_eq!(results[1].0.test_id, "b");
}

#[test]
fn a_cached_result_is_reused_and_not_stored_again() {
    let f = fixture("a", body(Some("StellarValue"), Some("decode-success"), Some("AAAA"), None)).unwrap();
    let cached = error_result("a", ProtocolVersion(28), Surface::Xdr, "earlier");
    let (result, fresh) = run_xdr_fixture(&f, &context(), Some(cached.clone()));
    assert_eq!(result, cached);
    assert!(!fresh);
    let (result, fresh) = run_xdr_fixture(&f, &context(), None);
    assert!(fresh);
    assert_eq!(result.test_id, "a");
    assert_eq!(result.status, Status::Fail);
}

#[test]
fn an_execution_error_result_has_the_documented_shape() {
    let r = error_result("p28-rpc-1", ProtocolVersion(28), Surface::Rpc, "boom");
    assert_eq!(r.status, Status::Error);
    assert_eq!(r.summary, "failed to execute fixture");
    assert_eq!(r.details.as_deref(), Some("boom"));
    assert_eq!(r.duration_ms, 0);
    assert_eq!(r.fixture_id.as_deref(), Some("p28-rpc-1"));
}

#[test]
fn cache_keys_use_the_commit_and_mark_a_dirty_tree() {
    let mut ctx = context();
    assert_eq!(cache_key(&ctx, "f").project_fingerprint, "test");
    ctx.git.commit = Some("abc123".to_string());
    assert_eq!(cache_key(&ctx, "f").project_fingerprint, "abc123");
    ctx.git.is_dirty = Some(true);
    let key = cache_key(&ctx, "f");
    assert_eq!(key.project_fingerprint, "abc123-dirty");
    assert_eq!(key.fixture_id, "f");
    assert_eq!(key.rpc_endpoint, "https://example.invalid");
}

#[test]
fn an_external_ref_contract_executable_round_trips() {
    let executable = ContractExecutable::ExternalRef(ContractExecutableExternalRef {
        executable_owner: ScAddress::Contract(ContractId(stellar_xdr::Hash([7u8; 32]))),
        tag: ScString("v1".try_into().unwrap()),
    });
    let encoded = executable.to_xdr_base64(Limits::none()).unwrap();
    let f = fixture("cap-85", body(Some("ContractExecutable"), Some("roundtrip"), Some(&encoded), None)).unwrap();
    let (status, summary, _) = evaluate(&f);
    assert_eq!(status, Status::Pass);
    assert_eq!(summary, "ContractExecutable round-tripped byte-for-byte");
}

fn base64_of(bytes: &[u8]) -> String {
    const ALPHABET: &[u8; 64] = b"ABCDEFGHIJKLMNOPQRSTUVWXYZabcdefghijklmnopqrstuvwxyz0123456789+/";
    let mut out = String::new();
    for chunk in bytes.chunks(3) {
        let b = [chunk[0], *chunk.get(1).unwrap_or(&0), *chunk.get(2).unwrap_or(&0)];
        let n = ((b[0] as u32) << 16) | ((b[1] as u32) << 8) | b[2] as u32;
        for i in 0..4 {
            if i <= chunk.len() {
                out.push(ALPHABET[((n >> (18 - 6 * i)) & 63) as usize] as char);
            } else {
                out.push('=');
            }
        }
    }
    out
}

/// An `ScVal::Vec` holding one `ScVal::Vec` ... `levels` deep, around a
/// void value, as base64 XDR.
fn nested_sc_vec(levels: usize) -> String {
    let mut bytes = Vec::new();
    for _ in 0..levels {
        bytes.extend_from_slice(&[0, 0, 0, 16, 0, 0, 0, 1, 0, 0, 0, 1]);
    }
    bytes.extend_from_slice(&[0, 0, 0, 1]);
    base64_of(&bytes)
}

#[test]
fn shallow_nested_values_round_trip() {
    let text = nested_sc_vec(10);
    assert_eq!(xdr_roundtrip(XdrTypeName::ScVal, &text), XdrRoundtrip::Encoded(text.clone()));
}

#[test]
fn very_deeply_nested_values_are_refused_rather_than_overflowing_the_stack() {
    let text = nested_sc_vec(100_000);
    assert!(matches!(xdr_roundtrip(XdrTypeName::ScVal, &text), XdrRoundtrip::DecodeFailed(_)));
    let text = nested_sc_vec(1_000);
    assert!(matches!(xdr_roundtrip(XdrTypeName::ScVal, &text), XdrRoundtrip::DecodeFailed(_)));
}

#[test]
fn values_near_the_depth_limit_are_decoded_or_refused_without_overflowing_the_stack() {
    for levels in [100, 200, 300, 400, 499, 500, 501] {
        let text = nested_sc_vec(levels);
        match xdr_roundtrip(XdrTypeName::ScVal, &text) {
            XdrRoundtrip::Encoded(back) => assert_eq!(back, text),
            XdrRoundtrip::DecodeFailed(_) => {}
            other => panic!("unexpected outcome at {levels} levels: {other:?}"),
        }
    }
}
