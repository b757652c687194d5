use std::hash::{Hash, Hasher};
use stellar_canary::cache::{is_cacheable, sanitize, CacheKey, CacheStore};
use stellar_canary::model::{CompatibilityResult, ProtocolVersion, Status, Surface};

fn sample_key() -> CacheKey {
    CacheKey {
        fixture_id: "p28-xdr-cap83-001".into(),
        protocol: ProtocolVersion(28),
        project_fingerprint: "abc123".into(),
        rpc_endpoint: "https://soroban-testnet.stellar.org".into(),
        observed_protocol: Some(ProtocolVersion(28)),
    }
}

#[test]
fn different_rpc_endpoints_produce_different_cache_entries() {
    let mut key_a = sample_key();
    let mut key_b = sample_key();
    key_a.rpc_endpoint = "https://a.example".into();
    key_b.rpc_endpoint = "https://b.example".into();
    assert_ne!(key_a.to_file_stem(), key_b.to_file_stem());
}

#[test]
fn the_file_stem_embeds_every_field_but_the_endpoint() {
    let key = sample_key();
    let stem = key.to_file_stem();
    let parts: Vec<&str> = stem.split("__").collect();
    assert_eq!(parts.len(), 5);
    assert_eq!(parts[0], "p28-xdr-cap83-001");
    assert_eq!(parts[1], "p28");
    assert_eq!(parts[2], "abc123");
    assert_eq!(parts[3].len(), 16);
    assert!(parts[3].chars().all(|c| c.is_ascii_hexdigit() && !c.is_ascii_uppercase()));
    assert_eq!(parts[4], "28");
    assert_eq!(key.entry_file_name(), format!("{stem}.json"));
}

#[test]
fn the_endpoint_hash_is_the_default_hasher_hash_of_the_endpoint() {
    let key = sample_key();
    let mut hasher = std::collections::hash_map::DefaultHasher::new();
    key.rpc_endpoint.hash(&mut hasher);
    let expected = format!("{:016x}", hasher.finish());
    assert_eq!(key.to_file_stem().split("__").nth(3).unwrap(), expected);
}

#[test]
fn an_unobserved_protocol_is_written_as_unknown() {
    let mut key = sample_key();
    key.observed_protocol = None;
    key.fixture_id = "a/b".into();
    let stem = key.to_file_stem();
    assert!(stem.starts_with("a_b__p28__"));
    assert!(stem.ends_with("__unknown"));
}

#[test]
fn sanitize_keeps_ascii_alphanumeric_and_hyphen() {
    let input = "abcdefghijklmnopqrstuvwxyzABCDEFGHIJKLMNOPQRSTUVWXYZ0123456789-";
    assert_eq!(sanitize(input), input);
}

#[test]
fn sanitize_replaces_other_characters_with_underscore() {
    assert_eq!(sanitize("a/b.c:d e"), "a_b_c_d_e");
    assert_eq!(sanitize("!@#$%^&*()_+="), "_____________");
}

#[test]
fn sanitize_empty_string_returns_empty_string() {
    assert_eq!(sanitize(""), "");
}

#[test]
fn sanitize_replaces_non_ascii_letters() {
    assert_eq!(sanitize("é1ü"), "_1_");
}

#[test]
fn does_not_cache_execution_errors() {
    let mut result = CompatibilityResult {
        test_id: "t".into(),
        protocol: ProtocolVersion(28),
        surface: Surface::Xdr,
        status: Status::Error,
        summary: "s".into(),
        details: None,
        duration_ms: 0,
        fixture_id: None,
    };
    assert!(!is_cacheable(&result));
    result.status = Status::Fail;
    assert!(is_cacheable(&result));
    let store = CacheStore::new(std::path::PathBuf::from("cache-dir"));
    assert_eq!(store.root(), &std::path::PathBuf::from("cache-dir"));
}

#[test]
fn every_character_of_a_file_stem_is_filesystem_safe() {
    let key = CacheKey {
        fixture_id: "../weird id/ü*?".into(),
        protocol: ProtocolVersion(29),
        project_fingerprint: "C:\\proj:name".into(),
        rpc_endpoint: "http://[::1]:8000/rpc?x=y".into(),
        observed_protocol: None,
    };
    let stem = key.to_file_stem();
    assert!(stem.chars().all(|c| c.is_ascii_alphanumeric() || c == '-' || c == '_'), "{stem}");
    assert!(stem.ends_with("__unknown"));
}
