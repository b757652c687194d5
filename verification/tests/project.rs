use stellar_canary::model::{Capability, ProjectType};
use stellar_canary::project::{
    classify, detect, detect_capabilities, is_wasm_file_name, known_wasm_output_dirs,
    resolve_project_type, scan_step, CargoManifest, DetectionSignals, ScanStep, WASM_SCAN_DEPTH,
};

#[test]
fn soroban_dependency_yields_soroban_contract_capability() {
    let signals = DetectionSignals {
        manifest: Some(CargoManifest {
            dependency_names: vec!["soroban-sdk".to_string()],
        }),
        ..Default::default()
    };
    assert!(detect_capabilities(&signals).contains(&Capability::SorobanContract));
}

#[test]
fn no_signals_yield_no_capabilities() {
    assert!(detect_capabilities(&DetectionSignals::default()).is_empty());
}

#[test]
fn stellar_rpc_client_dependency_yields_rpc_client_capability() {
    let signals = DetectionSignals {
        manifest: Some(CargoManifest {
            dependency_names: vec!["stellar-rpc-client".to_string()],
        }),
        ..Default::default()
    };
    assert!(detect_capabilities(&signals).contains(&Capability::RpcClient));
}

#[test]
fn soroban_rpc_dependency_yields_rpc_client_capability() {
    let signals = DetectionSignals {
        manifest: Some(CargoManifest {
            dependency_names: vec!["soroban-rpc".to_string()],
        }),
        ..Default::default()
    };
    assert!(detect_capabilities(&signals).contains(&Capability::RpcClient));
}

#[test]
fn wasm_artifact_signal_yields_wasm_artifact_capability() {
    let signals = DetectionSignals {
        has_wasm_artifact: true,
        ..Default::default()
    };
    assert_eq!(
        detect_capabilities(&signals),
        vec![Capability::WasmArtifact]
    );
}

#[test]
fn capabilities_come_in_their_documented_order() {
    let signals = DetectionSignals {
        manifest: Some(CargoManifest {
            dependency_names: vec![
                "soroban-rpc".to_string(),
                "serde".to_string(),
                "stellar-strkey".to_string(),
                "soroban-sdk".to_string(),
            ],
        }),
        has_stellar_toml: true,
        has_wasm_artifact: true,
    };
    assert_eq!(
        detect_capabilities(&signals),
        vec![
            Capability::SorobanContract,
            Capability::StellarSdkDependency,
            Capability::RpcClient,
            Capability::WasmArtifact
        ]
    );
}

#[test]
fn a_manifest_without_stellar_dependencies_yields_nothing() {
    let manifest = CargoManifest {
        dependency_names: vec!["serde".to_string(), "soroban-sdkx".to_string()],
    };
    assert!(!manifest.has_any_dependency(&["soroban-sdk"]));
    assert!(manifest.has_any_dependency(&["tokio", "serde"]));
}

#[test]
fn empty_directory_classifies_as_unknown() {
    let ctx = detect(
        std::path::PathBuf::from("detect-unknown"),
        "detect-unknown".to_string(),
        &DetectionSignals::default(),
    );
    assert_eq!(ctx.project_type, ProjectType::Unknown);
    assert!(ctx.capabilities.is_empty());
}

#[test]
fn explicit_override_always_wins_over_detection() {
    assert_eq!(
        resolve_project_type(ProjectType::Unknown, Some(ProjectType::Soroban)),
        ProjectType::Soroban
    );
    assert_eq!(
        resolve_project_type(ProjectType::Soroban, None),
        ProjectType::Soroban
    );
}

#[test]
fn soroban_contract_outranks_rpc_client() {
    assert_eq!(
        classify(&[Capability::RpcClient, Capability::SorobanContract], false),
        ProjectType::Soroban
    );
}

#[test]
fn rpc_client_outranks_stellar_sdk_dependency() {
    assert_eq!(
        classify(
            &[Capability::StellarSdkDependency, Capability::RpcClient],
            false
        ),
        ProjectType::RpcConsumer
    );
}

#[test]
fn stellar_sdk_dependency_outranks_stellar_toml() {
    assert_eq!(
        classify(&[Capability::StellarSdkDependency], true),
        ProjectType::StellarSdk
    );
}

#[test]
fn a_wasm_artifact_alone_classifies_as_generic_stellar() {
    assert_eq!(classify(&[Capability::WasmArtifact], false), ProjectType::GenericStellar);
    assert_eq!(classify(&[Capability::RawLedgerAccess], false), ProjectType::Unknown);
}

#[test]
fn wasm_file_names_are_recognized_by_extension() {
    assert!(is_wasm_file_name("contract.wasm"));
    assert!(is_wasm_file_name("a.b.wasm"));
    assert!(!is_wasm_file_name(".wasm"));
    assert!(!is_wasm_file_name("contract.wasm.bak"));
    assert!(!is_wasm_file_name("wasm"));
}

#[test]
fn the_scan_skips_known_directories_and_stops_at_its_depth() {
    assert_eq!(scan_step(".git", true, 2), ScanStep::Ignore);
    assert_eq!(scan_step("node_modules", true, 2), ScanStep::Ignore);
    assert_eq!(scan_step("target", true, 2), ScanStep::Ignore);
    assert_eq!(scan_step("a", true, 2), ScanStep::Descend(1));
    assert_eq!(scan_step("a", true, 0), ScanStep::Ignore);
    assert_eq!(scan_step("contract.wasm", false, 0), ScanStep::Found);
    assert_eq!(scan_step("README.md", false, 2), ScanStep::Ignore);
}

/// Walks a directory tree given as paths below the root (directories end
/// in `/`) the way the program's WASM search does, deciding each entry
/// with `scan_step`.
fn tree_has_wasm(entries: &[&str], dir: &str, remaining_depth: u32) -> bool {
    let children: Vec<&str> = entries
        .iter()
        .filter_map(|e| e.strip_prefix(dir))
        .filter(|rest| !rest.is_empty())
        .filter(|rest| {
            let trimmed = rest.trim_end_matches('/');
            !trimmed.contains('/')
        })
        .collect();
    for child in children {
        let is_dir = child.ends_with('/');
        let name = child.trim_end_matches('/');
        match scan_step(name, is_dir, remaining_depth) {
            ScanStep::Found => return true,
            ScanStep::Descend(depth) => {
                if tree_has_wasm(entries, &format!("{dir}{child}"), depth) {
                    return true;
                }
            }
            ScanStep::Ignore => {}
        }
    }
    false
}

fn detected(signals: DetectionSignals) -> stellar_canary::model::ProjectContext {
    detect(std::path::PathBuf::from("."), "example".to_string(), &signals)
}

#[test]
fn soroban_manifest_classifies_as_soroban() {
    let ctx = detected(DetectionSignals {
        manifest: Some(CargoManifest { dependency_names: vec!["soroban-sdk".to_string()] }),
        ..Default::default()
    });
    assert_eq!(ctx.project_type, ProjectType::Soroban);
    assert!(ctx.capabilities.contains(&Capability::SorobanContract));
}

#[test]
fn stellar_toml_alone_classifies_as_generic_stellar() {
    let ctx = detected(DetectionSignals { has_stellar_toml: true, ..Default::default() });
    assert_eq!(ctx.project_type, ProjectType::GenericStellar);
    assert_eq!(ctx.name, "example");
}

#[test]
fn wasm_artifact_in_known_build_output_dir_is_detected() {
    assert!(known_wasm_output_dirs().contains(&"target/wasm32-unknown-unknown/release"));
    assert!(is_wasm_file_name("contract.wasm"));
    let ctx = detected(DetectionSignals { has_wasm_artifact: true, ..Default::default() });
    assert!(ctx.capabilities.contains(&Capability::WasmArtifact));
}

#[test]
fn a_wasm_file_outside_known_output_dirs_is_found_by_the_fallback_scan() {
    assert!(tree_has_wasm(&["contract.wasm"], "", WASM_SCAN_DEPTH));
}

#[test]
fn wasm_files_inside_skipped_directories_are_not_detected() {
    let entries = [".git/", ".git/contract.wasm", "node_modules/", "node_modules/contract.wasm"];
    assert!(!tree_has_wasm(&entries, "", WASM_SCAN_DEPTH));
}

#[test]
fn a_wasm_file_deeper_than_the_scan_depth_limit_is_not_detected() {
    let shallow = ["a/", "a/b/", "a/b/contract.wasm"];
    assert!(tree_has_wasm(&shallow, "", WASM_SCAN_DEPTH));
    let deep = ["a/", "a/b/", "a/b/c/", "a/b/c/contract.wasm"];
    assert!(!tree_has_wasm(&deep, "", WASM_SCAN_DEPTH));
}
