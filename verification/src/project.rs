//! Project detection: turning raw filesystem signals into capabilities
//! and a project type, and the rules of the search for a WASM artifact.

use vstd::prelude::*;

use crate::model::{Capability, ProjectContext, ProjectType};
use crate::text::str_eq;

verus! {

/// The dependency names of a project's `Cargo.toml`.
#[derive(Debug, Clone, Default, PartialEq, Eq)]
pub struct CargoManifest {
    pub dependency_names: Vec<String>,
}

/// The views of a sequence of string slices.
pub open spec fn str_views(s: Seq<&str>) -> Seq<Seq<char>> {
    s.map_values(|x: &str| x@)
}

/// The views of a sequence of strings.
pub open spec fn string_views(s: Seq<String>) -> Seq<Seq<char>> {
    s.map_values(|x: String| x@)
}

/// Whether some name in `names` is one of `deps`.
pub open spec fn any_listed(deps: Seq<Seq<char>>, names: Seq<Seq<char>>) -> bool {
    exists|i: int, j: int| 0 <= i < names.len() && 0 <= j < deps.len() && #[trigger] names[i] == #[trigger] deps[j]
}

impl CargoManifest {
    /// Whether the manifest depends on any crate in `names`.
    pub fn has_any_dependency(&self, names: &[&str]) -> (b: bool)
        ensures
            b == any_listed(string_views(self.dependency_names@), str_views(names@)),
    {
        let mut i: usize = 0;
        while i < names.len()
            invariant
                i <= names@.len(),
                forall|a: int, j: int|
                    0 <= a < i && 0 <= j < self.dependency_names@.len() ==> #[trigger] names@[a]@
                        != #[trigger] self.dependency_names@[j]@,
            decreases names@.len() - i,
        {
            let mut j: usize = 0;
            while j < self.dependency_names.len()
                invariant
                    i < names@.len(),
                    j <= self.dependency_names@.len(),
                    forall|a: int, k: int|
                        0 <= a < i && 0 <= k < self.dependency_names@.len() ==> #[trigger] names@[a]@
                            != #[trigger] self.dependency_names@[k]@,
                    forall|k: int| 0 <= k < j ==> names@[i as int]@ != #[trigger] self.dependency_names@[k]@,
                decreases self.dependency_names@.len() - j,
            {
                if str_eq(self.dependency_names[j].as_str(), names[i]) {
                    assert(str_views(names@)[i as int] == string_views(self.dependency_names@)[j as int]);
                    return true;
                }
                j = j + 1;
            }
            i = i + 1;
        }
        proof {
            if any_listed(string_views(self.dependency_names@), str_views(names@)) {
                let (a, k) = choose|a: int, k: int|
                    0 <= a < str_views(names@).len() && 0 <= k < string_views(self.dependency_names@).len()
                        && #[trigger] str_views(names@)[a] == #[trigger] string_views(self.dependency_names@)[k];
                assert(names@[a]@ == self.dependency_names@[k]@);
            }
        }
        false
    }
}

/// Dependency names that indicate a Soroban contract project.
pub open spec fn soroban_dependency_names() -> Seq<Seq<char>> {
    seq!["soroban-sdk"@]
}

/// Dependency names that indicate direct use of the official Stellar
/// SDK/XDR crates.
pub open spec fn stellar_sdk_dependency_names() -> Seq<Seq<char>> {
    seq!["stellar-sdk"@, "stellar-xdr"@, "stellar-base"@, "stellar-strkey"@]
}

/// Dependency names that indicate the project talks to Stellar RPC.
pub open spec fn rpc_client_dependency_names() -> Seq<Seq<char>> {
    seq!["stellar-rpc-client"@, "soroban-rpc"@]
}

pub fn soroban_dependencies() -> (v: Vec<&'static str>)
    ensures
        str_views(v@) == soroban_dependency_names(),
{
    let v = vec!["soroban-sdk"];
    assert(str_views(v@) =~= soroban_dependency_names());
    v
}

pub fn stellar_sdk_dependencies() -> (v: Vec<&'static str>)
    ensures
        str_views(v@) == stellar_sdk_dependency_names(),
{
    let v = vec!["stellar-sdk", "stellar-xdr", "stellar-base", "stellar-strkey"];
    assert(str_views(v@) =~= stellar_sdk_dependency_names());
    v
}

pub fn rpc_client_dependencies() -> (v: Vec<&'static str>)
    ensures
        str_views(v@) == rpc_client_dependency_names(),
{
    let v = vec!["stellar-rpc-client", "soroban-rpc"];
    assert(str_views(v@) =~= rpc_client_dependency_names());
    v
}

/// The raw, filesystem-level signals gathered for a project root.
#[derive(Debug, Default, Clone)]
pub struct DetectionSignals {
    pub manifest: Option<CargoManifest>,
    pub has_stellar_toml: bool,
    pub has_wasm_artifact: bool,
}

/// The capabilities the signals declare, in this order: Soroban contract,
/// Stellar SDK dependency and RPC client (each from the manifest's
/// dependencies), then WASM artifact.
pub open spec fn capabilities_of(signals: DetectionSignals) -> Seq<Capability> {
    let from_manifest: Seq<Capability> = match signals.manifest {
        Some(m) => {
            let deps = string_views(m.dependency_names@);
            (if any_listed(deps, soroban_dependency_names()) {
                seq![Capability::SorobanContract]
            } else {
                Seq::empty()
            }) + (if any_listed(deps, stellar_sdk_dependency_names()) {
                seq![Capability::StellarSdkDependency]
            } else {
                Seq::empty()
            }) + (if any_listed(deps, rpc_client_dependency_names()) {
                seq![Capability::RpcClient]
            } else {
                Seq::empty()
            })
        },
        None => Seq::empty(),
    };
    from_manifest + if signals.has_wasm_artifact {
        seq![Capability::WasmArtifact]
    } else {
        Seq::empty()
    }
}

/// Derives the declared capabilities from raw signals.
pub fn detect_capabilities(signals: &DetectionSignals) -> (caps: Vec<Capability>)
    ensures
        caps@ == capabilities_of(*signals),
{
    let mut capabilities: Vec<Capability> = Vec::new();
    if let Some(manifest) = &signals.manifest {
        if manifest.has_any_dependency(soroban_dependencies().as_slice()) {
            capabilities.push(Capability::SorobanContract);
        }
        if manifest.has_any_dependency(stellar_sdk_dependencies().as_slice()) {
            capabilities.push(Capability::StellarSdkDependency);
        }
        if manifest.has_any_dependency(rpc_client_dependencies().as_slice()) {
            capabilities.push(Capability::RpcClient);
        }
    }
    if signals.has_wasm_artifact {
        capabilities.push(Capability::WasmArtifact);
    }
    assert(capabilities@ =~= capabilities_of(*signals));
    capabilities
}

/// The project type the capabilities imply, by priority: Soroban
/// contract, then RPC client, then Stellar SDK dependency, then a
/// `stellar.toml` or WASM artifact, else unknown.
pub open spec fn classification(caps: Seq<Capability>, has_stellar_toml: bool) -> ProjectType {
    if caps.contains(Capability::SorobanContract) {
        ProjectType::Soroban
    } else if caps.contains(Capability::RpcClient) {
        ProjectType::RpcConsumer
    } else if caps.contains(Capability::StellarSdkDependency) {
        ProjectType::StellarSdk
    } else if has_stellar_toml || caps.contains(Capability::WasmArtifact) {
        ProjectType::GenericStellar
    } else {
        ProjectType::Unknown
    }
}

fn slice_contains(caps: &[Capability], c: Capability) -> (r: bool)
    ensures
        r == caps@.contains(c),
{
    let mut i: usize = 0;
    while i < caps.len()
        invariant
            i <= caps@.len(),
            forall|j: int| 0 <= j < i ==> caps@[j] != c,
        decreases caps@.len() - i,
    {
        if caps[i] == c {
            assert(caps@[i as int] == c);
            return true;
        }
        i = i + 1;
    }
    false
}

/// Classifies a project from its capabilities.
pub fn classify(capabilities: &[Capability], has_stellar_toml: bool) -> (t: ProjectType)
    ensures
        t == classification(capabilities@, has_stellar_toml),
{
    if slice_contains(capabilities, Capability::SorobanContract) {
        ProjectType::Soroban
    } else if slice_contains(capabilities, Capability::RpcClient) {
        ProjectType::RpcConsumer
    } else if slice_contains(capabilities, Capability::StellarSdkDependency) {
        ProjectType::StellarSdk
    } else if has_stellar_toml || slice_contains(capabilities, Capability::WasmArtifact) {
        ProjectType::GenericStellar
    } else {
        ProjectType::Unknown
    }
}

/// Applies an explicit `[project].type` override on top of detection.
/// Explicit configuration always wins.
pub fn resolve_project_type(detected: ProjectType, explicit: Option<ProjectType>) -> (t: ProjectType)
    ensures
        t == match explicit {
            Some(e) => e,
            None => detected,
        },
{
    match explicit {
        Some(e) => e,
        None => detected,
    }
}

/// The project context for a root whose signals have been gathered.
/// `Unknown` is a valid, non-error outcome: the project has no
/// recognizable Stellar surface and needs explicit configuration.
pub fn detect(root: std::path::PathBuf, name: String, signals: &DetectionSignals) -> (ctx: ProjectContext)
    ensures
        ctx.root == root,
        ctx.name == name,
        ctx.capabilities@ == capabilities_of(*signals),
        ctx.project_type == classification(capabilities_of(*signals), signals.has_stellar_toml),
{
    let capabilities = detect_capabilities(signals);
    let project_type = classify(capabilities.as_slice(), signals.has_stellar_toml);
    ProjectContext { root, name, project_type, capabilities }
}

/// How deep below the project root the fallback WASM search descends.
pub const WASM_SCAN_DEPTH: u32 = 2;

/// Common Soroban build output locations, checked before the fallback
/// search.
pub open spec fn known_wasm_output_dir_names() -> Seq<Seq<char>> {
    seq![
        "target/wasm32-unknown-unknown/release"@,
        "target/wasm32-unknown-unknown/debug"@,
        "target/wasm32v1-none/release"@,
        "target/wasm32v1-none/debug"@,
    ]
}

pub fn known_wasm_output_dirs() -> (v: Vec<&'static str>)
    ensures
        str_views(v@) == known_wasm_output_dir_names(),
{
    let v = vec![
        "target/wasm32-unknown-unknown/release",
        "target/wasm32-unknown-unknown/debug",
        "target/wasm32v1-none/release",
        "target/wasm32v1-none/debug",
    ];
    assert(str_views(v@) =~= known_wasm_output_dir_names());
    v
}

/// Whether a file name has the extension `wasm`: the text after its last
/// `.` is `wasm` and that `.` is not the name's first character.
pub open spec fn has_wasm_extension(name: Seq<char>) -> bool {
    name.len() > 5 && name.subrange(name.len() - 5, name.len() as int) == ".wasm"@
}

pub fn is_wasm_file_name(name: &str) -> (b: bool)
    ensures
        b == has_wasm_extension(name@),
{
    let chars = crate::text::chars_of(name);
    let n = chars.len();
    if n <= 5 {
        return false;
    }
    let r = chars[n - 5] == '.' && chars[n - 4] == 'w' && chars[n - 3] == 'a' && chars[n - 2] == 's'
        && chars[n - 1] == 'm';
    proof {
        reveal_strlit(".wasm");
        let tail = name@.subrange(n - 5, n as int);
        if r {
            assert(tail =~= ".wasm"@);
        }
        if tail == ".wasm"@ {
            assert(tail[0] == '.' && tail[1] == 'w' && tail[2] == 'a' && tail[3] == 's' && tail[4] == 'm');
        }
    }
    r
}

/// Directory names the search never descends into.
pub open spec fn is_skipped_dir_name(name: Seq<char>) -> bool {
    name == ".git"@ || name == "node_modules"@ || name == "target"@
}

/// What the WASM search does with one directory entry.
#[derive(Debug, Clone, Copy, PartialEq, Eq, Structural)]
pub enum ScanStep {
    /// A `.wasm` file: the search succeeds.
    Found,
    /// Search the subdirectory with this remaining depth.
    Descend(u32),
    /// Pass over the entry.
    Ignore,
}

/// The step for one entry, met with `remaining_depth` levels left below
/// the directory being listed.
pub open spec fn scan_step_for(name: Seq<char>, is_dir: bool, remaining_depth: u32) -> ScanStep {
    if is_dir {
        if is_skipped_dir_name(name) || remaining_depth == 0 {
            ScanStep::Ignore
        } else {
            ScanStep::Descend((remaining_depth - 1) as u32)
        }
    } else if has_wasm_extension(name) {
        ScanStep::Found
    } else {
        ScanStep::Ignore
    }
}

pub fn scan_step(name: &str, is_dir: bool, remaining_depth: u32) -> (s: ScanStep)
    ensures
        s == scan_step_for(name@, is_dir, remaining_depth),
{
    if is_dir {
        if str_eq(name, ".git") || str_eq(name, "node_modules") || str_eq(name, "target")
            || remaining_depth == 0 {
            ScanStep::Ignore
        } else {
            ScanStep::Descend(remaining_depth - 1)
        }
    } else if is_wasm_file_name(name) {
        ScanStep::Found
    } else {
        ScanStep::Ignore
    }
}

} // verus!
