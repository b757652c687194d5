//! The compatibility domain model shared by every part of the library.

use vstd::prelude::*;

use crate::text::decimal;

verus! {

/// A Stellar protocol version number (e.g. `28`).
#[derive(Debug, Clone, Copy, PartialEq, Eq, PartialOrd, Ord, Hash, Structural)]
pub struct ProtocolVersion(pub u32);

impl ProtocolVersion {
    /// The protocol number in decimal, as it is displayed.
    pub fn to_string(&self) -> (s: String)
        ensures
            s@ == decimal(self.0 as nat),
    {
        crate::text::decimal_string(self.0 as u64)
    }

    pub fn from(value: u32) -> (p: ProtocolVersion)
        ensures
            p.0 == value,
    {
        ProtocolVersion(value)
    }
}

/// A compatibility surface a project can be checked against.
#[derive(Debug, Clone, Copy, PartialEq, Eq, Hash, Structural)]
pub enum Surface {
    Xdr,
    Rpc,
    Soroban,
}

/// The lowercase name of a surface, as it is displayed and serialized.
pub open spec fn surface_name(s: Surface) -> Seq<char> {
    match s {
        Surface::Xdr => "xdr"@,
        Surface::Rpc => "rpc"@,
        Surface::Soroban => "soroban"@,
    }
}

impl Surface {
    pub fn as_str(&self) -> (s: &'static str)
        ensures
            s@ == surface_name(*self),
    {
        match self {
            Surface::Xdr => "xdr",
            Surface::Rpc => "rpc",
            Surface::Soroban => "soroban",
        }
    }
}

/// The outcome of running a single compatibility test.
///
/// `Fail` means the compatibility assertion ran and failed; `Error` means
/// the test could not be executed correctly (e.g. a network timeout). A
/// `Fail` is evidence about compatibility; an `Error` says nothing about
/// compatibility at all.
#[derive(Debug, Clone, Copy, PartialEq, Eq, Structural)]
pub enum Status {
    Pass,
    Warning,
    Fail,
    Skipped,
    Error,
}

/// The lowercase name of a status, as it is displayed and serialized.
pub open spec fn status_name(s: Status) -> Seq<char> {
    match s {
        Status::Pass => "pass"@,
        Status::Warning => "warning"@,
        Status::Fail => "fail"@,
        Status::Skipped => "skipped"@,
        Status::Error => "error"@,
    }
}

impl Status {
    pub fn as_str(&self) -> (s: &'static str)
        ensures
            s@ == status_name(*self),
    {
        match self {
            Status::Pass => "pass",
            Status::Warning => "warning",
            Status::Fail => "fail",
            Status::Skipped => "skipped",
            Status::Error => "error",
        }
    }
}

/// The normalized result of a single compatibility test, produced by every
/// surface runner and consumed by every reporter.
#[derive(Debug, Clone, PartialEq, Eq)]
pub struct CompatibilityResult {
    pub test_id: String,
    pub protocol: ProtocolVersion,
    pub surface: Surface,
    pub status: Status,
    pub summary: String,
    pub details: Option<String>,
    pub duration_ms: u64,
    pub fixture_id: Option<String>,
}

/// A result fails a run when it is a `Fail` or an `Error`.
pub open spec fn is_failure_status(s: Status) -> bool {
    s == Status::Fail || s == Status::Error
}

impl CompatibilityResult {
    /// Whether this single result should fail a run: `true` for
    /// [`Status::Fail`] and [`Status::Error`], `false` otherwise.
    pub fn is_required_failure(&self) -> (r: bool)
        ensures
            r == is_failure_status(self.status),
    {
        match self.status {
            Status::Fail | Status::Error => true,
            _ => false,
        }
    }
}

/// How a project was classified by project detection.
#[derive(Debug, Clone, Copy, PartialEq, Eq, Structural)]
pub enum ProjectType {
    Soroban,
    RpcConsumer,
    StellarSdk,
    GenericStellar,
    Unknown,
}

/// The kebab-case name of a project type, as it is displayed and
/// serialized.
pub open spec fn project_type_name(t: ProjectType) -> Seq<char> {
    match t {
        ProjectType::Soroban => "soroban"@,
        ProjectType::RpcConsumer => "rpc-consumer"@,
        ProjectType::StellarSdk => "stellar-sdk"@,
        ProjectType::GenericStellar => "generic-stellar"@,
        ProjectType::Unknown => "unknown"@,
    }
}

impl ProjectType {
    pub fn as_str(&self) -> (s: &'static str)
        ensures
            s@ == project_type_name(*self),
    {
        match self {
            ProjectType::Soroban => "soroban",
            ProjectType::RpcConsumer => "rpc-consumer",
            ProjectType::StellarSdk => "stellar-sdk",
            ProjectType::GenericStellar => "generic-stellar",
            ProjectType::Unknown => "unknown",
        }
    }
}

/// A declared or detected capability of the project under test.
#[derive(Debug, Clone, Copy, PartialEq, Eq, Hash, Structural)]
pub enum Capability {
    SorobanContract,
    RpcClient,
    StellarSdkDependency,
    WasmArtifact,
    RawLedgerAccess,
}

/// Whether `c` occurs in `v`, decided by a scan.
pub fn capabilities_contain(v: &Vec<Capability>, c: &Capability) -> (r: bool)
    ensures
        r == v@.contains(*c),
{
    let mut i: usize = 0;
    while i < v.len()
        invariant
            i <= v.len(),
            forall|j: int| 0 <= j < i ==> v@[j] != *c,
        decreases v.len() - i,
    {
        if v[i] == *c {
            assert(v@[i as int] == *c);
            return true;
        }
        i = i + 1;
    }
    false
}

#[verifier::external_type_specification]
#[verifier::external_body]
pub struct ExPathBuf(std::path::PathBuf);

/// `PathBuf::clone` copies a path; nothing is claimed of the copy here.
pub assume_specification[ <std::path::PathBuf as Clone>::clone ](p: &std::path::PathBuf) -> std::path::PathBuf;

/// Everything known about the project being checked.
#[derive(Debug, Clone, PartialEq, Eq)]
pub struct ProjectContext {
    pub root: std::path::PathBuf,
    pub name: String,
    pub project_type: ProjectType,
    pub capabilities: Vec<Capability>,
}

impl ProjectContext {
    pub fn has_capability(&self, capability: &Capability) -> (r: bool)
        ensures
            r == self.capabilities@.contains(*capability),
    {
        capabilities_contain(&self.capabilities, capability)
    }
}

/// Which Stellar network a live check targets.
#[derive(Debug, Clone, PartialEq, Eq)]
pub enum NetworkName {
    Testnet,
    Mainnet,
    Futurenet,
    Custom(String),
}

/// The name of a network as it is displayed: the lowercase well-known
/// name, or the custom name itself.
pub open spec fn network_name_text(n: NetworkName) -> Seq<char> {
    match n {
        NetworkName::Testnet => "testnet"@,
        NetworkName::Mainnet => "mainnet"@,
        NetworkName::Futurenet => "futurenet"@,
        NetworkName::Custom(name) => name@,
    }
}

impl NetworkName {
    pub fn to_string(&self) -> (s: String)
        ensures
            s@ == network_name_text(*self),
            self matches NetworkName::Custom(c) ==> s == c,
    {
        match self {
            NetworkName::Testnet => crate::text::owned("testnet"),
            NetworkName::Mainnet => crate::text::owned("mainnet"),
            NetworkName::Futurenet => crate::text::owned("futurenet"),
            NetworkName::Custom(name) => name.clone(),
        }
    }
}

/// The network a live (RPC/Soroban) check runs against.
#[derive(Debug, Clone, PartialEq, Eq)]
pub struct NetworkContext {
    pub name: NetworkName,
    pub rpc_url: String,
    pub passphrase: String,
    pub observed_protocol: Option<ProtocolVersion>,
}

/// Git repository metadata for a run; each field is `None` when it is
/// unavailable.
#[derive(Debug, Clone, Default, PartialEq, Eq)]
pub struct GitContext {
    pub commit: Option<String>,
    pub branch: Option<String>,
    pub is_dirty: Option<bool>,
}

/// User-controlled knobs for a single run.
#[derive(Debug, Clone, PartialEq, Eq)]
pub struct RunOptions {
    pub verbose: bool,
    pub quiet: bool,
    pub max_concurrency: u32,
    pub rpc_timeout: u64,
}

impl Default for RunOptions {
    fn default() -> (r: Self)
        ensures
            !r.verbose,
            !r.quiet,
            r.max_concurrency == 4,
            r.rpc_timeout == 10,
    {
        RunOptions { verbose: false, quiet: false, max_concurrency: 4, rpc_timeout: 10 }
    }
}

/// Metadata describing one fixture, independent of its surface-specific
/// payload.
#[derive(Debug, Clone, PartialEq, Eq)]
pub struct FixtureMetadata {
    pub id: String,
    pub protocol: ProtocolVersion,
    pub surface: Surface,
    pub category: String,
    pub description: String,
    pub source_reference: Option<String>,
    pub required_capabilities: Vec<Capability>,
}

/// An in-memory collection of loaded, validated fixture metadata.
#[derive(Debug, Clone, Default, PartialEq, Eq)]
pub struct FixtureStore {
    fixtures: Vec<FixtureMetadata>,
}

/// The view of a sequence of references: the values they refer to.
pub open spec fn deref_all<T>(s: Seq<&T>) -> Seq<T> {
    s.map_values(|r: &T| *r)
}

impl FixtureStore {
    /// The fixtures held, in insertion order.
    pub closed spec fn contents(&self) -> Seq<FixtureMetadata> {
        self.fixtures@
    }

    pub fn new(fixtures: Vec<FixtureMetadata>) -> (s: Self)
        ensures
            s.contents() == fixtures@,
    {
        FixtureStore { fixtures }
    }

    pub fn all(&self) -> (r: &[FixtureMetadata])
        ensures
            r@ == self.contents(),
    {
        self.fixtures.as_slice()
    }

    pub fn len(&self) -> (n: usize)
        ensures
            n == self.contents().len(),
    {
        self.fixtures.len()
    }

    pub fn is_empty(&self) -> (b: bool)
        ensures
            b == (self.contents().len() == 0),
    {
        self.fixtures.len() == 0
    }

    /// The first fixture whose id is `id`.
    pub fn by_id(&self, id: &str) -> (r: Option<&FixtureMetadata>)
        ensures
            match r {
                Some(f) => exists|k: int|
                    0 <= k < self.contents().len() && *f == self.contents()[k]
                        && self.contents()[k].id@ == id@ && forall|j: int|
                        0 <= j < k ==> self.contents()[j].id@ != id@,
                None => forall|j: int|
                    0 <= j < self.contents().len() ==> self.contents()[j].id@ != id@,
            },
    {
        let mut i: usize = 0;
        while i < self.fixtures.len()
            invariant
                i <= self.fixtures@.len(),
                forall|j: int| 0 <= j < i ==> self.fixtures@[j].id@ != id@,
            decreases self.fixtures@.len() - i,
        {
            if crate::text::str_eq(self.fixtures[i].id.as_str(), id) {
                return Some(&self.fixtures[i]);
            }
            i = i + 1;
        }
        None
    }

    /// The fixtures on `surface`, in order.
    pub fn for_surface(&self, surface: Surface) -> (r: Vec<&FixtureMetadata>)
        ensures
            deref_all(r@) == self.contents().filter(|f: FixtureMetadata| f.surface == surface),
    {
        let mut r: Vec<&FixtureMetadata> = Vec::new();
        let mut i: usize = 0;
        while i < self.fixtures.len()
            invariant
                i <= self.fixtures@.len(),
                deref_all(r@) == self.fixtures@.take(i as int).filter(
                    |f: FixtureMetadata| f.surface == surface,
                ),
            decreases self.fixtures@.len() - i,
        {
            proof {
                reveal_with_fuel(Seq::<_>::filter, 1);
                assert(self.fixtures@.take(i + 1).drop_last() =~= self.fixtures@.take(i as int));
            }
            if self.fixtures[i].surface == surface {
                r.push(&self.fixtures[i]);
                assert(deref_all(r@) =~= deref_all(r@.drop_last()).push(self.fixtures@[i as int]));
            }
            i = i + 1;
        }
        assert(self.fixtures@.take(i as int) =~= self.fixtures@);
        r
    }

    /// The fixtures for `protocol`, in order.
    pub fn for_protocol(&self, protocol: ProtocolVersion) -> (r: Vec<&FixtureMetadata>)
        ensures
            deref_all(r@) == self.contents().filter(|f: FixtureMetadata| f.protocol == protocol),
    {
        let mut r: Vec<&FixtureMetadata> = Vec::new();
        let mut i: usize = 0;
        while i < self.fixtures.len()
            invariant
                i <= self.fixtures@.len(),
                deref_all(r@) == self.fixtures@.take(i as int).filter(
                    |f: FixtureMetadata| f.protocol == protocol,
                ),
            decreases self.fixtures@.len() - i,
        {
            proof {
                reveal_with_fuel(Seq::<_>::filter, 1);
                assert(self.fixtures@.take(i + 1).drop_last() =~= self.fixtures@.take(i as int));
            }
            if self.fixtures[i].protocol == protocol {
                r.push(&self.fixtures[i]);
                assert(deref_all(r@) =~= deref_all(r@.drop_last()).push(self.fixtures@[i as int]));
            }
            i = i + 1;
        }
        assert(self.fixtures@.take(i as int) =~= self.fixtures@);
        r
    }
}

/// The set of fixtures known for a given protocol version.
#[derive(Debug, Clone, PartialEq, Eq)]
pub struct ProtocolPack {
    pub version: ProtocolVersion,
    pub fixtures: Vec<FixtureMetadata>,
}

/// The run-level decision of the policy over a run's results.
#[derive(Debug, Clone, Copy, PartialEq, Eq, Structural)]
pub enum PolicyDecision {
    Pass,
    Warning,
    Fail,
}

/// Everything a runner may consult while running a fixture.
pub struct ExecutionContext {
    pub protocol: ProtocolVersion,
    pub project: ProjectContext,
    pub network: NetworkContext,
    pub fixtures: FixtureStore,
    pub git: GitContext,
    pub cache: crate::cache::CacheStore,
    pub options: RunOptions,
}

} // verus!
