//! Which loaded fixtures a run executes: those for the target protocol on
//! an enabled surface, unless they need a capability the project does
//! not declare, in which case they are reported as skipped.

use vstd::prelude::*;

use crate::model::{capabilities_contain, Capability, FixtureMetadata, ProjectContext, ProtocolVersion, Surface};
use crate::rpc_client::{debug_quoted, debug_text};
use crate::text::{owned, str_eq};

verus! {

/// Which surfaces a run checks.
#[derive(Debug, Clone, Copy, PartialEq, Eq, Structural)]
pub struct EnabledSurfaces {
    pub xdr: bool,
    pub rpc: bool,
    pub soroban: bool,
}

/// Whether a surface is checked.
pub open spec fn surface_enabled(e: EnabledSurfaces, s: Surface) -> bool {
    match s {
        Surface::Xdr => e.xdr,
        Surface::Rpc => e.rpc,
        Surface::Soroban => e.soroban,
    }
}

/// What a run does with one loaded fixture.
#[derive(Debug, Clone, PartialEq, Eq)]
pub enum PlanStep {
    /// Not part of this run: another protocol, or a disabled surface.
    Ignore,
    /// Run it.
    Run,
    /// Report it as skipped, for this reason.
    Skip(String),
}

/// Whether some required capability is not declared.
pub open spec fn lacks_capability(required: Seq<Capability>, declared: Seq<Capability>) -> bool {
    exists|i: int| 0 <= i < required.len() && !declared.contains(#[trigger] required[i])
}

/// Whether a fixture is outside a run targeting `target`: another
/// protocol, or a disabled surface.
pub open spec fn outside_run(meta: FixtureMetadata, target: ProtocolVersion, enabled: EnabledSurfaces) -> bool {
    meta.protocol != target || !surface_enabled(enabled, meta.surface)
}

/// The step for one fixture; a skip carries the reason shown to the user.
pub fn plan_step(meta: &FixtureMetadata, target: ProtocolVersion, enabled: &EnabledSurfaces, project: &ProjectContext) -> (s: PlanStep)
    ensures
        outside_run(*meta, target, *enabled) ==> s is Ignore,
        !outside_run(*meta, target, *enabled) && lacks_capability(meta.required_capabilities@, project.capabilities@)
            ==> (s matches PlanStep::Skip(r) && r@ == "requires a capability not declared by this project"@),
        !outside_run(*meta, target, *enabled) && !lacks_capability(meta.required_capabilities@, project.capabilities@)
            ==> s is Run,
{
    let on = match meta.surface {
        Surface::Xdr => enabled.xdr,
        Surface::Rpc => enabled.rpc,
        Surface::Soroban => enabled.soroban,
    };
    if meta.protocol != target || !on {
        return PlanStep::Ignore;
    }
    let mut i: usize = 0;
    while i < meta.required_capabilities.len()
        invariant
            i <= meta.required_capabilities@.len(),
            !outside_run(*meta, target, *enabled),
            forall|j: int| 0 <= j < i ==> project.capabilities@.contains(#[trigger] meta.required_capabilities@[j]),
        decreases meta.required_capabilities@.len() - i,
    {
        if !capabilities_contain(&project.capabilities, &meta.required_capabilities[i]) {
            return PlanStep::Skip(owned("requires a capability not declared by this project"));
        }
        i = i + 1;
    }
    PlanStep::Run
}

/// The metadata keys of a fixture file, as far as they are read: each is
/// present only when it holds a value of the expected type.
#[derive(Debug, Clone)]
pub struct MetadataFields {
    pub id: Option<String>,
    pub protocol: Option<i64>,
    pub surface: Option<String>,
    pub category: Option<String>,
    pub description: Option<String>,
    pub source_reference: Option<String>,
    /// The `required_capabilities` entries, in order.
    pub required_capabilities: Vec<String>,
}

/// The capability a kebab-case name stands for.
pub open spec fn capability_named(s: Seq<char>) -> Option<Capability> {
    if s == "soroban-contract"@ {
        Some(Capability::SorobanContract)
    } else if s == "rpc-client"@ {
        Some(Capability::RpcClient)
    } else if s == "stellar-sdk-dependency"@ {
        Some(Capability::StellarSdkDependency)
    } else if s == "wasm-artifact"@ {
        Some(Capability::WasmArtifact)
    } else if s == "raw-ledger-access"@ {
        Some(Capability::RawLedgerAccess)
    } else {
        None
    }
}

/// The surface a lowercase name stands for.
pub open spec fn surface_named_in_file(s: Seq<char>) -> Option<Surface> {
    if s == "xdr"@ {
        Some(Surface::Xdr)
    } else if s == "rpc"@ {
        Some(Surface::Rpc)
    } else if s == "soroban"@ {
        Some(Surface::Soroban)
    } else {
        None
    }
}

/// Whether the metadata keys describe a fixture: every required key is
/// there, the protocol is a positive `u32`, and the surface and each
/// capability name are known.
pub open spec fn fields_valid(f: MetadataFields) -> bool {
    &&& f.id is Some
    &&& f.protocol matches Some(p) && 0 < p <= u32::MAX
    &&& f.surface matches Some(s) && surface_named_in_file(s@) is Some
    &&& f.category is Some
    &&& f.description is Some
    &&& forall|i: int| 0 <= i < f.required_capabilities@.len() ==> capability_named(
        #[trigger] f.required_capabilities@[i]@,
    ) is Some
}

fn capability_of(name: &str) -> (r: Option<Capability>)
    ensures
        r == capability_named(name@),
{
    if str_eq(name, "soroban-contract") {
        Some(Capability::SorobanContract)
    } else if str_eq(name, "rpc-client") {
        Some(Capability::RpcClient)
    } else if str_eq(name, "stellar-sdk-dependency") {
        Some(Capability::StellarSdkDependency)
    } else if str_eq(name, "wasm-artifact") {
        Some(Capability::WasmArtifact)
    } else if str_eq(name, "raw-ledger-access") {
        Some(Capability::RawLedgerAccess)
    } else {
        None
    }
}

/// The first required-capability name that names no capability, if any.
pub open spec fn first_unknown_capability(names: Seq<String>) -> Option<Seq<char>>
    decreases names.len(),
{
    if names.len() == 0 {
        None
    } else if capability_named(names[0]@) is None {
        Some(names[0]@)
    } else {
        first_unknown_capability(names.drop_first())
    }
}

/// Why the metadata keys do not describe a fixture, checked in this
/// order: `id`, `protocol`, `surface`, `category`, `description`, then the
/// capability names in order.
pub open spec fn metadata_error(f: MetadataFields) -> Option<Seq<char>> {
    if f.id is None {
        Some("missing required string field \"id\""@)
    } else if f.protocol is None {
        Some("missing required integer field \"protocol\""@)
    } else if !(0 < f.protocol->0 <= u32::MAX) {
        Some("protocol must be a positive protocol version number"@)
    } else if f.surface is None {
        Some("missing required string field \"surface\""@)
    } else if surface_named_in_file(f.surface->0@) is None {
        Some(
            "unsupported surface "@ + debug_text(f.surface->0@)
                + ": expected one of \"xdr\", \"rpc\", \"soroban\""@,
        )
    } else if f.category is None {
        Some("missing required string field \"category\""@)
    } else if f.description is None {
        Some("missing required string field \"description\""@)
    } else {
        match first_unknown_capability(f.required_capabilities@) {
            Some(name) => Some("unsupported capability "@ + debug_text(name)),
            None => None,
        }
    }
}

/// Reads a fixture's metadata from its keys; the error names the first
/// key that is missing or holds an unusable value.
pub fn read_metadata(fields: MetadataFields) -> (r: Result<FixtureMetadata, String>)
    ensures
        r is Ok <==> fields_valid(fields),
        match r {
            Ok(_) => metadata_error(fields) is None,
            Err(e) => metadata_error(fields) == Some(e@),
        },
        r matches Ok(m) ==> {
            &&& Some(m.id) == fields.id
            &&& fields.protocol == Some(m.protocol.0 as i64)
            &&& surface_named_in_file(fields.surface->0@) == Some(m.surface)
            &&& Some(m.category) == fields.category
            &&& Some(m.description) == fields.description
            &&& m.source_reference == fields.source_reference
            &&& m.required_capabilities@.len() == fields.required_capabilities@.len()
            &&& forall|i: int| 0 <= i < m.required_capabilities@.len() ==> capability_named(
                fields.required_capabilities@[i]@,
            ) == Some(#[trigger] m.required_capabilities@[i])
        },
{
    let ghost f = fields;
    let MetadataFields { id, protocol, surface, category, description, source_reference, required_capabilities } = fields;
    let ghost names = required_capabilities@;
    let id = match id {
        Some(v) => v,
        None => {
            return Err(owned("missing required string field \"id\""));
        },
    };
    let protocol = match protocol {
        Some(p) => {
            if p <= 0 || p > u32::MAX as i64 {
                return Err(owned("protocol must be a positive protocol version number"));
            }
            p as u32
        },
        None => {
            return Err(owned("missing required integer field \"protocol\""));
        },
    };
    let surface = match &surface {
        Some(s) => {
            if str_eq(s.as_str(), "xdr") {
                Surface::Xdr
            } else if str_eq(s.as_str(), "rpc") {
                Surface::Rpc
            } else if str_eq(s.as_str(), "soroban") {
                Surface::Soroban
            } else {
                proof {
                    reveal_strlit("xdr");
                    reveal_strlit("rpc");
                    reveal_strlit("soroban");
                }
                let mut m = owned("unsupported surface ");
                let q = debug_quoted(s.as_str());
                m.append(q.as_str());
                m.append(": expected one of \"xdr\", \"rpc\", \"soroban\"");
                return Err(m);
            }
        },
        None => {
            return Err(owned("missing required string field \"surface\""));
        },
    };
    let category = match category {
        Some(v) => v,
        None => {
            return Err(owned("missing required string field \"category\""));
        },
    };
    let description = match description {
        Some(v) => v,
        None => {
            return Err(owned("missing required string field \"description\""));
        },
    };
    let mut caps: Vec<Capability> = Vec::new();
    let mut i: usize = 0;
    assert(names.skip(0) =~= names);
    while i < required_capabilities.len()
        invariant
            names == required_capabilities@,
            f == fields,
            names == f.required_capabilities@,
            f.id is Some,
            f.protocol matches Some(p) && 0 < p <= u32::MAX,
            f.surface matches Some(s) && surface_named_in_file(s@) is Some,
            f.category is Some,
            f.description is Some,
            first_unknown_capability(names) == first_unknown_capability(names.skip(i as int)),
            i <= names.len(),
            caps@.len() == i,
            forall|j: int| 0 <= j < i ==> capability_named(names[j]@) == Some(#[trigger] caps@[j]),
        decreases names.len() - i,
    {
        proof {
            assert(names.skip(i as int)[0] == names[i as int]);
            assert(names.skip(i as int).drop_first() =~= names.skip(i + 1));
        }
        match capability_of(required_capabilities[i].as_str()) {
            Some(c) => caps.push(c),
            None => {
                assert(capability_named(f.required_capabilities@[i as int]@) is None);
                let mut m = owned("unsupported capability ");
                let q = debug_quoted(required_capabilities[i].as_str());
                m.append(q.as_str());
                return Err(m);
            },
        }
        i = i + 1;
    }
    assert(names.skip(i as int) =~= Seq::<String>::empty());
    assert(fields_valid(f)) by {
        assert forall|j: int| 0 <= j < f.required_capabilities@.len() implies capability_named(
            #[trigger] f.required_capabilities@[j]@,
        ) is Some by {
            assert(capability_named(names[j]@) == Some(caps@[j]));
        }
    }
    Ok(FixtureMetadata {
        id,
        protocol: ProtocolVersion(protocol),
        surface,
        category,
        description,
        source_reference,
        required_capabilities: caps,
    })
}

} // verus!
