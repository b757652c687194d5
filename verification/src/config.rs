//! Typed representation of `.stellar-canary.toml`.

use vstd::prelude::*;

use crate::model::ProjectType;
use crate::errors::CanaryError;
use crate::text::{decimal, owned, push_decimal, str_eq};

verus! {

/// The only configuration schema version this build understands.
pub const SUPPORTED_CONFIG_VERSION: u32 = 1;

/// The default target protocol used when a project does not pin one.
pub const DEFAULT_PROTOCOL: u32 = 28;

/// The parsed, typed contents of `.stellar-canary.toml`.
#[derive(Debug, Clone, PartialEq)]
pub struct ConfigFile {
    pub version: u32,
    pub protocol: u32,
    pub project: ProjectSection,
    pub tests: TestsSection,
    pub policy: PolicySection,
}

impl Default for ConfigFile {
    fn default() -> (c: Self)
        ensures
            c.version == SUPPORTED_CONFIG_VERSION,
            c.protocol == DEFAULT_PROTOCOL,
            c.project.project_type == ProjectTypeSetting::Auto,
            c.tests.xdr && c.tests.rpc && c.tests.soroban,
            !c.policy.warnings_are_failures,
    {
        ConfigFile {
            version: SUPPORTED_CONFIG_VERSION,
            protocol: DEFAULT_PROTOCOL,
            project: ProjectSection::default(),
            tests: TestsSection::default(),
            policy: PolicySection::default(),
        }
    }
}

/// `[project]`: how to classify the project under test.
#[derive(Debug, Clone, PartialEq)]
pub struct ProjectSection {
    pub project_type: ProjectTypeSetting,
}

impl Default for ProjectSection {
    fn default() -> (s: Self)
        ensures
            s.project_type == ProjectTypeSetting::Auto,
    {
        ProjectSection { project_type: ProjectTypeSetting::default() }
    }
}

/// Either `"auto"` (run detection) or an explicit, user-declared project
/// type that overrides detection.
#[derive(Debug, Clone, Copy, PartialEq, Eq, Structural)]
pub enum ProjectTypeSetting {
    Auto,
    Explicit(ProjectType),
}

impl Default for ProjectTypeSetting {
    fn default() -> (s: Self)
        ensures
            s == ProjectTypeSetting::Auto,
    {
        ProjectTypeSetting::Auto
    }
}

/// The string a setting is written as in the configuration file.
pub open spec fn setting_text(s: ProjectTypeSetting) -> Seq<char> {
    match s {
        ProjectTypeSetting::Auto => "auto"@,
        ProjectTypeSetting::Explicit(ProjectType::Soroban) => "soroban"@,
        ProjectTypeSetting::Explicit(ProjectType::RpcConsumer) => "rpc-consumer"@,
        ProjectTypeSetting::Explicit(ProjectType::StellarSdk) => "stellar-sdk"@,
        ProjectTypeSetting::Explicit(ProjectType::GenericStellar) => "generic-stellar"@,
        ProjectTypeSetting::Explicit(ProjectType::Unknown) => "unknown"@,
    }
}

/// The setting a configuration string denotes, if any.
pub open spec fn parse_setting(v: Seq<char>) -> Option<ProjectTypeSetting> {
    if v == "auto"@ {
        Some(ProjectTypeSetting::Auto)
    } else if v == "soroban"@ {
        Some(ProjectTypeSetting::Explicit(ProjectType::Soroban))
    } else if v == "rpc-consumer"@ {
        Some(ProjectTypeSetting::Explicit(ProjectType::RpcConsumer))
    } else if v == "stellar-sdk"@ {
        Some(ProjectTypeSetting::Explicit(ProjectType::StellarSdk))
    } else if v == "generic-stellar"@ {
        Some(ProjectTypeSetting::Explicit(ProjectType::GenericStellar))
    } else if v == "unknown"@ {
        Some(ProjectTypeSetting::Explicit(ProjectType::Unknown))
    } else {
        None
    }
}

impl ProjectTypeSetting {
    pub fn as_str(&self) -> (s: &'static str)
        ensures
            s@ == setting_text(*self),
    {
        match self {
            ProjectTypeSetting::Auto => "auto",
            ProjectTypeSetting::Explicit(ProjectType::Soroban) => "soroban",
            ProjectTypeSetting::Explicit(ProjectType::RpcConsumer) => "rpc-consumer",
            ProjectTypeSetting::Explicit(ProjectType::StellarSdk) => "stellar-sdk",
            ProjectTypeSetting::Explicit(ProjectType::GenericStellar) => "generic-stellar",
            ProjectTypeSetting::Explicit(ProjectType::Unknown) => "unknown",
        }
    }

    pub fn from_str(value: &str) -> (r: Option<Self>)
        ensures
            r == parse_setting(value@),
    {

        if str_eq(value, "auto") {
            Some(ProjectTypeSetting::Auto)
        } else if str_eq(value, "soroban") {
            Some(ProjectTypeSetting::Explicit(ProjectType::Soroban))
        } else if str_eq(value, "rpc-consumer") {
            Some(ProjectTypeSetting::Explicit(ProjectType::RpcConsumer))
        } else if str_eq(value, "stellar-sdk") {
            Some(ProjectTypeSetting::Explicit(ProjectType::StellarSdk))
        } else if str_eq(value, "generic-stellar") {
            Some(ProjectTypeSetting::Explicit(ProjectType::GenericStellar))
        } else if str_eq(value, "unknown") {
            Some(ProjectTypeSetting::Explicit(ProjectType::Unknown))
        } else {
            None
        }
    }

    /// The project type this setting forces, or `None` for `"auto"`.
    pub fn explicit_type(&self) -> (r: Option<ProjectType>)
        ensures
            r == match *self {
                ProjectTypeSetting::Auto => None,
                ProjectTypeSetting::Explicit(t) => Some(t),
            },
    {
        match self {
            ProjectTypeSetting::Auto => None,
            ProjectTypeSetting::Explicit(t) => Some(*t),
        }
    }
}

/// A project type setting is written as a string that reads back as the
/// same setting, and a string that reads as a setting is exactly the
/// string that setting is written as.
pub proof fn lemma_setting_text_round_trip(s: ProjectTypeSetting, v: Seq<char>)
    ensures
        parse_setting(setting_text(s)) == Some(s),
        parse_setting(v) == Some(s) ==> v == setting_text(s),
{
    reveal_strlit("auto");
    reveal_strlit("soroban");
    reveal_strlit("rpc-consumer");
    reveal_strlit("stellar-sdk");
    reveal_strlit("generic-stellar");
    reveal_strlit("unknown");
    assert("auto"@.len() == 4);
    assert("soroban"@.len() == 7);
    assert("rpc-consumer"@.len() == 12);
    assert("stellar-sdk"@.len() == 11);
    assert("generic-stellar"@.len() == 15);
    assert("unknown"@.len() == 7);
    assert("soroban"@[0] != "unknown"@[0]);
    assert("soroban"@ != "unknown"@);
}

/// `[tests]`: which surfaces are enabled for this project.
#[derive(Debug, Clone, Copy, PartialEq, Eq, Structural)]
pub struct TestsSection {
    pub xdr: bool,
    pub rpc: bool,
    pub soroban: bool,
}

/// The value an omitted surface switch takes.
pub fn default_true() -> (b: bool)
    ensures
        b,
{
    true
}

impl Default for TestsSection {
    fn default() -> (t: Self)
        ensures
            t.xdr && t.rpc && t.soroban,
    {
        TestsSection { xdr: true, rpc: true, soroban: true }
    }
}

impl TestsSection {
    /// Whether any surface that needs a live RPC endpoint is enabled.
    pub fn live_checks_needed(&self) -> (b: bool)
        ensures
            b == (self.rpc || self.soroban),
    {
        self.rpc || self.soroban
    }
}

/// `[policy]`: how results are turned into a pass/warn/fail decision.
#[derive(Debug, Clone, Copy, PartialEq, Eq, Structural)]
pub struct PolicySection {
    pub warnings_are_failures: bool,
}

impl Default for PolicySection {
    fn default() -> (p: Self)
        ensures
            !p.warnings_are_failures,
    {
        PolicySection { warnings_are_failures: false }
    }
}

/// Why a parsed configuration cannot be used, if it cannot: a schema
/// version this build does not understand, or a protocol of zero.
pub open spec fn config_problem(c: ConfigFile) -> Option<Seq<char>> {
    if c.version != SUPPORTED_CONFIG_VERSION {
        Some(
            "unsupported configuration version "@ + decimal(c.version as nat) + " (expected "@ + decimal(
                SUPPORTED_CONFIG_VERSION as nat,
            ) + ")"@,
        )
    } else if c.protocol == 0 {
        Some("protocol must be a positive protocol version number"@)
    } else {
        None
    }
}

/// Checks a parsed configuration before it is used.
pub fn validate_config(config: &ConfigFile) -> (r: Result<(), CanaryError>)
    ensures
        match config_problem(*config) {
            None => r is Ok,
            Some(m) => r matches Err(CanaryError::Configuration(e)) && e@ == m,
        },
{
    if config.version != SUPPORTED_CONFIG_VERSION {
        let mut m = owned("unsupported configuration version ");
        push_decimal(&mut m, config.version as u64);
        m.append(" (expected ");
        push_decimal(&mut m, SUPPORTED_CONFIG_VERSION as u64);
        m.append(")");
        return Err(CanaryError::Configuration(m));
    }
    if config.protocol == 0 {
        return Err(CanaryError::Configuration(owned("protocol must be a positive protocol version number")));
    }
    Ok(())
}

} // verus!
