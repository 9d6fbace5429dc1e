//! Closed enums, text wrappers and the error type for `deny.toml` values.

use vstd::prelude::*;
use crate::text::{owned, str_eq, is_empty_str, join2, join3};

verus! {

/// Why a `deny.toml` value was rejected.
#[derive(Debug, Clone, PartialEq, Eq)]
pub enum DenyTomlValueError {
    Empty { field: &'static str },
    Invalid { field: &'static str, value: String, reason: &'static str },
    UnknownEnum { field: &'static str, value: String },
    OverlappingFeatures { package: String, feature: String },
}

/// The human-readable text of an error.
pub open spec fn spec_error_message(e: DenyTomlValueError) -> Seq<char> {
    match e {
        DenyTomlValueError::Empty { field } => field@ + " must not be empty"@,
        DenyTomlValueError::Invalid { field, value, reason } =>
            "invalid "@ + field@ + " value "@ + value@ + ": "@ + reason@,
        DenyTomlValueError::UnknownEnum { field, value } =>
            "unknown "@ + field@ + " value "@ + value@,
        DenyTomlValueError::OverlappingFeatures { package, feature } =>
            package@ + " allows and denies feature "@ + feature@,
    }
}

impl DenyTomlValueError {
    /// The human-readable text of this error.
    pub fn message(&self) -> (r: String)
        ensures
            r@ == spec_error_message(*self),
    {
        match self {
            DenyTomlValueError::Empty { field } => join2(field, " must not be empty"),
            DenyTomlValueError::Invalid { field, value, reason } => {
                let mut out = join3("invalid ", field, " value ");
                out.append(value.as_str());
                out.append(": ");
                out.append(reason);
                out
            },
            DenyTomlValueError::UnknownEnum { field, value } => {
                let mut out = join3("unknown ", field, " value ");
                out.append(value.as_str());
                out
            },
            DenyTomlValueError::OverlappingFeatures { package, feature } => {
                let mut out = join2(package.as_str(), " allows and denies feature ");
                out.append(feature.as_str());
                out
            },
        }
    }
}

/// The error a closed-enum parser gives for a text that names no variant.
pub open spec fn spec_enum_error(field: Seq<char>, value: Seq<char>, e: DenyTomlValueError) -> bool {
    if value.len() == 0 {
        e matches DenyTomlValueError::Empty { field: f } && f@ == field
    } else {
        e matches DenyTomlValueError::UnknownEnum { field: f, value: v } && f@ == field && v@ == value
    }
}

fn enum_error(field: &'static str, value: &str) -> (e: DenyTomlValueError)
    ensures
        spec_enum_error(field@, value@, e),
{
    if is_empty_str(value) {
        DenyTomlValueError::Empty { field }
    } else {
        DenyTomlValueError::UnknownEnum { field, value: owned(value) }
    }
}

/// A cargo-deny lint level.
#[derive(Debug, Clone, Copy, PartialEq, Eq, Structural, PartialOrd, Ord, Hash)]
pub enum DenyLintLevel {
    Allow,
    Warn,
    Deny,
}

impl DenyLintLevel {
    pub open spec fn spec_text(self) -> Seq<char> {
        match self {
            DenyLintLevel::Allow => "allow"@,
            DenyLintLevel::Warn => "warn"@,
            DenyLintLevel::Deny => "deny"@,
        }
    }

    pub open spec fn spec_parse(value: Seq<char>) -> Option<DenyLintLevel> {
        if value == "allow"@ {
            Some(DenyLintLevel::Allow)
        } else if value == "warn"@ {
            Some(DenyLintLevel::Warn)
        } else if value == "deny"@ {
            Some(DenyLintLevel::Deny)
        } else {
            None
        }
    }

    /// Reads a lint level from its cargo-deny text.
    pub fn parse(value: &str) -> (r: Result<DenyLintLevel, DenyTomlValueError>)
        ensures
            match Self::spec_parse(value@) {
                Some(level) => r == Ok::<DenyLintLevel, DenyTomlValueError>(level),
                None => r is Err && spec_enum_error("lint-level"@, value@, r->Err_0),
            },
    {
        if str_eq(value, "allow") {
            Ok(DenyLintLevel::Allow)
        } else if str_eq(value, "warn") {
            Ok(DenyLintLevel::Warn)
        } else if str_eq(value, "deny") {
            Ok(DenyLintLevel::Deny)
        } else {
            Err(enum_error("lint-level", value))
        }
    }

    /// The cargo-deny text of this lint level.
    pub fn as_str(&self) -> (r: &'static str)
        ensures
            r@ == self.spec_text(),
    {
        match self {
            DenyLintLevel::Allow => "allow",
            DenyLintLevel::Warn => "warn",
            DenyLintLevel::Deny => "deny",
        }
    }
}

/// Which crates an advisory check covers.
#[derive(Debug, Clone, Copy, PartialEq, Eq, Structural, PartialOrd, Ord, Hash)]
pub enum DenyAdvisoryScope {
    All,
    Workspace,
    Transitive,
    NoCrates,
}

impl DenyAdvisoryScope {
    pub open spec fn spec_text(self) -> Seq<char> {
        match self {
            DenyAdvisoryScope::All => "all"@,
            DenyAdvisoryScope::Workspace => "workspace"@,
            DenyAdvisoryScope::Transitive => "transitive"@,
            DenyAdvisoryScope::NoCrates => "none"@,
        }
    }

    pub open spec fn spec_parse(value: Seq<char>) -> Option<DenyAdvisoryScope> {
        if value == "all"@ {
            Some(DenyAdvisoryScope::All)
        } else if value == "workspace"@ {
            Some(DenyAdvisoryScope::Workspace)
        } else if value == "transitive"@ {
            Some(DenyAdvisoryScope::Transitive)
        } else if value == "none"@ {
            Some(DenyAdvisoryScope::NoCrates)
        } else {
            None
        }
    }

    /// Reads an advisory scope from its cargo-deny text.
    pub fn parse(value: &str) -> (r: Result<DenyAdvisoryScope, DenyTomlValueError>)
        ensures
            match Self::spec_parse(value@) {
                Some(scope) => r == Ok::<DenyAdvisoryScope, DenyTomlValueError>(scope),
                None => r is Err && spec_enum_error("advisory-scope"@, value@, r->Err_0),
            },
    {
        if str_eq(value, "all") {
            Ok(DenyAdvisoryScope::All)
        } else if str_eq(value, "workspace") {
            Ok(DenyAdvisoryScope::Workspace)
        } else if str_eq(value, "transitive") {
            Ok(DenyAdvisoryScope::Transitive)
        } else if str_eq(value, "none") {
            Ok(DenyAdvisoryScope::NoCrates)
        } else {
            Err(enum_error("advisory-scope", value))
        }
    }

    /// The cargo-deny text of this scope.
    pub fn as_str(&self) -> (r: &'static str)
        ensures
            r@ == self.spec_text(),
    {
        match self {
            DenyAdvisoryScope::All => "all",
            DenyAdvisoryScope::Workspace => "workspace",
            DenyAdvisoryScope::Transitive => "transitive",
            DenyAdvisoryScope::NoCrates => "none",
        }
    }
}

/// How cargo-deny highlights duplicate crates in its graph output.
#[derive(Debug, Clone, Copy, PartialEq, Eq, Structural, PartialOrd, Ord, Hash)]
pub enum DenyGraphHighlight {
    All,
    SimplestPath,
    LowestVersion,
}

impl DenyGraphHighlight {
    pub open spec fn spec_text(self) -> Seq<char> {
        match self {
            DenyGraphHighlight::All => "all"@,
            DenyGraphHighlight::SimplestPath => "simplest-path"@,
            DenyGraphHighlight::LowestVersion => "lowest-version"@,
        }
    }

    pub open spec fn spec_parse(value: Seq<char>) -> Option<DenyGraphHighlight> {
        if value == "all"@ {
            Some(DenyGraphHighlight::All)
        } else if value == "simplest-path"@ {
            Some(DenyGraphHighlight::SimplestPath)
        } else if value == "lowest-version"@ {
            Some(DenyGraphHighlight::LowestVersion)
        } else {
            None
        }
    }

    /// Reads a highlight mode from its cargo-deny text.
    pub fn parse(value: &str) -> (r: Result<DenyGraphHighlight, DenyTomlValueError>)
        ensures
            match Self::spec_parse(value@) {
                Some(h) => r == Ok::<DenyGraphHighlight, DenyTomlValueError>(h),
                None => r is Err && spec_enum_error("graph-highlight"@, value@, r->Err_0),
            },
    {
        if str_eq(value, "all") {
            Ok(DenyGraphHighlight::All)
        } else if str_eq(value, "simplest-path") {
            Ok(DenyGraphHighlight::SimplestPath)
        } else if str_eq(value, "lowest-version") {
            Ok(DenyGraphHighlight::LowestVersion)
        } else {
            Err(enum_error("graph-highlight", value))
        }
    }

    /// The cargo-deny text of this highlight mode.
    pub fn as_str(&self) -> (r: &'static str)
        ensures
            r@ == self.spec_text(),
    {
        match self {
            DenyGraphHighlight::All => "all",
            DenyGraphHighlight::SimplestPath => "simplest-path",
            DenyGraphHighlight::LowestVersion => "lowest-version",
        }
    }
}

/// Which git reference kinds cargo-deny requires.
#[derive(Debug, Clone, Copy, PartialEq, Eq, Structural, PartialOrd, Ord, Hash)]
pub enum DenyGitSpec {
    Any,
    Branch,
    Tag,
    Rev,
}

impl DenyGitSpec {
    pub open spec fn spec_text(self) -> Seq<char> {
        match self {
            DenyGitSpec::Any => "any"@,
            DenyGitSpec::Branch => "branch"@,
            DenyGitSpec::Tag => "tag"@,
            DenyGitSpec::Rev => "rev"@,
        }
    }

    pub open spec fn spec_parse(value: Seq<char>) -> Option<DenyGitSpec> {
        if value == "any"@ {
            Some(DenyGitSpec::Any)
        } else if value == "branch"@ {
            Some(DenyGitSpec::Branch)
        } else if value == "tag"@ {
            Some(DenyGitSpec::Tag)
        } else if value == "rev"@ {
            Some(DenyGitSpec::Rev)
        } else {
            None
        }
    }

    /// Reads a git spec from its cargo-deny text.
    pub fn parse(value: &str) -> (r: Result<DenyGitSpec, DenyTomlValueError>)
        ensures
            match Self::spec_parse(value@) {
                Some(g) => r == Ok::<DenyGitSpec, DenyTomlValueError>(g),
                None => r is Err && spec_enum_error("git-spec"@, value@, r->Err_0),
            },
    {
        if str_eq(value, "any") {
            Ok(DenyGitSpec::Any)
        } else if str_eq(value, "branch") {
            Ok(DenyGitSpec::Branch)
        } else if str_eq(value, "tag") {
            Ok(DenyGitSpec::Tag)
        } else if str_eq(value, "rev") {
            Ok(DenyGitSpec::Rev)
        } else {
            Err(enum_error("git-spec", value))
        }
    }

    /// The cargo-deny text of this git spec.
    pub fn as_str(&self) -> (r: &'static str)
        ensures
            r@ == self.spec_text(),
    {
        match self {
            DenyGitSpec::Any => "any",
            DenyGitSpec::Branch => "branch",
            DenyGitSpec::Tag => "tag",
            DenyGitSpec::Rev => "rev",
        }
    }
}

} // verus!
