//! The tables of `deny.toml` whose direct keys can be managed.

use vstd::prelude::*;

verus! {

/// A table of `deny.toml`.
#[derive(Debug, Clone, Copy, PartialEq, Eq, Structural, PartialOrd, Ord, Hash)]
pub enum DenyTable {
    Root,
    Graph,
    Output,
    Advisories,
    Licenses,
    LicensesPrivate,
    Bans,
    BansWorkspaceDependencies,
    BansBuild,
    Sources,
    SourcesAllowOrg,
}

/// The texts of a list of segments.
pub open spec fn segment_views(s: Seq<&str>) -> Seq<Seq<char>> {
    s.map_values(|x: &str| x@)
}

impl DenyTable {
    /// The path of table names that leads to this table.
    pub open spec fn spec_path(self) -> Seq<Seq<char>> {
        match self {
            DenyTable::Root => seq![],
            DenyTable::Graph => seq!["graph"@],
            DenyTable::Output => seq!["output"@],
            DenyTable::Advisories => seq!["advisories"@],
            DenyTable::Licenses => seq!["licenses"@],
            DenyTable::LicensesPrivate => seq!["licenses"@, "private"@],
            DenyTable::Bans => seq!["bans"@],
            DenyTable::BansWorkspaceDependencies => seq!["bans"@, "workspace-dependencies"@],
            DenyTable::BansBuild => seq!["bans"@, "build"@],
            DenyTable::Sources => seq!["sources"@],
            DenyTable::SourcesAllowOrg => seq!["sources"@, "allow-org"@],
        }
    }

    /// The dotted key under which findings about this table are reported.
    pub open spec fn spec_display_key(self) -> Seq<char> {
        match self {
            DenyTable::Root => ""@,
            DenyTable::Graph => "graph"@,
            DenyTable::Output => "output"@,
            DenyTable::Advisories => "advisories"@,
            DenyTable::Licenses => "licenses"@,
            DenyTable::LicensesPrivate => "licenses.private"@,
            DenyTable::Bans => "bans"@,
            DenyTable::BansWorkspaceDependencies => "bans.workspace-dependencies"@,
            DenyTable::BansBuild => "bans.build"@,
            DenyTable::Sources => "sources"@,
            DenyTable::SourcesAllowOrg => "sources.allow-org"@,
        }
    }

    /// The path of table names that leads to this table.
    pub fn path(self) -> (r: Vec<&'static str>)
        ensures
            segment_views(r@) == self.spec_path(),
    {
        let r = match self {
            DenyTable::Root => vec![],
            DenyTable::Graph => vec!["graph"],
            DenyTable::Output => vec!["output"],
            DenyTable::Advisories => vec!["advisories"],
            DenyTable::Licenses => vec!["licenses"],
            DenyTable::LicensesPrivate => vec!["licenses", "private"],
            DenyTable::Bans => vec!["bans"],
            DenyTable::BansWorkspaceDependencies => vec!["bans", "workspace-dependencies"],
            DenyTable::BansBuild => vec!["bans", "build"],
            DenyTable::Sources => vec!["sources"],
            DenyTable::SourcesAllowOrg => vec!["sources", "allow-org"],
        };
        assert(segment_views(r@) =~= self.spec_path());
        r
    }

    /// The dotted key under which findings about this table are reported.
    pub fn display_key(self) -> (r: &'static str)
        ensures
            r@ == self.spec_display_key(),
    {
        match self {
            DenyTable::Root => "",
            DenyTable::Graph => "graph",
            DenyTable::Output => "output",
            DenyTable::Advisories => "advisories",
            DenyTable::Licenses => "licenses",
            DenyTable::LicensesPrivate => "licenses.private",
            DenyTable::Bans => "bans",
            DenyTable::BansWorkspaceDependencies => "bans.workspace-dependencies",
            DenyTable::BansBuild => "bans.build",
            DenyTable::Sources => "sources",
            DenyTable::SourcesAllowOrg => "sources.allow-org",
        }
    }
}

} // verus!
