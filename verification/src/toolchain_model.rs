//! What `rust-toolchain.toml` policies require of the `[toolchain]` table,
//! and how the requirements of several policies merge.

use vstd::prelude::*;
use crate::columns::{column, full_column};
use crate::lists::{
    ListRequirements, ResolvedListRequirements, flat_pairs, list_conflicts, list_resolution,
    resolve_normalized_list, sorted_exact_items, spec_list_is_empty,
};
use crate::requirements::{Provenance, ScalarAssertion};
use crate::scalar_merge::{
    ConflictEntry, ConflictView, ResolvedRequirement, conflict_views, resolve_scalar, scalar_conflicts,
    scalar_resolution,
};
use crate::toolchain_values::{RustToolchainChannel, RustToolchainPath, RustToolchainProfile};

verus! {

/// What one policy requires of `[toolchain]`: assertions on `channel`,
/// `path` and `profile`, list requirements on `components` and `targets`,
/// and whether the table may hold fields that no requirement names
/// (`closed_settings` closes it, with the message reported for each extra
/// field).
#[derive(Debug)]
pub struct RustToolchainTomlRequirements {
    pub channel: Option<ScalarAssertion<RustToolchainChannel>>,
    pub path: Option<ScalarAssertion<RustToolchainPath>>,
    pub profile: Option<ScalarAssertion<RustToolchainProfile>>,
    pub components: ListRequirements,
    pub targets: ListRequirements,
    pub closed_settings: Option<String>,
}

impl Default for RustToolchainTomlRequirements {
    fn default() -> (r: Self)
        ensures
            r.channel is None,
            r.path is None,
            r.profile is None,
            spec_list_is_empty(r.components),
            spec_list_is_empty(r.targets),
            r.closed_settings is None,
    {
        RustToolchainTomlRequirements {
            channel: None,
            path: None,
            profile: None,
            components: ListRequirements::default(),
            targets: ListRequirements::default(),
            closed_settings: None,
        }
    }
}

/// The merged requirement of a toolchain scalar field.
pub type ResolvedToolchainScalar<T> = Option<ResolvedRequirement<ScalarAssertion<T>, ScalarAssertion<T>>>;

/// The merged requirements of every policy for `[toolchain]`.
#[derive(Debug)]
pub struct ResolvedRustToolchainTomlRequirements {
    pub channel: ResolvedToolchainScalar<RustToolchainChannel>,
    pub path: ResolvedToolchainScalar<RustToolchainPath>,
    pub profile: ResolvedToolchainScalar<RustToolchainProfile>,
    pub components: ResolvedListRequirements,
    pub targets: ResolvedListRequirements,
    pub closed_settings: Vec<(Provenance, String)>,
}

impl ResolvedRustToolchainTomlRequirements {
    /// The merged requirement of `channel`, if any.
    pub fn channel(&self) -> (r: Option<&ResolvedRequirement<ScalarAssertion<RustToolchainChannel>, ScalarAssertion<RustToolchainChannel>>>)
        ensures
            r is Some <==> self.channel is Some,
            r matches Some(x) ==> self.channel == Some(*x),
    {
        match &self.channel {
            Some(x) => Some(x),
            None => None,
        }
    }

    /// The merged requirement of `path`, if any.
    pub fn path(&self) -> (r: Option<&ResolvedRequirement<ScalarAssertion<RustToolchainPath>, ScalarAssertion<RustToolchainPath>>>)
        ensures
            r is Some <==> self.path is Some,
            r matches Some(x) ==> self.path == Some(*x),
    {
        match &self.path {
            Some(x) => Some(x),
            None => None,
        }
    }

    /// The merged requirement of `profile`, if any.
    pub fn profile(&self) -> (r: Option<&ResolvedRequirement<ScalarAssertion<RustToolchainProfile>, ScalarAssertion<RustToolchainProfile>>>)
        ensures
            r is Some <==> self.profile is Some,
            r matches Some(x) ==> self.profile == Some(*x),
    {
        match &self.profile {
            Some(x) => Some(x),
            None => None,
        }
    }

    /// The merged requirements of `components`.
    pub fn components(&self) -> (r: &ResolvedListRequirements)
        ensures
            *r == self.components,
    {
        &self.components
    }

    /// The merged requirements of `targets`.
    pub fn targets(&self) -> (r: &ResolvedListRequirements)
        ensures
            *r == self.targets,
    {
        &self.targets
    }

    /// The policies that close the table, each with its message.
    pub fn closed_settings(&self) -> (r: &Vec<(Provenance, String)>)
        ensures
            *r == self.closed_settings,
    {
        &self.closed_settings
    }
}

/// Every policy's assertion of `channel`.
pub open spec fn col_channel(reqs: Seq<(Provenance, RustToolchainTomlRequirements)>) -> Seq<(Provenance, ScalarAssertion<RustToolchainChannel>)> {
    column(reqs, |q: RustToolchainTomlRequirements| q.channel)
}

/// Every policy's assertion of `path`.
pub open spec fn col_path(reqs: Seq<(Provenance, RustToolchainTomlRequirements)>) -> Seq<(Provenance, ScalarAssertion<RustToolchainPath>)> {
    column(reqs, |q: RustToolchainTomlRequirements| q.path)
}

/// Every policy's assertion of `profile`.
pub open spec fn col_profile(reqs: Seq<(Provenance, RustToolchainTomlRequirements)>) -> Seq<(Provenance, ScalarAssertion<RustToolchainProfile>)> {
    column(reqs, |q: RustToolchainTomlRequirements| q.profile)
}

/// Every policy's requirements of `components`.
pub open spec fn col_components(reqs: Seq<(Provenance, RustToolchainTomlRequirements)>) -> Seq<(Provenance, ListRequirements)> {
    full_column(reqs, |q: RustToolchainTomlRequirements| q.components)
}

/// Every policy's requirements of `targets`.
pub open spec fn col_targets(reqs: Seq<(Provenance, RustToolchainTomlRequirements)>) -> Seq<(Provenance, ListRequirements)> {
    full_column(reqs, |q: RustToolchainTomlRequirements| q.targets)
}

/// Every policy that closes the table, with its message.
pub open spec fn col_toolchain_closed(reqs: Seq<(Provenance, RustToolchainTomlRequirements)>) -> Seq<(Provenance, String)> {
    column(reqs, |q: RustToolchainTomlRequirements| q.closed_settings)
}

/// Whether `r` merges `reqs` field by field.
pub open spec fn toolchain_resolution(r: ResolvedRustToolchainTomlRequirements, reqs: Seq<(Provenance, RustToolchainTomlRequirements)>) -> bool {
    &&& scalar_resolution(r.channel, col_channel(reqs))
    &&& scalar_resolution(r.path, col_path(reqs))
    &&& scalar_resolution(r.profile, col_profile(reqs))
    &&& list_resolution(r.components, flat_pairs(col_components(reqs), false), flat_pairs(col_components(reqs), true), sorted_exact_items(col_components(reqs)))
    &&& list_resolution(r.targets, flat_pairs(col_targets(reqs), false), flat_pairs(col_targets(reqs), true), sorted_exact_items(col_targets(reqs)))
    &&& r.closed_settings@ == col_toolchain_closed(reqs)
}

/// The conflicts of merging `reqs` into `r`, field by field.
pub open spec fn toolchain_conflicts(reqs: Seq<(Provenance, RustToolchainTomlRequirements)>, r: ResolvedRustToolchainTomlRequirements) -> Seq<ConflictView> {
    seq![]
        + scalar_conflicts("toolchain.channel"@, col_channel(reqs))
        + scalar_conflicts("toolchain.path"@, col_path(reqs))
        + scalar_conflicts("toolchain.profile"@, col_profile(reqs))
        + list_conflicts("toolchain.components"@, r.components, sorted_exact_items(col_components(reqs)))
        + list_conflicts("toolchain.targets"@, r.targets, sorted_exact_items(col_targets(reqs)))
}

struct ToolchainColumns {
    channel: Vec<(Provenance, ScalarAssertion<RustToolchainChannel>)>,
    path: Vec<(Provenance, ScalarAssertion<RustToolchainPath>)>,
    profile: Vec<(Provenance, ScalarAssertion<RustToolchainProfile>)>,
    components: Vec<(Provenance, ListRequirements)>,
    targets: Vec<(Provenance, ListRequirements)>,
    closed_settings: Vec<(Provenance, String)>,
}

fn gather_toolchain(reqs: Vec<(Provenance, RustToolchainTomlRequirements)>) -> (c: ToolchainColumns)
    ensures
        c.channel@ == col_channel(reqs@),
        c.path@ == col_path(reqs@),
        c.profile@ == col_profile(reqs@),
        c.components@ == col_components(reqs@),
        c.targets@ == col_targets(reqs@),
        c.closed_settings@ == col_toolchain_closed(reqs@),
{
    let ghost all = reqs@;
    let mut c = ToolchainColumns {
        channel: Vec::new(),
        path: Vec::new(),
        profile: Vec::new(),
        components: Vec::new(),
        targets: Vec::new(),
        closed_settings: Vec::new(),
    };
    let mut rest = reqs;
    assert(c.channel@ + col_channel(rest@) =~= col_channel(all));
    assert(c.path@ + col_path(rest@) =~= col_path(all));
    assert(c.profile@ + col_profile(rest@) =~= col_profile(all));
    assert(c.components@ + col_components(rest@) =~= col_components(all));
    assert(c.targets@ + col_targets(rest@) =~= col_targets(all));
    assert(c.closed_settings@ + col_toolchain_closed(rest@) =~= col_toolchain_closed(all));
    while rest.len() > 0
        invariant
            c.channel@ + col_channel(rest@) == col_channel(all),
            c.path@ + col_path(rest@) == col_path(all),
            c.profile@ + col_profile(rest@) == col_profile(all),
            c.components@ + col_components(rest@) == col_components(all),
            c.targets@ + col_targets(rest@) == col_targets(all),
            c.closed_settings@ + col_toolchain_closed(rest@) == col_toolchain_closed(all),
        decreases rest.len(),
    {
        let ghost before = rest@;
        let ghost old_c = c;
        let (prov, req) = rest.remove(0);
        assert(rest@ =~= before.drop_first());
        let RustToolchainTomlRequirements { channel, path, profile, components, targets, closed_settings } = req;
        if let Some(x) = channel {
            c.channel.push((prov.clone(), x));
        }
        if let Some(x) = path {
            c.path.push((prov.clone(), x));
        }
        if let Some(x) = profile {
            c.profile.push((prov.clone(), x));
        }
        c.components.push((prov.clone(), components));
        c.targets.push((prov.clone(), targets));
        if let Some(x) = closed_settings {
            c.closed_settings.push((prov.clone(), x));
        }
        proof {
            crate::columns::lemma_full_column_front(before, |q: RustToolchainTomlRequirements| q.components);
            crate::columns::lemma_full_column_front(before, |q: RustToolchainTomlRequirements| q.targets);
            assert(c.channel@ + col_channel(rest@) =~= old_c.channel@ + col_channel(before));
            assert(c.path@ + col_path(rest@) =~= old_c.path@ + col_path(before));
            assert(c.profile@ + col_profile(rest@) =~= old_c.profile@ + col_profile(before));
            assert(c.components@ + col_components(rest@) =~= old_c.components@ + col_components(before));
            assert(c.targets@ + col_targets(rest@) =~= old_c.targets@ + col_targets(before));
            assert(c.closed_settings@ + col_toolchain_closed(rest@) =~= old_c.closed_settings@ + col_toolchain_closed(before));
        }
    }
    c
}

/// Merges the requirements of several policies for `[toolchain]`, as
/// `merge` does, and returns them with every conflict.
pub fn merge_toolchain_requirements(reqs: Vec<(Provenance, RustToolchainTomlRequirements)>)
    -> (r: (ResolvedRustToolchainTomlRequirements, Vec<ConflictEntry>))
    ensures
        toolchain_resolution(r.0, reqs@),
        conflict_views(r.1@) == toolchain_conflicts(reqs@, r.0),
{
    let ToolchainColumns { channel, path, profile, components, targets, closed_settings } = gather_toolchain(reqs);
    let mut conflicts: Vec<ConflictEntry> = Vec::new();
    assert(conflict_views(conflicts@) =~= seq![]);
    let channel = resolve_scalar("toolchain.channel", channel, &mut conflicts);
    let path = resolve_scalar("toolchain.path", path, &mut conflicts);
    let profile = resolve_scalar("toolchain.profile", profile, &mut conflicts);
    let components = resolve_normalized_list("toolchain.components", components, &mut conflicts);
    let targets = resolve_normalized_list("toolchain.targets", targets, &mut conflicts);
    (ResolvedRustToolchainTomlRequirements { channel, path, profile, components, targets, closed_settings }, conflicts)
}

impl RustToolchainTomlRequirements {
    /// The engine these requirements are for.
    pub fn engine_id(&self) -> (r: &'static str)
        ensures
            r == crate::toolchain_engine::ENGINE_ID,
    {
        crate::toolchain_engine::ENGINE_ID
    }

    /// Merges the requirements of several policies: scalar assertions must
    /// agree, list requirements are gathered per value with exact lists
    /// compared in any order, and the policies that close the table are kept.
    /// Succeeds exactly when nothing conflicts; otherwise returns every
    /// conflict.
    pub fn merge(reqs: Vec<(Provenance, RustToolchainTomlRequirements)>)
        -> (r: Result<ResolvedRustToolchainTomlRequirements, Vec<ConflictEntry>>)
        ensures
            match r {
                Ok(resolved) => toolchain_resolution(resolved, reqs@)
                    && toolchain_conflicts(reqs@, resolved).len() == 0,
                Err(conflicts) => exists|resolved: ResolvedRustToolchainTomlRequirements|
                    toolchain_resolution(resolved, reqs@)
                    && conflict_views(conflicts@) == toolchain_conflicts(reqs@, resolved)
                    && conflicts@.len() > 0,
            },
    {
        let (resolved, conflicts) = merge_toolchain_requirements(reqs);
        if conflicts.len() == 0 {
            Ok(resolved)
        } else {
            Err(conflicts)
        }
    }
}

} // verus!
