//! Who stands behind `rust-toolchain.toml` requirements, and which of them
//! cannot be met together.

use vstd::prelude::*;
use crate::findings::{Finding, FindingView, finding_views, pair_views, policies};
use crate::lists::{ResolvedListEntry, ResolvedListRequirements, list_is_empty, spec_resolved_list_is_empty};
use crate::requirements::{Provenance, ScalarAssertion, spec_assertion_message};
use crate::rustfmt_reconcile::first_message;
use crate::scalar_merge::ResolvedRequirement;
use crate::text::owned;
use crate::toolchain_model::{ResolvedRustToolchainTomlRequirements, ResolvedToolchainScalar};

verus! {

/// Each contribution of a scalar requirement as (policy, message).
pub open spec fn scalar_contributors<T>(c: Seq<(Provenance, ScalarAssertion<T>)>) -> Seq<(Seq<char>, Seq<char>)> {
    c.map_values(|x: (Provenance, ScalarAssertion<T>)| (x.0.policy@, spec_assertion_message(x.1)))
}

/// The contributions of an optional scalar requirement.
pub open spec fn opt_scalar_contributors<T>(r: ResolvedToolchainScalar<T>) -> Seq<(Seq<char>, Seq<char>)> {
    match r {
        Some(x) => scalar_contributors(x.collected@),
        None => seq![],
    }
}

/// Each contribution of merged list entries as (policy, message), entry by
/// entry.
pub open spec fn entry_contributors(es: Seq<ResolvedListEntry>) -> Seq<(Seq<char>, Seq<char>)>
    decreases es.len(),
{
    if es.len() == 0 {
        seq![]
    } else {
        entry_contributors(es.drop_last())
            + es.last().collected@.map_values(|x: (Provenance, String)| (x.0.policy@, x.1@))
    }
}

/// Each contribution of a merged list requirement as (policy, message):
/// contained values, excluded values, then the exact list.
pub open spec fn list_contributors(r: ResolvedListRequirements) -> Seq<(Seq<char>, Seq<char>)> {
    entry_contributors(r.contains@) + entry_contributors(r.excludes@) + match r.exact {
        Some(e) => e.collected@.map_values(|x: (Provenance, (Vec<String>, String))| (x.0.policy@, x.1.1@)),
        None => seq![],
    }
}

/// Whether a scalar requirement asks for something to be there (any
/// assertion but `Absent`).
pub open spec fn spec_constructive<T>(r: ResolvedToolchainScalar<T>) -> bool {
    r matches Some(x) && !(x.merged is Absent)
}

/// Whether a scalar requirement asks for something to be there.
pub fn constructive<T>(r: &ResolvedToolchainScalar<T>) -> (b: bool)
    ensures
        b == spec_constructive(*r),
{
    match r {
        Some(x) => match &x.merged {
            ScalarAssertion::Absent(_) => false,
            _ => true,
        },
        None => false,
    }
}

/// Whether a list requirement asks for values to be there: contained
/// values or an exact list.
pub open spec fn spec_list_constructive(r: ResolvedListRequirements) -> bool {
    r.contains@.len() > 0 || r.exact is Some
}

/// Whether a list requirement asks for values to be there.
pub fn list_constructive(r: &ResolvedListRequirements) -> (b: bool)
    ensures
        b == spec_list_constructive(*r),
{
    r.contains.len() > 0 || r.exact.is_some()
}

/// Whether a path is required to be there (any assertion but `Absent`).
pub open spec fn spec_has_path_value(r: ResolvedRustToolchainTomlRequirements) -> bool {
    r.path matches Some(p) && !(p.merged is Absent)
}

/// An invalid-requirements finding.
pub open spec fn invalid_view(key: Seq<char>, message: Seq<char>, contributors: Seq<(Seq<char>, Seq<char>)>) -> FindingView {
    (1, key, None, seq![], message, seq![], contributors)
}

/// What requiring a path reports: a path cannot stand with a channel that
/// must be there, and disables profile, components and targets that ask
/// for something to be there; each clash names the path's contributors and
/// the other field's. Requirements met by absence (an absent channel or
/// profile, excluded values) stand beside a path.
pub open spec fn combination_findings(r: ResolvedRustToolchainTomlRequirements) -> Seq<FindingView> {
    if !spec_has_path_value(r) {
        seq![]
    } else {
        let p = opt_scalar_contributors(r.path);
        let disabled = "`path` disables channel-based toolchain fields."@;
        (if spec_constructive(r.channel) {
            seq![invalid_view("toolchain.channel"@, "`path` and `channel` cannot both be required."@, p + opt_scalar_contributors(r.channel))]
        } else { seq![] })
        + (if spec_constructive(r.profile) {
            seq![invalid_view("toolchain.profile"@, disabled, p + opt_scalar_contributors(r.profile))]
        } else { seq![] })
        + (if spec_list_constructive(r.components) {
            seq![invalid_view("toolchain.components"@, disabled, p + list_contributors(r.components))]
        } else { seq![] })
        + (if spec_list_constructive(r.targets) {
            seq![invalid_view("toolchain.targets"@, disabled, p + list_contributors(r.targets))]
        } else { seq![] })
    }
}

/// The contributions of a scalar requirement as (policy, message).
pub fn scalar_contributor_pairs<T>(c: &Vec<(Provenance, ScalarAssertion<T>)>, out: &mut Vec<(String, String)>)
    ensures
        pair_views(final(out)@) == pair_views(old(out)@) + scalar_contributors(c@),
{
    let ghost start = pair_views(out@);
    let mut i: usize = 0;
    while i < c.len()
        invariant
            i <= c.len(),
            pair_views(out@) == start + scalar_contributors(c@.subrange(0, i as int)),
        decreases c.len() - i,
    {
        let ghost before = out@;
        out.push((c[i].0.policy.clone(), owned(c[i].1.message())));
        assert(pair_views(out@) =~= pair_views(before).push((c@[i as int].0.policy@, spec_assertion_message(c@[i as int].1))));
        assert(scalar_contributors(c@.subrange(0, i + 1)) =~= scalar_contributors(c@.subrange(0, i as int))
            .push((c@[i as int].0.policy@, spec_assertion_message(c@[i as int].1))));
        i = i + 1;
    }
    assert(c@.subrange(0, c@.len() as int) =~= c@);
}

fn message_pairs(c: &Vec<(Provenance, String)>, out: &mut Vec<(String, String)>)
    ensures
        pair_views(final(out)@) == pair_views(old(out)@) + c@.map_values(|x: (Provenance, String)| (x.0.policy@, x.1@)),
{
    let ghost start = pair_views(out@);
    let mut i: usize = 0;
    while i < c.len()
        invariant
            i <= c.len(),
            pair_views(out@) == start + c@.subrange(0, i as int).map_values(|x: (Provenance, String)| (x.0.policy@, x.1@)),
        decreases c.len() - i,
    {
        let ghost before = out@;
        out.push((c[i].0.policy.clone(), c[i].1.clone()));
        assert(pair_views(out@) =~= pair_views(before).push((c@[i as int].0.policy@, c@[i as int].1@)));
        assert(c@.subrange(0, i + 1).map_values(|x: (Provenance, String)| (x.0.policy@, x.1@))
            =~= c@.subrange(0, i as int).map_values(|x: (Provenance, String)| (x.0.policy@, x.1@)).push((c@[i as int].0.policy@, c@[i as int].1@)));
        i = i + 1;
    }
    assert(c@.subrange(0, c@.len() as int) =~= c@);
}

fn entry_pairs(es: &Vec<ResolvedListEntry>, out: &mut Vec<(String, String)>)
    ensures
        pair_views(final(out)@) == pair_views(old(out)@) + entry_contributors(es@),
{
    let ghost start = pair_views(out@);
    let mut i: usize = 0;
    while i < es.len()
        invariant
            i <= es.len(),
            pair_views(out@) == start + entry_contributors(es@.subrange(0, i as int)),
        decreases es.len() - i,
    {
        let ghost before = pair_views(out@);
        message_pairs(&es[i].collected, out);
        assert(es@.subrange(0, i + 1).drop_last() =~= es@.subrange(0, i as int));
        assert(pair_views(out@) =~= start + entry_contributors(es@.subrange(0, i + 1)));
        i = i + 1;
    }
    assert(es@.subrange(0, es@.len() as int) =~= es@);
}

/// The contributions of a merged list requirement as (policy, message).
pub fn list_contributor_pairs(r: &ResolvedListRequirements, out: &mut Vec<(String, String)>)
    ensures
        pair_views(final(out)@) == pair_views(old(out)@) + list_contributors(*r),
{
    let ghost start = pair_views(out@);
    entry_pairs(&r.contains, out);
    entry_pairs(&r.excludes, out);
    let ghost mid = pair_views(out@);
    match &r.exact {
        Some(e) => {
            let c = &e.collected;
            let mut i: usize = 0;
            while i < c.len()
                invariant
                    i <= c.len(),
                    pair_views(out@) == mid + c@.subrange(0, i as int).map_values(|x: (Provenance, (Vec<String>, String))| (x.0.policy@, x.1.1@)),
                decreases c.len() - i,
            {
                let ghost before = out@;
                out.push((c[i].0.policy.clone(), c[i].1.1.clone()));
                assert(pair_views(out@) =~= pair_views(before).push((c@[i as int].0.policy@, c@[i as int].1.1@)));
                assert(c@.subrange(0, i + 1).map_values(|x: (Provenance, (Vec<String>, String))| (x.0.policy@, x.1.1@))
                    =~= c@.subrange(0, i as int).map_values(|x: (Provenance, (Vec<String>, String))| (x.0.policy@, x.1.1@))
                        .push((c@[i as int].0.policy@, c@[i as int].1.1@)));
                i = i + 1;
            }
            assert(c@.subrange(0, c@.len() as int) =~= c@);
            assert(pair_views(out@) =~= start + list_contributors(*r));
        },
        None => {
            assert(pair_views(out@) =~= start + list_contributors(*r));
        },
    }
}

/// Whether a path is required to be there.
pub fn has_path_value(r: &ResolvedRustToolchainTomlRequirements) -> (b: bool)
    ensures
        b == spec_has_path_value(*r),
{
    match &r.path {
        Some(p) => match &p.merged {
            ScalarAssertion::Absent(_) => false,
            _ => true,
        },
        None => false,
    }
}

fn path_pairs(r: &ResolvedRustToolchainTomlRequirements) -> (out: Vec<(String, String)>)
    ensures
        pair_views(out@) == opt_scalar_contributors(r.path),
{
    let mut out: Vec<(String, String)> = Vec::new();
    assert(pair_views(out@) =~= Seq::<(Seq<char>, Seq<char>)>::empty());
    match &r.path {
        Some(p) => scalar_contributor_pairs(&p.collected, &mut out),
        None => {},
    }
    assert(pair_views(out@) =~= opt_scalar_contributors(r.path));
    out
}

fn push_invalid(findings: &mut Vec<Finding>, key: &str, message: &str, contributors: Vec<(String, String)>)
    ensures
        finding_views(final(findings)@) == finding_views(old(findings)@).push(invalid_view(key@, message@, pair_views(contributors@))),
{
    let ghost before = findings@;
    findings.push(Finding::InvalidRequirements { key: owned(key), message: owned(message), contributors });
    assert(finding_views(findings@) =~= finding_views(before).push(invalid_view(key@, message@, pair_views(findings@.last()->InvalidRequirements_contributors@))));
}

/// Reports the requirements that cannot be met together: when a path is
/// required, a required channel, profile, components or targets each give
/// one invalid-requirements finding naming both sides' contributors.
pub fn report_invalid_requirement_combinations(requirement: &ResolvedRustToolchainTomlRequirements, findings: &mut Vec<Finding>)
    ensures
        finding_views(final(findings)@) == finding_views(old(findings)@) + combination_findings(*requirement),
{
    let ghost f0 = finding_views(findings@);
    if !has_path_value(requirement) {
        assert(finding_views(findings@) =~= f0 + combination_findings(*requirement));
        return;
    }
    proof {
        reveal_strlit("toolchain.channel");
        reveal_strlit("`path` and `channel` cannot both be required.");
        reveal_strlit("toolchain.profile");
        reveal_strlit("`path` disables channel-based toolchain fields.");
        reveal_strlit("toolchain.components");
        reveal_strlit("toolchain.targets");
    }
    let ghost p = opt_scalar_contributors(requirement.path);
    let ghost disabled = "`path` disables channel-based toolchain fields."@;
    let ghost a = if spec_constructive(requirement.channel) {
        seq![invalid_view("toolchain.channel"@, "`path` and `channel` cannot both be required."@, p + opt_scalar_contributors(requirement.channel))]
    } else { Seq::<FindingView>::empty() };
    let ghost b = if spec_constructive(requirement.profile) {
        seq![invalid_view("toolchain.profile"@, disabled, p + opt_scalar_contributors(requirement.profile))]
    } else { Seq::<FindingView>::empty() };
    let ghost c = if spec_list_constructive(requirement.components) {
        seq![invalid_view("toolchain.components"@, disabled, p + list_contributors(requirement.components))]
    } else { Seq::<FindingView>::empty() };
    let ghost d = if spec_list_constructive(requirement.targets) {
        seq![invalid_view("toolchain.targets"@, disabled, p + list_contributors(requirement.targets))]
    } else { Seq::<FindingView>::empty() };
    match &requirement.channel {
        Some(channel) => {
            if constructive(&requirement.channel) {
                let mut contributors = path_pairs(requirement);
                scalar_contributor_pairs(&channel.collected, &mut contributors);
                push_invalid(findings, "toolchain.channel", "`path` and `channel` cannot both be required.", contributors);
            }
        },
        None => {},
    }
    assert(finding_views(findings@) =~= f0 + a);
    match &requirement.profile {
        Some(profile) => {
            if constructive(&requirement.profile) {
                let mut contributors = path_pairs(requirement);
                scalar_contributor_pairs(&profile.collected, &mut contributors);
                push_invalid(findings, "toolchain.profile", "`path` disables channel-based toolchain fields.", contributors);
            }
        },
        None => {},
    }
    assert(finding_views(findings@) =~= f0 + a + b);
    if list_constructive(&requirement.components) {
        let mut contributors = path_pairs(requirement);
        list_contributor_pairs(&requirement.components, &mut contributors);
        push_invalid(findings, "toolchain.components", "`path` disables channel-based toolchain fields.", contributors);
    }
    assert(finding_views(findings@) =~= f0 + a + b + c);
    if list_constructive(&requirement.targets) {
        let mut contributors = path_pairs(requirement);
        list_contributor_pairs(&requirement.targets, &mut contributors);
        push_invalid(findings, "toolchain.targets", "`path` disables channel-based toolchain fields.", contributors);
    }
    assert(finding_views(findings@) =~= f0 + a + b + c + d);
    assert(combination_findings(*requirement) =~= a + b + c + d);
}

} // verus!
