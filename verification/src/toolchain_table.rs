//! The `[toolchain]` table as a whole: making sure it is there, checking
//! what the file holds in it, closing it, and reporting it empty.

use vstd::prelude::*;
use toml_edit::DocumentMut;
use crate::deny_fields::provenances_of;
use crate::deny_scalar_edit::{shown_current, shown_text};
use crate::findings::{Finding, FindingView, finding_views, mismatch, policies, push_mismatch};
use crate::lists::{list_is_empty, spec_resolved_list_is_empty};
use crate::requirements::{Provenance, ScalarAssertion};
use crate::rustfmt_reconcile::{
    first_message, list_message_and_attribution, list_policies, message_and_attribution, policies_of, value_view,
};
use crate::text::{join2, owned};
use crate::text_order::string_views;
use crate::toml_doc::{
    TomlValue, TomlView, insert_empty_table, item_at_root, read_item, remove_in_table, remove_root, removed, table_inserted,
    table_keys, toml_at, toml_keys,
};
use crate::toolchain_checks::{constructive, list_constructive, spec_constructive, spec_list_constructive};
use crate::toolchain_fields::{read_tc, tc_item};
use crate::toolchain_model::{ResolvedRustToolchainTomlRequirements, ResolvedToolchainScalar};
use crate::toolchain_values::{RustToolchainPath, RustToolchainProfile};

verus! {

/// The policies of an optional scalar requirement.
pub open spec fn opt_policies<T>(r: ResolvedToolchainScalar<T>) -> Seq<Seq<char>> {
    match r {
        Some(x) => x.collected@.map_values(|c: (Provenance, ScalarAssertion<T>)| c.0.policy@),
        None => seq![],
    }
}

/// Every policy behind the requirements: channel, path, profile,
/// components, targets, then closing.
pub open spec fn requirement_policies(r: ResolvedRustToolchainTomlRequirements) -> Seq<Seq<char>> {
    opt_policies(r.channel) + opt_policies(r.path) + opt_policies(r.profile) + list_policies(r.components)
        + list_policies(r.targets) + policies_of(r.closed_settings@)
}

/// Whether anything is required at all.
pub open spec fn spec_has_requirements(r: ResolvedRustToolchainTomlRequirements) -> bool {
    r.channel is Some || r.path is Some || r.profile is Some || !spec_resolved_list_is_empty(r.components)
        || !spec_resolved_list_is_empty(r.targets) || r.closed_settings@.len() > 0
}

/// Whether a field that needs a channel is required to be there.
pub open spec fn spec_has_channel_based(r: ResolvedRustToolchainTomlRequirements) -> bool {
    spec_constructive(r.channel) || spec_constructive(r.profile) || spec_list_constructive(r.components)
        || spec_list_constructive(r.targets)
}

/// Whether a missing `[toolchain]` table meets every requirement: nothing
/// is required to be there.
pub open spec fn spec_absent_table_ok(r: ResolvedRustToolchainTomlRequirements) -> bool {
    !spec_constructive(r.channel) && !spec_constructive(r.path) && !spec_constructive(r.profile)
        && !spec_list_constructive(r.components) && !spec_list_constructive(r.targets)
}

fn opt_provenances<T>(r: &ResolvedToolchainScalar<T>, out: &mut Vec<Provenance>)
    ensures
        policies(final(out)@) == policies(old(out)@) + opt_policies(*r),
{
    match r {
        Some(x) => {
            let ps = provenances_of(&x.collected);
            let ghost before = out@;
            let mut i: usize = 0;
            while i < ps.len()
                invariant
                    i <= ps.len(),
                    policies(out@) == policies(before) + policies(ps@.subrange(0, i as int)),
                decreases ps.len() - i,
            {
                let ghost b = out@;
                out.push(ps[i].clone());
                assert(policies(out@) =~= policies(b).push(ps@[i as int].policy@));
                assert(policies(ps@.subrange(0, i + 1)) =~= policies(ps@.subrange(0, i as int)).push(ps@[i as int].policy@));
                i = i + 1;
            }
            assert(ps@.subrange(0, ps@.len() as int) =~= ps@);
        },
        None => {
            assert(policies(out@) =~= policies(old(out)@) + Seq::<Seq<char>>::empty());
        },
    }
}

fn append_provenances(out: &mut Vec<Provenance>, more: &Vec<Provenance>)
    ensures
        policies(final(out)@) == policies(old(out)@) + policies(more@),
{
    let ghost start = out@;
    let mut i: usize = 0;
    while i < more.len()
        invariant
            i <= more.len(),
            policies(out@) == policies(start) + policies(more@.subrange(0, i as int)),
        decreases more.len() - i,
    {
        let ghost b = out@;
        out.push(more[i].clone());
        assert(policies(out@) =~= policies(b).push(more@[i as int].policy@));
        assert(policies(more@.subrange(0, i + 1)) =~= policies(more@.subrange(0, i as int)).push(more@[i as int].policy@));
        i = i + 1;
    }
    assert(more@.subrange(0, more@.len() as int) =~= more@);
}

/// Every provenance behind the requirements.
pub fn requirement_attribution(r: &ResolvedRustToolchainTomlRequirements) -> (out: Vec<Provenance>)
    ensures
        policies(out@) == requirement_policies(*r),
{
    let mut out: Vec<Provenance> = Vec::new();
    assert(policies(out@) =~= Seq::<Seq<char>>::empty());
    opt_provenances(&r.channel, &mut out);
    opt_provenances(&r.path, &mut out);
    opt_provenances(&r.profile, &mut out);
    let (_, components) = list_message_and_attribution(&r.components);
    append_provenances(&mut out, &components);
    let (_, targets) = list_message_and_attribution(&r.targets);
    append_provenances(&mut out, &targets);
    let (_, closing) = message_and_attribution(&r.closed_settings);
    append_provenances(&mut out, &closing);
    assert(policies(out@) =~= requirement_policies(*r));
    out
}

/// Whether anything is required at all.
pub fn has_requirements(r: &ResolvedRustToolchainTomlRequirements) -> (b: bool)
    ensures
        b == spec_has_requirements(*r),
{
    r.channel.is_some() || r.path.is_some() || r.profile.is_some() || !list_is_empty(&r.components)
        || !list_is_empty(&r.targets) || r.closed_settings.len() > 0
}

/// Whether a field that needs a channel is required to be there.
pub fn has_channel_based(r: &ResolvedRustToolchainTomlRequirements) -> (b: bool)
    ensures
        b == spec_has_channel_based(*r),
{
    constructive(&r.channel) || constructive(&r.profile) || list_constructive(&r.components) || list_constructive(&r.targets)
}

/// Whether a missing `[toolchain]` table meets every requirement.
pub fn absent_table_ok(r: &ResolvedRustToolchainTomlRequirements) -> (b: bool)
    ensures
        b == spec_absent_table_ok(*r),
{
    !constructive(&r.channel) && !constructive(&r.path) && !constructive(&r.profile)
        && !list_constructive(&r.components) && !list_constructive(&r.targets)
}

/// An unwritable-key finding.
pub open spec fn unwritable(key: Seq<char>, expected: Seq<char>, attribution: Seq<Seq<char>>) -> FindingView {
    (2, key, None, expected, seq![], attribution, seq![])
}

fn push_unwritable(findings: &mut Vec<Finding>, key: &str, expected: &str, attribution: Vec<Provenance>)
    ensures
        finding_views(final(findings)@) == finding_views(old(findings)@).push(unwritable(key@, expected@, policies(attribution@))),
{
    let ghost before = findings@;
    let ghost a = policies(attribution@);
    findings.push(Finding::UnwritableRequiredKey { key: owned(key), expected: owned(expected), attribution });
    assert(finding_views(findings@) =~= finding_views(before).push(unwritable(key@, expected@, a)));
}

/// Whether the root `toolchain` item is a standard table.
pub open spec fn has_tc_table(d: DocumentMut) -> bool {
    toml_at(d, seq!["toolchain"@]) matches Some(t) && t.0 == 5
}

/// What making sure `[toolchain]` is a table leaves: a table stays; any
/// other value there is reported as unwritable and replaced by an empty
/// table; a missing table is added, reported when anything is required.
pub open spec fn tc_table_ensured(old: DocumentMut, new: DocumentMut, f0: Seq<FindingView>, f1: Seq<FindingView>, r: ResolvedRustToolchainTomlRequirements) -> bool {
    let k = seq!["toolchain"@];
    if has_tc_table(old) {
        new == old && f1 == f0
    } else if toml_at(old, k) is Some {
        &&& f1 == f0.push(unwritable("toolchain"@, "table"@, requirement_policies(r)))
        &&& exists|mid: DocumentMut| #[trigger] removed(old, mid, k) && table_inserted(mid, new, "toolchain"@)
    } else {
        &&& f1 == (if spec_has_requirements(r) {
            f0.push(mismatch("toolchain"@, None, "table"@, "rust-toolchain.toml must contain a [toolchain] table."@, requirement_policies(r)))
        } else {
            f0
        })
        &&& table_inserted(old, new, "toolchain"@)
    }
}

/// Makes sure the root `toolchain` item is a standard table.
pub fn ensure_toolchain_table(doc: &mut DocumentMut, requirement: &ResolvedRustToolchainTomlRequirements, findings: &mut Vec<Finding>)
    ensures
        tc_table_ensured(*old(doc), *final(doc), finding_views(old(findings)@), finding_views(final(findings)@), *requirement),
        has_tc_table(*final(doc)),
{
    proof {
        reveal_strlit("toolchain");
        reveal_strlit("table");
        reveal_strlit("rust-toolchain.toml must contain a [toolchain] table.");
    }
    let current = match item_at_root(doc, "toolchain") {
        Some(i) => Some(read_item(&i)),
        None => None,
    };
    assert(toml_at(*doc, seq!["toolchain"@]) == value_view(current));
    match current {
        Some(TomlValue::Table) => {},
        Some(_) => {
            let ghost d0 = *doc;
            push_unwritable(findings, "toolchain", "table", requirement_attribution(requirement));
            let _ = remove_root(doc, "toolchain");
            let ghost mid = *doc;
            proof {
                let k = seq!["toolchain"@];
                assert(k.subrange(0, 1) =~= k);
                assert(crate::toml_doc::path_prefix(k, k));
            }
            insert_empty_table(doc, "toolchain");
            assert(removed(d0, mid, seq!["toolchain"@]));
        },
        None => {
            if has_requirements(requirement) {
                push_mismatch(findings, owned("toolchain"), None, owned("table"),
                    "rust-toolchain.toml must contain a [toolchain] table.", &requirement_attribution(requirement));
            }
            insert_empty_table(doc, "toolchain");
        },
    }
}

} // verus!
