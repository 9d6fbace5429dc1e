//! The list fields of `[toolchain]` (`components`, `targets`): kept sorted
//! and without repeats, and reconciled with their merged requirements.

use vstd::prelude::*;
use toml_edit::DocumentMut;
use crate::deny_scalar_edit::{shown_current, shown_text};
use crate::findings::{Finding, FindingView, finding_views, mismatch, policies, push_mismatch};
use crate::lists::{ResolvedListEntry, ResolvedListRequirements, list_is_empty, sorted_distinct, spec_resolved_list_is_empty};
use crate::rustfmt_model::{debug_join, spec_debug_join};
use crate::rustfmt_reconcile::{
    array_strings, exact_message_and_attribution, exact_messages, exact_policies, first_message,
    list_message_and_attribution, list_policies, list_values, message_and_attribution, policies_of, remove_value,
    value_view, without_value,
};
use crate::text::{join2, join3, owned};
use crate::text_order::{lemma_sorted_same_set_equal, sort_dedup, string_views};
use crate::toml_doc::{TomlWrite, array_write, toml_at, way_is_open, write_table, written};
use crate::toolchain_fields::{read_tc, tc_item};
use crate::toolchain_table::has_tc_table;

verus! {

/// A list's text in findings: its strings in `Debug` form, in brackets.
pub open spec fn list_shown(vs: Seq<Seq<char>>) -> Seq<char> {
    "["@ + spec_debug_join(vs) + "]"@
}

/// A list's values while it is reconciled, and whether they changed.
pub type ValuesState = (Seq<Seq<char>>, bool);

/// Adding each contained value the list lacks, in order, one mismatch each.
pub open spec fn values_after_contains(key: Seq<char>, es: Seq<ResolvedListEntry>, st: ValuesState) -> (ValuesState, Seq<FindingView>)
    decreases es.len(),
{
    if es.len() == 0 {
        (st, seq![])
    } else {
        let (s1, f1) = values_after_contains(key, es.drop_last(), st);
        let v = es.last().value@;
        if s1.0.contains(v) {
            (s1, f1)
        } else {
            ((s1.0.push(v), true), f1.push(mismatch(key + "."@ + v, Some(list_shown(s1.0)), "list containing "@ + v,
                first_message(es.last().collected@), policies_of(es.last().collected@))))
        }
    }
}

/// Removing each excluded value the list holds, in order, one mismatch
/// each.
pub open spec fn values_after_excludes(key: Seq<char>, es: Seq<ResolvedListEntry>, st: ValuesState) -> (ValuesState, Seq<FindingView>)
    decreases es.len(),
{
    if es.len() == 0 {
        (st, seq![])
    } else {
        let (s1, f1) = values_after_excludes(key, es.drop_last(), st);
        let v = es.last().value@;
        if !s1.0.contains(v) {
            (s1, f1)
        } else {
            ((remove_value(s1.0, v), true), f1.push(mismatch(key + "."@ + v, Some(list_shown(s1.0)), "list excluding "@ + v,
                first_message(es.last().collected@), policies_of(es.last().collected@))))
        }
    }
}

/// Replacing the list by the exact values when it differs, one mismatch.
pub open spec fn values_after_exact(key: Seq<char>, r: ResolvedListRequirements, st: ValuesState) -> (ValuesState, Seq<FindingView>) {
    match r.exact {
        Some(e) => {
            let m = string_views(e.merged@);
            if st.0 == m {
                (st, seq![])
            } else {
                let msgs = exact_messages(r);
                ((m, true), seq![mismatch(key, Some(list_shown(st.0)), list_shown(m),
                    if msgs.len() > 0 { msgs[0] } else { seq![] }, exact_policies(r))])
            }
        },
        None => (st, seq![]),
    }
}

/// Reconciling list values with requirements: contained, excluded, then
/// exact values.
pub open spec fn values_plan(key: Seq<char>, vals: Seq<Seq<char>>, r: ResolvedListRequirements) -> (ValuesState, Seq<FindingView>) {
    let (s1, f1) = values_after_contains(key, r.contains@, (vals, false));
    let (s2, f2) = values_after_excludes(key, r.excludes@, s1);
    let (s3, f3) = values_after_exact(key, r, s2);
    (s3, f1 + f2 + f3)
}

proof fn lemma_contains_changes(key: Seq<char>, es: Seq<ResolvedListEntry>, st: ValuesState)
    ensures
        st.1 ==> values_after_contains(key, es, st).0.1,
        values_after_contains(key, es, st).1.len() > 0 ==> values_after_contains(key, es, st).0.1,
    decreases es.len(),
{
    if es.len() > 0 {
        lemma_contains_changes(key, es.drop_last(), st);
    }
}

proof fn lemma_excludes_changes(key: Seq<char>, es: Seq<ResolvedListEntry>, st: ValuesState)
    ensures
        st.1 ==> values_after_excludes(key, es, st).0.1,
        values_after_excludes(key, es, st).1.len() > 0 ==> values_after_excludes(key, es, st).0.1,
    decreases es.len(),
{
    if es.len() > 0 {
        lemma_excludes_changes(key, es.drop_last(), st);
    }
}

/// Every finding of reconciling list values comes with a change.
pub proof fn lemma_quiet_when_unchanged(key: Seq<char>, vals: Seq<Seq<char>>, r: ResolvedListRequirements)
    ensures
        !values_plan(key, vals, r).0.1 ==> values_plan(key, vals, r).1 == Seq::<FindingView>::empty(),
{
    let (s1, f1) = values_after_contains(key, r.contains@, (vals, false));
    let (s2, f2) = values_after_excludes(key, r.excludes@, s1);
    let (s3, f3) = values_after_exact(key, r, s2);
    lemma_contains_changes(key, r.contains@, (vals, false));
    lemma_excludes_changes(key, r.excludes@, s1);
    if !s3.1 {
        assert(f1.len() == 0 && f2.len() == 0 && f3.len() == 0);
        assert(f1 + f2 + f3 =~= Seq::<FindingView>::empty());
    }
}

/// What reconciling `toolchain.key` leaves: nothing for an empty
/// requirement; otherwise its strings, sorted without repeats, are
/// reconciled and written sorted when they change; when they do not but the
/// file's list was not canonical, that is reported and the canonical list
/// written.
pub open spec fn tc_list_applied(old: DocumentMut, new: DocumentMut, f0: Seq<FindingView>, f1: Seq<FindingView>, key: Seq<char>, r: ResolvedListRequirements) -> bool {
    let cur = tc_item(old, key);
    let current = array_strings(cur);
    let canonical = sorted_distinct(current);
    let display = "toolchain."@ + key;
    let plan = values_plan(display, canonical, r);
    let path = seq!["toolchain"@, key];
    if spec_resolved_list_is_empty(r) {
        new == old && f1 == f0
    } else if plan.0.1 {
        written(old, new, path, array_write(sorted_distinct(plan.0.0))) && f1 == f0 + plan.1
    } else if canonical != current {
        &&& written(old, new, path, array_write(canonical))
        &&& f1 == f0.push(mismatch(display, shown_text(cur), list_shown(canonical),
            "rust-toolchain.toml lists must be canonical."@, list_policies(r)))
    } else {
        new == old && f1 == f0
    }
}

fn shown_values(vs: &Vec<String>) -> (r: String)
    ensures
        r@ == list_shown(string_views(vs@)),
{
    proof {
        reveal_strlit("[");
        reveal_strlit("]");
    }
    let listed = debug_join(vs);
    join3("[", listed.as_str(), "]")
}

pub fn canonical_of(vs: &Vec<String>) -> (r: Vec<String>)
    ensures
        string_views(r@) == sorted_distinct(string_views(vs@)),
{
    let r = sort_dedup(vs);
    proof {
        let t = sorted_distinct(string_views(vs@));
        assert(crate::text_order::strictly_sorted(t) && forall|x: Seq<char>| t.contains(x) <==> string_views(vs@).contains(x));
        lemma_sorted_same_set_equal(string_views(r@), t);
    }
    r
}

/// Reconciles list values in memory with requirements.
fn reconcile_values(key: &str, values: Vec<String>, r: &ResolvedListRequirements, findings: &mut Vec<Finding>) -> (out: (Vec<String>, bool))
    ensures
        (string_views(out.0@), out.1) == values_plan(key@, string_views(values@), *r).0,
        finding_views(final(findings)@) == finding_views(old(findings)@) + values_plan(key@, string_views(values@), *r).1,
{
    let ghost v0 = string_views(values@);
    let ghost f_start = finding_views(findings@);
    let mut vals = values;
    let mut changed = false;
    let cs = &r.contains;
    let mut i: usize = 0;
    assert(finding_views(findings@) =~= f_start + values_after_contains(key@, cs@.subrange(0, 0), (v0, false)).1);
    while i < cs.len()
        invariant
            i <= cs.len(),
            values_after_contains(key@, cs@.subrange(0, i as int), (v0, false)).0 == (string_views(vals@), changed),
            finding_views(findings@) == f_start + values_after_contains(key@, cs@.subrange(0, i as int), (v0, false)).1,
        decreases cs.len() - i,
    {
        assert(cs@.subrange(0, i + 1).drop_last() =~= cs@.subrange(0, i as int));
        let item = cs[i].value.as_str();
        if !crate::lists::strings_contain(&vals, item) {
            let (msg, attr) = message_and_attribution(&cs[i].collected);
            proof {
                reveal_strlit(".");
                reveal_strlit("list containing ");
            }
            push_mismatch(findings, join3(key, ".", item), Some(shown_values(&vals)), join2("list containing ", item), msg.as_str(), &attr);
            let ghost bv = vals@;
            vals.push(cs[i].value.clone());
            assert(string_views(vals@) =~= string_views(bv).push(cs@[i as int].value@));
            changed = true;
        }
        i = i + 1;
    }
    assert(cs@.subrange(0, cs@.len() as int) =~= cs@);
    let ghost s1 = (string_views(vals@), changed);
    let ghost f1 = finding_views(findings@);
    let es = &r.excludes;
    let mut j: usize = 0;
    assert(finding_views(findings@) =~= f1 + values_after_excludes(key@, es@.subrange(0, 0), s1).1);
    while j < es.len()
        invariant
            j <= es.len(),
            values_after_excludes(key@, es@.subrange(0, j as int), s1).0 == (string_views(vals@), changed),
            finding_views(findings@) == f1 + values_after_excludes(key@, es@.subrange(0, j as int), s1).1,
        decreases es.len() - j,
    {
        assert(es@.subrange(0, j + 1).drop_last() =~= es@.subrange(0, j as int));
        let item = es[j].value.as_str();
        if crate::lists::strings_contain(&vals, item) {
            let (msg, attr) = message_and_attribution(&es[j].collected);
            proof {
                reveal_strlit(".");
                reveal_strlit("list excluding ");
            }
            push_mismatch(findings, join3(key, ".", item), Some(shown_values(&vals)), join2("list excluding ", item), msg.as_str(), &attr);
            vals = without_value(&vals, item);
            changed = true;
        }
        j = j + 1;
    }
    assert(es@.subrange(0, es@.len() as int) =~= es@);
    let ghost f2 = finding_views(findings@);
    match &r.exact {
        Some(exact) => {
            if !crate::lists::same_strings(&vals, &exact.merged) {
                let (emsg, attr) = exact_message_and_attribution(r);
                push_mismatch(findings, owned(key), Some(shown_values(&vals)), shown_values(&exact.merged), emsg.as_str(), &attr);
                vals = crate::lists::clone_strings(&exact.merged);
                changed = true;
            }
        },
        None => {},
    }
    assert(finding_views(findings@) =~= f_start + values_plan(key@, v0, *r).1);
    (vals, changed)
}

fn write_tc_list(doc: &mut DocumentMut, key: &str, values: &Vec<String>)
    requires
        has_tc_table(*old(doc)),
    ensures
        written(*old(doc), *final(doc), seq!["toolchain"@, key@], array_write(string_views(values@))),
{
    proof {
        let path = seq!["toolchain"@, key@];
        assert(way_is_open(*doc, path)) by {
            assert forall|i: int| 1 <= i < path.len() implies match #[trigger] toml_at(*doc, path.subrange(0, i)) {
                Some(v) => v.0 == 5,
                None => true,
            } by {
                assert(path.subrange(0, 1) =~= seq!["toolchain"@]);
            }
        }
    }
    let w = TomlWrite::StrArray(crate::lists::clone_strings(values));
    assert(crate::toml_doc::write_view(w) == array_write(string_views(values@))) by {
        assert(values@.map_values(|x: String| x@) =~= string_views(values@));
    }
    write_table(doc, "toolchain", key, &w);
}

/// Reconciles the list `toolchain.key` with its merged requirements.
pub fn apply_list(doc: &mut DocumentMut, key: &str, requirement: &ResolvedListRequirements, findings: &mut Vec<Finding>)
    requires
        has_tc_table(*old(doc)),
    ensures
        tc_list_applied(*old(doc), *final(doc), finding_views(old(findings)@), finding_views(final(findings)@), key@, *requirement),
{
    if list_is_empty(requirement) {
        return;
    }
    proof {
        reveal_strlit("toolchain.");
        reveal_strlit("rust-toolchain.toml lists must be canonical.");
    }
    let current = read_tc(doc, key);
    let current_values = list_values(&current);
    let values = canonical_of(&current_values);
    let canonical_changed = !crate::lists::same_strings(&values, &current_values);
    let display = join2("toolchain.", key);
    let ghost f0 = finding_views(findings@);
    proof {
        lemma_quiet_when_unchanged(display@, string_views(values@), *requirement);
    }
    let (updated, changed) = reconcile_values(display.as_str(), values, requirement, findings);
    if changed {
        let sorted = canonical_of(&updated);
        write_tc_list(doc, key, &sorted);
    } else if canonical_changed {
        let canonical = canonical_of(&current_values);
        let (_, attribution) = list_message_and_attribution(requirement);
        assert(finding_views(findings@) =~= f0);
        push_mismatch(findings, display, shown_current(&current), shown_values(&canonical),
            "rust-toolchain.toml lists must be canonical.", &attribution);
        write_tc_list(doc, key, &canonical);
    } else {
        assert(finding_views(findings@) =~= f0);
    }
}

} // verus!
