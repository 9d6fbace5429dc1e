//! What holds across the library's operations: a value that reconciling
//! wrote meets what asked for it, a closed table keeps only the keys it
//! allows, reconciled lists meet their requirements, reconciled item arrays
//! hold every required item, list fields with no requirement stay as they
//! are, merged exact lists are sorted sets, and how merging treats a single
//! policy and ordered bounds.

use vstd::prelude::*;
use toml_edit::DocumentMut;
use crate::deny_confidence::ValueOrder;
use crate::findings::FindingView;
use crate::lists::{ResolvedListEntry, ResolvedListRequirements};
use crate::requirements::{ConfigScalar, Provenance, ScalarAssertion};
use crate::rustfmt_model::AssertionView;
use crate::rustfmt_reconcile::{
    ListState, after_contains, after_excludes, after_exact, keys_removed, remove_all_in, remove_value, root_item,
    rewritten, scalar_applied, scalar_finding, scalar_write, spec_scalar_matches,
};
use crate::scalar_merge::{scalar_conflicts, spec_merge_assertions};
use crate::scalar_value::ScalarValue;
use crate::text_order::{chars_lt, lemma_lt_total, lemma_lt_transitive, strictly_sorted, string_views};
use crate::lists::{ListRequirements, exact_items, flat_pairs, list_resolution, sorted_distinct, sorted_exact_items};
use crate::deny_merge::{deny_resolution, col_graph_exclude, col_graph_features, col_advisories_db_urls, col_licenses_allow, col_licenses_private_registries, col_licenses_private_ignore_sources, col_bans_build_script_extensions, col_sources_allow_git, col_sources_private, col_sources_allow_registry, col_sources_allow_org_github, col_sources_allow_org_gitlab, col_sources_allow_org_bitbucket};
use crate::deny_model::DenyTomlRequirements;
use crate::rustfmt_reconcile::{array_strings, lemma_strings_of_all};
use crate::toolchain_lists::{tc_list_applied, values_plan};
use crate::toolchain_fields::{tc_holds, tc_item, tc_scalar_applied};
use crate::deny_fields::deny_scalar_applied;
use crate::deny_scalar_edit::scalar_holds;
use crate::deny_scalars::DenyTomlScalar;
use crate::scalar_merge::ResolvedRequirement;
use crate::toml_doc::{toml_at, toml_keys, way_is_open, write_view};
use crate::deny_entries::DenyArrayItem;
use crate::deny_item_apply::{
    current_entries, duplicate_findings, entry_message, entry_policies, item_held, item_tag, items_applied, lemma_pass_unchanged,
    lemma_required_pass, malformed_findings, required_ok, required_pass,
};
use crate::items::ResolvedItemEntry;
use crate::toml_entries::{cores, entries_state, toml_entries};
use crate::deny_list_fields::deny_lists_applied;
use crate::deny_lists::list_is_empty;
use crate::deny_model::ResolvedDenyTomlRequirements;

verus! {

/// A merged `Equals` or `Absent` assertion holds of the document that
/// applying it left: the value written, or the item removed.
pub proof fn law_applied_scalar_holds(d0: DocumentMut, d1: DocumentMut, key: Seq<char>, m: AssertionView, attribution: Seq<Seq<char>>)
    requires
        scalar_applied(d0, d1, key, m),
        m.0 == 0 && m.1 is Some || m.0 == 3,
    ensures
        scalar_finding(key, root_item(d1, key), m, attribution) is None,
{
    if m.0 == 0 {
        let w = m.1->0;
        if !(root_item(d0, key) matches Some(v) && spec_scalar_matches(v, w)) {
            let v = root_item(d1, key)->0;
            assert(seq![key].drop_last() =~= Seq::<Seq<char>>::empty());
            match w {
                ConfigScalar::Str(s) => assert(write_view(scalar_write(w)) == (0int, s@, 0i64, false, Seq::<Seq<char>>::empty())),
                ConfigScalar::Int(i) => assert(write_view(scalar_write(w)).2 == i),
                ConfigScalar::Bool(b) => assert(write_view(scalar_write(w)).3 == b),
            }
        }
    } else {
        if root_item(d0, key) is Some {
            let k = seq![key];
            assert(k.subrange(0, 1) =~= k);
            assert(crate::toml_doc::path_prefix(k, k));
        }
    }
}

/// Every key of `remove_all_in(ks, remove_all_in(ks, allowed))` is allowed:
/// removing the keys that are not allowed leaves only allowed keys.
pub proof fn lemma_only_allowed_remain(ks: Seq<Seq<char>>, allowed: Seq<Seq<char>>, k: Seq<char>)
    requires
        remove_all_in(ks, remove_all_in(ks, allowed)).contains(k),
    ensures
        allowed.contains(k),
{
    lemma_kept_in(ks, remove_all_in(ks, allowed), k);
    lemma_kept_in(ks, allowed, k);
    if !allowed.contains(k) {
        lemma_missing_gone(ks, allowed, k);
    }
}

/// What `remove_all_in` keeps comes from `vs` and is not in `gone`.
proof fn lemma_kept_in(vs: Seq<Seq<char>>, gone: Seq<Seq<char>>, k: Seq<char>)
    ensures
        remove_all_in(vs, gone).contains(k) ==> vs.contains(k) && !gone.contains(k),
    decreases vs.len(),
{
    if vs.len() > 0 {
        lemma_kept_in(vs.drop_last(), gone, k);
        let prev = remove_all_in(vs.drop_last(), gone);
        if remove_all_in(vs, gone).contains(k) {
            if !gone.contains(vs.last()) && k == vs.last() {
                assert(vs[vs.len() - 1] == k);
            } else {
                assert(prev.contains(k)) by {
                    if !gone.contains(vs.last()) {
                        let j = choose|j: int| 0 <= j < prev.push(vs.last()).len() && prev.push(vs.last())[j] == k;
                        assert(j < prev.len());
                        assert(prev[j] == k);
                    }
                }
                let j = choose|j: int| 0 <= j < vs.drop_last().len() && vs.drop_last()[j] == k;
                assert(vs[j] == k);
            }
        }
    }
}

/// A key of `vs` that `gone` lacks stays.
proof fn lemma_missing_gone(vs: Seq<Seq<char>>, gone: Seq<Seq<char>>, k: Seq<char>)
    requires
        vs.contains(k),
        !gone.contains(k),
    ensures
        remove_all_in(vs, gone).contains(k),
    decreases vs.len(),
{
    let prev = remove_all_in(vs.drop_last(), gone);
    if vs.last() == k {
        assert(prev.push(k)[prev.len() as int] == k);
    } else {
        let j = choose|j: int| 0 <= j < vs.len() && vs[j] == k;
        assert(vs.drop_last()[j] == k);
        lemma_missing_gone(vs.drop_last(), gone, k);
        if !gone.contains(vs.last()) {
            let i = choose|i: int| 0 <= i < prev.len() && prev[i] == k;
            assert(prev.push(vs.last())[i] == k);
        }
    }
}

/// After closing removes the root keys that are not allowed, every root
/// key left is allowed.
pub proof fn law_closing_keeps_only_allowed(old: DocumentMut, new: DocumentMut, allowed: Seq<Seq<char>>, k: Seq<char>)
    requires
        toml_keys(old, seq![]) is Some,
        keys_removed(old, new, remove_all_in(toml_keys(old, seq![])->0, allowed)),
        toml_keys(new, seq![])->0.contains(k),
    ensures
        allowed.contains(k),
{
    lemma_only_allowed_remain(toml_keys(old, seq![])->0, allowed, k);
}

/// A single policy's assertion merges into itself, with no conflict.
pub proof fn law_single_assertion_merges<T: ScalarValue>(key: Seq<char>, p: Provenance, a: ScalarAssertion<T>)
    ensures
        spec_merge_assertions(seq![(p, a)]) == Some(a),
        scalar_conflicts(key, seq![(p, a)]) == Seq::<crate::scalar_merge::ConflictView>::empty(),
{
}

/// Two lower bounds of an ordered kind merge into the stricter one.
pub proof fn law_lower_bounds_merge_to_stricter<T: ScalarValue>(p: Provenance, a: T, m: String, q: Provenance, b: T, n: String)
    requires
        a.spec_order(&b) is Some,
    ensures
        spec_merge_assertions(seq![(p, ScalarAssertion::AtLeast(a, m)), (q, ScalarAssertion::AtLeast(b, n))])
            == Some(if a.spec_order(&b) == Some(ValueOrder::Less) { ScalarAssertion::AtLeast(b, n) } else { ScalarAssertion::AtLeast(a, m) }),
{
    let items = seq![(p, ScalarAssertion::AtLeast(a, m)), (q, ScalarAssertion::AtLeast(b, n))];
    assert(items.drop_last() =~= seq![(p, ScalarAssertion::AtLeast(a, m))]);
    assert(spec_merge_assertions(items.drop_last()) == Some(ScalarAssertion::AtLeast(a, m)));
    assert(items.last().1 == ScalarAssertion::AtLeast(b, n));
    assert(items.len() == 2);
}

/// Two upper bounds of an ordered kind merge into the stricter one.
pub proof fn law_upper_bounds_merge_to_stricter<T: ScalarValue>(p: Provenance, a: T, m: String, q: Provenance, b: T, n: String)
    requires
        a.spec_order(&b) is Some,
    ensures
        spec_merge_assertions(seq![(p, ScalarAssertion::AtMost(a, m)), (q, ScalarAssertion::AtMost(b, n))])
            == Some(if a.spec_order(&b) == Some(ValueOrder::Greater) { ScalarAssertion::AtMost(b, n) } else { ScalarAssertion::AtMost(a, m) }),
{
    let items = seq![(p, ScalarAssertion::AtMost(a, m)), (q, ScalarAssertion::AtMost(b, n))];
    assert(items.drop_last() =~= seq![(p, ScalarAssertion::AtMost(a, m))]);
    assert(spec_merge_assertions(items.drop_last()) == Some(ScalarAssertion::AtMost(a, m)));
    assert(items.last().1 == ScalarAssertion::AtMost(b, n));
    assert(items.len() == 2);
}

/// `remove_value(s, v)` holds no `v`, and every other value of `s`.
proof fn lemma_remove_value(s: Seq<Seq<char>>, v: Seq<char>, x: Seq<char>)
    ensures
        !remove_value(s, v).contains(v),
        x != v ==> (remove_value(s, v).contains(x) <==> s.contains(x)),
    decreases s.len(),
{
    if s.len() > 0 {
        lemma_remove_value(s.drop_last(), v, x);
        let prev = remove_value(s.drop_last(), v);
        if s.last() != v {
            assert(prev.push(s.last()).drop_last() =~= prev);
            if prev.push(s.last()).contains(v) {
                let j = choose|j: int| 0 <= j < prev.push(s.last()).len() && prev.push(s.last())[j] == v;
                assert(j < prev.len());
                assert(prev[j] == v);
            }
            if x != v {
                if prev.push(s.last()).contains(x) && x != s.last() {
                    let j = choose|j: int| 0 <= j < prev.push(s.last()).len() && prev.push(s.last())[j] == x;
                    assert(prev[j] == x);
                }
                if prev.contains(x) {
                    let j = choose|j: int| 0 <= j < prev.len() && prev[j] == x;
                    assert(prev.push(s.last())[j] == x);
                }
                if x == s.last() {
                    assert(prev.push(s.last())[prev.len() as int] == x);
                    assert(s[s.len() - 1] == x);
                }
                if s.contains(x) && x != s.last() {
                    let j = choose|j: int| 0 <= j < s.len() && s[j] == x;
                    assert(s.drop_last()[j] == x);
                }
                if s.drop_last().contains(x) {
                    let j = choose|j: int| 0 <= j < s.drop_last().len() && s.drop_last()[j] == x;
                    assert(s[j] == x);
                }
            }
        } else if x != v {
            if s.contains(x) {
                let j = choose|j: int| 0 <= j < s.len() && s[j] == x;
                assert(j < s.len() - 1);
                assert(s.drop_last()[j] == x);
            }
            if s.drop_last().contains(x) {
                let j = choose|j: int| 0 <= j < s.drop_last().len() && s.drop_last()[j] == x;
                assert(s[j] == x);
            }
        }
    }
}

/// The values of entries.
pub open spec fn values_of(es: Seq<ResolvedListEntry>) -> Seq<Seq<char>> {
    es.map_values(|e: ResolvedListEntry| e.value@)
}

/// Adding contained values keeps what was there and ends holding each of
/// them.
proof fn lemma_after_contains_holds(key: Seq<char>, es: Seq<ResolvedListEntry>, st: ListState, x: Seq<char>)
    ensures
        st.0.contains(x) ==> after_contains(key, es, st).0.0.contains(x),
        values_of(es).contains(x) ==> after_contains(key, es, st).0.0.contains(x),
    decreases es.len(),
{
    if es.len() > 0 {
        lemma_after_contains_holds(key, es.drop_last(), st, x);
        let s1 = after_contains(key, es.drop_last(), st).0;
        let v = es.last().value@;
        if !s1.0.contains(v) {
            if s1.0.contains(x) {
                let j = choose|j: int| 0 <= j < s1.0.len() && s1.0[j] == x;
                assert(s1.0.push(v)[j] == x);
            }
            assert(s1.0.push(v)[s1.0.len() as int] == v);
        }
        if values_of(es).contains(x) && x != v {
            let j = choose|j: int| 0 <= j < values_of(es).len() && values_of(es)[j] == x;
            assert(values_of(es.drop_last())[j] == x);
        }
    }
}

/// Removing excluded values ends holding none of them, and keeps every
/// other value that was there.
proof fn lemma_after_excludes_holds(key: Seq<char>, es: Seq<ResolvedListEntry>, st: ListState, x: Seq<char>)
    ensures
        values_of(es).contains(x) ==> !after_excludes(key, es, st).0.0.contains(x),
        !values_of(es).contains(x) ==> (after_excludes(key, es, st).0.0.contains(x) <==> st.0.contains(x)),
    decreases es.len(),
{
    if es.len() > 0 {
        lemma_after_excludes_holds(key, es.drop_last(), st, x);
        let s1 = after_excludes(key, es.drop_last(), st).0;
        let v = es.last().value@;
        lemma_remove_value(s1.0, v, x);
        if x == v {
            assert(values_of(es)[es.len() - 1] == x);
        }
        if values_of(es).contains(x) && x != v {
            let j = choose|j: int| 0 <= j < values_of(es).len() && values_of(es)[j] == x;
            assert(values_of(es.drop_last())[j] == x);
        }
        if values_of(es.drop_last()).contains(x) {
            let j = choose|j: int| 0 <= j < values_of(es.drop_last()).len() && values_of(es.drop_last())[j] == x;
            assert(values_of(es)[j] == x);
        }
    }
}

/// The list that reconciling ends with meets its requirements: the exact
/// values when there are exact values; otherwise no excluded value, and
/// every contained value that is not also excluded.
pub proof fn law_reconciled_list_meets_requirements(key: Seq<char>, r: ResolvedListRequirements, s0: ListState, x: Seq<char>)
    ensures
        ({
            let s1 = after_contains(key, r.contains@, s0).0;
            let s2 = after_excludes(key, r.excludes@, s1).0;
            let s3 = after_exact(key, r, s2).0;
            match r.exact {
                Some(e) => s3.0 == string_views(e.merged@),
                None => {
                    &&& values_of(r.excludes@).contains(x) ==> !s3.0.contains(x)
                    &&& values_of(r.contains@).contains(x) && !values_of(r.excludes@).contains(x) ==> s3.0.contains(x)
                },
            }
        }),
{
    let s1 = after_contains(key, r.contains@, s0).0;
    lemma_after_contains_holds(key, r.contains@, s0, x);
    lemma_after_excludes_holds(key, r.excludes@, s1, x);
}

/// A required `deny.toml` value that reconciling wrote meets the `Equals`
/// that asked for it, for every value whose written form reads back as the
/// value: always for booleans, lint levels and the other named values,
/// texts and durations; for integers within the TOML range; for a threshold
/// when the decimal `toml_edit` renders for it reads back as it.
pub proof fn law_deny_written_value_holds<T: DenyTomlScalar>(
    old: DocumentMut,
    new: DocumentMut,
    f0: Seq<FindingView>,
    f1: Seq<FindingView>,
    path: Seq<Seq<char>>,
    table_key: Seq<char>,
    display_key: Seq<char>,
    r: Option<ResolvedRequirement<ScalarAssertion<T>, ScalarAssertion<T>>>,
)
    requires
        deny_scalar_applied(old, new, f0, f1, path, table_key, display_key, r),
        r matches Some(res) && res.merged matches ScalarAssertion::Equals(w, _) && w.spec_round_trips(),
        way_is_open(old, path),
        path.len() > 0,
    ensures
        scalar_holds(toml_at(new, path), r->0.merged),
{
    let res = r->0;
    let w = res.merged->Equals_0;
    if !scalar_holds(toml_at(old, path), res.merged) {
        let v = toml_at(new, path)->0;
        w.lemma_written_reads_back(v);
    }
}

/// A required `[toolchain]` value that reconciling wrote meets the
/// `Equals` that asked for it, and a removed one meets its `Absent`.
pub proof fn law_toolchain_written_value_holds<T: ScalarValue>(
    old: DocumentMut,
    new: DocumentMut,
    f0: Seq<FindingView>,
    f1: Seq<FindingView>,
    key: Seq<char>,
    a: ScalarAssertion<T>,
    attribution: Seq<Seq<char>>,
)
    requires
        tc_scalar_applied(old, new, f0, f1, key, a, attribution),
        a is Equals || a is Absent,
    ensures
        tc_holds(tc_item(new, key), a),
{
    let p = seq!["toolchain"@, key];
    if !tc_holds(tc_item(old, key), a) {
        if a is Absent {
            assert(p.subrange(0, 2) =~= p);
            assert(crate::toml_doc::path_prefix(p, p));
        }
    }
}

/// `t` with `x` put in its sorted place, unless it is there.
pub open spec fn insert_text(t: Seq<Seq<char>>, x: Seq<char>) -> Seq<Seq<char>>
    decreases t.len(),
{
    if t.len() == 0 {
        seq![x]
    } else if x == t[0] {
        t
    } else if chars_lt(x, t[0]) {
        seq![x] + t
    } else {
        seq![t[0]] + insert_text(t.drop_first(), x)
    }
}

proof fn lemma_insert_text(t: Seq<Seq<char>>, x: Seq<char>)
    requires
        strictly_sorted(t),
    ensures
        strictly_sorted(insert_text(t, x)),
        forall|y: Seq<char>| #[trigger] insert_text(t, x).contains(y) <==> (t.contains(y) || y == x),
    decreases t.len(),
{
    let r = insert_text(t, x);
    if t.len() == 0 {
        assert(r =~= seq![x]);
        assert forall|y: Seq<char>| r.contains(y) <==> (t.contains(y) || y == x) by {
            if r.contains(y) {
                let k = choose|k: int| 0 <= k < r.len() && r[k] == y;
                assert(k == 0);
            }
            if y == x {
                assert(r[0] == y);
            }
        }
    } else if x == t[0] {
        assert forall|y: Seq<char>| r.contains(y) <==> (t.contains(y) || y == x) by {
            if y == x {
                assert(t[0] == y);
            }
        }
    } else if chars_lt(x, t[0]) {
        assert forall|i: int, j: int| 0 <= i < j < r.len() implies chars_lt(#[trigger] r[i], #[trigger] r[j]) by {
            if i == 0 {
                if j > 1 {
                    assert(chars_lt(t[0], t[j - 1]));
                    lemma_lt_transitive(x, t[0], t[j - 1]);
                }
            } else {
                assert(r[i] == t[i - 1] && r[j] == t[j - 1]);
            }
        }
        assert forall|y: Seq<char>| r.contains(y) <==> (t.contains(y) || y == x) by {
            if r.contains(y) {
                let k = choose|k: int| 0 <= k < r.len() && r[k] == y;
                if k > 0 {
                    assert(t[k - 1] == y);
                }
            }
            if t.contains(y) {
                let k = choose|k: int| 0 <= k < t.len() && t[k] == y;
                assert(r[k + 1] == y);
            }
            if y == x {
                assert(r[0] == y);
            }
        }
    } else {
        let rest = t.drop_first();
        assert forall|i: int, j: int| 0 <= i < j < rest.len() implies chars_lt(#[trigger] rest[i], #[trigger] rest[j]) by {
            assert(rest[i] == t[i + 1] && rest[j] == t[j + 1]);
        }
        lemma_insert_text(rest, x);
        let ir = insert_text(rest, x);
        assert(r =~= seq![t[0]] + ir);
        lemma_lt_total(x, t[0]);
        assert forall|y: Seq<char>| ir.contains(y) implies chars_lt(t[0], y) by {
            if rest.contains(y) {
                let k = choose|k: int| 0 <= k < rest.len() && rest[k] == y;
                assert(chars_lt(t[0], t[k + 1]));
            }
        }
        assert forall|i: int, j: int| 0 <= i < j < r.len() implies chars_lt(#[trigger] r[i], #[trigger] r[j]) by {
            if i == 0 {
                assert(r[j] == ir[j - 1]);
                assert(ir.contains(ir[j - 1]));
            } else {
                assert(r[i] == ir[i - 1] && r[j] == ir[j - 1]);
            }
        }
        assert forall|y: Seq<char>| r.contains(y) <==> (t.contains(y) || y == x) by {
            if r.contains(y) {
                let k = choose|k: int| 0 <= k < r.len() && r[k] == y;
                if k == 0 {
                    assert(t[0] == y);
                } else {
                    assert(ir[k - 1] == y);
                    assert(ir.contains(y));
                    if rest.contains(y) {
                        let m = choose|m: int| 0 <= m < rest.len() && rest[m] == y;
                        assert(t[m + 1] == y);
                    }
                }
            }
            if t.contains(y) {
                let k = choose|k: int| 0 <= k < t.len() && t[k] == y;
                if k == 0 {
                    assert(r[0] == y);
                } else {
                    assert(rest[k - 1] == y);
                    assert(rest.contains(y));
                    assert(ir.contains(y));
                    let m = choose|m: int| 0 <= m < ir.len() && ir[m] == y;
                    assert(r[m + 1] == y);
                }
            }
            if y == x {
                assert(ir.contains(y));
                let m = choose|m: int| 0 <= m < ir.len() && ir[m] == y;
                assert(r[m + 1] == y);
            }
        }
    }
}

/// Every list of texts has a sorted form without repeats.
pub open spec fn sorted_texts_of(vs: Seq<Seq<char>>) -> Seq<Seq<char>>
    decreases vs.len(),
{
    if vs.len() == 0 {
        seq![]
    } else {
        insert_text(sorted_texts_of(vs.drop_last()), vs.last())
    }
}

proof fn lemma_sorted_texts_of(vs: Seq<Seq<char>>)
    ensures
        strictly_sorted(sorted_texts_of(vs)),
        forall|y: Seq<char>| sorted_texts_of(vs).contains(y) <==> vs.contains(y),
    decreases vs.len(),
{
    if vs.len() > 0 {
        lemma_sorted_texts_of(vs.drop_last());
        lemma_insert_text(sorted_texts_of(vs.drop_last()), vs.last());
        assert forall|y: Seq<char>| sorted_texts_of(vs).contains(y) <==> vs.contains(y) by {
            if vs.drop_last().contains(y) {
                let k = choose|k: int| 0 <= k < vs.drop_last().len() && vs.drop_last()[k] == y;
                assert(vs[k] == y);
            }
            if vs.contains(y) && y != vs.last() {
                let k = choose|k: int| 0 <= k < vs.len() && vs[k] == y;
                assert(vs.drop_last()[k] == y);
            }
            if y == vs.last() {
                assert(vs[vs.len() - 1] == y);
            }
        }
    }
}

/// The sorted form of a list of texts is strictly sorted and holds the
/// same texts.
pub proof fn lemma_sorted_distinct(vs: Seq<Seq<char>>)
    ensures
        strictly_sorted(sorted_distinct(vs)),
        forall|y: Seq<char>| sorted_distinct(vs).contains(y) <==> vs.contains(y),
{
    lemma_sorted_texts_of(vs);
    let w = sorted_texts_of(vs);
    assert(strictly_sorted(w) && forall|y: Seq<char>| w.contains(y) <==> vs.contains(y));
}

/// After reconciling a `[toolchain]` list that something is required of,
/// the list the table holds is sorted without repeats.
pub proof fn law_toolchain_lists_are_canonical(
    old: DocumentMut,
    new: DocumentMut,
    f0: Seq<FindingView>,
    f1: Seq<FindingView>,
    key: Seq<char>,
    r: ResolvedListRequirements,
)
    requires
        tc_list_applied(old, new, f0, f1, key, r),
        !crate::lists::spec_resolved_list_is_empty(r),
    ensures
        strictly_sorted(array_strings(tc_item(new, key))),
{
    let cur = tc_item(old, key);
    let current = array_strings(cur);
    let canonical = sorted_distinct(current);
    let plan = values_plan("toolchain."@ + key, canonical, r);
    lemma_sorted_distinct(current);
    if plan.0.1 {
        let vs = sorted_distinct(plan.0.0);
        lemma_sorted_distinct(plan.0.0);
        lemma_strings_of_all(vs);
        assert(seq!["toolchain"@, key].drop_last() =~= seq!["toolchain"@]);
    } else if canonical != current {
        lemma_strings_of_all(canonical);
    }
}

/// After reconciling an array setting of `deny.toml` that items are
/// required of, the setting is an array (or array of tables), and the first
/// entry of each required item's identity reads as an item that satisfies
/// it, in canonical form. This holds of required items that are valid (as
/// every item the library makes is) and of distinct identities (as merged
/// requirements are), whenever the way to the setting is open.
#[verifier::rlimit(30)]
pub proof fn law_required_items_hold<T: DenyArrayItem>(
    old: DocumentMut,
    new: DocumentMut,
    f0: Seq<FindingView>,
    f1: Seq<FindingView>,
    path: Seq<Seq<char>>,
    table_key: Seq<char>,
    key: Seq<char>,
    rs: Seq<ResolvedItemEntry<T>>,
)
    requires
        items_applied::<T>(old, new, f0, f1, path, table_key, key, rs),
        way_is_open(old, path),
        rs.len() > 0,
        required_ok::<T>(rs),
    ensures
        toml_at(new, path) matches Some(v) && v.0 == item_tag::<T>(),
        forall|i: int| 0 <= i < rs.len() ==> item_held::<T>(cores(toml_entries(new, path)), #[trigger] rs[i].merged@),
{
    let es = current_entries::<T>(old, path);
    let fresh = !(toml_at(old, path) matches Some(t) && t.0 == item_tag::<T>());
    lemma_required_pass::<T>(key, es, rs, rs.len(), fresh);
    let pass = required_pass::<T>(key, es, rs, rs.len(), (cores(es), fresh));
    if pass.0.1 {
        assert(entries_state(new, path, item_tag::<T>(), pass.0.0));
    } else {
        assert(new == old);
        assert(!fresh);
        assert(es == toml_entries(old, path));
    }
}

/// Reconciling an array setting of `deny.toml` that already holds every
/// required item, at the first entry of its identity and in canonical form,
/// leaves the document as it was; what it reports is only the entries that
/// cannot be read and the identities held more than once.
pub proof fn law_held_items_unchanged<T: DenyArrayItem>(
    old: DocumentMut,
    new: DocumentMut,
    f0: Seq<FindingView>,
    f1: Seq<FindingView>,
    path: Seq<Seq<char>>,
    table_key: Seq<char>,
    key: Seq<char>,
    rs: Seq<ResolvedItemEntry<T>>,
)
    requires
        items_applied::<T>(old, new, f0, f1, path, table_key, key, rs),
        way_is_open(old, path),
        rs.len() > 0,
        toml_at(old, path) matches Some(v) && v.0 == item_tag::<T>(),
        forall|i: int| 0 <= i < rs.len() ==> item_held::<T>(cores(toml_entries(old, path)), #[trigger] rs[i].merged@),
    ensures
        new == old,
        f1 == f0 + malformed_findings::<T>(key, toml_entries(old, path), toml_entries(old, path).len(), entry_message(rs[0]), entry_policies(rs[0]))
            + duplicate_findings::<T>(key, toml_entries(old, path), toml_entries(old, path).len()),
{
    let es = toml_entries(old, path);
    assert(current_entries::<T>(old, path) == es);
    lemma_pass_unchanged::<T>(key, es, rs, rs.len());
    let f = f0 + malformed_findings::<T>(key, es, es.len(), entry_message(rs[0]), entry_policies(rs[0]))
        + duplicate_findings::<T>(key, es, es.len());
    assert(f + Seq::<FindingView>::empty() =~= f);
}


/// Whether none of `deny.toml`'s list fields has a requirement.
pub open spec fn deny_lists_unrequired(r: ResolvedDenyTomlRequirements) -> bool {
    &&& list_is_empty(r.graph_exclude)
    &&& list_is_empty(r.graph_features)
    &&& list_is_empty(r.advisories_db_urls)
    &&& list_is_empty(r.licenses_allow)
    &&& list_is_empty(r.licenses_private_registries)
    &&& list_is_empty(r.licenses_private_ignore_sources)
    &&& list_is_empty(r.bans_build_script_extensions)
    &&& list_is_empty(r.sources_allow_git)
    &&& list_is_empty(r.sources_private)
    &&& list_is_empty(r.sources_allow_registry)
    &&& list_is_empty(r.sources_allow_org_github)
    &&& list_is_empty(r.sources_allow_org_gitlab)
    &&& list_is_empty(r.sources_allow_org_bitbucket)
}

/// When no list field of `deny.toml` has a requirement, applying the list
/// requirements leaves the document and the findings as they were.
pub proof fn law_unrequired_deny_lists_change_nothing(ds: Seq<DocumentMut>, fs: Seq<Seq<FindingView>>, r: ResolvedDenyTomlRequirements)
    requires
        deny_lists_applied(ds, fs, r),
        deny_lists_unrequired(r),
    ensures
        ds.last() == ds[0],
        fs.last() == fs[0],
{
}


/// The values of a list requirement's exact list (none when it has none).
pub open spec fn exact_values(l: ListRequirements) -> Seq<Seq<char>> {
    match l.exact {
        Some(e) => string_views(e.0@),
        None => seq![],
    }
}

/// The message of a list requirement's exact list.
pub open spec fn exact_message(l: ListRequirements) -> Seq<char> {
    match l.exact {
        Some(e) => e.1@,
        None => seq![],
    }
}

/// Whether two lists hold the same texts.
pub open spec fn same_texts(a: Seq<Seq<char>>, b: Seq<Seq<char>>) -> bool {
    forall|x: Seq<char>| a.contains(x) <==> b.contains(x)
}

/// Whether a merged list's exact values, when there are any, are sorted
/// without repeats and hold the same texts as every policy's exact list.
pub open spec fn exact_list_canonical(r: ResolvedListRequirements, items: Seq<(Provenance, ListRequirements)>) -> bool {
    r.exact matches Some(e) ==> {
        &&& strictly_sorted(string_views(e.merged@))
        &&& forall|k: int| 0 <= k < items.len() && (#[trigger] items[k]).1.exact is Some
            ==> same_texts(string_views(e.merged@), exact_values(items[k].1))
    }
}

proof fn lemma_exact_item_of(items: Seq<(Provenance, ListRequirements)>, k: int)
    requires
        0 <= k < items.len(),
        items[k].1.exact is Some,
    ensures
        exact_items(items).contains((items[k].0.policy@, exact_values(items[k].1), exact_message(items[k].1))),
    decreases items.len(),
{
    let e = (items[k].0.policy@, exact_values(items[k].1), exact_message(items[k].1));
    let prev = exact_items(items.drop_last());
    if k == items.len() - 1 {
        assert(exact_items(items) == prev.push(e));
        assert(exact_items(items)[prev.len() as int] == e);
    } else {
        assert(items.drop_last()[k] == items[k]);
        lemma_exact_item_of(items.drop_last(), k);
        let i = choose|i: int| 0 <= i < prev.len() && prev[i] == e;
        let cur = exact_items(items);
        assert(cur[i] == prev[i]);
    }
}

/// Merging list requirements gives an exact list, when it gives one, that
/// is sorted without repeats and holds the same values as each policy's
/// exact list.
pub proof fn law_merged_exact_list_is_canonical(items: Seq<(Provenance, ListRequirements)>, r: ResolvedListRequirements)
    requires
        list_resolution(r, flat_pairs(items, false), flat_pairs(items, true), sorted_exact_items(items)),
    ensures
        exact_list_canonical(r, items),
{
    let ex = sorted_exact_items(items);
    if r.exact is Some {
        let e = r.exact->0;
        assert(ex.len() > 0);
        assert(string_views(e.merged@) == ex[0].1);
        let raw = exact_items(items);
        assert(ex[0].1 == sorted_distinct(raw[0].1));
        lemma_sorted_distinct(raw[0].1);
        assert forall|k: int| 0 <= k < items.len() && (#[trigger] items[k]).1.exact is Some
            implies same_texts(string_views(e.merged@), exact_values(items[k].1)) by {
            lemma_exact_item_of(items, k);
            let t = (items[k].0.policy@, exact_values(items[k].1), exact_message(items[k].1));
            let i = choose|i: int| 0 <= i < raw.len() && raw[i] == t;
            assert(ex[i].1 == sorted_distinct(raw[i].1));
            assert(ex[i].1 == ex[0].1);
            lemma_sorted_distinct(raw[i].1);
        }
    }
}

/// Every list field of a merged `deny.toml` requirement has an exact list,
/// when it has one, that is sorted without repeats and holds the same
/// values as each policy's exact list for that field.
pub proof fn law_deny_exact_lists_are_canonical(reqs: Seq<(Provenance, DenyTomlRequirements)>, r: ResolvedDenyTomlRequirements)
    requires
        deny_resolution(r, reqs),
    ensures
        exact_list_canonical(r.graph_exclude, col_graph_exclude(reqs)),
        exact_list_canonical(r.graph_features, col_graph_features(reqs)),
        exact_list_canonical(r.advisories_db_urls, col_advisories_db_urls(reqs)),
        exact_list_canonical(r.licenses_allow, col_licenses_allow(reqs)),
        exact_list_canonical(r.licenses_private_registries, col_licenses_private_registries(reqs)),
        exact_list_canonical(r.licenses_private_ignore_sources, col_licenses_private_ignore_sources(reqs)),
        exact_list_canonical(r.bans_build_script_extensions, col_bans_build_script_extensions(reqs)),
        exact_list_canonical(r.sources_allow_git, col_sources_allow_git(reqs)),
        exact_list_canonical(r.sources_private, col_sources_private(reqs)),
        exact_list_canonical(r.sources_allow_registry, col_sources_allow_registry(reqs)),
        exact_list_canonical(r.sources_allow_org_github, col_sources_allow_org_github(reqs)),
        exact_list_canonical(r.sources_allow_org_gitlab, col_sources_allow_org_gitlab(reqs)),
        exact_list_canonical(r.sources_allow_org_bitbucket, col_sources_allow_org_bitbucket(reqs)),
{
    law_merged_exact_list_is_canonical(col_graph_exclude(reqs), r.graph_exclude);
    law_merged_exact_list_is_canonical(col_graph_features(reqs), r.graph_features);
    law_merged_exact_list_is_canonical(col_advisories_db_urls(reqs), r.advisories_db_urls);
    law_merged_exact_list_is_canonical(col_licenses_allow(reqs), r.licenses_allow);
    law_merged_exact_list_is_canonical(col_licenses_private_registries(reqs), r.licenses_private_registries);
    law_merged_exact_list_is_canonical(col_licenses_private_ignore_sources(reqs), r.licenses_private_ignore_sources);
    law_merged_exact_list_is_canonical(col_bans_build_script_extensions(reqs), r.bans_build_script_extensions);
    law_merged_exact_list_is_canonical(col_sources_allow_git(reqs), r.sources_allow_git);
    law_merged_exact_list_is_canonical(col_sources_private(reqs), r.sources_private);
    law_merged_exact_list_is_canonical(col_sources_allow_registry(reqs), r.sources_allow_registry);
    law_merged_exact_list_is_canonical(col_sources_allow_org_github(reqs), r.sources_allow_org_github);
    law_merged_exact_list_is_canonical(col_sources_allow_org_gitlab(reqs), r.sources_allow_org_gitlab);
    law_merged_exact_list_is_canonical(col_sources_allow_org_bitbucket(reqs), r.sources_allow_org_bitbucket);
}

} // verus!
