//! Merging the scalar assertions that several policies make of one setting.
//!
//! Assertions agree when they are the same assertion (messages aside); two
//! `AtLeast` (or two `AtMost`) assertions over ordered values also agree, the
//! stricter one winning. Anything else is a `scalar-disagree` conflict.

use vstd::prelude::*;
use crate::deny_confidence::ValueOrder;
use crate::requirements::{Provenance, ScalarAssertion};
use crate::scalar_value::ScalarValue;
use crate::text::owned;

verus! {

/// What several policies required of one setting, merged, with every
/// contribution and the policy it came from.
#[derive(Debug)]
pub struct ResolvedRequirement<M, C> {
    pub merged: M,
    pub collected: Vec<(Provenance, C)>,
}

/// Two policies whose requirements of one key cannot be merged.
#[derive(Debug, PartialEq, Eq)]
pub struct ConflictEntry {
    pub key: String,
    pub reason: String,
    pub contributors: Vec<(Provenance, String)>,
}

/// The texts of a conflict's contributors.
pub open spec fn contributor_views(c: Seq<(Provenance, String)>) -> Seq<(Seq<char>, Seq<char>)> {
    c.map_values(|p: (Provenance, String)| (p.0.policy@, p.1@))
}

/// A conflict seen as text: key, reason and contributors.
pub type ConflictView = (Seq<char>, Seq<char>, Seq<(Seq<char>, Seq<char>)>);

/// The views of a list of conflicts.
pub open spec fn conflict_views(cs: Seq<ConflictEntry>) -> Seq<ConflictView> {
    cs.map_values(|c: ConflictEntry| (c.key@, c.reason@, contributor_views(c.contributors@)))
}

/// Whether `c` is the conflict with this key, reason and contributors.
pub open spec fn conflict_is(
    c: ConflictEntry,
    key: Seq<char>,
    reason: Seq<char>,
    contributors: Seq<(Seq<char>, Seq<char>)>,
) -> bool {
    c.key@ == key && c.reason@ == reason && contributor_views(c.contributors@) == contributors
}

/// Whether `x` is the same as some value of `b`.
pub open spec fn value_among<T: ScalarValue>(x: T, b: Seq<T>) -> bool {
    exists|j: int| 0 <= j < b.len() && x.spec_same(#[trigger] &b[j])
}

/// Whether every value of `a` is the same as some value of `b`.
pub open spec fn values_within<T: ScalarValue>(a: Seq<T>, b: Seq<T>) -> bool {
    forall|i: int| 0 <= i < a.len() ==> value_among(#[trigger] a[i], b)
}

/// Two lists hold the same values, as sets: order and repeats aside.
pub open spec fn same_values<T: ScalarValue>(a: Seq<T>, b: Seq<T>) -> bool {
    values_within(a, b) && values_within(b, a)
}

/// Whether two assertions assert the same thing, messages aside.
pub open spec fn same_assertion<T: ScalarValue>(a: ScalarAssertion<T>, b: ScalarAssertion<T>) -> bool {
    match (a, b) {
        (ScalarAssertion::Equals(x, _), ScalarAssertion::Equals(y, _)) => x.spec_same(&y),
        (ScalarAssertion::OneOf(xs, _), ScalarAssertion::OneOf(ys, _)) => same_values(xs@, ys@),
        (ScalarAssertion::Present(_), ScalarAssertion::Present(_)) => true,
        (ScalarAssertion::Absent(_), ScalarAssertion::Absent(_)) => true,
        (ScalarAssertion::AtLeast(x, _), ScalarAssertion::AtLeast(y, _)) => x.spec_same(&y),
        (ScalarAssertion::AtMost(x, _), ScalarAssertion::AtMost(y, _)) => x.spec_same(&y),
        (ScalarAssertion::Range(x1, x2, _), ScalarAssertion::Range(y1, y2, _)) =>
            x1.spec_same(&y1) && x2.spec_same(&y2),
        _ => false,
    }
}

/// Whether `a` and `b` are the same assertion, message included.
pub open spec fn same_repr<T>(a: ScalarAssertion<T>, b: ScalarAssertion<T>) -> bool {
    match (a, b) {
        (ScalarAssertion::Equals(x, m), ScalarAssertion::Equals(y, n)) => x == y && m@ == n@,
        (ScalarAssertion::OneOf(xs, m), ScalarAssertion::OneOf(ys, n)) => xs@ == ys@ && m@ == n@,
        (ScalarAssertion::Present(m), ScalarAssertion::Present(n)) => m@ == n@,
        (ScalarAssertion::Absent(m), ScalarAssertion::Absent(n)) => m@ == n@,
        (ScalarAssertion::AtLeast(x, m), ScalarAssertion::AtLeast(y, n)) => x == y && m@ == n@,
        (ScalarAssertion::AtMost(x, m), ScalarAssertion::AtMost(y, n)) => x == y && m@ == n@,
        (ScalarAssertion::Range(x1, x2, m), ScalarAssertion::Range(y1, y2, n)) =>
            x1 == y1 && x2 == y2 && m@ == n@,
        _ => false,
    }
}

/// The merge of an accumulated assertion with the next one, if they agree.
pub open spec fn spec_combine<T: ScalarValue>(acc: ScalarAssertion<T>, next: ScalarAssertion<T>) -> Option<ScalarAssertion<T>> {
    match (acc, next) {
        (ScalarAssertion::AtLeast(a, _), ScalarAssertion::AtLeast(b, _)) => match a.spec_order(&b) {
            Some(ValueOrder::Less) => Some(next),
            Some(_) => Some(acc),
            None => if a.spec_same(&b) { Some(acc) } else { None },
        },
        (ScalarAssertion::AtMost(a, _), ScalarAssertion::AtMost(b, _)) => match a.spec_order(&b) {
            Some(ValueOrder::Greater) => Some(next),
            Some(_) => Some(acc),
            None => if a.spec_same(&b) { Some(acc) } else { None },
        },
        _ => if same_assertion(acc, next) { Some(acc) } else { None },
    }
}

/// The merge of every assertion in `items`, in order; `None` when there are
/// none or when two disagree.
pub open spec fn spec_merge_assertions<T: ScalarValue>(items: Seq<(Provenance, ScalarAssertion<T>)>) -> Option<ScalarAssertion<T>>
    decreases items.len(),
{
    if items.len() == 0 {
        None
    } else if items.len() == 1 {
        Some(items[0].1)
    } else {
        match spec_merge_assertions(items.drop_last()) {
            Some(acc) => spec_combine(acc, items.last().1),
            None => None,
        }
    }
}

/// The texts of a list of values, separated by `, `.
pub open spec fn spec_join_rendered<T: ScalarValue>(vs: Seq<T>) -> Seq<char>
    decreases vs.len(),
{
    if vs.len() == 0 {
        seq![]
    } else if vs.len() == 1 {
        vs[0].spec_render()
    } else {
        spec_join_rendered(vs.drop_last()) + ", "@ + vs.last().spec_render()
    }
}

/// The text of an assertion in a conflict.
pub open spec fn spec_render_assertion<T: ScalarValue>(a: ScalarAssertion<T>) -> Seq<char> {
    match a {
        ScalarAssertion::Equals(v, _) => "equals "@ + v.spec_render(),
        ScalarAssertion::OneOf(vs, _) => "one of ["@ + spec_join_rendered(vs@) + "]"@,
        ScalarAssertion::Present(_) => "present"@,
        ScalarAssertion::Absent(_) => "absent"@,
        ScalarAssertion::AtLeast(v, _) => "at least "@ + v.spec_render(),
        ScalarAssertion::AtMost(v, _) => "at most "@ + v.spec_render(),
        ScalarAssertion::Range(lo, hi, _) => "between "@ + lo.spec_render() + " and "@ + hi.spec_render(),
    }
}

/// The contributors of a scalar conflict: each policy with its assertion.
pub open spec fn spec_assertion_contributors<T: ScalarValue>(items: Seq<(Provenance, ScalarAssertion<T>)>) -> Seq<(Seq<char>, Seq<char>)> {
    items.map_values(|p: (Provenance, ScalarAssertion<T>)| (p.0.policy@, spec_render_assertion(p.1)))
}

/// The text of a list of values, separated by `, `.
pub fn join_rendered<T: ScalarValue>(vs: &Vec<T>) -> (r: String)
    ensures
        r@ == spec_join_rendered(vs@),
{
    let mut out = String::new();
    let mut i: usize = 0;
    while i < vs.len()
        invariant
            i <= vs.len(),
            out@ == spec_join_rendered(vs@.subrange(0, i as int)),
        decreases vs.len() - i,
    {
        let piece = vs[i].render();
        if i > 0 {
            out.append(", ");
        }
        out.append(piece.as_str());
        proof {
            let s = vs@.subrange(0, i + 1);
            assert(s.drop_last() =~= vs@.subrange(0, i as int));
            if i == 0 {
                assert(s.len() == 1);
                assert(out@ =~= spec_join_rendered(s));
            }
        }
        i = i + 1;
    }
    assert(vs@.subrange(0, vs@.len() as int) =~= vs@);
    out
}

/// The text of an assertion in a conflict.
pub fn render_assertion<T: ScalarValue>(a: &ScalarAssertion<T>) -> (r: String)
    ensures
        r@ == spec_render_assertion(*a),
{
    match a {
        ScalarAssertion::Equals(v, _) => {
            let mut out = owned("equals ");
            out.append(v.render().as_str());
            out
        },
        ScalarAssertion::OneOf(vs, _) => {
            let mut out = owned("one of [");
            out.append(join_rendered(vs).as_str());
            out.append("]");
            out
        },
        ScalarAssertion::Present(_) => owned("present"),
        ScalarAssertion::Absent(_) => owned("absent"),
        ScalarAssertion::AtLeast(v, _) => {
            let mut out = owned("at least ");
            out.append(v.render().as_str());
            out
        },
        ScalarAssertion::AtMost(v, _) => {
            let mut out = owned("at most ");
            out.append(v.render().as_str());
            out
        },
        ScalarAssertion::Range(lo, hi, _) => {
            let mut out = owned("between ");
            out.append(lo.render().as_str());
            out.append(" and ");
            out.append(hi.render().as_str());
            out
        },
    }
}

fn duplicate_values<T: ScalarValue>(vs: &Vec<T>) -> (r: Vec<T>)
    ensures
        r@ == vs@,
{
    let mut out: Vec<T> = Vec::new();
    let mut i: usize = 0;
    while i < vs.len()
        invariant
            i <= vs.len(),
            out@ == vs@.subrange(0, i as int),
        decreases vs.len() - i,
    {
        out.push(vs[i].duplicate());
        i = i + 1;
        assert(out@ =~= vs@.subrange(0, i as int));
    }
    assert(out@ =~= vs@);
    out
}

/// A copy of an assertion.
pub fn duplicate_assertion<T: ScalarValue>(a: &ScalarAssertion<T>) -> (r: ScalarAssertion<T>)
    ensures
        same_repr(r, *a),
{
    match a {
        ScalarAssertion::Equals(v, m) => ScalarAssertion::Equals(v.duplicate(), m.clone()),
        ScalarAssertion::OneOf(vs, m) => ScalarAssertion::OneOf(duplicate_values(vs), m.clone()),
        ScalarAssertion::Present(m) => ScalarAssertion::Present(m.clone()),
        ScalarAssertion::Absent(m) => ScalarAssertion::Absent(m.clone()),
        ScalarAssertion::AtLeast(v, m) => ScalarAssertion::AtLeast(v.duplicate(), m.clone()),
        ScalarAssertion::AtMost(v, m) => ScalarAssertion::AtMost(v.duplicate(), m.clone()),
        ScalarAssertion::Range(lo, hi, m) => ScalarAssertion::Range(lo.duplicate(), hi.duplicate(), m.clone()),
    }
}

fn value_in<T: ScalarValue>(x: &T, b: &Vec<T>) -> (r: bool)
    ensures
        r == value_among(*x, b@),
{
    let mut j: usize = 0;
    while j < b.len()
        invariant
            j <= b.len(),
            forall|k: int| 0 <= k < j ==> !x.spec_same(#[trigger] &b@[k]),
        decreases b.len() - j,
    {
        if x.same_value(&b[j]) {
            return true;
        }
        j = j + 1;
    }
    false
}

fn values_within_exec<T: ScalarValue>(a: &Vec<T>, b: &Vec<T>) -> (r: bool)
    ensures
        r == values_within(a@, b@),
{
    let mut i: usize = 0;
    while i < a.len()
        invariant
            i <= a.len(),
            forall|k: int| 0 <= k < i ==> value_among(#[trigger] a@[k], b@),
        decreases a.len() - i,
    {
        if !value_in(&a[i], b) {
            assert(!value_among(a@[i as int], b@));
            return false;
        }
        i = i + 1;
    }
    true
}

fn same_values_exec<T: ScalarValue>(a: &Vec<T>, b: &Vec<T>) -> (r: bool)
    ensures
        r == same_values(a@, b@),
{
    values_within_exec(a, b) && values_within_exec(b, a)
}

/// Whether two assertions assert the same thing, messages aside.
pub fn assertions_agree<T: ScalarValue>(a: &ScalarAssertion<T>, b: &ScalarAssertion<T>) -> (r: bool)
    ensures
        r == same_assertion(*a, *b),
{
    match (a, b) {
        (ScalarAssertion::Equals(x, _), ScalarAssertion::Equals(y, _)) => x.same_value(y),
        (ScalarAssertion::OneOf(xs, _), ScalarAssertion::OneOf(ys, _)) => same_values_exec(xs, ys),
        (ScalarAssertion::Present(_), ScalarAssertion::Present(_)) => true,
        (ScalarAssertion::Absent(_), ScalarAssertion::Absent(_)) => true,
        (ScalarAssertion::AtLeast(x, _), ScalarAssertion::AtLeast(y, _)) => x.same_value(y),
        (ScalarAssertion::AtMost(x, _), ScalarAssertion::AtMost(y, _)) => x.same_value(y),
        (ScalarAssertion::Range(x1, x2, _), ScalarAssertion::Range(y1, y2, _)) =>
            x1.same_value(y1) && x2.same_value(y2),
        _ => false,
    }
}

/// Whether the merge of `acc` and `next` keeps `next` (true) or `acc`
/// (false); `None` when they disagree.
fn combine_choice<T: ScalarValue>(acc: &ScalarAssertion<T>, next: &ScalarAssertion<T>) -> (r: Option<bool>)
    ensures
        match spec_combine(*acc, *next) {
            Some(m) => r is Some && (if r->0 { m == *next } else { m == *acc }),
            None => r is None,
        },
{
    match (acc, next) {
        (ScalarAssertion::AtLeast(a, _), ScalarAssertion::AtLeast(b, _)) => match a.compare_for_order(b) {
            Some(ValueOrder::Less) => Some(true),
            Some(_) => Some(false),
            None => if a.same_value(b) { Some(false) } else { None },
        },
        (ScalarAssertion::AtMost(a, _), ScalarAssertion::AtMost(b, _)) => match a.compare_for_order(b) {
            Some(ValueOrder::Greater) => Some(true),
            Some(_) => Some(false),
            None => if a.same_value(b) { Some(false) } else { None },
        },
        _ => if assertions_agree(acc, next) { Some(false) } else { None },
    }
}

/// The contributors of a scalar conflict.
pub fn assertion_contributors<T: ScalarValue>(items: &Vec<(Provenance, ScalarAssertion<T>)>) -> (r: Vec<(Provenance, String)>)
    ensures
        contributor_views(r@) == spec_assertion_contributors(items@),
{
    let mut out: Vec<(Provenance, String)> = Vec::new();
    let mut i: usize = 0;
    while i < items.len()
        invariant
            i <= items.len(),
            contributor_views(out@) == spec_assertion_contributors(items@.subrange(0, i as int)),
        decreases items.len() - i,
    {
        let pair = &items[i];
        let p2 = pair.0.clone();
        let text = render_assertion(&pair.1);
        let ghost before = out@;
        out.push((p2, text));
        proof {
            let s = items@.subrange(0, i + 1);
            assert(s.drop_last() =~= items@.subrange(0, i as int));
            assert(out@.drop_last() =~= before);
            assert(contributor_views(out@).drop_last() =~= contributor_views(before));
            assert(spec_assertion_contributors(s).drop_last() =~= spec_assertion_contributors(items@.subrange(0, i as int)));
            assert(contributor_views(out@).last() == spec_assertion_contributors(s).last());
            lemma_seq_from_parts(contributor_views(out@), spec_assertion_contributors(s));
        }
        i = i + 1;
    }
    assert(items@.subrange(0, items@.len() as int) =~= items@);
    out
}

/// Whether `r` is the merge of the assertions `items`: nothing when there
/// are none or when two disagree; otherwise their merge with every
/// contribution.
pub open spec fn scalar_resolution<T: ScalarValue>(
    r: Option<ResolvedRequirement<ScalarAssertion<T>, ScalarAssertion<T>>>,
    items: Seq<(Provenance, ScalarAssertion<T>)>,
) -> bool {
    match spec_merge_assertions(items) {
        Some(m) => r matches Some(res) && same_repr(res.merged, m) && res.collected@ == items,
        None => r is None,
    }
}

/// The conflict that merging `items` for `key` reports: one
/// `scalar-disagree` naming every contributor when there are assertions and
/// they disagree, none otherwise.
pub open spec fn scalar_conflicts<T: ScalarValue>(key: Seq<char>, items: Seq<(Provenance, ScalarAssertion<T>)>) -> Seq<ConflictView> {
    if items.len() > 0 && spec_merge_assertions(items) is None {
        seq![(key, "scalar-disagree"@, spec_assertion_contributors(items))]
    } else {
        seq![]
    }
}

/// Merges what several policies assert of the setting `key`. With no
/// assertions there is nothing to merge; assertions that agree give their
/// merge together with every contribution; otherwise one `scalar-disagree`
/// conflict naming every contributor is added and nothing is resolved.
pub fn resolve_scalar<T: ScalarValue>(
    key: &str,
    items: Vec<(Provenance, ScalarAssertion<T>)>,
    conflicts: &mut Vec<ConflictEntry>,
) -> (r: Option<ResolvedRequirement<ScalarAssertion<T>, ScalarAssertion<T>>>)
    ensures
        scalar_resolution(r, items@),
        conflict_views(final(conflicts)@) == conflict_views(old(conflicts)@) + scalar_conflicts(key@, items@),
{
    if items.len() == 0 {
        assert(conflict_views(conflicts@) =~= conflict_views(old(conflicts)@) + scalar_conflicts(key@, items@));
        return None;
    }
    let mut best: usize = 0;
    let mut i: usize = 1;
    assert(items@.subrange(0, 1) =~= seq![items@[0]]);
    while i < items.len()
        invariant
            1 <= i <= items.len(),
            best < i,
            conflicts@ == old(conflicts)@,
            spec_merge_assertions(items@.subrange(0, i as int)) == Some(items@[best as int].1),
        decreases items.len() - i,
    {
        let choice = combine_choice(&items[best].1, &items[i].1);
        let ghost prefix = items@.subrange(0, i + 1);
        assert(prefix.drop_last() =~= items@.subrange(0, i as int));
        assert(prefix.last() == items@[i as int]);
        match choice {
            Some(take_next) => {
                if take_next {
                    best = i;
                }
            },
            None => {
                proof {
                    lemma_merge_none_extends(items@, i as int + 1);
                }
                let contributors = assertion_contributors(&items);
                conflicts.push(ConflictEntry {
                    key: owned(key),
                    reason: owned("scalar-disagree"),
                    contributors,
                });
                proof {
                    reveal_strlit("scalar-disagree");
                    assert(conflict_views(conflicts@) =~= conflict_views(old(conflicts)@)
                        + scalar_conflicts(key@, items@));
                }
                return None;
            },
        }
        i = i + 1;
    }
    assert(items@.subrange(0, items@.len() as int) =~= items@);
    assert(conflict_views(conflicts@) =~= conflict_views(old(conflicts)@) + scalar_conflicts(key@, items@));
    let merged = duplicate_assertion(&items[best].1);
    Some(ResolvedRequirement { merged, collected: items })
}

pub proof fn lemma_contributors_push(s: Seq<(Provenance, String)>, x: (Provenance, String))
    ensures
        contributor_views(s.push(x)) == contributor_views(s).push((x.0.policy@, x.1@)),
{
    assert(contributor_views(s.push(x)) =~= contributor_views(s).push((x.0.policy@, x.1@)));
}

pub proof fn lemma_contributors_add(s: Seq<(Provenance, String)>, t: Seq<(Provenance, String)>)
    ensures
        contributor_views(s + t) == contributor_views(s) + contributor_views(t),
{
    assert(contributor_views(s + t) =~= contributor_views(s) + contributor_views(t));
}

/// A prefix one longer is the shorter prefix with the next element pushed.
pub proof fn lemma_prefix_push<A>(s: Seq<A>, i: int)
    requires
        0 <= i < s.len(),
    ensures
        s.subrange(0, i + 1) == s.subrange(0, i).push(s[i]),
{
    assert(s.subrange(0, i + 1) =~= s.subrange(0, i).push(s[i]));
}

/// Two non-empty sequences that agree without their last element, and on it,
/// are equal.
pub proof fn lemma_seq_from_parts<A>(a: Seq<A>, b: Seq<A>)
    requires
        a.len() > 0,
        a.len() == b.len(),
        a.drop_last() == b.drop_last(),
        a.last() == b.last(),
    ensures
        a == b,
{
    assert forall|j: int| 0 <= j < a.len() implies a[j] == b[j] by {
        if j < a.len() - 1 {
            assert(a.drop_last()[j] == a[j]);
            assert(b.drop_last()[j] == b[j]);
        }
    }
    assert(a =~= b);
}

proof fn lemma_merge_none_extends<T: ScalarValue>(items: Seq<(Provenance, ScalarAssertion<T>)>, k: int)
    requires
        1 <= k <= items.len(),
        spec_merge_assertions(items.subrange(0, k)) is None,
    ensures
        spec_merge_assertions(items) is None,
    decreases items.len() - k,
{
    if k < items.len() {
        let next = items.subrange(0, k + 1);
        assert(next.drop_last() =~= items.subrange(0, k));
        lemma_merge_none_extends(items, k + 1);
    } else {
        assert(items.subrange(0, k) =~= items);
    }
}


/// Whether `b` asks for what `a` asks for, in plain terms, for an `a` that
/// is no bound: the same kind, with the same value (the same values, as
/// sets, for `OneOf`; the same two bounds for `Range`).
pub open spec fn asks_the_same<T: ScalarValue>(a: ScalarAssertion<T>, b: ScalarAssertion<T>) -> bool {
    match a {
        ScalarAssertion::Equals(x, _) => b matches ScalarAssertion::Equals(y, _) && x.spec_same(&y),
        ScalarAssertion::OneOf(xs, _) => b matches ScalarAssertion::OneOf(ys, _)
            && (forall|i: int| 0 <= i < xs@.len() ==> value_among(#[trigger] xs@[i], ys@))
            && (forall|j: int| 0 <= j < ys@.len() ==> value_among(#[trigger] ys@[j], xs@)),
        ScalarAssertion::Present(_) => b is Present,
        ScalarAssertion::Absent(_) => b is Absent,
        ScalarAssertion::Range(lo, hi, _) => b matches ScalarAssertion::Range(l2, h2, _) && lo.spec_same(&l2) && hi.spec_same(&h2),
        _ => true,
    }
}

proof fn lemma_merge_keeps_first<T: ScalarValue>(items: Seq<(Provenance, ScalarAssertion<T>)>, n: int)
    requires
        1 <= n <= items.len(),
        !items[0].1.spec_is_ordered(),
        spec_merge_assertions(items.subrange(0, n)) is Some,
    ensures
        spec_merge_assertions(items.subrange(0, n)) == Some(items[0].1),
        forall|k: int| 1 <= k < n ==> asks_the_same(items[0].1, #[trigger] items[k].1),
    decreases n,
{
    let s = items.subrange(0, n);
    if n == 1 {
        assert(s[0] == items[0]);
    } else {
        assert(s.drop_last() =~= items.subrange(0, n - 1));
        assert(s.len() > 1);
        assert(spec_merge_assertions(s) == match spec_merge_assertions(s.drop_last()) {
            Some(acc) => spec_combine(acc, s.last().1),
            None => None,
        });
        assert(spec_merge_assertions(items.subrange(0, n - 1)) is Some);
        lemma_merge_keeps_first(items, n - 1);
        let a = items[0].1;
        let b = items[n - 1].1;
        assert(s.last() == items[n - 1]);
        assert(spec_combine(a, b) is Some);
        assert(same_assertion(a, b));
        assert(asks_the_same(a, b)) by {
            match a {
                ScalarAssertion::OneOf(xs, _) => {
                    let ys = b->OneOf_0;
                    assert(same_values(xs@, ys@));
                },
                _ => {},
            }
        }
        assert forall|k: int| 1 <= k < n implies asks_the_same(items[0].1, #[trigger] items[k].1) by {
            if k == n - 1 {
            }
        }
    }
}

/// Merging the assertions of several policies about one setting, when the
/// first is no bound: the merge succeeds only if every later assertion
/// asks for the same (the same kind and the same value, or set of values,
/// or bounds), and then it is the first assertion; otherwise one
/// `scalar-disagree` conflict naming every contributor is reported and
/// nothing is resolved.
pub proof fn law_unordered_assertions_merge_only_when_alike<T: ScalarValue>(
    key: Seq<char>,
    items: Seq<(Provenance, ScalarAssertion<T>)>,
    r: Option<ResolvedRequirement<ScalarAssertion<T>, ScalarAssertion<T>>>,
)
    requires
        items.len() > 0,
        !items[0].1.spec_is_ordered(),
        scalar_resolution(r, items),
    ensures
        r is Some ==> forall|k: int| 1 <= k < items.len() ==> asks_the_same(items[0].1, #[trigger] items[k].1),
        r is Some ==> same_repr(r->0.merged, items[0].1),
        (exists|k: int| 1 <= k < items.len() && !asks_the_same(items[0].1, #[trigger] items[k].1)) ==> {
            &&& r is None
            &&& scalar_conflicts(key, items).len() == 1
            &&& scalar_conflicts(key, items)[0].0 == key
            &&& scalar_conflicts(key, items)[0].1 == "scalar-disagree"@
        },
{
    assert(items.subrange(0, items.len() as int) =~= items);
    if spec_merge_assertions(items) is Some {
        lemma_merge_keeps_first(items, items.len() as int);
    }
}

} // verus!
