//! List requirements (values a list must contain, must not contain, or must
//! equal) and how the requirements of several policies merge.

use vstd::prelude::*;
use crate::requirements::Provenance;
use crate::scalar_merge::{ConflictEntry, ConflictView, ResolvedRequirement, contributor_views, conflict_is, conflict_views, lemma_seq_from_parts};
use crate::text::{owned, join3, str_eq};
use crate::text_order::{strictly_sorted, string_views, sort_dedup, lemma_sorted_same_set_equal};

verus! {

/// What one policy requires of a list setting: values it must contain, values
/// it must not contain, and optionally the exact values, each with a message.
#[derive(Debug)]
pub struct ListRequirements {
    pub contains: Vec<(String, String)>,
    pub excludes: Vec<(String, String)>,
    pub exact: Option<(Vec<String>, String)>,
}

impl Default for ListRequirements {
    fn default() -> (r: Self)
        ensures
            r.contains@.len() == 0,
            r.excludes@.len() == 0,
            r.exact is None,
    {
        ListRequirements { contains: Vec::new(), excludes: Vec::new(), exact: None }
    }
}

/// Whether a list requirement asks nothing.
pub open spec fn spec_list_is_empty(l: ListRequirements) -> bool {
    l.contains@.len() == 0 && l.excludes@.len() == 0 && l.exact is None
}

fn clone_pairs(pairs: &Vec<(String, String)>) -> (r: Vec<(String, String)>)
    ensures
        r@ == pairs@,
{
    let mut out: Vec<(String, String)> = Vec::new();
    let mut i: usize = 0;
    while i < pairs.len()
        invariant
            i <= pairs.len(),
            out@ == pairs@.subrange(0, i as int),
        decreases pairs.len() - i,
    {
        let p = &pairs[i];
        out.push((p.0.clone(), p.1.clone()));
        i = i + 1;
        assert(out@ =~= pairs@.subrange(0, i as int));
    }
    assert(out@ =~= pairs@);
    out
}

/// A copy of a list of strings.
pub fn clone_strings(v: &Vec<String>) -> (r: Vec<String>)
    ensures
        r@ == v@,
{
    let mut out: Vec<String> = Vec::new();
    let mut i: usize = 0;
    while i < v.len()
        invariant
            i <= v.len(),
            out@ == v@.subrange(0, i as int),
        decreases v.len() - i,
    {
        out.push(v[i].clone());
        i = i + 1;
        assert(out@ =~= v@.subrange(0, i as int));
    }
    assert(out@ =~= v@);
    out
}

impl Clone for ListRequirements {
    fn clone(&self) -> (r: Self)
        ensures
            r.contains@ == self.contains@,
            r.excludes@ == self.excludes@,
            match (r.exact, self.exact) {
                (Some((a, m)), Some((b, n))) => a@ == b@ && m == n,
                (None, None) => true,
                _ => false,
            },
    {
        ListRequirements {
            contains: clone_pairs(&self.contains),
            excludes: clone_pairs(&self.excludes),
            exact: match &self.exact {
                Some((vals, msg)) => Some((clone_strings(vals), msg.clone())),
                None => None,
            },
        }
    }
}

/// `list` with its exact values sorted and without repeats, so that the order
/// in which a policy wrote them does not matter.
pub fn normalize_list(list: ListRequirements) -> (r: ListRequirements)
    ensures
        r.contains@ == list.contains@,
        r.excludes@ == list.excludes@,
        match (r.exact, list.exact) {
            (Some((a, m)), Some((b, n))) => m == n && strictly_sorted(string_views(a@))
                && forall|x: Seq<char>| string_views(a@).contains(x) <==> string_views(b@).contains(x),
            (None, None) => true,
            _ => false,
        },
{
    let ListRequirements { contains, excludes, exact } = list;
    let exact = match exact {
        Some((values, message)) => Some((sort_dedup(&values), message)),
        None => None,
    };
    ListRequirements { contains, excludes, exact }
}

/// Normalising a list requirement twice gives what normalising once gives.
pub proof fn law_normalize_exact_idempotent(a: Seq<String>, b: Seq<String>)
    requires
        strictly_sorted(string_views(a)),
        strictly_sorted(string_views(b)),
        forall|x: Seq<char>| string_views(a).contains(x) <==> string_views(b).contains(x),
    ensures
        string_views(a) == string_views(b),
{
    lemma_sorted_same_set_equal(string_views(a), string_views(b));
}

/// One value of a merged list requirement with every policy that asked for it.
#[derive(Debug)]
pub struct ResolvedListEntry {
    pub value: String,
    pub collected: Vec<(Provenance, String)>,
}

/// The merge of several list requirements.
#[derive(Debug)]
pub struct ResolvedListRequirements {
    pub contains: Vec<ResolvedListEntry>,
    pub excludes: Vec<ResolvedListEntry>,
    pub exact: Option<ResolvedRequirement<Vec<String>, (Vec<String>, String)>>,
}

impl Default for ResolvedListRequirements {
    fn default() -> (r: Self)
        ensures
            r.contains@.len() == 0,
            r.excludes@.len() == 0,
            r.exact is None,
    {
        ResolvedListRequirements { contains: Vec::new(), excludes: Vec::new(), exact: None }
    }
}

/// Whether a merged list requirement asks nothing.
pub open spec fn spec_resolved_list_is_empty(l: ResolvedListRequirements) -> bool {
    l.contains@.len() == 0 && l.excludes@.len() == 0 && l.exact is None
}

/// Whether a merged list requirement asks nothing.
pub fn list_is_empty(l: &ResolvedListRequirements) -> (r: bool)
    ensures
        r == spec_resolved_list_is_empty(*l),
{
    l.contains.len() == 0 && l.excludes.len() == 0 && l.exact.is_none()
}

/// The values of merged entries.
pub open spec fn entry_values(es: Seq<ResolvedListEntry>) -> Seq<Seq<char>> {
    es.map_values(|e: ResolvedListEntry| e.value@)
}

/// Every (policy, value, message) a list of requirements holds in one of its
/// two value lists, in order.
pub open spec fn flat_pairs(items: Seq<(Provenance, ListRequirements)>, excludes: bool) -> Seq<(Seq<char>, Seq<char>, Seq<char>)>
    decreases items.len(),
{
    if items.len() == 0 {
        seq![]
    } else {
        let last = items.last();
        let pairs = if excludes { last.1.excludes@ } else { last.1.contains@ };
        flat_pairs(items.drop_last(), excludes) + pair_triples(last.0.policy@, pairs)
    }
}

/// Each value/message pair with the policy that wrote it.
pub open spec fn pair_triples(policy: Seq<char>, pairs: Seq<(String, String)>) -> Seq<(Seq<char>, Seq<char>, Seq<char>)>
    decreases pairs.len(),
{
    if pairs.len() == 0 {
        seq![]
    } else {
        pair_triples(policy, pairs.drop_last()).push((policy, pairs.last().0@, pairs.last().1@))
    }
}

pub proof fn lemma_triples_push(s: Seq<(Provenance, String, String)>, x: (Provenance, String, String))
    ensures
        triple_views(s.push(x)) == triple_views(s).push((x.0.policy@, x.1@, x.2@)),
{
    assert(triple_views(s.push(x)) =~= triple_views(s).push((x.0.policy@, x.1@, x.2@)));
}

pub proof fn lemma_string_views_push(s: Seq<String>, x: String)
    ensures
        string_views(s.push(x)) == string_views(s).push(x@),
{
    assert(string_views(s.push(x)) =~= string_views(s).push(x@));
}

pub proof fn lemma_entry_values_push(s: Seq<ResolvedListEntry>, x: ResolvedListEntry)
    ensures
        entry_values(s.push(x)) == entry_values(s).push(x.value@),
{
    assert(entry_values(s.push(x)) =~= entry_values(s).push(x.value@));
}

/// The (policy, message) pairs of `flat` that name `v`, in order.
pub open spec fn select_value(flat: Seq<(Seq<char>, Seq<char>, Seq<char>)>, v: Seq<char>) -> Seq<(Seq<char>, Seq<char>)>
    decreases flat.len(),
{
    if flat.len() == 0 {
        seq![]
    } else if flat.last().1 == v {
        select_value(flat.drop_last(), v).push((flat.last().0, flat.last().2))
    } else {
        select_value(flat.drop_last(), v)
    }
}

/// The values of flattened triples.
pub open spec fn triple_values(flat: Seq<(Seq<char>, Seq<char>, Seq<char>)>) -> Seq<Seq<char>> {
    flat.map_values(|t: (Seq<char>, Seq<char>, Seq<char>)| t.1)
}

/// Whether `es` merges the triples of `flat`: one entry per distinct value,
/// sorted, each with every policy that named it.
pub open spec fn merges_flat(es: Seq<ResolvedListEntry>, flat: Seq<(Seq<char>, Seq<char>, Seq<char>)>) -> bool {
    &&& strictly_sorted(entry_values(es))
    &&& forall|x: Seq<char>| entry_values(es).contains(x) <==> triple_values(flat).contains(x)
    &&& forall|i: int| 0 <= i < es.len() ==>
        contributor_views((#[trigger] es[i]).collected@) == select_value(flat, es[i].value@)
}

type Triple = (Provenance, String, String);

/// The exec triples and their texts.
pub open spec fn triple_views(t: Seq<Triple>) -> Seq<(Seq<char>, Seq<char>, Seq<char>)> {
    t.map_values(|x: Triple| (x.0.policy@, x.1@, x.2@))
}

fn flatten(items: &Vec<(Provenance, ListRequirements)>, excludes: bool) -> (r: Vec<Triple>)
    ensures
        triple_views(r@) == flat_pairs(items@, excludes),
{
    let mut out: Vec<Triple> = Vec::new();
    let mut i: usize = 0;
    while i < items.len()
        invariant
            i <= items.len(),
            triple_views(out@) == flat_pairs(items@.subrange(0, i as int), excludes),
        decreases items.len() - i,
    {
        let item = &items[i];
        let pairs = if excludes { &item.1.excludes } else { &item.1.contains };
        let ghost start = triple_views(out@);
        let mut j: usize = 0;
        while j < pairs.len()
            invariant
                j <= pairs.len(),
                triple_views(out@) == start + pair_triples(item.0.policy@, pairs@.subrange(0, j as int)),
            decreases pairs.len() - j,
        {
            let p = &pairs[j];
            let ghost before = out@;
            out.push((item.0.clone(), p.0.clone(), p.1.clone()));
            proof {
                lemma_triples_push(before, (item.0, p.0, p.1));
                crate::scalar_merge::lemma_prefix_push(pairs@, j as int);
                let sub = pairs@.subrange(0, j + 1);
                assert(sub.drop_last() =~= pairs@.subrange(0, j as int));
                assert(triple_views(out@) =~= start + pair_triples(item.0.policy@, sub));
            }
            j = j + 1;
        }
        proof {
            let prefix = items@.subrange(0, i + 1);
            assert(prefix.drop_last() =~= items@.subrange(0, i as int));
            assert(prefix.last() == items@[i as int]);
            assert(pairs@.subrange(0, pairs@.len() as int) =~= pairs@);
        }
        i = i + 1;
    }
    assert(items@.subrange(0, items@.len() as int) =~= items@);
    out
}

fn select(flat: &Vec<Triple>, v: &str) -> (r: Vec<(Provenance, String)>)
    ensures
        contributor_views(r@) == select_value(triple_views(flat@), v@),
{
    let mut out: Vec<(Provenance, String)> = Vec::new();
    let mut i: usize = 0;
    while i < flat.len()
        invariant
            i <= flat.len(),
            contributor_views(out@) == select_value(triple_views(flat@.subrange(0, i as int)), v@),
        decreases flat.len() - i,
    {
        let t = &flat[i];
        let ghost before = out@;
        let ghost prev = triple_views(flat@.subrange(0, i as int));
        let ghost next = triple_views(flat@.subrange(0, i + 1));
        proof {
            assert(next.drop_last() =~= prev);
            assert(next.last() == (t.0.policy@, t.1@, t.2@));
        }
        if str_eq(t.1.as_str(), v) {
            out.push((t.0.clone(), t.2.clone()));
            proof {
                crate::scalar_merge::lemma_contributors_push(before, (t.0, t.2));
            }
        }
        i = i + 1;
    }
    assert(flat@.subrange(0, flat@.len() as int) =~= flat@);
    out
}

fn triple_value_list(flat: &Vec<Triple>) -> (r: Vec<String>)
    ensures
        string_views(r@) == triple_values(triple_views(flat@)),
{
    let mut out: Vec<String> = Vec::new();
    let mut i: usize = 0;
    while i < flat.len()
        invariant
            i <= flat.len(),
            string_views(out@) == triple_values(triple_views(flat@.subrange(0, i as int))),
        decreases flat.len() - i,
    {
        let ghost before = out@;
        out.push(flat[i].1.clone());
        proof {
            lemma_string_views_push(before, flat@[i as int].1);
            crate::scalar_merge::lemma_prefix_push(flat@, i as int);
            lemma_triples_push(flat@.subrange(0, i as int), flat@[i as int]);
            assert(triple_values(triple_views(flat@.subrange(0, i + 1)))
                =~= triple_values(triple_views(flat@.subrange(0, i as int))).push(flat@[i as int].1@));
        }
        i = i + 1;
    }
    assert(flat@.subrange(0, flat@.len() as int) =~= flat@);
    out
}

fn merge_flat(flat: &Vec<Triple>) -> (r: Vec<ResolvedListEntry>)
    ensures
        merges_flat(r@, triple_views(flat@)),
{
    let values = sort_dedup(&triple_value_list(flat));
    let mut out: Vec<ResolvedListEntry> = Vec::new();
    let mut i: usize = 0;
    while i < values.len()
        invariant
            i <= values.len(),
            strictly_sorted(string_views(values@)),
            entry_values(out@) == string_views(values@).subrange(0, i as int),
            forall|k: int| 0 <= k < out@.len() ==>
                contributor_views((#[trigger] out@[k]).collected@) == select_value(triple_views(flat@), out@[k].value@),
        decreases values.len() - i,
    {
        let collected = select(flat, values[i].as_str());
        let ghost before = out@;
        out.push(ResolvedListEntry { value: values[i].clone(), collected });
        proof {
            lemma_entry_values_push(before, out@.last());
            assert(string_views(values@).subrange(0, i + 1)
                =~= string_views(values@).subrange(0, i as int).push(values@[i as int]@));
        }
        i = i + 1;
    }
    assert(string_views(values@).subrange(0, values@.len() as int) =~= string_views(values@));
    out
}

/// Whether an entry list names `v`.
pub fn entries_contain(es: &Vec<ResolvedListEntry>, v: &str) -> (r: Option<usize>)
    ensures
        match r {
            Some(k) => k < es@.len() && es@[k as int].value@ == v@,
            None => !entry_values(es@).contains(v@),
        },
{
    let mut i: usize = 0;
    while i < es.len()
        invariant
            i <= es.len(),
            forall|k: int| 0 <= k < i ==> es@[k].value@ != v@,
        decreases es.len() - i,
    {
        if str_eq(es[i].value.as_str(), v) {
            return Some(i);
        }
        i = i + 1;
    }
    assert(!entry_values(es@).contains(v@)) by {
        if entry_values(es@).contains(v@) {
            let k = choose|k: int| 0 <= k < entry_values(es@).len() && entry_values(es@)[k] == v@;
            assert(es@[k].value@ == v@);
        }
    }
    None
}


/// The conflicts between contained and excluded values: one per contained
/// value that is also excluded, keyed `key.value`.
pub open spec fn spec_overlap_conflicts(
    key: Seq<char>,
    contains: Seq<ResolvedListEntry>,
    excludes: Seq<ResolvedListEntry>,
) -> Seq<(Seq<char>, Seq<char>, Seq<(Seq<char>, Seq<char>)>)>
    decreases contains.len(),
{
    if contains.len() == 0 {
        seq![]
    } else {
        let e = contains.last();
        let rest = spec_overlap_conflicts(key, contains.drop_last(), excludes);
        if entry_values(excludes).contains(e.value@) {
            let x = choose|k: int| 0 <= k < excludes.len() && excludes[k].value@ == e.value@;
            rest.push((key + "."@ + e.value@, "list-contains-excludes"@,
                contributor_views(e.collected@) + contributor_views(excludes[x].collected@)))
        } else {
            rest
        }
    }
}

fn clone_contributors(c: &Vec<(Provenance, String)>) -> (r: Vec<(Provenance, String)>)
    ensures
        r@ == c@,
{
    let mut out: Vec<(Provenance, String)> = Vec::new();
    let mut i: usize = 0;
    while i < c.len()
        invariant
            i <= c.len(),
            out@ == c@.subrange(0, i as int),
        decreases c.len() - i,
    {
        let p = &c[i];
        out.push((p.0.clone(), p.1.clone()));
        i = i + 1;
        assert(out@ =~= c@.subrange(0, i as int));
    }
    assert(out@ =~= c@);
    out
}

fn report_overlaps(
    key: &str,
    contains: &Vec<ResolvedListEntry>,
    excludes: &Vec<ResolvedListEntry>,
    conflicts: &mut Vec<ConflictEntry>,
)
    requires
        strictly_sorted(entry_values(excludes@)),
    ensures
        conflict_views(final(conflicts)@) == conflict_views(old(conflicts)@)
            + spec_overlap_conflicts(key@, contains@, excludes@),
{
    let mut i: usize = 0;
    assert(contains@.subrange(0, 0) =~= Seq::<ResolvedListEntry>::empty());
    assert(conflict_views(conflicts@) =~= conflict_views(old(conflicts)@) + seq![]);
    while i < contains.len()
        invariant
            i <= contains.len(),
            strictly_sorted(entry_values(excludes@)),
            conflict_views(conflicts@) == conflict_views(old(conflicts)@)
                + spec_overlap_conflicts(key@, contains@.subrange(0, i as int), excludes@),
        decreases contains.len() - i,
    {
        let e = &contains[i];
        let ghost prefix = contains@.subrange(0, i + 1);
        proof {
            assert(prefix.drop_last() =~= contains@.subrange(0, i as int));
            assert(prefix.last() == contains@[i as int]);
        }
        match entries_contain(excludes, e.value.as_str()) {
            Some(k) => {
                proof {
                    assert(entry_values(excludes@)[k as int] == e.value@);
                    let x = choose|x: int| 0 <= x < excludes@.len() && excludes@[x].value@ == e.value@;
                    if x != k {
                        crate::text_order::lemma_lt_irreflexive(e.value@);
                        if x < k {
                            assert(crate::text_order::chars_lt(entry_values(excludes@)[x], entry_values(excludes@)[k as int]));
                        } else {
                            assert(crate::text_order::chars_lt(entry_values(excludes@)[k as int], entry_values(excludes@)[x]));
                        }
                    }
                }
                let mut contributors = clone_contributors(&e.collected);
                let mut more = clone_contributors(&excludes[k].collected);
                contributors.append(&mut more);
                let ghost before = conflicts@;
                conflicts.push(ConflictEntry {
                    key: join3(key, ".", e.value.as_str()),
                    reason: owned("list-contains-excludes"),
                    contributors,
                });
                proof {
                    crate::scalar_merge::lemma_contributors_add(e.collected@, excludes@[k as int].collected@);
                    lemma_conflicts_push(before, conflicts@.last());
                    assert(conflicts@ == before.push(conflicts@.last()));
                }
            },
            None => {},
        }
        i = i + 1;
    }
    assert(contains@.subrange(0, contains@.len() as int) =~= contains@);
}

pub proof fn lemma_conflicts_push(s: Seq<ConflictEntry>, x: ConflictEntry)
    ensures
        conflict_views(s.push(x)) == conflict_views(s).push((x.key@, x.reason@, contributor_views(x.contributors@))),
{
    assert(conflict_views(s.push(x)) =~= conflict_views(s).push((x.key@, x.reason@, contributor_views(x.contributors@))));
}

/// Every exact list of the requirements: policy, values and message.
pub open spec fn exact_items(items: Seq<(Provenance, ListRequirements)>) -> Seq<(Seq<char>, Seq<Seq<char>>, Seq<char>)>
    decreases items.len(),
{
    if items.len() == 0 {
        seq![]
    } else {
        match items.last().1.exact {
            Some(e) => exact_items(items.drop_last()).push((items.last().0.policy@, string_views(e.0@), e.1@)),
            None => exact_items(items.drop_last()),
        }
    }
}

type ExactItem = (Provenance, (Vec<String>, String));

/// The texts of gathered exact lists.
pub open spec fn exact_views(es: Seq<ExactItem>) -> Seq<(Seq<char>, Seq<Seq<char>>, Seq<char>)> {
    es.map_values(|e: ExactItem| (e.0.policy@, string_views(e.1.0@), e.1.1@))
}

/// Whether all exact lists hold the same values in the same order.
pub open spec fn exact_lists_agree(es: Seq<(Seq<char>, Seq<Seq<char>>, Seq<char>)>) -> bool {
    forall|i: int| 0 <= i < es.len() ==> (#[trigger] es[i]).1 == es[0].1
}

/// The contributors of an exact-list conflict: each policy with its list.
pub open spec fn spec_exact_contributors(es: Seq<(Seq<char>, Seq<Seq<char>>, Seq<char>)>) -> Seq<(Seq<char>, Seq<char>)> {
    es.map_values(|e: (Seq<char>, Seq<Seq<char>>, Seq<char>)| (e.0, spec_list_text(e.1)))
}

/// The text of a list of values: `[a, b]`.
pub open spec fn spec_list_text(vs: Seq<Seq<char>>) -> Seq<char> {
    "["@ + spec_join_values(vs) + "]"@
}

/// Values separated by `, `.
pub open spec fn spec_join_values(vs: Seq<Seq<char>>) -> Seq<char>
    decreases vs.len(),
{
    if vs.len() == 0 {
        seq![]
    } else if vs.len() == 1 {
        vs[0]
    } else {
        spec_join_values(vs.drop_last()) + ", "@ + vs.last()
    }
}

/// The text of a list of values: `[a, b]`.
pub fn list_text(vs: &Vec<String>) -> (r: String)
    ensures
        r@ == spec_list_text(string_views(vs@)),
{
    let mut out = owned("[");
    let mut i: usize = 0;
    while i < vs.len()
        invariant
            i <= vs.len(),
            out@ == "["@ + spec_join_values(string_views(vs@.subrange(0, i as int))),
        decreases vs.len() - i,
    {
        if i > 0 {
            out.append(", ");
        }
        out.append(vs[i].as_str());
        proof {
            let s = string_views(vs@.subrange(0, i + 1));
            assert(s.drop_last() =~= string_views(vs@.subrange(0, i as int)));
            if i == 0 {
                assert(s.len() == 1);
                assert(spec_join_values(string_views(vs@.subrange(0, i as int))) =~= seq![]);
            }
            assert(out@ =~= "["@ + spec_join_values(s));
        }
        i = i + 1;
    }
    assert(vs@.subrange(0, vs@.len() as int) =~= vs@);
    out.append("]");
    out
}

fn gather_exact(items: &Vec<(Provenance, ListRequirements)>) -> (r: Vec<ExactItem>)
    ensures
        exact_views(r@) == exact_items(items@),
{
    let mut out: Vec<ExactItem> = Vec::new();
    let mut i: usize = 0;
    while i < items.len()
        invariant
            i <= items.len(),
            exact_views(out@) == exact_items(items@.subrange(0, i as int)),
        decreases items.len() - i,
    {
        let ghost prefix = items@.subrange(0, i + 1);
        proof {
            assert(prefix.drop_last() =~= items@.subrange(0, i as int));
            assert(prefix.last() == items@[i as int]);
        }
        match &items[i].1.exact {
            Some((vals, msg)) => {
                let ghost before = out@;
                out.push((items[i].0.clone(), (clone_strings(vals), msg.clone())));
                proof {
                    assert(exact_views(out@) =~= exact_views(before).push(
                        (items@[i as int].0.policy@, string_views(vals@), msg@)));
                }
            },
            None => {},
        }
        i = i + 1;
    }
    assert(items@.subrange(0, items@.len() as int) =~= items@);
    out
}

fn exact_contributors(es: &Vec<ExactItem>) -> (r: Vec<(Provenance, String)>)
    ensures
        contributor_views(r@) == spec_exact_contributors(exact_views(es@)),
{
    let mut out: Vec<(Provenance, String)> = Vec::new();
    let mut i: usize = 0;
    while i < es.len()
        invariant
            i <= es.len(),
            contributor_views(out@) == spec_exact_contributors(exact_views(es@.subrange(0, i as int))),
        decreases es.len() - i,
    {
        let ghost before = out@;
        out.push((es[i].0.clone(), list_text(&es[i].1.0)));
        proof {
            crate::scalar_merge::lemma_contributors_push(before, out@.last());
            assert(out@ == before.push(out@.last()));
            assert(spec_exact_contributors(exact_views(es@.subrange(0, i + 1)))
                =~= spec_exact_contributors(exact_views(es@.subrange(0, i as int))).push(
                    (es@[i as int].0.policy@, spec_list_text(string_views(es@[i as int].1.0@)))));
        }
        i = i + 1;
    }
    assert(es@.subrange(0, es@.len() as int) =~= es@);
    out
}

/// Whether `vs` holds `p`.
pub fn strings_contain(vs: &Vec<String>, p: &str) -> (r: bool)
    ensures
        r == string_views(vs@).contains(p@),
{
    let mut i: usize = 0;
    while i < vs.len()
        invariant
            i <= vs.len(),
            forall|k: int| 0 <= k < i ==> vs@[k]@ != p@,
        decreases vs.len() - i,
    {
        if str_eq(vs[i].as_str(), p) {
            assert(string_views(vs@)[i as int] == p@);
            return true;
        }
        i = i + 1;
    }
    assert(!string_views(vs@).contains(p@)) by {
        if string_views(vs@).contains(p@) {
            let k = choose|k: int| 0 <= k < string_views(vs@).len() && string_views(vs@)[k] == p@;
            assert(vs@[k]@ == p@);
        }
    }
    false
}

pub fn same_strings(a: &Vec<String>, b: &Vec<String>) -> (r: bool)
    ensures
        r == (string_views(a@) == string_views(b@)),
{
    if a.len() != b.len() {
        assert(string_views(a@).len() != string_views(b@).len());
        return false;
    }
    let mut i: usize = 0;
    while i < a.len()
        invariant
            a.len() == b.len(),
            i <= a.len(),
            forall|k: int| 0 <= k < i ==> a@[k]@ == b@[k]@,
        decreases a.len() - i,
    {
        if !str_eq(a[i].as_str(), b[i].as_str()) {
            assert(string_views(a@)[i as int] != string_views(b@)[i as int]);
            return false;
        }
        i = i + 1;
    }
    assert(string_views(a@) =~= string_views(b@));
    true
}

/// Whether `r` merges a list setting's requirements, given every
/// (policy, value, message) they contain, every one they exclude, and every
/// exact list: contained and excluded values are each merged per value,
/// sorted; exact lists that all agree give their values with every
/// contribution, and otherwise no exact list is resolved.
pub open spec fn list_resolution(
    r: ResolvedListRequirements,
    contains: Seq<(Seq<char>, Seq<char>, Seq<char>)>,
    excludes: Seq<(Seq<char>, Seq<char>, Seq<char>)>,
    exacts: Seq<(Seq<char>, Seq<Seq<char>>, Seq<char>)>,
) -> bool {
    &&& merges_flat(r.contains@, contains)
    &&& merges_flat(r.excludes@, excludes)
    &&& exacts.len() == 0 ==> r.exact is None
    &&& exacts.len() > 0 && exact_lists_agree(exacts) ==> (r.exact matches Some(e)
        && string_views(e.merged@) == exacts[0].1 && exact_views(e.collected@) == exacts)
    &&& exacts.len() > 0 && !exact_lists_agree(exacts) ==> r.exact is None
}

/// The conflicts that merging a list setting reports: each contained value
/// that is also excluded, then one `list-exact-disagree` when exact lists
/// disagree.
pub open spec fn list_conflicts(
    key: Seq<char>,
    r: ResolvedListRequirements,
    exacts: Seq<(Seq<char>, Seq<Seq<char>>, Seq<char>)>,
) -> Seq<ConflictView> {
    spec_overlap_conflicts(key, r.contains@, r.excludes@)
        + (if exacts.len() > 0 && !exact_lists_agree(exacts) {
            seq![(key, "list-exact-disagree"@, spec_exact_contributors(exacts))]
        } else {
            seq![]
        })
}

/// The values of `vs`, sorted and without repeats.
pub open spec fn sorted_distinct(vs: Seq<Seq<char>>) -> Seq<Seq<char>> {
    choose|t: Seq<Seq<char>>| strictly_sorted(t) && forall|x: Seq<char>| t.contains(x) <==> vs.contains(x)
}

/// Every exact list of the requirements with its values sorted and without
/// repeats.
pub open spec fn sorted_exact_items(items: Seq<(Provenance, ListRequirements)>) -> Seq<(Seq<char>, Seq<Seq<char>>, Seq<char>)> {
    exact_items(items).map_values(|e: (Seq<char>, Seq<Seq<char>>, Seq<char>)| (e.0, sorted_distinct(e.1), e.2))
}

/// Whether `n` is `items` with each exact list sorted and deduplicated.
pub open spec fn normalized_items(n: Seq<(Provenance, ListRequirements)>, items: Seq<(Provenance, ListRequirements)>) -> bool {
    &&& n.len() == items.len()
    &&& forall|k: int| 0 <= k < n.len() ==> {
        &&& (#[trigger] n[k]).0 == items[k].0
        &&& n[k].1.contains@ == items[k].1.contains@
        &&& n[k].1.excludes@ == items[k].1.excludes@
        &&& match (n[k].1.exact, items[k].1.exact) {
            (Some((a, m)), Some((b, mm))) => m == mm && string_views(a@) == sorted_distinct(string_views(b@)),
            (None, None) => true,
            _ => false,
        }
    }
}

proof fn lemma_normalized_flat(n: Seq<(Provenance, ListRequirements)>, items: Seq<(Provenance, ListRequirements)>, b: bool)
    requires
        normalized_items(n, items),
    ensures
        flat_pairs(n, b) == flat_pairs(items, b),
        exact_items(n) == sorted_exact_items(items),
    decreases n.len(),
{
    if n.len() > 0 {
        let n2 = n.drop_last();
        let i2 = items.drop_last();
        assert(normalized_items(n2, i2)) by {
            assert forall|k: int| 0 <= k < n2.len() implies #[trigger] n2[k] == n[k] && i2[k] == items[k] by {}
        }
        lemma_normalized_flat(n2, i2, b);
        let k = n.len() - 1;
        assert(n[k] == n.last());
        assert(exact_items(n) =~= sorted_exact_items(items));
    }
}

/// Merges what several policies require of the list setting `key`, the
/// order of each exact list aside: each exact list is first sorted and
/// cleared of repeats, then merged as by `resolve_list`.
pub fn resolve_normalized_list(
    key: &str,
    items: Vec<(Provenance, ListRequirements)>,
    conflicts: &mut Vec<ConflictEntry>,
) -> (r: ResolvedListRequirements)
    ensures
        list_resolution(r, flat_pairs(items@, false), flat_pairs(items@, true), sorted_exact_items(items@)),
        conflict_views(final(conflicts)@) == conflict_views(old(conflicts)@)
            + list_conflicts(key@, r, sorted_exact_items(items@)),
{
    let mut normalized: Vec<(Provenance, ListRequirements)> = Vec::new();
    let mut i: usize = 0;
    while i < items.len()
        invariant
            i <= items.len(),
            normalized_items(normalized@, items@.subrange(0, i as int)),
        decreases items.len() - i,
    {
        let list = normalize_list(items[i].1.clone());
        let ghost before = normalized@;
        normalized.push((items[i].0.clone(), list));
        proof {
            let sub = items@.subrange(0, i + 1);
            assert forall|k: int| 0 <= k < normalized@.len() implies {
                &&& (#[trigger] normalized@[k]).0 == sub[k].0
                &&& normalized@[k].1.contains@ == sub[k].1.contains@
                &&& normalized@[k].1.excludes@ == sub[k].1.excludes@
                &&& match (normalized@[k].1.exact, sub[k].1.exact) {
                    (Some((a, m)), Some((b, mm))) => m == mm && string_views(a@) == sorted_distinct(string_views(b@)),
                    (None, None) => true,
                    _ => false,
                }
            } by {
                if k < before.len() {
                    assert(normalized@[k] == before[k]);
                    assert(sub[k] == items@.subrange(0, i as int)[k]);
                } else {
                    match (list.exact, items@[i as int].1.exact) {
                        (Some((a, m)), Some((b, mm))) => {
                            let t = sorted_distinct(string_views(b@));
                            assert(strictly_sorted(string_views(a@)));
                            lemma_sorted_same_set_equal(t, string_views(a@));
                        },
                        _ => {},
                    }
                }
            }
        }
        i = i + 1;
    }
    proof {
        assert(items@.subrange(0, items@.len() as int) =~= items@);
        lemma_normalized_flat(normalized@, items@, false);
        lemma_normalized_flat(normalized@, items@, true);
    }
    resolve_list(key, normalized, conflicts)
}

/// Merges what several policies require of the list setting `key`.
///
/// Contained values and excluded values are each gathered once, sorted, with
/// every policy that named them; a value both contained and excluded adds a
/// `list-contains-excludes` conflict keyed `key.value`. Exact lists must all
/// hold the same values in the same order; otherwise one
/// `list-exact-disagree` conflict naming each policy and list is added and no
/// exact list is resolved.
pub fn resolve_list(
    key: &str,
    items: Vec<(Provenance, ListRequirements)>,
    conflicts: &mut Vec<ConflictEntry>,
) -> (r: ResolvedListRequirements)
    ensures
        list_resolution(r, flat_pairs(items@, false), flat_pairs(items@, true), exact_items(items@)),
        conflict_views(final(conflicts)@) == conflict_views(old(conflicts)@) + list_conflicts(key@, r, exact_items(items@)),
{
    let flat_contains = flatten(&items, false);
    let flat_excludes = flatten(&items, true);
    let contains = merge_flat(&flat_contains);
    let excludes = merge_flat(&flat_excludes);
    report_overlaps(key, &contains, &excludes, conflicts);
    let ghost after_overlaps = conflicts@;
    let exacts = gather_exact(&items);
    let ghost ev = exact_views(exacts@);
    if exacts.len() == 0 {
        assert(conflict_views(conflicts@) =~= conflict_views(after_overlaps) + seq![]);
        return ResolvedListRequirements { contains, excludes, exact: None };
    }
    let mut agree = true;
    let mut i: usize = 1;
    while i < exacts.len()
        invariant
            1 <= i <= exacts.len(),
            ev == exact_views(exacts@),
            agree == forall|k: int| 0 <= k < i ==> (#[trigger] ev[k]).1 == ev[0].1,
        decreases exacts.len() - i,
    {
        if !same_strings(&exacts[i].1.0, &exacts[0].1.0) {
            agree = false;
        }
        assert(ev[i as int].1 == string_views(exacts@[i as int].1.0@));
        assert(ev[0].1 == string_views(exacts@[0].1.0@));
        i = i + 1;
    }
    if agree {
        let merged = clone_strings(&exacts[0].1.0);
        assert(conflict_views(conflicts@) =~= conflict_views(after_overlaps) + seq![]);
        ResolvedListRequirements { contains, excludes, exact: Some(ResolvedRequirement { merged, collected: exacts }) }
    } else {
        let contributors = exact_contributors(&exacts);
        conflicts.push(ConflictEntry { key: owned(key), reason: owned("list-exact-disagree"), contributors });
        proof {
            reveal_strlit("list-exact-disagree");
            assert(conflict_views(conflicts@) =~= conflict_views(after_overlaps)
                + seq![(key@, "list-exact-disagree"@, spec_exact_contributors(ev))]);
        }
        ResolvedListRequirements { contains, excludes, exact: None }
    }
}

} // verus!
