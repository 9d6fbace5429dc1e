//! Item requirements: entries an array setting must hold (an advisory to
//! ignore, a crate to ban), each known by an identity, and how the
//! requirements of several policies merge.
//!
//! Entries with one identity must agree; the merged entries come sorted by
//! identity, each with every policy that asked for it. Entries that disagree
//! are an `item-disagree` conflict keyed `key.identity`.

use vstd::prelude::*;
use crate::requirements::Provenance;
use crate::scalar_merge::{ConflictEntry, contributor_views, conflict_views};
use crate::text::{owned, join3, str_eq};
use crate::text_order::{strictly_sorted, string_views, sort_dedup, lemma_sorted_same_set_equal};

verus! {

/// An entry of an array setting, known by its identity.
pub trait FileItem: View + Sized {
    /// The identity under which requirements for this entry merge.
    spec fn spec_identity(&self) -> Seq<char>;

    fn identity(&self) -> (r: String)
        ensures
            r@ == self.spec_identity();

    fn same_item(&self, other: &Self) -> (r: bool)
        ensures
            r == (self@ == other@);

    fn duplicate(&self) -> (r: Self)
        ensures
            r@ == self@,
            r.spec_identity() == self.spec_identity();
}

/// The entries one policy requires of an array setting, each with a message.
#[derive(Debug)]
pub struct ItemRequirements<T> {
    pub required: Vec<(T, String)>,
}

impl<T> Default for ItemRequirements<T> {
    fn default() -> (r: Self)
        ensures
            r.required@.len() == 0,
    {
        ItemRequirements { required: Vec::new() }
    }
}

/// One merged entry: its identity, the entry, and every policy that asked
/// for it with its message.
#[derive(Debug)]
pub struct ResolvedItemEntry<T> {
    pub identity: String,
    pub merged: T,
    pub collected: Vec<(Provenance, (T, String))>,
}

/// The merged entries of an array setting, sorted by identity.
#[derive(Debug)]
pub struct ResolvedItemRequirements<T> {
    pub required: Vec<ResolvedItemEntry<T>>,
}

impl<T> Default for ResolvedItemRequirements<T> {
    fn default() -> (r: Self)
        ensures
            r.required@.len() == 0,
    {
        ResolvedItemRequirements { required: Vec::new() }
    }
}

/// A contribution seen as text: policy, identity, entry and message.
pub type ItemFlat<V> = (Seq<char>, Seq<char>, V, Seq<char>);

/// The contributions of one policy's entries.
pub open spec fn policy_item_flat<T: FileItem>(policy: Seq<char>, reqs: Seq<(T, String)>) -> Seq<ItemFlat<T::V>>
    decreases reqs.len(),
{
    if reqs.len() == 0 {
        seq![]
    } else {
        let last = reqs.last();
        policy_item_flat(policy, reqs.drop_last()).push((policy, last.0.spec_identity(), last.0@, last.1@))
    }
}

/// Every contribution of every policy, in order.
pub open spec fn item_flat<T: FileItem>(items: Seq<(Provenance, ItemRequirements<T>)>) -> Seq<ItemFlat<T::V>>
    decreases items.len(),
{
    if items.len() == 0 {
        seq![]
    } else {
        item_flat(items.drop_last()) + policy_item_flat(items.last().0.policy@, items.last().1.required@)
    }
}

/// The contributions with identity `id`, in order.
pub open spec fn select_identity<V>(flat: Seq<ItemFlat<V>>, id: Seq<char>) -> Seq<ItemFlat<V>>
    decreases flat.len(),
{
    if flat.len() == 0 {
        seq![]
    } else if flat.last().1 == id {
        select_identity(flat.drop_last(), id).push(flat.last())
    } else {
        select_identity(flat.drop_last(), id)
    }
}

/// The identities of contributions.
pub open spec fn flat_identities<V>(flat: Seq<ItemFlat<V>>) -> Seq<Seq<char>> {
    flat.map_values(|f: ItemFlat<V>| f.1)
}

/// Whether contributions all hold the same entry.
pub open spec fn flat_agree<V>(sel: Seq<ItemFlat<V>>) -> bool {
    forall|k: int| 0 <= k < sel.len() ==> (#[trigger] sel[k]).2 == sel[0].2
}

/// The view of a merged entry's contributions.
pub open spec fn collected_flat<T: FileItem>(c: Seq<(Provenance, (T, String))>) -> Seq<ItemFlat<T::V>> {
    c.map_values(|x: (Provenance, (T, String))| (x.0.policy@, x.1.0.spec_identity(), x.1.0@, x.1.1@))
}

/// The identities of merged entries.
pub open spec fn entry_identities<T>(es: Seq<ResolvedItemEntry<T>>) -> Seq<Seq<char>> {
    es.map_values(|e: ResolvedItemEntry<T>| e.identity@)
}

/// The distinct identities of `flat`, sorted.
pub open spec fn sorted_identities<V>(flat: Seq<ItemFlat<V>>) -> Seq<Seq<char>> {
    choose|t: Seq<Seq<char>>| strictly_sorted(t)
        && forall|x: Seq<char>| t.contains(x) <==> flat_identities(flat).contains(x)
}

/// The contributors of a set of contributions: each policy with its message.
pub open spec fn flat_contributors<V>(sel: Seq<ItemFlat<V>>) -> Seq<(Seq<char>, Seq<char>)> {
    sel.map_values(|f: ItemFlat<V>| (f.0, f.3))
}

/// One `item-disagree` conflict for each identity, in `ids` order, whose
/// contributions do not all hold the same entry.
pub open spec fn item_conflicts<V>(key: Seq<char>, ids: Seq<Seq<char>>, flat: Seq<ItemFlat<V>>)
    -> Seq<(Seq<char>, Seq<char>, Seq<(Seq<char>, Seq<char>)>)>
    decreases ids.len(),
{
    if ids.len() == 0 {
        seq![]
    } else {
        let rest = item_conflicts(key, ids.drop_last(), flat);
        let sel = select_identity(flat, ids.last());
        if flat_agree(sel) {
            rest
        } else {
            rest.push((key + "."@ + ids.last(), "item-disagree"@, flat_contributors(sel)))
        }
    }
}

/// Whether `es` holds, sorted by identity, one entry for each identity of
/// `flat` whose contributions agree, each with all of them.
pub open spec fn merges_items<T: FileItem>(es: Seq<ResolvedItemEntry<T>>, flat: Seq<ItemFlat<T::V>>) -> bool {
    &&& strictly_sorted(entry_identities(es))
    &&& forall|x: Seq<char>| #[trigger] entry_identities(es).contains(x) <==>
        (flat_identities(flat).contains(x) && flat_agree(select_identity(flat, x)))
    &&& forall|i: int| 0 <= i < es.len() ==> {
        let sel = select_identity(flat, (#[trigger] es[i]).identity@);
        &&& collected_flat(es[i].collected@) == sel
        &&& sel.len() > 0
        &&& es[i].merged@ == sel[0].2
    }
}

proof fn lemma_policy_flat_push<T: FileItem>(policy: Seq<char>, reqs: Seq<(T, String)>, i: int)
    requires
        0 <= i < reqs.len(),
    ensures
        policy_item_flat(policy, reqs.subrange(0, i + 1)) == policy_item_flat(policy, reqs.subrange(0, i)).push(
            (policy, reqs[i].0.spec_identity(), reqs[i].0@, reqs[i].1@)),
{
    let s = reqs.subrange(0, i + 1);
    assert(s.drop_last() =~= reqs.subrange(0, i));
}

fn flatten_items<T: FileItem>(items: &Vec<(Provenance, ItemRequirements<T>)>) -> (r: Vec<(Provenance, (T, String))>)
    ensures
        collected_flat(r@) == item_flat(items@),
{
    let mut out: Vec<(Provenance, (T, String))> = Vec::new();
    let mut i: usize = 0;
    while i < items.len()
        invariant
            i <= items.len(),
            collected_flat(out@) == item_flat(items@.subrange(0, i as int)),
        decreases items.len() - i,
    {
        let policy = &items[i].0;
        let reqs = &items[i].1.required;
        let ghost start = collected_flat(out@);
        let mut j: usize = 0;
        while j < reqs.len()
            invariant
                j <= reqs.len(),
                collected_flat(out@) == start + policy_item_flat(policy.policy@, reqs@.subrange(0, j as int)),
            decreases reqs.len() - j,
        {
            let ghost before = out@;
            let item = reqs[j].0.duplicate();
            out.push((policy.clone(), (item, reqs[j].1.clone())));
            proof {
                lemma_policy_flat_push(policy.policy@, reqs@, j as int);
                assert(collected_flat(out@) =~= collected_flat(before).push(collected_flat(out@).last()));
                assert(collected_flat(out@) =~= start + policy_item_flat(policy.policy@, reqs@.subrange(0, j + 1)));
            }
            j = j + 1;
        }
        proof {
            let prefix = items@.subrange(0, i + 1);
            assert(prefix.drop_last() =~= items@.subrange(0, i as int));
            assert(reqs@.subrange(0, reqs@.len() as int) =~= reqs@);
        }
        i = i + 1;
    }
    assert(items@.subrange(0, items@.len() as int) =~= items@);
    out
}

fn identity_list<T: FileItem>(flat: &Vec<(Provenance, (T, String))>) -> (r: Vec<String>)
    ensures
        string_views(r@) == flat_identities(collected_flat(flat@)),
{
    let mut out: Vec<String> = Vec::new();
    let mut i: usize = 0;
    while i < flat.len()
        invariant
            i <= flat.len(),
            string_views(out@) == flat_identities(collected_flat(flat@.subrange(0, i as int))),
        decreases flat.len() - i,
    {
        let ghost before = out@;
        out.push(flat[i].1.0.identity());
        proof {
            assert(string_views(out@) =~= string_views(before).push(flat@[i as int].1.0.spec_identity()));
            assert(flat_identities(collected_flat(flat@.subrange(0, i + 1)))
                =~= flat_identities(collected_flat(flat@.subrange(0, i as int))).push(flat@[i as int].1.0.spec_identity()));
        }
        i = i + 1;
    }
    assert(flat@.subrange(0, flat@.len() as int) =~= flat@);
    out
}

fn select_items<T: FileItem>(flat: &Vec<(Provenance, (T, String))>, id: &str) -> (r: Vec<(Provenance, (T, String))>)
    ensures
        collected_flat(r@) == select_identity(collected_flat(flat@), id@),
{
    let mut out: Vec<(Provenance, (T, String))> = Vec::new();
    let mut i: usize = 0;
    while i < flat.len()
        invariant
            i <= flat.len(),
            collected_flat(out@) == select_identity(collected_flat(flat@.subrange(0, i as int)), id@),
        decreases flat.len() - i,
    {
        let ghost before = out@;
        let ghost prev = collected_flat(flat@.subrange(0, i as int));
        let ghost next = collected_flat(flat@.subrange(0, i + 1));
        proof {
            assert(next.drop_last() =~= prev);
        }
        let this_id = flat[i].1.0.identity();
        if str_eq(this_id.as_str(), id) {
            let item = flat[i].1.0.duplicate();
            out.push((flat[i].0.clone(), (item, flat[i].1.1.clone())));
            proof {
                assert(collected_flat(out@) =~= collected_flat(before).push(next.last()));
            }
        }
        i = i + 1;
    }
    assert(flat@.subrange(0, flat@.len() as int) =~= flat@);
    out
}

fn agree_all<T: FileItem>(sel: &Vec<(Provenance, (T, String))>) -> (r: bool)
    requires
        sel@.len() > 0,
    ensures
        r == flat_agree(collected_flat(sel@)),
{
    let ghost v = collected_flat(sel@);
    let mut i: usize = 1;
    while i < sel.len()
        invariant
            1 <= i <= sel.len(),
            v == collected_flat(sel@),
            forall|k: int| 0 <= k < i ==> (#[trigger] v[k]).2 == v[0].2,
        decreases sel.len() - i,
    {
        if !sel[i].1.0.same_item(&sel[0].1.0) {
            assert(v[i as int].2 != v[0].2);
            return false;
        }
        i = i + 1;
    }
    true
}

fn item_contributors<T: FileItem>(sel: &Vec<(Provenance, (T, String))>) -> (r: Vec<(Provenance, String)>)
    ensures
        contributor_views(r@) == flat_contributors(collected_flat(sel@)),
{
    let mut out: Vec<(Provenance, String)> = Vec::new();
    let mut i: usize = 0;
    while i < sel.len()
        invariant
            i <= sel.len(),
            contributor_views(out@) == flat_contributors(collected_flat(sel@.subrange(0, i as int))),
        decreases sel.len() - i,
    {
        let ghost before = out@;
        out.push((sel[i].0.clone(), sel[i].1.1.clone()));
        proof {
            assert(contributor_views(out@) =~= contributor_views(before).push((sel@[i as int].0.policy@, sel@[i as int].1.1@)));
            assert(flat_contributors(collected_flat(sel@.subrange(0, i + 1)))
                =~= flat_contributors(collected_flat(sel@.subrange(0, i as int))).push((sel@[i as int].0.policy@, sel@[i as int].1.1@)));
        }
        i = i + 1;
    }
    assert(sel@.subrange(0, sel@.len() as int) =~= sel@);
    out
}

proof fn lemma_select_nonempty<V>(flat: Seq<ItemFlat<V>>, id: Seq<char>)
    requires
        flat_identities(flat).contains(id),
    ensures
        select_identity(flat, id).len() > 0,
    decreases flat.len(),
{
    if flat.last().1 != id {
        let k = choose|k: int| 0 <= k < flat_identities(flat).len() && flat_identities(flat)[k] == id;
        assert(k < flat.len() - 1);
        assert(flat_identities(flat.drop_last())[k] == id);
        lemma_select_nonempty(flat.drop_last(), id);
    }
}

proof fn lemma_select_empty<V>(flat: Seq<ItemFlat<V>>, id: Seq<char>)
    requires
        !flat_identities(flat).contains(id),
    ensures
        select_identity(flat, id).len() == 0,
    decreases flat.len(),
{
    if flat.len() > 0 {
        assert(flat_identities(flat)[flat.len() - 1] == flat.last().1);
        assert forall|x: Seq<char>| flat_identities(flat.drop_last()).contains(x) implies flat_identities(flat).contains(x) by {
            let k = choose|k: int| 0 <= k < flat_identities(flat.drop_last()).len() && flat_identities(flat.drop_last())[k] == x;
            assert(flat_identities(flat)[k] == x);
        }
        lemma_select_empty(flat.drop_last(), id);
    }
}

/// Merges what several policies require of the array setting `key`: one
/// entry per identity, sorted, with every contribution; identities whose
/// contributions disagree add one `item-disagree` conflict each, in identity
/// order, and are left out.
pub fn resolve_items<T: FileItem>(
    key: &str,
    items: Vec<(Provenance, ItemRequirements<T>)>,
    conflicts: &mut Vec<ConflictEntry>,
) -> (r: ResolvedItemRequirements<T>)
    ensures
        merges_items(r.required@, item_flat(items@)),
        conflict_views(final(conflicts)@) == conflict_views(old(conflicts)@)
            + item_conflicts(key@, sorted_identities(item_flat(items@)), item_flat(items@)),
{
    let flat = flatten_items(&items);
    let ghost fv = collected_flat(flat@);
    let ids = sort_dedup(&identity_list(&flat));
    let ghost idv = string_views(ids@);
    proof {
        let t = sorted_identities(fv);
        assert(strictly_sorted(idv) && forall|x: Seq<char>| idv.contains(x) <==> flat_identities(fv).contains(x));
        lemma_sorted_same_set_equal(t, idv);
    }
    let ghost start = conflict_views(conflicts@);
    let mut out: Vec<ResolvedItemEntry<T>> = Vec::new();
    let mut i: usize = 0;
    while i < ids.len()
        invariant
            i <= ids.len(),
            fv == collected_flat(flat@),
            idv == string_views(ids@),
            strictly_sorted(idv),
            forall|x: Seq<char>| idv.contains(x) <==> flat_identities(fv).contains(x),
            conflict_views(conflicts@) == start + item_conflicts(key@, idv.subrange(0, i as int), fv),
            forall|x: Seq<char>| #[trigger] entry_identities(out@).contains(x) <==>
                (idv.subrange(0, i as int).contains(x) && flat_agree(select_identity(fv, x))),
            strictly_sorted(entry_identities(out@)),
            forall|k: int| 0 <= k < out@.len() ==> exists|j: int| 0 <= j < i && (#[trigger] out@[k]).identity@ == idv[j],
            forall|k: int| 0 <= k < out@.len() ==> {
                let sel = select_identity(fv, (#[trigger] out@[k]).identity@);
                &&& collected_flat(out@[k].collected@) == sel
                &&& sel.len() > 0
                &&& out@[k].merged@ == sel[0].2
            },
        decreases ids.len() - i,
    {
        let sel = select_items(&flat, ids[i].as_str());
        proof {
            assert(idv.contains(idv[i as int]));
            lemma_select_nonempty(fv, idv[i as int]);
            let p = idv.subrange(0, i + 1);
            assert(p.drop_last() =~= idv.subrange(0, i as int));
        }
        let ghost before_out = out@;
        let ghost pre = idv.subrange(0, i as int);
        let ghost pre1 = idv.subrange(0, i + 1);
        if agree_all(&sel) {
            let merged = sel[0].1.0.duplicate();
            out.push(ResolvedItemEntry { identity: ids[i].clone(), merged, collected: sel });
            proof {
                assert(entry_identities(out@) =~= entry_identities(before_out).push(idv[i as int]));
                assert forall|k: int| 0 <= k < before_out.len() implies chars_lt_entry(before_out, k, idv[i as int]) by {
                    let j = choose|j: int| 0 <= j < i && before_out[k].identity@ == idv[j];
                }
                assert forall|a: int, b: int| 0 <= a < b < entry_identities(out@).len()
                    implies crate::text_order::chars_lt(entry_identities(out@)[a], entry_identities(out@)[b]) by {
                    if b == before_out.len() {
                        assert(chars_lt_entry(before_out, a, idv[i as int]));
                    } else {
                        assert(entry_identities(before_out)[a] == entry_identities(out@)[a]);
                        assert(entry_identities(before_out)[b] == entry_identities(out@)[b]);
                    }
                }
                assert forall|x: Seq<char>| entry_identities(out@).contains(x) <==>
                    (pre1.contains(x) && flat_agree(select_identity(fv, x))) by {
                    if entry_identities(out@).contains(x) {
                        let k = choose|k: int| 0 <= k < entry_identities(out@).len() && entry_identities(out@)[k] == x;
                        if k < before_out.len() {
                            assert(entry_identities(before_out)[k] == x);
                            assert(entry_identities(before_out).contains(x));
                            let j = choose|j: int| 0 <= j < pre.len() && pre[j] == x;
                            assert(pre1[j] == x);
                        } else {
                            assert(pre1[i as int] == x);
                        }
                    }
                    if pre1.contains(x) && flat_agree(select_identity(fv, x)) {
                        let j = choose|j: int| 0 <= j < pre1.len() && pre1[j] == x;
                        if j < i {
                            assert(pre[j] == x);
                            assert(entry_identities(before_out).contains(x));
                            let k = choose|k: int| 0 <= k < entry_identities(before_out).len() && entry_identities(before_out)[k] == x;
                            assert(entry_identities(out@)[k] == x);
                        } else {
                            assert(entry_identities(out@)[before_out.len() as int] == x);
                        }
                    }
                }
                assert(conflict_views(conflicts@) == start + item_conflicts(key@, pre1, fv));
            }
        } else {
            let contributors = item_contributors(&sel);
            let ghost before = conflicts@;
            let name = join3(key, ".", ids[i].as_str());
            conflicts.push(ConflictEntry { key: name, reason: owned("item-disagree"), contributors });
            proof {
                reveal_strlit("item-disagree");
                reveal_strlit(".");
                assert(conflict_views(conflicts@) =~= conflict_views(before).push(conflict_views(conflicts@).last()));
                assert(conflict_views(conflicts@) =~= start + item_conflicts(key@, pre1, fv));
                assert forall|x: Seq<char>| entry_identities(out@).contains(x) <==>
                    (pre1.contains(x) && flat_agree(select_identity(fv, x))) by {
                    if entry_identities(out@).contains(x) {
                        let j = choose|j: int| 0 <= j < pre.len() && pre[j] == x;
                        assert(pre1[j] == x);
                    }
                    if pre1.contains(x) && flat_agree(select_identity(fv, x)) {
                        let j = choose|j: int| 0 <= j < pre1.len() && pre1[j] == x;
                        if j == i {
                            assert(x == idv[i as int]);
                        } else {
                            assert(pre[j] == x);
                        }
                    }
                }
            }
        }
        i = i + 1;
    }
    proof {
        assert(idv.subrange(0, idv.len() as int) =~= idv);
        assert forall|x: Seq<char>| entry_identities(out@).contains(x) <==>
            (flat_identities(fv).contains(x) && flat_agree(select_identity(fv, x))) by {
            assert(idv.subrange(0, idv.len() as int) == idv);
        }
    }
    ResolvedItemRequirements { required: out }
}

/// Whether the identity of merged entry `k` comes before `id`.
pub open spec fn chars_lt_entry<T>(es: Seq<ResolvedItemEntry<T>>, k: int, id: Seq<char>) -> bool {
    crate::text_order::chars_lt(es[k].identity@, id)
}


proof fn lemma_select_holds<V>(flat: Seq<ItemFlat<V>>, j: int)
    requires
        0 <= j < flat.len(),
    ensures
        select_identity(flat, flat[j].1).contains(flat[j]),
    decreases flat.len(),
{
    let id = flat[j].1;
    let prev = select_identity(flat.drop_last(), id);
    if j == flat.len() - 1 {
        assert(select_identity(flat, id)[prev.len() as int] == flat[j]);
    } else {
        assert(flat.drop_last()[j] == flat[j]);
        lemma_select_holds(flat.drop_last(), j);
        let k = choose|k: int| 0 <= k < prev.len() && prev[k] == flat[j];
        if flat.last().1 == id {
            assert(select_identity(flat, id)[k] == prev[k]);
        }
    }
}

proof fn lemma_disagree_reported<V>(key: Seq<char>, ids: Seq<Seq<char>>, flat: Seq<ItemFlat<V>>, id: Seq<char>)
    requires
        ids.contains(id),
        !flat_agree(select_identity(flat, id)),
    ensures
        item_conflicts(key, ids, flat).contains((key + "."@ + id, "item-disagree"@, flat_contributors(select_identity(flat, id)))),
    decreases ids.len(),
{
    let c = (key + "."@ + id, "item-disagree"@, flat_contributors(select_identity(flat, id)));
    let rest = item_conflicts(key, ids.drop_last(), flat);
    let cur = item_conflicts(key, ids, flat);
    if ids.last() == id {
        assert(cur == rest.push(c));
        assert(cur[rest.len() as int] == c);
    } else {
        let k = choose|k: int| 0 <= k < ids.len() && ids[k] == id;
        assert(ids.drop_last()[k] == id);
        lemma_disagree_reported(key, ids.drop_last(), flat, id);
        let m = choose|m: int| 0 <= m < rest.len() && rest[m] == c;
        assert(cur.len() >= rest.len() && cur[m] == rest[m]);
    }
}

/// Two contributions with one identity but different entries never merge:
/// the merged items hold no entry of that identity, and the merge reports
/// an `item-disagree` conflict keyed `<key>.<identity>`.
pub proof fn law_different_entries_of_one_identity_conflict<T: FileItem>(
    key: Seq<char>,
    flat: Seq<ItemFlat<T::V>>,
    es: Seq<ResolvedItemEntry<T>>,
    j1: int,
    j2: int,
)
    requires
        merges_items(es, flat),
        0 <= j1 < flat.len(),
        0 <= j2 < flat.len(),
        flat[j1].1 == flat[j2].1,
        flat[j1].2 != flat[j2].2,
    ensures
        forall|i: int| 0 <= i < es.len() ==> (#[trigger] es[i]).identity@ != flat[j1].1,
        exists|c: (Seq<char>, Seq<char>, Seq<(Seq<char>, Seq<char>)>)|
            item_conflicts(key, sorted_identities(flat), flat).contains(c)
            && c.0 == key + "."@ + flat[j1].1 && c.1 == "item-disagree"@,
{
    let id = flat[j1].1;
    let sel = select_identity(flat, id);
    lemma_select_holds(flat, j1);
    lemma_select_holds(flat, j2);
    assert(!flat_agree(sel)) by {
        let a = choose|k: int| 0 <= k < sel.len() && sel[k] == flat[j1];
        let b = choose|k: int| 0 <= k < sel.len() && sel[k] == flat[j2];
        if flat_agree(sel) {
            assert(sel[a].2 == sel[0].2);
            assert(sel[b].2 == sel[0].2);
        }
    }
    assert forall|i: int| 0 <= i < es.len() implies (#[trigger] es[i]).identity@ != id by {
        if es[i].identity@ == id {
            assert(entry_identities(es)[i] == id);
            assert(entry_identities(es).contains(id));
        }
    }
    crate::laws::lemma_sorted_distinct(flat_identities(flat));
    let w = crate::lists::sorted_distinct(flat_identities(flat));
    assert(strictly_sorted(w) && forall|x: Seq<char>| w.contains(x) <==> flat_identities(flat).contains(x));
    let ids = sorted_identities(flat);
    assert(flat_identities(flat)[j1] == id);
    assert(flat_identities(flat).contains(id));
    assert(ids.contains(id));
    lemma_disagree_reported(key, ids, flat, id);
}

} // verus!
