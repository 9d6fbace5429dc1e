//! The lexicographic order of texts, and lists of texts kept sorted without
//! repeats.

use vstd::prelude::*;

verus! {

/// Whether `a` comes strictly before `b`, character by character.
pub open spec fn chars_lt(a: Seq<char>, b: Seq<char>) -> bool
    decreases a.len(),
{
    if a.len() == 0 {
        b.len() > 0
    } else if b.len() == 0 {
        false
    } else if a[0] != b[0] {
        a[0] < b[0]
    } else {
        chars_lt(a.drop_first(), b.drop_first())
    }
}

/// Whether a list of texts is strictly increasing (so holds no repeats).
pub open spec fn strictly_sorted(s: Seq<Seq<char>>) -> bool {
    forall|i: int, j: int| 0 <= i < j < s.len() ==> chars_lt(#[trigger] s[i], #[trigger] s[j])
}

/// The texts of a list of strings.
pub open spec fn string_views(s: Seq<String>) -> Seq<Seq<char>> {
    s.map_values(|x: String| x@)
}

pub proof fn lemma_lt_irreflexive(a: Seq<char>)
    ensures
        !chars_lt(a, a),
    decreases a.len(),
{
    if a.len() > 0 {
        lemma_lt_irreflexive(a.drop_first());
    }
}

pub proof fn lemma_lt_asymmetric(a: Seq<char>, b: Seq<char>)
    ensures
        !(chars_lt(a, b) && chars_lt(b, a)),
    decreases a.len(),
{
    if a.len() > 0 && b.len() > 0 && a[0] == b[0] {
        lemma_lt_asymmetric(a.drop_first(), b.drop_first());
    }
}

pub proof fn lemma_lt_transitive(a: Seq<char>, b: Seq<char>, c: Seq<char>)
    requires
        chars_lt(a, b),
        chars_lt(b, c),
    ensures
        chars_lt(a, c),
    decreases a.len(),
{
    if a.len() > 0 && b.len() > 0 && c.len() > 0 && a[0] == b[0] && b[0] == c[0] {
        lemma_lt_transitive(a.drop_first(), b.drop_first(), c.drop_first());
    }
}

pub proof fn lemma_lt_total(a: Seq<char>, b: Seq<char>)
    ensures
        a == b || chars_lt(a, b) || chars_lt(b, a),
    decreases a.len(),
{
    if a.len() > 0 && b.len() > 0 && a[0] == b[0] {
        lemma_lt_total(a.drop_first(), b.drop_first());
        if a.drop_first() == b.drop_first() {
            assert(a =~= seq![a[0]] + a.drop_first());
            assert(b =~= seq![b[0]] + b.drop_first());
        }
    } else if a.len() == 0 && b.len() == 0 {
        assert(a =~= b);
    }
}

/// Whether `a` comes strictly before `b`.
pub fn text_lt(a: &str, b: &str) -> (r: bool)
    ensures
        r == chars_lt(a@, b@),
{
    let n = a.unicode_len();
    let m = b.unicode_len();
    let mut i: usize = 0;
    assert(a@.skip(0) =~= a@);
    assert(b@.skip(0) =~= b@);
    while i < n && i < m
        invariant
            n == a@.len(),
            m == b@.len(),
            i <= n,
            i <= m,
            chars_lt(a@, b@) == chars_lt(a@.skip(i as int), b@.skip(i as int)),
        decreases n - i,
    {
        let x = a.get_char(i);
        let y = b.get_char(i);
        proof {
            assert(a@.skip(i as int)[0] == x);
            assert(b@.skip(i as int)[0] == y);
        }
        if x != y {
            return x < y;
        }
        proof {
            assert(a@.skip(i as int).drop_first() =~= a@.skip(i + 1));
            assert(b@.skip(i as int).drop_first() =~= b@.skip(i + 1));
        }
        i = i + 1;
    }
    proof {
        assert(a@.skip(i as int).len() == n - i);
        assert(b@.skip(i as int).len() == m - i);
    }
    i == n && i < m
}

/// Where `value` belongs in a strictly sorted list: the first position whose
/// text does not come before it, and whether the text there is `value`.
pub fn sorted_position(list: &Vec<String>, value: &str) -> (r: (usize, bool))
    requires
        strictly_sorted(string_views(list@)),
    ensures
        r.0 <= list@.len(),
        forall|j: int| 0 <= j < r.0 ==> chars_lt(#[trigger] list@[j]@, value@),
        forall|j: int| r.0 <= j < list@.len() ==> !chars_lt(#[trigger] list@[j]@, value@),
        r.1 == (r.0 < list@.len() && list@[r.0 as int]@ == value@),
        !r.1 ==> !string_views(list@).contains(value@),
{
    let mut i: usize = 0;
    while i < list.len() && text_lt(list[i].as_str(), value)
        invariant
            i <= list@.len(),
            strictly_sorted(string_views(list@)),
            forall|j: int| 0 <= j < i ==> chars_lt(#[trigger] list@[j]@, value@),
        decreases list.len() - i,
    {
        i = i + 1;
    }
    proof {
        assert forall|j: int| i <= j < list@.len() implies !chars_lt(#[trigger] list@[j]@, value@) by {
            if j > i {
                assert(chars_lt(string_views(list@)[i as int], string_views(list@)[j]));
                if chars_lt(list@[j]@, value@) {
                    lemma_lt_transitive(list@[i as int]@, list@[j]@, value@);
                }
            }
        }
    }
    let found = i < list.len() && crate::text::str_eq(list[i].as_str(), value);
    proof {
        if !found {
            if string_views(list@).contains(value@) {
                let k = choose|k: int| 0 <= k < string_views(list@).len() && string_views(list@)[k] == value@;
                assert(list@[k]@ == value@);
                lemma_lt_irreflexive(value@);
                if k < i {
                    assert(chars_lt(list@[k]@, value@));
                } else if k > i {
                    assert(i < list@.len());
                    assert(chars_lt(string_views(list@)[i as int], string_views(list@)[k]));
                    lemma_lt_total(list@[i as int]@, value@);
                    assert(!chars_lt(list@[i as int]@, value@));
                    assert(list@[i as int]@ != value@);
                    lemma_lt_asymmetric(list@[i as int]@, value@);
                }
            }
        }
    }
    (i, found)
}

/// `values` sorted, without repeats.
pub fn sort_dedup(values: &Vec<String>) -> (r: Vec<String>)
    ensures
        strictly_sorted(string_views(r@)),
        forall|x: Seq<char>| string_views(r@).contains(x) <==> string_views(values@).contains(x),
{
    let mut out: Vec<String> = Vec::new();
    let mut i: usize = 0;
    while i < values.len()
        invariant
            i <= values@.len(),
            strictly_sorted(string_views(out@)),
            forall|x: Seq<char>| string_views(out@).contains(x)
                <==> string_views(values@.subrange(0, i as int)).contains(x),
        decreases values.len() - i,
    {
        let (pos, found) = sorted_position(&out, values[i].as_str());
        let ghost before = out@;
        if !found {
            out.insert(pos, values[i].clone());
            proof {
                lemma_insert_sorted(before, out@, pos as int, values@[i as int]);
            }
        }
        proof {
            let prev = values@.subrange(0, i as int);
            let next = values@.subrange(0, i + 1);
            let v = values@[i as int]@;
            assert(string_views(next) =~= string_views(prev).push(v));
            if found {
                assert(string_views(before)[pos as int] == v);
                assert(string_views(before).contains(v));
            }
            assert forall|x: Seq<char>| string_views(out@).contains(x)
                <==> string_views(next).contains(x) by {
                if string_views(next).contains(x) {
                    let k = choose|k: int| 0 <= k < string_views(next).len() && string_views(next)[k] == x;
                    if k < prev.len() {
                        assert(string_views(prev)[k] == x);
                        assert(string_views(prev).contains(x));
                    } else {
                        assert(x == v);
                    }
                }
                if string_views(prev).contains(x) {
                    let k = choose|k: int| 0 <= k < string_views(prev).len() && string_views(prev)[k] == x;
                    assert(string_views(next)[k] == x);
                }
                if x == v {
                    assert(string_views(next)[prev.len() as int] == x);
                }
            }
        }
        i = i + 1;
    }
    assert(values@.subrange(0, values@.len() as int) =~= values@);
    out
}

proof fn lemma_insert_sorted(before: Seq<String>, after: Seq<String>, pos: int, v: String)
    requires
        0 <= pos <= before.len(),
        after == before.insert(pos, v),
        strictly_sorted(string_views(before)),
        forall|j: int| 0 <= j < pos ==> chars_lt(#[trigger] before[j]@, v@),
        forall|j: int| pos <= j < before.len() ==> !chars_lt(#[trigger] before[j]@, v@),
        pos < before.len() ==> before[pos]@ != v@,
    ensures
        strictly_sorted(string_views(after)),
        forall|x: Seq<char>| string_views(after).contains(x)
            <==> (string_views(before).contains(x) || x == v@),
{
    assert forall|j: int| pos <= j < before.len() implies chars_lt(v@, #[trigger] before[j]@) by {
        lemma_lt_total(v@, before[j]@);
        if j > pos {
            assert(chars_lt(string_views(before)[pos], string_views(before)[j]));
            if before[j]@ == v@ {
                lemma_lt_total(before[pos]@, v@);
                lemma_lt_transitive(before[pos]@, before[j]@, before[pos]@);
                lemma_lt_irreflexive(before[pos]@);
            }
        }
    }
    let sv = string_views(after);
    assert forall|i: int, j: int| 0 <= i < j < sv.len() implies chars_lt(#[trigger] sv[i], #[trigger] sv[j]) by {
        if i < pos && j < pos {
            assert(chars_lt(string_views(before)[i], string_views(before)[j]));
        } else if i < pos && j == pos {
        } else if i < pos && j > pos {
            assert(chars_lt(string_views(before)[i], string_views(before)[j - 1]));
        } else if i == pos {
        } else {
            assert(chars_lt(string_views(before)[i - 1], string_views(before)[j - 1]));
        }
    }
    assert forall|x: Seq<char>| string_views(after).contains(x)
        <==> (string_views(before).contains(x) || x == v@) by {
        if string_views(after).contains(x) {
            let k = choose|k: int| 0 <= k < sv.len() && sv[k] == x;
            if k < pos {
                assert(string_views(before)[k] == x);
            } else if k > pos {
                assert(string_views(before)[k - 1] == x);
            }
        }
        if string_views(before).contains(x) {
            let k = choose|k: int| 0 <= k < string_views(before).len() && string_views(before)[k] == x;
            if k < pos {
                assert(sv[k] == x);
            } else {
                assert(sv[k + 1] == x);
            }
        }
        if x == v@ {
            assert(sv[pos] == x);
        }
    }
}

/// Two strictly sorted lists that hold the same texts are the same list.
pub proof fn lemma_sorted_same_set_equal(a: Seq<Seq<char>>, b: Seq<Seq<char>>)
    requires
        strictly_sorted(a),
        strictly_sorted(b),
        forall|x: Seq<char>| a.contains(x) <==> b.contains(x),
    ensures
        a == b,
    decreases a.len() + b.len(),
{
    if a.len() == 0 {
        if b.len() > 0 {
            assert(b.contains(b[0]));
        }
        assert(a =~= b);
    } else if b.len() == 0 {
        assert(a.contains(a[0]));
    } else {
        // the first elements are both the least text of the set
        assert(b.contains(a[0]));
        assert(a.contains(b[0]));
        let ka = choose|k: int| 0 <= k < a.len() && a[k] == b[0];
        let kb = choose|k: int| 0 <= k < b.len() && b[k] == a[0];
        if ka > 0 {
            assert(chars_lt(a[0], a[ka]));
            if kb > 0 {
                assert(chars_lt(b[0], b[kb]));
                lemma_lt_asymmetric(a[0], b[0]);
            } else {
                lemma_lt_irreflexive(a[0]);
            }
        } else if kb > 0 {
            assert(chars_lt(b[0], b[kb]));
            lemma_lt_irreflexive(b[0]);
        }
        assert(a[0] == b[0]);
        let ta = a.drop_first();
        let tb = b.drop_first();
        assert forall|x: Seq<char>| ta.contains(x) <==> tb.contains(x) by {
            if ta.contains(x) {
                let k = choose|k: int| 0 <= k < ta.len() && ta[k] == x;
                assert(chars_lt(a[0], a[k + 1]));
                assert(b.contains(x));
                let m = choose|m: int| 0 <= m < b.len() && b[m] == x;
                if m == 0 {
                    lemma_lt_irreflexive(x);
                }
                assert(tb[m - 1] == x);
            }
            if tb.contains(x) {
                let k = choose|k: int| 0 <= k < tb.len() && tb[k] == x;
                assert(chars_lt(b[0], b[k + 1]));
                assert(a.contains(x));
                let m = choose|m: int| 0 <= m < a.len() && a[m] == x;
                if m == 0 {
                    lemma_lt_irreflexive(x);
                }
                assert(ta[m - 1] == x);
            }
        }
        assert(strictly_sorted(ta)) by {
            assert forall|i: int, j: int| 0 <= i < j < ta.len() implies chars_lt(#[trigger] ta[i], #[trigger] ta[j]) by {
                assert(chars_lt(a[i + 1], a[j + 1]));
            }
        }
        assert(strictly_sorted(tb)) by {
            assert forall|i: int, j: int| 0 <= i < j < tb.len() implies chars_lt(#[trigger] tb[i], #[trigger] tb[j]) by {
                assert(chars_lt(b[i + 1], b[j + 1]));
            }
        }
        lemma_sorted_same_set_equal(ta, tb);
        assert(a =~= seq![a[0]] + ta);
        assert(b =~= seq![b[0]] + tb);
    }
}

} // verus!
