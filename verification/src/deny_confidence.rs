//! The cargo-deny license confidence threshold: a decimal from 0.0 through 1.0.

use vstd::prelude::*;
use vstd::std_specs::cmp::PartialEqSpecImpl;
use crate::deny_values::DenyTomlValueError;
use crate::text::{chars_of, is_empty_str, owned};
use crate::toml_doc::simple_decimal;

verus! {

/// Whether every character of `s` is an ASCII digit.
pub open spec fn spec_all_digits(s: Seq<char>) -> bool {
    forall|i: int| 0 <= i < s.len() ==> '0' <= #[trigger] s[i] && s[i] <= '9'
}

/// The decimal value of a digit string.
pub open spec fn spec_digits_value(s: Seq<char>) -> nat
    decreases s.len(),
{
    if s.len() == 0 {
        0
    } else {
        spec_digits_value(s.drop_last()) * 10 + ((s.last() as nat) - ('0' as nat)) as nat
    }
}

/// Ten to the power `n`.
pub open spec fn spec_pow10(n: nat) -> nat
    decreases n,
{
    if n == 0 {
        1
    } else {
        10 * spec_pow10((n - 1) as nat)
    }
}

/// The position of the first `.` in `s`, if any.
pub open spec fn spec_dot_index(s: Seq<char>) -> Option<nat>
    decreases s.len(),
{
    if s.len() == 0 {
        None
    } else if s[0] == '.' {
        Some(0)
    } else {
        match spec_dot_index(s.drop_first()) {
            Some(i) => Some(i + 1),
            None => None,
        }
    }
}

/// The threshold in millionths that `v` denotes: `0`, `1`, `0.` followed by one
/// to six digits, or `1.` followed by one to six zeros; `None` for anything else.
pub open spec fn spec_confidence_millionths(v: Seq<char>) -> Option<nat> {
    match spec_dot_index(v) {
        None => if v == "0"@ {
            Some(0)
        } else if v == "1"@ {
            Some(1000000)
        } else {
            None
        },
        Some(i) => {
            let whole = v.take(i as int);
            let frac = v.skip(i + 1 as int);
            if frac.len() == 0 || frac.len() > 6 || !spec_all_digits(frac) {
                None
            } else {
                let fv = spec_digits_value(frac) * spec_pow10((6 - frac.len()) as nat);
                if whole == "0"@ {
                    Some(fv)
                } else if whole == "1"@ && fv == 0 {
                    Some(1000000)
                } else {
                    None
                }
            }
        },
    }
}

/// `s` without its trailing zeros.
pub open spec fn spec_strip_zeros(s: Seq<char>) -> Seq<char>
    decreases s.len(),
{
    if s.len() > 0 && s.last() == '0' {
        spec_strip_zeros(s.drop_last())
    } else {
        s
    }
}

/// The canonical text of a threshold: a decimal text loses its trailing zeros,
/// keeping one digit after the point.
pub open spec fn spec_canonical_confidence(v: Seq<char>) -> Seq<char> {
    if spec_dot_index(v) is Some {
        let t = spec_strip_zeros(v);
        if t.len() > 0 && t.last() == '.' {
            t.push('0')
        } else {
            t
        }
    } else {
        v
    }
}

/// Orders two values that have an order.
#[derive(Debug, Clone, Copy, PartialEq, Eq, Structural, Hash)]
pub enum ValueOrder {
    Less,
    Equal,
    Greater,
}

/// The order of two naturals.
pub open spec fn spec_order_of(a: nat, b: nat) -> ValueOrder {
    if a < b {
        ValueOrder::Less
    } else if a == b {
        ValueOrder::Equal
    } else {
        ValueOrder::Greater
    }
}

proof fn lemma_pow10_bound(n: nat)
    ensures
        spec_pow10(n) >= 1,
    decreases n,
{
    if n > 0 {
        lemma_pow10_bound((n - 1) as nat);
    }
}

proof fn lemma_digits_bound(s: Seq<char>)
    requires
        spec_all_digits(s),
    ensures
        spec_digits_value(s) < spec_pow10(s.len()),
    decreases s.len(),
{
    if s.len() > 0 {
        let t = s.drop_last();
        assert(spec_all_digits(t)) by {
            assert forall|i: int| 0 <= i < t.len() implies '0' <= #[trigger] t[i] && t[i] <= '9' by {
                assert(t[i] == s[i]);
            }
        }
        lemma_digits_bound(t);
        assert('0' <= s[s.len() - 1] && s[s.len() - 1] <= '9');
        let d = ((s.last() as nat) - ('0' as nat)) as nat;
        assert(d <= 9);
        let a = spec_digits_value(t);
        let p = spec_pow10(t.len());
        assert(a + 1 <= p);
        assert(a * 10 + d < p * 10) by (nonlinear_arith)
            requires
                a + 1 <= p,
                d <= 9,
        ;
        assert(spec_pow10(s.len()) == 10 * p);
    }
}

fn dot_index(cs: &Vec<char>) -> (r: Option<usize>)
    ensures
        match r {
            Some(j) => spec_dot_index(cs@) == Some(j as nat) && j < cs@.len() && cs@[j as int] == '.',
            None => spec_dot_index(cs@) is None,
        },
{
    let mut i: usize = 0;
    assert(cs@.skip(0) =~= cs@);
    while i < cs.len()
        invariant
            i <= cs.len(),
            forall|j: int| 0 <= j < i ==> cs@[j] != '.',
            spec_dot_index(cs@) == spec_dot_index_from(cs@, i as int),
        decreases cs.len() - i,
    {
        if cs[i] == '.' {
            proof {
                lemma_dot_index_here(cs@, i as int);
            }
            return Some(i);
        }
        proof {
            lemma_dot_index_step(cs@, i as int);
        }
        i = i + 1;
    }
    proof {
        lemma_dot_index_end(cs@, i as int);
    }
    None
}

/// The first `.` of `s` at or after `k`, counted from the start of `s`.
pub open spec fn spec_dot_index_from(s: Seq<char>, k: int) -> Option<nat> {
    match spec_dot_index(s.skip(k)) {
        Some(i) => Some((i + k) as nat),
        None => None,
    }
}

proof fn lemma_dot_index_step(s: Seq<char>, k: int)
    requires
        0 <= k < s.len(),
        s[k] != '.',
    ensures
        spec_dot_index_from(s, k) == spec_dot_index_from(s, k + 1),
{
    let t = s.skip(k);
    assert(t.drop_first() =~= s.skip(k + 1));
    assert(t[0] == s[k]);
}

proof fn lemma_dot_index_here(s: Seq<char>, k: int)
    requires
        0 <= k < s.len(),
        s[k] == '.',
    ensures
        spec_dot_index_from(s, k) == Some(k as nat),
{
    let t = s.skip(k);
    assert(t[0] == s[k]);
}

proof fn lemma_dot_index_end(s: Seq<char>, k: int)
    requires
        k == s.len(),
    ensures
        spec_dot_index_from(s, k) is None,
{
    assert(s.skip(k).len() == 0);
}

fn invalid_confidence(value: &str) -> (e: DenyTomlValueError)
    ensures
        e matches DenyTomlValueError::Invalid { field, value: v, reason }
            && field@ == "confidence-threshold"@ && v@ == value@
            && reason@ == "confidence-threshold must be a number from 0.0 through 1.0"@,
{
    DenyTomlValueError::Invalid {
        field: "confidence-threshold",
        value: owned(value),
        reason: "confidence-threshold must be a number from 0.0 through 1.0",
    }
}

/// The error for a text that does not denote a threshold.
pub open spec fn spec_invalid_confidence(value: Seq<char>, e: DenyTomlValueError) -> bool {
    e matches DenyTomlValueError::Invalid { field, value: v, reason }
        && field@ == "confidence-threshold"@ && v@ == value
        && reason@ == "confidence-threshold must be a number from 0.0 through 1.0"@
}

/// Reads a threshold text into millionths.
fn parse_confidence_millionths(value: &str) -> (r: Result<u32, DenyTomlValueError>)
    ensures
        match spec_confidence_millionths(value@) {
            Some(m) => m <= 1000000 && (r matches Ok(x) && x as nat == m),
            None => r is Err && spec_invalid_confidence(value@, r->Err_0),
        },
{
    let cs = chars_of(value);
    proof {
        reveal_strlit("0");
        reveal_strlit("1");
    }
    match dot_index(&cs) {
        None => {
            if cs.len() == 1 && cs[0] == '0' {
                assert(cs@ =~= "0"@);
                Ok(0)
            } else if cs.len() == 1 && cs[0] == '1' {
                assert(cs@ =~= "1"@);
                Ok(1000000)
            } else {
                assert(cs@ != "0"@ && cs@ != "1"@) by {
                    if cs@ == "0"@ || cs@ == "1"@ {
                        assert(cs@.len() == 1);
                    }
                }
                Err(invalid_confidence(value))
            }
        },
        Some(i) => {
            assert(spec_dot_index(value@) == Some(i as nat));
            let ghost whole = cs@.take(i as int);
            let ghost frac = cs@.skip(i as int + 1);
            let flen = cs.len() - i - 1;
            if flen == 0 || flen > 6 {
                return Err(invalid_confidence(value));
            }
            let mut acc: u32 = 0;
            let mut k: usize = 0;
            while k < flen
                invariant
                    cs@ == value@,
                    i < cs@.len(),
                    i + 1 + flen == cs.len(),
                    spec_dot_index(value@) == Some(i as nat),
                    flen == cs@.len() - i - 1,
                    1 <= flen <= 6,
                    frac == cs@.skip(i as int + 1),
                    k <= flen,
                    spec_all_digits(frac.take(k as int)),
                    acc as nat == spec_digits_value(frac.take(k as int)),
                    (acc as nat) < spec_pow10(k as nat),
                    spec_pow10(k as nat) <= 1000000,
                decreases flen - k,
            {
                let c = cs[i + 1 + k];
                assert(c == frac[k as int]);
                if !('0' <= c && c <= '9') {
                    assert(!spec_all_digits(frac)) by {
                        assert(!('0' <= frac[k as int] && frac[k as int] <= '9'));
                    }
                    assert(spec_confidence_millionths(value@) is None);
                    return Err(invalid_confidence(value));
                }
                let d = (c as u32) - ('0' as u32);
                let ghost prev = frac.take(k as int);
                let ghost next = frac.take(k + 1);
                assert(next.drop_last() =~= prev);
                assert(next.last() == c);
                assert(acc * 10 + d < spec_pow10(k as nat) * 10) by (nonlinear_arith)
                    requires
                        (acc as nat) < spec_pow10(k as nat),
                        d <= 9,
                ;
                assert(spec_pow10((k + 1) as nat) == 10 * spec_pow10(k as nat));
                assert(spec_pow10((k + 1) as nat) <= 1000000) by {
                    assert(k + 1 <= 6);
                    reveal_with_fuel(spec_pow10, 7);
                    lemma_pow10_mono((k + 1) as nat, 6);
                }
                acc = acc * 10 + d;
                k = k + 1;
                assert(spec_all_digits(next)) by {
                    assert forall|j: int| 0 <= j < next.len() implies '0' <= #[trigger] next[j] && next[j] <= '9' by {
                        if j < k - 1 {
                            assert(next[j] == prev[j]);
                        }
                    }
                }
            }
            assert(frac.take(flen as int) =~= frac);
            assert(spec_pow10(0) == 1);
            assert(acc as nat == spec_digits_value(frac));
            assert(spec_digits_value(frac) * 1 == spec_digits_value(frac));
            assert(spec_pow10(flen as nat) <= 1000000);
            let mut padded: u32 = acc;
            let mut j: usize = flen;
            while j < 6
                invariant
                    flen <= j <= 6,
                    padded as nat == spec_digits_value(frac) * spec_pow10((j - flen) as nat),
                    (padded as nat) < spec_pow10(j as nat),
                    spec_pow10(j as nat) <= 1000000,
                decreases 6 - j,
            {
                assert(spec_pow10((j - flen + 1) as nat) == 10 * spec_pow10((j - flen) as nat));
                assert(spec_pow10((j + 1) as nat) == 10 * spec_pow10(j as nat));
                assert(spec_pow10((j + 1) as nat) <= 1000000) by {
                    reveal_with_fuel(spec_pow10, 7);
                    lemma_pow10_mono((j + 1) as nat, 6);
                }
                assert(padded * 10 < spec_pow10(j as nat) * 10) by (nonlinear_arith)
                    requires
                        (padded as nat) < spec_pow10(j as nat),
                ;
                assert(spec_digits_value(frac) * spec_pow10((j - flen) as nat) * 10
                    == spec_digits_value(frac) * (10 * spec_pow10((j - flen) as nat))) by (nonlinear_arith);
                padded = padded * 10;
                j = j + 1;
            }
            assert(padded as nat == spec_digits_value(frac) * spec_pow10((6 - frac.len()) as nat));
            assert(spec_pow10(6) == 1000000) by {
                reveal_with_fuel(spec_pow10, 7);
            }
            if i == 1 && cs[0] == '0' {
                assert(whole =~= "0"@);
                Ok(padded)
            } else if i == 1 && cs[0] == '1' {
                assert(whole =~= "1"@);
                if padded == 0 {
                    Ok(1000000)
                } else {
                    Err(invalid_confidence(value))
                }
            } else {
                assert(whole != "0"@ && whole != "1"@) by {
                    if whole == "0"@ || whole == "1"@ {
                        assert(whole.len() == 1);
                        assert(whole[0] == cs@[0]);
                    }
                }
                Err(invalid_confidence(value))
            }
        },
    }
}

proof fn lemma_strip_step(s: Seq<char>, k: int)
    requires
        0 < k <= s.len(),
        s[k - 1] == '0',
    ensures
        spec_strip_zeros(s.take(k)) == spec_strip_zeros(s.take(k - 1)),
{
    assert(s.take(k).drop_last() =~= s.take(k - 1));
    assert(s.take(k).last() == s[k - 1]);
}

/// The canonical text of a threshold text.
#[verifier::rlimit(30)]
fn canonical_confidence_text(value: &str) -> (r: String)
    ensures
        r@ == spec_canonical_confidence(value@),
{
    let cs = chars_of(value);
    match dot_index(&cs) {
        None => owned(value),
        Some(_) => {
            let mut k: usize = cs.len();
            assert(cs@.take(k as int) =~= cs@);
            while k > 0 && cs[k - 1] == '0'
                invariant
                    k <= cs.len(),
                    spec_strip_zeros(cs@) == spec_strip_zeros(cs@.take(k as int)),
                decreases k,
            {
                proof {
                    lemma_strip_step(cs@, k as int);
                }
                k = k - 1;
            }
            let ghost t = cs@.take(k as int);
            assert(spec_strip_zeros(t) == t) by {
                if k > 0 {
                    assert(t.last() == cs@[k - 1]);
                }
            }
            let mut out = owned(value.substring_char(0, k));
            assert(out@ =~= t);
            if k > 0 && cs[k - 1] == '.' {
                out.append("0");
                proof {
                    reveal_strlit("0");
                    assert(t.last() == '.');
                    assert(out@ =~= t.push('0'));
                }
            } else {
                assert(!(t.len() > 0 && t.last() == '.')) by {
                    if k > 0 {
                        assert(t.last() == cs@[k - 1]);
                    }
                }
            }
            out
        },
    }
}

/// The shape of a canonical threshold text: `0`, `1`, or a decimal literal
/// of one digit, a point and one or more digits.
pub open spec fn confidence_shape(t: Seq<char>) -> bool {
    t == "0"@ || t == "1"@ || simple_decimal(t)
}

/// The text `s` up to some end past `j`, where `s[j]` is no zero, once its
/// trailing zeros are stripped.
proof fn lemma_strip_keeps(s: Seq<char>, j: int) -> (n: int)
    requires
        0 <= j < s.len(),
        s[j] != '0',
    ensures
        j < n <= s.len(),
        spec_strip_zeros(s) == s.take(n),
        forall|k: int| n <= k < s.len() ==> s[k] == '0',
    decreases s.len(),
{
    if s.last() == '0' {
        let n = lemma_strip_keeps(s.drop_last(), j);
        assert(s.drop_last().take(n) =~= s.take(n));
        assert forall|k: int| n <= k < s.len() implies s[k] == '0' by {
            if k < s.len() - 1 {
                assert(s[k] == s.drop_last()[k]);
            }
        }
        n
    } else {
        assert(s.take(s.len() as int) =~= s);
        s.len() as int
    }
}

proof fn lemma_dot_at(s: Seq<char>)
    requires
        spec_dot_index(s) is Some,
    ensures
        spec_dot_index(s)->0 < s.len(),
        s[spec_dot_index(s)->0 as int] == '.',
    decreases s.len(),
{
    if s[0] != '.' {
        lemma_dot_at(s.drop_first());
    }
}

proof fn lemma_pow10_add(a: nat, b: nat)
    ensures
        spec_pow10(a + b) == spec_pow10(a) * spec_pow10(b),
    decreases b,
{
    if b == 0 {
        assert(spec_pow10(0) == 1);
        assert(spec_pow10(a) * 1 == spec_pow10(a));
    } else {
        lemma_pow10_add(a, (b - 1) as nat);
        assert(((a + b - 1) as nat) == a + ((b - 1) as nat));
        assert(spec_pow10(a + b) == 10 * spec_pow10((a + b - 1) as nat));
        assert(spec_pow10(b) == 10 * spec_pow10((b - 1) as nat));
        assert(spec_pow10(a) * (10 * spec_pow10((b - 1) as nat)) == 10 * (spec_pow10(a) * spec_pow10((b - 1) as nat))) by (nonlinear_arith);
    }
}

/// Trailing zeros multiply a digit string's value by a power of ten.
proof fn lemma_digits_zeros(s: Seq<char>, k: nat)
    requires
        k <= s.len(),
        forall|i: int| k <= i < s.len() ==> s[i] == '0',
    ensures
        spec_digits_value(s) == spec_digits_value(s.take(k as int)) * spec_pow10((s.len() - k) as nat),
    decreases s.len(),
{
    if s.len() == k {
        assert(s.take(k as int) =~= s);
        assert(spec_pow10(0) == 1);
        assert(((s.len() - k) as nat) == 0);
        assert(spec_digits_value(s.take(k as int)) * spec_pow10(0) == spec_digits_value(s));
    } else {
        let t = s.drop_last();
        lemma_digits_zeros(t, k);
        assert(t.take(k as int) =~= s.take(k as int));
        assert(s.last() == '0');
        assert(spec_digits_value(s) == spec_digits_value(t) * 10);
        let a = spec_digits_value(s.take(k as int));
        let p = spec_pow10((t.len() - k) as nat);
        let m: nat = (s.len() - k) as nat;
        assert(((m - 1) as nat) == (t.len() - k) as nat);
        assert(spec_pow10(m) == 10 * spec_pow10((m - 1) as nat));
        assert(spec_pow10(m) == 10 * p);
        assert(spec_digits_value(t) == a * p);
        assert(a * p * 10 == a * (10 * p)) by (nonlinear_arith);
        assert(spec_digits_value(s) == a * spec_pow10(m));
    }
}

/// The canonical text of a threshold denotes the same threshold.
proof fn lemma_canonical_millionths(v: Seq<char>)
    requires
        spec_confidence_millionths(v) is Some,
    ensures
        spec_confidence_millionths(spec_canonical_confidence(v)) == spec_confidence_millionths(v),
{
    reveal_strlit("0");
    reveal_strlit("1");
    match spec_dot_index(v) {
        None => {},
        Some(i) => {
            lemma_dot_at(v);
            let whole = v.take(i as int);
            let frac = v.skip(i + 1 as int);
            assert(whole.len() == 1);
            assert(i == 1);
            assert forall|k: int| 2 <= k < v.len() implies '0' <= #[trigger] v[k] && v[k] <= '9' by {
                assert(v[k] == frac[k - 2]);
            }
            let n = lemma_strip_keeps(v, 1);
            let t = v.take(n);
            let c = spec_canonical_confidence(v);
            let f2: Seq<char> = if t.last() == '.' { seq!['0'] } else { t.skip(2) };
            if t.last() == '.' {
                assert(n == 2) by {
                    if n > 2 {
                        assert(t.last() == v[n - 1]);
                    }
                }
                assert(c == t.push('0'));
                assert(c.skip(2) =~= f2);
            } else {
                assert(n >= 3) by {
                    if n == 2 {
                        assert(t.last() == v[1]);
                    }
                }
                assert(c == t);
                assert(c.skip(2) =~= f2);
            }
            assert(c[0] == v[0] && c[1] == '.');
            assert(c.drop_first()[0] == '.');
            assert(spec_dot_index(c.drop_first()) == Some(0nat));
            assert(spec_dot_index(c) == Some(1nat));
            assert(c.take(1) =~= whole);
            // the fraction is its kept digits followed by zeros
            let kept: nat = (n - 2) as nat;
            assert forall|k: int| kept <= k < frac.len() implies frac[k] == '0' by {
                assert(frac[k] == v[k + 2]);
            }
            lemma_digits_zeros(frac, kept);
            let fv = spec_digits_value(frac) * spec_pow10((6 - frac.len()) as nat);
            lemma_pow10_add((frac.len() - kept) as nat, (6 - frac.len()) as nat);
            if t.last() == '.' {
                assert(n == 2) by {
                    if n > 2 {
                        assert(t.last() == v[n - 1]);
                    }
                }
                assert(kept == 0);
                assert(frac.take(0) =~= Seq::<char>::empty());
                assert(spec_digits_value(frac.take(0)) == 0);
                let pw = spec_pow10((frac.len() - kept) as nat);
                assert(frac.take(kept as int) == frac.take(0));
                assert(spec_digits_value(frac) == spec_digits_value(frac.take(0)) * pw);
                assert(spec_digits_value(frac.take(0)) * pw == 0) by (nonlinear_arith)
                    requires
                        spec_digits_value(frac.take(0)) == 0,
                ;
                assert(spec_digits_value(frac) == 0);
                assert(f2.drop_last() =~= Seq::<char>::empty());
                assert(spec_digits_value(f2.drop_last()) == 0);
                assert(f2.last() == '0');
                assert(spec_digits_value(f2) == 0);
                assert(spec_digits_value(f2) * spec_pow10((6 - f2.len()) as nat) == 0) by (nonlinear_arith)
                    requires
                        spec_digits_value(f2) == 0,
                ;
                assert(fv == 0) by (nonlinear_arith)
                    requires
                        spec_digits_value(frac) == 0,
                        fv == spec_digits_value(frac) * spec_pow10((6 - frac.len()) as nat),
                ;
            } else {
                assert(n >= 3) by {
                    if n == 2 {
                        assert(t.last() == v[1]);
                    }
                }
                assert(f2.len() == kept);
                assert forall|k: int| 0 <= k < kept implies #[trigger] frac.take(kept as int)[k] == f2[k] by {
                    assert(f2[k] == t[k + 2]);
                    assert(t[k + 2] == v[k + 2]);
                    assert(frac[k] == v[k + 2]);
                }
                assert(frac.take(kept as int) =~= f2);
                assert forall|k: int| 0 <= k < f2.len() implies '0' <= #[trigger] f2[k] && f2[k] <= '9' by {
                    assert(f2[k] == frac[k]);
                }
                let a = spec_digits_value(f2);
                assert(fv == a * spec_pow10((frac.len() - kept) as nat) * spec_pow10((6 - frac.len()) as nat));
                assert(a * spec_pow10((frac.len() - kept) as nat) * spec_pow10((6 - frac.len()) as nat)
                    == a * (spec_pow10((frac.len() - kept) as nat) * spec_pow10((6 - frac.len()) as nat))) by (nonlinear_arith);
                assert((frac.len() - kept) + (6 - frac.len()) == 6 - f2.len());
            }
        },
    }
}

/// Every text that denotes a threshold has a canonical text of the
/// threshold's shape.
proof fn lemma_canonical_shape(v: Seq<char>)
    requires
        spec_confidence_millionths(v) is Some,
    ensures
        confidence_shape(spec_canonical_confidence(v)),
{
    reveal_strlit("0");
    reveal_strlit("1");
    match spec_dot_index(v) {
        None => {},
        Some(i) => {
            lemma_dot_at(v);
            let whole = v.take(i as int);
            let frac = v.skip(i + 1 as int);
            assert(whole.len() == 1);
            assert(i == 1);
            assert(v[0] == whole[0]);
            assert('0' <= v[0] && v[0] <= '9');
            assert forall|k: int| 2 <= k < v.len() implies '0' <= #[trigger] v[k] && v[k] <= '9' by {
                assert(v[k] == frac[k - 2]);
            }
            let n = lemma_strip_keeps(v, 1);
            let t = v.take(n);
            assert(spec_strip_zeros(v) == t);
            if t.last() == '.' {
                assert(n == 2) by {
                    if n > 2 {
                        assert(t.last() == v[n - 1]);
                    }
                }
                let c = t.push('0');
                assert(c[0] == v[0] && c[1] == '.');
                assert(simple_decimal(c));
            } else {
                assert(n >= 3) by {
                    if n == 2 {
                        assert(t.last() == v[1]);
                    }
                }
                assert forall|k: int| 2 <= k < t.len() implies '0' <= #[trigger] t[k] && t[k] <= '9' by {
                    assert(t[k] == v[k]);
                }
                assert(t[0] == v[0] && t[1] == v[1]);
                assert(simple_decimal(t));
            }
        },
    }
}

/// A license confidence threshold from 0.0 through 1.0, kept as its canonical
/// text and as millionths.
#[derive(Debug)]
pub struct DenyConfidenceThreshold {
    text: String,
    millionths: u32,
}

impl View for DenyConfidenceThreshold {
    type V = Seq<char>;

    closed spec fn view(&self) -> Seq<char> {
        self.text@
    }
}

impl Clone for DenyConfidenceThreshold {
    fn clone(&self) -> (r: Self)
        ensures
            r == *self,
    {
        proof {
            use_type_invariant(self);
        }
        DenyConfidenceThreshold { text: self.text.clone(), millionths: self.millionths }
    }
}

impl DenyConfidenceThreshold {
    #[verifier::type_invariant]
    closed spec fn in_range(self) -> bool {
        &&& self.millionths <= 1000000
        &&& confidence_shape(self.text@)
        &&& spec_confidence_millionths(self.text@) == Some(self.millionths as nat)
    }

    /// The threshold in millionths.
    pub closed spec fn spec_millionths(&self) -> nat {
        self.millionths as nat
    }

    /// Reads a threshold: empty text, and text that is not a decimal from 0.0
    /// through 1.0 with at most six fraction digits, are refused.
    pub fn new(value: &str) -> (r: Result<DenyConfidenceThreshold, DenyTomlValueError>)
        ensures
            value@.len() == 0 ==> (r matches Err(e)
                && e matches DenyTomlValueError::Empty { field } && field@ == "confidence-threshold"@),
            value@.len() != 0 ==> match spec_confidence_millionths(value@) {
                Some(m) => r matches Ok(t) && t@ == spec_canonical_confidence(value@)
                    && t.spec_millionths() == m,
                None => r matches Err(e) && spec_invalid_confidence(value@, e),
            },
    {
        if is_empty_str(value) {
            return Err(DenyTomlValueError::Empty { field: "confidence-threshold" });
        }
        let millionths = match parse_confidence_millionths(value) {
            Ok(m) => m,
            Err(e) => return Err(e),
        };
        proof {
            lemma_canonical_shape(value@);
            lemma_canonical_millionths(value@);
        }
        Ok(DenyConfidenceThreshold { text: canonical_confidence_text(value), millionths })
    }

    /// The canonical text: `0`, `1`, or a digit, a point and digits.
    pub fn as_str(&self) -> (r: &str)
        ensures
            r@ == self@,
            confidence_shape(r@),
            spec_confidence_millionths(r@) == Some(self.spec_millionths()),
    {
        proof {
            use_type_invariant(self);
        }
        self.text.as_str()
    }

    /// Orders two thresholds by their value.
    pub fn compare_for_order(&self, other: &Self) -> (r: ValueOrder)
        ensures
            r == spec_order_of(self.spec_millionths(), other.spec_millionths()),
    {
        if self.millionths < other.millionths {
            ValueOrder::Less
        } else if self.millionths == other.millionths {
            ValueOrder::Equal
        } else {
            ValueOrder::Greater
        }
    }
}

impl PartialEq for DenyConfidenceThreshold {
    fn eq(&self, other: &Self) -> (r: bool) {
        self.millionths == other.millionths
    }
}

impl PartialEqSpecImpl for DenyConfidenceThreshold {
    open spec fn obeys_eq_spec() -> bool {
        true
    }

    open spec fn eq_spec(&self, other: &Self) -> bool {
        self.spec_millionths() == other.spec_millionths()
    }
}

impl Eq for DenyConfidenceThreshold {
}

proof fn lemma_pow10_mono(a: nat, b: nat)
    requires
        a <= b,
    ensures
        spec_pow10(a) <= spec_pow10(b),
    decreases b,
{
    if a < b {
        lemma_pow10_mono(a, (b - 1) as nat);
        lemma_pow10_bound((b - 1) as nat);
    }
}

} // verus!
