//! What one merged scalar assertion decides about the value a `deny.toml`
//! field holds: whether it holds, the mismatch it reports, and the edit it
//! asks for.

use vstd::prelude::*;
use crate::deny_confidence::ValueOrder;
use crate::deny_scalars::{DenyTomlScalar, ScalarKey, key_order};
use crate::findings::{Finding, FindingView, finding_views, mismatch, opt_text, policies, push_mismatch};
use crate::requirements::{Provenance, ScalarAssertion, spec_assertion_message};
use crate::rustfmt_model::{debug_join, spec_debug_join};
use crate::rustfmt_reconcile::{current_text, value_view};
use crate::scalar_value::ScalarValue;
use crate::text::{join2, join3, owned, spec_trim, trim_blanks};
use crate::text_order::string_views;
use crate::toml_doc::{TomlValue, TomlView, TomlWrite, WriteView, writable, write_view};

verus! {

/// A change a scalar assertion asks of its field.
#[derive(Debug)]
pub enum ScalarFieldEdit {
    /// Write this value.
    Write(TomlWrite),
    /// Remove the field.
    Remove,
}

/// An edit seen as what it writes, or nothing for a removal.
pub open spec fn edit_view(e: ScalarFieldEdit) -> Option<WriteView> {
    match e {
        ScalarFieldEdit::Write(w) => Some(write_view(w)),
        ScalarFieldEdit::Remove => None,
    }
}

/// The key of the value the current item reads as, if any.
pub open spec fn parsed_key<T: DenyTomlScalar>(cur: Option<TomlView>) -> Option<ScalarKey> {
    match cur {
        Some(v) => T::spec_item_key(v),
        None => None,
    }
}

/// Whether a read value is not ordered `bad` against `w`: values of a kind
/// that has no order always pass.
pub open spec fn order_passes<T: DenyTomlScalar>(k: Option<ScalarKey>, w: T, bad: ValueOrder) -> bool {
    k matches Some(x) && key_order(T::spec_ordered(), x, w.spec_key()) != Some(bad)
}

/// The keys of values.
pub open spec fn keys_of<T: DenyTomlScalar>(ws: Seq<T>) -> Seq<ScalarKey> {
    ws.map_values(|w: T| w.spec_key())
}

/// The texts of values.
pub open spec fn renders_of<T: DenyTomlScalar>(ws: Seq<T>) -> Seq<Seq<char>> {
    ws.map_values(|w: T| w.spec_render())
}

/// Whether the current item meets the assertion.
pub open spec fn scalar_holds<T: DenyTomlScalar>(cur: Option<TomlView>, a: ScalarAssertion<T>) -> bool {
    let k = parsed_key::<T>(cur);
    match a {
        ScalarAssertion::Equals(w, _) => k == Some(w.spec_key()),
        ScalarAssertion::OneOf(ws, _) => k matches Some(x) && keys_of(ws@).contains(x),
        ScalarAssertion::Present(_) => cur is Some,
        ScalarAssertion::Absent(_) => cur is None,
        ScalarAssertion::AtLeast(w, _) => order_passes(k, w, ValueOrder::Less),
        ScalarAssertion::AtMost(w, _) => order_passes(k, w, ValueOrder::Greater),
        ScalarAssertion::Range(lo, hi, _) => order_passes(k, lo, ValueOrder::Less) && order_passes(k, hi, ValueOrder::Greater),
    }
}

/// What a broken assertion's mismatch expects.
pub open spec fn scalar_expected<T: DenyTomlScalar>(a: ScalarAssertion<T>) -> Seq<char> {
    match a {
        ScalarAssertion::Equals(w, _) => w.spec_render(),
        ScalarAssertion::OneOf(ws, _) => "one of ["@ + spec_debug_join(renders_of(ws@)) + "]"@,
        ScalarAssertion::Present(_) => "present"@,
        ScalarAssertion::Absent(_) => "absent"@,
        ScalarAssertion::AtLeast(w, _) => w.spec_render(),
        ScalarAssertion::AtMost(w, _) => w.spec_render(),
        ScalarAssertion::Range(lo, hi, _) => "between "@ + lo.spec_render() + " and "@ + hi.spec_render(),
    }
}

/// The edit a broken assertion asks for: the wanted value (the lower bound
/// of a range) written, a removal (`None` inside) for `Absent`, nothing for
/// `OneOf` and `Present`.
pub open spec fn scalar_edit_view<T: DenyTomlScalar>(a: ScalarAssertion<T>) -> Option<Option<WriteView>> {
    match a {
        ScalarAssertion::Equals(w, _) => Some(Some(w.spec_write())),
        ScalarAssertion::OneOf(_, _) => None,
        ScalarAssertion::Present(_) => None,
        ScalarAssertion::Absent(_) => Some(None),
        ScalarAssertion::AtLeast(w, _) => Some(Some(w.spec_write())),
        ScalarAssertion::AtMost(w, _) => Some(Some(w.spec_write())),
        ScalarAssertion::Range(lo, _, _) => Some(Some(lo.spec_write())),
    }
}

/// The current text a mismatch shows: the item's text without surrounding
/// blanks.
pub open spec fn shown_text(cur: Option<TomlView>) -> Option<Seq<char>> {
    match current_text(cur) {
        Some(t) => Some(spec_trim(t)),
        None => None,
    }
}

/// The mismatch a broken assertion reports at `key`.
pub open spec fn scalar_mismatch<T: DenyTomlScalar>(key: Seq<char>, cur: Option<TomlView>, a: ScalarAssertion<T>, attribution: Seq<Seq<char>>) -> FindingView {
    mismatch(key, shown_text(cur), scalar_expected(a), spec_assertion_message(a), attribution)
}

/// The text of the current item, without surrounding blanks.
pub fn shown_current(cur: &Option<TomlValue>) -> (r: Option<String>)
    ensures
        opt_text(r) == shown_text(value_view(*cur)),
{
    match crate::rustfmt_reconcile::render_current(cur) {
        Some(t) => Some(trim_blanks(t.as_str())),
        None => None,
    }
}

fn parse_current<T: DenyTomlScalar>(cur: &Option<TomlValue>) -> (r: Option<T>)
    ensures
        match r {
            Some(x) => parsed_key::<T>(value_view(*cur)) == Some(x.spec_key()),
            None => parsed_key::<T>(value_view(*cur)) is None,
        },
{
    match cur {
        Some(v) => T::parse_item(v),
        None => None,
    }
}

fn passes_order<T: DenyTomlScalar>(parsed: &Option<T>, want: &T, bad: ValueOrder) -> (r: bool)
    ensures
        r == (parsed matches Some(p) && order_passes(Some(p.spec_key()), *want, bad)),
{
    match parsed {
        Some(p) => {
            proof {
                p.lemma_key(want);
            }
            match p.compare_for_order(want) {
                Some(o) => o != bad,
                None => true,
            }
        },
        None => false,
    }
}

fn one_of_holds<T: DenyTomlScalar>(parsed: &Option<T>, allowed: &Vec<T>) -> (r: bool)
    ensures
        r == (parsed matches Some(p) && keys_of(allowed@).contains(p.spec_key())),
{
    let p = match parsed {
        Some(p) => p,
        None => return false,
    };
    let mut i: usize = 0;
    while i < allowed.len()
        invariant
            i <= allowed.len(),
            *parsed == Some(*p),
            forall|j: int| 0 <= j < i ==> allowed@[j].spec_key() != p.spec_key(),
        decreases allowed.len() - i,
    {
        proof {
            p.lemma_key(&allowed@[i as int]);
        }
        if p.same_value(&allowed[i]) {
            assert(keys_of(allowed@)[i as int] == p.spec_key());
            assert(keys_of(allowed@).contains(p.spec_key()));
            return true;
        }
        i = i + 1;
    }
    assert forall|j: int| 0 <= j < keys_of(allowed@).len() implies keys_of(allowed@)[j] != p.spec_key() by {
        assert(keys_of(allowed@)[j] == allowed@[j].spec_key());
    }
    false
}

fn rendered_values<T: DenyTomlScalar>(allowed: &Vec<T>) -> (r: Vec<String>)
    ensures
        string_views(r@) == renders_of(allowed@),
{
    let mut out: Vec<String> = Vec::new();
    let mut i: usize = 0;
    while i < allowed.len()
        invariant
            i <= allowed.len(),
            string_views(out@) == renders_of(allowed@.subrange(0, i as int)),
        decreases allowed.len() - i,
    {
        let ghost before = out@;
        out.push(allowed[i].render());
        assert(string_views(out@) =~= string_views(before).push(allowed@[i as int].spec_render()));
        assert(renders_of(allowed@.subrange(0, i + 1)) =~= renders_of(allowed@.subrange(0, i as int)).push(allowed@[i as int].spec_render()));
        i = i + 1;
    }
    assert(allowed@.subrange(0, allowed@.len() as int) =~= allowed@);
    out
}

/// Checks the current item of a field against a merged scalar assertion.
/// When it holds, nothing happens. Otherwise one mismatch is reported at
/// `display_key`, attributed to `attribution`, and the edit the assertion
/// asks for is returned: a write of the wanted value (`Equals`, `AtLeast`,
/// `AtMost`, the lower bound of a `Range`), a removal (`Absent`), or none
/// (`OneOf`, `Present`).
pub fn scalar_edit<T: DenyTomlScalar>(
    display_key: &str,
    current: &Option<TomlValue>,
    assertion: &ScalarAssertion<T>,
    attribution: &Vec<Provenance>,
    findings: &mut Vec<Finding>,
) -> (r: Option<ScalarFieldEdit>)
    ensures
        scalar_holds(value_view(*current), *assertion) ==> r is None && final(findings)@ == old(findings)@,
        !scalar_holds(value_view(*current), *assertion) ==> {
            &&& finding_views(final(findings)@) == finding_views(old(findings)@).push(
                scalar_mismatch(display_key@, value_view(*current), *assertion, policies(attribution@)))
            &&& match r {
                Some(e) => scalar_edit_view(*assertion) == Some(edit_view(e)),
                None => scalar_edit_view(*assertion) is None,
            }
        },
        r matches Some(ScalarFieldEdit::Write(w)) ==> writable(write_view(w)),
{
    let parsed: Option<T> = parse_current(current);
    proof {
        reveal_strlit("one of [");
        reveal_strlit("]");
        reveal_strlit("present");
        reveal_strlit("absent");
        reveal_strlit("between ");
        reveal_strlit(" and ");
    }
    match assertion {
        ScalarAssertion::Equals(want, message) => {
            let holds = match &parsed {
                Some(p) => {
                    proof {
                        p.lemma_key(want);
                    }
                    p.same_value(want)
                },
                None => false,
            };
            if holds {
                return None;
            }
            push_mismatch(findings, owned(display_key), shown_current(current), want.render(), message.as_str(), attribution);
            Some(ScalarFieldEdit::Write(want.write_item()))
        },
        ScalarAssertion::OneOf(allowed, message) => {
            if one_of_holds(&parsed, allowed) {
                return None;
            }
            let listed = debug_join(&rendered_values(allowed));
            push_mismatch(findings, owned(display_key), shown_current(current), join3("one of [", listed.as_str(), "]"),
                message.as_str(), attribution);
            None
        },
        ScalarAssertion::Present(message) => {
            if current.is_some() {
                return None;
            }
            push_mismatch(findings, owned(display_key), None, owned("present"), message.as_str(), attribution);
            None
        },
        ScalarAssertion::Absent(message) => {
            if current.is_none() {
                return None;
            }
            push_mismatch(findings, owned(display_key), shown_current(current), owned("absent"), message.as_str(), attribution);
            Some(ScalarFieldEdit::Remove)
        },
        ScalarAssertion::AtLeast(want, message) => {
            scalar_order_edit(display_key, current, &parsed, want, message.as_str(), ValueOrder::Less, attribution, findings)
        },
        ScalarAssertion::AtMost(want, message) => {
            scalar_order_edit(display_key, current, &parsed, want, message.as_str(), ValueOrder::Greater, attribution, findings)
        },
        ScalarAssertion::Range(min, max, message) => {
            if passes_order(&parsed, min, ValueOrder::Less) && passes_order(&parsed, max, ValueOrder::Greater) {
                return None;
            }
            let low = min.render();
            let high = max.render();
            let expected = join2(join3("between ", low.as_str(), " and ").as_str(), high.as_str());
            push_mismatch(findings, owned(display_key), shown_current(current), expected, message.as_str(), attribution);
            Some(ScalarFieldEdit::Write(min.write_item()))
        },
    }
}

/// An `AtLeast` (`bad` is `Less`) or `AtMost` (`bad` is `Greater`)
/// assertion: a value that reads and is not ordered `bad` against `want`
/// holds; otherwise the mismatch is reported and `want` is to be written.
fn scalar_order_edit<T: DenyTomlScalar>(
    display_key: &str,
    current: &Option<TomlValue>,
    parsed: &Option<T>,
    want: &T,
    message: &str,
    bad: ValueOrder,
    attribution: &Vec<Provenance>,
    findings: &mut Vec<Finding>,
) -> (r: Option<ScalarFieldEdit>)
    requires
        match parsed {
            Some(x) => parsed_key::<T>(value_view(*current)) == Some(x.spec_key()),
            None => parsed_key::<T>(value_view(*current)) is None,
        },
    ensures
        order_passes(parsed_key::<T>(value_view(*current)), *want, bad) ==> r is None && final(findings)@ == old(findings)@,
        !order_passes(parsed_key::<T>(value_view(*current)), *want, bad) ==> {
            &&& finding_views(final(findings)@) == finding_views(old(findings)@).push(
                mismatch(display_key@, shown_text(value_view(*current)), want.spec_render(), message@, policies(attribution@)))
            &&& r matches Some(e) && edit_view(e) == Some(want.spec_write())
        },
        r matches Some(ScalarFieldEdit::Write(w)) ==> writable(write_view(w)),
{
    if passes_order(parsed, want, bad) {
        return None;
    }
    push_mismatch(findings, owned(display_key), shown_current(current), want.render(), message, attribution);
    Some(ScalarFieldEdit::Write(want.write_item()))
}


/// For a `Range(lo, hi)` assertion on an ordered `deny.toml` value, the
/// field's current value is left alone exactly when it reads as a value
/// whose number lies from `lo` through `hi`; a value below `lo` or above
/// `hi` (or one that does not read) gives one mismatch at the display key
/// and a write of `lo`.
pub proof fn law_range_accepts_only_values_within<T: DenyTomlScalar>(
    display_key: Seq<char>,
    cur: Option<TomlView>,
    lo: T,
    hi: T,
    message: String,
    attribution: Seq<Seq<char>>,
    f0: Seq<FindingView>,
    f1: Seq<FindingView>,
    r: Option<ScalarFieldEdit>,
)
    requires
        T::spec_ordered(),
        scalar_holds(cur, ScalarAssertion::Range(lo, hi, message)) ==> r is None && f1 == f0,
        !scalar_holds(cur, ScalarAssertion::Range(lo, hi, message)) ==> {
            &&& f1 == f0.push(scalar_mismatch(display_key, cur, ScalarAssertion::Range(lo, hi, message), attribution))
            &&& match r {
                Some(e) => scalar_edit_view(ScalarAssertion::Range(lo, hi, message)) == Some(edit_view(e)),
                None => scalar_edit_view(ScalarAssertion::Range(lo, hi, message)) is None,
            }
        },
    ensures
        (parsed_key::<T>(cur) matches Some(x) && lo.spec_key().0 <= x.0 <= hi.spec_key().0) ==> r is None && f1 == f0,
        !(parsed_key::<T>(cur) matches Some(x) && lo.spec_key().0 <= x.0 <= hi.spec_key().0) ==> {
            &&& f1.len() == f0.len() + 1
            &&& f1.subrange(0, f0.len() as int) == f0
            &&& f1.last().0 == 0
            &&& f1.last().1 == display_key
            &&& f1.last().4 == message@
            &&& r matches Some(e) && edit_view(e) == Some(lo.spec_write())
        },
{
    if !(parsed_key::<T>(cur) matches Some(x) && lo.spec_key().0 <= x.0 <= hi.spec_key().0) {
        assert(f1.subrange(0, f0.len() as int) =~= f0);
    }
}


/// Whether the field's current item is acceptable to an assertion, in plain
/// terms: the value it reads as equals the wanted one, or one of the
/// allowed ones; the item is there, or not; the value's number is at least
/// (at most, between) the bound's number for values that are ordered, and
/// the value reads at all for values that are not.
pub open spec fn deny_value_acceptable<T: DenyTomlScalar>(cur: Option<TomlView>, a: ScalarAssertion<T>) -> bool {
    let k = parsed_key::<T>(cur);
    match a {
        ScalarAssertion::Equals(w, _) => k == Some(w.spec_key()),
        ScalarAssertion::OneOf(ws, _) => exists|i: int| 0 <= i < ws@.len() && k == Some(#[trigger] ws@[i].spec_key()),
        ScalarAssertion::Present(_) => cur is Some,
        ScalarAssertion::Absent(_) => cur is None,
        ScalarAssertion::AtLeast(w, _) => k matches Some(x) && (T::spec_ordered() ==> x.0 >= w.spec_key().0),
        ScalarAssertion::AtMost(w, _) => k matches Some(x) && (T::spec_ordered() ==> x.0 <= w.spec_key().0),
        ScalarAssertion::Range(lo, hi, _) => k matches Some(x)
            && (T::spec_ordered() ==> lo.spec_key().0 <= x.0 && x.0 <= hi.spec_key().0),
    }
}

/// What checking a `deny.toml` field against any scalar assertion does: an
/// acceptable item changes nothing; any other gives exactly one mismatch at
/// the display key carrying the assertion's message, and the edit that
/// fits the assertion (a write of the wanted value, or of the lower bound of
/// a range; a removal for `Absent`; none for `OneOf` and `Present`).
pub proof fn law_scalar_edit_accepts_only_acceptable_values<T: DenyTomlScalar>(
    display_key: Seq<char>,
    cur: Option<TomlView>,
    a: ScalarAssertion<T>,
    attribution: Seq<Seq<char>>,
    f0: Seq<FindingView>,
    f1: Seq<FindingView>,
    r: Option<ScalarFieldEdit>,
)
    requires
        scalar_holds(cur, a) ==> r is None && f1 == f0,
        !scalar_holds(cur, a) ==> {
            &&& f1 == f0.push(scalar_mismatch(display_key, cur, a, attribution))
            &&& match r {
                Some(e) => scalar_edit_view(a) == Some(edit_view(e)),
                None => scalar_edit_view(a) is None,
            }
        },
    ensures
        deny_value_acceptable(cur, a) ==> r is None && f1 == f0,
        !deny_value_acceptable(cur, a) ==> {
            &&& f1.len() == f0.len() + 1
            &&& f1.subrange(0, f0.len() as int) == f0
            &&& f1.last().0 == 0
            &&& f1.last().1 == display_key
            &&& f1.last().4 == spec_assertion_message(a)
            &&& match a {
                ScalarAssertion::Equals(w, _) => r matches Some(e) && edit_view(e) == Some(w.spec_write()),
                ScalarAssertion::AtLeast(w, _) => r matches Some(e) && edit_view(e) == Some(w.spec_write()),
                ScalarAssertion::AtMost(w, _) => r matches Some(e) && edit_view(e) == Some(w.spec_write()),
                ScalarAssertion::Range(lo, _, _) => r matches Some(e) && edit_view(e) == Some(lo.spec_write()),
                ScalarAssertion::Absent(_) => r matches Some(ScalarFieldEdit::Remove),
                _ => r is None,
            }
        },
{
    match a {
        ScalarAssertion::OneOf(ws, _) => {
            let k = parsed_key::<T>(cur);
            if exists|i: int| 0 <= i < ws@.len() && k == Some(#[trigger] ws@[i].spec_key()) {
                let i = choose|i: int| 0 <= i < ws@.len() && k == Some(#[trigger] ws@[i].spec_key());
                assert(keys_of(ws@)[i] == ws@[i].spec_key());
            } else {
                if k matches Some(x) && keys_of(ws@).contains(x) {
                    let i = choose|i: int| 0 <= i < keys_of(ws@).len() && keys_of(ws@)[i] == k->0;
                    assert(ws@[i].spec_key() == keys_of(ws@)[i]);
                }
            }
        },
        _ => {},
    }
    if !deny_value_acceptable(cur, a) {
        assert(f1.subrange(0, f0.len() as int) =~= f0);
    }
}

} // verus!
