//! The scalar fields of the `[toolchain]` table: what an assertion decides
//! about the text a field holds, whom a mismatch is attributed to, and the
//! checks of what the file already holds.

use vstd::prelude::*;
use toml_edit::DocumentMut;
use crate::deny_fields::provenances_of;
use crate::deny_scalar_edit::{shown_current, shown_text};
use crate::findings::{Finding, FindingView, finding_views, mismatch, policies, push_mismatch};
use crate::lists::{list_is_empty, spec_resolved_list_is_empty};
use crate::requirements::{Provenance, ScalarAssertion, spec_assertion_message};
use crate::rustfmt_model::{debug_join, spec_debug_join};
use crate::rustfmt_reconcile::{list_message_and_attribution, list_policies, value_view};
use crate::scalar_value::ScalarValue;
use crate::text::{join2, join3, owned, str_eq};
use crate::text_order::string_views;
use crate::toml_doc::{lemma_way_open_in_table, TomlValue, TomlView, TomlWrite, item_at_table, read_item, remove_in_table, removed, toml_at, write_table, written, way_is_open};
use crate::toolchain_model::{ResolvedRustToolchainTomlRequirements, ResolvedToolchainScalar};

verus! {

/// The item at `toolchain.key`.
pub open spec fn tc_item(doc: DocumentMut, key: Seq<char>) -> Option<TomlView> {
    toml_at(doc, seq!["toolchain"@, key])
}

/// Reads the item at `toolchain.key`.
pub fn read_tc(doc: &DocumentMut, key: &str) -> (r: Option<TomlValue>)
    ensures
        value_view(r) == tc_item(*doc, key@),
{
    match item_at_table(doc, "toolchain", key) {
        Some(i) => Some(read_item(&i)),
        None => None,
    }
}

/// The string an item holds, if it is a string.
pub open spec fn item_str(cur: Option<TomlView>) -> Option<Seq<char>> {
    match cur {
        Some(v) => if v.0 == 0 { Some(v.1) } else { None },
        None => None,
    }
}

/// The texts of values.
pub open spec fn value_renders<T: ScalarValue>(ws: Seq<T>) -> Seq<Seq<char>> {
    ws.map_values(|w: T| w.spec_render())
}

/// Whether the current item meets a toolchain assertion, comparing the
/// item's string with the values' texts; ordered assertions never apply.
pub open spec fn tc_holds<T: ScalarValue>(cur: Option<TomlView>, a: ScalarAssertion<T>) -> bool {
    match a {
        ScalarAssertion::Equals(w, _) => item_str(cur) == Some(w.spec_render()),
        ScalarAssertion::OneOf(ws, _) => item_str(cur) matches Some(s) && value_renders(ws@).contains(s),
        ScalarAssertion::Present(_) => cur is Some,
        ScalarAssertion::Absent(_) => cur is None,
        _ => true,
    }
}

/// Whether an assertion counts as failing the current item when mismatches
/// are attributed: a broken assertion does, and an ordered one always does.
pub open spec fn tc_fails<T: ScalarValue>(cur: Option<TomlView>, a: ScalarAssertion<T>) -> bool {
    if a.spec_is_ordered() { true } else { !tc_holds(cur, a) }
}

/// The policies whose assertion fails the current item, in order.
pub open spec fn tc_failing<T: ScalarValue>(cur: Option<TomlView>, c: Seq<(Provenance, ScalarAssertion<T>)>) -> Seq<Seq<char>>
    decreases c.len(),
{
    if c.len() == 0 {
        seq![]
    } else {
        let prev = tc_failing(cur, c.drop_last());
        if tc_fails(cur, c.last().1) { prev.push(c.last().0.policy@) } else { prev }
    }
}

/// Whom a toolchain scalar mismatch is attributed to: the policies whose
/// assertion fails, or every contributor when none does.
pub open spec fn tc_attribution<T: ScalarValue>(cur: Option<TomlView>, c: Seq<(Provenance, ScalarAssertion<T>)>) -> Seq<Seq<char>> {
    if tc_failing(cur, c).len() > 0 {
        tc_failing(cur, c)
    } else {
        c.map_values(|x: (Provenance, ScalarAssertion<T>)| x.0.policy@)
    }
}

fn item_has_str(cur: &Option<TomlValue>, want: &str) -> (r: bool)
    ensures
        r == (item_str(value_view(*cur)) == Some(want@)),
{
    match cur {
        Some(TomlValue::Str { value, .. }) => str_eq(value.as_str(), want),
        _ => false,
    }
}

fn renders_of_values<T: ScalarValue>(ws: &Vec<T>) -> (r: Vec<String>)
    ensures
        string_views(r@) == value_renders(ws@),
{
    let mut out: Vec<String> = Vec::new();
    let mut i: usize = 0;
    while i < ws.len()
        invariant
            i <= ws.len(),
            string_views(out@) == value_renders(ws@.subrange(0, i as int)),
        decreases ws.len() - i,
    {
        let ghost before = out@;
        out.push(ws[i].render());
        assert(string_views(out@) =~= string_views(before).push(ws@[i as int].spec_render()));
        assert(value_renders(ws@.subrange(0, i + 1)) =~= value_renders(ws@.subrange(0, i as int)).push(ws@[i as int].spec_render()));
        i = i + 1;
    }
    assert(ws@.subrange(0, ws@.len() as int) =~= ws@);
    out
}

fn str_in(cur: &Option<TomlValue>, texts: &Vec<String>) -> (r: bool)
    ensures
        r == (item_str(value_view(*cur)) matches Some(s) && string_views(texts@).contains(s)),
{
    match cur {
        Some(TomlValue::Str { value, .. }) => crate::lists::strings_contain(texts, value.as_str()),
        _ => false,
    }
}

/// Whether a toolchain assertion holds for the current item.
pub fn tc_assertion_holds<T: ScalarValue>(cur: &Option<TomlValue>, a: &ScalarAssertion<T>) -> (r: bool)
    ensures
        r == tc_holds(value_view(*cur), *a),
{
    match a {
        ScalarAssertion::Equals(w, _) => {
            let t = w.render();
            item_has_str(cur, t.as_str())
        },
        ScalarAssertion::OneOf(ws, _) => {
            let ts = renders_of_values(ws);
            str_in(cur, &ts)
        },
        ScalarAssertion::Present(_) => cur.is_some(),
        ScalarAssertion::Absent(_) => cur.is_none(),
        _ => true,
    }
}

/// Whom a toolchain scalar mismatch is attributed to.
pub fn tc_attribution_for<T: ScalarValue>(cur: &Option<TomlValue>, c: &Vec<(Provenance, ScalarAssertion<T>)>) -> (r: Vec<Provenance>)
    ensures
        policies(r@) == tc_attribution(value_view(*cur), c@),
{
    let mut failing: Vec<Provenance> = Vec::new();
    let mut i: usize = 0;
    while i < c.len()
        invariant
            i <= c.len(),
            policies(failing@) == tc_failing(value_view(*cur), c@.subrange(0, i as int)),
        decreases c.len() - i,
    {
        let ghost before = failing@;
        assert(c@.subrange(0, i + 1).drop_last() =~= c@.subrange(0, i as int));
        let ordered = match &c[i].1 {
            ScalarAssertion::AtLeast(..) => true,
            ScalarAssertion::AtMost(..) => true,
            ScalarAssertion::Range(..) => true,
            _ => false,
        };
        if ordered || !tc_assertion_holds(cur, &c[i].1) {
            failing.push(c[i].0.clone());
            assert(policies(failing@) =~= policies(before).push(c@[i as int].0.policy@));
        }
        i = i + 1;
    }
    assert(c@.subrange(0, c@.len() as int) =~= c@);
    if failing.len() > 0 {
        failing
    } else {
        provenances_of(c)
    }
}

/// What a broken toolchain assertion's mismatch expects.
pub open spec fn tc_expected<T: ScalarValue>(a: ScalarAssertion<T>) -> Seq<char> {
    match a {
        ScalarAssertion::Equals(w, _) => w.spec_render(),
        ScalarAssertion::OneOf(ws, _) => "one of ["@ + spec_debug_join(value_renders(ws@)) + "]"@,
        ScalarAssertion::Present(_) => "present"@,
        _ => "absent"@,
    }
}

/// What applying a toolchain assertion to `toolchain.key` leaves: a broken
/// `Equals` reports and writes the wanted text, a broken `Absent` reports
/// and removes, a broken `OneOf` or `Present` only reports; the rest
/// changes nothing.
pub open spec fn tc_scalar_applied<T: ScalarValue>(
    old: DocumentMut,
    new: DocumentMut,
    f0: Seq<FindingView>,
    f1: Seq<FindingView>,
    key: Seq<char>,
    a: ScalarAssertion<T>,
    attribution: Seq<Seq<char>>,
) -> bool {
    let cur = tc_item(old, key);
    let display = "toolchain."@ + key;
    if tc_holds(cur, a) {
        new == old && f1 == f0
    } else {
        let shown = if a is Present { None } else { shown_text(cur) };
        &&& f1 == f0.push(mismatch(display, shown, tc_expected(a), spec_assertion_message(a), attribution))
        &&& match a {
            ScalarAssertion::Equals(w, _) => written(old, new, seq!["toolchain"@, key], (0, w.spec_render(), 0, false, seq![])),
            ScalarAssertion::Absent(_) => removed(old, new, seq!["toolchain"@, key]),
            _ => new == old,
        }
    }
}

/// Applies a merged assertion to the string field `toolchain.key`.
pub fn apply_string_scalar<T: ScalarValue>(
    doc: &mut DocumentMut,
    key: &str,
    assertion: &ScalarAssertion<T>,
    attribution: &Vec<Provenance>,
    findings: &mut Vec<Finding>,
)
    requires
        toml_at(*old(doc), seq!["toolchain"@]) matches Some(t) && t.0 == 5,
    ensures
        tc_scalar_applied(*old(doc), *final(doc), finding_views(old(findings)@), finding_views(final(findings)@),
            key@, *assertion, policies(attribution@)),
{
    let current = read_tc(doc, key);
    if tc_assertion_holds(&current, assertion) {
        return;
    }
    proof {
        reveal_strlit("toolchain.");
        reveal_strlit("one of [");
        reveal_strlit("]");
        reveal_strlit("present");
        reveal_strlit("absent");
    }
    let display = join2("toolchain.", key);
    match assertion {
        ScalarAssertion::Equals(want, message) => {
            let expected = want.render();
            push_mismatch(findings, display, shown_current(&current), expected.clone(), message.as_str(), attribution);
            proof {
                let path = seq!["toolchain"@, key@];
                assert(way_is_open(*doc, path)) by {
                    assert forall|i: int| 1 <= i < path.len() implies match #[trigger] toml_at(*doc, path.subrange(0, i)) {
                        Some(v) => v.0 == 5,
                        None => true,
                    } by {
                        assert(path.subrange(0, 1) =~= seq!["toolchain"@]);
                    }
                }
            }
            write_table(doc, "toolchain", key, &TomlWrite::Str(expected));
        },
        ScalarAssertion::OneOf(allowed, message) => {
            let listed = debug_join(&renders_of_values(allowed));
            push_mismatch(findings, display, shown_current(&current), join3("one of [", listed.as_str(), "]"), message.as_str(), attribution);
        },
        ScalarAssertion::Present(message) => {
            push_mismatch(findings, display, None, owned("present"), message.as_str(), attribution);
        },
        ScalarAssertion::Absent(message) => {
            push_mismatch(findings, display, shown_current(&current), owned("absent"), message.as_str(), attribution);
            proof {
                lemma_way_open_in_table(*doc, "toolchain"@, key@);
            }
            let _ = remove_in_table(doc, "toolchain", key);
        },
        _ => {},
    }
}


/// Reconciling a `OneOf` field of `[toolchain]` never edits the file, and
/// reports nothing exactly when the field holds a string equal to the text
/// of one of the allowed values; any other string, any other kind of value,
/// or no value gives exactly one mismatch at `toolchain.<key>` carrying the
/// assertion's message.
pub proof fn law_toolchain_one_of_accepts_only_listed_values<T: ScalarValue>(
    old: DocumentMut,
    new: DocumentMut,
    f0: Seq<FindingView>,
    f1: Seq<FindingView>,
    key: Seq<char>,
    allowed: Vec<T>,
    message: String,
    attribution: Seq<Seq<char>>,
)
    requires
        tc_scalar_applied(old, new, f0, f1, key, ScalarAssertion::OneOf(allowed, message), attribution),
    ensures
        new == old,
        (tc_item(old, key) matches Some(v) && v.0 == 0 && exists|i: int| 0 <= i < allowed@.len() && allowed@[i].spec_render() == v.1)
            ==> f1 == f0,
        !(tc_item(old, key) matches Some(v) && v.0 == 0 && exists|i: int| 0 <= i < allowed@.len() && allowed@[i].spec_render() == v.1)
            ==> {
            &&& f1.len() == f0.len() + 1
            &&& f1.subrange(0, f0.len() as int) == f0
            &&& f1.last().0 == 0
            &&& f1.last().1 == "toolchain."@ + key
            &&& f1.last().4 == message@
        },
{
    let cur = tc_item(old, key);
    let rs = value_renders(allowed@);
    match cur {
        Some(v) => {
            if v.0 == 0 {
                if exists|i: int| 0 <= i < allowed@.len() && allowed@[i].spec_render() == v.1 {
                    let i = choose|i: int| 0 <= i < allowed@.len() && allowed@[i].spec_render() == v.1;
                    assert(rs[i] == v.1);
                    assert(rs.contains(v.1));
                } else {
                    assert(!rs.contains(v.1)) by {
                        if rs.contains(v.1) {
                            let i = choose|i: int| 0 <= i < rs.len() && rs[i] == v.1;
                            assert(allowed@[i].spec_render() == v.1);
                        }
                    }
                    assert(f1.subrange(0, f0.len() as int) =~= f0);
                }
            } else {
                assert(f1.subrange(0, f0.len() as int) =~= f0);
            }
        },
        None => {
            assert(f1.subrange(0, f0.len() as int) =~= f0);
        },
    }
}


/// Whether the current item of a `[toolchain]` field is acceptable to an
/// assertion, in plain terms: a string that is the wanted value's text, or
/// the text of one of the allowed values; there; not there. Ordered
/// assertions do not apply to toolchain fields.
pub open spec fn tc_item_acceptable<T: ScalarValue>(cur: Option<TomlView>, a: ScalarAssertion<T>) -> bool {
    match a {
        ScalarAssertion::Equals(w, _) => cur matches Some(v) && v.0 == 0 && v.1 == w.spec_render(),
        ScalarAssertion::OneOf(ws, _) => cur matches Some(v) && v.0 == 0
            && exists|i: int| 0 <= i < ws@.len() && #[trigger] ws@[i].spec_render() == v.1,
        ScalarAssertion::Present(_) => cur is Some,
        ScalarAssertion::Absent(_) => cur is None,
        _ => true,
    }
}

/// What applying any assertion to a `[toolchain]` field does: an
/// acceptable item changes nothing; any other gives exactly one mismatch at
/// `toolchain.<key>` carrying the assertion's message, and an `Equals`
/// writes the wanted value's text there, an `Absent` removes the field,
/// while `OneOf` and `Present` leave the file as it is.
pub proof fn law_toolchain_scalar_accepts_only_acceptable_items<T: ScalarValue>(
    old: DocumentMut,
    new: DocumentMut,
    f0: Seq<FindingView>,
    f1: Seq<FindingView>,
    key: Seq<char>,
    a: ScalarAssertion<T>,
    attribution: Seq<Seq<char>>,
)
    requires
        tc_scalar_applied(old, new, f0, f1, key, a, attribution),
    ensures
        tc_item_acceptable(tc_item(old, key), a) ==> new == old && f1 == f0,
        !tc_item_acceptable(tc_item(old, key), a) ==> {
            &&& f1.len() == f0.len() + 1
            &&& f1.subrange(0, f0.len() as int) == f0
            &&& f1.last().0 == 0
            &&& f1.last().1 == "toolchain."@ + key
            &&& f1.last().4 == spec_assertion_message(a)
            &&& match a {
                ScalarAssertion::Equals(w, _) => tc_item(new, key) matches Some(v) && v.0 == 0 && v.1 == w.spec_render(),
                ScalarAssertion::Absent(_) => tc_item(new, key) is None,
                _ => new == old,
            }
        },
{
    let cur = tc_item(old, key);
    match a {
        ScalarAssertion::OneOf(ws, m) => {
            law_toolchain_one_of_accepts_only_listed_values(old, new, f0, f1, key, ws, m, attribution);
        },
        ScalarAssertion::Absent(_) => {
            if cur is Some {
                assert(seq!["toolchain"@, key].subrange(0, 2) =~= seq!["toolchain"@, key]);
                assert(crate::toml_doc::path_prefix(seq!["toolchain"@, key], seq!["toolchain"@, key]));
            }
        },
        _ => {},
    }
    if !tc_item_acceptable(cur, a) {
        assert(f1.subrange(0, f0.len() as int) =~= f0);
    }
}

} // verus!
