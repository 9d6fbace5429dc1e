//! Reconciling a `rustfmt.toml` document with merged requirements: scalar
//! settings, list settings, forbidden `ignore` globs, and closing the file.

use vstd::prelude::*;
use toml_edit::DocumentMut;
use crate::findings::{Finding, FindingView, finding_views, mismatch, opt_text, policies, push_mismatch};
use crate::requirements::{ConfigScalar, Provenance};
use crate::rustfmt_model::{
    AssertionView, ResolvedRustfmtScalarAssertion, RustfmtScalarAssertion, debug_join, debug_str, debug_text,
    spec_debug_join,
};
use crate::rustfmt_merge::{ResolvedRustfmtScalar, ResolvedRustfmtTomlRequirements, matched_paths};
use crate::rustfmt_model::{RustfmtIgnorePathGlob, sorted_texts};
use crate::items::ResolvedItemEntry;
use crate::globs::{glob_compile_error, glob_error, glob_is_match, glob_path_match, plain_matches};
use crate::text_order::{sort_dedup, lemma_sorted_same_set_equal};
use crate::scalar_value::{ScalarValue, signed_decimal_text, spec_bool_text, spec_decimal};
use crate::text::{join2, join3, owned, str_eq};
use crate::text_order::string_views;
use crate::toml_doc::{
    TomlValue, TomlView, TomlWrite, WriteView, array_write, fresh_text, holds_written, item_at_root, read_item,
    lemma_written_twice, remove_root, removed, root_keys, toml_at, toml_keys, without_key, write_root, write_view, written,
};

verus! {

// ---------------------------------------------------------------- reading

/// The item at a root key, read.
pub open spec fn root_item(doc: DocumentMut, key: Seq<char>) -> Option<TomlView> {
    toml_at(doc, seq![key])
}

/// The view of an optional read item.
pub open spec fn value_view(o: Option<TomlValue>) -> Option<TomlView> {
    match o {
        Some(v) => Some(v@),
        None => None,
    }
}

/// Reads the item at a root key.
pub fn read_root(doc: &DocumentMut, key: &str) -> (r: Option<TomlValue>)
    ensures
        match r {
            Some(v) => root_item(*doc, key@) == Some(v@),
            None => root_item(*doc, key@) is None,
        },
{
    match item_at_root(doc, key) {
        Some(item) => Some(read_item(&item)),
        None => None,
    }
}

/// The text shown for an item's current value: its rendered text when it
/// is a value; nothing for a table or an absent item.
pub open spec fn current_text(v: Option<TomlView>) -> Option<Seq<char>> {
    match v {
        Some(t) => if t.0 <= 4 { Some(t.5) } else { None },
        None => None,
    }
}

/// The text shown for an item's current value.
pub fn render_current(v: &Option<TomlValue>) -> (r: Option<String>)
    ensures
        opt_text(r) == current_text(value_view(*v)),
{
    match v {
        Some(TomlValue::Str { text, .. }) => Some(text.clone()),
        Some(TomlValue::Int { text, .. }) => Some(text.clone()),
        Some(TomlValue::Bool { text, .. }) => Some(text.clone()),
        Some(TomlValue::Array { text, .. }) => Some(text.clone()),
        Some(TomlValue::Other { text }) => Some(text.clone()),
        _ => None,
    }
}

// ---------------------------------------------------------------- scalars

/// Whether an item holds the value `want`, with its type.
pub open spec fn spec_scalar_matches(v: TomlView, want: ConfigScalar) -> bool {
    match want {
        ConfigScalar::Str(s) => v.0 == 0 && v.1 == s@,
        ConfigScalar::Int(i) => v.0 == 1 && v.2 == i,
        ConfigScalar::Bool(b) => v.0 == 2 && v.3 == b,
    }
}

/// Whether an item holds the value `want`, with its type.
pub fn scalar_matches(v: &TomlValue, want: &ConfigScalar) -> (r: bool)
    ensures
        r == spec_scalar_matches(v@, *want),
{
    match (v, want) {
        (TomlValue::Str { value, .. }, ConfigScalar::Str(s)) => str_eq(value.as_str(), s.as_str()),
        (TomlValue::Int { value, .. }, ConfigScalar::Int(i)) => *value == *i,
        (TomlValue::Bool { value, .. }, ConfigScalar::Bool(b)) => *value == *b,
        _ => false,
    }
}

/// The value to write for `want`.
pub open spec fn scalar_write(want: ConfigScalar) -> TomlWrite {
    match want {
        ConfigScalar::Str(s) => TomlWrite::Str(s),
        ConfigScalar::Int(i) => TomlWrite::Int(i),
        ConfigScalar::Bool(b) => TomlWrite::Bool(b),
    }
}

/// The value to write for `want`.
pub fn scalar_item(want: &ConfigScalar) -> (r: TomlWrite)
    ensures
        r == scalar_write(*want),
{
    match want {
        ConfigScalar::Str(s) => TomlWrite::Str(s.clone()),
        ConfigScalar::Int(i) => TomlWrite::Int(*i),
        ConfigScalar::Bool(b) => TomlWrite::Bool(*b),
    }
}

/// How a required value is shown: a text in its `Debug` form, a number or
/// a boolean as written.
pub open spec fn spec_render_scalar(want: ConfigScalar) -> Seq<char> {
    match want {
        ConfigScalar::Str(s) => debug_text(s@),
        ConfigScalar::Int(i) => if i < 0 { "-"@ + spec_decimal((-i) as nat) } else { spec_decimal(i as nat) },
        ConfigScalar::Bool(b) => spec_bool_text(b),
    }
}

/// How a required value is shown.
pub fn render_scalar(want: &ConfigScalar) -> (r: String)
    ensures
        r@ == spec_render_scalar(*want),
{
    match want {
        ConfigScalar::Str(s) => debug_str(s.as_str()),
        ConfigScalar::Int(i) => signed_decimal_text(*i),
        ConfigScalar::Bool(b) => b.render(),
    }
}

/// Whether the current item breaks an assertion: an `Equals` that does not
/// hold its value, a `OneOf` that is not one of its texts, a `Present`
/// that is absent, an `Absent` that is present.
pub open spec fn spec_assertion_fails(current: Option<TomlView>, a: AssertionView) -> bool {
    if a.0 == 0 {
        !(current matches Some(v) && (a.1 matches Some(w) && spec_scalar_matches(v, w)))
    } else if a.0 == 1 {
        !(current matches Some(v) && v.0 == 0 && a.2.contains(v.1))
    } else if a.0 == 2 {
        current is None
    } else {
        current is Some
    }
}

fn texts_contain(vs: &Vec<String>, s: &str) -> (r: bool)
    ensures
        r == string_views(vs@).contains(s@),
{
    crate::lists::strings_contain(vs, s)
}

/// Whether the current item breaks an assertion.
pub fn scalar_assertion_fails(current: &Option<TomlValue>, a: &RustfmtScalarAssertion) -> (r: bool)
    ensures
        r == spec_assertion_fails(value_view(*current), a@),
{
    match a {
        RustfmtScalarAssertion::Equals(want, _) => match current {
            Some(v) => !scalar_matches(v, want),
            None => true,
        },
        RustfmtScalarAssertion::OneOf(allowed, _) => match current {
            Some(TomlValue::Str { value, .. }) => !texts_contain(allowed, value.as_str()),
            _ => true,
        },
        RustfmtScalarAssertion::Present(_) => current.is_none(),
        RustfmtScalarAssertion::Absent(_) => current.is_some(),
    }
}

/// The policies whose assertion the current item breaks, in order.
pub open spec fn failing_policies(current: Option<TomlView>, c: Seq<(Provenance, RustfmtScalarAssertion)>) -> Seq<Seq<char>>
    decreases c.len(),
{
    if c.len() == 0 {
        seq![]
    } else {
        let prev = failing_policies(current, c.drop_last());
        if spec_assertion_fails(current, c.last().1@) { prev.push(c.last().0.policy@) } else { prev }
    }
}

/// Who a scalar mismatch is attributed to: the policies whose assertion the
/// current item breaks, or every contributor when none does.
pub open spec fn scalar_attribution(current: Option<TomlView>, c: Seq<(Provenance, RustfmtScalarAssertion)>) -> Seq<Seq<char>> {
    if failing_policies(current, c).len() > 0 {
        failing_policies(current, c)
    } else {
        c.map_values(|x: (Provenance, RustfmtScalarAssertion)| x.0.policy@)
    }
}

/// Who a scalar mismatch at `key` is attributed to.
pub fn scalar_attribution_for(current: &Option<TomlValue>, resolved: &ResolvedRustfmtScalar) -> (r: Vec<Provenance>)
    ensures
        policies(r@) == scalar_attribution(value_view(*current), resolved.collected@),
{
    let c = &resolved.collected;
    let mut failing: Vec<Provenance> = Vec::new();
    let mut all: Vec<Provenance> = Vec::new();
    let mut i: usize = 0;
    while i < c.len()
        invariant
            i <= c.len(),
            policies(failing@) == failing_policies(value_view(*current), c@.subrange(0, i as int)),
            policies(all@) == c@.subrange(0, i as int).map_values(|x: (Provenance, RustfmtScalarAssertion)| x.0.policy@),
        decreases c.len() - i,
    {
        let ghost bf = failing@;
        let ghost ba = all@;
        let ghost sub = c@.subrange(0, i + 1);
        assert(sub.drop_last() =~= c@.subrange(0, i as int));
        if scalar_assertion_fails(current, &c[i].1) {
            failing.push(c[i].0.clone());
            assert(policies(failing@) =~= policies(bf).push(c@[i as int].0.policy@));
        }
        all.push(c[i].0.clone());
        assert(policies(all@) =~= policies(ba).push(c@[i as int].0.policy@));
        assert(sub.map_values(|x: (Provenance, RustfmtScalarAssertion)| x.0.policy@)
            =~= c@.subrange(0, i as int).map_values(|x: (Provenance, RustfmtScalarAssertion)| x.0.policy@).push(c@[i as int].0.policy@));
        i = i + 1;
    }
    assert(c@.subrange(0, c@.len() as int) =~= c@);
    if failing.len() > 0 {
        failing
    } else {
        all
    }
}

/// The finding of one scalar assertion against the current item, if any:
/// the merged assertion's tag decides what is expected.
pub open spec fn scalar_finding(key: Seq<char>, current: Option<TomlView>, m: AssertionView, attribution: Seq<Seq<char>>) -> Option<FindingView> {
    if m.0 == 0 {
        match m.1 {
            Some(w) => if current matches Some(v) && spec_scalar_matches(v, w) {
                None
            } else {
                Some(mismatch(key, current_text(current), spec_render_scalar(w), m.3, attribution))
            },
            None => None,
        }
    } else if m.0 == 1 {
        if current matches Some(v) && v.0 == 0 && m.2.contains(v.1) {
            None
        } else {
            Some(mismatch(key, current_text(current), "one of {"@ + spec_debug_join(m.2) + "}"@, m.3, attribution))
        }
    } else if m.0 == 2 {
        if current is Some { None } else { Some(mismatch(key, None, "present"@, m.3, attribution)) }
    } else {
        if current is None { None } else { Some(mismatch(key, current_text(current), "absent"@, m.3, attribution)) }
    }
}

/// The findings after `old` with the optional `f` added.
pub open spec fn with_finding(old: Seq<FindingView>, f: Option<FindingView>) -> Seq<FindingView> {
    match f {
        Some(x) => old.push(x),
        None => old,
    }
}

/// What applying one merged scalar assertion at `key` does to the document:
/// an `Equals` that failed writes its value, an `Absent` that failed
/// removes the item, anything else leaves the document as it was.
pub open spec fn scalar_applied(old: DocumentMut, new: DocumentMut, key: Seq<char>, m: AssertionView) -> bool {
    let current = root_item(old, key);
    if m.0 == 0 && (m.1 matches Some(w) && !(current matches Some(v) && spec_scalar_matches(v, w))) {
        written(old, new, seq![key], write_view(scalar_write(m.1->0)))
    } else if m.0 == 3 && current is Some {
        removed(old, new, seq![key])
    } else {
        new == old
    }
}

/// Applies a merged scalar assertion at the root key `key`: an `Equals`
/// writes its value when the item does not hold it, an `Absent` removes a
/// present item; `OneOf` and `Present` only report. Each failure is one
/// mismatch attributed to `attribution`.
pub fn apply_scalar(
    doc: &mut DocumentMut,
    key: &str,
    assertion: &ResolvedRustfmtScalarAssertion,
    attribution: &Vec<Provenance>,
    findings: &mut Vec<Finding>,
)
    ensures
        scalar_applied(*old(doc), *final(doc), key@, assertion@),
        finding_views(final(findings)@) == with_finding(finding_views(old(findings)@),
            scalar_finding(key@, root_item(*old(doc), key@), assertion@, policies(attribution@))),
{
    let current = read_root(doc, key);
    proof {
        reveal_strlit("present");
        reveal_strlit("absent");
        reveal_strlit("one of {");
        reveal_strlit("}");
    }
    match assertion {
        ResolvedRustfmtScalarAssertion::Equals(want, message) => {
            let holds = match &current {
                Some(v) => scalar_matches(v, want),
                None => false,
            };
            if holds {
                return;
            }
            let expected = render_scalar(want);
            push_mismatch(findings, owned(key), render_current(&current), expected, message.as_str(), attribution);
            let w = scalar_item(want);
            write_root(doc, key, &w);
        },
        ResolvedRustfmtScalarAssertion::OneOf(allowed, message) => {
            let holds = match &current {
                Some(TomlValue::Str { value, .. }) => texts_contain(allowed, value.as_str()),
                _ => false,
            };
            if holds {
                return;
            }
            let listed = debug_join(allowed);
            push_mismatch(findings, owned(key), render_current(&current), join3("one of {", listed.as_str(), "}"),
                message.as_str(), attribution);
        },
        ResolvedRustfmtScalarAssertion::Present(message) => {
            if current.is_some() {
                return;
            }
            push_mismatch(findings, owned(key), None, owned("present"), message.as_str(), attribution);
        },
        ResolvedRustfmtScalarAssertion::Absent(message) => {
            if current.is_none() {
                return;
            }
            push_mismatch(findings, owned(key), render_current(&current), owned("absent"), message.as_str(), attribution);
            let _ = remove_root(doc, key);
        },
    }
}

// ---------------------------------------------------------------- lists

/// The strings among array elements, in order.
pub open spec fn strings_of(es: Seq<(bool, Seq<char>)>) -> Seq<Seq<char>>
    decreases es.len(),
{
    if es.len() == 0 {
        seq![]
    } else {
        let prev = strings_of(es.drop_last());
        if es.last().0 { prev.push(es.last().1) } else { prev }
    }
}

/// The strings of an array item, in order; nothing for anything else.
pub open spec fn array_strings(v: Option<TomlView>) -> Seq<Seq<char>> {
    match v {
        Some(t) => if t.0 == 3 { strings_of(t.4) } else { seq![] },
        None => seq![],
    }
}

/// The text shown for a list's current value: its text, or `[]`.
pub open spec fn list_text_of(v: Option<TomlView>) -> Seq<char> {
    match current_text(v) {
        Some(t) => t,
        None => "[]"@,
    }
}

/// The strings of an array item, in order; nothing for anything else.
pub fn list_values(v: &Option<TomlValue>) -> (r: Vec<String>)
    ensures
        string_views(r@) == array_strings(value_view(*v)),
{
    let mut out: Vec<String> = Vec::new();
    match v {
        Some(TomlValue::Array { elements, .. }) => {
            let ghost ev = crate::toml_doc::element_views(elements@);
            let mut i: usize = 0;
            while i < elements.len()
                invariant
                    i <= elements.len(),
                    ev == crate::toml_doc::element_views(elements@),
                    string_views(out@) == strings_of(ev.subrange(0, i as int)),
                decreases elements.len() - i,
            {
                let ghost before = out@;
                let ghost sub = ev.subrange(0, i + 1);
                assert(sub.drop_last() =~= ev.subrange(0, i as int));
                match &elements[i] {
                    crate::toml_doc::TomlElement::Str(x) => {
                        out.push(x.clone());
                        assert(string_views(out@) =~= string_views(before).push(x@));
                    },
                    crate::toml_doc::TomlElement::Other(_) => {},
                }
                i = i + 1;
            }
            assert(ev.subrange(0, ev.len() as int) =~= ev);
        },
        _ => {},
    }
    out
}

/// The text shown for a list's current value.
pub fn render_list(v: &Option<TomlValue>) -> (r: String)
    ensures
        r@ == list_text_of(value_view(*v)),
{
    match render_current(v) {
        Some(t) => t,
        None => {
            proof {
                reveal_strlit("[]");
            }
            owned("[]")
        },
    }
}

/// The messages of merged list entries, in order.
pub open spec fn entries_messages(es: Seq<crate::lists::ResolvedListEntry>) -> Seq<Seq<char>>
    decreases es.len(),
{
    if es.len() == 0 {
        seq![]
    } else {
        entries_messages(es.drop_last()) + es.last().collected@.map_values(|c: (Provenance, String)| c.1@)
    }
}

/// The policies of merged list entries, in order.
pub open spec fn entries_policies(es: Seq<crate::lists::ResolvedListEntry>) -> Seq<Seq<char>>
    decreases es.len(),
{
    if es.len() == 0 {
        seq![]
    } else {
        entries_policies(es.drop_last()) + policies_of(es.last().collected@)
    }
}

/// The policies of contributions.
pub open spec fn policies_of(c: Seq<(Provenance, String)>) -> Seq<Seq<char>> {
    c.map_values(|x: (Provenance, String)| x.0.policy@)
}

/// The messages of a merged exact list's contributions.
pub open spec fn exact_messages(r: crate::lists::ResolvedListRequirements) -> Seq<Seq<char>> {
    match r.exact {
        Some(e) => e.collected@.map_values(|c: (Provenance, (Vec<String>, String))| c.1.1@),
        None => seq![],
    }
}

/// The policies of a merged exact list's contributions.
pub open spec fn exact_policies(r: crate::lists::ResolvedListRequirements) -> Seq<Seq<char>> {
    match r.exact {
        Some(e) => e.collected@.map_values(|c: (Provenance, (Vec<String>, String))| c.0.policy@),
        None => seq![],
    }
}

/// The first message of a list requirement's contributions (contained,
/// excluded, then exact), or nothing.
pub open spec fn first_list_message(r: crate::lists::ResolvedListRequirements) -> Seq<char> {
    let all = entries_messages(r.contains@) + entries_messages(r.excludes@) + exact_messages(r);
    if all.len() > 0 { all[0] } else { seq![] }
}

/// Every policy behind a list requirement: contained, excluded, then exact.
pub open spec fn list_policies(r: crate::lists::ResolvedListRequirements) -> Seq<Seq<char>> {
    entries_policies(r.contains@) + entries_policies(r.excludes@) + exact_policies(r)
}

fn messages_of_entries(es: &Vec<crate::lists::ResolvedListEntry>, out: &mut Vec<String>, pols: &mut Vec<Provenance>)
    ensures
        string_views(final(out)@) == string_views(old(out)@) + entries_messages(es@),
        policies(final(pols)@) == policies(old(pols)@) + entries_policies(es@),
{
    let mut i: usize = 0;
    assert(string_views(out@) =~= string_views(old(out)@) + entries_messages(es@.subrange(0, 0)));
    assert(policies(pols@) =~= policies(old(pols)@) + entries_policies(es@.subrange(0, 0)));
    while i < es.len()
        invariant
            i <= es.len(),
            string_views(out@) == string_views(old(out)@) + entries_messages(es@.subrange(0, i as int)),
            policies(pols@) == policies(old(pols)@) + entries_policies(es@.subrange(0, i as int)),
        decreases es.len() - i,
    {
        let c = &es[i].collected;
        let ghost mo = string_views(out@);
        let ghost po = policies(pols@);
        let mut j: usize = 0;
        while j < c.len()
            invariant
                j <= c.len(),
                string_views(out@) == mo + c@.subrange(0, j as int).map_values(|x: (Provenance, String)| x.1@),
                policies(pols@) == po + policies_of(c@.subrange(0, j as int)),
            decreases c.len() - j,
        {
            let ghost bo = out@;
            let ghost bp = pols@;
            out.push(c[j].1.clone());
            pols.push(c[j].0.clone());
            assert(string_views(out@) =~= string_views(bo).push(c@[j as int].1@));
            assert(policies(pols@) =~= policies(bp).push(c@[j as int].0.policy@));
            assert(c@.subrange(0, j + 1).map_values(|x: (Provenance, String)| x.1@)
                =~= c@.subrange(0, j as int).map_values(|x: (Provenance, String)| x.1@).push(c@[j as int].1@));
            assert(policies_of(c@.subrange(0, j + 1)) =~= policies_of(c@.subrange(0, j as int)).push(c@[j as int].0.policy@));
            j = j + 1;
        }
        proof {
            assert(c@.subrange(0, c@.len() as int) =~= c@);
            let sub = es@.subrange(0, i + 1);
            assert(sub.drop_last() =~= es@.subrange(0, i as int));
            assert(string_views(out@) =~= string_views(old(out)@) + entries_messages(sub));
            assert(policies(pols@) =~= policies(old(pols)@) + entries_policies(sub));
        }
        i = i + 1;
    }
    assert(es@.subrange(0, es@.len() as int) =~= es@);
}

/// The first message and every policy behind a list requirement.
pub fn list_message_and_attribution(r: &crate::lists::ResolvedListRequirements) -> (res: (String, Vec<Provenance>))
    ensures
        res.0@ == first_list_message(*r),
        policies(res.1@) == list_policies(*r),
{
    let mut msgs: Vec<String> = Vec::new();
    let mut pols: Vec<Provenance> = Vec::new();
    assert(string_views(msgs@) =~= seq![]);
    assert(policies(pols@) =~= seq![]);
    messages_of_entries(&r.contains, &mut msgs, &mut pols);
    messages_of_entries(&r.excludes, &mut msgs, &mut pols);
    match &r.exact {
        Some(e) => {
            let c = &e.collected;
            let ghost mo = string_views(msgs@);
            let ghost po = policies(pols@);
            let mut j: usize = 0;
            while j < c.len()
                invariant
                    j <= c.len(),
                    string_views(msgs@) == mo + c@.subrange(0, j as int).map_values(|x: (Provenance, (Vec<String>, String))| x.1.1@),
                    policies(pols@) == po + c@.subrange(0, j as int).map_values(|x: (Provenance, (Vec<String>, String))| x.0.policy@),
                decreases c.len() - j,
            {
                let ghost bo = msgs@;
                let ghost bp = pols@;
                msgs.push(c[j].1.1.clone());
                pols.push(c[j].0.clone());
                assert(string_views(msgs@) =~= string_views(bo).push(c@[j as int].1.1@));
                assert(policies(pols@) =~= policies(bp).push(c@[j as int].0.policy@));
                assert(c@.subrange(0, j + 1).map_values(|x: (Provenance, (Vec<String>, String))| x.1.1@)
                    =~= c@.subrange(0, j as int).map_values(|x: (Provenance, (Vec<String>, String))| x.1.1@).push(c@[j as int].1.1@));
                assert(c@.subrange(0, j + 1).map_values(|x: (Provenance, (Vec<String>, String))| x.0.policy@)
                    =~= c@.subrange(0, j as int).map_values(|x: (Provenance, (Vec<String>, String))| x.0.policy@).push(c@[j as int].0.policy@));
                j = j + 1;
            }
            assert(c@.subrange(0, c@.len() as int) =~= c@);
        },
        None => {
            assert(string_views(msgs@) =~= string_views(msgs@) + exact_messages(*r));
            assert(policies(pols@) =~= policies(pols@) + exact_policies(*r));
        },
    }
    let first = if msgs.len() > 0 { msgs[0].clone() } else {
        proof {
            reveal_strlit("");
        }
        owned("")
    };
    (first, pols)
}

/// Whether an item is there but is not an array of strings.
pub open spec fn shape_bad(v: Option<TomlView>) -> bool {
    match v {
        Some(t) => t.0 != 3 || exists|i: int| 0 <= i < t.4.len() && !(#[trigger] t.4[i]).0,
        None => false,
    }
}

/// One `string` mismatch, keyed `key[index]`, for each array element that
/// is not a string.
pub open spec fn element_findings(key: Seq<char>, es: Seq<(bool, Seq<char>)>, message: Seq<char>, attribution: Seq<Seq<char>>) -> Seq<FindingView>
    decreases es.len(),
{
    if es.len() == 0 {
        seq![]
    } else {
        let prev = element_findings(key, es.drop_last(), message, attribution);
        if es.last().0 {
            prev
        } else {
            prev.push(mismatch(key + "["@ + spec_decimal((es.len() - 1) as nat) + "]"@, Some(es.last().1), "string"@,
                message, attribution))
        }
    }
}

/// What checking the shape of a list item reports: an `array of strings`
/// mismatch for an item that is not an array; one `string` mismatch per
/// element that is not a string.
pub open spec fn shape_findings(key: Seq<char>, v: Option<TomlView>, message: Seq<char>, attribution: Seq<Seq<char>>) -> Seq<FindingView> {
    match v {
        Some(t) => if t.0 != 3 {
            seq![mismatch(key, current_text(v), "array of strings"@, message, attribution)]
        } else {
            element_findings(key, t.4, message, attribution)
        },
        None => seq![],
    }
}

/// Reports the shape of a list item; returns whether it must be rewritten.
pub fn report_list_shape(
    v: &Option<TomlValue>,
    key: &str,
    message: &str,
    attribution: &Vec<Provenance>,
    findings: &mut Vec<Finding>,
) -> (r: bool)
    ensures
        r == shape_bad(value_view(*v)),
        finding_views(final(findings)@) == finding_views(old(findings)@)
            + shape_findings(key@, value_view(*v), message@, policies(attribution@)),
{
    proof {
        reveal_strlit("array of strings");
        reveal_strlit("string");
        reveal_strlit("[");
        reveal_strlit("]");
    }
    match v {
        None => {
            assert(finding_views(findings@) =~= finding_views(old(findings)@) + seq![]);
            false
        },
        Some(TomlValue::Array { elements, .. }) => {
            let ghost ev = crate::toml_doc::element_views(elements@);
            let mut malformed = false;
            let mut i: usize = 0;
            assert(finding_views(findings@) =~= finding_views(old(findings)@) + element_findings(key@, ev.subrange(0, 0), message@, policies(attribution@)));
            while i < elements.len()
                invariant
                    i <= elements.len(),
                    ev == crate::toml_doc::element_views(elements@),
                    malformed == exists|k: int| 0 <= k < i && !(#[trigger] ev[k]).0,
                    finding_views(findings@) == finding_views(old(findings)@)
                        + element_findings(key@, ev.subrange(0, i as int), message@, policies(attribution@)),
                decreases elements.len() - i,
            {
                let ghost sub = ev.subrange(0, i + 1);
                assert(sub.drop_last() =~= ev.subrange(0, i as int));
                let ghost bf = finding_views(findings@);
                match &elements[i] {
                    crate::toml_doc::TomlElement::Str(_) => {
                        assert(ev[i as int].0);
                    },
                    crate::toml_doc::TomlElement::Other(text) => {
                        malformed = true;
                        let index = crate::scalar_value::decimal_text(i as u64);
                        let tail = join2(index.as_str(), "]");
                        let name = join3(key, "[", tail.as_str());
                        assert(name@ =~= key@ + "["@ + spec_decimal(i as nat) + "]"@);
                        assert(ev[i as int] == (false, text@));
                        push_mismatch(findings, name, Some(text.clone()), owned("string"), message, attribution);
                        assert(finding_views(findings@) =~= bf.push(mismatch(key@ + "["@ + spec_decimal((sub.len() - 1) as nat) + "]"@,
                            Some(sub.last().1), "string"@, message@, policies(attribution@))));
                    },
                }
                i = i + 1;
            }
            assert(ev.subrange(0, ev.len() as int) =~= ev);
            proof {
                let t = value_view(*v)->0;
                assert(t.0 == 3);
                assert(t.4 == ev);
                if malformed {
                    let k = choose|k: int| 0 <= k < elements@.len() && !(#[trigger] ev[k]).0;
                    assert(!t.4[k].0);
                } else {
                    assert forall|k: int| 0 <= k < t.4.len() implies (#[trigger] t.4[k]).0 by {
                        assert(ev[k].0);
                    }
                }
            }
            malformed
        },
        Some(_) => {
            push_mismatch(findings, owned(key), render_current(v), owned("array of strings"), message, attribution);
            true
        },
    }
}

/// A list's state while it is reconciled: its strings, the text shown for
/// it, and whether it has been written.
pub type ListState = (Seq<Seq<char>>, Seq<char>, bool);

/// The state after writing the strings `vs`.
pub open spec fn rewritten(vs: Seq<Seq<char>>) -> ListState {
    (vs, fresh_text(array_write(vs)), true)
}

/// The first message of contributions, or nothing.
pub open spec fn first_message(c: Seq<(Provenance, String)>) -> Seq<char> {
    if c.len() > 0 { c[0].1@ } else { seq![] }
}

/// Adding each contained value that the list lacks, in order, with one
/// `list containing` mismatch each.
pub open spec fn after_contains(key: Seq<char>, es: Seq<crate::lists::ResolvedListEntry>, st: ListState) -> (ListState, Seq<FindingView>)
    decreases es.len(),
{
    if es.len() == 0 {
        (st, seq![])
    } else {
        let (s1, f1) = after_contains(key, es.drop_last(), st);
        let v = es.last().value@;
        if s1.0.contains(v) {
            (s1, f1)
        } else {
            (rewritten(s1.0.push(v)), f1.push(mismatch(key + "."@ + v, Some(s1.1), "list containing "@ + v,
                first_message(es.last().collected@), policies_of(es.last().collected@))))
        }
    }
}

/// Removing each excluded value that the list holds, in order, with one
/// `list excluding` mismatch each.
pub open spec fn after_excludes(key: Seq<char>, es: Seq<crate::lists::ResolvedListEntry>, st: ListState) -> (ListState, Seq<FindingView>)
    decreases es.len(),
{
    if es.len() == 0 {
        (st, seq![])
    } else {
        let (s1, f1) = after_excludes(key, es.drop_last(), st);
        let v = es.last().value@;
        if !s1.0.contains(v) {
            (s1, f1)
        } else {
            (rewritten(remove_value(s1.0, v)), f1.push(mismatch(key + "."@ + v, Some(s1.1), "list excluding "@ + v,
                first_message(es.last().collected@), policies_of(es.last().collected@))))
        }
    }
}

/// Replacing the list by the exact values when it differs, with one
/// mismatch.
pub open spec fn after_exact(key: Seq<char>, r: crate::lists::ResolvedListRequirements, st: ListState) -> (ListState, Seq<FindingView>) {
    match r.exact {
        Some(e) => {
            let m = string_views(e.merged@);
            if st.0 == m {
                (st, seq![])
            } else {
                let msgs = exact_messages(r);
                (rewritten(m), seq![mismatch(key, Some(st.1), "["@ + spec_debug_join(m) + "]"@,
                    if msgs.len() > 0 { msgs[0] } else { seq![] }, exact_policies(r))])
            }
        },
        None => (st, seq![]),
    }
}

/// What reconciling the list at `key` (currently `v`) with `r` ends in, and
/// what it reports: the shape, then contained, excluded and exact values.
pub open spec fn list_plan(key: Seq<char>, v: Option<TomlView>, r: crate::lists::ResolvedListRequirements) -> (ListState, Seq<FindingView>) {
    let f0 = shape_findings(key, v, first_list_message(r), list_policies(r));
    let s0 = if shape_bad(v) { rewritten(array_strings(v)) } else { (array_strings(v), list_text_of(v), false) };
    let (s1, f1) = after_contains(key, r.contains@, s0);
    let (s2, f2) = after_excludes(key, r.excludes@, s1);
    let (s3, f3) = after_exact(key, r, s2);
    (s3, f0 + f1 + f2 + f3)
}

/// What a list state says of the document: when written, the list at `key`
/// holds the state's strings; otherwise the document is as it was.
pub open spec fn list_doc(old: DocumentMut, new: DocumentMut, key: Seq<char>, st: ListState) -> bool {
    if st.2 { written(old, new, seq![key], array_write(st.0)) } else { new == old }
}

pub proof fn lemma_strings_of_all(vs: Seq<Seq<char>>)
    ensures
        strings_of(vs.map_values(|x: Seq<char>| (true, x))) == vs,
    decreases vs.len(),
{
    if vs.len() > 0 {
        lemma_strings_of_all(vs.drop_last());
        assert(vs.map_values(|x: Seq<char>| (true, x)).drop_last() =~= vs.drop_last().map_values(|x: Seq<char>| (true, x)));
        assert(vs.drop_last().push(vs.last()) =~= vs);
    }
}

/// After the list at `key` was written with `vs`, reading it gives `vs` and
/// the fresh text.
proof fn lemma_read_written(old: DocumentMut, new: DocumentMut, key: Seq<char>, vs: Seq<Seq<char>>)
    requires
        written(old, new, seq![key], array_write(vs)),
    ensures
        array_strings(root_item(new, key)) == vs,
        list_text_of(root_item(new, key)) == fresh_text(array_write(vs)),
        !shape_bad(root_item(new, key)),
{
    lemma_strings_of_all(vs);
    let t = root_item(new, key)->0;
    assert(t.4 == vs.map_values(|x: Seq<char>| (true, x)));
}

fn write_list(doc: &mut DocumentMut, key: &str, values: &Vec<String>)
    ensures
        written(*old(doc), *final(doc), seq![key@], array_write(string_views(values@))),
{
    let w = TomlWrite::StrArray(crate::lists::clone_strings(values));
    write_root(doc, key, &w);
}

/// `s` without any `v`, in order.
pub open spec fn remove_value(s: Seq<Seq<char>>, v: Seq<char>) -> Seq<Seq<char>>
    decreases s.len(),
{
    if s.len() == 0 {
        seq![]
    } else {
        let prev = remove_value(s.drop_last(), v);
        if s.last() == v { prev } else { prev.push(s.last()) }
    }
}

pub fn without_value(values: &Vec<String>, v: &str) -> (r: Vec<String>)
    ensures
        string_views(r@) == remove_value(string_views(values@), v@),
{
    let mut out: Vec<String> = Vec::new();
    let mut i: usize = 0;
    while i < values.len()
        invariant
            i <= values.len(),
            string_views(out@) == remove_value(string_views(values@.subrange(0, i as int)), v@),
        decreases values.len() - i,
    {
        let ghost before = out@;
        let ghost sub = string_views(values@.subrange(0, i + 1));
        assert(sub.drop_last() =~= string_views(values@.subrange(0, i as int)));
        if !str_eq(values[i].as_str(), v) {
            out.push(values[i].clone());
            assert(string_views(out@) =~= string_views(before).push(values@[i as int]@));
        }
        i = i + 1;
    }
    assert(values@.subrange(0, values@.len() as int) =~= values@);
    out
}

pub fn message_and_attribution(c: &Vec<(Provenance, String)>) -> (r: (String, Vec<Provenance>))
    ensures
        r.0@ == first_message(c@),
        policies(r.1@) == policies_of(c@),
{
    let mut pols: Vec<Provenance> = Vec::new();
    let mut i: usize = 0;
    while i < c.len()
        invariant
            i <= c.len(),
            policies(pols@) == policies_of(c@.subrange(0, i as int)),
        decreases c.len() - i,
    {
        let ghost before = pols@;
        pols.push(c[i].0.clone());
        assert(policies(pols@) =~= policies(before).push(c@[i as int].0.policy@));
        assert(policies_of(c@.subrange(0, i + 1)) =~= policies_of(c@.subrange(0, i as int)).push(c@[i as int].0.policy@));
        i = i + 1;
    }
    assert(c@.subrange(0, c@.len() as int) =~= c@);
    let first = if c.len() > 0 { c[0].1.clone() } else {
        proof {
            reveal_strlit("");
        }
        owned("")
    };
    (first, pols)
}

/// Whether the document's list at `key` is what the state says.
pub open spec fn list_tracks(d0: DocumentMut, doc: DocumentMut, key: Seq<char>, st: ListState) -> bool {
    &&& list_doc(d0, doc, key, st)
    &&& array_strings(root_item(doc, key)) == st.0
    &&& list_text_of(root_item(doc, key)) == st.1
}

/// Writes `values` as the list at `key` and moves the state along.
fn rewrite_tracked(doc: &mut DocumentMut, key: &str, values: &Vec<String>, Ghost(d0): Ghost<DocumentMut>, Ghost(st): Ghost<ListState>)
    requires
        list_tracks(d0, *old(doc), key@, st),
    ensures
        list_tracks(d0, *final(doc), key@, rewritten(string_views(values@))),
{
    let ghost before = *doc;
    write_list(doc, key, values);
    proof {
        let vs = string_views(values@);
        lemma_read_written(before, *doc, key@, vs);
        if st.2 {
            lemma_written_twice(d0, before, *doc, seq![key@], array_write(st.0), array_write(vs));
        }
    }
}

/// Reconciles the list at the root key `key` with `requirements`: a list of
/// the wrong shape is reported and rewritten with its strings; each
/// contained value it lacks is added, each excluded value it holds is
/// removed, and it becomes the exact values when they differ — each change
/// reported as one mismatch.
pub fn apply_list(doc: &mut DocumentMut, key: &str, requirements: &crate::lists::ResolvedListRequirements, findings: &mut Vec<Finding>)
    ensures
        list_doc(*old(doc), *final(doc), key@, list_plan(key@, root_item(*old(doc), key@), *requirements).0),
        finding_views(final(findings)@) == finding_views(old(findings)@)
            + list_plan(key@, root_item(*old(doc), key@), *requirements).1,
{
    let ghost d0 = *doc;
    let ghost v0 = root_item(*doc, key@);
    let ghost f_start = finding_views(findings@);
    let (message, attribution) = list_message_and_attribution(requirements);
    let current = read_root(doc, key);
    let bad = report_list_shape(&current, key, message.as_str(), &attribution, findings);
    let ghost mut st: ListState = (array_strings(v0), list_text_of(v0), false);
    if bad {
        let values = list_values(&current);
        rewrite_tracked(doc, key, &values, Ghost(d0), Ghost(st));
        proof {
            st = rewritten(array_strings(v0));
        }
    }
    let ghost s0 = st;
    let ghost f0 = finding_views(findings@);
    assert(list_tracks(d0, *doc, key@, st));
    // contained values
    let cs = &requirements.contains;
    let mut i: usize = 0;
    assert(after_contains(key@, cs@.subrange(0, 0), s0) == (s0, Seq::<FindingView>::empty()));
    assert(finding_views(findings@) =~= f0 + Seq::<FindingView>::empty());
    while i < cs.len()
        invariant
            i <= cs.len(),
            list_tracks(d0, *doc, key@, st),
            after_contains(key@, cs@.subrange(0, i as int), s0).0 == st,
            finding_views(findings@) == f0 + after_contains(key@, cs@.subrange(0, i as int), s0).1,
        decreases cs.len() - i,
    {
        let ghost sub = cs@.subrange(0, i + 1);
        assert(sub.drop_last() =~= cs@.subrange(0, i as int));
        let item = cs[i].value.as_str();
        let cur = read_root(doc, key);
        let mut values = list_values(&cur);
        if !crate::lists::strings_contain(&values, item) {
            let (msg, attr) = message_and_attribution(&cs[i].collected);
            let shown = render_list(&cur);
            let ghost bf = finding_views(findings@);
            proof {
                reveal_strlit(".");
                reveal_strlit("list containing ");
            }
            push_mismatch(findings, join3(key, ".", item), Some(shown), join2("list containing ", item), msg.as_str(), &attr);
            let ghost bv = values@;
            values.push(cs[i].value.clone());
            proof {
                assert(string_views(values@) =~= string_views(bv).push(cs@[i as int].value@));
            }
            rewrite_tracked(doc, key, &values, Ghost(d0), Ghost(st));
            proof {
                st = rewritten(string_views(values@));
            }
        }
        i = i + 1;
    }
    assert(cs@.subrange(0, cs@.len() as int) =~= cs@);
    let ghost s1 = st;
    let ghost f1 = finding_views(findings@);
    // excluded values
    let es = &requirements.excludes;
    let mut j: usize = 0;
    assert(after_excludes(key@, es@.subrange(0, 0), s1) == (s1, Seq::<FindingView>::empty()));
    assert(finding_views(findings@) =~= f1 + Seq::<FindingView>::empty());
    while j < es.len()
        invariant
            j <= es.len(),
            list_tracks(d0, *doc, key@, st),
            after_excludes(key@, es@.subrange(0, j as int), s1).0 == st,
            finding_views(findings@) == f1 + after_excludes(key@, es@.subrange(0, j as int), s1).1,
        decreases es.len() - j,
    {
        let ghost sub = es@.subrange(0, j + 1);
        assert(sub.drop_last() =~= es@.subrange(0, j as int));
        let item = es[j].value.as_str();
        let cur = read_root(doc, key);
        let values = list_values(&cur);
        if crate::lists::strings_contain(&values, item) {
            let (msg, attr) = message_and_attribution(&es[j].collected);
            let shown = render_list(&cur);
            proof {
                reveal_strlit(".");
                reveal_strlit("list excluding ");
            }
            push_mismatch(findings, join3(key, ".", item), Some(shown), join2("list excluding ", item), msg.as_str(), &attr);
            let kept = without_value(&values, item);
            rewrite_tracked(doc, key, &kept, Ghost(d0), Ghost(st));
            proof {
                st = rewritten(string_views(kept@));
            }
        }
        j = j + 1;
    }
    assert(es@.subrange(0, es@.len() as int) =~= es@);
    let ghost s2 = st;
    let ghost f2 = finding_views(findings@);
    // exact values
    match &requirements.exact {
        Some(exact) => {
            let cur = read_root(doc, key);
            let values = list_values(&cur);
            if !crate::lists::same_strings(&values, &exact.merged) {
                let (emsg, attr) = exact_message_and_attribution(requirements);
                let shown = render_list(&cur);
                let listed = debug_join(&exact.merged);
                proof {
                    reveal_strlit("[");
                    reveal_strlit("]");
                }
                push_mismatch(findings, owned(key), Some(shown), join3("[", listed.as_str(), "]"), emsg.as_str(), &attr);
                let merged = crate::lists::clone_strings(&exact.merged);
                rewrite_tracked(doc, key, &merged, Ghost(d0), Ghost(st));
                proof {
                    st = rewritten(string_views(merged@));
                }
            }
        },
        None => {},
    }
    assert(finding_views(findings@) == f_start + list_plan(key@, v0, *requirements).1);
}

pub fn exact_message_and_attribution(r: &crate::lists::ResolvedListRequirements) -> (res: (String, Vec<Provenance>))
    ensures
        res.0@ == (if exact_messages(*r).len() > 0 { exact_messages(*r)[0] } else { seq![] }),
        policies(res.1@) == exact_policies(*r),
{
    let mut pols: Vec<Provenance> = Vec::new();
    let mut first = owned("");
    proof {
        reveal_strlit("");
    }
    match &r.exact {
        Some(e) => {
            let c = &e.collected;
            let mut j: usize = 0;
            while j < c.len()
                invariant
                    j <= c.len(),
                    policies(pols@) == c@.subrange(0, j as int).map_values(|x: (Provenance, (Vec<String>, String))| x.0.policy@),
                decreases c.len() - j,
            {
                let ghost bp = pols@;
                pols.push(c[j].0.clone());
                assert(policies(pols@) =~= policies(bp).push(c@[j as int].0.policy@));
                assert(c@.subrange(0, j + 1).map_values(|x: (Provenance, (Vec<String>, String))| x.0.policy@)
                    =~= c@.subrange(0, j as int).map_values(|x: (Provenance, (Vec<String>, String))| x.0.policy@).push(c@[j as int].0.policy@));
                j = j + 1;
            }
            assert(c@.subrange(0, c@.len() as int) =~= c@);
            if c.len() > 0 {
                first = c[0].1.1.clone();
            }
        },
        None => {
            assert(policies(pols@) =~= seq![]);
        },
    }
    (first, pols)
}

// ---------------------------------------------------------------- forbidden ignore globs

/// `vs` without the values that `gone` holds, in order.
pub open spec fn remove_all_in(vs: Seq<Seq<char>>, gone: Seq<Seq<char>>) -> Seq<Seq<char>>
    decreases vs.len(),
{
    if vs.len() == 0 {
        seq![]
    } else {
        let prev = remove_all_in(vs.drop_last(), gone);
        if gone.contains(vs.last()) { prev } else { prev.push(vs.last()) }
    }
}

/// The contributors of an invalid glob: each policy with its message.
pub open spec fn glob_contributors(c: Seq<(Provenance, (RustfmtIgnorePathGlob, String))>) -> Seq<(Seq<char>, Seq<char>)> {
    c.map_values(|x: (Provenance, (RustfmtIgnorePathGlob, String))| (x.0.policy@, x.1.1@))
}

/// The first message of a glob's contributions, or nothing.
pub open spec fn first_glob_message(c: Seq<(Provenance, (RustfmtIgnorePathGlob, String))>) -> Seq<char> {
    if c.len() > 0 { c[0].1.1@ } else { seq![] }
}

/// The policies behind a glob.
pub open spec fn glob_policies(c: Seq<(Provenance, (RustfmtIgnorePathGlob, String))>) -> Seq<Seq<char>> {
    c.map_values(|x: (Provenance, (RustfmtIgnorePathGlob, String))| x.0.policy@)
}

/// One `absent (path glob)` mismatch, keyed `ignore.<path>`, per removed
/// path.
pub open spec fn glob_removal_findings(paths: Seq<Seq<char>>, message: Seq<char>, attribution: Seq<Seq<char>>) -> Seq<FindingView> {
    paths.map_values(|p: Seq<char>| mismatch("ignore."@ + p, Some(p), "absent (path glob)"@, message, attribution))
}

/// What one forbidden glob does to the `ignore` list, given for each of the
/// list's strings whether the glob matches it: a glob that does not build
/// is an invalid requirement; otherwise the matching strings (sorted,
/// without repeats) are removed, each reported.
pub open spec fn glob_step(st: ListState, g: ResolvedItemEntry<RustfmtIgnorePathGlob>, row: Seq<bool>) -> (ListState, Seq<FindingView>) {
    match glob_compile_error(g.merged@, true, true) {
        Some(err) => (st, seq![(1, "ignore."@ + g.merged@, None, seq![],
            "invalid ignore path glob `"@ + g.merged@ + "`: "@ + err, seq![], glob_contributors(g.collected@))]),
        None => {
            let matched = sorted_texts(matched_paths(st.0, row));
            if matched.len() == 0 {
                (st, seq![])
            } else {
                (rewritten(remove_all_in(st.0, matched)),
                    glob_removal_findings(matched, first_glob_message(g.collected@), glob_policies(g.collected@)))
            }
        },
    }
}

/// What the first `n` globs do to the `ignore` list, given the match
/// outcomes each glob had.
pub open spec fn globs_plan(st: ListState, gs: Seq<ResolvedItemEntry<RustfmtIgnorePathGlob>>, rows: Seq<Seq<bool>>, n: nat) -> (ListState, Seq<FindingView>)
    decreases n,
{
    if n == 0 {
        (st, seq![])
    } else {
        let (s1, f1) = globs_plan(st, gs, rows, (n - 1) as nat);
        let (s2, f2) = glob_step(s1, gs[n - 1], rows[n - 1]);
        (s2, f1 + f2)
    }
}

/// Whether each glob's outcomes are one per string of the list it saw.
pub open spec fn rows_fit(st: ListState, gs: Seq<ResolvedItemEntry<RustfmtIgnorePathGlob>>, rows: Seq<Seq<bool>>) -> bool {
    &&& rows.len() == gs.len()
    &&& forall|k: int| 0 <= k < gs.len() ==>
        (#[trigger] rows[k]).len() == globs_plan(st, gs, rows, k as nat).0.0.len()
    &&& forall|k: int| 0 <= k < gs.len() && glob_compile_error(gs[k].merged@, true, true) is None ==>
        plain_matches(gs[k].merged@, true, true, globs_plan(st, gs, rows, k as nat).0.0, #[trigger] rows[k])
}

/// The messages and policies of the globs.
pub open spec fn all_glob_messages(gs: Seq<ResolvedItemEntry<RustfmtIgnorePathGlob>>) -> Seq<Seq<char>>
    decreases gs.len(),
{
    if gs.len() == 0 {
        seq![]
    } else {
        all_glob_messages(gs.drop_last()) + gs.last().collected@.map_values(|x: (Provenance, (RustfmtIgnorePathGlob, String))| x.1.1@)
    }
}

/// Every policy behind the globs.
pub open spec fn all_glob_policies(gs: Seq<ResolvedItemEntry<RustfmtIgnorePathGlob>>) -> Seq<Seq<char>>
    decreases gs.len(),
{
    if gs.len() == 0 {
        seq![]
    } else {
        all_glob_policies(gs.drop_last()) + glob_policies(gs.last().collected@)
    }
}

/// What enforcing the forbidden globs does to the `ignore` list and what it
/// reports, given the match outcomes: nothing without globs; otherwise the
/// list's shape is checked (under the first glob message and every glob
/// policy) and, when wrong, rewritten; then each glob is applied in turn.
pub open spec fn forbidden_globs_plan(v: Option<TomlView>, gs: Seq<ResolvedItemEntry<RustfmtIgnorePathGlob>>, rows: Seq<Seq<bool>>) -> (ListState, Seq<FindingView>) {
    let msgs = all_glob_messages(gs);
    let f0 = shape_findings("ignore"@, v, if msgs.len() > 0 { msgs[0] } else { seq![] }, all_glob_policies(gs));
    let s0 = if shape_bad(v) { rewritten(array_strings(v)) } else { (array_strings(v), list_text_of(v), false) };
    let (s1, f1) = globs_plan(s0, gs, rows, gs.len());
    (s1, f0 + f1)
}

/// The starting state of the list at `key` once its shape is settled.
pub open spec fn settled(v: Option<TomlView>) -> ListState {
    if shape_bad(v) { rewritten(array_strings(v)) } else { (array_strings(v), list_text_of(v), false) }
}

fn glob_messages_and_attribution(gs: &Vec<ResolvedItemEntry<RustfmtIgnorePathGlob>>) -> (r: (String, Vec<Provenance>))
    ensures
        r.0@ == (if all_glob_messages(gs@).len() > 0 { all_glob_messages(gs@)[0] } else { seq![] }),
        policies(r.1@) == all_glob_policies(gs@),
{
    let mut msgs: Vec<String> = Vec::new();
    let mut pols: Vec<Provenance> = Vec::new();
    let mut i: usize = 0;
    while i < gs.len()
        invariant
            i <= gs.len(),
            string_views(msgs@) == all_glob_messages(gs@.subrange(0, i as int)),
            policies(pols@) == all_glob_policies(gs@.subrange(0, i as int)),
        decreases gs.len() - i,
    {
        let c = &gs[i].collected;
        let ghost mo = string_views(msgs@);
        let ghost po = policies(pols@);
        let mut j: usize = 0;
        while j < c.len()
            invariant
                j <= c.len(),
                string_views(msgs@) == mo + c@.subrange(0, j as int).map_values(|x: (Provenance, (RustfmtIgnorePathGlob, String))| x.1.1@),
                policies(pols@) == po + glob_policies(c@.subrange(0, j as int)),
            decreases c.len() - j,
        {
            let ghost bo = msgs@;
            let ghost bp = pols@;
            msgs.push(c[j].1.1.clone());
            pols.push(c[j].0.clone());
            assert(string_views(msgs@) =~= string_views(bo).push(c@[j as int].1.1@));
            assert(policies(pols@) =~= policies(bp).push(c@[j as int].0.policy@));
            assert(c@.subrange(0, j + 1).map_values(|x: (Provenance, (RustfmtIgnorePathGlob, String))| x.1.1@)
                =~= c@.subrange(0, j as int).map_values(|x: (Provenance, (RustfmtIgnorePathGlob, String))| x.1.1@).push(c@[j as int].1.1@));
            assert(glob_policies(c@.subrange(0, j + 1)) =~= glob_policies(c@.subrange(0, j as int)).push(c@[j as int].0.policy@));
            j = j + 1;
        }
        proof {
            assert(c@.subrange(0, c@.len() as int) =~= c@);
            let sub = gs@.subrange(0, i + 1);
            assert(sub.drop_last() =~= gs@.subrange(0, i as int));
        }
        i = i + 1;
    }
    assert(gs@.subrange(0, gs@.len() as int) =~= gs@);
    let first = if msgs.len() > 0 { msgs[0].clone() } else {
        proof {
            reveal_strlit("");
        }
        owned("")
    };
    (first, pols)
}

fn glob_contributors_of(c: &Vec<(Provenance, (RustfmtIgnorePathGlob, String))>) -> (r: Vec<(String, String)>)
    ensures
        crate::findings::pair_views(r@) == glob_contributors(c@),
{
    let mut out: Vec<(String, String)> = Vec::new();
    let mut i: usize = 0;
    while i < c.len()
        invariant
            i <= c.len(),
            crate::findings::pair_views(out@) == glob_contributors(c@.subrange(0, i as int)),
        decreases c.len() - i,
    {
        let ghost before = out@;
        out.push((c[i].0.policy.clone(), c[i].1.1.clone()));
        assert(crate::findings::pair_views(out@) =~= crate::findings::pair_views(before).push((c@[i as int].0.policy@, c@[i as int].1.1@)));
        assert(glob_contributors(c@.subrange(0, i + 1)) =~= glob_contributors(c@.subrange(0, i as int)).push((c@[i as int].0.policy@, c@[i as int].1.1@)));
        i = i + 1;
    }
    assert(c@.subrange(0, c@.len() as int) =~= c@);
    out
}

pub fn keep_unmatched(values: &Vec<String>, gone: &Vec<String>) -> (r: Vec<String>)
    ensures
        string_views(r@) == remove_all_in(string_views(values@), string_views(gone@)),
{
    let mut out: Vec<String> = Vec::new();
    let mut i: usize = 0;
    while i < values.len()
        invariant
            i <= values.len(),
            string_views(out@) == remove_all_in(string_views(values@.subrange(0, i as int)), string_views(gone@)),
        decreases values.len() - i,
    {
        let ghost before = out@;
        let ghost sub = string_views(values@.subrange(0, i + 1));
        assert(sub.drop_last() =~= string_views(values@.subrange(0, i as int)));
        if !crate::lists::strings_contain(gone, values[i].as_str()) {
            out.push(values[i].clone());
            assert(string_views(out@) =~= string_views(before).push(values@[i as int]@));
        }
        i = i + 1;
    }
    assert(values@.subrange(0, values@.len() as int) =~= values@);
    out
}

/// Applies one forbidden glob to the `ignore` list, given whether it
/// matches each of the list's current strings.
pub fn apply_glob_outcomes(
    doc: &mut DocumentMut,
    g: &ResolvedItemEntry<RustfmtIgnorePathGlob>,
    row: &Vec<bool>,
    findings: &mut Vec<Finding>,
    Ghost(d0): Ghost<DocumentMut>,
    Ghost(st): Ghost<ListState>,
) -> (r: Ghost<ListState>)
    requires
        list_tracks(d0, *old(doc), "ignore"@, st),
        glob_compile_error(g.merged@, true, true) is None,
        row@.len() == st.0.len(),
    ensures
        list_tracks(d0, *final(doc), "ignore"@, r@),
        (r@, finding_views(final(findings)@)) == ({
            let (s2, f2) = glob_step(st, *g, row@);
            (s2, finding_views(old(findings)@) + f2)
        }),
{
    proof {
        reveal_strlit("ignore");
        reveal_strlit("ignore.");
        reveal_strlit("absent (path glob)");
    }
    let cur = read_root(doc, "ignore");
    let values = list_values(&cur);
    let matched = matched_of_values(&values, row);
    let gone = sort_dedup(&matched);
    proof {
        lemma_sorted_same_set_equal(sorted_texts(matched_paths(st.0, row@)), string_views(gone@));
    }
    if gone.len() == 0 {
        assert(finding_views(findings@) =~= finding_views(old(findings)@) + seq![]);
        return Ghost(st);
    }
    let kept = keep_unmatched(&values, &gone);
    rewrite_tracked(doc, "ignore", &kept, Ghost(d0), Ghost(st));
    let (message, attribution) = glob_first_and_policies(&g.collected);
    let ghost f_before = finding_views(findings@);
    let mut k: usize = 0;
    while k < gone.len()
        invariant
            k <= gone.len(),
            finding_views(findings@) == f_before + glob_removal_findings(string_views(gone@).subrange(0, k as int), message@, policies(attribution@)),
        decreases gone.len() - k,
    {
        let ghost bf = finding_views(findings@);
        push_mismatch(findings, join2("ignore.", gone[k].as_str()), Some(gone[k].clone()), owned("absent (path glob)"),
            message.as_str(), &attribution);
        assert(glob_removal_findings(string_views(gone@).subrange(0, k + 1), message@, policies(attribution@))
            =~= glob_removal_findings(string_views(gone@).subrange(0, k as int), message@, policies(attribution@)).push(
                mismatch("ignore."@ + gone@[k as int]@, Some(gone@[k as int]@), "absent (path glob)"@, message@, policies(attribution@))));
        k = k + 1;
    }
    assert(string_views(gone@).subrange(0, gone@.len() as int) =~= string_views(gone@));
    Ghost(rewritten(string_views(kept@)))
}

fn glob_first_and_policies(c: &Vec<(Provenance, (RustfmtIgnorePathGlob, String))>) -> (r: (String, Vec<Provenance>))
    ensures
        r.0@ == first_glob_message(c@),
        policies(r.1@) == glob_policies(c@),
{
    let mut pols: Vec<Provenance> = Vec::new();
    let mut i: usize = 0;
    while i < c.len()
        invariant
            i <= c.len(),
            policies(pols@) == glob_policies(c@.subrange(0, i as int)),
        decreases c.len() - i,
    {
        let ghost before = pols@;
        pols.push(c[i].0.clone());
        assert(policies(pols@) =~= policies(before).push(c@[i as int].0.policy@));
        assert(glob_policies(c@.subrange(0, i + 1)) =~= glob_policies(c@.subrange(0, i as int)).push(c@[i as int].0.policy@));
        i = i + 1;
    }
    assert(c@.subrange(0, c@.len() as int) =~= c@);
    let first = if c.len() > 0 { c[0].1.1.clone() } else {
        proof {
            reveal_strlit("");
        }
        owned("")
    };
    (first, pols)
}

fn matched_of_values(values: &Vec<String>, row: &Vec<bool>) -> (r: Vec<String>)
    requires
        row@.len() == values@.len(),
    ensures
        string_views(r@) == matched_paths(string_views(values@), row@),
{
    let mut out: Vec<String> = Vec::new();
    let mut i: usize = 0;
    while i < values.len()
        invariant
            i <= values.len(),
            row@.len() == values@.len(),
            string_views(out@) == matched_paths(string_views(values@.subrange(0, i as int)), row@),
        decreases values.len() - i,
    {
        let ghost before = out@;
        let ghost sub = string_views(values@.subrange(0, i + 1));
        assert(sub.drop_last() =~= string_views(values@.subrange(0, i as int)));
        if row[i] {
            out.push(values[i].clone());
            assert(string_views(out@) =~= string_views(before).push(values@[i as int]@));
        }
        i = i + 1;
    }
    assert(values@.subrange(0, values@.len() as int) =~= values@);
    out
}

/// Enforces the merged forbidden globs on the `ignore` list: without globs
/// nothing happens; otherwise the list's shape is checked and settled, then
/// each glob (built with literal separators and backslash escapes) removes
/// the strings it matches, or is reported as an invalid requirement when it
/// does not build. What matches depends on how globset matches paths here;
/// the contract states the outcome for the matches it had.
pub fn apply_forbidden_ignore_path_globs(
    doc: &mut DocumentMut,
    globs: &Vec<ResolvedItemEntry<RustfmtIgnorePathGlob>>,
    findings: &mut Vec<Finding>,
)
    ensures
        globs@.len() == 0 ==> *final(doc) == *old(doc) && final(findings)@ == old(findings)@,
        globs@.len() > 0 ==> exists|rows: Seq<Seq<bool>>| {
            let plan = forbidden_globs_plan(root_item(*old(doc), "ignore"@), globs@, rows);
            &&& #[trigger] rows_fit(settled(root_item(*old(doc), "ignore"@)), globs@, rows)
            &&& list_doc(*old(doc), *final(doc), "ignore"@, plan.0)
            &&& finding_views(final(findings)@) == finding_views(old(findings)@) + plan.1
        },
{
    if globs.len() == 0 {
        return;
    }
    proof {
        reveal_strlit("ignore");
        reveal_strlit("ignore.");
        reveal_strlit("invalid ignore path glob `");
        reveal_strlit("`: ");
    }
    let ghost d0 = *doc;
    let ghost v0 = root_item(*doc, "ignore"@);
    let ghost f_start = finding_views(findings@);
    let (message, attribution) = glob_messages_and_attribution(globs);
    let current = read_root(doc, "ignore");
    let bad = report_list_shape(&current, "ignore", message.as_str(), &attribution, findings);
    let ghost mut st: ListState = (array_strings(v0), list_text_of(v0), false);
    if bad {
        let values = list_values(&current);
        rewrite_tracked(doc, "ignore", &values, Ghost(d0), Ghost(st));
        proof {
            st = rewritten(array_strings(v0));
        }
    }
    let ghost s0 = st;
    assert(s0 == settled(v0));
    let ghost f0 = finding_views(findings@);
    let ghost mut rows: Seq<Seq<bool>> = seq![];
    let mut k: usize = 0;
    while k < globs.len()
        invariant
            k <= globs.len(),
            rows.len() == k,
            list_tracks(d0, *doc, "ignore"@, st),
            forall|j: int| 0 <= j < k ==> (#[trigger] rows[j]).len() == globs_plan(s0, globs@, rows, j as nat).0.0.len(),
            forall|j: int| 0 <= j < k && glob_compile_error(globs@[j].merged@, true, true) is None ==>
                plain_matches(globs@[j].merged@, true, true, globs_plan(s0, globs@, rows, j as nat).0.0, #[trigger] rows[j]),
            globs_plan(s0, globs@, rows, k as nat).0 == st,
            finding_views(findings@) == f0 + globs_plan(s0, globs@, rows, k as nat).1,
        decreases globs.len() - k,
    {
        let g = &globs[k];
        let ghost rows_before = rows;
        let ghost st_before = st;
        let ghost fb = finding_views(findings@);
        match glob_error(g.merged.glob.as_str(), true, true) {
            Some(err) => {
                let contributors = glob_contributors_of(&g.collected);
                let text = join3("invalid ignore path glob `", g.merged.glob.as_str(), "`: ");
                findings.push(Finding::InvalidRequirements {
                    key: join2("ignore.", g.merged.glob.as_str()),
                    message: join2(text.as_str(), err.as_str()),
                    contributors,
                });
                proof {
                    rows = rows.push(Seq::new(st.0.len(), |i: int| false));
                    assert(finding_views(findings@) =~= fb.push(crate::findings::finding_view(findings@.last())));
                }
            },
            None => {
                let cur = read_root(doc, "ignore");
                let values = list_values(&cur);
                let mut row: Vec<bool> = Vec::new();
                let mut c: usize = 0;
                while c < values.len()
                    invariant
                        c <= values.len(),
                        row@.len() == c,
                        glob_compile_error(g.merged@, true, true) is None,
                        plain_matches(g.merged@, true, true, string_views(values@), row@),
                    decreases values.len() - c,
                {
                    let m = glob_is_match(g.merged.glob.as_str(), true, true, values[c].as_str());
                    let ghost before = row@;
                    row.push(m);
                    proof {
                        assert(string_views(values@)[c as int] == values@[c as int]@);
                        assert forall|q: int| 0 <= q < row@.len() && q < string_views(values@).len() && !string_views(values@)[q].contains('\\')
                            implies #[trigger] row@[q] == glob_path_match(g.merged@, true, true, string_views(values@)[q]) by {
                            if q < c {
                                assert(row@[q] == before[q]);
                            }
                        }
                    }
                    c = c + 1;
                }
                let next = apply_glob_outcomes(doc, g, &row, findings, Ghost(d0), Ghost(st));
                proof {
                    rows = rows.push(row@);
                    st = next@;
                }
            },
        }
        proof {
            assert forall|j: int| 0 <= j < k + 1 implies (#[trigger] rows[j]).len() == globs_plan(s0, globs@, rows, j as nat).0.0.len() by {
                lemma_globs_plan_prefix(s0, globs@, rows_before, rows, j as nat);
                if j < k {
                    assert(rows[j] == rows_before[j]);
                }
            }
            assert forall|j: int| 0 <= j < k + 1 && glob_compile_error(globs@[j].merged@, true, true) is None implies
                plain_matches(globs@[j].merged@, true, true, globs_plan(s0, globs@, rows, j as nat).0.0, #[trigger] rows[j]) by {
                lemma_globs_plan_prefix(s0, globs@, rows_before, rows, j as nat);
                if j < k {
                    assert(rows[j] == rows_before[j]);
                }
            }
            lemma_globs_plan_prefix(s0, globs@, rows_before, rows, k as nat);
        }
        k = k + 1;
    }
    assert(rows_fit(settled(v0), globs@, rows));
}

/// The plan of the first `n` globs depends only on the first `n` rows.
proof fn lemma_globs_plan_prefix(st: ListState, gs: Seq<ResolvedItemEntry<RustfmtIgnorePathGlob>>, a: Seq<Seq<bool>>, b: Seq<Seq<bool>>, n: nat)
    requires
        n <= a.len(),
        n <= b.len(),
        forall|j: int| 0 <= j < n ==> a[j] == b[j],
    ensures
        globs_plan(st, gs, a, n) == globs_plan(st, gs, b, n),
    decreases n,
{
    if n > 0 {
        lemma_globs_plan_prefix(st, gs, a, b, (n - 1) as nat);
        assert(a[n - 1] == b[n - 1]);
    }
}

// ---------------------------------------------------------------- closing the file

/// The root keys that requirements name: scalar settings, list settings,
/// and `ignore` when forbidden globs manage it.
pub open spec fn allowed_keys(r: ResolvedRustfmtTomlRequirements) -> Seq<Seq<char>> {
    r.scalar_settings@.map_values(|e: (crate::settings::RustfmtScalarSetting, ResolvedRustfmtScalar)| e.0.spec_file_key())
        + r.list_settings@.map_values(|e: (crate::settings::RustfmtListSetting, crate::lists::ResolvedListRequirements)| e.0.spec_file_key())
        + (if r.forbidden_ignore_path_globs.globs@.len() > 0 { seq!["ignore"@] } else { seq![] })
}

/// The mismatches of closing the file: one per extra key, in order, shown
/// with its current text (nothing once an earlier occurrence removed it).
pub open spec fn closed_findings(doc: DocumentMut, extras: Seq<Seq<char>>, message: Seq<char>, attribution: Seq<Seq<char>>) -> Seq<FindingView>
    decreases extras.len(),
{
    if extras.len() == 0 {
        seq![]
    } else {
        let k = extras.last();
        let current = if extras.drop_last().contains(k) { None } else { current_text(root_item(doc, k)) };
        closed_findings(doc, extras.drop_last(), message, attribution).push(
            mismatch(k, current, "absent because rustfmt.toml settings are closed"@, message, attribution))
    }
}

/// What removing the root keys `extras` leaves: nothing under them, the
/// rest as it was, and the root keys without them.
pub open spec fn keys_removed(old: DocumentMut, new: DocumentMut, extras: Seq<Seq<char>>) -> bool {
    &&& forall|q: Seq<Seq<char>>| q.len() > 0 && extras.contains(q[0]) ==> #[trigger] toml_at(new, q) is None
    &&& forall|q: Seq<Seq<char>>| !(q.len() > 0 && extras.contains(q[0])) ==> #[trigger] toml_at(new, q) == toml_at(old, q)
    &&& toml_keys(new, seq![]) == match toml_keys(old, seq![]) {
        Some(ks) => Some(remove_all_in(ks, extras)),
        None => None,
    }
}

pub proof fn lemma_remove_all_in_push(ks: Seq<Seq<char>>, gone: Seq<Seq<char>>, k: Seq<char>)
    ensures
        without_key(remove_all_in(ks, gone), k) == remove_all_in(ks, gone.push(k)),
    decreases ks.len(),
{
    if ks.len() == 0 {
        assert(without_key(remove_all_in(ks, gone), k) =~= seq![]);
    } else {
        let x = ks.last();
        let rest = ks.drop_last();
        lemma_remove_all_in_push(rest, gone, k);
        let p = remove_all_in(rest, gone);
        let q = remove_all_in(rest, gone.push(k));
        assert(gone.push(k).contains(x) <==> (gone.contains(x) || x == k)) by {
            if gone.push(k).contains(x) {
                let j = choose|j: int| 0 <= j < gone.push(k).len() && gone.push(k)[j] == x;
                if j < gone.len() {
                    assert(gone[j] == x);
                }
            }
            if gone.contains(x) {
                let j = choose|j: int| 0 <= j < gone.len() && gone[j] == x;
                assert(gone.push(k)[j] == x);
            }
            if x == k {
                assert(gone.push(k)[gone.len() as int] == k);
            }
        }
        assert(without_key(p, k) == q);
        if gone.contains(x) {
            assert(remove_all_in(ks, gone) == p);
        } else {
            assert(remove_all_in(ks, gone) == p.push(x));
            assert(p.push(x).drop_last() =~= p);
            assert(p.push(x).last() == x);
        }
    }
}

fn closed_message_and_attribution(c: &Vec<(Provenance, String)>) -> (r: (String, Vec<Provenance>))
    ensures
        r.0@ == first_message(c@),
        policies(r.1@) == policies_of(c@),
{
    message_and_attribution(c)
}

/// The root keys the requirements name.
fn allowed_key_list(r: &ResolvedRustfmtTomlRequirements) -> (out: Vec<String>)
    ensures
        string_views(out@) == allowed_keys(*r),
{
    let mut out: Vec<String> = Vec::new();
    let ss = &r.scalar_settings;
    let mut i: usize = 0;
    while i < ss.len()
        invariant
            i <= ss.len(),
            string_views(out@) == ss@.subrange(0, i as int).map_values(|e: (crate::settings::RustfmtScalarSetting, ResolvedRustfmtScalar)| e.0.spec_file_key()),
        decreases ss.len() - i,
    {
        let ghost before = out@;
        out.push(owned(ss[i].0.file_key()));
        assert(string_views(out@) =~= string_views(before).push(ss@[i as int].0.spec_file_key()));
        assert(ss@.subrange(0, i + 1).map_values(|e: (crate::settings::RustfmtScalarSetting, ResolvedRustfmtScalar)| e.0.spec_file_key())
            =~= ss@.subrange(0, i as int).map_values(|e: (crate::settings::RustfmtScalarSetting, ResolvedRustfmtScalar)| e.0.spec_file_key()).push(ss@[i as int].0.spec_file_key()));
        i = i + 1;
    }
    assert(ss@.subrange(0, ss@.len() as int) =~= ss@);
    let ghost mid = string_views(out@);
    let ls = &r.list_settings;
    let mut j: usize = 0;
    while j < ls.len()
        invariant
            j <= ls.len(),
            string_views(out@) == mid + ls@.subrange(0, j as int).map_values(|e: (crate::settings::RustfmtListSetting, crate::lists::ResolvedListRequirements)| e.0.spec_file_key()),
        decreases ls.len() - j,
    {
        let ghost before = out@;
        out.push(owned(ls[j].0.file_key()));
        assert(string_views(out@) =~= string_views(before).push(ls@[j as int].0.spec_file_key()));
        assert(ls@.subrange(0, j + 1).map_values(|e: (crate::settings::RustfmtListSetting, crate::lists::ResolvedListRequirements)| e.0.spec_file_key())
            =~= ls@.subrange(0, j as int).map_values(|e: (crate::settings::RustfmtListSetting, crate::lists::ResolvedListRequirements)| e.0.spec_file_key()).push(ls@[j as int].0.spec_file_key()));
        j = j + 1;
    }
    assert(ls@.subrange(0, ls@.len() as int) =~= ls@);
    let ghost before = string_views(out@);
    if r.forbidden_ignore_path_globs.globs.len() > 0 {
        out.push(owned("ignore"));
        proof {
            reveal_strlit("ignore");
        }
        assert(string_views(out@) =~= before + seq!["ignore"@]);
    } else {
        assert(string_views(out@) =~= before + seq![]);
    }
    out
}

/// When policies close the file, removes every root key that no
/// requirement names, in the file's order, reporting each one.
pub fn apply_closed(doc: &mut DocumentMut, requirement: &ResolvedRustfmtTomlRequirements, findings: &mut Vec<Finding>)
    ensures
        requirement.closed_settings@.len() == 0 ==> *final(doc) == *old(doc) && final(findings)@ == old(findings)@,
        requirement.closed_settings@.len() > 0 ==> ({
            let extras = remove_all_in(toml_keys(*old(doc), seq![])->0, allowed_keys(*requirement));
            &&& keys_removed(*old(doc), *final(doc), extras)
            &&& finding_views(final(findings)@) == finding_views(old(findings)@)
                + closed_findings(*old(doc), extras, first_message(requirement.closed_settings@),
                    policies_of(requirement.closed_settings@))
        }),
{
    if requirement.closed_settings.len() == 0 {
        return;
    }
    proof {
        reveal_strlit("absent because rustfmt.toml settings are closed");
    }
    let ghost d0 = *doc;
    let allowed = allowed_key_list(requirement);
    let keys = root_keys(doc);
    let extras = keep_unmatched(&keys, &allowed);
    let ghost ev = string_views(extras@);
    let (message, attribution) = closed_message_and_attribution(&requirement.closed_settings);
    let ghost f0 = finding_views(findings@);
    let mut i: usize = 0;
    assert(keys_removed(d0, *doc, ev.subrange(0, 0))) by {
        assert(ev.subrange(0, 0) =~= Seq::<Seq<char>>::empty());
        lemma_remove_none(string_views(keys@));
    }
    assert(finding_views(findings@) =~= f0 + closed_findings(d0, ev.subrange(0, 0), message@, policies(attribution@)));
    while i < extras.len()
        invariant
            i <= extras.len(),
            ev == string_views(extras@),
            toml_keys(d0, seq![]) == Some(string_views(keys@)),
            keys_removed(d0, *doc, ev.subrange(0, i as int)),
            finding_views(findings@) == f0 + closed_findings(d0, ev.subrange(0, i as int), message@, policies(attribution@)),
        decreases extras.len() - i,
    {
        let ghost before = *doc;
        let ghost sub = ev.subrange(0, i + 1);
        let ghost prev = ev.subrange(0, i as int);
        assert(sub.drop_last() =~= prev);
        let k = extras[i].as_str();
        let cur = read_root(doc, k);
        proof {
            if prev.contains(ev[i as int]) {
                assert(root_item(before, k@) is None);
            } else {
                assert(root_item(before, k@) == root_item(d0, k@));
            }
        }
        push_mismatch(findings, owned(k), render_current(&cur), owned("absent because rustfmt.toml settings are closed"),
            message.as_str(), &attribution);
        let _ = remove_root(doc, k);
        proof {
            assert forall|q: Seq<Seq<char>>| q.len() > 0 && sub.contains(q[0]) implies #[trigger] toml_at(*doc, q) is None by {
                let j = choose|j: int| 0 <= j < sub.len() && sub[j] == q[0];
                if j < i {
                    assert(prev[j] == q[0]);
                    assert(prev.contains(q[0]));
                    if !crate::toml_doc::path_prefix(seq![k@], q) {
                        assert(toml_at(*doc, q) == toml_at(before, q));
                    }
                } else {
                    assert(q.subrange(0, 1) =~= seq![k@]);
                }
            }
            assert forall|q: Seq<Seq<char>>| !(q.len() > 0 && sub.contains(q[0])) implies #[trigger] toml_at(*doc, q) == toml_at(d0, q) by {
                if q.len() > 0 {
                    if prev.contains(q[0]) {
                        let j = choose|j: int| 0 <= j < prev.len() && prev[j] == q[0];
                        assert(sub[j] == q[0]);
                    }
                    assert(q[0] != k@) by {
                        if q[0] == k@ {
                            assert(sub[i as int] == q[0]);
                        }
                    }
                    assert(!crate::toml_doc::path_prefix(seq![k@], q));
                } else {
                    assert(!crate::toml_doc::path_prefix(seq![k@], q));
                }
            }
            lemma_remove_all_in_push(string_views(keys@), prev, k@);
            assert(sub =~= prev.push(k@));
            assert(seq![k@].drop_last() =~= Seq::<Seq<char>>::empty());
            assert(seq![k@].last() == k@);
            assert(toml_keys(before, seq![]) == Some(remove_all_in(string_views(keys@), prev)));
            assert(toml_keys(*doc, seq![]) == Some(remove_all_in(string_views(keys@), sub)));
        }
        i = i + 1;
    }
    proof {
        assert(ev.subrange(0, ev.len() as int) =~= ev);
        assert(string_views(keys@) == toml_keys(d0, seq![])->0);
    }
}

pub proof fn lemma_remove_none(ks: Seq<Seq<char>>)
    ensures
        remove_all_in(ks, seq![]) == ks,
    decreases ks.len(),
{
    if ks.len() > 0 {
        lemma_remove_none(ks.drop_last());
        assert(ks.drop_last().push(ks.last()) =~= ks);
    }
}


/// Reconciling a `OneOf` setting of `rustfmt.toml` never edits the file,
/// and reports nothing exactly when the current item is a string among the
/// allowed texts; any other current item (another string, another kind of
/// value, or none) gives exactly one mismatch at the setting's key, showing
/// the current text and carrying the assertion's message.
pub proof fn law_one_of_accepts_only_listed_strings(
    old: DocumentMut,
    new: DocumentMut,
    key: Seq<char>,
    allowed: Seq<Seq<char>>,
    message: Seq<char>,
    attribution: Seq<Seq<char>>,
    f0: Seq<FindingView>,
    f1: Seq<FindingView>,
)
    requires
        scalar_applied(old, new, key, (1, None, allowed, message)),
        f1 == with_finding(f0, scalar_finding(key, root_item(old, key), (1, None, allowed, message), attribution)),
    ensures
        new == old,
        (root_item(old, key) matches Some(v) && v.0 == 0 && allowed.contains(v.1)) ==> f1 == f0,
        !(root_item(old, key) matches Some(v) && v.0 == 0 && allowed.contains(v.1)) ==> {
            &&& f1.len() == f0.len() + 1
            &&& f1.subrange(0, f0.len() as int) == f0
            &&& f1.last().0 == 0
            &&& f1.last().1 == key
            &&& f1.last().2 == current_text(root_item(old, key))
            &&& f1.last().4 == message
        },
{
    if !(root_item(old, key) matches Some(v) && v.0 == 0 && allowed.contains(v.1)) {
        assert(f1.subrange(0, f0.len() as int) =~= f0);
    }
}


/// Whether an item is the value `want`, of its kind, in plain terms.
pub open spec fn item_is_value(v: TomlView, want: ConfigScalar) -> bool {
    match want {
        ConfigScalar::Str(s) => v.0 == 0 && v.1 == s@,
        ConfigScalar::Int(i) => v.0 == 1 && v.2 == i,
        ConfigScalar::Bool(b) => v.0 == 2 && v.3 == b,
    }
}

/// Whether the current item of a `rustfmt.toml` setting is acceptable to a
/// merged assertion: it is the wanted value; it is a string among the
/// allowed texts; it is there; it is not.
pub open spec fn rustfmt_item_acceptable(cur: Option<TomlView>, a: ResolvedRustfmtScalarAssertion) -> bool {
    match a {
        ResolvedRustfmtScalarAssertion::Equals(w, _) => cur matches Some(v) && item_is_value(v, w),
        ResolvedRustfmtScalarAssertion::OneOf(vs, _) => cur matches Some(v) && v.0 == 0
            && exists|i: int| 0 <= i < vs@.len() && #[trigger] vs@[i]@ == v.1,
        ResolvedRustfmtScalarAssertion::Present(_) => cur is Some,
        ResolvedRustfmtScalarAssertion::Absent(_) => cur is None,
    }
}

/// What applying any merged scalar assertion to a `rustfmt.toml` setting
/// does: an acceptable item changes nothing; any other gives exactly one
/// mismatch at the key carrying the assertion's message, and an `Equals`
/// writes the wanted value there, an `Absent` removes the item, while
/// `OneOf` and `Present` leave the file as it is.
pub proof fn law_rustfmt_scalar_accepts_only_acceptable_items(
    old: DocumentMut,
    new: DocumentMut,
    key: Seq<char>,
    a: ResolvedRustfmtScalarAssertion,
    attribution: Seq<Seq<char>>,
    f0: Seq<FindingView>,
    f1: Seq<FindingView>,
)
    requires
        scalar_applied(old, new, key, a@),
        f1 == with_finding(f0, scalar_finding(key, root_item(old, key), a@, attribution)),
    ensures
        rustfmt_item_acceptable(root_item(old, key), a) ==> new == old && f1 == f0,
        !rustfmt_item_acceptable(root_item(old, key), a) ==> {
            &&& f1.len() == f0.len() + 1
            &&& f1.subrange(0, f0.len() as int) == f0
            &&& f1.last().0 == 0
            &&& f1.last().1 == key
            &&& f1.last().4 == a@.3
            &&& match a {
                ResolvedRustfmtScalarAssertion::Equals(w, _) => toml_at(new, seq![key]) matches Some(v) && item_is_value(v, w),
                ResolvedRustfmtScalarAssertion::Absent(_) => toml_at(new, seq![key]) is None,
                _ => new == old,
            }
        },
{
    let cur = root_item(old, key);
    match a {
        ResolvedRustfmtScalarAssertion::OneOf(vs, _) => {
            if cur matches Some(v) && v.0 == 0 {
                let v = cur->0;
                if exists|i: int| 0 <= i < vs@.len() && #[trigger] vs@[i]@ == v.1 {
                    let i = choose|i: int| 0 <= i < vs@.len() && #[trigger] vs@[i]@ == v.1;
                    assert(string_views(vs@)[i] == v.1);
                } else {
                    if string_views(vs@).contains(v.1) {
                        let i = choose|i: int| 0 <= i < string_views(vs@).len() && string_views(vs@)[i] == v.1;
                        assert(vs@[i]@ == v.1);
                    }
                }
            }
        },
        ResolvedRustfmtScalarAssertion::Equals(w, _) => {
            if !rustfmt_item_acceptable(cur, a) {
                assert(toml_at(new, seq![key]) matches Some(v) && holds_written(v, write_view(scalar_write(w))));
            }
        },
        ResolvedRustfmtScalarAssertion::Absent(_) => {
            if !rustfmt_item_acceptable(cur, a) {
                assert(seq![key].subrange(0, 1) =~= seq![key]);
                assert(crate::toml_doc::path_prefix(seq![key], seq![key]));
            }
        },
        _ => {},
    }
    if !rustfmt_item_acceptable(cur, a) {
        assert(f1.subrange(0, f0.len() as int) =~= f0);
    }
}

} // verus!
