//! Reconciling one string list field of a `deny.toml` table with its merged
//! list requirements.

use vstd::prelude::*;
use toml_edit::DocumentMut;
use crate::deny_fields::{blocked_write, field_path, opt_view, read_at, table_display, way_open};
use crate::findings::{Finding, FindingView, finding_views, policies, push_mismatch};
use crate::lists::ResolvedListRequirements;
use crate::rustfmt_model::debug_join;
use crate::rustfmt_reconcile::{
    ListState, after_contains, after_excludes, after_exact, array_strings, exact_message_and_attribution,
    first_list_message, lemma_strings_of_all, list_message_and_attribution, list_policies, list_text_of, list_values,
    message_and_attribution, render_list, report_list_shape, rewritten, shape_findings, value_view, without_value,
};
use crate::text::{join2, join3, owned};
use crate::text_order::string_views;
use crate::toml_doc::{TomlWrite, array_write, lemma_written_twice, toml_at, way_is_open, write_subtable, write_table, written};

verus! {

/// Whether a list requirement asks for nothing.
pub open spec fn list_is_empty(r: ResolvedListRequirements) -> bool {
    r.contains@.len() == 0 && r.excludes@.len() == 0 && r.exact is None
}

/// What reconciling a `deny.toml` list (currently `v`) with `r` ends in and
/// reports: its shape is reported, then contained, excluded and exact
/// values are applied to its strings.
pub open spec fn deny_list_plan(key: Seq<char>, v: Option<crate::toml_doc::TomlView>, r: ResolvedListRequirements) -> (ListState, Seq<FindingView>) {
    let f0 = shape_findings(key, v, first_list_message(r), list_policies(r));
    let s0 = (array_strings(v), list_text_of(v), false);
    let (s1, f1) = after_contains(key, r.contains@, s0);
    let (s2, f2) = after_excludes(key, r.excludes@, s1);
    let (s3, f3) = after_exact(key, r, s2);
    (s3, f0 + f1 + f2 + f3)
}

/// What a list state says of the document: when written, the list at
/// `path` holds the state's strings; otherwise the document is as it was.
pub open spec fn path_list_doc(old: DocumentMut, new: DocumentMut, path: Seq<Seq<char>>, st: ListState) -> bool {
    if st.2 { written(old, new, path, array_write(st.0)) } else { new == old }
}

/// Whether the document's list at `path` is what the state says.
pub open spec fn path_list_tracks(d0: DocumentMut, doc: DocumentMut, path: Seq<Seq<char>>, st: ListState) -> bool {
    &&& path_list_doc(d0, doc, path, st)
    &&& array_strings(toml_at(doc, path)) == st.0
    &&& list_text_of(toml_at(doc, path)) == st.1
    &&& way_is_open(doc, path)
}

/// What applying one merged list requirement to a field leaves: nothing
/// for an empty requirement; a blocked report when the way to the field
/// holds a value that is not a table; otherwise the plan's list and
/// findings.
pub open spec fn deny_list_applied(
    old: DocumentMut,
    new: DocumentMut,
    f0: Seq<FindingView>,
    f1: Seq<FindingView>,
    path: Seq<Seq<char>>,
    table_key: Seq<char>,
    display_key: Seq<char>,
    r: ResolvedListRequirements,
) -> bool {
    if list_is_empty(r) {
        new == old && f1 == f0
    } else if !way_is_open(old, path) {
        new == old && f1 == f0.push(blocked_write(table_key, list_policies(r)))
    } else {
        let plan = deny_list_plan(display_key, toml_at(old, path), r);
        path_list_doc(old, new, path, plan.0) && f1 == f0 + plan.1
    }
}

/// Writes `values` as the list at the field and moves the state along.
fn rewrite_at(
    doc: &mut DocumentMut,
    table: &str,
    sub: Option<&str>,
    key: &str,
    values: &Vec<String>,
    Ghost(d0): Ghost<DocumentMut>,
    Ghost(st): Ghost<ListState>,
)
    requires
        path_list_tracks(d0, *old(doc), field_path(table@, opt_view(sub), key@), st),
    ensures
        path_list_tracks(d0, *final(doc), field_path(table@, opt_view(sub), key@), rewritten(string_views(values@))),
{
    let ghost before = *doc;
    let ghost path = field_path(table@, opt_view(sub), key@);
    let w = TomlWrite::StrArray(crate::lists::clone_strings(values));
    match sub {
        Some(s) => write_subtable(doc, table, s, key, &w),
        None => write_table(doc, table, key, &w),
    }
    proof {
        let vs = string_views(values@);
        assert(crate::toml_doc::write_view(w) == array_write(vs)) by {
            assert(values@.map_values(|x: String| x@) =~= vs);
        }
        lemma_strings_of_all(vs);
        let t = toml_at(*doc, path)->0;
        assert(t.4 == vs.map_values(|x: Seq<char>| (true, x)));
        assert forall|i: int| 1 <= i < path.len() implies match #[trigger] toml_at(*doc, path.subrange(0, i)) {
            Some(v) => v.0 == 5,
            None => true,
        } by {
        }
        if st.2 {
            lemma_written_twice(d0, before, *doc, path, array_write(st.0), array_write(vs));
        }
    }
}

/// Reconciles the string list `key` of the table `table` (or
/// `table.sub`), reporting at `display_key`: the shape of what is there is
/// reported; each contained value it lacks is added, each excluded value it
/// holds is removed, and it becomes the exact values when they differ —
/// each change reported as one mismatch and written.
pub fn apply_list(
    doc: &mut DocumentMut,
    table: &str,
    sub: Option<&str>,
    key: &str,
    display_key: &str,
    requirements: &ResolvedListRequirements,
    findings: &mut Vec<Finding>,
)
    ensures
        deny_list_applied(*old(doc), *final(doc), finding_views(old(findings)@), finding_views(final(findings)@),
            field_path(table@, opt_view(sub), key@), table_display(table@, opt_view(sub)), display_key@, *requirements),
{
    if requirements.contains.len() == 0 && requirements.excludes.len() == 0 && requirements.exact.is_none() {
        return;
    }
    let ghost path = field_path(table@, opt_view(sub), key@);
    let (message, attribution) = list_message_and_attribution(requirements);
    if !way_open(doc, table, sub, key) {
        let table_key = match sub {
            Some(s) => join3(table, ".", s),
            None => owned(table),
        };
        proof {
            reveal_strlit(".");
            reveal_strlit("table");
        }
        let ghost before = findings@;
        findings.push(Finding::UnwritableRequiredKey { key: table_key, expected: owned("table"), attribution });
        assert(finding_views(findings@) =~= finding_views(before).push(
            blocked_write(table_display(table@, opt_view(sub)), list_policies(*requirements))));
        return;
    }
    let ghost d0 = *doc;
    let ghost v0 = toml_at(*doc, path);
    let ghost f_start = finding_views(findings@);
    let current = read_at(doc, table, sub, key);
    let _ = report_list_shape(&current, display_key, message.as_str(), &attribution, findings);
    let ghost mut st: ListState = (array_strings(v0), list_text_of(v0), false);
    let ghost s0 = st;
    let ghost f0 = finding_views(findings@);
    assert(path_list_tracks(d0, *doc, path, st));
    // contained values
    let cs = &requirements.contains;
    let mut i: usize = 0;
    assert(after_contains(display_key@, cs@.subrange(0, 0), s0) == (s0, Seq::<FindingView>::empty()));
    assert(finding_views(findings@) =~= f0 + Seq::<FindingView>::empty());
    while i < cs.len()
        invariant
            i <= cs.len(),
            path == field_path(table@, opt_view(sub), key@),
            path_list_tracks(d0, *doc, path, st),
            after_contains(display_key@, cs@.subrange(0, i as int), s0).0 == st,
            finding_views(findings@) == f0 + after_contains(display_key@, cs@.subrange(0, i as int), s0).1,
        decreases cs.len() - i,
    {
        let ghost sub_seq = cs@.subrange(0, i + 1);
        assert(sub_seq.drop_last() =~= cs@.subrange(0, i as int));
        let item = cs[i].value.as_str();
        let cur = read_at(doc, table, sub, key);
        let mut values = list_values(&cur);
        if !crate::lists::strings_contain(&values, item) {
            let (msg, attr) = message_and_attribution(&cs[i].collected);
            let shown = render_list(&cur);
            proof {
                reveal_strlit(".");
                reveal_strlit("list containing ");
            }
            push_mismatch(findings, join3(display_key, ".", item), Some(shown), join2("list containing ", item), msg.as_str(), &attr);
            let ghost bv = values@;
            values.push(cs[i].value.clone());
            proof {
                assert(string_views(values@) =~= string_views(bv).push(cs@[i as int].value@));
            }
            rewrite_at(doc, table, sub, key, &values, Ghost(d0), Ghost(st));
            proof {
                st = rewritten(string_views(values@));
            }
        }
        i = i + 1;
    }
    assert(cs@.subrange(0, cs@.len() as int) =~= cs@);
    let ghost s1 = st;
    let ghost f1 = finding_views(findings@);
    // excluded values
    let es = &requirements.excludes;
    let mut j: usize = 0;
    assert(after_excludes(display_key@, es@.subrange(0, 0), s1) == (s1, Seq::<FindingView>::empty()));
    assert(finding_views(findings@) =~= f1 + Seq::<FindingView>::empty());
    while j < es.len()
        invariant
            j <= es.len(),
            path == field_path(table@, opt_view(sub), key@),
            path_list_tracks(d0, *doc, path, st),
            after_excludes(display_key@, es@.subrange(0, j as int), s1).0 == st,
            finding_views(findings@) == f1 + after_excludes(display_key@, es@.subrange(0, j as int), s1).1,
        decreases es.len() - j,
    {
        let ghost sub_seq = es@.subrange(0, j + 1);
        assert(sub_seq.drop_last() =~= es@.subrange(0, j as int));
        let item = es[j].value.as_str();
        let cur = read_at(doc, table, sub, key);
        let values = list_values(&cur);
        if crate::lists::strings_contain(&values, item) {
            let (msg, attr) = message_and_attribution(&es[j].collected);
            let shown = render_list(&cur);
            proof {
                reveal_strlit(".");
                reveal_strlit("list excluding ");
            }
            push_mismatch(findings, join3(display_key, ".", item), Some(shown), join2("list excluding ", item), msg.as_str(), &attr);
            let kept = without_value(&values, item);
            rewrite_at(doc, table, sub, key, &kept, Ghost(d0), Ghost(st));
            proof {
                st = rewritten(string_views(kept@));
            }
        }
        j = j + 1;
    }
    assert(es@.subrange(0, es@.len() as int) =~= es@);
    // exact values
    match &requirements.exact {
        Some(exact) => {
            let cur = read_at(doc, table, sub, key);
            let values = list_values(&cur);
            if !crate::lists::same_strings(&values, &exact.merged) {
                let (emsg, attr) = exact_message_and_attribution(requirements);
                let shown = render_list(&cur);
                let listed = debug_join(&exact.merged);
                proof {
                    reveal_strlit("[");
                    reveal_strlit("]");
                }
                push_mismatch(findings, owned(display_key), Some(shown), join3("[", listed.as_str(), "]"), emsg.as_str(), &attr);
                let merged = crate::lists::clone_strings(&exact.merged);
                rewrite_at(doc, table, sub, key, &merged, Ghost(d0), Ghost(st));
                proof {
                    st = rewritten(string_views(merged@));
                }
            }
        },
        None => {},
    }
    assert(finding_views(findings@) == f_start + deny_list_plan(display_key@, v0, *requirements).1);
}

} // verus!
