//! Reading, writing and removing one field of a `deny.toml` table (one or
//! two levels deep), and applying a merged scalar requirement to it.

use vstd::prelude::*;
use toml_edit::DocumentMut;
use crate::deny_scalar_edit::{ScalarFieldEdit, edit_view, scalar_edit, scalar_edit_view, scalar_holds, scalar_mismatch};
use crate::deny_scalars::DenyTomlScalar;
use crate::findings::{Finding, FindingView, finding_views, policies};
use crate::requirements::{Provenance, ScalarAssertion};
use crate::rustfmt_reconcile::value_view;
use crate::scalar_merge::ResolvedRequirement;
use crate::text::owned;
use crate::toml_doc::{
    TomlValue, TomlView, WriteView, item_at_root, item_at_subtable, item_at_table, read_item, remove_in_subtable,
    remove_in_table, removed, toml_at, way_is_open, write_subtable, write_table, write_view, written,
};

verus! {

/// The key path of a field: `table.key`, or `table.sub.key`.
pub open spec fn field_path(table: Seq<char>, sub: Option<Seq<char>>, key: Seq<char>) -> Seq<Seq<char>> {
    match sub {
        Some(s) => seq![table, s, key],
        None => seq![table, key],
    }
}

/// The view of an optional text.
pub open spec fn opt_view(o: Option<&str>) -> Option<Seq<char>> {
    match o {
        Some(s) => Some(s@),
        None => None,
    }
}

/// The item at `path`, read.
pub fn read_at(doc: &DocumentMut, table: &str, sub: Option<&str>, key: &str) -> (r: Option<TomlValue>)
    ensures
        value_view(r) == toml_at(*doc, field_path(table@, opt_view(sub), key@)),
{
    let item = match sub {
        Some(s) => item_at_subtable(doc, table, s, key),
        None => item_at_table(doc, table, key),
    };
    match item {
        Some(i) => Some(read_item(&i)),
        None => None,
    }
}

/// Whether the tables on the way to a field are absent or standard tables.
pub fn way_open(doc: &DocumentMut, table: &str, sub: Option<&str>, key: &str) -> (r: bool)
    ensures
        r == way_is_open(*doc, field_path(table@, opt_view(sub), key@)),
{
    let ghost path = field_path(table@, opt_view(sub), key@);
    let top = match item_at_root(doc, table) {
        Some(i) => Some(read_item(&i)),
        None => None,
    };
    assert(path.subrange(0, 1) =~= seq![table@]);
    let top_open = match &top {
        Some(TomlValue::Table) => true,
        Some(_) => false,
        None => true,
    };
    match sub {
        None => {
            proof {
                if top_open {
                    assert forall|i: int| 1 <= i < path.len() implies match #[trigger] toml_at(*doc, path.subrange(0, i)) {
                        Some(v) => v.0 == 5,
                        None => true,
                    } by {
                        assert(i == 1);
                    }
                } else {
                    assert(toml_at(*doc, path.subrange(0, 1)) == value_view(top));
                }
            }
            top_open
        },
        Some(s) => {
            let inner = match item_at_table(doc, table, s) {
                Some(i) => Some(read_item(&i)),
                None => None,
            };
            assert(path.subrange(0, 2) =~= seq![table@, s@]);
            let inner_open = match &inner {
                Some(TomlValue::Table) => true,
                Some(_) => false,
                None => true,
            };
            proof {
                if top_open && inner_open {
                    assert forall|i: int| 1 <= i < path.len() implies match #[trigger] toml_at(*doc, path.subrange(0, i)) {
                        Some(v) => v.0 == 5,
                        None => true,
                    } by {
                        assert(i == 1 || i == 2);
                    }
                } else if !top_open {
                    assert(toml_at(*doc, path.subrange(0, 1)) == value_view(top));
                } else {
                    assert(toml_at(*doc, path.subrange(0, 2)) == value_view(inner));
                }
            }
            top_open && inner_open
        },
    }
}

/// The policies of every contribution.
pub fn provenances_of<C>(c: &Vec<(Provenance, C)>) -> (r: Vec<Provenance>)
    ensures
        policies(r@) == c@.map_values(|x: (Provenance, C)| x.0.policy@),
{
    let mut out: Vec<Provenance> = Vec::new();
    let mut i: usize = 0;
    while i < c.len()
        invariant
            i <= c.len(),
            policies(out@) == c@.subrange(0, i as int).map_values(|x: (Provenance, C)| x.0.policy@),
        decreases c.len() - i,
    {
        let ghost before = out@;
        out.push(c[i].0.clone());
        assert(policies(out@) =~= policies(before).push(c@[i as int].0.policy@));
        assert(c@.subrange(0, i + 1).map_values(|x: (Provenance, C)| x.0.policy@)
            =~= c@.subrange(0, i as int).map_values(|x: (Provenance, C)| x.0.policy@).push(c@[i as int].0.policy@));
        i = i + 1;
    }
    assert(c@.subrange(0, c@.len() as int) =~= c@);
    out
}

/// The finding of a required write that the file's shape blocks: the
/// table path is not a table.
pub open spec fn blocked_write(table_key: Seq<char>, attribution: Seq<Seq<char>>) -> FindingView {
    (2, table_key, None, "table"@, seq![], attribution, seq![])
}

/// The display key of a field's table.
pub open spec fn table_display(table: Seq<char>, sub: Option<Seq<char>>) -> Seq<char> {
    match sub {
        Some(s) => table + "."@ + s,
        None => table,
    }
}

/// What applying one merged scalar requirement to a field leaves: an
/// assertion that holds changes nothing; a broken one reports its mismatch
/// and makes its edit, except an edit (a write or a removal) whose way is
/// blocked by a value that is not a standard table, which is reported as
/// unwritable instead.
pub open spec fn deny_scalar_applied<T: DenyTomlScalar>(
    old: DocumentMut,
    new: DocumentMut,
    f0: Seq<FindingView>,
    f1: Seq<FindingView>,
    path: Seq<Seq<char>>,
    table_key: Seq<char>,
    display_key: Seq<char>,
    r: Option<ResolvedRequirement<ScalarAssertion<T>, ScalarAssertion<T>>>,
) -> bool {
    match r {
        None => new == old && f1 == f0,
        Some(res) => {
            let cur = toml_at(old, path);
            let attribution = res.collected@.map_values(|x: (Provenance, ScalarAssertion<T>)| x.0.policy@);
            if scalar_holds(cur, res.merged) {
                new == old && f1 == f0
            } else {
                let f = f0.push(scalar_mismatch(display_key, cur, res.merged, attribution));
                match scalar_edit_view(res.merged) {
                    Some(Some(w)) => if way_is_open(old, path) {
                        written(old, new, path, w) && f1 == f
                    } else {
                        new == old && f1 == f.push(blocked_write(table_key, attribution))
                    },
                    Some(None) => if way_is_open(old, path) {
                        removed(old, new, path) && f1 == f
                    } else {
                        new == old && f1 == f.push(blocked_write(table_key, attribution))
                    },
                    None => new == old && f1 == f,
                }
            }
        },
    }
}

/// Applies a merged scalar requirement to the field `key` of the table
/// `table` (or `table.sub`), reporting at `display_key`.
pub fn apply_scalar<T: DenyTomlScalar>(
    doc: &mut DocumentMut,
    table: &str,
    sub: Option<&str>,
    key: &str,
    display_key: &str,
    requirement: &Option<ResolvedRequirement<ScalarAssertion<T>, ScalarAssertion<T>>>,
    findings: &mut Vec<Finding>,
)
    ensures
        deny_scalar_applied(*old(doc), *final(doc), finding_views(old(findings)@), finding_views(final(findings)@),
            field_path(table@, opt_view(sub), key@), table_display(table@, opt_view(sub)), display_key@, *requirement),
{
    let resolved = match requirement {
        Some(r) => r,
        None => return,
    };
    let attribution = provenances_of(&resolved.collected);
    let current = read_at(doc, table, sub, key);
    let edit = scalar_edit(display_key, &current, &resolved.merged, &attribution, findings);
    let open = match edit {
        Some(_) => way_open(doc, table, sub, key),
        None => true,
    };
    if !open {
        let table_key = match sub {
            Some(s) => crate::text::join3(table, ".", s),
            None => owned(table),
        };
        proof {
            reveal_strlit(".");
            reveal_strlit("table");
        }
        let ghost before = findings@;
        findings.push(Finding::UnwritableRequiredKey { key: table_key, expected: owned("table"), attribution });
        assert(finding_views(findings@) =~= finding_views(before).push(
            blocked_write(table_display(table@, opt_view(sub)), policies(attribution@))));
        return;
    }
    match edit {
        Some(ScalarFieldEdit::Write(w)) => {
            match sub {
                Some(s) => write_subtable(doc, table, s, key, &w),
                None => write_table(doc, table, key, &w),
            }
        },
        Some(ScalarFieldEdit::Remove) => {
            match sub {
                Some(s) => {
                    let _ = remove_in_subtable(doc, table, s, key);
                },
                None => {
                    let _ = remove_in_table(doc, table, key);
                },
            }
        },
        None => {},
    }
}

} // verus!
