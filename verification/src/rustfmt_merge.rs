//! The `rustfmt.toml` requirements of several policies, and their merge.

use vstd::prelude::*;
use crate::columns::{column, full_column};
use crate::globs::{glob_compile_error, glob_error, glob_is_match, plain_matches};
use crate::items::{ItemRequirements, ResolvedItemEntry, item_conflicts, item_flat, merges_items, resolve_items, sorted_identities};
use crate::lists::{
    ListRequirements, ResolvedListEntry, ResolvedListRequirements, entry_values, exact_items, flat_pairs,
    list_conflicts, list_resolution, resolve_list,
};
use crate::requirements::{ConfigScalar, Provenance};
use crate::rustfmt_model::{
    AssertionView, ForbiddenGlobRequirements, ResolvedForbiddenGlobRequirements, ResolvedRustfmtScalarAssertion,
    RustfmtForbiddenIgnoreGlobConflictBlocks, RustfmtIgnorePathGlob, RustfmtScalarAssertion,
    render_rustfmt_assertion, resolved_view, same_rustfmt_assertion, sorted_texts, spec_render_rustfmt_assertion,
};
use crate::scalar_merge::{ConflictEntry, ConflictView, ResolvedRequirement, conflict_views, contributor_views};
use crate::settings::{
    RustfmtListSetting, RustfmtScalarKind, RustfmtScalarSetting, SCALAR_SETTING_COUNT, scalar_setting_at, spec_scalar_setting_at,
};
use crate::text::{join2, owned, str_eq};
use crate::text_order::{strictly_sorted, string_views, sort_dedup, lemma_sorted_same_set_equal};

verus! {

/// What one policy requires of `rustfmt.toml`: assertions on scalar
/// settings, requirements on list settings, globs that the `ignore` list
/// must not match, and whether the file may hold settings that no
/// requirement names (`closed_settings` closes it, with the message
/// reported for each extra setting).
#[derive(Debug)]
pub struct RustfmtTomlRequirements {
    pub scalar_settings: Vec<(RustfmtScalarSetting, RustfmtScalarAssertion)>,
    pub list_settings: Vec<(RustfmtListSetting, ListRequirements)>,
    pub forbidden_ignore_path_globs: ForbiddenGlobRequirements<RustfmtIgnorePathGlob>,
    pub closed_settings: Option<String>,
}

impl Default for RustfmtTomlRequirements {
    fn default() -> (r: Self)
        ensures
            r.scalar_settings@.len() == 0,
            r.list_settings@.len() == 0,
            r.forbidden_ignore_path_globs.globs@.len() == 0,
            r.closed_settings is None,
    {
        RustfmtTomlRequirements {
            scalar_settings: Vec::new(),
            list_settings: Vec::new(),
            forbidden_ignore_path_globs: ForbiddenGlobRequirements::default(),
            closed_settings: None,
        }
    }
}

/// The merged requirement of one scalar setting.
pub type ResolvedRustfmtScalar = ResolvedRequirement<ResolvedRustfmtScalarAssertion, RustfmtScalarAssertion>;

/// The merged requirements of every policy for `rustfmt.toml`.
#[derive(Debug)]
pub struct ResolvedRustfmtTomlRequirements {
    pub scalar_settings: Vec<(RustfmtScalarSetting, ResolvedRustfmtScalar)>,
    pub list_settings: Vec<(RustfmtListSetting, ResolvedListRequirements)>,
    pub forbidden_ignore_path_globs: ResolvedForbiddenGlobRequirements<RustfmtIgnorePathGlob>,
    pub ignore_glob_conflicts: RustfmtForbiddenIgnoreGlobConflictBlocks,
    pub closed_settings: Vec<(Provenance, String)>,
}

impl ResolvedRustfmtTomlRequirements {
    /// The merged scalar settings, in declaration order.
    pub fn scalar_settings(&self) -> (r: &Vec<(RustfmtScalarSetting, ResolvedRustfmtScalar)>)
        ensures
            *r == self.scalar_settings,
    {
        &self.scalar_settings
    }

    /// The merged list settings, in declaration order.
    pub fn list_settings(&self) -> (r: &Vec<(RustfmtListSetting, ResolvedListRequirements)>)
        ensures
            *r == self.list_settings,
    {
        &self.list_settings
    }

    /// The merged forbidden `ignore` globs.
    pub fn forbidden_ignore_path_globs(&self) -> (r: &ResolvedForbiddenGlobRequirements<RustfmtIgnorePathGlob>)
        ensures
            *r == self.forbidden_ignore_path_globs,
    {
        &self.forbidden_ignore_path_globs
    }
}

// ---------------------------------------------------------------- scalars

/// A scalar assertion of one policy, seen as text.
pub type ScalarRow = (Seq<char>, RustfmtScalarSetting, AssertionView);

/// One policy's scalar assertions as rows.
pub open spec fn setting_rows(policy: Seq<char>, ss: Seq<(RustfmtScalarSetting, RustfmtScalarAssertion)>) -> Seq<ScalarRow> {
    ss.map_values(|x: (RustfmtScalarSetting, RustfmtScalarAssertion)| (policy, x.0, x.1@))
}

/// Every policy's scalar assertions, in order.
pub open spec fn scalar_rows(reqs: Seq<(Provenance, RustfmtTomlRequirements)>) -> Seq<ScalarRow>
    decreases reqs.len(),
{
    if reqs.len() == 0 {
        seq![]
    } else {
        scalar_rows(reqs.drop_last()) + setting_rows(reqs.last().0.policy@, reqs.last().1.scalar_settings@)
    }
}

/// The assertions of setting `s`, each with its policy, in order.
pub open spec fn select_setting(rows: Seq<ScalarRow>, s: RustfmtScalarSetting) -> Seq<(Seq<char>, AssertionView)>
    decreases rows.len(),
{
    if rows.len() == 0 {
        seq![]
    } else if rows.last().1 == s {
        select_setting(rows.drop_last(), s).push((rows.last().0, rows.last().2))
    } else {
        select_setting(rows.drop_last(), s)
    }
}

/// Whether assertions all assert the same thing, messages aside.
pub open spec fn rustfmt_agree(sel: Seq<(Seq<char>, AssertionView)>) -> bool {
    forall|k: int| 0 <= k < sel.len() ==> same_rustfmt_assertion((#[trigger] sel[k]).1, sel[0].1)
}

/// The contributors of a scalar conflict: each policy with its assertion.
pub open spec fn rustfmt_contributors(sel: Seq<(Seq<char>, AssertionView)>) -> Seq<(Seq<char>, Seq<char>)> {
    sel.map_values(|x: (Seq<char>, AssertionView)| (x.0, spec_render_rustfmt_assertion(x.1)))
}

/// Whether setting `s` admits an assertion: an `Equals` of a value of the
/// setting's kind, a `OneOf` of texts for a text setting, `Present` or
/// `Absent` for any setting.
pub open spec fn rustfmt_assertion_legal(s: RustfmtScalarSetting, a: AssertionView) -> bool {
    if a.0 == 0 {
        match a.1 {
            Some(v) => match s.spec_scalar_kind() {
                RustfmtScalarKind::Bool => v is Bool,
                RustfmtScalarKind::Int => v is Int,
                RustfmtScalarKind::Text => v is Str,
            },
            None => false,
        }
    } else if a.0 == 1 {
        s.spec_scalar_kind() == RustfmtScalarKind::Text
    } else {
        true
    }
}

/// Whether setting `s` admits every assertion of `sel`.
pub open spec fn rustfmt_all_legal(s: RustfmtScalarSetting, sel: Seq<(Seq<char>, AssertionView)>) -> bool {
    forall|k: int| 0 <= k < sel.len() ==> rustfmt_assertion_legal(s, (#[trigger] sel[k]).1)
}

/// The merged scalar settings among the first `n` in declaration order:
/// each that some policy asserts, all admitted by the setting and agreeing,
/// with those assertions.
pub open spec fn expected_scalars(rows: Seq<ScalarRow>, n: nat) -> Seq<(RustfmtScalarSetting, Seq<(Seq<char>, AssertionView)>)>
    decreases n,
{
    if n == 0 {
        seq![]
    } else {
        let prev = expected_scalars(rows, (n - 1) as nat);
        match spec_scalar_setting_at(n - 1) {
            Some(s) => {
                let sel = select_setting(rows, s);
                if sel.len() > 0 && rustfmt_all_legal(s, sel) && rustfmt_agree(sel) { prev.push((s, sel)) } else { prev }
            },
            None => prev,
        }
    }
}

/// One conflict, keyed by the setting's file key, for each of the first `n`
/// settings whose assertions the setting does not all admit
/// (`scalar-operation-unsupported`) or, failing that, disagree
/// (`scalar-disagree`).
pub open spec fn expected_scalar_conflicts(rows: Seq<ScalarRow>, n: nat) -> Seq<ConflictView>
    decreases n,
{
    if n == 0 {
        seq![]
    } else {
        let prev = expected_scalar_conflicts(rows, (n - 1) as nat);
        match spec_scalar_setting_at(n - 1) {
            Some(s) => {
                let sel = select_setting(rows, s);
                if sel.len() > 0 && !rustfmt_all_legal(s, sel) {
                    prev.push((s.spec_file_key(), "scalar-operation-unsupported"@, rustfmt_contributors(sel)))
                } else if sel.len() > 0 && !rustfmt_agree(sel) {
                    prev.push((s.spec_file_key(), "scalar-disagree"@, rustfmt_contributors(sel)))
                } else {
                    prev
                }
            },
            None => prev,
        }
    }
}

/// A merged scalar setting seen as text.
pub open spec fn scalar_entry_view(e: (RustfmtScalarSetting, ResolvedRustfmtScalar)) -> (RustfmtScalarSetting, Seq<(Seq<char>, AssertionView)>) {
    (e.0, e.1.collected@.map_values(|c: (Provenance, RustfmtScalarAssertion)| (c.0.policy@, c.1@)))
}

/// Whether `es` holds the merged scalar settings of `rows`.
pub open spec fn scalars_resolved(es: Seq<(RustfmtScalarSetting, ResolvedRustfmtScalar)>, rows: Seq<ScalarRow>) -> bool {
    &&& es.map_values(|e: (RustfmtScalarSetting, ResolvedRustfmtScalar)| scalar_entry_view(e))
        == expected_scalars(rows, SCALAR_SETTING_COUNT as nat)
    &&& forall|i: int| 0 <= i < es.len() ==>
        (#[trigger] es[i]).1.merged@ == resolved_view(select_setting(rows, es[i].0)[0].1)
}

type ExecRow = (Provenance, RustfmtScalarSetting, RustfmtScalarAssertion);

spec fn exec_row_views(rows: Seq<ExecRow>) -> Seq<ScalarRow> {
    rows.map_values(|r: ExecRow| (r.0.policy@, r.1, r.2@))
}

fn gather_scalar_rows(reqs: &Vec<(Provenance, RustfmtTomlRequirements)>) -> (r: Vec<ExecRow>)
    ensures
        exec_row_views(r@) == scalar_rows(reqs@),
{
    let mut out: Vec<ExecRow> = Vec::new();
    let mut i: usize = 0;
    while i < reqs.len()
        invariant
            i <= reqs.len(),
            exec_row_views(out@) == scalar_rows(reqs@.subrange(0, i as int)),
        decreases reqs.len() - i,
    {
        let prov = &reqs[i].0;
        let ss = &reqs[i].1.scalar_settings;
        let ghost start = exec_row_views(out@);
        let mut j: usize = 0;
        while j < ss.len()
            invariant
                j <= ss.len(),
                exec_row_views(out@) == start + setting_rows(prov.policy@, ss@.subrange(0, j as int)),
            decreases ss.len() - j,
        {
            let ghost before = out@;
            out.push((prov.clone(), ss[j].0, ss[j].1.clone()));
            proof {
                assert(exec_row_views(out@) =~= exec_row_views(before).push((prov.policy@, ss@[j as int].0, ss@[j as int].1@)));
                assert(setting_rows(prov.policy@, ss@.subrange(0, j + 1))
                    =~= setting_rows(prov.policy@, ss@.subrange(0, j as int)).push((prov.policy@, ss@[j as int].0, ss@[j as int].1@)));
            }
            j = j + 1;
        }
        proof {
            let p = reqs@.subrange(0, i + 1);
            assert(p.drop_last() =~= reqs@.subrange(0, i as int));
            assert(ss@.subrange(0, ss@.len() as int) =~= ss@);
        }
        i = i + 1;
    }
    assert(reqs@.subrange(0, reqs@.len() as int) =~= reqs@);
    out
}

spec fn exec_sel_views(sel: Seq<(Provenance, RustfmtScalarAssertion)>) -> Seq<(Seq<char>, AssertionView)> {
    sel.map_values(|c: (Provenance, RustfmtScalarAssertion)| (c.0.policy@, c.1@))
}

fn select_rows(rows: &Vec<ExecRow>, s: RustfmtScalarSetting) -> (r: Vec<(Provenance, RustfmtScalarAssertion)>)
    ensures
        exec_sel_views(r@) == select_setting(exec_row_views(rows@), s),
{
    let mut out: Vec<(Provenance, RustfmtScalarAssertion)> = Vec::new();
    let mut i: usize = 0;
    while i < rows.len()
        invariant
            i <= rows.len(),
            exec_sel_views(out@) == select_setting(exec_row_views(rows@.subrange(0, i as int)), s),
        decreases rows.len() - i,
    {
        let ghost before = out@;
        let ghost next = exec_row_views(rows@.subrange(0, i + 1));
        assert(next.drop_last() =~= exec_row_views(rows@.subrange(0, i as int)));
        if rows[i].1 == s {
            out.push((rows[i].0.clone(), rows[i].2.clone()));
            assert(exec_sel_views(out@) =~= exec_sel_views(before).push((rows@[i as int].0.policy@, rows@[i as int].2@)));
        }
        i = i + 1;
    }
    assert(rows@.subrange(0, rows@.len() as int) =~= rows@);
    out
}

fn assertion_legal(s: RustfmtScalarSetting, a: &RustfmtScalarAssertion) -> (r: bool)
    ensures
        r == rustfmt_assertion_legal(s, a@),
{
    let kind = s.scalar_kind();
    match a {
        RustfmtScalarAssertion::Equals(v, _) => match kind {
            RustfmtScalarKind::Bool => matches!(v, ConfigScalar::Bool(_)),
            RustfmtScalarKind::Int => matches!(v, ConfigScalar::Int(_)),
            RustfmtScalarKind::Text => matches!(v, ConfigScalar::Str(_)),
        },
        RustfmtScalarAssertion::OneOf(_, _) => match kind {
            RustfmtScalarKind::Text => true,
            _ => false,
        },
        _ => true,
    }
}

fn sel_legal(s: RustfmtScalarSetting, sel: &Vec<(Provenance, RustfmtScalarAssertion)>) -> (r: bool)
    ensures
        r == rustfmt_all_legal(s, exec_sel_views(sel@)),
{
    let ghost v = exec_sel_views(sel@);
    let mut i: usize = 0;
    while i < sel.len()
        invariant
            i <= sel.len(),
            v == exec_sel_views(sel@),
            forall|k: int| 0 <= k < i ==> rustfmt_assertion_legal(s, (#[trigger] v[k]).1),
        decreases sel.len() - i,
    {
        if !assertion_legal(s, &sel[i].1) {
            assert(v[i as int].1 == sel@[i as int].1@);
            return false;
        }
        assert(v[i as int].1 == sel@[i as int].1@);
        i = i + 1;
    }
    true
}

fn sel_agree(sel: &Vec<(Provenance, RustfmtScalarAssertion)>) -> (r: bool)
    requires
        sel@.len() > 0,
    ensures
        r == rustfmt_agree(exec_sel_views(sel@)),
{
    let ghost v = exec_sel_views(sel@);
    let mut i: usize = 0;
    while i < sel.len()
        invariant
            i <= sel.len(),
            sel@.len() > 0,
            v == exec_sel_views(sel@),
            forall|k: int| 0 <= k < i ==> same_rustfmt_assertion((#[trigger] v[k]).1, v[0].1),
        decreases sel.len() - i,
    {
        if !sel[i].1.same_assertion(&sel[0].1) {
            assert(!same_rustfmt_assertion(v[i as int].1, v[0].1));
            return false;
        }
        i = i + 1;
    }
    true
}

fn rustfmt_contributors_of(sel: &Vec<(Provenance, RustfmtScalarAssertion)>) -> (r: Vec<(Provenance, String)>)
    ensures
        contributor_views(r@) == rustfmt_contributors(exec_sel_views(sel@)),
{
    let mut out: Vec<(Provenance, String)> = Vec::new();
    let mut i: usize = 0;
    while i < sel.len()
        invariant
            i <= sel.len(),
            contributor_views(out@) == rustfmt_contributors(exec_sel_views(sel@.subrange(0, i as int))),
        decreases sel.len() - i,
    {
        let ghost before = out@;
        out.push((sel[i].0.clone(), render_rustfmt_assertion(&sel[i].1)));
        proof {
            assert(contributor_views(out@) =~= contributor_views(before).push(
                (sel@[i as int].0.policy@, spec_render_rustfmt_assertion(sel@[i as int].1@))));
            assert(rustfmt_contributors(exec_sel_views(sel@.subrange(0, i + 1))) =~= rustfmt_contributors(
                exec_sel_views(sel@.subrange(0, i as int))).push((sel@[i as int].0.policy@, spec_render_rustfmt_assertion(sel@[i as int].1@))));
        }
        i = i + 1;
    }
    assert(sel@.subrange(0, sel@.len() as int) =~= sel@);
    out
}

/// Merges the scalar assertions of every policy, setting by setting in
/// declaration order: assertions of one setting that all agree give their
/// merge with every contribution; otherwise a `scalar-disagree` conflict
/// keyed by the setting's file key names every contributor.
fn resolve_scalar_settings(rows: &Vec<ExecRow>, conflicts: &mut Vec<ConflictEntry>)
    -> (r: Vec<(RustfmtScalarSetting, ResolvedRustfmtScalar)>)
    ensures
        scalars_resolved(r@, exec_row_views(rows@)),
        conflict_views(final(conflicts)@) == conflict_views(old(conflicts)@)
            + expected_scalar_conflicts(exec_row_views(rows@), SCALAR_SETTING_COUNT as nat),
{
    let ghost rv = exec_row_views(rows@);
    let mut out: Vec<(RustfmtScalarSetting, ResolvedRustfmtScalar)> = Vec::new();
    let mut i: usize = 0;
    assert(conflict_views(conflicts@) =~= conflict_views(old(conflicts)@) + seq![]);
    assert(out@.map_values(|e: (RustfmtScalarSetting, ResolvedRustfmtScalar)| scalar_entry_view(e)) =~= seq![]);
    while i < SCALAR_SETTING_COUNT
        invariant
            i <= SCALAR_SETTING_COUNT,
            rv == exec_row_views(rows@),
            out@.map_values(|e: (RustfmtScalarSetting, ResolvedRustfmtScalar)| scalar_entry_view(e)) == expected_scalars(rv, i as nat),
            forall|k: int| 0 <= k < out@.len() ==>
                (#[trigger] out@[k]).1.merged@ == resolved_view(select_setting(rv, out@[k].0)[0].1),
            conflict_views(conflicts@) == conflict_views(old(conflicts)@) + expected_scalar_conflicts(rv, i as nat),
        decreases SCALAR_SETTING_COUNT - i,
    {
        let ghost before_out = out@;
        let ghost before_conflicts = conflicts@;
        match scalar_setting_at(i) {
            Some(s) => {
                let sel = select_rows(rows, s);
                if sel.len() > 0 && !sel_legal(s, &sel) {
                    let contributors = rustfmt_contributors_of(&sel);
                    conflicts.push(ConflictEntry { key: owned(s.file_key()), reason: owned("scalar-operation-unsupported"), contributors });
                    proof {
                        reveal_strlit("scalar-operation-unsupported");
                        assert(conflict_views(conflicts@) =~= conflict_views(before_conflicts).push(conflict_views(conflicts@).last()));
                    }
                } else if sel.len() > 0 {
                    if sel_agree(&sel) {
                        let merged = sel[0].1.resolve();
                        out.push((s, ResolvedRequirement { merged, collected: sel }));
                        proof {
                            assert(out@.map_values(|e: (RustfmtScalarSetting, ResolvedRustfmtScalar)| scalar_entry_view(e))
                                =~= before_out.map_values(|e: (RustfmtScalarSetting, ResolvedRustfmtScalar)| scalar_entry_view(e)).push(
                                    scalar_entry_view(out@.last())));
                            assert(exec_sel_views(out@.last().1.collected@) == select_setting(rv, s));
                        }
                    } else {
                        let contributors = rustfmt_contributors_of(&sel);
                        conflicts.push(ConflictEntry { key: owned(s.file_key()), reason: owned("scalar-disagree"), contributors });
                        proof {
                            reveal_strlit("scalar-disagree");
                            assert(conflict_views(conflicts@) =~= conflict_views(before_conflicts).push(conflict_views(conflicts@).last()));
                        }
                    }
                }
            },
            None => {},
        }
        i = i + 1;
    }
    out
}

// ---------------------------------------------------------------- lists, globs and closing

/// Every policy's requirements of the list setting `s`, in order.
pub open spec fn list_column(reqs: Seq<(Provenance, RustfmtTomlRequirements)>, s: RustfmtListSetting) -> Seq<(Provenance, ListRequirements)>
    decreases reqs.len(),
{
    if reqs.len() == 0 {
        seq![]
    } else {
        policy_lists(reqs[0].0, reqs[0].1.list_settings@, s) + list_column(reqs.drop_first(), s)
    }
}

/// One policy's requirements of the list setting `s`.
pub open spec fn policy_lists(p: Provenance, ls: Seq<(RustfmtListSetting, ListRequirements)>, s: RustfmtListSetting) -> Seq<(Provenance, ListRequirements)>
    decreases ls.len(),
{
    if ls.len() == 0 {
        seq![]
    } else if ls[0].0 == s {
        seq![(p, ls[0].1)] + policy_lists(p, ls.drop_first(), s)
    } else {
        policy_lists(p, ls.drop_first(), s)
    }
}

/// Every policy's forbidden `ignore` globs.
pub open spec fn glob_column(reqs: Seq<(Provenance, RustfmtTomlRequirements)>) -> Seq<(Provenance, ItemRequirements<RustfmtIgnorePathGlob>)> {
    full_column(reqs, |q: RustfmtTomlRequirements| ItemRequirements { required: q.forbidden_ignore_path_globs.globs })
}

/// Every policy that closes the file, with its message.
pub open spec fn closed_column(reqs: Seq<(Provenance, RustfmtTomlRequirements)>) -> Seq<(Provenance, String)> {
    column(reqs, |q: RustfmtTomlRequirements| q.closed_settings)
}

struct RustfmtColumns {
    ignore: Vec<(Provenance, ListRequirements)>,
    skip: Vec<(Provenance, ListRequirements)>,
    globs: Vec<(Provenance, ItemRequirements<RustfmtIgnorePathGlob>)>,
    closed: Vec<(Provenance, String)>,
}

fn gather_rustfmt(reqs: Vec<(Provenance, RustfmtTomlRequirements)>) -> (c: RustfmtColumns)
    ensures
        c.ignore@ == list_column(reqs@, RustfmtListSetting::Ignore),
        c.skip@ == list_column(reqs@, RustfmtListSetting::SkipMacroInvocations),
        c.globs@ == glob_column(reqs@),
        c.closed@ == closed_column(reqs@),
{
    let ghost all = reqs@;
    let mut c = RustfmtColumns { ignore: Vec::new(), skip: Vec::new(), globs: Vec::new(), closed: Vec::new() };
    let mut rest = reqs;
    assert(c.ignore@ + list_column(rest@, RustfmtListSetting::Ignore) =~= list_column(all, RustfmtListSetting::Ignore));
    assert(c.skip@ + list_column(rest@, RustfmtListSetting::SkipMacroInvocations) =~= list_column(all, RustfmtListSetting::SkipMacroInvocations));
    assert(c.globs@ + glob_column(rest@) =~= glob_column(all));
    assert(c.closed@ + closed_column(rest@) =~= closed_column(all));
    while rest.len() > 0
        invariant
            c.ignore@ + list_column(rest@, RustfmtListSetting::Ignore) == list_column(all, RustfmtListSetting::Ignore),
            c.skip@ + list_column(rest@, RustfmtListSetting::SkipMacroInvocations) == list_column(all, RustfmtListSetting::SkipMacroInvocations),
            c.globs@ + glob_column(rest@) == glob_column(all),
            c.closed@ + closed_column(rest@) == closed_column(all),
        decreases rest.len(),
    {
        let ghost before = rest@;
        let ghost old_c = c;
        let (prov, req) = rest.remove(0);
        assert(rest@ =~= before.drop_first());
        let RustfmtTomlRequirements { scalar_settings: _, list_settings, forbidden_ignore_path_globs, closed_settings } = req;
        let mut ls = list_settings;
        let ghost ls_all = ls@;
        let ghost ig0 = c.ignore@;
        let ghost sk0 = c.skip@;
        assert(c.ignore@ + policy_lists(prov, ls@, RustfmtListSetting::Ignore) =~= ig0 + policy_lists(prov, ls_all, RustfmtListSetting::Ignore));
        assert(c.skip@ + policy_lists(prov, ls@, RustfmtListSetting::SkipMacroInvocations) =~= sk0 + policy_lists(prov, ls_all, RustfmtListSetting::SkipMacroInvocations));
        while ls.len() > 0
            invariant
                c.ignore@ + policy_lists(prov, ls@, RustfmtListSetting::Ignore) == ig0 + policy_lists(prov, ls_all, RustfmtListSetting::Ignore),
                c.skip@ + policy_lists(prov, ls@, RustfmtListSetting::SkipMacroInvocations) == sk0 + policy_lists(prov, ls_all, RustfmtListSetting::SkipMacroInvocations),
                c.globs@ == old_c.globs@,
                c.closed@ == old_c.closed@,
            decreases ls.len(),
        {
            let ghost lb = ls@;
            let ghost ci = c.ignore@;
            let ghost cs = c.skip@;
            let (setting, list) = ls.remove(0);
            assert(ls@ =~= lb.drop_first());
            match setting {
                RustfmtListSetting::Ignore => {
                    c.ignore.push((prov.clone(), list));
                    assert(c.ignore@ + policy_lists(prov, ls@, RustfmtListSetting::Ignore) =~= ci + policy_lists(prov, lb, RustfmtListSetting::Ignore));
                    assert(c.skip@ + policy_lists(prov, ls@, RustfmtListSetting::SkipMacroInvocations) =~= cs + policy_lists(prov, lb, RustfmtListSetting::SkipMacroInvocations));
                },
                RustfmtListSetting::SkipMacroInvocations => {
                    c.skip.push((prov.clone(), list));
                    assert(c.ignore@ + policy_lists(prov, ls@, RustfmtListSetting::Ignore) =~= ci + policy_lists(prov, lb, RustfmtListSetting::Ignore));
                    assert(c.skip@ + policy_lists(prov, ls@, RustfmtListSetting::SkipMacroInvocations) =~= cs + policy_lists(prov, lb, RustfmtListSetting::SkipMacroInvocations));
                },
            }
        }
        let ForbiddenGlobRequirements { globs } = forbidden_ignore_path_globs;
        c.globs.push((prov.clone(), ItemRequirements { required: globs }));
        if let Some(m) = closed_settings {
            c.closed.push((prov.clone(), m));
        }
        proof {
            assert(c.ignore@ + list_column(rest@, RustfmtListSetting::Ignore) =~= old_c.ignore@ + list_column(before, RustfmtListSetting::Ignore));
            assert(c.skip@ + list_column(rest@, RustfmtListSetting::SkipMacroInvocations) =~= old_c.skip@ + list_column(before, RustfmtListSetting::SkipMacroInvocations));
            crate::columns::lemma_full_column_front(before, |q: RustfmtTomlRequirements| ItemRequirements { required: q.forbidden_ignore_path_globs.globs });
            assert(c.globs@ + glob_column(rest@) =~= old_c.globs@ + glob_column(before));
            assert(c.closed@ + closed_column(rest@) =~= old_c.closed@ + closed_column(before));
        }
    }
    c
}

// ---------------------------------------------------------------- ignore globs

/// The `ignore` paths that requirements ask for: contained values, then the
/// exact values.
pub open spec fn ignore_candidates(ignore: ResolvedListRequirements) -> Seq<Seq<char>> {
    entry_values(ignore.contains@) + match ignore.exact {
        Some(e) => string_views(e.merged@),
        None => seq![],
    }
}

/// The candidates whose outcome in `row` is a match, in order.
pub open spec fn matched_paths(cands: Seq<Seq<char>>, row: Seq<bool>) -> Seq<Seq<char>>
    decreases cands.len(),
{
    if cands.len() == 0 {
        seq![]
    } else {
        let prev = matched_paths(cands.drop_last(), row);
        if row[cands.len() - 1] { prev.push(cands.last()) } else { prev }
    }
}

/// Each policy as a contributor that requires the path.
pub open spec fn required_contributors(c: Seq<(Provenance, String)>) -> Seq<(Seq<char>, Seq<char>)> {
    c.map_values(|x: (Provenance, String)| (x.0.policy@, "required"@))
}

/// The policies that require `p` in the merged contained values.
pub open spec fn contains_contributors(es: Seq<ResolvedListEntry>, p: Seq<char>) -> Seq<(Seq<char>, Seq<char>)> {
    if entry_values(es).contains(p) {
        let k = choose|k: int| 0 <= k < es.len() && es[k].value@ == p;
        required_contributors(es[k].collected@)
    } else {
        seq![]
    }
}

/// The policies whose exact list holds `p`, in order.
pub open spec fn exact_contributors_for(c: Seq<(Provenance, (Vec<String>, String))>, p: Seq<char>) -> Seq<(Seq<char>, Seq<char>)>
    decreases c.len(),
{
    if c.len() == 0 {
        seq![]
    } else {
        let prev = exact_contributors_for(c.drop_last(), p);
        if string_views(c.last().1.0@).contains(p) { prev.push((c.last().0.policy@, "required"@)) } else { prev }
    }
}

/// Each policy that forbids the glob.
pub open spec fn forbid_contributors(c: Seq<(Provenance, (RustfmtIgnorePathGlob, String))>) -> Seq<(Seq<char>, Seq<char>)> {
    c.map_values(|x: (Provenance, (RustfmtIgnorePathGlob, String))| (x.0.policy@, "forbidden"@))
}

/// The conflict of a required `ignore` path with a forbidding glob.
pub open spec fn path_conflict(ignore: ResolvedListRequirements, g: ResolvedItemEntry<RustfmtIgnorePathGlob>, p: Seq<char>) -> ConflictView {
    ("ignore."@ + p, "ignore-path-glob-forbids-required-path"@,
        contains_contributors(ignore.contains@, p)
            + (match ignore.exact {
                Some(e) => exact_contributors_for(e.collected@, p),
                None => seq![],
            })
            + forbid_contributors(g.collected@))
}

/// The required paths a glob matches, sorted and without repeats, given the
/// match outcome for each candidate.
pub open spec fn glob_required(ignore: ResolvedListRequirements, row: Seq<bool>) -> Seq<Seq<char>> {
    sorted_texts(matched_paths(ignore_candidates(ignore), row))
}

/// The conflicts of the first `n` globs, given for each glob `None` when it
/// does not build and otherwise the match outcome for each candidate.
pub open spec fn glob_conflicts_upto(
    ignore: ResolvedListRequirements,
    globs: Seq<ResolvedItemEntry<RustfmtIgnorePathGlob>>,
    outcomes: Seq<Option<Seq<bool>>>,
    n: nat,
) -> Seq<ConflictView>
    decreases n,
{
    if n == 0 {
        seq![]
    } else {
        let prev = glob_conflicts_upto(ignore, globs, outcomes, (n - 1) as nat);
        match outcomes[n - 1] {
            Some(row) => prev + glob_required(ignore, row).map_values(|p: Seq<char>| path_conflict(ignore, globs[n - 1], p)),
            None => prev,
        }
    }
}

/// The required paths blocked by the first `n` globs, in glob order.
pub open spec fn blocked_paths_upto(ignore: ResolvedListRequirements, outcomes: Seq<Option<Seq<bool>>>, n: nat) -> Seq<Seq<char>>
    decreases n,
{
    if n == 0 {
        seq![]
    } else {
        let prev = blocked_paths_upto(ignore, outcomes, (n - 1) as nat);
        match outcomes[n - 1] {
            Some(row) => prev + glob_required(ignore, row),
            None => prev,
        }
    }
}

/// The identities of the first `n` globs that block a required path.
pub open spec fn blocking_globs_upto(
    ignore: ResolvedListRequirements,
    globs: Seq<ResolvedItemEntry<RustfmtIgnorePathGlob>>,
    outcomes: Seq<Option<Seq<bool>>>,
    n: nat,
) -> Seq<Seq<char>>
    decreases n,
{
    if n == 0 {
        seq![]
    } else {
        let prev = blocking_globs_upto(ignore, globs, outcomes, (n - 1) as nat);
        match outcomes[n - 1] {
            Some(row) => if glob_required(ignore, row).len() > 0 { prev.push(globs[n - 1].identity@) } else { prev },
            None => prev,
        }
    }
}

/// Whether `outcomes` can be what matching the globs against the candidates
/// gave: one per glob, `None` exactly for the globs that do not build (with
/// globset's defaults on Unix: no literal separator, backslash escapes), and
/// otherwise one outcome per candidate.
pub open spec fn match_outcomes_fit(
    ignore: ResolvedListRequirements,
    globs: Seq<ResolvedItemEntry<RustfmtIgnorePathGlob>>,
    outcomes: Seq<Option<Seq<bool>>>,
) -> bool {
    &&& outcomes.len() == globs.len()
    &&& forall|k: int| 0 <= k < globs.len() ==> match #[trigger] outcomes[k] {
        Some(row) => glob_compile_error(globs[k].merged@, false, true) is None
            && row.len() == ignore_candidates(ignore).len()
            && plain_matches(globs[k].merged@, false, true, ignore_candidates(ignore), row),
        None => glob_compile_error(globs[k].merged@, false, true) is Some,
    }
}

fn candidates_of(ignore: &ResolvedListRequirements) -> (r: Vec<String>)
    ensures
        string_views(r@) == ignore_candidates(*ignore),
{
    let mut out: Vec<String> = Vec::new();
    let mut i: usize = 0;
    while i < ignore.contains.len()
        invariant
            i <= ignore.contains.len(),
            string_views(out@) == entry_values(ignore.contains@.subrange(0, i as int)),
        decreases ignore.contains.len() - i,
    {
        let ghost before = out@;
        out.push(ignore.contains[i].value.clone());
        assert(string_views(out@) =~= string_views(before).push(ignore.contains@[i as int].value@));
        assert(entry_values(ignore.contains@.subrange(0, i + 1)) =~= entry_values(ignore.contains@.subrange(0, i as int)).push(ignore.contains@[i as int].value@));
        i = i + 1;
    }
    assert(ignore.contains@.subrange(0, ignore.contains@.len() as int) =~= ignore.contains@);
    match &ignore.exact {
        Some(e) => {
            let ghost start = string_views(out@);
            let mut j: usize = 0;
            while j < e.merged.len()
                invariant
                    j <= e.merged.len(),
                    string_views(out@) == start + string_views(e.merged@.subrange(0, j as int)),
                decreases e.merged.len() - j,
            {
                let ghost before = out@;
                out.push(e.merged[j].clone());
                assert(string_views(out@) =~= string_views(before).push(e.merged@[j as int]@));
                assert(string_views(e.merged@.subrange(0, j + 1)) =~= string_views(e.merged@.subrange(0, j as int)).push(e.merged@[j as int]@));
                j = j + 1;
            }
            assert(e.merged@.subrange(0, e.merged@.len() as int) =~= e.merged@);
        },
        None => {
            assert(string_views(out@) =~= string_views(out@) + seq![]);
        },
    }
    out
}

/// Matches each merged forbidden glob against each required `ignore` path,
/// building the glob with no literal separator and with backslash escapes.
/// A glob that does not build gets `None`.
pub fn glob_match_outcomes(
    ignore: &ResolvedListRequirements,
    globs: &Vec<ResolvedItemEntry<RustfmtIgnorePathGlob>>,
) -> (r: Vec<Option<Vec<bool>>>)
    ensures
        match_outcomes_fit(*ignore, globs@, outcome_views(r@)),
{
    let cands = candidates_of(ignore);
    let mut out: Vec<Option<Vec<bool>>> = Vec::new();
    let mut k: usize = 0;
    while k < globs.len()
        invariant
            k <= globs.len(),
            out@.len() == k,
            string_views(cands@) == ignore_candidates(*ignore),
            forall|j: int| 0 <= j < k ==> match #[trigger] out@[j] {
                Some(row) => glob_compile_error(globs@[j].merged@, false, true) is None
                    && row@.len() == ignore_candidates(*ignore).len()
                    && plain_matches(globs@[j].merged@, false, true, ignore_candidates(*ignore), row@),
                None => glob_compile_error(globs@[j].merged@, false, true) is Some,
            },
        decreases globs.len() - k,
    {
        let glob = globs[k].merged.glob.as_str();
        match glob_error(glob, false, true) {
            Some(_) => {
                out.push(None);
            },
            None => {
                let mut row: Vec<bool> = Vec::new();
                let mut c: usize = 0;
                while c < cands.len()
                    invariant
                        c <= cands.len(),
                        row@.len() == c,
                        glob@ == globs@[k as int].merged@,
                        glob_compile_error(glob@, false, true) is None,
                        plain_matches(glob@, false, true, string_views(cands@), row@),
                    decreases cands.len() - c,
                {
                    let m = glob_is_match(glob, false, true, cands[c].as_str());
                    let ghost before = row@;
                    row.push(m);
                    proof {
                        assert(string_views(cands@)[c as int] == cands@[c as int]@);
                        assert forall|q: int| 0 <= q < row@.len() && q < string_views(cands@).len() && !string_views(cands@)[q].contains('\\')
                            implies #[trigger] row@[q] == crate::globs::glob_path_match(glob@, false, true, string_views(cands@)[q]) by {
                            if q < c {
                                assert(row@[q] == before[q]);
                            }
                        }
                    }
                    c = c + 1;
                }
                assert(row@.len() == string_views(cands@).len());
                out.push(Some(row));
            },
        }
        k = k + 1;
    }
    proof {
        let ov = outcome_views(out@);
        assert forall|j: int| 0 <= j < globs@.len() implies match #[trigger] ov[j] {
            Some(row) => glob_compile_error(globs@[j].merged@, false, true) is None
                && row.len() == ignore_candidates(*ignore).len()
                && plain_matches(globs@[j].merged@, false, true, ignore_candidates(*ignore), row),
            None => glob_compile_error(globs@[j].merged@, false, true) is Some,
        } by {
            assert(ov[j] == match out@[j] { Some(v) => Some(v@), None => None });
        }
    }
    out
}

fn matched_of(cands: &Vec<String>, row: &Vec<bool>) -> (r: Vec<String>)
    requires
        row@.len() == cands@.len(),
    ensures
        string_views(r@) == matched_paths(string_views(cands@), row@),
{
    let mut out: Vec<String> = Vec::new();
    let mut i: usize = 0;
    while i < cands.len()
        invariant
            i <= cands.len(),
            row@.len() == cands@.len(),
            string_views(out@) == matched_paths(string_views(cands@.subrange(0, i as int)), row@),
        decreases cands.len() - i,
    {
        let ghost before = out@;
        let ghost sub = string_views(cands@.subrange(0, i + 1));
        assert(sub.drop_last() =~= string_views(cands@.subrange(0, i as int)));
        if row[i] {
            out.push(cands[i].clone());
            assert(string_views(out@) =~= string_views(before).push(cands@[i as int]@));
        }
        i = i + 1;
    }
    assert(cands@.subrange(0, cands@.len() as int) =~= cands@);
    out
}

proof fn lemma_sorted_unique(es: Seq<ResolvedListEntry>, i: int, j: int)
    requires
        strictly_sorted(entry_values(es)),
        0 <= i < es.len(),
        0 <= j < es.len(),
        es[i].value@ == es[j].value@,
    ensures
        i == j,
{
    if i != j {
        crate::text_order::lemma_lt_irreflexive(es[i].value@);
        if i < j {
            assert(crate::text_order::chars_lt(entry_values(es)[i], entry_values(es)[j]));
        } else {
            assert(crate::text_order::chars_lt(entry_values(es)[j], entry_values(es)[i]));
        }
    }
}

fn required_of(c: &Vec<(Provenance, String)>) -> (r: Vec<(Provenance, String)>)
    ensures
        contributor_views(r@) == required_contributors(c@),
{
    let mut out: Vec<(Provenance, String)> = Vec::new();
    let mut i: usize = 0;
    while i < c.len()
        invariant
            i <= c.len(),
            contributor_views(out@) == required_contributors(c@.subrange(0, i as int)),
        decreases c.len() - i,
    {
        let ghost before = out@;
        out.push((c[i].0.clone(), owned("required")));
        proof {
            reveal_strlit("required");
            assert(contributor_views(out@) =~= contributor_views(before).push((c@[i as int].0.policy@, "required"@)));
            assert(required_contributors(c@.subrange(0, i + 1)) =~= required_contributors(c@.subrange(0, i as int)).push((c@[i as int].0.policy@, "required"@)));
        }
        i = i + 1;
    }
    assert(c@.subrange(0, c@.len() as int) =~= c@);
    out
}

fn path_contributors_of(
    ignore: &ResolvedListRequirements,
    g: &ResolvedItemEntry<RustfmtIgnorePathGlob>,
    p: &str,
) -> (r: Vec<(Provenance, String)>)
    requires
        strictly_sorted(entry_values(ignore.contains@)),
    ensures
        contributor_views(r@) == path_conflict(*ignore, *g, p@).2,
{
    let mut out = match crate::lists::entries_contain(&ignore.contains, p) {
        Some(k) => {
            proof {
                assert(entry_values(ignore.contains@)[k as int] == p@);
                let kk = choose|kk: int| 0 <= kk < ignore.contains@.len() && ignore.contains@[kk].value@ == p@;
                lemma_sorted_unique(ignore.contains@, k as int, kk);
            }
            required_of(&ignore.contains[k].collected)
        },
        None => Vec::new(),
    };
    assert(contributor_views(out@) == contains_contributors(ignore.contains@, p@));
    let ghost after_contains = contributor_views(out@);
    match &ignore.exact {
        Some(e) => {
            let c = &e.collected;
            let mut i: usize = 0;
            while i < c.len()
                invariant
                    i <= c.len(),
                    contributor_views(out@) == after_contains + exact_contributors_for(c@.subrange(0, i as int), p@),
                decreases c.len() - i,
            {
                let ghost before = out@;
                let ghost sub = c@.subrange(0, i + 1);
                assert(sub.drop_last() =~= c@.subrange(0, i as int));
                if crate::lists::strings_contain(&c[i].1.0, p) {
                    out.push((c[i].0.clone(), owned("required")));
                    proof {
                        reveal_strlit("required");
                        assert(contributor_views(out@) =~= contributor_views(before).push((c@[i as int].0.policy@, "required"@)));
                    }
                }
                i = i + 1;
            }
            assert(c@.subrange(0, c@.len() as int) =~= c@);
        },
        None => {
            assert(contributor_views(out@) =~= after_contains + seq![]);
        },
    }
    let ghost after_exact = contributor_views(out@);
    let gc = &g.collected;
    let mut i: usize = 0;
    while i < gc.len()
        invariant
            i <= gc.len(),
            contributor_views(out@) == after_exact + forbid_contributors(gc@.subrange(0, i as int)),
        decreases gc.len() - i,
    {
        let ghost before = out@;
        out.push((gc[i].0.clone(), owned("forbidden")));
        proof {
            reveal_strlit("forbidden");
            assert(contributor_views(out@) =~= contributor_views(before).push((gc@[i as int].0.policy@, "forbidden"@)));
            assert(forbid_contributors(gc@.subrange(0, i + 1)) =~= forbid_contributors(gc@.subrange(0, i as int)).push((gc@[i as int].0.policy@, "forbidden"@)));
        }
        i = i + 1;
    }
    assert(gc@.subrange(0, gc@.len() as int) =~= gc@);
    out
}

/// Given for each merged forbidden glob `None` when it does not build and
/// otherwise whether it matches each required `ignore` path (contained
/// values, then exact values), adds, glob by glob, one
/// `ignore-path-glob-forbids-required-path` conflict for each required path
/// the glob matches (sorted, without repeats), keyed `ignore.<path>`, naming
/// the policies that require the path and those that forbid the glob; and
/// returns the blocked paths and the globs that block them, each sorted.
pub fn ignore_glob_conflicts_given(
    ignore: &ResolvedListRequirements,
    globs: &Vec<ResolvedItemEntry<RustfmtIgnorePathGlob>>,
    outcomes: &Vec<Option<Vec<bool>>>,
    conflicts: &mut Vec<ConflictEntry>,
) -> (r: RustfmtForbiddenIgnoreGlobConflictBlocks)
    requires
        strictly_sorted(entry_values(ignore.contains@)),
        outcomes@.len() == globs@.len(),
        forall|k: int| 0 <= k < outcomes@.len() ==> match #[trigger] outcomes@[k] {
            Some(row) => row@.len() == ignore_candidates(*ignore).len(),
            None => true,
        },
    ensures
        conflict_views(final(conflicts)@) == conflict_views(old(conflicts)@)
            + glob_conflicts_upto(*ignore, globs@, outcome_views(outcomes@), globs@.len()),
        string_views(r.required@) == sorted_texts(blocked_paths_upto(*ignore, outcome_views(outcomes@), globs@.len())),
        string_views(r.path_globs@) == sorted_texts(blocking_globs_upto(*ignore, globs@, outcome_views(outcomes@), globs@.len())),
{
    let ghost ov = outcome_views(outcomes@);
    let cands = candidates_of(ignore);
    let mut blocked: Vec<String> = Vec::new();
    let mut blocking: Vec<String> = Vec::new();
    let mut k: usize = 0;
    assert(conflict_views(conflicts@) =~= conflict_views(old(conflicts)@) + seq![]);
    while k < globs.len()
        invariant
            k <= globs.len(),
            outcomes@.len() == globs@.len(),
            ov == outcome_views(outcomes@),
            strictly_sorted(entry_values(ignore.contains@)),
            string_views(cands@) == ignore_candidates(*ignore),
            forall|j: int| 0 <= j < outcomes@.len() ==> match #[trigger] outcomes@[j] {
                Some(row) => row@.len() == ignore_candidates(*ignore).len(),
                None => true,
            },
            conflict_views(conflicts@) == conflict_views(old(conflicts)@) + glob_conflicts_upto(*ignore, globs@, ov, k as nat),
            string_views(blocked@) == blocked_paths_upto(*ignore, ov, k as nat),
            string_views(blocking@) == blocking_globs_upto(*ignore, globs@, ov, k as nat),
        decreases globs.len() - k,
    {
        let ghost before_conflicts = conflict_views(conflicts@);
        let ghost before_blocked = string_views(blocked@);
        let ghost before_blocking = string_views(blocking@);
        assert(ov[k as int] == match outcomes@[k as int] { Some(v) => Some(v@), None => None });
        match &outcomes[k] {
            Some(row) => {
                let matched = matched_of(&cands, row);
                let required = sort_dedup(&matched);
                proof {
                    lemma_sorted_same_set_equal(sorted_texts(string_views(matched@)), string_views(required@));
                }
                let ghost req_v = string_views(required@);
                let g = &globs[k];
                let mut j: usize = 0;
                while j < required.len()
                    invariant
                        j <= required.len(),
                        req_v == string_views(required@),
                        strictly_sorted(entry_values(ignore.contains@)),
                        conflict_views(conflicts@) == before_conflicts
                            + req_v.subrange(0, j as int).map_values(|p: Seq<char>| path_conflict(*ignore, *g, p)),
                        string_views(blocked@) == before_blocked + req_v.subrange(0, j as int),
                    decreases required.len() - j,
                {
                    let contributors = path_contributors_of(ignore, g, required[j].as_str());
                    let ghost bc = conflicts@;
                    let ghost bb = blocked@;
                    conflicts.push(ConflictEntry {
                        key: join2("ignore.", required[j].as_str()),
                        reason: owned("ignore-path-glob-forbids-required-path"),
                        contributors,
                    });
                    blocked.push(required[j].clone());
                    proof {
                        reveal_strlit("ignore.");
                        reveal_strlit("ignore-path-glob-forbids-required-path");
                        assert(conflict_views(conflicts@) =~= conflict_views(bc).push(path_conflict(*ignore, *g, req_v[j as int])));
                        assert(req_v.subrange(0, j + 1).map_values(|p: Seq<char>| path_conflict(*ignore, *g, p))
                            =~= req_v.subrange(0, j as int).map_values(|p: Seq<char>| path_conflict(*ignore, *g, p)).push(
                                path_conflict(*ignore, *g, req_v[j as int])));
                        assert(string_views(blocked@) =~= string_views(bb).push(req_v[j as int]));
                        assert(req_v.subrange(0, j + 1) =~= req_v.subrange(0, j as int).push(req_v[j as int]));
                    }
                    j = j + 1;
                }
                assert(req_v.subrange(0, req_v.len() as int) =~= req_v);
                if required.len() > 0 {
                    let ghost bg = blocking@;
                    blocking.push(g.identity.clone());
                    assert(string_views(blocking@) =~= string_views(bg).push(g.identity@));
                }
            },
            None => {},
        }
        k = k + 1;
    }
    let required = sort_dedup(&blocked);
    let path_globs = sort_dedup(&blocking);
    proof {
        lemma_sorted_same_set_equal(sorted_texts(string_views(blocked@)), string_views(required@));
        lemma_sorted_same_set_equal(sorted_texts(string_views(blocking@)), string_views(path_globs@));
    }
    RustfmtForbiddenIgnoreGlobConflictBlocks { required, path_globs }
}

/// The outcomes seen as sequences.
pub open spec fn outcome_views(o: Seq<Option<Vec<bool>>>) -> Seq<Option<Seq<bool>>> {
    o.map_values(|x: Option<Vec<bool>>| match x {
        Some(v) => Some(v@),
        None => None,
    })
}

// ---------------------------------------------------------------- merge

/// Whether `ls` holds the merged list settings of `reqs`: `ignore`, then
/// `skip_macro_invocations`, each when some policy names it.
pub open spec fn rustfmt_lists_resolved(ls: Seq<(RustfmtListSetting, ResolvedListRequirements)>, reqs: Seq<(Provenance, RustfmtTomlRequirements)>) -> bool {
    let ig = list_column(reqs, RustfmtListSetting::Ignore);
    let sk = list_column(reqs, RustfmtListSetting::SkipMacroInvocations);
    &&& ls.len() == (if ig.len() > 0 { 1int } else { 0int }) + (if sk.len() > 0 { 1int } else { 0int })
    &&& ig.len() > 0 ==> ls[0].0 == RustfmtListSetting::Ignore
        && list_resolution(ls[0].1, flat_pairs(ig, false), flat_pairs(ig, true), exact_items(ig))
    &&& sk.len() > 0 ==> ls.last().0 == RustfmtListSetting::SkipMacroInvocations
        && list_resolution(ls.last().1, flat_pairs(sk, false), flat_pairs(sk, true), exact_items(sk))
}

/// The conflicts of merging the list settings of `reqs` into `ls`.
pub open spec fn rustfmt_list_conflicts(ls: Seq<(RustfmtListSetting, ResolvedListRequirements)>, reqs: Seq<(Provenance, RustfmtTomlRequirements)>) -> Seq<ConflictView> {
    let ig = list_column(reqs, RustfmtListSetting::Ignore);
    let sk = list_column(reqs, RustfmtListSetting::SkipMacroInvocations);
    (if ig.len() > 0 { list_conflicts("ignore"@, ls[0].1, exact_items(ig)) } else { seq![] })
        + (if sk.len() > 0 { list_conflicts("skip_macro_invocations"@, ls.last().1, exact_items(sk)) } else { seq![] })
}

/// Whether `r` merges `reqs`, given the outcomes of matching the merged
/// forbidden globs against the required `ignore` paths.
pub open spec fn rustfmt_resolution(r: ResolvedRustfmtTomlRequirements, reqs: Seq<(Provenance, RustfmtTomlRequirements)>, outcomes: Seq<Option<Seq<bool>>>) -> bool {
    let ig = list_column(reqs, RustfmtListSetting::Ignore);
    &&& scalars_resolved(r.scalar_settings@, scalar_rows(reqs))
    &&& merges_items(r.forbidden_ignore_path_globs.globs@, item_flat(glob_column(reqs)))
    &&& rustfmt_lists_resolved(r.list_settings@, reqs)
    &&& r.closed_settings@ == closed_column(reqs)
    &&& if ig.len() > 0 {
        &&& match_outcomes_fit(r.list_settings@[0].1, r.forbidden_ignore_path_globs.globs@, outcomes)
        &&& string_views(r.ignore_glob_conflicts.required@)
            == sorted_texts(blocked_paths_upto(r.list_settings@[0].1, outcomes, r.forbidden_ignore_path_globs.globs@.len()))
        &&& string_views(r.ignore_glob_conflicts.path_globs@) == sorted_texts(blocking_globs_upto(
            r.list_settings@[0].1, r.forbidden_ignore_path_globs.globs@, outcomes, r.forbidden_ignore_path_globs.globs@.len()))
    } else {
        r.ignore_glob_conflicts.required@.len() == 0 && r.ignore_glob_conflicts.path_globs@.len() == 0
    }
}

/// The conflicts of merging `reqs` into `r`, given the glob match outcomes:
/// scalar settings, forbidden globs, list settings, then required `ignore`
/// paths that a forbidden glob matches.
pub open spec fn rustfmt_conflicts(r: ResolvedRustfmtTomlRequirements, reqs: Seq<(Provenance, RustfmtTomlRequirements)>, outcomes: Seq<Option<Seq<bool>>>) -> Seq<ConflictView> {
    let flat = item_flat(glob_column(reqs));
    let ig = list_column(reqs, RustfmtListSetting::Ignore);
    expected_scalar_conflicts(scalar_rows(reqs), SCALAR_SETTING_COUNT as nat)
        + item_conflicts("ignore"@, sorted_identities(flat), flat)
        + rustfmt_list_conflicts(r.list_settings@, reqs)
        + (if ig.len() > 0 {
            glob_conflicts_upto(r.list_settings@[0].1, r.forbidden_ignore_path_globs.globs@, outcomes, r.forbidden_ignore_path_globs.globs@.len())
        } else {
            seq![]
        })
}

/// Whether `r` merges `reqs` with no conflict, for some outcome of the
/// glob matches.
pub open spec fn merges_without_conflict(r: ResolvedRustfmtTomlRequirements, reqs: Seq<(Provenance, RustfmtTomlRequirements)>) -> bool {
    exists|outcomes: Seq<Option<Seq<bool>>>|
        #[trigger] rustfmt_resolution(r, reqs, outcomes) && rustfmt_conflicts(r, reqs, outcomes).len() == 0
}

/// What merging `reqs` returns: a merge with no conflict, or every
/// conflict (at least one) of some merge of them.
pub open spec fn rustfmt_merge_result(
    r: Result<ResolvedRustfmtTomlRequirements, Vec<ConflictEntry>>,
    reqs: Seq<(Provenance, RustfmtTomlRequirements)>,
) -> bool {
    &&& r matches Ok(x) ==> merges_without_conflict(x, reqs)
    &&& r matches Err(cs) ==> cs@.len() > 0
    &&& r matches Err(cs) ==> exists|x: ResolvedRustfmtTomlRequirements, outcomes: Seq<Option<Seq<bool>>>|
        rustfmt_resolution(x, reqs, outcomes) && conflict_views(cs@) == rustfmt_conflicts(x, reqs, outcomes)
}

impl RustfmtTomlRequirements {
    /// The engine these requirements are for.
    pub fn engine_id(&self) -> (r: &'static str)
        ensures
            r == crate::rustfmt_engine::ENGINE_ID,
    {
        crate::rustfmt_engine::ENGINE_ID
    }

    /// Merges the requirements of several policies: scalar settings (whose
    /// assertions must agree, messages aside), forbidden `ignore` globs,
    /// list settings, and the policies that close the file; then each
    /// required `ignore` path that a forbidden glob matches is a conflict.
    /// Returns the merge with every conflict. What the conflicts of the last
    /// kind are depends on how globset matches paths here; the contract
    /// states them for the outcomes it had.
    pub fn merge_with_conflicts(reqs: Vec<(Provenance, RustfmtTomlRequirements)>) -> (r: (ResolvedRustfmtTomlRequirements, Vec<ConflictEntry>))
        ensures
            exists|outcomes: Seq<Option<Seq<bool>>>|
                rustfmt_resolution(r.0, reqs@, outcomes) && conflict_views(r.1@) == rustfmt_conflicts(r.0, reqs@, outcomes),
    {
        let ghost all = reqs@;
        let rows = gather_scalar_rows(&reqs);
        let mut conflicts: Vec<ConflictEntry> = Vec::new();
        assert(conflict_views(conflicts@) =~= seq![]);
        let scalar_settings = resolve_scalar_settings(&rows, &mut conflicts);
        let RustfmtColumns { ignore, skip, globs, closed } = gather_rustfmt(reqs);
        let globs = resolve_items("ignore", globs, &mut conflicts);
        let ghost after_items = conflict_views(conflicts@);
        let ig_len = ignore.len();
        let sk_len = skip.len();
        let mut list_settings: Vec<(RustfmtListSetting, ResolvedListRequirements)> = Vec::new();
        if ig_len > 0 {
            let resolved = resolve_list("ignore", ignore, &mut conflicts);
            list_settings.push((RustfmtListSetting::Ignore, resolved));
        }
        let ghost after_ignore = conflict_views(conflicts@);
        if sk_len > 0 {
            let resolved = resolve_list("skip_macro_invocations", skip, &mut conflicts);
            list_settings.push((RustfmtListSetting::SkipMacroInvocations, resolved));
        }
        proof {
            assert(conflict_views(conflicts@) =~= after_items + rustfmt_list_conflicts(list_settings@, all));
        }
        let ghost after_lists = conflict_views(conflicts@);
        let ghost mut outcome_seq: Seq<Option<Seq<bool>>> = seq![];
        let ignore_glob_conflicts = if ig_len > 0 {
            let outcomes = glob_match_outcomes(&list_settings[0].1, &globs.required);
            proof {
                outcome_seq = outcome_views(outcomes@);
                assert forall|k: int| 0 <= k < outcomes@.len() implies match #[trigger] outcomes@[k] {
                    Some(row) => row@.len() == ignore_candidates(list_settings@[0].1).len(),
                    None => true,
                } by {
                    assert(outcome_seq[k] == match outcomes@[k] { Some(v) => Some(v@), None => None });
                }
            }
            ignore_glob_conflicts_given(&list_settings[0].1, &globs.required, &outcomes, &mut conflicts)
        } else {
            assert(conflict_views(conflicts@) =~= after_lists + seq![]);
            RustfmtForbiddenIgnoreGlobConflictBlocks { required: Vec::new(), path_globs: Vec::new() }
        };
        let resolved = ResolvedRustfmtTomlRequirements {
            scalar_settings,
            list_settings,
            forbidden_ignore_path_globs: ResolvedForbiddenGlobRequirements { globs: globs.required },
            ignore_glob_conflicts,
            closed_settings: closed,
        };
        assert(rustfmt_resolution(resolved, all, outcome_seq));
        assert(conflict_views(conflicts@) == rustfmt_conflicts(resolved, all, outcome_seq));
        let r = (resolved, conflicts);
        assert(rustfmt_resolution(r.0, all, outcome_seq) && conflict_views(r.1@) == rustfmt_conflicts(r.0, all, outcome_seq));
        r
    }

    /// Merges the requirements of several policies as `merge_with_conflicts`
    /// does: the merge when nothing conflicts, otherwise every conflict.
    pub fn merge(reqs: Vec<(Provenance, RustfmtTomlRequirements)>) -> (r: Result<ResolvedRustfmtTomlRequirements, Vec<ConflictEntry>>)
        ensures
            rustfmt_merge_result(r, reqs@),
    {
        let (resolved, conflicts) = Self::merge_with_conflicts(reqs);
        let ghost o = choose|o: Seq<Option<Seq<bool>>>|
            rustfmt_resolution(resolved, reqs@, o) && conflict_views(conflicts@) == rustfmt_conflicts(resolved, reqs@, o);
        if conflicts.len() == 0 {
            assert(conflict_views(conflicts@).len() == 0);
            assert(rustfmt_resolution(resolved, reqs@, o) && rustfmt_conflicts(resolved, reqs@, o).len() == 0);
            assert(merges_without_conflict(resolved, reqs@));
            Ok(resolved)
        } else {
            assert(rustfmt_resolution(resolved, reqs@, o) && conflict_views(conflicts@) == rustfmt_conflicts(resolved, reqs@, o));
            assert(exists|x: ResolvedRustfmtTomlRequirements, outcomes: Seq<Option<Seq<bool>>>|
                rustfmt_resolution(x, reqs@, outcomes) && conflict_views(conflicts@) == rustfmt_conflicts(x, reqs@, outcomes));
            Err(conflicts)
        }
    }
}


proof fn lemma_expected_scalars_legal(rows: Seq<ScalarRow>, n: nat)
    ensures
        forall|i: int| 0 <= i < expected_scalars(rows, n).len() ==>
            rustfmt_all_legal((#[trigger] expected_scalars(rows, n)[i]).0, expected_scalars(rows, n)[i].1),
    decreases n,
{
    if n > 0 {
        lemma_expected_scalars_legal(rows, (n - 1) as nat);
        let prev = expected_scalars(rows, (n - 1) as nat);
        let cur = expected_scalars(rows, n);
        assert forall|i: int| 0 <= i < cur.len() implies rustfmt_all_legal((#[trigger] cur[i]).0, cur[i].1) by {
            if i < prev.len() {
                assert(cur[i] == prev[i]);
            }
        }
    }
}

proof fn lemma_select_holds_row(rows: Seq<ScalarRow>, j: int)
    requires
        0 <= j < rows.len(),
    ensures
        select_setting(rows, rows[j].1).contains((rows[j].0, rows[j].2)),
    decreases rows.len(),
{
    let s = rows[j].1;
    let prev = select_setting(rows.drop_last(), s);
    if j == rows.len() - 1 {
        assert(select_setting(rows, s) == prev.push((rows[j].0, rows[j].2)));
        assert(select_setting(rows, s)[prev.len() as int] == (rows[j].0, rows[j].2));
    } else {
        assert(rows.drop_last()[j] == rows[j]);
        lemma_select_holds_row(rows.drop_last(), j);
        let k = choose|k: int| 0 <= k < prev.len() && prev[k] == (rows[j].0, rows[j].2);
        if rows.last().1 == s {
            assert(select_setting(rows, s)[k] == prev[k]);
        }
    }
}

proof fn lemma_unsupported_reported(rows: Seq<ScalarRow>, n: nat, pos: int, s: RustfmtScalarSetting)
    requires
        0 <= pos < n,
        spec_scalar_setting_at(pos) == Some(s),
        select_setting(rows, s).len() > 0,
        !rustfmt_all_legal(s, select_setting(rows, s)),
    ensures
        expected_scalar_conflicts(rows, n).contains(
            (s.spec_file_key(), "scalar-operation-unsupported"@, rustfmt_contributors(select_setting(rows, s)))),
    decreases n,
{
    let c = (s.spec_file_key(), "scalar-operation-unsupported"@, rustfmt_contributors(select_setting(rows, s)));
    let prev = expected_scalar_conflicts(rows, (n - 1) as nat);
    if pos == n - 1 {
        assert(expected_scalar_conflicts(rows, n) == prev.push(c));
        assert(expected_scalar_conflicts(rows, n)[prev.len() as int] == c);
    } else {
        lemma_unsupported_reported(rows, (n - 1) as nat, pos, s);
        let k = choose|k: int| 0 <= k < prev.len() && prev[k] == c;
        let cur = expected_scalar_conflicts(rows, n);
        assert(cur.len() >= prev.len() && cur.subrange(0, prev.len() as int) == prev);
        assert(cur[k] == prev[k]);
    }
}

/// What merging rustfmt requirements does with scalar settings that do not
/// admit an assertion: every assertion that the merge keeps is one its
/// setting admits, and a setting that some policy asserts in a way the
/// setting does not admit is reported as a `scalar-operation-unsupported`
/// conflict keyed by the setting's file key.
pub proof fn law_merged_scalars_are_legal(
    reqs: Seq<(Provenance, RustfmtTomlRequirements)>,
    r: ResolvedRustfmtTomlRequirements,
    conflicts: Seq<ConflictView>,
    outcomes: Seq<Option<Seq<bool>>>,
)
    requires
        rustfmt_resolution(r, reqs, outcomes),
        conflicts == rustfmt_conflicts(r, reqs, outcomes),
    ensures
        forall|i: int, k: int| 0 <= i < r.scalar_settings@.len() && 0 <= k < r.scalar_settings@[i].1.collected@.len()
            ==> rustfmt_assertion_legal(r.scalar_settings@[i].0, (#[trigger] r.scalar_settings@[i].1.collected@[k]).1@),
        forall|j: int| 0 <= j < scalar_rows(reqs).len() && !rustfmt_assertion_legal((#[trigger] scalar_rows(reqs)[j]).1, scalar_rows(reqs)[j].2)
            ==> exists|c: ConflictView| conflicts.contains(c) && c.0 == scalar_rows(reqs)[j].1.spec_file_key()
                && c.1 == "scalar-operation-unsupported"@,
{
    let rows = scalar_rows(reqs);
    let es = r.scalar_settings@;
    let ex = expected_scalars(rows, SCALAR_SETTING_COUNT as nat);
    lemma_expected_scalars_legal(rows, SCALAR_SETTING_COUNT as nat);
    assert forall|i: int, k: int| 0 <= i < es.len() && 0 <= k < es[i].1.collected@.len()
        implies rustfmt_assertion_legal(es[i].0, (#[trigger] es[i].1.collected@[k]).1@) by {
        let views = es.map_values(|e: (RustfmtScalarSetting, ResolvedRustfmtScalar)| scalar_entry_view(e));
        assert(views[i] == scalar_entry_view(es[i]));
        assert(ex[i] == views[i]);
        assert(rustfmt_all_legal(ex[i].0, ex[i].1));
        assert(ex[i].1[k] == (es[i].1.collected@[k].0.policy@, es[i].1.collected@[k].1@));
    }
    assert forall|j: int| 0 <= j < rows.len() && !rustfmt_assertion_legal((#[trigger] rows[j]).1, rows[j].2)
        implies exists|c: ConflictView| conflicts.contains(c) && c.0 == rows[j].1.spec_file_key()
            && c.1 == "scalar-operation-unsupported"@ by {
        let s = rows[j].1;
        let sel = select_setting(rows, s);
        lemma_select_holds_row(rows, j);
        let k = choose|k: int| 0 <= k < sel.len() && sel[k] == (rows[j].0, rows[j].2);
        assert(!rustfmt_assertion_legal(s, sel[k].1));
        crate::settings::lemma_key_position(s);
        let pos = crate::settings::setting_position(s);
        lemma_unsupported_reported(rows, SCALAR_SETTING_COUNT as nat, pos, s);
        let c = (s.spec_file_key(), "scalar-operation-unsupported"@, rustfmt_contributors(sel));
        let sc = expected_scalar_conflicts(rows, SCALAR_SETTING_COUNT as nat);
        let m = choose|m: int| 0 <= m < sc.len() && sc[m] == c;
        assert(conflicts[m] == sc[m]);
        assert(conflicts.contains(c));
    }
}


/// What `RustfmtTomlRequirements::merge` returns, for any requirements: a
/// failed merge reports at least one conflict; a merge that succeeds keeps
/// only assertions its settings admit; and a policy that asserts a scalar
/// setting in a way the setting does not admit makes the merge fail, with a
/// `scalar-operation-unsupported` conflict keyed by the setting's file key.
pub proof fn law_unsupported_assertion_fails_merge(
    r: Result<ResolvedRustfmtTomlRequirements, Vec<ConflictEntry>>,
    reqs: Seq<(Provenance, RustfmtTomlRequirements)>,
)
    requires
        rustfmt_merge_result(r, reqs),
    ensures
        r matches Err(cs) ==> cs@.len() > 0,
        r matches Ok(x) ==> forall|i: int, k: int| 0 <= i < x.scalar_settings@.len() && 0 <= k < x.scalar_settings@[i].1.collected@.len()
            ==> rustfmt_assertion_legal(x.scalar_settings@[i].0, (#[trigger] x.scalar_settings@[i].1.collected@[k]).1@),
        forall|j: int| 0 <= j < scalar_rows(reqs).len() && !rustfmt_assertion_legal((#[trigger] scalar_rows(reqs)[j]).1, scalar_rows(reqs)[j].2)
            ==> (r matches Err(cs) && exists|c: ConflictView| conflict_views(cs@).contains(c)
                && c.0 == scalar_rows(reqs)[j].1.spec_file_key() && c.1 == "scalar-operation-unsupported"@),
{
    match r {
        Ok(x) => {
            let o = choose|o: Seq<Option<Seq<bool>>>| rustfmt_resolution(x, reqs, o) && rustfmt_conflicts(x, reqs, o).len() == 0;
            law_merged_scalars_are_legal(reqs, x, rustfmt_conflicts(x, reqs, o), o);
            assert forall|j: int| 0 <= j < scalar_rows(reqs).len() implies rustfmt_assertion_legal((#[trigger] scalar_rows(reqs)[j]).1, scalar_rows(reqs)[j].2) by {
                if !rustfmt_assertion_legal(scalar_rows(reqs)[j].1, scalar_rows(reqs)[j].2) {
                    let c = choose|c: ConflictView| rustfmt_conflicts(x, reqs, o).contains(c) && c.0 == scalar_rows(reqs)[j].1.spec_file_key()
                        && c.1 == "scalar-operation-unsupported"@;
                }
            }
        },
        Err(cs) => {
            let (x, o) = choose|x: ResolvedRustfmtTomlRequirements, o: Seq<Option<Seq<bool>>>|
                rustfmt_resolution(x, reqs, o) && conflict_views(cs@) == rustfmt_conflicts(x, reqs, o);
            law_merged_scalars_are_legal(reqs, x, rustfmt_conflicts(x, reqs, o), o);
        },
    }
}


proof fn lemma_scalar_conflict_reported(rows: Seq<ScalarRow>, n: nat, pos: int, s: RustfmtScalarSetting)
    requires
        0 <= pos < n,
        spec_scalar_setting_at(pos) == Some(s),
        select_setting(rows, s).len() > 0,
        !(rustfmt_all_legal(s, select_setting(rows, s)) && rustfmt_agree(select_setting(rows, s))),
    ensures
        expected_scalar_conflicts(rows, n).contains((s.spec_file_key(),
            if rustfmt_all_legal(s, select_setting(rows, s)) { "scalar-disagree"@ } else { "scalar-operation-unsupported"@ },
            rustfmt_contributors(select_setting(rows, s)))),
    decreases n,
{
    let sel = select_setting(rows, s);
    let c = (s.spec_file_key(),
        if rustfmt_all_legal(s, sel) { "scalar-disagree"@ } else { "scalar-operation-unsupported"@ },
        rustfmt_contributors(sel));
    let prev = expected_scalar_conflicts(rows, (n - 1) as nat);
    if pos == n - 1 {
        assert(expected_scalar_conflicts(rows, n) == prev.push(c));
        assert(expected_scalar_conflicts(rows, n)[prev.len() as int] == c);
    } else {
        lemma_scalar_conflict_reported(rows, (n - 1) as nat, pos, s);
        let k = choose|k: int| 0 <= k < prev.len() && prev[k] == c;
        let cur = expected_scalar_conflicts(rows, n);
        assert(cur.len() >= prev.len() && cur.subrange(0, prev.len() as int) == prev);
        assert(cur[k] == prev[k]);
    }
}

/// Two policies that assert `OneOf` on one scalar setting with different
/// sets of allowed texts make the `rustfmt.toml` merge fail, with a
/// conflict keyed by the setting's file key: `scalar-disagree`, or
/// `scalar-operation-unsupported` when the setting does not admit one of
/// the assertions made of it.
pub proof fn law_one_of_sets_must_match(
    r: Result<ResolvedRustfmtTomlRequirements, Vec<ConflictEntry>>,
    reqs: Seq<(Provenance, RustfmtTomlRequirements)>,
    j1: int,
    j2: int,
    x: Seq<char>,
)
    requires
        rustfmt_merge_result(r, reqs),
        0 <= j1 < scalar_rows(reqs).len(),
        0 <= j2 < scalar_rows(reqs).len(),
        scalar_rows(reqs)[j1].1 == scalar_rows(reqs)[j2].1,
        scalar_rows(reqs)[j1].2.0 == 1,
        scalar_rows(reqs)[j2].2.0 == 1,
        scalar_rows(reqs)[j1].2.2.contains(x),
        !scalar_rows(reqs)[j2].2.2.contains(x),
    ensures
        r matches Err(cs) && exists|c: ConflictView| conflict_views(cs@).contains(c)
            && c.0 == scalar_rows(reqs)[j1].1.spec_file_key()
            && (c.1 == "scalar-disagree"@ || c.1 == "scalar-operation-unsupported"@),
{
    let rows = scalar_rows(reqs);
    let s = rows[j1].1;
    let sel = select_setting(rows, s);
    lemma_select_holds_row(rows, j1);
    lemma_select_holds_row(rows, j2);
    let a = choose|k: int| 0 <= k < sel.len() && sel[k] == (rows[j1].0, rows[j1].2);
    let b = choose|k: int| 0 <= k < sel.len() && sel[k] == (rows[j2].0, rows[j2].2);
    assert(!rustfmt_agree(sel)) by {
        if rustfmt_agree(sel) {
            assert(same_rustfmt_assertion(sel[a].1, sel[0].1));
            assert(same_rustfmt_assertion(sel[b].1, sel[0].1));
            assert(sel[0].1.2.contains(x));
        }
    }
    crate::settings::lemma_key_position(s);
    let pos = crate::settings::setting_position(s);
    lemma_scalar_conflict_reported(rows, SCALAR_SETTING_COUNT as nat, pos, s);
    let c = (s.spec_file_key(),
        if rustfmt_all_legal(s, sel) { "scalar-disagree"@ } else { "scalar-operation-unsupported"@ },
        rustfmt_contributors(sel));
    let sc = expected_scalar_conflicts(rows, SCALAR_SETTING_COUNT as nat);
    let m = choose|m: int| 0 <= m < sc.len() && sc[m] == c;
    assert forall|xr: ResolvedRustfmtTomlRequirements, o: Seq<Option<Seq<bool>>>| rustfmt_resolution(xr, reqs, o)
        implies #[trigger] rustfmt_conflicts(xr, reqs, o).contains(c) by {
        let all = rustfmt_conflicts(xr, reqs, o);
        assert(all[m] == sc[m]);
    }
    match r {
        Ok(xr) => {
            let o = choose|o: Seq<Option<Seq<bool>>>| #[trigger] rustfmt_resolution(xr, reqs, o) && rustfmt_conflicts(xr, reqs, o).len() == 0;
            assert(rustfmt_conflicts(xr, reqs, o).contains(c));
        },
        Err(cs) => {
            let (xr, o) = choose|xr: ResolvedRustfmtTomlRequirements, o: Seq<Option<Seq<bool>>>|
                rustfmt_resolution(xr, reqs, o) && conflict_views(cs@) == rustfmt_conflicts(xr, reqs, o);
            assert(rustfmt_conflicts(xr, reqs, o).contains(c));
        },
    }
}


/// Whether two assertions ask for different things, in plain terms: they
/// are of different kinds; they want different values (a different kind
/// of value, or a different string, integer or boolean); or one allows a
/// text the other does not.
pub open spec fn rustfmt_assertions_differ(a: AssertionView, b: AssertionView) -> bool {
    ||| a.0 != b.0
    ||| a.0 == 0 && match (a.1, b.1) {
        (Some(ConfigScalar::Str(x)), Some(ConfigScalar::Str(y))) => x@ != y@,
        (Some(ConfigScalar::Int(x)), Some(ConfigScalar::Int(y))) => x != y,
        (Some(ConfigScalar::Bool(x)), Some(ConfigScalar::Bool(y))) => x != y,
        (None, None) => false,
        _ => true,
    }
    ||| a.0 == 1 && exists|x: Seq<char>| a.2.contains(x) != b.2.contains(x)
}

/// Two policies that assert different things of one scalar setting make
/// the `rustfmt.toml` merge fail, with a conflict keyed by the setting's
/// file key (`scalar-disagree`, or `scalar-operation-unsupported` when the
/// setting does not admit one of the assertions made of it).
pub proof fn law_different_scalar_assertions_fail_merge(
    r: Result<ResolvedRustfmtTomlRequirements, Vec<ConflictEntry>>,
    reqs: Seq<(Provenance, RustfmtTomlRequirements)>,
    j1: int,
    j2: int,
)
    requires
        rustfmt_merge_result(r, reqs),
        0 <= j1 < scalar_rows(reqs).len(),
        0 <= j2 < scalar_rows(reqs).len(),
        scalar_rows(reqs)[j1].1 == scalar_rows(reqs)[j2].1,
        rustfmt_assertions_differ(scalar_rows(reqs)[j1].2, scalar_rows(reqs)[j2].2),
    ensures
        r matches Err(cs) && exists|c: ConflictView| conflict_views(cs@).contains(c)
            && c.0 == scalar_rows(reqs)[j1].1.spec_file_key()
            && (c.1 == "scalar-disagree"@ || c.1 == "scalar-operation-unsupported"@),
{
    let rows = scalar_rows(reqs);
    let s = rows[j1].1;
    let sel = select_setting(rows, s);
    lemma_select_holds_row(rows, j1);
    lemma_select_holds_row(rows, j2);
    let a = choose|k: int| 0 <= k < sel.len() && sel[k] == (rows[j1].0, rows[j1].2);
    let b = choose|k: int| 0 <= k < sel.len() && sel[k] == (rows[j2].0, rows[j2].2);
    assert(!rustfmt_agree(sel)) by {
        if rustfmt_agree(sel) {
            assert(same_rustfmt_assertion(sel[a].1, sel[0].1));
            assert(same_rustfmt_assertion(sel[b].1, sel[0].1));
            let p = rows[j1].2;
            let q = rows[j2].2;
            if p.0 == 1 && exists|x: Seq<char>| p.2.contains(x) != q.2.contains(x) {
                let x = choose|x: Seq<char>| p.2.contains(x) != q.2.contains(x);
                assert(sel[0].1.2.contains(x) == p.2.contains(x));
                assert(sel[0].1.2.contains(x) == q.2.contains(x));
            }
        }
    }
    crate::settings::lemma_key_position(s);
    let pos = crate::settings::setting_position(s);
    lemma_scalar_conflict_reported(rows, SCALAR_SETTING_COUNT as nat, pos, s);
    let c = (s.spec_file_key(),
        if rustfmt_all_legal(s, sel) { "scalar-disagree"@ } else { "scalar-operation-unsupported"@ },
        rustfmt_contributors(sel));
    let sc = expected_scalar_conflicts(rows, SCALAR_SETTING_COUNT as nat);
    let m = choose|m: int| 0 <= m < sc.len() && sc[m] == c;
    assert forall|xr: ResolvedRustfmtTomlRequirements, o: Seq<Option<Seq<bool>>>| rustfmt_resolution(xr, reqs, o)
        implies #[trigger] rustfmt_conflicts(xr, reqs, o).contains(c) by {
        let all = rustfmt_conflicts(xr, reqs, o);
        assert(all[m] == sc[m]);
    }
    match r {
        Ok(xr) => {
            let o = choose|o: Seq<Option<Seq<bool>>>| #[trigger] rustfmt_resolution(xr, reqs, o) && rustfmt_conflicts(xr, reqs, o).len() == 0;
            assert(rustfmt_conflicts(xr, reqs, o).contains(c));
        },
        Err(cs) => {
            let (xr, o) = choose|xr: ResolvedRustfmtTomlRequirements, o: Seq<Option<Seq<bool>>>|
                rustfmt_resolution(xr, reqs, o) && conflict_views(cs@) == rustfmt_conflicts(xr, reqs, o);
            assert(rustfmt_conflicts(xr, reqs, o).contains(c));
        },
    }
}

} // verus!
