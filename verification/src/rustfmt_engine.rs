//! Applying merged `rustfmt.toml` requirements to a document, group after
//! group, and the engine that reads, reconciles and renders the file.

use vstd::prelude::*;
use toml_edit::DocumentMut;
use vstd::utf8::encode_utf8;
use crate::findings::{EngineOutput, Finding, FindingView, finding_view, finding_views};
use crate::lists::ResolvedListRequirements;
use crate::rustfmt_merge::{ResolvedRustfmtScalar, ResolvedRustfmtTomlRequirements};
use crate::rustfmt_reconcile::{
    allowed_keys, apply_closed, apply_forbidden_ignore_path_globs, apply_list, apply_scalar, closed_findings,
    first_message, forbidden_globs_plan, keys_removed, list_doc, list_plan, policies_of, read_root, remove_all_in,
    root_item, rows_fit, scalar_applied, scalar_attribution, scalar_attribution_for, scalar_finding, settled,
    with_finding,
};
use crate::settings::{RustfmtListSetting, RustfmtScalarSetting};
use crate::toml_doc::{toml_keys, toml_text};
use crate::toml_io::{document_bytes, is_empty_document, parse_error_view, read_as, read_document, read_error};

verus! {

/// The identity under which this engine's requirements are routed.
pub const ENGINE_ID: &'static str = "aqc-rustfmt-toml-engine";

/// The root key of the `i`-th scalar setting.
pub open spec fn scalar_key(ss: Seq<(RustfmtScalarSetting, ResolvedRustfmtScalar)>, i: int) -> Seq<char> {
    ss[i].0.spec_file_key()
}

/// The finding of the `i`-th scalar setting, read from the document `d` it
/// is applied to: attributed to the policies whose assertion `d` breaks.
pub open spec fn scalar_step_finding(d: DocumentMut, ss: Seq<(RustfmtScalarSetting, ResolvedRustfmtScalar)>, i: int) -> Option<FindingView> {
    let key = scalar_key(ss, i);
    let current = root_item(d, key);
    scalar_finding(key, current, ss[i].1.merged@, scalar_attribution(current, ss[i].1.collected@))
}

/// The findings of the first `n` scalar settings applied in turn, the `i`-th
/// to the document `ds[i]`.
pub open spec fn scalar_steps_findings(ds: Seq<DocumentMut>, ss: Seq<(RustfmtScalarSetting, ResolvedRustfmtScalar)>, n: nat) -> Seq<FindingView>
    decreases n,
{
    if n == 0 {
        seq![]
    } else {
        with_finding(scalar_steps_findings(ds, ss, (n - 1) as nat), scalar_step_finding(ds[n - 1], ss, n - 1))
    }
}

/// `ds` runs through the documents of applying the scalar settings in
/// order: each next document is what the setting leaves of the one before.
pub open spec fn scalar_steps(ds: Seq<DocumentMut>, ss: Seq<(RustfmtScalarSetting, ResolvedRustfmtScalar)>) -> bool {
    &&& ds.len() == ss.len() + 1
    &&& forall|i: int| 0 <= i < ss.len() ==> #[trigger] scalar_applied(ds[i], ds[i + 1], scalar_key(ss, i), ss[i].1.merged@)
}

/// Applies every merged scalar setting in order, each to the document the
/// ones before it left, each attributed by what it finds there.
pub fn apply_scalars(doc: &mut DocumentMut, settings: &Vec<(RustfmtScalarSetting, ResolvedRustfmtScalar)>, findings: &mut Vec<Finding>)
    ensures
        exists|ds: Seq<DocumentMut>| {
            &&& #[trigger] scalar_steps(ds, settings@)
            &&& ds[0] == *old(doc)
            &&& ds.last() == *final(doc)
            &&& finding_views(final(findings)@) == finding_views(old(findings)@) + scalar_steps_findings(ds, settings@, settings@.len())
        },
{
    let ghost f0 = finding_views(findings@);
    let ghost mut ds: Seq<DocumentMut> = seq![*doc];
    let mut i: usize = 0;
    assert(finding_views(findings@) =~= f0 + scalar_steps_findings(ds, settings@, 0));
    while i < settings.len()
        invariant
            i <= settings.len(),
            ds.len() == i + 1,
            ds[0] == *old(doc),
            ds.last() == *doc,
            forall|j: int| 0 <= j < i ==> #[trigger] scalar_applied(ds[j], ds[j + 1], scalar_key(settings@, j), settings@[j].1.merged@),
            finding_views(findings@) == f0 + scalar_steps_findings(ds, settings@, i as nat),
        decreases settings.len() - i,
    {
        let ghost before = *doc;
        let key = settings[i].0.file_key();
        let current = read_root(doc, key);
        let attribution = scalar_attribution_for(&current, &settings[i].1);
        apply_scalar(doc, key, &settings[i].1.merged, &attribution, findings);
        proof {
            let prev = ds;
            ds = ds.push(*doc);
            assert(ds[i as int] == before);
            assert forall|j: int| 0 <= j <= i implies #[trigger] scalar_applied(ds[j], ds[j + 1], scalar_key(settings@, j), settings@[j].1.merged@) by {
                if j < i {
                    assert(ds[j] == prev[j] && ds[j + 1] == prev[j + 1]);
                }
            }
            lemma_scalar_findings_prefix(prev, ds, settings@, i as nat);
            assert(scalar_steps_findings(ds, settings@, (i + 1) as nat) == with_finding(
                scalar_steps_findings(ds, settings@, i as nat), scalar_step_finding(before, settings@, i as int)));
            assert(f0 + scalar_steps_findings(ds, settings@, (i + 1) as nat) =~= finding_views(findings@));
        }
        i = i + 1;
    }
    proof {
        assert(scalar_steps(ds, settings@));
    }
}

proof fn lemma_scalar_findings_prefix(a: Seq<DocumentMut>, b: Seq<DocumentMut>, ss: Seq<(RustfmtScalarSetting, ResolvedRustfmtScalar)>, n: nat)
    requires
        n <= a.len(),
        a.len() <= b.len(),
        forall|j: int| 0 <= j < a.len() ==> a[j] == b[j],
    ensures
        scalar_steps_findings(a, ss, n) == scalar_steps_findings(b, ss, n),
    decreases n,
{
    if n > 0 {
        lemma_scalar_findings_prefix(a, b, ss, (n - 1) as nat);
        assert(a[n - 1] == b[n - 1]);
    }
}

/// The root key of the `i`-th list setting.
pub open spec fn list_key(ls: Seq<(RustfmtListSetting, ResolvedListRequirements)>, i: int) -> Seq<char> {
    ls[i].0.spec_file_key()
}

/// The findings of the first `n` list settings applied in turn, the `i`-th
/// to the document `ds[i]`.
pub open spec fn list_steps_findings(ds: Seq<DocumentMut>, ls: Seq<(RustfmtListSetting, ResolvedListRequirements)>, n: nat) -> Seq<FindingView>
    decreases n,
{
    if n == 0 {
        seq![]
    } else {
        let i = n - 1;
        list_steps_findings(ds, ls, (n - 1) as nat) + list_plan(list_key(ls, i), root_item(ds[i], list_key(ls, i)), ls[i].1).1
    }
}

/// `ds` runs through the documents of applying the list settings in order.
pub open spec fn list_steps(ds: Seq<DocumentMut>, ls: Seq<(RustfmtListSetting, ResolvedListRequirements)>) -> bool {
    &&& ds.len() == ls.len() + 1
    &&& forall|i: int| 0 <= i < ls.len() ==> #[trigger] list_doc(ds[i], ds[i + 1], list_key(ls, i),
        list_plan(list_key(ls, i), root_item(ds[i], list_key(ls, i)), ls[i].1).0)
}

proof fn lemma_list_findings_prefix(a: Seq<DocumentMut>, b: Seq<DocumentMut>, ls: Seq<(RustfmtListSetting, ResolvedListRequirements)>, n: nat)
    requires
        n <= a.len(),
        a.len() <= b.len(),
        forall|j: int| 0 <= j < a.len() ==> a[j] == b[j],
    ensures
        list_steps_findings(a, ls, n) == list_steps_findings(b, ls, n),
    decreases n,
{
    if n > 0 {
        lemma_list_findings_prefix(a, b, ls, (n - 1) as nat);
        assert(a[n - 1] == b[n - 1]);
    }
}

/// Applies every merged list setting in order, each to the document the
/// ones before it left.
pub fn apply_lists(doc: &mut DocumentMut, settings: &Vec<(RustfmtListSetting, ResolvedListRequirements)>, findings: &mut Vec<Finding>)
    ensures
        exists|ds: Seq<DocumentMut>| {
            &&& #[trigger] list_steps(ds, settings@)
            &&& ds[0] == *old(doc)
            &&& ds.last() == *final(doc)
            &&& finding_views(final(findings)@) == finding_views(old(findings)@) + list_steps_findings(ds, settings@, settings@.len())
        },
{
    let ghost f0 = finding_views(findings@);
    let ghost mut ds: Seq<DocumentMut> = seq![*doc];
    let mut i: usize = 0;
    assert(finding_views(findings@) =~= f0 + list_steps_findings(ds, settings@, 0));
    while i < settings.len()
        invariant
            i <= settings.len(),
            ds.len() == i + 1,
            ds[0] == *old(doc),
            ds.last() == *doc,
            forall|j: int| 0 <= j < i ==> #[trigger] list_doc(ds[j], ds[j + 1], list_key(settings@, j),
                list_plan(list_key(settings@, j), root_item(ds[j], list_key(settings@, j)), settings@[j].1).0),
            finding_views(findings@) == f0 + list_steps_findings(ds, settings@, i as nat),
        decreases settings.len() - i,
    {
        let ghost before = *doc;
        let ghost fb = finding_views(findings@);
        let key = settings[i].0.file_key();
        apply_list(doc, key, &settings[i].1, findings);
        proof {
            let prev = ds;
            ds = ds.push(*doc);
            assert(ds[i as int] == before);
            assert forall|j: int| 0 <= j <= i implies #[trigger] list_doc(ds[j], ds[j + 1], list_key(settings@, j),
                list_plan(list_key(settings@, j), root_item(ds[j], list_key(settings@, j)), settings@[j].1).0) by {
                if j < i {
                    assert(ds[j] == prev[j] && ds[j + 1] == prev[j + 1]);
                }
            }
            lemma_list_findings_prefix(prev, ds, settings@, i as nat);
            assert(f0 + list_steps_findings(ds, settings@, (i + 1) as nat) =~= finding_views(findings@));
        }
        i = i + 1;
    }
    proof {
        assert(list_steps(ds, settings@));
    }
}

/// What closing the file does to `d`, and the findings it adds.
pub open spec fn closed_outcome(d: DocumentMut, new: DocumentMut, r: ResolvedRustfmtTomlRequirements, fs: Seq<FindingView>) -> bool {
    if r.closed_settings@.len() == 0 {
        new == d && fs == Seq::<FindingView>::empty()
    } else {
        let extras = remove_all_in(toml_keys(d, seq![])->0, allowed_keys(r));
        &&& keys_removed(d, new, extras)
        &&& fs == closed_findings(d, extras, first_message(r.closed_settings@), policies_of(r.closed_settings@))
    }
}

/// What the forbidden `ignore` globs do to `d`, and the findings they add,
/// for the matches `rows` that globset gave.
pub open spec fn globs_outcome(d: DocumentMut, new: DocumentMut, r: ResolvedRustfmtTomlRequirements, fs: Seq<FindingView>) -> bool {
    let gs = r.forbidden_ignore_path_globs.globs@;
    if gs.len() == 0 {
        new == d && fs == Seq::<FindingView>::empty()
    } else {
        exists|rows: Seq<Seq<bool>>| {
            let plan = forbidden_globs_plan(root_item(d, "ignore"@), gs, rows);
            &&& #[trigger] rows_fit(settled(root_item(d, "ignore"@)), gs, rows)
            &&& list_doc(d, new, "ignore"@, plan.0)
            &&& fs == plan.1
        }
    }
}

/// What applying every group of merged requirements `r` to `d0` leaves: the
/// scalar settings, the list settings, the forbidden `ignore` globs, then
/// closing the file, each group on the document the ones before it left;
/// `f1` is `f0` with the groups' findings added in that order.
pub open spec fn rustfmt_applied(d0: DocumentMut, d1: DocumentMut, r: ResolvedRustfmtTomlRequirements, f0: Seq<FindingView>, f1: Seq<FindingView>) -> bool {
    exists|s: Seq<DocumentMut>, l: Seq<DocumentMut>, g: DocumentMut, fg: Seq<FindingView>, fc: Seq<FindingView>| {
        &&& #[trigger] scalar_steps(s, r.scalar_settings@)
        &&& #[trigger] list_steps(l, r.list_settings@)
        &&& s[0] == d0
        &&& l[0] == s.last()
        &&& #[trigger] globs_outcome(l.last(), g, r, fg)
        &&& #[trigger] closed_outcome(g, d1, r, fc)
        &&& f1 == f0 + scalar_steps_findings(s, r.scalar_settings@, r.scalar_settings@.len())
            + list_steps_findings(l, r.list_settings@, r.list_settings@.len()) + fg + fc
    }
}

/// Applies every group of merged `rustfmt.toml` requirements in turn:
/// scalar settings, list settings, forbidden `ignore` globs, then closing
/// the file.
pub fn apply(doc: &mut DocumentMut, requirement: &ResolvedRustfmtTomlRequirements, findings: &mut Vec<Finding>)
    ensures
        rustfmt_applied(*old(doc), *final(doc), *requirement, finding_views(old(findings)@), finding_views(final(findings)@)),
{
    let ghost d0 = *doc;
    let ghost f0 = finding_views(findings@);
    apply_scalars(doc, &requirement.scalar_settings, findings);
    let ghost f1 = finding_views(findings@);
    let ghost d1 = *doc;
    apply_lists(doc, &requirement.list_settings, findings);
    let ghost f2 = finding_views(findings@);
    let ghost d2 = *doc;
    apply_forbidden_ignore_path_globs(doc, &requirement.forbidden_ignore_path_globs.globs, findings);
    let ghost f3 = finding_views(findings@);
    let ghost d3 = *doc;
    let ghost fg = f3.subrange(f2.len() as int, f3.len() as int);
    proof {
        reveal_strlit("ignore");
        let gs = requirement.forbidden_ignore_path_globs.globs@;
        if gs.len() == 0 {
            assert(fg =~= Seq::<FindingView>::empty());
        } else {
            let rows = choose|rows: Seq<Seq<bool>>| {
                let plan = forbidden_globs_plan(root_item(d2, "ignore"@), gs, rows);
                &&& #[trigger] rows_fit(settled(root_item(d2, "ignore"@)), gs, rows)
                &&& list_doc(d2, d3, "ignore"@, plan.0)
                &&& f3 == f2 + plan.1
            };
            let plan = forbidden_globs_plan(root_item(d2, "ignore"@), gs, rows);
            assert(fg =~= plan.1);
            assert(rows_fit(settled(root_item(d2, "ignore"@)), gs, rows));
        }
        assert(f3 =~= f2 + fg);
        assert(globs_outcome(d2, d3, *requirement, fg));
    }
    apply_closed(doc, requirement, findings);
    proof {
        let f4 = finding_views(findings@);
        let fc = f4.subrange(f3.len() as int, f4.len() as int);
        if requirement.closed_settings@.len() == 0 {
            assert(fc =~= Seq::<FindingView>::empty());
        } else {
            let extras = remove_all_in(toml_keys(d3, seq![])->0, allowed_keys(*requirement));
            assert(fc =~= closed_findings(d3, extras, first_message(requirement.closed_settings@),
                policies_of(requirement.closed_settings@)));
        }
        assert(f4 =~= f3 + fc);
        assert(closed_outcome(d3, *doc, *requirement, fc));
        let ss = requirement.scalar_settings@;
        let ls = requirement.list_settings@;
        let s = choose|ds: Seq<DocumentMut>| {
            &&& #[trigger] scalar_steps(ds, ss)
            &&& ds[0] == d0
            &&& ds.last() == d1
            &&& f1 == f0 + scalar_steps_findings(ds, ss, ss.len())
        };
        let l = choose|ds: Seq<DocumentMut>| {
            &&& #[trigger] list_steps(ds, ls)
            &&& ds[0] == d1
            &&& ds.last() == d2
            &&& f2 == f1 + list_steps_findings(ds, ls, ls.len())
        };
        assert(scalar_steps(s, ss));
        assert(list_steps(l, ls));
        assert(f4 =~= f0 + scalar_steps_findings(s, ss, ss.len()) + list_steps_findings(l, ls, ls.len()) + fg + fc);
        assert(globs_outcome(l.last(), d3, *requirement, fg));
        assert(closed_outcome(d3, *doc, *requirement, fc));
    }
}

/// What reconciling the document `d0` with `r` produces: the bytes of the
/// document that applying `r` leaves, and the findings of applying it.
pub open spec fn rustfmt_reconciled(d0: DocumentMut, r: ResolvedRustfmtTomlRequirements, out: EngineOutput) -> bool {
    exists|d: DocumentMut| {
        &&& #[trigger] rustfmt_applied(d0, d, r, seq![], finding_views(out.findings@))
        &&& out.expected_bytes@ == encode_utf8(toml_text(d))
    }
}

/// Reconciles a document with merged requirements.
pub fn reconcile_document(doc: DocumentMut, requirement: &ResolvedRustfmtTomlRequirements) -> (out: EngineOutput)
    ensures
        rustfmt_reconciled(doc, *requirement, out),
{
    let mut doc = doc;
    let ghost d0 = doc;
    let mut findings: Vec<Finding> = Vec::new();
    assert(finding_views(findings@) =~= Seq::<FindingView>::empty());
    apply(&mut doc, requirement, &mut findings);
    let expected_bytes = document_bytes(&doc);
    let out = EngineOutput { expected_bytes, findings };
    assert(rustfmt_applied(d0, doc, *requirement, seq![], finding_views(out.findings@)));
    out
}

/// The `rustfmt.toml` engine.
#[derive(Debug, Default)]
pub struct RustfmtTomlEngine;

impl RustfmtTomlEngine {
    /// Reconciles the current bytes of `rustfmt.toml` (none when the file
    /// is missing) with merged requirements. Bytes that cannot be read give
    /// one parse error and no bytes; otherwise the document read is
    /// reconciled.
    pub fn reconcile(current: Option<&[u8]>, requirement: &ResolvedRustfmtTomlRequirements) -> (out: EngineOutput)
        ensures
            current is None ==> exists|d0: DocumentMut| #[trigger] is_empty_document(d0) && rustfmt_reconciled(d0, *requirement, out),
            current matches Some(b) ==> match read_error(b@) {
                Some(e) => out.expected_bytes@ == Seq::<u8>::empty()
                    && finding_views(out.findings@) == seq![parse_error_view("rustfmt.toml"@, e)],
                None => exists|d0: DocumentMut| read_as(b@, d0) && #[trigger] rustfmt_reconciled(d0, *requirement, out),
            },
    {
        match read_document(current, "rustfmt.toml") {
            Ok(doc) => {
                let ghost d0 = doc;
                let out = reconcile_document(doc, requirement);
                assert(rustfmt_reconciled(d0, *requirement, out));
                out
            },
            Err(finding) => {
                let findings = vec![finding];
                assert(finding_views(findings@) =~= seq![finding_view(findings@[0])]);
                EngineOutput { expected_bytes: Vec::new(), findings }
            },
        }
    }
}

} // verus!
