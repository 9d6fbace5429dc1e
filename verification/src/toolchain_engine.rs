//! Applying merged `rust-toolchain.toml` requirements to a document, and
//! the engine that reads, reconciles and renders the file.

use vstd::prelude::*;
use vstd::utf8::encode_utf8;
use toml_edit::DocumentMut;
use crate::findings::{EngineOutput, Finding, FindingView, finding_view, finding_views, policies};
use crate::requirements::ScalarAssertion;
use crate::scalar_value::ScalarValue;
use crate::toml_doc::{item_at_root, toml_at, toml_keys, toml_text};
use crate::toml_io::{document_bytes, is_empty_document, parse_error_view, read_as, read_document, read_error};
use crate::toolchain_checks::{combination_findings, has_path_value, report_invalid_requirement_combinations, spec_has_path_value};
use crate::toolchain_close::{apply_closed, empty_table_finding, report_empty_table, tc_closed};
use crate::toolchain_fields::{apply_string_scalar, read_tc, tc_attribution, tc_attribution_for, tc_item, tc_scalar_applied};
use crate::toolchain_values::surely_relative;
use crate::toolchain_file::{file_conflicts_resolved, file_field_findings, report_existing_file_conflicts, report_invalid_file_fields};
use crate::toolchain_lists::{apply_list, tc_list_applied};
use crate::toolchain_model::{ResolvedRustToolchainTomlRequirements, ResolvedToolchainScalar};
use crate::toolchain_table::{
    absent_table_ok, ensure_toolchain_table, has_channel_based, has_tc_table, requirement_policies, spec_absent_table_ok,
    spec_has_channel_based, tc_table_ensured,
};

verus! {

/// The identity under which this engine's requirements are routed.
pub const ENGINE_ID: &'static str = "aqc-rust-toolchain-toml-engine";

/// What applying an optional merged scalar requirement to `toolchain.key`
/// leaves; its mismatch is attributed to the policies whose assertion the
/// current item fails.
pub open spec fn tc_opt_scalar_applied<T: ScalarValue>(
    old: DocumentMut,
    new: DocumentMut,
    f0: Seq<FindingView>,
    f1: Seq<FindingView>,
    key: Seq<char>,
    r: ResolvedToolchainScalar<T>,
) -> bool {
    match r {
        None => new == old && f1 == f0,
        Some(x) => tc_scalar_applied(old, new, f0, f1, key, x.merged, tc_attribution(tc_item(old, key), x.collected@)),
    }
}

/// The findings of an empty `[toolchain]` table, if it is empty.
pub open spec fn empty_findings(d: DocumentMut) -> Seq<FindingView> {
    if toml_keys(d, seq!["toolchain"@]) == Some(Seq::<Seq<char>>::empty()) { seq![empty_table_finding()] } else { seq![] }
}

/// Whether a required path clashes with channel-based fields required to
/// be there, so that only the path is applied.
pub open spec fn spec_path_only(r: ResolvedRustToolchainTomlRequirements) -> bool {
    spec_has_path_value(r) && spec_has_channel_based(r)
}

/// What applying merged requirements `r` to `d0` leaves, through the
/// documents `d` and findings `f` of each step: the clashing requirements
/// reported; `[toolchain]` made a table; its fields checked; a clashing
/// path removed; the path applied; then, when the path clashes with
/// channel-based fields, the table closed and reported if empty; otherwise
/// channel, profile, components and targets applied before closing and the
/// empty check.
pub open spec fn toolchain_steps(d: Seq<DocumentMut>, f: Seq<Seq<FindingView>>, relative: bool, r: ResolvedRustToolchainTomlRequirements) -> bool {
    &&& d.len() == 9 && f.len() == 11
    &&& f[1] == f[0] + combination_findings(r)
    &&& tc_table_ensured(d[0], d[1], f[1], f[2], r)
    &&& f[3] == f[2] + file_field_findings(d[1], requirement_policies(r), relative)
    &&& relative ==> (tc_item(d[1], "path"@) matches Some(v) && v.0 == 0 && v.1.len() > 0)
    &&& (tc_item(d[1], "path"@) matches Some(v) && v.0 == 0 && v.1.len() > 0 && surely_relative(v.1)) ==> relative
    &&& file_conflicts_resolved(d[1], d[2], f[3], f[4], r)
    &&& tc_opt_scalar_applied(d[2], d[3], f[4], f[5], "path"@, r.path)
    &&& if spec_path_only(r) {
        &&& tc_closed(d[3], d[4], f[5], f[6], r)
        &&& f[10] == f[6] + empty_findings(d[4])
        &&& d[8] == d[4]
    } else {
        &&& tc_opt_scalar_applied(d[3], d[4], f[5], f[6], "channel"@, r.channel)
        &&& tc_opt_scalar_applied(d[4], d[5], f[6], f[7], "profile"@, r.profile)
        &&& tc_list_applied(d[5], d[6], f[7], f[8], "components"@, r.components)
        &&& tc_list_applied(d[6], d[7], f[8], f[9], "targets"@, r.targets)
        &&& tc_closed(d[7], d[8], f[9], f[10], r)
    }
}

/// What applying `r` to `d0` leaves: a missing `[toolchain]` table that
/// every requirement is met without stays missing, with only the clashing
/// requirements reported; otherwise the last document and findings of some
/// run of the steps from `d0` and `f0`.
pub open spec fn toolchain_applied(d0: DocumentMut, d1: DocumentMut, r: ResolvedRustToolchainTomlRequirements, f0: Seq<FindingView>, f1: Seq<FindingView>) -> bool {
    if toml_at(d0, seq!["toolchain"@]) is None && spec_absent_table_ok(r) {
        d1 == d0 && f1 == f0 + combination_findings(r)
    } else {
        exists|d: Seq<DocumentMut>, f: Seq<Seq<FindingView>>, relative: bool| {
            &&& #[trigger] toolchain_steps(d, f, relative, r)
            &&& d[0] == d0 && f[0] == f0
            &&& d[8] == d1
            &&& f1 == if spec_path_only(r) { f[10] } else { f[10] + empty_findings(d[8]) }
        }
    }
}

fn apply_opt_scalar<T: ScalarValue>(doc: &mut DocumentMut, key: &str, r: &ResolvedToolchainScalar<T>, findings: &mut Vec<Finding>)
    requires
        has_tc_table(*old(doc)),
    ensures
        tc_opt_scalar_applied(*old(doc), *final(doc), finding_views(old(findings)@), finding_views(final(findings)@), key@, *r),
        has_tc_table(*final(doc)),
{
    match r {
        Some(x) => {
            let current = read_tc(doc, key);
            let attribution = tc_attribution_for(&current, &x.collected);
            apply_string_scalar(doc, key, &x.merged, &attribution, findings);
            proof {
                assert(seq!["toolchain"@, key@].subrange(0, 1) =~= seq!["toolchain"@]);
            }
        },
        None => {},
    }
}

/// Applies merged `rust-toolchain.toml` requirements to a document.
#[verifier::rlimit(50)]
pub fn apply(doc: &mut DocumentMut, requirement: &ResolvedRustToolchainTomlRequirements, findings: &mut Vec<Finding>)
    ensures
        toolchain_applied(*old(doc), *final(doc), *requirement, finding_views(old(findings)@), finding_views(final(findings)@)),
{
    let ghost d0 = *doc;
    let ghost g0 = finding_views(findings@);
    report_invalid_requirement_combinations(requirement, findings);
    let ghost g1 = finding_views(findings@);
    let missing = item_at_root(doc, "toolchain").is_none();
    proof {
        reveal_strlit("toolchain");
    }
    if missing && absent_table_ok(requirement) {
        return;
    }
    ensure_toolchain_table(doc, requirement, findings);
    let ghost d1 = *doc;
    let ghost g2 = finding_views(findings@);
    report_invalid_file_fields(doc, requirement, findings);
    let ghost g3 = finding_views(findings@);
    let ghost relative = choose|relative: bool| {
        &&& g3 == g2 + #[trigger] file_field_findings(d1, requirement_policies(*requirement), relative)
        &&& relative ==> (tc_item(d1, "path"@) matches Some(v) && v.0 == 0 && v.1.len() > 0)
        &&& (tc_item(d1, "path"@) matches Some(v) && v.0 == 0 && v.1.len() > 0 && surely_relative(v.1)) ==> relative
    };
    report_existing_file_conflicts(doc, requirement, findings);
    let ghost d2 = *doc;
    let ghost g4 = finding_views(findings@);
    proof {
        assert(seq!["toolchain"@, "path"@].subrange(0, 1) =~= seq!["toolchain"@]);
        assert(has_tc_table(d2));
    }
    apply_opt_scalar(doc, "path", &requirement.path, findings);
    let ghost d3 = *doc;
    let ghost g5 = finding_views(findings@);
    if has_path_value(requirement) && has_channel_based(requirement) {
        apply_closed(doc, requirement, findings);
        let ghost d4 = *doc;
        let ghost g6 = finding_views(findings@);
        report_empty_table(doc, findings);
        proof {
            let d = seq![d0, d1, d2, d3, d4, d4, d4, d4, d4];
            let f = seq![g0, g1, g2, g3, g4, g5, g6, g6, g6, g6, g6.add(empty_findings(d4))];
            assert(finding_views(findings@) =~= g6 + empty_findings(d4));
            assert(toolchain_steps(d, f, relative, *requirement));
        }
        return;
    }
    apply_opt_scalar(doc, "channel", &requirement.channel, findings);
    let ghost d4 = *doc;
    let ghost g6 = finding_views(findings@);
    apply_opt_scalar(doc, "profile", &requirement.profile, findings);
    let ghost d5 = *doc;
    let ghost g7 = finding_views(findings@);
    apply_list(doc, "components", &requirement.components, findings);
    let ghost d6 = *doc;
    let ghost g8 = finding_views(findings@);
    proof {
        assert(seq!["toolchain"@, "components"@].subrange(0, 1) =~= seq!["toolchain"@]);
        assert(has_tc_table(d6));
    }
    apply_list(doc, "targets", &requirement.targets, findings);
    let ghost d7 = *doc;
    let ghost g9 = finding_views(findings@);
    proof {
        assert(seq!["toolchain"@, "targets"@].subrange(0, 1) =~= seq!["toolchain"@]);
        assert(has_tc_table(d7));
    }
    apply_closed(doc, requirement, findings);
    let ghost d8 = *doc;
    let ghost g10 = finding_views(findings@);
    report_empty_table(doc, findings);
    proof {
        let d = seq![d0, d1, d2, d3, d4, d5, d6, d7, d8];
        let f = seq![g0, g1, g2, g3, g4, g5, g6, g7, g8, g9, g10];
        assert(finding_views(findings@) =~= g10 + empty_findings(d8));
        assert(toolchain_steps(d, f, relative, *requirement));
    }
}

/// What reconciling the document `d0` with `r` produces: the bytes of the
/// document that applying `r` leaves, and the findings of applying it.
pub open spec fn toolchain_reconciled(d0: DocumentMut, r: ResolvedRustToolchainTomlRequirements, out: EngineOutput) -> bool {
    exists|d: DocumentMut| {
        &&& #[trigger] toolchain_applied(d0, d, r, seq![], finding_views(out.findings@))
        &&& out.expected_bytes@ == encode_utf8(toml_text(d))
    }
}

/// The `rust-toolchain.toml` engine.
#[derive(Debug, Default)]
pub struct RustToolchainTomlEngine;

impl RustToolchainTomlEngine {
    /// Reconciles the current bytes of `rust-toolchain.toml` (none when the
    /// file is missing) with merged requirements. Bytes that cannot be read
    /// give one parse error and no bytes; otherwise the document read is
    /// reconciled.
    pub fn reconcile(current: Option<&[u8]>, requirement: &ResolvedRustToolchainTomlRequirements) -> (out: EngineOutput)
        ensures
            current is None ==> exists|d0: DocumentMut| #[trigger] is_empty_document(d0) && toolchain_reconciled(d0, *requirement, out),
            current matches Some(b) ==> match read_error(b@) {
                Some(e) => out.expected_bytes@ == Seq::<u8>::empty()
                    && finding_views(out.findings@) == seq![parse_error_view("rust-toolchain.toml"@, e)],
                None => exists|d0: DocumentMut| read_as(b@, d0) && #[trigger] toolchain_reconciled(d0, *requirement, out),
            },
    {
        match read_document(current, "rust-toolchain.toml") {
            Ok(doc) => {
                let mut doc = doc;
                let ghost d0 = doc;
                let mut findings: Vec<Finding> = Vec::new();
                assert(finding_views(findings@) =~= Seq::<FindingView>::empty());
                apply(&mut doc, requirement, &mut findings);
                let expected_bytes = document_bytes(&doc);
                let out = EngineOutput { expected_bytes, findings };
                assert(toolchain_applied(d0, doc, *requirement, seq![], finding_views(out.findings@)));
                assert(toolchain_reconciled(d0, *requirement, out));
                out
            },
            Err(finding) => {
                let findings = vec![finding];
                assert(finding_views(findings@) =~= seq![finding_view(findings@[0])]);
                EngineOutput { expected_bytes: Vec::new(), findings }
            },
        }
    }
}

} // verus!
