//! Reconciling every array setting of `deny.toml` that holds items, one
//! after another, in the order of the requirement model.

use vstd::prelude::*;
use toml_edit::DocumentMut;
use crate::deny_fields::{field_path, table_display};
use crate::deny_item_apply::{apply_item_field, items_applied};
use crate::deny_items::{DenyAdvisoryIgnoreSpec, DenyBanSpec, DenyBuildGlobSpec, DenyFeatureBanSpec, DenyGraphTargetSpec, DenyLicenseClarification, DenyLicenseException, DenyPackageReasonSpec, DenySkipTreeSpec};
use crate::deny_model::ResolvedDenyTomlRequirements;
use crate::findings::{Finding, FindingView, finding_views};

verus! {

/// The number of item array settings of `deny.toml`.
pub open spec fn item_field_count() -> nat {
    10
}

/// `ds` and `fs` run through the documents and findings of reconciling
/// every item array setting of `r` in turn.
pub open spec fn deny_items_applied(ds: Seq<DocumentMut>, fs: Seq<Seq<FindingView>>, r: ResolvedDenyTomlRequirements) -> bool {
    &&& ds.len() == item_field_count() + 1
    &&& fs.len() == item_field_count() + 1
    &&& items_applied::<DenyGraphTargetSpec>(ds[0], ds[1], fs[0], fs[1], field_path("graph"@, None, "targets"@), table_display("graph"@, None), "graph.targets"@, r.graph_targets.required@)
    &&& items_applied::<DenyAdvisoryIgnoreSpec>(ds[1], ds[2], fs[1], fs[2], field_path("advisories"@, None, "ignore"@), table_display("advisories"@, None), "advisories.ignore"@, r.advisories_ignore.required@)
    &&& items_applied::<DenyLicenseException>(ds[2], ds[3], fs[2], fs[3], field_path("licenses"@, None, "exceptions"@), table_display("licenses"@, None), "licenses.exceptions"@, r.licenses_exceptions.required@)
    &&& items_applied::<DenyLicenseClarification>(ds[3], ds[4], fs[3], fs[4], field_path("licenses"@, None, "clarify"@), table_display("licenses"@, None), "licenses.clarify"@, r.licenses_clarify.required@)
    &&& items_applied::<DenyPackageReasonSpec>(ds[4], ds[5], fs[4], fs[5], field_path("bans"@, None, "allow"@), table_display("bans"@, None), "bans.allow"@, r.bans_allow.required@)
    &&& items_applied::<DenyBanSpec>(ds[5], ds[6], fs[5], fs[6], field_path("bans"@, None, "deny"@), table_display("bans"@, None), "bans.deny"@, r.bans_deny.required@)
    &&& items_applied::<DenyFeatureBanSpec>(ds[6], ds[7], fs[6], fs[7], field_path("bans"@, None, "features"@), table_display("bans"@, None), "bans.features"@, r.bans_features.required@)
    &&& items_applied::<DenyPackageReasonSpec>(ds[7], ds[8], fs[7], fs[8], field_path("bans"@, None, "skip"@), table_display("bans"@, None), "bans.skip"@, r.bans_skip.required@)
    &&& items_applied::<DenySkipTreeSpec>(ds[8], ds[9], fs[8], fs[9], field_path("bans"@, None, "skip-tree"@), table_display("bans"@, None), "bans.skip-tree"@, r.bans_skip_tree.required@)
    &&& items_applied::<DenyBuildGlobSpec>(ds[9], ds[10], fs[9], fs[10], field_path("bans"@, Some("build"@), "globs"@), table_display("bans"@, Some("build"@)), "bans.build.globs"@, r.bans_build_globs.required@)
}

/// Reconciles every item array setting, in the order of the requirement
/// model.
#[verifier::rlimit(100)]
#[verifier::spinoff_prover]
pub fn apply_items(doc: &mut DocumentMut, requirement: &ResolvedDenyTomlRequirements, findings: &mut Vec<Finding>)
    ensures
        exists|ds: Seq<DocumentMut>, fs: Seq<Seq<FindingView>>| {
            &&& #[trigger] deny_items_applied(ds, fs, *requirement)
            &&& ds[0] == *old(doc)
            &&& fs[0] == finding_views(old(findings)@)
            &&& ds.last() == *final(doc)
            &&& fs.last() == finding_views(final(findings)@)
        },
{
    let ghost d0 = *doc;
    let ghost seen0 = finding_views(findings@);
    apply_item_field(doc, "graph", None, "targets", "graph.targets", &requirement.graph_targets, findings);
    let ghost d1 = *doc;
    let ghost seen1 = finding_views(findings@);
    apply_item_field(doc, "advisories", None, "ignore", "advisories.ignore", &requirement.advisories_ignore, findings);
    let ghost d2 = *doc;
    let ghost seen2 = finding_views(findings@);
    apply_item_field(doc, "licenses", None, "exceptions", "licenses.exceptions", &requirement.licenses_exceptions, findings);
    let ghost d3 = *doc;
    let ghost seen3 = finding_views(findings@);
    apply_item_field(doc, "licenses", None, "clarify", "licenses.clarify", &requirement.licenses_clarify, findings);
    let ghost d4 = *doc;
    let ghost seen4 = finding_views(findings@);
    apply_item_field(doc, "bans", None, "allow", "bans.allow", &requirement.bans_allow, findings);
    let ghost d5 = *doc;
    let ghost seen5 = finding_views(findings@);
    apply_item_field(doc, "bans", None, "deny", "bans.deny", &requirement.bans_deny, findings);
    let ghost d6 = *doc;
    let ghost seen6 = finding_views(findings@);
    apply_item_field(doc, "bans", None, "features", "bans.features", &requirement.bans_features, findings);
    let ghost d7 = *doc;
    let ghost seen7 = finding_views(findings@);
    apply_item_field(doc, "bans", None, "skip", "bans.skip", &requirement.bans_skip, findings);
    let ghost d8 = *doc;
    let ghost seen8 = finding_views(findings@);
    apply_item_field(doc, "bans", None, "skip-tree", "bans.skip-tree", &requirement.bans_skip_tree, findings);
    let ghost d9 = *doc;
    let ghost seen9 = finding_views(findings@);
    apply_item_field(doc, "bans", Some("build"), "globs", "bans.build.globs", &requirement.bans_build_globs, findings);
    let ghost d10 = *doc;
    let ghost seen10 = finding_views(findings@);
    proof {
        let ds = seq![d0, d1, d2, d3, d4, d5, d6, d7, d8, d9, d10];
        let fs = seq![seen0, seen1, seen2, seen3, seen4, seen5, seen6, seen7, seen8, seen9, seen10];
        assert(deny_items_applied(ds, fs, *requirement));
    }
}

} // verus!
