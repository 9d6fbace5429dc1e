//! Applying every merged list requirement of `deny.toml` to its field,
//! one after another, in the order of the requirement model.

use vstd::prelude::*;
use toml_edit::DocumentMut;
use crate::deny_fields::{field_path, table_display};
use crate::deny_lists::{apply_list, deny_list_applied};
use crate::deny_model::ResolvedDenyTomlRequirements;
use crate::findings::{Finding, FindingView, finding_views};

verus! {

/// The number of string list fields of `deny.toml`.
pub open spec fn list_field_count() -> nat {
    13
}

/// `ds` and `fs` run through the documents and findings of applying every
/// list requirement of `r` in turn, field by field.
pub open spec fn deny_lists_applied(ds: Seq<DocumentMut>, fs: Seq<Seq<FindingView>>, r: ResolvedDenyTomlRequirements) -> bool {
    &&& ds.len() == list_field_count() + 1
    &&& fs.len() == list_field_count() + 1
    &&& deny_list_applied(ds[0], ds[1], fs[0], fs[1], field_path("graph"@, None, "exclude"@), table_display("graph"@, None), "graph.exclude"@, r.graph_exclude)
    &&& deny_list_applied(ds[1], ds[2], fs[1], fs[2], field_path("graph"@, None, "features"@), table_display("graph"@, None), "graph.features"@, r.graph_features)
    &&& deny_list_applied(ds[2], ds[3], fs[2], fs[3], field_path("advisories"@, None, "db-urls"@), table_display("advisories"@, None), "advisories.db-urls"@, r.advisories_db_urls)
    &&& deny_list_applied(ds[3], ds[4], fs[3], fs[4], field_path("licenses"@, None, "allow"@), table_display("licenses"@, None), "licenses.allow"@, r.licenses_allow)
    &&& deny_list_applied(ds[4], ds[5], fs[4], fs[5], field_path("licenses"@, Some("private"@), "registries"@), table_display("licenses"@, Some("private"@)), "licenses.private.registries"@, r.licenses_private_registries)
    &&& deny_list_applied(ds[5], ds[6], fs[5], fs[6], field_path("licenses"@, Some("private"@), "ignore-sources"@), table_display("licenses"@, Some("private"@)), "licenses.private.ignore-sources"@, r.licenses_private_ignore_sources)
    &&& deny_list_applied(ds[6], ds[7], fs[6], fs[7], field_path("bans"@, Some("build"@), "script-extensions"@), table_display("bans"@, Some("build"@)), "bans.build.script-extensions"@, r.bans_build_script_extensions)
    &&& deny_list_applied(ds[7], ds[8], fs[7], fs[8], field_path("sources"@, None, "allow-git"@), table_display("sources"@, None), "sources.allow-git"@, r.sources_allow_git)
    &&& deny_list_applied(ds[8], ds[9], fs[8], fs[9], field_path("sources"@, None, "private"@), table_display("sources"@, None), "sources.private"@, r.sources_private)
    &&& deny_list_applied(ds[9], ds[10], fs[9], fs[10], field_path("sources"@, None, "allow-registry"@), table_display("sources"@, None), "sources.allow-registry"@, r.sources_allow_registry)
    &&& deny_list_applied(ds[10], ds[11], fs[10], fs[11], field_path("sources"@, Some("allow-org"@), "github"@), table_display("sources"@, Some("allow-org"@)), "sources.allow-org.github"@, r.sources_allow_org_github)
    &&& deny_list_applied(ds[11], ds[12], fs[11], fs[12], field_path("sources"@, Some("allow-org"@), "gitlab"@), table_display("sources"@, Some("allow-org"@)), "sources.allow-org.gitlab"@, r.sources_allow_org_gitlab)
    &&& deny_list_applied(ds[12], ds[13], fs[12], fs[13], field_path("sources"@, Some("allow-org"@), "bitbucket"@), table_display("sources"@, Some("allow-org"@)), "sources.allow-org.bitbucket"@, r.sources_allow_org_bitbucket)
}

/// Applies every merged list requirement to its field, in the order of the
/// requirement model.
#[verifier::rlimit(100)]
#[verifier::spinoff_prover]
pub fn apply_lists(doc: &mut DocumentMut, requirement: &ResolvedDenyTomlRequirements, findings: &mut Vec<Finding>)
    ensures
        exists|ds: Seq<DocumentMut>, fs: Seq<Seq<FindingView>>| {
            &&& #[trigger] deny_lists_applied(ds, fs, *requirement)
            &&& ds[0] == *old(doc)
            &&& fs[0] == finding_views(old(findings)@)
            &&& ds.last() == *final(doc)
            &&& fs.last() == finding_views(final(findings)@)
        },
{
    let ghost d0 = *doc;
    let ghost seen0 = finding_views(findings@);
    apply_list(doc, "graph", None, "exclude", "graph.exclude", &requirement.graph_exclude, findings);
    let ghost d1 = *doc;
    let ghost seen1 = finding_views(findings@);
    apply_list(doc, "graph", None, "features", "graph.features", &requirement.graph_features, findings);
    let ghost d2 = *doc;
    let ghost seen2 = finding_views(findings@);
    apply_list(doc, "advisories", None, "db-urls", "advisories.db-urls", &requirement.advisories_db_urls, findings);
    let ghost d3 = *doc;
    let ghost seen3 = finding_views(findings@);
    apply_list(doc, "licenses", None, "allow", "licenses.allow", &requirement.licenses_allow, findings);
    let ghost d4 = *doc;
    let ghost seen4 = finding_views(findings@);
    apply_list(doc, "licenses", Some("private"), "registries", "licenses.private.registries", &requirement.licenses_private_registries, findings);
    let ghost d5 = *doc;
    let ghost seen5 = finding_views(findings@);
    apply_list(doc, "licenses", Some("private"), "ignore-sources", "licenses.private.ignore-sources", &requirement.licenses_private_ignore_sources, findings);
    let ghost d6 = *doc;
    let ghost seen6 = finding_views(findings@);
    apply_list(doc, "bans", Some("build"), "script-extensions", "bans.build.script-extensions", &requirement.bans_build_script_extensions, findings);
    let ghost d7 = *doc;
    let ghost seen7 = finding_views(findings@);
    apply_list(doc, "sources", None, "allow-git", "sources.allow-git", &requirement.sources_allow_git, findings);
    let ghost d8 = *doc;
    let ghost seen8 = finding_views(findings@);
    apply_list(doc, "sources", None, "private", "sources.private", &requirement.sources_private, findings);
    let ghost d9 = *doc;
    let ghost seen9 = finding_views(findings@);
    apply_list(doc, "sources", None, "allow-registry", "sources.allow-registry", &requirement.sources_allow_registry, findings);
    let ghost d10 = *doc;
    let ghost seen10 = finding_views(findings@);
    apply_list(doc, "sources", Some("allow-org"), "github", "sources.allow-org.github", &requirement.sources_allow_org_github, findings);
    let ghost d11 = *doc;
    let ghost seen11 = finding_views(findings@);
    apply_list(doc, "sources", Some("allow-org"), "gitlab", "sources.allow-org.gitlab", &requirement.sources_allow_org_gitlab, findings);
    let ghost d12 = *doc;
    let ghost seen12 = finding_views(findings@);
    apply_list(doc, "sources", Some("allow-org"), "bitbucket", "sources.allow-org.bitbucket", &requirement.sources_allow_org_bitbucket, findings);
    let ghost d13 = *doc;
    let ghost seen13 = finding_views(findings@);
    proof {
        let ds = seq![d0, d1, d2, d3, d4, d5, d6, d7, d8, d9, d10, d11, d12, d13];
        let fs = seq![seen0, seen1, seen2, seen3, seen4, seen5, seen6, seen7, seen8, seen9, seen10, seen11, seen12, seen13];
        assert(deny_lists_applied(ds, fs, *requirement));
    }
}

} // verus!
