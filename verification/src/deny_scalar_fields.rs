//! Applying every merged scalar requirement of `deny.toml` to its field,
//! one after another, in the order of the requirement model.

use vstd::prelude::*;
use toml_edit::DocumentMut;
use crate::deny_fields::{apply_scalar, deny_scalar_applied, field_path, table_display};
use crate::deny_model::ResolvedDenyTomlRequirements;
use crate::findings::{Finding, FindingView, finding_views};

verus! {

/// The number of scalar fields of `deny.toml`.
pub open spec fn scalar_field_count() -> nat {
    42
}

/// `ds` and `fs` run through the documents and findings of applying every
/// scalar requirement of `r` in turn, field by field.
pub open spec fn deny_scalars_applied(ds: Seq<DocumentMut>, fs: Seq<Seq<FindingView>>, r: ResolvedDenyTomlRequirements) -> bool {
    &&& ds.len() == scalar_field_count() + 1
    &&& fs.len() == scalar_field_count() + 1
    &&& deny_scalar_applied(ds[0], ds[1], fs[0], fs[1], field_path("graph"@, None, "exclude-dev"@), table_display("graph"@, None), "graph.exclude-dev"@, r.graph_exclude_dev)
    &&& deny_scalar_applied(ds[1], ds[2], fs[1], fs[2], field_path("graph"@, None, "exclude-unpublished"@), table_display("graph"@, None), "graph.exclude-unpublished"@, r.graph_exclude_unpublished)
    &&& deny_scalar_applied(ds[2], ds[3], fs[2], fs[3], field_path("graph"@, None, "all-features"@), table_display("graph"@, None), "graph.all-features"@, r.graph_all_features)
    &&& deny_scalar_applied(ds[3], ds[4], fs[3], fs[4], field_path("graph"@, None, "no-default-features"@), table_display("graph"@, None), "graph.no-default-features"@, r.graph_no_default_features)
    &&& deny_scalar_applied(ds[4], ds[5], fs[4], fs[5], field_path("output"@, None, "feature-depth"@), table_display("output"@, None), "output.feature-depth"@, r.output_feature_depth)
    &&& deny_scalar_applied(ds[5], ds[6], fs[5], fs[6], field_path("advisories"@, None, "version"@), table_display("advisories"@, None), "advisories.version"@, r.advisories_version)
    &&& deny_scalar_applied(ds[6], ds[7], fs[6], fs[7], field_path("advisories"@, None, "db-path"@), table_display("advisories"@, None), "advisories.db-path"@, r.advisories_db_path)
    &&& deny_scalar_applied(ds[7], ds[8], fs[7], fs[8], field_path("advisories"@, None, "yanked"@), table_display("advisories"@, None), "advisories.yanked"@, r.advisories_yanked)
    &&& deny_scalar_applied(ds[8], ds[9], fs[8], fs[9], field_path("advisories"@, None, "disable-yank-checking"@), table_display("advisories"@, None), "advisories.disable-yank-checking"@, r.advisories_disable_yank_checking)
    &&& deny_scalar_applied(ds[9], ds[10], fs[9], fs[10], field_path("advisories"@, None, "unmaintained"@), table_display("advisories"@, None), "advisories.unmaintained"@, r.advisories_unmaintained)
    &&& deny_scalar_applied(ds[10], ds[11], fs[10], fs[11], field_path("advisories"@, None, "unsound"@), table_display("advisories"@, None), "advisories.unsound"@, r.advisories_unsound)
    &&& deny_scalar_applied(ds[11], ds[12], fs[11], fs[12], field_path("advisories"@, None, "maximum-db-staleness"@), table_display("advisories"@, None), "advisories.maximum-db-staleness"@, r.advisories_maximum_db_staleness)
    &&& deny_scalar_applied(ds[12], ds[13], fs[12], fs[13], field_path("advisories"@, None, "git-fetch-with-cli"@), table_display("advisories"@, None), "advisories.git-fetch-with-cli"@, r.advisories_git_fetch_with_cli)
    &&& deny_scalar_applied(ds[13], ds[14], fs[13], fs[14], field_path("advisories"@, None, "unused-ignored-advisory"@), table_display("advisories"@, None), "advisories.unused-ignored-advisory"@, r.advisories_unused_ignored_advisory)
    &&& deny_scalar_applied(ds[14], ds[15], fs[14], fs[15], field_path("licenses"@, None, "version"@), table_display("licenses"@, None), "licenses.version"@, r.licenses_version)
    &&& deny_scalar_applied(ds[15], ds[16], fs[15], fs[16], field_path("licenses"@, None, "include-dev"@), table_display("licenses"@, None), "licenses.include-dev"@, r.licenses_include_dev)
    &&& deny_scalar_applied(ds[16], ds[17], fs[16], fs[17], field_path("licenses"@, None, "include-build"@), table_display("licenses"@, None), "licenses.include-build"@, r.licenses_include_build)
    &&& deny_scalar_applied(ds[17], ds[18], fs[17], fs[18], field_path("licenses"@, None, "confidence-threshold"@), table_display("licenses"@, None), "licenses.confidence-threshold"@, r.licenses_confidence_threshold)
    &&& deny_scalar_applied(ds[18], ds[19], fs[18], fs[19], field_path("licenses"@, Some("private"@), "ignore"@), table_display("licenses"@, Some("private"@)), "licenses.private.ignore"@, r.licenses_private_ignore)
    &&& deny_scalar_applied(ds[19], ds[20], fs[19], fs[20], field_path("licenses"@, None, "unused-allowed-license"@), table_display("licenses"@, None), "licenses.unused-allowed-license"@, r.licenses_unused_allowed_license)
    &&& deny_scalar_applied(ds[20], ds[21], fs[20], fs[21], field_path("licenses"@, None, "unused-license-exception"@), table_display("licenses"@, None), "licenses.unused-license-exception"@, r.licenses_unused_license_exception)
    &&& deny_scalar_applied(ds[21], ds[22], fs[21], fs[22], field_path("bans"@, None, "multiple-versions"@), table_display("bans"@, None), "bans.multiple-versions"@, r.bans_multiple_versions)
    &&& deny_scalar_applied(ds[22], ds[23], fs[22], fs[23], field_path("bans"@, None, "multiple-versions-include-dev"@), table_display("bans"@, None), "bans.multiple-versions-include-dev"@, r.bans_multiple_versions_include_dev)
    &&& deny_scalar_applied(ds[23], ds[24], fs[23], fs[24], field_path("bans"@, None, "wildcards"@), table_display("bans"@, None), "bans.wildcards"@, r.bans_wildcards)
    &&& deny_scalar_applied(ds[24], ds[25], fs[24], fs[25], field_path("bans"@, None, "allow-wildcard-paths"@), table_display("bans"@, None), "bans.allow-wildcard-paths"@, r.bans_allow_wildcard_paths)
    &&& deny_scalar_applied(ds[25], ds[26], fs[25], fs[26], field_path("bans"@, None, "highlight"@), table_display("bans"@, None), "bans.highlight"@, r.bans_highlight)
    &&& deny_scalar_applied(ds[26], ds[27], fs[26], fs[27], field_path("bans"@, None, "workspace-default-features"@), table_display("bans"@, None), "bans.workspace-default-features"@, r.bans_workspace_default_features)
    &&& deny_scalar_applied(ds[27], ds[28], fs[27], fs[28], field_path("bans"@, None, "external-default-features"@), table_display("bans"@, None), "bans.external-default-features"@, r.bans_external_default_features)
    &&& deny_scalar_applied(ds[28], ds[29], fs[28], fs[29], field_path("bans"@, None, "allow-workspace"@), table_display("bans"@, None), "bans.allow-workspace"@, r.bans_allow_workspace)
    &&& deny_scalar_applied(ds[29], ds[30], fs[29], fs[30], field_path("bans"@, Some("workspace-dependencies"@), "duplicates"@), table_display("bans"@, Some("workspace-dependencies"@)), "bans.workspace-dependencies.duplicates"@, r.bans_workspace_dependencies_duplicates)
    &&& deny_scalar_applied(ds[30], ds[31], fs[30], fs[31], field_path("bans"@, Some("workspace-dependencies"@), "include-path-dependencies"@), table_display("bans"@, Some("workspace-dependencies"@)), "bans.workspace-dependencies.include-path-dependencies"@, r.bans_workspace_dependencies_include_path_dependencies)
    &&& deny_scalar_applied(ds[31], ds[32], fs[31], fs[32], field_path("bans"@, Some("workspace-dependencies"@), "unused"@), table_display("bans"@, Some("workspace-dependencies"@)), "bans.workspace-dependencies.unused"@, r.bans_workspace_dependencies_unused)
    &&& deny_scalar_applied(ds[32], ds[33], fs[32], fs[33], field_path("bans"@, Some("build"@), "executables"@), table_display("bans"@, Some("build"@)), "bans.build.executables"@, r.bans_build_executables)
    &&& deny_scalar_applied(ds[33], ds[34], fs[33], fs[34], field_path("bans"@, Some("build"@), "interpreted"@), table_display("bans"@, Some("build"@)), "bans.build.interpreted"@, r.bans_build_interpreted)
    &&& deny_scalar_applied(ds[34], ds[35], fs[34], fs[35], field_path("bans"@, Some("build"@), "enable-builtin-globs"@), table_display("bans"@, Some("build"@)), "bans.build.enable-builtin-globs"@, r.bans_build_enable_builtin_globs)
    &&& deny_scalar_applied(ds[35], ds[36], fs[35], fs[36], field_path("bans"@, Some("build"@), "include-dependencies"@), table_display("bans"@, Some("build"@)), "bans.build.include-dependencies"@, r.bans_build_include_dependencies)
    &&& deny_scalar_applied(ds[36], ds[37], fs[36], fs[37], field_path("bans"@, Some("build"@), "include-workspace"@), table_display("bans"@, Some("build"@)), "bans.build.include-workspace"@, r.bans_build_include_workspace)
    &&& deny_scalar_applied(ds[37], ds[38], fs[37], fs[38], field_path("bans"@, Some("build"@), "include-archives"@), table_display("bans"@, Some("build"@)), "bans.build.include-archives"@, r.bans_build_include_archives)
    &&& deny_scalar_applied(ds[38], ds[39], fs[38], fs[39], field_path("sources"@, None, "unknown-registry"@), table_display("sources"@, None), "sources.unknown-registry"@, r.sources_unknown_registry)
    &&& deny_scalar_applied(ds[39], ds[40], fs[39], fs[40], field_path("sources"@, None, "unknown-git"@), table_display("sources"@, None), "sources.unknown-git"@, r.sources_unknown_git)
    &&& deny_scalar_applied(ds[40], ds[41], fs[40], fs[41], field_path("sources"@, None, "required-git-spec"@), table_display("sources"@, None), "sources.required-git-spec"@, r.sources_required_git_spec)
    &&& deny_scalar_applied(ds[41], ds[42], fs[41], fs[42], field_path("sources"@, None, "unused-allowed-source"@), table_display("sources"@, None), "sources.unused-allowed-source"@, r.sources_unused_allowed_source)
}

/// Applies every merged scalar requirement to its field, in the order of
/// the requirement model.
#[verifier::rlimit(100)]
#[verifier::spinoff_prover]
pub fn apply_scalars(doc: &mut DocumentMut, requirement: &ResolvedDenyTomlRequirements, findings: &mut Vec<Finding>)
    ensures
        exists|ds: Seq<DocumentMut>, fs: Seq<Seq<FindingView>>| {
            &&& #[trigger] deny_scalars_applied(ds, fs, *requirement)
            &&& ds[0] == *old(doc)
            &&& fs[0] == finding_views(old(findings)@)
            &&& ds.last() == *final(doc)
            &&& fs.last() == finding_views(final(findings)@)
        },
{
    let ghost d0 = *doc;
    let ghost seen0 = finding_views(findings@);
    apply_scalar(doc, "graph", None, "exclude-dev", "graph.exclude-dev", &requirement.graph_exclude_dev, findings);
    let ghost d1 = *doc;
    let ghost seen1 = finding_views(findings@);
    apply_scalar(doc, "graph", None, "exclude-unpublished", "graph.exclude-unpublished", &requirement.graph_exclude_unpublished, findings);
    let ghost d2 = *doc;
    let ghost seen2 = finding_views(findings@);
    apply_scalar(doc, "graph", None, "all-features", "graph.all-features", &requirement.graph_all_features, findings);
    let ghost d3 = *doc;
    let ghost seen3 = finding_views(findings@);
    apply_scalar(doc, "graph", None, "no-default-features", "graph.no-default-features", &requirement.graph_no_default_features, findings);
    let ghost d4 = *doc;
    let ghost seen4 = finding_views(findings@);
    apply_scalar(doc, "output", None, "feature-depth", "output.feature-depth", &requirement.output_feature_depth, findings);
    let ghost d5 = *doc;
    let ghost seen5 = finding_views(findings@);
    apply_scalar(doc, "advisories", None, "version", "advisories.version", &requirement.advisories_version, findings);
    let ghost d6 = *doc;
    let ghost seen6 = finding_views(findings@);
    apply_scalar(doc, "advisories", None, "db-path", "advisories.db-path", &requirement.advisories_db_path, findings);
    let ghost d7 = *doc;
    let ghost seen7 = finding_views(findings@);
    apply_scalar(doc, "advisories", None, "yanked", "advisories.yanked", &requirement.advisories_yanked, findings);
    let ghost d8 = *doc;
    let ghost seen8 = finding_views(findings@);
    apply_scalar(doc, "advisories", None, "disable-yank-checking", "advisories.disable-yank-checking", &requirement.advisories_disable_yank_checking, findings);
    let ghost d9 = *doc;
    let ghost seen9 = finding_views(findings@);
    apply_scalar(doc, "advisories", None, "unmaintained", "advisories.unmaintained", &requirement.advisories_unmaintained, findings);
    let ghost d10 = *doc;
    let ghost seen10 = finding_views(findings@);
    apply_scalar(doc, "advisories", None, "unsound", "advisories.unsound", &requirement.advisories_unsound, findings);
    let ghost d11 = *doc;
    let ghost seen11 = finding_views(findings@);
    apply_scalar(doc, "advisories", None, "maximum-db-staleness", "advisories.maximum-db-staleness", &requirement.advisories_maximum_db_staleness, findings);
    let ghost d12 = *doc;
    let ghost seen12 = finding_views(findings@);
    apply_scalar(doc, "advisories", None, "git-fetch-with-cli", "advisories.git-fetch-with-cli", &requirement.advisories_git_fetch_with_cli, findings);
    let ghost d13 = *doc;
    let ghost seen13 = finding_views(findings@);
    apply_scalar(doc, "advisories", None, "unused-ignored-advisory", "advisories.unused-ignored-advisory", &requirement.advisories_unused_ignored_advisory, findings);
    let ghost d14 = *doc;
    let ghost seen14 = finding_views(findings@);
    apply_scalar(doc, "licenses", None, "version", "licenses.version", &requirement.licenses_version, findings);
    let ghost d15 = *doc;
    let ghost seen15 = finding_views(findings@);
    apply_scalar(doc, "licenses", None, "include-dev", "licenses.include-dev", &requirement.licenses_include_dev, findings);
    let ghost d16 = *doc;
    let ghost seen16 = finding_views(findings@);
    apply_scalar(doc, "licenses", None, "include-build", "licenses.include-build", &requirement.licenses_include_build, findings);
    let ghost d17 = *doc;
    let ghost seen17 = finding_views(findings@);
    apply_scalar(doc, "licenses", None, "confidence-threshold", "licenses.confidence-threshold", &requirement.licenses_confidence_threshold, findings);
    let ghost d18 = *doc;
    let ghost seen18 = finding_views(findings@);
    apply_scalar(doc, "licenses", Some("private"), "ignore", "licenses.private.ignore", &requirement.licenses_private_ignore, findings);
    let ghost d19 = *doc;
    let ghost seen19 = finding_views(findings@);
    apply_scalar(doc, "licenses", None, "unused-allowed-license", "licenses.unused-allowed-license", &requirement.licenses_unused_allowed_license, findings);
    let ghost d20 = *doc;
    let ghost seen20 = finding_views(findings@);
    apply_scalar(doc, "licenses", None, "unused-license-exception", "licenses.unused-license-exception", &requirement.licenses_unused_license_exception, findings);
    let ghost d21 = *doc;
    let ghost seen21 = finding_views(findings@);
    apply_scalar(doc, "bans", None, "multiple-versions", "bans.multiple-versions", &requirement.bans_multiple_versions, findings);
    let ghost d22 = *doc;
    let ghost seen22 = finding_views(findings@);
    apply_scalar(doc, "bans", None, "multiple-versions-include-dev", "bans.multiple-versions-include-dev", &requirement.bans_multiple_versions_include_dev, findings);
    let ghost d23 = *doc;
    let ghost seen23 = finding_views(findings@);
    apply_scalar(doc, "bans", None, "wildcards", "bans.wildcards", &requirement.bans_wildcards, findings);
    let ghost d24 = *doc;
    let ghost seen24 = finding_views(findings@);
    apply_scalar(doc, "bans", None, "allow-wildcard-paths", "bans.allow-wildcard-paths", &requirement.bans_allow_wildcard_paths, findings);
    let ghost d25 = *doc;
    let ghost seen25 = finding_views(findings@);
    apply_scalar(doc, "bans", None, "highlight", "bans.highlight", &requirement.bans_highlight, findings);
    let ghost d26 = *doc;
    let ghost seen26 = finding_views(findings@);
    apply_scalar(doc, "bans", None, "workspace-default-features", "bans.workspace-default-features", &requirement.bans_workspace_default_features, findings);
    let ghost d27 = *doc;
    let ghost seen27 = finding_views(findings@);
    apply_scalar(doc, "bans", None, "external-default-features", "bans.external-default-features", &requirement.bans_external_default_features, findings);
    let ghost d28 = *doc;
    let ghost seen28 = finding_views(findings@);
    apply_scalar(doc, "bans", None, "allow-workspace", "bans.allow-workspace", &requirement.bans_allow_workspace, findings);
    let ghost d29 = *doc;
    let ghost seen29 = finding_views(findings@);
    apply_scalar(doc, "bans", Some("workspace-dependencies"), "duplicates", "bans.workspace-dependencies.duplicates", &requirement.bans_workspace_dependencies_duplicates, findings);
    let ghost d30 = *doc;
    let ghost seen30 = finding_views(findings@);
    apply_scalar(doc, "bans", Some("workspace-dependencies"), "include-path-dependencies", "bans.workspace-dependencies.include-path-dependencies", &requirement.bans_workspace_dependencies_include_path_dependencies, findings);
    let ghost d31 = *doc;
    let ghost seen31 = finding_views(findings@);
    apply_scalar(doc, "bans", Some("workspace-dependencies"), "unused", "bans.workspace-dependencies.unused", &requirement.bans_workspace_dependencies_unused, findings);
    let ghost d32 = *doc;
    let ghost seen32 = finding_views(findings@);
    apply_scalar(doc, "bans", Some("build"), "executables", "bans.build.executables", &requirement.bans_build_executables, findings);
    let ghost d33 = *doc;
    let ghost seen33 = finding_views(findings@);
    apply_scalar(doc, "bans", Some("build"), "interpreted", "bans.build.interpreted", &requirement.bans_build_interpreted, findings);
    let ghost d34 = *doc;
    let ghost seen34 = finding_views(findings@);
    apply_scalar(doc, "bans", Some("build"), "enable-builtin-globs", "bans.build.enable-builtin-globs", &requirement.bans_build_enable_builtin_globs, findings);
    let ghost d35 = *doc;
    let ghost seen35 = finding_views(findings@);
    apply_scalar(doc, "bans", Some("build"), "include-dependencies", "bans.build.include-dependencies", &requirement.bans_build_include_dependencies, findings);
    let ghost d36 = *doc;
    let ghost seen36 = finding_views(findings@);
    apply_scalar(doc, "bans", Some("build"), "include-workspace", "bans.build.include-workspace", &requirement.bans_build_include_workspace, findings);
    let ghost d37 = *doc;
    let ghost seen37 = finding_views(findings@);
    apply_scalar(doc, "bans", Some("build"), "include-archives", "bans.build.include-archives", &requirement.bans_build_include_archives, findings);
    let ghost d38 = *doc;
    let ghost seen38 = finding_views(findings@);
    apply_scalar(doc, "sources", None, "unknown-registry", "sources.unknown-registry", &requirement.sources_unknown_registry, findings);
    let ghost d39 = *doc;
    let ghost seen39 = finding_views(findings@);
    apply_scalar(doc, "sources", None, "unknown-git", "sources.unknown-git", &requirement.sources_unknown_git, findings);
    let ghost d40 = *doc;
    let ghost seen40 = finding_views(findings@);
    apply_scalar(doc, "sources", None, "required-git-spec", "sources.required-git-spec", &requirement.sources_required_git_spec, findings);
    let ghost d41 = *doc;
    let ghost seen41 = finding_views(findings@);
    apply_scalar(doc, "sources", None, "unused-allowed-source", "sources.unused-allowed-source", &requirement.sources_unused_allowed_source, findings);
    let ghost d42 = *doc;
    let ghost seen42 = finding_views(findings@);
    proof {
        let ds = seq![d0, d1, d2, d3, d4, d5, d6, d7, d8, d9, d10, d11, d12, d13, d14, d15, d16, d17, d18, d19, d20, d21, d22, d23, d24, d25, d26, d27, d28, d29, d30, d31, d32, d33, d34, d35, d36, d37, d38, d39, d40, d41, d42];
        let fs = seq![seen0, seen1, seen2, seen3, seen4, seen5, seen6, seen7, seen8, seen9, seen10, seen11, seen12, seen13, seen14, seen15, seen16, seen17, seen18, seen19, seen20, seen21, seen22, seen23, seen24, seen25, seen26, seen27, seen28, seen29, seen30, seen31, seen32, seen33, seen34, seen35, seen36, seen37, seen38, seen39, seen40, seen41, seen42];
        assert(deny_scalars_applied(ds, fs, *requirement));
    }
}

} // verus!
