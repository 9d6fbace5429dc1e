//! Merging the `deny.toml` requirements of several policies.

use vstd::prelude::*;
use crate::columns::{column, full_column, lemma_column_compose, lemma_full_column_compose};
use crate::deny_items::{
    DenyAdvisoryIgnoreSpec, DenyBanSpec, DenyBuildGlobSpec, DenyFeatureBanSpec, DenyGraphTargetSpec,
    DenyLicenseClarification, DenyLicenseException, DenyPackageReasonSpec, DenySkipTreeSpec,
    feature_views, first_overlap, spec_first_overlap,
};
use crate::deny_confidence::DenyConfidenceThreshold;
use crate::deny_model::{DenyTomlRequirements, ResolvedDenyTomlRequirements};
use crate::deny_text::{DenyDuration, DenyNonEmptyString};
use crate::deny_values::{DenyAdvisoryScope, DenyGitSpec, DenyGraphHighlight, DenyLintLevel};
use crate::items::{ItemRequirements, ResolvedItemEntry, ResolvedItemRequirements, item_conflicts, item_flat, merges_items, resolve_items, sorted_identities};
use crate::lists::{ListRequirements, flat_pairs, list_conflicts, list_resolution, resolve_normalized_list, sorted_exact_items};
use crate::requirements::{Provenance, ScalarAssertion};
use crate::scalar_merge::{ConflictEntry, ConflictView, conflict_views, contributor_views, resolve_scalar, scalar_conflicts, scalar_resolution};
use crate::text::{join2, join3, owned};

verus! {

/// The `graph_targets` of a policy's requirements.
pub open spec fn field_graph_targets() -> spec_fn(DenyTomlRequirements) -> ItemRequirements<DenyGraphTargetSpec> {
    |q: DenyTomlRequirements| q.graph_targets
}

/// Every policy's required entries of `graph.targets`.
pub open spec fn col_graph_targets(reqs: Seq<(Provenance, DenyTomlRequirements)>) -> Seq<(Provenance, ItemRequirements<DenyGraphTargetSpec>)> {
    full_column(reqs, field_graph_targets())
}

/// The `graph_exclude` of a policy's requirements.
pub open spec fn field_graph_exclude() -> spec_fn(DenyTomlRequirements) -> ListRequirements {
    |q: DenyTomlRequirements| q.graph_exclude
}

/// Every policy's requirements of the list `graph.exclude`.
pub open spec fn col_graph_exclude(reqs: Seq<(Provenance, DenyTomlRequirements)>) -> Seq<(Provenance, ListRequirements)> {
    full_column(reqs, field_graph_exclude())
}

/// The `graph_exclude_dev` of a policy's requirements.
pub open spec fn field_graph_exclude_dev() -> spec_fn(DenyTomlRequirements) -> Option<ScalarAssertion<bool>> {
    |q: DenyTomlRequirements| q.graph_exclude_dev
}

/// Every policy's assertion of `graph.exclude-dev`.
pub open spec fn col_graph_exclude_dev(reqs: Seq<(Provenance, DenyTomlRequirements)>) -> Seq<(Provenance, ScalarAssertion<bool>)> {
    column(reqs, field_graph_exclude_dev())
}

/// The `graph_exclude_unpublished` of a policy's requirements.
pub open spec fn field_graph_exclude_unpublished() -> spec_fn(DenyTomlRequirements) -> Option<ScalarAssertion<bool>> {
    |q: DenyTomlRequirements| q.graph_exclude_unpublished
}

/// Every policy's assertion of `graph.exclude-unpublished`.
pub open spec fn col_graph_exclude_unpublished(reqs: Seq<(Provenance, DenyTomlRequirements)>) -> Seq<(Provenance, ScalarAssertion<bool>)> {
    column(reqs, field_graph_exclude_unpublished())
}

/// The `graph_all_features` of a policy's requirements.
pub open spec fn field_graph_all_features() -> spec_fn(DenyTomlRequirements) -> Option<ScalarAssertion<bool>> {
    |q: DenyTomlRequirements| q.graph_all_features
}

/// Every policy's assertion of `graph.all-features`.
pub open spec fn col_graph_all_features(reqs: Seq<(Provenance, DenyTomlRequirements)>) -> Seq<(Provenance, ScalarAssertion<bool>)> {
    column(reqs, field_graph_all_features())
}

/// The `graph_no_default_features` of a policy's requirements.
pub open spec fn field_graph_no_default_features() -> spec_fn(DenyTomlRequirements) -> Option<ScalarAssertion<bool>> {
    |q: DenyTomlRequirements| q.graph_no_default_features
}

/// Every policy's assertion of `graph.no-default-features`.
pub open spec fn col_graph_no_default_features(reqs: Seq<(Provenance, DenyTomlRequirements)>) -> Seq<(Provenance, ScalarAssertion<bool>)> {
    column(reqs, field_graph_no_default_features())
}

/// The `graph_features` of a policy's requirements.
pub open spec fn field_graph_features() -> spec_fn(DenyTomlRequirements) -> ListRequirements {
    |q: DenyTomlRequirements| q.graph_features
}

/// Every policy's requirements of the list `graph.features`.
pub open spec fn col_graph_features(reqs: Seq<(Provenance, DenyTomlRequirements)>) -> Seq<(Provenance, ListRequirements)> {
    full_column(reqs, field_graph_features())
}

/// The `output_feature_depth` of a policy's requirements.
pub open spec fn field_output_feature_depth() -> spec_fn(DenyTomlRequirements) -> Option<ScalarAssertion<u64>> {
    |q: DenyTomlRequirements| q.output_feature_depth
}

/// Every policy's assertion of `output.feature-depth`.
pub open spec fn col_output_feature_depth(reqs: Seq<(Provenance, DenyTomlRequirements)>) -> Seq<(Provenance, ScalarAssertion<u64>)> {
    column(reqs, field_output_feature_depth())
}

/// The `advisories_version` of a policy's requirements.
pub open spec fn field_advisories_version() -> spec_fn(DenyTomlRequirements) -> Option<ScalarAssertion<u64>> {
    |q: DenyTomlRequirements| q.advisories_version
}

/// Every policy's assertion of `advisories.version`.
pub open spec fn col_advisories_version(reqs: Seq<(Provenance, DenyTomlRequirements)>) -> Seq<(Provenance, ScalarAssertion<u64>)> {
    column(reqs, field_advisories_version())
}

/// The `advisories_db_path` of a policy's requirements.
pub open spec fn field_advisories_db_path() -> spec_fn(DenyTomlRequirements) -> Option<ScalarAssertion<DenyNonEmptyString>> {
    |q: DenyTomlRequirements| q.advisories_db_path
}

/// Every policy's assertion of `advisories.db-path`.
pub open spec fn col_advisories_db_path(reqs: Seq<(Provenance, DenyTomlRequirements)>) -> Seq<(Provenance, ScalarAssertion<DenyNonEmptyString>)> {
    column(reqs, field_advisories_db_path())
}

/// The `advisories_db_urls` of a policy's requirements.
pub open spec fn field_advisories_db_urls() -> spec_fn(DenyTomlRequirements) -> ListRequirements {
    |q: DenyTomlRequirements| q.advisories_db_urls
}

/// Every policy's requirements of the list `advisories.db-urls`.
pub open spec fn col_advisories_db_urls(reqs: Seq<(Provenance, DenyTomlRequirements)>) -> Seq<(Provenance, ListRequirements)> {
    full_column(reqs, field_advisories_db_urls())
}

/// The `advisories_yanked` of a policy's requirements.
pub open spec fn field_advisories_yanked() -> spec_fn(DenyTomlRequirements) -> Option<ScalarAssertion<DenyLintLevel>> {
    |q: DenyTomlRequirements| q.advisories_yanked
}

/// Every policy's assertion of `advisories.yanked`.
pub open spec fn col_advisories_yanked(reqs: Seq<(Provenance, DenyTomlRequirements)>) -> Seq<(Provenance, ScalarAssertion<DenyLintLevel>)> {
    column(reqs, field_advisories_yanked())
}

/// The `advisories_disable_yank_checking` of a policy's requirements.
pub open spec fn field_advisories_disable_yank_checking() -> spec_fn(DenyTomlRequirements) -> Option<ScalarAssertion<bool>> {
    |q: DenyTomlRequirements| q.advisories_disable_yank_checking
}

/// Every policy's assertion of `advisories.disable-yank-checking`.
pub open spec fn col_advisories_disable_yank_checking(reqs: Seq<(Provenance, DenyTomlRequirements)>) -> Seq<(Provenance, ScalarAssertion<bool>)> {
    column(reqs, field_advisories_disable_yank_checking())
}

/// The `advisories_ignore` of a policy's requirements.
pub open spec fn field_advisories_ignore() -> spec_fn(DenyTomlRequirements) -> ItemRequirements<DenyAdvisoryIgnoreSpec> {
    |q: DenyTomlRequirements| q.advisories_ignore
}

/// Every policy's required entries of `advisories.ignore`.
pub open spec fn col_advisories_ignore(reqs: Seq<(Provenance, DenyTomlRequirements)>) -> Seq<(Provenance, ItemRequirements<DenyAdvisoryIgnoreSpec>)> {
    full_column(reqs, field_advisories_ignore())
}

/// The `advisories_unmaintained` of a policy's requirements.
pub open spec fn field_advisories_unmaintained() -> spec_fn(DenyTomlRequirements) -> Option<ScalarAssertion<DenyAdvisoryScope>> {
    |q: DenyTomlRequirements| q.advisories_unmaintained
}

/// Every policy's assertion of `advisories.unmaintained`.
pub open spec fn col_advisories_unmaintained(reqs: Seq<(Provenance, DenyTomlRequirements)>) -> Seq<(Provenance, ScalarAssertion<DenyAdvisoryScope>)> {
    column(reqs, field_advisories_unmaintained())
}

/// The `advisories_unsound` of a policy's requirements.
pub open spec fn field_advisories_unsound() -> spec_fn(DenyTomlRequirements) -> Option<ScalarAssertion<DenyAdvisoryScope>> {
    |q: DenyTomlRequirements| q.advisories_unsound
}

/// Every policy's assertion of `advisories.unsound`.
pub open spec fn col_advisories_unsound(reqs: Seq<(Provenance, DenyTomlRequirements)>) -> Seq<(Provenance, ScalarAssertion<DenyAdvisoryScope>)> {
    column(reqs, field_advisories_unsound())
}

/// The `advisories_maximum_db_staleness` of a policy's requirements.
pub open spec fn field_advisories_maximum_db_staleness() -> spec_fn(DenyTomlRequirements) -> Option<ScalarAssertion<DenyDuration>> {
    |q: DenyTomlRequirements| q.advisories_maximum_db_staleness
}

/// Every policy's assertion of `advisories.maximum-db-staleness`.
pub open spec fn col_advisories_maximum_db_staleness(reqs: Seq<(Provenance, DenyTomlRequirements)>) -> Seq<(Provenance, ScalarAssertion<DenyDuration>)> {
    column(reqs, field_advisories_maximum_db_staleness())
}

/// The `advisories_git_fetch_with_cli` of a policy's requirements.
pub open spec fn field_advisories_git_fetch_with_cli() -> spec_fn(DenyTomlRequirements) -> Option<ScalarAssertion<bool>> {
    |q: DenyTomlRequirements| q.advisories_git_fetch_with_cli
}

/// Every policy's assertion of `advisories.git-fetch-with-cli`.
pub open spec fn col_advisories_git_fetch_with_cli(reqs: Seq<(Provenance, DenyTomlRequirements)>) -> Seq<(Provenance, ScalarAssertion<bool>)> {
    column(reqs, field_advisories_git_fetch_with_cli())
}

/// The `advisories_unused_ignored_advisory` of a policy's requirements.
pub open spec fn field_advisories_unused_ignored_advisory() -> spec_fn(DenyTomlRequirements) -> Option<ScalarAssertion<DenyLintLevel>> {
    |q: DenyTomlRequirements| q.advisories_unused_ignored_advisory
}

/// Every policy's assertion of `advisories.unused-ignored-advisory`.
pub open spec fn col_advisories_unused_ignored_advisory(reqs: Seq<(Provenance, DenyTomlRequirements)>) -> Seq<(Provenance, ScalarAssertion<DenyLintLevel>)> {
    column(reqs, field_advisories_unused_ignored_advisory())
}

/// The `licenses_version` of a policy's requirements.
pub open spec fn field_licenses_version() -> spec_fn(DenyTomlRequirements) -> Option<ScalarAssertion<u64>> {
    |q: DenyTomlRequirements| q.licenses_version
}

/// Every policy's assertion of `licenses.version`.
pub open spec fn col_licenses_version(reqs: Seq<(Provenance, DenyTomlRequirements)>) -> Seq<(Provenance, ScalarAssertion<u64>)> {
    column(reqs, field_licenses_version())
}

/// The `licenses_include_dev` of a policy's requirements.
pub open spec fn field_licenses_include_dev() -> spec_fn(DenyTomlRequirements) -> Option<ScalarAssertion<bool>> {
    |q: DenyTomlRequirements| q.licenses_include_dev
}

/// Every policy's assertion of `licenses.include-dev`.
pub open spec fn col_licenses_include_dev(reqs: Seq<(Provenance, DenyTomlRequirements)>) -> Seq<(Provenance, ScalarAssertion<bool>)> {
    column(reqs, field_licenses_include_dev())
}

/// The `licenses_include_build` of a policy's requirements.
pub open spec fn field_licenses_include_build() -> spec_fn(DenyTomlRequirements) -> Option<ScalarAssertion<bool>> {
    |q: DenyTomlRequirements| q.licenses_include_build
}

/// Every policy's assertion of `licenses.include-build`.
pub open spec fn col_licenses_include_build(reqs: Seq<(Provenance, DenyTomlRequirements)>) -> Seq<(Provenance, ScalarAssertion<bool>)> {
    column(reqs, field_licenses_include_build())
}

/// The `licenses_allow` of a policy's requirements.
pub open spec fn field_licenses_allow() -> spec_fn(DenyTomlRequirements) -> ListRequirements {
    |q: DenyTomlRequirements| q.licenses_allow
}

/// Every policy's requirements of the list `licenses.allow`.
pub open spec fn col_licenses_allow(reqs: Seq<(Provenance, DenyTomlRequirements)>) -> Seq<(Provenance, ListRequirements)> {
    full_column(reqs, field_licenses_allow())
}

/// The `licenses_exceptions` of a policy's requirements.
pub open spec fn field_licenses_exceptions() -> spec_fn(DenyTomlRequirements) -> ItemRequirements<DenyLicenseException> {
    |q: DenyTomlRequirements| q.licenses_exceptions
}

/// Every policy's required entries of `licenses.exceptions`.
pub open spec fn col_licenses_exceptions(reqs: Seq<(Provenance, DenyTomlRequirements)>) -> Seq<(Provenance, ItemRequirements<DenyLicenseException>)> {
    full_column(reqs, field_licenses_exceptions())
}

/// The `licenses_confidence_threshold` of a policy's requirements.
pub open spec fn field_licenses_confidence_threshold() -> spec_fn(DenyTomlRequirements) -> Option<ScalarAssertion<DenyConfidenceThreshold>> {
    |q: DenyTomlRequirements| q.licenses_confidence_threshold
}

/// Every policy's assertion of `licenses.confidence-threshold`.
pub open spec fn col_licenses_confidence_threshold(reqs: Seq<(Provenance, DenyTomlRequirements)>) -> Seq<(Provenance, ScalarAssertion<DenyConfidenceThreshold>)> {
    column(reqs, field_licenses_confidence_threshold())
}

/// The `licenses_clarify` of a policy's requirements.
pub open spec fn field_licenses_clarify() -> spec_fn(DenyTomlRequirements) -> ItemRequirements<DenyLicenseClarification> {
    |q: DenyTomlRequirements| q.licenses_clarify
}

/// Every policy's required entries of `licenses.clarify`.
pub open spec fn col_licenses_clarify(reqs: Seq<(Provenance, DenyTomlRequirements)>) -> Seq<(Provenance, ItemRequirements<DenyLicenseClarification>)> {
    full_column(reqs, field_licenses_clarify())
}

/// The `licenses_private_ignore` of a policy's requirements.
pub open spec fn field_licenses_private_ignore() -> spec_fn(DenyTomlRequirements) -> Option<ScalarAssertion<bool>> {
    |q: DenyTomlRequirements| q.licenses_private_ignore
}

/// Every policy's assertion of `licenses.private.ignore`.
pub open spec fn col_licenses_private_ignore(reqs: Seq<(Provenance, DenyTomlRequirements)>) -> Seq<(Provenance, ScalarAssertion<bool>)> {
    column(reqs, field_licenses_private_ignore())
}

/// The `licenses_private_registries` of a policy's requirements.
pub open spec fn field_licenses_private_registries() -> spec_fn(DenyTomlRequirements) -> ListRequirements {
    |q: DenyTomlRequirements| q.licenses_private_registries
}

/// Every policy's requirements of the list `licenses.private.registries`.
pub open spec fn col_licenses_private_registries(reqs: Seq<(Provenance, DenyTomlRequirements)>) -> Seq<(Provenance, ListRequirements)> {
    full_column(reqs, field_licenses_private_registries())
}

/// The `licenses_private_ignore_sources` of a policy's requirements.
pub open spec fn field_licenses_private_ignore_sources() -> spec_fn(DenyTomlRequirements) -> ListRequirements {
    |q: DenyTomlRequirements| q.licenses_private_ignore_sources
}

/// Every policy's requirements of the list `licenses.private.ignore-sources`.
pub open spec fn col_licenses_private_ignore_sources(reqs: Seq<(Provenance, DenyTomlRequirements)>) -> Seq<(Provenance, ListRequirements)> {
    full_column(reqs, field_licenses_private_ignore_sources())
}

/// The `licenses_unused_allowed_license` of a policy's requirements.
pub open spec fn field_licenses_unused_allowed_license() -> spec_fn(DenyTomlRequirements) -> Option<ScalarAssertion<DenyLintLevel>> {
    |q: DenyTomlRequirements| q.licenses_unused_allowed_license
}

/// Every policy's assertion of `licenses.unused-allowed-license`.
pub open spec fn col_licenses_unused_allowed_license(reqs: Seq<(Provenance, DenyTomlRequirements)>) -> Seq<(Provenance, ScalarAssertion<DenyLintLevel>)> {
    column(reqs, field_licenses_unused_allowed_license())
}

/// The `licenses_unused_license_exception` of a policy's requirements.
pub open spec fn field_licenses_unused_license_exception() -> spec_fn(DenyTomlRequirements) -> Option<ScalarAssertion<DenyLintLevel>> {
    |q: DenyTomlRequirements| q.licenses_unused_license_exception
}

/// Every policy's assertion of `licenses.unused-license-exception`.
pub open spec fn col_licenses_unused_license_exception(reqs: Seq<(Provenance, DenyTomlRequirements)>) -> Seq<(Provenance, ScalarAssertion<DenyLintLevel>)> {
    column(reqs, field_licenses_unused_license_exception())
}

/// The `bans_multiple_versions` of a policy's requirements.
pub open spec fn field_bans_multiple_versions() -> spec_fn(DenyTomlRequirements) -> Option<ScalarAssertion<DenyLintLevel>> {
    |q: DenyTomlRequirements| q.bans_multiple_versions
}

/// Every policy's assertion of `bans.multiple-versions`.
pub open spec fn col_bans_multiple_versions(reqs: Seq<(Provenance, DenyTomlRequirements)>) -> Seq<(Provenance, ScalarAssertion<DenyLintLevel>)> {
    column(reqs, field_bans_multiple_versions())
}

/// The `bans_multiple_versions_include_dev` of a policy's requirements.
pub open spec fn field_bans_multiple_versions_include_dev() -> spec_fn(DenyTomlRequirements) -> Option<ScalarAssertion<bool>> {
    |q: DenyTomlRequirements| q.bans_multiple_versions_include_dev
}

/// Every policy's assertion of `bans.multiple-versions-include-dev`.
pub open spec fn col_bans_multiple_versions_include_dev(reqs: Seq<(Provenance, DenyTomlRequirements)>) -> Seq<(Provenance, ScalarAssertion<bool>)> {
    column(reqs, field_bans_multiple_versions_include_dev())
}

/// The `bans_wildcards` of a policy's requirements.
pub open spec fn field_bans_wildcards() -> spec_fn(DenyTomlRequirements) -> Option<ScalarAssertion<DenyLintLevel>> {
    |q: DenyTomlRequirements| q.bans_wildcards
}

/// Every policy's assertion of `bans.wildcards`.
pub open spec fn col_bans_wildcards(reqs: Seq<(Provenance, DenyTomlRequirements)>) -> Seq<(Provenance, ScalarAssertion<DenyLintLevel>)> {
    column(reqs, field_bans_wildcards())
}

/// The `bans_allow_wildcard_paths` of a policy's requirements.
pub open spec fn field_bans_allow_wildcard_paths() -> spec_fn(DenyTomlRequirements) -> Option<ScalarAssertion<bool>> {
    |q: DenyTomlRequirements| q.bans_allow_wildcard_paths
}

/// Every policy's assertion of `bans.allow-wildcard-paths`.
pub open spec fn col_bans_allow_wildcard_paths(reqs: Seq<(Provenance, DenyTomlRequirements)>) -> Seq<(Provenance, ScalarAssertion<bool>)> {
    column(reqs, field_bans_allow_wildcard_paths())
}

/// The `bans_highlight` of a policy's requirements.
pub open spec fn field_bans_highlight() -> spec_fn(DenyTomlRequirements) -> Option<ScalarAssertion<DenyGraphHighlight>> {
    |q: DenyTomlRequirements| q.bans_highlight
}

/// Every policy's assertion of `bans.highlight`.
pub open spec fn col_bans_highlight(reqs: Seq<(Provenance, DenyTomlRequirements)>) -> Seq<(Provenance, ScalarAssertion<DenyGraphHighlight>)> {
    column(reqs, field_bans_highlight())
}

/// The `bans_workspace_default_features` of a policy's requirements.
pub open spec fn field_bans_workspace_default_features() -> spec_fn(DenyTomlRequirements) -> Option<ScalarAssertion<DenyLintLevel>> {
    |q: DenyTomlRequirements| q.bans_workspace_default_features
}

/// Every policy's assertion of `bans.workspace-default-features`.
pub open spec fn col_bans_workspace_default_features(reqs: Seq<(Provenance, DenyTomlRequirements)>) -> Seq<(Provenance, ScalarAssertion<DenyLintLevel>)> {
    column(reqs, field_bans_workspace_default_features())
}

/// The `bans_external_default_features` of a policy's requirements.
pub open spec fn field_bans_external_default_features() -> spec_fn(DenyTomlRequirements) -> Option<ScalarAssertion<DenyLintLevel>> {
    |q: DenyTomlRequirements| q.bans_external_default_features
}

/// Every policy's assertion of `bans.external-default-features`.
pub open spec fn col_bans_external_default_features(reqs: Seq<(Provenance, DenyTomlRequirements)>) -> Seq<(Provenance, ScalarAssertion<DenyLintLevel>)> {
    column(reqs, field_bans_external_default_features())
}

/// The `bans_allow` of a policy's requirements.
pub open spec fn field_bans_allow() -> spec_fn(DenyTomlRequirements) -> ItemRequirements<DenyPackageReasonSpec> {
    |q: DenyTomlRequirements| q.bans_allow
}

/// Every policy's required entries of `bans.allow`.
pub open spec fn col_bans_allow(reqs: Seq<(Provenance, DenyTomlRequirements)>) -> Seq<(Provenance, ItemRequirements<DenyPackageReasonSpec>)> {
    full_column(reqs, field_bans_allow())
}

/// The `bans_allow_workspace` of a policy's requirements.
pub open spec fn field_bans_allow_workspace() -> spec_fn(DenyTomlRequirements) -> Option<ScalarAssertion<bool>> {
    |q: DenyTomlRequirements| q.bans_allow_workspace
}

/// Every policy's assertion of `bans.allow-workspace`.
pub open spec fn col_bans_allow_workspace(reqs: Seq<(Provenance, DenyTomlRequirements)>) -> Seq<(Provenance, ScalarAssertion<bool>)> {
    column(reqs, field_bans_allow_workspace())
}

/// The `bans_deny` of a policy's requirements.
pub open spec fn field_bans_deny() -> spec_fn(DenyTomlRequirements) -> ItemRequirements<DenyBanSpec> {
    |q: DenyTomlRequirements| q.bans_deny
}

/// Every policy's required entries of `bans.deny`.
pub open spec fn col_bans_deny(reqs: Seq<(Provenance, DenyTomlRequirements)>) -> Seq<(Provenance, ItemRequirements<DenyBanSpec>)> {
    full_column(reqs, field_bans_deny())
}

/// The `bans_features` of a policy's requirements.
pub open spec fn field_bans_features() -> spec_fn(DenyTomlRequirements) -> ItemRequirements<DenyFeatureBanSpec> {
    |q: DenyTomlRequirements| q.bans_features
}

/// Every policy's required entries of `bans.features`.
pub open spec fn col_bans_features(reqs: Seq<(Provenance, DenyTomlRequirements)>) -> Seq<(Provenance, ItemRequirements<DenyFeatureBanSpec>)> {
    full_column(reqs, field_bans_features())
}

/// The `bans_skip` of a policy's requirements.
pub open spec fn field_bans_skip() -> spec_fn(DenyTomlRequirements) -> ItemRequirements<DenyPackageReasonSpec> {
    |q: DenyTomlRequirements| q.bans_skip
}

/// Every policy's required entries of `bans.skip`.
pub open spec fn col_bans_skip(reqs: Seq<(Provenance, DenyTomlRequirements)>) -> Seq<(Provenance, ItemRequirements<DenyPackageReasonSpec>)> {
    full_column(reqs, field_bans_skip())
}

/// The `bans_skip_tree` of a policy's requirements.
pub open spec fn field_bans_skip_tree() -> spec_fn(DenyTomlRequirements) -> ItemRequirements<DenySkipTreeSpec> {
    |q: DenyTomlRequirements| q.bans_skip_tree
}

/// Every policy's required entries of `bans.skip-tree`.
pub open spec fn col_bans_skip_tree(reqs: Seq<(Provenance, DenyTomlRequirements)>) -> Seq<(Provenance, ItemRequirements<DenySkipTreeSpec>)> {
    full_column(reqs, field_bans_skip_tree())
}

/// The `bans_workspace_dependencies_duplicates` of a policy's requirements.
pub open spec fn field_bans_workspace_dependencies_duplicates() -> spec_fn(DenyTomlRequirements) -> Option<ScalarAssertion<DenyLintLevel>> {
    |q: DenyTomlRequirements| q.bans_workspace_dependencies_duplicates
}

/// Every policy's assertion of `bans.workspace-dependencies.duplicates`.
pub open spec fn col_bans_workspace_dependencies_duplicates(reqs: Seq<(Provenance, DenyTomlRequirements)>) -> Seq<(Provenance, ScalarAssertion<DenyLintLevel>)> {
    column(reqs, field_bans_workspace_dependencies_duplicates())
}

/// The `bans_workspace_dependencies_include_path_dependencies` of a policy's requirements.
pub open spec fn field_bans_workspace_dependencies_include_path_dependencies() -> spec_fn(DenyTomlRequirements) -> Option<ScalarAssertion<bool>> {
    |q: DenyTomlRequirements| q.bans_workspace_dependencies_include_path_dependencies
}

/// Every policy's assertion of `bans.workspace-dependencies.include-path-dependencies`.
pub open spec fn col_bans_workspace_dependencies_include_path_dependencies(reqs: Seq<(Provenance, DenyTomlRequirements)>) -> Seq<(Provenance, ScalarAssertion<bool>)> {
    column(reqs, field_bans_workspace_dependencies_include_path_dependencies())
}

/// The `bans_workspace_dependencies_unused` of a policy's requirements.
pub open spec fn field_bans_workspace_dependencies_unused() -> spec_fn(DenyTomlRequirements) -> Option<ScalarAssertion<DenyLintLevel>> {
    |q: DenyTomlRequirements| q.bans_workspace_dependencies_unused
}

/// Every policy's assertion of `bans.workspace-dependencies.unused`.
pub open spec fn col_bans_workspace_dependencies_unused(reqs: Seq<(Provenance, DenyTomlRequirements)>) -> Seq<(Provenance, ScalarAssertion<DenyLintLevel>)> {
    column(reqs, field_bans_workspace_dependencies_unused())
}

/// The `bans_build_executables` of a policy's requirements.
pub open spec fn field_bans_build_executables() -> spec_fn(DenyTomlRequirements) -> Option<ScalarAssertion<DenyLintLevel>> {
    |q: DenyTomlRequirements| q.bans_build_executables
}

/// Every policy's assertion of `bans.build.executables`.
pub open spec fn col_bans_build_executables(reqs: Seq<(Provenance, DenyTomlRequirements)>) -> Seq<(Provenance, ScalarAssertion<DenyLintLevel>)> {
    column(reqs, field_bans_build_executables())
}

/// The `bans_build_interpreted` of a policy's requirements.
pub open spec fn field_bans_build_interpreted() -> spec_fn(DenyTomlRequirements) -> Option<ScalarAssertion<DenyLintLevel>> {
    |q: DenyTomlRequirements| q.bans_build_interpreted
}

/// Every policy's assertion of `bans.build.interpreted`.
pub open spec fn col_bans_build_interpreted(reqs: Seq<(Provenance, DenyTomlRequirements)>) -> Seq<(Provenance, ScalarAssertion<DenyLintLevel>)> {
    column(reqs, field_bans_build_interpreted())
}

/// The `bans_build_script_extensions` of a policy's requirements.
pub open spec fn field_bans_build_script_extensions() -> spec_fn(DenyTomlRequirements) -> ListRequirements {
    |q: DenyTomlRequirements| q.bans_build_script_extensions
}

/// Every policy's requirements of the list `bans.build.script-extensions`.
pub open spec fn col_bans_build_script_extensions(reqs: Seq<(Provenance, DenyTomlRequirements)>) -> Seq<(Provenance, ListRequirements)> {
    full_column(reqs, field_bans_build_script_extensions())
}

/// The `bans_build_enable_builtin_globs` of a policy's requirements.
pub open spec fn field_bans_build_enable_builtin_globs() -> spec_fn(DenyTomlRequirements) -> Option<ScalarAssertion<bool>> {
    |q: DenyTomlRequirements| q.bans_build_enable_builtin_globs
}

/// Every policy's assertion of `bans.build.enable-builtin-globs`.
pub open spec fn col_bans_build_enable_builtin_globs(reqs: Seq<(Provenance, DenyTomlRequirements)>) -> Seq<(Provenance, ScalarAssertion<bool>)> {
    column(reqs, field_bans_build_enable_builtin_globs())
}

/// The `bans_build_globs` of a policy's requirements.
pub open spec fn field_bans_build_globs() -> spec_fn(DenyTomlRequirements) -> ItemRequirements<DenyBuildGlobSpec> {
    |q: DenyTomlRequirements| q.bans_build_globs
}

/// Every policy's required entries of `bans.build.globs`.
pub open spec fn col_bans_build_globs(reqs: Seq<(Provenance, DenyTomlRequirements)>) -> Seq<(Provenance, ItemRequirements<DenyBuildGlobSpec>)> {
    full_column(reqs, field_bans_build_globs())
}

/// The `bans_build_include_dependencies` of a policy's requirements.
pub open spec fn field_bans_build_include_dependencies() -> spec_fn(DenyTomlRequirements) -> Option<ScalarAssertion<bool>> {
    |q: DenyTomlRequirements| q.bans_build_include_dependencies
}

/// Every policy's assertion of `bans.build.include-dependencies`.
pub open spec fn col_bans_build_include_dependencies(reqs: Seq<(Provenance, DenyTomlRequirements)>) -> Seq<(Provenance, ScalarAssertion<bool>)> {
    column(reqs, field_bans_build_include_dependencies())
}

/// The `bans_build_include_workspace` of a policy's requirements.
pub open spec fn field_bans_build_include_workspace() -> spec_fn(DenyTomlRequirements) -> Option<ScalarAssertion<bool>> {
    |q: DenyTomlRequirements| q.bans_build_include_workspace
}

/// Every policy's assertion of `bans.build.include-workspace`.
pub open spec fn col_bans_build_include_workspace(reqs: Seq<(Provenance, DenyTomlRequirements)>) -> Seq<(Provenance, ScalarAssertion<bool>)> {
    column(reqs, field_bans_build_include_workspace())
}

/// The `bans_build_include_archives` of a policy's requirements.
pub open spec fn field_bans_build_include_archives() -> spec_fn(DenyTomlRequirements) -> Option<ScalarAssertion<bool>> {
    |q: DenyTomlRequirements| q.bans_build_include_archives
}

/// Every policy's assertion of `bans.build.include-archives`.
pub open spec fn col_bans_build_include_archives(reqs: Seq<(Provenance, DenyTomlRequirements)>) -> Seq<(Provenance, ScalarAssertion<bool>)> {
    column(reqs, field_bans_build_include_archives())
}

/// The `sources_unknown_registry` of a policy's requirements.
pub open spec fn field_sources_unknown_registry() -> spec_fn(DenyTomlRequirements) -> Option<ScalarAssertion<DenyLintLevel>> {
    |q: DenyTomlRequirements| q.sources_unknown_registry
}

/// Every policy's assertion of `sources.unknown-registry`.
pub open spec fn col_sources_unknown_registry(reqs: Seq<(Provenance, DenyTomlRequirements)>) -> Seq<(Provenance, ScalarAssertion<DenyLintLevel>)> {
    column(reqs, field_sources_unknown_registry())
}

/// The `sources_unknown_git` of a policy's requirements.
pub open spec fn field_sources_unknown_git() -> spec_fn(DenyTomlRequirements) -> Option<ScalarAssertion<DenyLintLevel>> {
    |q: DenyTomlRequirements| q.sources_unknown_git
}

/// Every policy's assertion of `sources.unknown-git`.
pub open spec fn col_sources_unknown_git(reqs: Seq<(Provenance, DenyTomlRequirements)>) -> Seq<(Provenance, ScalarAssertion<DenyLintLevel>)> {
    column(reqs, field_sources_unknown_git())
}

/// The `sources_required_git_spec` of a policy's requirements.
pub open spec fn field_sources_required_git_spec() -> spec_fn(DenyTomlRequirements) -> Option<ScalarAssertion<DenyGitSpec>> {
    |q: DenyTomlRequirements| q.sources_required_git_spec
}

/// Every policy's assertion of `sources.required-git-spec`.
pub open spec fn col_sources_required_git_spec(reqs: Seq<(Provenance, DenyTomlRequirements)>) -> Seq<(Provenance, ScalarAssertion<DenyGitSpec>)> {
    column(reqs, field_sources_required_git_spec())
}

/// The `sources_allow_git` of a policy's requirements.
pub open spec fn field_sources_allow_git() -> spec_fn(DenyTomlRequirements) -> ListRequirements {
    |q: DenyTomlRequirements| q.sources_allow_git
}

/// Every policy's requirements of the list `sources.allow-git`.
pub open spec fn col_sources_allow_git(reqs: Seq<(Provenance, DenyTomlRequirements)>) -> Seq<(Provenance, ListRequirements)> {
    full_column(reqs, field_sources_allow_git())
}

/// The `sources_private` of a policy's requirements.
pub open spec fn field_sources_private() -> spec_fn(DenyTomlRequirements) -> ListRequirements {
    |q: DenyTomlRequirements| q.sources_private
}

/// Every policy's requirements of the list `sources.private`.
pub open spec fn col_sources_private(reqs: Seq<(Provenance, DenyTomlRequirements)>) -> Seq<(Provenance, ListRequirements)> {
    full_column(reqs, field_sources_private())
}

/// The `sources_allow_registry` of a policy's requirements.
pub open spec fn field_sources_allow_registry() -> spec_fn(DenyTomlRequirements) -> ListRequirements {
    |q: DenyTomlRequirements| q.sources_allow_registry
}

/// Every policy's requirements of the list `sources.allow-registry`.
pub open spec fn col_sources_allow_registry(reqs: Seq<(Provenance, DenyTomlRequirements)>) -> Seq<(Provenance, ListRequirements)> {
    full_column(reqs, field_sources_allow_registry())
}

/// The `sources_allow_org_github` of a policy's requirements.
pub open spec fn field_sources_allow_org_github() -> spec_fn(DenyTomlRequirements) -> ListRequirements {
    |q: DenyTomlRequirements| q.sources_allow_org_github
}

/// Every policy's requirements of the list `sources.allow-org.github`.
pub open spec fn col_sources_allow_org_github(reqs: Seq<(Provenance, DenyTomlRequirements)>) -> Seq<(Provenance, ListRequirements)> {
    full_column(reqs, field_sources_allow_org_github())
}

/// The `sources_allow_org_gitlab` of a policy's requirements.
pub open spec fn field_sources_allow_org_gitlab() -> spec_fn(DenyTomlRequirements) -> ListRequirements {
    |q: DenyTomlRequirements| q.sources_allow_org_gitlab
}

/// Every policy's requirements of the list `sources.allow-org.gitlab`.
pub open spec fn col_sources_allow_org_gitlab(reqs: Seq<(Provenance, DenyTomlRequirements)>) -> Seq<(Provenance, ListRequirements)> {
    full_column(reqs, field_sources_allow_org_gitlab())
}

/// The `sources_allow_org_bitbucket` of a policy's requirements.
pub open spec fn field_sources_allow_org_bitbucket() -> spec_fn(DenyTomlRequirements) -> ListRequirements {
    |q: DenyTomlRequirements| q.sources_allow_org_bitbucket
}

/// Every policy's requirements of the list `sources.allow-org.bitbucket`.
pub open spec fn col_sources_allow_org_bitbucket(reqs: Seq<(Provenance, DenyTomlRequirements)>) -> Seq<(Provenance, ListRequirements)> {
    full_column(reqs, field_sources_allow_org_bitbucket())
}

/// The `sources_unused_allowed_source` of a policy's requirements.
pub open spec fn field_sources_unused_allowed_source() -> spec_fn(DenyTomlRequirements) -> Option<ScalarAssertion<DenyLintLevel>> {
    |q: DenyTomlRequirements| q.sources_unused_allowed_source
}

/// Every policy's assertion of `sources.unused-allowed-source`.
pub open spec fn col_sources_unused_allowed_source(reqs: Seq<(Provenance, DenyTomlRequirements)>) -> Seq<(Provenance, ScalarAssertion<DenyLintLevel>)> {
    column(reqs, field_sources_unused_allowed_source())
}

/// The `closed_settings` of a policy's requirements.
pub open spec fn field_closed_settings() -> spec_fn(DenyTomlRequirements) -> Option<String> {
    |q: DenyTomlRequirements| q.closed_settings
}

/// Every policy that closes the file, with its message.
pub open spec fn col_closed_settings(reqs: Seq<(Provenance, DenyTomlRequirements)>) -> Seq<(Provenance, String)> {
    column(reqs, field_closed_settings())
}

struct Part0 {
    graph_targets: ItemRequirements<DenyGraphTargetSpec>,
    graph_exclude: ListRequirements,
    graph_exclude_dev: Option<ScalarAssertion<bool>>,
    graph_exclude_unpublished: Option<ScalarAssertion<bool>>,
    graph_all_features: Option<ScalarAssertion<bool>>,
    graph_no_default_features: Option<ScalarAssertion<bool>>,
}

spec fn part0_part(q: DenyTomlRequirements) -> Part0 {
    Part0 {
        graph_targets: q.graph_targets,
        graph_exclude: q.graph_exclude,
        graph_exclude_dev: q.graph_exclude_dev,
        graph_exclude_unpublished: q.graph_exclude_unpublished,
        graph_all_features: q.graph_all_features,
        graph_no_default_features: q.graph_no_default_features,
    }
}

spec fn to_part0() -> spec_fn(DenyTomlRequirements) -> Part0 {
    |q: DenyTomlRequirements| part0_part(q)
}

spec fn part_graph_targets() -> spec_fn(Part0) -> ItemRequirements<DenyGraphTargetSpec> {
    |p: Part0| p.graph_targets
}

spec fn part_graph_exclude() -> spec_fn(Part0) -> ListRequirements {
    |p: Part0| p.graph_exclude
}

spec fn part_graph_exclude_dev() -> spec_fn(Part0) -> Option<ScalarAssertion<bool>> {
    |p: Part0| p.graph_exclude_dev
}

spec fn part_graph_exclude_unpublished() -> spec_fn(Part0) -> Option<ScalarAssertion<bool>> {
    |p: Part0| p.graph_exclude_unpublished
}

spec fn part_graph_all_features() -> spec_fn(Part0) -> Option<ScalarAssertion<bool>> {
    |p: Part0| p.graph_all_features
}

spec fn part_graph_no_default_features() -> spec_fn(Part0) -> Option<ScalarAssertion<bool>> {
    |p: Part0| p.graph_no_default_features
}

struct Part0Columns {
    graph_targets: Vec<(Provenance, ItemRequirements<DenyGraphTargetSpec>)>,
    graph_exclude: Vec<(Provenance, ListRequirements)>,
    graph_exclude_dev: Vec<(Provenance, ScalarAssertion<bool>)>,
    graph_exclude_unpublished: Vec<(Provenance, ScalarAssertion<bool>)>,
    graph_all_features: Vec<(Provenance, ScalarAssertion<bool>)>,
    graph_no_default_features: Vec<(Provenance, ScalarAssertion<bool>)>,
}

fn gather_part0(parts: Vec<(Provenance, Part0)>) -> (c: Part0Columns)
    ensures
        c.graph_targets@ == full_column(parts@, part_graph_targets()),
        c.graph_exclude@ == full_column(parts@, part_graph_exclude()),
        c.graph_exclude_dev@ == column(parts@, part_graph_exclude_dev()),
        c.graph_exclude_unpublished@ == column(parts@, part_graph_exclude_unpublished()),
        c.graph_all_features@ == column(parts@, part_graph_all_features()),
        c.graph_no_default_features@ == column(parts@, part_graph_no_default_features()),
{
    let ghost all = parts@;
    let mut c = Part0Columns {
        graph_targets: Vec::new(),
        graph_exclude: Vec::new(),
        graph_exclude_dev: Vec::new(),
        graph_exclude_unpublished: Vec::new(),
        graph_all_features: Vec::new(),
        graph_no_default_features: Vec::new(),
    };
    let mut rest = parts;
    assert(c.graph_targets@ + full_column(rest@, part_graph_targets()) =~= full_column(all, part_graph_targets()));
    assert(c.graph_exclude@ + full_column(rest@, part_graph_exclude()) =~= full_column(all, part_graph_exclude()));
    assert(c.graph_exclude_dev@ + column(rest@, part_graph_exclude_dev()) =~= column(all, part_graph_exclude_dev()));
    assert(c.graph_exclude_unpublished@ + column(rest@, part_graph_exclude_unpublished()) =~= column(all, part_graph_exclude_unpublished()));
    assert(c.graph_all_features@ + column(rest@, part_graph_all_features()) =~= column(all, part_graph_all_features()));
    assert(c.graph_no_default_features@ + column(rest@, part_graph_no_default_features()) =~= column(all, part_graph_no_default_features()));
    while rest.len() > 0
        invariant
            c.graph_targets@ + full_column(rest@, part_graph_targets()) == full_column(all, part_graph_targets()),
            c.graph_exclude@ + full_column(rest@, part_graph_exclude()) == full_column(all, part_graph_exclude()),
            c.graph_exclude_dev@ + column(rest@, part_graph_exclude_dev()) == column(all, part_graph_exclude_dev()),
            c.graph_exclude_unpublished@ + column(rest@, part_graph_exclude_unpublished()) == column(all, part_graph_exclude_unpublished()),
            c.graph_all_features@ + column(rest@, part_graph_all_features()) == column(all, part_graph_all_features()),
            c.graph_no_default_features@ + column(rest@, part_graph_no_default_features()) == column(all, part_graph_no_default_features()),
        decreases rest.len(),
    {
        let ghost before = rest@;
        let ghost old_c = c;
        let (prov, part) = rest.remove(0);
        assert(rest@ =~= before.drop_first());
        let Part0 {
            graph_targets,
            graph_exclude,
            graph_exclude_dev,
            graph_exclude_unpublished,
            graph_all_features,
            graph_no_default_features,
        } = part;
        c.graph_targets.push((prov.clone(), graph_targets));
        c.graph_exclude.push((prov.clone(), graph_exclude));
        if let Some(x) = graph_exclude_dev {
            c.graph_exclude_dev.push((prov.clone(), x));
        }
        if let Some(x) = graph_exclude_unpublished {
            c.graph_exclude_unpublished.push((prov.clone(), x));
        }
        if let Some(x) = graph_all_features {
            c.graph_all_features.push((prov.clone(), x));
        }
        if let Some(x) = graph_no_default_features {
            c.graph_no_default_features.push((prov.clone(), x));
        }
        proof {
            crate::columns::lemma_full_column_front(before, part_graph_targets());
            assert(c.graph_targets@ + full_column(rest@, part_graph_targets()) =~= old_c.graph_targets@ + full_column(before, part_graph_targets()));
            crate::columns::lemma_full_column_front(before, part_graph_exclude());
            assert(c.graph_exclude@ + full_column(rest@, part_graph_exclude()) =~= old_c.graph_exclude@ + full_column(before, part_graph_exclude()));
            crate::columns::lemma_column_front(before, part_graph_exclude_dev());
            assert(c.graph_exclude_dev@ + column(rest@, part_graph_exclude_dev()) =~= old_c.graph_exclude_dev@ + column(before, part_graph_exclude_dev()));
            crate::columns::lemma_column_front(before, part_graph_exclude_unpublished());
            assert(c.graph_exclude_unpublished@ + column(rest@, part_graph_exclude_unpublished()) =~= old_c.graph_exclude_unpublished@ + column(before, part_graph_exclude_unpublished()));
            crate::columns::lemma_column_front(before, part_graph_all_features());
            assert(c.graph_all_features@ + column(rest@, part_graph_all_features()) =~= old_c.graph_all_features@ + column(before, part_graph_all_features()));
            crate::columns::lemma_column_front(before, part_graph_no_default_features());
            assert(c.graph_no_default_features@ + column(rest@, part_graph_no_default_features()) =~= old_c.graph_no_default_features@ + column(before, part_graph_no_default_features()));
        }
    }
    c
}

struct Part1 {
    graph_features: ListRequirements,
    output_feature_depth: Option<ScalarAssertion<u64>>,
    advisories_version: Option<ScalarAssertion<u64>>,
    advisories_db_path: Option<ScalarAssertion<DenyNonEmptyString>>,
    advisories_db_urls: ListRequirements,
    advisories_yanked: Option<ScalarAssertion<DenyLintLevel>>,
}

spec fn part1_part(q: DenyTomlRequirements) -> Part1 {
    Part1 {
        graph_features: q.graph_features,
        output_feature_depth: q.output_feature_depth,
        advisories_version: q.advisories_version,
        advisories_db_path: q.advisories_db_path,
        advisories_db_urls: q.advisories_db_urls,
        advisories_yanked: q.advisories_yanked,
    }
}

spec fn to_part1() -> spec_fn(DenyTomlRequirements) -> Part1 {
    |q: DenyTomlRequirements| part1_part(q)
}

spec fn part_graph_features() -> spec_fn(Part1) -> ListRequirements {
    |p: Part1| p.graph_features
}

spec fn part_output_feature_depth() -> spec_fn(Part1) -> Option<ScalarAssertion<u64>> {
    |p: Part1| p.output_feature_depth
}

spec fn part_advisories_version() -> spec_fn(Part1) -> Option<ScalarAssertion<u64>> {
    |p: Part1| p.advisories_version
}

spec fn part_advisories_db_path() -> spec_fn(Part1) -> Option<ScalarAssertion<DenyNonEmptyString>> {
    |p: Part1| p.advisories_db_path
}

spec fn part_advisories_db_urls() -> spec_fn(Part1) -> ListRequirements {
    |p: Part1| p.advisories_db_urls
}

spec fn part_advisories_yanked() -> spec_fn(Part1) -> Option<ScalarAssertion<DenyLintLevel>> {
    |p: Part1| p.advisories_yanked
}

struct Part1Columns {
    graph_features: Vec<(Provenance, ListRequirements)>,
    output_feature_depth: Vec<(Provenance, ScalarAssertion<u64>)>,
    advisories_version: Vec<(Provenance, ScalarAssertion<u64>)>,
    advisories_db_path: Vec<(Provenance, ScalarAssertion<DenyNonEmptyString>)>,
    advisories_db_urls: Vec<(Provenance, ListRequirements)>,
    advisories_yanked: Vec<(Provenance, ScalarAssertion<DenyLintLevel>)>,
}

fn gather_part1(parts: Vec<(Provenance, Part1)>) -> (c: Part1Columns)
    ensures
        c.graph_features@ == full_column(parts@, part_graph_features()),
        c.output_feature_depth@ == column(parts@, part_output_feature_depth()),
        c.advisories_version@ == column(parts@, part_advisories_version()),
        c.advisories_db_path@ == column(parts@, part_advisories_db_path()),
        c.advisories_db_urls@ == full_column(parts@, part_advisories_db_urls()),
        c.advisories_yanked@ == column(parts@, part_advisories_yanked()),
{
    let ghost all = parts@;
    let mut c = Part1Columns {
        graph_features: Vec::new(),
        output_feature_depth: Vec::new(),
        advisories_version: Vec::new(),
        advisories_db_path: Vec::new(),
        advisories_db_urls: Vec::new(),
        advisories_yanked: Vec::new(),
    };
    let mut rest = parts;
    assert(c.graph_features@ + full_column(rest@, part_graph_features()) =~= full_column(all, part_graph_features()));
    assert(c.output_feature_depth@ + column(rest@, part_output_feature_depth()) =~= column(all, part_output_feature_depth()));
    assert(c.advisories_version@ + column(rest@, part_advisories_version()) =~= column(all, part_advisories_version()));
    assert(c.advisories_db_path@ + column(rest@, part_advisories_db_path()) =~= column(all, part_advisories_db_path()));
    assert(c.advisories_db_urls@ + full_column(rest@, part_advisories_db_urls()) =~= full_column(all, part_advisories_db_urls()));
    assert(c.advisories_yanked@ + column(rest@, part_advisories_yanked()) =~= column(all, part_advisories_yanked()));
    while rest.len() > 0
        invariant
            c.graph_features@ + full_column(rest@, part_graph_features()) == full_column(all, part_graph_features()),
            c.output_feature_depth@ + column(rest@, part_output_feature_depth()) == column(all, part_output_feature_depth()),
            c.advisories_version@ + column(rest@, part_advisories_version()) == column(all, part_advisories_version()),
            c.advisories_db_path@ + column(rest@, part_advisories_db_path()) == column(all, part_advisories_db_path()),
            c.advisories_db_urls@ + full_column(rest@, part_advisories_db_urls()) == full_column(all, part_advisories_db_urls()),
            c.advisories_yanked@ + column(rest@, part_advisories_yanked()) == column(all, part_advisories_yanked()),
        decreases rest.len(),
    {
        let ghost before = rest@;
        let ghost old_c = c;
        let (prov, part) = rest.remove(0);
        assert(rest@ =~= before.drop_first());
        let Part1 {
            graph_features,
            output_feature_depth,
            advisories_version,
            advisories_db_path,
            advisories_db_urls,
            advisories_yanked,
        } = part;
        c.graph_features.push((prov.clone(), graph_features));
        if let Some(x) = output_feature_depth {
            c.output_feature_depth.push((prov.clone(), x));
        }
        if let Some(x) = advisories_version {
            c.advisories_version.push((prov.clone(), x));
        }
        if let Some(x) = advisories_db_path {
            c.advisories_db_path.push((prov.clone(), x));
        }
        c.advisories_db_urls.push((prov.clone(), advisories_db_urls));
        if let Some(x) = advisories_yanked {
            c.advisories_yanked.push((prov.clone(), x));
        }
        proof {
            crate::columns::lemma_full_column_front(before, part_graph_features());
            assert(c.graph_features@ + full_column(rest@, part_graph_features()) =~= old_c.graph_features@ + full_column(before, part_graph_features()));
            crate::columns::lemma_column_front(before, part_output_feature_depth());
            assert(c.output_feature_depth@ + column(rest@, part_output_feature_depth()) =~= old_c.output_feature_depth@ + column(before, part_output_feature_depth()));
            crate::columns::lemma_column_front(before, part_advisories_version());
            assert(c.advisories_version@ + column(rest@, part_advisories_version()) =~= old_c.advisories_version@ + column(before, part_advisories_version()));
            crate::columns::lemma_column_front(before, part_advisories_db_path());
            assert(c.advisories_db_path@ + column(rest@, part_advisories_db_path()) =~= old_c.advisories_db_path@ + column(before, part_advisories_db_path()));
            crate::columns::lemma_full_column_front(before, part_advisories_db_urls());
            assert(c.advisories_db_urls@ + full_column(rest@, part_advisories_db_urls()) =~= old_c.advisories_db_urls@ + full_column(before, part_advisories_db_urls()));
            crate::columns::lemma_column_front(before, part_advisories_yanked());
            assert(c.advisories_yanked@ + column(rest@, part_advisories_yanked()) =~= old_c.advisories_yanked@ + column(before, part_advisories_yanked()));
        }
    }
    c
}

struct Part2 {
    advisories_disable_yank_checking: Option<ScalarAssertion<bool>>,
    advisories_ignore: ItemRequirements<DenyAdvisoryIgnoreSpec>,
    advisories_unmaintained: Option<ScalarAssertion<DenyAdvisoryScope>>,
    advisories_unsound: Option<ScalarAssertion<DenyAdvisoryScope>>,
    advisories_maximum_db_staleness: Option<ScalarAssertion<DenyDuration>>,
    advisories_git_fetch_with_cli: Option<ScalarAssertion<bool>>,
}

spec fn part2_part(q: DenyTomlRequirements) -> Part2 {
    Part2 {
        advisories_disable_yank_checking: q.advisories_disable_yank_checking,
        advisories_ignore: q.advisories_ignore,
        advisories_unmaintained: q.advisories_unmaintained,
        advisories_unsound: q.advisories_unsound,
        advisories_maximum_db_staleness: q.advisories_maximum_db_staleness,
        advisories_git_fetch_with_cli: q.advisories_git_fetch_with_cli,
    }
}

spec fn to_part2() -> spec_fn(DenyTomlRequirements) -> Part2 {
    |q: DenyTomlRequirements| part2_part(q)
}

spec fn part_advisories_disable_yank_checking() -> spec_fn(Part2) -> Option<ScalarAssertion<bool>> {
    |p: Part2| p.advisories_disable_yank_checking
}

spec fn part_advisories_ignore() -> spec_fn(Part2) -> ItemRequirements<DenyAdvisoryIgnoreSpec> {
    |p: Part2| p.advisories_ignore
}

spec fn part_advisories_unmaintained() -> spec_fn(Part2) -> Option<ScalarAssertion<DenyAdvisoryScope>> {
    |p: Part2| p.advisories_unmaintained
}

spec fn part_advisories_unsound() -> spec_fn(Part2) -> Option<ScalarAssertion<DenyAdvisoryScope>> {
    |p: Part2| p.advisories_unsound
}

spec fn part_advisories_maximum_db_staleness() -> spec_fn(Part2) -> Option<ScalarAssertion<DenyDuration>> {
    |p: Part2| p.advisories_maximum_db_staleness
}

spec fn part_advisories_git_fetch_with_cli() -> spec_fn(Part2) -> Option<ScalarAssertion<bool>> {
    |p: Part2| p.advisories_git_fetch_with_cli
}

struct Part2Columns {
    advisories_disable_yank_checking: Vec<(Provenance, ScalarAssertion<bool>)>,
    advisories_ignore: Vec<(Provenance, ItemRequirements<DenyAdvisoryIgnoreSpec>)>,
    advisories_unmaintained: Vec<(Provenance, ScalarAssertion<DenyAdvisoryScope>)>,
    advisories_unsound: Vec<(Provenance, ScalarAssertion<DenyAdvisoryScope>)>,
    advisories_maximum_db_staleness: Vec<(Provenance, ScalarAssertion<DenyDuration>)>,
    advisories_git_fetch_with_cli: Vec<(Provenance, ScalarAssertion<bool>)>,
}

fn gather_part2(parts: Vec<(Provenance, Part2)>) -> (c: Part2Columns)
    ensures
        c.advisories_disable_yank_checking@ == column(parts@, part_advisories_disable_yank_checking()),
        c.advisories_ignore@ == full_column(parts@, part_advisories_ignore()),
        c.advisories_unmaintained@ == column(parts@, part_advisories_unmaintained()),
        c.advisories_unsound@ == column(parts@, part_advisories_unsound()),
        c.advisories_maximum_db_staleness@ == column(parts@, part_advisories_maximum_db_staleness()),
        c.advisories_git_fetch_with_cli@ == column(parts@, part_advisories_git_fetch_with_cli()),
{
    let ghost all = parts@;
    let mut c = Part2Columns {
        advisories_disable_yank_checking: Vec::new(),
        advisories_ignore: Vec::new(),
        advisories_unmaintained: Vec::new(),
        advisories_unsound: Vec::new(),
        advisories_maximum_db_staleness: Vec::new(),
        advisories_git_fetch_with_cli: Vec::new(),
    };
    let mut rest = parts;
    assert(c.advisories_disable_yank_checking@ + column(rest@, part_advisories_disable_yank_checking()) =~= column(all, part_advisories_disable_yank_checking()));
    assert(c.advisories_ignore@ + full_column(rest@, part_advisories_ignore()) =~= full_column(all, part_advisories_ignore()));
    assert(c.advisories_unmaintained@ + column(rest@, part_advisories_unmaintained()) =~= column(all, part_advisories_unmaintained()));
    assert(c.advisories_unsound@ + column(rest@, part_advisories_unsound()) =~= column(all, part_advisories_unsound()));
    assert(c.advisories_maximum_db_staleness@ + column(rest@, part_advisories_maximum_db_staleness()) =~= column(all, part_advisories_maximum_db_staleness()));
    assert(c.advisories_git_fetch_with_cli@ + column(rest@, part_advisories_git_fetch_with_cli()) =~= column(all, part_advisories_git_fetch_with_cli()));
    while rest.len() > 0
        invariant
            c.advisories_disable_yank_checking@ + column(rest@, part_advisories_disable_yank_checking()) == column(all, part_advisories_disable_yank_checking()),
            c.advisories_ignore@ + full_column(rest@, part_advisories_ignore()) == full_column(all, part_advisories_ignore()),
            c.advisories_unmaintained@ + column(rest@, part_advisories_unmaintained()) == column(all, part_advisories_unmaintained()),
            c.advisories_unsound@ + column(rest@, part_advisories_unsound()) == column(all, part_advisories_unsound()),
            c.advisories_maximum_db_staleness@ + column(rest@, part_advisories_maximum_db_staleness()) == column(all, part_advisories_maximum_db_staleness()),
            c.advisories_git_fetch_with_cli@ + column(rest@, part_advisories_git_fetch_with_cli()) == column(all, part_advisories_git_fetch_with_cli()),
        decreases rest.len(),
    {
        let ghost before = rest@;
        let ghost old_c = c;
        let (prov, part) = rest.remove(0);
        assert(rest@ =~= before.drop_first());
        let Part2 {
            advisories_disable_yank_checking,
            advisories_ignore,
            advisories_unmaintained,
            advisories_unsound,
            advisories_maximum_db_staleness,
            advisories_git_fetch_with_cli,
        } = part;
        if let Some(x) = advisories_disable_yank_checking {
            c.advisories_disable_yank_checking.push((prov.clone(), x));
        }
        c.advisories_ignore.push((prov.clone(), advisories_ignore));
        if let Some(x) = advisories_unmaintained {
            c.advisories_unmaintained.push((prov.clone(), x));
        }
        if let Some(x) = advisories_unsound {
            c.advisories_unsound.push((prov.clone(), x));
        }
        if let Some(x) = advisories_maximum_db_staleness {
            c.advisories_maximum_db_staleness.push((prov.clone(), x));
        }
        if let Some(x) = advisories_git_fetch_with_cli {
            c.advisories_git_fetch_with_cli.push((prov.clone(), x));
        }
        proof {
            crate::columns::lemma_column_front(before, part_advisories_disable_yank_checking());
            assert(c.advisories_disable_yank_checking@ + column(rest@, part_advisories_disable_yank_checking()) =~= old_c.advisories_disable_yank_checking@ + column(before, part_advisories_disable_yank_checking()));
            crate::columns::lemma_full_column_front(before, part_advisories_ignore());
            assert(c.advisories_ignore@ + full_column(rest@, part_advisories_ignore()) =~= old_c.advisories_ignore@ + full_column(before, part_advisories_ignore()));
            crate::columns::lemma_column_front(before, part_advisories_unmaintained());
            assert(c.advisories_unmaintained@ + column(rest@, part_advisories_unmaintained()) =~= old_c.advisories_unmaintained@ + column(before, part_advisories_unmaintained()));
            crate::columns::lemma_column_front(before, part_advisories_unsound());
            assert(c.advisories_unsound@ + column(rest@, part_advisories_unsound()) =~= old_c.advisories_unsound@ + column(before, part_advisories_unsound()));
            crate::columns::lemma_column_front(before, part_advisories_maximum_db_staleness());
            assert(c.advisories_maximum_db_staleness@ + column(rest@, part_advisories_maximum_db_staleness()) =~= old_c.advisories_maximum_db_staleness@ + column(before, part_advisories_maximum_db_staleness()));
            crate::columns::lemma_column_front(before, part_advisories_git_fetch_with_cli());
            assert(c.advisories_git_fetch_with_cli@ + column(rest@, part_advisories_git_fetch_with_cli()) =~= old_c.advisories_git_fetch_with_cli@ + column(before, part_advisories_git_fetch_with_cli()));
        }
    }
    c
}

struct Part3 {
    advisories_unused_ignored_advisory: Option<ScalarAssertion<DenyLintLevel>>,
    licenses_version: Option<ScalarAssertion<u64>>,
    licenses_include_dev: Option<ScalarAssertion<bool>>,
    licenses_include_build: Option<ScalarAssertion<bool>>,
    licenses_allow: ListRequirements,
    licenses_exceptions: ItemRequirements<DenyLicenseException>,
}

spec fn part3_part(q: DenyTomlRequirements) -> Part3 {
    Part3 {
        advisories_unused_ignored_advisory: q.advisories_unused_ignored_advisory,
        licenses_version: q.licenses_version,
        licenses_include_dev: q.licenses_include_dev,
        licenses_include_build: q.licenses_include_build,
        licenses_allow: q.licenses_allow,
        licenses_exceptions: q.licenses_exceptions,
    }
}

spec fn to_part3() -> spec_fn(DenyTomlRequirements) -> Part3 {
    |q: DenyTomlRequirements| part3_part(q)
}

spec fn part_advisories_unused_ignored_advisory() -> spec_fn(Part3) -> Option<ScalarAssertion<DenyLintLevel>> {
    |p: Part3| p.advisories_unused_ignored_advisory
}

spec fn part_licenses_version() -> spec_fn(Part3) -> Option<ScalarAssertion<u64>> {
    |p: Part3| p.licenses_version
}

spec fn part_licenses_include_dev() -> spec_fn(Part3) -> Option<ScalarAssertion<bool>> {
    |p: Part3| p.licenses_include_dev
}

spec fn part_licenses_include_build() -> spec_fn(Part3) -> Option<ScalarAssertion<bool>> {
    |p: Part3| p.licenses_include_build
}

spec fn part_licenses_allow() -> spec_fn(Part3) -> ListRequirements {
    |p: Part3| p.licenses_allow
}

spec fn part_licenses_exceptions() -> spec_fn(Part3) -> ItemRequirements<DenyLicenseException> {
    |p: Part3| p.licenses_exceptions
}

struct Part3Columns {
    advisories_unused_ignored_advisory: Vec<(Provenance, ScalarAssertion<DenyLintLevel>)>,
    licenses_version: Vec<(Provenance, ScalarAssertion<u64>)>,
    licenses_include_dev: Vec<(Provenance, ScalarAssertion<bool>)>,
    licenses_include_build: Vec<(Provenance, ScalarAssertion<bool>)>,
    licenses_allow: Vec<(Provenance, ListRequirements)>,
    licenses_exceptions: Vec<(Provenance, ItemRequirements<DenyLicenseException>)>,
}

fn gather_part3(parts: Vec<(Provenance, Part3)>) -> (c: Part3Columns)
    ensures
        c.advisories_unused_ignored_advisory@ == column(parts@, part_advisories_unused_ignored_advisory()),
        c.licenses_version@ == column(parts@, part_licenses_version()),
        c.licenses_include_dev@ == column(parts@, part_licenses_include_dev()),
        c.licenses_include_build@ == column(parts@, part_licenses_include_build()),
        c.licenses_allow@ == full_column(parts@, part_licenses_allow()),
        c.licenses_exceptions@ == full_column(parts@, part_licenses_exceptions()),
{
    let ghost all = parts@;
    let mut c = Part3Columns {
        advisories_unused_ignored_advisory: Vec::new(),
        licenses_version: Vec::new(),
        licenses_include_dev: Vec::new(),
        licenses_include_build: Vec::new(),
        licenses_allow: Vec::new(),
        licenses_exceptions: Vec::new(),
    };
    let mut rest = parts;
    assert(c.advisories_unused_ignored_advisory@ + column(rest@, part_advisories_unused_ignored_advisory()) =~= column(all, part_advisories_unused_ignored_advisory()));
    assert(c.licenses_version@ + column(rest@, part_licenses_version()) =~= column(all, part_licenses_version()));
    assert(c.licenses_include_dev@ + column(rest@, part_licenses_include_dev()) =~= column(all, part_licenses_include_dev()));
    assert(c.licenses_include_build@ + column(rest@, part_licenses_include_build()) =~= column(all, part_licenses_include_build()));
    assert(c.licenses_allow@ + full_column(rest@, part_licenses_allow()) =~= full_column(all, part_licenses_allow()));
    assert(c.licenses_exceptions@ + full_column(rest@, part_licenses_exceptions()) =~= full_column(all, part_licenses_exceptions()));
    while rest.len() > 0
        invariant
            c.advisories_unused_ignored_advisory@ + column(rest@, part_advisories_unused_ignored_advisory()) == column(all, part_advisories_unused_ignored_advisory()),
            c.licenses_version@ + column(rest@, part_licenses_version()) == column(all, part_licenses_version()),
            c.licenses_include_dev@ + column(rest@, part_licenses_include_dev()) == column(all, part_licenses_include_dev()),
            c.licenses_include_build@ + column(rest@, part_licenses_include_build()) == column(all, part_licenses_include_build()),
            c.licenses_allow@ + full_column(rest@, part_licenses_allow()) == full_column(all, part_licenses_allow()),
            c.licenses_exceptions@ + full_column(rest@, part_licenses_exceptions()) == full_column(all, part_licenses_exceptions()),
        decreases rest.len(),
    {
        let ghost before = rest@;
        let ghost old_c = c;
        let (prov, part) = rest.remove(0);
        assert(rest@ =~= before.drop_first());
        let Part3 {
            advisories_unused_ignored_advisory,
            licenses_version,
            licenses_include_dev,
            licenses_include_build,
            licenses_allow,
            licenses_exceptions,
        } = part;
        if let Some(x) = advisories_unused_ignored_advisory {
            c.advisories_unused_ignored_advisory.push((prov.clone(), x));
        }
        if let Some(x) = licenses_version {
            c.licenses_version.push((prov.clone(), x));
        }
        if let Some(x) = licenses_include_dev {
            c.licenses_include_dev.push((prov.clone(), x));
        }
        if let Some(x) = licenses_include_build {
            c.licenses_include_build.push((prov.clone(), x));
        }
        c.licenses_allow.push((prov.clone(), licenses_allow));
        c.licenses_exceptions.push((prov.clone(), licenses_exceptions));
        proof {
            crate::columns::lemma_column_front(before, part_advisories_unused_ignored_advisory());
            assert(c.advisories_unused_ignored_advisory@ + column(rest@, part_advisories_unused_ignored_advisory()) =~= old_c.advisories_unused_ignored_advisory@ + column(before, part_advisories_unused_ignored_advisory()));
            crate::columns::lemma_column_front(before, part_licenses_version());
            assert(c.licenses_version@ + column(rest@, part_licenses_version()) =~= old_c.licenses_version@ + column(before, part_licenses_version()));
            crate::columns::lemma_column_front(before, part_licenses_include_dev());
            assert(c.licenses_include_dev@ + column(rest@, part_licenses_include_dev()) =~= old_c.licenses_include_dev@ + column(before, part_licenses_include_dev()));
            crate::columns::lemma_column_front(before, part_licenses_include_build());
            assert(c.licenses_include_build@ + column(rest@, part_licenses_include_build()) =~= old_c.licenses_include_build@ + column(before, part_licenses_include_build()));
            crate::columns::lemma_full_column_front(before, part_licenses_allow());
            assert(c.licenses_allow@ + full_column(rest@, part_licenses_allow()) =~= old_c.licenses_allow@ + full_column(before, part_licenses_allow()));
            crate::columns::lemma_full_column_front(before, part_licenses_exceptions());
            assert(c.licenses_exceptions@ + full_column(rest@, part_licenses_exceptions()) =~= old_c.licenses_exceptions@ + full_column(before, part_licenses_exceptions()));
        }
    }
    c
}

struct Part4 {
    licenses_confidence_threshold: Option<ScalarAssertion<DenyConfidenceThreshold>>,
    licenses_clarify: ItemRequirements<DenyLicenseClarification>,
    licenses_private_ignore: Option<ScalarAssertion<bool>>,
    licenses_private_registries: ListRequirements,
    licenses_private_ignore_sources: ListRequirements,
    licenses_unused_allowed_license: Option<ScalarAssertion<DenyLintLevel>>,
}

spec fn part4_part(q: DenyTomlRequirements) -> Part4 {
    Part4 {
        licenses_confidence_threshold: q.licenses_confidence_threshold,
        licenses_clarify: q.licenses_clarify,
        licenses_private_ignore: q.licenses_private_ignore,
        licenses_private_registries: q.licenses_private_registries,
        licenses_private_ignore_sources: q.licenses_private_ignore_sources,
        licenses_unused_allowed_license: q.licenses_unused_allowed_license,
    }
}

spec fn to_part4() -> spec_fn(DenyTomlRequirements) -> Part4 {
    |q: DenyTomlRequirements| part4_part(q)
}

spec fn part_licenses_confidence_threshold() -> spec_fn(Part4) -> Option<ScalarAssertion<DenyConfidenceThreshold>> {
    |p: Part4| p.licenses_confidence_threshold
}

spec fn part_licenses_clarify() -> spec_fn(Part4) -> ItemRequirements<DenyLicenseClarification> {
    |p: Part4| p.licenses_clarify
}

spec fn part_licenses_private_ignore() -> spec_fn(Part4) -> Option<ScalarAssertion<bool>> {
    |p: Part4| p.licenses_private_ignore
}

spec fn part_licenses_private_registries() -> spec_fn(Part4) -> ListRequirements {
    |p: Part4| p.licenses_private_registries
}

spec fn part_licenses_private_ignore_sources() -> spec_fn(Part4) -> ListRequirements {
    |p: Part4| p.licenses_private_ignore_sources
}

spec fn part_licenses_unused_allowed_license() -> spec_fn(Part4) -> Option<ScalarAssertion<DenyLintLevel>> {
    |p: Part4| p.licenses_unused_allowed_license
}

struct Part4Columns {
    licenses_confidence_threshold: Vec<(Provenance, ScalarAssertion<DenyConfidenceThreshold>)>,
    licenses_clarify: Vec<(Provenance, ItemRequirements<DenyLicenseClarification>)>,
    licenses_private_ignore: Vec<(Provenance, ScalarAssertion<bool>)>,
    licenses_private_registries: Vec<(Provenance, ListRequirements)>,
    licenses_private_ignore_sources: Vec<(Provenance, ListRequirements)>,
    licenses_unused_allowed_license: Vec<(Provenance, ScalarAssertion<DenyLintLevel>)>,
}

fn gather_part4(parts: Vec<(Provenance, Part4)>) -> (c: Part4Columns)
    ensures
        c.licenses_confidence_threshold@ == column(parts@, part_licenses_confidence_threshold()),
        c.licenses_clarify@ == full_column(parts@, part_licenses_clarify()),
        c.licenses_private_ignore@ == column(parts@, part_licenses_private_ignore()),
        c.licenses_private_registries@ == full_column(parts@, part_licenses_private_registries()),
        c.licenses_private_ignore_sources@ == full_column(parts@, part_licenses_private_ignore_sources()),
        c.licenses_unused_allowed_license@ == column(parts@, part_licenses_unused_allowed_license()),
{
    let ghost all = parts@;
    let mut c = Part4Columns {
        licenses_confidence_threshold: Vec::new(),
        licenses_clarify: Vec::new(),
        licenses_private_ignore: Vec::new(),
        licenses_private_registries: Vec::new(),
        licenses_private_ignore_sources: Vec::new(),
        licenses_unused_allowed_license: Vec::new(),
    };
    let mut rest = parts;
    assert(c.licenses_confidence_threshold@ + column(rest@, part_licenses_confidence_threshold()) =~= column(all, part_licenses_confidence_threshold()));
    assert(c.licenses_clarify@ + full_column(rest@, part_licenses_clarify()) =~= full_column(all, part_licenses_clarify()));
    assert(c.licenses_private_ignore@ + column(rest@, part_licenses_private_ignore()) =~= column(all, part_licenses_private_ignore()));
    assert(c.licenses_private_registries@ + full_column(rest@, part_licenses_private_registries()) =~= full_column(all, part_licenses_private_registries()));
    assert(c.licenses_private_ignore_sources@ + full_column(rest@, part_licenses_private_ignore_sources()) =~= full_column(all, part_licenses_private_ignore_sources()));
    assert(c.licenses_unused_allowed_license@ + column(rest@, part_licenses_unused_allowed_license()) =~= column(all, part_licenses_unused_allowed_license()));
    while rest.len() > 0
        invariant
            c.licenses_confidence_threshold@ + column(rest@, part_licenses_confidence_threshold()) == column(all, part_licenses_confidence_threshold()),
            c.licenses_clarify@ + full_column(rest@, part_licenses_clarify()) == full_column(all, part_licenses_clarify()),
            c.licenses_private_ignore@ + column(rest@, part_licenses_private_ignore()) == column(all, part_licenses_private_ignore()),
            c.licenses_private_registries@ + full_column(rest@, part_licenses_private_registries()) == full_column(all, part_licenses_private_registries()),
            c.licenses_private_ignore_sources@ + full_column(rest@, part_licenses_private_ignore_sources()) == full_column(all, part_licenses_private_ignore_sources()),
            c.licenses_unused_allowed_license@ + column(rest@, part_licenses_unused_allowed_license()) == column(all, part_licenses_unused_allowed_license()),
        decreases rest.len(),
    {
        let ghost before = rest@;
        let ghost old_c = c;
        let (prov, part) = rest.remove(0);
        assert(rest@ =~= before.drop_first());
        let Part4 {
            licenses_confidence_threshold,
            licenses_clarify,
            licenses_private_ignore,
            licenses_private_registries,
            licenses_private_ignore_sources,
            licenses_unused_allowed_license,
        } = part;
        if let Some(x) = licenses_confidence_threshold {
            c.licenses_confidence_threshold.push((prov.clone(), x));
        }
        c.licenses_clarify.push((prov.clone(), licenses_clarify));
        if let Some(x) = licenses_private_ignore {
            c.licenses_private_ignore.push((prov.clone(), x));
        }
        c.licenses_private_registries.push((prov.clone(), licenses_private_registries));
        c.licenses_private_ignore_sources.push((prov.clone(), licenses_private_ignore_sources));
        if let Some(x) = licenses_unused_allowed_license {
            c.licenses_unused_allowed_license.push((prov.clone(), x));
        }
        proof {
            crate::columns::lemma_column_front(before, part_licenses_confidence_threshold());
            assert(c.licenses_confidence_threshold@ + column(rest@, part_licenses_confidence_threshold()) =~= old_c.licenses_confidence_threshold@ + column(before, part_licenses_confidence_threshold()));
            crate::columns::lemma_full_column_front(before, part_licenses_clarify());
            assert(c.licenses_clarify@ + full_column(rest@, part_licenses_clarify()) =~= old_c.licenses_clarify@ + full_column(before, part_licenses_clarify()));
            crate::columns::lemma_column_front(before, part_licenses_private_ignore());
            assert(c.licenses_private_ignore@ + column(rest@, part_licenses_private_ignore()) =~= old_c.licenses_private_ignore@ + column(before, part_licenses_private_ignore()));
            crate::columns::lemma_full_column_front(before, part_licenses_private_registries());
            assert(c.licenses_private_registries@ + full_column(rest@, part_licenses_private_registries()) =~= old_c.licenses_private_registries@ + full_column(before, part_licenses_private_registries()));
            crate::columns::lemma_full_column_front(before, part_licenses_private_ignore_sources());
            assert(c.licenses_private_ignore_sources@ + full_column(rest@, part_licenses_private_ignore_sources()) =~= old_c.licenses_private_ignore_sources@ + full_column(before, part_licenses_private_ignore_sources()));
            crate::columns::lemma_column_front(before, part_licenses_unused_allowed_license());
            assert(c.licenses_unused_allowed_license@ + column(rest@, part_licenses_unused_allowed_license()) =~= old_c.licenses_unused_allowed_license@ + column(before, part_licenses_unused_allowed_license()));
        }
    }
    c
}

struct Part5 {
    licenses_unused_license_exception: Option<ScalarAssertion<DenyLintLevel>>,
    bans_multiple_versions: Option<ScalarAssertion<DenyLintLevel>>,
    bans_multiple_versions_include_dev: Option<ScalarAssertion<bool>>,
    bans_wildcards: Option<ScalarAssertion<DenyLintLevel>>,
    bans_allow_wildcard_paths: Option<ScalarAssertion<bool>>,
    bans_highlight: Option<ScalarAssertion<DenyGraphHighlight>>,
}

spec fn part5_part(q: DenyTomlRequirements) -> Part5 {
    Part5 {
        licenses_unused_license_exception: q.licenses_unused_license_exception,
        bans_multiple_versions: q.bans_multiple_versions,
        bans_multiple_versions_include_dev: q.bans_multiple_versions_include_dev,
        bans_wildcards: q.bans_wildcards,
        bans_allow_wildcard_paths: q.bans_allow_wildcard_paths,
        bans_highlight: q.bans_highlight,
    }
}

spec fn to_part5() -> spec_fn(DenyTomlRequirements) -> Part5 {
    |q: DenyTomlRequirements| part5_part(q)
}

spec fn part_licenses_unused_license_exception() -> spec_fn(Part5) -> Option<ScalarAssertion<DenyLintLevel>> {
    |p: Part5| p.licenses_unused_license_exception
}

spec fn part_bans_multiple_versions() -> spec_fn(Part5) -> Option<ScalarAssertion<DenyLintLevel>> {
    |p: Part5| p.bans_multiple_versions
}

spec fn part_bans_multiple_versions_include_dev() -> spec_fn(Part5) -> Option<ScalarAssertion<bool>> {
    |p: Part5| p.bans_multiple_versions_include_dev
}

spec fn part_bans_wildcards() -> spec_fn(Part5) -> Option<ScalarAssertion<DenyLintLevel>> {
    |p: Part5| p.bans_wildcards
}

spec fn part_bans_allow_wildcard_paths() -> spec_fn(Part5) -> Option<ScalarAssertion<bool>> {
    |p: Part5| p.bans_allow_wildcard_paths
}

spec fn part_bans_highlight() -> spec_fn(Part5) -> Option<ScalarAssertion<DenyGraphHighlight>> {
    |p: Part5| p.bans_highlight
}

struct Part5Columns {
    licenses_unused_license_exception: Vec<(Provenance, ScalarAssertion<DenyLintLevel>)>,
    bans_multiple_versions: Vec<(Provenance, ScalarAssertion<DenyLintLevel>)>,
    bans_multiple_versions_include_dev: Vec<(Provenance, ScalarAssertion<bool>)>,
    bans_wildcards: Vec<(Provenance, ScalarAssertion<DenyLintLevel>)>,
    bans_allow_wildcard_paths: Vec<(Provenance, ScalarAssertion<bool>)>,
    bans_highlight: Vec<(Provenance, ScalarAssertion<DenyGraphHighlight>)>,
}

fn gather_part5(parts: Vec<(Provenance, Part5)>) -> (c: Part5Columns)
    ensures
        c.licenses_unused_license_exception@ == column(parts@, part_licenses_unused_license_exception()),
        c.bans_multiple_versions@ == column(parts@, part_bans_multiple_versions()),
        c.bans_multiple_versions_include_dev@ == column(parts@, part_bans_multiple_versions_include_dev()),
        c.bans_wildcards@ == column(parts@, part_bans_wildcards()),
        c.bans_allow_wildcard_paths@ == column(parts@, part_bans_allow_wildcard_paths()),
        c.bans_highlight@ == column(parts@, part_bans_highlight()),
{
    let ghost all = parts@;
    let mut c = Part5Columns {
        licenses_unused_license_exception: Vec::new(),
        bans_multiple_versions: Vec::new(),
        bans_multiple_versions_include_dev: Vec::new(),
        bans_wildcards: Vec::new(),
        bans_allow_wildcard_paths: Vec::new(),
        bans_highlight: Vec::new(),
    };
    let mut rest = parts;
    assert(c.licenses_unused_license_exception@ + column(rest@, part_licenses_unused_license_exception()) =~= column(all, part_licenses_unused_license_exception()));
    assert(c.bans_multiple_versions@ + column(rest@, part_bans_multiple_versions()) =~= column(all, part_bans_multiple_versions()));
    assert(c.bans_multiple_versions_include_dev@ + column(rest@, part_bans_multiple_versions_include_dev()) =~= column(all, part_bans_multiple_versions_include_dev()));
    assert(c.bans_wildcards@ + column(rest@, part_bans_wildcards()) =~= column(all, part_bans_wildcards()));
    assert(c.bans_allow_wildcard_paths@ + column(rest@, part_bans_allow_wildcard_paths()) =~= column(all, part_bans_allow_wildcard_paths()));
    assert(c.bans_highlight@ + column(rest@, part_bans_highlight()) =~= column(all, part_bans_highlight()));
    while rest.len() > 0
        invariant
            c.licenses_unused_license_exception@ + column(rest@, part_licenses_unused_license_exception()) == column(all, part_licenses_unused_license_exception()),
            c.bans_multiple_versions@ + column(rest@, part_bans_multiple_versions()) == column(all, part_bans_multiple_versions()),
            c.bans_multiple_versions_include_dev@ + column(rest@, part_bans_multiple_versions_include_dev()) == column(all, part_bans_multiple_versions_include_dev()),
            c.bans_wildcards@ + column(rest@, part_bans_wildcards()) == column(all, part_bans_wildcards()),
            c.bans_allow_wildcard_paths@ + column(rest@, part_bans_allow_wildcard_paths()) == column(all, part_bans_allow_wildcard_paths()),
            c.bans_highlight@ + column(rest@, part_bans_highlight()) == column(all, part_bans_highlight()),
        decreases rest.len(),
    {
        let ghost before = rest@;
        let ghost old_c = c;
        let (prov, part) = rest.remove(0);
        assert(rest@ =~= before.drop_first());
        let Part5 {
            licenses_unused_license_exception,
            bans_multiple_versions,
            bans_multiple_versions_include_dev,
            bans_wildcards,
            bans_allow_wildcard_paths,
            bans_highlight,
        } = part;
        if let Some(x) = licenses_unused_license_exception {
            c.licenses_unused_license_exception.push((prov.clone(), x));
        }
        if let Some(x) = bans_multiple_versions {
            c.bans_multiple_versions.push((prov.clone(), x));
        }
        if let Some(x) = bans_multiple_versions_include_dev {
            c.bans_multiple_versions_include_dev.push((prov.clone(), x));
        }
        if let Some(x) = bans_wildcards {
            c.bans_wildcards.push((prov.clone(), x));
        }
        if let Some(x) = bans_allow_wildcard_paths {
            c.bans_allow_wildcard_paths.push((prov.clone(), x));
        }
        if let Some(x) = bans_highlight {
            c.bans_highlight.push((prov.clone(), x));
        }
        proof {
            crate::columns::lemma_column_front(before, part_licenses_unused_license_exception());
            assert(c.licenses_unused_license_exception@ + column(rest@, part_licenses_unused_license_exception()) =~= old_c.licenses_unused_license_exception@ + column(before, part_licenses_unused_license_exception()));
            crate::columns::lemma_column_front(before, part_bans_multiple_versions());
            assert(c.bans_multiple_versions@ + column(rest@, part_bans_multiple_versions()) =~= old_c.bans_multiple_versions@ + column(before, part_bans_multiple_versions()));
            crate::columns::lemma_column_front(before, part_bans_multiple_versions_include_dev());
            assert(c.bans_multiple_versions_include_dev@ + column(rest@, part_bans_multiple_versions_include_dev()) =~= old_c.bans_multiple_versions_include_dev@ + column(before, part_bans_multiple_versions_include_dev()));
            crate::columns::lemma_column_front(before, part_bans_wildcards());
            assert(c.bans_wildcards@ + column(rest@, part_bans_wildcards()) =~= old_c.bans_wildcards@ + column(before, part_bans_wildcards()));
            crate::columns::lemma_column_front(before, part_bans_allow_wildcard_paths());
            assert(c.bans_allow_wildcard_paths@ + column(rest@, part_bans_allow_wildcard_paths()) =~= old_c.bans_allow_wildcard_paths@ + column(before, part_bans_allow_wildcard_paths()));
            crate::columns::lemma_column_front(before, part_bans_highlight());
            assert(c.bans_highlight@ + column(rest@, part_bans_highlight()) =~= old_c.bans_highlight@ + column(before, part_bans_highlight()));
        }
    }
    c
}

struct Part6 {
    bans_workspace_default_features: Option<ScalarAssertion<DenyLintLevel>>,
    bans_external_default_features: Option<ScalarAssertion<DenyLintLevel>>,
    bans_allow: ItemRequirements<DenyPackageReasonSpec>,
    bans_allow_workspace: Option<ScalarAssertion<bool>>,
    bans_deny: ItemRequirements<DenyBanSpec>,
    bans_features: ItemRequirements<DenyFeatureBanSpec>,
}

spec fn part6_part(q: DenyTomlRequirements) -> Part6 {
    Part6 {
        bans_workspace_default_features: q.bans_workspace_default_features,
        bans_external_default_features: q.bans_external_default_features,
        bans_allow: q.bans_allow,
        bans_allow_workspace: q.bans_allow_workspace,
        bans_deny: q.bans_deny,
        bans_features: q.bans_features,
    }
}

spec fn to_part6() -> spec_fn(DenyTomlRequirements) -> Part6 {
    |q: DenyTomlRequirements| part6_part(q)
}

spec fn part_bans_workspace_default_features() -> spec_fn(Part6) -> Option<ScalarAssertion<DenyLintLevel>> {
    |p: Part6| p.bans_workspace_default_features
}

spec fn part_bans_external_default_features() -> spec_fn(Part6) -> Option<ScalarAssertion<DenyLintLevel>> {
    |p: Part6| p.bans_external_default_features
}

spec fn part_bans_allow() -> spec_fn(Part6) -> ItemRequirements<DenyPackageReasonSpec> {
    |p: Part6| p.bans_allow
}

spec fn part_bans_allow_workspace() -> spec_fn(Part6) -> Option<ScalarAssertion<bool>> {
    |p: Part6| p.bans_allow_workspace
}

spec fn part_bans_deny() -> spec_fn(Part6) -> ItemRequirements<DenyBanSpec> {
    |p: Part6| p.bans_deny
}

spec fn part_bans_features() -> spec_fn(Part6) -> ItemRequirements<DenyFeatureBanSpec> {
    |p: Part6| p.bans_features
}

struct Part6Columns {
    bans_workspace_default_features: Vec<(Provenance, ScalarAssertion<DenyLintLevel>)>,
    bans_external_default_features: Vec<(Provenance, ScalarAssertion<DenyLintLevel>)>,
    bans_allow: Vec<(Provenance, ItemRequirements<DenyPackageReasonSpec>)>,
    bans_allow_workspace: Vec<(Provenance, ScalarAssertion<bool>)>,
    bans_deny: Vec<(Provenance, ItemRequirements<DenyBanSpec>)>,
    bans_features: Vec<(Provenance, ItemRequirements<DenyFeatureBanSpec>)>,
}

fn gather_part6(parts: Vec<(Provenance, Part6)>) -> (c: Part6Columns)
    ensures
        c.bans_workspace_default_features@ == column(parts@, part_bans_workspace_default_features()),
        c.bans_external_default_features@ == column(parts@, part_bans_external_default_features()),
        c.bans_allow@ == full_column(parts@, part_bans_allow()),
        c.bans_allow_workspace@ == column(parts@, part_bans_allow_workspace()),
        c.bans_deny@ == full_column(parts@, part_bans_deny()),
        c.bans_features@ == full_column(parts@, part_bans_features()),
{
    let ghost all = parts@;
    let mut c = Part6Columns {
        bans_workspace_default_features: Vec::new(),
        bans_external_default_features: Vec::new(),
        bans_allow: Vec::new(),
        bans_allow_workspace: Vec::new(),
        bans_deny: Vec::new(),
        bans_features: Vec::new(),
    };
    let mut rest = parts;
    assert(c.bans_workspace_default_features@ + column(rest@, part_bans_workspace_default_features()) =~= column(all, part_bans_workspace_default_features()));
    assert(c.bans_external_default_features@ + column(rest@, part_bans_external_default_features()) =~= column(all, part_bans_external_default_features()));
    assert(c.bans_allow@ + full_column(rest@, part_bans_allow()) =~= full_column(all, part_bans_allow()));
    assert(c.bans_allow_workspace@ + column(rest@, part_bans_allow_workspace()) =~= column(all, part_bans_allow_workspace()));
    assert(c.bans_deny@ + full_column(rest@, part_bans_deny()) =~= full_column(all, part_bans_deny()));
    assert(c.bans_features@ + full_column(rest@, part_bans_features()) =~= full_column(all, part_bans_features()));
    while rest.len() > 0
        invariant
            c.bans_workspace_default_features@ + column(rest@, part_bans_workspace_default_features()) == column(all, part_bans_workspace_default_features()),
            c.bans_external_default_features@ + column(rest@, part_bans_external_default_features()) == column(all, part_bans_external_default_features()),
            c.bans_allow@ + full_column(rest@, part_bans_allow()) == full_column(all, part_bans_allow()),
            c.bans_allow_workspace@ + column(rest@, part_bans_allow_workspace()) == column(all, part_bans_allow_workspace()),
            c.bans_deny@ + full_column(rest@, part_bans_deny()) == full_column(all, part_bans_deny()),
            c.bans_features@ + full_column(rest@, part_bans_features()) == full_column(all, part_bans_features()),
        decreases rest.len(),
    {
        let ghost before = rest@;
        let ghost old_c = c;
        let (prov, part) = rest.remove(0);
        assert(rest@ =~= before.drop_first());
        let Part6 {
            bans_workspace_default_features,
            bans_external_default_features,
            bans_allow,
            bans_allow_workspace,
            bans_deny,
            bans_features,
        } = part;
        if let Some(x) = bans_workspace_default_features {
            c.bans_workspace_default_features.push((prov.clone(), x));
        }
        if let Some(x) = bans_external_default_features {
            c.bans_external_default_features.push((prov.clone(), x));
        }
        c.bans_allow.push((prov.clone(), bans_allow));
        if let Some(x) = bans_allow_workspace {
            c.bans_allow_workspace.push((prov.clone(), x));
        }
        c.bans_deny.push((prov.clone(), bans_deny));
        c.bans_features.push((prov.clone(), bans_features));
        proof {
            crate::columns::lemma_column_front(before, part_bans_workspace_default_features());
            assert(c.bans_workspace_default_features@ + column(rest@, part_bans_workspace_default_features()) =~= old_c.bans_workspace_default_features@ + column(before, part_bans_workspace_default_features()));
            crate::columns::lemma_column_front(before, part_bans_external_default_features());
            assert(c.bans_external_default_features@ + column(rest@, part_bans_external_default_features()) =~= old_c.bans_external_default_features@ + column(before, part_bans_external_default_features()));
            crate::columns::lemma_full_column_front(before, part_bans_allow());
            assert(c.bans_allow@ + full_column(rest@, part_bans_allow()) =~= old_c.bans_allow@ + full_column(before, part_bans_allow()));
            crate::columns::lemma_column_front(before, part_bans_allow_workspace());
            assert(c.bans_allow_workspace@ + column(rest@, part_bans_allow_workspace()) =~= old_c.bans_allow_workspace@ + column(before, part_bans_allow_workspace()));
            crate::columns::lemma_full_column_front(before, part_bans_deny());
            assert(c.bans_deny@ + full_column(rest@, part_bans_deny()) =~= old_c.bans_deny@ + full_column(before, part_bans_deny()));
            crate::columns::lemma_full_column_front(before, part_bans_features());
            assert(c.bans_features@ + full_column(rest@, part_bans_features()) =~= old_c.bans_features@ + full_column(before, part_bans_features()));
        }
    }
    c
}

struct Part7 {
    bans_skip: ItemRequirements<DenyPackageReasonSpec>,
    bans_skip_tree: ItemRequirements<DenySkipTreeSpec>,
    bans_workspace_dependencies_duplicates: Option<ScalarAssertion<DenyLintLevel>>,
    bans_workspace_dependencies_include_path_dependencies: Option<ScalarAssertion<bool>>,
    bans_workspace_dependencies_unused: Option<ScalarAssertion<DenyLintLevel>>,
    bans_build_executables: Option<ScalarAssertion<DenyLintLevel>>,
}

spec fn part7_part(q: DenyTomlRequirements) -> Part7 {
    Part7 {
        bans_skip: q.bans_skip,
        bans_skip_tree: q.bans_skip_tree,
        bans_workspace_dependencies_duplicates: q.bans_workspace_dependencies_duplicates,
        bans_workspace_dependencies_include_path_dependencies: q.bans_workspace_dependencies_include_path_dependencies,
        bans_workspace_dependencies_unused: q.bans_workspace_dependencies_unused,
        bans_build_executables: q.bans_build_executables,
    }
}

spec fn to_part7() -> spec_fn(DenyTomlRequirements) -> Part7 {
    |q: DenyTomlRequirements| part7_part(q)
}

spec fn part_bans_skip() -> spec_fn(Part7) -> ItemRequirements<DenyPackageReasonSpec> {
    |p: Part7| p.bans_skip
}

spec fn part_bans_skip_tree() -> spec_fn(Part7) -> ItemRequirements<DenySkipTreeSpec> {
    |p: Part7| p.bans_skip_tree
}

spec fn part_bans_workspace_dependencies_duplicates() -> spec_fn(Part7) -> Option<ScalarAssertion<DenyLintLevel>> {
    |p: Part7| p.bans_workspace_dependencies_duplicates
}

spec fn part_bans_workspace_dependencies_include_path_dependencies() -> spec_fn(Part7) -> Option<ScalarAssertion<bool>> {
    |p: Part7| p.bans_workspace_dependencies_include_path_dependencies
}

spec fn part_bans_workspace_dependencies_unused() -> spec_fn(Part7) -> Option<ScalarAssertion<DenyLintLevel>> {
    |p: Part7| p.bans_workspace_dependencies_unused
}

spec fn part_bans_build_executables() -> spec_fn(Part7) -> Option<ScalarAssertion<DenyLintLevel>> {
    |p: Part7| p.bans_build_executables
}

struct Part7Columns {
    bans_skip: Vec<(Provenance, ItemRequirements<DenyPackageReasonSpec>)>,
    bans_skip_tree: Vec<(Provenance, ItemRequirements<DenySkipTreeSpec>)>,
    bans_workspace_dependencies_duplicates: Vec<(Provenance, ScalarAssertion<DenyLintLevel>)>,
    bans_workspace_dependencies_include_path_dependencies: Vec<(Provenance, ScalarAssertion<bool>)>,
    bans_workspace_dependencies_unused: Vec<(Provenance, ScalarAssertion<DenyLintLevel>)>,
    bans_build_executables: Vec<(Provenance, ScalarAssertion<DenyLintLevel>)>,
}

fn gather_part7(parts: Vec<(Provenance, Part7)>) -> (c: Part7Columns)
    ensures
        c.bans_skip@ == full_column(parts@, part_bans_skip()),
        c.bans_skip_tree@ == full_column(parts@, part_bans_skip_tree()),
        c.bans_workspace_dependencies_duplicates@ == column(parts@, part_bans_workspace_dependencies_duplicates()),
        c.bans_workspace_dependencies_include_path_dependencies@ == column(parts@, part_bans_workspace_dependencies_include_path_dependencies()),
        c.bans_workspace_dependencies_unused@ == column(parts@, part_bans_workspace_dependencies_unused()),
        c.bans_build_executables@ == column(parts@, part_bans_build_executables()),
{
    let ghost all = parts@;
    let mut c = Part7Columns {
        bans_skip: Vec::new(),
        bans_skip_tree: Vec::new(),
        bans_workspace_dependencies_duplicates: Vec::new(),
        bans_workspace_dependencies_include_path_dependencies: Vec::new(),
        bans_workspace_dependencies_unused: Vec::new(),
        bans_build_executables: Vec::new(),
    };
    let mut rest = parts;
    assert(c.bans_skip@ + full_column(rest@, part_bans_skip()) =~= full_column(all, part_bans_skip()));
    assert(c.bans_skip_tree@ + full_column(rest@, part_bans_skip_tree()) =~= full_column(all, part_bans_skip_tree()));
    assert(c.bans_workspace_dependencies_duplicates@ + column(rest@, part_bans_workspace_dependencies_duplicates()) =~= column(all, part_bans_workspace_dependencies_duplicates()));
    assert(c.bans_workspace_dependencies_include_path_dependencies@ + column(rest@, part_bans_workspace_dependencies_include_path_dependencies()) =~= column(all, part_bans_workspace_dependencies_include_path_dependencies()));
    assert(c.bans_workspace_dependencies_unused@ + column(rest@, part_bans_workspace_dependencies_unused()) =~= column(all, part_bans_workspace_dependencies_unused()));
    assert(c.bans_build_executables@ + column(rest@, part_bans_build_executables()) =~= column(all, part_bans_build_executables()));
    while rest.len() > 0
        invariant
            c.bans_skip@ + full_column(rest@, part_bans_skip()) == full_column(all, part_bans_skip()),
            c.bans_skip_tree@ + full_column(rest@, part_bans_skip_tree()) == full_column(all, part_bans_skip_tree()),
            c.bans_workspace_dependencies_duplicates@ + column(rest@, part_bans_workspace_dependencies_duplicates()) == column(all, part_bans_workspace_dependencies_duplicates()),
            c.bans_workspace_dependencies_include_path_dependencies@ + column(rest@, part_bans_workspace_dependencies_include_path_dependencies()) == column(all, part_bans_workspace_dependencies_include_path_dependencies()),
            c.bans_workspace_dependencies_unused@ + column(rest@, part_bans_workspace_dependencies_unused()) == column(all, part_bans_workspace_dependencies_unused()),
            c.bans_build_executables@ + column(rest@, part_bans_build_executables()) == column(all, part_bans_build_executables()),
        decreases rest.len(),
    {
        let ghost before = rest@;
        let ghost old_c = c;
        let (prov, part) = rest.remove(0);
        assert(rest@ =~= before.drop_first());
        let Part7 {
            bans_skip,
            bans_skip_tree,
            bans_workspace_dependencies_duplicates,
            bans_workspace_dependencies_include_path_dependencies,
            bans_workspace_dependencies_unused,
            bans_build_executables,
        } = part;
        c.bans_skip.push((prov.clone(), bans_skip));
        c.bans_skip_tree.push((prov.clone(), bans_skip_tree));
        if let Some(x) = bans_workspace_dependencies_duplicates {
            c.bans_workspace_dependencies_duplicates.push((prov.clone(), x));
        }
        if let Some(x) = bans_workspace_dependencies_include_path_dependencies {
            c.bans_workspace_dependencies_include_path_dependencies.push((prov.clone(), x));
        }
        if let Some(x) = bans_workspace_dependencies_unused {
            c.bans_workspace_dependencies_unused.push((prov.clone(), x));
        }
        if let Some(x) = bans_build_executables {
            c.bans_build_executables.push((prov.clone(), x));
        }
        proof {
            crate::columns::lemma_full_column_front(before, part_bans_skip());
            assert(c.bans_skip@ + full_column(rest@, part_bans_skip()) =~= old_c.bans_skip@ + full_column(before, part_bans_skip()));
            crate::columns::lemma_full_column_front(before, part_bans_skip_tree());
            assert(c.bans_skip_tree@ + full_column(rest@, part_bans_skip_tree()) =~= old_c.bans_skip_tree@ + full_column(before, part_bans_skip_tree()));
            crate::columns::lemma_column_front(before, part_bans_workspace_dependencies_duplicates());
            assert(c.bans_workspace_dependencies_duplicates@ + column(rest@, part_bans_workspace_dependencies_duplicates()) =~= old_c.bans_workspace_dependencies_duplicates@ + column(before, part_bans_workspace_dependencies_duplicates()));
            crate::columns::lemma_column_front(before, part_bans_workspace_dependencies_include_path_dependencies());
            assert(c.bans_workspace_dependencies_include_path_dependencies@ + column(rest@, part_bans_workspace_dependencies_include_path_dependencies()) =~= old_c.bans_workspace_dependencies_include_path_dependencies@ + column(before, part_bans_workspace_dependencies_include_path_dependencies()));
            crate::columns::lemma_column_front(before, part_bans_workspace_dependencies_unused());
            assert(c.bans_workspace_dependencies_unused@ + column(rest@, part_bans_workspace_dependencies_unused()) =~= old_c.bans_workspace_dependencies_unused@ + column(before, part_bans_workspace_dependencies_unused()));
            crate::columns::lemma_column_front(before, part_bans_build_executables());
            assert(c.bans_build_executables@ + column(rest@, part_bans_build_executables()) =~= old_c.bans_build_executables@ + column(before, part_bans_build_executables()));
        }
    }
    c
}

struct Part8 {
    bans_build_interpreted: Option<ScalarAssertion<DenyLintLevel>>,
    bans_build_script_extensions: ListRequirements,
    bans_build_enable_builtin_globs: Option<ScalarAssertion<bool>>,
    bans_build_globs: ItemRequirements<DenyBuildGlobSpec>,
    bans_build_include_dependencies: Option<ScalarAssertion<bool>>,
    bans_build_include_workspace: Option<ScalarAssertion<bool>>,
}

spec fn part8_part(q: DenyTomlRequirements) -> Part8 {
    Part8 {
        bans_build_interpreted: q.bans_build_interpreted,
        bans_build_script_extensions: q.bans_build_script_extensions,
        bans_build_enable_builtin_globs: q.bans_build_enable_builtin_globs,
        bans_build_globs: q.bans_build_globs,
        bans_build_include_dependencies: q.bans_build_include_dependencies,
        bans_build_include_workspace: q.bans_build_include_workspace,
    }
}

spec fn to_part8() -> spec_fn(DenyTomlRequirements) -> Part8 {
    |q: DenyTomlRequirements| part8_part(q)
}

spec fn part_bans_build_interpreted() -> spec_fn(Part8) -> Option<ScalarAssertion<DenyLintLevel>> {
    |p: Part8| p.bans_build_interpreted
}

spec fn part_bans_build_script_extensions() -> spec_fn(Part8) -> ListRequirements {
    |p: Part8| p.bans_build_script_extensions
}

spec fn part_bans_build_enable_builtin_globs() -> spec_fn(Part8) -> Option<ScalarAssertion<bool>> {
    |p: Part8| p.bans_build_enable_builtin_globs
}

spec fn part_bans_build_globs() -> spec_fn(Part8) -> ItemRequirements<DenyBuildGlobSpec> {
    |p: Part8| p.bans_build_globs
}

spec fn part_bans_build_include_dependencies() -> spec_fn(Part8) -> Option<ScalarAssertion<bool>> {
    |p: Part8| p.bans_build_include_dependencies
}

spec fn part_bans_build_include_workspace() -> spec_fn(Part8) -> Option<ScalarAssertion<bool>> {
    |p: Part8| p.bans_build_include_workspace
}

struct Part8Columns {
    bans_build_interpreted: Vec<(Provenance, ScalarAssertion<DenyLintLevel>)>,
    bans_build_script_extensions: Vec<(Provenance, ListRequirements)>,
    bans_build_enable_builtin_globs: Vec<(Provenance, ScalarAssertion<bool>)>,
    bans_build_globs: Vec<(Provenance, ItemRequirements<DenyBuildGlobSpec>)>,
    bans_build_include_dependencies: Vec<(Provenance, ScalarAssertion<bool>)>,
    bans_build_include_workspace: Vec<(Provenance, ScalarAssertion<bool>)>,
}

fn gather_part8(parts: Vec<(Provenance, Part8)>) -> (c: Part8Columns)
    ensures
        c.bans_build_interpreted@ == column(parts@, part_bans_build_interpreted()),
        c.bans_build_script_extensions@ == full_column(parts@, part_bans_build_script_extensions()),
        c.bans_build_enable_builtin_globs@ == column(parts@, part_bans_build_enable_builtin_globs()),
        c.bans_build_globs@ == full_column(parts@, part_bans_build_globs()),
        c.bans_build_include_dependencies@ == column(parts@, part_bans_build_include_dependencies()),
        c.bans_build_include_workspace@ == column(parts@, part_bans_build_include_workspace()),
{
    let ghost all = parts@;
    let mut c = Part8Columns {
        bans_build_interpreted: Vec::new(),
        bans_build_script_extensions: Vec::new(),
        bans_build_enable_builtin_globs: Vec::new(),
        bans_build_globs: Vec::new(),
        bans_build_include_dependencies: Vec::new(),
        bans_build_include_workspace: Vec::new(),
    };
    let mut rest = parts;
    assert(c.bans_build_interpreted@ + column(rest@, part_bans_build_interpreted()) =~= column(all, part_bans_build_interpreted()));
    assert(c.bans_build_script_extensions@ + full_column(rest@, part_bans_build_script_extensions()) =~= full_column(all, part_bans_build_script_extensions()));
    assert(c.bans_build_enable_builtin_globs@ + column(rest@, part_bans_build_enable_builtin_globs()) =~= column(all, part_bans_build_enable_builtin_globs()));
    assert(c.bans_build_globs@ + full_column(rest@, part_bans_build_globs()) =~= full_column(all, part_bans_build_globs()));
    assert(c.bans_build_include_dependencies@ + column(rest@, part_bans_build_include_dependencies()) =~= column(all, part_bans_build_include_dependencies()));
    assert(c.bans_build_include_workspace@ + column(rest@, part_bans_build_include_workspace()) =~= column(all, part_bans_build_include_workspace()));
    while rest.len() > 0
        invariant
            c.bans_build_interpreted@ + column(rest@, part_bans_build_interpreted()) == column(all, part_bans_build_interpreted()),
            c.bans_build_script_extensions@ + full_column(rest@, part_bans_build_script_extensions()) == full_column(all, part_bans_build_script_extensions()),
            c.bans_build_enable_builtin_globs@ + column(rest@, part_bans_build_enable_builtin_globs()) == column(all, part_bans_build_enable_builtin_globs()),
            c.bans_build_globs@ + full_column(rest@, part_bans_build_globs()) == full_column(all, part_bans_build_globs()),
            c.bans_build_include_dependencies@ + column(rest@, part_bans_build_include_dependencies()) == column(all, part_bans_build_include_dependencies()),
            c.bans_build_include_workspace@ + column(rest@, part_bans_build_include_workspace()) == column(all, part_bans_build_include_workspace()),
        decreases rest.len(),
    {
        let ghost before = rest@;
        let ghost old_c = c;
        let (prov, part) = rest.remove(0);
        assert(rest@ =~= before.drop_first());
        let Part8 {
            bans_build_interpreted,
            bans_build_script_extensions,
            bans_build_enable_builtin_globs,
            bans_build_globs,
            bans_build_include_dependencies,
            bans_build_include_workspace,
        } = part;
        if let Some(x) = bans_build_interpreted {
            c.bans_build_interpreted.push((prov.clone(), x));
        }
        c.bans_build_script_extensions.push((prov.clone(), bans_build_script_extensions));
        if let Some(x) = bans_build_enable_builtin_globs {
            c.bans_build_enable_builtin_globs.push((prov.clone(), x));
        }
        c.bans_build_globs.push((prov.clone(), bans_build_globs));
        if let Some(x) = bans_build_include_dependencies {
            c.bans_build_include_dependencies.push((prov.clone(), x));
        }
        if let Some(x) = bans_build_include_workspace {
            c.bans_build_include_workspace.push((prov.clone(), x));
        }
        proof {
            crate::columns::lemma_column_front(before, part_bans_build_interpreted());
            assert(c.bans_build_interpreted@ + column(rest@, part_bans_build_interpreted()) =~= old_c.bans_build_interpreted@ + column(before, part_bans_build_interpreted()));
            crate::columns::lemma_full_column_front(before, part_bans_build_script_extensions());
            assert(c.bans_build_script_extensions@ + full_column(rest@, part_bans_build_script_extensions()) =~= old_c.bans_build_script_extensions@ + full_column(before, part_bans_build_script_extensions()));
            crate::columns::lemma_column_front(before, part_bans_build_enable_builtin_globs());
            assert(c.bans_build_enable_builtin_globs@ + column(rest@, part_bans_build_enable_builtin_globs()) =~= old_c.bans_build_enable_builtin_globs@ + column(before, part_bans_build_enable_builtin_globs()));
            crate::columns::lemma_full_column_front(before, part_bans_build_globs());
            assert(c.bans_build_globs@ + full_column(rest@, part_bans_build_globs()) =~= old_c.bans_build_globs@ + full_column(before, part_bans_build_globs()));
            crate::columns::lemma_column_front(before, part_bans_build_include_dependencies());
            assert(c.bans_build_include_dependencies@ + column(rest@, part_bans_build_include_dependencies()) =~= old_c.bans_build_include_dependencies@ + column(before, part_bans_build_include_dependencies()));
            crate::columns::lemma_column_front(before, part_bans_build_include_workspace());
            assert(c.bans_build_include_workspace@ + column(rest@, part_bans_build_include_workspace()) =~= old_c.bans_build_include_workspace@ + column(before, part_bans_build_include_workspace()));
        }
    }
    c
}

struct Part9 {
    bans_build_include_archives: Option<ScalarAssertion<bool>>,
    sources_unknown_registry: Option<ScalarAssertion<DenyLintLevel>>,
    sources_unknown_git: Option<ScalarAssertion<DenyLintLevel>>,
    sources_required_git_spec: Option<ScalarAssertion<DenyGitSpec>>,
    sources_allow_git: ListRequirements,
    sources_private: ListRequirements,
}

spec fn part9_part(q: DenyTomlRequirements) -> Part9 {
    Part9 {
        bans_build_include_archives: q.bans_build_include_archives,
        sources_unknown_registry: q.sources_unknown_registry,
        sources_unknown_git: q.sources_unknown_git,
        sources_required_git_spec: q.sources_required_git_spec,
        sources_allow_git: q.sources_allow_git,
        sources_private: q.sources_private,
    }
}

spec fn to_part9() -> spec_fn(DenyTomlRequirements) -> Part9 {
    |q: DenyTomlRequirements| part9_part(q)
}

spec fn part_bans_build_include_archives() -> spec_fn(Part9) -> Option<ScalarAssertion<bool>> {
    |p: Part9| p.bans_build_include_archives
}

spec fn part_sources_unknown_registry() -> spec_fn(Part9) -> Option<ScalarAssertion<DenyLintLevel>> {
    |p: Part9| p.sources_unknown_registry
}

spec fn part_sources_unknown_git() -> spec_fn(Part9) -> Option<ScalarAssertion<DenyLintLevel>> {
    |p: Part9| p.sources_unknown_git
}

spec fn part_sources_required_git_spec() -> spec_fn(Part9) -> Option<ScalarAssertion<DenyGitSpec>> {
    |p: Part9| p.sources_required_git_spec
}

spec fn part_sources_allow_git() -> spec_fn(Part9) -> ListRequirements {
    |p: Part9| p.sources_allow_git
}

spec fn part_sources_private() -> spec_fn(Part9) -> ListRequirements {
    |p: Part9| p.sources_private
}

struct Part9Columns {
    bans_build_include_archives: Vec<(Provenance, ScalarAssertion<bool>)>,
    sources_unknown_registry: Vec<(Provenance, ScalarAssertion<DenyLintLevel>)>,
    sources_unknown_git: Vec<(Provenance, ScalarAssertion<DenyLintLevel>)>,
    sources_required_git_spec: Vec<(Provenance, ScalarAssertion<DenyGitSpec>)>,
    sources_allow_git: Vec<(Provenance, ListRequirements)>,
    sources_private: Vec<(Provenance, ListRequirements)>,
}

fn gather_part9(parts: Vec<(Provenance, Part9)>) -> (c: Part9Columns)
    ensures
        c.bans_build_include_archives@ == column(parts@, part_bans_build_include_archives()),
        c.sources_unknown_registry@ == column(parts@, part_sources_unknown_registry()),
        c.sources_unknown_git@ == column(parts@, part_sources_unknown_git()),
        c.sources_required_git_spec@ == column(parts@, part_sources_required_git_spec()),
        c.sources_allow_git@ == full_column(parts@, part_sources_allow_git()),
        c.sources_private@ == full_column(parts@, part_sources_private()),
{
    let ghost all = parts@;
    let mut c = Part9Columns {
        bans_build_include_archives: Vec::new(),
        sources_unknown_registry: Vec::new(),
        sources_unknown_git: Vec::new(),
        sources_required_git_spec: Vec::new(),
        sources_allow_git: Vec::new(),
        sources_private: Vec::new(),
    };
    let mut rest = parts;
    assert(c.bans_build_include_archives@ + column(rest@, part_bans_build_include_archives()) =~= column(all, part_bans_build_include_archives()));
    assert(c.sources_unknown_registry@ + column(rest@, part_sources_unknown_registry()) =~= column(all, part_sources_unknown_registry()));
    assert(c.sources_unknown_git@ + column(rest@, part_sources_unknown_git()) =~= column(all, part_sources_unknown_git()));
    assert(c.sources_required_git_spec@ + column(rest@, part_sources_required_git_spec()) =~= column(all, part_sources_required_git_spec()));
    assert(c.sources_allow_git@ + full_column(rest@, part_sources_allow_git()) =~= full_column(all, part_sources_allow_git()));
    assert(c.sources_private@ + full_column(rest@, part_sources_private()) =~= full_column(all, part_sources_private()));
    while rest.len() > 0
        invariant
            c.bans_build_include_archives@ + column(rest@, part_bans_build_include_archives()) == column(all, part_bans_build_include_archives()),
            c.sources_unknown_registry@ + column(rest@, part_sources_unknown_registry()) == column(all, part_sources_unknown_registry()),
            c.sources_unknown_git@ + column(rest@, part_sources_unknown_git()) == column(all, part_sources_unknown_git()),
            c.sources_required_git_spec@ + column(rest@, part_sources_required_git_spec()) == column(all, part_sources_required_git_spec()),
            c.sources_allow_git@ + full_column(rest@, part_sources_allow_git()) == full_column(all, part_sources_allow_git()),
            c.sources_private@ + full_column(rest@, part_sources_private()) == full_column(all, part_sources_private()),
        decreases rest.len(),
    {
        let ghost before = rest@;
        let ghost old_c = c;
        let (prov, part) = rest.remove(0);
        assert(rest@ =~= before.drop_first());
        let Part9 {
            bans_build_include_archives,
            sources_unknown_registry,
            sources_unknown_git,
            sources_required_git_spec,
            sources_allow_git,
            sources_private,
        } = part;
        if let Some(x) = bans_build_include_archives {
            c.bans_build_include_archives.push((prov.clone(), x));
        }
        if let Some(x) = sources_unknown_registry {
            c.sources_unknown_registry.push((prov.clone(), x));
        }
        if let Some(x) = sources_unknown_git {
            c.sources_unknown_git.push((prov.clone(), x));
        }
        if let Some(x) = sources_required_git_spec {
            c.sources_required_git_spec.push((prov.clone(), x));
        }
        c.sources_allow_git.push((prov.clone(), sources_allow_git));
        c.sources_private.push((prov.clone(), sources_private));
        proof {
            crate::columns::lemma_column_front(before, part_bans_build_include_archives());
            assert(c.bans_build_include_archives@ + column(rest@, part_bans_build_include_archives()) =~= old_c.bans_build_include_archives@ + column(before, part_bans_build_include_archives()));
            crate::columns::lemma_column_front(before, part_sources_unknown_registry());
            assert(c.sources_unknown_registry@ + column(rest@, part_sources_unknown_registry()) =~= old_c.sources_unknown_registry@ + column(before, part_sources_unknown_registry()));
            crate::columns::lemma_column_front(before, part_sources_unknown_git());
            assert(c.sources_unknown_git@ + column(rest@, part_sources_unknown_git()) =~= old_c.sources_unknown_git@ + column(before, part_sources_unknown_git()));
            crate::columns::lemma_column_front(before, part_sources_required_git_spec());
            assert(c.sources_required_git_spec@ + column(rest@, part_sources_required_git_spec()) =~= old_c.sources_required_git_spec@ + column(before, part_sources_required_git_spec()));
            crate::columns::lemma_full_column_front(before, part_sources_allow_git());
            assert(c.sources_allow_git@ + full_column(rest@, part_sources_allow_git()) =~= old_c.sources_allow_git@ + full_column(before, part_sources_allow_git()));
            crate::columns::lemma_full_column_front(before, part_sources_private());
            assert(c.sources_private@ + full_column(rest@, part_sources_private()) =~= old_c.sources_private@ + full_column(before, part_sources_private()));
        }
    }
    c
}

struct Part10 {
    sources_allow_registry: ListRequirements,
    sources_allow_org_github: ListRequirements,
    sources_allow_org_gitlab: ListRequirements,
    sources_allow_org_bitbucket: ListRequirements,
    sources_unused_allowed_source: Option<ScalarAssertion<DenyLintLevel>>,
    closed_settings: Option<String>,
}

spec fn part10_part(q: DenyTomlRequirements) -> Part10 {
    Part10 {
        sources_allow_registry: q.sources_allow_registry,
        sources_allow_org_github: q.sources_allow_org_github,
        sources_allow_org_gitlab: q.sources_allow_org_gitlab,
        sources_allow_org_bitbucket: q.sources_allow_org_bitbucket,
        sources_unused_allowed_source: q.sources_unused_allowed_source,
        closed_settings: q.closed_settings,
    }
}

spec fn to_part10() -> spec_fn(DenyTomlRequirements) -> Part10 {
    |q: DenyTomlRequirements| part10_part(q)
}

spec fn part_sources_allow_registry() -> spec_fn(Part10) -> ListRequirements {
    |p: Part10| p.sources_allow_registry
}

spec fn part_sources_allow_org_github() -> spec_fn(Part10) -> ListRequirements {
    |p: Part10| p.sources_allow_org_github
}

spec fn part_sources_allow_org_gitlab() -> spec_fn(Part10) -> ListRequirements {
    |p: Part10| p.sources_allow_org_gitlab
}

spec fn part_sources_allow_org_bitbucket() -> spec_fn(Part10) -> ListRequirements {
    |p: Part10| p.sources_allow_org_bitbucket
}

spec fn part_sources_unused_allowed_source() -> spec_fn(Part10) -> Option<ScalarAssertion<DenyLintLevel>> {
    |p: Part10| p.sources_unused_allowed_source
}

spec fn part_closed_settings() -> spec_fn(Part10) -> Option<String> {
    |p: Part10| p.closed_settings
}

struct Part10Columns {
    sources_allow_registry: Vec<(Provenance, ListRequirements)>,
    sources_allow_org_github: Vec<(Provenance, ListRequirements)>,
    sources_allow_org_gitlab: Vec<(Provenance, ListRequirements)>,
    sources_allow_org_bitbucket: Vec<(Provenance, ListRequirements)>,
    sources_unused_allowed_source: Vec<(Provenance, ScalarAssertion<DenyLintLevel>)>,
    closed_settings: Vec<(Provenance, String)>,
}

fn gather_part10(parts: Vec<(Provenance, Part10)>) -> (c: Part10Columns)
    ensures
        c.sources_allow_registry@ == full_column(parts@, part_sources_allow_registry()),
        c.sources_allow_org_github@ == full_column(parts@, part_sources_allow_org_github()),
        c.sources_allow_org_gitlab@ == full_column(parts@, part_sources_allow_org_gitlab()),
        c.sources_allow_org_bitbucket@ == full_column(parts@, part_sources_allow_org_bitbucket()),
        c.sources_unused_allowed_source@ == column(parts@, part_sources_unused_allowed_source()),
        c.closed_settings@ == column(parts@, part_closed_settings()),
{
    let ghost all = parts@;
    let mut c = Part10Columns {
        sources_allow_registry: Vec::new(),
        sources_allow_org_github: Vec::new(),
        sources_allow_org_gitlab: Vec::new(),
        sources_allow_org_bitbucket: Vec::new(),
        sources_unused_allowed_source: Vec::new(),
        closed_settings: Vec::new(),
    };
    let mut rest = parts;
    assert(c.sources_allow_registry@ + full_column(rest@, part_sources_allow_registry()) =~= full_column(all, part_sources_allow_registry()));
    assert(c.sources_allow_org_github@ + full_column(rest@, part_sources_allow_org_github()) =~= full_column(all, part_sources_allow_org_github()));
    assert(c.sources_allow_org_gitlab@ + full_column(rest@, part_sources_allow_org_gitlab()) =~= full_column(all, part_sources_allow_org_gitlab()));
    assert(c.sources_allow_org_bitbucket@ + full_column(rest@, part_sources_allow_org_bitbucket()) =~= full_column(all, part_sources_allow_org_bitbucket()));
    assert(c.sources_unused_allowed_source@ + column(rest@, part_sources_unused_allowed_source()) =~= column(all, part_sources_unused_allowed_source()));
    assert(c.closed_settings@ + column(rest@, part_closed_settings()) =~= column(all, part_closed_settings()));
    while rest.len() > 0
        invariant
            c.sources_allow_registry@ + full_column(rest@, part_sources_allow_registry()) == full_column(all, part_sources_allow_registry()),
            c.sources_allow_org_github@ + full_column(rest@, part_sources_allow_org_github()) == full_column(all, part_sources_allow_org_github()),
            c.sources_allow_org_gitlab@ + full_column(rest@, part_sources_allow_org_gitlab()) == full_column(all, part_sources_allow_org_gitlab()),
            c.sources_allow_org_bitbucket@ + full_column(rest@, part_sources_allow_org_bitbucket()) == full_column(all, part_sources_allow_org_bitbucket()),
            c.sources_unused_allowed_source@ + column(rest@, part_sources_unused_allowed_source()) == column(all, part_sources_unused_allowed_source()),
            c.closed_settings@ + column(rest@, part_closed_settings()) == column(all, part_closed_settings()),
        decreases rest.len(),
    {
        let ghost before = rest@;
        let ghost old_c = c;
        let (prov, part) = rest.remove(0);
        assert(rest@ =~= before.drop_first());
        let Part10 {
            sources_allow_registry,
            sources_allow_org_github,
            sources_allow_org_gitlab,
            sources_allow_org_bitbucket,
            sources_unused_allowed_source,
            closed_settings,
        } = part;
        c.sources_allow_registry.push((prov.clone(), sources_allow_registry));
        c.sources_allow_org_github.push((prov.clone(), sources_allow_org_github));
        c.sources_allow_org_gitlab.push((prov.clone(), sources_allow_org_gitlab));
        c.sources_allow_org_bitbucket.push((prov.clone(), sources_allow_org_bitbucket));
        if let Some(x) = sources_unused_allowed_source {
            c.sources_unused_allowed_source.push((prov.clone(), x));
        }
        if let Some(x) = closed_settings {
            c.closed_settings.push((prov.clone(), x));
        }
        proof {
            crate::columns::lemma_full_column_front(before, part_sources_allow_registry());
            assert(c.sources_allow_registry@ + full_column(rest@, part_sources_allow_registry()) =~= old_c.sources_allow_registry@ + full_column(before, part_sources_allow_registry()));
            crate::columns::lemma_full_column_front(before, part_sources_allow_org_github());
            assert(c.sources_allow_org_github@ + full_column(rest@, part_sources_allow_org_github()) =~= old_c.sources_allow_org_github@ + full_column(before, part_sources_allow_org_github()));
            crate::columns::lemma_full_column_front(before, part_sources_allow_org_gitlab());
            assert(c.sources_allow_org_gitlab@ + full_column(rest@, part_sources_allow_org_gitlab()) =~= old_c.sources_allow_org_gitlab@ + full_column(before, part_sources_allow_org_gitlab()));
            crate::columns::lemma_full_column_front(before, part_sources_allow_org_bitbucket());
            assert(c.sources_allow_org_bitbucket@ + full_column(rest@, part_sources_allow_org_bitbucket()) =~= old_c.sources_allow_org_bitbucket@ + full_column(before, part_sources_allow_org_bitbucket()));
            crate::columns::lemma_column_front(before, part_sources_unused_allowed_source());
            assert(c.sources_unused_allowed_source@ + column(rest@, part_sources_unused_allowed_source()) =~= old_c.sources_unused_allowed_source@ + column(before, part_sources_unused_allowed_source()));
            crate::columns::lemma_column_front(before, part_closed_settings());
            assert(c.closed_settings@ + column(rest@, part_closed_settings()) =~= old_c.closed_settings@ + column(before, part_closed_settings()));
        }
    }
    c
}

struct DenyParts {
    part0: Vec<(Provenance, Part0)>,
    part1: Vec<(Provenance, Part1)>,
    part2: Vec<(Provenance, Part2)>,
    part3: Vec<(Provenance, Part3)>,
    part4: Vec<(Provenance, Part4)>,
    part5: Vec<(Provenance, Part5)>,
    part6: Vec<(Provenance, Part6)>,
    part7: Vec<(Provenance, Part7)>,
    part8: Vec<(Provenance, Part8)>,
    part9: Vec<(Provenance, Part9)>,
    part10: Vec<(Provenance, Part10)>,
}

fn split_rows(reqs: Vec<(Provenance, DenyTomlRequirements)>) -> (r: DenyParts)
    ensures
        r.part0@ == full_column(reqs@, to_part0()),
        r.part1@ == full_column(reqs@, to_part1()),
        r.part2@ == full_column(reqs@, to_part2()),
        r.part3@ == full_column(reqs@, to_part3()),
        r.part4@ == full_column(reqs@, to_part4()),
        r.part5@ == full_column(reqs@, to_part5()),
        r.part6@ == full_column(reqs@, to_part6()),
        r.part7@ == full_column(reqs@, to_part7()),
        r.part8@ == full_column(reqs@, to_part8()),
        r.part9@ == full_column(reqs@, to_part9()),
        r.part10@ == full_column(reqs@, to_part10()),
{
    let ghost all = reqs@;
    let mut r = DenyParts {
        part0: Vec::new(),
        part1: Vec::new(),
        part2: Vec::new(),
        part3: Vec::new(),
        part4: Vec::new(),
        part5: Vec::new(),
        part6: Vec::new(),
        part7: Vec::new(),
        part8: Vec::new(),
        part9: Vec::new(),
        part10: Vec::new(),
    };
    let mut rest = reqs;
    assert(r.part0@ + full_column(rest@, to_part0()) =~= full_column(all, to_part0()));
    assert(r.part1@ + full_column(rest@, to_part1()) =~= full_column(all, to_part1()));
    assert(r.part2@ + full_column(rest@, to_part2()) =~= full_column(all, to_part2()));
    assert(r.part3@ + full_column(rest@, to_part3()) =~= full_column(all, to_part3()));
    assert(r.part4@ + full_column(rest@, to_part4()) =~= full_column(all, to_part4()));
    assert(r.part5@ + full_column(rest@, to_part5()) =~= full_column(all, to_part5()));
    assert(r.part6@ + full_column(rest@, to_part6()) =~= full_column(all, to_part6()));
    assert(r.part7@ + full_column(rest@, to_part7()) =~= full_column(all, to_part7()));
    assert(r.part8@ + full_column(rest@, to_part8()) =~= full_column(all, to_part8()));
    assert(r.part9@ + full_column(rest@, to_part9()) =~= full_column(all, to_part9()));
    assert(r.part10@ + full_column(rest@, to_part10()) =~= full_column(all, to_part10()));
    while rest.len() > 0
        invariant
            r.part0@ + full_column(rest@, to_part0()) == full_column(all, to_part0()),
            r.part1@ + full_column(rest@, to_part1()) == full_column(all, to_part1()),
            r.part2@ + full_column(rest@, to_part2()) == full_column(all, to_part2()),
            r.part3@ + full_column(rest@, to_part3()) == full_column(all, to_part3()),
            r.part4@ + full_column(rest@, to_part4()) == full_column(all, to_part4()),
            r.part5@ + full_column(rest@, to_part5()) == full_column(all, to_part5()),
            r.part6@ + full_column(rest@, to_part6()) == full_column(all, to_part6()),
            r.part7@ + full_column(rest@, to_part7()) == full_column(all, to_part7()),
            r.part8@ + full_column(rest@, to_part8()) == full_column(all, to_part8()),
            r.part9@ + full_column(rest@, to_part9()) == full_column(all, to_part9()),
            r.part10@ + full_column(rest@, to_part10()) == full_column(all, to_part10()),
        decreases rest.len(),
    {
        let ghost before = rest@;
        let ghost old_r = r;
        let (prov, req) = rest.remove(0);
        assert(rest@ =~= before.drop_first());
        let DenyTomlRequirements {
            graph_targets,
            graph_exclude,
            graph_exclude_dev,
            graph_exclude_unpublished,
            graph_all_features,
            graph_no_default_features,
            graph_features,
            output_feature_depth,
            advisories_version,
            advisories_db_path,
            advisories_db_urls,
            advisories_yanked,
            advisories_disable_yank_checking,
            advisories_ignore,
            advisories_unmaintained,
            advisories_unsound,
            advisories_maximum_db_staleness,
            advisories_git_fetch_with_cli,
            advisories_unused_ignored_advisory,
            licenses_version,
            licenses_include_dev,
            licenses_include_build,
            licenses_allow,
            licenses_exceptions,
            licenses_confidence_threshold,
            licenses_clarify,
            licenses_private_ignore,
            licenses_private_registries,
            licenses_private_ignore_sources,
            licenses_unused_allowed_license,
            licenses_unused_license_exception,
            bans_multiple_versions,
            bans_multiple_versions_include_dev,
            bans_wildcards,
            bans_allow_wildcard_paths,
            bans_highlight,
            bans_workspace_default_features,
            bans_external_default_features,
            bans_allow,
            bans_allow_workspace,
            bans_deny,
            bans_features,
            bans_skip,
            bans_skip_tree,
            bans_workspace_dependencies_duplicates,
            bans_workspace_dependencies_include_path_dependencies,
            bans_workspace_dependencies_unused,
            bans_build_executables,
            bans_build_interpreted,
            bans_build_script_extensions,
            bans_build_enable_builtin_globs,
            bans_build_globs,
            bans_build_include_dependencies,
            bans_build_include_workspace,
            bans_build_include_archives,
            sources_unknown_registry,
            sources_unknown_git,
            sources_required_git_spec,
            sources_allow_git,
            sources_private,
            sources_allow_registry,
            sources_allow_org_github,
            sources_allow_org_gitlab,
            sources_allow_org_bitbucket,
            sources_unused_allowed_source,
            closed_settings,
        } = req;
        r.part0.push((prov.clone(), Part0 { graph_targets, graph_exclude, graph_exclude_dev, graph_exclude_unpublished, graph_all_features, graph_no_default_features }));
        r.part1.push((prov.clone(), Part1 { graph_features, output_feature_depth, advisories_version, advisories_db_path, advisories_db_urls, advisories_yanked }));
        r.part2.push((prov.clone(), Part2 { advisories_disable_yank_checking, advisories_ignore, advisories_unmaintained, advisories_unsound, advisories_maximum_db_staleness, advisories_git_fetch_with_cli }));
        r.part3.push((prov.clone(), Part3 { advisories_unused_ignored_advisory, licenses_version, licenses_include_dev, licenses_include_build, licenses_allow, licenses_exceptions }));
        r.part4.push((prov.clone(), Part4 { licenses_confidence_threshold, licenses_clarify, licenses_private_ignore, licenses_private_registries, licenses_private_ignore_sources, licenses_unused_allowed_license }));
        r.part5.push((prov.clone(), Part5 { licenses_unused_license_exception, bans_multiple_versions, bans_multiple_versions_include_dev, bans_wildcards, bans_allow_wildcard_paths, bans_highlight }));
        r.part6.push((prov.clone(), Part6 { bans_workspace_default_features, bans_external_default_features, bans_allow, bans_allow_workspace, bans_deny, bans_features }));
        r.part7.push((prov.clone(), Part7 { bans_skip, bans_skip_tree, bans_workspace_dependencies_duplicates, bans_workspace_dependencies_include_path_dependencies, bans_workspace_dependencies_unused, bans_build_executables }));
        r.part8.push((prov.clone(), Part8 { bans_build_interpreted, bans_build_script_extensions, bans_build_enable_builtin_globs, bans_build_globs, bans_build_include_dependencies, bans_build_include_workspace }));
        r.part9.push((prov.clone(), Part9 { bans_build_include_archives, sources_unknown_registry, sources_unknown_git, sources_required_git_spec, sources_allow_git, sources_private }));
        r.part10.push((prov.clone(), Part10 { sources_allow_registry, sources_allow_org_github, sources_allow_org_gitlab, sources_allow_org_bitbucket, sources_unused_allowed_source, closed_settings }));
        proof {
            crate::columns::lemma_full_column_front(before, to_part0());
            assert(r.part0@ + full_column(rest@, to_part0()) =~= old_r.part0@ + full_column(before, to_part0()));
            crate::columns::lemma_full_column_front(before, to_part1());
            assert(r.part1@ + full_column(rest@, to_part1()) =~= old_r.part1@ + full_column(before, to_part1()));
            crate::columns::lemma_full_column_front(before, to_part2());
            assert(r.part2@ + full_column(rest@, to_part2()) =~= old_r.part2@ + full_column(before, to_part2()));
            crate::columns::lemma_full_column_front(before, to_part3());
            assert(r.part3@ + full_column(rest@, to_part3()) =~= old_r.part3@ + full_column(before, to_part3()));
            crate::columns::lemma_full_column_front(before, to_part4());
            assert(r.part4@ + full_column(rest@, to_part4()) =~= old_r.part4@ + full_column(before, to_part4()));
            crate::columns::lemma_full_column_front(before, to_part5());
            assert(r.part5@ + full_column(rest@, to_part5()) =~= old_r.part5@ + full_column(before, to_part5()));
            crate::columns::lemma_full_column_front(before, to_part6());
            assert(r.part6@ + full_column(rest@, to_part6()) =~= old_r.part6@ + full_column(before, to_part6()));
            crate::columns::lemma_full_column_front(before, to_part7());
            assert(r.part7@ + full_column(rest@, to_part7()) =~= old_r.part7@ + full_column(before, to_part7()));
            crate::columns::lemma_full_column_front(before, to_part8());
            assert(r.part8@ + full_column(rest@, to_part8()) =~= old_r.part8@ + full_column(before, to_part8()));
            crate::columns::lemma_full_column_front(before, to_part9());
            assert(r.part9@ + full_column(rest@, to_part9()) =~= old_r.part9@ + full_column(before, to_part9()));
            crate::columns::lemma_full_column_front(before, to_part10());
            assert(r.part10@ + full_column(rest@, to_part10()) =~= old_r.part10@ + full_column(before, to_part10()));
        }
    }
    r
}

fn overlap_contributors_of(feature: &str, c: &Vec<(Provenance, (DenyFeatureBanSpec, String))>) -> (r: Vec<(Provenance, String)>)
    ensures
        contributor_views(r@) == overlap_contributors(feature@, c@),
{
    let mut out: Vec<(Provenance, String)> = Vec::new();
    let mut i: usize = 0;
    while i < c.len()
        invariant
            i <= c.len(),
            contributor_views(out@) == overlap_contributors(feature@, c@.subrange(0, i as int)),
        decreases c.len() - i,
    {
        let ghost before = out@;
        out.push((c[i].0.clone(), join3(feature, ": ", c[i].1.1.as_str())));
        proof {
            reveal_strlit(": ");
            assert(contributor_views(out@) =~= contributor_views(before).push((c@[i as int].0.policy@, feature@ + ": "@ + c@[i as int].1.1@)));
            assert(overlap_contributors(feature@, c@.subrange(0, i + 1)) =~= overlap_contributors(feature@, c@.subrange(0, i as int)).push((c@[i as int].0.policy@, feature@ + ": "@ + c@[i as int].1.1@)));
        }
        i = i + 1;
    }
    assert(c@.subrange(0, c@.len() as int) =~= c@);
    out
}

/// The contributors of a feature overlap: each policy with the feature and
/// its message.
pub open spec fn overlap_contributors(feature: Seq<char>, c: Seq<(Provenance, (DenyFeatureBanSpec, String))>) -> Seq<(Seq<char>, Seq<char>)> {
    c.map_values(|x: (Provenance, (DenyFeatureBanSpec, String))| (x.0.policy@, feature + ": "@ + x.1.1@))
}

/// One `feature-allow-deny-overlap` conflict, keyed `bans.features.<package>`,
/// for each merged feature ban whose first allowed feature is also
/// forbidden.
pub open spec fn feature_overlap_conflicts(es: Seq<ResolvedItemEntry<DenyFeatureBanSpec>>) -> Seq<ConflictView>
    decreases es.len(),
{
    if es.len() == 0 {
        seq![]
    } else {
        let rest = feature_overlap_conflicts(es.drop_last());
        let e = es.last();
        match spec_first_overlap(e.merged@.1, e.merged@.2) {
            Some(i) => rest.push(("bans.features."@ + e.identity@, "feature-allow-deny-overlap"@,
                overlap_contributors(e.merged@.1[i], e.collected@))),
            None => rest,
        }
    }
}

/// Adds a `feature-allow-deny-overlap` conflict for each merged feature ban
/// whose first allowed feature is also forbidden.
fn report_feature_overlaps(
    features: &ResolvedItemRequirements<DenyFeatureBanSpec>,
    conflicts: &mut Vec<ConflictEntry>,
)
    ensures
        conflict_views(final(conflicts)@) == conflict_views(old(conflicts)@)
            + feature_overlap_conflicts(features.required@),
{
    let es = &features.required;
    let mut i: usize = 0;
    assert(feature_overlap_conflicts(es@.subrange(0, 0)) =~= seq![]);
    assert(conflict_views(conflicts@) =~= conflict_views(old(conflicts)@) + seq![]);
    while i < es.len()
        invariant
            i <= es.len(),
            conflict_views(conflicts@) == conflict_views(old(conflicts)@)
                + feature_overlap_conflicts(es@.subrange(0, i as int)),
        decreases es.len() - i,
    {
        let e = &es[i];
        let ghost sub = es@.subrange(0, i + 1);
        assert(sub.drop_last() =~= es@.subrange(0, i as int));
        let allowed = e.merged.allowed_features();
        let forbidden = e.merged.forbidden_features();
        match first_overlap(allowed, forbidden) {
            Some(k) => {
                let feature = allowed[k].as_str();
                let contributors = overlap_contributors_of(feature, &e.collected);
                let ghost before = conflicts@;
                conflicts.push(ConflictEntry {
                    key: join2("bans.features.", e.identity.as_str()),
                    reason: owned("feature-allow-deny-overlap"),
                    contributors,
                });
                proof {
                    reveal_strlit("bans.features.");
                    reveal_strlit("feature-allow-deny-overlap");
                    assert(feature_views(allowed@)[k as int] == allowed@[k as int]@);
                    let c = conflicts@.last();
                    assert(c.key@ == "bans.features."@ + e.identity@);
                    assert(c.reason@ == "feature-allow-deny-overlap"@);
                    assert(feature@ == e.merged@.1[k as int]);
                    assert(contributor_views(c.contributors@) == overlap_contributors(e.merged@.1[k as int], e.collected@));
                    assert(conflict_views(conflicts@).last() == ("bans.features."@ + e.identity@,
                        "feature-allow-deny-overlap"@, overlap_contributors(e.merged@.1[k as int], e.collected@)));
                    assert(conflict_views(conflicts@) =~= conflict_views(before).push(conflict_views(conflicts@).last()));
                    assert(sub.last() == *e);
                    assert(spec_first_overlap(e.merged@.1, e.merged@.2) == Some(k as int));
                    assert(feature_overlap_conflicts(sub) == feature_overlap_conflicts(es@.subrange(0, i as int)).push(
                        conflict_views(conflicts@).last()));
                }
            },
            None => {
                assert(conflict_views(conflicts@) == conflict_views(old(conflicts)@)
                    + feature_overlap_conflicts(sub));
            },
        }
        i = i + 1;
    }
    assert(es@.subrange(0, es@.len() as int) =~= es@);
}

/// Whether `r` merges the requirements `reqs` field by field.
pub open spec fn deny_resolution(r: ResolvedDenyTomlRequirements, reqs: Seq<(Provenance, DenyTomlRequirements)>) -> bool {
    &&& merges_items(r.graph_targets.required@, item_flat(col_graph_targets(reqs)))
    &&& list_resolution(r.graph_exclude, flat_pairs(col_graph_exclude(reqs), false), flat_pairs(col_graph_exclude(reqs), true), sorted_exact_items(col_graph_exclude(reqs)))
    &&& scalar_resolution(r.graph_exclude_dev, col_graph_exclude_dev(reqs))
    &&& scalar_resolution(r.graph_exclude_unpublished, col_graph_exclude_unpublished(reqs))
    &&& scalar_resolution(r.graph_all_features, col_graph_all_features(reqs))
    &&& scalar_resolution(r.graph_no_default_features, col_graph_no_default_features(reqs))
    &&& list_resolution(r.graph_features, flat_pairs(col_graph_features(reqs), false), flat_pairs(col_graph_features(reqs), true), sorted_exact_items(col_graph_features(reqs)))
    &&& scalar_resolution(r.output_feature_depth, col_output_feature_depth(reqs))
    &&& scalar_resolution(r.advisories_version, col_advisories_version(reqs))
    &&& scalar_resolution(r.advisories_db_path, col_advisories_db_path(reqs))
    &&& list_resolution(r.advisories_db_urls, flat_pairs(col_advisories_db_urls(reqs), false), flat_pairs(col_advisories_db_urls(reqs), true), sorted_exact_items(col_advisories_db_urls(reqs)))
    &&& scalar_resolution(r.advisories_yanked, col_advisories_yanked(reqs))
    &&& scalar_resolution(r.advisories_disable_yank_checking, col_advisories_disable_yank_checking(reqs))
    &&& merges_items(r.advisories_ignore.required@, item_flat(col_advisories_ignore(reqs)))
    &&& scalar_resolution(r.advisories_unmaintained, col_advisories_unmaintained(reqs))
    &&& scalar_resolution(r.advisories_unsound, col_advisories_unsound(reqs))
    &&& scalar_resolution(r.advisories_maximum_db_staleness, col_advisories_maximum_db_staleness(reqs))
    &&& scalar_resolution(r.advisories_git_fetch_with_cli, col_advisories_git_fetch_with_cli(reqs))
    &&& scalar_resolution(r.advisories_unused_ignored_advisory, col_advisories_unused_ignored_advisory(reqs))
    &&& scalar_resolution(r.licenses_version, col_licenses_version(reqs))
    &&& scalar_resolution(r.licenses_include_dev, col_licenses_include_dev(reqs))
    &&& scalar_resolution(r.licenses_include_build, col_licenses_include_build(reqs))
    &&& list_resolution(r.licenses_allow, flat_pairs(col_licenses_allow(reqs), false), flat_pairs(col_licenses_allow(reqs), true), sorted_exact_items(col_licenses_allow(reqs)))
    &&& merges_items(r.licenses_exceptions.required@, item_flat(col_licenses_exceptions(reqs)))
    &&& scalar_resolution(r.licenses_confidence_threshold, col_licenses_confidence_threshold(reqs))
    &&& merges_items(r.licenses_clarify.required@, item_flat(col_licenses_clarify(reqs)))
    &&& scalar_resolution(r.licenses_private_ignore, col_licenses_private_ignore(reqs))
    &&& list_resolution(r.licenses_private_registries, flat_pairs(col_licenses_private_registries(reqs), false), flat_pairs(col_licenses_private_registries(reqs), true), sorted_exact_items(col_licenses_private_registries(reqs)))
    &&& list_resolution(r.licenses_private_ignore_sources, flat_pairs(col_licenses_private_ignore_sources(reqs), false), flat_pairs(col_licenses_private_ignore_sources(reqs), true), sorted_exact_items(col_licenses_private_ignore_sources(reqs)))
    &&& scalar_resolution(r.licenses_unused_allowed_license, col_licenses_unused_allowed_license(reqs))
    &&& scalar_resolution(r.licenses_unused_license_exception, col_licenses_unused_license_exception(reqs))
    &&& scalar_resolution(r.bans_multiple_versions, col_bans_multiple_versions(reqs))
    &&& scalar_resolution(r.bans_multiple_versions_include_dev, col_bans_multiple_versions_include_dev(reqs))
    &&& scalar_resolution(r.bans_wildcards, col_bans_wildcards(reqs))
    &&& scalar_resolution(r.bans_allow_wildcard_paths, col_bans_allow_wildcard_paths(reqs))
    &&& scalar_resolution(r.bans_highlight, col_bans_highlight(reqs))
    &&& scalar_resolution(r.bans_workspace_default_features, col_bans_workspace_default_features(reqs))
    &&& scalar_resolution(r.bans_external_default_features, col_bans_external_default_features(reqs))
    &&& merges_items(r.bans_allow.required@, item_flat(col_bans_allow(reqs)))
    &&& scalar_resolution(r.bans_allow_workspace, col_bans_allow_workspace(reqs))
    &&& merges_items(r.bans_deny.required@, item_flat(col_bans_deny(reqs)))
    &&& merges_items(r.bans_features.required@, item_flat(col_bans_features(reqs)))
    &&& merges_items(r.bans_skip.required@, item_flat(col_bans_skip(reqs)))
    &&& merges_items(r.bans_skip_tree.required@, item_flat(col_bans_skip_tree(reqs)))
    &&& scalar_resolution(r.bans_workspace_dependencies_duplicates, col_bans_workspace_dependencies_duplicates(reqs))
    &&& scalar_resolution(r.bans_workspace_dependencies_include_path_dependencies, col_bans_workspace_dependencies_include_path_dependencies(reqs))
    &&& scalar_resolution(r.bans_workspace_dependencies_unused, col_bans_workspace_dependencies_unused(reqs))
    &&& scalar_resolution(r.bans_build_executables, col_bans_build_executables(reqs))
    &&& scalar_resolution(r.bans_build_interpreted, col_bans_build_interpreted(reqs))
    &&& list_resolution(r.bans_build_script_extensions, flat_pairs(col_bans_build_script_extensions(reqs), false), flat_pairs(col_bans_build_script_extensions(reqs), true), sorted_exact_items(col_bans_build_script_extensions(reqs)))
    &&& scalar_resolution(r.bans_build_enable_builtin_globs, col_bans_build_enable_builtin_globs(reqs))
    &&& merges_items(r.bans_build_globs.required@, item_flat(col_bans_build_globs(reqs)))
    &&& scalar_resolution(r.bans_build_include_dependencies, col_bans_build_include_dependencies(reqs))
    &&& scalar_resolution(r.bans_build_include_workspace, col_bans_build_include_workspace(reqs))
    &&& scalar_resolution(r.bans_build_include_archives, col_bans_build_include_archives(reqs))
    &&& scalar_resolution(r.sources_unknown_registry, col_sources_unknown_registry(reqs))
    &&& scalar_resolution(r.sources_unknown_git, col_sources_unknown_git(reqs))
    &&& scalar_resolution(r.sources_required_git_spec, col_sources_required_git_spec(reqs))
    &&& list_resolution(r.sources_allow_git, flat_pairs(col_sources_allow_git(reqs), false), flat_pairs(col_sources_allow_git(reqs), true), sorted_exact_items(col_sources_allow_git(reqs)))
    &&& list_resolution(r.sources_private, flat_pairs(col_sources_private(reqs), false), flat_pairs(col_sources_private(reqs), true), sorted_exact_items(col_sources_private(reqs)))
    &&& list_resolution(r.sources_allow_registry, flat_pairs(col_sources_allow_registry(reqs), false), flat_pairs(col_sources_allow_registry(reqs), true), sorted_exact_items(col_sources_allow_registry(reqs)))
    &&& list_resolution(r.sources_allow_org_github, flat_pairs(col_sources_allow_org_github(reqs), false), flat_pairs(col_sources_allow_org_github(reqs), true), sorted_exact_items(col_sources_allow_org_github(reqs)))
    &&& list_resolution(r.sources_allow_org_gitlab, flat_pairs(col_sources_allow_org_gitlab(reqs), false), flat_pairs(col_sources_allow_org_gitlab(reqs), true), sorted_exact_items(col_sources_allow_org_gitlab(reqs)))
    &&& list_resolution(r.sources_allow_org_bitbucket, flat_pairs(col_sources_allow_org_bitbucket(reqs), false), flat_pairs(col_sources_allow_org_bitbucket(reqs), true), sorted_exact_items(col_sources_allow_org_bitbucket(reqs)))
    &&& scalar_resolution(r.sources_unused_allowed_source, col_sources_unused_allowed_source(reqs))
    &&& r.closed_settings@ == col_closed_settings(reqs)
}

/// The conflicts of merging `reqs` into `r`, field by field in the order of
/// the file's settings.
pub open spec fn deny_conflicts(reqs: Seq<(Provenance, DenyTomlRequirements)>, r: ResolvedDenyTomlRequirements) -> Seq<ConflictView> {
    seq![]
        + item_conflicts("graph.targets"@, sorted_identities(item_flat(col_graph_targets(reqs))), item_flat(col_graph_targets(reqs)))
        + list_conflicts("graph.exclude"@, r.graph_exclude, sorted_exact_items(col_graph_exclude(reqs)))
        + scalar_conflicts("graph.exclude-dev"@, col_graph_exclude_dev(reqs))
        + scalar_conflicts("graph.exclude-unpublished"@, col_graph_exclude_unpublished(reqs))
        + scalar_conflicts("graph.all-features"@, col_graph_all_features(reqs))
        + scalar_conflicts("graph.no-default-features"@, col_graph_no_default_features(reqs))
        + list_conflicts("graph.features"@, r.graph_features, sorted_exact_items(col_graph_features(reqs)))
        + scalar_conflicts("output.feature-depth"@, col_output_feature_depth(reqs))
        + scalar_conflicts("advisories.version"@, col_advisories_version(reqs))
        + scalar_conflicts("advisories.db-path"@, col_advisories_db_path(reqs))
        + list_conflicts("advisories.db-urls"@, r.advisories_db_urls, sorted_exact_items(col_advisories_db_urls(reqs)))
        + scalar_conflicts("advisories.yanked"@, col_advisories_yanked(reqs))
        + scalar_conflicts("advisories.disable-yank-checking"@, col_advisories_disable_yank_checking(reqs))
        + item_conflicts("advisories.ignore"@, sorted_identities(item_flat(col_advisories_ignore(reqs))), item_flat(col_advisories_ignore(reqs)))
        + scalar_conflicts("advisories.unmaintained"@, col_advisories_unmaintained(reqs))
        + scalar_conflicts("advisories.unsound"@, col_advisories_unsound(reqs))
        + scalar_conflicts("advisories.maximum-db-staleness"@, col_advisories_maximum_db_staleness(reqs))
        + scalar_conflicts("advisories.git-fetch-with-cli"@, col_advisories_git_fetch_with_cli(reqs))
        + scalar_conflicts("advisories.unused-ignored-advisory"@, col_advisories_unused_ignored_advisory(reqs))
        + scalar_conflicts("licenses.version"@, col_licenses_version(reqs))
        + scalar_conflicts("licenses.include-dev"@, col_licenses_include_dev(reqs))
        + scalar_conflicts("licenses.include-build"@, col_licenses_include_build(reqs))
        + list_conflicts("licenses.allow"@, r.licenses_allow, sorted_exact_items(col_licenses_allow(reqs)))
        + item_conflicts("licenses.exceptions"@, sorted_identities(item_flat(col_licenses_exceptions(reqs))), item_flat(col_licenses_exceptions(reqs)))
        + scalar_conflicts("licenses.confidence-threshold"@, col_licenses_confidence_threshold(reqs))
        + item_conflicts("licenses.clarify"@, sorted_identities(item_flat(col_licenses_clarify(reqs))), item_flat(col_licenses_clarify(reqs)))
        + scalar_conflicts("licenses.private.ignore"@, col_licenses_private_ignore(reqs))
        + list_conflicts("licenses.private.registries"@, r.licenses_private_registries, sorted_exact_items(col_licenses_private_registries(reqs)))
        + list_conflicts("licenses.private.ignore-sources"@, r.licenses_private_ignore_sources, sorted_exact_items(col_licenses_private_ignore_sources(reqs)))
        + scalar_conflicts("licenses.unused-allowed-license"@, col_licenses_unused_allowed_license(reqs))
        + scalar_conflicts("licenses.unused-license-exception"@, col_licenses_unused_license_exception(reqs))
        + scalar_conflicts("bans.multiple-versions"@, col_bans_multiple_versions(reqs))
        + scalar_conflicts("bans.multiple-versions-include-dev"@, col_bans_multiple_versions_include_dev(reqs))
        + scalar_conflicts("bans.wildcards"@, col_bans_wildcards(reqs))
        + scalar_conflicts("bans.allow-wildcard-paths"@, col_bans_allow_wildcard_paths(reqs))
        + scalar_conflicts("bans.highlight"@, col_bans_highlight(reqs))
        + scalar_conflicts("bans.workspace-default-features"@, col_bans_workspace_default_features(reqs))
        + scalar_conflicts("bans.external-default-features"@, col_bans_external_default_features(reqs))
        + item_conflicts("bans.allow"@, sorted_identities(item_flat(col_bans_allow(reqs))), item_flat(col_bans_allow(reqs)))
        + scalar_conflicts("bans.allow-workspace"@, col_bans_allow_workspace(reqs))
        + item_conflicts("bans.deny"@, sorted_identities(item_flat(col_bans_deny(reqs))), item_flat(col_bans_deny(reqs)))
        + item_conflicts("bans.features"@, sorted_identities(item_flat(col_bans_features(reqs))), item_flat(col_bans_features(reqs)))
        + feature_overlap_conflicts(r.bans_features.required@)
        + item_conflicts("bans.skip"@, sorted_identities(item_flat(col_bans_skip(reqs))), item_flat(col_bans_skip(reqs)))
        + item_conflicts("bans.skip-tree"@, sorted_identities(item_flat(col_bans_skip_tree(reqs))), item_flat(col_bans_skip_tree(reqs)))
        + scalar_conflicts("bans.workspace-dependencies.duplicates"@, col_bans_workspace_dependencies_duplicates(reqs))
        + scalar_conflicts("bans.workspace-dependencies.include-path-dependencies"@, col_bans_workspace_dependencies_include_path_dependencies(reqs))
        + scalar_conflicts("bans.workspace-dependencies.unused"@, col_bans_workspace_dependencies_unused(reqs))
        + scalar_conflicts("bans.build.executables"@, col_bans_build_executables(reqs))
        + scalar_conflicts("bans.build.interpreted"@, col_bans_build_interpreted(reqs))
        + list_conflicts("bans.build.script-extensions"@, r.bans_build_script_extensions, sorted_exact_items(col_bans_build_script_extensions(reqs)))
        + scalar_conflicts("bans.build.enable-builtin-globs"@, col_bans_build_enable_builtin_globs(reqs))
        + item_conflicts("bans.build.globs"@, sorted_identities(item_flat(col_bans_build_globs(reqs))), item_flat(col_bans_build_globs(reqs)))
        + scalar_conflicts("bans.build.include-dependencies"@, col_bans_build_include_dependencies(reqs))
        + scalar_conflicts("bans.build.include-workspace"@, col_bans_build_include_workspace(reqs))
        + scalar_conflicts("bans.build.include-archives"@, col_bans_build_include_archives(reqs))
        + scalar_conflicts("sources.unknown-registry"@, col_sources_unknown_registry(reqs))
        + scalar_conflicts("sources.unknown-git"@, col_sources_unknown_git(reqs))
        + scalar_conflicts("sources.required-git-spec"@, col_sources_required_git_spec(reqs))
        + list_conflicts("sources.allow-git"@, r.sources_allow_git, sorted_exact_items(col_sources_allow_git(reqs)))
        + list_conflicts("sources.private"@, r.sources_private, sorted_exact_items(col_sources_private(reqs)))
        + list_conflicts("sources.allow-registry"@, r.sources_allow_registry, sorted_exact_items(col_sources_allow_registry(reqs)))
        + list_conflicts("sources.allow-org.github"@, r.sources_allow_org_github, sorted_exact_items(col_sources_allow_org_github(reqs)))
        + list_conflicts("sources.allow-org.gitlab"@, r.sources_allow_org_gitlab, sorted_exact_items(col_sources_allow_org_gitlab(reqs)))
        + list_conflicts("sources.allow-org.bitbucket"@, r.sources_allow_org_bitbucket, sorted_exact_items(col_sources_allow_org_bitbucket(reqs)))
        + scalar_conflicts("sources.unused-allowed-source"@, col_sources_unused_allowed_source(reqs))
}

impl DenyTomlRequirements {
    /// The engine these requirements are for.
    pub fn engine_id(&self) -> (r: &'static str)
        ensures
            r == crate::deny_engine::ENGINE_ID,
    {
        crate::deny_engine::ENGINE_ID
    }

    /// Merges the requirements of several policies, field by field: scalar
    /// assertions must agree (ordered thresholds merge to the strictest),
    /// list requirements are gathered per value with exact lists compared in
    /// any order, array entries are gathered per identity. Every conflict is
    /// reported, in the order of the file's settings; the policies that close
    /// the file are kept with their messages.
    #[verifier::rlimit(100)]
    #[verifier::spinoff_prover]
    pub fn merge(reqs: Vec<(Provenance, DenyTomlRequirements)>) -> (r: (ResolvedDenyTomlRequirements, Vec<ConflictEntry>))
        ensures
            deny_resolution(r.0, reqs@),
            conflict_views(r.1@) == deny_conflicts(reqs@, r.0),
    {
        let ghost all = reqs@;
        let parts = split_rows(reqs);
        let DenyParts { part0, part1, part2, part3, part4, part5, part6, part7, part8, part9, part10 } = parts;
        let part0 = gather_part0(part0);
        let part1 = gather_part1(part1);
        let part2 = gather_part2(part2);
        let part3 = gather_part3(part3);
        let part4 = gather_part4(part4);
        let part5 = gather_part5(part5);
        let part6 = gather_part6(part6);
        let part7 = gather_part7(part7);
        let part8 = gather_part8(part8);
        let part9 = gather_part9(part9);
        let part10 = gather_part10(part10);
        proof {
            lemma_full_column_compose(all, to_part0(), part_graph_targets(), field_graph_targets());
            lemma_full_column_compose(all, to_part0(), part_graph_exclude(), field_graph_exclude());
            lemma_column_compose(all, to_part0(), part_graph_exclude_dev(), field_graph_exclude_dev());
            lemma_column_compose(all, to_part0(), part_graph_exclude_unpublished(), field_graph_exclude_unpublished());
            lemma_column_compose(all, to_part0(), part_graph_all_features(), field_graph_all_features());
            lemma_column_compose(all, to_part0(), part_graph_no_default_features(), field_graph_no_default_features());
            lemma_full_column_compose(all, to_part1(), part_graph_features(), field_graph_features());
            lemma_column_compose(all, to_part1(), part_output_feature_depth(), field_output_feature_depth());
            lemma_column_compose(all, to_part1(), part_advisories_version(), field_advisories_version());
            lemma_column_compose(all, to_part1(), part_advisories_db_path(), field_advisories_db_path());
            lemma_full_column_compose(all, to_part1(), part_advisories_db_urls(), field_advisories_db_urls());
            lemma_column_compose(all, to_part1(), part_advisories_yanked(), field_advisories_yanked());
            lemma_column_compose(all, to_part2(), part_advisories_disable_yank_checking(), field_advisories_disable_yank_checking());
            lemma_full_column_compose(all, to_part2(), part_advisories_ignore(), field_advisories_ignore());
            lemma_column_compose(all, to_part2(), part_advisories_unmaintained(), field_advisories_unmaintained());
            lemma_column_compose(all, to_part2(), part_advisories_unsound(), field_advisories_unsound());
            lemma_column_compose(all, to_part2(), part_advisories_maximum_db_staleness(), field_advisories_maximum_db_staleness());
            lemma_column_compose(all, to_part2(), part_advisories_git_fetch_with_cli(), field_advisories_git_fetch_with_cli());
            lemma_column_compose(all, to_part3(), part_advisories_unused_ignored_advisory(), field_advisories_unused_ignored_advisory());
            lemma_column_compose(all, to_part3(), part_licenses_version(), field_licenses_version());
            lemma_column_compose(all, to_part3(), part_licenses_include_dev(), field_licenses_include_dev());
            lemma_column_compose(all, to_part3(), part_licenses_include_build(), field_licenses_include_build());
            lemma_full_column_compose(all, to_part3(), part_licenses_allow(), field_licenses_allow());
            lemma_full_column_compose(all, to_part3(), part_licenses_exceptions(), field_licenses_exceptions());
            lemma_column_compose(all, to_part4(), part_licenses_confidence_threshold(), field_licenses_confidence_threshold());
            lemma_full_column_compose(all, to_part4(), part_licenses_clarify(), field_licenses_clarify());
            lemma_column_compose(all, to_part4(), part_licenses_private_ignore(), field_licenses_private_ignore());
            lemma_full_column_compose(all, to_part4(), part_licenses_private_registries(), field_licenses_private_registries());
            lemma_full_column_compose(all, to_part4(), part_licenses_private_ignore_sources(), field_licenses_private_ignore_sources());
            lemma_column_compose(all, to_part4(), part_licenses_unused_allowed_license(), field_licenses_unused_allowed_license());
            lemma_column_compose(all, to_part5(), part_licenses_unused_license_exception(), field_licenses_unused_license_exception());
            lemma_column_compose(all, to_part5(), part_bans_multiple_versions(), field_bans_multiple_versions());
            lemma_column_compose(all, to_part5(), part_bans_multiple_versions_include_dev(), field_bans_multiple_versions_include_dev());
            lemma_column_compose(all, to_part5(), part_bans_wildcards(), field_bans_wildcards());
            lemma_column_compose(all, to_part5(), part_bans_allow_wildcard_paths(), field_bans_allow_wildcard_paths());
            lemma_column_compose(all, to_part5(), part_bans_highlight(), field_bans_highlight());
            lemma_column_compose(all, to_part6(), part_bans_workspace_default_features(), field_bans_workspace_default_features());
            lemma_column_compose(all, to_part6(), part_bans_external_default_features(), field_bans_external_default_features());
            lemma_full_column_compose(all, to_part6(), part_bans_allow(), field_bans_allow());
            lemma_column_compose(all, to_part6(), part_bans_allow_workspace(), field_bans_allow_workspace());
            lemma_full_column_compose(all, to_part6(), part_bans_deny(), field_bans_deny());
            lemma_full_column_compose(all, to_part6(), part_bans_features(), field_bans_features());
            lemma_full_column_compose(all, to_part7(), part_bans_skip(), field_bans_skip());
            lemma_full_column_compose(all, to_part7(), part_bans_skip_tree(), field_bans_skip_tree());
            lemma_column_compose(all, to_part7(), part_bans_workspace_dependencies_duplicates(), field_bans_workspace_dependencies_duplicates());
            lemma_column_compose(all, to_part7(), part_bans_workspace_dependencies_include_path_dependencies(), field_bans_workspace_dependencies_include_path_dependencies());
            lemma_column_compose(all, to_part7(), part_bans_workspace_dependencies_unused(), field_bans_workspace_dependencies_unused());
            lemma_column_compose(all, to_part7(), part_bans_build_executables(), field_bans_build_executables());
            lemma_column_compose(all, to_part8(), part_bans_build_interpreted(), field_bans_build_interpreted());
            lemma_full_column_compose(all, to_part8(), part_bans_build_script_extensions(), field_bans_build_script_extensions());
            lemma_column_compose(all, to_part8(), part_bans_build_enable_builtin_globs(), field_bans_build_enable_builtin_globs());
            lemma_full_column_compose(all, to_part8(), part_bans_build_globs(), field_bans_build_globs());
            lemma_column_compose(all, to_part8(), part_bans_build_include_dependencies(), field_bans_build_include_dependencies());
            lemma_column_compose(all, to_part8(), part_bans_build_include_workspace(), field_bans_build_include_workspace());
            lemma_column_compose(all, to_part9(), part_bans_build_include_archives(), field_bans_build_include_archives());
            lemma_column_compose(all, to_part9(), part_sources_unknown_registry(), field_sources_unknown_registry());
            lemma_column_compose(all, to_part9(), part_sources_unknown_git(), field_sources_unknown_git());
            lemma_column_compose(all, to_part9(), part_sources_required_git_spec(), field_sources_required_git_spec());
            lemma_full_column_compose(all, to_part9(), part_sources_allow_git(), field_sources_allow_git());
            lemma_full_column_compose(all, to_part9(), part_sources_private(), field_sources_private());
            lemma_full_column_compose(all, to_part10(), part_sources_allow_registry(), field_sources_allow_registry());
            lemma_full_column_compose(all, to_part10(), part_sources_allow_org_github(), field_sources_allow_org_github());
            lemma_full_column_compose(all, to_part10(), part_sources_allow_org_gitlab(), field_sources_allow_org_gitlab());
            lemma_full_column_compose(all, to_part10(), part_sources_allow_org_bitbucket(), field_sources_allow_org_bitbucket());
            lemma_column_compose(all, to_part10(), part_sources_unused_allowed_source(), field_sources_unused_allowed_source());
            lemma_column_compose(all, to_part10(), part_closed_settings(), field_closed_settings());
        }
        let Part0Columns { graph_targets, graph_exclude, graph_exclude_dev, graph_exclude_unpublished, graph_all_features, graph_no_default_features } = part0;
        let Part1Columns { graph_features, output_feature_depth, advisories_version, advisories_db_path, advisories_db_urls, advisories_yanked } = part1;
        let Part2Columns { advisories_disable_yank_checking, advisories_ignore, advisories_unmaintained, advisories_unsound, advisories_maximum_db_staleness, advisories_git_fetch_with_cli } = part2;
        let Part3Columns { advisories_unused_ignored_advisory, licenses_version, licenses_include_dev, licenses_include_build, licenses_allow, licenses_exceptions } = part3;
        let Part4Columns { licenses_confidence_threshold, licenses_clarify, licenses_private_ignore, licenses_private_registries, licenses_private_ignore_sources, licenses_unused_allowed_license } = part4;
        let Part5Columns { licenses_unused_license_exception, bans_multiple_versions, bans_multiple_versions_include_dev, bans_wildcards, bans_allow_wildcard_paths, bans_highlight } = part5;
        let Part6Columns { bans_workspace_default_features, bans_external_default_features, bans_allow, bans_allow_workspace, bans_deny, bans_features } = part6;
        let Part7Columns { bans_skip, bans_skip_tree, bans_workspace_dependencies_duplicates, bans_workspace_dependencies_include_path_dependencies, bans_workspace_dependencies_unused, bans_build_executables } = part7;
        let Part8Columns { bans_build_interpreted, bans_build_script_extensions, bans_build_enable_builtin_globs, bans_build_globs, bans_build_include_dependencies, bans_build_include_workspace } = part8;
        let Part9Columns { bans_build_include_archives, sources_unknown_registry, sources_unknown_git, sources_required_git_spec, sources_allow_git, sources_private } = part9;
        let Part10Columns { sources_allow_registry, sources_allow_org_github, sources_allow_org_gitlab, sources_allow_org_bitbucket, sources_unused_allowed_source, closed_settings } = part10;
        let mut conflicts: Vec<ConflictEntry> = Vec::new();
        assert(conflict_views(conflicts@) =~= seq![]);
        let graph_targets = resolve_items("graph.targets", graph_targets, &mut conflicts);
        let graph_exclude = resolve_normalized_list("graph.exclude", graph_exclude, &mut conflicts);
        let graph_exclude_dev = resolve_scalar("graph.exclude-dev", graph_exclude_dev, &mut conflicts);
        let graph_exclude_unpublished = resolve_scalar("graph.exclude-unpublished", graph_exclude_unpublished, &mut conflicts);
        let graph_all_features = resolve_scalar("graph.all-features", graph_all_features, &mut conflicts);
        let graph_no_default_features = resolve_scalar("graph.no-default-features", graph_no_default_features, &mut conflicts);
        let graph_features = resolve_normalized_list("graph.features", graph_features, &mut conflicts);
        let output_feature_depth = resolve_scalar("output.feature-depth", output_feature_depth, &mut conflicts);
        let advisories_version = resolve_scalar("advisories.version", advisories_version, &mut conflicts);
        let advisories_db_path = resolve_scalar("advisories.db-path", advisories_db_path, &mut conflicts);
        let advisories_db_urls = resolve_normalized_list("advisories.db-urls", advisories_db_urls, &mut conflicts);
        let advisories_yanked = resolve_scalar("advisories.yanked", advisories_yanked, &mut conflicts);
        let advisories_disable_yank_checking = resolve_scalar("advisories.disable-yank-checking", advisories_disable_yank_checking, &mut conflicts);
        let advisories_ignore = resolve_items("advisories.ignore", advisories_ignore, &mut conflicts);
        let advisories_unmaintained = resolve_scalar("advisories.unmaintained", advisories_unmaintained, &mut conflicts);
        let advisories_unsound = resolve_scalar("advisories.unsound", advisories_unsound, &mut conflicts);
        let advisories_maximum_db_staleness = resolve_scalar("advisories.maximum-db-staleness", advisories_maximum_db_staleness, &mut conflicts);
        let advisories_git_fetch_with_cli = resolve_scalar("advisories.git-fetch-with-cli", advisories_git_fetch_with_cli, &mut conflicts);
        let advisories_unused_ignored_advisory = resolve_scalar("advisories.unused-ignored-advisory", advisories_unused_ignored_advisory, &mut conflicts);
        let licenses_version = resolve_scalar("licenses.version", licenses_version, &mut conflicts);
        let licenses_include_dev = resolve_scalar("licenses.include-dev", licenses_include_dev, &mut conflicts);
        let licenses_include_build = resolve_scalar("licenses.include-build", licenses_include_build, &mut conflicts);
        let licenses_allow = resolve_normalized_list("licenses.allow", licenses_allow, &mut conflicts);
        let licenses_exceptions = resolve_items("licenses.exceptions", licenses_exceptions, &mut conflicts);
        let licenses_confidence_threshold = resolve_scalar("licenses.confidence-threshold", licenses_confidence_threshold, &mut conflicts);
        let licenses_clarify = resolve_items("licenses.clarify", licenses_clarify, &mut conflicts);
        let licenses_private_ignore = resolve_scalar("licenses.private.ignore", licenses_private_ignore, &mut conflicts);
        let licenses_private_registries = resolve_normalized_list("licenses.private.registries", licenses_private_registries, &mut conflicts);
        let licenses_private_ignore_sources = resolve_normalized_list("licenses.private.ignore-sources", licenses_private_ignore_sources, &mut conflicts);
        let licenses_unused_allowed_license = resolve_scalar("licenses.unused-allowed-license", licenses_unused_allowed_license, &mut conflicts);
        let licenses_unused_license_exception = resolve_scalar("licenses.unused-license-exception", licenses_unused_license_exception, &mut conflicts);
        let bans_multiple_versions = resolve_scalar("bans.multiple-versions", bans_multiple_versions, &mut conflicts);
        let bans_multiple_versions_include_dev = resolve_scalar("bans.multiple-versions-include-dev", bans_multiple_versions_include_dev, &mut conflicts);
        let bans_wildcards = resolve_scalar("bans.wildcards", bans_wildcards, &mut conflicts);
        let bans_allow_wildcard_paths = resolve_scalar("bans.allow-wildcard-paths", bans_allow_wildcard_paths, &mut conflicts);
        let bans_highlight = resolve_scalar("bans.highlight", bans_highlight, &mut conflicts);
        let bans_workspace_default_features = resolve_scalar("bans.workspace-default-features", bans_workspace_default_features, &mut conflicts);
        let bans_external_default_features = resolve_scalar("bans.external-default-features", bans_external_default_features, &mut conflicts);
        let bans_allow = resolve_items("bans.allow", bans_allow, &mut conflicts);
        let bans_allow_workspace = resolve_scalar("bans.allow-workspace", bans_allow_workspace, &mut conflicts);
        let bans_deny = resolve_items("bans.deny", bans_deny, &mut conflicts);
        let bans_features = resolve_items("bans.features", bans_features, &mut conflicts);
        report_feature_overlaps(&bans_features, &mut conflicts);
        let bans_skip = resolve_items("bans.skip", bans_skip, &mut conflicts);
        let bans_skip_tree = resolve_items("bans.skip-tree", bans_skip_tree, &mut conflicts);
        let bans_workspace_dependencies_duplicates = resolve_scalar("bans.workspace-dependencies.duplicates", bans_workspace_dependencies_duplicates, &mut conflicts);
        let bans_workspace_dependencies_include_path_dependencies = resolve_scalar("bans.workspace-dependencies.include-path-dependencies", bans_workspace_dependencies_include_path_dependencies, &mut conflicts);
        let bans_workspace_dependencies_unused = resolve_scalar("bans.workspace-dependencies.unused", bans_workspace_dependencies_unused, &mut conflicts);
        let bans_build_executables = resolve_scalar("bans.build.executables", bans_build_executables, &mut conflicts);
        let bans_build_interpreted = resolve_scalar("bans.build.interpreted", bans_build_interpreted, &mut conflicts);
        let bans_build_script_extensions = resolve_normalized_list("bans.build.script-extensions", bans_build_script_extensions, &mut conflicts);
        let bans_build_enable_builtin_globs = resolve_scalar("bans.build.enable-builtin-globs", bans_build_enable_builtin_globs, &mut conflicts);
        let bans_build_globs = resolve_items("bans.build.globs", bans_build_globs, &mut conflicts);
        let bans_build_include_dependencies = resolve_scalar("bans.build.include-dependencies", bans_build_include_dependencies, &mut conflicts);
        let bans_build_include_workspace = resolve_scalar("bans.build.include-workspace", bans_build_include_workspace, &mut conflicts);
        let bans_build_include_archives = resolve_scalar("bans.build.include-archives", bans_build_include_archives, &mut conflicts);
        let sources_unknown_registry = resolve_scalar("sources.unknown-registry", sources_unknown_registry, &mut conflicts);
        let sources_unknown_git = resolve_scalar("sources.unknown-git", sources_unknown_git, &mut conflicts);
        let sources_required_git_spec = resolve_scalar("sources.required-git-spec", sources_required_git_spec, &mut conflicts);
        let sources_allow_git = resolve_normalized_list("sources.allow-git", sources_allow_git, &mut conflicts);
        let sources_private = resolve_normalized_list("sources.private", sources_private, &mut conflicts);
        let sources_allow_registry = resolve_normalized_list("sources.allow-registry", sources_allow_registry, &mut conflicts);
        let sources_allow_org_github = resolve_normalized_list("sources.allow-org.github", sources_allow_org_github, &mut conflicts);
        let sources_allow_org_gitlab = resolve_normalized_list("sources.allow-org.gitlab", sources_allow_org_gitlab, &mut conflicts);
        let sources_allow_org_bitbucket = resolve_normalized_list("sources.allow-org.bitbucket", sources_allow_org_bitbucket, &mut conflicts);
        let sources_unused_allowed_source = resolve_scalar("sources.unused-allowed-source", sources_unused_allowed_source, &mut conflicts);
        let resolved = ResolvedDenyTomlRequirements {
            graph_targets,
            graph_exclude,
            graph_exclude_dev,
            graph_exclude_unpublished,
            graph_all_features,
            graph_no_default_features,
            graph_features,
            output_feature_depth,
            advisories_version,
            advisories_db_path,
            advisories_db_urls,
            advisories_yanked,
            advisories_disable_yank_checking,
            advisories_ignore,
            advisories_unmaintained,
            advisories_unsound,
            advisories_maximum_db_staleness,
            advisories_git_fetch_with_cli,
            advisories_unused_ignored_advisory,
            licenses_version,
            licenses_include_dev,
            licenses_include_build,
            licenses_allow,
            licenses_exceptions,
            licenses_confidence_threshold,
            licenses_clarify,
            licenses_private_ignore,
            licenses_private_registries,
            licenses_private_ignore_sources,
            licenses_unused_allowed_license,
            licenses_unused_license_exception,
            bans_multiple_versions,
            bans_multiple_versions_include_dev,
            bans_wildcards,
            bans_allow_wildcard_paths,
            bans_highlight,
            bans_workspace_default_features,
            bans_external_default_features,
            bans_allow,
            bans_allow_workspace,
            bans_deny,
            bans_features,
            bans_skip,
            bans_skip_tree,
            bans_workspace_dependencies_duplicates,
            bans_workspace_dependencies_include_path_dependencies,
            bans_workspace_dependencies_unused,
            bans_build_executables,
            bans_build_interpreted,
            bans_build_script_extensions,
            bans_build_enable_builtin_globs,
            bans_build_globs,
            bans_build_include_dependencies,
            bans_build_include_workspace,
            bans_build_include_archives,
            sources_unknown_registry,
            sources_unknown_git,
            sources_required_git_spec,
            sources_allow_git,
            sources_private,
            sources_allow_registry,
            sources_allow_org_github,
            sources_allow_org_gitlab,
            sources_allow_org_bitbucket,
            sources_unused_allowed_source,
            closed_settings,
        };
        (resolved, conflicts)
    }
}


/// A merged feature ban whose allowed and forbidden features share a
/// feature: its allowed features name one that its forbidden features name.
pub open spec fn features_overlap(e: ResolvedItemEntry<DenyFeatureBanSpec>) -> bool {
    exists|i: int| 0 <= i < e.merged@.1.len() && e.merged@.2.contains(#[trigger] e.merged@.1[i])
}

/// Every merged feature ban whose allowed and forbidden features overlap
/// gets a `feature-allow-deny-overlap` conflict keyed
/// `bans.features.<package>` among the overlap conflicts of the merge.
pub proof fn law_feature_overlaps_are_reported(es: Seq<ResolvedItemEntry<DenyFeatureBanSpec>>)
    ensures
        forall|i: int| 0 <= i < es.len() && features_overlap(#[trigger] es[i]) ==>
            exists|c: ConflictView| feature_overlap_conflicts(es).contains(c)
                && c.0 == "bans.features."@ + es[i].identity@ && c.1 == "feature-allow-deny-overlap"@,
    decreases es.len(),
{
    if es.len() > 0 {
        let prev = es.drop_last();
        law_feature_overlaps_are_reported(prev);
        let cur = feature_overlap_conflicts(es);
        let pc = feature_overlap_conflicts(prev);
        let e = es.last();
        assert(spec_first_overlap(e.merged@.1, e.merged@.2) is Some <==> features_overlap(e));
        assert forall|i: int| 0 <= i < es.len() && features_overlap(#[trigger] es[i]) implies
            exists|c: ConflictView| cur.contains(c)
                && c.0 == "bans.features."@ + es[i].identity@ && c.1 == "feature-allow-deny-overlap"@ by {
            if i == es.len() - 1 {
                let c = cur[pc.len() as int];
                assert(cur.contains(c));
            } else {
                assert(prev[i] == es[i]);
                let c = choose|c: ConflictView| pc.contains(c)
                    && c.0 == "bans.features."@ + prev[i].identity@ && c.1 == "feature-allow-deny-overlap"@;
                let m = choose|m: int| 0 <= m < pc.len() && pc[m] == c;
                assert(cur[m] == pc[m]);
                assert(cur.contains(c));
            }
        }
    }
}


proof fn lemma_contains_before(a: Seq<ConflictView>, b: Seq<ConflictView>, c: ConflictView)
    requires
        a.contains(c),
    ensures
        (a + b).contains(c),
{
    let i = choose|i: int| 0 <= i < a.len() && a[i] == c;
    assert((a + b)[i] == c);
}

proof fn lemma_contains_after(a: Seq<ConflictView>, b: Seq<ConflictView>, c: ConflictView)
    requires
        b.contains(c),
    ensures
        (a + b).contains(c),
{
    let i = choose|i: int| 0 <= i < b.len() && b[i] == c;
    assert((a + b)[a.len() + i] == c);
}

/// A conflict that the feature-overlap check reports is among the conflicts
/// of the whole `deny.toml` merge.
proof fn lemma_overlap_conflict_in_merge(reqs: Seq<(Provenance, DenyTomlRequirements)>, r: ResolvedDenyTomlRequirements, c: ConflictView)
    requires
        feature_overlap_conflicts(r.bans_features.required@).contains(c),
    ensures
        deny_conflicts(reqs, r).contains(c),
{
    let t0 = seq![] + item_conflicts("graph.targets"@, sorted_identities(item_flat(col_graph_targets(reqs))), item_flat(col_graph_targets(reqs)));
    let t1 = t0 + list_conflicts("graph.exclude"@, r.graph_exclude, sorted_exact_items(col_graph_exclude(reqs)));
    let t2 = t1 + scalar_conflicts("graph.exclude-dev"@, col_graph_exclude_dev(reqs));
    let t3 = t2 + scalar_conflicts("graph.exclude-unpublished"@, col_graph_exclude_unpublished(reqs));
    let t4 = t3 + scalar_conflicts("graph.all-features"@, col_graph_all_features(reqs));
    let t5 = t4 + scalar_conflicts("graph.no-default-features"@, col_graph_no_default_features(reqs));
    let t6 = t5 + list_conflicts("graph.features"@, r.graph_features, sorted_exact_items(col_graph_features(reqs)));
    let t7 = t6 + scalar_conflicts("output.feature-depth"@, col_output_feature_depth(reqs));
    let t8 = t7 + scalar_conflicts("advisories.version"@, col_advisories_version(reqs));
    let t9 = t8 + scalar_conflicts("advisories.db-path"@, col_advisories_db_path(reqs));
    let t10 = t9 + list_conflicts("advisories.db-urls"@, r.advisories_db_urls, sorted_exact_items(col_advisories_db_urls(reqs)));
    let t11 = t10 + scalar_conflicts("advisories.yanked"@, col_advisories_yanked(reqs));
    let t12 = t11 + scalar_conflicts("advisories.disable-yank-checking"@, col_advisories_disable_yank_checking(reqs));
    let t13 = t12 + item_conflicts("advisories.ignore"@, sorted_identities(item_flat(col_advisories_ignore(reqs))), item_flat(col_advisories_ignore(reqs)));
    let t14 = t13 + scalar_conflicts("advisories.unmaintained"@, col_advisories_unmaintained(reqs));
    let t15 = t14 + scalar_conflicts("advisories.unsound"@, col_advisories_unsound(reqs));
    let t16 = t15 + scalar_conflicts("advisories.maximum-db-staleness"@, col_advisories_maximum_db_staleness(reqs));
    let t17 = t16 + scalar_conflicts("advisories.git-fetch-with-cli"@, col_advisories_git_fetch_with_cli(reqs));
    let t18 = t17 + scalar_conflicts("advisories.unused-ignored-advisory"@, col_advisories_unused_ignored_advisory(reqs));
    let t19 = t18 + scalar_conflicts("licenses.version"@, col_licenses_version(reqs));
    let t20 = t19 + scalar_conflicts("licenses.include-dev"@, col_licenses_include_dev(reqs));
    let t21 = t20 + scalar_conflicts("licenses.include-build"@, col_licenses_include_build(reqs));
    let t22 = t21 + list_conflicts("licenses.allow"@, r.licenses_allow, sorted_exact_items(col_licenses_allow(reqs)));
    let t23 = t22 + item_conflicts("licenses.exceptions"@, sorted_identities(item_flat(col_licenses_exceptions(reqs))), item_flat(col_licenses_exceptions(reqs)));
    let t24 = t23 + scalar_conflicts("licenses.confidence-threshold"@, col_licenses_confidence_threshold(reqs));
    let t25 = t24 + item_conflicts("licenses.clarify"@, sorted_identities(item_flat(col_licenses_clarify(reqs))), item_flat(col_licenses_clarify(reqs)));
    let t26 = t25 + scalar_conflicts("licenses.private.ignore"@, col_licenses_private_ignore(reqs));
    let t27 = t26 + list_conflicts("licenses.private.registries"@, r.licenses_private_registries, sorted_exact_items(col_licenses_private_registries(reqs)));
    let t28 = t27 + list_conflicts("licenses.private.ignore-sources"@, r.licenses_private_ignore_sources, sorted_exact_items(col_licenses_private_ignore_sources(reqs)));
    let t29 = t28 + scalar_conflicts("licenses.unused-allowed-license"@, col_licenses_unused_allowed_license(reqs));
    let t30 = t29 + scalar_conflicts("licenses.unused-license-exception"@, col_licenses_unused_license_exception(reqs));
    let t31 = t30 + scalar_conflicts("bans.multiple-versions"@, col_bans_multiple_versions(reqs));
    let t32 = t31 + scalar_conflicts("bans.multiple-versions-include-dev"@, col_bans_multiple_versions_include_dev(reqs));
    let t33 = t32 + scalar_conflicts("bans.wildcards"@, col_bans_wildcards(reqs));
    let t34 = t33 + scalar_conflicts("bans.allow-wildcard-paths"@, col_bans_allow_wildcard_paths(reqs));
    let t35 = t34 + scalar_conflicts("bans.highlight"@, col_bans_highlight(reqs));
    let t36 = t35 + scalar_conflicts("bans.workspace-default-features"@, col_bans_workspace_default_features(reqs));
    let t37 = t36 + scalar_conflicts("bans.external-default-features"@, col_bans_external_default_features(reqs));
    let t38 = t37 + item_conflicts("bans.allow"@, sorted_identities(item_flat(col_bans_allow(reqs))), item_flat(col_bans_allow(reqs)));
    let t39 = t38 + scalar_conflicts("bans.allow-workspace"@, col_bans_allow_workspace(reqs));
    let t40 = t39 + item_conflicts("bans.deny"@, sorted_identities(item_flat(col_bans_deny(reqs))), item_flat(col_bans_deny(reqs)));
    let t41 = t40 + item_conflicts("bans.features"@, sorted_identities(item_flat(col_bans_features(reqs))), item_flat(col_bans_features(reqs)));
    let t42 = t41 + feature_overlap_conflicts(r.bans_features.required@);
    let t43 = t42 + item_conflicts("bans.skip"@, sorted_identities(item_flat(col_bans_skip(reqs))), item_flat(col_bans_skip(reqs)));
    let t44 = t43 + item_conflicts("bans.skip-tree"@, sorted_identities(item_flat(col_bans_skip_tree(reqs))), item_flat(col_bans_skip_tree(reqs)));
    let t45 = t44 + scalar_conflicts("bans.workspace-dependencies.duplicates"@, col_bans_workspace_dependencies_duplicates(reqs));
    let t46 = t45 + scalar_conflicts("bans.workspace-dependencies.include-path-dependencies"@, col_bans_workspace_dependencies_include_path_dependencies(reqs));
    let t47 = t46 + scalar_conflicts("bans.workspace-dependencies.unused"@, col_bans_workspace_dependencies_unused(reqs));
    let t48 = t47 + scalar_conflicts("bans.build.executables"@, col_bans_build_executables(reqs));
    let t49 = t48 + scalar_conflicts("bans.build.interpreted"@, col_bans_build_interpreted(reqs));
    let t50 = t49 + list_conflicts("bans.build.script-extensions"@, r.bans_build_script_extensions, sorted_exact_items(col_bans_build_script_extensions(reqs)));
    let t51 = t50 + scalar_conflicts("bans.build.enable-builtin-globs"@, col_bans_build_enable_builtin_globs(reqs));
    let t52 = t51 + item_conflicts("bans.build.globs"@, sorted_identities(item_flat(col_bans_build_globs(reqs))), item_flat(col_bans_build_globs(reqs)));
    let t53 = t52 + scalar_conflicts("bans.build.include-dependencies"@, col_bans_build_include_dependencies(reqs));
    let t54 = t53 + scalar_conflicts("bans.build.include-workspace"@, col_bans_build_include_workspace(reqs));
    let t55 = t54 + scalar_conflicts("bans.build.include-archives"@, col_bans_build_include_archives(reqs));
    let t56 = t55 + scalar_conflicts("sources.unknown-registry"@, col_sources_unknown_registry(reqs));
    let t57 = t56 + scalar_conflicts("sources.unknown-git"@, col_sources_unknown_git(reqs));
    let t58 = t57 + scalar_conflicts("sources.required-git-spec"@, col_sources_required_git_spec(reqs));
    let t59 = t58 + list_conflicts("sources.allow-git"@, r.sources_allow_git, sorted_exact_items(col_sources_allow_git(reqs)));
    let t60 = t59 + list_conflicts("sources.private"@, r.sources_private, sorted_exact_items(col_sources_private(reqs)));
    let t61 = t60 + list_conflicts("sources.allow-registry"@, r.sources_allow_registry, sorted_exact_items(col_sources_allow_registry(reqs)));
    let t62 = t61 + list_conflicts("sources.allow-org.github"@, r.sources_allow_org_github, sorted_exact_items(col_sources_allow_org_github(reqs)));
    let t63 = t62 + list_conflicts("sources.allow-org.gitlab"@, r.sources_allow_org_gitlab, sorted_exact_items(col_sources_allow_org_gitlab(reqs)));
    let t64 = t63 + list_conflicts("sources.allow-org.bitbucket"@, r.sources_allow_org_bitbucket, sorted_exact_items(col_sources_allow_org_bitbucket(reqs)));
    let t65 = t64 + scalar_conflicts("sources.unused-allowed-source"@, col_sources_unused_allowed_source(reqs));
    lemma_contains_after(t41, feature_overlap_conflicts(r.bans_features.required@), c);
    lemma_contains_before(t42, item_conflicts("bans.skip"@, sorted_identities(item_flat(col_bans_skip(reqs))), item_flat(col_bans_skip(reqs))), c);
    lemma_contains_before(t43, item_conflicts("bans.skip-tree"@, sorted_identities(item_flat(col_bans_skip_tree(reqs))), item_flat(col_bans_skip_tree(reqs))), c);
    lemma_contains_before(t44, scalar_conflicts("bans.workspace-dependencies.duplicates"@, col_bans_workspace_dependencies_duplicates(reqs)), c);
    lemma_contains_before(t45, scalar_conflicts("bans.workspace-dependencies.include-path-dependencies"@, col_bans_workspace_dependencies_include_path_dependencies(reqs)), c);
    lemma_contains_before(t46, scalar_conflicts("bans.workspace-dependencies.unused"@, col_bans_workspace_dependencies_unused(reqs)), c);
    lemma_contains_before(t47, scalar_conflicts("bans.build.executables"@, col_bans_build_executables(reqs)), c);
    lemma_contains_before(t48, scalar_conflicts("bans.build.interpreted"@, col_bans_build_interpreted(reqs)), c);
    lemma_contains_before(t49, list_conflicts("bans.build.script-extensions"@, r.bans_build_script_extensions, sorted_exact_items(col_bans_build_script_extensions(reqs))), c);
    lemma_contains_before(t50, scalar_conflicts("bans.build.enable-builtin-globs"@, col_bans_build_enable_builtin_globs(reqs)), c);
    lemma_contains_before(t51, item_conflicts("bans.build.globs"@, sorted_identities(item_flat(col_bans_build_globs(reqs))), item_flat(col_bans_build_globs(reqs))), c);
    lemma_contains_before(t52, scalar_conflicts("bans.build.include-dependencies"@, col_bans_build_include_dependencies(reqs)), c);
    lemma_contains_before(t53, scalar_conflicts("bans.build.include-workspace"@, col_bans_build_include_workspace(reqs)), c);
    lemma_contains_before(t54, scalar_conflicts("bans.build.include-archives"@, col_bans_build_include_archives(reqs)), c);
    lemma_contains_before(t55, scalar_conflicts("sources.unknown-registry"@, col_sources_unknown_registry(reqs)), c);
    lemma_contains_before(t56, scalar_conflicts("sources.unknown-git"@, col_sources_unknown_git(reqs)), c);
    lemma_contains_before(t57, scalar_conflicts("sources.required-git-spec"@, col_sources_required_git_spec(reqs)), c);
    lemma_contains_before(t58, list_conflicts("sources.allow-git"@, r.sources_allow_git, sorted_exact_items(col_sources_allow_git(reqs))), c);
    lemma_contains_before(t59, list_conflicts("sources.private"@, r.sources_private, sorted_exact_items(col_sources_private(reqs))), c);
    lemma_contains_before(t60, list_conflicts("sources.allow-registry"@, r.sources_allow_registry, sorted_exact_items(col_sources_allow_registry(reqs))), c);
    lemma_contains_before(t61, list_conflicts("sources.allow-org.github"@, r.sources_allow_org_github, sorted_exact_items(col_sources_allow_org_github(reqs))), c);
    lemma_contains_before(t62, list_conflicts("sources.allow-org.gitlab"@, r.sources_allow_org_gitlab, sorted_exact_items(col_sources_allow_org_gitlab(reqs))), c);
    lemma_contains_before(t63, list_conflicts("sources.allow-org.bitbucket"@, r.sources_allow_org_bitbucket, sorted_exact_items(col_sources_allow_org_bitbucket(reqs))), c);
    lemma_contains_before(t64, scalar_conflicts("sources.unused-allowed-source"@, col_sources_unused_allowed_source(reqs)), c);
    assert(deny_conflicts(reqs, r) == t65);
}

/// After merging `deny.toml` requirements, every merged feature ban whose
/// allowed and forbidden features share a feature has a
/// `feature-allow-deny-overlap` conflict keyed `bans.features.<package>`
/// among the merge's conflicts.
pub proof fn law_merge_reports_feature_overlaps(reqs: Seq<(Provenance, DenyTomlRequirements)>, r: ResolvedDenyTomlRequirements, conflicts: Seq<ConflictView>)
    requires
        deny_resolution(r, reqs),
        conflicts == deny_conflicts(reqs, r),
    ensures
        forall|i: int| 0 <= i < r.bans_features.required@.len() && features_overlap(#[trigger] r.bans_features.required@[i]) ==>
            exists|c: ConflictView| conflicts.contains(c)
                && c.0 == "bans.features."@ + r.bans_features.required@[i].identity@ && c.1 == "feature-allow-deny-overlap"@,
{
    let es = r.bans_features.required@;
    law_feature_overlaps_are_reported(es);
    assert forall|i: int| 0 <= i < es.len() && features_overlap(#[trigger] es[i]) implies
        exists|c: ConflictView| conflicts.contains(c)
            && c.0 == "bans.features."@ + es[i].identity@ && c.1 == "feature-allow-deny-overlap"@ by {
        let c = choose|c: ConflictView| feature_overlap_conflicts(es).contains(c)
            && c.0 == "bans.features."@ + es[i].identity@ && c.1 == "feature-allow-deny-overlap"@;
        lemma_overlap_conflict_in_merge(reqs, r, c);
    }
}


/// A conflict that merging `bans.deny` reports is among the conflicts of the
/// whole `deny.toml` merge.
proof fn lemma_ban_conflict_in_merge(reqs: Seq<(Provenance, DenyTomlRequirements)>, r: ResolvedDenyTomlRequirements, c: ConflictView)
    requires
        item_conflicts("bans.deny"@, sorted_identities(item_flat(col_bans_deny(reqs))), item_flat(col_bans_deny(reqs))).contains(c),
    ensures
        deny_conflicts(reqs, r).contains(c),
{
    let t0 = seq![] + item_conflicts("graph.targets"@, sorted_identities(item_flat(col_graph_targets(reqs))), item_flat(col_graph_targets(reqs)));
    let t1 = t0 + list_conflicts("graph.exclude"@, r.graph_exclude, sorted_exact_items(col_graph_exclude(reqs)));
    let t2 = t1 + scalar_conflicts("graph.exclude-dev"@, col_graph_exclude_dev(reqs));
    let t3 = t2 + scalar_conflicts("graph.exclude-unpublished"@, col_graph_exclude_unpublished(reqs));
    let t4 = t3 + scalar_conflicts("graph.all-features"@, col_graph_all_features(reqs));
    let t5 = t4 + scalar_conflicts("graph.no-default-features"@, col_graph_no_default_features(reqs));
    let t6 = t5 + list_conflicts("graph.features"@, r.graph_features, sorted_exact_items(col_graph_features(reqs)));
    let t7 = t6 + scalar_conflicts("output.feature-depth"@, col_output_feature_depth(reqs));
    let t8 = t7 + scalar_conflicts("advisories.version"@, col_advisories_version(reqs));
    let t9 = t8 + scalar_conflicts("advisories.db-path"@, col_advisories_db_path(reqs));
    let t10 = t9 + list_conflicts("advisories.db-urls"@, r.advisories_db_urls, sorted_exact_items(col_advisories_db_urls(reqs)));
    let t11 = t10 + scalar_conflicts("advisories.yanked"@, col_advisories_yanked(reqs));
    let t12 = t11 + scalar_conflicts("advisories.disable-yank-checking"@, col_advisories_disable_yank_checking(reqs));
    let t13 = t12 + item_conflicts("advisories.ignore"@, sorted_identities(item_flat(col_advisories_ignore(reqs))), item_flat(col_advisories_ignore(reqs)));
    let t14 = t13 + scalar_conflicts("advisories.unmaintained"@, col_advisories_unmaintained(reqs));
    let t15 = t14 + scalar_conflicts("advisories.unsound"@, col_advisories_unsound(reqs));
    let t16 = t15 + scalar_conflicts("advisories.maximum-db-staleness"@, col_advisories_maximum_db_staleness(reqs));
    let t17 = t16 + scalar_conflicts("advisories.git-fetch-with-cli"@, col_advisories_git_fetch_with_cli(reqs));
    let t18 = t17 + scalar_conflicts("advisories.unused-ignored-advisory"@, col_advisories_unused_ignored_advisory(reqs));
    let t19 = t18 + scalar_conflicts("licenses.version"@, col_licenses_version(reqs));
    let t20 = t19 + scalar_conflicts("licenses.include-dev"@, col_licenses_include_dev(reqs));
    let t21 = t20 + scalar_conflicts("licenses.include-build"@, col_licenses_include_build(reqs));
    let t22 = t21 + list_conflicts("licenses.allow"@, r.licenses_allow, sorted_exact_items(col_licenses_allow(reqs)));
    let t23 = t22 + item_conflicts("licenses.exceptions"@, sorted_identities(item_flat(col_licenses_exceptions(reqs))), item_flat(col_licenses_exceptions(reqs)));
    let t24 = t23 + scalar_conflicts("licenses.confidence-threshold"@, col_licenses_confidence_threshold(reqs));
    let t25 = t24 + item_conflicts("licenses.clarify"@, sorted_identities(item_flat(col_licenses_clarify(reqs))), item_flat(col_licenses_clarify(reqs)));
    let t26 = t25 + scalar_conflicts("licenses.private.ignore"@, col_licenses_private_ignore(reqs));
    let t27 = t26 + list_conflicts("licenses.private.registries"@, r.licenses_private_registries, sorted_exact_items(col_licenses_private_registries(reqs)));
    let t28 = t27 + list_conflicts("licenses.private.ignore-sources"@, r.licenses_private_ignore_sources, sorted_exact_items(col_licenses_private_ignore_sources(reqs)));
    let t29 = t28 + scalar_conflicts("licenses.unused-allowed-license"@, col_licenses_unused_allowed_license(reqs));
    let t30 = t29 + scalar_conflicts("licenses.unused-license-exception"@, col_licenses_unused_license_exception(reqs));
    let t31 = t30 + scalar_conflicts("bans.multiple-versions"@, col_bans_multiple_versions(reqs));
    let t32 = t31 + scalar_conflicts("bans.multiple-versions-include-dev"@, col_bans_multiple_versions_include_dev(reqs));
    let t33 = t32 + scalar_conflicts("bans.wildcards"@, col_bans_wildcards(reqs));
    let t34 = t33 + scalar_conflicts("bans.allow-wildcard-paths"@, col_bans_allow_wildcard_paths(reqs));
    let t35 = t34 + scalar_conflicts("bans.highlight"@, col_bans_highlight(reqs));
    let t36 = t35 + scalar_conflicts("bans.workspace-default-features"@, col_bans_workspace_default_features(reqs));
    let t37 = t36 + scalar_conflicts("bans.external-default-features"@, col_bans_external_default_features(reqs));
    let t38 = t37 + item_conflicts("bans.allow"@, sorted_identities(item_flat(col_bans_allow(reqs))), item_flat(col_bans_allow(reqs)));
    let t39 = t38 + scalar_conflicts("bans.allow-workspace"@, col_bans_allow_workspace(reqs));
    let t40 = t39 + item_conflicts("bans.deny"@, sorted_identities(item_flat(col_bans_deny(reqs))), item_flat(col_bans_deny(reqs)));
    let t41 = t40 + item_conflicts("bans.features"@, sorted_identities(item_flat(col_bans_features(reqs))), item_flat(col_bans_features(reqs)));
    let t42 = t41 + feature_overlap_conflicts(r.bans_features.required@);
    let t43 = t42 + item_conflicts("bans.skip"@, sorted_identities(item_flat(col_bans_skip(reqs))), item_flat(col_bans_skip(reqs)));
    let t44 = t43 + item_conflicts("bans.skip-tree"@, sorted_identities(item_flat(col_bans_skip_tree(reqs))), item_flat(col_bans_skip_tree(reqs)));
    let t45 = t44 + scalar_conflicts("bans.workspace-dependencies.duplicates"@, col_bans_workspace_dependencies_duplicates(reqs));
    let t46 = t45 + scalar_conflicts("bans.workspace-dependencies.include-path-dependencies"@, col_bans_workspace_dependencies_include_path_dependencies(reqs));
    let t47 = t46 + scalar_conflicts("bans.workspace-dependencies.unused"@, col_bans_workspace_dependencies_unused(reqs));
    let t48 = t47 + scalar_conflicts("bans.build.executables"@, col_bans_build_executables(reqs));
    let t49 = t48 + scalar_conflicts("bans.build.interpreted"@, col_bans_build_interpreted(reqs));
    let t50 = t49 + list_conflicts("bans.build.script-extensions"@, r.bans_build_script_extensions, sorted_exact_items(col_bans_build_script_extensions(reqs)));
    let t51 = t50 + scalar_conflicts("bans.build.enable-builtin-globs"@, col_bans_build_enable_builtin_globs(reqs));
    let t52 = t51 + item_conflicts("bans.build.globs"@, sorted_identities(item_flat(col_bans_build_globs(reqs))), item_flat(col_bans_build_globs(reqs)));
    let t53 = t52 + scalar_conflicts("bans.build.include-dependencies"@, col_bans_build_include_dependencies(reqs));
    let t54 = t53 + scalar_conflicts("bans.build.include-workspace"@, col_bans_build_include_workspace(reqs));
    let t55 = t54 + scalar_conflicts("bans.build.include-archives"@, col_bans_build_include_archives(reqs));
    let t56 = t55 + scalar_conflicts("sources.unknown-registry"@, col_sources_unknown_registry(reqs));
    let t57 = t56 + scalar_conflicts("sources.unknown-git"@, col_sources_unknown_git(reqs));
    let t58 = t57 + scalar_conflicts("sources.required-git-spec"@, col_sources_required_git_spec(reqs));
    let t59 = t58 + list_conflicts("sources.allow-git"@, r.sources_allow_git, sorted_exact_items(col_sources_allow_git(reqs)));
    let t60 = t59 + list_conflicts("sources.private"@, r.sources_private, sorted_exact_items(col_sources_private(reqs)));
    let t61 = t60 + list_conflicts("sources.allow-registry"@, r.sources_allow_registry, sorted_exact_items(col_sources_allow_registry(reqs)));
    let t62 = t61 + list_conflicts("sources.allow-org.github"@, r.sources_allow_org_github, sorted_exact_items(col_sources_allow_org_github(reqs)));
    let t63 = t62 + list_conflicts("sources.allow-org.gitlab"@, r.sources_allow_org_gitlab, sorted_exact_items(col_sources_allow_org_gitlab(reqs)));
    let t64 = t63 + list_conflicts("sources.allow-org.bitbucket"@, r.sources_allow_org_bitbucket, sorted_exact_items(col_sources_allow_org_bitbucket(reqs)));
    let t65 = t64 + scalar_conflicts("sources.unused-allowed-source"@, col_sources_unused_allowed_source(reqs));
    lemma_contains_after(t39, item_conflicts("bans.deny"@, sorted_identities(item_flat(col_bans_deny(reqs))), item_flat(col_bans_deny(reqs))), c);
    lemma_contains_before(t40, item_conflicts("bans.features"@, sorted_identities(item_flat(col_bans_features(reqs))), item_flat(col_bans_features(reqs))), c);
    lemma_contains_before(t41, feature_overlap_conflicts(r.bans_features.required@), c);
    lemma_contains_before(t42, item_conflicts("bans.skip"@, sorted_identities(item_flat(col_bans_skip(reqs))), item_flat(col_bans_skip(reqs))), c);
    lemma_contains_before(t43, item_conflicts("bans.skip-tree"@, sorted_identities(item_flat(col_bans_skip_tree(reqs))), item_flat(col_bans_skip_tree(reqs))), c);
    lemma_contains_before(t44, scalar_conflicts("bans.workspace-dependencies.duplicates"@, col_bans_workspace_dependencies_duplicates(reqs)), c);
    lemma_contains_before(t45, scalar_conflicts("bans.workspace-dependencies.include-path-dependencies"@, col_bans_workspace_dependencies_include_path_dependencies(reqs)), c);
    lemma_contains_before(t46, scalar_conflicts("bans.workspace-dependencies.unused"@, col_bans_workspace_dependencies_unused(reqs)), c);
    lemma_contains_before(t47, scalar_conflicts("bans.build.executables"@, col_bans_build_executables(reqs)), c);
    lemma_contains_before(t48, scalar_conflicts("bans.build.interpreted"@, col_bans_build_interpreted(reqs)), c);
    lemma_contains_before(t49, list_conflicts("bans.build.script-extensions"@, r.bans_build_script_extensions, sorted_exact_items(col_bans_build_script_extensions(reqs))), c);
    lemma_contains_before(t50, scalar_conflicts("bans.build.enable-builtin-globs"@, col_bans_build_enable_builtin_globs(reqs)), c);
    lemma_contains_before(t51, item_conflicts("bans.build.globs"@, sorted_identities(item_flat(col_bans_build_globs(reqs))), item_flat(col_bans_build_globs(reqs))), c);
    lemma_contains_before(t52, scalar_conflicts("bans.build.include-dependencies"@, col_bans_build_include_dependencies(reqs)), c);
    lemma_contains_before(t53, scalar_conflicts("bans.build.include-workspace"@, col_bans_build_include_workspace(reqs)), c);
    lemma_contains_before(t54, scalar_conflicts("bans.build.include-archives"@, col_bans_build_include_archives(reqs)), c);
    lemma_contains_before(t55, scalar_conflicts("sources.unknown-registry"@, col_sources_unknown_registry(reqs)), c);
    lemma_contains_before(t56, scalar_conflicts("sources.unknown-git"@, col_sources_unknown_git(reqs)), c);
    lemma_contains_before(t57, scalar_conflicts("sources.required-git-spec"@, col_sources_required_git_spec(reqs)), c);
    lemma_contains_before(t58, list_conflicts("sources.allow-git"@, r.sources_allow_git, sorted_exact_items(col_sources_allow_git(reqs))), c);
    lemma_contains_before(t59, list_conflicts("sources.private"@, r.sources_private, sorted_exact_items(col_sources_private(reqs))), c);
    lemma_contains_before(t60, list_conflicts("sources.allow-registry"@, r.sources_allow_registry, sorted_exact_items(col_sources_allow_registry(reqs))), c);
    lemma_contains_before(t61, list_conflicts("sources.allow-org.github"@, r.sources_allow_org_github, sorted_exact_items(col_sources_allow_org_github(reqs))), c);
    lemma_contains_before(t62, list_conflicts("sources.allow-org.gitlab"@, r.sources_allow_org_gitlab, sorted_exact_items(col_sources_allow_org_gitlab(reqs))), c);
    lemma_contains_before(t63, list_conflicts("sources.allow-org.bitbucket"@, r.sources_allow_org_bitbucket, sorted_exact_items(col_sources_allow_org_bitbucket(reqs))), c);
    lemma_contains_before(t64, scalar_conflicts("sources.unused-allowed-source"@, col_sources_unused_allowed_source(reqs)), c);
    assert(deny_conflicts(reqs, r) == t65);
}

/// When two policies ban the same crate in different ways (the two
/// `bans.deny` entries share their identity but differ), the `deny.toml`
/// merge keeps no ban of that crate and reports an `item-disagree`
/// conflict keyed `bans.deny.<crate>`. (`DenyTomlRequirements::merge`
/// ensures the first requirement, as part of `deny_resolution`, and that
/// its conflicts are `deny_conflicts`.)
#[verifier::rlimit(50)]
#[verifier::spinoff_prover]
pub proof fn law_merge_refuses_different_bans_of_one_crate(
    reqs: Seq<(Provenance, DenyTomlRequirements)>,
    r: ResolvedDenyTomlRequirements,
    j1: int,
    j2: int,
)
    requires
        merges_items(r.bans_deny.required@, item_flat(col_bans_deny(reqs))),
        0 <= j1 < item_flat(col_bans_deny(reqs)).len(),
        0 <= j2 < item_flat(col_bans_deny(reqs)).len(),
        item_flat(col_bans_deny(reqs))[j1].1 == item_flat(col_bans_deny(reqs))[j2].1,
        item_flat(col_bans_deny(reqs))[j1].2 != item_flat(col_bans_deny(reqs))[j2].2,
    ensures
        forall|i: int| 0 <= i < r.bans_deny.required@.len()
            ==> (#[trigger] r.bans_deny.required@[i]).identity@ != item_flat(col_bans_deny(reqs))[j1].1,
        exists|c: ConflictView| deny_conflicts(reqs, r).contains(c)
            && c.0 == "bans.deny."@ + item_flat(col_bans_deny(reqs))[j1].1 && c.1 == "item-disagree"@,
{
    let flat = item_flat(col_bans_deny(reqs));
    crate::items::law_different_entries_of_one_identity_conflict("bans.deny"@, flat, r.bans_deny.required@, j1, j2);
    let c = choose|c: ConflictView| item_conflicts("bans.deny"@, sorted_identities(flat), flat).contains(c)
        && c.0 == "bans.deny"@ + "."@ + flat[j1].1 && c.1 == "item-disagree"@;
    lemma_ban_conflict_in_merge(reqs, r, c);
    assert("bans.deny"@ + "."@ + flat[j1].1 == "bans.deny."@ + flat[j1].1) by {
        reveal_strlit("bans.deny");
        reveal_strlit(".");
        reveal_strlit("bans.deny.");
    }
}


/// The same law, stated for any result of `DenyTomlRequirements::merge`.
#[verifier::rlimit(50)]
#[verifier::spinoff_prover]
pub proof fn law_deny_merge_refuses_different_bans_of_one_crate(
    reqs: Seq<(Provenance, DenyTomlRequirements)>,
    r: ResolvedDenyTomlRequirements,
    j1: int,
    j2: int,
)
    requires
        deny_resolution(r, reqs),
        0 <= j1 < item_flat(col_bans_deny(reqs)).len(),
        0 <= j2 < item_flat(col_bans_deny(reqs)).len(),
        item_flat(col_bans_deny(reqs))[j1].1 == item_flat(col_bans_deny(reqs))[j2].1,
        item_flat(col_bans_deny(reqs))[j1].2 != item_flat(col_bans_deny(reqs))[j2].2,
    ensures
        forall|i: int| 0 <= i < r.bans_deny.required@.len()
            ==> (#[trigger] r.bans_deny.required@[i]).identity@ != item_flat(col_bans_deny(reqs))[j1].1,
        exists|c: ConflictView| deny_conflicts(reqs, r).contains(c)
            && c.0 == "bans.deny."@ + item_flat(col_bans_deny(reqs))[j1].1 && c.1 == "item-disagree"@,
{
    law_merge_refuses_different_bans_of_one_crate(reqs, r, j1, j2);
}

} // verus!
