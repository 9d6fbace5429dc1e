//! What `deny.toml` policies require, field by field, and what their
//! requirements merge to.

use vstd::prelude::*;
use crate::deny_items::{
    DenyAdvisoryIgnoreSpec, DenyBanSpec, DenyBuildGlobSpec, DenyFeatureBanSpec, DenyGraphTargetSpec,
    DenyLicenseClarification, DenyLicenseException, DenyPackageReasonSpec, DenySkipTreeSpec,
};
use crate::deny_confidence::DenyConfidenceThreshold;
use crate::deny_text::{DenyDuration, DenyNonEmptyString};
use crate::deny_values::{DenyAdvisoryScope, DenyGitSpec, DenyGraphHighlight, DenyLintLevel};
use crate::items::{ItemRequirements, ResolvedItemRequirements};
use crate::lists::{ListRequirements, ResolvedListRequirements, spec_list_is_empty};
use crate::requirements::{Provenance, ScalarAssertion};
use crate::scalar_merge::ResolvedRequirement;

verus! {

/// What one policy requires of `deny.toml`: an assertion for each scalar
/// setting it manages, list and array requirements, and whether the file may
/// hold settings that no requirement names (`closed_settings` closes it,
/// with the message reported for each extra setting).
#[derive(Debug)]
pub struct DenyTomlRequirements {
    pub graph_targets: ItemRequirements<DenyGraphTargetSpec>,
    pub graph_exclude: ListRequirements,
    pub graph_exclude_dev: Option<ScalarAssertion<bool>>,
    pub graph_exclude_unpublished: Option<ScalarAssertion<bool>>,
    pub graph_all_features: Option<ScalarAssertion<bool>>,
    pub graph_no_default_features: Option<ScalarAssertion<bool>>,
    pub graph_features: ListRequirements,
    pub output_feature_depth: Option<ScalarAssertion<u64>>,
    pub advisories_version: Option<ScalarAssertion<u64>>,
    pub advisories_db_path: Option<ScalarAssertion<DenyNonEmptyString>>,
    pub advisories_db_urls: ListRequirements,
    pub advisories_yanked: Option<ScalarAssertion<DenyLintLevel>>,
    pub advisories_disable_yank_checking: Option<ScalarAssertion<bool>>,
    pub advisories_ignore: ItemRequirements<DenyAdvisoryIgnoreSpec>,
    pub advisories_unmaintained: Option<ScalarAssertion<DenyAdvisoryScope>>,
    pub advisories_unsound: Option<ScalarAssertion<DenyAdvisoryScope>>,
    pub advisories_maximum_db_staleness: Option<ScalarAssertion<DenyDuration>>,
    pub advisories_git_fetch_with_cli: Option<ScalarAssertion<bool>>,
    pub advisories_unused_ignored_advisory: Option<ScalarAssertion<DenyLintLevel>>,
    pub licenses_version: Option<ScalarAssertion<u64>>,
    pub licenses_include_dev: Option<ScalarAssertion<bool>>,
    pub licenses_include_build: Option<ScalarAssertion<bool>>,
    pub licenses_allow: ListRequirements,
    pub licenses_exceptions: ItemRequirements<DenyLicenseException>,
    pub licenses_confidence_threshold: Option<ScalarAssertion<DenyConfidenceThreshold>>,
    pub licenses_clarify: ItemRequirements<DenyLicenseClarification>,
    pub licenses_private_ignore: Option<ScalarAssertion<bool>>,
    pub licenses_private_registries: ListRequirements,
    pub licenses_private_ignore_sources: ListRequirements,
    pub licenses_unused_allowed_license: Option<ScalarAssertion<DenyLintLevel>>,
    pub licenses_unused_license_exception: Option<ScalarAssertion<DenyLintLevel>>,
    pub bans_multiple_versions: Option<ScalarAssertion<DenyLintLevel>>,
    pub bans_multiple_versions_include_dev: Option<ScalarAssertion<bool>>,
    pub bans_wildcards: Option<ScalarAssertion<DenyLintLevel>>,
    pub bans_allow_wildcard_paths: Option<ScalarAssertion<bool>>,
    pub bans_highlight: Option<ScalarAssertion<DenyGraphHighlight>>,
    pub bans_workspace_default_features: Option<ScalarAssertion<DenyLintLevel>>,
    pub bans_external_default_features: Option<ScalarAssertion<DenyLintLevel>>,
    pub bans_allow: ItemRequirements<DenyPackageReasonSpec>,
    pub bans_allow_workspace: Option<ScalarAssertion<bool>>,
    pub bans_deny: ItemRequirements<DenyBanSpec>,
    pub bans_features: ItemRequirements<DenyFeatureBanSpec>,
    pub bans_skip: ItemRequirements<DenyPackageReasonSpec>,
    pub bans_skip_tree: ItemRequirements<DenySkipTreeSpec>,
    pub bans_workspace_dependencies_duplicates: Option<ScalarAssertion<DenyLintLevel>>,
    pub bans_workspace_dependencies_include_path_dependencies: Option<ScalarAssertion<bool>>,
    pub bans_workspace_dependencies_unused: Option<ScalarAssertion<DenyLintLevel>>,
    pub bans_build_executables: Option<ScalarAssertion<DenyLintLevel>>,
    pub bans_build_interpreted: Option<ScalarAssertion<DenyLintLevel>>,
    pub bans_build_script_extensions: ListRequirements,
    pub bans_build_enable_builtin_globs: Option<ScalarAssertion<bool>>,
    pub bans_build_globs: ItemRequirements<DenyBuildGlobSpec>,
    pub bans_build_include_dependencies: Option<ScalarAssertion<bool>>,
    pub bans_build_include_workspace: Option<ScalarAssertion<bool>>,
    pub bans_build_include_archives: Option<ScalarAssertion<bool>>,
    pub sources_unknown_registry: Option<ScalarAssertion<DenyLintLevel>>,
    pub sources_unknown_git: Option<ScalarAssertion<DenyLintLevel>>,
    pub sources_required_git_spec: Option<ScalarAssertion<DenyGitSpec>>,
    pub sources_allow_git: ListRequirements,
    pub sources_private: ListRequirements,
    pub sources_allow_registry: ListRequirements,
    pub sources_allow_org_github: ListRequirements,
    pub sources_allow_org_gitlab: ListRequirements,
    pub sources_allow_org_bitbucket: ListRequirements,
    pub sources_unused_allowed_source: Option<ScalarAssertion<DenyLintLevel>>,
    pub closed_settings: Option<String>,
}

impl Default for DenyTomlRequirements {
    fn default() -> (r: Self)
        ensures
            r.graph_targets.required@.len() == 0,
            spec_list_is_empty(r.graph_exclude),
            r.graph_exclude_dev is None,
            r.graph_exclude_unpublished is None,
            r.graph_all_features is None,
            r.graph_no_default_features is None,
            spec_list_is_empty(r.graph_features),
            r.output_feature_depth is None,
            r.advisories_version is None,
            r.advisories_db_path is None,
            spec_list_is_empty(r.advisories_db_urls),
            r.advisories_yanked is None,
            r.advisories_disable_yank_checking is None,
            r.advisories_ignore.required@.len() == 0,
            r.advisories_unmaintained is None,
            r.advisories_unsound is None,
            r.advisories_maximum_db_staleness is None,
            r.advisories_git_fetch_with_cli is None,
            r.advisories_unused_ignored_advisory is None,
            r.licenses_version is None,
            r.licenses_include_dev is None,
            r.licenses_include_build is None,
            spec_list_is_empty(r.licenses_allow),
            r.licenses_exceptions.required@.len() == 0,
            r.licenses_confidence_threshold is None,
            r.licenses_clarify.required@.len() == 0,
            r.licenses_private_ignore is None,
            spec_list_is_empty(r.licenses_private_registries),
            spec_list_is_empty(r.licenses_private_ignore_sources),
            r.licenses_unused_allowed_license is None,
            r.licenses_unused_license_exception is None,
            r.bans_multiple_versions is None,
            r.bans_multiple_versions_include_dev is None,
            r.bans_wildcards is None,
            r.bans_allow_wildcard_paths is None,
            r.bans_highlight is None,
            r.bans_workspace_default_features is None,
            r.bans_external_default_features is None,
            r.bans_allow.required@.len() == 0,
            r.bans_allow_workspace is None,
            r.bans_deny.required@.len() == 0,
            r.bans_features.required@.len() == 0,
            r.bans_skip.required@.len() == 0,
            r.bans_skip_tree.required@.len() == 0,
            r.bans_workspace_dependencies_duplicates is None,
            r.bans_workspace_dependencies_include_path_dependencies is None,
            r.bans_workspace_dependencies_unused is None,
            r.bans_build_executables is None,
            r.bans_build_interpreted is None,
            spec_list_is_empty(r.bans_build_script_extensions),
            r.bans_build_enable_builtin_globs is None,
            r.bans_build_globs.required@.len() == 0,
            r.bans_build_include_dependencies is None,
            r.bans_build_include_workspace is None,
            r.bans_build_include_archives is None,
            r.sources_unknown_registry is None,
            r.sources_unknown_git is None,
            r.sources_required_git_spec is None,
            spec_list_is_empty(r.sources_allow_git),
            spec_list_is_empty(r.sources_private),
            spec_list_is_empty(r.sources_allow_registry),
            spec_list_is_empty(r.sources_allow_org_github),
            spec_list_is_empty(r.sources_allow_org_gitlab),
            spec_list_is_empty(r.sources_allow_org_bitbucket),
            r.sources_unused_allowed_source is None,
            r.closed_settings is None,
    {
        DenyTomlRequirements {
            graph_targets: ItemRequirements::default(),
            graph_exclude: ListRequirements::default(),
            graph_exclude_dev: None,
            graph_exclude_unpublished: None,
            graph_all_features: None,
            graph_no_default_features: None,
            graph_features: ListRequirements::default(),
            output_feature_depth: None,
            advisories_version: None,
            advisories_db_path: None,
            advisories_db_urls: ListRequirements::default(),
            advisories_yanked: None,
            advisories_disable_yank_checking: None,
            advisories_ignore: ItemRequirements::default(),
            advisories_unmaintained: None,
            advisories_unsound: None,
            advisories_maximum_db_staleness: None,
            advisories_git_fetch_with_cli: None,
            advisories_unused_ignored_advisory: None,
            licenses_version: None,
            licenses_include_dev: None,
            licenses_include_build: None,
            licenses_allow: ListRequirements::default(),
            licenses_exceptions: ItemRequirements::default(),
            licenses_confidence_threshold: None,
            licenses_clarify: ItemRequirements::default(),
            licenses_private_ignore: None,
            licenses_private_registries: ListRequirements::default(),
            licenses_private_ignore_sources: ListRequirements::default(),
            licenses_unused_allowed_license: None,
            licenses_unused_license_exception: None,
            bans_multiple_versions: None,
            bans_multiple_versions_include_dev: None,
            bans_wildcards: None,
            bans_allow_wildcard_paths: None,
            bans_highlight: None,
            bans_workspace_default_features: None,
            bans_external_default_features: None,
            bans_allow: ItemRequirements::default(),
            bans_allow_workspace: None,
            bans_deny: ItemRequirements::default(),
            bans_features: ItemRequirements::default(),
            bans_skip: ItemRequirements::default(),
            bans_skip_tree: ItemRequirements::default(),
            bans_workspace_dependencies_duplicates: None,
            bans_workspace_dependencies_include_path_dependencies: None,
            bans_workspace_dependencies_unused: None,
            bans_build_executables: None,
            bans_build_interpreted: None,
            bans_build_script_extensions: ListRequirements::default(),
            bans_build_enable_builtin_globs: None,
            bans_build_globs: ItemRequirements::default(),
            bans_build_include_dependencies: None,
            bans_build_include_workspace: None,
            bans_build_include_archives: None,
            sources_unknown_registry: None,
            sources_unknown_git: None,
            sources_required_git_spec: None,
            sources_allow_git: ListRequirements::default(),
            sources_private: ListRequirements::default(),
            sources_allow_registry: ListRequirements::default(),
            sources_allow_org_github: ListRequirements::default(),
            sources_allow_org_gitlab: ListRequirements::default(),
            sources_allow_org_bitbucket: ListRequirements::default(),
            sources_unused_allowed_source: None,
            closed_settings: None,
        }
    }
}

/// The merged requirements of every policy for `deny.toml`, field by
/// field, with the policies (and messages) that close the file.
#[derive(Debug)]
pub struct ResolvedDenyTomlRequirements {
    pub graph_targets: ResolvedItemRequirements<DenyGraphTargetSpec>,
    pub graph_exclude: ResolvedListRequirements,
    pub graph_exclude_dev: Option<ResolvedRequirement<ScalarAssertion<bool>, ScalarAssertion<bool>>>,
    pub graph_exclude_unpublished: Option<ResolvedRequirement<ScalarAssertion<bool>, ScalarAssertion<bool>>>,
    pub graph_all_features: Option<ResolvedRequirement<ScalarAssertion<bool>, ScalarAssertion<bool>>>,
    pub graph_no_default_features: Option<ResolvedRequirement<ScalarAssertion<bool>, ScalarAssertion<bool>>>,
    pub graph_features: ResolvedListRequirements,
    pub output_feature_depth: Option<ResolvedRequirement<ScalarAssertion<u64>, ScalarAssertion<u64>>>,
    pub advisories_version: Option<ResolvedRequirement<ScalarAssertion<u64>, ScalarAssertion<u64>>>,
    pub advisories_db_path: Option<ResolvedRequirement<ScalarAssertion<DenyNonEmptyString>, ScalarAssertion<DenyNonEmptyString>>>,
    pub advisories_db_urls: ResolvedListRequirements,
    pub advisories_yanked: Option<ResolvedRequirement<ScalarAssertion<DenyLintLevel>, ScalarAssertion<DenyLintLevel>>>,
    pub advisories_disable_yank_checking: Option<ResolvedRequirement<ScalarAssertion<bool>, ScalarAssertion<bool>>>,
    pub advisories_ignore: ResolvedItemRequirements<DenyAdvisoryIgnoreSpec>,
    pub advisories_unmaintained: Option<ResolvedRequirement<ScalarAssertion<DenyAdvisoryScope>, ScalarAssertion<DenyAdvisoryScope>>>,
    pub advisories_unsound: Option<ResolvedRequirement<ScalarAssertion<DenyAdvisoryScope>, ScalarAssertion<DenyAdvisoryScope>>>,
    pub advisories_maximum_db_staleness: Option<ResolvedRequirement<ScalarAssertion<DenyDuration>, ScalarAssertion<DenyDuration>>>,
    pub advisories_git_fetch_with_cli: Option<ResolvedRequirement<ScalarAssertion<bool>, ScalarAssertion<bool>>>,
    pub advisories_unused_ignored_advisory: Option<ResolvedRequirement<ScalarAssertion<DenyLintLevel>, ScalarAssertion<DenyLintLevel>>>,
    pub licenses_version: Option<ResolvedRequirement<ScalarAssertion<u64>, ScalarAssertion<u64>>>,
    pub licenses_include_dev: Option<ResolvedRequirement<ScalarAssertion<bool>, ScalarAssertion<bool>>>,
    pub licenses_include_build: Option<ResolvedRequirement<ScalarAssertion<bool>, ScalarAssertion<bool>>>,
    pub licenses_allow: ResolvedListRequirements,
    pub licenses_exceptions: ResolvedItemRequirements<DenyLicenseException>,
    pub licenses_confidence_threshold: Option<ResolvedRequirement<ScalarAssertion<DenyConfidenceThreshold>, ScalarAssertion<DenyConfidenceThreshold>>>,
    pub licenses_clarify: ResolvedItemRequirements<DenyLicenseClarification>,
    pub licenses_private_ignore: Option<ResolvedRequirement<ScalarAssertion<bool>, ScalarAssertion<bool>>>,
    pub licenses_private_registries: ResolvedListRequirements,
    pub licenses_private_ignore_sources: ResolvedListRequirements,
    pub licenses_unused_allowed_license: Option<ResolvedRequirement<ScalarAssertion<DenyLintLevel>, ScalarAssertion<DenyLintLevel>>>,
    pub licenses_unused_license_exception: Option<ResolvedRequirement<ScalarAssertion<DenyLintLevel>, ScalarAssertion<DenyLintLevel>>>,
    pub bans_multiple_versions: Option<ResolvedRequirement<ScalarAssertion<DenyLintLevel>, ScalarAssertion<DenyLintLevel>>>,
    pub bans_multiple_versions_include_dev: Option<ResolvedRequirement<ScalarAssertion<bool>, ScalarAssertion<bool>>>,
    pub bans_wildcards: Option<ResolvedRequirement<ScalarAssertion<DenyLintLevel>, ScalarAssertion<DenyLintLevel>>>,
    pub bans_allow_wildcard_paths: Option<ResolvedRequirement<ScalarAssertion<bool>, ScalarAssertion<bool>>>,
    pub bans_highlight: Option<ResolvedRequirement<ScalarAssertion<DenyGraphHighlight>, ScalarAssertion<DenyGraphHighlight>>>,
    pub bans_workspace_default_features: Option<ResolvedRequirement<ScalarAssertion<DenyLintLevel>, ScalarAssertion<DenyLintLevel>>>,
    pub bans_external_default_features: Option<ResolvedRequirement<ScalarAssertion<DenyLintLevel>, ScalarAssertion<DenyLintLevel>>>,
    pub bans_allow: ResolvedItemRequirements<DenyPackageReasonSpec>,
    pub bans_allow_workspace: Option<ResolvedRequirement<ScalarAssertion<bool>, ScalarAssertion<bool>>>,
    pub bans_deny: ResolvedItemRequirements<DenyBanSpec>,
    pub bans_features: ResolvedItemRequirements<DenyFeatureBanSpec>,
    pub bans_skip: ResolvedItemRequirements<DenyPackageReasonSpec>,
    pub bans_skip_tree: ResolvedItemRequirements<DenySkipTreeSpec>,
    pub bans_workspace_dependencies_duplicates: Option<ResolvedRequirement<ScalarAssertion<DenyLintLevel>, ScalarAssertion<DenyLintLevel>>>,
    pub bans_workspace_dependencies_include_path_dependencies: Option<ResolvedRequirement<ScalarAssertion<bool>, ScalarAssertion<bool>>>,
    pub bans_workspace_dependencies_unused: Option<ResolvedRequirement<ScalarAssertion<DenyLintLevel>, ScalarAssertion<DenyLintLevel>>>,
    pub bans_build_executables: Option<ResolvedRequirement<ScalarAssertion<DenyLintLevel>, ScalarAssertion<DenyLintLevel>>>,
    pub bans_build_interpreted: Option<ResolvedRequirement<ScalarAssertion<DenyLintLevel>, ScalarAssertion<DenyLintLevel>>>,
    pub bans_build_script_extensions: ResolvedListRequirements,
    pub bans_build_enable_builtin_globs: Option<ResolvedRequirement<ScalarAssertion<bool>, ScalarAssertion<bool>>>,
    pub bans_build_globs: ResolvedItemRequirements<DenyBuildGlobSpec>,
    pub bans_build_include_dependencies: Option<ResolvedRequirement<ScalarAssertion<bool>, ScalarAssertion<bool>>>,
    pub bans_build_include_workspace: Option<ResolvedRequirement<ScalarAssertion<bool>, ScalarAssertion<bool>>>,
    pub bans_build_include_archives: Option<ResolvedRequirement<ScalarAssertion<bool>, ScalarAssertion<bool>>>,
    pub sources_unknown_registry: Option<ResolvedRequirement<ScalarAssertion<DenyLintLevel>, ScalarAssertion<DenyLintLevel>>>,
    pub sources_unknown_git: Option<ResolvedRequirement<ScalarAssertion<DenyLintLevel>, ScalarAssertion<DenyLintLevel>>>,
    pub sources_required_git_spec: Option<ResolvedRequirement<ScalarAssertion<DenyGitSpec>, ScalarAssertion<DenyGitSpec>>>,
    pub sources_allow_git: ResolvedListRequirements,
    pub sources_private: ResolvedListRequirements,
    pub sources_allow_registry: ResolvedListRequirements,
    pub sources_allow_org_github: ResolvedListRequirements,
    pub sources_allow_org_gitlab: ResolvedListRequirements,
    pub sources_allow_org_bitbucket: ResolvedListRequirements,
    pub sources_unused_allowed_source: Option<ResolvedRequirement<ScalarAssertion<DenyLintLevel>, ScalarAssertion<DenyLintLevel>>>,
    pub closed_settings: Vec<(Provenance, String)>,
}

impl ResolvedDenyTomlRequirements {
    /// The merged requirements of `graph.targets`.
    pub fn graph_targets(&self) -> (r: &ResolvedItemRequirements<DenyGraphTargetSpec>)
        ensures
            *r == self.graph_targets,
    {
        &self.graph_targets
    }

    /// The merged requirements of `graph.exclude`.
    pub fn graph_exclude(&self) -> (r: &ResolvedListRequirements)
        ensures
            *r == self.graph_exclude,
    {
        &self.graph_exclude
    }

    /// The merged requirement of `graph.exclude-dev`, if any.
    pub fn graph_exclude_dev(&self) -> (r: Option<&ResolvedRequirement<ScalarAssertion<bool>, ScalarAssertion<bool>>>)
        ensures
            r is Some <==> self.graph_exclude_dev is Some,
            r matches Some(x) ==> self.graph_exclude_dev == Some(*x),
    {
        match &self.graph_exclude_dev {
            Some(x) => Some(x),
            None => None,
        }
    }

    /// The merged requirement of `graph.exclude-unpublished`, if any.
    pub fn graph_exclude_unpublished(&self) -> (r: Option<&ResolvedRequirement<ScalarAssertion<bool>, ScalarAssertion<bool>>>)
        ensures
            r is Some <==> self.graph_exclude_unpublished is Some,
            r matches Some(x) ==> self.graph_exclude_unpublished == Some(*x),
    {
        match &self.graph_exclude_unpublished {
            Some(x) => Some(x),
            None => None,
        }
    }

    /// The merged requirement of `graph.all-features`, if any.
    pub fn graph_all_features(&self) -> (r: Option<&ResolvedRequirement<ScalarAssertion<bool>, ScalarAssertion<bool>>>)
        ensures
            r is Some <==> self.graph_all_features is Some,
            r matches Some(x) ==> self.graph_all_features == Some(*x),
    {
        match &self.graph_all_features {
            Some(x) => Some(x),
            None => None,
        }
    }

    /// The merged requirement of `graph.no-default-features`, if any.
    pub fn graph_no_default_features(&self) -> (r: Option<&ResolvedRequirement<ScalarAssertion<bool>, ScalarAssertion<bool>>>)
        ensures
            r is Some <==> self.graph_no_default_features is Some,
            r matches Some(x) ==> self.graph_no_default_features == Some(*x),
    {
        match &self.graph_no_default_features {
            Some(x) => Some(x),
            None => None,
        }
    }

    /// The merged requirements of `graph.features`.
    pub fn graph_features(&self) -> (r: &ResolvedListRequirements)
        ensures
            *r == self.graph_features,
    {
        &self.graph_features
    }

    /// The merged requirement of `output.feature-depth`, if any.
    pub fn output_feature_depth(&self) -> (r: Option<&ResolvedRequirement<ScalarAssertion<u64>, ScalarAssertion<u64>>>)
        ensures
            r is Some <==> self.output_feature_depth is Some,
            r matches Some(x) ==> self.output_feature_depth == Some(*x),
    {
        match &self.output_feature_depth {
            Some(x) => Some(x),
            None => None,
        }
    }

    /// The merged requirement of `advisories.version`, if any.
    pub fn advisories_version(&self) -> (r: Option<&ResolvedRequirement<ScalarAssertion<u64>, ScalarAssertion<u64>>>)
        ensures
            r is Some <==> self.advisories_version is Some,
            r matches Some(x) ==> self.advisories_version == Some(*x),
    {
        match &self.advisories_version {
            Some(x) => Some(x),
            None => None,
        }
    }

    /// The merged requirement of `advisories.db-path`, if any.
    pub fn advisories_db_path(&self) -> (r: Option<&ResolvedRequirement<ScalarAssertion<DenyNonEmptyString>, ScalarAssertion<DenyNonEmptyString>>>)
        ensures
            r is Some <==> self.advisories_db_path is Some,
            r matches Some(x) ==> self.advisories_db_path == Some(*x),
    {
        match &self.advisories_db_path {
            Some(x) => Some(x),
            None => None,
        }
    }

    /// The merged requirements of `advisories.db-urls`.
    pub fn advisories_db_urls(&self) -> (r: &ResolvedListRequirements)
        ensures
            *r == self.advisories_db_urls,
    {
        &self.advisories_db_urls
    }

    /// The merged requirement of `advisories.yanked`, if any.
    pub fn advisories_yanked(&self) -> (r: Option<&ResolvedRequirement<ScalarAssertion<DenyLintLevel>, ScalarAssertion<DenyLintLevel>>>)
        ensures
            r is Some <==> self.advisories_yanked is Some,
            r matches Some(x) ==> self.advisories_yanked == Some(*x),
    {
        match &self.advisories_yanked {
            Some(x) => Some(x),
            None => None,
        }
    }

    /// The merged requirement of `advisories.disable-yank-checking`, if any.
    pub fn advisories_disable_yank_checking(&self) -> (r: Option<&ResolvedRequirement<ScalarAssertion<bool>, ScalarAssertion<bool>>>)
        ensures
            r is Some <==> self.advisories_disable_yank_checking is Some,
            r matches Some(x) ==> self.advisories_disable_yank_checking == Some(*x),
    {
        match &self.advisories_disable_yank_checking {
            Some(x) => Some(x),
            None => None,
        }
    }

    /// The merged requirements of `advisories.ignore`.
    pub fn advisories_ignore(&self) -> (r: &ResolvedItemRequirements<DenyAdvisoryIgnoreSpec>)
        ensures
            *r == self.advisories_ignore,
    {
        &self.advisories_ignore
    }

    /// The merged requirement of `advisories.unmaintained`, if any.
    pub fn advisories_unmaintained(&self) -> (r: Option<&ResolvedRequirement<ScalarAssertion<DenyAdvisoryScope>, ScalarAssertion<DenyAdvisoryScope>>>)
        ensures
            r is Some <==> self.advisories_unmaintained is Some,
            r matches Some(x) ==> self.advisories_unmaintained == Some(*x),
    {
        match &self.advisories_unmaintained {
            Some(x) => Some(x),
            None => None,
        }
    }

    /// The merged requirement of `advisories.unsound`, if any.
    pub fn advisories_unsound(&self) -> (r: Option<&ResolvedRequirement<ScalarAssertion<DenyAdvisoryScope>, ScalarAssertion<DenyAdvisoryScope>>>)
        ensures
            r is Some <==> self.advisories_unsound is Some,
            r matches Some(x) ==> self.advisories_unsound == Some(*x),
    {
        match &self.advisories_unsound {
            Some(x) => Some(x),
            None => None,
        }
    }

    /// The merged requirement of `advisories.maximum-db-staleness`, if any.
    pub fn advisories_maximum_db_staleness(&self) -> (r: Option<&ResolvedRequirement<ScalarAssertion<DenyDuration>, ScalarAssertion<DenyDuration>>>)
        ensures
            r is Some <==> self.advisories_maximum_db_staleness is Some,
            r matches Some(x) ==> self.advisories_maximum_db_staleness == Some(*x),
    {
        match &self.advisories_maximum_db_staleness {
            Some(x) => Some(x),
            None => None,
        }
    }

    /// The merged requirement of `advisories.git-fetch-with-cli`, if any.
    pub fn advisories_git_fetch_with_cli(&self) -> (r: Option<&ResolvedRequirement<ScalarAssertion<bool>, ScalarAssertion<bool>>>)
        ensures
            r is Some <==> self.advisories_git_fetch_with_cli is Some,
            r matches Some(x) ==> self.advisories_git_fetch_with_cli == Some(*x),
    {
        match &self.advisories_git_fetch_with_cli {
            Some(x) => Some(x),
            None => None,
        }
    }

    /// The merged requirement of `advisories.unused-ignored-advisory`, if any.
    pub fn advisories_unused_ignored_advisory(&self) -> (r: Option<&ResolvedRequirement<ScalarAssertion<DenyLintLevel>, ScalarAssertion<DenyLintLevel>>>)
        ensures
            r is Some <==> self.advisories_unused_ignored_advisory is Some,
            r matches Some(x) ==> self.advisories_unused_ignored_advisory == Some(*x),
    {
        match &self.advisories_unused_ignored_advisory {
            Some(x) => Some(x),
            None => None,
        }
    }

    /// The merged requirement of `licenses.version`, if any.
    pub fn licenses_version(&self) -> (r: Option<&ResolvedRequirement<ScalarAssertion<u64>, ScalarAssertion<u64>>>)
        ensures
            r is Some <==> self.licenses_version is Some,
            r matches Some(x) ==> self.licenses_version == Some(*x),
    {
        match &self.licenses_version {
            Some(x) => Some(x),
            None => None,
        }
    }

    /// The merged requirement of `licenses.include-dev`, if any.
    pub fn licenses_include_dev(&self) -> (r: Option<&ResolvedRequirement<ScalarAssertion<bool>, ScalarAssertion<bool>>>)
        ensures
            r is Some <==> self.licenses_include_dev is Some,
            r matches Some(x) ==> self.licenses_include_dev == Some(*x),
    {
        match &self.licenses_include_dev {
            Some(x) => Some(x),
            None => None,
        }
    }

    /// The merged requirement of `licenses.include-build`, if any.
    pub fn licenses_include_build(&self) -> (r: Option<&ResolvedRequirement<ScalarAssertion<bool>, ScalarAssertion<bool>>>)
        ensures
            r is Some <==> self.licenses_include_build is Some,
            r matches Some(x) ==> self.licenses_include_build == Some(*x),
    {
        match &self.licenses_include_build {
            Some(x) => Some(x),
            None => None,
        }
    }

    /// The merged requirements of `licenses.allow`.
    pub fn licenses_allow(&self) -> (r: &ResolvedListRequirements)
        ensures
            *r == self.licenses_allow,
    {
        &self.licenses_allow
    }

    /// The merged requirements of `licenses.exceptions`.
    pub fn licenses_exceptions(&self) -> (r: &ResolvedItemRequirements<DenyLicenseException>)
        ensures
            *r == self.licenses_exceptions,
    {
        &self.licenses_exceptions
    }

    /// The merged requirement of `licenses.confidence-threshold`, if any.
    pub fn licenses_confidence_threshold(&self) -> (r: Option<&ResolvedRequirement<ScalarAssertion<DenyConfidenceThreshold>, ScalarAssertion<DenyConfidenceThreshold>>>)
        ensures
            r is Some <==> self.licenses_confidence_threshold is Some,
            r matches Some(x) ==> self.licenses_confidence_threshold == Some(*x),
    {
        match &self.licenses_confidence_threshold {
            Some(x) => Some(x),
            None => None,
        }
    }

    /// The merged requirements of `licenses.clarify`.
    pub fn licenses_clarify(&self) -> (r: &ResolvedItemRequirements<DenyLicenseClarification>)
        ensures
            *r == self.licenses_clarify,
    {
        &self.licenses_clarify
    }

    /// The merged requirement of `licenses.private.ignore`, if any.
    pub fn licenses_private_ignore(&self) -> (r: Option<&ResolvedRequirement<ScalarAssertion<bool>, ScalarAssertion<bool>>>)
        ensures
            r is Some <==> self.licenses_private_ignore is Some,
            r matches Some(x) ==> self.licenses_private_ignore == Some(*x),
    {
        match &self.licenses_private_ignore {
            Some(x) => Some(x),
            None => None,
        }
    }

    /// The merged requirements of `licenses.private.registries`.
    pub fn licenses_private_registries(&self) -> (r: &ResolvedListRequirements)
        ensures
            *r == self.licenses_private_registries,
    {
        &self.licenses_private_registries
    }

    /// The merged requirements of `licenses.private.ignore-sources`.
    pub fn licenses_private_ignore_sources(&self) -> (r: &ResolvedListRequirements)
        ensures
            *r == self.licenses_private_ignore_sources,
    {
        &self.licenses_private_ignore_sources
    }

    /// The merged requirement of `licenses.unused-allowed-license`, if any.
    pub fn licenses_unused_allowed_license(&self) -> (r: Option<&ResolvedRequirement<ScalarAssertion<DenyLintLevel>, ScalarAssertion<DenyLintLevel>>>)
        ensures
            r is Some <==> self.licenses_unused_allowed_license is Some,
            r matches Some(x) ==> self.licenses_unused_allowed_license == Some(*x),
    {
        match &self.licenses_unused_allowed_license {
            Some(x) => Some(x),
            None => None,
        }
    }

    /// The merged requirement of `licenses.unused-license-exception`, if any.
    pub fn licenses_unused_license_exception(&self) -> (r: Option<&ResolvedRequirement<ScalarAssertion<DenyLintLevel>, ScalarAssertion<DenyLintLevel>>>)
        ensures
            r is Some <==> self.licenses_unused_license_exception is Some,
            r matches Some(x) ==> self.licenses_unused_license_exception == Some(*x),
    {
        match &self.licenses_unused_license_exception {
            Some(x) => Some(x),
            None => None,
        }
    }

    /// The merged requirement of `bans.multiple-versions`, if any.
    pub fn bans_multiple_versions(&self) -> (r: Option<&ResolvedRequirement<ScalarAssertion<DenyLintLevel>, ScalarAssertion<DenyLintLevel>>>)
        ensures
            r is Some <==> self.bans_multiple_versions is Some,
            r matches Some(x) ==> self.bans_multiple_versions == Some(*x),
    {
        match &self.bans_multiple_versions {
            Some(x) => Some(x),
            None => None,
        }
    }

    /// The merged requirement of `bans.multiple-versions-include-dev`, if any.
    pub fn bans_multiple_versions_include_dev(&self) -> (r: Option<&ResolvedRequirement<ScalarAssertion<bool>, ScalarAssertion<bool>>>)
        ensures
            r is Some <==> self.bans_multiple_versions_include_dev is Some,
            r matches Some(x) ==> self.bans_multiple_versions_include_dev == Some(*x),
    {
        match &self.bans_multiple_versions_include_dev {
            Some(x) => Some(x),
            None => None,
        }
    }

    /// The merged requirement of `bans.wildcards`, if any.
    pub fn bans_wildcards(&self) -> (r: Option<&ResolvedRequirement<ScalarAssertion<DenyLintLevel>, ScalarAssertion<DenyLintLevel>>>)
        ensures
            r is Some <==> self.bans_wildcards is Some,
            r matches Some(x) ==> self.bans_wildcards == Some(*x),
    {
        match &self.bans_wildcards {
            Some(x) => Some(x),
            None => None,
        }
    }

    /// The merged requirement of `bans.allow-wildcard-paths`, if any.
    pub fn bans_allow_wildcard_paths(&self) -> (r: Option<&ResolvedRequirement<ScalarAssertion<bool>, ScalarAssertion<bool>>>)
        ensures
            r is Some <==> self.bans_allow_wildcard_paths is Some,
            r matches Some(x) ==> self.bans_allow_wildcard_paths == Some(*x),
    {
        match &self.bans_allow_wildcard_paths {
            Some(x) => Some(x),
            None => None,
        }
    }

    /// The merged requirement of `bans.highlight`, if any.
    pub fn bans_highlight(&self) -> (r: Option<&ResolvedRequirement<ScalarAssertion<DenyGraphHighlight>, ScalarAssertion<DenyGraphHighlight>>>)
        ensures
            r is Some <==> self.bans_highlight is Some,
            r matches Some(x) ==> self.bans_highlight == Some(*x),
    {
        match &self.bans_highlight {
            Some(x) => Some(x),
            None => None,
        }
    }

    /// The merged requirement of `bans.workspace-default-features`, if any.
    pub fn bans_workspace_default_features(&self) -> (r: Option<&ResolvedRequirement<ScalarAssertion<DenyLintLevel>, ScalarAssertion<DenyLintLevel>>>)
        ensures
            r is Some <==> self.bans_workspace_default_features is Some,
            r matches Some(x) ==> self.bans_workspace_default_features == Some(*x),
    {
        match &self.bans_workspace_default_features {
            Some(x) => Some(x),
            None => None,
        }
    }

    /// The merged requirement of `bans.external-default-features`, if any.
    pub fn bans_external_default_features(&self) -> (r: Option<&ResolvedRequirement<ScalarAssertion<DenyLintLevel>, ScalarAssertion<DenyLintLevel>>>)
        ensures
            r is Some <==> self.bans_external_default_features is Some,
            r matches Some(x) ==> self.bans_external_default_features == Some(*x),
    {
        match &self.bans_external_default_features {
            Some(x) => Some(x),
            None => None,
        }
    }

    /// The merged requirements of `bans.allow`.
    pub fn bans_allow(&self) -> (r: &ResolvedItemRequirements<DenyPackageReasonSpec>)
        ensures
            *r == self.bans_allow,
    {
        &self.bans_allow
    }

    /// The merged requirement of `bans.allow-workspace`, if any.
    pub fn bans_allow_workspace(&self) -> (r: Option<&ResolvedRequirement<ScalarAssertion<bool>, ScalarAssertion<bool>>>)
        ensures
            r is Some <==> self.bans_allow_workspace is Some,
            r matches Some(x) ==> self.bans_allow_workspace == Some(*x),
    {
        match &self.bans_allow_workspace {
            Some(x) => Some(x),
            None => None,
        }
    }

    /// The merged requirements of `bans.deny`.
    pub fn bans_deny(&self) -> (r: &ResolvedItemRequirements<DenyBanSpec>)
        ensures
            *r == self.bans_deny,
    {
        &self.bans_deny
    }

    /// The merged requirements of `bans.features`.
    pub fn bans_features(&self) -> (r: &ResolvedItemRequirements<DenyFeatureBanSpec>)
        ensures
            *r == self.bans_features,
    {
        &self.bans_features
    }

    /// The merged requirements of `bans.skip`.
    pub fn bans_skip(&self) -> (r: &ResolvedItemRequirements<DenyPackageReasonSpec>)
        ensures
            *r == self.bans_skip,
    {
        &self.bans_skip
    }

    /// The merged requirements of `bans.skip-tree`.
    pub fn bans_skip_tree(&self) -> (r: &ResolvedItemRequirements<DenySkipTreeSpec>)
        ensures
            *r == self.bans_skip_tree,
    {
        &self.bans_skip_tree
    }

    /// The merged requirement of `bans.workspace-dependencies.duplicates`, if any.
    pub fn bans_workspace_dependencies_duplicates(&self) -> (r: Option<&ResolvedRequirement<ScalarAssertion<DenyLintLevel>, ScalarAssertion<DenyLintLevel>>>)
        ensures
            r is Some <==> self.bans_workspace_dependencies_duplicates is Some,
            r matches Some(x) ==> self.bans_workspace_dependencies_duplicates == Some(*x),
    {
        match &self.bans_workspace_dependencies_duplicates {
            Some(x) => Some(x),
            None => None,
        }
    }

    /// The merged requirement of `bans.workspace-dependencies.include-path-dependencies`, if any.
    pub fn bans_workspace_dependencies_include_path_dependencies(&self) -> (r: Option<&ResolvedRequirement<ScalarAssertion<bool>, ScalarAssertion<bool>>>)
        ensures
            r is Some <==> self.bans_workspace_dependencies_include_path_dependencies is Some,
            r matches Some(x) ==> self.bans_workspace_dependencies_include_path_dependencies == Some(*x),
    {
        match &self.bans_workspace_dependencies_include_path_dependencies {
            Some(x) => Some(x),
            None => None,
        }
    }

    /// The merged requirement of `bans.workspace-dependencies.unused`, if any.
    pub fn bans_workspace_dependencies_unused(&self) -> (r: Option<&ResolvedRequirement<ScalarAssertion<DenyLintLevel>, ScalarAssertion<DenyLintLevel>>>)
        ensures
            r is Some <==> self.bans_workspace_dependencies_unused is Some,
            r matches Some(x) ==> self.bans_workspace_dependencies_unused == Some(*x),
    {
        match &self.bans_workspace_dependencies_unused {
            Some(x) => Some(x),
            None => None,
        }
    }

    /// The merged requirement of `bans.build.executables`, if any.
    pub fn bans_build_executables(&self) -> (r: Option<&ResolvedRequirement<ScalarAssertion<DenyLintLevel>, ScalarAssertion<DenyLintLevel>>>)
        ensures
            r is Some <==> self.bans_build_executables is Some,
            r matches Some(x) ==> self.bans_build_executables == Some(*x),
    {
        match &self.bans_build_executables {
            Some(x) => Some(x),
            None => None,
        }
    }

    /// The merged requirement of `bans.build.interpreted`, if any.
    pub fn bans_build_interpreted(&self) -> (r: Option<&ResolvedRequirement<ScalarAssertion<DenyLintLevel>, ScalarAssertion<DenyLintLevel>>>)
        ensures
            r is Some <==> self.bans_build_interpreted is Some,
            r matches Some(x) ==> self.bans_build_interpreted == Some(*x),
    {
        match &self.bans_build_interpreted {
            Some(x) => Some(x),
            None => None,
        }
    }

    /// The merged requirements of `bans.build.script-extensions`.
    pub fn bans_build_script_extensions(&self) -> (r: &ResolvedListRequirements)
        ensures
            *r == self.bans_build_script_extensions,
    {
        &self.bans_build_script_extensions
    }

    /// The merged requirement of `bans.build.enable-builtin-globs`, if any.
    pub fn bans_build_enable_builtin_globs(&self) -> (r: Option<&ResolvedRequirement<ScalarAssertion<bool>, ScalarAssertion<bool>>>)
        ensures
            r is Some <==> self.bans_build_enable_builtin_globs is Some,
            r matches Some(x) ==> self.bans_build_enable_builtin_globs == Some(*x),
    {
        match &self.bans_build_enable_builtin_globs {
            Some(x) => Some(x),
            None => None,
        }
    }

    /// The merged requirements of `bans.build.globs`.
    pub fn bans_build_globs(&self) -> (r: &ResolvedItemRequirements<DenyBuildGlobSpec>)
        ensures
            *r == self.bans_build_globs,
    {
        &self.bans_build_globs
    }

    /// The merged requirement of `bans.build.include-dependencies`, if any.
    pub fn bans_build_include_dependencies(&self) -> (r: Option<&ResolvedRequirement<ScalarAssertion<bool>, ScalarAssertion<bool>>>)
        ensures
            r is Some <==> self.bans_build_include_dependencies is Some,
            r matches Some(x) ==> self.bans_build_include_dependencies == Some(*x),
    {
        match &self.bans_build_include_dependencies {
            Some(x) => Some(x),
            None => None,
        }
    }

    /// The merged requirement of `bans.build.include-workspace`, if any.
    pub fn bans_build_include_workspace(&self) -> (r: Option<&ResolvedRequirement<ScalarAssertion<bool>, ScalarAssertion<bool>>>)
        ensures
            r is Some <==> self.bans_build_include_workspace is Some,
            r matches Some(x) ==> self.bans_build_include_workspace == Some(*x),
    {
        match &self.bans_build_include_workspace {
            Some(x) => Some(x),
            None => None,
        }
    }

    /// The merged requirement of `bans.build.include-archives`, if any.
    pub fn bans_build_include_archives(&self) -> (r: Option<&ResolvedRequirement<ScalarAssertion<bool>, ScalarAssertion<bool>>>)
        ensures
            r is Some <==> self.bans_build_include_archives is Some,
            r matches Some(x) ==> self.bans_build_include_archives == Some(*x),
    {
        match &self.bans_build_include_archives {
            Some(x) => Some(x),
            None => None,
        }
    }

    /// The merged requirement of `sources.unknown-registry`, if any.
    pub fn sources_unknown_registry(&self) -> (r: Option<&ResolvedRequirement<ScalarAssertion<DenyLintLevel>, ScalarAssertion<DenyLintLevel>>>)
        ensures
            r is Some <==> self.sources_unknown_registry is Some,
            r matches Some(x) ==> self.sources_unknown_registry == Some(*x),
    {
        match &self.sources_unknown_registry {
            Some(x) => Some(x),
            None => None,
        }
    }

    /// The merged requirement of `sources.unknown-git`, if any.
    pub fn sources_unknown_git(&self) -> (r: Option<&ResolvedRequirement<ScalarAssertion<DenyLintLevel>, ScalarAssertion<DenyLintLevel>>>)
        ensures
            r is Some <==> self.sources_unknown_git is Some,
            r matches Some(x) ==> self.sources_unknown_git == Some(*x),
    {
        match &self.sources_unknown_git {
            Some(x) => Some(x),
            None => None,
        }
    }

    /// The merged requirement of `sources.required-git-spec`, if any.
    pub fn sources_required_git_spec(&self) -> (r: Option<&ResolvedRequirement<ScalarAssertion<DenyGitSpec>, ScalarAssertion<DenyGitSpec>>>)
        ensures
            r is Some <==> self.sources_required_git_spec is Some,
            r matches Some(x) ==> self.sources_required_git_spec == Some(*x),
    {
        match &self.sources_required_git_spec {
            Some(x) => Some(x),
            None => None,
        }
    }

    /// The merged requirements of `sources.allow-git`.
    pub fn sources_allow_git(&self) -> (r: &ResolvedListRequirements)
        ensures
            *r == self.sources_allow_git,
    {
        &self.sources_allow_git
    }

    /// The merged requirements of `sources.private`.
    pub fn sources_private(&self) -> (r: &ResolvedListRequirements)
        ensures
            *r == self.sources_private,
    {
        &self.sources_private
    }

    /// The merged requirements of `sources.allow-registry`.
    pub fn sources_allow_registry(&self) -> (r: &ResolvedListRequirements)
        ensures
            *r == self.sources_allow_registry,
    {
        &self.sources_allow_registry
    }

    /// The merged requirements of `sources.allow-org.github`.
    pub fn sources_allow_org_github(&self) -> (r: &ResolvedListRequirements)
        ensures
            *r == self.sources_allow_org_github,
    {
        &self.sources_allow_org_github
    }

    /// The merged requirements of `sources.allow-org.gitlab`.
    pub fn sources_allow_org_gitlab(&self) -> (r: &ResolvedListRequirements)
        ensures
            *r == self.sources_allow_org_gitlab,
    {
        &self.sources_allow_org_gitlab
    }

    /// The merged requirements of `sources.allow-org.bitbucket`.
    pub fn sources_allow_org_bitbucket(&self) -> (r: &ResolvedListRequirements)
        ensures
            *r == self.sources_allow_org_bitbucket,
    {
        &self.sources_allow_org_bitbucket
    }

    /// The merged requirement of `sources.unused-allowed-source`, if any.
    pub fn sources_unused_allowed_source(&self) -> (r: Option<&ResolvedRequirement<ScalarAssertion<DenyLintLevel>, ScalarAssertion<DenyLintLevel>>>)
        ensures
            r is Some <==> self.sources_unused_allowed_source is Some,
            r matches Some(x) ==> self.sources_unused_allowed_source == Some(*x),
    {
        match &self.sources_unused_allowed_source {
            Some(x) => Some(x),
            None => None,
        }
    }

    /// The policies that close the file, each with its message.
    pub fn closed_settings(&self) -> (r: &Vec<(Provenance, String)>)
        ensures
            *r == self.closed_settings,
    {
        &self.closed_settings
    }
}

} // verus!
