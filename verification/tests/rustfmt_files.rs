use aqc_toml_engines::findings::{EngineOutput, Finding};
use aqc_toml_engines::lists::ListRequirements;
use aqc_toml_engines::requirements::{ConfigScalar, Provenance};
use aqc_toml_engines::rustfmt_engine::{RustfmtTomlEngine, ENGINE_ID};
use aqc_toml_engines::rustfmt_merge::RustfmtTomlRequirements;
use aqc_toml_engines::rustfmt_model::{ForbiddenGlobRequirements, RustfmtIgnorePathGlob, RustfmtScalarAssertion};
use aqc_toml_engines::settings::{RustfmtListSetting, RustfmtScalarSetting};

fn prov(policy: &str) -> Provenance {
    Provenance { policy: policy.to_owned() }
}

fn reconcile(current: &str, req: RustfmtTomlRequirements) -> EngineOutput {
    let (resolved, conflicts) = RustfmtTomlRequirements::merge_with_conflicts(vec![(prov("test"), req)]);
    assert!(conflicts.is_empty(), "single requirement should not conflict: {conflicts:?}");
    RustfmtTomlEngine::reconcile(Some(current.as_bytes()), &resolved)
}

fn text(output: &EngineOutput) -> String {
    String::from_utf8(output.expected_bytes.clone()).unwrap_or_default()
}

fn max_width_100() -> RustfmtTomlRequirements {
    RustfmtTomlRequirements {
        scalar_settings: vec![(
            RustfmtScalarSetting::MaxWidth,
            RustfmtScalarAssertion::Equals(ConfigScalar::Int(100), "max width".to_owned()),
        )],
        ..RustfmtTomlRequirements::default()
    }
}

fn ignore_list(requirements: ListRequirements) -> RustfmtTomlRequirements {
    RustfmtTomlRequirements { list_settings: vec![(RustfmtListSetting::Ignore, requirements)], ..RustfmtTomlRequirements::default() }
}

fn ignore_globs(globs: Vec<(&str, &str)>) -> ForbiddenGlobRequirements<RustfmtIgnorePathGlob> {
    ForbiddenGlobRequirements {
        globs: globs.into_iter().map(|(glob, msg)| (RustfmtIgnorePathGlob { glob: glob.to_owned() }, msg.to_owned())).collect(),
    }
}

fn edition(value: &str, message: &str) -> RustfmtTomlRequirements {
    RustfmtTomlRequirements {
        scalar_settings: vec![(
            RustfmtScalarSetting::Edition,
            RustfmtScalarAssertion::Equals(ConfigScalar::Str(value.to_owned()), message.to_owned()),
        )],
        ..RustfmtTomlRequirements::default()
    }
}

fn check_equals_writes_missing_scalar() {
    let output = reconcile("", max_width_100());
    assert!(text(&output).contains("max_width = 100"), "init bytes should write max_width");
    assert_eq!(output.findings.len(), 1, "missing scalar should be reported");
}

fn check_missing_file_writes_scalar() {
    let (resolved, conflicts) = RustfmtTomlRequirements::merge_with_conflicts(vec![(prov("test"), max_width_100())]);
    assert!(conflicts.is_empty(), "single requirement should not conflict: {conflicts:?}");
    let output = RustfmtTomlEngine::reconcile(None, &resolved);
    assert!(text(&output).contains("max_width = 100"), "missing file should be initialized");
    assert_eq!(output.findings.len(), 1, "missing file write should report the missing scalar");
}

fn check_absent_removes_existing_scalar() {
    let output = reconcile(
        "group_imports = \"One\"\n",
        RustfmtTomlRequirements {
            scalar_settings: vec![(RustfmtScalarSetting::GroupImports, RustfmtScalarAssertion::Absent("nightly".to_owned()))],
            ..RustfmtTomlRequirements::default()
        },
    );
    assert!(!text(&output).contains("group_imports"), "absent scalar should be removed");
    assert_eq!(output.findings.len(), 1, "existing forbidden scalar should report");
}

fn check_one_of_reports_without_writing_choice() {
    let output = reconcile(
        "",
        RustfmtTomlRequirements {
            scalar_settings: vec![(
                RustfmtScalarSetting::Edition,
                RustfmtScalarAssertion::OneOf(vec!["2021".to_owned(), "2024".to_owned()], "edition set".to_owned()),
            )],
            ..RustfmtTomlRequirements::default()
        },
    );
    assert!(!text(&output).contains("edition"), "check-only one-of should not write a value");
    assert_eq!(output.findings.len(), 1, "missing one-of should report");
}

fn check_present_reports_missing_without_writing_choice() {
    let output = reconcile(
        "",
        RustfmtTomlRequirements {
            scalar_settings: vec![(RustfmtScalarSetting::Edition, RustfmtScalarAssertion::Present("edition present".to_owned()))],
            ..RustfmtTomlRequirements::default()
        },
    );
    assert!(!text(&output).contains("edition"), "present check should not write a value");
    assert_eq!(output.findings.len(), 1, "missing present should report");
}

fn check_wrong_scalar_type_writes_desired_value() {
    let output = reconcile("max_width = \"wide\"\n", max_width_100());
    assert!(text(&output).contains("max_width = 100"), "wrong scalar type should be replaced");
    assert_eq!(output.findings.len(), 1, "wrong scalar type should report");
}

fn check_malformed_toml_reports_parse_error() {
    let output = reconcile("max_width = ", max_width_100());
    assert!(matches!(output.findings.first(), Some(Finding::ParseError { .. })), "malformed TOML should report a parse error");
}

fn check_list_contains_and_excludes_reconcile_values() {
    let output = reconcile(
        "ignore = [\"old\", \"kept\"]\n",
        ignore_list(ListRequirements {
            contains: vec![("new".to_owned(), "include new".to_owned())],
            excludes: vec![("old".to_owned(), "exclude old".to_owned())],
            exact: None,
        }),
    );
    let expected = text(&output);
    assert!(expected.contains("\"kept\""), "existing item should remain");
    assert!(expected.contains("\"new\""), "contains item should be added");
    assert!(!expected.contains("\"old\""), "excluded item should be removed");
    assert_eq!(output.findings.len(), 2, "one add and one remove should report");
}

fn check_exact_list_writes_exact_values() {
    let output = reconcile(
        "ignore = [\"old\"]\n",
        ignore_list(ListRequirements {
            exact: Some((vec!["generated".to_owned()], "exact ignore".to_owned())),
            ..ListRequirements::default()
        }),
    );
    let expected = text(&output);
    assert!(expected.contains("\"generated\""), "exact list should write required value");
    assert!(!expected.contains("\"old\""), "exact list should remove old value");
    assert_eq!(output.findings.len(), 1, "exact list mismatch should report");
}

fn check_non_array_list_setting_reports_shape_finding() {
    let output = reconcile(
        "ignore = \"target\"\n",
        ignore_list(ListRequirements { contains: vec![("target".to_owned(), "ignore target".to_owned())], ..ListRequirements::default() }),
    );
    assert!(
        output.findings.iter().any(|f| matches!(f, Finding::Mismatch { key, expected, .. } if key == "ignore" && expected == "array of strings")),
        "non-array list setting should report shape finding"
    );
    assert!(text(&output).contains("ignore = [\"target\"]"), "non-array list setting should be rewritten to a string array");
}

fn check_non_string_list_item_reports_shape_finding() {
    let output = reconcile(
        "ignore = [\"target\", 42]\n",
        ignore_list(ListRequirements { contains: vec![("generated".to_owned(), "ignore generated".to_owned())], ..ListRequirements::default() }),
    );
    assert!(
        output.findings.iter().any(|f| matches!(f, Finding::Mismatch { key, expected, .. } if key == "ignore[1]" && expected == "string")),
        "non-string list item should report shape finding"
    );
    assert!(text(&output).contains("ignore = [\"target\", \"generated\"]"), "non-string list item should be removed before writing");
}

fn check_malformed_list_is_normalized_even_without_matching_item_change() {
    let output = reconcile(
        "ignore = [42]\n",
        ignore_list(ListRequirements { excludes: vec![("unmatched".to_owned(), "exclude unmatched".to_owned())], ..ListRequirements::default() }),
    );
    assert!(text(&output).contains("ignore = []"), "malformed list should be normalized even when excludes does not match");
}

fn check_forbidden_ignore_path_glob_removes_matching_values() {
    let output = reconcile(
        "ignore = [\"target/generated\", \"src/lib.rs\"]\n",
        RustfmtTomlRequirements {
            forbidden_ignore_path_globs: ignore_globs(vec![("target/**", "do not disable formatting under target")]),
            ..RustfmtTomlRequirements::default()
        },
    );
    let expected = text(&output);
    assert!(!expected.contains("target/generated"), "matching ignore value should be removed");
    assert!(expected.contains("src/lib.rs"), "non-matching ignore value should remain");
    assert!(
        output.findings.iter().any(|f| matches!(f, Finding::Mismatch { key, expected, .. }
            if key == "ignore.target/generated" && expected == "absent (path glob)")),
        "matching ignore value should report a path-glob mismatch"
    );
}

fn check_invalid_forbidden_ignore_path_glob_reports_invalid_requirements() {
    let output = reconcile(
        "ignore = [\"target/generated\"]\n",
        RustfmtTomlRequirements { forbidden_ignore_path_globs: ignore_globs(vec![("[", "bad glob")]), ..RustfmtTomlRequirements::default() },
    );
    assert!(
        output.findings.iter().any(|f| matches!(f, Finding::InvalidRequirements { key, message, .. }
            if key == "ignore.[" && message.contains("invalid ignore path glob"))),
        "invalid glob syntax should report invalid requirements"
    );
}

fn check_forbidden_ignore_path_glob_reports_and_normalizes_malformed_ignore_list() {
    let output = reconcile(
        "ignore = [\"target/generated\", 42]\n",
        RustfmtTomlRequirements {
            forbidden_ignore_path_globs: ignore_globs(vec![("unmatched/**", "glob requires ignore list shape")]),
            ..RustfmtTomlRequirements::default()
        },
    );
    assert!(
        text(&output).contains("ignore = [\"target/generated\"]"),
        "malformed ignore list should be normalized when glob rules inspect it"
    );
    assert!(
        output.findings.iter().any(|f| matches!(f, Finding::Mismatch { key, expected, .. } if key == "ignore[1]" && expected == "string")),
        "non-string ignore item should report shape finding"
    );
}

fn check_closed_settings_keep_ignore_when_only_glob_rules_manage_it() {
    let output = reconcile(
        "ignore = [\"src/lib.rs\"]\nunknown = true\n",
        RustfmtTomlRequirements {
            forbidden_ignore_path_globs: ignore_globs(vec![("target/**", "no target ignore")]),
            closed_settings: Some("closed".to_owned()),
            ..RustfmtTomlRequirements::default()
        },
    );
    let expected = text(&output);
    assert!(expected.contains("ignore"), "ignore should be allowed when forbidden ignore glob rules manage it");
    assert!(!expected.contains("unknown"), "unlisted key should still be removed");
}

fn check_closed_settings_remove_unlisted_keys() {
    let output = reconcile(
        "max_width = 100\nunknown = true\n",
        RustfmtTomlRequirements { closed_settings: Some("closed".to_owned()), ..max_width_100() },
    );
    let expected = text(&output);
    assert!(expected.contains("max_width"), "listed key should remain");
    assert!(!expected.contains("unknown"), "unlisted key should be removed");
    assert_eq!(output.findings.len(), 1, "closed extra should report");
}

fn check_closed_settings_keep_allowed_list_keys() {
    let output = reconcile(
        "ignore = [\"target\"]\nunknown = true\n",
        RustfmtTomlRequirements {
            closed_settings: Some("closed".to_owned()),
            ..ignore_list(ListRequirements { contains: vec![("target".to_owned(), "ignore target".to_owned())], ..ListRequirements::default() })
        },
    );
    let expected = text(&output);
    assert!(expected.contains("ignore"), "allowed list key should remain");
    assert!(!expected.contains("unknown"), "unlisted key should be removed");
    assert_eq!(output.findings.len(), 1, "closed extra should report");
}

fn check_unrelated_settings_are_preserved_when_not_closed() {
    let output = reconcile("max_width = 80\nunknown = true\n", max_width_100());
    let expected = text(&output);
    assert!(expected.contains("unknown = true"), "unrelated key should remain when settings are not closed");
    assert!(expected.contains("max_width = 100"), "managed key should still be rewritten");
}

#[test]
fn reconcile_equals_writes_missing_scalar() {
    check_equals_writes_missing_scalar();
}

#[test]
fn reconcile_missing_file_writes_scalar() {
    check_missing_file_writes_scalar();
}

#[test]
fn reconcile_absent_removes_existing_scalar() {
    check_absent_removes_existing_scalar();
}

#[test]
fn reconcile_one_of_reports_without_writing_choice() {
    check_one_of_reports_without_writing_choice();
}

#[test]
fn reconcile_present_reports_missing_without_writing_choice() {
    check_present_reports_missing_without_writing_choice();
}

#[test]
fn reconcile_wrong_scalar_type_writes_desired_value() {
    check_wrong_scalar_type_writes_desired_value();
}

#[test]
fn reconcile_malformed_toml_reports_parse_error() {
    check_malformed_toml_reports_parse_error();
}

#[test]
fn reconcile_list_contains_and_excludes_reconcile_values() {
    check_list_contains_and_excludes_reconcile_values();
}

#[test]
fn reconcile_exact_list_writes_exact_values() {
    check_exact_list_writes_exact_values();
}

#[test]
fn reconcile_non_array_list_setting_reports_shape_finding() {
    check_non_array_list_setting_reports_shape_finding();
}

#[test]
fn reconcile_non_string_list_item_reports_shape_finding() {
    check_non_string_list_item_reports_shape_finding();
}

#[test]
fn reconcile_malformed_list_is_normalized_even_without_matching_item_change() {
    check_malformed_list_is_normalized_even_without_matching_item_change();
}

#[test]
fn reconcile_lists_malformed_list_is_normalized_even_without_matching_item_change() {
    check_malformed_list_is_normalized_even_without_matching_item_change();
}

#[test]
fn reconcile_forbidden_ignore_path_glob_removes_matching_values() {
    check_forbidden_ignore_path_glob_removes_matching_values();
}

#[test]
fn reconcile_invalid_forbidden_ignore_path_glob_reports_invalid_requirements() {
    check_invalid_forbidden_ignore_path_glob_reports_invalid_requirements();
}

#[test]
fn reconcile_forbidden_ignore_path_glob_reports_and_normalizes_malformed_ignore_list() {
    check_forbidden_ignore_path_glob_reports_and_normalizes_malformed_ignore_list();
}

#[test]
fn reconcile_closed_settings_keep_ignore_when_only_glob_rules_manage_it() {
    check_closed_settings_keep_ignore_when_only_glob_rules_manage_it();
}

#[test]
fn reconcile_closed_settings_remove_unlisted_keys() {
    check_closed_settings_remove_unlisted_keys();
}

#[test]
fn reconcile_closed_settings_keep_allowed_list_keys() {
    check_closed_settings_keep_allowed_list_keys();
}

#[test]
fn reconcile_unrelated_settings_are_preserved_when_not_closed() {
    check_unrelated_settings_are_preserved_when_not_closed();
}

#[test]
fn reconcile_ignore_closed_forbidden_ignore_path_glob_removes_matching_values() {
    check_forbidden_ignore_path_glob_removes_matching_values();
}

#[test]
fn reconcile_ignore_closed_invalid_forbidden_ignore_path_glob_reports_invalid_requirements() {
    check_invalid_forbidden_ignore_path_glob_reports_invalid_requirements();
}

#[test]
fn reconcile_ignore_closed_forbidden_ignore_path_glob_reports_and_normalizes_malformed_ignore_list() {
    check_forbidden_ignore_path_glob_reports_and_normalizes_malformed_ignore_list();
}

#[test]
fn reconcile_ignore_closed_closed_settings_keep_ignore_when_only_glob_rules_manage_it() {
    check_closed_settings_keep_ignore_when_only_glob_rules_manage_it();
}

#[test]
fn reconcile_ignore_closed_closed_settings_remove_unlisted_keys() {
    check_closed_settings_remove_unlisted_keys();
}

#[test]
fn reconcile_ignore_closed_closed_settings_keep_allowed_list_keys() {
    check_closed_settings_keep_allowed_list_keys();
}

#[test]
fn reconcile_ignore_closed_unrelated_settings_are_preserved_when_not_closed() {
    check_unrelated_settings_are_preserved_when_not_closed();
}

#[test]
fn reconcile_ignore_exact_forbidden_ignore_path_glob_removes_matching_values() {
    check_forbidden_ignore_path_glob_removes_matching_values();
}

#[test]
fn reconcile_ignore_exact_invalid_forbidden_ignore_path_glob_reports_invalid_requirements() {
    check_invalid_forbidden_ignore_path_glob_reports_invalid_requirements();
}

#[test]
fn reconcile_ignore_exact_forbidden_ignore_path_glob_reports_and_normalizes_malformed_ignore_list() {
    check_forbidden_ignore_path_glob_reports_and_normalizes_malformed_ignore_list();
}

#[test]
fn merge_merge_keeps_equal_scalar_requirements() {
    let resolved = RustfmtTomlRequirements::merge(vec![
        (prov("left"), edition("2024", "left")),
        (prov("right"), edition("2024", "right")),
    ])
    .ok()
    .expect("equal settings must merge cleanly");
    assert!(
        resolved.scalar_settings().iter().any(|(setting, _)| *setting == RustfmtScalarSetting::Edition),
        "merged edition requirement must be retained"
    );
}

#[test]
fn merge_merge_reports_conflicting_scalar_requirements() {
    let conflicts = RustfmtTomlRequirements::merge(vec![
        (prov("left"), edition("2021", "left")),
        (prov("right"), edition("2024", "right")),
    ])
    .err()
    .expect("conflicting settings must not merge");
    assert_eq!(conflicts.len(), 1, "conflicting edition must produce one conflict");
    let conflict = conflicts.first().expect("one scalar conflict should be present");
    assert_eq!(conflict.key, "edition", "conflict key must be file key");
}

#[test]
fn rustfmt_requirements_use_core_scalar_assertions() {
    let resolved = RustfmtTomlRequirements::merge(vec![(prov("policy"), edition("2024", "edition"))])
        .ok()
        .expect("supported scalar assertion must merge");
    assert!(resolved.scalar_settings().iter().any(|(setting, _)| *setting == RustfmtScalarSetting::Edition));
}

#[test]
fn forbidden_ignore_path_globs_dedupe_attribution() {
    let (resolved, conflicts) = RustfmtTomlRequirements::merge_with_conflicts(vec![
        (prov("left"), RustfmtTomlRequirements { forbidden_ignore_path_globs: ignore_globs(vec![("target/**", "left")]), ..RustfmtTomlRequirements::default() }),
        (prov("right"), RustfmtTomlRequirements { forbidden_ignore_path_globs: ignore_globs(vec![("target/**", "right")]), ..RustfmtTomlRequirements::default() }),
    ]);
    assert!(conflicts.is_empty(), "same glob should merge cleanly");
    let entry = resolved
        .forbidden_ignore_path_globs()
        .globs
        .iter()
        .find(|entry| entry.identity == "target/**")
        .expect("merged forbidden glob should exist");
    assert_eq!(entry.collected.len(), 2, "same glob should retain both contributors");
}

#[test]
fn forbidden_ignore_path_glob_conflicts_with_required_ignore_path() {
    let (_resolved, conflicts) = RustfmtTomlRequirements::merge_with_conflicts(vec![
        (
            prov("required"),
            ignore_list(ListRequirements {
                contains: vec![("target/generated".to_owned(), "must ignore generated".to_owned())],
                ..ListRequirements::default()
            }),
        ),
        (prov("forbid"), RustfmtTomlRequirements { forbidden_ignore_path_globs: ignore_globs(vec![("target/**", "do not ignore target")]), ..RustfmtTomlRequirements::default() }),
    ]);
    assert!(!conflicts.is_empty(), "required path matched by a forbidden glob must fail resolution");
    let conflict = conflicts
        .iter()
        .find(|conflict| conflict.reason == "ignore-path-glob-forbids-required-path")
        .expect("required ignore entry matching glob should conflict");
    assert_eq!(conflict.key, "ignore.target/generated");
    assert_eq!(conflict.contributors, vec![(prov("required"), "required".to_owned()), (prov("forbid"), "forbidden".to_owned())]);
}

#[test]
fn requirement_reports_rustfmt_engine_id() {
    let req = RustfmtTomlRequirements::default();
    assert_eq!(req.engine_id(), ENGINE_ID, "engine id must route to rustfmt");
}

#[test]
fn merge_reports_assertions_a_setting_does_not_admit() {
    let (resolved, conflicts) = RustfmtTomlRequirements::merge_with_conflicts(vec![
        (prov("text"), RustfmtTomlRequirements {
            scalar_settings: vec![(
                RustfmtScalarSetting::MaxWidth,
                RustfmtScalarAssertion::Equals(ConfigScalar::Str("wide".to_owned()), "width".to_owned()),
            )],
            ..RustfmtTomlRequirements::default()
        }),
        (prov("choice"), RustfmtTomlRequirements {
            scalar_settings: vec![(
                RustfmtScalarSetting::HardTabs,
                RustfmtScalarAssertion::OneOf(vec!["true".to_owned()], "tabs".to_owned()),
            )],
            ..RustfmtTomlRequirements::default()
        }),
    ]);
    assert!(resolved.scalar_settings.is_empty());
    assert_eq!(conflicts.len(), 2);
    assert!(conflicts.iter().any(|c| c.key == "max_width" && c.reason == "scalar-operation-unsupported"));
    assert!(conflicts.iter().any(|c| c.key == "hard_tabs" && c.reason == "scalar-operation-unsupported"));
}

#[test]
fn scalar_setting_keys_are_distinct_snake_case() {
    let mut keys: Vec<&str> = Vec::new();
    let mut i = 0;
    while let Some(setting) = aqc_toml_engines::settings::scalar_setting_at(i) {
        keys.push(setting.file_key());
        i += 1;
    }
    assert_eq!(keys.len(), 84);
    for key in &keys {
        assert!(!key.is_empty() && key.chars().all(|c| c.is_ascii_lowercase() || c == '_'), "{key}");
    }
    let mut sorted = keys.clone();
    sorted.sort();
    sorted.dedup();
    assert_eq!(sorted.len(), keys.len());
}

#[test]
fn rustfmt_scalar_setting_kind_validation_covers_all_kinds() {
    let valid = RustfmtTomlRequirements::merge(vec![(prov("valid"), RustfmtTomlRequirements {
        scalar_settings: vec![
            (RustfmtScalarSetting::UseTryShorthand, RustfmtScalarAssertion::Present("bool present".to_owned())),
            (RustfmtScalarSetting::FnCallWidth, RustfmtScalarAssertion::Absent("int absent".to_owned())),
            (RustfmtScalarSetting::Version, RustfmtScalarAssertion::Present("text present".to_owned())),
        ],
        ..RustfmtTomlRequirements::default()
    })])
    .ok()
    .expect("supported scalar operations must merge");
    for setting in [RustfmtScalarSetting::UseTryShorthand, RustfmtScalarSetting::FnCallWidth, RustfmtScalarSetting::Version] {
        assert!(valid.scalar_settings().iter().any(|(s, _)| *s == setting));
    }

    let conflicts = RustfmtTomlRequirements::merge(vec![(prov("policy"), RustfmtTomlRequirements {
        scalar_settings: vec![
            (RustfmtScalarSetting::HardTabs, RustfmtScalarAssertion::Equals(ConfigScalar::Str("true".to_owned()), "wrong bool".to_owned())),
            (RustfmtScalarSetting::MaxWidth, RustfmtScalarAssertion::OneOf(vec!["100".to_owned()], "wrong int oneof".to_owned())),
            (RustfmtScalarSetting::Edition, RustfmtScalarAssertion::Equals(ConfigScalar::Int(2024), "wrong text".to_owned())),
        ],
        ..RustfmtTomlRequirements::default()
    })])
    .err()
    .expect("invalid scalar kinds must not expose a resolved root");
    assert_eq!(conflicts.iter().filter(|c| c.reason == "scalar-operation-unsupported").count(), 3);
}
