use aqc_toml_engines::findings::{EngineOutput, Finding};
use aqc_toml_engines::lists::ListRequirements;
use aqc_toml_engines::requirements::{ConfigScalar, Provenance};
use aqc_toml_engines::rustfmt_engine::RustfmtTomlEngine;
use aqc_toml_engines::rustfmt_merge::RustfmtTomlRequirements;
use aqc_toml_engines::rustfmt_model::RustfmtScalarAssertion;
use aqc_toml_engines::settings::{RustfmtListSetting, RustfmtScalarSetting};

fn reconcile(current: &str, req: RustfmtTomlRequirements) -> EngineOutput {
    let (resolved, conflicts) = RustfmtTomlRequirements::merge_with_conflicts(vec![(Provenance { policy: "test".to_owned() }, req)]);
    assert!(conflicts.is_empty(), "single requirement should not conflict: {conflicts:?}");
    RustfmtTomlEngine::reconcile(Some(current.as_bytes()), &resolved)
}

fn text(output: &EngineOutput) -> String {
    String::from_utf8(output.expected_bytes.clone()).unwrap_or_default()
}

fn scalar(setting: RustfmtScalarSetting, assertion: RustfmtScalarAssertion) -> RustfmtTomlRequirements {
    RustfmtTomlRequirements { scalar_settings: vec![(setting, assertion)], ..RustfmtTomlRequirements::default() }
}

fn list(setting: RustfmtListSetting, requirements: ListRequirements) -> RustfmtTomlRequirements {
    RustfmtTomlRequirements { list_settings: vec![(setting, requirements)], ..RustfmtTomlRequirements::default() }
}

fn max_width_100() -> RustfmtTomlRequirements {
    scalar(RustfmtScalarSetting::MaxWidth, RustfmtScalarAssertion::Equals(ConfigScalar::Int(100), "max width".to_owned()))
}

#[test]
fn reconcile_scalars_equals_writes_missing_scalar() {
    let output = reconcile("", max_width_100());
    assert!(text(&output).contains("max_width = 100"), "init bytes should write max_width");
    assert_eq!(output.findings.len(), 1, "missing scalar should be reported");
}

#[test]
fn reconcile_scalars_missing_file_writes_scalar() {
    let (resolved, conflicts) =
        RustfmtTomlRequirements::merge_with_conflicts(vec![(Provenance { policy: "test".to_owned() }, max_width_100())]);
    assert!(conflicts.is_empty(), "single requirement should not conflict: {conflicts:?}");
    let output = RustfmtTomlEngine::reconcile(None, &resolved);
    assert!(text(&output).contains("max_width = 100"), "missing file should be initialized");
    assert_eq!(output.findings.len(), 1, "missing file write should report the missing scalar");
}

#[test]
fn reconcile_scalars_absent_removes_existing_scalar() {
    let output = reconcile(
        "group_imports = \"One\"\n",
        scalar(RustfmtScalarSetting::GroupImports, RustfmtScalarAssertion::Absent("nightly".to_owned())),
    );
    assert!(!text(&output).contains("group_imports"), "absent scalar should be removed");
    assert_eq!(output.findings.len(), 1, "existing forbidden scalar should report");
}

#[test]
fn reconcile_scalars_one_of_reports_without_writing_choice() {
    let output = reconcile(
        "",
        scalar(
            RustfmtScalarSetting::Edition,
            RustfmtScalarAssertion::OneOf(vec!["2021".to_owned(), "2024".to_owned()], "edition set".to_owned()),
        ),
    );
    assert!(!text(&output).contains("edition"), "check-only one-of should not write a value");
    assert_eq!(output.findings.len(), 1, "missing one-of should report");
    match &output.findings[0] {
        Finding::Mismatch { expected, .. } => assert_eq!(expected, "one of {\"2021\", \"2024\"}"),
        other => panic!("unexpected finding {other:?}"),
    }
}

#[test]
fn reconcile_scalars_present_reports_missing_without_writing_choice() {
    let output = reconcile(
        "",
        scalar(RustfmtScalarSetting::Edition, RustfmtScalarAssertion::Present("edition present".to_owned())),
    );
    assert!(!text(&output).contains("edition"), "present check should not write a value");
    assert_eq!(output.findings.len(), 1, "missing present should report");
}

#[test]
fn reconcile_scalars_wrong_scalar_type_writes_desired_value() {
    let output = reconcile("max_width = \"wide\"\n", max_width_100());
    assert!(text(&output).contains("max_width = 100"), "wrong scalar type should be replaced");
    assert_eq!(output.findings.len(), 1, "wrong scalar type should report");
}

#[test]
fn reconcile_scalars_malformed_toml_reports_parse_error() {
    let output = reconcile("max_width = ", max_width_100());
    assert!(output.expected_bytes.is_empty(), "parse failures must not produce replacement bytes");
    assert_eq!(output.findings.len(), 1, "parse failures must not cascade");
    assert!(matches!(output.findings.first(), Some(Finding::ParseError { .. })), "malformed TOML should report a parse error");
}

#[test]
fn invalid_utf8_reports_parse_error() {
    let (resolved, _) = RustfmtTomlRequirements::merge_with_conflicts(vec![(Provenance { policy: "test".to_owned() }, max_width_100())]);
    let output = RustfmtTomlEngine::reconcile(Some(&[0xff, 0xfe]), &resolved);
    assert!(output.expected_bytes.is_empty());
    match &output.findings[..] {
        [Finding::ParseError { path, message }] => {
            assert_eq!(path, "rustfmt.toml");
            assert_eq!(message, "invalid UTF-8");
        }
        other => panic!("unexpected findings {other:?}"),
    }
}

#[test]
fn satisfied_scalar_keeps_file_and_reports_nothing() {
    let output = reconcile("max_width = 100 # keep\n", max_width_100());
    assert_eq!(text(&output), "max_width = 100 # keep\n");
    assert!(output.findings.is_empty());
}

#[test]
fn second_reconcile_of_written_scalar_is_quiet() {
    let first = reconcile("", max_width_100());
    let second = reconcile(&text(&first), max_width_100());
    assert!(second.findings.is_empty(), "a written value must satisfy its own requirement");
    assert_eq!(text(&second), text(&first));
}

#[test]
fn reconcile_lists_list_contains_and_excludes_reconcile_values() {
    let output = reconcile(
        "ignore = [\"old\", \"kept\"]\n",
        list(
            RustfmtListSetting::Ignore,
            ListRequirements {
                contains: vec![("new".to_owned(), "include new".to_owned())],
                excludes: vec![("old".to_owned(), "exclude old".to_owned())],
                exact: None,
            },
        ),
    );
    let expected = text(&output);
    assert!(expected.contains("\"kept\""), "existing item should remain");
    assert!(expected.contains("\"new\""), "contains item should be added");
    assert!(!expected.contains("\"old\""), "excluded item should be removed");
    assert_eq!(output.findings.len(), 2, "one add and one remove should report");
}

#[test]
fn reconcile_lists_exact_list_writes_exact_values() {
    let output = reconcile(
        "ignore = [\"old\"]\n",
        list(
            RustfmtListSetting::Ignore,
            ListRequirements { exact: Some((vec!["generated".to_owned()], "exact ignore".to_owned())), ..ListRequirements::default() },
        ),
    );
    let expected = text(&output);
    assert!(expected.contains("\"generated\""), "exact list should write required value");
    assert!(!expected.contains("\"old\""), "exact list should remove old value");
    assert_eq!(output.findings.len(), 1, "exact list mismatch should report");
}

#[test]
fn reconcile_lists_non_array_list_setting_reports_shape_finding() {
    let output = reconcile(
        "ignore = \"target\"\n",
        list(
            RustfmtListSetting::Ignore,
            ListRequirements { contains: vec![("target".to_owned(), "ignore target".to_owned())], ..ListRequirements::default() },
        ),
    );
    assert!(
        output.findings.iter().any(
            |f| matches!(f, Finding::Mismatch { key, expected, .. } if key == "ignore" && expected == "array of strings")
        ),
        "non-array list setting should report shape finding"
    );
    assert!(text(&output).contains("ignore = [\"target\"]"), "non-array list setting should be rewritten to a string array");
}

#[test]
fn reconcile_lists_non_string_list_item_reports_shape_finding() {
    let output = reconcile(
        "ignore = [\"target\", 42]\n",
        list(
            RustfmtListSetting::Ignore,
            ListRequirements {
                contains: vec![("generated".to_owned(), "ignore generated".to_owned())],
                ..ListRequirements::default()
            },
        ),
    );
    assert!(
        output.findings.iter().any(|f| matches!(f, Finding::Mismatch { key, expected, .. } if key == "ignore[1]" && expected == "string")),
        "non-string list item should report shape finding"
    );
    assert!(
        text(&output).contains("ignore = [\"target\", \"generated\"]"),
        "non-string list item should be removed before writing"
    );
}

#[test]
fn closed_settings_remove_unknown_keys() {
    let req = RustfmtTomlRequirements {
        scalar_settings: vec![(
            RustfmtScalarSetting::MaxWidth,
            RustfmtScalarAssertion::Equals(ConfigScalar::Int(100), "max width".to_owned()),
        )],
        closed_settings: Some("closed".to_owned()),
        ..RustfmtTomlRequirements::default()
    };
    let output = reconcile("max_width = 100\nhard_tabs = true\n", req);
    let expected = text(&output);
    assert!(!expected.contains("hard_tabs"), "unknown key should be removed");
    assert!(expected.contains("max_width = 100"), "required key should stay");
    assert_eq!(output.findings.len(), 1);
    match &output.findings[0] {
        Finding::Mismatch { key, expected, message, .. } => {
            assert_eq!(key, "hard_tabs");
            assert_eq!(expected, "absent because rustfmt.toml settings are closed");
            assert_eq!(message, "closed");
        }
        other => panic!("unexpected finding {other:?}"),
    }
}
