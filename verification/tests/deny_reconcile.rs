use aqc_toml_engines::deny_confidence::DenyConfidenceThreshold;
use aqc_toml_engines::deny_engine::{DenyTomlEngine, ENGINE_ID};
use aqc_toml_engines::deny_items::{
    DenyAdvisoryIgnoreSpec, DenyBuildGlobSpec, DenyFeatureBanSpec, DenyGraphTargetSpec, DenyLicenseClarification,
    DenyLicenseException, DenyPackageReasonSpec,
};
use aqc_toml_engines::deny_text::DenyNonEmptyString;
use aqc_toml_engines::items::ItemRequirements;
use aqc_toml_engines::deny_model::{DenyTomlRequirements, ResolvedDenyTomlRequirements};
use aqc_toml_engines::deny_values::DenyLintLevel;
use aqc_toml_engines::findings::{EngineOutput, Finding};
use aqc_toml_engines::lists::ListRequirements;
use aqc_toml_engines::requirements::{Provenance, ScalarAssertion};

fn provenance(policy: &str) -> Provenance {
    Provenance { policy: policy.to_owned() }
}

fn resolve(req: DenyTomlRequirements) -> ResolvedDenyTomlRequirements {
    let (resolved, conflicts) = DenyTomlRequirements::merge(vec![(provenance("test"), req)]);
    assert!(conflicts.is_empty(), "fixture must merge: {conflicts:?}");
    resolved
}

fn reconcile(current: &str, req: DenyTomlRequirements) -> EngineOutput {
    DenyTomlEngine::reconcile(Some(current.as_bytes()), &resolve(req))
}

fn expected(output: &EngineOutput) -> String {
    String::from_utf8(output.expected_bytes.clone()).unwrap_or_default()
}

fn scalar_req() -> DenyTomlRequirements {
    DenyTomlRequirements {
        bans_multiple_versions: Some(ScalarAssertion::Equals(DenyLintLevel::Deny, "deny duplicates".to_owned())),
        ..DenyTomlRequirements::default()
    }
}

fn confidence(text: &str) -> DenyConfidenceThreshold {
    DenyConfidenceThreshold::new(text).ok().expect("test confidence threshold should construct")
}

fn at_least_08() -> DenyTomlRequirements {
    DenyTomlRequirements {
        licenses_confidence_threshold: Some(ScalarAssertion::AtLeast(confidence("0.8"), "minimum confidence".to_owned())),
        ..DenyTomlRequirements::default()
    }
}

fn has_mismatch(output: &EngineOutput, wanted: &str) -> bool {
    output.findings.iter().any(|f| matches!(f, Finding::Mismatch { key, .. } if key == wanted))
}

#[test]
fn engine_requirement_missing_file() {
    let output = DenyTomlEngine::reconcile(None, &resolve(scalar_req()));
    assert!(expected(&output).contains("multiple-versions = \"deny\""), "missing deny.toml should produce expected bytes");
}

#[test]
fn missing_field_is_repaired() {
    let output = reconcile("", scalar_req());
    assert!(expected(&output).contains("multiple-versions = \"deny\""), "missing scalar field should be written");
}

#[test]
fn valid_drift_is_repaired() {
    let output = reconcile("[bans]\nmultiple-versions = \"allow\"\n", scalar_req());
    assert!(expected(&output).contains("multiple-versions = \"deny\""), "wrong scalar value should be repaired");
}

#[test]
fn confidence_threshold_writes_float() {
    let output = reconcile("", at_least_08());
    let text = expected(&output);
    assert!(text.contains("confidence-threshold = 0.8"), "confidence threshold should be written as a TOML float: {text}");
    assert!(!text.contains("confidence-threshold = \"0.8\""), "confidence threshold must not be written as a string");
}

#[test]
fn confidence_threshold_at_least_accepts_stricter_value() {
    let output = reconcile("[licenses]\nconfidence-threshold = 0.9\n", at_least_08());
    assert!(output.findings.is_empty(), "stricter confidence threshold should satisfy AtLeast: {:?}", output.findings);
}

#[test]
fn confidence_threshold_at_least_repairs_weaker_value() {
    let output = reconcile("[licenses]\nconfidence-threshold = 0.7\n", at_least_08());
    assert!(expected(&output).contains("confidence-threshold = 0.8"), "weaker confidence threshold should be repaired to the minimum");
}

#[test]
fn wrong_list_member_type() {
    let output = reconcile(
        "[graph]\nfeatures = [1]\n",
        DenyTomlRequirements {
            graph_features: ListRequirements { contains: vec![("all".to_owned(), "all".to_owned())], ..ListRequirements::default() },
            ..DenyTomlRequirements::default()
        },
    );
    assert!(
        output.findings.iter().any(|f| matches!(f, Finding::Mismatch { key, expected, .. } if key == "graph.features[0]" && expected == "string")),
        "non-string list member should be reported"
    );
}

#[test]
fn empty_list_member() {
    let output = reconcile(
        "[graph]\nfeatures = [\"\"]\n",
        DenyTomlRequirements {
            graph_features: ListRequirements { excludes: vec![(String::new(), "empty".to_owned())], ..ListRequirements::default() },
            ..DenyTomlRequirements::default()
        },
    );
    assert!(has_mismatch(&output, "graph.features."), "empty list member can be targeted and removed");
}

#[test]
fn unused_allowed_org_is_invalid_for_target_schema() {
    let output = reconcile("[sources]\nunused-allowed-org = \"warn\"\n", DenyTomlRequirements::default());
    assert!(has_mismatch(&output, "sources.unused-allowed-org"), "unsupported local cargo-deny field should be removed");
    assert!(!expected(&output).contains("unused-allowed-org"));
}

#[test]
fn bans_build_is_valid_when_open() {
    let output = reconcile("[bans.build]\nexecutables = \"deny\"\n", DenyTomlRequirements::default());
    assert!(output.findings.is_empty(), "valid bans.build should pass through when no requirement closes it");
}

#[test]
fn closed_bans_build_removes_extra() {
    let output = reconcile(
        "[bans.build]\nunknown = true\nexecutables = \"deny\"\n",
        DenyTomlRequirements { closed_settings: Some("closed".to_owned()), ..DenyTomlRequirements::default() },
    );
    let text = expected(&output);
    assert!(!text.contains("unknown"), "closed settings should remove unknown bans.build key");
    assert!(text.contains("executables = \"deny\""));
    assert!(has_mismatch(&output, "bans.build.unknown"));
}

#[test]
fn closed_settings_remove_unknown_root_table() {
    let output = reconcile(
        "[bans]\nmultiple-versions = \"deny\"\n[extra]\nvalue = 1\n",
        DenyTomlRequirements { closed_settings: Some("closed".to_owned()), ..scalar_req() },
    );
    assert!(!expected(&output).contains("extra"));
    assert!(output.findings.iter().any(|f| matches!(f, Finding::Mismatch { key, expected, .. }
        if key == "extra" && expected == "absent (exact settings)")));
}

#[test]
fn list_output_is_sorted() {
    let output = reconcile(
        "",
        DenyTomlRequirements {
            graph_features: ListRequirements { exact: Some((vec!["b".to_owned(), "a".to_owned()], "exact".to_owned())), ..ListRequirements::default() },
            ..DenyTomlRequirements::default()
        },
    );
    assert!(expected(&output).contains("features = [\"a\", \"b\"]"), "exact list output should be deterministic");
}

#[test]
fn malformed_toml() {
    let output = DenyTomlEngine::reconcile(Some(b"[bans\n"), &resolve(scalar_req()));
    assert!(output.findings.iter().any(|f| matches!(f, Finding::ParseError { .. })), "malformed TOML should report parse error");
    assert!(output.expected_bytes.is_empty(), "parse failures should not produce expected bytes");
}

#[test]
fn unknown_enum_value() {
    let output = reconcile("[bans]\nmultiple-versions = \"maybe\"\n", scalar_req());
    assert!(has_mismatch(&output, "bans.multiple-versions"), "unknown enum value should be reported as scalar drift");
}

#[test]
fn wrong_scalar_type() {
    let output = reconcile("[bans]\nmultiple-versions = 1\n", scalar_req());
    assert!(has_mismatch(&output, "bans.multiple-versions"), "wrong scalar type should be reported");
}

#[test]
fn conflicting_requirements_report_conflict() {
    let (_resolved, conflicts) = DenyTomlRequirements::merge(vec![
        (provenance("left"), DenyTomlRequirements {
            bans_multiple_versions: Some(ScalarAssertion::Equals(DenyLintLevel::Allow, "left".to_owned())),
            ..DenyTomlRequirements::default()
        }),
        (provenance("right"), DenyTomlRequirements {
            bans_multiple_versions: Some(ScalarAssertion::Equals(DenyLintLevel::Deny, "right".to_owned())),
            ..DenyTomlRequirements::default()
        }),
    ]);
    assert_eq!(conflicts.len(), 1, "scalar conflict should be reported");
}

#[test]
fn engine_requirement_id_matches_crate() {
    let req = scalar_req();
    assert_eq!(req.engine_id(), ENGINE_ID);
}

#[test]
fn uses_core_scalar_merge() {
    let (resolved, conflicts) = DenyTomlRequirements::merge(vec![(provenance("p"), scalar_req())]);
    assert!(conflicts.is_empty(), "scalar merge should use core behavior");
    assert!(resolved.bans_multiple_versions.is_some());
}

#[test]
fn confidence_threshold_uses_core_ordered_scalar_merge() {
    let (resolved, conflicts) = DenyTomlRequirements::merge(vec![
        (provenance("left"), DenyTomlRequirements {
            licenses_confidence_threshold: Some(ScalarAssertion::AtLeast(confidence("0.8"), "left".to_owned())),
            ..DenyTomlRequirements::default()
        }),
        (provenance("right"), DenyTomlRequirements {
            licenses_confidence_threshold: Some(ScalarAssertion::AtLeast(confidence("0.9"), "right".to_owned())),
            ..DenyTomlRequirements::default()
        }),
    ]);
    assert!(conflicts.is_empty(), "ordered confidence thresholds should merge");
    let merged = resolved.licenses_confidence_threshold.expect("resolved confidence threshold should exist").merged;
    assert!(matches!(merged, ScalarAssertion::AtLeast(value, _) if value.as_str() == "0.9"));
}

#[test]
fn uses_core_list_merge() {
    let (resolved, conflicts) = DenyTomlRequirements::merge(vec![(provenance("p"), DenyTomlRequirements {
        graph_features: ListRequirements { contains: vec![("all".to_owned(), "all features".to_owned())], ..ListRequirements::default() },
        ..DenyTomlRequirements::default()
    })]);
    assert!(conflicts.is_empty(), "list merge should use core behavior");
    assert!(resolved.graph_features.contains.iter().any(|e| e.value == "all"));
}

#[test]
fn merge_list_order_is_ignored() {
    let (resolved, conflicts) = DenyTomlRequirements::merge(vec![(provenance("p"), DenyTomlRequirements {
        graph_features: ListRequirements { exact: Some((vec!["b".to_owned(), "a".to_owned()], "exact".to_owned())), ..ListRequirements::default() },
        ..DenyTomlRequirements::default()
    })]);
    assert!(conflicts.is_empty(), "single exact list should not conflict");
    assert_eq!(resolved.graph_features.exact.expect("exact").merged, vec!["a".to_owned(), "b".to_owned()]);
}

#[test]
fn scalar_reconcile_reaches_a_fixed_point() {
    let req = || DenyTomlRequirements {
        bans_multiple_versions: Some(ScalarAssertion::Equals(DenyLintLevel::Deny, "deny duplicates".to_owned())),
        graph_features: ListRequirements { contains: vec![("all".to_owned(), "all".to_owned())], ..ListRequirements::default() },
        ..DenyTomlRequirements::default()
    };
    let first = reconcile("", req());
    let second = reconcile(&expected(&first), req());
    assert!(second.findings.is_empty(), "a reconciled file must satisfy its requirements: {:?}", second.findings);
    assert_eq!(expected(&second), expected(&first));
}

#[test]
fn blocked_table_is_reported_unwritable() {
    let output = reconcile("bans = 1\n", scalar_req());
    assert!(output.findings.iter().any(|f| matches!(f, Finding::UnwritableRequiredKey { key, expected, .. }
        if key == "bans" && expected == "table")));
    assert_eq!(expected(&output), "bans = 1\n");
}

#[test]
fn wrong_item_shape() {
    let output = reconcile(
        "[bans]\nallow = [1]\n",
        DenyTomlRequirements {
            bans_allow: ItemRequirements {
                required: vec![(DenyPackageReasonSpec::new("serde").ok().expect("package"), "allow serde".to_owned())],
            },
            ..DenyTomlRequirements::default()
        },
    );
    assert!(
        output.findings.iter().any(|finding| matches!(finding, Finding::Mismatch { key, .. } if key == "bans.allow[0]")),
        "malformed item should be reported"
    );
}

#[test]
fn duplicate_item_identity() {
    let output = reconcile(
        "[bans]\nallow = [\"serde\", \"serde\"]\n",
        DenyTomlRequirements {
            bans_allow: ItemRequirements {
                required: vec![(DenyPackageReasonSpec::new("serde").ok().expect("package"), "allow serde".to_owned())],
            },
            ..DenyTomlRequirements::default()
        },
    );
    assert!(
        output
            .findings
            .iter()
            .any(|finding| matches!(finding, Finding::InvalidRequirements { key, .. } if key == "bans.allow.serde")),
        "duplicate item identities should be reported"
    );
}

#[test]
fn deprecated_name_repairs_to_crate() {
    let output = reconcile(
        "[bans]\nallow = [{ name = \"serde\", reason = \"ok\" }]\n",
        DenyTomlRequirements {
            bans_allow: ItemRequirements {
                required: vec![(
                    DenyPackageReasonSpec::with_reason("serde", "ok").ok().expect("package"),
                    "allow serde".to_owned(),
                )],
            },
            ..DenyTomlRequirements::default()
        },
    );
    let expected = expected(&output);
    assert!(
        expected.contains("crate = \"serde\"") && !expected.contains("name = \"serde\""),
        "deprecated name key should be repaired to crate"
    );
}

#[test]
fn item_collections_write_required_items() {
    let output = reconcile(
        "",
        DenyTomlRequirements {
            graph_targets: ItemRequirements {
                required: vec![(
                    DenyGraphTargetSpec::new("x86_64-unknown-linux-gnu").ok().expect("target"),
                    "target".to_owned(),
                )],
            },
            bans_build_globs: ItemRequirements {
                required: vec![(DenyBuildGlobSpec::new("**/*.sh").ok().expect("glob"), "glob".to_owned())],
            },
            ..DenyTomlRequirements::default()
        },
    );
    let expected = expected(&output);
    assert!(
        expected.contains("targets = [\"x86_64-unknown-linux-gnu\"]") && expected.contains("globs = [\"**/*.sh\"]"),
        "array item helpers should write required items"
    );
}

fn allow_serde(reason: Option<&str>) -> DenyTomlRequirements {
    let item = match reason {
        Some(r) => DenyPackageReasonSpec::with_reason("serde", r),
        None => DenyPackageReasonSpec::new("serde"),
    };
    DenyTomlRequirements {
        bans_allow: ItemRequirements { required: vec![(item.ok().expect("package"), "allow serde".to_owned())] },
        ..DenyTomlRequirements::default()
    }
}

#[test]
fn satisfied_items_leave_the_file_unchanged() {
    let current = "[bans]\nallow = [\"serde\", \"tokio\"]\n";
    let output = reconcile(current, allow_serde(None));
    assert!(output.findings.is_empty(), "an entry that is already there is not reported: {:?}", output.findings);
    assert_eq!(expected(&output), current);
}

#[test]
fn missing_item_is_appended_and_others_kept() {
    let output = reconcile("[bans]\nallow = [\"tokio\"]\n", allow_serde(None));
    let text = expected(&output);
    assert!(text.contains("\"tokio\"") && text.contains("\"serde\""), "{text}");
    assert!(has_mismatch(&output, "bans.allow.serde"));
}

#[test]
fn required_reason_replaces_an_entry_without_it() {
    let output = reconcile("[bans]\nallow = [\"serde\"]\n", allow_serde(Some("ok")));
    let text = expected(&output);
    assert!(text.contains("crate = \"serde\"") && text.contains("reason = \"ok\""), "{text}");
    assert!(output.findings.iter().any(|f| matches!(f, Finding::Mismatch { key, current, expected, .. }
        if key == "bans.allow.serde" && current.as_deref() == Some("crate=serde") && expected == "crate=serde reason=ok")));
}

#[test]
fn an_entry_with_a_reason_satisfies_one_without() {
    let current = "[bans]\nallow = [{ crate = \"serde\", reason = \"ok\" }]\n";
    let output = reconcile(current, allow_serde(None));
    assert!(output.findings.is_empty(), "{:?}", output.findings);
    assert_eq!(expected(&output), current);
}

#[test]
fn item_reconcile_reaches_a_fixed_point() {
    let req = DenyTomlRequirements {
        advisories_ignore: ItemRequirements {
            required: vec![(
                DenyAdvisoryIgnoreSpec::with_reason("RUSTSEC-2020-0001", "not used").ok().expect("id"),
                "ignore".to_owned(),
            )],
        },
        licenses_exceptions: ItemRequirements {
            required: vec![(DenyLicenseException::new("ring", "OpenSSL").ok().expect("exception"), "ring".to_owned())],
        },
        ..allow_serde(Some("ok"))
    };
    let first = reconcile("[bans]\nallow = [{ name = \"serde\" }]\n", req);
    let again_req = DenyTomlRequirements {
        advisories_ignore: ItemRequirements {
            required: vec![(
                DenyAdvisoryIgnoreSpec::with_reason("RUSTSEC-2020-0001", "not used").ok().expect("id"),
                "ignore".to_owned(),
            )],
        },
        licenses_exceptions: ItemRequirements {
            required: vec![(DenyLicenseException::new("ring", "OpenSSL").ok().expect("exception"), "ring".to_owned())],
        },
        ..allow_serde(Some("ok"))
    };
    let text = expected(&first);
    let second = reconcile(text.as_str(), again_req);
    assert!(second.findings.is_empty(), "{:?}", second.findings);
    assert_eq!(expected(&second), text);
    assert!(text.contains("id = \"RUSTSEC-2020-0001\""), "{text}");
    assert!(text.contains("allow = \"OpenSSL\""), "{text}");
}

#[test]
fn table_items_are_written_as_arrays_of_tables() {
    let feature = DenyNonEmptyString::new("std").ok().expect("feature");
    let req = DenyTomlRequirements {
        bans_features: ItemRequirements {
            required: vec![(
                DenyFeatureBanSpec::new("serde", vec![feature], Vec::new()).ok().expect("feature ban"),
                "features".to_owned(),
            )],
        },
        licenses_clarify: ItemRequirements {
            required: vec![(
                DenyLicenseClarification::new("ring", "MIT AND ISC").ok().expect("clarification"),
                "clarify".to_owned(),
            )],
        },
        ..DenyTomlRequirements::default()
    };
    let output = reconcile("", req);
    let text = expected(&output);
    assert!(text.contains("[[bans.features]]") && text.contains("allow = [\"std\"]"), "{text}");
    assert!(text.contains("[[licenses.clarify]]") && text.contains("expression = \"MIT AND ISC\""), "{text}");
    assert!(has_mismatch(&output, "bans.features.serde"));
    assert!(has_mismatch(&output, "licenses.clarify.ring"));
}

#[test]
fn item_array_of_another_kind_is_reported_and_replaced() {
    let output = reconcile("[bans]\nallow = \"serde\"\n", allow_serde(None));
    assert!(output.findings.iter().any(|f| matches!(f, Finding::Mismatch { key, expected, .. }
        if key == "bans.allow" && expected == "array")));
    assert!(expected(&output).contains("allow = [\"serde\"]"), "{}", expected(&output));
}

#[test]
fn uses_core_item_merge() {
    let target = DenyGraphTargetSpec::new("x86_64-unknown-linux-gnu")
        .ok()
        .expect("test target triple should construct a graph target requirement");
    let (resolved, conflicts) = DenyTomlRequirements::merge(vec![(
        provenance("p"),
        DenyTomlRequirements {
            graph_targets: ItemRequirements { required: vec![(target, "target".to_owned())] },
            ..DenyTomlRequirements::default()
        },
    )]);
    assert!(conflicts.is_empty(), "item merge should use core behavior");
    assert!(resolved.graph_targets.required.iter().any(|entry| entry.identity == "x86_64-unknown-linux-gnu"));
}

#[test]
fn removal_under_an_inline_table_is_reported_unwritable() {
    let current = "bans = { multiple-versions = \"deny\" }\n";
    let output = reconcile(current, DenyTomlRequirements {
        bans_multiple_versions: Some(ScalarAssertion::Absent("no duplicates policy".to_owned())),
        ..DenyTomlRequirements::default()
    });
    assert_eq!(expected(&output), current);
    assert!(output.findings.iter().any(|f| matches!(f, Finding::UnwritableRequiredKey { key, expected, .. } if key == "bans" && expected == "table")));
}

#[test]
fn writes_deterministic_baseline() {
    let output = DenyTomlEngine::reconcile(None, &resolve(scalar_req()));
    assert!(expected(&output).contains("[bans]"), "engine path should write deterministic section");
}
