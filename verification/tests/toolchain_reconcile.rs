use aqc_toml_engines::findings::{EngineOutput, Finding};
use aqc_toml_engines::lists::ListRequirements;
use aqc_toml_engines::requirements::{Provenance, ScalarAssertion};
use aqc_toml_engines::toolchain_engine::{RustToolchainTomlEngine, ENGINE_ID};
use aqc_toml_engines::toolchain_model::RustToolchainTomlRequirements;
use aqc_toml_engines::toolchain_values::{RustToolchainChannel, RustToolchainPath, RustToolchainProfile};

fn prov(policy: &str) -> Provenance {
    Provenance { policy: policy.to_owned() }
}

fn reconcile_bytes(current: Option<&[u8]>, req: RustToolchainTomlRequirements) -> EngineOutput {
    let resolved = match RustToolchainTomlRequirements::merge(vec![(prov("test"), req)]) {
        Ok(r) => r,
        Err(conflicts) => panic!("test requirement must merge: {conflicts:?}"),
    };
    RustToolchainTomlEngine::reconcile(current, &resolved)
}

fn reconcile(current: &str, req: RustToolchainTomlRequirements) -> EngineOutput {
    reconcile_bytes(Some(current.as_bytes()), req)
}

fn reconcile_none(req: RustToolchainTomlRequirements) -> EngineOutput {
    reconcile_bytes(None, req)
}

fn text(output: &EngineOutput) -> String {
    String::from_utf8(output.expected_bytes.clone()).unwrap_or_default()
}

fn contains<const N: usize>(values: [&str; N]) -> ListRequirements {
    ListRequirements {
        contains: values.into_iter().map(|v| (v.to_owned(), "required list value".to_owned())).collect(),
        ..ListRequirements::default()
    }
}

fn req_channel(value: &str) -> RustToolchainTomlRequirements {
    let channel = RustToolchainChannel::new(value).ok().expect("test channel must parse");
    RustToolchainTomlRequirements {
        channel: Some(ScalarAssertion::Equals(channel, "channel".to_owned())),
        ..RustToolchainTomlRequirements::default()
    }
}

fn req_path_with(update: impl FnOnce(&mut RustToolchainTomlRequirements)) -> RustToolchainTomlRequirements {
    let path = RustToolchainPath::new("/opt/rust").ok().expect("test path must parse");
    let mut req = RustToolchainTomlRequirements {
        path: Some(ScalarAssertion::Equals(path, "path".to_owned())),
        ..RustToolchainTomlRequirements::default()
    };
    update(&mut req);
    req
}

fn baseline_req() -> RustToolchainTomlRequirements {
    RustToolchainTomlRequirements {
        channel: Some(ScalarAssertion::Equals(RustToolchainChannel::stable(), "channel".to_owned())),
        profile: Some(ScalarAssertion::Equals(RustToolchainProfile::Minimal, "profile".to_owned())),
        components: contains(["clippy", "rustfmt"]),
        ..RustToolchainTomlRequirements::default()
    }
}

fn has_invalid(output: &EngineOutput, wanted: &str) -> bool {
    output.findings.iter().any(|f| matches!(f, Finding::InvalidRequirements { key, .. } if key == wanted))
}

fn has_unwritable(output: &EngineOutput, wanted: &str) -> bool {
    output.findings.iter().any(|f| matches!(f, Finding::UnwritableRequiredKey { key, .. } if key == wanted))
}

fn has_mismatch(output: &EngineOutput, wanted: &str) -> bool {
    output.findings.iter().any(|f| matches!(f, Finding::Mismatch { key, .. } if key == wanted))
}

#[test]
fn merge_rejects_conflicting_channels() {
    let conflicts = match RustToolchainTomlRequirements::merge(vec![
        (prov("a"), req_channel("stable")),
        (prov("b"), req_channel("nightly")),
    ]) {
        Ok(_) => panic!("conflicting channels must not expose a resolved root"),
        Err(c) => c,
    };
    assert!(conflicts.iter().any(|e| e.key == "toolchain.channel" && e.reason == "scalar-disagree"));
}

#[test]
fn merge_rejects_path_with_channel_requirement() {
    let output = reconcile_none(req_path_with(|req| {
        req.channel = Some(ScalarAssertion::Equals(RustToolchainChannel::stable(), "channel".to_owned()));
    }));
    assert!(has_invalid(&output, "toolchain.channel"), "path plus channel must be invalid");
}

#[test]
fn merge_rejects_path_with_profile_requirement() {
    let output = reconcile_none(req_path_with(|req| {
        req.profile = Some(ScalarAssertion::Equals(RustToolchainProfile::Minimal, "profile".to_owned()));
    }));
    assert!(has_invalid(&output, "toolchain.profile"), "path plus profile must be invalid");
}

#[test]
fn merge_rejects_path_with_components_requirement() {
    let output = reconcile_none(req_path_with(|req| req.components = contains(["clippy"])));
    assert!(has_invalid(&output, "toolchain.components"), "path plus components must be invalid");
}

#[test]
fn merge_rejects_path_with_targets_requirement() {
    let output = reconcile_none(req_path_with(|req| req.targets = contains(["wasm32-unknown-unknown"])));
    assert!(has_invalid(&output, "toolchain.targets"), "path plus targets must be invalid");
}

#[test]
fn reconcile_refuses_malformed_toml() {
    let output = reconcile("[toolchain", baseline_req());
    assert!(output.expected_bytes.is_empty() && output.findings.iter().any(|f| matches!(f, Finding::ParseError { .. })));
}

#[test]
fn reconcile_refuses_path_with_channel() {
    let output = reconcile("[toolchain]\npath = \"/opt/rust\"\nchannel = \"stable\"\n", baseline_req());
    assert!(has_unwritable(&output, "toolchain.path") || has_mismatch(&output, "toolchain.path"));
}

#[test]
fn reconcile_refuses_path_with_profile() {
    let output = reconcile("[toolchain]\npath = \"/opt/rust\"\nprofile = \"minimal\"\n", baseline_req());
    assert!(has_unwritable(&output, "toolchain.path"));
}

#[test]
fn reconcile_refuses_path_with_components() {
    let output = reconcile("[toolchain]\npath = \"/opt/rust\"\ncomponents = [\"clippy\"]\n", baseline_req());
    assert!(has_unwritable(&output, "toolchain.path"));
}

#[test]
fn reconcile_refuses_path_with_targets() {
    let output = reconcile("[toolchain]\npath = \"/opt/rust\"\ntargets = [\"wasm32-unknown-unknown\"]\n", baseline_req());
    assert!(has_unwritable(&output, "toolchain.path"));
}

#[test]
fn reconcile_refuses_path_instead_of_channel_policy() {
    let output = reconcile("[toolchain]\npath = \"/opt/rust\"\n", baseline_req());
    assert!(has_unwritable(&output, "toolchain.path"));
}

#[test]
fn reconcile_repairs_missing_channel_profile_components() {
    let output = reconcile("[toolchain]\n", baseline_req());
    let expected = text(&output);
    assert!(
        expected.contains("channel = \"stable\"")
            && expected.contains("profile = \"minimal\"")
            && expected.contains("components = [\"clippy\", \"rustfmt\"]"),
        "channel, profile, and components must be written: {expected}"
    );
}

#[test]
fn reconcile_canonicalizes_components_and_targets() {
    let output = reconcile(
        "[toolchain]\ncomponents = [\"rustfmt\", \"clippy\"]\ntargets = [\"wasm32-unknown-unknown\"]\n",
        RustToolchainTomlRequirements {
            components: contains(["clippy", "rustfmt"]),
            targets: contains(["wasm32-unknown-unknown"]),
            ..RustToolchainTomlRequirements::default()
        },
    );
    let expected = text(&output);
    assert!(
        expected.contains("components = [\"clippy\", \"rustfmt\"]") && expected.contains("targets = [\"wasm32-unknown-unknown\"]"),
        "components and targets must be canonical: {expected}"
    );
}

#[test]
fn reconcile_missing_file() {
    let output = reconcile_none(req_channel("stable"));
    assert!(text(&output).contains("[toolchain]"), "missing file should be initialized");
    assert_eq!(output.findings.len(), 2, "missing table and channel report");
}

#[test]
fn writes_deterministic_file() {
    let output = reconcile_none(RustToolchainTomlRequirements {
        components: contains(["rustfmt", "clippy"]),
        ..RustToolchainTomlRequirements::default()
    });
    assert!(text(&output).contains("components = [\"clippy\", \"rustfmt\"]"), "components should be sorted deterministically");
}

#[test]
fn missing_toolchain_table() {
    let output = reconcile("", req_channel("stable"));
    assert!(has_mismatch(&output, "toolchain"), "missing [toolchain] should report");
}

#[test]
fn wrong_channel() {
    let output = reconcile("[toolchain]\nchannel = \"nightly\"\n", req_channel("stable"));
    assert!(has_mismatch(&output, "toolchain.channel"), "wrong channel should report");
    assert!(text(&output).contains("channel = \"stable\""));
}

#[test]
fn missing_component() {
    let output = reconcile(
        "[toolchain]\nchannel = \"stable\"\ncomponents = [\"clippy\"]\n",
        RustToolchainTomlRequirements { components: contains(["clippy", "rustfmt"]), ..RustToolchainTomlRequirements::default() },
    );
    assert!(has_mismatch(&output, "toolchain.components.rustfmt"), "missing component should report");
}

#[test]
fn invalid_profile() {
    let output = reconcile(
        "[toolchain]\nprofile = \"huge\"\n",
        RustToolchainTomlRequirements {
            profile: Some(ScalarAssertion::Equals(RustToolchainProfile::Minimal, "profile".to_owned())),
            ..RustToolchainTomlRequirements::default()
        },
    );
    assert!(has_mismatch(&output, "toolchain.profile"), "invalid profile should report");
    assert!(has_unwritable(&output, "toolchain.profile"), "the file's profile is not a rustup profile");
}

#[test]
fn empty_toolchain_table() {
    let output = reconcile("[toolchain]\n", RustToolchainTomlRequirements::default());
    assert!(has_mismatch(&output, "toolchain"), "empty [toolchain] should report");
}

#[test]
fn closed_settings() {
    let mut req = req_channel("stable");
    req.closed_settings = Some("closed".to_owned());
    let output = reconcile("[toolchain]\nchannel = \"stable\"\nextra = true\n", req);
    assert!(has_mismatch(&output, "toolchain.extra"), "closed settings should report unknown fields");
    assert!(!text(&output).contains("extra"));
}

#[test]
fn unknown_setting_allowed_when_open() {
    let output = reconcile("[toolchain]\nchannel = \"stable\"\nextra = true\n", req_channel("stable"));
    assert!(output.findings.is_empty(), "open settings should allow unknown fields");
}

#[test]
fn satisfied_requirements_reach_a_fixed_point() {
    let first = reconcile_none(baseline_req());
    let second = reconcile_bytes(Some(&first.expected_bytes), baseline_req());
    assert!(second.findings.is_empty(), "a reconciled file must satisfy its requirements: {:?}", second.findings);
    assert_eq!(second.expected_bytes, first.expected_bytes);
}

#[test]
fn duplicate_component_in_file_is_unwritable() {
    let output = reconcile("[toolchain]\nchannel = \"stable\"\ncomponents = [\"clippy\", \"clippy\"]\n", req_channel("stable"));
    assert!(output.findings.iter().any(|f| matches!(f, Finding::UnwritableRequiredKey { key, expected, .. }
        if key == "toolchain.components" && expected == "array of unique non-empty strings")));
}

#[test]
fn exclusion_only_toolchain_lists_leave_an_absent_table_absent() {
    let requirements = vec![
        RustToolchainTomlRequirements {
            components: ListRequirements {
                excludes: vec![("rustfmt".to_owned(), "exclude rustfmt".to_owned())],
                ..ListRequirements::default()
            },
            ..RustToolchainTomlRequirements::default()
        },
        RustToolchainTomlRequirements {
            targets: ListRequirements {
                excludes: vec![("wasm32-unknown-unknown".to_owned(), "exclude target".to_owned())],
                ..ListRequirements::default()
            },
            ..RustToolchainTomlRequirements::default()
        },
    ];
    for requirement in requirements {
        let resolved = match RustToolchainTomlRequirements::merge(vec![(prov("policy"), requirement)]) {
            Ok(r) => r,
            Err(conflicts) => panic!("exclusion-only lists must resolve: {conflicts:?}"),
        };
        let output = RustToolchainTomlEngine::reconcile(Some(b""), &resolved);
        assert!(output.findings.is_empty());
        assert!(output.expected_bytes.is_empty());
    }
}

fn nonconstructive_path_requirement() -> RustToolchainTomlRequirements {
    req_path_with(|requirement| {
        requirement.channel = Some(ScalarAssertion::Absent("no channel".to_owned()));
        requirement.profile = Some(ScalarAssertion::Absent("no profile".to_owned()));
        requirement.components = ListRequirements {
            excludes: vec![("rustfmt".to_owned(), "exclude rustfmt".to_owned())],
            ..ListRequirements::default()
        };
        requirement.targets = ListRequirements {
            excludes: vec![("wasm32-unknown-unknown".to_owned(), "exclude target".to_owned())],
            ..ListRequirements::default()
        };
    })
}

#[test]
fn path_is_compatible_with_nonconstructive_channel_requirements() {
    let output = reconcile(
        "[toolchain]\npath = \"/opt/rust\"\nchannel = \"stable\"\nprofile = \"default\"\ncomponents = [\"rustfmt\", \"other\"]\ntargets = [\"wasm32-unknown-unknown\", \"other-target\"]\n",
        nonconstructive_path_requirement(),
    );
    let rendered = String::from_utf8(output.expected_bytes.clone()).expect("engine output should remain UTF-8 TOML");
    assert!(rendered.contains("path = \"/opt/rust\""));
    assert!(!rendered.contains("channel ="));
    assert!(!rendered.contains("profile ="));
    assert!(!rendered.contains("rustfmt"));
    assert!(!rendered.contains("wasm32-unknown-unknown"));
    assert!(rendered.contains("other"));
    let fixed = reconcile_bytes(Some(&output.expected_bytes), nonconstructive_path_requirement());
    assert!(fixed.findings.is_empty());
    assert_eq!(fixed.expected_bytes, output.expected_bytes);
}

#[test]
fn requirement_reports_rust_toolchain_engine_id() {
    let req = RustToolchainTomlRequirements::default();
    assert_eq!(req.engine_id(), ENGINE_ID, "engine id must route to rust-toolchain.toml");
}

#[test]
fn relative_path() {
    let output = reconcile("[toolchain]\npath = \"relative\"\n", RustToolchainTomlRequirements::default());
    assert!(
        output.findings.iter().any(|f| matches!(f, Finding::Mismatch { key, expected, .. } if key == "toolchain.path" && expected == "absolute path")
            || matches!(f, Finding::UnwritableRequiredKey { key, expected, .. } if key == "toolchain.path" && expected == "absolute path")),
        "relative path should report"
    );
}

#[test]
fn relative_path_requirement_is_not_written() {
    let refused = RustToolchainPath::new("relative");
    assert!(matches!(refused, Err(aqc_toml_engines::toolchain_values::RustToolchainValueError::RelativePath { ref value }) if value == "relative"));
    let output = reconcile_none(RustToolchainTomlRequirements::default());
    assert!(!text(&output).contains("path = \"relative\""), "relative path requirement must not be written");
}

#[test]
fn path_absent_requirement_allows_channel() {
    let mut req = req_channel("stable");
    req.path = Some(ScalarAssertion::Absent("path must not be used".to_owned()));
    let output = reconcile("[toolchain]\npath = \"/opt/rust\"\n", req);
    let expected = text(&output);
    assert!(
        !output.findings.iter().any(|f| matches!(f, Finding::InvalidRequirements { .. })),
        "requiring path absent is compatible with channel"
    );
    assert!(expected.contains("channel = \"stable\"") && !expected.contains("path"), "path should be removed and channel should be written");
}

#[test]
fn exact_lists_are_unordered_at_merge() {
    let list = |values: [&str; 2]| RustToolchainTomlRequirements {
        components: ListRequirements {
            exact: Some((values.iter().map(|v| (*v).to_owned()).collect(), "exact".to_owned())),
            ..ListRequirements::default()
        },
        ..RustToolchainTomlRequirements::default()
    };
    let resolved = match RustToolchainTomlRequirements::merge(vec![
        (prov("left"), list(["rustfmt", "clippy"])),
        (prov("right"), list(["clippy", "rustfmt"])),
    ]) {
        Ok(r) => r,
        Err(conflicts) => panic!("same component set in different order must merge cleanly: {conflicts:?}"),
    };
    let exact = resolved.components.exact.as_ref().expect("exact components should resolve");
    assert_eq!(exact.merged, ["clippy".to_owned(), "rustfmt".to_owned()], "exact components should be deterministic");
}
