use aqc_toml_engines::deny_items::DenyFeatureBanSpec;
use aqc_toml_engines::deny_text::{DenyDuration, DenyNonEmptyString};

#[test]
fn merge_feature_allow_deny_overlap_is_invalid() {
    let feature = DenyNonEmptyString::new("std").expect("test feature name should construct a deny string");
    let err = DenyFeatureBanSpec::new("serde", vec![feature.clone()], vec![feature])
        .err()
        .expect("overlap must be invalid");
    assert!(err.message().contains("serde"), "error should identify package");
}

#[test]
fn duration_requires_cargo_deny_shape() {
    assert!(DenyDuration::new("90d").is_err(), "non cargo-deny duration shape must be rejected");
    assert!(DenyDuration::new("P90D").is_ok(), "cargo-deny duration shape must be accepted");
}

#[test]
fn reconcile_feature_allow_deny_overlap_is_invalid() {
    let feature = DenyNonEmptyString::new("std").expect("test feature name should construct a deny string");
    let err = DenyFeatureBanSpec::new("serde", vec![feature.clone()], vec![feature])
        .err()
        .expect("overlap should be invalid");
    assert!(err.message().contains("std"), "overlap error should name the feature");
}

fn feature(name: &str) -> DenyNonEmptyString {
    DenyNonEmptyString::new(name).expect("feature name")
}

#[test]
fn feature_ban_overlap_names_the_smallest_shared_feature() {
    let err = DenyFeatureBanSpec::new("serde", vec![feature("std"), feature("alloc"), feature("rc")], vec![feature("rc"), feature("std")])
        .err()
        .expect("overlap must be invalid");
    assert!(err.message().ends_with("feature rc"), "{}", err.message());
}

#[test]
fn feature_ban_keeps_features_as_sorted_sets() {
    let spec = DenyFeatureBanSpec::new("serde", vec![feature("std"), feature("alloc"), feature("std")], vec![feature("rc")])
        .ok()
        .expect("disjoint features");
    let allowed: Vec<&str> = spec.allowed_features().iter().map(|f| f.as_str()).collect();
    assert_eq!(allowed, vec!["alloc", "std"]);
}
