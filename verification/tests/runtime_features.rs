//! Sorting features by what they mean at run time.
use cargo_sonic::feature_mask::{Feature, FeatureMask};
use cargo_sonic::runtime_features::{classify_runtime_features, feature_mask, filter_runtime_features, is_ignored_rustc_feature, is_safety_required_feature, safety_required_features};

#[test]
fn filters_non_runtime_features() {
    assert_eq!(
        filter_runtime_features(&[
            "crt-static".into(),
            "ermsb".into(),
            "lahfsahf".into(),
            "prfchw".into(),
            "x87".into(),
            "avx2".into(),
        ]),
        vec!["avx2"]
    );
}

#[test]
fn skylake_style_features_with_baseline_non_runtime_features_are_supported() {
    let features = filter_runtime_features(&[
        "x87".into(),
        "ermsb".into(),
        "lahfsahf".into(),
        "prfchw".into(),
        "fxsr".into(),
        "sse".into(),
        "sse2".into(),
        "sse3".into(),
        "ssse3".into(),
        "sse4.1".into(),
        "sse4.2".into(),
        "avx".into(),
        "avx2".into(),
    ]);
    assert!(!features.iter().any(|feature| feature == "x87"));
    assert!(!features.iter().any(|feature| feature == "ermsb"));
    assert!(!features.iter().any(|feature| feature == "lahfsahf"));
    assert!(!features.iter().any(|feature| feature == "prfchw"));
}

#[test]
fn generic_required_mask_is_empty_but_rank_mask_is_recorded() {
    let rank = feature_mask(&["avx2".into()]).unwrap();
    assert_eq!(FeatureMask::empty().count(), 0);
    assert_eq!(rank.count(), 1);
}

#[test]
fn non_codegen_features_are_rank_only_not_safety_required() {
    let required = safety_required_features(&[
        "avx2".into(),
        "pmuv3".into(),
        "rdseed".into(),
        "rdrand".into(),
        "spe".into(),
        "ssbs".into(),
    ]);
    assert_eq!(required, vec!["avx2"]);
}

#[test]
fn unknown_runtime_features_are_reported_for_variant_skipping() {
    let features = classify_runtime_features(&["avx2".into(), "not-real".into()]);
    assert_eq!(features.known, vec!["avx2"]);
    assert_eq!(features.unknown, vec!["not-real"]);
}

#[test]
fn is_ignored_rustc_feature_matches_documented_set() {
    for ignored in ["crt-static", "ermsb", "lahfsahf", "prfchw", "x87"] {
        assert!(
            is_ignored_rustc_feature(ignored),
            "should ignore `{ignored}`"
        );
    }
    for kept in ["avx2", "sse2", "neon", "sve"] {
        assert!(
            !is_ignored_rustc_feature(kept),
            "should not ignore `{kept}`"
        );
    }
}

#[test]
fn is_safety_required_feature_excludes_runtime_only_features() {
    // Documented set of rank-only / non-codegen-safety features.
    for non_safety in [
        "bti", "dit", "lor", "mte", "paca", "pacg", "pan", "pmuv3", "rand", "ras", "rdrand",
        "rdseed", "sb", "spe", "ssbs", "vh",
    ] {
        assert!(
            !is_safety_required_feature(non_safety),
            "`{non_safety}` should be rank-only"
        );
    }
    for safety in ["avx2", "sse2", "neon", "sve", "sve2"] {
        assert!(
            is_safety_required_feature(safety),
            "`{safety}` must require codegen safety"
        );
    }
}

#[test]
fn feature_mask_errors_on_unknown_feature() {
    let err = feature_mask(&["totally-not-real".into()]).unwrap_err();
    assert!(err.message().contains("unsupported runtime feature"));
    assert!(err.message().contains("totally-not-real"));
}

#[test]
fn feature_mask_accumulates_known_features() {
    let mask = feature_mask(&["sse2".into(), "avx2".into()]).unwrap();
    assert!(mask.contains(Feature::Sse2));
    assert!(mask.contains(Feature::Avx2));
    assert!(!mask.contains(Feature::Avx512F));
}

#[test]
fn safety_required_features_drops_rank_only_entries() {
    let got = safety_required_features(&[
        "avx2".into(),
        "rdrand".into(),
        "rdseed".into(),
        "sse2".into(),
        "pmuv3".into(),
    ]);
    assert_eq!(got, vec!["avx2".to_string(), "sse2".to_string()]);
}

#[test]
fn classify_runtime_features_handles_only_unknown() {
    let set = classify_runtime_features(&["totally-bogus".into()]);
    assert!(set.known.is_empty());
    assert_eq!(set.unknown, vec!["totally-bogus"]);
}

#[test]
fn classify_runtime_features_drops_ignored_before_classification() {
    let set = classify_runtime_features(&[
        "crt-static".into(),
        "ermsb".into(),
        "lahfsahf".into(),
        "prfchw".into(),
        "x87".into(),
    ]);
    assert!(set.known.is_empty());
    assert!(set.unknown.is_empty());
}
