//! Builds that are configured in the manifest.
use cargo_sonic::classify::{CpuFeatures, analyze_warnings};
use cargo_sonic::configured_build::{filter_runtime_features, filter_target_cpus, normalize_target_cpus, safety_required_features, unsupported_runtime_features};
use cargo_sonic::feature_mask::FeatureMask;
use cargo_sonic::runtime_features::feature_mask;
use cargo_sonic::rustc_output::{cfg_value, parse_target_features_from_rustc_cfg};

fn strings(values: &[&str]) -> Vec<String> {
    values.iter().map(|value| (*value).to_string()).collect()
}

fn table(entries: &[(&str, &[&str])]) -> Vec<CpuFeatures> {
    entries
        .iter()
        .map(|(cpu, features)| CpuFeatures {
            cpu: cpu.to_string(),
            features: strings(features),
        })
        .collect()
}

#[test]
fn lib_parse_target_features_from_rustc_cfg_test() {
    let got = parse_target_features_from_rustc_cfg("target_feature=\"sse2\"\ntarget_feature=\"avx2\"\n");
    assert_eq!(got, vec!["avx2", "sse2"]);
}

#[test]
fn filters_crt_static() {
    assert_eq!(filter_runtime_features(&["crt-static".into(), "avx2".into()]), vec!["avx2"]);
}

#[test]
fn lib_generic_required_mask_is_empty_but_rank_mask_is_recorded() {
    let rank = feature_mask(&["avx2".into()]).unwrap();
    assert_eq!(FeatureMask::empty().count(), 0);
    assert_eq!(rank.count(), 1);
}

#[test]
fn rng_features_are_rank_only_not_safety_required() {
    let required = safety_required_features(&["avx2".into(), "rdseed".into(), "rdrand".into()]);
    assert_eq!(required, vec!["avx2"]);
}

#[test]
fn lib_native_target_cpu_is_rejected() {
    assert!(normalize_target_cpus(vec!["native".into()]).is_err());
}

#[test]
fn generic_is_implicit_in_config() {
    assert_eq!(
        normalize_target_cpus(vec!["haswell".into()]).unwrap(),
        vec!["generic", "haswell"]
    );
}

#[test]
fn lib_unknown_target_cpu_is_error() {
    let current = strings(&["generic", "znver5"]);
    let union = current.clone();
    assert!(filter_target_cpus(&["generic".into(), "zenver5".into()], &current, &union).is_err());
}

#[test]
fn lib_cross_arch_target_cpu_is_skipped_not_error() {
    let current = strings(&["generic", "znver5"]);
    let union = strings(&["generic", "znver5", "neoverse-v1"]);
    let got = filter_target_cpus(&["generic".into(), "znver5".into(), "neoverse-v1".into()], &current, &union).unwrap();
    assert_eq!(got, vec!["generic", "znver5"]);
}

#[test]
fn unsupported_runtime_feature_mapping_is_build_error() {
    assert!(unsupported_runtime_features(&["not-real".into()]).is_err());
}

#[test]
fn lib_configured_collision_emits_warning() {
    let warnings = analyze_warnings(&table(&[
        ("a", &["avx2"]),
        ("b", &["avx2"]),
    ]), "x86_64");
    assert!(warnings.iter().any(|w| w.contains("identical")));
}

#[test]
fn lib_configured_incomparable_overlap_emits_warning() {
    let warnings = analyze_warnings(&table(&[
        ("haswell", &["avx2"]),
        ("znver5", &["avx2", "avx512f"]),
    ]), "x86_64");
    assert!(warnings.iter().any(|w| w.contains("neutral")));
}

#[test]
fn lib_linux_only_target_is_enforced() {
    assert_eq!(cfg_value("target_os=\"linux\"\ntarget_arch=\"x86_64\"", "target_os").as_deref(), Some("linux"));
}
