//! Reading what rustc prints.
use cargo_sonic::rustc_output::{cfg_value, parse_rustc_target_cpus, parse_target_features_from_rustc_cfg};

#[test]
fn parse_target_features_from_rustc_cfg_test() {
    let got = parse_target_features_from_rustc_cfg(
        "target_feature=\"sse2\"\ntarget_feature=\"avx2\"\n",
    );
    assert_eq!(got, vec!["avx2", "sse2"]);
}

#[test]
fn linux_only_target_is_enforced() {
    assert_eq!(
        cfg_value("target_os=\"linux\"\ntarget_arch=\"x86_64\"", "target_os").as_deref(),
        Some("linux")
    );
}

#[test]
fn cfg_value_returns_none_for_missing_or_malformed_keys() {
    let cfg = "target_os=\"linux\"\ntarget_arch=\"x86_64\"\n";
    assert_eq!(cfg_value(cfg, "missing").as_deref(), None);
    assert_eq!(
        cfg_value("target_os=\"linux\nstray", "target_os").as_deref(),
        None,
        "missing closing quote should not match"
    );
    assert_eq!(cfg_value("", "target_os").as_deref(), None);
}

#[test]
fn parse_target_features_from_rustc_cfg_dedups_and_ignores_unrelated_lines() {
    let cfg = "target_os=\"linux\"\n\
               target_feature=\"sse2\"\n\
               target_feature=\"sse2\"\n\
               target_feature=\"avx\"\n\
               not_a_feature=\"avx512f\"\n";
    let got = parse_target_features_from_rustc_cfg(cfg);
    assert_eq!(got, vec!["avx", "sse2"]);
}

#[test]
fn parse_rustc_target_cpus_skips_header_and_blanks() {
    let text = "\
Available CPUs for this target:
    generic
    znver5
    haswell - description

";
    let got = parse_rustc_target_cpus(text);
    assert!(got.iter().any(|cpu| cpu == "generic"));
    assert!(got.iter().any(|cpu| cpu == "znver5"));
    assert!(got.iter().any(|cpu| cpu == "haswell"));
    assert!(!got.iter().any(|cpu| cpu.contains("Available")));
}

#[test]
fn parse_rustc_target_cpus_always_includes_generic() {
    let got = parse_rustc_target_cpus("");
    assert!(got.iter().any(|cpu| cpu == "generic"));
}

#[test]
fn cfg_value_strips_quoted_values() {
    let cfg = "target_endian=\"little\"\ntarget_pointer_width=\"64\"\n";
    assert_eq!(cfg_value(cfg, "target_endian").as_deref(), Some("little"));
    assert_eq!(
        cfg_value(cfg, "target_pointer_width").as_deref(),
        Some("64")
    );
}
