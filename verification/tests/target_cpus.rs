//! Choosing target CPUs.
use cargo_sonic::target_cpus::{baseline_target_cpu, effective_target_cpus, filter_target_cpus, normalize_target_cpus};

fn strings(values: &[&str]) -> Vec<String> {
    values.iter().map(|value| (*value).to_string()).collect()
}

#[test]
fn native_target_cpu_is_rejected() {
    assert!(normalize_target_cpus(vec!["native".into()], "x86_64").is_err());
}

#[test]
fn x86_64_baseline_is_implicit_in_config() {
    assert_eq!(
        normalize_target_cpus(vec!["haswell".into()], "x86_64").unwrap(),
        vec!["x86-64", "haswell"]
    );
}

#[test]
fn aarch64_generic_is_implicit_in_config() {
    assert_eq!(
        normalize_target_cpus(vec!["neoverse-v1".into()], "aarch64").unwrap(),
        vec!["generic", "neoverse-v1"]
    );
}

#[test]
fn explicit_baseline_target_cpu_is_rejected() {
    let err = normalize_target_cpus(vec!["x86-64".into()], "x86_64").unwrap_err();
    assert!(
        err.message().contains("x86-64"),
        "unexpected error: {err:?}"
    );

    let err = normalize_target_cpus(vec!["generic".into()], "aarch64").unwrap_err();
    assert!(
        err.message().contains("generic"),
        "unexpected error: {err:?}"
    );
}

#[test]
fn unknown_target_cpu_is_error() {
    let current = strings(&["generic", "znver5"]);
    let union = current.clone();
    assert!(
        filter_target_cpus(&["generic".into(), "zenver5".into()], &current, &union).is_err()
    );
}

#[test]
fn x86_64_v1_spelling_is_not_accepted() {
    let current = strings(&["x86-64", "x86-64-v2"]);
    let union = current.clone();

    let got =
        filter_target_cpus(&["x86-64".into(), "x86-64-v2".into()], &current, &union).unwrap();
    assert_eq!(got, vec!["x86-64", "x86-64-v2"]);

    let err = filter_target_cpus(&["x86-64".into(), "x86-64-v1".into()], &current, &union)
        .unwrap_err();
    assert!(
        err.message().contains("x86-64-v1"),
        "unexpected error: {err:?}"
    );
}

#[test]
fn cross_arch_target_cpu_is_skipped_not_error() {
    let current = strings(&["generic", "znver5"]);
    let union = strings(&["generic", "znver5", "neoverse-v1"]);
    let got = filter_target_cpus(
        &["generic".into(), "znver5".into(), "neoverse-v1".into()],
        &current,
        &union,
    )
    .unwrap();
    assert_eq!(got, vec!["generic", "znver5"]);
}

#[test]
fn duplicate_target_cpus_are_deduplicated() {
    let current = strings(&["generic", "arrowlake-s"]);
    let union = current.clone();
    let got = filter_target_cpus(
        &["generic".into(), "arrowlake-s".into(), "arrowlake-s".into()],
        &current,
        &union,
    )
    .unwrap();
    assert_eq!(got, vec!["generic", "arrowlake-s"]);
}

#[test]
fn effective_target_cpus_rejects_empty_input() {
    let err = effective_target_cpus(Vec::new()).unwrap_err();
    assert!(err.message().contains("--target-cpus"));
}

#[test]
fn effective_target_cpus_passes_through_non_empty() {
    let cpus = strings(&["haswell", "znver5"]);
    assert_eq!(effective_target_cpus(cpus.clone()).unwrap(), cpus);
}

#[test]
fn baseline_target_cpu_chooses_arch_specific_baseline() {
    assert_eq!(baseline_target_cpu("x86_64"), "x86-64");
    assert_eq!(baseline_target_cpu("aarch64"), "generic");
    assert_eq!(baseline_target_cpu(""), "generic");
    assert_eq!(baseline_target_cpu("riscv"), "generic");
}

#[test]
fn filter_target_cpus_rejects_native_cpu() {
    let current = strings(&["generic"]);
    let union = current.clone();
    let err = filter_target_cpus(&["native".into()], &current, &union).unwrap_err();
    assert!(err.message().contains("native"));
}

#[test]
fn filter_target_cpus_accepts_generic_even_if_not_in_current() {
    let current = Vec::<String>::new();
    let union = Vec::<String>::new();
    let got = filter_target_cpus(&["generic".into()], &current, &union).unwrap();
    assert_eq!(got, vec!["generic"]);
}
