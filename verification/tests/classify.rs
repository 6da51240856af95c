//! Classifying target CPUs and comparing their features.
use cargo_sonic::classify::{CpuFeatures, analyze_warnings, classify_target_cpu, score_target_kind_matches_host, target_feature_tier};
use cargo_sonic::feature_mask::FeatureMask;
use cargo_sonic::select::{CpuIdentity, HostInfo, TargetArch, TargetKind, X86Vendor};

fn strings(values: &[&str]) -> Vec<String> {
    values.iter().map(|value| (*value).to_string()).collect()
}

fn table(entries: &[(&str, &[&str])]) -> Vec<CpuFeatures> {
    entries
        .iter()
        .map(|(cpu, features)| CpuFeatures {
            cpu: cpu.to_string(),
            features: strings(features),
        })
        .collect()
}

#[test]
fn configured_collision_emits_warning() {
    let warnings = analyze_warnings(
        &table(&[
            ("a", &["avx2"]),
            ("b", &["avx2"]),
        ]),
        "x86_64",
    );
    assert!(warnings.iter().any(|w| w.contains("identical")));
}

#[test]
fn configured_incomparable_overlap_emits_warning() {
    let warnings = analyze_warnings(
        &table(&[
            ("haswell", &["avx2"]),
            ("znver5", &["avx2", "avx512f"]),
        ]),
        "x86_64",
    );
    assert!(warnings.iter().any(|w| w.contains("neutral")));
}

#[test]
fn classifies_modern_x86_target_cpus_for_selector_affinity() {
    assert_eq!(
        classify_target_cpu("sierraforest", "x86_64", "x86-64"),
        TargetKind::X86IntelAtom
    );
    assert_eq!(
        classify_target_cpu("clearwaterforest", "x86_64", "x86-64"),
        TargetKind::X86IntelAtom
    );
    assert_eq!(
        classify_target_cpu("grandridge", "x86_64", "x86-64"),
        TargetKind::X86IntelAtom
    );
    assert_eq!(
        classify_target_cpu("sapphirerapids", "x86_64", "x86-64"),
        TargetKind::X86IntelXeon
    );
    assert_eq!(
        classify_target_cpu("graniterapids-d", "x86_64", "x86-64"),
        TargetKind::X86IntelXeon
    );
    assert_eq!(
        classify_target_cpu("arrowlake", "x86_64", "x86-64"),
        TargetKind::X86IntelCore
    );
    assert_eq!(
        classify_target_cpu("core_5th_gen_avx", "x86_64", "x86-64"),
        TargetKind::X86IntelCore
    );
    assert_eq!(
        classify_target_cpu("slm", "x86_64", "x86-64"),
        TargetKind::X86IntelAtom
    );
    assert_eq!(
        classify_target_cpu("knl", "x86_64", "x86-64"),
        TargetKind::X86IntelXeon
    );
    assert_eq!(
        classify_target_cpu("znver5", "x86_64", "x86-64"),
        TargetKind::X86AmdZen { generation: 5 }
    );
    assert_eq!(
        classify_target_cpu("x86-64", "x86_64", "x86-64"),
        TargetKind::Generic
    );
}

#[test]
fn score_filters_cross_vendor_x86_targets() {
    let amd = HostInfo {
        arch: TargetArch::X86_64,
        features: FeatureMask::empty(),
        identity: CpuIdentity::X86 {
            vendor: X86Vendor::Amd,
            family: 26,
            model: 1,
            stepping: 0,
        },
        heterogeneous: false,
    };
    assert!(score_target_kind_matches_host(
        amd,
        TargetKind::X86AmdZen { generation: 5 }
    ));
    assert!(score_target_kind_matches_host(
        amd,
        TargetKind::X86NeutralLevel { level: 4 }
    ));
    assert!(score_target_kind_matches_host(
        amd,
        classify_target_cpu("x86-64-v4", "x86_64", "x86-64")
    ));
    assert!(!score_target_kind_matches_host(
        amd,
        TargetKind::X86IntelCore
    ));
    assert!(!score_target_kind_matches_host(
        amd,
        classify_target_cpu("tigerlake", "x86_64", "x86-64")
    ));
    assert!(!score_target_kind_matches_host(
        amd,
        classify_target_cpu("knl", "x86_64", "x86-64")
    ));
}

#[test]
fn x86_tiers_rank_target_kind_not_neutral_version() {
    assert_eq!(
        target_feature_tier("x86_64", TargetKind::X86NeutralLevel { level: 1 }),
        1
    );
    assert_eq!(
        target_feature_tier("x86_64", TargetKind::X86NeutralLevel { level: 4 }),
        1
    );
    assert_eq!(target_feature_tier("x86_64", TargetKind::X86IntelCore), 2);
}

#[test]
fn aarch64_tiers_rank_target_kind_not_feature_generation() {
    assert_eq!(target_feature_tier("aarch64", TargetKind::Generic), 0);
    assert_eq!(
        target_feature_tier("aarch64", TargetKind::Aarch64ArmCortexA),
        2
    );
    assert_eq!(
        target_feature_tier("aarch64", TargetKind::Aarch64ArmNeoverseN),
        2
    );
    assert_eq!(target_feature_tier("aarch64", TargetKind::Aarch64Apple), 2);
}

#[test]
fn classifies_modern_aarch64_target_cpus_for_selector_affinity() {
    assert_eq!(
        classify_target_cpu("cortex-a725", "aarch64", "generic"),
        TargetKind::Aarch64ArmCortexA
    );
    assert_eq!(
        classify_target_cpu("neoverse-n3", "aarch64", "generic"),
        TargetKind::Aarch64ArmNeoverseN
    );
    assert_eq!(
        classify_target_cpu("neoverse-v3ae", "aarch64", "generic"),
        TargetKind::Aarch64ArmNeoverseV
    );
    assert_eq!(
        classify_target_cpu("a64fx", "aarch64", "generic"),
        TargetKind::Aarch64Other
    );
    assert_eq!(
        classify_target_cpu("generic", "aarch64", "generic"),
        TargetKind::Generic
    );
}

#[test]
fn score_target_kind_matches_host_intel() {
    let intel = HostInfo {
        arch: TargetArch::X86_64,
        features: FeatureMask::empty(),
        identity: CpuIdentity::X86 {
            vendor: X86Vendor::Intel,
            family: 6,
            model: 0xb7,
            stepping: 0,
        },
        heterogeneous: false,
    };
    assert!(score_target_kind_matches_host(
        intel,
        TargetKind::X86IntelCore
    ));
    assert!(score_target_kind_matches_host(
        intel,
        TargetKind::X86IntelXeon
    ));
    assert!(score_target_kind_matches_host(
        intel,
        TargetKind::X86IntelAtom
    ));
    assert!(!score_target_kind_matches_host(
        intel,
        TargetKind::X86AmdZen { generation: 5 }
    ));
    assert!(!score_target_kind_matches_host(
        intel,
        TargetKind::X86AmdOther
    ));
    assert!(score_target_kind_matches_host(intel, TargetKind::Generic));
    assert!(score_target_kind_matches_host(
        intel,
        TargetKind::X86NeutralLevel { level: 3 }
    ));
}

#[test]
fn score_target_kind_matches_host_other_x86_vendor() {
    let other = HostInfo {
        arch: TargetArch::X86_64,
        features: FeatureMask::empty(),
        identity: CpuIdentity::X86 {
            vendor: X86Vendor::Other,
            family: 6,
            model: 1,
            stepping: 0,
        },
        heterogeneous: false,
    };
    // Other vendor: only generic / neutral pass, identity-specific fails.
    assert!(score_target_kind_matches_host(other, TargetKind::Generic));
    assert!(score_target_kind_matches_host(
        other,
        TargetKind::X86NeutralLevel { level: 2 }
    ));
    assert!(!score_target_kind_matches_host(
        other,
        TargetKind::X86IntelCore
    ));
    assert!(!score_target_kind_matches_host(
        other,
        TargetKind::X86AmdOther
    ));
}

#[test]
fn score_target_kind_matches_host_unknown_passes_anything() {
    let unknown = HostInfo {
        arch: TargetArch::X86_64,
        features: FeatureMask::empty(),
        identity: CpuIdentity::Unknown,
        heterogeneous: false,
    };
    assert!(score_target_kind_matches_host(
        unknown,
        TargetKind::X86IntelCore
    ));
    assert!(score_target_kind_matches_host(
        unknown,
        TargetKind::Aarch64ArmCortexA
    ));
}

#[test]
fn score_target_kind_matches_host_aarch64_arm() {
    let arm = HostInfo {
        arch: TargetArch::Aarch64,
        features: FeatureMask::empty(),
        identity: CpuIdentity::Aarch64 {
            implementer: 0x41,
            part: 0xd4f,
            variant: 0,
            revision: 0,
        },
        heterogeneous: false,
    };
    for kind in [
        TargetKind::Aarch64ArmCortexA,
        TargetKind::Aarch64ArmCortexX,
        TargetKind::Aarch64ArmNeoverseE,
        TargetKind::Aarch64ArmNeoverseN,
        TargetKind::Aarch64ArmNeoverseV,
    ] {
        assert!(score_target_kind_matches_host(arm, kind));
    }
    assert!(!score_target_kind_matches_host(
        arm,
        TargetKind::Aarch64Ampere
    ));
    assert!(!score_target_kind_matches_host(
        arm,
        TargetKind::Aarch64Apple
    ));
    assert!(!score_target_kind_matches_host(
        arm,
        TargetKind::Aarch64Other
    ));
}

#[test]
fn score_target_kind_matches_host_aarch64_ampere() {
    let ampere = HostInfo {
        arch: TargetArch::Aarch64,
        features: FeatureMask::empty(),
        identity: CpuIdentity::Aarch64 {
            implementer: 0xc0,
            part: 0xac4,
            variant: 0,
            revision: 0,
        },
        heterogeneous: false,
    };
    assert!(score_target_kind_matches_host(
        ampere,
        TargetKind::Aarch64Ampere
    ));
    assert!(!score_target_kind_matches_host(
        ampere,
        TargetKind::Aarch64ArmCortexA
    ));
    assert!(!score_target_kind_matches_host(
        ampere,
        TargetKind::Aarch64ArmNeoverseN
    ));
}

#[test]
fn score_target_kind_matches_host_aarch64_other_implementer() {
    let other = HostInfo {
        arch: TargetArch::Aarch64,
        features: FeatureMask::empty(),
        identity: CpuIdentity::Aarch64 {
            implementer: 0x46, // Fujitsu — not 0x41 or 0xc0
            part: 0x001,
            variant: 0,
            revision: 0,
        },
        heterogeneous: false,
    };
    assert!(score_target_kind_matches_host(other, TargetKind::Generic));
    // Identity-specific kinds all fall through to false.
    assert!(!score_target_kind_matches_host(
        other,
        TargetKind::Aarch64ArmCortexA
    ));
    assert!(!score_target_kind_matches_host(
        other,
        TargetKind::Aarch64Ampere
    ));
    assert!(!score_target_kind_matches_host(
        other,
        TargetKind::Aarch64Other
    ));
}

#[test]
fn target_feature_tier_distinguishes_arches_and_target_kinds() {
    // Generic always tier 0, regardless of arch.
    assert_eq!(target_feature_tier("x86_64", TargetKind::Generic), 0);
    assert_eq!(target_feature_tier("aarch64", TargetKind::Generic), 0);
    // x86 neutral level → tier 1, x86 specific → tier 2.
    assert_eq!(
        target_feature_tier("x86_64", TargetKind::X86NeutralLevel { level: 3 }),
        1
    );
    assert_eq!(target_feature_tier("x86_64", TargetKind::X86IntelCore), 2);
    assert_eq!(
        target_feature_tier("x86_64", TargetKind::X86AmdZen { generation: 5 }),
        2
    );
    // aarch64 always tier 2 for any non-Generic.
    assert_eq!(
        target_feature_tier("aarch64", TargetKind::Aarch64ArmCortexA),
        2
    );
    assert_eq!(
        target_feature_tier("aarch64", TargetKind::Aarch64ArmNeoverseN),
        2
    );
    // Unknown arch falls through to 0.
    assert_eq!(target_feature_tier("riscv64", TargetKind::X86IntelCore), 0);
}

#[test]
fn classify_target_cpu_aarch64_buckets() {
    assert_eq!(
        classify_target_cpu("cortex-a76", "aarch64", "generic"),
        TargetKind::Aarch64ArmCortexA
    );
    assert_eq!(
        classify_target_cpu("cortex-x1", "aarch64", "generic"),
        TargetKind::Aarch64ArmCortexX
    );
    assert_eq!(
        classify_target_cpu("neoverse-n1", "aarch64", "generic"),
        TargetKind::Aarch64ArmNeoverseN
    );
    assert_eq!(
        classify_target_cpu("neoverse-v3", "aarch64", "generic"),
        TargetKind::Aarch64ArmNeoverseV
    );
    assert_eq!(
        classify_target_cpu("neoverse-512tvb", "aarch64", "generic"),
        TargetKind::Aarch64ArmNeoverseV
    );
    assert_eq!(
        classify_target_cpu("neoverse-e1", "aarch64", "generic"),
        TargetKind::Aarch64ArmNeoverseE
    );
    assert_eq!(
        classify_target_cpu("apple-m1", "aarch64", "generic"),
        TargetKind::Aarch64Apple
    );
    assert_eq!(
        classify_target_cpu("ampere1", "aarch64", "generic"),
        TargetKind::Aarch64Ampere
    );
    assert_eq!(
        classify_target_cpu("a64fx", "aarch64", "generic"),
        TargetKind::Aarch64Other
    );
    assert_eq!(
        classify_target_cpu("generic", "aarch64", "generic"),
        TargetKind::Generic
    );
}

#[test]
fn classify_target_cpu_x86_intel_xeon_special_arms() {
    // Note: arm precedence matters. The function tries the `lake/well/
    // bridge/...` Core arm before the `rapids/skx/...` Xeon arm, so
    // anything that contains `lake` resolves to Core regardless of its
    // suffix. That's documented by these assertions.
    assert_eq!(
        classify_target_cpu("knl", "x86_64", "x86-64"),
        TargetKind::X86IntelXeon
    );
    assert_eq!(
        classify_target_cpu("knm", "x86_64", "x86-64"),
        TargetKind::X86IntelXeon
    );
    assert_eq!(
        classify_target_cpu("mic_avx512", "x86_64", "x86-64"),
        TargetKind::X86IntelXeon
    );
    // Even though `skylake-avx512` would conceptually be a Xeon, the
    // `lake` substring matches the Core arm first.
    assert_eq!(
        classify_target_cpu("skylake-avx512", "x86_64", "x86-64"),
        TargetKind::X86IntelCore
    );
}

#[test]
fn classify_target_cpu_x86_intel_atom_special_arms() {
    for cpu in ["bonnell", "slm", "tremont", "atom_avx", "silvermont"] {
        assert_eq!(
            classify_target_cpu(cpu, "x86_64", "x86-64"),
            TargetKind::X86IntelAtom,
            "{cpu}"
        );
    }
}

#[test]
fn classify_target_cpu_x86_falls_back_to_amd_other_for_unknowns() {
    assert_eq!(
        classify_target_cpu("totally-unknown", "x86_64", "x86-64"),
        TargetKind::X86AmdOther
    );
}

#[test]
fn classify_target_cpu_x86_neutral_levels() {
    for (cpu, lvl) in [
        ("x86-64", 1),
        ("x86-64-v2", 2),
        ("x86-64-v3", 3),
        ("x86-64-v4", 4),
    ] {
        // Only when the cpu is *not* the baseline does the neutral-level
        // arm fire. Use a different baseline so all four levels return
        // X86NeutralLevel.
        assert_eq!(
            classify_target_cpu(cpu, "x86_64", "alt-baseline"),
            TargetKind::X86NeutralLevel { level: lvl },
            "{cpu}"
        );
    }
}

#[test]
fn classify_target_cpu_x86_znver_generation_fallback_zero() {
    // znverFOO → trim_start_matches("znver").parse() == None ⇒ unwrap_or(0).
    assert_eq!(
        classify_target_cpu("znverFOO", "x86_64", "x86-64"),
        TargetKind::X86AmdZen { generation: 0 }
    );
}

#[test]
fn analyze_warnings_no_warnings_for_distinct_feature_sets() {
    let map = table(&[
        ("haswell", &["avx2"]),
        ("znver5", &["avx512f"]),
    ]);
    let warnings = analyze_warnings(&map, "x86_64");
    assert!(
        warnings.iter().all(|w| !w.contains("identical")),
        "{warnings:?}"
    );
}

#[test]
fn analyze_warnings_aarch64_does_not_emit_neutral_warning() {
    // Neutral-fallback warning is x86-only.
    let map = table(&[
        ("cortex-a76", &["fp16"]),
        ("neoverse-v1", &["sve"]),
    ]);
    let warnings = analyze_warnings(&map, "aarch64");
    assert!(
        warnings.iter().all(|w| !w.contains("neutral")),
        "{warnings:?}"
    );
}
