//! The reports of `probe` and `score`.
use cargo_sonic::feature_mask::{ALL_FEATURES, Feature, FeatureMask, feature_name};
use cargo_sonic::report::{ProbeVariant, SkippedProbeVariant, feature_names, format_identity, format_probe_report, format_score_report, format_words, host_arch_name};
use cargo_sonic::select::{CpuIdentity, HostInfo, TargetArch, TargetKind, VariantMeta, X86Vendor};

#[test]
fn probe_report_shows_skipped_unknown_feature_variants() {
    let report = format_probe_report(
        "x86_64-unknown-linux-gnu",
        HostInfo {
            arch: TargetArch::X86_64,
            features: FeatureMask::empty(),
            identity: CpuIdentity::Unknown,
            heterogeneous: false,
        },
        &[ProbeVariant {
            target_cpu: "generic".to_string(),
            required_features: FeatureMask::empty(),
            rank_features: FeatureMask::empty(),
            feature_names: Vec::new(),
            feature_tier: 0,
        }],
        &[SkippedProbeVariant {
            target_cpu: "futurelake".to_string(),
            reason: "unknown runtime feature(s): avx10".to_string(),
        }],
        "generic",
    );

    assert!(report.contains("  skipped:\n"));
    assert!(report.contains("futurelake reason=unknown runtime feature(s): avx10"));
    assert!(report.contains("selected=generic"));
}

#[test]
fn score_report_orders_and_prints_selector_scores() {
    let mut avx512 = FeatureMask::empty();
    avx512.insert(Feature::Avx512F);
    let mut avx2 = FeatureMask::empty();
    avx2.insert(Feature::Avx2);

    let host = HostInfo {
        arch: TargetArch::X86_64,
        features: avx512,
        identity: CpuIdentity::X86 {
            vendor: X86Vendor::Amd,
            family: 26,
            model: 1,
            stepping: 0,
        },
        heterogeneous: false,
    };
    let metas = [
        VariantMeta {
            target_cpu: "x86-64-v4",
            required_features: avx512,
            rank_features: avx512,
            rank_feature_count: avx512.count(),
            feature_tier: 1,
            target_kind: TargetKind::X86NeutralLevel { level: 4 },
        },
        VariantMeta {
            target_cpu: "znver5",
            required_features: avx512,
            rank_features: avx512,
            rank_feature_count: avx512.count(),
            feature_tier: 2,
            target_kind: TargetKind::X86AmdZen { generation: 5 },
        },
        VariantMeta {
            target_cpu: "generic",
            required_features: FeatureMask::empty(),
            rank_features: FeatureMask::empty(),
            rank_feature_count: 0,
            feature_tier: 0,
            target_kind: TargetKind::Generic,
        },
    ];
    let variants = [
        ProbeVariant {
            target_cpu: "x86-64-v4".to_string(),
            required_features: avx512,
            rank_features: avx512,
            feature_names: vec!["avx512f".to_string()],
            feature_tier: 1,
        },
        ProbeVariant {
            target_cpu: "znver5".to_string(),
            required_features: avx512,
            rank_features: avx512,
            feature_names: vec!["avx512f".to_string()],
            feature_tier: 2,
        },
        ProbeVariant {
            target_cpu: "generic".to_string(),
            required_features: FeatureMask::empty(),
            rank_features: avx2,
            feature_names: vec!["avx2".to_string()],
            feature_tier: 0,
        },
    ];

    let report = format_score_report("x86_64-unknown-linux-gnu", host, &metas, &variants, 2);

    assert!(report.contains("cargo-sonic score"));
    assert!(report.contains("selected=znver5"));
    assert!(
        report.contains("rank=1 target_cpu=znver5 exact=2 vendor_affinity=1 feature_score=")
    );
    assert!(report.contains("rank=2 target_cpu=x86-64-v4"));
    assert!(report.contains("skipped=2"));
}

#[test]
fn host_arch_name_covers_both_arches() {
    assert_eq!(host_arch_name(TargetArch::X86_64), "x86_64");
    assert_eq!(host_arch_name(TargetArch::Aarch64), "aarch64");
}

#[test]
fn feature_names_preserves_canonical_order_and_filters() {
    let mut mask = FeatureMask::empty();
    mask.insert(Feature::Avx2);
    mask.insert(Feature::Sse2);
    let names = feature_names(mask);
    assert!(names.contains(&"avx2"));
    assert!(names.contains(&"sse2"));
    assert!(!names.contains(&"avx512f"));
    // Order matches ALL_FEATURES iteration order, not insertion order.
    let positions: Vec<usize> = ALL_FEATURES
        .iter()
        .enumerate()
        .filter_map(|(i, feature)| {
            names
                .contains(&feature_name(*feature))
                .then_some(i)
        })
        .collect();
    let mut sorted = positions.clone();
    sorted.sort();
    assert_eq!(positions, sorted);
}

#[test]
fn feature_names_empty_mask_returns_empty_vec() {
    assert!(feature_names(FeatureMask::empty()).is_empty());
}

#[test]
fn format_words_renders_padded_hex_pair() {
    assert_eq!(
        format_words(FeatureMask::empty()),
        "[0x0000000000000000,0x0000000000000000]"
    );
    let mask = FeatureMask::from_words([0xdead_beef, 0x12_3456]);
    assert_eq!(
        format_words(mask),
        "[0x00000000deadbeef,0x0000000000123456]"
    );
}

#[test]
fn format_identity_renders_each_variant() {
    assert_eq!(format_identity(CpuIdentity::Unknown), "unknown");
    assert_eq!(
        format_identity(CpuIdentity::X86 {
            vendor: X86Vendor::Intel,
            family: 6,
            model: 167,
            stepping: 1,
        }),
        "x86(intel family=6 model=167 stepping=1)"
    );
    assert_eq!(
        format_identity(CpuIdentity::X86 {
            vendor: X86Vendor::Amd,
            family: 25,
            model: 33,
            stepping: 2,
        }),
        "x86(amd family=25 model=33 stepping=2)"
    );
    assert_eq!(
        format_identity(CpuIdentity::X86 {
            vendor: X86Vendor::Other,
            family: 0,
            model: 0,
            stepping: 0,
        }),
        "x86(other family=0 model=0 stepping=0)"
    );
    assert_eq!(
        format_identity(CpuIdentity::Aarch64 {
            implementer: 0x41,
            part: 0xd4f,
            variant: 0,
            revision: 1,
        }),
        "aarch64(implementer=0x41 part=0xd4f variant=0 revision=1)"
    );
}

#[test]
fn probe_report_renders_eligible_only_variants() {
    let report = format_probe_report(
        "x86_64-unknown-linux-gnu",
        HostInfo {
            arch: TargetArch::X86_64,
            features: FeatureMask::empty(),
            identity: CpuIdentity::Unknown,
            heterogeneous: false,
        },
        &[ProbeVariant {
            target_cpu: "generic".to_string(),
            required_features: FeatureMask::empty(),
            rank_features: FeatureMask::empty(),
            feature_names: Vec::new(),
            feature_tier: 0,
        }],
        &[],
        "generic",
    );
    // No skipped section when input is empty.
    assert!(!report.contains("  skipped:"));
    assert!(report.contains("fits=[generic]"));
    assert!(report.contains("eligible=yes"));
    assert!(report.contains("selected=generic"));
}

#[test]
fn probe_report_marks_ineligible_variants_with_missing_features() {
    let mut avx2 = FeatureMask::empty();
    avx2.insert(Feature::Avx2);
    let report = format_probe_report(
        "x86_64-unknown-linux-gnu",
        HostInfo {
            arch: TargetArch::X86_64,
            features: FeatureMask::empty(),
            identity: CpuIdentity::Unknown,
            heterogeneous: false,
        },
        &[ProbeVariant {
            target_cpu: "haswell".to_string(),
            required_features: avx2,
            rank_features: avx2,
            feature_names: vec!["avx2".to_string()],
            feature_tier: 1,
        }],
        &[],
        "generic",
    );
    assert!(report.contains("eligible=no"));
    assert!(report.contains("missing="));
    assert!(report.contains("missing_features=[avx2]"));
    assert!(report.contains("fits=[]"));
}

#[test]
fn print_probe_report_prints_to_stdout_without_panic() {
    let report = format_probe_report(
        "x86_64-unknown-linux-gnu",
        HostInfo {
            arch: TargetArch::X86_64,
            features: FeatureMask::empty(),
            identity: CpuIdentity::Unknown,
            heterogeneous: false,
        },
        &[ProbeVariant {
            target_cpu: "generic".to_string(),
            required_features: FeatureMask::empty(),
            rank_features: FeatureMask::empty(),
            feature_names: Vec::new(),
            feature_tier: 0,
        }],
        &[],
        "generic",
    );
    println!("{report}");
}

#[test]
fn print_score_report_prints_to_stdout_without_panic() {
    let report = format_score_report(
        "x86_64-unknown-linux-gnu",
        HostInfo {
            arch: TargetArch::X86_64,
            features: FeatureMask::empty(),
            identity: CpuIdentity::Unknown,
            heterogeneous: false,
        },
        &[],
        &[],
        0,
    );
    println!("{report}");
}
