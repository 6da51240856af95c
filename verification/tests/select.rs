//! Selecting a variant for a host.
use cargo_sonic::feature_mask::{Feature, FeatureMask};
use cargo_sonic::select::{CpuIdentity, HostInfo, TargetArch, TargetKind, VariantMeta, X86Vendor, select_variant};

fn mask(features: &[Feature]) -> FeatureMask {
    let mut mask = FeatureMask::empty();
    for feature in features {
        mask.insert(*feature);
    }
    mask
}

fn v(name: &'static str, features: &[Feature], tier: u8, kind: TargetKind) -> VariantMeta {
    let mask = mask(features);
    VariantMeta {
        target_cpu: name,
        required_features: mask,
        rank_features: mask,
        rank_feature_count: mask.count(),
        feature_tier: tier,
        target_kind: kind,
    }
}

fn host(features: &[Feature], identity: CpuIdentity) -> HostInfo {
    HostInfo {
        arch: TargetArch::X86_64,
        features: mask(features),
        identity,
        heterogeneous: false,
    }
}

#[test]
fn generic_is_always_eligible() {
    let variants = [v("generic", &[], 0, TargetKind::Generic)];
    assert_eq!(
        select_variant(host(&[], CpuIdentity::Unknown), &variants).target_cpu,
        "generic"
    );
}

#[test]
fn non_generic_requires_feature_subset() {
    let variants = [
        v("generic", &[], 0, TargetKind::Generic),
        v("haswell", &[Feature::Avx2], 3, TargetKind::X86IntelCore),
    ];
    assert_eq!(
        select_variant(host(&[], CpuIdentity::Unknown), &variants).target_cpu,
        "generic"
    );
}

#[test]
fn selects_larger_feature_set_when_no_affinity() {
    let variants = [
        v("generic", &[], 0, TargetKind::Generic),
        v(
            "haswell",
            &[Feature::Avx2, Feature::Fma, Feature::Bmi1],
            3,
            TargetKind::X86IntelCore,
        ),
    ];
    assert_eq!(
        select_variant(
            host(
                &[Feature::Avx2, Feature::Fma, Feature::Bmi1],
                CpuIdentity::Unknown
            ),
            &variants
        )
        .target_cpu,
        "haswell"
    );
}

#[test]
fn exact_affinity_beats_higher_feature_count() {
    let variants = [
        v(
            "diamondrapids",
            &[Feature::Avx512F, Feature::Avx512Bw, Feature::Avx512Dq],
            5,
            TargetKind::X86IntelXeon,
        ),
        v(
            "znver5",
            &[Feature::Avx512F],
            4,
            TargetKind::X86AmdZen { generation: 5 },
        ),
    ];
    let identity = CpuIdentity::X86 {
        vendor: X86Vendor::Amd,
        family: 26,
        model: 1,
        stepping: 0,
    };
    assert_eq!(
        select_variant(
            host(
                &[Feature::Avx512F, Feature::Avx512Bw, Feature::Avx512Dq],
                identity
            ),
            &variants
        )
        .target_cpu,
        "znver5"
    );
}

#[test]
fn neutral_x86_level_beats_vendor_specific_when_identity_unknown() {
    let variants = [
        v(
            "sapphirerapids",
            &[Feature::Avx512F],
            4,
            TargetKind::X86IntelXeon,
        ),
        v(
            "x86-64-v4",
            &[Feature::Avx512F],
            4,
            TargetKind::X86NeutralLevel { level: 4 },
        ),
        v(
            "znver4",
            &[Feature::Avx512F],
            4,
            TargetKind::X86AmdZen { generation: 4 },
        ),
    ];
    assert_eq!(
        select_variant(host(&[Feature::Avx512F], CpuIdentity::Unknown), &variants).target_cpu,
        "x86-64-v4"
    );
}

#[test]
fn same_line_affinity_beats_neutral_when_identity_known() {
    let variants = [
        v(
            "x86-64-v4",
            &[Feature::Avx512F],
            4,
            TargetKind::X86NeutralLevel { level: 4 },
        ),
        v(
            "znver4",
            &[Feature::Avx512F],
            4,
            TargetKind::X86AmdZen { generation: 4 },
        ),
    ];
    let identity = CpuIdentity::X86 {
        vendor: X86Vendor::Amd,
        family: 25,
        model: 0x11,
        stepping: 0,
    };
    assert_eq!(
        select_variant(host(&[Feature::Avx512F], identity), &variants).target_cpu,
        "znver4"
    );
}

#[test]
fn same_feature_collision_uses_exact_affinity() {
    let variants = [
        v(
            "neoverse-512tvb",
            &[Feature::Sve],
            4,
            TargetKind::Aarch64ArmNeoverseV,
        ),
        v(
            "neoverse-v1",
            &[Feature::Sve],
            4,
            TargetKind::Aarch64ArmNeoverseV,
        ),
    ];
    let host = HostInfo {
        arch: TargetArch::Aarch64,
        features: mask(&[Feature::Sve]),
        identity: CpuIdentity::Aarch64 {
            implementer: 0x41,
            part: 0xd40,
            variant: 0,
            revision: 0,
        },
        heterogeneous: false,
    };
    assert_eq!(select_variant(host, &variants).target_cpu, "neoverse-v1");
}

#[test]
fn same_feature_collision_prefers_generic_when_identity_unknown_and_generic_tied() {
    let variants = [
        v("oldalias", &[], 0, TargetKind::X86IntelCore),
        v("generic", &[], 0, TargetKind::Generic),
    ];
    assert_eq!(
        select_variant(host(&[], CpuIdentity::Unknown), &variants).target_cpu,
        "generic"
    );
}

#[test]
fn same_feature_collision_falls_back_to_lexical_order() {
    let variants = [
        v(
            "skylake_avx512",
            &[Feature::Avx512F],
            4,
            TargetKind::X86IntelXeon,
        ),
        v(
            "skylake-avx512",
            &[Feature::Avx512F],
            4,
            TargetKind::X86IntelXeon,
        ),
    ];
    assert_eq!(
        select_variant(host(&[Feature::Avx512F], CpuIdentity::Unknown), &variants).target_cpu,
        "skylake-avx512"
    );
}

#[test]
fn feature_tier_beats_raw_feature_count_when_no_exact_affinity() {
    let variants = [
        v(
            "many-small",
            &[
                Feature::Sse3,
                Feature::Ssse3,
                Feature::Sse4_1,
                Feature::Sse4_2,
            ],
            1,
            TargetKind::X86IntelCore,
        ),
        v(
            "avx2",
            &[Feature::Avx2],
            3,
            TargetKind::X86NeutralLevel { level: 3 },
        ),
    ];
    assert_eq!(
        select_variant(
            host(
                &[
                    Feature::Sse3,
                    Feature::Ssse3,
                    Feature::Sse4_1,
                    Feature::Sse4_2,
                    Feature::Avx2
                ],
                CpuIdentity::Unknown
            ),
            &variants
        )
        .target_cpu,
        "avx2"
    );
}

#[test]
fn heterogeneous_x86_downgrades_core_specific_target() {
    let variants = [
        v("gracemont", &[Feature::Sse4_2], 1, TargetKind::X86IntelAtom),
        v(
            "x86-64-v2",
            &[Feature::Sse4_2],
            1,
            TargetKind::X86NeutralLevel { level: 2 },
        ),
    ];
    let mut h = host(
        &[Feature::Sse4_2],
        CpuIdentity::X86 {
            vendor: X86Vendor::Intel,
            family: 6,
            model: 0,
            stepping: 0,
        },
    );
    h.heterogeneous = true;
    assert_eq!(select_variant(h, &variants).target_cpu, "x86-64-v2");
}

#[test]
fn exact_raptorlake_affinity_selects_raptorlake() {
    let variants = [
        v(
            "x86-64-v3",
            &[Feature::Avx2],
            3,
            TargetKind::X86NeutralLevel { level: 3 },
        ),
        v("raptorlake", &[Feature::Avx2], 3, TargetKind::X86IntelCore),
    ];
    let identity = CpuIdentity::X86 {
        vendor: X86Vendor::Intel,
        family: 6,
        model: 183,
        stepping: 1,
    };
    assert_eq!(
        select_variant(host(&[Feature::Avx2], identity), &variants).target_cpu,
        "raptorlake"
    );
}

#[test]
fn exact_nocona_affinity_selects_nocona_over_k8_sse3() {
    let variants = [
        v("k8-sse3", &[Feature::Sse3], 1, TargetKind::X86AmdOther),
        v("nocona", &[Feature::Sse3], 1, TargetKind::X86IntelCore),
    ];
    let identity = CpuIdentity::X86 {
        vendor: X86Vendor::Intel,
        family: 15,
        model: 6,
        stepping: 1,
    };
    assert_eq!(
        select_variant(host(&[Feature::Sse3], identity), &variants).target_cpu,
        "nocona"
    );
}

#[test]
fn exact_amd_k8_affinity_selects_k8_sse3_over_athlon64_sse3() {
    let variants = [
        v(
            "athlon64-sse3",
            &[Feature::Sse3],
            1,
            TargetKind::X86AmdOther,
        ),
        v("k8-sse3", &[Feature::Sse3], 1, TargetKind::X86AmdOther),
    ];
    let identity = CpuIdentity::X86 {
        vendor: X86Vendor::Amd,
        family: 15,
        model: 6,
        stepping: 1,
    };

    assert_eq!(
        select_variant(host(&[Feature::Sse3], identity), &variants).target_cpu,
        "k8-sse3"
    );
}

#[test]
fn exact_aarch64_affinity_beats_same_feature_count() {
    let variants = [
        v(
            "cortex-a78ae",
            &[Feature::Crc, Feature::Dotprod],
            2,
            TargetKind::Aarch64ArmCortexA,
        ),
        v(
            "cortex-a55",
            &[Feature::Crc, Feature::Dotprod],
            2,
            TargetKind::Aarch64ArmCortexA,
        ),
        v(
            "neoverse-n1",
            &[Feature::Crc, Feature::Dotprod],
            2,
            TargetKind::Aarch64ArmNeoverseN,
        ),
    ];
    let h = HostInfo {
        arch: TargetArch::Aarch64,
        features: mask(&[Feature::Crc, Feature::Dotprod]),
        identity: CpuIdentity::Aarch64 {
            implementer: 0x41,
            part: 0xd05,
            variant: 2,
            revision: 0,
        },
        heterogeneous: false,
    };
    assert_eq!(select_variant(h, &variants).target_cpu, "cortex-a55");
}

#[test]
fn exact_neoverse_n2_affinity_beats_cortex_a710_collision() {
    let variants = [
        v(
            "cortex-a710",
            &[Feature::Sve2],
            5,
            TargetKind::Aarch64ArmCortexA,
        ),
        v(
            "neoverse-n2",
            &[Feature::Sve2],
            5,
            TargetKind::Aarch64ArmNeoverseN,
        ),
    ];
    let h = HostInfo {
        arch: TargetArch::Aarch64,
        features: mask(&[Feature::Sve2]),
        identity: CpuIdentity::Aarch64 {
            implementer: 0x41,
            part: 0xd49,
            variant: 0,
            revision: 3,
        },
        heterogeneous: false,
    };
    assert_eq!(select_variant(h, &variants).target_cpu, "neoverse-n2");
}

#[test]
fn heterogeneous_aarch64_downgrades_single_core_target() {
    let variants = [
        v(
            "cortex-a76",
            &[Feature::Crc],
            1,
            TargetKind::Aarch64ArmCortexA,
        ),
        v("generic", &[], 0, TargetKind::Generic),
    ];
    let h = HostInfo {
        arch: TargetArch::Aarch64,
        features: mask(&[Feature::Crc]),
        identity: CpuIdentity::Aarch64 {
            implementer: 0x41,
            part: 0xd0b,
            variant: 0,
            revision: 0,
        },
        heterogeneous: true,
    };
    assert_eq!(select_variant(h, &variants).target_cpu, "generic");
}
