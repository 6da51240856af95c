//! The tests that the modules of the generated loader carry. Like the modules themselves they
//! are kept as text.
use vstd::prelude::*;

verus! {

/// The tests of the feature set, first part.
pub const FEATURE_TESTS_FIRST: &'static str = r#"
#[cfg(test)]
mod tests {
    use super::*;

    #[test]
    fn empty_mask_contains_no_features() {
        let empty = FeatureMask::EMPTY;
        assert_eq!(empty.count(), 0);
        assert_eq!(empty.words(), [0, 0]);
        for &feature in ALL_FEATURES {
            assert!(!empty.contains(feature), "EMPTY contains {:?}", feature);
        }
    }

    #[test]
    fn insert_and_contains_round_trip_for_every_feature() {
        for &feature in ALL_FEATURES {
            let mut mask = FeatureMask::EMPTY;
            mask.insert(feature);
            assert!(
                mask.contains(feature),
                "insert/contains failed for {:?}",
                feature
            );
            assert_eq!(
                mask.count(),
                1,
                "count != 1 after single insert of {:?}",
                feature
            );
        }
    }

    #[test]
    fn insert_is_idempotent() {
        let mut mask = FeatureMask::EMPTY;
        mask.insert(Feature::Sse2);
        mask.insert(Feature::Sse2);
        assert_eq!(mask.count(), 1);
        assert!(mask.contains(Feature::Sse2));
    }

    #[test]
    fn from_words_and_words_round_trip() {
        let words = [0xdead_beef_cafe_babe_u64, 0x0123_4567_89ab_cdef_u64];
        assert_eq!(FeatureMask::from_words(words).words(), words);
    }

    #[test]
    fn count_matches_popcount_of_words() {
        let mask = FeatureMask::from_words([0b1011, 0b110_0001]);
        // 3 bits set in low word, 3 bits set in high word.
        assert_eq!(mask.count(), 6);
    }

    #[test]
    fn union_is_bitwise_or_of_each_word() {
        let a = FeatureMask::from_words([0b1010, 0b0101]);
        let b = FeatureMask::from_words([0b0110, 0b1001]);
        let u = a.union(b);
        assert_eq!(u.words(), [0b1110, 0b1101]);
    }

    #[test]
    fn union_preserves_features_from_both_operands() {
        let mut a = FeatureMask::EMPTY;
        a.insert(Feature::Sse2);
        let mut b = FeatureMask::EMPTY;
        b.insert(Feature::Avx2);
        let u = a.union(b);
        assert!(u.contains(Feature::Sse2));
        assert!(u.contains(Feature::Avx2));
        assert_eq!(u.count(), 2);
    }

    #[test]
    fn empty_is_subset_of_anything_and_self() {
        let empty = FeatureMask::EMPTY;
        let mut full = FeatureMask::EMPTY;
        for &feature in ALL_FEATURES {
            full.insert(feature);
        }
        assert!(empty.is_subset_of(empty));
        assert!(empty.is_subset_of(full));
        assert!(full.is_subset_of(full));
    }

    #[test]
    fn is_subset_of_rejects_when_required_bit_is_missing() {
        let mut required = FeatureMask::EMPTY;
        required.insert(Feature::Avx2);
        required.insert(Feature::Sse2);
        let mut host = FeatureMask::EMPTY;
        host.insert(Feature::Sse2);
        // host lacks Avx2 → required is NOT a subset of host.
        assert!(!required.is_subset_of(host));
        host.insert(Feature::Avx2);
        assert!(required.is_subset_of(host));
    }

    #[test]
    fn feature_by_name_returns_none_for_unknown_input() {
        assert_eq!(feature_by_name(""), None);
        assert_eq!(feature_by_name("not-a-feature"), None);
        assert_eq!(feature_by_name("AVX"), None, "lookup is case-sensitive");
    }

    #[test]
    fn feature_by_name_recognises_neon_alias_for_asimd() {
        assert_eq!(feature_by_name("neon"), Some(Feature::Asimd));
        assert_eq!(feature_by_name("asimd"), Some(Feature::Asimd));
    }

    #[test]
    fn feature_name_round_trips_through_feature_by_name_for_every_feature() {
        // Every feature in ALL_FEATURES must have a name, and that name must map
        // back to the same feature via feature_by_name. This invariant is what
        // lets the rest of the crate use these two functions as a bijection
        // (modulo the asimd↔neon alias, where the canonical name is "neon").
        for &feature in ALL_FEATURES {
            let name = feature_name(feature);
            assert!(!name.is_empty(), "empty name for {:?}", feature);
            let parsed = feature_by_name(name).unwrap_or_else(|| {
                panic!(
                    "feature_by_name({:?}) returned None for canonical name of {:?}",
                    name, feature
                )
            });
            assert_eq!(
                parsed, feature,
                "round-trip failed: feature_name({:?}) = {:?}, feature_by_name({:?}) = {:?}",
                feature, name, name, parsed
            );
        }
    }

"#;

/// The tests of the feature set, second part.
pub const FEATURE_TESTS_SECOND: &'static str = r#"    #[test]
    fn all_features_canonical_names_are_unique() {
        // No two features may share the same canonical name, otherwise
        // feature_name → feature_by_name would not be a function.
        let mut names: Vec<&'static str> = ALL_FEATURES.iter().map(|&f| feature_name(f)).collect();
        names.sort();
        let len_before = names.len();
        names.dedup();
        assert_eq!(
            len_before,
            names.len(),
            "feature_name produced duplicate canonical names"
        );
    }

    #[test]
    fn all_features_have_distinct_bit_positions() {
        // Two features assigned to the same bit would silently conflate in
        // FeatureMask::contains. Verify each feature occupies its own bit.
        let mut seen = FeatureMask::EMPTY;
        for &feature in ALL_FEATURES {
            assert!(
                !seen.contains(feature),
                "duplicate bit position for {:?}",
                feature
            );
            seen.insert(feature);
        }
        assert_eq!(seen.count() as usize, ALL_FEATURES.len());
    }

    #[test]
    fn feature_bits_fit_within_two_u64_words() {
        // FeatureMask uses [u64; 2], so the largest discriminant must be < 128.
        for &feature in ALL_FEATURES {
            let bit = feature as usize;
            assert!(
                bit < 128,
                "{:?} has bit {} which overflows FeatureMask",
                feature,
                bit
            );
        }
    }
}
"#;

/// The tests of the choice of a variant, first part.
pub const SELECT_TESTS_FIRST: &'static str = r#"
#[cfg(test)]
mod tests {
    use super::*;
    use crate::feature_mask::{Feature, FeatureMask, feature_by_name};
    use std::{boxed::Box, string::ToString, vec::Vec};

    fn mask(features: &[Feature]) -> FeatureMask {
        let mut mask = FeatureMask::EMPTY;
        for feature in features {
            mask.insert(*feature);
        }
        mask
    }

    fn v(name: &'static str, features: &[Feature], tier: u8, kind: TargetKind) -> VariantMeta {
        let mask = mask(features);
        VariantMeta {
            target_cpu: name,
            required_features: mask,
            rank_features: mask,
            rank_feature_count: mask.count(),
            feature_tier: tier,
            target_kind: kind,
        }
    }

    fn parsed_v(name: &'static str, features: FeatureMask, kind: TargetKind) -> VariantMeta {
        VariantMeta {
            target_cpu: name,
            required_features: features,
            rank_features: features,
            rank_feature_count: features.count(),
            feature_tier: 5,
            target_kind: kind,
        }
    }

    fn host(features: &[Feature], identity: CpuIdentity) -> HostInfo {
        HostInfo {
            arch: TargetArch::X86_64,
            features: mask(features),
            identity,
            heterogeneous: false,
        }
    }

    fn leak(value: &str) -> &'static str {
        Box::leak(value.to_string().into_boxed_str())
    }

    fn parse_hex_u16(value: &str) -> u16 {
        u16::from_str_radix(value.trim_start_matches("0x"), 16).unwrap()
    }

    fn parsed_features(value: &str) -> FeatureMask {
        let mut mask = FeatureMask::EMPTY;
        for feature in value.split(',').filter(|feature| !feature.is_empty()) {
            let feature = feature_by_name(feature)
                .unwrap_or_else(|| panic!("fixture uses unknown feature `{feature}`"));
            mask.insert(feature);
        }
        mask
    }

    #[derive(Clone, Copy)]
    struct X86Fixture {
        name: &'static str,
        vendor: X86Vendor,
        family: u16,
        model: u16,
        expected: &'static str,
        features: FeatureMask,
    }

    fn x86_fixture_rows() -> Vec<X86Fixture> {
        include_str!("../../../tests/cpu-fixtures/x86_64-modern.tsv")
            .lines()
            .filter(|line| !line.is_empty() && !line.starts_with('#'))
            .map(|line| {
                let mut columns = line.split('\t');
                let name = leak(columns.next().unwrap());
                let vendor = match columns.next().unwrap() {
                    "Intel" => X86Vendor::Intel,
                    "AMD" => X86Vendor::Amd,
                    other => panic!("unknown x86 fixture vendor `{other}`"),
                };
                let family = parse_hex_u16(columns.next().unwrap());
                let model = parse_hex_u16(columns.next().unwrap());
                let expected = leak(columns.next().unwrap());
                let features = parsed_features(columns.next().unwrap());
                assert!(columns.next().is_none(), "too many columns in `{line}`");
                X86Fixture {
                    name,
                    vendor,
                    family,
                    model,
                    expected,
                    features,
                }
            })
            .collect()
    }

    fn x86_fixture_kind(cpu: &str) -> TargetKind {
        if cpu.starts_with("znver") {
            return TargetKind::X86AmdZen {
                generation: cpu.trim_start_matches("znver").parse().unwrap(),
            };
        }
        match cpu {
            "sierraforest" | "clearwaterforest" | "grandridge" => TargetKind::X86IntelAtom,
            "sapphirerapids" | "emeraldrapids" | "graniterapids" | "graniterapids-d"
            | "diamondrapids" => TargetKind::X86IntelXeon,
            _ => TargetKind::X86IntelCore,
        }
    }

    #[derive(Clone, Copy)]
    struct Aarch64Fixture {
        name: &'static str,
        implementer: u16,
        part: u16,
        expected: &'static str,
        features: FeatureMask,
    }

"#;

/// The tests of the choice of a variant, second part.
pub const SELECT_TESTS_SECOND: &'static str = r#"    fn aarch64_fixture_rows() -> Vec<Aarch64Fixture> {
        include_str!("../../../tests/cpu-fixtures/aarch64-modern.tsv")
            .lines()
            .filter(|line| !line.is_empty() && !line.starts_with('#'))
            .map(|line| {
                let mut columns = line.split('\t');
                let name = leak(columns.next().unwrap());
                let implementer = parse_hex_u16(columns.next().unwrap());
                let part = parse_hex_u16(columns.next().unwrap());
                let expected = leak(columns.next().unwrap());
                let features = parsed_features(columns.next().unwrap());
                assert!(columns.next().is_none(), "too many columns in `{line}`");
                Aarch64Fixture {
                    name,
                    implementer,
                    part,
                    expected,
                    features,
                }
            })
            .collect()
    }

    fn aarch64_fixture_kind(cpu: &str) -> TargetKind {
        match cpu {
            "a64fx" => TargetKind::Aarch64Other,
            cpu if cpu.starts_with("cortex-a") => TargetKind::Aarch64ArmCortexA,
            cpu if cpu.starts_with("neoverse-e") => TargetKind::Aarch64ArmNeoverseE,
            cpu if cpu.starts_with("neoverse-n") => TargetKind::Aarch64ArmNeoverseN,
            cpu if cpu.starts_with("neoverse-v") => TargetKind::Aarch64ArmNeoverseV,
            other => panic!("unknown aarch64 fixture target cpu `{other}`"),
        }
    }

    #[test]
    fn generic_is_always_eligible() {
        let variants = [v("generic", &[], 0, TargetKind::Generic)];
        assert_eq!(
            select_variant(host(&[], CpuIdentity::Unknown), &variants).target_cpu,
            "generic"
        );
    }

    #[test]
    fn fixture_modern_x86_identity_uses_llvm_host_cpu_affinity() {
        let rows = x86_fixture_rows();
        let variants: Vec<_> = rows
            .iter()
            .map(|row| parsed_v(row.expected, row.features, x86_fixture_kind(row.expected)))
            .collect();

        for row in rows {
            let host = HostInfo {
                arch: TargetArch::X86_64,
                features: row.features,
                identity: CpuIdentity::X86 {
                    vendor: row.vendor,
                    family: row.family,
                    model: row.model,
                    stepping: 0,
                },
                heterogeneous: false,
            };
            assert_eq!(
                select_variant(host, &variants).target_cpu,
                row.expected,
                "{}",
                row.name
            );
        }
    }

    #[test]
    fn fixture_modern_aarch64_midr_uses_llvm_host_cpu_affinity() {
        let rows = aarch64_fixture_rows();
        let variants: Vec<_> = rows
            .iter()
            .map(|row| {
                parsed_v(
                    row.expected,
                    row.features,
                    aarch64_fixture_kind(row.expected),
                )
            })
            .collect();

        for row in rows {
            let host = HostInfo {
                arch: TargetArch::Aarch64,
                features: row.features,
                identity: CpuIdentity::Aarch64 {
                    implementer: row.implementer,
                    part: row.part,
                    variant: 0,
                    revision: 0,
                },
                heterogeneous: false,
            };
            assert_eq!(
                select_variant(host, &variants).target_cpu,
                row.expected,
                "{}",
                row.name
            );
        }
    }

    #[test]
    fn non_generic_requires_feature_subset() {
        let variants = [
            v("generic", &[], 0, TargetKind::Generic),
            v("haswell", &[Feature::Avx2], 3, TargetKind::X86IntelCore),
        ];
        assert_eq!(
            select_variant(host(&[], CpuIdentity::Unknown), &variants).target_cpu,
            "generic"
        );
    }

    #[test]
    fn selects_larger_feature_set_when_no_affinity() {
        let variants = [
            v("generic", &[], 0, TargetKind::Generic),
            v(
                "haswell",
                &[Feature::Avx2, Feature::Fma, Feature::Bmi1],
                3,
                TargetKind::X86IntelCore,
            ),
        ];
        assert_eq!(
            select_variant(
                host(
                    &[Feature::Avx2, Feature::Fma, Feature::Bmi1],
                    CpuIdentity::Unknown
                ),
                &variants
            )
            .target_cpu,
            "haswell"
        );
    }

"#;

/// The tests of the choice of a variant, third part.
pub const SELECT_TESTS_THIRD: &'static str = r#"    #[test]
    fn exact_affinity_beats_higher_feature_count() {
        let variants = [
            v(
                "diamondrapids",
                &[Feature::Avx512F, Feature::Avx512Bw, Feature::Avx512Dq],
                5,
                TargetKind::X86IntelXeon,
            ),
            v(
                "znver5",
                &[Feature::Avx512F],
                4,
                TargetKind::X86AmdZen { generation: 5 },
            ),
        ];
        let identity = CpuIdentity::X86 {
            vendor: X86Vendor::Amd,
            family: 26,
            model: 1,
            stepping: 0,
        };
        assert_eq!(
            select_variant(
                host(
                    &[Feature::Avx512F, Feature::Avx512Bw, Feature::Avx512Dq],
                    identity
                ),
                &variants
            )
            .target_cpu,
            "znver5"
        );
    }

    #[test]
    fn neutral_x86_level_beats_vendor_specific_when_identity_unknown() {
        let variants = [
            v(
                "sapphirerapids",
                &[Feature::Avx512F],
                4,
                TargetKind::X86IntelXeon,
            ),
            v(
                "x86-64-v4",
                &[Feature::Avx512F],
                4,
                TargetKind::X86NeutralLevel { level: 4 },
            ),
            v(
                "znver4",
                &[Feature::Avx512F],
                4,
                TargetKind::X86AmdZen { generation: 4 },
            ),
        ];
        assert_eq!(
            select_variant(host(&[Feature::Avx512F], CpuIdentity::Unknown), &variants).target_cpu,
            "x86-64-v4"
        );
    }

    #[test]
    fn same_line_affinity_beats_neutral_when_identity_known() {
        let variants = [
            v(
                "x86-64-v4",
                &[Feature::Avx512F],
                4,
                TargetKind::X86NeutralLevel { level: 4 },
            ),
            v(
                "znver4",
                &[Feature::Avx512F],
                4,
                TargetKind::X86AmdZen { generation: 4 },
            ),
        ];
        let identity = CpuIdentity::X86 {
            vendor: X86Vendor::Amd,
            family: 25,
            model: 0x11,
            stepping: 0,
        };
        assert_eq!(
            select_variant(host(&[Feature::Avx512F], identity), &variants).target_cpu,
            "znver4"
        );
    }

    #[test]
    fn same_feature_collision_uses_exact_affinity() {
        let variants = [
            v(
                "neoverse-512tvb",
                &[Feature::Sve],
                4,
                TargetKind::Aarch64ArmNeoverseV,
            ),
            v(
                "neoverse-v1",
                &[Feature::Sve],
                4,
                TargetKind::Aarch64ArmNeoverseV,
            ),
        ];
        let host = HostInfo {
            arch: TargetArch::Aarch64,
            features: mask(&[Feature::Sve]),
            identity: CpuIdentity::Aarch64 {
                implementer: 0x41,
                part: 0xd40,
                variant: 0,
                revision: 0,
            },
            heterogeneous: false,
        };
        assert_eq!(select_variant(host, &variants).target_cpu, "neoverse-v1");
    }

    #[test]
    fn same_feature_collision_prefers_generic_when_identity_unknown_and_generic_tied() {
        let variants = [
            v("oldalias", &[], 0, TargetKind::X86IntelCore),
            v("generic", &[], 0, TargetKind::Generic),
        ];
        assert_eq!(
            select_variant(host(&[], CpuIdentity::Unknown), &variants).target_cpu,
            "generic"
        );
    }

    #[test]
    fn same_feature_collision_falls_back_to_lexical_order() {
        let variants = [
            v(
                "skylake_avx512",
                &[Feature::Avx512F],
                4,
                TargetKind::X86IntelXeon,
            ),
            v(
                "skylake-avx512",
                &[Feature::Avx512F],
                4,
                TargetKind::X86IntelXeon,
            ),
        ];
        assert_eq!(
            select_variant(host(&[Feature::Avx512F], CpuIdentity::Unknown), &variants).target_cpu,
            "skylake-avx512"
        );
    }

"#;

/// The tests of the choice of a variant, fourth part.
pub const SELECT_TESTS_FOURTH: &'static str = r#"    #[test]
    fn feature_tier_beats_raw_feature_count_when_no_exact_affinity() {
        let variants = [
            v(
                "many-small",
                &[
                    Feature::Sse3,
                    Feature::Ssse3,
                    Feature::Sse4_1,
                    Feature::Sse4_2,
                ],
                1,
                TargetKind::X86IntelCore,
            ),
            v(
                "avx2",
                &[Feature::Avx2],
                3,
                TargetKind::X86NeutralLevel { level: 3 },
            ),
        ];
        assert_eq!(
            select_variant(
                host(
                    &[
                        Feature::Sse3,
                        Feature::Ssse3,
                        Feature::Sse4_1,
                        Feature::Sse4_2,
                        Feature::Avx2
                    ],
                    CpuIdentity::Unknown
                ),
                &variants
            )
            .target_cpu,
            "avx2"
        );
    }

    #[test]
    fn heterogeneous_x86_downgrades_core_specific_target() {
        let variants = [
            v("gracemont", &[Feature::Sse4_2], 1, TargetKind::X86IntelAtom),
            v(
                "x86-64-v2",
                &[Feature::Sse4_2],
                1,
                TargetKind::X86NeutralLevel { level: 2 },
            ),
        ];
        let mut h = host(
            &[Feature::Sse4_2],
            CpuIdentity::X86 {
                vendor: X86Vendor::Intel,
                family: 6,
                model: 0,
                stepping: 0,
            },
        );
        h.heterogeneous = true;
        assert_eq!(select_variant(h, &variants).target_cpu, "x86-64-v2");
    }

    #[test]
    fn exact_raptorlake_affinity_selects_raptorlake() {
        let variants = [
            v(
                "x86-64-v3",
                &[Feature::Avx2],
                3,
                TargetKind::X86NeutralLevel { level: 3 },
            ),
            v("raptorlake", &[Feature::Avx2], 3, TargetKind::X86IntelCore),
        ];
        let identity = CpuIdentity::X86 {
            vendor: X86Vendor::Intel,
            family: 6,
            model: 183,
            stepping: 1,
        };
        assert_eq!(
            select_variant(host(&[Feature::Avx2], identity), &variants).target_cpu,
            "raptorlake"
        );
    }

    #[test]
    fn exact_nocona_affinity_selects_nocona_over_k8_sse3() {
        let variants = [
            v("k8-sse3", &[Feature::Sse3], 1, TargetKind::X86AmdOther),
            v("nocona", &[Feature::Sse3], 1, TargetKind::X86IntelCore),
        ];
        let identity = CpuIdentity::X86 {
            vendor: X86Vendor::Intel,
            family: 15,
            model: 6,
            stepping: 1,
        };
        assert_eq!(
            select_variant(host(&[Feature::Sse3], identity), &variants).target_cpu,
            "nocona"
        );
    }

    #[test]
    fn exact_amd_k8_affinity_selects_k8_sse3_over_athlon64_sse3() {
        let variants = [
            v(
                "athlon64-sse3",
                &[Feature::Sse3],
                1,
                TargetKind::X86AmdOther,
            ),
            v("k8-sse3", &[Feature::Sse3], 1, TargetKind::X86AmdOther),
        ];
        let identity = CpuIdentity::X86 {
            vendor: X86Vendor::Amd,
            family: 15,
            model: 6,
            stepping: 1,
        };

        assert_eq!(
            select_variant(host(&[Feature::Sse3], identity), &variants).target_cpu,
            "k8-sse3"
        );
    }

"#;

/// The tests of the choice of a variant, fifth part.
pub const SELECT_TESTS_FIFTH: &'static str = r#"    #[test]
    fn exact_aarch64_affinity_beats_same_feature_count() {
        let variants = [
            v(
                "cortex-a78ae",
                &[Feature::Crc, Feature::Dotprod],
                2,
                TargetKind::Aarch64ArmCortexA,
            ),
            v(
                "cortex-a55",
                &[Feature::Crc, Feature::Dotprod],
                2,
                TargetKind::Aarch64ArmCortexA,
            ),
            v(
                "neoverse-n1",
                &[Feature::Crc, Feature::Dotprod],
                2,
                TargetKind::Aarch64ArmNeoverseN,
            ),
        ];
        let h = HostInfo {
            arch: TargetArch::Aarch64,
            features: mask(&[Feature::Crc, Feature::Dotprod]),
            identity: CpuIdentity::Aarch64 {
                implementer: 0x41,
                part: 0xd05,
                variant: 2,
                revision: 0,
            },
            heterogeneous: false,
        };
        assert_eq!(select_variant(h, &variants).target_cpu, "cortex-a55");
    }

    #[test]
    fn exact_neoverse_n2_affinity_beats_cortex_a710_collision() {
        let variants = [
            v(
                "cortex-a710",
                &[Feature::Sve2],
                5,
                TargetKind::Aarch64ArmCortexA,
            ),
            v(
                "neoverse-n2",
                &[Feature::Sve2],
                5,
                TargetKind::Aarch64ArmNeoverseN,
            ),
        ];
        let h = HostInfo {
            arch: TargetArch::Aarch64,
            features: mask(&[Feature::Sve2]),
            identity: CpuIdentity::Aarch64 {
                implementer: 0x41,
                part: 0xd49,
                variant: 0,
                revision: 3,
            },
            heterogeneous: false,
        };
        assert_eq!(select_variant(h, &variants).target_cpu, "neoverse-n2");
    }

    #[test]
    fn heterogeneous_aarch64_downgrades_single_core_target() {
        let variants = [
            v(
                "cortex-a76",
                &[Feature::Crc],
                1,
                TargetKind::Aarch64ArmCortexA,
            ),
            v("generic", &[], 0, TargetKind::Generic),
        ];
        let h = HostInfo {
            arch: TargetArch::Aarch64,
            features: mask(&[Feature::Crc]),
            identity: CpuIdentity::Aarch64 {
                implementer: 0x41,
                part: 0xd0b,
                variant: 0,
                revision: 0,
            },
            heterogeneous: true,
        };
        assert_eq!(select_variant(h, &variants).target_cpu, "generic");
    }
}
"#;

/// The tests of the detection on x86-64, first part.
pub const ARCH_X86_64_TESTS_FIRST: &'static str = r#"
#[cfg(test)]
mod tests {
    use super::*;

    #[test]
    fn x86_avx_requires_cpuid_avx_osxsave_and_xcr0_xmm_ymm() {
        let mut leaves = X86Cpuid::default();
        leaves.leaf1.ecx = (1 << 26) | (1 << 27) | (1 << 28);
        assert!(!detect_x86_features_from_cpuid(leaves, 0).contains(Feature::Avx));
        assert!(detect_x86_features_from_cpuid(leaves, 0b110).contains(Feature::Avx));
    }

    #[test]
    fn x86_avx2_requires_avx_state_and_leaf7_avx2() {
        let mut leaves = X86Cpuid::default();
        leaves.leaf1.ecx = (1 << 26) | (1 << 27) | (1 << 28);
        leaves.leaf7_0.ebx = 1 << 5;
        assert!(!detect_x86_features_from_cpuid(leaves, 0).contains(Feature::Avx2));
        assert!(detect_x86_features_from_cpuid(leaves, 0b110).contains(Feature::Avx2));
    }

    #[test]
    fn x86_avx512_requires_opmask_zmm_xcr0_state() {
        let mut leaves = X86Cpuid::default();
        leaves.leaf1.ecx = (1 << 26) | (1 << 27) | (1 << 28);
        leaves.leaf7_0.ebx = (1 << 16) | (1 << 21);
        assert!(!detect_x86_features_from_cpuid(leaves, 0b110).contains(Feature::Avx512F));
        let mask = detect_x86_features_from_cpuid(leaves, 0b1110_0110);
        assert!(mask.contains(Feature::Avx512F));
        assert!(mask.contains(Feature::Avx512Ifma));
    }

    #[test]
    fn x86_sse4_popcnt_bmi_lzcnt_bits_map_correctly() {
        let mut leaves = X86Cpuid::default();
        leaves.leaf1.ecx = (1 << 19) | (1 << 20) | (1 << 23);
        leaves.leaf7_0.ebx = (1 << 3) | (1 << 8);
        leaves.leaf80000001.ecx = 1 << 5;
        let mask = detect_x86_features_from_cpuid(leaves, 0);
        assert!(mask.contains(Feature::Sse4_1));
        assert!(mask.contains(Feature::Sse4_2));
        assert!(mask.contains(Feature::Popcnt));
        assert!(mask.contains(Feature::Bmi1));
        assert!(mask.contains(Feature::Bmi2));
        assert!(mask.contains(Feature::Lzcnt));
    }

    #[test]
    fn x86_baseline_bits_map_correctly() {
        let mut leaves = X86Cpuid::default();
        leaves.leaf1.edx = (1 << 24) | (1 << 25) | (1 << 26);
        let mask = detect_x86_features_from_cpuid(leaves, 0);
        assert!(mask.contains(Feature::Fxsr));
        assert!(mask.contains(Feature::Sse));
        assert!(mask.contains(Feature::Sse2));
    }

    #[test]
    fn x86_xsave_and_keylocker_bits_map_correctly() {
        let mut leaves = X86Cpuid::default();
        leaves.leaf7_0.ecx = (1 << 2) | (1 << 23);
        leaves.leaf_d_1.eax = (1 << 0) | (1 << 1) | (1 << 3);
        let mask = detect_x86_features_from_cpuid(leaves, 0);
        assert!(mask.contains(Feature::Widekl));
        assert!(mask.contains(Feature::Kl));
        assert!(mask.contains(Feature::Xsaveopt));
        assert!(mask.contains(Feature::Xsavec));
        assert!(mask.contains(Feature::Xsaves));
    }

    #[test]
    fn x86_gfni_vaes_vpclmul_do_not_require_avx512_state() {
        let mut leaves = X86Cpuid::default();
        leaves.leaf1.ecx = (1 << 26) | (1 << 27) | (1 << 28);
        leaves.leaf7_0.ecx = (1 << 8) | (1 << 9) | (1 << 10);
        let mask = detect_x86_features_from_cpuid(leaves, 0b110);
        assert!(mask.contains(Feature::Gfni));
        assert!(mask.contains(Feature::Vaes));
        assert!(mask.contains(Feature::Vpclmulqdq));
    }

    /// AVX state requires CPUID OSXSAVE+AVX bits AND XCR0 XMM/YMM bits set.
    /// Helper for tests below that need an AVX-enabled CPUID baseline.
    fn avx_enabled_leaves() -> (X86Cpuid, u64) {
        let mut leaves = X86Cpuid::default();
        leaves.leaf1.ecx = (1 << 26) | (1 << 27) | (1 << 28);
        (leaves, 0b110)
    }

    fn avx512_enabled_leaves() -> (X86Cpuid, u64) {
        let (leaves, _) = avx_enabled_leaves();
        // XCR0 must additionally have opmask/zmm-hi256/hi16-zmm bits set.
        (leaves, 0b1110_0110)
    }

"#;

/// The tests of the detection on x86-64, second part.
pub const ARCH_X86_64_TESTS_SECOND: &'static str = r#"    #[test]
    fn x86_leaf1_ecx_bits_map_to_expected_features() {
        // Each iteration sets a single bit on leaf1.ecx and verifies exactly the
        // expected feature appears in the mask. Using leaf1.ecx alone keeps the
        // test focused on the leaf1.ecx decoder.
        let cases: &[(u32, Feature)] = &[
            (0, Feature::Sse3),
            (1, Feature::Pclmulqdq),
            (9, Feature::Ssse3),
            (12, Feature::Fma),
            (13, Feature::Cmpxchg16b),
            (19, Feature::Sse4_1),
            (20, Feature::Sse4_2),
            (22, Feature::Movbe),
            (23, Feature::Popcnt),
            (25, Feature::Aes),
            (26, Feature::Xsave),
            (29, Feature::F16c),
            (30, Feature::Rdrand),
        ];
        for &(bit, feature) in cases {
            let mut leaves = X86Cpuid::default();
            leaves.leaf1.ecx = 1 << bit;
            let mask = detect_x86_features_from_cpuid(leaves, 0);
            assert!(
                mask.contains(feature),
                "leaf1.ecx bit {} did not produce {:?}",
                bit,
                feature
            );
        }
    }

    #[test]
    fn x86_leaf7_0_ebx_bits_map_to_expected_features() {
        // bits 3, 8, 18, 19, 29 are not gated by AVX state.
        let unguarded: &[(u32, Feature)] = &[
            (3, Feature::Bmi1),
            (8, Feature::Bmi2),
            (18, Feature::Rdseed),
            (19, Feature::Adx),
            (29, Feature::Sha),
        ];
        for &(bit, feature) in unguarded {
            let mut leaves = X86Cpuid::default();
            leaves.leaf7_0.ebx = 1 << bit;
            let mask = detect_x86_features_from_cpuid(leaves, 0);
            assert!(
                mask.contains(feature),
                "leaf7_0.ebx bit {} did not produce {:?}",
                bit,
                feature
            );
        }
    }

    #[test]
    fn x86_leaf80000001_ecx_bits_map_to_expected_features() {
        let cases: &[(u32, Feature)] =
            &[(5, Feature::Lzcnt), (6, Feature::Sse4a), (21, Feature::Tbm)];
        for &(bit, feature) in cases {
            let mut leaves = X86Cpuid::default();
            leaves.leaf80000001.ecx = 1 << bit;
            let mask = detect_x86_features_from_cpuid(leaves, 0);
            assert!(
                mask.contains(feature),
                "leaf80000001.ecx bit {} did not produce {:?}",
                bit,
                feature
            );
        }
    }

    #[test]
    fn x86_leaf_d_1_eax_bits_map_to_xsave_extensions() {
        let cases: &[(u32, Feature)] = &[
            (0, Feature::Xsaveopt),
            (1, Feature::Xsavec),
            (3, Feature::Xsaves),
        ];
        for &(bit, feature) in cases {
            let mut leaves = X86Cpuid::default();
            leaves.leaf_d_1.eax = 1 << bit;
            let mask = detect_x86_features_from_cpuid(leaves, 0);
            assert!(
                mask.contains(feature),
                "leaf_d_1.eax bit {} did not produce {:?}",
                bit,
                feature
            );
        }
    }

"#;

/// The tests of the detection on x86-64, third part.
pub const ARCH_X86_64_TESTS_THIRD: &'static str = r#"    #[test]
    fn x86_avx512_extension_bits_require_avx512_state() {
        // All AVX-512 extension bits beyond Avx512F require both the AVX state
        // gate AND the AVX-512 XCR0 gate. Without that XCR0 mask, the bit must
        // be silently dropped.
        let extensions_b7: &[(u32, Feature)] = &[
            (16, Feature::Avx512F),
            (17, Feature::Avx512Dq),
            (21, Feature::Avx512Ifma),
            (28, Feature::Avx512Cd),
            (30, Feature::Avx512Bw),
            (31, Feature::Avx512Vl),
        ];
        for &(bit, feature) in extensions_b7 {
            let (mut leaves, xcr0) = avx512_enabled_leaves();
            leaves.leaf7_0.ebx = 1 << bit;
            assert!(
                detect_x86_features_from_cpuid(leaves, xcr0).contains(feature),
                "leaf7_0.ebx bit {} did not produce {:?} with avx512 xcr0",
                bit,
                feature
            );
            // Without avx512 state in xcr0, the bit must be ignored.
            assert!(
                !detect_x86_features_from_cpuid(leaves, 0b110).contains(feature),
                "{:?} leaked through without avx512 xcr0 state",
                feature
            );
        }

        let extensions_c7: &[(u32, Feature)] = &[
            (1, Feature::Avx512Vbmi),
            (6, Feature::Avx512Vbmi2),
            (11, Feature::Avx512Vnni),
            (12, Feature::Avx512Bitalg),
            (14, Feature::Avx512Vpopcntdq),
        ];
        for &(bit, feature) in extensions_c7 {
            let (mut leaves, xcr0) = avx512_enabled_leaves();
            leaves.leaf7_0.ecx = 1 << bit;
            assert!(
                detect_x86_features_from_cpuid(leaves, xcr0).contains(feature),
                "leaf7_0.ecx bit {} did not produce {:?} with avx512 xcr0",
                bit,
                feature
            );
        }

        let extensions_d7: &[(u32, Feature)] =
            &[(8, Feature::Avx512Vp2intersect), (22, Feature::Avx512Fp16)];
        for &(bit, feature) in extensions_d7 {
            let (mut leaves, xcr0) = avx512_enabled_leaves();
            leaves.leaf7_0.edx = 1 << bit;
            assert!(
                detect_x86_features_from_cpuid(leaves, xcr0).contains(feature),
                "leaf7_0.edx bit {} did not produce {:?} with avx512 xcr0",
                bit,
                feature
            );
        }

        // Avx512Bf16 lives on leaf7_1.eax bit 5.
        let (mut leaves, xcr0) = avx512_enabled_leaves();
        leaves.leaf7_1.eax = 1 << 5;
        assert!(detect_x86_features_from_cpuid(leaves, xcr0).contains(Feature::Avx512Bf16));
    }

    #[test]
    fn x86_avx_dependent_extensions_require_avx_state_only() {
        // These bits require the AVX state gate (XCR0 0b110) but not AVX-512.
        let avx_dep_c7: &[(u32, Feature)] = &[(22, Feature::AvxIfma), (23, Feature::AvxNeConvert)];
        for &(bit, feature) in avx_dep_c7 {
            let (mut leaves, xcr0) = avx_enabled_leaves();
            leaves.leaf7_0.ecx = 1 << bit;
            assert!(
                detect_x86_features_from_cpuid(leaves, xcr0).contains(feature),
                "leaf7_0.ecx bit {} did not produce {:?} with avx state",
                bit,
                feature
            );
            // Without AVX state, bit must be ignored.
            assert!(
                !detect_x86_features_from_cpuid(leaves, 0).contains(feature),
                "{:?} leaked through without AVX state",
                feature
            );
        }

        // AvxVnni: leaf7_1.eax bit 4
        let (mut leaves, xcr0) = avx_enabled_leaves();
        leaves.leaf7_1.eax = 1 << 4;
        assert!(detect_x86_features_from_cpuid(leaves, xcr0).contains(Feature::AvxVnni));
        assert!(!detect_x86_features_from_cpuid(leaves, 0).contains(Feature::AvxVnni));

        // AvxVnniInt8: leaf7_0.edx bit 4; AvxVnniInt16: leaf7_0.edx bit 5
        let (mut leaves, xcr0) = avx_enabled_leaves();
        leaves.leaf7_0.edx = (1 << 4) | (1 << 5);
        let mask = detect_x86_features_from_cpuid(leaves, xcr0);
        assert!(mask.contains(Feature::AvxVnniInt8));
        assert!(mask.contains(Feature::AvxVnniInt16));
        let no_avx = detect_x86_features_from_cpuid(leaves, 0);
        assert!(!no_avx.contains(Feature::AvxVnniInt8));
        assert!(!no_avx.contains(Feature::AvxVnniInt16));
    }

"#;

/// The tests of the detection on x86-64, fourth part.
pub const ARCH_X86_64_TESTS_FOURTH: &'static str = r#"    #[test]
    fn x86_sm3_sm4_sha512_live_on_leaf7_0_edx_high_bits() {
        let mut leaves = X86Cpuid::default();
        leaves.leaf7_0.edx = (1 << 29) | (1 << 30) | (1 << 31);
        let mask = detect_x86_features_from_cpuid(leaves, 0);
        assert!(mask.contains(Feature::Sha512));
        assert!(mask.contains(Feature::Sm3));
        assert!(mask.contains(Feature::Sm4));
    }

    #[test]
    fn x86_zero_cpuid_input_yields_empty_mask() {
        // Sanity: with all CPUID leaves zero and XCR0 zero, no feature should
        // be reported. This pins down the baseline that no detection arm
        // accidentally fires unconditionally.
        let mask = detect_x86_features_from_cpuid(X86Cpuid::default(), 0);
        assert_eq!(mask, FeatureMask::EMPTY);
    }
}
"#;

/// The tests of the detection on AArch64.
pub const ARCH_AARCH64_TESTS: &'static str = r#"
#[cfg(test)]
mod tests {
    use super::*;

    #[test]
    fn aarch64_neon_maps_to_asimd_hwcap() {
        assert!(detect_aarch64_features_from_hwcap(HWCAP_ASIMD, 0, 0).contains(Feature::Asimd));
    }

    #[test]
    fn aarch64_lse_crc_dotprod_fp16_sve_sve2_map_correctly() {
        let mask = detect_aarch64_features_from_hwcap(
            HWCAP_ATOMICS | HWCAP_CRC32 | HWCAP_ASIMDDP | HWCAP_FPHP | HWCAP_SVE,
            HWCAP2_SVE2,
            0,
        );
        assert!(mask.contains(Feature::Lse));
        assert!(mask.contains(Feature::Crc));
        assert!(mask.contains(Feature::Dotprod));
        assert!(mask.contains(Feature::Fp16));
        assert!(mask.contains(Feature::Sve));
        assert!(mask.contains(Feature::Sve2));
    }

    #[test]
    fn aarch64_unknown_feature_mapping_is_not_silently_accepted() {
        let mask = detect_aarch64_features_from_hwcap(0, 0, usize::MAX);
        assert_eq!(mask, FeatureMask::EMPTY);
    }
}
"#;

} // verus!
