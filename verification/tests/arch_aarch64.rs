//! Reading features from hardware capabilities.
use cargo_sonic::arch_aarch64::{HWCAP2_SVE2, HWCAP_ASIMD, HWCAP_ASIMDDP, HWCAP_ATOMICS, HWCAP_CRC32, HWCAP_FPHP, HWCAP_SVE, detect_aarch64_features_from_hwcap};
use cargo_sonic::feature_mask::{Feature, FeatureMask};

#[test]
fn aarch64_neon_maps_to_asimd_hwcap() {
    assert!(detect_aarch64_features_from_hwcap(HWCAP_ASIMD, 0, 0).contains(Feature::Asimd));
}

#[test]
fn aarch64_lse_crc_dotprod_fp16_sve_sve2_map_correctly() {
    let mask = detect_aarch64_features_from_hwcap(
        HWCAP_ATOMICS | HWCAP_CRC32 | HWCAP_ASIMDDP | HWCAP_FPHP | HWCAP_SVE,
        HWCAP2_SVE2,
        0,
    );
    assert!(mask.contains(Feature::Lse));
    assert!(mask.contains(Feature::Crc));
    assert!(mask.contains(Feature::Dotprod));
    assert!(mask.contains(Feature::Fp16));
    assert!(mask.contains(Feature::Sve));
    assert!(mask.contains(Feature::Sve2));
}

#[test]
fn aarch64_unknown_feature_mapping_is_not_silently_accepted() {
    let mask = detect_aarch64_features_from_hwcap(0, 0, usize::MAX);
    assert_eq!(mask, FeatureMask::empty());
}
