//! Features of an AArch64 host, from the capability words that the Linux kernel
//! hands to a process.
use crate::feature_mask::{self, Feature, FeatureMask, ALL_FEATURES};
use vstd::prelude::*;

verus! {

pub const HWCAP_ASIMD: usize = 1 << 1;
pub const HWCAP_AES: usize = 1 << 3;
pub const HWCAP_PMULL: usize = 1 << 4;
pub const HWCAP_SHA1: usize = 1 << 5;
pub const HWCAP_SHA2: usize = 1 << 6;
pub const HWCAP_CRC32: usize = 1 << 7;
pub const HWCAP_ATOMICS: usize = 1 << 8;
pub const HWCAP_FPHP: usize = 1 << 9;
pub const HWCAP_ASIMDHP: usize = 1 << 10;
pub const HWCAP_CPUID: usize = 1 << 11;
pub const HWCAP_ASIMDRDM: usize = 1 << 12;
pub const HWCAP_JSCVT: usize = 1 << 13;
pub const HWCAP_FCMA: usize = 1 << 14;
pub const HWCAP_LRCPC: usize = 1 << 15;
pub const HWCAP_DCPOP: usize = 1 << 16;
pub const HWCAP_SHA3: usize = 1 << 17;
pub const HWCAP_SM3: usize = 1 << 18;
pub const HWCAP_SM4: usize = 1 << 19;
pub const HWCAP_ASIMDDP: usize = 1 << 20;
pub const HWCAP_SHA512: usize = 1 << 21;
pub const HWCAP_SVE: usize = 1 << 22;
pub const HWCAP_ASIMDFHM: usize = 1 << 23;
pub const HWCAP_DIT: usize = 1 << 24;
pub const HWCAP_USCAT: usize = 1 << 25;
pub const HWCAP_ILRCPC: usize = 1 << 26;
pub const HWCAP_FLAGM: usize = 1 << 27;
pub const HWCAP_SSBS: usize = 1 << 28;
pub const HWCAP_SB: usize = 1 << 29;
pub const HWCAP_PACA: usize = 1 << 30;
pub const HWCAP_PACG: usize = 1 << 31;

pub const HWCAP2_DCPODP: usize = 1 << 0;
pub const HWCAP2_SVE2: usize = 1 << 1;
pub const HWCAP2_SVEAES: usize = 1 << 2;
pub const HWCAP2_SVEPMULL: usize = 1 << 3;
pub const HWCAP2_SVEBITPERM: usize = 1 << 4;
pub const HWCAP2_SVESHA3: usize = 1 << 5;
pub const HWCAP2_SVESM4: usize = 1 << 6;
pub const HWCAP2_FLAGM2: usize = 1 << 7;
pub const HWCAP2_FRINT: usize = 1 << 8;
pub const HWCAP2_SVEI8MM: usize = 1 << 9;
pub const HWCAP2_SVEF32MM: usize = 1 << 10;
pub const HWCAP2_SVEF64MM: usize = 1 << 11;
pub const HWCAP2_SVEBF16: usize = 1 << 12;
pub const HWCAP2_I8MM: usize = 1 << 13;
pub const HWCAP2_BF16: usize = 1 << 14;
pub const HWCAP2_DGH: usize = 1 << 15;
pub const HWCAP2_RNG: usize = 1 << 16;
pub const HWCAP2_BTI: usize = 1 << 17;
pub const HWCAP2_MTE: usize = 1 << 18;
pub const HWCAP2_ECV: usize = 1 << 19;
pub const HWCAP2_AFP: usize = 1 << 20;
pub const HWCAP2_RPRES: usize = 1 << 21;
pub const HWCAP2_MTE3: usize = 1 << 22;
pub const HWCAP2_SME: usize = 1 << 23;

/// Whether a capability word holds the capability.
pub open spec fn capable(word: usize, capability: usize) -> bool {
    (word & capability) != 0
}

/// Whether the kernel's capability words say that the host offers the feature.
pub open spec fn aarch64_offers(hwcap: usize, hwcap2: usize, feature: Feature) -> bool {
    match feature {
        Feature::Asimd => capable(hwcap, HWCAP_ASIMD),
        Feature::Aes => capable(hwcap, HWCAP_AES),
        Feature::Crc => capable(hwcap, HWCAP_CRC32),
        Feature::Lse => capable(hwcap, HWCAP_ATOMICS),
        Feature::Fp16 => capable(hwcap, HWCAP_FPHP) || capable(hwcap, HWCAP_ASIMDHP),
        Feature::Rdm => capable(hwcap, HWCAP_ASIMDRDM),
        Feature::Jsconv => capable(hwcap, HWCAP_JSCVT),
        Feature::Fcma => capable(hwcap, HWCAP_FCMA),
        Feature::Rcpc => capable(hwcap, HWCAP_LRCPC),
        Feature::Dpb => capable(hwcap, HWCAP_DCPOP),
        Feature::Sha2 => capable(hwcap, HWCAP_SHA2),
        Feature::Sha3 => capable(hwcap, HWCAP_SHA3),
        Feature::Sha512 => capable(hwcap, HWCAP_SHA512),
        Feature::Sm3 => capable(hwcap, HWCAP_SM3),
        Feature::Sm4 => capable(hwcap, HWCAP_SM4),
        Feature::Dotprod => capable(hwcap, HWCAP_ASIMDDP),
        Feature::Sve => capable(hwcap, HWCAP_SVE),
        Feature::Fhm => capable(hwcap, HWCAP_ASIMDFHM),
        Feature::Dit => capable(hwcap, HWCAP_DIT),
        Feature::Flagm => capable(hwcap, HWCAP_FLAGM),
        Feature::Ssbs => capable(hwcap, HWCAP_SSBS),
        Feature::Sb => capable(hwcap, HWCAP_SB),
        Feature::Paca => capable(hwcap, HWCAP_PACA),
        Feature::Pacg => capable(hwcap, HWCAP_PACG),
        Feature::Dpb2 => capable(hwcap2, HWCAP2_DCPODP),
        Feature::Sve2 => capable(hwcap2, HWCAP2_SVE2),
        Feature::Frintts => capable(hwcap2, HWCAP2_FRINT),
        Feature::I8mm => capable(hwcap2, HWCAP2_I8MM),
        Feature::Bf16 => capable(hwcap2, HWCAP2_BF16),
        Feature::Rand => capable(hwcap2, HWCAP2_RNG),
        Feature::Bti => capable(hwcap2, HWCAP2_BTI),
        Feature::Mte => capable(hwcap2, HWCAP2_MTE),
        _ => false,
    }
}

/// Whether a capability word holds the capability.
fn has(word: usize, capability: usize) -> (r: bool)
    ensures
        r == capable(word, capability),
{
    (word & capability) != 0
}

/// Whether the kernel's capability words say that the host offers the feature.
fn offers(hwcap: usize, hwcap2: usize, feature: Feature) -> (r: bool)
    ensures
        r == aarch64_offers(hwcap, hwcap2, feature),
{
    match feature {
        Feature::Asimd => has(hwcap, HWCAP_ASIMD),
        Feature::Aes => has(hwcap, HWCAP_AES),
        Feature::Crc => has(hwcap, HWCAP_CRC32),
        Feature::Lse => has(hwcap, HWCAP_ATOMICS),
        Feature::Fp16 => has(hwcap, HWCAP_FPHP) || has(hwcap, HWCAP_ASIMDHP),
        Feature::Rdm => has(hwcap, HWCAP_ASIMDRDM),
        Feature::Jsconv => has(hwcap, HWCAP_JSCVT),
        Feature::Fcma => has(hwcap, HWCAP_FCMA),
        Feature::Rcpc => has(hwcap, HWCAP_LRCPC),
        Feature::Dpb => has(hwcap, HWCAP_DCPOP),
        Feature::Sha2 => has(hwcap, HWCAP_SHA2),
        Feature::Sha3 => has(hwcap, HWCAP_SHA3),
        Feature::Sha512 => has(hwcap, HWCAP_SHA512),
        Feature::Sm3 => has(hwcap, HWCAP_SM3),
        Feature::Sm4 => has(hwcap, HWCAP_SM4),
        Feature::Dotprod => has(hwcap, HWCAP_ASIMDDP),
        Feature::Sve => has(hwcap, HWCAP_SVE),
        Feature::Fhm => has(hwcap, HWCAP_ASIMDFHM),
        Feature::Dit => has(hwcap, HWCAP_DIT),
        Feature::Flagm => has(hwcap, HWCAP_FLAGM),
        Feature::Ssbs => has(hwcap, HWCAP_SSBS),
        Feature::Sb => has(hwcap, HWCAP_SB),
        Feature::Paca => has(hwcap, HWCAP_PACA),
        Feature::Pacg => has(hwcap, HWCAP_PACG),
        Feature::Dpb2 => has(hwcap2, HWCAP2_DCPODP),
        Feature::Sve2 => has(hwcap2, HWCAP2_SVE2),
        Feature::Frintts => has(hwcap2, HWCAP2_FRINT),
        Feature::I8mm => has(hwcap2, HWCAP2_I8MM),
        Feature::Bf16 => has(hwcap2, HWCAP2_BF16),
        Feature::Rand => has(hwcap2, HWCAP2_RNG),
        Feature::Bti => has(hwcap2, HWCAP2_BTI),
        Feature::Mte => has(hwcap2, HWCAP2_MTE),
        _ => false,
    }
}

/// The features that an AArch64 host offers, given its capability words. None of
/// them is announced in the third word.
pub fn detect_aarch64_features_from_hwcap(hwcap: usize, hwcap2: usize, _hwcap3: usize) -> (mask:
    FeatureMask)
    ensures
        forall|f: Feature| #[trigger] mask.has(f) == aarch64_offers(hwcap, hwcap2, f),
        forall|i: int| mask@.contains(i) ==> 0 <= i < ALL_FEATURES@.len(),
{
    let mut out = FeatureMask::empty();
    let mut i: usize = 0;
    while i < ALL_FEATURES.len()
        invariant
            i <= ALL_FEATURES@.len(),
            forall|f: Feature| #[trigger]
                out.has(f) == ((f as int) < i && aarch64_offers(hwcap, hwcap2, f)),
            forall|b: int| out@.contains(b) ==> 0 <= b < i,
        decreases ALL_FEATURES@.len() - i,
    {
        let feature = ALL_FEATURES[i];
        let ghost before = out;
        assert(feature as int == i);
        if offers(hwcap, hwcap2, feature) {
            out.insert(feature);
        }
        assert forall|f: Feature| #[trigger]
            out.has(f) == ((f as int) < i + 1 && aarch64_offers(hwcap, hwcap2, f)) by {
            assert(before.has(f) == ((f as int) < i && aarch64_offers(hwcap, hwcap2, f)));
            feature_mask::feature_bits(f, feature);
        }
        i += 1;
    }
    out
}

/// Without a capability in the first two words, the host offers nothing.
pub proof fn no_capability_offers_nothing(feature: Feature)
    ensures
        !aarch64_offers(0, 0, feature),
{
    assert forall|c: usize| !capable(0, c) by {
        assert(0usize & c == 0) by (bit_vector);
    }
}

/// What the union of two pairs of capability words offers is what one of the pairs offers.
pub proof fn offers_of_a_union(
    hwcap: usize,
    hwcap2: usize,
    more: usize,
    more2: usize,
    feature: Feature,
)
    ensures
        aarch64_offers(hwcap | more, hwcap2 | more2, feature) == (aarch64_offers(
            hwcap,
            hwcap2,
            feature,
        ) || aarch64_offers(more, more2, feature)),
{
    assert forall|a: usize, b: usize, c: usize| #[trigger]
        capable(a | b, c) == (capable(a, c) || capable(b, c)) by {
        assert(((a | b) & c != 0) == (a & c != 0 || b & c != 0)) by (bit_vector);
    }
}

/// A feature is found if and only if the kernel sets the bit that stands for it in the first or
/// second capability word, whatever the other bits are. Half-precision arithmetic has two
/// bits, and one of them is enough.
pub proof fn one_capability_announces_a_feature(
    hwcap: usize,
    hwcap2: usize,
    hwcap3: usize,
    mask: FeatureMask,
)
    requires
        call_ensures(detect_aarch64_features_from_hwcap, (hwcap, hwcap2, hwcap3), mask),
    ensures
        mask.has(Feature::Asimd) == (hwcap & 0x0000_0002 != 0),
        mask.has(Feature::Aes) == (hwcap & 0x0000_0008 != 0),
        mask.has(Feature::Crc) == (hwcap & 0x0000_0080 != 0),
        mask.has(Feature::Lse) == (hwcap & 0x0000_0100 != 0),
        mask.has(Feature::Fp16) == (hwcap & 0x0000_0600 != 0),
        mask.has(Feature::Rdm) == (hwcap & 0x0000_1000 != 0),
        mask.has(Feature::Jsconv) == (hwcap & 0x0000_2000 != 0),
        mask.has(Feature::Fcma) == (hwcap & 0x0000_4000 != 0),
        mask.has(Feature::Rcpc) == (hwcap & 0x0000_8000 != 0),
        mask.has(Feature::Dpb) == (hwcap & 0x0001_0000 != 0),
        mask.has(Feature::Sha2) == (hwcap & 0x0000_0040 != 0),
        mask.has(Feature::Sha3) == (hwcap & 0x0002_0000 != 0),
        mask.has(Feature::Sha512) == (hwcap & 0x0020_0000 != 0),
        mask.has(Feature::Sm3) == (hwcap & 0x0004_0000 != 0),
        mask.has(Feature::Sm4) == (hwcap & 0x0008_0000 != 0),
        mask.has(Feature::Dotprod) == (hwcap & 0x0010_0000 != 0),
        mask.has(Feature::Sve) == (hwcap & 0x0040_0000 != 0),
        mask.has(Feature::Fhm) == (hwcap & 0x0080_0000 != 0),
        mask.has(Feature::Dit) == (hwcap & 0x0100_0000 != 0),
        mask.has(Feature::Flagm) == (hwcap & 0x0800_0000 != 0),
        mask.has(Feature::Ssbs) == (hwcap & 0x1000_0000 != 0),
        mask.has(Feature::Sb) == (hwcap & 0x2000_0000 != 0),
        mask.has(Feature::Paca) == (hwcap & 0x4000_0000 != 0),
        mask.has(Feature::Pacg) == (hwcap & 0x8000_0000 != 0),
        mask.has(Feature::Dpb2) == (hwcap2 & 0x0000_0001 != 0),
        mask.has(Feature::Sve2) == (hwcap2 & 0x0000_0002 != 0),
        mask.has(Feature::Frintts) == (hwcap2 & 0x0000_0100 != 0),
        mask.has(Feature::I8mm) == (hwcap2 & 0x0000_2000 != 0),
        mask.has(Feature::Bf16) == (hwcap2 & 0x0000_4000 != 0),
        mask.has(Feature::Rand) == (hwcap2 & 0x0001_0000 != 0),
        mask.has(Feature::Bti) == (hwcap2 & 0x0002_0000 != 0),
        mask.has(Feature::Mte) == (hwcap2 & 0x0004_0000 != 0),
{
    assert(1usize << 0 == 0x1 && 1usize << 1 == 0x2 && 1usize << 3 == 0x8 && 1usize << 6 == 0x40 && 1usize << 7 == 0x80 && 1usize << 8 == 0x100 && 1usize << 9 == 0x200 && 1usize << 10 == 0x400 && 1usize << 12 == 0x1000 && 1usize << 13 == 0x2000 && 1usize << 14 == 0x4000 && 1usize << 15 == 0x8000 && 1usize << 16 == 0x10000 && 1usize << 17 == 0x20000 && 1usize << 18 == 0x40000 && 1usize << 19 == 0x80000 && 1usize << 20 == 0x100000 && 1usize << 21 == 0x200000 && 1usize << 22 == 0x400000 && 1usize << 23 == 0x800000 && 1usize << 24 == 0x1000000 && 1usize << 27 == 0x8000000 && 1usize << 28 == 0x10000000 && 1usize << 29 == 0x20000000 && 1usize << 30 == 0x40000000 && 1usize << 31 == 0x80000000) by (bit_vector);
    assert((hwcap & 0x0200 != 0 || hwcap & 0x0400 != 0) == (hwcap & 0x0600 != 0)) by (bit_vector);
}

/// What only x86-64 has, and what the kernel does not tell, is never found on an AArch64 host.
pub proof fn aarch64_has_no_x86_feature(
    hwcap: usize,
    hwcap2: usize,
    hwcap3: usize,
    mask: FeatureMask,
)
    requires
        call_ensures(detect_aarch64_features_from_hwcap, (hwcap, hwcap2, hwcap3), mask),
    ensures
        !mask.has(Feature::Adx),
        !mask.has(Feature::Avx),
        !mask.has(Feature::Avx2),
        !mask.has(Feature::Avx512Bf16),
        !mask.has(Feature::Avx512Bitalg),
        !mask.has(Feature::Avx512Bw),
        !mask.has(Feature::Avx512Cd),
        !mask.has(Feature::Avx512Dq),
        !mask.has(Feature::Avx512F),
        !mask.has(Feature::Avx512Fp16),
        !mask.has(Feature::Avx512Ifma),
        !mask.has(Feature::Avx512Vbmi),
        !mask.has(Feature::Avx512Vbmi2),
        !mask.has(Feature::Avx512Vl),
        !mask.has(Feature::Avx512Vnni),
        !mask.has(Feature::Avx512Vp2intersect),
        !mask.has(Feature::Avx512Vpopcntdq),
        !mask.has(Feature::AvxIfma),
        !mask.has(Feature::AvxNeConvert),
        !mask.has(Feature::AvxVnni),
        !mask.has(Feature::AvxVnniInt16),
        !mask.has(Feature::AvxVnniInt8),
        !mask.has(Feature::Bmi1),
        !mask.has(Feature::Bmi2),
        !mask.has(Feature::Cmpxchg16b),
        !mask.has(Feature::F16c),
        !mask.has(Feature::Fxsr),
        !mask.has(Feature::Fma),
        !mask.has(Feature::Gfni),
        !mask.has(Feature::Kl),
        !mask.has(Feature::Lor),
        !mask.has(Feature::Lzcnt),
        !mask.has(Feature::Movbe),
        !mask.has(Feature::Pan),
        !mask.has(Feature::Pclmulqdq),
        !mask.has(Feature::Pmuv3),
        !mask.has(Feature::Popcnt),
        !mask.has(Feature::Ras),
        !mask.has(Feature::Rcpc2),
        !mask.has(Feature::Rdrand),
        !mask.has(Feature::Rdseed),
        !mask.has(Feature::Sha),
        !mask.has(Feature::Spe),
        !mask.has(Feature::Sse),
        !mask.has(Feature::Sse2),
        !mask.has(Feature::Sse3),
        !mask.has(Feature::Sse4_1),
        !mask.has(Feature::Sse4_2),
        !mask.has(Feature::Sse4a),
        !mask.has(Feature::Ssse3),
        !mask.has(Feature::Tbm),
        !mask.has(Feature::Vaes),
        !mask.has(Feature::Vh),
        !mask.has(Feature::Vpclmulqdq),
        !mask.has(Feature::Widekl),
        !mask.has(Feature::Xsave),
        !mask.has(Feature::Xsavec),
        !mask.has(Feature::Xsaveopt),
        !mask.has(Feature::Xsaves),
{
}

} // verus!
