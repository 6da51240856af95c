//! Features of an x86-64 host, from what its `cpuid` and `xgetbv` instructions say.
use crate::feature_mask::{self, Feature, FeatureMask, ALL_FEATURES};
use vstd::prelude::*;

verus! {

/// The four registers that one `cpuid` leaf answers with.
#[derive(Clone, Copy, Debug)]
pub struct CpuidLeaf {
    pub eax: u32,
    pub ebx: u32,
    pub ecx: u32,
    pub edx: u32,
}

/// The `cpuid` leaves that features are read from.
#[derive(Clone, Copy, Debug)]
pub struct X86Cpuid {
    pub leaf1: CpuidLeaf,
    pub leaf7_0: CpuidLeaf,
    pub leaf7_1: CpuidLeaf,
    pub leaf_d_1: CpuidLeaf,
    pub leaf80000001: CpuidLeaf,
}

impl CpuidLeaf {
    /// A leaf with every register zero.
    pub open spec fn zero() -> CpuidLeaf {
        CpuidLeaf { eax: 0, ebx: 0, ecx: 0, edx: 0 }
    }
}

impl Default for CpuidLeaf {
    fn default() -> (leaf: CpuidLeaf)
        ensures
            leaf == CpuidLeaf::zero(),
    {
        CpuidLeaf { eax: 0, ebx: 0, ecx: 0, edx: 0 }
    }
}

impl Default for X86Cpuid {
    fn default() -> (leaves: X86Cpuid)
        ensures
            leaves.leaf1 == CpuidLeaf::zero(),
            leaves.leaf7_0 == CpuidLeaf::zero(),
            leaves.leaf7_1 == CpuidLeaf::zero(),
            leaves.leaf_d_1 == CpuidLeaf::zero(),
            leaves.leaf80000001 == CpuidLeaf::zero(),
    {
        X86Cpuid {
            leaf1: CpuidLeaf::default(),
            leaf7_0: CpuidLeaf::default(),
            leaf7_1: CpuidLeaf::default(),
            leaf_d_1: CpuidLeaf::default(),
            leaf80000001: CpuidLeaf::default(),
        }
    }
}

/// Whether bit `b` of a register is set.
pub open spec fn flag(register: u32, b: u32) -> bool {
    (register & (1u32 << b)) != 0
}

/// Whether the operating system saves the registers that AVX code uses: the CPU
/// has AVX and OSXSAVE, and XCR0 enables the XMM and YMM state.
pub open spec fn avx_state(leaves: X86Cpuid, xcr0: u64) -> bool {
    flag(leaves.leaf1.ecx, 27) && flag(leaves.leaf1.ecx, 28) && (xcr0 & 0b110) == 0b110
}

/// Whether it saves those that AVX-512 code uses too: XCR0 also enables the
/// opmask state and both halves of the ZMM state.
pub open spec fn avx512_state(leaves: X86Cpuid, xcr0: u64) -> bool {
    avx_state(leaves, xcr0) && (xcr0 & 0b1110_0000) == 0b1110_0000
}

/// Whether the host offers the feature to user code.
pub open spec fn x86_offers(leaves: X86Cpuid, xcr0: u64, feature: Feature) -> bool {
    match feature {
        Feature::Sse3 => flag(leaves.leaf1.ecx, 0),
        Feature::Ssse3 => flag(leaves.leaf1.ecx, 9),
        Feature::Fma => flag(leaves.leaf1.ecx, 12),
        Feature::Cmpxchg16b => flag(leaves.leaf1.ecx, 13),
        Feature::Sse4_1 => flag(leaves.leaf1.ecx, 19),
        Feature::Sse4_2 => flag(leaves.leaf1.ecx, 20),
        Feature::Movbe => flag(leaves.leaf1.ecx, 22),
        Feature::Popcnt => flag(leaves.leaf1.ecx, 23),
        Feature::Aes => flag(leaves.leaf1.ecx, 25),
        Feature::Xsave => flag(leaves.leaf1.ecx, 26),
        Feature::F16c => flag(leaves.leaf1.ecx, 29),
        Feature::Rdrand => flag(leaves.leaf1.ecx, 30),
        Feature::Fxsr => flag(leaves.leaf1.edx, 24),
        Feature::Sse => flag(leaves.leaf1.edx, 25),
        Feature::Sse2 => flag(leaves.leaf1.edx, 26),
        Feature::Pclmulqdq => flag(leaves.leaf1.ecx, 1),
        Feature::Avx => avx_state(leaves, xcr0),
        Feature::Avx2 => avx_state(leaves, xcr0) && flag(leaves.leaf7_0.ebx, 5),
        Feature::Bmi1 => flag(leaves.leaf7_0.ebx, 3),
        Feature::Bmi2 => flag(leaves.leaf7_0.ebx, 8),
        Feature::Rdseed => flag(leaves.leaf7_0.ebx, 18),
        Feature::Adx => flag(leaves.leaf7_0.ebx, 19),
        Feature::Sha => flag(leaves.leaf7_0.ebx, 29),
        Feature::Lzcnt => flag(leaves.leaf80000001.ecx, 5),
        Feature::Sse4a => flag(leaves.leaf80000001.ecx, 6),
        Feature::Tbm => flag(leaves.leaf80000001.ecx, 21),
        Feature::Avx512F => avx512_state(leaves, xcr0) && flag(leaves.leaf7_0.ebx, 16),
        Feature::Avx512Dq => avx512_state(leaves, xcr0) && flag(leaves.leaf7_0.ebx, 17),
        Feature::Avx512Ifma => avx512_state(leaves, xcr0) && flag(leaves.leaf7_0.ebx, 21),
        Feature::Avx512Cd => avx512_state(leaves, xcr0) && flag(leaves.leaf7_0.ebx, 28),
        Feature::Avx512Bw => avx512_state(leaves, xcr0) && flag(leaves.leaf7_0.ebx, 30),
        Feature::Avx512Vl => avx512_state(leaves, xcr0) && flag(leaves.leaf7_0.ebx, 31),
        Feature::Avx512Vbmi => avx512_state(leaves, xcr0) && flag(leaves.leaf7_0.ecx, 1),
        Feature::Avx512Vbmi2 => avx512_state(leaves, xcr0) && flag(leaves.leaf7_0.ecx, 6),
        Feature::Avx512Vnni => avx512_state(leaves, xcr0) && flag(leaves.leaf7_0.ecx, 11),
        Feature::Avx512Bitalg => avx512_state(leaves, xcr0) && flag(leaves.leaf7_0.ecx, 12),
        Feature::Avx512Vpopcntdq => avx512_state(leaves, xcr0) && flag(leaves.leaf7_0.ecx, 14),
        Feature::Avx512Vp2intersect => avx512_state(leaves, xcr0) && flag(leaves.leaf7_0.edx, 8),
        Feature::Avx512Fp16 => avx512_state(leaves, xcr0) && flag(leaves.leaf7_0.edx, 22),
        Feature::Avx512Bf16 => avx512_state(leaves, xcr0) && flag(leaves.leaf7_1.eax, 5),
        Feature::Gfni => flag(leaves.leaf7_0.ecx, 8),
        Feature::Vaes => avx_state(leaves, xcr0) && flag(leaves.leaf7_0.ecx, 9),
        Feature::Vpclmulqdq => avx_state(leaves, xcr0) && flag(leaves.leaf7_0.ecx, 10),
        Feature::AvxIfma => avx_state(leaves, xcr0) && flag(leaves.leaf7_0.ecx, 22),
        Feature::AvxNeConvert => avx_state(leaves, xcr0) && flag(leaves.leaf7_0.ecx, 23),
        Feature::AvxVnni => avx_state(leaves, xcr0) && flag(leaves.leaf7_1.eax, 4),
        Feature::AvxVnniInt8 => avx_state(leaves, xcr0) && flag(leaves.leaf7_0.edx, 4),
        Feature::AvxVnniInt16 => avx_state(leaves, xcr0) && flag(leaves.leaf7_0.edx, 5),
        Feature::Widekl => flag(leaves.leaf7_0.ecx, 2),
        Feature::Kl => flag(leaves.leaf7_0.ecx, 23),
        Feature::Sha512 => flag(leaves.leaf7_0.edx, 29),
        Feature::Sm3 => flag(leaves.leaf7_0.edx, 30),
        Feature::Sm4 => flag(leaves.leaf7_0.edx, 31),
        Feature::Xsaveopt => flag(leaves.leaf_d_1.eax, 0),
        Feature::Xsavec => flag(leaves.leaf_d_1.eax, 1),
        Feature::Xsaves => flag(leaves.leaf_d_1.eax, 3),
        _ => false,
    }
}

/// Whether bit `b` of a register is set.
fn bit(register: u32, b: u32) -> (r: bool)
    requires
        b < 32,
    ensures
        r == flag(register, b),
{
    (register & (1u32 << b)) != 0
}

/// Whether user code may read XCR0: the CPU has XSAVE, and the operating system has enabled it.
pub fn can_read_xcr0(leaf1: CpuidLeaf) -> (r: bool)
    ensures
        r == (flag(leaf1.ecx, 26) && flag(leaf1.ecx, 27)),
{
    bit(leaf1.ecx, 26) && bit(leaf1.ecx, 27)
}

/// Whether the host offers the feature to user code.
fn offers(leaves: &X86Cpuid, xcr0: u64, feature: Feature) -> (r: bool)
    ensures
        r == x86_offers(*leaves, xcr0, feature),
{
    let avx = bit(leaves.leaf1.ecx, 27) && bit(leaves.leaf1.ecx, 28) && (xcr0 & 0b110) == 0b110;
    let avx512 = avx && (xcr0 & 0b1110_0000) == 0b1110_0000;
    match feature {
        Feature::Sse3 => bit(leaves.leaf1.ecx, 0),
        Feature::Ssse3 => bit(leaves.leaf1.ecx, 9),
        Feature::Fma => bit(leaves.leaf1.ecx, 12),
        Feature::Cmpxchg16b => bit(leaves.leaf1.ecx, 13),
        Feature::Sse4_1 => bit(leaves.leaf1.ecx, 19),
        Feature::Sse4_2 => bit(leaves.leaf1.ecx, 20),
        Feature::Movbe => bit(leaves.leaf1.ecx, 22),
        Feature::Popcnt => bit(leaves.leaf1.ecx, 23),
        Feature::Aes => bit(leaves.leaf1.ecx, 25),
        Feature::Xsave => bit(leaves.leaf1.ecx, 26),
        Feature::F16c => bit(leaves.leaf1.ecx, 29),
        Feature::Rdrand => bit(leaves.leaf1.ecx, 30),
        Feature::Fxsr => bit(leaves.leaf1.edx, 24),
        Feature::Sse => bit(leaves.leaf1.edx, 25),
        Feature::Sse2 => bit(leaves.leaf1.edx, 26),
        Feature::Pclmulqdq => bit(leaves.leaf1.ecx, 1),
        Feature::Avx => avx,
        Feature::Avx2 => avx && bit(leaves.leaf7_0.ebx, 5),
        Feature::Bmi1 => bit(leaves.leaf7_0.ebx, 3),
        Feature::Bmi2 => bit(leaves.leaf7_0.ebx, 8),
        Feature::Rdseed => bit(leaves.leaf7_0.ebx, 18),
        Feature::Adx => bit(leaves.leaf7_0.ebx, 19),
        Feature::Sha => bit(leaves.leaf7_0.ebx, 29),
        Feature::Lzcnt => bit(leaves.leaf80000001.ecx, 5),
        Feature::Sse4a => bit(leaves.leaf80000001.ecx, 6),
        Feature::Tbm => bit(leaves.leaf80000001.ecx, 21),
        Feature::Avx512F => avx512 && bit(leaves.leaf7_0.ebx, 16),
        Feature::Avx512Dq => avx512 && bit(leaves.leaf7_0.ebx, 17),
        Feature::Avx512Ifma => avx512 && bit(leaves.leaf7_0.ebx, 21),
        Feature::Avx512Cd => avx512 && bit(leaves.leaf7_0.ebx, 28),
        Feature::Avx512Bw => avx512 && bit(leaves.leaf7_0.ebx, 30),
        Feature::Avx512Vl => avx512 && bit(leaves.leaf7_0.ebx, 31),
        Feature::Avx512Vbmi => avx512 && bit(leaves.leaf7_0.ecx, 1),
        Feature::Avx512Vbmi2 => avx512 && bit(leaves.leaf7_0.ecx, 6),
        Feature::Avx512Vnni => avx512 && bit(leaves.leaf7_0.ecx, 11),
        Feature::Avx512Bitalg => avx512 && bit(leaves.leaf7_0.ecx, 12),
        Feature::Avx512Vpopcntdq => avx512 && bit(leaves.leaf7_0.ecx, 14),
        Feature::Avx512Vp2intersect => avx512 && bit(leaves.leaf7_0.edx, 8),
        Feature::Avx512Fp16 => avx512 && bit(leaves.leaf7_0.edx, 22),
        Feature::Avx512Bf16 => avx512 && bit(leaves.leaf7_1.eax, 5),
        Feature::Gfni => bit(leaves.leaf7_0.ecx, 8),
        Feature::Vaes => avx && bit(leaves.leaf7_0.ecx, 9),
        Feature::Vpclmulqdq => avx && bit(leaves.leaf7_0.ecx, 10),
        Feature::AvxIfma => avx && bit(leaves.leaf7_0.ecx, 22),
        Feature::AvxNeConvert => avx && bit(leaves.leaf7_0.ecx, 23),
        Feature::AvxVnni => avx && bit(leaves.leaf7_1.eax, 4),
        Feature::AvxVnniInt8 => avx && bit(leaves.leaf7_0.edx, 4),
        Feature::AvxVnniInt16 => avx && bit(leaves.leaf7_0.edx, 5),
        Feature::Widekl => bit(leaves.leaf7_0.ecx, 2),
        Feature::Kl => bit(leaves.leaf7_0.ecx, 23),
        Feature::Sha512 => bit(leaves.leaf7_0.edx, 29),
        Feature::Sm3 => bit(leaves.leaf7_0.edx, 30),
        Feature::Sm4 => bit(leaves.leaf7_0.edx, 31),
        Feature::Xsaveopt => bit(leaves.leaf_d_1.eax, 0),
        Feature::Xsavec => bit(leaves.leaf_d_1.eax, 1),
        Feature::Xsaves => bit(leaves.leaf_d_1.eax, 3),
        _ => false,
    }
}

/// The features that an x86-64 host offers, given its `cpuid` leaves and XCR0.
pub fn detect_x86_features_from_cpuid(leaves: X86Cpuid, xcr0: u64) -> (mask: FeatureMask)
    ensures
        forall|f: Feature| #[trigger] mask.has(f) == x86_offers(leaves, xcr0, f),
        forall|i: int| mask@.contains(i) ==> 0 <= i < ALL_FEATURES@.len(),
{
    let mut out = FeatureMask::empty();
    let mut i: usize = 0;
    while i < ALL_FEATURES.len()
        invariant
            i <= ALL_FEATURES@.len(),
            forall|f: Feature| #[trigger]
                out.has(f) == ((f as int) < i && x86_offers(leaves, xcr0, f)),
            forall|b: int| out@.contains(b) ==> 0 <= b < i,
        decreases ALL_FEATURES@.len() - i,
    {
        let feature = ALL_FEATURES[i];
        let ghost before = out;
        assert(feature as int == i);
        if offers(&leaves, xcr0, feature) {
            out.insert(feature);
        }
        assert forall|f: Feature| #[trigger]
            out.has(f) == ((f as int) < i + 1 && x86_offers(leaves, xcr0, f)) by {
            assert(before.has(f) == ((f as int) < i && x86_offers(leaves, xcr0, f)));
            feature_mask::feature_bits(f, feature);
        }
        i += 1;
    }
    out
}

/// AVX and everything that builds on its registers is offered only where the
/// operating system saves them.
pub proof fn avx_needs_saved_state(leaves: X86Cpuid, xcr0: u64, feature: Feature)
    requires
        feature == Feature::Avx || feature == Feature::Avx2 || feature == Feature::Vaes || feature
            == Feature::Vpclmulqdq || feature == Feature::AvxIfma || feature
            == Feature::AvxNeConvert || feature == Feature::AvxVnni || feature
            == Feature::AvxVnniInt8 || feature == Feature::AvxVnniInt16,
        x86_offers(leaves, xcr0, feature),
    ensures
        avx_state(leaves, xcr0),
{
}

/// Every AVX-512 feature is offered only where the operating system saves the
/// opmask and ZMM registers, and then AVX is offered as well.
pub proof fn avx512_needs_saved_state(leaves: X86Cpuid, xcr0: u64, feature: Feature)
    requires
        ({
            ||| feature == Feature::Avx512F
            ||| feature == Feature::Avx512Dq
            ||| feature == Feature::Avx512Ifma
            ||| feature == Feature::Avx512Cd
            ||| feature == Feature::Avx512Bw
            ||| feature == Feature::Avx512Vl
            ||| feature == Feature::Avx512Vbmi
            ||| feature == Feature::Avx512Vbmi2
            ||| feature == Feature::Avx512Vnni
            ||| feature == Feature::Avx512Bitalg
            ||| feature == Feature::Avx512Vpopcntdq
            ||| feature == Feature::Avx512Vp2intersect
            ||| feature == Feature::Avx512Fp16
            ||| feature == Feature::Avx512Bf16
        }),
        x86_offers(leaves, xcr0, feature),
    ensures
        avx512_state(leaves, xcr0),
        x86_offers(leaves, xcr0, Feature::Avx),
{
}

/// A host whose leaves are all zero offers nothing.
pub proof fn zero_leaves_offer_nothing(leaves: X86Cpuid, xcr0: u64, feature: Feature)
    requires
        leaves.leaf1 == CpuidLeaf::zero(),
        leaves.leaf7_0 == CpuidLeaf::zero(),
        leaves.leaf7_1 == CpuidLeaf::zero(),
        leaves.leaf_d_1 == CpuidLeaf::zero(),
        leaves.leaf80000001 == CpuidLeaf::zero(),
    ensures
        !x86_offers(leaves, xcr0, feature),
{
    assert forall|b: u32| !flag(0, b) by {
        assert(0u32 & (1u32 << b) == 0) by (bit_vector);
    }
}

/// Whether every bit of the registers of `a` is set in `b` too.
pub open spec fn leaf_within(a: CpuidLeaf, b: CpuidLeaf) -> bool {
    &&& a.eax & b.eax == a.eax
    &&& a.ebx & b.ebx == a.ebx
    &&& a.ecx & b.ecx == a.ecx
    &&& a.edx & b.edx == a.edx
}

/// Whether every bit of the leaves of `a` is set in `b` too.
pub open spec fn leaves_within(a: X86Cpuid, b: X86Cpuid) -> bool {
    &&& leaf_within(a.leaf1, b.leaf1)
    &&& leaf_within(a.leaf7_0, b.leaf7_0)
    &&& leaf_within(a.leaf7_1, b.leaf7_1)
    &&& leaf_within(a.leaf_d_1, b.leaf_d_1)
    &&& leaf_within(a.leaf80000001, b.leaf80000001)
}

/// More bits in the registers never take a feature away.
pub proof fn more_bits_offer_more(
    fewer: X86Cpuid,
    fewer_xcr0: u64,
    more: X86Cpuid,
    more_xcr0: u64,
    feature: Feature,
)
    requires
        leaves_within(fewer, more),
        fewer_xcr0 & more_xcr0 == fewer_xcr0,
        x86_offers(fewer, fewer_xcr0, feature),
    ensures
        x86_offers(more, more_xcr0, feature),
{
    assert forall|r: u32, s: u32, b: u32| r & s == r && #[trigger] flag(r, b) implies #[trigger] flag(
        s,
        b,
    ) by {
        assert(r & s == r && (r & (1u32 << b)) != 0 ==> (s & (1u32 << b)) != 0) by (bit_vector);
    }
    assert(fewer_xcr0 & more_xcr0 == fewer_xcr0 && fewer_xcr0 & 0b110 == 0b110 ==> more_xcr0 & 0b110
        == 0b110) by (bit_vector);
    assert(fewer_xcr0 & more_xcr0 == fewer_xcr0 && fewer_xcr0 & 0b1110_0000 == 0b1110_0000
        ==> more_xcr0 & 0b1110_0000 == 0b1110_0000) by (bit_vector);
}

// ---------------------------------------------------------------------------
// Which bit announces which feature

/// The registers as masks: what bit `b` of a register is, and which bits stand for the saved
/// state.
proof fn masks_of_bits(ecx: u32, xcr0: u64)
    ensures
        forall|r: u32| #[trigger] flag(r, 0) == (r & 0x0000_0001 != 0),
        forall|r: u32| #[trigger] flag(r, 1) == (r & 0x0000_0002 != 0),
        forall|r: u32| #[trigger] flag(r, 2) == (r & 0x0000_0004 != 0),
        forall|r: u32| #[trigger] flag(r, 3) == (r & 0x0000_0008 != 0),
        forall|r: u32| #[trigger] flag(r, 4) == (r & 0x0000_0010 != 0),
        forall|r: u32| #[trigger] flag(r, 5) == (r & 0x0000_0020 != 0),
        forall|r: u32| #[trigger] flag(r, 6) == (r & 0x0000_0040 != 0),
        forall|r: u32| #[trigger] flag(r, 7) == (r & 0x0000_0080 != 0),
        forall|r: u32| #[trigger] flag(r, 8) == (r & 0x0000_0100 != 0),
        forall|r: u32| #[trigger] flag(r, 9) == (r & 0x0000_0200 != 0),
        forall|r: u32| #[trigger] flag(r, 10) == (r & 0x0000_0400 != 0),
        forall|r: u32| #[trigger] flag(r, 11) == (r & 0x0000_0800 != 0),
        forall|r: u32| #[trigger] flag(r, 12) == (r & 0x0000_1000 != 0),
        forall|r: u32| #[trigger] flag(r, 13) == (r & 0x0000_2000 != 0),
        forall|r: u32| #[trigger] flag(r, 14) == (r & 0x0000_4000 != 0),
        forall|r: u32| #[trigger] flag(r, 15) == (r & 0x0000_8000 != 0),
        forall|r: u32| #[trigger] flag(r, 16) == (r & 0x0001_0000 != 0),
        forall|r: u32| #[trigger] flag(r, 17) == (r & 0x0002_0000 != 0),
        forall|r: u32| #[trigger] flag(r, 18) == (r & 0x0004_0000 != 0),
        forall|r: u32| #[trigger] flag(r, 19) == (r & 0x0008_0000 != 0),
        forall|r: u32| #[trigger] flag(r, 20) == (r & 0x0010_0000 != 0),
        forall|r: u32| #[trigger] flag(r, 21) == (r & 0x0020_0000 != 0),
        forall|r: u32| #[trigger] flag(r, 22) == (r & 0x0040_0000 != 0),
        forall|r: u32| #[trigger] flag(r, 23) == (r & 0x0080_0000 != 0),
        forall|r: u32| #[trigger] flag(r, 24) == (r & 0x0100_0000 != 0),
        forall|r: u32| #[trigger] flag(r, 25) == (r & 0x0200_0000 != 0),
        forall|r: u32| #[trigger] flag(r, 26) == (r & 0x0400_0000 != 0),
        forall|r: u32| #[trigger] flag(r, 27) == (r & 0x0800_0000 != 0),
        forall|r: u32| #[trigger] flag(r, 28) == (r & 0x1000_0000 != 0),
        forall|r: u32| #[trigger] flag(r, 29) == (r & 0x2000_0000 != 0),
        forall|r: u32| #[trigger] flag(r, 30) == (r & 0x4000_0000 != 0),
        forall|r: u32| #[trigger] flag(r, 31) == (r & 0x8000_0000 != 0),
        (flag(ecx, 27) && flag(ecx, 28)) == (ecx & 0x1800_0000 == 0x1800_0000),
        (xcr0 & 0b110 == 0b110 && xcr0 & 0b1110_0000 == 0b1110_0000) == (xcr0 & 0xe6 == 0xe6),
{
    assert(1u32 << 0 == 0x1 && 1u32 << 1 == 0x2 && 1u32 << 2 == 0x4 && 1u32 << 3 == 0x8 && 1u32 << 4 == 0x10 && 1u32 << 5 == 0x20 && 1u32 << 6 == 0x40 && 1u32 << 7 == 0x80 && 1u32 << 8 == 0x100 && 1u32 << 9 == 0x200 && 1u32 << 10 == 0x400 && 1u32 << 11 == 0x800 && 1u32 << 12 == 0x1000 && 1u32 << 13 == 0x2000 && 1u32 << 14 == 0x4000 && 1u32 << 15 == 0x8000 && 1u32 << 16 == 0x10000 && 1u32 << 17 == 0x20000 && 1u32 << 18 == 0x40000 && 1u32 << 19 == 0x80000 && 1u32 << 20 == 0x100000 && 1u32 << 21 == 0x200000 && 1u32 << 22 == 0x400000 && 1u32 << 23 == 0x800000 && 1u32 << 24 == 0x1000000 && 1u32 << 25 == 0x2000000 && 1u32 << 26 == 0x4000000 && 1u32 << 27 == 0x8000000 && 1u32 << 28 == 0x10000000 && 1u32 << 29 == 0x20000000 && 1u32 << 30 == 0x40000000 && 1u32 << 31 == 0x80000000) by (bit_vector);
    assert((ecx & 0x0800_0000 != 0 && ecx & 0x1000_0000 != 0) == (ecx & 0x1800_0000 == 0x1800_0000)
        && (xcr0 & 0b110 == 0b110 && xcr0 & 0b1110_0000 == 0b1110_0000) == (xcr0 & 0xe6 == 0xe6))
        by (bit_vector);
}

/// A feature that uses no registers of its own is found if and only if the bit that announces
/// it is set, whatever the other bits and XCR0 are.
pub proof fn one_bit_announces_a_feature(leaves: X86Cpuid, xcr0: u64, mask: FeatureMask)
    requires
        call_ensures(detect_x86_features_from_cpuid, (leaves, xcr0), mask),
    ensures
        mask.has(Feature::Sse3) == (leaves.leaf1.ecx & 0x0000_0001 != 0),
        mask.has(Feature::Ssse3) == (leaves.leaf1.ecx & 0x0000_0200 != 0),
        mask.has(Feature::Fma) == (leaves.leaf1.ecx & 0x0000_1000 != 0),
        mask.has(Feature::Cmpxchg16b) == (leaves.leaf1.ecx & 0x0000_2000 != 0),
        mask.has(Feature::Sse4_1) == (leaves.leaf1.ecx & 0x0008_0000 != 0),
        mask.has(Feature::Sse4_2) == (leaves.leaf1.ecx & 0x0010_0000 != 0),
        mask.has(Feature::Movbe) == (leaves.leaf1.ecx & 0x0040_0000 != 0),
        mask.has(Feature::Popcnt) == (leaves.leaf1.ecx & 0x0080_0000 != 0),
        mask.has(Feature::Aes) == (leaves.leaf1.ecx & 0x0200_0000 != 0),
        mask.has(Feature::Xsave) == (leaves.leaf1.ecx & 0x0400_0000 != 0),
        mask.has(Feature::F16c) == (leaves.leaf1.ecx & 0x2000_0000 != 0),
        mask.has(Feature::Rdrand) == (leaves.leaf1.ecx & 0x4000_0000 != 0),
        mask.has(Feature::Fxsr) == (leaves.leaf1.edx & 0x0100_0000 != 0),
        mask.has(Feature::Sse) == (leaves.leaf1.edx & 0x0200_0000 != 0),
        mask.has(Feature::Sse2) == (leaves.leaf1.edx & 0x0400_0000 != 0),
        mask.has(Feature::Pclmulqdq) == (leaves.leaf1.ecx & 0x0000_0002 != 0),
        mask.has(Feature::Bmi1) == (leaves.leaf7_0.ebx & 0x0000_0008 != 0),
        mask.has(Feature::Bmi2) == (leaves.leaf7_0.ebx & 0x0000_0100 != 0),
        mask.has(Feature::Rdseed) == (leaves.leaf7_0.ebx & 0x0004_0000 != 0),
        mask.has(Feature::Adx) == (leaves.leaf7_0.ebx & 0x0008_0000 != 0),
        mask.has(Feature::Sha) == (leaves.leaf7_0.ebx & 0x2000_0000 != 0),
        mask.has(Feature::Lzcnt) == (leaves.leaf80000001.ecx & 0x0000_0020 != 0),
        mask.has(Feature::Sse4a) == (leaves.leaf80000001.ecx & 0x0000_0040 != 0),
        mask.has(Feature::Tbm) == (leaves.leaf80000001.ecx & 0x0020_0000 != 0),
        mask.has(Feature::Gfni) == (leaves.leaf7_0.ecx & 0x0000_0100 != 0),
        mask.has(Feature::Widekl) == (leaves.leaf7_0.ecx & 0x0000_0004 != 0),
        mask.has(Feature::Kl) == (leaves.leaf7_0.ecx & 0x0080_0000 != 0),
        mask.has(Feature::Sha512) == (leaves.leaf7_0.edx & 0x2000_0000 != 0),
        mask.has(Feature::Sm3) == (leaves.leaf7_0.edx & 0x4000_0000 != 0),
        mask.has(Feature::Sm4) == (leaves.leaf7_0.edx & 0x8000_0000 != 0),
        mask.has(Feature::Xsaveopt) == (leaves.leaf_d_1.eax & 0x0000_0001 != 0),
        mask.has(Feature::Xsavec) == (leaves.leaf_d_1.eax & 0x0000_0002 != 0),
        mask.has(Feature::Xsaves) == (leaves.leaf_d_1.eax & 0x0000_0008 != 0),
{
    masks_of_bits(leaves.leaf1.ecx, xcr0);
}

/// A feature that uses the registers of AVX is found if and only if the bit that announces it
/// is set, the processor has OSXSAVE and AVX, and XCR0 enables the XMM and YMM state.
pub proof fn one_bit_and_saved_registers_announce_avx(
    leaves: X86Cpuid,
    xcr0: u64,
    mask: FeatureMask,
)
    requires
        call_ensures(detect_x86_features_from_cpuid, (leaves, xcr0), mask),
    ensures
        ({
            let saved = leaves.leaf1.ecx & 0x1800_0000 == 0x1800_0000 && xcr0 & 0x06 == 0x06;
            &&& mask.has(Feature::Avx) == saved
            &&& mask.has(Feature::Avx2) == (leaves.leaf7_0.ebx & 0x0000_0020 != 0 && saved)
            &&& mask.has(Feature::Vaes) == (leaves.leaf7_0.ecx & 0x0000_0200 != 0 && saved)
            &&& mask.has(Feature::Vpclmulqdq) == (leaves.leaf7_0.ecx & 0x0000_0400 != 0 && saved)
            &&& mask.has(Feature::AvxIfma) == (leaves.leaf7_0.ecx & 0x0040_0000 != 0 && saved)
            &&& mask.has(Feature::AvxNeConvert) == (leaves.leaf7_0.ecx & 0x0080_0000 != 0 && saved)
            &&& mask.has(Feature::AvxVnni) == (leaves.leaf7_1.eax & 0x0000_0010 != 0 && saved)
            &&& mask.has(Feature::AvxVnniInt8) == (leaves.leaf7_0.edx & 0x0000_0010 != 0 && saved)
            &&& mask.has(Feature::AvxVnniInt16) == (leaves.leaf7_0.edx & 0x0000_0020 != 0 && saved)
        }),
{
    masks_of_bits(leaves.leaf1.ecx, xcr0);
}

/// A feature that uses the registers of AVX-512 is found if and only if the bit that announces
/// it is set, the processor has OSXSAVE and AVX, and XCR0 enables the XMM, YMM, opmask and ZMM
/// state.
pub proof fn one_bit_and_saved_registers_announce_avx512(
    leaves: X86Cpuid,
    xcr0: u64,
    mask: FeatureMask,
)
    requires
        call_ensures(detect_x86_features_from_cpuid, (leaves, xcr0), mask),
    ensures
        ({
            let saved = leaves.leaf1.ecx & 0x1800_0000 == 0x1800_0000 && xcr0 & 0xe6 == 0xe6;
            &&& mask.has(Feature::Avx512F) == (leaves.leaf7_0.ebx & 0x0001_0000 != 0 && saved)
            &&& mask.has(Feature::Avx512Dq) == (leaves.leaf7_0.ebx & 0x0002_0000 != 0 && saved)
            &&& mask.has(Feature::Avx512Ifma) == (leaves.leaf7_0.ebx & 0x0020_0000 != 0 && saved)
            &&& mask.has(Feature::Avx512Cd) == (leaves.leaf7_0.ebx & 0x1000_0000 != 0 && saved)
            &&& mask.has(Feature::Avx512Bw) == (leaves.leaf7_0.ebx & 0x4000_0000 != 0 && saved)
            &&& mask.has(Feature::Avx512Vl) == (leaves.leaf7_0.ebx & 0x8000_0000 != 0 && saved)
            &&& mask.has(Feature::Avx512Vbmi) == (leaves.leaf7_0.ecx & 0x0000_0002 != 0 && saved)
            &&& mask.has(Feature::Avx512Vbmi2) == (leaves.leaf7_0.ecx & 0x0000_0040 != 0 && saved)
            &&& mask.has(Feature::Avx512Vnni) == (leaves.leaf7_0.ecx & 0x0000_0800 != 0 && saved)
            &&& mask.has(Feature::Avx512Bitalg) == (leaves.leaf7_0.ecx & 0x0000_1000 != 0 && saved)
            &&& mask.has(Feature::Avx512Vpopcntdq) == (leaves.leaf7_0.ecx & 0x0000_4000 != 0 && saved)
            &&& mask.has(Feature::Avx512Vp2intersect) == (leaves.leaf7_0.edx & 0x0000_0100 != 0 && saved)
            &&& mask.has(Feature::Avx512Fp16) == (leaves.leaf7_0.edx & 0x0040_0000 != 0 && saved)
            &&& mask.has(Feature::Avx512Bf16) == (leaves.leaf7_1.eax & 0x0000_0020 != 0 && saved)
        }),
{
    masks_of_bits(leaves.leaf1.ecx, xcr0);
}

/// What only AArch64 has is never found on an x86-64 host.
pub proof fn x86_has_no_aarch64_feature(leaves: X86Cpuid, xcr0: u64, mask: FeatureMask)
    requires
        call_ensures(detect_x86_features_from_cpuid, (leaves, xcr0), mask),
    ensures
        !mask.has(Feature::Asimd),
        !mask.has(Feature::Bf16),
        !mask.has(Feature::Bti),
        !mask.has(Feature::Crc),
        !mask.has(Feature::Dit),
        !mask.has(Feature::Dotprod),
        !mask.has(Feature::Dpb),
        !mask.has(Feature::Dpb2),
        !mask.has(Feature::Fcma),
        !mask.has(Feature::Fhm),
        !mask.has(Feature::Flagm),
        !mask.has(Feature::Fp16),
        !mask.has(Feature::Frintts),
        !mask.has(Feature::I8mm),
        !mask.has(Feature::Jsconv),
        !mask.has(Feature::Lor),
        !mask.has(Feature::Lse),
        !mask.has(Feature::Mte),
        !mask.has(Feature::Paca),
        !mask.has(Feature::Pacg),
        !mask.has(Feature::Pan),
        !mask.has(Feature::Pmuv3),
        !mask.has(Feature::Rand),
        !mask.has(Feature::Ras),
        !mask.has(Feature::Rcpc),
        !mask.has(Feature::Rcpc2),
        !mask.has(Feature::Rdm),
        !mask.has(Feature::Sb),
        !mask.has(Feature::Sha2),
        !mask.has(Feature::Sha3),
        !mask.has(Feature::Spe),
        !mask.has(Feature::Ssbs),
        !mask.has(Feature::Sve),
        !mask.has(Feature::Sve2),
        !mask.has(Feature::Vh),
{
}

/// User code may read XCR0 if and only if the processor has XSAVE and the system enabled it.
pub proof fn xcr0_needs_xsave(leaf1: CpuidLeaf, r: bool)
    requires
        call_ensures(can_read_xcr0, (leaf1,), r),
    ensures
        r == (leaf1.ecx & 0x0c00_0000 == 0x0c00_0000),
{
    masks_of_bits(leaf1.ecx, 0);
    let ecx = leaf1.ecx;
    assert((ecx & 0x0400_0000 != 0 && ecx & 0x0800_0000 != 0) == (ecx & 0x0c00_0000 == 0x0c00_0000))
        by (bit_vector);
}

} // verus!
