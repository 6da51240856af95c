//! The modules of the generated loader that are the same for every build. The loader is
//! compiled on its own, without this crate, so they are kept as text, each with its tests.
use crate::loader_tests::{
    ARCH_AARCH64_TESTS, ARCH_X86_64_TESTS_FIRST, ARCH_X86_64_TESTS_FOURTH,
    ARCH_X86_64_TESTS_SECOND, ARCH_X86_64_TESTS_THIRD, FEATURE_TESTS_FIRST, FEATURE_TESTS_SECOND,
    SELECT_TESTS_FIFTH, SELECT_TESTS_FIRST, SELECT_TESTS_FOURTH, SELECT_TESTS_SECOND,
    SELECT_TESTS_THIRD,
};
use vstd::prelude::*;
use vstd::string::StringExecFns;

verus! {

/// The set of features.
pub const FEATURE_SET: &'static str = r#"#[derive(Clone, Copy, Debug, Eq, PartialEq)]
pub struct FeatureMask {
    words: [u64; 2],
}

impl FeatureMask {
    pub const EMPTY: Self = Self { words: [0; 2] };

    pub const fn from_words(words: [u64; 2]) -> Self {
        Self { words }
    }

    pub const fn words(self) -> [u64; 2] {
        self.words
    }

    pub const fn contains(self, feature: Feature) -> bool {
        let bit = feature as usize;
        (self.words[bit / 64] & (1u64 << (bit % 64))) != 0
    }

    pub fn insert(&mut self, feature: Feature) {
        let bit = feature as usize;
        self.words[bit / 64] |= 1u64 << (bit % 64);
    }

    pub const fn union(self, other: Self) -> Self {
        Self {
            words: [
                self.words[0] | other.words[0],
                self.words[1] | other.words[1],
            ],
        }
    }

    pub const fn is_subset_of(self, host: Self) -> bool {
        (self.words[0] & !host.words[0]) == 0 && (self.words[1] & !host.words[1]) == 0
    }

    pub const fn count(self) -> u16 {
        self.words[0].count_ones() as u16 + self.words[1].count_ones() as u16
    }
}

#[repr(u8)]
#[derive(Clone, Copy, Debug, Eq, PartialEq)]
pub enum Feature {
    Adx,
    Aes,
    Asimd,
    Avx,
    Avx2,
    Avx512Bf16,
    Avx512Bitalg,
    Avx512Bw,
    Avx512Cd,
    Avx512Dq,
    Avx512F,
    Avx512Fp16,
    Avx512Ifma,
    Avx512Vbmi,
    Avx512Vbmi2,
    Avx512Vl,
    Avx512Vnni,
    Avx512Vp2intersect,
    Avx512Vpopcntdq,
    AvxIfma,
    AvxNeConvert,
    AvxVnni,
    AvxVnniInt16,
    AvxVnniInt8,
    Bf16,
    Bmi1,
    Bmi2,
    Bti,
    Cmpxchg16b,
    Crc,
    Dit,
    Dotprod,
    Dpb,
    Dpb2,
    F16c,
    Fcma,
    Fxsr,
    Fhm,
    Flagm,
    Fma,
    Fp16,
    Frintts,
    Gfni,
    I8mm,
    Jsconv,
    Kl,
    Lor,
    Lse,
    Lzcnt,
    Movbe,
    Mte,
    Paca,
    Pacg,
    Pan,
    Pclmulqdq,
    Pmuv3,
    Popcnt,
    Rand,
    Ras,
    Rcpc,
    Rcpc2,
    Rdm,
    Rdrand,
    Rdseed,
    Sb,
    Sha,
    Sha2,
    Sha3,
    Sha512,
    Sm3,
    Sm4,
    Spe,
    Sse,
    Sse2,
    Sse3,
    Sse4_1,
    Sse4_2,
    Sse4a,
    Ssbs,
    Ssse3,
    Sve,
    Sve2,
    Tbm,
    Vaes,
    Vh,
    Vpclmulqdq,
    Widekl,
    Xsave,
    Xsavec,
    Xsaveopt,
    Xsaves,
}

"#;

/// Features by name.
pub const FEATURE_BY_NAME: &'static str = r#"pub fn feature_by_name(name: &str) -> Option<Feature> {
    Some(match name {
        "adx" => Feature::Adx,
        "aes" => Feature::Aes,
        "asimd" | "neon" => Feature::Asimd,
        "avx" => Feature::Avx,
        "avx2" => Feature::Avx2,
        "avx512bf16" => Feature::Avx512Bf16,
        "avx512bitalg" => Feature::Avx512Bitalg,
        "avx512bw" => Feature::Avx512Bw,
        "avx512cd" => Feature::Avx512Cd,
        "avx512dq" => Feature::Avx512Dq,
        "avx512f" => Feature::Avx512F,
        "avx512fp16" => Feature::Avx512Fp16,
        "avx512ifma" => Feature::Avx512Ifma,
        "avx512vbmi" => Feature::Avx512Vbmi,
        "avx512vbmi2" => Feature::Avx512Vbmi2,
        "avx512vl" => Feature::Avx512Vl,
        "avx512vnni" => Feature::Avx512Vnni,
        "avx512vp2intersect" => Feature::Avx512Vp2intersect,
        "avx512vpopcntdq" => Feature::Avx512Vpopcntdq,
        "avxifma" => Feature::AvxIfma,
        "avxneconvert" => Feature::AvxNeConvert,
        "avxvnni" => Feature::AvxVnni,
        "avxvnniint16" => Feature::AvxVnniInt16,
        "avxvnniint8" => Feature::AvxVnniInt8,
        "bf16" => Feature::Bf16,
        "bmi1" => Feature::Bmi1,
        "bmi2" => Feature::Bmi2,
        "bti" => Feature::Bti,
        "cmpxchg16b" => Feature::Cmpxchg16b,
        "crc" => Feature::Crc,
        "dit" => Feature::Dit,
        "dotprod" => Feature::Dotprod,
        "dpb" => Feature::Dpb,
        "dpb2" => Feature::Dpb2,
        "f16c" => Feature::F16c,
        "fcma" => Feature::Fcma,
        "fxsr" => Feature::Fxsr,
        "fhm" => Feature::Fhm,
        "flagm" => Feature::Flagm,
        "fma" => Feature::Fma,
        "fp16" => Feature::Fp16,
        "frintts" => Feature::Frintts,
        "gfni" => Feature::Gfni,
        "i8mm" => Feature::I8mm,
        "jsconv" => Feature::Jsconv,
        "kl" => Feature::Kl,
        "lor" => Feature::Lor,
        "lse" => Feature::Lse,
        "lzcnt" => Feature::Lzcnt,
        "movbe" => Feature::Movbe,
        "mte" => Feature::Mte,
        "paca" => Feature::Paca,
        "pacg" => Feature::Pacg,
        "pan" => Feature::Pan,
        "pclmulqdq" => Feature::Pclmulqdq,
        "pmuv3" => Feature::Pmuv3,
        "popcnt" => Feature::Popcnt,
        "rand" => Feature::Rand,
        "ras" => Feature::Ras,
        "rcpc" => Feature::Rcpc,
        "rcpc2" => Feature::Rcpc2,
        "rdm" => Feature::Rdm,
        "rdrand" => Feature::Rdrand,
        "rdseed" => Feature::Rdseed,
        "sb" => Feature::Sb,
        "sha" => Feature::Sha,
        "sha2" => Feature::Sha2,
        "sha3" => Feature::Sha3,
        "sha512" => Feature::Sha512,
        "sm3" => Feature::Sm3,
        "sm4" => Feature::Sm4,
        "spe" => Feature::Spe,
        "sse" => Feature::Sse,
        "sse2" => Feature::Sse2,
        "sse3" => Feature::Sse3,
        "sse4.1" => Feature::Sse4_1,
        "sse4.2" => Feature::Sse4_2,
        "sse4a" => Feature::Sse4a,
        "ssbs" => Feature::Ssbs,
        "ssse3" => Feature::Ssse3,
        "sve" => Feature::Sve,
        "sve2" => Feature::Sve2,
        "tbm" => Feature::Tbm,
        "vaes" => Feature::Vaes,
        "vh" => Feature::Vh,
        "vpclmulqdq" => Feature::Vpclmulqdq,
        "widekl" => Feature::Widekl,
        "xsave" => Feature::Xsave,
        "xsavec" => Feature::Xsavec,
        "xsaveopt" => Feature::Xsaveopt,
        "xsaves" => Feature::Xsaves,
        _ => return None,
    })
}

"#;

/// The names of features.
pub const FEATURE_NAMES: &'static str = r#"pub fn feature_name(feature: Feature) -> &'static str {
    match feature {
        Feature::Adx => "adx",
        Feature::Aes => "aes",
        Feature::Asimd => "neon",
        Feature::Avx => "avx",
        Feature::Avx2 => "avx2",
        Feature::Avx512Bf16 => "avx512bf16",
        Feature::Avx512Bitalg => "avx512bitalg",
        Feature::Avx512Bw => "avx512bw",
        Feature::Avx512Cd => "avx512cd",
        Feature::Avx512Dq => "avx512dq",
        Feature::Avx512F => "avx512f",
        Feature::Avx512Fp16 => "avx512fp16",
        Feature::Avx512Ifma => "avx512ifma",
        Feature::Avx512Vbmi => "avx512vbmi",
        Feature::Avx512Vbmi2 => "avx512vbmi2",
        Feature::Avx512Vl => "avx512vl",
        Feature::Avx512Vnni => "avx512vnni",
        Feature::Avx512Vp2intersect => "avx512vp2intersect",
        Feature::Avx512Vpopcntdq => "avx512vpopcntdq",
        Feature::AvxIfma => "avxifma",
        Feature::AvxNeConvert => "avxneconvert",
        Feature::AvxVnni => "avxvnni",
        Feature::AvxVnniInt16 => "avxvnniint16",
        Feature::AvxVnniInt8 => "avxvnniint8",
        Feature::Bf16 => "bf16",
        Feature::Bmi1 => "bmi1",
        Feature::Bmi2 => "bmi2",
        Feature::Bti => "bti",
        Feature::Cmpxchg16b => "cmpxchg16b",
        Feature::Crc => "crc",
        Feature::Dit => "dit",
        Feature::Dotprod => "dotprod",
        Feature::Dpb => "dpb",
        Feature::Dpb2 => "dpb2",
        Feature::F16c => "f16c",
        Feature::Fcma => "fcma",
        Feature::Fxsr => "fxsr",
        Feature::Fhm => "fhm",
        Feature::Flagm => "flagm",
        Feature::Fma => "fma",
        Feature::Fp16 => "fp16",
        Feature::Frintts => "frintts",
        Feature::Gfni => "gfni",
        Feature::I8mm => "i8mm",
        Feature::Jsconv => "jsconv",
        Feature::Kl => "kl",
        Feature::Lor => "lor",
        Feature::Lse => "lse",
        Feature::Lzcnt => "lzcnt",
        Feature::Movbe => "movbe",
        Feature::Mte => "mte",
        Feature::Paca => "paca",
        Feature::Pacg => "pacg",
        Feature::Pan => "pan",
        Feature::Pclmulqdq => "pclmulqdq",
        Feature::Pmuv3 => "pmuv3",
        Feature::Popcnt => "popcnt",
        Feature::Rand => "rand",
        Feature::Ras => "ras",
        Feature::Rcpc => "rcpc",
        Feature::Rcpc2 => "rcpc2",
        Feature::Rdm => "rdm",
        Feature::Rdrand => "rdrand",
        Feature::Rdseed => "rdseed",
        Feature::Sb => "sb",
        Feature::Sha => "sha",
        Feature::Sha2 => "sha2",
        Feature::Sha3 => "sha3",
        Feature::Sha512 => "sha512",
        Feature::Sm3 => "sm3",
        Feature::Sm4 => "sm4",
        Feature::Spe => "spe",
        Feature::Sse => "sse",
        Feature::Sse2 => "sse2",
        Feature::Sse3 => "sse3",
        Feature::Sse4_1 => "sse4.1",
        Feature::Sse4_2 => "sse4.2",
        Feature::Sse4a => "sse4a",
        Feature::Ssbs => "ssbs",
        Feature::Ssse3 => "ssse3",
        Feature::Sve => "sve",
        Feature::Sve2 => "sve2",
        Feature::Tbm => "tbm",
        Feature::Vaes => "vaes",
        Feature::Vh => "vh",
        Feature::Vpclmulqdq => "vpclmulqdq",
        Feature::Widekl => "widekl",
        Feature::Xsave => "xsave",
        Feature::Xsavec => "xsavec",
        Feature::Xsaveopt => "xsaveopt",
        Feature::Xsaves => "xsaves",
    }
}

"#;

/// The list of features.
pub const FEATURE_LIST: &'static str = r#"pub const ALL_FEATURES: &[Feature] = &[
    Feature::Adx,
    Feature::Aes,
    Feature::Asimd,
    Feature::Avx,
    Feature::Avx2,
    Feature::Avx512Bf16,
    Feature::Avx512Bitalg,
    Feature::Avx512Bw,
    Feature::Avx512Cd,
    Feature::Avx512Dq,
    Feature::Avx512F,
    Feature::Avx512Fp16,
    Feature::Avx512Ifma,
    Feature::Avx512Vbmi,
    Feature::Avx512Vbmi2,
    Feature::Avx512Vl,
    Feature::Avx512Vnni,
    Feature::Avx512Vp2intersect,
    Feature::Avx512Vpopcntdq,
    Feature::AvxIfma,
    Feature::AvxNeConvert,
    Feature::AvxVnni,
    Feature::AvxVnniInt16,
    Feature::AvxVnniInt8,
    Feature::Bf16,
    Feature::Bmi1,
    Feature::Bmi2,
    Feature::Bti,
    Feature::Cmpxchg16b,
    Feature::Crc,
    Feature::Dit,
    Feature::Dotprod,
    Feature::Dpb,
    Feature::Dpb2,
    Feature::F16c,
    Feature::Fcma,
    Feature::Fxsr,
    Feature::Fhm,
    Feature::Flagm,
    Feature::Fma,
    Feature::Fp16,
    Feature::Frintts,
    Feature::Gfni,
    Feature::I8mm,
    Feature::Jsconv,
    Feature::Kl,
    Feature::Lor,
    Feature::Lse,
    Feature::Lzcnt,
    Feature::Movbe,
    Feature::Mte,
    Feature::Paca,
    Feature::Pacg,
    Feature::Pan,
    Feature::Pclmulqdq,
    Feature::Pmuv3,
    Feature::Popcnt,
    Feature::Rand,
    Feature::Ras,
    Feature::Rcpc,
    Feature::Rcpc2,
    Feature::Rdm,
    Feature::Rdrand,
    Feature::Rdseed,
    Feature::Sb,
    Feature::Sha,
    Feature::Sha2,
    Feature::Sha3,
    Feature::Sha512,
    Feature::Sm3,
    Feature::Sm4,
    Feature::Spe,
    Feature::Sse,
    Feature::Sse2,
    Feature::Sse3,
    Feature::Sse4_1,
    Feature::Sse4_2,
    Feature::Sse4a,
    Feature::Ssbs,
    Feature::Ssse3,
    Feature::Sve,
    Feature::Sve2,
    Feature::Tbm,
    Feature::Vaes,
    Feature::Vh,
    Feature::Vpclmulqdq,
    Feature::Widekl,
    Feature::Xsave,
    Feature::Xsavec,
    Feature::Xsaveopt,
    Feature::Xsaves,
];
"#;

/// The types of the selection.
pub const SELECT_TYPES: &'static str = r#"use crate::feature_mask::FeatureMask;

#[derive(Clone, Copy, Debug, Eq, PartialEq)]
pub enum TargetArch {
    X86_64,
    Aarch64,
}

#[derive(Clone, Copy, Debug, Eq, PartialEq)]
pub enum CpuIdentity {
    Unknown,
    X86 {
        vendor: X86Vendor,
        family: u16,
        model: u16,
        stepping: u8,
    },
    Aarch64 {
        implementer: u16,
        part: u16,
        variant: u8,
        revision: u8,
    },
}

#[derive(Clone, Copy, Debug, Eq, PartialEq)]
pub enum X86Vendor {
    Intel,
    Amd,
    Other,
}

#[derive(Clone, Copy, Debug, Eq, PartialEq)]
pub enum TargetKind {
    Generic,
    X86NeutralLevel { level: u8 },
    X86IntelCore,
    X86IntelXeon,
    X86IntelAtom,
    X86AmdZen { generation: u8 },
    X86AmdOther,
    Aarch64ArmNeoverseN,
    Aarch64ArmNeoverseV,
    Aarch64ArmNeoverseE,
    Aarch64ArmCortexA,
    Aarch64ArmCortexX,
    Aarch64Apple,
    Aarch64Ampere,
    Aarch64Other,
}

impl TargetKind {
    pub const fn is_generic(self) -> bool {
        matches!(self, Self::Generic)
    }

    pub const fn is_neutral_x86(self) -> bool {
        matches!(self, Self::X86NeutralLevel { .. })
    }

    pub const fn is_core_specific(self) -> bool {
        matches!(
            self,
            Self::X86IntelAtom
                | Self::Aarch64ArmCortexA
                | Self::Aarch64ArmCortexX
                | Self::Aarch64ArmNeoverseN
                | Self::Aarch64ArmNeoverseV
                | Self::Aarch64ArmNeoverseE
        )
    }
}

#[derive(Clone, Copy, Debug, Eq, PartialEq)]
pub struct HostInfo {
    pub arch: TargetArch,
    pub features: FeatureMask,
    pub identity: CpuIdentity,
    pub heterogeneous: bool,
}

#[derive(Clone, Copy, Debug, Eq, PartialEq)]
pub struct VariantMeta {
    pub target_cpu: &'static str,
    pub required_features: FeatureMask,
    pub rank_features: FeatureMask,
    pub rank_feature_count: u16,
    pub feature_tier: u8,
    pub target_kind: TargetKind,
}

#[derive(Clone, Copy, Debug, Eq, PartialEq, Ord, PartialOrd)]
struct Score {
    exact: u8,
    package: u8,
    unknown_neutral: u8,
    tier: u8,
    count: u16,
    weak: u8,
    generic_tie: u8,
}

"#;

/// The rules of the selection.
pub const SELECT_RULES: &'static str = r#"pub fn select_variant<'a>(host: HostInfo, variants: &'a [VariantMeta]) -> &'a VariantMeta {
    let mut best = None::<(&VariantMeta, Score)>;

    for variant in variants {
        if !eligible(host, variant) {
            continue;
        }
        let score = score(host, variant);
        match best {
            None => best = Some((variant, score)),
            Some((current, current_score)) => {
                if score > current_score
                    || (score == current_score && variant.target_cpu < current.target_cpu)
                {
                    best = Some((variant, score));
                }
            }
        }
    }

    best.map(|(variant, _)| variant)
        .unwrap_or_else(|| &variants[0])
}

fn eligible(host: HostInfo, variant: &VariantMeta) -> bool {
    variant.target_kind.is_generic() || variant.required_features.is_subset_of(host.features)
}

fn score(host: HostInfo, variant: &VariantMeta) -> Score {
    let exact = exact_affinity(host.identity, variant.target_kind, variant.target_cpu);
    let core_specific_penalty = host.heterogeneous && variant.target_kind.is_core_specific();
    Score {
        exact: if core_specific_penalty { 0 } else { exact },
        package: if host.heterogeneous && is_package_level(variant.target_kind) {
            1
        } else {
            0
        },
        unknown_neutral: if host.identity == CpuIdentity::Unknown
            && variant.target_kind.is_neutral_x86()
        {
            1
        } else {
            0
        },
        tier: if core_specific_penalty {
            0
        } else {
            variant.feature_tier
        },
        count: if core_specific_penalty {
            0
        } else {
            variant.rank_feature_count
        },
        weak: if core_specific_penalty {
            0
        } else {
            weak_affinity(host.identity, variant.target_kind)
        },
        generic_tie: if variant.target_kind.is_generic() {
            1
        } else {
            0
        },
    }
}

fn is_package_level(kind: TargetKind) -> bool {
    matches!(
        kind,
        TargetKind::X86IntelCore
            | TargetKind::X86AmdZen { .. }
            | TargetKind::X86NeutralLevel { .. }
    )
}

"#;

/// The first part of the table of processors that are known by their identity.
pub const SELECT_EXACT_FIRST: &'static str = r#"fn exact_affinity(identity: CpuIdentity, kind: TargetKind, target_cpu: &str) -> u8 {
    match (identity, kind) {
        (
            CpuIdentity::X86 {
                vendor: X86Vendor::Intel,
                family: 15,
                model: 6,
                ..
            },
            TargetKind::X86IntelCore,
        ) if target_cpu == "nocona" => 2,
        (
            CpuIdentity::X86 {
                vendor: X86Vendor::Intel,
                family: 6,
                model: 15,
                ..
            },
            TargetKind::X86IntelCore,
        ) if target_cpu == "core2" => 2,
        (
            CpuIdentity::X86 {
                vendor: X86Vendor::Intel,
                family: 6,
                model: 23,
                ..
            },
            TargetKind::X86IntelCore,
        ) if target_cpu == "penryn" => 2,
        (
            CpuIdentity::X86 {
                vendor: X86Vendor::Intel,
                family: 6,
                model: 26 | 30 | 31 | 46,
                ..
            },
            TargetKind::X86IntelCore,
        ) if target_cpu == "nehalem" => 2,
        (
            CpuIdentity::X86 {
                vendor: X86Vendor::Intel,
                family: 6,
                model: 37 | 44 | 47,
                ..
            },
            TargetKind::X86IntelCore,
        ) if target_cpu == "westmere" => 2,
        (
            CpuIdentity::X86 {
                vendor: X86Vendor::Intel,
                family: 6,
                model: 42 | 45,
                ..
            },
            TargetKind::X86IntelCore,
        ) if target_cpu == "sandybridge" => 2,
        (
            CpuIdentity::X86 {
                vendor: X86Vendor::Intel,
                family: 6,
                model: 58 | 62,
                ..
            },
            TargetKind::X86IntelCore,
        ) if target_cpu == "ivybridge" => 2,
        (
            CpuIdentity::X86 {
                vendor: X86Vendor::Intel,
                family: 6,
                model: 60 | 63 | 69 | 70,
                ..
            },
            TargetKind::X86IntelCore,
        ) if target_cpu == "haswell" => 2,
        (
            CpuIdentity::X86 {
                vendor: X86Vendor::Intel,
                family: 6,
                model: 61 | 71 | 79 | 86,
                ..
            },
            TargetKind::X86IntelCore,
        ) if target_cpu == "broadwell" => 2,
        (
            CpuIdentity::X86 {
                vendor: X86Vendor::Intel,
                family: 6,
                model: 94 | 78,
                ..
            },
            TargetKind::X86IntelCore,
        ) if target_cpu == "skylake" => 2,
        (
            CpuIdentity::X86 {
                vendor: X86Vendor::Intel,
                family: 6,
                model: 167,
                ..
            },
            TargetKind::X86IntelCore,
        ) if target_cpu == "rocketlake" => 2,
        (
            CpuIdentity::X86 {
                vendor: X86Vendor::Intel,
                family: 6,
                model: 151 | 154,
                ..
            },
            TargetKind::X86IntelCore,
        ) if target_cpu == "alderlake" => 2,
        (
            CpuIdentity::X86 {
                vendor: X86Vendor::Intel,
                family: 6,
                model: 183 | 186 | 191,
                ..
            },
            TargetKind::X86IntelCore,
        ) if target_cpu == "raptorlake" => 2,
        (
            CpuIdentity::X86 {
                vendor: X86Vendor::Intel,
                family: 6,
                model: 170 | 172,
                ..
            },
            TargetKind::X86IntelCore,
        ) if target_cpu == "meteorlake" => 2,
        (
            CpuIdentity::X86 {
                vendor: X86Vendor::Intel,
                family: 6,
                model: 181 | 197,
                ..
            },
            TargetKind::X86IntelCore,
        ) if target_cpu == "arrowlake" => 2,
        (
            CpuIdentity::X86 {
                vendor: X86Vendor::Intel,
                family: 6,
                model: 198,
                ..
            },
            TargetKind::X86IntelCore,
        ) if target_cpu == "arrowlake-s" => 2,
"#;

/// The second part of the table of processors that are known by their identity.
pub const SELECT_EXACT_SECOND: &'static str = r#"        (
            CpuIdentity::X86 {
                vendor: X86Vendor::Intel,
                family: 6,
                model: 189,
                ..
            },
            TargetKind::X86IntelCore,
        ) if target_cpu == "lunarlake" => 2,
        (
            CpuIdentity::X86 {
                vendor: X86Vendor::Intel,
                family: 6,
                model: 204,
                ..
            },
            TargetKind::X86IntelCore,
        ) if target_cpu == "pantherlake" => 2,
        (
            CpuIdentity::X86 {
                vendor: X86Vendor::Intel,
                family: 6,
                model: 143,
                ..
            },
            TargetKind::X86IntelXeon,
        ) if target_cpu == "sapphirerapids" => 2,
        (
            CpuIdentity::X86 {
                vendor: X86Vendor::Intel,
                family: 6,
                model: 207,
                ..
            },
            TargetKind::X86IntelXeon,
        ) if target_cpu == "emeraldrapids" => 2,
        (
            CpuIdentity::X86 {
                vendor: X86Vendor::Intel,
                family: 6,
                model: 173,
                ..
            },
            TargetKind::X86IntelXeon,
        ) if target_cpu == "graniterapids" => 2,
        (
            CpuIdentity::X86 {
                vendor: X86Vendor::Intel,
                family: 6,
                model: 174,
                ..
            },
            TargetKind::X86IntelXeon,
        ) if target_cpu == "graniterapids-d" => 2,
        (
            CpuIdentity::X86 {
                vendor: X86Vendor::Intel,
                family: 6,
                model: 175,
                ..
            },
            TargetKind::X86IntelAtom,
        ) if target_cpu == "sierraforest" => 2,
        (
            CpuIdentity::X86 {
                vendor: X86Vendor::Intel,
                family: 6,
                model: 182,
                ..
            },
            TargetKind::X86IntelAtom,
        ) if target_cpu == "grandridge" => 2,
        (
            CpuIdentity::X86 {
                vendor: X86Vendor::Intel,
                family: 6,
                model: 221,
                ..
            },
            TargetKind::X86IntelAtom,
        ) if target_cpu == "clearwaterforest" => 2,
        (
            CpuIdentity::X86 {
                vendor: X86Vendor::Intel,
                family: 19,
                model: 1,
                ..
            },
            TargetKind::X86IntelXeon,
        ) if target_cpu == "diamondrapids" => 2,
        (
            CpuIdentity::X86 {
                vendor: X86Vendor::Amd,
                family: 15,
                ..
            },
            TargetKind::X86AmdOther,
        ) if target_cpu == "k8-sse3" => 2,
        (
            CpuIdentity::X86 {
                vendor: X86Vendor::Amd,
                family: 23,
                model,
                ..
            },
            TargetKind::X86AmdZen { generation: 1 },
        ) if (0x10..=0x2f).contains(&model) => 2,
        (
            CpuIdentity::X86 {
                vendor: X86Vendor::Amd,
                family: 23,
                model,
                ..
            },
            TargetKind::X86AmdZen { generation: 2 },
        ) if (0x30..=0x3f).contains(&model)
            || model == 0x47
            || (0x60..=0x7f).contains(&model)
            || (0x84..=0x87).contains(&model)
            || (0x90..=0xaf).contains(&model) =>
        {
            2
        }
        (
            CpuIdentity::X86 {
                vendor: X86Vendor::Amd,
                family: 25,
                model,
                ..
            },
            TargetKind::X86AmdZen { generation: 3 },
        ) if model <= 0x0f
            || (0x20..=0x2f).contains(&model)
            || (0x30..=0x3f).contains(&model)
            || (0x40..=0x4f).contains(&model)
            || (0x50..=0x5f).contains(&model) =>
        {
            2
        }
"#;

/// The third part of the table of processors that are known by their identity.
pub const SELECT_EXACT_THIRD: &'static str = r#"        (
            CpuIdentity::X86 {
                vendor: X86Vendor::Amd,
                family: 25,
                model,
                ..
            },
            TargetKind::X86AmdZen { generation: 4 },
        ) if (0x10..=0x1f).contains(&model)
            || (0x60..=0x6f).contains(&model)
            || (0x70..=0x7f).contains(&model)
            || (0xa0..=0xaf).contains(&model) =>
        {
            2
        }
        (
            CpuIdentity::X86 {
                vendor: X86Vendor::Amd,
                family: 26,
                model,
                ..
            },
            TargetKind::X86AmdZen { generation: 5 },
        ) if model <= 0x4f || (0x60..=0x77).contains(&model) || (0xd0..=0xd7).contains(&model) => 2,
        (
            CpuIdentity::Aarch64 {
                implementer: 0x41,
                part: 0xd03,
                ..
            },
            TargetKind::Aarch64ArmCortexA,
        ) if target_cpu == "cortex-a53" => 2,
        (
            CpuIdentity::Aarch64 {
                implementer: 0x41,
                part: 0xd04,
                ..
            },
            TargetKind::Aarch64ArmCortexA,
        ) if target_cpu == "cortex-a35" => 2,
        (
            CpuIdentity::Aarch64 {
                implementer: 0x41,
                part: 0xd05,
                ..
            },
            TargetKind::Aarch64ArmCortexA,
        ) if target_cpu == "cortex-a55" => 2,
        (
            CpuIdentity::Aarch64 {
                implementer: 0x41,
                part: 0xd07,
                ..
            },
            TargetKind::Aarch64ArmCortexA,
        ) if target_cpu == "cortex-a57" => 2,
        (
            CpuIdentity::Aarch64 {
                implementer: 0x41,
                part: 0xd08,
                ..
            },
            TargetKind::Aarch64ArmCortexA,
        ) if target_cpu == "cortex-a72" => 2,
        (
            CpuIdentity::Aarch64 {
                implementer: 0x41,
                part: 0xd0b,
                ..
            },
            TargetKind::Aarch64ArmCortexA,
        ) if target_cpu == "cortex-a76" => 2,
        (
            CpuIdentity::Aarch64 {
                implementer: 0x41,
                part: 0xd46,
                ..
            },
            TargetKind::Aarch64ArmCortexA,
        ) if target_cpu == "cortex-a510" => 2,
        (
            CpuIdentity::Aarch64 {
                implementer: 0x41,
                part: 0xd80,
                ..
            },
            TargetKind::Aarch64ArmCortexA,
        ) if target_cpu == "cortex-a520" => 2,
        (
            CpuIdentity::Aarch64 {
                implementer: 0x41,
                part: 0xd47,
                ..
            },
            TargetKind::Aarch64ArmCortexA,
        ) if target_cpu == "cortex-a710" => 2,
        (
            CpuIdentity::Aarch64 {
                implementer: 0x41,
                part: 0xd4d,
                ..
            },
            TargetKind::Aarch64ArmCortexA,
        ) if target_cpu == "cortex-a715" => 2,
        (
            CpuIdentity::Aarch64 {
                implementer: 0x41,
                part: 0xd81,
                ..
            },
            TargetKind::Aarch64ArmCortexA,
        ) if target_cpu == "cortex-a720" => 2,
        (
            CpuIdentity::Aarch64 {
                implementer: 0x41,
                part: 0xd87,
                ..
            },
            TargetKind::Aarch64ArmCortexA,
        ) if target_cpu == "cortex-a725" => 2,
        (
            CpuIdentity::Aarch64 {
                implementer: 0x41,
                part: 0xd4a,
                ..
            },
            TargetKind::Aarch64ArmNeoverseE,
        ) if target_cpu == "neoverse-e1" => 2,
        (
            CpuIdentity::Aarch64 {
                implementer: 0x41,
                part: 0xd40,
                ..
            },
            TargetKind::Aarch64ArmNeoverseV,
        ) if target_cpu == "neoverse-v1" => 2,
        (
            CpuIdentity::Aarch64 {
                implementer: 0x41,
                part: 0xd0c,
                ..
            },
            TargetKind::Aarch64ArmNeoverseN,
        ) if target_cpu == "neoverse-n1" => 2,
"#;

/// The fourth part of the table of processors that are known by their identity.
pub const SELECT_EXACT_FOURTH: &'static str = r#"        (
            CpuIdentity::Aarch64 {
                implementer: 0x41,
                part: 0xd49,
                ..
            },
            TargetKind::Aarch64ArmNeoverseN,
        ) if target_cpu == "neoverse-n2" => 2,
        (
            CpuIdentity::Aarch64 {
                implementer: 0x41,
                part: 0xd8e,
                ..
            },
            TargetKind::Aarch64ArmNeoverseN,
        ) if target_cpu == "neoverse-n3" => 2,
        (
            CpuIdentity::Aarch64 {
                implementer: 0x41,
                part: 0xd4f,
                ..
            },
            TargetKind::Aarch64ArmNeoverseV,
        ) if target_cpu == "neoverse-v2" => 2,
        (
            CpuIdentity::Aarch64 {
                implementer: 0x41,
                part: 0xd84,
                ..
            },
            TargetKind::Aarch64ArmNeoverseV,
        ) if target_cpu == "neoverse-v3" => 2,
        (
            CpuIdentity::Aarch64 {
                implementer: 0x41,
                part: 0xd83,
                ..
            },
            TargetKind::Aarch64ArmNeoverseV,
        ) if target_cpu == "neoverse-v3ae" => 2,
        (
            CpuIdentity::Aarch64 {
                implementer: 0x46,
                part: 0x001,
                ..
            },
            TargetKind::Aarch64Other,
        ) if target_cpu == "a64fx" => 2,
        _ => 0,
    }
}

"#;

/// The rules about processors of the same maker.
pub const SELECT_WEAK: &'static str = r#"fn weak_affinity(identity: CpuIdentity, kind: TargetKind) -> u8 {
    match (identity, kind) {
        (
            CpuIdentity::X86 {
                vendor: X86Vendor::Amd,
                ..
            },
            TargetKind::X86AmdZen { .. } | TargetKind::X86AmdOther,
        ) => 1,
        (
            CpuIdentity::X86 {
                vendor: X86Vendor::Intel,
                ..
            },
            TargetKind::X86IntelCore | TargetKind::X86IntelXeon | TargetKind::X86IntelAtom,
        ) => 1,
        (
            CpuIdentity::Aarch64 {
                implementer: 0x41, ..
            },
            TargetKind::Aarch64ArmNeoverseN
            | TargetKind::Aarch64ArmNeoverseV
            | TargetKind::Aarch64ArmNeoverseE
            | TargetKind::Aarch64ArmCortexA
            | TargetKind::Aarch64ArmCortexX,
        ) => 1,
        (
            CpuIdentity::Aarch64 {
                implementer: 0xc0, ..
            },
            TargetKind::Aarch64Ampere,
        ) => 1,
        _ => 0,
    }
}
"#;

/// The features that CPUID tells of.
pub const ARCH_X86_64: &'static str = r#"use crate::feature_mask::{Feature, FeatureMask};

#[derive(Clone, Copy, Debug, Default)]
pub struct CpuidLeaf {
    pub eax: u32,
    pub ebx: u32,
    pub ecx: u32,
    pub edx: u32,
}

#[derive(Clone, Copy, Debug, Default)]
pub struct X86Cpuid {
    pub leaf1: CpuidLeaf,
    pub leaf7_0: CpuidLeaf,
    pub leaf7_1: CpuidLeaf,
    pub leaf_d_1: CpuidLeaf,
    pub leaf80000001: CpuidLeaf,
}

pub fn detect_x86_features_from_cpuid(leaves: X86Cpuid, xcr0: u64) -> FeatureMask {
    let mut out = FeatureMask::EMPTY;
    let c1 = leaves.leaf1.ecx;
    let d1 = leaves.leaf1.edx;
    let b7 = leaves.leaf7_0.ebx;
    let c7 = leaves.leaf7_0.ecx;
    let d7 = leaves.leaf7_0.edx;
    let a71 = leaves.leaf7_1.eax;
    let ad1 = leaves.leaf_d_1.eax;
    let c8 = leaves.leaf80000001.ecx;

    if bit(c1, 0) {
        out.insert(Feature::Sse3);
    }
    if bit(c1, 9) {
        out.insert(Feature::Ssse3);
    }
    if bit(c1, 12) {
        out.insert(Feature::Fma);
    }
    if bit(c1, 13) {
        out.insert(Feature::Cmpxchg16b);
    }
    if bit(c1, 19) {
        out.insert(Feature::Sse4_1);
    }
    if bit(c1, 20) {
        out.insert(Feature::Sse4_2);
    }
    if bit(c1, 22) {
        out.insert(Feature::Movbe);
    }
    if bit(c1, 23) {
        out.insert(Feature::Popcnt);
    }
    if bit(c1, 25) {
        out.insert(Feature::Aes);
    }
    if bit(c1, 26) {
        out.insert(Feature::Xsave);
    }
    if bit(c1, 29) {
        out.insert(Feature::F16c);
    }
    if bit(c1, 30) {
        out.insert(Feature::Rdrand);
    }
    if bit(d1, 24) {
        out.insert(Feature::Fxsr);
    }
    if bit(d1, 25) {
        out.insert(Feature::Sse);
    }
    if bit(d1, 26) {
        out.insert(Feature::Sse2);
    }
    if bit(c1, 1) {
        out.insert(Feature::Pclmulqdq);
    }

    let avx_state = bit(c1, 27) && bit(c1, 28) && (xcr0 & 0b110) == 0b110;
    if avx_state {
        out.insert(Feature::Avx);
    }

    if avx_state && bit(b7, 5) {
        out.insert(Feature::Avx2);
    }
    if bit(b7, 3) {
        out.insert(Feature::Bmi1);
    }
    if bit(b7, 8) {
        out.insert(Feature::Bmi2);
    }
    if bit(b7, 18) {
        out.insert(Feature::Rdseed);
    }
    if bit(b7, 19) {
        out.insert(Feature::Adx);
    }
    if bit(b7, 29) {
        out.insert(Feature::Sha);
    }
    if bit(c8, 5) {
        out.insert(Feature::Lzcnt);
    }
    if bit(c8, 6) {
        out.insert(Feature::Sse4a);
    }
    if bit(c8, 21) {
        out.insert(Feature::Tbm);
    }
    let avx512_state = avx_state && (xcr0 & 0b1110_0000) == 0b1110_0000;
    if avx512_state {
        if bit(b7, 16) {
            out.insert(Feature::Avx512F);
        }
        if bit(b7, 17) {
            out.insert(Feature::Avx512Dq);
        }
        if bit(b7, 21) {
            out.insert(Feature::Avx512Ifma);
        }
        if bit(b7, 28) {
            out.insert(Feature::Avx512Cd);
        }
        if bit(b7, 30) {
            out.insert(Feature::Avx512Bw);
        }
        if bit(b7, 31) {
            out.insert(Feature::Avx512Vl);
        }
        if bit(c7, 1) {
            out.insert(Feature::Avx512Vbmi);
        }
        if bit(c7, 6) {
            out.insert(Feature::Avx512Vbmi2);
        }
        if bit(c7, 11) {
            out.insert(Feature::Avx512Vnni);
        }
        if bit(c7, 12) {
            out.insert(Feature::Avx512Bitalg);
        }
        if bit(c7, 14) {
            out.insert(Feature::Avx512Vpopcntdq);
        }
        if bit(d7, 8) {
            out.insert(Feature::Avx512Vp2intersect);
        }
        if bit(d7, 22) {
            out.insert(Feature::Avx512Fp16);
        }
        if bit(a71, 5) {
            out.insert(Feature::Avx512Bf16);
        }
    }
    if bit(c7, 8) {
        out.insert(Feature::Gfni);
    }
    if avx_state && bit(c7, 9) {
        out.insert(Feature::Vaes);
    }
    if avx_state && bit(c7, 10) {
        out.insert(Feature::Vpclmulqdq);
    }
    if avx_state && bit(c7, 22) {
        out.insert(Feature::AvxIfma);
    }
    if avx_state && bit(c7, 23) {
        out.insert(Feature::AvxNeConvert);
    }
    if avx_state && bit(a71, 4) {
        out.insert(Feature::AvxVnni);
    }
    if avx_state && bit(d7, 4) {
        out.insert(Feature::AvxVnniInt8);
    }
    if avx_state && bit(d7, 5) {
        out.insert(Feature::AvxVnniInt16);
    }
    if bit(c7, 2) {
        out.insert(Feature::Widekl);
    }
    if bit(c7, 23) {
        out.insert(Feature::Kl);
    }
    if bit(d7, 29) {
        out.insert(Feature::Sha512);
    }
    if bit(d7, 30) {
        out.insert(Feature::Sm3);
    }
    if bit(d7, 31) {
        out.insert(Feature::Sm4);
    }
    if bit(ad1, 0) {
        out.insert(Feature::Xsaveopt);
    }
    if bit(ad1, 1) {
        out.insert(Feature::Xsavec);
    }
    if bit(ad1, 3) {
        out.insert(Feature::Xsaves);
    }
    out
}

const fn bit(v: u32, b: u32) -> bool {
    (v & (1u32 << b)) != 0
}
"#;

/// The features that hardware capabilities tell of.
pub const ARCH_AARCH64: &'static str = r#"use crate::feature_mask::{Feature, FeatureMask};

pub const HWCAP_ASIMD: usize = 1 << 1;
pub const HWCAP_AES: usize = 1 << 3;
pub const HWCAP_PMULL: usize = 1 << 4;
pub const HWCAP_SHA1: usize = 1 << 5;
pub const HWCAP_SHA2: usize = 1 << 6;
pub const HWCAP_CRC32: usize = 1 << 7;
pub const HWCAP_ATOMICS: usize = 1 << 8;
pub const HWCAP_FPHP: usize = 1 << 9;
pub const HWCAP_ASIMDHP: usize = 1 << 10;
pub const HWCAP_CPUID: usize = 1 << 11;
pub const HWCAP_ASIMDRDM: usize = 1 << 12;
pub const HWCAP_JSCVT: usize = 1 << 13;
pub const HWCAP_FCMA: usize = 1 << 14;
pub const HWCAP_LRCPC: usize = 1 << 15;
pub const HWCAP_DCPOP: usize = 1 << 16;
pub const HWCAP_SHA3: usize = 1 << 17;
pub const HWCAP_SM3: usize = 1 << 18;
pub const HWCAP_SM4: usize = 1 << 19;
pub const HWCAP_ASIMDDP: usize = 1 << 20;
pub const HWCAP_SHA512: usize = 1 << 21;
pub const HWCAP_SVE: usize = 1 << 22;
pub const HWCAP_ASIMDFHM: usize = 1 << 23;
pub const HWCAP_DIT: usize = 1 << 24;
pub const HWCAP_USCAT: usize = 1 << 25;
pub const HWCAP_ILRCPC: usize = 1 << 26;
pub const HWCAP_FLAGM: usize = 1 << 27;
pub const HWCAP_SSBS: usize = 1 << 28;
pub const HWCAP_SB: usize = 1 << 29;
pub const HWCAP_PACA: usize = 1 << 30;
pub const HWCAP_PACG: usize = 1 << 31;

pub const HWCAP2_DCPODP: usize = 1 << 0;
pub const HWCAP2_SVE2: usize = 1 << 1;
pub const HWCAP2_SVEAES: usize = 1 << 2;
pub const HWCAP2_SVEPMULL: usize = 1 << 3;
pub const HWCAP2_SVEBITPERM: usize = 1 << 4;
pub const HWCAP2_SVESHA3: usize = 1 << 5;
pub const HWCAP2_SVESM4: usize = 1 << 6;
pub const HWCAP2_FLAGM2: usize = 1 << 7;
pub const HWCAP2_FRINT: usize = 1 << 8;
pub const HWCAP2_SVEI8MM: usize = 1 << 9;
pub const HWCAP2_SVEF32MM: usize = 1 << 10;
pub const HWCAP2_SVEF64MM: usize = 1 << 11;
pub const HWCAP2_SVEBF16: usize = 1 << 12;
pub const HWCAP2_I8MM: usize = 1 << 13;
pub const HWCAP2_BF16: usize = 1 << 14;
pub const HWCAP2_DGH: usize = 1 << 15;
pub const HWCAP2_RNG: usize = 1 << 16;
pub const HWCAP2_BTI: usize = 1 << 17;
pub const HWCAP2_MTE: usize = 1 << 18;
pub const HWCAP2_ECV: usize = 1 << 19;
pub const HWCAP2_AFP: usize = 1 << 20;
pub const HWCAP2_RPRES: usize = 1 << 21;
pub const HWCAP2_MTE3: usize = 1 << 22;
pub const HWCAP2_SME: usize = 1 << 23;

pub fn detect_aarch64_features_from_hwcap(hwcap: usize, hwcap2: usize, _hwcap3: usize) -> FeatureMask {
    let mut out = FeatureMask::EMPTY;
    if has(hwcap, HWCAP_ASIMD) { out.insert(Feature::Asimd); }
    if has(hwcap, HWCAP_AES) { out.insert(Feature::Aes); }
    if has(hwcap, HWCAP_CRC32) { out.insert(Feature::Crc); }
    if has(hwcap, HWCAP_ATOMICS) { out.insert(Feature::Lse); }
    if has(hwcap, HWCAP_FPHP) || has(hwcap, HWCAP_ASIMDHP) { out.insert(Feature::Fp16); }
    if has(hwcap, HWCAP_ASIMDRDM) { out.insert(Feature::Rdm); }
    if has(hwcap, HWCAP_JSCVT) { out.insert(Feature::Jsconv); }
    if has(hwcap, HWCAP_FCMA) { out.insert(Feature::Fcma); }
    if has(hwcap, HWCAP_LRCPC) { out.insert(Feature::Rcpc); }
    if has(hwcap, HWCAP_DCPOP) { out.insert(Feature::Dpb); }
    if has(hwcap, HWCAP_SHA2) { out.insert(Feature::Sha2); }
    if has(hwcap, HWCAP_SHA3) { out.insert(Feature::Sha3); }
    if has(hwcap, HWCAP_SHA512) { out.insert(Feature::Sha512); }
    if has(hwcap, HWCAP_SM3) { out.insert(Feature::Sm3); }
    if has(hwcap, HWCAP_SM4) { out.insert(Feature::Sm4); }
    if has(hwcap, HWCAP_ASIMDDP) { out.insert(Feature::Dotprod); }
    if has(hwcap, HWCAP_SVE) { out.insert(Feature::Sve); }
    if has(hwcap, HWCAP_ASIMDFHM) { out.insert(Feature::Fhm); }
    if has(hwcap, HWCAP_DIT) { out.insert(Feature::Dit); }
    if has(hwcap, HWCAP_FLAGM) { out.insert(Feature::Flagm); }
    if has(hwcap, HWCAP_SSBS) { out.insert(Feature::Ssbs); }
    if has(hwcap, HWCAP_SB) { out.insert(Feature::Sb); }
    if has(hwcap, HWCAP_PACA) { out.insert(Feature::Paca); }
    if has(hwcap, HWCAP_PACG) { out.insert(Feature::Pacg); }
    if has(hwcap2, HWCAP2_DCPODP) { out.insert(Feature::Dpb2); }
    if has(hwcap2, HWCAP2_SVE2) { out.insert(Feature::Sve2); }
    if has(hwcap2, HWCAP2_FRINT) { out.insert(Feature::Frintts); }
    if has(hwcap2, HWCAP2_I8MM) { out.insert(Feature::I8mm); }
    if has(hwcap2, HWCAP2_BF16) { out.insert(Feature::Bf16); }
    if has(hwcap2, HWCAP2_RNG) { out.insert(Feature::Rand); }
    if has(hwcap2, HWCAP2_BTI) { out.insert(Feature::Bti); }
    if has(hwcap2, HWCAP2_MTE) { out.insert(Feature::Mte); }
    out
}

const fn has(value: usize, bit: usize) -> bool {
    (value & bit) != 0
}
"#;

/// The module with the set of features.
pub open spec fn feature_mask_text() -> Seq<char> {
    FEATURE_SET@ + FEATURE_BY_NAME@ + FEATURE_NAMES@ + FEATURE_LIST@ + FEATURE_TESTS_FIRST@
        + FEATURE_TESTS_SECOND@
}

/// The module with the set of features.
pub fn generated_feature_mask() -> (r: String)
    ensures
        r@ == feature_mask_text(),
{
    let mut r = FEATURE_SET.to_owned();
    r.append(FEATURE_BY_NAME);
    r.append(FEATURE_NAMES);
    r.append(FEATURE_LIST);
    r.append(FEATURE_TESTS_FIRST);
    r.append(FEATURE_TESTS_SECOND);
    r
}

/// The module that selects a variant.
pub open spec fn select_text() -> Seq<char> {
    SELECT_TYPES@ + SELECT_RULES@ + SELECT_EXACT_FIRST@ + SELECT_EXACT_SECOND@
        + SELECT_EXACT_THIRD@ + SELECT_EXACT_FOURTH@ + SELECT_WEAK@ + SELECT_TESTS_FIRST@
        + SELECT_TESTS_SECOND@ + SELECT_TESTS_THIRD@ + SELECT_TESTS_FOURTH@
        + SELECT_TESTS_FIFTH@
}

/// The module that selects a variant.
pub fn generated_select() -> (r: String)
    ensures
        r@ == select_text(),
{
    let mut r = SELECT_TYPES.to_owned();
    r.append(SELECT_RULES);
    r.append(SELECT_EXACT_FIRST);
    r.append(SELECT_EXACT_SECOND);
    r.append(SELECT_EXACT_THIRD);
    r.append(SELECT_EXACT_FOURTH);
    r.append(SELECT_WEAK);
    r.append(SELECT_TESTS_FIRST);
    r.append(SELECT_TESTS_SECOND);
    r.append(SELECT_TESTS_THIRD);
    r.append(SELECT_TESTS_FOURTH);
    r.append(SELECT_TESTS_FIFTH);
    r
}

/// The module that reads features from CPUID.
pub open spec fn arch_x86_64_text() -> Seq<char> {
    ARCH_X86_64@ + ARCH_X86_64_TESTS_FIRST@ + ARCH_X86_64_TESTS_SECOND@
        + ARCH_X86_64_TESTS_THIRD@ + ARCH_X86_64_TESTS_FOURTH@
}

/// The module that reads features from CPUID.
pub fn generated_arch_x86_64() -> (r: String)
    ensures
        r@ == arch_x86_64_text(),
{
    let mut r = ARCH_X86_64.to_owned();
    r.append(ARCH_X86_64_TESTS_FIRST);
    r.append(ARCH_X86_64_TESTS_SECOND);
    r.append(ARCH_X86_64_TESTS_THIRD);
    r.append(ARCH_X86_64_TESTS_FOURTH);
    r
}

/// The module that reads features from hardware capabilities.
pub open spec fn arch_aarch64_text() -> Seq<char> {
    ARCH_AARCH64@ + ARCH_AARCH64_TESTS@
}

/// The module that reads features from hardware capabilities.
pub fn generated_arch_aarch64() -> (r: String)
    ensures
        r@ == arch_aarch64_text(),
{
    let mut r = ARCH_AARCH64.to_owned();
    r.append(ARCH_AARCH64_TESTS);
    r
}

} // verus!
