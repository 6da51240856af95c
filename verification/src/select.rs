//! Which of several payload variants a host should run.
use crate::feature_mask::FeatureMask;
use crate::text::{self, str_eq, str_less};
use vstd::prelude::*;

verus! {

/// The processor architectures that payloads are built for.
#[derive(Clone, Copy, Debug, PartialEq, Eq, Structural)]
pub enum TargetArch {
    X86_64,
    Aarch64,
}

/// What a processor says that it is.
#[derive(Clone, Copy, Debug, PartialEq, Eq, Structural)]
pub enum CpuIdentity {
    Unknown,
    X86 { vendor: X86Vendor, family: u16, model: u16, stepping: u8 },
    Aarch64 { implementer: u16, part: u16, variant: u8, revision: u8 },
}

/// The makers of x86 processors that selection tells apart.
#[derive(Clone, Copy, Debug, PartialEq, Eq, Structural)]
pub enum X86Vendor {
    Intel,
    Amd,
    Other,
}

/// The line of processors that a target CPU belongs to.
#[derive(Clone, Copy, Debug, PartialEq, Eq, Structural)]
pub enum TargetKind {
    Generic,
    X86NeutralLevel { level: u8 },
    X86IntelCore,
    X86IntelXeon,
    X86IntelAtom,
    X86AmdZen { generation: u8 },
    X86AmdOther,
    Aarch64ArmNeoverseN,
    Aarch64ArmNeoverseV,
    Aarch64ArmNeoverseE,
    Aarch64ArmCortexA,
    Aarch64ArmCortexX,
    Aarch64Apple,
    Aarch64Ampere,
    Aarch64Other,
}

impl TargetKind {
    /// Whether the kind is that of one core type, of which a machine with several
    /// core types has only some.
    pub open spec fn core_specific(self) -> bool {
        ||| self is X86IntelAtom
        ||| self is Aarch64ArmCortexA
        ||| self is Aarch64ArmCortexX
        ||| self is Aarch64ArmNeoverseN
        ||| self is Aarch64ArmNeoverseV
        ||| self is Aarch64ArmNeoverseE
    }

    /// Whether the kind describes a whole package, whatever its cores.
    pub open spec fn package_level(self) -> bool {
        ||| self is X86IntelCore
        ||| self is X86AmdZen
        ||| self is X86NeutralLevel
    }

    /// Whether this is the kind of the baseline variant.
    pub fn is_generic(self) -> (r: bool)
        ensures
            r == (self is Generic),
    {
        matches!(self, TargetKind::Generic)
    }

    /// Whether this is one of the vendor-neutral x86-64 levels.
    pub fn is_neutral_x86(self) -> (r: bool)
        ensures
            r == (self is X86NeutralLevel),
    {
        matches!(self, TargetKind::X86NeutralLevel { .. })
    }

    /// Whether the kind is that of one core type.
    pub fn is_core_specific(self) -> (r: bool)
        ensures
            r == self.core_specific(),
    {
        matches!(
            self,
            TargetKind::X86IntelAtom | TargetKind::Aarch64ArmCortexA
                | TargetKind::Aarch64ArmCortexX | TargetKind::Aarch64ArmNeoverseN
                | TargetKind::Aarch64ArmNeoverseV | TargetKind::Aarch64ArmNeoverseE
        )
    }

    /// Whether the kind describes a whole package.
    fn is_package_level(self) -> (r: bool)
        ensures
            r == self.package_level(),
    {
        matches!(
            self,
            TargetKind::X86IntelCore | TargetKind::X86AmdZen { .. }
                | TargetKind::X86NeutralLevel { .. }
        )
    }
}

/// The machine that a payload is selected for.
#[derive(Clone, Copy, Debug, PartialEq, Eq, Structural)]
pub struct HostInfo {
    pub arch: TargetArch,
    pub features: FeatureMask,
    pub identity: CpuIdentity,
    /// Whether the machine has cores of several types.
    pub heterogeneous: bool,
}

/// What selection knows of a payload variant.
#[derive(Clone, Copy, Debug, PartialEq, Eq)]
pub struct VariantMeta {
    pub target_cpu: &'static str,
    /// The features without which the payload must not run.
    pub required_features: FeatureMask,
    /// The features that the payload makes use of.
    pub rank_features: FeatureMask,
    pub rank_feature_count: u16,
    pub feature_tier: u8,
    pub target_kind: TargetKind,
}

// ---------------------------------------------------------------------------
// Affinity between a processor and a target CPU

/// The target CPU that an Intel processor is, by family and model.
pub open spec fn intel_target(family: u16, model: u16) -> Option<(TargetKind, Seq<char>)> {
    match (family, model) {
        (15, 6) => Some((TargetKind::X86IntelCore, "nocona"@)),
        (6, 15) => Some((TargetKind::X86IntelCore, "core2"@)),
        (6, 23) => Some((TargetKind::X86IntelCore, "penryn"@)),
        (6, 26 | 30 | 31 | 46) => Some((TargetKind::X86IntelCore, "nehalem"@)),
        (6, 37 | 44 | 47) => Some((TargetKind::X86IntelCore, "westmere"@)),
        (6, 42 | 45) => Some((TargetKind::X86IntelCore, "sandybridge"@)),
        (6, 58 | 62) => Some((TargetKind::X86IntelCore, "ivybridge"@)),
        (6, 60 | 63 | 69 | 70) => Some((TargetKind::X86IntelCore, "haswell"@)),
        (6, 61 | 71 | 79 | 86) => Some((TargetKind::X86IntelCore, "broadwell"@)),
        (6, 94 | 78) => Some((TargetKind::X86IntelCore, "skylake"@)),
        (6, 167) => Some((TargetKind::X86IntelCore, "rocketlake"@)),
        (6, 151 | 154) => Some((TargetKind::X86IntelCore, "alderlake"@)),
        (6, 183 | 186 | 191) => Some((TargetKind::X86IntelCore, "raptorlake"@)),
        (6, 170 | 172) => Some((TargetKind::X86IntelCore, "meteorlake"@)),
        (6, 181 | 197) => Some((TargetKind::X86IntelCore, "arrowlake"@)),
        (6, 198) => Some((TargetKind::X86IntelCore, "arrowlake-s"@)),
        (6, 189) => Some((TargetKind::X86IntelCore, "lunarlake"@)),
        (6, 204) => Some((TargetKind::X86IntelCore, "pantherlake"@)),
        (6, 143) => Some((TargetKind::X86IntelXeon, "sapphirerapids"@)),
        (6, 207) => Some((TargetKind::X86IntelXeon, "emeraldrapids"@)),
        (6, 173) => Some((TargetKind::X86IntelXeon, "graniterapids"@)),
        (6, 174) => Some((TargetKind::X86IntelXeon, "graniterapids-d"@)),
        (6, 175) => Some((TargetKind::X86IntelAtom, "sierraforest"@)),
        (6, 182) => Some((TargetKind::X86IntelAtom, "grandridge"@)),
        (6, 221) => Some((TargetKind::X86IntelAtom, "clearwaterforest"@)),
        (19, 1) => Some((TargetKind::X86IntelXeon, "diamondrapids"@)),
        _ => None,
    }
}

/// The generation of an AMD Zen processor, by family and model.
pub open spec fn zen_generation(family: u16, model: u16) -> Option<u8> {
    if family == 23 {
        if 0x10 <= model <= 0x2f {
            Some(1)
        } else if 0x30 <= model <= 0x3f || model == 0x47 || 0x60 <= model <= 0x7f || 0x84 <= model
            <= 0x87 || 0x90 <= model <= 0xaf {
            Some(2)
        } else {
            None
        }
    } else if family == 25 {
        if model <= 0x0f || 0x20 <= model <= 0x5f {
            Some(3)
        } else if 0x10 <= model <= 0x1f || 0x60 <= model <= 0x7f || 0xa0 <= model <= 0xaf {
            Some(4)
        } else {
            None
        }
    } else if family == 26 && (model <= 0x4f || 0x60 <= model <= 0x77 || 0xd0 <= model <= 0xd7) {
        Some(5)
    } else {
        None
    }
}

/// The target CPU that an AArch64 processor is, by implementer and part number.
pub open spec fn arm_target(implementer: u16, part: u16) -> Option<(TargetKind, Seq<char>)> {
    match (implementer, part) {
        (0x41, 0xd03) => Some((TargetKind::Aarch64ArmCortexA, "cortex-a53"@)),
        (0x41, 0xd04) => Some((TargetKind::Aarch64ArmCortexA, "cortex-a35"@)),
        (0x41, 0xd05) => Some((TargetKind::Aarch64ArmCortexA, "cortex-a55"@)),
        (0x41, 0xd07) => Some((TargetKind::Aarch64ArmCortexA, "cortex-a57"@)),
        (0x41, 0xd08) => Some((TargetKind::Aarch64ArmCortexA, "cortex-a72"@)),
        (0x41, 0xd0b) => Some((TargetKind::Aarch64ArmCortexA, "cortex-a76"@)),
        (0x41, 0xd46) => Some((TargetKind::Aarch64ArmCortexA, "cortex-a510"@)),
        (0x41, 0xd80) => Some((TargetKind::Aarch64ArmCortexA, "cortex-a520"@)),
        (0x41, 0xd47) => Some((TargetKind::Aarch64ArmCortexA, "cortex-a710"@)),
        (0x41, 0xd4d) => Some((TargetKind::Aarch64ArmCortexA, "cortex-a715"@)),
        (0x41, 0xd81) => Some((TargetKind::Aarch64ArmCortexA, "cortex-a720"@)),
        (0x41, 0xd87) => Some((TargetKind::Aarch64ArmCortexA, "cortex-a725"@)),
        (0x41, 0xd4a) => Some((TargetKind::Aarch64ArmNeoverseE, "neoverse-e1"@)),
        (0x41, 0xd40) => Some((TargetKind::Aarch64ArmNeoverseV, "neoverse-v1"@)),
        (0x41, 0xd0c) => Some((TargetKind::Aarch64ArmNeoverseN, "neoverse-n1"@)),
        (0x41, 0xd49) => Some((TargetKind::Aarch64ArmNeoverseN, "neoverse-n2"@)),
        (0x41, 0xd8e) => Some((TargetKind::Aarch64ArmNeoverseN, "neoverse-n3"@)),
        (0x41, 0xd4f) => Some((TargetKind::Aarch64ArmNeoverseV, "neoverse-v2"@)),
        (0x41, 0xd84) => Some((TargetKind::Aarch64ArmNeoverseV, "neoverse-v3"@)),
        (0x41, 0xd83) => Some((TargetKind::Aarch64ArmNeoverseV, "neoverse-v3ae"@)),
        (0x46, 0x001) => Some((TargetKind::Aarch64Other, "a64fx"@)),
        _ => None,
    }
}

/// Whether the processor is the very one that the target CPU names.
pub open spec fn is_exact(identity: CpuIdentity, kind: TargetKind, cpu: Seq<char>) -> bool {
    match identity {
        CpuIdentity::X86 { vendor: X86Vendor::Intel, family, model, .. } => intel_target(
            family,
            model,
        ) == Some((kind, cpu)),
        CpuIdentity::X86 { vendor: X86Vendor::Amd, family, model, .. } => {
            ||| family == 15 && kind is X86AmdOther && cpu == "k8-sse3"@
            ||| (zen_generation(family, model) matches Some(g) && kind == TargetKind::X86AmdZen {
                generation: g,
            })
        },
        CpuIdentity::Aarch64 { implementer, part, .. } => arm_target(implementer, part) == Some(
            (kind, cpu),
        ),
        _ => false,
    }
}

/// Whether the processor and the target CPU have the same maker.
pub open spec fn same_maker(identity: CpuIdentity, kind: TargetKind) -> bool {
    match identity {
        CpuIdentity::X86 { vendor: X86Vendor::Amd, .. } => kind is X86AmdZen || kind is X86AmdOther,
        CpuIdentity::X86 { vendor: X86Vendor::Intel, .. } => kind is X86IntelCore || kind
            is X86IntelXeon || kind is X86IntelAtom,
        CpuIdentity::Aarch64 { implementer: 0x41, .. } => kind is Aarch64ArmNeoverseN || kind
            is Aarch64ArmNeoverseV || kind is Aarch64ArmNeoverseE || kind is Aarch64ArmCortexA
            || kind is Aarch64ArmCortexX,
        CpuIdentity::Aarch64 { implementer: 0xc0, .. } => kind is Aarch64Ampere,
        _ => false,
    }
}

/// The target CPU that an Intel processor is.
fn intel_target_cpu(family: u16, model: u16) -> (r: Option<(TargetKind, &'static str)>)
    ensures
        match r {
            Some((kind, cpu)) => intel_target(family, model) == Some((kind, cpu@)),
            None => intel_target(family, model) is None,
        },
{
    match (family, model) {
        (15, 6) => Some((TargetKind::X86IntelCore, "nocona")),
        (6, 15) => Some((TargetKind::X86IntelCore, "core2")),
        (6, 23) => Some((TargetKind::X86IntelCore, "penryn")),
        (6, 26 | 30 | 31 | 46) => Some((TargetKind::X86IntelCore, "nehalem")),
        (6, 37 | 44 | 47) => Some((TargetKind::X86IntelCore, "westmere")),
        (6, 42 | 45) => Some((TargetKind::X86IntelCore, "sandybridge")),
        (6, 58 | 62) => Some((TargetKind::X86IntelCore, "ivybridge")),
        (6, 60 | 63 | 69 | 70) => Some((TargetKind::X86IntelCore, "haswell")),
        (6, 61 | 71 | 79 | 86) => Some((TargetKind::X86IntelCore, "broadwell")),
        (6, 94 | 78) => Some((TargetKind::X86IntelCore, "skylake")),
        (6, 167) => Some((TargetKind::X86IntelCore, "rocketlake")),
        (6, 151 | 154) => Some((TargetKind::X86IntelCore, "alderlake")),
        (6, 183 | 186 | 191) => Some((TargetKind::X86IntelCore, "raptorlake")),
        (6, 170 | 172) => Some((TargetKind::X86IntelCore, "meteorlake")),
        (6, 181 | 197) => Some((TargetKind::X86IntelCore, "arrowlake")),
        (6, 198) => Some((TargetKind::X86IntelCore, "arrowlake-s")),
        (6, 189) => Some((TargetKind::X86IntelCore, "lunarlake")),
        (6, 204) => Some((TargetKind::X86IntelCore, "pantherlake")),
        (6, 143) => Some((TargetKind::X86IntelXeon, "sapphirerapids")),
        (6, 207) => Some((TargetKind::X86IntelXeon, "emeraldrapids")),
        (6, 173) => Some((TargetKind::X86IntelXeon, "graniterapids")),
        (6, 174) => Some((TargetKind::X86IntelXeon, "graniterapids-d")),
        (6, 175) => Some((TargetKind::X86IntelAtom, "sierraforest")),
        (6, 182) => Some((TargetKind::X86IntelAtom, "grandridge")),
        (6, 221) => Some((TargetKind::X86IntelAtom, "clearwaterforest")),
        (19, 1) => Some((TargetKind::X86IntelXeon, "diamondrapids")),
        _ => None,
    }
}

/// The generation of an AMD Zen processor.
fn zen_generation_of(family: u16, model: u16) -> (r: Option<u8>)
    ensures
        r == zen_generation(family, model),
{
    if family == 23 {
        if 0x10 <= model && model <= 0x2f {
            Some(1)
        } else if (0x30 <= model && model <= 0x3f) || model == 0x47 || (0x60 <= model && model
            <= 0x7f) || (0x84 <= model && model <= 0x87) || (0x90 <= model && model <= 0xaf) {
            Some(2)
        } else {
            None
        }
    } else if family == 25 {
        if model <= 0x0f || (0x20 <= model && model <= 0x5f) {
            Some(3)
        } else if (0x10 <= model && model <= 0x1f) || (0x60 <= model && model <= 0x7f) || (0xa0
            <= model && model <= 0xaf) {
            Some(4)
        } else {
            None
        }
    } else if family == 26 && (model <= 0x4f || (0x60 <= model && model <= 0x77) || (0xd0 <= model
        && model <= 0xd7)) {
        Some(5)
    } else {
        None
    }
}

/// The target CPU that an AArch64 processor is.
fn arm_target_cpu(implementer: u16, part: u16) -> (r: Option<(TargetKind, &'static str)>)
    ensures
        match r {
            Some((kind, cpu)) => arm_target(implementer, part) == Some((kind, cpu@)),
            None => arm_target(implementer, part) is None,
        },
{
    match (implementer, part) {
        (0x41, 0xd03) => Some((TargetKind::Aarch64ArmCortexA, "cortex-a53")),
        (0x41, 0xd04) => Some((TargetKind::Aarch64ArmCortexA, "cortex-a35")),
        (0x41, 0xd05) => Some((TargetKind::Aarch64ArmCortexA, "cortex-a55")),
        (0x41, 0xd07) => Some((TargetKind::Aarch64ArmCortexA, "cortex-a57")),
        (0x41, 0xd08) => Some((TargetKind::Aarch64ArmCortexA, "cortex-a72")),
        (0x41, 0xd0b) => Some((TargetKind::Aarch64ArmCortexA, "cortex-a76")),
        (0x41, 0xd46) => Some((TargetKind::Aarch64ArmCortexA, "cortex-a510")),
        (0x41, 0xd80) => Some((TargetKind::Aarch64ArmCortexA, "cortex-a520")),
        (0x41, 0xd47) => Some((TargetKind::Aarch64ArmCortexA, "cortex-a710")),
        (0x41, 0xd4d) => Some((TargetKind::Aarch64ArmCortexA, "cortex-a715")),
        (0x41, 0xd81) => Some((TargetKind::Aarch64ArmCortexA, "cortex-a720")),
        (0x41, 0xd87) => Some((TargetKind::Aarch64ArmCortexA, "cortex-a725")),
        (0x41, 0xd4a) => Some((TargetKind::Aarch64ArmNeoverseE, "neoverse-e1")),
        (0x41, 0xd40) => Some((TargetKind::Aarch64ArmNeoverseV, "neoverse-v1")),
        (0x41, 0xd0c) => Some((TargetKind::Aarch64ArmNeoverseN, "neoverse-n1")),
        (0x41, 0xd49) => Some((TargetKind::Aarch64ArmNeoverseN, "neoverse-n2")),
        (0x41, 0xd8e) => Some((TargetKind::Aarch64ArmNeoverseN, "neoverse-n3")),
        (0x41, 0xd4f) => Some((TargetKind::Aarch64ArmNeoverseV, "neoverse-v2")),
        (0x41, 0xd84) => Some((TargetKind::Aarch64ArmNeoverseV, "neoverse-v3")),
        (0x41, 0xd83) => Some((TargetKind::Aarch64ArmNeoverseV, "neoverse-v3ae")),
        (0x46, 0x001) => Some((TargetKind::Aarch64Other, "a64fx")),
        _ => None,
    }
}

/// 2 if the processor is the very one that the target CPU names, else 0.
pub fn exact_affinity(identity: CpuIdentity, kind: TargetKind, target_cpu: &str) -> (r: u8)
    ensures
        r == (if is_exact(identity, kind, target_cpu@) { 2u8 } else { 0u8 }),
{
    let exact = match identity {
        CpuIdentity::X86 { vendor: X86Vendor::Intel, family, model, .. } => match intel_target_cpu(
            family,
            model,
        ) {
            Some((k, cpu)) => k == kind && str_eq(cpu, target_cpu),
            None => false,
        },
        CpuIdentity::X86 { vendor: X86Vendor::Amd, family, model, .. } => {
            (family == 15 && matches!(kind, TargetKind::X86AmdOther) && str_eq(
                target_cpu,
                "k8-sse3",
            )) || match zen_generation_of(family, model) {
                Some(generation) => kind == (TargetKind::X86AmdZen { generation }),
                None => false,
            }
        },
        CpuIdentity::Aarch64 { implementer, part, .. } => match arm_target_cpu(implementer, part) {
            Some((k, cpu)) => k == kind && str_eq(cpu, target_cpu),
            None => false,
        },
        _ => false,
    };
    if exact {
        2
    } else {
        0
    }
}

/// 1 if the processor and the target CPU have the same maker, else 0.
pub fn weak_affinity(identity: CpuIdentity, kind: TargetKind) -> (r: u8)
    ensures
        r == (if same_maker(identity, kind) { 1u8 } else { 0u8 }),
{
    match identity {
        CpuIdentity::X86 { vendor: X86Vendor::Amd, .. } => match kind {
            TargetKind::X86AmdZen { .. } | TargetKind::X86AmdOther => 1,
            _ => 0,
        },
        CpuIdentity::X86 { vendor: X86Vendor::Intel, .. } => match kind {
            TargetKind::X86IntelCore | TargetKind::X86IntelXeon | TargetKind::X86IntelAtom => 1,
            _ => 0,
        },
        CpuIdentity::Aarch64 { implementer: 0x41, .. } => match kind {
            TargetKind::Aarch64ArmNeoverseN
            | TargetKind::Aarch64ArmNeoverseV
            | TargetKind::Aarch64ArmNeoverseE
            | TargetKind::Aarch64ArmCortexA
            | TargetKind::Aarch64ArmCortexX => 1,
            _ => 0,
        },
        CpuIdentity::Aarch64 { implementer: 0xc0, .. } => match kind {
            TargetKind::Aarch64Ampere => 1,
            _ => 0,
        },
        _ => 0,
    }
}

// ---------------------------------------------------------------------------
// Scores

/// How well a variant suits a host. Of two scores the one with the greater first
/// differing field is better.
#[derive(Clone, Copy, Debug, PartialEq, Eq, Structural)]
pub struct Score {
    pub exact: u8,
    pub package: u8,
    pub unknown_neutral: u8,
    pub tier: u8,
    pub count: u16,
    pub weak: u8,
    pub generic_tie: u8,
}

/// Whether score `a` is worse than score `b`.
pub open spec fn score_less(a: Score, b: Score) -> bool {
    ||| a.exact < b.exact
    ||| a.exact == b.exact && {
        ||| a.package < b.package
        ||| a.package == b.package && {
            ||| a.unknown_neutral < b.unknown_neutral
            ||| a.unknown_neutral == b.unknown_neutral && {
                ||| a.tier < b.tier
                ||| a.tier == b.tier && {
                    ||| a.count < b.count
                    ||| a.count == b.count && {
                        ||| a.weak < b.weak
                        ||| a.weak == b.weak && a.generic_tie < b.generic_tie
                    }
                }
            }
        }
    }
}

/// Whether score `a` is worse than score `b`.
fn is_worse(a: &Score, b: &Score) -> (r: bool)
    ensures
        r == score_less(*a, *b),
{
    if a.exact != b.exact {
        a.exact < b.exact
    } else if a.package != b.package {
        a.package < b.package
    } else if a.unknown_neutral != b.unknown_neutral {
        a.unknown_neutral < b.unknown_neutral
    } else if a.tier != b.tier {
        a.tier < b.tier
    } else if a.count != b.count {
        a.count < b.count
    } else if a.weak != b.weak {
        a.weak < b.weak
    } else {
        a.generic_tie < b.generic_tie
    }
}

/// Whether the host can run the variant: the baseline runs everywhere, any other
/// variant where the host has every feature that it requires.
pub open spec fn eligible(host: HostInfo, variant: VariantMeta) -> bool {
    variant.target_kind is Generic || variant.required_features@.subset_of(host.features@)
}

/// Whether the variant is tuned for one core type and the host has several.
pub open spec fn downgraded(host: HostInfo, variant: VariantMeta) -> bool {
    host.heterogeneous && variant.target_kind.core_specific()
}

/// The score of a variant on a host.
pub open spec fn score_of(host: HostInfo, variant: VariantMeta) -> Score {
    let kind = variant.target_kind;
    let down = downgraded(host, variant);
    Score {
        exact: if !down && is_exact(host.identity, kind, variant.target_cpu@) { 2 } else { 0 },
        package: if host.heterogeneous && kind.package_level() { 1 } else { 0 },
        unknown_neutral: if host.identity is Unknown && kind is X86NeutralLevel { 1 } else { 0 },
        tier: if down { 0 } else { variant.feature_tier },
        count: if down { 0 } else { variant.rank_feature_count },
        weak: if !down && same_maker(host.identity, kind) { 1 } else { 0 },
        generic_tie: if kind is Generic { 1 } else { 0 },
    }
}

/// Whether the host can run the variant.
pub fn variant_eligible(host: HostInfo, variant: &VariantMeta) -> (r: bool)
    ensures
        r == eligible(host, *variant),
{
    variant.target_kind.is_generic() || variant.required_features.is_subset_of(host.features)
}

/// The score of a variant on a host.
pub fn score(host: HostInfo, variant: &VariantMeta) -> (r: Score)
    ensures
        r == score_of(host, *variant),
{
    let kind = variant.target_kind;
    let down = host.heterogeneous && kind.is_core_specific();
    let exact = exact_affinity(host.identity, kind, variant.target_cpu);
    let weak = weak_affinity(host.identity, kind);
    Score {
        exact: if down { 0 } else { exact },
        package: if host.heterogeneous && kind.is_package_level() { 1 } else { 0 },
        unknown_neutral: if host.identity == CpuIdentity::Unknown && kind.is_neutral_x86() {
            1
        } else {
            0
        },
        tier: if down { 0 } else { variant.feature_tier },
        count: if down { 0 } else { variant.rank_feature_count },
        weak: if down { 0 } else { weak },
        generic_tie: if kind.is_generic() { 1 } else { 0 },
    }
}

/// The parts of a score that a report shows.
#[derive(Clone, Copy, Debug, PartialEq, Eq, Structural)]
pub struct SelectionScore {
    pub exact: u8,
    pub vendor_affinity: u8,
    /// The tier and the number of features, the tier counting more than any number
    /// of features.
    pub feature_score: u32,
}

/// The parts of a score that a report shows.
pub open spec fn shown_score(score: Score) -> SelectionScore {
    SelectionScore {
        exact: score.exact,
        vendor_affinity: score.weak,
        feature_score: (65536 * score.tier + score.count) as u32,
    }
}

/// The parts of a variant's score that a report shows.
pub fn selection_score(host: HostInfo, variant: &VariantMeta) -> (r: SelectionScore)
    ensures
        r == shown_score(score_of(host, *variant)),
        r.feature_score == 65536 * score_of(host, *variant).tier + score_of(host, *variant).count,
{
    let s = score(host, variant);
    SelectionScore {
        exact: s.exact,
        vendor_affinity: s.weak,
        feature_score: 65536 * (s.tier as u32) + s.count as u32,
    }
}

// ---------------------------------------------------------------------------
// Selection

/// Whether variant `a` is to be preferred to variant `b`: its score is better, or
/// the scores are the same and its name comes first.
pub open spec fn better(host: HostInfo, a: VariantMeta, b: VariantMeta) -> bool {
    ||| score_less(score_of(host, b), score_of(host, a))
    ||| score_of(host, a) == score_of(host, b) && text::text_less(a.target_cpu@, b.target_cpu@)
}

/// Whether variant `a` is to be preferred to variant `b`.
pub fn is_better(host: HostInfo, a: &VariantMeta, b: &VariantMeta) -> (r: bool)
    ensures
        r == better(host, *a, *b),
{
    let x = score(host, a);
    let y = score(host, b);
    is_worse(&y, &x) || (x == y && str_less(a.target_cpu, b.target_cpu))
}

/// Preference is a strict weak order: no variant is better than itself, and what is
/// better than a variant is better than everything that this variant is no worse
/// than.
pub proof fn preference_is_an_order(host: HostInfo, a: VariantMeta, b: VariantMeta, c: VariantMeta)
    ensures
        !better(host, a, a),
        better(host, a, b) && !better(host, c, b) ==> better(host, a, c),
        better(host, a, b) && better(host, b, c) ==> better(host, a, c),
        !better(host, a, b) && !better(host, b, a) ==> a.target_cpu@ == b.target_cpu@,
{
    let (x, y, z) = (a.target_cpu@, b.target_cpu@, c.target_cpu@);
    text::text_less_irreflexive(x);
    text::text_less_total(x, y);
    text::text_less_total(y, z);
    text::text_less_total(x, z);
    if text::text_less(x, y) && text::text_less(y, z) {
        text::text_less_transitive(x, y, z);
    }
    if text::text_less(z, x) && text::text_less(x, y) {
        text::text_less_transitive(z, x, y);
    }
}

/// Whether selection picks the variant at position `i`: the first of the best ones
/// among those that the host can run.
pub open spec fn picks(host: HostInfo, variants: Seq<VariantMeta>, i: int) -> bool {
    &&& 0 <= i < variants.len()
    &&& eligible(host, variants[i])
    &&& forall|j: int|
        0 <= j < i && eligible(host, variants[j]) ==> better(host, variants[i], #[trigger] variants[j])
    &&& forall|j: int|
        i < j < variants.len() && eligible(host, variants[j]) ==> !better(
            host,
            #[trigger] variants[j],
            variants[i],
        )
}

/// The variant that the host should run: the best of those that it can run, and the
/// first one where it can run none.
pub fn select_variant<'a>(host: HostInfo, variants: &'a [VariantMeta]) -> (r: &'a VariantMeta)
    requires
        variants@.len() > 0,
    ensures
        (exists|i: int| 0 <= i < variants@.len() && eligible(host, #[trigger] variants@[i])) ==> exists|
            i: int,
        | #[trigger] picks(host, variants@, i) && *r == variants@[i],
        (forall|i: int| 0 <= i < variants@.len() ==> !eligible(host, #[trigger] variants@[i])) ==> *r
            == variants@[0],
{
    let mut best: Option<usize> = None;
    let mut k: usize = 0;
    while k < variants.len()
        invariant
            k <= variants@.len(),
            match best {
                None => forall|j: int| 0 <= j < k ==> !eligible(host, #[trigger] variants@[j]),
                Some(b) => b < k && picks(host, variants@.take(k as int), b as int),
            },
        decreases variants@.len() - k,
    {
        let ghost seen = variants@.take(k as int);
        let ghost next = variants@.take(k + 1);
        assert(next =~= seen.push(variants@[k as int]));
        let variant = &variants[k];
        if variant_eligible(host, variant) {
            match best {
                None => {
                    best = Some(k);
                    assert forall|j: int| 0 <= j < k implies !eligible(host, next[j]) by {
                        assert(!eligible(host, variants@[j]));
                    }
                    assert(picks(host, next, k as int));
                },
                Some(b) => {
                    if is_better(host, variant, &variants[b]) {
                        best = Some(k);
                        proof {
                            assert forall|j: int| 0 <= j < k && eligible(host, next[j]) implies better(
                                host,
                                next[k as int],
                                #[trigger] next[j],
                            ) by {
                                assert(next[j] == seen[j]);
                                preference_is_an_order(host, next[k as int], seen[b as int], seen[j]);
                                preference_is_an_order(host, seen[j], seen[b as int], seen[j]);
                                if better(host, seen[b as int], seen[j]) && better(
                                    host,
                                    seen[j],
                                    seen[b as int],
                                ) {
                                    preference_is_an_order(
                                        host,
                                        seen[b as int],
                                        seen[j],
                                        seen[b as int],
                                    );
                                }
                            }
                            assert(picks(host, next, k as int));
                        }
                    } else {
                        assert forall|j: int| 0 <= j < b && eligible(host, next[j]) implies better(
                            host,
                            next[b as int],
                            #[trigger] next[j],
                        ) by {
                            assert(next[j] == seen[j]);
                        }
                        assert forall|j: int| b < j < next.len() && eligible(host, next[j]) implies !better(
                            host,
                            #[trigger] next[j],
                            next[b as int],
                        ) by {
                            if j < k {
                                assert(next[j] == seen[j]);
                            }
                        }
                        assert(picks(host, next, b as int));
                    }
                },
            }
        } else {
            proof {
                match best {
                    None => {},
                    Some(b) => {
                        assert forall|j: int| 0 <= j < b && eligible(host, next[j]) implies better(
                            host,
                            next[b as int],
                            #[trigger] next[j],
                        ) by {
                            assert(next[j] == seen[j]);
                        }
                        assert forall|j: int| b < j < next.len() && eligible(host, next[j]) implies !better(
                            host,
                            #[trigger] next[j],
                            next[b as int],
                        ) by {
                            if j < k {
                                assert(next[j] == seen[j]);
                            }
                        }
                        assert(picks(host, next, b as int));
                    },
                }
            }
        }
        k += 1;
    }
    assert(variants@.take(k as int) =~= variants@);
    match best {
        Some(b) => {
            assert(eligible(host, variants@[b as int]));
            &variants[b]
        },
        None => &variants[0],
    }
}

// ---------------------------------------------------------------------------
// Ranking

/// How many variants at the front of `ranked` are no worse than `variant`.
pub open spec fn place(host: HostInfo, ranked: Seq<VariantMeta>, variant: VariantMeta) -> nat
    decreases ranked.len(),
{
    if ranked.len() == 0 || better(host, variant, ranked[0]) {
        0
    } else {
        1 + place(host, ranked.drop_first(), variant)
    }
}

/// The variants that the host can run, the best first. Variants of which neither is
/// better keep their order.
pub open spec fn ranking(host: HostInfo, variants: Seq<VariantMeta>) -> Seq<VariantMeta>
    decreases variants.len(),
{
    if variants.len() == 0 {
        Seq::empty()
    } else {
        let ranked = ranking(host, variants.drop_last());
        if eligible(host, variants.last()) {
            ranked.insert(place(host, ranked, variants.last()) as int, variants.last())
        } else {
            ranked
        }
    }
}

proof fn place_splits(host: HostInfo, ranked: Seq<VariantMeta>, variant: VariantMeta)
    ensures
        place(host, ranked, variant) <= ranked.len(),
        forall|i: int| 0 <= i < place(host, ranked, variant) ==> !better(host, variant, #[trigger] ranked[i]),
        place(host, ranked, variant) < ranked.len() ==> better(
            host,
            variant,
            ranked[place(host, ranked, variant) as int],
        ),
    decreases ranked.len(),
{
    if ranked.len() > 0 && !better(host, variant, ranked[0]) {
        let rest = ranked.drop_first();
        place_splits(host, rest, variant);
        assert forall|i: int| 0 <= i < place(host, ranked, variant) implies !better(
            host,
            variant,
            #[trigger] ranked[i],
        ) by {
            if i > 0 {
                assert(ranked[i] == rest[i - 1]);
            }
        }
    }
}

/// The variants that the host can run, the best first.
pub fn rank_variants(host: HostInfo, variants: &[VariantMeta]) -> (ranked: Vec<VariantMeta>)
    ensures
        ranked@ == ranking(host, variants@),
{
    let mut ranked: Vec<VariantMeta> = Vec::new();
    let mut k: usize = 0;
    while k < variants.len()
        invariant
            k <= variants@.len(),
            ranked@ == ranking(host, variants@.take(k as int)),
        decreases variants@.len() - k,
    {
        assert(variants@.take(k + 1).drop_last() == variants@.take(k as int));
        if variant_eligible(host, &variants[k]) {
            let ghost whole = place(host, ranked@, variants@[k as int]);
            let mut at: usize = 0;
            assert(ranked@.skip(0) == ranked@);
            while at < ranked.len() && !is_better(host, &variants[k], &ranked[at])
                invariant
                    k < variants@.len(),
                    at <= ranked@.len(),
                    at + place(host, ranked@.skip(at as int), variants@[k as int]) == whole,
                decreases ranked@.len() - at,
            {
                assert(ranked@.skip(at as int).drop_first() == ranked@.skip(at + 1));
                at += 1;
            }
            ranked.insert(at, variants[k]);
        }
        k += 1;
    }
    assert(variants@.take(k as int) == variants@);
    ranked
}

/// No variant of a ranking is better than one that stands before it.
pub proof fn ranking_is_sorted(host: HostInfo, variants: Seq<VariantMeta>)
    ensures
        forall|i: int, j: int|
            0 <= i < j < ranking(host, variants).len() ==> !better(
                host,
                #[trigger] ranking(host, variants)[j],
                #[trigger] ranking(host, variants)[i],
            ),
    decreases variants.len(),
{
    if variants.len() > 0 {
        let last = variants.last();
        let before = ranking(host, variants.drop_last());
        ranking_is_sorted(host, variants.drop_last());
        if eligible(host, last) {
            let p = place(host, before, last) as int;
            let after = before.insert(p, last);
            place_splits(host, before, last);
            assert forall|i: int, j: int| 0 <= i < j < after.len() implies !better(
                host,
                #[trigger] after[j],
                #[trigger] after[i],
            ) by {
                let old = |k: int| if k < p { k } else { k - 1 };
                if j == p {
                    assert(after[i] == before[i]);
                } else if i == p {
                    assert(after[j] == before[j - 1]);
                    preference_is_an_order(host, before[j - 1], last, before[p]);
                    preference_is_an_order(host, last, before[p], before[j - 1]);
                    if better(host, before[j - 1], last) {
                        assert(better(host, before[j - 1], before[p]));
                        if j - 1 > p {
                            assert(!better(host, before[j - 1], before[p]));
                        } else {
                            preference_is_an_order(host, before[p], before[p], before[p]);
                        }
                    }
                } else {
                    assert(after[i] == before[old(i)]);
                    assert(after[j] == before[old(j)]);
                }
            }
        }
    }
}

/// A ranking holds the variants that the host can run, each as often as the list
/// that was ranked.
pub proof fn ranking_is_complete(host: HostInfo, variants: Seq<VariantMeta>)
    ensures
        ranking(host, variants).to_multiset() == variants.filter(
            |v: VariantMeta| eligible(host, v),
        ).to_multiset(),
    decreases variants.len(),
{
    broadcast use vstd::seq_lib::group_to_multiset_ensures;

    let runs = |v: VariantMeta| eligible(host, v);
    reveal(Seq::filter);
    if variants.len() > 0 {
        let last = variants.last();
        let before = ranking(host, variants.drop_last());
        ranking_is_complete(host, variants.drop_last());
        place_splits(host, before, last);
        if eligible(host, last) {
            let p = place(host, before, last) as int;
            vstd::seq_lib::to_multiset_insert(before, p, last);
            vstd::seq_lib::to_multiset_build(variants.drop_last().filter(runs), last);
        }
    } else {
        assert(ranking(host, variants) =~= variants.filter(runs));
    }
}

/// Every variant of a ranking comes from the list, and the host can run it.
pub proof fn ranking_holds_eligible(host: HostInfo, variants: Seq<VariantMeta>, i: int)
    requires
        0 <= i < ranking(host, variants).len(),
    ensures
        exists|j: int|
            0 <= j < variants.len() && eligible(host, variants[j]) && #[trigger] variants[j]
                == ranking(host, variants)[i],
    decreases variants.len(),
{
    let last = variants.last();
    let shorter = variants.drop_last();
    let before = ranking(host, shorter);
    place_splits(host, before, last);
    let p = place(host, before, last) as int;
    if eligible(host, last) && i == p {
        assert(variants[variants.len() - 1] == ranking(host, variants)[i]);
    } else {
        let k = if eligible(host, last) && i > p {
            i - 1
        } else {
            i
        };
        ranking_holds_eligible(host, shorter, k);
        let j = choose|j: int|
            0 <= j < shorter.len() && eligible(host, shorter[j]) && #[trigger] shorter[j]
                == before[k];
        assert(variants[j] == shorter[j]);
    }
}

/// The variant that selection picks stands first in the ranking.
pub proof fn selection_heads_ranking(host: HostInfo, variants: Seq<VariantMeta>, i: int)
    requires
        picks(host, variants, i),
    ensures
        ranking(host, variants).len() > 0,
        ranking(host, variants)[0] == variants[i],
    decreases variants.len(),
{
    let last = variants.last();
    let shorter = variants.drop_last();
    let before = ranking(host, shorter);
    place_splits(host, before, last);
    if i == variants.len() - 1 {
        if before.len() > 0 {
            ranking_holds_eligible(host, shorter, 0);
            let j = choose|j: int|
                0 <= j < shorter.len() && eligible(host, shorter[j]) && #[trigger] shorter[j]
                    == before[0];
            assert(variants[j] == shorter[j]);
            assert(better(host, variants[i], variants[j]));
        }
    } else {
        assert forall|j: int| 0 <= j < i && eligible(host, shorter[j]) implies better(
            host,
            shorter[i],
            #[trigger] shorter[j],
        ) by {
            assert(shorter[j] == variants[j]);
        }
        assert forall|j: int| i < j < shorter.len() && eligible(host, shorter[j]) implies !better(
            host,
            #[trigger] shorter[j],
            shorter[i],
        ) by {
            assert(shorter[j] == variants[j]);
        }
        selection_heads_ranking(host, shorter, i);
        if eligible(host, last) {
            assert(last == variants[variants.len() - 1]);
            assert(!better(host, last, variants[i]));
            assert(place(host, before, last) > 0);
        }
    }
}

/// Where a baseline variant is among the variants, selection picks one that the host
/// can run, and none that the host can run is better.
pub proof fn baseline_makes_selection_safe(
    host: HostInfo,
    variants: Seq<VariantMeta>,
    base: int,
    i: int,
    j: int,
)
    requires
        0 <= base < variants.len(),
        variants[base].target_kind is Generic,
        picks(host, variants, i),
        0 <= j < variants.len(),
        eligible(host, variants[j]),
    ensures
        eligible(host, variants[base]),
        eligible(host, variants[i]),
        !better(host, variants[j], variants[i]),
{
    preference_is_an_order(host, variants[i], variants[j], variants[i]);
    if j < i {
        assert(better(host, variants[i], variants[j]));
    } else if j > i {
        assert(!better(host, variants[j], variants[i]));
    }
}

/// At most one position is the one that selection picks.
pub proof fn selection_is_unique(host: HostInfo, variants: Seq<VariantMeta>, i: int, j: int)
    requires
        picks(host, variants, i),
        picks(host, variants, j),
    ensures
        i == j,
{
    if i < j {
        assert(!better(host, variants[j], variants[i]));
        assert(better(host, variants[j], variants[i]));
    } else if j < i {
        assert(!better(host, variants[i], variants[j]));
        assert(better(host, variants[i], variants[j]));
    }
}

/// A variant with exact affinity to the host is better than every variant without,
/// unless the host has several core types and the variant is tuned for one.
pub proof fn exact_affinity_wins(host: HostInfo, a: VariantMeta, b: VariantMeta)
    requires
        is_exact(host.identity, a.target_kind, a.target_cpu@),
        !is_exact(host.identity, b.target_kind, b.target_cpu@),
        !downgraded(host, a),
    ensures
        better(host, a, b),
{
}

/// On a host of unknown identity and one core type, a vendor-neutral x86 level is
/// better than every variant that is not one.
pub proof fn neutral_level_wins_on_unknown_host(host: HostInfo, a: VariantMeta, b: VariantMeta)
    requires
        host.identity is Unknown,
        !host.heterogeneous,
        a.target_kind is X86NeutralLevel,
        !(b.target_kind is X86NeutralLevel),
    ensures
        better(host, a, b),
{
}

/// Selection depends neither on the order of the variants nor on those that the host cannot
/// run: in two lists with the same variants that it can run, it picks the same target CPU with
/// the same score, and the same variant if no two of them are for one target CPU.
pub proof fn selection_ignores_order_and_ineligible(
    host: HostInfo,
    variants: Seq<VariantMeta>,
    others: Seq<VariantMeta>,
    i: int,
    j: int,
)
    requires
        forall|v: VariantMeta|
            eligible(host, v) ==> #[trigger] variants.contains(v) == others.contains(v),
        picks(host, variants, i),
        picks(host, others, j),
    ensures
        variants[i].target_cpu@ == others[j].target_cpu@,
        score_of(host, variants[i]) == score_of(host, others[j]),
        (forall|a: int, b: int|
            0 <= a < b < variants.len() && eligible(host, variants[a]) && eligible(
                host,
                variants[b],
            ) ==> (#[trigger] variants[a]).target_cpu@ != (#[trigger] variants[b]).target_cpu@)
            ==> variants[i] == others[j],
{
    let (x, y) = (variants[i], others[j]);
    assert(variants.contains(x));
    assert(others.contains(x));
    let k = choose|k: int| 0 <= k < others.len() && others[k] == x;
    assert(others.contains(y));
    assert(variants.contains(y));
    let m = choose|m: int| 0 <= m < variants.len() && variants[m] == y;
    preference_is_an_order(host, x, y, x);
    preference_is_an_order(host, y, x, y);
    assert(!better(host, x, y)) by {
        if k < j {
            assert(better(host, y, others[k]));
        } else if k > j {
            assert(!better(host, others[k], y));
        }
    }
    assert(!better(host, y, x)) by {
        if m < i {
            assert(better(host, x, variants[m]));
        } else if m > i {
            assert(!better(host, variants[m], x));
        }
    }
}

/// A processor is the very one of at most one kind of target CPU, and but for AMD's Zen
/// processors, which the kind alone tells, of at most one target CPU.
pub proof fn exact_target_is_unique(
    identity: CpuIdentity,
    kind: TargetKind,
    cpu: Seq<char>,
    other_kind: TargetKind,
    other_cpu: Seq<char>,
)
    requires
        is_exact(identity, kind, cpu),
        is_exact(identity, other_kind, other_cpu),
    ensures
        kind == other_kind,
        !(kind is X86AmdZen) ==> cpu == other_cpu,
{
}

// ---------------------------------------------------------------------------
// What decides between two variants

/// A host can run a variant that is not the baseline if and only if it has each single feature
/// that the variant requires, and it can run every baseline.
pub proof fn a_missing_feature_bars(host: HostInfo, variant: VariantMeta, r: bool)
    requires
        call_ensures(variant_eligible, (host, &variant), r),
    ensures
        variant.target_kind is Generic ==> r,
        forall|i: int|
            variant.required_features.has_bit(i) && !host.features.has_bit(i) && !(
            variant.target_kind is Generic) ==> !r,
        (forall|i: int|
            variant.required_features.has_bit(i) ==> #[trigger] host.features.has_bit(i)) ==> r,
{
    assert forall|i: int|
        variant.required_features.has_bit(i) && !host.features.has_bit(i) && !(
        variant.target_kind is Generic) implies !r by {
        assert(variant.required_features@.contains(i));
        assert(!host.features@.contains(i));
    }
    if forall|i: int|
        variant.required_features.has_bit(i) ==> #[trigger] host.features.has_bit(i) {
        assert(variant.required_features@.subset_of(host.features@));
    }
}

/// A host that gains features can still run whatever it could run, and a variant that
/// requires fewer features still runs wherever it ran.
pub proof fn more_host_features_never_bar(
    host: HostInfo,
    richer: HostInfo,
    variant: VariantMeta,
    frugal: VariantMeta,
    r: bool,
    s: bool,
)
    requires
        call_ensures(variant_eligible, (host, &variant), r),
        call_ensures(variant_eligible, (richer, &frugal), s),
        host.features@.subset_of(richer.features@),
        frugal.required_features@.subset_of(variant.required_features@),
        frugal.target_kind == variant.target_kind,
    ensures
        r ==> s,
{
}

/// Of two variants of one kind and one tier, both or neither of which are for the very
/// processor of the host, the one that makes use of more features is to be preferred, unless
/// the kind is that of one core type and the host has several.
pub proof fn more_features_win(host: HostInfo, a: VariantMeta, b: VariantMeta, r: bool)
    requires
        call_ensures(is_better, (host, &a, &b), r),
        a.target_kind == b.target_kind,
        is_exact(host.identity, a.target_kind, a.target_cpu@) == is_exact(
            host.identity,
            b.target_kind,
            b.target_cpu@,
        ),
        !host.heterogeneous || a.target_kind is X86NeutralLevel || a.target_kind is X86IntelCore
            || a.target_kind is X86IntelXeon || a.target_kind is X86AmdZen || a.target_kind
            is X86AmdOther || a.target_kind is Aarch64Apple || a.target_kind is Aarch64Ampere
            || a.target_kind is Aarch64Other || a.target_kind is Generic,
        a.feature_tier == b.feature_tier,
        a.rank_feature_count > b.rank_feature_count,
    ensures
        r,
{
}

/// On a host of known identity and one core type, what decides between two variants of which
/// both or neither are for the very processor of the host is, in this order: the tier, the
/// number of features that they make use of, whether the host has the maker that they are
/// tuned for, whether they are the baseline, and the lexical order of their names.
pub proof fn what_decides_on_a_known_host(
    host: HostInfo,
    a: VariantMeta,
    b: VariantMeta,
    maker_a: u8,
    maker_b: u8,
    r: bool,
)
    requires
        call_ensures(is_better, (host, &a, &b), r),
        call_ensures(weak_affinity, (host.identity, a.target_kind), maker_a),
        call_ensures(weak_affinity, (host.identity, b.target_kind), maker_b),
        !host.heterogeneous,
        !(host.identity is Unknown),
        is_exact(host.identity, a.target_kind, a.target_cpu@) == is_exact(
            host.identity,
            b.target_kind,
            b.target_cpu@,
        ),
    ensures
        a.feature_tier > b.feature_tier ==> r,
        a.feature_tier < b.feature_tier ==> !r,
        a.feature_tier == b.feature_tier && a.rank_feature_count > b.rank_feature_count ==> r,
        a.feature_tier == b.feature_tier && a.rank_feature_count < b.rank_feature_count ==> !r,
        a.feature_tier == b.feature_tier && a.rank_feature_count == b.rank_feature_count ==> {
            &&& maker_a > maker_b ==> r
            &&& maker_a < maker_b ==> !r
            &&& maker_a == maker_b && a.target_kind is Generic && !(b.target_kind is Generic) ==> r
            &&& maker_a == maker_b && !(a.target_kind is Generic) && b.target_kind is Generic ==> !r
            &&& maker_a == maker_b && (a.target_kind is Generic) == (b.target_kind is Generic)
                ==> r == text::text_less(a.target_cpu@, b.target_cpu@)
        },
{
}

/// On a host of unknown identity and one core type a vendor-neutral level is to be preferred
/// to anything else, and between two variants of which both or neither are vendor-neutral
/// levels the tier decides, then the number of features, then whether they are the baseline,
/// then the lexical order of their names.
pub proof fn what_decides_on_an_unknown_host(host: HostInfo, a: VariantMeta, b: VariantMeta, r: bool)
    requires
        call_ensures(is_better, (host, &a, &b), r),
        !host.heterogeneous,
        host.identity is Unknown,
    ensures
        a.target_kind is X86NeutralLevel && !(b.target_kind is X86NeutralLevel) ==> r,
        !(a.target_kind is X86NeutralLevel) && b.target_kind is X86NeutralLevel ==> !r,
        (a.target_kind is X86NeutralLevel) == (b.target_kind is X86NeutralLevel) ==> {
            &&& a.feature_tier > b.feature_tier ==> r
            &&& a.feature_tier < b.feature_tier ==> !r
            &&& a.feature_tier == b.feature_tier && a.rank_feature_count > b.rank_feature_count
                ==> r
            &&& a.feature_tier == b.feature_tier && a.rank_feature_count < b.rank_feature_count
                ==> !r
            &&& a.feature_tier == b.feature_tier && a.rank_feature_count == b.rank_feature_count
                ==> {
                &&& a.target_kind is Generic && !(b.target_kind is Generic) ==> r
                &&& !(a.target_kind is Generic) && b.target_kind is Generic ==> !r
                &&& (a.target_kind is Generic) == (b.target_kind is Generic) ==> r
                    == text::text_less(a.target_cpu@, b.target_cpu@)
            }
        },
{
}

/// On a host with several core types, a variant for a whole package is to be preferred to one
/// that is for none, unless the latter is for the very processor of the host and not for one
/// core type.
pub proof fn packages_win_on_a_mixed_host(host: HostInfo, a: VariantMeta, b: VariantMeta, r: bool)
    requires
        call_ensures(is_better, (host, &a, &b), r),
        host.heterogeneous,
        a.target_kind is X86IntelCore || a.target_kind is X86AmdZen || a.target_kind
            is X86NeutralLevel,
        !(b.target_kind is X86IntelCore || b.target_kind is X86AmdZen || b.target_kind
            is X86NeutralLevel),
        is_exact(host.identity, b.target_kind, b.target_cpu@) ==> b.target_kind is X86IntelAtom
            || b.target_kind is Aarch64ArmCortexA || b.target_kind is Aarch64ArmCortexX
            || b.target_kind is Aarch64ArmNeoverseN || b.target_kind is Aarch64ArmNeoverseV
            || b.target_kind is Aarch64ArmNeoverseE,
    ensures
        r,
{
}

/// On a host with several core types, a variant that is tuned for one of them is never to be
/// preferred to one of the same family of processors that is not and that has a tier or uses a
/// feature, whatever the two make use of and whichever of them names the processor.
pub proof fn core_types_lose_on_a_mixed_host(host: HostInfo, a: VariantMeta, b: VariantMeta, r: bool)
    requires
        call_ensures(is_better, (host, &a, &b), r),
        host.heterogeneous,
        a.target_kind is X86IntelAtom || a.target_kind is Aarch64ArmCortexA || a.target_kind
            is Aarch64ArmCortexX || a.target_kind is Aarch64ArmNeoverseN || a.target_kind
            is Aarch64ArmNeoverseV || a.target_kind is Aarch64ArmNeoverseE,
        !(b.target_kind is X86IntelAtom || b.target_kind is Aarch64ArmCortexA || b.target_kind
            is Aarch64ArmCortexX || b.target_kind is Aarch64ArmNeoverseN || b.target_kind
            is Aarch64ArmNeoverseV || b.target_kind is Aarch64ArmNeoverseE),
        b.feature_tier > 0 || b.rank_feature_count > 0 || b.target_kind is Generic,
    ensures
        !r,
{
}

/// On a host with several core types, between two variants for whole packages of which both or
/// neither are for the very processor of the host the tier decides, then the number of features
/// that they make use of, unless the host is unknown and only one is vendor-neutral.
pub proof fn what_decides_between_packages(host: HostInfo, a: VariantMeta, b: VariantMeta, r: bool)
    requires
        call_ensures(is_better, (host, &a, &b), r),
        host.heterogeneous,
        a.target_kind is X86IntelCore || a.target_kind is X86AmdZen || a.target_kind
            is X86NeutralLevel,
        b.target_kind is X86IntelCore || b.target_kind is X86AmdZen || b.target_kind
            is X86NeutralLevel,
        is_exact(host.identity, a.target_kind, a.target_cpu@) == is_exact(
            host.identity,
            b.target_kind,
            b.target_cpu@,
        ),
        host.identity is Unknown ==> (a.target_kind is X86NeutralLevel) == (b.target_kind
            is X86NeutralLevel),
    ensures
        a.feature_tier > b.feature_tier ==> r,
        a.feature_tier < b.feature_tier ==> !r,
        a.feature_tier == b.feature_tier && a.rank_feature_count > b.rank_feature_count ==> r,
        a.feature_tier == b.feature_tier && a.rank_feature_count < b.rank_feature_count ==> !r,
{
}

/// Selection never picks a vendor-neutral level where the host can run another one of the same
/// tier that makes use of more features.
pub proof fn selection_takes_the_highest_level(
    host: HostInfo,
    variants: &[VariantMeta],
    r: &VariantMeta,
    j: int,
)
    requires
        call_ensures(select_variant, (host, variants), r),
        r.target_kind is X86NeutralLevel,
        0 <= j < variants@.len(),
        variants@[j].target_kind is X86NeutralLevel,
        variants@[j].required_features@.subset_of(host.features@),
        variants@[j].feature_tier == r.feature_tier,
    ensures
        r.required_features@.subset_of(host.features@),
        variants@[j].rank_feature_count <= r.rank_feature_count,
{
    let i = selected_position(host, variants, r, j);
}

/// Selection picks one of the variants, one that the host can run if it can run any, and then
/// none that it can run is to be preferred.
pub proof fn selection_is_the_best(
    host: HostInfo,
    variants: &[VariantMeta],
    r: &VariantMeta,
    j: int,
    other: bool,
    other_is_better: bool,
)
    requires
        call_ensures(select_variant, (host, variants), r),
        0 <= j < variants@.len(),
        call_ensures(variant_eligible, (host, &variants@[j]), other),
        call_ensures(is_better, (host, &variants@[j], r), other_is_better),
    ensures
        variants@.contains(*r),
        other ==> r.target_kind is Generic || r.required_features@.subset_of(host.features@),
        other ==> !other_is_better,
{
    if other {
        let i = selected_position(host, variants, r, j);
    } else if exists|k: int| 0 <= k < variants@.len() && eligible(host, #[trigger] variants@[k]) {
        let i = choose|i: int| #[trigger] picks(host, variants@, i) && *r == variants@[i];
        assert(variants@.contains(variants@[i]));
    } else {
        assert forall|k: int| 0 <= k < variants@.len() implies !eligible(
            host,
            #[trigger] variants@[k],
        ) by {}
        assert(variants@.contains(variants@[0]));
    }
}

/// The position that selection picks, where the host can run the variant at `j`.
proof fn selected_position(
    host: HostInfo,
    variants: &[VariantMeta],
    r: &VariantMeta,
    j: int,
) -> (i: int)
    requires
        call_ensures(select_variant, (host, variants), r),
        0 <= j < variants@.len(),
        eligible(host, variants@[j]),
    ensures
        0 <= i < variants@.len(),
        *r == variants@[i],
        variants@.contains(*r),
        eligible(host, *r),
        !better(host, variants@[j], *r),
{
    let i = choose|i: int| #[trigger] picks(host, variants@, i) && *r == variants@[i];
    preference_is_an_order(host, *r, variants@[j], *r);
    preference_is_an_order(host, variants@[j], variants@[j], variants@[j]);
    if j < i {
        assert(better(host, variants@[i], variants@[j]));
    } else if j > i {
        assert(!better(host, variants@[j], variants@[i]));
    }
    i
}

/// A ranking begins with the variant that selection picks, and lists vendor-neutral levels of
/// one tier by falling number of features.
pub proof fn ranking_begins_with_the_selection(
    host: HostInfo,
    variants: &[VariantMeta],
    ranked: Vec<VariantMeta>,
    r: &VariantMeta,
    i: int,
    j: int,
)
    requires
        call_ensures(rank_variants, (host, variants), ranked),
        call_ensures(select_variant, (host, variants), r),
        0 <= i < j < ranked@.len(),
    ensures
        ranked@[0] == *r,
        ranked@[i].target_kind is X86NeutralLevel && ranked@[j].target_kind is X86NeutralLevel
            && ranked@[i].feature_tier == ranked@[j].feature_tier ==> ranked@[i].rank_feature_count
            >= ranked@[j].rank_feature_count,
        variants@.contains(ranked@[i]),
        ranked@[i].target_kind is Generic || ranked@[i].required_features@.subset_of(
            host.features@,
        ),
{
    ranking_holds_eligible(host, variants@, i);
    let k = choose|k: int|
        0 <= k < variants@.len() && eligible(host, variants@[k]) && #[trigger] variants@[k]
            == ranked@[i];
    let p = choose|p: int| #[trigger] picks(host, variants@, p) && *r == variants@[p];
    selection_heads_ranking(host, variants@, p);
    ranking_is_sorted(host, variants@);
    assert(!better(host, ranked@[j], ranked@[i]));
}

// ---------------------------------------------------------------------------
// Which processors are known

/// The Intel processors that have exact affinity, for each target CPU: family and model
/// numbers as the processor reports them.
pub proof fn known_intel_processors(
    family: u16,
    model: u16,
    stepping: u8,
    kind: TargetKind,
    cpu: &str,
    r: u8,
)
    requires
        call_ensures(
            exact_affinity,
            (CpuIdentity::X86 { vendor: X86Vendor::Intel, family, model, stepping }, kind, cpu),
            r,
        ),
    ensures
        r > 0 <==> {
            ||| kind is X86IntelCore && family == 0xf && cpu@ == "nocona"@ && model == 0x06
            ||| kind is X86IntelCore && family == 6 && {
                ||| cpu@ == "core2"@ && model == 0x0f
                ||| cpu@ == "penryn"@ && model == 0x17
                ||| cpu@ == "nehalem"@ && (model == 0x1a || model == 0x1e || model == 0x1f || model
                    == 0x2e)
                ||| cpu@ == "westmere"@ && (model == 0x25 || model == 0x2c || model == 0x2f)
                ||| cpu@ == "sandybridge"@ && (model == 0x2a || model == 0x2d)
                ||| cpu@ == "ivybridge"@ && (model == 0x3a || model == 0x3e)
                ||| cpu@ == "haswell"@ && (model == 0x3c || model == 0x3f || model == 0x45 || model
                    == 0x46)
                ||| cpu@ == "broadwell"@ && (model == 0x3d || model == 0x47 || model == 0x4f
                    || model == 0x56)
                ||| cpu@ == "skylake"@ && (model == 0x4e || model == 0x5e)
                ||| cpu@ == "rocketlake"@ && model == 0xa7
                ||| cpu@ == "alderlake"@ && (model == 0x97 || model == 0x9a)
                ||| cpu@ == "raptorlake"@ && (model == 0xb7 || model == 0xba || model == 0xbf)
                ||| cpu@ == "meteorlake"@ && (model == 0xaa || model == 0xac)
                ||| cpu@ == "arrowlake"@ && (model == 0xb5 || model == 0xc5)
                ||| cpu@ == "arrowlake-s"@ && model == 0xc6
                ||| cpu@ == "lunarlake"@ && model == 0xbd
                ||| cpu@ == "pantherlake"@ && model == 0xcc
            }
            ||| kind is X86IntelXeon && {
                ||| cpu@ == "sapphirerapids"@ && family == 6 && model == 0x8f
                ||| cpu@ == "emeraldrapids"@ && family == 6 && model == 0xcf
                ||| cpu@ == "graniterapids"@ && family == 6 && model == 0xad
                ||| cpu@ == "graniterapids-d"@ && family == 6 && model == 0xae
                ||| cpu@ == "diamondrapids"@ && family == 0x13 && model == 0x01
            }
            ||| kind is X86IntelAtom && family == 6 && {
                ||| cpu@ == "sierraforest"@ && model == 0xaf
                ||| cpu@ == "grandridge"@ && model == 0xb6
                ||| cpu@ == "clearwaterforest"@ && model == 0xdd
            }
        },
{
}

/// The AMD processors that have exact affinity: the models of each family go by blocks of
/// sixteen, and the generation of a Zen processor tells its target CPU.
pub proof fn known_amd_processors(
    family: u16,
    model: u16,
    stepping: u8,
    kind: TargetKind,
    cpu: &str,
    r: u8,
)
    requires
        call_ensures(
            exact_affinity,
            (CpuIdentity::X86 { vendor: X86Vendor::Amd, family, model, stepping }, kind, cpu),
            r,
        ),
    ensures
        r > 0 <==> {
            let block = model as int / 16;
            ||| kind is X86AmdOther && family == 15 && cpu@ == "k8-sse3"@
            ||| kind == (TargetKind::X86AmdZen { generation: 1 }) && family == 23 && (block == 1
                || block == 2)
            ||| kind == (TargetKind::X86AmdZen { generation: 2 }) && family == 23 && (block == 3
                || block == 6 || block == 7 || block == 9 || block == 10 || model == 71 || model
                == 132 || model == 133 || model == 134 || model == 135)
            ||| kind == (TargetKind::X86AmdZen { generation: 3 }) && family == 25 && (block == 0
                || block == 2 || block == 3 || block == 4 || block == 5)
            ||| kind == (TargetKind::X86AmdZen { generation: 4 }) && family == 25 && (block == 1
                || block == 6 || block == 7 || block == 10)
            ||| kind == (TargetKind::X86AmdZen { generation: 5 }) && family == 26 && (block <= 4
                || block == 6 || (block == 7 || block == 13) && model as int % 16 < 8)
        },
{
}

/// The AArch64 processors that have exact affinity, for each target CPU. All but the A64FX are
/// Arm's own.
pub proof fn known_arm_processors(
    implementer: u16,
    part: u16,
    variant: u8,
    revision: u8,
    kind: TargetKind,
    cpu: &str,
    r: u8,
)
    requires
        call_ensures(
            exact_affinity,
            (CpuIdentity::Aarch64 { implementer, part, variant, revision }, kind, cpu),
            r,
        ),
    ensures
        r > 0 <==> {
            ||| implementer == 70 && part == 1 && kind is Aarch64Other && cpu@ == "a64fx"@
            ||| implementer == 65 && kind is Aarch64ArmCortexA && {
                ||| cpu@ == "cortex-a35"@ && part == 3332
                ||| cpu@ == "cortex-a53"@ && part == 3331
                ||| cpu@ == "cortex-a55"@ && part == 3333
                ||| cpu@ == "cortex-a57"@ && part == 3335
                ||| cpu@ == "cortex-a72"@ && part == 3336
                ||| cpu@ == "cortex-a76"@ && part == 3339
                ||| cpu@ == "cortex-a510"@ && part == 3398
                ||| cpu@ == "cortex-a520"@ && part == 3456
                ||| cpu@ == "cortex-a710"@ && part == 3399
                ||| cpu@ == "cortex-a715"@ && part == 3405
                ||| cpu@ == "cortex-a720"@ && part == 3457
                ||| cpu@ == "cortex-a725"@ && part == 3463
            }
            ||| implementer == 65 && kind is Aarch64ArmNeoverseE && cpu@ == "neoverse-e1"@ && part
                == 3402
            ||| implementer == 65 && kind is Aarch64ArmNeoverseN && {
                ||| cpu@ == "neoverse-n1"@ && part == 3340
                ||| cpu@ == "neoverse-n2"@ && part == 3401
                ||| cpu@ == "neoverse-n3"@ && part == 3470
            }
            ||| implementer == 65 && kind is Aarch64ArmNeoverseV && {
                ||| cpu@ == "neoverse-v1"@ && part == 3392
                ||| cpu@ == "neoverse-v2"@ && part == 3407
                ||| cpu@ == "neoverse-v3"@ && part == 3460
                ||| cpu@ == "neoverse-v3ae"@ && part == 3459
            }
        },
{
}

/// An unknown processor, and one of another x86 maker, has affinity with nothing.
pub proof fn strangers_have_no_affinity(
    identity: CpuIdentity,
    kind: TargetKind,
    cpu: &str,
    exact: u8,
    weak: u8,
)
    requires
        call_ensures(exact_affinity, (identity, kind, cpu), exact),
        call_ensures(weak_affinity, (identity, kind), weak),
        match identity {
            CpuIdentity::Unknown => true,
            CpuIdentity::X86 { vendor, .. } => vendor is Other,
            CpuIdentity::Aarch64 { implementer, .. } => implementer != 0x41 && implementer != 0x46
                && implementer != 0xc0,
        },
    ensures
        exact == 0,
        weak == 0,
{
}

/// A processor with exact affinity has the maker of the target CPU too, but for the A64FX,
/// and exact affinity counts more than having the maker.
pub proof fn exact_affinity_implies_the_maker(
    identity: CpuIdentity,
    kind: TargetKind,
    cpu: &str,
    exact: u8,
    weak: u8,
)
    requires
        call_ensures(exact_affinity, (identity, kind, cpu), exact),
        call_ensures(weak_affinity, (identity, kind), weak),
    ensures
        exact > 0 && !(kind is Aarch64Other) ==> weak > 0 && exact > weak,
        kind is Generic || kind is X86NeutralLevel || kind is Aarch64Apple || kind is Aarch64Other
            ==> weak == 0,
        kind is Generic || kind is X86NeutralLevel || kind is Aarch64Apple || kind is Aarch64Ampere
            || kind is Aarch64ArmCortexX ==> exact == 0,
{
}

/// Which kinds of target CPU are tuned for the maker of the processor.
pub proof fn makers_and_their_kinds(identity: CpuIdentity, kind: TargetKind, weak: u8)
    requires
        call_ensures(weak_affinity, (identity, kind), weak),
    ensures
        kind is X86IntelCore || kind is X86IntelXeon || kind is X86IntelAtom ==> (weak > 0
            <==> (identity matches CpuIdentity::X86 { vendor, .. } && vendor is Intel)),
        kind is X86AmdZen || kind is X86AmdOther ==> (weak > 0 <==> (identity matches
            CpuIdentity::X86 { vendor, .. } && vendor is Amd)),
        kind is Aarch64ArmNeoverseN || kind is Aarch64ArmNeoverseV || kind is Aarch64ArmNeoverseE
            || kind is Aarch64ArmCortexA || kind is Aarch64ArmCortexX ==> (weak > 0
            <==> (identity matches CpuIdentity::Aarch64 { implementer, .. } && implementer == 65)),
        kind is Aarch64Ampere ==> (weak > 0 <==> (identity matches CpuIdentity::Aarch64 {
            implementer,
            ..
        } && implementer == 192)),
{
}

/// On a host with one core type a report shows the two affinities as they are, and its feature
/// score orders variants by tier, then by the number of features that they make use of.
pub proof fn shown_scores_order_by_tier(
    host: HostInfo,
    a: VariantMeta,
    b: VariantMeta,
    x: SelectionScore,
    y: SelectionScore,
    exact: u8,
    weak: u8,
)
    requires
        call_ensures(exact_affinity, (host.identity, a.target_kind, a.target_cpu), exact),
        call_ensures(weak_affinity, (host.identity, a.target_kind), weak),
        call_ensures(selection_score, (host, &a), x),
        call_ensures(selection_score, (host, &b), y),
        !host.heterogeneous,
    ensures
        x.feature_score > y.feature_score <==> a.feature_tier > b.feature_tier || a.feature_tier
            == b.feature_tier && a.rank_feature_count > b.rank_feature_count,
        x.exact == exact,
        x.vendor_affinity == weak,
{
}

// ---------------------------------------------------------------------------
// The loader's choice

/// Whether position `i` holds the first variant of the generic kind.
pub open spec fn first_generic(variants: Seq<VariantMeta>, i: int) -> bool {
    &&& 0 <= i < variants.len()
    &&& variants[i].target_kind is Generic
    &&& forall|j: int| 0 <= j < i ==> !((#[trigger] variants[j]).target_kind is Generic)
}

/// The first variant of the generic kind; the first variant if there is none.
pub fn generic_meta<'a>(variants: &'a [VariantMeta]) -> (r: &'a VariantMeta)
    requires
        variants@.len() > 0,
    ensures
        if exists|i: int| #[trigger] first_generic(variants@, i) {
            exists|i: int| #[trigger] first_generic(variants@, i) && *r == variants@[i]
        } else {
            *r == variants@[0]
        },
{
    let mut i: usize = 0;
    while i < variants.len()
        invariant
            i <= variants@.len(),
            forall|j: int| 0 <= j < i ==> !((#[trigger] variants@[j]).target_kind is Generic),
        decreases variants@.len() - i,
    {
        if variants[i].target_kind.is_generic() {
            assert(first_generic(variants@, i as int));
            return &variants[i];
        }
        i += 1;
    }
    &variants[0]
}

/// Whether the variant is the one that the loader runs on a host: what selection picks, or
/// the baseline where selection is switched off.
pub open spec fn loader_runs(
    host: HostInfo,
    variants: Seq<VariantMeta>,
    enabled: bool,
    chosen: VariantMeta,
) -> bool {
    if enabled {
        if exists|j: int| 0 <= j < variants.len() && eligible(host, #[trigger] variants[j]) {
            exists|i: int| #[trigger] picks(host, variants, i) && chosen == variants[i]
        } else {
            chosen == variants[0]
        }
    } else {
        if exists|i: int| #[trigger] first_generic(variants, i) {
            exists|i: int| #[trigger] first_generic(variants, i) && chosen == variants[i]
        } else {
            chosen == variants[0]
        }
    }
}

/// The variant that the loader runs on a host.
pub fn loader_choice<'a>(host: HostInfo, variants: &'a [VariantMeta], enabled: bool) -> (r:
    &'a VariantMeta)
    requires
        variants@.len() > 0,
    ensures
        loader_runs(host, variants@, enabled, *r),
{
    if enabled {
        let r = select_variant(host, variants);
        proof {
            if !(exists|j: int| 0 <= j < variants@.len() && eligible(host, #[trigger] variants@[j])) {
                assert forall|j: int| 0 <= j < variants@.len() implies !eligible(
                    host,
                    #[trigger] variants@[j],
                ) by {}
            }
        }
        r
    } else {
        generic_meta(variants)
    }
}

/// A loader that carries the baseline never runs a variant that needs a feature which the
/// host lacks, and with selection switched off it runs the baseline on every host.
pub proof fn loader_runs_what_the_host_can(
    host: HostInfo,
    variants: Seq<VariantMeta>,
    enabled: bool,
    chosen: VariantMeta,
    base: int,
)
    requires
        0 <= base < variants.len(),
        variants[base].target_kind is Generic,
        loader_runs(host, variants, enabled, chosen),
    ensures
        chosen.target_kind is Generic || chosen.required_features@.subset_of(host.features@),
        !enabled ==> chosen.target_kind is Generic,
{
    assert(eligible(host, variants[base]));
    if !enabled {
        generic_has_a_first(variants, base);
    }
}

proof fn generic_has_a_first(variants: Seq<VariantMeta>, base: int)
    requires
        0 <= base < variants.len(),
        variants[base].target_kind is Generic,
    ensures
        exists|i: int| #[trigger] first_generic(variants, i),
    decreases base,
{
    if exists|j: int| 0 <= j < base && (#[trigger] variants[j]).target_kind is Generic {
        let j = choose|j: int| 0 <= j < base && (#[trigger] variants[j]).target_kind is Generic;
        generic_has_a_first(variants, j);
    } else {
        assert(first_generic(variants, base));
    }
}

/// What the loader runs can run on the host wherever a variant can; switched off, it runs the
/// first variant that needs nothing, or else the first one.
pub proof fn the_loader_runs_what_can_run(
    host: HostInfo,
    variants: &[VariantMeta],
    some: int,
    chosen: &VariantMeta,
    plain: &VariantMeta,
)
    requires
        variants@.len() > 0,
        call_ensures(loader_choice, (host, variants, true), chosen),
        call_ensures(loader_choice, (host, variants, false), plain),
        0 <= some < variants@.len(),
    ensures
        variants@[some].target_kind is Generic || variants@[some].required_features@.subset_of(
            host.features@,
        ) ==> chosen.target_kind is Generic || chosen.required_features@.subset_of(host.features@),
        variants@.contains(*chosen),
        variants@.contains(*plain),
        variants@[some].target_kind is Generic ==> plain.target_kind is Generic,
        variants@[some].target_kind is Generic && (forall|j: int|
            0 <= j < some ==> !((#[trigger] variants@[j]).target_kind is Generic)) ==> *plain
            == variants@[some],
        (forall|j: int| 0 <= j < variants@.len() ==> !((#[trigger] variants@[j]).target_kind
            is Generic)) ==> *plain == variants@[0],
{
    let args = (host, variants, true);
    let off = (host, variants, false);
    let all = args.1@;
    assert(loader_runs(args.0, all, true, *chosen));
    assert(loader_runs(off.0, off.1@, false, *plain));
    assert(all.contains(all[0]));
    if exists|j: int| 0 <= j < all.len() && eligible(host, #[trigger] all[j]) {
        let i = choose|i: int| #[trigger] picks(host, all, i) && *chosen == all[i];
        assert(all.contains(all[i]));
        assert(eligible(host, all[i]));
    } else {
        assert(!eligible(host, all[some]));
    }
    if exists|i: int| #[trigger] first_generic(all, i) {
        let i = choose|i: int| #[trigger] first_generic(all, i) && *plain == all[i];
        assert(all.contains(all[i]));
        if i < some {
            assert(all[i].target_kind is Generic);
        }
    } else if variants@[some].target_kind is Generic {
        first_generic_exists(all, some);
    }
}

proof fn first_generic_exists(all: Seq<VariantMeta>, some: int)
    requires
        0 <= some < all.len(),
        all[some].target_kind is Generic,
    ensures
        exists|i: int| #[trigger] first_generic(all, i),
    decreases some,
{
    if exists|j: int| 0 <= j < some && (#[trigger] all[j]).target_kind is Generic {
        let j = choose|j: int| 0 <= j < some && (#[trigger] all[j]).target_kind is Generic;
        first_generic_exists(all, j);
    } else {
        assert(first_generic(all, some));
    }
}

} // verus!
