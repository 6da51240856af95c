//! What kind of processor a target CPU stands for, and what that means for selection.
use crate::select::{self, CpuIdentity, HostInfo, TargetKind};
use crate::text::{
    self, contains, list_contains, lists_equal, parse_small_number, starts_with, str_eq,
    trim_start_matches,
};
use crate::text_laws;
use vstd::prelude::*;
use vstd::string::StringExecFns;

verus! {

/// The tier of a vendor-neutral x86-64 level.
pub const X86_NEUTRAL_TIER: u8 = 1;

/// The tier of any other x86-64 target CPU but the baseline.
pub const X86_SPECIFIC_TIER: u8 = 2;

/// The tier of any AArch64 target CPU but the baseline.
pub const AARCH64_SPECIFIC_TIER: u8 = 2;

/// The tier of a kind of target CPU: the baseline has tier 0.
pub open spec fn tier_of(arch: Seq<char>, kind: TargetKind) -> u8 {
    if kind is Generic {
        0
    } else if arch == "x86_64"@ {
        if kind is X86NeutralLevel {
            X86_NEUTRAL_TIER
        } else {
            X86_SPECIFIC_TIER
        }
    } else if arch == "aarch64"@ {
        AARCH64_SPECIFIC_TIER
    } else {
        0
    }
}

/// The tier of a kind of target CPU.
pub fn target_feature_tier(arch: &str, target_kind: TargetKind) -> (r: u8)
    ensures
        r == tier_of(arch@, target_kind),
{
    if str_eq(arch, "x86_64") {
        match target_kind {
            TargetKind::Generic => 0,
            TargetKind::X86NeutralLevel { .. } => X86_NEUTRAL_TIER,
            _ => X86_SPECIFIC_TIER,
        }
    } else if str_eq(arch, "aarch64") {
        match target_kind {
            TargetKind::Generic => 0,
            _ => AARCH64_SPECIFIC_TIER,
        }
    } else {
        0
    }
}

/// Whether the name is that of an Intel Atom core.
pub open spec fn is_atom_name(cpu: Seq<char>) -> bool {
    ||| text::has_part(cpu, "atom"@)
    ||| text::has_part(cpu, "silvermont"@)
    ||| text::has_part(cpu, "goldmont"@)
    ||| text::has_part(cpu, "gracemont"@)
    ||| text::has_part(cpu, "forest"@)
    ||| cpu == "bonnell"@
    ||| cpu == "slm"@
    ||| cpu == "tremont"@
    ||| cpu == "grandridge"@
}

/// Whether the name is that of an Intel Core processor.
pub open spec fn is_core_name(cpu: Seq<char>) -> bool {
    ||| text::has_part(cpu, "lake"@)
    ||| text::has_part(cpu, "well"@)
    ||| text::has_part(cpu, "bridge"@)
    ||| text::has_prefix(cpu, "core_"@)
    ||| text::has_prefix(cpu, "core-"@)
    ||| text::has_prefix(cpu, "corei"@)
    ||| cpu == "nocona"@
    ||| cpu == "core2"@
    ||| cpu == "penryn"@
    ||| cpu == "nehalem"@
    ||| cpu == "westmere"@
}

/// Whether the name is that of an Intel Xeon processor.
pub open spec fn is_xeon_name(cpu: Seq<char>) -> bool {
    ||| text::has_part(cpu, "rapids"@)
    ||| text::has_part(cpu, "skx"@)
    ||| text::has_part(cpu, "skylake-avx512"@)
    ||| cpu == "knl"@
    ||| cpu == "knm"@
    ||| cpu == "mic_avx512"@
}

/// The kind of an x86-64 target CPU other than the baseline.
pub open spec fn x86_kind(cpu: Seq<char>) -> TargetKind {
    if cpu == "x86-64"@ {
        TargetKind::X86NeutralLevel { level: 1 }
    } else if cpu == "x86-64-v2"@ {
        TargetKind::X86NeutralLevel { level: 2 }
    } else if cpu == "x86-64-v3"@ {
        TargetKind::X86NeutralLevel { level: 3 }
    } else if cpu == "x86-64-v4"@ {
        TargetKind::X86NeutralLevel { level: 4 }
    } else if text::has_prefix(cpu, "znver"@) {
        TargetKind::X86AmdZen {
            generation: match text::small_number(text::without_prefixes(cpu, "znver"@)) {
                Some(generation) => generation,
                None => 0,
            },
        }
    } else if is_atom_name(cpu) {
        TargetKind::X86IntelAtom
    } else if is_core_name(cpu) {
        TargetKind::X86IntelCore
    } else if is_xeon_name(cpu) {
        TargetKind::X86IntelXeon
    } else {
        TargetKind::X86AmdOther
    }
}

/// The kind of an AArch64 target CPU other than the baseline.
pub open spec fn aarch64_kind(cpu: Seq<char>) -> TargetKind {
    if text::has_prefix(cpu, "neoverse-n"@) {
        TargetKind::Aarch64ArmNeoverseN
    } else if text::has_prefix(cpu, "neoverse-v"@) || cpu == "neoverse-512tvb"@ {
        TargetKind::Aarch64ArmNeoverseV
    } else if text::has_prefix(cpu, "neoverse-e"@) {
        TargetKind::Aarch64ArmNeoverseE
    } else if text::has_prefix(cpu, "cortex-a"@) {
        TargetKind::Aarch64ArmCortexA
    } else if text::has_prefix(cpu, "cortex-x"@) {
        TargetKind::Aarch64ArmCortexX
    } else if text::has_prefix(cpu, "apple-"@) {
        TargetKind::Aarch64Apple
    } else if text::has_prefix(cpu, "ampere"@) {
        TargetKind::Aarch64Ampere
    } else {
        TargetKind::Aarch64Other
    }
}

/// The kind of a target CPU.
pub open spec fn kind_of(cpu: Seq<char>, arch: Seq<char>, baseline: Seq<char>) -> TargetKind {
    if cpu == baseline {
        TargetKind::Generic
    } else if arch == "x86_64"@ {
        x86_kind(cpu)
    } else {
        aarch64_kind(cpu)
    }
}

/// The kind of an x86-64 target CPU other than the baseline.
fn classify_x86(cpu: &str) -> (r: TargetKind)
    ensures
        r == x86_kind(cpu@),
{
    if str_eq(cpu, "x86-64") {
        return TargetKind::X86NeutralLevel { level: 1 };
    }
    if str_eq(cpu, "x86-64-v2") {
        return TargetKind::X86NeutralLevel { level: 2 };
    }
    if str_eq(cpu, "x86-64-v3") {
        return TargetKind::X86NeutralLevel { level: 3 };
    }
    if str_eq(cpu, "x86-64-v4") {
        return TargetKind::X86NeutralLevel { level: 4 };
    }
    if starts_with(cpu, "znver") {
        proof {
            reveal_strlit("znver");
        }
        let digits = trim_start_matches(cpu, "znver");
        let generation = match parse_small_number(digits.as_str()) {
            Some(generation) => generation,
            None => 0,
        };
        return TargetKind::X86AmdZen { generation };
    }
    if contains(cpu, "atom") || contains(cpu, "silvermont") || contains(cpu, "goldmont")
        || contains(cpu, "gracemont") || contains(cpu, "forest") || str_eq(cpu, "bonnell")
        || str_eq(cpu, "slm") || str_eq(cpu, "tremont") || str_eq(cpu, "grandridge") {
        return TargetKind::X86IntelAtom;
    }
    if contains(cpu, "lake") || contains(cpu, "well") || contains(cpu, "bridge") || starts_with(
        cpu,
        "core_",
    ) || starts_with(cpu, "core-") || starts_with(cpu, "corei") || str_eq(cpu, "nocona") || str_eq(
        cpu,
        "core2",
    ) || str_eq(cpu, "penryn") || str_eq(cpu, "nehalem") || str_eq(cpu, "westmere") {
        return TargetKind::X86IntelCore;
    }
    if contains(cpu, "rapids") || contains(cpu, "skx") || contains(cpu, "skylake-avx512")
        || str_eq(cpu, "knl") || str_eq(cpu, "knm") || str_eq(cpu, "mic_avx512") {
        return TargetKind::X86IntelXeon;
    }
    TargetKind::X86AmdOther
}

/// The kind of an AArch64 target CPU other than the baseline.
pub fn classify_aarch64(cpu: &str) -> (r: TargetKind)
    ensures
        r == aarch64_kind(cpu@),
{
    if starts_with(cpu, "neoverse-n") {
        TargetKind::Aarch64ArmNeoverseN
    } else if starts_with(cpu, "neoverse-v") || str_eq(cpu, "neoverse-512tvb") {
        TargetKind::Aarch64ArmNeoverseV
    } else if starts_with(cpu, "neoverse-e") {
        TargetKind::Aarch64ArmNeoverseE
    } else if starts_with(cpu, "cortex-a") {
        TargetKind::Aarch64ArmCortexA
    } else if starts_with(cpu, "cortex-x") {
        TargetKind::Aarch64ArmCortexX
    } else if starts_with(cpu, "apple-") {
        TargetKind::Aarch64Apple
    } else if starts_with(cpu, "ampere") {
        TargetKind::Aarch64Ampere
    } else {
        TargetKind::Aarch64Other
    }
}

/// The kind of a target CPU.
pub fn classify_target_cpu(cpu: &str, arch: &str, baseline_cpu: &str) -> (r: TargetKind)
    ensures
        r == kind_of(cpu@, arch@, baseline_cpu@),
{
    if str_eq(cpu, baseline_cpu) {
        TargetKind::Generic
    } else if str_eq(arch, "x86_64") {
        classify_x86(cpu)
    } else {
        classify_aarch64(cpu)
    }
}

/// Only the baseline has the generic kind, and with it tier 0 on either architecture.
pub proof fn only_the_baseline_is_generic(cpu: Seq<char>, arch: Seq<char>, baseline: Seq<char>)
    ensures
        (kind_of(cpu, arch, baseline) is Generic) == (cpu == baseline),
        arch == "x86_64"@ || arch == "aarch64"@ ==> (tier_of(arch, kind_of(cpu, arch, baseline))
            == 0) == (cpu == baseline),
{
}

/// Whether a score report shows a kind of target CPU to the host: the baseline and the
/// neutral levels always, the others if the host has the same maker or is unknown.
pub open spec fn shown_to(host: HostInfo, kind: TargetKind) -> bool {
    ||| kind is Generic
    ||| kind is X86NeutralLevel
    ||| host.identity is Unknown
    ||| select::same_maker(host.identity, kind)
}

/// Whether a score report shows a kind of target CPU to the host.
pub fn score_target_kind_matches_host(host: HostInfo, target_kind: TargetKind) -> (r: bool)
    ensures
        r == shown_to(host, target_kind),
{
    target_kind.is_generic() || target_kind.is_neutral_x86() || host.identity
        == CpuIdentity::Unknown || select::weak_affinity(host.identity, target_kind) == 1
}

// ---------------------------------------------------------------------------
// Warnings

/// A target CPU with the features that its code uses.
#[derive(Debug)]
pub struct CpuFeatures {
    pub cpu: String,
    pub features: Vec<String>,
}

/// The warning that two target CPUs have the same features.
pub open spec fn collision(a: Seq<char>, b: Seq<char>) -> Seq<char> {
    "sonic target-cpus `"@ + a + "` and `"@ + b + "` have identical rustc target_feature sets"@
}

/// The warnings for item `i` and the items from `j` on.
pub open spec fn collisions_with(items: Seq<CpuFeatures>, i: int, j: int) -> Seq<Seq<char>>
    decreases items.len() - j,
{
    if j >= items.len() {
        Seq::empty()
    } else if text::texts(items[i].features@) == text::texts(items[j].features@) {
        seq![collision(items[i].cpu@, items[j].cpu@)] + collisions_with(items, i, j + 1)
    } else {
        collisions_with(items, i, j + 1)
    }
}

/// The warnings for every pair of items from `i` on.
pub open spec fn collisions_from(items: Seq<CpuFeatures>, i: int) -> Seq<Seq<char>>
    decreases items.len() - i,
{
    if i >= items.len() {
        Seq::empty()
    } else {
        collisions_with(items, i, i + 1) + collisions_from(items, i + 1)
    }
}

/// Whether the name is that of a vendor-neutral x86-64 target CPU.
pub open spec fn is_neutral_name(cpu: Seq<char>) -> bool {
    cpu == "x86-64"@ || cpu == "x86-64-v2"@ || cpu == "x86-64-v3"@ || cpu == "x86-64-v4"@
}

/// Whether there are x86 target CPUs, and none that every vendor's processors can run.
pub open spec fn lacks_neutral(items: Seq<CpuFeatures>, arch: Seq<char>) -> bool {
    &&& arch == "x86_64"@
    &&& forall|i: int| 0 <= i < items.len() ==> !is_neutral_name((#[trigger] items[i]).cpu@)
    &&& exists|i: int| 0 <= i < items.len() && (#[trigger] items[i]).cpu@ != "generic"@
}

/// The warnings for a list of target CPUs: one for each pair with the same features, and
/// one if a neutral fallback is missing.
pub open spec fn warnings_for(items: Seq<CpuFeatures>, arch: Seq<char>) -> Seq<Seq<char>> {
    let collisions = collisions_from(items, 0);
    if lacks_neutral(items, arch) {
        collisions.push(
            "vendor-specific x86 targets configured without a neutral x86 fallback"@,
        )
    } else {
        collisions
    }
}

/// The warnings for a list of target CPUs.
pub fn analyze_warnings(features_by_cpu: &[CpuFeatures], arch: &str) -> (r: Vec<String>)
    ensures
        text::texts(r@) == warnings_for(features_by_cpu@, arch@),
{
    let items = features_by_cpu;
    let mut warnings: Vec<String> = Vec::new();
    let mut i: usize = 0;
    assert(text::texts(warnings@) =~= Seq::<Seq<char>>::empty());
    assert(text::texts(warnings@) + collisions_from(items@, 0) =~= collisions_from(items@, 0));
    while i < items.len()
        invariant
            i <= items@.len(),
            text::texts(warnings@) + collisions_from(items@, i as int) == collisions_from(
                items@,
                0,
            ),
        decreases items@.len() - i,
    {
        let ghost before = text::texts(warnings@);
        let mut j: usize = i + 1;
        assert(before + collisions_with(items@, i as int, j as int) == text::texts(warnings@)
            + collisions_with(items@, i as int, j as int));
        while j < items.len()
            invariant
                i < j <= items@.len(),
                text::texts(warnings@) + collisions_with(items@, i as int, j as int) == before
                    + collisions_with(items@, i as int, i + 1),
            decreases items@.len() - j,
        {
            if lists_equal(&items[i].features, &items[j].features) {
                let ghost so_far = text::texts(warnings@);
                let mut warning = "sonic target-cpus `".to_owned();
                warning.append(items[i].cpu.as_str());
                warning.append("` and `");
                warning.append(items[j].cpu.as_str());
                warning.append("` have identical rustc target_feature sets");
                let ghost line = warning@;
                assert(line == collision(items@[i as int].cpu@, items@[j as int].cpu@));
                warnings.push(warning);
                assert(text::texts(warnings@) =~= so_far.push(line));
                assert(so_far + (seq![line] + collisions_with(items@, i as int, j + 1))
                    =~= so_far.push(line) + collisions_with(items@, i as int, j + 1));
            }
            j += 1;
        }
        assert(text::texts(warnings@) + Seq::<Seq<char>>::empty() =~= text::texts(warnings@));
        assert(before + (collisions_with(items@, i as int, i + 1) + collisions_from(items@, i + 1))
            =~= before + collisions_with(items@, i as int, i + 1) + collisions_from(items@, i + 1));
        i += 1;
    }
    assert(text::texts(warnings@) + Seq::<Seq<char>>::empty() =~= text::texts(warnings@));
    if str_eq(arch, "x86_64") {
        let mut neutral = false;
        let mut specific = false;
        let mut k: usize = 0;
        while k < items.len()
            invariant
                k <= items@.len(),
                neutral == exists|m: int|
                    0 <= m < k && is_neutral_name((#[trigger] items@[m]).cpu@),
                specific == exists|m: int| 0 <= m < k && (#[trigger] items@[m]).cpu@ != "generic"@,
            decreases items@.len() - k,
        {
            let cpu = items[k].cpu.as_str();
            if str_eq(cpu, "x86-64") || str_eq(cpu, "x86-64-v2") || str_eq(cpu, "x86-64-v3")
                || str_eq(cpu, "x86-64-v4") {
                neutral = true;
            }
            if !str_eq(cpu, "generic") {
                specific = true;
            }
            k += 1;
        }
        if !neutral && specific {
            let ghost before = text::texts(warnings@);
            warnings.push(
                "vendor-specific x86 targets configured without a neutral x86 fallback".to_owned(),
            );
            assert(text::texts(warnings@) =~= before.push(
                "vendor-specific x86 targets configured without a neutral x86 fallback"@,
            ));
        }
    }
    warnings
}

// ---------------------------------------------------------------------------
// What names tell

/// Tiers grow with how closely a target CPU is tuned: the baseline has the lowest, then come the
/// vendor-neutral levels of x86-64, then everything else of either architecture.
pub proof fn tiers_grow_with_tuning(
    arch: &str,
    generic: u8,
    level: u8,
    neutral: u8,
    kind: TargetKind,
    specific: u8,
)
    requires
        call_ensures(target_feature_tier, (arch, TargetKind::Generic), generic),
        call_ensures(target_feature_tier, (arch, TargetKind::X86NeutralLevel { level }), neutral),
        call_ensures(target_feature_tier, (arch, kind), specific),
        !(kind is Generic),
        !(kind is X86NeutralLevel),
    ensures
        generic == 0,
        arch@ == "x86_64"@ ==> generic < neutral < specific == 2,
        arch@ == "aarch64"@ ==> generic < specific == 2,
        arch@ != "x86_64"@ && arch@ != "aarch64"@ ==> specific == 0,
{
    reveal_strlit("x86_64");
    reveal_strlit("aarch64");
    assert("x86_64"@.len() != "aarch64"@.len());
}

/// The baseline is of the generic kind on either architecture, whatever its name, and nothing
/// else is.
pub proof fn the_baseline_is_generic(cpu: &str, arch: &str, base: &str, kind: TargetKind)
    requires
        call_ensures(classify_target_cpu, (cpu, arch, base), kind),
    ensures
        kind is Generic <==> cpu@ == base@,
        arch@ == "x86_64"@ && cpu@ != base@ ==> kind is X86NeutralLevel || kind is X86AmdZen || kind
            is X86AmdOther || kind is X86IntelAtom || kind is X86IntelCore || kind is X86IntelXeon,
        arch@ != "x86_64"@ && cpu@ != base@ ==> kind is Aarch64ArmNeoverseN || kind
            is Aarch64ArmNeoverseV || kind is Aarch64ArmNeoverseE || kind is Aarch64ArmCortexA
            || kind is Aarch64ArmCortexX || kind is Aarch64Apple || kind is Aarch64Ampere || kind
            is Aarch64Other,
{
}

/// The vendor-neutral levels of x86-64 are `x86-64` and `x86-64-v` with a number from 2 to 4,
/// and the number is the level.
pub proof fn levels_are_numbered(cpu: &str, arch: &str, base: &str, kind: TargetKind)
    requires
        call_ensures(classify_target_cpu, (cpu, arch, base), kind),
        arch@ == "x86_64"@,
        cpu@ != base@,
    ensures
        cpu@ == "x86-64"@ ==> kind == (TargetKind::X86NeutralLevel { level: 1 }),
        forall|n: nat|
            2 <= n <= 4 && cpu@ == "x86-64-v"@ + #[trigger] text::decimal(n) ==> kind == (
            TargetKind::X86NeutralLevel { level: n as u8 }),
        kind is X86NeutralLevel ==> cpu@ == "x86-64"@ || exists|n: nat|
            2 <= n <= 4 && cpu@ == "x86-64-v"@ + #[trigger] text::decimal(n),
{
    reveal_strlit("x86-64");
    reveal_strlit("x86-64-v");
    reveal_strlit("x86-64-v2");
    reveal_strlit("x86-64-v3");
    reveal_strlit("x86-64-v4");
    assert("x86-64-v"@ + text::decimal(2) =~= "x86-64-v2"@);
    assert("x86-64-v"@ + text::decimal(3) =~= "x86-64-v3"@);
    assert("x86-64-v"@ + text::decimal(4) =~= "x86-64-v4"@);
    assert("x86-64"@.len() == 6 && "x86-64-v2"@.len() == 9 && "x86-64-v3"@.len() == 9
        && "x86-64-v4"@.len() == 9);
    assert("x86-64-v2"@[8] == '2' && "x86-64-v3"@[8] == '3' && "x86-64-v4"@[8] == '4');
    assert forall|n: nat|
        2 <= n <= 4 && cpu@ == "x86-64-v"@ + #[trigger] text::decimal(n) implies kind == (
    TargetKind::X86NeutralLevel { level: n as u8 }) by {
        assert(n == 2 || n == 3 || n == 4);
    }
}

/// A Zen processor is `znver` with its generation.
pub proof fn generations_are_numbered(
    cpu: &str,
    arch: &str,
    base: &str,
    generation: u8,
    kind: TargetKind,
)
    requires
        call_ensures(classify_target_cpu, (cpu, arch, base), kind),
        arch@ == "x86_64"@,
        cpu@ != base@,
    ensures
        cpu@ == "znver"@ + text::decimal(generation as nat) ==> kind == (TargetKind::X86AmdZen {
            generation,
        }),
        kind is X86AmdZen <==> text::has_prefix(cpu@, "znver"@),
{
    reveal_strlit("znver");
    reveal_strlit("x86-64");
    reveal_strlit("x86-64-v2");
    reveal_strlit("x86-64-v3");
    reveal_strlit("x86-64-v4");
    if text::has_prefix(cpu@, "znver"@) {
        assert(cpu@.take(5)[0] == 'z');
        assert("x86-64"@[0] == 'x' && "x86-64-v2"@[0] == 'x' && "x86-64-v3"@[0] == 'x'
            && "x86-64-v4"@[0] == 'x');
    }
    if cpu@ == "znver"@ + text::decimal(generation as nat) {
        let digits = text::decimal(generation as nat);
        text_laws::decimal_reads_back(generation as nat);
        text_laws::decimal_value_is_worth(digits);
        assert(cpu@.take(5) =~= "znver"@);
        assert(cpu@.skip(5) =~= digits);
        assert('0' <= digits[0] <= '9');
        if text::has_prefix(digits, "znver"@) {
            assert(digits.take(5)[0] == 'z');
        }
        assert(text::without_prefixes(digits, "znver"@) == digits);
        assert(text::without_prefixes(cpu@, "znver"@) == digits);
        assert(text::without_plus(digits) == digits);
    }
}

/// Intel's names: what names an Atom core is one, whatever else the name holds; of the others,
/// what ends in a lake, a well or a bridge, or is a Core, is a Core; of the others, rapids and
/// the like are Xeons; and what is none of these is AMD's.
pub proof fn intel_names_are_told_apart(cpu: &str, arch: &str, base: &str, kind: TargetKind)
    requires
        call_ensures(classify_target_cpu, (cpu, arch, base), kind),
        arch@ == "x86_64"@,
        cpu@ != base@,
        !(kind is X86NeutralLevel),
        !(kind is X86AmdZen),
    ensures
        forall|a: Seq<char>, b: Seq<char>| #[trigger]
            (a + "atom"@ + b) == cpu@ ==> kind is X86IntelAtom,
        forall|a: Seq<char>, b: Seq<char>| #[trigger]
            (a + "mont"@ + b) == cpu@ && (text::has_suffix(a, "silver"@) || text::has_suffix(
                a,
                "gold"@,
            ) || text::has_suffix(a, "grace"@)) ==> kind is X86IntelAtom,
        forall|a: Seq<char>, b: Seq<char>| #[trigger]
            (a + "forest"@ + b) == cpu@ ==> kind is X86IntelAtom,
        cpu@ == "bonnell"@ || cpu@ == "slm"@ || cpu@ == "tremont"@ || cpu@ == "grandridge"@ ==> kind
            is X86IntelAtom,
        forall|a: Seq<char>, b: Seq<char>| #[trigger]
            (a + "lake"@ + b) == cpu@ ==> kind is X86IntelCore || kind is X86IntelAtom,
        forall|a: Seq<char>, b: Seq<char>| #[trigger]
            (a + "well"@ + b) == cpu@ ==> kind is X86IntelCore || kind is X86IntelAtom,
        forall|a: Seq<char>, b: Seq<char>| #[trigger]
            (a + "bridge"@ + b) == cpu@ ==> kind is X86IntelCore || kind is X86IntelAtom,
        text::has_prefix(cpu@, "core_"@) || text::has_prefix(cpu@, "core-"@) || text::has_prefix(
            cpu@,
            "corei"@,
        ) ==> kind is X86IntelCore || kind is X86IntelAtom,
        cpu@ == "nocona"@ || cpu@ == "core2"@ || cpu@ == "penryn"@ || cpu@ == "nehalem"@ || cpu@
            == "westmere"@ ==> kind is X86IntelCore || kind is X86IntelAtom,
        forall|a: Seq<char>, b: Seq<char>| #[trigger]
            (a + "rapids"@ + b) == cpu@ ==> kind is X86IntelXeon || kind is X86IntelCore || kind
                is X86IntelAtom,
        forall|a: Seq<char>, b: Seq<char>| #[trigger]
            (a + "skx"@ + b) == cpu@ ==> kind is X86IntelXeon || kind is X86IntelCore || kind
                is X86IntelAtom,
        cpu@ == "knl"@ || cpu@ == "knm"@ || cpu@ == "mic_avx512"@ ==> kind is X86IntelXeon || kind
            is X86IntelCore || kind is X86IntelAtom,
        kind is X86IntelAtom ==> is_atom_name(cpu@),
        kind is X86IntelCore ==> is_core_name(cpu@) && !is_atom_name(cpu@),
        kind is X86IntelXeon ==> is_xeon_name(cpu@) && !is_core_name(cpu@) && !is_atom_name(cpu@),
{
    reveal_strlit("mont");
    reveal_strlit("silver");
    reveal_strlit("gold");
    reveal_strlit("grace");
    reveal_strlit("silvermont");
    reveal_strlit("goldmont");
    reveal_strlit("gracemont");
    part_is_found(cpu@, "atom"@);
    part_is_found(cpu@, "forest"@);
    part_is_found(cpu@, "lake"@);
    part_is_found(cpu@, "well"@);
    part_is_found(cpu@, "bridge"@);
    part_is_found(cpu@, "rapids"@);
    part_is_found(cpu@, "skx"@);
    part_is_found(cpu@, "silvermont"@);
    part_is_found(cpu@, "goldmont"@);
    part_is_found(cpu@, "gracemont"@);
    assert forall|a: Seq<char>, b: Seq<char>| #[trigger]
        (a + "mont"@ + b) == cpu@ && (text::has_suffix(a, "silver"@) || text::has_suffix(
            a,
            "gold"@,
        ) || text::has_suffix(a, "grace"@)) implies kind is X86IntelAtom by {
        if text::has_suffix(a, "silver"@) {
            let c = a.take(a.len() - 6);
            assert(a =~= c + a.skip(a.len() - 6));
            assert("silver"@ + "mont"@ =~= "silvermont"@);
            assert(a + "mont"@ + b =~= c + "silvermont"@ + b);
        } else if text::has_suffix(a, "gold"@) {
            let c = a.take(a.len() - 4);
            assert(a =~= c + a.skip(a.len() - 4));
            assert("gold"@ + "mont"@ =~= "goldmont"@);
            assert(a + "mont"@ + b =~= c + "goldmont"@ + b);
        } else {
            let c = a.take(a.len() - 5);
            assert(a =~= c + a.skip(a.len() - 5));
            assert("grace"@ + "mont"@ =~= "gracemont"@);
            assert(a + "mont"@ + b =~= c + "gracemont"@ + b);
        }
    }
}

pub(crate) proof fn part_is_found(s: Seq<char>, part: Seq<char>)
    ensures
        forall|a: Seq<char>, b: Seq<char>| #[trigger]
            (a + part + b) == s ==> text::has_part(s, part),
{
    assert forall|a: Seq<char>, b: Seq<char>| #[trigger] (a + part + b) == s implies text::has_part(
        s,
        part,
    ) by {
        assert(s.skip(a.len() as int).take(part.len() as int) =~= part);
        assert(text::has_prefix(s.skip(a.len() as int), part));
    }
}

/// AArch64 names go by what they begin with: Arm's Neoverse lines N, V and E and Cortex lines A
/// and X, Apple's and Ampere's; one Neoverse V has a name of its own, and everything else is
/// another maker's.
pub proof fn aarch64_names_go_by_their_beginning(
    cpu: &str,
    arch: &str,
    base: &str,
    rest: Seq<char>,
    kind: TargetKind,
)
    requires
        call_ensures(classify_target_cpu, (cpu, arch, base), kind),
        arch@ != "x86_64"@,
        cpu@ != base@,
    ensures
        cpu@ == "neoverse-n"@ + rest ==> kind is Aarch64ArmNeoverseN,
        cpu@ == "neoverse-v"@ + rest ==> kind is Aarch64ArmNeoverseV,
        cpu@ == "neoverse-e"@ + rest ==> kind is Aarch64ArmNeoverseE,
        cpu@ == "neoverse-512tvb"@ ==> kind is Aarch64ArmNeoverseV,
        cpu@ == "cortex-a"@ + rest ==> kind is Aarch64ArmCortexA,
        cpu@ == "cortex-x"@ + rest ==> kind is Aarch64ArmCortexX,
        cpu@ == "apple-"@ + rest ==> kind is Aarch64Apple,
        cpu@ == "ampere"@ + rest ==> kind is Aarch64Ampere,
        cpu@.len() < 6 ==> kind is Aarch64Other,
        cpu@.len() > 0 && cpu@[0] != 'n' && cpu@[0] != 'c' && cpu@[0] != 'a' ==> kind
            is Aarch64Other,
{
    reveal_strlit("neoverse-n");
    reveal_strlit("neoverse-v");
    reveal_strlit("neoverse-e");
    reveal_strlit("neoverse-512tvb");
    reveal_strlit("cortex-a");
    reveal_strlit("cortex-x");
    reveal_strlit("apple-");
    reveal_strlit("ampere");
    begins(cpu@, "neoverse-n"@);
    begins(cpu@, "neoverse-v"@);
    begins(cpu@, "neoverse-e"@);
    begins(cpu@, "cortex-a"@);
    begins(cpu@, "cortex-x"@);
    begins(cpu@, "apple-"@);
    begins(cpu@, "ampere"@);
    assert("neoverse-n"@[0] == 'n' && "neoverse-v"@[0] == 'n' && "neoverse-e"@[0] == 'n');
    assert("neoverse-n"@[9] == 'n' && "neoverse-v"@[9] == 'v' && "neoverse-e"@[9] == 'e');
    assert("cortex-a"@[0] == 'c' && "cortex-x"@[0] == 'c' && "apple-"@[0] == 'a' && "ampere"@[0]
        == 'a');
    assert(cpu@ == "neoverse-n"@ + rest ==> cpu@[9] == 'n');
    assert(cpu@ == "neoverse-v"@ + rest ==> cpu@[0] == 'n' && cpu@[9] == 'v');
    assert(cpu@ == "neoverse-e"@ + rest ==> cpu@[0] == 'n' && cpu@[9] == 'e');
    assert(cpu@ == "neoverse-512tvb"@ ==> cpu@[0] == 'n' && cpu@[9] == '5');
    assert(cpu@ == "cortex-a"@ + rest ==> cpu@[0] == 'c' && cpu@[7] == 'a');
    assert(cpu@ == "cortex-x"@ + rest ==> cpu@[0] == 'c' && cpu@[7] == 'x');
    assert(cpu@ == "apple-"@ + rest ==> cpu@[0] == 'a' && cpu@[1] == 'p');
    assert(cpu@ == "ampere"@ + rest ==> cpu@[0] == 'a' && cpu@[1] == 'm');
}

proof fn begins(s: Seq<char>, prefix: Seq<char>)
    ensures
        text::has_prefix(s, prefix) <==> s.len() >= prefix.len() && forall|i: int|
            0 <= i < prefix.len() ==> s[i] == #[trigger] prefix[i],
{
    if text::has_prefix(s, prefix) {
        assert forall|i: int| 0 <= i < prefix.len() implies s[i] == #[trigger] prefix[i] by {
            assert(s.take(prefix.len() as int)[i] == prefix[i]);
        }
    } else if s.len() >= prefix.len() && forall|i: int|
        0 <= i < prefix.len() ==> s[i] == #[trigger] prefix[i] {
        assert(s.take(prefix.len() as int) =~= prefix);
    }
}

/// A score report shows the baseline and the vendor-neutral levels on every host, everything on
/// an unknown host, and else what is tuned for the maker of the host.
pub proof fn reports_show_the_makers_kinds(host: HostInfo, kind: TargetKind, maker: u8, r: bool)
    requires
        call_ensures(select::weak_affinity, (host.identity, kind), maker),
        call_ensures(score_target_kind_matches_host, (host, kind), r),
    ensures
        kind is Generic || kind is X86NeutralLevel || host.identity is Unknown ==> r,
        !(kind is Generic || kind is X86NeutralLevel || host.identity is Unknown) ==> r == (maker
            > 0),
{
}

/// Two target CPUs with the same features are warned about, the first one named first.
pub proof fn equal_features_are_warned_about(
    items: &[CpuFeatures],
    arch: &str,
    r: Vec<String>,
    i: int,
    j: int,
) -> (k: int)
    requires
        call_ensures(analyze_warnings, (items, arch), r),
        0 <= i < j < items@.len(),
        text::texts(items@[i].features@) == text::texts(items@[j].features@),
    ensures
        0 <= k < r@.len(),
        r@[k]@ == "sonic target-cpus `"@ + items@[i].cpu@ + "` and `"@ + items@[j].cpu@
            + "` have identical rustc target_feature sets"@,
{
    let args = (items, arch);
    let k = pair_is_found(args.0@, 0, i, j);
    let found = collisions_from(args.0@, 0);
    let all = text::texts(r@);
    assert(all == warnings_for(args.0@, args.1@));
    assert(all.len() == r@.len());
    assert(found.len() <= all.len());
    assert(all[k] == found[k]);
    assert(found[k] == collision(items@[i].cpu@, items@[j].cpu@));
    assert(all[k] == r@[k]@);
    k
}

proof fn pair_is_found(items: Seq<CpuFeatures>, from: int, i: int, j: int) -> (k: int)
    requires
        0 <= from <= i < j < items.len(),
        text::texts(items[i].features@) == text::texts(items[j].features@),
    ensures
        0 <= k < collisions_from(items, from).len(),
        collisions_from(items, from)[k] == collision(items[i].cpu@, items[j].cpu@),
    decreases i - from,
{
    let first = collisions_with(items, from, from + 1);
    if from == i {
        partner_is_found(items, i, i + 1, j)
    } else {
        let k = pair_is_found(items, from + 1, i, j);
        first.len() + k
    }
}

proof fn partner_is_found(items: Seq<CpuFeatures>, i: int, from: int, j: int) -> (k: int)
    requires
        0 <= i < from <= j < items.len(),
        text::texts(items[i].features@) == text::texts(items[j].features@),
    ensures
        0 <= k < collisions_with(items, i, from).len(),
        collisions_with(items, i, from)[k] == collision(items[i].cpu@, items[j].cpu@),
    decreases j - from,
{
    if from == j {
        0
    } else {
        let k = partner_is_found(items, i, from + 1, j);
        if text::texts(items[i].features@) == text::texts(items[from].features@) {
            k + 1
        } else {
            k
        }
    }
}

/// Where all features differ there is at most one warning, the one about a missing fallback:
/// it is given for x86-64 if some target CPU is tuned and none of them runs on every maker's
/// processors.
pub proof fn different_features_are_not_warned_about(
    items: &[CpuFeatures],
    arch: &str,
    r: Vec<String>,
    k: int,
)
    requires
        call_ensures(analyze_warnings, (items, arch), r),
        forall|i: int, j: int|
            0 <= i < j < items@.len() ==> text::texts((#[trigger] items@[i]).features@)
                != text::texts((#[trigger] items@[j]).features@),
        0 <= k < items@.len(),
    ensures
        r@.len() <= 1,
        arch@ != "x86_64"@ ==> r@.len() == 0,
        items@[k].cpu@ == "x86-64"@ || items@[k].cpu@ == "x86-64-v2"@ || items@[k].cpu@
            == "x86-64-v3"@ || items@[k].cpu@ == "x86-64-v4"@ ==> r@.len() == 0,
        arch@ == "x86_64"@ && items@[k].cpu@ != "generic"@ && (forall|i: int|
            0 <= i < items@.len() ==> (#[trigger] items@[i]).cpu@ != "x86-64"@ && items@[i].cpu@
                != "x86-64-v2"@ && items@[i].cpu@ != "x86-64-v3"@ && items@[i].cpu@
                != "x86-64-v4"@) ==> r@.len() == 1 && r@[0]@
            == "vendor-specific x86 targets configured without a neutral x86 fallback"@,
{
    let args = (items, arch);
    no_pair_is_found(args.0@, 0);
    assert(text::texts(r@) == warnings_for(args.0@, args.1@));
    assert(text::texts(r@).len() == r@.len());
    if r@.len() > 0 {
        assert(text::texts(r@)[0] == r@[0]@);
    }
}

proof fn no_pair_is_found(items: Seq<CpuFeatures>, from: int)
    requires
        0 <= from <= items.len(),
        forall|i: int, j: int|
            0 <= i < j < items.len() ==> text::texts((#[trigger] items[i]).features@) != text::texts(
                (#[trigger] items[j]).features@,
            ),
    ensures
        collisions_from(items, from).len() == 0,
    decreases items.len() - from,
{
    if from < items.len() {
        no_partner_is_found(items, from, from + 1);
        no_pair_is_found(items, from + 1);
    }
}

proof fn no_partner_is_found(items: Seq<CpuFeatures>, i: int, from: int)
    requires
        0 <= i < from <= items.len(),
        forall|i: int, j: int|
            0 <= i < j < items.len() ==> text::texts((#[trigger] items[i]).features@) != text::texts(
                (#[trigger] items[j]).features@,
            ),
    ensures
        collisions_with(items, i, from).len() == 0,
    decreases items.len() - from,
{
    if from < items.len() {
        assert(text::texts(items[i].features@) != text::texts(items[from].features@));
        no_partner_is_found(items, i, from + 1);
    }
}

} // verus!
