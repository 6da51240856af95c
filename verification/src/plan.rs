//! Which variants are to be built or compared, and why others are not.
use crate::classify::{self, classify_target_cpu, target_feature_tier};
use crate::error::SonicError;
use crate::feature_mask::{self, Feature, FeatureMask};
use crate::report::{ProbeVariant, SkippedProbeVariant};
use crate::runtime_features::{
    self, classify_runtime_features, feature_mask, safety_required_features,
};
use crate::rustc_output::{self, cfg_value, parse_rustc_target_cpus, parse_target_features_from_rustc_cfg};
use crate::select::{TargetKind, VariantMeta};
use crate::target_cpus::{self, baseline_target_cpu, filter_target_cpus, normalize_target_cpus};
use crate::text::{self, clone_list, join_list, str_eq};
use vstd::prelude::*;
use vstd::string::StringExecFns;

verus! {

// ---------------------------------------------------------------------------
// What rustc answers

/// What rustc answers about a target CPU.
#[derive(Debug)]
pub struct CpuAnswer {
    pub cpu: String,
    /// Whether rustc compiles for the target CPU.
    pub accepted: bool,
    /// The output of `rustc --print cfg`, unless that failed.
    pub cfg: Option<String>,
}

/// What rustc answers about a target and its CPUs.
#[derive(Debug)]
pub struct RustcAnswers {
    /// The output of `rustc -vV`.
    pub version: String,
    /// The output of `rustc --print cfg` for the target.
    pub cfg: String,
    /// The output of `rustc --print target-cpus` for the target.
    pub target_cpus: String,
    /// The outputs of `rustc --print target-cpus` for the targets that are supported.
    pub known_target_cpus: Vec<String>,
    pub cpu_answers: Vec<CpuAnswer>,
}

/// What rustc answers about a target CPU, if it was asked.
pub open spec fn answer_for(answers: Seq<CpuAnswer>, cpu: Seq<char>) -> Option<CpuAnswer>
    decreases answers.len(),
{
    if answers.len() == 0 {
        None
    } else if answers[0].cpu@ == cpu {
        Some(answers[0])
    } else {
        answer_for(answers.drop_first(), cpu)
    }
}

/// The output of `rustc --print cfg` for a target CPU, if there is one.
pub open spec fn cfg_for(answers: Seq<CpuAnswer>, cpu: Seq<char>) -> Option<Seq<char>> {
    match answer_for(answers, cpu) {
        Some(answer) => text::opt(answer.cfg),
        None => None,
    }
}

/// The position of the answer about a target CPU.
pub fn find_answer(answers: &[CpuAnswer], cpu: &str) -> (r: Option<usize>)
    ensures
        match r {
            Some(i) => i < answers@.len() && answer_for(answers@, cpu@) == Some(answers@[i as int]),
            None => answer_for(answers@, cpu@) is None,
        },
{
    let mut i: usize = 0;
    assert(answers@.skip(0) =~= answers@);
    while i < answers.len()
        invariant
            i <= answers@.len(),
            answer_for(answers@, cpu@) == answer_for(answers@.skip(i as int), cpu@),
        decreases answers@.len() - i,
    {
        assert(answers@.skip(i as int)[0] == answers@[i as int]);
        if str_eq(answers[i].cpu.as_str(), cpu) {
            return Some(i);
        }
        assert(answers@.skip(i as int).drop_first() =~= answers@.skip(i + 1));
        i += 1;
    }
    None
}

// ---------------------------------------------------------------------------
// The target

/// The operating system of a target, as `rustc --print cfg` gives it.
pub open spec fn os_of(cfg: Seq<char>) -> Seq<char> {
    match rustc_output::value_of(cfg, "target_os"@) {
        Some(os) => os,
        None => Seq::empty(),
    }
}

/// The architecture of a target, as `rustc --print cfg` gives it.
pub open spec fn arch_of(cfg: Seq<char>) -> Seq<char> {
    match rustc_output::value_of(cfg, "target_arch"@) {
        Some(arch) => arch,
        None => Seq::empty(),
    }
}

/// Whether the crate supports targets with that configuration.
pub open spec fn is_supported(cfg: Seq<char>) -> bool {
    os_of(cfg) == "linux"@ && (arch_of(cfg) == "x86_64"@ || arch_of(cfg) == "aarch64"@)
}

/// Whether the error tells why a target is not supported: the operating system, and if that
/// is the right one, the architecture.
pub open spec fn tells_unsupported(target: Seq<char>, cfg: Seq<char>, error: SonicError) -> bool {
    if os_of(cfg) != "linux"@ {
        error matches SonicError::UnsupportedOs { target: t, os } && t@ == target && os@ == os_of(cfg)
    } else {
        error matches SonicError::UnsupportedArch { target: t, arch } && t@ == target && arch@
            == arch_of(cfg)
    }
}

/// The architecture of a target that the crate supports.
pub fn supported_arch(target: &str, cfg: &str) -> (r: Result<String, SonicError>)
    ensures
        match r {
            Ok(arch) => is_supported(cfg@) && arch@ == arch_of(cfg@),
            Err(e) => !is_supported(cfg@) && tells_unsupported(target@, cfg@, e),
        },
{
    let os = match cfg_value(cfg, "target_os") {
        Some(os) => os,
        None => String::new(),
    };
    let arch = match cfg_value(cfg, "target_arch") {
        Some(arch) => arch,
        None => String::new(),
    };
    assert(os@ == os_of(cfg@));
    assert(arch@ == arch_of(cfg@));
    if !str_eq(os.as_str(), "linux") {
        return Err(SonicError::UnsupportedOs { target: target.to_owned(), os });
    }
    if !str_eq(arch.as_str(), "x86_64") && !str_eq(arch.as_str(), "aarch64") {
        return Err(SonicError::UnsupportedArch { target: target.to_owned(), arch });
    }
    Ok(arch)
}

// ---------------------------------------------------------------------------
// The target CPUs

/// The texts that an output of `rustc --print target-cpus` lists, as a set.
pub open spec fn valid_cpus(output: Seq<char>, list: Seq<Seq<char>>) -> bool {
    forall|t: Seq<char>| #[trigger] list.contains(t) == rustc_output::lists_cpu(output, t)
}

/// Whether a target CPU can be built for: `generic`, or one that rustc lists for the target
/// other than `native`.
pub open spec fn can_build(output: Seq<char>, cpu: Seq<char>) -> bool {
    cpu == "generic"@ || (cpu != "native"@ && rustc_output::lists_cpu(output, cpu))
}

/// Whether a target CPU is unknown to every target that the crate supports.
pub open spec fn nobody_knows(answers: RustcAnswers, cpu: Seq<char>) -> bool {
    &&& cpu != "generic"@
    &&& cpu != "native"@
    &&& !rustc_output::lists_cpu(answers.target_cpus@, cpu)
    &&& !rustc_output::some_lists_cpu(answers.known_target_cpus@, cpu)
}

/// The target CPUs of a list that can be built for, each at its first place.
pub open spec fn buildable(names: Seq<Seq<char>>, output: Seq<char>) -> Seq<Seq<char>>
    decreases names.len(),
{
    if names.len() == 0 {
        Seq::empty()
    } else {
        let before = buildable(names.drop_last(), output);
        if can_build(output, names.last()) && !before.contains(names.last()) {
            before.push(names.last())
        } else {
            before
        }
    }
}

proof fn kept_is_buildable(names: Seq<Seq<char>>, valid: Seq<Seq<char>>, output: Seq<char>)
    requires
        valid_cpus(output, valid),
    ensures
        target_cpus::kept(names, valid) == buildable(names, output),
    decreases names.len(),
{
    if names.len() > 0 {
        kept_is_buildable(names.drop_last(), valid, output);
        let last = names.last();
        assert(valid.contains(last) == rustc_output::lists_cpu(output, last));
    }
}

/// Whether the target CPU at position `i` is the first one of the list that nobody knows.
pub open spec fn first_nobody_knows(names: Seq<Seq<char>>, answers: RustcAnswers, i: int) -> bool {
    &&& 0 <= i < names.len()
    &&& nobody_knows(answers, names[i])
    &&& forall|j: int| 0 <= j < i ==> !nobody_knows(answers, #[trigger] names[j])
}

/// The target CPUs that a request names, with the baseline in front.
pub open spec fn with_baseline(requested: Seq<Seq<char>>, arch: Seq<char>) -> Seq<Seq<char>> {
    seq![target_cpus::baseline(arch)] + requested
}

/// Whether a request is rejected: it names `native` or the baseline, or a target CPU that
/// nobody knows.
pub open spec fn is_rejected(
    requested: Seq<Seq<char>>,
    arch: Seq<char>,
    answers: RustcAnswers,
) -> bool {
    ||| requested.contains("native"@)
    ||| requested.contains(target_cpus::baseline(arch))
    ||| exists|i: int| #[trigger] first_nobody_knows(with_baseline(requested, arch), answers, i)
}

/// Whether the error tells why a request is rejected.
pub open spec fn tells_rejection(
    requested: Seq<Seq<char>>,
    arch: Seq<char>,
    answers: RustcAnswers,
    error: SonicError,
) -> bool {
    let names = with_baseline(requested, arch);
    if requested.contains("native"@) {
        error is NativeRejected
    } else if requested.contains(target_cpus::baseline(arch)) {
        error matches SonicError::BaselineIsImplicit { cpu } && cpu@ == target_cpus::baseline(arch)
    } else {
        error matches SonicError::UnknownTargetCpu { cpu } && exists|i: int| #[trigger]
            first_nobody_knows(names, answers, i) && cpu@ == names[i]
    }
}

/// The target CPUs to build for: the baseline and those that were asked for, as far as they
/// can be built for.
pub open spec fn chosen_cpus(
    requested: Seq<Seq<char>>,
    arch: Seq<char>,
    answers: RustcAnswers,
) -> Seq<Seq<char>> {
    buildable(with_baseline(requested, arch), answers.target_cpus@)
}

/// The target CPUs to build for.
pub fn included_cpus(requested: Vec<String>, arch: &str, answers: &RustcAnswers) -> (r: Result<
    Vec<String>,
    SonicError,
>)
    ensures
        match r {
            Ok(cpus) => !is_rejected(text::texts(requested@), arch@, *answers) && text::texts(cpus@)
                == chosen_cpus(text::texts(requested@), arch@, *answers),
            Err(e) => is_rejected(text::texts(requested@), arch@, *answers) && tells_rejection(
                text::texts(requested@),
                arch@,
                *answers,
                e,
            ),
        },
{
    let ghost asked = text::texts(requested@);
    let ghost base = target_cpus::baseline(arch@);
    let ghost names = with_baseline(asked, arch@);
    let configured = match normalize_target_cpus(requested, arch) {
        Ok(cpus) => cpus,
        Err(e) => {
            return Err(e);
        },
    };
    let current = parse_rustc_target_cpus(answers.target_cpus.as_str());
    let known = rustc_output::known_supported_cpu_union(&answers.known_target_cpus);
    let ghost valid = text::texts(current@);
    let ghost union = text::texts(known@);
    let r = filter_target_cpus(&configured, &current, &known);
    proof {
        assert(text::texts(configured@) == names);
        kept_is_buildable(names, valid, answers.target_cpus@);
        reveal_strlit("native");
        reveal_strlit("x86-64");
        reveal_strlit("generic");
        assert forall|i: int| 0 <= i < names.len() implies #[trigger] names[i] != "native"@
            && target_cpus::is_unknown(names[i], valid, union) == nobody_knows(*answers, names[i]) by {
            if i > 0 {
                assert(names[i] == asked[i - 1]);
                assert(asked.contains(asked[i - 1]));
            } else {
                assert("native"@[0] != base[0]);
            }
            assert(valid.contains(names[i]) == rustc_output::lists_cpu(
                answers.target_cpus@,
                names[i],
            ));
            assert(union.contains(names[i]) == rustc_output::some_lists_cpu(
                answers.known_target_cpus@,
                names[i],
            ));
        }
        assert forall|i: int| #[trigger]
            target_cpus::first_rejected(names, valid, union, i) == first_nobody_knows(
                names,
                *answers,
                i,
            ) by {
            if target_cpus::first_rejected(names, valid, union, i) {
                assert forall|j: int| 0 <= j < i implies !nobody_knows(*answers, #[trigger] names[j]) by {
                    assert(!target_cpus::is_unknown(names[j], valid, union));
                }
            }
            if first_nobody_knows(names, *answers, i) {
                assert forall|j: int| 0 <= j < i implies #[trigger] names[j] != "native"@
                    && !target_cpus::is_unknown(names[j], valid, union) by {
                    assert(!nobody_knows(*answers, names[j]));
                }
            }
        }
        match r {
            Ok(_) => {
                assert forall|i: int| !#[trigger] first_nobody_knows(names, *answers, i) by {
                    assert(!target_cpus::first_rejected(names, valid, union, i));
                }
            },
            Err(_) => {
                let i = choose|i: int| #[trigger]
                    target_cpus::first_rejected(names, valid, union, i) && (if names[i] == "native"@ {
                        r->Err_0 is NativeFiltered
                    } else {
                        r->Err_0 matches SonicError::UnknownTargetCpu { cpu } && cpu@ == names[i]
                    });
                assert(first_nobody_knows(names, *answers, i));
            },
        }
    }
    r
}

// ---------------------------------------------------------------------------
// Variants

/// A variant to build.
#[derive(Debug)]
pub struct VariantBuildJob {
    pub target_cpu: String,
    pub required_features: FeatureMask,
    pub rank_features: FeatureMask,
    pub feature_names: Vec<String>,
    pub feature_tier: u8,
    pub target_kind: TargetKind,
}

/// The features of a target CPU that matter at run time, by whether the crate knows them.
pub open spec fn features_in(cfg: Seq<char>, known: bool) -> Seq<Seq<char>> {
    runtime_features::runtime_features(rustc_output::stated_features(cfg), known)
}

/// Whether a target CPU has no variant: rustc uses features for it that the crate does not
/// know. The baseline always has one.
pub open spec fn is_left_out(cpu: Seq<char>, arch: Seq<char>, cfg: Seq<char>) -> bool {
    cpu != target_cpus::baseline(arch) && features_in(cfg, false).len() > 0
}

/// Whether the job is the one for a target CPU. The baseline requires nothing; any other
/// variant requires the features without which its code must not run.
pub open spec fn is_job_for(
    job: VariantBuildJob,
    cpu: Seq<char>,
    arch: Seq<char>,
    cfg: Seq<char>,
) -> bool {
    let known = features_in(cfg, true);
    let base = target_cpus::baseline(arch);
    &&& job.target_cpu@ == cpu
    &&& text::texts(job.feature_names@) == known
    &&& runtime_features::is_mask_of(job.rank_features, known)
    &&& if cpu == base {
        job.required_features@ == Set::<int>::empty()
    } else {
        runtime_features::is_mask_of(
            job.required_features,
            runtime_features::required_features(known),
        )
    }
    &&& job.target_kind == classify::kind_of(cpu, arch, base)
    &&& job.feature_tier == classify::tier_of(arch, job.target_kind)
}

/// The job for a target CPU, or the features because of which there is none.
pub fn plan_variant(cpu: &str, arch: &str, cfg: &str) -> (r: Result<VariantBuildJob, Vec<String>>)
    ensures
        match r {
            Ok(job) => !is_left_out(cpu@, arch@, cfg@) && is_job_for(job, cpu@, arch@, cfg@),
            Err(unknown) => is_left_out(cpu@, arch@, cfg@) && text::texts(unknown@)
                == features_in(cfg@, false),
        },
{
    let baseline = baseline_target_cpu(arch);
    let is_baseline = str_eq(cpu, baseline);
    let features = parse_target_features_from_rustc_cfg(cfg);
    let set = classify_runtime_features(&features);
    let ghost known = features_in(cfg@, true);
    assert(text::texts(set.known@) == known);
    assert(text::texts(set.unknown@) == features_in(cfg@, false));
    assert(set.unknown@.len() == text::texts(set.unknown@).len());
    if !is_baseline && set.unknown.len() > 0 {
        return Err(set.unknown);
    }
    let rank = feature_mask(&set.known);
    let required_names = safety_required_features(&set.known);
    let required = feature_mask(&required_names);
    proof {
        assert forall|i: int| 0 <= i < known.len() implies runtime_features::is_known(
            #[trigger] known[i],
        ) by {
            runtime_features::known_side_is_known(rustc_output::stated_features(cfg@), i);
        }
        let names = runtime_features::required_features(known);
        assert forall|i: int| 0 <= i < names.len() implies runtime_features::is_known(
            #[trigger] names[i],
        ) by {
            runtime_features::required_side_is_listed(known, i);
            let j = choose|j: int| 0 <= j < known.len() && known[j] == names[i];
            assert(runtime_features::is_known(known[j]));
        }
        assert(rank is Ok) by {
            if rank is Err {
                let i = choose|i: int| #[trigger] runtime_features::first_unknown(known, i);
                assert(runtime_features::is_known(known[i]));
            }
        }
        assert(required is Ok) by {
            if required is Err {
                let i = choose|i: int| #[trigger] runtime_features::first_unknown(names, i);
                assert(runtime_features::is_known(names[i]));
            }
        }
    }
    let rank_features = match rank {
        Ok(mask) => mask,
        Err(_) => FeatureMask::empty(),
    };
    let required_features = if is_baseline {
        FeatureMask::empty()
    } else {
        match required {
            Ok(mask) => mask,
            Err(_) => FeatureMask::empty(),
        }
    };
    let target_kind = classify_target_cpu(cpu, arch, baseline);
    Ok(
        VariantBuildJob {
            target_cpu: cpu.to_owned(),
            required_features,
            rank_features,
            feature_names: set.known,
            feature_tier: target_feature_tier(arch, target_kind),
            target_kind,
        },
    )
}

/// Every variant requires only features that it makes use of. The baseline requires nothing
/// and is of the generic kind.
pub proof fn jobs_require_what_they_use(
    job: VariantBuildJob,
    cpu: Seq<char>,
    arch: Seq<char>,
    cfg: Seq<char>,
)
    requires
        is_job_for(job, cpu, arch, cfg),
    ensures
        job.required_features@.subset_of(job.rank_features@),
        cpu == target_cpus::baseline(arch) ==> job.required_features@ == Set::<int>::empty()
            && job.target_kind is Generic,
{
    if cpu != target_cpus::baseline(arch) {
        runtime_features::required_is_part_of_rank(
            features_in(cfg, true),
            job.rank_features,
            job.required_features,
        );
    }
}

/// A variant other than the baseline requires every feature that it makes use of, but for the
/// sixteen that may be missing at run time, and it requires none of those.
pub proof fn variants_require_all_but_hints(
    cpu: &str,
    arch: &str,
    cfg: &str,
    job: VariantBuildJob,
    feature: Feature,
)
    requires
        call_ensures(plan_variant, (cpu, arch, cfg), Ok(job)),
        cpu@ != (if arch@ == "x86_64"@ {
            "x86-64"@
        } else {
            "generic"@
        }),
    ensures
        job.required_features.has(feature) <==> job.rank_features.has(feature) && !{
            ||| feature == Feature::Bti
            ||| feature == Feature::Dit
            ||| feature == Feature::Lor
            ||| feature == Feature::Mte
            ||| feature == Feature::Paca
            ||| feature == Feature::Pacg
            ||| feature == Feature::Pan
            ||| feature == Feature::Pmuv3
            ||| feature == Feature::Rand
            ||| feature == Feature::Ras
            ||| feature == Feature::Rdrand
            ||| feature == Feature::Rdseed
            ||| feature == Feature::Sb
            ||| feature == Feature::Spe
            ||| feature == Feature::Ssbs
            ||| feature == Feature::Vh
        },
{
    let args = (cpu, arch, cfg);
    let known = features_in(args.2@, true);
    let required = runtime_features::required_features(known);
    assert(is_job_for(job, args.0@, args.1@, args.2@));
    assert(job.required_features.has(feature) == runtime_features::some_names(required, feature));
    assert(job.rank_features.has(feature) == runtime_features::some_names(known, feature));
    if runtime_features::some_names(required, feature) {
        let i = choose|i: int| 0 <= i < required.len() && feature_mask::names(#[trigger] required[i], feature);
        let name = required[i];
        assert(required.contains(name));
        runtime_features::filter_holds(
            known,
            |f: Seq<char>| runtime_features::is_required(f),
            name,
        );
        runtime_features::required_goes_by_feature(name, feature);
        let j = choose|j: int| 0 <= j < known.len() && known[j] == name;
        assert(feature_mask::names(known[j], feature));
    }
    if runtime_features::some_names(known, feature) {
        let i = choose|i: int| 0 <= i < known.len() && feature_mask::names(#[trigger] known[i], feature);
        let name = known[i];
        assert(known.contains(name));
        runtime_features::filter_holds(
            known,
            |f: Seq<char>| runtime_features::is_required(f),
            name,
        );
        runtime_features::required_goes_by_feature(name, feature);
        if required.contains(name) {
            let j = choose|j: int| 0 <= j < required.len() && required[j] == name;
            assert(feature_mask::names(required[j], feature));
        }
    }
}

/// A variant makes use of a feature if and only if rustc states it for the target CPU.
pub proof fn variants_use_what_rustc_states(
    cpu: &str,
    arch: &str,
    cfg: &str,
    stated: Vec<String>,
    job: VariantBuildJob,
    feature: Feature,
)
    requires
        call_ensures(parse_target_features_from_rustc_cfg, (cfg,), stated),
        call_ensures(plan_variant, (cpu, arch, cfg), Ok(job)),
    ensures
        job.rank_features.has(feature) <==> exists|i: int|
            0 <= i < stated@.len() && feature_mask::names((#[trigger] stated@[i])@, feature),
        forall|i: int|
            0 <= i < job.feature_names@.len() ==> runtime_features::is_known(
                (#[trigger] job.feature_names@[i])@,
            ),
{
    let args = (cpu, arch, cfg);
    let features = rustc_output::stated_features(args.2@);
    let known = features_in(args.2@, true);
    assert(is_job_for(job, args.0@, args.1@, args.2@));
    assert(text::texts(stated@) == features);
    assert(job.rank_features.has(feature) == runtime_features::some_names(known, feature));
    if runtime_features::some_names(known, feature) {
        let i = choose|i: int| 0 <= i < known.len() && feature_mask::names(#[trigger] known[i], feature);
        assert(known.contains(known[i]));
        runtime_features::features_are_split(features, known[i]);
        let j = choose|j: int| 0 <= j < features.len() && features[j] == known[i];
        assert(features[j] == stated@[j]@);
    }
    if exists|i: int|
        0 <= i < stated@.len() && feature_mask::names((#[trigger] stated@[i])@, feature) {
        let i = choose|i: int|
            0 <= i < stated@.len() && feature_mask::names((#[trigger] stated@[i])@, feature);
        let name = stated@[i]@;
        assert(features[i] == name);
        assert(features.contains(name));
        if runtime_features::is_ignored(name) {
            runtime_features::ignored_is_not_known(name);
            assert(!feature_mask::names(name, feature));
        }
        assert(runtime_features::is_known(name));
        runtime_features::features_are_split(features, name);
        let j = choose|j: int| 0 <= j < known.len() && known[j] == name;
        assert(feature_mask::names(known[j], feature));
    }
    assert forall|i: int| 0 <= i < job.feature_names@.len() implies runtime_features::is_known(
        (#[trigger] job.feature_names@[i])@,
    ) by {
        assert(text::texts(job.feature_names@)[i] == job.feature_names@[i]@);
        runtime_features::known_side_is_known(features, i);
    }
}

/// A target CPU other than the baseline has no variant if and only if rustc states a feature
/// for it that the crate does not know and that is not one of five which no host feature stands
/// for. The baseline always has a variant.
pub proof fn strange_features_leave_a_cpu_out(
    cpu: &str,
    arch: &str,
    cfg: &str,
    stated: Vec<String>,
    r: Result<VariantBuildJob, Vec<String>>,
)
    requires
        call_ensures(parse_target_features_from_rustc_cfg, (cfg,), stated),
        call_ensures(plan_variant, (cpu, arch, cfg), r),
    ensures
        r is Err <==> cpu@ != (if arch@ == "x86_64"@ {
            "x86-64"@
        } else {
            "generic"@
        }) && exists|i: int| #[trigger] is_strange(stated@, i),
        r matches Err(unknown) ==> unknown@.len() > 0 && forall|i: int|
            0 <= i < unknown@.len() ==> !runtime_features::is_known((#[trigger] unknown@[i])@),
{
    let args = (cpu, arch, cfg);
    let features = rustc_output::stated_features(args.2@);
    let unknown = features_in(args.2@, false);
    assert(text::texts(stated@) == features);
    if exists|i: int| #[trigger] is_strange(stated@, i) {
        let i = choose|i: int| #[trigger] is_strange(stated@, i);
        let name = stated@[i]@;
        assert(features[i] == name);
        assert(features.contains(name));
        runtime_features::features_are_split(features, name);
        assert(unknown.contains(name));
        assert(unknown.len() > 0);
    }
    if unknown.len() > 0 {
        let name = unknown[0];
        assert(unknown.contains(name));
        runtime_features::features_are_split(features, name);
        let i = choose|i: int| 0 <= i < features.len() && features[i] == name;
        assert(stated@[i]@ == features[i]);
        assert(is_strange(stated@, i));
    }
    if let Err(names) = r {
        assert(text::texts(names@) == unknown);
        assert(names@.len() == unknown.len());
        assert forall|i: int| 0 <= i < names@.len() implies !runtime_features::is_known(
            (#[trigger] names@[i])@,
        ) by {
            assert(unknown[i] == names@[i]@);
            assert(unknown.contains(unknown[i]));
            runtime_features::features_are_split(features, unknown[i]);
        }
    }
}

/// Whether the name at position `i` stands for no feature and for nothing that rustc reports
/// for other reasons.
pub open spec fn is_strange(stated: Seq<String>, i: int) -> bool {
    &&& 0 <= i < stated.len()
    &&& !runtime_features::is_known(stated[i]@)
    &&& stated[i]@ != "crt-static"@
    &&& stated[i]@ != "ermsb"@
    &&& stated[i]@ != "lahfsahf"@
    &&& stated[i]@ != "prfchw"@
    &&& stated[i]@ != "x87"@
}

/// A variant carries the kind and the tier of its target CPU, and the baseline requires
/// nothing, is of the generic kind and has tier 0.
pub proof fn variants_carry_their_kind(
    cpu: &str,
    arch: &str,
    cfg: &str,
    base: &'static str,
    kind: TargetKind,
    tier: u8,
    job: VariantBuildJob,
)
    requires
        call_ensures(baseline_target_cpu, (arch,), base),
        call_ensures(classify_target_cpu, (cpu, arch, base), kind),
        call_ensures(target_feature_tier, (arch, kind), tier),
        call_ensures(plan_variant, (cpu, arch, cfg), Ok(job)),
    ensures
        job.target_cpu@ == cpu@,
        job.target_kind == kind,
        job.feature_tier == tier,
        arch@ == "x86_64"@ && cpu@ == "x86-64"@ || arch@ == "aarch64"@ && cpu@ == "generic"@ ==> {
            &&& job.target_kind is Generic
            &&& job.feature_tier == 0
            &&& forall|f: Feature| !#[trigger] job.required_features.has(f)
        },
{
    reveal_strlit("x86_64");
    reveal_strlit("aarch64");
    assert("x86_64"@.len() != "aarch64"@.len());
    let args = (cpu, arch, cfg);
    assert(is_job_for(job, args.0@, args.1@, args.2@));
}

/// A target CPU without a variant, and the features because of which it has none.
#[derive(Debug)]
pub struct LeftOut {
    pub target_cpu: String,
    pub unknown: Vec<String>,
}

/// The target CPUs of a list that have a variant.
pub open spec fn with_variant(
    cpus: Seq<Seq<char>>,
    arch: Seq<char>,
    answers: Seq<CpuAnswer>,
    has: bool,
) -> Seq<Seq<char>> {
    cpus.filter(|cpu: Seq<char>| is_left_out(cpu, arch, cfg_text(answers, cpu)) != has)
}

/// The output of `rustc --print cfg` for a target CPU, or nothing.
pub open spec fn cfg_text(answers: Seq<CpuAnswer>, cpu: Seq<char>) -> Seq<char> {
    match cfg_for(answers, cpu) {
        Some(cfg) => cfg,
        None => Seq::empty(),
    }
}

/// The variants for a list of target CPUs.
#[derive(Debug)]
pub struct VariantPlan {
    pub jobs: Vec<VariantBuildJob>,
    pub left_out: Vec<LeftOut>,
}

/// Whether the jobs are those for the target CPUs, one for each.
pub open spec fn are_jobs_for(
    jobs: Seq<VariantBuildJob>,
    cpus: Seq<Seq<char>>,
    arch: Seq<char>,
    answers: Seq<CpuAnswer>,
) -> bool {
    &&& jobs.len() == cpus.len()
    &&& forall|i: int|
        0 <= i < jobs.len() ==> is_job_for(
            #[trigger] jobs[i],
            cpus[i],
            arch,
            cfg_text(answers, cpus[i]),
        )
}

/// Whether the entries tell why the target CPUs are left out, one for each.
pub open spec fn are_left_out(
    left_out: Seq<LeftOut>,
    cpus: Seq<Seq<char>>,
    answers: Seq<CpuAnswer>,
) -> bool {
    &&& left_out.len() == cpus.len()
    &&& forall|i: int|
        0 <= i < left_out.len() ==> (#[trigger] left_out[i]).target_cpu@ == cpus[i] && text::texts(
            left_out[i].unknown@,
        ) == features_in(cfg_text(answers, cpus[i]), false)
}

/// Whether the plan is the one for a list of target CPUs: the jobs and the target CPUs
/// that are left out, both in the order of the list.
pub open spec fn is_plan_for(
    plan: VariantPlan,
    cpus: Seq<Seq<char>>,
    arch: Seq<char>,
    answers: Seq<CpuAnswer>,
) -> bool {
    &&& are_jobs_for(plan.jobs@, with_variant(cpus, arch, answers, true), arch, answers)
    &&& are_left_out(plan.left_out@, with_variant(cpus, arch, answers, false), answers)
}

proof fn first_stays_first(names: Seq<Seq<char>>, output: Seq<char>)
    requires
        names.len() > 0,
        can_build(output, names[0]),
    ensures
        buildable(names, output).len() > 0,
        buildable(names, output)[0] == names[0],
    decreases names.len(),
{
    if names.len() > 1 {
        first_stays_first(names.drop_last(), output);
    } else {
        assert(names.drop_last() =~= Seq::<Seq<char>>::empty());
        assert(buildable(names.drop_last(), output).len() == 0);
    }
}

proof fn first_has_variant(cpus: Seq<Seq<char>>, arch: Seq<char>, answers: Seq<CpuAnswer>)
    requires
        cpus.len() > 0,
        !is_left_out(cpus[0], arch, cfg_text(answers, cpus[0])),
    ensures
        with_variant(cpus, arch, answers, true).len() > 0,
        with_variant(cpus, arch, answers, true)[0] == cpus[0],
    decreases cpus.len(),
{
    reveal(Seq::filter);
    if cpus.len() > 1 {
        first_has_variant(cpus.drop_last(), arch, answers);
    } else {
        let pred = |cpu: Seq<char>| is_left_out(cpu, arch, cfg_text(answers, cpu)) != true;
        assert(cpus.drop_last() =~= Seq::<Seq<char>>::empty());
        assert(cpus.drop_last().filter(pred).len() == 0);
    }
}

/// Whatever is requested, the first variant is the baseline, if rustc can build for it at
/// all: no feature that rustc uses for it can leave it out.
pub proof fn baseline_is_always_built(
    requested: Seq<Seq<char>>,
    arch: Seq<char>,
    answers: RustcAnswers,
)
    requires
        can_build(answers.target_cpus@, target_cpus::baseline(arch)),
    ensures
        ({
            let cpus = chosen_cpus(requested, arch, answers);
            let built = with_variant(cpus, arch, answers.cpu_answers@, true);
            built.len() > 0 && built[0] == target_cpus::baseline(arch)
        }),
{
    let names = with_baseline(requested, arch);
    assert(names[0] == target_cpus::baseline(arch));
    first_stays_first(names, answers.target_cpus@);
    first_has_variant(chosen_cpus(requested, arch, answers), arch, answers.cpu_answers@);
}

/// Whether the target CPU at position `i` is the first without an output of `rustc --print
/// cfg`.
pub open spec fn first_without_cfg(
    cpus: Seq<Seq<char>>,
    answers: Seq<CpuAnswer>,
    i: int,
) -> bool {
    &&& 0 <= i < cpus.len()
    &&& cfg_for(answers, cpus[i]) is None
    &&& forall|j: int| 0 <= j < i ==> cfg_for(answers, #[trigger] cpus[j]) is Some
}

/// The variants for a list of target CPUs.
pub fn plan_variants(cpus: &[String], arch: &str, answers: &[CpuAnswer]) -> (r: Result<
    VariantPlan,
    SonicError,
>)
    ensures
        match r {
            Ok(plan) => (forall|i: int|
                0 <= i < cpus@.len() ==> cfg_for(answers@, #[trigger] text::texts(cpus@)[i]) is Some)
                && is_plan_for(plan, text::texts(cpus@), arch@, answers@),
            Err(e) => exists|i: int| #[trigger]
                first_without_cfg(text::texts(cpus@), answers@, i) && (e matches
                    SonicError::CfgMissing { cpu } && cpu@ == text::texts(cpus@)[i]),
        },
{
    let ghost names = text::texts(cpus@);
    let mut jobs: Vec<VariantBuildJob> = Vec::new();
    let mut left_out: Vec<LeftOut> = Vec::new();
    let mut i: usize = 0;
    proof {
        reveal(Seq::filter);
        assert(names.take(0) =~= Seq::<Seq<char>>::empty());
    }
    while i < cpus.len()
        invariant
            i <= cpus@.len(),
            names == text::texts(cpus@),
            forall|j: int| 0 <= j < i ==> cfg_for(answers@, #[trigger] names[j]) is Some,
            are_jobs_for(
                jobs@,
                with_variant(names.take(i as int), arch@, answers@, true),
                arch@,
                answers@,
            ),
            are_left_out(
                left_out@,
                with_variant(names.take(i as int), arch@, answers@, false),
                answers@,
            ),
        decreases cpus@.len() - i,
    {
        let cpu = cpus[i].as_str();
        let ghost shorter = names.take(i as int);
        let ghost longer = names.take(i + 1);
        proof {
            reveal(Seq::filter);
            assert(names[i as int] == cpu@);
            assert(longer.drop_last() =~= shorter);
            assert(longer.last() == cpu@);
        }
        let found = find_answer(answers, cpu);
        let cfg = match found {
            Some(k) => match &answers[k].cfg {
                Some(cfg) => cfg.as_str(),
                None => {
                    assert(first_without_cfg(names, answers@, i as int));
                    return Err(SonicError::CfgMissing { cpu: cpu.to_owned() });
                },
            },
            None => {
                assert(first_without_cfg(names, answers@, i as int));
                return Err(SonicError::CfgMissing { cpu: cpu.to_owned() });
            },
        };
        assert(cfg@ == cfg_text(answers@, cpu@));
        let ghost was_jobs = jobs@;
        let ghost was_left = left_out@;
        match plan_variant(cpu, arch, cfg) {
            Ok(job) => {
                jobs.push(job);
                assert(with_variant(longer, arch@, answers@, true) =~= with_variant(
                    shorter,
                    arch@,
                    answers@,
                    true,
                ).push(cpu@));
                assert(with_variant(longer, arch@, answers@, false) =~= with_variant(
                    shorter,
                    arch@,
                    answers@,
                    false,
                ));
                assert forall|k: int| 0 <= k < jobs@.len() implies is_job_for(
                    #[trigger] jobs@[k],
                    with_variant(longer, arch@, answers@, true)[k],
                    arch@,
                    cfg_text(answers@, with_variant(longer, arch@, answers@, true)[k]),
                ) by {
                    if k < was_jobs.len() {
                        assert(jobs@[k] == was_jobs[k]);
                    }
                }
            },
            Err(unknown) => {
                left_out.push(LeftOut { target_cpu: cpu.to_owned(), unknown });
                assert(with_variant(longer, arch@, answers@, false) =~= with_variant(
                    shorter,
                    arch@,
                    answers@,
                    false,
                ).push(cpu@));
                assert(with_variant(longer, arch@, answers@, true) =~= with_variant(
                    shorter,
                    arch@,
                    answers@,
                    true,
                ));
                assert forall|k: int| 0 <= k < left_out@.len() implies (
                #[trigger] left_out@[k]).target_cpu@ == with_variant(
                    longer,
                    arch@,
                    answers@,
                    false,
                )[k] && text::texts(left_out@[k].unknown@) == features_in(
                    cfg_text(answers@, with_variant(longer, arch@, answers@, false)[k]),
                    false,
                ) by {
                    if k < was_left.len() {
                        assert(left_out@[k] == was_left[k]);
                    }
                }
            },
        }
        i += 1;
    }
    assert(names.take(i as int) =~= names);
    Ok(VariantPlan { jobs, left_out })
}

// ---------------------------------------------------------------------------
// Variants in reports

/// Leaks a string with `String::leak` of std: the slice that it returns holds the same text
/// and lives as long as the program.
#[verifier::external_body]
fn leak(s: String) -> (r: &'static str)
    ensures
        r@ == s@,
{
    s.leak()
}

/// A copy of a string that lives as long as the program.
pub fn leaked_str(value: &str) -> (r: &'static str)
    ensures
        r@ == value@,
{
    leak(value.to_owned())
}

/// Whether `meta` is what selection knows of the job's variant.
pub open spec fn is_meta_of(meta: VariantMeta, job: VariantBuildJob) -> bool {
    &&& meta.target_cpu@ == job.target_cpu@
    &&& meta.required_features == job.required_features
    &&& meta.rank_features == job.rank_features
    &&& meta.rank_feature_count == job.rank_features@.len()
    &&& meta.feature_tier == job.feature_tier
    &&& meta.target_kind == job.target_kind
}

/// Whether `shown` is how a report shows the job's variant.
pub open spec fn is_display_of(shown: ProbeVariant, job: VariantBuildJob) -> bool {
    &&& shown.target_cpu@ == job.target_cpu@
    &&& shown.required_features == job.required_features
    &&& shown.rank_features == job.rank_features
    &&& text::texts(shown.feature_names@) == text::texts(job.feature_names@)
    &&& shown.feature_tier == job.feature_tier
}

/// Whether `metas` are what selection knows of the jobs' variants.
pub open spec fn are_metas_of(metas: Seq<VariantMeta>, jobs: Seq<VariantBuildJob>) -> bool {
    &&& metas.len() == jobs.len()
    &&& forall|i: int| 0 <= i < metas.len() ==> is_meta_of(#[trigger] metas[i], jobs[i])
}

/// Whether `shown` is how a report shows the jobs' variants.
pub open spec fn are_displays_of(shown: Seq<ProbeVariant>, jobs: Seq<VariantBuildJob>) -> bool {
    &&& shown.len() == jobs.len()
    &&& forall|i: int| 0 <= i < shown.len() ==> is_display_of(#[trigger] shown[i], jobs[i])
}

/// What selection knows of the jobs' variants.
pub fn metas_of(jobs: &[VariantBuildJob]) -> (metas: Vec<VariantMeta>)
    ensures
        are_metas_of(metas@, jobs@),
{
    let mut metas: Vec<VariantMeta> = Vec::new();
    while metas.len() < jobs.len()
        invariant
            metas@.len() <= jobs@.len(),
            forall|i: int| 0 <= i < metas@.len() ==> is_meta_of(#[trigger] metas@[i], jobs@[i]),
        decreases jobs@.len() - metas@.len(),
    {
        let job = &jobs[metas.len()];
        metas.push(
            VariantMeta {
                target_cpu: leaked_str(job.target_cpu.as_str()),
                required_features: job.required_features,
                rank_features: job.rank_features,
                rank_feature_count: job.rank_features.count(),
                feature_tier: job.feature_tier,
                target_kind: job.target_kind,
            },
        );
    }
    metas
}

/// How a report shows the jobs' variants.
pub fn displays_of(jobs: &[VariantBuildJob]) -> (shown: Vec<ProbeVariant>)
    ensures
        are_displays_of(shown@, jobs@),
{
    let mut shown: Vec<ProbeVariant> = Vec::new();
    while shown.len() < jobs.len()
        invariant
            shown@.len() <= jobs@.len(),
            forall|i: int| 0 <= i < shown@.len() ==> is_display_of(#[trigger] shown@[i], jobs@[i]),
        decreases jobs@.len() - shown@.len(),
    {
        let job = &jobs[shown.len()];
        shown.push(
            ProbeVariant {
                target_cpu: job.target_cpu.clone(),
                required_features: job.required_features,
                rank_features: job.rank_features,
                feature_names: clone_list(&job.feature_names),
                feature_tier: job.feature_tier,
            },
        );
    }
    shown
}

/// Why a probe report says that a target CPU is left out.
pub open spec fn reason_text(unknown: Seq<Seq<char>>) -> Seq<char> {
    "unknown runtime feature(s): "@ + text::join(unknown, ", "@)
}

/// Whether `skipped` is how a probe report shows the target CPUs that are left out.
pub open spec fn are_skips_of(skipped: Seq<SkippedProbeVariant>, left_out: Seq<LeftOut>) -> bool {
    &&& skipped.len() == left_out.len()
    &&& forall|i: int|
        0 <= i < skipped.len() ==> (#[trigger] skipped[i]).target_cpu@ == left_out[i].target_cpu@
            && skipped[i].reason@ == reason_text(text::texts(left_out[i].unknown@))
}

/// How a probe report shows the target CPUs that are left out.
pub fn skips_of(left_out: &[LeftOut]) -> (skipped: Vec<SkippedProbeVariant>)
    ensures
        are_skips_of(skipped@, left_out@),
{
    let mut skipped: Vec<SkippedProbeVariant> = Vec::new();
    while skipped.len() < left_out.len()
        invariant
            skipped@.len() <= left_out@.len(),
            forall|i: int|
                0 <= i < skipped@.len() ==> (#[trigger] skipped@[i]).target_cpu@
                    == left_out@[i].target_cpu@ && skipped@[i].reason@ == reason_text(
                    text::texts(left_out@[i].unknown@),
                ),
        decreases left_out@.len() - skipped@.len(),
    {
        let entry = &left_out[skipped.len()];
        let mut reason = "unknown runtime feature(s): ".to_owned();
        let names = join_list(&entry.unknown, ", ");
        reason.append(names.as_str());
        skipped.push(SkippedProbeVariant { target_cpu: entry.target_cpu.clone(), reason });
    }
    skipped
}

// ---------------------------------------------------------------------------
// Which targets are supported, and what selection learns of a plan

/// A target is supported if and only if it runs Linux on x86-64 or AArch64, and its
/// architecture is what rustc says.
pub proof fn supported_targets_run_linux(
    target: &str,
    cfg: &str,
    os: Option<String>,
    arch: Option<String>,
    r: Result<String, SonicError>,
)
    requires
        call_ensures(cfg_value, (cfg, "target_os"), os),
        call_ensures(cfg_value, (cfg, "target_arch"), arch),
        call_ensures(supported_arch, (target, cfg), r),
    ensures
        r is Ok <==> text::opt(os) == Some("linux"@) && (text::opt(arch) == Some("x86_64"@)
            || text::opt(arch) == Some("aarch64"@)),
        r matches Ok(name) ==> text::opt(arch) == Some(name@),
        r matches Err(e) ==> {
            &&& text::opt(os) == Some("linux"@) ==> e is UnsupportedArch
            &&& text::opt(os) != Some("linux"@) ==> e is UnsupportedOs
        },
{
    reveal_strlit("linux");
    reveal_strlit("x86_64");
    reveal_strlit("aarch64");
    assert("linux"@.len() == 5 && "x86_64"@.len() == 6 && "aarch64"@.len() == 7);
}

/// Selection learns of each planned variant what the plan says of it, and counts the features
/// that it makes use of.
pub proof fn selection_learns_the_plan(
    jobs: &[VariantBuildJob],
    metas: Vec<VariantMeta>,
    i: int,
    count: u16,
)
    requires
        call_ensures(metas_of, (jobs,), metas),
        0 <= i < jobs@.len(),
        call_ensures(FeatureMask::count, (jobs@[i].rank_features,), count),
    ensures
        metas@.len() == jobs@.len(),
        metas@[i].target_cpu@ == jobs@[i].target_cpu@,
        metas@[i].required_features == jobs@[i].required_features,
        metas@[i].rank_features == jobs@[i].rank_features,
        metas@[i].rank_feature_count == count,
        metas@[i].feature_tier == jobs@[i].feature_tier,
        metas@[i].target_kind == jobs@[i].target_kind,
{
    let args = (jobs,);
    assert(are_metas_of(metas@, args.0@));
    assert(is_meta_of(metas@[i], jobs@[i]));
}

/// Reports show of each planned variant what the plan says of it.
pub proof fn reports_show_the_plan(jobs: &[VariantBuildJob], shown: Vec<ProbeVariant>, i: int)
    requires
        call_ensures(displays_of, (jobs,), shown),
        0 <= i < jobs@.len(),
    ensures
        shown@.len() == jobs@.len(),
        shown@[i].target_cpu@ == jobs@[i].target_cpu@,
        shown@[i].required_features == jobs@[i].required_features,
        shown@[i].rank_features == jobs@[i].rank_features,
        shown@[i].feature_tier == jobs@[i].feature_tier,
        text::texts(shown@[i].feature_names@) == text::texts(jobs@[i].feature_names@),
{
    let args = (jobs,);
    assert(are_displays_of(shown@, args.0@));
    assert(is_display_of(shown@[i], jobs@[i]));
}

/// The target CPUs to build for begin with the baseline if rustc lists it, hold a requested one
/// if and only if rustc lists it, and nothing that was not requested. A request for `native`, for
/// the baseline, or for a target CPU that no supported target has is an error.
pub proof fn requested_cpus_are_built(
    requested: Vec<String>,
    arch: &str,
    answers: &RustcAnswers,
    base: &'static str,
    listed: Vec<String>,
    everywhere: Vec<String>,
    output: &str,
    cpu: Seq<char>,
    r: Result<Vec<String>, SonicError>,
)
    requires
        call_ensures(baseline_target_cpu, (arch,), base),
        output@ == answers.target_cpus@,
        call_ensures(parse_rustc_target_cpus, (output,), listed),
        call_ensures(
            rustc_output::known_supported_cpu_union,
            (&answers.known_target_cpus,),
            everywhere,
        ),
        call_ensures(included_cpus, (requested, arch, answers), r),
        text::texts(requested@).contains(cpu),
        text::texts(listed@).contains(base@),
    ensures
        cpu == "native"@ || cpu == base@ ==> r is Err,
        !text::texts(listed@).contains(cpu) && !text::texts(everywhere@).contains(cpu) && cpu
            != "generic"@ ==> r is Err,
        r matches Ok(cpus) ==> {
            &&& cpus@.len() > 0
            &&& cpus@[0]@ == base@
            &&& text::texts(cpus@).contains(cpu) <==> text::texts(listed@).contains(cpu)
        },
{
    let args = (requested, arch, answers);
    let asked = text::texts(args.0@);
    let names = with_baseline(asked, args.1@);
    let out = answers.target_cpus@;
    let k = choose|k: int| 0 <= k < asked.len() && asked[k] == cpu;
    assert(names[k + 1] == cpu);
    assert(text::texts(listed@).contains(cpu) == rustc_output::lists_cpu(out, cpu));
    assert(text::texts(listed@).contains(base@) == rustc_output::lists_cpu(out, base@));
    let pair = (&answers.known_target_cpus,);
    assert(text::texts(everywhere@).contains(cpu) == rustc_output::some_lists_cpu(pair.0@, cpu));
    if nobody_knows(*answers, cpu) {
        someone_is_first(names, *answers, k + 1);
    }
    if let Ok(cpus) = r {
        reveal_strlit("native");
        reveal_strlit("x86-64");
        reveal_strlit("generic");
        assert("native"@[0] != "x86-64"@[0] && "native"@[0] != "generic"@[0]);
        first_stays_first(names, out);
        assert(text::texts(cpus@) == buildable(names, out));
        assert(text::texts(cpus@).len() == cpus@.len());
        assert(text::texts(cpus@)[0] == cpus@[0]@);
        buildable_holds(names, out, cpu);
        assert(names.contains(cpu));
    }
}

proof fn someone_is_first(names: Seq<Seq<char>>, answers: RustcAnswers, i: int)
    requires
        0 <= i < names.len(),
        nobody_knows(answers, names[i]),
    ensures
        exists|k: int| #[trigger] first_nobody_knows(names, answers, k),
    decreases i,
{
    if exists|j: int| 0 <= j < i && nobody_knows(answers, #[trigger] names[j]) {
        let j = choose|j: int| 0 <= j < i && nobody_knows(answers, #[trigger] names[j]);
        someone_is_first(names, answers, j);
    } else {
        assert(first_nobody_knows(names, answers, i));
    }
}

proof fn buildable_holds(names: Seq<Seq<char>>, output: Seq<char>, cpu: Seq<char>)
    ensures
        buildable(names, output).contains(cpu) <==> names.contains(cpu) && can_build(output, cpu),
    decreases names.len(),
{
    if names.len() > 0 {
        let shorter = names.drop_last();
        let last = names.last();
        let before = buildable(shorter, output);
        buildable_holds(shorter, output, cpu);
        buildable_holds(shorter, output, last);
        if shorter.contains(cpu) {
            let k = choose|k: int| 0 <= k < shorter.len() && shorter[k] == cpu;
            assert(names[k] == cpu);
        }
        if names.contains(cpu) && cpu != last {
            let k = choose|k: int| 0 <= k < names.len() && names[k] == cpu;
            assert(shorter[k] == cpu);
        }
        if cpu == last {
            assert(names[names.len() - 1] == cpu);
        }
        if can_build(output, last) && !before.contains(last) {
            let after = before.push(last);
            if before.contains(cpu) {
                let k = choose|k: int| 0 <= k < before.len() && before[k] == cpu;
                assert(after[k] == cpu);
            }
            if cpu == last {
                assert(after[before.len() as int] == cpu);
            }
        }
    }
}

/// One more target CPU gives one more variant, or one more that is left out, as its
/// configuration says; the plan for the others stays.
pub proof fn plans_go_cpu_by_cpu(
    before: &[String],
    all: &[String],
    cpu: &str,
    arch: &str,
    cfg: &str,
    answers: &[CpuAnswer],
    shorter: VariantPlan,
    longer: VariantPlan,
    found: Option<usize>,
    planned: Result<VariantBuildJob, Vec<String>>,
)
    requires
        call_ensures(plan_variants, (before, arch, answers), Ok(shorter)),
        call_ensures(plan_variants, (all, arch, answers), Ok(longer)),
        text::texts(all@) == text::texts(before@).push(cpu@),
        call_ensures(find_answer, (answers, cpu), found),
        found matches Some(i) ==> text::opt(answers@[i as int].cfg) == Some(cfg@),
        call_ensures(plan_variant, (cpu, arch, cfg), planned),
    ensures
        found is Some,
        planned is Ok ==> longer.jobs@.len() == shorter.jobs@.len() + 1
            && longer.jobs@.last().target_cpu@ == cpu@ && longer.jobs@.last().target_kind
            == planned->Ok_0.target_kind && longer.left_out@.len() == shorter.left_out@.len(),
        planned is Err ==> longer.jobs@.len() == shorter.jobs@.len() && longer.left_out@.len()
            == shorter.left_out@.len() + 1 && longer.left_out@.last().target_cpu@ == cpu@,
{
    let args = (before, arch, answers);
    let args_all = (all, arch, answers);
    let names = text::texts(args.0@);
    let names_all = text::texts(args_all.0@);
    reveal(Seq::filter);
    assert(names_all.drop_last() =~= names);
    assert(names_all.last() == cpu@);
    assert(names_all[names.len() as int] == cpu@);
    assert(cfg_for(args_all.2@, names_all[names.len() as int]) is Some);
    let with = with_variant(names_all, args_all.1@, args_all.2@, true);
    let out = with_variant(names_all, args_all.1@, args_all.2@, false);
    assert(is_plan_for(shorter, names, args.1@, args.2@));
    assert(is_plan_for(longer, names_all, args_all.1@, args_all.2@));
    if planned is Ok {
        let k = longer.jobs@.len() - 1;
        assert(with == with_variant(names, args.1@, args.2@, true).push(cpu@));
        assert(out == with_variant(names, args.1@, args.2@, false));
        assert(is_job_for(longer.jobs@[k], with[k], arch@, cfg_text(answers@, with[k])));
    } else {
        let k = longer.left_out@.len() - 1;
        assert(with == with_variant(names, args.1@, args.2@, true));
        assert(out == with_variant(names, args.1@, args.2@, false).push(cpu@));
        assert(longer.left_out@[k].target_cpu@ == out[k]);
    }
}

} // verus!
