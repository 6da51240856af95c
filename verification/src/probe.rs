//! The commands that compare variants on the host: `probe` those that were asked for, and
//! `score` every variant that rustc can build.
use crate::cargo_args::{self, parse_cargo_args, CargoArgs};
use crate::classify::{self, score_target_kind_matches_host};
use crate::error::SonicError;
use crate::plan::{
    self, displays_of, find_answer, included_cpus, metas_of, plan_variant, plan_variants, skips_of,
    supported_arch, CpuAnswer, RustcAnswers, VariantBuildJob, VariantPlan,
};
use crate::report::{
    self, format_probe_report, format_score_report, ProbeVariant, SkippedProbeVariant,
};
use crate::rustc_output::{self, parse_rustc_target_cpus, rustc_default_target};
use crate::select::{self, select_variant, HostInfo, VariantMeta};
use crate::sorted::{self, add_text, remove_text};
use crate::target_cpus::{self, baseline_target_cpu, effective_target_cpus};
use crate::text::{self, str_eq};
use vstd::prelude::*;

verus! {

/// What `probe` is asked.
#[derive(Debug)]
pub struct ProbeOptions {
    pub cargo_args: Vec<String>,
    pub target_cpus: Vec<String>,
}

/// What `score` is asked.
#[derive(Debug)]
pub struct ScoreOptions {
    pub cargo_args: Vec<String>,
}

/// The target of a command: the one that the Cargo arguments name, otherwise rustc's host.
pub open spec fn chosen_target(named: Option<Seq<char>>, version: Seq<char>) -> Option<Seq<char>> {
    match named {
        Some(target) => Some(target),
        None => rustc_output::first_after(text::lines(version), "host: "@),
    }
}

/// The target of a command.
pub fn command_target(cargo_args: &CargoArgs, version: &str) -> (r: Result<String, SonicError>)
    ensures
        match chosen_target(text::opt(cargo_args.target), version@) {
            Some(target) => r matches Ok(t) && t@ == target,
            None => r matches Err(e) && e is HostTargetUnknown,
        },
{
    match &cargo_args.target {
        Some(target) => Ok(target.clone()),
        None => rustc_default_target(version),
    }
}

// ---------------------------------------------------------------------------
// Probe

/// Whether position `i` holds the variant that selection settles on: the one that it picks,
/// or the first if none is eligible.
pub open spec fn settles_on(host: HostInfo, metas: Seq<VariantMeta>, i: int) -> bool {
    if exists|j: int| 0 <= j < metas.len() && select::eligible(host, #[trigger] metas[j]) {
        select::picks(host, metas, i)
    } else {
        i == 0
    }
}

/// Whether the report is made of those parts, and the parts belong to the plan.
pub open spec fn is_probe_made_of(
    target: Seq<char>,
    host: HostInfo,
    plan: VariantPlan,
    metas: Seq<VariantMeta>,
    shown: Seq<ProbeVariant>,
    skipped: Seq<SkippedProbeVariant>,
    selected: int,
    report: Seq<char>,
) -> bool {
    &&& plan::are_metas_of(metas, plan.jobs@)
    &&& plan::are_displays_of(shown, plan.jobs@)
    &&& plan::are_skips_of(skipped, plan.left_out@)
    &&& settles_on(host, metas, selected)
    &&& report == report::probe_text(target, host, shown, skipped, metas[selected].target_cpu@)
}

/// Whether the report shows the plan on a host.
pub open spec fn is_probe_of(
    target: Seq<char>,
    host: HostInfo,
    plan: VariantPlan,
    report: Seq<char>,
) -> bool {
    exists|
        metas: Seq<VariantMeta>,
        shown: Seq<ProbeVariant>,
        skipped: Seq<SkippedProbeVariant>,
        selected: int,
    | #[trigger]
        is_probe_made_of(target, host, plan, metas, shown, skipped, selected, report)
}

/// The report that shows a plan on a host.
pub fn probe_plan(target: &str, host: HostInfo, plan: &VariantPlan) -> (report: String)
    requires
        plan.jobs@.len() > 0,
    ensures
        is_probe_of(target@, host, *plan, report@),
{
    let metas = metas_of(&plan.jobs);
    let shown = displays_of(&plan.jobs);
    let skipped = skips_of(&plan.left_out);
    let selected = select_variant(host, &metas);
    let report = format_probe_report(target, host, &shown, &skipped, selected.target_cpu);
    proof {
        let some_eligible = exists|j: int|
            0 <= j < metas@.len() && select::eligible(host, #[trigger] metas@[j]);
        let i = if some_eligible {
            choose|i: int| #[trigger] select::picks(host, metas@, i) && *selected == metas@[i]
        } else {
            0
        };
        if !some_eligible {
            assert forall|j: int| 0 <= j < metas@.len() implies !select::eligible(
                host,
                #[trigger] metas@[j],
            ) by {}
        }
        assert(settles_on(host, metas@, i));
        assert(is_probe_made_of(
            target@,
            host,
            *plan,
            metas@,
            shown@,
            skipped@,
            i,
            report@,
        ));
    }
    report
}

/// Where the first job is the one for the baseline, the variant that a probe selects can run
/// on the host, and no variant that can run there is better.
pub proof fn probe_selects_the_best(
    target: Seq<char>,
    arch: Seq<char>,
    cfg: Seq<char>,
    host: HostInfo,
    plan: VariantPlan,
    metas: Seq<VariantMeta>,
    shown: Seq<ProbeVariant>,
    skipped: Seq<SkippedProbeVariant>,
    selected: int,
    report: Seq<char>,
    other: int,
)
    requires
        plan.jobs@.len() > 0,
        plan::is_job_for(plan.jobs@[0], target_cpus::baseline(arch), arch, cfg),
        is_probe_made_of(target, host, plan, metas, shown, skipped, selected, report),
        0 <= other < metas.len(),
        select::eligible(host, metas[other]),
    ensures
        0 <= selected < metas.len(),
        select::eligible(host, metas[selected]),
        !select::better(host, metas[other], metas[selected]),
{
    assert(plan::is_meta_of(metas[0], plan.jobs@[0]));
    select::baseline_makes_selection_safe(host, metas, 0, selected, other);
}

/// Whether the outcome is that of probing the requested target CPUs of a target.
pub open spec fn probes_target(
    target: Seq<char>,
    requested: Seq<Seq<char>>,
    answers: RustcAnswers,
    host: HostInfo,
    r: Result<String, SonicError>,
) -> bool {
    let arch = plan::arch_of(answers.cfg@);
    let cpus = plan::chosen_cpus(requested, arch, answers);
    if !plan::is_supported(answers.cfg@) {
        r matches Err(e) && plan::tells_unsupported(target, answers.cfg@, e)
    } else if plan::is_rejected(requested, arch, answers) {
        r matches Err(e) && plan::tells_rejection(requested, arch, answers, e)
    } else if exists|i: int| #[trigger]
        plan::first_without_cfg(cpus, answers.cpu_answers@, i) {
        r matches Err(SonicError::CfgMissing { cpu }) && exists|i: int| #[trigger]
            plan::first_without_cfg(cpus, answers.cpu_answers@, i) && cpu@ == cpus[i]
    } else if plan::with_variant(cpus, arch, answers.cpu_answers@, true).len() == 0 {
        r matches Err(e) && e is NoVariant
    } else {
        r matches Ok(report) && exists|planned: VariantPlan| #[trigger]
            plan::is_plan_for(planned, cpus, arch, answers.cpu_answers@) && is_probe_of(
                target,
                host,
                planned,
                report@,
            )
    }
}

/// Whether the outcome is that of `probe`, given the target that the Cargo arguments name.
pub open spec fn probes(
    named: Option<Seq<char>>,
    requested: Seq<Seq<char>>,
    answers: RustcAnswers,
    host: HostInfo,
    r: Result<String, SonicError>,
) -> bool {
    if requested.len() == 0 {
        r matches Err(e) && e is NoTargetCpus
    } else {
        match chosen_target(named, answers.version@) {
            Some(target) => probes_target(target, requested, answers, host, r),
            None => r matches Err(e) && e is HostTargetUnknown,
        }
    }
}

/// Probes the requested target CPUs, with Cargo arguments that were read already.
pub fn probe_with(
    cargo_args: &CargoArgs,
    target_cpus: Vec<String>,
    answers: &RustcAnswers,
    host: HostInfo,
) -> (r: Result<String, SonicError>)
    ensures
        probes(text::opt(cargo_args.target), text::texts(target_cpus@), *answers, host, r),
{
    let ghost asked = text::texts(target_cpus@);
    assert(asked.len() == target_cpus@.len());
    let requested = match effective_target_cpus(target_cpus) {
        Ok(cpus) => cpus,
        Err(e) => {
            return Err(e);
        },
    };
    let target = match command_target(cargo_args, answers.version.as_str()) {
        Ok(target) => target,
        Err(e) => {
            return Err(e);
        },
    };
    let arch = match supported_arch(target.as_str(), answers.cfg.as_str()) {
        Ok(arch) => arch,
        Err(e) => {
            return Err(e);
        },
    };
    let included = match included_cpus(requested, arch.as_str(), answers) {
        Ok(cpus) => cpus,
        Err(e) => {
            return Err(e);
        },
    };
    let ghost cpus = text::texts(included@);
    let planned = match plan_variants(&included, arch.as_str(), &answers.cpu_answers) {
        Ok(planned) => planned,
        Err(e) => {
            return Err(e);
        },
    };
    proof {
        assert forall|i: int| !#[trigger]
            plan::first_without_cfg(cpus, answers.cpu_answers@, i) by {
            if 0 <= i < cpus.len() {
                assert(plan::cfg_for(answers.cpu_answers@, cpus[i]) is Some);
            }
        }
        assert(plan::is_plan_for(planned, cpus, arch@, answers.cpu_answers@));
    }
    if planned.jobs.len() == 0 {
        return Err(SonicError::NoVariant);
    }
    Ok(probe_plan(target.as_str(), host, &planned))
}

/// Shows which of the requested variants the host can run, and which one it would run.
pub fn probe(options: ProbeOptions, answers: &RustcAnswers, host: HostInfo) -> (r: Result<
    String,
    SonicError,
>)
    ensures
        match cargo_args::reading(cargo_args::known(text::texts(options.cargo_args@))) {
            Some((release, values)) => probes(
                cargo_args::last_text(values[1]),
                text::texts(options.target_cpus@),
                *answers,
                host,
                r,
            ),
            None => r matches Err(e) && e is CargoArgsUnreadable,
        },
{
    match parse_cargo_args(&options.cargo_args) {
        Ok(cargo_args) => probe_with(&cargo_args, options.target_cpus, answers, host),
        Err(e) => Err(e),
    }
}

// ---------------------------------------------------------------------------
// Score

/// Whether a target CPU is compared: the baseline, and whatever rustc lists other than
/// `native`, and other than `generic` where that is not the baseline.
pub open spec fn is_candidate(output: Seq<char>, arch: Seq<char>, cpu: Seq<char>) -> bool {
    let base = target_cpus::baseline(arch);
    ||| cpu == base
    ||| (rustc_output::lists_cpu(output, cpu) && cpu != "native"@ && (base == "generic"@ || cpu
        != "generic"@))
}

/// Whether the list holds the target CPUs to compare, sorted, each once.
pub open spec fn are_candidates(output: Seq<char>, arch: Seq<char>, list: Seq<Seq<char>>) -> bool {
    &&& sorted::ascending(list)
    &&& forall|t: Seq<char>| #[trigger] list.contains(t) == is_candidate(output, arch, t)
}

/// The target CPUs to compare, sorted, each once.
pub open spec fn candidates(output: Seq<char>, arch: Seq<char>) -> Seq<Seq<char>> {
    choose|list: Seq<Seq<char>>| #[trigger] are_candidates(output, arch, list)
}

/// The target CPUs to compare.
pub fn score_candidates(output: &str, arch: &str) -> (r: Vec<String>)
    ensures
        are_candidates(output@, arch@, text::texts(r@)),
        text::texts(r@) == candidates(output@, arch@),
{
    let baseline = baseline_target_cpu(arch);
    let listed = parse_rustc_target_cpus(output);
    let ghost listed0 = text::texts(listed@);
    let without_native = remove_text(&listed, "native");
    let ghost listed1 = text::texts(without_native@);
    let mut list = if str_eq(baseline, "generic") {
        without_native
    } else {
        remove_text(&without_native, "generic")
    };
    let ghost listed2 = text::texts(list@);
    add_text(&mut list, baseline.to_owned());
    proof {
        let made = text::texts(list@);
        assert forall|t: Seq<char>| #[trigger] made.contains(t) == is_candidate(
            output@,
            arch@,
            t,
        ) by {
            assert(listed0.contains(t) == rustc_output::lists_cpu(output@, t));
            assert(listed1.contains(t) == (listed0.contains(t) && t != "native"@));
            assert(listed2.contains(t) == (listed1.contains(t) && (target_cpus::baseline(arch@)
                == "generic"@ || t != "generic"@)));
        }
        assert(are_candidates(output@, arch@, made));
        let chosen = candidates(output@, arch@);
        assert(are_candidates(output@, arch@, chosen));
        assert forall|t: Seq<char>| made.contains(t) == chosen.contains(t) by {
            assert(chosen.contains(t) == is_candidate(output@, arch@, t));
        }
        sorted::ascending_is_determined(made, chosen);
    }
    list
}

/// Whether a target CPU is scored: rustc compiles for it and says which features it uses, the
/// crate knows all of them, and the variant may suit the host.
pub open spec fn is_scored(
    cpu: Seq<char>,
    arch: Seq<char>,
    answers: Seq<CpuAnswer>,
    host: HostInfo,
) -> bool {
    match plan::answer_for(answers, cpu) {
        Some(answer) => {
            &&& answer.accepted
            &&& answer.cfg is Some
            &&& !plan::is_left_out(cpu, arch, plan::cfg_text(answers, cpu))
            &&& classify::shown_to(
                host,
                classify::kind_of(cpu, arch, target_cpus::baseline(arch)),
            )
        },
        None => false,
    }
}

/// The target CPUs of a list that are scored.
pub open spec fn scored(
    cpus: Seq<Seq<char>>,
    arch: Seq<char>,
    answers: Seq<CpuAnswer>,
    host: HostInfo,
) -> Seq<Seq<char>> {
    cpus.filter(|cpu: Seq<char>| is_scored(cpu, arch, answers, host))
}

/// The job for a target CPU, if it is scored.
fn scored_job(cpu: &str, arch: &str, answers: &[CpuAnswer], host: HostInfo) -> (r: Option<
    VariantBuildJob,
>)
    ensures
        match r {
            Some(job) => is_scored(cpu@, arch@, answers@, host) && plan::is_job_for(
                job,
                cpu@,
                arch@,
                plan::cfg_text(answers@, cpu@),
            ),
            None => !is_scored(cpu@, arch@, answers@, host),
        },
{
    let i = match find_answer(answers, cpu) {
        Some(i) => i,
        None => {
            return None;
        },
    };
    if !answers[i].accepted {
        return None;
    }
    match &answers[i].cfg {
        Some(cfg) => match plan_variant(cpu, arch, cfg.as_str()) {
            Ok(job) => if score_target_kind_matches_host(host, job.target_kind) {
                Some(job)
            } else {
                None
            },
            Err(_) => None,
        },
        None => None,
    }
}

/// The variants to compare among those for a list of target CPUs.
pub fn scored_jobs(cpus: &[String], arch: &str, answers: &[CpuAnswer], host: HostInfo) -> (jobs:
    Vec<VariantBuildJob>)
    ensures
        plan::are_jobs_for(
            jobs@,
            scored(text::texts(cpus@), arch@, answers@, host),
            arch@,
            answers@,
        ),
        jobs@.len() <= cpus@.len(),
{
    let ghost names = text::texts(cpus@);
    let mut jobs: Vec<VariantBuildJob> = Vec::new();
    let mut i: usize = 0;
    proof {
        reveal(Seq::filter);
        assert(names.take(0) =~= Seq::<Seq<char>>::empty());
    }
    while i < cpus.len()
        invariant
            i <= cpus@.len(),
            jobs@.len() <= i,
            names == text::texts(cpus@),
            plan::are_jobs_for(
                jobs@,
                scored(names.take(i as int), arch@, answers@, host),
                arch@,
                answers@,
            ),
        decreases cpus@.len() - i,
    {
        let cpu = cpus[i].as_str();
        let ghost shorter = names.take(i as int);
        let ghost longer = names.take(i + 1);
        let ghost was = jobs@;
        proof {
            reveal(Seq::filter);
            assert(names[i as int] == cpu@);
            assert(longer.drop_last() =~= shorter);
            assert(longer.last() == cpu@);
        }
        let ghost now = scored(longer, arch@, answers@, host);
        match scored_job(cpu, arch, answers, host) {
            Some(job) => {
                jobs.push(job);
                assert(now =~= scored(shorter, arch@, answers@, host).push(cpu@));
                assert forall|k: int| 0 <= k < jobs@.len() implies plan::is_job_for(
                    #[trigger] jobs@[k],
                    now[k],
                    arch@,
                    plan::cfg_text(answers@, now[k]),
                ) by {
                    if k < was.len() {
                        assert(jobs@[k] == was[k]);
                    }
                }
            },
            None => {
                assert(now =~= scored(shorter, arch@, answers@, host));
            },
        }
        i += 1;
    }
    assert(names.take(i as int) =~= names);
    jobs
}

/// Whether the report is made of those parts, and the parts belong to the jobs.
pub open spec fn is_score_made_of(
    target: Seq<char>,
    host: HostInfo,
    jobs: Seq<VariantBuildJob>,
    skipped: nat,
    metas: Seq<VariantMeta>,
    shown: Seq<ProbeVariant>,
    report: Seq<char>,
) -> bool {
    &&& plan::are_metas_of(metas, jobs)
    &&& plan::are_displays_of(shown, jobs)
    &&& report == report::score_text(target, host, metas, shown, skipped)
}

/// Whether the report ranks the jobs on a host.
pub open spec fn is_score_of(
    target: Seq<char>,
    host: HostInfo,
    jobs: Seq<VariantBuildJob>,
    skipped: nat,
    report: Seq<char>,
) -> bool {
    exists|metas: Seq<VariantMeta>, shown: Seq<ProbeVariant>| #[trigger]
        is_score_made_of(target, host, jobs, skipped, metas, shown, report)
}

/// The report that ranks the jobs on a host.
pub fn score_jobs(target: &str, host: HostInfo, jobs: &[VariantBuildJob], skipped: usize) -> (report:
    String)
    ensures
        is_score_of(target@, host, jobs@, skipped as nat, report@),
{
    let metas = metas_of(jobs);
    let shown = displays_of(jobs);
    proof {
        assert forall|i: int|
            0 <= i < metas@.len() && select::eligible(host, metas@[i]) implies report::is_displayed(
            shown@,
            (#[trigger] metas@[i]).target_cpu@,
        ) by {
            assert(plan::is_meta_of(metas@[i], jobs@[i]));
            assert(plan::is_display_of(shown@[i], jobs@[i]));
        }
    }
    let report = format_score_report(target, host, &metas, &shown, skipped);
    assert(is_score_made_of(target@, host, jobs@, skipped as nat, metas@, shown@, report@));
    report
}

/// Whether the outcome is that of scoring a target.
pub open spec fn scores_target(
    target: Seq<char>,
    answers: RustcAnswers,
    host: HostInfo,
    r: Result<String, SonicError>,
) -> bool {
    let arch = plan::arch_of(answers.cfg@);
    let all = candidates(answers.target_cpus@, arch);
    let cpus = scored(all, arch, answers.cpu_answers@, host);
    if !plan::is_supported(answers.cfg@) {
        r matches Err(e) && plan::tells_unsupported(target, answers.cfg@, e)
    } else {
        r matches Ok(report) && exists|jobs: Seq<VariantBuildJob>| #[trigger]
            plan::are_jobs_for(jobs, cpus, arch, answers.cpu_answers@) && is_score_of(
                target,
                host,
                jobs,
                (all.len() - cpus.len()) as nat,
                report@,
            )
    }
}

/// Whether the outcome is that of `score`, given the target that the Cargo arguments name.
pub open spec fn scores(
    named: Option<Seq<char>>,
    answers: RustcAnswers,
    host: HostInfo,
    r: Result<String, SonicError>,
) -> bool {
    match chosen_target(named, answers.version@) {
        Some(target) => scores_target(target, answers, host, r),
        None => r matches Err(e) && e is HostTargetUnknown,
    }
}

/// Ranks the variants of a target, with Cargo arguments that were read already.
pub fn score_with(cargo_args: &CargoArgs, answers: &RustcAnswers, host: HostInfo) -> (r: Result<
    String,
    SonicError,
>)
    ensures
        scores(text::opt(cargo_args.target), *answers, host, r),
{
    let target = match command_target(cargo_args, answers.version.as_str()) {
        Ok(target) => target,
        Err(e) => {
            return Err(e);
        },
    };
    let arch = match supported_arch(target.as_str(), answers.cfg.as_str()) {
        Ok(arch) => arch,
        Err(e) => {
            return Err(e);
        },
    };
    let all = score_candidates(answers.target_cpus.as_str(), arch.as_str());
    let jobs = scored_jobs(&all, arch.as_str(), &answers.cpu_answers, host);
    assert(text::texts(all@).len() == all@.len());
    Ok(score_jobs(target.as_str(), host, &jobs, all.len() - jobs.len()))
}

/// Ranks the variants that rustc can build by how well they suit the host.
pub fn score(options: ScoreOptions, answers: &RustcAnswers, host: HostInfo) -> (r: Result<
    String,
    SonicError,
>)
    ensures
        match cargo_args::reading(cargo_args::known(text::texts(options.cargo_args@))) {
            Some((release, values)) => scores(
                cargo_args::last_text(values[1]),
                *answers,
                host,
                r,
            ),
            None => r matches Err(e) && e is CargoArgsUnreadable,
        },
{
    match parse_cargo_args(&options.cargo_args) {
        Ok(cargo_args) => score_with(&cargo_args, answers, host),
        Err(e) => Err(e),
    }
}

// ---------------------------------------------------------------------------
// What is probed and scored

/// A target that the Cargo arguments name counts; else the one that rustc runs on.
pub proof fn a_named_target_counts(
    cargo_args: &CargoArgs,
    version: &str,
    r: Result<String, SonicError>,
    own: Result<String, SonicError>,
)
    requires
        call_ensures(command_target, (cargo_args, version), r),
        call_ensures(rustc_default_target, (version,), own),
    ensures
        cargo_args.target matches Some(target) ==> (r matches Ok(t) && t@ == target@),
        cargo_args.target is None && own is Err ==> r is Err,
        cargo_args.target is None && own is Ok ==> (r matches Ok(t) && t@ == own->Ok_0@),
{
}

/// The candidates of a target are the CPUs that rustc lists, without `native`, and with the
/// baseline of the architecture, which takes the place of `generic`. None stands twice.
pub proof fn candidates_are_what_rustc_lists(
    output: &str,
    arch: &str,
    listed: Vec<String>,
    r: Vec<String>,
    cpu: Seq<char>,
)
    requires
        call_ensures(parse_rustc_target_cpus, (output,), listed),
        call_ensures(score_candidates, (output, arch), r),
    ensures
        text::texts(r@).no_duplicates(),
        !text::texts(r@).contains("native"@),
        arch@ == "x86_64"@ ==> {
            &&& text::texts(r@).contains("x86-64"@)
            &&& !text::texts(r@).contains("generic"@)
        },
        arch@ != "x86_64"@ ==> text::texts(r@).contains("generic"@),
        cpu != "native"@ && cpu != "generic"@ && cpu != "x86-64"@ ==> (text::texts(r@).contains(cpu)
            <==> text::texts(listed@).contains(cpu)),
{
    let args = (output, arch);
    let made = text::texts(r@);
    reveal_strlit("native");
    reveal_strlit("generic");
    reveal_strlit("x86-64");
    assert("native"@.len() == 6 && "generic"@.len() == 7 && "x86-64"@.len() == 6);
    assert("native"@[0] != "x86-64"@[0]);
    assert(are_candidates(args.0@, args.1@, made));
    assert(made.contains(cpu) == is_candidate(args.0@, args.1@, cpu));
    assert(made.contains("native"@) == is_candidate(args.0@, args.1@, "native"@));
    assert(made.contains("generic"@) == is_candidate(args.0@, args.1@, "generic"@));
    assert(made.contains("x86-64"@) == is_candidate(args.0@, args.1@, "x86-64"@));
    let list = (output,);
    assert(text::texts(listed@).contains(cpu) == rustc_output::lists_cpu(list.0@, cpu));
    sorted::ascending_has_no_duplicates(made);
}

/// One more target CPU is scored if rustc compiles for it and prints its configuration, the
/// configuration gives a variant, and the variant may suit the host; it is then the last one.
pub proof fn suitable_cpus_are_scored(
    before: &[String],
    all: &[String],
    cpu: &str,
    arch: &str,
    cfg: &str,
    answers: &[CpuAnswer],
    host: HostInfo,
    jobs: Vec<VariantBuildJob>,
    more: Vec<VariantBuildJob>,
    found: Option<usize>,
    planned: Result<VariantBuildJob, Vec<String>>,
    suits: bool,
)
    requires
        call_ensures(scored_jobs, (before, arch, answers, host), jobs),
        call_ensures(scored_jobs, (all, arch, answers, host), more),
        text::texts(all@) == text::texts(before@).push(cpu@),
        call_ensures(find_answer, (answers, cpu), found),
        found matches Some(i) ==> (text::opt(answers@[i as int].cfg) == Some(cfg@) || answers@[i as int].cfg is None),
        call_ensures(plan_variant, (cpu, arch, cfg), planned),
        planned matches Ok(job) ==> call_ensures(
            score_target_kind_matches_host,
            (host, job.target_kind),
            suits,
        ),
    ensures
        ({
            let scored_too = found is Some && answers@[found->0 as int].accepted
                && answers@[found->0 as int].cfg is Some && planned is Ok && suits;
            &&& scored_too ==> more@.len() == jobs@.len() + 1 && more@.last().target_cpu@ == cpu@
                && more@.last().target_kind == planned->Ok_0.target_kind
            &&& !scored_too ==> more@.len() == jobs@.len()
        }),
{
    let args = (before, arch, answers, host);
    let args_all = (all, arch, answers, host);
    let names = text::texts(args.0@);
    let longer = text::texts(args_all.0@);
    let p = |cpu: Seq<char>| is_scored(cpu, args.1@, args.2@, args.3);
    reveal(Seq::filter);
    assert(longer.drop_last() =~= names);
    assert(longer.last() == cpu@);
    let now = scored(longer, arch@, answers@, host);
    let was = scored(names, arch@, answers@, host);
    assert(now == if is_scored(cpu@, arch@, answers@, host) {
        was.push(cpu@)
    } else {
        was
    });
    assert(plan::are_jobs_for(jobs@, was, arch@, answers@));
    assert(plan::are_jobs_for(more@, now, arch@, answers@));
    if is_scored(cpu@, arch@, answers@, host) {
        let k = more@.len() - 1;
        assert(plan::is_job_for(more@[k], now[k], arch@, plan::cfg_text(answers@, now[k])));
    }
}

} // verus!
