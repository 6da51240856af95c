//! What a build does, step by step: which variants it builds, how it asks Cargo for each of
//! them, how it stores and collects the payloads.
use crate::cargo_args::{self, parse_cargo_args, resolved_cargo_color, CargoArgs};
use crate::classify::{self, analyze_warnings, CpuFeatures};
use crate::error::SonicError;
use crate::manifest::VariantBuild;
use crate::paths::{self, bundle_path, output_root, variant_target_dir};
use crate::payload_names::{self, LoaderStrategy, PayloadCompression};
use crate::plan::{
    self, included_cpus, plan_variants, supported_arch, LeftOut, RustcAnswers, VariantBuildJob,
};
use crate::probe::{self, command_target};
use crate::rustflags::PayloadRustflags;
use crate::select::{self, HostInfo, VariantMeta};
use crate::sorted::{self, add_text};
use crate::target_cpus::{self, baseline_target_cpu, effective_target_cpus};
use crate::text::{self, clone_list, join_list, str_eq};
use vstd::prelude::*;
use vstd::string::StringExecFns;

verus! {

/// What `build` is asked.
#[derive(Debug)]
pub struct BuildOptions {
    pub cargo_args: Vec<String>,
    pub manifest_path: Option<String>,
    pub target_cpus: Vec<String>,
    pub parallelism: usize,
    pub compress: PayloadCompression,
    pub compression_level: i32,
    pub loader: LoaderStrategy,
    pub auditable: bool,
}

/// What `build` makes.
#[derive(Debug)]
pub struct BuildOutput {
    pub final_binary: String,
    pub warnings: Vec<String>,
}

// ---------------------------------------------------------------------------
// The request

/// A build request whose Cargo arguments are read.
#[derive(Debug)]
pub struct BuildRequest {
    pub cargo_args: CargoArgs,
    pub manifest_path: Option<String>,
}

/// The first of two choices, or the second one.
pub open spec fn first_choice(a: Option<Seq<char>>, b: Option<Seq<char>>) -> Option<Seq<char>> {
    match a {
        Some(value) => Some(value),
        None => b,
    }
}

/// The manifest to build from: that of the options, else that of the Cargo arguments.
pub fn requested_manifest(options: &BuildOptions, cargo_args: &CargoArgs) -> (r: Option<String>)
    ensures
        text::opt(r) == first_choice(
            text::opt(options.manifest_path),
            text::opt(cargo_args.manifest_path),
        ),
{
    match &options.manifest_path {
        Some(path) => Some(path.clone()),
        None => match &cargo_args.manifest_path {
            Some(path) => Some(path.clone()),
            None => None,
        },
    }
}

/// Reads a build request. At least one variant must be built at a time.
pub fn begin_build(options: &BuildOptions) -> (r: Result<BuildRequest, SonicError>)
    ensures
        if options.parallelism == 0 {
            r matches Err(e) && e is ZeroParallelism
        } else {
            match cargo_args::reading(cargo_args::known(text::texts(options.cargo_args@))) {
                Some((release, values)) => r matches Ok(request) && cargo_args::asks_for(
                    request.cargo_args,
                    release,
                    values,
                    text::texts(options.cargo_args@),
                ) && text::opt(request.manifest_path) == first_choice(
                    text::opt(options.manifest_path),
                    cargo_args::last_text(values[5]),
                ),
                None => r matches Err(e) && e is CargoArgsUnreadable,
            }
        },
{
    if options.parallelism == 0 {
        return Err(SonicError::ZeroParallelism);
    }
    match parse_cargo_args(&options.cargo_args) {
        Ok(cargo_args) => {
            let manifest_path = requested_manifest(options, &cargo_args);
            Ok(BuildRequest { cargo_args, manifest_path })
        },
        Err(e) => Err(e),
    }
}

// ---------------------------------------------------------------------------
// Warnings

/// The warning about a target CPU that is left out.
pub open spec fn skip_warning(cpu: Seq<char>, unknown: Seq<Seq<char>>) -> Seq<char> {
    "skipping target-cpu `"@ + cpu + "` because rustc reported unknown runtime feature(s): "@
        + text::join(unknown, ", "@)
}

/// The warnings about the target CPUs that are left out.
pub open spec fn skip_warnings(
    cpus: Seq<Seq<char>>,
    answers: Seq<plan::CpuAnswer>,
) -> Seq<Seq<char>> {
    cpus.map_values(
        |cpu: Seq<char>|
            skip_warning(cpu, plan::features_in(plan::cfg_text(answers, cpu), false)),
    )
}

/// The warning about a target CPU that is left out.
fn format_skip_warning(entry: &LeftOut) -> (r: String)
    ensures
        r@ == skip_warning(entry.target_cpu@, text::texts(entry.unknown@)),
{
    let mut r = "skipping target-cpu `".to_owned();
    r.append(entry.target_cpu.as_str());
    r.append("` because rustc reported unknown runtime feature(s): ");
    let names = join_list(&entry.unknown, ", ");
    r.append(names.as_str());
    r
}

/// The features of the first job for a target CPU, none if there is no such job.
pub open spec fn features_for(jobs: Seq<VariantBuildJob>, cpu: Seq<char>) -> Seq<Seq<char>>
    decreases jobs.len(),
{
    if jobs.len() == 0 {
        Seq::empty()
    } else if jobs[0].target_cpu@ == cpu {
        text::texts(jobs[0].feature_names@)
    } else {
        features_for(jobs.drop_first(), cpu)
    }
}

/// Whether there is a job for a target CPU.
pub open spec fn has_job(jobs: Seq<VariantBuildJob>, cpu: Seq<char>) -> bool {
    exists|i: int| 0 <= i < jobs.len() && (#[trigger] jobs[i]).target_cpu@ == cpu
}

/// The target CPUs of a table.
pub open spec fn cpus_of(items: Seq<CpuFeatures>) -> Seq<Seq<char>> {
    items.map_values(|item: CpuFeatures| item.cpu@)
}

/// Whether the table holds the features of every job's target CPU and of the baseline,
/// sorted by target CPU.
pub open spec fn is_feature_table(
    items: Seq<CpuFeatures>,
    jobs: Seq<VariantBuildJob>,
    baseline: Seq<char>,
) -> bool {
    &&& sorted::ascending(cpus_of(items))
    &&& forall|t: Seq<char>| #[trigger]
        cpus_of(items).contains(t) == (has_job(jobs, t) || t == baseline)
    &&& forall|i: int|
        0 <= i < items.len() ==> text::texts((#[trigger] items[i]).features@) == features_for(
            jobs,
            items[i].cpu@,
        )
}

/// The features of the first job for a target CPU.
fn find_features(jobs: &[VariantBuildJob], cpu: &str) -> (r: Vec<String>)
    ensures
        text::texts(r@) == features_for(jobs@, cpu@),
{
    let mut i: usize = 0;
    assert(jobs@.skip(0) =~= jobs@);
    while i < jobs.len()
        invariant
            i <= jobs@.len(),
            features_for(jobs@, cpu@) == features_for(jobs@.skip(i as int), cpu@),
        decreases jobs@.len() - i,
    {
        assert(jobs@.skip(i as int)[0] == jobs@[i as int]);
        if str_eq(jobs[i].target_cpu.as_str(), cpu) {
            return clone_list(&jobs[i].feature_names);
        }
        assert(jobs@.skip(i as int).drop_first() =~= jobs@.skip(i + 1));
        i += 1;
    }
    let none: Vec<String> = Vec::new();
    assert(text::texts(none@) =~= Seq::<Seq<char>>::empty());
    none
}

/// The features of every job's target CPU and of the baseline, sorted by target CPU.
pub fn feature_table(jobs: &[VariantBuildJob], baseline: &str) -> (items: Vec<CpuFeatures>)
    ensures
        is_feature_table(items@, jobs@, baseline@),
{
    let mut names: Vec<String> = Vec::new();
    let mut i: usize = 0;
    while i < jobs.len()
        invariant
            i <= jobs@.len(),
            sorted::ascending(text::texts(names@)),
            forall|t: Seq<char>| #[trigger]
                text::texts(names@).contains(t) == has_job(jobs@.take(i as int), t),
        decreases jobs@.len() - i,
    {
        let ghost before = text::texts(names@);
        add_text(&mut names, jobs[i].target_cpu.clone());
        proof {
            let shorter = jobs@.take(i as int);
            let longer = jobs@.take(i + 1);
            assert forall|t: Seq<char>| #[trigger] text::texts(names@).contains(t) == has_job(
                longer,
                t,
            ) by {
                assert(before.contains(t) == has_job(shorter, t));
                if has_job(shorter, t) {
                    let k = choose|k: int|
                        0 <= k < shorter.len() && (#[trigger] shorter[k]).target_cpu@ == t;
                    assert(longer[k].target_cpu@ == t);
                }
                if t == jobs@[i as int].target_cpu@ {
                    assert(longer[i as int].target_cpu@ == t);
                }
                if has_job(longer, t) {
                    let k = choose|k: int|
                        0 <= k < longer.len() && (#[trigger] longer[k]).target_cpu@ == t;
                    if k < i {
                        assert(shorter[k].target_cpu@ == t);
                    }
                }
            }
        }
        i += 1;
    }
    assert(jobs@.take(i as int) =~= jobs@);
    let ghost of_jobs = text::texts(names@);
    add_text(&mut names, baseline.to_owned());
    let ghost wanted = text::texts(names@);
    let mut items: Vec<CpuFeatures> = Vec::new();
    while items.len() < names.len()
        invariant
            items@.len() <= names@.len(),
            wanted == text::texts(names@),
            cpus_of(items@) == wanted.take(items@.len() as int),
            forall|k: int|
                0 <= k < items@.len() ==> text::texts((#[trigger] items@[k]).features@)
                    == features_for(jobs@, items@[k].cpu@),
        decreases names@.len() - items@.len(),
    {
        let ghost so_far = items@;
        let cpu = names[items.len()].clone();
        let features = find_features(jobs, cpu.as_str());
        items.push(CpuFeatures { cpu, features });
        proof {
            assert(cpus_of(items@) =~= cpus_of(so_far).push(wanted[so_far.len() as int]));
            assert(wanted.take(items@.len() as int) =~= wanted.take(so_far.len() as int).push(
                wanted[so_far.len() as int],
            ));
        }
    }
    proof {
        assert(wanted.take(items@.len() as int) =~= wanted);
        assert forall|t: Seq<char>| #[trigger] cpus_of(items@).contains(t) == (has_job(jobs@, t)
            || t == baseline@) by {
            assert(wanted.contains(t) == (of_jobs.contains(t) || t == baseline@));
            assert(of_jobs.contains(t) == has_job(jobs@, t));
        }
    }
    items
}

/// Whether the warnings are those about a plan: the target CPUs that are left out, then what
/// the features of the others give reason to.
pub open spec fn are_warnings_for(
    warnings: Seq<Seq<char>>,
    skipped: Seq<Seq<char>>,
    jobs: Seq<VariantBuildJob>,
    arch: Seq<char>,
) -> bool {
    exists|items: Seq<CpuFeatures>| #[trigger]
        is_feature_table(items, jobs, target_cpus::baseline(arch)) && warnings == skipped
            + classify::warnings_for(items, arch)
}

/// The warnings about a plan.
pub fn build_warnings(left_out: &[LeftOut], jobs: &[VariantBuildJob], arch: &str) -> (warnings: Vec<
    String,
>)
    ensures
        are_warnings_for(
            text::texts(warnings@),
            left_out@.map_values(
                |entry: LeftOut| skip_warning(entry.target_cpu@, text::texts(entry.unknown@)),
            ),
            jobs@,
            arch@,
        ),
{
    let ghost skipped = left_out@.map_values(
        |entry: LeftOut| skip_warning(entry.target_cpu@, text::texts(entry.unknown@)),
    );
    let mut warnings: Vec<String> = Vec::new();
    while warnings.len() < left_out.len()
        invariant
            warnings@.len() <= left_out@.len(),
            skipped == left_out@.map_values(
                |entry: LeftOut| skip_warning(entry.target_cpu@, text::texts(entry.unknown@)),
            ),
            text::texts(warnings@) == skipped.take(warnings@.len() as int),
        decreases left_out@.len() - warnings@.len(),
    {
        let ghost so_far = warnings@;
        let i: usize = warnings.len();
        warnings.push(format_skip_warning(&left_out[i]));
        proof {
            assert(text::texts(warnings@) =~= text::texts(so_far).push(skipped[i as int]));
            assert(skipped.take(i + 1) =~= skipped.take(i as int).push(skipped[i as int]));
        }
    }
    assert(skipped.take(warnings@.len() as int) =~= skipped);
    let items = feature_table(jobs, baseline_target_cpu(arch));
    let more = analyze_warnings(&items, arch);
    let ghost found = classify::warnings_for(items@, arch@);
    let mut k: usize = 0;
    assert(found.take(0) =~= Seq::<Seq<char>>::empty());
    assert(skipped + found.take(0) =~= skipped);
    while k < more.len()
        invariant
            k <= more@.len(),
            found == text::texts(more@),
            text::texts(warnings@) == skipped + found.take(k as int),
        decreases more@.len() - k,
    {
        let ghost so_far = warnings@;
        warnings.push(more[k].clone());
        proof {
            assert(text::texts(warnings@) =~= text::texts(so_far).push(found[k as int]));
            assert(skipped + found.take(k + 1) =~= (skipped + found.take(k as int)).push(
                found[k as int],
            ));
        }
        k += 1;
    }
    assert(found.take(k as int) =~= found);
    warnings
}

// ---------------------------------------------------------------------------
// The plan

/// What a build does.
#[derive(Debug)]
pub struct BuildPlan {
    pub target: String,
    pub arch: String,
    /// The directory that holds everything of the build.
    pub out_root: String,
    pub jobs: Vec<VariantBuildJob>,
    pub warnings: Vec<String>,
}

/// Whether the plan is the one for the requested target CPUs of a target.
pub open spec fn is_build_plan(
    built: BuildPlan,
    target: Seq<char>,
    release: bool,
    requested: Seq<Seq<char>>,
    target_dir: Seq<char>,
    answers: RustcAnswers,
) -> bool {
    let arch = plan::arch_of(answers.cfg@);
    let cpus = plan::chosen_cpus(requested, arch, answers);
    &&& built.target@ == target
    &&& built.arch@ == arch
    &&& built.out_root@ == paths::root_of(target_dir, target, release)
    &&& plan::are_jobs_for(
        built.jobs@,
        plan::with_variant(cpus, arch, answers.cpu_answers@, true),
        arch,
        answers.cpu_answers@,
    )
    &&& are_warnings_for(
        text::texts(built.warnings@),
        skip_warnings(
            plan::with_variant(cpus, arch, answers.cpu_answers@, false),
            answers.cpu_answers@,
        ),
        built.jobs@,
        arch,
    )
}

/// Whether the outcome is that of planning a build for a target.
pub open spec fn plans_target(
    target: Seq<char>,
    release: bool,
    requested: Seq<Seq<char>>,
    target_dir: Seq<char>,
    answers: RustcAnswers,
    r: Result<BuildPlan, SonicError>,
) -> bool {
    let arch = plan::arch_of(answers.cfg@);
    let cpus = plan::chosen_cpus(requested, arch, answers);
    if !plan::is_supported(answers.cfg@) {
        r matches Err(e) && plan::tells_unsupported(target, answers.cfg@, e)
    } else if plan::is_rejected(requested, arch, answers) {
        r matches Err(e) && plan::tells_rejection(requested, arch, answers, e)
    } else if exists|i: int| #[trigger]
        plan::first_without_cfg(cpus, answers.cpu_answers@, i) {
        r matches Err(SonicError::CfgMissing { cpu }) && exists|i: int| #[trigger]
            plan::first_without_cfg(cpus, answers.cpu_answers@, i) && cpu@ == cpus[i]
    } else {
        r matches Ok(built) && is_build_plan(
            built,
            target,
            release,
            requested,
            target_dir,
            answers,
        )
    }
}

/// Plans a build: which variants to build for which target, where, and what to warn about.
pub fn plan_build(
    cargo_args: &CargoArgs,
    target_cpus: Vec<String>,
    target_dir: &str,
    answers: &RustcAnswers,
) -> (r: Result<BuildPlan, SonicError>)
    ensures
        if target_cpus@.len() == 0 {
            r matches Err(e) && e is NoTargetCpus
        } else {
            match probe::chosen_target(text::opt(cargo_args.target), answers.version@) {
                Some(target) => plans_target(
                    target,
                    cargo_args.release,
                    text::texts(target_cpus@),
                    target_dir@,
                    *answers,
                    r,
                ),
                None => r matches Err(e) && e is HostTargetUnknown,
            }
        },
{
    let requested = match effective_target_cpus(target_cpus) {
        Ok(cpus) => cpus,
        Err(e) => {
            return Err(e);
        },
    };
    let target = match command_target(cargo_args, answers.version.as_str()) {
        Ok(target) => target,
        Err(e) => {
            return Err(e);
        },
    };
    let arch = match supported_arch(target.as_str(), answers.cfg.as_str()) {
        Ok(arch) => arch,
        Err(e) => {
            return Err(e);
        },
    };
    let included = match included_cpus(requested, arch.as_str(), answers) {
        Ok(cpus) => cpus,
        Err(e) => {
            return Err(e);
        },
    };
    let ghost cpus = text::texts(included@);
    let planned = match plan_variants(&included, arch.as_str(), &answers.cpu_answers) {
        Ok(planned) => planned,
        Err(e) => {
            return Err(e);
        },
    };
    let out_root = output_root(target_dir, target.as_str(), cargo_args.release);
    let warnings = build_warnings(&planned.left_out, &planned.jobs, arch.as_str());
    proof {
        assert forall|i: int| !#[trigger]
            plan::first_without_cfg(cpus, answers.cpu_answers@, i) by {
            if 0 <= i < cpus.len() {
                assert(plan::cfg_for(answers.cpu_answers@, cpus[i]) is Some);
            }
        }
        let skipped = plan::with_variant(cpus, arch@, answers.cpu_answers@, false);
        assert(planned.left_out@.map_values(
            |entry: LeftOut| skip_warning(entry.target_cpu@, text::texts(entry.unknown@)),
        ) =~= skip_warnings(skipped, answers.cpu_answers@));
    }
    Ok(BuildPlan { target, arch, out_root, jobs: planned.jobs, warnings })
}

/// Where rustc can build for the baseline, what a loader with the variants of a build runs
/// can run on the host, whatever the host is and whatever was requested.
pub proof fn every_host_can_run_the_build(
    built: BuildPlan,
    target: Seq<char>,
    release: bool,
    requested: Seq<Seq<char>>,
    target_dir: Seq<char>,
    answers: RustcAnswers,
    metas: Seq<VariantMeta>,
    host: HostInfo,
    enabled: bool,
    chosen: VariantMeta,
)
    requires
        is_build_plan(built, target, release, requested, target_dir, answers),
        plan::can_build(
            answers.target_cpus@,
            target_cpus::baseline(plan::arch_of(answers.cfg@)),
        ),
        plan::are_metas_of(metas, built.jobs@),
        select::loader_runs(host, metas, enabled, chosen),
    ensures
        select::eligible(host, chosen),
{
    let arch = plan::arch_of(answers.cfg@);
    let base = target_cpus::baseline(arch);
    plan::baseline_is_always_built(requested, arch, answers);
    assert(plan::is_job_for(
        built.jobs@[0],
        base,
        arch,
        plan::cfg_text(answers.cpu_answers@, base),
    ));
    plan::jobs_require_what_they_use(
        built.jobs@[0],
        base,
        arch,
        plan::cfg_text(answers.cpu_answers@, base),
    );
    assert(plan::is_meta_of(metas[0], built.jobs@[0]));
    select::loader_runs_what_the_host_can(host, metas, enabled, chosen, 0);
}

// ---------------------------------------------------------------------------
// The payloads

/// What all payloads of a build have in common.
#[derive(Debug)]
pub struct PayloadBuildContext {
    pub package_id: String,
    pub cargo_args: CargoArgs,
    pub manifest_path: Option<String>,
    pub target: String,
    pub out_root: String,
    pub tag_output: bool,
    pub payload_compression: PayloadCompression,
    pub compression_level: i32,
}

/// How many payloads are built at a time.
pub fn worker_count(parallelism: usize, jobs: usize) -> (r: usize)
    ensures
        r == (if parallelism <= jobs {
            parallelism
        } else {
            jobs
        }),
{
    if parallelism <= jobs {
        parallelism
    } else {
        jobs
    }
}

/// Whether the output of each payload's build is tagged: several are built at a time.
pub fn tags_output(parallelism: usize) -> (r: bool)
    ensures
        r == (parallelism > 1),
{
    parallelism > 1
}

/// What is printed before a payload is built.
pub fn build_prelude(target_cpu: &str) -> (r: String)
    ensures
        r@ == "cargo-sonic: build to "@ + target_cpu@ + " CPU\n"@,
{
    let mut r = "cargo-sonic: build to ".to_owned();
    r.append(target_cpu);
    r.append(" CPU\n");
    r
}

/// An option and its value, if there is one.
pub open spec fn option_args(option: Seq<char>, value: Option<Seq<char>>) -> Seq<Seq<char>> {
    match value {
        Some(value) => seq![option, value],
        None => Seq::empty(),
    }
}

/// The arguments with which Cargo builds a payload.
pub open spec fn payload_arguments(
    ctx: PayloadBuildContext,
    cpu: Seq<char>,
    terminal: bool,
    flags: PayloadRustflags,
) -> Seq<Seq<char>> {
    seq!["build"@] + text::texts(ctx.cargo_args.forwarded@) + option_args(
        "--manifest-path"@,
        text::opt(ctx.manifest_path),
    ) + option_args(
        "--target"@,
        if ctx.cargo_args.target is Some {
            None
        } else {
            Some(ctx.target@)
        },
    ) + option_args("--color"@, Some(cargo_args::color_text(ctx.cargo_args.color, terminal)))
        + option_args("--message-format"@, Some("json-render-diagnostics"@)) + option_args(
        "--target-dir"@,
        Some(
            paths::joined(
                paths::joined(ctx.out_root@, "variants"@),
                payload_names::safe_name(cpu),
            ),
        ),
    ) + option_args(
        "--config"@,
        match flags {
            PayloadRustflags::CargoConfig(config) => Some(config@),
            _ => None,
        },
    )
}

/// Appends an option and its value.
pub fn push_option(args: &mut Vec<String>, option: &str, value: &str)
    ensures
        text::texts(final(args)@) == text::texts(old(args)@) + option_args(
            option@,
            Some(value@),
        ),
{
    args.push(option.to_owned());
    args.push(value.to_owned());
    assert(text::texts(args@) =~= text::texts(old(args)@) + seq![option@, value@]);
}

/// The arguments of `cargo build` that are handed on.
pub fn build_args(forwarded: &[String]) -> (args: Vec<String>)
    ensures
        text::texts(args@) == seq!["build"@] + text::texts(forwarded@),
{
    let mut args: Vec<String> = Vec::new();
    args.push("build".to_owned());
    assert(text::texts(args@) =~= seq!["build"@]);
    let ghost given = text::texts(forwarded@);
    let mut i: usize = 0;
    assert(given.take(0) =~= Seq::<Seq<char>>::empty());
    assert(seq!["build"@] + given.take(0) =~= seq!["build"@]);
    while i < forwarded.len()
        invariant
            i <= forwarded@.len(),
            given == text::texts(forwarded@),
            text::texts(args@) == seq!["build"@] + given.take(i as int),
        decreases forwarded@.len() - i,
    {
        let ghost so_far = args@;
        args.push(forwarded[i].clone());
        proof {
            assert(text::texts(args@) =~= text::texts(so_far).push(given[i as int]));
            assert(seq!["build"@] + given.take(i + 1) =~= (seq!["build"@] + given.take(
                i as int,
            )).push(given[i as int]));
        }
        i += 1;
    }
    assert(given.take(i as int) =~= given);
    args
}

/// The arguments with which Cargo builds a payload.
pub fn payload_args(ctx: &PayloadBuildContext, cpu: &str, terminal: bool, flags: &PayloadRustflags) -> (r:
    Vec<String>)
    ensures
        text::texts(r@) == payload_arguments(*ctx, cpu@, terminal, *flags),
{
    let mut args = build_args(&ctx.cargo_args.forwarded);
    let ghost a = text::texts(args@);
    if let Some(path) = &ctx.manifest_path {
        push_option(&mut args, "--manifest-path", path.as_str());
    }
    assert(text::texts(args@) =~= a + option_args(
        "--manifest-path"@,
        text::opt(ctx.manifest_path),
    ));
    let ghost b = text::texts(args@);
    if ctx.cargo_args.target.is_none() {
        push_option(&mut args, "--target", ctx.target.as_str());
    }
    assert(text::texts(args@) =~= b + option_args(
        "--target"@,
        if ctx.cargo_args.target is Some {
            None
        } else {
            Some(ctx.target@)
        },
    ));
    push_option(&mut args, "--color", resolved_cargo_color(ctx.cargo_args.color, terminal));
    push_option(&mut args, "--message-format", "json-render-diagnostics");
    let target_dir = variant_target_dir(ctx.out_root.as_str(), cpu);
    push_option(&mut args, "--target-dir", target_dir.as_str());
    let ghost c = text::texts(args@);
    assert(c + Seq::<Seq<char>>::empty() =~= c);
    if let PayloadRustflags::CargoConfig(config) = flags {
        push_option(&mut args, "--config", config.as_str());
    }
    args
}

/// The environment variable that hands rustc's flags to Cargo, and its value, unless an
/// argument does.
pub fn payload_env(flags: PayloadRustflags) -> (r: Option<(&'static str, Vec<u8>)>)
    ensures
        match flags {
            PayloadRustflags::Encoded(bytes) => r matches Some((name, value)) && name@
                == "CARGO_ENCODED_RUSTFLAGS"@ && value@ == bytes@,
            PayloadRustflags::Plain(bytes) => r matches Some((name, value)) && name@
                == "RUSTFLAGS"@ && value@ == bytes@,
            PayloadRustflags::CargoConfig(_) => r is None,
        },
{
    match flags {
        PayloadRustflags::Encoded(bytes) => Some(("CARGO_ENCODED_RUSTFLAGS", bytes)),
        PayloadRustflags::Plain(bytes) => Some(("RUSTFLAGS", bytes)),
        PayloadRustflags::CargoConfig(_) => None,
    }
}

/// What `zstd::stream::encode_all` of the `zstd` crate makes of some bytes at a compression
/// level, nothing if it fails.
pub uninterp spec fn zstd_frame(bytes: Seq<u8>, level: i32) -> Option<Seq<u8>>;

/// `zstd::stream::encode_all` compresses all that it reads into one zstd frame. What it
/// makes of bytes in memory depends on the bytes and the level alone.
#[verifier::external_body]
fn zstd_compress(bytes: &[u8], level: i32) -> (r: Option<Vec<u8>>)
    ensures
        match r {
            Some(frame) => zstd_frame(bytes@, level) == Some(frame@),
            None => zstd_frame(bytes@, level) is None,
        },
{
    zstd::stream::encode_all(bytes, level).ok()
}

/// The payload that a compression makes, or the error if there is none.
pub fn compressed_payload(cpu: &str, compressed: Option<Vec<u8>>) -> (r: Result<
    Vec<u8>,
    SonicError,
>)
    ensures
        match compressed {
            Some(bytes) => r matches Ok(payload) && payload@ == bytes@,
            None => r matches Err(SonicError::CompressionFailed { cpu: c }) && c@ == cpu@,
        },
{
    match compressed {
        Some(bytes) => Ok(bytes),
        None => Err(SonicError::CompressionFailed { cpu: cpu.to_owned() }),
    }
}

/// The payload that an executable is stored as.
pub fn payload_bytes(
    cpu: &str,
    executable: Vec<u8>,
    compression: PayloadCompression,
    level: i32,
) -> (r: Result<Vec<u8>, SonicError>)
    ensures
        match compression {
            PayloadCompression::Uncompressed => r matches Ok(payload) && payload@ == executable@,
            PayloadCompression::Zstd => match zstd_frame(executable@, level) {
                Some(frame) => r matches Ok(payload) && payload@ == frame,
                None => r matches Err(SonicError::CompressionFailed { cpu: c }) && c@ == cpu@,
            },
        },
{
    match compression {
        PayloadCompression::Uncompressed => Ok(executable),
        PayloadCompression::Zstd => compressed_payload(cpu, zstd_compress(&executable, level)),
    }
}

/// The variant that a job has built.
pub fn built_variant(
    job: VariantBuildJob,
    artifact: String,
    payload_len: u64,
    uncompressed_len: u64,
    compression: PayloadCompression,
) -> (r: VariantBuild)
    ensures
        r.target_cpu@ == job.target_cpu@,
        r.required_features == job.required_features,
        r.rank_features == job.rank_features,
        r.feature_names@ == job.feature_names@,
        r.feature_tier == job.feature_tier,
        r.target_kind == job.target_kind,
        r.artifact@ == artifact@,
        r.payload_len == payload_len,
        r.payload_compression == compression,
        r.uncompressed_len == uncompressed_len,
        r.bundle_path@ == payload_names::file_name(job.target_cpu@, compression).push('\0'),
{
    let bundle_path = bundle_path(job.target_cpu.as_str(), compression);
    VariantBuild {
        target_cpu: job.target_cpu,
        required_features: job.required_features,
        rank_features: job.rank_features,
        feature_names: job.feature_names,
        feature_tier: job.feature_tier,
        target_kind: job.target_kind,
        artifact,
        payload_len,
        payload_compression: compression,
        uncompressed_len,
        bundle_path,
    }
}

// ---------------------------------------------------------------------------
// What the workers report

/// What the workers of a build have reported so far.
#[derive(Debug)]
pub struct WorkerReports<T, E> {
    /// One slot for each job, in the order of the jobs.
    pub slots: Vec<Option<T>>,
    /// The first failure.
    pub failure: Option<E>,
}

/// Why the results of a build are not complete.
#[derive(Debug)]
pub enum CollectError<E> {
    Failed(E),
    WorkerLost,
}

/// The slots after some jobs have reported their results.
pub open spec fn filled<T>(jobs: nat, reports: Seq<(int, T)>) -> Seq<Option<T>>
    decreases reports.len(),
{
    if reports.len() == 0 {
        Seq::new(jobs, |i: int| None)
    } else {
        filled(jobs, reports.drop_last()).update(reports.last().0, Some(reports.last().1))
    }
}

/// In whatever order the jobs report, the result of each ends up in its own slot.
pub proof fn arrival_order_is_immaterial<T>(jobs: nat, reports: Seq<(int, T)>, k: int)
    requires
        0 <= k < reports.len(),
        forall|i: int| 0 <= i < reports.len() ==> 0 <= (#[trigger] reports[i]).0 < jobs,
        forall|i: int, j: int|
            0 <= i < j < reports.len() ==> (#[trigger] reports[i]).0 != (#[trigger] reports[j]).0,
    ensures
        filled(jobs, reports).len() == jobs,
        filled(jobs, reports)[reports[k].0] == Some(reports[k].1),
    decreases reports.len(),
{
    let before = reports.drop_last();
    assert forall|i: int| 0 <= i < before.len() implies 0 <= (#[trigger] before[i]).0 < jobs by {
        assert(before[i] == reports[i]);
    }
    filled_has_a_slot_for_each(jobs, before);
    assert(0 <= reports[reports.len() - 1].0 < jobs);
    if k < before.len() {
        arrival_order_is_immaterial(jobs, before, k);
        assert(before[k] == reports[k]);
        assert(reports[k].0 != reports[reports.len() - 1].0);
    }
}

proof fn filled_has_a_slot_for_each<T>(jobs: nat, reports: Seq<(int, T)>)
    requires
        forall|i: int| 0 <= i < reports.len() ==> 0 <= (#[trigger] reports[i]).0 < jobs,
    ensures
        filled(jobs, reports).len() == jobs,
    decreases reports.len(),
{
    if reports.len() > 0 {
        let before = reports.drop_last();
        assert forall|i: int| 0 <= i < before.len() implies 0 <= (#[trigger] before[i]).0 < jobs by {
            assert(before[i] == reports[i]);
        }
        filled_has_a_slot_for_each(jobs, before);
        assert(0 <= reports[reports.len() - 1].0 < jobs);
    }
}

impl<T, E> WorkerReports<T, E> {
    /// No job has reported yet.
    pub fn new(jobs: usize) -> (r: Self)
        ensures
            r.slots@ == filled::<T>(jobs as nat, Seq::empty()),
            r.failure is None,
    {
        let mut slots: Vec<Option<T>> = Vec::new();
        while slots.len() < jobs
            invariant
                slots@.len() <= jobs,
                forall|i: int| 0 <= i < slots@.len() ==> (#[trigger] slots@[i]) is None,
            decreases jobs - slots@.len(),
        {
            slots.push(None);
        }
        assert(slots@ =~= filled::<T>(jobs as nat, Seq::empty()));
        WorkerReports { slots, failure: None }
    }

    /// A job reports its result.
    pub fn report(&mut self, index: usize, result: Result<T, E>)
        requires
            index < old(self).slots@.len(),
        ensures
            match result {
                Ok(value) => final(self).slots@ == old(self).slots@.update(
                    index as int,
                    Some(value),
                ) && final(self).failure == old(self).failure,
                Err(e) => final(self).slots@ == old(self).slots@ && final(self).failure == (
                match old(self).failure {
                    Some(first) => Some(first),
                    None => Some(e),
                }),
            },
    {
        match result {
            Ok(value) => {
                self.slots.set(index, Some(value));
            },
            Err(e) => {
                if self.failure.is_none() {
                    self.failure = Some(e);
                }
            },
        }
    }

    /// The results of all jobs in the order of the jobs; or the first failure; or the fact
    /// that some job never reported.
    pub fn finish(self) -> (r: Result<Vec<T>, CollectError<E>>)
        ensures
            match self.failure {
                Some(e) => r == Err::<Vec<T>, CollectError<E>>(CollectError::Failed(e)),
                None => if exists|i: int|
                    0 <= i < self.slots@.len() && (#[trigger] self.slots@[i]) is None {
                    r == Err::<Vec<T>, CollectError<E>>(CollectError::WorkerLost)
                } else {
                    r matches Ok(values) && values@.len() == self.slots@.len() && forall|i: int|
                        0 <= i < values@.len() ==> self.slots@[i] == Some(#[trigger] values@[i])
                },
            },
    {
        if let Some(e) = self.failure {
            return Err(CollectError::Failed(e));
        }
        let ghost all = self.slots@;
        let mut slots = self.slots;
        let mut values: Vec<T> = Vec::new();
        while slots.len() > 0
            invariant
                self.failure is None,
                all == self.slots@,
                slots@.len() + values@.len() == all.len(),
                slots@ == all.take(slots@.len() as int),
                forall|i: int|
                    0 <= i < values@.len() ==> all[slots@.len() + i] == Some(#[trigger] values@[i]),
            decreases slots@.len(),
        {
            let ghost left = slots@.len() as int;
            let ghost before = values@;
            match slots.pop() {
                Some(Some(value)) => {
                    values.insert(0, value);
                    assert(slots@ =~= all.take(left - 1));
                    assert forall|i: int| 0 <= i < values@.len() implies all[left - 1 + i] == Some(
                        #[trigger] values@[i],
                    ) by {
                        if i > 0 {
                            assert(values@[i] == before[i - 1]);
                        }
                    }
                },
                _ => {
                    assert(all[left - 1] is None);
                    return Err(CollectError::WorkerLost);
                },
            }
        }
        assert forall|i: int| 0 <= i < all.len() implies !((#[trigger] all[i]) is None) by {
            assert(all[i] == Some(values@[i]));
        }
        Ok(values)
    }
}

// ---------------------------------------------------------------------------
// What a build keeps to

/// A manifest among the options goes before one among the Cargo arguments.
pub proof fn options_go_first(options: &BuildOptions, cargo_args: &CargoArgs, r: Option<String>)
    requires
        call_ensures(requested_manifest, (options, cargo_args), r),
    ensures
        options.manifest_path matches Some(path) ==> text::opt(r) == Some(path@),
        options.manifest_path is None ==> text::opt(r) == text::opt(cargo_args.manifest_path),
{
}

/// Not more payloads are built at a time than asked for, nor more than there are; all that may
/// be are. Output is tagged where it could mix.
pub proof fn workers_are_bounded(parallelism: usize, jobs: usize, workers: usize, tagged: bool)
    requires
        call_ensures(worker_count, (parallelism, jobs), workers),
        call_ensures(tags_output, (parallelism,), tagged),
    ensures
        workers <= parallelism,
        workers <= jobs,
        workers == parallelism || workers == jobs,
        workers > 1 ==> tagged,
        parallelism <= 1 ==> !tagged,
{
}

/// Cargo is given each value under its own option, in its own directory for each target CPU;
/// the target only if the arguments that are handed on do not name one.
pub proof fn cargo_is_told(
    ctx: &PayloadBuildContext,
    cpu: &str,
    root: &str,
    terminal: bool,
    flags: &PayloadRustflags,
    r: Vec<String>,
    color: &'static str,
    dir: String,
)
    requires
        call_ensures(payload_args, (ctx, cpu, terminal, flags), r),
        call_ensures(resolved_cargo_color, (ctx.cargo_args.color, terminal), color),
        root@ == ctx.out_root@,
        call_ensures(variant_target_dir, (root, cpu), dir),
    ensures
        ({
            let given = text::texts(r@);
            let handed = ctx.cargo_args.forwarded@.len() as int;
            let manifest = if ctx.manifest_path is Some {
                2int
            } else {
                0
            };
            let target = if ctx.cargo_args.target is None {
                2int
            } else {
                0
            };
            let config = if flags is CargoConfig {
                2int
            } else {
                0
            };
            let at = 1 + handed + manifest + target;
            &&& given.len() == at + 6 + config
            &&& given[0] == "build"@
            &&& given.subrange(1, 1 + handed) == text::texts(ctx.cargo_args.forwarded@)
            &&& ctx.manifest_path is Some ==> given[1 + handed] == "--manifest-path"@ && given[2
                + handed] == ctx.manifest_path->0@
            &&& ctx.cargo_args.target is None ==> given[at - 2] == "--target"@ && given[at - 1]
                == ctx.target@
            &&& given[at] == "--color"@ && given[at + 1] == color@
            &&& given[at + 2] == "--message-format"@ && given[at + 3]
                == "json-render-diagnostics"@
            &&& given[at + 4] == "--target-dir"@ && given[at + 5] == dir@
            &&& flags is CargoConfig ==> given[at + 6] == "--config"@ && given[at + 7]
                == flags->CargoConfig_0@
        }),
{
    let given = text::texts(r@);
    let handed = ctx.cargo_args.forwarded@.len() as int;
    assert(text::texts(ctx.cargo_args.forwarded@).len() == handed);
    assert(given.subrange(1, 1 + handed) =~= text::texts(ctx.cargo_args.forwarded@));
}

/// Flags that are handed over in the environment arrive as they are, those that were encoded
/// under one name and plain ones under another.
pub proof fn flags_arrive(flags: PayloadRustflags, r: Option<(&'static str, Vec<u8>)>)
    requires
        call_ensures(payload_env, (flags,), r),
    ensures
        flags is CargoConfig <==> r is None,
        flags matches PayloadRustflags::Encoded(bytes) ==> (r matches Some((name, value)) && name@
            == "CARGO_ENCODED_RUSTFLAGS"@ && value@ == bytes@),
        flags matches PayloadRustflags::Plain(bytes) ==> (r matches Some((name, value)) && name@
            == "RUSTFLAGS"@ && value@ == bytes@),
{
}

/// Payloads that are not compressed are the executables themselves, whatever the level.
pub proof fn uncompressed_payloads_are_the_executables(
    cpu: &str,
    executable: Vec<u8>,
    level: i32,
    r: Result<Vec<u8>, SonicError>,
)
    requires
        call_ensures(
            payload_bytes,
            (cpu, executable, PayloadCompression::Uncompressed, level),
            r,
        ),
    ensures
        r matches Ok(payload) && payload@ == executable@,
{
}

/// A variant that was built is described by its job, with the payload's length as the loader
/// finds it and the length that it has once it is unpacked.
pub proof fn variants_are_described_by_their_job(
    job: VariantBuildJob,
    artifact: String,
    payload_len: u64,
    uncompressed_len: u64,
    compression: PayloadCompression,
    name: &str,
    path: String,
    r: VariantBuild,
)
    requires
        call_ensures(
            built_variant,
            (job, artifact, payload_len, uncompressed_len, compression),
            r,
        ),
        name@ == job.target_cpu@,
        call_ensures(bundle_path, (name, compression), path),
    ensures
        r.target_cpu@ == job.target_cpu@,
        r.required_features == job.required_features,
        r.rank_features == job.rank_features,
        r.feature_tier == job.feature_tier,
        r.target_kind == job.target_kind,
        r.artifact@ == artifact@,
        r.payload_len == payload_len,
        r.uncompressed_len == uncompressed_len,
        r.payload_compression == compression,
        r.bundle_path@ == path@,
{
}

/// A build that asks for nothing at a time, or for no target CPU, is refused.
pub proof fn empty_requests_are_refused(
    options: &BuildOptions,
    begun: Result<BuildRequest, SonicError>,
    cargo_args: &CargoArgs,
    target_cpus: Vec<String>,
    target_dir: &str,
    answers: &RustcAnswers,
    planned: Result<BuildPlan, SonicError>,
)
    requires
        call_ensures(begin_build, (options,), begun),
        call_ensures(plan_build, (cargo_args, target_cpus, target_dir, answers), planned),
    ensures
        options.parallelism == 0 <==> (begun matches Err(e) && e is ZeroParallelism),
        target_cpus@.len() == 0 <==> (planned matches Err(e) && e is NoTargetCpus),
        cargo_args.target is Some ==> (planned matches Ok(p) ==> p.target@
            == cargo_args.target->0@),
        options.manifest_path is Some ==> (begun matches Ok(request) ==> text::opt(
            request.manifest_path,
        ) == Some(options.manifest_path->0@)),
{
}

/// A target CPU that is left out is named in a warning, with the features that rustc reported
/// and the crate does not know.
pub proof fn omissions_are_told(
    left_out: &[LeftOut],
    jobs: &[VariantBuildJob],
    arch: &str,
    warnings: Vec<String>,
    unknown: &[String],
    list: String,
    i: int,
)
    requires
        call_ensures(build_warnings, (left_out, jobs, arch), warnings),
        0 <= i < left_out@.len(),
        unknown@ == left_out@[i].unknown@,
        call_ensures(join_list, (unknown, ", "), list),
    ensures
        i < warnings@.len(),
        warnings@[i]@ == "skipping target-cpu `"@ + left_out@[i].target_cpu@
            + "` because rustc reported unknown runtime feature(s): "@ + list@,
{
    let args = (left_out, jobs, arch);
    let skipped = args.0@.map_values(
        |entry: LeftOut| skip_warning(entry.target_cpu@, text::texts(entry.unknown@)),
    );
    let all = text::texts(warnings@);
    let items = choose|items: Seq<CpuFeatures>| #[trigger]
        is_feature_table(items, args.1@, target_cpus::baseline(args.2@)) && all == skipped
            + classify::warnings_for(items, args.2@);
    assert(all.len() == warnings@.len());
    assert(all[i] == skipped[i]);
    assert(all[i] == warnings@[i]@);
}

/// A job that reports fills its own slot and no other; the first failure is kept, and the end
/// result has the jobs' results in the order of the jobs.
pub proof fn results_stay_with_their_job<T, E>(
    reports: &mut WorkerReports<T, E>,
    index: usize,
    value: T,
    other: int,
    ended: WorkerReports<T, E>,
    results: Vec<T>,
    i: int,
)
    requires
        index < old(reports).slots@.len(),
        call_ensures(WorkerReports::<T, E>::report, (reports, index, Ok(value)), ()),
        0 <= other < old(reports).slots@.len(),
        other != index,
        call_ensures(WorkerReports::<T, E>::finish, (ended,), Ok(results)),
        0 <= i < results@.len(),
    ensures
        final(reports).slots@[index as int] == Some(value),
        final(reports).slots@[other] == old(reports).slots@[other],
        final(reports).failure == old(reports).failure,
        ended.failure is None,
        results@.len() == ended.slots@.len(),
        ended.slots@[i] == Some(results@[i]),
{
    let args = (ended,);
    assert(args.0.slots@.len() == results@.len());
}

} // verus!
