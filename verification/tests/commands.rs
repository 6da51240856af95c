//! The commands from what rustc answers to what they print or plan.
use cargo_sonic::build_plan::{BuildOptions, begin_build, plan_build};
use cargo_sonic::cargo_args::parse_cargo_args;
use cargo_sonic::error::SonicError;
use cargo_sonic::feature_mask::{Feature, FeatureMask};
use cargo_sonic::payload_names::{LoaderStrategy, PayloadCompression};
use cargo_sonic::plan::{
    CpuAnswer, RustcAnswers, find_answer, included_cpus, metas_of, plan_variant, plan_variants,
    supported_arch,
};
use cargo_sonic::probe::{
    ProbeOptions, ScoreOptions, command_target, probe, score, score_candidates, scored_jobs,
};
use cargo_sonic::select::{
    CpuIdentity, HostInfo, TargetArch, TargetKind, X86Vendor, loader_choice, variant_eligible,
};

const TARGET: &str = "x86_64-unknown-linux-gnu";

fn strings(values: &[&str]) -> Vec<String> {
    values.iter().map(|value| (*value).to_string()).collect()
}

fn cfg(features: &[&str]) -> String {
    let mut text = String::from("target_arch=\"x86_64\"\ntarget_os=\"linux\"\n");
    for feature in features {
        text.push_str(&format!("target_feature=\"{feature}\"\n"));
    }
    text
}

fn answer(cpu: &str, features: &[&str]) -> CpuAnswer {
    CpuAnswer {
        cpu: cpu.to_string(),
        accepted: true,
        cfg: Some(cfg(features)),
    }
}

fn answers() -> RustcAnswers {
    let cpus = "Available CPUs for this target:\n    native - this machine\n    haswell\n    x86-64\n    x86-64-v3\n    futurelake\n    znver4\n";
    RustcAnswers {
        version: "rustc 1.90.0\nhost: x86_64-unknown-linux-gnu\n".to_string(),
        cfg: cfg(&["sse2"]),
        target_cpus: cpus.to_string(),
        known_target_cpus: vec![
            cpus.to_string(),
            "Available CPUs for this target:\n    neoverse-n1\n".to_string(),
        ],
        cpu_answers: vec![
            answer("x86-64", &["fxsr", "sse", "sse2"]),
            answer("haswell", &["avx2", "rdrand", "sse2", "x87"]),
            answer("x86-64-v3", &["avx2", "sse2"]),
            answer("futurelake", &["avx10", "sse2"]),
            CpuAnswer {
                cpu: "znver4".to_string(),
                accepted: false,
                cfg: None,
            },
        ],
    }
}

fn features(list: &[Feature]) -> FeatureMask {
    let mut mask = FeatureMask::empty();
    for feature in list {
        mask.insert(*feature);
    }
    mask
}

fn haswell_host() -> HostInfo {
    HostInfo {
        arch: TargetArch::X86_64,
        features: features(&[Feature::Sse2, Feature::Avx2]),
        identity: CpuIdentity::X86 {
            vendor: X86Vendor::Intel,
            family: 6,
            model: 60,
            stepping: 3,
        },
        heterogeneous: false,
    }
}

fn message<T>(result: Result<T, SonicError>) -> String {
    match result {
        Ok(_) => panic!("the call should have failed"),
        Err(error) => error.message(),
    }
}

fn build_options(parallelism: usize) -> BuildOptions {
    BuildOptions {
        cargo_args: strings(&["--release", "--manifest-path=app/Cargo.toml"]),
        manifest_path: None,
        target_cpus: strings(&["haswell"]),
        parallelism,
        compress: PayloadCompression::Uncompressed,
        compression_level: 22,
        loader: LoaderStrategy::Embedded,
        auditable: false,
    }
}

#[test]
fn probe_prints_every_variant_and_the_selection() {
    let report = probe(
        ProbeOptions {
            cargo_args: Vec::new(),
            target_cpus: strings(&["haswell", "futurelake", "neoverse-n1"]),
        },
        &answers(),
        haswell_host(),
    )
    .unwrap();
    let words = |mask: FeatureMask| format!("[{:#018x},{:#018x}]", mask.words()[0], mask.words()[1]);
    let host = words(haswell_host().features);
    let none = words(FeatureMask::empty());
    let expected = format!(
        "cargo-sonic probe\n  target={TARGET}\n  host.arch=x86_64\n  host.features={host}\n  host.feature_names=[avx2,sse2]\n  host.identity=x86(intel family=6 model=60 stepping=3)\n  variants:\n    x86-64 eligible=yes tier=0 count=3 required={none} flags=[fxsr,sse,sse2]\n    haswell eligible=yes tier=2 count=3 required={host} flags=[avx2,rdrand,sse2]\n  skipped:\n    futurelake reason=unknown runtime feature(s): avx10\n  fits=[x86-64,haswell]\n  selected=haswell\n"
    );
    assert_eq!(report, expected);
}

#[test]
fn probe_falls_back_to_the_baseline_on_a_weak_host() {
    let mut host = haswell_host();
    host.features = features(&[Feature::Sse2]);
    let report = probe(
        ProbeOptions {
            cargo_args: strings(&["--target", TARGET]),
            target_cpus: strings(&["haswell"]),
        },
        &answers(),
        host,
    )
    .unwrap();
    assert!(report.contains("    haswell eligible=no "));
    assert!(report.contains(" missing_features=[avx2] "));
    assert!(report.ends_with("  fits=[x86-64]\n  selected=x86-64\n"));
}

#[test]
fn probe_tells_why_it_fails() {
    let ask = |cargo_args: &[&str], cpus: &[&str], answers: &RustcAnswers| {
        message(probe(
            ProbeOptions {
                cargo_args: strings(cargo_args),
                target_cpus: strings(cpus),
            },
            answers,
            haswell_host(),
        ))
    };
    assert_eq!(
        ask(&[], &[], &answers()),
        "pass --target-cpus=<cpu>[,<cpu>...]"
    );
    assert_eq!(
        ask(&[], &["native"], &answers()),
        "target-cpu \"native\" is rejected because cargo-sonic builds portable artifacts"
    );
    assert_eq!(
        ask(&[], &["x86-64"], &answers()),
        "target-cpu \"x86-64\" is implicit; remove it from --target-cpus"
    );
    assert_eq!(
        ask(&[], &["haswel"], &answers()),
        "unknown target-cpu spelling `haswel`"
    );
    assert_eq!(
        ask(&[], &["znver4"], &answers()),
        "rustc --print cfg failed for target-cpu `znver4`"
    );
    let mut nowhere = answers();
    nowhere.version = "rustc 1.90.0\n".to_string();
    assert_eq!(
        ask(&[], &["haswell"], &nowhere),
        "failed to determine rustc host target"
    );
    let mut windows = answers();
    windows.cfg = "target_arch=\"x86_64\"\ntarget_os=\"windows\"\n".to_string();
    assert_eq!(
        ask(&["--target=x86_64-pc-windows-gnu"], &["haswell"], &windows),
        "cargo-sonic supports Linux targets only; `x86_64-pc-windows-gnu` has target_os=\"windows\""
    );
    let mut riscv = answers();
    riscv.cfg = "target_arch=\"riscv64\"\ntarget_os=\"linux\"\n".to_string();
    assert_eq!(
        ask(&["--target=riscv64gc-unknown-linux-gnu"], &["haswell"], &riscv),
        "cargo-sonic currently supports x86_64 and aarch64 only; `riscv64gc-unknown-linux-gnu` has target_arch=\"riscv64\""
    );
}

#[test]
fn a_missing_os_is_shown_as_an_empty_text() {
    assert_eq!(
        message(supported_arch("odd-target", "target_arch=\"x86_64\"\n")),
        "cargo-sonic supports Linux targets only; `odd-target` has target_os=\"\""
    );
    assert_eq!(
        message(supported_arch("odd-target", "target_os=\"a\\b\"\n")),
        "cargo-sonic supports Linux targets only; `odd-target` has target_os=\"a\\\\b\""
    );
}

#[test]
fn probe_without_a_variant_is_an_error() {
    let mut none = answers();
    none.target_cpus = "Available CPUs for this target:\n    haswell\n".to_string();
    let result = probe(
        ProbeOptions {
            cargo_args: Vec::new(),
            target_cpus: strings(&["neoverse-n1"]),
        },
        &none,
        haswell_host(),
    );
    assert_eq!(message(result), "no variant can be built for the target");
}

#[test]
fn help_among_the_cargo_arguments_is_not_read() {
    let args = parse_cargo_args(&strings(&["--help", "--release"])).unwrap();
    assert!(args.release);
    assert_eq!(
        message(parse_cargo_args(&strings(&["--target", "--help"]))),
        "cannot read the cargo arguments"
    );
}

#[test]
fn score_ranks_what_rustc_can_build() {
    let report = score(
        ScoreOptions {
            cargo_args: Vec::new(),
        },
        &answers(),
        haswell_host(),
    )
    .unwrap();
    assert!(report.starts_with("cargo-sonic score\n  target=x86_64-unknown-linux-gnu\n"));
    assert!(report.contains("  selected=haswell\n  compatible:\n    rank=1 target_cpu=haswell "));
    assert!(report.contains("    rank=2 target_cpu=x86-64-v3 "));
    assert!(report.contains("    rank=3 target_cpu=x86-64 "));
    assert!(!report.contains("rank=4"));
    assert!(report.ends_with("  skipped=2\n"));
}

#[test]
fn score_leaves_out_other_vendors() {
    let mut all = answers();
    all.cpu_answers[4] = answer("znver4", &["sse2"]);
    let candidates = score_candidates(&all.target_cpus, "x86_64");
    assert_eq!(
        candidates,
        strings(&["futurelake", "haswell", "x86-64", "x86-64-v3", "znver4"])
    );
    let jobs = scored_jobs(&candidates, "x86_64", &all.cpu_answers, haswell_host());
    let cpus: Vec<String> = jobs.iter().map(|job| job.target_cpu.clone()).collect();
    assert_eq!(cpus, strings(&["haswell", "x86-64", "x86-64-v3"]));
}

#[test]
fn score_keeps_generic_as_the_baseline_of_aarch64() {
    assert_eq!(
        score_candidates("Available CPUs for this target:\n    native\n    neoverse-n1\n", "aarch64"),
        strings(&["generic", "neoverse-n1"])
    );
}

#[test]
fn the_named_target_wins_over_the_host() {
    let named = parse_cargo_args(&strings(&["--target", "aarch64-unknown-linux-musl"])).unwrap();
    assert_eq!(
        command_target(&named, "host: elsewhere\n").unwrap(),
        "aarch64-unknown-linux-musl"
    );
    let unnamed = parse_cargo_args(&[]).unwrap();
    assert_eq!(
        command_target(&unnamed, "release: 1\nhost: elsewhere\n").unwrap(),
        "elsewhere"
    );
}

#[test]
fn begin_build_reads_the_manifest_path() {
    let request = begin_build(&build_options(1)).unwrap();
    assert_eq!(request.manifest_path, Some("app/Cargo.toml".to_string()));
    assert!(request.cargo_args.release);
    let mut options = build_options(1);
    options.manifest_path = Some("other/Cargo.toml".to_string());
    assert_eq!(
        begin_build(&options).unwrap().manifest_path,
        Some("other/Cargo.toml".to_string())
    );
    assert_eq!(
        message(begin_build(&build_options(0))),
        "--parallelism must be at least 1"
    );
}

#[test]
fn plan_build_lists_jobs_and_warnings() {
    let args = parse_cargo_args(&strings(&["--release"])).unwrap();
    let plan = plan_build(
        &args,
        strings(&["futurelake", "haswell", "haswell"]),
        "/work/target",
        &answers(),
    )
    .unwrap();
    assert_eq!(plan.target, TARGET);
    assert_eq!(plan.arch, "x86_64");
    assert_eq!(
        plan.out_root,
        "/work/target/sonic/x86_64-unknown-linux-gnu/release"
    );
    assert_eq!(plan.jobs.len(), 2);
    assert_eq!(plan.jobs[0].target_cpu, "x86-64");
    assert_eq!(plan.jobs[0].target_kind, TargetKind::Generic);
    assert_eq!(plan.jobs[0].feature_tier, 0);
    assert_eq!(plan.jobs[0].required_features, FeatureMask::empty());
    assert_eq!(
        plan.jobs[0].rank_features,
        features(&[Feature::Fxsr, Feature::Sse, Feature::Sse2])
    );
    assert_eq!(plan.jobs[1].target_cpu, "haswell");
    assert_eq!(plan.jobs[1].target_kind, TargetKind::X86IntelCore);
    assert_eq!(
        plan.jobs[1].required_features,
        features(&[Feature::Sse2, Feature::Avx2])
    );
    assert_eq!(
        plan.jobs[1].rank_features,
        features(&[Feature::Sse2, Feature::Avx2, Feature::Rdrand])
    );
    assert_eq!(
        plan.jobs[1].feature_names,
        strings(&["avx2", "rdrand", "sse2"])
    );
    assert_eq!(
        plan.warnings[0],
        "skipping target-cpu `futurelake` because rustc reported unknown runtime feature(s): avx10"
    );
}

#[test]
fn plan_build_needs_target_cpus() {
    let args = parse_cargo_args(&[]).unwrap();
    assert_eq!(
        message(plan_build(&args, Vec::new(), "target", &answers())),
        "pass --target-cpus=<cpu>[,<cpu>...]"
    );
}

#[test]
fn variants_of_known_cpus_of_other_targets_are_dropped() {
    assert_eq!(
        included_cpus(strings(&["neoverse-n1", "haswell"]), "x86_64", &answers()).unwrap(),
        strings(&["x86-64", "haswell"])
    );
}

#[test]
fn plan_variant_tells_the_unknown_features() {
    let unknown = plan_variant("futurelake", "x86_64", &cfg(&["avx10", "sse2", "zmm99"]));
    match unknown {
        Ok(_) => panic!("the features are unknown"),
        Err(names) => assert_eq!(names, strings(&["avx10", "zmm99"])),
    }
    let baseline = plan_variant("x86-64", "x86_64", &cfg(&["avx10", "sse2"])).unwrap();
    assert_eq!(baseline.feature_names, strings(&["sse2"]));
    assert_eq!(baseline.required_features, FeatureMask::empty());
}

#[test]
fn every_variant_requires_no_more_than_it_uses() {
    let plan = plan_variants(
        &strings(&["x86-64", "haswell", "x86-64-v3"]),
        "x86_64",
        &answers().cpu_answers,
    )
    .unwrap();
    assert_eq!(plan.jobs.len(), 3);
    assert!(plan.left_out.is_empty());
    for job in &plan.jobs {
        assert!(job.required_features.is_subset_of(job.rank_features));
    }
}

#[test]
fn the_first_answer_about_a_cpu_counts() {
    let twice = vec![answer("a", &["sse"]), answer("b", &[]), answer("a", &["sse2"])];
    assert_eq!(find_answer(&twice, "a"), Some(0));
    assert_eq!(find_answer(&twice, "b"), Some(1));
    assert_eq!(find_answer(&twice, "c"), None);
}

#[test]
fn every_host_runs_some_variant_of_a_build() {
    let args = parse_cargo_args(&[]).unwrap();
    let plan = plan_build(
        &args,
        strings(&["haswell", "x86-64-v3"]),
        "target",
        &answers(),
    )
    .unwrap();
    let metas = metas_of(&plan.jobs);
    let mut weak = haswell_host();
    weak.features = FeatureMask::empty();
    for host in [haswell_host(), weak] {
        for enabled in [true, false] {
            assert!(variant_eligible(host, loader_choice(host, &metas, enabled)));
        }
    }
    assert_eq!(loader_choice(haswell_host(), &metas, true).target_cpu, "haswell");
    assert_eq!(loader_choice(weak, &metas, true).target_cpu, "x86-64");
}
