//! Builds whose target CPUs the manifest configures, from arguments to plan.
use cargo_sonic::configured_build::{
    CargoArgs, classify_target_cpu, command_target, effective_target_cpus, encoded_rustflags, feature_tier,
    filter_target_cpus, is_safety_required_feature, normalize_target_cpus, parse_cargo_args,
    payload_args, payload_path, plan_build, plan_variant, requested_manifest, sanitize_cpu,
    unsupported_runtime_features, variant_target_dir,
};
use cargo_sonic::configured_loader::loader_files;
use cargo_sonic::error::SonicError;
use cargo_sonic::feature_mask::{Feature, FeatureMask};
use cargo_sonic::plan::{CpuAnswer, RustcAnswers};
use cargo_sonic::select::TargetKind;

fn strings(values: &[&str]) -> Vec<String> {
    values.iter().map(|value| (*value).to_string()).collect()
}

fn message<T>(result: Result<T, SonicError>) -> String {
    match result {
        Ok(_) => panic!("the call should have failed"),
        Err(error) => error.message(),
    }
}

fn cfg(features: &[&str]) -> String {
    let mut text = String::from("target_arch=\"x86_64\"\ntarget_os=\"linux\"\n");
    for feature in features {
        text.push_str(&format!("target_feature=\"{feature}\"\n"));
    }
    text
}

fn answer(cpu: &str, features: &[&str]) -> CpuAnswer {
    CpuAnswer {
        cpu: cpu.to_string(),
        accepted: true,
        cfg: Some(cfg(features)),
    }
}

fn answers() -> RustcAnswers {
    let cpus = "Available CPUs for this target:\n    haswell\n    znver5\n";
    RustcAnswers {
        version: "host: x86_64-unknown-linux-gnu\n".to_string(),
        cfg: cfg(&["sse2"]),
        target_cpus: cpus.to_string(),
        known_target_cpus: vec![cpus.to_string(), "    neoverse-n1\n".to_string()],
        cpu_answers: vec![
            answer("generic", &["crt-static", "sse2"]),
            answer("haswell", &["avx2", "rdrand", "sse2"]),
            answer("znver5", &["avx2", "avx10"]),
        ],
    }
}

fn mask(list: &[Feature]) -> FeatureMask {
    let mut mask = FeatureMask::empty();
    for feature in list {
        mask.insert(*feature);
    }
    mask
}

fn args(list: &[&str]) -> CargoArgs {
    parse_cargo_args(&strings(list))
}

#[test]
fn arguments_are_read_in_both_spellings() {
    let read = args(&[
        "--release",
        "--target",
        "t1",
        "--bin=tool",
        "-p",
        "app",
        "--manifest-path",
        "app/Cargo.toml",
        "--features",
        "fast",
    ]);
    assert!(read.release);
    assert_eq!(read.target, Some("t1".to_string()));
    assert_eq!(read.bin, Some("tool".to_string()));
    assert_eq!(read.package, Some("app".to_string()));
    assert_eq!(read.manifest_path, Some("app/Cargo.toml".to_string()));
    assert_eq!(
        read.forwarded,
        strings(&[
            "--release",
            "--target",
            "t1",
            "--bin=tool",
            "-p",
            "app",
            "--features",
            "fast"
        ])
    );
}

#[test]
fn the_last_spelling_of_an_option_counts() {
    let read = args(&["--target=t1", "--target", "t2", "--package=a", "--package", "b"]);
    assert_eq!(read.target, Some("t2".to_string()));
    assert_eq!(read.package, Some("b".to_string()));
    let joined = args(&["--manifest-path=x.toml"]);
    assert_eq!(joined.manifest_path, Some("x.toml".to_string()));
    assert!(joined.forwarded.is_empty());
}

#[test]
fn an_option_without_a_value_is_dropped() {
    let read = args(&["-v", "--bin"]);
    assert_eq!(read.bin, None);
    assert_eq!(read.forwarded, strings(&["-v"]));
}

#[test]
fn the_package_configures_before_the_workspace() {
    assert_eq!(
        effective_target_cpus(
            Some(Some(strings(&["haswell"]))),
            Some(Some(strings(&["znver5"])))
        )
        .unwrap(),
        strings(&["haswell"])
    );
    assert_eq!(
        effective_target_cpus(None, Some(Some(strings(&["znver5"])))).unwrap(),
        strings(&["znver5"])
    );
    assert_eq!(
        message(effective_target_cpus(
            Some(None),
            Some(Some(strings(&["znver5"])))
        )),
        "package.metadata.sonic.target-cpus must exist"
    );
    assert_eq!(
        message(effective_target_cpus(None, Some(None))),
        "workspace.metadata.sonic.target-cpus must exist"
    );
    assert_eq!(
        message(effective_target_cpus(None, None)),
        "target-cpus must exist under [package.metadata.sonic]"
    );
}

#[test]
fn generic_may_be_configured_anywhere() {
    assert_eq!(
        normalize_target_cpus(strings(&["haswell", "generic"])).unwrap(),
        strings(&["haswell", "generic"])
    );
}

#[test]
fn a_native_cpu_is_filtered_with_an_error() {
    let valid = strings(&["haswell"]);
    assert_eq!(
        message(filter_target_cpus(&strings(&["native"]), &valid, &valid)),
        "target-cpu \"native\" is rejected"
    );
}

#[test]
fn unsupported_features_are_all_named() {
    assert_eq!(
        message(unsupported_runtime_features(&strings(&["avx10", "avx2", "zmm99"]))),
        "unsupported runtime feature mapping(s): avx10, zmm99"
    );
    assert!(unsupported_runtime_features(&strings(&["avx2"])).is_ok());
    assert!(!is_safety_required_feature("rdseed"));
    assert!(is_safety_required_feature("ssbs"));
}

#[test]
fn tiers_follow_the_widest_instructions() {
    assert_eq!(feature_tier("x86_64", FeatureMask::empty()), 0);
    assert_eq!(feature_tier("x86_64", mask(&[Feature::Ssse3])), 1);
    assert_eq!(feature_tier("x86_64", mask(&[Feature::Fma])), 2);
    assert_eq!(feature_tier("x86_64", mask(&[Feature::Bmi1])), 3);
    assert_eq!(feature_tier("x86_64", mask(&[Feature::Avx512F])), 0);
    assert_eq!(
        feature_tier("x86_64", mask(&[Feature::Avx512F, Feature::Avx512Vl])),
        4
    );
    assert_eq!(feature_tier("x86_64", mask(&[Feature::Avx512Vnni])), 5);
    assert_eq!(feature_tier("aarch64", mask(&[Feature::Sha3])), 1);
    assert_eq!(feature_tier("aarch64", mask(&[Feature::Rdm])), 2);
    assert_eq!(feature_tier("aarch64", mask(&[Feature::I8mm])), 3);
    assert_eq!(feature_tier("aarch64", mask(&[Feature::Sve])), 4);
    assert_eq!(feature_tier("aarch64", mask(&[Feature::Sve, Feature::Sve2])), 5);
}

#[test]
fn cpus_are_classified_by_name() {
    assert_eq!(classify_target_cpu("generic", "aarch64"), TargetKind::Generic);
    assert_eq!(
        classify_target_cpu("x86-64", "x86_64"),
        TargetKind::X86NeutralLevel { level: 1 }
    );
    assert_eq!(
        classify_target_cpu("znver5", "x86_64"),
        TargetKind::X86AmdZen { generation: 5 }
    );
    assert_eq!(
        classify_target_cpu("znverX", "x86_64"),
        TargetKind::X86AmdZen { generation: 0 }
    );
    assert_eq!(
        classify_target_cpu("gracemont", "x86_64"),
        TargetKind::X86IntelAtom
    );
    assert_eq!(
        classify_target_cpu("skylake-avx512", "x86_64"),
        TargetKind::X86IntelCore
    );
    assert_eq!(
        classify_target_cpu("sapphirerapids", "x86_64"),
        TargetKind::X86IntelXeon
    );
    assert_eq!(classify_target_cpu("k8", "x86_64"), TargetKind::X86AmdOther);
    assert_eq!(
        classify_target_cpu("neoverse-512tvb", "aarch64"),
        TargetKind::Aarch64ArmNeoverseV
    );
}

#[test]
fn a_configured_plan_lists_its_jobs() {
    let plan = plan_build(
        &args(&["--release"]),
        strings(&["haswell", "neoverse-n1", "haswell"]),
        "/ws/target",
        &answers(),
    )
    .unwrap();
    assert_eq!(
        plan.out_root,
        "/ws/target/sonic/x86_64-unknown-linux-gnu/release"
    );
    assert_eq!(plan.arch, "x86_64");
    assert_eq!(plan.jobs.len(), 3);
    assert_eq!(plan.jobs[2].target_cpu, "haswell");
    assert_eq!(plan.jobs[0].target_cpu, "generic");
    assert_eq!(plan.jobs[0].required_features, FeatureMask::empty());
    assert_eq!(plan.jobs[0].rank_features, mask(&[Feature::Sse2]));
    assert_eq!(plan.jobs[1].target_cpu, "haswell");
    assert_eq!(
        plan.jobs[1].required_features,
        mask(&[Feature::Avx2, Feature::Sse2])
    );
    assert_eq!(
        plan.jobs[1].rank_features,
        mask(&[Feature::Avx2, Feature::Sse2, Feature::Rdrand])
    );
    assert_eq!(plan.jobs[1].feature_tier, 3);
}

#[test]
fn a_configured_plan_fails_on_unknown_features() {
    assert_eq!(
        message(plan_build(
            &args(&[]),
            strings(&["znver5"]),
            "/ws/target",
            &answers()
        )),
        "unsupported runtime feature mapping(s): avx10"
    );
    assert_eq!(
        message(plan_variant("generic", "x86_64", &cfg(&["avx10"]))),
        "unsupported runtime feature mapping `avx10`"
    );
}

#[test]
fn payload_arguments_follow_the_request() {
    assert_eq!(
        payload_args(
            &args(&["--release"]),
            &Some("app/Cargo.toml".to_string()),
            "t",
            "/out/variants/haswell"
        ),
        strings(&[
            "build",
            "--release",
            "--manifest-path",
            "app/Cargo.toml",
            "--target",
            "t",
            "--message-format",
            "json-render-diagnostics",
            "--target-dir",
            "/out/variants/haswell",
        ])
    );
    assert_eq!(
        payload_args(&args(&["--target=u"]), &None, "u", "/d"),
        strings(&[
            "build",
            "--target=u",
            "--message-format",
            "json-render-diagnostics",
            "--target-dir",
            "/d",
        ])
    );
}

#[test]
fn flags_are_appended_to_the_environment() {
    assert_eq!(
        encoded_rustflags("haswell", None),
        b"-Ctarget-cpu=haswell".to_vec()
    );
    assert_eq!(
        encoded_rustflags("haswell", Some(b"-Ca".to_vec())),
        b"-Ca\x1f-Ctarget-cpu=haswell".to_vec()
    );
}

#[test]
fn names_of_cpus_are_made_plain() {
    assert_eq!(sanitize_cpu("x86-64-v3"), "x86_64_v3");
    assert_eq!(variant_target_dir("/out", "x86-64-v3"), "/out/variants/x86_64_v3");
    assert_eq!(
        payload_path("/out", "x86-64-v3"),
        "/out/loader/payloads/x86_64_v3.elf"
    );
}

#[test]
fn the_configured_loader_has_nine_files() {
    let plan = plan_build(&args(&[]), strings(&["haswell"]), "/t", &answers()).unwrap();
    let files = loader_files(&plan.target, &plan.jobs);
    let paths: Vec<&str> = files.iter().map(|file| file.path.as_str()).collect();
    assert_eq!(
        paths,
        vec![
            "Cargo.toml",
            "src/feature_mask.rs",
            "src/select.rs",
            "src/arch_x86_64.rs",
            "src/arch_aarch64.rs",
            "src/linux_sys.rs",
            "src/stack.rs",
            "src/generated_manifest.rs",
            "src/main.rs",
        ]
    );
    assert!(files[7].contents.contains("haswell"));
    assert!(files[7].contents.ends_with("];\n"));
}

#[test]
fn what_is_given_goes_before_the_arguments_and_the_host() {
    let named = args(&["--manifest-path=b.toml", "--target=t"]);
    assert_eq!(
        requested_manifest(&Some("a.toml".to_string()), &named),
        Some("a.toml".to_string())
    );
    assert_eq!(requested_manifest(&None, &named), Some("b.toml".to_string()));
    assert_eq!(requested_manifest(&None, &args(&[])), None);
    assert_eq!(command_target(&named, "host: h\n").unwrap(), "t");
    assert_eq!(command_target(&args(&[]), "host: h\n").unwrap(), "h");
    assert_eq!(
        message(command_target(&args(&[]), "")),
        "failed to determine rustc host target"
    );
}
