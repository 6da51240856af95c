//! How payloads are built, stored and collected.
use cargo_sonic::build_plan::{
    CollectError, PayloadBuildContext, WorkerReports, build_args, built_variant,
    compressed_payload, feature_table, payload_args, payload_bytes, payload_env, tags_output, worker_count,
};
use cargo_sonic::cargo_args::parse_cargo_args;
use cargo_sonic::feature_mask::FeatureMask;
use cargo_sonic::metadata::{CrateKind, Package, PackageTarget};
use cargo_sonic::output::{
    CargoMessage, OUTPUT_FLUSH_BYTES, OUTPUT_FLUSH_MILLIS, PayloadProgress, built_executable,
    flush_tagged, is_flush_due,
};
use cargo_sonic::paths::{
    EnvText, absolute_path, bin_name_for, bin_name_from, effective_target_directory, file_in, final_binary, loader_artifact, loader_dir,
    loader_target_dir, payload_dir, payload_path, profile_name, variant_target_dir,
};
use cargo_sonic::payload_names::PayloadCompression;
use cargo_sonic::plan::VariantBuildJob;
use cargo_sonic::rustflags::{PayloadRustflags, payload_rustflags};
use cargo_sonic::select::TargetKind;

fn strings(values: &[&str]) -> Vec<String> {
    values.iter().map(|value| (*value).to_string()).collect()
}

fn context(cargo_args: &[&str], manifest_path: Option<&str>) -> PayloadBuildContext {
    PayloadBuildContext {
        package_id: "app 1.0.0".to_string(),
        cargo_args: parse_cargo_args(&strings(cargo_args)).unwrap(),
        manifest_path: manifest_path.map(str::to_string),
        target: "x86_64-unknown-linux-gnu".to_string(),
        out_root: "/out".to_string(),
        tag_output: true,
        payload_compression: PayloadCompression::Uncompressed,
        compression_level: 22,
    }
}

fn job(cpu: &str, features: &[&str]) -> VariantBuildJob {
    VariantBuildJob {
        target_cpu: cpu.to_string(),
        required_features: FeatureMask::empty(),
        rank_features: FeatureMask::empty(),
        feature_names: strings(features),
        feature_tier: 2,
        target_kind: TargetKind::X86IntelCore,
    }
}

#[test]
fn payload_arguments_name_target_color_and_directory() {
    let ctx = context(
        &["--release", "--color=never", "--features", "fast"],
        Some("app/Cargo.toml"),
    );
    let flags = payload_rustflags("x86_64-unknown-linux-gnu", "x86-64-v3", None, None);
    assert_eq!(
        payload_args(&ctx, "x86-64-v3", true, &flags),
        strings(&[
            "build",
            "--release",
            "--features",
            "fast",
            "--manifest-path",
            "app/Cargo.toml",
            "--target",
            "x86_64-unknown-linux-gnu",
            "--color",
            "never",
            "--message-format",
            "json-render-diagnostics",
            "--target-dir",
            "/out/variants/x86_2d64_2dv3",
            "--config",
            "target.x86_64-unknown-linux-gnu.rustflags=[\"-Ctarget-cpu=x86-64-v3\"]",
        ])
    );
    assert!(payload_env(flags).is_none());
}

#[test]
fn payload_arguments_keep_a_named_target() {
    let ctx = context(&["--target", "x86_64-unknown-linux-gnu"], None);
    let flags = payload_rustflags(
        "x86_64-unknown-linux-gnu",
        "haswell",
        None,
        Some(b"-Copt-level=3".to_vec()),
    );
    assert_eq!(
        payload_args(&ctx, "haswell", true, &flags),
        strings(&[
            "build",
            "--target",
            "x86_64-unknown-linux-gnu",
            "--color",
            "always",
            "--message-format",
            "json-render-diagnostics",
            "--target-dir",
            "/out/variants/haswell",
        ])
    );
    assert_eq!(
        payload_env(flags),
        Some(("RUSTFLAGS", b"-Copt-level=3 -Ctarget-cpu=haswell".to_vec()))
    );
}

#[test]
fn encoded_flags_go_through_their_own_variable() {
    let flags = PayloadRustflags::Encoded(b"-Ca\x1f-Cb".to_vec());
    assert_eq!(
        payload_env(flags),
        Some(("CARGO_ENCODED_RUSTFLAGS", b"-Ca\x1f-Cb".to_vec()))
    );
    assert_eq!(build_args(&strings(&["-q"])), strings(&["build", "-q"]));
}

#[test]
fn uncompressed_payloads_are_the_executable() {
    let payload = payload_bytes(
        "haswell",
        vec![1, 2, 3],
        PayloadCompression::Uncompressed,
        22,
    )
    .unwrap();
    assert_eq!(payload, vec![1, 2, 3]);
}

#[test]
fn compressed_payloads_are_zstd_frames() {
    let executable = vec![7u8; 10_000];
    let payload =
        payload_bytes("haswell", executable.clone(), PayloadCompression::Zstd, 3).unwrap();
    assert_eq!(&payload[..4], &[0x28, 0xb5, 0x2f, 0xfd]);
    assert!(payload.len() < 100);
    assert_eq!(
        zstd::stream::decode_all(payload.as_slice()).unwrap(),
        executable
    );
}

#[test]
fn failed_compression_names_the_variant() {
    let error = compressed_payload("haswell", None).unwrap_err();
    assert_eq!(
        error.message(),
        "failed to zstd-compress payload for target-cpu `haswell`"
    );
    assert_eq!(compressed_payload("haswell", Some(vec![5])).unwrap(), vec![5]);
}

#[test]
fn built_variants_keep_what_the_job_says() {
    let variant = built_variant(
        job("x86-64-v3", &["avx2"]),
        "/out/loader/payloads/a.zst".to_string(),
        10,
        40,
        PayloadCompression::Zstd,
    );
    assert_eq!(variant.target_cpu, "x86-64-v3");
    assert_eq!(variant.feature_names, strings(&["avx2"]));
    assert_eq!(variant.feature_tier, 2);
    assert_eq!(variant.target_kind, TargetKind::X86IntelCore);
    assert_eq!(variant.artifact, "/out/loader/payloads/a.zst");
    assert_eq!(variant.payload_len, 10);
    assert_eq!(variant.uncompressed_len, 40);
    assert_eq!(variant.payload_compression, PayloadCompression::Zstd);
    assert!(variant.bundle_path.starts_with("x86_2d64_2dv3"));
    assert!(variant.bundle_path.ends_with('\0'));
}

#[test]
fn results_are_in_job_order_whatever_the_arrival() {
    let mut reports: WorkerReports<u8, &str> = WorkerReports::new(3);
    reports.report(2, Ok(30));
    reports.report(0, Ok(10));
    reports.report(1, Ok(20));
    assert_eq!(reports.finish().unwrap(), vec![10, 20, 30]);
}

#[test]
fn the_first_failure_counts() {
    let mut reports: WorkerReports<u8, &str> = WorkerReports::new(3);
    reports.report(1, Err("first"));
    reports.report(0, Ok(1));
    reports.report(2, Err("second"));
    assert!(matches!(
        reports.finish(),
        Err(CollectError::Failed("first"))
    ));
}

#[test]
fn a_job_without_a_result_is_noticed() {
    let mut reports: WorkerReports<u8, &str> = WorkerReports::new(2);
    reports.report(1, Ok(1));
    assert!(matches!(reports.finish(), Err(CollectError::WorkerLost)));
    let none: WorkerReports<u8, &str> = WorkerReports::new(0);
    assert!(none.finish().unwrap().is_empty());
}

#[test]
fn workers_are_no_more_than_jobs() {
    assert_eq!(worker_count(8, 3), 3);
    assert_eq!(worker_count(2, 3), 2);
    assert_eq!(worker_count(2, 0), 0);
    assert!(!tags_output(1));
    assert!(tags_output(2));
}

#[test]
fn the_feature_table_is_sorted_and_holds_the_baseline() {
    let table = feature_table(
        &[job("znver4", &["avx2", "sse2"]), job("haswell", &["avx2"])],
        "x86-64",
    );
    let cpus: Vec<&str> = table.iter().map(|item| item.cpu.as_str()).collect();
    assert_eq!(cpus, vec!["haswell", "x86-64", "znver4"]);
    assert_eq!(table[0].features, strings(&["avx2"]));
    assert!(table[1].features.is_empty());
    assert_eq!(table[2].features, strings(&["avx2", "sse2"]));
}

fn artifact(package: &str, kinds: Vec<CrateKind>, executable: Option<&str>) -> CargoMessage {
    CargoMessage::Artifact {
        package_id: package.to_string(),
        kinds,
        executable: executable.map(str::to_string),
    }
}

#[test]
fn progress_collects_the_binaries_of_the_package() {
    let mut progress = PayloadProgress::new();
    let messages = [
        artifact("app", vec![CrateKind::Bin], Some("/t/app")),
        artifact("dep", vec![CrateKind::Bin], Some("/t/dep")),
        artifact("app", vec![CrateKind::Other], Some("/t/test")),
        artifact("app", vec![CrateKind::Bin], None),
        CargoMessage::Other,
    ];
    for message in &messages {
        assert!(progress.take_message("app", true, message).is_empty());
    }
    assert_eq!(progress.executables, strings(&["/t/app"]));
    assert!(progress.pending.is_empty());
}

#[test]
fn tagged_output_is_held_back_and_plain_output_is_not() {
    let mut tagged = PayloadProgress::new();
    assert!(
        tagged
            .take_message("app", true, &CargoMessage::Rendered("warning\n".to_string()))
            .is_empty()
    );
    assert!(
        tagged
            .take_message("app", true, &CargoMessage::TextLine("line".to_string()))
            .is_empty()
    );
    assert_eq!(tagged.pending, b"warning\nline\n");
    assert_eq!(
        flush_tagged("haswell", &mut tagged.pending),
        b"cargo-sonic[haswell]\n  warning\n  line\n"
    );
    assert!(tagged.pending.is_empty());
    assert!(flush_tagged("haswell", &mut tagged.pending).is_empty());

    let mut plain = PayloadProgress::new();
    assert_eq!(
        plain.take_message("app", false, &CargoMessage::TextLine("line".to_string())),
        b"line\n"
    );
    assert!(plain.pending.is_empty());
}

#[test]
fn output_is_flushed_by_size_or_by_age() {
    assert!(!is_flush_due(OUTPUT_FLUSH_BYTES - 1, OUTPUT_FLUSH_MILLIS - 1));
    assert!(is_flush_due(OUTPUT_FLUSH_BYTES, 0));
    assert!(is_flush_due(0, OUTPUT_FLUSH_MILLIS));
}

#[test]
fn exactly_one_executable_is_wanted() {
    assert_eq!(
        built_executable("haswell", true, &strings(&["/t/app"])).unwrap(),
        "/t/app"
    );
    assert_eq!(
        built_executable("haswell", false, &strings(&["/t/app"]))
            .unwrap_err()
            .message(),
        "cargo build failed for target-cpu `haswell`"
    );
    assert_eq!(
        built_executable("haswell", true, &[]).unwrap_err().message(),
        "cannot identify exactly one executable artifact for target-cpu `haswell` (found 0); pass --bin"
    );
    assert_eq!(
        built_executable("haswell", true, &strings(&["a", "b"]))
            .unwrap_err()
            .message(),
        "cannot identify exactly one executable artifact for target-cpu `haswell` (found 2); pass --bin"
    );
}

#[test]
fn paths_are_joined_below_the_output_root() {
    assert_eq!(profile_name(true), "release");
    assert_eq!(profile_name(false), "debug");
    assert_eq!(variant_target_dir("/out", "a-b"), "/out/variants/a_2db");
    assert_eq!(loader_dir("/out"), "/out/loader");
    assert_eq!(payload_dir("/out"), "/out/loader/payloads");
    assert_eq!(
        payload_path("/out", "haswell", PayloadCompression::Uncompressed),
        "/out/loader/payloads/haswell.elf"
    );
    assert_eq!(loader_target_dir("/out/loader"), "/out/loader/target");
    assert_eq!(
        loader_artifact("/out/loader", "t", "debug"),
        "/out/loader/target/t/debug/sonic-generated-loader"
    );
    assert_eq!(file_in("/out", "app"), "/out/app");
    assert_eq!(file_in("/out", "/app"), "/app");
    assert_eq!(file_in("/out/", "app"), "/out/app");
    assert_eq!(file_in("", "app"), "app");
    assert_eq!(file_in("/out", ""), "/out/");
    assert_eq!(file_in("out//", "./app"), "out//./app");
    assert_eq!(file_in("/", "/"), "/");
    assert_eq!(final_binary("/t/sonic/x/release", "app"), "/t/sonic/x/release/app");
}

#[test]
fn the_target_directory_is_made_absolute() {
    assert_eq!(absolute_path("/a/b", "/work"), "/a/b");
    assert_eq!(absolute_path("a/b", "/work"), "/work/a/b");
    let text = |value: &str| EnvText::Text(value.to_string());
    let directory = |argument: Option<&str>, first: EnvText, second: EnvText| {
        effective_target_directory(argument, &first, &second, "/ws/target", "/work")
    };
    assert_eq!(
        directory(Some("t"), text("/env"), EnvText::NotText).unwrap(),
        "/work/t"
    );
    assert_eq!(
        directory(Some("/t"), EnvText::NotText, EnvText::Unset).unwrap(),
        "/t"
    );
    assert_eq!(
        directory(None, text("/first"), text("/second")).unwrap(),
        "/first"
    );
    assert_eq!(
        directory(None, text("first"), EnvText::NotText).unwrap(),
        "/work/first"
    );
    assert_eq!(
        directory(None, EnvText::Unset, text("second")).unwrap(),
        "/work/second"
    );
    assert_eq!(
        directory(None, EnvText::Unset, EnvText::Unset).unwrap(),
        "/ws/target"
    );
    assert_eq!(
        directory(None, EnvText::NotText, text("/second"))
            .unwrap_err()
            .message(),
        "CARGO_TARGET_DIR is not valid UTF-8"
    );
}

fn package_with(bins: &[&str]) -> Package {
    Package {
        id: "app".to_string(),
        name: "app".to_string(),
        version: "1.0.0".to_string(),
        source: None,
        targets: bins
            .iter()
            .map(|name| PackageTarget {
                name: (*name).to_string(),
                kinds: vec![CrateKind::Bin],
            })
            .collect(),
    }
}

#[test]
fn the_binary_is_named_after_the_request_the_package_or_the_payload() {
    let two = package_with(&["a", "b"]);
    let one = package_with(&["a"]);
    assert_eq!(bin_name_for(&two, Some("b"), None).unwrap(), "b");
    assert_eq!(bin_name_for(&one, None, Some("/p/x.elf")).unwrap(), "a");
    assert_eq!(bin_name_for(&two, None, Some("/p/x.y.elf")).unwrap(), "x.y");
    assert_eq!(
        bin_name_for(&two, None, Some("..")).unwrap_err().message(),
        "multiple binary artifacts are possible; pass --bin"
    );
    assert_eq!(
        bin_name_from(&two, None, Some("stem".to_string())).unwrap(),
        "stem"
    );
    assert!(bin_name_from(&two, None, None).is_err());
}
