//! Builds: packages, payloads, bundles.
use cargo_sonic::audit::audit_source;
use cargo_sonic::audit_section::auditable_object;
use cargo_sonic::build_plan::{BuildOptions, begin_build, build_prelude, plan_build};
use cargo_sonic::feature_mask::FeatureMask;
use cargo_sonic::manifest::VariantBuild;
use cargo_sonic::metadata::{CrateKind, Metadata, Package, PackageTarget, select_package};
use cargo_sonic::output::{flush_payload_stdout, write_payload_stdout, write_tagged_output};
use cargo_sonic::paths::{bundle_copies, bundle_dir_for, resolve_bin_name};
use cargo_sonic::payload_names::{LoaderStrategy, PayloadCompression};
use cargo_sonic::plan::{RustcAnswers, leaked_str};
use cargo_sonic::probe::{ProbeOptions, probe};
use cargo_sonic::select::{CpuIdentity, HostInfo, TargetArch, TargetKind};

fn no_answers() -> RustcAnswers {
    RustcAnswers {
        version: String::new(),
        cfg: String::new(),
        target_cpus: String::new(),
        known_target_cpus: Vec::new(),
        cpu_answers: Vec::new(),
    }
}

fn unknown_host() -> HostInfo {
    HostInfo {
        arch: TargetArch::X86_64,
        features: FeatureMask::empty(),
        identity: CpuIdentity::Unknown,
        heterogeneous: false,
    }
}

fn synth_variant_build(target_cpu: &str, artifact: &str) -> VariantBuild {
    VariantBuild {
        target_cpu: target_cpu.to_string(),
        required_features: FeatureMask::empty(),
        rank_features: FeatureMask::empty(),
        feature_names: Vec::new(),
        feature_tier: 0,
        target_kind: TargetKind::Generic,
        artifact: artifact.to_string(),
        payload_len: 0,
        payload_compression: PayloadCompression::Uncompressed,
        uncompressed_len: 0,
        bundle_path: "generic.elf".to_string(),
    }
}

fn strings(values: &[&str]) -> Vec<String> {
    values.iter().map(|value| (*value).to_string()).collect()
}

fn package(id: &str, name: &str, version: &str, targets: Vec<PackageTarget>) -> Package {
    Package {
        id: id.to_string(),
        name: name.to_string(),
        version: version.to_string(),
        source: None,
        targets,
    }
}

fn target(name: &str, kind: CrateKind) -> PackageTarget {
    PackageTarget {
        name: name.to_string(),
        kinds: vec![kind],
    }
}

fn own_metadata(root: Option<&str>) -> Metadata {
    Metadata {
        packages: vec![
            package(
                "path+file:///work/crates/sonic-build#0.1.0",
                "sonic-build",
                "0.1.0",
                vec![target("sonic_build", CrateKind::Other)],
            ),
            package(
                "path+file:///work/crates/cargo-sonic#0.1.0",
                "cargo-sonic",
                "0.1.0",
                vec![
                    target("cargo_sonic", CrateKind::Other),
                    target("cargo-sonic", CrateKind::Bin),
                ],
            ),
        ],
        workspace_members: strings(&[
            "path+file:///work/crates/sonic-build#0.1.0",
            "path+file:///work/crates/cargo-sonic#0.1.0",
        ]),
        root: root.map(str::to_string),
        resolve: None,
        target_directory: "/work/target".to_string(),
    }
}

#[test]
fn bundle_dir_for_appends_bundle_suffix() {
    let dir = bundle_dir_for("/tmp/myapp");
    assert_eq!(dir.as_str(), "/tmp/myapp.bundle");
}

#[test]
fn audit_source_translates_known_registry_and_strips_scheme() {
    let crates_io = "registry+https://github.com/rust-lang/crates.io-index";
    assert_eq!(audit_source(crates_io), "crates.io");

    let custom = "registry+https://internal.example.com/index";
    assert_eq!(audit_source(custom), "registry");

    let git = "git+https://example.com/foo.git";
    assert_eq!(audit_source(git), "git");
}

#[test]
fn auditable_object_supports_x86_64_and_aarch64() {
    let payload = b"hello-payload";
    let x = auditable_object("x86_64-unknown-linux-gnu", payload).unwrap();
    // ELF magic header.
    assert_eq!(&x[..4], b"\x7fELF");
    let a = auditable_object("aarch64-unknown-linux-musl", payload).unwrap();
    assert_eq!(&a[..4], b"\x7fELF");
}

#[test]
fn auditable_object_rejects_unsupported_target() {
    let err = auditable_object("riscv64gc-unknown-linux-gnu", b"x").unwrap_err();
    assert!(
        err.message()
            .contains("only supported for x86_64 and aarch64")
    );
}

#[test]
fn write_tagged_output_prefixes_each_chunk_line() {
    let buf: Vec<u8> = write_tagged_output("haswell", b"hello\nworld");
    let text = String::from_utf8(buf).unwrap();
    assert!(text.starts_with("cargo-sonic[haswell]\n"));
    assert!(text.contains("  hello\n"));
    assert!(text.contains("  world\n"));
}

#[test]
fn write_tagged_output_handles_empty_pending_gracefully() {
    let buf: Vec<u8> = write_tagged_output("haswell", b"");
    // Header and trailing newline only when pending is empty too.
    assert_eq!(buf, b"cargo-sonic[haswell]\n");
}

#[test]
fn flush_payload_stdout_clears_pending_when_not_tagging() {
    let mut pending = vec![1u8, 2, 3];
    flush_payload_stdout("haswell", false, &mut pending);
    assert!(pending.is_empty());
}

#[test]
fn write_payload_stdout_extends_pending_when_tagging() {
    let mut pending = Vec::new();
    write_payload_stdout(true, &mut pending, b"abc");
    write_payload_stdout(true, &mut pending, b"def");
    assert_eq!(pending, b"abcdef");
}

#[test]
fn build_rejects_zero_parallelism_before_touching_cargo() {
    let err = begin_build(&BuildOptions {
        cargo_args: Vec::new(),
        manifest_path: None,
        target_cpus: vec!["haswell".into()],
        parallelism: 0,
        compress: PayloadCompression::Uncompressed,
        compression_level: 22,
        loader: LoaderStrategy::Embedded,
        auditable: false,
    })
    .unwrap_err();
    assert!(err.message().contains("--parallelism"));
}

#[test]
fn build_rejects_empty_target_cpus_before_touching_cargo() {
    let request = begin_build(&BuildOptions {
        cargo_args: Vec::new(),
        manifest_path: None,
        target_cpus: Vec::new(),
        parallelism: 1,
        compress: PayloadCompression::Uncompressed,
        compression_level: 22,
        loader: LoaderStrategy::Embedded,
        auditable: false,
    })
    .unwrap();
    let err = plan_build(&request.cargo_args, Vec::new(), "/tmp/target", &no_answers());
    assert!(err.is_err());
}

#[test]
fn probe_rejects_empty_target_cpus() {
    let err = probe(
        ProbeOptions {
            cargo_args: Vec::new(),
            target_cpus: Vec::new(),
        },
        &no_answers(),
        unknown_host(),
    )
    .unwrap_err();
    // The first check of `probe` is `effective_target_cpus`, whose error hints at the option.
    assert!(err.message().contains("--target-cpus"));
}

#[test]
fn print_variant_build_prelude_writes_to_stderr() {
    assert_eq!(build_prelude("haswell"), "cargo-sonic: build to haswell CPU\n");
}

#[test]
fn leaked_str_returns_distinct_static_strs() {
    let a = leaked_str("hello-world");
    let b = leaked_str("hello-world");
    assert_eq!(a, "hello-world");
    assert_eq!(b, "hello-world");
    // They share no buffer (each call leaks a fresh allocation).
    assert!(!core::ptr::eq(a.as_ptr(), b.as_ptr()));
}

#[test]
fn select_package_picks_root_when_present() {
    let metadata = own_metadata(Some("path+file:///work/crates/cargo-sonic#0.1.0"));
    let pkg = select_package(&metadata, Some("cargo-sonic")).unwrap();
    assert_eq!(pkg.name.as_str(), "cargo-sonic");
}

#[test]
fn select_package_errors_on_unknown_package_name() {
    let metadata = own_metadata(Some("path+file:///work/crates/cargo-sonic#0.1.0"));
    let err = select_package(&metadata, Some("definitely-not-real")).unwrap_err();
    assert!(err.message().contains("definitely-not-real"));
}

#[test]
fn select_package_falls_back_to_root_or_workspace_member() {
    // No package hint: must succeed when there's a clear single root or
    // single workspace member, else error with --package hint.
    let metadata = own_metadata(Some("path+file:///work/crates/cargo-sonic#0.1.0"));
    let pkg = select_package(&metadata, None).unwrap();
    assert_eq!(pkg.name.as_str(), "cargo-sonic");
}

#[test]
fn select_package_errors_when_no_root_and_multi_members() {
    let metadata = own_metadata(None);
    assert!(metadata.root.is_none() && metadata.workspace_members.len() > 1);
    let err = select_package(&metadata, None).unwrap_err();
    assert!(err.message().contains("--package"));
}

#[test]
fn resolve_bin_name_uses_explicit_override() {
    let metadata = own_metadata(Some("path+file:///work/crates/cargo-sonic#0.1.0"));
    let pkg = select_package(&metadata, Some("cargo-sonic")).unwrap();
    let got = resolve_bin_name(pkg, Some("explicit-name"), &[]).unwrap();
    assert_eq!(got, "explicit-name");
}

#[test]
fn resolve_bin_name_picks_single_bin_target_automatically() {
    let metadata = own_metadata(Some("path+file:///work/crates/cargo-sonic#0.1.0"));
    let pkg = select_package(&metadata, Some("cargo-sonic")).unwrap();
    let got = resolve_bin_name(pkg, None, &[]).unwrap();
    assert_eq!(got, "cargo-sonic");
}

#[test]
fn prepare_bundle_directory_replaces_existing_dir_and_copies_payloads() {
    let variants = [
        VariantBuild {
            bundle_path: "x86-64.elf".to_string(),
            ..synth_variant_build("x86-64", "/tmp/payload-a.elf")
        },
        VariantBuild {
            bundle_path: "haswell.elf\0".to_string(),
            ..synth_variant_build("haswell", "/tmp/payload-b.elf")
        },
    ];
    let copies = bundle_copies("/tmp/myapp", &variants);
    assert_eq!(copies.len(), 2);
    assert_eq!(copies[0].from, "/tmp/payload-a.elf");
    assert_eq!(copies[0].to, "/tmp/myapp.bundle/x86-64.elf");
    assert_eq!(copies[1].from, "/tmp/payload-b.elf");
    assert_eq!(copies[1].to, "/tmp/myapp.bundle/haswell.elf");
}
