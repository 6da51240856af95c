//! The generated loader.
use cargo_sonic::audit_section::auditable_object;
use cargo_sonic::feature_mask::{Feature, FeatureMask};
use cargo_sonic::loader_crate::{GeneratedFile, loader_files};
use cargo_sonic::loader_source::{generated_linux_sys, generated_main, generated_package, generated_stack};
use cargo_sonic::loader_stack::{InitialStack, build_envp, debug_enabled, sonic_enabled};
use cargo_sonic::manifest::{VariantBuild, escape_bytes, generated_manifest, payload_compression_expr, target_kind_expr, uses_zstd};
use cargo_sonic::payload_names::{LoaderStrategy, PayloadCompression, payload_extension, sanitize_cpu};
use cargo_sonic::select::TargetKind;

fn synth_variant_build(target_cpu: &str, artifact: &str) -> VariantBuild {
    VariantBuild {
        target_cpu: target_cpu.to_string(),
        required_features: FeatureMask::empty(),
        rank_features: FeatureMask::empty(),
        feature_names: Vec::new(),
        feature_tier: 0,
        target_kind: TargetKind::Generic,
        artifact: artifact.to_string(),
        payload_len: 0,
        payload_compression: PayloadCompression::Uncompressed,
        uncompressed_len: 0,
        bundle_path: "generic.elf".to_string(),
    }
}

fn entries(values: &[&str]) -> Vec<Vec<u8>> {
    values.iter().map(|value| value.as_bytes().to_vec()).collect()
}

fn stack_words(env: &[usize]) -> Vec<usize> {
    let mut words = vec![2, 0x10, 0x20, 0];
    words.extend_from_slice(env);
    words.push(0);
    // AT_PHDR, AT_HWCAP, AT_HWCAP2, AT_HWCAP3, AT_NULL
    words.extend_from_slice(&[3, 0x1234, 16, 0xab, 26, 0xcd, 29, 0xef, 0, 0]);
    words
}

fn contents_of<'a>(files: &'a [GeneratedFile], path: &str) -> &'a str {
    match files.iter().find(|file| file.path == path) {
        Some(file) => file.contents.as_str(),
        None => panic!("missing: {path}"),
    }
}

#[test]
fn generated_aarch64_loader_does_not_read_midr_el1_before_fallbacks() {
    let source = generated_main(
        "aarch64-unknown-linux-musl",
        false,
        LoaderStrategy::Embedded,
    );
    assert!(source.contains("read_small_file_hex"));
    assert!(!source.contains("let midr = unsafe { read_midr_el1() };"));
}

#[test]
fn target_cpu_payload_names_do_not_collapse_aliases() {
    assert_ne!(sanitize_cpu("arrowlake-s"), sanitize_cpu("arrowlake_s"));
    assert_eq!(sanitize_cpu("arrowlake-s"), "arrowlake_2ds");
    assert_eq!(sanitize_cpu("arrowlake_s"), "arrowlake_5fs");
}

#[test]
fn generated_linux_sys_gates_arch_specific_syscalls() {
    let text = generated_linux_sys();
    let close_x86 = "#[cfg(target_arch = \"x86_64\")]\nconst SYS_CLOSE: usize = 3;";
    let close_aarch64 = "#[cfg(target_arch = \"aarch64\")]\nconst SYS_CLOSE: usize = 57;";

    assert!(text.contains(close_x86));
    assert!(text.contains(close_aarch64));
}

#[test]
fn sanitize_cpu_escapes_non_alnum() {
    assert_eq!(sanitize_cpu("haswell"), "haswell");
    assert_eq!(sanitize_cpu("arrowlake-s"), "arrowlake_2ds");
    assert_eq!(sanitize_cpu("a/b"), "a_2fb");
    assert_eq!(sanitize_cpu("x86-64-v3"), "x86_2d64_2dv3");
}

#[test]
fn payload_extension_branches_on_compression() {
    assert_eq!(payload_extension(PayloadCompression::Uncompressed), ".elf");
    assert_eq!(payload_extension(PayloadCompression::Zstd), ".elf.zstd");
}

#[test]
fn payload_compression_expr_renders_match_arms() {
    assert_eq!(
        payload_compression_expr(PayloadCompression::Uncompressed),
        "PayloadCompression::None"
    );
    assert_eq!(
        payload_compression_expr(PayloadCompression::Zstd),
        "PayloadCompression::Zstd"
    );
}

#[test]
fn target_kind_expr_covers_every_variant() {
    let mappings = [
        (TargetKind::Generic, "TargetKind::Generic"),
        (TargetKind::X86IntelCore, "TargetKind::X86IntelCore"),
        (TargetKind::X86IntelXeon, "TargetKind::X86IntelXeon"),
        (TargetKind::X86IntelAtom, "TargetKind::X86IntelAtom"),
        (TargetKind::X86AmdOther, "TargetKind::X86AmdOther"),
        (
            TargetKind::Aarch64ArmNeoverseN,
            "TargetKind::Aarch64ArmNeoverseN",
        ),
        (
            TargetKind::Aarch64ArmNeoverseV,
            "TargetKind::Aarch64ArmNeoverseV",
        ),
        (
            TargetKind::Aarch64ArmNeoverseE,
            "TargetKind::Aarch64ArmNeoverseE",
        ),
        (
            TargetKind::Aarch64ArmCortexA,
            "TargetKind::Aarch64ArmCortexA",
        ),
        (
            TargetKind::Aarch64ArmCortexX,
            "TargetKind::Aarch64ArmCortexX",
        ),
        (TargetKind::Aarch64Apple, "TargetKind::Aarch64Apple"),
        (TargetKind::Aarch64Ampere, "TargetKind::Aarch64Ampere"),
        (TargetKind::Aarch64Other, "TargetKind::Aarch64Other"),
    ];
    for (kind, expected) in mappings {
        assert_eq!(target_kind_expr(kind), expected);
    }
    assert_eq!(
        target_kind_expr(TargetKind::X86NeutralLevel { level: 3 }),
        "TargetKind::X86NeutralLevel { level: 3 }"
    );
    assert_eq!(
        target_kind_expr(TargetKind::X86AmdZen { generation: 5 }),
        "TargetKind::X86AmdZen { generation: 5 }"
    );
}

#[test]
fn generated_main_embedded_renders_loader_skeleton() {
    let source = generated_main("x86_64-unknown-linux-gnu", false, LoaderStrategy::Embedded);
    assert!(source.contains("compile_error!(\"cargo-sonic loader supports Linux only\")"));
    assert!(source.contains("mod feature_mask;"));
    assert!(source.contains("mod select;"));
    // The strategy is plumbed in via a placeholder substitution: the
    // call site at the entry point picks one of the two helpers, but
    // both helper *definitions* appear in the static template body.
    assert!(source.contains("exec_embedded_payload(selected, &initial)"));
    assert!(!source.contains("exec_bundle_payload(selected, &initial)"));
    // Without zstd, the no-op zstd shims appear instead of the real
    // FrameDecoder allocator block.
    assert!(source.contains("write_zstd_payload"));
    assert!(!source.contains("ruzstd::decoding::FrameDecoder"));
    // Placeholder must be fully substituted.
    assert!(!source.contains("__CARGO_SONIC_EXEC_PAYLOAD__"));
    assert!(!source.contains("/*__CARGO_SONIC_ZSTD_SUPPORT__*/"));
}

#[test]
fn generated_main_bundle_swaps_exec_helper() {
    let source = generated_main("x86_64-unknown-linux-musl", false, LoaderStrategy::Bundle);
    assert!(source.contains("exec_bundle_payload(selected, &initial)"));
    assert!(!source.contains("exec_embedded_payload(selected, &initial)"));
}

#[test]
fn generated_main_zstd_emits_mmap_allocator_and_decoder() {
    let source = generated_main("aarch64-unknown-linux-gnu", true, LoaderStrategy::Embedded);
    assert!(source.contains("MmapAllocator"));
    assert!(source.contains("global_allocator"));
    assert!(source.contains("ruzstd::decoding::FrameDecoder"));
    assert!(source.contains("write_zstd_payload_from_fd"));
}

#[test]
fn generated_linux_sys_carries_arch_specific_syscall_numbers() {
    let source = generated_linux_sys();
    assert!(source.contains("SYS_WRITE"));
    assert!(source.contains("SYS_MMAP"));
    // Both arch tables present — gated by cfg, but visible as text.
    assert!(source.contains("#[cfg(target_arch = \"x86_64\")]"));
    assert!(source.contains("#[cfg(target_arch = \"aarch64\")]"));
    assert!(source.contains("memfd_create_best_effort"));
}

#[test]
fn generated_stack_is_loader_stack_module() {
    let source = generated_stack();
    assert!(source.contains("InitialStack"));
}

#[test]
fn escape_bytes_handles_quote_and_backslash() {
    assert_eq!(escape_bytes("plain"), "plain");
    assert_eq!(escape_bytes("a\"b"), "a\\\"b");
    assert_eq!(escape_bytes("a\\b"), "a\\\\b");
}

#[test]
fn generated_manifest_includes_payload_paths_and_sanitized_consts() {
    let payload = "/tmp/payload.elf";

    let mut features = FeatureMask::empty();
    features.insert(Feature::Avx2);
    let variant = VariantBuild {
        target_cpu: "haswell".to_string(),
        required_features: features,
        rank_features: features,
        feature_names: vec!["avx2".to_string()],
        feature_tier: 2,
        target_kind: TargetKind::X86IntelCore,
        artifact: payload.to_string(),
        payload_len: 5,
        payload_compression: PayloadCompression::Uncompressed,
        uncompressed_len: 5,
        bundle_path: "haswell.elf".to_string(),
    };

    let manifest = generated_manifest(std::slice::from_ref(&variant), LoaderStrategy::Embedded);
    assert!(manifest.contains("pub static VARIANTS"));
    assert!(manifest.contains("target_cpu: \"haswell\""));
    assert!(manifest.contains("PAYLOAD_HASWELL"));
    assert!(manifest.contains("AlignedPayload"));
    assert!(
        manifest.contains(
            "env_selected_target_cpu: b\"CARGO_SONIC_SELECTED_TARGET_CPU=haswell\\0\""
        )
    );
    assert!(manifest.contains("payload_compression: PayloadCompression::None"));

    let bundle_manifest = generated_manifest(&[variant], LoaderStrategy::Bundle);
    // Bundle strategy uses an empty payload reference instead of an
    // include_bytes! constant.
    assert!(bundle_manifest.contains("payload: &[]"));
    assert!(!bundle_manifest.contains("AlignedPayload"));
}

#[test]
fn generated_manifest_with_no_variants_emits_empty_table() {
    let manifest = generated_manifest(&[], LoaderStrategy::Embedded);
    assert!(manifest.contains("pub static VARIANTS: &[Variant] = &[\n];"));
}

#[test]
fn generated_manifest_with_zstd_uses_zstd_compression_marker() {
    let payload = "/tmp/payload.elf.zstd";

    let variant = VariantBuild {
        payload_compression: PayloadCompression::Zstd,
        ..synth_variant_build("znver5", payload)
    };
    let manifest = generated_manifest(&[variant], LoaderStrategy::Embedded);
    assert!(manifest.contains("payload_compression: PayloadCompression::Zstd"));
}

#[test]
fn generate_loader_crate_writes_full_workspace_layout() {
    // No variants: a loader without the zstd dependency.
    let files = loader_files("x86_64-unknown-linux-gnu", &[], LoaderStrategy::Embedded);
    let cargo_toml = contents_of(&files, "Cargo.toml");
    assert!(cargo_toml.contains("name = \"sonic-generated-loader\""));
    assert!(!cargo_toml.contains("ruzstd"));
    assert_eq!(cargo_toml, generated_package(uses_zstd(&[])));

    // All source files are there.
    for f in [
        "src/feature_mask.rs",
        "src/select.rs",
        "src/arch_x86_64.rs",
        "src/arch_aarch64.rs",
        "src/linux_sys.rs",
        "src/stack.rs",
        "src/generated_manifest.rs",
        "src/main.rs",
    ] {
        assert!(!contents_of(&files, f).is_empty(), "missing: {f}");
    }
    assert_eq!(files.len(), 9);
    // No object file without an audit section.
    assert!(files.iter().all(|file| file.path != "auditable.o"));
}

#[test]
fn the_modules_of_the_loader_carry_their_tests() {
    let files = loader_files("x86_64-unknown-linux-gnu", &[], LoaderStrategy::Embedded);
    for (path, length, count) in [
        ("src/feature_mask.rs", 17027, 15),
        ("src/select.rs", 38870, 19),
        ("src/arch_x86_64.rs", 17081, 15),
        ("src/arch_aarch64.rs", 5418, 3),
    ] {
        let contents = contents_of(&files, path);
        let (module, tests) = contents.split_once("\n#[cfg(test)]\nmod tests {\n").unwrap();
        assert_eq!(contents.len(), length, "{path}");
        assert!(!module.contains("#[test]"), "{path}");
        assert_eq!(tests.matches("    #[test]\n").count(), count, "{path}");
        assert!(tests.ends_with("    }\n}\n"), "{path}");
        assert_eq!(
            contents.matches('{').count(),
            contents.matches('}').count(),
            "{path}"
        );
    }
}

#[test]
fn generate_loader_crate_emits_zstd_dependency_when_a_variant_uses_zstd() {
    let variant = VariantBuild {
        payload_compression: PayloadCompression::Zstd,
        ..synth_variant_build("znver5", "/tmp/payload.elf.zstd")
    };
    let files = loader_files(
        "x86_64-unknown-linux-gnu",
        &[variant],
        LoaderStrategy::Embedded,
    );
    let cargo_toml = contents_of(&files, "Cargo.toml");
    assert!(cargo_toml.contains("ruzstd"));
}

#[test]
fn generate_loader_crate_writes_auditable_object_when_section_provided() {
    let bytes = auditable_object("aarch64-unknown-linux-gnu", b"audit-section-bytes").unwrap();
    // ELF header.
    assert_eq!(&bytes[..4], b"\x7fELF");
}

#[test]
fn loader_miri_parses_initial_stack_layout() {
    let words = stack_words(&[0x100, 0x200, 0x300]);

    let initial = InitialStack::parse(&words);

    assert_eq!(initial.argc, 2);
    assert_eq!(initial.envc, 3);
    assert_eq!(initial.phdr, 0x1234);
    assert_eq!(initial.hwcap, 0xab);
    assert_eq!(initial.hwcap2, 0xcd);
    assert_eq!(initial.hwcap3, 0xef);
    assert_eq!(initial.argv, vec![0x10, 0x20]);
    assert_eq!(initial.envp, vec![0x100, 0x200, 0x300]);

    let env = entries(&["KEEP_ME=yes", "CARGO_SONIC_DEBUG=1", "CARGO_SONIC_ENABLE=false"]);
    assert!(debug_enabled(&env));
    assert!(!sonic_enabled(&env));
}

#[test]
fn loader_miri_build_envp_filters_old_sonic_values() {
    let env = entries(&[
        "KEEP_ME=yes",
        "CARGO_SONIC_ENABLED=old",
        "CARGO_SONIC_SELECTED_TARGET_CPU=old",
        "CARGO_SONIC_SELECTED_FLAGS=old",
        "CARGO_SONIC_ENABLE=1",
    ]);
    let got = build_envp(
        &env,
        b"CARGO_SONIC_ENABLED=1",
        b"CARGO_SONIC_SELECTED_TARGET_CPU=x86-64",
        b"CARGO_SONIC_SELECTED_FLAGS=sse2",
    );
    assert_eq!(
        got,
        entries(&[
            "KEEP_ME=yes",
            "CARGO_SONIC_ENABLE=1",
            "CARGO_SONIC_ENABLED=1",
            "CARGO_SONIC_SELECTED_TARGET_CPU=x86-64",
            "CARGO_SONIC_SELECTED_FLAGS=sse2",
        ])
    );
}

#[test]
fn loader_miri_enable_flag_accepts_only_documented_disabled_values() {
    for disabled in [
        "CARGO_SONIC_ENABLE=0",
        "CARGO_SONIC_ENABLE=false",
        "CARGO_SONIC_ENABLE=FALSE",
    ] {
        assert!(!sonic_enabled(&entries(&[disabled])));
    }

    for enabled in [
        "CARGO_SONIC_ENABLE=1",
        "CARGO_SONIC_ENABLE=true",
        "OTHER=value",
    ] {
        assert!(sonic_enabled(&entries(&[enabled])));
    }
}
