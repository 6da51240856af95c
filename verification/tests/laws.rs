//! What holds across functions, on concrete values.
use cargo_sonic::arch_aarch64::detect_aarch64_features_from_hwcap;
use cargo_sonic::arch_x86_64::{
    CpuidLeaf, X86Cpuid, can_read_xcr0, detect_x86_features_from_cpuid,
};
use cargo_sonic::cargo_args::forwarded_cargo_args;
use cargo_sonic::classify::classify_target_cpu;
use cargo_sonic::feature_mask::{ALL_FEATURES, Feature, FeatureMask, feature_by_name, feature_name};
use cargo_sonic::identity::{aarch64_identity, x86_identity};
use cargo_sonic::loader_crate::{loader_args, loader_files};
use cargo_sonic::loader_stack::{build_envp, read_auxv_hwcaps};
use cargo_sonic::manifest::VariantBuild;
use cargo_sonic::payload_names::{LoaderStrategy, PayloadCompression, sanitize_cpu};
use cargo_sonic::plan::leaked_str;
use cargo_sonic::report::baseline_report;
use cargo_sonic::runtime_features::{classify_runtime_features, safety_required_features};
use cargo_sonic::rustc_args::{
    KNOWN_TARGETS, PROBE_SOURCE, cfg_args, probe_args, probe_object_name, target_cpus_args,
    version_args,
};
use cargo_sonic::rustflags::{encode_rustflags, escape_toml_string};
use cargo_sonic::select::{
    CpuIdentity, HostInfo, TargetArch, TargetKind, VariantMeta, X86Vendor, exact_affinity, is_better,
    loader_choice, rank_variants, select_variant,
};
use cargo_sonic::sorted::{add_number, add_text, remove_text};
use cargo_sonic::target_cpus::{filter_target_cpus, normalize_target_cpus};

fn strings(values: &[&str]) -> Vec<String> {
    values.iter().map(|value| (*value).to_string()).collect()
}

fn mask(list: &[Feature]) -> FeatureMask {
    let mut mask = FeatureMask::empty();
    for feature in list {
        mask.insert(*feature);
    }
    mask
}

fn meta(cpu: &'static str, features: &[Feature], tier: u8, kind: TargetKind) -> VariantMeta {
    let features = mask(features);
    VariantMeta {
        target_cpu: cpu,
        required_features: features,
        rank_features: features,
        rank_feature_count: features.count(),
        feature_tier: tier,
        target_kind: kind,
    }
}

fn variants() -> Vec<VariantMeta> {
    vec![
        meta("x86-64", &[], 0, TargetKind::Generic),
        meta(
            "x86-64-v3",
            &[Feature::Avx2],
            1,
            TargetKind::X86NeutralLevel { level: 3 },
        ),
        meta("haswell", &[Feature::Avx2], 2, TargetKind::X86IntelCore),
        meta("znver4", &[Feature::Avx512F], 2, TargetKind::X86AmdZen { generation: 4 }),
    ]
}

fn host(features: &[Feature], identity: CpuIdentity) -> HostInfo {
    HostInfo {
        arch: TargetArch::X86_64,
        features: mask(features),
        identity,
        heterogeneous: false,
    }
}

const HASWELL: CpuIdentity = CpuIdentity::X86 {
    vendor: X86Vendor::Intel,
    family: 6,
    model: 60,
    stepping: 1,
};

#[test]
fn names_and_features_correspond() {
    for feature in ALL_FEATURES {
        assert_eq!(feature_by_name(feature_name(feature)), Some(feature));
    }
    for (i, a) in ALL_FEATURES.iter().enumerate() {
        for (j, b) in ALL_FEATURES.iter().enumerate() {
            assert_eq!(i == j, feature_name(*a) == feature_name(*b));
        }
    }
    assert_eq!(feature_by_name("avx10"), None);
}

#[test]
fn masks_are_sets() {
    let a = mask(&[Feature::Avx2, Feature::Sse2]);
    let b = mask(&[Feature::Sse2, Feature::Aes]);
    assert_eq!(a.union(b), mask(&[Feature::Aes, Feature::Avx2, Feature::Sse2]));
    assert_eq!(a.missing_from(b), mask(&[Feature::Avx2]));
    assert!(a.is_subset_of(a.union(b)));
    assert!(!a.is_subset_of(b));
    assert_eq!(FeatureMask::from_words(a.words()), a);
    assert_eq!(a.count(), 2);
}

#[test]
fn nothing_is_offered_where_nothing_is_reported() {
    let zero = CpuidLeaf {
        eax: 0,
        ebx: 0,
        ecx: 0,
        edx: 0,
    };
    let leaves = X86Cpuid {
        leaf1: zero,
        leaf7_0: zero,
        leaf7_1: zero,
        leaf_d_1: zero,
        leaf80000001: zero,
    };
    assert_eq!(
        detect_x86_features_from_cpuid(leaves, u64::MAX),
        FeatureMask::empty()
    );
    assert_eq!(
        detect_aarch64_features_from_hwcap(0, 0, 0),
        FeatureMask::empty()
    );
}

#[test]
fn wide_registers_need_saved_state() {
    let ones = CpuidLeaf {
        eax: u32::MAX,
        ebx: u32::MAX,
        ecx: u32::MAX,
        edx: u32::MAX,
    };
    let leaves = X86Cpuid {
        leaf1: ones,
        leaf7_0: ones,
        leaf7_1: ones,
        leaf_d_1: ones,
        leaf80000001: ones,
    };
    let none = detect_x86_features_from_cpuid(leaves, 0);
    assert!(!none.contains(Feature::Avx));
    assert!(!none.contains(Feature::Avx2));
    assert!(!none.contains(Feature::Avx512F));
    assert!(none.contains(Feature::Sse2));
    let narrow = detect_x86_features_from_cpuid(leaves, 0b110);
    assert!(narrow.contains(Feature::Avx2));
    assert!(!narrow.contains(Feature::Avx512F));
    let wide = detect_x86_features_from_cpuid(leaves, 0b1110_0110);
    assert!(wide.contains(Feature::Avx512F));
}

#[test]
fn extended_state_is_read_where_it_is_enabled() {
    let leaf = |ecx: u32| CpuidLeaf {
        eax: 0,
        ebx: 0,
        ecx,
        edx: 0,
    };
    assert!(can_read_xcr0(leaf(3 << 26)));
    assert!(!can_read_xcr0(leaf(1 << 26)));
    assert!(!can_read_xcr0(leaf(1 << 27)));
}

#[test]
fn the_selection_heads_the_ranking() {
    let all = variants();
    let hosts = [
        host(&[], HASWELL),
        host(&[Feature::Avx2], HASWELL),
        host(&[Feature::Avx2, Feature::Avx512F], HASWELL),
        host(&[Feature::Avx2], CpuIdentity::Unknown),
    ];
    for host in hosts {
        let ranked = rank_variants(host, &all);
        assert_eq!(select_variant(host, &all).target_cpu, ranked[0].target_cpu);
        for (i, a) in ranked.iter().enumerate() {
            assert!(
                a.target_kind.is_generic() || a.required_features.is_subset_of(host.features)
            );
            for b in &ranked[i + 1..] {
                assert!(!is_better(host, b, a));
            }
        }
    }
}

#[test]
fn order_and_ineligible_variants_do_not_matter() {
    let host = host(&[Feature::Avx2], HASWELL);
    let mut all = variants();
    let selected = select_variant(host, &all).target_cpu;
    all.reverse();
    assert_eq!(select_variant(host, &all).target_cpu, selected);
    all.retain(|variant| variant.target_cpu != "znver4");
    assert_eq!(select_variant(host, &all).target_cpu, selected);
}

#[test]
fn a_processor_is_one_target_cpu() {
    let exact: Vec<&str> = ["haswell", "broadwell", "skylake", "znver5"]
        .into_iter()
        .filter(|cpu| {
            let kind = classify_target_cpu(cpu, "x86_64", "x86-64");
            exact_affinity(HASWELL, kind, cpu) > 0
        })
        .collect();
    assert_eq!(exact, vec!["haswell"]);
}

#[test]
fn more_bits_take_no_feature_away() {
    let leaf = |bits: u32| CpuidLeaf {
        eax: bits,
        ebx: bits,
        ecx: bits,
        edx: bits,
    };
    let leaves = |bits: u32| X86Cpuid {
        leaf1: leaf(bits),
        leaf7_0: leaf(bits),
        leaf7_1: leaf(bits),
        leaf_d_1: leaf(bits),
        leaf80000001: leaf(bits),
    };
    let mut before = detect_x86_features_from_cpuid(leaves(0), 0);
    for n in 1..=32u32 {
        let bits = (1u64 << n) - 1;
        let now = detect_x86_features_from_cpuid(leaves(bits as u32), bits);
        assert!(before.is_subset_of(now));
        before = now;
    }
}

#[test]
fn capability_words_add_up() {
    for (a, b) in [(0b1010usize, 0b0110usize), (0xff00, 0x00ff), (1 << 22, 1 << 31)] {
        let union = detect_aarch64_features_from_hwcap(a | b, a | b, 0);
        let parts = detect_aarch64_features_from_hwcap(a, a, 0)
            .union(detect_aarch64_features_from_hwcap(b, b, 0));
        assert_eq!(union, parts);
    }
}

#[test]
fn exact_affinity_beats_everything_else() {
    let all = variants();
    let host = host(&[Feature::Avx2, Feature::Avx512F], HASWELL);
    assert_eq!(select_variant(host, &all).target_cpu, "haswell");
    assert!(is_better(host, &all[2], &all[3]));
    assert!(!is_better(host, &all[2], &all[2]));
}

#[test]
fn neutral_levels_win_on_an_unknown_host() {
    let all = variants();
    let host = host(&[Feature::Avx2, Feature::Avx512F], CpuIdentity::Unknown);
    assert_eq!(select_variant(host, &all).target_cpu, "x86-64-v3");
}

#[test]
fn a_loader_without_selection_runs_the_baseline() {
    let all = variants();
    let host = host(&[Feature::Avx2], HASWELL);
    assert_eq!(loader_choice(host, &all, false).target_cpu, "x86-64");
    assert_eq!(loader_choice(host, &all, true).target_cpu, "haswell");
    let weak = HostInfo {
        features: FeatureMask::empty(),
        ..host
    };
    assert_eq!(loader_choice(weak, &all, true).target_cpu, "x86-64");
}

#[test]
fn features_are_either_known_or_unknown() {
    let split = classify_runtime_features(&strings(&["avx2", "x87", "avx10", "rdrand"]));
    assert_eq!(split.known, strings(&["avx2", "rdrand"]));
    assert_eq!(split.unknown, strings(&["avx10"]));
    assert_eq!(safety_required_features(&split.known), strings(&["avx2"]));
}

#[test]
fn only_the_baseline_is_generic_on_concrete_names() {
    for cpu in ["x86-64", "generic", "haswell", "x86-64-v2", "weird"] {
        let kind = classify_target_cpu(cpu, "x86_64", "x86-64");
        assert_eq!(kind.is_generic(), cpu == "x86-64");
    }
}

#[test]
fn kept_target_cpus_are_a_set_with_the_baseline_first() {
    let valid = strings(&["haswell", "x86-64", "znver4"]);
    let names = normalize_target_cpus(strings(&["znver4", "haswell", "znver4"]), "x86_64").unwrap();
    assert_eq!(
        filter_target_cpus(&names, &valid, &valid).unwrap(),
        strings(&["x86-64", "znver4", "haswell"])
    );
}

#[test]
fn forwarding_twice_changes_nothing() {
    let given = strings(&[
        "--release",
        "--color",
        "always",
        "--target-dir=t",
        "--manifest-path",
        "m",
        "-q",
    ]);
    let once = forwarded_cargo_args(&given);
    assert_eq!(once, strings(&["--release", "-q"]));
    assert_eq!(forwarded_cargo_args(&once), once);
}

#[test]
fn encoded_flags_can_be_told_apart() {
    let flags = strings(&["-Ca b", "-Cc"]);
    let encoded = encode_rustflags(&flags);
    let parts: Vec<&[u8]> = encoded.split(|byte| *byte == 0x1f).collect();
    assert_eq!(parts, vec![b"-Ca b".as_slice(), b"-Cc".as_slice()]);
}

#[test]
fn escaped_texts_hide_their_quotes() {
    assert_eq!(escape_toml_string("a\"b\\c"), "a\\\"b\\\\c");
    assert_ne!(escape_toml_string("\\\""), escape_toml_string("\""));
}

#[test]
fn safe_names_differ_where_names_differ() {
    assert_ne!(sanitize_cpu("a-b"), sanitize_cpu("a_b"));
    assert_ne!(sanitize_cpu("a_2db"), sanitize_cpu("a-b"));
    assert_eq!(sanitize_cpu("a-b"), "a_2db");
    assert_eq!(sanitize_cpu("é"), "_c3_a9");
}

#[test]
fn the_payload_environment_is_stable() {
    let env = vec![b"PATH=/bin".to_vec(), b"CARGO_SONIC_ENABLED=0".to_vec()];
    let enabled = b"CARGO_SONIC_ENABLED=1";
    let cpu = b"CARGO_SONIC_SELECTED_TARGET_CPU=haswell";
    let flags = b"CARGO_SONIC_SELECTED_FLAGS=avx2";
    let once = build_envp(&env, enabled, cpu, flags);
    assert!(once.contains(&b"PATH=/bin".to_vec()));
    assert!(!once.contains(&b"CARGO_SONIC_ENABLED=0".to_vec()));
    assert!(once.contains(&enabled.to_vec()));
    assert_eq!(build_envp(&once, enabled, cpu, flags), once);
}

#[test]
fn auxiliary_entries_are_read_by_key() {
    let mut bytes = Vec::new();
    for (key, value) in [(16u64, 7u64), (26, 9), (3, 1), (29, 11)] {
        bytes.extend_from_slice(&key.to_le_bytes());
        bytes.extend_from_slice(&value.to_le_bytes());
    }
    bytes.push(1);
    assert_eq!(read_auxv_hwcaps(&bytes), (7, 9, 11));
    assert_eq!(read_auxv_hwcaps(&[]), (0, 0, 0));
}

#[test]
fn identities_come_from_the_best_source() {
    let vendor = CpuidLeaf {
        eax: 0,
        ebx: 0x68747541,
        ecx: 0x444d4163,
        edx: 0x69746e65,
    };
    let leaf1 = CpuidLeaf {
        eax: 0x00b4_0f40,
        ebx: 0,
        ecx: 0,
        edx: 0,
    };
    assert_eq!(
        x86_identity(vendor, leaf1),
        CpuIdentity::X86 {
            vendor: X86Vendor::Amd,
            family: 26,
            model: 68,
            stepping: 0,
        }
    );
    let cpuinfo = b"CPU implementer\t: 0xc0\nCPU part\t: 0xac3\n";
    let from_midr = aarch64_identity(Some(b"0x00000000413fd0c1\n"), Some(cpuinfo));
    assert_eq!(
        from_midr,
        CpuIdentity::Aarch64 {
            implementer: 0x41,
            part: 0xd0c,
            variant: 3,
            revision: 1,
        }
    );
    assert_eq!(
        aarch64_identity(Some(b"?"), Some(cpuinfo)),
        CpuIdentity::Aarch64 {
            implementer: 0xc0,
            part: 0xac3,
            variant: 0,
            revision: 0,
        }
    );
    assert_eq!(aarch64_identity(None, Some(b"")), CpuIdentity::Unknown);
    assert_eq!(aarch64_identity(None, None), CpuIdentity::Unknown);
}

#[test]
fn the_baseline_report_names_the_host() {
    assert!(baseline_report(TargetArch::X86_64).contains("generic"));
    assert_ne!(
        baseline_report(TargetArch::X86_64),
        baseline_report(TargetArch::Aarch64)
    );
}

#[test]
fn rustc_is_asked_with_plain_arguments() {
    assert_eq!(version_args(), strings(&["-vV"]));
    assert_eq!(
        cfg_args("t", Some("haswell")),
        strings(&["--print", "cfg", "--target", "t", "-C", "target-cpu=haswell"])
    );
    assert_eq!(
        cfg_args("t", None),
        strings(&["--print", "cfg", "--target", "t"])
    );
    assert_eq!(
        target_cpus_args("t"),
        strings(&["--print", "target-cpus", "--target", "t"])
    );
    assert_eq!(KNOWN_TARGETS.len(), 4);
    assert_eq!(
        probe_object_name(42, "a-b"),
        "cargo-sonic-target-cpu-probe-42-a_2db.o"
    );
    assert_eq!(probe_args("t", "c", "/o")[9], "target-cpu=c");
    assert!(PROBE_SOURCE.starts_with("#![no_std]\n"));
}

#[test]
fn sorted_lists_have_no_duplicates() {
    let mut names = Vec::new();
    for name in ["b", "a", "b", "é", "c"] {
        add_text(&mut names, name.to_string());
    }
    assert_eq!(names, strings(&["a", "b", "c", "é"]));
    assert_eq!(remove_text(&names, "b"), strings(&["a", "c", "é"]));
    let mut numbers = Vec::new();
    for number in [3usize, 1, 3, 2] {
        add_number(&mut numbers, number);
    }
    assert_eq!(numbers, vec![1, 2, 3]);
    assert_eq!(leaked_str("x86-64"), "x86-64");
}

fn built(cpu: &str, compression: PayloadCompression) -> VariantBuild {
    VariantBuild {
        target_cpu: cpu.to_string(),
        required_features: FeatureMask::empty(),
        rank_features: FeatureMask::empty(),
        feature_names: Vec::new(),
        feature_tier: 0,
        target_kind: TargetKind::Generic,
        artifact: format!("/p/{cpu}"),
        payload_len: 1,
        payload_compression: compression,
        uncompressed_len: 1,
        bundle_path: format!("{cpu}.elf\0"),
    }
}

#[test]
fn a_loader_depends_on_zstd_only_where_a_payload_does() {
    let plain = loader_files(
        "x86_64-unknown-linux-gnu",
        &[built("x86-64", PayloadCompression::Uncompressed)],
        LoaderStrategy::Embedded,
    );
    assert_eq!(plain.len(), 9);
    assert_eq!(plain[0].path, "Cargo.toml");
    assert!(!plain[0].contents.contains("ruzstd"));
    let zstd = loader_files(
        "x86_64-unknown-linux-gnu",
        &[
            built("x86-64", PayloadCompression::Uncompressed),
            built("haswell", PayloadCompression::Zstd),
        ],
        LoaderStrategy::Bundle,
    );
    assert!(zstd[0].contents.contains("ruzstd"));
    assert_eq!(zstd[8].path, "src/main.rs");
    assert_ne!(zstd[8].contents, plain[8].contents);
    assert_eq!(
        loader_args("t", "/d", true),
        strings(&["build", "--target", "t", "--target-dir", "/d", "--release"])
    );
    assert_eq!(loader_args("t", "/d", false).len(), 5);
}
