//! Passing flags to rustc.
use cargo_sonic::rustflags::{PayloadRustflags, append_encoded_rustflags, cargo_target_rustflags_env, encode_rustflags, escape_toml_string, loader_build_rustflags, loader_rustflags, payload_rustflags, rustflags_for_target, split_rustflags, target_cpu_rustflag, target_rustflags_config_arg};

fn decode_encoded_rustflags(flags: &[u8]) -> Vec<String> {
    String::from_utf8(flags.to_vec())
        .unwrap()
        .split('\x1f')
        .map(str::to_string)
        .collect()
}

#[test]
fn musl_loader_rustflags_skip_crt_startup_files() {
    let flags = loader_rustflags("aarch64-unknown-linux-musl");
    assert!(flags.contains("-C link-self-contained=no"));
    assert!(!flags.contains("-C link-arg=-nostartfiles"));
}

#[test]
fn x86_64_loader_rustflags_use_large_code_model() {
    let flags = loader_rustflags("x86_64-unknown-linux-gnu");
    assert!(flags.contains("-C code-model=large"));
    assert!(!flags.contains("-C link-self-contained=no"));
    assert!(flags.contains("-C link-arg=-nostartfiles"));
}

#[test]
fn payload_rustflags_use_cargo_config_by_default() {
    match payload_rustflags("aarch64-unknown-linux-gnu", "neoverse-v1", None, None) {
        PayloadRustflags::CargoConfig(arg) => assert_eq!(
            arg,
            "target.aarch64-unknown-linux-gnu.rustflags=[\"-Ctarget-cpu=neoverse-v1\"]"
        ),
        other => panic!("expected CargoConfig, got {other:?}"),
    }
}

#[test]
fn target_cpu_config_arg_escapes_toml_string() {
    assert_eq!(
        target_rustflags_config_arg(
            "x86_64-unknown-linux-gnu",
            &[target_cpu_rustflag("quoted\"cpu")]
        ),
        "target.x86_64-unknown-linux-gnu.rustflags=[\"-Ctarget-cpu=quoted\\\"cpu\"]"
    );
}

#[test]
fn target_rustflags_config_arg_preserves_loader_flags_as_target_config() {
    let flags = split_rustflags("-C panic=abort -C link-arg=-nostartfiles");
    assert_eq!(
        target_rustflags_config_arg("aarch64-unknown-linux-gnu", &flags),
        "target.aarch64-unknown-linux-gnu.rustflags=[\"-C\",\"panic=abort\",\"-C\",\"link-arg=-nostartfiles\"]"
    );
}

#[test]
fn loader_rustflags_use_loader_specific_env_only() {
    assert_eq!(
        loader_build_rustflags(
            "aarch64-unknown-linux-gnu",
            false,
            Some("-C panic=unwind -C link-arg=--target=aarch64-unknown-linux-gnu -C link-arg=-fuse-ld=lld"),
        ),
        vec![
            "-C",
            "panic=unwind",
            "-C",
            "link-arg=--target=aarch64-unknown-linux-gnu",
            "-C",
            "link-arg=-fuse-ld=lld",
            "-C",
            "panic=abort",
            "-C",
            "target-feature=+crt-static",
            "-C",
            "relocation-model=static",
            "-C",
            "link-arg=-nostartfiles",
            "-C",
            "link-arg=-static"
        ]
    );
}

#[test]
fn payload_rustflags_preserve_cargo_encoded_rustflags_precedence() {
    let PayloadRustflags::Encoded(flags) = payload_rustflags(
        "aarch64-unknown-linux-gnu",
        "neoverse-n1",
        Some(b"-Clto\x1f-Cpanic=abort".to_vec()),
        Some(b"-C debuginfo=1".to_vec()),
    ) else {
        panic!("expected encoded rustflags");
    };

    assert_eq!(
        decode_encoded_rustflags(&flags),
        vec!["-Clto", "-Cpanic=abort", "-Ctarget-cpu=neoverse-n1"]
    );
}

#[test]
fn payload_rustflags_preserve_plain_rustflags_precedence() {
    match payload_rustflags(
        "aarch64-unknown-linux-gnu",
        "neoverse-n1",
        None,
        Some(b"-C debuginfo=1".to_vec()),
    ) {
        PayloadRustflags::Plain(flags) => {
            assert_eq!(flags, b"-C debuginfo=1 -Ctarget-cpu=neoverse-n1")
        }
        other => panic!("expected Plain, got {other:?}"),
    }
}

#[test]
fn cargo_target_rustflags_env_uppercases_and_replaces_punctuation() {
    assert_eq!(
        cargo_target_rustflags_env("aarch64-unknown-linux-gnu"),
        "CARGO_TARGET_AARCH64_UNKNOWN_LINUX_GNU_RUSTFLAGS"
    );
    assert_eq!(
        cargo_target_rustflags_env("x86_64-unknown-linux-musl"),
        "CARGO_TARGET_X86_64_UNKNOWN_LINUX_MUSL_RUSTFLAGS"
    );
}

#[test]
fn escape_toml_string_escapes_quotes_and_backslashes() {
    assert_eq!(escape_toml_string("plain"), "plain");
    assert_eq!(escape_toml_string("a\"b"), "a\\\"b");
    assert_eq!(escape_toml_string("a\\b"), "a\\\\b");
    // Order: backslash first, then quote — `"\\` -> `\\\\\"`
    assert_eq!(escape_toml_string("\\\""), "\\\\\\\"");
}

#[test]
fn target_cpu_rustflag_formats_codegen_arg() {
    assert_eq!(target_cpu_rustflag("x86-64-v3"), "-Ctarget-cpu=x86-64-v3");
    assert_eq!(target_cpu_rustflag("generic"), "-Ctarget-cpu=generic");
}

#[test]
fn split_rustflags_splits_on_whitespace() {
    assert!(split_rustflags("").is_empty());
    assert_eq!(
        split_rustflags("  -C panic=abort  "),
        vec!["-C", "panic=abort"]
    );
}

#[test]
fn target_rustflags_config_arg_quotes_each_flag() {
    let out = target_rustflags_config_arg(
        "x86_64-unknown-linux-gnu",
        &["-C panic=abort".to_string(), "-Clto".to_string()],
    );
    assert!(out.starts_with("target.x86_64-unknown-linux-gnu.rustflags=["));
    assert!(out.contains("\"-C panic=abort\""));
    assert!(out.contains("\"-Clto\""));
}

#[test]
fn append_encoded_rustflags_chains_with_unit_separator() {
    let flags = encode_rustflags(&["a".into(), "b".into(), "c".into()]);
    assert_eq!(flags, b"a\x1fb\x1fc");
}

#[test]
fn append_encoded_rustflags_preserves_existing_value() {
    let base = b"base".to_vec();
    let combined = append_encoded_rustflags(base, &["next".to_string()]);
    assert_eq!(combined, b"base\x1fnext");
}

#[test]
fn loader_rustflags_picks_per_target_arms() {
    // x86_64-musl: link-self-contained=no, no -nostartfiles
    let musl = loader_rustflags("x86_64-unknown-linux-musl");
    assert!(musl.contains("link-self-contained=no"));
    assert!(!musl.contains("-nostartfiles"));
    assert!(musl.contains("code-model=large"));

    // x86_64 gnu: code-model=large + -nostartfiles, no link-self-contained
    let gnu = loader_rustflags("x86_64-unknown-linux-gnu");
    assert!(gnu.contains("code-model=large"));
    assert!(gnu.contains("-nostartfiles"));
    assert!(!gnu.contains("link-self-contained=no"));

    // aarch64-musl: link-self-contained=no, no code-model=large
    let amusl = loader_rustflags("aarch64-unknown-linux-musl");
    assert!(amusl.contains("link-self-contained=no"));
    assert!(!amusl.contains("code-model=large"));

    // aarch64-gnu: -nostartfiles, no link-self-contained
    let agnu = loader_rustflags("aarch64-unknown-linux-gnu");
    assert!(agnu.contains("-nostartfiles"));
    assert!(!agnu.contains("link-self-contained=no"));
}

#[test]
fn payload_rustflags_falls_back_to_cargo_config_when_no_env() {
    let got = payload_rustflags("aarch64-unknown-linux-gnu", "neoverse-n1", None, None);
    match got {
        PayloadRustflags::CargoConfig(arg) => {
            assert!(arg.starts_with("target.aarch64-unknown-linux-gnu.rustflags="));
            assert!(arg.contains("-Ctarget-cpu=neoverse-n1"));
        }
        other => panic!("expected CargoConfig, got {other:?}"),
    }
}

#[test]
fn loader_build_rustflags_appends_auditable_link_args() {
    let flags = loader_build_rustflags("aarch64-unknown-linux-gnu", true, None);
    let joined = flags.join(" ");
    assert!(joined.contains("link-arg=auditable.o"));
    assert!(joined.contains("__cargo_sonic_auditable_dep_v0"));
}

#[test]
fn loader_build_rustflags_omits_auditable_link_args_when_disabled() {
    let flags = loader_build_rustflags("aarch64-unknown-linux-gnu", false, None);
    let joined = flags.join(" ");
    assert!(!joined.contains("auditable.o"));
    assert!(!joined.contains("__cargo_sonic_auditable_dep_v0"));
}

#[test]
fn rustflags_for_target_uses_cargo_config_with_no_env() {
    let got = rustflags_for_target(
        "aarch64-unknown-linux-gnu",
        &["-C panic=abort".to_string()],
        None,
        None,
    );
    match got {
        PayloadRustflags::CargoConfig(arg) => {
            assert!(arg.contains("aarch64-unknown-linux-gnu.rustflags"));
            assert!(arg.contains("-C panic=abort"));
        }
        other => panic!("expected CargoConfig, got {other:?}"),
    }
}

#[test]
fn rustflags_for_target_plain_path_appends_to_existing_flags() {
    let got = rustflags_for_target(
        "x86_64-unknown-linux-gnu",
        &["-Clto".to_string()],
        None,
        Some(b"-Cdebuginfo=2".to_vec()),
    );
    match got {
        PayloadRustflags::Plain(flags) => {
            let s = String::from_utf8(flags).unwrap();
            assert!(s.contains("-Cdebuginfo=2"));
            assert!(s.contains("-Clto"));
            // Joined with a space when both sides are not empty.
            assert!(s.contains(" -Clto"));
        }
        other => panic!("expected Plain, got {other:?}"),
    }
}

#[test]
fn rustflags_for_target_plain_path_no_extra_separator_when_empty_existing() {
    let got = rustflags_for_target(
        "x86_64-unknown-linux-gnu",
        &["-Clto".to_string()],
        None,
        Some(b"".to_vec()),
    );
    match got {
        PayloadRustflags::Plain(flags) => {
            assert_eq!(String::from_utf8(flags).unwrap(), "-Clto");
        }
        other => panic!("expected Plain, got {other:?}"),
    }
}

#[test]
fn rustflags_for_target_plain_path_preserves_when_no_new_flags() {
    let got = rustflags_for_target(
        "x86_64-unknown-linux-gnu",
        &[],
        None,
        Some(b"-Cdebuginfo=2".to_vec()),
    );
    match got {
        PayloadRustflags::Plain(flags) => {
            assert_eq!(String::from_utf8(flags).unwrap(), "-Cdebuginfo=2");
        }
        other => panic!("expected Plain, got {other:?}"),
    }
}
