//! Reading the arguments for Cargo.
use cargo_sonic::cargo_args::{ColorMode, forwarded_cargo_args, known_cargo_args, parse_cargo_args, parse_color_mode, resolved_cargo_color};

fn strings(values: &[&str]) -> Vec<String> {
    values.iter().map(|value| (*value).to_string()).collect()
}

#[test]
fn cargo_args_recognize_release_aliases() {
    let args = strings(&["-r"]);
    let got = parse_cargo_args(&args).unwrap();
    assert!(got.release);
    assert_eq!(got.forwarded, args);

    let args = strings(&["--profile", "release"]);
    let got = parse_cargo_args(&args).unwrap();
    assert!(got.release);
    assert_eq!(got.forwarded, args);

    let args = strings(&["--profile=release"]);
    let got = parse_cargo_args(&args).unwrap();
    assert!(got.release);
    assert_eq!(got.forwarded, args);
}

#[test]
fn cargo_args_consumes_target_dir_without_forwarding_duplicate() {
    let args = strings(&[
        "--target-dir",
        "custom-target",
        "--features",
        "fast",
        "--target",
        "x86_64-unknown-linux-gnu",
    ]);
    let got = parse_cargo_args(&args).unwrap();
    assert_eq!(
        got.target_dir.as_deref(),
        Some("custom-target")
    );
    assert_eq!(got.target.as_deref(), Some("x86_64-unknown-linux-gnu"));
    assert_eq!(
        got.forwarded,
        strings(&["--features", "fast", "--target", "x86_64-unknown-linux-gnu"])
    );

    let args = strings(&["--target-dir=custom-target", "--release"]);
    let got = parse_cargo_args(&args).unwrap();
    assert_eq!(
        got.target_dir.as_deref(),
        Some("custom-target")
    );
    assert_eq!(got.forwarded, strings(&["--release"]));
}

#[test]
fn cargo_args_consumes_manifest_path_without_forwarding_duplicate() {
    let args = strings(&["--manifest-path", "examples/app/Cargo.toml", "--release"]);
    let got = parse_cargo_args(&args).unwrap();
    assert_eq!(
        got.manifest_path.as_deref(),
        Some("examples/app/Cargo.toml")
    );
    assert_eq!(got.forwarded, strings(&["--release"]));
}

#[test]
fn cargo_args_consumes_color_without_forwarding_duplicate() {
    let args = strings(&["--color", "always", "--release"]);
    let got = parse_cargo_args(&args).unwrap();
    assert_eq!(got.color, Some(ColorMode::Always));
    assert_eq!(got.forwarded, strings(&["--release"]));
    assert_eq!(resolved_cargo_color(got.color, false), "always");

    let args = strings(&["--color=never", "--release"]);
    let got = parse_cargo_args(&args).unwrap();
    assert_eq!(got.color, Some(ColorMode::Never));
    assert_eq!(got.forwarded, strings(&["--release"]));
    assert_eq!(resolved_cargo_color(got.color, false), "never");
}

#[test]
fn cargo_args_tolerate_repeated_cargo_selectors() {
    let args = strings(&[
        "--manifest-path",
        "tests/fixtures/env-printer/Cargo.toml",
        "--bin",
        "foo",
        "--bin",
        "bar",
        "-p",
        "one",
        "-p",
        "two",
    ]);
    let got = parse_cargo_args(&args).unwrap();
    assert_eq!(
        got.manifest_path.as_deref(),
        Some("tests/fixtures/env-printer/Cargo.toml")
    );
    assert_eq!(got.bin.as_deref(), Some("bar"));
    assert_eq!(got.package.as_deref(), Some("two"));
    assert_eq!(
        got.forwarded,
        strings(&["--bin", "foo", "--bin", "bar", "-p", "one", "-p", "two"])
    );
}

#[test]
fn parse_color_mode_maps_known_and_falls_back_to_auto() {
    assert_eq!(parse_color_mode("always"), ColorMode::Always);
    assert_eq!(parse_color_mode("never"), ColorMode::Never);
    assert_eq!(parse_color_mode("auto"), ColorMode::Auto);
    assert_eq!(parse_color_mode(""), ColorMode::Auto);
    assert_eq!(parse_color_mode("totally-bogus"), ColorMode::Auto);
    // Explicit Always/Never resolve deterministically; Auto depends on
    // whether the test process happens to attach a TTY, so don't assert on it.
    assert_eq!(resolved_cargo_color(Some(ColorMode::Always), false), "always");
    assert_eq!(resolved_cargo_color(Some(ColorMode::Never), false), "never");
    let auto = resolved_cargo_color(Some(ColorMode::Auto), false);
    assert!(auto == "always" || auto == "never");
    let none = resolved_cargo_color(None, false);
    assert!(none == "always" || none == "never");
}

#[test]
fn known_cargo_args_keeps_only_cargo_recognised_values() {
    let args = strings(&[
        "--release",
        "--features",
        "fast", // unknown, dropped (and value too)
        "--profile",
        "bench",
        "--target=x86_64-unknown-linux-gnu",
        "--bin",
        "demo",
        "-p",
        "alpha",
        "--manifest-path=foo/Cargo.toml",
        "--color",
        "always",
        "--color=never",
        "--target-dir",
        "out",
        "stray",
    ]);
    let known = known_cargo_args(&args);
    assert_eq!(
        known,
        strings(&[
            "--release",
            "--profile",
            "bench",
            "--target=x86_64-unknown-linux-gnu",
            "--bin",
            "demo",
            "-p",
            "alpha",
            "--manifest-path=foo/Cargo.toml",
            "--color",
            "always",
            "--color=never",
            "--target-dir",
            "out",
        ])
    );
}

#[test]
fn known_cargo_args_handles_trailing_flag_without_value() {
    // Trailing `--target` with no value must not panic.
    let args = strings(&["--unknown", "--target"]);
    let known = known_cargo_args(&args);
    assert_eq!(known, strings(&["--target"]));
}

#[test]
fn forwarded_cargo_args_strips_overridden_flags() {
    let args = strings(&[
        "--features",
        "fast",
        "--manifest-path",
        "Cargo.toml",
        "--target-dir",
        "custom",
        "--color",
        "never",
        "--release",
        "--manifest-path=alt.toml",
        "--target-dir=alt-out",
        "--color=always",
        "--bin",
        "demo",
    ]);
    let forwarded = forwarded_cargo_args(&args);
    assert_eq!(
        forwarded,
        strings(&["--features", "fast", "--release", "--bin", "demo",])
    );
}

#[test]
fn parse_cargo_args_defaults_when_args_empty() {
    let got = parse_cargo_args(&[]).unwrap();
    assert!(!got.release);
    assert!(got.target.is_none());
    assert!(got.target_dir.is_none());
    assert!(got.bin.is_none());
    assert!(got.package.is_none());
    assert!(got.manifest_path.is_none());
    assert!(got.color.is_none());
    assert!(got.forwarded.is_empty());
}
