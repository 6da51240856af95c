//! The system tests: what is prepared, what is run, how the outcome is read.
use cargo_sonic::qemu::{
    Asset, CpuProbe, DigestError, GuestComparison, QemuCaseFailure, QemuManifest, SystemArch, SystemCase,
    SystemException, SystemManifest, archive_name, bullet_list, check_digest, filtered_cases,
    format_qemu_failure_report, guest_init, guest_passed, missing_message, missing_system_assets,
    needed_assets, parse_guest_comparison, parse_guest_field, payload_target_cpus, printed_path,
    qemu_args, qemu_asset_dir, qemu_jobs, qemu_readme, qemu_summary, qemu_worker_count,
    rejection_reason, sanitize_path_component, shell_quote, split_probes,
};
use cargo_sonic::qemu_steps::{
    QemuState, RootfsState, Step, case_log, extra_path, finish_runtime_rootfs, pack_initramfs,
    prepare_guest, prepare_guests, prepare_python_tools, prepare_qemu, prepare_rootfs_dirs,
    prepare_runtime_rootfs, probe_args, test_app_args, test_app_dir, test_app_linker,
    write_test_app,
};

fn strings(values: &[&str]) -> Vec<String> {
    values.iter().map(|value| (*value).to_string()).collect()
}

fn arch() -> SystemArch {
    SystemArch {
        name: "aarch64".to_string(),
        target: "aarch64-unknown-linux-musl".to_string(),
        qemu_system: "qemu-system-aarch64".to_string(),
        qemu_binary: "qemu/bin/qemu-system-aarch64".to_string(),
        kernel: "guest/linux".to_string(),
        initrd: "guest/initrd".to_string(),
        guest_archive_url: "https://host/net/netboot.tar.gz".to_string(),
        guest_archive_sha256: "aa".to_string(),
        guest_kernel_member: "./linux".to_string(),
        guest_initrd_member: "./initrd.gz".to_string(),
        rootfs_archive_url: "https://host/base.tar.gz".to_string(),
        rootfs_archive_sha256: "bb".to_string(),
        rust_archive_url: "https://host/rust.tar.xz".to_string(),
        rust_archive_sha256: "cc".to_string(),
        case: vec![
            SystemCase {
                cpu: "neoverse-n1".to_string(),
            },
            SystemCase {
                cpu: "max".to_string(),
            },
        ],
        exception: vec![SystemException {
            cpu: "a64fx".to_string(),
            reason: "no sve".to_string(),
        }],
    }
}

fn manifest() -> SystemManifest {
    SystemManifest {
        qemu: QemuManifest {
            version: "9.2.0".to_string(),
            source_url: "https://host/qemu.tar.xz".to_string(),
            source_sha256: "dd".to_string(),
            install_dir: "qemu".to_string(),
        },
        arch: vec![arch()],
    }
}

fn state(present: bool) -> QemuState {
    QemuState {
        binaries: present,
        source: present,
        x86_64_installed: present,
        aarch64_installed: present,
        host_ninja: present,
        own_ninja: present,
    }
}

/// A step in one line.
fn line(step: &Step) -> String {
    match step {
        Step::Say { line } => format!("say {line}"),
        Step::Need { tool } => format!("need {tool}"),
        Step::CreateDir { path } => format!("mkdir {path}"),
        Step::RemoveDir { path } => format!("rmdir {path}"),
        Step::Download { url, path } => format!("get {url} {path}"),
        Step::Verify { path, sha256 } => format!("verify {path} {sha256}"),
        Step::Copy { from, to } => format!("copy {from} {to}"),
        Step::Write { path, contents } => format!("write {path} {}", contents.len()),
        Step::MakeExecutable { path } => format!("chmod {path}"),
        Step::Run(run) => format!(
            "run[{}]{} {} {}",
            run.label,
            run.dir.as_deref().unwrap_or("."),
            run.program,
            run.args.join(" ")
        ),
    }
}

fn lines(steps: &[Step]) -> Vec<String> {
    steps.iter().map(line).collect()
}

#[test]
fn assets_lie_below_the_target_directory() {
    let directory =
        |first: Option<&[u8]>, second: Option<&[u8]>| qemu_asset_dir(b"/repo", first, second);
    assert_eq!(directory(None, None), b"/repo/target/sonic-qemu-system");
    assert_eq!(
        directory(Some(b"/cache"), Some(b"/other")),
        b"/cache/sonic-qemu-system"
    );
    assert_eq!(
        directory(None, Some(b"out")),
        b"/repo/out/sonic-qemu-system"
    );
    assert_eq!(
        directory(Some(b"out/"), None),
        b"/repo/out/sonic-qemu-system"
    );
    assert_eq!(directory(Some(b""), None), b"/repo/sonic-qemu-system");
    assert_eq!(
        qemu_asset_dir(b"/", None, None),
        b"/target/sonic-qemu-system"
    );
    // No text.
    assert_eq!(
        directory(Some(b"/cache\xff"), Some(b"out")),
        b"/cache\xff/sonic-qemu-system"
    );
    assert_eq!(
        directory(None, Some(b"\xfe")),
        b"/repo/\xfe/sonic-qemu-system"
    );
}

#[test]
fn rejected_cpus_are_told_of() {
    let probe = |cpu: &str, accepted: bool, stderr: &str| CpuProbe {
        cpu: cpu.to_string(),
        accepted,
        stderr: stderr.to_string(),
    };
    let split = split_probes(
        "t",
        &[
            probe("a", true, "warning"),
            probe("b", false, "\n error: no b \n"),
            probe("c", true, ""),
            probe("d", false, ""),
        ],
    )
    .unwrap();
    assert_eq!(split.accepted, strings(&["a", "c"]));
    assert_eq!(
        split.report,
        strings(&[
            "rustc target-cpu probe for t: 2 accepted, 2 skipped",
            "  skip b: error: no b",
            "  skip d: rustc rejected target-cpu for this target",
        ])
    );
    let all = split_probes("t", &[probe("a", true, "")]).unwrap();
    assert!(all.report.is_empty());
    assert_eq!(
        split_probes("t", &[probe("b", false, "")])
            .unwrap_err()
            .message(),
        "rustc reported no payload-buildable target-cpus for t"
    );
}

#[test]
fn jobs_are_a_positive_number_or_the_default() {
    assert_eq!(qemu_jobs(None, 6), 6);
    assert_eq!(qemu_jobs(Some("3"), 6), 3);
    assert_eq!(qemu_jobs(Some("+3"), 6), 3);
    assert_eq!(qemu_jobs(Some("0"), 6), 6);
    assert_eq!(qemu_jobs(Some("three"), 6), 6);
    assert_eq!(qemu_jobs(Some(""), 6), 6);
    assert_eq!(qemu_jobs(Some("99999999999999999999999"), 6), 6);
    assert_eq!(qemu_worker_count(0, 4), 1);
    assert_eq!(qemu_worker_count(9, 4), 4);
    assert_eq!(qemu_worker_count(2, 0), 0);
}

#[test]
fn cases_are_filtered_by_name() {
    assert_eq!(filtered_cases(&arch(), None), vec![0, 1]);
    assert_eq!(filtered_cases(&arch(), Some("max")), vec![1]);
    assert_eq!(filtered_cases(&arch(), Some("aarch64 neo")), vec![0]);
    assert!(filtered_cases(&arch(), Some("x86_64")).is_empty());
}

#[test]
fn missing_assets_are_listed() {
    let assets = needed_assets("/a", &manifest());
    let paths: Vec<&str> = assets.iter().map(|asset| asset.path.as_str()).collect();
    assert_eq!(
        paths,
        vec!["/a/qemu/bin/qemu-system-aarch64", "/a/guest/linux", "/a/guest/initrd"]
    );
    let missing = missing_system_assets(&assets, &[true, false, true]);
    assert_eq!(missing, strings(&["aarch64: /a/guest/linux"]));
    assert_eq!(bullet_list(&strings(&["x", "y"])), "  - x\n  - y");
    assert_eq!(
        missing_message("/a", &missing),
        "system-mode QEMU assets are incomplete under /a\nmissing:\n  - aarch64: /a/guest/linux\n\nrun `just qemu-prepare` after tests/qemu/system.toml contains pinned downloadable qemu/guest image URLs"
    );
    let none: Vec<Asset> = Vec::new();
    assert!(missing_system_assets(&none, &[]).is_empty());
}

#[test]
fn digests_are_compared_with_the_first_word() {
    assert!(check_digest("abc  file\n", "abc").is_ok());
    assert!(matches!(
        check_digest("abd  file\n", "abc"),
        Err(DigestError::Mismatch { actual }) if actual == "abd"
    ));
    assert!(matches!(check_digest(" \n", "abc"), Err(DigestError::NoDigest)));
    assert_eq!(archive_name("https://host/net/boot.tar.gz"), "boot.tar.gz");
    assert_eq!(archive_name("boot.tar.gz"), "boot.tar.gz");
    assert_eq!(shell_quote("/a/it's"), "'/a/it'\\''s'");
}

#[test]
fn the_guest_script_names_its_architecture() {
    let script = guest_init("aarch64");
    assert!(script.starts_with("#!/bin/sh\nset -eu\n"));
    assert!(script.contains("\necho \"arch=aarch64\"\n"));
    assert!(script.contains("fn main() {}\n"));
    assert!(script.ends_with("while :; do\n  sleep 3600\ndone\n"));
}

#[test]
fn the_last_printed_line_is_the_path() {
    assert_eq!(
        printed_path("Compiling\n /out/app \n\n  \n"),
        Some("/out/app".to_string())
    );
    assert_eq!(printed_path(" \n"), None);
}

#[test]
fn payload_cpus_are_indented_sorted_and_unique() {
    assert_eq!(
        payload_target_cpus(
            "Available CPUs for this target:\n    native - here\n    zeta\n    alpha - best\n    generic\n  two\n    alpha\n"
        ),
        strings(&["alpha", "zeta"])
    );
    assert_eq!(
        rejection_reason("\n   error: no such cpu  \nmore\n"),
        "error: no such cpu"
    );
    assert_eq!(
        rejection_reason(" \n"),
        "rustc rejected target-cpu for this target"
    );
}

#[test]
fn guests_boot_with_their_console() {
    assert_eq!(
        qemu_args("aarch64", "max", "/k", "/i"),
        strings(&[
            "-nographic",
            "-no-reboot",
            "-m",
            "4096",
            "-kernel",
            "/k",
            "-initrd",
            "/i",
            "-M",
            "virt",
            "-cpu",
            "max",
            "-append",
            "console=ttyAMA0 panic=-1 init=/init",
        ])
    );
    assert_eq!(
        qemu_args("x86_64", "Haswell", "/k", "/i")[8..],
        strings(&[
            "-cpu",
            "Haswell",
            "-append",
            "console=ttyS0 panic=-1 init=/init"
        ])[..]
    );
}

#[test]
fn comparisons_are_read_from_the_guest_output() {
    let output = "boot\nCARGO_SONIC_QEMU_BEGIN\r\narch=x\nnative= zen \nselected=generic\nCARGO_SONIC_QEMU_END\nresult=ok\n";
    let comparison = parse_guest_comparison(output).unwrap();
    assert_eq!(comparison.native, "zen");
    assert_eq!(comparison.selected, "generic");
    assert_eq!(comparison.result, "<missing>");
    assert!(parse_guest_comparison("no block").is_none());
    assert_eq!(parse_guest_field("a=1\nb=2\nb=3\n", "b"), Some("2".to_string()));
    assert_eq!(parse_guest_field(" b=2\n", "b"), None);
    assert!(guest_passed(output));
    assert!(!guest_passed("result=fail"));
}

#[test]
fn failures_are_reported_in_one_line() {
    let known = QemuCaseFailure {
        comparison: Some(GuestComparison {
            native: "zen".to_string(),
            selected: "generic".to_string(),
            result: "fail".to_string(),
        }),
        status: "exit status: 1".to_string(),
        message: "guest oracle failed".to_string(),
        log_path: Some("/log".to_string()),
    };
    assert_eq!(
        format_qemu_failure_report("x86_64", "EPYC", &known),
        "x86_64 EPYC: native=zen selected=generic result=fail status=exit status: 1 message=guest oracle failed log=/log"
    );
    let unknown = QemuCaseFailure {
        comparison: None,
        status: "spawn-error".to_string(),
        message: "failed".to_string(),
        log_path: None,
    };
    assert_eq!(
        format_qemu_failure_report("a", "b", &unknown),
        "a b: native=<unavailable> selected=<unavailable> result=<unavailable> status=spawn-error message=failed"
    );
    assert_eq!(qemu_summary(3, 1), "qemu summary: 3 passed, 1 failed");
    assert_eq!(sanitize_path_component("a b/c-1_2.x"), "a_b_c-1_2.x");
    assert_eq!(sanitize_path_component(""), "case");
}

#[test]
fn the_readme_lists_guests_and_exceptions() {
    let text = qemu_readme(&manifest());
    assert!(text.starts_with(
        "# cargo-sonic system-mode QEMU assets\n\nThis directory is generated by `just qemu-prepare`.\n\nPinned QEMU version: 9.2.0\n\nPinned QEMU source: `https://host/qemu.tar.xz`\n\n"
    ));
    assert!(text.contains("## aarch64\n\n- target: `aarch64-unknown-linux-musl`\n- qemu: `qemu-system-aarch64`\n"));
    assert!(text.ends_with(
        "- cpu cases: `2`\n- cpus: `neoverse-n1`, `max`\n\n- exceptions: `1`\n  - `a64fx`: no sve\n\n"
    ));
}

#[test]
fn a_prepared_qemu_needs_nothing() {
    assert_eq!(
        lines(&prepare_qemu("/a", &manifest(), "8", state(true))),
        strings(&["say qemu 9.2.0 already prepared"])
    );
    assert!(prepare_python_tools("/a", state(true)).is_empty());
    assert_eq!(extra_path("/a", state(true)), None);
}

#[test]
fn a_missing_qemu_is_built_from_source() {
    assert_eq!(
        lines(&prepare_qemu("/a", &manifest(), "8", state(false))),
        strings(&[
            "need curl",
            "need tar",
            "need xz",
            "need make",
            "need python3",
            "mkdir /a/downloads",
            "mkdir /a/build",
            "mkdir /a/tools",
            "run[create qemu tools venv]. python3 -m venv /a/tools/python",
            "run[install pinned ninja]. /a/tools/python/bin/python -m pip install ninja==1.13.0",
            "get https://host/qemu.tar.xz /a/downloads/qemu-9.2.0.tar.xz",
            "verify /a/downloads/qemu-9.2.0.tar.xz dd",
            "run[extract qemu source]. tar -xJf /a/downloads/qemu-9.2.0.tar.xz -C /a/build",
            "mkdir /a/qemu",
            "run[configure qemu]/a/build/qemu-9.2.0 ./configure --target-list=x86_64-softmmu,aarch64-softmmu --prefix=/a/qemu --disable-docs --disable-werror --disable-gtk --disable-sdl --disable-vnc --disable-tools",
            "run[build qemu]/a/build/qemu-9.2.0 make -j8",
            "run[install qemu]/a/build/qemu-9.2.0 make install",
        ])
    );
    assert_eq!(
        extra_path("/a", state(false)),
        Some("/a/tools/python/bin".to_string())
    );
}

#[test]
fn guests_are_unpacked_once() {
    assert_eq!(
        lines(&prepare_guests("/a")),
        strings(&["need curl", "need tar", "need gzip", "mkdir /a/downloads"])
    );
    assert_eq!(
        lines(&prepare_guest("/a", &arch(), true, true)),
        strings(&["say guest aarch64 already prepared"])
    );
    assert_eq!(
        lines(&prepare_guest("/a", &arch(), false, true)),
        strings(&[
            "get https://host/net/netboot.tar.gz /a/downloads/netboot.tar.gz",
            "verify /a/downloads/netboot.tar.gz aa",
            "rmdir /a/build/guest-aarch64",
            "mkdir /a/build/guest-aarch64",
            "run[extract guest netboot archive]. tar -xzf /a/downloads/netboot.tar.gz -C /a/build/guest-aarch64 ./linux ./initrd.gz",
            "copy /a/build/guest-aarch64/./linux /a/guest/linux",
            "copy /a/build/guest-aarch64/./initrd.gz /a/guest/initrd",
        ])
    );
    assert_eq!(prepare_guest("/a", &arch(), false, false).len(), 6);
}

#[test]
fn the_runtime_is_unpacked_and_finished() {
    assert_eq!(
        lines(&prepare_rootfs_dirs("/a")),
        strings(&[
            "need curl",
            "need tar",
            "need xz",
            "mkdir /a/downloads",
            "mkdir /a/rootfs"
        ])
    );
    let fresh = RootfsState {
        prepared: false,
        rootfs: true,
        unpacked: false,
    };
    assert_eq!(
        lines(&prepare_runtime_rootfs("/a", &arch(), fresh)),
        strings(&[
            "rmdir /a/rootfs/aarch64",
            "mkdir /a/rootfs/aarch64",
            "get https://host/base.tar.gz /a/downloads/base.tar.gz",
            "verify /a/downloads/base.tar.gz bb",
            "run[extract ubuntu base rootfs]. tar -xzf /a/downloads/base.tar.gz -C /a/rootfs/aarch64",
            "get https://host/rust.tar.xz /a/downloads/rust.tar.xz",
            "verify /a/downloads/rust.tar.xz cc",
            "mkdir /a/build/rust-install-aarch64",
            "run[extract rust toolchain]. tar -xJf /a/downloads/rust.tar.xz -C /a/build/rust-install-aarch64",
        ])
    );
    let init = format!("write /a/rootfs/aarch64/init {}", guest_init("aarch64").len());
    let done = RootfsState {
        prepared: true,
        rootfs: true,
        unpacked: true,
    };
    assert_eq!(
        lines(&prepare_runtime_rootfs("/a", &arch(), done)),
        vec![
            init.clone(),
            "chmod /a/rootfs/aarch64/init".to_string(),
            "say runtime rootfs aarch64 already prepared".to_string(),
        ]
    );
    assert_eq!(
        lines(&finish_runtime_rootfs("/a", "aarch64", "/i/install.sh")),
        vec![
            "run[install rust toolchain into guest rootfs]. sh /i/install.sh --prefix=/opt/rust --destdir=/a/rootfs/aarch64 --disable-ldconfig".to_string(),
            init,
            "chmod /a/rootfs/aarch64/init".to_string(),
            "write /a/rootfs/aarch64/etc/resolv.conf 19".to_string(),
            "write /a/rootfs/aarch64/.cargo-sonic-prepared 9".to_string(),
        ]
    );
}

#[test]
fn the_test_program_is_written_and_built() {
    assert_eq!(test_app_dir("/a", "x86_64"), "/a/work/app-x86_64");
    let steps = lines(&write_test_app("/p", true));
    assert_eq!(steps[0], "rmdir /p");
    assert_eq!(steps[1], "mkdir /p/src");
    assert!(steps[2].starts_with("write /p/Cargo.toml "));
    assert!(steps[3].starts_with("write /p/src/main.rs "));
    assert_eq!(write_test_app("/p", false).len(), 3);
    assert_eq!(
        test_app_args(&strings(&["a", "b"]), "t", "/p"),
        strings(&[
            "run",
            "-p",
            "cargo-sonic",
            "--",
            "sonic",
            "--target-cpus",
            "a,b",
            "build",
            "--release",
            "--target",
            "t",
            "--manifest-path",
            "/p/Cargo.toml",
        ])
    );
    assert_eq!(
        test_app_linker("aarch64-unknown-linux-musl"),
        Some(("CARGO_TARGET_AARCH64_UNKNOWN_LINUX_MUSL_LINKER", "rust-lld"))
    );
    assert_eq!(test_app_linker("x86_64-unknown-linux-musl"), None);
    assert_eq!(
        probe_args("t", "c", "/s.rs", "/o.o"),
        strings(&[
            "--crate-type=lib",
            "--emit=obj",
            "--target",
            "t",
            "-C",
            "target-cpu=c",
            "-C",
            "panic=abort",
            "/s.rs",
            "-o",
            "/o.o",
        ])
    );
    assert_eq!(case_log("/a", "x86_64", "a b"), "/a/run/logs/x86_64/a_b.log");
    assert_eq!(
        line(&pack_initramfs("/root's", "/i.gz")),
        "run[build qemu test initramfs]/root's sh -c find . -print0 | cpio --null -o -H newc 2>/dev/null | gzip -9 > '/i.gz'"
    );
}
