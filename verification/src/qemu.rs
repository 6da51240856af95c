//! The system tests: what they prepare, how they boot a guest, and how they read what the
//! guest reports.
use crate::error::SonicError;
use crate::paths::{self, file_in, join_bytes};
use crate::rustc_output;
use crate::sorted::{self, add_text};
use crate::text::{
    self, contains, decimal_text, join_list, parse_number, replace, split_lines, split_whitespace,
    starts_with, str_eq, strip_prefix, take_after, take_before, take_last_part, trim,
};
use vstd::prelude::*;
use vstd::string::{StringExecFns, StringSliceAdditionalSpecFns};

verus! {

/// The pinned QEMU.
#[derive(Debug)]
pub struct QemuManifest {
    pub version: String,
    pub source_url: String,
    pub source_sha256: String,
    pub install_dir: String,
}

/// A CPU that a guest is booted with.
#[derive(Debug)]
pub struct SystemCase {
    pub cpu: String,
}

/// A CPU that is left out, and why.
#[derive(Debug)]
pub struct SystemException {
    pub cpu: String,
    pub reason: String,
}

/// The guest of an architecture.
#[derive(Debug)]
pub struct SystemArch {
    pub name: String,
    pub target: String,
    pub qemu_system: String,
    pub qemu_binary: String,
    pub kernel: String,
    pub initrd: String,
    pub guest_archive_url: String,
    pub guest_archive_sha256: String,
    pub guest_kernel_member: String,
    pub guest_initrd_member: String,
    pub rootfs_archive_url: String,
    pub rootfs_archive_sha256: String,
    pub rust_archive_url: String,
    pub rust_archive_sha256: String,
    pub case: Vec<SystemCase>,
    pub exception: Vec<SystemException>,
}

/// What the system tests need.
#[derive(Debug)]
pub struct SystemManifest {
    pub qemu: QemuManifest,
    pub arch: Vec<SystemArch>,
}

/// The directory below the target directory that holds everything of the system tests.
pub const QEMU_ASSET_SUBDIR: &'static str = "sonic-qemu-system";

/// The directory that holds everything of the system tests, given the target directory of the
/// environment: below that one, which may be relative to the root; else below `target`.
pub open spec fn asset_dir_of(root: Seq<u8>, target_dir: Option<Seq<u8>>) -> Seq<u8> {
    paths::joined_bytes(
        paths::joined_bytes(
            root,
            match target_dir {
                Some(dir) => dir,
                None => "target".spec_bytes(),
            },
        ),
        QEMU_ASSET_SUBDIR.spec_bytes(),
    )
}

/// The directory that holds everything of the system tests: below the target directory of
/// `CARGO_TARGET_DIR`, else of `CARGO_TARGET`, either relative to the root; else below
/// `target`. The paths are bytes: none of them needs to be text.
pub fn qemu_asset_dir(
    root: &[u8],
    cargo_target_dir: Option<&[u8]>,
    cargo_target: Option<&[u8]>,
) -> (r: Vec<u8>)
    ensures
        r@ == asset_dir_of(
            root@,
            match (cargo_target_dir, cargo_target) {
                (Some(dir), _) => Some(dir@),
                (None, Some(dir)) => Some(dir@),
                (None, None) => None,
            },
        ),
{
    let target_dir = match cargo_target_dir {
        Some(dir) => dir,
        None => match cargo_target {
            Some(dir) => dir,
            None => "target".as_bytes(),
        },
    };
    let target_dir = join_bytes(root, target_dir);
    join_bytes(target_dir.as_slice(), QEMU_ASSET_SUBDIR.as_bytes())
}

/// How many guests run at a time: what the environment says, unless that is no positive
/// number; else what the machine can do in parallel.
pub fn qemu_jobs(value: Option<&str>, parallel: usize) -> (r: usize)
    ensures
        r == (match value {
            Some(v) => match text::number(v@) {
                Some(jobs) => if jobs > 0 {
                    jobs
                } else {
                    parallel
                },
                None => parallel,
            },
            None => parallel,
        }),
{
    match value {
        Some(v) => match parse_number(v) {
            Some(jobs) => if jobs > 0 {
                jobs
            } else {
                parallel
            },
            None => parallel,
        },
        None => parallel,
    }
}

/// How many workers boot guests: at least one, at most one for each case.
pub fn qemu_worker_count(jobs: usize, cases: usize) -> (r: usize)
    ensures
        ({
            let wanted = if jobs == 0 {
                1
            } else {
                jobs
            };
            r == (if wanted <= cases {
                wanted
            } else {
                cases
            })
        }),
{
    let wanted: usize = if jobs == 0 {
        1
    } else {
        jobs
    };
    if wanted <= cases {
        wanted
    } else {
        cases
    }
}

// ---------------------------------------------------------------------------
// Cases

/// Whether a filter lets a case of an architecture pass: it is part of the architecture's
/// and the CPU's name with a space between.
pub open spec fn passes(arch: Seq<char>, cpu: Seq<char>, filter: Option<Seq<char>>) -> bool {
    match filter {
        Some(filter) => text::has_part(arch + " "@ + cpu, filter) || cpu == filter,
        None => true,
    }
}

/// The positions below `n` of the cases that a filter lets pass.
pub open spec fn passing_below(arch: SystemArch, filter: Option<Seq<char>>, n: int) -> Seq<usize>
    decreases n,
{
    if n <= 0 {
        Seq::empty()
    } else {
        let before = passing_below(arch, filter, n - 1);
        if passes(arch.name@, arch.case@[n - 1].cpu@, filter) {
            before.push((n - 1) as usize)
        } else {
            before
        }
    }
}

/// A text as an option of its characters.
pub open spec fn opt_str(s: Option<&str>) -> Option<Seq<char>> {
    match s {
        Some(s) => Some(s@),
        None => None,
    }
}

/// The positions of the cases that a filter lets pass.
pub fn filtered_cases(arch: &SystemArch, case_filter: Option<&str>) -> (r: Vec<usize>)
    ensures
        r@ == passing_below(*arch, opt_str(case_filter), arch.case@.len() as int),
{
    let mut out: Vec<usize> = Vec::new();
    let mut i: usize = 0;
    while i < arch.case.len()
        invariant
            i <= arch.case@.len(),
            out@ == passing_below(*arch, opt_str(case_filter), i as int),
        decreases arch.case@.len() - i,
    {
        let cpu = arch.case[i].cpu.as_str();
        let pass = match case_filter {
            Some(filter) => {
                let mut name = arch.name.clone();
                name.append(" ");
                name.append(cpu);
                contains(name.as_str(), filter) || str_eq(cpu, filter)
            },
            None => true,
        };
        if pass {
            out.push(i);
        }
        i += 1;
    }
    out
}

// ---------------------------------------------------------------------------
// Assets

/// A file that the system tests need.
#[derive(Debug)]
pub struct Asset {
    pub arch: String,
    pub path: String,
}

/// The entry for a missing file.
pub open spec fn missing_line(arch: Seq<char>, path: Seq<char>) -> Seq<char> {
    arch + ": "@ + path
}

/// The files that the guests of some architectures need, with what their architecture is
/// called.
pub open spec fn needed(asset_dir: Seq<char>, arches: Seq<SystemArch>) -> Seq<(Seq<char>, Seq<char>)>
    decreases arches.len(),
{
    if arches.len() == 0 {
        Seq::empty()
    } else {
        let arch = arches.last();
        needed(asset_dir, arches.drop_last()) + seq![
            (arch.name@, paths::joined(asset_dir, arch.qemu_binary@)),
            (arch.name@, paths::joined(asset_dir, arch.kernel@)),
            (arch.name@, paths::joined(asset_dir, arch.initrd@)),
        ]
    }
}

/// Assets as pairs.
pub open spec fn pairs(assets: Seq<Asset>) -> Seq<(Seq<char>, Seq<char>)> {
    assets.map_values(|asset: Asset| (asset.arch@, asset.path@))
}

/// The files that the guests need.
pub fn needed_assets(asset_dir: &str, manifest: &SystemManifest) -> (r: Vec<Asset>)
    ensures
        pairs(r@) == needed(asset_dir@, manifest.arch@),
{
    let mut out: Vec<Asset> = Vec::new();
    let mut i: usize = 0;
    assert(manifest.arch@.take(0) =~= Seq::<SystemArch>::empty());
    assert(pairs(out@) =~= Seq::<(Seq<char>, Seq<char>)>::empty());
    while i < manifest.arch.len()
        invariant
            i <= manifest.arch@.len(),
            pairs(out@) == needed(asset_dir@, manifest.arch@.take(i as int)),
        decreases manifest.arch@.len() - i,
    {
        let arch = &manifest.arch[i];
        let ghost before = out@;
        out.push(
            Asset { arch: arch.name.clone(), path: file_in(asset_dir, arch.qemu_binary.as_str()) },
        );
        out.push(Asset { arch: arch.name.clone(), path: file_in(asset_dir, arch.kernel.as_str()) });
        out.push(Asset { arch: arch.name.clone(), path: file_in(asset_dir, arch.initrd.as_str()) });
        proof {
            assert(manifest.arch@.take(i + 1).drop_last() =~= manifest.arch@.take(i as int));
            assert(pairs(out@) =~= pairs(before) + seq![
                (arch.name@, paths::joined(asset_dir@, arch.qemu_binary@)),
                (arch.name@, paths::joined(asset_dir@, arch.kernel@)),
                (arch.name@, paths::joined(asset_dir@, arch.initrd@)),
            ]);
        }
        i += 1;
    }
    assert(manifest.arch@.take(i as int) =~= manifest.arch@);
    out
}

/// The entries for those of the first `n` assets that are missing.
pub open spec fn missing_below(assets: Seq<Asset>, present: Seq<bool>, n: int) -> Seq<Seq<char>>
    decreases n,
{
    if n <= 0 {
        Seq::empty()
    } else {
        let before = missing_below(assets, present, n - 1);
        if present[n - 1] {
            before
        } else {
            before.push(missing_line(assets[n - 1].arch@, assets[n - 1].path@))
        }
    }
}

/// The entries for the assets that are missing, given which ones are present.
pub fn missing_system_assets(assets: &[Asset], present: &[bool]) -> (r: Vec<String>)
    requires
        assets@.len() == present@.len(),
    ensures
        text::texts(r@) == missing_below(assets@, present@, assets@.len() as int),
{
    let mut out: Vec<String> = Vec::new();
    let mut i: usize = 0;
    assert(text::texts(out@) =~= Seq::<Seq<char>>::empty());
    while i < assets.len()
        invariant
            i <= assets@.len(),
            assets@.len() == present@.len(),
            text::texts(out@) == missing_below(assets@, present@, i as int),
        decreases assets@.len() - i,
    {
        if !present[i] {
            let ghost before = text::texts(out@);
            let mut line = assets[i].arch.clone();
            line.append(": ");
            line.append(assets[i].path.as_str());
            let ghost shown = line@;
            out.push(line);
            assert(text::texts(out@) =~= before.push(shown));
        }
        i += 1;
    }
    out
}

/// A list with a dash before each entry.
pub open spec fn bulleted(list: Seq<Seq<char>>) -> Seq<Seq<char>> {
    list.map_values(|item: Seq<char>| "  - "@ + item)
}

/// A list with a dash before each entry, one on each line.
pub fn bullet_list(list: &[String]) -> (r: String)
    ensures
        r@ == text::join(bulleted(text::texts(list@)), "\n"@),
{
    let ghost all = bulleted(text::texts(list@));
    let mut items: Vec<String> = Vec::new();
    assert(text::texts(items@) =~= all.take(0));
    while items.len() < list.len()
        invariant
            items@.len() <= list@.len(),
            all == bulleted(text::texts(list@)),
            text::texts(items@) == all.take(items@.len() as int),
        decreases list@.len() - items@.len(),
    {
        let ghost before = items@;
        let mut item = "  - ".to_owned();
        item.append(list[items.len()].as_str());
        items.push(item);
        proof {
            let n = before.len() as int;
            assert(all.take(n + 1) =~= all.take(n).push(all[n]));
            assert(text::texts(items@) =~= text::texts(before).push(all[n]));
        }
    }
    assert(all.take(items@.len() as int) =~= all);
    join_list(&items, "\n")
}

/// What to say about missing assets.
pub fn missing_message(asset_dir: &str, missing: &[String]) -> (r: String)
    ensures
        r@ == "system-mode QEMU assets are incomplete under "@ + asset_dir@ + "\nmissing:\n"@
            + text::join(bulleted(text::texts(missing@)), "\n"@)
            + "\n\nrun `just qemu-prepare` after tests/qemu/system.toml contains pinned downloadable qemu/guest image URLs"@,
{
    let list = bullet_list(missing);
    let mut r = "system-mode QEMU assets are incomplete under ".to_owned();
    r.append(asset_dir);
    r.append("\nmissing:\n");
    r.append(list.as_str());
    r.append(
        "\n\nrun `just qemu-prepare` after tests/qemu/system.toml contains pinned downloadable qemu/guest image URLs",
    );
    r
}

/// The file name of an archive.
pub fn archive_name(url: &str) -> (r: String)
    ensures
        r@ == text::last_part(url@, '/'),
{
    take_last_part(url, '/')
}

/// What is wrong with the digest of a file.
#[derive(Debug)]
pub enum DigestError {
    NoDigest,
    Mismatch { actual: String },
}

/// Checks what `sha256sum` prints about a file against the digest that is expected.
pub fn check_digest(output: &str, expected: &str) -> (r: Result<(), DigestError>)
    ensures
        ({
            let words = text::words(output@);
            if words.len() == 0 {
                r matches Err(e) && e is NoDigest
            } else if words[0] == expected@ {
                r is Ok
            } else {
                r matches Err(DigestError::Mismatch { actual }) && actual@ == words[0]
            }
        }),
{
    let words = split_whitespace(output);
    assert(text::texts(words@).len() == words@.len());
    if words.len() == 0 {
        return Err(DigestError::NoDigest);
    }
    assert(text::words(output@)[0] == words@[0]@);
    if str_eq(words[0].as_str(), expected) {
        Ok(())
    } else {
        Err(DigestError::Mismatch { actual: words[0].clone() })
    }
}

/// A path in single quotes, for a shell.
pub open spec fn quoted(path: Seq<char>) -> Seq<char> {
    "'"@ + text::replaced(path, "'"@, "'\\''"@) + "'"@
}

/// A path in single quotes, for a shell.
pub fn shell_quote(path: &str) -> (r: String)
    ensures
        r@ == quoted(path@),
{
    proof {
        reveal_strlit("'");
    }
    let inner = replace(path, "'", "'\\''");
    let mut r = "'".to_owned();
    r.append(inner.as_str());
    r.append("'");
    r
}

// ---------------------------------------------------------------------------
// The guest

/// The beginning of the script that a guest runs, up to the name of its architecture.
pub const INIT_START: &'static str = r#"#!/bin/sh
set -eu
export PATH=/opt/rust/bin:/usr/sbin:/usr/bin:/sbin:/bin
mount -t proc proc /proc || true
mount -t sysfs sysfs /sys || true
mount -t devtmpfs devtmpfs /dev || true
mkdir -p /tmp
cat >/tmp/native.rs <<'RS'
fn main() {}
RS
rustc /tmp/native.rs --emit=llvm-ir -C target-cpu=native -o /tmp/native.ll
native="$(sed -n 's/.*"target-cpu"="\([^"]*\)".*/\1/p' /tmp/native.ll | head -n1)"
CARGO_SONIC_DEBUG=1 SONIC_EXAMPLE_ITERS=1 SONIC_EXAMPLE_LEN=64 /sonic-qemu-app > /tmp/app.out 2> /tmp/app.err
selected="$(sed -n 's/^selected target-cpu: //p' /tmp/app.out | head -n1)"
native_line="$(grep -F "    $native eligible=" /tmp/app.err | head -n1 || true)"
selected_line="$(grep -F "    $selected eligible=" /tmp/app.err | head -n1 || true)"
native_eligible="$(echo "$native_line" | sed -n 's/.* eligible=\([^ ]*\).*/\1/p')"
selected_eligible="$(echo "$selected_line" | sed -n 's/.* eligible=\([^ ]*\).*/\1/p')"
expectation=exact
reason=
if [ -z "$native_line" ]; then
  result=fail
  reason=native-variant-missing
elif [ "$selected_eligible" != yes ]; then
  result=fail
  reason=selected-variant-ineligible
elif [ "$native_eligible" = yes ] && [ "$selected" = "$native" ]; then
  result=ok
  expectation=exact
elif [ "$native_eligible" = yes ]; then
  result=fail
  reason=native-eligible-but-not-selected
else
  result=ok
  expectation=best-effort-native-ineligible
fi
echo "CARGO_SONIC_QEMU_BEGIN"
echo "arch="#;

/// The rest of the script that a guest runs.
pub const INIT_END: &'static str = r#""
echo "native=$native"
echo "native_eligible=$native_eligible"
echo "selected=$selected"
echo "selected_eligible=$selected_eligible"
echo "expectation=$expectation"
echo "reason=$reason"
if [ "$result" = fail ]; then
  echo "guest /proc/cpuinfo:"
  cat /proc/cpuinfo || true
  echo "guest sysfs midr:"
  cat /sys/devices/system/cpu/cpu0/regs/identification/midr_el1 || true
fi
cat /tmp/app.out
cat /tmp/app.err
echo "result=$result"
echo "CARGO_SONIC_QEMU_END"
echo 1 > /proc/sys/kernel/sysrq 2>/dev/null || true
echo o > /proc/sysrq-trigger 2>/dev/null || true
while :; do
  sleep 3600
done
"#;

/// The script that a guest runs.
pub fn guest_init(arch_name: &str) -> (r: String)
    ensures
        r@ == INIT_START@ + arch_name@ + INIT_END@,
{
    let mut r = INIT_START.to_owned();
    r.append(arch_name);
    r.append(INIT_END);
    r
}

/// The package manifest of the program that a guest runs.
pub const TEST_APP_PACKAGE: &'static str = r#"[package]
name = "sonic-qemu-app"
version = "0.1.0"
edition = "2024"
publish = false

[workspace]
"#;

/// The program that a guest runs.
pub const TEST_APP_MAIN: &'static str = r#"fn main() {
    let variant = std::env::var("CARGO_SONIC_SELECTED_TARGET_CPU").unwrap_or_default();
    let len = std::env::var("SONIC_EXAMPLE_LEN").ok().and_then(|v| v.parse::<usize>().ok()).unwrap_or(64);
    let iters = std::env::var("SONIC_EXAMPLE_ITERS").ok().and_then(|v| v.parse::<u64>().ok()).unwrap_or(1);
    let mut x = vec![0.25f32; len];
    let mut y = vec![1.5f32; len];
    let mut sum = 0.0f64;
    for r in 0..iters {
        for i in 0..len {
            x[i] = x[i].mul_add(1.000_003, y[i] * 0.000_031 + r as f32 * 0.000_001);
            y[i] = y[i].mul_add(0.999_991, x[i] * 0.000_017);
            sum += (x[i] + y[i]) as f64;
        }
    }
    println!("selected target-cpu: {variant}");
    println!("checksum: {sum:.6}");
}"#;

/// The last text of a list that is not empty without the white characters at its ends.
pub open spec fn last_filled(lines: Seq<Seq<char>>) -> Option<Seq<char>>
    decreases lines.len(),
{
    if lines.len() == 0 {
        None
    } else if text::trimmed(lines.last()).len() > 0 {
        Some(text::trimmed(lines.last()))
    } else {
        last_filled(lines.drop_last())
    }
}

/// The path that a build prints last.
pub fn printed_path(stdout: &str) -> (r: Option<String>)
    ensures
        text::opt(r) == last_filled(text::lines(stdout@)),
{
    let lines = split_lines(stdout);
    let ghost all = text::texts(lines@);
    let mut n: usize = lines.len();
    assert(all.take(n as int) =~= all);
    while n > 0
        invariant
            n <= lines@.len(),
            all == text::texts(lines@),
            all == text::lines(stdout@),
            last_filled(all) == last_filled(all.take(n as int)),
        decreases n,
    {
        let line = trim(lines[n - 1].as_str());
        assert(all.take(n as int).last() == lines@[n - 1]@);
        assert(all.take(n as int).drop_last() =~= all.take(n - 1));
        let empty = str_eq(line.as_str(), "");
        proof {
            reveal_strlit("");
        }
        if !empty {
            assert(line@.len() > 0) by {
                if line@.len() == 0 {
                    assert(line@ =~= ""@);
                }
            }
            return Some(line);
        }
        n -= 1;
    }
    None
}

/// Whether a line of `rustc --print target-cpus` lists a target CPU that payloads are built
/// for.
pub open spec fn lists_payload_cpu(line: Seq<char>, cpu: Seq<char>) -> bool {
    &&& text::words(line).len() > 0
    &&& text::words(line)[0] == cpu
    &&& text::has_prefix(line, "    "@)
    &&& cpu != "native"@
    &&& cpu != "generic"@
}

/// Whether one of some lines lists a target CPU that payloads are built for.
pub open spec fn some_line_lists(lines: Seq<Seq<char>>, cpu: Seq<char>) -> bool {
    exists|i: int| 0 <= i < lines.len() && lists_payload_cpu(#[trigger] lines[i], cpu)
}

/// The target CPUs that payloads are built for, sorted, each once.
pub fn payload_target_cpus(output: &str) -> (r: Vec<String>)
    ensures
        sorted::ascending(text::texts(r@)),
        forall|t: Seq<char>| #[trigger]
            text::texts(r@).contains(t) == some_line_lists(text::lines(output@), t),
{
    let lines = split_lines(output);
    let ghost all = text::texts(lines@);
    let mut out: Vec<String> = Vec::new();
    let mut i: usize = 0;
    while i < lines.len()
        invariant
            i <= lines@.len(),
            all == text::texts(lines@),
            sorted::ascending(text::texts(out@)),
            forall|t: Seq<char>| #[trigger]
                text::texts(out@).contains(t) == some_line_lists(all.take(i as int), t),
        decreases lines@.len() - i,
    {
        let line = lines[i].as_str();
        let ghost before = text::texts(out@);
        let words = split_whitespace(line);
        assert(text::texts(words@).len() == words@.len());
        if words.len() > 0 && starts_with(line, "    ") && !str_eq(words[0].as_str(), "native")
            && !str_eq(words[0].as_str(), "generic") {
            assert(text::words(line@)[0] == words@[0]@);
            add_text(&mut out, words[0].clone());
        }
        proof {
            let shorter = all.take(i as int);
            let longer = all.take(i + 1);
            assert(longer[i as int] == line@);
            if words@.len() > 0 {
                assert(text::words(line@)[0] == words@[0]@);
            }
            assert forall|t: Seq<char>| #[trigger] text::texts(out@).contains(t) == some_line_lists(
                longer,
                t,
            ) by {
                assert(before.contains(t) == some_line_lists(shorter, t));
                assert(text::texts(out@).contains(t) == (before.contains(t) || lists_payload_cpu(
                    line@,
                    t,
                )));
                if some_line_lists(shorter, t) {
                    let k = choose|k: int|
                        0 <= k < shorter.len() && lists_payload_cpu(#[trigger] shorter[k], t);
                    assert(lists_payload_cpu(longer[k], t));
                }
                if some_line_lists(longer, t) {
                    let k = choose|k: int|
                        0 <= k < longer.len() && lists_payload_cpu(#[trigger] longer[k], t);
                    if k < i {
                        assert(lists_payload_cpu(shorter[k], t));
                    }
                }
            }
        }
        i += 1;
    }
    assert(all.take(i as int) =~= all);
    out
}

/// The first text of a list that is not empty without the white characters at its ends.
pub open spec fn first_filled(lines: Seq<Seq<char>>) -> Option<Seq<char>>
    decreases lines.len(),
{
    if lines.len() == 0 {
        None
    } else if text::trimmed(lines[0]).len() > 0 {
        Some(text::trimmed(lines[0]))
    } else {
        first_filled(lines.drop_first())
    }
}

/// Why rustc rejects a target CPU, from what it prints.
pub open spec fn reason_in(stderr: Seq<char>) -> Seq<char> {
    match first_filled(text::lines(stderr)) {
        Some(line) => line,
        None => "rustc rejected target-cpu for this target"@,
    }
}

/// Why rustc rejects a target CPU, from what it prints.
pub fn rejection_reason(stderr: &str) -> (r: String)
    ensures
        r@ == reason_in(stderr@),
{
    let lines = split_lines(stderr);
    let ghost all = text::texts(lines@);
    let mut i: usize = 0;
    assert(all.skip(0) =~= all);
    while i < lines.len()
        invariant
            i <= lines@.len(),
            all == text::texts(lines@),
            all == text::lines(stderr@),
            first_filled(all) == first_filled(all.skip(i as int)),
        decreases lines@.len() - i,
    {
        let line = trim(lines[i].as_str());
        assert(all.skip(i as int)[0] == lines@[i as int]@);
        assert(all.skip(i as int).drop_first() =~= all.skip(i + 1));
        let empty = str_eq(line.as_str(), "");
        proof {
            reveal_strlit("");
        }
        if !empty {
            assert(line@.len() > 0) by {
                if line@.len() == 0 {
                    assert(line@ =~= ""@);
                }
            }
            return line;
        }
        i += 1;
    }
    "rustc rejected target-cpu for this target".to_owned()
}

/// What came of a try to compile for a target CPU.
#[derive(Debug)]
pub struct CpuProbe {
    pub cpu: String,
    pub accepted: bool,
    /// What rustc printed.
    pub stderr: String,
}

/// The target CPUs that rustc compiles for, and the lines that tell of the others.
#[derive(Debug)]
pub struct CpuProbes {
    pub accepted: Vec<String>,
    pub report: Vec<String>,
}

/// The target CPUs that rustc compiles for.
pub open spec fn accepted_cpus(probes: Seq<CpuProbe>) -> Seq<Seq<char>>
    decreases probes.len(),
{
    if probes.len() == 0 {
        Seq::empty()
    } else {
        let before = accepted_cpus(probes.drop_last());
        if probes.last().accepted {
            before.push(probes.last().cpu@)
        } else {
            before
        }
    }
}

/// The line about a target CPU that rustc rejects.
pub open spec fn skip_line(probe: CpuProbe) -> Seq<char> {
    "  skip "@ + probe.cpu@ + ": "@ + reason_in(probe.stderr@)
}

/// The lines about the target CPUs that rustc rejects.
pub open spec fn skip_lines(probes: Seq<CpuProbe>) -> Seq<Seq<char>>
    decreases probes.len(),
{
    if probes.len() == 0 {
        Seq::empty()
    } else {
        let before = skip_lines(probes.drop_last());
        if probes.last().accepted {
            before
        } else {
            before.push(skip_line(probes.last()))
        }
    }
}

/// How many target CPUs rustc compiles for and how many it rejects.
pub open spec fn probe_heading(target: Seq<char>, accepted: nat, skipped: nat) -> Seq<char> {
    "rustc target-cpu probe for "@ + target + ": "@ + text::decimal(accepted) + " accepted, "@
        + text::decimal(skipped) + " skipped"@
}

/// The lines that tell of the target CPUs that rustc rejects: none, if it rejects none.
pub open spec fn probe_report(target: Seq<char>, probes: Seq<CpuProbe>) -> Seq<Seq<char>> {
    let skipped = skip_lines(probes);
    if skipped.len() == 0 {
        skipped
    } else {
        seq![probe_heading(target, accepted_cpus(probes).len(), skipped.len())] + skipped
    }
}

/// How many target CPUs rustc compiles for and how many it rejects.
fn format_heading(target: &str, accepted: u64, skipped: u64) -> (r: String)
    ensures
        r@ == probe_heading(target@, accepted as nat, skipped as nat),
{
    let mut r = "rustc target-cpu probe for ".to_owned();
    r.append(target);
    r.append(": ");
    let number = decimal_text(accepted);
    r.append(number.as_str());
    r.append(" accepted, ");
    let number = decimal_text(skipped);
    r.append(number.as_str());
    r.append(" skipped");
    r
}

/// The line about a target CPU that rustc rejects.
fn format_skip(probe: &CpuProbe) -> (r: String)
    ensures
        r@ == skip_line(*probe),
{
    let mut r = "  skip ".to_owned();
    r.append(probe.cpu.as_str());
    r.append(": ");
    let reason = rejection_reason(probe.stderr.as_str());
    r.append(reason.as_str());
    r
}

/// Splits target CPUs by whether rustc compiles for them. It must compile for one.
pub fn split_probes(target: &str, probes: &[CpuProbe]) -> (r: Result<CpuProbes, SonicError>)
    ensures
        if accepted_cpus(probes@).len() == 0 {
            r matches Err(SonicError::NoPayloadCpus { target: t }) && t@ == target@
        } else {
            r matches Ok(split) && text::texts(split.accepted@) == accepted_cpus(probes@)
                && text::texts(split.report@) == probe_report(target@, probes@)
        },
{
    let mut accepted: Vec<String> = Vec::new();
    let mut skipped: Vec<String> = Vec::new();
    let mut i: usize = 0;
    assert(probes@.take(0) =~= Seq::<CpuProbe>::empty());
    assert(text::texts(accepted@) =~= Seq::<Seq<char>>::empty());
    while i < probes.len()
        invariant
            i <= probes@.len(),
            text::texts(accepted@) == accepted_cpus(probes@.take(i as int)),
            text::texts(skipped@) == skip_lines(probes@.take(i as int)),
        decreases probes@.len() - i,
    {
        let probe = &probes[i];
        let ghost was = (accepted@, skipped@);
        assert(probes@.take(i + 1).drop_last() =~= probes@.take(i as int));
        if probe.accepted {
            accepted.push(probe.cpu.clone());
            assert(text::texts(accepted@) =~= text::texts(was.0).push(probe.cpu@));
        } else {
            skipped.push(format_skip(probe));
            assert(text::texts(skipped@) =~= text::texts(was.1).push(skip_line(*probe)));
        }
        i += 1;
    }
    assert(probes@.take(i as int) =~= probes@);
    assert(text::texts(accepted@).len() == accepted@.len());
    assert(text::texts(skipped@).len() == skipped@.len());
    if accepted.len() == 0 {
        return Err(SonicError::NoPayloadCpus { target: target.to_owned() });
    }
    if skipped.len() == 0 {
        return Ok(CpuProbes { accepted, report: skipped });
    }
    let heading = format_heading(target, accepted.len() as u64, skipped.len() as u64);
    let ghost lines = skipped@;
    let mut report = skipped;
    report.insert(0, heading);
    assert(text::texts(report@) =~= seq![heading@] + text::texts(lines));
    Ok(CpuProbes { accepted, report })
}

/// The arguments with which a guest is booted.
pub open spec fn boot_args(
    arch: Seq<char>,
    cpu: Seq<char>,
    kernel: Seq<char>,
    initrd: Seq<char>,
) -> Seq<Seq<char>> {
    seq![
        "-nographic"@,
        "-no-reboot"@,
        "-m"@,
        "4096"@,
        "-kernel"@,
        kernel,
        "-initrd"@,
        initrd,
    ] + (if arch == "aarch64"@ {
        seq!["-M"@, "virt"@]
    } else {
        Seq::empty()
    }) + seq![
        "-cpu"@,
        cpu,
        "-append"@,
        if arch == "aarch64"@ {
            "console=ttyAMA0 panic=-1 init=/init"@
        } else {
            "console=ttyS0 panic=-1 init=/init"@
        },
    ]
}

/// The arguments with which a guest is booted.
pub fn qemu_args(arch: &str, cpu: &str, kernel: &str, initrd: &str) -> (r: Vec<String>)
    ensures
        text::texts(r@) == boot_args(arch@, cpu@, kernel@, initrd@),
{
    let aarch64 = str_eq(arch, "aarch64");
    let mut args: Vec<String> = Vec::new();
    args.push("-nographic".to_owned());
    args.push("-no-reboot".to_owned());
    args.push("-m".to_owned());
    args.push("4096".to_owned());
    args.push("-kernel".to_owned());
    args.push(kernel.to_owned());
    args.push("-initrd".to_owned());
    args.push(initrd.to_owned());
    if aarch64 {
        args.push("-M".to_owned());
        args.push("virt".to_owned());
    }
    args.push("-cpu".to_owned());
    args.push(cpu.to_owned());
    args.push("-append".to_owned());
    if aarch64 {
        args.push("console=ttyAMA0 panic=-1 init=/init".to_owned());
    } else {
        args.push("console=ttyS0 panic=-1 init=/init".to_owned());
    }
    assert(text::texts(args@) =~= boot_args(arch@, cpu@, kernel@, initrd@));
    args
}

// ---------------------------------------------------------------------------
// What a guest reports

/// What a guest says of the target CPU that rustc finds and the one that the loader selects.
#[derive(Debug)]
pub struct GuestComparison {
    pub native: String,
    pub selected: String,
    pub result: String,
}

/// Why a case failed.
#[derive(Debug)]
pub struct QemuCaseFailure {
    pub comparison: Option<GuestComparison>,
    pub status: String,
    pub message: String,
    pub log_path: Option<String>,
}

/// What stands after `name=` in the first of some lines that begins with it, without the
/// white characters at its ends.
pub open spec fn field(block: Seq<char>, name: Seq<char>) -> Option<Seq<char>> {
    match rustc_output::first_after(text::lines(block), name + "="@) {
        Some(value) => Some(text::trimmed(value)),
        None => None,
    }
}

/// The value of a field.
pub fn parse_guest_field(block: &str, name: &str) -> (r: Option<String>)
    ensures
        text::opt(r) == field(block@, name@),
{
    let mut prefix = name.to_owned();
    prefix.append("=");
    let lines = split_lines(block);
    let ghost all = text::texts(lines@);
    let mut i: usize = 0;
    assert(all.skip(0) =~= all);
    while i < lines.len()
        invariant
            i <= lines@.len(),
            all == text::texts(lines@),
            all == text::lines(block@),
            prefix@ == name@ + "="@,
            rustc_output::first_after(all, prefix@) == rustc_output::first_after(
                all.skip(i as int),
                prefix@,
            ),
        decreases lines@.len() - i,
    {
        assert(all.skip(i as int)[0] == lines@[i as int]@);
        assert(all.skip(i as int).drop_first() =~= all.skip(i + 1));
        if let Some(value) = strip_prefix(lines[i].as_str(), prefix.as_str()) {
            return Some(trim(value.as_str()));
        }
        i += 1;
    }
    None
}

/// The value of a field, or a remark that it is missing.
pub open spec fn field_or_missing(block: Seq<char>, name: Seq<char>) -> Seq<char> {
    match field(block, name) {
        Some(value) => value,
        None => "<missing>"@,
    }
}

/// The value of a field, or a remark that it is missing.
fn guest_field(block: &str, name: &str) -> (r: String)
    ensures
        r@ == field_or_missing(block@, name@),
{
    match parse_guest_field(block, name) {
        Some(value) => value,
        None => "<missing>".to_owned(),
    }
}

/// What stands between the two marks in a guest's output.
pub open spec fn report_block(output: Seq<char>) -> Option<Seq<char>> {
    match text::part_after(output, "CARGO_SONIC_QEMU_BEGIN"@) {
        Some(rest) => Some(
            text::part_before(
                text::part_before(rest, "CARGO_SONIC_QEMU_BEGIN"@),
                "CARGO_SONIC_QEMU_END"@,
            ),
        ),
        None => None,
    }
}

/// What a guest reports, from its output.
pub fn parse_guest_comparison(output: &str) -> (r: Option<GuestComparison>)
    ensures
        match report_block(output@) {
            Some(block) => r matches Some(found) && found.native@ == field_or_missing(
                block,
                "native"@,
            ) && found.selected@ == field_or_missing(block, "selected"@) && found.result@
                == field_or_missing(block, "result"@),
            None => r is None,
        },
{
    match take_after(output, "CARGO_SONIC_QEMU_BEGIN") {
        Some(rest) => {
            let first = take_before(rest.as_str(), "CARGO_SONIC_QEMU_BEGIN");
            let block = take_before(first.as_str(), "CARGO_SONIC_QEMU_END");
            Some(
                GuestComparison {
                    native: guest_field(block.as_str(), "native"),
                    selected: guest_field(block.as_str(), "selected"),
                    result: guest_field(block.as_str(), "result"),
                },
            )
        },
        None => None,
    }
}

/// Whether a guest says that the loader's selection is right.
pub fn guest_passed(output: &str) -> (r: bool)
    ensures
        r == text::has_part(output@, "result=ok"@),
{
    contains(output, "result=ok")
}

/// What to say about a case that failed.
pub open spec fn failure_text(arch: Seq<char>, cpu: Seq<char>, failure: QemuCaseFailure) -> Seq<char> {
    let (native, selected, result) = match failure.comparison {
        Some(c) => (c.native@, c.selected@, c.result@),
        None => ("<unavailable>"@, "<unavailable>"@, "<unavailable>"@),
    };
    arch + " "@ + cpu + ": native="@ + native + " selected="@ + selected + " result="@ + result
        + " status="@ + failure.status@ + " message="@ + failure.message@ + (match failure.log_path {
        Some(path) => " log="@ + path@,
        None => ""@,
    })
}

/// What to say about a case that failed.
pub fn format_qemu_failure_report(arch: &str, cpu: &str, err: &QemuCaseFailure) -> (r: String)
    ensures
        r@ == failure_text(arch@, cpu@, *err),
{
    let (native, selected, result) = match &err.comparison {
        Some(c) => (c.native.as_str(), c.selected.as_str(), c.result.as_str()),
        None => ("<unavailable>", "<unavailable>", "<unavailable>"),
    };
    let mut r = arch.to_owned();
    r.append(" ");
    r.append(cpu);
    r.append(": native=");
    r.append(native);
    r.append(" selected=");
    r.append(selected);
    r.append(" result=");
    r.append(result);
    r.append(" status=");
    r.append(err.status.as_str());
    r.append(" message=");
    r.append(err.message.as_str());
    match &err.log_path {
        Some(path) => {
            let ghost start = r@;
            r.append(" log=");
            r.append(path.as_str());
            assert(r@ =~= start + (" log="@ + path@));
        },
        None => {
            r.append("");
        },
    }
    r
}

/// Whether a character may stand in a file name as it is.
pub open spec fn is_file_char(c: char) -> bool {
    ||| ('a' <= c && c <= 'z')
    ||| ('A' <= c && c <= 'Z')
    ||| ('0' <= c && c <= '9')
    ||| c == '-'
    ||| c == '_'
    ||| c == '.'
}

/// A text as a file name.
pub open spec fn file_name(value: Seq<char>) -> Seq<char> {
    if value.len() == 0 {
        "case"@
    } else {
        value.map_values(
            |c: char|
                if is_file_char(c) {
                    c
                } else {
                    '_'
                },
        )
    }
}

/// A text as a file name.
pub fn sanitize_path_component(value: &str) -> (r: String)
    ensures
        r@ == file_name(value@),
{
    let chars = text::chars_of(value);
    if chars.len() == 0 {
        return "case".to_owned();
    }
    let ghost wanted = file_name(value@);
    let mut out = String::new();
    let mut i: usize = 0;
    assert(out@ =~= wanted.take(0));
    while i < chars.len()
        invariant
            i <= chars@.len(),
            chars@ == value@,
            chars@.len() > 0,
            wanted == file_name(value@),
            out@ == wanted.take(i as int),
        decreases chars@.len() - i,
    {
        let c = chars[i];
        let ghost before = out@;
        let keep = ('a' <= c && c <= 'z') || ('A' <= c && c <= 'Z') || ('0' <= c && c <= '9') || c
            == '-' || c == '_' || c == '.';
        if keep {
            out.push(c);
        } else {
            out.push('_');
        }
        assert(wanted.take(i + 1) =~= before.push(wanted[i as int]));
        i += 1;
    }
    assert(wanted.take(i as int) =~= wanted);
    out
}

/// The summary of a run.
pub fn qemu_summary(passed: u64, failed: u64) -> (r: String)
    ensures
        r@ == "qemu summary: "@ + text::decimal(passed as nat) + " passed, "@ + text::decimal(
            failed as nat,
        ) + " failed"@,
{
    let p = decimal_text(passed);
    let f = decimal_text(failed);
    let mut r = "qemu summary: ".to_owned();
    r.append(p.as_str());
    r.append(" passed, ");
    r.append(f.as_str());
    r.append(" failed");
    r
}

// ---------------------------------------------------------------------------
// The description of the assets

/// The part of the description about the exceptions of an architecture.
pub open spec fn exception_lines(exceptions: Seq<SystemException>) -> Seq<char>
    decreases exceptions.len(),
{
    if exceptions.len() == 0 {
        Seq::empty()
    } else {
        exception_lines(exceptions.drop_last()) + "  - `"@ + exceptions.last().cpu@ + "`: "@
            + exceptions.last().reason@ + "\n"@
    }
}

/// The CPUs of some cases.
pub open spec fn cpus_of(cases: Seq<SystemCase>) -> Seq<Seq<char>> {
    cases.map_values(|case: SystemCase| case.cpu@)
}

/// The part of the description about an architecture.
#[verifier::opaque]
pub open spec fn arch_text(arch: SystemArch) -> Seq<char> {
    "## "@ + arch.name@ + "\n\n- target: `"@ + arch.target@ + "`\n- qemu: `"@ + arch.qemu_system@
        + "`\n- qemu binary: `"@ + arch.qemu_binary@ + "`\n- kernel: `"@ + arch.kernel@
        + "`\n- initrd: `"@ + arch.initrd@
        + "`\n- variants: all rustc target-cpus that compile for this target except `native` and implicit `generic`\n- cpu cases: `"@
        + text::decimal(arch.case@.len()) + "`\n- cpus: `"@ + text::join(
        cpus_of(arch.case@),
        "`, `"@,
    ) + "`\n\n"@ + (if arch.exception@.len() == 0 {
        ""@
    } else {
        "- exceptions: `"@ + text::decimal(arch.exception@.len()) + "`\n"@ + exception_lines(
            arch.exception@,
        ) + "\n"@
    })
}

/// The parts of the description about some architectures.
pub open spec fn arch_texts(arches: Seq<SystemArch>) -> Seq<char>
    decreases arches.len(),
{
    if arches.len() == 0 {
        Seq::empty()
    } else {
        arch_texts(arches.drop_last()) + arch_text(arches.last())
    }
}

/// The part of the description about the exceptions of an architecture.
fn format_exceptions(exceptions: &[SystemException]) -> (r: String)
    ensures
        r@ == exception_lines(exceptions@),
{
    let mut r = String::new();
    let mut i: usize = 0;
    assert(exceptions@.take(0) =~= Seq::<SystemException>::empty());
    assert(r@ =~= Seq::<char>::empty());
    while i < exceptions.len()
        invariant
            i <= exceptions@.len(),
            r@ == exception_lines(exceptions@.take(i as int)),
        decreases exceptions@.len() - i,
    {
        assert(exceptions@.take(i + 1).drop_last() =~= exceptions@.take(i as int));
        r.append("  - `");
        r.append(exceptions[i].cpu.as_str());
        r.append("`: ");
        r.append(exceptions[i].reason.as_str());
        r.append("\n");
        i += 1;
    }
    assert(exceptions@.take(i as int) =~= exceptions@);
    r
}

/// The CPUs of some cases.
fn case_cpus(cases: &[SystemCase]) -> (r: Vec<String>)
    ensures
        text::texts(r@) == cpus_of(cases@),
{
    let mut out: Vec<String> = Vec::new();
    while out.len() < cases.len()
        invariant
            out@.len() <= cases@.len(),
            forall|i: int| 0 <= i < out@.len() ==> (#[trigger] out@[i])@ == cases@[i].cpu@,
        decreases cases@.len() - out@.len(),
    {
        let cpu = cases[out.len()].cpu.clone();
        out.push(cpu);
    }
    assert(text::texts(out@) =~= cpus_of(cases@));
    out
}

/// The part of the description about an architecture.
fn format_arch(arch: &SystemArch) -> (r: String)
    ensures
        r@ == arch_text(*arch),
{
    proof {
        reveal(arch_text);
    }
    let cpus = case_cpus(&arch.case);
    let cpu_list = join_list(&cpus, "`, `");
    let count = decimal_text(arch.case.len() as u64);
    let mut r = "## ".to_owned();
    r.append(arch.name.as_str());
    r.append("\n\n- target: `");
    r.append(arch.target.as_str());
    r.append("`\n- qemu: `");
    r.append(arch.qemu_system.as_str());
    r.append("`\n- qemu binary: `");
    r.append(arch.qemu_binary.as_str());
    r.append("`\n- kernel: `");
    r.append(arch.kernel.as_str());
    r.append("`\n- initrd: `");
    r.append(arch.initrd.as_str());
    r.append(
        "`\n- variants: all rustc target-cpus that compile for this target except `native` and implicit `generic`\n- cpu cases: `",
    );
    r.append(count.as_str());
    r.append("`\n- cpus: `");
    r.append(cpu_list.as_str());
    r.append("`\n\n");
    if arch.exception.len() > 0 {
        let ghost start = r@;
        let number = decimal_text(arch.exception.len() as u64);
        let lines = format_exceptions(&arch.exception);
        r.append("- exceptions: `");
        r.append(number.as_str());
        r.append("`\n");
        r.append(lines.as_str());
        r.append("\n");
        assert(r@ =~= start + ("- exceptions: `"@ + text::decimal(arch.exception@.len()) + "`\n"@
            + exception_lines(arch.exception@) + "\n"@));
    } else {
        r.append("");
    }
    r
}

/// The description of the assets.
pub fn qemu_readme(manifest: &SystemManifest) -> (r: String)
    ensures
        r@
            == "# cargo-sonic system-mode QEMU assets\n\nThis directory is generated by `just qemu-prepare`.\n\nPinned QEMU version: "@
            + manifest.qemu.version@ + "\n\nPinned QEMU source: `"@ + manifest.qemu.source_url@
            + "`\n\nThe correctness suite must boot qemu-system guests and compare the cargo-sonic loader selection with rustc native detection inside the same guest. Host qemu-user and host rustc are intentionally not used as oracles.\n\n"@
            + arch_texts(manifest.arch@),
{
    let mut r =
        "# cargo-sonic system-mode QEMU assets\n\nThis directory is generated by `just qemu-prepare`.\n\nPinned QEMU version: ".to_owned();
    r.append(manifest.qemu.version.as_str());
    r.append("\n\nPinned QEMU source: `");
    r.append(manifest.qemu.source_url.as_str());
    r.append(
        "`\n\nThe correctness suite must boot qemu-system guests and compare the cargo-sonic loader selection with rustc native detection inside the same guest. Host qemu-user and host rustc are intentionally not used as oracles.\n\n",
    );
    let ghost start = r@;
    let mut i: usize = 0;
    assert(manifest.arch@.take(0) =~= Seq::<SystemArch>::empty());
    assert(r@ =~= start + arch_texts(manifest.arch@.take(0)));
    while i < manifest.arch.len()
        invariant
            i <= manifest.arch@.len(),
            r@ == start + arch_texts(manifest.arch@.take(i as int)),
        decreases manifest.arch@.len() - i,
    {
        assert(manifest.arch@.take(i + 1).drop_last() =~= manifest.arch@.take(i as int));
        let part = format_arch(&manifest.arch[i]);
        r.append(part.as_str());
        assert(r@ =~= start + arch_texts(manifest.arch@.take(i + 1)));
        i += 1;
    }
    assert(manifest.arch@.take(i as int) =~= manifest.arch@);
    r
}

// ---------------------------------------------------------------------------
// What the system tests keep to

/// A number of jobs that was asked for counts if it is one; else there are as many as can run
/// in parallel. Not more are started than there are cases, and one if there is any.
pub proof fn jobs_are_counted(
    value: &str,
    parallel: usize,
    number: Option<usize>,
    asked: usize,
    unasked: usize,
    cases: usize,
    workers: usize,
)
    requires
        call_ensures(parse_number, (value,), number),
        call_ensures(qemu_jobs, (Some(value), parallel), asked),
        call_ensures(qemu_jobs, (None, parallel), unasked),
        call_ensures(qemu_worker_count, (asked, cases), workers),
    ensures
        unasked == parallel,
        number matches Some(n) && n > 0 ==> asked == number->0,
        number is None || number->0 == 0 ==> asked == parallel,
        workers <= cases,
        cases > 0 ==> workers > 0,
        asked > 0 ==> workers <= asked && (workers == asked || workers == cases),
{
}

/// A digest is right if the first word of what was printed is the one expected.
pub proof fn digests_are_the_first_word(
    output: &str,
    expected: &str,
    words: Vec<String>,
    r: Result<(), DigestError>,
)
    requires
        call_ensures(split_whitespace, (output,), words),
        call_ensures(check_digest, (output, expected), r),
    ensures
        r is Ok <==> words@.len() > 0 && words@[0]@ == expected@,
        words@.len() == 0 ==> (r matches Err(e) && e is NoDigest),
{
    assert(text::texts(words@).len() == words@.len());
    if words@.len() > 0 {
        assert(text::texts(words@)[0] == words@[0]@);
    }
}

proof fn passing_below_holds(arch: SystemArch, filter: Option<Seq<char>>, n: int, i: usize)
    requires
        0 <= n <= arch.case@.len() <= usize::MAX,
    ensures
        passing_below(arch, filter, n).contains(i) <==> i < n && passes(
            arch.name@,
            arch.case@[i as int].cpu@,
            filter,
        ),
    decreases n,
{
    if n > 0 {
        let before = passing_below(arch, filter, n - 1);
        passing_below_holds(arch, filter, n - 1, i);
        let all = passing_below(arch, filter, n);
        if passes(arch.name@, arch.case@[n - 1].cpu@, filter) {
            assert(all[before.len() as int] == (n - 1) as usize);
            if before.contains(i) {
                let k = choose|k: int| 0 <= k < before.len() && before[k] == i;
                assert(all[k] == i);
            }
            if all.contains(i) && i != n - 1 {
                let k = choose|k: int| 0 <= k < all.len() && all[k] == i;
                assert(before[k] == i);
            }
        }
    }
}

/// A filter lets those cases pass whose architecture and CPU, with a space between, have it as
/// a part; without one all do.
pub proof fn filters_go_by_architecture_and_cpu(
    arch: &SystemArch,
    filter: &str,
    i: usize,
    name: &str,
    held: bool,
    all: Vec<usize>,
    some: Vec<usize>,
)
    requires
        call_ensures(filtered_cases, (arch, None), all),
        call_ensures(filtered_cases, (arch, Some(filter)), some),
        i < arch.case@.len() <= usize::MAX,
        name@ == arch.name@ + " "@ + arch.case@[i as int].cpu@,
        call_ensures(text::contains, (name, filter), held),
    ensures
        all@.contains(i),
        some@.contains(i) <==> held || arch.case@[i as int].cpu@ == filter@,
{
    let args = (arch, Some(filter));
    passing_below_holds(*arch, None, arch.case@.len() as int, i);
    passing_below_holds(*arch, Some(filter@), arch.case@.len() as int, i);
    assert(opt_str(args.1) == Some(filter@));
}

/// The value of a field is what its first line says, without the white characters around it.
pub proof fn comparisons_are_read_field_by_field(
    output: &str,
    rest: Option<String>,
    rest_text: &str,
    first: String,
    first_text: &str,
    block: String,
    block_text: &str,
    native: Option<String>,
    selected: Option<String>,
    result: Option<String>,
    r: Option<GuestComparison>,
)
    requires
        call_ensures(take_after, (output, "CARGO_SONIC_QEMU_BEGIN"), rest),
        rest matches Some(t) ==> t@ == rest_text@,
        call_ensures(take_before, (rest_text, "CARGO_SONIC_QEMU_BEGIN"), first),
        first_text@ == first@,
        call_ensures(take_before, (first_text, "CARGO_SONIC_QEMU_END"), block),
        block_text@ == block@,
        call_ensures(parse_guest_field, (block_text, "native"), native),
        call_ensures(parse_guest_field, (block_text, "selected"), selected),
        call_ensures(parse_guest_field, (block_text, "result"), result),
        call_ensures(parse_guest_comparison, (output,), r),
    ensures
        rest is None <==> r is None,
        r matches Some(found) ==> {
            &&& native is Some ==> found.native@ == native->0@
            &&& native is None ==> found.native@ == "<missing>"@
            &&& selected is Some ==> found.selected@ == selected->0@
            &&& selected is None ==> found.selected@ == "<missing>"@
            &&& result is Some ==> found.result@ == result->0@
            &&& result is None ==> found.result@ == "<missing>"@
        },
{
}

/// A file name keeps letters, digits, dashes, underscores and dots, and has an underscore for
/// everything else.
pub proof fn file_names_are_plain(value: &str, r: String, i: int)
    requires
        call_ensures(sanitize_path_component, (value,), r),
    ensures
        value@.len() == 0 ==> r@ == "case"@,
        value@.len() > 0 ==> r@.len() == value@.len(),
        0 <= i < value@.len() ==> {
            let c = value@[i];
            if 'a' <= c <= 'z' || 'A' <= c <= 'Z' || '0' <= c <= '9' || c == '-' || c == '_' || c
                == '.' {
                r@[i] == c
            } else {
                r@[i] == '_'
            }
        },
{
}

proof fn accepted_holds(probes: Seq<CpuProbe>, i: int)
    requires
        0 <= i < probes.len(),
        probes[i].accepted,
    ensures
        accepted_cpus(probes).contains(probes[i].cpu@),
    decreases probes.len(),
{
    let before = accepted_cpus(probes.drop_last());
    let all = accepted_cpus(probes);
    if i == probes.len() - 1 {
        assert(all[before.len() as int] == probes[i].cpu@);
    } else {
        accepted_holds(probes.drop_last(), i);
        assert(probes.drop_last()[i] == probes[i]);
        let k = choose|k: int| 0 <= k < before.len() && before[k] == probes[i].cpu@;
        assert(all[k] == probes[i].cpu@);
    }
}

proof fn accepted_was_accepted(probes: Seq<CpuProbe>, k: int) -> (i: int)
    requires
        0 <= k < accepted_cpus(probes).len(),
    ensures
        0 <= i < probes.len(),
        probes[i].accepted,
        probes[i].cpu@ == accepted_cpus(probes)[k],
    decreases probes.len(),
{
    let before = accepted_cpus(probes.drop_last());
    if k < before.len() {
        let i = accepted_was_accepted(probes.drop_last(), k);
        assert(probes.drop_last()[i] == probes[i]);
        i
    } else {
        probes.len() - 1
    }
}

/// Payloads are built for the target CPUs that rustc compiled for, and no others.
pub proof fn accepted_cpus_get_payloads(
    target: &str,
    probes: &[CpuProbe],
    r: Result<CpuProbes, SonicError>,
    cpu: Seq<char>,
)
    requires
        call_ensures(split_probes, (target, probes), r),
    ensures
        r is Ok <==> exists|i: int| 0 <= i < probes@.len() && (#[trigger] probes@[i]).accepted,
        r matches Ok(split) ==> (text::texts(split.accepted@).contains(cpu) <==> exists|i: int|
            0 <= i < probes@.len() && (#[trigger] probes@[i]).accepted && probes@[i].cpu@ == cpu),
{
    let args = (target, probes);
    let all = accepted_cpus(args.1@);
    if exists|i: int| 0 <= i < probes@.len() && (#[trigger] probes@[i]).accepted {
        let i = choose|i: int| 0 <= i < probes@.len() && (#[trigger] probes@[i]).accepted;
        accepted_holds(probes@, i);
    }
    if all.len() > 0 {
        let i = accepted_was_accepted(probes@, 0);
        assert(probes@[i].accepted);
    }
    if all.contains(cpu) {
        let k = choose|k: int| 0 <= k < all.len() && all[k] == cpu;
        let i = accepted_was_accepted(probes@, k);
        assert(probes@[i].accepted && probes@[i].cpu@ == cpu);
    }
    if exists|i: int|
        0 <= i < probes@.len() && (#[trigger] probes@[i]).accepted && probes@[i].cpu@ == cpu {
        let i = choose|i: int|
            0 <= i < probes@.len() && (#[trigger] probes@[i]).accepted && probes@[i].cpu@ == cpu;
        accepted_holds(probes@, i);
    }
}

/// A guest is booted with its kernel and initial file system, as the CPU that is tested, with
/// the console of its architecture.
pub proof fn guests_are_booted_as_the_cpu(
    arch: &str,
    cpu: &str,
    kernel: &str,
    initrd: &str,
    r: Vec<String>,
)
    requires
        call_ensures(qemu_args, (arch, cpu, kernel, initrd), r),
    ensures
        ({
            let args = text::texts(r@);
            let virt = if arch@ == "aarch64"@ {
                2int
            } else {
                0
            };
            &&& args.len() == 12 + virt
            &&& args.subrange(0, 4) == seq!["-nographic"@, "-no-reboot"@, "-m"@, "4096"@]
            &&& args.subrange(4, 8) == seq!["-kernel"@, kernel@, "-initrd"@, initrd@]
            &&& arch@ == "aarch64"@ ==> args.subrange(8, 10) == seq!["-M"@, "virt"@]
            &&& args.subrange(8 + virt, 11 + virt) == seq!["-cpu"@, cpu@, "-append"@]
            &&& arch@ == "aarch64"@ ==> args.last() == "console=ttyAMA0 panic=-1 init=/init"@
            &&& arch@ != "aarch64"@ ==> args.last() == "console=ttyS0 panic=-1 init=/init"@
        }),
{
}

} // verus!
