//! How rustc is asked about a target and its CPUs.
use crate::payload_names::{self, sanitize_cpu};
use crate::text::{self, decimal_text, str_list};
use crate::text_laws;
use vstd::prelude::*;
use vstd::string::StringExecFns;

verus! {

/// The arguments that make rustc print its version and its host.
pub fn version_args() -> (r: Vec<String>)
    ensures
        text::texts(r@) == seq!["-vV"@],
{
    let r = str_list(&["-vV"]);
    assert(text::texts(r@) =~= seq!["-vV"@]);
    r
}

/// The flag that names a target CPU.
pub open spec fn cpu_flag(cpu: Seq<char>) -> Seq<char> {
    "target-cpu="@ + cpu
}

/// The flag that names a target CPU.
fn target_cpu_flag(cpu: &str) -> (r: String)
    ensures
        r@ == cpu_flag(cpu@),
{
    let mut r = "target-cpu=".to_owned();
    r.append(cpu);
    r
}

/// The arguments that make rustc print the configuration of a target, for one of its CPUs if
/// one is given.
pub fn cfg_args(target: &str, cpu: Option<&str>) -> (r: Vec<String>)
    ensures
        text::texts(r@) == seq!["--print"@, "cfg"@, "--target"@, target@] + (match cpu {
            Some(cpu) => seq!["-C"@, cpu_flag(cpu@)],
            None => Seq::empty(),
        }),
{
    match cpu {
        Some(cpu) => {
            let flag = target_cpu_flag(cpu);
            let r = str_list(&["--print", "cfg", "--target", target, "-C", flag.as_str()]);
            assert(text::texts(r@) =~= seq!["--print"@, "cfg"@, "--target"@, target@] + seq![
                "-C"@,
                cpu_flag(cpu@),
            ]);
            r
        },
        None => {
            let r = str_list(&["--print", "cfg", "--target", target]);
            assert(text::texts(r@) =~= seq!["--print"@, "cfg"@, "--target"@, target@] + Seq::<
                Seq<char>,
            >::empty());
            r
        },
    }
}

/// The arguments that make rustc print the CPUs of a target.
pub fn target_cpus_args(target: &str) -> (r: Vec<String>)
    ensures
        text::texts(r@) == seq!["--print"@, "target-cpus"@, "--target"@, target@],
{
    let r = str_list(&["--print", "target-cpus", "--target", target]);
    assert(text::texts(r@) =~= seq!["--print"@, "target-cpus"@, "--target"@, target@]);
    r
}

/// The targets whose CPUs are known to exist.
pub const KNOWN_TARGETS: [&'static str; 4] = [
    "x86_64-unknown-linux-gnu",
    "x86_64-unknown-linux-musl",
    "aarch64-unknown-linux-gnu",
    "aarch64-unknown-linux-musl",
];

/// The library that rustc is made to compile to see whether it accepts a target CPU.
pub const PROBE_SOURCE: &'static str =
    "#![no_std]\n#[no_mangle]\npub extern \"C\" fn cargo_sonic_probe() {}\n";

/// The name of the object file of such a try, for a process.
pub fn probe_object_name(process: u32, cpu: &str) -> (r: String)
    ensures
        r@ == "cargo-sonic-target-cpu-probe-"@ + text::decimal(process as nat) + "-"@
            + payload_names::safe_name(cpu@) + ".o"@,
{
    let number = decimal_text(process as u64);
    let name = sanitize_cpu(cpu);
    let mut r = "cargo-sonic-target-cpu-probe-".to_owned();
    r.append(number.as_str());
    r.append("-");
    r.append(name.as_str());
    r.append(".o");
    r
}

/// The arguments that make rustc compile a library from its input for a target CPU.
pub fn probe_args(target: &str, cpu: &str, object: &str) -> (r: Vec<String>)
    ensures
        text::texts(r@) == seq![
            "--crate-name"@,
            "cargo_sonic_target_cpu_probe"@,
            "--crate-type"@,
            "lib"@,
            "--emit"@,
            "obj"@,
            "--target"@,
            target@,
            "-C"@,
            cpu_flag(cpu@),
            "-C"@,
            "panic=abort"@,
            "-"@,
            "-o"@,
            object@,
        ],
{
    let flag = target_cpu_flag(cpu);
    let r = str_list(
        &[
            "--crate-name",
            "cargo_sonic_target_cpu_probe",
            "--crate-type",
            "lib",
            "--emit",
            "obj",
            "--target",
            target,
            "-C",
            flag.as_str(),
            "-C",
            "panic=abort",
            "-",
            "-o",
            object,
        ],
    );
    assert(text::texts(r@) =~= seq![
        "--crate-name"@,
        "cargo_sonic_target_cpu_probe"@,
        "--crate-type"@,
        "lib"@,
        "--emit"@,
        "obj"@,
        "--target"@,
        target@,
        "-C"@,
        cpu_flag(cpu@),
        "-C"@,
        "panic=abort"@,
        "-"@,
        "-o"@,
        object@,
    ]);
    r
}

/// rustc is asked about the target that was named, and about a CPU of it by the flag that
/// builds use.
pub proof fn rustc_is_asked_about_the_target(
    target: &str,
    cpu: &str,
    plain: Vec<String>,
    tuned: Vec<String>,
    listing: Vec<String>,
    version: Vec<String>,
)
    requires
        call_ensures(cfg_args, (target, None), plain),
        call_ensures(cfg_args, (target, Some(cpu)), tuned),
        call_ensures(target_cpus_args, (target,), listing),
        call_ensures(version_args, (), version),
    ensures
        text::texts(plain@) == seq!["--print"@, "cfg"@, "--target"@, target@],
        text::texts(tuned@) == text::texts(plain@) + seq!["-C"@, "target-cpu="@ + cpu@],
        text::texts(listing@) == text::texts(plain@).update(1, "target-cpus"@),
        text::texts(version@) == seq!["-vV"@],
{
    assert(text::texts(plain@) =~= seq!["--print"@, "cfg"@, "--target"@, target@]);
}

/// Two processes, or two CPUs with different names, try rustc with object files of different
/// names.
pub proof fn tries_do_not_mix(p: u32, q: u32, a: &str, b: &str, x: String, y: String)
    requires
        call_ensures(probe_object_name, (p, a), x),
        call_ensures(probe_object_name, (q, b), y),
        x@ == y@,
    ensures
        p == q,
        a@ == b@,
{
    let front = "cargo-sonic-target-cpu-probe-"@;
    let (m, n) = (text::decimal(p as nat), text::decimal(q as nat));
    let (s, t) = (payload_names::safe_name(a@), payload_names::safe_name(b@));
    reveal_strlit("-");
    reveal_strlit(".o");
    text_laws::decimal_reads_back(p as nat);
    text_laws::decimal_reads_back(q as nat);
    let u = m + "-"@ + s;
    let v = n + "-"@ + t;
    assert(x@ =~= front + u + ".o"@);
    assert(y@ =~= front + v + ".o"@);
    assert(x@.subrange(front.len() as int, x@.len() - 2) =~= u);
    assert(y@.subrange(front.len() as int, y@.len() - 2) =~= v);
    assert(u == v);
    if m.len() < n.len() {
        assert(u[m.len() as int] == '-');
        assert(v[m.len() as int] == n[m.len() as int]);
        assert(false);
    } else if n.len() < m.len() {
        assert(v[n.len() as int] == '-');
        assert(u[n.len() as int] == m[n.len() as int]);
        assert(false);
    }
    assert(u.take(m.len() as int) =~= m);
    assert(v.take(n.len() as int) =~= n);
    assert(u.skip(m.len() as int + 1) =~= s);
    assert(v.skip(n.len() as int + 1) =~= t);
    payload_names::safe_names_are_injective(a@, b@);
}

} // verus!
