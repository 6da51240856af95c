//! Builds whose target CPUs are configured in the package manifest. `generic` is the
//! baseline of every architecture.
use crate::build_plan::{self, build_args, feature_table, push_option};
use crate::classify::{self, analyze_warnings, classify_aarch64, CpuFeatures};
use crate::error::SonicError;
use crate::feature_mask::{self, Feature, FeatureMask};
use crate::paths::{self, file_in, output_root, payload_dir};
use crate::plan::{self, find_answer, supported_arch, CpuAnswer, RustcAnswers, VariantBuildJob};
use crate::probe;
use crate::runtime_features::{self, feature_mask};
use crate::rustc_output::{
    self, known_supported_cpu_union, parse_rustc_target_cpus, parse_target_features_from_rustc_cfg,
    rustc_default_target,
};
use crate::rustflags::{self, append_encoded_rustflag, target_cpu_rustflag};
use crate::select::TargetKind;
use crate::target_cpus;
use crate::text::{
    self, chars_of, contains, join_list, list_contains, parse_small_number,
    starts_with, str_eq, strip_prefix, trim_start_matches,
};
use crate::text_laws;
use vstd::prelude::*;
use vstd::string::StringExecFns;

verus! {

// ---------------------------------------------------------------------------
// Cargo arguments

/// What the Cargo arguments say.
#[derive(Debug)]
pub struct CargoArgs {
    pub release: bool,
    pub target: Option<String>,
    pub bin: Option<String>,
    pub package: Option<String>,
    pub manifest_path: Option<String>,
    /// The arguments to hand on to Cargo.
    pub forwarded: Vec<String>,
}

/// An option that takes a value.
#[derive(Debug, Clone, Copy, PartialEq, Eq, Structural)]
pub enum ArgOption {
    Target,
    Bin,
    Package,
    ManifestPath,
}

/// The option that an argument names, if its value is the next argument.
pub open spec fn option_named(arg: Seq<char>) -> Option<ArgOption> {
    if arg == "--target"@ {
        Some(ArgOption::Target)
    } else if arg == "--bin"@ {
        Some(ArgOption::Bin)
    } else if arg == "--package"@ || arg == "-p"@ {
        Some(ArgOption::Package)
    } else if arg == "--manifest-path"@ {
        Some(ArgOption::ManifestPath)
    } else {
        None
    }
}

/// The option and the value that one argument gives.
pub open spec fn option_joined(arg: Seq<char>) -> Option<(ArgOption, Seq<char>)> {
    if text::has_prefix(arg, "--target="@) {
        Some((ArgOption::Target, arg.skip("--target="@.len() as int)))
    } else if text::has_prefix(arg, "--bin="@) {
        Some((ArgOption::Bin, arg.skip("--bin="@.len() as int)))
    } else if text::has_prefix(arg, "--package="@) {
        Some((ArgOption::Package, arg.skip("--package="@.len() as int)))
    } else if text::has_prefix(arg, "--manifest-path="@) {
        Some((ArgOption::ManifestPath, arg.skip("--manifest-path="@.len() as int)))
    } else {
        None
    }
}

/// One step in the reading of arguments: the option that it sets, and the arguments that it
/// takes up and hands on.
pub struct ArgRead {
    pub set: Option<(ArgOption, Seq<char>)>,
    pub words: Seq<Seq<char>>,
}

/// The reading of arguments, step by step. An option without a value is dropped.
pub open spec fn reading(args: Seq<Seq<char>>) -> Seq<ArgRead>
    decreases args.len(),
{
    if args.len() == 0 {
        Seq::empty()
    } else {
        match option_named(args[0]) {
            Some(option) => if args.len() > 1 {
                seq![
                    (ArgRead { set: Some((option, args[1])), words: args.take(2) }),
                ] + reading(args.skip(2))
            } else {
                Seq::empty()
            },
            None => seq![
                (ArgRead { set: option_joined(args[0]), words: args.take(1) }),
            ] + reading(args.skip(1)),
        }
    }
}

/// The last value that an option is set to.
pub open spec fn last_value(reads: Seq<ArgRead>, option: ArgOption) -> Option<Seq<char>>
    decreases reads.len(),
{
    if reads.len() == 0 {
        None
    } else {
        match reads.last().set {
            Some((o, value)) => if o == option {
                Some(value)
            } else {
                last_value(reads.drop_last(), option)
            },
            None => last_value(reads.drop_last(), option),
        }
    }
}

/// The arguments to hand on: all but those about the manifest.
pub open spec fn handed_on(reads: Seq<ArgRead>) -> Seq<Seq<char>>
    decreases reads.len(),
{
    if reads.len() == 0 {
        Seq::empty()
    } else {
        let before = handed_on(reads.drop_last());
        match reads.last().set {
            Some((ArgOption::ManifestPath, _)) => before,
            _ => before + reads.last().words,
        }
    }
}

/// Whether the arguments ask for the release profile.
pub open spec fn asks_release(reads: Seq<ArgRead>) -> bool {
    exists|i: int|
        0 <= i < reads.len() && (#[trigger] reads[i]).set is None && reads[i].words == seq![
            "--release"@,
        ]
}

/// Whether `got` is what the steps of a reading say.
pub open spec fn says(reads: Seq<ArgRead>, got: CargoArgs) -> bool {
    &&& got.release == asks_release(reads)
    &&& text::opt(got.target) == last_value(reads, ArgOption::Target)
    &&& text::opt(got.bin) == last_value(reads, ArgOption::Bin)
    &&& text::opt(got.package) == last_value(reads, ArgOption::Package)
    &&& text::opt(got.manifest_path) == last_value(reads, ArgOption::ManifestPath)
    &&& text::texts(got.forwarded@) == handed_on(reads)
}

/// The option that an argument names, if its value is the next argument.
fn named_option(arg: &str) -> (r: Option<ArgOption>)
    ensures
        r == option_named(arg@),
{
    if str_eq(arg, "--target") {
        Some(ArgOption::Target)
    } else if str_eq(arg, "--bin") {
        Some(ArgOption::Bin)
    } else if str_eq(arg, "--package") || str_eq(arg, "-p") {
        Some(ArgOption::Package)
    } else if str_eq(arg, "--manifest-path") {
        Some(ArgOption::ManifestPath)
    } else {
        None
    }
}

/// The option and the value that one argument gives.
fn joined_option(arg: &str) -> (r: Option<(ArgOption, String)>)
    ensures
        match r {
            Some((option, value)) => option_joined(arg@) == Some((option, value@)),
            None => option_joined(arg@) is None,
        },
{
    if let Some(value) = strip_prefix(arg, "--target=") {
        return Some((ArgOption::Target, value));
    }
    if let Some(value) = strip_prefix(arg, "--bin=") {
        return Some((ArgOption::Bin, value));
    }
    if let Some(value) = strip_prefix(arg, "--package=") {
        return Some((ArgOption::Package, value));
    }
    if let Some(value) = strip_prefix(arg, "--manifest-path=") {
        return Some((ArgOption::ManifestPath, value));
    }
    None
}

/// Sets an option.
fn set_option(args: CargoArgs, option: ArgOption, value: String) -> (r: CargoArgs)
    ensures
        r.release == args.release,
        r.forwarded@ == args.forwarded@,
        text::opt(r.target) == (if option == ArgOption::Target {
            Some(value@)
        } else {
            text::opt(args.target)
        }),
        text::opt(r.bin) == (if option == ArgOption::Bin {
            Some(value@)
        } else {
            text::opt(args.bin)
        }),
        text::opt(r.package) == (if option == ArgOption::Package {
            Some(value@)
        } else {
            text::opt(args.package)
        }),
        text::opt(r.manifest_path) == (if option == ArgOption::ManifestPath {
            Some(value@)
        } else {
            text::opt(args.manifest_path)
        }),
{
    match option {
        ArgOption::Target => CargoArgs { target: Some(value), ..args },
        ArgOption::Bin => CargoArgs { bin: Some(value), ..args },
        ArgOption::Package => CargoArgs { package: Some(value), ..args },
        ArgOption::ManifestPath => CargoArgs { manifest_path: Some(value), ..args },
    }
}

proof fn one_more_read(reads: Seq<ArgRead>, read: ArgRead)
    ensures
        reads.push(read).drop_last() == reads,
        asks_release(reads.push(read)) == (asks_release(reads) || (read.set is None && read.words
            == seq!["--release"@])),
{
    let more = reads.push(read);
    assert(more.drop_last() =~= reads);
    if asks_release(reads) {
        let i = choose|i: int|
            0 <= i < reads.len() && (#[trigger] reads[i]).set is None && reads[i].words == seq![
                "--release"@,
            ];
        assert(more[i].set is None);
    }
    if read.set is None && read.words == seq!["--release"@] {
        assert(more[reads.len() as int].set is None);
    }
    if asks_release(more) {
        let i = choose|i: int|
            0 <= i < more.len() && (#[trigger] more[i]).set is None && more[i].words == seq![
                "--release"@,
            ];
        if i < reads.len() {
            assert(reads[i].set is None);
        }
    }
}

/// What the Cargo arguments say.
pub fn parse_cargo_args(args: &[String]) -> (r: CargoArgs)
    ensures
        says(reading(text::texts(args@)), r),
{
    let ghost all = text::texts(args@);
    let ghost mut done: Seq<ArgRead> = Seq::empty();
    let mut out = CargoArgs {
        release: false,
        target: None,
        bin: None,
        package: None,
        manifest_path: None,
        forwarded: Vec::new(),
    };
    let n: usize = args.len();
    let mut i: usize = 0;
    proof {
        assert(text::texts(out.forwarded@) =~= Seq::<Seq<char>>::empty());
        assert(all.skip(0) =~= all);
        assert(done + reading(all) =~= reading(all));
    }
    while i < n
        invariant
            i <= n,
            n == args@.len(),
            all == text::texts(args@),
            says(done, out),
            done + reading(all.skip(i as int)) == reading(all),
        decreases n - i,
    {
        let ghost rest = all.skip(i as int);
        let arg = args[i].as_str();
        let ghost was = done;
        let ghost before = out;
        assert(rest[0] == arg@);
        match named_option(arg) {
            Some(option) => {
                if i + 1 < n {
                    let ghost read = ArgRead { set: Some((option, rest[1])), words: rest.take(2) };
                    proof {
                        assert(rest[1] == args@[i + 1]@);
                        assert(rest.skip(2) =~= all.skip(i + 2));
                        one_more_read(done, read);
                        assert(done + (seq![read] + reading(rest.skip(2))) =~= done.push(read)
                            + reading(rest.skip(2)));
                        done = done.push(read);
                    }
                    if option != ArgOption::ManifestPath {
                        out.forwarded.push(args[i].clone());
                        out.forwarded.push(args[i + 1].clone());
                        assert(text::texts(out.forwarded@) =~= text::texts(before.forwarded@)
                            + rest.take(2));
                    }
                    out = set_option(out, option, args[i + 1].clone());
                    i += 2;
                } else {
                    proof {
                        assert(rest.len() == 1);
                        assert(all.skip(i + 1) =~= Seq::<Seq<char>>::empty());
                    }
                    i += 1;
                }
            },
            None => {
                let ghost read = ArgRead { set: option_joined(rest[0]), words: rest.take(1) };
                proof {
                    assert(rest.take(1) =~= seq![arg@]);
                    assert(rest.skip(1) =~= all.skip(i + 1));
                    one_more_read(done, read);
                    assert(done + (seq![read] + reading(rest.skip(1))) =~= done.push(read)
                        + reading(rest.skip(1)));
                    done = done.push(read);
                    if read.words == seq!["--release"@] {
                        assert(read.words[0] == "--release"@);
                    }
                }
                match joined_option(arg) {
                    Some((option, value)) => {
                        if option != ArgOption::ManifestPath {
                            out.forwarded.push(args[i].clone());
                            assert(text::texts(out.forwarded@) =~= text::texts(before.forwarded@)
                                + rest.take(1));
                        }
                        out = set_option(out, option, value);
                    },
                    None => {
                        if str_eq(arg, "--release") {
                            out.release = true;
                        }
                        out.forwarded.push(args[i].clone());
                        assert(text::texts(out.forwarded@) =~= text::texts(before.forwarded@)
                            + rest.take(1));
                    },
                }
                i += 1;
            },
        }
    }
    proof {
        assert(all.skip(i as int) =~= Seq::<Seq<char>>::empty());
        assert(done + reading(all.skip(i as int)) =~= done);
    }
    out
}

/// The manifest to build from: the one that is given, else that of the Cargo arguments.
pub fn requested_manifest(given: &Option<String>, args: &CargoArgs) -> (r: Option<String>)
    ensures
        text::opt(r) == build_plan::first_choice(text::opt(*given), text::opt(args.manifest_path)),
{
    match given {
        Some(path) => Some(path.clone()),
        None => match &args.manifest_path {
            Some(path) => Some(path.clone()),
            None => None,
        },
    }
}

/// The target of a build: the one that the Cargo arguments name, otherwise rustc's host.
pub fn command_target(args: &CargoArgs, version: &str) -> (r: Result<String, SonicError>)
    ensures
        match probe::chosen_target(text::opt(args.target), version@) {
            Some(target) => r matches Ok(t) && t@ == target,
            None => r matches Err(e) && e is HostTargetUnknown,
        },
{
    match &args.target {
        Some(target) => Ok(target.clone()),
        None => rustc_default_target(version),
    }
}

// ---------------------------------------------------------------------------
// Target CPUs

/// The target CPUs that a manifest configures: those of the package, else those of the
/// workspace. `None` stands for a manifest without a `sonic` table, `Some(None)` for a
/// `sonic` table without `target-cpus`.
pub fn effective_target_cpus(
    package: Option<Option<Vec<String>>>,
    workspace: Option<Option<Vec<String>>>,
) -> (r: Result<Vec<String>, SonicError>)
    ensures
        match package {
            Some(Some(cpus)) => r matches Ok(found) && found@ == cpus@,
            Some(None) => r matches Err(e) && e is PackageCpusMissing,
            None => match workspace {
                Some(Some(cpus)) => r matches Ok(found) && found@ == cpus@,
                Some(None) => r matches Err(e) && e is WorkspaceCpusMissing,
                None => r matches Err(e) && e is CpusNotConfigured,
            },
        },
{
    match package {
        Some(Some(cpus)) => Ok(cpus),
        Some(None) => Err(SonicError::PackageCpusMissing),
        None => match workspace {
            Some(Some(cpus)) => Ok(cpus),
            Some(None) => Err(SonicError::WorkspaceCpusMissing),
            None => Err(SonicError::CpusNotConfigured),
        },
    }
}

/// The configured target CPUs, with `generic` in front unless they name it themselves.
pub open spec fn with_generic(cpus: Seq<Seq<char>>) -> Seq<Seq<char>> {
    if cpus.contains("generic"@) {
        cpus
    } else {
        seq!["generic"@] + cpus
    }
}

/// The configured target CPUs with `generic` among them. `native` is rejected.
pub fn normalize_target_cpus(cpus: Vec<String>) -> (r: Result<Vec<String>, SonicError>)
    ensures
        if text::texts(cpus@).contains("native"@) {
            r matches Err(e) && e is NativeRejected
        } else {
            r matches Ok(all) && text::texts(all@) == with_generic(text::texts(cpus@))
        },
{
    if list_contains(&cpus, "native") {
        return Err(SonicError::NativeRejected);
    }
    if list_contains(&cpus, "generic") {
        return Ok(cpus);
    }
    let ghost given = text::texts(cpus@);
    let mut all = cpus;
    all.insert(0, "generic".to_owned());
    assert(text::texts(all@) =~= seq!["generic"@] + given);
    Ok(all)
}

/// The accepted target CPUs of a list.
pub open spec fn accepted_of(
    configured: Seq<Seq<char>>,
    current_valid: Seq<Seq<char>>,
) -> Seq<Seq<char>> {
    configured.filter(|cpu: Seq<char>| target_cpus::accepted(cpu, current_valid))
}

/// The target CPUs of `configured` that are valid for the current target. One that only
/// another target knows is left out; `native`, and one that no target knows, is an error.
pub fn filter_target_cpus(
    configured: &[String],
    current_valid: &[String],
    known_union: &[String],
) -> (r: Result<Vec<String>, SonicError>)
    ensures
        ({
            let names = text::texts(configured@);
            let current = text::texts(current_valid@);
            let union = text::texts(known_union@);
            match r {
                Ok(cpus) => {
                    &&& forall|i: int| !target_cpus::first_rejected(names, current, union, i)
                    &&& text::texts(cpus@) == accepted_of(names, current)
                },
                Err(e) => exists|i: int| #[trigger]
                    target_cpus::first_rejected(names, current, union, i) && (if names[i]
                        == "native"@ {
                        e is NativeFiltered
                    } else {
                        e matches SonicError::UnknownTargetCpu { cpu } && cpu@ == names[i]
                    }),
            }
        }),
{
    let ghost names = text::texts(configured@);
    let ghost current = text::texts(current_valid@);
    let ghost union = text::texts(known_union@);
    let ghost accept = |cpu: Seq<char>| target_cpus::accepted(cpu, current);
    let mut out: Vec<String> = Vec::new();
    let mut i: usize = 0;
    proof {
        reveal(Seq::filter);
        assert(names.take(0) =~= Seq::<Seq<char>>::empty());
        assert(text::texts(out@) =~= accepted_of(names.take(0), current));
        reveal_strlit("generic");
        reveal_strlit("native");
        assert("generic"@.len() != "native"@.len());
    }
    while i < configured.len()
        invariant
            i <= configured@.len(),
            "generic"@ != "native"@,
            names == text::texts(configured@),
            current == text::texts(current_valid@),
            union == text::texts(known_union@),
            accept == (|cpu: Seq<char>| target_cpus::accepted(cpu, current)),
            text::texts(out@) == accepted_of(names.take(i as int), current),
            forall|j: int|
                0 <= j < i ==> #[trigger] names[j] != "native"@ && !target_cpus::is_unknown(
                    names[j],
                    current,
                    union,
                ),
        decreases configured@.len() - i,
    {
        let cpu = configured[i].as_str();
        proof {
            assert(names[i as int] == cpu@);
            runtime_features::filter_one_more(names, i as int, accept);
        }
        let keep = if str_eq(cpu, "generic") {
            true
        } else if str_eq(cpu, "native") {
            assert(target_cpus::first_rejected(names, current, union, i as int));
            return Err(SonicError::NativeFiltered);
        } else if list_contains(current_valid, cpu) {
            true
        } else if list_contains(known_union, cpu) {
            false
        } else {
            assert(target_cpus::first_rejected(names, current, union, i as int));
            return Err(SonicError::UnknownTargetCpu { cpu: cpu.to_owned() });
        };
        if keep {
            let ghost before = text::texts(out@);
            out.push(configured[i].clone());
            assert(text::texts(out@) =~= before.push(cpu@));
        }
        i += 1;
    }
    assert(names.take(i as int) =~= names);
    Ok(out)
}

// ---------------------------------------------------------------------------
// Features

/// The features of a list other than `crt-static`, which is a matter of linking.
pub open spec fn without_linking(features: Seq<Seq<char>>) -> Seq<Seq<char>> {
    features.filter(|f: Seq<char>| f != "crt-static"@)
}

/// The features of a list other than `crt-static`.
pub fn filter_runtime_features(features: &[String]) -> (r: Vec<String>)
    ensures
        text::texts(r@) == without_linking(text::texts(features@)),
{
    let ghost all = text::texts(features@);
    let ghost p = |f: Seq<char>| f != "crt-static"@;
    let mut out: Vec<String> = Vec::new();
    let mut i: usize = 0;
    proof {
        reveal(Seq::filter);
        assert(all.take(0) =~= Seq::<Seq<char>>::empty());
        assert(text::texts(out@) =~= without_linking(all.take(0)));
    }
    while i < features.len()
        invariant
            i <= features@.len(),
            all == text::texts(features@),
            p == (|f: Seq<char>| f != "crt-static"@),
            text::texts(out@) == without_linking(all.take(i as int)),
        decreases features@.len() - i,
    {
        proof {
            runtime_features::filter_one_more(all, i as int, p);
        }
        if !str_eq(features[i].as_str(), "crt-static") {
            let ghost before = text::texts(out@);
            out.push(features[i].clone());
            assert(text::texts(out@) =~= before.push(all[i as int]));
        }
        i += 1;
    }
    assert(all.take(i as int) =~= all);
    out
}

/// The features of a list that the crate does not know.
pub open spec fn unknown_features(features: Seq<Seq<char>>) -> Seq<Seq<char>> {
    features.filter(|f: Seq<char>| !runtime_features::is_known(f))
}

/// The crate must know all features of a list.
pub fn unsupported_runtime_features(features: &[String]) -> (r: Result<(), SonicError>)
    ensures
        match r {
            Ok(_) => unknown_features(text::texts(features@)).len() == 0,
            Err(e) => {
                let unknown = unknown_features(text::texts(features@));
                unknown.len() > 0 && (e matches SonicError::UnsupportedFeatures { features: names }
                    && names@ == text::join(unknown, ", "@))
            },
        },
{
    let ghost all = text::texts(features@);
    let ghost p = |f: Seq<char>| !runtime_features::is_known(f);
    let mut out: Vec<String> = Vec::new();
    let mut i: usize = 0;
    proof {
        reveal(Seq::filter);
        assert(all.take(0) =~= Seq::<Seq<char>>::empty());
        assert(text::texts(out@) =~= unknown_features(all.take(0)));
    }
    while i < features.len()
        invariant
            i <= features@.len(),
            all == text::texts(features@),
            p == (|f: Seq<char>| !runtime_features::is_known(f)),
            text::texts(out@) == unknown_features(all.take(i as int)),
        decreases features@.len() - i,
    {
        proof {
            runtime_features::filter_one_more(all, i as int, p);
        }
        if feature_mask::feature_by_name(features[i].as_str()).is_none() {
            let ghost before = text::texts(out@);
            out.push(features[i].clone());
            assert(text::texts(out@) =~= before.push(all[i as int]));
        }
        i += 1;
    }
    assert(all.take(i as int) =~= all);
    assert(text::texts(out@).len() == out@.len());
    if out.len() > 0 {
        return Err(SonicError::UnsupportedFeatures { features: join_list(&out, ", ") });
    }
    Ok(())
}

/// Whether code that was compiled for the feature must not run without it. The random number
/// instructions are no targets of the compiler, and firmware, kernels and hypervisors may
/// hide them.
pub open spec fn is_required(feature: Seq<char>) -> bool {
    feature != "rdrand"@ && feature != "rdseed"@
}

/// Whether code that was compiled for the feature must not run without it.
pub fn is_safety_required_feature(feature: &str) -> (r: bool)
    ensures
        r == is_required(feature@),
{
    !(str_eq(feature, "rdrand") || str_eq(feature, "rdseed"))
}

/// The features of a list without which code that was compiled for them must not run.
pub open spec fn required_features(features: Seq<Seq<char>>) -> Seq<Seq<char>> {
    features.filter(|f: Seq<char>| is_required(f))
}

/// The features of a list without which code that was compiled for them must not run.
pub fn safety_required_features(features: &[String]) -> (r: Vec<String>)
    ensures
        text::texts(r@) == required_features(text::texts(features@)),
{
    let ghost all = text::texts(features@);
    let ghost p = |f: Seq<char>| is_required(f);
    let mut out: Vec<String> = Vec::new();
    let mut i: usize = 0;
    proof {
        reveal(Seq::filter);
        assert(all.take(0) =~= Seq::<Seq<char>>::empty());
        assert(text::texts(out@) =~= required_features(all.take(0)));
    }
    while i < features.len()
        invariant
            i <= features@.len(),
            all == text::texts(features@),
            p == (|f: Seq<char>| is_required(f)),
            text::texts(out@) == required_features(all.take(i as int)),
        decreases features@.len() - i,
    {
        proof {
            runtime_features::filter_one_more(all, i as int, p);
        }
        if is_safety_required_feature(features[i].as_str()) {
            let ghost before = text::texts(out@);
            out.push(features[i].clone());
            assert(text::texts(out@) =~= before.push(all[i as int]));
        }
        i += 1;
    }
    assert(all.take(i as int) =~= all);
    out
}

/// Whether a mask has one of two features.
pub open spec fn has_either(mask: FeatureMask, a: Feature, b: Feature) -> bool {
    mask.has(a) || mask.has(b)
}

/// The tier of the features of a target CPU: the most advanced family of instructions among
/// them.
pub open spec fn tier_of(arch: Seq<char>, mask: FeatureMask) -> u8 {
    if arch == "x86_64"@ {
        if has_either(mask, Feature::Avx512Vnni, Feature::Avx512Bf16) || mask.has(
            Feature::Avx512Fp16,
        ) {
            5
        } else if mask.has(Feature::Avx512F) && (has_either(
            mask,
            Feature::Avx512Bw,
            Feature::Avx512Dq,
        ) || mask.has(Feature::Avx512Vl)) {
            4
        } else if has_either(mask, Feature::Avx2, Feature::Bmi1) || mask.has(Feature::Bmi2) {
            3
        } else if has_either(mask, Feature::Avx, Feature::Fma) {
            2
        } else if has_either(mask, Feature::Sse3, Feature::Ssse3) || has_either(
            mask,
            Feature::Sse4_1,
            Feature::Sse4_2,
        ) {
            1
        } else {
            0
        }
    } else if mask.has(Feature::Sve2) {
        5
    } else if mask.has(Feature::Sve) {
        4
    } else if has_either(mask, Feature::Bf16, Feature::I8mm) {
        3
    } else if has_either(mask, Feature::Lse, Feature::Fp16) || has_either(
        mask,
        Feature::Dotprod,
        Feature::Rdm,
    ) {
        2
    } else if has_either(mask, Feature::Crc, Feature::Aes) || has_either(
        mask,
        Feature::Sha2,
        Feature::Sha3,
    ) {
        1
    } else {
        0
    }
}

/// The tier of the features of a target CPU.
pub fn feature_tier(arch: &str, mask: FeatureMask) -> (r: u8)
    ensures
        r == tier_of(arch@, mask),
{
    if str_eq(arch, "x86_64") {
        if mask.contains(Feature::Avx512Vnni) || mask.contains(Feature::Avx512Bf16)
            || mask.contains(Feature::Avx512Fp16) {
            5
        } else if mask.contains(Feature::Avx512F) && (mask.contains(Feature::Avx512Bw)
            || mask.contains(Feature::Avx512Dq) || mask.contains(Feature::Avx512Vl)) {
            4
        } else if mask.contains(Feature::Avx2) || mask.contains(Feature::Bmi1) || mask.contains(
            Feature::Bmi2,
        ) {
            3
        } else if mask.contains(Feature::Avx) || mask.contains(Feature::Fma) {
            2
        } else if mask.contains(Feature::Sse3) || mask.contains(Feature::Ssse3) || mask.contains(
            Feature::Sse4_1,
        ) || mask.contains(Feature::Sse4_2) {
            1
        } else {
            0
        }
    } else if mask.contains(Feature::Sve2) {
        5
    } else if mask.contains(Feature::Sve) {
        4
    } else if mask.contains(Feature::Bf16) || mask.contains(Feature::I8mm) {
        3
    } else if mask.contains(Feature::Lse) || mask.contains(Feature::Fp16) || mask.contains(
        Feature::Dotprod,
    ) || mask.contains(Feature::Rdm) {
        2
    } else if mask.contains(Feature::Crc) || mask.contains(Feature::Aes) || mask.contains(
        Feature::Sha2,
    ) || mask.contains(Feature::Sha3) {
        1
    } else {
        0
    }
}

/// The kind of an x86-64 target CPU other than `generic`.
pub open spec fn x86_kind(cpu: Seq<char>) -> TargetKind {
    if cpu == "x86-64"@ {
        TargetKind::X86NeutralLevel { level: 1 }
    } else if cpu == "x86-64-v2"@ {
        TargetKind::X86NeutralLevel { level: 2 }
    } else if cpu == "x86-64-v3"@ {
        TargetKind::X86NeutralLevel { level: 3 }
    } else if cpu == "x86-64-v4"@ {
        TargetKind::X86NeutralLevel { level: 4 }
    } else if text::has_prefix(cpu, "znver"@) {
        TargetKind::X86AmdZen {
            generation: match text::small_number(text::without_prefixes(cpu, "znver"@)) {
                Some(generation) => generation,
                None => 0,
            },
        }
    } else if text::has_part(cpu, "atom"@) || text::has_part(cpu, "silvermont"@) || text::has_part(
        cpu,
        "goldmont"@,
    ) || text::has_part(cpu, "gracemont"@) {
        TargetKind::X86IntelAtom
    } else if text::has_part(cpu, "lake"@) || text::has_part(cpu, "well"@) || text::has_part(
        cpu,
        "bridge"@,
    ) {
        TargetKind::X86IntelCore
    } else if text::has_part(cpu, "rapids"@) || text::has_part(cpu, "skx"@) || text::has_part(
        cpu,
        "skylake-avx512"@,
    ) {
        TargetKind::X86IntelXeon
    } else {
        TargetKind::X86AmdOther
    }
}

/// The kind of a target CPU.
pub open spec fn kind_of(cpu: Seq<char>, arch: Seq<char>) -> TargetKind {
    if cpu == "generic"@ {
        TargetKind::Generic
    } else if arch == "x86_64"@ {
        x86_kind(cpu)
    } else {
        classify::aarch64_kind(cpu)
    }
}

/// The kind of an x86-64 target CPU other than `generic`.
fn classify_x86(cpu: &str) -> (r: TargetKind)
    ensures
        r == x86_kind(cpu@),
{
    if str_eq(cpu, "x86-64") {
        return TargetKind::X86NeutralLevel { level: 1 };
    }
    if str_eq(cpu, "x86-64-v2") {
        return TargetKind::X86NeutralLevel { level: 2 };
    }
    if str_eq(cpu, "x86-64-v3") {
        return TargetKind::X86NeutralLevel { level: 3 };
    }
    if str_eq(cpu, "x86-64-v4") {
        return TargetKind::X86NeutralLevel { level: 4 };
    }
    if starts_with(cpu, "znver") {
        proof {
            reveal_strlit("znver");
        }
        let digits = trim_start_matches(cpu, "znver");
        let generation = match parse_small_number(digits.as_str()) {
            Some(generation) => generation,
            None => 0,
        };
        return TargetKind::X86AmdZen { generation };
    }
    if contains(cpu, "atom") || contains(cpu, "silvermont") || contains(cpu, "goldmont")
        || contains(cpu, "gracemont") {
        return TargetKind::X86IntelAtom;
    }
    if contains(cpu, "lake") || contains(cpu, "well") || contains(cpu, "bridge") {
        return TargetKind::X86IntelCore;
    }
    if contains(cpu, "rapids") || contains(cpu, "skx") || contains(cpu, "skylake-avx512") {
        return TargetKind::X86IntelXeon;
    }
    TargetKind::X86AmdOther
}

/// The kind of a target CPU.
pub fn classify_target_cpu(cpu: &str, arch: &str) -> (r: TargetKind)
    ensures
        r == kind_of(cpu@, arch@),
{
    if str_eq(cpu, "generic") {
        TargetKind::Generic
    } else if str_eq(arch, "x86_64") {
        classify_x86(cpu)
    } else {
        classify_aarch64(cpu)
    }
}

// ---------------------------------------------------------------------------
// Variants

/// The features of a target CPU, as `rustc --print cfg` gives them.
pub open spec fn features_in(cfg: Seq<char>) -> Seq<Seq<char>> {
    without_linking(rustc_output::stated_features(cfg))
}

/// Whether the job is the one for a target CPU.
pub open spec fn is_job_for(
    job: VariantBuildJob,
    cpu: Seq<char>,
    arch: Seq<char>,
    cfg: Seq<char>,
) -> bool {
    let features = features_in(cfg);
    &&& job.target_cpu@ == cpu
    &&& text::texts(job.feature_names@) == features
    &&& runtime_features::is_mask_of(job.rank_features, features)
    &&& if cpu == "generic"@ {
        job.required_features@ == Set::<int>::empty()
    } else {
        runtime_features::is_mask_of(job.required_features, required_features(features))
    }
    &&& job.target_kind == kind_of(cpu, arch)
    &&& job.feature_tier == tier_of(arch, job.rank_features)
}

/// The job for a target CPU. A feature that the crate does not know is an error.
pub fn plan_variant(cpu: &str, arch: &str, cfg: &str) -> (r: Result<VariantBuildJob, SonicError>)
    ensures
        ({
            let unknown = unknown_features(features_in(cfg@));
            match r {
                Ok(job) => unknown.len() == 0 && is_job_for(job, cpu@, arch@, cfg@),
                Err(e) => unknown.len() > 0 && (if cpu@ == "generic"@ {
                    e matches SonicError::UnsupportedFeature { feature } && exists|i: int| #[trigger]
                        runtime_features::first_unknown(features_in(cfg@), i) && feature@
                            == features_in(cfg@)[i]
                } else {
                    e matches SonicError::UnsupportedFeatures { features: names } && names@
                        == text::join(unknown, ", "@)
                }),
            }
        }),
{
    let stated = parse_target_features_from_rustc_cfg(cfg);
    let features = filter_runtime_features(&stated);
    let ghost names = features_in(cfg@);
    assert(text::texts(features@) == names);
    let is_generic = str_eq(cpu, "generic");
    if !is_generic {
        match unsupported_runtime_features(&features) {
            Ok(_) => {},
            Err(e) => {
                return Err(e);
            },
        }
    }
    let rank_features = match feature_mask(&features) {
        Ok(mask) => mask,
        Err(e) => {
            proof {
                let i = choose|i: int| #[trigger] runtime_features::first_unknown(names, i);
                runtime_features::filter_holds(
                    names,
                    |f: Seq<char>| !runtime_features::is_known(f),
                    names[i],
                );
                assert(names.contains(names[i]));
                if !is_generic {
                    assert(unknown_features(names).contains(names[i]));
                }
                assert(unknown_features(names).len() > 0);
            }
            return Err(e);
        },
    };
    proof {
        if unknown_features(names).len() > 0 {
            let f = unknown_features(names)[0];
            assert(unknown_features(names).contains(f));
            runtime_features::filter_holds(
                names,
                |f: Seq<char>| !runtime_features::is_known(f),
                f,
            );
            let j = choose|j: int| 0 <= j < names.len() && names[j] == f;
            assert(runtime_features::is_known(names[j]));
        }
    }
    let required_names = safety_required_features(&features);
    let required_features = if is_generic {
        FeatureMask::empty()
    } else {
        match feature_mask(&required_names) {
            Ok(mask) => mask,
            Err(e) => {
                proof {
                    let wanted = required_features(names);
                    let i = choose|i: int| #[trigger] runtime_features::first_unknown(wanted, i);
                    assert(wanted.contains(wanted[i]));
                    runtime_features::filter_holds(
                        names,
                        |f: Seq<char>| is_required(f),
                        wanted[i],
                    );
                    let j = choose|j: int| 0 <= j < names.len() && names[j] == wanted[i];
                    assert(runtime_features::is_known(names[j]));
                }
                return Err(e);
            },
        }
    };
    Ok(
        VariantBuildJob {
            target_cpu: cpu.to_owned(),
            required_features,
            rank_features,
            feature_names: features,
            feature_tier: feature_tier(arch, rank_features),
            target_kind: classify_target_cpu(cpu, arch),
        },
    )
}

/// Whether there is no variant for the target CPU at position `i`: rustc does not say which
/// features it uses for it, or uses some that the crate does not know. The baseline is not
/// asked for the latter.
pub open spec fn is_bad(cpus: Seq<Seq<char>>, answers: Seq<CpuAnswer>, i: int) -> bool {
    ||| plan::cfg_for(answers, cpus[i]) is None
    ||| (cpus[i] != "generic"@ && unknown_features(
        features_in(plan::cfg_text(answers, cpus[i])),
    ).len() > 0)
}

/// Whether the target CPU at position `i` is the first without a variant.
pub open spec fn first_bad(cpus: Seq<Seq<char>>, answers: Seq<CpuAnswer>, i: int) -> bool {
    &&& 0 <= i < cpus.len()
    &&& is_bad(cpus, answers, i)
    &&& forall|j: int| 0 <= j < i ==> !#[trigger] is_bad(cpus, answers, j)
}

/// Whether the error tells why there is no variant for the target CPU.
pub open spec fn tells_bad(cpu: Seq<char>, answers: Seq<CpuAnswer>, error: SonicError) -> bool {
    if plan::cfg_for(answers, cpu) is None {
        error matches SonicError::CfgMissing { cpu: c } && c@ == cpu
    } else {
        error matches SonicError::UnsupportedFeatures { features } && features@ == text::join(
            unknown_features(features_in(plan::cfg_text(answers, cpu))),
            ", "@,
        )
    }
}

/// The first feature of the baseline that the crate does not know, if there is one.
pub open spec fn bad_baseline(cpus: Seq<Seq<char>>, answers: Seq<CpuAnswer>) -> bool {
    cpus.contains("generic"@) && unknown_features(
        features_in(plan::cfg_text(answers, "generic"@)),
    ).len() > 0
}

/// Whether the jobs are those for the target CPUs, one for each.
pub open spec fn are_jobs_for(
    jobs: Seq<VariantBuildJob>,
    cpus: Seq<Seq<char>>,
    arch: Seq<char>,
    answers: Seq<CpuAnswer>,
) -> bool {
    &&& jobs.len() == cpus.len()
    &&& forall|i: int|
        0 <= i < jobs.len() ==> is_job_for(
            #[trigger] jobs[i],
            cpus[i],
            arch,
            plan::cfg_text(answers, cpus[i]),
        )
}

/// Whether the outcome is that of planning the variants for some target CPUs: an error about
/// the first one without a variant, else one about the baseline, else a job for each.
pub open spec fn plans_variants(
    cpus: Seq<Seq<char>>,
    arch: Seq<char>,
    answers: Seq<CpuAnswer>,
    r: Result<Vec<VariantBuildJob>, SonicError>,
) -> bool {
    if exists|i: int| #[trigger] first_bad(cpus, answers, i) {
        r matches Err(e) && exists|i: int| #[trigger]
            first_bad(cpus, answers, i) && tells_bad(cpus[i], answers, e)
    } else if bad_baseline(cpus, answers) {
        let features = features_in(plan::cfg_text(answers, "generic"@));
        r matches Err(SonicError::UnsupportedFeature { feature }) && exists|i: int| #[trigger]
            runtime_features::first_unknown(features, i) && feature@ == features[i]
    } else {
        r matches Ok(jobs) && are_jobs_for(jobs@, cpus, arch, answers)
    }
}

/// The output of `rustc --print cfg` for a target CPU.
fn find_cfg<'a>(answers: &'a [CpuAnswer], cpu: &str) -> (r: Option<&'a str>)
    ensures
        match r {
            Some(cfg) => plan::cfg_for(answers@, cpu@) == Some(cfg@),
            None => plan::cfg_for(answers@, cpu@) is None,
        },
{
    match find_answer(answers, cpu) {
        Some(i) => match &answers[i].cfg {
            Some(cfg) => Some(cfg.as_str()),
            None => None,
        },
        None => None,
    }
}

/// Checks that there is a variant for each target CPU.
fn check_variants(cpus: &[String], answers: &[CpuAnswer]) -> (r: Result<(), SonicError>)
    ensures
        ({
            let names = text::texts(cpus@);
            match r {
                Ok(_) => forall|i: int| 0 <= i < names.len() ==> !#[trigger] is_bad(names, answers@, i),
                Err(e) => exists|i: int| #[trigger]
                    first_bad(names, answers@, i) && tells_bad(names[i], answers@, e),
            }
        }),
{
    let ghost names = text::texts(cpus@);
    let mut i: usize = 0;
    while i < cpus.len()
        invariant
            i <= cpus@.len(),
            names == text::texts(cpus@),
            forall|j: int| 0 <= j < i ==> !#[trigger] is_bad(names, answers@, j),
        decreases cpus@.len() - i,
    {
        let cpu = cpus[i].as_str();
        assert(names[i as int] == cpu@);
        match find_cfg(answers, cpu) {
            Some(cfg) => {
                if !str_eq(cpu, "generic") {
                    let stated = parse_target_features_from_rustc_cfg(cfg);
                    let features = filter_runtime_features(&stated);
                    match unsupported_runtime_features(&features) {
                        Ok(_) => {},
                        Err(e) => {
                            assert(first_bad(names, answers@, i as int));
                            return Err(e);
                        },
                    }
                }
                assert(!is_bad(names, answers@, i as int));
            },
            None => {
                assert(first_bad(names, answers@, i as int));
                return Err(SonicError::CfgMissing { cpu: cpu.to_owned() });
            },
        }
        i += 1;
    }
    Ok(())
}

/// The variants for some target CPUs.
pub fn plan_variants(cpus: &[String], arch: &str, answers: &[CpuAnswer]) -> (r: Result<
    Vec<VariantBuildJob>,
    SonicError,
>)
    ensures
        plans_variants(text::texts(cpus@), arch@, answers@, r),
{
    let ghost names = text::texts(cpus@);
    match check_variants(cpus, answers) {
        Ok(_) => {},
        Err(e) => {
            return Err(e);
        },
    }
    assert forall|i: int| !#[trigger] first_bad(names, answers@, i) by {
        if 0 <= i < names.len() {
            assert(!is_bad(names, answers@, i));
        }
    }
    let mut jobs: Vec<VariantBuildJob> = Vec::new();
    while jobs.len() < cpus.len()
        invariant
            jobs@.len() <= cpus@.len(),
            names == text::texts(cpus@),
            forall|i: int| !#[trigger] first_bad(names, answers@, i),
            forall|i: int| 0 <= i < names.len() ==> !#[trigger] is_bad(names, answers@, i),
            forall|i: int|
                0 <= i < jobs@.len() ==> is_job_for(
                    #[trigger] jobs@[i],
                    names[i],
                    arch@,
                    plan::cfg_text(answers@, names[i]),
                ) && unknown_features(features_in(plan::cfg_text(answers@, names[i]))).len() == 0,
        decreases cpus@.len() - jobs@.len(),
    {
        let i: usize = jobs.len();
        let cpu = cpus[i].as_str();
        proof {
            assert(names[i as int] == cpu@);
            assert(!is_bad(names, answers@, i as int));
            assert(names.contains(names[i as int]));
        }
        let cfg = match find_cfg(answers, cpu) {
            Some(cfg) => cfg,
            None => "",
        };
        match plan_variant(cpu, arch, cfg) {
            Ok(job) => {
                jobs.push(job);
            },
            Err(e) => {
                return Err(e);
            },
        }
    }
    proof {
        if names.contains("generic"@) {
            let i = choose|i: int| 0 <= i < names.len() && names[i] == "generic"@;
            assert(is_job_for(jobs@[i], names[i], arch@, plan::cfg_text(answers@, names[i])));
        }
    }
    Ok(jobs)
}

/// Whether the warnings are those about the features of the jobs.
pub open spec fn are_warnings_for(
    warnings: Seq<Seq<char>>,
    jobs: Seq<VariantBuildJob>,
    arch: Seq<char>,
) -> bool {
    exists|items: Seq<CpuFeatures>| #[trigger]
        build_plan::is_feature_table(items, jobs, "generic"@) && warnings
            == classify::warnings_for(items, arch)
}

/// The warnings about the features of the jobs.
pub fn build_warnings(jobs: &[VariantBuildJob], arch: &str) -> (warnings: Vec<String>)
    ensures
        are_warnings_for(text::texts(warnings@), jobs@, arch@),
{
    let items = feature_table(jobs, "generic");
    analyze_warnings(&items, arch)
}

// ---------------------------------------------------------------------------
// The plan

/// The target CPUs of a list that can be built for.
pub open spec fn buildable(names: Seq<Seq<char>>, output: Seq<char>) -> Seq<Seq<char>> {
    names.filter(|cpu: Seq<char>| plan::can_build(output, cpu))
}

/// What a configured build does.
#[derive(Debug)]
pub struct ConfiguredPlan {
    pub target: String,
    pub arch: String,
    /// The directory that holds everything of the build.
    pub out_root: String,
    pub jobs: Vec<VariantBuildJob>,
    pub warnings: Vec<String>,
}

/// Whether the outcome is that of planning a build for a target.
pub open spec fn plans_target(
    target: Seq<char>,
    release: bool,
    configured: Seq<Seq<char>>,
    target_dir: Seq<char>,
    answers: RustcAnswers,
    r: Result<ConfiguredPlan, SonicError>,
) -> bool {
    let arch = plan::arch_of(answers.cfg@);
    let names = with_generic(configured);
    let cpus = buildable(names, answers.target_cpus@);
    if !plan::is_supported(answers.cfg@) {
        r matches Err(e) && plan::tells_unsupported(target, answers.cfg@, e)
    } else if exists|i: int| #[trigger] plan::first_nobody_knows(names, answers, i) {
        r matches Err(SonicError::UnknownTargetCpu { cpu }) && exists|i: int| #[trigger]
            plan::first_nobody_knows(names, answers, i) && cpu@ == names[i]
    } else {
        match r {
            Err(e) => plans_variants(cpus, arch, answers.cpu_answers@, Err(e)),
            Ok(built) => {
                &&& plans_variants(cpus, arch, answers.cpu_answers@, Ok(built.jobs))
                &&& built.target@ == target
                &&& built.arch@ == arch
                &&& built.out_root@ == paths::root_of(target_dir, target, release)
                &&& are_warnings_for(text::texts(built.warnings@), built.jobs@, arch)
            },
        }
    }
}

/// The configured target CPUs that can be built for.
fn included_cpus(names: &[String], answers: &RustcAnswers) -> (r: Result<Vec<String>, SonicError>)
    requires
        !text::texts(names@).contains("native"@),
    ensures
        ({
            let all = text::texts(names@);
            match r {
                Ok(cpus) => (forall|i: int| !#[trigger] plan::first_nobody_knows(all, *answers, i))
                    && text::texts(cpus@) == buildable(all, answers.target_cpus@),
                Err(e) => e matches SonicError::UnknownTargetCpu { cpu } && exists|i: int| #[trigger]
                    plan::first_nobody_knows(all, *answers, i) && cpu@ == all[i],
            }
        }),
{
    let current = parse_rustc_target_cpus(answers.target_cpus.as_str());
    let known = known_supported_cpu_union(&answers.known_target_cpus);
    let ghost all = text::texts(names@);
    let ghost valid = text::texts(current@);
    let ghost union = text::texts(known@);
    let r = filter_target_cpus(names, &current, &known);
    proof {
        assert forall|cpu: Seq<char>| #[trigger]
            target_cpus::accepted(cpu, valid) == plan::can_build(answers.target_cpus@, cpu) by {
            assert(valid.contains(cpu) == rustc_output::lists_cpu(answers.target_cpus@, cpu));
        }
        assert((|cpu: Seq<char>| target_cpus::accepted(cpu, valid)) =~= (|cpu: Seq<char>|
            plan::can_build(answers.target_cpus@, cpu)));
        assert forall|i: int| 0 <= i < all.len() implies #[trigger] all[i] != "native"@
            && target_cpus::is_unknown(all[i], valid, union) == plan::nobody_knows(
            *answers,
            all[i],
        ) by {
            assert(all.contains(all[i]));
            assert(valid.contains(all[i]) == rustc_output::lists_cpu(
                answers.target_cpus@,
                all[i],
            ));
            assert(union.contains(all[i]) == rustc_output::some_lists_cpu(
                answers.known_target_cpus@,
                all[i],
            ));
        }
        assert forall|i: int| #[trigger]
            target_cpus::first_rejected(all, valid, union, i) == plan::first_nobody_knows(
                all,
                *answers,
                i,
            ) by {
            if target_cpus::first_rejected(all, valid, union, i) {
                assert forall|j: int| 0 <= j < i implies !plan::nobody_knows(
                    *answers,
                    #[trigger] all[j],
                ) by {
                    assert(!target_cpus::is_unknown(all[j], valid, union));
                }
            }
            if plan::first_nobody_knows(all, *answers, i) {
                assert forall|j: int| 0 <= j < i implies #[trigger] all[j] != "native"@
                    && !target_cpus::is_unknown(all[j], valid, union) by {
                    assert(!plan::nobody_knows(*answers, all[j]));
                }
            }
        }
        match r {
            Ok(_) => {
                assert forall|i: int| !#[trigger] plan::first_nobody_knows(all, *answers, i) by {
                    assert(!target_cpus::first_rejected(all, valid, union, i));
                }
            },
            Err(_) => {
                let i = choose|i: int| #[trigger]
                    target_cpus::first_rejected(all, valid, union, i) && (if all[i] == "native"@ {
                        r->Err_0 is NativeFiltered
                    } else {
                        r->Err_0 matches SonicError::UnknownTargetCpu { cpu } && cpu@ == all[i]
                    });
                assert(plan::first_nobody_knows(all, *answers, i));
            },
        }
    }
    r
}

/// Plans a build: which variants to build for which target, where, and what to warn about.
pub fn plan_build(
    cargo_args: &CargoArgs,
    configured: Vec<String>,
    target_dir: &str,
    answers: &RustcAnswers,
) -> (r: Result<ConfiguredPlan, SonicError>)
    ensures
        if text::texts(configured@).contains("native"@) {
            r matches Err(e) && e is NativeRejected
        } else {
            match probe::chosen_target(text::opt(cargo_args.target), answers.version@) {
                Some(target) => plans_target(
                    target,
                    cargo_args.release,
                    text::texts(configured@),
                    target_dir@,
                    *answers,
                    r,
                ),
                None => r matches Err(e) && e is HostTargetUnknown,
            }
        },
{
    let ghost given = text::texts(configured@);
    let names = match normalize_target_cpus(configured) {
        Ok(names) => names,
        Err(e) => {
            return Err(e);
        },
    };
    proof {
        reveal_strlit("generic");
        reveal_strlit("native");
        let all = text::texts(names@);
        if all.contains("native"@) {
            let k = choose|k: int| 0 <= k < all.len() && all[k] == "native"@;
            if given.contains("generic"@) {
                assert(given[k] == "native"@);
            } else {
                assert("generic"@.len() != "native"@.len());
                assert(k > 0);
                assert(given[k - 1] == "native"@);
            }
        }
    }
    let target = match command_target(cargo_args, answers.version.as_str()) {
        Ok(target) => target,
        Err(e) => {
            return Err(e);
        },
    };
    let arch = match supported_arch(target.as_str(), answers.cfg.as_str()) {
        Ok(arch) => arch,
        Err(e) => {
            return Err(e);
        },
    };
    let cpus = match included_cpus(&names, answers) {
        Ok(cpus) => cpus,
        Err(e) => {
            return Err(e);
        },
    };
    let jobs = match plan_variants(&cpus, arch.as_str(), &answers.cpu_answers) {
        Ok(jobs) => jobs,
        Err(e) => {
            return Err(e);
        },
    };
    let out_root = output_root(target_dir, target.as_str(), cargo_args.release);
    let warnings = build_warnings(&jobs, arch.as_str());
    Ok(ConfiguredPlan { target, arch, out_root, jobs, warnings })
}

// ---------------------------------------------------------------------------
// Payloads

/// The flags that are handed to rustc for a payload: those of the environment, and the target
/// CPU.
pub fn encoded_rustflags(cpu: &str, environment: Option<Vec<u8>>) -> (r: Vec<u8>)
    ensures
        r@ == rustflags::with_flag(
            match environment {
                Some(flags) => flags@,
                None => Seq::<u8>::empty(),
            },
            vstd::utf8::encode_utf8("-Ctarget-cpu="@ + cpu@),
        ),
{
    let flags = match environment {
        Some(flags) => flags,
        None => Vec::new(),
    };
    append_encoded_rustflag(flags, target_cpu_rustflag(cpu).as_str())
}

/// The arguments with which Cargo builds a payload.
pub open spec fn payload_arguments(
    args: CargoArgs,
    manifest_path: Option<Seq<char>>,
    target: Seq<char>,
    target_dir: Seq<char>,
) -> Seq<Seq<char>> {
    seq!["build"@] + text::texts(args.forwarded@) + build_plan::option_args(
        "--manifest-path"@,
        manifest_path,
    ) + build_plan::option_args(
        "--target"@,
        if args.target is Some {
            None
        } else {
            Some(target)
        },
    ) + build_plan::option_args("--message-format"@, Some("json-render-diagnostics"@))
        + build_plan::option_args("--target-dir"@, Some(target_dir))
}

/// The arguments with which Cargo builds a payload.
pub fn payload_args(
    args: &CargoArgs,
    manifest_path: &Option<String>,
    target: &str,
    target_dir: &str,
) -> (r: Vec<String>)
    ensures
        text::texts(r@) == payload_arguments(
            *args,
            text::opt(*manifest_path),
            target@,
            target_dir@,
        ),
{
    let mut out = build_args(&args.forwarded);
    let ghost a = text::texts(out@);
    if let Some(path) = manifest_path {
        push_option(&mut out, "--manifest-path", path.as_str());
    }
    assert(text::texts(out@) =~= a + build_plan::option_args(
        "--manifest-path"@,
        text::opt(*manifest_path),
    ));
    let ghost b = text::texts(out@);
    if args.target.is_none() {
        push_option(&mut out, "--target", target);
    }
    assert(text::texts(out@) =~= b + build_plan::option_args(
        "--target"@,
        if args.target is Some {
            None
        } else {
            Some(target@)
        },
    ));
    push_option(&mut out, "--message-format", "json-render-diagnostics");
    push_option(&mut out, "--target-dir", target_dir);
    out
}

/// The directory in which Cargo builds the payload for a target CPU.
pub fn variant_target_dir(out_root: &str, cpu: &str) -> (r: String)
    ensures
        r@ == paths::joined(paths::joined(out_root@, "variants"@), plain_name(cpu@)),
{
    let variants = file_in(out_root, "variants");
    let name = sanitize_cpu(cpu);
    file_in(variants.as_str(), name.as_str())
}

/// The file of a payload in the loader's package.
pub fn payload_path(out_root: &str, cpu: &str) -> (r: String)
    ensures
        r@ == paths::joined(
            paths::joined(paths::joined(out_root@, "loader"@), "payloads"@),
            plain_name(cpu@) + ".elf"@,
        ),
{
    let dir = payload_dir(out_root);
    let mut name = sanitize_cpu(cpu);
    name.append(".elf");
    file_in(dir.as_str(), name.as_str())
}

/// Whether a character is an ASCII letter or digit.
pub open spec fn is_alphanumeric(c: char) -> bool {
    ('a' <= c && c <= 'z') || ('A' <= c && c <= 'Z') || ('0' <= c && c <= '9')
}

/// A name with everything but ASCII letters and digits replaced by underscores.
pub open spec fn plain_name(cpu: Seq<char>) -> Seq<char> {
    cpu.map_values(
        |c: char|
            if is_alphanumeric(c) {
                c
            } else {
                '_'
            },
    )
}

/// A name with everything but ASCII letters and digits replaced by underscores.
pub fn sanitize_cpu(cpu: &str) -> (r: String)
    ensures
        r@ == plain_name(cpu@),
{
    let chars = chars_of(cpu);
    let mut out = String::new();
    let mut i: usize = 0;
    assert(out@ =~= plain_name(cpu@).take(0));
    while i < chars.len()
        invariant
            i <= chars@.len(),
            chars@ == cpu@,
            out@ == plain_name(cpu@).take(i as int),
        decreases chars@.len() - i,
    {
        let c = chars[i];
        let ghost before = out@;
        let keep = ('a' <= c && c <= 'z') || ('A' <= c && c <= 'Z') || ('0' <= c && c <= '9');
        if keep {
            out.push(c);
        } else {
            out.push('_');
        }
        assert(plain_name(cpu@).take(i + 1) =~= before.push(plain_name(cpu@)[i as int]));
        i += 1;
    }
    assert(plain_name(cpu@).take(i as int) =~= plain_name(cpu@));
    out
}

// ---------------------------------------------------------------------------
// What variants need, and how they are told apart

/// Only the two features for random numbers may be missing at run time.
pub proof fn only_random_numbers_may_be_missing(name: &str, feature: Feature, r: bool)
    requires
        call_ensures(is_safety_required_feature, (name,), r),
        feature_mask::names(name@, feature),
    ensures
        !r <==> feature == Feature::Rdrand || feature == Feature::Rdseed,
{
    required_goes_by_feature(name@, feature);
}

proof fn required_goes_by_feature(name: Seq<char>, feature: Feature)
    requires
        feature_mask::names(name, feature),
    ensures
        !is_required(name) <==> feature == Feature::Rdrand || feature == Feature::Rdseed,
{
    if name == "rdrand"@ {
        feature_mask::name_is_unambiguous(name, feature, Feature::Rdrand);
    }
    if name == "rdseed"@ {
        feature_mask::name_is_unambiguous(name, feature, Feature::Rdseed);
    }
}

/// A variant makes use of every feature that rustc states, and requires all of them but the two
/// for random numbers; `generic` requires nothing.
pub proof fn variants_require_what_rustc_states(
    cpu: &str,
    arch: &str,
    cfg: &str,
    stated: Vec<String>,
    job: VariantBuildJob,
    feature: Feature,
)
    requires
        call_ensures(parse_target_features_from_rustc_cfg, (cfg,), stated),
        call_ensures(plan_variant, (cpu, arch, cfg), Ok(job)),
    ensures
        job.target_cpu@ == cpu@,
        job.rank_features.has(feature) <==> exists|i: int|
            0 <= i < stated@.len() && feature_mask::names((#[trigger] stated@[i])@, feature),
        cpu@ == "generic"@ ==> !job.required_features.has(feature),
        cpu@ != "generic"@ ==> (job.required_features.has(feature) <==> job.rank_features.has(feature)
            && feature != Feature::Rdrand && feature != Feature::Rdseed),
{
    let args = (cpu, arch, cfg);
    assert(is_job_for(job, args.0@, args.1@, args.2@));
    let all = rustc_output::stated_features(args.2@);
    let known = features_in(args.2@);
    let required = required_features(known);
    assert(text::texts(stated@) == all);
    assert(job.rank_features.has(feature) == runtime_features::some_names(known, feature));
    if runtime_features::some_names(known, feature) {
        let i = choose|i: int| 0 <= i < known.len() && feature_mask::names(#[trigger] known[i], feature);
        let name = known[i];
        assert(known.contains(name));
        runtime_features::filter_holds(all, |f: Seq<char>| f != "crt-static"@, name);
        let j = choose|j: int| 0 <= j < all.len() && all[j] == name;
        assert(stated@[j]@ == all[j]);
        runtime_features::filter_holds(known, |f: Seq<char>| is_required(f), name);
        required_goes_by_feature(name, feature);
        if required.contains(name) {
            let k = choose|k: int| 0 <= k < required.len() && required[k] == name;
            assert(feature_mask::names(required[k], feature));
        }
    }
    if exists|i: int|
        0 <= i < stated@.len() && feature_mask::names((#[trigger] stated@[i])@, feature) {
        let i = choose|i: int|
            0 <= i < stated@.len() && feature_mask::names((#[trigger] stated@[i])@, feature);
        let name = stated@[i]@;
        assert(all[i] == name);
        assert(all.contains(name));
        if name == "crt-static"@ {
            runtime_features::ignored_is_not_known(name);
            assert(!feature_mask::names(name, feature));
        }
        runtime_features::filter_holds(all, |f: Seq<char>| f != "crt-static"@, name);
        let j = choose|j: int| 0 <= j < known.len() && known[j] == name;
        assert(feature_mask::names(known[j], feature));
    }
    if cpu@ != "generic"@ {
        assert(job.required_features.has(feature) == runtime_features::some_names(
            required,
            feature,
        ));
        if runtime_features::some_names(required, feature) {
            let i = choose|i: int|
                0 <= i < required.len() && feature_mask::names(#[trigger] required[i], feature);
            let name = required[i];
            assert(required.contains(name));
            runtime_features::filter_holds(known, |f: Seq<char>| is_required(f), name);
            required_goes_by_feature(name, feature);
            let j = choose|j: int| 0 <= j < known.len() && known[j] == name;
            assert(feature_mask::names(known[j], feature));
        }
    }
}

/// A variant carries the kind of its target CPU and the tier of its features, and there is none
/// for a target CPU of which rustc states a feature that the crate does not know, `crt-static`
/// aside.
pub proof fn variants_carry_their_kind(
    cpu: &str,
    arch: &str,
    cfg: &str,
    stated: Vec<String>,
    r: Result<VariantBuildJob, SonicError>,
    kind: TargetKind,
    tier: u8,
    i: int,
)
    requires
        call_ensures(parse_target_features_from_rustc_cfg, (cfg,), stated),
        call_ensures(classify_target_cpu, (cpu, arch), kind),
        call_ensures(plan_variant, (cpu, arch, cfg), r),
        r matches Ok(job) ==> call_ensures(feature_tier, (arch, job.rank_features), tier),
    ensures
        r matches Ok(job) ==> job.target_kind == kind && job.feature_tier == tier,
        0 <= i < stated@.len() && stated@[i]@ != "crt-static"@ && !runtime_features::is_known(
            stated@[i]@,
        ) ==> r is Err,
{
    let args = (cpu, arch, cfg);
    let all = rustc_output::stated_features(args.2@);
    let known = features_in(args.2@);
    assert(text::texts(stated@) == all);
    if 0 <= i < stated@.len() && stated@[i]@ != "crt-static"@ && !runtime_features::is_known(
        stated@[i]@,
    ) {
        let name = stated@[i]@;
        assert(all[i] == name);
        assert(all.contains(name));
        runtime_features::filter_holds(all, |f: Seq<char>| f != "crt-static"@, name);
        runtime_features::filter_holds(
            known,
            |f: Seq<char>| !runtime_features::is_known(f),
            name,
        );
        assert(unknown_features(known).contains(name));
        assert(unknown_features(known).len() > 0);
    }
}

/// More features never lower the tier, no feature gives tier 0, and each family of instructions
/// lifts the tier to its own height: on x86-64 SSE3 and what followed it to 1, AVX to 2, AVX2 to
/// 3, AVX-512 to 4 and its later parts to 5; on AArch64 cryptography and CRC to 1, atomics and
/// half precision to 2, matrix arithmetic to 3, SVE to 4 and SVE2 to 5.
pub proof fn tiers_grow_with_features(
    arch: &str,
    fewer: FeatureMask,
    more: FeatureMask,
    low: u8,
    high: u8,
)
    requires
        call_ensures(feature_tier, (arch, fewer), low),
        call_ensures(feature_tier, (arch, more), high),
        forall|f: Feature| fewer.has(f) ==> #[trigger] more.has(f),
    ensures
        low <= high <= 5,
        (forall|f: Feature| !#[trigger] fewer.has(f)) ==> low == 0,
        arch@ == "x86_64"@ ==> {
            &&& more.has(Feature::Sse3) || more.has(Feature::Ssse3) || more.has(Feature::Sse4_1)
                || more.has(Feature::Sse4_2) ==> high >= 1
            &&& more.has(Feature::Avx) || more.has(Feature::Fma) ==> high >= 2
            &&& more.has(Feature::Avx2) || more.has(Feature::Bmi1) || more.has(Feature::Bmi2)
                ==> high >= 3
            &&& more.has(Feature::Avx512F) && (more.has(Feature::Avx512Bw) || more.has(
                Feature::Avx512Dq,
            ) || more.has(Feature::Avx512Vl)) ==> high >= 4
            &&& high == 5 <==> more.has(Feature::Avx512Vnni) || more.has(Feature::Avx512Bf16)
                || more.has(Feature::Avx512Fp16)
            &&& high >= 4 ==> more.has(Feature::Avx512F) || high == 5
        },
        arch@ != "x86_64"@ ==> {
            &&& more.has(Feature::Crc) || more.has(Feature::Aes) || more.has(Feature::Sha2)
                || more.has(Feature::Sha3) ==> high >= 1
            &&& more.has(Feature::Lse) || more.has(Feature::Fp16) || more.has(Feature::Dotprod)
                || more.has(Feature::Rdm) ==> high >= 2
            &&& more.has(Feature::Bf16) || more.has(Feature::I8mm) ==> high >= 3
            &&& more.has(Feature::Sve) ==> high >= 4
            &&& high == 5 <==> more.has(Feature::Sve2)
            &&& high == 4 ==> more.has(Feature::Sve)
            &&& high == 3 ==> more.has(Feature::Bf16) || more.has(Feature::I8mm)
            &&& high == 2 ==> more.has(Feature::Lse) || more.has(Feature::Fp16) || more.has(
                Feature::Dotprod,
            ) || more.has(Feature::Rdm)
            &&& high == 1 ==> more.has(Feature::Crc) || more.has(Feature::Aes) || more.has(
                Feature::Sha2,
            ) || more.has(Feature::Sha3)
        },
        arch@ == "x86_64"@ ==> {
            &&& high == 3 ==> more.has(Feature::Avx2) || more.has(Feature::Bmi1) || more.has(
                Feature::Bmi2,
            )
            &&& high == 2 ==> more.has(Feature::Avx) || more.has(Feature::Fma)
            &&& high == 1 ==> more.has(Feature::Sse3) || more.has(Feature::Ssse3) || more.has(
                Feature::Sse4_1,
            ) || more.has(Feature::Sse4_2)
        },
{
    assert(forall|f: Feature| fewer.has(f) ==> #[trigger] more.has(f));
    assert(fewer.has(Feature::Avx512Vnni) ==> more.has(Feature::Avx512Vnni));
    assert(fewer.has(Feature::Avx512Bf16) ==> more.has(Feature::Avx512Bf16));
    assert(fewer.has(Feature::Avx512Fp16) ==> more.has(Feature::Avx512Fp16));
    assert(fewer.has(Feature::Avx512F) ==> more.has(Feature::Avx512F));
    assert(fewer.has(Feature::Avx512Bw) ==> more.has(Feature::Avx512Bw));
    assert(fewer.has(Feature::Avx512Dq) ==> more.has(Feature::Avx512Dq));
    assert(fewer.has(Feature::Avx512Vl) ==> more.has(Feature::Avx512Vl));
    assert(fewer.has(Feature::Avx2) ==> more.has(Feature::Avx2));
    assert(fewer.has(Feature::Avx) ==> more.has(Feature::Avx));
    assert(fewer.has(Feature::Sve2) ==> more.has(Feature::Sve2));
    assert(fewer.has(Feature::Sve) ==> more.has(Feature::Sve));
}

/// Kinds go by names as in builds without a configuration, but `generic` is the baseline on
/// either architecture.
pub proof fn names_tell_the_kind(
    cpu: &str,
    arch: &str,
    generation: u8,
    kind: TargetKind,
)
    requires
        call_ensures(classify_target_cpu, (cpu, arch), kind),
    ensures
        kind is Generic <==> cpu@ == "generic"@,
        arch@ == "x86_64"@ ==> {
            &&& cpu@ == "x86-64"@ ==> kind == (TargetKind::X86NeutralLevel { level: 1 })
            &&& cpu@ == "x86-64-v"@ + text::decimal(2) ==> kind == (TargetKind::X86NeutralLevel {
                level: 2,
            })
            &&& cpu@ == "x86-64-v"@ + text::decimal(3) ==> kind == (TargetKind::X86NeutralLevel {
                level: 3,
            })
            &&& cpu@ == "x86-64-v"@ + text::decimal(4) ==> kind == (TargetKind::X86NeutralLevel {
                level: 4,
            })
            &&& cpu@ == "znver"@ + text::decimal(generation as nat) ==> kind == (
            TargetKind::X86AmdZen { generation })
            &&& forall|a: Seq<char>, b: Seq<char>| #[trigger]
                (a + "atom"@ + b) == cpu@ && cpu@[0] != 'z' ==> kind is X86IntelAtom
            &&& forall|a: Seq<char>, b: Seq<char>| #[trigger]
                (a + "lake"@ + b) == cpu@ && cpu@[0] != 'z' ==> kind is X86IntelCore || kind
                    is X86IntelAtom
            &&& forall|a: Seq<char>, b: Seq<char>| #[trigger]
                (a + "well"@ + b) == cpu@ && cpu@[0] != 'z' ==> kind is X86IntelCore || kind
                    is X86IntelAtom
            &&& forall|a: Seq<char>, b: Seq<char>| #[trigger]
                (a + "bridge"@ + b) == cpu@ && cpu@[0] != 'z' ==> kind is X86IntelCore || kind
                    is X86IntelAtom
            &&& forall|a: Seq<char>, b: Seq<char>| #[trigger]
                (a + "rapids"@ + b) == cpu@ && cpu@[0] != 'z' ==> kind is X86IntelXeon || kind
                    is X86IntelCore || kind is X86IntelAtom
        },
{
    reveal_strlit("generic");
    reveal_strlit("znver");
    reveal_strlit("x86-64");
    reveal_strlit("x86-64-v");
    reveal_strlit("x86-64-v2");
    reveal_strlit("x86-64-v3");
    reveal_strlit("x86-64-v4");
    reveal_strlit("atom");
    reveal_strlit("lake");
    reveal_strlit("well");
    reveal_strlit("bridge");
    reveal_strlit("rapids");
    assert("x86-64-v"@ + text::decimal(2) =~= "x86-64-v2"@);
    assert("x86-64-v"@ + text::decimal(3) =~= "x86-64-v3"@);
    assert("x86-64-v"@ + text::decimal(4) =~= "x86-64-v4"@);
    assert("generic"@[0] == 'g' && "x86-64"@[0] == 'x' && "x86-64-v2"@[0] == 'x' && "x86-64-v3"@[0]
        == 'x' && "x86-64-v4"@[0] == 'x');
    assert("x86-64"@.len() == 6 && "x86-64-v2"@.len() == 9 && "x86-64-v3"@.len() == 9
        && "x86-64-v4"@.len() == 9 && "generic"@.len() == 7);
    assert("x86-64-v2"@[8] == '2' && "x86-64-v3"@[8] == '3' && "x86-64-v4"@[8] == '4');
    if text::has_prefix(cpu@, "znver"@) {
        assert(cpu@.take(5)[0] == 'z');
    }
    if cpu@ == "znver"@ + text::decimal(generation as nat) {
        let digits = text::decimal(generation as nat);
        text_laws::decimal_reads_back(generation as nat);
        text_laws::decimal_value_is_worth(digits);
        assert(cpu@.take(5) =~= "znver"@);
        assert(cpu@.skip(5) =~= digits);
        assert('0' <= digits[0] <= '9');
        if text::has_prefix(digits, "znver"@) {
            assert(digits.take(5)[0] == 'z');
        }
        assert(text::without_prefixes(digits, "znver"@) == digits);
        assert(text::without_prefixes(cpu@, "znver"@) == digits);
        assert(text::without_plus(digits) == digits);
        assert(cpu@[0] == 'z');
    }
    classify::part_is_found(cpu@, "atom"@);
    classify::part_is_found(cpu@, "lake"@);
    classify::part_is_found(cpu@, "well"@);
    classify::part_is_found(cpu@, "bridge"@);
    classify::part_is_found(cpu@, "rapids"@);
    if cpu@.len() > 0 && cpu@[0] != 'z' {
        assert(!text::has_prefix(cpu@, "znver"@));
    }
    if cpu@ == "x86-64"@ || cpu@ == "x86-64-v2"@ || cpu@ == "x86-64-v3"@ || cpu@ == "x86-64-v4"@
        || cpu@ == "generic"@ {
        no_part_of_a_level(cpu@);
    }
}

proof fn no_part_of_a_level(cpu: Seq<char>)
    requires
        cpu == "x86-64"@ || cpu == "x86-64-v2"@ || cpu == "x86-64-v3"@ || cpu == "x86-64-v4"@ || cpu
            == "generic"@,
    ensures
        forall|a: Seq<char>, b: Seq<char>| #[trigger] (a + "atom"@ + b) != cpu,
        forall|a: Seq<char>, b: Seq<char>| #[trigger] (a + "lake"@ + b) != cpu,
        forall|a: Seq<char>, b: Seq<char>| #[trigger] (a + "well"@ + b) != cpu,
        forall|a: Seq<char>, b: Seq<char>| #[trigger] (a + "bridge"@ + b) != cpu,
        forall|a: Seq<char>, b: Seq<char>| #[trigger] (a + "rapids"@ + b) != cpu,
{
    reveal_strlit("generic");
    reveal_strlit("x86-64");
    reveal_strlit("x86-64-v2");
    reveal_strlit("x86-64-v3");
    reveal_strlit("x86-64-v4");
    reveal_strlit("atom");
    reveal_strlit("lake");
    reveal_strlit("well");
    reveal_strlit("bridge");
    reveal_strlit("rapids");
    assert forall|i: int| 0 <= i < cpu.len() implies #[trigger] cpu[i] != 'a' && cpu[i] != 'l' && cpu[i]
        != 'b' by {}
    assert forall|a: Seq<char>, b: Seq<char>| #[trigger] (a + "atom"@ + b) != cpu by {
        assert((a + "atom"@ + b)[a.len() as int] == 'a');
    }
    assert forall|a: Seq<char>, b: Seq<char>| #[trigger] (a + "lake"@ + b) != cpu by {
        assert((a + "lake"@ + b)[a.len() as int] == 'l');
    }
    assert forall|a: Seq<char>, b: Seq<char>| #[trigger] (a + "well"@ + b) != cpu by {
        assert((a + "well"@ + b)[a.len() as int + 2] == 'l');
    }
    assert forall|a: Seq<char>, b: Seq<char>| #[trigger] (a + "bridge"@ + b) != cpu by {
        assert((a + "bridge"@ + b)[a.len() as int] == 'b');
    }
    assert forall|a: Seq<char>, b: Seq<char>| #[trigger] (a + "rapids"@ + b) != cpu by {
        assert((a + "rapids"@ + b)[a.len() as int + 1] == 'a');
    }
}

/// The configured target CPUs are completed by `generic` in front unless they hold it, and
/// rejected if and only if they hold `native`.
pub proof fn configurations_get_the_baseline(cpus: Vec<String>, r: Result<Vec<String>, SonicError>)
    requires
        call_ensures(normalize_target_cpus, (cpus,), r),
    ensures
        r is Err <==> text::texts(cpus@).contains("native"@),
        r matches Ok(all) ==> {
            &&& text::texts(all@).contains("generic"@)
            &&& text::texts(cpus@).contains("generic"@) ==> text::texts(all@) == text::texts(cpus@)
            &&& !text::texts(cpus@).contains("generic"@) ==> text::texts(all@)[0] == "generic"@
                && text::texts(all@).drop_first() == text::texts(cpus@)
        },
{
    if let Ok(all) = r {
        if !text::texts(cpus@).contains("generic"@) {
            assert(text::texts(all@)[0] == "generic"@);
            assert(text::texts(all@).drop_first() =~= text::texts(cpus@));
        }
    }
}

/// The package's own table goes before that of the workspace, even where it lacks the target
/// CPUs.
pub proof fn packages_go_before_workspaces(
    package: Option<Option<Vec<String>>>,
    workspace: Option<Option<Vec<String>>>,
    r: Result<Vec<String>, SonicError>,
)
    requires
        call_ensures(effective_target_cpus, (package, workspace), r),
    ensures
        package matches Some(own) ==> (match own {
            Some(cpus) => r matches Ok(found) && found@ == cpus@,
            None => r matches Err(e) && e is PackageCpusMissing,
        }),
        package is None ==> (match workspace {
            Some(Some(cpus)) => r matches Ok(found) && found@ == cpus@,
            Some(None) => r matches Err(e) && e is WorkspaceCpusMissing,
            None => r matches Err(e) && e is CpusNotConfigured,
        }),
{
}

/// The flag for the target CPU comes after the flags of the environment.
pub proof fn the_target_cpu_comes_last(cpu: &str, environment: Option<Vec<u8>>, r: Vec<u8>)
    requires
        call_ensures(encoded_rustflags, (cpu, environment), r),
    ensures
        ({
            let flag = vstd::utf8::encode_utf8("-Ctarget-cpu="@ + cpu@);
            match environment {
                Some(flags) => if flags@.len() > 0 {
                    r@ == flags@ + seq![31u8] + flag
                } else {
                    r@ == flag
                },
                None => r@ == flag,
            }
        }),
{
    if let Some(flags) = environment {
        assert(flags@.push(31u8) =~= flags@ + seq![31u8]);
    }
}

/// A target CPU's name keeps its letters and digits; everything else becomes an underscore.
pub proof fn names_are_made_plain(cpu: &str, r: String, i: int)
    requires
        call_ensures(sanitize_cpu, (cpu,), r),
        0 <= i < cpu@.len(),
    ensures
        r@.len() == cpu@.len(),
        'a' <= cpu@[i] <= 'z' || 'A' <= cpu@[i] <= 'Z' || '0' <= cpu@[i] <= '9' ==> r@[i] == cpu@[i],
        !('a' <= cpu@[i] <= 'z' || 'A' <= cpu@[i] <= 'Z' || '0' <= cpu@[i] <= '9') ==> r@[i] == '_',
{
}

// ---------------------------------------------------------------------------
// What arguments and lists say

proof fn last_value_of_more(read: ArgRead, reads: Seq<ArgRead>, option: ArgOption)
    ensures
        last_value(seq![read] + reads, option) == (match last_value(reads, option) {
            Some(value) => Some(value),
            None => match read.set {
                Some((o, value)) => if o == option {
                    Some(value)
                } else {
                    None
                },
                None => None,
            },
        }),
    decreases reads.len(),
{
    let all = seq![read] + reads;
    if reads.len() == 0 {
        assert(all =~= seq![read]);
        assert(all.drop_last() =~= Seq::<ArgRead>::empty());
        assert(last_value(all.drop_last(), option) is None);
    } else {
        assert(all.last() == reads.last());
        assert(all.drop_last() =~= seq![read] + reads.drop_last());
        last_value_of_more(read, reads.drop_last(), option);
    }
}

proof fn handed_on_of_more(read: ArgRead, reads: Seq<ArgRead>)
    ensures
        handed_on(seq![read] + reads) == (match read.set {
            Some((ArgOption::ManifestPath, _)) => handed_on(reads),
            _ => read.words + handed_on(reads),
        }),
    decreases reads.len(),
{
    let all = seq![read] + reads;
    if reads.len() == 0 {
        assert(all =~= seq![read]);
        assert(all.drop_last() =~= Seq::<ArgRead>::empty());
        assert(handed_on(all.drop_last()) =~= Seq::<Seq<char>>::empty());
        assert(Seq::<Seq<char>>::empty() + read.words =~= read.words);
        assert(read.words + Seq::<Seq<char>>::empty() =~= read.words);
    } else {
        assert(all.last() == reads.last());
        assert(all.drop_last() =~= seq![read] + reads.drop_last());
        handed_on_of_more(read, reads.drop_last());
        assert(handed_on(all) =~= (match read.set {
            Some((ArgOption::ManifestPath, _)) => handed_on(reads),
            _ => read.words + handed_on(reads),
        }));
    }
}

proof fn release_of_more(read: ArgRead, reads: Seq<ArgRead>)
    ensures
        asks_release(seq![read] + reads) == (asks_release(reads) || read.set is None && read.words
            == seq!["--release"@]),
{
    let all = seq![read] + reads;
    assert(all[0] == read);
    if asks_release(reads) {
        let i = choose|i: int|
            0 <= i < reads.len() && (#[trigger] reads[i]).set is None && reads[i].words == seq![
                "--release"@,
            ];
        assert(all[i + 1] == reads[i]);
    }
    if asks_release(all) {
        let i = choose|i: int|
            0 <= i < all.len() && (#[trigger] all[i]).set is None && all[i].words == seq![
                "--release"@,
            ];
        if i > 0 {
            assert(reads[i - 1] == all[i]);
        }
    }
}

/// Arguments are read one by one. An option sets its own value unless a later argument sets it
/// again; `--release` asks for that profile; and all that is read is handed on but for the
/// manifest.
#[verifier::spinoff_prover]
#[verifier::rlimit(50)]
pub proof fn arguments_are_read_one_by_one(
    args: &[String],
    rest: &[String],
    after_next: &[String],
    got: CargoArgs,
    others: CargoArgs,
    later: CargoArgs,
)
    requires
        call_ensures(parse_cargo_args, (args,), got),
        call_ensures(parse_cargo_args, (rest,), others),
        call_ensures(parse_cargo_args, (after_next,), later),
        args@.len() > 1,
        text::texts(rest@) == text::texts(args@).skip(1),
        text::texts(after_next@) == text::texts(args@).skip(2),
    ensures
        ({
            let first = args@[0]@;
            let value = args@[1]@;
            let target = first == "--target"@;
            let bin = first == "--bin"@;
            let package = first == "--package"@ || first == "-p"@;
            let manifest = first == "--manifest-path"@;
            &&& target || bin || package || manifest ==> {
                &&& got.release == later.release
                &&& target && later.target is None ==> text::opt(got.target) == Some(value)
                &&& !target || later.target is Some ==> text::opt(got.target) == text::opt(
                    later.target,
                )
                &&& bin && later.bin is None ==> text::opt(got.bin) == Some(value)
                &&& !bin || later.bin is Some ==> text::opt(got.bin) == text::opt(later.bin)
                &&& package && later.package is None ==> text::opt(got.package) == Some(value)
                &&& !package || later.package is Some ==> text::opt(got.package) == text::opt(
                    later.package,
                )
                &&& manifest && later.manifest_path is None ==> text::opt(got.manifest_path)
                    == Some(value)
                &&& !manifest || later.manifest_path is Some ==> text::opt(got.manifest_path)
                    == text::opt(later.manifest_path)
                &&& manifest ==> text::texts(got.forwarded@) == text::texts(later.forwarded@)
                &&& !manifest ==> text::texts(got.forwarded@) == seq![first, value] + text::texts(
                    later.forwarded@,
                )
            }
            &&& first == "--release"@ || first.len() == 0 || first[0] != '-' ==> {
                &&& got.release == (others.release || first == "--release"@)
                &&& text::opt(got.target) == text::opt(others.target)
                &&& text::opt(got.bin) == text::opt(others.bin)
                &&& text::opt(got.package) == text::opt(others.package)
                &&& text::opt(got.manifest_path) == text::opt(others.manifest_path)
                &&& text::texts(got.forwarded@) == seq![first] + text::texts(others.forwarded@)
            }
        }),
{
    let all = text::texts(args@);
    let first = args@[0]@;
    let value = args@[1]@;
    assert(all[0] == first && all[1] == value);
    reveal_strlit("--target");
    reveal_strlit("--bin");
    reveal_strlit("--package");
    reveal_strlit("-p");
    reveal_strlit("--manifest-path");
    reveal_strlit("--release");
    reveal_strlit("--target=");
    reveal_strlit("--bin=");
    reveal_strlit("--package=");
    reveal_strlit("--manifest-path=");
    assert("--target"@.len() == 8 && "--bin"@.len() == 5 && "--package"@.len() == 9 && "-p"@.len()
        == 2 && "--manifest-path"@.len() == 15 && "--release"@.len() == 9);
    assert("--package"@[2] == 'p' && "--release"@[2] == 'r');
    let target = first == "--target"@;
    let bin = first == "--bin"@;
    let package = first == "--package"@ || first == "-p"@;
    let manifest = first == "--manifest-path"@;
    if target || bin || package || manifest {
        let option = if target {
            ArgOption::Target
        } else if bin {
            ArgOption::Bin
        } else if package {
            ArgOption::Package
        } else {
            ArgOption::ManifestPath
        };
        assert(option_named(first) == Some(option));
        let read = ArgRead { set: Some((option, value)), words: all.take(2) };
        let reads = reading(all.skip(2));
        assert(reading(all) == seq![read] + reads);
        assert(all.take(2) =~= seq![first, value]);
        last_value_of_more(read, reads, ArgOption::Target);
        last_value_of_more(read, reads, ArgOption::Bin);
        last_value_of_more(read, reads, ArgOption::Package);
        last_value_of_more(read, reads, ArgOption::ManifestPath);
        handed_on_of_more(read, reads);
        release_of_more(read, reads);
    }
    if first == "--release"@ || first.len() == 0 || first[0] != '-' {
        if first.len() == 0 || first[0] != '-' {
            assert("--target"@[0] == '-' && "--bin"@[0] == '-' && "--package"@[0] == '-' && "-p"@[0]
                == '-' && "--manifest-path"@[0] == '-' && "--release"@[0] == '-');
        }
        assert(option_named(first) is None);
        assert(option_joined(first) is None) by {
            not_begun_with(first, "--target="@);
            not_begun_with(first, "--bin="@);
            not_begun_with(first, "--package="@);
            not_begun_with(first, "--manifest-path="@);
        }
        let read = ArgRead { set: None, words: all.take(1) };
        let reads = reading(all.skip(1));
        assert(reading(all) == seq![read] + reads);
        assert(all.take(1) =~= seq![first]);
        assert(seq![first][0] == first);
        assert(seq!["--release"@][0] == "--release"@);
        last_value_of_more(read, reads, ArgOption::Target);
        last_value_of_more(read, reads, ArgOption::Bin);
        last_value_of_more(read, reads, ArgOption::Package);
        last_value_of_more(read, reads, ArgOption::ManifestPath);
        handed_on_of_more(read, reads);
        release_of_more(read, reads);
    }
}

proof fn not_begun_with(s: Seq<char>, prefix: Seq<char>)
    requires
        prefix.len() > 5,
        prefix[0] == '-',
        s.len() == 0 || s[0] != '-' || s.len() > 5 && (prefix[2] != s[2] || prefix[5] != s[5]),
    ensures
        !text::has_prefix(s, prefix),
{
    if text::has_prefix(s, prefix) {
        let t = s.take(prefix.len() as int);
        assert(t[0] == prefix[0]);
        assert(t[0] == s[0]);
        assert(t[2] == s[2]);
        assert(t[5] == s[5]);
    }
}

/// Of the features that rustc states all count but the one about linking.
pub proof fn all_but_linking_counts(features: &[String], r: Vec<String>, name: Seq<char>)
    requires
        call_ensures(filter_runtime_features, (features,), r),
    ensures
        text::texts(r@).contains(name) <==> text::texts(features@).contains(name) && name
            != "crt-static"@,
{
    let args = (features,);
    runtime_features::filter_holds(
        text::texts(args.0@),
        |f: Seq<char>| f != "crt-static"@,
        name,
    );
}

/// What is given goes before what the Cargo arguments say, and what they say before what rustc
/// runs on.
pub proof fn what_is_given_goes_first(
    given: &Option<String>,
    args: &CargoArgs,
    version: &str,
    manifest: Option<String>,
    target: Result<String, SonicError>,
    own: Result<String, SonicError>,
)
    requires
        call_ensures(requested_manifest, (given, args), manifest),
        call_ensures(command_target, (args, version), target),
        call_ensures(rustc_default_target, (version,), own),
    ensures
        *given is Some ==> text::opt(manifest) == text::opt(*given),
        *given is None ==> text::opt(manifest) == text::opt(args.manifest_path),
        args.target is Some ==> (target matches Ok(t) && t@ == args.target->0@),
        args.target is None && own is Ok ==> (target matches Ok(t) && t@ == own->Ok_0@),
        args.target is None && own is Err ==> target is Err,
{
}

/// Every target CPU of a plan has its variant, in the order of the target CPUs.
pub proof fn every_cpu_has_its_variant(
    cpus: &[String],
    arch: &str,
    answers: &[CpuAnswer],
    jobs: Vec<VariantBuildJob>,
    i: int,
)
    requires
        call_ensures(plan_variants, (cpus, arch, answers), Ok(jobs)),
        0 <= i < cpus@.len(),
    ensures
        jobs@.len() == cpus@.len(),
        jobs@[i].target_cpu@ == cpus@[i]@,
{
    let args = (cpus, arch, answers);
    let names = text::texts(args.0@);
    assert(names.len() == cpus@.len());
    assert(plans_variants(names, args.1@, args.2@, Ok(jobs)));
    assert(is_job_for(jobs@[i], names[i], args.1@, plan::cfg_text(args.2@, names[i])));
    assert(names[i] == cpus@[i]@);
}

/// A configuration that names the processor at hand is refused; a target that was named is the
/// one that is built for.
pub proof fn native_is_refused(
    cargo_args: &CargoArgs,
    configured: Vec<String>,
    target_dir: &str,
    answers: &RustcAnswers,
    r: Result<ConfiguredPlan, SonicError>,
    i: int,
)
    requires
        call_ensures(plan_build, (cargo_args, configured, target_dir, answers), r),
        0 <= i < configured@.len(),
    ensures
        configured@[i]@ == "native"@ ==> (r matches Err(e) && e is NativeRejected),
        cargo_args.target is Some ==> (r matches Ok(p) ==> p.target@ == cargo_args.target->0@),
{
    assert(text::texts(configured@)[i] == configured@[i]@);
}

/// Cargo is given each value under its own option; the target only if the arguments that are
/// handed on do not name one.
pub proof fn cargo_is_told(
    args: &CargoArgs,
    manifest_path: &Option<String>,
    target: &str,
    target_dir: &str,
    r: Vec<String>,
)
    requires
        call_ensures(payload_args, (args, manifest_path, target, target_dir), r),
    ensures
        ({
            let given = text::texts(r@);
            let handed = args.forwarded@.len() as int;
            let manifest = if *manifest_path is Some {
                2int
            } else {
                0
            };
            let named = if args.target is None {
                2int
            } else {
                0
            };
            let at = 1 + handed + manifest + named;
            &&& given.len() == at + 4
            &&& given[0] == "build"@
            &&& given.subrange(1, 1 + handed) == text::texts(args.forwarded@)
            &&& *manifest_path is Some ==> given[1 + handed] == "--manifest-path"@ && given[2
                + handed] == manifest_path->0@
            &&& args.target is None ==> given[at - 2] == "--target"@ && given[at - 1] == target@
            &&& given[at] == "--message-format"@ && given[at + 1] == "json-render-diagnostics"@
            &&& given[at + 2] == "--target-dir"@ && given[at + 3] == target_dir@
        }),
{
    let given = text::texts(r@);
    let handed = args.forwarded@.len() as int;
    assert(text::texts(args.forwarded@).len() == handed);
    assert(given.subrange(1, 1 + handed) =~= text::texts(args.forwarded@));
}

/// A payload is stored among the loader's payloads, under the plain name of its target CPU.
pub proof fn payloads_are_stored_with_the_loader(
    out_root: &str,
    cpu: &str,
    dir: String,
    dir_text: &str,
    name: String,
    file: &str,
    path: String,
    r: String,
)
    requires
        call_ensures(payload_path, (out_root, cpu), r),
        call_ensures(payload_dir, (out_root,), dir),
        dir_text@ == dir@,
        call_ensures(sanitize_cpu, (cpu,), name),
        file@ == name@ + ".elf"@,
        call_ensures(file_in, (dir_text, file), path),
    ensures
        r@ == path@,
{
}

} // verus!
