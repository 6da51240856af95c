//! Where the files of a build lie.
use crate::error::SonicError;
use crate::manifest::VariantBuild;
use crate::metadata::{CrateKind, Package};
use crate::output::push_all;
use crate::payload_names::{self, payload_file_name, sanitize_cpu, PayloadCompression};
use crate::text::{self, chars_of, string_from};
use camino::Utf8Path;
use vstd::prelude::*;
use vstd::string::StringExecFns;

verus! {

// ---------------------------------------------------------------------------
// Paths

/// Whether a path is absolute.
pub open spec fn absolute(path: Seq<char>) -> bool {
    path.len() > 0 && path[0] == '/'
}

/// The path that a path makes with a base: the path itself if it is absolute, else the base
/// and the path, with a slash between them unless the base is empty or ends in one.
pub open spec fn joined(base: Seq<char>, path: Seq<char>) -> Seq<char> {
    if absolute(path) {
        path
    } else if base.len() == 0 || base.last() == '/' {
        base + path
    } else {
        base + "/"@ + path
    }
}

/// The slash that parts a path.
pub const SLASH: u8 = 47;

/// The path that a path makes with a base, as `joined` has it, on paths that are bytes and
/// need not be text.
pub open spec fn joined_bytes(base: Seq<u8>, path: Seq<u8>) -> Seq<u8> {
    if path.len() > 0 && path[0] == SLASH {
        path
    } else if base.len() == 0 || base.last() == SLASH {
        base + path
    } else {
        base + seq![SLASH] + path
    }
}

/// The path that a path makes with a base, where the two need not be text.
pub fn join_bytes(base: &[u8], path: &[u8]) -> (r: Vec<u8>)
    ensures
        r@ == joined_bytes(base@, path@),
{
    let mut r: Vec<u8> = Vec::new();
    if path.len() == 0 || path[0] != SLASH {
        push_all(&mut r, base);
        if base.len() > 0 && base[base.len() - 1] != SLASH {
            r.push(SLASH);
        }
    }
    push_all(&mut r, path);
    r
}

/// The stem of the file name of a path, as `Utf8Path::file_stem` of the `camino` crate has
/// it.
pub uninterp spec fn stem_of(path: Seq<char>) -> Option<Seq<char>>;

/// `camino::Utf8Path::join`, which is that of std's `Path`, appends a path to another one with
/// a separator between them where one is needed, or replaces that one if the path is
/// absolute. The contract says what that means on the hosts of this crate, which follow the
/// rules of Unix for paths.
#[verifier::external_body]
fn join_paths(base: &str, path: &str) -> (r: String)
    ensures
        r@ == joined(base@, path@),
{
    Utf8Path::new(base).join(path).into_string()
}

/// `camino::Utf8Path::is_absolute`, which is that of std's `Path`, tells whether a path is
/// independent of the current directory: on the hosts of this crate, which follow the rules
/// of Unix for paths, whether it begins with a slash.
#[verifier::external_body]
fn is_absolute(path: &str) -> (r: bool)
    ensures
        r == absolute(path@),
{
    Utf8Path::new(path).is_absolute()
}

/// `camino::Utf8Path::file_stem` returns the file name of a path without its extension, if
/// the path has a file name. On the hosts of this crate, which follow the rules of Unix for
/// paths, what it returns depends on the path alone.
#[verifier::external_body]
fn file_stem(path: &str) -> (r: Option<String>)
    ensures
        text::opt(r) == stem_of(path@),
{
    Utf8Path::new(path).file_stem().map(str::to_owned)
}

/// A path made absolute, given the current directory.
pub open spec fn made_absolute(path: Seq<char>, current_dir: Seq<char>) -> Seq<char> {
    if absolute(path) {
        path
    } else {
        joined(current_dir, path)
    }
}

/// A path made absolute, given the current directory.
pub fn absolute_path(path: &str, current_dir: &str) -> (r: String)
    ensures
        r@ == made_absolute(path@, current_dir@),
{
    absolute_from(is_absolute(path), path, join_paths(current_dir, path))
}

/// The path itself if it is absolute, else the one that it makes with the current
/// directory.
pub fn absolute_from(is_absolute: bool, path: &str, with_current_dir: String) -> (r: String)
    ensures
        r@ == (if is_absolute {
            path@
        } else {
            with_current_dir@
        }),
{
    if is_absolute {
        path.to_owned()
    } else {
        with_current_dir
    }
}

/// The value of an environment variable.
#[derive(Debug, Clone)]
pub enum EnvText {
    Unset,
    Text(String),
    /// A value that is no text.
    NotText,
}

/// The first of two environment variables, or the second one if the first is not set.
pub open spec fn first_set(first: EnvText, second: EnvText) -> EnvText {
    if first is Unset {
        second
    } else {
        first
    }
}

/// The target directory that the environment names: `CARGO_TARGET_DIR` goes before
/// `CARGO_TARGET`, and the one that is set must hold text.
pub fn environment_target_dir<'a>(cargo_target_dir: &'a EnvText, cargo_target: &'a EnvText) -> (r:
    Result<Option<&'a str>, SonicError>)
    ensures
        match first_set(*cargo_target_dir, *cargo_target) {
            EnvText::Unset => r matches Ok(dir) && dir is None,
            EnvText::Text(text) => r matches Ok(Some(dir)) && dir@ == text@,
            EnvText::NotText => r matches Err(e) && e is TargetDirNotText,
        },
{
    let chosen = match cargo_target_dir {
        EnvText::Unset => cargo_target,
        _ => cargo_target_dir,
    };
    match chosen {
        EnvText::Unset => Ok(None),
        EnvText::Text(text) => Ok(Some(text.as_str())),
        EnvText::NotText => Err(SonicError::TargetDirNotText),
    }
}

/// The target directory: the one of the argument, else that of `CARGO_TARGET_DIR`, else that
/// of `CARGO_TARGET`, all relative to the current directory; else the one of the workspace.
pub fn effective_target_directory(
    argument: Option<&str>,
    cargo_target_dir: &EnvText,
    cargo_target: &EnvText,
    workspace: &str,
    current_dir: &str,
) -> (r: Result<String, SonicError>)
    ensures
        match argument {
            Some(dir) => r matches Ok(d) && d@ == made_absolute(dir@, current_dir@),
            None => match first_set(*cargo_target_dir, *cargo_target) {
                EnvText::Text(dir) => r matches Ok(d) && d@ == made_absolute(dir@, current_dir@),
                EnvText::NotText => r matches Err(e) && e is TargetDirNotText,
                EnvText::Unset => r matches Ok(d) && d@ == workspace@,
            },
        },
{
    if let Some(dir) = argument {
        return Ok(absolute_path(dir, current_dir));
    }
    match environment_target_dir(cargo_target_dir, cargo_target) {
        Ok(Some(dir)) => Ok(absolute_path(dir, current_dir)),
        Ok(None) => Ok(workspace.to_owned()),
        Err(e) => Err(e),
    }
}

// ---------------------------------------------------------------------------
// The files of a build

/// The name of the profile that Cargo builds with.
pub open spec fn profile_text(release: bool) -> Seq<char> {
    if release {
        "release"@
    } else {
        "debug"@
    }
}

/// The name of the profile that Cargo builds with.
pub fn profile_name(release: bool) -> (r: &'static str)
    ensures
        r@ == profile_text(release),
{
    if release {
        "release"
    } else {
        "debug"
    }
}

/// The directory that holds everything of a build.
pub open spec fn root_of(target_dir: Seq<char>, target: Seq<char>, release: bool) -> Seq<char> {
    joined(joined(joined(target_dir, "sonic"@), target), profile_text(release))
}

/// The directory that holds everything of a build.
pub fn output_root(target_dir: &str, target: &str, release: bool) -> (r: String)
    ensures
        r@ == root_of(target_dir@, target@, release),
{
    let sonic = join_paths(target_dir, "sonic");
    let of_target = join_paths(sonic.as_str(), target);
    join_paths(of_target.as_str(), profile_name(release))
}

/// The directory in which Cargo builds the payload for a target CPU.
pub fn variant_target_dir(out_root: &str, cpu: &str) -> (r: String)
    ensures
        r@ == joined(joined(out_root@, "variants"@), payload_names::safe_name(cpu@)),
{
    let variants = join_paths(out_root, "variants");
    let name = sanitize_cpu(cpu);
    join_paths(variants.as_str(), name.as_str())
}

/// The directory of the loader's package.
pub fn loader_dir(out_root: &str) -> (r: String)
    ensures
        r@ == joined(out_root@, "loader"@),
{
    join_paths(out_root, "loader")
}

/// The directory of the payloads in the loader's package.
pub fn payload_dir(out_root: &str) -> (r: String)
    ensures
        r@ == joined(joined(out_root@, "loader"@), "payloads"@),
{
    let loader = loader_dir(out_root);
    join_paths(loader.as_str(), "payloads")
}

/// The file of a payload in the loader's package.
pub fn payload_path(out_root: &str, cpu: &str, compression: PayloadCompression) -> (r: String)
    ensures
        r@ == joined(
            joined(joined(out_root@, "loader"@), "payloads"@),
            payload_names::file_name(cpu@, compression),
        ),
{
    let dir = payload_dir(out_root);
    let name = payload_file_name(cpu, compression);
    join_paths(dir.as_str(), name.as_str())
}

/// The directory in which Cargo builds the loader.
pub fn loader_target_dir(loader_dir: &str) -> (r: String)
    ensures
        r@ == joined(loader_dir@, "target"@),
{
    join_paths(loader_dir, "target")
}

/// The loader that Cargo builds.
pub fn loader_artifact(loader_dir: &str, target: &str, profile: &str) -> (r: String)
    ensures
        r@ == joined(
            joined(joined(joined(loader_dir@, "target"@), target@), profile@),
            "sonic-generated-loader"@,
        ),
{
    let target_dir = loader_target_dir(loader_dir);
    let of_target = join_paths(target_dir.as_str(), target);
    let of_profile = join_paths(of_target.as_str(), profile);
    join_paths(of_profile.as_str(), "sonic-generated-loader")
}

/// A file in a directory.
pub fn file_in(dir: &str, name: &str) -> (r: String)
    ensures
        r@ == joined(dir@, name@),
{
    join_paths(dir, name)
}

/// The executable that a build makes.
pub fn final_binary(out_root: &str, bin_name: &str) -> (r: String)
    ensures
        r@ == joined(out_root@, bin_name@),
{
    join_paths(out_root, bin_name)
}

/// The executable that a build makes lies below the target directory, in directories named
/// after the target and the profile.
pub proof fn final_binary_lies_below_the_target_directory(
    target_dir: Seq<char>,
    target: Seq<char>,
    release: bool,
    bin_name: Seq<char>,
)
    requires
        target_dir.len() > 0,
        target_dir.last() != '/',
        target.len() > 0,
        target[0] != '/',
        target.last() != '/',
        !absolute(bin_name),
    ensures
        joined(root_of(target_dir, target, release), bin_name) == target_dir + "/sonic/"@ + target
            + "/"@ + profile_text(release) + "/"@ + bin_name,
{
    reveal_strlit("sonic");
    reveal_strlit("/sonic/");
    reveal_strlit("/");
    reveal_strlit("release");
    reveal_strlit("debug");
    assert(target_dir + "/"@ + "sonic"@ + "/"@ =~= target_dir + "/sonic/"@);
}

/// The directory that holds the payloads of a bundle.
pub fn bundle_dir_for(final_binary: &str) -> (r: String)
    ensures
        r@ == final_binary@ + ".bundle"@,
{
    let mut r = final_binary.to_owned();
    r.append(".bundle");
    r
}

/// `s` without the zero characters that it ends with.
pub open spec fn without_zeros(s: Seq<char>) -> Seq<char>
    decreases s.len(),
{
    if s.len() > 0 && s.last() == '\0' {
        without_zeros(s.drop_last())
    } else {
        s
    }
}

/// `s` without the zero characters that it ends with.
fn trim_zeros(s: &str) -> (r: String)
    ensures
        r@ == without_zeros(s@),
{
    let chars = chars_of(s);
    let mut n: usize = chars.len();
    assert(chars@.take(n as int) =~= s@);
    while n > 0 && chars[n - 1] == '\0'
        invariant
            n <= chars@.len(),
            without_zeros(chars@.take(n as int)) == without_zeros(s@),
        decreases n,
    {
        assert(chars@.take(n as int).drop_last() =~= chars@.take(n - 1));
        n -= 1;
    }
    let r = string_from(&chars, 0, n);
    assert(r@ =~= chars@.take(n as int));
    r
}

/// A file to copy.
#[derive(Debug)]
pub struct FileCopy {
    pub from: String,
    pub to: String,
}

/// The files that make up a bundle: each payload goes into the bundle's directory under its
/// file name.
pub fn bundle_copies(final_binary: &str, variants: &[VariantBuild]) -> (r: Vec<FileCopy>)
    ensures
        r@.len() == variants@.len(),
        forall|i: int|
            0 <= i < r@.len() ==> (#[trigger] r@[i]).from@ == variants@[i].artifact@ && r@[i].to@
                == joined(final_binary@ + ".bundle"@, without_zeros(variants@[i].bundle_path@)),
{
    let dir = bundle_dir_for(final_binary);
    let mut out: Vec<FileCopy> = Vec::new();
    while out.len() < variants.len()
        invariant
            out@.len() <= variants@.len(),
            dir@ == final_binary@ + ".bundle"@,
            forall|i: int|
                0 <= i < out@.len() ==> (#[trigger] out@[i]).from@ == variants@[i].artifact@
                    && out@[i].to@ == joined(
                    final_binary@ + ".bundle"@,
                    without_zeros(variants@[i].bundle_path@),
                ),
        decreases variants@.len() - out@.len(),
    {
        let variant = &variants[out.len()];
        let name = trim_zeros(variant.bundle_path.as_str());
        let to = join_paths(dir.as_str(), name.as_str());
        out.push(FileCopy { from: variant.artifact.clone(), to });
    }
    out
}

/// The path of a payload in a bundle, ended by a zero as the loader's system calls need it.
pub fn bundle_path(cpu: &str, compression: PayloadCompression) -> (r: String)
    ensures
        r@ == payload_names::file_name(cpu@, compression).push('\0'),
{
    let mut r = payload_file_name(cpu, compression);
    r.push('\0');
    r
}

// ---------------------------------------------------------------------------
// The name of the binary

/// Whether a target of a package is a binary.
pub open spec fn is_bin(kinds: Seq<CrateKind>) -> bool {
    exists|i: int| 0 <= i < kinds.len() && (#[trigger] kinds[i]) is Bin
}

/// Whether one of the kinds is that of a binary.
pub fn has_bin_kind(kinds: &[CrateKind]) -> (r: bool)
    ensures
        r == is_bin(kinds@),
{
    let mut i: usize = 0;
    while i < kinds.len()
        invariant
            i <= kinds@.len(),
            forall|j: int| 0 <= j < i ==> !((#[trigger] kinds@[j]) is Bin),
        decreases kinds@.len() - i,
    {
        if kinds[i] == CrateKind::Bin {
            return true;
        }
        i += 1;
    }
    false
}

/// The positions of the binaries among the first `n` targets of a package.
pub open spec fn bins(package: Package, n: int) -> Seq<int>
    decreases n,
{
    if n <= 0 {
        Seq::empty()
    } else if is_bin(package.targets@[n - 1].kinds@) {
        bins(package, n - 1).push(n - 1)
    } else {
        bins(package, n - 1)
    }
}

/// The name of the final binary, given the stem of the first payload's file name: the name
/// that was asked for; else that of the only binary of the package; else the stem.
pub open spec fn is_bin_name(
    package: Package,
    explicit_bin: Option<Seq<char>>,
    stem: Option<Seq<char>>,
    r: Result<String, SonicError>,
) -> bool {
    let all = bins(package, package.targets@.len() as int);
    match explicit_bin {
        Some(bin) => r matches Ok(name) && name@ == bin,
        None => if all.len() == 1 {
            r matches Ok(name) && name@ == package.targets@[all[0]].name@
        } else {
            match stem {
                Some(s) => r matches Ok(name) && name@ == s,
                None => r matches Err(e) && e is MultipleBinaries,
            }
        },
    }
}

/// The name of the final binary, given the stem of the first payload's file name.
pub fn bin_name_from(package: &Package, explicit_bin: Option<&str>, stem: Option<String>) -> (r:
    Result<String, SonicError>)
    ensures
        is_bin_name(
            *package,
            match explicit_bin {
                Some(bin) => Some(bin@),
                None => None,
            },
            text::opt(stem),
            r,
        ),
{
    if let Some(bin) = explicit_bin {
        return Ok(bin.to_owned());
    }
    let mut found: usize = 0;
    let mut first: usize = 0;
    let mut i: usize = 0;
    while i < package.targets.len()
        invariant
            i <= package.targets@.len(),
            found == bins(*package, i as int).len(),
            found <= i,
            found > 0 ==> first == bins(*package, i as int)[0] && first < i,
        decreases package.targets@.len() - i,
    {
        if has_bin_kind(&package.targets[i].kinds) {
            if found == 0 {
                first = i;
            }
            found += 1;
        }
        i += 1;
    }
    if found == 1 {
        return Ok(package.targets[first].name.clone());
    }
    match stem {
        Some(stem) => Ok(stem),
        None => Err(SonicError::MultipleBinaries),
    }
}

/// The name of the final binary, given the first payload, if there is one: the name that was
/// asked for; else that of the only binary of the package; else the stem of the payload's
/// file name.
pub fn bin_name_for(package: &Package, explicit_bin: Option<&str>, payload: Option<&str>) -> (r:
    Result<String, SonicError>)
    ensures
        is_bin_name(
            *package,
            match explicit_bin {
                Some(bin) => Some(bin@),
                None => None,
            },
            match payload {
                Some(path) => stem_of(path@),
                None => None,
            },
            r,
        ),
{
    let stem = match payload {
        Some(path) => file_stem(path),
        None => None,
    };
    bin_name_from(package, explicit_bin, stem)
}

/// The name of the final binary of a build with the given variants.
pub fn resolve_bin_name(
    package: &Package,
    explicit_bin: Option<&str>,
    variants: &[VariantBuild],
) -> (r: Result<String, SonicError>)
    ensures
        is_bin_name(
            *package,
            match explicit_bin {
                Some(bin) => Some(bin@),
                None => None,
            },
            if variants@.len() > 0 {
                stem_of(variants@[0].artifact@)
            } else {
                None
            },
            r,
        ),
{
    let payload = if variants.len() > 0 {
        Some(variants[0].artifact.as_str())
    } else {
        None
    };
    bin_name_for(package, explicit_bin, payload)
}

// ---------------------------------------------------------------------------
// Which directory counts

/// The target directory is that of the argument, else that of `CARGO_TARGET_DIR`, else that of
/// `CARGO_TARGET`, each taken from the current directory unless it is absolute; else that of the
/// workspace. A variable that counts and is no text is an error.
pub proof fn target_directories_have_an_order(
    argument: Option<&str>,
    first: &EnvText,
    second: &EnvText,
    workspace: &str,
    current_dir: &str,
    dir: &str,
    below: String,
    r: Result<String, SonicError>,
)
    requires
        call_ensures(effective_target_directory, (argument, first, second, workspace, current_dir), r),
        call_ensures(absolute_path, (dir, current_dir), below),
    ensures
        argument == Some(dir) ==> (r matches Ok(d) && d@ == below@),
        argument is None && (*first matches EnvText::Text(t) && t@ == dir@) ==> (r matches Ok(d)
            && d@ == below@),
        argument is None && *first is Unset && (*second matches EnvText::Text(t) && t@ == dir@) ==> (
        r matches Ok(d) && d@ == below@),
        argument is None && *first is Unset && *second is Unset ==> (r matches Ok(d) && d@
            == workspace@),
        argument is None && *first is NotText ==> r is Err,
        argument is None && *first is Unset && *second is NotText ==> r is Err,
        dir@.len() > 0 && dir@[0] == '/' ==> below@ == dir@,
        (dir@.len() == 0 || dir@[0] != '/') && current_dir@.len() > 0 && current_dir@.last() != '/'
            ==> below@ == current_dir@ + seq!['/'] + dir@,
{
    reveal_strlit("/");
    assert("/"@ =~= seq!['/']);
}

/// Bytes are joined as text is: an absolute path stands alone, any other one comes after the
/// base, with one slash between them.
pub proof fn joined_paths_have_one_slash(base: &[u8], path: &[u8], r: Vec<u8>)
    requires
        call_ensures(join_bytes, (base, path), r),
    ensures
        path@.len() > 0 && path@[0] == 47 ==> r@ == path@,
        path@.len() == 0 || path@[0] != 47 ==> {
            &&& base@.len() == 0 ==> r@ == path@
            &&& base@.len() > 0 && base@.last() == 47 ==> r@ == base@ + path@
            &&& base@.len() > 0 && base@.last() != 47 ==> r@ == base@ + seq![47u8] + path@
        },
{
    if base@.len() == 0 {
        assert(base@ + path@ =~= path@);
    }
}

/// A bundle holds a copy of each payload, under the payload's file name.
pub proof fn bundles_hold_every_payload(
    binary: &str,
    variants: &[VariantBuild],
    copies: Vec<FileCopy>,
    i: int,
    cpu: &str,
    compression: PayloadCompression,
    path: String,
    name: String,
)
    requires
        call_ensures(bundle_copies, (binary, variants), copies),
        0 <= i < variants@.len(),
        call_ensures(bundle_path, (cpu, compression), path),
        call_ensures(payload_file_name, (cpu, compression), name),
        variants@[i].bundle_path@ == path@,
        name@.len() > 0,
        name@.last() != '\0',
    ensures
        copies@.len() == variants@.len(),
        copies@[i].from@ == variants@[i].artifact@,
        copies@[i].to@ == joined(binary@ + ".bundle"@, name@),
        path@ == name@.push('\0'),
{
    let args = (binary, variants);
    assert(copies@[i].to@ == joined(args.0@ + ".bundle"@, without_zeros(args.1@[i].bundle_path@)));
    assert(path@.drop_last() =~= name@);
    assert(without_zeros(name@) == name@);
}

/// The files of a build lie below its root: builds of payloads in a directory of their own for
/// each target CPU, the payloads below the loader's package.
pub proof fn builds_do_not_mix(
    root: &str,
    a: &str,
    b: &str,
    dir_a: String,
    dir_b: String,
)
    requires
        call_ensures(variant_target_dir, (root, a), dir_a),
        call_ensures(variant_target_dir, (root, b), dir_b),
        a@ != b@,
        a@.len() > 0,
        b@.len() > 0,
    ensures
        dir_a@ != dir_b@,
{
    reveal_strlit("variants");
    reveal_strlit("/");
    let base = joined(root@, "variants"@);
    let (x, y) = (payload_names::safe_name(a@), payload_names::safe_name(b@));
    payload_names::safe_name_is_relative(a@);
    payload_names::safe_name_is_relative(b@);
    if x == y {
        payload_names::safe_names_are_injective(a@, b@);
    }
    assert(base.len() > 0 && base.last() == 's');
    assert(dir_a@ == base + "/"@ + x);
    assert(dir_b@ == base + "/"@ + y);
    assert((base + "/"@ + x).skip(base.len() as int + 1) =~= x);
    assert((base + "/"@ + y).skip(base.len() as int + 1) =~= y);
}

/// Everything of a build lies in a directory of its own for each target and profile, below
/// `sonic` in the target directory; the executable in it, and its bundle beside it.
pub proof fn builds_lie_below_sonic(
    target_dir: &str,
    target: &str,
    release: bool,
    root: String,
    root_text: &str,
    bin: &str,
    binary: String,
    binary_text: &str,
    bundle: String,
)
    requires
        call_ensures(output_root, (target_dir, target, release), root),
        root_text@ == root@,
        call_ensures(final_binary, (root_text, bin), binary),
        binary_text@ == binary@,
        call_ensures(bundle_dir_for, (binary_text,), bundle),
        target_dir@.len() > 0,
        target_dir@.last() != '/',
        target@.len() > 0,
        target@[0] != '/',
        target@.last() != '/',
        bin@.len() > 0,
        bin@[0] != '/',
    ensures
        root@ == target_dir@ + "/sonic/"@ + target@ + (if release {
            "/release"@
        } else {
            "/debug"@
        }),
        binary@ == root@ + "/"@ + bin@,
        bundle@ == binary@ + ".bundle"@,
{
    reveal_strlit("sonic");
    reveal_strlit("/");
    reveal_strlit("/sonic/");
    reveal_strlit("release");
    reveal_strlit("debug");
    reveal_strlit("/release");
    reveal_strlit("/debug");
    let a = joined(target_dir@, "sonic"@);
    assert(a == target_dir@ + "/"@ + "sonic"@);
    assert(a.last() == 'c');
    let b = joined(a, target@);
    assert(b == a + "/"@ + target@);
    assert(b.last() == target@.last());
    assert(root@ == b + "/"@ + profile_text(release));
    assert("/"@ + "sonic"@ + "/"@ =~= "/sonic/"@);
    assert("/"@ + "release"@ =~= "/release"@);
    assert("/"@ + "debug"@ =~= "/debug"@);
    assert(root@ =~= target_dir@ + ("/"@ + "sonic"@ + "/"@) + target@ + ("/"@ + profile_text(
        release,
    )));
    assert(root@.last() == profile_text(release).last());
}

/// A binary that was asked for counts. Without a request the only binary of the package does,
/// and if it is not the only one, the name that the payload's file has.
pub proof fn binaries_are_named(
    package: &Package,
    asked: &str,
    stem: Option<String>,
    named: Result<String, SonicError>,
    found: Result<String, SonicError>,
    i: int,
    j: int,
    bin_i: bool,
    bin_j: bool,
)
    requires
        call_ensures(bin_name_from, (package, Some(asked), stem), named),
        call_ensures(bin_name_from, (package, None, stem), found),
        0 <= i < package.targets@.len(),
        0 <= j < package.targets@.len(),
        i != j,
        bin_i == is_bin(package.targets@[i].kinds@),
        bin_j == is_bin(package.targets@[j].kinds@),
    ensures
        named matches Ok(name) && name@ == asked@,
        bin_i && (forall|k: int|
            0 <= k < package.targets@.len() && k != i ==> !is_bin(
                (#[trigger] package.targets@[k]).kinds@,
            )) ==> (found matches Ok(name) && name@ == package.targets@[i].name@),
        bin_i && bin_j && stem is Some ==> (found matches Ok(name) && name@ == stem->0@),
        bin_i && bin_j && stem is None ==> (found matches Err(e) && e is MultipleBinaries),
{
    let n = package.targets@.len() as int;
    if bin_i && (forall|k: int|
        0 <= k < package.targets@.len() && k != i ==> !is_bin(
            (#[trigger] package.targets@[k]).kinds@,
        )) {
        one_bin(*package, n, i);
    }
    if bin_i && bin_j {
        if i < j {
            two_bins(*package, n, i, j);
        } else {
            two_bins(*package, n, j, i);
        }
    }
}

proof fn one_bin(package: Package, n: int, i: int)
    requires
        0 <= n <= package.targets@.len(),
        0 <= i < package.targets@.len(),
        is_bin(package.targets@[i].kinds@),
        forall|k: int|
            0 <= k < package.targets@.len() && k != i ==> !is_bin(
                (#[trigger] package.targets@[k]).kinds@,
            ),
    ensures
        bins(package, n) == (if i < n {
            seq![i]
        } else {
            Seq::empty()
        }),
    decreases n,
{
    if n > 0 {
        one_bin(package, n - 1, i);
        assert(package.targets@[n - 1].kinds@ == package.targets@[n - 1].kinds@);
        if n - 1 == i {
            assert(Seq::<int>::empty().push(i) =~= seq![i]);
        }
    }
}

proof fn two_bins(package: Package, n: int, i: int, j: int)
    requires
        0 <= i < j < n <= package.targets@.len(),
        is_bin(package.targets@[i].kinds@),
        is_bin(package.targets@[j].kinds@),
    ensures
        bins(package, n).len() >= 2,
    decreases n,
{
    if n - 1 == j {
        some_bin(package, n - 1, i);
    } else {
        two_bins(package, n - 1, i, j);
    }
}

proof fn some_bin(package: Package, n: int, i: int)
    requires
        0 <= i < n <= package.targets@.len(),
        is_bin(package.targets@[i].kinds@),
    ensures
        bins(package, n).len() >= 1,
    decreases n,
{
    if n - 1 != i {
        some_bin(package, n - 1, i);
    }
}

} // verus!
