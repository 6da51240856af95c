//! The files of the generated loader.
use crate::loader_modules::{
    self, generated_arch_aarch64, generated_arch_x86_64, generated_feature_mask, generated_select,
};
use crate::loader_source::{
    self, generated_linux_sys, generated_main, generated_package, generated_stack,
};
use crate::manifest::{self, generated_manifest, uses_zstd, VariantBuild};
use crate::payload_names::LoaderStrategy;
use crate::text::{self, str_list};
use vstd::prelude::*;

verus! {

/// A file to write.
#[derive(Debug)]
pub struct GeneratedFile {
    /// The path below the loader's directory.
    pub path: String,
    pub contents: String,
}

/// Whether a payload is stored in zstd format.
pub open spec fn some_zstd(variants: Seq<VariantBuild>) -> bool {
    exists|i: int| 0 <= i < variants.len() && (#[trigger] variants[i]).payload_compression is Zstd
}

/// The files of a loader by path and contents.
pub open spec fn loader_texts(variants: Seq<VariantBuild>, strategy: LoaderStrategy) -> Seq<
    (Seq<char>, Seq<char>),
> {
    seq![
        (
            "Cargo.toml"@,
            loader_source::LOADER_PACKAGE@ + (if some_zstd(variants) {
                loader_source::ZSTD_DEPENDENCY@
            } else {
                ""@
            }),
        ),
        ("src/feature_mask.rs"@, loader_modules::feature_mask_text()),
        ("src/select.rs"@, loader_modules::select_text()),
        ("src/arch_x86_64.rs"@, loader_modules::arch_x86_64_text()),
        ("src/arch_aarch64.rs"@, loader_modules::arch_aarch64_text()),
        ("src/linux_sys.rs"@, loader_source::LINUX_SYS@),
        ("src/stack.rs"@, loader_source::STACK@),
        ("src/generated_manifest.rs"@, manifest::manifest_text(variants, strategy)),
        ("src/main.rs"@, loader_source::main_text(some_zstd(variants), strategy)),
    ]
}

/// Files by path and contents.
pub open spec fn texts_of(files: Seq<GeneratedFile>) -> Seq<(Seq<char>, Seq<char>)> {
    files.map_values(|file: GeneratedFile| (file.path@, file.contents@))
}

/// Appends a file.
pub fn push_file(files: &mut Vec<GeneratedFile>, path: &str, contents: String)
    ensures
        texts_of(final(files)@) == texts_of(old(files)@).push((path@, contents@)),
{
    files.push(GeneratedFile { path: path.to_owned(), contents });
    assert(texts_of(files@) =~= texts_of(old(files)@).push((path@, contents@)));
}

/// The files of a loader.
pub fn loader_files(target: &str, variants: &[VariantBuild], strategy: LoaderStrategy) -> (r: Vec<
    GeneratedFile,
>)
    ensures
        texts_of(r@) == loader_texts(variants@, strategy),
{
    let zstd = uses_zstd(variants);
    let mut files: Vec<GeneratedFile> = Vec::new();
    assert(texts_of(files@) =~= Seq::<(Seq<char>, Seq<char>)>::empty());
    push_file(&mut files, "Cargo.toml", generated_package(zstd));
    push_file(&mut files, "src/feature_mask.rs", generated_feature_mask());
    push_file(&mut files, "src/select.rs", generated_select());
    push_file(&mut files, "src/arch_x86_64.rs", generated_arch_x86_64());
    push_file(&mut files, "src/arch_aarch64.rs", generated_arch_aarch64());
    push_file(&mut files, "src/linux_sys.rs", generated_linux_sys().to_owned());
    push_file(&mut files, "src/stack.rs", generated_stack().to_owned());
    push_file(&mut files, "src/generated_manifest.rs", generated_manifest(variants, strategy));
    push_file(&mut files, "src/main.rs", generated_main(target, zstd, strategy));
    assert(texts_of(files@) =~= loader_texts(variants@, strategy));
    files
}

/// The arguments with which Cargo builds the loader.
pub fn loader_args(target: &str, target_dir: &str, release: bool) -> (r: Vec<String>)
    ensures
        text::texts(r@) == seq!["build"@, "--target"@, target@, "--target-dir"@, target_dir@] + (
        if release {
            seq!["--release"@]
        } else {
            Seq::empty()
        }),
{
    let mut r = str_list(&["build", "--target", target, "--target-dir", target_dir]);
    let ghost start = text::texts(r@);
    assert(start =~= seq!["build"@, "--target"@, target@, "--target-dir"@, target_dir@]);
    if release {
        r.push("--release".to_owned());
        assert(text::texts(r@) =~= start.push("--release"@));
    }
    assert(text::texts(r@) =~= seq!["build"@, "--target"@, target@, "--target-dir"@, target_dir@]
        + (if release {
        seq!["--release"@]
    } else {
        Seq::empty()
    }));
    r
}

/// Each file of the loader holds what belongs under its path. The table and the main module
/// suit the variants: the decompressor is there if and only if a payload needs it.
pub proof fn files_hold_their_module(
    target: &str,
    variants: &[VariantBuild],
    strategy: LoaderStrategy,
    files: Vec<GeneratedFile>,
    zstd: bool,
    package: String,
    mask: String,
    select: String,
    x86: String,
    arm: String,
    table: String,
    main: String,
)
    requires
        call_ensures(loader_files, (target, variants, strategy), files),
        zstd <==> exists|i: int|
            0 <= i < variants@.len() && (#[trigger] variants@[i]).payload_compression is Zstd,
        call_ensures(generated_package, (zstd,), package),
        call_ensures(generated_feature_mask, (), mask),
        call_ensures(generated_select, (), select),
        call_ensures(generated_arch_x86_64, (), x86),
        call_ensures(generated_arch_aarch64, (), arm),
        call_ensures(generated_manifest, (variants, strategy), table),
        call_ensures(generated_main, (target, zstd, strategy), main),
    ensures
        files@.len() == 9,
        files@[0].path@ == "Cargo.toml"@ && files@[0].contents@ == package@,
        files@[1].path@ == "src/feature_mask.rs"@ && files@[1].contents@ == mask@,
        files@[2].path@ == "src/select.rs"@ && files@[2].contents@ == select@,
        files@[3].path@ == "src/arch_x86_64.rs"@ && files@[3].contents@ == x86@,
        files@[4].path@ == "src/arch_aarch64.rs"@ && files@[4].contents@ == arm@,
        files@[5].path@ == "src/linux_sys.rs"@ && files@[5].contents@ == loader_source::LINUX_SYS@,
        files@[6].path@ == "src/stack.rs"@ && files@[6].contents@ == loader_source::STACK@,
        files@[7].path@ == "src/generated_manifest.rs"@ && files@[7].contents@ == table@,
        files@[8].path@ == "src/main.rs"@ && files@[8].contents@ == main@,
{
    let t = texts_of(files@);
    assert(t.len() == files@.len());
    assert(t[0] == (files@[0].path@, files@[0].contents@));
    assert(t[1] == (files@[1].path@, files@[1].contents@));
    assert(t[2] == (files@[2].path@, files@[2].contents@));
    assert(t[3] == (files@[3].path@, files@[3].contents@));
    assert(t[4] == (files@[4].path@, files@[4].contents@));
    assert(t[5] == (files@[5].path@, files@[5].contents@));
    assert(t[6] == (files@[6].path@, files@[6].contents@));
    assert(t[7] == (files@[7].path@, files@[7].contents@));
    assert(t[8] == (files@[8].path@, files@[8].contents@));
    assert(zstd == some_zstd(variants@));
}

/// The loader is built for the target, in a directory of its own, and with the profile of the
/// payloads.
pub proof fn loaders_are_built_for_the_target(
    target: &str,
    target_dir: &str,
    debug: Vec<String>,
    release: Vec<String>,
)
    requires
        call_ensures(loader_args, (target, target_dir, false), debug),
        call_ensures(loader_args, (target, target_dir, true), release),
    ensures
        text::texts(debug@) == seq!["build"@, "--target"@, target@, "--target-dir"@, target_dir@],
        text::texts(release@) == text::texts(debug@).push("--release"@),
{
    assert(text::texts(debug@) =~= seq![
        "build"@,
        "--target"@,
        target@,
        "--target-dir"@,
        target_dir@,
    ]);
    assert(text::texts(release@) =~= text::texts(debug@).push("--release"@));
}

} // verus!
