//! What the system tests do to prepare QEMU and its guests, step by step.
use crate::paths::{self, file_in};
use crate::qemu::{
    self, archive_name, guest_init, sanitize_path_component, shell_quote, SystemArch,
    SystemManifest, TEST_APP_MAIN, TEST_APP_PACKAGE,
};
use crate::text::{self, join_list, str_eq, str_list};
use vstd::prelude::*;
use vstd::string::StringExecFns;

verus! {

// ---------------------------------------------------------------------------
// Steps

/// A command to run.
#[derive(Debug)]
pub struct Run {
    /// What the command is for.
    pub label: String,
    pub program: String,
    pub args: Vec<String>,
    /// The directory to run it in, if not the current one.
    pub dir: Option<String>,
}

/// One thing to do.
#[derive(Debug)]
pub enum Step {
    Say { line: String },
    /// The host must have the tool.
    Need { tool: String },
    CreateDir { path: String },
    RemoveDir { path: String },
    /// Gets a file, unless it is there.
    Download { url: String, path: String },
    Verify { path: String, sha256: String },
    Copy { from: String, to: String },
    Write { path: String, contents: String },
    MakeExecutable { path: String },
    Run(Run),
}

/// A command by its texts.
pub struct RunModel {
    pub label: Seq<char>,
    pub program: Seq<char>,
    pub args: Seq<Seq<char>>,
    pub dir: Option<Seq<char>>,
}

/// A step by its texts.
pub enum StepModel {
    Say(Seq<char>),
    Need(Seq<char>),
    CreateDir(Seq<char>),
    RemoveDir(Seq<char>),
    Download(Seq<char>, Seq<char>),
    Verify(Seq<char>, Seq<char>),
    Copy(Seq<char>, Seq<char>),
    Write(Seq<char>, Seq<char>),
    MakeExecutable(Seq<char>),
    Run(RunModel),
}

impl View for Run {
    type V = RunModel;

    open spec fn view(&self) -> RunModel {
        RunModel {
            label: self.label@,
            program: self.program@,
            args: text::texts(self.args@),
            dir: text::opt(self.dir),
        }
    }
}

impl View for Step {
    type V = StepModel;

    open spec fn view(&self) -> StepModel {
        match self {
            Step::Say { line } => StepModel::Say(line@),
            Step::Need { tool } => StepModel::Need(tool@),
            Step::CreateDir { path } => StepModel::CreateDir(path@),
            Step::RemoveDir { path } => StepModel::RemoveDir(path@),
            Step::Download { url, path } => StepModel::Download(url@, path@),
            Step::Verify { path, sha256 } => StepModel::Verify(path@, sha256@),
            Step::Copy { from, to } => StepModel::Copy(from@, to@),
            Step::Write { path, contents } => StepModel::Write(path@, contents@),
            Step::MakeExecutable { path } => StepModel::MakeExecutable(path@),
            Step::Run(run) => StepModel::Run(run@),
        }
    }
}

/// The steps of a plan by their texts.
pub open spec fn models(steps: Seq<Step>) -> Seq<StepModel> {
    steps.map_values(|step: Step| step@)
}

/// Appends a step.
fn push_step(steps: &mut Vec<Step>, step: Step)
    ensures
        models(final(steps)@) == models(old(steps)@).push(step@),
{
    steps.push(step);
    assert(models(steps@) =~= models(old(steps)@).push(step@));
}

/// No steps.
fn no_steps() -> (r: Vec<Step>)
    ensures
        models(r@) == Seq::<StepModel>::empty(),
{
    let steps: Vec<Step> = Vec::new();
    assert(models(steps@) =~= Seq::<StepModel>::empty());
    steps
}

/// The step that needs a tool.
fn need(tool: &str) -> (r: Step)
    ensures
        r@ == StepModel::Need(tool@),
{
    Step::Need { tool: tool.to_owned() }
}

/// The step that runs a command in the current directory.
fn run(label: &str, program: &str, args: Vec<String>) -> (r: Step)
    ensures
        r@ == StepModel::Run(
            RunModel {
                label: label@,
                program: program@,
                args: text::texts(args@),
                dir: None,
            },
        ),
{
    Step::Run(Run { label: label.to_owned(), program: program.to_owned(), args, dir: None })
}

/// The step that runs a command in a directory.
fn run_in(label: &str, program: &str, args: Vec<String>, dir: &str) -> (r: Step)
    ensures
        r@ == StepModel::Run(
            RunModel {
                label: label@,
                program: program@,
                args: text::texts(args@),
                dir: Some(dir@),
            },
        ),
{
    Step::Run(
        Run {
            label: label.to_owned(),
            program: program.to_owned(),
            args,
            dir: Some(dir.to_owned()),
        },
    )
}

/// Text before another one.
fn prefixed(prefix: &str, s: &str) -> (r: String)
    ensures
        r@ == prefix@ + s@,
{
    let mut r = prefix.to_owned();
    r.append(s);
    r
}

/// Text between two others.
fn enclosed(start: &str, s: &str, end: &str) -> (r: String)
    ensures
        r@ == start@ + s@ + end@,
{
    let mut r = start.to_owned();
    r.append(s);
    r.append(end);
    r
}

/// The step that unpacks an archive.
pub open spec fn unpack_step(
    label: Seq<char>,
    flags: Seq<char>,
    archive: Seq<char>,
    dir: Seq<char>,
    members: Seq<Seq<char>>,
) -> StepModel {
    StepModel::Run(
        RunModel {
            label,
            program: "tar"@,
            args: seq![flags, archive, "-C"@, dir] + members,
            dir: None,
        },
    )
}

/// The step that unpacks all of an archive.
fn unpack(label: &str, flags: &str, archive: &str, dir: &str) -> (r: Step)
    ensures
        r@ == unpack_step(label@, flags@, archive@, dir@, Seq::empty()),
{
    let args = str_list(&[flags, archive, "-C", dir]);
    assert(text::texts(args@) =~= seq![flags@, archive@, "-C"@, dir@] + Seq::<
        Seq<char>,
    >::empty());
    run(label, "tar", args)
}

// ---------------------------------------------------------------------------
// QEMU

/// What is there of QEMU.
#[derive(Debug, Clone, Copy)]
pub struct QemuState {
    /// Whether every binary that the manifest names is there.
    pub binaries: bool,
    pub source: bool,
    pub x86_64_installed: bool,
    pub aarch64_installed: bool,
    /// Whether the host has `ninja`.
    pub host_ninja: bool,
    /// Whether `ninja` is among the prepared tools.
    pub own_ninja: bool,
}

/// The directory of the prepared tools.
pub open spec fn tools_dir(asset_dir: Seq<char>) -> Seq<char> {
    paths::joined(asset_dir, "tools/python"@)
}

/// The directory of the prepared tools' binaries, which goes in front of the search path,
/// unless the host has them.
pub fn extra_path(asset_dir: &str, state: QemuState) -> (r: Option<String>)
    ensures
        if state.host_ninja {
            r is None
        } else {
            r matches Some(dir) && dir@ == paths::joined(tools_dir(asset_dir@), "bin"@)
        },
{
    if state.host_ninja {
        None
    } else {
        let venv = file_in(asset_dir, "tools/python");
        Some(file_in(venv.as_str(), "bin"))
    }
}

/// The steps that prepare the tools: none, if `ninja` is there.
pub open spec fn tools_steps(asset_dir: Seq<char>, state: QemuState) -> Seq<StepModel> {
    let venv = tools_dir(asset_dir);
    if state.host_ninja || state.own_ninja {
        Seq::empty()
    } else {
        seq![
            StepModel::CreateDir(paths::joined(asset_dir, "tools"@)),
            StepModel::Run(
                (RunModel {
                    label: "create qemu tools venv"@,
                    program: "python3"@,
                    args: seq!["-m"@, "venv"@, venv],
                    dir: None,
                }),
            ),
            StepModel::Run(
                (RunModel {
                    label: "install pinned ninja"@,
                    program: paths::joined(venv, "bin/python"@),
                    args: seq!["-m"@, "pip"@, "install"@, "ninja==1.13.0"@],
                    dir: None,
                }),
            ),
        ]
    }
}

/// The steps that prepare the tools.
pub fn prepare_python_tools(asset_dir: &str, state: QemuState) -> (r: Vec<Step>)
    ensures
        models(r@) == tools_steps(asset_dir@, state),
{
    let mut steps = no_steps();
    if !state.host_ninja && !state.own_ninja {
        let venv = file_in(asset_dir, "tools/python");
        let python = file_in(venv.as_str(), "bin/python");
        push_step(&mut steps, Step::CreateDir { path: file_in(asset_dir, "tools") });
        let create = str_list(&["-m", "venv", venv.as_str()]);
        assert(text::texts(create@) =~= seq!["-m"@, "venv"@, venv@]);
        push_step(&mut steps, run("create qemu tools venv", "python3", create));
        let install = str_list(&["-m", "pip", "install", "ninja==1.13.0"]);
        assert(text::texts(install@) =~= seq!["-m"@, "pip"@, "install"@, "ninja==1.13.0"@]);
        push_step(&mut steps, run("install pinned ninja", python.as_str(), install));
        assert(models(steps@) =~= tools_steps(asset_dir@, state));
    }
    steps
}

/// The steps that build and install QEMU: none, if its binaries are installed.
pub open spec fn install_steps(
    source: Seq<char>,
    install_dir: Seq<char>,
    parallel: Seq<char>,
    state: QemuState,
) -> Seq<StepModel> {
    if state.x86_64_installed && state.aarch64_installed {
        Seq::empty()
    } else {
        seq![
            StepModel::CreateDir(install_dir),
            StepModel::Run(
                (RunModel {
                    label: "configure qemu"@,
                    program: "./configure"@,
                    args: seq![
                        "--target-list=x86_64-softmmu,aarch64-softmmu"@,
                        "--prefix="@ + install_dir,
                        "--disable-docs"@,
                        "--disable-werror"@,
                        "--disable-gtk"@,
                        "--disable-sdl"@,
                        "--disable-vnc"@,
                        "--disable-tools"@,
                    ],
                    dir: Some(source),
                }),
            ),
            StepModel::Run(
                (RunModel {
                    label: "build qemu"@,
                    program: "make"@,
                    args: seq!["-j"@ + parallel],
                    dir: Some(source),
                }),
            ),
            StepModel::Run(
                (RunModel {
                    label: "install qemu"@,
                    program: "make"@,
                    args: seq!["install"@],
                    dir: Some(source),
                }),
            ),
        ]
    }
}

/// Appends the steps that build and install QEMU.
fn push_install(
    steps: &mut Vec<Step>,
    source: &str,
    install_dir: &str,
    parallel: &str,
    state: QemuState,
)
    ensures
        models(final(steps)@) == models(old(steps)@) + install_steps(
            source@,
            install_dir@,
            parallel@,
            state,
        ),
{
    if !state.x86_64_installed || !state.aarch64_installed {
        let prefix = prefixed("--prefix=", install_dir);
        let jobs = prefixed("-j", parallel);
        push_step(steps, Step::CreateDir { path: install_dir.to_owned() });
        let configure = str_list(
            &[
                "--target-list=x86_64-softmmu,aarch64-softmmu",
                prefix.as_str(),
                "--disable-docs",
                "--disable-werror",
                "--disable-gtk",
                "--disable-sdl",
                "--disable-vnc",
                "--disable-tools",
            ],
        );
        assert(text::texts(configure@) =~= seq![
            "--target-list=x86_64-softmmu,aarch64-softmmu"@,
            "--prefix="@ + install_dir@,
            "--disable-docs"@,
            "--disable-werror"@,
            "--disable-gtk"@,
            "--disable-sdl"@,
            "--disable-vnc"@,
            "--disable-tools"@,
        ]);
        push_step(steps, run_in("configure qemu", "./configure", configure, source));
        let make = str_list(&[jobs.as_str()]);
        assert(text::texts(make@) =~= seq!["-j"@ + parallel@]);
        push_step(steps, run_in("build qemu", "make", make, source));
        let install = str_list(&["install"]);
        assert(text::texts(install@) =~= seq!["install"@]);
        push_step(steps, run_in("install qemu", "make", install, source));
    }
    assert(models(steps@) =~= models(old(steps)@) + install_steps(
        source@,
        install_dir@,
        parallel@,
        state,
    ));
}

/// The steps that get QEMU's source.
pub open spec fn source_steps(
    asset_dir: Seq<char>,
    version: Seq<char>,
    url: Seq<char>,
    sha256: Seq<char>,
    state: QemuState,
) -> Seq<StepModel> {
    let archive = paths::joined(
        paths::joined(asset_dir, "downloads"@),
        "qemu-"@ + version + ".tar.xz"@,
    );
    seq![
        StepModel::Download(url, archive),
        StepModel::Verify(archive, sha256),
    ] + (if state.source {
        Seq::empty()
    } else {
        seq![
            unpack_step(
                "extract qemu source"@,
                "-xJf"@,
                archive,
                paths::joined(asset_dir, "build"@),
                Seq::empty(),
            ),
        ]
    })
}

/// The steps that prepare QEMU.
pub open spec fn qemu_steps(
    asset_dir: Seq<char>,
    manifest: SystemManifest,
    parallel: Seq<char>,
    state: QemuState,
) -> Seq<StepModel> {
    let version = manifest.qemu.version@;
    if state.binaries {
        seq![StepModel::Say("qemu "@ + version + " already prepared"@)]
    } else {
        seq![
            StepModel::Need("curl"@),
            StepModel::Need("tar"@),
            StepModel::Need("xz"@),
            StepModel::Need("make"@),
            StepModel::Need("python3"@),
            StepModel::CreateDir(paths::joined(asset_dir, "downloads"@)),
            StepModel::CreateDir(paths::joined(asset_dir, "build"@)),
        ] + tools_steps(asset_dir, state) + source_steps(
            asset_dir,
            version,
            manifest.qemu.source_url@,
            manifest.qemu.source_sha256@,
            state,
        ) + install_steps(
            paths::joined(paths::joined(asset_dir, "build"@), "qemu-"@ + version),
            paths::joined(asset_dir, manifest.qemu.install_dir@),
            parallel,
            state,
        )
    }
}

/// Appends steps.
fn append_steps(steps: &mut Vec<Step>, more: Vec<Step>)
    ensures
        models(final(steps)@) == models(old(steps)@) + models(more@),
{
    let ghost extra = more@;
    let mut more = more;
    steps.append(&mut more);
    assert(models(steps@) =~= models(old(steps)@) + models(extra));
}

/// The steps that prepare QEMU: none but a remark, if its binaries are there.
pub fn prepare_qemu(asset_dir: &str, manifest: &SystemManifest, parallel: &str, state: QemuState) -> (r:
    Vec<Step>)
    ensures
        models(r@) == qemu_steps(asset_dir@, *manifest, parallel@, state),
{
    let version = manifest.qemu.version.as_str();
    let mut steps = no_steps();
    if state.binaries {
        let line = enclosed("qemu ", version, " already prepared");
        push_step(&mut steps, Step::Say { line });
        assert(models(steps@) =~= qemu_steps(asset_dir@, *manifest, parallel@, state));
        return steps;
    }
    push_step(&mut steps, need("curl"));
    push_step(&mut steps, need("tar"));
    push_step(&mut steps, need("xz"));
    push_step(&mut steps, need("make"));
    push_step(&mut steps, need("python3"));
    let downloads = file_in(asset_dir, "downloads");
    let build_root = file_in(asset_dir, "build");
    push_step(&mut steps, Step::CreateDir { path: downloads.clone() });
    push_step(&mut steps, Step::CreateDir { path: build_root.clone() });
    let ghost start = models(steps@);
    assert(start =~= seq![
        StepModel::Need("curl"@),
        StepModel::Need("tar"@),
        StepModel::Need("xz"@),
        StepModel::Need("make"@),
        StepModel::Need("python3"@),
        StepModel::CreateDir(paths::joined(asset_dir@, "downloads"@)),
        StepModel::CreateDir(paths::joined(asset_dir@, "build"@)),
    ]);
    append_steps(&mut steps, prepare_python_tools(asset_dir, state));
    let ghost with_tools = models(steps@);
    let archive_file = enclosed("qemu-", version, ".tar.xz");
    let archive = file_in(downloads.as_str(), archive_file.as_str());
    push_step(
        &mut steps,
        Step::Download { url: manifest.qemu.source_url.clone(), path: archive.clone() },
    );
    push_step(
        &mut steps,
        Step::Verify { path: archive.clone(), sha256: manifest.qemu.source_sha256.clone() },
    );
    if !state.source {
        push_step(
            &mut steps,
            unpack("extract qemu source", "-xJf", archive.as_str(), build_root.as_str()),
        );
    }
    assert(models(steps@) =~= with_tools + source_steps(
        asset_dir@,
        version@,
        manifest.qemu.source_url@,
        manifest.qemu.source_sha256@,
        state,
    ));
    let source_name = prefixed("qemu-", version);
    let source = file_in(build_root.as_str(), source_name.as_str());
    let install_dir = file_in(asset_dir, manifest.qemu.install_dir.as_str());
    push_install(&mut steps, source.as_str(), install_dir.as_str(), parallel, state);
    steps
}

// ---------------------------------------------------------------------------
// Guests

/// The steps before any guest is prepared.
pub fn prepare_guests(asset_dir: &str) -> (r: Vec<Step>)
    ensures
        models(r@) == seq![
            StepModel::Need("curl"@),
            StepModel::Need("tar"@),
            StepModel::Need("gzip"@),
            StepModel::CreateDir(paths::joined(asset_dir@, "downloads"@)),
        ],
{
    let mut steps = no_steps();
    push_step(&mut steps, need("curl"));
    push_step(&mut steps, need("tar"));
    push_step(&mut steps, need("gzip"));
    push_step(&mut steps, Step::CreateDir { path: file_in(asset_dir, "downloads") });
    assert(models(steps@) =~= seq![
        StepModel::Need("curl"@),
        StepModel::Need("tar"@),
        StepModel::Need("gzip"@),
        StepModel::CreateDir(paths::joined(asset_dir@, "downloads"@)),
    ]);
    steps
}

/// The steps before any guest's root file system is prepared.
pub fn prepare_rootfs_dirs(asset_dir: &str) -> (r: Vec<Step>)
    ensures
        models(r@) == seq![
            StepModel::Need("curl"@),
            StepModel::Need("tar"@),
            StepModel::Need("xz"@),
            StepModel::CreateDir(paths::joined(asset_dir@, "downloads"@)),
            StepModel::CreateDir(paths::joined(asset_dir@, "rootfs"@)),
        ],
{
    let mut steps = no_steps();
    push_step(&mut steps, need("curl"));
    push_step(&mut steps, need("tar"));
    push_step(&mut steps, need("xz"));
    push_step(&mut steps, Step::CreateDir { path: file_in(asset_dir, "downloads") });
    push_step(&mut steps, Step::CreateDir { path: file_in(asset_dir, "rootfs") });
    assert(models(steps@) =~= seq![
        StepModel::Need("curl"@),
        StepModel::Need("tar"@),
        StepModel::Need("xz"@),
        StepModel::CreateDir(paths::joined(asset_dir@, "downloads"@)),
        StepModel::CreateDir(paths::joined(asset_dir@, "rootfs"@)),
    ]);
    steps
}

/// The path of a downloaded archive.
pub open spec fn archive_path(asset_dir: Seq<char>, url: Seq<char>) -> Seq<char> {
    paths::joined(paths::joined(asset_dir, "downloads"@), text::last_part(url, '/'))
}

/// The steps that prepare a guest's kernel: none but a remark, if it is there.
pub open spec fn guest_steps(asset_dir: Seq<char>, arch: SystemArch, ready: bool, stale: bool) -> Seq<
    StepModel,
> {
    let archive = archive_path(asset_dir, arch.guest_archive_url@);
    let dir = paths::joined(paths::joined(asset_dir, "build"@), "guest-"@ + arch.name@);
    if ready {
        seq![StepModel::Say("guest "@ + arch.name@ + " already prepared"@)]
    } else {
        seq![
            StepModel::Download(arch.guest_archive_url@, archive),
            StepModel::Verify(archive, arch.guest_archive_sha256@),
        ] + (if stale {
            seq![StepModel::RemoveDir(dir)]
        } else {
            Seq::empty()
        }) + seq![
            StepModel::CreateDir(dir),
            unpack_step(
                "extract guest netboot archive"@,
                "-xzf"@,
                archive,
                dir,
                seq![arch.guest_kernel_member@, arch.guest_initrd_member@],
            ),
            StepModel::Copy(
                paths::joined(dir, arch.guest_kernel_member@),
                paths::joined(asset_dir, arch.kernel@),
            ),
            StepModel::Copy(
                paths::joined(dir, arch.guest_initrd_member@),
                paths::joined(asset_dir, arch.initrd@),
            ),
        ]
    }
}

/// The steps that prepare a guest's kernel. `ready` says whether the kernel and the initial
/// disk are there, `stale` whether a directory is left from an earlier attempt.
pub fn prepare_guest(asset_dir: &str, arch: &SystemArch, ready: bool, stale: bool) -> (r: Vec<Step>)
    ensures
        models(r@) == guest_steps(asset_dir@, *arch, ready, stale),
{
    let mut steps = no_steps();
    if ready {
        let line = enclosed("guest ", arch.name.as_str(), " already prepared");
        push_step(&mut steps, Step::Say { line });
        assert(models(steps@) =~= guest_steps(asset_dir@, *arch, ready, stale));
        return steps;
    }
    let downloads = file_in(asset_dir, "downloads");
    let name = archive_name(arch.guest_archive_url.as_str());
    let archive = file_in(downloads.as_str(), name.as_str());
    let build_root = file_in(asset_dir, "build");
    let dir_name = prefixed("guest-", arch.name.as_str());
    let dir = file_in(build_root.as_str(), dir_name.as_str());
    push_step(
        &mut steps,
        Step::Download { url: arch.guest_archive_url.clone(), path: archive.clone() },
    );
    push_step(
        &mut steps,
        Step::Verify { path: archive.clone(), sha256: arch.guest_archive_sha256.clone() },
    );
    if stale {
        push_step(&mut steps, Step::RemoveDir { path: dir.clone() });
    }
    push_step(&mut steps, Step::CreateDir { path: dir.clone() });
    let args = str_list(
        &[
            "-xzf",
            archive.as_str(),
            "-C",
            dir.as_str(),
            arch.guest_kernel_member.as_str(),
            arch.guest_initrd_member.as_str(),
        ],
    );
    assert(text::texts(args@) =~= seq!["-xzf"@, archive@, "-C"@, dir@] + seq![
        arch.guest_kernel_member@,
        arch.guest_initrd_member@,
    ]);
    push_step(&mut steps, run("extract guest netboot archive", "tar", args));
    push_step(
        &mut steps,
        Step::Copy {
            from: file_in(dir.as_str(), arch.guest_kernel_member.as_str()),
            to: file_in(asset_dir, arch.kernel.as_str()),
        },
    );
    push_step(
        &mut steps,
        Step::Copy {
            from: file_in(dir.as_str(), arch.guest_initrd_member.as_str()),
            to: file_in(asset_dir, arch.initrd.as_str()),
        },
    );
    assert(models(steps@) =~= guest_steps(asset_dir@, *arch, ready, stale));
    steps
}

/// The steps that write the script that a guest runs.
pub open spec fn init_steps(rootfs: Seq<char>, arch: Seq<char>) -> Seq<StepModel> {
    seq![
        StepModel::Write(
            paths::joined(rootfs, "init"@),
            qemu::INIT_START@ + arch + qemu::INIT_END@,
        ),
        StepModel::MakeExecutable(paths::joined(rootfs, "init"@)),
    ]
}

/// Appends the steps that write the script that a guest runs.
fn push_init(steps: &mut Vec<Step>, rootfs: &str, arch: &str)
    ensures
        models(final(steps)@) == models(old(steps)@) + init_steps(rootfs@, arch@),
{
    let path = file_in(rootfs, "init");
    push_step(steps, Step::Write { path: path.clone(), contents: guest_init(arch) });
    push_step(steps, Step::MakeExecutable { path });
    assert(models(steps@) =~= models(old(steps)@) + init_steps(rootfs@, arch@));
}

/// The directory that holds the root file system of a guest.
pub open spec fn rootfs_dir(asset_dir: Seq<char>, arch: Seq<char>) -> Seq<char> {
    paths::joined(paths::joined(asset_dir, "rootfs"@), arch)
}

/// What is there of a guest's root file system.
#[derive(Debug, Clone, Copy)]
pub struct RootfsState {
    pub prepared: bool,
    pub rootfs: bool,
    /// Whether the toolchain is unpacked.
    pub unpacked: bool,
}

/// The steps that unpack a guest's root file system and its toolchain; if it is prepared,
/// those that bring its script up to date.
pub open spec fn unpack_rootfs_steps(asset_dir: Seq<char>, arch: SystemArch, state: RootfsState) -> Seq<
    StepModel,
> {
    let rootfs = rootfs_dir(asset_dir, arch.name@);
    let system = archive_path(asset_dir, arch.rootfs_archive_url@);
    let rust = archive_path(asset_dir, arch.rust_archive_url@);
    let dir = paths::joined(paths::joined(asset_dir, "build"@), "rust-install-"@ + arch.name@);
    if state.prepared {
        init_steps(rootfs, arch.name@).push(
            StepModel::Say("runtime rootfs "@ + arch.name@ + " already prepared"@),
        )
    } else {
        (if state.rootfs {
            seq![StepModel::RemoveDir(rootfs)]
        } else {
            Seq::empty()
        }) + seq![
            StepModel::CreateDir(rootfs),
            StepModel::Download(arch.rootfs_archive_url@, system),
            StepModel::Verify(system, arch.rootfs_archive_sha256@),
            unpack_step("extract ubuntu base rootfs"@, "-xzf"@, system, rootfs, Seq::empty()),
            StepModel::Download(arch.rust_archive_url@, rust),
            StepModel::Verify(rust, arch.rust_archive_sha256@),
        ] + (if state.unpacked {
            seq![StepModel::RemoveDir(dir)]
        } else {
            Seq::empty()
        }) + seq![
            StepModel::CreateDir(dir),
            unpack_step("extract rust toolchain"@, "-xJf"@, rust, dir, Seq::empty()),
        ]
    }
}

/// The steps that unpack a guest's root file system and its toolchain.
pub fn prepare_runtime_rootfs(asset_dir: &str, arch: &SystemArch, state: RootfsState) -> (r: Vec<Step>)
    ensures
        models(r@) == unpack_rootfs_steps(asset_dir@, *arch, state),
{
    let root = file_in(asset_dir, "rootfs");
    let rootfs = file_in(root.as_str(), arch.name.as_str());
    let mut steps = no_steps();
    if state.prepared {
        push_init(&mut steps, rootfs.as_str(), arch.name.as_str());
        let line = enclosed("runtime rootfs ", arch.name.as_str(), " already prepared");
        push_step(&mut steps, Step::Say { line });
        assert(models(steps@) =~= unpack_rootfs_steps(asset_dir@, *arch, state));
        return steps;
    }
    let downloads = file_in(asset_dir, "downloads");
    let system_name = archive_name(arch.rootfs_archive_url.as_str());
    let system = file_in(downloads.as_str(), system_name.as_str());
    let rust_name = archive_name(arch.rust_archive_url.as_str());
    let rust = file_in(downloads.as_str(), rust_name.as_str());
    let build_root = file_in(asset_dir, "build");
    let dir_name = prefixed("rust-install-", arch.name.as_str());
    let dir = file_in(build_root.as_str(), dir_name.as_str());
    if state.rootfs {
        push_step(&mut steps, Step::RemoveDir { path: rootfs.clone() });
    }
    push_step(&mut steps, Step::CreateDir { path: rootfs.clone() });
    push_step(
        &mut steps,
        Step::Download { url: arch.rootfs_archive_url.clone(), path: system.clone() },
    );
    push_step(
        &mut steps,
        Step::Verify { path: system.clone(), sha256: arch.rootfs_archive_sha256.clone() },
    );
    push_step(
        &mut steps,
        unpack("extract ubuntu base rootfs", "-xzf", system.as_str(), rootfs.as_str()),
    );
    push_step(
        &mut steps,
        Step::Download { url: arch.rust_archive_url.clone(), path: rust.clone() },
    );
    push_step(
        &mut steps,
        Step::Verify { path: rust.clone(), sha256: arch.rust_archive_sha256.clone() },
    );
    if state.unpacked {
        push_step(&mut steps, Step::RemoveDir { path: dir.clone() });
    }
    push_step(&mut steps, Step::CreateDir { path: dir.clone() });
    push_step(&mut steps, unpack("extract rust toolchain", "-xJf", rust.as_str(), dir.as_str()));
    assert(models(steps@) =~= unpack_rootfs_steps(asset_dir@, *arch, state));
    steps
}

/// The steps that install the toolchain into a guest's root file system and finish it.
pub open spec fn finish_rootfs_steps(
    asset_dir: Seq<char>,
    arch: Seq<char>,
    installer: Seq<char>,
) -> Seq<StepModel> {
    let rootfs = rootfs_dir(asset_dir, arch);
    seq![
        StepModel::Run(
            (RunModel {
                label: "install rust toolchain into guest rootfs"@,
                program: "sh"@,
                args: seq![
                    installer,
                    "--prefix=/opt/rust"@,
                    "--destdir="@ + rootfs,
                    "--disable-ldconfig"@,
                ],
                dir: None,
            }),
        ),
    ] + init_steps(rootfs, arch) + seq![
        StepModel::Write(paths::joined(rootfs, "etc/resolv.conf"@), "nameserver 1.1.1.1\n"@),
        StepModel::Write(paths::joined(rootfs, ".cargo-sonic-prepared"@), "prepared\n"@),
    ]
}

/// The steps that install the toolchain into a guest's root file system and finish it, given
/// the installer that was unpacked.
pub fn finish_runtime_rootfs(asset_dir: &str, arch: &str, installer: &str) -> (r: Vec<Step>)
    ensures
        models(r@) == finish_rootfs_steps(asset_dir@, arch@, installer@),
{
    let root = file_in(asset_dir, "rootfs");
    let rootfs = file_in(root.as_str(), arch);
    let destdir = prefixed("--destdir=", rootfs.as_str());
    let args = str_list(
        &[installer, "--prefix=/opt/rust", destdir.as_str(), "--disable-ldconfig"],
    );
    assert(text::texts(args@) =~= seq![
        installer@,
        "--prefix=/opt/rust"@,
        "--destdir="@ + rootfs@,
        "--disable-ldconfig"@,
    ]);
    let mut steps = no_steps();
    push_step(&mut steps, run("install rust toolchain into guest rootfs", "sh", args));
    push_init(&mut steps, rootfs.as_str(), arch);
    push_step(
        &mut steps,
        Step::Write {
            path: file_in(rootfs.as_str(), "etc/resolv.conf"),
            contents: "nameserver 1.1.1.1\n".to_owned(),
        },
    );
    push_step(
        &mut steps,
        Step::Write {
            path: file_in(rootfs.as_str(), ".cargo-sonic-prepared"),
            contents: "prepared\n".to_owned(),
        },
    );
    assert(models(steps@) =~= finish_rootfs_steps(asset_dir@, arch@, installer@));
    steps
}

// ---------------------------------------------------------------------------
// The program that a guest runs

/// The steps that write the program that a guest runs.
pub open spec fn test_app_steps(project: Seq<char>, stale: bool) -> Seq<StepModel> {
    (if stale {
        seq![StepModel::RemoveDir(project)]
    } else {
        Seq::empty()
    }) + seq![
        StepModel::CreateDir(paths::joined(project, "src"@)),
        StepModel::Write(paths::joined(project, "Cargo.toml"@), TEST_APP_PACKAGE@),
        StepModel::Write(paths::joined(project, "src/main.rs"@), TEST_APP_MAIN@),
    ]
}

/// The directory of the program that a guest runs.
pub fn test_app_dir(asset_dir: &str, arch: &str) -> (r: String)
    ensures
        r@ == paths::joined(paths::joined(asset_dir@, "work"@), "app-"@ + arch@),
{
    let work = file_in(asset_dir, "work");
    let name = prefixed("app-", arch);
    file_in(work.as_str(), name.as_str())
}

/// The steps that write the program that a guest runs.
pub fn write_test_app(project: &str, stale: bool) -> (r: Vec<Step>)
    ensures
        models(r@) == test_app_steps(project@, stale),
{
    let mut steps = no_steps();
    if stale {
        push_step(&mut steps, Step::RemoveDir { path: project.to_owned() });
    }
    push_step(&mut steps, Step::CreateDir { path: file_in(project, "src") });
    push_step(
        &mut steps,
        Step::Write {
            path: file_in(project, "Cargo.toml"),
            contents: TEST_APP_PACKAGE.to_owned(),
        },
    );
    push_step(
        &mut steps,
        Step::Write { path: file_in(project, "src/main.rs"), contents: TEST_APP_MAIN.to_owned() },
    );
    assert(models(steps@) =~= test_app_steps(project@, stale));
    steps
}

/// The variable of the environment, with its value, that names the linker with which Cargo
/// builds the program that a guest runs, where the target needs one: AArch64 with musl.
pub fn test_app_linker(target: &str) -> (r: Option<(&'static str, &'static str)>)
    ensures
        match r {
            Some((variable, linker)) => target@ == "aarch64-unknown-linux-musl"@ && variable@
                == "CARGO_TARGET_AARCH64_UNKNOWN_LINUX_MUSL_LINKER"@ && linker@ == "rust-lld"@,
            None => target@ != "aarch64-unknown-linux-musl"@,
        },
{
    if str_eq(target, "aarch64-unknown-linux-musl") {
        Some(("CARGO_TARGET_AARCH64_UNKNOWN_LINUX_MUSL_LINKER", "rust-lld"))
    } else {
        None
    }
}

/// The arguments with which Cargo builds the program that a guest runs.
pub fn test_app_args(target_cpus: &[String], target: &str, project: &str) -> (r: Vec<String>)
    ensures
        text::texts(r@) == seq![
            "run"@,
            "-p"@,
            "cargo-sonic"@,
            "--"@,
            "sonic"@,
            "--target-cpus"@,
            text::join(text::texts(target_cpus@), ","@),
            "build"@,
            "--release"@,
            "--target"@,
            target@,
            "--manifest-path"@,
            paths::joined(project@, "Cargo.toml"@),
        ],
{
    let cpus = join_list(target_cpus, ",");
    let manifest = file_in(project, "Cargo.toml");
    let r = str_list(
        &[
            "run",
            "-p",
            "cargo-sonic",
            "--",
            "sonic",
            "--target-cpus",
            cpus.as_str(),
            "build",
            "--release",
            "--target",
            target,
            "--manifest-path",
            manifest.as_str(),
        ],
    );
    assert(text::texts(r@) =~= seq![
        "run"@,
        "-p"@,
        "cargo-sonic"@,
        "--"@,
        "sonic"@,
        "--target-cpus"@,
        text::join(text::texts(target_cpus@), ","@),
        "build"@,
        "--release"@,
        "--target"@,
        target@,
        "--manifest-path"@,
        paths::joined(project@, "Cargo.toml"@),
    ]);
    r
}

/// The arguments with which rustc tries a target CPU on an empty library.
pub fn probe_args(target: &str, cpu: &str, source: &str, object: &str) -> (r: Vec<String>)
    ensures
        text::texts(r@) == seq![
            "--crate-type=lib"@,
            "--emit=obj"@,
            "--target"@,
            target@,
            "-C"@,
            "target-cpu="@ + cpu@,
            "-C"@,
            "panic=abort"@,
            source@,
            "-o"@,
            object@,
        ],
{
    let cpu_flag = prefixed("target-cpu=", cpu);
    let r = str_list(
        &[
            "--crate-type=lib",
            "--emit=obj",
            "--target",
            target,
            "-C",
            cpu_flag.as_str(),
            "-C",
            "panic=abort",
            source,
            "-o",
            object,
        ],
    );
    assert(text::texts(r@) =~= seq![
        "--crate-type=lib"@,
        "--emit=obj"@,
        "--target"@,
        target@,
        "-C"@,
        "target-cpu="@ + cpu@,
        "-C"@,
        "panic=abort"@,
        source@,
        "-o"@,
        object@,
    ]);
    r
}

/// The file that the log of a case goes to.
pub fn case_log(asset_dir: &str, arch: &str, cpu: &str) -> (r: String)
    ensures
        r@ == paths::joined(
            paths::joined(paths::joined(paths::joined(asset_dir@, "run"@), "logs"@), arch@),
            qemu::file_name(cpu@) + ".log"@,
        ),
{
    let run_dir = file_in(asset_dir, "run");
    let logs = file_in(run_dir.as_str(), "logs");
    let of_arch = file_in(logs.as_str(), arch);
    let mut name = sanitize_path_component(cpu);
    name.append(".log");
    file_in(of_arch.as_str(), name.as_str())
}

/// The step that packs a guest's root file system.
pub fn pack_initramfs(rootfs: &str, initrd: &str) -> (r: Step)
    ensures
        r@ == StepModel::Run(
            RunModel {
                label: "build qemu test initramfs"@,
                program: "sh"@,
                args: seq![
                    "-c"@,
                    "find . -print0 | cpio --null -o -H newc 2>/dev/null | gzip -9 > "@
                        + qemu::quoted(initrd@),
                ],
                dir: Some(rootfs@),
            },
        ),
{
    let quoted = shell_quote(initrd);
    let script = prefixed(
        "find . -print0 | cpio --null -o -H newc 2>/dev/null | gzip -9 > ",
        quoted.as_str(),
    );
    let args = str_list(&["-c", script.as_str()]);
    assert(text::texts(args@) =~= seq![
        "-c"@,
        "find . -print0 | cpio --null -o -H newc 2>/dev/null | gzip -9 > "@ + qemu::quoted(
            initrd@,
        ),
    ]);
    run_in("build qemu test initramfs", "sh", args, rootfs)
}

} // verus!
