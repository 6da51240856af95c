//! The ways in which a request can fail.
use crate::text::{self, debug_str, decimal_text};
use vstd::prelude::*;
use vstd::string::StringExecFns;

verus! {

/// Why a request failed.
#[derive(Debug)]
pub enum SonicError {
    ZeroParallelism,
    NoTargetCpus,
    CargoArgsUnreadable,
    HostTargetUnknown,
    TargetDirNotText,
    UnsupportedOs { target: String, os: String },
    UnsupportedArch { target: String, arch: String },
    NativeRejected,
    NativeFiltered,
    BaselineIsImplicit { cpu: String },
    UnknownTargetCpu { cpu: String },
    UnsupportedFeature { feature: String },
    UnsupportedFeatures { features: String },
    PackageCpusMissing,
    WorkspaceCpusMissing,
    CpusNotConfigured,
    CfgMissing { cpu: String },
    NoVariant,
    NoPayloadCpus { target: String },
    PackageNotFound { package: String },
    WorkspacePackageNotFound,
    AmbiguousPackage,
    MultipleBinaries,
    NoResolution,
    MissingFromGraph { package: String },
    AuditableTargetUnsupported,
    AuditableObjectFailed,
    CargoBuildFailed { cpu: String },
    NotOneExecutable { cpu: String, found: u64 },
    CompressionFailed { cpu: String },
}

/// A message with one name in it.
pub open spec fn naming(start: Seq<char>, name: Seq<char>, end: Seq<char>) -> Seq<char> {
    start + name + end
}

/// The message for an error.
pub open spec fn message_of(error: SonicError) -> Seq<char> {
    match error {
        SonicError::ZeroParallelism => "--parallelism must be at least 1"@,
        SonicError::NoTargetCpus => "pass --target-cpus=<cpu>[,<cpu>...]"@,
        SonicError::CargoArgsUnreadable => "cannot read the cargo arguments"@,
        SonicError::HostTargetUnknown => "failed to determine rustc host target"@,
        SonicError::TargetDirNotText => "CARGO_TARGET_DIR is not valid UTF-8"@,
        SonicError::UnsupportedOs { target, os } => naming(
            "cargo-sonic supports Linux targets only; `"@,
            target@,
            "` has target_os="@,
        ) + text::debug_text(os@),
        SonicError::UnsupportedArch { target, arch } => naming(
            "cargo-sonic currently supports x86_64 and aarch64 only; `"@,
            target@,
            "` has target_arch="@,
        ) + text::debug_text(arch@),
        SonicError::NativeRejected =>
            "target-cpu \"native\" is rejected because cargo-sonic builds portable artifacts"@,
        SonicError::NativeFiltered => "target-cpu \"native\" is rejected"@,
        SonicError::BaselineIsImplicit { cpu } => naming(
            "target-cpu \""@,
            cpu@,
            "\" is implicit; remove it from --target-cpus"@,
        ),
        SonicError::UnknownTargetCpu { cpu } => naming(
            "unknown target-cpu spelling `"@,
            cpu@,
            "`"@,
        ),
        SonicError::UnsupportedFeature { feature } => naming(
            "unsupported runtime feature mapping `"@,
            feature@,
            "`"@,
        ),
        SonicError::UnsupportedFeatures { features } =>
            "unsupported runtime feature mapping(s): "@ + features@,
        SonicError::PackageCpusMissing => "package.metadata.sonic.target-cpus must exist"@,
        SonicError::WorkspaceCpusMissing => "workspace.metadata.sonic.target-cpus must exist"@,
        SonicError::CpusNotConfigured =>
            "target-cpus must exist under [package.metadata.sonic]"@,
        SonicError::CfgMissing { cpu } => naming(
            "rustc --print cfg failed for target-cpu `"@,
            cpu@,
            "`"@,
        ),
        SonicError::NoVariant => "no variant can be built for the target"@,
        SonicError::NoPayloadCpus { target } =>
            "rustc reported no payload-buildable target-cpus for "@ + target@,
        SonicError::PackageNotFound { package } => naming(
            "package `"@,
            package@,
            "` was not found"@,
        ),
        SonicError::WorkspacePackageNotFound => "workspace package was not found"@,
        SonicError::AmbiguousPackage => "cannot identify package; pass --package"@,
        SonicError::MultipleBinaries => "multiple binary artifacts are possible; pass --bin"@,
        SonicError::NoResolution => "cargo metadata did not include dependency resolution"@,
        SonicError::MissingFromGraph { package } => naming(
            "selected package `"@,
            package@,
            "` is missing from dependency graph"@,
        ),
        SonicError::AuditableTargetUnsupported =>
            "auditable section is only supported for x86_64 and aarch64 targets"@,
        SonicError::AuditableObjectFailed => "failed to build auditable metadata object"@,
        SonicError::CargoBuildFailed { cpu } => naming(
            "cargo build failed for target-cpu `"@,
            cpu@,
            "`"@,
        ),
        SonicError::NotOneExecutable { cpu, found } => naming(
            "cannot identify exactly one executable artifact for target-cpu `"@,
            cpu@,
            "` (found "@,
        ) + text::decimal(found as nat) + "); pass --bin"@,
        SonicError::CompressionFailed { cpu } => naming(
            "failed to zstd-compress payload for target-cpu `"@,
            cpu@,
            "`"@,
        ),
    }
}

/// A message with one name in it.
fn name_in(start: &str, name: &str, end: &str) -> (r: String)
    ensures
        r@ == naming(start@, name@, end@),
{
    let mut r = start.to_owned();
    r.append(name);
    r.append(end);
    r
}

impl SonicError {
    /// The message for the error.
    pub fn message(&self) -> (r: String)
        ensures
            r@ == message_of(*self),
    {
        match self {
            SonicError::ZeroParallelism => "--parallelism must be at least 1".to_owned(),
            SonicError::NoTargetCpus => "pass --target-cpus=<cpu>[,<cpu>...]".to_owned(),
            SonicError::CargoArgsUnreadable => "cannot read the cargo arguments".to_owned(),
            SonicError::HostTargetUnknown => "failed to determine rustc host target".to_owned(),
            SonicError::TargetDirNotText => "CARGO_TARGET_DIR is not valid UTF-8".to_owned(),
            SonicError::UnsupportedOs { target, os } => {
                let mut r = name_in(
                    "cargo-sonic supports Linux targets only; `",
                    target.as_str(),
                    "` has target_os=",
                );
                let os = debug_str(os.as_str());
                r.append(os.as_str());
                r
            },
            SonicError::UnsupportedArch { target, arch } => {
                let mut r = name_in(
                    "cargo-sonic currently supports x86_64 and aarch64 only; `",
                    target.as_str(),
                    "` has target_arch=",
                );
                let arch = debug_str(arch.as_str());
                r.append(arch.as_str());
                r
            },
            SonicError::NativeRejected =>
                "target-cpu \"native\" is rejected because cargo-sonic builds portable artifacts".to_owned(),
            SonicError::NativeFiltered => "target-cpu \"native\" is rejected".to_owned(),
            SonicError::BaselineIsImplicit { cpu } => name_in(
                "target-cpu \"",
                cpu.as_str(),
                "\" is implicit; remove it from --target-cpus",
            ),
            SonicError::UnknownTargetCpu { cpu } => name_in(
                "unknown target-cpu spelling `",
                cpu.as_str(),
                "`",
            ),
            SonicError::UnsupportedFeature { feature } => name_in(
                "unsupported runtime feature mapping `",
                feature.as_str(),
                "`",
            ),
            SonicError::UnsupportedFeatures { features } => {
                let mut r = "unsupported runtime feature mapping(s): ".to_owned();
                r.append(features.as_str());
                r
            },
            SonicError::PackageCpusMissing =>
                "package.metadata.sonic.target-cpus must exist".to_owned(),
            SonicError::WorkspaceCpusMissing =>
                "workspace.metadata.sonic.target-cpus must exist".to_owned(),
            SonicError::CpusNotConfigured =>
                "target-cpus must exist under [package.metadata.sonic]".to_owned(),
            SonicError::CfgMissing { cpu } => name_in(
                "rustc --print cfg failed for target-cpu `",
                cpu.as_str(),
                "`",
            ),
            SonicError::NoVariant => "no variant can be built for the target".to_owned(),
            SonicError::NoPayloadCpus { target } => {
                let mut r = "rustc reported no payload-buildable target-cpus for ".to_owned();
                r.append(target.as_str());
                r
            },
            SonicError::PackageNotFound { package } => name_in(
                "package `",
                package.as_str(),
                "` was not found",
            ),
            SonicError::WorkspacePackageNotFound => "workspace package was not found".to_owned(),
            SonicError::AmbiguousPackage => "cannot identify package; pass --package".to_owned(),
            SonicError::MultipleBinaries =>
                "multiple binary artifacts are possible; pass --bin".to_owned(),
            SonicError::NoResolution =>
                "cargo metadata did not include dependency resolution".to_owned(),
            SonicError::MissingFromGraph { package } => name_in(
                "selected package `",
                package.as_str(),
                "` is missing from dependency graph",
            ),
            SonicError::AuditableTargetUnsupported =>
                "auditable section is only supported for x86_64 and aarch64 targets".to_owned(),
            SonicError::AuditableObjectFailed =>
                "failed to build auditable metadata object".to_owned(),
            SonicError::CargoBuildFailed { cpu } => name_in(
                "cargo build failed for target-cpu `",
                cpu.as_str(),
                "`",
            ),
            SonicError::NotOneExecutable { cpu, found } => {
                let mut r = name_in(
                    "cannot identify exactly one executable artifact for target-cpu `",
                    cpu.as_str(),
                    "` (found ",
                );
                let found = decimal_text(*found);
                r.append(found.as_str());
                r.append("); pass --bin");
                r
            },
            SonicError::CompressionFailed { cpu } => name_in(
                "failed to zstd-compress payload for target-cpu `",
                cpu.as_str(),
                "`",
            ),
        }
    }
}

} // verus!
