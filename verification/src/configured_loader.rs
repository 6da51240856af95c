//! The source text of the loader of a configured build.
use crate::configured_build::{self, sanitize_cpu};
use crate::feature_mask::FeatureMask;
use crate::loader_crate::{self, push_file, GeneratedFile};
use crate::loader_modules::{
    self, generated_arch_aarch64, generated_arch_x86_64, generated_feature_mask, generated_select,
};
use crate::manifest::{self, escape_bytes, target_kind_expr};
use crate::plan::VariantBuildJob;
use crate::text::{self, debug_str, decimal_text, join_list};
use crate::text_laws;
use vstd::prelude::*;
use vstd::string::StringExecFns;

verus! {

/// The beginning of the main module: what it is made of, and where it starts.
pub const MAIN_ENTRY: &'static str = r#"#![no_std]
#![no_main]

#[cfg(not(target_os = "linux"))]
compile_error!("cargo-sonic loader supports Linux only");

#[cfg(not(any(target_arch = "x86_64", target_arch = "aarch64")))]
compile_error!("cargo-sonic loader currently supports x86_64 and aarch64 only");

mod feature_mask;
mod select;
mod linux_sys;
mod stack;
mod generated_manifest;

#[cfg(target_arch = "x86_64")]
mod arch_x86_64;

#[cfg(target_arch = "aarch64")]
mod arch_aarch64;

use generated_manifest::{Variant, VARIANTS};
use select::{CpuIdentity, HostInfo, TargetArch, VariantMeta};

#[panic_handler]
fn panic(_: &core::panic::PanicInfo) -> ! {
    unsafe { linux_sys::exit(101) }
}

#[no_mangle]
unsafe extern "C" fn memcpy(dst: *mut u8, src: *const u8, n: usize) -> *mut u8 {
    let mut i = 0;
    while i < n {
        *dst.add(i) = *src.add(i);
        i += 1;
    }
    dst
}

#[no_mangle]
unsafe extern "C" fn memset(dst: *mut u8, value: i32, n: usize) -> *mut u8 {
    let mut i = 0;
    while i < n {
        *dst.add(i) = value as u8;
        i += 1;
    }
    dst
}

#[no_mangle]
unsafe extern "C" fn memcmp(a: *const u8, b: *const u8, n: usize) -> i32 {
    let mut i = 0;
    while i < n {
        let av = *a.add(i);
        let bv = *b.add(i);
        if av != bv {
            return av as i32 - bv as i32;
        }
        i += 1;
    }
    0
}

#[no_mangle]
extern "C" fn rust_eh_personality() {}

#[cfg(target_arch = "x86_64")]
core::arch::global_asm!(
    ".global _start",
    "_start:",
    "mov rdi, rsp",
    "and rsp, -16",
    "call {entry}",
    entry = sym loader_entry,
);

#[cfg(target_arch = "aarch64")]
core::arch::global_asm!(
    ".global _start",
    "_start:",
    "mov x0, sp",
    "bl {entry}",
    entry = sym loader_entry,
);

#[no_mangle]
unsafe extern "C" fn loader_entry(stack: *const usize) -> ! {
    let initial = stack::InitialStack::parse(stack);
    let host = detect_host(&initial);
    let mut metas = [VariantMeta {
        target_cpu: "",
        required_features: feature_mask::FeatureMask::EMPTY,
        rank_features: feature_mask::FeatureMask::EMPTY,
        rank_feature_count: 0,
        feature_tier: 0,
        target_kind: select::TargetKind::Generic,
    }; 64];
    let count = VARIANTS.len();
    let mut i = 0;
    while i < count {
        let v = &VARIANTS[i];
        metas[i] = VariantMeta {
            target_cpu: v.target_cpu,
            required_features: v.required_features,
            rank_features: v.rank_features,
            rank_feature_count: v.rank_feature_count,
            feature_tier: v.feature_tier,
            target_kind: v.target_kind,
        };
        i += 1;
    }
    let selected_meta = select::select_variant(host, &metas[..count]);
    if stack::debug_enabled(&initial) {
        debug_selection(host, &metas[..count], selected_meta.target_cpu);
    }
    let selected = find_variant(selected_meta.target_cpu);
    exec_payload(selected, &initial)
}

"#;

/// The part of the main module that runs a payload.
pub const MAIN_EXEC: &'static str = r#"fn find_variant(name: &str) -> &'static Variant {
    let mut i = 0;
    while i < VARIANTS.len() {
        if VARIANTS[i].target_cpu.as_bytes() == name.as_bytes() {
            return &VARIANTS[i];
        }
        i += 1;
    }
    &VARIANTS[0]
}

unsafe fn exec_payload(selected: &Variant, initial: &stack::InitialStack) -> ! {
    let fd = linux_sys::memfd_create_best_effort(b"cargo-sonic-payload\0".as_ptr());
    if fd < 0 {
        linux_sys::exit(111);
    }
    if linux_sys::write_all(fd, selected.payload.as_ptr(), selected.payload.len()) < 0 {
        linux_sys::exit(112);
    }
    let envp = stack::build_envp(initial, generated_manifest::ENV_ENABLED, selected.env_selected_target_cpu, selected.env_selected_flags);
    if envp.is_null() {
        linux_sys::exit(113);
    }
    linux_sys::execveat(fd, b"\0".as_ptr(), initial.argv, envp, linux_sys::AT_EMPTY_PATH);
    linux_sys::exit(114)
}

"#;

/// The part of the main module that reports a selection.
pub const MAIN_DEBUG: &'static str = r#"fn debug_selection(host: HostInfo, variants: &[VariantMeta], selected: &str) {
    unsafe {
        linux_sys::write_stderr(b"cargo-sonic debug\n");
        linux_sys::write_stderr(b"  host.features=");
        debug_mask(host.features);
        linux_sys::write_stderr(b"\n");
        linux_sys::write_stderr(b"  host.feature_names=");
        debug_feature_names(host.features);
        linux_sys::write_stderr(b"\n");
        linux_sys::write_stderr(b"  host.identity=");
        debug_identity(host.identity);
        linux_sys::write_stderr(b"\n");
        linux_sys::write_stderr(b"  variants:\n");
        let mut i = 0;
        while i < variants.len() {
            let v = &variants[i];
            let eligible = v.target_kind.is_generic() || v.required_features.is_subset_of(host.features);
            linux_sys::write_stderr(b"    ");
            linux_sys::write_stderr(v.target_cpu.as_bytes());
            linux_sys::write_stderr(b" eligible=");
            linux_sys::write_stderr(if eligible { b"yes" } else { b"no" });
            linux_sys::write_stderr(b" tier=");
            debug_u8(v.feature_tier);
            linux_sys::write_stderr(b" count=");
            debug_u16(v.rank_feature_count);
            linux_sys::write_stderr(b" required=");
            debug_mask(v.required_features);
            if !eligible {
                linux_sys::write_stderr(b" missing=");
                debug_missing(v.required_features, host.features);
                linux_sys::write_stderr(b" missing_features=");
                debug_missing_feature_names(v.required_features, host.features);
            }
            linux_sys::write_stderr(b"\n");
            i += 1;
        }
        linux_sys::write_stderr(b"  selected=");
        linux_sys::write_stderr(selected.as_bytes());
        linux_sys::write_stderr(b"\n");
    }
}

fn debug_identity(identity: CpuIdentity) {
    unsafe {
        match identity {
            CpuIdentity::Unknown => linux_sys::write_stderr(b"unknown"),
            CpuIdentity::X86 { vendor, family, model, stepping } => {
                linux_sys::write_stderr(b"x86(");
                linux_sys::write_stderr(match vendor {
                    select::X86Vendor::Intel => b"intel",
                    select::X86Vendor::Amd => b"amd",
                    select::X86Vendor::Other => b"other",
                });
                linux_sys::write_stderr(b" family=");
                debug_u16(family);
                linux_sys::write_stderr(b" model=");
                debug_u16(model);
                linux_sys::write_stderr(b" stepping=");
                debug_u8(stepping);
                linux_sys::write_stderr(b")");
            }
            CpuIdentity::Aarch64 { implementer, part, variant, revision } => {
                linux_sys::write_stderr(b"aarch64(implementer=");
                debug_u16(implementer);
                linux_sys::write_stderr(b" part=");
                debug_u16(part);
                linux_sys::write_stderr(b" variant=");
                debug_u8(variant);
                linux_sys::write_stderr(b" revision=");
                debug_u8(revision);
                linux_sys::write_stderr(b")");
            }
        }
    }
}

"#;

/// The part of the main module that writes masks and numbers.
pub const MAIN_DEBUG_PARTS: &'static str = r#"fn debug_mask(mask: feature_mask::FeatureMask) {
    let words = mask.words();
    unsafe {
        linux_sys::write_stderr(b"[");
        debug_hex64(words[0]);
        linux_sys::write_stderr(b",");
        debug_hex64(words[1]);
        linux_sys::write_stderr(b"]");
    }
}

fn debug_missing(required: feature_mask::FeatureMask, host: feature_mask::FeatureMask) {
    let required = required.words();
    let host = host.words();
    unsafe {
        linux_sys::write_stderr(b"[");
        debug_hex64(required[0] & !host[0]);
        linux_sys::write_stderr(b",");
        debug_hex64(required[1] & !host[1]);
        linux_sys::write_stderr(b"]");
    }
}

fn debug_feature_names(mask: feature_mask::FeatureMask) {
    unsafe {
        linux_sys::write_stderr(b"[");
        let mut first = true;
        let mut i = 0;
        while i < feature_mask::ALL_FEATURES.len() {
            let feature = feature_mask::ALL_FEATURES[i];
            if mask.contains(feature) {
                if !first {
                    linux_sys::write_stderr(b",");
                }
                linux_sys::write_stderr(feature_mask::feature_name(feature).as_bytes());
                first = false;
            }
            i += 1;
        }
        linux_sys::write_stderr(b"]");
    }
}

fn debug_missing_feature_names(required: feature_mask::FeatureMask, host: feature_mask::FeatureMask) {
    unsafe {
        linux_sys::write_stderr(b"[");
        let mut first = true;
        let mut i = 0;
        while i < feature_mask::ALL_FEATURES.len() {
            let feature = feature_mask::ALL_FEATURES[i];
            if required.contains(feature) && !host.contains(feature) {
                if !first {
                    linux_sys::write_stderr(b",");
                }
                linux_sys::write_stderr(feature_mask::feature_name(feature).as_bytes());
                first = false;
            }
            i += 1;
        }
        linux_sys::write_stderr(b"]");
    }
}

fn debug_hex64(value: u64) {
    let mut buf = *b"0x0000000000000000";
    let mut i = 0;
    while i < 16 {
        let shift = (15 - i) * 4;
        let nibble = ((value >> shift) & 0xf) as u8;
        buf[2 + i] = if nibble < 10 { b'0' + nibble } else { b'a' + (nibble - 10) };
        i += 1;
    }
    unsafe { linux_sys::write_stderr(&buf) }
}

fn debug_u8(value: u8) {
    debug_u16(value as u16);
}

fn debug_u16(mut value: u16) {
    let mut buf = [0u8; 5];
    let mut i = buf.len();
    if value == 0 {
        unsafe { linux_sys::write_stderr(b"0") }
        return;
    }
    while value > 0 {
        i -= 1;
        buf[i] = b'0' + (value % 10) as u8;
        value /= 10;
    }
    unsafe { linux_sys::write_stderr(&buf[i..]) }
}

"#;

/// The part of the main module that examines the host.
pub const MAIN_HOST: &'static str = r#"fn detect_host(initial: &stack::InitialStack) -> HostInfo {
    #[cfg(target_arch = "x86_64")]
    {
        HostInfo {
            arch: TargetArch::X86_64,
            features: unsafe { detect_x86() },
            identity: unsafe { detect_x86_identity() },
            heterogeneous: false,
        }
    }
    #[cfg(target_arch = "aarch64")]
    {
        HostInfo {
            arch: TargetArch::Aarch64,
            features: arch_aarch64::detect_aarch64_features_from_hwcap(initial.hwcap, initial.hwcap2, initial.hwcap3),
            identity: CpuIdentity::Unknown,
            heterogeneous: false,
        }
    }
}

#[cfg(target_arch = "x86_64")]
unsafe fn detect_x86() -> feature_mask::FeatureMask {
    let l1 = core::arch::x86_64::__cpuid_count(1, 0);
    let l70 = core::arch::x86_64::__cpuid_count(7, 0);
    let l71 = core::arch::x86_64::__cpuid_count(7, 1);
    let ld1 = core::arch::x86_64::__cpuid_count(0xd, 1);
    let l8 = core::arch::x86_64::__cpuid_count(0x80000001, 0);
    let xcr0 = core::arch::x86_64::_xgetbv(0);
    arch_x86_64::detect_x86_features_from_cpuid(
        arch_x86_64::X86Cpuid {
            leaf1: arch_x86_64::CpuidLeaf { eax: l1.eax, ebx: l1.ebx, ecx: l1.ecx, edx: l1.edx },
            leaf7_0: arch_x86_64::CpuidLeaf { eax: l70.eax, ebx: l70.ebx, ecx: l70.ecx, edx: l70.edx },
            leaf7_1: arch_x86_64::CpuidLeaf { eax: l71.eax, ebx: l71.ebx, ecx: l71.ecx, edx: l71.edx },
            leaf_d_1: arch_x86_64::CpuidLeaf { eax: ld1.eax, ebx: ld1.ebx, ecx: ld1.ecx, edx: ld1.edx },
            leaf80000001: arch_x86_64::CpuidLeaf { eax: l8.eax, ebx: l8.ebx, ecx: l8.ecx, edx: l8.edx },
        },
        xcr0,
    )
}

#[cfg(target_arch = "x86_64")]
unsafe fn detect_x86_identity() -> CpuIdentity {
    let vendor_leaf = core::arch::x86_64::__cpuid_count(0, 0);
    let vendor = if vendor_leaf.ebx == 0x756e6547 && vendor_leaf.edx == 0x49656e69 && vendor_leaf.ecx == 0x6c65746e {
        select::X86Vendor::Intel
    } else if vendor_leaf.ebx == 0x68747541 && vendor_leaf.edx == 0x69746e65 && vendor_leaf.ecx == 0x444d4163 {
        select::X86Vendor::Amd
    } else {
        select::X86Vendor::Other
    };
    let leaf1 = core::arch::x86_64::__cpuid_count(1, 0);
    let base_family = ((leaf1.eax >> 8) & 0xf) as u16;
    let ext_family = ((leaf1.eax >> 20) & 0xff) as u16;
    let base_model = ((leaf1.eax >> 4) & 0xf) as u16;
    let ext_model = ((leaf1.eax >> 16) & 0xf) as u16;
    let family = if base_family == 0xf { base_family + ext_family } else { base_family };
    let model = if base_family == 0x6 || base_family == 0xf { base_model | (ext_model << 4) } else { base_model };
    CpuIdentity::X86 {
        vendor,
        family,
        model,
        stepping: (leaf1.eax & 0xf) as u8,
    }
}
"#;

/// The system calls of the loader.
pub const LINUX_SYS: &'static str = r#"pub const AT_EMPTY_PATH: usize = 0x1000;
#[cfg(target_arch = "x86_64")]
const SYS_WRITE: usize = 1;
#[cfg(target_arch = "x86_64")]
const SYS_MMAP: usize = 9;
#[cfg(target_arch = "x86_64")]
const SYS_EXIT: usize = 60;
#[cfg(target_arch = "x86_64")]
const SYS_MEMFD_CREATE: usize = 319;
#[cfg(target_arch = "x86_64")]
const SYS_EXECVEAT: usize = 322;
const PROT_READ: usize = 1;
const PROT_WRITE: usize = 2;
const MAP_PRIVATE: usize = 2;
const MAP_ANONYMOUS: usize = 0x20;
const MFD_ALLOW_SEALING: usize = 0x2;
const MFD_EXEC: usize = 0x10;
const EINVAL_NEG: isize = -22;

#[cfg(target_arch = "aarch64")]
const SYS_WRITE: usize = 64;
#[cfg(target_arch = "aarch64")]
const SYS_MMAP: usize = 222;
#[cfg(target_arch = "aarch64")]
const SYS_EXIT: usize = 93;
#[cfg(target_arch = "aarch64")]
const SYS_MEMFD_CREATE: usize = 279;
#[cfg(target_arch = "aarch64")]
const SYS_EXECVEAT: usize = 281;

#[cfg(target_arch = "x86_64")]
unsafe fn syscall6(n: usize, a0: usize, a1: usize, a2: usize, a3: usize, a4: usize, a5: usize) -> isize {
    let ret: isize;
    core::arch::asm!("syscall", inlateout("rax") n as isize => ret, in("rdi") a0, in("rsi") a1, in("rdx") a2, in("r10") a3, in("r8") a4, in("r9") a5, lateout("rcx") _, lateout("r11") _, options(nostack));
    ret
}

#[cfg(target_arch = "aarch64")]
unsafe fn syscall6(n: usize, a0: usize, a1: usize, a2: usize, a3: usize, a4: usize, a5: usize) -> isize {
    let ret: isize;
    core::arch::asm!("svc #0", inlateout("x8") n as isize => _, inlateout("x0") a0 as isize => ret, in("x1") a1, in("x2") a2, in("x3") a3, in("x4") a4, in("x5") a5, options(nostack));
    ret
}

pub unsafe fn mmap(len: usize) -> *mut usize {
    syscall6(SYS_MMAP, 0, len, PROT_READ | PROT_WRITE, MAP_PRIVATE | MAP_ANONYMOUS, !0usize, 0) as *mut usize
}

pub unsafe fn memfd_create_best_effort(name: *const u8) -> isize {
    let mut fd = syscall6(SYS_MEMFD_CREATE, name as usize, MFD_ALLOW_SEALING | MFD_EXEC, 0, 0, 0, 0);
    if fd == EINVAL_NEG {
        fd = syscall6(SYS_MEMFD_CREATE, name as usize, MFD_ALLOW_SEALING, 0, 0, 0, 0);
    }
    if fd == EINVAL_NEG {
        fd = syscall6(SYS_MEMFD_CREATE, name as usize, 0, 0, 0, 0, 0);
    }
    fd
}

pub unsafe fn write_all(fd: isize, mut ptr: *const u8, mut len: usize) -> isize {
    while len > 0 {
        let n = syscall6(SYS_WRITE, fd as usize, ptr as usize, len, 0, 0, 0);
        if n <= 0 {
            return n;
        }
        ptr = ptr.add(n as usize);
        len -= n as usize;
    }
    0
}

pub unsafe fn write_stderr(buf: &[u8]) {
    let _ = write_all(2, buf.as_ptr(), buf.len());
}

pub unsafe fn execveat(fd: isize, path: *const u8, argv: *const *const u8, envp: *const *const u8, flags: usize) -> isize {
    syscall6(SYS_EXECVEAT, fd as usize, path as usize, argv as usize, envp as usize, flags, 0)
}

pub unsafe fn exit(code: i32) -> ! {
    let _ = syscall6(SYS_EXIT, code as usize, 0, 0, 0, 0, 0);
    loop {}
}
"#;

/// The loader's reading of its initial stack.
pub const STACK: &'static str = r#"use crate::linux_sys;

const AT_NULL: usize = 0;
const AT_HWCAP: usize = 16;
const AT_HWCAP2: usize = 26;
const AT_HWCAP3: usize = 29;

pub struct InitialStack {
    pub argc: usize,
    pub argv: *const *const u8,
    pub envp: *const *const u8,
    pub envc: usize,
    pub hwcap: usize,
    pub hwcap2: usize,
    pub hwcap3: usize,
}

impl InitialStack {
    pub unsafe fn parse(sp: *const usize) -> Self {
        let argc = *sp;
        let argv = sp.add(1) as *const *const u8;
        let mut envp = argv.add(argc + 1);
        let mut envc = 0;
        while !(*envp.add(envc)).is_null() {
            envc += 1;
        }
        let mut aux = envp.add(envc + 1) as *const usize;
        let mut hwcap = 0;
        let mut hwcap2 = 0;
        let mut hwcap3 = 0;
        while *aux != AT_NULL {
            let key = *aux;
            let val = *aux.add(1);
            if key == AT_HWCAP { hwcap = val; }
            if key == AT_HWCAP2 { hwcap2 = val; }
            if key == AT_HWCAP3 { hwcap3 = val; }
            aux = aux.add(2);
        }
        Self { argc, argv, envp, envc, hwcap, hwcap2, hwcap3 }
    }
}

pub unsafe fn build_envp(initial: &InitialStack, enabled: &'static [u8], cpu: &'static [u8], flags: &'static [u8]) -> *const *const u8 {
    let mut kept = 0;
    let mut i = 0;
    while i < initial.envc {
        let p = *initial.envp.add(i);
        if !is_sonic_key(p) {
            kept += 1;
        }
        i += 1;
    }
    let total = kept + 3 + 1;
    let bytes = total * core::mem::size_of::<*const u8>();
    let out = linux_sys::mmap(bytes) as *mut *const u8;
    if out.is_null() || out as isize == -1 {
        return core::ptr::null();
    }
    let mut j = 0;
    i = 0;
    while i < initial.envc {
        let p = *initial.envp.add(i);
        if !is_sonic_key(p) {
            *out.add(j) = p;
            j += 1;
        }
        i += 1;
    }
    *out.add(j) = enabled.as_ptr(); j += 1;
    *out.add(j) = cpu.as_ptr(); j += 1;
    *out.add(j) = flags.as_ptr(); j += 1;
    *out.add(j) = core::ptr::null();
    out
}

pub unsafe fn debug_enabled(initial: &InitialStack) -> bool {
    let mut i = 0;
    while i < initial.envc {
        if env_name_matches(*initial.envp.add(i), b"CARGO_SONIC_DEBUG") {
            return true;
        }
        i += 1;
    }
    false
}

unsafe fn is_sonic_key(p: *const u8) -> bool {
    starts_with(p, b"CARGO_SONIC_ENABLED=")
        || starts_with(p, b"CARGO_SONIC_SELECTED_TARGET_CPU=")
        || starts_with(p, b"CARGO_SONIC_SELECTED_FLAGS=")
}

unsafe fn env_name_matches(p: *const u8, name: &[u8]) -> bool {
    let mut i = 0;
    while i < name.len() {
        if *p.add(i) != name[i] {
            return false;
        }
        i += 1;
    }
    let next = *p.add(i);
    next == 0 || next == b'='
}

unsafe fn starts_with(mut p: *const u8, prefix: &[u8]) -> bool {
    let mut i = 0;
    while i < prefix.len() {
        if *p != prefix[i] {
            return false;
        }
        p = p.add(1);
        i += 1;
    }
    true
}
"#;

/// The package manifest of the loader.
pub const LOADER_PACKAGE: &'static str = r#"[package]
name = "sonic-generated-loader"
version = "0.0.0"
edition = "2021"

[profile.dev]
panic = "abort"

[profile.release]
panic = "abort"

[workspace]
"#;

/// The flags with which rustc compiles the loader.
pub const LOADER_RUSTFLAGS: &'static str =
    "-C panic=abort -C target-feature=+crt-static -C relocation-model=static -C link-arg=-nostartfiles -C link-arg=-static";

/// The beginning of the module that holds the table of payloads.
pub const TABLE_START: &'static str =
    "use crate::feature_mask::FeatureMask;\nuse crate::select::TargetKind;\n\npub static ENV_ENABLED: &[u8] = b\"CARGO_SONIC_ENABLED=1\\0\";\n\npub struct Variant {\n    pub target_cpu: &'static str,\n    pub required_features: FeatureMask,\n    pub rank_features: FeatureMask,\n    pub rank_feature_count: u16,\n    pub feature_tier: u8,\n    pub target_kind: TargetKind,\n    pub env_selected_target_cpu: &'static [u8],\n    pub env_selected_flags: &'static [u8],\n    pub payload: &'static [u8],\n}\n\npub static VARIANTS: &[Variant] = &[\n";

/// The main module of the loader.
pub open spec fn main_text() -> Seq<char> {
    MAIN_ENTRY@ + MAIN_EXEC@ + MAIN_DEBUG@ + MAIN_DEBUG_PARTS@ + MAIN_HOST@
}

/// The main module of the loader. It is the same for every target.
pub fn generated_main(_target: &str) -> (r: String)
    ensures
        r@ == main_text(),
{
    let mut r = MAIN_ENTRY.to_owned();
    r.append(MAIN_EXEC);
    r.append(MAIN_DEBUG);
    r.append(MAIN_DEBUG_PARTS);
    r.append(MAIN_HOST);
    r
}

/// The system calls of the loader.
pub fn generated_linux_sys() -> (r: &'static str)
    ensures
        r@ == LINUX_SYS@,
{
    LINUX_SYS
}

/// The loader's reading of its initial stack.
pub fn generated_stack() -> (r: &'static str)
    ensures
        r@ == STACK@,
{
    STACK
}

// ---------------------------------------------------------------------------
// The table of payloads

/// What selection needs to know of a payload, in the loader's source.
pub open spec fn meta_fields(job: VariantBuildJob) -> Seq<char> {
    "        target_cpu: "@ + text::debug_text(job.target_cpu@) + ",\n        required_features: "@
        + manifest::mask_text(job.required_features) + "        rank_features: "@
        + manifest::mask_text(job.rank_features) + "        rank_feature_count: "@ + text::decimal(
        job.rank_features@.len(),
    ) + ",\n        feature_tier: "@ + text::decimal(job.feature_tier as nat)
        + ",\n        target_kind: "@ + manifest::kind_text(job.target_kind) + ",\n"@
}

/// What the loader needs to run a payload, in its source.
pub open spec fn payload_fields(job: VariantBuildJob) -> Seq<char> {
    "        env_selected_target_cpu: b\"CARGO_SONIC_SELECTED_TARGET_CPU="@ + text::escaped(
        job.target_cpu@,
    ) + "\\0\",\n        env_selected_flags: b\"CARGO_SONIC_SELECTED_FLAGS="@ + text::escaped(
        text::join(text::texts(job.feature_names@), ","@),
    ) + "\\0\",\n        payload: include_bytes!(\"../payloads/"@ + configured_build::plain_name(
        job.target_cpu@,
    ) + ".elf\"),\n"@
}

/// The entry of a payload in the table.
#[verifier::opaque]
pub open spec fn table_entry(job: VariantBuildJob) -> Seq<char> {
    "    Variant {\n"@ + meta_fields(job) + payload_fields(job) + "    },\n"@
}

/// The entries of payloads in the table.
pub open spec fn table_entries(jobs: Seq<VariantBuildJob>) -> Seq<char>
    decreases jobs.len(),
{
    if jobs.len() == 0 {
        Seq::empty()
    } else {
        table_entries(jobs.drop_last()) + table_entry(jobs.last())
    }
}

/// What selection needs to know of a payload, in the loader's source.
fn format_meta_fields(job: &VariantBuildJob) -> (r: String)
    ensures
        r@ == meta_fields(*job),
{
    let name = debug_str(job.target_cpu.as_str());
    let required = manifest::format_mask(job.required_features);
    let rank = manifest::format_mask(job.rank_features);
    let count = decimal_text(job.rank_features.count() as u64);
    let tier = decimal_text(job.feature_tier as u64);
    let kind = target_kind_expr(job.target_kind);
    let mut r = "        target_cpu: ".to_owned();
    r.append(name.as_str());
    r.append(",\n        required_features: ");
    r.append(required.as_str());
    r.append("        rank_features: ");
    r.append(rank.as_str());
    r.append("        rank_feature_count: ");
    r.append(count.as_str());
    r.append(",\n        feature_tier: ");
    r.append(tier.as_str());
    r.append(",\n        target_kind: ");
    r.append(kind.as_str());
    r.append(",\n");
    r
}

/// What the loader needs to run a payload, in its source.
fn format_payload_fields(job: &VariantBuildJob) -> (r: String)
    ensures
        r@ == payload_fields(*job),
{
    let cpu = escape_bytes(job.target_cpu.as_str());
    let joined = join_list(&job.feature_names, ",");
    let flags = escape_bytes(joined.as_str());
    let name = sanitize_cpu(job.target_cpu.as_str());
    let mut r = "        env_selected_target_cpu: b\"CARGO_SONIC_SELECTED_TARGET_CPU=".to_owned();
    r.append(cpu.as_str());
    r.append("\\0\",\n        env_selected_flags: b\"CARGO_SONIC_SELECTED_FLAGS=");
    r.append(flags.as_str());
    r.append("\\0\",\n        payload: include_bytes!(\"../payloads/");
    r.append(name.as_str());
    r.append(".elf\"),\n");
    r
}

/// The entry of a payload in the table.
fn format_table_entry(job: &VariantBuildJob) -> (r: String)
    ensures
        r@ == table_entry(*job),
{
    let meta = format_meta_fields(job);
    let payload = format_payload_fields(job);
    let mut r = "    Variant {\n".to_owned();
    r.append(meta.as_str());
    r.append(payload.as_str());
    r.append("    },\n");
    proof {
        reveal(table_entry);
    }
    r
}

/// The module that holds the table of payloads.
pub fn generated_manifest(jobs: &[VariantBuildJob]) -> (r: String)
    ensures
        r@ == TABLE_START@ + table_entries(jobs@) + "];\n"@,
{
    let mut r = TABLE_START.to_owned();
    let mut i: usize = 0;
    assert(jobs@.take(0) =~= Seq::<VariantBuildJob>::empty());
    assert(r@ =~= TABLE_START@ + table_entries(jobs@.take(0)));
    while i < jobs.len()
        invariant
            i <= jobs@.len(),
            r@ == TABLE_START@ + table_entries(jobs@.take(i as int)),
        decreases jobs@.len() - i,
    {
        assert(jobs@.take(i + 1).drop_last() =~= jobs@.take(i as int));
        let entry = format_table_entry(&jobs[i]);
        r.append(entry.as_str());
        assert(r@ =~= TABLE_START@ + table_entries(jobs@.take(i + 1)));
        i += 1;
    }
    assert(jobs@.take(i as int) =~= jobs@);
    r.append("];\n");
    r
}

// ---------------------------------------------------------------------------
// The files

/// The files of a loader by path and contents.
pub open spec fn loader_texts(jobs: Seq<VariantBuildJob>) -> Seq<(Seq<char>, Seq<char>)> {
    seq![
        ("Cargo.toml"@, LOADER_PACKAGE@),
        ("src/feature_mask.rs"@, loader_modules::feature_mask_text()),
        ("src/select.rs"@, loader_modules::select_text()),
        ("src/arch_x86_64.rs"@, loader_modules::arch_x86_64_text()),
        ("src/arch_aarch64.rs"@, loader_modules::arch_aarch64_text()),
        ("src/linux_sys.rs"@, LINUX_SYS@),
        ("src/stack.rs"@, STACK@),
        ("src/generated_manifest.rs"@, TABLE_START@ + table_entries(jobs) + "];\n"@),
        ("src/main.rs"@, main_text()),
    ]
}

/// The files of a loader.
pub fn loader_files(target: &str, jobs: &[VariantBuildJob]) -> (r: Vec<GeneratedFile>)
    ensures
        loader_crate::texts_of(r@) == loader_texts(jobs@),
{
    let mut files: Vec<GeneratedFile> = Vec::new();
    assert(loader_crate::texts_of(files@) =~= Seq::<(Seq<char>, Seq<char>)>::empty());
    push_file(&mut files, "Cargo.toml", LOADER_PACKAGE.to_owned());
    push_file(&mut files, "src/feature_mask.rs", generated_feature_mask());
    push_file(&mut files, "src/select.rs", generated_select());
    push_file(&mut files, "src/arch_x86_64.rs", generated_arch_x86_64());
    push_file(&mut files, "src/arch_aarch64.rs", generated_arch_aarch64());
    push_file(&mut files, "src/linux_sys.rs", generated_linux_sys().to_owned());
    push_file(&mut files, "src/stack.rs", generated_stack().to_owned());
    push_file(&mut files, "src/generated_manifest.rs", generated_manifest(jobs));
    push_file(&mut files, "src/main.rs", generated_main(target));
    assert(loader_crate::texts_of(files@) =~= loader_texts(jobs@));
    files
}

proof fn entry_of(jobs: Seq<VariantBuildJob>, i: int) -> (sides: (Seq<char>, Seq<char>))
    requires
        0 <= i < jobs.len(),
    ensures
        table_entries(jobs) == sides.0 + table_entry(jobs[i]) + sides.1,
        sides.0 == table_entries(jobs.take(i)),
    decreases jobs.len(),
{
    let shorter = jobs.drop_last();
    if i == jobs.len() - 1 {
        assert(jobs.take(i) =~= shorter);
        let before = table_entries(shorter);
        assert(before + table_entry(jobs[i]) =~= before + table_entry(jobs[i]) + Seq::<
            char,
        >::empty());
        (before, Seq::empty())
    } else {
        let sides = entry_of(shorter, i);
        let last = table_entry(jobs.last());
        assert(shorter.take(i) =~= jobs.take(i));
        assert(sides.0 + table_entry(jobs[i]) + sides.1 + last =~= sides.0 + table_entry(jobs[i]) + (
        sides.1 + last));
        (sides.0, sides.1 + last)
    }
}

/// The table has an entry for each variant, in their order, and the entry gives under each name
/// what belongs there.
#[verifier::spinoff_prover]
#[verifier::rlimit(60)]
pub proof fn entries_tell_the_variants(
    jobs: &[VariantBuildJob],
    r: String,
    i: int,
    required: String,
    rank: String,
    count: u16,
    count_text: String,
    tier: String,
    kind: String,
    cpu: &str,
    name: String,
) -> (sides: (Seq<char>, Seq<char>))
    requires
        call_ensures(generated_manifest, (jobs,), r),
        0 <= i < jobs@.len(),
        call_ensures(manifest::format_mask, (jobs@[i].required_features,), required),
        call_ensures(manifest::format_mask, (jobs@[i].rank_features,), rank),
        call_ensures(FeatureMask::count, (jobs@[i].rank_features,), count),
        call_ensures(decimal_text, (count as u64,), count_text),
        call_ensures(decimal_text, (jobs@[i].feature_tier as u64,), tier),
        call_ensures(target_kind_expr, (jobs@[i].target_kind,), kind),
        cpu@ == jobs@[i].target_cpu@,
        call_ensures(sanitize_cpu, (cpu,), name),
    ensures
        r@ == sides.0 + ("    Variant {\n"@ + ("        target_cpu: "@ + text::debug_text(cpu@)
            + ",\n        required_features: "@ + required@ + "        rank_features: "@ + rank@
            + "        rank_feature_count: "@ + count_text@ + ",\n        feature_tier: "@ + tier@
            + ",\n        target_kind: "@ + kind@ + ",\n"@) + (
        "        env_selected_target_cpu: b\"CARGO_SONIC_SELECTED_TARGET_CPU="@ + text::escaped(cpu@)
            + "\\0\",\n        env_selected_flags: b\"CARGO_SONIC_SELECTED_FLAGS="@ + text::escaped(
            text::join(text::texts(jobs@[i].feature_names@), ","@),
        ) + "\\0\",\n        payload: include_bytes!(\"../payloads/"@ + name@ + ".elf\"),\n"@)
            + "    },\n"@) + sides.1,
{
    let sides = entry_of(jobs@, i);
    reveal(table_entry);
    let entry = table_entry(jobs@[i]);
    text_laws::regroup(TABLE_START@, sides.0 + entry, sides.1);
    text_laws::regroup(TABLE_START@, sides.0, entry);
    text_laws::regroup(TABLE_START@ + sides.0 + entry, sides.1, "];\n"@);
    assert(r@ == (TABLE_START@ + sides.0) + entry + (sides.1 + "];\n"@));
    (TABLE_START@ + sides.0, sides.1 + "];\n"@)
}

/// Each file of the loader holds what belongs under its path.
pub proof fn files_hold_their_module(
    target: &str,
    jobs: &[VariantBuildJob],
    files: Vec<GeneratedFile>,
    mask: String,
    select: String,
    x86: String,
    arm: String,
    table: String,
    main: String,
)
    requires
        call_ensures(loader_files, (target, jobs), files),
        call_ensures(generated_feature_mask, (), mask),
        call_ensures(generated_select, (), select),
        call_ensures(generated_arch_x86_64, (), x86),
        call_ensures(generated_arch_aarch64, (), arm),
        call_ensures(generated_manifest, (jobs,), table),
        call_ensures(generated_main, (target,), main),
    ensures
        files@.len() == 9,
        files@[0].path@ == "Cargo.toml"@,
        files@[1].path@ == "src/feature_mask.rs"@ && files@[1].contents@ == mask@,
        files@[2].path@ == "src/select.rs"@ && files@[2].contents@ == select@,
        files@[3].path@ == "src/arch_x86_64.rs"@ && files@[3].contents@ == x86@,
        files@[4].path@ == "src/arch_aarch64.rs"@ && files@[4].contents@ == arm@,
        files@[5].path@ == "src/linux_sys.rs"@ && files@[5].contents@ == LINUX_SYS@,
        files@[6].path@ == "src/stack.rs"@ && files@[6].contents@ == STACK@,
        files@[7].path@ == "src/generated_manifest.rs"@ && files@[7].contents@ == table@,
        files@[8].path@ == "src/main.rs"@ && files@[8].contents@ == main@,
{
    let t = loader_crate::texts_of(files@);
    assert(t.len() == files@.len());
    assert(t[0] == (files@[0].path@, files@[0].contents@));
    assert(t[1] == (files@[1].path@, files@[1].contents@));
    assert(t[2] == (files@[2].path@, files@[2].contents@));
    assert(t[3] == (files@[3].path@, files@[3].contents@));
    assert(t[4] == (files@[4].path@, files@[4].contents@));
    assert(t[5] == (files@[5].path@, files@[5].contents@));
    assert(t[6] == (files@[6].path@, files@[6].contents@));
    assert(t[7] == (files@[7].path@, files@[7].contents@));
    assert(t[8] == (files@[8].path@, files@[8].contents@));
}

} // verus!
