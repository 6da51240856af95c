//! The source text of the generated loader.
use crate::payload_names::LoaderStrategy;
use crate::text::{self, replace};
use vstd::prelude::*;
use vstd::string::StringExecFns;

verus! {

/// The part of the loader that unpacks zstd payloads.
pub const ZSTD_SUPPORT: &'static str = r#"
extern crate alloc;
use core::alloc::{GlobalAlloc, Layout};
use alloc::vec::Vec;

struct MmapAllocator;

unsafe impl GlobalAlloc for MmapAllocator {
    unsafe fn alloc(&self, layout: Layout) -> *mut u8 {
        let len = layout.size().max(1);
        let ptr = unsafe { linux_sys::mmap(len) } as *mut u8;
        if (ptr as isize) < 0 {
            core::ptr::null_mut()
        } else {
            ptr
        }
    }

    unsafe fn dealloc(&self, _ptr: *mut u8, _layout: Layout) {}
}

#[global_allocator]
static ALLOCATOR: MmapAllocator = MmapAllocator;

unsafe fn write_zstd_payload(fd: isize, selected: &Variant) -> isize {
    unsafe {
        let output = linux_sys::mmap(selected.uncompressed_len) as *mut u8;
        if (output as isize) < 0 {
            return -1;
        }
        let output_slice = core::slice::from_raw_parts_mut(output, selected.uncompressed_len);
        let mut decoder = ruzstd::decoding::FrameDecoder::new();
        if decoder.decode_all(selected.payload, output_slice).is_err() {
            return -1;
        }
        linux_sys::write_all(fd, output, selected.uncompressed_len)
    }
}

unsafe fn write_zstd_payload_from_fd(fd: isize, payload_fd: isize, selected: &Variant) -> isize {
    unsafe {
        let mut compressed = Vec::new();
        let mut buf = [0u8; 16384];
        loop {
            let n = linux_sys::read(payload_fd, buf.as_mut_ptr(), buf.len());
            if n < 0 {
                return n;
            }
            if n == 0 {
                break;
            }
            compressed.extend_from_slice(&buf[..n as usize]);
        }
        let output = linux_sys::mmap(selected.uncompressed_len) as *mut u8;
        if (output as isize) < 0 {
            return -1;
        }
        let output_slice = core::slice::from_raw_parts_mut(output, selected.uncompressed_len);
        let mut decoder = ruzstd::decoding::FrameDecoder::new();
        if decoder.decode_all(&compressed, output_slice).is_err() {
            return -1;
        }
        linux_sys::write_all(fd, output, selected.uncompressed_len)
    }
}
"#;

/// What stands in its place in a loader without zstd payloads.
pub const NO_ZSTD_SUPPORT: &'static str = r#"
unsafe fn write_zstd_payload(_fd: isize, _selected: &Variant) -> isize {
    -1
}

unsafe fn write_zstd_payload_from_fd(_fd: isize, _payload_fd: isize, _selected: &Variant) -> isize {
    -1
}
"#;

/// The entry point of the loader, with a place for the function that runs a payload and one
/// for the zstd part.
pub const MAIN_ENTRY: &'static str = r#"#![no_std]
#![no_main]
#![allow(dead_code)]

#[cfg(not(target_os = "linux"))]
compile_error!("cargo-sonic loader supports Linux only");

#[cfg(not(any(target_arch = "x86_64", target_arch = "aarch64")))]
compile_error!("cargo-sonic loader currently supports x86_64 and aarch64 only");

mod feature_mask;
mod select;
mod linux_sys;
mod stack;
mod generated_manifest;

#[cfg(target_arch = "x86_64")]
mod arch_x86_64;

#[cfg(target_arch = "aarch64")]
mod arch_aarch64;

use generated_manifest::{Variant, VARIANTS};
use select::{CpuIdentity, HostInfo, TargetArch, VariantMeta};
use generated_manifest::PayloadCompression;

/*__CARGO_SONIC_ZSTD_SUPPORT__*/

#[panic_handler]
fn panic(_: &core::panic::PanicInfo) -> ! {
    unsafe { linux_sys::exit(101) }
}

#[unsafe(no_mangle)]
unsafe extern "C" fn memcpy(dst: *mut u8, src: *const u8, n: usize) -> *mut u8 {
    let mut i = 0;
    unsafe {
        while i < n {
            *dst.add(i) = *src.add(i);
            i += 1;
        }
    }
    dst
}

#[unsafe(no_mangle)]
unsafe extern "C" fn memset(dst: *mut u8, value: i32, n: usize) -> *mut u8 {
    let mut i = 0;
    unsafe {
        while i < n {
            *dst.add(i) = value as u8;
            i += 1;
        }
    }
    dst
}

#[unsafe(no_mangle)]
unsafe extern "C" fn memcmp(a: *const u8, b: *const u8, n: usize) -> i32 {
    let mut i = 0;
    unsafe {
        while i < n {
            let av = *a.add(i);
            let bv = *b.add(i);
            if av != bv {
                return av as i32 - bv as i32;
            }
            i += 1;
        }
    }
    0
}

#[unsafe(no_mangle)]
unsafe extern "C" fn bcmp(a: *const u8, b: *const u8, n: usize) -> i32 {
    unsafe { memcmp(a, b, n) }
}

#[unsafe(no_mangle)]
extern "C" fn rust_eh_personality() {}

#[cfg(target_arch = "x86_64")]
core::arch::global_asm!(
    ".global _start",
    "_start:",
    "mov rdi, rsp",
    "and rsp, -16",
    "call {entry}",
    entry = sym loader_entry,
);

#[cfg(target_arch = "aarch64")]
core::arch::global_asm!(
    ".global _start",
    "_start:",
    "mov x0, sp",
    "bl {entry}",
    entry = sym loader_entry,
);

#[unsafe(no_mangle)]
unsafe extern "C" fn loader_entry(stack: *const usize) -> ! {
    let initial = unsafe { stack::InitialStack::parse(stack) };
    let host = detect_host(&initial);
    let mut metas = [VariantMeta {
        target_cpu: "",
        required_features: feature_mask::FeatureMask::EMPTY,
        rank_features: feature_mask::FeatureMask::EMPTY,
        rank_feature_count: 0,
        feature_tier: 0,
        target_kind: select::TargetKind::Generic,
    }; 256];
    let count = VARIANTS.len();
    let mut i = 0;
    while i < count {
        let v = &VARIANTS[i];
        metas[i] = VariantMeta {
            target_cpu: v.target_cpu,
            required_features: v.required_features,
            rank_features: v.rank_features,
            rank_feature_count: v.rank_feature_count,
            feature_tier: v.feature_tier,
            target_kind: v.target_kind,
        };
        i += 1;
    }
    let sonic_enabled = unsafe { stack::sonic_enabled(&initial) };
    let selected_meta = if sonic_enabled {
        select::select_variant(host, &metas[..count])
    } else {
        generic_meta(&metas[..count])
    };
    if unsafe { stack::debug_enabled(&initial) } {
        debug_selection(host, &metas[..count], selected_meta.target_cpu, sonic_enabled);
    }
    let selected = find_variant(selected_meta.target_cpu);
    unsafe { __CARGO_SONIC_EXEC_PAYLOAD__(selected, &initial) }
}

fn find_variant(name: &str) -> &'static Variant {
    let mut i = 0;
    while i < VARIANTS.len() {
        if bytes_eq(VARIANTS[i].target_cpu.as_bytes(), name.as_bytes()) {
            return &VARIANTS[i];
        }
        i += 1;
    }
    &VARIANTS[0]
}

fn bytes_eq(a: &[u8], b: &[u8]) -> bool {
    if a.len() != b.len() {
        return false;
    }
    let mut i = 0;
    while i < a.len() {
        if a[i] != b[i] {
            return false;
        }
        i += 1;
    }
    true
}

fn generic_meta<'a>(variants: &'a [VariantMeta]) -> &'a VariantMeta {
    let mut i = 0;
    while i < variants.len() {
        if variants[i].target_kind.is_generic() {
            return &variants[i];
        }
        i += 1;
    }
    &variants[0]
}

"#;

/// How the loader shares the disk blocks of an embedded payload with a temporary file.
pub const MAIN_REFLINK: &'static str = r#"#[repr(C)]
struct FileCloneRange {
    src_fd: i64,
    src_offset: u64,
    src_length: u64,
    dest_offset: u64,
}

unsafe fn exec_reflink_tmpfile(selected: &Variant, initial: &stack::InitialStack) -> isize {
    unsafe {
        if selected.payload_compression != generated_manifest::PayloadCompression::None {
            return -1;
        }
        let exe = linux_sys::openat(linux_sys::AT_FDCWD, b"/proc/self/exe\0".as_ptr(), 0, 0);
        if exe < 0 {
            return exe;
        }
        let offset = payload_file_offset(
            exe,
            selected.payload.as_ptr() as usize,
            selected.payload.len(),
            initial.phdr,
        );
        if offset == 0 {
            let _ = linux_sys::close(exe);
            return -1;
        }
        let tmp = linux_sys::openat(
            linux_sys::AT_FDCWD,
            b".\0".as_ptr(),
            linux_sys::O_TMPFILE | linux_sys::O_RDWR,
            0o700,
        );
        if tmp < 0 {
            let _ = linux_sys::close(exe);
            return tmp;
        }
        let clone_len = round_up_128k(selected.payload.len());
        if linux_sys::ftruncate(tmp, clone_len) < 0 {
            let _ = linux_sys::close(exe);
            let _ = linux_sys::close(tmp);
            return -1;
        }
        let mut range = FileCloneRange {
            src_fd: exe as i64,
            src_offset: offset as u64,
            src_length: clone_len as u64,
            dest_offset: 0,
        };
        let cloned = linux_sys::ioctl(tmp, linux_sys::FICLONERANGE, &mut range as *mut _ as usize);
        let _ = linux_sys::close(exe);
        if cloned < 0 {
            let _ = linux_sys::close(tmp);
            return cloned;
        }
        let read_fd = reopen_fd_readonly(tmp);
        let _ = linux_sys::close(tmp);
        if read_fd < 0 {
            return read_fd;
        }
        let envp = stack::build_envp(initial, generated_manifest::ENV_ENABLED, selected.env_selected_target_cpu, selected.env_selected_flags);
        if envp.is_null() {
            let _ = linux_sys::close(read_fd);
            return -1;
        }
        linux_sys::execveat(read_fd, b"\0".as_ptr(), initial.argv, envp, linux_sys::AT_EMPTY_PATH)
    }
}

unsafe fn reopen_fd_readonly(fd: isize) -> isize {
    unsafe {
        let mut path = [0u8; 32];
        let prefix = b"/proc/self/fd/";
        let mut i = 0;
        while i < prefix.len() {
            path[i] = prefix[i];
            i += 1;
        }
        let mut digits = [0u8; 20];
        let mut n = fd as usize;
        let mut count = 0;
        if n == 0 {
            digits[0] = b'0';
            count = 1;
        } else {
            while n > 0 {
                digits[count] = b'0' + (n % 10) as u8;
                n /= 10;
                count += 1;
            }
        }
        while count > 0 {
            count -= 1;
            path[i] = digits[count];
            i += 1;
        }
        path[i] = 0;
        linux_sys::openat(linux_sys::AT_FDCWD, path.as_ptr(), linux_sys::O_RDONLY, 0)
    }
}

"#;

/// How the loader finds an embedded payload in its own file.
pub const MAIN_OFFSETS: &'static str = r#"fn round_up_128k(len: usize) -> usize {
    (len + 131071) & !131071
}

unsafe fn payload_file_offset(exe: isize, payload_addr: usize, payload_len: usize, at_phdr: usize) -> usize {
    unsafe {
        let mut ehdr = [0u8; 64];
        if linux_sys::pread(exe, ehdr.as_mut_ptr(), ehdr.len(), 0) != ehdr.len() as isize {
            return 0;
        }
        if ehdr[0] != 0x7f || ehdr[1] != b'E' || ehdr[2] != b'L' || ehdr[3] != b'F' || ehdr[4] != 2 || ehdr[5] != 1 {
            return 0;
        }
        let elf_type = read_u16(&ehdr, 16);
        let phoff = read_u64(&ehdr, 32) as usize;
        let phentsize = read_u16(&ehdr, 54) as usize;
        let phnum = read_u16(&ehdr, 56) as usize;
        if phoff == 0 || phentsize < 56 || phnum == 0 {
            return 0;
        }
        let load_bias = if elf_type == 3 { at_phdr.wrapping_sub(phoff) } else { 0 };
        let payload_vaddr = payload_addr.wrapping_sub(load_bias);
        let mut phdr = [0u8; 64];
        if phentsize > phdr.len() {
            return 0;
        }
        let mut i = 0;
        while i < phnum {
            let offset = phoff + i * phentsize;
            if linux_sys::pread(exe, phdr.as_mut_ptr(), phentsize, offset) != phentsize as isize {
                return 0;
            }
            if read_u32(&phdr, 0) == 1 {
                let file_offset = read_u64(&phdr, 8) as usize;
                let vaddr = read_u64(&phdr, 16) as usize;
                let filesz = read_u64(&phdr, 32) as usize;
                let relative = payload_vaddr.wrapping_sub(vaddr);
                if payload_vaddr >= vaddr && relative <= filesz && payload_len <= filesz - relative {
                    return file_offset + (payload_vaddr - vaddr);
                }
            }
            i += 1;
        }
        0
    }
}

fn read_u16(buf: &[u8], offset: usize) -> u16 {
    (buf[offset] as u16) | ((buf[offset + 1] as u16) << 8)
}

fn read_u32(buf: &[u8], offset: usize) -> u32 {
    (buf[offset] as u32)
        | ((buf[offset + 1] as u32) << 8)
        | ((buf[offset + 2] as u32) << 16)
        | ((buf[offset + 3] as u32) << 24)
}

fn read_u64(buf: &[u8], offset: usize) -> u64 {
    (read_u32(buf, offset) as u64) | ((read_u32(buf, offset + 4) as u64) << 32)
}

"#;

/// How the loader runs a payload.
pub const MAIN_EXEC: &'static str = r#"unsafe fn exec_payload(selected: &Variant, initial: &stack::InitialStack) -> ! {
    unsafe { exec_embedded_payload(selected, initial) }
}

unsafe fn exec_embedded_payload(selected: &Variant, initial: &stack::InitialStack) -> ! {
    unsafe {
        let _ = exec_reflink_tmpfile(selected, initial);
        let fd = linux_sys::memfd_create_best_effort(b"cargo-sonic-payload\0".as_ptr());
        if fd < 0 {
            linux_sys::exit(111);
        }
        let written = match selected.payload_compression {
            PayloadCompression::None => linux_sys::write_all(fd, selected.payload.as_ptr(), selected.payload.len()),
            PayloadCompression::Zstd => write_zstd_payload(fd, selected),
        };
        if written < 0 {
            linux_sys::exit(112);
        }
        let envp = stack::build_envp(initial, generated_manifest::ENV_ENABLED, selected.env_selected_target_cpu, selected.env_selected_flags);
        if envp.is_null() {
            linux_sys::exit(113);
        }
        linux_sys::execveat(fd, b"\0".as_ptr(), initial.argv, envp, linux_sys::AT_EMPTY_PATH);
        linux_sys::exit(114)
    }
}

unsafe fn exec_bundle_payload(selected: &Variant, initial: &stack::InitialStack) -> ! {
    unsafe {
        let mut path = [0u8; 4096];
        let exe_len = linux_sys::readlinkat(
            linux_sys::AT_FDCWD,
            b"/proc/self/exe\0".as_ptr(),
            path.as_mut_ptr(),
            path.len() - 1,
        );
        if exe_len <= 0 {
            linux_sys::exit(115);
        }
        let exe_len = exe_len as usize;
        let suffix = b".bundle/";
        let required = exe_len + suffix.len() + selected.payload_path.len();
        if required > path.len() {
            linux_sys::exit(116);
        }
        let mut out = exe_len;
        let mut i = 0;
        while i < suffix.len() {
            path[out] = suffix[i];
            out += 1;
            i += 1;
        }
        i = 0;
        while i < selected.payload_path.len() {
            path[out] = selected.payload_path[i];
            out += 1;
            i += 1;
        }
        let fd = linux_sys::openat(linux_sys::AT_FDCWD, path.as_ptr(), linux_sys::O_RDONLY, 0);
        if fd < 0 {
            linux_sys::exit(117);
        }
        if selected.payload_compression != PayloadCompression::None {
            let memfd = linux_sys::memfd_create_best_effort(b"cargo-sonic-payload\0".as_ptr());
            if memfd < 0 {
                let _ = linux_sys::close(fd);
                linux_sys::exit(120);
            }
            if write_zstd_payload_from_fd(memfd, fd, selected) < 0 {
                let _ = linux_sys::close(fd);
                linux_sys::exit(121);
            }
            let _ = linux_sys::close(fd);
            let envp = stack::build_envp(initial, generated_manifest::ENV_ENABLED, selected.env_selected_target_cpu, selected.env_selected_flags);
            if envp.is_null() {
                let _ = linux_sys::close(memfd);
                linux_sys::exit(122);
            }
            linux_sys::execveat(memfd, b"\0".as_ptr(), initial.argv, envp, linux_sys::AT_EMPTY_PATH);
            linux_sys::exit(123);
        }
        let envp = stack::build_envp(initial, generated_manifest::ENV_ENABLED, selected.env_selected_target_cpu, selected.env_selected_flags);
        if envp.is_null() {
            let _ = linux_sys::close(fd);
            linux_sys::exit(118);
        }
        linux_sys::execveat(fd, b"\0".as_ptr(), initial.argv, envp, linux_sys::AT_EMPTY_PATH);
        linux_sys::exit(119)
    }
}

"#;

/// What the loader tells about its selection.
pub const MAIN_DEBUG: &'static str = r#"fn debug_selection(host: HostInfo, variants: &[VariantMeta], selected: &str, sonic_enabled: bool) {
    unsafe {
        linux_sys::write_stderr(b"cargo-sonic debug\n");
        linux_sys::write_stderr(b"  enable=");
        linux_sys::write_stderr(if sonic_enabled { b"1" } else { b"0" });
        linux_sys::write_stderr(b"\n");
        linux_sys::write_stderr(b"  host.features=");
        debug_mask(host.features);
        linux_sys::write_stderr(b"\n");
        linux_sys::write_stderr(b"  host.feature_names=");
        debug_feature_names(host.features);
        linux_sys::write_stderr(b"\n");
        linux_sys::write_stderr(b"  host.identity=");
        debug_identity(host.identity);
        linux_sys::write_stderr(b"\n");
        linux_sys::write_stderr(b"  variants:\n");
        let mut i = 0;
        while i < variants.len() {
            let v = &variants[i];
            let eligible = v.target_kind.is_generic() || v.required_features.is_subset_of(host.features);
            linux_sys::write_stderr(b"    ");
            linux_sys::write_stderr(v.target_cpu.as_bytes());
            linux_sys::write_stderr(b" eligible=");
            linux_sys::write_stderr(if eligible { b"yes" } else { b"no" });
            linux_sys::write_stderr(b" tier=");
            debug_u8(v.feature_tier);
            linux_sys::write_stderr(b" count=");
            debug_u16(v.rank_feature_count);
            linux_sys::write_stderr(b" required=");
            debug_mask(v.required_features);
            if !eligible {
                linux_sys::write_stderr(b" missing=");
                debug_missing(v.required_features, host.features);
                linux_sys::write_stderr(b" missing_features=");
                debug_missing_feature_names(v.required_features, host.features);
            }
            linux_sys::write_stderr(b"\n");
            i += 1;
        }
        linux_sys::write_stderr(b"  selected=");
        linux_sys::write_stderr(selected.as_bytes());
        linux_sys::write_stderr(b"\n");
    }
}

fn debug_identity(identity: CpuIdentity) {
    unsafe {
        match identity {
            CpuIdentity::Unknown => linux_sys::write_stderr(b"unknown"),
            CpuIdentity::X86 { vendor, family, model, stepping } => {
                linux_sys::write_stderr(b"x86(");
                linux_sys::write_stderr(match vendor {
                    select::X86Vendor::Intel => b"intel",
                    select::X86Vendor::Amd => b"amd",
                    select::X86Vendor::Other => b"other",
                });
                linux_sys::write_stderr(b" family=");
                debug_u16(family);
                linux_sys::write_stderr(b" model=");
                debug_u16(model);
                linux_sys::write_stderr(b" stepping=");
                debug_u8(stepping);
                linux_sys::write_stderr(b")");
            }
            CpuIdentity::Aarch64 { implementer, part, variant, revision } => {
                linux_sys::write_stderr(b"aarch64(implementer=");
                debug_u16(implementer);
                linux_sys::write_stderr(b" part=");
                debug_u16(part);
                linux_sys::write_stderr(b" variant=");
                debug_u8(variant);
                linux_sys::write_stderr(b" revision=");
                debug_u8(revision);
                linux_sys::write_stderr(b")");
            }
        }
    }
}

"#;

/// The parts of what it tells.
pub const MAIN_DEBUG_PARTS: &'static str = r#"fn debug_mask(mask: feature_mask::FeatureMask) {
    let words = mask.words();
    unsafe {
        linux_sys::write_stderr(b"[");
        debug_hex64(words[0]);
        linux_sys::write_stderr(b",");
        debug_hex64(words[1]);
        linux_sys::write_stderr(b"]");
    }
}

fn debug_missing(required: feature_mask::FeatureMask, host: feature_mask::FeatureMask) {
    let required = required.words();
    let host = host.words();
    unsafe {
        linux_sys::write_stderr(b"[");
        debug_hex64(required[0] & !host[0]);
        linux_sys::write_stderr(b",");
        debug_hex64(required[1] & !host[1]);
        linux_sys::write_stderr(b"]");
    }
}

fn debug_feature_names(mask: feature_mask::FeatureMask) {
    unsafe {
        linux_sys::write_stderr(b"[");
        let mut first = true;
        let mut i = 0;
        while i < feature_mask::ALL_FEATURES.len() {
            let feature = feature_mask::ALL_FEATURES[i];
            if mask.contains(feature) {
                if !first {
                    linux_sys::write_stderr(b",");
                }
                linux_sys::write_stderr(feature_mask::feature_name(feature).as_bytes());
                first = false;
            }
            i += 1;
        }
        linux_sys::write_stderr(b"]");
    }
}

fn debug_missing_feature_names(required: feature_mask::FeatureMask, host: feature_mask::FeatureMask) {
    unsafe {
        linux_sys::write_stderr(b"[");
        let mut first = true;
        let mut i = 0;
        while i < feature_mask::ALL_FEATURES.len() {
            let feature = feature_mask::ALL_FEATURES[i];
            if required.contains(feature) && !host.contains(feature) {
                if !first {
                    linux_sys::write_stderr(b",");
                }
                linux_sys::write_stderr(feature_mask::feature_name(feature).as_bytes());
                first = false;
            }
            i += 1;
        }
        linux_sys::write_stderr(b"]");
    }
}

fn debug_hex64(value: u64) {
    let mut buf = *b"0x0000000000000000";
    let mut i = 0;
    while i < 16 {
        let shift = (15 - i) * 4;
        let nibble = ((value >> shift) & 0xf) as u8;
        buf[2 + i] = if nibble < 10 { b'0' + nibble } else { b'a' + (nibble - 10) };
        i += 1;
    }
    unsafe { linux_sys::write_stderr(&buf) }
}

fn debug_u8(value: u8) {
    debug_u16(value as u16);
}

fn debug_u16(mut value: u16) {
    let mut buf = [0u8; 5];
    let mut i = buf.len();
    if value == 0 {
        unsafe { linux_sys::write_stderr(b"0") }
        return;
    }
    while value > 0 {
        i -= 1;
        buf[i] = b'0' + (value % 10) as u8;
        value /= 10;
    }
    unsafe { linux_sys::write_stderr(&buf[i..]) }
}

"#;

/// How the loader finds out about an AArch64 host.
pub const MAIN_HOST: &'static str = r#"fn detect_host(initial: &stack::InitialStack) -> HostInfo {
    let _ = initial;
    #[cfg(target_arch = "x86_64")]
    {
        HostInfo {
            arch: TargetArch::X86_64,
            features: unsafe { detect_x86() },
            identity: unsafe { detect_x86_identity() },
            heterogeneous: false,
        }
    }
    #[cfg(target_arch = "aarch64")]
    {
        HostInfo {
            arch: TargetArch::Aarch64,
            features: arch_aarch64::detect_aarch64_features_from_hwcap(initial.hwcap, initial.hwcap2, initial.hwcap3),
            identity: unsafe { detect_aarch64_identity_from_cpuinfo() },
            heterogeneous: false,
        }
    }
}

#[cfg(target_arch = "aarch64")]
unsafe fn detect_aarch64_identity_from_cpuinfo() -> CpuIdentity {
    let midr = unsafe { read_small_file_hex(
        b"/sys/devices/system/cpu/cpu0/regs/identification/midr_el1\0".as_ptr(),
    ) };
    if let Some(midr) = midr {
        return CpuIdentity::Aarch64 {
            implementer: ((midr >> 24) & 0xff) as u16,
            part: ((midr >> 4) & 0xfff) as u16,
            variant: ((midr >> 20) & 0xf) as u8,
            revision: (midr & 0xf) as u8,
        };
    }

    let fd = unsafe { linux_sys::openat(linux_sys::AT_FDCWD, b"/proc/cpuinfo\0".as_ptr(), 0, 0) };
    if fd < 0 {
        return CpuIdentity::Unknown;
    }
    let mut buf = [0u8; 4096];
    let n = unsafe { linux_sys::read(fd, buf.as_mut_ptr(), buf.len()) };
    let _ = unsafe { linux_sys::close(fd) };
    if n <= 0 {
        return CpuIdentity::Unknown;
    }
    let identity = parse_aarch64_cpuinfo(&buf[..n as usize]);
    if identity != CpuIdentity::Unknown {
        return identity;
    }

    CpuIdentity::Unknown
}

#[cfg(target_arch = "aarch64")]
#[allow(dead_code)]
unsafe fn read_midr_el1() -> u32 {
    let value: u64;
    unsafe { core::arch::asm!("mrs {}, MIDR_EL1", out(reg) value, options(nostack, nomem)); }
    value as u32
}

#[cfg(target_arch = "aarch64")]
unsafe fn read_small_file_hex(path: *const u8) -> Option<u32> {
    let fd = unsafe { linux_sys::openat(linux_sys::AT_FDCWD, path, 0, 0) };
    if fd < 0 {
        return None;
    }
    let mut buf = [0u8; 64];
    let n = unsafe { linux_sys::read(fd, buf.as_mut_ptr(), buf.len()) };
    let _ = unsafe { linux_sys::close(fd) };
    if n <= 0 {
        return None;
    }
    parse_hex_u32(&buf[..n as usize])
}

"#;

/// How the loader reads what the kernel prints about the processor.
pub const MAIN_CPUINFO: &'static str = r#"#[cfg(target_arch = "aarch64")]
fn parse_hex_u32(buf: &[u8]) -> Option<u32> {
    let mut out = 0u32;
    let mut seen = false;
    let mut i = 0;
    while i < buf.len() {
        let b = buf[i];
        let digit = if b >= b'0' && b <= b'9' {
            b - b'0'
        } else if b >= b'a' && b <= b'f' {
            b - b'a' + 10
        } else if b >= b'A' && b <= b'F' {
            b - b'A' + 10
        } else if b == b'x' || b == b'X' || b == b' ' || b == b'\t' || b == b'\n' {
            i += 1;
            continue;
        } else {
            break;
        };
        out = (out << 4) | digit as u32;
        seen = true;
        i += 1;
    }
    if seen { Some(out) } else { None }
}

#[cfg(target_arch = "aarch64")]
fn parse_aarch64_cpuinfo(buf: &[u8]) -> CpuIdentity {
    let implementer = cpuinfo_hex_value(buf, b"CPU implementer");
    let part = cpuinfo_hex_value(buf, b"CPU part");
    let variant = cpuinfo_hex_value(buf, b"CPU variant");
    let revision = cpuinfo_decimal_value(buf, b"CPU revision");
    if let (Some(implementer), Some(part)) = (implementer, part) {
        CpuIdentity::Aarch64 {
            implementer,
            part,
            variant: variant.unwrap_or(0) as u8,
            revision: revision.unwrap_or(0) as u8,
        }
    } else {
        CpuIdentity::Unknown
    }
}

#[cfg(target_arch = "aarch64")]
fn cpuinfo_hex_value(buf: &[u8], key: &[u8]) -> Option<u16> {
    let value = cpuinfo_value(buf, key)?;
    let mut out = 0u16;
    let mut seen = false;
    let mut i = 0;
    while i < value.len() {
        let b = value[i];
        let digit = if b >= b'0' && b <= b'9' {
            b - b'0'
        } else if b >= b'a' && b <= b'f' {
            b - b'a' + 10
        } else if b >= b'A' && b <= b'F' {
            b - b'A' + 10
        } else if b == b'x' || b == b'X' || b == b' ' || b == b'\t' {
            i += 1;
            continue;
        } else {
            break;
        };
        out = (out << 4) | digit as u16;
        seen = true;
        i += 1;
    }
    if seen { Some(out) } else { None }
}

#[cfg(target_arch = "aarch64")]
fn cpuinfo_decimal_value(buf: &[u8], key: &[u8]) -> Option<u16> {
    let value = cpuinfo_value(buf, key)?;
    let mut out = 0u16;
    let mut seen = false;
    let mut i = 0;
    while i < value.len() {
        let b = value[i];
        if b >= b'0' && b <= b'9' {
            out = out.saturating_mul(10).saturating_add((b - b'0') as u16);
            seen = true;
        } else if seen {
            break;
        }
        i += 1;
    }
    if seen { Some(out) } else { None }
}

#[cfg(target_arch = "aarch64")]
fn cpuinfo_value<'a>(buf: &'a [u8], key: &[u8]) -> Option<&'a [u8]> {
    let mut start = 0;
    while start < buf.len() {
        let mut end = start;
        while end < buf.len() && buf[end] != b'\n' {
            end += 1;
        }
        let line = &buf[start..end];
        if starts_with_bytes(line, key) {
            let mut colon = 0;
            while colon < line.len() && line[colon] != b':' {
                colon += 1;
            }
            if colon < line.len() {
                return Some(&line[colon + 1..]);
            }
        }
        start = end + 1;
    }
    None
}

#[cfg(target_arch = "aarch64")]
fn starts_with_bytes(buf: &[u8], prefix: &[u8]) -> bool {
    if buf.len() < prefix.len() {
        return false;
    }
    let mut i = 0;
    while i < prefix.len() {
        if buf[i] != prefix[i] {
            return false;
        }
        i += 1;
    }
    true
}

"#;

/// How the loader finds out about an x86-64 host.
pub const MAIN_X86: &'static str = r#"#[cfg(target_arch = "x86_64")]
unsafe fn detect_x86() -> feature_mask::FeatureMask {
    let l1 = core::arch::x86_64::__cpuid_count(1, 0);
    let l70 = core::arch::x86_64::__cpuid_count(7, 0);
    let l71 = core::arch::x86_64::__cpuid_count(7, 1);
    let ld1 = core::arch::x86_64::__cpuid_count(0xd, 1);
    let l8 = core::arch::x86_64::__cpuid_count(0x80000001, 0);
    let xcr0 = if (l1.ecx & (1 << 26)) != 0 && (l1.ecx & (1 << 27)) != 0 {
        unsafe { core::arch::x86_64::_xgetbv(0) }
    } else {
        0
    };
    arch_x86_64::detect_x86_features_from_cpuid(
        arch_x86_64::X86Cpuid {
            leaf1: arch_x86_64::CpuidLeaf { eax: l1.eax, ebx: l1.ebx, ecx: l1.ecx, edx: l1.edx },
            leaf7_0: arch_x86_64::CpuidLeaf { eax: l70.eax, ebx: l70.ebx, ecx: l70.ecx, edx: l70.edx },
            leaf7_1: arch_x86_64::CpuidLeaf { eax: l71.eax, ebx: l71.ebx, ecx: l71.ecx, edx: l71.edx },
            leaf_d_1: arch_x86_64::CpuidLeaf { eax: ld1.eax, ebx: ld1.ebx, ecx: ld1.ecx, edx: ld1.edx },
            leaf80000001: arch_x86_64::CpuidLeaf { eax: l8.eax, ebx: l8.ebx, ecx: l8.ecx, edx: l8.edx },
        },
        xcr0,
    )
}

#[cfg(target_arch = "x86_64")]
unsafe fn detect_x86_identity() -> CpuIdentity {
    let vendor_leaf = core::arch::x86_64::__cpuid_count(0, 0);
    let vendor = if vendor_leaf.ebx == 0x756e6547 && vendor_leaf.edx == 0x49656e69 && vendor_leaf.ecx == 0x6c65746e {
        select::X86Vendor::Intel
    } else if vendor_leaf.ebx == 0x68747541 && vendor_leaf.edx == 0x69746e65 && vendor_leaf.ecx == 0x444d4163 {
        select::X86Vendor::Amd
    } else {
        select::X86Vendor::Other
    };
    let leaf1 = core::arch::x86_64::__cpuid_count(1, 0);
    let base_family = ((leaf1.eax >> 8) & 0xf) as u16;
    let ext_family = ((leaf1.eax >> 20) & 0xff) as u16;
    let base_model = ((leaf1.eax >> 4) & 0xf) as u16;
    let ext_model = ((leaf1.eax >> 16) & 0xf) as u16;
    let family = if base_family == 0xf { base_family + ext_family } else { base_family };
    let model = if base_family == 0x6 || base_family == 0xf { base_model | (ext_model << 4) } else { base_model };
    CpuIdentity::X86 {
        vendor,
        family,
        model,
        stepping: (leaf1.eax & 0xf) as u8,
    }
}
"#;

/// The system calls of the loader.
pub const LINUX_SYS: &'static str = r#"pub const AT_EMPTY_PATH: usize = 0x1000;
pub const AT_FDCWD: isize = -100;
pub const O_RDONLY: usize = 0;
pub const O_RDWR: usize = 2;
pub const O_TMPFILE: usize = 0x410000;
pub const FICLONERANGE: usize = 0x4020940d;
#[cfg(target_arch = "x86_64")]
const SYS_WRITE: usize = 1;
#[cfg(target_arch = "x86_64")]
const SYS_READ: usize = 0;
#[cfg(target_arch = "x86_64")]
const SYS_PREAD64: usize = 17;
#[cfg(target_arch = "x86_64")]
const SYS_IOCTL: usize = 16;
#[cfg(target_arch = "x86_64")]
const SYS_CLOSE: usize = 3;
#[cfg(target_arch = "x86_64")]
const SYS_MMAP: usize = 9;
#[cfg(target_arch = "x86_64")]
const SYS_FTRUNCATE: usize = 77;
#[cfg(target_arch = "x86_64")]
const SYS_EXIT: usize = 60;
#[cfg(target_arch = "x86_64")]
const SYS_OPENAT: usize = 257;
#[cfg(target_arch = "x86_64")]
const SYS_MEMFD_CREATE: usize = 319;
#[cfg(target_arch = "x86_64")]
const SYS_EXECVEAT: usize = 322;
#[cfg(target_arch = "x86_64")]
const SYS_READLINKAT: usize = 267;
const PROT_READ: usize = 1;
const PROT_WRITE: usize = 2;
const MAP_PRIVATE: usize = 2;
const MAP_ANONYMOUS: usize = 0x20;
const MFD_ALLOW_SEALING: usize = 0x2;
const MFD_EXEC: usize = 0x10;
const EINVAL_NEG: isize = -22;

#[cfg(target_arch = "aarch64")]
const SYS_WRITE: usize = 64;
#[cfg(target_arch = "aarch64")]
const SYS_READ: usize = 63;
#[cfg(target_arch = "aarch64")]
const SYS_PREAD64: usize = 67;
#[cfg(target_arch = "aarch64")]
const SYS_IOCTL: usize = 29;
#[cfg(target_arch = "aarch64")]
const SYS_CLOSE: usize = 57;
#[cfg(target_arch = "aarch64")]
const SYS_MMAP: usize = 222;
#[cfg(target_arch = "aarch64")]
const SYS_FTRUNCATE: usize = 46;
#[cfg(target_arch = "aarch64")]
const SYS_EXIT: usize = 93;
#[cfg(target_arch = "aarch64")]
const SYS_OPENAT: usize = 56;
#[cfg(target_arch = "aarch64")]
const SYS_MEMFD_CREATE: usize = 279;
#[cfg(target_arch = "aarch64")]
const SYS_EXECVEAT: usize = 281;
#[cfg(target_arch = "aarch64")]
const SYS_READLINKAT: usize = 78;

#[cfg(target_arch = "x86_64")]
unsafe fn syscall6(n: usize, a0: usize, a1: usize, a2: usize, a3: usize, a4: usize, a5: usize) -> isize {
    let ret: isize;
    unsafe {
        core::arch::asm!("syscall", inlateout("rax") n as isize => ret, in("rdi") a0, in("rsi") a1, in("rdx") a2, in("r10") a3, in("r8") a4, in("r9") a5, lateout("rcx") _, lateout("r11") _, options(nostack));
    }
    ret
}

#[cfg(target_arch = "aarch64")]
unsafe fn syscall6(n: usize, a0: usize, a1: usize, a2: usize, a3: usize, a4: usize, a5: usize) -> isize {
    let ret: isize;
    unsafe {
        core::arch::asm!("svc #0", inlateout("x8") n as isize => _, inlateout("x0") a0 as isize => ret, in("x1") a1, in("x2") a2, in("x3") a3, in("x4") a4, in("x5") a5, options(nostack));
    }
    ret
}

pub unsafe fn mmap(len: usize) -> *mut usize {
    unsafe { syscall6(SYS_MMAP, 0, len, PROT_READ | PROT_WRITE, MAP_PRIVATE | MAP_ANONYMOUS, !0usize, 0) as *mut usize }
}

pub unsafe fn memfd_create_best_effort(name: *const u8) -> isize {
    let mut fd = unsafe { syscall6(SYS_MEMFD_CREATE, name as usize, MFD_ALLOW_SEALING | MFD_EXEC, 0, 0, 0, 0) };
    if fd == EINVAL_NEG {
        fd = unsafe { syscall6(SYS_MEMFD_CREATE, name as usize, MFD_ALLOW_SEALING, 0, 0, 0, 0) };
    }
    if fd == EINVAL_NEG {
        fd = unsafe { syscall6(SYS_MEMFD_CREATE, name as usize, 0, 0, 0, 0, 0) };
    }
    fd
}

pub unsafe fn write_all(fd: isize, mut ptr: *const u8, mut len: usize) -> isize {
    while len > 0 {
        let n = unsafe { syscall6(SYS_WRITE, fd as usize, ptr as usize, len, 0, 0, 0) };
        if n <= 0 {
            return n;
        }
        ptr = unsafe { ptr.add(n as usize) };
        len -= n as usize;
    }
    0
}

pub unsafe fn read(fd: isize, ptr: *mut u8, len: usize) -> isize {
    unsafe { syscall6(SYS_READ, fd as usize, ptr as usize, len, 0, 0, 0) }
}

pub unsafe fn readlinkat(dirfd: isize, path: *const u8, buf: *mut u8, len: usize) -> isize {
    unsafe { syscall6(SYS_READLINKAT, dirfd as usize, path as usize, buf as usize, len, 0, 0) }
}

pub unsafe fn pread(fd: isize, ptr: *mut u8, len: usize, offset: usize) -> isize {
    unsafe { syscall6(SYS_PREAD64, fd as usize, ptr as usize, len, offset, 0, 0) }
}

pub unsafe fn ioctl(fd: isize, request: usize, arg: usize) -> isize {
    unsafe { syscall6(SYS_IOCTL, fd as usize, request, arg, 0, 0, 0) }
}

pub unsafe fn openat(dirfd: isize, path: *const u8, flags: usize, mode: usize) -> isize {
    unsafe { syscall6(SYS_OPENAT, dirfd as usize, path as usize, flags, mode, 0, 0) }
}

pub unsafe fn ftruncate(fd: isize, len: usize) -> isize {
    unsafe { syscall6(SYS_FTRUNCATE, fd as usize, len, 0, 0, 0, 0) }
}

pub unsafe fn close(fd: isize) -> isize {
    unsafe { syscall6(SYS_CLOSE, fd as usize, 0, 0, 0, 0, 0) }
}

pub unsafe fn write_stderr(buf: &[u8]) {
    let _ = unsafe { write_all(2, buf.as_ptr(), buf.len()) };
}

pub unsafe fn execveat(fd: isize, path: *const u8, argv: *const *const u8, envp: *const *const u8, flags: usize) -> isize {
    unsafe { syscall6(SYS_EXECVEAT, fd as usize, path as usize, argv as usize, envp as usize, flags, 0) }
}

pub unsafe fn exit(code: i32) -> ! {
    let _ = unsafe { syscall6(SYS_EXIT, code as usize, 0, 0, 0, 0, 0) };
    loop {}
}
"#;

/// The loader's reading of its initial stack.
pub const STACK: &'static str = r#"use crate::linux_sys;

const AT_NULL: usize = 0;
const AT_PHDR: usize = 3;
const AT_HWCAP: usize = 16;
const AT_HWCAP2: usize = 26;
const AT_HWCAP3: usize = 29;

pub struct InitialStack {
    pub argc: usize,
    pub argv: *const *const u8,
    pub envp: *const *const u8,
    pub envc: usize,
    pub phdr: usize,
    pub hwcap: usize,
    pub hwcap2: usize,
    pub hwcap3: usize,
}

impl InitialStack {
    pub unsafe fn parse(sp: *const usize) -> Self {
        unsafe {
            let argc = *sp;
            let argv = sp.add(1) as *const *const u8;
            let envp = argv.add(argc + 1);
            let mut envc = 0;
            while !(*envp.add(envc)).is_null() {
                envc += 1;
            }
            let mut aux = envp.add(envc + 1) as *const usize;
            let mut phdr = 0;
            let mut hwcap = 0;
            let mut hwcap2 = 0;
            let mut hwcap3 = 0;
            while *aux != AT_NULL {
                let key = *aux;
                let val = *aux.add(1);
                if key == AT_PHDR {
                    phdr = val;
                }
                if key == AT_HWCAP {
                    hwcap = val;
                }
                if key == AT_HWCAP2 {
                    hwcap2 = val;
                }
                if key == AT_HWCAP3 {
                    hwcap3 = val;
                }
                aux = aux.add(2);
            }
            Self {
                argc,
                argv,
                envp,
                envc,
                phdr,
                hwcap,
                hwcap2,
                hwcap3,
            }
        }
    }
}

pub unsafe fn build_envp(
    initial: &InitialStack,
    enabled: &'static [u8],
    cpu: &'static [u8],
    flags: &'static [u8],
) -> *const *const u8 {
    unsafe {
        let mut kept = 0;
        let mut i = 0;
        while i < initial.envc {
            let p = *initial.envp.add(i);
            if !is_sonic_key(p) {
                kept += 1;
            }
            i += 1;
        }
        let total = kept + 3 + 1;
        let bytes = total * core::mem::size_of::<*const u8>();
        let out = linux_sys::mmap(bytes) as *mut *const u8;
        if out.is_null() || out as isize == -1 {
            return core::ptr::null();
        }
        let mut j = 0;
        i = 0;
        while i < initial.envc {
            let p = *initial.envp.add(i);
            if !is_sonic_key(p) {
                *out.add(j) = p;
                j += 1;
            }
            i += 1;
        }
        *out.add(j) = enabled.as_ptr();
        j += 1;
        *out.add(j) = cpu.as_ptr();
        j += 1;
        *out.add(j) = flags.as_ptr();
        j += 1;
        *out.add(j) = core::ptr::null();
        out
    }
}

pub unsafe fn debug_enabled(initial: &InitialStack) -> bool {
    unsafe {
        let mut i = 0;
        while i < initial.envc {
            if env_name_matches(*initial.envp.add(i), b"CARGO_SONIC_DEBUG") {
                return true;
            }
            i += 1;
        }
        false
    }
}

pub unsafe fn sonic_enabled(initial: &InitialStack) -> bool {
    unsafe {
        let mut i = 0;
        while i < initial.envc {
            let p = *initial.envp.add(i);
            if starts_with(p, b"CARGO_SONIC_ENABLE=") {
                let value = p.add(b"CARGO_SONIC_ENABLE=".len());
                return !is_disabled_value(value);
            }
            i += 1;
        }
        true
    }
}

unsafe fn is_sonic_key(p: *const u8) -> bool {
    unsafe {
        starts_with(p, b"CARGO_SONIC_ENABLED=")
            || starts_with(p, b"CARGO_SONIC_SELECTED_TARGET_CPU=")
            || starts_with(p, b"CARGO_SONIC_SELECTED_FLAGS=")
    }
}

unsafe fn env_name_matches(p: *const u8, name: &[u8]) -> bool {
    unsafe {
        let mut i = 0;
        while i < name.len() {
            if *p.add(i) != name[i] {
                return false;
            }
            i += 1;
        }
        let next = *p.add(i);
        next == 0 || next == b'='
    }
}

unsafe fn is_disabled_value(p: *const u8) -> bool {
    unsafe {
        if *p == b'0' && *p.add(1) == 0 {
            return true;
        }
        (*p == b'f' || *p == b'F')
            && (*p.add(1) == b'a' || *p.add(1) == b'A')
            && (*p.add(2) == b'l' || *p.add(2) == b'L')
            && (*p.add(3) == b's' || *p.add(3) == b'S')
            && (*p.add(4) == b'e' || *p.add(4) == b'E')
            && *p.add(5) == 0
    }
}

unsafe fn starts_with(mut p: *const u8, prefix: &[u8]) -> bool {
    unsafe {
        let mut i = 0;
        while i < prefix.len() {
            if *p != prefix[i] {
                return false;
            }
            p = p.add(1);
            i += 1;
        }
        true
    }
}
"#;

/// The dependency of a loader that unpacks zstd payloads.
pub const ZSTD_DEPENDENCY: &'static str = r#"
[dependencies]
ruzstd = { version = "0.8.2", default-features = false }
"#;

/// The package manifest of the loader, up to its dependencies.
pub const LOADER_PACKAGE: &'static str = r#"[package]
name = "sonic-generated-loader"
version = "0.0.0"
edition = "2024"

[profile.dev]
panic = "abort"

[profile.release]
panic = "abort"

[workspace]
"#;

/// The function with which the loader runs a payload.
pub open spec fn exec_function(strategy: LoaderStrategy) -> Seq<char> {
    match strategy {
        LoaderStrategy::Embedded => "exec_embedded_payload"@,
        LoaderStrategy::Bundle => "exec_bundle_payload"@,
    }
}

/// The main module of the loader, before the two places are filled.
pub open spec fn main_template() -> Seq<char> {
    MAIN_ENTRY@ + MAIN_REFLINK@ + MAIN_OFFSETS@ + MAIN_EXEC@ + MAIN_DEBUG@ + MAIN_DEBUG_PARTS@ + MAIN_HOST@ + MAIN_CPUINFO@ + MAIN_X86@
}

/// The main module of the loader, before the two places are filled.
fn template() -> (r: String)
    ensures
        r@ == main_template(),
{
    let mut r = MAIN_ENTRY.to_owned();
    r.append(MAIN_REFLINK);
    r.append(MAIN_OFFSETS);
    r.append(MAIN_EXEC);
    r.append(MAIN_DEBUG);
    r.append(MAIN_DEBUG_PARTS);
    r.append(MAIN_HOST);
    r.append(MAIN_CPUINFO);
    r.append(MAIN_X86);
    r
}

/// The main module of the loader: the template with both places filled.
pub open spec fn main_text(uses_zstd: bool, strategy: LoaderStrategy) -> Seq<char> {
    text::replaced(
        text::replaced(main_template(), "__CARGO_SONIC_EXEC_PAYLOAD__"@, exec_function(strategy)),
        "/*__CARGO_SONIC_ZSTD_SUPPORT__*/"@,
        if uses_zstd {
            ZSTD_SUPPORT@
        } else {
            NO_ZSTD_SUPPORT@
        },
    )
}

/// The main module of the loader. It is the same for every target.
pub fn generated_main(_target: &str, uses_zstd: bool, loader_strategy: LoaderStrategy) -> (r: String)
    ensures
        r@ == main_text(uses_zstd, loader_strategy),
{
    let zstd_support = if uses_zstd {
        ZSTD_SUPPORT
    } else {
        NO_ZSTD_SUPPORT
    };
    let exec_payload = match loader_strategy {
        LoaderStrategy::Embedded => "exec_embedded_payload",
        LoaderStrategy::Bundle => "exec_bundle_payload",
    };
    proof {
        reveal_strlit("__CARGO_SONIC_EXEC_PAYLOAD__");
        reveal_strlit("/*__CARGO_SONIC_ZSTD_SUPPORT__*/");
    }
    let template = template();
    let filled = replace(template.as_str(), "__CARGO_SONIC_EXEC_PAYLOAD__", exec_payload);
    replace(filled.as_str(), "/*__CARGO_SONIC_ZSTD_SUPPORT__*/", zstd_support)
}

/// The system calls of the loader.
pub fn generated_linux_sys() -> (r: &'static str)
    ensures
        r@ == LINUX_SYS@,
{
    LINUX_SYS
}

/// The loader's reading of its initial stack.
pub fn generated_stack() -> (r: &'static str)
    ensures
        r@ == STACK@,
{
    STACK
}

/// The package manifest of the loader.
pub fn generated_package(uses_zstd: bool) -> (r: String)
    ensures
        r@ == LOADER_PACKAGE@ + (if uses_zstd {
            ZSTD_DEPENDENCY@
        } else {
            ""@
        }),
{
    let mut r = LOADER_PACKAGE.to_owned();
    r.append(
        if uses_zstd {
            ZSTD_DEPENDENCY
        } else {
            ""
        },
    );
    r
}

/// The main module runs payloads from the loader itself or from a bundle, as the strategy says,
/// and can decompress them if and only if that is asked for.
pub proof fn the_main_module_suits_the_payloads(
    target: &str,
    zstd: bool,
    strategy: LoaderStrategy,
    r: String,
)
    requires
        call_ensures(generated_main, (target, zstd, strategy), r),
    ensures
        strategy is Embedded && zstd ==> r@ == text::replaced(
            text::replaced(
                main_template(),
                "__CARGO_SONIC_EXEC_PAYLOAD__"@,
                "exec_embedded_payload"@,
            ),
            "/*__CARGO_SONIC_ZSTD_SUPPORT__*/"@,
            ZSTD_SUPPORT@,
        ),
        strategy is Embedded && !zstd ==> r@ == text::replaced(
            text::replaced(
                main_template(),
                "__CARGO_SONIC_EXEC_PAYLOAD__"@,
                "exec_embedded_payload"@,
            ),
            "/*__CARGO_SONIC_ZSTD_SUPPORT__*/"@,
            NO_ZSTD_SUPPORT@,
        ),
        strategy is Bundle && zstd ==> r@ == text::replaced(
            text::replaced(
                main_template(),
                "__CARGO_SONIC_EXEC_PAYLOAD__"@,
                "exec_bundle_payload"@,
            ),
            "/*__CARGO_SONIC_ZSTD_SUPPORT__*/"@,
            ZSTD_SUPPORT@,
        ),
        strategy is Bundle && !zstd ==> r@ == text::replaced(
            text::replaced(
                main_template(),
                "__CARGO_SONIC_EXEC_PAYLOAD__"@,
                "exec_bundle_payload"@,
            ),
            "/*__CARGO_SONIC_ZSTD_SUPPORT__*/"@,
            NO_ZSTD_SUPPORT@,
        ),
{
}

/// The loader's package has the decompressor among its dependencies if and only if it is asked
/// for, and is otherwise the same.
pub proof fn the_package_has_the_decompressor(with: String, without: String)
    requires
        call_ensures(generated_package, (true,), with),
        call_ensures(generated_package, (false,), without),
    ensures
        with@ == without@ + ZSTD_DEPENDENCY@,
{
    reveal_strlit("");
    assert(LOADER_PACKAGE@ + ""@ =~= LOADER_PACKAGE@);
}

} // verus!
