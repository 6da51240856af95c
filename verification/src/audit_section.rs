//! The section of a binary that holds the list of its dependencies.
use crate::error::SonicError;
use crate::text::{self, starts_with};
use object::write::{Object, StandardSegment, Symbol, SymbolSection};
use object::{
    Architecture, BinaryFormat, Endianness, FileFlags, SectionFlags, SectionKind, SymbolFlags,
    SymbolKind, SymbolScope,
};
use vstd::prelude::*;
use vstd::string::StringSliceAdditionalSpecFns;

verus! {

/// What `compress_to_vec_zlib` of the `miniz_oxide` crate makes of the input at the given
/// level.
pub uninterp spec fn zlib_bytes(input: Seq<u8>, level: u8) -> Seq<u8>;

/// `miniz_oxide::deflate::compress_to_vec_zlib` compresses the input at the given level
/// and puts it into a zlib wrapper. What it returns depends on the input and the level
/// alone.
pub assume_specification[ miniz_oxide::deflate::compress_to_vec_zlib ](
    input: &[u8],
    level: u8,
) -> (r: Vec<u8>)
    ensures
        r@ == zlib_bytes(input@, level),
;

/// The contents of the section, from the list of dependencies in JSON.
pub fn auditable_section(json: &[u8]) -> (r: Vec<u8>)
    ensures
        r@ == zlib_bytes(json@, 7),
{
    miniz_oxide::deflate::compress_to_vec_zlib(json, 7)
}

/// The error of `object::write`.
#[verifier::external_type_specification]
#[verifier::external_body]
pub struct ExObjectWriteError(object::write::Error);

/// The object file that the `object` crate writes: for which machine, with which file flags,
/// with one read-only data section of that name, flags and alignment that holds the contents,
/// and with a data symbol of that name for them, weak or not, visible to other files or not.
/// `None` if it reports an error.
pub uninterp spec fn object_bytes(
    aarch64: bool,
    os_abi: u8,
    abi_version: u8,
    e_flags: u32,
    section: Seq<u8>,
    sh_flags: u64,
    align: u64,
    symbol: Seq<u8>,
    weak: bool,
    visible: bool,
    contents: Seq<u8>,
) -> Option<Seq<u8>>;

/// Whether the bytes can be a name in an object file.
pub open spec fn is_object_name(name: Seq<u8>) -> bool {
    forall|i: int| 0 <= i < name.len() ==> name[i] != 0
}

/// Writes a relocatable object file with `object::write::Object`: a little-endian ELF file
/// for x86-64 or AArch64 with the file flags, with one read-only data section of the given
/// name, flags and alignment that holds the contents, and a data symbol for the whole of
/// them, of dynamic scope if it is visible and of linkage scope otherwise. Names must not
/// hold a zero byte, and the alignment must be a power of two; it is kept to the size of a
/// page. What `Object::write` returns depends on the arguments alone.
#[verifier::external_body]
fn write_object(
    aarch64: bool,
    os_abi: u8,
    abi_version: u8,
    e_flags: u32,
    section: &[u8],
    sh_flags: u64,
    align: u64,
    symbol: &[u8],
    weak: bool,
    visible: bool,
    contents: &[u8],
) -> (r: Result<Vec<u8>, object::write::Error>)
    requires
        is_object_name(section@),
        is_object_name(symbol@),
        1 <= align <= 4096,
        align & (align - 1) as u64 == 0,
    ensures
        ({
            let written = object_bytes(
                aarch64,
                os_abi,
                abi_version,
                e_flags,
                section@,
                sh_flags,
                align,
                symbol@,
                weak,
                visible,
                contents@,
            );
            match r {
                Ok(bytes) => written == Some(bytes@),
                Err(_) => written is None,
            }
        }),
{
    let machine = [Architecture::X86_64, Architecture::Aarch64][aarch64 as usize];
    let mut file = Object::new(BinaryFormat::Elf, machine, Endianness::Little);
    file.flags = FileFlags::Elf { os_abi, abi_version, e_flags };
    let segment = file.segment_name(StandardSegment::Data).to_vec();
    let id = file.add_section(segment, section.to_vec(), SectionKind::ReadOnlyData);
    file.section_mut(id).flags = SectionFlags::Elf { sh_flags };
    let value = file.append_section_data(id, contents, align);
    let scope = [SymbolScope::Linkage, SymbolScope::Dynamic][visible as usize];
    let symbol = Symbol {
        name: symbol.to_vec(), value, size: contents.len() as u64, kind: SymbolKind::Data,
        scope, weak, section: SymbolSection::Section(id), flags: SymbolFlags::None,
    };
    file.add_symbol(symbol);
    file.write()
}

/// The operating system that the object file names: none in particular.
pub const OS_ABI: u8 = 0;

/// The version of its interface.
pub const ABI_VERSION: u8 = 0;

/// The flags of the object file: none.
pub const FILE_FLAGS: u32 = 0;

/// The flags of the section: none, so that it is not loaded when the binary runs.
pub const SECTION_FLAGS: u64 = 0;

/// The alignment of the section.
pub const SECTION_ALIGN: u64 = 1;

/// The object file that carries the section into the binary, if it can be written: a section
/// `.dep-v0` without flags, with a symbol by which the linker can be made to keep it.
pub open spec fn object_of(aarch64: bool, contents: Seq<u8>) -> Option<Seq<u8>> {
    object_bytes(
        aarch64,
        OS_ABI,
        ABI_VERSION,
        FILE_FLAGS,
        ".dep-v0".spec_bytes(),
        SECTION_FLAGS,
        SECTION_ALIGN,
        "__cargo_sonic_auditable_dep_v0".spec_bytes(),
        false,
        true,
        contents,
    )
}

proof fn names_are_object_names()
    ensures
        is_object_name(".dep-v0".spec_bytes()),
        is_object_name("__cargo_sonic_auditable_dep_v0".spec_bytes()),
{
    reveal_strlit(".dep-v0");
    reveal_strlit("__cargo_sonic_auditable_dep_v0");
    vstd::utf8::is_ascii_chars_encode_utf8(".dep-v0"@);
    vstd::utf8::is_ascii_chars_encode_utf8("__cargo_sonic_auditable_dep_v0"@);
}

/// The object file that carries the section into the binary.
pub fn auditable_object(target: &str, contents: &[u8]) -> (r: Result<Vec<u8>, SonicError>)
    ensures
        ({
            let x86 = text::has_prefix(target@, "x86_64-"@);
            let arm = text::has_prefix(target@, "aarch64-"@);
            if x86 || arm {
                match object_of(!x86, contents@) {
                    Some(bytes) => r matches Ok(b) && b@ == bytes,
                    None => r matches Err(e) && e is AuditableObjectFailed,
                }
            } else {
                r matches Err(e) && e is AuditableTargetUnsupported
            }
        }),
{
    let x86 = starts_with(target, "x86_64-");
    if !x86 && !starts_with(target, "aarch64-") {
        return Err(SonicError::AuditableTargetUnsupported);
    }
    proof {
        names_are_object_names();
        assert(1u64 & 0u64 == 0) by (bit_vector);
    }
    let written = write_object(
        !x86,
        OS_ABI,
        ABI_VERSION,
        FILE_FLAGS,
        ".dep-v0".as_bytes(),
        SECTION_FLAGS,
        SECTION_ALIGN,
        "__cargo_sonic_auditable_dep_v0".as_bytes(),
        false,
        true,
        contents,
    );
    match written {
        Ok(bytes) => Ok(bytes),
        Err(_) => Err(SonicError::AuditableObjectFailed),
    }
}

/// The object file is written for the machine of the target, with the contents in a section
/// `.dep-v0` under a global symbol that is not weak; other targets have none.
pub proof fn objects_are_for_the_target(
    target: &str,
    contents: &[u8],
    x86: bool,
    arm: bool,
    r: Result<Vec<u8>, SonicError>,
)
    requires
        call_ensures(starts_with, (target, "x86_64-"), x86),
        call_ensures(starts_with, (target, "aarch64-"), arm),
        call_ensures(auditable_object, (target, contents), r),
    ensures
        !x86 && !arm ==> r is Err,
        x86 || arm ==> (r matches Ok(bytes) ==> Some(bytes@) == object_bytes(
            arm,
            0,
            0,
            0,
            vstd::utf8::encode_utf8(".dep-v0"@),
            0,
            1,
            vstd::utf8::encode_utf8("__cargo_sonic_auditable_dep_v0"@),
            false,
            true,
            contents@,
        )),
{
    reveal_strlit("x86_64-");
    reveal_strlit("aarch64-");
    if x86 && arm {
        assert(target@.take(7)[0] == 'x');
        assert(target@.take(8)[0] == 'a');
    }
}

} // verus!
