//! The names of the files that payloads are kept in.
use crate::text::{self, hex_padded_text};
use crate::text_laws;
use vstd::prelude::*;
use vstd::string::{StringExecFns, StringSliceAdditionalSpecFns};

verus! {

/// How a payload is stored.
#[derive(Clone, Copy, Debug, PartialEq, Eq, Structural)]
pub enum PayloadCompression {
    Uncompressed,
    Zstd,
}

/// Where the loader takes its payloads from.
#[derive(Clone, Copy, Debug, PartialEq, Eq, Structural)]
pub enum LoaderStrategy {
    /// From itself.
    Embedded,
    /// From a directory beside it.
    Bundle,
}

/// Whether the byte is an ASCII letter or digit.
pub open spec fn is_alphanumeric(b: u8) -> bool {
    0x30 <= b <= 0x39 || 0x41 <= b <= 0x5a || 0x61 <= b <= 0x7a
}

/// A byte of a target CPU name in a file name: a letter or digit as it is, any other byte
/// as an underscore and two hexadecimal digits.
pub open spec fn safe_byte(b: u8) -> Seq<char> {
    if is_alphanumeric(b) {
        seq![b as char]
    } else {
        seq!['_'] + text::hex_padded(b as nat, 2)
    }
}

/// The bytes of a target CPU name in a file name.
pub open spec fn safe_bytes(bytes: Seq<u8>) -> Seq<char>
    decreases bytes.len(),
{
    if bytes.len() == 0 {
        Seq::empty()
    } else {
        safe_byte(bytes[0]) + safe_bytes(bytes.drop_first())
    }
}

/// The name of a target CPU in a file name.
pub open spec fn safe_name(cpu: Seq<char>) -> Seq<char> {
    safe_bytes(vstd::utf8::encode_utf8(cpu))
}

/// The name of a target CPU in a file name.
pub fn sanitize_cpu(cpu: &str) -> (r: String)
    ensures
        r@ == safe_name(cpu@),
{
    let bytes = cpu.as_bytes();
    let mut out = String::new();
    let mut i: usize = 0;
    assert(bytes@.skip(0) =~= bytes@);
    while i < bytes.len()
        invariant
            i <= bytes@.len(),
            bytes@ == vstd::utf8::encode_utf8(cpu@),
            out@ + safe_bytes(bytes@.skip(i as int)) == safe_name(cpu@),
        decreases bytes@.len() - i,
    {
        let b = bytes[i];
        let ghost before = out@;
        let ghost rest = bytes@.skip(i as int);
        if (0x30 <= b && b <= 0x39) || (0x41 <= b && b <= 0x5a) || (0x61 <= b && b <= 0x7a) {
            out.push(b as char);
        } else {
            out.push('_');
            let hex = hex_padded_text(b as u64, 2);
            out.append(hex.as_str());
        }
        assert(out@ =~= before + safe_byte(b));
        assert(rest[0] == b);
        assert(rest.drop_first() =~= bytes@.skip(i + 1));
        assert(before + (safe_byte(b) + safe_bytes(rest.drop_first())) =~= out@ + safe_bytes(
            bytes@.skip(i + 1),
        ));
        i += 1;
    }
    assert(bytes@.skip(i as int) =~= Seq::<u8>::empty());
    assert(out@ + Seq::<char>::empty() =~= out@);
    out
}

proof fn digit_is_injective(a: int, b: int)
    requires
        0 <= a < 16,
        0 <= b < 16,
        text::digit(a) == text::digit(b),
    ensures
        a == b,
{
}

proof fn safe_byte_shape(b: u8)
    ensures
        safe_byte(b).len() == (if is_alphanumeric(b) {
            1int
        } else {
            3int
        }),
        (safe_byte(b)[0] == '_') == !is_alphanumeric(b),
        !is_alphanumeric(b) ==> safe_byte(b)[1] == text::digit((b / 16) as int) && safe_byte(b)[2]
            == text::digit((b % 16) as int),
{
    reveal_with_fuel(text::hex_padded, 3);
    if is_alphanumeric(b) {
        assert(b as char != '_');
    } else {
        assert((b / 16) % 16 == b / 16);
    }
}

/// Different byte sequences have different file names.
pub proof fn safe_bytes_are_injective(a: Seq<u8>, b: Seq<u8>)
    requires
        safe_bytes(a) == safe_bytes(b),
    ensures
        a == b,
    decreases a.len(),
{
    if a.len() > 0 {
        safe_byte_shape(a[0]);
    }
    if b.len() > 0 {
        safe_byte_shape(b[0]);
    }
    if a.len() == 0 || b.len() == 0 {
        assert(a.len() == 0 && b.len() == 0) by {
            if a.len() > 0 {
                assert(safe_bytes(a).len() > 0);
            }
            if b.len() > 0 {
                assert(safe_bytes(b).len() > 0);
            }
        }
        assert(a =~= b);
    } else {
        let s = safe_bytes(a);
        let x = safe_byte(a[0]);
        let y = safe_byte(b[0]);
        assert(s[0] == x[0] && s[0] == y[0]);
        assert(x.len() == y.len());
        if is_alphanumeric(a[0]) {
            assert(a[0] as char == b[0] as char);
        } else {
            assert(s[1] == x[1] && s[1] == y[1]);
            assert(s[2] == x[2] && s[2] == y[2]);
            digit_is_injective((a[0] / 16) as int, (b[0] / 16) as int);
            digit_is_injective((a[0] % 16) as int, (b[0] % 16) as int);
        }
        assert(a[0] == b[0]);
        let n = x.len() as int;
        assert(s.skip(n) =~= safe_bytes(a.drop_first()));
        assert(s.skip(n) =~= safe_bytes(b.drop_first()));
        safe_bytes_are_injective(a.drop_first(), b.drop_first());
        assert(a =~= seq![a[0]] + a.drop_first());
        assert(b =~= seq![b[0]] + b.drop_first());
    }
}

/// Different target CPUs have different file names.
pub proof fn safe_names_are_injective(a: Seq<char>, b: Seq<char>)
    requires
        safe_name(a) == safe_name(b),
    ensures
        a == b,
{
    safe_bytes_are_injective(vstd::utf8::encode_utf8(a), vstd::utf8::encode_utf8(b));
    vstd::utf8::encode_utf8_decode_utf8(a);
    vstd::utf8::encode_utf8_decode_utf8(b);
}

/// The ending of the file name of a payload.
pub open spec fn extension(compression: PayloadCompression) -> Seq<char> {
    match compression {
        PayloadCompression::Uncompressed => ".elf"@,
        PayloadCompression::Zstd => ".elf.zstd"@,
    }
}

/// The ending of the file name of a payload.
pub fn payload_extension(compression: PayloadCompression) -> (r: &'static str)
    ensures
        r@ == extension(compression),
{
    match compression {
        PayloadCompression::Uncompressed => ".elf",
        PayloadCompression::Zstd => ".elf.zstd",
    }
}

/// The file name of a payload.
pub open spec fn file_name(cpu: Seq<char>, compression: PayloadCompression) -> Seq<char> {
    safe_name(cpu) + extension(compression)
}

/// The file name of a payload.
pub fn payload_file_name(cpu: &str, compression: PayloadCompression) -> (r: String)
    ensures
        r@ == file_name(cpu@, compression),
{
    let mut r = sanitize_cpu(cpu);
    r.append(payload_extension(compression));
    r
}

// ---------------------------------------------------------------------------
// File names

proof fn safe_bytes_of_two(a: Seq<u8>, b: Seq<u8>)
    ensures
        safe_bytes(a + b) == safe_bytes(a) + safe_bytes(b),
    decreases a.len(),
{
    if a.len() == 0 {
        assert(a + b =~= b);
        assert(safe_bytes(a) + safe_bytes(b) =~= safe_bytes(b));
    } else {
        safe_bytes_of_two(a.drop_first(), b);
        assert((a + b).drop_first() =~= a.drop_first() + b);
        assert(safe_bytes(a + b) =~= safe_bytes(a) + safe_bytes(b));
    }
}

proof fn safe_bytes_are_safe(bytes: Seq<u8>, i: int)
    requires
        0 <= i < safe_bytes(bytes).len(),
    ensures
        ({
            let c = safe_bytes(bytes)[i];
            'a' <= c <= 'z' || 'A' <= c <= 'Z' || '0' <= c <= '9' || c == '_'
        }),
    decreases bytes.len(),
{
    let first = safe_byte(bytes[0]);
    safe_byte_shape(bytes[0]);
    if i >= first.len() {
        safe_bytes_are_safe(bytes.drop_first(), i - first.len());
    }
}

/// The name of a target CPU in a file name consists of letters, digits and underscores, and
/// different target CPUs have different names.
pub proof fn names_are_safe_and_distinct(a: &str, b: &str, x: String, y: String)
    requires
        call_ensures(sanitize_cpu, (a,), x),
        call_ensures(sanitize_cpu, (b,), y),
    ensures
        forall|i: int|
            0 <= i < x@.len() ==> 'a' <= #[trigger] x@[i] <= 'z' || 'A' <= x@[i] <= 'Z' || '0'
                <= x@[i] <= '9' || x@[i] == '_',
        x@ == y@ <==> a@ == b@,
{
    assert forall|i: int| 0 <= i < x@.len() implies 'a' <= #[trigger] x@[i] <= 'z' || 'A' <= x@[i]
        <= 'Z' || '0' <= x@[i] <= '9' || x@[i] == '_' by {
        safe_bytes_are_safe(vstd::utf8::encode_utf8(a@), i);
    }
    if x@ == y@ {
        safe_names_are_injective(a@, b@);
    }
}

/// The name of a target CPU in a file name does not begin with a slash.
pub(crate) proof fn safe_name_is_relative(cpu: Seq<char>)
    ensures
        safe_name(cpu).len() == 0 || safe_name(cpu)[0] != '/',
{
    if safe_name(cpu).len() > 0 {
        safe_bytes_are_safe(vstd::utf8::encode_utf8(cpu), 0);
    }
}

/// The name of a target CPU goes byte by byte: a letter or digit stays, and any other byte
/// becomes an underscore and its two hexadecimal digits.
pub proof fn names_go_byte_by_byte(a: &str, b: &str, byte: u8, x: String, y: String) -> (digits: Seq<
    char,
>)
    requires
        call_ensures(sanitize_cpu, (a,), x),
        call_ensures(sanitize_cpu, (b,), y),
        b.spec_bytes() == a.spec_bytes().push(byte),
    ensures
        48 <= byte <= 57 || 65 <= byte <= 90 || 97 <= byte <= 122 ==> y@ == x@.push(byte as char),
        !(48 <= byte <= 57 || 65 <= byte <= 90 || 97 <= byte <= 122) ==> y@ == x@ + seq!['_']
            + digits && digits.len() == 2 && text_laws::is_hex(digits) && text_laws::worth(
            digits,
            16,
        ) == byte,
{
    let bytes = a.spec_bytes();
    safe_bytes_of_two(bytes, seq![byte]);
    assert(bytes.push(byte) =~= bytes + seq![byte]);
    assert(seq![byte].drop_first() =~= Seq::<u8>::empty());
    assert(safe_bytes(Seq::<u8>::empty()) =~= Seq::<char>::empty());
    assert(safe_byte(byte) + Seq::<char>::empty() =~= safe_byte(byte));
    assert(safe_bytes(seq![byte]) =~= safe_byte(byte));
    let digits = text::hex_padded(byte as nat, 2);
    text_laws::padded_reads_back(byte as nat, 2);
    reveal_with_fuel(text_laws::sixteens, 3);
    assert(text_laws::sixteens(2) == 256);
    if 48 <= byte <= 57 || 65 <= byte <= 90 || 97 <= byte <= 122 {
        assert(y@ =~= x@.push(byte as char));
    } else {
        assert(y@ =~= x@ + seq!['_'] + digits);
    }
    digits
}

/// A payload's file is named after its target CPU, and its ending tells whether it is
/// compressed.
pub proof fn files_tell_cpu_and_compression(
    cpu: &str,
    compression: PayloadCompression,
    name: String,
    ending: &'static str,
    file: String,
)
    requires
        call_ensures(sanitize_cpu, (cpu,), name),
        call_ensures(payload_extension, (compression,), ending),
        call_ensures(payload_file_name, (cpu, compression), file),
    ensures
        file@ == name@ + ending@,
        compression is Uncompressed ==> ending@ == ".elf"@,
        compression is Zstd ==> ending@ == ".elf"@ + ".zstd"@,
{
    reveal_strlit(".elf");
    reveal_strlit(".zstd");
    reveal_strlit(".elf.zstd");
    assert(".elf"@ + ".zstd"@ =~= ".elf.zstd"@);
}

} // verus!
