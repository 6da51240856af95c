//! Which processor a host has, from what the processor and the kernel say.
use crate::arch_x86_64::CpuidLeaf;
use crate::select::{CpuIdentity, X86Vendor};
use vstd::prelude::*;

verus! {

// ---------------------------------------------------------------------------
// x86-64

/// The maker that the registers of `cpuid` leaf 0 name: `GenuineIntel`, `AuthenticAMD`, or
/// another one.
pub open spec fn vendor_of(leaf0: CpuidLeaf) -> X86Vendor {
    if leaf0.ebx == 0x756e6547 && leaf0.edx == 0x49656e69 && leaf0.ecx == 0x6c65746e {
        X86Vendor::Intel
    } else if leaf0.ebx == 0x68747541 && leaf0.edx == 0x69746e65 && leaf0.ecx == 0x444d4163 {
        X86Vendor::Amd
    } else {
        X86Vendor::Other
    }
}

/// The processor family in a signature: the extended family counts if the base family is
/// 15.
pub open spec fn family_of(signature: u32) -> int {
    let base = (signature as int / 0x100) % 0x10;
    if base == 15 {
        base + (signature as int / 0x10_0000) % 0x100
    } else {
        base
    }
}

/// The processor model in a signature: the extended model counts if the base family is 6
/// or 15.
pub open spec fn model_of(signature: u32) -> int {
    let family = (signature as int / 0x100) % 0x10;
    let base = (signature as int / 0x10) % 0x10;
    if family == 6 || family == 15 {
        base + 0x10 * ((signature as int / 0x1_0000) % 0x10)
    } else {
        base
    }
}

/// The identity of an x86-64 processor, from leaves 0 and 1 of `cpuid`.
pub fn x86_identity(leaf0: CpuidLeaf, leaf1: CpuidLeaf) -> (r: CpuIdentity)
    ensures
        r matches CpuIdentity::X86 { vendor, family, model, stepping } && vendor == vendor_of(leaf0)
            && family == family_of(leaf1.eax) && model == model_of(leaf1.eax) && stepping
            == leaf1.eax as int % 0x10,
{
    let vendor = if leaf0.ebx == 0x756e6547 && leaf0.edx == 0x49656e69 && leaf0.ecx == 0x6c65746e {
        X86Vendor::Intel
    } else if leaf0.ebx == 0x68747541 && leaf0.edx == 0x69746e65 && leaf0.ecx == 0x444d4163 {
        X86Vendor::Amd
    } else {
        X86Vendor::Other
    };
    let signature: u32 = leaf1.eax;
    assert((signature >> 8) & 0xf == (signature / 0x100) % 0x10 && (signature >> 20) & 0xff
        == (signature / 0x10_0000) % 0x100 && (signature >> 4) & 0xf == (signature / 0x10) % 0x10
        && (signature >> 16) & 0xf == (signature / 0x1_0000) % 0x10 && signature & 0xf == signature
        % 0x10) by (bit_vector);
    let base_family: u16 = ((signature >> 8) & 0xf) as u16;
    let ext_family: u16 = ((signature >> 20) & 0xff) as u16;
    let base_model: u16 = ((signature >> 4) & 0xf) as u16;
    let ext_model: u16 = ((signature >> 16) & 0xf) as u16;
    let family: u16 = if base_family == 0xf {
        base_family + ext_family
    } else {
        base_family
    };
    let model: u16 = if base_family == 0x6 || base_family == 0xf {
        assert(base_model < 0x10 && ext_model < 0x10 ==> base_model | (ext_model << 4) == base_model
            + 0x10 * ext_model) by (bit_vector);
        base_model | (ext_model << 4)
    } else {
        base_model
    };
    CpuIdentity::X86 { vendor, family, model, stepping: (signature & 0xf) as u8 }
}

// ---------------------------------------------------------------------------
// AArch64: the main identification register

/// The identity that the main identification register of an AArch64 processor holds: the
/// implementer in bits 24 to 31, the variant in bits 20 to 23, the part number in bits 4
/// to 15, and the revision in bits 0 to 3.
pub open spec fn midr_identity(midr: u32) -> CpuIdentity {
    CpuIdentity::Aarch64 {
        implementer: (midr / 0x100_0000) as u16,
        part: ((midr / 0x10) % 0x1000) as u16,
        variant: ((midr / 0x10_0000) % 0x10) as u8,
        revision: (midr % 0x10) as u8,
    }
}

/// The identity that the main identification register of an AArch64 processor holds.
pub fn aarch64_identity_from_midr(midr: u32) -> (r: CpuIdentity)
    ensures
        r == midr_identity(midr),
{
    assert((midr >> 24) & 0xff == midr / 0x100_0000 && (midr >> 4) & 0xfff == (midr / 0x10) % 0x1000
        && (midr >> 20) & 0xf == (midr / 0x10_0000) % 0x10 && midr & 0xf == midr % 0x10)
        by (bit_vector);
    CpuIdentity::Aarch64 {
        implementer: ((midr >> 24) & 0xff) as u16,
        part: ((midr >> 4) & 0xfff) as u16,
        variant: ((midr >> 20) & 0xf) as u8,
        revision: (midr & 0xf) as u8,
    }
}

/// The value of a hexadecimal digit.
pub open spec fn hex_digit(b: u8) -> Option<int> {
    if 0x30 <= b <= 0x39 {
        Some(b - 0x30)
    } else if 0x61 <= b <= 0x66 {
        Some(b - 0x61 + 10)
    } else if 0x41 <= b <= 0x46 {
        Some(b - 0x41 + 10)
    } else {
        None
    }
}

/// Whether a byte may stand between hexadecimal digits: an `x`, a space or a tab.
pub open spec fn is_filler(b: u8) -> bool {
    b == 0x78 || b == 0x58 || b == 0x20 || b == 0x09
}

/// The hexadecimal digits that bytes begin with. Filler is skipped, and a line feed where
/// `across` says so; anything else ends the number.
pub open spec fn hex_digits(bytes: Seq<u8>, across: bool) -> Seq<int>
    decreases bytes.len(),
{
    if bytes.len() == 0 {
        Seq::empty()
    } else {
        match hex_digit(bytes[0]) {
            Some(d) => seq![d] + hex_digits(bytes.drop_first(), across),
            None => if is_filler(bytes[0]) || (across && bytes[0] == 0x0a) {
                hex_digits(bytes.drop_first(), across)
            } else {
                Seq::empty()
            },
        }
    }
}

/// The number that digits stand for in a base.
pub open spec fn number(digits: Seq<int>, base: int) -> int
    decreases digits.len(),
{
    if digits.len() == 0 {
        0
    } else {
        number(digits.drop_last(), base) * base + digits.last()
    }
}

/// The number that digits stand for, without the bits that do not fit; `None` without a
/// digit.
pub open spec fn wrapped(digits: Seq<int>, limit: int) -> Option<int> {
    if digits.len() == 0 {
        None
    } else {
        Some(number(digits, 16) % limit)
    }
}

/// The value of a hexadecimal digit.
fn hex_value(b: u8) -> (r: Option<u8>)
    ensures
        match r {
            Some(d) => hex_digit(b) == Some(d as int) && d < 16,
            None => hex_digit(b) is None,
        },
{
    if 0x30 <= b && b <= 0x39 {
        Some(b - 0x30)
    } else if 0x61 <= b && b <= 0x66 {
        Some(b - 0x61 + 10)
    } else if 0x41 <= b && b <= 0x46 {
        Some(b - 0x41 + 10)
    } else {
        None
    }
}

proof fn one_more_digit(digits: Seq<int>, d: int, limit: int)
    requires
        limit > 0,
    ensures
        number(digits.push(d), 16) % limit == ((number(digits, 16) % limit) * 16 + d) % limit,
{
    let n = number(digits, 16);
    assert(digits.push(d).drop_last() =~= digits);
    let q = n / limit;
    let r = n % limit;
    vstd::arithmetic::div_mod::lemma_fundamental_div_mod(n, limit);
    assert(n * 16 + d == limit * (q * 16) + (r * 16 + d)) by (nonlinear_arith)
        requires
            n == limit * q + r,
    ;
    vstd::arithmetic::div_mod::lemma_mod_multiples_vanish(q * 16, r * 16 + d, limit);
}

/// The number that the hexadecimal digits of a register file stand for.
pub fn parse_aarch64_midr_hex(buf: &[u8]) -> (r: Option<u32>)
    ensures
        match r {
            Some(n) => wrapped(hex_digits(buf@, true), 0x1_0000_0000) == Some(n as int),
            None => wrapped(hex_digits(buf@, true), 0x1_0000_0000) is None,
        },
{
    let mut out: u32 = 0;
    let mut seen = false;
    let ghost mut done: Seq<int> = Seq::empty();
    let mut i: usize = 0;
    assert(buf@.skip(0) =~= buf@);
    assert(done + hex_digits(buf@, true) =~= hex_digits(buf@, true));
    while i < buf.len()
        invariant_except_break
            i <= buf@.len(),
            done + hex_digits(buf@.skip(i as int), true) == hex_digits(buf@, true),
            seen == (done.len() > 0),
            out == number(done, 16) % 0x1_0000_0000,
        ensures
            done == hex_digits(buf@, true),
            seen == (done.len() > 0),
            out == number(done, 16) % 0x1_0000_0000,
        decreases buf@.len() - i,
    {
        let b = buf[i];
        let ghost rest = buf@.skip(i as int);
        assert(rest[0] == b);
        assert(rest.drop_first() =~= buf@.skip(i + 1));
        match hex_value(b) {
            Some(d) => {
                proof {
                    one_more_digit(done, d as int, 0x1_0000_0000);
                    let w = d as u32;
                    assert(w < 16 ==> ((out << 4) | w) == (out * 16 + w) % 0x1_0000_0000)
                        by (bit_vector);
                    assert(done + (seq![d as int] + hex_digits(rest.drop_first(), true))
                        =~= done.push(d as int) + hex_digits(rest.drop_first(), true));
                    done = done.push(d as int);
                }
                out = (out << 4) | (d as u32);
                seen = true;
            },
            None => {
                if !(b == 0x78 || b == 0x58 || b == 0x20 || b == 0x09 || b == 0x0a) {
                    assert(done + Seq::<int>::empty() =~= done);
                    break;
                }
            },
        }
        i += 1;
        if i == buf.len() {
            assert(buf@.skip(i as int) =~= Seq::<u8>::empty());
            assert(done + Seq::<int>::empty() =~= done);
        }
    }
    if seen {
        Some(out)
    } else {
        None
    }
}

// ---------------------------------------------------------------------------
// AArch64: what the kernel prints

/// How many bytes come before the first `b`; the number of bytes if there is none.
pub open spec fn bytes_before(s: Seq<u8>, b: u8) -> nat
    decreases s.len(),
{
    if s.len() > 0 && s[0] != b {
        1 + bytes_before(s.drop_first(), b)
    } else {
        0
    }
}

proof fn bytes_before_bound(s: Seq<u8>, b: u8)
    ensures
        bytes_before(s, b) <= s.len(),
        bytes_before(s, b) < s.len() ==> s[bytes_before(s, b) as int] == b,
    decreases s.len(),
{
    if s.len() > 0 && s[0] != b {
        bytes_before_bound(s.drop_first(), b);
    }
}

/// The first `n` bytes of the line that `buf` begins with, up to the line feed.
pub open spec fn first_line(buf: Seq<u8>) -> Seq<u8> {
    buf.take(bytes_before(buf, 0x0a) as int)
}

/// What follows the colon in a line that begins with the key.
pub open spec fn value_in(line: Seq<u8>, key: Seq<u8>) -> Option<Seq<u8>> {
    let colon = bytes_before(line, 0x3a);
    if key.len() <= line.len() && line.take(key.len() as int) == key && colon < line.len() {
        Some(line.skip(colon as int + 1))
    } else {
        None
    }
}

/// What follows the colon in the first line that begins with the key and holds a colon.
pub open spec fn value_for(buf: Seq<u8>, key: Seq<u8>) -> Option<Seq<u8>>
    decreases buf.len(),
{
    let n = bytes_before(buf, 0x0a);
    if value_in(first_line(buf), key) is Some {
        value_in(first_line(buf), key)
    } else if n < buf.len() {
        value_for(buf.skip(n as int + 1), key)
    } else {
        None
    }
}

/// The position of the first `b` at or after `from` and before `to`, else `to`.
fn find_byte(buf: &[u8], from: usize, to: usize, b: u8) -> (at: usize)
    requires
        from <= to <= buf@.len(),
    ensures
        from <= at <= to,
        at == from + bytes_before(buf@.subrange(from as int, to as int), b),
{
    let mut at: usize = from;
    while at < to && buf[at] != b
        invariant
            from <= at <= to <= buf@.len(),
            from + bytes_before(buf@.subrange(from as int, to as int), b) == at + bytes_before(
                buf@.subrange(at as int, to as int),
                b,
            ),
        decreases to - at,
    {
        assert(buf@.subrange(at as int, to as int).drop_first() =~= buf@.subrange(
            at + 1,
            to as int,
        ));
        at += 1;
    }
    at
}

/// Whether the key stands in `buf` at `at`, before `to`.
fn key_at(buf: &[u8], at: usize, to: usize, key: &[u8]) -> (r: bool)
    requires
        at <= to <= buf@.len(),
    ensures
        r == (key@.len() <= to - at && buf@.subrange(at as int, to as int).take(key@.len() as int)
            == key@),
{
    if to - at < key.len() {
        return false;
    }
    let mut i: usize = 0;
    while i < key.len()
        invariant
            i <= key@.len(),
            at + key@.len() <= to <= buf@.len(),
            forall|j: int| 0 <= j < i ==> buf@[at + j] == key@[j],
        decreases key@.len() - i,
    {
        if buf[at + i] != key[i] {
            assert(buf@.subrange(at as int, to as int).take(key@.len() as int)[i as int]
                != key@[i as int]);
            return false;
        }
        i += 1;
    }
    assert(buf@.subrange(at as int, to as int).take(key@.len() as int) =~= key@);
    true
}

/// What follows the colon in the first line that begins with the key and holds a colon.
pub fn aarch64_cpuinfo_value<'a>(buf: &'a [u8], key: &[u8]) -> (r: Option<&'a [u8]>)
    ensures
        match r {
            Some(value) => value_for(buf@, key@) == Some(value@),
            None => value_for(buf@, key@) is None,
        },
{
    let len: usize = buf.len();
    let mut start: usize = 0;
    assert(buf@.skip(0) =~= buf@);
    loop
        invariant
            start <= len == buf@.len(),
            value_for(buf@, key@) == value_for(buf@.skip(start as int), key@),
        decreases len - start,
    {
        let ghost rest = buf@.skip(start as int);
        assert(buf@.subrange(start as int, len as int) =~= rest);
        let end = find_byte(buf, start, len, 0x0a);
        let colon = find_byte(buf, start, end, 0x3a);
        let ghost line = buf@.subrange(start as int, end as int);
        assert(line =~= first_line(rest));
        if key_at(buf, start, end, key) && colon < end {
            let value = vstd::slice::slice_subrange(buf, colon + 1, end);
            assert(value@ =~= line.skip(colon - start + 1));
            return Some(value);
        }
        if end == len {
            return None;
        }
        proof {
            bytes_before_bound(rest, 0x0a);
            assert(rest.skip(end - start + 1) =~= buf@.skip(end + 1));
        }
        start = end + 1;
    }
}

/// A hexadecimal number in what the kernel prints about the processor.
pub fn aarch64_cpuinfo_hex_value(buf: &[u8], key: &[u8]) -> (r: Option<u16>)
    ensures
        match value_for(buf@, key@) {
            Some(value) => match r {
                Some(n) => wrapped(hex_digits(value, false), 0x1_0000) == Some(n as int),
                None => wrapped(hex_digits(value, false), 0x1_0000) is None,
            },
            None => r is None,
        },
{
    let value = match aarch64_cpuinfo_value(buf, key) {
        Some(value) => value,
        None => {
            return None;
        },
    };
    let mut out: u16 = 0;
    let mut seen = false;
    let ghost mut done: Seq<int> = Seq::empty();
    let mut i: usize = 0;
    assert(value@.skip(0) =~= value@);
    assert(done + hex_digits(value@, false) =~= hex_digits(value@, false));
    while i < value.len()
        invariant_except_break
            i <= value@.len(),
            done + hex_digits(value@.skip(i as int), false) == hex_digits(value@, false),
            seen == (done.len() > 0),
            out == number(done, 16) % 0x1_0000,
        ensures
            done == hex_digits(value@, false),
            seen == (done.len() > 0),
            out == number(done, 16) % 0x1_0000,
        decreases value@.len() - i,
    {
        let b = value[i];
        let ghost rest = value@.skip(i as int);
        assert(rest[0] == b);
        assert(rest.drop_first() =~= value@.skip(i + 1));
        match hex_value(b) {
            Some(d) => {
                proof {
                    one_more_digit(done, d as int, 0x1_0000);
                    let w = d as u16;
                    assert(w < 16 ==> ((out << 4) | w) == (out * 16 + w) % 0x1_0000)
                        by (bit_vector);
                    assert(done + (seq![d as int] + hex_digits(rest.drop_first(), false))
                        =~= done.push(d as int) + hex_digits(rest.drop_first(), false));
                    done = done.push(d as int);
                }
                out = (out << 4) | (d as u16);
                seen = true;
            },
            None => {
                if !(b == 0x78 || b == 0x58 || b == 0x20 || b == 0x09) {
                    assert(done + Seq::<int>::empty() =~= done);
                    break;
                }
            },
        }
        i += 1;
        if i == value.len() {
            assert(value@.skip(i as int) =~= Seq::<u8>::empty());
            assert(done + Seq::<int>::empty() =~= done);
        }
    }
    if seen {
        Some(out)
    } else {
        None
    }
}

/// Whether a byte is a decimal digit.
pub open spec fn is_digit(b: u8) -> bool {
    0x30 <= b <= 0x39
}

/// The decimal digits that bytes begin with.
pub open spec fn digit_run(bytes: Seq<u8>) -> Seq<int>
    decreases bytes.len(),
{
    if bytes.len() > 0 && is_digit(bytes[0]) {
        seq![bytes[0] - 0x30] + digit_run(bytes.drop_first())
    } else {
        Seq::empty()
    }
}

/// The first run of decimal digits.
pub open spec fn decimal_digits(bytes: Seq<u8>) -> Seq<int>
    decreases bytes.len(),
{
    if bytes.len() == 0 {
        Seq::empty()
    } else if is_digit(bytes[0]) {
        digit_run(bytes)
    } else {
        decimal_digits(bytes.drop_first())
    }
}

/// The number that decimal digits stand for, or the greatest that fits; `None` without a
/// digit.
pub open spec fn saturated(digits: Seq<int>) -> Option<int> {
    if digits.len() == 0 {
        None
    } else if number(digits, 10) > 0xffff {
        Some(0xffff)
    } else {
        Some(number(digits, 10))
    }
}

/// The smaller of a number and the greatest that fits.
spec fn capped(n: int) -> int {
    if n > 0xffff {
        0xffff
    } else {
        n
    }
}

proof fn number_is_not_negative(digits: Seq<int>)
    requires
        forall|i: int| 0 <= i < digits.len() ==> 0 <= #[trigger] digits[i],
    ensures
        number(digits, 10) >= 0,
    decreases digits.len(),
{
    if digits.len() > 0 {
        number_is_not_negative(digits.drop_last());
    }
}

/// A decimal number in what the kernel prints about the processor.
pub fn aarch64_cpuinfo_decimal_value(buf: &[u8], key: &[u8]) -> (r: Option<u16>)
    ensures
        match value_for(buf@, key@) {
            Some(value) => match r {
                Some(n) => saturated(decimal_digits(value)) == Some(n as int),
                None => saturated(decimal_digits(value)) is None,
            },
            None => r is None,
        },
{
    let value = match aarch64_cpuinfo_value(buf, key) {
        Some(value) => value,
        None => {
            return None;
        },
    };
    let mut out: u16 = 0;
    let mut seen = false;
    let ghost mut done: Seq<int> = Seq::empty();
    let mut i: usize = 0;
    assert(value@.skip(0) =~= value@);
    while i < value.len()
        invariant_except_break
            i <= value@.len(),
            seen == (done.len() > 0),
            !seen ==> decimal_digits(value@.skip(i as int)) == decimal_digits(value@),
            seen ==> done + digit_run(value@.skip(i as int)) == decimal_digits(value@),
            forall|k: int| 0 <= k < done.len() ==> 0 <= #[trigger] done[k],
            out == capped(number(done, 10)),
        ensures
            done == decimal_digits(value@),
            seen == (done.len() > 0),
            out == capped(number(done, 10)),
        decreases value@.len() - i,
    {
        let b = value[i];
        let ghost rest = value@.skip(i as int);
        assert(rest[0] == b);
        assert(rest.drop_first() =~= value@.skip(i + 1));
        if 0x30 <= b && b <= 0x39 {
            let d: u16 = (b - 0x30) as u16;
            proof {
                number_is_not_negative(done);
                assert(done.push(d as int).drop_last() =~= done);
                assert(done + (seq![d as int] + digit_run(rest.drop_first())) =~= done.push(
                    d as int,
                ) + digit_run(rest.drop_first()));
                if !seen {
                    assert(done =~= Seq::<int>::empty());
                    assert(digit_run(rest) =~= done.push(d as int) + digit_run(rest.drop_first()));
                }
                done = done.push(d as int);
            }
            let tens: u16 = if out > 6553 {
                0xffff
            } else {
                out * 10
            };
            out = tens.saturating_add(d);
            seen = true;
        } else if seen {
            assert(done + Seq::<int>::empty() =~= done);
            break;
        }
        i += 1;
        if i == value.len() {
            assert(value@.skip(i as int) =~= Seq::<u8>::empty());
            assert(done + Seq::<int>::empty() =~= done);
        }
    }
    if seen {
        Some(out)
    } else {
        None
    }
}

/// A hexadecimal number of at most 16 bits in what the kernel prints.
pub open spec fn printed_hex(buf: Seq<u8>, key: Seq<char>) -> Option<int> {
    match value_for(buf, vstd::utf8::encode_utf8(key)) {
        Some(value) => wrapped(hex_digits(value, false), 0x1_0000),
        None => None,
    }
}

/// A decimal number of at most 16 bits in what the kernel prints.
pub open spec fn printed_decimal(buf: Seq<u8>, key: Seq<char>) -> Option<int> {
    match value_for(buf, vstd::utf8::encode_utf8(key)) {
        Some(value) => saturated(decimal_digits(value)),
        None => None,
    }
}

/// The lowest eight bits of a number, or zero.
pub open spec fn low_byte(n: Option<int>) -> u8 {
    match n {
        Some(n) => (n % 0x100) as u8,
        None => 0,
    }
}

/// The identity of an AArch64 processor in what the kernel prints: known if the implementer
/// and the part number are.
pub open spec fn printed_identity(buf: Seq<u8>) -> CpuIdentity {
    match (printed_hex(buf, "CPU implementer"@), printed_hex(buf, "CPU part"@)) {
        (Some(implementer), Some(part)) => CpuIdentity::Aarch64 {
            implementer: implementer as u16,
            part: part as u16,
            variant: low_byte(printed_hex(buf, "CPU variant"@)),
            revision: low_byte(printed_decimal(buf, "CPU revision"@)),
        },
        _ => CpuIdentity::Unknown,
    }
}

/// The identity of an AArch64 processor in what the kernel prints.
pub fn parse_aarch64_cpuinfo_identity(buf: &[u8]) -> (r: CpuIdentity)
    ensures
        r == printed_identity(buf@),
{
    let implementer = aarch64_cpuinfo_hex_value(buf, "CPU implementer".as_bytes());
    let part = aarch64_cpuinfo_hex_value(buf, "CPU part".as_bytes());
    let variant = aarch64_cpuinfo_hex_value(buf, "CPU variant".as_bytes());
    let revision = aarch64_cpuinfo_decimal_value(buf, "CPU revision".as_bytes());
    let variant: u16 = match variant {
        Some(v) => v,
        None => 0,
    };
    let revision: u16 = match revision {
        Some(v) => v,
        None => 0,
    };
    assert(#[verifier::truncate] (variant as u8) == variant % 0x100) by (bit_vector);
    assert(#[verifier::truncate] (revision as u8) == revision % 0x100) by (bit_vector);
    match (implementer, part) {
        (Some(implementer), Some(part)) => CpuIdentity::Aarch64 {
            implementer,
            part,
            variant: #[verifier::truncate]
            (variant as u8),
            revision: #[verifier::truncate]
            (revision as u8),
        },
        _ => CpuIdentity::Unknown,
    }
}

/// The identity of an AArch64 host, given the register file and what the kernel prints, as
/// far as they can be read: the one in the register file, if it holds a number; else the
/// one that the kernel prints.
pub open spec fn host_identity(midr_file: Option<Seq<u8>>, cpuinfo: Option<Seq<u8>>) -> CpuIdentity {
    let midr = match midr_file {
        Some(file) => wrapped(hex_digits(file, true), 0x1_0000_0000),
        None => None,
    };
    match midr {
        Some(n) => midr_identity(n as u32),
        None => match cpuinfo {
            Some(buf) => printed_identity(buf),
            None => CpuIdentity::Unknown,
        },
    }
}

/// The identity of an AArch64 host.
pub fn aarch64_identity(midr_file: Option<&[u8]>, cpuinfo: Option<&[u8]>) -> (r: CpuIdentity)
    ensures
        r == host_identity(
            match midr_file {
                Some(file) => Some(file@),
                None => None,
            },
            match cpuinfo {
                Some(buf) => Some(buf@),
                None => None,
            },
        ),
{
    if let Some(file) = midr_file {
        if let Some(midr) = parse_aarch64_midr_hex(file) {
            return aarch64_identity_from_midr(midr);
        }
    }
    match cpuinfo {
        Some(text) => parse_aarch64_cpuinfo_identity(text),
        None => CpuIdentity::Unknown,
    }
}

// ---------------------------------------------------------------------------
// What is written can be read back

/// A signature that encodes a family, a model and a stepping reads back as these. Families 6
/// and from 15 on have models of eight bits, the upper four of which stand apart; what a
/// family from 15 on has above 15 stands apart too. The bits in between do not matter.
pub proof fn long_signatures_read_back(
    leaf0: CpuidLeaf,
    leaf1: CpuidLeaf,
    family: int,
    model: int,
    stepping: int,
    processor_type: int,
    extended_family: int,
    reserved: int,
    id: CpuIdentity,
)
    requires
        call_ensures(x86_identity, (leaf0, leaf1), id),
        family == 6 || 15 <= family <= 270,
        0 <= model < 256,
        0 <= stepping < 16,
        0 <= processor_type < 16,
        0 <= extended_family < 256,
        family >= 15 ==> extended_family == family - 15,
        0 <= reserved < 16,
        leaf1.eax == stepping + 0x10 * (model % 16) + 0x100 * (if family < 15 {
            family
        } else {
            15
        }) + 0x1000 * processor_type + 0x1_0000 * (model / 16) + 0x10_0000 * extended_family
            + 0x1000_0000 * reserved,
    ensures
        id matches CpuIdentity::X86 { vendor: _, family: f, model: m, stepping: s } && f == family
            && m == model && s == stepping,
{
    let base: int = if family < 15 {
        family
    } else {
        15
    };
    fields_of_a_signature(
        leaf1.eax as int,
        stepping,
        model % 16,
        base,
        processor_type,
        model / 16,
        extended_family,
        reserved,
    );
}

/// A signature of any other family reads back as family, model and stepping of four bits each,
/// whatever the upper half holds.
pub proof fn short_signatures_read_back(
    leaf0: CpuidLeaf,
    leaf1: CpuidLeaf,
    family: int,
    model: int,
    stepping: int,
    rest: int,
    id: CpuIdentity,
)
    requires
        call_ensures(x86_identity, (leaf0, leaf1), id),
        0 <= family < 15,
        family != 6,
        0 <= model < 16,
        0 <= stepping < 16,
        0 <= rest < 0x10_0000,
        leaf1.eax == stepping + 0x10 * model + 0x100 * family + 0x1000 * rest,
    ensures
        id matches CpuIdentity::X86 { vendor: _, family: f, model: m, stepping: s } && f == family
            && m == model && s == stepping,
{
    let n = leaf1.eax as int;
    assert(n / 0x10 == model + 0x10 * family + 0x100 * rest);
    assert(n / 0x100 == family + 0x10 * rest);
    assert(n % 0x10 == stepping && (n / 0x10) % 0x10 == model && (n / 0x100) % 0x10 == family);
}

proof fn fields_of_a_signature(
    n: int,
    a: int,
    b: int,
    c: int,
    d: int,
    e: int,
    f: int,
    g: int,
)
    requires
        0 <= a < 16,
        0 <= b < 16,
        0 <= c < 16,
        0 <= d < 16,
        0 <= e < 16,
        0 <= f < 256,
        0 <= g < 16,
        n == a + 0x10 * b + 0x100 * c + 0x1000 * d + 0x1_0000 * e + 0x10_0000 * f + 0x1000_0000 * g,
    ensures
        n % 0x10 == a,
        (n / 0x10) % 0x10 == b,
        (n / 0x100) % 0x10 == c,
        (n / 0x1_0000) % 0x10 == e,
        (n / 0x10_0000) % 0x100 == f,
{
    assert(n / 0x10 == b + 0x10 * c + 0x100 * d + 0x1000 * e + 0x1_0000 * f + 0x100_0000 * g);
    assert(n / 0x100 == c + 0x10 * d + 0x100 * e + 0x1000 * f + 0x10_0000 * g);
    assert(n / 0x1_0000 == e + 0x10 * f + 0x1000 * g);
    assert(n / 0x10_0000 == f + 0x100 * g);
}

/// The maker is Intel or AMD if and only if leaf 0 spells its twelve letters, four in each of
/// the registers EBX, EDX and ECX, the first in the lowest byte.
pub proof fn makers_are_spelled(leaf0: CpuidLeaf, leaf1: CpuidLeaf, name: Seq<u8>, id: CpuIdentity)
    requires
        call_ensures(x86_identity, (leaf0, leaf1), id),
        name.len() == 12,
        leaf0.ebx == name[0] + 0x100 * name[1] + 0x1_0000 * name[2] + 0x100_0000 * name[3],
        leaf0.edx == name[4] + 0x100 * name[5] + 0x1_0000 * name[6] + 0x100_0000 * name[7],
        leaf0.ecx == name[8] + 0x100 * name[9] + 0x1_0000 * name[10] + 0x100_0000 * name[11],
    ensures
        id matches CpuIdentity::X86 { vendor, .. } && {
            &&& vendor is Intel <==> name == vstd::utf8::encode_utf8("GenuineIntel"@)
            &&& vendor is Amd <==> name == vstd::utf8::encode_utf8("AuthenticAMD"@)
        },
{
    reveal_strlit("GenuineIntel");
    reveal_strlit("AuthenticAMD");
    vstd::utf8::is_ascii_chars_encode_utf8("GenuineIntel"@);
    vstd::utf8::is_ascii_chars_encode_utf8("AuthenticAMD"@);
    let intel = vstd::utf8::encode_utf8("GenuineIntel"@);
    let amd = vstd::utf8::encode_utf8("AuthenticAMD"@);
    assert(intel =~= seq![71u8, 101, 110, 117, 105, 110, 101, 73, 110, 116, 101, 108]);
    assert(amd =~= seq![65u8, 117, 116, 104, 101, 110, 116, 105, 99, 65, 77, 68]);
    letters_of_a_register(name[0], name[1], name[2], name[3], 71, 101, 110, 117);
    letters_of_a_register(name[4], name[5], name[6], name[7], 105, 110, 101, 73);
    letters_of_a_register(name[8], name[9], name[10], name[11], 110, 116, 101, 108);
    letters_of_a_register(name[0], name[1], name[2], name[3], 65, 117, 116, 104);
    letters_of_a_register(name[4], name[5], name[6], name[7], 101, 110, 116, 105);
    letters_of_a_register(name[8], name[9], name[10], name[11], 99, 65, 77, 68);
    if id->vendor is Intel {
        assert(name =~= intel);
    }
    if id->vendor is Amd {
        assert(name =~= amd);
    }
    assert(intel[0] != amd[0]);
}

proof fn letters_of_a_register(a: u8, b: u8, c: u8, d: u8, e: u8, f: u8, g: u8, h: u8)
    ensures
        a + 0x100 * b + 0x1_0000 * c + 0x100_0000 * d == e + 0x100 * f + 0x1_0000 * g + 0x100_0000
            * h <==> (a == e && b == f && c == g && d == h),
{
}

/// A main identification register that encodes an implementer, a variant, a part number and a
/// revision reads back as these, whatever its architecture field holds.
pub proof fn identification_registers_read_back(
    midr: u32,
    implementer: int,
    variant: int,
    architecture: int,
    part: int,
    revision: int,
    id: CpuIdentity,
)
    requires
        call_ensures(aarch64_identity_from_midr, (midr,), id),
        0 <= implementer < 0x100,
        0 <= variant < 0x10,
        0 <= architecture < 0x10,
        0 <= part < 0x1000,
        0 <= revision < 0x10,
        midr == revision + 0x10 * part + 0x1_0000 * architecture + 0x10_0000 * variant + 0x100_0000
            * implementer,
    ensures
        id matches CpuIdentity::Aarch64 { implementer: i, part: p, variant: v, revision: r } && i
            == implementer && p == part && v == variant && r == revision,
{
    let n = midr as int;
    assert(n / 0x10 == part + 0x1000 * architecture + 0x1_0000 * variant + 0x10_0000 * implementer);
    assert(n / 0x10_0000 == variant + 0x10 * implementer);
    assert(n / 0x100_0000 == implementer);
    assert(n % 0x10 == revision);
}

/// Hexadecimal digits go on after a byte that is one, an `x`, a space or a tab, or, in a
/// register file, a line feed; at any other byte they end.
proof fn hex_digits_of_more(bytes: Seq<u8>, b: u8, more: Seq<u8>, across: bool)
    requires
        forall|i: int|
            0 <= i < bytes.len() ==> hex_digit(#[trigger] bytes[i]) is Some || is_filler(bytes[i])
                || (across && bytes[i] == 0x0a),
    ensures
        hex_digits(bytes.push(b) + more, across) == hex_digits(bytes, across) + (match hex_digit(b) {
            Some(d) => seq![d] + hex_digits(more, across),
            None => if is_filler(b) || (across && b == 0x0a) {
                hex_digits(more, across)
            } else {
                Seq::empty()
            },
        }),
    decreases bytes.len(),
{
    let all = bytes.push(b) + more;
    if bytes.len() == 0 {
        assert(all.drop_first() =~= more);
        assert(hex_digits(bytes, across) =~= Seq::<int>::empty());
        assert(Seq::<int>::empty() + hex_digits(all, across) =~= hex_digits(all, across));
    } else {
        let rest = bytes.drop_first();
        assert forall|i: int| 0 <= i < rest.len() implies hex_digit(#[trigger] rest[i]) is Some
            || is_filler(rest[i]) || (across && rest[i] == 0x0a) by {
            assert(rest[i] == bytes[i + 1]);
        }
        hex_digits_of_more(rest, b, more, across);
        assert(all.drop_first() =~= rest.push(b) + more);
        assert(all[0] == bytes[0]);
        match hex_digit(bytes[0]) {
            Some(d) => {
                assert(hex_digits(all, across) =~= hex_digits(bytes, across) + (match hex_digit(b) {
                    Some(e) => seq![e] + hex_digits(more, across),
                    None => if is_filler(b) || (across && b == 0x0a) {
                        hex_digits(more, across)
                    } else {
                        Seq::empty()
                    },
                }));
            },
            None => {},
        }
    }
}

proof fn value_of_more_digits(digits: Seq<int>, d: int, limit: int)
    requires
        limit > 0,
        0 <= d < 16,
        limit % 16 == 0,
    ensures
        wrapped(digits.push(d), limit) == Some(
            ((match wrapped(digits, limit) {
                Some(n) => n,
                None => 0,
            }) * 16 + d) % limit,
        ),
{
    one_more_digit(digits, d, limit);
    if digits.len() == 0 {
        assert(number(digits, 16) == 0);
        vstd::arithmetic::div_mod::lemma_small_mod(0, limit as nat);
    }
}

/// Reading a register file goes on digit by digit: one more digit, of either case, multiplies
/// what was read by sixteen and adds the digit, in 32 bits; one more `x`, space, tab or line
/// feed changes nothing; and anything else ends the number, whatever follows it.
pub proof fn register_files_are_read_digit_by_digit(
    file: &[u8],
    longer: &[u8],
    b: u8,
    more: Seq<u8>,
    before: Option<u32>,
    after: Option<u32>,
)
    requires
        call_ensures(parse_aarch64_midr_hex, (file,), before),
        call_ensures(parse_aarch64_midr_hex, (longer,), after),
        longer@ == file@.push(b) + more,
        forall|i: int|
            0 <= i < file@.len() ==> 48 <= #[trigger] file@[i] <= 57 || 65 <= file@[i] <= 70 || 97
                <= file@[i] <= 102 || file@[i] == 120 || file@[i] == 88 || file@[i] == 32
                || file@[i] == 9 || file@[i] == 10,
    ensures
        more.len() == 0 && (48 <= b <= 57 || 65 <= b <= 70 || 97 <= b <= 102) ==> {
            let digit = if b <= 57 {
                b - 48
            } else if b <= 70 {
                b - 55
            } else {
                b - 87
            };
            let so_far: int = match before {
                Some(n) => n as int,
                None => 0,
            };
            after matches Some(n) && n == (16 * so_far + digit) % 0x1_0000_0000
        },
        more.len() == 0 && (b == 120 || b == 88 || b == 32 || b == 9 || b == 10) ==> after == before,
        !(48 <= b <= 57 || 65 <= b <= 70 || 97 <= b <= 102 || b == 120 || b == 88 || b == 32 || b
            == 9 || b == 10) ==> after == before,
{
    hex_digits_of_more(file@, b, more, true);
    let digits = hex_digits(file@, true);
    assert(digits + Seq::<int>::empty() =~= digits);
    if more.len() == 0 {
        assert(hex_digits(more, true) =~= Seq::<int>::empty());
        match hex_digit(b) {
            Some(d) => {
                assert(digits + (seq![d] + hex_digits(more, true)) =~= digits.push(d));
                value_of_more_digits(digits, d, 0x1_0000_0000);
            },
            None => {},
        }
    }
}

/// Nothing is read from an empty register file.
pub proof fn an_empty_register_file_holds_nothing(file: &[u8], r: Option<u32>)
    requires
        call_ensures(parse_aarch64_midr_hex, (file,), r),
        file@.len() == 0,
    ensures
        r is None,
{
}

/// Reading a hexadecimal value that the kernel prints goes on digit by digit, in 16 bits, up
/// to anything that is no digit, `x`, space or tab.
pub proof fn printed_hex_is_read_digit_by_digit(
    buf: &[u8],
    longer: &[u8],
    key: &[u8],
    other_key: &[u8],
    value: &[u8],
    longer_value: &[u8],
    b: u8,
    more: Seq<u8>,
    before: Option<u16>,
    after: Option<u16>,
)
    requires
        call_ensures(aarch64_cpuinfo_value, (buf, key), Some(value)),
        call_ensures(aarch64_cpuinfo_value, (longer, other_key), Some(longer_value)),
        call_ensures(aarch64_cpuinfo_hex_value, (buf, key), before),
        call_ensures(aarch64_cpuinfo_hex_value, (longer, other_key), after),
        longer_value@ == value@.push(b) + more,
        forall|i: int|
            0 <= i < value@.len() ==> 48 <= #[trigger] value@[i] <= 57 || 65 <= value@[i] <= 70
                || 97 <= value@[i] <= 102 || value@[i] == 120 || value@[i] == 88 || value@[i] == 32
                || value@[i] == 9,
    ensures
        value@.len() == 0 ==> before is None,
        more.len() == 0 && (48 <= b <= 57 || 65 <= b <= 70 || 97 <= b <= 102) ==> {
            let digit = if b <= 57 {
                b - 48
            } else if b <= 70 {
                b - 55
            } else {
                b - 87
            };
            let so_far: int = match before {
                Some(n) => n as int,
                None => 0,
            };
            after matches Some(n) && n == (16 * so_far + digit) % 0x1_0000
        },
        more.len() == 0 && (b == 120 || b == 88 || b == 32 || b == 9) ==> after == before,
        !(48 <= b <= 57 || 65 <= b <= 70 || 97 <= b <= 102 || b == 120 || b == 88 || b == 32 || b
            == 9) ==> after == before,
{
    hex_digits_of_more(value@, b, more, false);
    let digits = hex_digits(value@, false);
    assert(digits + Seq::<int>::empty() =~= digits);
    if more.len() == 0 {
        assert(hex_digits(more, false) =~= Seq::<int>::empty());
        match hex_digit(b) {
            Some(d) => {
                assert(digits + (seq![d] + hex_digits(more, false)) =~= digits.push(d));
                value_of_more_digits(digits, d, 0x1_0000);
            },
            None => {},
        }
    }
}

proof fn digit_run_of_more(bytes: Seq<u8>, b: u8, more: Seq<u8>)
    requires
        forall|i: int| 0 <= i < bytes.len() ==> is_digit(#[trigger] bytes[i]),
    ensures
        digit_run(bytes.push(b) + more) == digit_run(bytes) + (if is_digit(b) {
            seq![b - 0x30] + digit_run(more)
        } else {
            Seq::empty()
        }),
        forall|i: int| 0 <= i < digit_run(bytes).len() ==> 0 <= #[trigger] digit_run(bytes)[i],
        digit_run(bytes).len() == bytes.len(),
    decreases bytes.len(),
{
    let all = bytes.push(b) + more;
    if bytes.len() == 0 {
        assert(all.drop_first() =~= more);
        assert(digit_run(bytes) =~= Seq::<int>::empty());
        assert(Seq::<int>::empty() + digit_run(all) =~= digit_run(all));
    } else {
        let rest = bytes.drop_first();
        assert forall|i: int| 0 <= i < rest.len() implies is_digit(#[trigger] rest[i]) by {
            assert(rest[i] == bytes[i + 1]);
        }
        digit_run_of_more(rest, b, more);
        assert(all.drop_first() =~= rest.push(b) + more);
        assert(is_digit(bytes[0]));
        assert(digit_run(all) =~= digit_run(bytes) + (if is_digit(b) {
            seq![b - 0x30] + digit_run(more)
        } else {
            Seq::empty()
        }));
    }
}

proof fn decimal_digits_after(front: Seq<u8>, digits: Seq<u8>)
    requires
        forall|i: int| 0 <= i < front.len() ==> !is_digit(#[trigger] front[i]),
        digits.len() == 0 || is_digit(digits[0]),
    ensures
        decimal_digits(front + digits) == digit_run(digits),
    decreases front.len(),
{
    if front.len() == 0 {
        assert(front + digits =~= digits);
    } else {
        let rest = front.drop_first();
        assert forall|i: int| 0 <= i < rest.len() implies !is_digit(#[trigger] rest[i]) by {
            assert(rest[i] == front[i + 1]);
        }
        assert((front + digits).drop_first() =~= rest + digits);
        assert(!is_digit(front[0]));
        decimal_digits_after(rest, digits);
    }
}

/// Reading a decimal value that the kernel prints skips what is no digit, goes on digit by
/// digit, stays at the greatest number of 16 bits when it gets there, and ends with the
/// digits, whatever follows them.
pub proof fn printed_decimals_are_read_digit_by_digit(
    buf: &[u8],
    longer: &[u8],
    key: &[u8],
    other_key: &[u8],
    value: &[u8],
    longer_value: &[u8],
    front: Seq<u8>,
    digits: Seq<u8>,
    b: u8,
    more: Seq<u8>,
    before: Option<u16>,
    after: Option<u16>,
)
    requires
        call_ensures(aarch64_cpuinfo_value, (buf, key), Some(value)),
        call_ensures(aarch64_cpuinfo_value, (longer, other_key), Some(longer_value)),
        call_ensures(aarch64_cpuinfo_decimal_value, (buf, key), before),
        call_ensures(aarch64_cpuinfo_decimal_value, (longer, other_key), after),
        value@ == front + digits,
        longer_value@ == front + (digits.push(b) + more),
        forall|i: int| 0 <= i < front.len() ==> !(48 <= #[trigger] front[i] <= 57),
        forall|i: int| 0 <= i < digits.len() ==> 48 <= #[trigger] digits[i] <= 57,
    ensures
        digits.len() == 0 ==> before is None,
        more.len() == 0 && 48 <= b <= 57 ==> {
            let so_far: int = match before {
                Some(n) => n as int,
                None => 0,
            };
            after matches Some(n) && n == (if 10 * so_far + (b - 48) > 0xffff {
                0xffff
            } else {
                10 * so_far + (b - 48)
            })
        },
        digits.len() > 0 && !(48 <= b <= 57) ==> after == before,
{
    digit_run_of_more(digits, b, more);
    if digits.len() > 0 {
        assert(is_digit(digits[0]));
    }
    decimal_digits_after(front, digits);
    let run = digit_run(digits);
    assert(run + Seq::<int>::empty() =~= run);
    number_is_not_negative(run);
    if digits.len() > 0 || is_digit(b) {
        assert((digits.push(b) + more)[0] == (if digits.len() > 0 {
            digits[0]
        } else {
            b
        }));
        decimal_digits_after(front, digits.push(b) + more);
    }
    if digits.len() == 0 {
        assert(digit_run(digits) =~= Seq::<int>::empty());
        assert(number(run, 10) == 0);
    }
    if more.len() == 0 && is_digit(b) {
        assert(digit_run(more) =~= Seq::<int>::empty());
        assert(run + (seq![b - 0x30] + digit_run(more)) =~= run.push(b - 0x30));
        assert(run.push(b - 0x30).drop_last() =~= run);
    }
}

proof fn first_of_two(front: Seq<u8>, b: u8, rest: Seq<u8>)
    requires
        forall|i: int| 0 <= i < front.len() ==> #[trigger] front[i] != b,
    ensures
        bytes_before(front, b) == front.len(),
        bytes_before(front.push(b) + rest, b) == front.len(),
    decreases front.len(),
{
    let all = front.push(b) + rest;
    if front.len() > 0 {
        let shorter = front.drop_first();
        assert forall|i: int| 0 <= i < shorter.len() implies #[trigger] shorter[i] != b by {
            assert(shorter[i] == front[i + 1]);
        }
        first_of_two(shorter, b, rest);
        assert(all.drop_first() =~= shorter.push(b) + rest);
        assert(all[0] == front[0]);
    } else {
        assert(all[0] == b);
    }
}

/// What the kernel prints is read line by line. A line that begins with the key and holds a
/// colon gives what follows its first colon; any other line is passed over.
pub proof fn printed_lines_are_read_in_order(
    buf: &[u8],
    rest: &[u8],
    key: &[u8],
    line: Seq<u8>,
    whole: Option<&[u8]>,
    later: Option<&[u8]>,
)
    requires
        call_ensures(aarch64_cpuinfo_value, (buf, key), whole),
        call_ensures(aarch64_cpuinfo_value, (rest, key), later),
        buf@ == line.push(10) + rest@,
        forall|i: int| 0 <= i < line.len() ==> #[trigger] line[i] != 10,
    ensures
        forall|front: Seq<u8>, value: Seq<u8>|
            line == #[trigger] (front.push(58) + value) && !front.contains(58)
                && key@.len() <= line.len() && line.take(key@.len() as int) == key@ ==> (
            whole matches Some(v) && v@ == value),
        !line.contains(58) || key@.len() > line.len() || line.take(key@.len() as int) != key@ ==> (
        match (whole, later) {
            (Some(v), Some(w)) => v@ == w@,
            (None, None) => true,
            _ => false,
        }),
{
    first_of_two(line, 10, rest@);
    assert(buf@.take(line.len() as int) =~= line);
    assert(buf@.skip(line.len() as int + 1) =~= rest@);
    assert forall|front: Seq<u8>, value: Seq<u8>|
        line == #[trigger] (front.push(58) + value) && !front.contains(58) && key@.len()
            <= line.len() && line.take(key@.len() as int) == key@ implies (whole matches Some(v)
        && v@ == value) by {
        assert forall|i: int| 0 <= i < front.len() implies #[trigger] front[i] != 58 by {
            assert(front.contains(front[i]));
        }
        first_of_two(front, 58, value);
        assert(line.skip(front.len() as int + 1) =~= value);
    }
    if !line.contains(58) {
        assert forall|i: int| 0 <= i < line.len() implies #[trigger] line[i] != 58 by {
            assert(line.contains(line[i]));
        }
        first_of_two(line, 58, Seq::empty());
    }
}

/// Without a colon before its first line feed, and without a line feed, the kernel's output
/// gives nothing.
pub proof fn output_without_a_colon_gives_nothing(buf: &[u8], key: &[u8], r: Option<&[u8]>)
    requires
        call_ensures(aarch64_cpuinfo_value, (buf, key), r),
        forall|i: int| 0 <= i < buf@.len() ==> #[trigger] buf@[i] != 10 && buf@[i] != 58,
    ensures
        r is None,
{
    first_of_two(buf@, 10, Seq::empty());
    first_of_two(buf@, 58, Seq::empty());
    assert(buf@.take(buf@.len() as int) =~= buf@);
}

/// The identity that the kernel prints is made of the implementer and the part number, both
/// hexadecimal and both needed, and of the variant, hexadecimal, and the revision, decimal,
/// which count as zero where they are missing.
pub proof fn printed_identities_have_four_parts(
    buf: &[u8],
    implementer_key: &[u8],
    part_key: &[u8],
    variant_key: &[u8],
    revision_key: &[u8],
    implementer: Option<u16>,
    part: Option<u16>,
    variant: Option<u16>,
    revision: Option<u16>,
    id: CpuIdentity,
)
    requires
        implementer_key@ == vstd::utf8::encode_utf8("CPU implementer"@),
        part_key@ == vstd::utf8::encode_utf8("CPU part"@),
        variant_key@ == vstd::utf8::encode_utf8("CPU variant"@),
        revision_key@ == vstd::utf8::encode_utf8("CPU revision"@),
        call_ensures(aarch64_cpuinfo_hex_value, (buf, implementer_key), implementer),
        call_ensures(aarch64_cpuinfo_hex_value, (buf, part_key), part),
        call_ensures(aarch64_cpuinfo_hex_value, (buf, variant_key), variant),
        call_ensures(aarch64_cpuinfo_decimal_value, (buf, revision_key), revision),
        call_ensures(parse_aarch64_cpuinfo_identity, (buf,), id),
    ensures
        implementer is None || part is None ==> id is Unknown,
        implementer is Some && part is Some ==> (id matches CpuIdentity::Aarch64 {
            implementer: i,
            part: p,
            variant: v,
            revision: r,
        } && Some(i) == implementer && Some(p) == part && v == (match variant {
            Some(n) => n as int % 256,
            None => 0,
        }) && r == (match revision {
            Some(n) => n as int % 256,
            None => 0,
        })),
{
}

/// A register file that holds a number goes before what the kernel prints; without both the
/// processor is unknown.
pub proof fn register_files_go_first(
    file: &[u8],
    output: &[u8],
    midr: Option<u32>,
    from_register: CpuIdentity,
    from_output: CpuIdentity,
    both: CpuIdentity,
    only_output: CpuIdentity,
    only_file: CpuIdentity,
    neither: CpuIdentity,
)
    requires
        call_ensures(parse_aarch64_midr_hex, (file,), midr),
        midr matches Some(n) ==> call_ensures(aarch64_identity_from_midr, (n,), from_register),
        call_ensures(parse_aarch64_cpuinfo_identity, (output,), from_output),
        call_ensures(aarch64_identity, (Some(file), Some(output)), both),
        call_ensures(aarch64_identity, (None, Some(output)), only_output),
        call_ensures(aarch64_identity, (Some(file), None), only_file),
        call_ensures(aarch64_identity, (None, None), neither),
    ensures
        both == (if midr is Some {
            from_register
        } else {
            from_output
        }),
        only_output == from_output,
        only_file == (if midr is Some {
            from_register
        } else {
            CpuIdentity::Unknown
        }),
        neither is Unknown,
{
}

} // verus!
