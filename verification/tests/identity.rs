//! Reading the identity of an AArch64 host.
use cargo_sonic::identity::{aarch64_cpuinfo_decimal_value, aarch64_cpuinfo_hex_value, aarch64_cpuinfo_value, aarch64_identity_from_midr, parse_aarch64_cpuinfo_identity, parse_aarch64_midr_hex};
use cargo_sonic::select::CpuIdentity;

#[test]
fn parses_aarch64_midr_identity() {
    assert_eq!(
        parse_aarch64_midr_hex(b"0x00000000410fd4f1\n").map(aarch64_identity_from_midr),
        Some(CpuIdentity::Aarch64 {
            implementer: 0x41,
            part: 0xd4f,
            variant: 0,
            revision: 1,
        })
    );
}

#[test]
fn parses_aarch64_cpuinfo_identity() {
    let cpuinfo = b"processor\t: 0\n\
        CPU implementer\t: 0x41\n\
        CPU architecture: 8\n\
        CPU variant\t: 0x0\n\
        CPU part\t: 0xd4f\n\
        CPU revision\t: 1\n";
    assert_eq!(
        parse_aarch64_cpuinfo_identity(cpuinfo),
        CpuIdentity::Aarch64 {
            implementer: 0x41,
            part: 0xd4f,
            variant: 0,
            revision: 1,
        }
    );
}

#[test]
fn parse_aarch64_midr_hex_handles_separators_and_prefix() {
    assert_eq!(parse_aarch64_midr_hex(b"0x410FD4F1"), Some(0x410FD4F1));
    assert_eq!(parse_aarch64_midr_hex(b"410fd4f1"), Some(0x410FD4F1));
    assert_eq!(
        parse_aarch64_midr_hex(b"  0X 410f d4f1\n"),
        Some(0x410FD4F1)
    );
}

#[test]
fn parse_aarch64_midr_hex_returns_none_on_empty_or_garbage() {
    assert_eq!(parse_aarch64_midr_hex(b""), None);
    assert_eq!(parse_aarch64_midr_hex(b" \t\n"), None);
    assert_eq!(parse_aarch64_midr_hex(b"!!!"), None);
}

#[test]
fn parse_aarch64_midr_hex_stops_on_non_hex_after_first_digit() {
    // Only the leading hex run is consumed.
    assert_eq!(parse_aarch64_midr_hex(b"deadGGGG"), Some(0xDEAD));
}

#[test]
fn aarch64_identity_from_midr_decomposes_register_bits() {
    let id = aarch64_identity_from_midr(0x410F_D4F1);
    match id {
        CpuIdentity::Aarch64 {
            implementer,
            part,
            variant,
            revision,
        } => {
            assert_eq!(implementer, 0x41);
            assert_eq!(part, 0xd4f);
            assert_eq!(variant, 0);
            assert_eq!(revision, 1);
        }
        _ => panic!("expected aarch64 identity"),
    }
}

#[test]
fn parse_aarch64_cpuinfo_identity_unknown_when_keys_missing() {
    assert_eq!(parse_aarch64_cpuinfo_identity(b""), CpuIdentity::Unknown);
    assert_eq!(
        parse_aarch64_cpuinfo_identity(b"processor\t: 0\nBogusInfo: 1\n"),
        CpuIdentity::Unknown
    );
    // Implementer present but no part — still Unknown.
    assert_eq!(
        parse_aarch64_cpuinfo_identity(b"CPU implementer\t: 0x41\n"),
        CpuIdentity::Unknown
    );
}

#[test]
fn parse_aarch64_cpuinfo_identity_handles_missing_optionals() {
    // No CPU variant / revision lines: should default to 0.
    let id = parse_aarch64_cpuinfo_identity(b"CPU implementer\t: 0x41\nCPU part\t: 0xd0c\n");
    assert_eq!(
        id,
        CpuIdentity::Aarch64 {
            implementer: 0x41,
            part: 0xd0c,
            variant: 0,
            revision: 0,
        }
    );
}

#[test]
fn aarch64_cpuinfo_decimal_value_saturates_on_overflow() {
    // Overflow-saturating decimal — make sure we don't panic.
    let buf = b"CPU revision\t: 9999999999\n";
    let got = aarch64_cpuinfo_decimal_value(buf, b"CPU revision");
    assert_eq!(got, Some(u16::MAX));
}

#[test]
fn aarch64_cpuinfo_value_returns_none_for_line_without_colon() {
    let buf = b"CPU implementer 0x41\n";
    assert!(aarch64_cpuinfo_value(buf, b"CPU implementer").is_none());
}

#[test]
fn aarch64_cpuinfo_hex_value_stops_on_non_hex_garbage() {
    let buf = b"CPU part\t: 0xd05XYZ\n";
    assert_eq!(aarch64_cpuinfo_hex_value(buf, b"CPU part"), Some(0xd05));
}
