//! Bit-exactness of the signed/unsigned transaction-version boundary and
//! the generation tag's wire numbers.

use psbt::version::{version_from_bits, version_to_bits};
use psbt::PsbtVersion;

#[test]
fn version_tag_wire_numbers() {
    assert_eq!(PsbtVersion::V0.standard_u32(), 0);
    assert_eq!(PsbtVersion::V2.standard_u32(), 2);
}

#[test]
fn version_bits_match_two_complement_patterns() {
    assert_eq!(version_to_bits(1), 1);
    assert_eq!(version_to_bits(2), 2);
    assert_eq!(version_to_bits(-1), 0xFFFF_FFFF);
    assert_eq!(version_to_bits(0x7FFF_FFFF), 0x7FFF_FFFF);
    assert_eq!(version_to_bits(i32::MIN), 0x8000_0000);
    for v in [1i32, 2, -1, 0x7FFF_FFFF, i32::MIN, 0] {
        assert_eq!(version_to_bits(v), v as u32);
    }
}

#[test]
fn version_bits_round_trip_signed() {
    for v in [1i32, 2, -1, 0x7FFF_FFFF, i32::MIN, 0, -2] {
        assert_eq!(version_from_bits(version_to_bits(v)), v);
    }
}

#[test]
fn version_bits_round_trip_unsigned() {
    for b in [0u32, 1, 2, 0x7FFF_FFFF, 0x8000_0000, 0xFFFF_FFFF] {
        assert_eq!(version_to_bits(version_from_bits(b)), b);
    }
}
