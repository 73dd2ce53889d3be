//! The PSBT generation tag and the signed/unsigned reinterpretation of the
//! transaction version field.
//!
//! A transaction's version is a signed 32-bit number, but the modern
//! container stores it as an unsigned field. Crossing that boundary must
//! preserve the 4-byte bit pattern — never truncate, saturate or
//! sign-convert — so the two directions here are exact inverses.

use vstd::prelude::*;

verus! {

/// The wire-format generation of a PSBT container.
///
/// Modeled as a closed enumeration so that the version bridge's match is
/// exhaustive and a future generation forces a review of the conversions.
#[derive(Clone, Copy, Debug, PartialEq, Eq, Structural)]
pub enum PsbtVersion {
    /// The original ("legacy") generation: a complete unsigned transaction
    /// is embedded in the container.
    V0,
    /// The restructured ("modern") generation: transaction fields stand
    /// alone as global fields.
    V2,
}

impl PsbtVersion {
    /// The number under which this generation is recorded on the wire.
    pub open spec fn spec_standard_u32(self) -> u32 {
        match self {
            PsbtVersion::V0 => 0u32,
            PsbtVersion::V2 => 2u32,
        }
    }

    /// Returns the wire number of this generation.
    pub fn standard_u32(self) -> (r: u32)
        ensures
            r == self.spec_standard_u32(),
    {
        match self {
            PsbtVersion::V0 => 0,
            PsbtVersion::V2 => 2,
        }
    }
}

/// The unsigned 32-bit pattern that stands for the signed transaction
/// version `v`: non-negative versions keep their value, negative ones wrap
/// into the upper half of the unsigned range (two's complement).
pub open spec fn version_bits(v: int) -> int {
    if v >= 0 {
        v
    } else {
        v + 0x1_0000_0000
    }
}

/// The signed transaction version whose 32-bit pattern is `b`: patterns up
/// to `0x7FFF_FFFF` keep their value, larger ones stand for negative
/// versions (two's complement).
pub open spec fn version_signed(b: int) -> int {
    if b <= 0x7FFF_FFFF {
        b
    } else {
        b - 0x1_0000_0000
    }
}

/// Reinterprets a signed transaction version as its unsigned bit pattern.
pub fn version_to_bits(v: i32) -> (r: u32)
    ensures
        r as int == version_bits(v as int),
{
    if v >= 0 {
        v as u32
    } else {
        ((v as i64) + 0x1_0000_0000i64) as u32
    }
}

/// Reinterprets an unsigned bit pattern as the signed transaction version.
pub fn version_from_bits(b: u32) -> (r: i32)
    ensures
        r as int == version_signed(b as int),
{
    if b <= 0x7FFF_FFFF {
        b as i32
    } else {
        ((b as i64) - 0x1_0000_0000i64) as i32
    }
}

/// Law: reinterpreting a signed version as its bit pattern and back
/// recovers the original signed value exactly, for every value of the
/// signed 32-bit range.
pub proof fn lemma_version_bits_inverse(v: int)
    requires
        -0x8000_0000 <= v <= 0x7FFF_FFFF,
    ensures
        version_signed(version_bits(v)) == v,
{
}

/// Law: reinterpreting an unsigned bit pattern as a signed version and
/// back recovers the original pattern exactly, for every value of the
/// unsigned 32-bit range.
pub proof fn lemma_version_signed_inverse(b: int)
    requires
        0 <= b <= 0xFFFF_FFFF,
    ensures
        version_bits(version_signed(b)) == b,
{
}

/// Law: the unsigned pattern is exactly what the machine reads from the
/// signed value's four bytes — [`version_bits`] agrees with Rust's
/// truncating reinterpretation for every signed 32-bit value.
pub proof fn lemma_version_bits_is_bit_pattern(v: i32)
    ensures
        version_bits(v as int) == v as u32,
{
    assert(v >= 0 ==> v as u32 == v as int) by (bit_vector);
    assert(v < 0 ==> v as u32 == v as int + 0x1_0000_0000) by (bit_vector);
}

} // verus!
