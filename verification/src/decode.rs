//! Little-endian decoding of raw entropy bytes into numbers.
//!
//! The byte-to-number derivations of the public API are pinned down here: a
//! signed 32-bit decode for integer draws and an unsigned 64-bit decode that
//! feeds the uniform normalization.

use vstd::prelude::*;

verus! {

/// Value of four bytes read as an unsigned little-endian 32-bit integer.
pub open spec fn spec_u32_of_le_bytes(b0: u8, b1: u8, b2: u8, b3: u8) -> int {
    b0 + b1 * 0x100 + b2 * 0x1_0000 + b3 * 0x100_0000
}

/// Value of four bytes read as a signed little-endian 32-bit integer
/// (two's complement).
pub open spec fn spec_i32_of_le_bytes(b0: u8, b1: u8, b2: u8, b3: u8) -> int {
    if spec_u32_of_le_bytes(b0, b1, b2, b3) < 0x8000_0000 {
        spec_u32_of_le_bytes(b0, b1, b2, b3)
    } else {
        spec_u32_of_le_bytes(b0, b1, b2, b3) - 0x1_0000_0000
    }
}

/// Value of eight bytes read as an unsigned little-endian 64-bit integer.
pub open spec fn spec_u64_of_le_bytes(
    b0: u8,
    b1: u8,
    b2: u8,
    b3: u8,
    b4: u8,
    b5: u8,
    b6: u8,
    b7: u8,
) -> int {
    b0 + b1 * 0x100 + b2 * 0x1_0000 + b3 * 0x100_0000 + b4 * 0x1_0000_0000 + b5
        * 0x100_0000_0000 + b6 * 0x1_0000_0000_0000 + b7 * 0x100_0000_0000_0000
}

/// Signed little-endian 32-bit decode of four entropy bytes.
pub fn int32_from_le_bytes(b0: u8, b1: u8, b2: u8, b3: u8) -> (r: i32)
    ensures
        r as int == spec_i32_of_le_bytes(b0, b1, b2, b3),
{
    let v: u32 = (b0 as u32) + (b1 as u32) * 0x100 + (b2 as u32) * 0x1_0000 + (b3 as u32)
        * 0x100_0000;
    if v >= 0x8000_0000u32 {
        -((0xFFFF_FFFFu32 - v) as i32) - 1
    } else {
        v as i32
    }
}

/// Unsigned little-endian 64-bit decode of eight entropy bytes.
pub fn u64_from_le_bytes(
    b0: u8,
    b1: u8,
    b2: u8,
    b3: u8,
    b4: u8,
    b5: u8,
    b6: u8,
    b7: u8,
) -> (r: u64)
    ensures
        r as int == spec_u64_of_le_bytes(b0, b1, b2, b3, b4, b5, b6, b7),
{
    (b0 as u64) + (b1 as u64) * 0x100 + (b2 as u64) * 0x1_0000 + (b3 as u64) * 0x100_0000 + (
    b4 as u64) * 0x1_0000_0000 + (b5 as u64) * 0x100_0000_0000 + (b6 as u64)
        * 0x1_0000_0000_0000 + (b7 as u64) * 0x100_0000_0000_0000
}

} // verus!
