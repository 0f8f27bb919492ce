//! Bit field reader: extracts an unsigned sub-byte field from an already
//! fetched byte, given a bit offset and width. Bit 0 is the least significant
//! bit; a field must lie inside its byte (the caller's layout guarantees it).

use vstd::prelude::*;

verus! {

/// The value of the `width`-bit field of `byte` that starts `offset` bits
/// above the least significant end.
pub open spec fn bit_field_spec(byte: u8, offset: u8, width: u8) -> u8
    recommends
        offset < 8,
        offset + width <= 8,
{
    (byte >> offset) & (((1u16 << (width as u16)) - 1) as u8)
}

/// Extracts the `width`-bit field of `byte` starting at bit `offset`.
pub fn bit_field(byte: u8, offset: u8, width: u8) -> (r: u8)
    requires
        offset < 8,
        offset + width <= 8,
    ensures
        r == bit_field_spec(byte, offset, width),
{
    proof {
        assert(1u16 << (width as u16) >= 1) by (bit_vector)
            requires width <= 8u8;
    }
    let mask: u8 = ((1u16 << (width as u16)) - 1) as u8;
    (byte >> offset) & mask
}

} // verus!
