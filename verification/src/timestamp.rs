//! Composite timestamp decoder: a 48-bit little-endian millisecond counter,
//! one bit-packed attribute byte (bit 0 synch, bits 3:1 origin, bits 7:4
//! reserved), and one reserved byte — 8 bytes in all.

use crate::bitfield::{bit_field, bit_field_spec};
use crate::cursor::{has_bytes, le_val, lemma_pow256_values, read_le};
use crate::DecodeError;
use vstd::prelude::*;

verus! {

/// What started the millisecond counter. Unrecognized attribute codes are
/// preserved, never rejected.
#[derive(Debug, Clone, Copy, PartialEq, Eq, Structural)]
pub enum TimestampOrigin {
    Reset,
    SetFeature,
    Unknown(u8),
}

/// Whether the counter may have skipped milliseconds. Unrecognized attribute
/// codes are preserved, never rejected.
#[derive(Debug, Clone, Copy, PartialEq, Eq, Structural)]
pub enum TimestampSynch {
    Continuous,
    Skipped,
    Unknown(u8),
}

/// The origin a raw 3-bit attribute code denotes.
pub open spec fn origin_of_bits(v: u8) -> TimestampOrigin {
    if v == 0 {
        TimestampOrigin::Reset
    } else if v == 1 {
        TimestampOrigin::SetFeature
    } else {
        TimestampOrigin::Unknown(v)
    }
}

/// The synch state a raw 1-bit attribute code denotes.
pub open spec fn synch_of_bits(v: u8) -> TimestampSynch {
    if v == 0 {
        TimestampSynch::Continuous
    } else if v == 1 {
        TimestampSynch::Skipped
    } else {
        TimestampSynch::Unknown(v)
    }
}

impl TimestampOrigin {
    /// Maps a raw origin code to its meaning, keeping unrecognized codes.
    pub fn from_bits(v: u8) -> (r: TimestampOrigin)
        ensures
            r == origin_of_bits(v),
    {
        if v == 0 {
            TimestampOrigin::Reset
        } else if v == 1 {
            TimestampOrigin::SetFeature
        } else {
            TimestampOrigin::Unknown(v)
        }
    }
}

impl TimestampSynch {
    /// Maps a raw synch code to its meaning, keeping unrecognized codes.
    pub fn from_bits(v: u8) -> (r: TimestampSynch)
        ensures
            r == synch_of_bits(v),
    {
        if v == 0 {
            TimestampSynch::Continuous
        } else if v == 1 {
            TimestampSynch::Skipped
        } else {
            TimestampSynch::Unknown(v)
        }
    }
}

/// A decoded composite timestamp. `ms` always fits in 48 bits.
#[derive(Debug, Clone, Copy, PartialEq, Eq, Structural)]
pub struct Timestamp {
    pub ms: u64,
    pub origin: TimestampOrigin,
    pub synch: TimestampSynch,
}

impl Timestamp {
    /// The millisecond counter is 48 bits wide: its upper 16 bits are zero.
    pub open spec fn wf(&self) -> bool {
        (self.ms as nat) < 0x1_0000_0000_0000
    }
}

/// The timestamp laid out at `pos`: milliseconds in bytes 5:0 (little
/// endian), the attribute byte at 6, a reserved byte at 7.
pub open spec fn timestamp_of(b: Seq<u8>, pos: int) -> Timestamp
    recommends
        0 <= pos,
        pos + 8 <= b.len(),
{
    Timestamp {
        ms: le_val(b.subrange(pos, pos + 6)) as u64,
        origin: origin_of_bits(bit_field_spec(b[pos + 6], 1, 3)),
        synch: synch_of_bits(bit_field_spec(b[pos + 6], 0, 1)),
    }
}

/// Reads the 48-bit millisecond counter at `pos`: exactly the little-endian
/// reassembly of 6 bytes, zero-extended to 64 bits.
pub fn read_ms(buf: &[u8], pos: usize) -> (r: u64)
    requires
        pos + 6 <= buf@.len(),
    ensures
        r as nat == le_val(buf@.subrange(pos as int, pos as int + 6)),
        (r as nat) < 0x1_0000_0000_0000,
{
    proof {
        lemma_pow256_values();
    }
    let v = read_le(buf, pos, 6);
    v as u64
}

/// Decodes the millisecond counter at `pos`, or fails with `Truncated` when
/// fewer than 6 bytes remain.
pub fn parse_ms(buf: &[u8], pos: usize) -> (r: Result<(u64, usize), DecodeError>)
    ensures
        match r {
            Ok((ms, end)) => pos + 6 <= buf@.len() && ms as nat == le_val(
                buf@.subrange(pos as int, pos as int + 6),
            ) && (ms as nat) < 0x1_0000_0000_0000 && end == pos + 6,
            Err(e) => pos + 6 > buf@.len() && e == (DecodeError::Truncated {
                offset: pos,
                needed: 6,
            }),
        },
{
    if has_bytes(buf, pos, 6) {
        Ok((read_ms(buf, pos), pos + 6))
    } else {
        Err(DecodeError::Truncated { offset: pos, needed: 6 })
    }
}

/// Reads the 8-byte composite timestamp at `pos`.
pub fn read_timestamp(buf: &[u8], pos: usize) -> (r: Timestamp)
    requires
        pos + 8 <= buf@.len(),
    ensures
        r == timestamp_of(buf@, pos as int),
        r.wf(),
{
    let len: usize = buf.len();
    proof {
        assert(pos + 6 < len);
    }
    let ms = read_ms(buf, pos);
    let attr = buf[pos + 6];
    let origin = TimestampOrigin::from_bits(bit_field(attr, 1, 3));
    let synch = TimestampSynch::from_bits(bit_field(attr, 0, 1));
    Timestamp { ms, origin, synch }
}

/// Decodes the 8-byte composite timestamp at `pos`, or fails with
/// `Truncated`. Unrecognized origin or synch codes decode to `Unknown`, never
/// to an error.
pub fn parse_timestamp(buf: &[u8], pos: usize) -> (r: Result<(Timestamp, usize), DecodeError>)
    ensures
        match r {
            Ok((t, end)) => pos + 8 <= buf@.len() && t == timestamp_of(buf@, pos as int) && t.wf()
                && end == pos + 8,
            Err(e) => pos + 8 > buf@.len() && e == (DecodeError::Truncated {
                offset: pos,
                needed: 8,
            }),
        },
{
    if has_bytes(buf, pos, 8) {
        Ok((read_timestamp(buf, pos), pos + 8))
    } else {
        Err(DecodeError::Truncated { offset: pos, needed: 8 })
    }
}

} // verus!
