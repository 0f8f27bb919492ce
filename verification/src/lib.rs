//! Decoder for a storage controller's Persistent Event Log (PEL): a fixed
//! layout binary log made of one 512-byte header record followed by a
//! sequence of variable-length, tag-identified event records.
//!
//! Every decode function is deterministic: its result is pinned, through the
//! `View` of the decoded value, to a spec-level function of the input bytes
//! alone.

use vstd::prelude::*;

pub mod bitfield;
pub mod bitmap;
pub mod cursor;
pub mod events;
pub mod headers;
pub mod log;
pub mod text;
pub mod timestamp;

verus! {

/// A fatal decode failure: fewer bytes remain than a fixed-width field or a
/// declared length requires. `offset` is the position at which the decoder
/// needed `needed` further bytes.
#[derive(Debug, Clone, Copy, PartialEq, Eq, Structural)]
pub enum DecodeError {
    Truncated { offset: usize, needed: usize },
}

} // verus!
