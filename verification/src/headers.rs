//! The log header record (a 512-byte fixed layout carrying device identity
//! and the capability bitmap) and the per-event header record, whose on-wire
//! length fields are biased and must be corrected: the raw EHL and EL fields
//! leave out the three fixed bytes (tag, revision, EHL) that precede the
//! variable region, so `total_header_len = EHL + 3` and
//! `total_event_len = EL + EHL + 3`.

use crate::bitmap::SuppEventsBitmap;
use crate::cursor::{has_bytes, le_val, lemma_pow256_values, read_bytes, read_le};
use crate::events::{tag_to_event_type, EventType};
use crate::text::{clean_of, clean_text};
use crate::timestamp::{read_timestamp, timestamp_of, Timestamp};
use crate::DecodeError;
use vstd::prelude::*;

verus! {

/// The decoded top-level log header: device identity and log geometry.
#[derive(Debug, PartialEq, Eq)]
pub struct LogHeader {
    pub log_id: u8,
    pub num_events: u32,
    pub log_len: u64,
    pub log_rev: u8,
    pub header_len: u16,
    pub timestamp: Timestamp,
    pub power_on_hours: u128,
    pub power_cycle_count: u64,
    pub vid: u16,
    pub ssvid: u16,
    pub serial_num: String,
    pub model_num: String,
    pub name: String,
    pub supp_events: SuppEventsBitmap,
}

/// The mathematical content of a decoded log header.
pub struct LogHeaderView {
    pub log_id: u8,
    pub num_events: u32,
    pub log_len: u64,
    pub log_rev: u8,
    pub header_len: u16,
    pub timestamp: Timestamp,
    pub power_on_hours: u128,
    pub power_cycle_count: u64,
    pub vid: u16,
    pub ssvid: u16,
    pub serial_num: Seq<char>,
    pub model_num: Seq<char>,
    pub name: Seq<char>,
    pub supp_events: Seq<u8>,
}

impl View for LogHeader {
    type V = LogHeaderView;

    open spec fn view(&self) -> LogHeaderView {
        LogHeaderView {
            log_id: self.log_id,
            num_events: self.num_events,
            log_len: self.log_len,
            log_rev: self.log_rev,
            header_len: self.header_len,
            timestamp: self.timestamp,
            power_on_hours: self.power_on_hours,
            power_cycle_count: self.power_cycle_count,
            vid: self.vid,
            ssvid: self.ssvid,
            serial_num: self.serial_num@,
            model_num: self.model_num@,
            name: self.name@,
            supp_events: self.supp_events@,
        }
    }
}

/// The log header laid out at `pos`, field by field at its fixed offsets.
pub open spec fn log_header_view_of(b: Seq<u8>, pos: int) -> LogHeaderView
    recommends
        0 <= pos,
        pos + 512 <= b.len(),
{
    LogHeaderView {
        log_id: b[pos],
        num_events: le_val(b.subrange(pos + 4, pos + 8)) as u32,
        log_len: le_val(b.subrange(pos + 8, pos + 16)) as u64,
        log_rev: b[pos + 16],
        header_len: le_val(b.subrange(pos + 18, pos + 20)) as u16,
        timestamp: timestamp_of(b, pos + 20),
        power_on_hours: le_val(b.subrange(pos + 28, pos + 44)) as u128,
        power_cycle_count: le_val(b.subrange(pos + 44, pos + 52)) as u64,
        vid: le_val(b.subrange(pos + 52, pos + 54)) as u16,
        ssvid: le_val(b.subrange(pos + 54, pos + 56)) as u16,
        serial_num: clean_of(b.subrange(pos + 56, pos + 76)),
        model_num: clean_of(b.subrange(pos + 76, pos + 116)),
        name: clean_of(b.subrange(pos + 116, pos + 372)),
        supp_events: b.subrange(pos + 480, pos + 512),
    }
}

/// Decodes the 512-byte log header at `pos`, or fails with `Truncated` when
/// fewer than 512 bytes remain.
pub fn parse_log_header(buf: &[u8], pos: usize) -> (r: Result<(LogHeader, usize), DecodeError>)
    ensures
        match r {
            Ok((h, end)) => pos + 512 <= buf@.len() && h@ == log_header_view_of(buf@, pos as int)
                && end == pos + 512,
            Err(e) => pos + 512 > buf@.len() && e == (DecodeError::Truncated {
                offset: pos,
                needed: 512,
            }),
        },
{
    if !has_bytes(buf, pos, 512) {
        return Err(DecodeError::Truncated { offset: pos, needed: 512 });
    }
    proof {
        lemma_pow256_values();
    }
    let log_id = buf[pos];
    let num_events = read_le(buf, pos + 4, 4) as u32;
    let log_len = read_le(buf, pos + 8, 8) as u64;
    let log_rev = buf[pos + 16];
    let header_len = read_le(buf, pos + 18, 2) as u16;
    let timestamp = read_timestamp(buf, pos + 20);
    let power_on_hours = read_le(buf, pos + 28, 16);
    let power_cycle_count = read_le(buf, pos + 44, 8) as u64;
    let vid = read_le(buf, pos + 52, 2) as u16;
    let ssvid = read_le(buf, pos + 54, 2) as u16;
    let serial_num = clean_text(buf, pos + 56, 20);
    let model_num = clean_text(buf, pos + 76, 40);
    let name = clean_text(buf, pos + 116, 256);
    let supp_events = SuppEventsBitmap::from_bytes(read_bytes(buf, pos + 480, 32));
    let header = LogHeader {
        log_id,
        num_events,
        log_len,
        log_rev,
        header_len,
        timestamp,
        power_on_hours,
        power_cycle_count,
        vid,
        ssvid,
        serial_num,
        model_num,
        name,
        supp_events,
    };
    Ok((header, pos + 512))
}

/// A decoded per-event header. `header_len` and `event_len` hold the
/// corrected totals, not the raw wire fields.
#[derive(Debug, Clone, Copy, PartialEq, Eq)]
pub struct EventHeader {
    /// The known event type, or the raw tag byte when it is not a known one.
    pub event_type: Result<EventType, u8>,
    pub event_rev: u8,
    /// The total event header length: the raw EHL field plus 3.
    pub header_len: u16,
    pub ctrl_id: u16,
    pub timestamp: Timestamp,
    pub vendor_info_len: u16,
    /// The total event length: the raw EL field plus EHL plus 3.
    pub event_len: u32,
}

/// The event header laid out at `pos`: tag, revision, raw EHL, a reserved
/// byte, controller id, timestamp, 6 reserved bytes, VSIL, raw EL — with the
/// length corrections applied.
pub open spec fn event_header_of(b: Seq<u8>, pos: int) -> EventHeader
    recommends
        0 <= pos,
        pos + 24 <= b.len(),
{
    EventHeader {
        event_type: tag_to_event_type(b[pos]),
        event_rev: b[pos + 1],
        header_len: (b[pos + 2] + 3) as u16,
        ctrl_id: le_val(b.subrange(pos + 4, pos + 6)) as u16,
        timestamp: timestamp_of(b, pos + 6),
        vendor_info_len: le_val(b.subrange(pos + 20, pos + 22)) as u16,
        event_len: (le_val(b.subrange(pos + 22, pos + 24)) + b[pos + 2] + 3) as u32,
    }
}

/// Decodes the 24-byte event header at `pos` and corrects the biased length
/// fields, or fails with `Truncated` when fewer than 24 bytes remain. An
/// unrecognized tag is preserved, never an error.
pub fn parse_event_header(buf: &[u8], pos: usize) -> (r: Result<(EventHeader, usize), DecodeError>)
    ensures
        match r {
            Ok((h, end)) => pos + 24 <= buf@.len() && h == event_header_of(buf@, pos as int) && end
                == pos + 24,
            Err(e) => pos + 24 > buf@.len() && e == (DecodeError::Truncated {
                offset: pos,
                needed: 24,
            }),
        },
{
    if !has_bytes(buf, pos, 24) {
        return Err(DecodeError::Truncated { offset: pos, needed: 24 });
    }
    proof {
        lemma_pow256_values();
    }
    let event_type = EventType::from_tag(buf[pos]);
    let event_rev = buf[pos + 1];
    let ehl = buf[pos + 2];
    let ctrl_id = read_le(buf, pos + 4, 2) as u16;
    let timestamp = read_timestamp(buf, pos + 6);
    let vendor_info_len = read_le(buf, pos + 20, 2) as u16;
    let el = read_le(buf, pos + 22, 2) as u16;
    let header = EventHeader {
        event_type,
        event_rev,
        header_len: ehl as u16 + 3,
        ctrl_id,
        timestamp,
        vendor_info_len,
        event_len: el as u32 + ehl as u32 + 3,
    };
    Ok((header, pos + 24))
}

} // verus!
