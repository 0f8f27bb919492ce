//! Event records: the known event-type tags, the per-tag payload carriers,
//! the `Event` tagged union, and the dispatcher that routes each record's
//! payload by tag — with a mandatory raw-bytes fallback for tags no decoder
//! is registered for, so unknown input never aborts the decode.

use crate::cursor::{has_bytes, le_val, read_bytes};
use crate::headers::{parse_event_header, EventHeader};
use crate::timestamp::{timestamp_of, Timestamp};
use crate::DecodeError;
use vstd::prelude::*;

verus! {

/// The event-type tags this decoder knows.
#[derive(Debug, Clone, Copy, PartialEq, Eq, Structural)]
pub enum EventType {
    SmartHealth,
    FwCommit,
    TimestampChange,
    Por,
    NvmHwError,
    ChangeNamespace,
    FormatNvmStart,
    FormatNvmComplete,
    SanitizeStart,
    SanitizeComplete,
    SetFeature,
    TelementryLogCreated,
    ThermalExcursion,
    VendorSpecifc,
    TcgDefined,
}

/// The event type a raw tag byte denotes, or the raw tag itself when it is
/// not a known one. Total over all 256 tag values: an unknown tag is a value,
/// never a failure.
pub open spec fn tag_to_event_type(tag: u8) -> Result<EventType, u8> {
    match tag {
        0x01 => Ok(EventType::SmartHealth),
        0x02 => Ok(EventType::FwCommit),
        0x03 => Ok(EventType::TimestampChange),
        0x04 => Ok(EventType::Por),
        0x05 => Ok(EventType::NvmHwError),
        0x06 => Ok(EventType::ChangeNamespace),
        0x07 => Ok(EventType::FormatNvmStart),
        0x08 => Ok(EventType::FormatNvmComplete),
        0x09 => Ok(EventType::SanitizeStart),
        0x0a => Ok(EventType::SanitizeComplete),
        0x0b => Ok(EventType::SetFeature),
        0x0c => Ok(EventType::TelementryLogCreated),
        0x0d => Ok(EventType::ThermalExcursion),
        0xde => Ok(EventType::VendorSpecifc),
        0xdf => Ok(EventType::TcgDefined),
        _ => Err(tag),
    }
}

/// The tag byte that denotes an event type on the wire.
pub open spec fn event_type_tag(e: EventType) -> u8 {
    match e {
        EventType::SmartHealth => 0x01,
        EventType::FwCommit => 0x02,
        EventType::TimestampChange => 0x03,
        EventType::Por => 0x04,
        EventType::NvmHwError => 0x05,
        EventType::ChangeNamespace => 0x06,
        EventType::FormatNvmStart => 0x07,
        EventType::FormatNvmComplete => 0x08,
        EventType::SanitizeStart => 0x09,
        EventType::SanitizeComplete => 0x0a,
        EventType::SetFeature => 0x0b,
        EventType::TelementryLogCreated => 0x0c,
        EventType::ThermalExcursion => 0x0d,
        EventType::VendorSpecifc => 0xde,
        EventType::TcgDefined => 0xdf,
    }
}

impl EventType {
    /// Maps a raw tag byte to its event type, or hands the raw tag back.
    pub fn from_tag(tag: u8) -> (r: Result<EventType, u8>)
        ensures
            r == tag_to_event_type(tag),
    {
        match tag {
            0x01 => Ok(EventType::SmartHealth),
            0x02 => Ok(EventType::FwCommit),
            0x03 => Ok(EventType::TimestampChange),
            0x04 => Ok(EventType::Por),
            0x05 => Ok(EventType::NvmHwError),
            0x06 => Ok(EventType::ChangeNamespace),
            0x07 => Ok(EventType::FormatNvmStart),
            0x08 => Ok(EventType::FormatNvmComplete),
            0x09 => Ok(EventType::SanitizeStart),
            0x0a => Ok(EventType::SanitizeComplete),
            0x0b => Ok(EventType::SetFeature),
            0x0c => Ok(EventType::TelementryLogCreated),
            0x0d => Ok(EventType::ThermalExcursion),
            0xde => Ok(EventType::VendorSpecifc),
            0xdf => Ok(EventType::TcgDefined),
            _ => Err(tag),
        }
    }

    /// The tag byte this event type has on the wire.
    pub fn tag(&self) -> (t: u8)
        ensures
            t == event_type_tag(*self),
    {
        match self {
            EventType::SmartHealth => 0x01,
            EventType::FwCommit => 0x02,
            EventType::TimestampChange => 0x03,
            EventType::Por => 0x04,
            EventType::NvmHwError => 0x05,
            EventType::ChangeNamespace => 0x06,
            EventType::FormatNvmStart => 0x07,
            EventType::FormatNvmComplete => 0x08,
            EventType::SanitizeStart => 0x09,
            EventType::SanitizeComplete => 0x0a,
            EventType::SetFeature => 0x0b,
            EventType::TelementryLogCreated => 0x0c,
            EventType::ThermalExcursion => 0x0d,
            EventType::VendorSpecifc => 0xde,
            EventType::TcgDefined => 0xdf,
        }
    }
}

/// SMART / health payload bytes; the concrete layout is an external decoder's
/// concern.
#[derive(Debug, PartialEq, Eq)]
pub struct SmartHealthInfo {
    pub data: Vec<u8>,
}

/// Firmware commit payload bytes.
#[derive(Debug, PartialEq, Eq)]
pub struct FwCommitInfo {
    pub data: Vec<u8>,
}

/// Timestamp change payload bytes.
#[derive(Debug, PartialEq, Eq)]
pub struct TimestampChangeInfo {
    pub data: Vec<u8>,
}

/// Power-on / reset payload bytes.
#[derive(Debug, PartialEq, Eq)]
pub struct PorInfo {
    pub data: Vec<u8>,
}

/// NVM hardware error payload bytes.
#[derive(Debug, PartialEq, Eq)]
pub struct NvmHwErrorInfo {
    pub data: Vec<u8>,
}

/// Namespace change payload bytes.
#[derive(Debug, PartialEq, Eq)]
pub struct ChangeNamespaceInfo {
    pub data: Vec<u8>,
}

/// Format start payload bytes.
#[derive(Debug, PartialEq, Eq)]
pub struct FormatNvmStartInfo {
    pub data: Vec<u8>,
}

/// Format completion payload bytes.
#[derive(Debug, PartialEq, Eq)]
pub struct FormatNvmCompleteInfo {
    pub data: Vec<u8>,
}

/// Sanitize start payload bytes.
#[derive(Debug, PartialEq, Eq)]
pub struct SanitizeStartInfo {
    pub data: Vec<u8>,
}

/// Sanitize completion payload bytes.
#[derive(Debug, PartialEq, Eq)]
pub struct SanitizeCompleteInfo {
    pub data: Vec<u8>,
}

/// Set-feature payload bytes.
#[derive(Debug, PartialEq, Eq)]
pub struct SetFeatureInfo {
    pub data: Vec<u8>,
}

/// Telemetry-log-created payload bytes.
#[derive(Debug, PartialEq, Eq)]
pub struct TelementryLogCreatedInfo {
    pub data: Vec<u8>,
}

/// Thermal excursion payload bytes.
#[derive(Debug, PartialEq, Eq)]
pub struct ThermalExcursionInfo {
    pub data: Vec<u8>,
}

/// Vendor-specific payload bytes, exposed verbatim, never interpreted.
#[derive(Debug, PartialEq, Eq)]
pub struct VendorSpecifcInfo {
    pub data: Vec<u8>,
}

/// TCG-defined payload bytes, exposed verbatim, never interpreted.
#[derive(Debug, PartialEq, Eq)]
pub struct TcgDefinedInfo {
    pub data: Vec<u8>,
}

/// Fallback payload for a tag outside the registry: the raw tag and the
/// payload bytes verbatim.
#[derive(Debug, PartialEq, Eq)]
pub struct UnknownInfo {
    pub event_type: u8,
    pub data: Vec<u8>,
}

/// One decoded event record: its header fields with corrected lengths, the
/// vendor-specific information verbatim, and the tag-specific payload.
#[derive(Debug, PartialEq, Eq)]
pub struct EventRecord<T> {
    pub revision: u8,
    /// The total event header length: the raw EHL field plus 3.
    pub header_len: u16,
    pub ctrl_id: u16,
    pub timestamp: Timestamp,
    pub vendor_info_len: u16,
    /// The total event length: the raw EL field plus EHL plus 3.
    pub len: u32,
    pub vendor_info: Vec<u8>,
    pub info: T,
}

pub type SmartHealthEvent = EventRecord<SmartHealthInfo>;

pub type FwCommitEvent = EventRecord<FwCommitInfo>;

pub type TimestampChangeEvent = EventRecord<TimestampChangeInfo>;

pub type PorEvent = EventRecord<PorInfo>;

pub type NvmHwErrorEvent = EventRecord<NvmHwErrorInfo>;

pub type ChangeNamespaceEvent = EventRecord<ChangeNamespaceInfo>;

pub type FormatNvmStartEvent = EventRecord<FormatNvmStartInfo>;

pub type FormatNvmCompleteEvent = EventRecord<FormatNvmCompleteInfo>;

pub type SanitizeStartEvent = EventRecord<SanitizeStartInfo>;

pub type SanitizeCompleteEvent = EventRecord<SanitizeCompleteInfo>;

pub type SetFeatureEvent = EventRecord<SetFeatureInfo>;

pub type TelementryLogCreatedEvent = EventRecord<TelementryLogCreatedInfo>;

pub type ThermalExcursionEvent = EventRecord<ThermalExcursionInfo>;

pub type VendorSpecifcEvent = EventRecord<VendorSpecifcInfo>;

pub type TcgDefinedEvent = EventRecord<TcgDefinedInfo>;

pub type UnknownEvent = EventRecord<UnknownInfo>;

/// One decoded event: one variant per known event-type tag, plus the
/// mandatory raw-bytes fallback for every other tag.
#[derive(Debug, PartialEq, Eq)]
pub enum Event {
    SmartHealth(SmartHealthEvent),
    FwCommit(FwCommitEvent),
    TimestampChange(TimestampChangeEvent),
    Por(PorEvent),
    NvmHwError(NvmHwErrorEvent),
    ChangeNamespace(ChangeNamespaceEvent),
    FormatNvmStart(FormatNvmStartEvent),
    FormatNvmComplete(FormatNvmCompleteEvent),
    SanitizeStart(SanitizeStartEvent),
    SanitizeComplete(SanitizeCompleteEvent),
    SetFeature(SetFeatureEvent),
    TelementryLogCreated(TelementryLogCreatedEvent),
    ThermalExcursion(ThermalExcursionEvent),
    VendorSpecifc(VendorSpecifcEvent),
    TcgDefined(TcgDefinedEvent),
    Unknown(UnknownEvent),
}

/// The mathematical content of one decoded event record.
pub struct EventRecordView {
    pub revision: u8,
    pub header_len: u16,
    pub ctrl_id: u16,
    pub timestamp: Timestamp,
    pub vendor_info_len: u16,
    pub len: u32,
    pub vendor_info: Seq<u8>,
    pub payload: Seq<u8>,
}

/// The mathematical content of one decoded event: which tag it carries and
/// the record around the payload.
pub struct EventView {
    pub event_type: Result<EventType, u8>,
    pub record: EventRecordView,
}

impl<T> EventRecord<T> {
    /// The record's view, the payload bytes supplied by the variant.
    pub open spec fn record_view(&self, payload: Seq<u8>) -> EventRecordView {
        EventRecordView {
            revision: self.revision,
            header_len: self.header_len,
            ctrl_id: self.ctrl_id,
            timestamp: self.timestamp,
            vendor_info_len: self.vendor_info_len,
            len: self.len,
            vendor_info: self.vendor_info@,
            payload,
        }
    }
}

impl View for Event {
    type V = EventView;

    open spec fn view(&self) -> EventView {
        match self {
            Event::SmartHealth(r) => EventView {
                event_type: Ok(EventType::SmartHealth),
                record: r.record_view(r.info.data@),
            },
            Event::FwCommit(r) => EventView {
                event_type: Ok(EventType::FwCommit),
                record: r.record_view(r.info.data@),
            },
            Event::TimestampChange(r) => EventView {
                event_type: Ok(EventType::TimestampChange),
                record: r.record_view(r.info.data@),
            },
            Event::Por(r) => EventView {
                event_type: Ok(EventType::Por),
                record: r.record_view(r.info.data@),
            },
            Event::NvmHwError(r) => EventView {
                event_type: Ok(EventType::NvmHwError),
                record: r.record_view(r.info.data@),
            },
            Event::ChangeNamespace(r) => EventView {
                event_type: Ok(EventType::ChangeNamespace),
                record: r.record_view(r.info.data@),
            },
            Event::FormatNvmStart(r) => EventView {
                event_type: Ok(EventType::FormatNvmStart),
                record: r.record_view(r.info.data@),
            },
            Event::FormatNvmComplete(r) => EventView {
                event_type: Ok(EventType::FormatNvmComplete),
                record: r.record_view(r.info.data@),
            },
            Event::SanitizeStart(r) => EventView {
                event_type: Ok(EventType::SanitizeStart),
                record: r.record_view(r.info.data@),
            },
            Event::SanitizeComplete(r) => EventView {
                event_type: Ok(EventType::SanitizeComplete),
                record: r.record_view(r.info.data@),
            },
            Event::SetFeature(r) => EventView {
                event_type: Ok(EventType::SetFeature),
                record: r.record_view(r.info.data@),
            },
            Event::TelementryLogCreated(r) => EventView {
                event_type: Ok(EventType::TelementryLogCreated),
                record: r.record_view(r.info.data@),
            },
            Event::ThermalExcursion(r) => EventView {
                event_type: Ok(EventType::ThermalExcursion),
                record: r.record_view(r.info.data@),
            },
            Event::VendorSpecifc(r) => EventView {
                event_type: Ok(EventType::VendorSpecifc),
                record: r.record_view(r.info.data@),
            },
            Event::TcgDefined(r) => EventView {
                event_type: Ok(EventType::TcgDefined),
                record: r.record_view(r.info.data@),
            },
            Event::Unknown(r) => EventView {
                event_type: Err(r.info.event_type),
                record: r.record_view(r.info.data@),
            },
        }
    }
}

/// The corrected total length of the event record at `pos`: the raw EL field
/// plus the raw EHL field plus 3. At least 3, so decoding always advances.
pub open spec fn event_total_len(b: Seq<u8>, pos: int) -> int
    recommends
        0 <= pos,
        pos + 24 <= b.len(),
{
    le_val(b.subrange(pos + 22, pos + 24)) as int + b[pos + 2] as int + 3
}

/// Whether the whole event record at `pos` lies inside the buffer: its fixed
/// 24-byte header and its declared total length.
pub open spec fn event_ok(b: Seq<u8>, pos: int) -> bool {
    pos + 24 <= b.len() && pos + event_total_len(b, pos) <= b.len()
}

/// The truncation failure decoding the event record at `pos` yields.
pub open spec fn event_err(b: Seq<u8>, pos: int) -> DecodeError
    recommends
        0 <= pos,
        !event_ok(b, pos),
{
    if pos + 24 > b.len() {
        DecodeError::Truncated { offset: pos as usize, needed: 24 }
    } else {
        DecodeError::Truncated { offset: pos as usize, needed: event_total_len(b, pos) as usize }
    }
}

/// The event record laid out at `pos`: its header with corrected lengths,
/// then — from the start of the variable region at the corrected header
/// length — the vendor-specific information, then the tag-selected payload,
/// which runs to the record's declared end. A vendor-information length that
/// exceeds the variable region is cut off at the record's end.
pub open spec fn event_view_of(b: Seq<u8>, pos: int) -> EventView
    recommends
        0 <= pos,
        event_ok(b, pos),
{
    let ehl = b[pos + 2] as int;
    let vsil = le_val(b.subrange(pos + 20, pos + 22)) as int;
    let el = le_val(b.subrange(pos + 22, pos + 24)) as int;
    let thl = ehl + 3;
    let tel = el + ehl + 3;
    let vlen = if vsil <= el {
        vsil
    } else {
        el
    };
    EventView {
        event_type: tag_to_event_type(b[pos]),
        record: EventRecordView {
            revision: b[pos + 1],
            header_len: thl as u16,
            ctrl_id: le_val(b.subrange(pos + 4, pos + 6)) as u16,
            timestamp: timestamp_of(b, pos + 6),
            vendor_info_len: vsil as u16,
            len: tel as u32,
            vendor_info: b.subrange(pos + thl, pos + thl + vlen),
            payload: b.subrange(pos + thl + vlen, pos + tel),
        },
    }
}

/// Builds an event record from its decoded header and variable region.
fn make_record<T>(h: &EventHeader, vendor_info: Vec<u8>, info: T) -> (r: EventRecord<T>)
    ensures
        r == (EventRecord {
            revision: h.event_rev,
            header_len: h.header_len,
            ctrl_id: h.ctrl_id,
            timestamp: h.timestamp,
            vendor_info_len: h.vendor_info_len,
            len: h.event_len,
            vendor_info,
            info,
        }),
{
    EventRecord {
        revision: h.event_rev,
        header_len: h.header_len,
        ctrl_id: h.ctrl_id,
        timestamp: h.timestamp,
        vendor_info_len: h.vendor_info_len,
        len: h.event_len,
        vendor_info,
        info,
    }
}

/// Decodes the event record at `pos`: the header, the vendor-specific bytes
/// verbatim, and the payload routed by tag — a tag outside the registry
/// falls back to the `Unknown` variant, which carries the payload bytes
/// verbatim; it is never an error. On success the new position is exactly
/// the record's declared end, so a payload can never desynchronize the
/// records that follow.
pub fn parse_event(buf: &[u8], pos: usize) -> (r: Result<(Event, usize), DecodeError>)
    ensures
        match r {
            Ok((ev, end)) => event_ok(buf@, pos as int) && ev@ == event_view_of(buf@, pos as int)
                && end == pos + event_total_len(buf@, pos as int),
            Err(e) => !event_ok(buf@, pos as int) && e == event_err(buf@, pos as int),
        },
{
    let h = match parse_event_header(buf, pos) {
        Ok((h, _)) => h,
        Err(e) => {
            return Err(e);
        },
    };
    proof {
        crate::cursor::lemma_pow256_values();
        crate::cursor::lemma_le_val_bound(buf@.subrange(pos as int + 22, pos as int + 24));
        crate::cursor::lemma_le_val_bound(buf@.subrange(pos as int + 20, pos as int + 22));
    }
    let tel = h.event_len as usize;
    proof {
        assert(tel == event_total_len(buf@, pos as int));
    }
    if !has_bytes(buf, pos, tel) {
        return Err(DecodeError::Truncated { offset: pos, needed: tel });
    }
    let thl = h.header_len as usize;
    let el: u32 = h.event_len - (h.header_len as u32);
    let vsil: u32 = h.vendor_info_len as u32;
    let vlen: usize = if vsil <= el {
        vsil as usize
    } else {
        el as usize
    };
    let vendor_info = read_bytes(buf, pos + thl, vlen);
    let payload = read_bytes(buf, pos + thl + vlen, tel - thl - vlen);
    let ev = match h.event_type {
        Ok(EventType::SmartHealth) => Event::SmartHealth(
            make_record(&h, vendor_info, SmartHealthInfo { data: payload }),
        ),
        Ok(EventType::FwCommit) => Event::FwCommit(
            make_record(&h, vendor_info, FwCommitInfo { data: payload }),
        ),
        Ok(EventType::TimestampChange) => Event::TimestampChange(
            make_record(&h, vendor_info, TimestampChangeInfo { data: payload }),
        ),
        Ok(EventType::Por) => Event::Por(make_record(&h, vendor_info, PorInfo { data: payload })),
        Ok(EventType::NvmHwError) => Event::NvmHwError(
            make_record(&h, vendor_info, NvmHwErrorInfo { data: payload }),
        ),
        Ok(EventType::ChangeNamespace) => Event::ChangeNamespace(
            make_record(&h, vendor_info, ChangeNamespaceInfo { data: payload }),
        ),
        Ok(EventType::FormatNvmStart) => Event::FormatNvmStart(
            make_record(&h, vendor_info, FormatNvmStartInfo { data: payload }),
        ),
        Ok(EventType::FormatNvmComplete) => Event::FormatNvmComplete(
            make_record(&h, vendor_info, FormatNvmCompleteInfo { data: payload }),
        ),
        Ok(EventType::SanitizeStart) => Event::SanitizeStart(
            make_record(&h, vendor_info, SanitizeStartInfo { data: payload }),
        ),
        Ok(EventType::SanitizeComplete) => Event::SanitizeComplete(
            make_record(&h, vendor_info, SanitizeCompleteInfo { data: payload }),
        ),
        Ok(EventType::SetFeature) => Event::SetFeature(
            make_record(&h, vendor_info, SetFeatureInfo { data: payload }),
        ),
        Ok(EventType::TelementryLogCreated) => Event::TelementryLogCreated(
            make_record(&h, vendor_info, TelementryLogCreatedInfo { data: payload }),
        ),
        Ok(EventType::ThermalExcursion) => Event::ThermalExcursion(
            make_record(&h, vendor_info, ThermalExcursionInfo { data: payload }),
        ),
        Ok(EventType::VendorSpecifc) => Event::VendorSpecifc(
            make_record(&h, vendor_info, VendorSpecifcInfo { data: payload }),
        ),
        Ok(EventType::TcgDefined) => Event::TcgDefined(
            make_record(&h, vendor_info, TcgDefinedInfo { data: payload }),
        ),
        Err(t) => Event::Unknown(
            make_record(&h, vendor_info, UnknownInfo { event_type: t, data: payload }),
        ),
    };
    Ok((ev, pos + tel))
}

} // verus!
