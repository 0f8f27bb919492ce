//! The assembled log: decodes the header, then the declared number of event
//! records in on-wire (chronological) order. A header-level or event-header
//! truncation is fatal to the whole decode; bytes past the last declared
//! event are ignorable padding. Decoding is a pure function of the buffer.

use crate::cursor::{has_bytes, le_val, lemma_pow256_values, read_le};
use crate::events::{
    event_err, event_ok, event_total_len, event_view_of, parse_event, Event, EventView,
};
use crate::headers::{log_header_view_of, parse_log_header};
use crate::timestamp::Timestamp;
use crate::bitmap::SuppEventsBitmap;
use crate::DecodeError;
use vstd::prelude::*;

verus! {

/// Where a revision-2 log header says events are reported from.
#[derive(Debug, Clone, Copy, PartialEq, Eq, Structural)]
pub enum ReportingContext {
    DoesNotExist,
    NVMPort(u16),
    MiPort(u16),
}

/// The reporting context a raw 16-bit field denotes: bits 15:13 select the
/// port kind (1 an NVM subsystem port, 2 a management-interface port, any
/// other code no port at all), bits 12:0 the port identifier.
pub open spec fn reporting_context_of(v: u16) -> ReportingContext {
    let kind = v >> 13;
    let port = v & 0x1fff;
    if kind == 1 {
        ReportingContext::NVMPort(port)
    } else if kind == 2 {
        ReportingContext::MiPort(port)
    } else {
        ReportingContext::DoesNotExist
    }
}

/// Maps the raw 16-bit reporting-context field to its meaning.
pub fn reporting_context_from(v: u16) -> (r: ReportingContext)
    ensures
        r == reporting_context_of(v),
{
    let kind = v >> 13;
    let port = v & 0x1fff;
    if kind == 1 {
        ReportingContext::NVMPort(port)
    } else if kind == 2 {
        ReportingContext::MiPort(port)
    } else {
        ReportingContext::DoesNotExist
    }
}

/// One fully decoded persistent event log.
#[derive(Debug, PartialEq, Eq)]
pub struct Pel {
    pub num_events: u32,
    pub len: u64,
    pub revision: u8,
    pub header_len: u16,
    pub timestamp: Timestamp,
    pub power_on_hours: u128,
    pub power_cycle_count: u64,
    pub vid: u16,
    pub ssvid: u16,
    pub serial_num: String,
    pub model_num: String,
    pub name: String,
    pub supp_events: SuppEventsBitmap,
    pub events: Option<Vec<Event>>,
    /// Present only in a revision-2 header.
    pub generation: Option<u16>,
    /// Present only in a revision-2 header.
    pub reporting_context: Option<ReportingContext>,
}

/// The mathematical content of a decoded log.
pub struct PelView {
    pub num_events: u32,
    pub len: u64,
    pub revision: u8,
    pub header_len: u16,
    pub timestamp: Timestamp,
    pub power_on_hours: u128,
    pub power_cycle_count: u64,
    pub vid: u16,
    pub ssvid: u16,
    pub serial_num: Seq<char>,
    pub model_num: Seq<char>,
    pub name: Seq<char>,
    pub supp_events: Seq<u8>,
    pub events: Option<Seq<EventView>>,
    pub generation: Option<u16>,
    pub reporting_context: Option<ReportingContext>,
}

/// The views of a sequence of decoded events, in order.
pub open spec fn views_of_events(s: Seq<Event>) -> Seq<EventView> {
    s.map_values(|e: Event| e@)
}

impl View for Pel {
    type V = PelView;

    open spec fn view(&self) -> PelView {
        PelView {
            num_events: self.num_events,
            len: self.len,
            revision: self.revision,
            header_len: self.header_len,
            timestamp: self.timestamp,
            power_on_hours: self.power_on_hours,
            power_cycle_count: self.power_cycle_count,
            vid: self.vid,
            ssvid: self.ssvid,
            serial_num: self.serial_num@,
            model_num: self.model_num@,
            name: self.name@,
            supp_events: self.supp_events@,
            events: match self.events {
                Some(v) => Some(views_of_events(v@)),
                None => None,
            },
            generation: self.generation,
            reporting_context: self.reporting_context,
        }
    }
}

/// Where the header region ends: 512 bytes, or 516 when the revision-2
/// extension (generation counter and reporting context) is present.
pub open spec fn pel_header_end(b: Seq<u8>) -> int
    recommends
        b.len() >= 512,
{
    if b[16] >= 2 {
        516
    } else {
        512
    }
}

/// Whether all `n` event records laid out from `pos` lie inside the buffer.
pub open spec fn events_ok(b: Seq<u8>, pos: int, n: nat) -> bool
    decreases n,
{
    n == 0 || (event_ok(b, pos) && events_ok(b, pos + event_total_len(b, pos), (n - 1) as nat))
}

/// The position just past the `n` event records laid out from `pos`.
pub open spec fn events_end(b: Seq<u8>, pos: int, n: nat) -> int
    decreases n,
{
    if n == 0 {
        pos
    } else {
        events_end(b, pos + event_total_len(b, pos), (n - 1) as nat)
    }
}

/// The views of the `n` event records laid out from `pos`, in on-wire order.
pub open spec fn events_views(b: Seq<u8>, pos: int, n: nat) -> Seq<EventView>
    decreases n,
{
    if n == 0 {
        Seq::<EventView>::empty()
    } else {
        seq![event_view_of(b, pos)] + events_views(b, pos + event_total_len(b, pos), (n - 1) as nat)
    }
}

/// The failure the first truncated record among the `n` records at `pos`
/// yields.
pub open spec fn events_err(b: Seq<u8>, pos: int, n: nat) -> DecodeError
    recommends
        !events_ok(b, pos, n),
    decreases n,
{
    if n == 0 {
        DecodeError::Truncated { offset: 0, needed: 0 }
    } else if !event_ok(b, pos) {
        event_err(b, pos)
    } else {
        events_err(b, pos + event_total_len(b, pos), (n - 1) as nat)
    }
}

/// The declared number of events of the log in `b`.
pub open spec fn pel_num_events(b: Seq<u8>) -> nat
    recommends
        b.len() >= 512,
{
    le_val(b.subrange(4, 8))
}

/// Whether the whole log in `b` decodes: the header region and every
/// declared event record lie inside the buffer.
pub open spec fn pel_ok(b: Seq<u8>) -> bool {
    b.len() >= 512 && b.len() >= pel_header_end(b) && events_ok(
        b,
        pel_header_end(b),
        pel_num_events(b),
    )
}

/// The decoded log in `b`: the header fields, the revision-2 extension when
/// the revision says it is present, and the declared events in order.
pub open spec fn pel_view_of(b: Seq<u8>) -> PelView
    recommends
        pel_ok(b),
{
    let lh = log_header_view_of(b, 0);
    PelView {
        num_events: lh.num_events,
        len: lh.log_len,
        revision: lh.log_rev,
        header_len: lh.header_len,
        timestamp: lh.timestamp,
        power_on_hours: lh.power_on_hours,
        power_cycle_count: lh.power_cycle_count,
        vid: lh.vid,
        ssvid: lh.ssvid,
        serial_num: lh.serial_num,
        model_num: lh.model_num,
        name: lh.name,
        supp_events: lh.supp_events,
        events: Some(events_views(b, pel_header_end(b), pel_num_events(b))),
        generation: if lh.log_rev >= 2 {
            Some(le_val(b.subrange(512, 514)) as u16)
        } else {
            None
        },
        reporting_context: if lh.log_rev >= 2 {
            Some(reporting_context_of(le_val(b.subrange(514, 516)) as u16))
        } else {
            None
        },
    }
}

/// The failure decoding the log in `b` yields: a truncated header region, or
/// the first truncated event record.
pub open spec fn pel_err(b: Seq<u8>) -> DecodeError
    recommends
        !pel_ok(b),
{
    if b.len() < 512 {
        DecodeError::Truncated { offset: 0, needed: 512 }
    } else if b.len() < pel_header_end(b) {
        DecodeError::Truncated { offset: 512, needed: 4 }
    } else {
        events_err(b, pel_header_end(b), pel_num_events(b))
    }
}

/// A run of well-placed records followed by one more well-placed record is a
/// longer run, with that record's view appended.
proof fn lemma_events_snoc(b: Seq<u8>, pos: int, n: nat)
    requires
        events_ok(b, pos, n),
        event_ok(b, events_end(b, pos, n)),
    ensures
        events_ok(b, pos, n + 1),
        events_end(b, pos, n + 1) == events_end(b, pos, n) + event_total_len(
            b,
            events_end(b, pos, n),
        ),
        events_views(b, pos, n + 1) == events_views(b, pos, n).push(
            event_view_of(b, events_end(b, pos, n)),
        ),
    decreases n,
{
    let pos1 = pos + event_total_len(b, pos);
    if n == 0 {
        assert(events_ok(b, pos1, 0));
        assert(events_ok(b, pos, 1) == (event_ok(b, pos) && events_ok(b, pos1, 0)));
        assert(events_end(b, pos, 0) == pos);
        assert(events_end(b, pos1, 0) == pos1);
        assert(events_end(b, pos, 1) == events_end(b, pos1, 0));
        assert(events_views(b, pos1, 0) =~= Seq::<EventView>::empty());
        assert(events_views(b, pos, 0) =~= Seq::<EventView>::empty());
        assert(events_views(b, pos, 1) == seq![event_view_of(b, pos)] + events_views(b, pos1, 0));
        assert(events_views(b, pos, 1) =~= events_views(b, pos, 0).push(event_view_of(b, pos)));
    } else {
        assert(events_ok(b, pos, n) == (event_ok(b, pos) && events_ok(b, pos1, (n - 1) as nat)));
        assert(events_end(b, pos, n) == events_end(b, pos1, (n - 1) as nat));
        lemma_events_snoc(b, pos1, (n - 1) as nat);
        assert(events_ok(b, pos, n + 1) == (event_ok(b, pos) && events_ok(b, pos1, n)));
        assert(events_end(b, pos, n + 1) == events_end(b, pos1, n));
        assert(events_views(b, pos, n + 1) == seq![event_view_of(b, pos)] + events_views(
            b,
            pos1,
            n,
        ));
        assert(events_views(b, pos, n) == seq![event_view_of(b, pos)] + events_views(
            b,
            pos1,
            (n - 1) as nat,
        ));
        assert(events_views(b, pos, n + 1) =~= events_views(b, pos, n).push(
            event_view_of(b, events_end(b, pos, n)),
        ));
    }
}

/// A truncated record after a run of `i` well-placed records makes any
/// declared count beyond `i` fail, with that record's failure.
proof fn lemma_events_fail(b: Seq<u8>, pos: int, i: nat, n: nat)
    requires
        i < n,
        events_ok(b, pos, i),
        !event_ok(b, events_end(b, pos, i)),
    ensures
        !events_ok(b, pos, n),
        events_err(b, pos, n) == event_err(b, events_end(b, pos, i)),
    decreases i,
{
    let pos1 = pos + event_total_len(b, pos);
    if i == 0 {
        assert(events_end(b, pos, 0) == pos);
        assert(events_ok(b, pos, n) == (event_ok(b, pos) && events_ok(b, pos1, (n - 1) as nat)));
        assert(events_err(b, pos, n) == event_err(b, pos));
    } else {
        assert(events_ok(b, pos, i) == (event_ok(b, pos) && events_ok(b, pos1, (i - 1) as nat)));
        assert(events_end(b, pos, i) == events_end(b, pos1, (i - 1) as nat));
        lemma_events_fail(b, pos1, (i - 1) as nat, (n - 1) as nat);
        assert(events_ok(b, pos, n) == (event_ok(b, pos) && events_ok(b, pos1, (n - 1) as nat)));
        assert(events_err(b, pos, n) == events_err(b, pos1, (n - 1) as nat));
    }
}

/// Appending one event appends its view.
proof fn lemma_views_of_events_push(s: Seq<Event>, e: Event)
    ensures
        views_of_events(s.push(e)) == views_of_events(s).push(e@),
{
    assert(views_of_events(s.push(e)) =~= views_of_events(s).push(e@));
}

/// Decodes a complete persistent event log: the header, the revision-2
/// extension when present, then exactly the declared number of event
/// records. A premature end of the buffer is `Truncated`; bytes past the
/// last declared event are ignored.
#[verifier::loop_isolation(false)]
pub fn parse_pel(input: &[u8]) -> (r: Result<Pel, DecodeError>)
    ensures
        match r {
            Ok(p) => pel_ok(input@) && p@ == pel_view_of(input@),
            Err(e) => !pel_ok(input@) && e == pel_err(input@),
        },
{
    let (header, header_end) = match parse_log_header(input, 0) {
        Ok(v) => v,
        Err(e) => {
            return Err(e);
        },
    };
    let mut pos: usize = header_end;
    let mut generation: Option<u16> = None;
    let mut reporting_context: Option<ReportingContext> = None;
    if header.log_rev >= 2 {
        if !has_bytes(input, 512, 4) {
            return Err(DecodeError::Truncated { offset: 512, needed: 4 });
        }
        proof {
            lemma_pow256_values();
            crate::cursor::lemma_le_val_bound(input@.subrange(512, 514));
            crate::cursor::lemma_le_val_bound(input@.subrange(514, 516));
        }
        generation = Some(read_le(input, 512, 2) as u16);
        reporting_context = Some(reporting_context_from(read_le(input, 514, 2) as u16));
        pos = 516;
    }
    let ghost pos0 = pel_header_end(input@);
    proof {
        assert(pos == pos0);
        lemma_pow256_values();
        crate::cursor::lemma_le_val_bound(input@.subrange(4, 8));
        assert(pel_num_events(input@) == header.num_events as nat);
    }
    let n: u32 = header.num_events;
    let mut events: Vec<Event> = Vec::new();
    let mut i: u32 = 0;
    proof {
        assert(views_of_events(events@) =~= events_views(input@, pos0, 0));
    }
    while i < n
        invariant
            i <= n,
            events_ok(input@, pos0, i as nat),
            pos == events_end(input@, pos0, i as nat),
            views_of_events(events@) == events_views(input@, pos0, i as nat),
        decreases n - i,
    {
        let (ev, end) = match parse_event(input, pos) {
            Ok(v) => v,
            Err(e) => {
                proof {
                    lemma_events_fail(input@, pos0, i as nat, n as nat);
                }
                return Err(e);
            },
        };
        proof {
            lemma_events_snoc(input@, pos0, i as nat);
            lemma_views_of_events_push(events@, ev);
        }
        events.push(ev);
        pos = end;
        i = i + 1;
    }
    let pel = Pel {
        num_events: header.num_events,
        len: header.log_len,
        revision: header.log_rev,
        header_len: header.header_len,
        timestamp: header.timestamp,
        power_on_hours: header.power_on_hours,
        power_cycle_count: header.power_cycle_count,
        vid: header.vid,
        ssvid: header.ssvid,
        serial_num: header.serial_num,
        model_num: header.model_num,
        name: header.name,
        supp_events: header.supp_events,
        events: Some(events),
        generation,
        reporting_context,
    };
    Ok(pel)
}

/// Decoding is a pure function of the buffer: two decoded logs of the same
/// bytes have the same mathematical content, whatever else differed between
/// the two runs.
pub proof fn lemma_decode_deterministic(b: Seq<u8>, p1: Pel, p2: Pel)
    requires
        p1@ == pel_view_of(b),
        p2@ == pel_view_of(b),
    ensures
        p1@ == p2@,
{
}

} // verus!

