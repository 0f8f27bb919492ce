use pel::events::Event;
use pel::headers::{parse_event_header, parse_log_header};
use pel::log::parse_pel;
use pel::timestamp::{parse_ms, parse_timestamp, Timestamp, TimestampOrigin, TimestampSynch};
use pel::DecodeError;

fn sample_log_header_bytes(num_events: u32, log_rev: u8) -> Vec<u8> {
    let mut b = vec![0u8; 512];
    b[0] = 0x0d;
    b[4..8].copy_from_slice(&num_events.to_le_bytes());
    b[8..16].copy_from_slice(&4096u64.to_le_bytes());
    b[16] = log_rev;
    b[18..20].copy_from_slice(&512u16.to_le_bytes());
    b[20..26].copy_from_slice(&[0x00, 0x11, 0x22, 0x33, 0x44, 0x55]);
    b[26] = 0b0000_0011;
    b[28..44].copy_from_slice(&1234u128.to_le_bytes());
    b[44..52].copy_from_slice(&77u64.to_le_bytes());
    b[52..54].copy_from_slice(&0x1b4bu16.to_le_bytes());
    b[54..56].copy_from_slice(&0x5678u16.to_le_bytes());
    b[56..62].copy_from_slice(b"ABC123");
    b[76..84].copy_from_slice(b"ModelXYZ");
    b[116..120].copy_from_slice(b"nqn.");
    b[480] = 0b0000_0010;
    b
}

#[test]
fn pel_test_parse_ms() {
    let ms_le_bytes = [0u8; 6];
    let (parsed_ms, end) = parse_ms(&ms_le_bytes, 0).unwrap();
    assert_eq!(end, ms_le_bytes.len());
    assert_eq!(parsed_ms, 0u64);

    let ms_le_bytes = [0, 0xa, 0xb, 0xc, 0xd, 0xe, 0xf];
    let (parsed_ms, end) = parse_ms(&ms_le_bytes, 0).unwrap();
    assert_eq!(end, ms_le_bytes.len() - 1);
    assert_eq!(parsed_ms, 0x0e0d0c0b0a00);

    let mut ms_le_bytes = [0, 0xa, 0xb, 0xc, 0xd, 0xe, 0xf];
    ms_le_bytes.reverse();
    let (parsed_ms, end) = parse_ms(&ms_le_bytes, 0).unwrap();
    assert_eq!(end, ms_le_bytes.len() - 1);
    assert_eq!(parsed_ms, 0x000a0b0c0d0e0f);
}

#[test]
fn mod_test_parse_ms() {
    let (parsed_ms, end) = parse_ms(&[0u8; 6], 0).unwrap();
    assert_eq!(end, 6);
    assert_eq!(parsed_ms, 0u64);

    let (parsed_ms, end) = parse_ms(&[0, 0xa, 0xb, 0xc, 0xd, 0xe, 0xf], 0).unwrap();
    assert_eq!(end, 6);
    assert_eq!(parsed_ms, 0x0e0d0c0b0a00);

    let (parsed_ms, end) = parse_ms(&[0xf, 0xe, 0xd, 0xc, 0xb, 0xa, 0x0], 0).unwrap();
    assert_eq!(end, 6);
    assert_eq!(parsed_ms, 0x000a0b0c0d0e0f);
}

#[test]
fn pel_test_parse_timestamp() {
    let (parsed_timestamp, end) = parse_timestamp(&[0u8; 8], 0).unwrap();
    assert_eq!(end, 8);
    assert_eq!(
        parsed_timestamp,
        Timestamp { ms: 0, synch: TimestampSynch::Continuous, origin: TimestampOrigin::Reset }
    );

    let (parsed_timestamp, end) =
        parse_timestamp(&[0x0, 0x11, 0x22, 0x33, 0x44, 0x55, 0b00000011, 0xff], 0).unwrap();
    assert_eq!(end, 8);
    assert_eq!(
        parsed_timestamp,
        Timestamp {
            ms: 0x554433221100,
            synch: TimestampSynch::Skipped,
            origin: TimestampOrigin::SetFeature,
        }
    );

    let (parsed_timestamp, end) =
        parse_timestamp(&[0x0, 0x11, 0x22, 0x33, 0x44, 0x55, 0b00000101, 0xff], 0).unwrap();
    assert_eq!(end, 8);
    assert_eq!(
        parsed_timestamp,
        Timestamp {
            ms: 0x554433221100,
            synch: TimestampSynch::Skipped,
            origin: TimestampOrigin::Unknown(2u8),
        }
    );
}

#[test]
fn mod_test_parse_timestamp() {
    let (parsed_timestamp, end) = parse_timestamp(&[0u8; 8], 0).unwrap();
    assert_eq!(end, 8);
    assert_eq!(parsed_timestamp.ms, 0);
    assert_eq!(parsed_timestamp.synch, TimestampSynch::Continuous);
    assert_eq!(parsed_timestamp.origin, TimestampOrigin::Reset);

    let (parsed_timestamp, _) =
        parse_timestamp(&[0x0, 0x11, 0x22, 0x33, 0x44, 0x55, 0b00000011, 0xff], 0).unwrap();
    assert_eq!(parsed_timestamp.ms, 0x554433221100);
    assert_eq!(parsed_timestamp.synch, TimestampSynch::Skipped);
    assert_eq!(parsed_timestamp.origin, TimestampOrigin::SetFeature);

    let (parsed_timestamp, _) =
        parse_timestamp(&[0x0, 0x11, 0x22, 0x33, 0x44, 0x55, 0b00000101, 0xff], 0).unwrap();
    assert_eq!(parsed_timestamp.synch, TimestampSynch::Skipped);
    assert_eq!(parsed_timestamp.origin, TimestampOrigin::Unknown(2u8));
}

#[test]
fn pel_test_log_header() {
    let b = sample_log_header_bytes(3, 1);
    let (h, end) = parse_log_header(&b, 0).unwrap();
    assert_eq!(end, 512);
    assert_eq!(h.log_id, 0x0d);
    assert_eq!(h.num_events, 3);
    assert_eq!(h.log_len, 4096);
    assert_eq!(h.log_rev, 1);
    assert_eq!(h.header_len, 512);
    assert_eq!(h.timestamp.ms, 0x554433221100);
    assert_eq!(h.timestamp.origin, TimestampOrigin::SetFeature);
    assert_eq!(h.timestamp.synch, TimestampSynch::Skipped);
    assert_eq!(h.power_on_hours, 1234);
    assert_eq!(h.power_cycle_count, 77);
    assert_eq!(h.vid, 0x1b4b);
    assert_eq!(h.ssvid, 0x5678);
    assert_eq!(h.serial_num, "ABC123");
    assert_eq!(h.model_num, "ModelXYZ");
    assert_eq!(h.name, "nqn.");
    assert!(h.supp_events.is_supported(0x01));
    assert!(!h.supp_events.is_supported(0x02));
}

#[test]
fn headers_test_log_header() {
    let short = vec![0u8; 511];
    let err = parse_log_header(&short, 0).unwrap_err();
    assert_eq!(err, DecodeError::Truncated { offset: 0, needed: 512 });

    let zeros = vec![0u8; 512];
    let (h, end) = parse_log_header(&zeros, 0).unwrap();
    assert_eq!(end, 512);
    assert_eq!(h.log_id, 0);
    assert_eq!(h.num_events, 0);
    assert_eq!(h.serial_num, "");
    assert_eq!(h.model_num, "");
    assert_eq!(h.name, "");
    assert!(!h.supp_events.is_supported(0));
}

#[test]
fn parser_test_log_header() {
    let b = sample_log_header_bytes(0, 1);
    let p = parse_pel(&b).unwrap();
    assert_eq!(p.num_events, 0);
    assert_eq!(p.len, 4096);
    assert_eq!(p.revision, 1);
    assert_eq!(p.header_len, 512);
    assert_eq!(p.serial_num, "ABC123");
    assert_eq!(p.model_num, "ModelXYZ");
    assert_eq!(p.name, "nqn.");
    assert_eq!(p.events, Some(Vec::new()));
    assert_eq!(p.generation, None);
    assert_eq!(p.reporting_context, None);
}

#[test]
fn headers_test_log_event_header() {
    let mut b = vec![0u8; 63];
    b[0] = 0x01;
    b[1] = 2;
    b[2] = 10;
    b[4..6].copy_from_slice(&7u16.to_le_bytes());
    b[6..12].copy_from_slice(&[0x00, 0x11, 0x22, 0x33, 0x44, 0x55]);
    b[12] = 0b0000_0000;
    b[20..22].copy_from_slice(&0u16.to_le_bytes());
    b[22..24].copy_from_slice(&50u16.to_le_bytes());
    let (h, end) = parse_event_header(&b, 0).unwrap();
    assert_eq!(end, 24);
    assert_eq!(h.event_type, Ok(pel::events::EventType::SmartHealth));
    assert_eq!(h.event_rev, 2);
    assert_eq!(h.header_len, 13);
    assert_eq!(h.ctrl_id, 7);
    assert_eq!(h.timestamp.ms, 0x554433221100);
    assert_eq!(h.vendor_info_len, 0);
    assert_eq!(h.event_len, 63);

    let err = parse_event_header(&b[..20], 0).unwrap_err();
    assert_eq!(err, DecodeError::Truncated { offset: 0, needed: 24 });
}

#[test]
fn parser_test_log_event_header() {
    let mut b = vec![0u8; 74];
    b[0] = 0x01;
    b[1] = 2;
    b[2] = 21;
    b[22..24].copy_from_slice(&50u16.to_le_bytes());
    for (i, x) in b[24..74].iter_mut().enumerate() {
        *x = i as u8;
    }
    let (ev, end) = pel::events::parse_event(&b, 0).unwrap();
    assert_eq!(end, 74);
    match ev {
        Event::SmartHealth(rec) => {
            assert_eq!(rec.revision, 2);
            assert_eq!(rec.header_len, 24);
            assert_eq!(rec.len, 74);
            assert_eq!(rec.vendor_info, Vec::<u8>::new());
            assert_eq!(rec.info.data.len(), 50);
            assert_eq!(rec.info.data[0], 0);
            assert_eq!(rec.info.data[49], 49);
        },
        other => panic!("expected a SMART/health event, got {:?}", other),
    }
}
