use pel::bitfield::bit_field;
use pel::bitmap::SuppEventsBitmap;
use pel::cursor::{take_bytes, take_u128, take_u16, take_u32, take_u64, take_u8};
use pel::events::{parse_event, Event, EventType};
use pel::headers::parse_log_header;
use pel::log::{parse_pel, ReportingContext};
use pel::DecodeError;

fn header_bytes(num_events: u32, log_rev: u8) -> Vec<u8> {
    let mut b = vec![0u8; 512];
    b[0] = 0x0d;
    b[4..8].copy_from_slice(&num_events.to_le_bytes());
    b[8..16].copy_from_slice(&4096u64.to_le_bytes());
    b[16] = log_rev;
    b[18..20].copy_from_slice(&512u16.to_le_bytes());
    b
}

fn event_bytes(tag: u8, revision: u8, vsil: u16, el: u16) -> Vec<u8> {
    let mut b = vec![0u8; 24 + el as usize];
    b[0] = tag;
    b[1] = revision;
    b[2] = 21;
    b[20..22].copy_from_slice(&vsil.to_le_bytes());
    b[22..24].copy_from_slice(&el.to_le_bytes());
    for (i, x) in b[24..].iter_mut().enumerate() {
        *x = (0x40 + i) as u8;
    }
    b
}

#[test]
fn cursor_little_endian_values() {
    let b = [0x01u8, 0x02, 0x03, 0x04, 0x05, 0x06, 0x07, 0x08, 0x09, 0x0a, 0x0b, 0x0c, 0x0d,
        0x0e, 0x0f, 0x10, 0x11];
    let (v, end) = take_u8(&b, 0).unwrap();
    assert_eq!((v, end), (0x01, 1));
    let (v, end) = take_u16(&b, 0).unwrap();
    assert_eq!((v, end), (0x0201, 2));
    let (v, end) = take_u32(&b, 1).unwrap();
    assert_eq!((v, end), (0x05040302, 5));
    let (v, end) = take_u64(&b, 0).unwrap();
    assert_eq!((v, end), (0x0807060504030201, 8));
    let (v, end) = take_u128(&b, 1).unwrap();
    assert_eq!((v, end), (0x11100f0e0d0c0b0a0908070605040302, 17));
    let (bytes, end) = take_bytes(&b, 2, 3).unwrap();
    assert_eq!(bytes, vec![0x03, 0x04, 0x05]);
    assert_eq!(end, 5);
}

#[test]
fn cursor_truncation_errors() {
    let b = [0u8; 3];
    assert_eq!(
        take_u32(&b, 0).unwrap_err(),
        DecodeError::Truncated { offset: 0, needed: 4 }
    );
    assert_eq!(
        take_u16(&b, 2).unwrap_err(),
        DecodeError::Truncated { offset: 2, needed: 2 }
    );
    assert_eq!(
        take_bytes(&b, 1, 3).unwrap_err(),
        DecodeError::Truncated { offset: 1, needed: 3 }
    );
    assert_eq!(take_u8(&b, 3).unwrap_err(), DecodeError::Truncated { offset: 3, needed: 1 });
}

#[test]
fn bit_field_extraction() {
    assert_eq!(bit_field(0b1011_0110, 0, 1), 0);
    assert_eq!(bit_field(0b1011_0110, 1, 3), 0b011);
    assert_eq!(bit_field(0b1011_0110, 4, 4), 0b1011);
    assert_eq!(bit_field(0xff, 0, 8), 0xff);
    assert_eq!(bit_field(0xff, 7, 1), 1);
}

#[test]
fn bitmap_all_zero_and_all_ones() {
    let zeroes = SuppEventsBitmap::from_bytes(vec![0u8; 32]);
    let ones = SuppEventsBitmap::from_bytes(vec![0xffu8; 32]);
    for tag in 0..=255u8 {
        assert!(!zeroes.is_supported(tag));
        assert!(ones.is_supported(tag));
    }
}

#[test]
fn bitmap_single_bit() {
    for set_tag in [0u8, 1, 7, 8, 42, 0xde, 255] {
        let mut bytes = vec![0u8; 32];
        bytes[(set_tag / 8) as usize] = 1 << (set_tag % 8);
        let bitmap = SuppEventsBitmap::from_bytes(bytes);
        for tag in 0..=255u8 {
            assert_eq!(bitmap.is_supported(tag), tag == set_tag);
        }
    }
}

#[test]
fn event_type_tags_round_trip() {
    let known: [(u8, EventType); 15] = [
        (0x01, EventType::SmartHealth),
        (0x02, EventType::FwCommit),
        (0x03, EventType::TimestampChange),
        (0x04, EventType::Por),
        (0x05, EventType::NvmHwError),
        (0x06, EventType::ChangeNamespace),
        (0x07, EventType::FormatNvmStart),
        (0x08, EventType::FormatNvmComplete),
        (0x09, EventType::SanitizeStart),
        (0x0a, EventType::SanitizeComplete),
        (0x0b, EventType::SetFeature),
        (0x0c, EventType::TelementryLogCreated),
        (0x0d, EventType::ThermalExcursion),
        (0xde, EventType::VendorSpecifc),
        (0xdf, EventType::TcgDefined),
    ];
    for (tag, et) in known {
        assert_eq!(EventType::from_tag(tag), Ok(et));
        assert_eq!(et.tag(), tag);
    }
    assert_eq!(EventType::from_tag(0x00), Err(0x00));
    assert_eq!(EventType::from_tag(0x0e), Err(0x0e));
    assert_eq!(EventType::from_tag(0x77), Err(0x77));
}

#[test]
fn unknown_event_tag_falls_back_and_resynchronizes() {
    let mut b = header_bytes(2, 1);
    let unknown = event_bytes(0x77, 1, 0, 10);
    let known = event_bytes(0x04, 1, 0, 4);
    b.extend_from_slice(&unknown);
    b.extend_from_slice(&known);
    let p = parse_pel(&b).unwrap();
    let events = p.events.unwrap();
    assert_eq!(events.len(), 2);
    match &events[0] {
        Event::Unknown(rec) => {
            assert_eq!(rec.info.event_type, 0x77);
            assert_eq!(rec.info.data.len(), 10);
            assert_eq!(rec.info.data, unknown[24..34].to_vec());
        },
        other => panic!("expected the unknown-tag fallback, got {:?}", other),
    }
    match &events[1] {
        Event::Por(rec) => {
            assert_eq!(rec.info.data.len(), 4);
        },
        other => panic!("expected a power-on/reset event, got {:?}", other),
    }
}

#[test]
fn vendor_info_is_split_from_payload() {
    let mut b = header_bytes(1, 1);
    b.extend_from_slice(&event_bytes(0x02, 3, 4, 10));
    let p = parse_pel(&b).unwrap();
    let events = p.events.unwrap();
    match &events[0] {
        Event::FwCommit(rec) => {
            assert_eq!(rec.vendor_info_len, 4);
            assert_eq!(rec.vendor_info, vec![0x40, 0x41, 0x42, 0x43]);
            assert_eq!(rec.info.data, vec![0x44, 0x45, 0x46, 0x47, 0x48, 0x49]);
        },
        other => panic!("expected a firmware-commit event, got {:?}", other),
    }
}

#[test]
fn truncated_log_fails() {
    let short = vec![0u8; 200];
    assert_eq!(parse_pel(&short).unwrap_err(), DecodeError::Truncated { offset: 0, needed: 512 });
    assert_eq!(
        parse_log_header(&short, 0).unwrap_err(),
        DecodeError::Truncated { offset: 0, needed: 512 }
    );

    let missing_event = header_bytes(1, 1);
    assert_eq!(
        parse_pel(&missing_event).unwrap_err(),
        DecodeError::Truncated { offset: 512, needed: 24 }
    );

    let mut truncated_event = header_bytes(1, 1);
    truncated_event.extend_from_slice(&event_bytes(0x01, 1, 0, 40)[..30]);
    assert_eq!(
        parse_pel(&truncated_event).unwrap_err(),
        DecodeError::Truncated { offset: 512, needed: 64 }
    );
}

#[test]
fn empty_log_decodes_without_events() {
    let b = header_bytes(0, 1);
    let p = parse_pel(&b).unwrap();
    assert_eq!(p.num_events, 0);
    assert_eq!(p.events, Some(Vec::new()));
}

#[test]
fn revision_two_extension_fields() {
    let mut b = header_bytes(0, 2);
    b.extend_from_slice(&0x00abu16.to_le_bytes());
    b.extend_from_slice(&(1u16 << 13 | 5u16).to_le_bytes());
    let p = parse_pel(&b).unwrap();
    assert_eq!(p.generation, Some(0xab));
    assert_eq!(p.reporting_context, Some(ReportingContext::NVMPort(5)));

    let mut b = header_bytes(0, 2);
    b.extend_from_slice(&7u16.to_le_bytes());
    b.extend_from_slice(&(2u16 << 13 | 0x1fffu16).to_le_bytes());
    let p = parse_pel(&b).unwrap();
    assert_eq!(p.generation, Some(7));
    assert_eq!(p.reporting_context, Some(ReportingContext::MiPort(0x1fff)));

    let mut b = header_bytes(0, 2);
    b.extend_from_slice(&[0, 0, 0, 0]);
    let p = parse_pel(&b).unwrap();
    assert_eq!(p.reporting_context, Some(ReportingContext::DoesNotExist));

    let b = header_bytes(0, 2);
    assert_eq!(parse_pel(&b).unwrap_err(), DecodeError::Truncated { offset: 512, needed: 4 });
}

#[test]
fn text_fields_are_cleaned() {
    let mut b = header_bytes(0, 1);
    b[56..76].copy_from_slice(b"ABC123\0\0\0\0\0\0\0\0\0\0\0\0\0\0");
    b[76..83].copy_from_slice(b"  XY\0Z ");
    let (h, _) = parse_log_header(&b, 0).unwrap();
    assert_eq!(h.serial_num, "ABC123");
    // Trimming comes before the NUL strip: the embedded NUL and the blank
    // that the trailing NUL padding shields both survive the trim.
    assert_eq!(h.model_num, "XYZ ");

    let mut b = header_bytes(0, 1);
    b[56..76].copy_from_slice(b"  SN42              ");
    let (h, _) = parse_log_header(&b, 0).unwrap();
    assert_eq!(h.serial_num, "SN42");
}

#[test]
fn invalid_text_bytes_become_replacement_characters() {
    let mut b = header_bytes(0, 1);
    b[56] = b'A';
    b[57] = 0xff;
    b[58] = b'B';
    let (h, _) = parse_log_header(&b, 0).unwrap();
    assert_eq!(h.serial_num, "A\u{fffd}B");
}

#[test]
fn decoding_twice_agrees() {
    let mut b = header_bytes(3, 2);
    b.extend_from_slice(&9u16.to_le_bytes());
    b.extend_from_slice(&(1u16 << 13 | 2u16).to_le_bytes());
    b.extend_from_slice(&event_bytes(0x01, 1, 2, 12));
    b.extend_from_slice(&event_bytes(0x99, 0, 0, 0));
    b.extend_from_slice(&event_bytes(0xde, 5, 1, 3));
    let p1 = parse_pel(&b).unwrap();
    let p2 = parse_pel(&b).unwrap();
    assert_eq!(p1, p2);
}

#[test]
fn timestamp_attribute_codes() {
    let mut b = header_bytes(0, 1);
    b[26] = 0b0000_0011;
    let (h, _) = parse_log_header(&b, 0).unwrap();
    assert_eq!(h.timestamp.synch, pel::timestamp::TimestampSynch::Skipped);
    assert_eq!(h.timestamp.origin, pel::timestamp::TimestampOrigin::SetFeature);

    b[26] = 0b0000_0101;
    let (h, _) = parse_log_header(&b, 0).unwrap();
    assert_eq!(h.timestamp.synch, pel::timestamp::TimestampSynch::Skipped);
    assert_eq!(h.timestamp.origin, pel::timestamp::TimestampOrigin::Unknown(2));

    b[26] = 0b1111_0000;
    let (h, _) = parse_log_header(&b, 0).unwrap();
    assert_eq!(h.timestamp.synch, pel::timestamp::TimestampSynch::Continuous);
    assert_eq!(h.timestamp.origin, pel::timestamp::TimestampOrigin::Reset);
}

#[test]
fn oversized_vendor_info_is_cut_at_record_end() {
    let mut b = header_bytes(1, 1);
    b.extend_from_slice(&event_bytes(0x0b, 1, 500, 6));
    let p = parse_pel(&b).unwrap();
    let events = p.events.unwrap();
    match &events[0] {
        Event::SetFeature(rec) => {
            assert_eq!(rec.vendor_info_len, 500);
            assert_eq!(rec.vendor_info.len(), 6);
            assert_eq!(rec.info.data.len(), 0);
        },
        other => panic!("expected a set-feature event, got {:?}", other),
    }
}
