//! Payload information elements and the IEs nested in them.

use dot15d4::ies::header::HeaderIeHeader;
use dot15d4::ies::header_ie_id;
use dot15d4::ies::nested::{
    find_nested_ie_content, NestedIeLongHeader, NestedIeShortHeader, NestedIeIter,
};
use dot15d4::ies::nested_ie_id;
use dot15d4::ies::payload::{find_mlme_content_range, PayloadIeHeader};
use dot15d4::ies::payload_ie_id;

#[test]
fn test_payload_ie_header_new_valid() {
    let mut buf = [0u8; 2];
    {
        let mut header = PayloadIeHeader::new_unchecked(&mut buf);
        header.init(payload_ie_id::MLME, 10);
    }

    let header = PayloadIeHeader::new(&buf).unwrap();
    assert_eq!(header.ie_type(), 1);
    assert_eq!(header.group_id(), payload_ie_id::MLME);
    assert_eq!(header.length(), 10);
    assert_eq!(header.total_length(), 12);
}

#[test]
fn test_payload_ie_header_new_too_short() {
    let buf = [0u8; 1];
    assert!(PayloadIeHeader::new(&buf).is_none());
}

#[test]
fn test_payload_ie_header_new_invalid_type() {
    // Create Header IE (type=0) and try to parse as Payload IE
    let mut buf = [0u8; 2];
    {
        let mut header = HeaderIeHeader::new_unchecked(&mut buf);
        header.init(header_ie_id::TIME_CORRECTION, 2);
    }
    assert!(PayloadIeHeader::new(&buf).is_none());
}

#[test]
fn test_payload_ie_header_length_max() {
    let mut buf = [0u8; 2];
    let mut header = PayloadIeHeader::new_unchecked(&mut buf);

    // Maximum length is 2047 (11 bits)
    header.set_length(2047);
    assert_eq!(header.length(), 2047);

    header.set_length(0);
    assert_eq!(header.length(), 0);
}

#[test]
fn test_payload_ie_header_group_ids() {
    let mut buf = [0u8; 2];
    let mut header = PayloadIeHeader::new_unchecked(&mut buf);

    header.init(payload_ie_id::ESDU, 0);
    assert_eq!(header.group_id(), payload_ie_id::ESDU);
    assert!(!header.is_mlme());
    assert!(!header.is_termination());

    header.init(payload_ie_id::MLME, 0);
    assert_eq!(header.group_id(), payload_ie_id::MLME);
    assert!(header.is_mlme());
    assert!(!header.is_termination());

    header.init(payload_ie_id::VENDOR_SPECIFIC, 0);
    assert_eq!(header.group_id(), payload_ie_id::VENDOR_SPECIFIC);
    assert!(!header.is_mlme());
    assert!(!header.is_termination());

    header.init(payload_ie_id::TERMINATION, 0);
    assert_eq!(header.group_id(), payload_ie_id::TERMINATION);
    assert!(!header.is_mlme());
    assert!(header.is_termination());
}

#[test]
fn nested_ie_headers() {
    let mut buf = [0u8; 2];
    {
        let mut header = NestedIeShortHeader::new_unchecked(&mut buf);
        header.init(nested_ie_id::TSCH_SYNC, 6);
    }
    let header = NestedIeShortHeader::new(&buf).unwrap();
    assert_eq!(header.sub_id(), nested_ie_id::TSCH_SYNC);
    assert_eq!(header.length(), 6);
    assert_eq!(header.total_length(), 8);
    assert!(NestedIeLongHeader::new(&buf).is_none());

    {
        let mut header = NestedIeLongHeader::new_unchecked(&mut buf);
        header.init(nested_ie_id::CHANNEL_HOPPING, 2047);
    }
    let header = NestedIeLongHeader::new(&buf).unwrap();
    assert_eq!(header.sub_id(), nested_ie_id::CHANNEL_HOPPING);
    assert_eq!(header.length(), 2047);
    assert!(NestedIeShortHeader::new(&buf).is_none());
}

#[test]
fn nested_ies_are_iterated_and_found() {
    // A short TSCH Synchronization IE and a short TSCH Timeslot IE.
    let mut buf = [0u8; 11];
    NestedIeShortHeader::new_unchecked(&mut buf[0..2]).init(nested_ie_id::TSCH_SYNC, 6);
    buf[2..8].copy_from_slice(&[1, 2, 3, 4, 5, 9]);
    NestedIeShortHeader::new_unchecked(&mut buf[8..10]).init(nested_ie_id::TSCH_TIMESLOT, 1);
    buf[10] = 77;

    let mut iter = NestedIeIter::new(&buf);
    let sync = iter.next().unwrap();
    assert_eq!(sync.sub_id(), nested_ie_id::TSCH_SYNC);
    let sync = sync.as_tsch_sync().unwrap();
    assert_eq!(sync.asn(), 0x05_0403_0201);
    assert_eq!(sync.join_metric(), 9);
    let timeslot = iter.next().unwrap();
    assert_eq!(timeslot.content(), &[77]);
    assert_eq!(timeslot.as_tsch_timeslot().unwrap().timeslot_id(), 77);
    assert!(iter.next().is_none());

    // The nested IEs in an MLME IE behind HT1.
    let mut mlme = vec![0u8; 4];
    HeaderIeHeader::new_unchecked(&mut mlme[0..2]).init(header_ie_id::HT1, 0);
    PayloadIeHeader::new_unchecked(&mut mlme[2..4]).init(payload_ie_id::MLME, 11);
    mlme.extend_from_slice(&buf);
    assert_eq!(find_mlme_content_range(&mlme), Some((4, 15)));
    assert_eq!(
        find_nested_ie_content(&mlme, nested_ie_id::TSCH_TIMESLOT, false),
        Some(&[77u8][..])
    );
    assert!(find_nested_ie_content(&mlme, nested_ie_id::CHANNEL_HOPPING, true).is_none());
}
