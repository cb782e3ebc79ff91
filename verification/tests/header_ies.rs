//! Header information elements.

use dot15d4::ies::header::{
    find_header_ie_content, find_header_ie_content_range, HeaderIeHeader, HeaderIeIter,
    TimeCorrectionIe,
};
use dot15d4::ies::header_ie_id;

#[test]
fn test_header_ie_header() {
    // Time Correction: id=0x1e, len=2
    let mut buf = [0u8; 4];
    {
        let mut header = HeaderIeHeader::new_unchecked(&mut buf[..2]);
        header.init(header_ie_id::TIME_CORRECTION, 2);
    }

    let header = HeaderIeHeader::new(&buf[..2]).unwrap();
    assert_eq!(header.element_id(), header_ie_id::TIME_CORRECTION);
    assert_eq!(header.length(), 2);
    assert_eq!(header.ie_type(), 0);
}

#[test]
fn test_time_correction_ie() {
    let mut buf = [0u8; 2];
    {
        let mut ie = TimeCorrectionIe::new_unchecked(&mut buf);
        ie.set_time_sync(-100);
        ie.set_nack(true);
    }

    let ie = TimeCorrectionIe::new(&buf).unwrap();
    assert_eq!(ie.time_sync(), -100);
    assert!(ie.nack());
}

#[test]
fn test_header_ie_header_new_valid() {
    // Build a valid Header IE header: type=0, id=0x1e (TIME_CORRECTION), len=2
    let mut buf = [0u8; 2];
    {
        let mut header = HeaderIeHeader::new_unchecked(&mut buf);
        header.init(header_ie_id::TIME_CORRECTION, 2);
    }

    let header = HeaderIeHeader::new(&buf).unwrap();
    assert_eq!(header.ie_type(), 0);
    assert_eq!(header.element_id(), header_ie_id::TIME_CORRECTION);
    assert_eq!(header.length(), 2);
    assert_eq!(header.total_length(), 4); // 2 header + 2 content
}

#[test]
fn test_header_ie_header_new_too_short() {
    let buf = [0u8; 1]; // Only 1 byte, need 2
    assert!(HeaderIeHeader::new(&buf).is_none());
}

#[test]
fn test_header_ie_header_new_invalid_type() {
    // Create a Payload IE header (type=1) and try to parse as Header IE
    let mut buf = [0u8; 2];
    buf[1] = 0x80; // Set type bit to 1
    assert!(HeaderIeHeader::new(&buf).is_none());
}

#[test]
fn test_header_ie_header_element_id_encoding() {
    // Test element ID encoding across the byte boundary
    // Element ID spans bits 7-14: bit 7 of byte 0 and bits 0-6 of byte 1
    let mut buf = [0u8; 2];
    let mut header = HeaderIeHeader::new_unchecked(&mut buf);

    // Test ID 0x00
    header.set_element_id(0x00);
    assert_eq!(header.element_id(), 0x00);

    // Test ID 0x01 (sets bit 7 of byte 0)
    header.set_element_id(0x01);
    assert_eq!(header.element_id(), 0x01);

    // Test ID 0x1e (TIME_CORRECTION)
    header.set_element_id(0x1e);
    assert_eq!(header.element_id(), 0x1e);

    // Test ID 0x7e (HT1)
    header.set_element_id(0x7e);
    assert_eq!(header.element_id(), 0x7e);

    // Test ID 0x7f (HT2)
    header.set_element_id(0x7f);
    assert_eq!(header.element_id(), 0x7f);
}

#[test]
fn test_header_ie_header_length_max() {
    let mut buf = [0u8; 2];
    let mut header = HeaderIeHeader::new_unchecked(&mut buf);

    // Maximum length is 127 (7 bits)
    header.set_length(127);
    assert_eq!(header.length(), 127);
    assert_eq!(header.total_length(), 129);

    // Length 0
    header.set_length(0);
    assert_eq!(header.length(), 0);
    assert_eq!(header.total_length(), 2);
}

#[test]
fn test_header_ie_header_termination_ids() {
    assert!(header_ie_id::is_termination(header_ie_id::HT1));
    assert!(header_ie_id::is_termination(header_ie_id::HT2));
    assert!(!header_ie_id::is_termination(header_ie_id::TIME_CORRECTION));
}

#[test]
fn test_header_ie_header_is_termination() {
    let mut buf = [0u8; 2];
    let mut header = HeaderIeHeader::new_unchecked(&mut buf);

    header.init(header_ie_id::HT1, 0);
    assert!(header.is_termination());

    header.init(header_ie_id::HT2, 0);
    assert!(header.is_termination());

    header.init(header_ie_id::TIME_CORRECTION, 2);
    assert!(!header.is_termination());
}

#[test]
fn test_header_ie_iter_multiple_ies() {
    // Build: Time Correction + HT1
    let mut buf = [0u8; 6];

    // Time Correction (id=0x1e, len=2)
    {
        let mut header = HeaderIeHeader::new_unchecked(&mut buf[..2]);
        header.init(header_ie_id::TIME_CORRECTION, 2);
    }

    // HT1 (id=0x7e, len=0)
    {
        let mut header = HeaderIeHeader::new_unchecked(&mut buf[4..6]);
        header.init(header_ie_id::HT1, 0);
    }

    let mut iter = HeaderIeIter::new(&buf);

    // First IE: Time Correction
    let ie1 = iter.next().unwrap();
    assert_eq!(ie1.element_id(), header_ie_id::TIME_CORRECTION);
    assert!(!ie1.is_termination());

    // Second IE: HT1
    let ie2 = iter.next().unwrap();
    assert_eq!(ie2.element_id(), header_ie_id::HT1);
    assert!(ie2.is_termination());

    // No more
    assert!(iter.next().is_none());
}

#[test]
fn test_header_ie_iter_remaining() {
    let mut buf = [0u8; 8];
    {
        let mut header = HeaderIeHeader::new_unchecked(&mut buf[..2]);
        header.init(header_ie_id::TIME_CORRECTION, 2);
    }

    let mut iter = HeaderIeIter::new(&buf);
    assert_eq!(iter.remaining().len(), 8);
    assert_eq!(iter.offset(), 0);

    iter.next();
    assert_eq!(iter.remaining().len(), 4);
    assert_eq!(iter.offset(), 4);
}

#[test]
fn test_header_ie_iter_empty_buffer() {
    let buf: [u8; 0] = [];
    let mut iter = HeaderIeIter::new(&buf);
    assert!(iter.next().is_none());
}

#[test]
fn test_time_correction_ie_new_valid() {
    let buf = [0u8; 2];
    let ie = TimeCorrectionIe::new(&buf).unwrap();
    assert_eq!(ie.time_sync(), 0);
    assert!(!ie.nack());
}

#[test]
fn test_time_correction_ie_new_too_short() {
    let buf = [0u8; 1];
    assert!(TimeCorrectionIe::new(&buf).is_none());
}

#[test]
fn test_time_correction_ie_positive_time_sync() {
    let mut buf = [0u8; 2];
    let mut ie = TimeCorrectionIe::new_unchecked(&mut buf);

    ie.set_time_sync(100);
    assert_eq!(ie.time_sync(), 100);
    assert!(!ie.nack());

    ie.set_time_sync(2047); // Max positive 12-bit value
    assert_eq!(ie.time_sync(), 2047);
}

#[test]
fn test_time_correction_ie_negative_time_sync() {
    let mut buf = [0u8; 2];
    let mut ie = TimeCorrectionIe::new_unchecked(&mut buf);

    ie.set_time_sync(-100);
    assert_eq!(ie.time_sync(), -100);

    ie.set_time_sync(-1);
    assert_eq!(ie.time_sync(), -1);

    ie.set_time_sync(-2048); // Min negative 12-bit value
    assert_eq!(ie.time_sync(), -2048);
}

#[test]
fn test_time_correction_ie_nack() {
    let mut buf = [0u8; 2];
    let mut ie = TimeCorrectionIe::new_unchecked(&mut buf);

    ie.set_nack(true);
    assert!(ie.nack());

    ie.set_nack(false);
    assert!(!ie.nack());
}

#[test]
fn test_time_correction_ie_combined() {
    let mut buf = [0u8; 2];
    let mut ie = TimeCorrectionIe::new_unchecked(&mut buf);

    // Set both fields
    ie.set_time_sync(-500);
    ie.set_nack(true);

    // Verify both are preserved
    assert_eq!(ie.time_sync(), -500);
    assert!(ie.nack());

    // Change time_sync, verify nack preserved
    ie.set_time_sync(200);
    assert_eq!(ie.time_sync(), 200);
    assert!(ie.nack());

    // Change nack, verify time_sync preserved
    ie.set_nack(false);
    assert_eq!(ie.time_sync(), 200);
    assert!(!ie.nack());
}

#[test]
fn header_ie_is_found_behind_others() {
    // A vendor specific IE of one octet, a Time Correction IE and HT2.
    let buf = [0x01, 0x00, 0xaa, 0x02, 0x0f, 0x2a, 0x80, 0x80, 0x3f, 0x55];
    let range = find_header_ie_content_range(&buf, header_ie_id::TIME_CORRECTION);
    assert_eq!(range, Some((5, 7)));
    let content = find_header_ie_content(&buf, header_ie_id::TIME_CORRECTION).unwrap();
    let ie = TimeCorrectionIe::new(content).unwrap();
    assert_eq!(ie.time_sync(), 42);
    assert!(ie.nack());
    assert!(find_header_ie_content_range(&buf, 0x21).is_none());
}
