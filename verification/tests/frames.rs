//! Building and parsing MPDUs.

use dot15d4::constants::PHY_HDR_LEN;
use dot15d4::frame::addressing::{Address, AddressingMode, ExtendedAddress, PanId};
use dot15d4::frame::addressing_repr::{AddressingRepr, PanIdCompressionRepr};
use dot15d4::frame::driver_config::{DriverConfig, RadioFrameSized, RadioFrameUnsized};
use dot15d4::frame::frame_control::{FrameControl, FrameType, FrameVersion};
use dot15d4::frame::radio_frame::RadioFrame;
use dot15d4::frame::repr::RadioFrameRepr;
use dot15d4::ies::nested::find_nested_ie_content;
use dot15d4::ies::nested_ie_id;
use dot15d4::mpdu::ack::{enh_ack_frame, imm_ack_frame};
use dot15d4::mpdu::beacon::{beacon_buffer_size, beacon_frame};
use dot15d4::mpdu::frame::MpduFrame;
use dot15d4::mpdu::kinds::Frame;
use dot15d4::net::prepare_data_request;
use dot15d4::repr::ies::{IeListRepr, IeRepr, IeReprList, IeReprWithTermination};
use dot15d4::repr::mpdu::{MpduRepr, SeqNrRepr};

struct FakeDriverConfig;

impl DriverConfig for FakeDriverConfig {
    const HEADROOM: u8 = 1;
    const TAILROOM: u8 = 2;
    const MAX_SDU_LENGTH: u16 = 127;
    const FCS_LENGTH: u8 = 2;
}

#[test]
fn test_mpdu_repr_api_and_size() {
    let slotframes: [u8; 3] = [2, 3, 4];
    let ies = [
        IeRepr::TimeCorrectionHeaderIe,
        IeRepr::FullTschTimeslotNestedIe,
        IeRepr::TschSlotframeAndLinkNestedIe(&slotframes),
    ];
    let mpdu_repr = MpduRepr::new()
        .with_frame_control(SeqNrRepr::Yes)
        .with_addressing(AddressingRepr::new(
            AddressingMode::Short,
            AddressingMode::Short,
            true,
            PanIdCompressionRepr::Yes,
        ))
        .without_security()
        .with_ies(IeListRepr::WithoutTerminationIes(IeReprList::new(&ies)));

    assert_eq!(size_of_val(&mpdu_repr), 32);

    let frame_repr = RadioFrameRepr::<FakeDriverConfig, RadioFrameUnsized>::new();
    let mut octets = vec![0u8; frame_repr.max_buffer_length() as usize];
    let buffer: &mut [u8] = &mut octets;

    let payload_length: u16 = 5;
    let parsed_mpdu = mpdu_repr
        .into_writer::<FakeDriverConfig, _>(
            FrameVersion::Ieee802154,
            FrameType::Data,
            payload_length,
            buffer,
        )
        .unwrap();

    assert_eq!(size_of_val(&parsed_mpdu), 40);

    let buffer = parsed_mpdu.into_buffer();
    assert_eq!(buffer.len(), frame_repr.max_buffer_length() as usize);
}

#[test]
fn test_tsch() {
    let slotframes: [u8; 3] = [2, 3, 4];
    let ies = [
        IeRepr::TimeCorrectionHeaderIe,
        IeRepr::FullTschTimeslotNestedIe,
        IeRepr::TschSlotframeAndLinkNestedIe(&slotframes),
    ];
    let mpdu_repr = MpduRepr::new()
        .with_frame_control(SeqNrRepr::No)
        .with_addressing(AddressingRepr::new(
            AddressingMode::Absent,
            AddressingMode::Extended,
            false,
            PanIdCompressionRepr::No,
        ))
        .without_security()
        .with_ies(IeListRepr::WithoutTerminationIes(IeReprList::new(&ies)));

    let frame_repr = RadioFrameRepr::<FakeDriverConfig, RadioFrameUnsized>::new();
    let buffer = vec![0u8; frame_repr.max_buffer_length() as usize];

    let mut mpdu_writer = mpdu_repr
        .into_writer::<FakeDriverConfig, _>(FrameVersion::Ieee802154, FrameType::Beacon, 0, buffer)
        .unwrap();

    let server_mac_addr = Address::Extended(ExtendedAddress::new_owned([
        0xfe, 0xd6, 0x1f, 0xaf, 0x7d, 0x5a, 0x36, 0xfc,
    ]));
    let mac_pan_id = PanId::new_owned([0xBE, 0xEF]);

    let mut addressing = mpdu_writer.addressing_fields_mut().unwrap().unwrap();
    addressing
        .src_address_mut()
        .unwrap()
        .set(&server_mac_addr)
        .unwrap();
    addressing
        .src_pan_id_mut()
        .unwrap()
        .set_le_bytes(mac_pan_id.as_ref());

    let _ies = mpdu_writer.ies_fields_mut();

    let buffer = mpdu_writer.into_buffer();
    // The frame control field: beacon, IEs present, no sequence number, version
    // 2, extended source address.
    assert_eq!(&buffer[1..3], &[0x00, 0xe3]);
    assert_eq!(&buffer[3..5], &[0xbe, 0xef]);
    assert_eq!(
        &buffer[5..13],
        &[0xfe, 0xd6, 0x1f, 0xaf, 0x7d, 0x5a, 0x36, 0xfc]
    );
    // The Time Correction IE and HT1.
    assert_eq!(&buffer[13..19], &[0x02, 0x0f, 0x00, 0x00, 0x00, 0x3f]);

    // The nested IEs are found where they were announced.
    let ies = &buffer[13..];
    let slotframes = find_nested_ie_content(ies, nested_ie_id::TSCH_SLOTFRAME_LINK, false).unwrap();
    assert_eq!(slotframes[0], 3);
    let timeslot = find_nested_ie_content(ies, nested_ie_id::TSCH_TIMESLOT, false).unwrap();
    assert_eq!(timeslot.len(), 25);
}

#[test]
fn test_imm_ack_frame() {
    const IMM_ACK_LEN: u8 = 3;

    let imm_ack_frame_repr =
        RadioFrameRepr::<FakeDriverConfig, RadioFrameUnsized>::new().with_sdu(IMM_ACK_LEN as u16);
    let imm_ack_buf_len = imm_ack_frame_repr.pdu_length() as usize;

    let buffer = vec![0u8; imm_ack_buf_len];

    const TEST_SEQ_NUM: u8 = 55;
    let frame = imm_ack_frame::<FakeDriverConfig, _>(TEST_SEQ_NUM, buffer);

    assert_eq!(
        imm_ack_buf_len as u8,
        imm_ack_frame_repr.driver_overhead() + IMM_ACK_LEN + imm_ack_frame_repr.fcs_length()
    );

    let expected_buffer = [0, 2, 1 << 4, TEST_SEQ_NUM, 0, 0, 0, 0];
    let frame_buffer = frame.into_buffer();
    assert_eq!(frame_buffer, &expected_buffer);
}

#[test]
fn test_enh_ack_frame() {
    const ENH_ACK_LEN: u8 = 7;

    let enh_ack_frame_repr =
        RadioFrameRepr::<FakeDriverConfig, RadioFrameUnsized>::new().with_sdu(ENH_ACK_LEN as u16);
    let enh_ack_buf_len = enh_ack_frame_repr.pdu_length() as usize;

    let buffer = vec![0u8; enh_ack_buf_len];

    const TEST_SEQ_NUM: u8 = 55;
    let mut frame = enh_ack_frame::<FakeDriverConfig, _>(TEST_SEQ_NUM, buffer);
    let mut ies = frame.ies_fields_mut();
    let mut time_correction_ie = ies.time_correction_mut().unwrap();
    time_correction_ie.set_time_sync(42);
    time_correction_ie.set_nack(true);

    assert_eq!(
        enh_ack_buf_len as u8,
        enh_ack_frame_repr.driver_overhead() + ENH_ACK_LEN + enh_ack_frame_repr.fcs_length()
    );

    let expected_buffer = [
        0,
        2,
        2 | 2 << 4, // IE Present + Enhanced
        TEST_SEQ_NUM,
        2,      // Header IE Time sync
        15,     // Header IE Time sync
        42,     // time sync value
        1 << 7, // Header IE Time sync + Nack
        0,
        0,
        0,
        0,
    ];
    let frame_buffer = frame.into_buffer();
    assert_eq!(frame_buffer, &expected_buffer);

    // Now we try to parse the buffer

    let radio_frame = RadioFrame::<_, RadioFrameUnsized>::new::<FakeDriverConfig>(frame_buffer)
        .with_size(ENH_ACK_LEN as u16);
    let mpdu = MpduFrame::from_radio_frame(radio_frame);

    let reader = mpdu
        .into_parser()
        .parse_addressing()
        .unwrap()
        .parse_security()
        .parse_ies::<FakeDriverConfig>()
        .unwrap();

    let ies = reader.ies_fields();
    let time_correction_ie = ies.time_correction().unwrap();
    assert!(time_correction_ie.time_sync() == 42);
    assert!(time_correction_ie.nack());
}

#[test]
fn enh_ack_overwrites_a_used_buffer() {
    let frame = enh_ack_frame::<FakeDriverConfig, _>(7, vec![0xaau8; 12]);
    assert_eq!(frame.sequence_number(), Some(7));
    // Only the reserved bits of the time correction IE are kept.
    assert_eq!(
        frame.into_buffer(),
        &[0xaa, 0x02, 0x22, 7, 0x02, 0x0f, 0, 0x20, 0xaa, 0xaa, 0xaa, 0xaa]
    );
}

#[test]
fn built_mpdu_is_parsed() {
    let ies = [IeRepr::TimeCorrectionHeaderIe];
    let repr = MpduRepr::new()
        .with_frame_control(SeqNrRepr::Yes)
        .with_addressing(AddressingRepr::new(
            AddressingMode::Short,
            AddressingMode::Short,
            true,
            PanIdCompressionRepr::Yes,
        ))
        .without_security()
        .with_ies(IeListRepr::WithoutTerminationIes(IeReprList::new(&ies)));
    // Frame control, sequence number, PAN ID, two addresses, IE, HT2, payload.
    assert_eq!(repr.mpdu_length_wo_fcs(5), Ok(2 + 1 + 6 + 4 + 2 + 5));
    assert_eq!(repr.min_buffer_size::<FakeDriverConfig>(5), Ok(20 + 5));

    let mut writer = repr
        .into_writer::<FakeDriverConfig, _>(
            FrameVersion::Ieee802154,
            FrameType::Data,
            5,
            vec![0u8; 25],
        )
        .unwrap();
    writer.set_sequence_number(9).unwrap();
    writer.set_ack_request(true);
    writer.set_frame_pending(true);
    writer.frame_payload_mut().unwrap().copy_from_slice(&[1, 2, 3, 4, 5]);
    {
        let mut addressing = writer.addressing_fields_mut().unwrap().unwrap();
        addressing.dst_pan_id_mut().unwrap().set_u16(0xbeef);
        assert!(addressing.src_pan_id_mut().is_none());
    }
    writer.fcs_mut().unwrap().copy_from_slice(&[0x12, 0x34]);
    let radio_frame = writer.into_radio_frame::<FakeDriverConfig>();
    assert_eq!(radio_frame.sdu_wo_fcs_length(), 20);
    assert_eq!(radio_frame.sdu_length(), 22);
    assert_eq!(radio_frame.ack_seq_num(), Some(9));

    let reader = MpduFrame::from_radio_frame(radio_frame)
        .into_parser()
        .parse_addressing()
        .unwrap()
        .parse_security()
        .parse_ies::<FakeDriverConfig>()
        .unwrap();
    assert!(reader.is_valid());
    assert!(reader.frame_control().ack_request());
    assert!(reader.frame_control().frame_pending());
    assert_eq!(reader.sequence_number(), Some(9));
    assert_eq!(reader.frame_payload().unwrap(), &[1, 2, 3, 4, 5]);
    assert_eq!(reader.fcs().unwrap(), &[0x12, 0x34]);
    let addressing = reader.addressing_fields().unwrap().unwrap();
    assert_eq!(addressing.dst_pan_id().unwrap().into_u16(), 0xbeef);
    assert!(reader.ies_fields().time_correction().is_some());
}

#[test]
fn invalid_addressing_returns_the_buffer() {
    let repr = MpduRepr::new()
        .with_frame_control(SeqNrRepr::Yes)
        .with_addressing(AddressingRepr::new(
            AddressingMode::Absent,
            AddressingMode::Absent,
            false,
            PanIdCompressionRepr::Legacy,
        ))
        .without_security()
        .without_ies();
    assert!(repr.mpdu_length_wo_fcs(0).is_err());
    let returned = repr
        .into_writer::<FakeDriverConfig, _>(
            FrameVersion::Ieee802154_2006,
            FrameType::Data,
            0,
            vec![3u8; 20],
        )
        .err()
        .unwrap();
    assert_eq!(returned, vec![3u8; 20]);
}

#[test]
fn termination_ies_must_be_consistent() {
    let list = [
        IeReprWithTermination::NonTerminationIe(IeRepr::TimeCorrectionHeaderIe),
        IeReprWithTermination::HeaderTerminationIe2,
    ];
    let ies = IeListRepr::WithTerminationIes(IeReprList::new(&list));
    assert_eq!(ies.ies_length(true), Ok(6));
    assert!(ies.ies_length(false).is_err());

    let list = [IeReprWithTermination::NonTerminationIe(
        IeRepr::TimeCorrectionHeaderIe,
    )];
    let ies = IeListRepr::WithTerminationIes(IeReprList::new(&list));
    assert_eq!(ies.ies_length(false), Ok(4));
    assert!(ies.ies_length(true).is_err());
}

#[test]
fn termination_ies_of_nested_ies_tell_about_the_payload() {
    let nested = IeReprWithTermination::NonTerminationIe(IeRepr::FullTschTimeslotNestedIe);
    // A payload termination IE announces a frame payload.
    let list = [
        IeReprWithTermination::HeaderTerminationIe1,
        nested,
        IeReprWithTermination::PayloadTerminationIe,
    ];
    let ies = IeListRepr::WithTerminationIes(IeReprList::new(&list));
    assert_eq!(ies.ies_length(true), Ok(33));
    assert!(ies.ies_length(false).is_err());
    assert_eq!(ies.try_ies_and_frame_payload_length(40), Ok((33, 7)));

    let list = [IeReprWithTermination::HeaderTerminationIe1, nested];
    let ies = IeListRepr::WithTerminationIes(IeReprList::new(&list));
    assert_eq!(ies.ies_length(false), Ok(31));
    assert!(ies.ies_length(true).is_err());

    // The termination IEs that are added take the same length.
    let list = [IeRepr::FullTschTimeslotNestedIe];
    let ies = IeListRepr::WithoutTerminationIes(IeReprList::new(&list));
    assert_eq!(ies.ies_length(true), Ok(33));
    assert_eq!(ies.ies_length(false), Ok(31));
}

#[test]
fn addressing_is_in_sync_with_the_frame_control_field() {
    for compression in [PanIdCompressionRepr::Yes, PanIdCompressionRepr::No] {
        let addressing = AddressingRepr::new(
            AddressingMode::Short,
            AddressingMode::Short,
            false,
            compression,
        );
        let repr = MpduRepr::new()
            .with_frame_control(SeqNrRepr::Yes)
            .with_addressing(addressing)
            .without_security()
            .without_ies();
        let writer = repr
            .into_writer::<FakeDriverConfig, _>(
                FrameVersion::Ieee802154,
                FrameType::Data,
                1,
                vec![0u8; 40],
            )
            .unwrap();
        let announced = AddressingRepr::from_frame_control(writer.frame_control()).unwrap();
        assert_eq!(
            announced.addressing_fields_lengths(),
            addressing.addressing_fields_lengths()
        );
        let fields = writer.addressing_fields().unwrap().unwrap();
        assert_eq!(
            fields.src_pan_id().is_some(),
            compression == PanIdCompressionRepr::No
        );
    }
}

#[test]
fn ies_and_payload_length_are_told_apart() {
    let list = [
        IeReprWithTermination::NonTerminationIe(IeRepr::TimeCorrectionHeaderIe),
        IeReprWithTermination::HeaderTerminationIe2,
    ];
    let ies = IeListRepr::WithTerminationIes(IeReprList::new(&list));
    assert_eq!(ies.try_ies_and_frame_payload_length(10), Ok((6, 4)));
    // The termination IE announces a payload.
    assert!(ies.try_ies_and_frame_payload_length(6).is_err());
    assert!(ies.try_ies_and_frame_payload_length(5).is_err());
    assert_eq!(
        IeListRepr::Empty.try_ies_and_frame_payload_length(5),
        Ok((0, 5))
    );
    // Whether there is a payload termination IE is not known.
    let list = [IeRepr::TimeCorrectionHeaderIe];
    let ies = IeListRepr::WithoutTerminationIes(IeReprList::new(&list));
    assert!(ies.try_ies_and_frame_payload_length(10).is_err());
}

#[test]
fn beacon_is_initialized() {
    let size = beacon_buffer_size::<FakeDriverConfig>(None, 3).unwrap();
    // Headroom, frame control, PAN ID, address, payload, FCS, tailroom.
    assert_eq!(size, 1 + 2 + 4 + 3 + 2 + 2);
    let mut beacon =
        beacon_frame::<FakeDriverConfig, _>(None, 3, vec![0u8; size as usize]).unwrap();
    assert_eq!(beacon.frame_control().frame_type(), FrameType::Beacon);
    assert_eq!(beacon.frame_payload_mut().unwrap().len(), 3);
    let buffer = beacon.into_buffer();
    let frame = Frame::new(&buffer[1..]).unwrap();
    assert!(matches!(frame, Frame::Beacon(_)));
}

#[test]
fn frame_kinds() {
    // An enhanced beacon, a data frame and an acknowledgment.
    assert!(matches!(Frame::new([0x00u8, 0x20]), Ok(Frame::EnhancedBeacon(_))));
    assert!(matches!(Frame::new([0x01u8, 0x00]), Ok(Frame::Data(_))));
    assert!(Frame::new([0x02u8, 0x00]).is_err());
    assert!(Frame::new([0x00u8]).is_err());
}

#[test]
fn frame_control_fields() {
    let mut fc = FrameControl::new_unchecked([0u8; 2]);
    fc.set_frame_type(FrameType::Data);
    fc.set_ack_request(true);
    fc.set_pan_id_compression(true);
    fc.set_dst_addressing_mode(AddressingMode::Short);
    fc.set_src_addressing_mode(AddressingMode::Extended);
    fc.set_frame_version(FrameVersion::Ieee802154_2006);
    assert_eq!(fc.to_octets(), [0x61, 0xd8]);
    assert!(fc.is_valid());
    assert_eq!(fc.frame_type(), FrameType::Data);
    assert!(!fc.security_enabled());
    assert!(FrameControl::new([0u8; 1]).is_err());
    // The destination addressing mode is reserved.
    assert!(!FrameControl::new_unchecked([0x01u8, 0x04]).is_valid());
}

#[test]
fn radio_frame_ranges() {
    let repr = RadioFrameRepr::<FakeDriverConfig, RadioFrameSized>::new(10);
    assert_eq!(repr.pdu_length(), 1 + 10 + 2 + 2);
    assert_eq!(repr.headroom_range(), 0..PHY_HDR_LEN);
    assert_eq!(repr.sdu_range_wo_fcs(), 1..11);
    assert_eq!(repr.fcs_range(), Some(11..13));
    assert_eq!(repr.tailroom_range(), 13..15);

    let frame = RadioFrame::<_, RadioFrameUnsized>::new::<FakeDriverConfig>(vec![0u8; 15])
        .with_size(10);
    assert_eq!(frame.headroom_range(), Some(0..1));
    assert_eq!(frame.sdu_range(), 1..13);
    assert_eq!(frame.sdu_range_wo_fcs(), 1..11);
    assert_eq!(frame.fcs_range(), Some(11..13));
    assert_eq!(frame.tailroom_range(), Some(13..15));
    let frame = frame.forget_size::<FakeDriverConfig>();
    assert_eq!(frame.into_buffer().len(), 15);
}

#[test]
fn outgoing_unicast_requests_an_acknowledgment() {
    // A data frame of 2006 with a sequence number and short addresses in one PAN.
    let mut octets = vec![0x41u8, 0x98, 7, 0, 0, 0x34, 0x12, 0x78, 0x56, 0xaa];
    let mut mpdu = MpduFrame::new(&mut octets[..], 0, 10);
    prepare_data_request(&mut mpdu, 0xbeef);
    assert_eq!(
        mpdu.buffer_ref(),
        &[0x61, 0x98, 7, 0xef, 0xbe, 0x34, 0x12, 0x78, 0x56, 0xaa]
    );
}

#[test]
fn outgoing_broadcast_requests_no_acknowledgment() {
    let mut octets = vec![0x61u8, 0x98, 7, 0, 0, 0xff, 0xff, 0x78, 0x56];
    let mut mpdu = MpduFrame::new(&mut octets[..], 0, 9);
    prepare_data_request(&mut mpdu, 0xbeef);
    assert_eq!(
        mpdu.buffer_ref(),
        &[0x41, 0x98, 7, 0xef, 0xbe, 0xff, 0xff, 0x78, 0x56]
    );
}

#[test]
fn outgoing_frame_without_addressing_is_left_alone() {
    // The destination addressing mode is reserved.
    let mut octets = vec![0x61u8, 0x94, 7, 1, 2, 3, 4];
    let mut mpdu = MpduFrame::new(&mut octets[..], 0, 7);
    prepare_data_request(&mut mpdu, 0xbeef);
    assert_eq!(mpdu.buffer_ref(), &[0x41, 0x94, 7, 1, 2, 3, 4]);
}

#[test]
fn enh_ack_in_borrowed_buffer() {
    // The reserved bits of the time correction IE are those of the buffer.
    let mut octets = [0xffu8; 12];
    {
        let mut ack = enh_ack_frame::<FakeDriverConfig, &mut [u8]>(9, &mut octets[..]);
        let mut ies = ack.ies_fields_mut();
        let mut time_correction = ies.time_correction_mut().unwrap();
        time_correction.set_time_sync(-5);
        time_correction.set_nack(true);
    }
    assert_eq!(&octets[..8], &[0xff, 0x02, 0x22, 9, 0x02, 0x0f, 0xfb, 0xff]);

    // The values are found again when the acknowledgment is parsed.
    let received = MpduFrame::new(&octets[..], 1, 7);
    let parser = received.reader().parse_addressing().unwrap();
    let parser = parser.parse_security();
    let parser = parser.parse_ies::<FakeDriverConfig>().unwrap();
    let ies = parser.ies_fields();
    let time_correction = ies.time_correction().unwrap();
    assert_eq!(time_correction.time_sync(), -5);
    assert!(time_correction.nack());
}
