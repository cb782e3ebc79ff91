//! Addresses and addressing fields.

use dot15d4::frame::addressing::{
    broadcast_pan_id, Address, AddressingMode, ExtendedAddress, PanId, ShortAddress,
};
use dot15d4::frame::addressing::AddressingMode::{Absent, Extended, Short};
use dot15d4::frame::addressing_fields::AddressingFields;
use dot15d4::frame::addressing_repr::PanIdCompressionRepr::{Legacy, No, Yes};
use dot15d4::frame::addressing_repr::{AddressingRepr, PanIdCompressionRepr};

fn some_extended_address() -> ExtendedAddress<&'static [u8]> {
    ExtendedAddress::new(&[0xff; 8])
}

fn other_extended_address() -> ExtendedAddress<&'static [u8]> {
    ExtendedAddress::new(&[0x01; 8])
}

fn some_short_address() -> ShortAddress<&'static [u8]> {
    ShortAddress::new(&[0xff, 0xff])
}

fn other_short_address() -> ShortAddress<&'static [u8]> {
    ShortAddress::new(&[0xff, 0xfe])
}

fn broadcast_address() -> Address<&'static [u8]> {
    Address::<&[u8]>::broadcast_addr()
}

#[test]
fn address_type() {
    assert!(Address::<&[u8]>::Absent.is_absent());
    assert!(!Address::<&[u8]>::Absent.is_short());
    assert!(!Address::<&[u8]>::Absent.is_extended());

    assert!(!broadcast_address().is_absent());
    assert!(broadcast_address().is_short());
    assert!(!broadcast_address().is_extended());

    assert!(!Address::Extended(some_extended_address()).is_absent());
    assert!(!Address::Extended(some_extended_address()).is_short());
    assert!(Address::Extended(some_extended_address()).is_extended());

    assert_eq!(Address::<&[u8]>::Absent.length(), 0);
    assert_eq!(broadcast_address().length(), 2);
    assert_eq!(Address::Extended(some_extended_address()).length(), 8);
}

#[test]
fn addressing_mode() {
    assert_eq!(AddressingMode::from(0b00), AddressingMode::Absent);
    assert_eq!(AddressingMode::from(0b10), AddressingMode::Short);
    assert_eq!(AddressingMode::from(0b11), AddressingMode::Extended);
    assert_eq!(AddressingMode::from(0b01), AddressingMode::Unknown);

    assert_eq!(AddressingMode::Unknown.length(), 0);
    assert_eq!(AddressingMode::Absent.length(), 0);
    assert_eq!(AddressingMode::Short.length(), 2);
    assert_eq!(AddressingMode::Extended.length(), 8);
}

#[test]
fn is_broadcast() {
    assert!(broadcast_address().is_broadcast());
    assert!(Address::Short(some_short_address()).is_broadcast());
    assert!(!Address::Short(other_short_address()).is_broadcast());

    assert!(!broadcast_address().is_unicast());
    assert!(!Address::Short(some_short_address()).is_unicast());
    assert!(Address::Short(other_short_address()).is_unicast());
}

#[test]
fn as_bytes() {
    assert_eq!(broadcast_address().as_le_bytes(), &[0xff, 0xff]);
    assert_eq!(
        Address::Short(some_short_address()).as_le_bytes(),
        &[0xff, 0xff]
    );
    assert_eq!(
        Address::Short(other_short_address()).as_le_bytes(),
        &[0xff, 0xfe]
    );
    assert_eq!(
        Address::Extended(some_extended_address()).as_le_bytes(),
        &[0xff; 8]
    );
    assert_eq!(
        Address::Extended(other_extended_address()).as_le_bytes(),
        &[0x01; 8]
    );
    assert_eq!(Address::<&[u8]>::Absent.as_le_bytes(), &[] as &[u8]);
}

#[test]
fn from_bytes() {
    assert_eq!(
        Address::<&[u8]>::from_le_bytes(&[0xff, 0xff]),
        Address::Short(some_short_address())
    );
    assert_eq!(
        Address::<&[u8]>::from_le_bytes(&[0xff, 0xfe]),
        Address::Short(other_short_address())
    );
    assert_eq!(
        Address::<&[u8]>::from_le_bytes(&[0xff; 8]),
        Address::Extended(some_extended_address())
    );
    assert_eq!(
        Address::<&[u8]>::from_le_bytes(&[0x01; 8]),
        Address::Extended(other_extended_address())
    );
    assert_eq!(Address::<&[u8]>::from_le_bytes(&[]), Address::Absent);
}

fn check(
    compression: PanIdCompressionRepr,
    dst: AddressingMode,
    src: AddressingMode,
    pan_ids_equal: bool,
    expected: Option<(bool, AddressingMode, bool, AddressingMode)>,
) {
    assert_eq!(
        AddressingRepr::new(dst, src, pan_ids_equal, compression)
            .address_present_flags()
            .ok(),
        expected
    );
}

#[test]
fn address_present_flags() {
    check(Legacy, Short, Short, false, Some((true, Short, true, Short)));
    check(Legacy, Short, Short, true, Some((true, Short, false, Short)));
    check(Legacy, Extended, Extended, false, Some((true, Extended, true, Extended)));
    check(Legacy, Extended, Extended, true, Some((true, Extended, false, Extended)));
    check(Legacy, Short, Extended, false, Some((true, Short, true, Extended)));
    check(Legacy, Short, Extended, true, Some((true, Short, false, Extended)));
    check(Legacy, Extended, Short, false, Some((true, Extended, true, Short)));
    check(Legacy, Extended, Short, true, Some((true, Extended, false, Short)));
    check(Legacy, Absent, Short, false, Some((false, Absent, true, Short)));
    check(Legacy, Absent, Extended, false, Some((false, Absent, true, Extended)));
    check(Legacy, Short, Absent, false, Some((true, Short, false, Absent)));
    check(Legacy, Extended, Absent, false, Some((true, Extended, false, Absent)));
    check(Legacy, Absent, Short, true, None);
    check(Legacy, Absent, Extended, true, None);
    check(Legacy, Short, Absent, true, None);
    check(Legacy, Extended, Absent, true, None);
    check(Legacy, Absent, Absent, false, None);
    check(Legacy, Absent, Absent, true, None);

    check(No, Short, Short, false, Some((true, Short, true, Short)));
    check(Yes, Short, Short, true, Some((true, Short, false, Short)));
    check(No, Extended, Extended, false, Some((true, Extended, false, Extended)));
    check(Yes, Extended, Extended, true, Some((false, Extended, false, Extended)));
    check(No, Short, Extended, false, Some((true, Short, true, Extended)));
    check(Yes, Short, Extended, true, Some((true, Short, false, Extended)));
    check(No, Extended, Short, false, Some((true, Extended, true, Short)));
    check(Yes, Extended, Short, true, Some((true, Extended, false, Short)));
    check(No, Absent, Short, false, Some((false, Absent, true, Short)));
    check(No, Absent, Extended, false, Some((false, Absent, true, Extended)));
    check(No, Short, Absent, false, Some((true, Short, false, Absent)));
    check(No, Extended, Absent, false, Some((true, Extended, false, Absent)));
    check(Yes, Absent, Short, true, Some((false, Absent, false, Short)));
    check(Yes, Absent, Extended, true, Some((false, Absent, false, Extended)));
    check(Yes, Short, Absent, true, Some((false, Short, false, Absent)));
    check(Yes, Extended, Absent, true, Some((false, Extended, false, Absent)));
    check(No, Absent, Absent, false, Some((false, Absent, false, Absent)));
    check(Yes, Absent, Absent, true, Some((true, Absent, false, Absent)));
}

#[test]
fn parse() {
    let addresses: Vec<(&'static str, Address<&[u8]>)> = vec![
        ("", Address::Absent),
        ("ff:ff", Address::Short(some_short_address())),
        ("ff:fe", Address::Short(other_short_address())),
        (
            "ff:ff:ff:ff:ff:ff:ff:ff",
            Address::Extended(some_extended_address()),
        ),
        (
            "01:01:01:01:01:01:01:01",
            Address::Extended(other_extended_address()),
        ),
        (
            "00:00:00:00:00:00:00:00",
            Address::Extended(ExtendedAddress::new(&[0x00; 8])),
        ),
        (
            "00:00:00:00:00:00:00:01",
            Address::Extended(ExtendedAddress::new(&[
                0x00, 0x00, 0x00, 0x00, 0x00, 0x00, 0x00, 0x01,
            ])),
        ),
    ];

    for (s, expected) in addresses {
        assert_eq!(Address::parse(s).unwrap(), expected.into());
    }
}

#[test]
fn parse_rejects_a_wrong_number_of_octets() {
    for s in ["f", "ff", "ff:ff:ff", "ffff", "ff-ff", "1:2:3:4:5:6:7", "1:2:3:4:5:6:7:8:9"] {
        assert!(Address::parse(s).is_err(), "{}", s);
    }
}

#[test]
fn byte_orders() {
    let short = ShortAddress::<[u8; 2]>::from_u16(0x1234);
    assert_eq!(short.as_ref(), &[0x34, 0x12]);
    assert_eq!(short.into_be_bytes(), [0x12, 0x34]);
    assert_eq!(short.into_u16(), 0x1234);
    assert_eq!(ShortAddress::<[u8; 2]>::from_be_bytes([0x12, 0x34]), short);

    let mut pan_id = PanId::new_owned([0, 0]);
    pan_id.set_u16(0xbeef);
    assert_eq!(pan_id.as_ref(), &[0xef, 0xbe]);
    pan_id.set_be_bytes([1, 2]);
    assert_eq!(pan_id.as_ref(), &[2, 1]);
    assert_eq!(broadcast_pan_id().into_u16(), 0xffff);

    let mut extended = ExtendedAddress::new_owned([1, 2, 3, 4, 5, 6, 7, 8]);
    assert_eq!(extended.into_be_bytes(), [8, 7, 6, 5, 4, 3, 2, 1]);
    extended.set_be_bytes([1, 2, 3, 4, 5, 6, 7, 8]);
    assert_eq!(extended.as_ref(), &[8, 7, 6, 5, 4, 3, 2, 1]);
}

#[test]
fn address_is_set_only_if_its_length_matches() {
    let mut bytes = [0u8; 2];
    let mut address = Address::Short(ShortAddress::new(&mut bytes[..]));
    assert!(address.set(&Address::Short(other_short_address())).is_ok());
    assert!(address.set(&Address::Extended(other_extended_address())).is_err());
    assert_eq!(bytes, [0xff, 0xfe]);
}

#[test]
fn addressing_fields_are_located() {
    let repr = AddressingRepr::new(
        AddressingMode::Short,
        AddressingMode::Extended,
        false,
        PanIdCompressionRepr::No,
    );
    assert_eq!(repr.addressing_fields_length(), Ok(14));
    assert_eq!(repr.addressing_fields_lengths(), Ok([2, 2, 2, 8]));
    assert!(!repr.pan_id_compression());

    let bytes: Vec<u8> = (1u8..15).collect();
    let mut fields = AddressingFields::new(bytes, repr).unwrap();
    assert_eq!(fields.dst_pan_id().unwrap().as_ref(), &[1, 2]);
    assert_eq!(fields.dst_address().unwrap().as_le_bytes(), &[3, 4]);
    assert_eq!(fields.src_pan_id().unwrap().as_ref(), &[5, 6]);
    assert_eq!(
        fields.src_address().unwrap().as_le_bytes(),
        &[7, 8, 9, 10, 11, 12, 13, 14]
    );
    fields.dst_pan_id_mut().unwrap().set_u16(0xabcd);
    assert_eq!(fields.dst_pan_id().unwrap().into_u16(), 0xabcd);
    assert_eq!(fields.dst_address().unwrap().as_le_bytes(), &[3, 4]);

    assert!(AddressingFields::new(vec![0u8; 13], repr).is_err());
}

#[test]
fn elided_addressing_fields_are_absent() {
    let repr = AddressingRepr::new(
        AddressingMode::Absent,
        AddressingMode::Short,
        true,
        PanIdCompressionRepr::Yes,
    );
    assert!(repr.pan_id_compression());
    let fields = AddressingFields::new([7u8, 8], repr).unwrap();
    assert!(fields.dst_pan_id().is_none());
    assert!(fields.dst_address().is_none());
    assert!(fields.src_pan_id().is_none());
    assert_eq!(fields.src_address().unwrap().as_le_bytes(), &[7, 8]);
}
