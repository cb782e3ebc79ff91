//! TSCH information elements.

use dot15d4::ies::link_options::TschLinkOption;
use dot15d4::ies::timeslot_timings::TschTimeslotTimings;
use dot15d4::ies::tsch::{
    ChannelHoppingIe, LinkDescriptor, SlotframeDescriptor, TschSlotframeLinkIe, TschSyncIe,
    TschTimeslotIe,
};

#[test]
fn sync_ie() {
    let mut ie = TschSyncIe::new_unchecked([0u8; 6]);
    ie.set_asn(0x05_0403_0201);
    ie.set_join_metric(6);
    assert_eq!(ie.asn(), 0x05_0403_0201);
    assert_eq!(ie.join_metric(), 6);
    assert!(TschSyncIe::new([0u8; 5]).is_none());
}

#[test]
fn timeslot_ie() {
    let reduced = TschTimeslotIe::new([5u8]).unwrap();
    assert!(reduced.is_reduced());
    assert_eq!(reduced.timeslot_id(), 5);
    assert_eq!(reduced.cca_offset(), None);

    let mut full = TschTimeslotIe::new([0u8; 25]).unwrap();
    full.set_timeslot_id(1);
    full.set_cca_offset(1_800);
    full.set_timeslot_length(10_000);
    assert!(!full.is_reduced());
    assert_eq!(full.timeslot_id(), 1);
    assert_eq!(full.cca_offset(), Some(1_800));
    assert_eq!(full.timeslot_length(), Some(10_000));
    assert_eq!(full.cca(), Some(0));
}

#[test]
fn channel_hopping_ie() {
    let reduced = ChannelHoppingIe::new([3u8]).unwrap();
    assert!(reduced.is_reduced());
    assert_eq!(reduced.hopping_sequence_id(), 3);
    assert_eq!(reduced.channel_page(), None);
}

#[test]
fn links_of_a_slotframe() {
    let mut link = LinkDescriptor::new_unchecked([0u8; 5]);
    link.set_timeslot(3);
    link.set_channel_offset(7);
    link.set_options(0b1011);
    assert_eq!(link.timeslot(), 3);
    assert_eq!(link.channel_offset(), 7);
    assert!(link.is_tx());
    assert!(link.is_rx());
    assert!(!link.is_shared());
    assert!(link.is_timekeeping());
    assert!(!link.is_priority());

    let mut bytes = [0u8; 9];
    {
        let mut descriptor = SlotframeDescriptor::new_unchecked(&mut bytes[..]);
        descriptor.set_handle(2);
        descriptor.set_size(101);
        descriptor.set_num_links(1);
    }
    bytes[4] = 9;
    let descriptor = SlotframeDescriptor::new(&bytes[..]).unwrap();
    assert_eq!(descriptor.handle(), 2);
    assert_eq!(descriptor.size(), 101);
    assert_eq!(descriptor.total_length(), 9);
    let mut links = descriptor.links();
    assert_eq!(links.next().unwrap().timeslot(), 9);
    assert!(links.next().is_none());

    let mut ie = vec![1u8];
    ie.extend_from_slice(&bytes);
    let ie = TschSlotframeLinkIe::new(&ie[..]).unwrap();
    assert_eq!(ie.num_slotframes(), 1);
    let mut slotframes = ie.slotframes();
    assert_eq!(slotframes.next().unwrap().size(), 101);
    assert!(slotframes.next().is_none());
}

#[test]
fn link_options() {
    let options = TschLinkOption::from_bits_retain(0b11);
    assert_eq!(options.bits(), 3);
    assert!(options.contains(TschLinkOption::from_bits_retain(0b10)));
    assert!(!options.contains(TschLinkOption::from_bits_retain(0b100)));
    assert_eq!(options.to_text(), "Tx | Rx");
    assert_eq!(TschLinkOption::from_bits_retain(0).to_text(), "");
}

#[test]
fn timeslot_timings() {
    let mut timings = TschTimeslotTimings::new(0, 2_200);
    assert_eq!(timings.id(), 0);
    assert_eq!(timings.rx_wait(), 2_200);
    assert_eq!(timings.tx_offset(), 2_120);
    assert_eq!(timings.rx_offset(), 2_120 - 1_100);
    assert_eq!(timings.timeslot_length(), 10_000);
    timings.set_max_tx(4_000);
    assert_eq!(timings.max_tx(), 4_000);
    assert!(timings.to_text(2).contains("10000"));
}

#[test]
fn links_in_borrowed_buffer() {
    let mut octets = [7u8, 0, 0, 1, 0, 0, 0, 0, 0];
    let mut slotframe = SlotframeDescriptor::new_unchecked(&mut octets);
    slotframe.set_size(0x0102);
    let mut links = slotframe.links_mut();
    let mut link = links.next().unwrap();
    link.set_timeslot(5);
    link.set_channel_offset(6);
    link.set_options(3);
    assert_eq!(octets, [7, 0x02, 0x01, 1, 5, 0, 6, 0, 3]);
}
