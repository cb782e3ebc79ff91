//! Content of the IEs that set up time-slotted channel hopping (TSCH).

use vstd::prelude::*;

use crate::ies::link_options;
use crate::octets::{
    get_u16_le, get_u32_le, put_u16, put_u32, put_u40, set_u16_le, set_u32_le, splice,
    subslice_mut, u16_at, u32_at, u40_at, Octets, OctetsMut,
};

verus! {

/// Content of a TSCH synchronization IE (6 octets).
///
/// Format:
/// - Octets 0-4: absolute slot number (little-endian)
/// - Octet 5: join metric
#[derive(Clone, Copy)]
pub struct TschSyncIe<Bytes> {
    bytes: Bytes,
}

impl<Bytes> TschSyncIe<Bytes> {
    /// The container of the octets.
    pub closed spec fn container(&self) -> Bytes {
        self.bytes
    }

    /// Once nothing is written any more through the content, nothing is written any more
    /// to its container. If the container is borrowed, then what it was borrowed
    /// from holds what was written last.
    pub proof fn lemma_released(self)
        requires
            has_resolved(self),
        ensures
            has_resolved(self.container()),
    {
    }
}

impl<Bytes: Octets> View for TschSyncIe<Bytes> {
    type V = Seq<u8>;

    open spec fn view(&self) -> Seq<u8> {
        self.container().bytes()
    }
}

impl<Bytes: Octets> TschSyncIe<Bytes> {
    pub const LENGTH: usize = 6;

    /// Interprets the leading octets as the content of a TSCH synchronization
    /// IE.
    pub fn new(bytes: Bytes) -> (r: Option<Self>)
        ensures
            r is Some <==> bytes.bytes().len() >= 6,
            r matches Some(ie) ==> ie.container() == bytes,
    {
        if bytes.octets().len() < 6 {
            return None;
        }
        Some(Self { bytes })
    }

    /// Interprets octets as the content of a TSCH synchronization IE without any
    /// check.
    pub fn new_unchecked(bytes: Bytes) -> (r: Self)
        ensures
            r.container() == bytes,
    {
        Self { bytes }
    }

    /// Absolute slot number (40 bits).
    pub fn asn(&self) -> (r: u64)
        requires
            self@.len() >= 6,
        ensures
            r == u40_at(self@, 0),
    {
        let b = self.bytes.octets();
        get_u32_le(b, 0) as u64 + 0x1_0000_0000 * (b[4] as u64)
    }

    /// Join metric (hop count).
    pub fn join_metric(&self) -> (r: u8)
        requires
            self@.len() >= 6,
        ensures
            r == self@[5],
    {
        self.bytes.octets()[5]
    }
}

impl<Bytes: OctetsMut> TschSyncIe<Bytes> {
    /// Sets the absolute slot number to the lower forty bits of `asn`.
    pub fn set_asn(&mut self, asn: u64)
        requires
            old(self)@.len() >= 6,
        ensures
            final(self)@ == put_u40(old(self)@, 0, asn as int % 0x100_0000_0000),
            exists|x: &mut Bytes, w: &mut [u8]|
                {
                    &&& #[trigger] call_ensures(Bytes::octets_mut, (x,), w)
                    &&& *x == old(self).container()
                    &&& *final(x) == final(self).container()
                },
    {
        let b = self.bytes.octets_mut();
        let low40: u64 = asn % 0x100_0000_0000;
        set_u32_le(b, 0, (low40 % 0x1_0000_0000) as u32);
        b[4] = (low40 / 0x1_0000_0000) as u8;
    }

    /// Sets the join metric.
    pub fn set_join_metric(&mut self, metric: u8)
        requires
            old(self)@.len() >= 6,
        ensures
            final(self)@ == old(self)@.update(5, metric),
            exists|x: &mut Bytes, w: &mut [u8]|
                {
                    &&& #[trigger] call_ensures(Bytes::octets_mut, (x,), w)
                    &&& *x == old(self).container()
                    &&& *final(x) == final(self).container()
                },
    {
        self.bytes.octets_mut()[5] = metric;
    }
}

/// The two-octet field at `at`, if the content is long enough to hold it.
pub open spec fn field_at(s: Seq<u8>, at: int) -> Option<u16> {
    if s.len() >= at + 2 {
        Some(u16_at(s, at) as u16)
    } else {
        None
    }
}

/// `s` with `v` stored in the two-octet field at `at`, if the content is long
/// enough to hold it.
pub open spec fn put_field(s: Seq<u8>, at: int, v: u16) -> Seq<u8> {
    if s.len() >= at + 2 {
        put_u16(s, at, v as int)
    } else {
        s
    }
}

/// Content of a TSCH timeslot IE.
///
/// Reduced format: 1 octet (the ID alone)
/// Full format: 25 octets (all timing parameters)
#[derive(Clone, Copy)]
pub struct TschTimeslotIe<Bytes> {
    bytes: Bytes,
}

impl<Bytes> TschTimeslotIe<Bytes> {
    /// The container of the octets.
    pub closed spec fn container(&self) -> Bytes {
        self.bytes
    }

    /// Once nothing is written any more through the content, nothing is written any more
    /// to its container. If the container is borrowed, then what it was borrowed
    /// from holds what was written last.
    pub proof fn lemma_released(self)
        requires
            has_resolved(self),
        ensures
            has_resolved(self.container()),
    {
    }
}

impl<Bytes: Octets> View for TschTimeslotIe<Bytes> {
    type V = Seq<u8>;

    open spec fn view(&self) -> Seq<u8> {
        self.container().bytes()
    }
}

impl<Bytes: Octets> TschTimeslotIe<Bytes> {
    pub const REDUCED_LENGTH: usize = 1;

    pub const FULL_LENGTH: usize = 25;

    /// Interprets octets as the content of a TSCH timeslot IE in either format.
    pub fn new(bytes: Bytes) -> (r: Option<Self>)
        ensures
            r is Some <==> bytes.bytes().len() >= 1,
            r matches Some(ie) ==> ie.container() == bytes,
    {
        if bytes.octets().len() == 0 {
            return None;
        }
        Some(Self { bytes })
    }

    /// Interprets octets as the content of a TSCH timeslot IE without any check.
    pub fn new_unchecked(bytes: Bytes) -> (r: Self)
        ensures
            r.container() == bytes,
    {
        Self { bytes }
    }

    /// Whether the content is too short for the full format.
    pub fn is_reduced(&self) -> (r: bool)
        ensures
            r <==> self@.len() < 25,
    {
        self.bytes.octets().len() < 25
    }

    /// Timeslot template ID.
    pub fn timeslot_id(&self) -> (r: u8)
        requires
            self@.len() >= 1,
        ensures
            r == self@[0],
    {
        self.bytes.octets()[0]
    }

    fn u16_at(&self, offset: usize) -> (r: Option<u16>)
        requires
            offset < 0x100,
        ensures
            r == field_at(self@, offset as int),
    {
        let b = self.bytes.octets();
        if b.len() >= offset + 2 {
            Some(get_u16_le(b, offset))
        } else {
            None
        }
    }

    /// Offset of the clear channel assessment within a timeslot (full format
    /// only).
    pub fn cca_offset(&self) -> (r: Option<u16>)
        ensures
            r == field_at(self@, 1),
    {
        self.u16_at(1)
    }

    /// Duration of the clear channel assessment (full format only).
    pub fn cca(&self) -> (r: Option<u16>)
        ensures
            r == field_at(self@, 3),
    {
        self.u16_at(3)
    }

    /// Offset of the frame transmission within a timeslot (full format only).
    pub fn tx_offset(&self) -> (r: Option<u16>)
        ensures
            r == field_at(self@, 5),
    {
        self.u16_at(5)
    }

    /// Offset at which the receiver starts to listen within a timeslot (full
    /// format only).
    pub fn rx_offset(&self) -> (r: Option<u16>)
        ensures
            r == field_at(self@, 7),
    {
        self.u16_at(7)
    }

    /// Delay from the end of a frame until the transmitter listens for its
    /// acknowledgment (full format only).
    pub fn rx_ack_delay(&self) -> (r: Option<u16>)
        ensures
            r == field_at(self@, 9),
    {
        self.u16_at(9)
    }

    /// Delay from the end of a frame until its acknowledgment is sent (full
    /// format only).
    pub fn tx_ack_delay(&self) -> (r: Option<u16>)
        ensures
            r == field_at(self@, 11),
    {
        self.u16_at(11)
    }

    /// Time to wait for the start of a frame (full format only).
    pub fn rx_wait(&self) -> (r: Option<u16>)
        ensures
            r == field_at(self@, 13),
    {
        self.u16_at(13)
    }

    /// Time to wait for the start of an acknowledgment (full format only).
    pub fn ack_wait(&self) -> (r: Option<u16>)
        ensures
            r == field_at(self@, 15),
    {
        self.u16_at(15)
    }

    /// Turnaround time between transmission and reception (full format only).
    pub fn rx_tx(&self) -> (r: Option<u16>)
        ensures
            r == field_at(self@, 17),
    {
        self.u16_at(17)
    }

    /// Transmission time of the longest acknowledgment (full format only).
    pub fn max_ack(&self) -> (r: Option<u16>)
        ensures
            r == field_at(self@, 19),
    {
        self.u16_at(19)
    }

    /// Transmission time of the longest frame (full format only).
    pub fn max_tx(&self) -> (r: Option<u16>)
        ensures
            r == (if self@.len() >= 24 {
                field_at(self@, 21)
            } else {
                None
            }),
    {
        if self.bytes.octets().len() >= 24 {
            self.u16_at(21)
        } else {
            None
        }
    }

    /// Length of a timeslot (full format only).
    pub fn timeslot_length(&self) -> (r: Option<u16>)
        ensures
            r == field_at(self@, 23),
    {
        self.u16_at(23)
    }
}

impl<Bytes: OctetsMut> TschTimeslotIe<Bytes> {
    /// Sets the timeslot template ID.
    pub fn set_timeslot_id(&mut self, id: u8)
        requires
            old(self)@.len() >= 1,
        ensures
            final(self)@ == old(self)@.update(0, id),
            exists|x: &mut Bytes, w: &mut [u8]|
                {
                    &&& #[trigger] call_ensures(Bytes::octets_mut, (x,), w)
                    &&& *x == old(self).container()
                    &&& *final(x) == final(self).container()
                },
    {
        self.bytes.octets_mut()[0] = id;
    }

    fn set_u16_at(&mut self, offset: usize, value: u16)
        requires
            offset < 0x100,
        ensures
            final(self)@ == put_field(old(self)@, offset as int, value),
            exists|x: &mut Bytes, w: &mut [u8]|
                {
                    &&& #[trigger] call_ensures(Bytes::octets_mut, (x,), w)
                    &&& *x == old(self).container()
                    &&& *final(x) == final(self).container()
                },
    {
        let b = self.bytes.octets_mut();
        if b.len() >= offset + 2 {
            set_u16_le(b, offset, value);
        }
    }

    /// Sets the offset of the clear channel assessment within a timeslot (full
    /// format only).
    pub fn set_cca_offset(&mut self, v: u16)
        ensures
            final(self)@ == put_field(old(self)@, 1, v),
            exists|x: &mut Bytes, w: &mut [u8]|
                {
                    &&& #[trigger] call_ensures(Bytes::octets_mut, (x,), w)
                    &&& *x == old(self).container()
                    &&& *final(x) == final(self).container()
                },
    {
        self.set_u16_at(1, v);
    }

    /// Sets the duration of the clear channel assessment (full format only).
    pub fn set_cca(&mut self, v: u16)
        ensures
            final(self)@ == put_field(old(self)@, 3, v),
            exists|x: &mut Bytes, w: &mut [u8]|
                {
                    &&& #[trigger] call_ensures(Bytes::octets_mut, (x,), w)
                    &&& *x == old(self).container()
                    &&& *final(x) == final(self).container()
                },
    {
        self.set_u16_at(3, v);
    }

    /// Sets the offset of the frame transmission within a timeslot (full format
    /// only).
    pub fn set_tx_offset(&mut self, v: u16)
        ensures
            final(self)@ == put_field(old(self)@, 5, v),
            exists|x: &mut Bytes, w: &mut [u8]|
                {
                    &&& #[trigger] call_ensures(Bytes::octets_mut, (x,), w)
                    &&& *x == old(self).container()
                    &&& *final(x) == final(self).container()
                },
    {
        self.set_u16_at(5, v);
    }

    /// Sets the offset at which the receiver starts to listen within a timeslot
    /// (full format only).
    pub fn set_rx_offset(&mut self, v: u16)
        ensures
            final(self)@ == put_field(old(self)@, 7, v),
            exists|x: &mut Bytes, w: &mut [u8]|
                {
                    &&& #[trigger] call_ensures(Bytes::octets_mut, (x,), w)
                    &&& *x == old(self).container()
                    &&& *final(x) == final(self).container()
                },
    {
        self.set_u16_at(7, v);
    }

    /// Sets the delay from the end of a frame until the transmitter listens for
    /// its acknowledgment (full format only).
    pub fn set_rx_ack_delay(&mut self, v: u16)
        ensures
            final(self)@ == put_field(old(self)@, 9, v),
            exists|x: &mut Bytes, w: &mut [u8]|
                {
                    &&& #[trigger] call_ensures(Bytes::octets_mut, (x,), w)
                    &&& *x == old(self).container()
                    &&& *final(x) == final(self).container()
                },
    {
        self.set_u16_at(9, v);
    }

    /// Sets the delay from the end of a frame until its acknowledgment is sent
    /// (full format only).
    pub fn set_tx_ack_delay(&mut self, v: u16)
        ensures
            final(self)@ == put_field(old(self)@, 11, v),
            exists|x: &mut Bytes, w: &mut [u8]|
                {
                    &&& #[trigger] call_ensures(Bytes::octets_mut, (x,), w)
                    &&& *x == old(self).container()
                    &&& *final(x) == final(self).container()
                },
    {
        self.set_u16_at(11, v);
    }

    /// Sets the time to wait for the start of a frame (full format only).
    pub fn set_rx_wait(&mut self, v: u16)
        ensures
            final(self)@ == put_field(old(self)@, 13, v),
            exists|x: &mut Bytes, w: &mut [u8]|
                {
                    &&& #[trigger] call_ensures(Bytes::octets_mut, (x,), w)
                    &&& *x == old(self).container()
                    &&& *final(x) == final(self).container()
                },
    {
        self.set_u16_at(13, v);
    }

    /// Sets the time to wait for the start of an acknowledgment (full format
    /// only).
    pub fn set_ack_wait(&mut self, v: u16)
        ensures
            final(self)@ == put_field(old(self)@, 15, v),
            exists|x: &mut Bytes, w: &mut [u8]|
                {
                    &&& #[trigger] call_ensures(Bytes::octets_mut, (x,), w)
                    &&& *x == old(self).container()
                    &&& *final(x) == final(self).container()
                },
    {
        self.set_u16_at(15, v);
    }

    /// Sets the turnaround time between transmission and reception (full format
    /// only).
    pub fn set_rx_tx(&mut self, v: u16)
        ensures
            final(self)@ == put_field(old(self)@, 17, v),
            exists|x: &mut Bytes, w: &mut [u8]|
                {
                    &&& #[trigger] call_ensures(Bytes::octets_mut, (x,), w)
                    &&& *x == old(self).container()
                    &&& *final(x) == final(self).container()
                },
    {
        self.set_u16_at(17, v);
    }

    /// Sets the transmission time of the longest acknowledgment (full format
    /// only).
    pub fn set_max_ack(&mut self, v: u16)
        ensures
            final(self)@ == put_field(old(self)@, 19, v),
            exists|x: &mut Bytes, w: &mut [u8]|
                {
                    &&& #[trigger] call_ensures(Bytes::octets_mut, (x,), w)
                    &&& *x == old(self).container()
                    &&& *final(x) == final(self).container()
                },
    {
        self.set_u16_at(19, v);
    }

    /// Sets the transmission time of the longest frame (full format only).
    pub fn set_max_tx(&mut self, v: u16)
        ensures
            final(self)@ == (if old(self)@.len() >= 24 {
                put_field(old(self)@, 21, v)
            } else {
                old(self)@
            }),
            exists|x: &mut Bytes, w: &mut [u8]|
                {
                    &&& #[trigger] call_ensures(Bytes::octets_mut, (x,), w)
                    &&& *x == old(self).container()
                    &&& *final(x) == final(self).container()
                },
    {
        let b = self.bytes.octets_mut();
        if b.len() >= 24 {
            set_u16_le(b, 21, v);
        }
    }

    /// Sets the length of a timeslot (full format only).
    pub fn set_timeslot_length(&mut self, v: u16)
        ensures
            final(self)@ == put_field(old(self)@, 23, v),
            exists|x: &mut Bytes, w: &mut [u8]|
                {
                    &&& #[trigger] call_ensures(Bytes::octets_mut, (x,), w)
                    &&& *x == old(self).container()
                    &&& *final(x) == final(self).container()
                },
    {
        self.set_u16_at(23, v);
    }
}

/// Content of a channel hopping IE (long format, variable length).
#[derive(Clone, Copy)]
pub struct ChannelHoppingIe<Bytes> {
    bytes: Bytes,
}

impl<Bytes> ChannelHoppingIe<Bytes> {
    /// The container of the octets.
    pub closed spec fn container(&self) -> Bytes {
        self.bytes
    }

    /// Once nothing is written any more through the content, nothing is written any more
    /// to its container. If the container is borrowed, then what it was borrowed
    /// from holds what was written last.
    pub proof fn lemma_released(self)
        requires
            has_resolved(self),
        ensures
            has_resolved(self.container()),
    {
    }
}

impl<Bytes: Octets> View for ChannelHoppingIe<Bytes> {
    type V = Seq<u8>;

    open spec fn view(&self) -> Seq<u8> {
        self.container().bytes()
    }
}

impl<Bytes: Octets> ChannelHoppingIe<Bytes> {
    pub const MIN_LENGTH: usize = 1;

    pub const REDUCED_LENGTH: usize = 1;

    /// Interprets octets as the content of a channel hopping IE.
    pub fn new(bytes: Bytes) -> (r: Option<Self>)
        ensures
            r is Some <==> bytes.bytes().len() >= 1,
            r matches Some(ie) ==> ie.container() == bytes,
    {
        if bytes.octets().len() == 0 {
            return None;
        }
        Some(Self { bytes })
    }

    /// Interprets octets as the content of a channel hopping IE without any
    /// check.
    pub fn new_unchecked(bytes: Bytes) -> (r: Self)
        ensures
            r.container() == bytes,
    {
        Self { bytes }
    }

    /// Whether the content consists of the hopping sequence ID alone.
    pub fn is_reduced(&self) -> (r: bool)
        ensures
            r <==> self@.len() == 1,
    {
        self.bytes.octets().len() == 1
    }

    /// Hopping sequence ID (0 = default).
    pub fn hopping_sequence_id(&self) -> (r: u8)
        requires
            self@.len() >= 1,
        ensures
            r == self@[0],
    {
        self.bytes.octets()[0]
    }

    /// Channel page (full format only).
    pub fn channel_page(&self) -> (r: Option<u8>)
        ensures
            r == (if self@.len() >= 2 {
                Some(self@[1])
            } else {
                None
            }),
    {
        let b = self.bytes.octets();
        if b.len() >= 2 {
            Some(b[1])
        } else {
            None
        }
    }

    /// Number of channels (full format only).
    pub fn num_channels(&self) -> (r: Option<u16>)
        ensures
            r == field_at(self@, 2),
    {
        let b = self.bytes.octets();
        if b.len() >= 4 {
            Some(get_u16_le(b, 2))
        } else {
            None
        }
    }

    /// PHY configuration (full format only).
    pub fn phy_configuration(&self) -> (r: Option<u32>)
        ensures
            r == (if self@.len() >= 8 {
                Some(u32_at(self@, 4) as u32)
            } else {
                None
            }),
    {
        let b = self.bytes.octets();
        if b.len() >= 8 {
            Some(get_u32_le(b, 4))
        } else {
            None
        }
    }
}

impl<Bytes: OctetsMut> ChannelHoppingIe<Bytes> {
    /// Sets the hopping sequence ID.
    pub fn set_hopping_sequence_id(&mut self, id: u8)
        requires
            old(self)@.len() >= 1,
        ensures
            final(self)@ == old(self)@.update(0, id),
            exists|x: &mut Bytes, w: &mut [u8]|
                {
                    &&& #[trigger] call_ensures(Bytes::octets_mut, (x,), w)
                    &&& *x == old(self).container()
                    &&& *final(x) == final(self).container()
                },
    {
        self.bytes.octets_mut()[0] = id;
    }

    /// Sets the channel page (full format only).
    pub fn set_channel_page(&mut self, page: u8)
        ensures
            final(self)@ == (if old(self)@.len() >= 2 {
                old(self)@.update(1, page)
            } else {
                old(self)@
            }),
            exists|x: &mut Bytes, w: &mut [u8]|
                {
                    &&& #[trigger] call_ensures(Bytes::octets_mut, (x,), w)
                    &&& *x == old(self).container()
                    &&& *final(x) == final(self).container()
                },
    {
        let b = self.bytes.octets_mut();
        if b.len() >= 2 {
            b[1] = page;
        }
    }

    /// Sets the number of channels (full format only).
    pub fn set_num_channels(&mut self, num: u16)
        ensures
            final(self)@ == put_field(old(self)@, 2, num),
            exists|x: &mut Bytes, w: &mut [u8]|
                {
                    &&& #[trigger] call_ensures(Bytes::octets_mut, (x,), w)
                    &&& *x == old(self).container()
                    &&& *final(x) == final(self).container()
                },
    {
        let b = self.bytes.octets_mut();
        if b.len() >= 4 {
            set_u16_le(b, 2, num);
        }
    }

    /// Sets the PHY configuration (full format only).
    pub fn set_phy_configuration(&mut self, config: u32)
        ensures
            final(self)@ == (if old(self)@.len() >= 8 {
                put_u32(old(self)@, 4, config as int)
            } else {
                old(self)@
            }),
            exists|x: &mut Bytes, w: &mut [u8]|
                {
                    &&& #[trigger] call_ensures(Bytes::octets_mut, (x,), w)
                    &&& *x == old(self).container()
                    &&& *final(x) == final(self).container()
                },
    {
        let b = self.bytes.octets_mut();
        if b.len() >= 8 {
            set_u32_le(b, 4, config);
        }
    }
}

/// Whether one of the option bits is set.
pub open spec fn has_option(options: u8, bit: u8) -> bool {
    options / bit % 2 == 1
}

/// Descriptor of a link within a TSCH slotframe and link IE (5 octets).
///
/// Format:
/// - Octets 0-1: timeslot (little-endian)
/// - Octets 2-3: channel offset (little-endian)
/// - Octet 4: link options
#[derive(Clone, Copy)]
pub struct LinkDescriptor<Bytes> {
    bytes: Bytes,
}

impl<Bytes: Octets> View for LinkDescriptor<Bytes> {
    type V = Seq<u8>;

    open spec fn view(&self) -> Seq<u8> {
        self.container().bytes()
    }
}

impl<Bytes> LinkDescriptor<Bytes> {
    /// The container of the octets.
    pub closed spec fn container(&self) -> Bytes {
        self.bytes
    }

    /// Once nothing is written any more through the descriptor, nothing is written any more
    /// to its container. If the container is borrowed, then what it was borrowed
    /// from holds what was written last.
    pub proof fn lemma_released(self)
        requires
            has_resolved(self),
        ensures
            has_resolved(self.container()),
    {
    }
}

impl<Bytes: Octets> LinkDescriptor<Bytes> {
    pub const LENGTH: usize = 5;

    /// Interprets the leading octets as the descriptor of a link.
    pub fn new(bytes: Bytes) -> (r: Option<Self>)
        ensures
            r is Some <==> bytes.bytes().len() >= 5,
            r matches Some(link) ==> link.container() == bytes,
    {
        if bytes.octets().len() < 5 {
            return None;
        }
        Some(Self { bytes })
    }

    /// Interprets octets as the descriptor of a link without any check.
    pub fn new_unchecked(bytes: Bytes) -> (r: Self)
        ensures
            r.container() == bytes,
    {
        Self { bytes }
    }

    /// Timeslot of the link.
    pub fn timeslot(&self) -> (r: u16)
        requires
            self@.len() >= 5,
        ensures
            r == u16_at(self@, 0),
    {
        get_u16_le(self.bytes.octets(), 0)
    }

    /// Channel offset of the link.
    pub fn channel_offset(&self) -> (r: u16)
        requires
            self@.len() >= 5,
        ensures
            r == u16_at(self@, 2),
    {
        get_u16_le(self.bytes.octets(), 2)
    }

    /// Options of the link.
    pub fn options(&self) -> (r: u8)
        requires
            self@.len() >= 5,
        ensures
            r == self@[4],
    {
        self.bytes.octets()[4]
    }

    /// Whether the link is used for transmission.
    pub fn is_tx(&self) -> (r: bool)
        requires
            self@.len() >= 5,
        ensures
            r <==> has_option(self@[4], link_options::TX),
    {
        self.options() / link_options::TX % 2 == 1
    }

    /// Whether the link is used for reception.
    pub fn is_rx(&self) -> (r: bool)
        requires
            self@.len() >= 5,
        ensures
            r <==> has_option(self@[4], link_options::RX),
    {
        self.options() / link_options::RX % 2 == 1
    }

    /// Whether the link is shared.
    pub fn is_shared(&self) -> (r: bool)
        requires
            self@.len() >= 5,
        ensures
            r <==> has_option(self@[4], link_options::SHARED),
    {
        self.options() / link_options::SHARED % 2 == 1
    }

    /// Whether the link is used for time synchronization.
    pub fn is_timekeeping(&self) -> (r: bool)
        requires
            self@.len() >= 5,
        ensures
            r <==> has_option(self@[4], link_options::TIMEKEEPING),
    {
        self.options() / link_options::TIMEKEEPING % 2 == 1
    }

    /// Whether the link is a priority link.
    pub fn is_priority(&self) -> (r: bool)
        requires
            self@.len() >= 5,
        ensures
            r <==> has_option(self@[4], link_options::PRIORITY),
    {
        self.options() / link_options::PRIORITY % 2 == 1
    }
}

impl<Bytes: OctetsMut> LinkDescriptor<Bytes> {
    /// Sets the timeslot.
    pub fn set_timeslot(&mut self, ts: u16)
        requires
            old(self)@.len() >= 5,
        ensures
            final(self)@ == put_u16(old(self)@, 0, ts as int),
            exists|x: &mut Bytes, w: &mut [u8]|
                {
                    &&& #[trigger] call_ensures(Bytes::octets_mut, (x,), w)
                    &&& *x == old(self).container()
                    &&& *final(x) == final(self).container()
                },
    {
        set_u16_le(self.bytes.octets_mut(), 0, ts);
    }

    /// Sets the channel offset.
    pub fn set_channel_offset(&mut self, co: u16)
        requires
            old(self)@.len() >= 5,
        ensures
            final(self)@ == put_u16(old(self)@, 2, co as int),
            exists|x: &mut Bytes, w: &mut [u8]|
                {
                    &&& #[trigger] call_ensures(Bytes::octets_mut, (x,), w)
                    &&& *x == old(self).container()
                    &&& *final(x) == final(self).container()
                },
    {
        set_u16_le(self.bytes.octets_mut(), 2, co);
    }

    /// Sets the options.
    pub fn set_options(&mut self, opts: u8)
        requires
            old(self)@.len() >= 5,
        ensures
            final(self)@ == old(self)@.update(4, opts),
            exists|x: &mut Bytes, w: &mut [u8]|
                {
                    &&& #[trigger] call_ensures(Bytes::octets_mut, (x,), w)
                    &&& *x == old(self).container()
                    &&& *final(x) == final(self).container()
                },
    {
        self.bytes.octets_mut()[4] = opts;
    }
}

/// Length of a slotframe descriptor with its links.
pub open spec fn slotframe_length(num_links: int) -> int {
    4 + 5 * num_links
}

/// Descriptor of a slotframe within a TSCH slotframe and link IE, followed by
/// the descriptors of its links.
///
/// Format:
/// - Octet 0: handle
/// - Octets 1-2: size (little-endian)
/// - Octet 3: number of links
#[derive(Clone, Copy)]
pub struct SlotframeDescriptor<Bytes> {
    bytes: Bytes,
}

impl<Bytes: Octets> View for SlotframeDescriptor<Bytes> {
    type V = Seq<u8>;

    open spec fn view(&self) -> Seq<u8> {
        self.container().bytes()
    }
}

impl<Bytes> SlotframeDescriptor<Bytes> {
    /// The container of the octets.
    pub closed spec fn container(&self) -> Bytes {
        self.bytes
    }

    /// Once nothing is written any more through the descriptor, nothing is written any more
    /// to its container. If the container is borrowed, then what it was borrowed
    /// from holds what was written last.
    pub proof fn lemma_released(self)
        requires
            has_resolved(self),
        ensures
            has_resolved(self.container()),
    {
    }
}

impl<Bytes: Octets> SlotframeDescriptor<Bytes> {
    pub const HEADER_LENGTH: usize = 4;

    /// Interprets the leading octets as the descriptor of a slotframe.
    pub fn new(bytes: Bytes) -> (r: Option<Self>)
        ensures
            r is Some <==> bytes.bytes().len() >= 4,
            r matches Some(sf) ==> sf.container() == bytes,
    {
        if bytes.octets().len() < 4 {
            return None;
        }
        Some(Self { bytes })
    }

    /// Interprets octets as the descriptor of a slotframe without any check.
    pub fn new_unchecked(bytes: Bytes) -> (r: Self)
        ensures
            r.container() == bytes,
    {
        Self { bytes }
    }

    /// Handle of the slotframe.
    pub fn handle(&self) -> (r: u8)
        requires
            self@.len() >= 4,
        ensures
            r == self@[0],
    {
        self.bytes.octets()[0]
    }

    /// Number of timeslots.
    pub fn size(&self) -> (r: u16)
        requires
            self@.len() >= 4,
        ensures
            r == u16_at(self@, 1),
    {
        get_u16_le(self.bytes.octets(), 1)
    }

    /// Number of links.
    pub fn num_links(&self) -> (r: u8)
        requires
            self@.len() >= 4,
        ensures
            r == self@[3],
    {
        self.bytes.octets()[3]
    }

    /// Length including the header and all links.
    pub fn total_length(&self) -> (r: usize)
        requires
            self@.len() >= 4,
        ensures
            r == slotframe_length(self@[3] as int),
    {
        4 + self.num_links() as usize * 5
    }

    /// Walks over the links.
    pub fn links(&self) -> (r: LinkIter<'_>)
        requires
            self@.len() >= 4,
        ensures
            r.buffer() == self@.subrange(4, links_end(self@)),
            r.left() == self@[3],
    {
        let b = self.bytes.octets();
        let links_end: usize = 4 + self.num_links() as usize * 5;
        let end: usize = if links_end <= b.len() {
            links_end
        } else {
            b.len()
        };
        LinkIter { buf: &b[4..end], remaining: self.num_links() }
    }
}

/// The offset behind the links of a slotframe, as far as they are held by the
/// buffer.
pub open spec fn links_end(s: Seq<u8>) -> int {
    if slotframe_length(s[3] as int) <= s.len() {
        slotframe_length(s[3] as int)
    } else {
        s.len() as int
    }
}

impl<Bytes: OctetsMut> SlotframeDescriptor<Bytes> {
    /// Sets the handle.
    pub fn set_handle(&mut self, handle: u8)
        requires
            old(self)@.len() >= 4,
        ensures
            final(self)@ == old(self)@.update(0, handle),
            exists|x: &mut Bytes, w: &mut [u8]|
                {
                    &&& #[trigger] call_ensures(Bytes::octets_mut, (x,), w)
                    &&& *x == old(self).container()
                    &&& *final(x) == final(self).container()
                },
    {
        self.bytes.octets_mut()[0] = handle;
    }

    /// Sets the number of timeslots.
    pub fn set_size(&mut self, size: u16)
        requires
            old(self)@.len() >= 4,
        ensures
            final(self)@ == put_u16(old(self)@, 1, size as int),
            exists|x: &mut Bytes, w: &mut [u8]|
                {
                    &&& #[trigger] call_ensures(Bytes::octets_mut, (x,), w)
                    &&& *x == old(self).container()
                    &&& *final(x) == final(self).container()
                },
    {
        set_u16_le(self.bytes.octets_mut(), 1, size);
    }

    /// Sets the number of links.
    pub fn set_num_links(&mut self, num: u8)
        requires
            old(self)@.len() >= 4,
        ensures
            final(self)@ == old(self)@.update(3, num),
            exists|x: &mut Bytes, w: &mut [u8]|
                {
                    &&& #[trigger] call_ensures(Bytes::octets_mut, (x,), w)
                    &&& *x == old(self).container()
                    &&& *final(x) == final(self).container()
                },
    {
        self.bytes.octets_mut()[3] = num;
    }

    /// Walks over the links for writing.
    pub fn links_mut(&mut self) -> (r: LinkIterMut<'_>)
        requires
            old(self)@.len() >= 4,
        ensures
            r.container()@ == old(self)@.subrange(4, links_end(old(self)@)),
            r.left() == old(self)@[3],
            final(self)@ == splice(
                old(self)@,
                4,
                links_end(old(self)@),
                (*final(r.container()))@,
            ),
            exists|x: &mut Bytes, w: &mut [u8]|
                {
                    &&& #[trigger] call_ensures(Bytes::octets_mut, (x,), w)
                    &&& *x == old(self).container()
                    &&& *final(x) == final(self).container()
                },
    {
        let num_links: u8 = self.num_links();
        let links_end: usize = 4 + num_links as usize * 5;
        let buf = self.bytes.octets_mut();
        let end: usize = if links_end <= buf.len() {
            links_end
        } else {
            buf.len()
        };
        LinkIterMut { buf: subslice_mut(buf, 4, end), remaining: num_links }
    }

    /// The link at `index` for writing.
    pub fn link_mut(&mut self, index: u8) -> (r: Option<LinkDescriptor<&mut [u8]>>)
        requires
            old(self)@.len() >= 4,
        ensures
            r is Some <==> index < old(self)@[3] && slotframe_length(index + 1) <= old(self)@.len(),
            r matches Some(link) ==> ({
                let start = slotframe_length(index as int);
                let end = slotframe_length(index + 1);
                &&& link@ == old(self)@.subrange(start, end)
                &&& final(self)@ == splice(
                    old(self)@,
                    start,
                    end,
                    (*final(link.container()))@,
                )
            }),
            r is None ==> final(self)@ == old(self)@,
            exists|x: &mut Bytes, w: &mut [u8]|
                {
                    &&& #[trigger] call_ensures(Bytes::octets_mut, (x,), w)
                    &&& *x == old(self).container()
                    &&& *final(x) == final(self).container()
                },
    {
        let num_links: u8 = self.num_links();
        let b = self.bytes.octets_mut();
        let start: usize = 4 + index as usize * 5;
        let end: usize = start + 5;
        if index >= num_links || end > b.len() {
            return None;
        }
        Some(LinkDescriptor::new_unchecked(subslice_mut(b, start, end)))
    }
}

/// Content of a TSCH slotframe and link IE.
///
/// Format:
/// - Octet 0: number of slotframes
/// - Descriptors of the slotframes
#[derive(Clone, Copy)]
pub struct TschSlotframeLinkIe<Bytes> {
    bytes: Bytes,
}

impl<Bytes> TschSlotframeLinkIe<Bytes> {
    /// The container of the octets.
    pub closed spec fn container(&self) -> Bytes {
        self.bytes
    }

    /// Once nothing is written any more through the content, nothing is written any more
    /// to its container. If the container is borrowed, then what it was borrowed
    /// from holds what was written last.
    pub proof fn lemma_released(self)
        requires
            has_resolved(self),
        ensures
            has_resolved(self.container()),
    {
    }
}

impl<Bytes: Octets> View for TschSlotframeLinkIe<Bytes> {
    type V = Seq<u8>;

    open spec fn view(&self) -> Seq<u8> {
        self.container().bytes()
    }
}

impl<Bytes: Octets> TschSlotframeLinkIe<Bytes> {
    pub const MIN_LENGTH: usize = 1;

    /// Interprets octets as the content of a TSCH slotframe and link IE.
    pub fn new(bytes: Bytes) -> (r: Option<Self>)
        ensures
            r is Some <==> bytes.bytes().len() >= 1,
            r matches Some(ie) ==> ie.container() == bytes,
    {
        if bytes.octets().len() == 0 {
            return None;
        }
        Some(Self { bytes })
    }

    /// Interprets octets as the content of a TSCH slotframe and link IE without
    /// any check.
    pub fn new_unchecked(bytes: Bytes) -> (r: Self)
        ensures
            r.container() == bytes,
    {
        Self { bytes }
    }

    /// Number of slotframes.
    pub fn num_slotframes(&self) -> (r: u8)
        requires
            self@.len() >= 1,
        ensures
            r == self@[0],
    {
        self.bytes.octets()[0]
    }

    /// Walks over the slotframe descriptors.
    pub fn slotframes(&self) -> (r: SlotframeIter<'_>)
        requires
            self@.len() >= 1,
        ensures
            r.buffer() == self@.subrange(1, self@.len() as int),
            r.left() == self@[0],
    {
        let b = self.bytes.octets();
        SlotframeIter { buf: &b[1..b.len()], slotframes_remaining: self.num_slotframes() }
    }
}

impl<Bytes: OctetsMut> TschSlotframeLinkIe<Bytes> {
    /// Sets the number of slotframes.
    pub fn set_num_slotframes(&mut self, num: u8)
        requires
            old(self)@.len() >= 1,
        ensures
            final(self)@ == old(self)@.update(0, num),
            exists|x: &mut Bytes, w: &mut [u8]|
                {
                    &&& #[trigger] call_ensures(Bytes::octets_mut, (x,), w)
                    &&& *x == old(self).container()
                    &&& *final(x) == final(self).container()
                },
    {
        self.bytes.octets_mut()[0] = num;
    }

    /// Walks over the slotframe descriptors for writing.
    pub fn slotframes_mut(&mut self) -> (r: SlotframeIterMut<'_>)
        requires
            old(self)@.len() >= 1,
        ensures
            r.container()@ == old(self)@.subrange(1, old(self)@.len() as int),
            r.left() == old(self)@[0],
            final(self)@ == old(self)@.subrange(0, 1) + (*final(r.container()))@,
            exists|x: &mut Bytes, w: &mut [u8]|
                {
                    &&& #[trigger] call_ensures(Bytes::octets_mut, (x,), w)
                    &&& *x == old(self).container()
                    &&& *final(x) == final(self).container()
                },
    {
        let num: u8 = self.num_slotframes();
        let b = self.bytes.octets_mut();
        let (_, tail) = b.split_at_mut(1);
        SlotframeIterMut { buf: tail, slotframes_remaining: num }
    }
}

/// Walks over slotframe descriptors.
pub struct SlotframeIter<'a> {
    buf: &'a [u8],
    slotframes_remaining: u8,
}

/// Whether a slotframe descriptor with all of its links is held by `b`.
pub open spec fn slotframe_complete(b: Seq<u8>) -> bool {
    b.len() >= 4 && b.len() >= slotframe_length(b[3] as int)
}

impl<'a> SlotframeIter<'a> {
    /// The octets that have not been walked over yet.
    pub closed spec fn buffer(&self) -> Seq<u8> {
        self.buf@
    }

    /// The number of slotframes that are still expected.
    pub closed spec fn left(&self) -> u8 {
        self.slotframes_remaining
    }

    /// The next slotframe, if one is expected and completely held.
    pub fn next(&mut self) -> (r: Option<SlotframeDescriptor<&'a [u8]>>)
        ensures
            r is Some <==> old(self).left() > 0 && slotframe_complete(old(self).buffer()),
            r matches Some(sf) ==> ({
                let b = old(self).buffer();
                let total = slotframe_length(b[3] as int);
                &&& sf@ == b.subrange(0, total)
                &&& final(self).buffer() == b.subrange(total, b.len() as int)
                &&& final(self).left() == old(self).left() - 1
            }),
            r is None ==> *final(self) == *old(self),
    {
        if self.slotframes_remaining == 0 || self.buf.len() < 4 {
            return None;
        }
        let sf = SlotframeDescriptor::new_unchecked(self.buf);
        let total: usize = sf.total_length();
        if self.buf.len() < total {
            return None;
        }
        let result = SlotframeDescriptor::new_unchecked(&self.buf[0..total]);
        self.buf = &self.buf[total..self.buf.len()];
        self.slotframes_remaining = self.slotframes_remaining - 1;
        Some(result)
    }
}

/// Walks over slotframe descriptors for writing.
pub struct SlotframeIterMut<'a> {
    buf: &'a mut [u8],
    slotframes_remaining: u8,
}

impl<'a> SlotframeIterMut<'a> {
    /// The octets that have not been walked over yet.
    pub closed spec fn container(&self) -> &'a mut [u8] {
        self.buf
    }

    /// Once nothing is written any more through the iterator, nothing is written any more
    /// to its container. If the container is borrowed, then what it was borrowed
    /// from holds what was written last.
    pub proof fn lemma_released(self)
        requires
            has_resolved(self),
        ensures
            has_resolved(self.container()),
    {
    }

    /// The number of slotframes that are still expected.
    pub closed spec fn left(&self) -> u8 {
        self.slotframes_remaining
    }

    /// The next slotframe, if one is expected and completely held.
    pub fn next(&mut self) -> (r: Option<SlotframeDescriptor<&mut [u8]>>)
        ensures
            r is Some <==> old(self).left() > 0 && slotframe_complete(old(self).container()@),
            r matches Some(sf) ==> ({
                let b = old(self).container()@;
                let total = slotframe_length(b[3] as int);
                &&& sf@ == b.subrange(0, total)
                &&& final(self).container()@ == b.subrange(total, b.len() as int)
                &&& (*final(old(self).container()))@ == (*final(sf.container()))@ + (*final(final(self).container()))@
                &&& final(self).left() == old(self).left() - 1
            }),
            r is None ==> *final(self) == *old(self),
    {
        if self.slotframes_remaining == 0 || self.buf.len() < 4 {
            return None;
        }
        let num_links: u8 = self.buf[3];
        let total: usize = 4 + num_links as usize * 5;
        if self.buf.len() < total {
            return None;
        }
        let mut taken: &'a mut [u8] = &mut [];
        core::mem::swap(&mut taken, &mut self.buf);
        let (current, rest) = taken.split_at_mut(total);
        self.buf = rest;
        self.slotframes_remaining = self.slotframes_remaining - 1;
        Some(SlotframeDescriptor::new_unchecked(current))
    }
}

/// Walks over the link descriptors of a slotframe.
pub struct LinkIter<'a> {
    buf: &'a [u8],
    remaining: u8,
}

impl<'a> LinkIter<'a> {
    /// The octets that have not been walked over yet.
    pub closed spec fn buffer(&self) -> Seq<u8> {
        self.buf@
    }

    /// The number of links that are still expected.
    pub closed spec fn left(&self) -> u8 {
        self.remaining
    }

    /// Walks over the links of a slotframe.
    pub fn new(slotframe: &SlotframeDescriptor<&'a [u8]>) -> (r: Self)
        requires
            slotframe@.len() >= 4,
        ensures
            r.buffer() == slotframe@.subrange(4, slotframe@.len() as int),
            r.left() == slotframe@[3],
    {
        let b: &'a [u8] = slotframe.bytes;
        Self { buf: &b[4..b.len()], remaining: slotframe.num_links() }
    }

    /// The next link, if one is expected and completely held.
    pub fn next(&mut self) -> (r: Option<LinkDescriptor<&'a [u8]>>)
        ensures
            r is Some <==> old(self).left() > 0 && old(self).buffer().len() >= 5,
            r matches Some(link) ==> ({
                let b = old(self).buffer();
                &&& link@ == b.subrange(0, 5)
                &&& final(self).buffer() == b.subrange(5, b.len() as int)
                &&& final(self).left() == old(self).left() - 1
            }),
            r is None ==> *final(self) == *old(self),
    {
        if self.remaining == 0 || self.buf.len() < 5 {
            return None;
        }
        let link = LinkDescriptor::new_unchecked(&self.buf[0..5]);
        self.buf = &self.buf[5..self.buf.len()];
        self.remaining = self.remaining - 1;
        Some(link)
    }
}

/// Walks over the link descriptors of a slotframe for writing.
pub struct LinkIterMut<'a> {
    buf: &'a mut [u8],
    remaining: u8,
}

impl<'a> LinkIterMut<'a> {
    /// The octets that have not been walked over yet.
    pub closed spec fn container(&self) -> &'a mut [u8] {
        self.buf
    }

    /// Once nothing is written any more through the iterator, nothing is written any more
    /// to its container. If the container is borrowed, then what it was borrowed
    /// from holds what was written last.
    pub proof fn lemma_released(self)
        requires
            has_resolved(self),
        ensures
            has_resolved(self.container()),
    {
    }

    /// The number of links that are still expected.
    pub closed spec fn left(&self) -> u8 {
        self.remaining
    }

    /// The next link, if one is expected and completely held.
    pub fn next(&mut self) -> (r: Option<LinkDescriptor<&mut [u8]>>)
        ensures
            r is Some <==> old(self).left() > 0 && old(self).container()@.len() >= 5,
            r matches Some(link) ==> ({
                let b = old(self).container()@;
                &&& link@ == b.subrange(0, 5)
                &&& final(self).container()@ == b.subrange(5, b.len() as int)
                &&& (*final(old(self).container()))@ == (*final(link.container()))@ + (*final(final(self).container()))@
                &&& final(self).left() == old(self).left() - 1
            }),
            r is None ==> *final(self) == *old(self),
    {
        if self.remaining == 0 || self.buf.len() < 5 {
            return None;
        }
        let mut taken: &'a mut [u8] = &mut [];
        core::mem::swap(&mut taken, &mut self.buf);
        let (current, rest) = taken.split_at_mut(5);
        self.buf = rest;
        self.remaining = self.remaining - 1;
        Some(LinkDescriptor::new_unchecked(current))
    }
}

} // verus!
