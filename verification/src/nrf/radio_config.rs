//! Configuration of the radio.

use vstd::prelude::*;

use crate::frame::driver_config::{config_valid, DriverConfig, RadioFrameSized, RadioFrameUnsized};
use crate::frame::radio_frame::RadioFrame;
use crate::octets::{Octets, OctetsMut};

verus! {

/// Length of the FCS, which is handled by the radio.
pub const FCS_LEN: u8 = 2;

/// The structure of the frame buffers of the radio.
///
/// The headroom holds the PHY header, which is the length of the frame. The
/// tailroom is for the FCS.
#[derive(Clone, Copy, Debug)]
pub struct NrfRadioDriver;

impl DriverConfig for NrfRadioDriver {
    const HEADROOM: u8 = 1;

    const TAILROOM: u8 = 2;

    const MAX_SDU_LENGTH: u16 = 125;

    const FCS_LENGTH: u8 = 0;
}

/// The frame buffers of the radio are consistent and hold the longest frame of
/// the PHY together with its header.
pub proof fn lemma_nrf_config()
    ensures
        config_valid::<NrfRadioDriver>(),
        NrfRadioDriver::HEADROOM + NrfRadioDriver::MAX_SDU_LENGTH + NrfRadioDriver::TAILROOM == 1
            + 127,
{
}

/// A frame buffer of the driver holds the PHY header before the MPDU and the FCS, which
/// the radio adds, behind it. An MPDU with its FCS has up to 127 octets.
pub proof fn lemma_driver_buffer()
    ensures
        NrfRadioDriver::HEADROOM == 1,
        NrfRadioDriver::TAILROOM == 2,
        NrfRadioDriver::MAX_SDU_LENGTH + NrfRadioDriver::TAILROOM == 127,
        NrfRadioDriver::FCS_LENGTH == 0,
{
}

/// The offset in MHz from 2400 MHz of a channel of the 2.4 GHz band.
pub fn frequency_offset(channel: u8) -> (r: u8)
    requires
        11 <= channel <= 26,
    ensures
        r == 5 * (channel - 10),
        5 <= r <= 80,
{
    (channel - 10) * 5
}

/// Whether the radio supports a transmission power in dBm.
pub open spec fn tx_power_supported(power: i8) -> bool {
    ||| 2 <= power <= 8
    ||| power == 0
    ||| power == -4
    ||| power == -8
    ||| power == -12
    ||| power == -16
    ||| power == -20
    ||| power == -40
}

/// The register value for a transmission power in dBm, if the radio supports it:
/// its two's complement with eight bits.
pub fn tx_power_value(power: i8) -> (r: Option<u8>)
    ensures
        r is Some <==> tx_power_supported(power),
        r matches Some(value) ==> value == power as int % 0x100,
{
    match power {
        8 => Some(8),
        7 => Some(7),
        6 => Some(6),
        5 => Some(5),
        4 => Some(4),
        3 => Some(3),
        2 => Some(2),
        0 => Some(0),
        -4 => Some(252),
        -8 => Some(248),
        -12 => Some(244),
        -16 => Some(240),
        -20 => Some(236),
        -40 => Some(216),
        _ => None,
    }
}

/// The value of four octets in big-endian order.
pub open spec fn be_value(s: Seq<u8>) -> int {
    0x100_0000 * s[0] + 0x1_0000 * s[1] + 0x100 * s[2] + s[3]
}

/// The extended address of the device in big-endian order, made of the two words
/// of its ID.
pub fn ieee802154_address(id1: u32, id2: u32) -> (r: [u8; 8])
    ensures
        be_value(r@.subrange(0, 4)) == id1,
        be_value(r@.subrange(4, 8)) == id2,
{
    [
        (id1 / 0x100_0000) as u8,
        (id1 / 0x1_0000 % 0x100) as u8,
        (id1 / 0x100 % 0x100) as u8,
        (id1 % 0x100) as u8,
        (id2 / 0x100_0000) as u8,
        (id2 / 0x1_0000 % 0x100) as u8,
        (id2 / 0x100 % 0x100) as u8,
        (id2 % 0x100) as u8,
    ]
}

/// Writes the PHY header of a frame that is to be sent: the length of the frame
/// with its FCS.
pub fn prepare_tx_frame<Buffer: OctetsMut>(frame: &mut RadioFrame<Buffer, RadioFrameSized>)
    requires
        old(frame).wf(),
        old(frame).sdu_end_wo_fcs() - old(frame).sdu_start() <= 125,
        old(frame)@.len() > 0,
    ensures
        final(frame)@ == old(frame)@.update(
            0,
            (old(frame).sdu_end_wo_fcs() - old(frame).sdu_start() + 2) as u8,
        ),
        final(frame).sdu_start() == old(frame).sdu_start(),
        final(frame).sdu_end_wo_fcs() == old(frame).sdu_end_wo_fcs(),
        final(frame).sdu_end() == old(frame).sdu_end(),
        exists|x: &mut Buffer, w: &mut [u8]|
            {
                &&& #[trigger] call_ensures(Buffer::octets_mut, (x,), w)
                &&& *x == old(frame).container()
                &&& *final(x) == final(frame).container()
            },
{
    let sdu_length: u8 = frame.sdu_wo_fcs_length() as u8 + FCS_LEN;
    let pdu = frame.pdu_mut();
    pdu[0] = sdu_length;
}

/// The length of a received frame without its FCS according to its PHY header.
pub open spec fn received_length(pdu: Seq<u8>) -> int {
    pdu[0] - 2
}

/// A received frame gets the length that its PHY header tells.
pub fn received_frame<Buffer: Octets>(frame: RadioFrame<Buffer, RadioFrameUnsized>) -> (r:
    RadioFrame<Buffer, RadioFrameSized>)
    requires
        frame.wf(),
        frame@.len() > 0,
        0 < received_length(frame@) <= frame.sdu_end_wo_fcs() - frame.sdu_start(),
    ensures
        r.wf(),
        r.container() == frame.container(),
        r.sdu_start() == frame.sdu_start(),
        r.sdu_end_wo_fcs() == frame.sdu_start() + received_length(frame@),
        r.sdu_end() - r.sdu_end_wo_fcs() == frame.sdu_end() - frame.sdu_end_wo_fcs(),
{
    let sdu_length_wo_fcs: u16 = frame.pdu_ref()[0] as u16 - FCS_LEN as u16;
    frame.with_size(sdu_length_wo_fcs)
}

/// A received frame has the length that the sender wrote into the PHY header.
pub proof fn lemma_length_round_trip(sent: Seq<u8>, length_wo_fcs: int)
    requires
        sent.len() > 0,
        0 < length_wo_fcs <= 125,
    ensures
        received_length(sent.update(0, (length_wo_fcs + 2) as u8)) == length_wo_fcs,
{
}

/// How a reception ends.
#[derive(Clone, Copy, Debug, PartialEq, Eq, Structural)]
pub enum RxCompletion {
    /// The frame is handed over.
    Frame,
    /// The buffer is handed over without a frame.
    CrcError,
    /// The next frame is received into the same buffer. Tells whether the
    /// receiver has to be started.
    Rollback { restart: bool },
}

/// How a reception ends that may be followed by another one. A corrupt frame is
/// ignored if that is asked for. The receiver is started again unless the radio
/// does that itself.
pub fn rx_completion(crc_ok: bool, rollback_on_crcerror: bool, back_to_back: bool) -> (r:
    RxCompletion)
    ensures
        r is Frame <==> crc_ok,
        r is Rollback <==> !crc_ok && rollback_on_crcerror,
        r matches RxCompletion::Rollback { restart } ==> restart == !back_to_back,
{
    if crc_ok {
        RxCompletion::Frame
    } else if rollback_on_crcerror {
        RxCompletion::Rollback { restart: !back_to_back }
    } else {
        RxCompletion::CrcError
    }
}

} // verus!
