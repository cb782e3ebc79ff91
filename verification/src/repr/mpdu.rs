//! Structural representation of an MPDU.

use vstd::prelude::*;

use core::marker::PhantomData;

use crate::frame::addressing_repr::AddressingRepr;
use crate::frame::driver_config::{config_valid, DriverConfig};
use crate::repr::ies::IeListRepr;
use crate::states::{
    MpduNoFields, MpduWithAddressing, MpduWithFrameControl, MpduWithIes, MpduWithSecurity,
};
use crate::Error;

verus! {

/// Whether an MPDU has a sequence number.
#[derive(Clone, Copy, Debug, PartialEq, Eq, Structural)]
pub enum SeqNrRepr {
    Yes,
    No,
}

impl SeqNrRepr {
    /// The length of the sequence number field.
    pub open spec fn octets(self) -> int {
        match self {
            SeqNrRepr::Yes => 1,
            SeqNrRepr::No => 0,
        }
    }
}

/// Structural representation of the security related fields.
#[derive(Clone, Copy, Debug, PartialEq, Eq, Structural)]
pub struct SecurityRepr {
    aux_sec_header_length: u8,
    mic_length: u8,
}

impl SecurityRepr {
    /// The length of the auxiliary security header.
    pub closed spec fn aux_octets(&self) -> int {
        self.aux_sec_header_length as int
    }

    /// The length of the message integrity code (MIC).
    pub closed spec fn mic_octets(&self) -> int {
        self.mic_length as int
    }

    /// Creates a representation from the length of the auxiliary security header
    /// and the length of the MIC.
    pub fn new(aux_sec_header_length: u8, mic_length: u8) -> (r: Self)
        ensures
            r.aux_octets() == aux_sec_header_length,
            r.mic_octets() == mic_length,
    {
        Self { aux_sec_header_length, mic_length }
    }

    /// The length of the auxiliary security header.
    pub fn aux_sec_header_length(&self) -> (r: u8)
        ensures
            r == self.aux_octets(),
    {
        self.aux_sec_header_length
    }

    /// The length of the MIC.
    pub fn mic_length(&self) -> (r: u8)
        ensures
            r == self.mic_octets(),
    {
        self.mic_length
    }
}

/// The lengths of the security related fields can be told with eight bits.
pub proof fn lemma_security_lengths(security: SecurityRepr)
    ensures
        0 <= security.aux_octets() <= u8::MAX,
        0 <= security.mic_octets() <= u8::MAX,
{
}

/// Structural representation of an MPDU.
#[derive(Debug)]
pub struct MpduRepr<'repr, State> {
    seq_nr: SeqNrRepr,
    addressing: Option<AddressingRepr>,
    security: Option<SecurityRepr>,
    ies: IeListRepr<'repr>,
    state: PhantomData<State>,
}

/// The lengths of the fields of an MPDU between the frame control field and the
/// FCS.
pub struct MpduLengths {
    pub seq_nr: int,
    pub addressing: int,
    pub aux_sec_header: int,
    pub ies: int,
    pub frame_payload: int,
    pub mic: int,
}

impl MpduLengths {
    /// The length of the MPDU without its FCS.
    pub open spec fn total(&self) -> int {
        2 + self.seq_nr + self.addressing + self.aux_sec_header + self.ies + self.frame_payload
            + self.mic
    }
}

impl<'repr, State> MpduRepr<'repr, State> {
    /// Whether there is a sequence number.
    pub closed spec fn seq(&self) -> SeqNrRepr {
        self.seq_nr
    }

    /// The addressing fields, if there are any.
    pub closed spec fn addr(&self) -> Option<AddressingRepr> {
        self.addressing
    }

    /// The security related fields, if there are any.
    pub closed spec fn sec(&self) -> Option<SecurityRepr> {
        self.security
    }

    /// The IEs.
    pub closed spec fn ie_list(&self) -> IeListRepr<'repr> {
        self.ies
    }

    /// The lengths of the fields, if the addressing is valid and the IEs are
    /// consistent with the presence of a frame payload.
    pub open spec fn lengths(&self, frame_payload_length: int) -> Option<MpduLengths> {
        let addressing = match self.addr() {
            Some(addressing) => addressing.total_length(),
            None => Some(0),
        };
        match (addressing, self.ie_list().total_length(frame_payload_length > 0)) {
            (Some(addressing), Some(ies)) => Some(
                MpduLengths {
                    seq_nr: self.seq().octets(),
                    addressing,
                    aux_sec_header: match self.sec() {
                        Some(security) => security.aux_octets(),
                        None => 0,
                    },
                    ies,
                    frame_payload: frame_payload_length,
                    mic: match self.sec() {
                        Some(security) => security.mic_octets(),
                        None => 0,
                    },
                },
            ),
            _ => None,
        }
    }
}

impl<'repr, State> MpduRepr<'repr, State> {
    /// Whether there is a sequence number.
    pub fn seq_nr(&self) -> (r: SeqNrRepr)
        ensures
            r == self.seq(),
    {
        self.seq_nr
    }

    /// The addressing fields, if there are any.
    pub fn addressing(&self) -> (r: Option<AddressingRepr>)
        ensures
            r == self.addr(),
    {
        self.addressing
    }

    /// The security related fields, if there are any.
    pub fn security(&self) -> (r: Option<SecurityRepr>)
        ensures
            r == self.sec(),
    {
        self.security
    }

    /// The IEs.
    pub fn ies(&self) -> (r: IeListRepr<'repr>)
        ensures
            r == self.ie_list(),
    {
        self.ies
    }
}

impl<'repr> MpduRepr<'repr, MpduNoFields> {
    /// Starts with an MPDU without any fields.
    pub fn new() -> (r: Self)
        ensures
            r.seq() == SeqNrRepr::No,
            r.addr() is None,
            r.sec() is None,
            r.ie_list() is Empty,
    {
        MpduRepr {
            seq_nr: SeqNrRepr::No,
            addressing: None,
            security: None,
            ies: IeListRepr::Empty,
            state: PhantomData,
        }
    }

    /// Adds the frame control field and possibly the sequence number.
    pub fn with_frame_control(self, seq_nr: SeqNrRepr) -> (r: MpduRepr<'repr, MpduWithFrameControl>)
        ensures
            r.seq() == seq_nr,
            r.addr() == self.addr(),
            r.sec() == self.sec(),
            r.ie_list() == self.ie_list(),
    {
        MpduRepr {
            seq_nr,
            addressing: self.addressing,
            security: self.security,
            ies: self.ies,
            state: PhantomData,
        }
    }
}

impl<'repr> MpduRepr<'repr, MpduWithFrameControl> {
    /// Adds addressing fields.
    pub fn with_addressing(self, addressing: AddressingRepr) -> (r: MpduRepr<
        'repr,
        MpduWithAddressing,
    >)
        ensures
            r.seq() == self.seq(),
            r.addr() == Some(addressing),
            r.sec() == self.sec(),
            r.ie_list() == self.ie_list(),
    {
        MpduRepr {
            seq_nr: self.seq_nr,
            addressing: Some(addressing),
            security: self.security,
            ies: self.ies,
            state: PhantomData,
        }
    }

    /// Adds no addressing fields.
    pub fn without_addressing(self) -> (r: MpduRepr<'repr, MpduWithAddressing>)
        ensures
            r.seq() == self.seq(),
            r.addr() is None,
            r.sec() == self.sec(),
            r.ie_list() == self.ie_list(),
    {
        MpduRepr {
            seq_nr: self.seq_nr,
            addressing: None,
            security: self.security,
            ies: self.ies,
            state: PhantomData,
        }
    }
}

impl<'repr> MpduRepr<'repr, MpduWithAddressing> {
    /// Adds security related fields.
    pub fn with_security(self, security: SecurityRepr) -> (r: MpduRepr<'repr, MpduWithSecurity>)
        ensures
            r.seq() == self.seq(),
            r.addr() == self.addr(),
            r.sec() == Some(security),
            r.ie_list() == self.ie_list(),
    {
        MpduRepr {
            seq_nr: self.seq_nr,
            addressing: self.addressing,
            security: Some(security),
            ies: self.ies,
            state: PhantomData,
        }
    }

    /// Adds no security related fields.
    pub fn without_security(self) -> (r: MpduRepr<'repr, MpduWithSecurity>)
        ensures
            r.seq() == self.seq(),
            r.addr() == self.addr(),
            r.sec() is None,
            r.ie_list() == self.ie_list(),
    {
        MpduRepr {
            seq_nr: self.seq_nr,
            addressing: self.addressing,
            security: None,
            ies: self.ies,
            state: PhantomData,
        }
    }
}

impl<'repr> MpduRepr<'repr, MpduWithSecurity> {
    /// Adds IEs.
    pub fn with_ies(self, ies: IeListRepr<'repr>) -> (r: MpduRepr<'repr, MpduWithIes>)
        ensures
            r.seq() == self.seq(),
            r.addr() == self.addr(),
            r.sec() == self.sec(),
            r.ie_list() == ies,
    {
        MpduRepr {
            seq_nr: self.seq_nr,
            addressing: self.addressing,
            security: self.security,
            ies,
            state: PhantomData,
        }
    }

    /// Adds no IEs.
    pub fn without_ies(self) -> (r: MpduRepr<'repr, MpduWithIes>)
        ensures
            r.seq() == self.seq(),
            r.addr() == self.addr(),
            r.sec() == self.sec(),
            r.ie_list() is Empty,
    {
        MpduRepr {
            seq_nr: self.seq_nr,
            addressing: self.addressing,
            security: self.security,
            ies: IeListRepr::Empty,
            state: PhantomData,
        }
    }
}

impl<'repr> MpduRepr<'repr, MpduWithIes> {
    /// The length of the MPDU without its FCS, if it has a frame payload of the
    /// given length.
    ///
    /// # Errors
    ///
    /// Fails if the addressing is invalid, if the IEs are not consistent with
    /// the presence of a frame payload, or if the length cannot be told with 16
    /// bits.
    pub fn mpdu_length_wo_fcs(&self, frame_payload_length: u16) -> (r: Result<u16, Error>)
        requires
            self.ie_list().wf(frame_payload_length > 0),
        ensures
            r is Ok <==> (self.lengths(frame_payload_length as int) matches Some(lengths)
                && lengths.total() <= u16::MAX),
            r matches Ok(length) ==> length == self.lengths(frame_payload_length as int)->0.total()
                && length >= 2,
    {
        let seq_nr: u32 = match self.seq_nr {
            SeqNrRepr::Yes => 1,
            SeqNrRepr::No => 0,
        };
        let addressing: u32 = match &self.addressing {
            Some(addressing) => match addressing.addressing_fields_length() {
                Ok(length) => length as u32,
                Err(_) => return Err(Error),
            },
            None => 0,
        };
        let security: u32 = match &self.security {
            Some(security) => security.aux_sec_header_length() as u32 + security.mic_length() as u32,
            None => 0,
        };
        let ies: u32 = match self.ies.ies_length(frame_payload_length > 0) {
            Ok(length) => length as u32,
            Err(_) => return Err(Error),
        };
        let total: u32 = 2 + seq_nr + addressing + security + ies + frame_payload_length as u32;
        if total <= 0xffff {
            Ok(total as u16)
        } else {
            Err(Error)
        }
    }

    /// The length of a buffer for the MPDU.
    ///
    /// # Errors
    ///
    /// Fails if the length of the MPDU cannot be told or exceeds what the driver
    /// allows.
    pub fn min_buffer_size<Config: DriverConfig>(&self, frame_payload_length: u16) -> (r: Result<
        u16,
        Error,
    >)
        requires
            config_valid::<Config>(),
            self.ie_list().wf(frame_payload_length > 0),
        ensures
            r is Ok <==> (self.lengths(frame_payload_length as int) matches Some(lengths)
                && lengths.total() + Config::FCS_LENGTH <= Config::MAX_SDU_LENGTH),
            r matches Ok(size) ==> size == Config::HEADROOM + self.lengths(
                frame_payload_length as int,
            )->0.total() + Config::FCS_LENGTH + Config::TAILROOM,
    {
        match self.mpdu_length_wo_fcs(frame_payload_length) {
            Ok(length) => {
                if length as u32 + Config::FCS_LENGTH as u32 > Config::MAX_SDU_LENGTH as u32 {
                    return Err(Error);
                }
                Ok(
                    Config::HEADROOM as u16 + length + Config::FCS_LENGTH as u16
                        + Config::TAILROOM as u16,
                )
            },
            Err(_) => Err(Error),
        }
    }
}

} // verus!
