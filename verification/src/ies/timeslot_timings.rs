//! Timings of TSCH timeslots.

use vstd::prelude::*;

use crate::text::{append_decimal, append_spaces, decimal, spaces};

verus! {

/// Timings of a TSCH timeslot in microseconds.
///
/// The timeslot with the ID zero has the default timings.
#[derive(Clone, Copy, Debug, PartialEq, Eq, Structural)]
pub struct TschTimeslotTimings {
    /// ID of the timeslot.
    pub id: u8,
    /// Offset of the CCA from the start of the timeslot.
    pub cca_offset: u16,
    /// Duration of the CCA.
    pub cca: u16,
    /// Offset of the transmission from the start of the timeslot.
    pub tx_offset: u16,
    /// Offset of the reception from the start of the timeslot.
    pub rx_offset: u16,
    /// Time between the end of the transmission and the reception of the acknowledgment.
    pub rx_ack_delay: u16,
    /// Time between the end of the reception and the transmission of the acknowledgment.
    pub tx_ack_delay: u16,
    /// Maximum time to wait for a frame.
    pub rx_wait: u16,
    /// Maximum time to wait for an acknowledgment.
    pub ack_wait: u16,
    /// Radio turnaround time.
    pub rx_tx: u16,
    /// Maximum duration of the transmission of an acknowledgment.
    pub max_ack: u16,
    /// Maximum duration of the transmission of a frame.
    pub max_tx: u16,
    /// Length of the timeslot.
    pub timeslot_length: u16,
}

impl Default for TschTimeslotTimings {
    fn default() -> (r: Self)
        ensures
            r == default_timings(0, 2200),
    {
        Self::new(0, Self::DEFAULT_GUARD_TIME)
    }
}

/// The timings of a timeslot with the given ID and guard time.
pub open spec fn default_timings(id: u8, guard_time: u16) -> TschTimeslotTimings {
    TschTimeslotTimings {
        id,
        cca_offset: 1800,
        cca: 128,
        tx_offset: 2120,
        rx_offset: (2120 - guard_time as int / 2) as u16,
        rx_ack_delay: 800,
        tx_ack_delay: 1000,
        rx_wait: guard_time,
        ack_wait: 400,
        rx_tx: 192,
        max_ack: 2400,
        max_tx: 4256,
        timeslot_length: 10000,
    }
}

impl TschTimeslotTimings {
    /// The default guard time.
    pub const DEFAULT_GUARD_TIME: u16 = 2200;

    /// Creates the timings of a timeslot with the given guard time: the reception
    /// starts half of it before the transmission and waits all of it.
    pub fn new(id: u8, guard_time: u16) -> (r: Self)
        requires
            guard_time / 2 <= 2120,
        ensures
            r == default_timings(id, guard_time),
    {
        Self {
            id,
            cca_offset: 1800,
            cca: 128,
            tx_offset: 2120,
            rx_offset: 2120 - (guard_time / 2),
            rx_ack_delay: 800,
            tx_ack_delay: 1000,
            rx_wait: guard_time,
            ack_wait: 400,
            rx_tx: 192,
            max_ack: 2400,
            max_tx: 4256,
            timeslot_length: 10000,
        }
    }

    /// ID of the timeslot.
    pub fn id(&self) -> (r: u8)
        ensures
            r == self.id,
    {
        self.id
    }

    /// Offset of the CCA from the start of the timeslot.
    pub fn cca_offset(&self) -> (r: u16)
        ensures
            r == self.cca_offset,
    {
        self.cca_offset
    }

    /// Sets the offset of the CCA from the start of the timeslot.
    pub fn set_cca_offset(&mut self, cca_offset: u16)
        ensures
            *final(self) == (TschTimeslotTimings { cca_offset, ..*old(self) }),
    {
        self.cca_offset = cca_offset;
    }

    /// Duration of the CCA.
    pub fn cca(&self) -> (r: u16)
        ensures
            r == self.cca,
    {
        self.cca
    }

    /// Sets the duration of the CCA.
    pub fn set_cca(&mut self, cca: u16)
        ensures
            *final(self) == (TschTimeslotTimings { cca, ..*old(self) }),
    {
        self.cca = cca;
    }

    /// Offset of the transmission from the start of the timeslot.
    pub fn tx_offset(&self) -> (r: u16)
        ensures
            r == self.tx_offset,
    {
        self.tx_offset
    }

    /// Sets the offset of the transmission from the start of the timeslot.
    pub fn set_tx_offset(&mut self, tx_offset: u16)
        ensures
            *final(self) == (TschTimeslotTimings { tx_offset, ..*old(self) }),
    {
        self.tx_offset = tx_offset;
    }

    /// Offset of the reception from the start of the timeslot.
    pub fn rx_offset(&self) -> (r: u16)
        ensures
            r == self.rx_offset,
    {
        self.rx_offset
    }

    /// Sets the offset of the reception from the start of the timeslot.
    pub fn set_rx_offset(&mut self, rx_offset: u16)
        ensures
            *final(self) == (TschTimeslotTimings { rx_offset, ..*old(self) }),
    {
        self.rx_offset = rx_offset;
    }

    /// Time between the end of the transmission and the reception of the acknowledgment.
    pub fn rx_ack_delay(&self) -> (r: u16)
        ensures
            r == self.rx_ack_delay,
    {
        self.rx_ack_delay
    }

    /// Sets the time between the end of the transmission and the reception of the acknowledgment.
    pub fn set_rx_ack_delay(&mut self, rx_ack_delay: u16)
        ensures
            *final(self) == (TschTimeslotTimings { rx_ack_delay, ..*old(self) }),
    {
        self.rx_ack_delay = rx_ack_delay;
    }

    /// Time between the end of the reception and the transmission of the acknowledgment.
    pub fn tx_ack_delay(&self) -> (r: u16)
        ensures
            r == self.tx_ack_delay,
    {
        self.tx_ack_delay
    }

    /// Sets the time between the end of the reception and the transmission of the acknowledgment.
    pub fn set_tx_ack_delay(&mut self, tx_ack_delay: u16)
        ensures
            *final(self) == (TschTimeslotTimings { tx_ack_delay, ..*old(self) }),
    {
        self.tx_ack_delay = tx_ack_delay;
    }

    /// Maximum time to wait for a frame.
    pub fn rx_wait(&self) -> (r: u16)
        ensures
            r == self.rx_wait,
    {
        self.rx_wait
    }

    /// Sets the maximum time to wait for a frame.
    pub fn set_rx_wait(&mut self, rx_wait: u16)
        ensures
            *final(self) == (TschTimeslotTimings { rx_wait, ..*old(self) }),
    {
        self.rx_wait = rx_wait;
    }

    /// Maximum time to wait for an acknowledgment.
    pub fn ack_wait(&self) -> (r: u16)
        ensures
            r == self.ack_wait,
    {
        self.ack_wait
    }

    /// Sets the maximum time to wait for an acknowledgment.
    pub fn set_ack_wait(&mut self, ack_wait: u16)
        ensures
            *final(self) == (TschTimeslotTimings { ack_wait, ..*old(self) }),
    {
        self.ack_wait = ack_wait;
    }

    /// Radio turnaround time.
    pub fn rx_tx(&self) -> (r: u16)
        ensures
            r == self.rx_tx,
    {
        self.rx_tx
    }

    /// Sets the radio turnaround time.
    pub fn set_rx_tx(&mut self, rx_tx: u16)
        ensures
            *final(self) == (TschTimeslotTimings { rx_tx, ..*old(self) }),
    {
        self.rx_tx = rx_tx;
    }

    /// Maximum duration of the transmission of an acknowledgment.
    pub fn max_ack(&self) -> (r: u16)
        ensures
            r == self.max_ack,
    {
        self.max_ack
    }

    /// Sets the maximum duration of the transmission of an acknowledgment.
    pub fn set_max_ack(&mut self, max_ack: u16)
        ensures
            *final(self) == (TschTimeslotTimings { max_ack, ..*old(self) }),
    {
        self.max_ack = max_ack;
    }

    /// Maximum duration of the transmission of a frame.
    pub fn max_tx(&self) -> (r: u16)
        ensures
            r == self.max_tx,
    {
        self.max_tx
    }

    /// Sets the maximum duration of the transmission of a frame.
    pub fn set_max_tx(&mut self, max_tx: u16)
        ensures
            *final(self) == (TschTimeslotTimings { max_tx, ..*old(self) }),
    {
        self.max_tx = max_tx;
    }

    /// Length of the timeslot.
    pub fn timeslot_length(&self) -> (r: u16)
        ensures
            r == self.timeslot_length,
    {
        self.timeslot_length
    }

    /// Sets the length of the timeslot.
    pub fn set_timeslot_length(&mut self, timeslot_length: u16)
        ensures
            *final(self) == (TschTimeslotTimings { timeslot_length, ..*old(self) }),
    {
        self.timeslot_length = timeslot_length;
    }

    /// The timings as text, one per line. All lines but the first are indented.
    pub fn to_text(&self, indent: usize) -> (r: String)
        ensures
            r@ == timings_text(*self, indent as nat),
    {
        let mut text = "".to_owned();
        proof {
            reveal_strlit("");
        }
        append_line(&mut text, 0, "cca_offset: ", self.cca_offset);
        append_line(&mut text, indent, "cca: ", self.cca);
        append_line(&mut text, indent, "tx offset: ", self.tx_offset);
        append_line(&mut text, indent, "rx offset: ", self.rx_offset);
        append_line(&mut text, indent, "tx ack delay: ", self.tx_ack_delay);
        append_line(&mut text, indent, "rx ack delay: ", self.rx_ack_delay);
        append_line(&mut text, indent, "rx wait: ", self.rx_wait);
        append_line(&mut text, indent, "ack wait: ", self.ack_wait);
        append_line(&mut text, indent, "rx/tx: ", self.rx_tx);
        append_line(&mut text, indent, "max ack: ", self.max_ack);
        append_line(&mut text, indent, "max tx: ", self.max_tx);
        append_line(&mut text, indent, "timeslot length: ", self.timeslot_length);
        assert(text@ =~= timings_text(*self, indent as nat));
        text
    }
}

/// A line with a labelled number.
pub open spec fn line(indent: nat, label: Seq<char>, value: u16) -> Seq<char> {
    spaces(indent) + label + decimal(value as nat) + seq!['\n']
}

/// The timings as text, one per line. All lines but the first are indented.
pub open spec fn timings_text(t: TschTimeslotTimings, indent: nat) -> Seq<char> {
    line(0, "cca_offset: "@, t.cca_offset)
        + line(indent, "cca: "@, t.cca)
        + line(indent, "tx offset: "@, t.tx_offset)
        + line(indent, "rx offset: "@, t.rx_offset)
        + line(indent, "tx ack delay: "@, t.tx_ack_delay)
        + line(indent, "rx ack delay: "@, t.rx_ack_delay)
        + line(indent, "rx wait: "@, t.rx_wait)
        + line(indent, "ack wait: "@, t.ack_wait)
        + line(indent, "rx/tx: "@, t.rx_tx)
        + line(indent, "max ack: "@, t.max_ack)
        + line(indent, "max tx: "@, t.max_tx)
        + line(indent, "timeslot length: "@, t.timeslot_length)
}

/// Appends a line with a labelled number.
fn append_line(text: &mut String, indent: usize, label: &str, value: u16)
    ensures
        final(text)@ == old(text)@ + line(indent as nat, label@, value),
{
    append_spaces(text, indent);
    text.append(label);
    append_decimal(text, value);
    proof {
        reveal_strlit("\n");
    }
    text.append("\n");
    assert(text@ =~= old(text)@ + line(indent as nat, label@, value));
}

} // verus!
