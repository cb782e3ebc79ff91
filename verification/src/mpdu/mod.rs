//! MPDU frames.

pub mod ack;
pub mod beacon;
pub mod frame;
pub mod kinds;
