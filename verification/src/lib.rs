//! IEEE 802.15.4 frames, information elements and radio scheduling.

use vstd::prelude::*;

pub mod config;
pub mod constants;
pub mod fields;
pub mod frame;
pub mod ies;
pub mod mpdu;
pub mod net;
pub mod net_laws;
pub mod nrf;
pub mod octets;
pub mod phy;
pub mod radio;
pub mod repr;
pub mod states;
pub mod tasks;
pub mod text;
pub mod text_laws;
pub mod time;

verus! {

/// The error of every operation that can only fail in one way.
#[derive(Clone, Copy, Debug, PartialEq, Eq, Structural)]
pub struct Error;

} // verus!
