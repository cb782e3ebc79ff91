//! Frame fields that the radio driver has to know about.

pub mod address_text;
pub mod addressing;
pub mod addressing_fields;
pub mod addressing_laws;
pub mod addressing_repr;
pub mod buffer_laws;
pub mod control_laws;
pub mod driver_config;
pub mod frame_control;
pub mod incoming;
pub mod radio_frame;
pub mod repr;
