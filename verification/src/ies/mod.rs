//! Information elements (IEs).

pub mod descriptor;
pub mod header;
pub mod header_ie_id;
pub mod ie_laws;
pub mod link_options;
pub mod nested;
pub mod nested_ie_id;
pub mod payload;
pub mod payload_ie_id;
pub mod span;
pub mod timeslot_timings;
pub mod tsch;
pub mod tsch_laws;
