//! Access to the fields of an MPDU.

pub mod build_laws;
pub mod field_ranges;
pub mod ie_laws;
pub mod ie_layout;
pub mod ie_scan;
pub mod ies;
pub mod mpdu;
pub mod mpdu_writer;
pub mod parse_laws;
pub mod range_laws;
