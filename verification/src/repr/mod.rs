//! Structural representations of MPDU fields.
//!
//! A representation holds just enough to calculate the offsets and lengths of
//! fields.

pub mod ies;
pub mod laws;
pub mod mpdu;
