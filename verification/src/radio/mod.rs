//! Radio tasks and the transitions between them.

pub mod laws;
pub mod tasks;
pub mod timer;
pub mod transition;
