//! Decisions of the driver for the nRF52840.

pub mod clock;
pub mod entry;
pub mod executor;
pub mod frame_info;
pub mod high_precision;
pub mod schedule_laws;
pub mod listening;
pub mod ppi;
pub mod radio_config;
pub mod radio_timing;
pub mod reception_laws;
pub mod rtc;
pub mod schedule;
pub mod setup;
pub mod ticks;
pub mod timer_laws;
