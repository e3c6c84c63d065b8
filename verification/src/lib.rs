//! Process and thread lifecycle, round-robin scheduling and message passing
//! for a small cooperative kernel.

pub mod hal;
pub mod kernel;
