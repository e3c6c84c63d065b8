//! Platform-specific device sets.

pub mod ryze_tello;
