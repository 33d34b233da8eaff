//! Numeric core of an NTP-style time-synchronisation client.
//!
//! The crate converts between the 64-bit NTP timestamp format and calendar
//! instants, derives clock offset and round-trip delay from a four-timestamp
//! exchange, and holds the decisions of the command-line client that reads
//! and sets the local clock.

pub mod cli;
pub mod clock;
pub mod sample;
pub mod text;
pub mod timestamp;
