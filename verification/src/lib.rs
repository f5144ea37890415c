//! Snowflake-style 64-bit identifier generation.
//!
//! An identifier packs, most-significant bit first: one reserved bit fixed
//! to zero, 41 bits of milliseconds, 10 bits of machine identifier, and a
//! 12-bit per-millisecond sequence number. The generator hands out sequence
//! numbers from a shared counter and relies on a lazily started maintenance
//! task to advance the millisecond bucket and to retire itself when idle.

pub mod clock;
pub mod codec;
pub mod config;
pub mod generator;
