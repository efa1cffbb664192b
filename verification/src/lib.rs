//! Reads and writes filesystem timestamp metadata for a single file path,
//! bridging a string-encoded epoch timestamp (10 digits = whole seconds,
//! 13 digits = milliseconds) to plain (seconds, nanoseconds) instants.
//!
//! The library holds the pure logic: the timestamp codec, the staging of a
//! time-change request from caller options, and the rendering of metadata
//! readings back to second-precision strings. Opening files and calling the
//! operating system is left to the surrounding program, which hands plain
//! values in and takes plain values back.

pub mod codec;
pub mod error;
pub mod times;
