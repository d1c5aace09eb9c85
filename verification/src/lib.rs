//! A verified writer for the IVF video container format.
//!
//! An IVF file is a 32-byte header followed by any number of frame records,
//! each a 4-byte little-endian length, an 8-byte little-endian timestamp and
//! the payload bytes. The writer is append-only: the header is written once,
//! before the first record, and records accumulate in the order they arrive.

pub mod driver;
pub mod encoder;
pub mod ivf;
pub mod reader;
