//! Decoder for the fixed 323-byte telemetry datagram of a racing simulation.
//!
//! [`utils`] holds the byte extractor and the little-endian readings of one
//! field, [`forza`] the snapshot record and its wire layout, [`encode`] the
//! way back from a snapshot to a datagram.

pub mod encode;
pub mod forza;
pub mod utils;
