//! A codec for the packed binary record format of the Mids Reborn hero
//! planner: fixed-width little-endian numbers, length-prefixed text,
//! counted sequences and records with neither names nor tags on the wire.
//!
//! [`netbinary`] is the codec itself: the primitives, the structural walker
//! and the laws of the format. [`mids`] holds the record types of the powers
//! database and its document framing, [`sync`] the rules by which such a
//! database is brought in line with reference data, and [`cod`] what is made
//! of the reference data once it has been read.

pub mod cod;
pub mod mids;
pub mod netbinary;
pub mod sync;
