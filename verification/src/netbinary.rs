//! The wire format: primitives, sequences, the structural walker and the
//! laws that tie encoding and decoding together.

pub mod array_hack;
pub mod canonical;
pub mod de;
pub mod endian;
pub mod error;
pub mod laws;
pub mod length;
pub mod model;
pub mod ordinal;
pub mod record;
pub mod ser;
pub mod wire;

pub use de::{from_reader, read_bytes, read_document, Deserializer, FixedSeq};
pub use error::{Error, Fault};
pub use ordinal::Enumerated;
pub use ser::{write_document, Serializer};
pub use wire::{Float32, Float64, Wire};
