//! The powers database of the Mids Reborn planner: its records, field by
//! field in the order in which they lie in a document, and the document
//! itself.

pub mod archetype;
pub mod database;
pub mod effect;
pub mod enums;
pub mod power;
pub mod powerset;
pub mod summon;

pub use archetype::Archetype;
pub use database::Database;
pub use effect::Effect;
pub use power::{Power, Requirement};
pub use powerset::{MutexSet, Powerset};
pub use summon::Summon;

use crate::netbinary::de::{parse_document, read_document};
use crate::netbinary::error::Error;
use crate::netbinary::model::encode;
use crate::netbinary::ser::{encode_document, write_document};
use crate::netbinary::wire::{writes_as, Wire};
use vstd::prelude::*;
use vstd::string::*;

verus! {

/// The text that every powers database opens with.
pub const MAGIC: &'static str = "Mids Reborn Powers Database";

/// Reads a powers database. The document has to open with [`MAGIC`];
/// anything else is no powers database and is refused before a single
/// record is read.
pub fn from_reader(reader: &[u8]) -> (result: Result<Database, Error>)
    ensures
        match parse_document(MAGIC.spec_bytes(), Database::shape(), reader@) {
            Ok((datum, _)) => result matches Ok(db) && db.datum() == datum,
            Err(fault) => result matches Err(e) && e@ == fault,
        },
{
    read_document(reader, MAGIC)
}

/// Writes a powers database after what `writer` holds: [`MAGIC`], then the
/// database.
pub fn to_writer(writer: &mut Vec<u8>, db: &Database) -> (r: Result<(), Error>)
    ensures
        writes_as(
            r,
            old(writer)@,
            final(writer)@,
            encode_document(MAGIC.spec_bytes(), encode(Database::shape(), db.datum())),
        ),
{
    write_document(writer, MAGIC, db)
}

} // verus!
