//! The database as a whole.

use crate::netbinary::de::Deserializer;
use crate::netbinary::error::Error;
use crate::netbinary::model::{Datum, Shape};
use crate::netbinary::record::{
    begin_reading, begin_writing, lemma_fitting_ends, lemma_fitting_field, lemma_fitting_starts,
    put_field, take_field,
};
use crate::netbinary::ser::Serializer;
use crate::netbinary::wire::Wire;
use vstd::prelude::*;
use super::archetype::Archetype;
use super::power::Power;
use super::powerset::Powerset;
use super::summon::Summon;

verus! {

/// The powers database: what a document of this format holds.
#[derive(Debug)]
pub struct Database {
    pub version: String,
    pub legacy_year: i32,
    pub datetime: i64,
    pub issue: u32,
    pub page_volume: u32,
    pub page_volume_name: String,
    pub archetypes_magic: String,
    pub archetypes: Vec<Archetype>,
    pub powersets_magic: String,
    pub powersets: Vec<Powerset>,
    pub powers_magic: String,
    pub powers: Vec<Power>,
    pub summons_magic: String,
    pub summons: Vec<Summon>,
}

impl Wire for Database {
    open spec fn shape() -> Shape {
        Shape::Tuple(
            seq![
                String::shape(),
                i32::shape(),
                i64::shape(),
                u32::shape(),
                u32::shape(),
                String::shape(),
                String::shape(),
                <Vec<Archetype>>::shape(),
                String::shape(),
                <Vec<Powerset>>::shape(),
                String::shape(),
                <Vec<Power>>::shape(),
                String::shape(),
                <Vec<Summon>>::shape(),
            ],
        )
    }

    open spec fn datum(&self) -> Datum {
        Datum::List(
            seq![
                self.version.datum(),
                self.legacy_year.datum(),
                self.datetime.datum(),
                self.issue.datum(),
                self.page_volume.datum(),
                self.page_volume_name.datum(),
                self.archetypes_magic.datum(),
                self.archetypes.datum(),
                self.powersets_magic.datum(),
                self.powersets.datum(),
                self.powers_magic.datum(),
                self.powers.datum(),
                self.summons_magic.datum(),
                self.summons.datum(),
            ],
        )
    }

    proof fn lemma_conforms(&self) {
        let shapes = Self::shape()->Tuple_0;
        let items = self.datum()->List_0;
        lemma_fitting_starts(shapes, items);
        lemma_fitting_field(&self.version, shapes, items, 0);
        lemma_fitting_field(&self.legacy_year, shapes, items, 1);
        lemma_fitting_field(&self.datetime, shapes, items, 2);
        lemma_fitting_field(&self.issue, shapes, items, 3);
        lemma_fitting_field(&self.page_volume, shapes, items, 4);
        lemma_fitting_field(&self.page_volume_name, shapes, items, 5);
        lemma_fitting_field(&self.archetypes_magic, shapes, items, 6);
        lemma_fitting_field(&self.archetypes, shapes, items, 7);
        lemma_fitting_field(&self.powersets_magic, shapes, items, 8);
        lemma_fitting_field(&self.powersets, shapes, items, 9);
        lemma_fitting_field(&self.powers_magic, shapes, items, 10);
        lemma_fitting_field(&self.powers, shapes, items, 11);
        lemma_fitting_field(&self.summons_magic, shapes, items, 12);
        lemma_fitting_field(&self.summons, shapes, items, 13);
        lemma_fitting_ends(shapes, items);
    }

    fn serialize(&self, serializer: &mut Serializer) -> (r: Result<(), Error>) {
        let at = begin_writing(serializer, Ghost(Self::shape()), Ghost(self.datum()));
        serializer.serialize_struct("Database", 14)?;
        let at = put_field(&self.version, serializer, at)?;
        let at = put_field(&self.legacy_year, serializer, at)?;
        let at = put_field(&self.datetime, serializer, at)?;
        let at = put_field(&self.issue, serializer, at)?;
        let at = put_field(&self.page_volume, serializer, at)?;
        let at = put_field(&self.page_volume_name, serializer, at)?;
        let at = put_field(&self.archetypes_magic, serializer, at)?;
        let at = put_field(&self.archetypes, serializer, at)?;
        let at = put_field(&self.powersets_magic, serializer, at)?;
        let at = put_field(&self.powersets, serializer, at)?;
        let at = put_field(&self.powers_magic, serializer, at)?;
        let at = put_field(&self.powers, serializer, at)?;
        let at = put_field(&self.summons_magic, serializer, at)?;
        let at = put_field(&self.summons, serializer, at)?;
        proof {
            at@.lemma_ends(serializer.writer@);
        }
        serializer.end()
    }

    fn deserialize(deserializer: &mut Deserializer) -> (r: Result<Self, Error>) {
        let at = begin_reading(deserializer, Ghost(Self::shape()));
        let (version, at) = take_field::<String>(deserializer, at)?;
        let (legacy_year, at) = take_field::<i32>(deserializer, at)?;
        let (datetime, at) = take_field::<i64>(deserializer, at)?;
        let (issue, at) = take_field::<u32>(deserializer, at)?;
        let (page_volume, at) = take_field::<u32>(deserializer, at)?;
        let (page_volume_name, at) = take_field::<String>(deserializer, at)?;
        let (archetypes_magic, at) = take_field::<String>(deserializer, at)?;
        let (archetypes, at) = take_field::<Vec<Archetype>>(deserializer, at)?;
        let (powersets_magic, at) = take_field::<String>(deserializer, at)?;
        let (powersets, at) = take_field::<Vec<Powerset>>(deserializer, at)?;
        let (powers_magic, at) = take_field::<String>(deserializer, at)?;
        let (powers, at) = take_field::<Vec<Power>>(deserializer, at)?;
        let (summons_magic, at) = take_field::<String>(deserializer, at)?;
        let (summons, at) = take_field::<Vec<Summon>>(deserializer, at)?;
        let record = Database {
            version,
            legacy_year,
            datetime,
            issue,
            page_volume,
            page_volume_name,
            archetypes_magic,
            archetypes,
            powersets_magic,
            powersets,
            powers_magic,
            powers,
            summons_magic,
            summons,
        };
        proof {
            at@.lemma_ends(deserializer.reader@);
            assert(at@.sofar =~= record.datum()->List_0);
        }
        Ok(record)
    }
}

} // verus!
