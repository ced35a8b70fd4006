//! Summoned entities.

use crate::netbinary::array_hack::doubled;
use crate::netbinary::de::Deserializer;
use crate::netbinary::error::Error;
use crate::netbinary::model::{Datum, Shape};
use crate::netbinary::record::{
    begin_reading, begin_writing, lemma_fitting_doubled, lemma_fitting_ends, lemma_fitting_field,
    lemma_fitting_starts, put_doubled, put_field, take_doubled, take_field,
};
use crate::netbinary::ser::Serializer;
use crate::netbinary::wire::Wire;
use vstd::prelude::*;
use super::enums::SummonEntity;

verus! {

/// An entity that a power summons.
#[derive(Debug)]
pub struct Summon {
    pub uid: String,
    pub display_name: String,
    pub entity_type: SummonEntity,
    pub class_name: String,
    /// Written with its length twice over.
    pub powerset_full_name: Vec<String>,
    /// Written with its length twice over.
    pub upgrade_power_full_name: Vec<String>,
}

impl Wire for Summon {
    open spec fn shape() -> Shape {
        Shape::Tuple(
            seq![
                String::shape(),
                String::shape(),
                SummonEntity::shape(),
                String::shape(),
                doubled::<String>(),
                doubled::<String>(),
            ],
        )
    }

    open spec fn datum(&self) -> Datum {
        Datum::List(
            seq![
                self.uid.datum(),
                self.display_name.datum(),
                self.entity_type.datum(),
                self.class_name.datum(),
                self.powerset_full_name.datum(),
                self.upgrade_power_full_name.datum(),
            ],
        )
    }

    proof fn lemma_conforms(&self) {
        let shapes = Self::shape()->Tuple_0;
        let items = self.datum()->List_0;
        lemma_fitting_starts(shapes, items);
        lemma_fitting_field(&self.uid, shapes, items, 0);
        lemma_fitting_field(&self.display_name, shapes, items, 1);
        lemma_fitting_field(&self.entity_type, shapes, items, 2);
        lemma_fitting_field(&self.class_name, shapes, items, 3);
        lemma_fitting_doubled(&self.powerset_full_name, shapes, items, 4);
        lemma_fitting_doubled(&self.upgrade_power_full_name, shapes, items, 5);
        lemma_fitting_ends(shapes, items);
    }

    fn serialize(&self, serializer: &mut Serializer) -> (r: Result<(), Error>) {
        let at = begin_writing(serializer, Ghost(Self::shape()), Ghost(self.datum()));
        serializer.serialize_struct("Summon", 6)?;
        let at = put_field(&self.uid, serializer, at)?;
        let at = put_field(&self.display_name, serializer, at)?;
        let at = put_field(&self.entity_type, serializer, at)?;
        let at = put_field(&self.class_name, serializer, at)?;
        let at = put_doubled(&self.powerset_full_name, serializer, at)?;
        let at = put_doubled(&self.upgrade_power_full_name, serializer, at)?;
        proof {
            at@.lemma_ends(serializer.writer@);
        }
        serializer.end()
    }

    fn deserialize(deserializer: &mut Deserializer) -> (r: Result<Self, Error>) {
        let at = begin_reading(deserializer, Ghost(Self::shape()));
        let (uid, at) = take_field::<String>(deserializer, at)?;
        let (display_name, at) = take_field::<String>(deserializer, at)?;
        let (entity_type, at) = take_field::<SummonEntity>(deserializer, at)?;
        let (class_name, at) = take_field::<String>(deserializer, at)?;
        let (powerset_full_name, at) = take_doubled::<String>(deserializer, at)?;
        let (upgrade_power_full_name, at) = take_doubled::<String>(deserializer, at)?;
        let record = Summon {
            uid,
            display_name,
            entity_type,
            class_name,
            powerset_full_name,
            upgrade_power_full_name,
        };
        proof {
            at@.lemma_ends(deserializer.reader@);
            assert(at@.sofar =~= record.datum()->List_0);
        }
        Ok(record)
    }
}

} // verus!
