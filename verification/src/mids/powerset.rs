//! Power sets and the sets that exclude each other.

use crate::netbinary::de::Deserializer;
use crate::netbinary::error::Error;
use crate::netbinary::model::{Datum, Shape};
use crate::netbinary::record::{
    begin_reading, begin_writing, lemma_fitting_ends, lemma_fitting_field, lemma_fitting_starts,
    put_field, take_field,
};
use crate::netbinary::ser::Serializer;
use crate::netbinary::wire::Wire;
use vstd::prelude::*;
use super::enums::PowerSetType;

verus! {

/// A set of powers that a character picks as a whole.
#[derive(Debug)]
pub struct Powerset {
    pub display_name: String, // = display_name
    pub nid_archetype: i32, // = uid_to_nid(at_class)
    pub set_type: PowerSetType, // no match
    pub image_name: String, // no match
    pub full_name: String, // = (parent).name + "." + name
    pub set_name: String, // = name
    pub description: String, // = display_help
    pub sub_name: String, // messy, unused in mids code
    pub at_class: String, // references Archetype.class_name; reliable only for primary & secondary
    pub uid_trunk_set: String,
    pub uid_link_secondary: String,
    pub mutex_sets: Vec<MutexSet>,
}

impl Wire for Powerset {
    open spec fn shape() -> Shape {
        Shape::Tuple(
            seq![
                String::shape(),
                i32::shape(),
                PowerSetType::shape(),
                String::shape(),
                String::shape(),
                String::shape(),
                String::shape(),
                String::shape(),
                String::shape(),
                String::shape(),
                String::shape(),
                <Vec<MutexSet>>::shape(),
            ],
        )
    }

    open spec fn datum(&self) -> Datum {
        Datum::List(
            seq![
                self.display_name.datum(),
                self.nid_archetype.datum(),
                self.set_type.datum(),
                self.image_name.datum(),
                self.full_name.datum(),
                self.set_name.datum(),
                self.description.datum(),
                self.sub_name.datum(),
                self.at_class.datum(),
                self.uid_trunk_set.datum(),
                self.uid_link_secondary.datum(),
                self.mutex_sets.datum(),
            ],
        )
    }

    proof fn lemma_conforms(&self) {
        let shapes = Self::shape()->Tuple_0;
        let items = self.datum()->List_0;
        lemma_fitting_starts(shapes, items);
        lemma_fitting_field(&self.display_name, shapes, items, 0);
        lemma_fitting_field(&self.nid_archetype, shapes, items, 1);
        lemma_fitting_field(&self.set_type, shapes, items, 2);
        lemma_fitting_field(&self.image_name, shapes, items, 3);
        lemma_fitting_field(&self.full_name, shapes, items, 4);
        lemma_fitting_field(&self.set_name, shapes, items, 5);
        lemma_fitting_field(&self.description, shapes, items, 6);
        lemma_fitting_field(&self.sub_name, shapes, items, 7);
        lemma_fitting_field(&self.at_class, shapes, items, 8);
        lemma_fitting_field(&self.uid_trunk_set, shapes, items, 9);
        lemma_fitting_field(&self.uid_link_secondary, shapes, items, 10);
        lemma_fitting_field(&self.mutex_sets, shapes, items, 11);
        lemma_fitting_ends(shapes, items);
    }

    fn serialize(&self, serializer: &mut Serializer) -> (r: Result<(), Error>) {
        let at = begin_writing(serializer, Ghost(Self::shape()), Ghost(self.datum()));
        serializer.serialize_struct("Powerset", 12)?;
        let at = put_field(&self.display_name, serializer, at)?;
        let at = put_field(&self.nid_archetype, serializer, at)?;
        let at = put_field(&self.set_type, serializer, at)?;
        let at = put_field(&self.image_name, serializer, at)?;
        let at = put_field(&self.full_name, serializer, at)?;
        let at = put_field(&self.set_name, serializer, at)?;
        let at = put_field(&self.description, serializer, at)?;
        let at = put_field(&self.sub_name, serializer, at)?;
        let at = put_field(&self.at_class, serializer, at)?;
        let at = put_field(&self.uid_trunk_set, serializer, at)?;
        let at = put_field(&self.uid_link_secondary, serializer, at)?;
        let at = put_field(&self.mutex_sets, serializer, at)?;
        proof {
            at@.lemma_ends(serializer.writer@);
        }
        serializer.end()
    }

    fn deserialize(deserializer: &mut Deserializer) -> (r: Result<Self, Error>) {
        let at = begin_reading(deserializer, Ghost(Self::shape()));
        let (display_name, at) = take_field::<String>(deserializer, at)?;
        let (nid_archetype, at) = take_field::<i32>(deserializer, at)?;
        let (set_type, at) = take_field::<PowerSetType>(deserializer, at)?;
        let (image_name, at) = take_field::<String>(deserializer, at)?;
        let (full_name, at) = take_field::<String>(deserializer, at)?;
        let (set_name, at) = take_field::<String>(deserializer, at)?;
        let (description, at) = take_field::<String>(deserializer, at)?;
        let (sub_name, at) = take_field::<String>(deserializer, at)?;
        let (at_class, at) = take_field::<String>(deserializer, at)?;
        let (uid_trunk_set, at) = take_field::<String>(deserializer, at)?;
        let (uid_link_secondary, at) = take_field::<String>(deserializer, at)?;
        let (mutex_sets, at) = take_field::<Vec<MutexSet>>(deserializer, at)?;
        let record = Powerset {
            display_name,
            nid_archetype,
            set_type,
            image_name,
            full_name,
            set_name,
            description,
            sub_name,
            at_class,
            uid_trunk_set,
            uid_link_secondary,
            mutex_sets,
        };
        proof {
            at@.lemma_ends(deserializer.reader@);
            assert(at@.sofar =~= record.datum()->List_0);
        }
        Ok(record)
    }
}

/// A power set that rules another one out.
#[derive(Debug)]
pub struct MutexSet {
    pub uid: String, // references Powerset.full_name
    pub nid: i32,
}

impl Wire for MutexSet {
    open spec fn shape() -> Shape {
        Shape::Tuple(
            seq![
                String::shape(),
                i32::shape(),
            ],
        )
    }

    open spec fn datum(&self) -> Datum {
        Datum::List(
            seq![
                self.uid.datum(),
                self.nid.datum(),
            ],
        )
    }

    proof fn lemma_conforms(&self) {
        let shapes = Self::shape()->Tuple_0;
        let items = self.datum()->List_0;
        lemma_fitting_starts(shapes, items);
        lemma_fitting_field(&self.uid, shapes, items, 0);
        lemma_fitting_field(&self.nid, shapes, items, 1);
        lemma_fitting_ends(shapes, items);
    }

    fn serialize(&self, serializer: &mut Serializer) -> (r: Result<(), Error>) {
        let at = begin_writing(serializer, Ghost(Self::shape()), Ghost(self.datum()));
        serializer.serialize_struct("MutexSet", 2)?;
        let at = put_field(&self.uid, serializer, at)?;
        let at = put_field(&self.nid, serializer, at)?;
        proof {
            at@.lemma_ends(serializer.writer@);
        }
        serializer.end()
    }

    fn deserialize(deserializer: &mut Deserializer) -> (r: Result<Self, Error>) {
        let at = begin_reading(deserializer, Ghost(Self::shape()));
        let (uid, at) = take_field::<String>(deserializer, at)?;
        let (nid, at) = take_field::<i32>(deserializer, at)?;
        let record = MutexSet {
            uid,
            nid,
        };
        proof {
            at@.lemma_ends(deserializer.reader@);
            assert(at@.sofar =~= record.datum()->List_0);
        }
        Ok(record)
    }
}

} // verus!
