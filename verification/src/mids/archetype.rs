//! Archetypes.

use crate::netbinary::de::Deserializer;
use crate::netbinary::error::Error;
use crate::netbinary::model::{Datum, Shape};
use crate::netbinary::record::{
    begin_reading, begin_writing, lemma_fitting_ends, lemma_fitting_field, lemma_fitting_starts,
    put_field, take_field,
};
use crate::netbinary::ser::Serializer;
use crate::netbinary::wire::{Float32, Wire};
use vstd::prelude::*;
use super::enums::ClassType;

verus! {

/// A character class.
#[derive(Debug)]
pub struct Archetype {
    pub display_name: String, // = display_name
    pub hitpoints: i32, // = round(attrib_max.hit_points[-1])
    pub hp_cap: Float32, // = attrib.attrib_max_max.hit_points[-1]
    pub desc_long: String, // = display_help
    pub res_cap: Float32, // = attrib_resistance_max.damage_type[*][-1]
    pub origins: Vec<String>, // no match
    pub class_name: String, // ~= "class_{name}" (or class_key without @)
    pub class_type: ClassType, // no match
    pub column: i32, // no match
    pub desc_short: String, // = display_short_help
    pub primary_group: String, // ~= primary_category
    pub secondary_group: String, // ~= secondary_category
    pub playable: bool, // derivable from at_index: player_archetypes
    pub recharge_cap: Float32, // = attrib_max_max.recharge_time[-1]
    pub damage_cap: Float32, // = attrib_strength_max.damage_type[*][-1]
    pub recovery_cap: Float32, // = attrib_max_max.recovery[-1]
    pub regen_cap: Float32, // = attrib_max_max.regeneration[-1]
    pub base_recovery: Float32, // = attrib_base.recovery
    pub base_regen: Float32, // = attrib_base.regeneration
    pub base_threat: Float32, // = attrib_base.threat_level
    pub perception_cap: Float32, // = attrib_max_max.perception_radius[-1]
}

impl Wire for Archetype {
    open spec fn shape() -> Shape {
        Shape::Tuple(
            seq![
                String::shape(),
                i32::shape(),
                Float32::shape(),
                String::shape(),
                Float32::shape(),
                <Vec<String>>::shape(),
                String::shape(),
                ClassType::shape(),
                i32::shape(),
                String::shape(),
                String::shape(),
                String::shape(),
                bool::shape(),
                Float32::shape(),
                Float32::shape(),
                Float32::shape(),
                Float32::shape(),
                Float32::shape(),
                Float32::shape(),
                Float32::shape(),
                Float32::shape(),
            ],
        )
    }

    open spec fn datum(&self) -> Datum {
        Datum::List(
            seq![
                self.display_name.datum(),
                self.hitpoints.datum(),
                self.hp_cap.datum(),
                self.desc_long.datum(),
                self.res_cap.datum(),
                self.origins.datum(),
                self.class_name.datum(),
                self.class_type.datum(),
                self.column.datum(),
                self.desc_short.datum(),
                self.primary_group.datum(),
                self.secondary_group.datum(),
                self.playable.datum(),
                self.recharge_cap.datum(),
                self.damage_cap.datum(),
                self.recovery_cap.datum(),
                self.regen_cap.datum(),
                self.base_recovery.datum(),
                self.base_regen.datum(),
                self.base_threat.datum(),
                self.perception_cap.datum(),
            ],
        )
    }

    proof fn lemma_conforms(&self) {
        let shapes = Self::shape()->Tuple_0;
        let items = self.datum()->List_0;
        lemma_fitting_starts(shapes, items);
        lemma_fitting_field(&self.display_name, shapes, items, 0);
        lemma_fitting_field(&self.hitpoints, shapes, items, 1);
        lemma_fitting_field(&self.hp_cap, shapes, items, 2);
        lemma_fitting_field(&self.desc_long, shapes, items, 3);
        lemma_fitting_field(&self.res_cap, shapes, items, 4);
        lemma_fitting_field(&self.origins, shapes, items, 5);
        lemma_fitting_field(&self.class_name, shapes, items, 6);
        lemma_fitting_field(&self.class_type, shapes, items, 7);
        lemma_fitting_field(&self.column, shapes, items, 8);
        lemma_fitting_field(&self.desc_short, shapes, items, 9);
        lemma_fitting_field(&self.primary_group, shapes, items, 10);
        lemma_fitting_field(&self.secondary_group, shapes, items, 11);
        lemma_fitting_field(&self.playable, shapes, items, 12);
        lemma_fitting_field(&self.recharge_cap, shapes, items, 13);
        lemma_fitting_field(&self.damage_cap, shapes, items, 14);
        lemma_fitting_field(&self.recovery_cap, shapes, items, 15);
        lemma_fitting_field(&self.regen_cap, shapes, items, 16);
        lemma_fitting_field(&self.base_recovery, shapes, items, 17);
        lemma_fitting_field(&self.base_regen, shapes, items, 18);
        lemma_fitting_field(&self.base_threat, shapes, items, 19);
        lemma_fitting_field(&self.perception_cap, shapes, items, 20);
        lemma_fitting_ends(shapes, items);
    }

    fn serialize(&self, serializer: &mut Serializer) -> (r: Result<(), Error>) {
        let at = begin_writing(serializer, Ghost(Self::shape()), Ghost(self.datum()));
        serializer.serialize_struct("Archetype", 21)?;
        let at = put_field(&self.display_name, serializer, at)?;
        let at = put_field(&self.hitpoints, serializer, at)?;
        let at = put_field(&self.hp_cap, serializer, at)?;
        let at = put_field(&self.desc_long, serializer, at)?;
        let at = put_field(&self.res_cap, serializer, at)?;
        let at = put_field(&self.origins, serializer, at)?;
        let at = put_field(&self.class_name, serializer, at)?;
        let at = put_field(&self.class_type, serializer, at)?;
        let at = put_field(&self.column, serializer, at)?;
        let at = put_field(&self.desc_short, serializer, at)?;
        let at = put_field(&self.primary_group, serializer, at)?;
        let at = put_field(&self.secondary_group, serializer, at)?;
        let at = put_field(&self.playable, serializer, at)?;
        let at = put_field(&self.recharge_cap, serializer, at)?;
        let at = put_field(&self.damage_cap, serializer, at)?;
        let at = put_field(&self.recovery_cap, serializer, at)?;
        let at = put_field(&self.regen_cap, serializer, at)?;
        let at = put_field(&self.base_recovery, serializer, at)?;
        let at = put_field(&self.base_regen, serializer, at)?;
        let at = put_field(&self.base_threat, serializer, at)?;
        let at = put_field(&self.perception_cap, serializer, at)?;
        proof {
            at@.lemma_ends(serializer.writer@);
        }
        serializer.end()
    }

    fn deserialize(deserializer: &mut Deserializer) -> (r: Result<Self, Error>) {
        let at = begin_reading(deserializer, Ghost(Self::shape()));
        let (display_name, at) = take_field::<String>(deserializer, at)?;
        let (hitpoints, at) = take_field::<i32>(deserializer, at)?;
        let (hp_cap, at) = take_field::<Float32>(deserializer, at)?;
        let (desc_long, at) = take_field::<String>(deserializer, at)?;
        let (res_cap, at) = take_field::<Float32>(deserializer, at)?;
        let (origins, at) = take_field::<Vec<String>>(deserializer, at)?;
        let (class_name, at) = take_field::<String>(deserializer, at)?;
        let (class_type, at) = take_field::<ClassType>(deserializer, at)?;
        let (column, at) = take_field::<i32>(deserializer, at)?;
        let (desc_short, at) = take_field::<String>(deserializer, at)?;
        let (primary_group, at) = take_field::<String>(deserializer, at)?;
        let (secondary_group, at) = take_field::<String>(deserializer, at)?;
        let (playable, at) = take_field::<bool>(deserializer, at)?;
        let (recharge_cap, at) = take_field::<Float32>(deserializer, at)?;
        let (damage_cap, at) = take_field::<Float32>(deserializer, at)?;
        let (recovery_cap, at) = take_field::<Float32>(deserializer, at)?;
        let (regen_cap, at) = take_field::<Float32>(deserializer, at)?;
        let (base_recovery, at) = take_field::<Float32>(deserializer, at)?;
        let (base_regen, at) = take_field::<Float32>(deserializer, at)?;
        let (base_threat, at) = take_field::<Float32>(deserializer, at)?;
        let (perception_cap, at) = take_field::<Float32>(deserializer, at)?;
        let record = Archetype {
            display_name,
            hitpoints,
            hp_cap,
            desc_long,
            res_cap,
            origins,
            class_name,
            class_type,
            column,
            desc_short,
            primary_group,
            secondary_group,
            playable,
            recharge_cap,
            damage_cap,
            recovery_cap,
            regen_cap,
            base_recovery,
            base_regen,
            base_threat,
            perception_cap,
        };
        proof {
            at@.lemma_ends(deserializer.reader@);
            assert(at@.sofar =~= record.datum()->List_0);
        }
        Ok(record)
    }
}

} // verus!
