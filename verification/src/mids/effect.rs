//! The effects of powers.

use crate::netbinary::array_hack::doubled;
use crate::netbinary::de::Deserializer;
use crate::netbinary::error::{Error, Fault};
use crate::netbinary::model::{parse, Datum, Shape};
use crate::netbinary::record::{
    begin_reading, begin_writing, fields_written, fitting, gathered, lemma_fitting_doubled,
    lemma_fitting_ends, lemma_fitting_field, lemma_fitting_starts, lemma_gathered_ends,
    lemma_gathered_field, lemma_gathered_starts, put_doubled, put_field, Reading, take_doubled,
    take_field, Writing,
};
use crate::netbinary::ser::Serializer;
use crate::netbinary::wire::{Float32, Wire};
use vstd::prelude::*;
use super::enums::{
    Aspect, AttribType, Damage, EffectArea, EffectClass, EffectType, Mez, OverrideBoolean,
    PowerAttribs, PvX, SpecialCase, Stacking, Suppress, ToWho,
};

verus! {

/// One effect of a power.
#[derive(Debug)]
pub struct Effect {
    pub power_full_name: String,
    pub unique_id: i32,
    pub effect_class: EffectClass,
    pub effect_type: EffectType,
    pub damage_type: Damage,
    pub mez_type: Mez,
    pub et_modifies: EffectType,
    pub summon: String,
    pub delayed_time: Float32,
    pub ticks: i32,
    pub stacking: Stacking,
    pub base_probability: Float32,
    pub suppression: Suppress,
    pub buffable: bool,
    pub resistible: bool,
    pub special_case: SpecialCase,
    pub variable_modified_override: bool,
    pub ignore_scaling: bool,
    pub pv_mode: PvX,
    pub to_who: ToWho,
    pub display_percentage_override: OverrideBoolean,
    pub scale: Float32,
    pub n_magnitude: Float32,
    pub n_duration: Float32,
    pub attrib_type: AttribType,
    pub aspect: Aspect,
    pub modifier_table: String,
    pub near_ground: bool,
    pub cancel_on_miss: bool,
    pub requires_to_hit_check: bool,
    pub uid_class_name: String,
    pub n_id_class_name: i32,
    pub expression_duration: String,
    pub expression_magnitude: String,
    pub expression_probability: String,
    pub reward: String,
    pub effect_id: String,
    pub ignore_ed: bool,
    pub override_: String,
    pub procs_per_minute: Float32,
    pub power_attribs: PowerAttribs,
    pub atr_orig_accuracy: Float32,
    pub atr_orig_activate_period: Float32,
    pub atr_orig_arc: i32,
    pub atr_orig_cast_time: Float32,
    pub atr_orig_effect_area: EffectArea,
    pub atr_orig_endurance_cost: Float32,
    pub atr_orig_interrupt_time: Float32,
    pub atr_orig_max_targets: i32,
    pub atr_orig_radius: Float32,
    pub atr_orig_range: Float32,
    pub atr_orig_recharge_time: Float32,
    pub atr_orig_secondary_range: Float32,
    pub atr_mod_accuracy: Float32,
    pub atr_mod_activate_period: Float32,
    pub atr_mod_arc: i32,
    pub atr_mod_cast_time: Float32,
    pub atr_mod_effect_area: EffectArea,
    pub atr_mod_endurance_cost: Float32,
    pub atr_mod_interrupt_time: Float32,
    pub atr_mod_max_targets: i32,
    pub atr_mod_radius: Float32,
    pub atr_mod_range: Float32,
    pub atr_mod_recharge_time: Float32,
    pub atr_mod_secondary_range: Float32,
    /// Written with its length twice over.
    pub active_conditionals_kv: Vec<(String, String)>,
}

/// The fields `power_full_name` to `ticks` of an [`Effect`].
type EffectPart1 = (
    String, i32, EffectClass, EffectType, Damage, Mez, EffectType, String, Float32, i32,
);

/// The fields `stacking` to `special_case` of an [`Effect`].
type EffectPart2 = (
    Stacking, Float32, Suppress, bool, bool, SpecialCase,
);

/// The fields `variable_modified_override` to `n_duration` of an [`Effect`].
type EffectPart3 = (
    bool, bool, PvX, ToWho, OverrideBoolean, Float32, Float32, Float32,
);

/// The fields `attrib_type` to `expression_magnitude` of an [`Effect`].
type EffectPart4 = (
    AttribType, Aspect, String, bool, bool, bool, String, i32, String, String,
);

/// The fields `expression_probability` to `atr_orig_arc` of an [`Effect`].
type EffectPart5 = (
    String, String, String, bool, String, Float32, PowerAttribs, Float32, Float32, i32,
);

/// The fields `atr_orig_cast_time` to `atr_mod_accuracy` of an [`Effect`].
type EffectPart6 = (
    Float32, EffectArea, Float32, Float32, i32, Float32, Float32, Float32, Float32, Float32,
);

/// The fields `atr_mod_activate_period` to `atr_mod_recharge_time` of an [`Effect`].
type EffectPart7 = (
    Float32, i32, Float32, EffectArea, Float32, Float32, i32, Float32, Float32, Float32,
);

/// The fields `atr_mod_secondary_range` to `active_conditionals_kv` of an [`Effect`].
type EffectPart8 = (
    Float32, Vec<(String, String)>,
);

impl Effect {
    /// The fields `power_full_name` to `ticks`, as they are read together.
    #[verifier::opaque]
    spec fn part1(&self) -> EffectPart1 {
        (
            self.power_full_name,
            self.unique_id,
            self.effect_class,
            self.effect_type,
            self.damage_type,
            self.mez_type,
            self.et_modifies,
            self.summon,
            self.delayed_time,
            self.ticks,
        )
    }

    /// The wire values of the fields `power_full_name` to `ticks`.
    #[verifier::opaque]
    spec fn part1_data(v: EffectPart1) -> Seq<Datum> {
        seq![
            v.0.datum(),
            v.1.datum(),
            v.2.datum(),
            v.3.datum(),
            v.4.datum(),
            v.5.datum(),
            v.6.datum(),
            v.7.datum(),
            v.8.datum(),
            v.9.datum(),
        ]
    }

    /// The fields `power_full_name` to `ticks` are values of their shapes.
    proof fn lemma_fit_part1(&self)
        requires
            fitting(Self::shape()->Tuple_0, self.datum()->List_0, 0),
        ensures
            fitting(Self::shape()->Tuple_0, self.datum()->List_0, 10),
    {
        let shapes = Self::shape()->Tuple_0;
        let items = self.datum()->List_0;
        lemma_fitting_field(&self.power_full_name, shapes, items, 0);
        lemma_fitting_field(&self.unique_id, shapes, items, 1);
        lemma_fitting_field(&self.effect_class, shapes, items, 2);
        lemma_fitting_field(&self.effect_type, shapes, items, 3);
        lemma_fitting_field(&self.damage_type, shapes, items, 4);
        lemma_fitting_field(&self.mez_type, shapes, items, 5);
        lemma_fitting_field(&self.et_modifies, shapes, items, 6);
        lemma_fitting_field(&self.summon, shapes, items, 7);
        lemma_fitting_field(&self.delayed_time, shapes, items, 8);
        lemma_fitting_field(&self.ticks, shapes, items, 9);
    }

    /// The fields `power_full_name` to `ticks` stand in their places among the values of the
    /// record.
    #[verifier::rlimit(50)]
    proof fn lemma_gather_part1(&self, sofar: Seq<Datum>)
        requires
            gathered(sofar, self.datum()->List_0),
            sofar.len() == 0,
        ensures
            gathered(sofar + Self::part1_data(self.part1()), self.datum()->List_0),
            (sofar + Self::part1_data(self.part1())).len() == 10,
    {
        reveal(Effect::part1);
        reveal(Effect::part1_data);
        let items = self.datum()->List_0;
        let part = sofar;
        lemma_gathered_field(part, items, 0, self.power_full_name.datum());
        let part = part.push(self.power_full_name.datum());
        lemma_gathered_field(part, items, 1, self.unique_id.datum());
        let part = part.push(self.unique_id.datum());
        lemma_gathered_field(part, items, 2, self.effect_class.datum());
        let part = part.push(self.effect_class.datum());
        lemma_gathered_field(part, items, 3, self.effect_type.datum());
        let part = part.push(self.effect_type.datum());
        lemma_gathered_field(part, items, 4, self.damage_type.datum());
        let part = part.push(self.damage_type.datum());
        lemma_gathered_field(part, items, 5, self.mez_type.datum());
        let part = part.push(self.mez_type.datum());
        lemma_gathered_field(part, items, 6, self.et_modifies.datum());
        let part = part.push(self.et_modifies.datum());
        lemma_gathered_field(part, items, 7, self.summon.datum());
        let part = part.push(self.summon.datum());
        lemma_gathered_field(part, items, 8, self.delayed_time.datum());
        let part = part.push(self.delayed_time.datum());
        lemma_gathered_field(part, items, 9, self.ticks.datum());
        let part = part.push(self.ticks.datum());
        assert(part =~= sofar + Self::part1_data(self.part1()));
    }

    /// Writes the fields `power_full_name` to `ticks`.
    fn put_part1(&self, serializer: &mut Serializer, Ghost(at): Ghost<Writing>) -> (r: Result<
        Ghost<Writing>,
        Error,
    >)
        requires
            at.holds(old(serializer).writer@),
            at.shapes == Self::shape()->Tuple_0,
            at.items == self.datum()->List_0,
            at.next == 0,
        ensures
            fields_written(r, at, 10, final(serializer).writer@),
    {
        let at = Ghost(at);
        let at = put_field(&self.power_full_name, serializer, at)?;
        let at = put_field(&self.unique_id, serializer, at)?;
        let at = put_field(&self.effect_class, serializer, at)?;
        let at = put_field(&self.effect_type, serializer, at)?;
        let at = put_field(&self.damage_type, serializer, at)?;
        let at = put_field(&self.mez_type, serializer, at)?;
        let at = put_field(&self.et_modifies, serializer, at)?;
        let at = put_field(&self.summon, serializer, at)?;
        let at = put_field(&self.delayed_time, serializer, at)?;
        let at = put_field(&self.ticks, serializer, at)?;
        Ok(at)
    }

    /// Reads the fields `power_full_name` to `ticks`.
    fn take_part1(deserializer: &mut Deserializer, Ghost(at): Ghost<Reading>) -> (r: Result<
        (EffectPart1, Ghost<Reading>),
        Error,
    >)
        requires
            at.holds(old(deserializer).reader@),
            at.shapes == Self::shape()->Tuple_0,
            at.next == 0,
        ensures
            match r {
                Ok((v, next)) => next@.holds(final(deserializer).reader@) && next@.shapes
                    == at.shapes && next@.input == at.input && next@.next == 10
                    && next@.sofar == at.sofar + Self::part1_data(v),
                Err(e) => parse(Self::shape(), at.input) == Err::<(Datum, Seq<u8>), Fault>(e@),
            },
    {
        let ghost before = at.sofar;
        let at = Ghost(at);
        let (power_full_name, at) = take_field::<String>(deserializer, at)?;
        let (unique_id, at) = take_field::<i32>(deserializer, at)?;
        let (effect_class, at) = take_field::<EffectClass>(deserializer, at)?;
        let (effect_type, at) = take_field::<EffectType>(deserializer, at)?;
        let (damage_type, at) = take_field::<Damage>(deserializer, at)?;
        let (mez_type, at) = take_field::<Mez>(deserializer, at)?;
        let (et_modifies, at) = take_field::<EffectType>(deserializer, at)?;
        let (summon, at) = take_field::<String>(deserializer, at)?;
        let (delayed_time, at) = take_field::<Float32>(deserializer, at)?;
        let (ticks, at) = take_field::<i32>(deserializer, at)?;
        let v = (
            power_full_name,
            unique_id,
            effect_class,
            effect_type,
            damage_type,
            mez_type,
            et_modifies,
            summon,
            delayed_time,
            ticks,
        );
        proof {
            reveal(Effect::part1_data);
            assert(at@.sofar =~= before + Self::part1_data(v));
        }
        Ok((v, at))
    }

    /// The fields `stacking` to `special_case`, as they are read together.
    #[verifier::opaque]
    spec fn part2(&self) -> EffectPart2 {
        (
            self.stacking,
            self.base_probability,
            self.suppression,
            self.buffable,
            self.resistible,
            self.special_case,
        )
    }

    /// The wire values of the fields `stacking` to `special_case`.
    #[verifier::opaque]
    spec fn part2_data(v: EffectPart2) -> Seq<Datum> {
        seq![
            v.0.datum(),
            v.1.datum(),
            v.2.datum(),
            v.3.datum(),
            v.4.datum(),
            v.5.datum(),
        ]
    }

    /// The fields `stacking` to `special_case` are values of their shapes.
    proof fn lemma_fit_part2(&self)
        requires
            fitting(Self::shape()->Tuple_0, self.datum()->List_0, 10),
        ensures
            fitting(Self::shape()->Tuple_0, self.datum()->List_0, 16),
    {
        let shapes = Self::shape()->Tuple_0;
        let items = self.datum()->List_0;
        lemma_fitting_field(&self.stacking, shapes, items, 10);
        lemma_fitting_field(&self.base_probability, shapes, items, 11);
        lemma_fitting_field(&self.suppression, shapes, items, 12);
        lemma_fitting_field(&self.buffable, shapes, items, 13);
        lemma_fitting_field(&self.resistible, shapes, items, 14);
        lemma_fitting_field(&self.special_case, shapes, items, 15);
    }

    /// The fields `stacking` to `special_case` stand in their places among the values of the
    /// record.
    #[verifier::rlimit(50)]
    proof fn lemma_gather_part2(&self, sofar: Seq<Datum>)
        requires
            gathered(sofar, self.datum()->List_0),
            sofar.len() == 10,
        ensures
            gathered(sofar + Self::part2_data(self.part2()), self.datum()->List_0),
            (sofar + Self::part2_data(self.part2())).len() == 16,
    {
        reveal(Effect::part2);
        reveal(Effect::part2_data);
        let items = self.datum()->List_0;
        let part = sofar;
        lemma_gathered_field(part, items, 10, self.stacking.datum());
        let part = part.push(self.stacking.datum());
        lemma_gathered_field(part, items, 11, self.base_probability.datum());
        let part = part.push(self.base_probability.datum());
        lemma_gathered_field(part, items, 12, self.suppression.datum());
        let part = part.push(self.suppression.datum());
        lemma_gathered_field(part, items, 13, self.buffable.datum());
        let part = part.push(self.buffable.datum());
        lemma_gathered_field(part, items, 14, self.resistible.datum());
        let part = part.push(self.resistible.datum());
        lemma_gathered_field(part, items, 15, self.special_case.datum());
        let part = part.push(self.special_case.datum());
        assert(part =~= sofar + Self::part2_data(self.part2()));
    }

    /// Writes the fields `stacking` to `special_case`.
    fn put_part2(&self, serializer: &mut Serializer, Ghost(at): Ghost<Writing>) -> (r: Result<
        Ghost<Writing>,
        Error,
    >)
        requires
            at.holds(old(serializer).writer@),
            at.shapes == Self::shape()->Tuple_0,
            at.items == self.datum()->List_0,
            at.next == 10,
        ensures
            fields_written(r, at, 16, final(serializer).writer@),
    {
        let at = Ghost(at);
        let at = put_field(&self.stacking, serializer, at)?;
        let at = put_field(&self.base_probability, serializer, at)?;
        let at = put_field(&self.suppression, serializer, at)?;
        let at = put_field(&self.buffable, serializer, at)?;
        let at = put_field(&self.resistible, serializer, at)?;
        let at = put_field(&self.special_case, serializer, at)?;
        Ok(at)
    }

    /// Reads the fields `stacking` to `special_case`.
    fn take_part2(deserializer: &mut Deserializer, Ghost(at): Ghost<Reading>) -> (r: Result<
        (EffectPart2, Ghost<Reading>),
        Error,
    >)
        requires
            at.holds(old(deserializer).reader@),
            at.shapes == Self::shape()->Tuple_0,
            at.next == 10,
        ensures
            match r {
                Ok((v, next)) => next@.holds(final(deserializer).reader@) && next@.shapes
                    == at.shapes && next@.input == at.input && next@.next == 16
                    && next@.sofar == at.sofar + Self::part2_data(v),
                Err(e) => parse(Self::shape(), at.input) == Err::<(Datum, Seq<u8>), Fault>(e@),
            },
    {
        let ghost before = at.sofar;
        let at = Ghost(at);
        let (stacking, at) = take_field::<Stacking>(deserializer, at)?;
        let (base_probability, at) = take_field::<Float32>(deserializer, at)?;
        let (suppression, at) = take_field::<Suppress>(deserializer, at)?;
        let (buffable, at) = take_field::<bool>(deserializer, at)?;
        let (resistible, at) = take_field::<bool>(deserializer, at)?;
        let (special_case, at) = take_field::<SpecialCase>(deserializer, at)?;
        let v = (
            stacking,
            base_probability,
            suppression,
            buffable,
            resistible,
            special_case,
        );
        proof {
            reveal(Effect::part2_data);
            assert(at@.sofar =~= before + Self::part2_data(v));
        }
        Ok((v, at))
    }

    /// The fields `variable_modified_override` to `n_duration`, as they are read together.
    #[verifier::opaque]
    spec fn part3(&self) -> EffectPart3 {
        (
            self.variable_modified_override,
            self.ignore_scaling,
            self.pv_mode,
            self.to_who,
            self.display_percentage_override,
            self.scale,
            self.n_magnitude,
            self.n_duration,
        )
    }

    /// The wire values of the fields `variable_modified_override` to `n_duration`.
    #[verifier::opaque]
    spec fn part3_data(v: EffectPart3) -> Seq<Datum> {
        seq![
            v.0.datum(),
            v.1.datum(),
            v.2.datum(),
            v.3.datum(),
            v.4.datum(),
            v.5.datum(),
            v.6.datum(),
            v.7.datum(),
        ]
    }

    /// The fields `variable_modified_override` to `n_duration` are values of their shapes.
    proof fn lemma_fit_part3(&self)
        requires
            fitting(Self::shape()->Tuple_0, self.datum()->List_0, 16),
        ensures
            fitting(Self::shape()->Tuple_0, self.datum()->List_0, 24),
    {
        let shapes = Self::shape()->Tuple_0;
        let items = self.datum()->List_0;
        lemma_fitting_field(&self.variable_modified_override, shapes, items, 16);
        lemma_fitting_field(&self.ignore_scaling, shapes, items, 17);
        lemma_fitting_field(&self.pv_mode, shapes, items, 18);
        lemma_fitting_field(&self.to_who, shapes, items, 19);
        lemma_fitting_field(&self.display_percentage_override, shapes, items, 20);
        lemma_fitting_field(&self.scale, shapes, items, 21);
        lemma_fitting_field(&self.n_magnitude, shapes, items, 22);
        lemma_fitting_field(&self.n_duration, shapes, items, 23);
    }

    /// The fields `variable_modified_override` to `n_duration` stand in their places among the values of the
    /// record.
    #[verifier::rlimit(50)]
    proof fn lemma_gather_part3(&self, sofar: Seq<Datum>)
        requires
            gathered(sofar, self.datum()->List_0),
            sofar.len() == 16,
        ensures
            gathered(sofar + Self::part3_data(self.part3()), self.datum()->List_0),
            (sofar + Self::part3_data(self.part3())).len() == 24,
    {
        reveal(Effect::part3);
        reveal(Effect::part3_data);
        let items = self.datum()->List_0;
        let part = sofar;
        lemma_gathered_field(part, items, 16, self.variable_modified_override.datum());
        let part = part.push(self.variable_modified_override.datum());
        lemma_gathered_field(part, items, 17, self.ignore_scaling.datum());
        let part = part.push(self.ignore_scaling.datum());
        lemma_gathered_field(part, items, 18, self.pv_mode.datum());
        let part = part.push(self.pv_mode.datum());
        lemma_gathered_field(part, items, 19, self.to_who.datum());
        let part = part.push(self.to_who.datum());
        lemma_gathered_field(part, items, 20, self.display_percentage_override.datum());
        let part = part.push(self.display_percentage_override.datum());
        lemma_gathered_field(part, items, 21, self.scale.datum());
        let part = part.push(self.scale.datum());
        lemma_gathered_field(part, items, 22, self.n_magnitude.datum());
        let part = part.push(self.n_magnitude.datum());
        lemma_gathered_field(part, items, 23, self.n_duration.datum());
        let part = part.push(self.n_duration.datum());
        assert(part =~= sofar + Self::part3_data(self.part3()));
    }

    /// Writes the fields `variable_modified_override` to `n_duration`.
    fn put_part3(&self, serializer: &mut Serializer, Ghost(at): Ghost<Writing>) -> (r: Result<
        Ghost<Writing>,
        Error,
    >)
        requires
            at.holds(old(serializer).writer@),
            at.shapes == Self::shape()->Tuple_0,
            at.items == self.datum()->List_0,
            at.next == 16,
        ensures
            fields_written(r, at, 24, final(serializer).writer@),
    {
        let at = Ghost(at);
        let at = put_field(&self.variable_modified_override, serializer, at)?;
        let at = put_field(&self.ignore_scaling, serializer, at)?;
        let at = put_field(&self.pv_mode, serializer, at)?;
        let at = put_field(&self.to_who, serializer, at)?;
        let at = put_field(&self.display_percentage_override, serializer, at)?;
        let at = put_field(&self.scale, serializer, at)?;
        let at = put_field(&self.n_magnitude, serializer, at)?;
        let at = put_field(&self.n_duration, serializer, at)?;
        Ok(at)
    }

    /// Reads the fields `variable_modified_override` to `n_duration`.
    fn take_part3(deserializer: &mut Deserializer, Ghost(at): Ghost<Reading>) -> (r: Result<
        (EffectPart3, Ghost<Reading>),
        Error,
    >)
        requires
            at.holds(old(deserializer).reader@),
            at.shapes == Self::shape()->Tuple_0,
            at.next == 16,
        ensures
            match r {
                Ok((v, next)) => next@.holds(final(deserializer).reader@) && next@.shapes
                    == at.shapes && next@.input == at.input && next@.next == 24
                    && next@.sofar == at.sofar + Self::part3_data(v),
                Err(e) => parse(Self::shape(), at.input) == Err::<(Datum, Seq<u8>), Fault>(e@),
            },
    {
        let ghost before = at.sofar;
        let at = Ghost(at);
        let (variable_modified_override, at) = take_field::<bool>(deserializer, at)?;
        let (ignore_scaling, at) = take_field::<bool>(deserializer, at)?;
        let (pv_mode, at) = take_field::<PvX>(deserializer, at)?;
        let (to_who, at) = take_field::<ToWho>(deserializer, at)?;
        let (display_percentage_override, at) = take_field::<OverrideBoolean>(deserializer, at)?;
        let (scale, at) = take_field::<Float32>(deserializer, at)?;
        let (n_magnitude, at) = take_field::<Float32>(deserializer, at)?;
        let (n_duration, at) = take_field::<Float32>(deserializer, at)?;
        let v = (
            variable_modified_override,
            ignore_scaling,
            pv_mode,
            to_who,
            display_percentage_override,
            scale,
            n_magnitude,
            n_duration,
        );
        proof {
            reveal(Effect::part3_data);
            assert(at@.sofar =~= before + Self::part3_data(v));
        }
        Ok((v, at))
    }

    /// The fields `attrib_type` to `expression_magnitude`, as they are read together.
    #[verifier::opaque]
    spec fn part4(&self) -> EffectPart4 {
        (
            self.attrib_type,
            self.aspect,
            self.modifier_table,
            self.near_ground,
            self.cancel_on_miss,
            self.requires_to_hit_check,
            self.uid_class_name,
            self.n_id_class_name,
            self.expression_duration,
            self.expression_magnitude,
        )
    }

    /// The wire values of the fields `attrib_type` to `expression_magnitude`.
    #[verifier::opaque]
    spec fn part4_data(v: EffectPart4) -> Seq<Datum> {
        seq![
            v.0.datum(),
            v.1.datum(),
            v.2.datum(),
            v.3.datum(),
            v.4.datum(),
            v.5.datum(),
            v.6.datum(),
            v.7.datum(),
            v.8.datum(),
            v.9.datum(),
        ]
    }

    /// The fields `attrib_type` to `expression_magnitude` are values of their shapes.
    proof fn lemma_fit_part4(&self)
        requires
            fitting(Self::shape()->Tuple_0, self.datum()->List_0, 24),
        ensures
            fitting(Self::shape()->Tuple_0, self.datum()->List_0, 34),
    {
        let shapes = Self::shape()->Tuple_0;
        let items = self.datum()->List_0;
        lemma_fitting_field(&self.attrib_type, shapes, items, 24);
        lemma_fitting_field(&self.aspect, shapes, items, 25);
        lemma_fitting_field(&self.modifier_table, shapes, items, 26);
        lemma_fitting_field(&self.near_ground, shapes, items, 27);
        lemma_fitting_field(&self.cancel_on_miss, shapes, items, 28);
        lemma_fitting_field(&self.requires_to_hit_check, shapes, items, 29);
        lemma_fitting_field(&self.uid_class_name, shapes, items, 30);
        lemma_fitting_field(&self.n_id_class_name, shapes, items, 31);
        lemma_fitting_field(&self.expression_duration, shapes, items, 32);
        lemma_fitting_field(&self.expression_magnitude, shapes, items, 33);
    }

    /// The fields `attrib_type` to `expression_magnitude` stand in their places among the values of the
    /// record.
    #[verifier::rlimit(50)]
    proof fn lemma_gather_part4(&self, sofar: Seq<Datum>)
        requires
            gathered(sofar, self.datum()->List_0),
            sofar.len() == 24,
        ensures
            gathered(sofar + Self::part4_data(self.part4()), self.datum()->List_0),
            (sofar + Self::part4_data(self.part4())).len() == 34,
    {
        reveal(Effect::part4);
        reveal(Effect::part4_data);
        let items = self.datum()->List_0;
        let part = sofar;
        lemma_gathered_field(part, items, 24, self.attrib_type.datum());
        let part = part.push(self.attrib_type.datum());
        lemma_gathered_field(part, items, 25, self.aspect.datum());
        let part = part.push(self.aspect.datum());
        lemma_gathered_field(part, items, 26, self.modifier_table.datum());
        let part = part.push(self.modifier_table.datum());
        lemma_gathered_field(part, items, 27, self.near_ground.datum());
        let part = part.push(self.near_ground.datum());
        lemma_gathered_field(part, items, 28, self.cancel_on_miss.datum());
        let part = part.push(self.cancel_on_miss.datum());
        lemma_gathered_field(part, items, 29, self.requires_to_hit_check.datum());
        let part = part.push(self.requires_to_hit_check.datum());
        lemma_gathered_field(part, items, 30, self.uid_class_name.datum());
        let part = part.push(self.uid_class_name.datum());
        lemma_gathered_field(part, items, 31, self.n_id_class_name.datum());
        let part = part.push(self.n_id_class_name.datum());
        lemma_gathered_field(part, items, 32, self.expression_duration.datum());
        let part = part.push(self.expression_duration.datum());
        lemma_gathered_field(part, items, 33, self.expression_magnitude.datum());
        let part = part.push(self.expression_magnitude.datum());
        assert(part =~= sofar + Self::part4_data(self.part4()));
    }

    /// Writes the fields `attrib_type` to `expression_magnitude`.
    fn put_part4(&self, serializer: &mut Serializer, Ghost(at): Ghost<Writing>) -> (r: Result<
        Ghost<Writing>,
        Error,
    >)
        requires
            at.holds(old(serializer).writer@),
            at.shapes == Self::shape()->Tuple_0,
            at.items == self.datum()->List_0,
            at.next == 24,
        ensures
            fields_written(r, at, 34, final(serializer).writer@),
    {
        let at = Ghost(at);
        let at = put_field(&self.attrib_type, serializer, at)?;
        let at = put_field(&self.aspect, serializer, at)?;
        let at = put_field(&self.modifier_table, serializer, at)?;
        let at = put_field(&self.near_ground, serializer, at)?;
        let at = put_field(&self.cancel_on_miss, serializer, at)?;
        let at = put_field(&self.requires_to_hit_check, serializer, at)?;
        let at = put_field(&self.uid_class_name, serializer, at)?;
        let at = put_field(&self.n_id_class_name, serializer, at)?;
        let at = put_field(&self.expression_duration, serializer, at)?;
        let at = put_field(&self.expression_magnitude, serializer, at)?;
        Ok(at)
    }

    /// Reads the fields `attrib_type` to `expression_magnitude`.
    fn take_part4(deserializer: &mut Deserializer, Ghost(at): Ghost<Reading>) -> (r: Result<
        (EffectPart4, Ghost<Reading>),
        Error,
    >)
        requires
            at.holds(old(deserializer).reader@),
            at.shapes == Self::shape()->Tuple_0,
            at.next == 24,
        ensures
            match r {
                Ok((v, next)) => next@.holds(final(deserializer).reader@) && next@.shapes
                    == at.shapes && next@.input == at.input && next@.next == 34
                    && next@.sofar == at.sofar + Self::part4_data(v),
                Err(e) => parse(Self::shape(), at.input) == Err::<(Datum, Seq<u8>), Fault>(e@),
            },
    {
        let ghost before = at.sofar;
        let at = Ghost(at);
        let (attrib_type, at) = take_field::<AttribType>(deserializer, at)?;
        let (aspect, at) = take_field::<Aspect>(deserializer, at)?;
        let (modifier_table, at) = take_field::<String>(deserializer, at)?;
        let (near_ground, at) = take_field::<bool>(deserializer, at)?;
        let (cancel_on_miss, at) = take_field::<bool>(deserializer, at)?;
        let (requires_to_hit_check, at) = take_field::<bool>(deserializer, at)?;
        let (uid_class_name, at) = take_field::<String>(deserializer, at)?;
        let (n_id_class_name, at) = take_field::<i32>(deserializer, at)?;
        let (expression_duration, at) = take_field::<String>(deserializer, at)?;
        let (expression_magnitude, at) = take_field::<String>(deserializer, at)?;
        let v = (
            attrib_type,
            aspect,
            modifier_table,
            near_ground,
            cancel_on_miss,
            requires_to_hit_check,
            uid_class_name,
            n_id_class_name,
            expression_duration,
            expression_magnitude,
        );
        proof {
            reveal(Effect::part4_data);
            assert(at@.sofar =~= before + Self::part4_data(v));
        }
        Ok((v, at))
    }

    /// The fields `expression_probability` to `atr_orig_arc`, as they are read together.
    #[verifier::opaque]
    spec fn part5(&self) -> EffectPart5 {
        (
            self.expression_probability,
            self.reward,
            self.effect_id,
            self.ignore_ed,
            self.override_,
            self.procs_per_minute,
            self.power_attribs,
            self.atr_orig_accuracy,
            self.atr_orig_activate_period,
            self.atr_orig_arc,
        )
    }

    /// The wire values of the fields `expression_probability` to `atr_orig_arc`.
    #[verifier::opaque]
    spec fn part5_data(v: EffectPart5) -> Seq<Datum> {
        seq![
            v.0.datum(),
            v.1.datum(),
            v.2.datum(),
            v.3.datum(),
            v.4.datum(),
            v.5.datum(),
            v.6.datum(),
            v.7.datum(),
            v.8.datum(),
            v.9.datum(),
        ]
    }

    /// The fields `expression_probability` to `atr_orig_arc` are values of their shapes.
    proof fn lemma_fit_part5(&self)
        requires
            fitting(Self::shape()->Tuple_0, self.datum()->List_0, 34),
        ensures
            fitting(Self::shape()->Tuple_0, self.datum()->List_0, 44),
    {
        let shapes = Self::shape()->Tuple_0;
        let items = self.datum()->List_0;
        lemma_fitting_field(&self.expression_probability, shapes, items, 34);
        lemma_fitting_field(&self.reward, shapes, items, 35);
        lemma_fitting_field(&self.effect_id, shapes, items, 36);
        lemma_fitting_field(&self.ignore_ed, shapes, items, 37);
        lemma_fitting_field(&self.override_, shapes, items, 38);
        lemma_fitting_field(&self.procs_per_minute, shapes, items, 39);
        lemma_fitting_field(&self.power_attribs, shapes, items, 40);
        lemma_fitting_field(&self.atr_orig_accuracy, shapes, items, 41);
        lemma_fitting_field(&self.atr_orig_activate_period, shapes, items, 42);
        lemma_fitting_field(&self.atr_orig_arc, shapes, items, 43);
    }

    /// The fields `expression_probability` to `atr_orig_arc` stand in their places among the values of the
    /// record.
    #[verifier::rlimit(50)]
    proof fn lemma_gather_part5(&self, sofar: Seq<Datum>)
        requires
            gathered(sofar, self.datum()->List_0),
            sofar.len() == 34,
        ensures
            gathered(sofar + Self::part5_data(self.part5()), self.datum()->List_0),
            (sofar + Self::part5_data(self.part5())).len() == 44,
    {
        reveal(Effect::part5);
        reveal(Effect::part5_data);
        let items = self.datum()->List_0;
        let part = sofar;
        lemma_gathered_field(part, items, 34, self.expression_probability.datum());
        let part = part.push(self.expression_probability.datum());
        lemma_gathered_field(part, items, 35, self.reward.datum());
        let part = part.push(self.reward.datum());
        lemma_gathered_field(part, items, 36, self.effect_id.datum());
        let part = part.push(self.effect_id.datum());
        lemma_gathered_field(part, items, 37, self.ignore_ed.datum());
        let part = part.push(self.ignore_ed.datum());
        lemma_gathered_field(part, items, 38, self.override_.datum());
        let part = part.push(self.override_.datum());
        lemma_gathered_field(part, items, 39, self.procs_per_minute.datum());
        let part = part.push(self.procs_per_minute.datum());
        lemma_gathered_field(part, items, 40, self.power_attribs.datum());
        let part = part.push(self.power_attribs.datum());
        lemma_gathered_field(part, items, 41, self.atr_orig_accuracy.datum());
        let part = part.push(self.atr_orig_accuracy.datum());
        lemma_gathered_field(part, items, 42, self.atr_orig_activate_period.datum());
        let part = part.push(self.atr_orig_activate_period.datum());
        lemma_gathered_field(part, items, 43, self.atr_orig_arc.datum());
        let part = part.push(self.atr_orig_arc.datum());
        assert(part =~= sofar + Self::part5_data(self.part5()));
    }

    /// Writes the fields `expression_probability` to `atr_orig_arc`.
    fn put_part5(&self, serializer: &mut Serializer, Ghost(at): Ghost<Writing>) -> (r: Result<
        Ghost<Writing>,
        Error,
    >)
        requires
            at.holds(old(serializer).writer@),
            at.shapes == Self::shape()->Tuple_0,
            at.items == self.datum()->List_0,
            at.next == 34,
        ensures
            fields_written(r, at, 44, final(serializer).writer@),
    {
        let at = Ghost(at);
        let at = put_field(&self.expression_probability, serializer, at)?;
        let at = put_field(&self.reward, serializer, at)?;
        let at = put_field(&self.effect_id, serializer, at)?;
        let at = put_field(&self.ignore_ed, serializer, at)?;
        let at = put_field(&self.override_, serializer, at)?;
        let at = put_field(&self.procs_per_minute, serializer, at)?;
        let at = put_field(&self.power_attribs, serializer, at)?;
        let at = put_field(&self.atr_orig_accuracy, serializer, at)?;
        let at = put_field(&self.atr_orig_activate_period, serializer, at)?;
        let at = put_field(&self.atr_orig_arc, serializer, at)?;
        Ok(at)
    }

    /// Reads the fields `expression_probability` to `atr_orig_arc`.
    fn take_part5(deserializer: &mut Deserializer, Ghost(at): Ghost<Reading>) -> (r: Result<
        (EffectPart5, Ghost<Reading>),
        Error,
    >)
        requires
            at.holds(old(deserializer).reader@),
            at.shapes == Self::shape()->Tuple_0,
            at.next == 34,
        ensures
            match r {
                Ok((v, next)) => next@.holds(final(deserializer).reader@) && next@.shapes
                    == at.shapes && next@.input == at.input && next@.next == 44
                    && next@.sofar == at.sofar + Self::part5_data(v),
                Err(e) => parse(Self::shape(), at.input) == Err::<(Datum, Seq<u8>), Fault>(e@),
            },
    {
        let ghost before = at.sofar;
        let at = Ghost(at);
        let (expression_probability, at) = take_field::<String>(deserializer, at)?;
        let (reward, at) = take_field::<String>(deserializer, at)?;
        let (effect_id, at) = take_field::<String>(deserializer, at)?;
        let (ignore_ed, at) = take_field::<bool>(deserializer, at)?;
        let (override_, at) = take_field::<String>(deserializer, at)?;
        let (procs_per_minute, at) = take_field::<Float32>(deserializer, at)?;
        let (power_attribs, at) = take_field::<PowerAttribs>(deserializer, at)?;
        let (atr_orig_accuracy, at) = take_field::<Float32>(deserializer, at)?;
        let (atr_orig_activate_period, at) = take_field::<Float32>(deserializer, at)?;
        let (atr_orig_arc, at) = take_field::<i32>(deserializer, at)?;
        let v = (
            expression_probability,
            reward,
            effect_id,
            ignore_ed,
            override_,
            procs_per_minute,
            power_attribs,
            atr_orig_accuracy,
            atr_orig_activate_period,
            atr_orig_arc,
        );
        proof {
            reveal(Effect::part5_data);
            assert(at@.sofar =~= before + Self::part5_data(v));
        }
        Ok((v, at))
    }

    /// The fields `atr_orig_cast_time` to `atr_mod_accuracy`, as they are read together.
    #[verifier::opaque]
    spec fn part6(&self) -> EffectPart6 {
        (
            self.atr_orig_cast_time,
            self.atr_orig_effect_area,
            self.atr_orig_endurance_cost,
            self.atr_orig_interrupt_time,
            self.atr_orig_max_targets,
            self.atr_orig_radius,
            self.atr_orig_range,
            self.atr_orig_recharge_time,
            self.atr_orig_secondary_range,
            self.atr_mod_accuracy,
        )
    }

    /// The wire values of the fields `atr_orig_cast_time` to `atr_mod_accuracy`.
    #[verifier::opaque]
    spec fn part6_data(v: EffectPart6) -> Seq<Datum> {
        seq![
            v.0.datum(),
            v.1.datum(),
            v.2.datum(),
            v.3.datum(),
            v.4.datum(),
            v.5.datum(),
            v.6.datum(),
            v.7.datum(),
            v.8.datum(),
            v.9.datum(),
        ]
    }

    /// The fields `atr_orig_cast_time` to `atr_mod_accuracy` are values of their shapes.
    proof fn lemma_fit_part6(&self)
        requires
            fitting(Self::shape()->Tuple_0, self.datum()->List_0, 44),
        ensures
            fitting(Self::shape()->Tuple_0, self.datum()->List_0, 54),
    {
        let shapes = Self::shape()->Tuple_0;
        let items = self.datum()->List_0;
        lemma_fitting_field(&self.atr_orig_cast_time, shapes, items, 44);
        lemma_fitting_field(&self.atr_orig_effect_area, shapes, items, 45);
        lemma_fitting_field(&self.atr_orig_endurance_cost, shapes, items, 46);
        lemma_fitting_field(&self.atr_orig_interrupt_time, shapes, items, 47);
        lemma_fitting_field(&self.atr_orig_max_targets, shapes, items, 48);
        lemma_fitting_field(&self.atr_orig_radius, shapes, items, 49);
        lemma_fitting_field(&self.atr_orig_range, shapes, items, 50);
        lemma_fitting_field(&self.atr_orig_recharge_time, shapes, items, 51);
        lemma_fitting_field(&self.atr_orig_secondary_range, shapes, items, 52);
        lemma_fitting_field(&self.atr_mod_accuracy, shapes, items, 53);
    }

    /// The fields `atr_orig_cast_time` to `atr_mod_accuracy` stand in their places among the values of the
    /// record.
    #[verifier::rlimit(50)]
    proof fn lemma_gather_part6(&self, sofar: Seq<Datum>)
        requires
            gathered(sofar, self.datum()->List_0),
            sofar.len() == 44,
        ensures
            gathered(sofar + Self::part6_data(self.part6()), self.datum()->List_0),
            (sofar + Self::part6_data(self.part6())).len() == 54,
    {
        reveal(Effect::part6);
        reveal(Effect::part6_data);
        let items = self.datum()->List_0;
        let part = sofar;
        lemma_gathered_field(part, items, 44, self.atr_orig_cast_time.datum());
        let part = part.push(self.atr_orig_cast_time.datum());
        lemma_gathered_field(part, items, 45, self.atr_orig_effect_area.datum());
        let part = part.push(self.atr_orig_effect_area.datum());
        lemma_gathered_field(part, items, 46, self.atr_orig_endurance_cost.datum());
        let part = part.push(self.atr_orig_endurance_cost.datum());
        lemma_gathered_field(part, items, 47, self.atr_orig_interrupt_time.datum());
        let part = part.push(self.atr_orig_interrupt_time.datum());
        lemma_gathered_field(part, items, 48, self.atr_orig_max_targets.datum());
        let part = part.push(self.atr_orig_max_targets.datum());
        lemma_gathered_field(part, items, 49, self.atr_orig_radius.datum());
        let part = part.push(self.atr_orig_radius.datum());
        lemma_gathered_field(part, items, 50, self.atr_orig_range.datum());
        let part = part.push(self.atr_orig_range.datum());
        lemma_gathered_field(part, items, 51, self.atr_orig_recharge_time.datum());
        let part = part.push(self.atr_orig_recharge_time.datum());
        lemma_gathered_field(part, items, 52, self.atr_orig_secondary_range.datum());
        let part = part.push(self.atr_orig_secondary_range.datum());
        lemma_gathered_field(part, items, 53, self.atr_mod_accuracy.datum());
        let part = part.push(self.atr_mod_accuracy.datum());
        assert(part =~= sofar + Self::part6_data(self.part6()));
    }

    /// Writes the fields `atr_orig_cast_time` to `atr_mod_accuracy`.
    fn put_part6(&self, serializer: &mut Serializer, Ghost(at): Ghost<Writing>) -> (r: Result<
        Ghost<Writing>,
        Error,
    >)
        requires
            at.holds(old(serializer).writer@),
            at.shapes == Self::shape()->Tuple_0,
            at.items == self.datum()->List_0,
            at.next == 44,
        ensures
            fields_written(r, at, 54, final(serializer).writer@),
    {
        let at = Ghost(at);
        let at = put_field(&self.atr_orig_cast_time, serializer, at)?;
        let at = put_field(&self.atr_orig_effect_area, serializer, at)?;
        let at = put_field(&self.atr_orig_endurance_cost, serializer, at)?;
        let at = put_field(&self.atr_orig_interrupt_time, serializer, at)?;
        let at = put_field(&self.atr_orig_max_targets, serializer, at)?;
        let at = put_field(&self.atr_orig_radius, serializer, at)?;
        let at = put_field(&self.atr_orig_range, serializer, at)?;
        let at = put_field(&self.atr_orig_recharge_time, serializer, at)?;
        let at = put_field(&self.atr_orig_secondary_range, serializer, at)?;
        let at = put_field(&self.atr_mod_accuracy, serializer, at)?;
        Ok(at)
    }

    /// Reads the fields `atr_orig_cast_time` to `atr_mod_accuracy`.
    fn take_part6(deserializer: &mut Deserializer, Ghost(at): Ghost<Reading>) -> (r: Result<
        (EffectPart6, Ghost<Reading>),
        Error,
    >)
        requires
            at.holds(old(deserializer).reader@),
            at.shapes == Self::shape()->Tuple_0,
            at.next == 44,
        ensures
            match r {
                Ok((v, next)) => next@.holds(final(deserializer).reader@) && next@.shapes
                    == at.shapes && next@.input == at.input && next@.next == 54
                    && next@.sofar == at.sofar + Self::part6_data(v),
                Err(e) => parse(Self::shape(), at.input) == Err::<(Datum, Seq<u8>), Fault>(e@),
            },
    {
        let ghost before = at.sofar;
        let at = Ghost(at);
        let (atr_orig_cast_time, at) = take_field::<Float32>(deserializer, at)?;
        let (atr_orig_effect_area, at) = take_field::<EffectArea>(deserializer, at)?;
        let (atr_orig_endurance_cost, at) = take_field::<Float32>(deserializer, at)?;
        let (atr_orig_interrupt_time, at) = take_field::<Float32>(deserializer, at)?;
        let (atr_orig_max_targets, at) = take_field::<i32>(deserializer, at)?;
        let (atr_orig_radius, at) = take_field::<Float32>(deserializer, at)?;
        let (atr_orig_range, at) = take_field::<Float32>(deserializer, at)?;
        let (atr_orig_recharge_time, at) = take_field::<Float32>(deserializer, at)?;
        let (atr_orig_secondary_range, at) = take_field::<Float32>(deserializer, at)?;
        let (atr_mod_accuracy, at) = take_field::<Float32>(deserializer, at)?;
        let v = (
            atr_orig_cast_time,
            atr_orig_effect_area,
            atr_orig_endurance_cost,
            atr_orig_interrupt_time,
            atr_orig_max_targets,
            atr_orig_radius,
            atr_orig_range,
            atr_orig_recharge_time,
            atr_orig_secondary_range,
            atr_mod_accuracy,
        );
        proof {
            reveal(Effect::part6_data);
            assert(at@.sofar =~= before + Self::part6_data(v));
        }
        Ok((v, at))
    }

    /// The fields `atr_mod_activate_period` to `atr_mod_recharge_time`, as they are read together.
    #[verifier::opaque]
    spec fn part7(&self) -> EffectPart7 {
        (
            self.atr_mod_activate_period,
            self.atr_mod_arc,
            self.atr_mod_cast_time,
            self.atr_mod_effect_area,
            self.atr_mod_endurance_cost,
            self.atr_mod_interrupt_time,
            self.atr_mod_max_targets,
            self.atr_mod_radius,
            self.atr_mod_range,
            self.atr_mod_recharge_time,
        )
    }

    /// The wire values of the fields `atr_mod_activate_period` to `atr_mod_recharge_time`.
    #[verifier::opaque]
    spec fn part7_data(v: EffectPart7) -> Seq<Datum> {
        seq![
            v.0.datum(),
            v.1.datum(),
            v.2.datum(),
            v.3.datum(),
            v.4.datum(),
            v.5.datum(),
            v.6.datum(),
            v.7.datum(),
            v.8.datum(),
            v.9.datum(),
        ]
    }

    /// The fields `atr_mod_activate_period` to `atr_mod_recharge_time` are values of their shapes.
    proof fn lemma_fit_part7(&self)
        requires
            fitting(Self::shape()->Tuple_0, self.datum()->List_0, 54),
        ensures
            fitting(Self::shape()->Tuple_0, self.datum()->List_0, 64),
    {
        let shapes = Self::shape()->Tuple_0;
        let items = self.datum()->List_0;
        lemma_fitting_field(&self.atr_mod_activate_period, shapes, items, 54);
        lemma_fitting_field(&self.atr_mod_arc, shapes, items, 55);
        lemma_fitting_field(&self.atr_mod_cast_time, shapes, items, 56);
        lemma_fitting_field(&self.atr_mod_effect_area, shapes, items, 57);
        lemma_fitting_field(&self.atr_mod_endurance_cost, shapes, items, 58);
        lemma_fitting_field(&self.atr_mod_interrupt_time, shapes, items, 59);
        lemma_fitting_field(&self.atr_mod_max_targets, shapes, items, 60);
        lemma_fitting_field(&self.atr_mod_radius, shapes, items, 61);
        lemma_fitting_field(&self.atr_mod_range, shapes, items, 62);
        lemma_fitting_field(&self.atr_mod_recharge_time, shapes, items, 63);
    }

    /// The fields `atr_mod_activate_period` to `atr_mod_recharge_time` stand in their places among the values of the
    /// record.
    #[verifier::rlimit(50)]
    proof fn lemma_gather_part7(&self, sofar: Seq<Datum>)
        requires
            gathered(sofar, self.datum()->List_0),
            sofar.len() == 54,
        ensures
            gathered(sofar + Self::part7_data(self.part7()), self.datum()->List_0),
            (sofar + Self::part7_data(self.part7())).len() == 64,
    {
        reveal(Effect::part7);
        reveal(Effect::part7_data);
        let items = self.datum()->List_0;
        let part = sofar;
        lemma_gathered_field(part, items, 54, self.atr_mod_activate_period.datum());
        let part = part.push(self.atr_mod_activate_period.datum());
        lemma_gathered_field(part, items, 55, self.atr_mod_arc.datum());
        let part = part.push(self.atr_mod_arc.datum());
        lemma_gathered_field(part, items, 56, self.atr_mod_cast_time.datum());
        let part = part.push(self.atr_mod_cast_time.datum());
        lemma_gathered_field(part, items, 57, self.atr_mod_effect_area.datum());
        let part = part.push(self.atr_mod_effect_area.datum());
        lemma_gathered_field(part, items, 58, self.atr_mod_endurance_cost.datum());
        let part = part.push(self.atr_mod_endurance_cost.datum());
        lemma_gathered_field(part, items, 59, self.atr_mod_interrupt_time.datum());
        let part = part.push(self.atr_mod_interrupt_time.datum());
        lemma_gathered_field(part, items, 60, self.atr_mod_max_targets.datum());
        let part = part.push(self.atr_mod_max_targets.datum());
        lemma_gathered_field(part, items, 61, self.atr_mod_radius.datum());
        let part = part.push(self.atr_mod_radius.datum());
        lemma_gathered_field(part, items, 62, self.atr_mod_range.datum());
        let part = part.push(self.atr_mod_range.datum());
        lemma_gathered_field(part, items, 63, self.atr_mod_recharge_time.datum());
        let part = part.push(self.atr_mod_recharge_time.datum());
        assert(part =~= sofar + Self::part7_data(self.part7()));
    }

    /// Writes the fields `atr_mod_activate_period` to `atr_mod_recharge_time`.
    fn put_part7(&self, serializer: &mut Serializer, Ghost(at): Ghost<Writing>) -> (r: Result<
        Ghost<Writing>,
        Error,
    >)
        requires
            at.holds(old(serializer).writer@),
            at.shapes == Self::shape()->Tuple_0,
            at.items == self.datum()->List_0,
            at.next == 54,
        ensures
            fields_written(r, at, 64, final(serializer).writer@),
    {
        let at = Ghost(at);
        let at = put_field(&self.atr_mod_activate_period, serializer, at)?;
        let at = put_field(&self.atr_mod_arc, serializer, at)?;
        let at = put_field(&self.atr_mod_cast_time, serializer, at)?;
        let at = put_field(&self.atr_mod_effect_area, serializer, at)?;
        let at = put_field(&self.atr_mod_endurance_cost, serializer, at)?;
        let at = put_field(&self.atr_mod_interrupt_time, serializer, at)?;
        let at = put_field(&self.atr_mod_max_targets, serializer, at)?;
        let at = put_field(&self.atr_mod_radius, serializer, at)?;
        let at = put_field(&self.atr_mod_range, serializer, at)?;
        let at = put_field(&self.atr_mod_recharge_time, serializer, at)?;
        Ok(at)
    }

    /// Reads the fields `atr_mod_activate_period` to `atr_mod_recharge_time`.
    fn take_part7(deserializer: &mut Deserializer, Ghost(at): Ghost<Reading>) -> (r: Result<
        (EffectPart7, Ghost<Reading>),
        Error,
    >)
        requires
            at.holds(old(deserializer).reader@),
            at.shapes == Self::shape()->Tuple_0,
            at.next == 54,
        ensures
            match r {
                Ok((v, next)) => next@.holds(final(deserializer).reader@) && next@.shapes
                    == at.shapes && next@.input == at.input && next@.next == 64
                    && next@.sofar == at.sofar + Self::part7_data(v),
                Err(e) => parse(Self::shape(), at.input) == Err::<(Datum, Seq<u8>), Fault>(e@),
            },
    {
        let ghost before = at.sofar;
        let at = Ghost(at);
        let (atr_mod_activate_period, at) = take_field::<Float32>(deserializer, at)?;
        let (atr_mod_arc, at) = take_field::<i32>(deserializer, at)?;
        let (atr_mod_cast_time, at) = take_field::<Float32>(deserializer, at)?;
        let (atr_mod_effect_area, at) = take_field::<EffectArea>(deserializer, at)?;
        let (atr_mod_endurance_cost, at) = take_field::<Float32>(deserializer, at)?;
        let (atr_mod_interrupt_time, at) = take_field::<Float32>(deserializer, at)?;
        let (atr_mod_max_targets, at) = take_field::<i32>(deserializer, at)?;
        let (atr_mod_radius, at) = take_field::<Float32>(deserializer, at)?;
        let (atr_mod_range, at) = take_field::<Float32>(deserializer, at)?;
        let (atr_mod_recharge_time, at) = take_field::<Float32>(deserializer, at)?;
        let v = (
            atr_mod_activate_period,
            atr_mod_arc,
            atr_mod_cast_time,
            atr_mod_effect_area,
            atr_mod_endurance_cost,
            atr_mod_interrupt_time,
            atr_mod_max_targets,
            atr_mod_radius,
            atr_mod_range,
            atr_mod_recharge_time,
        );
        proof {
            reveal(Effect::part7_data);
            assert(at@.sofar =~= before + Self::part7_data(v));
        }
        Ok((v, at))
    }

    /// The fields `atr_mod_secondary_range` to `active_conditionals_kv`, as they are read together.
    #[verifier::opaque]
    spec fn part8(&self) -> EffectPart8 {
        (
            self.atr_mod_secondary_range,
            self.active_conditionals_kv,
        )
    }

    /// The wire values of the fields `atr_mod_secondary_range` to `active_conditionals_kv`.
    #[verifier::opaque]
    spec fn part8_data(v: EffectPart8) -> Seq<Datum> {
        seq![
            v.0.datum(),
            v.1.datum(),
        ]
    }

    /// The fields `atr_mod_secondary_range` to `active_conditionals_kv` are values of their shapes.
    proof fn lemma_fit_part8(&self)
        requires
            fitting(Self::shape()->Tuple_0, self.datum()->List_0, 64),
        ensures
            fitting(Self::shape()->Tuple_0, self.datum()->List_0, 66),
    {
        let shapes = Self::shape()->Tuple_0;
        let items = self.datum()->List_0;
        lemma_fitting_field(&self.atr_mod_secondary_range, shapes, items, 64);
        lemma_fitting_doubled(&self.active_conditionals_kv, shapes, items, 65);
    }

    /// The fields `atr_mod_secondary_range` to `active_conditionals_kv` stand in their places among the values of the
    /// record.
    #[verifier::rlimit(50)]
    proof fn lemma_gather_part8(&self, sofar: Seq<Datum>)
        requires
            gathered(sofar, self.datum()->List_0),
            sofar.len() == 64,
        ensures
            gathered(sofar + Self::part8_data(self.part8()), self.datum()->List_0),
            (sofar + Self::part8_data(self.part8())).len() == 66,
    {
        reveal(Effect::part8);
        reveal(Effect::part8_data);
        let items = self.datum()->List_0;
        let part = sofar;
        lemma_gathered_field(part, items, 64, self.atr_mod_secondary_range.datum());
        let part = part.push(self.atr_mod_secondary_range.datum());
        lemma_gathered_field(part, items, 65, self.active_conditionals_kv.datum());
        let part = part.push(self.active_conditionals_kv.datum());
        assert(part =~= sofar + Self::part8_data(self.part8()));
    }

    /// Writes the fields `atr_mod_secondary_range` to `active_conditionals_kv`.
    fn put_part8(&self, serializer: &mut Serializer, Ghost(at): Ghost<Writing>) -> (r: Result<
        Ghost<Writing>,
        Error,
    >)
        requires
            at.holds(old(serializer).writer@),
            at.shapes == Self::shape()->Tuple_0,
            at.items == self.datum()->List_0,
            at.next == 64,
        ensures
            fields_written(r, at, 66, final(serializer).writer@),
    {
        let at = Ghost(at);
        let at = put_field(&self.atr_mod_secondary_range, serializer, at)?;
        let at = put_doubled(&self.active_conditionals_kv, serializer, at)?;
        Ok(at)
    }

    /// Reads the fields `atr_mod_secondary_range` to `active_conditionals_kv`.
    fn take_part8(deserializer: &mut Deserializer, Ghost(at): Ghost<Reading>) -> (r: Result<
        (EffectPart8, Ghost<Reading>),
        Error,
    >)
        requires
            at.holds(old(deserializer).reader@),
            at.shapes == Self::shape()->Tuple_0,
            at.next == 64,
        ensures
            match r {
                Ok((v, next)) => next@.holds(final(deserializer).reader@) && next@.shapes
                    == at.shapes && next@.input == at.input && next@.next == 66
                    && next@.sofar == at.sofar + Self::part8_data(v),
                Err(e) => parse(Self::shape(), at.input) == Err::<(Datum, Seq<u8>), Fault>(e@),
            },
    {
        let ghost before = at.sofar;
        let at = Ghost(at);
        let (atr_mod_secondary_range, at) = take_field::<Float32>(deserializer, at)?;
        let (active_conditionals_kv, at) = take_doubled::<(String, String)>(deserializer, at)?;
        let v = (
            atr_mod_secondary_range,
            active_conditionals_kv,
        );
        proof {
            reveal(Effect::part8_data);
            assert(at@.sofar =~= before + Self::part8_data(v));
        }
        Ok((v, at))
    }

    /// Puts the parts of a record together.
    fn assemble(
        part1: EffectPart1,
        part2: EffectPart2,
        part3: EffectPart3,
        part4: EffectPart4,
        part5: EffectPart5,
        part6: EffectPart6,
        part7: EffectPart7,
        part8: EffectPart8,
    ) -> (record: Self)
        ensures
            record.part1() == part1,
            record.part2() == part2,
            record.part3() == part3,
            record.part4() == part4,
            record.part5() == part5,
            record.part6() == part6,
            record.part7() == part7,
            record.part8() == part8,
    {
        proof {
            reveal(Effect::part1);
            reveal(Effect::part2);
            reveal(Effect::part3);
            reveal(Effect::part4);
            reveal(Effect::part5);
            reveal(Effect::part6);
            reveal(Effect::part7);
            reveal(Effect::part8);
        }
        Effect {
            power_full_name: part1.0,
            unique_id: part1.1,
            effect_class: part1.2,
            effect_type: part1.3,
            damage_type: part1.4,
            mez_type: part1.5,
            et_modifies: part1.6,
            summon: part1.7,
            delayed_time: part1.8,
            ticks: part1.9,
            stacking: part2.0,
            base_probability: part2.1,
            suppression: part2.2,
            buffable: part2.3,
            resistible: part2.4,
            special_case: part2.5,
            variable_modified_override: part3.0,
            ignore_scaling: part3.1,
            pv_mode: part3.2,
            to_who: part3.3,
            display_percentage_override: part3.4,
            scale: part3.5,
            n_magnitude: part3.6,
            n_duration: part3.7,
            attrib_type: part4.0,
            aspect: part4.1,
            modifier_table: part4.2,
            near_ground: part4.3,
            cancel_on_miss: part4.4,
            requires_to_hit_check: part4.5,
            uid_class_name: part4.6,
            n_id_class_name: part4.7,
            expression_duration: part4.8,
            expression_magnitude: part4.9,
            expression_probability: part5.0,
            reward: part5.1,
            effect_id: part5.2,
            ignore_ed: part5.3,
            override_: part5.4,
            procs_per_minute: part5.5,
            power_attribs: part5.6,
            atr_orig_accuracy: part5.7,
            atr_orig_activate_period: part5.8,
            atr_orig_arc: part5.9,
            atr_orig_cast_time: part6.0,
            atr_orig_effect_area: part6.1,
            atr_orig_endurance_cost: part6.2,
            atr_orig_interrupt_time: part6.3,
            atr_orig_max_targets: part6.4,
            atr_orig_radius: part6.5,
            atr_orig_range: part6.6,
            atr_orig_recharge_time: part6.7,
            atr_orig_secondary_range: part6.8,
            atr_mod_accuracy: part6.9,
            atr_mod_activate_period: part7.0,
            atr_mod_arc: part7.1,
            atr_mod_cast_time: part7.2,
            atr_mod_effect_area: part7.3,
            atr_mod_endurance_cost: part7.4,
            atr_mod_interrupt_time: part7.5,
            atr_mod_max_targets: part7.6,
            atr_mod_radius: part7.7,
            atr_mod_range: part7.8,
            atr_mod_recharge_time: part7.9,
            atr_mod_secondary_range: part8.0,
            active_conditionals_kv: part8.1,
        }
    }

    /// The values of a record are the values of its parts, one part after
    /// the other.
    proof fn lemma_gathered(&self)
        ensures
            self.datum()->List_0 == Seq::<Datum>::empty()
                + Self::part1_data(self.part1())
                + Self::part2_data(self.part2())
                + Self::part3_data(self.part3())
                + Self::part4_data(self.part4())
                + Self::part5_data(self.part5())
                + Self::part6_data(self.part6())
                + Self::part7_data(self.part7())
                + Self::part8_data(self.part8()),
    {
        let items = self.datum()->List_0;
        let sofar = Seq::<Datum>::empty();
        lemma_gathered_starts(items);
        self.lemma_gather_part1(sofar);
        let sofar = sofar + Self::part1_data(self.part1());
        self.lemma_gather_part2(sofar);
        let sofar = sofar + Self::part2_data(self.part2());
        self.lemma_gather_part3(sofar);
        let sofar = sofar + Self::part3_data(self.part3());
        self.lemma_gather_part4(sofar);
        let sofar = sofar + Self::part4_data(self.part4());
        self.lemma_gather_part5(sofar);
        let sofar = sofar + Self::part5_data(self.part5());
        self.lemma_gather_part6(sofar);
        let sofar = sofar + Self::part6_data(self.part6());
        self.lemma_gather_part7(sofar);
        let sofar = sofar + Self::part7_data(self.part7());
        self.lemma_gather_part8(sofar);
        let sofar = sofar + Self::part8_data(self.part8());
        lemma_gathered_ends(sofar, items);
    }
}

impl Wire for Effect {
    open spec fn shape() -> Shape {
        Shape::Tuple(
            seq![
                String::shape(),
                i32::shape(),
                EffectClass::shape(),
                EffectType::shape(),
                Damage::shape(),
                Mez::shape(),
                EffectType::shape(),
                String::shape(),
                Float32::shape(),
                i32::shape(),
                Stacking::shape(),
                Float32::shape(),
                Suppress::shape(),
                bool::shape(),
                bool::shape(),
                SpecialCase::shape(),
                bool::shape(),
                bool::shape(),
                PvX::shape(),
                ToWho::shape(),
                OverrideBoolean::shape(),
                Float32::shape(),
                Float32::shape(),
                Float32::shape(),
                AttribType::shape(),
                Aspect::shape(),
                String::shape(),
                bool::shape(),
                bool::shape(),
                bool::shape(),
                String::shape(),
                i32::shape(),
                String::shape(),
                String::shape(),
                String::shape(),
                String::shape(),
                String::shape(),
                bool::shape(),
                String::shape(),
                Float32::shape(),
                PowerAttribs::shape(),
                Float32::shape(),
                Float32::shape(),
                i32::shape(),
                Float32::shape(),
                EffectArea::shape(),
                Float32::shape(),
                Float32::shape(),
                i32::shape(),
                Float32::shape(),
                Float32::shape(),
                Float32::shape(),
                Float32::shape(),
                Float32::shape(),
                Float32::shape(),
                i32::shape(),
                Float32::shape(),
                EffectArea::shape(),
                Float32::shape(),
                Float32::shape(),
                i32::shape(),
                Float32::shape(),
                Float32::shape(),
                Float32::shape(),
                Float32::shape(),
                doubled::<(String, String)>(),
            ],
        )
    }

    open spec fn datum(&self) -> Datum {
        Datum::List(
            seq![
                self.power_full_name.datum(),
                self.unique_id.datum(),
                self.effect_class.datum(),
                self.effect_type.datum(),
                self.damage_type.datum(),
                self.mez_type.datum(),
                self.et_modifies.datum(),
                self.summon.datum(),
                self.delayed_time.datum(),
                self.ticks.datum(),
                self.stacking.datum(),
                self.base_probability.datum(),
                self.suppression.datum(),
                self.buffable.datum(),
                self.resistible.datum(),
                self.special_case.datum(),
                self.variable_modified_override.datum(),
                self.ignore_scaling.datum(),
                self.pv_mode.datum(),
                self.to_who.datum(),
                self.display_percentage_override.datum(),
                self.scale.datum(),
                self.n_magnitude.datum(),
                self.n_duration.datum(),
                self.attrib_type.datum(),
                self.aspect.datum(),
                self.modifier_table.datum(),
                self.near_ground.datum(),
                self.cancel_on_miss.datum(),
                self.requires_to_hit_check.datum(),
                self.uid_class_name.datum(),
                self.n_id_class_name.datum(),
                self.expression_duration.datum(),
                self.expression_magnitude.datum(),
                self.expression_probability.datum(),
                self.reward.datum(),
                self.effect_id.datum(),
                self.ignore_ed.datum(),
                self.override_.datum(),
                self.procs_per_minute.datum(),
                self.power_attribs.datum(),
                self.atr_orig_accuracy.datum(),
                self.atr_orig_activate_period.datum(),
                self.atr_orig_arc.datum(),
                self.atr_orig_cast_time.datum(),
                self.atr_orig_effect_area.datum(),
                self.atr_orig_endurance_cost.datum(),
                self.atr_orig_interrupt_time.datum(),
                self.atr_orig_max_targets.datum(),
                self.atr_orig_radius.datum(),
                self.atr_orig_range.datum(),
                self.atr_orig_recharge_time.datum(),
                self.atr_orig_secondary_range.datum(),
                self.atr_mod_accuracy.datum(),
                self.atr_mod_activate_period.datum(),
                self.atr_mod_arc.datum(),
                self.atr_mod_cast_time.datum(),
                self.atr_mod_effect_area.datum(),
                self.atr_mod_endurance_cost.datum(),
                self.atr_mod_interrupt_time.datum(),
                self.atr_mod_max_targets.datum(),
                self.atr_mod_radius.datum(),
                self.atr_mod_range.datum(),
                self.atr_mod_recharge_time.datum(),
                self.atr_mod_secondary_range.datum(),
                self.active_conditionals_kv.datum(),
            ],
        )
    }

    proof fn lemma_conforms(&self) {
        let shapes = Self::shape()->Tuple_0;
        let items = self.datum()->List_0;
        lemma_fitting_starts(shapes, items);
        self.lemma_fit_part1();
        self.lemma_fit_part2();
        self.lemma_fit_part3();
        self.lemma_fit_part4();
        self.lemma_fit_part5();
        self.lemma_fit_part6();
        self.lemma_fit_part7();
        self.lemma_fit_part8();
        lemma_fitting_ends(shapes, items);
    }

    fn serialize(&self, serializer: &mut Serializer) -> (r: Result<(), Error>) {
        let at = begin_writing(serializer, Ghost(Self::shape()), Ghost(self.datum()));
        serializer.serialize_struct("Effect", 66)?;
        let at = self.put_part1(serializer, at)?;
        let at = self.put_part2(serializer, at)?;
        let at = self.put_part3(serializer, at)?;
        let at = self.put_part4(serializer, at)?;
        let at = self.put_part5(serializer, at)?;
        let at = self.put_part6(serializer, at)?;
        let at = self.put_part7(serializer, at)?;
        let at = self.put_part8(serializer, at)?;
        proof {
            at@.lemma_ends(serializer.writer@);
        }
        serializer.end()
    }

    fn deserialize(deserializer: &mut Deserializer) -> (r: Result<Self, Error>) {
        let at = begin_reading(deserializer, Ghost(Self::shape()));
        let (part1, at) = Self::take_part1(deserializer, at)?;
        let (part2, at) = Self::take_part2(deserializer, at)?;
        let (part3, at) = Self::take_part3(deserializer, at)?;
        let (part4, at) = Self::take_part4(deserializer, at)?;
        let (part5, at) = Self::take_part5(deserializer, at)?;
        let (part6, at) = Self::take_part6(deserializer, at)?;
        let (part7, at) = Self::take_part7(deserializer, at)?;
        let (part8, at) = Self::take_part8(deserializer, at)?;
        let record = Self::assemble(
            part1,
            part2,
            part3,
            part4,
            part5,
            part6,
            part7,
            part8,
        );
        proof {
            at@.lemma_ends(deserializer.reader@);
            record.lemma_gathered();
        }
        Ok(record)
    }
}

} // verus!
