//! Powers and what they require.

use crate::netbinary::de::Deserializer;
use crate::netbinary::error::{Error, Fault};
use crate::netbinary::model::{parse, Datum, Shape};
use crate::netbinary::record::{
    begin_reading, begin_writing, fields_written, fitting, gathered, lemma_fitting_ends,
    lemma_fitting_field, lemma_fitting_starts, lemma_gathered_ends, lemma_gathered_field,
    lemma_gathered_starts, put_field, Reading, take_field, Writing,
};
use crate::netbinary::ser::Serializer;
use crate::netbinary::wire::{Float32, Wire};
use vstd::prelude::*;
use super::effect::Effect;
use super::enums::{
    CastFlags, EffectArea, Enhance, Entity, GridType, ModeFlags, Notify, PowerType, SetType, Vector,
};

verus! {

/// A power, with everything the planner knows of it.
#[derive(Debug)]
pub struct Power {
    pub static_index: i32,
    pub full_name: String, // = full_name
    pub group_name: String, // = split(full_name, ".")[0]
    pub set_name: String, // = split(full_name, ".")[1]
    pub power_name: String, // = short_name/name or split(full_name, ".")[2]
    pub display_name: String, // = display_name
    pub available: i32, // unused
    pub requires: Requirement, // = parse(requires)
    pub modes_required: ModeFlags, // = bv(modes_required)
    pub modes_disallowed: ModeFlags, // = bv(modes_disallowed)
    pub power_type: PowerType, // = enum(type)
    pub accuracy: Float32, // = accuracy
    pub attack_types: Vector, // = bv(attack_types)
    pub group_membership: Vec<String>, // = exclusion_groups
    pub entities_affected: Entity, // = bv(targets_affected)
    pub entities_auto_hit: Entity, // = bv(targets_autohit)
    pub target: Entity, // = enum(target_type)
    pub target_lo_s: bool, // = target_visibility == "LineOfSight"
    pub range: Float32, // = range
    pub target_secondary: Entity, // = enum(target_type_secondary)
    pub range_secondary: Float32, // = range_secondary
    pub end_cost: Float32, // = endurance_cost
    pub interrupt_time: Float32, // = interrupt_time
    pub cast_time: Float32, // = activation_time
    pub recharge_time: Float32, // = recharge_time
    pub base_recharge_time: Float32, // = recharge_time
    pub activate_period: Float32, // = activate_period
    pub effect_area: EffectArea, // = enum(effect_area)
    pub radius: Float32, // = radius
    pub arc: i32, // = arc
    pub max_targets: i32, // = max_targets_hit
    pub max_boosts: String, // = str(max_boosts) // unused
    pub cast_flags: CastFlags, // = bv(caster_near_ground, target_near_ground, cast_when_dead)
    pub ai_report: Notify, // = enum(notify_ai_when)
    pub num_charges: i32, // = number_of_charges
    pub usage_time: i32, // = toggle_detoggle_time
    pub life_time: i32, // = power_lifetime
    pub life_time_in_game: i32, // = power_lifetime_ingame
    pub num_allowed: i32, // = number_allowed
    pub do_not_save: bool, // = do_not_save
    pub boosts_allowed: Vec<String>, // = translate(boosts_allowed)
    pub cast_through_hold: bool, // = contains(cast_through, "hold")
    pub ignore_strength: bool, // = ignore_strength
    pub desc_short: String, // = display_short_help
    pub desc_long: String, // = display_help
    pub enhancements: Vec<u32>, // = translate_via(boosts_allowed, "EClasses.mhd")
    pub set_types: Vec<SetType>, // = enum(allowed_boostset_cats)
    pub click_buff: bool,
    pub always_toggle: bool,
    pub level: i32, // available_level + 1
    pub allow_front_loading: bool,
    pub variable_enabled: bool,
    pub variable_override: bool,
    pub variable_name: String,
    pub variable_min: i32,
    pub variable_max: i32,
    pub uid_sub_power: Vec<String>,
    pub ignore_enh: Vec<Enhance>,
    pub ignore_buff: Vec<Enhance>,
    pub skip_max: bool,
    pub inherent_type: GridType,
    pub display_location: i32,
    pub mutex_auto: bool,
    pub mutex_ignore: bool,
    pub absorb_summon_effects: bool,
    pub absorb_summon_attributes: bool,
    pub show_summon_anyway: bool,
    pub never_auto_update: bool,
    pub never_auto_update_requirements: bool,
    pub include_flag: bool,
    pub forced_class: String,
    pub sort_override: bool,
    pub boost_boostable: bool,
    pub boost_use_player_level: bool,
    pub effects: Vec<Effect>,
    pub hidden_power: bool,
    pub active: bool,
    pub taken: bool,
    pub stacks: i32,
    pub variable_start: i32,
}

/// The fields `static_index` to `modes_disallowed` of a [`Power`].
type PowerPart1 = (
    i32, String, String, String, String, String, i32, Requirement, ModeFlags, ModeFlags,
);

/// The fields `power_type` to `target` of a [`Power`].
type PowerPart2 = (
    PowerType, Float32, Vector, Vec<String>, Entity, Entity, Entity,
);

/// The fields `target_lo_s` to `activate_period` of a [`Power`].
type PowerPart3 = (
    bool, Float32, Entity, Float32, Float32, Float32, Float32, Float32, Float32, Float32,
);

/// The fields `effect_area` to `life_time` of a [`Power`].
type PowerPart4 = (
    EffectArea, Float32, i32, i32, String, CastFlags, Notify, i32, i32, i32,
);

/// The fields `life_time_in_game` to `set_types` of a [`Power`].
type PowerPart5 = (
    i32, i32, bool, Vec<String>, bool, bool, String, String, Vec<u32>, Vec<SetType>,
);

/// The fields `click_buff` to `uid_sub_power` of a [`Power`].
type PowerPart6 = (
    bool, bool, i32, bool, bool, bool, String, i32, i32, Vec<String>,
);

/// The fields `ignore_enh` to `absorb_summon_effects` of a [`Power`].
type PowerPart7 = (
    Vec<Enhance>, Vec<Enhance>, bool, GridType, i32, bool, bool, bool,
);

/// The fields `absorb_summon_attributes` to `forced_class` of a [`Power`].
type PowerPart8 = (
    bool, bool, bool, bool, bool, String,
);

/// The fields `sort_override` to `active` of a [`Power`].
type PowerPart9 = (
    bool, bool, bool, Vec<Effect>, bool, bool,
);

/// The fields `taken` to `variable_start` of a [`Power`].
type PowerPart10 = (
    bool, i32, i32,
);

impl Power {
    /// The fields `static_index` to `modes_disallowed`, as they are read together.
    #[verifier::opaque]
    spec fn part1(&self) -> PowerPart1 {
        (
            self.static_index,
            self.full_name,
            self.group_name,
            self.set_name,
            self.power_name,
            self.display_name,
            self.available,
            self.requires,
            self.modes_required,
            self.modes_disallowed,
        )
    }

    /// The wire values of the fields `static_index` to `modes_disallowed`.
    #[verifier::opaque]
    spec fn part1_data(v: PowerPart1) -> Seq<Datum> {
        seq![
            v.0.datum(),
            v.1.datum(),
            v.2.datum(),
            v.3.datum(),
            v.4.datum(),
            v.5.datum(),
            v.6.datum(),
            v.7.datum(),
            v.8.datum(),
            v.9.datum(),
        ]
    }

    /// The fields `static_index` to `modes_disallowed` are values of their shapes.
    proof fn lemma_fit_part1(&self)
        requires
            fitting(Self::shape()->Tuple_0, self.datum()->List_0, 0),
        ensures
            fitting(Self::shape()->Tuple_0, self.datum()->List_0, 10),
    {
        let shapes = Self::shape()->Tuple_0;
        let items = self.datum()->List_0;
        lemma_fitting_field(&self.static_index, shapes, items, 0);
        lemma_fitting_field(&self.full_name, shapes, items, 1);
        lemma_fitting_field(&self.group_name, shapes, items, 2);
        lemma_fitting_field(&self.set_name, shapes, items, 3);
        lemma_fitting_field(&self.power_name, shapes, items, 4);
        lemma_fitting_field(&self.display_name, shapes, items, 5);
        lemma_fitting_field(&self.available, shapes, items, 6);
        lemma_fitting_field(&self.requires, shapes, items, 7);
        lemma_fitting_field(&self.modes_required, shapes, items, 8);
        lemma_fitting_field(&self.modes_disallowed, shapes, items, 9);
    }

    /// The fields `static_index` to `modes_disallowed` stand in their places among the values of the
    /// record.
    #[verifier::rlimit(50)]
    proof fn lemma_gather_part1(&self, sofar: Seq<Datum>)
        requires
            gathered(sofar, self.datum()->List_0),
            sofar.len() == 0,
        ensures
            gathered(sofar + Self::part1_data(self.part1()), self.datum()->List_0),
            (sofar + Self::part1_data(self.part1())).len() == 10,
    {
        reveal(Power::part1);
        reveal(Power::part1_data);
        let items = self.datum()->List_0;
        let part = sofar;
        lemma_gathered_field(part, items, 0, self.static_index.datum());
        let part = part.push(self.static_index.datum());
        lemma_gathered_field(part, items, 1, self.full_name.datum());
        let part = part.push(self.full_name.datum());
        lemma_gathered_field(part, items, 2, self.group_name.datum());
        let part = part.push(self.group_name.datum());
        lemma_gathered_field(part, items, 3, self.set_name.datum());
        let part = part.push(self.set_name.datum());
        lemma_gathered_field(part, items, 4, self.power_name.datum());
        let part = part.push(self.power_name.datum());
        lemma_gathered_field(part, items, 5, self.display_name.datum());
        let part = part.push(self.display_name.datum());
        lemma_gathered_field(part, items, 6, self.available.datum());
        let part = part.push(self.available.datum());
        lemma_gathered_field(part, items, 7, self.requires.datum());
        let part = part.push(self.requires.datum());
        lemma_gathered_field(part, items, 8, self.modes_required.datum());
        let part = part.push(self.modes_required.datum());
        lemma_gathered_field(part, items, 9, self.modes_disallowed.datum());
        let part = part.push(self.modes_disallowed.datum());
        assert(part =~= sofar + Self::part1_data(self.part1()));
    }

    /// Writes the fields `static_index` to `modes_disallowed`.
    fn put_part1(&self, serializer: &mut Serializer, Ghost(at): Ghost<Writing>) -> (r: Result<
        Ghost<Writing>,
        Error,
    >)
        requires
            at.holds(old(serializer).writer@),
            at.shapes == Self::shape()->Tuple_0,
            at.items == self.datum()->List_0,
            at.next == 0,
        ensures
            fields_written(r, at, 10, final(serializer).writer@),
    {
        let at = Ghost(at);
        let at = put_field(&self.static_index, serializer, at)?;
        let at = put_field(&self.full_name, serializer, at)?;
        let at = put_field(&self.group_name, serializer, at)?;
        let at = put_field(&self.set_name, serializer, at)?;
        let at = put_field(&self.power_name, serializer, at)?;
        let at = put_field(&self.display_name, serializer, at)?;
        let at = put_field(&self.available, serializer, at)?;
        let at = put_field(&self.requires, serializer, at)?;
        let at = put_field(&self.modes_required, serializer, at)?;
        let at = put_field(&self.modes_disallowed, serializer, at)?;
        Ok(at)
    }

    /// Reads the fields `static_index` to `modes_disallowed`.
    fn take_part1(deserializer: &mut Deserializer, Ghost(at): Ghost<Reading>) -> (r: Result<
        (PowerPart1, Ghost<Reading>),
        Error,
    >)
        requires
            at.holds(old(deserializer).reader@),
            at.shapes == Self::shape()->Tuple_0,
            at.next == 0,
        ensures
            match r {
                Ok((v, next)) => next@.holds(final(deserializer).reader@) && next@.shapes
                    == at.shapes && next@.input == at.input && next@.next == 10
                    && next@.sofar == at.sofar + Self::part1_data(v),
                Err(e) => parse(Self::shape(), at.input) == Err::<(Datum, Seq<u8>), Fault>(e@),
            },
    {
        let ghost before = at.sofar;
        let at = Ghost(at);
        let (static_index, at) = take_field::<i32>(deserializer, at)?;
        let (full_name, at) = take_field::<String>(deserializer, at)?;
        let (group_name, at) = take_field::<String>(deserializer, at)?;
        let (set_name, at) = take_field::<String>(deserializer, at)?;
        let (power_name, at) = take_field::<String>(deserializer, at)?;
        let (display_name, at) = take_field::<String>(deserializer, at)?;
        let (available, at) = take_field::<i32>(deserializer, at)?;
        let (requirement, at) = take_field::<Requirement>(deserializer, at)?;
        let (modes_required, at) = take_field::<ModeFlags>(deserializer, at)?;
        let (modes_disallowed, at) = take_field::<ModeFlags>(deserializer, at)?;
        let v = (
            static_index,
            full_name,
            group_name,
            set_name,
            power_name,
            display_name,
            available,
            requirement,
            modes_required,
            modes_disallowed,
        );
        proof {
            reveal(Power::part1_data);
            assert(at@.sofar =~= before + Self::part1_data(v));
        }
        Ok((v, at))
    }

    /// The fields `power_type` to `target`, as they are read together.
    #[verifier::opaque]
    spec fn part2(&self) -> PowerPart2 {
        (
            self.power_type,
            self.accuracy,
            self.attack_types,
            self.group_membership,
            self.entities_affected,
            self.entities_auto_hit,
            self.target,
        )
    }

    /// The wire values of the fields `power_type` to `target`.
    #[verifier::opaque]
    spec fn part2_data(v: PowerPart2) -> Seq<Datum> {
        seq![
            v.0.datum(),
            v.1.datum(),
            v.2.datum(),
            v.3.datum(),
            v.4.datum(),
            v.5.datum(),
            v.6.datum(),
        ]
    }

    /// The fields `power_type` to `target` are values of their shapes.
    proof fn lemma_fit_part2(&self)
        requires
            fitting(Self::shape()->Tuple_0, self.datum()->List_0, 10),
        ensures
            fitting(Self::shape()->Tuple_0, self.datum()->List_0, 17),
    {
        let shapes = Self::shape()->Tuple_0;
        let items = self.datum()->List_0;
        lemma_fitting_field(&self.power_type, shapes, items, 10);
        lemma_fitting_field(&self.accuracy, shapes, items, 11);
        lemma_fitting_field(&self.attack_types, shapes, items, 12);
        lemma_fitting_field(&self.group_membership, shapes, items, 13);
        lemma_fitting_field(&self.entities_affected, shapes, items, 14);
        lemma_fitting_field(&self.entities_auto_hit, shapes, items, 15);
        lemma_fitting_field(&self.target, shapes, items, 16);
    }

    /// The fields `power_type` to `target` stand in their places among the values of the
    /// record.
    #[verifier::rlimit(50)]
    proof fn lemma_gather_part2(&self, sofar: Seq<Datum>)
        requires
            gathered(sofar, self.datum()->List_0),
            sofar.len() == 10,
        ensures
            gathered(sofar + Self::part2_data(self.part2()), self.datum()->List_0),
            (sofar + Self::part2_data(self.part2())).len() == 17,
    {
        reveal(Power::part2);
        reveal(Power::part2_data);
        let items = self.datum()->List_0;
        let part = sofar;
        lemma_gathered_field(part, items, 10, self.power_type.datum());
        let part = part.push(self.power_type.datum());
        lemma_gathered_field(part, items, 11, self.accuracy.datum());
        let part = part.push(self.accuracy.datum());
        lemma_gathered_field(part, items, 12, self.attack_types.datum());
        let part = part.push(self.attack_types.datum());
        lemma_gathered_field(part, items, 13, self.group_membership.datum());
        let part = part.push(self.group_membership.datum());
        lemma_gathered_field(part, items, 14, self.entities_affected.datum());
        let part = part.push(self.entities_affected.datum());
        lemma_gathered_field(part, items, 15, self.entities_auto_hit.datum());
        let part = part.push(self.entities_auto_hit.datum());
        lemma_gathered_field(part, items, 16, self.target.datum());
        let part = part.push(self.target.datum());
        assert(part =~= sofar + Self::part2_data(self.part2()));
    }

    /// Writes the fields `power_type` to `target`.
    fn put_part2(&self, serializer: &mut Serializer, Ghost(at): Ghost<Writing>) -> (r: Result<
        Ghost<Writing>,
        Error,
    >)
        requires
            at.holds(old(serializer).writer@),
            at.shapes == Self::shape()->Tuple_0,
            at.items == self.datum()->List_0,
            at.next == 10,
        ensures
            fields_written(r, at, 17, final(serializer).writer@),
    {
        let at = Ghost(at);
        let at = put_field(&self.power_type, serializer, at)?;
        let at = put_field(&self.accuracy, serializer, at)?;
        let at = put_field(&self.attack_types, serializer, at)?;
        let at = put_field(&self.group_membership, serializer, at)?;
        let at = put_field(&self.entities_affected, serializer, at)?;
        let at = put_field(&self.entities_auto_hit, serializer, at)?;
        let at = put_field(&self.target, serializer, at)?;
        Ok(at)
    }

    /// Reads the fields `power_type` to `target`.
    fn take_part2(deserializer: &mut Deserializer, Ghost(at): Ghost<Reading>) -> (r: Result<
        (PowerPart2, Ghost<Reading>),
        Error,
    >)
        requires
            at.holds(old(deserializer).reader@),
            at.shapes == Self::shape()->Tuple_0,
            at.next == 10,
        ensures
            match r {
                Ok((v, next)) => next@.holds(final(deserializer).reader@) && next@.shapes
                    == at.shapes && next@.input == at.input && next@.next == 17
                    && next@.sofar == at.sofar + Self::part2_data(v),
                Err(e) => parse(Self::shape(), at.input) == Err::<(Datum, Seq<u8>), Fault>(e@),
            },
    {
        let ghost before = at.sofar;
        let at = Ghost(at);
        let (power_type, at) = take_field::<PowerType>(deserializer, at)?;
        let (accuracy, at) = take_field::<Float32>(deserializer, at)?;
        let (attack_types, at) = take_field::<Vector>(deserializer, at)?;
        let (group_membership, at) = take_field::<Vec<String>>(deserializer, at)?;
        let (entities_affected, at) = take_field::<Entity>(deserializer, at)?;
        let (entities_auto_hit, at) = take_field::<Entity>(deserializer, at)?;
        let (target, at) = take_field::<Entity>(deserializer, at)?;
        let v = (
            power_type,
            accuracy,
            attack_types,
            group_membership,
            entities_affected,
            entities_auto_hit,
            target,
        );
        proof {
            reveal(Power::part2_data);
            assert(at@.sofar =~= before + Self::part2_data(v));
        }
        Ok((v, at))
    }

    /// The fields `target_lo_s` to `activate_period`, as they are read together.
    #[verifier::opaque]
    spec fn part3(&self) -> PowerPart3 {
        (
            self.target_lo_s,
            self.range,
            self.target_secondary,
            self.range_secondary,
            self.end_cost,
            self.interrupt_time,
            self.cast_time,
            self.recharge_time,
            self.base_recharge_time,
            self.activate_period,
        )
    }

    /// The wire values of the fields `target_lo_s` to `activate_period`.
    #[verifier::opaque]
    spec fn part3_data(v: PowerPart3) -> Seq<Datum> {
        seq![
            v.0.datum(),
            v.1.datum(),
            v.2.datum(),
            v.3.datum(),
            v.4.datum(),
            v.5.datum(),
            v.6.datum(),
            v.7.datum(),
            v.8.datum(),
            v.9.datum(),
        ]
    }

    /// The fields `target_lo_s` to `activate_period` are values of their shapes.
    proof fn lemma_fit_part3(&self)
        requires
            fitting(Self::shape()->Tuple_0, self.datum()->List_0, 17),
        ensures
            fitting(Self::shape()->Tuple_0, self.datum()->List_0, 27),
    {
        let shapes = Self::shape()->Tuple_0;
        let items = self.datum()->List_0;
        lemma_fitting_field(&self.target_lo_s, shapes, items, 17);
        lemma_fitting_field(&self.range, shapes, items, 18);
        lemma_fitting_field(&self.target_secondary, shapes, items, 19);
        lemma_fitting_field(&self.range_secondary, shapes, items, 20);
        lemma_fitting_field(&self.end_cost, shapes, items, 21);
        lemma_fitting_field(&self.interrupt_time, shapes, items, 22);
        lemma_fitting_field(&self.cast_time, shapes, items, 23);
        lemma_fitting_field(&self.recharge_time, shapes, items, 24);
        lemma_fitting_field(&self.base_recharge_time, shapes, items, 25);
        lemma_fitting_field(&self.activate_period, shapes, items, 26);
    }

    /// The fields `target_lo_s` to `activate_period` stand in their places among the values of the
    /// record.
    #[verifier::rlimit(50)]
    proof fn lemma_gather_part3(&self, sofar: Seq<Datum>)
        requires
            gathered(sofar, self.datum()->List_0),
            sofar.len() == 17,
        ensures
            gathered(sofar + Self::part3_data(self.part3()), self.datum()->List_0),
            (sofar + Self::part3_data(self.part3())).len() == 27,
    {
        reveal(Power::part3);
        reveal(Power::part3_data);
        let items = self.datum()->List_0;
        let part = sofar;
        lemma_gathered_field(part, items, 17, self.target_lo_s.datum());
        let part = part.push(self.target_lo_s.datum());
        lemma_gathered_field(part, items, 18, self.range.datum());
        let part = part.push(self.range.datum());
        lemma_gathered_field(part, items, 19, self.target_secondary.datum());
        let part = part.push(self.target_secondary.datum());
        lemma_gathered_field(part, items, 20, self.range_secondary.datum());
        let part = part.push(self.range_secondary.datum());
        lemma_gathered_field(part, items, 21, self.end_cost.datum());
        let part = part.push(self.end_cost.datum());
        lemma_gathered_field(part, items, 22, self.interrupt_time.datum());
        let part = part.push(self.interrupt_time.datum());
        lemma_gathered_field(part, items, 23, self.cast_time.datum());
        let part = part.push(self.cast_time.datum());
        lemma_gathered_field(part, items, 24, self.recharge_time.datum());
        let part = part.push(self.recharge_time.datum());
        lemma_gathered_field(part, items, 25, self.base_recharge_time.datum());
        let part = part.push(self.base_recharge_time.datum());
        lemma_gathered_field(part, items, 26, self.activate_period.datum());
        let part = part.push(self.activate_period.datum());
        assert(part =~= sofar + Self::part3_data(self.part3()));
    }

    /// Writes the fields `target_lo_s` to `activate_period`.
    fn put_part3(&self, serializer: &mut Serializer, Ghost(at): Ghost<Writing>) -> (r: Result<
        Ghost<Writing>,
        Error,
    >)
        requires
            at.holds(old(serializer).writer@),
            at.shapes == Self::shape()->Tuple_0,
            at.items == self.datum()->List_0,
            at.next == 17,
        ensures
            fields_written(r, at, 27, final(serializer).writer@),
    {
        let at = Ghost(at);
        let at = put_field(&self.target_lo_s, serializer, at)?;
        let at = put_field(&self.range, serializer, at)?;
        let at = put_field(&self.target_secondary, serializer, at)?;
        let at = put_field(&self.range_secondary, serializer, at)?;
        let at = put_field(&self.end_cost, serializer, at)?;
        let at = put_field(&self.interrupt_time, serializer, at)?;
        let at = put_field(&self.cast_time, serializer, at)?;
        let at = put_field(&self.recharge_time, serializer, at)?;
        let at = put_field(&self.base_recharge_time, serializer, at)?;
        let at = put_field(&self.activate_period, serializer, at)?;
        Ok(at)
    }

    /// Reads the fields `target_lo_s` to `activate_period`.
    fn take_part3(deserializer: &mut Deserializer, Ghost(at): Ghost<Reading>) -> (r: Result<
        (PowerPart3, Ghost<Reading>),
        Error,
    >)
        requires
            at.holds(old(deserializer).reader@),
            at.shapes == Self::shape()->Tuple_0,
            at.next == 17,
        ensures
            match r {
                Ok((v, next)) => next@.holds(final(deserializer).reader@) && next@.shapes
                    == at.shapes && next@.input == at.input && next@.next == 27
                    && next@.sofar == at.sofar + Self::part3_data(v),
                Err(e) => parse(Self::shape(), at.input) == Err::<(Datum, Seq<u8>), Fault>(e@),
            },
    {
        let ghost before = at.sofar;
        let at = Ghost(at);
        let (target_lo_s, at) = take_field::<bool>(deserializer, at)?;
        let (range, at) = take_field::<Float32>(deserializer, at)?;
        let (target_secondary, at) = take_field::<Entity>(deserializer, at)?;
        let (range_secondary, at) = take_field::<Float32>(deserializer, at)?;
        let (end_cost, at) = take_field::<Float32>(deserializer, at)?;
        let (interrupt_time, at) = take_field::<Float32>(deserializer, at)?;
        let (cast_time, at) = take_field::<Float32>(deserializer, at)?;
        let (recharge_time, at) = take_field::<Float32>(deserializer, at)?;
        let (base_recharge_time, at) = take_field::<Float32>(deserializer, at)?;
        let (activate_period, at) = take_field::<Float32>(deserializer, at)?;
        let v = (
            target_lo_s,
            range,
            target_secondary,
            range_secondary,
            end_cost,
            interrupt_time,
            cast_time,
            recharge_time,
            base_recharge_time,
            activate_period,
        );
        proof {
            reveal(Power::part3_data);
            assert(at@.sofar =~= before + Self::part3_data(v));
        }
        Ok((v, at))
    }

    /// The fields `effect_area` to `life_time`, as they are read together.
    #[verifier::opaque]
    spec fn part4(&self) -> PowerPart4 {
        (
            self.effect_area,
            self.radius,
            self.arc,
            self.max_targets,
            self.max_boosts,
            self.cast_flags,
            self.ai_report,
            self.num_charges,
            self.usage_time,
            self.life_time,
        )
    }

    /// The wire values of the fields `effect_area` to `life_time`.
    #[verifier::opaque]
    spec fn part4_data(v: PowerPart4) -> Seq<Datum> {
        seq![
            v.0.datum(),
            v.1.datum(),
            v.2.datum(),
            v.3.datum(),
            v.4.datum(),
            v.5.datum(),
            v.6.datum(),
            v.7.datum(),
            v.8.datum(),
            v.9.datum(),
        ]
    }

    /// The fields `effect_area` to `life_time` are values of their shapes.
    proof fn lemma_fit_part4(&self)
        requires
            fitting(Self::shape()->Tuple_0, self.datum()->List_0, 27),
        ensures
            fitting(Self::shape()->Tuple_0, self.datum()->List_0, 37),
    {
        let shapes = Self::shape()->Tuple_0;
        let items = self.datum()->List_0;
        lemma_fitting_field(&self.effect_area, shapes, items, 27);
        lemma_fitting_field(&self.radius, shapes, items, 28);
        lemma_fitting_field(&self.arc, shapes, items, 29);
        lemma_fitting_field(&self.max_targets, shapes, items, 30);
        lemma_fitting_field(&self.max_boosts, shapes, items, 31);
        lemma_fitting_field(&self.cast_flags, shapes, items, 32);
        lemma_fitting_field(&self.ai_report, shapes, items, 33);
        lemma_fitting_field(&self.num_charges, shapes, items, 34);
        lemma_fitting_field(&self.usage_time, shapes, items, 35);
        lemma_fitting_field(&self.life_time, shapes, items, 36);
    }

    /// The fields `effect_area` to `life_time` stand in their places among the values of the
    /// record.
    #[verifier::rlimit(50)]
    proof fn lemma_gather_part4(&self, sofar: Seq<Datum>)
        requires
            gathered(sofar, self.datum()->List_0),
            sofar.len() == 27,
        ensures
            gathered(sofar + Self::part4_data(self.part4()), self.datum()->List_0),
            (sofar + Self::part4_data(self.part4())).len() == 37,
    {
        reveal(Power::part4);
        reveal(Power::part4_data);
        let items = self.datum()->List_0;
        let part = sofar;
        lemma_gathered_field(part, items, 27, self.effect_area.datum());
        let part = part.push(self.effect_area.datum());
        lemma_gathered_field(part, items, 28, self.radius.datum());
        let part = part.push(self.radius.datum());
        lemma_gathered_field(part, items, 29, self.arc.datum());
        let part = part.push(self.arc.datum());
        lemma_gathered_field(part, items, 30, self.max_targets.datum());
        let part = part.push(self.max_targets.datum());
        lemma_gathered_field(part, items, 31, self.max_boosts.datum());
        let part = part.push(self.max_boosts.datum());
        lemma_gathered_field(part, items, 32, self.cast_flags.datum());
        let part = part.push(self.cast_flags.datum());
        lemma_gathered_field(part, items, 33, self.ai_report.datum());
        let part = part.push(self.ai_report.datum());
        lemma_gathered_field(part, items, 34, self.num_charges.datum());
        let part = part.push(self.num_charges.datum());
        lemma_gathered_field(part, items, 35, self.usage_time.datum());
        let part = part.push(self.usage_time.datum());
        lemma_gathered_field(part, items, 36, self.life_time.datum());
        let part = part.push(self.life_time.datum());
        assert(part =~= sofar + Self::part4_data(self.part4()));
    }

    /// Writes the fields `effect_area` to `life_time`.
    fn put_part4(&self, serializer: &mut Serializer, Ghost(at): Ghost<Writing>) -> (r: Result<
        Ghost<Writing>,
        Error,
    >)
        requires
            at.holds(old(serializer).writer@),
            at.shapes == Self::shape()->Tuple_0,
            at.items == self.datum()->List_0,
            at.next == 27,
        ensures
            fields_written(r, at, 37, final(serializer).writer@),
    {
        let at = Ghost(at);
        let at = put_field(&self.effect_area, serializer, at)?;
        let at = put_field(&self.radius, serializer, at)?;
        let at = put_field(&self.arc, serializer, at)?;
        let at = put_field(&self.max_targets, serializer, at)?;
        let at = put_field(&self.max_boosts, serializer, at)?;
        let at = put_field(&self.cast_flags, serializer, at)?;
        let at = put_field(&self.ai_report, serializer, at)?;
        let at = put_field(&self.num_charges, serializer, at)?;
        let at = put_field(&self.usage_time, serializer, at)?;
        let at = put_field(&self.life_time, serializer, at)?;
        Ok(at)
    }

    /// Reads the fields `effect_area` to `life_time`.
    fn take_part4(deserializer: &mut Deserializer, Ghost(at): Ghost<Reading>) -> (r: Result<
        (PowerPart4, Ghost<Reading>),
        Error,
    >)
        requires
            at.holds(old(deserializer).reader@),
            at.shapes == Self::shape()->Tuple_0,
            at.next == 27,
        ensures
            match r {
                Ok((v, next)) => next@.holds(final(deserializer).reader@) && next@.shapes
                    == at.shapes && next@.input == at.input && next@.next == 37
                    && next@.sofar == at.sofar + Self::part4_data(v),
                Err(e) => parse(Self::shape(), at.input) == Err::<(Datum, Seq<u8>), Fault>(e@),
            },
    {
        let ghost before = at.sofar;
        let at = Ghost(at);
        let (effect_area, at) = take_field::<EffectArea>(deserializer, at)?;
        let (radius, at) = take_field::<Float32>(deserializer, at)?;
        let (arc, at) = take_field::<i32>(deserializer, at)?;
        let (max_targets, at) = take_field::<i32>(deserializer, at)?;
        let (max_boosts, at) = take_field::<String>(deserializer, at)?;
        let (cast_flags, at) = take_field::<CastFlags>(deserializer, at)?;
        let (ai_report, at) = take_field::<Notify>(deserializer, at)?;
        let (num_charges, at) = take_field::<i32>(deserializer, at)?;
        let (usage_time, at) = take_field::<i32>(deserializer, at)?;
        let (life_time, at) = take_field::<i32>(deserializer, at)?;
        let v = (
            effect_area,
            radius,
            arc,
            max_targets,
            max_boosts,
            cast_flags,
            ai_report,
            num_charges,
            usage_time,
            life_time,
        );
        proof {
            reveal(Power::part4_data);
            assert(at@.sofar =~= before + Self::part4_data(v));
        }
        Ok((v, at))
    }

    /// The fields `life_time_in_game` to `set_types`, as they are read together.
    #[verifier::opaque]
    spec fn part5(&self) -> PowerPart5 {
        (
            self.life_time_in_game,
            self.num_allowed,
            self.do_not_save,
            self.boosts_allowed,
            self.cast_through_hold,
            self.ignore_strength,
            self.desc_short,
            self.desc_long,
            self.enhancements,
            self.set_types,
        )
    }

    /// The wire values of the fields `life_time_in_game` to `set_types`.
    #[verifier::opaque]
    spec fn part5_data(v: PowerPart5) -> Seq<Datum> {
        seq![
            v.0.datum(),
            v.1.datum(),
            v.2.datum(),
            v.3.datum(),
            v.4.datum(),
            v.5.datum(),
            v.6.datum(),
            v.7.datum(),
            v.8.datum(),
            v.9.datum(),
        ]
    }

    /// The fields `life_time_in_game` to `set_types` are values of their shapes.
    proof fn lemma_fit_part5(&self)
        requires
            fitting(Self::shape()->Tuple_0, self.datum()->List_0, 37),
        ensures
            fitting(Self::shape()->Tuple_0, self.datum()->List_0, 47),
    {
        let shapes = Self::shape()->Tuple_0;
        let items = self.datum()->List_0;
        lemma_fitting_field(&self.life_time_in_game, shapes, items, 37);
        lemma_fitting_field(&self.num_allowed, shapes, items, 38);
        lemma_fitting_field(&self.do_not_save, shapes, items, 39);
        lemma_fitting_field(&self.boosts_allowed, shapes, items, 40);
        lemma_fitting_field(&self.cast_through_hold, shapes, items, 41);
        lemma_fitting_field(&self.ignore_strength, shapes, items, 42);
        lemma_fitting_field(&self.desc_short, shapes, items, 43);
        lemma_fitting_field(&self.desc_long, shapes, items, 44);
        lemma_fitting_field(&self.enhancements, shapes, items, 45);
        lemma_fitting_field(&self.set_types, shapes, items, 46);
    }

    /// The fields `life_time_in_game` to `set_types` stand in their places among the values of the
    /// record.
    #[verifier::rlimit(50)]
    proof fn lemma_gather_part5(&self, sofar: Seq<Datum>)
        requires
            gathered(sofar, self.datum()->List_0),
            sofar.len() == 37,
        ensures
            gathered(sofar + Self::part5_data(self.part5()), self.datum()->List_0),
            (sofar + Self::part5_data(self.part5())).len() == 47,
    {
        reveal(Power::part5);
        reveal(Power::part5_data);
        let items = self.datum()->List_0;
        let part = sofar;
        lemma_gathered_field(part, items, 37, self.life_time_in_game.datum());
        let part = part.push(self.life_time_in_game.datum());
        lemma_gathered_field(part, items, 38, self.num_allowed.datum());
        let part = part.push(self.num_allowed.datum());
        lemma_gathered_field(part, items, 39, self.do_not_save.datum());
        let part = part.push(self.do_not_save.datum());
        lemma_gathered_field(part, items, 40, self.boosts_allowed.datum());
        let part = part.push(self.boosts_allowed.datum());
        lemma_gathered_field(part, items, 41, self.cast_through_hold.datum());
        let part = part.push(self.cast_through_hold.datum());
        lemma_gathered_field(part, items, 42, self.ignore_strength.datum());
        let part = part.push(self.ignore_strength.datum());
        lemma_gathered_field(part, items, 43, self.desc_short.datum());
        let part = part.push(self.desc_short.datum());
        lemma_gathered_field(part, items, 44, self.desc_long.datum());
        let part = part.push(self.desc_long.datum());
        lemma_gathered_field(part, items, 45, self.enhancements.datum());
        let part = part.push(self.enhancements.datum());
        lemma_gathered_field(part, items, 46, self.set_types.datum());
        let part = part.push(self.set_types.datum());
        assert(part =~= sofar + Self::part5_data(self.part5()));
    }

    /// Writes the fields `life_time_in_game` to `set_types`.
    fn put_part5(&self, serializer: &mut Serializer, Ghost(at): Ghost<Writing>) -> (r: Result<
        Ghost<Writing>,
        Error,
    >)
        requires
            at.holds(old(serializer).writer@),
            at.shapes == Self::shape()->Tuple_0,
            at.items == self.datum()->List_0,
            at.next == 37,
        ensures
            fields_written(r, at, 47, final(serializer).writer@),
    {
        let at = Ghost(at);
        let at = put_field(&self.life_time_in_game, serializer, at)?;
        let at = put_field(&self.num_allowed, serializer, at)?;
        let at = put_field(&self.do_not_save, serializer, at)?;
        let at = put_field(&self.boosts_allowed, serializer, at)?;
        let at = put_field(&self.cast_through_hold, serializer, at)?;
        let at = put_field(&self.ignore_strength, serializer, at)?;
        let at = put_field(&self.desc_short, serializer, at)?;
        let at = put_field(&self.desc_long, serializer, at)?;
        let at = put_field(&self.enhancements, serializer, at)?;
        let at = put_field(&self.set_types, serializer, at)?;
        Ok(at)
    }

    /// Reads the fields `life_time_in_game` to `set_types`.
    fn take_part5(deserializer: &mut Deserializer, Ghost(at): Ghost<Reading>) -> (r: Result<
        (PowerPart5, Ghost<Reading>),
        Error,
    >)
        requires
            at.holds(old(deserializer).reader@),
            at.shapes == Self::shape()->Tuple_0,
            at.next == 37,
        ensures
            match r {
                Ok((v, next)) => next@.holds(final(deserializer).reader@) && next@.shapes
                    == at.shapes && next@.input == at.input && next@.next == 47
                    && next@.sofar == at.sofar + Self::part5_data(v),
                Err(e) => parse(Self::shape(), at.input) == Err::<(Datum, Seq<u8>), Fault>(e@),
            },
    {
        let ghost before = at.sofar;
        let at = Ghost(at);
        let (life_time_in_game, at) = take_field::<i32>(deserializer, at)?;
        let (num_allowed, at) = take_field::<i32>(deserializer, at)?;
        let (do_not_save, at) = take_field::<bool>(deserializer, at)?;
        let (boosts_allowed, at) = take_field::<Vec<String>>(deserializer, at)?;
        let (cast_through_hold, at) = take_field::<bool>(deserializer, at)?;
        let (ignore_strength, at) = take_field::<bool>(deserializer, at)?;
        let (desc_short, at) = take_field::<String>(deserializer, at)?;
        let (desc_long, at) = take_field::<String>(deserializer, at)?;
        let (enhancements, at) = take_field::<Vec<u32>>(deserializer, at)?;
        let (set_types, at) = take_field::<Vec<SetType>>(deserializer, at)?;
        let v = (
            life_time_in_game,
            num_allowed,
            do_not_save,
            boosts_allowed,
            cast_through_hold,
            ignore_strength,
            desc_short,
            desc_long,
            enhancements,
            set_types,
        );
        proof {
            reveal(Power::part5_data);
            assert(at@.sofar =~= before + Self::part5_data(v));
        }
        Ok((v, at))
    }

    /// The fields `click_buff` to `uid_sub_power`, as they are read together.
    #[verifier::opaque]
    spec fn part6(&self) -> PowerPart6 {
        (
            self.click_buff,
            self.always_toggle,
            self.level,
            self.allow_front_loading,
            self.variable_enabled,
            self.variable_override,
            self.variable_name,
            self.variable_min,
            self.variable_max,
            self.uid_sub_power,
        )
    }

    /// The wire values of the fields `click_buff` to `uid_sub_power`.
    #[verifier::opaque]
    spec fn part6_data(v: PowerPart6) -> Seq<Datum> {
        seq![
            v.0.datum(),
            v.1.datum(),
            v.2.datum(),
            v.3.datum(),
            v.4.datum(),
            v.5.datum(),
            v.6.datum(),
            v.7.datum(),
            v.8.datum(),
            v.9.datum(),
        ]
    }

    /// The fields `click_buff` to `uid_sub_power` are values of their shapes.
    proof fn lemma_fit_part6(&self)
        requires
            fitting(Self::shape()->Tuple_0, self.datum()->List_0, 47),
        ensures
            fitting(Self::shape()->Tuple_0, self.datum()->List_0, 57),
    {
        let shapes = Self::shape()->Tuple_0;
        let items = self.datum()->List_0;
        lemma_fitting_field(&self.click_buff, shapes, items, 47);
        lemma_fitting_field(&self.always_toggle, shapes, items, 48);
        lemma_fitting_field(&self.level, shapes, items, 49);
        lemma_fitting_field(&self.allow_front_loading, shapes, items, 50);
        lemma_fitting_field(&self.variable_enabled, shapes, items, 51);
        lemma_fitting_field(&self.variable_override, shapes, items, 52);
        lemma_fitting_field(&self.variable_name, shapes, items, 53);
        lemma_fitting_field(&self.variable_min, shapes, items, 54);
        lemma_fitting_field(&self.variable_max, shapes, items, 55);
        lemma_fitting_field(&self.uid_sub_power, shapes, items, 56);
    }

    /// The fields `click_buff` to `uid_sub_power` stand in their places among the values of the
    /// record.
    #[verifier::rlimit(50)]
    proof fn lemma_gather_part6(&self, sofar: Seq<Datum>)
        requires
            gathered(sofar, self.datum()->List_0),
            sofar.len() == 47,
        ensures
            gathered(sofar + Self::part6_data(self.part6()), self.datum()->List_0),
            (sofar + Self::part6_data(self.part6())).len() == 57,
    {
        reveal(Power::part6);
        reveal(Power::part6_data);
        let items = self.datum()->List_0;
        let part = sofar;
        lemma_gathered_field(part, items, 47, self.click_buff.datum());
        let part = part.push(self.click_buff.datum());
        lemma_gathered_field(part, items, 48, self.always_toggle.datum());
        let part = part.push(self.always_toggle.datum());
        lemma_gathered_field(part, items, 49, self.level.datum());
        let part = part.push(self.level.datum());
        lemma_gathered_field(part, items, 50, self.allow_front_loading.datum());
        let part = part.push(self.allow_front_loading.datum());
        lemma_gathered_field(part, items, 51, self.variable_enabled.datum());
        let part = part.push(self.variable_enabled.datum());
        lemma_gathered_field(part, items, 52, self.variable_override.datum());
        let part = part.push(self.variable_override.datum());
        lemma_gathered_field(part, items, 53, self.variable_name.datum());
        let part = part.push(self.variable_name.datum());
        lemma_gathered_field(part, items, 54, self.variable_min.datum());
        let part = part.push(self.variable_min.datum());
        lemma_gathered_field(part, items, 55, self.variable_max.datum());
        let part = part.push(self.variable_max.datum());
        lemma_gathered_field(part, items, 56, self.uid_sub_power.datum());
        let part = part.push(self.uid_sub_power.datum());
        assert(part =~= sofar + Self::part6_data(self.part6()));
    }

    /// Writes the fields `click_buff` to `uid_sub_power`.
    fn put_part6(&self, serializer: &mut Serializer, Ghost(at): Ghost<Writing>) -> (r: Result<
        Ghost<Writing>,
        Error,
    >)
        requires
            at.holds(old(serializer).writer@),
            at.shapes == Self::shape()->Tuple_0,
            at.items == self.datum()->List_0,
            at.next == 47,
        ensures
            fields_written(r, at, 57, final(serializer).writer@),
    {
        let at = Ghost(at);
        let at = put_field(&self.click_buff, serializer, at)?;
        let at = put_field(&self.always_toggle, serializer, at)?;
        let at = put_field(&self.level, serializer, at)?;
        let at = put_field(&self.allow_front_loading, serializer, at)?;
        let at = put_field(&self.variable_enabled, serializer, at)?;
        let at = put_field(&self.variable_override, serializer, at)?;
        let at = put_field(&self.variable_name, serializer, at)?;
        let at = put_field(&self.variable_min, serializer, at)?;
        let at = put_field(&self.variable_max, serializer, at)?;
        let at = put_field(&self.uid_sub_power, serializer, at)?;
        Ok(at)
    }

    /// Reads the fields `click_buff` to `uid_sub_power`.
    fn take_part6(deserializer: &mut Deserializer, Ghost(at): Ghost<Reading>) -> (r: Result<
        (PowerPart6, Ghost<Reading>),
        Error,
    >)
        requires
            at.holds(old(deserializer).reader@),
            at.shapes == Self::shape()->Tuple_0,
            at.next == 47,
        ensures
            match r {
                Ok((v, next)) => next@.holds(final(deserializer).reader@) && next@.shapes
                    == at.shapes && next@.input == at.input && next@.next == 57
                    && next@.sofar == at.sofar + Self::part6_data(v),
                Err(e) => parse(Self::shape(), at.input) == Err::<(Datum, Seq<u8>), Fault>(e@),
            },
    {
        let ghost before = at.sofar;
        let at = Ghost(at);
        let (click_buff, at) = take_field::<bool>(deserializer, at)?;
        let (always_toggle, at) = take_field::<bool>(deserializer, at)?;
        let (level, at) = take_field::<i32>(deserializer, at)?;
        let (allow_front_loading, at) = take_field::<bool>(deserializer, at)?;
        let (variable_enabled, at) = take_field::<bool>(deserializer, at)?;
        let (variable_override, at) = take_field::<bool>(deserializer, at)?;
        let (variable_name, at) = take_field::<String>(deserializer, at)?;
        let (variable_min, at) = take_field::<i32>(deserializer, at)?;
        let (variable_max, at) = take_field::<i32>(deserializer, at)?;
        let (uid_sub_power, at) = take_field::<Vec<String>>(deserializer, at)?;
        let v = (
            click_buff,
            always_toggle,
            level,
            allow_front_loading,
            variable_enabled,
            variable_override,
            variable_name,
            variable_min,
            variable_max,
            uid_sub_power,
        );
        proof {
            reveal(Power::part6_data);
            assert(at@.sofar =~= before + Self::part6_data(v));
        }
        Ok((v, at))
    }

    /// The fields `ignore_enh` to `absorb_summon_effects`, as they are read together.
    #[verifier::opaque]
    spec fn part7(&self) -> PowerPart7 {
        (
            self.ignore_enh,
            self.ignore_buff,
            self.skip_max,
            self.inherent_type,
            self.display_location,
            self.mutex_auto,
            self.mutex_ignore,
            self.absorb_summon_effects,
        )
    }

    /// The wire values of the fields `ignore_enh` to `absorb_summon_effects`.
    #[verifier::opaque]
    spec fn part7_data(v: PowerPart7) -> Seq<Datum> {
        seq![
            v.0.datum(),
            v.1.datum(),
            v.2.datum(),
            v.3.datum(),
            v.4.datum(),
            v.5.datum(),
            v.6.datum(),
            v.7.datum(),
        ]
    }

    /// The fields `ignore_enh` to `absorb_summon_effects` are values of their shapes.
    proof fn lemma_fit_part7(&self)
        requires
            fitting(Self::shape()->Tuple_0, self.datum()->List_0, 57),
        ensures
            fitting(Self::shape()->Tuple_0, self.datum()->List_0, 65),
    {
        let shapes = Self::shape()->Tuple_0;
        let items = self.datum()->List_0;
        lemma_fitting_field(&self.ignore_enh, shapes, items, 57);
        lemma_fitting_field(&self.ignore_buff, shapes, items, 58);
        lemma_fitting_field(&self.skip_max, shapes, items, 59);
        lemma_fitting_field(&self.inherent_type, shapes, items, 60);
        lemma_fitting_field(&self.display_location, shapes, items, 61);
        lemma_fitting_field(&self.mutex_auto, shapes, items, 62);
        lemma_fitting_field(&self.mutex_ignore, shapes, items, 63);
        lemma_fitting_field(&self.absorb_summon_effects, shapes, items, 64);
    }

    /// The fields `ignore_enh` to `absorb_summon_effects` stand in their places among the values of the
    /// record.
    #[verifier::rlimit(50)]
    proof fn lemma_gather_part7(&self, sofar: Seq<Datum>)
        requires
            gathered(sofar, self.datum()->List_0),
            sofar.len() == 57,
        ensures
            gathered(sofar + Self::part7_data(self.part7()), self.datum()->List_0),
            (sofar + Self::part7_data(self.part7())).len() == 65,
    {
        reveal(Power::part7);
        reveal(Power::part7_data);
        let items = self.datum()->List_0;
        let part = sofar;
        lemma_gathered_field(part, items, 57, self.ignore_enh.datum());
        let part = part.push(self.ignore_enh.datum());
        lemma_gathered_field(part, items, 58, self.ignore_buff.datum());
        let part = part.push(self.ignore_buff.datum());
        lemma_gathered_field(part, items, 59, self.skip_max.datum());
        let part = part.push(self.skip_max.datum());
        lemma_gathered_field(part, items, 60, self.inherent_type.datum());
        let part = part.push(self.inherent_type.datum());
        lemma_gathered_field(part, items, 61, self.display_location.datum());
        let part = part.push(self.display_location.datum());
        lemma_gathered_field(part, items, 62, self.mutex_auto.datum());
        let part = part.push(self.mutex_auto.datum());
        lemma_gathered_field(part, items, 63, self.mutex_ignore.datum());
        let part = part.push(self.mutex_ignore.datum());
        lemma_gathered_field(part, items, 64, self.absorb_summon_effects.datum());
        let part = part.push(self.absorb_summon_effects.datum());
        assert(part =~= sofar + Self::part7_data(self.part7()));
    }

    /// Writes the fields `ignore_enh` to `absorb_summon_effects`.
    fn put_part7(&self, serializer: &mut Serializer, Ghost(at): Ghost<Writing>) -> (r: Result<
        Ghost<Writing>,
        Error,
    >)
        requires
            at.holds(old(serializer).writer@),
            at.shapes == Self::shape()->Tuple_0,
            at.items == self.datum()->List_0,
            at.next == 57,
        ensures
            fields_written(r, at, 65, final(serializer).writer@),
    {
        let at = Ghost(at);
        let at = put_field(&self.ignore_enh, serializer, at)?;
        let at = put_field(&self.ignore_buff, serializer, at)?;
        let at = put_field(&self.skip_max, serializer, at)?;
        let at = put_field(&self.inherent_type, serializer, at)?;
        let at = put_field(&self.display_location, serializer, at)?;
        let at = put_field(&self.mutex_auto, serializer, at)?;
        let at = put_field(&self.mutex_ignore, serializer, at)?;
        let at = put_field(&self.absorb_summon_effects, serializer, at)?;
        Ok(at)
    }

    /// Reads the fields `ignore_enh` to `absorb_summon_effects`.
    fn take_part7(deserializer: &mut Deserializer, Ghost(at): Ghost<Reading>) -> (r: Result<
        (PowerPart7, Ghost<Reading>),
        Error,
    >)
        requires
            at.holds(old(deserializer).reader@),
            at.shapes == Self::shape()->Tuple_0,
            at.next == 57,
        ensures
            match r {
                Ok((v, next)) => next@.holds(final(deserializer).reader@) && next@.shapes
                    == at.shapes && next@.input == at.input && next@.next == 65
                    && next@.sofar == at.sofar + Self::part7_data(v),
                Err(e) => parse(Self::shape(), at.input) == Err::<(Datum, Seq<u8>), Fault>(e@),
            },
    {
        let ghost before = at.sofar;
        let at = Ghost(at);
        let (ignore_enh, at) = take_field::<Vec<Enhance>>(deserializer, at)?;
        let (ignore_buff, at) = take_field::<Vec<Enhance>>(deserializer, at)?;
        let (skip_max, at) = take_field::<bool>(deserializer, at)?;
        let (inherent_type, at) = take_field::<GridType>(deserializer, at)?;
        let (display_location, at) = take_field::<i32>(deserializer, at)?;
        let (mutex_auto, at) = take_field::<bool>(deserializer, at)?;
        let (mutex_ignore, at) = take_field::<bool>(deserializer, at)?;
        let (absorb_summon_effects, at) = take_field::<bool>(deserializer, at)?;
        let v = (
            ignore_enh,
            ignore_buff,
            skip_max,
            inherent_type,
            display_location,
            mutex_auto,
            mutex_ignore,
            absorb_summon_effects,
        );
        proof {
            reveal(Power::part7_data);
            assert(at@.sofar =~= before + Self::part7_data(v));
        }
        Ok((v, at))
    }

    /// The fields `absorb_summon_attributes` to `forced_class`, as they are read together.
    #[verifier::opaque]
    spec fn part8(&self) -> PowerPart8 {
        (
            self.absorb_summon_attributes,
            self.show_summon_anyway,
            self.never_auto_update,
            self.never_auto_update_requirements,
            self.include_flag,
            self.forced_class,
        )
    }

    /// The wire values of the fields `absorb_summon_attributes` to `forced_class`.
    #[verifier::opaque]
    spec fn part8_data(v: PowerPart8) -> Seq<Datum> {
        seq![
            v.0.datum(),
            v.1.datum(),
            v.2.datum(),
            v.3.datum(),
            v.4.datum(),
            v.5.datum(),
        ]
    }

    /// The fields `absorb_summon_attributes` to `forced_class` are values of their shapes.
    proof fn lemma_fit_part8(&self)
        requires
            fitting(Self::shape()->Tuple_0, self.datum()->List_0, 65),
        ensures
            fitting(Self::shape()->Tuple_0, self.datum()->List_0, 71),
    {
        let shapes = Self::shape()->Tuple_0;
        let items = self.datum()->List_0;
        lemma_fitting_field(&self.absorb_summon_attributes, shapes, items, 65);
        lemma_fitting_field(&self.show_summon_anyway, shapes, items, 66);
        lemma_fitting_field(&self.never_auto_update, shapes, items, 67);
        lemma_fitting_field(&self.never_auto_update_requirements, shapes, items, 68);
        lemma_fitting_field(&self.include_flag, shapes, items, 69);
        lemma_fitting_field(&self.forced_class, shapes, items, 70);
    }

    /// The fields `absorb_summon_attributes` to `forced_class` stand in their places among the values of the
    /// record.
    #[verifier::rlimit(50)]
    proof fn lemma_gather_part8(&self, sofar: Seq<Datum>)
        requires
            gathered(sofar, self.datum()->List_0),
            sofar.len() == 65,
        ensures
            gathered(sofar + Self::part8_data(self.part8()), self.datum()->List_0),
            (sofar + Self::part8_data(self.part8())).len() == 71,
    {
        reveal(Power::part8);
        reveal(Power::part8_data);
        let items = self.datum()->List_0;
        let part = sofar;
        lemma_gathered_field(part, items, 65, self.absorb_summon_attributes.datum());
        let part = part.push(self.absorb_summon_attributes.datum());
        lemma_gathered_field(part, items, 66, self.show_summon_anyway.datum());
        let part = part.push(self.show_summon_anyway.datum());
        lemma_gathered_field(part, items, 67, self.never_auto_update.datum());
        let part = part.push(self.never_auto_update.datum());
        lemma_gathered_field(part, items, 68, self.never_auto_update_requirements.datum());
        let part = part.push(self.never_auto_update_requirements.datum());
        lemma_gathered_field(part, items, 69, self.include_flag.datum());
        let part = part.push(self.include_flag.datum());
        lemma_gathered_field(part, items, 70, self.forced_class.datum());
        let part = part.push(self.forced_class.datum());
        assert(part =~= sofar + Self::part8_data(self.part8()));
    }

    /// Writes the fields `absorb_summon_attributes` to `forced_class`.
    fn put_part8(&self, serializer: &mut Serializer, Ghost(at): Ghost<Writing>) -> (r: Result<
        Ghost<Writing>,
        Error,
    >)
        requires
            at.holds(old(serializer).writer@),
            at.shapes == Self::shape()->Tuple_0,
            at.items == self.datum()->List_0,
            at.next == 65,
        ensures
            fields_written(r, at, 71, final(serializer).writer@),
    {
        let at = Ghost(at);
        let at = put_field(&self.absorb_summon_attributes, serializer, at)?;
        let at = put_field(&self.show_summon_anyway, serializer, at)?;
        let at = put_field(&self.never_auto_update, serializer, at)?;
        let at = put_field(&self.never_auto_update_requirements, serializer, at)?;
        let at = put_field(&self.include_flag, serializer, at)?;
        let at = put_field(&self.forced_class, serializer, at)?;
        Ok(at)
    }

    /// Reads the fields `absorb_summon_attributes` to `forced_class`.
    fn take_part8(deserializer: &mut Deserializer, Ghost(at): Ghost<Reading>) -> (r: Result<
        (PowerPart8, Ghost<Reading>),
        Error,
    >)
        requires
            at.holds(old(deserializer).reader@),
            at.shapes == Self::shape()->Tuple_0,
            at.next == 65,
        ensures
            match r {
                Ok((v, next)) => next@.holds(final(deserializer).reader@) && next@.shapes
                    == at.shapes && next@.input == at.input && next@.next == 71
                    && next@.sofar == at.sofar + Self::part8_data(v),
                Err(e) => parse(Self::shape(), at.input) == Err::<(Datum, Seq<u8>), Fault>(e@),
            },
    {
        let ghost before = at.sofar;
        let at = Ghost(at);
        let (absorb_summon_attributes, at) = take_field::<bool>(deserializer, at)?;
        let (show_summon_anyway, at) = take_field::<bool>(deserializer, at)?;
        let (never_auto_update, at) = take_field::<bool>(deserializer, at)?;
        let (never_auto_update_requirements, at) = take_field::<bool>(deserializer, at)?;
        let (include_flag, at) = take_field::<bool>(deserializer, at)?;
        let (forced_class, at) = take_field::<String>(deserializer, at)?;
        let v = (
            absorb_summon_attributes,
            show_summon_anyway,
            never_auto_update,
            never_auto_update_requirements,
            include_flag,
            forced_class,
        );
        proof {
            reveal(Power::part8_data);
            assert(at@.sofar =~= before + Self::part8_data(v));
        }
        Ok((v, at))
    }

    /// The fields `sort_override` to `active`, as they are read together.
    #[verifier::opaque]
    spec fn part9(&self) -> PowerPart9 {
        (
            self.sort_override,
            self.boost_boostable,
            self.boost_use_player_level,
            self.effects,
            self.hidden_power,
            self.active,
        )
    }

    /// The wire values of the fields `sort_override` to `active`.
    #[verifier::opaque]
    spec fn part9_data(v: PowerPart9) -> Seq<Datum> {
        seq![
            v.0.datum(),
            v.1.datum(),
            v.2.datum(),
            v.3.datum(),
            v.4.datum(),
            v.5.datum(),
        ]
    }

    /// The fields `sort_override` to `active` are values of their shapes.
    proof fn lemma_fit_part9(&self)
        requires
            fitting(Self::shape()->Tuple_0, self.datum()->List_0, 71),
        ensures
            fitting(Self::shape()->Tuple_0, self.datum()->List_0, 77),
    {
        let shapes = Self::shape()->Tuple_0;
        let items = self.datum()->List_0;
        lemma_fitting_field(&self.sort_override, shapes, items, 71);
        lemma_fitting_field(&self.boost_boostable, shapes, items, 72);
        lemma_fitting_field(&self.boost_use_player_level, shapes, items, 73);
        lemma_fitting_field(&self.effects, shapes, items, 74);
        lemma_fitting_field(&self.hidden_power, shapes, items, 75);
        lemma_fitting_field(&self.active, shapes, items, 76);
    }

    /// The fields `sort_override` to `active` stand in their places among the values of the
    /// record.
    #[verifier::rlimit(50)]
    proof fn lemma_gather_part9(&self, sofar: Seq<Datum>)
        requires
            gathered(sofar, self.datum()->List_0),
            sofar.len() == 71,
        ensures
            gathered(sofar + Self::part9_data(self.part9()), self.datum()->List_0),
            (sofar + Self::part9_data(self.part9())).len() == 77,
    {
        reveal(Power::part9);
        reveal(Power::part9_data);
        let items = self.datum()->List_0;
        let part = sofar;
        lemma_gathered_field(part, items, 71, self.sort_override.datum());
        let part = part.push(self.sort_override.datum());
        lemma_gathered_field(part, items, 72, self.boost_boostable.datum());
        let part = part.push(self.boost_boostable.datum());
        lemma_gathered_field(part, items, 73, self.boost_use_player_level.datum());
        let part = part.push(self.boost_use_player_level.datum());
        lemma_gathered_field(part, items, 74, self.effects.datum());
        let part = part.push(self.effects.datum());
        lemma_gathered_field(part, items, 75, self.hidden_power.datum());
        let part = part.push(self.hidden_power.datum());
        lemma_gathered_field(part, items, 76, self.active.datum());
        let part = part.push(self.active.datum());
        assert(part =~= sofar + Self::part9_data(self.part9()));
    }

    /// Writes the fields `sort_override` to `active`.
    fn put_part9(&self, serializer: &mut Serializer, Ghost(at): Ghost<Writing>) -> (r: Result<
        Ghost<Writing>,
        Error,
    >)
        requires
            at.holds(old(serializer).writer@),
            at.shapes == Self::shape()->Tuple_0,
            at.items == self.datum()->List_0,
            at.next == 71,
        ensures
            fields_written(r, at, 77, final(serializer).writer@),
    {
        let at = Ghost(at);
        let at = put_field(&self.sort_override, serializer, at)?;
        let at = put_field(&self.boost_boostable, serializer, at)?;
        let at = put_field(&self.boost_use_player_level, serializer, at)?;
        let at = put_field(&self.effects, serializer, at)?;
        let at = put_field(&self.hidden_power, serializer, at)?;
        let at = put_field(&self.active, serializer, at)?;
        Ok(at)
    }

    /// Reads the fields `sort_override` to `active`.
    fn take_part9(deserializer: &mut Deserializer, Ghost(at): Ghost<Reading>) -> (r: Result<
        (PowerPart9, Ghost<Reading>),
        Error,
    >)
        requires
            at.holds(old(deserializer).reader@),
            at.shapes == Self::shape()->Tuple_0,
            at.next == 71,
        ensures
            match r {
                Ok((v, next)) => next@.holds(final(deserializer).reader@) && next@.shapes
                    == at.shapes && next@.input == at.input && next@.next == 77
                    && next@.sofar == at.sofar + Self::part9_data(v),
                Err(e) => parse(Self::shape(), at.input) == Err::<(Datum, Seq<u8>), Fault>(e@),
            },
    {
        let ghost before = at.sofar;
        let at = Ghost(at);
        let (sort_override, at) = take_field::<bool>(deserializer, at)?;
        let (boost_boostable, at) = take_field::<bool>(deserializer, at)?;
        let (boost_use_player_level, at) = take_field::<bool>(deserializer, at)?;
        let (effects, at) = take_field::<Vec<Effect>>(deserializer, at)?;
        let (hidden_power, at) = take_field::<bool>(deserializer, at)?;
        let (active, at) = take_field::<bool>(deserializer, at)?;
        let v = (
            sort_override,
            boost_boostable,
            boost_use_player_level,
            effects,
            hidden_power,
            active,
        );
        proof {
            reveal(Power::part9_data);
            assert(at@.sofar =~= before + Self::part9_data(v));
        }
        Ok((v, at))
    }

    /// The fields `taken` to `variable_start`, as they are read together.
    #[verifier::opaque]
    spec fn part10(&self) -> PowerPart10 {
        (
            self.taken,
            self.stacks,
            self.variable_start,
        )
    }

    /// The wire values of the fields `taken` to `variable_start`.
    #[verifier::opaque]
    spec fn part10_data(v: PowerPart10) -> Seq<Datum> {
        seq![
            v.0.datum(),
            v.1.datum(),
            v.2.datum(),
        ]
    }

    /// The fields `taken` to `variable_start` are values of their shapes.
    proof fn lemma_fit_part10(&self)
        requires
            fitting(Self::shape()->Tuple_0, self.datum()->List_0, 77),
        ensures
            fitting(Self::shape()->Tuple_0, self.datum()->List_0, 80),
    {
        let shapes = Self::shape()->Tuple_0;
        let items = self.datum()->List_0;
        lemma_fitting_field(&self.taken, shapes, items, 77);
        lemma_fitting_field(&self.stacks, shapes, items, 78);
        lemma_fitting_field(&self.variable_start, shapes, items, 79);
    }

    /// The fields `taken` to `variable_start` stand in their places among the values of the
    /// record.
    #[verifier::rlimit(50)]
    proof fn lemma_gather_part10(&self, sofar: Seq<Datum>)
        requires
            gathered(sofar, self.datum()->List_0),
            sofar.len() == 77,
        ensures
            gathered(sofar + Self::part10_data(self.part10()), self.datum()->List_0),
            (sofar + Self::part10_data(self.part10())).len() == 80,
    {
        reveal(Power::part10);
        reveal(Power::part10_data);
        let items = self.datum()->List_0;
        let part = sofar;
        lemma_gathered_field(part, items, 77, self.taken.datum());
        let part = part.push(self.taken.datum());
        lemma_gathered_field(part, items, 78, self.stacks.datum());
        let part = part.push(self.stacks.datum());
        lemma_gathered_field(part, items, 79, self.variable_start.datum());
        let part = part.push(self.variable_start.datum());
        assert(part =~= sofar + Self::part10_data(self.part10()));
    }

    /// Writes the fields `taken` to `variable_start`.
    fn put_part10(&self, serializer: &mut Serializer, Ghost(at): Ghost<Writing>) -> (r: Result<
        Ghost<Writing>,
        Error,
    >)
        requires
            at.holds(old(serializer).writer@),
            at.shapes == Self::shape()->Tuple_0,
            at.items == self.datum()->List_0,
            at.next == 77,
        ensures
            fields_written(r, at, 80, final(serializer).writer@),
    {
        let at = Ghost(at);
        let at = put_field(&self.taken, serializer, at)?;
        let at = put_field(&self.stacks, serializer, at)?;
        let at = put_field(&self.variable_start, serializer, at)?;
        Ok(at)
    }

    /// Reads the fields `taken` to `variable_start`.
    fn take_part10(deserializer: &mut Deserializer, Ghost(at): Ghost<Reading>) -> (r: Result<
        (PowerPart10, Ghost<Reading>),
        Error,
    >)
        requires
            at.holds(old(deserializer).reader@),
            at.shapes == Self::shape()->Tuple_0,
            at.next == 77,
        ensures
            match r {
                Ok((v, next)) => next@.holds(final(deserializer).reader@) && next@.shapes
                    == at.shapes && next@.input == at.input && next@.next == 80
                    && next@.sofar == at.sofar + Self::part10_data(v),
                Err(e) => parse(Self::shape(), at.input) == Err::<(Datum, Seq<u8>), Fault>(e@),
            },
    {
        let ghost before = at.sofar;
        let at = Ghost(at);
        let (taken, at) = take_field::<bool>(deserializer, at)?;
        let (stacks, at) = take_field::<i32>(deserializer, at)?;
        let (variable_start, at) = take_field::<i32>(deserializer, at)?;
        let v = (
            taken,
            stacks,
            variable_start,
        );
        proof {
            reveal(Power::part10_data);
            assert(at@.sofar =~= before + Self::part10_data(v));
        }
        Ok((v, at))
    }

    /// Puts the parts of a record together.
    fn assemble(
        part1: PowerPart1,
        part2: PowerPart2,
        part3: PowerPart3,
        part4: PowerPart4,
        part5: PowerPart5,
        part6: PowerPart6,
        part7: PowerPart7,
        part8: PowerPart8,
        part9: PowerPart9,
        part10: PowerPart10,
    ) -> (record: Self)
        ensures
            record.part1() == part1,
            record.part2() == part2,
            record.part3() == part3,
            record.part4() == part4,
            record.part5() == part5,
            record.part6() == part6,
            record.part7() == part7,
            record.part8() == part8,
            record.part9() == part9,
            record.part10() == part10,
    {
        proof {
            reveal(Power::part1);
            reveal(Power::part2);
            reveal(Power::part3);
            reveal(Power::part4);
            reveal(Power::part5);
            reveal(Power::part6);
            reveal(Power::part7);
            reveal(Power::part8);
            reveal(Power::part9);
            reveal(Power::part10);
        }
        Power {
            static_index: part1.0,
            full_name: part1.1,
            group_name: part1.2,
            set_name: part1.3,
            power_name: part1.4,
            display_name: part1.5,
            available: part1.6,
            requires: part1.7,
            modes_required: part1.8,
            modes_disallowed: part1.9,
            power_type: part2.0,
            accuracy: part2.1,
            attack_types: part2.2,
            group_membership: part2.3,
            entities_affected: part2.4,
            entities_auto_hit: part2.5,
            target: part2.6,
            target_lo_s: part3.0,
            range: part3.1,
            target_secondary: part3.2,
            range_secondary: part3.3,
            end_cost: part3.4,
            interrupt_time: part3.5,
            cast_time: part3.6,
            recharge_time: part3.7,
            base_recharge_time: part3.8,
            activate_period: part3.9,
            effect_area: part4.0,
            radius: part4.1,
            arc: part4.2,
            max_targets: part4.3,
            max_boosts: part4.4,
            cast_flags: part4.5,
            ai_report: part4.6,
            num_charges: part4.7,
            usage_time: part4.8,
            life_time: part4.9,
            life_time_in_game: part5.0,
            num_allowed: part5.1,
            do_not_save: part5.2,
            boosts_allowed: part5.3,
            cast_through_hold: part5.4,
            ignore_strength: part5.5,
            desc_short: part5.6,
            desc_long: part5.7,
            enhancements: part5.8,
            set_types: part5.9,
            click_buff: part6.0,
            always_toggle: part6.1,
            level: part6.2,
            allow_front_loading: part6.3,
            variable_enabled: part6.4,
            variable_override: part6.5,
            variable_name: part6.6,
            variable_min: part6.7,
            variable_max: part6.8,
            uid_sub_power: part6.9,
            ignore_enh: part7.0,
            ignore_buff: part7.1,
            skip_max: part7.2,
            inherent_type: part7.3,
            display_location: part7.4,
            mutex_auto: part7.5,
            mutex_ignore: part7.6,
            absorb_summon_effects: part7.7,
            absorb_summon_attributes: part8.0,
            show_summon_anyway: part8.1,
            never_auto_update: part8.2,
            never_auto_update_requirements: part8.3,
            include_flag: part8.4,
            forced_class: part8.5,
            sort_override: part9.0,
            boost_boostable: part9.1,
            boost_use_player_level: part9.2,
            effects: part9.3,
            hidden_power: part9.4,
            active: part9.5,
            taken: part10.0,
            stacks: part10.1,
            variable_start: part10.2,
        }
    }

    /// The values of a record are the values of its parts, one part after
    /// the other.
    proof fn lemma_gathered(&self)
        ensures
            self.datum()->List_0 == Seq::<Datum>::empty()
                + Self::part1_data(self.part1())
                + Self::part2_data(self.part2())
                + Self::part3_data(self.part3())
                + Self::part4_data(self.part4())
                + Self::part5_data(self.part5())
                + Self::part6_data(self.part6())
                + Self::part7_data(self.part7())
                + Self::part8_data(self.part8())
                + Self::part9_data(self.part9())
                + Self::part10_data(self.part10()),
    {
        let items = self.datum()->List_0;
        let sofar = Seq::<Datum>::empty();
        lemma_gathered_starts(items);
        self.lemma_gather_part1(sofar);
        let sofar = sofar + Self::part1_data(self.part1());
        self.lemma_gather_part2(sofar);
        let sofar = sofar + Self::part2_data(self.part2());
        self.lemma_gather_part3(sofar);
        let sofar = sofar + Self::part3_data(self.part3());
        self.lemma_gather_part4(sofar);
        let sofar = sofar + Self::part4_data(self.part4());
        self.lemma_gather_part5(sofar);
        let sofar = sofar + Self::part5_data(self.part5());
        self.lemma_gather_part6(sofar);
        let sofar = sofar + Self::part6_data(self.part6());
        self.lemma_gather_part7(sofar);
        let sofar = sofar + Self::part7_data(self.part7());
        self.lemma_gather_part8(sofar);
        let sofar = sofar + Self::part8_data(self.part8());
        self.lemma_gather_part9(sofar);
        let sofar = sofar + Self::part9_data(self.part9());
        self.lemma_gather_part10(sofar);
        let sofar = sofar + Self::part10_data(self.part10());
        lemma_gathered_ends(sofar, items);
    }
}

impl Wire for Power {
    open spec fn shape() -> Shape {
        Shape::Tuple(
            seq![
                i32::shape(),
                String::shape(),
                String::shape(),
                String::shape(),
                String::shape(),
                String::shape(),
                i32::shape(),
                Requirement::shape(),
                ModeFlags::shape(),
                ModeFlags::shape(),
                PowerType::shape(),
                Float32::shape(),
                Vector::shape(),
                <Vec<String>>::shape(),
                Entity::shape(),
                Entity::shape(),
                Entity::shape(),
                bool::shape(),
                Float32::shape(),
                Entity::shape(),
                Float32::shape(),
                Float32::shape(),
                Float32::shape(),
                Float32::shape(),
                Float32::shape(),
                Float32::shape(),
                Float32::shape(),
                EffectArea::shape(),
                Float32::shape(),
                i32::shape(),
                i32::shape(),
                String::shape(),
                CastFlags::shape(),
                Notify::shape(),
                i32::shape(),
                i32::shape(),
                i32::shape(),
                i32::shape(),
                i32::shape(),
                bool::shape(),
                <Vec<String>>::shape(),
                bool::shape(),
                bool::shape(),
                String::shape(),
                String::shape(),
                <Vec<u32>>::shape(),
                <Vec<SetType>>::shape(),
                bool::shape(),
                bool::shape(),
                i32::shape(),
                bool::shape(),
                bool::shape(),
                bool::shape(),
                String::shape(),
                i32::shape(),
                i32::shape(),
                <Vec<String>>::shape(),
                <Vec<Enhance>>::shape(),
                <Vec<Enhance>>::shape(),
                bool::shape(),
                GridType::shape(),
                i32::shape(),
                bool::shape(),
                bool::shape(),
                bool::shape(),
                bool::shape(),
                bool::shape(),
                bool::shape(),
                bool::shape(),
                bool::shape(),
                String::shape(),
                bool::shape(),
                bool::shape(),
                bool::shape(),
                <Vec<Effect>>::shape(),
                bool::shape(),
                bool::shape(),
                bool::shape(),
                i32::shape(),
                i32::shape(),
            ],
        )
    }

    open spec fn datum(&self) -> Datum {
        Datum::List(
            seq![
                self.static_index.datum(),
                self.full_name.datum(),
                self.group_name.datum(),
                self.set_name.datum(),
                self.power_name.datum(),
                self.display_name.datum(),
                self.available.datum(),
                self.requires.datum(),
                self.modes_required.datum(),
                self.modes_disallowed.datum(),
                self.power_type.datum(),
                self.accuracy.datum(),
                self.attack_types.datum(),
                self.group_membership.datum(),
                self.entities_affected.datum(),
                self.entities_auto_hit.datum(),
                self.target.datum(),
                self.target_lo_s.datum(),
                self.range.datum(),
                self.target_secondary.datum(),
                self.range_secondary.datum(),
                self.end_cost.datum(),
                self.interrupt_time.datum(),
                self.cast_time.datum(),
                self.recharge_time.datum(),
                self.base_recharge_time.datum(),
                self.activate_period.datum(),
                self.effect_area.datum(),
                self.radius.datum(),
                self.arc.datum(),
                self.max_targets.datum(),
                self.max_boosts.datum(),
                self.cast_flags.datum(),
                self.ai_report.datum(),
                self.num_charges.datum(),
                self.usage_time.datum(),
                self.life_time.datum(),
                self.life_time_in_game.datum(),
                self.num_allowed.datum(),
                self.do_not_save.datum(),
                self.boosts_allowed.datum(),
                self.cast_through_hold.datum(),
                self.ignore_strength.datum(),
                self.desc_short.datum(),
                self.desc_long.datum(),
                self.enhancements.datum(),
                self.set_types.datum(),
                self.click_buff.datum(),
                self.always_toggle.datum(),
                self.level.datum(),
                self.allow_front_loading.datum(),
                self.variable_enabled.datum(),
                self.variable_override.datum(),
                self.variable_name.datum(),
                self.variable_min.datum(),
                self.variable_max.datum(),
                self.uid_sub_power.datum(),
                self.ignore_enh.datum(),
                self.ignore_buff.datum(),
                self.skip_max.datum(),
                self.inherent_type.datum(),
                self.display_location.datum(),
                self.mutex_auto.datum(),
                self.mutex_ignore.datum(),
                self.absorb_summon_effects.datum(),
                self.absorb_summon_attributes.datum(),
                self.show_summon_anyway.datum(),
                self.never_auto_update.datum(),
                self.never_auto_update_requirements.datum(),
                self.include_flag.datum(),
                self.forced_class.datum(),
                self.sort_override.datum(),
                self.boost_boostable.datum(),
                self.boost_use_player_level.datum(),
                self.effects.datum(),
                self.hidden_power.datum(),
                self.active.datum(),
                self.taken.datum(),
                self.stacks.datum(),
                self.variable_start.datum(),
            ],
        )
    }

    proof fn lemma_conforms(&self) {
        let shapes = Self::shape()->Tuple_0;
        let items = self.datum()->List_0;
        lemma_fitting_starts(shapes, items);
        self.lemma_fit_part1();
        self.lemma_fit_part2();
        self.lemma_fit_part3();
        self.lemma_fit_part4();
        self.lemma_fit_part5();
        self.lemma_fit_part6();
        self.lemma_fit_part7();
        self.lemma_fit_part8();
        self.lemma_fit_part9();
        self.lemma_fit_part10();
        lemma_fitting_ends(shapes, items);
    }

    fn serialize(&self, serializer: &mut Serializer) -> (r: Result<(), Error>) {
        let at = begin_writing(serializer, Ghost(Self::shape()), Ghost(self.datum()));
        serializer.serialize_struct("Power", 80)?;
        let at = self.put_part1(serializer, at)?;
        let at = self.put_part2(serializer, at)?;
        let at = self.put_part3(serializer, at)?;
        let at = self.put_part4(serializer, at)?;
        let at = self.put_part5(serializer, at)?;
        let at = self.put_part6(serializer, at)?;
        let at = self.put_part7(serializer, at)?;
        let at = self.put_part8(serializer, at)?;
        let at = self.put_part9(serializer, at)?;
        let at = self.put_part10(serializer, at)?;
        proof {
            at@.lemma_ends(serializer.writer@);
        }
        serializer.end()
    }

    fn deserialize(deserializer: &mut Deserializer) -> (r: Result<Self, Error>) {
        let at = begin_reading(deserializer, Ghost(Self::shape()));
        let (part1, at) = Self::take_part1(deserializer, at)?;
        let (part2, at) = Self::take_part2(deserializer, at)?;
        let (part3, at) = Self::take_part3(deserializer, at)?;
        let (part4, at) = Self::take_part4(deserializer, at)?;
        let (part5, at) = Self::take_part5(deserializer, at)?;
        let (part6, at) = Self::take_part6(deserializer, at)?;
        let (part7, at) = Self::take_part7(deserializer, at)?;
        let (part8, at) = Self::take_part8(deserializer, at)?;
        let (part9, at) = Self::take_part9(deserializer, at)?;
        let (part10, at) = Self::take_part10(deserializer, at)?;
        let record = Self::assemble(
            part1,
            part2,
            part3,
            part4,
            part5,
            part6,
            part7,
            part8,
            part9,
            part10,
        );
        proof {
            at@.lemma_ends(deserializer.reader@);
            record.lemma_gathered();
        }
        Ok(record)
    }
}

/// What a character must have, and must not have, to take a power.
#[derive(Debug)]
pub struct Requirement {
    pub class_name: Vec<String>,
    pub class_name_not: Vec<String>,
    pub power_id: Vec<(String, String)>,
    pub power_id_not: Vec<(String, String)>,
}

impl Wire for Requirement {
    open spec fn shape() -> Shape {
        Shape::Tuple(
            seq![
                <Vec<String>>::shape(),
                <Vec<String>>::shape(),
                <Vec<(String, String)>>::shape(),
                <Vec<(String, String)>>::shape(),
            ],
        )
    }

    open spec fn datum(&self) -> Datum {
        Datum::List(
            seq![
                self.class_name.datum(),
                self.class_name_not.datum(),
                self.power_id.datum(),
                self.power_id_not.datum(),
            ],
        )
    }

    proof fn lemma_conforms(&self) {
        let shapes = Self::shape()->Tuple_0;
        let items = self.datum()->List_0;
        lemma_fitting_starts(shapes, items);
        lemma_fitting_field(&self.class_name, shapes, items, 0);
        lemma_fitting_field(&self.class_name_not, shapes, items, 1);
        lemma_fitting_field(&self.power_id, shapes, items, 2);
        lemma_fitting_field(&self.power_id_not, shapes, items, 3);
        lemma_fitting_ends(shapes, items);
    }

    fn serialize(&self, serializer: &mut Serializer) -> (r: Result<(), Error>) {
        let at = begin_writing(serializer, Ghost(Self::shape()), Ghost(self.datum()));
        serializer.serialize_struct("Requirement", 4)?;
        let at = put_field(&self.class_name, serializer, at)?;
        let at = put_field(&self.class_name_not, serializer, at)?;
        let at = put_field(&self.power_id, serializer, at)?;
        let at = put_field(&self.power_id_not, serializer, at)?;
        proof {
            at@.lemma_ends(serializer.writer@);
        }
        serializer.end()
    }

    fn deserialize(deserializer: &mut Deserializer) -> (r: Result<Self, Error>) {
        let at = begin_reading(deserializer, Ghost(Self::shape()));
        let (class_name, at) = take_field::<Vec<String>>(deserializer, at)?;
        let (class_name_not, at) = take_field::<Vec<String>>(deserializer, at)?;
        let (power_id, at) = take_field::<Vec<(String, String)>>(deserializer, at)?;
        let (power_id_not, at) = take_field::<Vec<(String, String)>>(deserializer, at)?;
        let record = Requirement {
            class_name,
            class_name_not,
            power_id,
            power_id_not,
        };
        proof {
            at@.lemma_ends(deserializer.reader@);
            assert(at@.sofar =~= record.datum()->List_0);
        }
        Ok(record)
    }
}

} // verus!
