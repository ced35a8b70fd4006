use mids_codec::mids::enums::{
    Aspect, AttribType, BitVec, Damage, EffectArea, EffectClass, EffectType, Mez, OverrideBoolean,
    PowerAttribs, PvX, SetType, SpecialCase, Stacking, ToWho,
};
use mids_codec::mids::Effect;
use mids_codec::netbinary::Float32;
use mids_codec::sync::{
    add_sprintless, difference, has_redirect, level_for, members, reconcile, rewrites_attributes,
    set_of, set_type_ordinals, set_types_of, times_are_reliable,
};
use std::collections::BTreeSet;

fn zero() -> Float32 {
    Float32 { bits: 0 }
}

fn plain_effect(effect_type: EffectType, power_attribs: PowerAttribs) -> Effect {
    Effect {
        power_full_name: String::new(),
        unique_id: 0,
        effect_class: EffectClass::Primary,
        effect_type,
        damage_type: Damage::None_,
        mez_type: Mez::None_,
        et_modifies: EffectType::None_,
        summon: String::new(),
        delayed_time: zero(),
        ticks: 0,
        stacking: Stacking::No,
        base_probability: zero(),
        suppression: BitVec::new(),
        buffable: false,
        resistible: false,
        special_case: SpecialCase::None_,
        variable_modified_override: false,
        ignore_scaling: false,
        pv_mode: PvX::Any,
        to_who: ToWho::Unspecified,
        display_percentage_override: OverrideBoolean::NoOverride,
        scale: zero(),
        n_magnitude: zero(),
        n_duration: zero(),
        attrib_type: AttribType::Magnitude,
        aspect: Aspect::Res,
        modifier_table: String::new(),
        near_ground: false,
        cancel_on_miss: false,
        requires_to_hit_check: false,
        uid_class_name: String::new(),
        n_id_class_name: 0,
        expression_duration: String::new(),
        expression_magnitude: String::new(),
        expression_probability: String::new(),
        reward: String::new(),
        effect_id: String::new(),
        ignore_ed: false,
        override_: String::new(),
        procs_per_minute: zero(),
        power_attribs,
        atr_orig_accuracy: zero(),
        atr_orig_activate_period: zero(),
        atr_orig_arc: 0,
        atr_orig_cast_time: zero(),
        atr_orig_effect_area: EffectArea::None_,
        atr_orig_endurance_cost: zero(),
        atr_orig_interrupt_time: zero(),
        atr_orig_max_targets: 0,
        atr_orig_radius: zero(),
        atr_orig_range: zero(),
        atr_orig_recharge_time: zero(),
        atr_orig_secondary_range: zero(),
        atr_mod_accuracy: zero(),
        atr_mod_activate_period: zero(),
        atr_mod_arc: 0,
        atr_mod_cast_time: zero(),
        atr_mod_effect_area: EffectArea::None_,
        atr_mod_endurance_cost: zero(),
        atr_mod_interrupt_time: zero(),
        atr_mod_max_targets: 0,
        atr_mod_radius: zero(),
        atr_mod_range: zero(),
        atr_mod_recharge_time: zero(),
        atr_mod_secondary_range: zero(),
        active_conditionals_kv: Vec::new(),
    }
}

#[test]
fn a_power_whose_effect_rewrites_an_attribute_is_left_alone() {
    assert!(!rewrites_attributes(&vec![]));
    assert!(!rewrites_attributes(&vec![
        plain_effect(EffectType::Heal, PowerAttribs::None_),
        plain_effect(EffectType::Damage, PowerAttribs::None_),
    ]));
    assert!(rewrites_attributes(&vec![
        plain_effect(EffectType::Heal, PowerAttribs::None_),
        plain_effect(EffectType::ModifyAttrib, PowerAttribs::Range),
    ]));
}

#[test]
fn a_redirect_is_found_among_the_effects() {
    assert!(!has_redirect(&vec![]));
    assert!(!has_redirect(&vec![plain_effect(EffectType::Heal, PowerAttribs::None_)]));
    assert!(has_redirect(&vec![
        plain_effect(EffectType::Heal, PowerAttribs::None_),
        plain_effect(EffectType::PowerRedirect, PowerAttribs::None_),
        plain_effect(EffectType::Damage, PowerAttribs::None_),
    ]));
}

#[test]
fn times_are_trusted_unless_the_last_redirect_is_conditional() {
    assert!(times_are_reliable(false, None));
    assert!(times_are_reliable(false, Some(true)));
    assert!(!times_are_reliable(false, Some(false)));
    assert!(times_are_reliable(true, None));
    assert!(times_are_reliable(true, Some(true)));
    assert!(times_are_reliable(true, Some(false)));
}

#[test]
fn pool_powers_start_at_level_four() {
    assert_eq!(level_for(true, 0, false), Some(4));
    assert_eq!(level_for(true, 0, true), Some(4));
    assert_eq!(level_for(true, 13, false), Some(14));
}

#[test]
fn temporary_powers_have_no_level() {
    assert_eq!(level_for(false, 0, true), Some(0));
    assert_eq!(level_for(false, 3, true), Some(4));
}

#[test]
fn other_powers_are_one_level_above_the_reference() {
    assert_eq!(level_for(false, 0, false), Some(1));
    assert_eq!(level_for(false, 49, false), Some(50));
    assert_eq!(level_for(false, -1, false), Some(0));
    assert_eq!(level_for(false, i32::MAX - 1, false), Some(i32::MAX));
    assert_eq!(level_for(false, i32::MAX, false), None);
    assert_eq!(level_for(true, i32::MAX, true), None);
}

fn set(list: &[u32]) -> BTreeSet<u32> {
    list.iter().copied().collect()
}

#[test]
fn a_set_of_a_list_has_its_members() {
    assert_eq!(set_of(&vec![3, 1, 2, 3, 1]), set(&[1, 2, 3]));
    assert_eq!(set_of(&vec![]), BTreeSet::new());
}

#[test]
fn the_members_of_a_set_come_in_ascending_order() {
    assert_eq!(members(&set(&[3, 1, 2, 3, 1])), vec![1, 2, 3]);
    assert_eq!(members(&set(&[])), Vec::<u32>::new());
    assert_eq!(members(&set(&[u32::MAX, 0])), vec![0, u32::MAX]);
    assert_eq!(members(&set_of(&vec![9, 1, 5, 1])), vec![1, 5, 9]);
}

#[test]
fn the_difference_keeps_what_the_other_lacks() {
    assert_eq!(difference(&set(&[1, 2, 3, 4]), &set(&[4, 2])), vec![1, 3]);
    assert_eq!(difference(&set(&[1, 2]), &set(&[])), vec![1, 2]);
    assert_eq!(difference(&set(&[]), &set(&[1])), Vec::<u32>::new());
    assert_eq!(difference(&set(&[1, 2]), &set(&[2, 1])), Vec::<u32>::new());
    assert_eq!(difference(&set(&[4, 1, 3, 2]), &set(&[2, 9])), vec![1, 3, 4]);
}

#[test]
fn reconciling_equal_sets_changes_nothing() {
    let r = reconcile(&set(&[2, 1]), &set(&[1, 2]));
    assert!(!r.changed());
    assert!(r.missing.is_empty());
    assert!(r.extra.is_empty());
    assert_eq!(r.list, vec![1, 2]);
}

#[test]
fn reconciling_names_what_is_missing_and_what_is_extra() {
    let r = reconcile(&set(&[7, 3, 5]), &set(&[9, 5, 1]));
    assert!(r.changed());
    assert_eq!(r.missing, vec![1, 9]);
    assert_eq!(r.extra, vec![3, 7]);
    assert_eq!(r.list, vec![1, 5, 9]);
    let r = reconcile(&set(&[]), &set(&[4]));
    assert!(r.changed());
    assert_eq!(r.missing, vec![4]);
    assert!(r.extra.is_empty());
    let r = reconcile(&set(&[4]), &set(&[]));
    assert!(r.changed());
    assert!(r.missing.is_empty());
    assert_eq!(r.extra, vec![4]);
    assert!(r.list.is_empty());
}

#[test]
fn categories_and_their_ordinals() {
    let sets = vec![SetType::Heal, SetType::Untyped, SetType::TeleportNoSprint];
    assert_eq!(set_type_ordinals(&sets), vec![9, 0, 49]);
    assert_eq!(set_types_of(&vec![9, 0, 49]), sets);
    assert_eq!(set_types_of(&vec![50, 1, 1000]), vec![SetType::MeleeST]);
}

#[test]
fn flight_and_teleport_bring_their_sprintless_categories() {
    let flight = 17;
    let teleport = 20;
    let flight_no_sprint = 48;
    let teleport_no_sprint = 49;
    assert_eq!(set_type_ordinals(&vec![SetType::Flight, SetType::Teleport]), vec![17, 20]);
    assert_eq!(
        set_type_ordinals(&vec![SetType::FlightNoSprint, SetType::TeleportNoSprint]),
        vec![48, 49]
    );
    let mut sets = set(&[9, flight]);
    add_sprintless(&mut sets);
    assert_eq!(sets, set(&[9, flight, flight_no_sprint]));
    let mut sets = set(&[teleport]);
    add_sprintless(&mut sets);
    assert_eq!(sets, set(&[teleport, teleport_no_sprint]));
    let mut sets = set(&[flight, teleport, flight_no_sprint]);
    add_sprintless(&mut sets);
    assert_eq!(sets, set(&[flight, teleport, flight_no_sprint, teleport_no_sprint]));
    let mut sets = set(&[9, 18]);
    add_sprintless(&mut sets);
    assert_eq!(sets, set(&[9, 18]));
}
