use mids_codec::mids::enums::{
    Aspect, AttribType, BitVec, ClassType, Damage, EffectArea, EffectClass, EffectType, Enhance,
    GridType, Mez, Notify, OverrideBoolean, PowerAttribs, PowerSetType, PowerType, PvX, SetType,
    SpecialCase, Stacking, SummonEntity, ToWho,
};
use mids_codec::mids::{
    from_reader, to_writer, Archetype, Database, Effect, MutexSet, Power, Powerset, Requirement,
    Summon, MAGIC,
};
use mids_codec::netbinary::{Error, Float32, Serializer, Wire};

fn single(x: f32) -> Float32 {
    Float32 { bits: x.to_bits() }
}

fn written<T: Wire>(value: &T) -> Vec<u8> {
    let mut s = Serializer::new();
    value.serialize(&mut s).unwrap();
    s.writer
}

fn database() -> Database {
    Database {
        version: String::from("version"),
        legacy_year: -38,
        datetime: 3000009,
        issue: 28,
        page_volume: 35,
        page_volume_name: String::from("page_volume_name"),
        archetypes_magic: String::from("archetypes_magic"),
        archetypes: vec![archetype()],
        powersets_magic: String::from("powersets_magic"),
        powersets: vec![powerset()],
        powers_magic: String::from("powers_magic"),
        powers: vec![power()],
        summons_magic: String::from("summons_magic"),
        summons: vec![summon()],
    }
}

fn archetype() -> Archetype {
    Archetype {
        display_name: String::from("display_name"),
        hitpoints: -38,
        hp_cap: single(3.25),
        desc_long: String::from("desc_long"),
        res_cap: single(5.25),
        origins: vec![String::from("origins_1"), String::from("origins_2")],
        class_name: String::from("class_name"),
        class_type: ClassType::Hero,
        column: -31,
        desc_short: String::from("desc_short"),
        primary_group: String::from("primary_group"),
        secondary_group: String::from("secondary_group"),
        playable: true,
        recharge_cap: single(14.25),
        damage_cap: single(15.25),
        recovery_cap: single(16.25),
        regen_cap: single(17.25),
        base_recovery: single(18.25),
        base_regen: single(19.25),
        base_threat: single(20.25),
        perception_cap: single(21.25),
    }
}

fn powerset() -> Powerset {
    Powerset {
        display_name: String::from("display_name"),
        nid_archetype: -38,
        set_type: PowerSetType::Primary,
        image_name: String::from("image_name"),
        full_name: String::from("full_name"),
        set_name: String::from("set_name"),
        description: String::from("description"),
        sub_name: String::from("sub_name"),
        at_class: String::from("at_class"),
        uid_trunk_set: String::from("uid_trunk_set"),
        uid_link_secondary: String::from("uid_link_secondary"),
        mutex_sets: vec![MutexSet { uid: String::from("m"), nid: 3 }],
    }
}

fn power() -> Power {
    Power {
        static_index: -39,
        full_name: String::from("full_name"),
        group_name: String::from("group_name"),
        set_name: String::from("set_name"),
        power_name: String::from("power_name"),
        display_name: String::from("display_name"),
        available: -33,
        requires: requirement(),
        modes_required: BitVec::from_bits(45),
        modes_disallowed: BitVec::from_bits(50),
        power_type: PowerType::Click,
        accuracy: single(12.25),
        attack_types: BitVec::from_bits(65),
        group_membership: vec![String::from("group_membership_1"), String::from("group_membership_2")],
        entities_affected: BitVec::from_bits(75),
        entities_auto_hit: BitVec::from_bits(80),
        target: BitVec::from_bits(85),
        target_lo_s: false,
        range: single(19.25),
        target_secondary: BitVec::from_bits(100),
        range_secondary: single(21.25),
        end_cost: single(22.25),
        interrupt_time: single(23.25),
        cast_time: single(24.25),
        recharge_time: single(25.25),
        base_recharge_time: single(26.25),
        activate_period: single(27.25),
        effect_area: EffectArea::Sphere,
        radius: single(29.25),
        arc: -10,
        max_targets: -9,
        max_boosts: String::from("max_boosts"),
        cast_flags: BitVec::from_bits(165),
        ai_report: Notify::Always,
        num_charges: -5,
        usage_time: -4,
        life_time: -3,
        life_time_in_game: -2,
        num_allowed: -1,
        do_not_save: false,
        boosts_allowed: vec![String::from("boosts_allowed_1"), String::from("boosts_allowed_2")],
        cast_through_hold: false,
        ignore_strength: true,
        desc_short: String::from("desc_short"),
        desc_long: String::from("desc_long"),
        enhancements: vec![3, 1, 2],
        set_types: vec![SetType::Heal, SetType::Hold],
        click_buff: false,
        always_toggle: true,
        level: 10,
        allow_front_loading: true,
        variable_enabled: false,
        variable_override: true,
        variable_name: String::from("variable_name"),
        variable_min: 15,
        variable_max: 16,
        uid_sub_power: vec![String::from("uid_sub_power_1"), String::from("uid_sub_power_2")],
        ignore_enh: vec![Enhance::Accuracy],
        ignore_buff: vec![Enhance::Accuracy],
        skip_max: false,
        inherent_type: GridType::None_,
        display_location: 22,
        mutex_auto: true,
        mutex_ignore: false,
        absorb_summon_effects: true,
        absorb_summon_attributes: false,
        show_summon_anyway: true,
        never_auto_update: false,
        never_auto_update_requirements: true,
        include_flag: false,
        forced_class: String::from("forced_class"),
        sort_override: false,
        boost_boostable: true,
        boost_use_player_level: false,
        effects: vec![effect(), effect()],
        hidden_power: false,
        active: true,
        taken: false,
        stacks: 39,
        variable_start: 40,
    }
}

fn requirement() -> Requirement {
    Requirement {
        class_name: vec![String::from("class_name_1"), String::from("class_name_2")],
        class_name_not: vec![String::from("class_name_not_1"), String::from("class_name_not_2")],
        power_id: vec![(String::from("power_id_k"), String::from("power_id_v"))],
        power_id_not: vec![(String::from("power_id_not_k"), String::from("power_id_not_v"))],
    }
}

fn effect() -> Effect {
    Effect {
        power_full_name: String::from("power_full_name"),
        unique_id: -38,
        effect_class: EffectClass::Primary,
        effect_type: EffectType::Heal,
        damage_type: Damage::Fire,
        mez_type: Mez::None_,
        et_modifies: EffectType::Heal,
        summon: String::from("summon"),
        delayed_time: single(9.25),
        ticks: -30,
        stacking: Stacking::Yes,
        base_probability: single(12.25),
        suppression: BitVec::from_bits(65),
        buffable: false,
        resistible: true,
        special_case: SpecialCase::None_,
        variable_modified_override: true,
        ignore_scaling: false,
        pv_mode: PvX::Any,
        to_who: ToWho::Target,
        display_percentage_override: OverrideBoolean::NoOverride,
        scale: single(22.25),
        n_magnitude: single(23.25),
        n_duration: single(24.25),
        attrib_type: AttribType::Magnitude,
        aspect: Aspect::Cur,
        modifier_table: String::from("modifier_table"),
        near_ground: false,
        cancel_on_miss: true,
        requires_to_hit_check: false,
        uid_class_name: String::from("uid_class_name"),
        n_id_class_name: -8,
        expression_duration: String::from("expression_duration"),
        expression_magnitude: String::from("expression_magnitude"),
        expression_probability: String::from("expression_probability"),
        reward: String::from("reward"),
        effect_id: String::from("effect_id"),
        ignore_ed: false,
        override_: String::from("override_"),
        procs_per_minute: single(40.25),
        power_attribs: PowerAttribs::None_,
        atr_orig_accuracy: single(42.25),
        atr_orig_activate_period: single(43.25),
        atr_orig_arc: 4,
        atr_orig_cast_time: single(45.25),
        atr_orig_effect_area: EffectArea::Sphere,
        atr_orig_endurance_cost: single(47.25),
        atr_orig_interrupt_time: single(48.25),
        atr_orig_max_targets: 9,
        atr_orig_radius: single(50.25),
        atr_orig_range: single(51.25),
        atr_orig_recharge_time: single(52.25),
        atr_orig_secondary_range: single(53.25),
        atr_mod_accuracy: single(54.25),
        atr_mod_activate_period: single(55.25),
        atr_mod_arc: 16,
        atr_mod_cast_time: single(57.25),
        atr_mod_effect_area: EffectArea::Sphere,
        atr_mod_endurance_cost: single(59.25),
        atr_mod_interrupt_time: single(60.25),
        atr_mod_max_targets: 21,
        atr_mod_radius: single(62.25),
        atr_mod_range: single(63.25),
        atr_mod_recharge_time: single(64.25),
        atr_mod_secondary_range: single(65.25),
        active_conditionals_kv: vec![(String::from("active_conditionals_kv_k"), String::from("active_conditionals_kv_v"))],
    }
}

fn summon() -> Summon {
    Summon {
        uid: String::from("uid"),
        display_name: String::from("display_name"),
        entity_type: SummonEntity::Pet,
        class_name: String::from("class_name"),
        powerset_full_name: vec![String::from("powerset_full_name_1"), String::from("powerset_full_name_2")],
        upgrade_power_full_name: vec![String::from("upgrade_power_full_name_1"), String::from("upgrade_power_full_name_2")],
    }
}
#[test]
fn a_record_is_its_fields_in_order() {
    let set = MutexSet { uid: String::from("a"), nid: 5 };
    assert_eq!(written(&set), vec![1, b'a', 5, 0, 0, 0]);
    let back: MutexSet = mids_codec::netbinary::from_reader(&[1, b'a', 5, 0, 0, 0]).unwrap();
    assert_eq!(back.uid, "a");
    assert_eq!(back.nid, 5);
}

#[test]
fn a_summon_carries_two_doubled_sequences() {
    let summon = Summon {
        uid: String::from("u"),
        display_name: String::from("d"),
        entity_type: SummonEntity::Henchman,
        class_name: String::from("c"),
        powerset_full_name: vec![String::from("p")],
        upgrade_power_full_name: vec![],
    };
    let bytes = written(&summon);
    assert_eq!(
        bytes,
        vec![
            1, b'u', 1, b'd', 1, 0, 0, 0, 1, b'c', // the plain fields
            1, 0, 0, 0, 0, 0, 0, 0, 1, b'p', // one name, its length twice
            0, 0, 0, 0, 0xFF, 0xFF, 0xFF, 0xFF, // no names
        ]
    );
    let back: Summon = mids_codec::netbinary::from_reader(&bytes).unwrap();
    assert_eq!(back.uid, "u");
    assert_eq!(back.entity_type, SummonEntity::Henchman);
    assert_eq!(back.powerset_full_name, vec![String::from("p")]);
    assert!(back.upgrade_power_full_name.is_empty());
}

#[test]
fn a_requirement_is_four_sequences() {
    let r = Requirement {
        class_name: vec![String::from("a")],
        class_name_not: vec![],
        power_id: vec![(String::from("b"), String::from("c"))],
        power_id_not: vec![],
    };
    assert_eq!(
        written(&r),
        vec![
            0, 0, 0, 0, 1, b'a', 0xFF, 0xFF, 0xFF, 0xFF, 0, 0, 0, 0, 1, b'b', 1, b'c', 0xFF, 0xFF,
            0xFF, 0xFF
        ]
    );
}

#[test]
fn an_archetype_holds_its_caps_bit_for_bit() {
    let mut a = archetype();
    a.hp_cap = Float32 { bits: 0x7FC0_0001 };
    a.res_cap = single(-0.0);
    let bytes = written(&a);
    let back: Archetype = mids_codec::netbinary::from_reader(&bytes).unwrap();
    assert_eq!(back.hp_cap.bits, 0x7FC0_0001);
    assert_eq!(back.res_cap.bits, 0x8000_0000);
    assert_eq!(back.display_name, "display_name");
    assert_eq!(back.class_type, ClassType::Hero);
    assert_eq!(written(&back), bytes);
}

#[test]
fn a_power_survives_a_round_trip() {
    let p = power();
    let bytes = written(&p);
    let back: Power = mids_codec::netbinary::from_reader(&bytes).unwrap();
    assert_eq!(back.static_index, p.static_index);
    assert_eq!(back.full_name, "full_name");
    assert_eq!(back.requires.class_name, p.requires.class_name);
    assert_eq!(back.modes_required.bits(), p.modes_required.bits());
    assert_eq!(back.accuracy, p.accuracy);
    assert_eq!(back.enhancements, vec![3, 1, 2]);
    assert_eq!(back.set_types, vec![SetType::Heal, SetType::Hold]);
    assert_eq!(back.level, p.level);
    assert_eq!(back.effects.len(), 2);
    assert_eq!(back.effects[1].power_attribs, PowerAttribs::None_);
    assert_eq!(back.variable_start, p.variable_start);
    assert_eq!(written(&back), bytes);
}

#[test]
fn an_effect_survives_a_round_trip() {
    let e = effect();
    let bytes = written(&e);
    let back: Effect = mids_codec::netbinary::from_reader(&bytes).unwrap();
    assert_eq!(back.power_full_name, "power_full_name");
    assert_eq!(back.effect_type, EffectType::Heal);
    assert_eq!(back.override_, "override_");
    assert_eq!(back.procs_per_minute, e.procs_per_minute);
    assert_eq!(
        back.active_conditionals_kv,
        vec![(
            String::from("active_conditionals_kv_k"),
            String::from("active_conditionals_kv_v")
        )]
    );
    assert_eq!(written(&back), bytes);
}

#[test]
fn a_powerset_survives_a_round_trip() {
    let p = powerset();
    let bytes = written(&p);
    let back: Powerset = mids_codec::netbinary::from_reader(&bytes).unwrap();
    assert_eq!(back.set_type, PowerSetType::Primary);
    assert_eq!(back.mutex_sets.len(), 1);
    assert_eq!(back.mutex_sets[0].nid, 3);
    assert_eq!(written(&back), bytes);
}

#[test]
fn a_database_opens_with_its_magic() {
    let db = database();
    let mut bytes = Vec::new();
    to_writer(&mut bytes, &db).unwrap();
    assert_eq!(bytes[0] as usize, MAGIC.len());
    assert_eq!(&bytes[1..1 + MAGIC.len()], MAGIC.as_bytes());
    assert_eq!(&bytes[1 + MAGIC.len()..], &written(&db)[..]);
}

#[test]
fn a_database_survives_a_round_trip() {
    let db = database();
    let mut bytes = Vec::new();
    to_writer(&mut bytes, &db).unwrap();
    let back = from_reader(&bytes).unwrap();
    assert_eq!(back.version, "version");
    assert_eq!(back.legacy_year, db.legacy_year);
    assert_eq!(back.datetime, db.datetime);
    assert_eq!(back.archetypes.len(), 1);
    assert_eq!(back.powers.len(), 1);
    assert_eq!(back.powers[0].effects.len(), 2);
    assert_eq!(back.summons[0].uid, "uid");
    let mut again = Vec::new();
    to_writer(&mut again, &back).unwrap();
    assert_eq!(again, bytes);
}

#[test]
fn a_database_is_written_after_what_the_writer_holds() {
    let db = database();
    let mut bytes = vec![0xAA];
    to_writer(&mut bytes, &db).unwrap();
    assert_eq!(bytes[0], 0xAA);
    assert!(from_reader(&bytes[1..]).is_ok());
}

#[test]
fn another_document_is_no_database() {
    let mut bytes = Vec::new();
    mids_codec::netbinary::write_document(&mut bytes, "Mids Reborn Enhancement Database", &7i32)
        .unwrap();
    assert_eq!(from_reader(&bytes).err(), Some(Error::FormatMismatch));
    assert_eq!(from_reader(&[4, b'T', b'E', b'S', b'T']).err(), Some(Error::FormatMismatch));
}

#[test]
fn a_database_cut_short_is_an_io_error() {
    let db = database();
    let mut bytes = Vec::new();
    to_writer(&mut bytes, &db).unwrap();
    for cut in [0, 5, 28, 40, bytes.len() / 2, bytes.len() - 1] {
        assert_eq!(from_reader(&bytes[..cut]).err(), Some(Error::IOError));
    }
}

#[test]
fn an_unknown_ordinal_inside_a_record_fails_the_record() {
    let summon = summon();
    let mut bytes = written(&summon);
    // uid and display_name are 3 and 12 characters long: the entity type follows them.
    let at = 1 + 3 + 1 + 12;
    assert_eq!(&bytes[at..at + 4], &[0, 0, 0, 0]);
    bytes[at] = 9;
    let result: Result<Summon, Error> = mids_codec::netbinary::from_reader(&bytes);
    assert_eq!(result.err(), Some(Error::Custom(String::from("invalid enumeration value"))));
}
