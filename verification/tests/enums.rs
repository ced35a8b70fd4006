use mids_codec::mids::enums::{
    Aspect, ClassType, EffectArea, EffectType, EntityKind, ModeFlag, PowerAttribs, SetType,
    SpecialCase, Stacking, ToWho,
};
use mids_codec::netbinary::{from_reader, Enumerated, Error, Serializer, Wire};

#[test]
fn ordinals_follow_the_order_of_declaration() {
    assert_eq!(Aspect::Res.ordinal(), 0);
    assert_eq!(Aspect::Cur.ordinal(), 4);
    assert_eq!(ClassType::None_.ordinal(), 0);
    assert_eq!(ClassType::Pet.ordinal(), 6);
    assert_eq!(EffectArea::Map_.ordinal(), 6);
    assert_eq!(EffectType::PowerRedirect.ordinal(), 53);
    assert_eq!(EffectType::ExecutePower.ordinal(), 85);
    assert_eq!(PowerAttribs::SecondaryRange.ordinal(), 12);
    assert_eq!(SetType::TeleportNoSprint.ordinal(), 49);
    assert_eq!(SpecialCase::NotKickBuff.ordinal(), 62);
    assert_eq!(ToWho::Self_.ordinal(), 2);
}

#[test]
fn ordinals_may_skip() {
    assert_eq!(EntityKind::Foe.ordinal(), 11);
    assert_eq!(EntityKind::Location.ordinal(), 13);
    assert_eq!(EntityKind::MyOwner.ordinal(), 27);
    assert_eq!(EntityKind::from_ordinal(12), None);
    assert_eq!(ModeFlag::Shivan_Mode.ordinal(), 17);
    assert_eq!(ModeFlag::Warshade_Blaster_Mode.ordinal(), 19);
    assert_eq!(ModeFlag::from_ordinal(18), None);
}

#[test]
fn every_ordinal_leads_back_to_its_value() {
    for n in 0..200u32 {
        if let Some(v) = EffectType::from_ordinal(n) {
            assert_eq!(v.ordinal(), n);
        } else {
            assert!(n > 85);
        }
        if let Some(v) = EntityKind::from_ordinal(n) {
            assert_eq!(v.ordinal(), n);
        } else {
            assert!(n == 12 || n > 27);
        }
    }
}

#[test]
fn an_enumeration_travels_as_its_ordinal() {
    let mut s = Serializer::new();
    EffectType::Heal.serialize(&mut s).unwrap();
    Stacking::Yes.serialize(&mut s).unwrap();
    assert_eq!(s.writer, vec![13, 0, 0, 0, 1, 0, 0, 0]);
    assert_eq!(from_reader::<EffectType>(&[13, 0, 0, 0]), Ok(EffectType::Heal));
    assert_eq!(from_reader::<Stacking>(&[0, 0, 0, 0]), Ok(Stacking::No));
}

#[test]
fn an_unknown_ordinal_is_an_error() {
    let expected = Some(Error::Custom(String::from("invalid enumeration value")));
    assert_eq!(from_reader::<Stacking>(&[2, 0, 0, 0]).err(), expected);
    assert_eq!(from_reader::<Stacking>(&[0, 1, 0, 0]).err(), expected);
    assert_eq!(from_reader::<Aspect>(&[5, 0, 0, 0]).err(), expected);
    assert_eq!(from_reader::<EffectType>(&[86, 0, 0, 0]).err(), expected);
    assert_eq!(from_reader::<EffectType>(&[0xFF, 0xFF, 0xFF, 0xFF]).err(), expected);
}

#[test]
fn an_unknown_ordinal_is_an_error_every_time() {
    let bytes = [99, 0, 0, 0];
    let first = from_reader::<Aspect>(&bytes);
    let second = from_reader::<Aspect>(&bytes);
    assert!(first.is_err());
    assert_eq!(first, second);
}

#[test]
fn an_enumeration_cut_short_is_an_io_error() {
    assert_eq!(from_reader::<Aspect>(&[1, 0, 0]), Err(Error::IOError));
}

#[test]
fn set_types_are_ordered_by_ordinal() {
    assert!(SetType::Untyped < SetType::MeleeST);
    assert!(SetType::Flight < SetType::FlightNoSprint);
    let mut list = vec![SetType::Teleport, SetType::Heal, SetType::Untyped];
    list.sort();
    assert_eq!(list, vec![SetType::Untyped, SetType::Heal, SetType::Teleport]);
}
