use mids_codec::mids::enums::{BitVec, CastKind, Entity, EntityKind, ModeFlag, ModeFlags};
use mids_codec::netbinary::{from_reader, Enumerated, Serializer, Wire};

/// A flag enumeration with gaps: only bits 2 and 5 have a name.
#[derive(Clone, Copy, Debug, PartialEq)]
enum Sparse {
    Two,
    Five,
}

impl Enumerated for Sparse {
    fn ordinal_of(self) -> u32 {
        self.ordinal()
    }

    fn of_ordinal(n: u32) -> Option<Self> {
        Self::from_ordinal(n)
    }

    fn lemma_ordinal_known(self) {}

    fn lemma_ordinal_exact(_n: u32) {}

    fn ordinal(self) -> u32 {
        match self {
            Sparse::Two => 2,
            Sparse::Five => 5,
        }
    }

    fn from_ordinal(n: u32) -> Option<Self> {
        match n {
            2 => Some(Sparse::Two),
            5 => Some(Sparse::Five),
            _ => None,
        }
    }
}

#[test]
fn flags_come_in_ascending_order_and_unknown_bits_are_skipped() {
    let set: BitVec<Sparse> = BitVec::from_bits((1 << 2) | (1 << 5) | (1 << 9));
    assert_eq!(set.flags(), vec![Sparse::Two, Sparse::Five]);
    assert_eq!(set.bits(), 0b10_0010_0100);
}

#[test]
fn a_gap_in_the_enumeration_is_skipped() {
    let set: Entity = BitVec::from_bits((1 << 11) | (1 << 12) | (1 << 13));
    assert_eq!(set.flags(), vec![EntityKind::Foe, EntityKind::Location]);
    let set: ModeFlags = BitVec::from_bits((1 << 17) | (1 << 18) | (1 << 19) | (1 << 20));
    assert_eq!(
        set.flags(),
        vec![
            ModeFlag::Shivan_Mode,
            ModeFlag::Warshade_Blaster_Mode,
            ModeFlag::Warshade_Tanker_Mode
        ]
    );
}

#[test]
fn the_highest_bit_is_a_bit_like_any_other() {
    let set: Entity = BitVec::from_bits(0x8000_0001);
    assert_eq!(set.flags(), vec![EntityKind::Caster]);
    let all: BitVec<CastKind> = BitVec::from_bits(u32::MAX);
    assert_eq!(
        all.flags(),
        vec![CastKind::NearGround, CastKind::TargetNearGround, CastKind::CastableAfterDeath]
    );
}

#[test]
fn the_empty_set_has_no_flags() {
    let set: Entity = BitVec::new();
    assert_eq!(set.bits(), 0);
    assert!(set.flags().is_empty());
    assert!(!set.test(EntityKind::Caster));
}

#[test]
fn set_test_and_clear() {
    let mut set: Entity = BitVec::new();
    set.set(EntityKind::Location);
    set.set(EntityKind::Player);
    assert_eq!(set.bits(), (1 << 13) | (1 << 1));
    assert!(set.test(EntityKind::Location));
    assert!(set.test(EntityKind::Player));
    assert!(!set.test(EntityKind::Teleport));
    set.set(EntityKind::Player);
    assert_eq!(set.bits(), (1 << 13) | (1 << 1));
    set.clear(EntityKind::Location);
    assert!(!set.test(EntityKind::Location));
    assert_eq!(set.flags(), vec![EntityKind::Player]);
    set.clear(EntityKind::Location);
    assert_eq!(set.bits(), 1 << 1);
}

#[test]
fn setting_and_clearing_leave_unknown_bits_alone() {
    let mut set: BitVec<Sparse> = BitVec::from_bits(1 << 9);
    set.set(Sparse::Five);
    assert_eq!(set.bits(), (1 << 9) | (1 << 5));
    set.clear(Sparse::Five);
    assert_eq!(set.bits(), 1 << 9);
    assert!(set.flags().is_empty());
}

#[test]
fn a_flag_set_travels_as_its_mask() {
    let set: Entity = BitVec::from_bits(0x0102_0304);
    let mut s = Serializer::new();
    set.serialize(&mut s).unwrap();
    assert_eq!(s.writer, vec![0x04, 0x03, 0x02, 0x01]);
    let back: Entity = from_reader(&s.writer).unwrap();
    assert_eq!(back.bits(), 0x0102_0304);
}

#[test]
fn unknown_bits_are_no_error_and_are_kept() {
    let back: BitVec<CastKind> = from_reader(&[0xF8, 0xFF, 0xFF, 0xFF]).unwrap();
    assert_eq!(back.bits(), 0xFFFF_FFF8);
    assert!(back.flags().is_empty());
    let mut s = Serializer::new();
    back.serialize(&mut s).unwrap();
    assert_eq!(s.writer, vec![0xF8, 0xFF, 0xFF, 0xFF]);
}

#[test]
fn a_clone_of_a_set_is_the_same_set() {
    let set: Entity = BitVec::from_bits(6);
    let copy = set.clone();
    assert_eq!(copy.bits(), 6);
}
