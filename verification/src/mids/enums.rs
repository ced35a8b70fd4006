//! The enumerations and flag sets of the powers database.
//!
//! An enumeration travels as its ordinal, a flag set as a 32-bit mask in
//! which bit `i` stands for the flag of ordinal `i`.

use crate::netbinary::de::Deserializer;
use crate::netbinary::error::Error;
use crate::netbinary::model::{Datum, IntShape, Shape};
use crate::netbinary::ordinal::{
    deserialize_ordinal, enumeration, lemma_enumerated_conforms, serialize_ordinal, Enumerated,
};
use crate::netbinary::ser::Serializer;
use crate::netbinary::wire::Wire;
use std::marker::PhantomData;
use vstd::prelude::*;

verus! {

/// A set of flags, packed into 32 bits. Bit `i` is set exactly when the
/// flag of ordinal `i` is in the set.
///
/// The mask may hold bits for which `T` declares no flag, such as a newer
/// producer may have written. They are kept as they are and never shown.
#[derive(Debug)]
pub struct BitVec<T> {
    value: u32,
    _marker: PhantomData<T>,
}

/// Whether bit `bit` of `mask` is set. No mask has a bit 32 or higher.
pub open spec fn has_bit(mask: u32, bit: u32) -> bool {
    bit < 32 && mask & (1u32 << bit) != 0
}

/// `mask` with bit `bit` set, where there is such a bit.
pub open spec fn with_bit(mask: u32, bit: u32) -> u32 {
    if bit < 32 {
        mask | (1u32 << bit)
    } else {
        mask
    }
}

/// `mask` with bit `bit` cleared, where there is such a bit.
pub open spec fn without_bit(mask: u32, bit: u32) -> u32 {
    if bit < 32 {
        mask & !(1u32 << bit)
    } else {
        mask
    }
}

/// The flags of `T` among the bits of `mask` below `upto`, lowest bit
/// first. A set bit that is no flag of `T` is passed over.
pub open spec fn known_flags<T: Enumerated>(mask: u32, upto: u32) -> Seq<T>
    decreases upto,
{
    if upto == 0 {
        Seq::empty()
    } else {
        let bit = (upto - 1) as u32;
        let below = known_flags::<T>(mask, bit);
        match T::of_ordinal(bit) {
            Some(flag) => if has_bit(mask, bit) {
                below.push(flag)
            } else {
                below
            },
            None => below,
        }
    }
}

impl<T> View for BitVec<T> {
    type V = u32;

    closed spec fn view(&self) -> u32 {
        self.value
    }
}

impl<T> Clone for BitVec<T> {
    fn clone(&self) -> (copy: Self)
        ensures
            copy@ == self@,
    {
        BitVec { value: self.value, _marker: PhantomData }
    }
}

impl<T> Copy for BitVec<T> {

}

impl<T> BitVec<T> {
    /// The set with no flag in it.
    pub fn new() -> (set: Self)
        ensures
            set@ == 0,
    {
        BitVec { value: 0, _marker: PhantomData }
    }

    /// The set that the mask `value` stands for.
    pub fn from_bits(value: u32) -> (set: Self)
        ensures
            set@ == value,
    {
        BitVec { value, _marker: PhantomData }
    }

    /// The mask of the set, unknown bits included.
    pub fn bits(&self) -> (value: u32)
        ensures
            value == self@,
    {
        self.value
    }
}

impl<T: Enumerated> BitVec<T> {
    /// Whether `flag` is in the set.
    pub fn test(&self, flag: T) -> (present: bool)
        ensures
            present == has_bit(self@, flag.ordinal_of()),
    {
        let bit = flag.ordinal();
        bit < 32 && self.value & (1u32 << bit) != 0
    }

    /// Puts `flag` into the set. A flag whose ordinal is no bit of the mask
    /// cannot be held, and the set stays as it is.
    pub fn set(&mut self, flag: T)
        ensures
            final(self)@ == with_bit(old(self)@, flag.ordinal_of()),
    {
        let bit = flag.ordinal();
        if bit < 32 {
            self.value = self.value | (1u32 << bit);
        }
    }

    /// Takes `flag` out of the set.
    pub fn clear(&mut self, flag: T)
        ensures
            final(self)@ == without_bit(old(self)@, flag.ordinal_of()),
    {
        let bit = flag.ordinal();
        if bit < 32 {
            self.value = self.value & !(1u32 << bit);
        }
    }

    /// The flags in the set, in ascending order of their bits. Set bits
    /// that stand for no flag of `T` are left out.
    pub fn flags(&self) -> (list: Vec<T>)
        ensures
            list@ == known_flags::<T>(self@, 32),
    {
        let mut list: Vec<T> = Vec::new();
        let mut bit: u32 = 0;
        while bit < 32
            invariant
                bit <= 32,
                list@ == known_flags::<T>(self@, bit),
            decreases 32 - bit,
        {
            if self.value & (1u32 << bit) != 0 {
                match T::from_ordinal(bit) {
                    Some(flag) => {
                        list.push(flag);
                    },
                    None => {},
                }
            }
            bit = bit + 1;
        }
        list
    }
}

impl<T> Wire for BitVec<T> {
    open spec fn shape() -> Shape {
        Shape::Int(IntShape::U32)
    }

    open spec fn datum(&self) -> Datum {
        Datum::Int(self@ as int)
    }

    proof fn lemma_conforms(&self) {
    }

    fn serialize(&self, serializer: &mut Serializer) -> (r: Result<(), Error>) {
        serializer.serialize_struct("BitVec", 2)?;
        serializer.serialize_field("value", &self.value)?;
        serializer.end()
    }

    fn deserialize(deserializer: &mut Deserializer) -> (r: Result<Self, Error>) {
        let value = deserializer.deserialize_u32()?;
        Ok(BitVec::from_bits(value))
    }
}

/// A flag that has been put into a set is in it, and no other flag has
/// come or gone.
pub proof fn law_set(mask: u32, bit: u32, other: u32)
    requires
        bit < 32,
    ensures
        has_bit(with_bit(mask, bit), bit),
        other != bit ==> has_bit(with_bit(mask, bit), other) == has_bit(mask, other),
{
    assert(bit < 32 ==> (mask | (1u32 << bit)) & (1u32 << bit) != 0) by (bit_vector);
    assert(bit < 32 && other < 32 && other != bit ==> ((mask | (1u32 << bit)) & (1u32 << other)
        != 0) == (mask & (1u32 << other) != 0)) by (bit_vector);
}

/// A flag that has been taken out of a set is not in it, and no other flag
/// has come or gone.
pub proof fn law_clear(mask: u32, bit: u32, other: u32)
    ensures
        !has_bit(without_bit(mask, bit), bit),
        other != bit ==> has_bit(without_bit(mask, bit), other) == has_bit(mask, other),
{
    assert(bit < 32 ==> (mask & !(1u32 << bit)) & (1u32 << bit) == 0) by (bit_vector);
    assert(bit < 32 && other < 32 && other != bit ==> ((mask & !(1u32 << bit)) & (1u32 << other)
        != 0) == (mask & (1u32 << other) != 0)) by (bit_vector);
}

/// The empty set holds no flag.
pub proof fn law_empty(bit: u32)
    ensures
        !has_bit(0, bit),
{
    assert(bit < 32 ==> 0u32 & (1u32 << bit) == 0) by (bit_vector);
}

/// The flags of a set come in strictly ascending order of their ordinals,
/// and all of them lie below `upto`.
pub proof fn law_flags_ascend<T: Enumerated>(mask: u32, upto: u32)
    ensures
        forall|i: int, j: int|
            0 <= i < j < known_flags::<T>(mask, upto).len() ==> (#[trigger] known_flags::<T>(
                mask,
                upto,
            )[i]).ordinal_of() < (#[trigger] known_flags::<T>(mask, upto)[j]).ordinal_of(),
        forall|i: int|
            0 <= i < known_flags::<T>(mask, upto).len() ==> (#[trigger] known_flags::<T>(
                mask,
                upto,
            )[i]).ordinal_of() < upto,
    decreases upto,
{
    if upto > 0 {
        let bit = (upto - 1) as u32;
        let below = known_flags::<T>(mask, bit);
        let all = known_flags::<T>(mask, upto);
        law_flags_ascend::<T>(mask, bit);
        T::lemma_ordinal_exact(bit);
        assert forall|i: int| 0 <= i < all.len() implies (#[trigger] all[i]).ordinal_of()
            < upto by {
            if i < below.len() {
                assert(all[i] == below[i]);
            }
        }
        assert forall|i: int, j: int| 0 <= i < j < all.len() implies (#[trigger] all[i]).ordinal_of()
            < (#[trigger] all[j]).ordinal_of() by {
            assert(all[i] == below[i]);
            if j < below.len() {
                assert(all[j] == below[j]);
            }
        }
    }
}

/// The flags of a set are exactly the flags of `T` whose bit is set: none
/// is missing, and nothing else is listed.
pub proof fn law_flags_exact<T: Enumerated>(mask: u32, upto: u32, flag: T)
    requires
        upto <= 32,
    ensures
        known_flags::<T>(mask, upto).contains(flag) <==> flag.ordinal_of() < upto && has_bit(
            mask,
            flag.ordinal_of(),
        ),
    decreases upto,
{
    if upto > 0 {
        let bit = (upto - 1) as u32;
        let below = known_flags::<T>(mask, bit);
        law_flags_exact::<T>(mask, bit, flag);
        T::lemma_ordinal_exact(bit);
        flag.lemma_ordinal_known();
        match T::of_ordinal(bit) {
            Some(found) => {
                if has_bit(mask, bit) {
                    let all = below.push(found);
                    assert(all[below.len() as int] == found);
                    if below.contains(flag) {
                        let i = choose|i: int| 0 <= i < below.len() && below[i] == flag;
                        assert(all[i] == flag);
                    }
                    if all.contains(flag) {
                        let i = choose|i: int| 0 <= i < all.len() && all[i] == flag;
                        if i < below.len() {
                            assert(below[i] == flag);
                        }
                    }
                }
            },
            None => {},
        }
    }
}

/// Which side of an attribute an effect works on.
#[allow(non_camel_case_types)]
#[derive(Clone, Copy, Debug, PartialEq, Eq)]
pub enum Aspect {
    Res,
    Max,
    Abs,
    Str,
    Cur,
}

impl Enumerated for Aspect {
    #[verifier::opaque]
    open spec fn ordinal_of(self) -> u32 {
        match self {
            Aspect::Res => 0,
            Aspect::Max => 1,
            Aspect::Abs => 2,
            Aspect::Str => 3,
            Aspect::Cur => 4,
        }
    }

    #[verifier::opaque]
    open spec fn of_ordinal(n: u32) -> Option<Self> {
        match n {
            0 => Some(Aspect::Res),
            1 => Some(Aspect::Max),
            2 => Some(Aspect::Abs),
            3 => Some(Aspect::Str),
            4 => Some(Aspect::Cur),
            _ => None,
        }
    }

    proof fn lemma_ordinal_known(self) {
        reveal(<Aspect as Enumerated>::ordinal_of);
        reveal(<Aspect as Enumerated>::of_ordinal);
    }

    proof fn lemma_ordinal_exact(n: u32) {
        reveal(<Aspect as Enumerated>::ordinal_of);
        reveal(<Aspect as Enumerated>::of_ordinal);
    }

    fn ordinal(self) -> (n: u32) {
        proof {
            reveal(<Aspect as Enumerated>::ordinal_of);
        }
        match self {
            Aspect::Res => 0,
            Aspect::Max => 1,
            Aspect::Abs => 2,
            Aspect::Str => 3,
            Aspect::Cur => 4,
        }
    }

    fn from_ordinal(n: u32) -> (r: Option<Self>) {
        proof {
            reveal(<Aspect as Enumerated>::of_ordinal);
        }
        match n {
            0 => Some(Aspect::Res),
            1 => Some(Aspect::Max),
            2 => Some(Aspect::Abs),
            3 => Some(Aspect::Str),
            4 => Some(Aspect::Cur),
            _ => None,
        }
    }
}

impl Wire for Aspect {
    open spec fn shape() -> Shape {
        enumeration::<Aspect>()
    }

    open spec fn datum(&self) -> Datum {
        Datum::Int(self.ordinal_of() as int)
    }

    proof fn lemma_conforms(&self) {
        lemma_enumerated_conforms(*self);
    }

    fn serialize(&self, serializer: &mut Serializer) -> (r: Result<(), Error>) {
        serialize_ordinal(self, serializer)
    }

    fn deserialize(deserializer: &mut Deserializer) -> (r: Result<Self, Error>) {
        deserialize_ordinal(deserializer)
    }
}

/// What an effect derives its strength from.
#[allow(non_camel_case_types)]
#[derive(Clone, Copy, Debug, PartialEq, Eq)]
pub enum AttribType {
    Magnitude,
    Duration,
    Expression,
}

impl Enumerated for AttribType {
    #[verifier::opaque]
    open spec fn ordinal_of(self) -> u32 {
        match self {
            AttribType::Magnitude => 0,
            AttribType::Duration => 1,
            AttribType::Expression => 2,
        }
    }

    #[verifier::opaque]
    open spec fn of_ordinal(n: u32) -> Option<Self> {
        match n {
            0 => Some(AttribType::Magnitude),
            1 => Some(AttribType::Duration),
            2 => Some(AttribType::Expression),
            _ => None,
        }
    }

    proof fn lemma_ordinal_known(self) {
        reveal(<AttribType as Enumerated>::ordinal_of);
        reveal(<AttribType as Enumerated>::of_ordinal);
    }

    proof fn lemma_ordinal_exact(n: u32) {
        reveal(<AttribType as Enumerated>::ordinal_of);
        reveal(<AttribType as Enumerated>::of_ordinal);
    }

    fn ordinal(self) -> (n: u32) {
        proof {
            reveal(<AttribType as Enumerated>::ordinal_of);
        }
        match self {
            AttribType::Magnitude => 0,
            AttribType::Duration => 1,
            AttribType::Expression => 2,
        }
    }

    fn from_ordinal(n: u32) -> (r: Option<Self>) {
        proof {
            reveal(<AttribType as Enumerated>::of_ordinal);
        }
        match n {
            0 => Some(AttribType::Magnitude),
            1 => Some(AttribType::Duration),
            2 => Some(AttribType::Expression),
            _ => None,
        }
    }
}

impl Wire for AttribType {
    open spec fn shape() -> Shape {
        enumeration::<AttribType>()
    }

    open spec fn datum(&self) -> Datum {
        Datum::Int(self.ordinal_of() as int)
    }

    proof fn lemma_conforms(&self) {
        lemma_enumerated_conforms(*self);
    }

    fn serialize(&self, serializer: &mut Serializer) -> (r: Result<(), Error>) {
        serialize_ordinal(self, serializer)
    }

    fn deserialize(deserializer: &mut Deserializer) -> (r: Result<Self, Error>) {
        deserialize_ordinal(deserializer)
    }
}

/// A condition on where or when a power may be cast.
#[allow(non_camel_case_types)]
#[derive(Clone, Copy, Debug, PartialEq, Eq)]
pub enum CastKind {
    NearGround,
    TargetNearGround,
    CastableAfterDeath,
}

/// The casting conditions of a power.
pub type CastFlags = BitVec<CastKind>;

impl Enumerated for CastKind {
    #[verifier::opaque]
    open spec fn ordinal_of(self) -> u32 {
        match self {
            CastKind::NearGround => 0,
            CastKind::TargetNearGround => 1,
            CastKind::CastableAfterDeath => 2,
        }
    }

    #[verifier::opaque]
    open spec fn of_ordinal(n: u32) -> Option<Self> {
        match n {
            0 => Some(CastKind::NearGround),
            1 => Some(CastKind::TargetNearGround),
            2 => Some(CastKind::CastableAfterDeath),
            _ => None,
        }
    }

    proof fn lemma_ordinal_known(self) {
        reveal(<CastKind as Enumerated>::ordinal_of);
        reveal(<CastKind as Enumerated>::of_ordinal);
    }

    proof fn lemma_ordinal_exact(n: u32) {
        reveal(<CastKind as Enumerated>::ordinal_of);
        reveal(<CastKind as Enumerated>::of_ordinal);
    }

    fn ordinal(self) -> (n: u32) {
        proof {
            reveal(<CastKind as Enumerated>::ordinal_of);
        }
        match self {
            CastKind::NearGround => 0,
            CastKind::TargetNearGround => 1,
            CastKind::CastableAfterDeath => 2,
        }
    }

    fn from_ordinal(n: u32) -> (r: Option<Self>) {
        proof {
            reveal(<CastKind as Enumerated>::of_ordinal);
        }
        match n {
            0 => Some(CastKind::NearGround),
            1 => Some(CastKind::TargetNearGround),
            2 => Some(CastKind::CastableAfterDeath),
            _ => None,
        }
    }
}

impl Wire for CastKind {
    open spec fn shape() -> Shape {
        enumeration::<CastKind>()
    }

    open spec fn datum(&self) -> Datum {
        Datum::Int(self.ordinal_of() as int)
    }

    proof fn lemma_conforms(&self) {
        lemma_enumerated_conforms(*self);
    }

    fn serialize(&self, serializer: &mut Serializer) -> (r: Result<(), Error>) {
        serialize_ordinal(self, serializer)
    }

    fn deserialize(deserializer: &mut Deserializer) -> (r: Result<Self, Error>) {
        deserialize_ordinal(deserializer)
    }
}

/// The kind of archetype.
#[allow(non_camel_case_types)]
#[derive(Clone, Copy, Debug, PartialEq, Eq)]
pub enum ClassType {
    None_,
    Hero,
    HeroEpic,
    Villain,
    VillainEpic,
    Henchman,
    Pet,
}

impl Enumerated for ClassType {
    #[verifier::opaque]
    open spec fn ordinal_of(self) -> u32 {
        match self {
            ClassType::None_ => 0,
            ClassType::Hero => 1,
            ClassType::HeroEpic => 2,
            ClassType::Villain => 3,
            ClassType::VillainEpic => 4,
            ClassType::Henchman => 5,
            ClassType::Pet => 6,
        }
    }

    #[verifier::opaque]
    open spec fn of_ordinal(n: u32) -> Option<Self> {
        match n {
            0 => Some(ClassType::None_),
            1 => Some(ClassType::Hero),
            2 => Some(ClassType::HeroEpic),
            3 => Some(ClassType::Villain),
            4 => Some(ClassType::VillainEpic),
            5 => Some(ClassType::Henchman),
            6 => Some(ClassType::Pet),
            _ => None,
        }
    }

    proof fn lemma_ordinal_known(self) {
        reveal(<ClassType as Enumerated>::ordinal_of);
        reveal(<ClassType as Enumerated>::of_ordinal);
    }

    proof fn lemma_ordinal_exact(n: u32) {
        reveal(<ClassType as Enumerated>::ordinal_of);
        reveal(<ClassType as Enumerated>::of_ordinal);
    }

    fn ordinal(self) -> (n: u32) {
        proof {
            reveal(<ClassType as Enumerated>::ordinal_of);
        }
        match self {
            ClassType::None_ => 0,
            ClassType::Hero => 1,
            ClassType::HeroEpic => 2,
            ClassType::Villain => 3,
            ClassType::VillainEpic => 4,
            ClassType::Henchman => 5,
            ClassType::Pet => 6,
        }
    }

    fn from_ordinal(n: u32) -> (r: Option<Self>) {
        proof {
            reveal(<ClassType as Enumerated>::of_ordinal);
        }
        match n {
            0 => Some(ClassType::None_),
            1 => Some(ClassType::Hero),
            2 => Some(ClassType::HeroEpic),
            3 => Some(ClassType::Villain),
            4 => Some(ClassType::VillainEpic),
            5 => Some(ClassType::Henchman),
            6 => Some(ClassType::Pet),
            _ => None,
        }
    }
}

impl Wire for ClassType {
    open spec fn shape() -> Shape {
        enumeration::<ClassType>()
    }

    open spec fn datum(&self) -> Datum {
        Datum::Int(self.ordinal_of() as int)
    }

    proof fn lemma_conforms(&self) {
        lemma_enumerated_conforms(*self);
    }

    fn serialize(&self, serializer: &mut Serializer) -> (r: Result<(), Error>) {
        serialize_ordinal(self, serializer)
    }

    fn deserialize(deserializer: &mut Deserializer) -> (r: Result<Self, Error>) {
        deserialize_ordinal(deserializer)
    }
}

/// The kind of damage dealt or resisted.
#[allow(non_camel_case_types)]
#[derive(Clone, Copy, Debug, PartialEq, Eq)]
pub enum Damage {
    None_,
    Smashing,
    Lethal,
    Fire,
    Cold,
    Energy,
    Negative,
    Toxic,
    Psionic,
    Special,
    Melee,
    Ranged,
    AoE,
    Unique1,
    Unique2,
    Unique3,
}

impl Enumerated for Damage {
    #[verifier::opaque]
    open spec fn ordinal_of(self) -> u32 {
        match self {
            Damage::None_ => 0,
            Damage::Smashing => 1,
            Damage::Lethal => 2,
            Damage::Fire => 3,
            Damage::Cold => 4,
            Damage::Energy => 5,
            Damage::Negative => 6,
            Damage::Toxic => 7,
            Damage::Psionic => 8,
            Damage::Special => 9,
            Damage::Melee => 10,
            Damage::Ranged => 11,
            Damage::AoE => 12,
            Damage::Unique1 => 13,
            Damage::Unique2 => 14,
            Damage::Unique3 => 15,
        }
    }

    #[verifier::opaque]
    open spec fn of_ordinal(n: u32) -> Option<Self> {
        match n {
            0 => Some(Damage::None_),
            1 => Some(Damage::Smashing),
            2 => Some(Damage::Lethal),
            3 => Some(Damage::Fire),
            4 => Some(Damage::Cold),
            5 => Some(Damage::Energy),
            6 => Some(Damage::Negative),
            7 => Some(Damage::Toxic),
            8 => Some(Damage::Psionic),
            9 => Some(Damage::Special),
            10 => Some(Damage::Melee),
            11 => Some(Damage::Ranged),
            12 => Some(Damage::AoE),
            13 => Some(Damage::Unique1),
            14 => Some(Damage::Unique2),
            15 => Some(Damage::Unique3),
            _ => None,
        }
    }

    proof fn lemma_ordinal_known(self) {
        reveal(<Damage as Enumerated>::ordinal_of);
        reveal(<Damage as Enumerated>::of_ordinal);
    }

    proof fn lemma_ordinal_exact(n: u32) {
        reveal(<Damage as Enumerated>::ordinal_of);
        reveal(<Damage as Enumerated>::of_ordinal);
    }

    fn ordinal(self) -> (n: u32) {
        proof {
            reveal(<Damage as Enumerated>::ordinal_of);
        }
        match self {
            Damage::None_ => 0,
            Damage::Smashing => 1,
            Damage::Lethal => 2,
            Damage::Fire => 3,
            Damage::Cold => 4,
            Damage::Energy => 5,
            Damage::Negative => 6,
            Damage::Toxic => 7,
            Damage::Psionic => 8,
            Damage::Special => 9,
            Damage::Melee => 10,
            Damage::Ranged => 11,
            Damage::AoE => 12,
            Damage::Unique1 => 13,
            Damage::Unique2 => 14,
            Damage::Unique3 => 15,
        }
    }

    fn from_ordinal(n: u32) -> (r: Option<Self>) {
        proof {
            reveal(<Damage as Enumerated>::of_ordinal);
        }
        match n {
            0 => Some(Damage::None_),
            1 => Some(Damage::Smashing),
            2 => Some(Damage::Lethal),
            3 => Some(Damage::Fire),
            4 => Some(Damage::Cold),
            5 => Some(Damage::Energy),
            6 => Some(Damage::Negative),
            7 => Some(Damage::Toxic),
            8 => Some(Damage::Psionic),
            9 => Some(Damage::Special),
            10 => Some(Damage::Melee),
            11 => Some(Damage::Ranged),
            12 => Some(Damage::AoE),
            13 => Some(Damage::Unique1),
            14 => Some(Damage::Unique2),
            15 => Some(Damage::Unique3),
            _ => None,
        }
    }
}

impl Wire for Damage {
    open spec fn shape() -> Shape {
        enumeration::<Damage>()
    }

    open spec fn datum(&self) -> Datum {
        Datum::Int(self.ordinal_of() as int)
    }

    proof fn lemma_conforms(&self) {
        lemma_enumerated_conforms(*self);
    }

    fn serialize(&self, serializer: &mut Serializer) -> (r: Result<(), Error>) {
        serialize_ordinal(self, serializer)
    }

    fn deserialize(deserializer: &mut Deserializer) -> (r: Result<Self, Error>) {
        deserialize_ordinal(deserializer)
    }
}

/// The region that a power covers.
#[allow(non_camel_case_types)]
#[derive(Clone, Copy, Debug, PartialEq, Eq)]
pub enum EffectArea {
    None_,
    Character,
    Sphere,
    Cone,
    Location,
    Volume,
    Map_,
    Room,
    Touch,
}

impl Enumerated for EffectArea {
    #[verifier::opaque]
    open spec fn ordinal_of(self) -> u32 {
        match self {
            EffectArea::None_ => 0,
            EffectArea::Character => 1,
            EffectArea::Sphere => 2,
            EffectArea::Cone => 3,
            EffectArea::Location => 4,
            EffectArea::Volume => 5,
            EffectArea::Map_ => 6,
            EffectArea::Room => 7,
            EffectArea::Touch => 8,
        }
    }

    #[verifier::opaque]
    open spec fn of_ordinal(n: u32) -> Option<Self> {
        match n {
            0 => Some(EffectArea::None_),
            1 => Some(EffectArea::Character),
            2 => Some(EffectArea::Sphere),
            3 => Some(EffectArea::Cone),
            4 => Some(EffectArea::Location),
            5 => Some(EffectArea::Volume),
            6 => Some(EffectArea::Map_),
            7 => Some(EffectArea::Room),
            8 => Some(EffectArea::Touch),
            _ => None,
        }
    }

    proof fn lemma_ordinal_known(self) {
        reveal(<EffectArea as Enumerated>::ordinal_of);
        reveal(<EffectArea as Enumerated>::of_ordinal);
    }

    proof fn lemma_ordinal_exact(n: u32) {
        reveal(<EffectArea as Enumerated>::ordinal_of);
        reveal(<EffectArea as Enumerated>::of_ordinal);
    }

    fn ordinal(self) -> (n: u32) {
        proof {
            reveal(<EffectArea as Enumerated>::ordinal_of);
        }
        match self {
            EffectArea::None_ => 0,
            EffectArea::Character => 1,
            EffectArea::Sphere => 2,
            EffectArea::Cone => 3,
            EffectArea::Location => 4,
            EffectArea::Volume => 5,
            EffectArea::Map_ => 6,
            EffectArea::Room => 7,
            EffectArea::Touch => 8,
        }
    }

    fn from_ordinal(n: u32) -> (r: Option<Self>) {
        proof {
            reveal(<EffectArea as Enumerated>::of_ordinal);
        }
        match n {
            0 => Some(EffectArea::None_),
            1 => Some(EffectArea::Character),
            2 => Some(EffectArea::Sphere),
            3 => Some(EffectArea::Cone),
            4 => Some(EffectArea::Location),
            5 => Some(EffectArea::Volume),
            6 => Some(EffectArea::Map_),
            7 => Some(EffectArea::Room),
            8 => Some(EffectArea::Touch),
            _ => None,
        }
    }
}

impl Wire for EffectArea {
    open spec fn shape() -> Shape {
        enumeration::<EffectArea>()
    }

    open spec fn datum(&self) -> Datum {
        Datum::Int(self.ordinal_of() as int)
    }

    proof fn lemma_conforms(&self) {
        lemma_enumerated_conforms(*self);
    }

    fn serialize(&self, serializer: &mut Serializer) -> (r: Result<(), Error>) {
        serialize_ordinal(self, serializer)
    }

    fn deserialize(deserializer: &mut Deserializer) -> (r: Result<Self, Error>) {
        deserialize_ordinal(deserializer)
    }
}

/// How prominently an effect is shown.
#[allow(non_camel_case_types)]
#[derive(Clone, Copy, Debug, PartialEq, Eq)]
pub enum EffectClass {
    Primary,
    Secondary,
    Tertiary,
    Special,
    Ignored,
    DisplayOnly,
}

impl Enumerated for EffectClass {
    #[verifier::opaque]
    open spec fn ordinal_of(self) -> u32 {
        match self {
            EffectClass::Primary => 0,
            EffectClass::Secondary => 1,
            EffectClass::Tertiary => 2,
            EffectClass::Special => 3,
            EffectClass::Ignored => 4,
            EffectClass::DisplayOnly => 5,
        }
    }

    #[verifier::opaque]
    open spec fn of_ordinal(n: u32) -> Option<Self> {
        match n {
            0 => Some(EffectClass::Primary),
            1 => Some(EffectClass::Secondary),
            2 => Some(EffectClass::Tertiary),
            3 => Some(EffectClass::Special),
            4 => Some(EffectClass::Ignored),
            5 => Some(EffectClass::DisplayOnly),
            _ => None,
        }
    }

    proof fn lemma_ordinal_known(self) {
        reveal(<EffectClass as Enumerated>::ordinal_of);
        reveal(<EffectClass as Enumerated>::of_ordinal);
    }

    proof fn lemma_ordinal_exact(n: u32) {
        reveal(<EffectClass as Enumerated>::ordinal_of);
        reveal(<EffectClass as Enumerated>::of_ordinal);
    }

    fn ordinal(self) -> (n: u32) {
        proof {
            reveal(<EffectClass as Enumerated>::ordinal_of);
        }
        match self {
            EffectClass::Primary => 0,
            EffectClass::Secondary => 1,
            EffectClass::Tertiary => 2,
            EffectClass::Special => 3,
            EffectClass::Ignored => 4,
            EffectClass::DisplayOnly => 5,
        }
    }

    fn from_ordinal(n: u32) -> (r: Option<Self>) {
        proof {
            reveal(<EffectClass as Enumerated>::of_ordinal);
        }
        match n {
            0 => Some(EffectClass::Primary),
            1 => Some(EffectClass::Secondary),
            2 => Some(EffectClass::Tertiary),
            3 => Some(EffectClass::Special),
            4 => Some(EffectClass::Ignored),
            5 => Some(EffectClass::DisplayOnly),
            _ => None,
        }
    }
}

impl Wire for EffectClass {
    open spec fn shape() -> Shape {
        enumeration::<EffectClass>()
    }

    open spec fn datum(&self) -> Datum {
        Datum::Int(self.ordinal_of() as int)
    }

    proof fn lemma_conforms(&self) {
        lemma_enumerated_conforms(*self);
    }

    fn serialize(&self, serializer: &mut Serializer) -> (r: Result<(), Error>) {
        serialize_ordinal(self, serializer)
    }

    fn deserialize(deserializer: &mut Deserializer) -> (r: Result<Self, Error>) {
        deserialize_ordinal(deserializer)
    }
}

/// What an effect does.
#[allow(non_camel_case_types)]
#[derive(Clone, Copy, Debug, PartialEq, Eq)]
pub enum EffectType {
    None_,
    Accuracy,
    ViewAttrib,
    Damage,
    DamageBuff,
    Defense,
    DropToggles,
    Endurance,
    EnduranceDiscount,
    Enhancement,
    Fly,
    SpeedFlying,
    GrantPower,
    Heal,
    HitPoints,
    InterruptTime,
    JumpHeight,
    SpeedJumping,
    Meter,
    Mez,
    MezResist,
    MovementControl,
    MovementFriction,
    PerceptionRadius,
    Range,
    RechargeTime,
    Recovery,
    Regeneration,
    ResEffect,
    Resistance,
    RevokePower,
    Reward,
    SpeedRunning,
    SetCostume,
    SetMode,
    Slow,
    StealthRadius,
    StealthRadiusPlayer,
    EntCreate,
    ThreatLevel,
    ToHit,
    Translucency,
    XPDebtProtection,
    SilentKill,
    Elusivity,
    GlobalChanceMod,
    CombatModShift,
    UnsetMode,
    Rage,
    MaxRunSpeed,
    MaxJumpSpeed,
    MaxFlySpeed,
    DesignerStatus,
    PowerRedirect,
    TokenAdd,
    ExperienceGain,
    InfluenceGain,
    PrestigeGain,
    AddBehavior,
    RechargePower,
    RewardSourceTeam,
    VisionPhase,
    CombatPhase,
    ClearFog,
    SetSZEValue,
    ExclusiveVisionPhase,
    Absorb,
    XAfraid,
    XAvoid,
    BeastRun,
    ClearDamagers,
    EntCreate_x,
    Glide,
    Hoverboard,
    Jumppack,
    MagicCarpet,
    NinjaRun,
    Null,
    NullBool,
    Stealth,
    SteamJump,
    Walk,
    XPDebt,
    ForceMove,
    ModifyAttrib,
    ExecutePower,
}

impl Enumerated for EffectType {
    #[verifier::opaque]
    open spec fn ordinal_of(self) -> u32 {
        match self {
            EffectType::None_ => 0,
            EffectType::Accuracy => 1,
            EffectType::ViewAttrib => 2,
            EffectType::Damage => 3,
            EffectType::DamageBuff => 4,
            EffectType::Defense => 5,
            EffectType::DropToggles => 6,
            EffectType::Endurance => 7,
            EffectType::EnduranceDiscount => 8,
            EffectType::Enhancement => 9,
            EffectType::Fly => 10,
            EffectType::SpeedFlying => 11,
            EffectType::GrantPower => 12,
            EffectType::Heal => 13,
            EffectType::HitPoints => 14,
            EffectType::InterruptTime => 15,
            EffectType::JumpHeight => 16,
            EffectType::SpeedJumping => 17,
            EffectType::Meter => 18,
            EffectType::Mez => 19,
            EffectType::MezResist => 20,
            EffectType::MovementControl => 21,
            EffectType::MovementFriction => 22,
            EffectType::PerceptionRadius => 23,
            EffectType::Range => 24,
            EffectType::RechargeTime => 25,
            EffectType::Recovery => 26,
            EffectType::Regeneration => 27,
            EffectType::ResEffect => 28,
            EffectType::Resistance => 29,
            EffectType::RevokePower => 30,
            EffectType::Reward => 31,
            EffectType::SpeedRunning => 32,
            EffectType::SetCostume => 33,
            EffectType::SetMode => 34,
            EffectType::Slow => 35,
            EffectType::StealthRadius => 36,
            EffectType::StealthRadiusPlayer => 37,
            EffectType::EntCreate => 38,
            EffectType::ThreatLevel => 39,
            EffectType::ToHit => 40,
            EffectType::Translucency => 41,
            EffectType::XPDebtProtection => 42,
            EffectType::SilentKill => 43,
            EffectType::Elusivity => 44,
            EffectType::GlobalChanceMod => 45,
            EffectType::CombatModShift => 46,
            EffectType::UnsetMode => 47,
            EffectType::Rage => 48,
            EffectType::MaxRunSpeed => 49,
            EffectType::MaxJumpSpeed => 50,
            EffectType::MaxFlySpeed => 51,
            EffectType::DesignerStatus => 52,
            EffectType::PowerRedirect => 53,
            EffectType::TokenAdd => 54,
            EffectType::ExperienceGain => 55,
            EffectType::InfluenceGain => 56,
            EffectType::PrestigeGain => 57,
            EffectType::AddBehavior => 58,
            EffectType::RechargePower => 59,
            EffectType::RewardSourceTeam => 60,
            EffectType::VisionPhase => 61,
            EffectType::CombatPhase => 62,
            EffectType::ClearFog => 63,
            EffectType::SetSZEValue => 64,
            EffectType::ExclusiveVisionPhase => 65,
            EffectType::Absorb => 66,
            EffectType::XAfraid => 67,
            EffectType::XAvoid => 68,
            EffectType::BeastRun => 69,
            EffectType::ClearDamagers => 70,
            EffectType::EntCreate_x => 71,
            EffectType::Glide => 72,
            EffectType::Hoverboard => 73,
            EffectType::Jumppack => 74,
            EffectType::MagicCarpet => 75,
            EffectType::NinjaRun => 76,
            EffectType::Null => 77,
            EffectType::NullBool => 78,
            EffectType::Stealth => 79,
            EffectType::SteamJump => 80,
            EffectType::Walk => 81,
            EffectType::XPDebt => 82,
            EffectType::ForceMove => 83,
            EffectType::ModifyAttrib => 84,
            EffectType::ExecutePower => 85,
        }
    }

    #[verifier::opaque]
    open spec fn of_ordinal(n: u32) -> Option<Self> {
        match n {
            0 => Some(EffectType::None_),
            1 => Some(EffectType::Accuracy),
            2 => Some(EffectType::ViewAttrib),
            3 => Some(EffectType::Damage),
            4 => Some(EffectType::DamageBuff),
            5 => Some(EffectType::Defense),
            6 => Some(EffectType::DropToggles),
            7 => Some(EffectType::Endurance),
            8 => Some(EffectType::EnduranceDiscount),
            9 => Some(EffectType::Enhancement),
            10 => Some(EffectType::Fly),
            11 => Some(EffectType::SpeedFlying),
            12 => Some(EffectType::GrantPower),
            13 => Some(EffectType::Heal),
            14 => Some(EffectType::HitPoints),
            15 => Some(EffectType::InterruptTime),
            16 => Some(EffectType::JumpHeight),
            17 => Some(EffectType::SpeedJumping),
            18 => Some(EffectType::Meter),
            19 => Some(EffectType::Mez),
            20 => Some(EffectType::MezResist),
            21 => Some(EffectType::MovementControl),
            22 => Some(EffectType::MovementFriction),
            23 => Some(EffectType::PerceptionRadius),
            24 => Some(EffectType::Range),
            25 => Some(EffectType::RechargeTime),
            26 => Some(EffectType::Recovery),
            27 => Some(EffectType::Regeneration),
            28 => Some(EffectType::ResEffect),
            29 => Some(EffectType::Resistance),
            30 => Some(EffectType::RevokePower),
            31 => Some(EffectType::Reward),
            32 => Some(EffectType::SpeedRunning),
            33 => Some(EffectType::SetCostume),
            34 => Some(EffectType::SetMode),
            35 => Some(EffectType::Slow),
            36 => Some(EffectType::StealthRadius),
            37 => Some(EffectType::StealthRadiusPlayer),
            38 => Some(EffectType::EntCreate),
            39 => Some(EffectType::ThreatLevel),
            40 => Some(EffectType::ToHit),
            41 => Some(EffectType::Translucency),
            42 => Some(EffectType::XPDebtProtection),
            43 => Some(EffectType::SilentKill),
            44 => Some(EffectType::Elusivity),
            45 => Some(EffectType::GlobalChanceMod),
            46 => Some(EffectType::CombatModShift),
            47 => Some(EffectType::UnsetMode),
            48 => Some(EffectType::Rage),
            49 => Some(EffectType::MaxRunSpeed),
            50 => Some(EffectType::MaxJumpSpeed),
            51 => Some(EffectType::MaxFlySpeed),
            52 => Some(EffectType::DesignerStatus),
            53 => Some(EffectType::PowerRedirect),
            54 => Some(EffectType::TokenAdd),
            55 => Some(EffectType::ExperienceGain),
            56 => Some(EffectType::InfluenceGain),
            57 => Some(EffectType::PrestigeGain),
            58 => Some(EffectType::AddBehavior),
            59 => Some(EffectType::RechargePower),
            60 => Some(EffectType::RewardSourceTeam),
            61 => Some(EffectType::VisionPhase),
            62 => Some(EffectType::CombatPhase),
            63 => Some(EffectType::ClearFog),
            64 => Some(EffectType::SetSZEValue),
            65 => Some(EffectType::ExclusiveVisionPhase),
            66 => Some(EffectType::Absorb),
            67 => Some(EffectType::XAfraid),
            68 => Some(EffectType::XAvoid),
            69 => Some(EffectType::BeastRun),
            70 => Some(EffectType::ClearDamagers),
            71 => Some(EffectType::EntCreate_x),
            72 => Some(EffectType::Glide),
            73 => Some(EffectType::Hoverboard),
            74 => Some(EffectType::Jumppack),
            75 => Some(EffectType::MagicCarpet),
            76 => Some(EffectType::NinjaRun),
            77 => Some(EffectType::Null),
            78 => Some(EffectType::NullBool),
            79 => Some(EffectType::Stealth),
            80 => Some(EffectType::SteamJump),
            81 => Some(EffectType::Walk),
            82 => Some(EffectType::XPDebt),
            83 => Some(EffectType::ForceMove),
            84 => Some(EffectType::ModifyAttrib),
            85 => Some(EffectType::ExecutePower),
            _ => None,
        }
    }

    proof fn lemma_ordinal_known(self) {
        reveal(<EffectType as Enumerated>::ordinal_of);
        reveal(<EffectType as Enumerated>::of_ordinal);
    }

    proof fn lemma_ordinal_exact(n: u32) {
        reveal(<EffectType as Enumerated>::ordinal_of);
        reveal(<EffectType as Enumerated>::of_ordinal);
    }

    fn ordinal(self) -> (n: u32) {
        proof {
            reveal(<EffectType as Enumerated>::ordinal_of);
        }
        match self {
            EffectType::None_ => 0,
            EffectType::Accuracy => 1,
            EffectType::ViewAttrib => 2,
            EffectType::Damage => 3,
            EffectType::DamageBuff => 4,
            EffectType::Defense => 5,
            EffectType::DropToggles => 6,
            EffectType::Endurance => 7,
            EffectType::EnduranceDiscount => 8,
            EffectType::Enhancement => 9,
            EffectType::Fly => 10,
            EffectType::SpeedFlying => 11,
            EffectType::GrantPower => 12,
            EffectType::Heal => 13,
            EffectType::HitPoints => 14,
            EffectType::InterruptTime => 15,
            EffectType::JumpHeight => 16,
            EffectType::SpeedJumping => 17,
            EffectType::Meter => 18,
            EffectType::Mez => 19,
            EffectType::MezResist => 20,
            EffectType::MovementControl => 21,
            EffectType::MovementFriction => 22,
            EffectType::PerceptionRadius => 23,
            EffectType::Range => 24,
            EffectType::RechargeTime => 25,
            EffectType::Recovery => 26,
            EffectType::Regeneration => 27,
            EffectType::ResEffect => 28,
            EffectType::Resistance => 29,
            EffectType::RevokePower => 30,
            EffectType::Reward => 31,
            EffectType::SpeedRunning => 32,
            EffectType::SetCostume => 33,
            EffectType::SetMode => 34,
            EffectType::Slow => 35,
            EffectType::StealthRadius => 36,
            EffectType::StealthRadiusPlayer => 37,
            EffectType::EntCreate => 38,
            EffectType::ThreatLevel => 39,
            EffectType::ToHit => 40,
            EffectType::Translucency => 41,
            EffectType::XPDebtProtection => 42,
            EffectType::SilentKill => 43,
            EffectType::Elusivity => 44,
            EffectType::GlobalChanceMod => 45,
            EffectType::CombatModShift => 46,
            EffectType::UnsetMode => 47,
            EffectType::Rage => 48,
            EffectType::MaxRunSpeed => 49,
            EffectType::MaxJumpSpeed => 50,
            EffectType::MaxFlySpeed => 51,
            EffectType::DesignerStatus => 52,
            EffectType::PowerRedirect => 53,
            EffectType::TokenAdd => 54,
            EffectType::ExperienceGain => 55,
            EffectType::InfluenceGain => 56,
            EffectType::PrestigeGain => 57,
            EffectType::AddBehavior => 58,
            EffectType::RechargePower => 59,
            EffectType::RewardSourceTeam => 60,
            EffectType::VisionPhase => 61,
            EffectType::CombatPhase => 62,
            EffectType::ClearFog => 63,
            EffectType::SetSZEValue => 64,
            EffectType::ExclusiveVisionPhase => 65,
            EffectType::Absorb => 66,
            EffectType::XAfraid => 67,
            EffectType::XAvoid => 68,
            EffectType::BeastRun => 69,
            EffectType::ClearDamagers => 70,
            EffectType::EntCreate_x => 71,
            EffectType::Glide => 72,
            EffectType::Hoverboard => 73,
            EffectType::Jumppack => 74,
            EffectType::MagicCarpet => 75,
            EffectType::NinjaRun => 76,
            EffectType::Null => 77,
            EffectType::NullBool => 78,
            EffectType::Stealth => 79,
            EffectType::SteamJump => 80,
            EffectType::Walk => 81,
            EffectType::XPDebt => 82,
            EffectType::ForceMove => 83,
            EffectType::ModifyAttrib => 84,
            EffectType::ExecutePower => 85,
        }
    }

    fn from_ordinal(n: u32) -> (r: Option<Self>) {
        proof {
            reveal(<EffectType as Enumerated>::of_ordinal);
        }
        match n {
            0 => Some(EffectType::None_),
            1 => Some(EffectType::Accuracy),
            2 => Some(EffectType::ViewAttrib),
            3 => Some(EffectType::Damage),
            4 => Some(EffectType::DamageBuff),
            5 => Some(EffectType::Defense),
            6 => Some(EffectType::DropToggles),
            7 => Some(EffectType::Endurance),
            8 => Some(EffectType::EnduranceDiscount),
            9 => Some(EffectType::Enhancement),
            10 => Some(EffectType::Fly),
            11 => Some(EffectType::SpeedFlying),
            12 => Some(EffectType::GrantPower),
            13 => Some(EffectType::Heal),
            14 => Some(EffectType::HitPoints),
            15 => Some(EffectType::InterruptTime),
            16 => Some(EffectType::JumpHeight),
            17 => Some(EffectType::SpeedJumping),
            18 => Some(EffectType::Meter),
            19 => Some(EffectType::Mez),
            20 => Some(EffectType::MezResist),
            21 => Some(EffectType::MovementControl),
            22 => Some(EffectType::MovementFriction),
            23 => Some(EffectType::PerceptionRadius),
            24 => Some(EffectType::Range),
            25 => Some(EffectType::RechargeTime),
            26 => Some(EffectType::Recovery),
            27 => Some(EffectType::Regeneration),
            28 => Some(EffectType::ResEffect),
            29 => Some(EffectType::Resistance),
            30 => Some(EffectType::RevokePower),
            31 => Some(EffectType::Reward),
            32 => Some(EffectType::SpeedRunning),
            33 => Some(EffectType::SetCostume),
            34 => Some(EffectType::SetMode),
            35 => Some(EffectType::Slow),
            36 => Some(EffectType::StealthRadius),
            37 => Some(EffectType::StealthRadiusPlayer),
            38 => Some(EffectType::EntCreate),
            39 => Some(EffectType::ThreatLevel),
            40 => Some(EffectType::ToHit),
            41 => Some(EffectType::Translucency),
            42 => Some(EffectType::XPDebtProtection),
            43 => Some(EffectType::SilentKill),
            44 => Some(EffectType::Elusivity),
            45 => Some(EffectType::GlobalChanceMod),
            46 => Some(EffectType::CombatModShift),
            47 => Some(EffectType::UnsetMode),
            48 => Some(EffectType::Rage),
            49 => Some(EffectType::MaxRunSpeed),
            50 => Some(EffectType::MaxJumpSpeed),
            51 => Some(EffectType::MaxFlySpeed),
            52 => Some(EffectType::DesignerStatus),
            53 => Some(EffectType::PowerRedirect),
            54 => Some(EffectType::TokenAdd),
            55 => Some(EffectType::ExperienceGain),
            56 => Some(EffectType::InfluenceGain),
            57 => Some(EffectType::PrestigeGain),
            58 => Some(EffectType::AddBehavior),
            59 => Some(EffectType::RechargePower),
            60 => Some(EffectType::RewardSourceTeam),
            61 => Some(EffectType::VisionPhase),
            62 => Some(EffectType::CombatPhase),
            63 => Some(EffectType::ClearFog),
            64 => Some(EffectType::SetSZEValue),
            65 => Some(EffectType::ExclusiveVisionPhase),
            66 => Some(EffectType::Absorb),
            67 => Some(EffectType::XAfraid),
            68 => Some(EffectType::XAvoid),
            69 => Some(EffectType::BeastRun),
            70 => Some(EffectType::ClearDamagers),
            71 => Some(EffectType::EntCreate_x),
            72 => Some(EffectType::Glide),
            73 => Some(EffectType::Hoverboard),
            74 => Some(EffectType::Jumppack),
            75 => Some(EffectType::MagicCarpet),
            76 => Some(EffectType::NinjaRun),
            77 => Some(EffectType::Null),
            78 => Some(EffectType::NullBool),
            79 => Some(EffectType::Stealth),
            80 => Some(EffectType::SteamJump),
            81 => Some(EffectType::Walk),
            82 => Some(EffectType::XPDebt),
            83 => Some(EffectType::ForceMove),
            84 => Some(EffectType::ModifyAttrib),
            85 => Some(EffectType::ExecutePower),
            _ => None,
        }
    }
}

impl Wire for EffectType {
    open spec fn shape() -> Shape {
        enumeration::<EffectType>()
    }

    open spec fn datum(&self) -> Datum {
        Datum::Int(self.ordinal_of() as int)
    }

    proof fn lemma_conforms(&self) {
        lemma_enumerated_conforms(*self);
    }

    fn serialize(&self, serializer: &mut Serializer) -> (r: Result<(), Error>) {
        serialize_ordinal(self, serializer)
    }

    fn deserialize(deserializer: &mut Deserializer) -> (r: Result<Self, Error>) {
        deserialize_ordinal(deserializer)
    }
}

/// An aspect of a power that an enhancement can improve.
#[allow(non_camel_case_types)]
#[derive(Clone, Copy, Debug, PartialEq, Eq)]
pub enum Enhance {
    None_,
    Accuracy,
    Damage,
    Defense,
    EnduranceDiscount,
    Endurance,
    SpeedFlying,
    Heal,
    HitPoints,
    Interrupt,
    JumpHeight,
    SpeedJumping,
    Mez,
    Range,
    RechargeTime,
    X_RechargeTime,
    Recovery,
    Regeneration,
    Resistance,
    SpeedRunning,
    ToHit,
    Slow,
    Absorb,
}

impl Enumerated for Enhance {
    #[verifier::opaque]
    open spec fn ordinal_of(self) -> u32 {
        match self {
            Enhance::None_ => 0,
            Enhance::Accuracy => 1,
            Enhance::Damage => 2,
            Enhance::Defense => 3,
            Enhance::EnduranceDiscount => 4,
            Enhance::Endurance => 5,
            Enhance::SpeedFlying => 6,
            Enhance::Heal => 7,
            Enhance::HitPoints => 8,
            Enhance::Interrupt => 9,
            Enhance::JumpHeight => 10,
            Enhance::SpeedJumping => 11,
            Enhance::Mez => 12,
            Enhance::Range => 13,
            Enhance::RechargeTime => 14,
            Enhance::X_RechargeTime => 15,
            Enhance::Recovery => 16,
            Enhance::Regeneration => 17,
            Enhance::Resistance => 18,
            Enhance::SpeedRunning => 19,
            Enhance::ToHit => 20,
            Enhance::Slow => 21,
            Enhance::Absorb => 22,
        }
    }

    #[verifier::opaque]
    open spec fn of_ordinal(n: u32) -> Option<Self> {
        match n {
            0 => Some(Enhance::None_),
            1 => Some(Enhance::Accuracy),
            2 => Some(Enhance::Damage),
            3 => Some(Enhance::Defense),
            4 => Some(Enhance::EnduranceDiscount),
            5 => Some(Enhance::Endurance),
            6 => Some(Enhance::SpeedFlying),
            7 => Some(Enhance::Heal),
            8 => Some(Enhance::HitPoints),
            9 => Some(Enhance::Interrupt),
            10 => Some(Enhance::JumpHeight),
            11 => Some(Enhance::SpeedJumping),
            12 => Some(Enhance::Mez),
            13 => Some(Enhance::Range),
            14 => Some(Enhance::RechargeTime),
            15 => Some(Enhance::X_RechargeTime),
            16 => Some(Enhance::Recovery),
            17 => Some(Enhance::Regeneration),
            18 => Some(Enhance::Resistance),
            19 => Some(Enhance::SpeedRunning),
            20 => Some(Enhance::ToHit),
            21 => Some(Enhance::Slow),
            22 => Some(Enhance::Absorb),
            _ => None,
        }
    }

    proof fn lemma_ordinal_known(self) {
        reveal(<Enhance as Enumerated>::ordinal_of);
        reveal(<Enhance as Enumerated>::of_ordinal);
    }

    proof fn lemma_ordinal_exact(n: u32) {
        reveal(<Enhance as Enumerated>::ordinal_of);
        reveal(<Enhance as Enumerated>::of_ordinal);
    }

    fn ordinal(self) -> (n: u32) {
        proof {
            reveal(<Enhance as Enumerated>::ordinal_of);
        }
        match self {
            Enhance::None_ => 0,
            Enhance::Accuracy => 1,
            Enhance::Damage => 2,
            Enhance::Defense => 3,
            Enhance::EnduranceDiscount => 4,
            Enhance::Endurance => 5,
            Enhance::SpeedFlying => 6,
            Enhance::Heal => 7,
            Enhance::HitPoints => 8,
            Enhance::Interrupt => 9,
            Enhance::JumpHeight => 10,
            Enhance::SpeedJumping => 11,
            Enhance::Mez => 12,
            Enhance::Range => 13,
            Enhance::RechargeTime => 14,
            Enhance::X_RechargeTime => 15,
            Enhance::Recovery => 16,
            Enhance::Regeneration => 17,
            Enhance::Resistance => 18,
            Enhance::SpeedRunning => 19,
            Enhance::ToHit => 20,
            Enhance::Slow => 21,
            Enhance::Absorb => 22,
        }
    }

    fn from_ordinal(n: u32) -> (r: Option<Self>) {
        proof {
            reveal(<Enhance as Enumerated>::of_ordinal);
        }
        match n {
            0 => Some(Enhance::None_),
            1 => Some(Enhance::Accuracy),
            2 => Some(Enhance::Damage),
            3 => Some(Enhance::Defense),
            4 => Some(Enhance::EnduranceDiscount),
            5 => Some(Enhance::Endurance),
            6 => Some(Enhance::SpeedFlying),
            7 => Some(Enhance::Heal),
            8 => Some(Enhance::HitPoints),
            9 => Some(Enhance::Interrupt),
            10 => Some(Enhance::JumpHeight),
            11 => Some(Enhance::SpeedJumping),
            12 => Some(Enhance::Mez),
            13 => Some(Enhance::Range),
            14 => Some(Enhance::RechargeTime),
            15 => Some(Enhance::X_RechargeTime),
            16 => Some(Enhance::Recovery),
            17 => Some(Enhance::Regeneration),
            18 => Some(Enhance::Resistance),
            19 => Some(Enhance::SpeedRunning),
            20 => Some(Enhance::ToHit),
            21 => Some(Enhance::Slow),
            22 => Some(Enhance::Absorb),
            _ => None,
        }
    }
}

impl Wire for Enhance {
    open spec fn shape() -> Shape {
        enumeration::<Enhance>()
    }

    open spec fn datum(&self) -> Datum {
        Datum::Int(self.ordinal_of() as int)
    }

    proof fn lemma_conforms(&self) {
        lemma_enumerated_conforms(*self);
    }

    fn serialize(&self, serializer: &mut Serializer) -> (r: Result<(), Error>) {
        serialize_ordinal(self, serializer)
    }

    fn deserialize(deserializer: &mut Deserializer) -> (r: Result<Self, Error>) {
        deserialize_ordinal(deserializer)
    }
}

/// A kind of entity that a power can target or affect.
#[allow(non_camel_case_types)]
#[derive(Clone, Copy, Debug, PartialEq, Eq)]
pub enum EntityKind {
    Caster,
    Player,
    DeadPlayer,
    Teammate,
    DeadTeammate,
    DeadOrAliveTeammate,
    Villain,
    DeadVillain,
    NPC,
    Friend,
    DeadFriend,
    Foe,
    Location,
    Teleport,
    Any,
    MyPet,
    DeadFoe,
    FoeRezzingFoe,
    Leaguemate,
    DeadLeaguemate,
    AnyLeaguemate,
    DeadMyCreation,
    DeadMyPet,
    DeadOrAliveFoe,
    DeadOrAliveLeaguemate,
    DeadPlayerFriend,
    MyOwner,
}

/// The kinds of entity that a power has to do with.
pub type Entity = BitVec<EntityKind>;

impl Enumerated for EntityKind {
    #[verifier::opaque]
    open spec fn ordinal_of(self) -> u32 {
        match self {
            EntityKind::Caster => 0,
            EntityKind::Player => 1,
            EntityKind::DeadPlayer => 2,
            EntityKind::Teammate => 3,
            EntityKind::DeadTeammate => 4,
            EntityKind::DeadOrAliveTeammate => 5,
            EntityKind::Villain => 6,
            EntityKind::DeadVillain => 7,
            EntityKind::NPC => 8,
            EntityKind::Friend => 9,
            EntityKind::DeadFriend => 10,
            EntityKind::Foe => 11,
            EntityKind::Location => 13,
            EntityKind::Teleport => 14,
            EntityKind::Any => 15,
            EntityKind::MyPet => 16,
            EntityKind::DeadFoe => 17,
            EntityKind::FoeRezzingFoe => 18,
            EntityKind::Leaguemate => 19,
            EntityKind::DeadLeaguemate => 20,
            EntityKind::AnyLeaguemate => 21,
            EntityKind::DeadMyCreation => 22,
            EntityKind::DeadMyPet => 23,
            EntityKind::DeadOrAliveFoe => 24,
            EntityKind::DeadOrAliveLeaguemate => 25,
            EntityKind::DeadPlayerFriend => 26,
            EntityKind::MyOwner => 27,
        }
    }

    #[verifier::opaque]
    open spec fn of_ordinal(n: u32) -> Option<Self> {
        match n {
            0 => Some(EntityKind::Caster),
            1 => Some(EntityKind::Player),
            2 => Some(EntityKind::DeadPlayer),
            3 => Some(EntityKind::Teammate),
            4 => Some(EntityKind::DeadTeammate),
            5 => Some(EntityKind::DeadOrAliveTeammate),
            6 => Some(EntityKind::Villain),
            7 => Some(EntityKind::DeadVillain),
            8 => Some(EntityKind::NPC),
            9 => Some(EntityKind::Friend),
            10 => Some(EntityKind::DeadFriend),
            11 => Some(EntityKind::Foe),
            13 => Some(EntityKind::Location),
            14 => Some(EntityKind::Teleport),
            15 => Some(EntityKind::Any),
            16 => Some(EntityKind::MyPet),
            17 => Some(EntityKind::DeadFoe),
            18 => Some(EntityKind::FoeRezzingFoe),
            19 => Some(EntityKind::Leaguemate),
            20 => Some(EntityKind::DeadLeaguemate),
            21 => Some(EntityKind::AnyLeaguemate),
            22 => Some(EntityKind::DeadMyCreation),
            23 => Some(EntityKind::DeadMyPet),
            24 => Some(EntityKind::DeadOrAliveFoe),
            25 => Some(EntityKind::DeadOrAliveLeaguemate),
            26 => Some(EntityKind::DeadPlayerFriend),
            27 => Some(EntityKind::MyOwner),
            _ => None,
        }
    }

    proof fn lemma_ordinal_known(self) {
        reveal(<EntityKind as Enumerated>::ordinal_of);
        reveal(<EntityKind as Enumerated>::of_ordinal);
    }

    proof fn lemma_ordinal_exact(n: u32) {
        reveal(<EntityKind as Enumerated>::ordinal_of);
        reveal(<EntityKind as Enumerated>::of_ordinal);
    }

    fn ordinal(self) -> (n: u32) {
        proof {
            reveal(<EntityKind as Enumerated>::ordinal_of);
        }
        match self {
            EntityKind::Caster => 0,
            EntityKind::Player => 1,
            EntityKind::DeadPlayer => 2,
            EntityKind::Teammate => 3,
            EntityKind::DeadTeammate => 4,
            EntityKind::DeadOrAliveTeammate => 5,
            EntityKind::Villain => 6,
            EntityKind::DeadVillain => 7,
            EntityKind::NPC => 8,
            EntityKind::Friend => 9,
            EntityKind::DeadFriend => 10,
            EntityKind::Foe => 11,
            EntityKind::Location => 13,
            EntityKind::Teleport => 14,
            EntityKind::Any => 15,
            EntityKind::MyPet => 16,
            EntityKind::DeadFoe => 17,
            EntityKind::FoeRezzingFoe => 18,
            EntityKind::Leaguemate => 19,
            EntityKind::DeadLeaguemate => 20,
            EntityKind::AnyLeaguemate => 21,
            EntityKind::DeadMyCreation => 22,
            EntityKind::DeadMyPet => 23,
            EntityKind::DeadOrAliveFoe => 24,
            EntityKind::DeadOrAliveLeaguemate => 25,
            EntityKind::DeadPlayerFriend => 26,
            EntityKind::MyOwner => 27,
        }
    }

    fn from_ordinal(n: u32) -> (r: Option<Self>) {
        proof {
            reveal(<EntityKind as Enumerated>::of_ordinal);
        }
        match n {
            0 => Some(EntityKind::Caster),
            1 => Some(EntityKind::Player),
            2 => Some(EntityKind::DeadPlayer),
            3 => Some(EntityKind::Teammate),
            4 => Some(EntityKind::DeadTeammate),
            5 => Some(EntityKind::DeadOrAliveTeammate),
            6 => Some(EntityKind::Villain),
            7 => Some(EntityKind::DeadVillain),
            8 => Some(EntityKind::NPC),
            9 => Some(EntityKind::Friend),
            10 => Some(EntityKind::DeadFriend),
            11 => Some(EntityKind::Foe),
            13 => Some(EntityKind::Location),
            14 => Some(EntityKind::Teleport),
            15 => Some(EntityKind::Any),
            16 => Some(EntityKind::MyPet),
            17 => Some(EntityKind::DeadFoe),
            18 => Some(EntityKind::FoeRezzingFoe),
            19 => Some(EntityKind::Leaguemate),
            20 => Some(EntityKind::DeadLeaguemate),
            21 => Some(EntityKind::AnyLeaguemate),
            22 => Some(EntityKind::DeadMyCreation),
            23 => Some(EntityKind::DeadMyPet),
            24 => Some(EntityKind::DeadOrAliveFoe),
            25 => Some(EntityKind::DeadOrAliveLeaguemate),
            26 => Some(EntityKind::DeadPlayerFriend),
            27 => Some(EntityKind::MyOwner),
            _ => None,
        }
    }
}

impl Wire for EntityKind {
    open spec fn shape() -> Shape {
        enumeration::<EntityKind>()
    }

    open spec fn datum(&self) -> Datum {
        Datum::Int(self.ordinal_of() as int)
    }

    proof fn lemma_conforms(&self) {
        lemma_enumerated_conforms(*self);
    }

    fn serialize(&self, serializer: &mut Serializer) -> (r: Result<(), Error>) {
        serialize_ordinal(self, serializer)
    }

    fn deserialize(deserializer: &mut Deserializer) -> (r: Result<Self, Error>) {
        deserialize_ordinal(deserializer)
    }
}

/// Where an inherent power is shown.
#[allow(non_camel_case_types)]
#[derive(Clone, Copy, Debug, PartialEq, Eq)]
pub enum GridType {
    None_,
    Accolade,
    Class,
    Incarnate,
    Inherent,
    Pet,
    Power,
    Powerset,
    Prestige,
    Temp,
}

impl Enumerated for GridType {
    #[verifier::opaque]
    open spec fn ordinal_of(self) -> u32 {
        match self {
            GridType::None_ => 0,
            GridType::Accolade => 1,
            GridType::Class => 2,
            GridType::Incarnate => 3,
            GridType::Inherent => 4,
            GridType::Pet => 5,
            GridType::Power => 6,
            GridType::Powerset => 7,
            GridType::Prestige => 8,
            GridType::Temp => 9,
        }
    }

    #[verifier::opaque]
    open spec fn of_ordinal(n: u32) -> Option<Self> {
        match n {
            0 => Some(GridType::None_),
            1 => Some(GridType::Accolade),
            2 => Some(GridType::Class),
            3 => Some(GridType::Incarnate),
            4 => Some(GridType::Inherent),
            5 => Some(GridType::Pet),
            6 => Some(GridType::Power),
            7 => Some(GridType::Powerset),
            8 => Some(GridType::Prestige),
            9 => Some(GridType::Temp),
            _ => None,
        }
    }

    proof fn lemma_ordinal_known(self) {
        reveal(<GridType as Enumerated>::ordinal_of);
        reveal(<GridType as Enumerated>::of_ordinal);
    }

    proof fn lemma_ordinal_exact(n: u32) {
        reveal(<GridType as Enumerated>::ordinal_of);
        reveal(<GridType as Enumerated>::of_ordinal);
    }

    fn ordinal(self) -> (n: u32) {
        proof {
            reveal(<GridType as Enumerated>::ordinal_of);
        }
        match self {
            GridType::None_ => 0,
            GridType::Accolade => 1,
            GridType::Class => 2,
            GridType::Incarnate => 3,
            GridType::Inherent => 4,
            GridType::Pet => 5,
            GridType::Power => 6,
            GridType::Powerset => 7,
            GridType::Prestige => 8,
            GridType::Temp => 9,
        }
    }

    fn from_ordinal(n: u32) -> (r: Option<Self>) {
        proof {
            reveal(<GridType as Enumerated>::of_ordinal);
        }
        match n {
            0 => Some(GridType::None_),
            1 => Some(GridType::Accolade),
            2 => Some(GridType::Class),
            3 => Some(GridType::Incarnate),
            4 => Some(GridType::Inherent),
            5 => Some(GridType::Pet),
            6 => Some(GridType::Power),
            7 => Some(GridType::Powerset),
            8 => Some(GridType::Prestige),
            9 => Some(GridType::Temp),
            _ => None,
        }
    }
}

impl Wire for GridType {
    open spec fn shape() -> Shape {
        enumeration::<GridType>()
    }

    open spec fn datum(&self) -> Datum {
        Datum::Int(self.ordinal_of() as int)
    }

    proof fn lemma_conforms(&self) {
        lemma_enumerated_conforms(*self);
    }

    fn serialize(&self, serializer: &mut Serializer) -> (r: Result<(), Error>) {
        serialize_ordinal(self, serializer)
    }

    fn deserialize(deserializer: &mut Deserializer) -> (r: Result<Self, Error>) {
        deserialize_ordinal(deserializer)
    }
}

/// A kind of status effect.
#[allow(non_camel_case_types)]
#[derive(Clone, Copy, Debug, PartialEq, Eq)]
pub enum Mez {
    None_,
    Confused,
    Held,
    Immobilized,
    Knockback,
    Knockup,
    OnlyAffectsSelf,
    Placate,
    Repel,
    Sleep,
    Stunned,
    Taunt,
    Terrorized,
    Untouchable,
    Teleport,
    ToggleDrop,
    Afraid,
    Avoid,
    CombatPhase,
    Intangible,
}

impl Enumerated for Mez {
    #[verifier::opaque]
    open spec fn ordinal_of(self) -> u32 {
        match self {
            Mez::None_ => 0,
            Mez::Confused => 1,
            Mez::Held => 2,
            Mez::Immobilized => 3,
            Mez::Knockback => 4,
            Mez::Knockup => 5,
            Mez::OnlyAffectsSelf => 6,
            Mez::Placate => 7,
            Mez::Repel => 8,
            Mez::Sleep => 9,
            Mez::Stunned => 10,
            Mez::Taunt => 11,
            Mez::Terrorized => 12,
            Mez::Untouchable => 13,
            Mez::Teleport => 14,
            Mez::ToggleDrop => 15,
            Mez::Afraid => 16,
            Mez::Avoid => 17,
            Mez::CombatPhase => 18,
            Mez::Intangible => 19,
        }
    }

    #[verifier::opaque]
    open spec fn of_ordinal(n: u32) -> Option<Self> {
        match n {
            0 => Some(Mez::None_),
            1 => Some(Mez::Confused),
            2 => Some(Mez::Held),
            3 => Some(Mez::Immobilized),
            4 => Some(Mez::Knockback),
            5 => Some(Mez::Knockup),
            6 => Some(Mez::OnlyAffectsSelf),
            7 => Some(Mez::Placate),
            8 => Some(Mez::Repel),
            9 => Some(Mez::Sleep),
            10 => Some(Mez::Stunned),
            11 => Some(Mez::Taunt),
            12 => Some(Mez::Terrorized),
            13 => Some(Mez::Untouchable),
            14 => Some(Mez::Teleport),
            15 => Some(Mez::ToggleDrop),
            16 => Some(Mez::Afraid),
            17 => Some(Mez::Avoid),
            18 => Some(Mez::CombatPhase),
            19 => Some(Mez::Intangible),
            _ => None,
        }
    }

    proof fn lemma_ordinal_known(self) {
        reveal(<Mez as Enumerated>::ordinal_of);
        reveal(<Mez as Enumerated>::of_ordinal);
    }

    proof fn lemma_ordinal_exact(n: u32) {
        reveal(<Mez as Enumerated>::ordinal_of);
        reveal(<Mez as Enumerated>::of_ordinal);
    }

    fn ordinal(self) -> (n: u32) {
        proof {
            reveal(<Mez as Enumerated>::ordinal_of);
        }
        match self {
            Mez::None_ => 0,
            Mez::Confused => 1,
            Mez::Held => 2,
            Mez::Immobilized => 3,
            Mez::Knockback => 4,
            Mez::Knockup => 5,
            Mez::OnlyAffectsSelf => 6,
            Mez::Placate => 7,
            Mez::Repel => 8,
            Mez::Sleep => 9,
            Mez::Stunned => 10,
            Mez::Taunt => 11,
            Mez::Terrorized => 12,
            Mez::Untouchable => 13,
            Mez::Teleport => 14,
            Mez::ToggleDrop => 15,
            Mez::Afraid => 16,
            Mez::Avoid => 17,
            Mez::CombatPhase => 18,
            Mez::Intangible => 19,
        }
    }

    fn from_ordinal(n: u32) -> (r: Option<Self>) {
        proof {
            reveal(<Mez as Enumerated>::of_ordinal);
        }
        match n {
            0 => Some(Mez::None_),
            1 => Some(Mez::Confused),
            2 => Some(Mez::Held),
            3 => Some(Mez::Immobilized),
            4 => Some(Mez::Knockback),
            5 => Some(Mez::Knockup),
            6 => Some(Mez::OnlyAffectsSelf),
            7 => Some(Mez::Placate),
            8 => Some(Mez::Repel),
            9 => Some(Mez::Sleep),
            10 => Some(Mez::Stunned),
            11 => Some(Mez::Taunt),
            12 => Some(Mez::Terrorized),
            13 => Some(Mez::Untouchable),
            14 => Some(Mez::Teleport),
            15 => Some(Mez::ToggleDrop),
            16 => Some(Mez::Afraid),
            17 => Some(Mez::Avoid),
            18 => Some(Mez::CombatPhase),
            19 => Some(Mez::Intangible),
            _ => None,
        }
    }
}

impl Wire for Mez {
    open spec fn shape() -> Shape {
        enumeration::<Mez>()
    }

    open spec fn datum(&self) -> Datum {
        Datum::Int(self.ordinal_of() as int)
    }

    proof fn lemma_conforms(&self) {
        lemma_enumerated_conforms(*self);
    }

    fn serialize(&self, serializer: &mut Serializer) -> (r: Result<(), Error>) {
        serialize_ordinal(self, serializer)
    }

    fn deserialize(deserializer: &mut Deserializer) -> (r: Result<Self, Error>) {
        deserialize_ordinal(deserializer)
    }
}

/// A mode that a power requires or rules out.
#[allow(non_camel_case_types)]
#[derive(Clone, Copy, Debug, PartialEq, Eq)]
pub enum ModeFlag {
    Arena,
    Disable_All,
    Disable_Enhancements,
    Disable_Epic,
    Disable_Inspirations,
    Disable_Market_TP,
    Disable_Pool,
    Disable_Rez_Insp,
    Disable_Teleport,
    Disable_Temp,
    Disable_Toggle,
    Disable_Travel,
    Domination,
    Peacebringer_Blaster_Mode,
    Peacebringer_Lightform_Mode,
    Peacebringer_Tanker_Mode,
    Raid_Attacker_Mode,
    Shivan_Mode,
    Warshade_Blaster_Mode,
    Warshade_Tanker_Mode,
}

/// A set of modes.
pub type ModeFlags = BitVec<ModeFlag>;

impl Enumerated for ModeFlag {
    #[verifier::opaque]
    open spec fn ordinal_of(self) -> u32 {
        match self {
            ModeFlag::Arena => 0,
            ModeFlag::Disable_All => 1,
            ModeFlag::Disable_Enhancements => 2,
            ModeFlag::Disable_Epic => 3,
            ModeFlag::Disable_Inspirations => 4,
            ModeFlag::Disable_Market_TP => 5,
            ModeFlag::Disable_Pool => 6,
            ModeFlag::Disable_Rez_Insp => 7,
            ModeFlag::Disable_Teleport => 8,
            ModeFlag::Disable_Temp => 9,
            ModeFlag::Disable_Toggle => 10,
            ModeFlag::Disable_Travel => 11,
            ModeFlag::Domination => 12,
            ModeFlag::Peacebringer_Blaster_Mode => 13,
            ModeFlag::Peacebringer_Lightform_Mode => 14,
            ModeFlag::Peacebringer_Tanker_Mode => 15,
            ModeFlag::Raid_Attacker_Mode => 16,
            ModeFlag::Shivan_Mode => 17,
            ModeFlag::Warshade_Blaster_Mode => 19,
            ModeFlag::Warshade_Tanker_Mode => 20,
        }
    }

    #[verifier::opaque]
    open spec fn of_ordinal(n: u32) -> Option<Self> {
        match n {
            0 => Some(ModeFlag::Arena),
            1 => Some(ModeFlag::Disable_All),
            2 => Some(ModeFlag::Disable_Enhancements),
            3 => Some(ModeFlag::Disable_Epic),
            4 => Some(ModeFlag::Disable_Inspirations),
            5 => Some(ModeFlag::Disable_Market_TP),
            6 => Some(ModeFlag::Disable_Pool),
            7 => Some(ModeFlag::Disable_Rez_Insp),
            8 => Some(ModeFlag::Disable_Teleport),
            9 => Some(ModeFlag::Disable_Temp),
            10 => Some(ModeFlag::Disable_Toggle),
            11 => Some(ModeFlag::Disable_Travel),
            12 => Some(ModeFlag::Domination),
            13 => Some(ModeFlag::Peacebringer_Blaster_Mode),
            14 => Some(ModeFlag::Peacebringer_Lightform_Mode),
            15 => Some(ModeFlag::Peacebringer_Tanker_Mode),
            16 => Some(ModeFlag::Raid_Attacker_Mode),
            17 => Some(ModeFlag::Shivan_Mode),
            19 => Some(ModeFlag::Warshade_Blaster_Mode),
            20 => Some(ModeFlag::Warshade_Tanker_Mode),
            _ => None,
        }
    }

    proof fn lemma_ordinal_known(self) {
        reveal(<ModeFlag as Enumerated>::ordinal_of);
        reveal(<ModeFlag as Enumerated>::of_ordinal);
    }

    proof fn lemma_ordinal_exact(n: u32) {
        reveal(<ModeFlag as Enumerated>::ordinal_of);
        reveal(<ModeFlag as Enumerated>::of_ordinal);
    }

    fn ordinal(self) -> (n: u32) {
        proof {
            reveal(<ModeFlag as Enumerated>::ordinal_of);
        }
        match self {
            ModeFlag::Arena => 0,
            ModeFlag::Disable_All => 1,
            ModeFlag::Disable_Enhancements => 2,
            ModeFlag::Disable_Epic => 3,
            ModeFlag::Disable_Inspirations => 4,
            ModeFlag::Disable_Market_TP => 5,
            ModeFlag::Disable_Pool => 6,
            ModeFlag::Disable_Rez_Insp => 7,
            ModeFlag::Disable_Teleport => 8,
            ModeFlag::Disable_Temp => 9,
            ModeFlag::Disable_Toggle => 10,
            ModeFlag::Disable_Travel => 11,
            ModeFlag::Domination => 12,
            ModeFlag::Peacebringer_Blaster_Mode => 13,
            ModeFlag::Peacebringer_Lightform_Mode => 14,
            ModeFlag::Peacebringer_Tanker_Mode => 15,
            ModeFlag::Raid_Attacker_Mode => 16,
            ModeFlag::Shivan_Mode => 17,
            ModeFlag::Warshade_Blaster_Mode => 19,
            ModeFlag::Warshade_Tanker_Mode => 20,
        }
    }

    fn from_ordinal(n: u32) -> (r: Option<Self>) {
        proof {
            reveal(<ModeFlag as Enumerated>::of_ordinal);
        }
        match n {
            0 => Some(ModeFlag::Arena),
            1 => Some(ModeFlag::Disable_All),
            2 => Some(ModeFlag::Disable_Enhancements),
            3 => Some(ModeFlag::Disable_Epic),
            4 => Some(ModeFlag::Disable_Inspirations),
            5 => Some(ModeFlag::Disable_Market_TP),
            6 => Some(ModeFlag::Disable_Pool),
            7 => Some(ModeFlag::Disable_Rez_Insp),
            8 => Some(ModeFlag::Disable_Teleport),
            9 => Some(ModeFlag::Disable_Temp),
            10 => Some(ModeFlag::Disable_Toggle),
            11 => Some(ModeFlag::Disable_Travel),
            12 => Some(ModeFlag::Domination),
            13 => Some(ModeFlag::Peacebringer_Blaster_Mode),
            14 => Some(ModeFlag::Peacebringer_Lightform_Mode),
            15 => Some(ModeFlag::Peacebringer_Tanker_Mode),
            16 => Some(ModeFlag::Raid_Attacker_Mode),
            17 => Some(ModeFlag::Shivan_Mode),
            19 => Some(ModeFlag::Warshade_Blaster_Mode),
            20 => Some(ModeFlag::Warshade_Tanker_Mode),
            _ => None,
        }
    }
}

impl Wire for ModeFlag {
    open spec fn shape() -> Shape {
        enumeration::<ModeFlag>()
    }

    open spec fn datum(&self) -> Datum {
        Datum::Int(self.ordinal_of() as int)
    }

    proof fn lemma_conforms(&self) {
        lemma_enumerated_conforms(*self);
    }

    fn serialize(&self, serializer: &mut Serializer) -> (r: Result<(), Error>) {
        serialize_ordinal(self, serializer)
    }

    fn deserialize(deserializer: &mut Deserializer) -> (r: Result<Self, Error>) {
        deserialize_ordinal(deserializer)
    }
}

/// When the target of a power is told of it.
#[allow(non_camel_case_types)]
#[derive(Clone, Copy, Debug, PartialEq, Eq)]
pub enum Notify {
    Always,
    Never,
    MissOnly,
    HitOnly,
}

impl Enumerated for Notify {
    #[verifier::opaque]
    open spec fn ordinal_of(self) -> u32 {
        match self {
            Notify::Always => 0,
            Notify::Never => 1,
            Notify::MissOnly => 2,
            Notify::HitOnly => 3,
        }
    }

    #[verifier::opaque]
    open spec fn of_ordinal(n: u32) -> Option<Self> {
        match n {
            0 => Some(Notify::Always),
            1 => Some(Notify::Never),
            2 => Some(Notify::MissOnly),
            3 => Some(Notify::HitOnly),
            _ => None,
        }
    }

    proof fn lemma_ordinal_known(self) {
        reveal(<Notify as Enumerated>::ordinal_of);
        reveal(<Notify as Enumerated>::of_ordinal);
    }

    proof fn lemma_ordinal_exact(n: u32) {
        reveal(<Notify as Enumerated>::ordinal_of);
        reveal(<Notify as Enumerated>::of_ordinal);
    }

    fn ordinal(self) -> (n: u32) {
        proof {
            reveal(<Notify as Enumerated>::ordinal_of);
        }
        match self {
            Notify::Always => 0,
            Notify::Never => 1,
            Notify::MissOnly => 2,
            Notify::HitOnly => 3,
        }
    }

    fn from_ordinal(n: u32) -> (r: Option<Self>) {
        proof {
            reveal(<Notify as Enumerated>::of_ordinal);
        }
        match n {
            0 => Some(Notify::Always),
            1 => Some(Notify::Never),
            2 => Some(Notify::MissOnly),
            3 => Some(Notify::HitOnly),
            _ => None,
        }
    }
}

impl Wire for Notify {
    open spec fn shape() -> Shape {
        enumeration::<Notify>()
    }

    open spec fn datum(&self) -> Datum {
        Datum::Int(self.ordinal_of() as int)
    }

    proof fn lemma_conforms(&self) {
        lemma_enumerated_conforms(*self);
    }

    fn serialize(&self, serializer: &mut Serializer) -> (r: Result<(), Error>) {
        serialize_ordinal(self, serializer)
    }

    fn deserialize(deserializer: &mut Deserializer) -> (r: Result<Self, Error>) {
        deserialize_ordinal(deserializer)
    }
}

/// A setting that can be left alone, forced on or forced off.
#[allow(non_camel_case_types)]
#[derive(Clone, Copy, Debug, PartialEq, Eq)]
pub enum OverrideBoolean {
    NoOverride,
    TrueOverride,
    FalseOverride,
}

impl Enumerated for OverrideBoolean {
    #[verifier::opaque]
    open spec fn ordinal_of(self) -> u32 {
        match self {
            OverrideBoolean::NoOverride => 0,
            OverrideBoolean::TrueOverride => 1,
            OverrideBoolean::FalseOverride => 2,
        }
    }

    #[verifier::opaque]
    open spec fn of_ordinal(n: u32) -> Option<Self> {
        match n {
            0 => Some(OverrideBoolean::NoOverride),
            1 => Some(OverrideBoolean::TrueOverride),
            2 => Some(OverrideBoolean::FalseOverride),
            _ => None,
        }
    }

    proof fn lemma_ordinal_known(self) {
        reveal(<OverrideBoolean as Enumerated>::ordinal_of);
        reveal(<OverrideBoolean as Enumerated>::of_ordinal);
    }

    proof fn lemma_ordinal_exact(n: u32) {
        reveal(<OverrideBoolean as Enumerated>::ordinal_of);
        reveal(<OverrideBoolean as Enumerated>::of_ordinal);
    }

    fn ordinal(self) -> (n: u32) {
        proof {
            reveal(<OverrideBoolean as Enumerated>::ordinal_of);
        }
        match self {
            OverrideBoolean::NoOverride => 0,
            OverrideBoolean::TrueOverride => 1,
            OverrideBoolean::FalseOverride => 2,
        }
    }

    fn from_ordinal(n: u32) -> (r: Option<Self>) {
        proof {
            reveal(<OverrideBoolean as Enumerated>::of_ordinal);
        }
        match n {
            0 => Some(OverrideBoolean::NoOverride),
            1 => Some(OverrideBoolean::TrueOverride),
            2 => Some(OverrideBoolean::FalseOverride),
            _ => None,
        }
    }
}

impl Wire for OverrideBoolean {
    open spec fn shape() -> Shape {
        enumeration::<OverrideBoolean>()
    }

    open spec fn datum(&self) -> Datum {
        Datum::Int(self.ordinal_of() as int)
    }

    proof fn lemma_conforms(&self) {
        lemma_enumerated_conforms(*self);
    }

    fn serialize(&self, serializer: &mut Serializer) -> (r: Result<(), Error>) {
        serialize_ordinal(self, serializer)
    }

    fn deserialize(deserializer: &mut Deserializer) -> (r: Result<Self, Error>) {
        deserialize_ordinal(deserializer)
    }
}

/// An attribute of a power that an effect can rewrite.
#[allow(non_camel_case_types)]
#[derive(Clone, Copy, Debug, PartialEq, Eq)]
pub enum PowerAttribs {
    None_,
    Accuracy,
    ActivateInterval,
    Arc,
    CastTime,
    EffectArea,
    EnduranceCost,
    InterruptTime,
    MaxTargets,
    Radius,
    Range,
    RechargeTime,
    SecondaryRange,
}

impl Enumerated for PowerAttribs {
    #[verifier::opaque]
    open spec fn ordinal_of(self) -> u32 {
        match self {
            PowerAttribs::None_ => 0,
            PowerAttribs::Accuracy => 1,
            PowerAttribs::ActivateInterval => 2,
            PowerAttribs::Arc => 3,
            PowerAttribs::CastTime => 4,
            PowerAttribs::EffectArea => 5,
            PowerAttribs::EnduranceCost => 6,
            PowerAttribs::InterruptTime => 7,
            PowerAttribs::MaxTargets => 8,
            PowerAttribs::Radius => 9,
            PowerAttribs::Range => 10,
            PowerAttribs::RechargeTime => 11,
            PowerAttribs::SecondaryRange => 12,
        }
    }

    #[verifier::opaque]
    open spec fn of_ordinal(n: u32) -> Option<Self> {
        match n {
            0 => Some(PowerAttribs::None_),
            1 => Some(PowerAttribs::Accuracy),
            2 => Some(PowerAttribs::ActivateInterval),
            3 => Some(PowerAttribs::Arc),
            4 => Some(PowerAttribs::CastTime),
            5 => Some(PowerAttribs::EffectArea),
            6 => Some(PowerAttribs::EnduranceCost),
            7 => Some(PowerAttribs::InterruptTime),
            8 => Some(PowerAttribs::MaxTargets),
            9 => Some(PowerAttribs::Radius),
            10 => Some(PowerAttribs::Range),
            11 => Some(PowerAttribs::RechargeTime),
            12 => Some(PowerAttribs::SecondaryRange),
            _ => None,
        }
    }

    proof fn lemma_ordinal_known(self) {
        reveal(<PowerAttribs as Enumerated>::ordinal_of);
        reveal(<PowerAttribs as Enumerated>::of_ordinal);
    }

    proof fn lemma_ordinal_exact(n: u32) {
        reveal(<PowerAttribs as Enumerated>::ordinal_of);
        reveal(<PowerAttribs as Enumerated>::of_ordinal);
    }

    fn ordinal(self) -> (n: u32) {
        proof {
            reveal(<PowerAttribs as Enumerated>::ordinal_of);
        }
        match self {
            PowerAttribs::None_ => 0,
            PowerAttribs::Accuracy => 1,
            PowerAttribs::ActivateInterval => 2,
            PowerAttribs::Arc => 3,
            PowerAttribs::CastTime => 4,
            PowerAttribs::EffectArea => 5,
            PowerAttribs::EnduranceCost => 6,
            PowerAttribs::InterruptTime => 7,
            PowerAttribs::MaxTargets => 8,
            PowerAttribs::Radius => 9,
            PowerAttribs::Range => 10,
            PowerAttribs::RechargeTime => 11,
            PowerAttribs::SecondaryRange => 12,
        }
    }

    fn from_ordinal(n: u32) -> (r: Option<Self>) {
        proof {
            reveal(<PowerAttribs as Enumerated>::of_ordinal);
        }
        match n {
            0 => Some(PowerAttribs::None_),
            1 => Some(PowerAttribs::Accuracy),
            2 => Some(PowerAttribs::ActivateInterval),
            3 => Some(PowerAttribs::Arc),
            4 => Some(PowerAttribs::CastTime),
            5 => Some(PowerAttribs::EffectArea),
            6 => Some(PowerAttribs::EnduranceCost),
            7 => Some(PowerAttribs::InterruptTime),
            8 => Some(PowerAttribs::MaxTargets),
            9 => Some(PowerAttribs::Radius),
            10 => Some(PowerAttribs::Range),
            11 => Some(PowerAttribs::RechargeTime),
            12 => Some(PowerAttribs::SecondaryRange),
            _ => None,
        }
    }
}

impl Wire for PowerAttribs {
    open spec fn shape() -> Shape {
        enumeration::<PowerAttribs>()
    }

    open spec fn datum(&self) -> Datum {
        Datum::Int(self.ordinal_of() as int)
    }

    proof fn lemma_conforms(&self) {
        lemma_enumerated_conforms(*self);
    }

    fn serialize(&self, serializer: &mut Serializer) -> (r: Result<(), Error>) {
        serialize_ordinal(self, serializer)
    }

    fn deserialize(deserializer: &mut Deserializer) -> (r: Result<Self, Error>) {
        deserialize_ordinal(deserializer)
    }
}

/// The role of a power set.
#[allow(non_camel_case_types)]
#[derive(Clone, Copy, Debug, PartialEq, Eq)]
pub enum PowerSetType {
    None_,
    Primary,
    Secondary,
    Ancillary,
    Inherent,
    Pool,
    Accolade,
    Temp,
    Pet,
    SetBonus,
    Boost,
    Incarnate,
    Redirect,
}

impl Enumerated for PowerSetType {
    #[verifier::opaque]
    open spec fn ordinal_of(self) -> u32 {
        match self {
            PowerSetType::None_ => 0,
            PowerSetType::Primary => 1,
            PowerSetType::Secondary => 2,
            PowerSetType::Ancillary => 3,
            PowerSetType::Inherent => 4,
            PowerSetType::Pool => 5,
            PowerSetType::Accolade => 6,
            PowerSetType::Temp => 7,
            PowerSetType::Pet => 8,
            PowerSetType::SetBonus => 9,
            PowerSetType::Boost => 10,
            PowerSetType::Incarnate => 11,
            PowerSetType::Redirect => 12,
        }
    }

    #[verifier::opaque]
    open spec fn of_ordinal(n: u32) -> Option<Self> {
        match n {
            0 => Some(PowerSetType::None_),
            1 => Some(PowerSetType::Primary),
            2 => Some(PowerSetType::Secondary),
            3 => Some(PowerSetType::Ancillary),
            4 => Some(PowerSetType::Inherent),
            5 => Some(PowerSetType::Pool),
            6 => Some(PowerSetType::Accolade),
            7 => Some(PowerSetType::Temp),
            8 => Some(PowerSetType::Pet),
            9 => Some(PowerSetType::SetBonus),
            10 => Some(PowerSetType::Boost),
            11 => Some(PowerSetType::Incarnate),
            12 => Some(PowerSetType::Redirect),
            _ => None,
        }
    }

    proof fn lemma_ordinal_known(self) {
        reveal(<PowerSetType as Enumerated>::ordinal_of);
        reveal(<PowerSetType as Enumerated>::of_ordinal);
    }

    proof fn lemma_ordinal_exact(n: u32) {
        reveal(<PowerSetType as Enumerated>::ordinal_of);
        reveal(<PowerSetType as Enumerated>::of_ordinal);
    }

    fn ordinal(self) -> (n: u32) {
        proof {
            reveal(<PowerSetType as Enumerated>::ordinal_of);
        }
        match self {
            PowerSetType::None_ => 0,
            PowerSetType::Primary => 1,
            PowerSetType::Secondary => 2,
            PowerSetType::Ancillary => 3,
            PowerSetType::Inherent => 4,
            PowerSetType::Pool => 5,
            PowerSetType::Accolade => 6,
            PowerSetType::Temp => 7,
            PowerSetType::Pet => 8,
            PowerSetType::SetBonus => 9,
            PowerSetType::Boost => 10,
            PowerSetType::Incarnate => 11,
            PowerSetType::Redirect => 12,
        }
    }

    fn from_ordinal(n: u32) -> (r: Option<Self>) {
        proof {
            reveal(<PowerSetType as Enumerated>::of_ordinal);
        }
        match n {
            0 => Some(PowerSetType::None_),
            1 => Some(PowerSetType::Primary),
            2 => Some(PowerSetType::Secondary),
            3 => Some(PowerSetType::Ancillary),
            4 => Some(PowerSetType::Inherent),
            5 => Some(PowerSetType::Pool),
            6 => Some(PowerSetType::Accolade),
            7 => Some(PowerSetType::Temp),
            8 => Some(PowerSetType::Pet),
            9 => Some(PowerSetType::SetBonus),
            10 => Some(PowerSetType::Boost),
            11 => Some(PowerSetType::Incarnate),
            12 => Some(PowerSetType::Redirect),
            _ => None,
        }
    }
}

impl Wire for PowerSetType {
    open spec fn shape() -> Shape {
        enumeration::<PowerSetType>()
    }

    open spec fn datum(&self) -> Datum {
        Datum::Int(self.ordinal_of() as int)
    }

    proof fn lemma_conforms(&self) {
        lemma_enumerated_conforms(*self);
    }

    fn serialize(&self, serializer: &mut Serializer) -> (r: Result<(), Error>) {
        serialize_ordinal(self, serializer)
    }

    fn deserialize(deserializer: &mut Deserializer) -> (r: Result<Self, Error>) {
        deserialize_ordinal(deserializer)
    }
}

/// How a power is activated.
#[allow(non_camel_case_types)]
#[derive(Clone, Copy, Debug, PartialEq, Eq)]
pub enum PowerType {
    Click,
    Auto,
    Toggle,
    Boost,
    Inspiration,
    GlobalBoost,
}

impl Enumerated for PowerType {
    #[verifier::opaque]
    open spec fn ordinal_of(self) -> u32 {
        match self {
            PowerType::Click => 0,
            PowerType::Auto => 1,
            PowerType::Toggle => 2,
            PowerType::Boost => 3,
            PowerType::Inspiration => 4,
            PowerType::GlobalBoost => 5,
        }
    }

    #[verifier::opaque]
    open spec fn of_ordinal(n: u32) -> Option<Self> {
        match n {
            0 => Some(PowerType::Click),
            1 => Some(PowerType::Auto),
            2 => Some(PowerType::Toggle),
            3 => Some(PowerType::Boost),
            4 => Some(PowerType::Inspiration),
            5 => Some(PowerType::GlobalBoost),
            _ => None,
        }
    }

    proof fn lemma_ordinal_known(self) {
        reveal(<PowerType as Enumerated>::ordinal_of);
        reveal(<PowerType as Enumerated>::of_ordinal);
    }

    proof fn lemma_ordinal_exact(n: u32) {
        reveal(<PowerType as Enumerated>::ordinal_of);
        reveal(<PowerType as Enumerated>::of_ordinal);
    }

    fn ordinal(self) -> (n: u32) {
        proof {
            reveal(<PowerType as Enumerated>::ordinal_of);
        }
        match self {
            PowerType::Click => 0,
            PowerType::Auto => 1,
            PowerType::Toggle => 2,
            PowerType::Boost => 3,
            PowerType::Inspiration => 4,
            PowerType::GlobalBoost => 5,
        }
    }

    fn from_ordinal(n: u32) -> (r: Option<Self>) {
        proof {
            reveal(<PowerType as Enumerated>::of_ordinal);
        }
        match n {
            0 => Some(PowerType::Click),
            1 => Some(PowerType::Auto),
            2 => Some(PowerType::Toggle),
            3 => Some(PowerType::Boost),
            4 => Some(PowerType::Inspiration),
            5 => Some(PowerType::GlobalBoost),
            _ => None,
        }
    }
}

impl Wire for PowerType {
    open spec fn shape() -> Shape {
        enumeration::<PowerType>()
    }

    open spec fn datum(&self) -> Datum {
        Datum::Int(self.ordinal_of() as int)
    }

    proof fn lemma_conforms(&self) {
        lemma_enumerated_conforms(*self);
    }

    fn serialize(&self, serializer: &mut Serializer) -> (r: Result<(), Error>) {
        serialize_ordinal(self, serializer)
    }

    fn deserialize(deserializer: &mut Deserializer) -> (r: Result<Self, Error>) {
        deserialize_ordinal(deserializer)
    }
}

/// Against whom an effect applies.
#[allow(non_camel_case_types)]
#[derive(Clone, Copy, Debug, PartialEq, Eq)]
pub enum PvX {
    Any,
    Pve,
    Pvp,
}

impl Enumerated for PvX {
    #[verifier::opaque]
    open spec fn ordinal_of(self) -> u32 {
        match self {
            PvX::Any => 0,
            PvX::Pve => 1,
            PvX::Pvp => 2,
        }
    }

    #[verifier::opaque]
    open spec fn of_ordinal(n: u32) -> Option<Self> {
        match n {
            0 => Some(PvX::Any),
            1 => Some(PvX::Pve),
            2 => Some(PvX::Pvp),
            _ => None,
        }
    }

    proof fn lemma_ordinal_known(self) {
        reveal(<PvX as Enumerated>::ordinal_of);
        reveal(<PvX as Enumerated>::of_ordinal);
    }

    proof fn lemma_ordinal_exact(n: u32) {
        reveal(<PvX as Enumerated>::ordinal_of);
        reveal(<PvX as Enumerated>::of_ordinal);
    }

    fn ordinal(self) -> (n: u32) {
        proof {
            reveal(<PvX as Enumerated>::ordinal_of);
        }
        match self {
            PvX::Any => 0,
            PvX::Pve => 1,
            PvX::Pvp => 2,
        }
    }

    fn from_ordinal(n: u32) -> (r: Option<Self>) {
        proof {
            reveal(<PvX as Enumerated>::of_ordinal);
        }
        match n {
            0 => Some(PvX::Any),
            1 => Some(PvX::Pve),
            2 => Some(PvX::Pvp),
            _ => None,
        }
    }
}

impl Wire for PvX {
    open spec fn shape() -> Shape {
        enumeration::<PvX>()
    }

    open spec fn datum(&self) -> Datum {
        Datum::Int(self.ordinal_of() as int)
    }

    proof fn lemma_conforms(&self) {
        lemma_enumerated_conforms(*self);
    }

    fn serialize(&self, serializer: &mut Serializer) -> (r: Result<(), Error>) {
        serialize_ordinal(self, serializer)
    }

    fn deserialize(deserializer: &mut Deserializer) -> (r: Result<Self, Error>) {
        deserialize_ordinal(deserializer)
    }
}

/// A category of enhancement sets.
#[allow(non_camel_case_types)]
#[derive(Clone, Copy, Debug, PartialEq, Eq, PartialOrd, Ord)]
pub enum SetType {
    Untyped,
    MeleeST,
    RangedST,
    RangedAoE,
    MeleeAoE,
    Snipe,
    Pets,
    Defense,
    Resistance,
    Heal,
    Hold,
    Stun,
    Immob,
    Slow,
    Sleep,
    Fear,
    Confuse,
    Flight,
    Jump,
    Run,
    Teleport,
    DefDebuff,
    EndMod,
    Knockback,
    Threat,
    ToHit,
    ToHitDeb,
    PetRech,
    Travel,
    AccHeal,
    AccDefDeb,
    AccToHitDeb,
    Arachnos,
    Blaster,
    Brute,
    Controller,
    Corruptor,
    Defender,
    Dominator,
    Kheldian,
    Mastermind,
    Scrapper,
    Stalker,
    Tanker,
    UniversalDamage,
    Sentinel,
    RunNoSprint,
    JumpNoSprint,
    FlightNoSprint,
    TeleportNoSprint,
}

impl Enumerated for SetType {
    #[verifier::opaque]
    open spec fn ordinal_of(self) -> u32 {
        match self {
            SetType::Untyped => 0,
            SetType::MeleeST => 1,
            SetType::RangedST => 2,
            SetType::RangedAoE => 3,
            SetType::MeleeAoE => 4,
            SetType::Snipe => 5,
            SetType::Pets => 6,
            SetType::Defense => 7,
            SetType::Resistance => 8,
            SetType::Heal => 9,
            SetType::Hold => 10,
            SetType::Stun => 11,
            SetType::Immob => 12,
            SetType::Slow => 13,
            SetType::Sleep => 14,
            SetType::Fear => 15,
            SetType::Confuse => 16,
            SetType::Flight => 17,
            SetType::Jump => 18,
            SetType::Run => 19,
            SetType::Teleport => 20,
            SetType::DefDebuff => 21,
            SetType::EndMod => 22,
            SetType::Knockback => 23,
            SetType::Threat => 24,
            SetType::ToHit => 25,
            SetType::ToHitDeb => 26,
            SetType::PetRech => 27,
            SetType::Travel => 28,
            SetType::AccHeal => 29,
            SetType::AccDefDeb => 30,
            SetType::AccToHitDeb => 31,
            SetType::Arachnos => 32,
            SetType::Blaster => 33,
            SetType::Brute => 34,
            SetType::Controller => 35,
            SetType::Corruptor => 36,
            SetType::Defender => 37,
            SetType::Dominator => 38,
            SetType::Kheldian => 39,
            SetType::Mastermind => 40,
            SetType::Scrapper => 41,
            SetType::Stalker => 42,
            SetType::Tanker => 43,
            SetType::UniversalDamage => 44,
            SetType::Sentinel => 45,
            SetType::RunNoSprint => 46,
            SetType::JumpNoSprint => 47,
            SetType::FlightNoSprint => 48,
            SetType::TeleportNoSprint => 49,
        }
    }

    #[verifier::opaque]
    open spec fn of_ordinal(n: u32) -> Option<Self> {
        match n {
            0 => Some(SetType::Untyped),
            1 => Some(SetType::MeleeST),
            2 => Some(SetType::RangedST),
            3 => Some(SetType::RangedAoE),
            4 => Some(SetType::MeleeAoE),
            5 => Some(SetType::Snipe),
            6 => Some(SetType::Pets),
            7 => Some(SetType::Defense),
            8 => Some(SetType::Resistance),
            9 => Some(SetType::Heal),
            10 => Some(SetType::Hold),
            11 => Some(SetType::Stun),
            12 => Some(SetType::Immob),
            13 => Some(SetType::Slow),
            14 => Some(SetType::Sleep),
            15 => Some(SetType::Fear),
            16 => Some(SetType::Confuse),
            17 => Some(SetType::Flight),
            18 => Some(SetType::Jump),
            19 => Some(SetType::Run),
            20 => Some(SetType::Teleport),
            21 => Some(SetType::DefDebuff),
            22 => Some(SetType::EndMod),
            23 => Some(SetType::Knockback),
            24 => Some(SetType::Threat),
            25 => Some(SetType::ToHit),
            26 => Some(SetType::ToHitDeb),
            27 => Some(SetType::PetRech),
            28 => Some(SetType::Travel),
            29 => Some(SetType::AccHeal),
            30 => Some(SetType::AccDefDeb),
            31 => Some(SetType::AccToHitDeb),
            32 => Some(SetType::Arachnos),
            33 => Some(SetType::Blaster),
            34 => Some(SetType::Brute),
            35 => Some(SetType::Controller),
            36 => Some(SetType::Corruptor),
            37 => Some(SetType::Defender),
            38 => Some(SetType::Dominator),
            39 => Some(SetType::Kheldian),
            40 => Some(SetType::Mastermind),
            41 => Some(SetType::Scrapper),
            42 => Some(SetType::Stalker),
            43 => Some(SetType::Tanker),
            44 => Some(SetType::UniversalDamage),
            45 => Some(SetType::Sentinel),
            46 => Some(SetType::RunNoSprint),
            47 => Some(SetType::JumpNoSprint),
            48 => Some(SetType::FlightNoSprint),
            49 => Some(SetType::TeleportNoSprint),
            _ => None,
        }
    }

    proof fn lemma_ordinal_known(self) {
        reveal(<SetType as Enumerated>::ordinal_of);
        reveal(<SetType as Enumerated>::of_ordinal);
    }

    proof fn lemma_ordinal_exact(n: u32) {
        reveal(<SetType as Enumerated>::ordinal_of);
        reveal(<SetType as Enumerated>::of_ordinal);
    }

    fn ordinal(self) -> (n: u32) {
        proof {
            reveal(<SetType as Enumerated>::ordinal_of);
        }
        match self {
            SetType::Untyped => 0,
            SetType::MeleeST => 1,
            SetType::RangedST => 2,
            SetType::RangedAoE => 3,
            SetType::MeleeAoE => 4,
            SetType::Snipe => 5,
            SetType::Pets => 6,
            SetType::Defense => 7,
            SetType::Resistance => 8,
            SetType::Heal => 9,
            SetType::Hold => 10,
            SetType::Stun => 11,
            SetType::Immob => 12,
            SetType::Slow => 13,
            SetType::Sleep => 14,
            SetType::Fear => 15,
            SetType::Confuse => 16,
            SetType::Flight => 17,
            SetType::Jump => 18,
            SetType::Run => 19,
            SetType::Teleport => 20,
            SetType::DefDebuff => 21,
            SetType::EndMod => 22,
            SetType::Knockback => 23,
            SetType::Threat => 24,
            SetType::ToHit => 25,
            SetType::ToHitDeb => 26,
            SetType::PetRech => 27,
            SetType::Travel => 28,
            SetType::AccHeal => 29,
            SetType::AccDefDeb => 30,
            SetType::AccToHitDeb => 31,
            SetType::Arachnos => 32,
            SetType::Blaster => 33,
            SetType::Brute => 34,
            SetType::Controller => 35,
            SetType::Corruptor => 36,
            SetType::Defender => 37,
            SetType::Dominator => 38,
            SetType::Kheldian => 39,
            SetType::Mastermind => 40,
            SetType::Scrapper => 41,
            SetType::Stalker => 42,
            SetType::Tanker => 43,
            SetType::UniversalDamage => 44,
            SetType::Sentinel => 45,
            SetType::RunNoSprint => 46,
            SetType::JumpNoSprint => 47,
            SetType::FlightNoSprint => 48,
            SetType::TeleportNoSprint => 49,
        }
    }

    fn from_ordinal(n: u32) -> (r: Option<Self>) {
        proof {
            reveal(<SetType as Enumerated>::of_ordinal);
        }
        match n {
            0 => Some(SetType::Untyped),
            1 => Some(SetType::MeleeST),
            2 => Some(SetType::RangedST),
            3 => Some(SetType::RangedAoE),
            4 => Some(SetType::MeleeAoE),
            5 => Some(SetType::Snipe),
            6 => Some(SetType::Pets),
            7 => Some(SetType::Defense),
            8 => Some(SetType::Resistance),
            9 => Some(SetType::Heal),
            10 => Some(SetType::Hold),
            11 => Some(SetType::Stun),
            12 => Some(SetType::Immob),
            13 => Some(SetType::Slow),
            14 => Some(SetType::Sleep),
            15 => Some(SetType::Fear),
            16 => Some(SetType::Confuse),
            17 => Some(SetType::Flight),
            18 => Some(SetType::Jump),
            19 => Some(SetType::Run),
            20 => Some(SetType::Teleport),
            21 => Some(SetType::DefDebuff),
            22 => Some(SetType::EndMod),
            23 => Some(SetType::Knockback),
            24 => Some(SetType::Threat),
            25 => Some(SetType::ToHit),
            26 => Some(SetType::ToHitDeb),
            27 => Some(SetType::PetRech),
            28 => Some(SetType::Travel),
            29 => Some(SetType::AccHeal),
            30 => Some(SetType::AccDefDeb),
            31 => Some(SetType::AccToHitDeb),
            32 => Some(SetType::Arachnos),
            33 => Some(SetType::Blaster),
            34 => Some(SetType::Brute),
            35 => Some(SetType::Controller),
            36 => Some(SetType::Corruptor),
            37 => Some(SetType::Defender),
            38 => Some(SetType::Dominator),
            39 => Some(SetType::Kheldian),
            40 => Some(SetType::Mastermind),
            41 => Some(SetType::Scrapper),
            42 => Some(SetType::Stalker),
            43 => Some(SetType::Tanker),
            44 => Some(SetType::UniversalDamage),
            45 => Some(SetType::Sentinel),
            46 => Some(SetType::RunNoSprint),
            47 => Some(SetType::JumpNoSprint),
            48 => Some(SetType::FlightNoSprint),
            49 => Some(SetType::TeleportNoSprint),
            _ => None,
        }
    }
}

impl Wire for SetType {
    open spec fn shape() -> Shape {
        enumeration::<SetType>()
    }

    open spec fn datum(&self) -> Datum {
        Datum::Int(self.ordinal_of() as int)
    }

    proof fn lemma_conforms(&self) {
        lemma_enumerated_conforms(*self);
    }

    fn serialize(&self, serializer: &mut Serializer) -> (r: Result<(), Error>) {
        serialize_ordinal(self, serializer)
    }

    fn deserialize(deserializer: &mut Deserializer) -> (r: Result<Self, Error>) {
        deserialize_ordinal(deserializer)
    }
}

/// A circumstance under which an effect applies.
#[allow(non_camel_case_types)]
#[derive(Clone, Copy, Debug, PartialEq, Eq)]
pub enum SpecialCase {
    None_,
    Hidden,
    Domination,
    Scourge,
    Mezzed,
    CriticalHit,
    CriticalBoss,
    CriticalMinion,
    Robot,
    Assassination,
    Containment,
    Defiance,
    TargetDroneActive,
    Combo,
    VersusSpecial,
    NotDisintegrated,
    Disintegrated,
    NotAccelerated,
    Accelerated,
    NotDelayed,
    Delayed,
    ComboLevel0,
    ComboLevel1,
    ComboLevel2,
    ComboLevel3,
    FastMode,
    NotAssassination,
    PerfectionOfBody0,
    PerfectionOfBody1,
    PerfectionOfBody2,
    PerfectionOfBody3,
    PerfectionOfMind0,
    PerfectionOfMind1,
    PerfectionOfMind2,
    PerfectionOfMind3,
    PerfectionOfSoul0,
    PerfectionOfSoul1,
    PerfectionOfSoul2,
    PerfectionOfSoul3,
    TeamSize1,
    TeamSize2,
    TeamSize3,
    NotComboLevel3,
    ToHit97,
    DefensiveAdaptation,
    EfficientAdaptation,
    OffensiveAdaptation,
    NotDefensiveAdaptation,
    NotDefensiveNorOffensiveAdaptation,
    BoxingBuff,
    KickBuff,
    Supremacy,
    SupremacyAndBuffPwr,
    PetTier2,
    PetTier3,
    PackMentality,
    NotPackMentality,
    FastSnipe,
    NotFastSnipe,
    CrossPunchBuff,
    NotCrossPunchBuff,
    NotBoxingBuff,
    NotKickBuff,
}

impl Enumerated for SpecialCase {
    #[verifier::opaque]
    open spec fn ordinal_of(self) -> u32 {
        match self {
            SpecialCase::None_ => 0,
            SpecialCase::Hidden => 1,
            SpecialCase::Domination => 2,
            SpecialCase::Scourge => 3,
            SpecialCase::Mezzed => 4,
            SpecialCase::CriticalHit => 5,
            SpecialCase::CriticalBoss => 6,
            SpecialCase::CriticalMinion => 7,
            SpecialCase::Robot => 8,
            SpecialCase::Assassination => 9,
            SpecialCase::Containment => 10,
            SpecialCase::Defiance => 11,
            SpecialCase::TargetDroneActive => 12,
            SpecialCase::Combo => 13,
            SpecialCase::VersusSpecial => 14,
            SpecialCase::NotDisintegrated => 15,
            SpecialCase::Disintegrated => 16,
            SpecialCase::NotAccelerated => 17,
            SpecialCase::Accelerated => 18,
            SpecialCase::NotDelayed => 19,
            SpecialCase::Delayed => 20,
            SpecialCase::ComboLevel0 => 21,
            SpecialCase::ComboLevel1 => 22,
            SpecialCase::ComboLevel2 => 23,
            SpecialCase::ComboLevel3 => 24,
            SpecialCase::FastMode => 25,
            SpecialCase::NotAssassination => 26,
            SpecialCase::PerfectionOfBody0 => 27,
            SpecialCase::PerfectionOfBody1 => 28,
            SpecialCase::PerfectionOfBody2 => 29,
            SpecialCase::PerfectionOfBody3 => 30,
            SpecialCase::PerfectionOfMind0 => 31,
            SpecialCase::PerfectionOfMind1 => 32,
            SpecialCase::PerfectionOfMind2 => 33,
            SpecialCase::PerfectionOfMind3 => 34,
            SpecialCase::PerfectionOfSoul0 => 35,
            SpecialCase::PerfectionOfSoul1 => 36,
            SpecialCase::PerfectionOfSoul2 => 37,
            SpecialCase::PerfectionOfSoul3 => 38,
            SpecialCase::TeamSize1 => 39,
            SpecialCase::TeamSize2 => 40,
            SpecialCase::TeamSize3 => 41,
            SpecialCase::NotComboLevel3 => 42,
            SpecialCase::ToHit97 => 43,
            SpecialCase::DefensiveAdaptation => 44,
            SpecialCase::EfficientAdaptation => 45,
            SpecialCase::OffensiveAdaptation => 46,
            SpecialCase::NotDefensiveAdaptation => 47,
            SpecialCase::NotDefensiveNorOffensiveAdaptation => 48,
            SpecialCase::BoxingBuff => 49,
            SpecialCase::KickBuff => 50,
            SpecialCase::Supremacy => 51,
            SpecialCase::SupremacyAndBuffPwr => 52,
            SpecialCase::PetTier2 => 53,
            SpecialCase::PetTier3 => 54,
            SpecialCase::PackMentality => 55,
            SpecialCase::NotPackMentality => 56,
            SpecialCase::FastSnipe => 57,
            SpecialCase::NotFastSnipe => 58,
            SpecialCase::CrossPunchBuff => 59,
            SpecialCase::NotCrossPunchBuff => 60,
            SpecialCase::NotBoxingBuff => 61,
            SpecialCase::NotKickBuff => 62,
        }
    }

    #[verifier::opaque]
    open spec fn of_ordinal(n: u32) -> Option<Self> {
        match n {
            0 => Some(SpecialCase::None_),
            1 => Some(SpecialCase::Hidden),
            2 => Some(SpecialCase::Domination),
            3 => Some(SpecialCase::Scourge),
            4 => Some(SpecialCase::Mezzed),
            5 => Some(SpecialCase::CriticalHit),
            6 => Some(SpecialCase::CriticalBoss),
            7 => Some(SpecialCase::CriticalMinion),
            8 => Some(SpecialCase::Robot),
            9 => Some(SpecialCase::Assassination),
            10 => Some(SpecialCase::Containment),
            11 => Some(SpecialCase::Defiance),
            12 => Some(SpecialCase::TargetDroneActive),
            13 => Some(SpecialCase::Combo),
            14 => Some(SpecialCase::VersusSpecial),
            15 => Some(SpecialCase::NotDisintegrated),
            16 => Some(SpecialCase::Disintegrated),
            17 => Some(SpecialCase::NotAccelerated),
            18 => Some(SpecialCase::Accelerated),
            19 => Some(SpecialCase::NotDelayed),
            20 => Some(SpecialCase::Delayed),
            21 => Some(SpecialCase::ComboLevel0),
            22 => Some(SpecialCase::ComboLevel1),
            23 => Some(SpecialCase::ComboLevel2),
            24 => Some(SpecialCase::ComboLevel3),
            25 => Some(SpecialCase::FastMode),
            26 => Some(SpecialCase::NotAssassination),
            27 => Some(SpecialCase::PerfectionOfBody0),
            28 => Some(SpecialCase::PerfectionOfBody1),
            29 => Some(SpecialCase::PerfectionOfBody2),
            30 => Some(SpecialCase::PerfectionOfBody3),
            31 => Some(SpecialCase::PerfectionOfMind0),
            32 => Some(SpecialCase::PerfectionOfMind1),
            33 => Some(SpecialCase::PerfectionOfMind2),
            34 => Some(SpecialCase::PerfectionOfMind3),
            35 => Some(SpecialCase::PerfectionOfSoul0),
            36 => Some(SpecialCase::PerfectionOfSoul1),
            37 => Some(SpecialCase::PerfectionOfSoul2),
            38 => Some(SpecialCase::PerfectionOfSoul3),
            39 => Some(SpecialCase::TeamSize1),
            40 => Some(SpecialCase::TeamSize2),
            41 => Some(SpecialCase::TeamSize3),
            42 => Some(SpecialCase::NotComboLevel3),
            43 => Some(SpecialCase::ToHit97),
            44 => Some(SpecialCase::DefensiveAdaptation),
            45 => Some(SpecialCase::EfficientAdaptation),
            46 => Some(SpecialCase::OffensiveAdaptation),
            47 => Some(SpecialCase::NotDefensiveAdaptation),
            48 => Some(SpecialCase::NotDefensiveNorOffensiveAdaptation),
            49 => Some(SpecialCase::BoxingBuff),
            50 => Some(SpecialCase::KickBuff),
            51 => Some(SpecialCase::Supremacy),
            52 => Some(SpecialCase::SupremacyAndBuffPwr),
            53 => Some(SpecialCase::PetTier2),
            54 => Some(SpecialCase::PetTier3),
            55 => Some(SpecialCase::PackMentality),
            56 => Some(SpecialCase::NotPackMentality),
            57 => Some(SpecialCase::FastSnipe),
            58 => Some(SpecialCase::NotFastSnipe),
            59 => Some(SpecialCase::CrossPunchBuff),
            60 => Some(SpecialCase::NotCrossPunchBuff),
            61 => Some(SpecialCase::NotBoxingBuff),
            62 => Some(SpecialCase::NotKickBuff),
            _ => None,
        }
    }

    proof fn lemma_ordinal_known(self) {
        reveal(<SpecialCase as Enumerated>::ordinal_of);
        reveal(<SpecialCase as Enumerated>::of_ordinal);
    }

    proof fn lemma_ordinal_exact(n: u32) {
        reveal(<SpecialCase as Enumerated>::ordinal_of);
        reveal(<SpecialCase as Enumerated>::of_ordinal);
    }

    fn ordinal(self) -> (n: u32) {
        proof {
            reveal(<SpecialCase as Enumerated>::ordinal_of);
        }
        match self {
            SpecialCase::None_ => 0,
            SpecialCase::Hidden => 1,
            SpecialCase::Domination => 2,
            SpecialCase::Scourge => 3,
            SpecialCase::Mezzed => 4,
            SpecialCase::CriticalHit => 5,
            SpecialCase::CriticalBoss => 6,
            SpecialCase::CriticalMinion => 7,
            SpecialCase::Robot => 8,
            SpecialCase::Assassination => 9,
            SpecialCase::Containment => 10,
            SpecialCase::Defiance => 11,
            SpecialCase::TargetDroneActive => 12,
            SpecialCase::Combo => 13,
            SpecialCase::VersusSpecial => 14,
            SpecialCase::NotDisintegrated => 15,
            SpecialCase::Disintegrated => 16,
            SpecialCase::NotAccelerated => 17,
            SpecialCase::Accelerated => 18,
            SpecialCase::NotDelayed => 19,
            SpecialCase::Delayed => 20,
            SpecialCase::ComboLevel0 => 21,
            SpecialCase::ComboLevel1 => 22,
            SpecialCase::ComboLevel2 => 23,
            SpecialCase::ComboLevel3 => 24,
            SpecialCase::FastMode => 25,
            SpecialCase::NotAssassination => 26,
            SpecialCase::PerfectionOfBody0 => 27,
            SpecialCase::PerfectionOfBody1 => 28,
            SpecialCase::PerfectionOfBody2 => 29,
            SpecialCase::PerfectionOfBody3 => 30,
            SpecialCase::PerfectionOfMind0 => 31,
            SpecialCase::PerfectionOfMind1 => 32,
            SpecialCase::PerfectionOfMind2 => 33,
            SpecialCase::PerfectionOfMind3 => 34,
            SpecialCase::PerfectionOfSoul0 => 35,
            SpecialCase::PerfectionOfSoul1 => 36,
            SpecialCase::PerfectionOfSoul2 => 37,
            SpecialCase::PerfectionOfSoul3 => 38,
            SpecialCase::TeamSize1 => 39,
            SpecialCase::TeamSize2 => 40,
            SpecialCase::TeamSize3 => 41,
            SpecialCase::NotComboLevel3 => 42,
            SpecialCase::ToHit97 => 43,
            SpecialCase::DefensiveAdaptation => 44,
            SpecialCase::EfficientAdaptation => 45,
            SpecialCase::OffensiveAdaptation => 46,
            SpecialCase::NotDefensiveAdaptation => 47,
            SpecialCase::NotDefensiveNorOffensiveAdaptation => 48,
            SpecialCase::BoxingBuff => 49,
            SpecialCase::KickBuff => 50,
            SpecialCase::Supremacy => 51,
            SpecialCase::SupremacyAndBuffPwr => 52,
            SpecialCase::PetTier2 => 53,
            SpecialCase::PetTier3 => 54,
            SpecialCase::PackMentality => 55,
            SpecialCase::NotPackMentality => 56,
            SpecialCase::FastSnipe => 57,
            SpecialCase::NotFastSnipe => 58,
            SpecialCase::CrossPunchBuff => 59,
            SpecialCase::NotCrossPunchBuff => 60,
            SpecialCase::NotBoxingBuff => 61,
            SpecialCase::NotKickBuff => 62,
        }
    }

    fn from_ordinal(n: u32) -> (r: Option<Self>) {
        proof {
            reveal(<SpecialCase as Enumerated>::of_ordinal);
        }
        match n {
            0 => Some(SpecialCase::None_),
            1 => Some(SpecialCase::Hidden),
            2 => Some(SpecialCase::Domination),
            3 => Some(SpecialCase::Scourge),
            4 => Some(SpecialCase::Mezzed),
            5 => Some(SpecialCase::CriticalHit),
            6 => Some(SpecialCase::CriticalBoss),
            7 => Some(SpecialCase::CriticalMinion),
            8 => Some(SpecialCase::Robot),
            9 => Some(SpecialCase::Assassination),
            10 => Some(SpecialCase::Containment),
            11 => Some(SpecialCase::Defiance),
            12 => Some(SpecialCase::TargetDroneActive),
            13 => Some(SpecialCase::Combo),
            14 => Some(SpecialCase::VersusSpecial),
            15 => Some(SpecialCase::NotDisintegrated),
            16 => Some(SpecialCase::Disintegrated),
            17 => Some(SpecialCase::NotAccelerated),
            18 => Some(SpecialCase::Accelerated),
            19 => Some(SpecialCase::NotDelayed),
            20 => Some(SpecialCase::Delayed),
            21 => Some(SpecialCase::ComboLevel0),
            22 => Some(SpecialCase::ComboLevel1),
            23 => Some(SpecialCase::ComboLevel2),
            24 => Some(SpecialCase::ComboLevel3),
            25 => Some(SpecialCase::FastMode),
            26 => Some(SpecialCase::NotAssassination),
            27 => Some(SpecialCase::PerfectionOfBody0),
            28 => Some(SpecialCase::PerfectionOfBody1),
            29 => Some(SpecialCase::PerfectionOfBody2),
            30 => Some(SpecialCase::PerfectionOfBody3),
            31 => Some(SpecialCase::PerfectionOfMind0),
            32 => Some(SpecialCase::PerfectionOfMind1),
            33 => Some(SpecialCase::PerfectionOfMind2),
            34 => Some(SpecialCase::PerfectionOfMind3),
            35 => Some(SpecialCase::PerfectionOfSoul0),
            36 => Some(SpecialCase::PerfectionOfSoul1),
            37 => Some(SpecialCase::PerfectionOfSoul2),
            38 => Some(SpecialCase::PerfectionOfSoul3),
            39 => Some(SpecialCase::TeamSize1),
            40 => Some(SpecialCase::TeamSize2),
            41 => Some(SpecialCase::TeamSize3),
            42 => Some(SpecialCase::NotComboLevel3),
            43 => Some(SpecialCase::ToHit97),
            44 => Some(SpecialCase::DefensiveAdaptation),
            45 => Some(SpecialCase::EfficientAdaptation),
            46 => Some(SpecialCase::OffensiveAdaptation),
            47 => Some(SpecialCase::NotDefensiveAdaptation),
            48 => Some(SpecialCase::NotDefensiveNorOffensiveAdaptation),
            49 => Some(SpecialCase::BoxingBuff),
            50 => Some(SpecialCase::KickBuff),
            51 => Some(SpecialCase::Supremacy),
            52 => Some(SpecialCase::SupremacyAndBuffPwr),
            53 => Some(SpecialCase::PetTier2),
            54 => Some(SpecialCase::PetTier3),
            55 => Some(SpecialCase::PackMentality),
            56 => Some(SpecialCase::NotPackMentality),
            57 => Some(SpecialCase::FastSnipe),
            58 => Some(SpecialCase::NotFastSnipe),
            59 => Some(SpecialCase::CrossPunchBuff),
            60 => Some(SpecialCase::NotCrossPunchBuff),
            61 => Some(SpecialCase::NotBoxingBuff),
            62 => Some(SpecialCase::NotKickBuff),
            _ => None,
        }
    }
}

impl Wire for SpecialCase {
    open spec fn shape() -> Shape {
        enumeration::<SpecialCase>()
    }

    open spec fn datum(&self) -> Datum {
        Datum::Int(self.ordinal_of() as int)
    }

    proof fn lemma_conforms(&self) {
        lemma_enumerated_conforms(*self);
    }

    fn serialize(&self, serializer: &mut Serializer) -> (r: Result<(), Error>) {
        serialize_ordinal(self, serializer)
    }

    fn deserialize(deserializer: &mut Deserializer) -> (r: Result<Self, Error>) {
        deserialize_ordinal(deserializer)
    }
}

/// Whether an effect stacks with itself.
#[allow(non_camel_case_types)]
#[derive(Clone, Copy, Debug, PartialEq, Eq)]
pub enum Stacking {
    No,
    Yes,
}

impl Enumerated for Stacking {
    #[verifier::opaque]
    open spec fn ordinal_of(self) -> u32 {
        match self {
            Stacking::No => 0,
            Stacking::Yes => 1,
        }
    }

    #[verifier::opaque]
    open spec fn of_ordinal(n: u32) -> Option<Self> {
        match n {
            0 => Some(Stacking::No),
            1 => Some(Stacking::Yes),
            _ => None,
        }
    }

    proof fn lemma_ordinal_known(self) {
        reveal(<Stacking as Enumerated>::ordinal_of);
        reveal(<Stacking as Enumerated>::of_ordinal);
    }

    proof fn lemma_ordinal_exact(n: u32) {
        reveal(<Stacking as Enumerated>::ordinal_of);
        reveal(<Stacking as Enumerated>::of_ordinal);
    }

    fn ordinal(self) -> (n: u32) {
        proof {
            reveal(<Stacking as Enumerated>::ordinal_of);
        }
        match self {
            Stacking::No => 0,
            Stacking::Yes => 1,
        }
    }

    fn from_ordinal(n: u32) -> (r: Option<Self>) {
        proof {
            reveal(<Stacking as Enumerated>::of_ordinal);
        }
        match n {
            0 => Some(Stacking::No),
            1 => Some(Stacking::Yes),
            _ => None,
        }
    }
}

impl Wire for Stacking {
    open spec fn shape() -> Shape {
        enumeration::<Stacking>()
    }

    open spec fn datum(&self) -> Datum {
        Datum::Int(self.ordinal_of() as int)
    }

    proof fn lemma_conforms(&self) {
        lemma_enumerated_conforms(*self);
    }

    fn serialize(&self, serializer: &mut Serializer) -> (r: Result<(), Error>) {
        serialize_ordinal(self, serializer)
    }

    fn deserialize(deserializer: &mut Deserializer) -> (r: Result<Self, Error>) {
        deserialize_ordinal(deserializer)
    }
}

/// The kind of a summoned entity.
#[allow(non_camel_case_types)]
#[derive(Clone, Copy, Debug, PartialEq, Eq)]
pub enum SummonEntity {
    Pet,
    Henchman,
}

impl Enumerated for SummonEntity {
    #[verifier::opaque]
    open spec fn ordinal_of(self) -> u32 {
        match self {
            SummonEntity::Pet => 0,
            SummonEntity::Henchman => 1,
        }
    }

    #[verifier::opaque]
    open spec fn of_ordinal(n: u32) -> Option<Self> {
        match n {
            0 => Some(SummonEntity::Pet),
            1 => Some(SummonEntity::Henchman),
            _ => None,
        }
    }

    proof fn lemma_ordinal_known(self) {
        reveal(<SummonEntity as Enumerated>::ordinal_of);
        reveal(<SummonEntity as Enumerated>::of_ordinal);
    }

    proof fn lemma_ordinal_exact(n: u32) {
        reveal(<SummonEntity as Enumerated>::ordinal_of);
        reveal(<SummonEntity as Enumerated>::of_ordinal);
    }

    fn ordinal(self) -> (n: u32) {
        proof {
            reveal(<SummonEntity as Enumerated>::ordinal_of);
        }
        match self {
            SummonEntity::Pet => 0,
            SummonEntity::Henchman => 1,
        }
    }

    fn from_ordinal(n: u32) -> (r: Option<Self>) {
        proof {
            reveal(<SummonEntity as Enumerated>::of_ordinal);
        }
        match n {
            0 => Some(SummonEntity::Pet),
            1 => Some(SummonEntity::Henchman),
            _ => None,
        }
    }
}

impl Wire for SummonEntity {
    open spec fn shape() -> Shape {
        enumeration::<SummonEntity>()
    }

    open spec fn datum(&self) -> Datum {
        Datum::Int(self.ordinal_of() as int)
    }

    proof fn lemma_conforms(&self) {
        lemma_enumerated_conforms(*self);
    }

    fn serialize(&self, serializer: &mut Serializer) -> (r: Result<(), Error>) {
        serialize_ordinal(self, serializer)
    }

    fn deserialize(deserializer: &mut Deserializer) -> (r: Result<Self, Error>) {
        deserialize_ordinal(deserializer)
    }
}

/// An event that suppresses an effect.
#[allow(non_camel_case_types)]
#[derive(Clone, Copy, Debug, PartialEq, Eq)]
pub enum SuppressType {
    Held,
    Sleep,
    Stunned,
    Immobilized,
    Terrorized,
    Knocked,
    Attacked,
    HitByFoe,
    MissionObjectClick,
    ActivateAttackClick,
    Damaged,
    Phased1,
    Confused,
}

/// The events that suppress an effect.
pub type Suppress = BitVec<SuppressType>;

impl Enumerated for SuppressType {
    #[verifier::opaque]
    open spec fn ordinal_of(self) -> u32 {
        match self {
            SuppressType::Held => 0,
            SuppressType::Sleep => 1,
            SuppressType::Stunned => 2,
            SuppressType::Immobilized => 3,
            SuppressType::Terrorized => 4,
            SuppressType::Knocked => 5,
            SuppressType::Attacked => 6,
            SuppressType::HitByFoe => 7,
            SuppressType::MissionObjectClick => 8,
            SuppressType::ActivateAttackClick => 9,
            SuppressType::Damaged => 10,
            SuppressType::Phased1 => 11,
            SuppressType::Confused => 12,
        }
    }

    #[verifier::opaque]
    open spec fn of_ordinal(n: u32) -> Option<Self> {
        match n {
            0 => Some(SuppressType::Held),
            1 => Some(SuppressType::Sleep),
            2 => Some(SuppressType::Stunned),
            3 => Some(SuppressType::Immobilized),
            4 => Some(SuppressType::Terrorized),
            5 => Some(SuppressType::Knocked),
            6 => Some(SuppressType::Attacked),
            7 => Some(SuppressType::HitByFoe),
            8 => Some(SuppressType::MissionObjectClick),
            9 => Some(SuppressType::ActivateAttackClick),
            10 => Some(SuppressType::Damaged),
            11 => Some(SuppressType::Phased1),
            12 => Some(SuppressType::Confused),
            _ => None,
        }
    }

    proof fn lemma_ordinal_known(self) {
        reveal(<SuppressType as Enumerated>::ordinal_of);
        reveal(<SuppressType as Enumerated>::of_ordinal);
    }

    proof fn lemma_ordinal_exact(n: u32) {
        reveal(<SuppressType as Enumerated>::ordinal_of);
        reveal(<SuppressType as Enumerated>::of_ordinal);
    }

    fn ordinal(self) -> (n: u32) {
        proof {
            reveal(<SuppressType as Enumerated>::ordinal_of);
        }
        match self {
            SuppressType::Held => 0,
            SuppressType::Sleep => 1,
            SuppressType::Stunned => 2,
            SuppressType::Immobilized => 3,
            SuppressType::Terrorized => 4,
            SuppressType::Knocked => 5,
            SuppressType::Attacked => 6,
            SuppressType::HitByFoe => 7,
            SuppressType::MissionObjectClick => 8,
            SuppressType::ActivateAttackClick => 9,
            SuppressType::Damaged => 10,
            SuppressType::Phased1 => 11,
            SuppressType::Confused => 12,
        }
    }

    fn from_ordinal(n: u32) -> (r: Option<Self>) {
        proof {
            reveal(<SuppressType as Enumerated>::of_ordinal);
        }
        match n {
            0 => Some(SuppressType::Held),
            1 => Some(SuppressType::Sleep),
            2 => Some(SuppressType::Stunned),
            3 => Some(SuppressType::Immobilized),
            4 => Some(SuppressType::Terrorized),
            5 => Some(SuppressType::Knocked),
            6 => Some(SuppressType::Attacked),
            7 => Some(SuppressType::HitByFoe),
            8 => Some(SuppressType::MissionObjectClick),
            9 => Some(SuppressType::ActivateAttackClick),
            10 => Some(SuppressType::Damaged),
            11 => Some(SuppressType::Phased1),
            12 => Some(SuppressType::Confused),
            _ => None,
        }
    }
}

impl Wire for SuppressType {
    open spec fn shape() -> Shape {
        enumeration::<SuppressType>()
    }

    open spec fn datum(&self) -> Datum {
        Datum::Int(self.ordinal_of() as int)
    }

    proof fn lemma_conforms(&self) {
        lemma_enumerated_conforms(*self);
    }

    fn serialize(&self, serializer: &mut Serializer) -> (r: Result<(), Error>) {
        serialize_ordinal(self, serializer)
    }

    fn deserialize(deserializer: &mut Deserializer) -> (r: Result<Self, Error>) {
        deserialize_ordinal(deserializer)
    }
}

/// Who receives an effect.
#[allow(non_camel_case_types)]
#[derive(Clone, Copy, Debug, PartialEq, Eq)]
pub enum ToWho {
    Unspecified,
    Target,
    Self_,
    All,
}

impl Enumerated for ToWho {
    #[verifier::opaque]
    open spec fn ordinal_of(self) -> u32 {
        match self {
            ToWho::Unspecified => 0,
            ToWho::Target => 1,
            ToWho::Self_ => 2,
            ToWho::All => 3,
        }
    }

    #[verifier::opaque]
    open spec fn of_ordinal(n: u32) -> Option<Self> {
        match n {
            0 => Some(ToWho::Unspecified),
            1 => Some(ToWho::Target),
            2 => Some(ToWho::Self_),
            3 => Some(ToWho::All),
            _ => None,
        }
    }

    proof fn lemma_ordinal_known(self) {
        reveal(<ToWho as Enumerated>::ordinal_of);
        reveal(<ToWho as Enumerated>::of_ordinal);
    }

    proof fn lemma_ordinal_exact(n: u32) {
        reveal(<ToWho as Enumerated>::ordinal_of);
        reveal(<ToWho as Enumerated>::of_ordinal);
    }

    fn ordinal(self) -> (n: u32) {
        proof {
            reveal(<ToWho as Enumerated>::ordinal_of);
        }
        match self {
            ToWho::Unspecified => 0,
            ToWho::Target => 1,
            ToWho::Self_ => 2,
            ToWho::All => 3,
        }
    }

    fn from_ordinal(n: u32) -> (r: Option<Self>) {
        proof {
            reveal(<ToWho as Enumerated>::of_ordinal);
        }
        match n {
            0 => Some(ToWho::Unspecified),
            1 => Some(ToWho::Target),
            2 => Some(ToWho::Self_),
            3 => Some(ToWho::All),
            _ => None,
        }
    }
}

impl Wire for ToWho {
    open spec fn shape() -> Shape {
        enumeration::<ToWho>()
    }

    open spec fn datum(&self) -> Datum {
        Datum::Int(self.ordinal_of() as int)
    }

    proof fn lemma_conforms(&self) {
        lemma_enumerated_conforms(*self);
    }

    fn serialize(&self, serializer: &mut Serializer) -> (r: Result<(), Error>) {
        serialize_ordinal(self, serializer)
    }

    fn deserialize(deserializer: &mut Deserializer) -> (r: Result<Self, Error>) {
        deserialize_ordinal(deserializer)
    }
}

/// A kind of attack.
#[allow(non_camel_case_types)]
#[derive(Clone, Copy, Debug, PartialEq, Eq)]
pub enum VectorKind {
    Melee,
    Ranged,
    Aoe,
    Smashing,
    Lethal,
    Cold,
    Fire,
    Energy,
    NegativeEnergy,
    Psionic,
    Toxic,
}

/// The kinds of attack that a power makes.
pub type Vector = BitVec<VectorKind>;

impl Enumerated for VectorKind {
    #[verifier::opaque]
    open spec fn ordinal_of(self) -> u32 {
        match self {
            VectorKind::Melee => 0,
            VectorKind::Ranged => 1,
            VectorKind::Aoe => 2,
            VectorKind::Smashing => 3,
            VectorKind::Lethal => 4,
            VectorKind::Cold => 5,
            VectorKind::Fire => 6,
            VectorKind::Energy => 7,
            VectorKind::NegativeEnergy => 8,
            VectorKind::Psionic => 9,
            VectorKind::Toxic => 10,
        }
    }

    #[verifier::opaque]
    open spec fn of_ordinal(n: u32) -> Option<Self> {
        match n {
            0 => Some(VectorKind::Melee),
            1 => Some(VectorKind::Ranged),
            2 => Some(VectorKind::Aoe),
            3 => Some(VectorKind::Smashing),
            4 => Some(VectorKind::Lethal),
            5 => Some(VectorKind::Cold),
            6 => Some(VectorKind::Fire),
            7 => Some(VectorKind::Energy),
            8 => Some(VectorKind::NegativeEnergy),
            9 => Some(VectorKind::Psionic),
            10 => Some(VectorKind::Toxic),
            _ => None,
        }
    }

    proof fn lemma_ordinal_known(self) {
        reveal(<VectorKind as Enumerated>::ordinal_of);
        reveal(<VectorKind as Enumerated>::of_ordinal);
    }

    proof fn lemma_ordinal_exact(n: u32) {
        reveal(<VectorKind as Enumerated>::ordinal_of);
        reveal(<VectorKind as Enumerated>::of_ordinal);
    }

    fn ordinal(self) -> (n: u32) {
        proof {
            reveal(<VectorKind as Enumerated>::ordinal_of);
        }
        match self {
            VectorKind::Melee => 0,
            VectorKind::Ranged => 1,
            VectorKind::Aoe => 2,
            VectorKind::Smashing => 3,
            VectorKind::Lethal => 4,
            VectorKind::Cold => 5,
            VectorKind::Fire => 6,
            VectorKind::Energy => 7,
            VectorKind::NegativeEnergy => 8,
            VectorKind::Psionic => 9,
            VectorKind::Toxic => 10,
        }
    }

    fn from_ordinal(n: u32) -> (r: Option<Self>) {
        proof {
            reveal(<VectorKind as Enumerated>::of_ordinal);
        }
        match n {
            0 => Some(VectorKind::Melee),
            1 => Some(VectorKind::Ranged),
            2 => Some(VectorKind::Aoe),
            3 => Some(VectorKind::Smashing),
            4 => Some(VectorKind::Lethal),
            5 => Some(VectorKind::Cold),
            6 => Some(VectorKind::Fire),
            7 => Some(VectorKind::Energy),
            8 => Some(VectorKind::NegativeEnergy),
            9 => Some(VectorKind::Psionic),
            10 => Some(VectorKind::Toxic),
            _ => None,
        }
    }
}

impl Wire for VectorKind {
    open spec fn shape() -> Shape {
        enumeration::<VectorKind>()
    }

    open spec fn datum(&self) -> Datum {
        Datum::Int(self.ordinal_of() as int)
    }

    proof fn lemma_conforms(&self) {
        lemma_enumerated_conforms(*self);
    }

    fn serialize(&self, serializer: &mut Serializer) -> (r: Result<(), Error>) {
        serialize_ordinal(self, serializer)
    }

    fn deserialize(deserializer: &mut Deserializer) -> (r: Result<Self, Error>) {
        deserialize_ordinal(deserializer)
    }
}
} // verus!
