//! Enumerations: a closed set of named values, each written as the unsigned
//! 32-bit number that the schema declares for it.

use super::de::Deserializer;
use super::error::Error;
use super::model::{conforms, encode, parse, Datum, Shape};
use super::ser::Serializer;
use super::wire::writes_as;
use vstd::prelude::*;

verus! {

/// A type whose values are told apart by a declared ordinal. The ordinals
/// need not start at zero nor be without gaps.
pub trait Enumerated: Sized + Copy {
    /// The ordinal that the schema declares for this value.
    spec fn ordinal_of(self) -> u32;

    /// The value that has the ordinal `n`, if there is one.
    spec fn of_ordinal(n: u32) -> Option<Self>;

    /// The ordinal of a value leads back to the value.
    proof fn lemma_ordinal_known(self)
        ensures
            Self::of_ordinal(self.ordinal_of()) == Some(self),
    ;

    /// A value found by an ordinal has that ordinal.
    proof fn lemma_ordinal_exact(n: u32)
        ensures
            Self::of_ordinal(n) matches Some(v) ==> v.ordinal_of() == n,
    ;

    /// The ordinal of the value.
    fn ordinal(self) -> (n: u32)
        ensures
            n == self.ordinal_of(),
    ;

    /// The value of the ordinal, or `None` where no value has it.
    fn from_ordinal(n: u32) -> (r: Option<Self>)
        ensures
            r == Self::of_ordinal(n),
    ;
}

/// The ordinals that `T` declares.
#[verifier::opaque]
pub open spec fn ordinals<T: Enumerated>() -> Set<u32> {
    Set::new(|n: u32| T::of_ordinal(n) is Some)
}

/// The shape of the enumeration `T`.
pub open spec fn enumeration<T: Enumerated>() -> Shape {
    Shape::Enumeration(ordinals::<T>())
}

/// Writes a value of an enumeration as its ordinal.
pub fn serialize_ordinal<T: Enumerated>(value: &T, serializer: &mut Serializer) -> (r: Result<
    (),
    Error,
>)
    ensures
        writes_as(
            r,
            old(serializer).writer@,
            final(serializer).writer@,
            encode(enumeration::<T>(), Datum::Int(value.ordinal_of() as int)),
        ),
{
    serializer.serialize_u32(value.ordinal())
}

/// A value of an enumeration is a value of its shape.
pub proof fn lemma_enumerated_conforms<T: Enumerated>(value: T)
    ensures
        conforms(enumeration::<T>(), Datum::Int(value.ordinal_of() as int)),
{
    reveal(ordinals);
    value.lemma_ordinal_known();
}

/// Reads an ordinal and hands back the value that has it. An ordinal that
/// the enumeration does not declare is an error: there is no value to fall
/// back on.
pub fn deserialize_ordinal<T: Enumerated>(deserializer: &mut Deserializer) -> (r: Result<
    T,
    Error,
>)
    ensures
        match parse(enumeration::<T>(), old(deserializer).reader@) {
            Ok((datum, rest)) => r matches Ok(v) && Datum::Int(v.ordinal_of() as int) == datum
                && final(deserializer).reader@ == rest,
            Err(fault) => r matches Err(e) && e@ == fault,
        },
{
    proof {
        reveal(ordinals);
    }
    let n = deserializer.deserialize_u32()?;
    match T::from_ordinal(n) {
        Some(value) => {
            proof {
                T::lemma_ordinal_exact(n);
            }
            Ok(value)
        },
        None => Err(Error::invalid_ordinal()),
    }
}

} // verus!
