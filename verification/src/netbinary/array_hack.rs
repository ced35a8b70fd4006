//! The doubled sequence: a handful of fields carry their length twice, once
//! as the plain number of elements and once more in the count field of an
//! ordinary sequence.

use super::de::Deserializer;
use super::endian::le_i32;
use super::error::{Error, Fault};
use super::model::{conforms, encode, encode_from, parse, prepend, Datum, Shape};
use super::ser::{count_field, Serializer};
use super::wire::{data, writes_as, Wire};
use vstd::prelude::*;

verus! {

/// The shape of a doubled sequence of `T`.
pub open spec fn doubled<T: Wire>() -> Shape {
    Shape::DoubledSequence(Box::new(T::shape()))
}

/// Every vector is a value of the doubled shape of its elements.
pub proof fn lemma_conforms<T: Wire>(value: &Vec<T>)
    ensures
        conforms(doubled::<T>(), value.datum()),
{
    assert forall|i: int| 0 <= i < data(value@).len() implies conforms(
        T::shape(),
        #[trigger] data(value@)[i],
    ) by {
        value@[i].lemma_conforms();
    }
}

/// Writes the number of elements, and then the elements as an ordinary
/// sequence with a count field of its own.
///
/// A vector with more elements than a signed 32-bit number can count is
/// refused as too long, before anything is written.
pub fn serialize<T: Wire>(value: &Vec<T>, serializer: &mut Serializer) -> (r: Result<(), Error>)
    ensures
        writes_as(
            r,
            old(serializer).writer@,
            final(serializer).writer@,
            encode(doubled::<T>(), Datum::List(data(value@))),
        ),
        value@.len() > i32::MAX ==> r == Err::<(), Error>(Error::SequenceTooLong) && final(
            serializer
        ).writer@ == old(serializer).writer@,
{
    let ghost items = data(value@);
    proof {
        assert(encode(doubled::<T>(), Datum::List(items)) == if items.len() > i32::MAX {
            Err::<Seq<u8>, Fault>(Fault::SequenceTooLong)
        } else {
            prepend(
                le_i32(items.len() as i32) + count_field(items.len()),
                encode_from(T::shape(), items, 0),
            )
        });
        assert(encode(Vec::<T>::shape(), value.datum()) == if items.len() > i32::MAX {
            Err::<Seq<u8>, Fault>(Fault::SequenceTooLong)
        } else {
            prepend(count_field(items.len()), encode_from(T::shape(), items, 0))
        });
    }
    if value.len() > i32::MAX as usize {
        return Err(Error::SequenceTooLong);
    }
    let len32: i32 = value.len() as i32;
    serializer.serialize_tuple(2)?;
    serializer.serialize_element(&len32)?;
    match serializer.serialize_element(value) {
        Err(e) => {
            assert(old(serializer).writer@.is_prefix_of(serializer.writer@));
            return Err(e);
        },
        Ok(()) => {},
    }
    proof {
        let body = encode_from(T::shape(), items, 0)->Ok_0;
        assert(serializer.writer@ =~= old(serializer).writer@ + ((le_i32(len32) + count_field(
            items.len(),
        )) + body));
    }
    serializer.end()
}

/// Reads a doubled sequence: the first number is read and set aside, and
/// the count field after it says how many elements follow.
pub fn deserialize<T: Wire>(deserializer: &mut Deserializer) -> (r: Result<Vec<T>, Error>)
    ensures
        match parse(doubled::<T>(), old(deserializer).reader@) {
            Ok((datum, rest)) => r matches Ok(v) && v.datum() == datum && final(
                deserializer
            ).reader@ == rest,
            Err(fault) => r matches Err(e) && e@ == fault,
        },
{
    let ghost input = deserializer.reader@;
    proof {
        assert(parse(doubled::<T>(), input) == if input.len() < 4 {
            Err::<(Datum, Seq<u8>), Fault>(Fault::IOError)
        } else {
            parse(Vec::<T>::shape(), input.skip(4))
        });
    }
    let _literal = i32::deserialize(deserializer)?;
    Vec::<T>::deserialize(deserializer)
}

/// On every doubled sequence that a writer produces, the plain number and
/// the count field stand for the same number of elements.
pub proof fn law_counts_agree(element: Shape, items: Seq<Datum>)
    requires
        encode(Shape::DoubledSequence(Box::new(element)), Datum::List(items)) is Ok,
    ensures
        ({
            let bytes = encode(Shape::DoubledSequence(Box::new(element)), Datum::List(items))->Ok_0;
            &&& items.len() <= i32::MAX
            &&& super::de::parse_i32(bytes) matches Ok((literal, after))
            &&& literal == items.len()
            &&& super::de::parse_count(after) matches Ok((count, _))
            &&& count == items.len()
        }),
{
    let body = encode_from(element, items, 0)->Ok_0;
    let literal = le_i32(items.len() as i32);
    let bytes = encode(Shape::DoubledSequence(Box::new(element)), Datum::List(items))->Ok_0;
    assert(bytes =~= literal + (count_field(items.len()) + body));
    super::laws::law_i32_round_trip(items.len() as i32, count_field(items.len()) + body);
    super::laws::law_count_round_trip(items.len(), body);
}

/// A reader goes by the count field alone: whatever four bytes stand where
/// the plain number should be, what follows them is read as an ordinary
/// sequence.
pub proof fn law_literal_ignored(element: Shape, literal: Seq<u8>, tail: Seq<u8>)
    requires
        literal.len() == 4,
    ensures
        parse(Shape::DoubledSequence(Box::new(element)), literal + tail) == parse(
            Shape::Sequence(Box::new(element)),
            tail,
        ),
{
    assert((literal + tail).skip(4) =~= tail);
}

} // verus!
