//! The structural walker: every type that can travel says what shape it has
//! on the wire and how it is written and read, field by field, in declared
//! order.

use super::de::{parse_count, Deserializer};
use super::error::{Error, Fault};
use super::model::{
    append, conforms, encode, encode_from, parse, parse_fields, parse_many, prepend, Datum,
    IntShape, Shape,
};
use super::record::{begin_reading, begin_writing, put_field, take_field};
use super::ser::{count_field, Serializer};
use vstd::prelude::*;
use vstd::string::*;

verus! {

/// What a write came to: on success `expected` was appended to the sink;
/// on a fault what the sink held is still there, with whatever went out
/// before the writer stopped after it.
pub open spec fn writes_as(
    r: Result<(), Error>,
    before: Seq<u8>,
    after: Seq<u8>,
    expected: Result<Seq<u8>, Fault>,
) -> bool {
    match expected {
        Ok(bytes) => r is Ok && after == before + bytes,
        Err(fault) => r matches Err(e) && e@ == fault && before.is_prefix_of(after),
    }
}

/// A type with a place in the format.
///
/// `shape` and `datum` say what the type is to the wire; `serialize` and
/// `deserialize` are held to what the model makes of them, so that every
/// law of the model is a law of the type.
pub trait Wire: Sized {
    /// The shape that values of this type have on the wire.
    spec fn shape() -> Shape;

    /// This value as the wire knows it.
    spec fn datum(&self) -> Datum;

    /// Every value of the type is a value of its shape.
    proof fn lemma_conforms(&self)
        ensures
            conforms(Self::shape(), self.datum()),
    ;

    /// Appends the wire form of the value to the sink.
    fn serialize(&self, serializer: &mut Serializer) -> (r: Result<(), Error>)
        ensures
            writes_as(
                r,
                old(serializer).writer@,
                final(serializer).writer@,
                encode(Self::shape(), self.datum()),
            ),
    ;

    /// Takes a value off the head of the source.
    fn deserialize(deserializer: &mut Deserializer) -> (r: Result<Self, Error>)
        ensures
            match parse(Self::shape(), old(deserializer).reader@) {
                Ok((datum, rest)) => r matches Ok(v) && v.datum() == datum && final(deserializer).reader@ == rest,
                Err(fault) => r matches Err(e) && e@ == fault,
            },
    ;
}

/// The wire values of a run of typed values.
pub open spec fn data<T: Wire>(values: Seq<T>) -> Seq<Datum> {
    values.map_values(|v: T| v.datum())
}

impl Wire for bool {
    open spec fn shape() -> Shape {
        Shape::Bool
    }

    open spec fn datum(&self) -> Datum {
        Datum::Bool(*self)
    }

    proof fn lemma_conforms(&self) {
    }

    fn serialize(&self, serializer: &mut Serializer) -> (r: Result<(), Error>) {
        serializer.serialize_bool(*self)
    }

    fn deserialize(deserializer: &mut Deserializer) -> (r: Result<Self, Error>) {
        deserializer.deserialize_bool()
    }
}

impl Wire for i8 {
    open spec fn shape() -> Shape {
        Shape::Int(IntShape::I8)
    }

    open spec fn datum(&self) -> Datum {
        Datum::Int(*self as int)
    }

    proof fn lemma_conforms(&self) {
    }

    fn serialize(&self, serializer: &mut Serializer) -> (r: Result<(), Error>) {
        serializer.serialize_i8(*self)
    }

    fn deserialize(deserializer: &mut Deserializer) -> (r: Result<Self, Error>) {
        deserializer.deserialize_i8()
    }
}

impl Wire for i16 {
    open spec fn shape() -> Shape {
        Shape::Int(IntShape::I16)
    }

    open spec fn datum(&self) -> Datum {
        Datum::Int(*self as int)
    }

    proof fn lemma_conforms(&self) {
    }

    fn serialize(&self, serializer: &mut Serializer) -> (r: Result<(), Error>) {
        serializer.serialize_i16(*self)
    }

    fn deserialize(deserializer: &mut Deserializer) -> (r: Result<Self, Error>) {
        deserializer.deserialize_i16()
    }
}

impl Wire for i32 {
    open spec fn shape() -> Shape {
        Shape::Int(IntShape::I32)
    }

    open spec fn datum(&self) -> Datum {
        Datum::Int(*self as int)
    }

    proof fn lemma_conforms(&self) {
    }

    fn serialize(&self, serializer: &mut Serializer) -> (r: Result<(), Error>) {
        serializer.serialize_i32(*self)
    }

    fn deserialize(deserializer: &mut Deserializer) -> (r: Result<Self, Error>) {
        deserializer.deserialize_i32()
    }
}

impl Wire for i64 {
    open spec fn shape() -> Shape {
        Shape::Int(IntShape::I64)
    }

    open spec fn datum(&self) -> Datum {
        Datum::Int(*self as int)
    }

    proof fn lemma_conforms(&self) {
    }

    fn serialize(&self, serializer: &mut Serializer) -> (r: Result<(), Error>) {
        serializer.serialize_i64(*self)
    }

    fn deserialize(deserializer: &mut Deserializer) -> (r: Result<Self, Error>) {
        deserializer.deserialize_i64()
    }
}

impl Wire for u8 {
    open spec fn shape() -> Shape {
        Shape::Int(IntShape::U8)
    }

    open spec fn datum(&self) -> Datum {
        Datum::Int(*self as int)
    }

    proof fn lemma_conforms(&self) {
    }

    fn serialize(&self, serializer: &mut Serializer) -> (r: Result<(), Error>) {
        serializer.serialize_u8(*self)
    }

    fn deserialize(deserializer: &mut Deserializer) -> (r: Result<Self, Error>) {
        deserializer.deserialize_u8()
    }
}

impl Wire for u16 {
    open spec fn shape() -> Shape {
        Shape::Int(IntShape::U16)
    }

    open spec fn datum(&self) -> Datum {
        Datum::Int(*self as int)
    }

    proof fn lemma_conforms(&self) {
    }

    fn serialize(&self, serializer: &mut Serializer) -> (r: Result<(), Error>) {
        serializer.serialize_u16(*self)
    }

    fn deserialize(deserializer: &mut Deserializer) -> (r: Result<Self, Error>) {
        deserializer.deserialize_u16()
    }
}

impl Wire for u32 {
    open spec fn shape() -> Shape {
        Shape::Int(IntShape::U32)
    }

    open spec fn datum(&self) -> Datum {
        Datum::Int(*self as int)
    }

    proof fn lemma_conforms(&self) {
    }

    fn serialize(&self, serializer: &mut Serializer) -> (r: Result<(), Error>) {
        serializer.serialize_u32(*self)
    }

    fn deserialize(deserializer: &mut Deserializer) -> (r: Result<Self, Error>) {
        deserializer.deserialize_u32()
    }
}

impl Wire for u64 {
    open spec fn shape() -> Shape {
        Shape::Int(IntShape::U64)
    }

    open spec fn datum(&self) -> Datum {
        Datum::Int(*self as int)
    }

    proof fn lemma_conforms(&self) {
    }

    fn serialize(&self, serializer: &mut Serializer) -> (r: Result<(), Error>) {
        serializer.serialize_u64(*self)
    }

    fn deserialize(deserializer: &mut Deserializer) -> (r: Result<Self, Error>) {
        deserializer.deserialize_u64()
    }
}

/// A single-precision number, held as its bit pattern. The codec moves the
/// bits and never looks at the number, so no NaN loses its payload and no
/// zero its sign.
#[derive(Clone, Copy, Debug, PartialEq, Eq)]
pub struct Float32 {
    pub bits: u32,
}

/// A double-precision number, held as its bit pattern.
#[derive(Clone, Copy, Debug, PartialEq, Eq)]
pub struct Float64 {
    pub bits: u64,
}

impl Wire for Float32 {
    open spec fn shape() -> Shape {
        Shape::Int(IntShape::U32)
    }

    open spec fn datum(&self) -> Datum {
        Datum::Int(self.bits as int)
    }

    proof fn lemma_conforms(&self) {
    }

    fn serialize(&self, serializer: &mut Serializer) -> (r: Result<(), Error>) {
        serializer.serialize_f32(self.bits)
    }

    fn deserialize(deserializer: &mut Deserializer) -> (r: Result<Self, Error>) {
        let bits = deserializer.deserialize_f32()?;
        Ok(Float32 { bits })
    }
}

impl Wire for Float64 {
    open spec fn shape() -> Shape {
        Shape::Int(IntShape::U64)
    }

    open spec fn datum(&self) -> Datum {
        Datum::Int(self.bits as int)
    }

    proof fn lemma_conforms(&self) {
    }

    fn serialize(&self, serializer: &mut Serializer) -> (r: Result<(), Error>) {
        serializer.serialize_f64(self.bits)
    }

    fn deserialize(deserializer: &mut Deserializer) -> (r: Result<Self, Error>) {
        let bits = deserializer.deserialize_f64()?;
        Ok(Float64 { bits })
    }
}

impl Wire for String {
    open spec fn shape() -> Shape {
        Shape::Text
    }

    open spec fn datum(&self) -> Datum {
        Datum::Text(self@)
    }

    proof fn lemma_conforms(&self) {
    }

    fn serialize(&self, serializer: &mut Serializer) -> (r: Result<(), Error>) {
        serializer.serialize_str(self.as_str())
    }

    fn deserialize(deserializer: &mut Deserializer) -> (r: Result<Self, Error>) {
        deserializer.deserialize_string()
    }
}

impl Wire for char {
    open spec fn shape() -> Shape {
        Shape::Unsupported
    }

    open spec fn datum(&self) -> Datum {
        Datum::Opaque
    }

    proof fn lemma_conforms(&self) {
    }

    fn serialize(&self, serializer: &mut Serializer) -> (r: Result<(), Error>) {
        serializer.serialize_char(*self)
    }

    fn deserialize(deserializer: &mut Deserializer) -> (r: Result<Self, Error>) {
        deserializer.deserialize_char()
    }
}

impl<T> Wire for Option<T> {
    open spec fn shape() -> Shape {
        Shape::Unsupported
    }

    open spec fn datum(&self) -> Datum {
        Datum::Opaque
    }

    proof fn lemma_conforms(&self) {
    }

    fn serialize(&self, serializer: &mut Serializer) -> (r: Result<(), Error>) {
        match self {
            None => serializer.serialize_none(),
            Some(value) => serializer.serialize_some(value),
        }
    }

    fn deserialize(deserializer: &mut Deserializer) -> (r: Result<Self, Error>) {
        deserializer.deserialize_option()
    }
}

impl Wire for () {
    open spec fn shape() -> Shape {
        Shape::Tuple(Seq::empty())
    }

    open spec fn datum(&self) -> Datum {
        Datum::List(Seq::empty())
    }

    proof fn lemma_conforms(&self) {
    }

    fn serialize(&self, serializer: &mut Serializer) -> (r: Result<(), Error>) {
        serializer.serialize_unit()
    }

    fn deserialize(deserializer: &mut Deserializer) -> (r: Result<Self, Error>) {
        proof {
            assert(parse_fields(Seq::<Shape>::empty(), 0, deserializer.reader@) == Ok::<
                (Seq<Datum>, Seq<u8>),
                Fault,
            >((Seq::empty(), deserializer.reader@)));
        }
        deserializer.deserialize_unit()
    }
}

impl<A: Wire, B: Wire> Wire for (A, B) {
    open spec fn shape() -> Shape {
        Shape::Tuple(seq![A::shape(), B::shape()])
    }

    open spec fn datum(&self) -> Datum {
        Datum::List(seq![self.0.datum(), self.1.datum()])
    }

    proof fn lemma_conforms(&self) {
        self.0.lemma_conforms();
        self.1.lemma_conforms();
    }

    fn serialize(&self, serializer: &mut Serializer) -> (r: Result<(), Error>) {
        let at = begin_writing(serializer, Ghost(Self::shape()), Ghost(self.datum()));
        serializer.serialize_tuple(2)?;
        let at = put_field(&self.0, serializer, at)?;
        let at = put_field(&self.1, serializer, at)?;
        proof {
            at@.lemma_ends(serializer.writer@);
        }
        serializer.end()
    }

    fn deserialize(deserializer: &mut Deserializer) -> (r: Result<Self, Error>) {
        let at = begin_reading(deserializer, Ghost(Self::shape()));
        let (first, at) = take_field::<A>(deserializer, at)?;
        let (second, at) = take_field::<B>(deserializer, at)?;
        proof {
            at@.lemma_ends(deserializer.reader@);
            assert(at@.sofar =~= seq![first.datum(), second.datum()]);
        }
        Ok((first, second))
    }
}

impl<T: Wire> Wire for Vec<T> {
    open spec fn shape() -> Shape {
        Shape::Sequence(Box::new(T::shape()))
    }

    open spec fn datum(&self) -> Datum {
        Datum::List(data(self@))
    }

    proof fn lemma_conforms(&self) {
        assert forall|i: int| 0 <= i < data(self@).len() implies conforms(
            T::shape(),
            #[trigger] data(self@)[i],
        ) by {
            self@[i].lemma_conforms();
        }
    }

    fn serialize(&self, serializer: &mut Serializer) -> (r: Result<(), Error>)
        ensures
            self@.len() > i32::MAX ==> r == Err::<(), Error>(Error::SequenceTooLong) && final(
                serializer
            ).writer@ == old(serializer).writer@,
    {
        let ghost items = data(self@);
        proof {
            assert(encode(Self::shape(), self.datum()) == if items.len() > i32::MAX {
                Err::<Seq<u8>, Fault>(Fault::SequenceTooLong)
            } else {
                prepend(count_field(items.len()), encode_from(T::shape(), items, 0))
            });
        }
        serializer.serialize_seq(Some(self.len()))?;
        match serialize_elements(self, serializer) {
            Err(e) => {
                assert(old(serializer).writer@.is_prefix_of(serializer.writer@));
                return Err(e);
            },
            Ok(()) => {},
        }
        proof {
            let body = encode_from(T::shape(), items, 0)->Ok_0;
            assert(serializer.writer@ =~= old(serializer).writer@ + (count_field(items.len())
                + body));
        }
        serializer.end()
    }

    fn deserialize(deserializer: &mut Deserializer) -> (r: Result<Self, Error>) {
        let mut seq = deserializer.deserialize_seq()?;
        let mut values: Vec<T> = Vec::new();
        let ghost start = deserializer.reader@;
        let ghost count = seq.n as nat;
        assert(data(values@) + Seq::<Datum>::empty() =~= data(values@));
        loop
            invariant_except_break
                parse_count(old(deserializer).reader@) == Ok::<(nat, Seq<u8>), Fault>(
                    (count, start),
                ),
                parse_many(T::shape(), start, count) == append(
                    data(values@),
                    parse_many(T::shape(), deserializer.reader@, seq.n as nat),
                ),
            ensures
                parse_many(T::shape(), start, count) == Ok::<(Seq<Datum>, Seq<u8>), Fault>(
                    (data(values@), deserializer.reader@),
                ),
            decreases seq.n,
        {
            let ghost before = data(values@);
            match seq.next_element_seed::<T>(deserializer)? {
                None => {
                    assert(before + Seq::<Datum>::empty() =~= before);
                    break ;
                },
                Some(value) => {
                    values.push(value);
                    proof {
                        let tail = parse_many(T::shape(), deserializer.reader@, seq.n as nat);
                        assert(data(values@) =~= before + seq![value.datum()]);
                        if let Ok((items, rest)) = tail {
                            assert(before + (seq![value.datum()] + items) =~= data(values@)
                                + items);
                        }
                    }
                },
            }
        }
        Ok(values)
    }
}

/// Writes the elements of a sequence one after the other, with nothing
/// before, between or after them.
pub fn serialize_elements<T: Wire>(values: &Vec<T>, serializer: &mut Serializer) -> (r: Result<
    (),
    Error,
>)
    ensures
        writes_as(
            r,
            old(serializer).writer@,
            final(serializer).writer@,
            encode_from(T::shape(), data(values@), 0),
        ),
{
    let ghost items = data(values@);
    let ghost mut sofar = Seq::<u8>::empty();
    let mut i: usize = 0;
    assert(serializer.writer@ =~= old(serializer).writer@ + sofar);
    while i < values.len()
        invariant
            i <= values.len(),
            items == data(values@),
            serializer.writer@ == old(serializer).writer@ + sofar,
            encode_from(T::shape(), items, 0) == prepend(
                sofar,
                encode_from(T::shape(), items, i as nat),
            ),
        decreases values.len() - i,
    {
        match serializer.serialize_element(&values[i]) {
            Err(e) => {
                assert(old(serializer).writer@.is_prefix_of(serializer.writer@));
                return Err(e);
            },
            Ok(()) => {},
        }
        proof {
            let head = encode(T::shape(), items[i as int])->Ok_0;
            let tail = encode_from(T::shape(), items, (i + 1) as nat);
            if let Ok(bytes) = tail {
                assert(sofar + (head + bytes) =~= (sofar + head) + bytes);
            }
            assert(serializer.writer@ =~= old(serializer).writer@ + (sofar + head));
            sofar = sofar + head;
        }
        i = i + 1;
    }
    assert(sofar + Seq::<u8>::empty() =~= sofar);
    Ok(())
}

} // verus!
