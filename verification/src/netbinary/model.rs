//! The format as mathematics: what shapes a value can have on the wire,
//! what bytes a value of a shape is written as, and what a reader makes of
//! bytes when it expects a shape.
//!
//! Nothing here runs. The serializer and the deserializer are proved against
//! these definitions, and the laws of the format are proved of them.

use super::de::{parse_count, parse_text};
use super::endian::{
    bits_of_i16, bits_of_i32, bits_of_i64, bits_of_i8, from_le_u16, from_le_u32, from_le_u64,
    i16_of_bits, i32_of_bits, i64_of_bits, i8_of_bits, le_i32, le_u16, le_u32, le_u64,
};
use super::error::{invalid_ordinal, Fault};
use super::length::blob;
use super::ser::{bool_byte, count_field};
use vstd::prelude::*;
use vstd::utf8::encode_utf8;

verus! {

/// The fixed-width numbers of the format. A floating-point number travels
/// as the unsigned number of the same width that has its bit pattern, and a
/// flag set as an unsigned 32-bit number.
pub enum IntShape {
    I8,
    I16,
    I32,
    I64,
    U8,
    U16,
    U32,
    U64,
}

impl IntShape {
    /// How many bytes a number of this shape takes.
    pub open spec fn width(self) -> nat {
        match self {
            IntShape::I8 | IntShape::U8 => 1,
            IntShape::I16 | IntShape::U16 => 2,
            IntShape::I32 | IntShape::U32 => 4,
            IntShape::I64 | IntShape::U64 => 8,
        }
    }

    /// Whether `n` is a number of this shape.
    pub open spec fn fits(self, n: int) -> bool {
        match self {
            IntShape::I8 => i8::MIN <= n <= i8::MAX,
            IntShape::I16 => i16::MIN <= n <= i16::MAX,
            IntShape::I32 => i32::MIN <= n <= i32::MAX,
            IntShape::I64 => i64::MIN <= n <= i64::MAX,
            IntShape::U8 => 0 <= n <= u8::MAX,
            IntShape::U16 => 0 <= n <= u16::MAX,
            IntShape::U32 => 0 <= n <= u32::MAX,
            IntShape::U64 => 0 <= n <= u64::MAX,
        }
    }

    /// The bytes of `n`, low byte first.
    pub open spec fn bytes(self, n: int) -> Seq<u8>
        recommends
            self.fits(n),
    {
        match self {
            IntShape::I8 => seq![bits_of_i8(n as i8)],
            IntShape::I16 => le_u16(bits_of_i16(n as i16)),
            IntShape::I32 => le_u32(bits_of_i32(n as i32)),
            IntShape::I64 => le_u64(bits_of_i64(n as i64)),
            IntShape::U8 => seq![n as u8],
            IntShape::U16 => le_u16(n as u16),
            IntShape::U32 => le_u32(n as u32),
            IntShape::U64 => le_u64(n as u64),
        }
    }

    /// The number at the head of `b`.
    pub open spec fn value(self, b: Seq<u8>) -> int
        recommends
            b.len() >= self.width(),
    {
        match self {
            IntShape::I8 => i8_of_bits(b[0]) as int,
            IntShape::I16 => i16_of_bits(from_le_u16(b)) as int,
            IntShape::I32 => i32_of_bits(from_le_u32(b)) as int,
            IntShape::I64 => i64_of_bits(from_le_u64(b)) as int,
            IntShape::U8 => b[0] as int,
            IntShape::U16 => from_le_u16(b) as int,
            IntShape::U32 => from_le_u32(b) as int,
            IntShape::U64 => from_le_u64(b) as int,
        }
    }
}

/// What a value looks like on the wire. The format carries neither names
/// nor tags, so the shape is all a reader has to go by.
pub enum Shape {
    /// One byte, zero or not.
    Bool,
    /// A number of fixed width.
    Int(IntShape),
    /// Length-prefixed UTF-8.
    Text,
    /// An unsigned 32-bit number that must be one of the given ordinals.
    Enumeration(Set<u32>),
    /// A count field, one less than the number of elements, and then the
    /// elements.
    Sequence(Box<Shape>),
    /// The number of elements, and then the same elements as a
    /// [`Shape::Sequence`]: the length twice over.
    DoubledSequence(Box<Shape>),
    /// Values of the given shapes, one after the other. Tuples and records
    /// are both of this shape; the unit value is the empty one.
    Tuple(Seq<Shape>),
    /// Something the format cannot express: an optional value, a map, a
    /// variant with a payload, a single character.
    Unsupported,
}

/// A value as the wire knows it.
pub enum Datum {
    Bool(bool),
    /// A number, an ordinal or a bit pattern.
    Int(int),
    Text(Seq<char>),
    /// The elements of a sequence or the fields of a tuple.
    List(Seq<Datum>),
    /// A value of an unsupported shape.
    Opaque,
}

/// Whether `datum` is a value of the given shape.
pub open spec fn conforms(shape: Shape, datum: Datum) -> bool
    decreases shape,
{
    match shape {
        Shape::Bool => datum is Bool,
        Shape::Int(kind) => datum matches Datum::Int(n) && kind.fits(n),
        Shape::Text => datum is Text,
        Shape::Enumeration(known) => datum matches Datum::Int(n) && 0 <= n <= u32::MAX
            && known.contains(n as u32),
        Shape::Sequence(element) => datum matches Datum::List(items) && forall|i: int|
            0 <= i < items.len() ==> conforms(*element, #[trigger] items[i]),
        Shape::DoubledSequence(element) => datum matches Datum::List(items) && forall|i: int|
            0 <= i < items.len() ==> conforms(*element, #[trigger] items[i]),
        Shape::Tuple(shapes) => datum matches Datum::List(items) && items.len() == shapes.len()
            && forall|i: int|
            0 <= i < shapes.len() ==> conforms(#[trigger] shapes[i], items[i]),
        Shape::Unsupported => true,
    }
}

/// `head` put in front of what `tail` holds, or the fault of `tail`.
pub open spec fn prepend(head: Seq<u8>, tail: Result<Seq<u8>, Fault>) -> Result<Seq<u8>, Fault> {
    match tail {
        Ok(bytes) => Ok(head + bytes),
        Err(fault) => Err(fault),
    }
}

/// The bytes that `datum` is written as when it is written as a `shape`,
/// or the fault that stops the writer.
///
/// Fields and elements are written in order, so the first fault is the one
/// that is reported.
pub open spec fn encode(shape: Shape, datum: Datum) -> Result<Seq<u8>, Fault>
    recommends
        conforms(shape, datum),
    decreases shape, 0nat,
{
    match shape {
        Shape::Bool => Ok(seq![bool_byte(datum->Bool_0)]),
        Shape::Int(kind) => Ok(kind.bytes(datum->Int_0)),
        Shape::Text => Ok(blob(encode_utf8(datum->Text_0))),
        Shape::Enumeration(_) => Ok(le_u32(datum->Int_0 as u32)),
        Shape::Sequence(element) => {
            let items = datum->List_0;
            if items.len() > i32::MAX {
                Err(Fault::SequenceTooLong)
            } else {
                prepend(count_field(items.len()), encode_from(*element, items, 0))
            }
        },
        Shape::DoubledSequence(element) => {
            let items = datum->List_0;
            if items.len() > i32::MAX {
                Err(Fault::SequenceTooLong)
            } else {
                prepend(
                    le_i32(items.len() as i32) + count_field(items.len()),
                    encode_from(*element, items, 0),
                )
            }
        },
        Shape::Tuple(shapes) => encode_fields(shapes, datum->List_0, 0),
        Shape::Unsupported => Err(Fault::UnsupportedType),
    }
}

/// The bytes of the elements of `items` from the `k`th on, each written as
/// an `element`.
pub open spec fn encode_from(element: Shape, items: Seq<Datum>, k: nat) -> Result<Seq<u8>, Fault>
    decreases element, items.len() - k + 1,
{
    if k >= items.len() {
        Ok(Seq::empty())
    } else {
        match encode(element, items[k as int]) {
            Err(fault) => Err(fault),
            Ok(head) => prepend(head, encode_from(element, items, k + 1)),
        }
    }
}

/// The bytes of the fields of `items` from the `k`th on, each written as
/// the shape that stands in its place.
pub open spec fn encode_fields(shapes: Seq<Shape>, items: Seq<Datum>, k: nat) -> Result<
    Seq<u8>,
    Fault,
>
    decreases shapes, shapes.len() - k + 1,
{
    if k >= shapes.len() {
        Ok(Seq::empty())
    } else {
        match encode(shapes[k as int], items[k as int]) {
            Err(fault) => Err(fault),
            Ok(head) => prepend(head, encode_fields(shapes, items, k + 1)),
        }
    }
}

/// `head` put in front of the values that `tail` holds, or the fault of
/// `tail`.
pub open spec fn cons(head: Datum, tail: Result<(Seq<Datum>, Seq<u8>), Fault>) -> Result<
    (Seq<Datum>, Seq<u8>),
    Fault,
> {
    match tail {
        Ok((items, rest)) => Ok((seq![head] + items, rest)),
        Err(fault) => Err(fault),
    }
}

/// `head` put in front of the values that `tail` holds, or the fault of
/// `tail`.
pub open spec fn append(head: Seq<Datum>, tail: Result<(Seq<Datum>, Seq<u8>), Fault>) -> Result<
    (Seq<Datum>, Seq<u8>),
    Fault,
> {
    match tail {
        Ok((items, rest)) => Ok((head + items, rest)),
        Err(fault) => Err(fault),
    }
}

/// The values of `list` as one list value.
pub open spec fn listed(list: Result<(Seq<Datum>, Seq<u8>), Fault>) -> Result<
    (Datum, Seq<u8>),
    Fault,
> {
    match list {
        Ok((items, rest)) => Ok((Datum::List(items), rest)),
        Err(fault) => Err(fault),
    }
}

/// What a reader that expects a `shape` makes of `b`: the value at its head
/// and the bytes after it, or the fault that stops the reader.
pub open spec fn parse(shape: Shape, b: Seq<u8>) -> Result<(Datum, Seq<u8>), Fault>
    decreases shape, 0nat,
{
    match shape {
        Shape::Bool => if b.len() < 1 {
            Err(Fault::IOError)
        } else {
            Ok((Datum::Bool(b[0] != 0), b.skip(1)))
        },
        Shape::Int(kind) => if b.len() < kind.width() {
            Err(Fault::IOError)
        } else {
            Ok((Datum::Int(kind.value(b)), b.skip(kind.width() as int)))
        },
        Shape::Text => match parse_text(b) {
            Err(fault) => Err(fault),
            Ok((text, rest)) => Ok((Datum::Text(text), rest)),
        },
        Shape::Enumeration(known) => if b.len() < 4 {
            Err(Fault::IOError)
        } else if known.contains(from_le_u32(b)) {
            Ok((Datum::Int(from_le_u32(b) as int), b.skip(4)))
        } else {
            Err(Fault::Custom(invalid_ordinal()))
        },
        Shape::Sequence(element) => match parse_count(b) {
            Err(fault) => Err(fault),
            Ok((count, rest)) => listed(parse_many(*element, rest, count)),
        },
        Shape::DoubledSequence(element) => if b.len() < 4 {
            Err(Fault::IOError)
        } else {
            match parse_count(b.skip(4)) {
                Err(fault) => Err(fault),
                Ok((count, rest)) => listed(parse_many(*element, rest, count)),
            }
        },
        Shape::Tuple(shapes) => listed(parse_fields(shapes, 0, b)),
        Shape::Unsupported => Err(Fault::UnsupportedType),
    }
}

/// What a reader makes of `b` when it expects `n` values of the shape
/// `element`, one after the other.
pub open spec fn parse_many(element: Shape, b: Seq<u8>, n: nat) -> Result<
    (Seq<Datum>, Seq<u8>),
    Fault,
>
    decreases element, n + 1,
{
    if n == 0 {
        Ok((Seq::empty(), b))
    } else {
        match parse(element, b) {
            Err(fault) => Err(fault),
            Ok((head, rest)) => cons(head, parse_many(element, rest, (n - 1) as nat)),
        }
    }
}

/// What a reader makes of `b` when it expects the fields of `shapes` from
/// the `k`th on.
pub open spec fn parse_fields(shapes: Seq<Shape>, k: nat, b: Seq<u8>) -> Result<
    (Seq<Datum>, Seq<u8>),
    Fault,
>
    decreases shapes, shapes.len() - k + 1,
{
    if k >= shapes.len() {
        Ok((Seq::empty(), b))
    } else {
        match parse(shapes[k as int], b) {
            Err(fault) => Err(fault),
            Ok((head, rest)) => cons(head, parse_fields(shapes, k + 1, rest)),
        }
    }
}

} // verus!
