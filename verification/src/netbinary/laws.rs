//! What holds of the format as a whole.

use super::de::{
    parse_document, parse_bool, parse_count, parse_i16, parse_i32, parse_i64, parse_i8, parse_text, parse_u16,
    parse_u32, parse_u64, parse_u8,
};
use super::endian::{
    bits_of_i16, bits_of_i32, bits_of_i64, bits_of_i8, le_i32, le_u16, le_u32, le_u64,
    lemma_bits_invert, lemma_u16_reads_back, lemma_u32_reads_back, lemma_u64_reads_back,
};
use super::error::{invalid_ordinal, Fault};
use super::length::{
    blob, lemma_blob_reads_back, lemma_length_reads_back, lemma_long_prefix_refused,
    length_prefix, parse_groups, parse_length, LENGTH_LIMIT,
};
use super::model::{
    conforms, encode, encode_fields, encode_from, parse, parse_fields, parse_many, Datum, IntShape,
    Shape,
};
use super::ser::{bool_byte, count_field, encode_document};
use super::wire::Wire;
use vstd::prelude::*;
use vstd::utf8::{encode_utf8, encode_utf8_decode_utf8, encode_utf8_valid_utf8};

verus! {

/// Whether every text in `datum`, however deep, is short enough for a
/// length prefix that a reader accepts.
pub open spec fn within_limits(shape: Shape, datum: Datum) -> bool
    decreases shape,
{
    match shape {
        Shape::Text => encode_utf8(datum->Text_0).len() < LENGTH_LIMIT,
        Shape::Sequence(element) => forall|i: int|
            0 <= i < datum->List_0.len() ==> within_limits(*element, #[trigger] datum->List_0[i]),
        Shape::DoubledSequence(element) => forall|i: int|
            0 <= i < datum->List_0.len() ==> within_limits(*element, #[trigger] datum->List_0[i]),
        Shape::Tuple(shapes) => forall|i: int|
            0 <= i < shapes.len() ==> within_limits(#[trigger] shapes[i], datum->List_0[i]),
        _ => true,
    }
}

/// A boolean that is written reads back as itself.
pub proof fn law_bool_round_trip(v: bool, rest: Seq<u8>)
    ensures
        parse_bool(seq![bool_byte(v)] + rest) == Ok::<(bool, Seq<u8>), Fault>((v, rest)),
{
    let b = seq![bool_byte(v)] + rest;
    assert(b[0] == bool_byte(v));
    assert(b.skip(1) =~= rest);
}

/// Every byte but zero reads as true, and zero as false.
pub proof fn law_bool_nonzero_is_true(byte: u8, rest: Seq<u8>)
    ensures
        parse_bool(seq![byte] + rest) == Ok::<(bool, Seq<u8>), Fault>((byte != 0, rest)),
{
    let b = seq![byte] + rest;
    assert(b[0] == byte);
    assert(b.skip(1) =~= rest);
}

/// Every signed byte that is written reads back as itself.
pub proof fn law_i8_round_trip(v: i8, rest: Seq<u8>)
    ensures
        parse_i8(seq![bits_of_i8(v)] + rest) == Ok::<(i8, Seq<u8>), Fault>((v, rest)),
{
    let b = seq![bits_of_i8(v)] + rest;
    assert(b[0] == bits_of_i8(v));
    assert(b.skip(1) =~= rest);
    lemma_bits_invert();
}

/// Every signed 16-bit number that is written reads back as itself.
pub proof fn law_i16_round_trip(v: i16, rest: Seq<u8>)
    ensures
        parse_i16(le_u16(bits_of_i16(v)) + rest) == Ok::<(i16, Seq<u8>), Fault>((v, rest)),
{
    lemma_u16_reads_back(bits_of_i16(v), rest);
    lemma_bits_invert();
}

/// Every signed 32-bit number that is written reads back as itself, the
/// smallest and the largest among them.
pub proof fn law_i32_round_trip(v: i32, rest: Seq<u8>)
    ensures
        parse_i32(le_i32(v) + rest) == Ok::<(i32, Seq<u8>), Fault>((v, rest)),
{
    lemma_u32_reads_back(bits_of_i32(v), rest);
    lemma_bits_invert();
}

/// Every signed 64-bit number that is written reads back as itself.
pub proof fn law_i64_round_trip(v: i64, rest: Seq<u8>)
    ensures
        parse_i64(le_u64(bits_of_i64(v)) + rest) == Ok::<(i64, Seq<u8>), Fault>((v, rest)),
{
    lemma_u64_reads_back(bits_of_i64(v), rest);
    lemma_bits_invert();
}

/// Every byte that is written reads back as itself.
pub proof fn law_u8_round_trip(v: u8, rest: Seq<u8>)
    ensures
        parse_u8(seq![v] + rest) == Ok::<(u8, Seq<u8>), Fault>((v, rest)),
{
    let b = seq![v] + rest;
    assert(b[0] == v);
    assert(b.skip(1) =~= rest);
}

/// Every unsigned 16-bit number that is written reads back as itself.
pub proof fn law_u16_round_trip(v: u16, rest: Seq<u8>)
    ensures
        parse_u16(le_u16(v) + rest) == Ok::<(u16, Seq<u8>), Fault>((v, rest)),
{
    lemma_u16_reads_back(v, rest);
}

/// Every unsigned 32-bit number that is written reads back as itself. The
/// bit pattern of a single-precision number is such a number, so that of a
/// NaN or of a negative zero comes back bit for bit.
pub proof fn law_u32_round_trip(v: u32, rest: Seq<u8>)
    ensures
        parse_u32(le_u32(v) + rest) == Ok::<(u32, Seq<u8>), Fault>((v, rest)),
{
    lemma_u32_reads_back(v, rest);
}

/// Every unsigned 64-bit number that is written reads back as itself, the
/// largest among them. The bit pattern of a double-precision number is such
/// a number.
pub proof fn law_u64_round_trip(v: u64, rest: Seq<u8>)
    ensures
        parse_u64(le_u64(v) + rest) == Ok::<(u64, Seq<u8>), Fault>((v, rest)),
{
    lemma_u64_reads_back(v, rest);
}

/// Text whose UTF-8 form is shorter than [`LENGTH_LIMIT`] bytes reads back
/// as itself.
pub proof fn law_text_round_trip(text: Seq<char>, rest: Seq<u8>)
    requires
        encode_utf8(text).len() < LENGTH_LIMIT,
    ensures
        parse_text(blob(encode_utf8(text)) + rest) == Ok::<(Seq<char>, Seq<u8>), Fault>(
            (text, rest),
        ),
{
    lemma_blob_reads_back(encode_utf8(text), rest);
    encode_utf8_valid_utf8(text);
    encode_utf8_decode_utf8(text);
}

/// The count field of a sequence reads back as the number of its elements,
/// for every number of elements that can be written: none, where the field
/// holds `-1`, up to the largest signed 32-bit number.
pub proof fn law_count_round_trip(len: nat, rest: Seq<u8>)
    requires
        len <= i32::MAX,
    ensures
        parse_count(count_field(len) + rest) == Ok::<(nat, Seq<u8>), Fault>((len, rest)),
        len == 0 ==> count_field(len) == le_i32(-1i32),
{
    lemma_u32_reads_back(bits_of_i32((len - 1) as i32), rest);
    lemma_bits_invert();
}

/// Every count field from `-1` on announces one element more than the
/// number in it: the largest announces `2^31` elements, which no writer
/// writes. Only a field below `-1` stands for no count.
pub proof fn law_count_is_field_plus_one(field: i32, rest: Seq<u8>)
    ensures
        field >= -1 ==> parse_count(le_i32(field) + rest) == Ok::<(nat, Seq<u8>), Fault>(
            ((field + 1) as nat, rest),
        ),
        field < -1 ==> parse_count(le_i32(field) + rest) is Err,
{
    lemma_u32_reads_back(bits_of_i32(field), rest);
    lemma_bits_invert();
}

/// Whatever a writer makes of a value, a reader that expects the same shape
/// takes back as that value, and stops where the written bytes end.
///
/// This holds of every shape, on three conditions: the value is one of the
/// shape, the writer does not fail on it, and its texts are short enough
/// for their prefixes.
pub proof fn law_round_trip(shape: Shape, datum: Datum, rest: Seq<u8>)
    requires
        conforms(shape, datum),
        within_limits(shape, datum),
        encode(shape, datum) is Ok,
    ensures
        parse(shape, encode(shape, datum)->Ok_0 + rest) == Ok::<(Datum, Seq<u8>), Fault>(
            (datum, rest),
        ),
    decreases shape, 0nat,
{
    let bytes = encode(shape, datum)->Ok_0;
    match shape {
        Shape::Bool => {
            law_bool_round_trip(datum->Bool_0, rest);
        },
        Shape::Int(kind) => {
            lemma_int_round_trip(kind, datum->Int_0, rest);
        },
        Shape::Text => {
            law_text_round_trip(datum->Text_0, rest);
        },
        Shape::Enumeration(known) => {
            lemma_u32_reads_back(datum->Int_0 as u32, rest);
        },
        Shape::Sequence(element) => {
            let items = datum->List_0;
            let body = encode_from(*element, items, 0)->Ok_0;
            law_count_round_trip(items.len(), body + rest);
            assert(bytes + rest =~= count_field(items.len()) + (body + rest));
            lemma_round_trip_from(*element, items, 0, rest);
            assert(items.skip(0) =~= items);
        },
        Shape::DoubledSequence(element) => {
            let items = datum->List_0;
            let body = encode_from(*element, items, 0)->Ok_0;
            let literal = le_i32(items.len() as i32);
            let tail = count_field(items.len()) + (body + rest);
            lemma_u32_reads_back(bits_of_i32(items.len() as i32), tail);
            law_count_round_trip(items.len(), body + rest);
            assert(bytes + rest =~= literal + tail);
            lemma_round_trip_from(*element, items, 0, rest);
            assert(items.skip(0) =~= items);
        },
        Shape::Tuple(shapes) => {
            lemma_round_trip_fields(shapes, datum->List_0, 0, rest);
            assert(datum->List_0.skip(0) =~= datum->List_0);
        },
        Shape::Unsupported => {},
    }
}

/// A number of any width that is written reads back as itself.
pub proof fn lemma_int_round_trip(kind: IntShape, n: int, rest: Seq<u8>)
    requires
        kind.fits(n),
    ensures
        kind.bytes(n).len() == kind.width(),
        kind.value(kind.bytes(n) + rest) == n,
        (kind.bytes(n) + rest).skip(kind.width() as int) == rest,
{
    lemma_bits_invert();
    match kind {
        IntShape::I8 => {
            law_i8_round_trip(n as i8, rest);
        },
        IntShape::I16 => {
            lemma_u16_reads_back(bits_of_i16(n as i16), rest);
        },
        IntShape::I32 => {
            lemma_u32_reads_back(bits_of_i32(n as i32), rest);
        },
        IntShape::I64 => {
            lemma_u64_reads_back(bits_of_i64(n as i64), rest);
        },
        IntShape::U8 => {
            law_u8_round_trip(n as u8, rest);
        },
        IntShape::U16 => {
            lemma_u16_reads_back(n as u16, rest);
        },
        IntShape::U32 => {
            lemma_u32_reads_back(n as u32, rest);
        },
        IntShape::U64 => {
            lemma_u64_reads_back(n as u64, rest);
        },
    }
}

/// The elements of a sequence from the `k`th on read back as themselves.
pub proof fn lemma_round_trip_from(element: Shape, items: Seq<Datum>, k: nat, rest: Seq<u8>)
    requires
        k <= items.len(),
        forall|i: int| k <= i < items.len() ==> conforms(element, #[trigger] items[i]),
        forall|i: int| k <= i < items.len() ==> within_limits(element, #[trigger] items[i]),
        encode_from(element, items, k) is Ok,
    ensures
        parse_many(
            element,
            encode_from(element, items, k)->Ok_0 + rest,
            (items.len() - k) as nat,
        ) == Ok::<(Seq<Datum>, Seq<u8>), Fault>((items.skip(k as int), rest)),
    decreases element, items.len() - k + 1,
{
    let bytes = encode_from(element, items, k)->Ok_0;
    if k < items.len() {
        let head = encode(element, items[k as int])->Ok_0;
        let tail = encode_from(element, items, k + 1)->Ok_0;
        assert(bytes + rest =~= head + (tail + rest));
        law_round_trip(element, items[k as int], tail + rest);
        lemma_round_trip_from(element, items, k + 1, rest);
        assert(seq![items[k as int]] + items.skip(k + 1 as int) =~= items.skip(k as int));
    } else {
        assert(bytes + rest =~= rest);
        assert(items.skip(k as int) =~= Seq::<Datum>::empty());
    }
}

/// The fields of a tuple from the `k`th on read back as themselves.
pub proof fn lemma_round_trip_fields(
    shapes: Seq<Shape>,
    items: Seq<Datum>,
    k: nat,
    rest: Seq<u8>,
)
    requires
        k <= shapes.len(),
        items.len() == shapes.len(),
        forall|i: int| k <= i < shapes.len() ==> conforms(#[trigger] shapes[i], items[i]),
        forall|i: int| k <= i < shapes.len() ==> within_limits(#[trigger] shapes[i], items[i]),
        encode_fields(shapes, items, k) is Ok,
    ensures
        parse_fields(shapes, k, encode_fields(shapes, items, k)->Ok_0 + rest) == Ok::<
            (Seq<Datum>, Seq<u8>),
            Fault,
        >((items.skip(k as int), rest)),
    decreases shapes, shapes.len() - k + 1,
{
    let bytes = encode_fields(shapes, items, k)->Ok_0;
    if k < shapes.len() {
        let head = encode(shapes[k as int], items[k as int])->Ok_0;
        let tail = encode_fields(shapes, items, k + 1)->Ok_0;
        assert(bytes + rest =~= head + (tail + rest));
        law_round_trip(shapes[k as int], items[k as int], tail + rest);
        lemma_round_trip_fields(shapes, items, k + 1, rest);
        assert(seq![items[k as int]] + items.skip(k + 1 as int) =~= items.skip(k as int));
    } else {
        assert(bytes + rest =~= rest);
        assert(items.skip(k as int) =~= Seq::<Datum>::empty());
    }
}

/// A document that is written reads back as the value it was written
/// from, when it is read with the magic text it was written with.
pub proof fn law_document_round_trip(magic: Seq<u8>, shape: Shape, datum: Datum, rest: Seq<u8>)
    requires
        magic.len() < LENGTH_LIMIT,
        conforms(shape, datum),
        within_limits(shape, datum),
        encode(shape, datum) is Ok,
    ensures
        encode_document(magic, encode(shape, datum)) matches Ok(bytes) && parse_document(
            magic,
            shape,
            bytes + rest,
        ) == Ok::<(Datum, Seq<u8>), Fault>((datum, rest)),
{
    let payload = encode(shape, datum)->Ok_0;
    let bytes = encode_document(magic, encode(shape, datum))->Ok_0;
    assert(bytes + rest =~= blob(magic) + (payload + rest));
    lemma_blob_reads_back(magic, payload + rest);
    law_round_trip(shape, datum, rest);
}

/// A document that opens with another magic text than the expected one is
/// refused, whatever follows.
pub proof fn law_document_mismatch(magic: Seq<u8>, found: Seq<u8>, shape: Shape, tail: Seq<u8>)
    requires
        found.len() < LENGTH_LIMIT,
        found != magic,
    ensures
        parse_document(magic, shape, blob(found) + tail) == Err::<(Datum, Seq<u8>), Fault>(
            Fault::FormatMismatch,
        ),
{
    lemma_blob_reads_back(found, tail);
}

/// A value of any type that has a place in the format reads back as
/// itself, where the writer takes it and its texts are short enough.
pub proof fn law_value_round_trip<T: Wire>(value: T, rest: Seq<u8>)
    requires
        within_limits(T::shape(), value.datum()),
        encode(T::shape(), value.datum()) is Ok,
    ensures
        parse(T::shape(), encode(T::shape(), value.datum())->Ok_0 + rest) == Ok::<
            (Datum, Seq<u8>),
            Fault,
        >((value.datum(), rest)),
{
    value.lemma_conforms();
    law_round_trip(T::shape(), value.datum(), rest);
}

/// An enumeration field that holds a number which is no declared ordinal is
/// refused: no value is made up in its place.
pub proof fn law_unknown_ordinal_refused(known: Set<u32>, n: u32, rest: Seq<u8>)
    requires
        !known.contains(n),
    ensures
        parse(Shape::Enumeration(known), le_u32(n) + rest) == Err::<(Datum, Seq<u8>), Fault>(
            Fault::Custom(invalid_ordinal()),
        ),
{
    lemma_u32_reads_back(n, rest);
}

/// An enumeration field that holds a declared ordinal reads as that
/// ordinal.
pub proof fn law_known_ordinal_accepted(known: Set<u32>, n: u32, rest: Seq<u8>)
    requires
        known.contains(n),
    ensures
        parse(Shape::Enumeration(known), le_u32(n) + rest) == Ok::<(Datum, Seq<u8>), Fault>(
            (Datum::Int(n as int), rest),
        ),
{
    lemma_u32_reads_back(n, rest);
}

/// A length prefix has no group that it could do without: every group but
/// the last asks for another, the last does not, and the last is not an
/// empty group padded on, unless the length is zero.
pub proof fn law_prefix_minimal(n: nat)
    ensures
        length_prefix(n).len() >= 1,
        forall|i: int| 0 <= i < length_prefix(n).len() - 1 ==> length_prefix(n)[i] >= 128,
        length_prefix(n).last() < 128,
        n > 0 ==> length_prefix(n).last() != 0,
    decreases n,
{
    if n >= 128 {
        law_prefix_minimal(n / 128);
        let head = seq![(n % 128 + 128) as u8];
        let tail = length_prefix(n / 128);
        let all = length_prefix(n);
        assert(all == head + tail);
        assert(all.last() == tail.last());
        assert forall|i: int| 0 <= i < all.len() - 1 implies all[i] >= 128 by {
            if i > 0 {
                assert(all[i] == tail[i - 1]);
            }
        }
    }
}

/// A length of `2^28` or more that is below [`LENGTH_LIMIT`] is written
/// with exactly five groups, and read back.
pub proof fn law_five_groups(n: nat, rest: Seq<u8>)
    requires
        0x1000_0000 <= n < LENGTH_LIMIT,
    ensures
        length_prefix(n).len() == 5,
        parse_length(length_prefix(n) + rest) == Ok::<(nat, Seq<u8>), Fault>((n, rest)),
{
    reveal_with_fuel(length_prefix, 6);
    lemma_length_reads_back(n, rest);
}

/// A length of [`LENGTH_LIMIT`] or more is written with a sixth group, and
/// no reader takes it back: such text does not survive a round trip.
pub proof fn law_long_length_refused(n: nat, rest: Seq<u8>)
    requires
        n >= LENGTH_LIMIT,
    ensures
        parse_length(length_prefix(n) + rest) == Err::<(nat, Seq<u8>), Fault>(
            Fault::IllegalStringLength,
        ),
{
    lemma_long_prefix_refused(n, rest);
}

/// A prefix whose fifth group asks for a sixth is refused, whatever
/// follows.
pub proof fn law_sixth_group_refused(b: Seq<u8>)
    requires
        b.len() >= 5,
        forall|i: int| 0 <= i < 5 ==> b[i] >= 128,
    ensures
        parse_length(b) == Err::<(nat, Seq<u8>), Fault>(Fault::IllegalStringLength),
{
    reveal_with_fuel(parse_groups, 6);
    let b1 = b.skip(1);
    let b2 = b1.skip(1);
    let b3 = b2.skip(1);
    let b4 = b3.skip(1);
    assert(b1[0] == b[1] && b2[0] == b[2] && b3[0] == b[3] && b4[0] == b[4]);
}

/// A sequence longer than the count field can say is refused by the
/// writer; every shorter one is taken, where its elements are.
pub proof fn law_sequence_length_bound(element: Shape, items: Seq<Datum>)
    ensures
        items.len() > i32::MAX ==> encode(Shape::Sequence(Box::new(element)), Datum::List(items))
            == Err::<Seq<u8>, Fault>(Fault::SequenceTooLong),
        items.len() <= i32::MAX && encode_from(element, items, 0) is Ok ==> encode(
            Shape::Sequence(Box::new(element)),
            Datum::List(items),
        ) is Ok,
        items.len() == 0 ==> encode(Shape::Sequence(Box::new(element)), Datum::List(items))
            == Ok::<Seq<u8>, Fault>(le_i32(-1i32)),
{
    if items.len() == 0 {
        assert(le_i32(-1i32) + Seq::<u8>::empty() =~= le_i32(-1i32));
    }
}

} // verus!
