//! Reading and writing back: a document that is read and written again
//! without a change comes out byte for byte as it went in, provided that
//! it was written the way this writer writes.
//!
//! A reader takes a little more than a writer gives: any byte but zero for
//! true, a length prefix with groups it did not need, a count of `2^31`
//! elements, a doubled sequence whose first length is off. Input free of
//! these is called canonical.

use super::de::{parse_count, parse_text};
use super::endian::{
    from_le_i32, le_i32, lemma_bits_invert, lemma_u16_writes_back, lemma_u32_writes_back,
    lemma_u64_writes_back,
};
use super::laws::{law_count_round_trip, law_i32_round_trip, law_round_trip, within_limits};
use super::length::{blob, lemma_length_reads_back, length_prefix, parse_blob, parse_length};
use super::model::{
    conforms, encode, encode_fields, encode_from, parse, parse_fields, parse_many, Datum,
    IntShape, Shape,
};
use super::ser::count_field;
use vstd::prelude::*;
use vstd::utf8::{decode_utf8_encode_utf8, encode_utf8};

verus! {

/// Whether the value of shape `shape` at the head of `b` is written the
/// way the writer writes it.
pub open spec fn canonical(shape: Shape, b: Seq<u8>) -> bool
    decreases shape, 0nat,
{
    match shape {
        Shape::Bool => b.len() >= 1 ==> b[0] <= 1,
        Shape::Text => parse_length(b) matches Ok((n, rest)) ==> length_prefix(n) + rest == b,
        Shape::Sequence(element) => parse_count(b) matches Ok((count, rest)) ==> count
            <= i32::MAX && canonical_many(*element, rest, count),
        Shape::DoubledSequence(element) => b.len() >= 4 ==> (parse_count(b.skip(4)) matches Ok(
            (count, rest),
        ) ==> from_le_i32(b) == count && canonical_many(*element, rest, count)),
        Shape::Tuple(shapes) => canonical_fields(shapes, 0, b),
        _ => true,
    }
}

/// Whether the `n` values of shape `element` at the head of `b` are
/// canonical, as far as a reader gets.
pub open spec fn canonical_many(element: Shape, b: Seq<u8>, n: nat) -> bool
    decreases element, n + 1,
{
    n > 0 ==> canonical(element, b) && (parse(element, b) matches Ok((_, rest))
        ==> canonical_many(element, rest, (n - 1) as nat))
}

/// Whether the fields from the `k`th on at the head of `b` are canonical,
/// as far as a reader gets.
pub open spec fn canonical_fields(shapes: Seq<Shape>, k: nat, b: Seq<u8>) -> bool
    decreases shapes, shapes.len() - k + 1,
{
    k < shapes.len() ==> canonical(shapes[k as int], b) && (parse(shapes[k as int], b) matches Ok(
        (_, rest),
    ) ==> canonical_fields(shapes, k + 1, rest))
}

/// What is read from canonical input is written back as the bytes it was
/// read from: no field is dropped, moved or changed.
pub proof fn law_reencode(shape: Shape, b: Seq<u8>)
    requires
        parse(shape, b) is Ok,
        canonical(shape, b),
    ensures
        encode(shape, parse(shape, b)->Ok_0.0) matches Ok(bytes) && bytes + parse(
            shape,
            b,
        )->Ok_0.1 == b,
    decreases shape, 0nat,
{
    let (datum, rest) = parse(shape, b)->Ok_0;
    match shape {
        Shape::Bool => {
            assert(encode(shape, datum)->Ok_0 + rest =~= b);
        },
        Shape::Int(kind) => {
            lemma_int_writes_back(kind, b);
            assert(b.take(kind.width() as int) + b.skip(kind.width() as int) =~= b);
        },
        Shape::Text => {
            lemma_text_writes_back(b);
        },
        Shape::Enumeration(_) => {
            lemma_u32_writes_back(b);
            assert(b.take(4) + b.skip(4) =~= b);
        },
        Shape::Sequence(element) => {
            let (count, after) = parse_count(b)->Ok_0;
            let items = datum->List_0;
            lemma_parse_many_len(*element, after, count);
            assert(items.skip(0) =~= items);
            lemma_reencode_many(*element, after, count, items, 0);
            lemma_counted(b, encode_from(*element, items, 0)->Ok_0, rest);
        },
        Shape::DoubledSequence(element) => {
            let (count, after) = parse_count(b.skip(4))->Ok_0;
            let items = datum->List_0;
            lemma_parse_many_len(*element, after, count);
            assert(items.skip(0) =~= items);
            lemma_reencode_many(*element, after, count, items, 0);
            lemma_counted_twice(b, encode_from(*element, items, 0)->Ok_0, rest);
        },
        Shape::Tuple(shapes) => {
            let items = datum->List_0;
            lemma_parse_fields_len(shapes, 0, b);
            assert(items.skip(0) =~= items);
            lemma_reencode_fields(shapes, 0, b, items);
        },
        Shape::Unsupported => {},
    }
}

/// Text with a prefix of no more groups than it needs is written back as
/// the bytes it was read from.
proof fn lemma_text_writes_back(b: Seq<u8>)
    requires
        parse_text(b) is Ok,
        parse_length(b) matches Ok((n, rest)) ==> length_prefix(n) + rest == b,
    ensures
        blob(encode_utf8(parse_text(b)->Ok_0.0)) + parse_text(
            b,
        )->Ok_0.1 == b,
{
    let (n, after) = parse_length(b)->Ok_0;
    let (bytes, rest) = parse_blob(b)->Ok_0;
    decode_utf8_encode_utf8(bytes);
    assert(bytes + rest =~= after);
    assert(blob(bytes) + rest =~= length_prefix(n) + (bytes + rest));
}

/// A count field and the bytes that follow it make up what they were read
/// from.
proof fn lemma_counted(b: Seq<u8>, body: Seq<u8>, rest: Seq<u8>)
    requires
        parse_count(b) is Ok,
        parse_count(b)->Ok_0.0 <= i32::MAX,
        body + rest == parse_count(b)->Ok_0.1,
    ensures
        (count_field(parse_count(b)->Ok_0.0) + body) + rest == b,
{
    lemma_count_writes_back(b);
    let field = count_field(parse_count(b)->Ok_0.0);
    assert((field + body) + rest =~= b.take(4) + (body + rest));
    assert(b.take(4) + b.skip(4) =~= b);
}

/// The same for a doubled sequence whose first length is its count.
proof fn lemma_counted_twice(b: Seq<u8>, body: Seq<u8>, rest: Seq<u8>)
    requires
        b.len() >= 4,
        parse_count(b.skip(4)) is Ok,
        from_le_i32(b) == parse_count(b.skip(4))->Ok_0.0,
        body + rest == parse_count(b.skip(4))->Ok_0.1,
    ensures
        ((le_i32(parse_count(b.skip(4))->Ok_0.0 as i32) + count_field(
            parse_count(b.skip(4))->Ok_0.0,
        )) + body) + rest == b,
{
    let inner = b.skip(4);
    let count = parse_count(inner)->Ok_0.0;
    lemma_counted(inner, body, rest);
    lemma_u32_writes_back(b);
    lemma_bits_invert();
    let literal = le_i32(count as i32);
    let field = count_field(count);
    assert(literal == b.take(4));
    assert(((literal + field) + body) + rest =~= b.take(4) + ((field + body) + rest));
    assert(b.take(4) + b.skip(4) =~= b);
}

/// A number that is read and written back gives the bytes it was read
/// from.
pub proof fn lemma_int_writes_back(kind: IntShape, b: Seq<u8>)
    requires
        b.len() >= kind.width(),
    ensures
        kind.fits(kind.value(b)),
        kind.bytes(kind.value(b)) == b.take(kind.width() as int),
{
    lemma_bits_invert();
    match kind {
        IntShape::I8 | IntShape::U8 => {
            assert(kind.bytes(kind.value(b)) =~= b.take(1));
        },
        IntShape::I16 | IntShape::U16 => {
            lemma_u16_writes_back(b);
        },
        IntShape::I32 | IntShape::U32 => {
            lemma_u32_writes_back(b);
        },
        IntShape::I64 | IntShape::U64 => {
            lemma_u64_writes_back(b);
        },
    }
}

/// A count that is read and written back gives the field it was read from.
proof fn lemma_count_writes_back(b: Seq<u8>)
    requires
        parse_count(b) is Ok,
        parse_count(b)->Ok_0.0 <= i32::MAX,
    ensures
        count_field(parse_count(b)->Ok_0.0) == b.take(4),
{
    lemma_u32_writes_back(b);
    lemma_bits_invert();
}

/// A reader that expects `n` values and gets them has `n` values.
proof fn lemma_parse_many_len(element: Shape, b: Seq<u8>, n: nat)
    requires
        parse_many(element, b, n) is Ok,
    ensures
        parse_many(element, b, n)->Ok_0.0.len() == n,
    decreases n,
{
    if n > 0 {
        let (head, rest) = parse(element, b)->Ok_0;
        lemma_parse_many_len(element, rest, (n - 1) as nat);
    }
}

/// A reader that gets the fields from the `k`th on has as many values as
/// there are such fields.
proof fn lemma_parse_fields_len(shapes: Seq<Shape>, k: nat, b: Seq<u8>)
    requires
        k <= shapes.len(),
        parse_fields(shapes, k, b) is Ok,
    ensures
        parse_fields(shapes, k, b)->Ok_0.0.len() == shapes.len() - k,
    decreases shapes.len() - k,
{
    if k < shapes.len() {
        let (head, rest) = parse(shapes[k as int], b)->Ok_0;
        lemma_parse_fields_len(shapes, k + 1, rest);
    }
}

/// The elements of a sequence from the `k`th on are written back as the
/// bytes they were read from.
proof fn lemma_reencode_many(element: Shape, b: Seq<u8>, n: nat, items: Seq<Datum>, k: nat)
    requires
        parse_many(element, b, n) is Ok,
        canonical_many(element, b, n),
        k + n == items.len(),
        items.skip(k as int) == parse_many(element, b, n)->Ok_0.0,
    ensures
        encode_from(element, items, k) matches Ok(bytes) && bytes + parse_many(
            element,
            b,
            n,
        )->Ok_0.1 == b,
    decreases element, n + 1,
{
    let (suffix, rest) = parse_many(element, b, n)->Ok_0;
    if n > 0 {
        let (head, after) = parse(element, b)->Ok_0;
        let (tail, _) = parse_many(element, after, (n - 1) as nat)->Ok_0;
        assert(items[k as int] == items.skip(k as int)[0]);
        assert(items.skip(k + 1 as int) =~= tail) by {
            assert(items.skip(k + 1 as int) =~= items.skip(k as int).skip(1));
            assert((seq![head] + tail).skip(1) =~= tail);
        }
        law_reencode(element, b);
        lemma_reencode_many(element, after, (n - 1) as nat, items, k + 1);
        let first = encode(element, head)->Ok_0;
        let others = encode_from(element, items, k + 1)->Ok_0;
        assert((first + others) + rest =~= first + (others + rest));
    } else {
        assert(Seq::<u8>::empty() + rest =~= rest);
    }
}

/// The fields of a record from the `k`th on are written back as the bytes
/// they were read from.
proof fn lemma_reencode_fields(shapes: Seq<Shape>, k: nat, b: Seq<u8>, items: Seq<Datum>)
    requires
        k <= shapes.len(),
        parse_fields(shapes, k, b) is Ok,
        canonical_fields(shapes, k, b),
        items.len() == shapes.len(),
        items.skip(k as int) == parse_fields(shapes, k, b)->Ok_0.0,
    ensures
        encode_fields(shapes, items, k) matches Ok(bytes) && bytes + parse_fields(
            shapes,
            k,
            b,
        )->Ok_0.1 == b,
    decreases shapes, shapes.len() - k + 1,
{
    let (suffix, rest) = parse_fields(shapes, k, b)->Ok_0;
    if k < shapes.len() {
        let (head, after) = parse(shapes[k as int], b)->Ok_0;
        let (tail, _) = parse_fields(shapes, k + 1, after)->Ok_0;
        assert(items[k as int] == items.skip(k as int)[0]);
        assert(items.skip(k + 1 as int) =~= tail) by {
            assert(items.skip(k + 1 as int) =~= items.skip(k as int).skip(1));
            assert((seq![head] + tail).skip(1) =~= tail);
        }
        law_reencode(shapes[k as int], b);
        lemma_reencode_fields(shapes, k + 1, after, items);
        let first = encode(shapes[k as int], head)->Ok_0;
        let others = encode_fields(shapes, items, k + 1)->Ok_0;
        assert((first + others) + rest =~= first + (others + rest));
    } else {
        assert(Seq::<u8>::empty() + rest =~= rest);
    }
}

/// What a writer writes is canonical.
pub proof fn law_written_is_canonical(shape: Shape, datum: Datum, rest: Seq<u8>)
    requires
        conforms(shape, datum),
        within_limits(shape, datum),
        encode(shape, datum) is Ok,
    ensures
        canonical(shape, encode(shape, datum)->Ok_0 + rest),
    decreases shape, 0nat,
{
    let bytes = encode(shape, datum)->Ok_0;
    let b = bytes + rest;
    match shape {
        Shape::Bool => {
            assert(b[0] == bytes[0]);
        },
        Shape::Text => {
            let payload = encode_utf8(datum->Text_0);
            lemma_length_reads_back(payload.len(), payload + rest);
            assert(b =~= length_prefix(payload.len()) + (payload + rest));
        },
        Shape::Sequence(element) => {
            let items = datum->List_0;
            let body = encode_from(*element, items, 0)->Ok_0;
            law_count_round_trip(items.len(), body + rest);
            assert(b =~= count_field(items.len()) + (body + rest));
            lemma_written_many(*element, items, 0, rest);
        },
        Shape::DoubledSequence(element) => {
            let items = datum->List_0;
            let body = encode_from(*element, items, 0)->Ok_0;
            let literal = le_i32(items.len() as i32);
            let tail = count_field(items.len()) + (body + rest);
            law_i32_round_trip(items.len() as i32, tail);
            law_count_round_trip(items.len(), body + rest);
            assert(b =~= literal + tail);
            assert(b.skip(4) =~= tail);
            lemma_written_many(*element, items, 0, rest);
        },
        Shape::Tuple(shapes) => {
            lemma_written_fields(shapes, datum->List_0, 0, rest);
        },
        _ => {},
    }
}

/// The elements that a writer writes are canonical.
proof fn lemma_written_many(element: Shape, items: Seq<Datum>, k: nat, rest: Seq<u8>)
    requires
        k <= items.len(),
        forall|i: int| k <= i < items.len() ==> conforms(element, #[trigger] items[i]),
        forall|i: int|
            k <= i < items.len() ==> within_limits(element, #[trigger] items[i]),
        encode_from(element, items, k) is Ok,
    ensures
        canonical_many(
            element,
            encode_from(element, items, k)->Ok_0 + rest,
            (items.len() - k) as nat,
        ),
    decreases element, items.len() - k + 1,
{
    if k < items.len() {
        let head = encode(element, items[k as int])->Ok_0;
        let tail = encode_from(element, items, k + 1)->Ok_0;
        let b = encode_from(element, items, k)->Ok_0 + rest;
        assert(b =~= head + (tail + rest));
        law_written_is_canonical(element, items[k as int], tail + rest);
        law_round_trip(element, items[k as int], tail + rest);
        lemma_written_many(element, items, k + 1, rest);
    }
}

/// The fields that a writer writes are canonical.
proof fn lemma_written_fields(shapes: Seq<Shape>, items: Seq<Datum>, k: nat, rest: Seq<u8>)
    requires
        k <= shapes.len(),
        items.len() == shapes.len(),
        forall|i: int|
            k <= i < shapes.len() ==> conforms(#[trigger] shapes[i], items[i]),
        forall|i: int|
            k <= i < shapes.len() ==> within_limits(#[trigger] shapes[i], items[i]),
        encode_fields(shapes, items, k) is Ok,
    ensures
        canonical_fields(shapes, k, encode_fields(shapes, items, k)->Ok_0 + rest),
    decreases shapes, shapes.len() - k + 1,
{
    if k < shapes.len() {
        let head = encode(shapes[k as int], items[k as int])->Ok_0;
        let tail = encode_fields(shapes, items, k + 1)->Ok_0;
        let b = encode_fields(shapes, items, k)->Ok_0 + rest;
        assert(b =~= head + (tail + rest));
        law_written_is_canonical(shapes[k as int], items[k as int], tail + rest);
        law_round_trip(shapes[k as int], items[k as int], tail + rest);
        lemma_written_fields(shapes, items, k + 1, rest);
    }
}

} // verus!
