//! Records: fields in declared order, with nothing before, between or after
//! them. The order of the fields is the format.
//!
//! A record type writes its fields with [`put_field`] and reads them with
//! [`take_field`], one call for each field, in the order in which its shape
//! lists them. What has been done so far travels from call to call as a
//! ghost value, [`Writing`] or [`Reading`].

use super::array_hack;
use super::de::Deserializer;
use super::error::{Error, Fault};
use super::model::{
    append, conforms, cons, encode, encode_fields, listed, parse, parse_fields, prepend, Datum,
    Shape,
};
use super::ser::Serializer;
use super::wire::Wire;
use vstd::prelude::*;

verus! {

/// How far the writing of a record has come.
pub struct Writing {
    /// The shapes of the fields of the record.
    pub shapes: Seq<Shape>,
    /// The values of the fields of the record.
    pub items: Seq<Datum>,
    /// The index of the field that is written next.
    pub next: nat,
    /// What the sink held before the record.
    pub start: Seq<u8>,
    /// What has been written of the record.
    pub sofar: Seq<u8>,
}

/// How far the reading of a record has come.
pub struct Reading {
    /// The shapes of the fields of the record.
    pub shapes: Seq<Shape>,
    /// The index of the field that is read next.
    pub next: nat,
    /// What the source held before the record.
    pub input: Seq<u8>,
    /// The values of the fields read so far.
    pub sofar: Seq<Datum>,
}

impl Writing {
    /// The state before the first field of a value `datum` of shape
    /// `shape` is written to a sink that holds `start`.
    pub open spec fn begin(shape: Shape, datum: Datum, start: Seq<u8>) -> Writing {
        Writing {
            shapes: shape->Tuple_0,
            items: datum->List_0,
            next: 0,
            start,
            sofar: Seq::empty(),
        }
    }

    /// The state after one more field, written as `head`.
    pub open spec fn after(self, head: Seq<u8>) -> Writing {
        Writing { next: self.next + 1, sofar: self.sofar + head, ..self }
    }

    /// Whether the state is that of a sink that holds `writer`: the fields
    /// before `next` have gone out as `sofar`, after `start`.
    pub closed spec fn holds(self, writer: Seq<u8>) -> bool {
        &&& self.next <= self.shapes.len()
        &&& writer == self.start + self.sofar
        &&& encode_fields(self.shapes, self.items, 0) == prepend(
            self.sofar,
            encode_fields(self.shapes, self.items, self.next),
        )
    }

    /// Nothing written yet is a fair start.
    pub proof fn lemma_begins(shape: Shape, datum: Datum, start: Seq<u8>)
        ensures
            Self::begin(shape, datum, start).holds(start),
    {
        let at = Self::begin(shape, datum, start);
        assert(start + Seq::<u8>::empty() =~= start);
        match encode_fields(at.shapes, at.items, 0) {
            Ok(bytes) => {
                assert(Seq::<u8>::empty() + bytes =~= bytes);
            },
            Err(_) => {},
        }
    }

    /// With every field written, the record is written.
    pub proof fn lemma_ends(self, writer: Seq<u8>)
        requires
            self.holds(writer),
            self.next == self.shapes.len(),
        ensures
            encode(Shape::Tuple(self.shapes), Datum::List(self.items)) == Ok::<Seq<u8>, Fault>(
                self.sofar,
            ),
            writer == self.start + self.sofar,
    {
        assert(self.sofar + Seq::<u8>::empty() =~= self.sofar);
        assert(encode(Shape::Tuple(self.shapes), Datum::List(self.items)) == encode_fields(
            self.shapes,
            self.items,
            0,
        ));
    }
}

impl Reading {
    /// The state before the first field of a value of shape `shape` is
    /// read from a source that holds `input`.
    pub open spec fn begin(shape: Shape, input: Seq<u8>) -> Reading {
        Reading { shapes: shape->Tuple_0, next: 0, input, sofar: Seq::empty() }
    }

    /// The state after one more field, read as `datum`.
    pub open spec fn after(self, datum: Datum) -> Reading {
        Reading { next: self.next + 1, sofar: self.sofar.push(datum), ..self }
    }

    /// Whether the state is that of a source that holds `reader`: the
    /// fields before `next` have been read as `sofar`, and the rest is to
    /// be read from `reader`.
    pub closed spec fn holds(self, reader: Seq<u8>) -> bool {
        &&& self.next <= self.shapes.len()
        &&& parse_fields(self.shapes, 0, self.input) == append(
            self.sofar,
            parse_fields(self.shapes, self.next, reader),
        )
    }

    /// Nothing read yet is a fair start.
    pub proof fn lemma_begins(shape: Shape, input: Seq<u8>)
        ensures
            Self::begin(shape, input).holds(input),
    {
        let at = Self::begin(shape, input);
        match parse_fields(at.shapes, 0, input) {
            Ok((items, rest)) => {
                assert(Seq::<Datum>::empty() + items =~= items);
            },
            Err(_) => {},
        }
    }

    /// With every field read, the record is read.
    pub proof fn lemma_ends(self, reader: Seq<u8>)
        requires
            self.holds(reader),
            self.next == self.shapes.len(),
        ensures
            parse(Shape::Tuple(self.shapes), self.input) == Ok::<(Datum, Seq<u8>), Fault>(
                (Datum::List(self.sofar), reader),
            ),
    {
        assert(self.sofar + Seq::<Datum>::empty() =~= self.sofar);
        assert(parse(Shape::Tuple(self.shapes), self.input) == listed(
            parse_fields(self.shapes, 0, self.input),
        ));
    }

    /// A fault in a field is the fault of the record.
    proof fn lemma_fails(self, reader: Seq<u8>)
        requires
            self.next < self.shapes.len(),
            self.holds(reader),
            parse(self.shapes[self.next as int], reader) is Err,
        ensures
            parse(Shape::Tuple(self.shapes), self.input) == Err::<(Datum, Seq<u8>), Fault>(
                parse(self.shapes[self.next as int], reader)->Err_0,
            ),
    {
        assert(parse(Shape::Tuple(self.shapes), self.input) == listed(
            parse_fields(self.shapes, 0, self.input),
        ));
    }
}

/// Whether the first `k` of `items` are values of the first `k` of
/// `shapes`, each of its own.
pub closed spec fn fitting(shapes: Seq<Shape>, items: Seq<Datum>, k: nat) -> bool {
    &&& k <= shapes.len()
    &&& shapes.len() == items.len()
    &&& forall|i: int| 0 <= i < k ==> conforms(#[trigger] shapes[i], items[i])
}

/// Before the first field there is nothing to fit.
pub proof fn lemma_fitting_starts(shapes: Seq<Shape>, items: Seq<Datum>)
    requires
        shapes.len() == items.len(),
    ensures
        fitting(shapes, items, 0),
{
}

/// A field keeps the record fitting: every value is a value of the shape
/// of its type.
pub proof fn lemma_fitting_field<T: Wire>(
    value: &T,
    shapes: Seq<Shape>,
    items: Seq<Datum>,
    k: nat,
)
    requires
        fitting(shapes, items, k),
        k < shapes.len(),
        shapes[k as int] == T::shape(),
        items[k as int] == value.datum(),
    ensures
        fitting(shapes, items, k + 1),
{
    value.lemma_conforms();
}

/// A field that carries its length twice keeps the record fitting.
pub proof fn lemma_fitting_doubled<T: Wire>(
    value: &Vec<T>,
    shapes: Seq<Shape>,
    items: Seq<Datum>,
    k: nat,
)
    requires
        fitting(shapes, items, k),
        k < shapes.len(),
        shapes[k as int] == array_hack::doubled::<T>(),
        items[k as int] == value.datum(),
    ensures
        fitting(shapes, items, k + 1),
{
    array_hack::lemma_conforms(value);
}

/// With every field fitting, the record is a value of its shape.
pub proof fn lemma_fitting_ends(shapes: Seq<Shape>, items: Seq<Datum>)
    requires
        fitting(shapes, items, shapes.len()),
    ensures
        conforms(Shape::Tuple(shapes), Datum::List(items)),
{
}

/// What writing some fields came to: on success the state has moved on to
/// the field `upto`; a fault of a field is the fault of the record.
pub open spec fn fields_written(
    r: Result<Ghost<Writing>, Error>,
    at: Writing,
    upto: nat,
    writer: Seq<u8>,
) -> bool {
    match r {
        Ok(next) => next@.holds(writer) && next@.shapes == at.shapes && next@.items == at.items
            && next@.start == at.start && next@.next == upto,
        Err(e) => encode(Shape::Tuple(at.shapes), Datum::List(at.items)) == Err::<Seq<u8>, Fault>(
            e@,
        ) && at.start.is_prefix_of(writer),
    }
}

/// What writing a field came to.
pub open spec fn field_written(
    r: Result<Ghost<Writing>, Error>,
    at: Writing,
    writer: Seq<u8>,
) -> bool {
    fields_written(r, at, at.next + 1, writer)
}

/// Opens a record for writing: the state before its first field.
pub fn begin_writing(
    serializer: &Serializer,
    Ghost(shape): Ghost<Shape>,
    Ghost(datum): Ghost<Datum>,
) -> (at: Ghost<Writing>)
    ensures
        at@ == Writing::begin(shape, datum, serializer.writer@),
        at@.holds(serializer.writer@),
{
    proof {
        Writing::lemma_begins(shape, datum, serializer.writer@);
    }
    Ghost(Writing::begin(shape, datum, serializer.writer@))
}

/// Opens a record for reading: the state before its first field.
pub fn begin_reading(deserializer: &Deserializer, Ghost(shape): Ghost<Shape>) -> (at: Ghost<
    Reading,
>)
    ensures
        at@ == Reading::begin(shape, deserializer.reader@),
        at@.holds(deserializer.reader@),
{
    proof {
        Reading::lemma_begins(shape, deserializer.reader@);
    }
    Ghost(Reading::begin(shape, deserializer.reader@))
}

/// Whether what has been read so far is the head of `items`.
pub closed spec fn gathered(sofar: Seq<Datum>, items: Seq<Datum>) -> bool {
    sofar.len() <= items.len() && sofar == items.take(sofar.len() as int)
}

/// Nothing is the head of everything.
pub proof fn lemma_gathered_starts(items: Seq<Datum>)
    ensures
        gathered(Seq::empty(), items),
{
    assert(items.take(0) =~= Seq::<Datum>::empty());
}

/// The head grows by the value that stands next in `items`.
pub proof fn lemma_gathered_field(sofar: Seq<Datum>, items: Seq<Datum>, k: nat, datum: Datum)
    requires
        gathered(sofar, items),
        sofar.len() == k,
        k < items.len(),
        items[k as int] == datum,
    ensures
        gathered(sofar.push(datum), items),
        sofar.push(datum).len() == k + 1,
{
    assert(sofar.push(datum) =~= items.take(k + 1 as int));
}

/// A head as long as the whole is the whole.
pub proof fn lemma_gathered_ends(sofar: Seq<Datum>, items: Seq<Datum>)
    requires
        gathered(sofar, items),
        sofar.len() == items.len(),
    ensures
        sofar == items,
{
    assert(items.take(items.len() as int) =~= items);
}

/// What reading a field came to: on success the state has moved on by the
/// value that was read; a fault of the field is the fault of the record.
pub open spec fn field_read<T: Wire>(
    r: Result<(T, Ghost<Reading>), Error>,
    at: Reading,
    reader: Seq<u8>,
) -> bool {
    match r {
        Ok((v, next)) => next@.holds(reader) && next@ == at.after(v.datum()),
        Err(e) => parse(Shape::Tuple(at.shapes), at.input) == Err::<(Datum, Seq<u8>), Fault>(e@),
    }
}

/// Writes the next field of a record.
pub fn put_field<T: Wire>(value: &T, serializer: &mut Serializer, Ghost(at): Ghost<Writing>) -> (r:
    Result<Ghost<Writing>, Error>)
    requires
        at.holds(old(serializer).writer@),
        at.next < at.shapes.len(),
        at.shapes[at.next as int] == T::shape(),
        at.items[at.next as int] == value.datum(),
    ensures
        field_written(r, at, final(serializer).writer@),
{
    proof {
        lemma_next_field(at);
    }
    match serializer.serialize_element(value) {
        Err(e) => {
            assert(at.start.is_prefix_of(serializer.writer@));
            Err(e)
        },
        Ok(()) => {
            let ghost head = encode(T::shape(), value.datum())->Ok_0;
            proof {
                lemma_field_out(at, head, serializer.writer@);
            }
            Ok(Ghost(at.after(head)))
        },
    }
}

/// Writes the next field of a record, a sequence that carries its length
/// twice.
pub fn put_doubled<T: Wire>(
    value: &Vec<T>,
    serializer: &mut Serializer,
    Ghost(at): Ghost<Writing>,
) -> (r: Result<Ghost<Writing>, Error>)
    requires
        at.holds(old(serializer).writer@),
        at.next < at.shapes.len(),
        at.shapes[at.next as int] == array_hack::doubled::<T>(),
        at.items[at.next as int] == value.datum(),
    ensures
        field_written(r, at, final(serializer).writer@),
{
    proof {
        lemma_next_field(at);
    }
    match array_hack::serialize(value, serializer) {
        Err(e) => {
            assert(at.start.is_prefix_of(serializer.writer@));
            Err(e)
        },
        Ok(()) => {
            let ghost head = encode(array_hack::doubled::<T>(), value.datum())->Ok_0;
            proof {
                lemma_field_out(at, head, serializer.writer@);
            }
            Ok(Ghost(at.after(head)))
        },
    }
}

/// The bytes of the fields from the next one on begin with those of the
/// next one.
proof fn lemma_next_field(at: Writing)
    requires
        at.next < at.shapes.len(),
    ensures
        encode(Shape::Tuple(at.shapes), Datum::List(at.items)) == encode_fields(
            at.shapes,
            at.items,
            0,
        ),
        encode_fields(at.shapes, at.items, at.next) == match encode(
            at.shapes[at.next as int],
            at.items[at.next as int],
        ) {
            Err(fault) => Err(fault),
            Ok(head) => prepend(head, encode_fields(at.shapes, at.items, at.next + 1)),
        },
{
}

/// A field that has gone out as `head` moves the state on.
proof fn lemma_field_out(at: Writing, head: Seq<u8>, writer: Seq<u8>)
    requires
        at.next < at.shapes.len(),
        encode_fields(at.shapes, at.items, 0) == prepend(
            at.sofar,
            encode_fields(at.shapes, at.items, at.next),
        ),
        encode(at.shapes[at.next as int], at.items[at.next as int]) == Ok::<Seq<u8>, Fault>(head),
        writer == at.start + at.sofar + head,
    ensures
        at.after(head).holds(writer),
{
    assert(writer =~= at.start + (at.sofar + head));
    if let Ok(tail) = encode_fields(at.shapes, at.items, at.next + 1) {
        assert(at.sofar + (head + tail) =~= (at.sofar + head) + tail);
    }
}

/// Reads the next field of a record.
pub fn take_field<T: Wire>(deserializer: &mut Deserializer, Ghost(at): Ghost<Reading>) -> (r:
    Result<(T, Ghost<Reading>), Error>)
    requires
        at.holds(old(deserializer).reader@),
        at.next < at.shapes.len(),
        at.shapes[at.next as int] == T::shape(),
    ensures
        field_read(r, at, final(deserializer).reader@),
{
    let ghost before = deserializer.reader@;
    match T::deserialize(deserializer) {
        Err(e) => {
            proof {
                at.lemma_fails(before);
            }
            Err(e)
        },
        Ok(v) => {
            proof {
                lemma_field_in(at, v.datum(), before, deserializer.reader@);
            }
            Ok((v, Ghost(at.after(v.datum()))))
        },
    }
}

/// Reads the next field of a record, a sequence that carries its length
/// twice.
pub fn take_doubled<T: Wire>(deserializer: &mut Deserializer, Ghost(at): Ghost<Reading>) -> (r:
    Result<(Vec<T>, Ghost<Reading>), Error>)
    requires
        at.holds(old(deserializer).reader@),
        at.next < at.shapes.len(),
        at.shapes[at.next as int] == array_hack::doubled::<T>(),
    ensures
        field_read(r, at, final(deserializer).reader@),
{
    let ghost before = deserializer.reader@;
    match array_hack::deserialize::<T>(deserializer) {
        Err(e) => {
            proof {
                at.lemma_fails(before);
            }
            Err(e)
        },
        Ok(v) => {
            proof {
                lemma_field_in(at, v.datum(), before, deserializer.reader@);
            }
            Ok((v, Ghost(at.after(v.datum()))))
        },
    }
}

/// A field that has been read as `datum` moves the state on.
proof fn lemma_field_in(at: Reading, datum: Datum, before: Seq<u8>, after: Seq<u8>)
    requires
        at.next < at.shapes.len(),
        at.holds(before),
        parse(at.shapes[at.next as int], before) == Ok::<(Datum, Seq<u8>), Fault>((datum, after)),
    ensures
        at.after(datum).holds(after),
{
    assert(parse_fields(at.shapes, at.next, before) == match parse(
        at.shapes[at.next as int],
        before,
    ) {
        Err(fault) => Err(fault),
        Ok((head, rest)) => cons(head, parse_fields(at.shapes, at.next + 1, rest)),
    });
    if let Ok((items, rest)) = parse_fields(at.shapes, at.next + 1, after) {
        assert(at.sofar + (seq![datum] + items) =~= at.sofar.push(datum) + items);
    }
}

} // verus!
