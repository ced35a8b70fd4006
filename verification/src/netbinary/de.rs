//! Reading: every method takes the wire form of one value off the head of
//! the source.

use super::endian::{
    bits_i16, bits_i32, bits_i64, bits_i8, from_le_i32, from_le_u16, from_le_u32, from_le_u64,
    i16_of_bits, i64_of_bits, i8_of_bits, le_read_u16, le_read_u32, le_read_u64,
};
use super::error::{Error, Fault};
use super::length::{
    lemma_scale_values, parse_blob, parse_groups, parse_length, scale, LENGTH_LIMIT,
};
use super::model::{parse, Datum, Shape};
use super::wire::Wire;
use std::string::FromUtf8Error;
use vstd::prelude::*;
use vstd::slice::*;
use vstd::string::*;
use vstd::utf8::*;

verus! {

/// Reads values off the head of a byte slice, one after another. The slice
/// is the cursor: what has been read is no longer in it.
pub struct Deserializer<'a> {
    pub reader: &'a [u8],
}

/// Counts down the elements of a sequence, a tuple or a record while they
/// are read.
pub struct FixedSeq {
    pub n: usize,
}

/// What a read came to, said three ways at once: `r` is what the caller
/// got, `rest` what the source holds afterwards, `expected` what the bytes
/// say. On a fault nothing is said of the source.
pub open spec fn reads_as<T>(
    r: Result<T, Error>,
    rest: Seq<u8>,
    expected: Result<(T, Seq<u8>), Fault>,
) -> bool {
    match expected {
        Ok((value, tail)) => r == Ok::<T, Error>(value) && rest == tail,
        Err(fault) => r matches Err(e) && e@ == fault,
    }
}

/// `value` if `b` has `width` bytes to take it from, an I/O fault if not.
pub open spec fn fixed<T>(b: Seq<u8>, width: nat, value: T) -> Result<(T, Seq<u8>), Fault> {
    if b.len() < width {
        Err(Fault::IOError)
    } else {
        Ok((value, b.skip(width as int)))
    }
}

/// A boolean at the head of `b`: any byte but zero is true.
pub open spec fn parse_bool(b: Seq<u8>) -> Result<(bool, Seq<u8>), Fault> {
    fixed(b, 1, b[0] != 0)
}

/// A signed byte at the head of `b`.
pub open spec fn parse_i8(b: Seq<u8>) -> Result<(i8, Seq<u8>), Fault> {
    fixed(b, 1, i8_of_bits(b[0]))
}

/// A signed 16-bit number at the head of `b`.
pub open spec fn parse_i16(b: Seq<u8>) -> Result<(i16, Seq<u8>), Fault> {
    fixed(b, 2, i16_of_bits(from_le_u16(b)))
}

/// A signed 32-bit number at the head of `b`.
pub open spec fn parse_i32(b: Seq<u8>) -> Result<(i32, Seq<u8>), Fault> {
    fixed(b, 4, from_le_i32(b))
}

/// A signed 64-bit number at the head of `b`.
pub open spec fn parse_i64(b: Seq<u8>) -> Result<(i64, Seq<u8>), Fault> {
    fixed(b, 8, i64_of_bits(from_le_u64(b)))
}

/// A byte at the head of `b`.
pub open spec fn parse_u8(b: Seq<u8>) -> Result<(u8, Seq<u8>), Fault> {
    fixed(b, 1, b[0])
}

/// An unsigned 16-bit number at the head of `b`.
pub open spec fn parse_u16(b: Seq<u8>) -> Result<(u16, Seq<u8>), Fault> {
    fixed(b, 2, from_le_u16(b))
}

/// An unsigned 32-bit number at the head of `b`.
pub open spec fn parse_u32(b: Seq<u8>) -> Result<(u32, Seq<u8>), Fault> {
    fixed(b, 4, from_le_u32(b))
}

/// An unsigned 64-bit number at the head of `b`.
pub open spec fn parse_u64(b: Seq<u8>) -> Result<(u64, Seq<u8>), Fault> {
    fixed(b, 8, from_le_u64(b))
}

/// Text at the head of `b`: a byte string that has to be valid UTF-8.
pub open spec fn parse_text(b: Seq<u8>) -> Result<(Seq<char>, Seq<u8>), Fault> {
    match parse_blob(b) {
        Err(fault) => Err(fault),
        Ok((bytes, rest)) => if valid_utf8(bytes) {
            Ok((decode_utf8(bytes), rest))
        } else {
            Err(Fault::IllegalString)
        },
    }
}

/// The number of elements that the count field at the head of `b`
/// announces: one more than the signed number in it.
///
/// A field below `-1` stands for no count. Every other field does: the
/// largest announces `2^31` elements, one more than any writer writes.
pub open spec fn parse_count(b: Seq<u8>) -> Result<(nat, Seq<u8>), Fault> {
    if b.len() < 4 {
        Err(Fault::IOError)
    } else if from_le_i32(b) < -1 {
        Err(Fault::Custom(super::error::invalid_sequence_length()))
    } else {
        Ok(((from_le_i32(b) + 1) as nat, b.skip(4)))
    }
}

#[verifier::external_type_specification]
#[verifier::external_body]
pub struct ExFromUtf8Error(std::string::FromUtf8Error);

/// `String::from_utf8`: the bytes become a string, the same bytes being its
/// UTF-8 form, exactly when they are valid UTF-8; else an error comes back.
#[verifier::external_body]
pub(crate) fn string_from_utf8(bytes: Vec<u8>) -> (r: Result<String, FromUtf8Error>)
    ensures
        r is Ok <==> valid_utf8(bytes@),
        r matches Ok(s) ==> encode_utf8(s@) == bytes@,
{
    String::from_utf8(bytes)
}

/// Takes a length-prefixed byte string off the head of `r`.
///
/// The prefix is read group by group: seven bits each, lowest group first,
/// a set high bit asking for one more group. A fifth group that asks for a
/// sixth is refused, and by then those five bytes are gone from the
/// source. Bytes are only handed out when the source really holds as many
/// as the prefix announces.
pub fn read_bytes<'a>(r: &mut &'a [u8]) -> (result: Result<Vec<u8>, Error>)
    ensures
        match parse_blob(old(r)@) {
            Ok((bytes, rest)) => result matches Ok(buf) && buf@ == bytes && final(r)@ == rest,
            Err(fault) => result matches Err(e) && e@ == fault,
        },
        parse_blob(old(r)@) == Err::<(Seq<u8>, Seq<u8>), Fault>(Fault::IllegalStringLength)
            ==> final(r)@ == old(r)@.skip(5),
{
    let ghost input = r@;
    let mut result: u64 = 0;
    let mut factor: u64 = 1;
    let mut shift: u32 = 0;
    proof {
        lemma_scale_values();
    }
    loop
        invariant_except_break
            input == old(r)@,
            r@ == input.skip((shift / 7) as int),
            shift / 7 <= input.len(),
            shift % 7 == 0,
            shift < 32,
            factor == scale((shift / 7) as nat),
            result < factor,
            parse_length(input) == match parse_groups(r@, (shift / 7) as nat) {
                Ok((high, rest)) => Ok::<(nat, Seq<u8>), Fault>(
                    ((result + factor * high) as nat, rest),
                ),
                Err(fault) => Err(fault),
            },
        ensures
            parse_length(input) == Ok::<(nat, Seq<u8>), Fault>((result as nat, r@)),
            result < LENGTH_LIMIT,
        decreases 32 - shift,
    {
        let src: &'a [u8] = *r;
        if src.len() == 0 {
            return Err(Error::IOError);
        }
        let byte: u8 = src[0];
        *r = slice_subrange(src, 1, src.len());
        let ghost k = (shift / 7) as nat;
        proof {
            lemma_scale_values();
            reveal_with_fuel(scale, 6);
            assert(factor <= 0x1000_0000);
        }
        let low: u64 = (byte % 128) as u64;
        assert(factor * low <= factor * 127) by (nonlinear_arith)
            requires
                low <= 127,
                factor >= 0,
        ;
        let ghost before = result;
        result = result + factor * low;
        assert(result < factor * 128) by (nonlinear_arith)
            requires
                result == before + factor * low,
                before < factor,
                low <= 127,
        ;
        if byte < 128 {
            assert(factor * low == factor * (byte as nat)) by (nonlinear_arith)
                requires
                    low == byte,
            ;
            break ;
        }
        shift = shift + 7;
        if shift >= 32 {
            return Err(Error::IllegalStringLength);
        }
        proof {
            let tail = parse_groups(r@, k + 1);
            if let Ok((high, rest)) = tail {
                assert(factor * ((byte - 128 + 128 * high) as nat) == factor * low + (factor * 128)
                    * high) by (nonlinear_arith)
                    requires
                        low == byte - 128,
                        high >= 0,
                ;
            }
        }
        factor = factor * 128;
    }
    let src: &'a [u8] = *r;
    if result > src.len() as u64 {
        return Err(Error::IOError);
    }
    let n: usize = result as usize;
    let buf = slice_to_vec(slice_subrange(src, 0, n));
    *r = slice_subrange(src, n, src.len());
    Ok(buf)
}

impl FixedSeq {
    /// The next element, if any is left to read: the count goes down by one
    /// and a value of type `T` is taken off the head of the source. With
    /// none left, nothing is read.
    pub fn next_element_seed<T: Wire>(&mut self, de: &mut Deserializer) -> (r: Result<
        Option<T>,
        Error,
    >)
        ensures
            old(self).n == 0 ==> (r matches Ok(None)) && final(self).n == 0 && final(de).reader@
                == old(de).reader@,
            old(self).n > 0 ==> final(self).n == old(self).n - 1 && (match parse(
                T::shape(),
                old(de).reader@,
            ) {
                Ok((datum, rest)) => r matches Ok(Some(v)) && v.datum() == datum && final(
                    de
                ).reader@ == rest,
                Err(fault) => r matches Err(e) && e@ == fault,
            }),
    {
        if self.n == 0 {
            Ok(None)
        } else {
            self.n = self.n - 1;
            match T::deserialize(de) {
                Ok(value) => Ok(Some(value)),
                Err(e) => Err(e),
            }
        }
    }
}

impl<'a> Deserializer<'a> {
    /// A deserializer that reads from the head of `reader`.
    pub fn new(reader: &'a [u8]) -> (d: Deserializer<'a>)
        ensures
            d.reader@ == reader@,
    {
        Deserializer { reader }
    }

    /// Takes `n` bytes off the head of the source, or fails and leaves it as
    /// it is when it holds fewer.
    fn take(&mut self, n: usize) -> (r: Result<&'a [u8], Error>)
        ensures
            match r {
                Ok(bytes) => old(self).reader@.len() >= n && bytes@ == old(self).reader@.take(
                    n as int,
                ) && final(self).reader@ == old(self).reader@.skip(n as int),
                Err(e) => old(self).reader@.len() < n && e@ == Fault::IOError && final(self).reader@ == old(self).reader@,
            },
    {
        let src: &'a [u8] = self.reader;
        if src.len() < n {
            return Err(Error::IOError);
        }
        self.reader = slice_subrange(src, n, src.len());
        Ok(slice_subrange(src, 0, n))
    }

    /// One byte; any value but zero is true.
    pub fn deserialize_bool(&mut self) -> (r: Result<bool, Error>)
        ensures
            reads_as(r, final(self).reader@, parse_bool(old(self).reader@)),
    {
        let n = self.deserialize_u8()?;
        Ok(n > 0)
    }

    /// One byte, taken as a signed number.
    pub fn deserialize_i8(&mut self) -> (r: Result<i8, Error>)
        ensures
            reads_as(r, final(self).reader@, parse_i8(old(self).reader@)),
    {
        let n = self.deserialize_u8()?;
        Ok(bits_i8(n))
    }

    /// Two bytes, low byte first, taken as a signed number.
    pub fn deserialize_i16(&mut self) -> (r: Result<i16, Error>)
        ensures
            reads_as(r, final(self).reader@, parse_i16(old(self).reader@)),
    {
        let n = self.deserialize_u16()?;
        Ok(bits_i16(n))
    }

    /// Four bytes, low byte first, taken as a signed number.
    pub fn deserialize_i32(&mut self) -> (r: Result<i32, Error>)
        ensures
            reads_as(r, final(self).reader@, parse_i32(old(self).reader@)),
    {
        let n = self.deserialize_u32()?;
        Ok(bits_i32(n))
    }

    /// Eight bytes, low byte first, taken as a signed number.
    pub fn deserialize_i64(&mut self) -> (r: Result<i64, Error>)
        ensures
            reads_as(r, final(self).reader@, parse_i64(old(self).reader@)),
    {
        let n = self.deserialize_u64()?;
        Ok(bits_i64(n))
    }

    /// One byte.
    pub fn deserialize_u8(&mut self) -> (r: Result<u8, Error>)
        ensures
            reads_as(r, final(self).reader@, parse_u8(old(self).reader@)),
    {
        let bytes = self.take(1)?;
        Ok(bytes[0])
    }

    /// Two bytes, low byte first.
    pub fn deserialize_u16(&mut self) -> (r: Result<u16, Error>)
        ensures
            reads_as(r, final(self).reader@, parse_u16(old(self).reader@)),
    {
        let bytes = self.take(2)?;
        Ok(le_read_u16(bytes))
    }

    /// Four bytes, low byte first.
    pub fn deserialize_u32(&mut self) -> (r: Result<u32, Error>)
        ensures
            reads_as(r, final(self).reader@, parse_u32(old(self).reader@)),
    {
        let bytes = self.take(4)?;
        Ok(le_read_u32(bytes))
    }

    /// Eight bytes, low byte first.
    pub fn deserialize_u64(&mut self) -> (r: Result<u64, Error>)
        ensures
            reads_as(r, final(self).reader@, parse_u64(old(self).reader@)),
    {
        let bytes = self.take(8)?;
        assert(bytes@.skip(4) =~= old(self).reader@.skip(4).take(4));
        Ok(le_read_u64(bytes))
    }

    /// Four bytes, low byte first: the bit pattern of a single-precision
    /// number.
    pub fn deserialize_f32(&mut self) -> (r: Result<u32, Error>)
        ensures
            reads_as(r, final(self).reader@, parse_u32(old(self).reader@)),
    {
        self.deserialize_u32()
    }

    /// Eight bytes, low byte first: the bit pattern of a double-precision
    /// number.
    pub fn deserialize_f64(&mut self) -> (r: Result<u64, Error>)
        ensures
            reads_as(r, final(self).reader@, parse_u64(old(self).reader@)),
    {
        self.deserialize_u64()
    }

    /// The format has no single characters.
    pub fn deserialize_char(&mut self) -> (r: Result<char, Error>)
        ensures
            r == Err::<char, Error>(Error::UnsupportedType),
            final(self).reader@ == old(self).reader@,
    {
        Err(Error::UnsupportedType)
    }

    /// A byte string that has to be valid UTF-8.
    pub fn deserialize_str(&mut self) -> (r: Result<String, Error>)
        ensures
            match parse_text(old(self).reader@) {
                Ok((text, rest)) => r matches Ok(s) && s@ == text && final(self).reader@ == rest,
                Err(fault) => r matches Err(e) && e@ == fault,
            },
    {
        self.deserialize_string()
    }

    /// A byte string that has to be valid UTF-8.
    pub fn deserialize_string(&mut self) -> (r: Result<String, Error>)
        ensures
            match parse_text(old(self).reader@) {
                Ok((text, rest)) => r matches Ok(s) && s@ == text && final(self).reader@ == rest,
                Err(fault) => r matches Err(e) && e@ == fault,
            },
    {
        let buf = read_bytes(&mut self.reader)?;
        match string_from_utf8(buf) {
            Ok(s) => {
                proof {
                    encode_utf8_decode_utf8(s@);
                }
                Ok(s)
            },
            Err(_) => Err(Error::IllegalString),
        }
    }

    /// A length prefix and as many bytes as it announces.
    pub fn deserialize_bytes(&mut self) -> (r: Result<Vec<u8>, Error>)
        ensures
            match parse_blob(old(self).reader@) {
                Ok((bytes, rest)) => r matches Ok(buf) && buf@ == bytes && final(self).reader@
                    == rest,
                Err(fault) => r matches Err(e) && e@ == fault,
            },
    {
        read_bytes(&mut self.reader)
    }

    /// A length prefix and as many bytes as it announces.
    pub fn deserialize_byte_buf(&mut self) -> (r: Result<Vec<u8>, Error>)
        ensures
            match parse_blob(old(self).reader@) {
                Ok((bytes, rest)) => r matches Ok(buf) && buf@ == bytes && final(self).reader@
                    == rest,
                Err(fault) => r matches Err(e) && e@ == fault,
            },
    {
        read_bytes(&mut self.reader)
    }

    /// The format carries no tags, so a value cannot say what it is.
    pub fn deserialize_any<T>(&mut self) -> (r: Result<T, Error>)
        ensures
            r == Err::<T, Error>(Error::UnsupportedType),
            final(self).reader@ == old(self).reader@,
    {
        Err(Error::UnsupportedType)
    }

    /// The format has no optional values.
    pub fn deserialize_option<T>(&mut self) -> (r: Result<Option<T>, Error>)
        ensures
            r == Err::<Option<T>, Error>(Error::UnsupportedType),
            final(self).reader@ == old(self).reader@,
    {
        Err(Error::UnsupportedType)
    }

    /// The unit value takes no bytes.
    pub fn deserialize_unit(&mut self) -> (r: Result<(), Error>)
        ensures
            r is Ok,
            final(self).reader@ == old(self).reader@,
    {
        Ok(())
    }

    /// A struct without fields takes no bytes.
    pub fn deserialize_unit_struct(&mut self, name: &'static str) -> (r: Result<(), Error>)
        ensures
            r is Ok,
            final(self).reader@ == old(self).reader@,
    {
        Ok(())
    }

    /// A wrapped value is not read through its wrapper.
    pub fn deserialize_newtype_struct<T>(&mut self, name: &'static str) -> (r: Result<T, Error>)
        ensures
            r == Err::<T, Error>(Error::UnsupportedType),
            final(self).reader@ == old(self).reader@,
    {
        Err(Error::UnsupportedType)
    }

    /// Opens a sequence: reads its count field and hands back the count of
    /// elements that follow.
    pub fn deserialize_seq(&mut self) -> (r: Result<FixedSeq, Error>)
        ensures
            match parse_count(old(self).reader@) {
                Ok((count, rest)) => r matches Ok(seq) && seq.n == count && final(self).reader@
                    == rest,
                Err(fault) => r matches Err(e) && e@ == fault,
            },
    {
        let last = self.deserialize_i32()?;
        if last < -1 {
            return Err(Error::invalid_sequence_length());
        }
        let count: i64 = last as i64 + 1;
        Ok(FixedSeq { n: count as usize })
    }

    /// Opens a tuple of `len` elements: nothing is read for it.
    pub fn deserialize_tuple(&mut self, len: usize) -> (r: Result<FixedSeq, Error>)
        ensures
            r matches Ok(seq) && seq.n == len,
            final(self).reader@ == old(self).reader@,
    {
        Ok(FixedSeq { n: len })
    }

    /// Opens a tuple struct, which is read as the tuple of its fields.
    pub fn deserialize_tuple_struct(&mut self, name: &'static str, len: usize) -> (r: Result<
        FixedSeq,
        Error,
    >)
        ensures
            r matches Ok(seq) && seq.n == len,
            final(self).reader@ == old(self).reader@,
    {
        self.deserialize_tuple(len)
    }

    /// The format has no maps.
    pub fn deserialize_map<T>(&mut self) -> (r: Result<T, Error>)
        ensures
            r == Err::<T, Error>(Error::UnsupportedType),
            final(self).reader@ == old(self).reader@,
    {
        Err(Error::UnsupportedType)
    }

    /// Opens a record: it is read as the tuple of its fields, as many as the
    /// schema names.
    pub fn deserialize_struct(
        &mut self,
        name: &'static str,
        fields: &'static [&'static str],
    ) -> (r: Result<FixedSeq, Error>)
        ensures
            r matches Ok(seq) && seq.n == fields@.len(),
            final(self).reader@ == old(self).reader@,
    {
        Ok(FixedSeq { n: fields.len() })
    }

    /// The format has no variants read by name or index: an enumeration
    /// comes in as its ordinal.
    pub fn deserialize_enum<T>(
        &mut self,
        name: &'static str,
        variants: &'static [&'static str],
    ) -> (r: Result<T, Error>)
        ensures
            r == Err::<T, Error>(Error::UnsupportedType),
            final(self).reader@ == old(self).reader@,
    {
        Err(Error::UnsupportedType)
    }

    /// The format writes no names, so there is none to read.
    pub fn deserialize_identifier<T>(&mut self) -> (r: Result<T, Error>)
        ensures
            r == Err::<T, Error>(Error::UnsupportedType),
            final(self).reader@ == old(self).reader@,
    {
        Err(Error::UnsupportedType)
    }

    /// A value cannot be skipped without knowing what it is.
    pub fn deserialize_ignored_any<T>(&mut self) -> (r: Result<T, Error>)
        ensures
            r == Err::<T, Error>(Error::UnsupportedType),
            final(self).reader@ == old(self).reader@,
    {
        self.deserialize_any()
    }

    /// The format is binary.
    pub fn is_human_readable(&self) -> (b: bool)
        ensures
            !b,
    {
        false
    }
}

/// Reads one value off the head of `r`. What follows the value is left
/// unread.
pub fn from_reader<T: Wire>(r: &[u8]) -> (result: Result<T, Error>)
    ensures
        match parse(T::shape(), r@) {
            Ok((datum, _)) => result matches Ok(v) && v.datum() == datum,
            Err(fault) => result matches Err(e) && e@ == fault,
        },
{
    let mut deserializer = Deserializer { reader: r };
    T::deserialize(&mut deserializer)
}

/// What a reader that expects a document with the given magic text makes
/// of `b`.
pub open spec fn parse_document(magic: Seq<u8>, shape: Shape, b: Seq<u8>) -> Result<
    (Datum, Seq<u8>),
    Fault,
> {
    match parse_blob(b) {
        Err(fault) => Err(fault),
        Ok((found, rest)) => if found == magic {
            parse(shape, rest)
        } else {
            Err(Fault::FormatMismatch)
        },
    }
}

/// Whether two runs of bytes are the same.
pub fn same_bytes(a: &[u8], b: &[u8]) -> (same: bool)
    ensures
        same == (a@ == b@),
{
    if a.len() != b.len() {
        return false;
    }
    let mut i: usize = 0;
    while i < a.len()
        invariant
            i <= a.len(),
            a.len() == b.len(),
            a@.take(i as int) == b@.take(i as int),
        decreases a.len() - i,
    {
        if a[i] != b[i] {
            return false;
        }
        assert(a@.take(i + 1) =~= a@.take(i as int).push(a@[i as int]));
        assert(b@.take(i + 1) =~= b@.take(i as int).push(b@[i as int]));
        i = i + 1;
    }
    assert(a@.take(i as int) =~= a@ && b@.take(i as int) =~= b@);
    true
}

/// Reads a document: the magic text has to be the expected one, byte for
/// byte, before anything of the value is read.
pub fn read_document<T: Wire>(r: &[u8], magic: &str) -> (result: Result<T, Error>)
    ensures
        match parse_document(magic.spec_bytes(), T::shape(), r@) {
            Ok((datum, _)) => result matches Ok(v) && v.datum() == datum,
            Err(fault) => result matches Err(e) && e@ == fault,
        },
{
    let mut reader: &[u8] = r;
    let found = read_bytes(&mut reader)?;
    if !same_bytes(found.as_slice(), magic.as_bytes()) {
        return Err(Error::FormatMismatch);
    }
    from_reader(reader)
}

} // verus!
