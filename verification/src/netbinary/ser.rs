//! Writing: every method appends the wire form of its argument to the sink.

use super::endian::{
    bits_of_i16, bits_of_i64, bits_of_i8, i16_bits, i32_bits, i64_bits, i8_bits, le_i32, le_u16,
    le_u32, le_u64, le_write_u16, le_write_u32, le_write_u64,
};
use super::error::{Error, Fault};
use super::length::{blob, length_prefix};
use super::model::{encode, prepend};
use super::wire::{writes_as, Wire};
use vstd::prelude::*;
use vstd::string::*;

verus! {

/// Writes values into a growing byte buffer, one after another, with no
/// framing between them.
pub struct Serializer {
    pub writer: Vec<u8>,
}

/// The byte a boolean is written as.
pub open spec fn bool_byte(v: bool) -> u8 {
    if v {
        1
    } else {
        0
    }
}

/// The count field of a sequence of `len` elements: one less than `len`, as
/// a signed 32-bit number.
pub open spec fn count_field(len: nat) -> Seq<u8>
    recommends
        len <= i32::MAX,
{
    le_i32((len - 1) as i32)
}

impl Serializer {
    /// A serializer with nothing written yet.
    pub fn new() -> (s: Serializer)
        ensures
            s.writer@ == Seq::<u8>::empty(),
    {
        Serializer { writer: Vec::new() }
    }

    /// Appends a length prefix for `n` bytes.
    fn write_length(&mut self, n: usize)
        ensures
            final(self).writer@ == old(self).writer@ + length_prefix(n as nat),
    {
        let mut val: usize = n;
        loop
            invariant_except_break
                self.writer@ + length_prefix(val as nat) == old(self).writer@ + length_prefix(
                    n as nat,
                ),
            ensures
                self.writer@ == old(self).writer@ + length_prefix(n as nat),
            decreases val,
        {
            let ghost before = self.writer@;
            let ghost pending = val;
            let low: u8 = (val % 128) as u8;
            val = val / 128;
            if val != 0 {
                self.writer.push(low + 128);
                assert(self.writer@ + length_prefix(val as nat) =~= before + length_prefix(
                    pending as nat,
                ));
            } else {
                self.writer.push(low);
                assert(self.writer@ =~= before + length_prefix(pending as nat));
                break ;
            }
        }
    }

    /// A boolean is one byte, `1` for true and `0` for false.
    pub fn serialize_bool(&mut self, v: bool) -> (r: Result<(), Error>)
        ensures
            r is Ok,
            final(self).writer@ == old(self).writer@ + seq![bool_byte(v)],
    {
        self.serialize_i8(
            if v {
                1
            } else {
                0
            },
        )
    }

    /// A signed byte is written as its bit pattern.
    pub fn serialize_i8(&mut self, v: i8) -> (r: Result<(), Error>)
        ensures
            r is Ok,
            final(self).writer@ == old(self).writer@ + seq![bits_of_i8(v)],
    {
        self.writer.push(i8_bits(v));
        Ok(())
    }

    /// A signed 16-bit number is two bytes, low byte first.
    pub fn serialize_i16(&mut self, v: i16) -> (r: Result<(), Error>)
        ensures
            r is Ok,
            final(self).writer@ == old(self).writer@ + le_u16(bits_of_i16(v)),
    {
        self.serialize_u16(i16_bits(v))
    }

    /// A signed 32-bit number is four bytes, low byte first.
    pub fn serialize_i32(&mut self, v: i32) -> (r: Result<(), Error>)
        ensures
            r is Ok,
            final(self).writer@ == old(self).writer@ + le_i32(v),
    {
        self.serialize_u32(i32_bits(v))
    }

    /// A signed 64-bit number is eight bytes, low byte first.
    pub fn serialize_i64(&mut self, v: i64) -> (r: Result<(), Error>)
        ensures
            r is Ok,
            final(self).writer@ == old(self).writer@ + le_u64(bits_of_i64(v)),
    {
        self.serialize_u64(i64_bits(v))
    }

    /// A byte is written as it is.
    pub fn serialize_u8(&mut self, v: u8) -> (r: Result<(), Error>)
        ensures
            r is Ok,
            final(self).writer@ == old(self).writer@ + seq![v],
    {
        self.writer.push(v);
        Ok(())
    }

    /// An unsigned 16-bit number is two bytes, low byte first.
    pub fn serialize_u16(&mut self, v: u16) -> (r: Result<(), Error>)
        ensures
            r is Ok,
            final(self).writer@ == old(self).writer@ + le_u16(v),
    {
        let mut buf: [u8; 2] = [0u8; 2];
        le_write_u16(&mut buf, v);
        self.writer.extend_from_slice(&buf);
        assert(self.writer@ =~= old(self).writer@ + le_u16(v));
        Ok(())
    }

    /// An unsigned 32-bit number is four bytes, low byte first.
    pub fn serialize_u32(&mut self, v: u32) -> (r: Result<(), Error>)
        ensures
            r is Ok,
            final(self).writer@ == old(self).writer@ + le_u32(v),
    {
        let mut buf: [u8; 4] = [0u8; 4];
        le_write_u32(&mut buf, v);
        self.writer.extend_from_slice(&buf);
        assert(self.writer@ =~= old(self).writer@ + le_u32(v));
        Ok(())
    }

    /// An unsigned 64-bit number is eight bytes, low byte first.
    pub fn serialize_u64(&mut self, v: u64) -> (r: Result<(), Error>)
        ensures
            r is Ok,
            final(self).writer@ == old(self).writer@ + le_u64(v),
    {
        let mut buf: [u8; 8] = [0u8; 8];
        le_write_u64(&mut buf, v);
        self.writer.extend_from_slice(&buf);
        assert(self.writer@ =~= old(self).writer@ + le_u64(v));
        Ok(())
    }

    /// A single-precision number, given by its bit pattern, is written as
    /// those 32 bits: no pattern is changed on the way, not that of a NaN
    /// either.
    pub fn serialize_f32(&mut self, bits: u32) -> (r: Result<(), Error>)
        ensures
            r is Ok,
            final(self).writer@ == old(self).writer@ + le_u32(bits),
    {
        self.serialize_u32(bits)
    }

    /// A double-precision number, given by its bit pattern, is written as
    /// those 64 bits.
    pub fn serialize_f64(&mut self, bits: u64) -> (r: Result<(), Error>)
        ensures
            r is Ok,
            final(self).writer@ == old(self).writer@ + le_u64(bits),
    {
        self.serialize_u64(bits)
    }

    /// The format has no single characters.
    pub fn serialize_char(&mut self, v: char) -> (r: Result<(), Error>)
        ensures
            r == Err::<(), Error>(Error::UnsupportedType),
            final(self).writer@ == old(self).writer@,
    {
        Err(Error::UnsupportedType)
    }

    /// Text is written as the byte string of its UTF-8 form.
    pub fn serialize_str(&mut self, v: &str) -> (r: Result<(), Error>)
        ensures
            r is Ok,
            final(self).writer@ == old(self).writer@ + blob(v.spec_bytes()),
    {
        self.serialize_bytes(v.as_bytes())
    }

    /// A byte string is written as its length prefix and then its bytes.
    pub fn serialize_bytes(&mut self, v: &[u8]) -> (r: Result<(), Error>)
        ensures
            r is Ok,
            final(self).writer@ == old(self).writer@ + blob(v@),
    {
        self.write_length(v.len());
        self.writer.extend_from_slice(v);
        assert(self.writer@ =~= old(self).writer@ + blob(v@));
        Ok(())
    }

    /// The format has no optional values.
    pub fn serialize_none(&mut self) -> (r: Result<(), Error>)
        ensures
            r == Err::<(), Error>(Error::UnsupportedType),
            final(self).writer@ == old(self).writer@,
    {
        Err(Error::UnsupportedType)
    }

    /// The format has no optional values.
    pub fn serialize_some<T>(&mut self, value: &T) -> (r: Result<(), Error>)
        ensures
            r == Err::<(), Error>(Error::UnsupportedType),
            final(self).writer@ == old(self).writer@,
    {
        Err(Error::UnsupportedType)
    }

    /// The unit value takes no bytes.
    pub fn serialize_unit(&mut self) -> (r: Result<(), Error>)
        ensures
            r is Ok,
            final(self).writer@ == old(self).writer@,
    {
        Ok(())
    }

    /// A struct without fields takes no bytes.
    pub fn serialize_unit_struct(&mut self, name: &'static str) -> (r: Result<(), Error>)
        ensures
            r is Ok,
            final(self).writer@ == old(self).writer@,
    {
        Ok(())
    }

    /// The format has no variants written by name or index: an enumeration
    /// goes out as its ordinal, through [`Serializer::serialize_u32`].
    pub fn serialize_unit_variant(
        &mut self,
        name: &'static str,
        variant_index: u32,
        variant: &'static str,
    ) -> (r: Result<(), Error>)
        ensures
            r == Err::<(), Error>(Error::UnsupportedType),
            final(self).writer@ == old(self).writer@,
    {
        Err(Error::UnsupportedType)
    }

    /// The format has no variants that carry a value.
    pub fn serialize_newtype_variant<T>(
        &mut self,
        name: &'static str,
        variant_index: u32,
        variant: &'static str,
        value: &T,
    ) -> (r: Result<(), Error>)
        ensures
            r == Err::<(), Error>(Error::UnsupportedType),
            final(self).writer@ == old(self).writer@,
    {
        Err(Error::UnsupportedType)
    }

    /// Opens a sequence: writes its count field, one less than the number of
    /// elements, so that an empty sequence is announced by `-1`.
    ///
    /// A sequence must say how long it is, and its length has to fit a
    /// signed 32-bit number; where it does not, nothing is written.
    pub fn serialize_seq(&mut self, len: Option<usize>) -> (r: Result<(), Error>)
        ensures
            match len {
                None => r == Err::<(), Error>(Error::SequenceLengthRequired) && final(self).writer@ == old(self).writer@,
                Some(n) => if n > i32::MAX {
                    r == Err::<(), Error>(Error::SequenceTooLong) && final(self).writer@ == old(self).writer@
                } else {
                    r is Ok && final(self).writer@ == old(self).writer@ + count_field(n as nat)
                },
            },
    {
        let len32: i32 = match len {
            None => { return Err(Error::SequenceLengthRequired); },
            Some(n) => {
                if n > i32::MAX as usize {
                    return Err(Error::SequenceTooLong);
                }
                n as i32
            },
        };
        self.serialize_i32(len32 - 1)
    }

    /// Opens a tuple: its arity is known to both sides and is not written.
    pub fn serialize_tuple(&mut self, len: usize) -> (r: Result<(), Error>)
        ensures
            r is Ok,
            final(self).writer@ == old(self).writer@,
    {
        Ok(())
    }

    /// Opens a tuple struct, which is written as the tuple of its fields.
    pub fn serialize_tuple_struct(&mut self, name: &'static str, len: usize) -> (r: Result<
        (),
        Error,
    >)
        ensures
            r is Ok,
            final(self).writer@ == old(self).writer@,
    {
        self.serialize_tuple(len)
    }

    /// The format has no variants that carry values.
    pub fn serialize_tuple_variant(
        &mut self,
        name: &'static str,
        variant_index: u32,
        variant: &'static str,
        len: usize,
    ) -> (r: Result<(), Error>)
        ensures
            r == Err::<(), Error>(Error::UnsupportedType),
            final(self).writer@ == old(self).writer@,
    {
        Err(Error::UnsupportedType)
    }

    /// The format has no maps.
    pub fn serialize_map(&mut self, len: Option<usize>) -> (r: Result<(), Error>)
        ensures
            r == Err::<(), Error>(Error::UnsupportedType),
            final(self).writer@ == old(self).writer@,
    {
        Err(Error::UnsupportedType)
    }

    /// Opens a record: neither its name nor the number of its fields is
    /// written.
    pub fn serialize_struct(&mut self, name: &'static str, len: usize) -> (r: Result<(), Error>)
        ensures
            r is Ok,
            final(self).writer@ == old(self).writer@,
    {
        Ok(())
    }

    /// The format has no variants that carry fields.
    pub fn serialize_struct_variant(
        &mut self,
        name: &'static str,
        variant_index: u32,
        variant: &'static str,
        len: usize,
    ) -> (r: Result<(), Error>)
        ensures
            r == Err::<(), Error>(Error::UnsupportedType),
            final(self).writer@ == old(self).writer@,
    {
        Err(Error::UnsupportedType)
    }

    /// A wrapper around one value is written as the value alone.
    pub fn serialize_newtype_struct<T: Wire>(&mut self, name: &'static str, value: &T) -> (r:
        Result<(), Error>)
        ensures
            writes_as(
                r,
                old(self).writer@,
                final(self).writer@,
                encode(T::shape(), value.datum()),
            ),
    {
        value.serialize(self)
    }

    /// Writes the next element of a sequence or of a tuple: the element
    /// itself, with nothing before or after it.
    pub fn serialize_element<T: Wire>(&mut self, value: &T) -> (r: Result<(), Error>)
        ensures
            writes_as(
                r,
                old(self).writer@,
                final(self).writer@,
                encode(T::shape(), value.datum()),
            ),
    {
        value.serialize(self)
    }

    /// Writes the next field of a record: its value alone. The name of the
    /// field stays behind.
    pub fn serialize_field<T: Wire>(&mut self, key: &'static str, value: &T) -> (r: Result<
        (),
        Error,
    >)
        ensures
            writes_as(
                r,
                old(self).writer@,
                final(self).writer@,
                encode(T::shape(), value.datum()),
            ),
    {
        value.serialize(self)
    }

    /// Closes a sequence, a tuple or a record: nothing marks their end.
    pub fn end(&mut self) -> (r: Result<(), Error>)
        ensures
            r is Ok,
            final(self).writer@ == old(self).writer@,
    {
        Ok(())
    }
}

/// A document on the wire: the magic text that says what it is, and then
/// the one value it holds.
pub open spec fn encode_document(magic: Seq<u8>, payload: Result<Seq<u8>, Fault>) -> Result<
    Seq<u8>,
    Fault,
> {
    prepend(blob(magic), payload)
}

/// Writes a document: the magic text, then the value. There is no checksum,
/// no version and no trailer.
pub fn write_document<T: Wire>(writer: &mut Vec<u8>, magic: &str, value: &T) -> (r: Result<
    (),
    Error,
>)
    ensures
        writes_as(
            r,
            old(writer)@,
            final(writer)@,
            encode_document(magic.spec_bytes(), encode(T::shape(), value.datum())),
        ),
{
    let mut s = Serializer::new();
    s.serialize_str(magic)?;
    let r = value.serialize(&mut s);
    let ghost written = s.writer@;
    writer.append(&mut s.writer);
    proof {
        if let Ok(bytes) = encode(T::shape(), value.datum()) {
            assert(written =~= blob(magic.spec_bytes()) + bytes);
        } else {
            assert(old(writer)@.is_prefix_of(writer@));
        }
    }
    r
}

} // verus!
