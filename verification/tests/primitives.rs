use mids_codec::netbinary::{from_reader, Deserializer, Error, Float32, Float64, Serializer, Wire};

fn written<T: Wire>(value: &T) -> Vec<u8> {
    let mut s = Serializer::new();
    value.serialize(&mut s).unwrap();
    s.writer
}

fn round_trip<T: Wire + PartialEq + std::fmt::Debug>(value: T) {
    let bytes = written(&value);
    let mut d = Deserializer::new(&bytes);
    let back = T::deserialize(&mut d).unwrap();
    assert_eq!(back, value);
    assert!(d.reader.is_empty());
}

#[test]
fn booleans_are_written_as_zero_and_one() {
    assert_eq!(written(&false), vec![0]);
    assert_eq!(written(&true), vec![1]);
}

#[test]
fn any_nonzero_byte_reads_as_true() {
    for byte in 1..=255u8 {
        let bytes = [byte];
        assert_eq!(from_reader::<bool>(&bytes), Ok(true));
    }
    assert_eq!(from_reader::<bool>(&[0]), Ok(false));
}

#[test]
fn integers_are_little_endian() {
    assert_eq!(written(&0x0102u16), vec![0x02, 0x01]);
    assert_eq!(written(&0x0102_0304u32), vec![0x04, 0x03, 0x02, 0x01]);
    assert_eq!(
        written(&0x0102_0304_0506_0708u64),
        vec![0x08, 0x07, 0x06, 0x05, 0x04, 0x03, 0x02, 0x01]
    );
    assert_eq!(written(&-2i8), vec![0xFE]);
    assert_eq!(written(&-2i16), vec![0xFE, 0xFF]);
    assert_eq!(written(&7i32), vec![7, 0, 0, 0]);
    assert_eq!(written(&-2i32), vec![0xFE, 0xFF, 0xFF, 0xFF]);
    assert_eq!(
        written(&-2i64),
        vec![0xFE, 0xFF, 0xFF, 0xFF, 0xFF, 0xFF, 0xFF, 0xFF]
    );
    assert_eq!(written(&0xABu8), vec![0xAB]);
}

#[test]
fn integers_are_read_little_endian() {
    assert_eq!(from_reader::<u16>(&[0x02, 0x01]), Ok(0x0102));
    assert_eq!(from_reader::<u32>(&[0x04, 0x03, 0x02, 0x01]), Ok(0x0102_0304));
    assert_eq!(
        from_reader::<u64>(&[0x08, 0x07, 0x06, 0x05, 0x04, 0x03, 0x02, 0x01]),
        Ok(0x0102_0304_0506_0708)
    );
    assert_eq!(from_reader::<i8>(&[0x80]), Ok(i8::MIN));
    assert_eq!(from_reader::<i16>(&[0x00, 0x80]), Ok(i16::MIN));
    assert_eq!(from_reader::<i32>(&[0x00, 0x00, 0x00, 0x80]), Ok(i32::MIN));
    assert_eq!(
        from_reader::<i64>(&[0, 0, 0, 0, 0, 0, 0, 0x80]),
        Ok(i64::MIN)
    );
}

#[test]
fn boundary_integers_survive_a_round_trip() {
    round_trip(i8::MIN);
    round_trip(i8::MAX);
    round_trip(i16::MIN);
    round_trip(i16::MAX);
    round_trip(i32::MIN);
    round_trip(i32::MAX);
    round_trip(i64::MIN);
    round_trip(i64::MAX);
    round_trip(0u8);
    round_trip(u8::MAX);
    round_trip(u16::MAX);
    round_trip(u32::MAX);
    round_trip(0u64);
    round_trip(u64::MAX);
    round_trip(true);
    round_trip(false);
}

#[test]
fn float_bit_patterns_survive_a_round_trip() {
    let singles = [
        f32::NAN,
        -f32::NAN,
        f32::from_bits(0x7FC0_1234),
        f32::from_bits(0x7F80_0001),
        0.0f32,
        -0.0f32,
        f32::INFINITY,
        f32::NEG_INFINITY,
        f32::MIN_POSITIVE,
        1.5f32,
    ];
    for x in singles {
        let value = Float32 { bits: x.to_bits() };
        let bytes = written(&value);
        assert_eq!(bytes, x.to_le_bytes().to_vec());
        let back: Float32 = from_reader(&bytes).unwrap();
        assert_eq!(back.bits, x.to_bits());
    }
    let doubles = [
        f64::NAN,
        f64::from_bits(0x7FF8_0000_DEAD_BEEF),
        0.0f64,
        -0.0f64,
        f64::MAX,
        -2.25f64,
    ];
    for x in doubles {
        let value = Float64 { bits: x.to_bits() };
        let bytes = written(&value);
        assert_eq!(bytes, x.to_le_bytes().to_vec());
        let back: Float64 = from_reader(&bytes).unwrap();
        assert_eq!(back.bits, x.to_bits());
    }
}

#[test]
fn one_and_a_half_as_single_precision() {
    let mut s = Serializer::new();
    s.serialize_f32(1.5f32.to_bits()).unwrap();
    assert_eq!(s.writer, vec![0x00, 0x00, 0xC0, 0x3F]);
    let mut d = Deserializer::new(&s.writer);
    assert_eq!(f32::from_bits(d.deserialize_f32().unwrap()), 1.5f32);
}

#[test]
fn one_and_a_half_as_double_precision() {
    let mut s = Serializer::new();
    s.serialize_f64(1.5f64.to_bits()).unwrap();
    assert_eq!(s.writer, vec![0, 0, 0, 0, 0, 0, 0xF8, 0x3F]);
    let mut d = Deserializer::new(&s.writer);
    assert_eq!(f64::from_bits(d.deserialize_f64().unwrap()), 1.5f64);
}

#[test]
fn a_source_that_ends_early_is_an_io_error() {
    assert_eq!(from_reader::<bool>(&[]), Err(Error::IOError));
    assert_eq!(from_reader::<u16>(&[1]), Err(Error::IOError));
    assert_eq!(from_reader::<i32>(&[1, 2, 3]), Err(Error::IOError));
    assert_eq!(from_reader::<u64>(&[1, 2, 3, 4, 5, 6, 7]), Err(Error::IOError));
}

#[test]
fn values_follow_each_other_without_framing() {
    let mut s = Serializer::new();
    s.serialize_u8(1).unwrap();
    s.serialize_u16(2).unwrap();
    s.serialize_bool(true).unwrap();
    s.serialize_i64(-1).unwrap();
    assert_eq!(s.writer.len(), 1 + 2 + 1 + 8);
    let mut d = Deserializer::new(&s.writer);
    assert_eq!(d.deserialize_u8(), Ok(1));
    assert_eq!(d.deserialize_u16(), Ok(2));
    assert_eq!(d.deserialize_bool(), Ok(true));
    assert_eq!(d.deserialize_i64(), Ok(-1));
    assert!(d.reader.is_empty());
}

#[test]
fn reading_leaves_what_follows_the_value() {
    let bytes = [9, 0, 0, 0, 0xAA, 0xBB];
    let mut d = Deserializer::new(&bytes);
    assert_eq!(d.deserialize_u32(), Ok(9));
    assert_eq!(d.reader, &[0xAA, 0xBB]);
}

#[test]
fn unit_takes_no_bytes() {
    assert_eq!(written(&()), Vec::<u8>::new());
    assert_eq!(from_reader::<()>(&[]), Ok(()));
    let mut s = Serializer::new();
    s.serialize_unit().unwrap();
    s.serialize_unit_struct("Nothing").unwrap();
    assert!(s.writer.is_empty());
}

#[test]
fn tuples_are_their_elements_in_order() {
    assert_eq!(written(&(1u8, 0x0203u16)), vec![1, 3, 2]);
    round_trip((i32::MIN, String::from("x")));
    round_trip((String::from("left"), String::from("right")));
}

#[test]
fn the_format_is_not_human_readable() {
    let d = Deserializer::new(&[]);
    assert!(!d.is_human_readable());
}
