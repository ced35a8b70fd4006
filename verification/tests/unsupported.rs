use mids_codec::netbinary::{from_reader, Deserializer, Error, Serializer, Wire};

#[test]
fn optional_values_are_not_written() {
    let mut s = Serializer::new();
    assert_eq!(Some(1u8).serialize(&mut s), Err(Error::UnsupportedType));
    assert_eq!(None::<u8>.serialize(&mut s), Err(Error::UnsupportedType));
    assert_eq!(s.serialize_none(), Err(Error::UnsupportedType));
    assert_eq!(s.serialize_some(&1u8), Err(Error::UnsupportedType));
    assert!(s.writer.is_empty());
}

#[test]
fn optional_values_are_not_read() {
    assert_eq!(from_reader::<Option<u8>>(&[1, 1]), Err(Error::UnsupportedType));
    let mut d = Deserializer::new(&[1, 1]);
    assert_eq!(d.deserialize_option::<u8>(), Err(Error::UnsupportedType));
    assert_eq!(d.reader, &[1, 1]);
}

#[test]
fn single_characters_are_not_supported() {
    let mut s = Serializer::new();
    assert_eq!(s.serialize_char('a'), Err(Error::UnsupportedType));
    assert_eq!('a'.serialize(&mut s), Err(Error::UnsupportedType));
    assert!(s.writer.is_empty());
    assert_eq!(from_reader::<char>(&[b'a']), Err(Error::UnsupportedType));
    let mut d = Deserializer::new(&[b'a']);
    assert_eq!(d.deserialize_char(), Err(Error::UnsupportedType));
}

#[test]
fn maps_are_not_supported() {
    let mut s = Serializer::new();
    assert_eq!(s.serialize_map(Some(1)), Err(Error::UnsupportedType));
    assert_eq!(s.serialize_map(None), Err(Error::UnsupportedType));
    let mut d = Deserializer::new(&[0, 0, 0, 0]);
    assert_eq!(d.deserialize_map::<u8>(), Err(Error::UnsupportedType));
}

#[test]
fn variants_are_not_supported() {
    let mut s = Serializer::new();
    assert_eq!(s.serialize_unit_variant("E", 0, "A"), Err(Error::UnsupportedType));
    assert_eq!(s.serialize_newtype_variant("E", 0, "A", &1u8), Err(Error::UnsupportedType));
    assert_eq!(s.serialize_tuple_variant("E", 0, "A", 2), Err(Error::UnsupportedType));
    assert_eq!(s.serialize_struct_variant("E", 0, "A", 2), Err(Error::UnsupportedType));
    assert!(s.writer.is_empty());
    let mut d = Deserializer::new(&[0, 0, 0, 0]);
    assert_eq!(d.deserialize_enum::<u8>("E", &["A", "B"]), Err(Error::UnsupportedType));
}

#[test]
fn a_value_cannot_say_what_it_is() {
    let mut d = Deserializer::new(&[1, 2, 3]);
    assert_eq!(d.deserialize_any::<u8>(), Err(Error::UnsupportedType));
    assert_eq!(d.deserialize_ignored_any::<u8>(), Err(Error::UnsupportedType));
    assert_eq!(d.deserialize_identifier::<String>(), Err(Error::UnsupportedType));
    assert_eq!(d.deserialize_newtype_struct::<u8>("Wrapper"), Err(Error::UnsupportedType));
    assert_eq!(d.reader, &[1, 2, 3]);
}

#[test]
fn an_unsupported_element_stops_the_sequence_after_its_count() {
    let mut s = Serializer::new();
    let value = vec![Some(1u8)];
    assert_eq!(value.serialize(&mut s), Err(Error::UnsupportedType));
    assert_eq!(s.writer, vec![0, 0, 0, 0]);
}

#[test]
fn every_error_has_its_message() {
    assert_eq!(Error::IllegalString.message(), "Illegal string");
    assert_eq!(Error::IllegalStringLength.message(), "Illegal string length");
    assert_eq!(Error::IOError.message(), "I/O error");
    assert_eq!(Error::SequenceLengthRequired.message(), "Sequence length required");
    assert_eq!(Error::SequenceTooLong.message(), "Sequence too long");
    assert_eq!(Error::UnsupportedType.message(), "Unsupported type");
    assert_eq!(Error::FormatMismatch.message(), "Wrong document type");
    assert_eq!(Error::Custom(String::from("field x")).message(), "field x");
    assert_eq!(Error::invalid_sequence_length().message(), "invalid sequence length");
    assert_eq!(Error::invalid_ordinal().message(), "invalid enumeration value");
}
