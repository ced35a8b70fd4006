use mids_codec::netbinary::array_hack;
use mids_codec::netbinary::{from_reader, Deserializer, Error, FixedSeq, Serializer, Wire};

fn written<T: Wire>(value: &T) -> Vec<u8> {
    let mut s = Serializer::new();
    value.serialize(&mut s).unwrap();
    s.writer
}

#[test]
fn an_empty_sequence_is_minus_one() {
    let empty: Vec<u32> = Vec::new();
    assert_eq!(written(&empty), vec![0xFF, 0xFF, 0xFF, 0xFF]);
    let mut s = Serializer::new();
    s.serialize_seq(Some(0)).unwrap();
    assert_eq!(s.writer, vec![0xFF, 0xFF, 0xFF, 0xFF]);
}

#[test]
fn minus_one_reads_as_no_elements() {
    let bytes = [0xFF, 0xFF, 0xFF, 0xFF, 0x99];
    let mut d = Deserializer::new(&bytes);
    let values = Vec::<u32>::deserialize(&mut d).unwrap();
    assert!(values.is_empty());
    assert_eq!(d.reader, &[0x99]);
}

#[test]
fn the_count_field_is_one_less_than_the_count() {
    assert_eq!(written(&vec![1i8, 2, 3]), vec![2, 0, 0, 0, 1, 2, 3]);
    assert_eq!(written(&vec![0x0102u16]), vec![0, 0, 0, 0, 0x02, 0x01]);
    assert_eq!(from_reader::<Vec<i8>>(&[2, 0, 0, 0, 1, 2, 3]), Ok(vec![1, 2, 3]));
}

#[test]
fn the_longest_sequence_has_two_to_the_31_minus_one_elements() {
    let mut s = Serializer::new();
    assert_eq!(s.serialize_seq(Some(0x7FFF_FFFF)), Ok(()));
    assert_eq!(s.writer, vec![0xFE, 0xFF, 0xFF, 0x7F]);
}

#[test]
fn a_sequence_of_two_to_the_31_elements_is_too_long() {
    let mut s = Serializer::new();
    s.serialize_u8(1).unwrap();
    assert_eq!(s.serialize_seq(Some(0x8000_0000)), Err(Error::SequenceTooLong));
    assert_eq!(s.serialize_seq(Some(usize::MAX)), Err(Error::SequenceTooLong));
    assert_eq!(s.writer, vec![1]);
}

#[test]
fn a_sequence_must_say_how_long_it_is() {
    let mut s = Serializer::new();
    assert_eq!(s.serialize_seq(None), Err(Error::SequenceLengthRequired));
    assert!(s.writer.is_empty());
}

#[test]
fn a_count_field_below_minus_one_is_refused() {
    let result = from_reader::<Vec<u8>>(&[0xFE, 0xFF, 0xFF, 0xFF]);
    assert_eq!(result, Err(Error::Custom(String::from("invalid sequence length"))));
    let result = from_reader::<Vec<u8>>(&[0x00, 0x00, 0x00, 0x80]);
    assert_eq!(result, Err(Error::Custom(String::from("invalid sequence length"))));
}

#[test]
fn the_largest_count_field_announces_two_to_the_31_elements() {
    let mut d = Deserializer::new(&[0xFF, 0xFF, 0xFF, 0x7F, 9]);
    let seq = d.deserialize_seq().unwrap();
    assert_eq!(seq.n, 1usize << 31);
    assert_eq!(d.reader, &[9]);
}

#[test]
fn the_largest_count_field_with_nothing_after_it_is_an_io_error() {
    assert_eq!(from_reader::<Vec<i8>>(&[0xFF, 0xFF, 0xFF, 0x7F]), Err(Error::IOError));
    assert_eq!(from_reader::<Vec<u16>>(&[0xFF, 0xFF, 0xFF, 0x7F, 1, 0, 2]), Err(Error::IOError));
}

#[test]
fn a_sequence_cut_short_is_an_io_error() {
    assert_eq!(from_reader::<Vec<u16>>(&[1, 0, 0, 0, 5, 0, 6]), Err(Error::IOError));
    assert_eq!(from_reader::<Vec<u16>>(&[1, 0, 0]), Err(Error::IOError));
}

#[test]
fn sequences_nest() {
    let value = vec![vec![String::from("a")], vec![], vec![String::from("bc"), String::new()]];
    let bytes = written(&value);
    assert_eq!(
        bytes,
        vec![
            2, 0, 0, 0, // three inner sequences
            0, 0, 0, 0, 1, b'a', // one string
            0xFF, 0xFF, 0xFF, 0xFF, // none
            1, 0, 0, 0, 2, b'b', b'c', 0, // two strings
        ]
    );
    assert_eq!(from_reader::<Vec<Vec<String>>>(&bytes), Ok(value));
}

#[test]
fn sequences_of_pairs() {
    let value = vec![(String::from("k"), String::from("v"))];
    let bytes = written(&value);
    assert_eq!(bytes, vec![0, 0, 0, 0, 1, b'k', 1, b'v']);
    assert_eq!(from_reader::<Vec<(String, String)>>(&bytes), Ok(value));
}

#[test]
fn fixed_seq_counts_down() {
    let bytes = [1, 2, 3];
    let mut d = Deserializer::new(&bytes);
    let mut seq = FixedSeq { n: 2 };
    assert_eq!(seq.next_element_seed::<u8>(&mut d), Ok(Some(1)));
    assert_eq!(seq.n, 1);
    assert_eq!(seq.next_element_seed::<u8>(&mut d), Ok(Some(2)));
    assert_eq!(seq.next_element_seed::<u8>(&mut d), Ok(None));
    assert_eq!(seq.next_element_seed::<u8>(&mut d), Ok(None));
    assert_eq!(d.reader, &[3]);
}

#[test]
fn fixed_seq_hands_on_the_error_of_its_element() {
    let mut d = Deserializer::new(&[1]);
    let mut seq = FixedSeq { n: 3 };
    assert_eq!(seq.next_element_seed::<u16>(&mut d), Err(Error::IOError));
}

#[test]
fn opening_a_sequence_reads_its_count() {
    let mut d = Deserializer::new(&[4, 0, 0, 0, 9]);
    let seq = d.deserialize_seq().unwrap();
    assert_eq!(seq.n, 5);
    assert_eq!(d.reader, &[9]);
}

#[test]
fn opening_a_tuple_or_a_record_reads_nothing() {
    let mut d = Deserializer::new(&[4, 0]);
    assert_eq!(d.deserialize_tuple(3).unwrap().n, 3);
    assert_eq!(d.deserialize_tuple_struct("T", 2).unwrap().n, 2);
    assert_eq!(d.deserialize_struct("S", &["a", "b", "c", "d"]).unwrap().n, 4);
    assert_eq!(d.reader, &[4, 0]);
    let mut s = Serializer::new();
    s.serialize_tuple(3).unwrap();
    s.serialize_tuple_struct("T", 2).unwrap();
    s.serialize_struct("S", 4).unwrap();
    s.end().unwrap();
    assert!(s.writer.is_empty());
}

#[test]
fn elements_and_fields_are_written_bare() {
    let mut s = Serializer::new();
    s.serialize_element(&0x0102u16).unwrap();
    s.serialize_field("name", &String::from("a")).unwrap();
    s.serialize_newtype_struct("Wrapper", &true).unwrap();
    assert_eq!(s.writer, vec![0x02, 0x01, 1, b'a', 1]);
}

#[test]
fn a_doubled_sequence_carries_its_length_twice() {
    let value = vec![String::from("a"), String::from("bc")];
    let mut s = Serializer::new();
    array_hack::serialize(&value, &mut s).unwrap();
    assert_eq!(
        s.writer,
        vec![2, 0, 0, 0, 1, 0, 0, 0, 1, b'a', 2, b'b', b'c']
    );
    let mut d = Deserializer::new(&s.writer);
    assert_eq!(array_hack::deserialize::<String>(&mut d), Ok(value));
    assert!(d.reader.is_empty());
}

#[test]
fn an_empty_doubled_sequence() {
    let value: Vec<u8> = Vec::new();
    let mut s = Serializer::new();
    array_hack::serialize(&value, &mut s).unwrap();
    assert_eq!(s.writer, vec![0, 0, 0, 0, 0xFF, 0xFF, 0xFF, 0xFF]);
    let mut d = Deserializer::new(&s.writer);
    assert_eq!(array_hack::deserialize::<u8>(&mut d), Ok(value));
}

#[test]
fn the_first_length_of_a_doubled_sequence_is_not_checked() {
    for literal in [[0u8, 0, 0, 0], [99, 0, 0, 0], [0xFF, 0xFF, 0xFF, 0xFF], [0, 0, 0, 0x80]] {
        let mut bytes = literal.to_vec();
        bytes.extend_from_slice(&[1, 0, 0, 0, 7, 8, 9]);
        let mut d = Deserializer::new(&bytes);
        assert_eq!(array_hack::deserialize::<u8>(&mut d), Ok(vec![7, 8]));
        assert_eq!(d.reader, &[9]);
    }
}

#[test]
fn a_doubled_sequence_cut_short_is_an_io_error() {
    let mut d = Deserializer::new(&[2, 0, 0]);
    assert_eq!(array_hack::deserialize::<u8>(&mut d), Err(Error::IOError));
    let mut d = Deserializer::new(&[2, 0, 0, 0, 1, 0]);
    assert_eq!(array_hack::deserialize::<u8>(&mut d), Err(Error::IOError));
}

#[test]
fn a_vector_of_two_to_the_31_elements_is_too_long() {
    let units = vec![(); 1usize << 31];
    let mut s = Serializer::new();
    s.serialize_u8(7).unwrap();
    assert_eq!(units.serialize(&mut s), Err(Error::SequenceTooLong));
    assert_eq!(s.writer, vec![7]);
}

#[test]
fn a_doubled_sequence_of_two_to_the_31_elements_is_too_long() {
    let units = vec![(); 1usize << 31];
    let mut s = Serializer::new();
    s.serialize_u8(7).unwrap();
    assert_eq!(array_hack::serialize(&units, &mut s), Err(Error::SequenceTooLong));
    assert_eq!(s.writer, vec![7]);
}

#[test]
fn a_thousand_units_take_no_bytes_after_their_count() {
    let units = vec![(); 1000];
    let mut s = Serializer::new();
    units.serialize(&mut s).unwrap();
    assert_eq!(s.writer, vec![0xE7, 0x03, 0, 0]);
    assert_eq!(from_reader::<Vec<()>>(&s.writer), Ok(units));
}
