use mids_codec::netbinary::{from_reader, read_bytes, Deserializer, Error, Serializer, Wire};

fn prefix_of(len: usize) -> Vec<u8> {
    let mut s = Serializer::new();
    s.serialize_bytes(&vec![0u8; len]).unwrap();
    let groups = s.writer.len() - len;
    s.writer.truncate(groups);
    s.writer
}

#[test]
fn text_is_a_length_prefix_and_utf8() {
    let mut s = Serializer::new();
    s.serialize_str("TEST").unwrap();
    assert_eq!(s.writer, vec![4, b'T', b'E', b'S', b'T']);
}

#[test]
fn empty_text_is_a_single_zero() {
    let mut s = Serializer::new();
    s.serialize_str("").unwrap();
    assert_eq!(s.writer, vec![0]);
    assert_eq!(from_reader::<String>(&[0]), Ok(String::new()));
}

#[test]
fn the_prefix_counts_bytes_not_characters() {
    let mut s = Serializer::new();
    s.serialize_str("h\u{e9}llo").unwrap();
    assert_eq!(s.writer, vec![6, b'h', 0xC3, 0xA9, b'l', b'l', b'o']);
    assert_eq!(from_reader::<String>(&s.writer), Ok(String::from("h\u{e9}llo")));
}

#[test]
fn length_prefixes_take_as_few_groups_as_they_can() {
    assert_eq!(prefix_of(0), vec![0x00]);
    assert_eq!(prefix_of(1), vec![0x01]);
    assert_eq!(prefix_of(127), vec![0x7F]);
    assert_eq!(prefix_of(128), vec![0x80, 0x01]);
    assert_eq!(prefix_of(300), vec![0xAC, 0x02]);
    assert_eq!(prefix_of(16383), vec![0xFF, 0x7F]);
    assert_eq!(prefix_of(16384), vec![0x80, 0x80, 0x01]);
    assert_eq!(prefix_of(2_097_152), vec![0x80, 0x80, 0x80, 0x01]);
}

#[test]
fn a_string_of_300_bytes_survives_a_round_trip() {
    let text: String = std::iter::repeat('x').take(300).collect();
    let mut s = Serializer::new();
    text.serialize(&mut s).unwrap();
    assert_eq!(s.writer.len(), 302);
    assert_eq!(from_reader::<String>(&s.writer), Ok(text));
}

#[test]
fn a_length_that_needs_five_groups_is_read() {
    let len = 1usize << 28;
    let mut bytes = vec![0x80, 0x80, 0x80, 0x80, 0x01];
    bytes.resize(5 + len, b'a');
    bytes.push(0xEE);
    let mut reader: &[u8] = &bytes;
    let buf = read_bytes(&mut reader).unwrap();
    assert_eq!(buf.len(), len);
    assert!(buf.iter().all(|&b| b == b'a'));
    assert_eq!(reader, &[0xEE]);
}

#[test]
fn a_string_of_two_to_the_28_bytes_survives_a_round_trip() {
    let len = 1usize << 28;
    let payload = vec![b'z'; len];
    let mut s = Serializer::new();
    s.serialize_bytes(&payload).unwrap();
    assert_eq!(&s.writer[..5], &[0x80, 0x80, 0x80, 0x80, 0x01]);
    assert_eq!(s.writer.len(), len + 5);
    let text: String = from_reader(&s.writer).unwrap();
    assert_eq!(text.len(), len);
    assert!(text.bytes().all(|b| b == b'z'));
}

#[test]
fn five_full_groups_spell_a_length_below_two_to_the_35() {
    // 0x7F in each of five groups: 2^35 - 1 bytes announced, none there.
    let bytes = [0xFF, 0xFF, 0xFF, 0xFF, 0x7F];
    let mut reader: &[u8] = &bytes;
    assert_eq!(read_bytes(&mut reader), Err(Error::IOError));
}

#[test]
fn a_sixth_group_is_an_illegal_length() {
    let bytes = [0x80, 0x80, 0x80, 0x80, 0x80, 0x01, b'a'];
    let mut reader: &[u8] = &bytes;
    assert_eq!(read_bytes(&mut reader), Err(Error::IllegalStringLength));
    assert_eq!(from_reader::<String>(&bytes), Err(Error::IllegalStringLength));
}

#[test]
fn an_illegal_length_takes_five_bytes_off_the_source() {
    let bytes = [0x80, 0x81, 0x82, 0x83, 0x84, 0x05, b'a', b'b'];
    let mut reader: &[u8] = &bytes;
    assert_eq!(read_bytes(&mut reader), Err(Error::IllegalStringLength));
    assert_eq!(reader, &[0x05, b'a', b'b']);
}

#[test]
fn a_fifth_group_that_asks_for_more_is_refused_even_at_the_end() {
    let bytes = [0x81, 0x82, 0x83, 0x84, 0x85];
    let mut reader: &[u8] = &bytes;
    assert_eq!(read_bytes(&mut reader), Err(Error::IllegalStringLength));
}

#[test]
fn a_prefix_cut_short_is_an_io_error() {
    let mut reader: &[u8] = &[];
    assert_eq!(read_bytes(&mut reader), Err(Error::IOError));
    let mut reader: &[u8] = &[0x80];
    assert_eq!(read_bytes(&mut reader), Err(Error::IOError));
    let mut reader: &[u8] = &[0x80, 0x80, 0x80];
    assert_eq!(read_bytes(&mut reader), Err(Error::IOError));
}

#[test]
fn a_prefix_that_announces_more_than_is_there_is_an_io_error() {
    let mut reader: &[u8] = &[3, b'a', b'b'];
    assert_eq!(read_bytes(&mut reader), Err(Error::IOError));
}

#[test]
fn padded_prefixes_are_read_as_what_they_spell() {
    let mut reader: &[u8] = &[0x82, 0x00, b'a', b'b', b'c'];
    assert_eq!(read_bytes(&mut reader), Ok(vec![b'a', b'b']));
    assert_eq!(reader, &[b'c']);
}

#[test]
fn read_bytes_takes_the_bytes_and_leaves_the_rest() {
    let mut reader: &[u8] = &[2, 0xFF, 0xFE, 7, 8];
    assert_eq!(read_bytes(&mut reader), Ok(vec![0xFF, 0xFE]));
    assert_eq!(reader, &[7, 8]);
}

#[test]
fn text_that_is_not_utf8_is_an_illegal_string() {
    assert_eq!(from_reader::<String>(&[2, 0xC3, 0x28]), Err(Error::IllegalString));
    assert_eq!(from_reader::<String>(&[1, 0xFF]), Err(Error::IllegalString));
    let mut d = Deserializer::new(&[1, 0x80]);
    assert_eq!(d.deserialize_str(), Err(Error::IllegalString));
}

#[test]
fn byte_strings_need_not_be_utf8() {
    let mut d = Deserializer::new(&[2, 0xC3, 0x28, 9]);
    assert_eq!(d.deserialize_bytes(), Ok(vec![0xC3, 0x28]));
    assert_eq!(d.reader, &[9]);
    let mut d = Deserializer::new(&[1, 0xFF]);
    assert_eq!(d.deserialize_byte_buf(), Ok(vec![0xFF]));
}

#[test]
fn str_and_string_read_alike() {
    let bytes = [3, b'a', b'b', b'c'];
    let mut d = Deserializer::new(&bytes);
    assert_eq!(d.deserialize_str(), Ok(String::from("abc")));
    let mut d = Deserializer::new(&bytes);
    assert_eq!(d.deserialize_string(), Ok(String::from("abc")));
}
