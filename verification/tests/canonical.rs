use mids_codec::netbinary::array_hack;
use mids_codec::netbinary::{from_reader, Deserializer, Serializer, Wire};

fn rewritten<T: Wire>(bytes: &[u8]) -> Vec<u8> {
    let value: T = from_reader(bytes).unwrap();
    let mut s = Serializer::new();
    value.serialize(&mut s).unwrap();
    s.writer
}

#[test]
fn what_the_writer_wrote_is_rewritten_byte_for_byte() {
    let bytes = vec![
        2, 0, 0, 0, // three pairs
        1, b'a', 1, 0xFF, 0xFF, 0xFF, 0xFF, // ("a", true, [])
        0, 0, 0xFF, 0xFF, 0xFF, 0xFF, // ("", false, [])
        2, b'b', b'c', 1, 1, 0, 0, 0, 7, 0, 9, 0, // ("bc", true, [7, 9])
    ];
    assert_eq!(rewritten::<Vec<(String, (bool, Vec<u16>))>>(&bytes), bytes);
}

#[test]
fn a_true_that_is_not_one_is_rewritten_as_one() {
    assert_eq!(rewritten::<bool>(&[2]), vec![1]);
    assert_eq!(rewritten::<bool>(&[0xFF]), vec![1]);
    assert_eq!(rewritten::<bool>(&[1]), vec![1]);
    assert_eq!(rewritten::<bool>(&[0]), vec![0]);
}

#[test]
fn a_padded_prefix_is_rewritten_without_the_padding() {
    assert_eq!(rewritten::<String>(&[0x82, 0x00, b'a', b'b']), vec![2, b'a', b'b']);
    assert_eq!(rewritten::<String>(&[0x80, 0x80, 0x00]), vec![0]);
}

#[test]
fn a_first_length_that_is_off_is_rewritten_as_the_count() {
    let bytes = [9, 0, 0, 0, 1, 0, 0, 0, 5, 6];
    let mut d = Deserializer::new(&bytes);
    let values = array_hack::deserialize::<u8>(&mut d).unwrap();
    let mut s = Serializer::new();
    array_hack::serialize(&values, &mut s).unwrap();
    assert_eq!(s.writer, vec![2, 0, 0, 0, 1, 0, 0, 0, 5, 6]);
}
