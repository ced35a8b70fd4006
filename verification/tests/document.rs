use mids_codec::netbinary::{read_document, write_document, Error};

#[test]
fn minimal_document_encodes_to_the_expected_bytes() {
    let record: (i32, Vec<i8>) = (7, vec![1, 2, 3]);
    let mut bytes = Vec::new();
    write_document(&mut bytes, "TEST", &record).unwrap();
    assert_eq!(
        bytes,
        vec![
            0x04, 0x54, 0x45, 0x53, 0x54, 0x07, 0x00, 0x00, 0x00, 0x02, 0x00, 0x00, 0x00, 0x01,
            0x02, 0x03
        ]
    );
}

#[test]
fn minimal_document_decodes_to_the_record() {
    let bytes = [
        0x04, 0x54, 0x45, 0x53, 0x54, 0x07, 0x00, 0x00, 0x00, 0x02, 0x00, 0x00, 0x00, 0x01, 0x02,
        0x03,
    ];
    let record: (i32, Vec<i8>) = read_document(&bytes, "TEST").unwrap();
    assert_eq!(record, (7, vec![1, 2, 3]));
}

#[test]
fn wrong_magic_is_refused_before_the_payload() {
    let bytes = [0x04, 0x54, 0x45, 0x53, 0x58, 0x07, 0x00, 0x00, 0x00];
    let result: Result<(i32, Vec<i8>), Error> = read_document(&bytes, "TEST");
    assert_eq!(result, Err(Error::FormatMismatch));
}
