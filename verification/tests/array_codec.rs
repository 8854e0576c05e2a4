//! Tests for the length-prefixed array codec: the absent/empty distinction,
//! length accuracy, element order, and failure propagation.

use binary_codec::BinaryEncoder;
use binary_codec::ByteReader;
use binary_codec::ByteWriter;
use binary_codec::EncodingError;
use binary_codec::byte_len_array;
use binary_codec::read_array;
use binary_codec::write_array;

#[test]
fn absent_array_is_minus_one_prefix() {
    let values: Option<Vec<u16>> = None;
    let mut w = ByteWriter::new();
    assert_eq!(write_array(&mut w, &values), Ok(4));
    assert_eq!(w.as_bytes().as_slice(), &[0xFF, 0xFF, 0xFF, 0xFF]);
}

#[test]
fn empty_array_is_zero_prefix() {
    let values: Option<Vec<u16>> = Some(vec![]);
    let mut w = ByteWriter::new();
    assert_eq!(write_array(&mut w, &values), Ok(4));
    assert_eq!(w.as_bytes().as_slice(), &[0x00, 0x00, 0x00, 0x00]);
}

#[test]
fn absent_and_empty_encodings_differ_and_round_trip() {
    let absent: Option<Vec<u32>> = None;
    let empty: Option<Vec<u32>> = Some(vec![]);

    let mut w1 = ByteWriter::new();
    write_array(&mut w1, &absent).unwrap();
    let mut w2 = ByteWriter::new();
    write_array(&mut w2, &empty).unwrap();
    assert_ne!(w1.as_bytes(), w2.as_bytes());

    let mut r1 = ByteReader::new(w1.into_bytes());
    assert_eq!(read_array::<u32>(&mut r1), Ok(None));
    let mut r2 = ByteReader::new(w2.into_bytes());
    assert_eq!(read_array::<u32>(&mut r2), Ok(Some(vec![])));
}

#[test]
fn two_u16_elements_exact_bytes() {
    let values: Option<Vec<u16>> = Some(vec![1, 256]);
    let mut w = ByteWriter::new();
    assert_eq!(write_array(&mut w, &values), Ok(8));
    assert_eq!(
        w.as_bytes().as_slice(),
        &[0x02, 0x00, 0x00, 0x00, 0x01, 0x00, 0x00, 0x01]
    );
}

#[test]
fn populated_array_round_trips() {
    let values: Option<Vec<i64>> = Some(vec![i64::MIN, -1, 0, 7, i64::MAX]);
    let mut w = ByteWriter::new();
    write_array(&mut w, &values).unwrap();
    let mut r = ByteReader::new(w.into_bytes());
    assert_eq!(read_array::<i64>(&mut r), Ok(values));
}

#[test]
fn byte_len_matches_bytes_written() {
    let cases: Vec<Option<Vec<u32>>> =
        vec![None, Some(vec![]), Some(vec![42]), Some(vec![1, 2, 3, u32::MAX])];
    for values in cases {
        let mut w = ByteWriter::new();
        let written = write_array(&mut w, &values).unwrap();
        assert_eq!(byte_len_array(&values), written);
        assert_eq!(w.num_bytes(), written);
    }
}

#[test]
fn byte_len_array_exact_values() {
    let absent: Option<Vec<u16>> = None;
    assert_eq!(byte_len_array(&absent), 4);
    let empty: Option<Vec<u16>> = Some(vec![]);
    assert_eq!(byte_len_array(&empty), 4);
    let two: Option<Vec<u16>> = Some(vec![1, 256]);
    assert_eq!(byte_len_array(&two), 8);
}

#[test]
fn element_failure_discards_partial_array() {
    // Prefix declares two u16 elements but only one and a half follow.
    let mut r = ByteReader::new(vec![0x02, 0x00, 0x00, 0x00, 0x01, 0x00, 0x07]);
    assert_eq!(read_array::<u16>(&mut r), Err(EncodingError::BadDecoding));
}

#[test]
fn truncated_prefix_fails() {
    let mut r = ByteReader::new(vec![0x02, 0x00]);
    assert_eq!(read_array::<u16>(&mut r), Err(EncodingError::BadDecoding));
}

#[test]
fn negative_count_other_than_minus_one_fails() {
    // -2 as a little-endian prefix: not absent, not a valid count.
    let mut r = ByteReader::new(vec![0xFE, 0xFF, 0xFF, 0xFF]);
    assert_eq!(read_array::<u16>(&mut r), Err(EncodingError::BadDecoding));
}

#[test]
fn array_consumes_exactly_its_image() {
    let values: Option<Vec<u8>> = Some(vec![9, 8, 7]);
    let mut w = ByteWriter::new();
    write_array(&mut w, &values).unwrap();
    let mut bytes = w.into_bytes();
    bytes.push(0x5A);
    let mut r = ByteReader::new(bytes);
    assert_eq!(read_array::<u8>(&mut r), Ok(values));
    assert_eq!(binary_codec::read_u8(&mut r), Ok(0x5A));
}

#[test]
fn trait_byte_len_reports_widths() {
    assert_eq!(1u8.byte_len(), 1);
    assert_eq!(2i16.byte_len(), 2);
    assert_eq!(3u16.byte_len(), 2);
    assert_eq!(4i32.byte_len(), 4);
    assert_eq!(5u32.byte_len(), 4);
    assert_eq!(6i64.byte_len(), 8);
    assert_eq!(7u64.byte_len(), 8);
}

#[test]
fn trait_encode_decode_round_trip() {
    let mut w = ByteWriter::new();
    assert_eq!((-2i32).encode(&mut w), Ok(4));
    assert_eq!(0xBEEFu16.encode(&mut w), Ok(2));
    let mut r = ByteReader::new(w.into_bytes());
    assert_eq!(i32::decode(&mut r), Ok(-2));
    assert_eq!(u16::decode(&mut r), Ok(0xBEEF));
}
