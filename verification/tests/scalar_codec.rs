//! Round-trip, exact-byte and truncated-stream tests for the scalar codec.

use binary_codec::ByteReader;
use binary_codec::ByteWriter;
use binary_codec::EncodingError;
use binary_codec::read_bytes;
use binary_codec::read_i16;
use binary_codec::read_i32;
use binary_codec::read_i64;
use binary_codec::read_u16;
use binary_codec::read_u32;
use binary_codec::read_u64;
use binary_codec::read_u8;
use binary_codec::write_i16;
use binary_codec::write_i32;
use binary_codec::write_i64;
use binary_codec::write_u16;
use binary_codec::write_u32;
use binary_codec::write_u64;
use binary_codec::write_u8;

#[test]
fn round_trip_u8() {
    for v in [0u8, 1, 0x7F, 0x80, 0xFF] {
        let mut w = ByteWriter::new();
        assert_eq!(write_u8(&mut w, v), Ok(1));
        let mut r = ByteReader::new(w.into_bytes());
        assert_eq!(read_u8(&mut r), Ok(v));
    }
}

#[test]
fn round_trip_u16() {
    for v in [0u16, 1, 0x00FF, 0x0100, 0x7FFF, 0x8000, u16::MAX] {
        let mut w = ByteWriter::new();
        assert_eq!(write_u16(&mut w, v), Ok(2));
        let mut r = ByteReader::new(w.into_bytes());
        assert_eq!(read_u16(&mut r), Ok(v));
    }
}

#[test]
fn round_trip_i16() {
    for v in [0i16, 1, -1, i16::MIN, i16::MAX, -257] {
        let mut w = ByteWriter::new();
        assert_eq!(write_i16(&mut w, v), Ok(2));
        let mut r = ByteReader::new(w.into_bytes());
        assert_eq!(read_i16(&mut r), Ok(v));
    }
}

#[test]
fn round_trip_u32() {
    for v in [0u32, 1, 0xDEAD_BEEF, u32::MAX] {
        let mut w = ByteWriter::new();
        assert_eq!(write_u32(&mut w, v), Ok(4));
        let mut r = ByteReader::new(w.into_bytes());
        assert_eq!(read_u32(&mut r), Ok(v));
    }
}

#[test]
fn round_trip_i32() {
    for v in [0i32, 1, -1, i32::MIN, i32::MAX, -123_456_789] {
        let mut w = ByteWriter::new();
        assert_eq!(write_i32(&mut w, v), Ok(4));
        let mut r = ByteReader::new(w.into_bytes());
        assert_eq!(read_i32(&mut r), Ok(v));
    }
}

#[test]
fn round_trip_u64() {
    for v in [0u64, 1, 0x0123_4567_89AB_CDEF, u64::MAX] {
        let mut w = ByteWriter::new();
        assert_eq!(write_u64(&mut w, v), Ok(8));
        let mut r = ByteReader::new(w.into_bytes());
        assert_eq!(read_u64(&mut r), Ok(v));
    }
}

#[test]
fn round_trip_i64() {
    for v in [0i64, 1, -1, i64::MIN, i64::MAX] {
        let mut w = ByteWriter::new();
        assert_eq!(write_i64(&mut w, v), Ok(8));
        let mut r = ByteReader::new(w.into_bytes());
        assert_eq!(read_i64(&mut r), Ok(v));
    }
}

#[test]
fn round_trip_f32_bits() {
    for v in [0.0f32, -0.0, 1.5, f32::NAN, f32::INFINITY, f32::NEG_INFINITY, f32::MIN, f32::MAX] {
        let mut w = ByteWriter::new();
        assert_eq!(write_u32(&mut w, v.to_bits()), Ok(4));
        let mut r = ByteReader::new(w.into_bytes());
        let back = f32::from_bits(read_u32(&mut r).unwrap());
        assert_eq!(back.to_bits(), v.to_bits());
    }
}

#[test]
fn round_trip_f64_bits() {
    for v in [0.0f64, -0.0, 1.5, f64::NAN, f64::INFINITY, f64::NEG_INFINITY, f64::MIN, f64::MAX] {
        let mut w = ByteWriter::new();
        assert_eq!(write_u64(&mut w, v.to_bits()), Ok(8));
        let mut r = ByteReader::new(w.into_bytes());
        let back = f64::from_bits(read_u64(&mut r).unwrap());
        assert_eq!(back.to_bits(), v.to_bits());
    }
}

#[test]
fn little_endian_exact_bytes() {
    let mut w = ByteWriter::new();
    write_u16(&mut w, 0x0102).unwrap();
    write_u32(&mut w, 0x0304_0506).unwrap();
    write_u64(&mut w, 0x0708_090A_0B0C_0D0E).unwrap();
    assert_eq!(
        w.as_bytes().as_slice(),
        &[0x02, 0x01, 0x06, 0x05, 0x04, 0x03, 0x0E, 0x0D, 0x0C, 0x0B, 0x0A, 0x09, 0x08, 0x07]
    );
}

#[test]
fn signed_negative_one_is_all_ones() {
    let mut w = ByteWriter::new();
    assert_eq!(write_i32(&mut w, -1), Ok(4));
    assert_eq!(w.as_bytes().as_slice(), &[0xFF, 0xFF, 0xFF, 0xFF]);
}

#[test]
fn truncated_scalar_reads_fail() {
    let mut r = ByteReader::new(vec![]);
    assert_eq!(read_u8(&mut r), Err(EncodingError::BadDecoding));

    let mut r = ByteReader::new(vec![0x01]);
    assert_eq!(read_u16(&mut r), Err(EncodingError::BadDecoding));
    assert_eq!(read_i16(&mut r), Err(EncodingError::BadDecoding));

    let mut r = ByteReader::new(vec![0x01, 0x02, 0x03]);
    assert_eq!(read_u32(&mut r), Err(EncodingError::BadDecoding));
    assert_eq!(read_i32(&mut r), Err(EncodingError::BadDecoding));

    let mut r = ByteReader::new(vec![0x01, 0x02, 0x03, 0x04, 0x05, 0x06, 0x07]);
    assert_eq!(read_u64(&mut r), Err(EncodingError::BadDecoding));
    assert_eq!(read_i64(&mut r), Err(EncodingError::BadDecoding));
}

#[test]
fn truncated_read_consumes_nothing() {
    let mut r = ByteReader::new(vec![0x2A]);
    assert_eq!(read_u32(&mut r), Err(EncodingError::BadDecoding));
    // The failed wide read left the single byte in place.
    assert_eq!(read_u8(&mut r), Ok(0x2A));
}

#[test]
fn read_bytes_fills_buffer_exactly() {
    let mut r = ByteReader::new(vec![0x10, 0x20, 0x30, 0x40]);
    let mut buf = vec![0u8; 3];
    assert_eq!(read_bytes(&mut r, &mut buf), Ok(3));
    assert_eq!(buf, vec![0x10, 0x20, 0x30]);
    assert_eq!(read_u8(&mut r), Ok(0x40));
}

#[test]
fn read_bytes_short_read_fails() {
    let mut r = ByteReader::new(vec![0x10, 0x20]);
    let mut buf = vec![0xAAu8; 3];
    assert_eq!(read_bytes(&mut r, &mut buf), Err(EncodingError::BadDecoding));
    // The buffer and the stream are untouched by the failed read.
    assert_eq!(buf, vec![0xAA, 0xAA, 0xAA]);
    assert_eq!(read_u8(&mut r), Ok(0x10));
}
