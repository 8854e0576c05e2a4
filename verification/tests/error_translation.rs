//! Tests for the error-translation layer: raw I/O outcomes collapse to the
//! two sentinels, and successful outcomes pass through unchanged.

use binary_codec::EncodingError;
use binary_codec::process_decode_io_result;
use binary_codec::process_encode_io_result;

fn io_failure() -> std::io::Error {
    std::io::Error::from(std::io::ErrorKind::UnexpectedEof)
}

#[test]
fn encode_success_keeps_count() {
    assert_eq!(process_encode_io_result(Ok(17)), Ok(17));
}

#[test]
fn encode_failure_collapses_to_bad_encoding() {
    assert_eq!(
        process_encode_io_result(Err(io_failure())),
        Err(EncodingError::BadEncoding)
    );
}

#[test]
fn decode_success_keeps_value() {
    assert_eq!(process_decode_io_result::<u32>(Ok(0xABCD)), Ok(0xABCD));
}

#[test]
fn decode_failure_collapses_to_bad_decoding() {
    assert_eq!(
        process_decode_io_result::<u32>(Err(io_failure())),
        Err(EncodingError::BadDecoding)
    );
}

#[test]
fn sentinels_are_distinct() {
    assert_ne!(EncodingError::BadEncoding, EncodingError::BadDecoding);
}
