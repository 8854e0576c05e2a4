//! The collapsed error model: every stream failure is reduced to one of two
//! sentinel outcomes, `BadEncoding` for a failed write and `BadDecoding` for a
//! failed read (short reads included). No further detail survives this layer.

use vstd::prelude::*;

verus! {

/// The two sentinel failure classifications of the codec. A value of this
/// enum says only in which direction an operation failed, never why.
#[derive(Clone, Copy, Debug, PartialEq, Eq, Structural)]
pub enum EncodingError {
    /// A write to the stream failed.
    BadEncoding,
    /// A read from the stream failed, a short read included.
    BadDecoding,
}

/// Every codec operation yields its value or one of the two sentinels.
pub type EncodingResult<T> = Result<T, EncodingError>;

/// Declares `std::io::Error` so that the translation functions below can
/// take a raw I/O outcome; the value itself stays opaque and is discarded.
#[verifier::external_type_specification]
#[verifier::external_body]
pub struct ExIoError(std::io::Error);

/// Collapses the outcome of a raw stream write into an `EncodingResult`:
/// a successful write keeps its byte count, any failure becomes the
/// `BadEncoding` sentinel.
pub fn process_encode_io_result(result: Result<usize, std::io::Error>) -> (r: EncodingResult<
    usize,
>)
    ensures
        result matches Ok(n) ==> r matches Ok(m) && m == n,
        result matches Err(_) ==> r matches Err(e) && e == EncodingError::BadEncoding,
{
    match result {
        Ok(n) => Ok(n),
        Err(_) => Err(EncodingError::BadEncoding),
    }
}

/// Collapses the outcome of a raw stream read into an `EncodingResult`:
/// a successful read keeps its value, any failure becomes the
/// `BadDecoding` sentinel.
pub fn process_decode_io_result<T>(result: Result<T, std::io::Error>) -> (r: EncodingResult<T>)
    ensures
        result matches Ok(v) ==> r matches Ok(w) && w == v,
        result matches Err(_) ==> r matches Err(e) && e == EncodingError::BadDecoding,
{
    match result {
        Ok(v) => Ok(v),
        Err(_) => Err(EncodingError::BadDecoding),
    }
}

} // verus!
