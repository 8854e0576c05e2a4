//! The primitive codec: fixed-width encode and decode for each scalar
//! integer type, little-endian, exactly `size_of` the type per value. A
//! decode that finds fewer bytes than the type's width fails with
//! `BadDecoding` and consumes nothing; no partial value is ever returned.

use crate::errors::EncodingError;
use crate::errors::EncodingResult;
use crate::stream::ByteReader;
use crate::stream::ByteWriter;
use crate::wire::i16_to_u16;
use crate::wire::i32_to_u32;
use crate::wire::i64_to_u64;
use crate::wire::u16_to_i16;
use crate::wire::u32_to_i32;
use crate::wire::u64_to_i64;
use crate::wire::val_i16;
use crate::wire::val_i32;
use crate::wire::val_i64;
use crate::wire::val_u16;
use crate::wire::val_u32;
use crate::wire::val_u64;
use crate::wire::val_u8;
use crate::wire::wire_i16;
use crate::wire::wire_i32;
use crate::wire::wire_i64;
use crate::wire::wire_u16;
use crate::wire::wire_u32;
use crate::wire::wire_u64;
use crate::wire::wire_u8;
use vstd::bytes::u16_from_le_bytes;
use vstd::bytes::u16_to_le_bytes;
use vstd::bytes::u32_from_le_bytes;
use vstd::bytes::u32_to_le_bytes;
use vstd::bytes::u64_from_le_bytes;
use vstd::bytes::u64_to_le_bytes;
use vstd::prelude::*;

verus! {

/// Writes one byte.
pub fn write_u8(stream: &mut ByteWriter, value: u8) -> (r: EncodingResult<usize>)
    ensures
        final(stream)@ == old(stream)@ + wire_u8(value),
        r matches Ok(n) && n == 1,
{
    let n = stream.push_byte(value);
    proof {
        assert(old(stream)@.push(value) =~= old(stream)@ + wire_u8(value));
    }
    Ok(n)
}

/// Writes an `i16` as two little-endian bytes (two's complement).
pub fn write_i16(stream: &mut ByteWriter, value: i16) -> (r: EncodingResult<usize>)
    ensures
        final(stream)@ == old(stream)@ + wire_i16(value),
        r matches Ok(n) && n == 2,
{
    let bytes = u16_to_le_bytes(i16_to_u16(value));
    Ok(stream.append_bytes(bytes))
}

/// Writes a `u16` as two little-endian bytes.
pub fn write_u16(stream: &mut ByteWriter, value: u16) -> (r: EncodingResult<usize>)
    ensures
        final(stream)@ == old(stream)@ + wire_u16(value),
        r matches Ok(n) && n == 2,
{
    let bytes = u16_to_le_bytes(value);
    Ok(stream.append_bytes(bytes))
}

/// Writes an `i32` as four little-endian bytes (two's complement).
pub fn write_i32(stream: &mut ByteWriter, value: i32) -> (r: EncodingResult<usize>)
    ensures
        final(stream)@ == old(stream)@ + wire_i32(value),
        r matches Ok(n) && n == 4,
{
    let bytes = u32_to_le_bytes(i32_to_u32(value));
    Ok(stream.append_bytes(bytes))
}

/// Writes a `u32` as four little-endian bytes.
pub fn write_u32(stream: &mut ByteWriter, value: u32) -> (r: EncodingResult<usize>)
    ensures
        final(stream)@ == old(stream)@ + wire_u32(value),
        r matches Ok(n) && n == 4,
{
    let bytes = u32_to_le_bytes(value);
    Ok(stream.append_bytes(bytes))
}

/// Writes an `i64` as eight little-endian bytes (two's complement).
pub fn write_i64(stream: &mut ByteWriter, value: i64) -> (r: EncodingResult<usize>)
    ensures
        final(stream)@ == old(stream)@ + wire_i64(value),
        r matches Ok(n) && n == 8,
{
    let bytes = u64_to_le_bytes(i64_to_u64(value));
    Ok(stream.append_bytes(bytes))
}

/// Writes a `u64` as eight little-endian bytes.
pub fn write_u64(stream: &mut ByteWriter, value: u64) -> (r: EncodingResult<usize>)
    ensures
        final(stream)@ == old(stream)@ + wire_u64(value),
        r matches Ok(n) && n == 8,
{
    let bytes = u64_to_le_bytes(value);
    Ok(stream.append_bytes(bytes))
}

/// Fills the caller's buffer exactly with the next `buf.len()` bytes of the
/// stream. A short read is a decoding error: the stream and the buffer are
/// then left unchanged.
pub fn read_bytes(stream: &mut ByteReader, buf: &mut Vec<u8>) -> (r: EncodingResult<usize>)
    requires
        old(stream).wf(),
    ensures
        final(stream).wf(),
        final(stream).data() == old(stream).data(),
        final(buf)@.len() == old(buf)@.len(),
        old(stream).remaining().len() >= old(buf)@.len() ==> (r matches Ok(n) && n == old(buf)@.len() && final(buf)@ == old(stream).remaining().take(old(buf)@.len() as int) && final(stream).pos() == old(stream).pos() + old(buf)@.len()),
        old(stream).remaining().len() < old(buf)@.len() ==> (r matches Err(e) && e
            == EncodingError::BadDecoding && final(buf)@ == old(buf)@ && final(stream).pos() == old(stream).pos()),
{
    let n = buf.len();
    match stream.read_chunk(n) {
        None => Err(EncodingError::BadDecoding),
        Some(c) => {
            *buf = c;
            Ok(n)
        },
    }
}

/// Reads one byte.
pub fn read_u8(stream: &mut ByteReader) -> (r: EncodingResult<u8>)
    requires
        old(stream).wf(),
    ensures
        final(stream).wf(),
        final(stream).data() == old(stream).data(),
        old(stream).remaining().len() >= 1 ==> (r matches Ok(v) && v == val_u8(
            old(stream).remaining().take(1),
        ) && final(stream).pos() == old(stream).pos() + 1),
        old(stream).remaining().len() < 1 ==> (r matches Err(e) && e == EncodingError::BadDecoding
            && final(stream).pos() == old(stream).pos()),
{
    match stream.read_chunk(1) {
        None => Err(EncodingError::BadDecoding),
        Some(c) => Ok(c[0]),
    }
}

/// Reads an `i16` from two little-endian bytes (two's complement).
pub fn read_i16(stream: &mut ByteReader) -> (r: EncodingResult<i16>)
    requires
        old(stream).wf(),
    ensures
        final(stream).wf(),
        final(stream).data() == old(stream).data(),
        old(stream).remaining().len() >= 2 ==> (r matches Ok(v) && v == val_i16(
            old(stream).remaining().take(2),
        ) && final(stream).pos() == old(stream).pos() + 2),
        old(stream).remaining().len() < 2 ==> (r matches Err(e) && e == EncodingError::BadDecoding
            && final(stream).pos() == old(stream).pos()),
{
    match stream.read_chunk(2) {
        None => Err(EncodingError::BadDecoding),
        Some(c) => Ok(u16_to_i16(u16_from_le_bytes(c.as_slice()))),
    }
}

/// Reads a `u16` from two little-endian bytes.
pub fn read_u16(stream: &mut ByteReader) -> (r: EncodingResult<u16>)
    requires
        old(stream).wf(),
    ensures
        final(stream).wf(),
        final(stream).data() == old(stream).data(),
        old(stream).remaining().len() >= 2 ==> (r matches Ok(v) && v == val_u16(
            old(stream).remaining().take(2),
        ) && final(stream).pos() == old(stream).pos() + 2),
        old(stream).remaining().len() < 2 ==> (r matches Err(e) && e == EncodingError::BadDecoding
            && final(stream).pos() == old(stream).pos()),
{
    match stream.read_chunk(2) {
        None => Err(EncodingError::BadDecoding),
        Some(c) => Ok(u16_from_le_bytes(c.as_slice())),
    }
}

/// Reads an `i32` from four little-endian bytes (two's complement).
pub fn read_i32(stream: &mut ByteReader) -> (r: EncodingResult<i32>)
    requires
        old(stream).wf(),
    ensures
        final(stream).wf(),
        final(stream).data() == old(stream).data(),
        old(stream).remaining().len() >= 4 ==> (r matches Ok(v) && v == val_i32(
            old(stream).remaining().take(4),
        ) && final(stream).pos() == old(stream).pos() + 4),
        old(stream).remaining().len() < 4 ==> (r matches Err(e) && e == EncodingError::BadDecoding
            && final(stream).pos() == old(stream).pos()),
{
    match stream.read_chunk(4) {
        None => Err(EncodingError::BadDecoding),
        Some(c) => Ok(u32_to_i32(u32_from_le_bytes(c.as_slice()))),
    }
}

/// Reads a `u32` from four little-endian bytes.
pub fn read_u32(stream: &mut ByteReader) -> (r: EncodingResult<u32>)
    requires
        old(stream).wf(),
    ensures
        final(stream).wf(),
        final(stream).data() == old(stream).data(),
        old(stream).remaining().len() >= 4 ==> (r matches Ok(v) && v == val_u32(
            old(stream).remaining().take(4),
        ) && final(stream).pos() == old(stream).pos() + 4),
        old(stream).remaining().len() < 4 ==> (r matches Err(e) && e == EncodingError::BadDecoding
            && final(stream).pos() == old(stream).pos()),
{
    match stream.read_chunk(4) {
        None => Err(EncodingError::BadDecoding),
        Some(c) => Ok(u32_from_le_bytes(c.as_slice())),
    }
}

/// Reads an `i64` from eight little-endian bytes (two's complement).
pub fn read_i64(stream: &mut ByteReader) -> (r: EncodingResult<i64>)
    requires
        old(stream).wf(),
    ensures
        final(stream).wf(),
        final(stream).data() == old(stream).data(),
        old(stream).remaining().len() >= 8 ==> (r matches Ok(v) && v == val_i64(
            old(stream).remaining().take(8),
        ) && final(stream).pos() == old(stream).pos() + 8),
        old(stream).remaining().len() < 8 ==> (r matches Err(e) && e == EncodingError::BadDecoding
            && final(stream).pos() == old(stream).pos()),
{
    match stream.read_chunk(8) {
        None => Err(EncodingError::BadDecoding),
        Some(c) => Ok(u64_to_i64(u64_from_le_bytes(c.as_slice()))),
    }
}

/// Reads a `u64` from eight little-endian bytes.
pub fn read_u64(stream: &mut ByteReader) -> (r: EncodingResult<u64>)
    requires
        old(stream).wf(),
    ensures
        final(stream).wf(),
        final(stream).data() == old(stream).data(),
        old(stream).remaining().len() >= 8 ==> (r matches Ok(v) && v == val_u64(
            old(stream).remaining().take(8),
        ) && final(stream).pos() == old(stream).pos() + 8),
        old(stream).remaining().len() < 8 ==> (r matches Err(e) && e == EncodingError::BadDecoding
            && final(stream).pos() == old(stream).pos()),
{
    match stream.read_chunk(8) {
        None => Err(EncodingError::BadDecoding),
        Some(c) => Ok(u64_from_le_bytes(c.as_slice())),
    }
}

} // verus!

