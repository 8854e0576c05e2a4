//! A little-endian binary codec: fixed-width scalar encode/decode and
//! length-prefixed optional arrays, with a two-sentinel error model.
//!
//! Scalars are written in little-endian byte order at their natural width.
//! An optional array is framed by a 4-byte signed length prefix: `-1` means
//! the array is absent, a count `n >= 0` means it is present with `n`
//! elements, encoded back to back with no padding. Absent and empty arrays
//! therefore stay distinct on the wire.

pub mod arrays;
pub mod encoder;
pub mod errors;
pub mod scalars;
pub mod stream;
pub mod wire;

pub use arrays::byte_len_array;
pub use arrays::read_array;
pub use arrays::write_array;
pub use encoder::BinaryEncoder;
pub use errors::EncodingError;
pub use errors::EncodingResult;
pub use errors::process_decode_io_result;
pub use errors::process_encode_io_result;
pub use scalars::read_bytes;
pub use scalars::read_i16;
pub use scalars::read_i32;
pub use scalars::read_i64;
pub use scalars::read_u16;
pub use scalars::read_u32;
pub use scalars::read_u64;
pub use scalars::read_u8;
pub use scalars::write_i16;
pub use scalars::write_i32;
pub use scalars::write_i64;
pub use scalars::write_u16;
pub use scalars::write_u32;
pub use scalars::write_u64;
pub use scalars::write_u8;
pub use stream::ByteReader;
pub use stream::ByteWriter;
