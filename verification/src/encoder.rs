//! The codec contract: a `BinaryEncoder` type knows its serialized byte
//! length, encodes itself onto a stream and decodes a fresh instance from a
//! stream. The contract pins every implementation to a single spec-level
//! byte image, `wire`, so that composite codecs (such as the array codec)
//! can be verified once, for every conforming element type.

use crate::errors::EncodingError;
use crate::errors::EncodingResult;
use crate::scalars::read_i16;
use crate::scalars::read_i32;
use crate::scalars::read_i64;
use crate::scalars::read_u16;
use crate::scalars::read_u32;
use crate::scalars::read_u64;
use crate::scalars::read_u8;
use crate::scalars::write_i16;
use crate::scalars::write_i32;
use crate::scalars::write_i64;
use crate::scalars::write_u16;
use crate::scalars::write_u32;
use crate::scalars::write_u64;
use crate::scalars::write_u8;
use crate::stream::ByteReader;
use crate::stream::ByteWriter;
use crate::wire::lemma_round_trip_i16;
use crate::wire::lemma_round_trip_i32;
use crate::wire::lemma_round_trip_i64;
use crate::wire::lemma_round_trip_u16;
use crate::wire::lemma_round_trip_u32;
use crate::wire::lemma_round_trip_u64;
use crate::wire::lemma_round_trip_u8;
use crate::wire::starts_with;
use crate::wire::val_i16;
use crate::wire::val_i32;
use crate::wire::val_i64;
use crate::wire::val_u16;
use crate::wire::val_u32;
use crate::wire::val_u64;
use crate::wire::val_u8;
use crate::wire::wire_i16;
use crate::wire::wire_i32;
use crate::wire::wire_i64;
use crate::wire::wire_u16;
use crate::wire::wire_u32;
use crate::wire::wire_u64;
use crate::wire::wire_u8;
use vstd::prelude::*;

verus! {

/// A type that can report its serialized byte length, encode itself to a
/// stream and be reconstructed by decoding from a stream.
///
/// `wire` is the type's canonical byte image. Encoding appends exactly
/// `wire` to the stream; decoding succeeds exactly when the stream's
/// remaining bytes begin with the image of some value, consumes exactly that
/// image and returns that value. `wire_unambiguous` obliges every
/// implementation to an image that no two distinct values share as prefixes
/// of one stream, which is what makes decoding deterministic.
pub trait BinaryEncoder: Sized {
    /// The canonical encoding of this value.
    spec fn wire(&self) -> Seq<u8>;

    /// The serialized byte length of this value.
    fn byte_len(&self) -> (r: usize)
        ensures
            r == self.wire().len(),
    ;

    /// Appends this value's encoding to the stream and returns the number of
    /// bytes written.
    fn encode(&self, stream: &mut ByteWriter) -> (r: EncodingResult<usize>)
        ensures
            final(stream)@ == old(stream)@ + self.wire(),
            r matches Ok(n) && n == self.wire().len(),
    ;

    /// Decodes one value from the stream. Succeeds exactly when the
    /// remaining bytes begin with the encoding of some value; on failure the
    /// error is the `BadDecoding` sentinel.
    fn decode(stream: &mut ByteReader) -> (r: EncodingResult<Self>)
        requires
            old(stream).wf(),
        ensures
            final(stream).wf(),
            final(stream).data() == old(stream).data(),
            old(stream).pos() <= final(stream).pos(),
            r matches Ok(v) ==> (starts_with(old(stream).remaining(), v.wire())
                && final(stream).pos() == old(stream).pos() + v.wire().len()),
            r matches Err(e) ==> e == EncodingError::BadDecoding,
            (exists|v: Self| #[trigger] starts_with(old(stream).remaining(), v.wire()))
                ==> r matches Ok(_),
    ;

    /// No two distinct values have encodings that are both prefixes of the
    /// same byte sequence.
    proof fn wire_unambiguous(v1: Self, v2: Self, s: Seq<u8>)
        requires
            starts_with(s, v1.wire()),
            starts_with(s, v2.wire()),
        ensures
            v1 == v2,
    ;
}

impl BinaryEncoder for u8 {
    open spec fn wire(&self) -> Seq<u8> {
        wire_u8(*self)
    }

    fn byte_len(&self) -> (r: usize) {
        1
    }

    fn encode(&self, stream: &mut ByteWriter) -> (r: EncodingResult<usize>) {
        write_u8(stream, *self)
    }

    fn decode(stream: &mut ByteReader) -> (r: EncodingResult<u8>) {
        let r = read_u8(stream);
        proof {
            let rem = old(stream).remaining();
            if rem.len() >= 1 {
                lemma_round_trip_u8(val_u8(rem.take(1)), rem.take(1));
            } else {
                assert forall|v: u8| !starts_with(rem, v.wire()) by {
                    lemma_round_trip_u8(v, rem);
                }
            }
        }
        r
    }

    proof fn wire_unambiguous(v1: u8, v2: u8, s: Seq<u8>) {
        lemma_round_trip_u8(v1, s);
        lemma_round_trip_u8(v2, s);
        assert(val_u8(wire_u8(v1)) == val_u8(wire_u8(v2)));
    }
}

impl BinaryEncoder for u16 {
    open spec fn wire(&self) -> Seq<u8> {
        wire_u16(*self)
    }

    fn byte_len(&self) -> (r: usize) {
        proof {
            lemma_round_trip_u16(*self, Seq::<u8>::empty());
        }
        2
    }

    fn encode(&self, stream: &mut ByteWriter) -> (r: EncodingResult<usize>) {
        proof {
            lemma_round_trip_u16(*self, Seq::<u8>::empty());
        }
        write_u16(stream, *self)
    }

    fn decode(stream: &mut ByteReader) -> (r: EncodingResult<u16>) {
        let r = read_u16(stream);
        proof {
            let rem = old(stream).remaining();
            if rem.len() >= 2 {
                lemma_round_trip_u16(val_u16(rem.take(2)), rem.take(2));
            } else {
                assert forall|v: u16| !starts_with(rem, v.wire()) by {
                    lemma_round_trip_u16(v, rem);
                }
            }
        }
        r
    }

    proof fn wire_unambiguous(v1: u16, v2: u16, s: Seq<u8>) {
        lemma_round_trip_u16(v1, s);
        lemma_round_trip_u16(v2, s);
        assert(val_u16(wire_u16(v1)) == val_u16(wire_u16(v2)));
    }
}

impl BinaryEncoder for i16 {
    open spec fn wire(&self) -> Seq<u8> {
        wire_i16(*self)
    }

    fn byte_len(&self) -> (r: usize) {
        proof {
            lemma_round_trip_i16(*self, Seq::<u8>::empty());
        }
        2
    }

    fn encode(&self, stream: &mut ByteWriter) -> (r: EncodingResult<usize>) {
        proof {
            lemma_round_trip_i16(*self, Seq::<u8>::empty());
        }
        write_i16(stream, *self)
    }

    fn decode(stream: &mut ByteReader) -> (r: EncodingResult<i16>) {
        let r = read_i16(stream);
        proof {
            let rem = old(stream).remaining();
            if rem.len() >= 2 {
                lemma_round_trip_i16(val_i16(rem.take(2)), rem.take(2));
            } else {
                assert forall|v: i16| !starts_with(rem, v.wire()) by {
                    lemma_round_trip_i16(v, rem);
                }
            }
        }
        r
    }

    proof fn wire_unambiguous(v1: i16, v2: i16, s: Seq<u8>) {
        lemma_round_trip_i16(v1, s);
        lemma_round_trip_i16(v2, s);
        assert(val_i16(wire_i16(v1)) == val_i16(wire_i16(v2)));
    }
}

impl BinaryEncoder for u32 {
    open spec fn wire(&self) -> Seq<u8> {
        wire_u32(*self)
    }

    fn byte_len(&self) -> (r: usize) {
        proof {
            lemma_round_trip_u32(*self, Seq::<u8>::empty());
        }
        4
    }

    fn encode(&self, stream: &mut ByteWriter) -> (r: EncodingResult<usize>) {
        proof {
            lemma_round_trip_u32(*self, Seq::<u8>::empty());
        }
        write_u32(stream, *self)
    }

    fn decode(stream: &mut ByteReader) -> (r: EncodingResult<u32>) {
        let r = read_u32(stream);
        proof {
            let rem = old(stream).remaining();
            if rem.len() >= 4 {
                lemma_round_trip_u32(val_u32(rem.take(4)), rem.take(4));
            } else {
                assert forall|v: u32| !starts_with(rem, v.wire()) by {
                    lemma_round_trip_u32(v, rem);
                }
            }
        }
        r
    }

    proof fn wire_unambiguous(v1: u32, v2: u32, s: Seq<u8>) {
        lemma_round_trip_u32(v1, s);
        lemma_round_trip_u32(v2, s);
        assert(val_u32(wire_u32(v1)) == val_u32(wire_u32(v2)));
    }
}

impl BinaryEncoder for i32 {
    open spec fn wire(&self) -> Seq<u8> {
        wire_i32(*self)
    }

    fn byte_len(&self) -> (r: usize) {
        proof {
            lemma_round_trip_i32(*self, Seq::<u8>::empty());
        }
        4
    }

    fn encode(&self, stream: &mut ByteWriter) -> (r: EncodingResult<usize>) {
        proof {
            lemma_round_trip_i32(*self, Seq::<u8>::empty());
        }
        write_i32(stream, *self)
    }

    fn decode(stream: &mut ByteReader) -> (r: EncodingResult<i32>) {
        let r = read_i32(stream);
        proof {
            let rem = old(stream).remaining();
            if rem.len() >= 4 {
                lemma_round_trip_i32(val_i32(rem.take(4)), rem.take(4));
            } else {
                assert forall|v: i32| !starts_with(rem, v.wire()) by {
                    lemma_round_trip_i32(v, rem);
                }
            }
        }
        r
    }

    proof fn wire_unambiguous(v1: i32, v2: i32, s: Seq<u8>) {
        lemma_round_trip_i32(v1, s);
        lemma_round_trip_i32(v2, s);
        assert(val_i32(wire_i32(v1)) == val_i32(wire_i32(v2)));
    }
}

impl BinaryEncoder for u64 {
    open spec fn wire(&self) -> Seq<u8> {
        wire_u64(*self)
    }

    fn byte_len(&self) -> (r: usize) {
        proof {
            lemma_round_trip_u64(*self, Seq::<u8>::empty());
        }
        8
    }

    fn encode(&self, stream: &mut ByteWriter) -> (r: EncodingResult<usize>) {
        proof {
            lemma_round_trip_u64(*self, Seq::<u8>::empty());
        }
        write_u64(stream, *self)
    }

    fn decode(stream: &mut ByteReader) -> (r: EncodingResult<u64>) {
        let r = read_u64(stream);
        proof {
            let rem = old(stream).remaining();
            if rem.len() >= 8 {
                lemma_round_trip_u64(val_u64(rem.take(8)), rem.take(8));
            } else {
                assert forall|v: u64| !starts_with(rem, v.wire()) by {
                    lemma_round_trip_u64(v, rem);
                }
            }
        }
        r
    }

    proof fn wire_unambiguous(v1: u64, v2: u64, s: Seq<u8>) {
        lemma_round_trip_u64(v1, s);
        lemma_round_trip_u64(v2, s);
        assert(val_u64(wire_u64(v1)) == val_u64(wire_u64(v2)));
    }
}

impl BinaryEncoder for i64 {
    open spec fn wire(&self) -> Seq<u8> {
        wire_i64(*self)
    }

    fn byte_len(&self) -> (r: usize) {
        proof {
            lemma_round_trip_i64(*self, Seq::<u8>::empty());
        }
        8
    }

    fn encode(&self, stream: &mut ByteWriter) -> (r: EncodingResult<usize>) {
        proof {
            lemma_round_trip_i64(*self, Seq::<u8>::empty());
        }
        write_i64(stream, *self)
    }

    fn decode(stream: &mut ByteReader) -> (r: EncodingResult<i64>) {
        let r = read_i64(stream);
        proof {
            let rem = old(stream).remaining();
            if rem.len() >= 8 {
                lemma_round_trip_i64(val_i64(rem.take(8)), rem.take(8));
            } else {
                assert forall|v: i64| !starts_with(rem, v.wire()) by {
                    lemma_round_trip_i64(v, rem);
                }
            }
        }
        r
    }

    proof fn wire_unambiguous(v1: i64, v2: i64, s: Seq<u8>) {
        lemma_round_trip_i64(v1, s);
        lemma_round_trip_i64(v2, s);
        assert(val_i64(wire_i64(v1)) == val_i64(wire_i64(v2)));
    }
}

} // verus!
