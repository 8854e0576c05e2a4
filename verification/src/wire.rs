//! The wire format at the specification level: for each scalar width, the
//! little-endian byte sequence a value serializes to (`wire_*`) and the value
//! a byte sequence deserializes to (`val_*`), together with the round-trip
//! lemmas that make the two exact inverses of each other.
//!
//! Signed types share the byte-level format of their unsigned counterparts
//! through the two's-complement bit-pattern conversions defined here.

use vstd::bytes::*;
use vstd::prelude::*;

verus! {

/// Holds when the byte sequence `s` begins with the byte sequence `p`.
pub open spec fn starts_with(s: Seq<u8>, p: Seq<u8>) -> bool {
    p.len() <= s.len() && s.take(p.len() as int) == p
}

/// Splitting a prefix: when `s` begins with `a + b`, it begins with `a`,
/// and what follows `a` in `s` begins with `b`.
pub proof fn lemma_starts_with_concat(s: Seq<u8>, a: Seq<u8>, b: Seq<u8>)
    requires
        starts_with(s, a + b),
    ensures
        starts_with(s, a),
        starts_with(s.skip(a.len() as int), b),
{
    let al = a.len() as int;
    let bl = b.len() as int;
    assert(s.take(al) =~= a) by {
        assert(forall|j: int| 0 <= j < al ==> s[j] == (a + b)[j]);
    }
    assert(s.skip(al).take(bl) =~= b) by {
        assert(forall|j: int| 0 <= j < bl ==> s.skip(al)[j] == s[al + j] && s[al + j] == (a + b)[al
            + j]);
    }
}

/// Joining prefixes: when `s` begins with `a` and what follows `a` begins
/// with `b`, then `s` begins with `a + b`.
pub proof fn lemma_concat_starts_with(s: Seq<u8>, a: Seq<u8>, b: Seq<u8>)
    requires
        starts_with(s, a),
        starts_with(s.skip(a.len() as int), b),
    ensures
        starts_with(s, a + b),
{
    let al = a.len() as int;
    let bl = b.len() as int;
    assert(s.take(al + bl) =~= a + b) by {
        assert(forall|j: int| 0 <= j < al ==> s[j] == s.take(al)[j]);
        assert(forall|j: int| al <= j < al + bl ==> s[j] == s.skip(al)[j - al]);
    }
}

/// The two's-complement bit pattern of an `i16`, as a `u16`.
pub open spec fn u16_of_i16(v: i16) -> u16 {
    if v >= 0 {
        v as u16
    } else {
        (v + 0x1_0000) as u16
    }
}

/// The `i16` whose two's-complement bit pattern is the given `u16`.
pub open spec fn i16_of_u16(u: u16) -> i16 {
    if u < 0x8000 {
        u as i16
    } else {
        (u - 0x1_0000) as i16
    }
}

/// The two's-complement bit pattern of an `i32`, as a `u32`.
pub open spec fn u32_of_i32(v: i32) -> u32 {
    if v >= 0 {
        v as u32
    } else {
        (v + 0x1_0000_0000) as u32
    }
}

/// The `i32` whose two's-complement bit pattern is the given `u32`.
pub open spec fn i32_of_u32(u: u32) -> i32 {
    if u < 0x8000_0000 {
        u as i32
    } else {
        (u - 0x1_0000_0000) as i32
    }
}

/// The two's-complement bit pattern of an `i64`, as a `u64`.
pub open spec fn u64_of_i64(v: i64) -> u64 {
    if v >= 0 {
        v as u64
    } else {
        (v + 0x1_0000_0000_0000_0000) as u64
    }
}

/// The `i64` whose two's-complement bit pattern is the given `u64`.
pub open spec fn i64_of_u64(u: u64) -> i64 {
    if u < 0x8000_0000_0000_0000 {
        u as i64
    } else {
        (u - 0x1_0000_0000_0000_0000) as i64
    }
}

/// The one-byte encoding of a `u8`.
pub open spec fn wire_u8(v: u8) -> Seq<u8> {
    seq![v]
}

/// The value a one-byte sequence decodes to.
pub open spec fn val_u8(s: Seq<u8>) -> u8 {
    s[0]
}

/// The two-byte little-endian encoding of a `u16`.
pub open spec fn wire_u16(v: u16) -> Seq<u8> {
    spec_u16_to_le_bytes(v)
}

/// The `u16` a two-byte sequence decodes to, little-endian.
pub open spec fn val_u16(s: Seq<u8>) -> u16 {
    spec_u16_from_le_bytes(s)
}

/// The two-byte little-endian encoding of an `i16` (two's complement).
pub open spec fn wire_i16(v: i16) -> Seq<u8> {
    wire_u16(u16_of_i16(v))
}

/// The `i16` a two-byte sequence decodes to, little-endian two's complement.
pub open spec fn val_i16(s: Seq<u8>) -> i16 {
    i16_of_u16(val_u16(s))
}

/// The four-byte little-endian encoding of a `u32`.
pub open spec fn wire_u32(v: u32) -> Seq<u8> {
    spec_u32_to_le_bytes(v)
}

/// The `u32` a four-byte sequence decodes to, little-endian.
pub open spec fn val_u32(s: Seq<u8>) -> u32 {
    spec_u32_from_le_bytes(s)
}

/// The four-byte little-endian encoding of an `i32` (two's complement).
pub open spec fn wire_i32(v: i32) -> Seq<u8> {
    wire_u32(u32_of_i32(v))
}

/// The `i32` a four-byte sequence decodes to, little-endian two's complement.
pub open spec fn val_i32(s: Seq<u8>) -> i32 {
    i32_of_u32(val_u32(s))
}

/// The eight-byte little-endian encoding of a `u64`.
pub open spec fn wire_u64(v: u64) -> Seq<u8> {
    spec_u64_to_le_bytes(v)
}

/// The `u64` an eight-byte sequence decodes to, little-endian.
pub open spec fn val_u64(s: Seq<u8>) -> u64 {
    spec_u64_from_le_bytes(s)
}

/// The eight-byte little-endian encoding of an `i64` (two's complement).
pub open spec fn wire_i64(v: i64) -> Seq<u8> {
    wire_u64(u64_of_i64(v))
}

/// The `i64` an eight-byte sequence decodes to, little-endian two's complement.
pub open spec fn val_i64(s: Seq<u8>) -> i64 {
    i64_of_u64(val_u64(s))
}

/// Law: the signed/unsigned bit-pattern conversions at width 16 are inverses.
pub proof fn lemma_i16_u16_inverse(v: i16, u: u16)
    ensures
        i16_of_u16(u16_of_i16(v)) == v,
        u16_of_i16(i16_of_u16(u)) == u,
{
}

/// Law: the signed/unsigned bit-pattern conversions at width 32 are inverses.
pub proof fn lemma_i32_u32_inverse(v: i32, u: u32)
    ensures
        i32_of_u32(u32_of_i32(v)) == v,
        u32_of_i32(i32_of_u32(u)) == u,
{
}

/// Law: the signed/unsigned bit-pattern conversions at width 64 are inverses.
pub proof fn lemma_i64_u64_inverse(v: i64, u: u64)
    ensures
        i64_of_u64(u64_of_i64(v)) == v,
        u64_of_i64(i64_of_u64(u)) == u,
{
}

/// Law: a `u8` round-trips through its one-byte encoding, and any one-byte
/// sequence round-trips through its value.
pub proof fn lemma_round_trip_u8(v: u8, s: Seq<u8>)
    ensures
        wire_u8(v).len() == 1,
        val_u8(wire_u8(v)) == v,
        s.len() == 1 ==> wire_u8(val_u8(s)) == s,
{
    if s.len() == 1 {
        assert(wire_u8(val_u8(s)) =~= s);
    }
}

/// Law: a `u16` round-trips through its two-byte little-endian encoding, and
/// any two-byte sequence round-trips through its value.
pub proof fn lemma_round_trip_u16(v: u16, s: Seq<u8>)
    ensures
        wire_u16(v).len() == 2,
        val_u16(wire_u16(v)) == v,
        s.len() == 2 ==> wire_u16(val_u16(s)) == s,
{
    lemma_auto_spec_u16_to_from_le_bytes();
    assert(spec_u16_to_le_bytes(v).len() == 2);
    assert(spec_u16_from_le_bytes(spec_u16_to_le_bytes(v)) == v);
    if s.len() == 2 {
        assert(spec_u16_to_le_bytes(spec_u16_from_le_bytes(s)) == s);
    }
}

/// Law: a `u32` round-trips through its four-byte little-endian encoding, and
/// any four-byte sequence round-trips through its value.
pub proof fn lemma_round_trip_u32(v: u32, s: Seq<u8>)
    ensures
        wire_u32(v).len() == 4,
        val_u32(wire_u32(v)) == v,
        s.len() == 4 ==> wire_u32(val_u32(s)) == s,
{
    lemma_auto_spec_u32_to_from_le_bytes();
    assert(spec_u32_to_le_bytes(v).len() == 4);
    assert(spec_u32_from_le_bytes(spec_u32_to_le_bytes(v)) == v);
    if s.len() == 4 {
        assert(spec_u32_to_le_bytes(spec_u32_from_le_bytes(s)) == s);
    }
}

/// Law: a `u64` round-trips through its eight-byte little-endian encoding,
/// and any eight-byte sequence round-trips through its value.
pub proof fn lemma_round_trip_u64(v: u64, s: Seq<u8>)
    ensures
        wire_u64(v).len() == 8,
        val_u64(wire_u64(v)) == v,
        s.len() == 8 ==> wire_u64(val_u64(s)) == s,
{
    lemma_auto_spec_u64_to_from_le_bytes();
    assert(spec_u64_to_le_bytes(v).len() == 8);
    assert(spec_u64_from_le_bytes(spec_u64_to_le_bytes(v)) == v);
    if s.len() == 8 {
        assert(spec_u64_to_le_bytes(spec_u64_from_le_bytes(s)) == s);
    }
}

/// Law: an `i16` round-trips through its two-byte encoding, and any two-byte
/// sequence round-trips through its signed value.
pub proof fn lemma_round_trip_i16(v: i16, s: Seq<u8>)
    ensures
        wire_i16(v).len() == 2,
        val_i16(wire_i16(v)) == v,
        s.len() == 2 ==> wire_i16(val_i16(s)) == s,
{
    lemma_round_trip_u16(u16_of_i16(v), s);
    lemma_i16_u16_inverse(v, val_u16(s));
}

/// Law: an `i32` round-trips through its four-byte encoding, and any
/// four-byte sequence round-trips through its signed value.
pub proof fn lemma_round_trip_i32(v: i32, s: Seq<u8>)
    ensures
        wire_i32(v).len() == 4,
        val_i32(wire_i32(v)) == v,
        s.len() == 4 ==> wire_i32(val_i32(s)) == s,
{
    lemma_round_trip_u32(u32_of_i32(v), s);
    lemma_i32_u32_inverse(v, val_u32(s));
}

/// Law: an `i64` round-trips through its eight-byte encoding, and any
/// eight-byte sequence round-trips through its signed value.
pub proof fn lemma_round_trip_i64(v: i64, s: Seq<u8>)
    ensures
        wire_i64(v).len() == 8,
        val_i64(wire_i64(v)) == v,
        s.len() == 8 ==> wire_i64(val_i64(s)) == s,
{
    lemma_round_trip_u64(u64_of_i64(v), s);
    lemma_i64_u64_inverse(v, val_u64(s));
}

/// Converts an `i16` to its two's-complement bit pattern.
pub fn i16_to_u16(v: i16) -> (u: u16)
    ensures
        u == u16_of_i16(v),
{
    if v >= 0 {
        v as u16
    } else {
        u16::MAX - ((-(v + 1)) as u16)
    }
}

/// Recovers an `i16` from its two's-complement bit pattern.
pub fn u16_to_i16(u: u16) -> (v: i16)
    ensures
        v == i16_of_u16(u),
{
    if u < 0x8000 {
        u as i16
    } else {
        -((u16::MAX - u) as i16) - 1
    }
}

/// Converts an `i32` to its two's-complement bit pattern.
pub fn i32_to_u32(v: i32) -> (u: u32)
    ensures
        u == u32_of_i32(v),
{
    if v >= 0 {
        v as u32
    } else {
        u32::MAX - ((-(v + 1)) as u32)
    }
}

/// Recovers an `i32` from its two's-complement bit pattern.
pub fn u32_to_i32(u: u32) -> (v: i32)
    ensures
        v == i32_of_u32(u),
{
    if u < 0x8000_0000 {
        u as i32
    } else {
        -((u32::MAX - u) as i32) - 1
    }
}

/// Converts an `i64` to its two's-complement bit pattern.
pub fn i64_to_u64(v: i64) -> (u: u64)
    ensures
        u == u64_of_i64(v),
{
    if v >= 0 {
        v as u64
    } else {
        u64::MAX - ((-(v + 1)) as u64)
    }
}

/// Recovers an `i64` from its two's-complement bit pattern.
pub fn u64_to_i64(u: u64) -> (v: i64)
    ensures
        v == i64_of_u64(u),
{
    if u < 0x8000_0000_0000_0000 {
        u as i64
    } else {
        -((u64::MAX - u) as i64) - 1
    }
}

} // verus!
