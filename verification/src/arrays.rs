//! The generic array codec: length-prefixed sequences of any `BinaryEncoder`
//! element type. The wire image of an optional array is a 4-byte signed
//! little-endian length prefix — `-1` when the array is absent, the element
//! count when it is present — followed by the concatenated element images.
//! Absent and present-but-empty arrays therefore stay distinct on the wire.

use crate::encoder::BinaryEncoder;
use crate::errors::EncodingError;
use crate::errors::EncodingResult;
use crate::scalars::read_i32;
use crate::scalars::write_i32;
use crate::stream::ByteReader;
use crate::stream::ByteWriter;
use crate::wire::lemma_concat_starts_with;
use crate::wire::lemma_round_trip_i32;
use crate::wire::lemma_starts_with_concat;
use crate::wire::starts_with;
use crate::wire::val_i32;
use crate::wire::wire_i32;
use vstd::prelude::*;
use vstd::seq_lib::lemma_seq_skip_of_skip;

verus! {

/// The element sequence of an optional array, at the specification level.
pub open spec fn opt_elems<T>(values: Option<Vec<T>>) -> Option<Seq<T>> {
    match values {
        Option::None => Option::None,
        Option::Some(v) => Option::Some(v@),
    }
}

/// Whether an optional array's element count is representable in the 4-byte
/// signed length prefix.
pub open spec fn len_fits<T>(values: Option<Seq<T>>) -> bool {
    values matches Some(e) ==> e.len() <= i32::MAX
}

/// The concatenated wire images of a sequence of elements, in order.
pub open spec fn elements_wire<T: BinaryEncoder>(elems: Seq<T>) -> Seq<u8>
    decreases elems.len(),
{
    if elems.len() == 0 {
        Seq::empty()
    } else {
        elems[0].wire() + elements_wire(elems.skip(1))
    }
}

/// The wire image of an optional array: the length prefix alone when the
/// array is absent, the length prefix followed by every element's image when
/// it is present.
pub open spec fn array_wire<T: BinaryEncoder>(values: Option<Seq<T>>) -> Seq<u8> {
    match values {
        Option::None => wire_i32(-1i32),
        Option::Some(elems) => wire_i32(elems.len() as i32) + elements_wire(elems),
    }
}

/// The element images of a sequence split at any point: prefix images, then
/// suffix images.
pub proof fn lemma_elements_wire_split<T: BinaryEncoder>(elems: Seq<T>, i: int)
    requires
        0 <= i <= elems.len(),
    ensures
        elements_wire(elems) == elements_wire(elems.take(i)) + elements_wire(elems.skip(i)),
    decreases i,
{
    if i == 0 {
        assert(elems.take(0) =~= Seq::<T>::empty());
        assert(elems.skip(0) =~= elems);
        assert(elements_wire(elems) =~= elements_wire(elems.take(0)) + elements_wire(
            elems.skip(0),
        ));
    } else {
        lemma_elements_wire_split(elems.skip(1), i - 1);
        assert(elems.take(i).skip(1) =~= elems.skip(1).take(i - 1));
        assert(elems.skip(1).skip(i - 1) =~= elems.skip(i));
        assert(elements_wire(elems.take(i)) == elems[0].wire() + elements_wire(
            elems.skip(1).take(i - 1),
        ));
        assert(elements_wire(elems) =~= elements_wire(elems.take(i)) + elements_wire(
            elems.skip(i),
        ));
    }
}

/// Appending one element appends exactly its wire image.
pub proof fn lemma_elements_wire_push<T: BinaryEncoder>(elems: Seq<T>, x: T)
    ensures
        elements_wire(elems.push(x)) == elements_wire(elems) + x.wire(),
{
    let n = elems.len() as int;
    lemma_elements_wire_split(elems.push(x), n);
    assert(elems.push(x).take(n) =~= elems);
    assert(elems.push(x).skip(n) =~= seq![x]);
    assert(seq![x].skip(1) =~= Seq::<T>::empty());
    assert(elements_wire(Seq::<T>::empty()) == Seq::<u8>::empty());
    assert(seq![x][0] == x);
    assert(elements_wire(seq![x]) == x.wire() + Seq::<u8>::empty());
    assert(x.wire() + Seq::<u8>::empty() =~= x.wire());
}

/// The length-prefix value of an optional array's wire image: `-1` when the
/// array is absent, the element count when it is present.
pub open spec fn count_prefix<T>(w: Option<Seq<T>>) -> i32 {
    match w {
        Option::None => -1i32,
        Option::Some(elems) => elems.len() as i32,
    }
}

/// Every array image is at least the 4-byte length prefix long and begins
/// with the encoding of its length-prefix value.
proof fn lemma_array_wire_shape<T: BinaryEncoder>(w: Option<Seq<T>>)
    ensures
        wire_i32(count_prefix(w)).len() == 4,
        array_wire(w).len() >= 4,
        array_wire(w).take(4) == wire_i32(count_prefix(w)),
{
    lemma_round_trip_i32(count_prefix(w), Seq::<u8>::empty());
    match w {
        Option::None => {
            assert(array_wire(w).take(4) =~= wire_i32(-1i32));
        },
        Option::Some(elems) => {
            assert(array_wire(w).take(4) =~= wire_i32((elems.len() as i32)));
        },
    }
}

/// A stream that begins with an array image fixes the first four bytes to
/// the image's length prefix.
proof fn lemma_prefix_value<T: BinaryEncoder>(s: Seq<u8>, w: Option<Seq<T>>)
    requires
        starts_with(s, array_wire(w)),
    ensures
        s.len() >= 4,
        val_i32(s.take(4)) == count_prefix(w),
{
    lemma_array_wire_shape(w);
    assert(s.take(4) =~= s.take(array_wire(w).len() as int).take(4));
    lemma_round_trip_i32(count_prefix(w), Seq::<u8>::empty());
}

/// In a stream that begins with the image of a present array, the bytes
/// after the prefix and the first `i` element images begin with the image
/// of element `i`.
proof fn lemma_element_at<T: BinaryEncoder>(rem0: Seq<u8>, elems: Seq<T>, i: int)
    requires
        starts_with(rem0, array_wire(Option::Some(elems))),
        0 <= i < elems.len(),
    ensures
        starts_with(
            rem0.skip(4 + elements_wire(elems.take(i)).len() as int),
            elems[i].wire(),
        ),
{
    lemma_round_trip_i32((elems.len() as i32), Seq::<u8>::empty());
    lemma_starts_with_concat(rem0, wire_i32((elems.len() as i32)), elements_wire(elems));
    lemma_elements_wire_split(elems, i);
    let after4 = rem0.skip(4);
    lemma_starts_with_concat(
        after4,
        elements_wire(elems.take(i)),
        elements_wire(elems.skip(i)),
    );
    let ewl = elements_wire(elems.take(i)).len() as int;
    assert(after4.skip(ewl) =~= rem0.skip(4 + ewl));
    assert(elems.skip(i)[0] == elems[i]);
    assert(elems.skip(i).skip(1) =~= elems.skip(i + 1));
    assert(elements_wire(elems.skip(i)) == elems[i].wire() + elements_wire(elems.skip(i + 1)));
    lemma_starts_with_concat(
        rem0.skip(4 + ewl),
        elems[i].wire(),
        elements_wire(elems.skip(i + 1)),
    );
}

/// Law: the wire images of an absent array and of a present-but-empty array
/// are each exactly four bytes, and they differ.
pub proof fn lemma_absent_empty_distinct<T: BinaryEncoder>()
    ensures
        array_wire(Option::<Seq<T>>::None) == wire_i32(-1i32),
        array_wire(Option::<Seq<T>>::Some(Seq::empty())) == wire_i32(0i32),
        array_wire(Option::<Seq<T>>::None) != array_wire(Option::<Seq<T>>::Some(Seq::empty())),
{
    lemma_round_trip_i32(-1i32, Seq::<u8>::empty());
    lemma_round_trip_i32(0i32, Seq::<u8>::empty());
    assert(array_wire(Option::<Seq<T>>::Some(Seq::empty())) =~= wire_i32(0i32));
    assert(val_i32(wire_i32(-1i32)) != val_i32(wire_i32(0i32)));
}

/// The serialized byte length of an optional array: 4 for the length prefix
/// plus the reported byte length of each element when the array is present;
/// exactly 4 when it is absent. Matches byte for byte what `write_array`
/// produces.
pub fn byte_len_array<T: BinaryEncoder>(values: &Option<Vec<T>>) -> (r: usize)
    requires
        array_wire(opt_elems(*values)).len() <= usize::MAX,
    ensures
        r == array_wire(opt_elems(*values)).len(),
{
    match values {
        Option::None => {
            proof {
                lemma_round_trip_i32(-1i32, Seq::<u8>::empty());
            }
            4
        },
        Option::Some(v) => {
            proof {
                lemma_round_trip_i32((v@.len() as i32), Seq::<u8>::empty());
            }
            let mut size: usize = 4;
            let mut i: usize = 0;
            while i < v.len()
                invariant
                    i <= v@.len(),
                    array_wire(Option::Some(v@)).len() <= usize::MAX,
                    size == 4 + elements_wire(v@.take(i as int)).len(),
                decreases v@.len() - i,
            {
                proof {
                    lemma_round_trip_i32((v@.len() as i32), Seq::<u8>::empty());
                    lemma_elements_wire_split(v@, i + 1);
                    assert(v@.take(i + 1) =~= v@.take(i as int).push(v@[i as int]));
                    lemma_elements_wire_push(v@.take(i as int), v@[i as int]);
                }
                let b = v[i].byte_len();
                size = size + b;
                i = i + 1;
            }
            proof {
                lemma_round_trip_i32((v@.len() as i32), Seq::<u8>::empty());
                assert(v@.take(v@.len() as int) =~= v@);
            }
            size
        },
    }
}

/// Writes an optional array: the 4-byte signed value `-1` alone when the
/// array is absent; the element count then every element in order when it is
/// present, empty arrays included. Returns the total number of bytes
/// written, which always equals `byte_len_array` of the same value.
pub fn write_array<T: BinaryEncoder>(stream: &mut ByteWriter, values: &Option<Vec<T>>) -> (r:
    EncodingResult<usize>)
    requires
        len_fits(opt_elems(*values)),
    ensures
        final(stream)@ == old(stream)@ + array_wire(opt_elems(*values)),
        r matches Ok(n) && n == array_wire(opt_elems(*values)).len(),
{
    match values {
        Option::None => {
            proof {
                lemma_round_trip_i32(-1i32, Seq::<u8>::empty());
            }
            let n = write_i32(stream, -1)?;
            Ok(n)
        },
        Option::Some(v) => {
            let start = stream.num_bytes();
            let count = v.len() as i32;
            write_i32(stream, count)?;
            let mut i: usize = 0;
            while i < v.len()
                invariant
                    i <= v@.len(),
                    v@.len() <= i32::MAX,
                    count == v@.len() as i32,
                    stream@ == old(stream)@ + wire_i32(count) + elements_wire(v@.take(i as int)),
                decreases v@.len() - i,
            {
                let _ = v[i].encode(stream)?;
                proof {
                    assert(v@.take(i + 1) =~= v@.take(i as int).push(v@[i as int]));
                    lemma_elements_wire_push(v@.take(i as int), v@[i as int]);
                    assert(old(stream)@ + wire_i32(count) + elements_wire(v@.take(i as int))
                        + v@[i as int].wire() =~= old(stream)@ + wire_i32(count) + elements_wire(
                        v@.take(i + 1),
                    ));
                }
                i = i + 1;
            }
            let end = stream.num_bytes();
            proof {
                assert(v@.take(v@.len() as int) =~= v@);
                assert(stream@ =~= old(stream)@ + array_wire(opt_elems(*values)));
            }
            Ok(end - start)
        },
    }
}

/// Reads an optional array. A length prefix of `-1` yields the absent
/// array; a non-negative prefix yields a present array of that many decoded
/// elements, in order, the empty array included. A short read, a negative
/// prefix other than `-1`, or any element's decode failure yields
/// `BadDecoding`, and no partially populated array is ever returned.
pub fn read_array<T: BinaryEncoder>(stream: &mut ByteReader) -> (r: EncodingResult<
    Option<Vec<T>>,
>)
    requires
        old(stream).wf(),
    ensures
        final(stream).wf(),
        final(stream).data() == old(stream).data(),
        old(stream).pos() <= final(stream).pos(),
        r matches Ok(v) ==> (len_fits(opt_elems(v)) && starts_with(
            old(stream).remaining(),
            array_wire(opt_elems(v)),
        ) && final(stream).pos() == old(stream).pos() + array_wire(opt_elems(v)).len()),
        r matches Err(e) ==> e == EncodingError::BadDecoding,
        forall|w: Option<Seq<T>>|
            len_fits(w) && #[trigger] starts_with(old(stream).remaining(), array_wire(w)) ==> (
            r matches Ok(v) && opt_elems(v) == w),
{
    let ghost rem0 = old(stream).remaining();
    let len = match read_i32(stream) {
        Ok(l) => l,
        Err(_) => {
            proof {
                assert forall|w: Option<Seq<T>>| !starts_with(rem0, array_wire(w)) by {
                    lemma_array_wire_shape(w);
                }
            }
            return Err(EncodingError::BadDecoding);
        },
    };
    proof {
        lemma_round_trip_i32(len, rem0.take(4));
        assert(wire_i32(len) == rem0.take(4));
    }
    if len == -1 {
        proof {
            assert(starts_with(rem0, array_wire(Option::<Seq<T>>::None)));
            assert forall|w: Option<Seq<T>>|
                len_fits(w) && #[trigger] starts_with(rem0, array_wire(w)) implies w
                == Option::<Seq<T>>::None by {
                lemma_prefix_value(rem0, w);
                match w {
                    Option::None => {
                    },
                    Option::Some(elems) => {
                        assert(count_prefix(w) == elems.len() as i32);
                        assert(elems.len() as i32 >= 0);
                        assert(false);
                    },
                }
            }
        }
        Ok(None)
    } else if len < 0 {
        proof {
            assert forall|w: Option<Seq<T>>|
                !(len_fits(w) && starts_with(rem0, array_wire(w))) by {
                if len_fits(w) && starts_with(rem0, array_wire(w)) {
                    lemma_prefix_value(rem0, w);
                    match w {
                        Option::None => {
                            assert(count_prefix(w) == -1i32);
                            assert(false);
                        },
                        Option::Some(elems) => {
                            assert(elems.len() as i32 >= 0);
                            assert(false);
                        },
                    }
                }
            }
        }
        Err(EncodingError::BadDecoding)
    } else {
        let n = len as usize;
        let mut values: Vec<T> = Vec::new();
        let mut i: usize = 0;
        proof {
            assert(values@ =~= Seq::<T>::empty());
            assert(elements_wire(values@) == Seq::<u8>::empty());
            assert(wire_i32(len) + elements_wire(values@) =~= rem0.take(4));
            assert(rem0.take(4).len() <= rem0.len());
            assert(rem0.take(4) =~= rem0.take((rem0.take(4).len() as int)));
            assert forall|w: Option<Seq<T>>|
                len_fits(w) && #[trigger] starts_with(rem0, array_wire(w)) implies (w matches Some(
                    elems,
                ) && elems.len() == n && elems.take(0) == values@) by {
                lemma_prefix_value(rem0, w);
                match w {
                    Option::None => {
                        assert(count_prefix(w) == -1i32);
                        assert(false);
                    },
                    Option::Some(elems) => {
                        assert(elems.len() as i32 == len);
                        assert(elems.take(0) =~= values@);
                    },
                }
            }
        }
        while i < n
            invariant
                old(stream).wf(),
                stream.wf(),
                stream.data() == old(stream).data(),
                rem0 == old(stream).remaining(),
                wire_i32(len) == rem0.take(4),
                rem0.len() >= 4,
                0 <= len,
                n as int == len as int,
                i <= n,
                values@.len() == i,
                stream.pos() == old(stream).pos() + 4 + elements_wire(values@).len(),
                starts_with(rem0, wire_i32(len) + elements_wire(values@)),
                forall|w: Option<Seq<T>>|
                    len_fits(w) && #[trigger] starts_with(rem0, array_wire(w)) ==> (w matches Some(
                        elems,
                    ) && elems.len() == n && elems.take(i as int) == values@),
            decreases n - i,
        {
            let ghost pre = *stream;
            let x = match T::decode(stream) {
                Ok(x) => x,
                Err(_) => {
                    proof {
                        assert forall|w: Option<Seq<T>>|
                            !(len_fits(w) && starts_with(rem0, array_wire(w))) by {
                            if len_fits(w) && starts_with(rem0, array_wire(w)) {
                                match w {
                                    Option::None => {
                                        assert(false);
                                    },
                                    Option::Some(elems) => {
                                        lemma_element_at(rem0, elems, i as int);
                                        let k = 4 + elements_wire(elems.take(i as int)).len() as int;
                                        assert(elems.take(i as int) == values@);
                                        assert(pre.pos() == old(stream).pos() + k);
                                        lemma_seq_skip_of_skip(
                                            old(stream).data(),
                                            old(stream).pos(),
                                            k,
                                        );
                                        assert(rem0.skip(k) == pre.remaining());
                                        assert(starts_with(
                                            pre.remaining(),
                                            elems[i as int].wire(),
                                        ));
                                        assert(false);
                                    },
                                }
                            }
                        }
                    }
                    return Err(EncodingError::BadDecoding);
                },
            };
            proof {
                let prefix = wire_i32(len) + elements_wire(values@);
                let k = prefix.len() as int;
                assert(prefix.len() == 4 + elements_wire(values@).len());
                assert(pre.data() == old(stream).data());
                assert(pre.pos() == old(stream).pos() + k);
                assert(rem0 == old(stream).data().skip(old(stream).pos()));
                assert(pre.remaining() == old(stream).data().skip(pre.pos()));
                lemma_seq_skip_of_skip(old(stream).data(), old(stream).pos(), k);
                assert(rem0.skip(k) == pre.remaining());
                lemma_concat_starts_with(rem0, prefix, x.wire());
                lemma_elements_wire_push(values@, x);
                assert(prefix + x.wire() =~= wire_i32(len) + elements_wire(values@.push(x)));
                assert forall|w: Option<Seq<T>>|
                    len_fits(w) && #[trigger] starts_with(rem0, array_wire(w)) implies (w
                    matches Some(elems) && elems.len() == n && elems.take(i as int + 1)
                    == values@.push(x)) by {
                    match w {
                        Option::None => {
                            assert(false);
                        },
                        Option::Some(elems) => {
                            lemma_element_at(rem0, elems, i as int);
                            let k2 = 4 + elements_wire(elems.take(i as int)).len() as int;
                            assert(elems.take(i as int) == values@);
                            assert(pre.pos() == old(stream).pos() + k2);
                            lemma_seq_skip_of_skip(old(stream).data(), old(stream).pos(), k2);
                            assert(rem0.skip(k2) =~= pre.remaining());
                            assert(starts_with(pre.remaining(), elems[i as int].wire()));
                            T::wire_unambiguous(x, elems[i as int], pre.remaining());
                            assert(elems.take(i as int + 1) =~= elems.take(i as int).push(
                                elems[i as int],
                            ));
                        },
                    }
                }
            }
            values.push(x);
            i = i + 1;
        }
        proof {
            assert(values@.len() as i32 == len);
            assert(wire_i32(len) + elements_wire(values@) == array_wire(
                Option::Some(values@),
            ));
            assert forall|w: Option<Seq<T>>|
                len_fits(w) && #[trigger] starts_with(rem0, array_wire(w)) implies w
                == Option::<Seq<T>>::Some(values@) by {
                match w {
                    Option::None => {
                        assert(false);
                    },
                    Option::Some(elems) => {
                        assert(elems.take(n as int) =~= elems);
                    },
                }
            }
        }
        Ok(Some(values))
    }
}

} // verus!
