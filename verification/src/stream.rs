//! In-memory byte streams. `ByteWriter` collects the bytes an encode
//! produces; `ByteReader` hands out the bytes a decode consumes, and fails a
//! read that asks for more bytes than remain. Real I/O lives outside the
//! codec: a caller moves whole buffers between these types and its streams.

use vstd::prelude::*;

verus! {

/// A growable sink of bytes. Its view is the sequence of bytes written so
/// far, in order; writing to memory never fails.
pub struct ByteWriter {
    buf: Vec<u8>,
}

impl View for ByteWriter {
    type V = Seq<u8>;

    closed spec fn view(&self) -> Seq<u8> {
        self.buf@
    }
}

impl ByteWriter {
    /// Creates a writer holding no bytes.
    pub fn new() -> (w: ByteWriter)
        ensures
            w@ == Seq::<u8>::empty(),
    {
        ByteWriter { buf: Vec::new() }
    }

    /// The number of bytes written so far.
    pub fn num_bytes(&self) -> (n: usize)
        ensures
            n == self@.len(),
    {
        self.buf.len()
    }

    /// Borrows the bytes written so far.
    pub fn as_bytes(&self) -> (b: &Vec<u8>)
        ensures
            b@ == self@,
    {
        &self.buf
    }

    /// Consumes the writer and yields the bytes written.
    pub fn into_bytes(self) -> (b: Vec<u8>)
        ensures
            b@ == self@,
    {
        self.buf
    }

    /// Appends a single byte.
    pub(crate) fn push_byte(&mut self, b: u8) -> (n: usize)
        ensures
            final(self)@ == old(self)@.push(b),
            n == 1,
    {
        self.buf.push(b);
        1
    }

    /// Appends a whole buffer of bytes.
    pub(crate) fn append_bytes(&mut self, bytes: Vec<u8>) -> (n: usize)
        ensures
            final(self)@ == old(self)@ + bytes@,
            n == bytes@.len(),
    {
        let mut moved = bytes;
        let n = moved.len();
        self.buf.append(&mut moved);
        n
    }
}

/// A cursor over a fixed buffer of bytes. Its `data` never changes; `pos`
/// marks how many bytes have been consumed, and `remaining` is what a decode
/// may still read. A read past the end fails and consumes nothing.
pub struct ByteReader {
    buf: Vec<u8>,
    pos: usize,
}

impl ByteReader {
    /// The whole underlying buffer.
    pub closed spec fn data(&self) -> Seq<u8> {
        self.buf@
    }

    /// How many bytes have been consumed so far.
    pub closed spec fn pos(&self) -> int {
        self.pos as int
    }

    /// Well-formedness: the cursor never points past the end of the buffer.
    pub open spec fn wf(&self) -> bool {
        0 <= self.pos() <= self.data().len()
    }

    /// The bytes not yet consumed.
    pub open spec fn remaining(&self) -> Seq<u8> {
        self.data().skip(self.pos())
    }

    /// Creates a reader positioned at the start of the given bytes.
    pub fn new(data: Vec<u8>) -> (r: ByteReader)
        ensures
            r.wf(),
            r.data() == data@,
            r.pos() == 0,
    {
        ByteReader { buf: data, pos: 0 }
    }

    /// The number of bytes still available to read.
    pub fn remaining_len(&self) -> (n: usize)
        requires
            self.wf(),
        ensures
            n == self.remaining().len(),
    {
        self.buf.len() - self.pos
    }

    /// Consumes the next `n` bytes and returns them, or returns `None` and
    /// consumes nothing when fewer than `n` bytes remain.
    pub(crate) fn read_chunk(&mut self, n: usize) -> (r: Option<Vec<u8>>)
        requires
            old(self).wf(),
        ensures
            final(self).wf(),
            final(self).data() == old(self).data(),
            n <= old(self).remaining().len() ==> (r matches Some(c) && c@ == old(self).remaining().take(n as int) && final(self).pos() == old(self).pos() + n),
            n > old(self).remaining().len() ==> (r is None && final(self).pos() == old(self).pos()),
    {
        if n > self.buf.len() - self.pos {
            return None;
        }
        let total: usize = self.buf.len();
        let mut out: Vec<u8> = Vec::new();
        let mut i: usize = 0;
        while i < n
            invariant
                i <= n,
                self.data() == old(self).data(),
                self.pos() == old(self).pos(),
                self.wf(),
                total == self.data().len(),
                self.pos() + n <= total,
                out@ == self.data().subrange(self.pos(), self.pos() + i),
            decreases n - i,
        {
            out.push(self.buf[self.pos + i]);
            i = i + 1;
        }
        self.pos = self.pos + n;
        proof {
            assert(out@ =~= old(self).remaining().take(n as int));
        }
        Some(out)
    }
}

} // verus!
