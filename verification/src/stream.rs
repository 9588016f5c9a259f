//! The byte-stream handle of a successful fetch.
//!
//! A fetched body is buffered in full before it is handed out. The handle
//! exposes the bytes in their original order, knows its length, and can be
//! read to completion; its content never changes after construction.

use vstd::prelude::*;

verus! {

/// A fully buffered byte stream with a read position.
pub struct ByteStream {
    data: Vec<u8>,
    pos: usize,
}

impl View for ByteStream {
    type V = Seq<u8>;

    /// The full content of the stream, independent of how much was read.
    closed spec fn view(&self) -> Seq<u8> {
        self.data@
    }
}

impl ByteStream {
    /// How many bytes were already read.
    pub closed spec fn position(&self) -> nat {
        self.pos as nat
    }

    /// The read position never runs past the content.
    pub open spec fn wf(&self) -> bool {
        self.position() <= self@.len()
    }

    /// The bytes not yet read, in their original order.
    pub open spec fn remaining(&self) -> Seq<u8> {
        self@.skip(self.position() as int)
    }

    /// Wrap a fetched body. The stream's content is exactly the given bytes.
    pub fn new(data: Vec<u8>) -> (s: ByteStream)
        ensures
            s@ == data@,
            s.position() == 0,
            s.wf(),
    {
        ByteStream { data, pos: 0 }
    }

    /// The total length of the content.
    pub fn len(&self) -> (n: usize)
        ensures
            n == self@.len(),
    {
        self.data.len()
    }

    /// The next unread byte, advancing the position; nothing once the
    /// stream is exhausted.
    pub fn next_byte(&mut self) -> (b: Option<u8>)
        requires
            old(self).wf(),
        ensures
            final(self).wf(),
            final(self)@ == old(self)@,
            old(self).remaining().len() == 0 ==> (b is None
                && final(self).position() == old(self).position()),
            old(self).remaining().len() > 0 ==> (b == Some(old(self).remaining()[0])
                && final(self).position() == old(self).position() + 1),
    {
        if self.pos < self.data.len() {
            let b = self.data[self.pos];
            self.pos = self.pos + 1;
            Some(b)
        } else {
            None
        }
    }

    /// All the unread bytes, in order; the stream is exhausted afterwards.
    pub fn read_to_end(&mut self) -> (v: Vec<u8>)
        requires
            old(self).wf(),
        ensures
            final(self)@ == old(self)@,
            final(self).wf(),
            final(self).remaining().len() == 0,
            v@ == old(self).remaining(),
    {
        let mut v: Vec<u8> = Vec::new();
        while self.pos < self.data.len()
            invariant
                self.data@ == old(self).data@,
                old(self).pos <= self.pos <= self.data.len(),
                v@ == self.data@.subrange(old(self).pos as int, self.pos as int),
            decreases self.data.len() - self.pos,
        {
            let b = self.data[self.pos];
            v.push(b);
            proof {
                assert(self.data@.subrange(old(self).pos as int, self.pos + 1 as int)
                    =~= self.data@.subrange(old(self).pos as int, self.pos as int).push(b));
            }
            self.pos = self.pos + 1;
        }
        proof {
            assert(v@ =~= old(self).remaining());
        }
        v
    }

    /// The whole content as a vector, consuming the handle.
    pub fn into_bytes(self) -> (v: Vec<u8>)
        ensures
            v@ == self@,
    {
        self.data
    }
}

} // verus!
