use vstd::prelude::*;
use vstd::string::StringSliceAdditionalSpecFns;

verus! {

/// A fixed-capacity byte buffer that text is written into; what does not fit is dropped.
pub struct ArrayWriter {
    buf: Vec<u8>,
    cursor: usize,
}

impl ArrayWriter {
    /// The whole buffer.
    pub closed spec fn buf_spec(&self) -> Seq<u8> {
        self.buf@
    }

    /// How many bytes have been written.
    pub closed spec fn len_spec(&self) -> int {
        self.cursor as int
    }

    /// The bytes written so far.
    pub open spec fn written(&self) -> Seq<u8> {
        self.buf_spec().take(self.len_spec())
    }

    pub open spec fn wf(&self) -> bool {
        0 <= self.len_spec() <= self.buf_spec().len()
    }

    /// An empty writer with room for `cap` bytes.
    pub fn new(cap: usize) -> (r: Self)
        ensures
            r.wf(),
            r.buf_spec().len() == cap,
            r.len_spec() == 0,
    {
        let mut buf: Vec<u8> = Vec::new();
        let mut i: usize = 0;
        while i < cap
            invariant
                i <= cap,
                buf@.len() == i,
            decreases cap - i,
        {
            buf.push(0);
            i = i + 1;
        }
        ArrayWriter { buf, cursor: 0 }
    }

    pub fn capacity(&self) -> (r: usize)
        ensures
            r == self.buf_spec().len(),
    {
        self.buf.len()
    }

    /// Forgets what was written.
    pub fn clear(&mut self)
        requires
            old(self).wf(),
        ensures
            final(self).wf(),
            final(self).len_spec() == 0,
            final(self).buf_spec() == old(self).buf_spec(),
    {
        self.cursor = 0;
    }

    pub fn len(&self) -> (r: usize)
        ensures
            r == self.len_spec(),
    {
        self.cursor
    }

    pub fn empty(&self) -> (r: bool)
        ensures
            r == (self.len_spec() == 0),
    {
        self.cursor == 0
    }

    /// A copy of the bytes written so far.
    pub fn as_slice(&self) -> (r: Vec<u8>)
        requires
            self.wf(),
        ensures
            r@ == self.written(),
    {
        let mut v: Vec<u8> = Vec::new();
        let mut i: usize = 0;
        while i < self.cursor
            invariant
                self.wf(),
                i <= self.len_spec(),
                v@ == self.buf_spec().take(i as int),
            decreases self.len_spec() - i,
        {
            v.push(self.buf[i]);
            assert(self.buf_spec().take(i + 1) =~= self.buf_spec().take(i as int).push(self.buf_spec()[i as int]));
            i = i + 1;
        }
        v
    }

    /// Appends the bytes of `s`, as many as there is room for.
    pub fn write_str(&mut self, s: &str) -> (r: Result<(), ()>)
        requires
            old(self).wf(),
        ensures
            final(self).wf(),
            r.is_ok(),
            final(self).buf_spec().len() == old(self).buf_spec().len(),
            ({
                let room = old(self).buf_spec().len() - old(self).len_spec();
                let k = if s.spec_bytes().len() < room { s.spec_bytes().len() as int } else { room };
                &&& final(self).len_spec() == old(self).len_spec() + k
                &&& final(self).written() == old(self).written() + s.spec_bytes().take(k)
            }),
    {
        let bytes = s.as_bytes();
        let cap = self.buf.len();
        let start = self.cursor;
        let mut i: usize = 0;
        while start + i < cap && i < bytes.len()
            invariant
                self.wf(),
                self.cursor == start,
                start <= cap,
                cap == self.buf_spec().len(),
                i <= bytes@.len(),
                start + i <= cap,
                self.buf_spec().take(start as int) == old(self).buf_spec().take(start as int),
                forall|j: int| 0 <= j < i ==> #[trigger] self.buf_spec()[start + j] == bytes@[j],
            decreases bytes@.len() - i,
        {
            self.buf.set(start + i, bytes[i]);
            i = i + 1;
        }
        self.cursor = start + i;
        proof {
            let w = old(self).written() + s.spec_bytes().take(i as int);
            assert(w.len() == start + i);
            assert forall|j: int| 0 <= j < start + i implies #[trigger] self.written()[j] == w[j] by {
                if j < start {
                    assert(self.buf_spec().take(start as int)[j] == old(self).buf_spec().take(start as int)[j]);
                } else {
                    assert(self.buf_spec()[start + (j - start)] == bytes@[j - start]);
                }
            }
            assert(self.written() =~= w);
        }
        Ok(())
    }
}

} // verus!
