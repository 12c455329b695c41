//! Byte tables kept in program memory, and the trait shared by them and
//! ordinary byte slices.
//!
//! Program memory lies in its own address space; a `PGMSlice` is a window on
//! a table there. Splitting one into chunks lets a large table go out over
//! the bus one buffer-load at a time.
use vstd::prelude::*;

verus! {

/// A sequence of bytes that can be read one at a time.
pub trait ByteBundle {
    spec fn bytes(&self) -> Seq<u8>;

    fn get(&self, idx: usize) -> (r: u8)
        requires
            idx < self.bytes().len(),
        ensures
            r == self.bytes()[idx as int],
    ;

    fn length(&self) -> (r: usize)
        ensures
            r == self.bytes().len(),
    ;
}

impl ByteBundle for [u8] {
    open spec fn bytes(&self) -> Seq<u8> {
        self@
    }

    fn get(&self, idx: usize) -> (r: u8) {
        self[idx]
    }

    fn length(&self) -> (r: usize) {
        self.len()
    }
}

/// A window on a byte table in program memory.
#[derive(Clone, Copy)]
pub struct PGMSlice {
    data: &'static [u8],
}

impl PGMSlice {
    pub closed spec fn view(&self) -> Seq<u8> {
        self.data@
    }

    /// The whole of a table.
    pub fn new(data: &'static [u8]) -> (r: PGMSlice)
        ensures
            r@ == data@,
    {
        PGMSlice { data }
    }

    pub fn len(&self) -> (r: usize)
        ensures
            r == self@.len(),
    {
        self.data.len()
    }

    /// The window cut into pieces of `len` bytes, the last one shorter if
    /// need be.
    pub fn chunks(&self, len: usize) -> (r: PGMChunks)
        requires
            len > 0,
        ensures
            r.rest() == self@,
            r.chunk_len() == len,
    {
        PGMChunks { slice: *self, chunk_len: len }
    }
}

impl ByteBundle for PGMSlice {
    open spec fn bytes(&self) -> Seq<u8> {
        self@
    }

    fn get(&self, idx: usize) -> (r: u8) {
        self.data[idx]
    }

    fn length(&self) -> (r: usize) {
        self.len()
    }
}

/// The pieces of a `PGMSlice`, taken from the front.
pub struct PGMChunks {
    slice: PGMSlice,
    chunk_len: usize,
}

impl PGMChunks {
    /// The bytes not yet handed out.
    pub closed spec fn rest(&self) -> Seq<u8> {
        self.slice@
    }

    pub closed spec fn chunk_len(&self) -> usize {
        self.chunk_len
    }

    /// The next piece: the first `chunk_len` bytes left, or all of them if
    /// fewer remain; `None` once none remain.
    pub fn next(&mut self) -> (r: Option<PGMSlice>)
        requires
            old(self).chunk_len() > 0,
        ensures
            final(self).chunk_len() == old(self).chunk_len(),
            old(self).rest().len() == 0 ==> r is None && final(self).rest() == old(self).rest(),
            old(self).rest().len() > 0 ==> {
                let n = if old(self).rest().len() < old(self).chunk_len() {
                    old(self).rest().len() as int
                } else {
                    old(self).chunk_len() as int
                };
                &&& r is Some
                &&& r->Some_0@ == old(self).rest().take(n)
                &&& final(self).rest() == old(self).rest().skip(n)
            },
    {
        let len = self.slice.data.len();
        if len == 0 {
            None
        } else if len < self.chunk_len {
            let ret = self.slice;
            let (_, empty) = self.slice.data.split_at(len);
            self.slice = PGMSlice { data: empty };
            assert(ret@ =~= old(self).rest().take(len as int));
            assert(self.rest() =~= old(self).rest().skip(len as int));
            Some(ret)
        } else {
            let (front, back) = self.slice.data.split_at(self.chunk_len);
            self.slice = PGMSlice { data: back };
            Some(PGMSlice { data: front })
        }
    }
}

} // verus!
