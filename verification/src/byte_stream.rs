//! An in-memory byte source with the read-and-seek capability the scanners
//! need.
//!
//! The scanners consume their input through this one small surface: a current
//! position, forward reads that either return exactly the requested bytes or
//! fail without moving, and forward seeks that skip over payloads. The caller
//! reads the whole file into memory first and hands the bytes over.

use vstd::prelude::*;

verus! {

broadcast use vstd::std_specs::vec::axiom_spec_len;

/// A seekable in-memory byte stream. The position never passes the end of
/// the data.
pub struct ByteStream {
    data: Vec<u8>,
    pos: usize,
}

impl ByteStream {
    /// The bytes this stream reads from.
    pub closed spec fn spec_data(self) -> Seq<u8> {
        self.data@
    }

    /// The current read position.
    pub closed spec fn spec_pos(self) -> int {
        self.pos as int
    }

    /// The position never passes the end of the data, whose length fits in
    /// `usize`.
    pub open spec fn wf(self) -> bool {
        &&& 0 <= self.spec_pos() <= self.spec_data().len()
        &&& self.spec_data().len() <= usize::MAX
    }

    /// A stream positioned at the start of `data`.
    pub fn new(data: Vec<u8>) -> (s: ByteStream)
        ensures
            s.wf(),
            s.spec_data() == data@,
            s.spec_pos() == 0,
    {
        proof {
            assert(data@.len() == vstd::std_specs::vec::spec_vec_len(&data));
        }
        ByteStream { data, pos: 0 }
    }

    /// The total length of the underlying data.
    pub fn len(&self) -> (r: usize)
        ensures
            r == self.spec_data().len(),
    {
        self.data.len()
    }

    /// The current read position, as the container formats count it.
    pub fn stream_position(&self) -> (r: u64)
        requires
            self.wf(),
        ensures
            r == self.spec_pos(),
    {
        self.pos as u64
    }

    /// Reads the 4 bytes at the current position as a little-endian value
    /// and advances past them; returns `None`, without moving, when fewer
    /// than 4 bytes remain.
    pub fn read_u32_le(&mut self) -> (r: Option<u32>)
        requires
            old(self).wf(),
        ensures
            final(self).wf(),
            final(self).spec_data() == old(self).spec_data(),
            match r {
                Some(v) => {
                    &&& old(self).spec_pos() + 4 <= old(self).spec_data().len()
                    &&& v == crate::wav_format::spec_le32(old(self).spec_data(), old(self).spec_pos())
                    &&& final(self).spec_pos() == old(self).spec_pos() + 4
                },
                None => {
                    &&& old(self).spec_pos() + 4 > old(self).spec_data().len()
                    &&& final(self).spec_pos() == old(self).spec_pos()
                },
            },
    {
        if self.data.len() - self.pos >= 4 {
            let v = crate::wav_format::read_le32(self.data.as_slice(), self.pos);
            self.pos = self.pos + 4;
            Some(v)
        } else {
            None
        }
    }

    /// Seeks forward over `n` bytes, stopping at the end of the data when
    /// fewer remain.
    pub fn skip(&mut self, n: u32)
        requires
            old(self).wf(),
        ensures
            final(self).wf(),
            final(self).spec_data() == old(self).spec_data(),
            final(self).spec_pos() == if old(self).spec_pos() + n <= old(self).spec_data().len() {
                old(self).spec_pos() + n
            } else {
                old(self).spec_data().len() as int
            },
    {
        let remaining: usize = self.data.len() - self.pos;
        if (n as u64) <= (remaining as u64) {
            self.pos = self.pos + (n as usize);
        } else {
            self.pos = self.data.len();
        }
    }

    /// Seeks to the absolute position `p`.
    pub fn seek_to(&mut self, p: usize)
        requires
            old(self).wf(),
            p <= old(self).spec_data().len(),
        ensures
            final(self).wf(),
            final(self).spec_data() == old(self).spec_data(),
            final(self).spec_pos() == p,
    {
        self.pos = p;
    }

    /// Reads exactly `n` bytes from the current position and advances past
    /// them; returns `None`, without moving, when fewer than `n` remain.
    pub fn read_vec(&mut self, n: usize) -> (r: Option<Vec<u8>>)
        requires
            old(self).wf(),
        ensures
            final(self).wf(),
            final(self).spec_data() == old(self).spec_data(),
            match r {
                Some(v) => {
                    &&& old(self).spec_pos() + n <= old(self).spec_data().len()
                    &&& v@ == old(self).spec_data().subrange(
                        old(self).spec_pos(),
                        old(self).spec_pos() + n,
                    )
                    &&& final(self).spec_pos() == old(self).spec_pos() + n
                },
                None => {
                    &&& old(self).spec_pos() + n > old(self).spec_data().len()
                    &&& final(self).spec_pos() == old(self).spec_pos()
                },
            },
    {
        if self.data.len() - self.pos >= n {
            let end: usize = self.pos + n;
            let v = vstd::slice::slice_to_vec(
                vstd::slice::slice_subrange(self.data.as_slice(), self.pos, end),
            );
            self.pos = end;
            Some(v)
        } else {
            None
        }
    }

    /// Gives the underlying data back, consuming the stream.
    pub fn into_data(self) -> (r: Vec<u8>)
        ensures
            r@ == self.spec_data(),
    {
        self.data
    }

    /// A borrowed view of the underlying data.
    pub fn data(&self) -> (r: &Vec<u8>)
        ensures
            r@ == self.spec_data(),
    {
        &self.data
    }
}

} // verus!
