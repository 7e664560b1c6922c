use vstd::prelude::*;

use crate::error::{Error, Fault, IoError};

verus! {

/// Whether a seek may land on the absolute position `target`.
pub open spec fn seekable(target: int) -> bool {
    0 <= target <= u64::MAX
}

/// Whether `n` bytes can be read at `pos`.
pub open spec fn readable(data: Seq<u8>, pos: int, n: int) -> bool {
    0 <= pos && pos + n <= data.len()
}

/// A seekable byte source: the bytes of one blob and a read position.
/// The position may stand past the end; reading there fails.
pub struct Cursor {
    data: Vec<u8>,
    pos: u64,
}

impl Cursor {
    pub closed spec fn bytes(&self) -> Seq<u8> {
        self.data@
    }

    pub closed spec fn pos(&self) -> int {
        self.pos as int
    }

    pub fn new(data: Vec<u8>) -> (r: Cursor)
        ensures
            r.bytes() == data@,
            r.pos() == 0,
    {
        Cursor { data, pos: 0 }
    }

    pub fn len(&self) -> (n: usize)
        ensures
            n == self.bytes().len(),
    {
        self.data.len()
    }

    /// The current read position.
    pub fn position(&self) -> (p: u64)
        ensures
            p == self.pos(),
    {
        self.pos
    }

    /// Moves to an absolute position; any position is accepted.
    pub fn set_position(&mut self, p: u64)
        ensures
            final(self).bytes() == old(self).bytes(),
            final(self).pos() == p,
    {
        self.pos = p;
    }

    /// Moves to `target`, failing when no stream position can be there.
    pub fn seek_to(&mut self, target: i128) -> (r: Result<(), Error>)
        ensures
            final(self).bytes() == old(self).bytes(),
            seekable(target as int) ==> r is Ok && final(self).pos() == target,
            !seekable(target as int) ==> r is Err && r->Err_0.fault() == Fault::Io
                && final(self).pos() == old(self).pos(),
    {
        if 0 <= target && target <= u64::MAX as i128 {
            self.pos = target as u64;
            Ok(())
        } else {
            Err(Error::Io(IoError::InvalidSeek { target }))
        }
    }

    /// Reads exactly `n` bytes.
    pub fn read_bytes(&mut self, n: usize) -> (r: Result<Vec<u8>, Error>)
        ensures
            final(self).bytes() == old(self).bytes(),
            readable(old(self).bytes(), old(self).pos(), n as int) ==> r is Ok
                && r->Ok_0@ == old(self).bytes().subrange(old(self).pos(), old(self).pos() + n)
                && final(self).pos() == old(self).pos() + n,
            !readable(old(self).bytes(), old(self).pos(), n as int) ==> r is Err
                && r->Err_0.fault() == Fault::Io && final(self).pos() == old(self).pos(),
    {
        let len = self.data.len();
        if self.pos > len as u64 || n as u64 > len as u64 - self.pos {
            return Err(Error::Io(IoError::UnexpectedEof { position: self.pos, wanted: n as u64 }));
        }
        let start = self.pos as usize;
        let mut out: Vec<u8> = Vec::with_capacity(n);
        let mut i: usize = 0;
        while i < n
            invariant
                start + n <= len,
                len == self.data@.len(),
                i <= n,
                out@ == self.data@.subrange(start as int, start + i),
            decreases n - i,
        {
            out.push(self.data[start + i]);
            assert(out@ =~= self.data@.subrange(start as int, start + i + 1));
            i = i + 1;
        }
        self.pos = self.pos + n as u64;
        Ok(out)
    }

    /// Reads one byte.
    pub fn read_u8(&mut self) -> (r: Result<u8, Error>)
        ensures
            final(self).bytes() == old(self).bytes(),
            readable(old(self).bytes(), old(self).pos(), 1) ==> r is Ok
                && r->Ok_0 == old(self).bytes()[old(self).pos()]
                && final(self).pos() == old(self).pos() + 1,
            !readable(old(self).bytes(), old(self).pos(), 1) ==> r is Err
                && r->Err_0.fault() == Fault::Io && final(self).pos() == old(self).pos(),
    {
        let len = self.data.len();
        if self.pos >= len as u64 {
            return Err(Error::Io(IoError::UnexpectedEof { position: self.pos, wanted: 1 }));
        }
        let b = self.data[self.pos as usize];
        self.pos = self.pos + 1;
        Ok(b)
    }
}

} // verus!
