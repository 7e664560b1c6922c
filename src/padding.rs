use vstd::prelude::*;

use crate::cursor::{readable, Cursor};
use crate::error::{Error, Fault};
use crate::{Descriptor, Endian, TigerReadable};

verus! {

/// `N` bytes that must all be zero.
#[derive(Clone, Copy, Debug)]
pub struct Padding<const N: usize>;

pub open spec fn all_zero(s: Seq<u8>) -> bool {
    forall|i: int| 0 <= i < s.len() ==> s[i] == 0
}

impl<const N: usize> TigerReadable for Padding<N> {
    type Model = ();

    open spec fn model(&self) -> () {
        ()
    }

    open spec fn spec_decode(data: Seq<u8>, pos: int, endian: Endian) -> Result<((), int), Fault> {
        if !readable(data, pos, N as int) {
            Err(Fault::Io)
        } else if all_zero(data.subrange(pos, pos + N)) {
            Ok(((), pos + N))
        } else {
            Err(Fault::PaddingNotZero(data.subrange(pos, pos + N)))
        }
    }

    open spec fn spec_descriptor() -> Descriptor {
        Descriptor { is_zero_copy: false, size: N, id: None, etype: None }
    }

    fn descriptor() -> (d: Descriptor) {
        Descriptor { is_zero_copy: false, size: N, id: None, etype: None }
    }

    fn read_ds_endian(reader: &mut Cursor, endian: Endian) -> (r: Result<Padding<N>, Error>) {
        let ghost d = reader.bytes();
        let ghost start = reader.pos();
        let buf = reader.read_bytes(N)?;
        let ghost after = reader.pos();
        let mut i: usize = 0;
        while i < buf.len()
            invariant
                d == old(reader).bytes(),
                start == old(reader).pos(),
                reader.bytes() == d,
                reader.pos() == after,
                after == start + N,
                readable(d, start, N as int),
                buf@ == d.subrange(start, start + N),
                i <= buf@.len(),
                forall|j: int| 0 <= j < i ==> buf@[j] == 0,
            decreases buf@.len() - i,
        {
            if buf[i] != 0 {
                assert(!all_zero(buf@));
                return Err(Error::PaddingNotZero(buf));
            }
            i = i + 1;
        }
        assert(all_zero(buf@));
        Ok(Padding)
    }
}

} // verus!
