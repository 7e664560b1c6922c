use vstd::prelude::*;

use crate::cursor::{readable, Cursor};
use crate::error::{Error, Fault, IoError};
use crate::primitive::{be_fold, le_fold, uint_value, Scalar};
use crate::vector::{models, read_seq, spec_decode_seq};
use crate::Endian;

verus! {

/// The `i`-th of the runs of `w` bytes that start at `pos`.
pub open spec fn chunk(data: Seq<u8>, pos: int, w: nat, i: int) -> Seq<u8> {
    data.subrange(pos + i * w, pos + i * w + w)
}

/// `n` scalars taken from one block of `n * width` bytes read at `pos` in a single step.
pub open spec fn spec_decode_block<T: Scalar>(data: Seq<u8>, pos: int, n: nat, endian: Endian) -> Result<
    (Seq<T>, int),
    Fault,
> {
    let w = T::spec_width();
    if n == 0 {
        Ok((Seq::empty(), pos))
    } else if readable(data, pos, (n * w) as int) {
        Ok(
            (
                Seq::new(n, |i: int| T::from_uint(uint_value(chunk(data, pos, w, i), endian))),
                pos + n * w,
            ),
        )
    } else {
        Err(Fault::Io)
    }
}

/// Reading `n` scalars as one block of bytes and splitting it gives exactly what decoding
/// them one after another gives: the same values, the same end position, and failure on the
/// same inputs.
pub proof fn lemma_block_matches_elementwise<T: Scalar>(
    data: Seq<u8>,
    pos: int,
    n: nat,
    endian: Endian,
)
    ensures
        spec_decode_seq::<T>(data, pos, n, endian) == spec_decode_block::<T>(data, pos, n, endian),
    decreases n,
{
    if n > 0 {
        let w = T::spec_width();
        let k = (n - 1) as nat;
        lemma_block_matches_elementwise::<T>(data, pos, k, endian);
        assert(n * w == k * w + w) by (nonlinear_arith)
            requires
                k == n - 1,
        ;
        assert(k * w >= 0) by (nonlinear_arith);
        T::lemma_scalar(data, pos + k * w, endian);
        if k == 0 {
            T::lemma_scalar(data, pos, endian);
            match spec_decode_seq::<T>(data, pos, n, endian) {
                Ok((s, p)) => {
                    assert(s =~= Seq::new(
                        n,
                        |i: int| T::from_uint(uint_value(chunk(data, pos, w, i), endian)),
                    ));
                },
                Err(_) => {},
            }
        } else {
            match spec_decode_seq::<T>(data, pos, k, endian) {
                Ok((s, p)) => {
                    match spec_decode_seq::<T>(data, pos, n, endian) {
                        Ok((s2, p2)) => {
                            assert(s2 =~= Seq::new(
                                n,
                                |i: int| T::from_uint(uint_value(chunk(data, pos, w, i), endian)),
                            ));
                        },
                        Err(_) => {},
                    }
                },
                Err(_) => {},
            }
        }
    }
}

/// Reads `n` scalars with a single read of `n * width` bytes.
pub fn read_block<T: Scalar>(reader: &mut Cursor, endian: Endian, n: usize) -> (r: Result<
    Vec<T>,
    Error,
>)
    ensures
        final(reader).bytes() == old(reader).bytes(),
        match spec_decode_block::<T>(old(reader).bytes(), old(reader).pos(), n as nat, endian) {
            Ok((s, p)) => r is Ok && r->Ok_0@ == s && final(reader).pos() == p,
            Err(f) => r is Err && r->Err_0.fault() == f,
        },
{
    let ghost d = reader.bytes();
    let ghost start = reader.pos();
    let w = T::width();
    proof {
        T::lemma_scalar(d, start, endian);
    }
    if n == 0 {
        let empty: Vec<T> = Vec::new();
        assert(empty@ =~= Seq::<T>::empty());
        return Ok(empty);
    }
    let len = reader.len();
    let total = match n.checked_mul(w) {
        Some(t) => t,
        None => {
            return Err(
                Error::Io(IoError::UnexpectedEof { position: reader.position(), wanted: u64::MAX }),
            );
        },
    };
    let bytes = reader.read_bytes(total)?;
    let mut out: Vec<T> = Vec::new();
    let mut i: usize = 0;
    while i < n
        invariant
            1 <= w <= 16,
            w == T::spec_width(),
            total == n * w,
            bytes@ == d.subrange(start, start + total),
            readable(d, start, total as int),
            i <= n,
            out@.len() == i,
            forall|j: int|
                0 <= j < i ==> out@[j] == T::from_uint(uint_value(chunk(d, start, w as nat, j), endian)),
        decreases n - i,
    {
        assert((i + 1) * w <= n * w) by (nonlinear_arith)
            requires
                i < n,
        ;
        assert((i + 1) * w == i * w + w) by (nonlinear_arith);
        assert(i * w >= 0) by (nonlinear_arith);
        let base = i * w;
        let mut part: Vec<u8> = Vec::new();
        let mut j: usize = 0;
        while j < w
            invariant
                j <= w,
                base + w <= total,
                total == bytes@.len(),
                part@ == bytes@.subrange(base as int, base + j),
            decreases w - j,
        {
            part.push(bytes[base + j]);
            assert(part@ =~= bytes@.subrange(base as int, base + j + 1));
            j = j + 1;
        }
        assert(part@ =~= chunk(d, start, w as nat, i as int));
        let v = match endian {
            Endian::Little => le_fold(&part),
            Endian::Big => be_fold(&part),
        };
        out.push(T::from_uint_exec(v));
        i = i + 1;
    }
    assert(out@ =~= Seq::new(
        n as nat,
        |i: int| T::from_uint(uint_value(chunk(d, start, w as nat, i), endian)),
    ));
    Ok(out)
}

/// Reads `n` scalars; in little-endian order, where the in-memory form equals the bytes, as
/// one block, and otherwise one by one. Both give what decoding them one by one gives.
pub fn read_scalars<T: Scalar>(reader: &mut Cursor, endian: Endian, n: usize) -> (r: Result<
    Vec<T>,
    Error,
>)
    ensures
        final(reader).bytes() == old(reader).bytes(),
        match spec_decode_seq::<T>(old(reader).bytes(), old(reader).pos(), n as nat, endian) {
            Ok((s, p)) => r is Ok && r->Ok_0@ == s && final(reader).pos() == p,
            Err(f) => r is Err && r->Err_0.fault() == f,
        },
{
    proof {
        lemma_block_matches_elementwise::<T>(reader.bytes(), reader.pos(), n as nat, endian);
    }
    match endian {
        Endian::Little => read_block::<T>(reader, endian, n),
        Endian::Big => {
            let r = read_seq::<T>(reader, endian, n as u64);
            proof {
                T::lemma_scalar(old(reader).bytes(), old(reader).pos(), endian);
                if r is Ok {
                    assert(r->Ok_0@ =~= models(r->Ok_0@));
                }
            }
            r
        },
    }
}

} // verus!
