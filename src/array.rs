use vstd::prelude::*;

use crate::cursor::Cursor;
use crate::error::{Error, Fault, FieldRecord, ResultExt};
use crate::vector::{first_failing, lemma_decode_seq_err, models, spec_decode_seq};
use crate::{Descriptor, Endian, TigerReadable};

verus! {

/// Relies on std's `TryFrom<Vec<T>> for [T; N]`, which succeeds exactly when the vector holds
/// `N` items, and keeps them in order.
#[verifier::external_body]
fn vec_into_array<T, const N: usize>(v: Vec<T>) -> (r: [T; N])
    requires
        v@.len() == N,
    ensures
        r@ == v@,
{
    <[T; N]>::try_from(v).ok().unwrap()
}

/// `count` copies of a field of `size` bytes, or `usize::MAX` where that does not fit.
pub open spec fn repeated_size(count: usize, size: usize) -> usize {
    if count * size > usize::MAX {
        usize::MAX
    } else {
        (count * size) as usize
    }
}

fn repeated_size_exec(count: usize, size: usize) -> (r: usize)
    ensures
        r == repeated_size(count, size),
{
    match count.checked_mul(size) {
        Some(s) => s,
        None => usize::MAX,
    }
}

impl<T: TigerReadable, const N: usize> TigerReadable for [T; N] {
    type Model = Seq<T::Model>;

    open spec fn model(&self) -> Seq<T::Model> {
        models(self@)
    }

    /// `N` values one after another.
    open spec fn spec_decode(data: Seq<u8>, pos: int, endian: Endian) -> Result<
        (Seq<T::Model>, int),
        Fault,
    > {
        spec_decode_seq::<T>(data, pos, N as nat, endian)
    }

    open spec fn spec_descriptor() -> Descriptor {
        Descriptor {
            is_zero_copy: T::spec_descriptor().is_zero_copy,
            size: repeated_size(N, T::spec_descriptor().size),
            id: None,
            etype: None,
        }
    }

    fn descriptor() -> (d: Descriptor) {
        let inner = T::descriptor();
        Descriptor {
            is_zero_copy: inner.is_zero_copy,
            size: repeated_size_exec(N, inner.size),
            id: None,
            etype: None,
        }
    }

    /// A failing element is reported with its index.
    fn read_ds_endian(reader: &mut Cursor, endian: Endian) -> (r: Result<[T; N], Error>)
        ensures
            spec_decode_seq::<T>(old(reader).bytes(), old(reader).pos(), N as nat, endian) is Err
                ==> r is Err && r->Err_0.frames().len() > 0 && r->Err_0.frames()[0]
                == (FieldRecord::Element {
                index: first_failing::<T>(
                    old(reader).bytes(),
                    old(reader).pos(),
                    N as nat,
                    endian,
                ) as usize,
            }),
    {
        let ghost d = reader.bytes();
        let ghost start = reader.pos();
        let mut out: Vec<T> = Vec::new();
        let mut i: usize = 0;
        assert(models(out@) =~= Seq::<T::Model>::empty());
        while i < N
            invariant
                i <= N,
                out@.len() == i,
                d == old(reader).bytes(),
                start == old(reader).pos(),
                reader.bytes() == d,
                spec_decode_seq::<T>(d, start, i as nat, endian) == Ok::<
                    (Seq<T::Model>, int),
                    Fault,
                >((models(out@), reader.pos())),
            decreases N - i,
        {
            let ghost before = out@;
            match T::read_ds_endian(reader, endian).with_array_element(i) {
                Ok(v) => {
                    out.push(v);
                    assert(models(out@) =~= models(before).push(v.model()));
                },
                Err(e) => {
                    proof {
                        lemma_decode_seq_err::<T>(d, start, (i + 1) as nat, N as nat, endian);
                    }
                    return Err(e);
                },
            }
            i = i + 1;
        }
        let arr: [T; N] = vec_into_array(out);
        assert(models(arr@) =~= models(out@));
        Ok(arr)
    }
}

} // verus!
