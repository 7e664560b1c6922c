use vstd::prelude::*;

use crate::cursor::{seekable, Cursor};
use crate::error::{Error, Fault, FieldRecord, ResultExt};
use crate::{Descriptor, Endian, Offset, Size, TigerReadable, OFFSET_SIZE};

verus! {

/// The tag value that declares no particular element type.
pub const ANY_TYPE: u32 = 0xFFFF_FFFF;

/// `n` values of `T` decoded one after another from `pos`, and the position after them.
pub open spec fn spec_decode_seq<T: TigerReadable>(
    data: Seq<u8>,
    pos: int,
    n: nat,
    endian: Endian,
) -> Result<(Seq<T::Model>, int), Fault>
    decreases n,
{
    if n == 0 {
        Ok((Seq::empty(), pos))
    } else {
        match spec_decode_seq::<T>(data, pos, (n - 1) as nat, endian) {
            Err(f) => Err(f),
            Ok((s, p)) => match T::spec_decode(data, p, endian) {
                Err(f) => Err(f),
                Ok((m, q)) => Ok((s.push(m), q)),
            },
        }
    }
}

/// The index of the element at which a run of `n` values from `pos` fails, where it fails.
pub open spec fn first_failing<T: TigerReadable>(
    data: Seq<u8>,
    pos: int,
    n: nat,
    endian: Endian,
) -> nat
    decreases n,
{
    if n == 0 {
        0
    } else if spec_decode_seq::<T>(data, pos, (n - 1) as nat, endian) is Err {
        first_failing::<T>(data, pos, (n - 1) as nat, endian)
    } else {
        (n - 1) as nat
    }
}

/// Once a run of values fails, every longer run from the same place fails the same way, at
/// the same element.
pub proof fn lemma_decode_seq_err<T: TigerReadable>(
    data: Seq<u8>,
    pos: int,
    k: nat,
    n: nat,
    endian: Endian,
)
    requires
        k <= n,
        spec_decode_seq::<T>(data, pos, k, endian) is Err,
    ensures
        spec_decode_seq::<T>(data, pos, n, endian) == spec_decode_seq::<T>(data, pos, k, endian),
        first_failing::<T>(data, pos, n, endian) == first_failing::<T>(data, pos, k, endian),
    decreases n - k,
{
    if k < n {
        lemma_decode_seq_err::<T>(data, pos, k, (n - 1) as nat, endian);
    }
}

pub open spec fn models<T: TigerReadable>(v: Seq<T>) -> Seq<T::Model> {
    v.map_values(|x: T| x.model())
}

/// Whether the element type tag at the head of an array block is compared, for elements of
/// declared id `id`.
pub open spec fn tag_checked(check: bool, id: Option<u32>) -> bool {
    check && id is Some && id->Some_0 != ANY_TYPE
}

/// The layout of a dynamic array: a count and a relative offset at the field; at the target a
/// repeated count, an optional element type tag, and the elements 16 bytes after the target.
/// Gives where the elements start and how many there are (`None` for an empty array), with the
/// position after the field, or why the header is rejected.
pub open spec fn spec_array_layout<T: TigerReadable>(
    data: Seq<u8>,
    pos: int,
    endian: Endian,
    check: bool,
) -> Result<(Option<(int, nat)>, int), Fault> {
    match Size::spec_decode(data, pos, endian) {
        Err(f) => Err(f),
        Ok((n, p1)) => match Offset::spec_decode(data, p1, endian) {
            Err(f) => Err(f),
            Ok((o, p2)) => {
                let target = p1 + o;
                if n == 0 {
                    Ok((None, p2))
                } else if !seekable(target) {
                    Err(Fault::Io)
                } else {
                    match Size::spec_decode(data, target, endian) {
                        Err(f) => Err(f),
                        Ok((header, p3)) => {
                            if header != n {
                                Err(Fault::InvalidStructure { count: n, header })
                            } else {
                                let tag = u32::spec_decode(data, p3, endian);
                                let id = T::spec_descriptor().id;
                                if tag_checked(check, id) && tag is Err {
                                    Err(tag->Err_0)
                                } else if tag_checked(check, id) && tag->Ok_0.0 != id->Some_0 {
                                    Err(
                                        Fault::TypeMismatch {
                                            expected: id->Some_0,
                                            found: tag->Ok_0.0,
                                        },
                                    )
                                } else if !seekable(target + 16) {
                                    Err(Fault::Io)
                                } else {
                                    Ok((Some((target + 16, n as u64 as nat)), p2))
                                }
                            }
                        },
                    }
                }
            },
        },
    }
}

/// A dynamic array: its layout, then its elements decoded one after another; the stream comes
/// back to just after the field.
pub open spec fn spec_decode_array<T: TigerReadable>(
    data: Seq<u8>,
    pos: int,
    endian: Endian,
    check: bool,
) -> Result<(Seq<T::Model>, int), Fault> {
    match spec_array_layout::<T>(data, pos, endian, check) {
        Err(f) => Err(f),
        Ok((None, p2)) => Ok((Seq::empty(), p2)),
        Ok((Some((start, n)), p2)) => match spec_decode_seq::<T>(data, start, n, endian) {
            Err(f) => Err(f),
            Ok((s, _)) => Ok((s, p2)),
        },
    }
}

/// A dynamic array whose repeated count differs from the count at its field fails with a
/// structural mismatch carrying both counts.
pub proof fn lemma_count_mismatch<T: TigerReadable>(
    data: Seq<u8>,
    pos: int,
    endian: Endian,
    check: bool,
    count: Size,
    offset: Offset,
    header: Size,
)
    requires
        Size::spec_decode(data, pos, endian) == Ok::<(Size, int), Fault>(
            (count, pos + OFFSET_SIZE),
        ),
        Offset::spec_decode(data, pos + OFFSET_SIZE, endian) == Ok::<(Offset, int), Fault>(
            (offset, pos + 2 * OFFSET_SIZE),
        ),
        seekable(pos + OFFSET_SIZE + offset),
        Size::spec_decode(data, pos + OFFSET_SIZE + offset, endian) == Ok::<(Size, int), Fault>(
            (header, pos + OFFSET_SIZE + offset + OFFSET_SIZE),
        ),
        count != 0,
        header != count,
    ensures
        spec_decode_array::<T>(data, pos, endian, check) == Err::<(Seq<T::Model>, int), Fault>(
            Fault::InvalidStructure { count, header },
        ),
{
}

/// A decoded dynamic array leaves the stream just after its count and offset fields, wherever its
/// elements lie.
pub proof fn lemma_array_restores_position<T: TigerReadable>(
    data: Seq<u8>,
    pos: int,
    endian: Endian,
    check: bool,
)
    ensures
        spec_decode_array::<T>(data, pos, endian, check) is Ok ==> spec_decode_array::<T>(
            data,
            pos,
            endian,
            check,
        )->Ok_0.1 == pos + 2 * OFFSET_SIZE,
{
}

/// Reads `count` values of `T` one after another; a failing value is reported with its index.
pub fn read_seq<T: TigerReadable>(reader: &mut Cursor, endian: Endian, count: u64) -> (r: Result<
    Vec<T>,
    Error,
>)
    ensures
        final(reader).bytes() == old(reader).bytes(),
        match spec_decode_seq::<T>(old(reader).bytes(), old(reader).pos(), count as nat, endian) {
            Ok((s, p)) => r is Ok && models(r->Ok_0@) == s && final(reader).pos() == p,
            Err(f) => r is Err && r->Err_0.fault() == f && r->Err_0.frames().len() > 0
                && r->Err_0.frames()[0] == (FieldRecord::Element {
                index: first_failing::<T>(
                    old(reader).bytes(),
                    old(reader).pos(),
                    count as nat,
                    endian,
                ) as usize,
            }),
        },
{
    let ghost d = reader.bytes();
    let ghost start = reader.pos();
    let mut out: Vec<T> = Vec::new();
    let mut i: u64 = 0;
    assert(models(out@) =~= Seq::<T::Model>::empty());
    while i < count
        invariant
            i <= count,
            d == old(reader).bytes(),
            start == old(reader).pos(),
            reader.bytes() == d,
            spec_decode_seq::<T>(d, start, i as nat, endian) == Ok::<(Seq<T::Model>, int), Fault>(
                (models(out@), reader.pos()),
            ),
        decreases count - i,
    {
        let ghost before = out@;
        match T::read_ds_endian(reader, endian).with_array_element(i as usize) {
            Ok(v) => {
                out.push(v);
                assert(models(out@) =~= models(before).push(v.model()));
            },
            Err(e) => {
                proof {
                    lemma_decode_seq_err::<T>(d, start, (i + 1) as nat, count as nat, endian);
                }
                return Err(e);
            },
        }
        i = i + 1;
    }
    Ok(out)
}

/// Reads a dynamic array, comparing the element type tag at the head of its block with the
/// element type's declared id when `check` is set. A failing element is reported with its
/// index.
pub fn read_vec_endian<T: TigerReadable>(reader: &mut Cursor, endian: Endian, check: bool) -> (r:
    Result<Vec<T>, Error>)
    ensures
        final(reader).bytes() == old(reader).bytes(),
        match spec_decode_array::<T>(old(reader).bytes(), old(reader).pos(), endian, check) {
            Ok((s, p)) => r is Ok && models(r->Ok_0@) == s && final(reader).pos() == p,
            Err(f) => r is Err && r->Err_0.fault() == f,
        },
        match spec_array_layout::<T>(old(reader).bytes(), old(reader).pos(), endian, check) {
            Ok((Some((start, n)), _)) => spec_decode_seq::<T>(old(reader).bytes(), start, n, endian)
                is Err ==> r is Err && r->Err_0.frames().len() > 0 && r->Err_0.frames()[0]
                == (FieldRecord::Element {
                index: first_failing::<T>(old(reader).bytes(), start, n, endian) as usize,
            }),
            _ => true,
        },
{
    let count = Size::read_ds_endian(reader, endian)?;
    let base = reader.position();
    let o = Offset::read_ds_endian(reader, endian)?;
    let target: i128 = base as i128 + o as i128;
    let save = reader.position();
    if count == 0 {
        let empty: Vec<T> = Vec::new();
        assert(models(empty@) =~= Seq::<T::Model>::empty());
        return Ok(empty);
    }
    reader.seek_to(target)?;
    let header = Size::read_ds_endian(reader, endian)?;
    if header != count {
        return Err(
            Error::InvalidStructure {
                position: save,
                pointer: target as u64,
                count,
                header,
            },
        );
    }
    let id = T::descriptor().id;
    if check {
        if let Some(expected) = id {
            if expected != ANY_TYPE {
                let found = u32::read_ds_endian(reader, endian)?;
                if found != expected {
                    return Err(
                        Error::TypeMismatch { expected, found },
                    );
                }
            }
        }
    }
    reader.seek_to(target + 16)?;
    let data = read_seq::<T>(reader, endian, count as u64)?;
    reader.set_position(save);
    Ok(data)
}

impl<T: TigerReadable> TigerReadable for Vec<T> {
    type Model = Seq<T::Model>;

    open spec fn model(&self) -> Seq<T::Model> {
        models(self@)
    }

    open spec fn spec_decode(data: Seq<u8>, pos: int, endian: Endian) -> Result<
        (Seq<T::Model>, int),
        Fault,
    > {
        spec_decode_array::<T>(data, pos, endian, false)
    }

    open spec fn spec_descriptor() -> Descriptor {
        Descriptor { is_zero_copy: false, size: (2 * OFFSET_SIZE) as usize, id: None, etype: None }
    }

    fn descriptor() -> (d: Descriptor) {
        Descriptor { is_zero_copy: false, size: 2 * OFFSET_SIZE, id: None, etype: None }
    }

    /// A failing element is reported with its index.
    fn read_ds_endian(reader: &mut Cursor, endian: Endian) -> (r: Result<Vec<T>, Error>)
        ensures
            match spec_array_layout::<T>(old(reader).bytes(), old(reader).pos(), endian, false) {
                Ok((Some((start, n)), _)) => spec_decode_seq::<T>(old(reader).bytes(), start, n, endian)
                    is Err ==> r is Err && r->Err_0.frames().len() > 0 && r->Err_0.frames()[0]
                    == (FieldRecord::Element {
                    index: first_failing::<T>(old(reader).bytes(), start, n, endian) as usize,
                }),
                _ => true,
            },
    {
        read_vec_endian(reader, endian, false)
    }
}

} // verus!
