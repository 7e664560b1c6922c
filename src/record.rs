use vstd::prelude::*;

use crate::cursor::{seekable, Cursor};
use crate::error::{Error, Fault, ResultExt};
use crate::{Endian, TigerReadable};

verus! {

/// Decodes one field of a record at the current position; a failure is reported with
/// `typename.field` in front of its path.
pub fn read_field<T: TigerReadable>(
    reader: &mut Cursor,
    endian: Endian,
    typename: &str,
    field: &str,
) -> (r: Result<T, Error>)
    ensures
        final(reader).bytes() == old(reader).bytes(),
        match T::spec_decode(old(reader).bytes(), old(reader).pos(), endian) {
            Ok((m, p)) => r is Ok && r->Ok_0.model() == m && final(reader).pos() == p,
            Err(f) => r is Err && r->Err_0.fault() == f && r->Err_0.frames().len() > 0
                && r->Err_0.frames()[0].is_field_named(typename@, field@),
        },
{
    T::read_ds_endian(reader, endian).with_field(typename, field)
}

/// Decodes a field stored `offset` bytes after the start of its record at `start`, as for a
/// field with an explicit offset.
pub fn read_field_at<T: TigerReadable>(
    reader: &mut Cursor,
    endian: Endian,
    start: u64,
    offset: u64,
    typename: &str,
    field: &str,
) -> (r: Result<T, Error>)
    ensures
        final(reader).bytes() == old(reader).bytes(),
        !seekable(start + offset) ==> r is Err && r->Err_0.fault() == Fault::Io,
        seekable(start + offset) ==> match T::spec_decode(
            old(reader).bytes(),
            start + offset,
            endian,
        ) {
            Ok((m, p)) => r is Ok && r->Ok_0.model() == m && final(reader).pos() == p,
            Err(f) => r is Err && r->Err_0.fault() == f && r->Err_0.frames().len() > 0
                && r->Err_0.frames()[0].is_field_named(typename@, field@),
        },
{
    reader.seek_to(start as i128 + offset as i128)?;
    read_field(reader, endian, typename, field)
}

} // verus!
