use vstd::prelude::*;

use crate::cursor::Cursor;
use crate::error::Error;
use crate::{Endian, TigerReadable};

verus! {

/// Decodes a bit-flag set stored as a `u8`, keeping only the bits set in `known`; other bits
/// are dropped without error.
pub fn read_flags_u8(reader: &mut Cursor, endian: Endian, known: u8) -> (r: Result<u8, Error>)
    ensures
        final(reader).bytes() == old(reader).bytes(),
        match u8::spec_decode(old(reader).bytes(), old(reader).pos(), endian) {
            Ok((bits, p)) => r is Ok && r->Ok_0 == bits & known && final(reader).pos() == p,
            Err(f) => r is Err && r->Err_0.fault() == f,
        },
{
    let bits = u8::read_ds_endian(reader, endian)?;
    Ok(bits & known)
}

/// Decodes a bit-flag set stored as a `u16`, keeping only the bits set in `known`; other bits
/// are dropped without error.
pub fn read_flags_u16(reader: &mut Cursor, endian: Endian, known: u16) -> (r: Result<u16, Error>)
    ensures
        final(reader).bytes() == old(reader).bytes(),
        match u16::spec_decode(old(reader).bytes(), old(reader).pos(), endian) {
            Ok((bits, p)) => r is Ok && r->Ok_0 == bits & known && final(reader).pos() == p,
            Err(f) => r is Err && r->Err_0.fault() == f,
        },
{
    let bits = u16::read_ds_endian(reader, endian)?;
    Ok(bits & known)
}

/// Decodes a bit-flag set stored as a `u32`, keeping only the bits set in `known`; other bits
/// are dropped without error.
pub fn read_flags_u32(reader: &mut Cursor, endian: Endian, known: u32) -> (r: Result<u32, Error>)
    ensures
        final(reader).bytes() == old(reader).bytes(),
        match u32::spec_decode(old(reader).bytes(), old(reader).pos(), endian) {
            Ok((bits, p)) => r is Ok && r->Ok_0 == bits & known && final(reader).pos() == p,
            Err(f) => r is Err && r->Err_0.fault() == f,
        },
{
    let bits = u32::read_ds_endian(reader, endian)?;
    Ok(bits & known)
}

/// Decodes a bit-flag set stored as a `u64`, keeping only the bits set in `known`; other bits
/// are dropped without error.
pub fn read_flags_u64(reader: &mut Cursor, endian: Endian, known: u64) -> (r: Result<u64, Error>)
    ensures
        final(reader).bytes() == old(reader).bytes(),
        match u64::spec_decode(old(reader).bytes(), old(reader).pos(), endian) {
            Ok((bits, p)) => r is Ok && r->Ok_0 == bits & known && final(reader).pos() == p,
            Err(f) => r is Err && r->Err_0.fault() == f,
        },
{
    let bits = u64::read_ds_endian(reader, endian)?;
    Ok(bits & known)
}

} // verus!
