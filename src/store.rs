use vstd::prelude::*;

use crate::error::{Error, Fault};
use crate::vector::ANY_TYPE;
use crate::Descriptor;

verus! {

/// What a package store says of a tag before its bytes are read.
#[derive(Clone, Copy, PartialEq, Eq, Structural, Debug)]
pub struct TagEntry {
    /// The structure id the tag holds.
    pub reference: u32,
    pub file_type: u8,
    pub file_subtype: u8,
}

/// Whether a tag described by `entry` may be decoded as a type described by `d`: a declared
/// structure id other than the wildcard must match the entry's reference, and a declared file
/// type must match the entry's file type.
pub open spec fn spec_check_entry(d: Descriptor, entry: TagEntry) -> Result<(), Fault> {
    if d.id is Some && d.id->Some_0 != ANY_TYPE && d.id->Some_0 != entry.reference {
        Err(Fault::TypeMismatch { expected: d.id->Some_0, found: entry.reference })
    } else if d.etype is Some && d.etype->Some_0.0 != entry.file_type {
        Err(
            Fault::TypeMismatch {
                expected: d.etype->Some_0.0 as u32,
                found: entry.file_type as u32,
            },
        )
    } else {
        Ok(())
    }
}

/// Checks a tag's store entry against the type it is about to be decoded as.
pub fn check_entry(d: &Descriptor, entry: &TagEntry) -> (r: Result<(), Error>)
    ensures
        match spec_check_entry(*d, *entry) {
            Ok(()) => r is Ok,
            Err(f) => r is Err && r->Err_0.fault() == f,
        },
{
    if let Some(id) = d.id {
        if id != ANY_TYPE && id != entry.reference {
            return Err(Error::TypeMismatch { expected: id, found: entry.reference });
        }
    }
    if let Some((etype, _)) = d.etype {
        if etype != entry.file_type {
            return Err(
                Error::TypeMismatch { expected: etype as u32, found: entry.file_type as u32 },
            );
        }
    }
    Ok(())
}

} // verus!
