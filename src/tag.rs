use vstd::prelude::*;

use crate::cursor::Cursor;
use crate::error::{Error, Fault};
use crate::{Descriptor, Endian, TigerReadable};

verus! {

/// A 32-bit identifier of a tag in a package store.
#[derive(Clone, Copy, PartialEq, Eq, Structural, Debug)]
pub struct TagHash(pub u32);

impl TagHash {
    /// The hash that refers to no tag.
    pub fn none() -> (r: TagHash)
        ensures
            r == TagHash(u32::MAX),
    {
        TagHash(u32::MAX)
    }
}

/// A 64-bit identifier of a tag in a package store.
#[derive(Clone, Copy, PartialEq, Eq, Structural, Debug)]
pub struct TagHash64(pub u64);

impl TigerReadable for TagHash {
    type Model = TagHash;

    open spec fn model(&self) -> TagHash {
        *self
    }

    open spec fn spec_decode(data: Seq<u8>, pos: int, endian: Endian) -> Result<(TagHash, int), Fault> {
        match <u32 as TigerReadable>::spec_decode(data, pos, endian) {
            Ok((v, p)) => Ok((TagHash(v), p)),
            Err(f) => Err(f),
        }
    }

    open spec fn spec_descriptor() -> Descriptor {
        Descriptor { is_zero_copy: false, size: 4, id: None, etype: None }
    }

    fn descriptor() -> (d: Descriptor) {
        Descriptor { is_zero_copy: false, size: 4, id: None, etype: None }
    }

    fn read_ds_endian(reader: &mut Cursor, endian: Endian) -> (r: Result<TagHash, Error>) {
        let ghost d = reader.bytes();
        let ghost p0 = reader.pos();
        let r = u32::read_ds_endian(reader, endian);
        match r {
            Ok(v) => {
                assert(Self::spec_decode(d, p0, endian) == Ok::<(TagHash, int), Fault>(
                    (TagHash(v), reader.pos()),
                ));
                assert(TagHash(v).model() == TagHash(v));
                Ok(TagHash(v))
            },
            Err(e) => Err(e),
        }
    }
}

impl TigerReadable for TagHash64 {
    type Model = TagHash64;

    open spec fn model(&self) -> TagHash64 {
        *self
    }

    open spec fn spec_decode(data: Seq<u8>, pos: int, endian: Endian) -> Result<(TagHash64, int), Fault> {
        match u64::spec_decode(data, pos, endian) {
            Ok((v, p)) => Ok((TagHash64(v), p)),
            Err(f) => Err(f),
        }
    }

    open spec fn spec_descriptor() -> Descriptor {
        Descriptor { is_zero_copy: false, size: 8, id: None, etype: None }
    }

    fn descriptor() -> (d: Descriptor) {
        Descriptor { is_zero_copy: false, size: 8, id: None, etype: None }
    }

    fn read_ds_endian(reader: &mut Cursor, endian: Endian) -> (r: Result<TagHash64, Error>) {
        let v = u64::read_ds_endian(reader, endian)?;
        Ok(TagHash64(v))
    }
}

/// A value of `T` that declares itself the structure with id `ID`; on disk it is just the `T`.
#[derive(Clone, Copy, PartialEq, Eq, Debug)]
pub struct Tagged<T: TigerReadable, const ID: u32>(pub T);

impl<T: TigerReadable, const ID: u32> TigerReadable for Tagged<T, ID> {
    type Model = T::Model;

    open spec fn model(&self) -> T::Model {
        self.0.model()
    }

    open spec fn spec_decode(data: Seq<u8>, pos: int, endian: Endian) -> Result<(T::Model, int), Fault> {
        T::spec_decode(data, pos, endian)
    }

    open spec fn spec_descriptor() -> Descriptor {
        Descriptor {
            is_zero_copy: T::spec_descriptor().is_zero_copy,
            size: T::spec_descriptor().size,
            id: Some(ID),
            etype: None,
        }
    }

    fn descriptor() -> (d: Descriptor) {
        let inner = T::descriptor();
        Descriptor { is_zero_copy: inner.is_zero_copy, size: inner.size, id: Some(ID), etype: None }
    }

    fn read_ds_endian(reader: &mut Cursor, endian: Endian) -> (r: Result<Tagged<T, ID>, Error>) {
        let v = T::read_ds_endian(reader, endian)?;
        Ok(Tagged(v))
    }
}

} // verus!
