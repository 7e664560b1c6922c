use vstd::prelude::*;

pub mod array;
pub mod bulk;
pub mod cursor;
pub mod enums;
pub mod error;
pub mod flags;
pub mod pointer;
pub mod padding;
pub mod primitive;
pub mod record;
pub mod store;
pub mod string;
pub mod tuples;
pub mod tag;
mod text;
pub mod variant;
pub mod vector;

pub use cursor::Cursor;
pub use error::{Error, FieldRecord, FieldRecordStack, Fault, ResultExt};
pub use pointer::{Pointer, PointerOptional, ResourcePointer, ResourcePointerWithClass};
pub use padding::Padding;
pub use string::NullString;
pub use tag::{TagHash, TagHash64};
pub use variant::{OptionalVariantPointer, VariantEnum, VariantPointer};

verus! {

/// Relative pointers are stored as this signed integer.
pub type Offset = i64;

/// Element counts are stored as this signed integer.
pub type Size = i64;

/// The width in bytes of `Offset` and of `Size`, which change together.
pub const OFFSET_SIZE: usize = 8;

/// Byte order used for every scalar of one decode call.
#[derive(Clone, Copy, PartialEq, Eq, Structural, Debug)]
pub enum Endian {
    Little,
    Big,
}

/// What is known of a decodable type as a whole, independent of any value.
#[derive(Clone, Copy, Debug)]
pub struct Descriptor {
    /// Its in-memory form equals its little-endian on-disk form.
    pub is_zero_copy: bool,
    /// Bytes it takes at its field site.
    pub size: usize,
    /// The structure id it declares.
    pub id: Option<u32>,
    /// The file type and optional subtype it declares.
    pub etype: Option<(u8, Option<u8>)>,
}

/// A type that can be decoded from a byte stream.
pub trait TigerReadable: Sized {
    /// What a decoded value stands for.
    type Model;

    spec fn model(&self) -> Self::Model;

    /// The value decoded from `data` at `pos` and the position after it, or why decoding fails.
    spec fn spec_decode(data: Seq<u8>, pos: int, endian: Endian) -> Result<(Self::Model, int), Fault>;

    spec fn spec_descriptor() -> Descriptor;

    fn descriptor() -> (d: Descriptor)
        ensures
            d == Self::spec_descriptor(),
    ;

    fn read_ds_endian(reader: &mut Cursor, endian: Endian) -> (r: Result<Self, Error>)
        ensures
            final(reader).bytes() == old(reader).bytes(),
            match Self::spec_decode(old(reader).bytes(), old(reader).pos(), endian) {
                Ok((m, p)) => r is Ok && r->Ok_0.model() == m && final(reader).pos() == p,
                Err(f) => r is Err && r->Err_0.fault() == f,
            },
    ;

    fn read_ds(reader: &mut Cursor) -> (r: Result<Self, Error>)
        ensures
            final(reader).bytes() == old(reader).bytes(),
            match Self::spec_decode(old(reader).bytes(), old(reader).pos(), Endian::Little) {
                Ok((m, p)) => r is Ok && r->Ok_0.model() == m && final(reader).pos() == p,
                Err(f) => r is Err && r->Err_0.fault() == f,
            },
    {
        Self::read_ds_endian(reader, Endian::Little)
    }
}

} // verus!
