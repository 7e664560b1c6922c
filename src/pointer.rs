use vstd::prelude::*;

use crate::cursor::{seekable, Cursor};
use crate::error::{Error, Fault};
use crate::tag::TagHash;
use crate::{Descriptor, Endian, Offset, TigerReadable, OFFSET_SIZE};

verus! {

/// The descriptor of a field that holds one relative offset.
pub open spec fn offset_descriptor() -> Descriptor {
    Descriptor { is_zero_copy: false, size: OFFSET_SIZE, id: None, etype: None }
}

fn offset_descriptor_exec() -> (d: Descriptor)
    ensures
        d == offset_descriptor(),
{
    Descriptor { is_zero_copy: false, size: OFFSET_SIZE, id: None, etype: None }
}

/// `x` clamped to the range of `u64`.
pub open spec fn saturate_u64(x: int) -> u64 {
    if x < 0 {
        0
    } else if x > u64::MAX {
        u64::MAX
    } else {
        x as u64
    }
}

/// Whether an offset value marks a resource pointer as absent.
pub open spec fn is_sentinel(o: Offset) -> bool {
    o == 0 || o == Offset::MAX
}

/// A decoded value found through a relative offset, with the absolute position it was read from.
#[derive(Clone, Debug)]
pub struct Pointer<T: TigerReadable>(pub T, pub Offset);

impl<T: TigerReadable> Pointer<T> {
    /// The absolute position the value was read from.
    pub fn offset(&self) -> (r: Offset)
        ensures
            r == self.1,
    {
        self.1
    }
}

impl<T: TigerReadable> TigerReadable for Pointer<T> {
    type Model = (T::Model, Offset);

    open spec fn model(&self) -> (T::Model, Offset) {
        (self.0.model(), self.1)
    }

    /// The offset at `pos` is relative to `pos`; the stream comes back to just after it.
    open spec fn spec_decode(data: Seq<u8>, pos: int, endian: Endian) -> Result<
        ((T::Model, Offset), int),
        Fault,
    > {
        match Offset::spec_decode(data, pos, endian) {
            Err(f) => Err(f),
            Ok((o, after)) => {
                let target = pos + o;
                if !seekable(target) {
                    Err(Fault::Io)
                } else {
                    match T::spec_decode(data, target, endian) {
                        Err(f) => Err(f),
                        Ok((m, _)) => Ok(((m, target as Offset), after)),
                    }
                }
            },
        }
    }

    open spec fn spec_descriptor() -> Descriptor {
        offset_descriptor()
    }

    fn descriptor() -> (d: Descriptor) {
        offset_descriptor_exec()
    }

    fn read_ds_endian(reader: &mut Cursor, endian: Endian) -> (r: Result<Self, Error>) {
        let base = reader.position();
        let o = Offset::read_ds_endian(reader, endian)?;
        let target: i128 = base as i128 + o as i128;
        let save = reader.position();
        reader.seek_to(target)?;
        let data = T::read_ds_endian(reader, endian)?;
        reader.set_position(save);
        Ok(Pointer(data, target as Offset))
    }
}

/// Decoding a pointer, whether its target lies before or after it, leaves the stream just
/// after the 8-byte offset field.
pub proof fn lemma_pointer_restores_position<T: TigerReadable>(
    data: Seq<u8>,
    pos: int,
    endian: Endian,
)
    ensures
        Pointer::<T>::spec_decode(data, pos, endian) is Ok ==> Pointer::<T>::spec_decode(
            data,
            pos,
            endian,
        )->Ok_0.1 == pos + OFFSET_SIZE as int,
        PointerOptional::<T>::spec_decode(data, pos, endian) is Ok
            ==> PointerOptional::<T>::spec_decode(data, pos, endian)->Ok_0.1 == pos + OFFSET_SIZE as int,
{
}

/// Like `Pointer`, but an offset of zero means there is no value.
#[derive(Clone, Debug)]
pub struct PointerOptional<T: TigerReadable>(pub Option<T>, pub Offset);

impl<T: TigerReadable> PointerOptional<T> {
    /// The position of the offset field, where a value is present.
    pub fn offset(&self) -> (r: Option<Offset>)
        ensures
            r == (match self.0 {
                Some(_) => Some(self.1),
                None => None::<Offset>,
            }),
    {
        match &self.0 {
            Some(_) => Some(self.1),
            None => None,
        }
    }
}

impl<T: TigerReadable> TigerReadable for PointerOptional<T> {
    type Model = (Option<T::Model>, Offset);

    open spec fn model(&self) -> (Option<T::Model>, Offset) {
        (
            match self.0 {
                Some(v) => Some(v.model()),
                None => None,
            },
            self.1,
        )
    }

    open spec fn spec_decode(data: Seq<u8>, pos: int, endian: Endian) -> Result<
        ((Option<T::Model>, Offset), int),
        Fault,
    > {
        match Offset::spec_decode(data, pos, endian) {
            Err(f) => Err(f),
            Ok((o, after)) => {
                let target = pos + o;
                if o == 0 {
                    Ok(((None, pos as Offset), after))
                } else if !seekable(target) {
                    Err(Fault::Io)
                } else {
                    match T::spec_decode(data, target, endian) {
                        Err(f) => Err(f),
                        Ok((m, _)) => Ok(((Some(m), pos as Offset), after)),
                    }
                }
            },
        }
    }

    open spec fn spec_descriptor() -> Descriptor {
        offset_descriptor()
    }

    fn descriptor() -> (d: Descriptor) {
        offset_descriptor_exec()
    }

    fn read_ds_endian(reader: &mut Cursor, endian: Endian) -> (r: Result<Self, Error>) {
        let base = reader.position();
        let o = Offset::read_ds_endian(reader, endian)?;
        if o == 0 {
            return Ok(PointerOptional(None, base as Offset));
        }
        let target: i128 = base as i128 + o as i128;
        let save = reader.position();
        reader.seek_to(target)?;
        let data = T::read_ds_endian(reader, endian)?;
        reader.set_position(save);
        Ok(PointerOptional(Some(data), base as Offset))
    }
}

/// An optional pointer whose offset is zero decodes to no value, at the position of the
/// offset field, from the 8 bytes of that field alone: nothing past it is read.
pub proof fn lemma_optional_null<T: TigerReadable>(
    data: Seq<u8>,
    other: Seq<u8>,
    pos: int,
    endian: Endian,
)
    requires
        Offset::spec_decode(data, pos, endian) == Ok::<(Offset, int), Fault>((0, pos + OFFSET_SIZE as int)),
        0 <= pos && pos + OFFSET_SIZE as int <= other.len(),
        other.subrange(pos, pos + OFFSET_SIZE as int) == data.subrange(pos, pos + OFFSET_SIZE as int),
    ensures
        PointerOptional::<T>::spec_decode(data, pos, endian) == Ok::<
            ((Option<T::Model>, Offset), int),
            Fault,
        >(((None, pos as Offset), pos + OFFSET_SIZE as int)),
        PointerOptional::<T>::spec_decode(other, pos, endian) == PointerOptional::<
            T,
        >::spec_decode(data, pos, endian),
{
}

/// The location and type tag of a resource, without decoding it.
#[derive(Clone, Copy, PartialEq, Eq, Structural, Debug)]
pub struct ResourcePointer {
    pub offset: u64,
    pub resource_type: u32,
    pub is_valid: bool,
}

impl TigerReadable for ResourcePointer {
    type Model = ResourcePointer;

    open spec fn model(&self) -> ResourcePointer {
        *self
    }

    /// The type tag is the `u32` just before the target.
    open spec fn spec_decode(data: Seq<u8>, pos: int, endian: Endian) -> Result<
        (ResourcePointer, int),
        Fault,
    > {
        match Offset::spec_decode(data, pos, endian) {
            Err(f) => Err(f),
            Ok((o, after)) => {
                if is_sentinel(o) {
                    Ok((ResourcePointer { offset: 0, resource_type: u32::MAX, is_valid: false }, after))
                } else if !seekable(pos + o - 4) {
                    Err(Fault::Io)
                } else {
                    match u32::spec_decode(data, pos + o - 4, endian) {
                        Err(f) => Err(f),
                        Ok((t, _)) => Ok(
                            (
                                ResourcePointer {
                                    offset: saturate_u64(pos + o),
                                    resource_type: t,
                                    is_valid: true,
                                },
                                after,
                            ),
                        ),
                    }
                }
            },
        }
    }

    open spec fn spec_descriptor() -> Descriptor {
        offset_descriptor()
    }

    fn descriptor() -> (d: Descriptor) {
        offset_descriptor_exec()
    }

    fn read_ds_endian(reader: &mut Cursor, endian: Endian) -> (r: Result<Self, Error>) {
        let base = reader.position();
        let o = Offset::read_ds_endian(reader, endian)?;
        if o == 0 || o == Offset::MAX {
            return Ok(ResourcePointer { offset: 0, resource_type: u32::MAX, is_valid: false });
        }
        let save = reader.position();
        let target: i128 = base as i128 + o as i128;
        reader.seek_to(target - 4)?;
        let resource_type = u32::read_ds_endian(reader, endian)?;
        reader.set_position(save);
        let offset: u64 = if target > u64::MAX as i128 {
            u64::MAX
        } else {
            target as u64
        };
        Ok(ResourcePointer { offset, resource_type, is_valid: true })
    }
}

/// A resource pointer that also records the tag hash and class tag stored after the type tag.
#[derive(Clone, Copy, PartialEq, Eq, Structural, Debug)]
pub struct ResourcePointerWithClass {
    pub offset: u64,
    pub is_valid: bool,
    pub resource_type: u32,
    /// Usually just the current tag
    pub parent_tag: TagHash,
    pub class_type: u32,
}

impl TigerReadable for ResourcePointerWithClass {
    type Model = ResourcePointerWithClass;

    open spec fn model(&self) -> ResourcePointerWithClass {
        *self
    }

    /// Type tag, tag hash and class tag stand one after another from 4 bytes before the
    /// target; the recorded offset is the position after them.
    open spec fn spec_decode(data: Seq<u8>, pos: int, endian: Endian) -> Result<
        (ResourcePointerWithClass, int),
        Fault,
    > {
        match Offset::spec_decode(data, pos, endian) {
            Err(f) => Err(f),
            Ok((o, after)) => {
                if is_sentinel(o) {
                    Ok(
                        (
                            ResourcePointerWithClass {
                                offset: 0,
                                is_valid: false,
                                resource_type: u32::MAX,
                                parent_tag: TagHash(u32::MAX),
                                class_type: u32::MAX,
                            },
                            after,
                        ),
                    )
                } else if !seekable(pos + o - 4) {
                    Err(Fault::Io)
                } else {
                    match u32::spec_decode(data, pos + o - 4, endian) {
                        Err(f) => Err(f),
                        Ok((t, p1)) => match u32::spec_decode(data, p1, endian) {
                            Err(f) => Err(f),
                            Ok((h, p2)) => match u32::spec_decode(data, p2, endian) {
                                Err(f) => Err(f),
                                Ok((c, p3)) => Ok(
                                    (
                                        ResourcePointerWithClass {
                                            offset: p3 as u64,
                                            is_valid: true,
                                            resource_type: t,
                                            parent_tag: TagHash(h),
                                            class_type: c,
                                        },
                                        after,
                                    ),
                                ),
                            },
                        },
                    }
                }
            },
        }
    }

    open spec fn spec_descriptor() -> Descriptor {
        offset_descriptor()
    }

    fn descriptor() -> (d: Descriptor) {
        offset_descriptor_exec()
    }

    fn read_ds_endian(reader: &mut Cursor, endian: Endian) -> (r: Result<Self, Error>) {
        let base = reader.position();
        let o = Offset::read_ds_endian(reader, endian)?;
        if o == 0 || o == Offset::MAX {
            return Ok(
                ResourcePointerWithClass {
                    offset: 0,
                    is_valid: false,
                    resource_type: u32::MAX,
                    parent_tag: TagHash::none(),
                    class_type: u32::MAX,
                },
            );
        }
        let save = reader.position();
        let target: i128 = base as i128 + o as i128;
        reader.seek_to(target - 4)?;
        let resource_type = u32::read_ds_endian(reader, endian)?;
        let parent_tag = TagHash::read_ds_endian(reader, endian)?;
        let class_type = u32::read_ds_endian(reader, endian)?;
        let true_offset = reader.position();
        reader.set_position(save);
        Ok(ResourcePointerWithClass { offset: true_offset, is_valid: true, resource_type, parent_tag, class_type })
    }
}

} // verus!
