use vstd::prelude::*;

use crate::cursor::{seekable, Cursor};
use crate::error::{Error, Fault};
use crate::vector::ANY_TYPE;
use crate::{Descriptor, Endian, TigerReadable};

verus! {

/// The first index at or after `i` where `s` holds `x`, or -1.
pub open spec fn first_index_from(s: Seq<u32>, x: u32, i: int) -> int
    decreases s.len() - i,
{
    if i < 0 || i >= s.len() {
        -1
    } else if s[i] == x {
        i
    } else {
        first_index_from(s, x, i + 1)
    }
}

/// The first index where `s` holds `x`, or -1.
pub open spec fn first_index(s: Seq<u32>, x: u32) -> int {
    first_index_from(s, x, 0)
}

pub proof fn lemma_first_index_from(s: Seq<u32>, x: u32, i: int)
    requires
        0 <= i,
    ensures
        first_index_from(s, x, i) == -1 || (i <= first_index_from(s, x, i) < s.len() && s[first_index_from(
            s,
            x,
            i,
        )] == x),
        first_index_from(s, x, i) == -1 ==> forall|j: int| i <= j < s.len() ==> s[j] != x,
    decreases s.len() - i,
{
    if i < s.len() && s[i] != x {
        lemma_first_index_from(s, x, i + 1);
    }
}

/// Looks up a class tag in a list of registered tags; the first match wins.
pub fn find_class(classes: &Vec<u32>, class: u32) -> (r: Option<usize>)
    ensures
        match r {
            Some(k) => k == first_index(classes@, class),
            None => first_index(classes@, class) == -1,
        },
{
    let mut i: usize = 0;
    while i < classes.len()
        invariant
            i <= classes@.len(),
            first_index(classes@, class) == first_index_from(classes@, class, i as int),
        decreases classes@.len() - i,
    {
        if classes[i] == class {
            return Some(i);
        }
        i = i + 1;
    }
    None
}

/// Where a class tag leads.
#[derive(Clone, Copy, PartialEq, Eq, Structural, Debug)]
pub enum Resolved {
    /// The record type registered at this index.
    Known(usize),
    /// The catch-all, for a tag that is not registered.
    Unknown { class: u32, offset: u64 },
}

/// Decides where a class tag met at stream position `offset` leads: the first record type
/// registered for it; else the catch-all carrying the tag and the offset, where there is one;
/// else a missing-variant error naming the tag and `typename`.
pub fn resolve_variant(
    classes: &Vec<u32>,
    has_unknown: bool,
    class: u32,
    offset: u64,
    typename: String,
) -> (r: Result<Resolved, Error>)
    ensures
        first_index(classes@, class) >= 0 ==> r is Ok && r->Ok_0 is Known && r->Ok_0->Known_0
            == first_index(classes@, class) && first_index(classes@, class) < classes@.len(),
        first_index(classes@, class) < 0 && has_unknown ==> r == Ok::<Resolved, Error>(
            Resolved::Unknown { class, offset },
        ),
        first_index(classes@, class) < 0 && !has_unknown ==> r is Err && r->Err_0
            == (Error::MissingVariantType { class, typename }),
{
    proof {
        lemma_first_index_from(classes@, class, 0);
    }
    match find_class(classes, class) {
        Some(k) => Ok(Resolved::Known(k)),
        None => {
            if has_unknown {
                Ok(Resolved::Unknown { class, offset })
            } else {
                Err(Error::MissingVariantType { class, typename })
            }
        },
    }
}

/// A closed set of record types, told apart on disk by a 32-bit class tag, with an optional
/// catch-all for tags that are not registered.
pub trait VariantEnum: Sized {
    /// What a value stands for.
    type Model;

    spec fn model(&self) -> Self::Model;

    /// The class tags of the record types, in the order they are tried.
    spec fn spec_classes() -> Seq<u32>;

    /// Whether an unregistered tag gives a catch-all value instead of an error.
    spec fn spec_has_unknown() -> bool;

    /// The catch-all value for tag `class` met at stream position `offset`.
    spec fn spec_unknown(class: u32, offset: u64) -> Self::Model;

    /// Decoding the record type registered at `index`.
    spec fn spec_decode_known(data: Seq<u8>, pos: int, endian: Endian, index: int) -> Result<
        (Self::Model, int),
        Fault,
    >;

    fn classes() -> (r: Vec<u32>)
        ensures
            r@ == Self::spec_classes(),
    ;

    fn has_unknown() -> (r: bool)
        ensures
            r == Self::spec_has_unknown(),
    ;

    /// The name of the type, used in errors.
    spec fn spec_enum_name() -> Seq<char>;

    fn enum_name() -> (r: String)
        ensures
            r@ == Self::spec_enum_name(),
    ;

    fn unknown(class: u32, offset: u64) -> (r: Self)
        requires
            Self::spec_has_unknown(),
        ensures
            r.model() == Self::spec_unknown(class, offset),
    ;

    fn read_known(reader: &mut Cursor, endian: Endian, index: usize) -> (r: Result<Self, Error>)
        requires
            index < Self::spec_classes().len(),
        ensures
            final(reader).bytes() == old(reader).bytes(),
            match Self::spec_decode_known(old(reader).bytes(), old(reader).pos(), endian, index as int) {
                Ok((m, p)) => r is Ok && r->Ok_0.model() == m && final(reader).pos() == p,
                Err(f) => r is Err && r->Err_0.fault() == f,
            },
    ;

    /// Decodes the record type registered for `class`; an unregistered tag gives the
    /// catch-all value where there is one, and a missing-variant error naming it otherwise.
    fn read_variant_endian(reader: &mut Cursor, endian: Endian, class: u32) -> (r: Result<
        Self,
        Error,
    >)
        ensures
            final(reader).bytes() == old(reader).bytes(),
            first_index(Self::spec_classes(), class) >= 0 ==> match Self::spec_decode_known(
                old(reader).bytes(),
                old(reader).pos(),
                endian,
                first_index(Self::spec_classes(), class),
            ) {
                Ok((m, p)) => r is Ok && r->Ok_0.model() == m && final(reader).pos() == p,
                Err(f) => r is Err && r->Err_0.fault() == f,
            },
            first_index(Self::spec_classes(), class) < 0 && Self::spec_has_unknown() ==> r is Ok
                && r->Ok_0.model() == Self::spec_unknown(class, old(reader).pos() as u64)
                && final(reader).pos() == old(reader).pos(),
            first_index(Self::spec_classes(), class) < 0 && !Self::spec_has_unknown() ==> r is Err
                && r->Err_0 is MissingVariantType && r->Err_0.fault() == Fault::MissingVariantType(
                class,
            ) && r->Err_0->MissingVariantType_typename@ == Self::spec_enum_name(),
    {
        let classes = Self::classes();
        let offset = reader.position();
        match resolve_variant(&classes, Self::has_unknown(), class, offset, Self::enum_name()) {
            Ok(Resolved::Known(k)) => Self::read_known(reader, endian, k),
            Ok(Resolved::Unknown { class, offset }) => Ok(Self::unknown(class, offset)),
            Err(e) => Err(e),
        }
    }
}

/// The class tag a record type is registered under: its declared id, or the wildcard tag
/// where it declares none.
pub open spec fn spec_class_of<T: TigerReadable>() -> u32 {
    match T::spec_descriptor().id {
        Some(c) => c,
        None => ANY_TYPE,
    }
}

fn class_of<T: TigerReadable>() -> (c: u32)
    ensures
        c == spec_class_of::<T>(),
{
    match T::descriptor().id {
        Some(c) => c,
        None => ANY_TYPE,
    }
}

/// What a value of `Variant2` stands for.
pub enum VariantModel<X, Y> {
    First(X),
    Second(Y),
    Unknown { class: u32, offset: u64 },
}

/// A choice between two record types, registered under their declared ids in order; with
/// `UNKNOWN` set, any other tag gives the catch-all.
#[derive(Debug)]
pub enum Variant2<A: TigerReadable, B: TigerReadable, const UNKNOWN: bool> {
    First(Box<A>),
    Second(Box<B>),
    Unknown { class: u32, offset: u64 },
}

impl<A: TigerReadable, B: TigerReadable, const UNKNOWN: bool> VariantEnum for Variant2<
    A,
    B,
    UNKNOWN,
> {
    type Model = VariantModel<A::Model, B::Model>;

    open spec fn model(&self) -> VariantModel<A::Model, B::Model> {
        match self {
            Variant2::First(a) => VariantModel::First((**a).model()),
            Variant2::Second(b) => VariantModel::Second((**b).model()),
            Variant2::Unknown { class, offset } => VariantModel::Unknown {
                class: *class,
                offset: *offset,
            },
        }
    }

    open spec fn spec_classes() -> Seq<u32> {
        seq![spec_class_of::<A>(), spec_class_of::<B>()]
    }

    open spec fn spec_has_unknown() -> bool {
        UNKNOWN
    }

    open spec fn spec_unknown(class: u32, offset: u64) -> VariantModel<A::Model, B::Model> {
        VariantModel::Unknown { class, offset }
    }

    open spec fn spec_decode_known(data: Seq<u8>, pos: int, endian: Endian, index: int) -> Result<
        (VariantModel<A::Model, B::Model>, int),
        Fault,
    > {
        if index == 0 {
            match A::spec_decode(data, pos, endian) {
                Ok((a, p)) => Ok((VariantModel::First(a), p)),
                Err(f) => Err(f),
            }
        } else {
            match B::spec_decode(data, pos, endian) {
                Ok((b, p)) => Ok((VariantModel::Second(b), p)),
                Err(f) => Err(f),
            }
        }
    }

    fn classes() -> (r: Vec<u32>) {
        let r = vec![class_of::<A>(), class_of::<B>()];
        assert(r@ =~= seq![spec_class_of::<A>(), spec_class_of::<B>()]);
        r
    }

    fn has_unknown() -> (r: bool) {
        UNKNOWN
    }

    open spec fn spec_enum_name() -> Seq<char> {
        "Variant2"@
    }

    fn enum_name() -> (r: String) {
        "Variant2".to_string()
    }

    fn unknown(class: u32, offset: u64) -> (r: Self) {
        Variant2::Unknown { class, offset }
    }

    fn read_known(reader: &mut Cursor, endian: Endian, index: usize) -> (r: Result<Self, Error>) {
        if index == 0 {
            let a = A::read_ds_endian(reader, endian)?;
            Ok(Variant2::First(Box::new(a)))
        } else {
            let b = B::read_ds_endian(reader, endian)?;
            Ok(Variant2::Second(Box::new(b)))
        }
    }
}

/// The record a variant pointer at `pos` leads to: `None` for a sentinel offset, else the
/// record whose class tag stands 4 bytes before the target and whose data starts 16 bytes
/// after it.
pub open spec fn spec_decode_variant_pointer<T: VariantEnum>(
    data: Seq<u8>,
    pos: int,
    endian: Endian,
) -> Result<(Option<T::Model>, int), Fault> {
    match i64::spec_decode(data, pos, endian) {
        Err(f) => Err(f),
        Ok((o, after)) => {
            if o == 0 || o == i64::MAX {
                Ok((None, after))
            } else if !seekable(pos + o - 4) {
                Err(Fault::Io)
            } else {
                match u32::spec_decode(data, pos + o - 4, endian) {
                    Err(f) => Err(f),
                    Ok((class, _)) => {
                        if !seekable(pos + o + 16) {
                            Err(Fault::Io)
                        } else {
                            let k = first_index(T::spec_classes(), class);
                            if k >= 0 {
                                match T::spec_decode_known(data, pos + o + 16, endian, k) {
                                    Err(f) => Err(f),
                                    Ok((m, _)) => Ok((Some(m), after)),
                                }
                            } else if T::spec_has_unknown() {
                                Ok((Some(T::spec_unknown(class, (pos + o + 16) as u64)), after))
                            } else {
                                Err(Fault::MissingVariantType(class))
                            }
                        }
                    },
                }
            }
        },
    }
}

/// A decoded variant pointer leaves the stream just after its 8-byte offset field.
pub proof fn lemma_variant_pointer_restores_position<T: VariantEnum>(
    data: Seq<u8>,
    pos: int,
    endian: Endian,
)
    ensures
        spec_decode_variant_pointer::<T>(data, pos, endian) is Ok
            ==> spec_decode_variant_pointer::<T>(data, pos, endian)->Ok_0.1 == pos + 8,
{
}

/// A variant record found through a relative offset; a zero or maximal offset means none.
#[derive(Debug)]
pub struct OptionalVariantPointer<T: VariantEnum>(pub Option<T>);

impl<T: VariantEnum> TigerReadable for OptionalVariantPointer<T> {
    type Model = Option<T::Model>;

    open spec fn model(&self) -> Option<T::Model> {
        match self.0 {
            Some(v) => Some(v.model()),
            None => None,
        }
    }

    open spec fn spec_decode(data: Seq<u8>, pos: int, endian: Endian) -> Result<
        (Option<T::Model>, int),
        Fault,
    > {
        spec_decode_variant_pointer::<T>(data, pos, endian)
    }

    open spec fn spec_descriptor() -> Descriptor {
        Descriptor { is_zero_copy: false, size: 8, id: None, etype: None }
    }

    fn descriptor() -> (d: Descriptor) {
        Descriptor { is_zero_copy: false, size: 8, id: None, etype: None }
    }

    fn read_ds_endian(reader: &mut Cursor, endian: Endian) -> (r: Result<Self, Error>) {
        let base = reader.position();
        let o = i64::read_ds_endian(reader, endian)?;
        if o == 0 || o == i64::MAX {
            return Ok(OptionalVariantPointer(None));
        }
        let save = reader.position();
        let target: i128 = base as i128 + o as i128;
        reader.seek_to(target - 4)?;
        let class = u32::read_ds_endian(reader, endian)?;
        reader.seek_to(target + 16)?;
        let data = T::read_variant_endian(reader, endian, class)?;
        reader.set_position(save);
        Ok(OptionalVariantPointer(Some(data)))
    }
}

/// A variant record found through a relative offset, which must be present.
#[derive(Debug)]
pub struct VariantPointer<T: VariantEnum>(pub T);

impl<T: VariantEnum> TigerReadable for VariantPointer<T> {
    type Model = T::Model;

    open spec fn model(&self) -> T::Model {
        self.0.model()
    }

    /// As the optional pointer, with no record being an error.
    open spec fn spec_decode(data: Seq<u8>, pos: int, endian: Endian) -> Result<
        (T::Model, int),
        Fault,
    > {
        match spec_decode_variant_pointer::<T>(data, pos, endian) {
            Err(f) => Err(f),
            Ok((None, _)) => Err(Fault::PointerNull),
            Ok((Some(m), p)) => Ok((m, p)),
        }
    }

    open spec fn spec_descriptor() -> Descriptor {
        Descriptor { is_zero_copy: false, size: 8, id: None, etype: None }
    }

    fn descriptor() -> (d: Descriptor) {
        Descriptor { is_zero_copy: false, size: 8, id: None, etype: None }
    }

    fn read_ds_endian(reader: &mut Cursor, endian: Endian) -> (r: Result<Self, Error>) {
        let inner = OptionalVariantPointer::<T>::read_ds_endian(reader, endian)?;
        match inner.0 {
            Some(v) => Ok(VariantPointer(v)),
            None => Err(Error::PointerNull),
        }
    }
}

} // verus!
