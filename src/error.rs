use vstd::prelude::*;

use crate::text::{push_char, push_str};
use crate::Size;

verus! {

/// What went wrong at the byte source itself.
#[derive(Clone, Copy, PartialEq, Eq, Structural, Debug)]
pub enum IoError {
    /// Fewer than `wanted` bytes remained at `position`.
    UnexpectedEof { position: u64, wanted: u64 },
    /// A seek aimed at a position that cannot exist.
    InvalidSeek { target: i128 },
}

/// Everything a decode can fail with.
#[derive(Debug)]
pub enum Error {
    Io(IoError),
    /// A failure below a field or an array element, with the path leading to it.
    PropagatedError { stack: FieldRecordStack, error: Box<Error> },
    /// A type tag on disk differs from the one the decoded type declares.
    TypeMismatch { expected: u32, found: u32 },
    PaddingNotZero(Vec<u8>),
    StringTooLong,
    PointerNull,
    EnumVariantOutOfRange(usize),
    MissingVariantType { class: u32, typename: String },
    /// The repeated element count of a dynamic array disagrees with the count at the field.
    InvalidStructure { position: u64, pointer: u64, count: Size, header: Size },
}

/// The root cause of an error, as plain values, with the field path left out.
pub enum Fault {
    Io,
    TypeMismatch { expected: u32, found: u32 },
    PaddingNotZero(Seq<u8>),
    StringTooLong,
    PointerNull,
    EnumVariantOutOfRange(usize),
    MissingVariantType(u32),
    InvalidStructure { count: Size, header: Size },
}

impl Error {
    /// The innermost error, as a `Fault`.
    pub open spec fn fault(self) -> Fault
        decreases self,
    {
        match self {
            Error::Io(_) => Fault::Io,
            Error::PropagatedError { error, .. } => (*error).fault(),
            Error::TypeMismatch { expected, found } => Fault::TypeMismatch { expected, found },
            Error::PaddingNotZero(bytes) => Fault::PaddingNotZero(bytes@),
            Error::StringTooLong => Fault::StringTooLong,
            Error::PointerNull => Fault::PointerNull,
            Error::EnumVariantOutOfRange(v) => Fault::EnumVariantOutOfRange(v),
            Error::MissingVariantType { class, .. } => Fault::MissingVariantType(class),
            Error::InvalidStructure { count, header, .. } => Fault::InvalidStructure {
                count,
                header,
            },
        }
    }

    /// The error below the field path: the boxed error of a propagated error, else the
    /// error itself.
    pub open spec fn wrapped(self) -> Error {
        match self {
            Error::PropagatedError { error, .. } => *error,
            _ => self,
        }
    }

    /// The field path recorded on the error, outermost first.
    pub open spec fn frames(self) -> Seq<FieldRecord> {
        match self {
            Error::PropagatedError { stack, .. } => stack@,
            _ => Seq::empty(),
        }
    }
}

/// One step of the path to a failing field, eg. `User.name` or `[3]`.
#[derive(Debug)]
pub enum FieldRecord {
    Field { typename: String, field: String },
    Element { index: usize },
}

impl FieldRecord {
    pub open spec fn is_field_named(self, typename: Seq<char>, field: Seq<char>) -> bool {
        match self {
            FieldRecord::Field { typename: t, field: f } => t@ == typename && f@ == field,
            FieldRecord::Element { .. } => false,
        }
    }
}

pub open spec fn digit(d: nat) -> char {
    ((d % 10) + 48) as char
}

/// The decimal digits of `n`, most significant first, with no leading zeros.
pub open spec fn decimal(n: nat) -> Seq<char>
    decreases n,
{
    if n < 10 {
        seq![digit(n)]
    } else {
        decimal(n / 10).push(digit(n % 10))
    }
}

fn push_decimal(s: &mut String, n: usize)
    ensures
        final(s)@ == old(s)@ + decimal(n as nat),
    decreases n,
{
    if n >= 10 {
        push_decimal(s, n / 10);
    }
    let d = (n % 10) as u8;
    push_char(s, (d + 48) as char);
    assert(s@ =~= old(s)@ + decimal(n as nat));
}

impl FieldRecord {
    /// `Type.field` for a field, `[index]` for an array element.
    pub open spec fn text(self) -> Seq<char> {
        match self {
            FieldRecord::Field { typename, field } => typename@ + seq!['.'] + field@,
            FieldRecord::Element { index } => seq!['['] + decimal(index as nat) + seq![']'],
        }
    }

    pub fn render(&self) -> (r: String)
        ensures
            r@ == self.text(),
    {
        let mut out = String::new();
        match self {
            FieldRecord::Field { typename, field } => {
                push_str(&mut out, typename.as_str());
                push_char(&mut out, '.');
                push_str(&mut out, field.as_str());
            },
            FieldRecord::Element { index } => {
                push_char(&mut out, '[');
                push_decimal(&mut out, *index);
                push_char(&mut out, ']');
            },
        }
        assert(out@ =~= self.text());
        out
    }
}

/// The frames rendered one after another, each field frame but the first preceded by
/// ` -> `, element frames joined to what precedes them.
pub open spec fn frames_text(frames: Seq<FieldRecord>) -> Seq<char>
    decreases frames.len(),
{
    if frames.len() == 0 {
        Seq::empty()
    } else {
        let last = frames.last();
        let sep = if frames.len() > 1 && last is Field {
            seq![' ', '-', '>', ' ']
        } else {
            Seq::empty()
        };
        frames_text(frames.drop_last()) + sep + last.text()
    }
}

/// The path to a failing field, outermost first.
#[derive(Debug)]
pub struct FieldRecordStack(Vec<FieldRecord>);

impl View for FieldRecordStack {
    type V = Seq<FieldRecord>;

    closed spec fn view(&self) -> Seq<FieldRecord> {
        self.0@
    }
}

impl FieldRecordStack {
    pub fn new() -> (r: FieldRecordStack)
        ensures
            r@ == Seq::<FieldRecord>::empty(),
    {
        FieldRecordStack(Vec::new())
    }

    pub fn push_front(&mut self, record: FieldRecord)
        ensures
            final(self)@ == seq![record] + old(self)@,
    {
        self.0.insert(0, record);
        assert(self@ =~= seq![record] + old(self)@);
    }

    /// The path in braces, eg. `{User.items[3] -> Item.name}`.
    pub fn render(&self) -> (r: String)
        ensures
            r@ == seq!['{'] + frames_text(self@) + seq!['}'],
    {
        let mut out = String::new();
        push_char(&mut out, '{');
        let mut i: usize = 0;
        while i < self.0.len()
            invariant
                i <= self@.len(),
                self@ == self.0@,
                out@ == seq!['{'] + frames_text(self@.subrange(0, i as int)),
            decreases self@.len() - i,
        {
            let record = &self.0[i];
            let ghost before = out@;
            if i > 0 {
                if let FieldRecord::Field { .. } = record {
                    push_str(&mut out, " -> ");
                }
            }
            let text = record.render();
            push_str(&mut out, text.as_str());
            proof {
                let prefix = self@.subrange(0, i + 1);
                assert(prefix.drop_last() =~= self@.subrange(0, i as int));
                assert(prefix.last() == self@[i as int]);
                reveal_strlit(" -> ");
                assert(out@ =~= seq!['{'] + frames_text(prefix));
            }
            i = i + 1;
        }
        push_char(&mut out, '}');
        assert(self@.subrange(0, i as int) =~= self@);
        out
    }

    pub fn records(&self) -> (r: &Vec<FieldRecord>)
        ensures
            r@ == self@,
    {
        &self.0
    }
}

impl Default for FieldRecordStack {
    fn default() -> (r: FieldRecordStack)
        ensures
            r@ == Seq::<FieldRecord>::empty(),
    {
        FieldRecordStack::new()
    }
}

/// Adds a frame to the path of a failed decode, leaving a success as it is.
pub trait ResultExt<T>: Sized {
    fn with_field(self, typename: &str, field: &str) -> Result<T, Error>;

    fn with_array_element(self, index: usize) -> Result<T, Error>;
}

impl<T> ResultExt<T> for Result<T, Error> {
    fn with_field(self, typename: &str, field: &str) -> (r: Result<T, Error>)
        ensures
            match self {
                Ok(v) => r == Ok::<T, Error>(v),
                Err(e) => r is Err && r->Err_0 is PropagatedError && r->Err_0.fault() == e.fault()
                    && r->Err_0.frames().len() == e.frames().len() + 1
                    && r->Err_0.frames()[0].is_field_named(typename@, field@)
                    && r->Err_0.frames().drop_first() == e.frames()
                    && r->Err_0.wrapped() == e.wrapped(),
            },
    {
        match self {
            Ok(value) => Ok(value),
            Err(error) => {
                let record = FieldRecord::Field {
                    typename: typename.to_string(),
                    field: field.to_string(),
                };
                match error {
                    Error::PropagatedError { mut stack, error } => {
                        let ghost before = stack@;
                        stack.push_front(record);
                        assert(stack@.drop_first() =~= before);
                        Err(Error::PropagatedError { stack, error })
                    },
                    e => {
                        let mut stack = FieldRecordStack::new();
                        stack.push_front(record);
                        assert(stack@.drop_first() =~= Seq::<FieldRecord>::empty());
                        Err(Error::PropagatedError { stack, error: Box::new(e) })
                    },
                }
            },
        }
    }

    fn with_array_element(self, index: usize) -> (r: Result<T, Error>)
        ensures
            match self {
                Ok(v) => r == Ok::<T, Error>(v),
                Err(e) => r is Err && r->Err_0 is PropagatedError && r->Err_0.fault() == e.fault()
                    && r->Err_0.frames().len() == e.frames().len() + 1
                    && r->Err_0.frames()[0] == (FieldRecord::Element { index })
                    && r->Err_0.frames().drop_first() == e.frames()
                    && r->Err_0.wrapped() == e.wrapped(),
            },
    {
        match self {
            Ok(value) => Ok(value),
            Err(error) => match error {
                Error::PropagatedError { mut stack, error } => {
                    let ghost before = stack@;
                    stack.push_front(FieldRecord::Element { index });
                    assert(stack@.drop_first() =~= before);
                    Err(Error::PropagatedError { stack, error })
                },
                e => {
                    let mut stack = FieldRecordStack::new();
                    stack.push_front(FieldRecord::Element { index });
                    assert(stack@.drop_first() =~= Seq::<FieldRecord>::empty());
                    Err(Error::PropagatedError { stack, error: Box::new(e) })
                },
            },
        }
    }
}

} // verus!
