use vstd::prelude::*;

use crate::cursor::{readable, Cursor};
use crate::error::{Error, Fault};
use crate::text::push_char;
use crate::{Descriptor, Endian, TigerReadable};

verus! {

/// The most bytes read while looking for the terminating zero.
pub const MAX_STRING_LEN: usize = 10240;

/// Each byte taken as the character with that code point.
pub open spec fn latin1(s: Seq<u8>) -> Seq<char> {
    s.map_values(|b: u8| b as char)
}

/// Scanning for the terminating zero of a string that starts at `pos`, having seen `i`
/// non-zero bytes.
pub open spec fn spec_scan(data: Seq<u8>, pos: int, i: nat) -> Result<(Seq<char>, int), Fault>
    decreases MAX_STRING_LEN - i,
{
    if i >= MAX_STRING_LEN {
        Err(Fault::StringTooLong)
    } else if !readable(data, pos + i, 1) {
        Err(Fault::Io)
    } else if data[pos + i] == 0 {
        Ok((latin1(data.subrange(pos, pos + i)), pos + i + 1))
    } else {
        spec_scan(data, pos, i + 1)
    }
}

proof fn lemma_scan_too_long(data: Seq<u8>, pos: int, i: nat)
    requires
        i <= MAX_STRING_LEN,
        readable(data, pos, MAX_STRING_LEN as int),
        forall|j: int| pos <= j < pos + MAX_STRING_LEN ==> data[j] != 0,
    ensures
        spec_scan(data, pos, i) == Err::<(Seq<char>, int), Fault>(Fault::StringTooLong),
    decreases MAX_STRING_LEN - i,
{
    if i < MAX_STRING_LEN {
        lemma_scan_too_long(data, pos, i + 1);
    }
}

/// A string stored as bytes up to a terminating zero, which is not kept.
#[derive(Clone, Debug)]
pub struct NullString(pub String);

impl TigerReadable for NullString {
    type Model = Seq<char>;

    open spec fn model(&self) -> Seq<char> {
        self.0@
    }

    open spec fn spec_decode(data: Seq<u8>, pos: int, endian: Endian) -> Result<
        (Seq<char>, int),
        Fault,
    > {
        spec_scan(data, pos, 0)
    }

    open spec fn spec_descriptor() -> Descriptor {
        Descriptor { is_zero_copy: false, size: 0, id: None, etype: None }
    }

    fn descriptor() -> (d: Descriptor) {
        Descriptor { is_zero_copy: false, size: 0, id: None, etype: None }
    }

    /// On failure at most `MAX_STRING_LEN` bytes have been consumed; a string that is too
    /// long consumes exactly that many.
    fn read_ds_endian(reader: &mut Cursor, endian: Endian) -> (r: Result<NullString, Error>)
        ensures
            r is Err ==> old(reader).pos() <= final(reader).pos() <= old(reader).pos()
                + MAX_STRING_LEN,
            r is Err && r->Err_0.fault() == Fault::StringTooLong ==> final(reader).pos() == old(
                reader,
            ).pos() + MAX_STRING_LEN,
    {
        let ghost d = reader.bytes();
        let ghost start = reader.pos();
        let mut buf = String::new();
        let mut i: usize = 0;
        while i < MAX_STRING_LEN
            invariant
                i <= MAX_STRING_LEN,
                d == old(reader).bytes(),
                start == old(reader).pos(),
                reader.bytes() == d,
                reader.pos() == start + i,
                i > 0 ==> start + i <= d.len(),
                buf@.len() == i,
                forall|j: int| 0 <= j < i ==> buf@[j] == d[start + j] as char,
                spec_scan(d, start, 0) == spec_scan(d, start, i as nat),
            decreases MAX_STRING_LEN - i,
        {
            let b = reader.read_u8()?;
            if b == 0 {
                assert(buf@ =~= latin1(d.subrange(start, start + i)));
                return Ok(NullString(buf));
            }
            push_char(&mut buf, b as char);
            i = i + 1;
        }
        Err(Error::StringTooLong)
    }
}

/// Bytes without a zero among the first `MAX_STRING_LEN` fail as too long.
pub proof fn lemma_string_too_long(data: Seq<u8>, pos: int, endian: Endian)
    requires
        readable(data, pos, MAX_STRING_LEN as int),
        forall|j: int| pos <= j < pos + MAX_STRING_LEN ==> data[j] != 0,
    ensures
        NullString::spec_decode(data, pos, endian) == Err::<(Seq<char>, int), Fault>(
            Fault::StringTooLong,
        ),
{
    lemma_scan_too_long(data, pos, 0);
}

} // verus!
