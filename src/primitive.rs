use vstd::prelude::*;

use crate::cursor::{readable, Cursor};
use crate::error::{Error, Fault};
use crate::{Descriptor, Endian, TigerReadable};

verus! {

/// 256 to the power `n`.
pub open spec fn pow256(n: nat) -> nat
    decreases n,
{
    if n == 0 {
        1
    } else {
        256 * pow256((n - 1) as nat)
    }
}

/// The unsigned value of bytes stored least significant first.
pub open spec fn le_value(s: Seq<u8>) -> nat
    decreases s.len(),
{
    if s.len() == 0 {
        0
    } else {
        s[0] as nat + 256 * le_value(s.subrange(1, s.len() as int))
    }
}

/// The unsigned value of bytes stored most significant first.
pub open spec fn be_value(s: Seq<u8>) -> nat
    decreases s.len(),
{
    if s.len() == 0 {
        0
    } else {
        be_value(s.drop_last()) * 256 + s.last() as nat
    }
}

pub open spec fn uint_value(s: Seq<u8>, endian: Endian) -> nat {
    match endian {
        Endian::Little => le_value(s),
        Endian::Big => be_value(s),
    }
}

/// The unsigned value of the `width` bytes at `pos`, and the position after them.
pub open spec fn spec_read_uint(data: Seq<u8>, pos: int, width: nat, endian: Endian) -> Result<
    (nat, int),
    Fault,
> {
    if readable(data, pos, width as int) {
        Ok((uint_value(data.subrange(pos, pos + width), endian), pos + width))
    } else {
        Err(Fault::Io)
    }
}

/// The descriptor of a plain scalar of `size` bytes.
pub open spec fn scalar_descriptor(size: usize) -> Descriptor {
    Descriptor { is_zero_copy: true, size, id: None, etype: None }
}

proof fn lemma_pow256_mono(a: nat, b: nat)
    requires
        a <= b,
    ensures
        pow256(a) <= pow256(b),
    decreases b,
{
    if a < b {
        lemma_pow256_mono(a, (b - 1) as nat);
    }
}

proof fn lemma_pow256_bound(k: nat)
    requires
        k <= 16,
    ensures
        pow256(k) <= 0x1_0000_0000_0000_0000_0000_0000_0000_0000,
{
    lemma_pow256_mono(k, 16);
    reveal_with_fuel(pow256, 17);
}

proof fn lemma_step_bound(acc: nat, b: nat, k: nat)
    requires
        acc < pow256(k),
        b < 256,
        k < 16,
    ensures
        acc * 256 + b < pow256(k + 1),
        acc * 256 + b <= u128::MAX,
{
    let p = pow256(k);
    assert(acc * 256 + b < p * 256) by (nonlinear_arith)
        requires
            acc < p,
            b < 256,
    ;
    lemma_pow256_bound(k + 1);
}

pub fn be_fold(b: &Vec<u8>) -> (v: u128)
    requires
        b@.len() <= 16,
    ensures
        v == be_value(b@),
{
    let mut acc: u128 = 0;
    let mut i: usize = 0;
    assert(b@.subrange(0, 0) =~= Seq::<u8>::empty());
    while i < b.len()
        invariant
            i <= b@.len() <= 16,
            acc == be_value(b@.subrange(0, i as int)),
            acc < pow256(i as nat),
        decreases b@.len() - i,
    {
        proof {
            lemma_step_bound(acc as nat, b@[i as int] as nat, i as nat);
            assert(b@.subrange(0, i + 1).drop_last() =~= b@.subrange(0, i as int));
        }
        acc = acc * 256 + b[i] as u128;
        i = i + 1;
    }
    assert(b@.subrange(0, i as int) =~= b@);
    acc
}

pub fn le_fold(b: &Vec<u8>) -> (v: u128)
    requires
        b@.len() <= 16,
    ensures
        v == le_value(b@),
{
    let n = b.len();
    let mut acc: u128 = 0;
    let mut i: usize = n;
    assert(b@.subrange(n as int, n as int) =~= Seq::<u8>::empty());
    while i > 0
        invariant
            i <= n == b@.len() <= 16,
            acc == le_value(b@.subrange(i as int, n as int)),
            acc < pow256((n - i) as nat),
        decreases i,
    {
        proof {
            lemma_step_bound(acc as nat, b@[i - 1] as nat, (n - i) as nat);
            assert(b@.subrange(i - 1, n as int).subrange(1, n - i + 1) =~= b@.subrange(
                i as int,
                n as int,
            ));
            assert((n - (i - 1)) as nat == (n - i) as nat + 1);
        }
        acc = acc * 256 + b[i - 1] as u128;
        i = i - 1;
    }
    assert(b@.subrange(0, n as int) =~= b@);
    acc
}

/// A fixed-width integer decoded from its bytes alone.
pub trait Scalar: TigerReadable<Model = Self> + Copy {
    spec fn spec_width() -> nat;

    /// The value whose unsigned reading is `v`.
    spec fn from_uint(v: nat) -> Self;

    proof fn lemma_scalar(data: Seq<u8>, pos: int, endian: Endian)
        ensures
            1 <= Self::spec_width() <= 16,
            forall|x: Self| #[trigger] x.model() == x,
            Self::spec_decode(data, pos, endian) == (match spec_read_uint(
                data,
                pos,
                Self::spec_width(),
                endian,
            ) {
                Ok((v, p)) => Ok((Self::from_uint(v), p)),
                Err(f) => Err::<(Self, int), Fault>(f),
            }),
    ;

    fn width() -> (w: usize)
        ensures
            w == Self::spec_width(),
    ;

    fn from_uint_exec(v: u128) -> (r: Self)
        ensures
            r == Self::from_uint(v as nat),
    ;
}

/// Reads an unsigned integer of `width` bytes in the given byte order.
pub fn read_uint(reader: &mut Cursor, width: usize, endian: Endian) -> (r: Result<u128, Error>)
    requires
        width <= 16,
    ensures
        final(reader).bytes() == old(reader).bytes(),
        match spec_read_uint(old(reader).bytes(), old(reader).pos(), width as nat, endian) {
            Ok((v, p)) => r is Ok && r->Ok_0 == v && final(reader).pos() == p,
            Err(f) => r is Err && r->Err_0.fault() == f,
        },
{
    let bytes = reader.read_bytes(width)?;
    match endian {
        Endian::Little => Ok(le_fold(&bytes)),
        Endian::Big => Ok(be_fold(&bytes)),
    }
}

impl TigerReadable for u8 {
    type Model = u8;

    open spec fn model(&self) -> u8 {
        *self
    }

    open spec fn spec_decode(data: Seq<u8>, pos: int, endian: Endian) -> Result<(u8, int), Fault> {
        match spec_read_uint(data, pos, 1, endian) {
            Ok((v, p)) => Ok((v as u8, p)),
            Err(f) => Err(f),
        }
    }

    open spec fn spec_descriptor() -> Descriptor {
        scalar_descriptor(1)
    }

    fn descriptor() -> (d: Descriptor) {
        Descriptor { is_zero_copy: true, size: 1, id: None, etype: None }
    }

    fn read_ds_endian(reader: &mut Cursor, endian: Endian) -> (r: Result<u8, Error>) {
        let v = read_uint(reader, 1, endian)?;
        Ok(v as u8)
    }
}

impl Scalar for u8 {
    open spec fn spec_width() -> nat {
        1
    }

    open spec fn from_uint(v: nat) -> u8 {
        v as u8
    }

    proof fn lemma_scalar(data: Seq<u8>, pos: int, endian: Endian) {
    }

    fn width() -> (w: usize) {
        1
    }

    fn from_uint_exec(v: u128) -> (r: u8) {
        v as u8
    }
}

impl TigerReadable for u16 {
    type Model = u16;

    open spec fn model(&self) -> u16 {
        *self
    }

    open spec fn spec_decode(data: Seq<u8>, pos: int, endian: Endian) -> Result<(u16, int), Fault> {
        match spec_read_uint(data, pos, 2, endian) {
            Ok((v, p)) => Ok((v as u16, p)),
            Err(f) => Err(f),
        }
    }

    open spec fn spec_descriptor() -> Descriptor {
        scalar_descriptor(2)
    }

    fn descriptor() -> (d: Descriptor) {
        Descriptor { is_zero_copy: true, size: 2, id: None, etype: None }
    }

    fn read_ds_endian(reader: &mut Cursor, endian: Endian) -> (r: Result<u16, Error>) {
        let v = read_uint(reader, 2, endian)?;
        Ok(v as u16)
    }
}

impl Scalar for u16 {
    open spec fn spec_width() -> nat {
        2
    }

    open spec fn from_uint(v: nat) -> u16 {
        v as u16
    }

    proof fn lemma_scalar(data: Seq<u8>, pos: int, endian: Endian) {
    }

    fn width() -> (w: usize) {
        2
    }

    fn from_uint_exec(v: u128) -> (r: u16) {
        v as u16
    }
}

impl TigerReadable for u32 {
    type Model = u32;

    open spec fn model(&self) -> u32 {
        *self
    }

    open spec fn spec_decode(data: Seq<u8>, pos: int, endian: Endian) -> Result<(u32, int), Fault> {
        match spec_read_uint(data, pos, 4, endian) {
            Ok((v, p)) => Ok((v as u32, p)),
            Err(f) => Err(f),
        }
    }

    open spec fn spec_descriptor() -> Descriptor {
        scalar_descriptor(4)
    }

    fn descriptor() -> (d: Descriptor) {
        Descriptor { is_zero_copy: true, size: 4, id: None, etype: None }
    }

    fn read_ds_endian(reader: &mut Cursor, endian: Endian) -> (r: Result<u32, Error>) {
        let v = read_uint(reader, 4, endian)?;
        Ok(v as u32)
    }
}

impl Scalar for u32 {
    open spec fn spec_width() -> nat {
        4
    }

    open spec fn from_uint(v: nat) -> u32 {
        v as u32
    }

    proof fn lemma_scalar(data: Seq<u8>, pos: int, endian: Endian) {
    }

    fn width() -> (w: usize) {
        4
    }

    fn from_uint_exec(v: u128) -> (r: u32) {
        v as u32
    }
}

impl TigerReadable for u64 {
    type Model = u64;

    open spec fn model(&self) -> u64 {
        *self
    }

    open spec fn spec_decode(data: Seq<u8>, pos: int, endian: Endian) -> Result<(u64, int), Fault> {
        match spec_read_uint(data, pos, 8, endian) {
            Ok((v, p)) => Ok((v as u64, p)),
            Err(f) => Err(f),
        }
    }

    open spec fn spec_descriptor() -> Descriptor {
        scalar_descriptor(8)
    }

    fn descriptor() -> (d: Descriptor) {
        Descriptor { is_zero_copy: true, size: 8, id: None, etype: None }
    }

    fn read_ds_endian(reader: &mut Cursor, endian: Endian) -> (r: Result<u64, Error>) {
        let v = read_uint(reader, 8, endian)?;
        Ok(v as u64)
    }
}

impl Scalar for u64 {
    open spec fn spec_width() -> nat {
        8
    }

    open spec fn from_uint(v: nat) -> u64 {
        v as u64
    }

    proof fn lemma_scalar(data: Seq<u8>, pos: int, endian: Endian) {
    }

    fn width() -> (w: usize) {
        8
    }

    fn from_uint_exec(v: u128) -> (r: u64) {
        v as u64
    }
}

impl TigerReadable for u128 {
    type Model = u128;

    open spec fn model(&self) -> u128 {
        *self
    }

    open spec fn spec_decode(data: Seq<u8>, pos: int, endian: Endian) -> Result<(u128, int), Fault> {
        match spec_read_uint(data, pos, 16, endian) {
            Ok((v, p)) => Ok((v as u128, p)),
            Err(f) => Err(f),
        }
    }

    open spec fn spec_descriptor() -> Descriptor {
        scalar_descriptor(16)
    }

    fn descriptor() -> (d: Descriptor) {
        Descriptor { is_zero_copy: true, size: 16, id: None, etype: None }
    }

    fn read_ds_endian(reader: &mut Cursor, endian: Endian) -> (r: Result<u128, Error>) {
        let v = read_uint(reader, 16, endian)?;
        Ok(v as u128)
    }
}

impl Scalar for u128 {
    open spec fn spec_width() -> nat {
        16
    }

    open spec fn from_uint(v: nat) -> u128 {
        v as u128
    }

    proof fn lemma_scalar(data: Seq<u8>, pos: int, endian: Endian) {
    }

    fn width() -> (w: usize) {
        16
    }

    fn from_uint_exec(v: u128) -> (r: u128) {
        v as u128
    }
}

impl TigerReadable for i8 {
    type Model = i8;

    open spec fn model(&self) -> i8 {
        *self
    }

    open spec fn spec_decode(data: Seq<u8>, pos: int, endian: Endian) -> Result<(i8, int), Fault> {
        match spec_read_uint(data, pos, 1, endian) {
            Ok((v, p)) => Ok((v as i8, p)),
            Err(f) => Err(f),
        }
    }

    open spec fn spec_descriptor() -> Descriptor {
        scalar_descriptor(1)
    }

    fn descriptor() -> (d: Descriptor) {
        Descriptor { is_zero_copy: true, size: 1, id: None, etype: None }
    }

    fn read_ds_endian(reader: &mut Cursor, endian: Endian) -> (r: Result<i8, Error>) {
        let v = read_uint(reader, 1, endian)?;
        Ok(v as i8)
    }
}

impl Scalar for i8 {
    open spec fn spec_width() -> nat {
        1
    }

    open spec fn from_uint(v: nat) -> i8 {
        v as i8
    }

    proof fn lemma_scalar(data: Seq<u8>, pos: int, endian: Endian) {
    }

    fn width() -> (w: usize) {
        1
    }

    fn from_uint_exec(v: u128) -> (r: i8) {
        v as i8
    }
}

impl TigerReadable for i16 {
    type Model = i16;

    open spec fn model(&self) -> i16 {
        *self
    }

    open spec fn spec_decode(data: Seq<u8>, pos: int, endian: Endian) -> Result<(i16, int), Fault> {
        match spec_read_uint(data, pos, 2, endian) {
            Ok((v, p)) => Ok((v as i16, p)),
            Err(f) => Err(f),
        }
    }

    open spec fn spec_descriptor() -> Descriptor {
        scalar_descriptor(2)
    }

    fn descriptor() -> (d: Descriptor) {
        Descriptor { is_zero_copy: true, size: 2, id: None, etype: None }
    }

    fn read_ds_endian(reader: &mut Cursor, endian: Endian) -> (r: Result<i16, Error>) {
        let v = read_uint(reader, 2, endian)?;
        Ok(v as i16)
    }
}

impl Scalar for i16 {
    open spec fn spec_width() -> nat {
        2
    }

    open spec fn from_uint(v: nat) -> i16 {
        v as i16
    }

    proof fn lemma_scalar(data: Seq<u8>, pos: int, endian: Endian) {
    }

    fn width() -> (w: usize) {
        2
    }

    fn from_uint_exec(v: u128) -> (r: i16) {
        v as i16
    }
}

impl TigerReadable for i32 {
    type Model = i32;

    open spec fn model(&self) -> i32 {
        *self
    }

    open spec fn spec_decode(data: Seq<u8>, pos: int, endian: Endian) -> Result<(i32, int), Fault> {
        match spec_read_uint(data, pos, 4, endian) {
            Ok((v, p)) => Ok((v as i32, p)),
            Err(f) => Err(f),
        }
    }

    open spec fn spec_descriptor() -> Descriptor {
        scalar_descriptor(4)
    }

    fn descriptor() -> (d: Descriptor) {
        Descriptor { is_zero_copy: true, size: 4, id: None, etype: None }
    }

    fn read_ds_endian(reader: &mut Cursor, endian: Endian) -> (r: Result<i32, Error>) {
        let v = read_uint(reader, 4, endian)?;
        Ok(v as i32)
    }
}

impl Scalar for i32 {
    open spec fn spec_width() -> nat {
        4
    }

    open spec fn from_uint(v: nat) -> i32 {
        v as i32
    }

    proof fn lemma_scalar(data: Seq<u8>, pos: int, endian: Endian) {
    }

    fn width() -> (w: usize) {
        4
    }

    fn from_uint_exec(v: u128) -> (r: i32) {
        v as i32
    }
}

impl TigerReadable for i64 {
    type Model = i64;

    open spec fn model(&self) -> i64 {
        *self
    }

    open spec fn spec_decode(data: Seq<u8>, pos: int, endian: Endian) -> Result<(i64, int), Fault> {
        match spec_read_uint(data, pos, 8, endian) {
            Ok((v, p)) => Ok((v as i64, p)),
            Err(f) => Err(f),
        }
    }

    open spec fn spec_descriptor() -> Descriptor {
        scalar_descriptor(8)
    }

    fn descriptor() -> (d: Descriptor) {
        Descriptor { is_zero_copy: true, size: 8, id: None, etype: None }
    }

    fn read_ds_endian(reader: &mut Cursor, endian: Endian) -> (r: Result<i64, Error>) {
        let v = read_uint(reader, 8, endian)?;
        Ok(v as i64)
    }
}

impl Scalar for i64 {
    open spec fn spec_width() -> nat {
        8
    }

    open spec fn from_uint(v: nat) -> i64 {
        v as i64
    }

    proof fn lemma_scalar(data: Seq<u8>, pos: int, endian: Endian) {
    }

    fn width() -> (w: usize) {
        8
    }

    fn from_uint_exec(v: u128) -> (r: i64) {
        v as i64
    }
}

impl TigerReadable for i128 {
    type Model = i128;

    open spec fn model(&self) -> i128 {
        *self
    }

    open spec fn spec_decode(data: Seq<u8>, pos: int, endian: Endian) -> Result<(i128, int), Fault> {
        match spec_read_uint(data, pos, 16, endian) {
            Ok((v, p)) => Ok((v as i128, p)),
            Err(f) => Err(f),
        }
    }

    open spec fn spec_descriptor() -> Descriptor {
        scalar_descriptor(16)
    }

    fn descriptor() -> (d: Descriptor) {
        Descriptor { is_zero_copy: true, size: 16, id: None, etype: None }
    }

    fn read_ds_endian(reader: &mut Cursor, endian: Endian) -> (r: Result<i128, Error>) {
        let v = read_uint(reader, 16, endian)?;
        Ok(v as i128)
    }
}

impl Scalar for i128 {
    open spec fn spec_width() -> nat {
        16
    }

    open spec fn from_uint(v: nat) -> i128 {
        v as i128
    }

    proof fn lemma_scalar(data: Seq<u8>, pos: int, endian: Endian) {
    }

    fn width() -> (w: usize) {
        16
    }

    fn from_uint_exec(v: u128) -> (r: i128) {
        v as i128
    }
}

impl TigerReadable for bool {
    type Model = bool;

    open spec fn model(&self) -> bool {
        *self
    }

    open spec fn spec_decode(data: Seq<u8>, pos: int, endian: Endian) -> Result<(bool, int), Fault> {
        match spec_read_uint(data, pos, 1, endian) {
            Ok((v, p)) => Ok((v != 0, p)),
            Err(f) => Err(f),
        }
    }

    open spec fn spec_descriptor() -> Descriptor {
        scalar_descriptor(1)
    }

    fn descriptor() -> (d: Descriptor) {
        Descriptor { is_zero_copy: true, size: 1, id: None, etype: None }
    }

    fn read_ds_endian(reader: &mut Cursor, endian: Endian) -> (r: Result<bool, Error>) {
        let v = read_uint(reader, 1, endian)?;
        Ok(v != 0)
    }
}

impl TigerReadable for () {
    type Model = ();

    open spec fn model(&self) -> () {
        ()
    }

    open spec fn spec_decode(data: Seq<u8>, pos: int, endian: Endian) -> Result<((), int), Fault> {
        Ok(((), pos))
    }

    open spec fn spec_descriptor() -> Descriptor {
        scalar_descriptor(0)
    }

    fn descriptor() -> (d: Descriptor) {
        Descriptor { is_zero_copy: true, size: 0, id: None, etype: None }
    }

    fn read_ds_endian(reader: &mut Cursor, endian: Endian) -> (r: Result<(), Error>) {
        Ok(())
    }
}

} // verus!
