//! Decoding of single voxel values from their bytes.
use crate::error::NiftiError;
use crate::typedef::{Endianness, NiftiType};
use byteorder::{BigEndian, ByteOrder, LittleEndian};
use vstd::prelude::*;

verus! {

/// The stored value of one voxel, before scaling. Floating-point values are
/// carried as their IEEE 754 bit patterns.
#[derive(Clone, Copy, Debug, PartialEq, Eq, Structural)]
pub enum Voxel {
    U8(u8),
    I8(i8),
    U16(u16),
    I16(i16),
    U32(u32),
    I32(i32),
    U64(u64),
    I64(i64),
    F32(u32),
    F64(u64),
}

/// Unsigned value of bytes in little-endian order.
pub open spec fn le_value(s: Seq<u8>) -> nat
    decreases s.len(),
{
    if s.len() == 0 {
        0
    } else {
        s[0] as nat + 256 * le_value(s.drop_first())
    }
}

/// Unsigned value of bytes in big-endian order.
pub open spec fn be_value(s: Seq<u8>) -> nat
    decreases s.len(),
{
    if s.len() == 0 {
        0
    } else {
        be_value(s.drop_last()) * 256 + s.last() as nat
    }
}

/// Unsigned value of bytes in the given order.
pub open spec fn unsigned_value(s: Seq<u8>, e: Endianness) -> nat {
    match e {
        Endianness::LE => le_value(s),
        Endianness::BE => be_value(s),
    }
}

/// Two's complement reading of an unsigned value of `bits` bits.
pub open spec fn signed_value(u: nat, bits: nat) -> int {
    if u >= pow2((bits - 1) as nat) {
        u - pow2(bits)
    } else {
        u as int
    }
}

/// Value of `2` to the power `n`.
pub open spec fn pow2(n: nat) -> nat
    decreases n,
{
    if n == 0 {
        1
    } else {
        2 * pow2((n - 1) as nat)
    }
}

/// The voxel that the first bytes of `b` encode as an element of type `t`
/// in byte order `e`.
pub open spec fn voxel_of(t: NiftiType, e: Endianness, b: Seq<u8>) -> Voxel {
    let u = unsigned_value(b.subrange(0, t.spec_size_of() as int), e);
    match t {
        NiftiType::Uint8 => Voxel::U8(b[0]),
        NiftiType::Int8 => Voxel::I8(signed_value(b[0] as nat, 8) as i8),
        NiftiType::Uint16 => Voxel::U16(u as u16),
        NiftiType::Int16 => Voxel::I16(signed_value(u, 16) as i16),
        NiftiType::Uint32 => Voxel::U32(u as u32),
        NiftiType::Int32 => Voxel::I32(signed_value(u, 32) as i32),
        NiftiType::Float32 => Voxel::F32(u as u32),
        NiftiType::Uint64 => Voxel::U64(u as u64),
        NiftiType::Int64 => Voxel::I64(signed_value(u, 64) as i64),
        _ => Voxel::F64(u as u64),
    }
}

/// Relies on byteorder's `LittleEndian::read_u16`: the first two bytes,
/// little end first.
#[verifier::external_body]
fn read_u16_le(b: &[u8]) -> (r: u16)
    requires
        b@.len() >= 2,
    ensures
        r as nat == le_value(b@.subrange(0, 2)),
{
    LittleEndian::read_u16(b)
}

/// Relies on byteorder's `BigEndian::read_u16`: the first two bytes, big end
/// first.
#[verifier::external_body]
fn read_u16_be(b: &[u8]) -> (r: u16)
    requires
        b@.len() >= 2,
    ensures
        r as nat == be_value(b@.subrange(0, 2)),
{
    BigEndian::read_u16(b)
}

/// Relies on byteorder's `LittleEndian::read_u32`: the first four bytes,
/// little end first.
#[verifier::external_body]
fn read_u32_le(b: &[u8]) -> (r: u32)
    requires
        b@.len() >= 4,
    ensures
        r as nat == le_value(b@.subrange(0, 4)),
{
    LittleEndian::read_u32(b)
}

/// Relies on byteorder's `BigEndian::read_u32`: the first four bytes, big end
/// first.
#[verifier::external_body]
fn read_u32_be(b: &[u8]) -> (r: u32)
    requires
        b@.len() >= 4,
    ensures
        r as nat == be_value(b@.subrange(0, 4)),
{
    BigEndian::read_u32(b)
}

/// Relies on byteorder's `LittleEndian::read_u64`: the first eight bytes,
/// little end first.
#[verifier::external_body]
fn read_u64_le(b: &[u8]) -> (r: u64)
    requires
        b@.len() >= 8,
    ensures
        r as nat == le_value(b@.subrange(0, 8)),
{
    LittleEndian::read_u64(b)
}

/// Relies on byteorder's `BigEndian::read_u64`: the first eight bytes, big
/// end first.
#[verifier::external_body]
fn read_u64_be(b: &[u8]) -> (r: u64)
    requires
        b@.len() >= 8,
    ensures
        r as nat == be_value(b@.subrange(0, 8)),
{
    BigEndian::read_u64(b)
}

/// Unsigned value of the first two bytes in byte order `e`.
fn read_u16(b: &[u8], e: Endianness) -> (r: u16)
    requires
        b@.len() >= 2,
    ensures
        r as nat == unsigned_value(b@.subrange(0, 2), e),
{
    match e {
        Endianness::LE => read_u16_le(b),
        Endianness::BE => read_u16_be(b),
    }
}

/// Unsigned value of the first four bytes in byte order `e`.
fn read_u32(b: &[u8], e: Endianness) -> (r: u32)
    requires
        b@.len() >= 4,
    ensures
        r as nat == unsigned_value(b@.subrange(0, 4), e),
{
    match e {
        Endianness::LE => read_u32_le(b),
        Endianness::BE => read_u32_be(b),
    }
}

/// Unsigned value of the first eight bytes in byte order `e`.
fn read_u64(b: &[u8], e: Endianness) -> (r: u64)
    requires
        b@.len() >= 8,
    ensures
        r as nat == unsigned_value(b@.subrange(0, 8), e),
{
    match e {
        Endianness::LE => read_u64_le(b),
        Endianness::BE => read_u64_be(b),
    }
}

proof fn lemma_pow2_values()
    ensures
        pow2(7) == 0x80,
        pow2(8) == 0x100,
        pow2(15) == 0x8000,
        pow2(16) == 0x1_0000,
        pow2(31) == 0x8000_0000,
        pow2(32) == 0x1_0000_0000,
        pow2(63) == 0x8000_0000_0000_0000,
        pow2(64) == 0x1_0000_0000_0000_0000,
{
    reveal_with_fuel(pow2, 65);
}

impl NiftiType {
    /// Decode the element of this type that the first bytes of `b` hold in
    /// byte order `e`.
    pub fn read_voxel(&self, b: &[u8], e: Endianness) -> (r: Result<Voxel, NiftiError>)
        requires
            b@.len() >= self.spec_size_of(),
        ensures
            self.spec_is_supported() ==> r == Ok::<Voxel, NiftiError>(voxel_of(*self, e, b@)),
            !self.spec_is_supported() ==> r == Err::<Voxel, NiftiError>(
                NiftiError::UnsupportedDataType(*self),
            ),
    {
        proof {
            lemma_pow2_values();
        }
        match self {
            NiftiType::Uint8 => Ok(Voxel::U8(b[0])),
            NiftiType::Int8 => {
                let x = b[0];
                let v: i8 = if x < 0x80 {
                    x as i8
                } else {
                    (x as i16 - 0x100) as i8
                };
                Ok(Voxel::I8(v))
            },
            NiftiType::Uint16 => Ok(Voxel::U16(read_u16(b, e))),
            NiftiType::Int16 => {
                let x = read_u16(b, e);
                let v: i16 = if x < 0x8000 {
                    x as i16
                } else {
                    (x as i32 - 0x1_0000) as i16
                };
                Ok(Voxel::I16(v))
            },
            NiftiType::Uint32 => Ok(Voxel::U32(read_u32(b, e))),
            NiftiType::Int32 => {
                let x = read_u32(b, e);
                let v: i32 = if x < 0x8000_0000 {
                    x as i32
                } else {
                    (x as i64 - 0x1_0000_0000) as i32
                };
                Ok(Voxel::I32(v))
            },
            NiftiType::Float32 => Ok(Voxel::F32(read_u32(b, e))),
            NiftiType::Uint64 => Ok(Voxel::U64(read_u64(b, e))),
            NiftiType::Int64 => {
                let x = read_u64(b, e);
                let v: i64 = if x < 0x8000_0000_0000_0000 {
                    x as i64
                } else {
                    (x as i128 - 0x1_0000_0000_0000_0000) as i64
                };
                Ok(Voxel::I64(v))
            },
            NiftiType::Float64 => Ok(Voxel::F64(read_u64(b, e))),
            _ => Err(NiftiError::UnsupportedDataType(*self)),
        }
    }
}

} // verus!
