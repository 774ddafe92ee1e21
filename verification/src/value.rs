//! The kinds of primitive fields and the values they carry.
//!
//! A layout field of primitive kind holds one fixed-size datum: an unsigned
//! or signed integer of 8 to 128 bits, a nonzero variant of one of those, a
//! 32- or 64-bit float (carried here by its exact bit pattern, so that reads
//! and writes round-trip every value including every NaN), or the zero-sized
//! unit marker. [`PrimitiveValue`] is the tagged union of those data, and the
//! spec functions here say how each kind is laid out as bytes.

use crate::codec::{bytes_of, uint_of};
use vstd::arithmetic::power2::{lemma2_to64, lemma2_to64_rest, lemma_pow2_adds, pow2};
use vstd::prelude::*;

verus! {

/// The kind of datum a primitive field holds. Each kind has a fixed byte
/// size; the nonzero kinds additionally reject the all-zero byte pattern
/// when read.
#[derive(Clone, Copy, Debug, PartialEq, Eq, Structural)]
pub enum PrimitiveKind {
    U8,
    U16,
    U32,
    U64,
    U128,
    I8,
    I16,
    I32,
    I64,
    I128,
    NonZeroU8,
    NonZeroU16,
    NonZeroU32,
    NonZeroU64,
    NonZeroU128,
    NonZeroI8,
    NonZeroI16,
    NonZeroI32,
    NonZeroI64,
    NonZeroI128,
    F32,
    F64,
    Unit,
}

/// One datum read from or written to a primitive field. Floats are carried
/// as their raw bit patterns.
#[derive(Clone, Copy, Debug, PartialEq, Eq, Structural)]
pub enum PrimitiveValue {
    U8(u8),
    U16(u16),
    U32(u32),
    U64(u64),
    U128(u128),
    I8(i8),
    I16(i16),
    I32(i32),
    I64(i64),
    I128(i128),
    F32Bits(u32),
    F64Bits(u64),
    Unit,
}

impl PrimitiveKind {
    /// The number of bytes a field of this kind occupies.
    pub open spec fn spec_size(self) -> nat {
        match self {
            PrimitiveKind::U8 => 1,
            PrimitiveKind::U16 => 2,
            PrimitiveKind::U32 => 4,
            PrimitiveKind::U64 => 8,
            PrimitiveKind::U128 => 16,
            PrimitiveKind::I8 => 1,
            PrimitiveKind::I16 => 2,
            PrimitiveKind::I32 => 4,
            PrimitiveKind::I64 => 8,
            PrimitiveKind::I128 => 16,
            PrimitiveKind::NonZeroU8 => 1,
            PrimitiveKind::NonZeroU16 => 2,
            PrimitiveKind::NonZeroU32 => 4,
            PrimitiveKind::NonZeroU64 => 8,
            PrimitiveKind::NonZeroU128 => 16,
            PrimitiveKind::NonZeroI8 => 1,
            PrimitiveKind::NonZeroI16 => 2,
            PrimitiveKind::NonZeroI32 => 4,
            PrimitiveKind::NonZeroI64 => 8,
            PrimitiveKind::NonZeroI128 => 16,
            PrimitiveKind::F32 => 4,
            PrimitiveKind::F64 => 8,
            PrimitiveKind::Unit => 0,
        }
    }

    /// Return the number of bytes a field of this kind occupies.
    pub fn size(self) -> (r: usize)
        ensures
            r == self.spec_size(),
    {
        match self {
            PrimitiveKind::U8 => 1,
            PrimitiveKind::U16 => 2,
            PrimitiveKind::U32 => 4,
            PrimitiveKind::U64 => 8,
            PrimitiveKind::U128 => 16,
            PrimitiveKind::I8 => 1,
            PrimitiveKind::I16 => 2,
            PrimitiveKind::I32 => 4,
            PrimitiveKind::I64 => 8,
            PrimitiveKind::I128 => 16,
            PrimitiveKind::NonZeroU8 => 1,
            PrimitiveKind::NonZeroU16 => 2,
            PrimitiveKind::NonZeroU32 => 4,
            PrimitiveKind::NonZeroU64 => 8,
            PrimitiveKind::NonZeroU128 => 16,
            PrimitiveKind::NonZeroI8 => 1,
            PrimitiveKind::NonZeroI16 => 2,
            PrimitiveKind::NonZeroI32 => 4,
            PrimitiveKind::NonZeroI64 => 8,
            PrimitiveKind::NonZeroI128 => 16,
            PrimitiveKind::F32 => 4,
            PrimitiveKind::F64 => 8,
            PrimitiveKind::Unit => 0,
        }
    }

    /// Whether this kind rejects the all-zero byte pattern when read.
    pub open spec fn spec_is_nonzero(self) -> bool {
        match self {
            PrimitiveKind::NonZeroU8 => true,
            PrimitiveKind::NonZeroU16 => true,
            PrimitiveKind::NonZeroU32 => true,
            PrimitiveKind::NonZeroU64 => true,
            PrimitiveKind::NonZeroU128 => true,
            PrimitiveKind::NonZeroI8 => true,
            PrimitiveKind::NonZeroI16 => true,
            PrimitiveKind::NonZeroI32 => true,
            PrimitiveKind::NonZeroI64 => true,
            PrimitiveKind::NonZeroI128 => true,
            _ => false,
        }
    }

    /// Return whether this kind rejects the all-zero byte pattern when read.
    pub fn is_nonzero(self) -> (r: bool)
        ensures
            r == self.spec_is_nonzero(),
    {
        match self {
            PrimitiveKind::NonZeroU8 => true,
            PrimitiveKind::NonZeroU16 => true,
            PrimitiveKind::NonZeroU32 => true,
            PrimitiveKind::NonZeroU64 => true,
            PrimitiveKind::NonZeroU128 => true,
            PrimitiveKind::NonZeroI8 => true,
            PrimitiveKind::NonZeroI16 => true,
            PrimitiveKind::NonZeroI32 => true,
            PrimitiveKind::NonZeroI64 => true,
            PrimitiveKind::NonZeroI128 => true,
            _ => false,
        }
    }
}

/// The signed reading of an unsigned `n`-byte value: two's complement.
pub open spec fn to_signed(u: nat, n: nat) -> int {
    if u < pow2((8 * n - 1) as nat) {
        u as int
    } else {
        u - pow2(8 * n)
    }
}

/// The unsigned `n`-byte bit pattern of a signed value: two's complement.
pub open spec fn from_signed(v: int, n: nat) -> nat {
    if v >= 0 {
        v as nat
    } else {
        (v + pow2(8 * n)) as nat
    }
}

/// Whether a value may be stored in a field of the given kind: the variant
/// agrees with the kind, and a nonzero kind holds no zero.
pub open spec fn value_matches_kind(v: PrimitiveValue, k: PrimitiveKind) -> bool {
    match v {
        PrimitiveValue::U8(x) => k == PrimitiveKind::U8 || (k == PrimitiveKind::NonZeroU8 && x
            != 0),
        PrimitiveValue::U16(x) => k == PrimitiveKind::U16 || (k == PrimitiveKind::NonZeroU16 && x
            != 0),
        PrimitiveValue::U32(x) => k == PrimitiveKind::U32 || (k == PrimitiveKind::NonZeroU32 && x
            != 0),
        PrimitiveValue::U64(x) => k == PrimitiveKind::U64 || (k == PrimitiveKind::NonZeroU64 && x
            != 0),
        PrimitiveValue::U128(x) => k == PrimitiveKind::U128 || (k == PrimitiveKind::NonZeroU128
            && x != 0),
        PrimitiveValue::I8(x) => k == PrimitiveKind::I8 || (k == PrimitiveKind::NonZeroI8 && x
            != 0),
        PrimitiveValue::I16(x) => k == PrimitiveKind::I16 || (k == PrimitiveKind::NonZeroI16 && x
            != 0),
        PrimitiveValue::I32(x) => k == PrimitiveKind::I32 || (k == PrimitiveKind::NonZeroI32 && x
            != 0),
        PrimitiveValue::I64(x) => k == PrimitiveKind::I64 || (k == PrimitiveKind::NonZeroI64 && x
            != 0),
        PrimitiveValue::I128(x) => k == PrimitiveKind::I128 || (k == PrimitiveKind::NonZeroI128
            && x != 0),
        PrimitiveValue::F32Bits(_) => k == PrimitiveKind::F32,
        PrimitiveValue::F64Bits(_) => k == PrimitiveKind::F64,
        PrimitiveValue::Unit => k == PrimitiveKind::Unit,
    }
}

/// The byte size of the value itself (the size of every kind it matches).
pub open spec fn value_size(v: PrimitiveValue) -> nat {
    match v {
        PrimitiveValue::U8(_) => 1,
        PrimitiveValue::U16(_) => 2,
        PrimitiveValue::U32(_) => 4,
        PrimitiveValue::U64(_) => 8,
        PrimitiveValue::U128(_) => 16,
        PrimitiveValue::I8(_) => 1,
        PrimitiveValue::I16(_) => 2,
        PrimitiveValue::I32(_) => 4,
        PrimitiveValue::I64(_) => 8,
        PrimitiveValue::I128(_) => 16,
        PrimitiveValue::F32Bits(_) => 4,
        PrimitiveValue::F64Bits(_) => 8,
        PrimitiveValue::Unit => 0,
    }
}

/// The unsigned bit pattern of a value, as a natural number.
pub open spec fn value_bits(v: PrimitiveValue) -> nat {
    match v {
        PrimitiveValue::U8(x) => x as nat,
        PrimitiveValue::U16(x) => x as nat,
        PrimitiveValue::U32(x) => x as nat,
        PrimitiveValue::U64(x) => x as nat,
        PrimitiveValue::U128(x) => x as nat,
        PrimitiveValue::I8(x) => from_signed(x as int, 1),
        PrimitiveValue::I16(x) => from_signed(x as int, 2),
        PrimitiveValue::I32(x) => from_signed(x as int, 4),
        PrimitiveValue::I64(x) => from_signed(x as int, 8),
        PrimitiveValue::I128(x) => from_signed(x as int, 16),
        PrimitiveValue::F32Bits(x) => x as nat,
        PrimitiveValue::F64Bits(x) => x as nat,
        PrimitiveValue::Unit => 0,
    }
}

/// The bytes a value is laid out as, under the given byte order.
pub open spec fn encoded_value(v: PrimitiveValue, little: bool) -> Seq<u8> {
    bytes_of(value_bits(v), value_size(v), little)
}

/// The value a byte string of the kind's size holds, under the given byte
/// order. For a nonzero kind this is the decoded datum regardless of whether
/// it is zero; rejecting the zero pattern is the reader's contract.
pub open spec fn decoded_value(k: PrimitiveKind, s: Seq<u8>, little: bool) -> PrimitiveValue {
    let u = uint_of(s, little);
    match k {
        PrimitiveKind::U8 => PrimitiveValue::U8((u % 0x100) as u8),
        PrimitiveKind::NonZeroU8 => PrimitiveValue::U8((u % 0x100) as u8),
        PrimitiveKind::U16 => PrimitiveValue::U16((u % 0x10000) as u16),
        PrimitiveKind::NonZeroU16 => PrimitiveValue::U16((u % 0x10000) as u16),
        PrimitiveKind::U32 => PrimitiveValue::U32((u % 0x100000000) as u32),
        PrimitiveKind::NonZeroU32 => PrimitiveValue::U32((u % 0x100000000) as u32),
        PrimitiveKind::U64 => PrimitiveValue::U64((u % 0x10000000000000000) as u64),
        PrimitiveKind::NonZeroU64 => PrimitiveValue::U64((u % 0x10000000000000000) as u64),
        PrimitiveKind::U128 => PrimitiveValue::U128(
            (u % 0x100000000000000000000000000000000nat) as u128,
        ),
        PrimitiveKind::NonZeroU128 => PrimitiveValue::U128(
            (u % 0x100000000000000000000000000000000nat) as u128,
        ),
        PrimitiveKind::I8 => PrimitiveValue::I8(to_signed(u % 0x100, 1) as i8),
        PrimitiveKind::NonZeroI8 => PrimitiveValue::I8(to_signed(u % 0x100, 1) as i8),
        PrimitiveKind::I16 => PrimitiveValue::I16(to_signed(u % 0x10000, 2) as i16),
        PrimitiveKind::NonZeroI16 => PrimitiveValue::I16(to_signed(u % 0x10000, 2) as i16),
        PrimitiveKind::I32 => PrimitiveValue::I32(to_signed(u % 0x100000000, 4) as i32),
        PrimitiveKind::NonZeroI32 => PrimitiveValue::I32(to_signed(u % 0x100000000, 4) as i32),
        PrimitiveKind::I64 => PrimitiveValue::I64(to_signed(u % 0x10000000000000000, 8) as i64),
        PrimitiveKind::NonZeroI64 => PrimitiveValue::I64(
            to_signed(u % 0x10000000000000000, 8) as i64,
        ),
        PrimitiveKind::I128 => PrimitiveValue::I128(
            to_signed(u % 0x100000000000000000000000000000000nat, 16) as i128,
        ),
        PrimitiveKind::NonZeroI128 => PrimitiveValue::I128(
            to_signed(u % 0x100000000000000000000000000000000nat, 16) as i128,
        ),
        PrimitiveKind::F32 => PrimitiveValue::F32Bits((u % 0x100000000) as u32),
        PrimitiveKind::F64 => PrimitiveValue::F64Bits((u % 0x10000000000000000) as u64),
        PrimitiveKind::Unit => PrimitiveValue::Unit,
    }
}

/// The error returned when a field of nonzero kind holds the all-zero byte
/// pattern.
#[derive(Clone, Copy, Debug, PartialEq, Eq, Structural)]
pub struct NonZeroIsZeroError;

impl NonZeroIsZeroError {
    /// A short description of the error, for callers that display it.
    pub fn message(&self) -> (r: &'static str)
        ensures
            r@ == "NonZeroIsZeroError"@,
    {
        "NonZeroIsZeroError"
    }
}

/// Concrete values of the powers of two at the 128-bit boundary.
proof fn lemma_pow2_127_128()
    ensures
        pow2(127) == 0x80000000000000000000000000000000,
        pow2(128) == 0x100000000000000000000000000000000,
{
    lemma2_to64();
    lemma2_to64_rest();
    lemma_pow2_adds(64, 63);
    lemma_pow2_adds(64, 64);
}

/// Two's complement round trip: reading back the bit pattern of a signed
/// value in range gives the value itself.
pub proof fn lemma_signed_round_trip(x: int, n: nat)
    requires
        n >= 1,
        -pow2((8 * n - 1) as nat) <= x < pow2((8 * n - 1) as nat),
    ensures
        to_signed(from_signed(x, n), n) == x,
        from_signed(x, n) < pow2(8 * n),
{
    lemma_pow2_adds((8 * n - 1) as nat, 1);
    lemma2_to64();
}

/// The bit pattern of every value fits its own byte size.
pub proof fn lemma_value_bits_bound(v: PrimitiveValue)
    ensures
        value_bits(v) < pow2(8 * value_size(v)),
{
    lemma2_to64();
    lemma2_to64_rest();
    lemma_pow2_127_128();
    match v {
        PrimitiveValue::I8(x) => lemma_signed_round_trip(x as int, 1),
        PrimitiveValue::I16(x) => lemma_signed_round_trip(x as int, 2),
        PrimitiveValue::I32(x) => lemma_signed_round_trip(x as int, 4),
        PrimitiveValue::I64(x) => lemma_signed_round_trip(x as int, 8),
        PrimitiveValue::I128(x) => lemma_signed_round_trip(x as int, 16),
        _ => {},
    }
}

/// Round trip at the value level: encoding a value and decoding the bytes
/// again for any kind the value matches, under one and the same byte order,
/// gives back the value unchanged.
pub proof fn lemma_value_round_trip(v: PrimitiveValue, k: PrimitiveKind, little: bool)
    requires
        value_matches_kind(v, k),
    ensures
        decoded_value(k, encoded_value(v, little), little) == v,
{
    lemma_value_bits_bound(v);
    crate::codec::lemma_uint_round_trip(value_bits(v), value_size(v), little);
    let u = uint_of(encoded_value(v, little), little);
    lemma2_to64();
    lemma2_to64_rest();
    lemma_pow2_127_128();
    match v {
        PrimitiveValue::I8(x) => {
            lemma_signed_round_trip(x as int, 1);
            vstd::arithmetic::div_mod::lemma_small_mod(u, 0x100);
        },
        PrimitiveValue::I16(x) => {
            lemma_signed_round_trip(x as int, 2);
            vstd::arithmetic::div_mod::lemma_small_mod(u, 0x10000);
        },
        PrimitiveValue::I32(x) => {
            lemma_signed_round_trip(x as int, 4);
            vstd::arithmetic::div_mod::lemma_small_mod(u, 0x100000000);
        },
        PrimitiveValue::I64(x) => {
            lemma_signed_round_trip(x as int, 8);
            vstd::arithmetic::div_mod::lemma_small_mod(u, 0x10000000000000000);
        },
        PrimitiveValue::I128(x) => {
            lemma_signed_round_trip(x as int, 16);
            vstd::arithmetic::div_mod::lemma_small_mod(u, 0x100000000000000000000000000000000nat);
        },
        PrimitiveValue::U8(_) => {
            vstd::arithmetic::div_mod::lemma_small_mod(u, 0x100);
        },
        PrimitiveValue::U16(_) => {
            vstd::arithmetic::div_mod::lemma_small_mod(u, 0x10000);
        },
        PrimitiveValue::U32(_) => {
            vstd::arithmetic::div_mod::lemma_small_mod(u, 0x100000000);
        },
        PrimitiveValue::U64(_) => {
            vstd::arithmetic::div_mod::lemma_small_mod(u, 0x10000000000000000);
        },
        PrimitiveValue::U128(_) => {
            vstd::arithmetic::div_mod::lemma_small_mod(u, 0x100000000000000000000000000000000nat);
        },
        PrimitiveValue::F32Bits(_) => {
            vstd::arithmetic::div_mod::lemma_small_mod(u, 0x100000000);
        },
        PrimitiveValue::F64Bits(_) => {
            vstd::arithmetic::div_mod::lemma_small_mod(u, 0x10000000000000000);
        },
        PrimitiveValue::Unit => {},
    }
}

/// The two's complement bit pattern of an `i8`.
fn i8_to_bits(v: i8) -> (r: u8)
    ensures
        r as nat == from_signed(v as int, 1),
{
    proof {
        lemma2_to64();
    }
    if v >= 0 {
        v as u8
    } else {
        ((v - i8::MIN) as u8) + 0x80u8
    }
}

/// The `i8` with the given two's complement bit pattern.
fn bits_to_i8(u: u8) -> (r: i8)
    ensures
        r as int == to_signed(u as nat, 1),
{
    proof {
        lemma2_to64();
    }
    if u < 0x80 {
        u as i8
    } else {
        ((u - 0x80) as i8) + i8::MIN
    }
}

/// The two's complement bit pattern of an `i16`.
fn i16_to_bits(v: i16) -> (r: u16)
    ensures
        r as nat == from_signed(v as int, 2),
{
    proof {
        lemma2_to64();
    }
    if v >= 0 {
        v as u16
    } else {
        ((v - i16::MIN) as u16) + 0x8000u16
    }
}

/// The `i16` with the given two's complement bit pattern.
fn bits_to_i16(u: u16) -> (r: i16)
    ensures
        r as int == to_signed(u as nat, 2),
{
    proof {
        lemma2_to64();
    }
    if u < 0x8000 {
        u as i16
    } else {
        ((u - 0x8000) as i16) + i16::MIN
    }
}

/// The two's complement bit pattern of an `i32`.
fn i32_to_bits(v: i32) -> (r: u32)
    ensures
        r as nat == from_signed(v as int, 4),
{
    proof {
        lemma2_to64();
    }
    if v >= 0 {
        v as u32
    } else {
        ((v - i32::MIN) as u32) + 0x80000000u32
    }
}

/// The `i32` with the given two's complement bit pattern.
fn bits_to_i32(u: u32) -> (r: i32)
    ensures
        r as int == to_signed(u as nat, 4),
{
    proof {
        lemma2_to64();
    }
    if u < 0x80000000 {
        u as i32
    } else {
        ((u - 0x80000000) as i32) + i32::MIN
    }
}

/// The two's complement bit pattern of an `i64`.
fn i64_to_bits(v: i64) -> (r: u64)
    ensures
        r as nat == from_signed(v as int, 8),
{
    proof {
        lemma2_to64();
        lemma2_to64_rest();
    }
    if v >= 0 {
        v as u64
    } else {
        ((v - i64::MIN) as u64) + 0x8000000000000000u64
    }
}

/// The `i64` with the given two's complement bit pattern.
fn bits_to_i64(u: u64) -> (r: i64)
    ensures
        r as int == to_signed(u as nat, 8),
{
    proof {
        lemma2_to64();
        lemma2_to64_rest();
    }
    if u < 0x8000000000000000 {
        u as i64
    } else {
        ((u - 0x8000000000000000) as i64) + i64::MIN
    }
}

/// The two's complement bit pattern of an `i128`.
fn i128_to_bits(v: i128) -> (r: u128)
    ensures
        r as nat == from_signed(v as int, 16),
{
    proof {
        lemma_pow2_127_128();
    }
    if v >= 0 {
        v as u128
    } else {
        ((v - i128::MIN) as u128) + 0x80000000000000000000000000000000u128
    }
}

/// The `i128` with the given two's complement bit pattern.
fn bits_to_i128(u: u128) -> (r: i128)
    ensures
        r as int == to_signed(u as nat, 16),
{
    proof {
        lemma_pow2_127_128();
    }
    if u < 0x80000000000000000000000000000000 {
        u as i128
    } else {
        ((u - 0x80000000000000000000000000000000) as i128) + i128::MIN
    }
}

/// Encode a value as the bytes a field of its kind holds, under the given
/// byte order.
pub fn encode_value(v: PrimitiveValue, little: bool) -> (r: Vec<u8>)
    ensures
        r@ == encoded_value(v, little),
        r@.len() == value_size(v),
{
    match v {
        PrimitiveValue::U8(x) => crate::codec::encode_uint(x as u128, 1, little),
        PrimitiveValue::U16(x) => crate::codec::encode_uint(x as u128, 2, little),
        PrimitiveValue::U32(x) => crate::codec::encode_uint(x as u128, 4, little),
        PrimitiveValue::U64(x) => crate::codec::encode_uint(x as u128, 8, little),
        PrimitiveValue::U128(x) => crate::codec::encode_uint(x, 16, little),
        PrimitiveValue::I8(x) => crate::codec::encode_uint(i8_to_bits(x) as u128, 1, little),
        PrimitiveValue::I16(x) => crate::codec::encode_uint(i16_to_bits(x) as u128, 2, little),
        PrimitiveValue::I32(x) => crate::codec::encode_uint(i32_to_bits(x) as u128, 4, little),
        PrimitiveValue::I64(x) => crate::codec::encode_uint(i64_to_bits(x) as u128, 8, little),
        PrimitiveValue::I128(x) => crate::codec::encode_uint(i128_to_bits(x), 16, little),
        PrimitiveValue::F32Bits(x) => crate::codec::encode_uint(x as u128, 4, little),
        PrimitiveValue::F64Bits(x) => crate::codec::encode_uint(x as u128, 8, little),
        PrimitiveValue::Unit => {
            let r: Vec<u8> = Vec::new();
            proof {
                assert(crate::codec::le_bytes_of(0, 0) =~= Seq::<u8>::empty());
                assert(Seq::<u8>::empty().reverse() =~= Seq::<u8>::empty());
            }
            r
        },
    }
}

/// Decode the bytes a field of the given kind holds, under the given byte
/// order. The nonzero kinds decode like their plain counterparts; rejecting
/// the zero pattern is the field reader's concern.
pub fn decode_value(k: PrimitiveKind, s: &[u8], little: bool) -> (r: PrimitiveValue)
    requires
        s@.len() == k.spec_size(),
    ensures
        r == decoded_value(k, s@, little),
{
    proof {
        crate::codec::lemma_uint_of_bound(s@, little);
        lemma2_to64();
        lemma2_to64_rest();
        lemma_pow2_127_128();
    }
    let u = crate::codec::decode_uint(s, little);
    let ghost un = uint_of(s@, little);
    match k {
        PrimitiveKind::U8 | PrimitiveKind::NonZeroU8 => {
            proof {
                vstd::arithmetic::div_mod::lemma_small_mod(un, 0x100);
            }
            PrimitiveValue::U8(u as u8)
        },
        PrimitiveKind::U16 | PrimitiveKind::NonZeroU16 => {
            proof {
                vstd::arithmetic::div_mod::lemma_small_mod(un, 0x10000);
            }
            PrimitiveValue::U16(u as u16)
        },
        PrimitiveKind::U32 | PrimitiveKind::NonZeroU32 => {
            proof {
                vstd::arithmetic::div_mod::lemma_small_mod(un, 0x100000000);
            }
            PrimitiveValue::U32(u as u32)
        },
        PrimitiveKind::U64 | PrimitiveKind::NonZeroU64 => {
            proof {
                vstd::arithmetic::div_mod::lemma_small_mod(un, 0x10000000000000000);
            }
            PrimitiveValue::U64(u as u64)
        },
        PrimitiveKind::U128 | PrimitiveKind::NonZeroU128 => {
            proof {
                vstd::arithmetic::div_mod::lemma_small_mod(
                    un,
                    0x100000000000000000000000000000000nat,
                );
            }
            PrimitiveValue::U128(u)
        },
        PrimitiveKind::I8 | PrimitiveKind::NonZeroI8 => {
            proof {
                vstd::arithmetic::div_mod::lemma_small_mod(un, 0x100);
            }
            PrimitiveValue::I8(bits_to_i8(u as u8))
        },
        PrimitiveKind::I16 | PrimitiveKind::NonZeroI16 => {
            proof {
                vstd::arithmetic::div_mod::lemma_small_mod(un, 0x10000);
            }
            PrimitiveValue::I16(bits_to_i16(u as u16))
        },
        PrimitiveKind::I32 | PrimitiveKind::NonZeroI32 => {
            proof {
                vstd::arithmetic::div_mod::lemma_small_mod(un, 0x100000000);
            }
            PrimitiveValue::I32(bits_to_i32(u as u32))
        },
        PrimitiveKind::I64 | PrimitiveKind::NonZeroI64 => {
            proof {
                vstd::arithmetic::div_mod::lemma_small_mod(un, 0x10000000000000000);
            }
            PrimitiveValue::I64(bits_to_i64(u as u64))
        },
        PrimitiveKind::I128 | PrimitiveKind::NonZeroI128 => {
            proof {
                vstd::arithmetic::div_mod::lemma_small_mod(
                    un,
                    0x100000000000000000000000000000000nat,
                );
            }
            PrimitiveValue::I128(bits_to_i128(u))
        },
        PrimitiveKind::F32 => {
            proof {
                vstd::arithmetic::div_mod::lemma_small_mod(un, 0x100000000);
            }
            PrimitiveValue::F32Bits(u as u32)
        },
        PrimitiveKind::F64 => {
            proof {
                vstd::arithmetic::div_mod::lemma_small_mod(un, 0x10000000000000000);
            }
            PrimitiveValue::F64Bits(u as u64)
        },
        PrimitiveKind::Unit => PrimitiveValue::Unit,
    }
}

/// Two's complement round trip, the other way: the bit pattern of the signed
/// reading of `u` is `u` itself.
pub proof fn lemma_unsigned_round_trip(u: nat, n: nat)
    requires
        n >= 1,
        u < pow2(8 * n),
    ensures
        from_signed(to_signed(u, n), n) == u,
{
    lemma_pow2_adds((8 * n - 1) as nat, 1);
    lemma2_to64();
}

/// Whether a value's variant agrees with the kind, leaving the nonzero
/// constraint aside: this is what a write can check for, where the zero
/// value itself is reported as an error rather than ruled out.
pub open spec fn variant_matches_kind(v: PrimitiveValue, k: PrimitiveKind) -> bool {
    match v {
        PrimitiveValue::U8(_) => k == PrimitiveKind::U8 || k == PrimitiveKind::NonZeroU8,
        PrimitiveValue::U16(_) => k == PrimitiveKind::U16 || k == PrimitiveKind::NonZeroU16,
        PrimitiveValue::U32(_) => k == PrimitiveKind::U32 || k == PrimitiveKind::NonZeroU32,
        PrimitiveValue::U64(_) => k == PrimitiveKind::U64 || k == PrimitiveKind::NonZeroU64,
        PrimitiveValue::U128(_) => k == PrimitiveKind::U128 || k == PrimitiveKind::NonZeroU128,
        PrimitiveValue::I8(_) => k == PrimitiveKind::I8 || k == PrimitiveKind::NonZeroI8,
        PrimitiveValue::I16(_) => k == PrimitiveKind::I16 || k == PrimitiveKind::NonZeroI16,
        PrimitiveValue::I32(_) => k == PrimitiveKind::I32 || k == PrimitiveKind::NonZeroI32,
        PrimitiveValue::I64(_) => k == PrimitiveKind::I64 || k == PrimitiveKind::NonZeroI64,
        PrimitiveValue::I128(_) => k == PrimitiveKind::I128 || k == PrimitiveKind::NonZeroI128,
        PrimitiveValue::F32Bits(_) => k == PrimitiveKind::F32,
        PrimitiveValue::F64Bits(_) => k == PrimitiveKind::F64,
        PrimitiveValue::Unit => k == PrimitiveKind::Unit,
    }
}

/// The bit pattern of the value a byte string decodes to is the unsigned
/// reading of the byte string itself, for every kind.
pub proof fn lemma_decoded_value_bits(k: PrimitiveKind, s: Seq<u8>, little: bool)
    requires
        s.len() == k.spec_size(),
    ensures
        value_bits(decoded_value(k, s, little)) == uint_of(s, little),
{
    crate::codec::lemma_uint_of_bound(s, little);
    let u = uint_of(s, little);
    lemma2_to64();
    lemma2_to64_rest();
    lemma_pow2_127_128();
    match k {
        PrimitiveKind::U8 | PrimitiveKind::NonZeroU8 | PrimitiveKind::I8
            | PrimitiveKind::NonZeroI8 => {
            vstd::arithmetic::div_mod::lemma_small_mod(u, 0x100);
            if k == PrimitiveKind::I8 || k == PrimitiveKind::NonZeroI8 {
                lemma_unsigned_round_trip(u, 1);
            }
        },
        PrimitiveKind::U16 | PrimitiveKind::NonZeroU16 | PrimitiveKind::I16
            | PrimitiveKind::NonZeroI16 => {
            vstd::arithmetic::div_mod::lemma_small_mod(u, 0x10000);
            if k == PrimitiveKind::I16 || k == PrimitiveKind::NonZeroI16 {
                lemma_unsigned_round_trip(u, 2);
            }
        },
        PrimitiveKind::U32 | PrimitiveKind::NonZeroU32 | PrimitiveKind::I32
            | PrimitiveKind::NonZeroI32 | PrimitiveKind::F32 => {
            vstd::arithmetic::div_mod::lemma_small_mod(u, 0x100000000);
            if k == PrimitiveKind::I32 || k == PrimitiveKind::NonZeroI32 {
                lemma_unsigned_round_trip(u, 4);
            }
        },
        PrimitiveKind::U64 | PrimitiveKind::NonZeroU64 | PrimitiveKind::I64
            | PrimitiveKind::NonZeroI64 | PrimitiveKind::F64 => {
            vstd::arithmetic::div_mod::lemma_small_mod(u, 0x10000000000000000);
            if k == PrimitiveKind::I64 || k == PrimitiveKind::NonZeroI64 {
                lemma_unsigned_round_trip(u, 8);
            }
        },
        PrimitiveKind::U128 | PrimitiveKind::NonZeroU128 | PrimitiveKind::I128
            | PrimitiveKind::NonZeroI128 => {
            vstd::arithmetic::div_mod::lemma_small_mod(
                u,
                0x100000000000000000000000000000000nat,
            );
            if k == PrimitiveKind::I128 || k == PrimitiveKind::NonZeroI128 {
                lemma_unsigned_round_trip(u, 16);
            }
        },
        PrimitiveKind::Unit => {},
    }
}

/// Return whether a value's bit pattern is all zero.
pub fn value_is_zero(v: PrimitiveValue) -> (r: bool)
    ensures
        r == (value_bits(v) == 0),
{
    proof {
        vstd::arithmetic::power2::lemma_pow2_pos(8);
        vstd::arithmetic::power2::lemma_pow2_pos(16);
        vstd::arithmetic::power2::lemma_pow2_pos(32);
        vstd::arithmetic::power2::lemma_pow2_pos(64);
        vstd::arithmetic::power2::lemma_pow2_pos(128);
        lemma2_to64();
        lemma2_to64_rest();
        lemma_pow2_127_128();
    }
    match v {
        PrimitiveValue::U8(x) => x == 0,
        PrimitiveValue::U16(x) => x == 0,
        PrimitiveValue::U32(x) => x == 0,
        PrimitiveValue::U64(x) => x == 0,
        PrimitiveValue::U128(x) => x == 0,
        PrimitiveValue::I8(x) => x == 0,
        PrimitiveValue::I16(x) => x == 0,
        PrimitiveValue::I32(x) => x == 0,
        PrimitiveValue::I64(x) => x == 0,
        PrimitiveValue::I128(x) => x == 0,
        PrimitiveValue::F32Bits(x) => x == 0,
        PrimitiveValue::F64Bits(x) => x == 0,
        PrimitiveValue::Unit => true,
    }
}

/// A value that matches a kind occupies exactly the kind's size.
pub proof fn lemma_matching_value_size(v: PrimitiveValue, k: PrimitiveKind)
    requires
        variant_matches_kind(v, k),
    ensures
        value_size(v) == k.spec_size(),
{
}

/// A value that matches a nonzero kind has a nonzero bit pattern.
pub proof fn lemma_matching_nonzero_bits(v: PrimitiveValue, k: PrimitiveKind)
    requires
        value_matches_kind(v, k),
        k.spec_is_nonzero(),
    ensures
        value_bits(v) != 0,
{
    lemma2_to64();
    lemma2_to64_rest();
    lemma_pow2_127_128();
}

/// For a kind that is not nonzero, a matching variant is all that matching
/// takes.
pub proof fn lemma_variant_plain(v: PrimitiveValue, k: PrimitiveKind)
    requires
        variant_matches_kind(v, k),
        !k.spec_is_nonzero(),
    ensures
        value_matches_kind(v, k),
{
}

/// A decoded value's variant agrees with the kind it was decoded for.
pub proof fn lemma_decoded_variant(k: PrimitiveKind, s: Seq<u8>, little: bool)
    ensures
        variant_matches_kind(decoded_value(k, s, little), k),
{
}

} // verus!
