//! Wrapped fields: a domain type layered over a raw primitive field through
//! a two-way, independently fallible conversion.
//!
//! A [`WrappedField`] composes a raw [`PrimitiveField`] with a conversion
//! pair given by a [`LayoutAs`] implementation. Reading decodes the raw
//! datum and then converts it into the domain type; writing converts the
//! domain value into the raw datum and then encodes it. Each stage can fail
//! on its own, and [`WrappedFieldError`] says which one did. The booleans-
//! over-one-byte and Unicode-scalars-over-`u32` adapters live here too.

use crate::endian::EndianKind;
use crate::fields::PrimitiveField;
use crate::value::{variant_matches_kind, NonZeroIsZeroError, PrimitiveKind, PrimitiveValue};
use core::marker::PhantomData;
use vstd::prelude::*;

verus! {

/// The error of reading or writing a wrapped field: either the raw primitive
/// access failed, or the domain conversion did. The two stages are
/// discriminated so a caller can tell bad bytes from a bad value.
#[derive(Clone, Copy, Debug, PartialEq, Eq, Structural)]
pub enum WrappedFieldError<P, L> {
    /// The raw primitive read or write failed.
    PrimitiveAccessError(P),
    /// The conversion between the raw and the domain value failed.
    LayoutAsError(L),
}

/// The error of reading a boolean field from a byte that is neither 0 nor 1.
#[derive(Clone, Copy, Debug, PartialEq, Eq, Structural)]
pub struct InvalidBoolError;

impl InvalidBoolError {
    /// A short description of the error, for callers that display it.
    pub fn message(&self) -> (r: &'static str)
        ensures
            r@ == "InvalidBoolError"@,
    {
        "InvalidBoolError"
    }
}

/// The error of reading a Unicode scalar field from four bytes that are not
/// a valid scalar value.
#[derive(Clone, Copy, Debug, PartialEq, Eq, Structural)]
pub struct InvalidCharError;

impl InvalidCharError {
    /// A short description of the error, for callers that display it.
    pub fn message(&self) -> (r: &'static str)
        ensures
            r@ == "InvalidCharError"@,
    {
        "InvalidCharError"
    }
}

/// A plain primitive type as it appears inside a [`PrimitiveValue`]: the raw
/// side of a wrapped field.
pub trait RawPrimitive: Sized {
    /// The kind a field of this raw type has.
    spec fn spec_kind() -> PrimitiveKind;

    /// The datum carrying this raw value.
    spec fn spec_to_value(self) -> PrimitiveValue;

    /// The raw value a datum of the right variant carries.
    spec fn spec_from_value(v: PrimitiveValue) -> Self;

    /// Converting a raw value to a datum and back gives the value itself;
    /// the datum's variant agrees with the kind; and the kind is a plain
    /// one, so a raw write cannot fail.
    proof fn lemma_raw_conversions(x: Self)
        ensures
            Self::spec_from_value(x.spec_to_value()) == x,
            variant_matches_kind(x.spec_to_value(), Self::spec_kind()),
            !Self::spec_kind().spec_is_nonzero(),
    ;

    /// Return the kind a field of this raw type has.
    fn kind() -> (r: PrimitiveKind)
        ensures
            r == Self::spec_kind(),
    ;

    /// Wrap this raw value as a datum.
    fn to_value(self) -> (r: PrimitiveValue)
        ensures
            r == self.spec_to_value(),
    ;

    /// Take this raw value back out of a datum of the right variant.
    fn from_value(v: PrimitiveValue) -> (r: Self)
        requires
            variant_matches_kind(v, Self::spec_kind()),
        ensures
            r == Self::spec_from_value(v),
    ;
}

impl RawPrimitive for u8 {
    open spec fn spec_kind() -> PrimitiveKind {
        PrimitiveKind::U8
    }

    open spec fn spec_to_value(self) -> PrimitiveValue {
        PrimitiveValue::U8(self)
    }

    open spec fn spec_from_value(v: PrimitiveValue) -> u8 {
        v->U8_0
    }

    proof fn lemma_raw_conversions(x: u8) {
    }

    fn kind() -> (r: PrimitiveKind) {
        PrimitiveKind::U8
    }

    fn to_value(self) -> (r: PrimitiveValue) {
        PrimitiveValue::U8(self)
    }

    fn from_value(v: PrimitiveValue) -> (r: u8) {
        match v {
            PrimitiveValue::U8(x) => x,
            _ => vstd::pervasive::unreached(),
        }
    }
}

impl RawPrimitive for u32 {
    open spec fn spec_kind() -> PrimitiveKind {
        PrimitiveKind::U32
    }

    open spec fn spec_to_value(self) -> PrimitiveValue {
        PrimitiveValue::U32(self)
    }

    open spec fn spec_from_value(v: PrimitiveValue) -> u32 {
        v->U32_0
    }

    proof fn lemma_raw_conversions(x: u32) {
    }

    fn kind() -> (r: PrimitiveKind) {
        PrimitiveKind::U32
    }

    fn to_value(self) -> (r: PrimitiveValue) {
        PrimitiveValue::U32(self)
    }

    fn from_value(v: PrimitiveValue) -> (r: u32) {
        match v {
            PrimitiveValue::U32(x) => x,
            _ => vstd::pervasive::unreached(),
        }
    }
}

impl RawPrimitive for u16 {
    open spec fn spec_kind() -> PrimitiveKind {
        PrimitiveKind::U16
    }

    open spec fn spec_to_value(self) -> PrimitiveValue {
        PrimitiveValue::U16(self)
    }

    open spec fn spec_from_value(v: PrimitiveValue) -> u16 {
        v->U16_0
    }

    proof fn lemma_raw_conversions(x: u16) {
    }

    fn kind() -> (r: PrimitiveKind) {
        PrimitiveKind::U16
    }

    fn to_value(self) -> (r: PrimitiveValue) {
        PrimitiveValue::U16(self)
    }

    fn from_value(v: PrimitiveValue) -> (r: u16) {
        match v {
            PrimitiveValue::U16(x) => x,
            _ => vstd::pervasive::unreached(),
        }
    }
}

impl RawPrimitive for u64 {
    open spec fn spec_kind() -> PrimitiveKind {
        PrimitiveKind::U64
    }

    open spec fn spec_to_value(self) -> PrimitiveValue {
        PrimitiveValue::U64(self)
    }

    open spec fn spec_from_value(v: PrimitiveValue) -> u64 {
        v->U64_0
    }

    proof fn lemma_raw_conversions(x: u64) {
    }

    fn kind() -> (r: PrimitiveKind) {
        PrimitiveKind::U64
    }

    fn to_value(self) -> (r: PrimitiveValue) {
        PrimitiveValue::U64(self)
    }

    fn from_value(v: PrimitiveValue) -> (r: u64) {
        match v {
            PrimitiveValue::U64(x) => x,
            _ => vstd::pervasive::unreached(),
        }
    }
}

impl RawPrimitive for u128 {
    open spec fn spec_kind() -> PrimitiveKind {
        PrimitiveKind::U128
    }

    open spec fn spec_to_value(self) -> PrimitiveValue {
        PrimitiveValue::U128(self)
    }

    open spec fn spec_from_value(v: PrimitiveValue) -> u128 {
        v->U128_0
    }

    proof fn lemma_raw_conversions(x: u128) {
    }

    fn kind() -> (r: PrimitiveKind) {
        PrimitiveKind::U128
    }

    fn to_value(self) -> (r: PrimitiveValue) {
        PrimitiveValue::U128(self)
    }

    fn from_value(v: PrimitiveValue) -> (r: u128) {
        match v {
            PrimitiveValue::U128(x) => x,
            _ => vstd::pervasive::unreached(),
        }
    }
}

impl RawPrimitive for i8 {
    open spec fn spec_kind() -> PrimitiveKind {
        PrimitiveKind::I8
    }

    open spec fn spec_to_value(self) -> PrimitiveValue {
        PrimitiveValue::I8(self)
    }

    open spec fn spec_from_value(v: PrimitiveValue) -> i8 {
        v->I8_0
    }

    proof fn lemma_raw_conversions(x: i8) {
    }

    fn kind() -> (r: PrimitiveKind) {
        PrimitiveKind::I8
    }

    fn to_value(self) -> (r: PrimitiveValue) {
        PrimitiveValue::I8(self)
    }

    fn from_value(v: PrimitiveValue) -> (r: i8) {
        match v {
            PrimitiveValue::I8(x) => x,
            _ => vstd::pervasive::unreached(),
        }
    }
}

impl RawPrimitive for i16 {
    open spec fn spec_kind() -> PrimitiveKind {
        PrimitiveKind::I16
    }

    open spec fn spec_to_value(self) -> PrimitiveValue {
        PrimitiveValue::I16(self)
    }

    open spec fn spec_from_value(v: PrimitiveValue) -> i16 {
        v->I16_0
    }

    proof fn lemma_raw_conversions(x: i16) {
    }

    fn kind() -> (r: PrimitiveKind) {
        PrimitiveKind::I16
    }

    fn to_value(self) -> (r: PrimitiveValue) {
        PrimitiveValue::I16(self)
    }

    fn from_value(v: PrimitiveValue) -> (r: i16) {
        match v {
            PrimitiveValue::I16(x) => x,
            _ => vstd::pervasive::unreached(),
        }
    }
}

impl RawPrimitive for i32 {
    open spec fn spec_kind() -> PrimitiveKind {
        PrimitiveKind::I32
    }

    open spec fn spec_to_value(self) -> PrimitiveValue {
        PrimitiveValue::I32(self)
    }

    open spec fn spec_from_value(v: PrimitiveValue) -> i32 {
        v->I32_0
    }

    proof fn lemma_raw_conversions(x: i32) {
    }

    fn kind() -> (r: PrimitiveKind) {
        PrimitiveKind::I32
    }

    fn to_value(self) -> (r: PrimitiveValue) {
        PrimitiveValue::I32(self)
    }

    fn from_value(v: PrimitiveValue) -> (r: i32) {
        match v {
            PrimitiveValue::I32(x) => x,
            _ => vstd::pervasive::unreached(),
        }
    }
}

impl RawPrimitive for i64 {
    open spec fn spec_kind() -> PrimitiveKind {
        PrimitiveKind::I64
    }

    open spec fn spec_to_value(self) -> PrimitiveValue {
        PrimitiveValue::I64(self)
    }

    open spec fn spec_from_value(v: PrimitiveValue) -> i64 {
        v->I64_0
    }

    proof fn lemma_raw_conversions(x: i64) {
    }

    fn kind() -> (r: PrimitiveKind) {
        PrimitiveKind::I64
    }

    fn to_value(self) -> (r: PrimitiveValue) {
        PrimitiveValue::I64(self)
    }

    fn from_value(v: PrimitiveValue) -> (r: i64) {
        match v {
            PrimitiveValue::I64(x) => x,
            _ => vstd::pervasive::unreached(),
        }
    }
}

impl RawPrimitive for i128 {
    open spec fn spec_kind() -> PrimitiveKind {
        PrimitiveKind::I128
    }

    open spec fn spec_to_value(self) -> PrimitiveValue {
        PrimitiveValue::I128(self)
    }

    open spec fn spec_from_value(v: PrimitiveValue) -> i128 {
        v->I128_0
    }

    proof fn lemma_raw_conversions(x: i128) {
    }

    fn kind() -> (r: PrimitiveKind) {
        PrimitiveKind::I128
    }

    fn to_value(self) -> (r: PrimitiveValue) {
        PrimitiveValue::I128(self)
    }

    fn from_value(v: PrimitiveValue) -> (r: i128) {
        match v {
            PrimitiveValue::I128(x) => x,
            _ => vstd::pervasive::unreached(),
        }
    }
}

impl RawPrimitive for () {
    open spec fn spec_kind() -> PrimitiveKind {
        PrimitiveKind::Unit
    }

    open spec fn spec_to_value(self) -> PrimitiveValue {
        PrimitiveValue::Unit
    }

    open spec fn spec_from_value(v: PrimitiveValue) -> () {
        ()
    }

    proof fn lemma_raw_conversions(x: ()) {
    }

    fn kind() -> (r: PrimitiveKind) {
        PrimitiveKind::Unit
    }

    fn to_value(self) -> (r: PrimitiveValue) {
        PrimitiveValue::Unit
    }

    fn from_value(v: PrimitiveValue) -> (r: ()) {
        ()
    }
}

/// Implementing `LayoutAs<U>` for a type lets that type be the high-level
/// face of a layout field whose raw content has the primitive type `U`. The
/// two directions are independently fallible: a raw value may be invalid for
/// the domain type, and a domain value may have no raw form.
pub trait LayoutAs<U>: Sized {
    /// The error of converting a raw value into the domain type.
    type ReadError;

    /// The error of converting a domain value into the raw type.
    type WriteError;

    /// What converting each raw value yields.
    spec fn spec_try_read(v: U) -> Result<Self, Self::ReadError>;

    /// What converting each domain value yields.
    spec fn spec_try_write(v: Self) -> Result<U, Self::WriteError>;

    /// Convert a raw value into the domain type.
    fn try_read(v: U) -> (r: Result<Self, Self::ReadError>)
        ensures
            r == Self::spec_try_read(v),
    ;

    /// Convert a domain value into the raw type.
    fn try_write(v: Self) -> (r: Result<U, Self::WriteError>)
        ensures
            r == Self::spec_try_write(v),
    ;
}

impl LayoutAs<u8> for bool {
    type ReadError = InvalidBoolError;

    type WriteError = InvalidBoolError;

    /// Byte 0 reads as `false` and byte 1 as `true`; every other byte is an
    /// invalid boolean.
    open spec fn spec_try_read(v: u8) -> Result<bool, InvalidBoolError> {
        if v == 0 {
            Ok(false)
        } else if v == 1 {
            Ok(true)
        } else {
            Err(InvalidBoolError)
        }
    }

    /// `false` writes as byte 0 and `true` as byte 1; writing cannot fail.
    open spec fn spec_try_write(v: bool) -> Result<u8, InvalidBoolError> {
        if v {
            Ok(1)
        } else {
            Ok(0)
        }
    }

    fn try_read(v: u8) -> (r: Result<bool, InvalidBoolError>) {
        match v {
            0 => Ok(false),
            1 => Ok(true),
            _ => Err(InvalidBoolError),
        }
    }

    fn try_write(v: bool) -> (r: Result<u8, InvalidBoolError>) {
        if v {
            Ok(1)
        } else {
            Ok(0)
        }
    }
}

/// Whether a `u32` is a Unicode scalar value: any code point up to 0x10FFFF
/// other than the surrogate range.
pub open spec fn is_unicode_scalar(v: u32) -> bool {
    v < 0xD800 || (0xE000 <= v && v <= 0x10FFFF)
}

/// Relies on `char::from_u32`: it returns `Some` exactly for Unicode scalar
/// values, and the returned character has the given scalar value.
#[verifier::external_body]
fn char_from_u32(v: u32) -> (r: Option<char>)
    ensures
        r is Some <==> is_unicode_scalar(v),
        r is Some ==> r->Some_0 == v as char,
{
    char::from_u32(v)
}

impl LayoutAs<u32> for char {
    type ReadError = InvalidCharError;

    type WriteError = InvalidCharError;

    /// A `u32` reads as the character with that scalar value; a value that
    /// is no Unicode scalar is an invalid code point.
    open spec fn spec_try_read(v: u32) -> Result<char, InvalidCharError> {
        if is_unicode_scalar(v) {
            Ok(v as char)
        } else {
            Err(InvalidCharError)
        }
    }

    /// A character writes as its scalar value; writing cannot fail.
    open spec fn spec_try_write(v: char) -> Result<u32, InvalidCharError> {
        Ok(v as u32)
    }

    fn try_read(v: u32) -> (r: Result<char, InvalidCharError>) {
        match char_from_u32(v) {
            Some(c) => Ok(c),
            None => Err(InvalidCharError),
        }
    }

    fn try_write(v: char) -> (r: Result<u32, InvalidCharError>) {
        Ok(v as u32)
    }
}

/// A field whose high-level face is a domain type converted to and from a
/// raw primitive by a [`LayoutAs`] pair. Offset and size are those of the
/// raw field.
pub struct WrappedField<U, T> {
    /// The raw primitive field underneath.
    pub raw: PrimitiveField,
    /// Carries the two type parameters; no data.
    pub marker: PhantomData<(U, T)>,
}

impl<U: RawPrimitive, T: LayoutAs<U>> WrappedField<U, T> {
    /// The raw field's kind is the raw type's own.
    pub open spec fn wf(self) -> bool {
        self.raw.kind == U::spec_kind()
    }

    /// What reading this field from a buffer returns: the raw read's error
    /// if any, then the domain conversion's error if any, else the converted
    /// value.
    pub open spec fn spec_read(self, s: Seq<u8>) -> Result<
        T,
        WrappedFieldError<NonZeroIsZeroError, T::ReadError>,
    > {
        match self.raw.spec_read(s) {
            Err(e) => Err(WrappedFieldError::PrimitiveAccessError(e)),
            Ok(v) => match T::spec_try_read(U::spec_from_value(v)) {
                Ok(t) => Ok(t),
                Err(e) => Err(WrappedFieldError::LayoutAsError(e)),
            },
        }
    }

    /// Describe a wrapped field over the raw type's kind at the given byte
    /// order and offset.
    pub fn new(endian: EndianKind, offset: usize) -> (r: Self)
        ensures
            r.wf(),
            r.raw.endian == endian,
            r.raw.offset == offset,
    {
        WrappedField { raw: PrimitiveField::new(U::kind(), endian, offset), marker: PhantomData }
    }

    /// Read the field: decode the raw datum, then convert it. The result
    /// discriminates a raw-codec failure from a conversion failure.
    pub fn try_read(&self, storage: &Vec<u8>) -> (r: Result<
        T,
        WrappedFieldError<NonZeroIsZeroError, T::ReadError>,
    >)
        requires
            self.wf(),
            self.raw.fits(storage@),
        ensures
            r == self.spec_read(storage@),
    {
        match self.raw.try_read(storage) {
            Err(e) => Err(WrappedFieldError::PrimitiveAccessError(e)),
            Ok(v) => {
                proof {
                    crate::value::lemma_decoded_variant(
                        self.raw.kind,
                        self.raw.spec_range(storage@),
                        self.raw.endian.spec_is_little(),
                    );
                }
                let u = U::from_value(v);
                match T::try_read(u) {
                    Ok(t) => Ok(t),
                    Err(e) => Err(WrappedFieldError::LayoutAsError(e)),
                }
            },
        }
    }

    /// Write the field: convert the domain value, then encode the raw datum
    /// into exactly the field's byte range. A conversion failure is reported
    /// and leaves the buffer untouched.
    pub fn try_write(&self, storage: &mut Vec<u8>, v: T) -> (r: Result<
        (),
        WrappedFieldError<NonZeroIsZeroError, T::WriteError>,
    >)
        requires
            self.wf(),
            self.raw.fits(old(storage)@),
        ensures
            match T::spec_try_write(v) {
                Ok(u) => r is Ok && final(storage)@ == self.raw.spec_written(
                    old(storage)@,
                    u.spec_to_value(),
                ),
                Err(e) => r == Err::<(), WrappedFieldError<NonZeroIsZeroError, T::WriteError>>(
                    WrappedFieldError::LayoutAsError(e),
                ) && final(storage)@ == old(storage)@,
            },
    {
        match T::try_write(v) {
            Err(e) => Err(WrappedFieldError::LayoutAsError(e)),
            Ok(u) => {
                proof {
                    U::lemma_raw_conversions(u);
                    crate::value::lemma_variant_plain(u.spec_to_value(), U::spec_kind());
                }
                let raw_value = u.to_value();
                self.raw.write(storage, raw_value);
                Ok(())
            },
        }
    }
}

/// Round trip through a wrapped field: when a domain value's two conversions
/// invert each other — writing it yields a raw value that reads back as the
/// same domain value — then writing the field and reading it again returns
/// the value unchanged.
pub proof fn lemma_wrapped_round_trip<U: RawPrimitive, T: LayoutAs<U>>(
    w: WrappedField<U, T>,
    s: Seq<u8>,
    t: T,
    u: U,
)
    requires
        w.wf(),
        w.raw.fits(s),
        T::spec_try_write(t) == Ok::<U, T::WriteError>(u),
        T::spec_try_read(u) == Ok::<T, T::ReadError>(t),
    ensures
        w.spec_read(w.raw.spec_written(s, u.spec_to_value())) == Ok::<
            T,
            WrappedFieldError<NonZeroIsZeroError, T::ReadError>,
        >(t),
{
    U::lemma_raw_conversions(u);
    crate::value::lemma_variant_plain(u.spec_to_value(), U::spec_kind());
    crate::fields::lemma_field_round_trip(w.raw, s, u.spec_to_value());
}

} // verus!
