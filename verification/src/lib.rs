//! Type-safe, in-place access to fields of a statically known binary layout
//! inside a flat byte buffer.
//!
//! A layout is an ordered list of field descriptors under one byte order;
//! composing it assigns every field a fixed offset once, at definition time,
//! and enforces that at most one field — necessarily the last — is
//! open-ended. Accessors then read or write each field directly against
//! caller-supplied storage, with no parsing pass: a read copies and decodes
//! exactly the field's byte range, a write encodes and overwrites exactly
//! that range, and slice access borrows it with no copy at all. Every
//! accessor carries a contract relating the bytes in the buffer to the
//! values read and written, and the module-level laws (offset additivity,
//! write/read round trips, non-interference of disjoint fields, composition
//! of subregion narrowing) are proved from those contracts.
//!
//! The pieces, leaves first:
//! - [`endian`]: the byte-order descriptors, including the machine's own.
//! - [`codec`]: unsigned integers to and from base-256 byte strings.
//! - [`value`]: the primitive field kinds and the tagged union of their data.
//! - [`storage`]: byte-range reads and writes of caller-supplied buffers.
//! - [`fields`]: copy-access primitive field descriptors.
//! - [`layout`]: the composer, slice access, and nested layouts.
//! - [`wrapped`]: domain types layered over raw fields (booleans, Unicode
//!   scalars, and user conversions).
//! - [`data`]: owned storage with ownership-preserving narrowing.
//! - [`view`]: storage bound to a field, so the buffer need not be re-passed.
//! - [`infallible`]: unwrapping results that provably hold a success.

pub mod codec;
pub mod data;
pub mod endian;
pub mod fields;
pub mod infallible;
pub mod layout;
pub mod storage;
pub mod value;
pub mod view;
pub mod wrapped;

pub use data::Data;
pub use endian::{BigEndian, EndianKind, Endianness, LittleEndian, NativeEndian};
pub use fields::PrimitiveField;
pub use infallible::InfallibleResultExt;
pub use layout::{Field, FieldKind, Layout, LayoutError, NestedField};
pub use value::{NonZeroIsZeroError, PrimitiveKind, PrimitiveValue};
pub use view::{FieldView, PrimitiveFieldView};
pub use wrapped::{
    InvalidBoolError, InvalidCharError, LayoutAs, RawPrimitive, WrappedField, WrappedFieldError,
};
