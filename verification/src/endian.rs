//! Byte-order descriptors for layouts and fields.

use vstd::prelude::*;

verus! {

/// The byte order used when encoding or decoding a multi-byte value:
/// big-endian, little-endian, or whatever order the machine itself uses.
#[derive(Clone, Copy, Debug, PartialEq, Eq, Structural)]
pub enum EndianKind {
    Big,
    Little,
    Native,
}

/// Whether the machine this process runs on stores the least significant
/// byte first, in terms of vstd's abstraction of the hardware byte order.
pub open spec fn native_order_is_little() -> bool {
    vstd::endian::endianness() == vstd::endian::Endian::Little
}

impl EndianKind {
    /// Whether values under this byte order are laid out least-significant
    /// byte first.
    pub open spec fn spec_is_little(self) -> bool {
        match self {
            EndianKind::Big => false,
            EndianKind::Little => true,
            EndianKind::Native => native_order_is_little(),
        }
    }

    /// Resolve this byte order to least-significant-byte-first (`true`)
    /// or most-significant-byte-first (`false`).
    pub fn is_little(self) -> (r: bool)
        ensures
            r == self.spec_is_little(),
    {
        match self {
            EndianKind::Big => false,
            EndianKind::Little => true,
            EndianKind::Native => probe_native_is_little(),
        }
    }
}

/// Relies on `u16::to_ne_bytes`: the first byte of `1u16` in the machine's
/// native byte order is `1` exactly on little-endian hardware.
#[verifier::external_body]
fn probe_native_is_little() -> (r: bool)
    ensures
        r == native_order_is_little(),
{
    1u16.to_ne_bytes()[0] == 1
}

/// A byte-order choice as a type, for code that fixes the endianness of a
/// layout statically. [`EndianKind`] is the corresponding runtime value.
pub trait Endianness {
    /// The byte order this type stands for.
    spec fn spec_kind() -> EndianKind;

    /// Return the byte order this type stands for.
    fn kind() -> (r: EndianKind)
        ensures
            r == Self::spec_kind(),
    ;
}

/// Marks a layout as big-endian.
pub struct BigEndian {}

impl Endianness for BigEndian {
    open spec fn spec_kind() -> EndianKind {
        EndianKind::Big
    }

    fn kind() -> (r: EndianKind) {
        EndianKind::Big
    }
}

/// Marks a layout as little-endian.
pub struct LittleEndian {}

impl Endianness for LittleEndian {
    open spec fn spec_kind() -> EndianKind {
        EndianKind::Little
    }

    fn kind() -> (r: EndianKind) {
        EndianKind::Little
    }
}

/// Marks a layout as using the machine's own byte order.
pub struct NativeEndian {}

impl Endianness for NativeEndian {
    open spec fn spec_kind() -> EndianKind {
        EndianKind::Native
    }

    fn kind() -> (r: EndianKind) {
        EndianKind::Native
    }
}

} // verus!
