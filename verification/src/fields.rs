//! Copy-access primitive fields: a descriptor binding a primitive kind, a
//! byte order and a fixed offset, with verified read and write accessors.
//!
//! A descriptor is pure data, decided once at definition time; it performs no
//! access of its own until a buffer is handed to one of its methods. A read
//! copies the field's bytes out and decodes them; a write encodes the value
//! and overwrites exactly the field's byte range.

use crate::codec::uint_of;
use crate::endian::EndianKind;
use crate::storage::{read_bytes_at, splice, write_bytes_at};
use crate::value::{
    decode_value, decoded_value, encode_value, encoded_value, lemma_decoded_value_bits,
    lemma_matching_value_size, value_bits, value_is_zero, value_matches_kind,
    variant_matches_kind, NonZeroIsZeroError, PrimitiveKind, PrimitiveValue,
};
use vstd::prelude::*;

verus! {

broadcast use vstd::seq_lib::group_seq_properties;

/// A primitive field of a layout: one fixed-size datum of kind `kind`,
/// encoded under byte order `endian`, starting `offset` bytes into the
/// buffer.
#[derive(Clone, Copy, Debug, PartialEq, Eq, Structural)]
pub struct PrimitiveField {
    /// The kind of datum the field holds.
    pub kind: PrimitiveKind,
    /// The byte order the datum is encoded under.
    pub endian: EndianKind,
    /// The byte position where the field begins.
    pub offset: usize,
}

impl PrimitiveField {
    /// The byte range of a buffer this field occupies.
    pub open spec fn spec_range(self, s: Seq<u8>) -> Seq<u8> {
        s.subrange(self.offset as int, self.offset + self.kind.spec_size())
    }

    /// Whether a buffer is long enough to hold this field. Handing a shorter
    /// buffer to an accessor is a caller-contract violation, which the
    /// accessors rule out by precondition rather than truncate silently.
    pub open spec fn fits(self, s: Seq<u8>) -> bool {
        self.offset + self.kind.spec_size() <= s.len()
    }

    /// What reading this field from a buffer returns: the decoded datum, or
    /// the zero-value error if the kind is nonzero and the field's bytes
    /// decode to zero.
    pub open spec fn spec_read(self, s: Seq<u8>) -> Result<PrimitiveValue, NonZeroIsZeroError> {
        if self.kind.spec_is_nonzero() && uint_of(
            self.spec_range(s),
            self.endian.spec_is_little(),
        ) == 0 {
            Err(NonZeroIsZeroError)
        } else {
            Ok(decoded_value(self.kind, self.spec_range(s), self.endian.spec_is_little()))
        }
    }

    /// What a buffer holds after this field is written: exactly the field's
    /// byte range replaced by the encoding of the value.
    pub open spec fn spec_written(self, s: Seq<u8>, v: PrimitiveValue) -> Seq<u8> {
        splice(s, self.offset as int, encoded_value(v, self.endian.spec_is_little()))
    }

    /// Describe a primitive field: kind, byte order, and offset.
    pub fn new(kind: PrimitiveKind, endian: EndianKind, offset: usize) -> (r: Self)
        ensures
            r.kind == kind,
            r.endian == endian,
            r.offset == offset,
    {
        PrimitiveField { kind, endian, offset }
    }

    /// Return the byte position where the field begins.
    pub fn offset(&self) -> (r: usize)
        ensures
            r == self.offset,
    {
        self.offset
    }

    /// Return the number of bytes the field occupies.
    pub fn size(&self) -> (r: usize)
        ensures
            r == self.kind.spec_size(),
    {
        self.kind.size()
    }

    /// Read the field from a buffer. Returns the zero-value error exactly
    /// when the kind is nonzero and the field's bytes are all zero; for every
    /// other kind the read cannot fail.
    pub fn try_read(&self, storage: &Vec<u8>) -> (r: Result<PrimitiveValue, NonZeroIsZeroError>)
        requires
            self.fits(storage@),
        ensures
            r == self.spec_read(storage@),
    {
        let little = self.endian.is_little();
        let raw = read_bytes_at(storage, self.offset, self.kind.size());
        let v = decode_value(self.kind, raw.as_slice(), little);
        proof {
            lemma_decoded_value_bits(self.kind, raw@, little);
        }
        if self.kind.is_nonzero() && value_is_zero(v) {
            Err(NonZeroIsZeroError)
        } else {
            Ok(v)
        }
    }

    /// Read the field from a buffer, for the kinds whose read cannot fail
    /// (everything but the nonzero kinds).
    pub fn read(&self, storage: &Vec<u8>) -> (r: PrimitiveValue)
        requires
            self.fits(storage@),
            !self.kind.spec_is_nonzero(),
        ensures
            Ok::<PrimitiveValue, NonZeroIsZeroError>(r) == self.spec_read(storage@),
    {
        match self.try_read(storage) {
            Ok(v) => v,
            Err(_) => vstd::pervasive::unreached(),
        }
    }

    /// Write a value into the field's byte range, leaving every byte outside
    /// that range unchanged. The value must match the field's kind; for a
    /// nonzero kind that includes being nonzero, so the write cannot fail.
    pub fn write(&self, storage: &mut Vec<u8>, v: PrimitiveValue)
        requires
            self.fits(old(storage)@),
            value_matches_kind(v, self.kind),
        ensures
            final(storage)@ == self.spec_written(old(storage)@, v),
            final(storage)@.len() == old(storage)@.len(),
    {
        proof {
            lemma_matching_value_size(v, self.kind);
        }
        let little = self.endian.is_little();
        let bytes = encode_value(v, little);
        write_bytes_at(storage, self.offset, &bytes);
    }

    /// Write a value whose variant matches the field's kind. For a nonzero
    /// kind, a zero value is reported as the zero-value error and the buffer
    /// is left untouched; everything else is written as by [`Self::write`].
    pub fn try_write(&self, storage: &mut Vec<u8>, v: PrimitiveValue) -> (r: Result<
        (),
        NonZeroIsZeroError,
    >)
        requires
            self.fits(old(storage)@),
            variant_matches_kind(v, self.kind),
        ensures
            r is Err <==> self.kind.spec_is_nonzero() && value_bits(v) == 0,
            r is Ok ==> final(storage)@ == self.spec_written(old(storage)@, v),
            r is Err ==> final(storage)@ == old(storage)@,
    {
        if self.kind.is_nonzero() && value_is_zero(v) {
            Err(NonZeroIsZeroError)
        } else {
            self.write(storage, v);
            Ok(())
        }
    }
}

/// Reading back what was written: writing a matching value into a primitive
/// field and reading the same field again yields the value, whatever else
/// the buffer holds and under every byte order.
pub proof fn lemma_field_round_trip(f: PrimitiveField, s: Seq<u8>, v: PrimitiveValue)
    requires
        f.fits(s),
        value_matches_kind(v, f.kind),
    ensures
        f.spec_read(f.spec_written(s, v)) == Ok::<PrimitiveValue, NonZeroIsZeroError>(v),
{
    let little = f.endian.spec_is_little();
    lemma_matching_value_size(v, f.kind);
    crate::storage::lemma_splice_range(s, f.offset as int, encoded_value(v, little));
    crate::value::lemma_value_round_trip(v, f.kind, little);
    lemma_decoded_value_bits(f.kind, encoded_value(v, little), little);
    crate::value::lemma_value_bits_bound(v);
    crate::codec::lemma_uint_round_trip(value_bits(v), crate::value::value_size(v), little);
    if f.kind.spec_is_nonzero() {
        crate::value::lemma_matching_nonzero_bits(v, f.kind);
    }
}

/// A write to a primitive field touches nothing outside the field's byte
/// range: every disjoint byte range of the buffer reads back unchanged.
pub proof fn lemma_field_write_frame(
    f: PrimitiveField,
    s: Seq<u8>,
    v: PrimitiveValue,
    lo: int,
    hi: int,
)
    requires
        f.fits(s),
        value_matches_kind(v, f.kind),
        0 <= lo <= hi <= s.len(),
        hi <= f.offset || f.offset + f.kind.spec_size() <= lo,
    ensures
        f.spec_written(s, v).subrange(lo, hi) == s.subrange(lo, hi),
{
    lemma_matching_value_size(v, f.kind);
    crate::storage::lemma_splice_disjoint(
        s,
        f.offset as int,
        encoded_value(v, f.endian.spec_is_little()),
        lo,
        hi,
    );
}

/// A read looks only at the field's own byte range: two buffers that agree
/// there read the same, whatever else they hold.
pub proof fn lemma_read_depends_only_on_range(f: PrimitiveField, s1: Seq<u8>, s2: Seq<u8>)
    requires
        f.fits(s1),
        f.fits(s2),
        f.spec_range(s1) == f.spec_range(s2),
    ensures
        f.spec_read(s1) == f.spec_read(s2),
{
}

/// Disjoint fields do not interfere: writing one field leaves the read of a
/// field on a disjoint byte range exactly as it was, whatever the two
/// fields' kinds and byte orders.
pub proof fn lemma_disjoint_fields_do_not_interfere(
    f: PrimitiveField,
    g: PrimitiveField,
    s: Seq<u8>,
    v: PrimitiveValue,
)
    requires
        f.fits(s),
        g.fits(s),
        value_matches_kind(v, f.kind),
        g.offset + g.kind.spec_size() <= f.offset || f.offset + f.kind.spec_size() <= g.offset,
    ensures
        g.spec_read(f.spec_written(s, v)) == g.spec_read(s),
{
    lemma_field_write_frame(f, s, v, g.offset as int, g.offset + g.kind.spec_size());
    lemma_read_depends_only_on_range(g, f.spec_written(s, v), s);
}

/// Writing a zero-sized field changes nothing: the buffer after the write is
/// the buffer before it, byte for byte.
pub proof fn lemma_zero_sized_write_is_noop(f: PrimitiveField, s: Seq<u8>, v: PrimitiveValue)
    requires
        f.kind.spec_size() == 0,
        value_matches_kind(v, f.kind),
    ensures
        f.spec_written(s, v) == s,
{
    lemma_matching_value_size(v, f.kind);
    crate::storage::lemma_splice_empty(
        s,
        f.offset as int,
        encoded_value(v, f.endian.spec_is_little()),
    );
}

/// The all-zero byte pattern in a field of nonzero kind reads back as the
/// zero-value error, never as a value and never as a panic.
pub proof fn lemma_nonzero_rejects_zero_pattern(f: PrimitiveField, s: Seq<u8>)
    requires
        f.fits(s),
        f.kind.spec_is_nonzero(),
        forall|i: int|
            f.offset <= i < f.offset + f.kind.spec_size() ==> s[i] == 0,
    ensures
        f.spec_read(s) == Err::<PrimitiveValue, NonZeroIsZeroError>(NonZeroIsZeroError),
{
    let raw = f.spec_range(s);
    let little = f.endian.spec_is_little();
    lemma_all_zero_uint(raw, little);
}

/// A byte string of zeros decodes to zero under either byte order.
proof fn lemma_all_zero_uint(s: Seq<u8>, little: bool)
    requires
        forall|i: int| 0 <= i < s.len() ==> s[i] == 0,
    ensures
        uint_of(s, little) == 0,
{
    if little {
        lemma_all_zero_le_uint(s);
    } else {
        lemma_all_zero_le_uint(s.reverse());
    }
}

/// A byte string of zeros reads as zero little-endian.
proof fn lemma_all_zero_le_uint(s: Seq<u8>)
    requires
        forall|i: int| 0 <= i < s.len() ==> s[i] == 0,
    ensures
        crate::codec::le_uint_of(s) == 0,
    decreases s.len(),
{
    if s.len() > 0 {
        lemma_all_zero_le_uint(s.drop_first());
    }
}

} // verus!
