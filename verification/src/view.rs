//! Views: storage bound to a field so the buffer need not be passed to every
//! access.
//!
//! A view takes ownership of its storage. Borrowed buffers are served by the
//! descriptor methods directly ([`crate::fields::PrimitiveField`] and
//! [`crate::layout::Field`] take the buffer on every call); a view is for
//! the owning use, and it alone can narrow its storage down to one field's
//! byte range without copying ([`FieldView::extract`]).

use crate::data::Data;
use crate::fields::PrimitiveField;
use crate::layout::{Field, FieldKind};
use crate::storage::splice;
use crate::value::{NonZeroIsZeroError, PrimitiveValue};
use vstd::prelude::*;

verus! {

/// Owned storage bound to one field of any kind.
pub struct FieldView {
    /// The owned buffer.
    pub storage: Vec<u8>,
    /// The field being accessed.
    pub field: Field,
}

impl FieldView {
    /// Bind storage to a field.
    pub fn new(storage: Vec<u8>, field: Field) -> (r: Self)
        ensures
            r.storage@ == storage@,
            r.field == field,
    {
        FieldView { storage, field }
    }

    /// Read the field, for primitive kinds whose read cannot fail; see
    /// [`PrimitiveField::read`].
    pub fn read(&self) -> (r: PrimitiveValue)
        requires
            self.field.kind is Primitive,
            self.field.spec_primitive_at(0).fits(self.storage@),
            !self.field.kind->Primitive_0.spec_is_nonzero(),
        ensures
            Ok::<PrimitiveValue, NonZeroIsZeroError>(r) == self.field.spec_primitive_at(
                0,
            ).spec_read(self.storage@),
    {
        self.field.read(&self.storage)
    }

    /// Read the field; see [`PrimitiveField::try_read`].
    pub fn try_read(&self) -> (r: Result<PrimitiveValue, NonZeroIsZeroError>)
        requires
            self.field.kind is Primitive,
            self.field.spec_primitive_at(0).fits(self.storage@),
        ensures
            r == self.field.spec_primitive_at(0).spec_read(self.storage@),
    {
        self.field.try_read(&self.storage)
    }

    /// Write the field; see [`PrimitiveField::write`]. Only the field's own
    /// byte range of the view's storage changes.
    pub fn write(&mut self, v: PrimitiveValue)
        requires
            old(self).field.kind is Primitive,
            old(self).field.spec_primitive_at(0).fits(old(self).storage@),
            crate::value::value_matches_kind(v, old(self).field.kind->Primitive_0),
        ensures
            final(self).field == old(self).field,
            final(self).storage@ == old(self).field.spec_primitive_at(0).spec_written(
                old(self).storage@,
                v,
            ),
    {
        let f = self.field.primitive_at(0);
        f.write(&mut self.storage, v);
    }

    /// Borrow the bytes of an array or open-ended field; see
    /// [`Field::data`].
    pub fn data(&self) -> (r: &[u8])
        requires
            self.field.kind is Array || self.field.kind is OpenEnded,
            self.field.region_fits(self.storage@),
        ensures
            r@ == self.storage@.subrange(
                self.field.offset as int,
                self.field.spec_region_end(0, self.storage@),
            ),
            self.field.kind is OpenEnded ==> r@.len() == self.storage@.len() - self.field.offset,
    {
        self.field.data(&self.storage)
    }

    /// Overwrite part of an array or open-ended field; see
    /// [`Field::data_mut`]. Exactly those bytes of the view's storage
    /// change.
    pub fn data_mut(&mut self, at: usize, src: &Vec<u8>)
        requires
            old(self).field.kind is Array || old(self).field.kind is OpenEnded,
            old(self).field.region_fits(old(self).storage@),
            old(self).field.offset + at + src@.len() <= old(self).field.spec_region_end(
                0,
                old(self).storage@,
            ),
        ensures
            final(self).field == old(self).field,
            final(self).storage@ == splice(old(self).storage@, old(self).field.offset + at, src@),
    {
        let f = Field {
            offset: self.field.offset,
            endian: self.field.endian,
            kind: match &self.field.kind {
                FieldKind::Array(m) => FieldKind::Array(*m),
                _ => FieldKind::OpenEnded,
            },
        };
        f.data_mut(&mut self.storage, at, src);
    }

    /// Consume the view and narrow its storage down to just the field's byte
    /// range, without copying: the same allocation moves into the returned
    /// [`Data`], whose window shows exactly the field's bytes.
    pub fn extract(self) -> (r: Data)
        requires
            self.field.kind.nested_wf(),
            self.field.region_fits(self.storage@),
        ensures
            r@ == self.storage@.subrange(
                self.field.offset as int,
                self.field.spec_region_end(0, self.storage@),
            ),
    {
        proof {
            crate::storage::lemma_vec_len_bound(&self.storage);
        }
        let end = match self.field.kind.size() {
            Some(sz) => self.field.offset + sz,
            None => self.storage.len(),
        };
        let offset = self.field.offset;
        Data::new(self.storage).into_subregion(offset, end)
    }

    /// Give the storage back, consuming the view.
    pub fn into_storage(self) -> (r: Vec<u8>)
        ensures
            r@ == self.storage@,
    {
        self.storage
    }
}

/// Owned storage bound to one primitive field, with copy access only.
pub struct PrimitiveFieldView {
    /// The owned buffer.
    pub storage: Vec<u8>,
    /// The primitive field being accessed.
    pub field: PrimitiveField,
}

impl PrimitiveFieldView {
    /// Bind storage to a primitive field.
    pub fn new(storage: Vec<u8>, field: PrimitiveField) -> (r: Self)
        ensures
            r.storage@ == storage@,
            r.field == field,
    {
        PrimitiveFieldView { storage, field }
    }

    /// Read the field; see [`PrimitiveField::try_read`].
    pub fn try_read(&self) -> (r: Result<PrimitiveValue, NonZeroIsZeroError>)
        requires
            self.field.fits(self.storage@),
        ensures
            r == self.field.spec_read(self.storage@),
    {
        self.field.try_read(&self.storage)
    }

    /// Read the field, for kinds whose read cannot fail; see
    /// [`PrimitiveField::read`].
    pub fn read(&self) -> (r: PrimitiveValue)
        requires
            self.field.fits(self.storage@),
            !self.field.kind.spec_is_nonzero(),
        ensures
            Ok::<PrimitiveValue, NonZeroIsZeroError>(r) == self.field.spec_read(self.storage@),
    {
        self.field.read(&self.storage)
    }

    /// Write the field, reporting a zero value for a nonzero kind as an
    /// error; see [`PrimitiveField::try_write`].
    pub fn try_write(&mut self, v: PrimitiveValue) -> (r: Result<(), NonZeroIsZeroError>)
        requires
            old(self).field.fits(old(self).storage@),
            crate::value::variant_matches_kind(v, old(self).field.kind),
        ensures
            final(self).field == old(self).field,
            r is Err <==> old(self).field.kind.spec_is_nonzero() && crate::value::value_bits(v)
                == 0,
            r is Ok ==> final(self).storage@ == old(self).field.spec_written(
                old(self).storage@,
                v,
            ),
            r is Err ==> final(self).storage@ == old(self).storage@,
    {
        let f = self.field;
        f.try_write(&mut self.storage, v)
    }

    /// Write the field; see [`PrimitiveField::write`]. Only the field's own
    /// byte range of the view's storage changes.
    pub fn write(&mut self, v: PrimitiveValue)
        requires
            old(self).field.fits(old(self).storage@),
            crate::value::value_matches_kind(v, old(self).field.kind),
        ensures
            final(self).field == old(self).field,
            final(self).storage@ == old(self).field.spec_written(old(self).storage@, v),
    {
        let f = self.field;
        f.write(&mut self.storage, v);
    }

    /// Give the storage back, consuming the view.
    pub fn into_storage(self) -> (r: Vec<u8>)
        ensures
            r@ == self.storage@,
    {
        self.storage
    }
}

} // verus!
