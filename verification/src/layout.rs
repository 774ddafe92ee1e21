//! Layouts: ordered field descriptors with offsets assigned at definition
//! time.
//!
//! A [`Layout`] is composed once from an ordered list of field kinds and one
//! byte order: the first field starts at offset 0 and each further field
//! starts where the one before it ends. At most one field — necessarily the
//! last — may be open-ended (its size depends on the buffer it is used on);
//! the composer rejects everything else at definition time, before any
//! buffer exists. A complete layout may in turn serve as the kind of a field
//! inside another layout, with its own, possibly different, byte order;
//! offsets within the nested layout are relative to where it begins, and a
//! field of it is read by rebasing its descriptor to the outer buffer.

use crate::endian::EndianKind;
use crate::fields::PrimitiveField;
use crate::storage::splice;
use crate::value::{NonZeroIsZeroError, PrimitiveKind, PrimitiveValue};
use vstd::prelude::*;

verus! {

/// The kind of a layout field: one primitive datum, a fixed-size byte array,
/// the open-ended remainder of the buffer, or a complete nested layout.
#[verifier::ext_equal]
pub enum FieldKind {
    /// A fixed-size primitive datum.
    Primitive(PrimitiveKind),
    /// A byte array of the given fixed length.
    Array(usize),
    /// All remaining buffer bytes after the field's offset. Permitted only
    /// as a layout's last field.
    OpenEnded,
    /// A complete layout nested as one field, with its own byte order.
    Nested(Layout),
}

/// One field of a layout: its kind, the byte order of the layout it belongs
/// to, and the byte position where it begins. Decided once when the layout
/// is composed; a descriptor performs no access of its own.
#[verifier::ext_equal]
pub struct Field {
    /// The byte position where the field begins.
    pub offset: usize,
    /// The byte order of the layout the field belongs to.
    pub endian: EndianKind,
    /// What the field holds.
    pub kind: FieldKind,
}

/// An ordered list of fields covering a contiguous byte range from offset 0,
/// under one byte order. Built by [`Layout::compose`].
#[verifier::ext_equal]
pub struct Layout {
    /// The byte order of the layout's own primitive fields.
    pub endian: EndianKind,
    /// The fields, in buffer order.
    pub fields: Vec<Field>,
}

/// The definition-time errors of layout composition.
#[derive(Clone, Copy, Debug, PartialEq, Eq, Structural)]
pub enum LayoutError {
    /// A field other than the last has no definite size.
    UnboundedFieldNotLast,
    /// The end of some field does not fit in a machine word.
    LayoutTooLarge,
}

impl FieldKind {
    /// The size of a field of this kind: a definite byte count, or `None`
    /// only for the open-ended kind and for a nested layout that itself ends
    /// open-ended.
    pub open spec fn spec_size(self) -> Option<nat>
        decreases self,
    {
        match self {
            FieldKind::Primitive(k) => Some(k.spec_size()),
            FieldKind::Array(n) => Some(n as nat),
            FieldKind::OpenEnded => None,
            FieldKind::Nested(l) => l.spec_size(),
        }
    }

    /// Whether every layout nested in this kind is well-formed.
    pub open spec fn nested_wf(self) -> bool
        decreases self,
    {
        match self {
            FieldKind::Nested(l) => l.wf(),
            _ => true,
        }
    }

    /// Return the size of a field of this kind, or `None` if it is
    /// open-ended.
    pub fn size(&self) -> (r: Option<usize>)
        requires
            self.nested_wf(),
        ensures
            r is Some <==> self.spec_size() is Some,
            r is Some ==> r->Some_0 == self.spec_size()->Some_0,
        decreases self,
    {
        match self {
            FieldKind::Primitive(k) => Some(k.size()),
            FieldKind::Array(n) => Some(*n),
            FieldKind::OpenEnded => None,
            FieldKind::Nested(l) => l.size(),
        }
    }
}

/// The size of a field kind counted as zero when open-ended; used to state
/// offsets, where only definite sizes ever contribute.
pub open spec fn size_or_zero(k: FieldKind) -> int {
    match k.spec_size() {
        Some(sz) => sz as int,
        None => 0,
    }
}

/// The sum of the sizes of the first `i` kinds: where field `i` begins.
pub open spec fn prefix_size(kinds: Seq<FieldKind>, i: int) -> int
    decreases i,
{
    if i <= 0 {
        0
    } else {
        prefix_size(kinds, i - 1) + size_or_zero(kinds[i - 1])
    }
}

/// Whether every layout nested among these kinds is well-formed.
pub open spec fn kinds_nested_wf(kinds: Seq<FieldKind>) -> bool {
    forall|i: int| #![trigger kinds[i]] 0 <= i < kinds.len() ==> kinds[i].nested_wf()
}

/// Whether every kind but possibly the last has a definite size: the
/// open-ended-tail constraint that composition enforces.
pub open spec fn sizes_definite(kinds: Seq<FieldKind>) -> bool {
    forall|i: int| #![trigger kinds[i]] 0 <= i < kinds.len() - 1 ==> kinds[i].spec_size() is Some
}

/// Whether the end of every field fits in a machine word.
pub open spec fn ends_fit(kinds: Seq<FieldKind>) -> bool {
    forall|i: int|
        #![trigger kinds[i]]
        0 <= i < kinds.len() ==> prefix_size(kinds, i) + size_or_zero(kinds[i]) <= usize::MAX
}

impl Layout {
    /// The total size of the layout: where its last field ends, or `None` if
    /// the last field is open-ended. The empty layout has size zero.
    pub open spec fn spec_size(self) -> Option<nat>
        decreases self,
    {
        if self.fields@.len() == 0 {
            Some(0)
        } else {
            let last = self.fields@.last();
            match last.kind.spec_size() {
                Some(sz) => Some((last.offset + sz) as nat),
                None => None,
            }
        }
    }

    /// The kinds of the layout's fields, in order.
    pub open spec fn kinds(self) -> Seq<FieldKind> {
        self.fields@.map_values(|f: Field| f.kind)
    }

    /// The non-recursive part of well-formedness: each field starts at the
    /// sum of the sizes of the fields before it (so the first starts at 0
    /// and each further one starts where the one before it ends); every
    /// field but possibly the last has a definite size; all fields carry the
    /// layout's byte order; and every field's end fits in a machine word.
    pub open spec fn local_wf(self) -> bool {
        let fs = self.fields@;
        &&& (forall|i: int| #![trigger fs[i]] 0 <= i < fs.len() ==> fs[i].offset == prefix_size(
            self.kinds(),
            i,
        ))
        &&& sizes_definite(self.kinds())
        &&& (forall|i: int| #![trigger fs[i]] 0 <= i < fs.len() ==> fs[i].endian == self.endian)
        &&& ends_fit(self.kinds())
    }

    /// Well-formedness: the local conditions of [`Layout::local_wf`], and
    /// every nested layout well-formed in turn.
    pub open spec fn wf(self) -> bool
        decreases self,
    {
        &&& self.local_wf()
        &&& (forall|i: int|
            #![trigger self.fields@[i]]
            0 <= i < self.fields@.len() ==> self.fields@[i].kind.nested_wf())
    }

    /// Compose a layout from an ordered list of field kinds and one byte
    /// order: the first field starts at offset 0 and each further field
    /// starts where the one before it ends. Fails with
    /// [`LayoutError::UnboundedFieldNotLast`] exactly when a field other
    /// than the last has no definite size — before any buffer exists — and
    /// otherwise with [`LayoutError::LayoutTooLarge`] exactly when some
    /// field's end exceeds a machine word. A list of zero kinds composes to
    /// the legal empty layout.
    #[verifier::loop_isolation(false)]
    pub fn compose(endian: EndianKind, kinds: Vec<FieldKind>) -> (r: Result<Layout, LayoutError>)
        requires
            kinds_nested_wf(kinds@),
        ensures
            r is Ok <==> sizes_definite(kinds@) && ends_fit(kinds@),
            r is Err ==> r->Err_0 == (if !sizes_definite(kinds@) {
                LayoutError::UnboundedFieldNotLast
            } else {
                LayoutError::LayoutTooLarge
            }),
            r is Ok ==> {
                let l = r->Ok_0;
                &&& l.wf()
                &&& l.endian == endian
                &&& l.fields@.len() == kinds@.len()
                &&& (forall|i: int|
                    #![trigger l.fields@[i]]
                    0 <= i < kinds@.len() ==> l.fields@[i].kind == kinds@[i]
                        && l.fields@[i].offset == prefix_size(kinds@, i))
            },
    {
        let ghost gkinds = kinds@;
        let n = kinds.len();
        let mut i: usize = 0;
        while i < n
            invariant
                i <= n,
                n == gkinds.len(),
                kinds@ == gkinds,
                kinds_nested_wf(gkinds),
                forall|j: int|
                    #![trigger gkinds[j]]
                    0 <= j < i && j < n - 1 ==> gkinds[j].spec_size() is Some,
            decreases n - i,
        {
            if i + 1 < n {
                if kinds[i].size().is_none() {
                    return Err(LayoutError::UnboundedFieldNotLast);
                }
            }
            i = i + 1;
        }
        // Every size is in order; move the kinds onto a stack so they can be
        // taken back out in their original order, and lay the fields out.
        let mut forward = kinds;
        let mut stack: Vec<FieldKind> = Vec::new();
        while forward.len() > 0
            invariant
                stack@.len() + forward@.len() == gkinds.len(),
                forall|j: int|
                    #![trigger stack@[j]]
                    0 <= j < stack@.len() ==> stack@[j] == gkinds[gkinds.len() - 1 - j],
                forall|j: int| #![trigger forward@[j]] 0 <= j < forward@.len() ==> forward@[j]
                    == gkinds[j],
            decreases forward.len(),
        {
            let k = forward.pop().unwrap();
            stack.push(k);
        }
        let mut fields: Vec<Field> = Vec::new();
        let mut acc: usize = 0;
        while stack.len() > 0
            invariant
                n == gkinds.len(),
                kinds_nested_wf(gkinds),
                sizes_definite(gkinds),
                fields@.len() + stack@.len() == gkinds.len(),
                forall|j: int|
                    #![trigger stack@[j]]
                    0 <= j < stack@.len() ==> stack@[j] == gkinds[gkinds.len() - 1 - j],
                forall|j: int|
                    #![trigger fields@[j]]
                    0 <= j < fields@.len() ==> fields@[j].kind == gkinds[j] && fields@[j].offset
                        == prefix_size(gkinds, j) && fields@[j].endian == endian,
                acc == prefix_size(gkinds, fields@.len() as int),
                forall|j: int|
                    #![trigger gkinds[j]]
                    0 <= j < fields@.len() ==> prefix_size(gkinds, j) + size_or_zero(gkinds[j])
                        <= usize::MAX,
            decreases stack.len(),
        {
            let k = stack.pop().unwrap();
            let ghost j = fields@.len() as int;
            proof {
                assert(gkinds[j] == k);
            }
            let sz = k.size();
            fields.push(Field { offset: acc, endian, kind: k });
            match sz {
                Some(s) => {
                    if s > usize::MAX - acc {
                        proof {
                            assert(prefix_size(gkinds, j) + size_or_zero(gkinds[j])
                                > usize::MAX);
                            assert(!ends_fit(gkinds));
                        }
                        return Err(LayoutError::LayoutTooLarge);
                    }
                    acc = acc + s;
                },
                None => {
                    // An open-ended field contributes no size; it is the
                    // last, so nothing follows it.
                },
            }
        }
        let l = Layout { endian, fields };
        proof {
            assert(l.kinds() =~= gkinds);
        }
        Ok(l)
    }

    /// Return the total size of the layout, or `None` if it ends open-ended.
    pub fn size(&self) -> (r: Option<usize>)
        requires
            self.wf(),
        ensures
            r is Some <==> self.spec_size() is Some,
            r is Some ==> r->Some_0 == self.spec_size()->Some_0,
        decreases self,
    {
        let n = self.fields.len();
        if n == 0 {
            Some(0)
        } else {
            let last = &self.fields[n - 1];
            proof {
                assert(self.fields@[n - 1].kind.nested_wf());
                assert(self.kinds()[n - 1] == self.fields@[n - 1].kind);
                assert(self.fields@[n - 1].offset == prefix_size(self.kinds(), n - 1));
            }
            match last.kind.size() {
                Some(sz) => Some(last.offset + sz),
                None => None,
            }
        }
    }

    /// Return the number of fields.
    pub fn field_count(&self) -> (r: usize)
        ensures
            r == self.fields@.len(),
    {
        self.fields.len()
    }

    /// Borrow the field at the given position.
    pub fn field(&self, i: usize) -> (r: &Field)
        requires
            i < self.fields@.len(),
        ensures
            *r == self.fields@[i as int],
    {
        &self.fields[i]
    }
}

/// Offset additivity: in a well-formed layout, each field's offset is the
/// sum of the sizes of all fields before it — for layouts of zero, one, or
/// any number of fields.
pub proof fn lemma_offset_additivity(l: Layout, i: int)
    requires
        l.local_wf(),
        0 <= i < l.fields@.len(),
    ensures
        l.fields@[i].offset == prefix_size(l.kinds(), i),
{
    assert(l.fields@[i] == l.fields@[i]);
}

/// Offsets never decrease along a layout: the sum of sizes is monotone.
pub proof fn lemma_prefix_size_monotone(kinds: Seq<FieldKind>, a: int, b: int)
    requires
        a <= b,
    ensures
        prefix_size(kinds, a) <= prefix_size(kinds, b),
    decreases b - a,
{
    if a < b {
        lemma_prefix_size_monotone(kinds, a, b - 1);
    }
}

/// The fields of a well-formed layout occupy pairwise disjoint byte ranges:
/// an earlier field ends at or before a later field begins.
pub proof fn lemma_fields_disjoint(l: Layout, i: int, j: int)
    requires
        l.local_wf(),
        0 <= i < j < l.fields@.len(),
    ensures
        l.fields@[i].offset + size_or_zero(l.fields@[i].kind) <= l.fields@[j].offset,
{
    assert(l.fields@[i] == l.fields@[i]);
    assert(l.fields@[j] == l.fields@[j]);
    assert(l.kinds()[i] == l.fields@[i].kind);
    assert(prefix_size(l.kinds(), i + 1) == prefix_size(l.kinds(), i) + size_or_zero(
        l.kinds()[i],
    ));
    lemma_prefix_size_monotone(l.kinds(), i + 1, j);
}

/// Only the last field of a well-formed layout can lack a definite size; a
/// nested field with another field after it therefore has an inner layout of
/// definite total size, and that inner layout is well-formed in turn, so the
/// same holds inside it at every depth.
pub proof fn lemma_open_ended_only_last(l: Layout, i: int)
    requires
        l.wf(),
        0 <= i < l.fields@.len() - 1,
    ensures
        l.fields@[i].kind.spec_size() is Some,
        l.fields@[i].kind matches FieldKind::Nested(inner) ==> inner.spec_size() is Some
            && inner.wf(),
{
    assert(l.kinds()[i] == l.fields@[i].kind);
    assert(l.fields@[i].kind.nested_wf());
}

/// Placement after a nested field: in a well-formed layout, the field
/// following a nested field starts exactly where the nested layout's total
/// size ends.
pub proof fn lemma_nested_field_placement(l: Layout, i: int)
    requires
        l.wf(),
        0 <= i < l.fields@.len() - 1,
        l.fields@[i].kind is Nested,
    ensures
        l.fields@[i].kind->Nested_0.spec_size() is Some,
        l.fields@[i + 1].offset == l.fields@[i].offset
            + l.fields@[i].kind->Nested_0.spec_size().unwrap(),
        l.fields@[i].kind->Nested_0.wf(),
{
    assert(l.kinds()[i] == l.fields@[i].kind);
    assert(l.fields@[i].kind.nested_wf());
    assert(l.fields@[i + 1].offset == prefix_size(l.kinds(), i + 1));
    assert(l.fields@[i].offset == prefix_size(l.kinds(), i));
}

impl Field {
    /// The primitive descriptor of this field, for a buffer in which the
    /// field's own layout begins at byte `base`.
    pub open spec fn spec_primitive_at(self, base: int) -> PrimitiveField
        recommends
            self.kind is Primitive,
    {
        PrimitiveField {
            kind: self.kind->Primitive_0,
            endian: self.endian,
            offset: (base + self.offset) as usize,
        }
    }

    /// Rebase this primitive field to a buffer in which the field's layout
    /// begins at byte `base`: at the top level `base` is 0, and for a field
    /// of a nested layout it is the nested field's own absolute offset.
    pub fn primitive_at(&self, base: usize) -> (r: PrimitiveField)
        requires
            self.kind is Primitive,
            base + self.offset <= usize::MAX,
        ensures
            r == self.spec_primitive_at(base as int),
    {
        match &self.kind {
            FieldKind::Primitive(k) => PrimitiveField::new(*k, self.endian, base + self.offset),
            _ => vstd::pervasive::unreached(),
        }
    }

    /// Borrow the nested layout of this field.
    pub fn nested_layout(&self) -> (r: &Layout)
        requires
            self.kind is Nested,
        ensures
            *r == self.kind->Nested_0,
    {
        match &self.kind {
            FieldKind::Nested(l) => l,
            _ => vstd::pervasive::unreached(),
        }
    }

    /// Where this field ends in a buffer in which the field's layout begins
    /// at byte `base`: its definite end, or the buffer's end if open-ended.
    pub open spec fn spec_region_end(self, base: int, s: Seq<u8>) -> int {
        match self.kind.spec_size() {
            Some(sz) => base + self.offset + sz,
            None => s.len() as int,
        }
    }

    /// Whether a buffer is long enough for this field's byte range when the
    /// field's layout begins at byte 0.
    pub open spec fn region_fits(self, s: Seq<u8>) -> bool {
        match self.kind.spec_size() {
            Some(sz) => self.offset + sz <= s.len(),
            None => self.offset <= s.len(),
        }
    }

    /// Read this top-level field from a buffer; see
    /// [`PrimitiveField::try_read`].
    pub fn try_read(&self, storage: &Vec<u8>) -> (r: Result<PrimitiveValue, NonZeroIsZeroError>)
        requires
            self.kind is Primitive,
            self.spec_primitive_at(0).fits(storage@),
        ensures
            r == self.spec_primitive_at(0).spec_read(storage@),
    {
        self.primitive_at(0).try_read(storage)
    }

    /// Read this top-level field from a buffer, for the kinds whose read
    /// cannot fail; see [`PrimitiveField::read`].
    pub fn read(&self, storage: &Vec<u8>) -> (r: PrimitiveValue)
        requires
            self.kind is Primitive,
            self.spec_primitive_at(0).fits(storage@),
            !self.kind->Primitive_0.spec_is_nonzero(),
        ensures
            Ok::<PrimitiveValue, NonZeroIsZeroError>(r) == self.spec_primitive_at(0).spec_read(
                storage@,
            ),
    {
        self.primitive_at(0).read(storage)
    }

    /// Write this top-level field into a buffer; see
    /// [`PrimitiveField::write`].
    pub fn write(&self, storage: &mut Vec<u8>, v: PrimitiveValue)
        requires
            self.kind is Primitive,
            self.spec_primitive_at(0).fits(old(storage)@),
            crate::value::value_matches_kind(v, self.kind->Primitive_0),
        ensures
            final(storage)@ == self.spec_primitive_at(0).spec_written(old(storage)@, v),
            final(storage)@.len() == old(storage)@.len(),
    {
        self.primitive_at(0).write(storage, v);
    }

    /// Write this top-level field into a buffer, reporting a zero value for
    /// a nonzero kind as an error; see [`PrimitiveField::try_write`].
    pub fn try_write(&self, storage: &mut Vec<u8>, v: PrimitiveValue) -> (r: Result<
        (),
        NonZeroIsZeroError,
    >)
        requires
            self.kind is Primitive,
            self.spec_primitive_at(0).fits(old(storage)@),
            crate::value::variant_matches_kind(v, self.kind->Primitive_0),
        ensures
            r is Err <==> self.kind->Primitive_0.spec_is_nonzero() && crate::value::value_bits(v)
                == 0,
            r is Ok ==> final(storage)@ == self.spec_primitive_at(0).spec_written(
                old(storage)@,
                v,
            ),
            r is Err ==> final(storage)@ == old(storage)@,
    {
        self.primitive_at(0).try_write(storage, v)
    }

    /// Borrow the bytes of this top-level array or open-ended field: the
    /// field's fixed range, or everything from its offset to the buffer's
    /// end. No byte is copied. An open-ended field's length is exactly the
    /// buffer's length less the field's offset.
    pub fn data<'a>(&self, storage: &'a Vec<u8>) -> (r: &'a [u8])
        requires
            self.kind is Array || self.kind is OpenEnded,
            self.region_fits(storage@),
        ensures
            r@ == storage@.subrange(self.offset as int, self.spec_region_end(0, storage@)),
            self.kind is OpenEnded ==> r@.len() == storage@.len() - self.offset,
    {
        proof {
            crate::storage::lemma_vec_len_bound(storage);
        }
        match &self.kind {
            FieldKind::Array(m) => vstd::slice::slice_subrange(
                storage.as_slice(),
                self.offset,
                self.offset + *m,
            ),
            FieldKind::OpenEnded => vstd::slice::slice_subrange(
                storage.as_slice(),
                self.offset,
                storage.len(),
            ),
            _ => vstd::pervasive::unreached(),
        }
    }

    /// Overwrite part of this top-level array or open-ended field: the
    /// `src.len()` bytes starting `at` bytes into the field. Exactly those
    /// bytes of the buffer change.
    pub fn data_mut(&self, storage: &mut Vec<u8>, at: usize, src: &Vec<u8>)
        requires
            self.kind is Array || self.kind is OpenEnded,
            self.region_fits(old(storage)@),
            self.offset + at + src@.len() <= self.spec_region_end(0, old(storage)@),
        ensures
            final(storage)@ == splice(old(storage)@, self.offset + at, src@),
            final(storage)@.len() == old(storage)@.len(),
    {
        proof {
            crate::storage::lemma_vec_len_bound(storage);
        }
        crate::storage::write_bytes_at(storage, self.offset + at, src);
    }
}

/// A complete layout placed as one field of an outer layout, at a fixed byte
/// position of the outer buffer. Offsets inside the nested layout are
/// relative to where it begins; this helper rebases them to the outer
/// buffer, whose byte order the nested layout need not share.
pub struct NestedField {
    /// Where the nested layout begins in the outer buffer.
    pub offset: usize,
    /// The nested layout.
    pub layout: Layout,
}

impl NestedField {
    /// Place a layout at a byte position of an outer buffer.
    pub fn new(offset: usize, layout: Layout) -> (r: Self)
        ensures
            r.offset == offset,
            r.layout == layout,
    {
        NestedField { offset, layout }
    }

    /// The primitive field at position `i` of the nested layout, rebased to
    /// the outer buffer.
    pub fn primitive(&self, i: usize) -> (r: PrimitiveField)
        requires
            i < self.layout.fields@.len(),
            self.layout.fields@[i as int].kind is Primitive,
            self.offset + self.layout.fields@[i as int].offset <= usize::MAX,
        ensures
            r == self.layout.fields@[i as int].spec_primitive_at(self.offset as int),
    {
        let f = self.layout.field(i);
        f.primitive_at(self.offset)
    }
}

} // verus!
