//! Owned byte storage with an ownership-preserving window.
//!
//! A [`Data`] owns a block of bytes but exposes only a window of it. Cutting
//! the window down ([`Data::into_subregion`]) moves the same allocation —
//! no byte is copied — while everything outside the new window becomes
//! invisible. The price is that the whole block stays in memory as long as
//! any narrowed descendant of it lives.

use vstd::prelude::*;

verus! {

/// An owned block of bytes of which only the window `[start, end)` is
/// visible. The view of a `Data` is the visible window alone.
#[derive(Debug)]
pub struct Data {
    storage: Vec<u8>,
    start: usize,
    end: usize,
}

impl Data {
    /// The window lies within the owned block.
    #[verifier::type_invariant]
    spec fn window_wf(self) -> bool {
        self.start <= self.end <= self.storage@.len()
    }
}

impl View for Data {
    type V = Seq<u8>;

    closed spec fn view(&self) -> Seq<u8> {
        self.storage@.subrange(self.start as int, self.end as int)
    }
}

impl Data {
    /// Take ownership of a block of bytes, with the window covering all of
    /// it.
    pub fn new(storage: Vec<u8>) -> (r: Data)
        ensures
            r@ == storage@,
    {
        let end = storage.len();
        let r = Data { storage, start: 0, end };
        proof {
            assert(r@ =~= r.storage@);
        }
        r
    }

    /// Return the number of visible bytes (of a subregion: the subregion's
    /// length).
    pub fn len(&self) -> (r: usize)
        ensures
            r == self@.len(),
    {
        proof {
            use_type_invariant(self);
        }
        self.end - self.start
    }

    /// Return whether no byte is visible.
    pub fn is_empty(&self) -> (r: bool)
        ensures
            r == (self@.len() == 0),
    {
        self.len() == 0
    }

    /// Borrow the visible bytes.
    pub fn as_bytes(&self) -> (r: &[u8])
        ensures
            r@ == self@,
    {
        proof {
            use_type_invariant(self);
        }
        vstd::slice::slice_subrange(self.storage.as_slice(), self.start, self.end)
    }

    /// Narrow the window to `[start, end)` of the currently visible bytes,
    /// moving the same allocation: no byte is copied. An `end` beyond the
    /// visible length is a caller-contract violation, ruled out here by
    /// precondition; [`Data::try_into_subregion`] reports it as an error
    /// instead. A `start` at or beyond `end` leaves an empty window.
    pub fn into_subregion(self, start: usize, end: usize) -> (r: Data)
        requires
            end <= self@.len(),
        ensures
            start <= end ==> r@ == self@.subrange(start as int, end as int),
            start > end ==> r@ == Seq::<u8>::empty(),
    {
        proof {
            use_type_invariant(&self);
        }
        let ghost old_view = self@;
        let from = if start > end {
            end
        } else {
            start
        };
        let r = Data {
            storage: self.storage,
            start: self.start + from,
            end: self.start + end,
        };
        proof {
            if start <= end {
                assert(r@ =~= old_view.subrange(start as int, end as int));
            } else {
                assert(r@ =~= Seq::<u8>::empty());
            }
        }
        r
    }

    /// Narrow the window to `[start, end)` of the currently visible bytes if
    /// `end` lies within them, and report an error otherwise, handing the
    /// data back unchanged: narrowing past the available length is never
    /// silently clamped.
    pub fn try_into_subregion(self, start: usize, end: usize) -> (r: Result<Data, Data>)
        ensures
            r is Ok <==> end <= self@.len(),
            r is Ok && start <= end ==> r->Ok_0@ == self@.subrange(start as int, end as int),
            r is Ok && start > end ==> r->Ok_0@ == Seq::<u8>::empty(),
            r is Err ==> r->Err_0@ == self@,
    {
        let n = self.len();
        if end > n {
            Err(self)
        } else {
            Ok(self.into_subregion(start, end))
        }
    }

    /// Give the owned block back, consuming the window. The block holds the
    /// visible bytes as one contiguous range; what lies around them was
    /// hidden by the window but never freed.
    pub fn into_storage(self) -> (r: Vec<u8>)
        ensures
            exists|i: int|
                0 <= i && i + self@.len() <= r@.len() && #[trigger] r@.subrange(
                    i,
                    i + self@.len(),
                ) == self@,
    {
        proof {
            use_type_invariant(&self);
            assert(self.storage@.subrange(
                self.start as int,
                self.start + self@.len(),
            ) == self@);
        }
        self.storage
    }
}

/// Narrowing composes: cutting a window to `[s1, e1)` and the result to
/// `[s2, e2)` shows exactly the original bytes `[s1 + s2, s1 + e2)` — the
/// offsets add, with no silent clamping anywhere along the way.
pub proof fn lemma_subregion_narrowing_composes(s: Seq<u8>, s1: int, e1: int, s2: int, e2: int)
    requires
        0 <= s1 <= e1 <= s.len(),
        0 <= s2 <= e2,
        e2 <= e1 - s1,
    ensures
        s.subrange(s1, e1).subrange(s2, e2) == s.subrange(s1 + s2, s1 + e2),
{
    assert(s.subrange(s1, e1).subrange(s2, e2) =~= s.subrange(s1 + s2, s1 + e2));
}

} // verus!
