//! Reading and writing byte ranges of caller-supplied storage.
//!
//! A field write replaces exactly one byte range of the buffer and leaves
//! every other byte as it was; [`splice`] is the spec-level statement of
//! that, and all field accessors phrase their contracts with it.

use vstd::prelude::*;

verus! {

/// The byte string `s` with the range starting at `offset` replaced by `b`;
/// every byte outside that range is unchanged.
pub open spec fn splice(s: Seq<u8>, offset: int, b: Seq<u8>) -> Seq<u8> {
    Seq::new(
        s.len(),
        |i: int|
            if offset <= i < offset + b.len() {
                b[i - offset]
            } else {
                s[i]
            },
    )
}

/// Splicing in an empty byte string changes nothing: a zero-sized write
/// leaves the whole buffer as it was.
pub proof fn lemma_splice_empty(s: Seq<u8>, offset: int, b: Seq<u8>)
    requires
        b.len() == 0,
    ensures
        splice(s, offset, b) == s,
{
    assert(splice(s, offset, b) =~= s);
}

/// After a splice, the spliced range holds exactly the new bytes.
pub proof fn lemma_splice_range(s: Seq<u8>, offset: int, b: Seq<u8>)
    requires
        0 <= offset,
        offset + b.len() <= s.len(),
    ensures
        splice(s, offset, b).subrange(offset, offset + b.len()) == b,
{
    assert(splice(s, offset, b).subrange(offset, offset + b.len()) =~= b);
}

/// A splice leaves every byte range disjoint from the spliced range as it
/// was.
pub proof fn lemma_splice_disjoint(s: Seq<u8>, offset: int, b: Seq<u8>, lo: int, hi: int)
    requires
        0 <= lo <= hi <= s.len(),
        hi <= offset || offset + b.len() <= lo,
    ensures
        splice(s, offset, b).subrange(lo, hi) == s.subrange(lo, hi),
{
    assert(splice(s, offset, b).subrange(lo, hi) =~= s.subrange(lo, hi));
}

/// A buffer's length fits in a machine word.
pub proof fn lemma_vec_len_bound(v: &Vec<u8>)
    ensures
        v@.len() <= usize::MAX,
{
    vstd::std_specs::vec::axiom_spec_len(v);
}

/// Copy the `n` bytes of storage starting at `offset` out into a fresh
/// buffer. The caller must stay within the storage: a shorter buffer is a
/// contract violation, not data.
pub fn read_bytes_at(storage: &Vec<u8>, offset: usize, n: usize) -> (r: Vec<u8>)
    requires
        offset + n <= storage@.len(),
    ensures
        r@ == storage@.subrange(offset as int, offset + n),
{
    let mut out: Vec<u8> = Vec::new();
    let total = storage.len();
    let mut j: usize = 0;
    while j < n
        invariant
            j <= n,
            offset + n <= total,
            total == storage@.len(),
            out@.len() == j,
            forall|i: int| 0 <= i < j ==> out@[i] == storage@[offset + i],
        decreases n - j,
    {
        out.push(storage[offset + j]);
        j = j + 1;
    }
    assert(out@ =~= storage@.subrange(offset as int, offset + n));
    out
}

/// Overwrite the bytes of storage starting at `offset` with `b`, leaving
/// every other byte unchanged. The caller must stay within the storage.
pub fn write_bytes_at(storage: &mut Vec<u8>, offset: usize, b: &Vec<u8>)
    requires
        offset + b@.len() <= old(storage)@.len(),
    ensures
        final(storage)@ == splice(old(storage)@, offset as int, b@),
{
    let n = b.len();
    let total = storage.len();
    let mut j: usize = 0;
    while j < n
        invariant
            j <= n,
            n == b@.len(),
            offset + n <= total,
            total == storage@.len(),
            storage@.len() == old(storage)@.len(),
            forall|i: int|
                0 <= i < storage@.len() ==> storage@[i] == (if offset <= i < offset + j {
                    b@[i - offset]
                } else {
                    old(storage)@[i]
                }),
        decreases n - j,
    {
        storage[offset + j] = b[j];
        j = j + 1;
    }
    assert(storage@ =~= splice(old(storage)@, offset as int, b@));
}

} // verus!
