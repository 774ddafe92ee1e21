//! The endianness-aware codec between unsigned integers and byte strings.
//!
//! Everything here is pure arithmetic: a value is split into base-256 digits,
//! laid out least significant first (little-endian) or most significant first
//! (big-endian). The executable encoder and decoder are verified against the
//! spec functions [`bytes_of`] and [`uint_of`], which are exact inverses on
//! values that fit the requested width ([`lemma_uint_round_trip`]).

use vstd::arithmetic::div_mod::{
    lemma_breakdown, lemma_div_denominator, lemma_fundamental_div_mod,
};
use vstd::arithmetic::power2::{lemma2_to64, lemma_pow2_adds, lemma_pow2_pos, pow2};
use vstd::prelude::*;

verus! {

broadcast use vstd::seq_lib::group_seq_properties;

/// The byte of `v` at base-256 digit position `i` (position 0 is the least
/// significant byte).
pub open spec fn byte_at(v: nat, i: nat) -> u8 {
    ((v / pow2(8 * i)) % 256) as u8
}

/// The `n` low bytes of `v`, least significant first.
pub open spec fn le_bytes_of(v: nat, n: nat) -> Seq<u8> {
    Seq::new(n, |i: int| byte_at(v, i as nat))
}

/// The `n` low bytes of `v`, least significant first if `little`, else most
/// significant first.
pub open spec fn bytes_of(v: nat, n: nat, little: bool) -> Seq<u8> {
    if little {
        le_bytes_of(v, n)
    } else {
        le_bytes_of(v, n).reverse()
    }
}

/// The unsigned value of a byte string read least significant byte first.
pub open spec fn le_uint_of(s: Seq<u8>) -> nat
    decreases s.len(),
{
    if s.len() == 0 {
        0
    } else {
        (s[0] + 256 * le_uint_of(s.drop_first())) as nat
    }
}

/// The unsigned value of a byte string under the given byte order.
pub open spec fn uint_of(s: Seq<u8>, little: bool) -> nat {
    if little {
        le_uint_of(s)
    } else {
        le_uint_of(s.reverse())
    }
}

/// A byte string of length `n` encodes a value below `256^n`.
pub proof fn lemma_le_uint_of_bound(s: Seq<u8>)
    ensures
        le_uint_of(s) < pow2(8 * s.len()),
    decreases s.len(),
{
    if s.len() == 0 {
        lemma2_to64();
    } else {
        lemma_le_uint_of_bound(s.drop_first());
        lemma_pow2_adds(8, 8 * (s.len() - 1) as nat);
        lemma2_to64();
    }
}

/// Unfolding step for [`le_uint_of`] on a subrange: reading from position `i`
/// takes byte `i` as the least significant digit.
proof fn lemma_le_uint_of_subrange_step(s: Seq<u8>, i: int)
    requires
        0 <= i < s.len(),
    ensures
        le_uint_of(s.subrange(i, s.len() as int)) == s[i] + 256 * le_uint_of(
            s.subrange(i + 1, s.len() as int),
        ),
{
    let tail = s.subrange(i, s.len() as int);
    assert(tail.drop_first() =~= s.subrange(i + 1, s.len() as int));
}

/// The little-endian bytes of `v / 256` are the little-endian bytes of `v`
/// with the least significant byte dropped.
proof fn lemma_le_bytes_of_shift(v: nat, n: nat)
    requires
        n > 0,
    ensures
        le_bytes_of(v, n).drop_first() =~= le_bytes_of(v / 256, (n - 1) as nat),
{
    assert forall|i: int| 0 <= i < n - 1 implies le_bytes_of(v, n).drop_first()[i] == le_bytes_of(
        v / 256,
        (n - 1) as nat,
    )[i] by {
        lemma_pow2_adds(8, 8 * i as nat);
        lemma2_to64();
        lemma_pow2_pos(8 * i as nat);
        lemma_div_denominator(v as int, 256, pow2(8 * i as nat) as int);
        assert(8 * (i + 1) == 8 + 8 * i);
    }
}

/// Decoding the little-endian encoding of `v` gives back `v` modulo `256^n`.
pub proof fn lemma_le_uint_of_le_bytes_of(v: nat, n: nat)
    ensures
        le_uint_of(le_bytes_of(v, n)) == v % pow2(8 * n),
    decreases n,
{
    if n == 0 {
        lemma2_to64();
    } else {
        lemma_le_bytes_of_shift(v, n);
        lemma_le_uint_of_le_bytes_of(v / 256, (n - 1) as nat);
        let p = pow2(8 * (n - 1) as nat);
        lemma_pow2_pos(8 * (n - 1) as nat);
        lemma_breakdown(v as int, 256, p as int);
        lemma_pow2_adds(8, 8 * (n - 1) as nat);
        lemma2_to64();
        assert(le_bytes_of(v, n)[0] == byte_at(v, 0));
        assert(v / pow2(0) == v) by {
            lemma_fundamental_div_mod(v as int, 1);
        }
    }
}

/// Round trip: encoding a value that fits in `n` bytes and decoding it again,
/// under one and the same byte order, gives back the value unchanged.
pub proof fn lemma_uint_round_trip(v: nat, n: nat, little: bool)
    requires
        v < pow2(8 * n),
    ensures
        uint_of(bytes_of(v, n, little), little) == v,
{
    lemma_le_uint_of_le_bytes_of(v, n);
    vstd::arithmetic::div_mod::lemma_small_mod(v, pow2(8 * n));
    if !little {
        assert(le_bytes_of(v, n).reverse().reverse() =~= le_bytes_of(v, n));
    }
}

/// A byte string of length `n` encodes a value below `256^n` under either
/// byte order.
pub proof fn lemma_uint_of_bound(s: Seq<u8>, little: bool)
    ensures
        uint_of(s, little) < pow2(8 * s.len()),
{
    if little {
        lemma_le_uint_of_bound(s);
    } else {
        lemma_le_uint_of_bound(s.reverse());
    }
}

/// The two byte orders are exact mirror images: a byte string decodes under
/// one order to the value its reversal decodes to under the other.
pub proof fn lemma_byte_orders_mirror(s: Seq<u8>, little: bool)
    ensures
        uint_of(s, little) == uint_of(s.reverse(), !little),
{
    assert(s.reverse().reverse() =~= s);
}

/// Powers of two do not decrease with the exponent.
proof fn lemma_pow2_le(e1: nat, e2: nat)
    requires
        e1 <= e2,
    ensures
        pow2(e1) <= pow2(e2),
{
    vstd::arithmetic::power2::lemma_pow2(e1);
    vstd::arithmetic::power2::lemma_pow2(e2);
    vstd::arithmetic::power::lemma_pow_increases(2, e1, e2);
}

/// The concrete value of `pow2(128)`.
pub proof fn lemma_pow2_128()
    ensures
        pow2(128) == 0x100000000000000000000000000000000,
{
    lemma2_to64();
    lemma_pow2_adds(64, 64);
}

/// Return the bytes of a slice in reverse order.
fn reversed(s: &[u8]) -> (r: Vec<u8>)
    ensures
        r@ == s@.reverse(),
{
    let n = s.len();
    let mut out: Vec<u8> = Vec::new();
    let mut i: usize = 0;
    while i < n
        invariant
            i <= n,
            n == s@.len(),
            out@.len() == i,
            forall|j: int| 0 <= j < i ==> out@[j] == s@[n - 1 - j],
        decreases n - i,
    {
        out.push(*vstd::slice::slice_index_get(s, n - 1 - i));
        i = i + 1;
    }
    assert(out@ =~= s@.reverse());
    out
}

/// Encode the `n` low bytes of `v` under the given byte order.
pub fn encode_uint(v: u128, n: usize, little: bool) -> (r: Vec<u8>)
    requires
        n <= 16,
    ensures
        r@ == bytes_of(v as nat, n as nat, little),
        r@.len() == n,
{
    let mut out: Vec<u8> = Vec::new();
    let mut x: u128 = v;
    let mut i: usize = 0;
    proof {
        lemma2_to64();
        assert(8 * (0 as nat) == 0);
        assert((v as nat) / 1 == v as nat);
    }
    while i < n
        invariant
            i <= n,
            out@.len() == i,
            x as nat == (v as nat) / pow2(8 * i as nat),
            forall|j: int| 0 <= j < i ==> out@[j] == byte_at(v as nat, j as nat),
        decreases n - i,
    {
        out.push((x % 256) as u8);
        proof {
            lemma_pow2_pos(8 * i as nat);
            lemma_div_denominator(v as int, pow2(8 * i as nat) as int, 256);
            lemma_pow2_adds(8 * i as nat, 8);
            lemma2_to64();
            assert(8 * (i + 1) == 8 * i + 8);
        }
        x = x / 256;
        i = i + 1;
    }
    assert(out@ =~= le_bytes_of(v as nat, n as nat));
    if little {
        out
    } else {
        reversed(out.as_slice())
    }
}

/// Decode a byte string of at most 16 bytes read least significant byte first.
fn decode_le_uint(s: &[u8]) -> (r: u128)
    requires
        s@.len() <= 16,
    ensures
        r as nat == le_uint_of(s@),
{
    let n = s.len();
    let mut x: u128 = 0;
    let mut i: usize = n;
    proof {
        assert(s@.subrange(n as int, n as int) =~= Seq::<u8>::empty());
    }
    while i > 0
        invariant
            i <= n,
            n == s@.len(),
            n <= 16,
            x as nat == le_uint_of(s@.subrange(i as int, n as int)),
        decreases i,
    {
        let b = *vstd::slice::slice_index_get(s, i - 1);
        proof {
            lemma_le_uint_of_subrange_step(s@, i - 1);
            lemma_le_uint_of_bound(s@.subrange(i as int, n as int));
            lemma_pow2_adds(8, 8 * (n - i) as nat);
            lemma_pow2_le(8 * (n - i) as nat + 8, 128);
            lemma2_to64();
            lemma_pow2_128();
        }
        x = x * 256 + (b as u128);
        i = i - 1;
    }
    assert(s@.subrange(0, n as int) =~= s@);
    x
}

/// Decode a byte string of at most 16 bytes under the given byte order.
pub fn decode_uint(s: &[u8], little: bool) -> (r: u128)
    requires
        s@.len() <= 16,
    ensures
        r as nat == uint_of(s@, little),
{
    if little {
        decode_le_uint(s)
    } else {
        let rev = reversed(s);
        decode_le_uint(rev.as_slice())
    }
}

} // verus!
