//! Word-level building blocks of the portable hasher: the folded multiply,
//! rotation, and little-endian loads from byte slices.

use vstd::prelude::*;

verus! {

/// 2^64, the modulus of `u64` arithmetic.
pub open spec fn word_modulus() -> nat {
    0x1_0000_0000_0000_0000
}

/// The folded multiply: the 128-bit product of `s` and `by`, with its low and
/// high halves combined by exclusive or.
pub open spec fn spec_folded_multiply(s: u64, by: u64) -> u64 {
    let full: nat = s as nat * by as nat;
    ((full % word_modulus()) as u64) ^ ((full / word_modulus()) as u64)
}

/// Rotation of `x` to the left by `r` bits, for `r < 64`.
pub open spec fn spec_rotate_left(x: u64, r: u32) -> u64
    recommends
        r < 64,
{
    if r == 0 {
        x
    } else {
        (x << r) | (x >> ((64 - r) as u32))
    }
}

/// 256 to the power `n`.
pub open spec fn pow256(n: nat) -> nat
    decreases n,
{
    if n == 0 {
        1
    } else {
        256 * pow256((n - 1) as nat)
    }
}

/// The number whose little-endian byte encoding is `s`.
pub open spec fn spec_le(s: Seq<u8>) -> nat
    decreases s.len(),
{
    if s.len() == 0 {
        0
    } else {
        s[0] as nat + 256 * spec_le(s.drop_first())
    }
}

pub fn folded_multiply(s: u64, by: u64) -> (r: u64)
    ensures
        r == spec_folded_multiply(s, by),
{
    assert((s as nat) * (by as nat) <= 0xffff_ffff_ffff_fffe_0000_0000_0000_0001) by (nonlinear_arith)
        requires
            s <= 0xffff_ffff_ffff_ffff,
            by <= 0xffff_ffff_ffff_ffff,
    ;
    let result: u128 = (s as u128) * (by as u128);
    assert(result & 0xffff_ffff_ffff_ffff == result % 0x1_0000_0000_0000_0000) by (bit_vector);
    assert(result >> 64u128 == result / 0x1_0000_0000_0000_0000) by (bit_vector);
    let low = (result & 0xffff_ffff_ffff_ffff) as u64;
    let high = (result >> 64u128) as u64;
    low ^ high
}

/// Rotates `x` left by `r` bits; a rotation by 64 or more bits turns by `r`
/// modulo 64.
pub fn rotate_left(x: u64, r: u32) -> (y: u64)
    ensures
        y == spec_rotate_left(x, r % 64),
{
    let s = r % 64;
    if s == 0 {
        x
    } else {
        (x << s) | (x >> (64 - s))
    }
}

/// A little-endian number of `n` bytes is below 256^n.
pub proof fn lemma_le_bound(s: Seq<u8>)
    ensures
        spec_le(s) < pow256(s.len()),
    decreases s.len(),
{
    if s.len() > 0 {
        lemma_le_bound(s.drop_first());
    }
}

/// The little-endian value of `s` followed by one more byte `b`.
pub proof fn lemma_le_prepend(b: u8, s: Seq<u8>)
    ensures
        spec_le(seq![b] + s) == b as nat + 256 * spec_le(s),
{
    assert((seq![b] + s).drop_first() =~= s);
}

proof fn lemma_pow256_small(n: nat)
    requires
        n <= 7,
    ensures
        pow256(n) <= 0x100_0000_0000_0000,
{
    reveal_with_fuel(pow256, 8);
}

/// The little-endian value of `count` bytes of `data` starting at `start`.
pub open spec fn spec_read_le(data: Seq<u8>, start: int, count: int) -> nat {
    spec_le(data.subrange(start, start + count))
}

/// Loads `count` (at most 8) bytes of `data` from `start` as a little-endian number.
pub fn read_le(data: &[u8], start: usize, count: usize) -> (v: u64)
    requires
        count <= 8,
        start + count <= data@.len(),
    ensures
        v as nat == spec_read_le(data@, start as int, count as int),
{
    let mut v: u64 = 0;
    let mut i: usize = count;
    while i > 0
        invariant
            i <= count <= 8,
            start + count <= data.len(),
            v as nat == spec_le(data@.subrange(start + i, start + count)),
        decreases i,
    {
        let ghost rest = data@.subrange(start + i, start + count);
        proof {
            lemma_le_bound(rest);
            lemma_pow256_small(rest.len());
        }
        let b = data[start + i - 1];
        v = v * 256 + b as u64;
        proof {
            lemma_le_prepend(b, rest);
            assert(data@.subrange(start + i - 1, start + count) =~= seq![b] + rest);
        }
        i = i - 1;
    }
    v
}

/// `n` zero bytes.
pub open spec fn zeros(n: nat) -> Seq<u8> {
    Seq::new(n, |i: int| 0u8)
}

/// Zero bytes read as a little-endian number give zero.
pub proof fn lemma_le_zeros(s: Seq<u8>)
    requires
        forall|i: int| 0 <= i < s.len() ==> s[i] == 0,
    ensures
        spec_le(s) == 0,
    decreases s.len(),
{
    if s.len() > 0 {
        lemma_le_zeros(s.drop_first());
    }
}

/// The two words that the hasher draws from an input of at most 8 bytes.
pub open spec fn spec_read_small(s: Seq<u8>) -> (u64, u64) {
    let len = s.len() as int;
    if len >= 2 {
        if len >= 4 {
            (spec_read_le(s, 0, 4) as u64, spec_read_le(s, len - 4, 4) as u64)
        } else {
            (spec_read_le(s, 0, 2) as u64, s[len - 1] as u64)
        }
    } else if len > 0 {
        (s[0] as u64, s[0] as u64)
    } else {
        (0, 0)
    }
}

/// What the short read draws from `s` (at most 8 bytes): for 4 to 8 bytes
/// the little-endian values of its first four and of its last four bytes; for
/// 2 or 3 bytes the value of its first two bytes and the value of its last
/// byte; for one byte that byte's value twice; zeros for no byte. Each word
/// is below 2^32 and holds the bytes it is drawn from unchanged.
pub proof fn lemma_read_small_words(s: Seq<u8>)
    requires
        s.len() <= 8,
    ensures
        ({
            let r = spec_read_small(s);
            let len = s.len() as int;
            &&& r.0 < 0x1_0000_0000
            &&& r.1 < 0x1_0000_0000
            &&& len >= 4 ==> r.0 as nat == spec_le(s.subrange(0, 4)) && r.1 as nat == spec_le(
                s.subrange(len - 4, len),
            )
            &&& 2 <= len < 4 ==> r.0 as nat == spec_le(s.subrange(0, 2)) && r.1 as nat
                == s[len - 1] as nat
            &&& len == 1 ==> r.0 as nat == s[0] as nat && r.1 as nat == s[0] as nat
            &&& len == 0 ==> r.0 == 0 && r.1 == 0
        }),
{
    reveal_with_fuel(pow256, 5);
    let len = s.len() as int;
    if len >= 4 {
        lemma_le_bound(s.subrange(0, 4));
        lemma_le_bound(s.subrange(len - 4, len));
    } else if len >= 2 {
        lemma_le_bound(s.subrange(0, 2));
    }
}

/// Draws two words from an input of at most 8 bytes: for 4 to 8 bytes its
/// first and last four bytes, for 2 or 3 bytes its first two and its last,
/// for one byte that byte twice, and zeros for no byte at all.
pub fn read_small(data: &[u8]) -> (r: (u64, u64))
    requires
        data@.len() <= 8,
    ensures
        r == spec_read_small(data@),
{
    let len = data.len();
    if len >= 2 {
        if len >= 4 {
            (read_le(data, 0, 4), read_le(data, len - 4, 4))
        } else {
            (read_le(data, 0, 2), data[len - 1] as u64)
        }
    } else if len > 0 {
        (data[0] as u64, data[0] as u64)
    } else {
        (0, 0)
    }
}

} // verus!
