//! The portable aHash hasher: a 64-bit buffer, a pad and two extra keys,
//! updated with folded multiplies over 16-byte blocks of the input.
//!
//! This is the variant aHash uses where no AES instructions are available,
//! with the 128-bit folded multiply of 64-bit targets. The AES hasher, which
//! aHash takes on targets with AES enabled, and the 32-bit folded multiply are
//! not modelled here.

use vstd::prelude::*;

use crate::operations::{
    folded_multiply, read_le, read_small, rotate_left, spec_folded_multiply, spec_read_le,
    spec_read_small, spec_rotate_left, zeros, lemma_le_zeros, spec_le, lemma_le_bound, pow256,
};

verus! {

/// The multiplier of the length-mixing step.
pub const MULTIPLE: u64 = 6364136223846793005;

/// The rotation applied after each block.
pub const ROT: u32 = 23;

/// The state of the portable hasher (the one used where no AES instructions
/// are available): the buffer that accumulates the input, the pad it is
/// finished with, and the keys that each block is combined with.
pub struct AHasher {
    pub buffer: u64,
    pub pad: u64,
    pub extra_keys: [u64; 2],
}

/// `x + y` modulo 2^64.
pub open spec fn wrap_add(x: u64, y: u64) -> u64 {
    vstd::wrapping::u64_specs::wrapping_add(x, y)
}

/// `x * y` modulo 2^64.
pub open spec fn wrap_mul(x: u64, y: u64) -> u64 {
    vstd::wrapping::u64_specs::wrapping_mul(x, y)
}

/// The state after the input's length has been mixed into the buffer.
pub open spec fn spec_mix_length(h: AHasher, length: u64) -> AHasher {
    AHasher { buffer: wrap_mul(wrap_add(h.buffer, length), MULTIPLE), pad: h.pad, extra_keys: h.extra_keys }
}

/// The state after one 16-byte block, given as its two little-endian words.
pub open spec fn spec_large_update(h: AHasher, block: (u64, u64)) -> AHasher {
    let combined = spec_folded_multiply(block.0 ^ h.extra_keys[0], block.1 ^ h.extra_keys[1]);
    AHasher {
        buffer: spec_rotate_left(wrap_add(h.buffer, h.pad) ^ combined, ROT),
        pad: h.pad,
        extra_keys: h.extra_keys,
    }
}

/// The state after the blocks `blocks`, in order.
pub open spec fn spec_apply_blocks(h: AHasher, blocks: Seq<(u64, u64)>) -> AHasher
    decreases blocks.len(),
{
    if blocks.len() == 0 {
        h
    } else {
        spec_apply_blocks(spec_large_update(h, blocks[0]), blocks.drop_first())
    }
}

/// The 8-byte little-endian word of `s` at `start`.
pub open spec fn word_at(s: Seq<u8>, start: int) -> u64 {
    spec_read_le(s, start, 8) as u64
}

/// The 16-byte blocks that the main loop takes from the front of `s`, while
/// more than 16 bytes remain.
pub open spec fn spec_front_blocks(s: Seq<u8>) -> Seq<(u64, u64)>
    decreases s.len(),
{
    if s.len() > 16 {
        seq![(word_at(s, 0), word_at(s, 8))] + spec_front_blocks(s.skip(16))
    } else {
        Seq::empty()
    }
}

/// The blocks that writing `s` feeds to the hasher: the read of a short input;
/// for 9 to 16 bytes the first and last eight; for longer inputs the last 16
/// bytes and then the blocks taken from the front.
pub open spec fn spec_blocks(s: Seq<u8>) -> Seq<(u64, u64)> {
    let len = s.len() as int;
    if len > 16 {
        seq![(word_at(s, len - 16), word_at(s, len - 8))] + spec_front_blocks(s)
    } else if len > 8 {
        seq![(word_at(s, 0), word_at(s, len - 8))]
    } else {
        seq![spec_read_small(s)]
    }
}

/// The state after writing the bytes `s`.
pub open spec fn spec_write(h: AHasher, s: Seq<u8>) -> AHasher {
    spec_apply_blocks(spec_mix_length(h, s.len() as u64), spec_blocks(s))
}

/// The hash that a state finishes with.
pub open spec fn spec_finish(h: AHasher) -> u64 {
    spec_rotate_left(spec_folded_multiply(h.buffer, h.pad), (h.buffer & 63) as u32)
}

proof fn lemma_apply_first(h: AHasher, b: (u64, u64), rest: Seq<(u64, u64)>)
    ensures
        spec_apply_blocks(h, seq![b] + rest) == spec_apply_blocks(spec_large_update(h, b), rest),
{
    assert((seq![b] + rest).drop_first() =~= rest);
}

proof fn lemma_apply_single(h: AHasher, b: (u64, u64))
    ensures
        spec_apply_blocks(h, seq![b]) == spec_large_update(h, b),
{
    let rest = seq![b].drop_first();
    assert(rest =~= Seq::<(u64, u64)>::empty());
    assert(spec_apply_blocks(spec_large_update(h, b), rest) == spec_large_update(h, b));
}

/// The inverse of `MULTIPLE` modulo 2^64.
pub open spec fn multiple_inverse() -> int {
    0xc097_ef87_329e_28a5
}

/// Multiplying by `MULTIPLE` modulo 2^64 is undone by multiplying by its inverse.
proof fn lemma_multiple_cancels(z: u64)
    ensures
        (wrap_mul(z, MULTIPLE) as int * multiple_inverse()) % 0x1_0000_0000_0000_0000 == z as int,
{
    let w: int = 0x1_0000_0000_0000_0000;
    let m: int = MULTIPLE as int;
    let inv: int = multiple_inverse();
    let k: int = 4787856489426250814;
    let p: int = z as int * m;
    assert(wrap_mul(z, MULTIPLE) as int == p % w);
    vstd::arithmetic::div_mod::lemma_mul_mod_noop_left(p, inv, w);
    vstd::arithmetic::mul::lemma_mul_is_associative(z as int, m, inv);
    assert(m * inv == 1 + k * w);
    assert(z as int * (1 + k * w) == w * (z as int * k) + z as int) by (nonlinear_arith);
    vstd::arithmetic::div_mod::lemma_mod_multiples_vanish(z as int * k, z as int, w);
    vstd::arithmetic::div_mod::lemma_small_mod(z as nat, w as nat);
}

/// Multiplying by `MULTIPLE` modulo 2^64 is one to one.
pub proof fn lemma_mul_multiple_injective(x: u64, y: u64)
    requires
        wrap_mul(x, MULTIPLE) == wrap_mul(y, MULTIPLE),
    ensures
        x == y,
{
    lemma_multiple_cancels(x);
    lemma_multiple_cancels(y);
}

/// Adding a fixed value modulo 2^64 is one to one.
pub proof fn lemma_add_injective(b: u64, x: u64, y: u64)
    requires
        wrap_add(b, x) == wrap_add(b, y),
    ensures
        x == y,
{
}

/// One block changes the buffer one to one: states that agree on the pad and
/// keys and differ in the buffer still differ after the same block.
pub proof fn lemma_large_update_injective(h1: AHasher, h2: AHasher, block: (u64, u64))
    requires
        h1.pad == h2.pad,
        h1.extra_keys == h2.extra_keys,
        h1.buffer != h2.buffer,
    ensures
        spec_large_update(h1, block).buffer != spec_large_update(h2, block).buffer,
        spec_large_update(h1, block).pad == h1.pad,
        spec_large_update(h1, block).extra_keys == h1.extra_keys,
{
    let c = spec_folded_multiply(block.0 ^ h1.extra_keys[0], block.1 ^ h1.extra_keys[1]);
    let a1 = wrap_add(h1.buffer, h1.pad);
    let a2 = wrap_add(h2.buffer, h2.pad);
    assert(a1 != a2);
    assert(a1 != a2 ==> (a1 ^ c) != (a2 ^ c)) by (bit_vector);
    let x1 = a1 ^ c;
    let x2 = a2 ^ c;
    assert(x1 != x2 ==> (x1 << 23u32) | (x1 >> 41u32) != (x2 << 23u32) | (x2 >> 41u32)) by (bit_vector);
}

/// The same blocks keep states that differ only in their buffers apart.
pub proof fn lemma_apply_blocks_injective(h1: AHasher, h2: AHasher, blocks: Seq<(u64, u64)>)
    requires
        h1.pad == h2.pad,
        h1.extra_keys == h2.extra_keys,
        h1.buffer != h2.buffer,
    ensures
        spec_apply_blocks(h1, blocks).buffer != spec_apply_blocks(h2, blocks).buffer,
    decreases blocks.len(),
{
    if blocks.len() > 0 {
        lemma_large_update_injective(h1, h2, blocks[0]);
        lemma_large_update_injective(h2, h1, blocks[0]);
        lemma_apply_blocks_injective(
            spec_large_update(h1, blocks[0]),
            spec_large_update(h2, blocks[0]),
            blocks.drop_first(),
        );
    }
}

/// Inputs of different lengths leave different states whenever they feed
/// the hasher the same blocks: the length is mixed into the buffer before
/// any byte is read, and nothing afterwards can merge the two.
pub proof fn lemma_length_separates_states(h: AHasher, s1: Seq<u8>, s2: Seq<u8>)
    requires
        s1.len() != s2.len(),
        s1.len() <= u64::MAX,
        s2.len() <= u64::MAX,
        spec_blocks(s1) == spec_blocks(s2),
    ensures
        spec_write(h, s1).buffer != spec_write(h, s2).buffer,
{
    let m1 = spec_mix_length(h, s1.len() as u64);
    let m2 = spec_mix_length(h, s2.len() as u64);
    if m1.buffer == m2.buffer {
        lemma_mul_multiple_injective(wrap_add(h.buffer, s1.len() as u64), wrap_add(h.buffer, s2.len() as u64));
        lemma_add_injective(h.buffer, s1.len() as u64, s2.len() as u64);
    }
    lemma_apply_blocks_injective(m1, m2, spec_blocks(s1));
}

/// The number of blocks that an input of `len` bytes is fed in.
pub open spec fn block_count(len: nat) -> nat {
    if len > 16 {
        1 + ((len - 1) as nat / 16)
    } else {
        1
    }
}

/// `k` all-zero blocks.
pub open spec fn zero_blocks(k: nat) -> Seq<(u64, u64)> {
    Seq::new(k, |i: int| (0u64, 0u64))
}

proof fn lemma_zero_words(n: nat, start: int, count: int)
    requires
        0 <= start,
        0 <= count,
        start + count <= n,
    ensures
        spec_read_le(zeros(n), start, count) == 0,
{
    lemma_le_zeros(zeros(n).subrange(start, start + count));
}

proof fn lemma_front_blocks_of_zeros(n: nat)
    ensures
        spec_front_blocks(zeros(n)) == zero_blocks(if n > 16 { ((n - 1) as nat / 16) } else { 0 }),
    decreases n,
{
    if n > 16 {
        let rest = (n - 16) as nat;
        assert(zeros(n).skip(16) =~= zeros(rest));
        lemma_front_blocks_of_zeros(rest);
        lemma_zero_words(n, 0, 8);
        lemma_zero_words(n, 8, 8);
        let k: nat = if rest > 16 { ((rest - 1) as nat / 16) } else { 0 };
        assert(k + 1 == (n - 1) as nat / 16);
        assert(seq![(0u64, 0u64)] + zero_blocks(k) =~= zero_blocks(k + 1));
    } else {
        assert(spec_front_blocks(zeros(n)) =~= zero_blocks(0));
    }
}

/// All-zero inputs are fed as all-zero blocks, as many as their length calls for.
pub proof fn lemma_blocks_of_zeros(n: nat)
    ensures
        spec_blocks(zeros(n)) == zero_blocks(block_count(n)),
{
    let z = zeros(n);
    if n > 16 {
        lemma_front_blocks_of_zeros(n);
        lemma_zero_words(n, n - 16, 8);
        lemma_zero_words(n, n - 8, 8);
        assert(seq![(0u64, 0u64)] + zero_blocks(((n - 1) as nat / 16)) =~= zero_blocks(block_count(n)));
    } else if n > 8 {
        lemma_zero_words(n, 0, 8);
        lemma_zero_words(n, n - 8, 8);
        assert(spec_blocks(z) =~= zero_blocks(1));
    } else {
        if n >= 4 {
            lemma_zero_words(n, 0, 4);
            lemma_zero_words(n, n - 4, 4);
        } else if n >= 2 {
            lemma_zero_words(n, 0, 2);
        }
        assert(spec_blocks(z) =~= zero_blocks(1));
    }
}

/// All-zero inputs of distinct lengths that are fed in the same number of
/// blocks (in particular, any two lengths up to 16) leave the hasher in
/// different states: a zero input is identified by its length.
pub proof fn lemma_zero_inputs_separate(h: AHasher, n: nat, m: nat)
    requires
        n != m,
        n <= u64::MAX,
        m <= u64::MAX,
        block_count(n) == block_count(m),
    ensures
        spec_write(h, zeros(n)).buffer != spec_write(h, zeros(m)).buffer,
{
    lemma_blocks_of_zeros(n);
    lemma_blocks_of_zeros(m);
    lemma_length_separates_states(h, zeros(n), zeros(m));
}

proof fn lemma_word_value(s: Seq<u8>, start: int)
    requires
        0 <= start,
        start + 8 <= s.len(),
    ensures
        word_at(s, start) as nat == spec_le(s.subrange(start, start + 8)),
{
    reveal_with_fuel(pow256, 9);
    lemma_le_bound(s.subrange(start, start + 8));
}

/// The blocks taken from the front of a long input are its consecutive 16-byte
/// pieces, each as the little-endian values of its two halves, as long as more
/// than 16 bytes remain.
proof fn lemma_front_blocks_words(s: Seq<u8>)
    ensures
        spec_front_blocks(s).len() == (if s.len() > 16 { (s.len() - 1) as nat / 16 } else { 0 }),
        forall|i: int|
            0 <= i < spec_front_blocks(s).len() ==> {
                &&& (#[trigger] spec_front_blocks(s)[i]).0 as nat == spec_le(
                    s.subrange(16 * i, 16 * i + 8),
                )
                &&& spec_front_blocks(s)[i].1 as nat == spec_le(s.subrange(16 * i + 8, 16 * i + 16))
            },
    decreases s.len(),
{
    if s.len() > 16 {
        let rest = s.skip(16);
        lemma_front_blocks_words(rest);
        lemma_word_value(s, 0);
        lemma_word_value(s, 8);
        let f = spec_front_blocks(s);
        let g = spec_front_blocks(rest);
        assert(f == seq![(word_at(s, 0), word_at(s, 8))] + g);
        assert forall|i: int| 0 <= i < f.len() implies {
            &&& (#[trigger] f[i]).0 as nat == spec_le(s.subrange(16 * i, 16 * i + 8))
            &&& f[i].1 as nat == spec_le(s.subrange(16 * i + 8, 16 * i + 16))
        } by {
            if i > 0 {
                assert(f[i] == g[i - 1]);
                assert(rest.subrange(16 * (i - 1), 16 * (i - 1) + 8) =~= s.subrange(16 * i, 16 * i + 8));
                assert(rest.subrange(16 * (i - 1) + 8, 16 * (i - 1) + 16) =~= s.subrange(
                    16 * i + 8,
                    16 * i + 16,
                ));
            }
        }
    }
}

/// What writing `s` feeds the hasher, read straight off the bytes: an input
/// of at most 8 bytes gives the one block of its short read; one of 9 to 16
/// bytes gives one block of the values of its first eight and of its last
/// eight bytes; a longer one gives first the block of its last 16 bytes, then
/// one block per 16-byte piece from the front while more than 16 bytes remain.
pub proof fn lemma_blocks_read(s: Seq<u8>)
    ensures
        ({
            let b = spec_blocks(s);
            let len = s.len() as int;
            &&& len <= 8 ==> b.len() == 1 && b[0] == spec_read_small(s)
            &&& 8 < len <= 16 ==> b.len() == 1 && b[0].0 as nat == spec_le(s.subrange(0, 8))
                && b[0].1 as nat == spec_le(s.subrange(len - 8, len))
            &&& len > 16 ==> {
                &&& b.len() == 1 + (len - 1) / 16
                &&& b[0].0 as nat == spec_le(s.subrange(len - 16, len - 8))
                &&& b[0].1 as nat == spec_le(s.subrange(len - 8, len))
                &&& forall|i: int|
                    1 <= i < b.len() ==> (#[trigger] b[i]).0 as nat == spec_le(
                        s.subrange(16 * (i - 1), 16 * (i - 1) + 8),
                    ) && b[i].1 as nat == spec_le(s.subrange(16 * (i - 1) + 8, 16 * i))
            }
        }),
{
    let len = s.len() as int;
    if len > 16 {
        lemma_word_value(s, len - 16);
        lemma_word_value(s, len - 8);
        lemma_front_blocks_words(s);
        let b = spec_blocks(s);
        let f = spec_front_blocks(s);
        assert forall|i: int| 1 <= i < b.len() implies (#[trigger] b[i]).0 as nat == spec_le(
            s.subrange(16 * (i - 1), 16 * (i - 1) + 8),
        ) && b[i].1 as nat == spec_le(s.subrange(16 * (i - 1) + 8, 16 * i)) by {
            assert(b[i] == f[i - 1]);
        }
    } else if len > 8 {
        lemma_word_value(s, 0);
        lemma_word_value(s, len - 8);
    }
}

/// One block update, in terms of the raw block words: each word is combined
/// with its extra key by exclusive or, the two are multiplied as 128-bit
/// numbers and the halves of the product folded together by exclusive or;
/// that is combined with the buffer plus the pad (modulo 2^64), and the result
/// rotated left by 23 bits. The pad and the keys stay.
pub proof fn lemma_large_update_formula(h: AHasher, block: (u64, u64))
    ensures
        ({
            let x = block.0 ^ h.extra_keys[0];
            let y = block.1 ^ h.extra_keys[1];
            let product: int = x as int * y as int;
            let folded = ((product % 0x1_0000_0000_0000_0000) as u64) ^ ((product
                / 0x1_0000_0000_0000_0000) as u64);
            let mixed = (((h.buffer as int + h.pad as int) % 0x1_0000_0000_0000_0000) as u64) ^ folded;
            let u = spec_large_update(h, block);
            &&& u.buffer == (mixed << 23u32) | (mixed >> 41u32)
            &&& u.pad == h.pad
            &&& u.extra_keys == h.extra_keys
        }),
{
}

impl AHasher {
    fn large_update(&mut self, block: (u64, u64))
        ensures
            *final(self) == spec_large_update(*old(self), block),
    {
        let combined = folded_multiply(block.0 ^ self.extra_keys[0], block.1 ^ self.extra_keys[1]);
        self.buffer = rotate_left(self.buffer.wrapping_add(self.pad) ^ combined, ROT);
    }

    /// Mixes the input's length into the buffer, then feeds it block by block.
    pub fn write(&mut self, input: &[u8])
        ensures
            *final(self) == spec_write(*old(self), input@),
    {
        let len = input.len();
        let length = len as u64;
        self.buffer = self.buffer.wrapping_add(length).wrapping_mul(MULTIPLE);
        let ghost mixed = *self;
        assert(mixed == spec_mix_length(*old(self), input@.len() as u64));
        if len > 8 {
            if len > 16 {
                let tail = (read_le(input, len - 16, 8), read_le(input, len - 8, 8));
                self.large_update(tail);
                proof {
                    lemma_apply_first(mixed, tail, spec_front_blocks(input@));
                    assert(input@.skip(0) =~= input@);
                }
                let mut pos: usize = 0;
                while len - pos > 16
                    invariant
                        len == input@.len(),
                        pos <= len,
                        spec_apply_blocks(*self, spec_front_blocks(input@.skip(pos as int)))
                            == spec_write(*old(self), input@),
                    decreases len - pos,
                {
                    let ghost rest = input@.skip(pos as int);
                    let block = (read_le(input, pos, 8), read_le(input, pos + 8, 8));
                    proof {
                        assert(rest.subrange(0, 8) =~= input@.subrange(pos as int, pos + 8));
                        assert(rest.subrange(8, 16) =~= input@.subrange(pos + 8, pos + 16));
                        assert(rest.skip(16) =~= input@.skip(pos + 16));
                        lemma_apply_first(*self, block, spec_front_blocks(rest.skip(16)));
                    }
                    self.large_update(block);
                    pos = pos + 16;
                }
                assert(spec_front_blocks(input@.skip(pos as int)) =~= Seq::<(u64, u64)>::empty());
            } else {
                let block = (read_le(input, 0, 8), read_le(input, len - 8, 8));
                proof { lemma_apply_single(mixed, block); }
                self.large_update(block);
            }
        } else {
            let block = read_small(input);
            proof { lemma_apply_single(mixed, block); }
            self.large_update(block);
        }
    }

    /// The hash of everything written so far.
    pub fn finish(&self) -> (h: u64)
        ensures
            h == spec_finish(*self),
    {
        let buffer = self.buffer;
        assert(buffer & 63 < 64) by (bit_vector);
        let rot = (buffer & 63) as u32;
        rotate_left(folded_multiply(buffer, self.pad), rot)
    }
}

} // verus!
