//! All-zero inputs under the hasher built from the seeds (0, 0, 0, 0).
//!
//! Hashing `n` zero bytes mixes `n` into the buffer and then feeds as many
//! all-zero blocks as the length calls for, so each such hash is a short,
//! closed computation. The hashes of the inputs of up to 255 bytes are
//! evaluated by the bit-vector solver below; that they are pairwise distinct
//! follows by reading each hash back to its length.

use vstd::prelude::*;

use crate::etna::spec_hash_bytes;
use crate::fallback_hash::{
    block_count, lemma_blocks_of_zeros, spec_apply_blocks, spec_large_update, wrap_add, wrap_mul,
    zero_blocks, AHasher, MULTIPLE, ROT,
};
use crate::operations::{spec_folded_multiply, spec_rotate_left, zeros};
use crate::random_state::{PI2_0, PI2_1, PI2_2, PI2_3};

verus! {

/// The buffer of the seeded hasher after one all-zero block.
pub open spec fn zero_block_step(b: u64) -> u64 {
    spec_rotate_left(wrap_add(b, PI2_0) ^ spec_folded_multiply(PI2_2, PI2_3), ROT)
}

/// The buffer of the seeded hasher once the length `n` is mixed in.
pub open spec fn zero_input_start(n: u64) -> u64 {
    wrap_mul(wrap_add(PI2_1, n), MULTIPLE)
}

/// The hash that the seeded hasher finishes with from buffer `b`.
pub open spec fn zero_input_finish(b: u64) -> u64 {
    spec_rotate_left(spec_folded_multiply(b, PI2_0), (b & 63) as u32)
}

/// The buffer of the seeded hasher after `k` all-zero blocks.
pub open spec fn zero_block_steps(b: u64, k: nat) -> u64
    decreases k,
{
    if k == 0 {
        b
    } else {
        zero_block_steps(zero_block_step(b), (k - 1) as nat)
    }
}

/// The hash of the all-zero input of `n` bytes, step by step.
pub open spec fn zero_input_hash(n: nat) -> u64 {
    zero_input_finish(zero_block_steps(zero_input_start(n as u64), block_count(n)))
}

proof fn lemma_xor_zero(x: u64)
    by (bit_vector)
    ensures
        0u64 ^ x == x,
{
}

proof fn lemma_apply_zero_blocks(h: AHasher, k: nat)
    requires
        h.pad == PI2_0,
        h.extra_keys[0] == PI2_2,
        h.extra_keys[1] == PI2_3,
    ensures
        spec_apply_blocks(h, zero_blocks(k)).buffer == zero_block_steps(h.buffer, k),
        spec_apply_blocks(h, zero_blocks(k)).pad == h.pad,
    decreases k,
{
    if k > 0 {
        lemma_xor_zero(PI2_2);
        lemma_xor_zero(PI2_3);
        let next = spec_large_update(h, (0u64, 0u64));
        assert(next.buffer == zero_block_step(h.buffer));
        assert(zero_blocks(k).drop_first() =~= zero_blocks((k - 1) as nat));
        lemma_apply_zero_blocks(next, (k - 1) as nat);
    }
}

/// Hashing `n` zero bytes goes through the mixed length and one all-zero
/// block after another.
pub proof fn lemma_hash_of_zeros(n: nat)
    requires
        n <= u64::MAX,
    ensures
        spec_hash_bytes(zeros(n)) == zero_input_hash(n),
{
    lemma_xor_zero(PI2_0);
    lemma_xor_zero(PI2_1);
    lemma_xor_zero(PI2_2);
    lemma_xor_zero(PI2_3);
    lemma_blocks_of_zeros(n);
    let h0 = crate::random_state::spec_hasher_from(crate::random_state::spec_with_seeds(0, 0, 0, 0));
    let mixed = crate::fallback_hash::spec_mix_length(h0, n as u64);
    assert(mixed.buffer == zero_input_start(n as u64));
    lemma_apply_zero_blocks(mixed, block_count(n));
}

/// The hashes of the all-zero inputs of 0 to 16 bytes, which are fed in
/// 1 block.
proof fn lemma_zero_hashes_1_blocks() by (bit_vector)
    ensures
        zero_input_finish(zero_block_step(zero_input_start(0u64))) == 0x6354fdac89c66b55u64,
        zero_input_finish(zero_block_step(zero_input_start(1u64))) == 0xcbe5a7dfbeb08c33u64,
        zero_input_finish(zero_block_step(zero_input_start(2u64))) == 0x1a866bc858d5a67au64,
        zero_input_finish(zero_block_step(zero_input_start(3u64))) == 0xefd766392dd3d94fu64,
        zero_input_finish(zero_block_step(zero_input_start(4u64))) == 0xca8486fa696bed3bu64,
        zero_input_finish(zero_block_step(zero_input_start(5u64))) == 0xe7a6c1c3a9944cb9u64,
        zero_input_finish(zero_block_step(zero_input_start(6u64))) == 0xee01f74e824a35aau64,
        zero_input_finish(zero_block_step(zero_input_start(7u64))) == 0x80ae511190fce33au64,
        zero_input_finish(zero_block_step(zero_input_start(8u64))) == 0x5ee412cc9fdaccbau64,
        zero_input_finish(zero_block_step(zero_input_start(9u64))) == 0xd0a52ed65eac1347u64,
        zero_input_finish(zero_block_step(zero_input_start(10u64))) == 0x432e9dcc6eb4de46u64,
        zero_input_finish(zero_block_step(zero_input_start(11u64))) == 0xb7ba45751bde20fbu64,
        zero_input_finish(zero_block_step(zero_input_start(12u64))) == 0x32f143859f30249eu64,
        zero_input_finish(zero_block_step(zero_input_start(13u64))) == 0x20eae1912886ff83u64,
        zero_input_finish(zero_block_step(zero_input_start(14u64))) == 0x0bb95c1e316785bdu64,
        zero_input_finish(zero_block_step(zero_input_start(15u64))) == 0x8d3cabaf3f63613bu64,
        zero_input_finish(zero_block_step(zero_input_start(16u64))) == 0x14f9c9fde394e6c5u64,
{
}

/// The hashes of the all-zero inputs of 17 to 32 bytes, which are fed in
/// 2 blocks.
proof fn lemma_zero_hashes_2_blocks() by (bit_vector)
    ensures
        zero_input_finish(zero_block_step(zero_block_step(zero_input_start(17u64)))) == 0x1efcb9067326f0c9u64,
        zero_input_finish(zero_block_step(zero_block_step(zero_input_start(18u64)))) == 0xe6337e80d8335581u64,
        zero_input_finish(zero_block_step(zero_block_step(zero_input_start(19u64)))) == 0x2330cf770c1ee465u64,
        zero_input_finish(zero_block_step(zero_block_step(zero_input_start(20u64)))) == 0x217c6ef8af587563u64,
        zero_input_finish(zero_block_step(zero_block_step(zero_input_start(21u64)))) == 0x6b34ca996434dae8u64,
        zero_input_finish(zero_block_step(zero_block_step(zero_input_start(22u64)))) == 0xcedb377df0017e06u64,
        zero_input_finish(zero_block_step(zero_block_step(zero_input_start(23u64)))) == 0x7927917823406d92u64,
        zero_input_finish(zero_block_step(zero_block_step(zero_input_start(24u64)))) == 0xaa99a06fa674cc29u64,
        zero_input_finish(zero_block_step(zero_block_step(zero_input_start(25u64)))) == 0x64f956cfd6db582fu64,
        zero_input_finish(zero_block_step(zero_block_step(zero_input_start(26u64)))) == 0x8254b15ef319eb50u64,
        zero_input_finish(zero_block_step(zero_block_step(zero_input_start(27u64)))) == 0xea765f2e8f1a1a0bu64,
        zero_input_finish(zero_block_step(zero_block_step(zero_input_start(28u64)))) == 0xd496e0cbd62f84e5u64,
        zero_input_finish(zero_block_step(zero_block_step(zero_input_start(29u64)))) == 0x95a09afd1de2f10fu64,
        zero_input_finish(zero_block_step(zero_block_step(zero_input_start(30u64)))) == 0x1d1ee6a114524486u64,
        zero_input_finish(zero_block_step(zero_block_step(zero_input_start(31u64)))) == 0xd297e4cb76662083u64,
        zero_input_finish(zero_block_step(zero_block_step(zero_input_start(32u64)))) == 0x9814cd136b6503ebu64,
{
}

/// The hashes of the all-zero inputs of 33 to 48 bytes, which are fed in
/// 3 blocks.
proof fn lemma_zero_hashes_3_blocks() by (bit_vector)
    ensures
        zero_input_finish(zero_block_step(zero_block_step(zero_block_step(zero_input_start(33u64))))) == 0xc98bcbd20a5c6a16u64,
        zero_input_finish(zero_block_step(zero_block_step(zero_block_step(zero_input_start(34u64))))) == 0xfdbdf38f5ec7649cu64,
        zero_input_finish(zero_block_step(zero_block_step(zero_block_step(zero_input_start(35u64))))) == 0x166140e284bcd31fu64,
        zero_input_finish(zero_block_step(zero_block_step(zero_block_step(zero_input_start(36u64))))) == 0xc263cd6aeae682afu64,
        zero_input_finish(zero_block_step(zero_block_step(zero_block_step(zero_input_start(37u64))))) == 0x22b270964987060eu64,
        zero_input_finish(zero_block_step(zero_block_step(zero_block_step(zero_input_start(38u64))))) == 0xc7f5f20243d5d519u64,
        zero_input_finish(zero_block_step(zero_block_step(zero_block_step(zero_input_start(39u64))))) == 0x672232b6b1123facu64,
        zero_input_finish(zero_block_step(zero_block_step(zero_block_step(zero_input_start(40u64))))) == 0x7115579114c10e1cu64,
        zero_input_finish(zero_block_step(zero_block_step(zero_block_step(zero_input_start(41u64))))) == 0xba856eecc22775ecu64,
        zero_input_finish(zero_block_step(zero_block_step(zero_block_step(zero_input_start(42u64))))) == 0x10ea71924319d024u64,
        zero_input_finish(zero_block_step(zero_block_step(zero_block_step(zero_input_start(43u64))))) == 0xd3517edf5e2da28eu64,
        zero_input_finish(zero_block_step(zero_block_step(zero_block_step(zero_input_start(44u64))))) == 0xf1b4f3ec2828174fu64,
        zero_input_finish(zero_block_step(zero_block_step(zero_block_step(zero_input_start(45u64))))) == 0xb9ef6c1e2ecc75c6u64,
        zero_input_finish(zero_block_step(zero_block_step(zero_block_step(zero_input_start(46u64))))) == 0x96f952f7a6d647a7u64,
        zero_input_finish(zero_block_step(zero_block_step(zero_block_step(zero_input_start(47u64))))) == 0xf19b45e0d3117e4fu64,
        zero_input_finish(zero_block_step(zero_block_step(zero_block_step(zero_input_start(48u64))))) == 0x735f9fd603ddcc0au64,
{
}

/// The hashes of the all-zero inputs of 49 to 64 bytes, which are fed in
/// 4 blocks.
proof fn lemma_zero_hashes_4_blocks() by (bit_vector)
    ensures
        zero_input_finish(zero_block_step(zero_block_step(zero_block_step(zero_block_step(zero_input_start(49u64)))))) == 0xa9537b069168bd1au64,
        zero_input_finish(zero_block_step(zero_block_step(zero_block_step(zero_block_step(zero_input_start(50u64)))))) == 0xfb19f2f5a071afaau64,
        zero_input_finish(zero_block_step(zero_block_step(zero_block_step(zero_block_step(zero_input_start(51u64)))))) == 0x5dd843af3f012844u64,
        zero_input_finish(zero_block_step(zero_block_step(zero_block_step(zero_block_step(zero_input_start(52u64)))))) == 0x91f12ad2fef418b7u64,
        zero_input_finish(zero_block_step(zero_block_step(zero_block_step(zero_block_step(zero_input_start(53u64)))))) == 0xe6969f9d49fb8b7du64,
        zero_input_finish(zero_block_step(zero_block_step(zero_block_step(zero_block_step(zero_input_start(54u64)))))) == 0x8a3105337049732au64,
        zero_input_finish(zero_block_step(zero_block_step(zero_block_step(zero_block_step(zero_input_start(55u64)))))) == 0x045037c335057790u64,
        zero_input_finish(zero_block_step(zero_block_step(zero_block_step(zero_block_step(zero_input_start(56u64)))))) == 0x6a2f7273266ba3f6u64,
        zero_input_finish(zero_block_step(zero_block_step(zero_block_step(zero_block_step(zero_input_start(57u64)))))) == 0x1d34361c919b53e7u64,
        zero_input_finish(zero_block_step(zero_block_step(zero_block_step(zero_block_step(zero_input_start(58u64)))))) == 0x9014d66561530cb7u64,
        zero_input_finish(zero_block_step(zero_block_step(zero_block_step(zero_block_step(zero_input_start(59u64)))))) == 0xea8a070824f9a4e4u64,
        zero_input_finish(zero_block_step(zero_block_step(zero_block_step(zero_block_step(zero_input_start(60u64)))))) == 0xffba79eb9ecb519du64,
        zero_input_finish(zero_block_step(zero_block_step(zero_block_step(zero_block_step(zero_input_start(61u64)))))) == 0x8c942d34171388b2u64,
        zero_input_finish(zero_block_step(zero_block_step(zero_block_step(zero_block_step(zero_input_start(62u64)))))) == 0xb44c7d7327772426u64,
        zero_input_finish(zero_block_step(zero_block_step(zero_block_step(zero_block_step(zero_input_start(63u64)))))) == 0xcddf69c18c4aca8du64,
        zero_input_finish(zero_block_step(zero_block_step(zero_block_step(zero_block_step(zero_input_start(64u64)))))) == 0x2fa469a482bc4667u64,
{
}

/// The hashes of the all-zero inputs of 65 to 80 bytes, which are fed in
/// 5 blocks.
proof fn lemma_zero_hashes_5_blocks() by (bit_vector)
    ensures
        zero_input_finish(zero_block_step(zero_block_step(zero_block_step(zero_block_step(zero_block_step(zero_input_start(65u64))))))) == 0xd054eb2c77bb4f15u64,
        zero_input_finish(zero_block_step(zero_block_step(zero_block_step(zero_block_step(zero_block_step(zero_input_start(66u64))))))) == 0xcebad7acd4a4dabdu64,
        zero_input_finish(zero_block_step(zero_block_step(zero_block_step(zero_block_step(zero_block_step(zero_input_start(67u64))))))) == 0x6e4ba49d833b4f40u64,
        zero_input_finish(zero_block_step(zero_block_step(zero_block_step(zero_block_step(zero_block_step(zero_input_start(68u64))))))) == 0xbb167871aea279a6u64,
        zero_input_finish(zero_block_step(zero_block_step(zero_block_step(zero_block_step(zero_block_step(zero_input_start(69u64))))))) == 0xd1e80cac4226a195u64,
        zero_input_finish(zero_block_step(zero_block_step(zero_block_step(zero_block_step(zero_block_step(zero_input_start(70u64))))))) == 0x8bd3923bcb94e7ddu64,
        zero_input_finish(zero_block_step(zero_block_step(zero_block_step(zero_block_step(zero_block_step(zero_input_start(71u64))))))) == 0xef4cd0918680822du64,
        zero_input_finish(zero_block_step(zero_block_step(zero_block_step(zero_block_step(zero_block_step(zero_input_start(72u64))))))) == 0xf54229799d8f9494u64,
        zero_input_finish(zero_block_step(zero_block_step(zero_block_step(zero_block_step(zero_block_step(zero_input_start(73u64))))))) == 0x2cc6a67199b5c9acu64,
        zero_input_finish(zero_block_step(zero_block_step(zero_block_step(zero_block_step(zero_block_step(zero_input_start(74u64))))))) == 0xcb881802e76070dbu64,
        zero_input_finish(zero_block_step(zero_block_step(zero_block_step(zero_block_step(zero_block_step(zero_input_start(75u64))))))) == 0x6c13c5627744b65fu64,
        zero_input_finish(zero_block_step(zero_block_step(zero_block_step(zero_block_step(zero_block_step(zero_input_start(76u64))))))) == 0x090326a2b13cf34fu64,
        zero_input_finish(zero_block_step(zero_block_step(zero_block_step(zero_block_step(zero_block_step(zero_input_start(77u64))))))) == 0x8df55b2714d89e53u64,
        zero_input_finish(zero_block_step(zero_block_step(zero_block_step(zero_block_step(zero_block_step(zero_input_start(78u64))))))) == 0xbc6224772ff5a780u64,
        zero_input_finish(zero_block_step(zero_block_step(zero_block_step(zero_block_step(zero_block_step(zero_input_start(79u64))))))) == 0x90127d568e671791u64,
        zero_input_finish(zero_block_step(zero_block_step(zero_block_step(zero_block_step(zero_block_step(zero_input_start(80u64))))))) == 0x0fc6b58af00dbb6eu64,
{
}

/// The hashes of the all-zero inputs of 81 to 96 bytes, which are fed in
/// 6 blocks.
proof fn lemma_zero_hashes_6_blocks() by (bit_vector)
    ensures
        zero_input_finish(zero_block_step(zero_block_step(zero_block_step(zero_block_step(zero_block_step(zero_block_step(zero_input_start(81u64)))))))) == 0xc8926fa4f4d65f75u64,
        zero_input_finish(zero_block_step(zero_block_step(zero_block_step(zero_block_step(zero_block_step(zero_block_step(zero_input_start(82u64)))))))) == 0x36e98b0212c4c5a4u64,
        zero_input_finish(zero_block_step(zero_block_step(zero_block_step(zero_block_step(zero_block_step(zero_block_step(zero_input_start(83u64)))))))) == 0x6430e5825def149cu64,
        zero_input_finish(zero_block_step(zero_block_step(zero_block_step(zero_block_step(zero_block_step(zero_block_step(zero_input_start(84u64)))))))) == 0x0ead383fb925c6a7u64,
        zero_input_finish(zero_block_step(zero_block_step(zero_block_step(zero_block_step(zero_block_step(zero_block_step(zero_input_start(85u64)))))))) == 0x422b34017ee080b3u64,
        zero_input_finish(zero_block_step(zero_block_step(zero_block_step(zero_block_step(zero_block_step(zero_block_step(zero_input_start(86u64)))))))) == 0x0e9000883fc7a3f2u64,
        zero_input_finish(zero_block_step(zero_block_step(zero_block_step(zero_block_step(zero_block_step(zero_block_step(zero_input_start(87u64)))))))) == 0x4f196832b942abbdu64,
        zero_input_finish(zero_block_step(zero_block_step(zero_block_step(zero_block_step(zero_block_step(zero_block_step(zero_input_start(88u64)))))))) == 0xe7e5f7664c813350u64,
        zero_input_finish(zero_block_step(zero_block_step(zero_block_step(zero_block_step(zero_block_step(zero_block_step(zero_input_start(89u64)))))))) == 0x067e11d64b78f306u64,
        zero_input_finish(zero_block_step(zero_block_step(zero_block_step(zero_block_step(zero_block_step(zero_block_step(zero_input_start(90u64)))))))) == 0x8fbf49b7858128c1u64,
        zero_input_finish(zero_block_step(zero_block_step(zero_block_step(zero_block_step(zero_block_step(zero_block_step(zero_input_start(91u64)))))))) == 0x9254e97e8e32265fu64,
        zero_input_finish(zero_block_step(zero_block_step(zero_block_step(zero_block_step(zero_block_step(zero_block_step(zero_input_start(92u64)))))))) == 0xffc34ddc97291922u64,
        zero_input_finish(zero_block_step(zero_block_step(zero_block_step(zero_block_step(zero_block_step(zero_block_step(zero_input_start(93u64)))))))) == 0x251e67b0de0cfdf4u64,
        zero_input_finish(zero_block_step(zero_block_step(zero_block_step(zero_block_step(zero_block_step(zero_block_step(zero_input_start(94u64)))))))) == 0xe59ccb78a41da639u64,
        zero_input_finish(zero_block_step(zero_block_step(zero_block_step(zero_block_step(zero_block_step(zero_block_step(zero_input_start(95u64)))))))) == 0x6d9f7a78cfd18720u64,
        zero_input_finish(zero_block_step(zero_block_step(zero_block_step(zero_block_step(zero_block_step(zero_block_step(zero_input_start(96u64)))))))) == 0xe3029c4b7b2b2c58u64,
{
}

/// The hashes of the all-zero inputs of 97 to 112 bytes, which are fed in
/// 7 blocks.
proof fn lemma_zero_hashes_7_blocks() by (bit_vector)
    ensures
        zero_input_finish(zero_block_step(zero_block_step(zero_block_step(zero_block_step(zero_block_step(zero_block_step(zero_block_step(zero_input_start(97u64))))))))) == 0x429dfb25d39441cfu64,
        zero_input_finish(zero_block_step(zero_block_step(zero_block_step(zero_block_step(zero_block_step(zero_block_step(zero_block_step(zero_input_start(98u64))))))))) == 0xdac5ed26ea0cc5e7u64,
        zero_input_finish(zero_block_step(zero_block_step(zero_block_step(zero_block_step(zero_block_step(zero_block_step(zero_block_step(zero_input_start(99u64))))))))) == 0xde10fcdd7e3bd7b6u64,
        zero_input_finish(zero_block_step(zero_block_step(zero_block_step(zero_block_step(zero_block_step(zero_block_step(zero_block_step(zero_input_start(100u64))))))))) == 0xa3697d2ceea8e941u64,
        zero_input_finish(zero_block_step(zero_block_step(zero_block_step(zero_block_step(zero_block_step(zero_block_step(zero_block_step(zero_input_start(101u64))))))))) == 0xc7cfa2473f98ba3cu64,
        zero_input_finish(zero_block_step(zero_block_step(zero_block_step(zero_block_step(zero_block_step(zero_block_step(zero_block_step(zero_input_start(102u64))))))))) == 0x53ca819c8df09ce7u64,
        zero_input_finish(zero_block_step(zero_block_step(zero_block_step(zero_block_step(zero_block_step(zero_block_step(zero_block_step(zero_input_start(103u64))))))))) == 0x71227dc41aeecb9du64,
        zero_input_finish(zero_block_step(zero_block_step(zero_block_step(zero_block_step(zero_block_step(zero_block_step(zero_block_step(zero_input_start(104u64))))))))) == 0x453217240acedf55u64,
        zero_input_finish(zero_block_step(zero_block_step(zero_block_step(zero_block_step(zero_block_step(zero_block_step(zero_block_step(zero_input_start(105u64))))))))) == 0xabc65951a909cb58u64,
        zero_input_finish(zero_block_step(zero_block_step(zero_block_step(zero_block_step(zero_block_step(zero_block_step(zero_block_step(zero_input_start(106u64))))))))) == 0x3d6456dd35036e21u64,
        zero_input_finish(zero_block_step(zero_block_step(zero_block_step(zero_block_step(zero_block_step(zero_block_step(zero_block_step(zero_input_start(107u64))))))))) == 0x165b2d24d8d65ff6u64,
        zero_input_finish(zero_block_step(zero_block_step(zero_block_step(zero_block_step(zero_block_step(zero_block_step(zero_block_step(zero_input_start(108u64))))))))) == 0x9d8c0de6e1d2bb1du64,
        zero_input_finish(zero_block_step(zero_block_step(zero_block_step(zero_block_step(zero_block_step(zero_block_step(zero_block_step(zero_input_start(109u64))))))))) == 0xb575011f7b431d25u64,
        zero_input_finish(zero_block_step(zero_block_step(zero_block_step(zero_block_step(zero_block_step(zero_block_step(zero_block_step(zero_input_start(110u64))))))))) == 0x0dda37df277916a1u64,
        zero_input_finish(zero_block_step(zero_block_step(zero_block_step(zero_block_step(zero_block_step(zero_block_step(zero_block_step(zero_input_start(111u64))))))))) == 0xa0d6e9d0af047015u64,
        zero_input_finish(zero_block_step(zero_block_step(zero_block_step(zero_block_step(zero_block_step(zero_block_step(zero_block_step(zero_input_start(112u64))))))))) == 0x99bd8a5cd8f6a7b5u64,
{
}

/// The hashes of the all-zero inputs of 113 to 128 bytes, which are fed in
/// 8 blocks.
proof fn lemma_zero_hashes_8_blocks() by (bit_vector)
    ensures
        zero_input_finish(zero_block_step(zero_block_step(zero_block_step(zero_block_step(zero_block_step(zero_block_step(zero_block_step(zero_block_step(zero_input_start(113u64)))))))))) == 0xd201b939c55992d5u64,
        zero_input_finish(zero_block_step(zero_block_step(zero_block_step(zero_block_step(zero_block_step(zero_block_step(zero_block_step(zero_block_step(zero_input_start(114u64)))))))))) == 0xf6c8841398586b9du64,
        zero_input_finish(zero_block_step(zero_block_step(zero_block_step(zero_block_step(zero_block_step(zero_block_step(zero_block_step(zero_block_step(zero_input_start(115u64)))))))))) == 0xb391c61a5a0b8bbau64,
        zero_input_finish(zero_block_step(zero_block_step(zero_block_step(zero_block_step(zero_block_step(zero_block_step(zero_block_step(zero_block_step(zero_input_start(116u64)))))))))) == 0x78c0915a0347ac12u64,
        zero_input_finish(zero_block_step(zero_block_step(zero_block_step(zero_block_step(zero_block_step(zero_block_step(zero_block_step(zero_block_step(zero_input_start(117u64)))))))))) == 0x179311205b8cdc54u64,
        zero_input_finish(zero_block_step(zero_block_step(zero_block_step(zero_block_step(zero_block_step(zero_block_step(zero_block_step(zero_block_step(zero_input_start(118u64)))))))))) == 0x972ff49a66f52f6cu64,
        zero_input_finish(zero_block_step(zero_block_step(zero_block_step(zero_block_step(zero_block_step(zero_block_step(zero_block_step(zero_block_step(zero_input_start(119u64)))))))))) == 0xbf8a2e086a28c5aau64,
        zero_input_finish(zero_block_step(zero_block_step(zero_block_step(zero_block_step(zero_block_step(zero_block_step(zero_block_step(zero_block_step(zero_input_start(120u64)))))))))) == 0x5e50b1c96df80abcu64,
        zero_input_finish(zero_block_step(zero_block_step(zero_block_step(zero_block_step(zero_block_step(zero_block_step(zero_block_step(zero_block_step(zero_input_start(121u64)))))))))) == 0x62da76b6d787a32bu64,
        zero_input_finish(zero_block_step(zero_block_step(zero_block_step(zero_block_step(zero_block_step(zero_block_step(zero_block_step(zero_block_step(zero_input_start(122u64)))))))))) == 0x27a9dbcece733f76u64,
        zero_input_finish(zero_block_step(zero_block_step(zero_block_step(zero_block_step(zero_block_step(zero_block_step(zero_block_step(zero_block_step(zero_input_start(123u64)))))))))) == 0xf22b082a0651434fu64,
        zero_input_finish(zero_block_step(zero_block_step(zero_block_step(zero_block_step(zero_block_step(zero_block_step(zero_block_step(zero_block_step(zero_input_start(124u64)))))))))) == 0x71f8a3c398525805u64,
        zero_input_finish(zero_block_step(zero_block_step(zero_block_step(zero_block_step(zero_block_step(zero_block_step(zero_block_step(zero_block_step(zero_input_start(125u64)))))))))) == 0x105611fcc9103f1eu64,
        zero_input_finish(zero_block_step(zero_block_step(zero_block_step(zero_block_step(zero_block_step(zero_block_step(zero_block_step(zero_block_step(zero_input_start(126u64)))))))))) == 0x2b1d78bb8af045e6u64,
        zero_input_finish(zero_block_step(zero_block_step(zero_block_step(zero_block_step(zero_block_step(zero_block_step(zero_block_step(zero_block_step(zero_input_start(127u64)))))))))) == 0x773b0f22703cf749u64,
        zero_input_finish(zero_block_step(zero_block_step(zero_block_step(zero_block_step(zero_block_step(zero_block_step(zero_block_step(zero_block_step(zero_input_start(128u64)))))))))) == 0x68cc5e086b6cf75au64,
{
}

/// The hashes of the all-zero inputs of 129 to 144 bytes, which are fed in
/// 9 blocks.
proof fn lemma_zero_hashes_9_blocks() by (bit_vector)
    ensures
        zero_block_step(zero_block_step(zero_block_step(zero_block_step(zero_block_step(zero_block_step(zero_block_step(zero_block_step(zero_input_start(129u64))))))))) == 0x7250d36cb8438619u64,
        zero_input_finish(zero_block_step(0x7250d36cb8438619u64)) == 0xd1cccd62b0807978u64,
        zero_block_step(zero_block_step(zero_block_step(zero_block_step(zero_block_step(zero_block_step(zero_block_step(zero_block_step(zero_input_start(130u64))))))))) == 0x11f73ffce44e7ccdu64,
        zero_input_finish(zero_block_step(0x11f73ffce44e7ccdu64)) == 0x99bf400bb99f7b7fu64,
        zero_block_step(zero_block_step(zero_block_step(zero_block_step(zero_block_step(zero_block_step(zero_block_step(zero_block_step(zero_input_start(131u64))))))))) == 0x5019759f3ca8a072u64,
        zero_input_finish(zero_block_step(0x5019759f3ca8a072u64)) == 0x5682cdaf6c6f6af0u64,
        zero_block_step(zero_block_step(zero_block_step(zero_block_step(zero_block_step(zero_block_step(zero_block_step(zero_block_step(zero_input_start(132u64))))))))) == 0xed6c33cbc524e5f2u64,
        zero_input_finish(zero_block_step(0xed6c33cbc524e5f2u64)) == 0x8a6ac57842b289f2u64,
        zero_block_step(zero_block_step(zero_block_step(zero_block_step(zero_block_step(zero_block_step(zero_block_step(zero_block_step(zero_input_start(133u64))))))))) == 0x38895e56a322854bu64,
        zero_input_finish(zero_block_step(0x38895e56a322854bu64)) == 0xd6d26cdcf1d092ebu64,
        zero_block_step(zero_block_step(zero_block_step(zero_block_step(zero_block_step(zero_block_step(zero_block_step(zero_block_step(zero_input_start(134u64))))))))) == 0xd2414d2631cb4af2u64,
        zero_input_finish(zero_block_step(0xd2414d2631cb4af2u64)) == 0x5d3b398606c5250cu64,
        zero_block_step(zero_block_step(zero_block_step(zero_block_step(zero_block_step(zero_block_step(zero_block_step(zero_block_step(zero_input_start(135u64))))))))) == 0x42384259dfcbd240u64,
        zero_input_finish(zero_block_step(0x42384259dfcbd240u64)) == 0x5190546bb0df7d07u64,
        zero_block_step(zero_block_step(zero_block_step(zero_block_step(zero_block_step(zero_block_step(zero_block_step(zero_block_step(zero_input_start(136u64))))))))) == 0xb78a7a85cd8b8714u64,
        zero_input_finish(zero_block_step(0xb78a7a85cd8b8714u64)) == 0x95abee0473c0ef12u64,
        zero_block_step(zero_block_step(zero_block_step(zero_block_step(zero_block_step(zero_block_step(zero_block_step(zero_block_step(zero_input_start(137u64))))))))) == 0xce7307f8feb78b41u64,
        zero_input_finish(zero_block_step(0xce7307f8feb78b41u64)) == 0x6cde6211c01e360cu64,
        zero_block_step(zero_block_step(zero_block_step(zero_block_step(zero_block_step(zero_block_step(zero_block_step(zero_block_step(zero_input_start(138u64))))))))) == 0x9862b55448aa4014u64,
        zero_input_finish(zero_block_step(0x9862b55448aa4014u64)) == 0x68a6f38985967229u64,
        zero_block_step(zero_block_step(zero_block_step(zero_block_step(zero_block_step(zero_block_step(zero_block_step(zero_block_step(zero_input_start(139u64))))))))) == 0x26e36310734cc79au64,
        zero_input_finish(zero_block_step(0x26e36310734cc79au64)) == 0x08bb70e4f78042e6u64,
        zero_block_step(zero_block_step(zero_block_step(zero_block_step(zero_block_step(zero_block_step(zero_block_step(zero_block_step(zero_input_start(140u64))))))))) == 0xb0a4a4e6f518c919u64,
        zero_input_finish(zero_block_step(0xb0a4a4e6f518c919u64)) == 0x8dfc23bf1a0b2894u64,
        zero_block_step(zero_block_step(zero_block_step(zero_block_step(zero_block_step(zero_block_step(zero_block_step(zero_block_step(zero_input_start(141u64))))))))) == 0xf4d4c728ef1cb898u64,
        zero_input_finish(zero_block_step(0xf4d4c728ef1cb898u64)) == 0x2f94a243eedb1722u64,
        zero_block_step(zero_block_step(zero_block_step(zero_block_step(zero_block_step(zero_block_step(zero_block_step(zero_block_step(zero_input_start(142u64))))))))) == 0xad9c3d29c4537efbu64,
        zero_input_finish(zero_block_step(0xad9c3d29c4537efbu64)) == 0xb837266fee793ee6u64,
        zero_block_step(zero_block_step(zero_block_step(zero_block_step(zero_block_step(zero_block_step(zero_block_step(zero_block_step(zero_input_start(143u64))))))))) == 0xf91cab156a490995u64,
        zero_input_finish(zero_block_step(0xf91cab156a490995u64)) == 0x536517268e128dceu64,
        zero_block_step(zero_block_step(zero_block_step(zero_block_step(zero_block_step(zero_block_step(zero_block_step(zero_block_step(zero_input_start(144u64))))))))) == 0x87cb41c118c5fbbbu64,
        zero_input_finish(zero_block_step(0x87cb41c118c5fbbbu64)) == 0x4185ff43aeed88abu64,
{
}

/// The hashes of the all-zero inputs of 145 to 160 bytes, which are fed in
/// 10 blocks.
proof fn lemma_zero_hashes_10_blocks() by (bit_vector)
    ensures
        zero_block_step(zero_block_step(zero_block_step(zero_block_step(zero_block_step(zero_block_step(zero_block_step(zero_block_step(zero_input_start(145u64))))))))) == 0xbce0e89996b3b33cu64,
        zero_input_finish(zero_block_step(zero_block_step(0xbce0e89996b3b33cu64))) == 0xa73c218c50e3ba3fu64,
        zero_block_step(zero_block_step(zero_block_step(zero_block_step(zero_block_step(zero_block_step(zero_block_step(zero_block_step(zero_input_start(146u64))))))))) == 0x53bd9ff59221b4b7u64,
        zero_input_finish(zero_block_step(zero_block_step(0x53bd9ff59221b4b7u64))) == 0x9f62f84d9d63f9f7u64,
        zero_block_step(zero_block_step(zero_block_step(zero_block_step(zero_block_step(zero_block_step(zero_block_step(zero_block_step(zero_input_start(147u64))))))))) == 0x2e269231bda00c3bu64,
        zero_input_finish(zero_block_step(zero_block_step(0x2e269231bda00c3bu64))) == 0x5ffebf01fce54e0bu64,
        zero_block_step(zero_block_step(zero_block_step(zero_block_step(zero_block_step(zero_block_step(zero_block_step(zero_block_step(zero_input_start(148u64))))))))) == 0x33f6c93a13c4fde8u64,
        zero_input_finish(zero_block_step(zero_block_step(0x33f6c93a13c4fde8u64))) == 0x5cd09009415b773bu64,
        zero_block_step(zero_block_step(zero_block_step(zero_block_step(zero_block_step(zero_block_step(zero_block_step(zero_block_step(zero_input_start(149u64))))))))) == 0xea1530967a409d40u64,
        zero_input_finish(zero_block_step(zero_block_step(0xea1530967a409d40u64))) == 0xd53bb648a436110au64,
        zero_block_step(zero_block_step(zero_block_step(zero_block_step(zero_block_step(zero_block_step(zero_block_step(zero_block_step(zero_input_start(150u64))))))))) == 0x152fed9da87b4371u64,
        zero_input_finish(zero_block_step(zero_block_step(0x152fed9da87b4371u64))) == 0x0092a6a93d7bab5cu64,
        zero_block_step(zero_block_step(zero_block_step(zero_block_step(zero_block_step(zero_block_step(zero_block_step(zero_block_step(zero_input_start(151u64))))))))) == 0xc5b7226d5bad3e3du64,
        zero_input_finish(zero_block_step(zero_block_step(0xc5b7226d5bad3e3du64))) == 0x6e2ccf9d07318776u64,
        zero_block_step(zero_block_step(zero_block_step(zero_block_step(zero_block_step(zero_block_step(zero_block_step(zero_block_step(zero_input_start(152u64))))))))) == 0x7d0a5aaaef2ddfe6u64,
        zero_input_finish(zero_block_step(zero_block_step(0x7d0a5aaaef2ddfe6u64))) == 0x68edcdc0d962bec5u64,
        zero_block_step(zero_block_step(zero_block_step(zero_block_step(zero_block_step(zero_block_step(zero_block_step(zero_block_step(zero_input_start(153u64))))))))) == 0xbc20d8c6cdbd8762u64,
        zero_input_finish(zero_block_step(zero_block_step(0xbc20d8c6cdbd8762u64))) == 0xa6041e8ab17004e4u64,
        zero_block_step(zero_block_step(zero_block_step(zero_block_step(zero_block_step(zero_block_step(zero_block_step(zero_block_step(zero_input_start(154u64))))))))) == 0x49b0d0afff0838e3u64,
        zero_input_finish(zero_block_step(zero_block_step(0x49b0d0afff0838e3u64))) == 0x461ebbb854adfbdcu64,
        zero_block_step(zero_block_step(zero_block_step(zero_block_step(zero_block_step(zero_block_step(zero_block_step(zero_block_step(zero_input_start(155u64))))))))) == 0x75d7394349fa1065u64,
        zero_input_finish(zero_block_step(zero_block_step(0x75d7394349fa1065u64))) == 0xf2286e7a285d1a7eu64,
        zero_block_step(zero_block_step(zero_block_step(zero_block_step(zero_block_step(zero_block_step(zero_block_step(zero_block_step(zero_input_start(156u64))))))))) == 0x9bf9702f0526c1e5u64,
        zero_input_finish(zero_block_step(zero_block_step(0x9bf9702f0526c1e5u64))) == 0x14f26c3d09f2f582u64,
        zero_block_step(zero_block_step(zero_block_step(zero_block_step(zero_block_step(zero_block_step(zero_block_step(zero_block_step(zero_input_start(157u64))))))))) == 0xc84c2ab7e8b4bd68u64,
        zero_input_finish(zero_block_step(zero_block_step(0xc84c2ab7e8b4bd68u64))) == 0x22fc55ea9631e86cu64,
        zero_block_step(zero_block_step(zero_block_step(zero_block_step(zero_block_step(zero_block_step(zero_block_step(zero_block_step(zero_input_start(158u64))))))))) == 0x2f695b42713d56e6u64,
        zero_input_finish(zero_block_step(zero_block_step(0x2f695b42713d56e6u64))) == 0x7dba832233db46b3u64,
        zero_block_step(zero_block_step(zero_block_step(zero_block_step(zero_block_step(zero_block_step(zero_block_step(zero_block_step(zero_input_start(159u64))))))))) == 0x7f3a818c10f5026au64,
        zero_input_finish(zero_block_step(zero_block_step(0x7f3a818c10f5026au64))) == 0xdde49d9ece0dafa2u64,
        zero_block_step(zero_block_step(zero_block_step(zero_block_step(zero_block_step(zero_block_step(zero_block_step(zero_block_step(zero_input_start(160u64))))))))) == 0x84a218480f05f3ebu64,
        zero_input_finish(zero_block_step(zero_block_step(0x84a218480f05f3ebu64))) == 0xa40b619730401692u64,
{
}

/// The hashes of the all-zero inputs of 161 to 176 bytes, which are fed in
/// 11 blocks.
proof fn lemma_zero_hashes_11_blocks() by (bit_vector)
    ensures
        zero_block_step(zero_block_step(zero_block_step(zero_block_step(zero_block_step(zero_block_step(zero_block_step(zero_block_step(zero_input_start(161u64))))))))) == 0x926a112419118b69u64,
        zero_input_finish(zero_block_step(zero_block_step(zero_block_step(0x926a112419118b69u64)))) == 0x332db771411437cau64,
        zero_block_step(zero_block_step(zero_block_step(zero_block_step(zero_block_step(zero_block_step(zero_block_step(zero_block_step(zero_input_start(162u64))))))))) == 0x31d36c2a962c4ce3u64,
        zero_input_finish(zero_block_step(zero_block_step(zero_block_step(0x31d36c2a962c4ce3u64)))) == 0x685f1a7888367f47u64,
        zero_block_step(zero_block_step(zero_block_step(zero_block_step(zero_block_step(zero_block_step(zero_block_step(zero_block_step(zero_input_start(163u64))))))))) == 0x0f42b276bc2e0465u64,
        zero_input_finish(zero_block_step(zero_block_step(zero_block_step(0x0f42b276bc2e0465u64)))) == 0xe1591f104ae62c02u64,
        zero_block_step(zero_block_step(zero_block_step(zero_block_step(zero_block_step(zero_block_step(zero_block_step(zero_block_step(zero_input_start(164u64))))))))) == 0x24c361b8c26a35b9u64,
        zero_input_finish(zero_block_step(zero_block_step(zero_block_step(0x24c361b8c26a35b9u64)))) == 0x65d7f63035a9cddbu64,
        zero_block_step(zero_block_step(zero_block_step(zero_block_step(zero_block_step(zero_block_step(zero_block_step(zero_block_step(zero_input_start(165u64))))))))) == 0x5884a6792086816eu64,
        zero_input_finish(zero_block_step(zero_block_step(zero_block_step(0x5884a6792086816eu64)))) == 0x02eed75ccfd3aaa0u64,
        zero_block_step(zero_block_step(zero_block_step(zero_block_step(zero_block_step(zero_block_step(zero_block_step(zero_block_step(zero_input_start(166u64))))))))) == 0x830c941d045c5aeeu64,
        zero_input_finish(zero_block_step(zero_block_step(zero_block_step(0x830c941d045c5aeeu64)))) == 0x63cda89b31cba773u64,
        zero_block_step(zero_block_step(zero_block_step(zero_block_step(zero_block_step(zero_block_step(zero_block_step(zero_block_step(zero_input_start(167u64))))))))) == 0x757bf7934f9b1667u64,
        zero_input_finish(zero_block_step(zero_block_step(zero_block_step(0x757bf7934f9b1667u64)))) == 0xc325199337fc67f0u64,
        zero_block_step(zero_block_step(zero_block_step(zero_block_step(zero_block_step(zero_block_step(zero_block_step(zero_block_step(zero_input_start(168u64))))))))) == 0xd7e456c258f99791u64,
        zero_input_finish(zero_block_step(zero_block_step(zero_block_step(0xd7e456c258f99791u64)))) == 0x1ce2193a52f1c3f1u64,
        zero_block_step(zero_block_step(zero_block_step(zero_block_step(zero_block_step(zero_block_step(zero_block_step(zero_block_step(zero_input_start(169u64))))))))) == 0x6dab4ec5e3f5bf6cu64,
        zero_input_finish(zero_block_step(zero_block_step(zero_block_step(0x6dab4ec5e3f5bf6cu64)))) == 0x5c63d0da27d57330u64,
        zero_block_step(zero_block_step(zero_block_step(zero_block_step(zero_block_step(zero_block_step(zero_block_step(zero_block_step(zero_input_start(170u64))))))))) == 0xb9c0f1efd20a5170u64,
        zero_input_finish(zero_block_step(zero_block_step(zero_block_step(0xb9c0f1efd20a5170u64)))) == 0x42afd7487c0c10b4u64,
        zero_block_step(zero_block_step(zero_block_step(zero_block_step(zero_block_step(zero_block_step(zero_block_step(zero_block_step(zero_input_start(171u64))))))))) == 0x469e9fcaf0d2c811u64,
        zero_input_finish(zero_block_step(zero_block_step(zero_block_step(0x469e9fcaf0d2c811u64)))) == 0x629949233c8e5441u64,
        zero_block_step(zero_block_step(zero_block_step(zero_block_step(zero_block_step(zero_block_step(zero_block_step(zero_block_step(zero_input_start(172u64))))))))) == 0xd6069766492dd991u64,
        zero_input_finish(zero_block_step(zero_block_step(zero_block_step(0xd6069766492dd991u64)))) == 0xd55569a861d75ea1u64,
        zero_block_step(zero_block_step(zero_block_step(zero_block_step(zero_block_step(zero_block_step(zero_block_step(zero_block_step(zero_input_start(173u64))))))))) == 0x14d6d3b2506af536u64,
        zero_input_finish(zero_block_step(zero_block_step(zero_block_step(0x14d6d3b2506af536u64)))) == 0x31b0ab8f58119508u64,
        zero_block_step(zero_block_step(zero_block_step(zero_block_step(zero_block_step(zero_block_step(zero_block_step(zero_block_step(zero_input_start(174u64))))))))) == 0x4df539e0e963ceb5u64,
        zero_input_finish(zero_block_step(zero_block_step(zero_block_step(0x4df539e0e963ceb5u64)))) == 0xf455f2ba5e5d28d6u64,
        zero_block_step(zero_block_step(zero_block_step(zero_block_step(zero_block_step(zero_block_step(zero_block_step(zero_block_step(zero_input_start(175u64))))))))) == 0x190fe7ccf3bf1a34u64,
        zero_input_finish(zero_block_step(zero_block_step(zero_block_step(0x190fe7ccf3bf1a34u64)))) == 0x06df208ae20b8eacu64,
        zero_block_step(zero_block_step(zero_block_step(zero_block_step(zero_block_step(zero_block_step(zero_block_step(zero_block_step(zero_input_start(176u64))))))))) == 0x7f972393218fcbb8u64,
        zero_input_finish(zero_block_step(zero_block_step(zero_block_step(0x7f972393218fcbb8u64)))) == 0xaf3ec5ea93453904u64,
{
}

/// The hashes of the all-zero inputs of 177 to 192 bytes, which are fed in
/// 12 blocks.
proof fn lemma_zero_hashes_12_blocks() by (bit_vector)
    ensures
        zero_block_step(zero_block_step(zero_block_step(zero_block_step(zero_block_step(zero_block_step(zero_block_step(zero_block_step(zero_input_start(177u64))))))))) == 0xdcea317f12b80335u64,
        zero_input_finish(zero_block_step(zero_block_step(zero_block_step(zero_block_step(0xdcea317f12b80335u64))))) == 0x390b04d56fe03610u64,
        zero_block_step(zero_block_step(zero_block_step(zero_block_step(zero_block_step(zero_block_step(zero_block_step(zero_block_step(zero_input_start(178u64))))))))) == 0x7f00df2d5bda44b8u64,
        zero_input_finish(zero_block_step(zero_block_step(zero_block_step(zero_block_step(0x7f00df2d5bda44b8u64))))) == 0xd6684ac9be358043u64,
        zero_block_step(zero_block_step(zero_block_step(zero_block_step(zero_block_step(zero_block_step(zero_block_step(zero_block_step(zero_input_start(179u64))))))))) == 0xce10d5bb8af40bcau64,
        zero_input_finish(zero_block_step(zero_block_step(zero_block_step(zero_block_step(0xce10d5bb8af40bcau64))))) == 0xa60a759f5766ef62u64,
        zero_block_step(zero_block_step(zero_block_step(zero_block_step(zero_block_step(zero_block_step(zero_block_step(zero_block_step(zero_input_start(180u64))))))))) == 0x5eb72a87b9314db3u64,
        zero_input_finish(zero_block_step(zero_block_step(zero_block_step(zero_block_step(0x5eb72a87b9314db3u64))))) == 0x43d7f539e6f171f7u64,
        zero_block_step(zero_block_step(zero_block_step(zero_block_step(zero_block_step(zero_block_step(zero_block_step(zero_block_step(zero_input_start(181u64))))))))) == 0x07d906b9231e8417u64,
        zero_input_finish(zero_block_step(zero_block_step(zero_block_step(zero_block_step(0x07d906b9231e8417u64))))) == 0x1815b42b0e90775du64,
        zero_block_step(zero_block_step(zero_block_step(zero_block_step(zero_block_step(zero_block_step(zero_block_step(zero_block_step(zero_input_start(182u64))))))))) == 0x352c2732d82752b4u64,
        zero_input_finish(zero_block_step(zero_block_step(zero_block_step(zero_block_step(0x352c2732d82752b4u64))))) == 0xfa845d39c881a608u64,
        zero_block_step(zero_block_step(zero_block_step(zero_block_step(zero_block_step(zero_block_step(zero_block_step(zero_block_step(zero_input_start(183u64))))))))) == 0x524958d86f798ddeu64,
        zero_input_finish(zero_block_step(zero_block_step(zero_block_step(zero_block_step(0x524958d86f798ddeu64))))) == 0x98bad53bea8de818u64,
        zero_block_step(zero_block_step(zero_block_step(zero_block_step(zero_block_step(zero_block_step(zero_block_step(zero_block_step(zero_input_start(184u64))))))))) == 0x91014b4e5c0d4502u64,
        zero_input_finish(zero_block_step(zero_block_step(zero_block_step(zero_block_step(0x91014b4e5c0d4502u64))))) == 0x6e8a3ea40713a65eu64,
        zero_block_step(zero_block_step(zero_block_step(zero_block_step(zero_block_step(zero_block_step(zero_block_step(zero_block_step(zero_input_start(185u64))))))))) == 0xe4f920475a83929fu64,
        zero_input_finish(zero_block_step(zero_block_step(zero_block_step(zero_block_step(0xe4f920475a83929fu64))))) == 0xba9b49ce2573bb4eu64,
        zero_block_step(zero_block_step(zero_block_step(zero_block_step(zero_block_step(zero_block_step(zero_block_step(zero_block_step(zero_input_start(186u64))))))))) == 0x694a0f4cc89cce02u64,
        zero_input_finish(zero_block_step(zero_block_step(zero_block_step(zero_block_step(0x694a0f4cc89cce02u64))))) == 0x51184f76818b3812u64,
        zero_block_step(zero_block_step(zero_block_step(zero_block_step(zero_block_step(zero_block_step(zero_block_step(zero_block_step(zero_input_start(187u64))))))))) == 0x94330d08d255efdeu64,
        zero_input_finish(zero_block_step(zero_block_step(zero_block_step(zero_block_step(0x94330d08d255efdeu64))))) == 0xd41144417ecaced7u64,
        zero_block_step(zero_block_step(zero_block_step(zero_block_step(zero_block_step(zero_block_step(zero_block_step(zero_block_step(zero_input_start(188u64))))))))) == 0xa83ad30902e68301u64,
        zero_input_finish(zero_block_step(zero_block_step(zero_block_step(zero_block_step(0xa83ad30902e68301u64))))) == 0xbc4753811a921dd1u64,
        zero_block_step(zero_block_step(zero_block_step(zero_block_step(zero_block_step(zero_block_step(zero_block_step(zero_block_step(zero_input_start(189u64))))))))) == 0xf1a363ed6d8f4883u64,
        zero_input_finish(zero_block_step(zero_block_step(zero_block_step(zero_block_step(0xf1a363ed6d8f4883u64))))) == 0xe93956dfb3d100d5u64,
        zero_block_step(zero_block_step(zero_block_step(zero_block_step(zero_block_step(zero_block_step(zero_block_step(zero_block_step(zero_input_start(190u64))))))))) == 0xcf64993dac0b205du64,
        zero_input_finish(zero_block_step(zero_block_step(zero_block_step(zero_block_step(0xcf64993dac0b205du64))))) == 0x5843b4bca9f2cce6u64,
        zero_block_step(zero_block_step(zero_block_step(zero_block_step(zero_block_step(zero_block_step(zero_block_step(zero_block_step(zero_input_start(191u64))))))))) == 0xbaec8d79ea151183u64,
        zero_input_finish(zero_block_step(zero_block_step(zero_block_step(zero_block_step(0xbaec8d79ea151183u64))))) == 0x7732a188a17a9966u64,
        zero_block_step(zero_block_step(zero_block_step(zero_block_step(zero_block_step(zero_block_step(zero_block_step(zero_block_step(zero_input_start(192u64))))))))) == 0x245b84d5a5cba902u64,
        zero_input_finish(zero_block_step(zero_block_step(zero_block_step(zero_block_step(0x245b84d5a5cba902u64))))) == 0xd6159d5b7d1eeed2u64,
{
}

/// The hashes of the all-zero inputs of 193 to 208 bytes, which are fed in
/// 13 blocks.
proof fn lemma_zero_hashes_13_blocks() by (bit_vector)
    ensures
        zero_block_step(zero_block_step(zero_block_step(zero_block_step(zero_block_step(zero_block_step(zero_block_step(zero_block_step(zero_input_start(193u64))))))))) == 0x45c5bafe22116685u64,
        zero_input_finish(zero_block_step(zero_block_step(zero_block_step(zero_block_step(zero_block_step(0x45c5bafe22116685u64)))))) == 0x1324d2a1070432dfu64,
        zero_block_step(zero_block_step(zero_block_step(zero_block_step(zero_block_step(zero_block_step(zero_block_step(zero_block_step(zero_input_start(194u64))))))))) == 0x518b479ac3fc5205u64,
        zero_input_finish(zero_block_step(zero_block_step(zero_block_step(zero_block_step(zero_block_step(0x518b479ac3fc5205u64)))))) == 0x2f9b06fb65194571u64,
        zero_block_step(zero_block_step(zero_block_step(zero_block_step(zero_block_step(zero_block_step(zero_block_step(zero_block_step(zero_input_start(195u64))))))))) == 0xafa0fef63d8e8385u64,
        zero_input_finish(zero_block_step(zero_block_step(zero_block_step(zero_block_step(zero_block_step(0xafa0fef63d8e8385u64)))))) == 0xa97dc37c4a61c2cdu64,
        zero_block_step(zero_block_step(zero_block_step(zero_block_step(zero_block_step(zero_block_step(zero_block_step(zero_block_step(zero_input_start(196u64))))))))) == 0x1a7c4c84cb8ea71fu64,
        zero_input_finish(zero_block_step(zero_block_step(zero_block_step(zero_block_step(zero_block_step(0x1a7c4c84cb8ea71fu64)))))) == 0x961290d2087acffdu64,
        zero_block_step(zero_block_step(zero_block_step(zero_block_step(zero_block_step(zero_block_step(zero_block_step(zero_block_step(zero_input_start(197u64))))))))) == 0x50e6e2b0b95c9c91u64,
        zero_input_finish(zero_block_step(zero_block_step(zero_block_step(zero_block_step(zero_block_step(0x50e6e2b0b95c9c91u64)))))) == 0x5430bbdd7550f7bdu64,
        zero_block_step(zero_block_step(zero_block_step(zero_block_step(zero_block_step(zero_block_step(zero_block_step(zero_block_step(zero_input_start(198u64))))))))) == 0x12b6cd8a367d9405u64,
        zero_input_finish(zero_block_step(zero_block_step(zero_block_step(zero_block_step(zero_block_step(0x12b6cd8a367d9405u64)))))) == 0x6fe2cddb19510803u64,
        zero_block_step(zero_block_step(zero_block_step(zero_block_step(zero_block_step(zero_block_step(zero_block_step(zero_block_step(zero_input_start(199u64))))))))) == 0x96d5c427e4e28588u64,
        zero_input_finish(zero_block_step(zero_block_step(zero_block_step(zero_block_step(zero_block_step(0x96d5c427e4e28588u64)))))) == 0x6493d0c0e7662d96u64,
        zero_block_step(zero_block_step(zero_block_step(zero_block_step(zero_block_step(zero_block_step(zero_block_step(zero_block_step(zero_input_start(200u64))))))))) == 0xf7efe1775399dd0au64,
        zero_input_finish(zero_block_step(zero_block_step(zero_block_step(zero_block_step(zero_block_step(0xf7efe1775399dd0au64)))))) == 0xd9c180270e481b4fu64,
        zero_block_step(zero_block_step(zero_block_step(zero_block_step(zero_block_step(zero_block_step(zero_block_step(zero_block_step(zero_input_start(201u64))))))))) == 0x0b02fcbd4eba6a89u64,
        zero_input_finish(zero_block_step(zero_block_step(zero_block_step(zero_block_step(zero_block_step(0x0b02fcbd4eba6a89u64)))))) == 0x8ffa71a8acbece68u64,
        zero_block_step(zero_block_step(zero_block_step(zero_block_step(zero_block_step(zero_block_step(zero_block_step(zero_block_step(zero_input_start(202u64))))))))) == 0xd9ca358b8cd4260du64,
        zero_input_finish(zero_block_step(zero_block_step(zero_block_step(zero_block_step(zero_block_step(0xd9ca358b8cd4260du64)))))) == 0xdc803c7793e0c81au64,
        zero_block_step(zero_block_step(zero_block_step(zero_block_step(zero_block_step(zero_block_step(zero_block_step(zero_block_step(zero_input_start(203u64))))))))) == 0x66e08c1dcb76a7d8u64,
        zero_input_finish(zero_block_step(zero_block_step(zero_block_step(zero_block_step(zero_block_step(0x66e08c1dcb76a7d8u64)))))) == 0x144875d0103912a3u64,
        zero_block_step(zero_block_step(zero_block_step(zero_block_step(zero_block_step(zero_block_step(zero_block_step(zero_block_step(zero_input_start(204u64))))))))) == 0xf670d5498632fb0cu64,
        zero_input_finish(zero_block_step(zero_block_step(zero_block_step(zero_block_step(zero_block_step(0xf670d5498632fb0cu64)))))) == 0xaac9644a805e5bfcu64,
        zero_block_step(zero_block_step(zero_block_step(zero_block_step(zero_block_step(zero_block_step(zero_block_step(zero_block_step(zero_input_start(205u64))))))))) == 0x2097c3ec74be60d9u64,
        zero_input_finish(zero_block_step(zero_block_step(zero_block_step(zero_block_step(zero_block_step(0x2097c3ec74be60d9u64)))))) == 0x3957bec3991158f6u64,
        zero_block_step(zero_block_step(zero_block_step(zero_block_step(zero_block_step(zero_block_step(zero_block_step(zero_block_step(zero_input_start(206u64))))))))) == 0xe8b90628184a9859u64,
        zero_input_finish(zero_block_step(zero_block_step(zero_block_step(zero_block_step(zero_block_step(0xe8b90628184a9859u64)))))) == 0xa9fb0005b78ea866u64,
        zero_block_step(zero_block_step(zero_block_step(zero_block_step(zero_block_step(zero_block_step(zero_block_step(zero_block_step(zero_input_start(207u64))))))))) == 0xcc0c3401444bea33u64,
        zero_input_finish(zero_block_step(zero_block_step(zero_block_step(zero_block_step(zero_block_step(0xcc0c3401444bea33u64)))))) == 0x68bdf503db9b896bu64,
        zero_block_step(zero_block_step(zero_block_step(zero_block_step(zero_block_step(zero_block_step(zero_block_step(zero_block_step(zero_input_start(208u64))))))))) == 0x9f29790a9c9e5bb1u64,
        zero_input_finish(zero_block_step(zero_block_step(zero_block_step(zero_block_step(zero_block_step(0x9f29790a9c9e5bb1u64)))))) == 0x132eea8cd067650bu64,
{
}

/// The hashes of the all-zero inputs of 209 to 224 bytes, which are fed in
/// 14 blocks.
proof fn lemma_zero_hashes_14_blocks() by (bit_vector)
    ensures
        zero_block_step(zero_block_step(zero_block_step(zero_block_step(zero_block_step(zero_block_step(zero_block_step(zero_block_step(zero_input_start(209u64))))))))) == 0xfcfa68d6987d9310u64,
        zero_input_finish(zero_block_step(zero_block_step(zero_block_step(zero_block_step(zero_block_step(zero_block_step(0xfcfa68d6987d9310u64))))))) == 0x149161eb90e0d451u64,
        zero_block_step(zero_block_step(zero_block_step(zero_block_step(zero_block_step(zero_block_step(zero_block_step(zero_block_step(zero_input_start(210u64))))))))) == 0x94d9cbad163e94d3u64,
        zero_input_finish(zero_block_step(zero_block_step(zero_block_step(zero_block_step(zero_block_step(zero_block_step(0x94d9cbad163e94d3u64))))))) == 0xbbbeb9aee236469cu64,
        zero_block_step(zero_block_step(zero_block_step(zero_block_step(zero_block_step(zero_block_step(zero_block_step(zero_block_step(zero_input_start(211u64))))))))) == 0x6e2a7ad9127fec0bu64,
        zero_input_finish(zero_block_step(zero_block_step(zero_block_step(zero_block_step(zero_block_step(zero_block_step(0x6e2a7ad9127fec0bu64))))))) == 0x22f39b81ba577fc2u64,
        zero_block_step(zero_block_step(zero_block_step(zero_block_step(zero_block_step(zero_block_step(zero_block_step(zero_block_step(zero_input_start(212u64))))))))) == 0x739305053fe6ddd4u64,
        zero_input_finish(zero_block_step(zero_block_step(zero_block_step(zero_block_step(zero_block_step(zero_block_step(0x739305053fe6ddd4u64))))))) == 0x41e3b4f218faf18au64,
        zero_block_step(zero_block_step(zero_block_step(zero_block_step(zero_block_step(zero_block_step(zero_block_step(zero_block_step(zero_input_start(213u64))))))))) == 0x2a02b70d941f6955u64,
        zero_input_finish(zero_block_step(zero_block_step(zero_block_step(zero_block_step(zero_block_step(zero_block_step(0x2a02b70d941f6955u64))))))) == 0x673a7f6c06d8be7eu64,
        zero_block_step(zero_block_step(zero_block_step(zero_block_step(zero_block_step(zero_block_step(zero_block_step(zero_block_step(zero_input_start(214u64))))))))) == 0x42837397ddfd228fu64,
        zero_input_finish(zero_block_step(zero_block_step(zero_block_step(zero_block_step(zero_block_step(zero_block_step(0x42837397ddfd228fu64))))))) == 0x438fc694c4bc5799u64,
        zero_block_step(zero_block_step(zero_block_step(zero_block_step(zero_block_step(zero_block_step(zero_block_step(zero_block_step(zero_input_start(215u64))))))))) == 0x7244a4a328c71e5au64,
        zero_input_finish(zero_block_step(zero_block_step(zero_block_step(zero_block_step(zero_block_step(zero_block_step(0x7244a4a328c71e5au64))))))) == 0xd4bd7d4f4ba83fb8u64,
        zero_block_step(zero_block_step(zero_block_step(zero_block_step(zero_block_step(zero_block_step(zero_block_step(zero_block_step(zero_input_start(216u64))))))))) == 0xb174c174e3f33fd6u64,
        zero_input_finish(zero_block_step(zero_block_step(zero_block_step(zero_block_step(zero_block_step(zero_block_step(0xb174c174e3f33fd6u64))))))) == 0xbabd06ef6d119688u64,
        zero_block_step(zero_block_step(zero_block_step(zero_block_step(zero_block_step(zero_block_step(zero_block_step(zero_block_step(zero_input_start(217u64))))))))) == 0xf93d9dfa43436758u64,
        zero_input_finish(zero_block_step(zero_block_step(zero_block_step(zero_block_step(zero_block_step(zero_block_step(0xf93d9dfa43436758u64))))))) == 0xc1153bbbc53a46bau64,
        zero_block_step(zero_block_step(zero_block_step(zero_block_step(zero_block_step(zero_block_step(zero_block_step(zero_block_step(zero_input_start(218u64))))))))) == 0x86a5bbb04fe798beu64,
        zero_input_finish(zero_block_step(zero_block_step(zero_block_step(zero_block_step(zero_block_step(zero_block_step(0x86a5bbb04fe798beu64))))))) == 0x387afb9282c1dec0u64,
        zero_block_step(zero_block_step(zero_block_step(zero_block_step(zero_block_step(zero_block_step(zero_block_step(zero_block_step(zero_input_start(219u64))))))))) == 0xb46b47977eee703bu64,
        zero_input_finish(zero_block_step(zero_block_step(zero_block_step(zero_block_step(zero_block_step(zero_block_step(0xb46b47977eee703bu64))))))) == 0x079e7afa855614afu64,
        zero_block_step(zero_block_step(zero_block_step(zero_block_step(zero_block_step(zero_block_step(zero_block_step(zero_block_step(zero_input_start(220u64))))))))) == 0xdb80f5beca48a1bbu64,
        zero_input_finish(zero_block_step(zero_block_step(zero_block_step(zero_block_step(zero_block_step(zero_block_step(0xdb80f5beca48a1bbu64))))))) == 0x96a3336940915be3u64,
        zero_block_step(zero_block_step(zero_block_step(zero_block_step(zero_block_step(zero_block_step(zero_block_step(zero_block_step(zero_input_start(221u64))))))))) == 0x115da35af8c69d5au64,
        zero_input_finish(zero_block_step(zero_block_step(zero_block_step(zero_block_step(zero_block_step(zero_block_step(0x115da35af8c69d5au64))))))) == 0x4a7b21a5a27badd3u64,
        zero_block_step(zero_block_step(zero_block_step(zero_block_step(zero_block_step(zero_block_step(zero_block_step(zero_block_step(zero_input_start(222u64))))))))) == 0x5dc6d85b76c2bc77u64,
        zero_input_finish(zero_block_step(zero_block_step(zero_block_step(zero_block_step(zero_block_step(zero_block_step(0x5dc6d85b76c2bc77u64))))))) == 0xea9a407152b9e880u64,
        zero_block_step(zero_block_step(zero_block_step(zero_block_step(zero_block_step(zero_block_step(zero_block_step(zero_block_step(zero_input_start(223u64))))))))) == 0xda960e5f2574e223u64,
        zero_input_finish(zero_block_step(zero_block_step(zero_block_step(zero_block_step(zero_block_step(zero_block_step(0xda960e5f2574e223u64))))))) == 0x6612542445f9e21au64,
        zero_block_step(zero_block_step(zero_block_step(zero_block_step(zero_block_step(zero_block_step(zero_block_step(zero_block_step(zero_input_start(224u64))))))))) == 0xc4b57daf906b39a9u64,
        zero_input_finish(zero_block_step(zero_block_step(zero_block_step(zero_block_step(zero_block_step(zero_block_step(0xc4b57daf906b39a9u64))))))) == 0x1c6048c24cd21268u64,
{
}

/// The hashes of the all-zero inputs of 225 to 240 bytes, which are fed in
/// 15 blocks.
proof fn lemma_zero_hashes_15_blocks() by (bit_vector)
    ensures
        zero_block_step(zero_block_step(zero_block_step(zero_block_step(zero_block_step(zero_block_step(zero_block_step(zero_block_step(zero_input_start(225u64))))))))) == 0xd8cfeb1bf3abf73fu64,
        zero_input_finish(zero_block_step(zero_block_step(zero_block_step(zero_block_step(zero_block_step(zero_block_step(zero_block_step(0xd8cfeb1bf3abf73fu64)))))))) == 0xc2bdd22f44ab2072u64,
        zero_block_step(zero_block_step(zero_block_step(zero_block_step(zero_block_step(zero_block_step(zero_block_step(zero_block_step(zero_input_start(226u64))))))))) == 0x71e2ece7da562ea9u64,
        zero_input_finish(zero_block_step(zero_block_step(zero_block_step(zero_block_step(zero_block_step(zero_block_step(zero_block_step(0x71e2ece7da562ea9u64)))))))) == 0x93069a04e8e90f6fu64,
        zero_block_step(zero_block_step(zero_block_step(zero_block_step(zero_block_step(zero_block_step(zero_block_step(zero_block_step(zero_input_start(227u64))))))))) == 0x4faa2f6016501421u64,
        zero_input_finish(zero_block_step(zero_block_step(zero_block_step(zero_block_step(zero_block_step(zero_block_step(zero_block_step(0x4faa2f6016501421u64)))))))) == 0x386f8b62cf13be0au64,
        zero_block_step(zero_block_step(zero_block_step(zero_block_step(zero_block_step(zero_block_step(zero_block_step(zero_block_step(zero_input_start(228u64))))))))) == 0x3bc0e57cc6ec3731u64,
        zero_input_finish(zero_block_step(zero_block_step(zero_block_step(zero_block_step(zero_block_step(zero_block_step(zero_block_step(0x3bc0e57cc6ec3731u64)))))))) == 0x2e76dc90334a816cu64,
        zero_block_step(zero_block_step(zero_block_step(zero_block_step(zero_block_step(zero_block_step(zero_block_step(zero_block_step(zero_input_start(229u64))))))))) == 0x70d0d3524f386cfcu64,
        zero_input_finish(zero_block_step(zero_block_step(zero_block_step(zero_block_step(zero_block_step(zero_block_step(zero_block_step(0x70d0d3524f386cfcu64)))))))) == 0xe12ce9d842a4f315u64,
        zero_block_step(zero_block_step(zero_block_step(zero_block_step(zero_block_step(zero_block_step(zero_block_step(zero_block_step(zero_input_start(230u64))))))))) == 0x3778092eadb3507bu64,
        zero_input_finish(zero_block_step(zero_block_step(zero_block_step(zero_block_step(zero_block_step(zero_block_step(zero_block_step(0x3778092eadb3507bu64)))))))) == 0x21026422445fbe8fu64,
        zero_block_step(zero_block_step(zero_block_step(zero_block_step(zero_block_step(zero_block_step(zero_block_step(zero_block_step(zero_input_start(231u64))))))))) == 0xa29977d08473d622u64,
        zero_input_finish(zero_block_step(zero_block_step(zero_block_step(zero_block_step(zero_block_step(zero_block_step(zero_block_step(0xa29977d08473d622u64)))))))) == 0x8e8c01e7783c4db1u64,
        zero_block_step(zero_block_step(zero_block_step(zero_block_step(zero_block_step(zero_block_step(zero_block_step(zero_block_step(zero_input_start(232u64))))))))) == 0x17ec36ac29922d31u64,
        zero_input_finish(zero_block_step(zero_block_step(zero_block_step(zero_block_step(zero_block_step(zero_block_step(zero_block_step(0x17ec36ac29922d31u64)))))))) == 0x826d5da1d0b8f496u64,
        zero_block_step(zero_block_step(zero_block_step(zero_block_step(zero_block_step(zero_block_step(zero_block_step(zero_block_step(zero_input_start(233u64))))))))) == 0xae0a9de9e665fb24u64,
        zero_input_finish(zero_block_step(zero_block_step(zero_block_step(zero_block_step(zero_block_step(zero_block_step(zero_block_step(0xae0a9de9e665fb24u64)))))))) == 0x855ba30c9955f647u64,
        zero_block_step(zero_block_step(zero_block_step(zero_block_step(zero_block_step(zero_block_step(zero_block_step(zero_block_step(zero_input_start(234u64))))))))) == 0xfada71c148d242a6u64,
        zero_input_finish(zero_block_step(zero_block_step(zero_block_step(zero_block_step(zero_block_step(zero_block_step(zero_block_step(0xfada71c148d242a6u64)))))))) == 0xb1a0c63acbeb0586u64,
        zero_block_step(zero_block_step(zero_block_step(zero_block_step(zero_block_step(zero_block_step(zero_block_step(zero_block_step(zero_input_start(235u64))))))))) == 0x89b918cd52a32824u64,
        zero_input_finish(zero_block_step(zero_block_step(zero_block_step(zero_block_step(zero_block_step(zero_block_step(zero_block_step(0x89b918cd52a32824u64)))))))) == 0x40a58a41f5c88eb6u64,
        zero_block_step(zero_block_step(zero_block_step(zero_block_step(zero_block_step(zero_block_step(zero_block_step(zero_block_step(zero_input_start(236u64))))))))) == 0x110a5e9c7d40cbaau64,
        zero_input_finish(zero_block_step(zero_block_step(zero_block_step(zero_block_step(zero_block_step(zero_block_step(zero_block_step(0x110a5e9c7d40cbaau64)))))))) == 0xf8a66da093ca84f1u64,
        zero_block_step(zero_block_step(zero_block_step(zero_block_step(zero_block_step(zero_block_step(zero_block_step(zero_block_step(zero_input_start(237u64))))))))) == 0x40f36a67ed64f124u64,
        zero_input_finish(zero_block_step(zero_block_step(zero_block_step(zero_block_step(zero_block_step(zero_block_step(zero_block_step(0x40f36a67ed64f124u64)))))))) == 0xb535108aa8137276u64,
        zero_block_step(zero_block_step(zero_block_step(zero_block_step(zero_block_step(zero_block_step(zero_block_step(zero_block_step(zero_input_start(238u64))))))))) == 0x8de142b3f9db74a8u64,
        zero_input_finish(zero_block_step(zero_block_step(zero_block_step(zero_block_step(zero_block_step(zero_block_step(zero_block_step(0x8de142b3f9db74a8u64)))))))) == 0xf512e61b5b21c2ecu64,
        zero_block_step(zero_block_step(zero_block_step(zero_block_step(zero_block_step(zero_block_step(zero_block_step(zero_block_step(zero_input_start(239u64))))))))) == 0x586367de76517a25u64,
        zero_input_finish(zero_block_step(zero_block_step(zero_block_step(zero_block_step(zero_block_step(zero_block_step(zero_block_step(0x586367de76517a25u64)))))))) == 0x863a1e41b704ee23u64,
        zero_block_step(zero_block_step(zero_block_step(zero_block_step(zero_block_step(zero_block_step(zero_block_step(zero_block_step(zero_input_start(240u64))))))))) == 0xbf24a6fa1c4d31a9u64,
        zero_input_finish(zero_block_step(zero_block_step(zero_block_step(zero_block_step(zero_block_step(zero_block_step(zero_block_step(0xbf24a6fa1c4d31a9u64)))))))) == 0x7339de140943cd01u64,
{
}

/// The hashes of the all-zero inputs of 241 to 255 bytes, which are fed in
/// 16 blocks.
proof fn lemma_zero_hashes_16_blocks() by (bit_vector)
    ensures
        zero_block_step(zero_block_step(zero_block_step(zero_block_step(zero_block_step(zero_block_step(zero_block_step(zero_block_step(zero_input_start(241u64))))))))) == 0x1c54cef8a2c8ef2eu64,
        zero_input_finish(zero_block_step(zero_block_step(zero_block_step(zero_block_step(zero_block_step(zero_block_step(zero_block_step(zero_block_step(0x1c54cef8a2c8ef2eu64))))))))) == 0x5bf84120e08f4304u64,
        zero_block_step(zero_block_step(zero_block_step(zero_block_step(zero_block_step(zero_block_step(zero_block_step(zero_block_step(zero_input_start(242u64))))))))) == 0xb31c586480e986acu64,
        zero_input_finish(zero_block_step(zero_block_step(zero_block_step(zero_block_step(zero_block_step(zero_block_step(zero_block_step(zero_block_step(0xb31c586480e986acu64))))))))) == 0x53b647583e15f281u64,
        zero_block_step(zero_block_step(zero_block_step(zero_block_step(zero_block_step(zero_block_step(zero_block_step(zero_block_step(zero_input_start(243u64))))))))) == 0x03859e34db286c27u64,
        zero_input_finish(zero_block_step(zero_block_step(zero_block_step(zero_block_step(zero_block_step(zero_block_step(zero_block_step(zero_block_step(0x03859e34db286c27u64))))))))) == 0xfeb69f9b3b1df077u64,
        zero_block_step(zero_block_step(zero_block_step(zero_block_step(zero_block_step(zero_block_step(zero_block_step(zero_block_step(zero_input_start(244u64))))))))) == 0x934b40b72f9aafafu64,
        zero_input_finish(zero_block_step(zero_block_step(zero_block_step(zero_block_step(zero_block_step(zero_block_step(zero_block_step(zero_block_step(0x934b40b72f9aafafu64))))))))) == 0x72ac96bfcd31b595u64,
        zero_block_step(zero_block_step(zero_block_step(zero_block_step(zero_block_step(zero_block_step(zero_block_step(zero_block_step(zero_input_start(245u64))))))))) == 0x4660e943c5c8e528u64,
        zero_input_finish(zero_block_step(zero_block_step(zero_block_step(zero_block_step(zero_block_step(zero_block_step(zero_block_step(zero_block_step(0x4660e943c5c8e528u64))))))))) == 0xebc3e4a1f9275983u64,
        zero_block_step(zero_block_step(zero_block_step(zero_block_step(zero_block_step(zero_block_step(zero_block_step(zero_block_step(zero_input_start(246u64))))))))) == 0x623da0576c54a852u64,
        zero_input_finish(zero_block_step(zero_block_step(zero_block_step(zero_block_step(zero_block_step(zero_block_step(zero_block_step(zero_block_step(0x623da0576c54a852u64))))))))) == 0x08acc23f56eb93cdu64,
        zero_block_step(zero_block_step(zero_block_step(zero_block_step(zero_block_step(zero_block_step(zero_block_step(zero_block_step(zero_input_start(247u64))))))))) == 0x13a6e688585c6e21u64,
        zero_input_finish(zero_block_step(zero_block_step(zero_block_step(zero_block_step(zero_block_step(zero_block_step(zero_block_step(zero_block_step(0x13a6e688585c6e21u64))))))))) == 0xb388eb788d528163u64,
        zero_block_step(zero_block_step(zero_block_step(zero_block_step(zero_block_step(zero_block_step(zero_block_step(zero_block_step(zero_input_start(248u64))))))))) == 0xd17607d1d0152530u64,
        zero_input_finish(zero_block_step(zero_block_step(zero_block_step(zero_block_step(zero_block_step(zero_block_step(zero_block_step(zero_block_step(0xd17607d1d0152530u64))))))))) == 0x42b23792f54ffe45u64,
        zero_block_step(zero_block_step(zero_block_step(zero_block_step(zero_block_step(zero_block_step(zero_block_step(zero_block_step(zero_input_start(249u64))))))))) == 0x1c955a7d2925f32fu64,
        zero_input_finish(zero_block_step(zero_block_step(zero_block_step(zero_block_step(zero_block_step(zero_block_step(zero_block_step(zero_block_step(0x1c955a7d2925f32fu64))))))))) == 0x1403773beea1c594u64,
        zero_block_step(zero_block_step(zero_block_step(zero_block_step(zero_block_step(zero_block_step(zero_block_step(zero_block_step(zero_input_start(250u64))))))))) == 0xa6af8f86e7375a52u64,
        zero_input_finish(zero_block_step(zero_block_step(zero_block_step(zero_block_step(zero_block_step(zero_block_step(zero_block_step(zero_block_step(0xa6af8f86e7375a52u64))))))))) == 0x5abd65e2c0e77407u64,
        zero_block_step(zero_block_step(zero_block_step(zero_block_step(zero_block_step(zero_block_step(zero_block_step(zero_block_step(zero_input_start(251u64))))))))) == 0xf7c28e4c55cc4ff4u64,
        zero_input_finish(zero_block_step(zero_block_step(zero_block_step(zero_block_step(zero_block_step(zero_block_step(zero_block_step(zero_block_step(0xf7c28e4c55cc4ff4u64))))))))) == 0x01772ea4082d4aa7u64,
        zero_block_step(zero_block_step(zero_block_step(zero_block_step(zero_block_step(zero_block_step(zero_block_step(zero_block_step(zero_input_start(252u64))))))))) == 0xfb8a300853ce6357u64,
        zero_input_finish(zero_block_step(zero_block_step(zero_block_step(zero_block_step(zero_block_step(zero_block_step(zero_block_step(zero_block_step(0xfb8a300853ce6357u64))))))))) == 0x48d73e9a3fa1ab82u64,
        zero_block_step(zero_block_step(zero_block_step(zero_block_step(zero_block_step(zero_block_step(zero_block_step(zero_block_step(zero_input_start(253u64))))))))) == 0x31a097fe8195a920u64,
        zero_input_finish(zero_block_step(zero_block_step(zero_block_step(zero_block_step(zero_block_step(zero_block_step(zero_block_step(zero_block_step(0x31a097fe8195a920u64))))))))) == 0x7b1e97d8bd837c38u64,
        zero_block_step(zero_block_step(zero_block_step(zero_block_step(zero_block_step(zero_block_step(zero_block_step(zero_block_step(zero_input_start(254u64))))))))) == 0x7c301eed72a68c7au64,
        zero_input_finish(zero_block_step(zero_block_step(zero_block_step(zero_block_step(zero_block_step(zero_block_step(zero_block_step(zero_block_step(0x7c301eed72a68c7au64))))))))) == 0x53034bc3f77c72e4u64,
        zero_block_step(zero_block_step(zero_block_step(zero_block_step(zero_block_step(zero_block_step(zero_block_step(zero_block_step(zero_input_start(255u64))))))))) == 0xfa5814213c7d71f6u64,
        zero_input_finish(zero_block_step(zero_block_step(zero_block_step(zero_block_step(zero_block_step(zero_block_step(zero_block_step(zero_block_step(0xfa5814213c7d71f6u64))))))))) == 0x034874dc7eb02fdbu64,
{
}

/// The length of the all-zero input of at most 255 bytes that hashes to `h`,
/// or 256 when there is none.
pub open spec fn zero_input_length(h: u64) -> nat {
    match h {
        0x6354fdac89c66b55 => 0,
        0xcbe5a7dfbeb08c33 => 1,
        0x1a866bc858d5a67a => 2,
        0xefd766392dd3d94f => 3,
        0xca8486fa696bed3b => 4,
        0xe7a6c1c3a9944cb9 => 5,
        0xee01f74e824a35aa => 6,
        0x80ae511190fce33a => 7,
        0x5ee412cc9fdaccba => 8,
        0xd0a52ed65eac1347 => 9,
        0x432e9dcc6eb4de46 => 10,
        0xb7ba45751bde20fb => 11,
        0x32f143859f30249e => 12,
        0x20eae1912886ff83 => 13,
        0x0bb95c1e316785bd => 14,
        0x8d3cabaf3f63613b => 15,
        0x14f9c9fde394e6c5 => 16,
        0x1efcb9067326f0c9 => 17,
        0xe6337e80d8335581 => 18,
        0x2330cf770c1ee465 => 19,
        0x217c6ef8af587563 => 20,
        0x6b34ca996434dae8 => 21,
        0xcedb377df0017e06 => 22,
        0x7927917823406d92 => 23,
        0xaa99a06fa674cc29 => 24,
        0x64f956cfd6db582f => 25,
        0x8254b15ef319eb50 => 26,
        0xea765f2e8f1a1a0b => 27,
        0xd496e0cbd62f84e5 => 28,
        0x95a09afd1de2f10f => 29,
        0x1d1ee6a114524486 => 30,
        0xd297e4cb76662083 => 31,
        0x9814cd136b6503eb => 32,
        0xc98bcbd20a5c6a16 => 33,
        0xfdbdf38f5ec7649c => 34,
        0x166140e284bcd31f => 35,
        0xc263cd6aeae682af => 36,
        0x22b270964987060e => 37,
        0xc7f5f20243d5d519 => 38,
        0x672232b6b1123fac => 39,
        0x7115579114c10e1c => 40,
        0xba856eecc22775ec => 41,
        0x10ea71924319d024 => 42,
        0xd3517edf5e2da28e => 43,
        0xf1b4f3ec2828174f => 44,
        0xb9ef6c1e2ecc75c6 => 45,
        0x96f952f7a6d647a7 => 46,
        0xf19b45e0d3117e4f => 47,
        0x735f9fd603ddcc0a => 48,
        0xa9537b069168bd1a => 49,
        0xfb19f2f5a071afaa => 50,
        0x5dd843af3f012844 => 51,
        0x91f12ad2fef418b7 => 52,
        0xe6969f9d49fb8b7d => 53,
        0x8a3105337049732a => 54,
        0x045037c335057790 => 55,
        0x6a2f7273266ba3f6 => 56,
        0x1d34361c919b53e7 => 57,
        0x9014d66561530cb7 => 58,
        0xea8a070824f9a4e4 => 59,
        0xffba79eb9ecb519d => 60,
        0x8c942d34171388b2 => 61,
        0xb44c7d7327772426 => 62,
        0xcddf69c18c4aca8d => 63,
        0x2fa469a482bc4667 => 64,
        0xd054eb2c77bb4f15 => 65,
        0xcebad7acd4a4dabd => 66,
        0x6e4ba49d833b4f40 => 67,
        0xbb167871aea279a6 => 68,
        0xd1e80cac4226a195 => 69,
        0x8bd3923bcb94e7dd => 70,
        0xef4cd0918680822d => 71,
        0xf54229799d8f9494 => 72,
        0x2cc6a67199b5c9ac => 73,
        0xcb881802e76070db => 74,
        0x6c13c5627744b65f => 75,
        0x090326a2b13cf34f => 76,
        0x8df55b2714d89e53 => 77,
        0xbc6224772ff5a780 => 78,
        0x90127d568e671791 => 79,
        0x0fc6b58af00dbb6e => 80,
        0xc8926fa4f4d65f75 => 81,
        0x36e98b0212c4c5a4 => 82,
        0x6430e5825def149c => 83,
        0x0ead383fb925c6a7 => 84,
        0x422b34017ee080b3 => 85,
        0x0e9000883fc7a3f2 => 86,
        0x4f196832b942abbd => 87,
        0xe7e5f7664c813350 => 88,
        0x067e11d64b78f306 => 89,
        0x8fbf49b7858128c1 => 90,
        0x9254e97e8e32265f => 91,
        0xffc34ddc97291922 => 92,
        0x251e67b0de0cfdf4 => 93,
        0xe59ccb78a41da639 => 94,
        0x6d9f7a78cfd18720 => 95,
        0xe3029c4b7b2b2c58 => 96,
        0x429dfb25d39441cf => 97,
        0xdac5ed26ea0cc5e7 => 98,
        0xde10fcdd7e3bd7b6 => 99,
        0xa3697d2ceea8e941 => 100,
        0xc7cfa2473f98ba3c => 101,
        0x53ca819c8df09ce7 => 102,
        0x71227dc41aeecb9d => 103,
        0x453217240acedf55 => 104,
        0xabc65951a909cb58 => 105,
        0x3d6456dd35036e21 => 106,
        0x165b2d24d8d65ff6 => 107,
        0x9d8c0de6e1d2bb1d => 108,
        0xb575011f7b431d25 => 109,
        0x0dda37df277916a1 => 110,
        0xa0d6e9d0af047015 => 111,
        0x99bd8a5cd8f6a7b5 => 112,
        0xd201b939c55992d5 => 113,
        0xf6c8841398586b9d => 114,
        0xb391c61a5a0b8bba => 115,
        0x78c0915a0347ac12 => 116,
        0x179311205b8cdc54 => 117,
        0x972ff49a66f52f6c => 118,
        0xbf8a2e086a28c5aa => 119,
        0x5e50b1c96df80abc => 120,
        0x62da76b6d787a32b => 121,
        0x27a9dbcece733f76 => 122,
        0xf22b082a0651434f => 123,
        0x71f8a3c398525805 => 124,
        0x105611fcc9103f1e => 125,
        0x2b1d78bb8af045e6 => 126,
        0x773b0f22703cf749 => 127,
        0x68cc5e086b6cf75a => 128,
        0xd1cccd62b0807978 => 129,
        0x99bf400bb99f7b7f => 130,
        0x5682cdaf6c6f6af0 => 131,
        0x8a6ac57842b289f2 => 132,
        0xd6d26cdcf1d092eb => 133,
        0x5d3b398606c5250c => 134,
        0x5190546bb0df7d07 => 135,
        0x95abee0473c0ef12 => 136,
        0x6cde6211c01e360c => 137,
        0x68a6f38985967229 => 138,
        0x08bb70e4f78042e6 => 139,
        0x8dfc23bf1a0b2894 => 140,
        0x2f94a243eedb1722 => 141,
        0xb837266fee793ee6 => 142,
        0x536517268e128dce => 143,
        0x4185ff43aeed88ab => 144,
        0xa73c218c50e3ba3f => 145,
        0x9f62f84d9d63f9f7 => 146,
        0x5ffebf01fce54e0b => 147,
        0x5cd09009415b773b => 148,
        0xd53bb648a436110a => 149,
        0x0092a6a93d7bab5c => 150,
        0x6e2ccf9d07318776 => 151,
        0x68edcdc0d962bec5 => 152,
        0xa6041e8ab17004e4 => 153,
        0x461ebbb854adfbdc => 154,
        0xf2286e7a285d1a7e => 155,
        0x14f26c3d09f2f582 => 156,
        0x22fc55ea9631e86c => 157,
        0x7dba832233db46b3 => 158,
        0xdde49d9ece0dafa2 => 159,
        0xa40b619730401692 => 160,
        0x332db771411437ca => 161,
        0x685f1a7888367f47 => 162,
        0xe1591f104ae62c02 => 163,
        0x65d7f63035a9cddb => 164,
        0x02eed75ccfd3aaa0 => 165,
        0x63cda89b31cba773 => 166,
        0xc325199337fc67f0 => 167,
        0x1ce2193a52f1c3f1 => 168,
        0x5c63d0da27d57330 => 169,
        0x42afd7487c0c10b4 => 170,
        0x629949233c8e5441 => 171,
        0xd55569a861d75ea1 => 172,
        0x31b0ab8f58119508 => 173,
        0xf455f2ba5e5d28d6 => 174,
        0x06df208ae20b8eac => 175,
        0xaf3ec5ea93453904 => 176,
        0x390b04d56fe03610 => 177,
        0xd6684ac9be358043 => 178,
        0xa60a759f5766ef62 => 179,
        0x43d7f539e6f171f7 => 180,
        0x1815b42b0e90775d => 181,
        0xfa845d39c881a608 => 182,
        0x98bad53bea8de818 => 183,
        0x6e8a3ea40713a65e => 184,
        0xba9b49ce2573bb4e => 185,
        0x51184f76818b3812 => 186,
        0xd41144417ecaced7 => 187,
        0xbc4753811a921dd1 => 188,
        0xe93956dfb3d100d5 => 189,
        0x5843b4bca9f2cce6 => 190,
        0x7732a188a17a9966 => 191,
        0xd6159d5b7d1eeed2 => 192,
        0x1324d2a1070432df => 193,
        0x2f9b06fb65194571 => 194,
        0xa97dc37c4a61c2cd => 195,
        0x961290d2087acffd => 196,
        0x5430bbdd7550f7bd => 197,
        0x6fe2cddb19510803 => 198,
        0x6493d0c0e7662d96 => 199,
        0xd9c180270e481b4f => 200,
        0x8ffa71a8acbece68 => 201,
        0xdc803c7793e0c81a => 202,
        0x144875d0103912a3 => 203,
        0xaac9644a805e5bfc => 204,
        0x3957bec3991158f6 => 205,
        0xa9fb0005b78ea866 => 206,
        0x68bdf503db9b896b => 207,
        0x132eea8cd067650b => 208,
        0x149161eb90e0d451 => 209,
        0xbbbeb9aee236469c => 210,
        0x22f39b81ba577fc2 => 211,
        0x41e3b4f218faf18a => 212,
        0x673a7f6c06d8be7e => 213,
        0x438fc694c4bc5799 => 214,
        0xd4bd7d4f4ba83fb8 => 215,
        0xbabd06ef6d119688 => 216,
        0xc1153bbbc53a46ba => 217,
        0x387afb9282c1dec0 => 218,
        0x079e7afa855614af => 219,
        0x96a3336940915be3 => 220,
        0x4a7b21a5a27badd3 => 221,
        0xea9a407152b9e880 => 222,
        0x6612542445f9e21a => 223,
        0x1c6048c24cd21268 => 224,
        0xc2bdd22f44ab2072 => 225,
        0x93069a04e8e90f6f => 226,
        0x386f8b62cf13be0a => 227,
        0x2e76dc90334a816c => 228,
        0xe12ce9d842a4f315 => 229,
        0x21026422445fbe8f => 230,
        0x8e8c01e7783c4db1 => 231,
        0x826d5da1d0b8f496 => 232,
        0x855ba30c9955f647 => 233,
        0xb1a0c63acbeb0586 => 234,
        0x40a58a41f5c88eb6 => 235,
        0xf8a66da093ca84f1 => 236,
        0xb535108aa8137276 => 237,
        0xf512e61b5b21c2ec => 238,
        0x863a1e41b704ee23 => 239,
        0x7339de140943cd01 => 240,
        0x5bf84120e08f4304 => 241,
        0x53b647583e15f281 => 242,
        0xfeb69f9b3b1df077 => 243,
        0x72ac96bfcd31b595 => 244,
        0xebc3e4a1f9275983 => 245,
        0x08acc23f56eb93cd => 246,
        0xb388eb788d528163 => 247,
        0x42b23792f54ffe45 => 248,
        0x1403773beea1c594 => 249,
        0x5abd65e2c0e77407 => 250,
        0x01772ea4082d4aa7 => 251,
        0x48d73e9a3fa1ab82 => 252,
        0x7b1e97d8bd837c38 => 253,
        0x53034bc3f77c72e4 => 254,
        0x034874dc7eb02fdb => 255,
        _ => 256,
    }
}

proof fn lemma_zero_input_length_1_blocks(n: nat)
    requires
        0 <= n <= 16,
    ensures
        zero_input_length(zero_input_hash(n)) == n,
{
    reveal_with_fuel(zero_block_steps, 2);
    lemma_zero_hashes_1_blocks();
    assert(
        n == 0 || n == 1 || n == 2 || n == 3 || n == 4 || n == 5 || n == 6 || n == 7 ||
        n == 8 || n == 9 || n == 10 || n == 11 || n == 12 || n == 13 || n == 14 || n == 15 ||
        n == 16
    );
}

proof fn lemma_zero_input_length_2_blocks(n: nat)
    requires
        17 <= n <= 32,
    ensures
        zero_input_length(zero_input_hash(n)) == n,
{
    reveal_with_fuel(zero_block_steps, 3);
    lemma_zero_hashes_2_blocks();
    assert(
        n == 17 || n == 18 || n == 19 || n == 20 || n == 21 || n == 22 || n == 23 || n == 24 ||
        n == 25 || n == 26 || n == 27 || n == 28 || n == 29 || n == 30 || n == 31 || n == 32
    );
}

proof fn lemma_zero_input_length_3_blocks(n: nat)
    requires
        33 <= n <= 48,
    ensures
        zero_input_length(zero_input_hash(n)) == n,
{
    reveal_with_fuel(zero_block_steps, 4);
    lemma_zero_hashes_3_blocks();
    assert(
        n == 33 || n == 34 || n == 35 || n == 36 || n == 37 || n == 38 || n == 39 || n == 40 ||
        n == 41 || n == 42 || n == 43 || n == 44 || n == 45 || n == 46 || n == 47 || n == 48
    );
}

proof fn lemma_zero_input_length_4_blocks(n: nat)
    requires
        49 <= n <= 64,
    ensures
        zero_input_length(zero_input_hash(n)) == n,
{
    reveal_with_fuel(zero_block_steps, 5);
    lemma_zero_hashes_4_blocks();
    assert(
        n == 49 || n == 50 || n == 51 || n == 52 || n == 53 || n == 54 || n == 55 || n == 56 ||
        n == 57 || n == 58 || n == 59 || n == 60 || n == 61 || n == 62 || n == 63 || n == 64
    );
}

proof fn lemma_zero_input_length_5_blocks(n: nat)
    requires
        65 <= n <= 80,
    ensures
        zero_input_length(zero_input_hash(n)) == n,
{
    reveal_with_fuel(zero_block_steps, 6);
    lemma_zero_hashes_5_blocks();
    assert(
        n == 65 || n == 66 || n == 67 || n == 68 || n == 69 || n == 70 || n == 71 || n == 72 ||
        n == 73 || n == 74 || n == 75 || n == 76 || n == 77 || n == 78 || n == 79 || n == 80
    );
}

proof fn lemma_zero_input_length_6_blocks(n: nat)
    requires
        81 <= n <= 96,
    ensures
        zero_input_length(zero_input_hash(n)) == n,
{
    reveal_with_fuel(zero_block_steps, 7);
    lemma_zero_hashes_6_blocks();
    assert(
        n == 81 || n == 82 || n == 83 || n == 84 || n == 85 || n == 86 || n == 87 || n == 88 ||
        n == 89 || n == 90 || n == 91 || n == 92 || n == 93 || n == 94 || n == 95 || n == 96
    );
}

proof fn lemma_zero_input_length_7_blocks(n: nat)
    requires
        97 <= n <= 112,
    ensures
        zero_input_length(zero_input_hash(n)) == n,
{
    reveal_with_fuel(zero_block_steps, 8);
    lemma_zero_hashes_7_blocks();
    assert(
        n == 97 || n == 98 || n == 99 || n == 100 || n == 101 || n == 102 || n == 103 || n == 104 ||
        n == 105 || n == 106 || n == 107 || n == 108 || n == 109 || n == 110 || n == 111 || n == 112
    );
}

proof fn lemma_zero_input_length_8_blocks(n: nat)
    requires
        113 <= n <= 128,
    ensures
        zero_input_length(zero_input_hash(n)) == n,
{
    reveal_with_fuel(zero_block_steps, 9);
    lemma_zero_hashes_8_blocks();
    assert(
        n == 113 || n == 114 || n == 115 || n == 116 || n == 117 || n == 118 || n == 119 || n == 120 ||
        n == 121 || n == 122 || n == 123 || n == 124 || n == 125 || n == 126 || n == 127 || n == 128
    );
}

proof fn lemma_zero_input_length_9_blocks(n: nat)
    requires
        129 <= n <= 144,
    ensures
        zero_input_length(zero_input_hash(n)) == n,
{
    reveal_with_fuel(zero_block_steps, 10);
    lemma_zero_hashes_9_blocks();
    assert(
        n == 129 || n == 130 || n == 131 || n == 132 || n == 133 || n == 134 || n == 135 || n == 136 ||
        n == 137 || n == 138 || n == 139 || n == 140 || n == 141 || n == 142 || n == 143 || n == 144
    );
}

proof fn lemma_zero_input_length_10_blocks(n: nat)
    requires
        145 <= n <= 160,
    ensures
        zero_input_length(zero_input_hash(n)) == n,
{
    reveal_with_fuel(zero_block_steps, 11);
    lemma_zero_hashes_10_blocks();
    assert(
        n == 145 || n == 146 || n == 147 || n == 148 || n == 149 || n == 150 || n == 151 || n == 152 ||
        n == 153 || n == 154 || n == 155 || n == 156 || n == 157 || n == 158 || n == 159 || n == 160
    );
}

proof fn lemma_zero_input_length_11_blocks(n: nat)
    requires
        161 <= n <= 176,
    ensures
        zero_input_length(zero_input_hash(n)) == n,
{
    reveal_with_fuel(zero_block_steps, 12);
    lemma_zero_hashes_11_blocks();
    assert(
        n == 161 || n == 162 || n == 163 || n == 164 || n == 165 || n == 166 || n == 167 || n == 168 ||
        n == 169 || n == 170 || n == 171 || n == 172 || n == 173 || n == 174 || n == 175 || n == 176
    );
}

proof fn lemma_zero_input_length_12_blocks(n: nat)
    requires
        177 <= n <= 192,
    ensures
        zero_input_length(zero_input_hash(n)) == n,
{
    reveal_with_fuel(zero_block_steps, 13);
    lemma_zero_hashes_12_blocks();
    assert(
        n == 177 || n == 178 || n == 179 || n == 180 || n == 181 || n == 182 || n == 183 || n == 184 ||
        n == 185 || n == 186 || n == 187 || n == 188 || n == 189 || n == 190 || n == 191 || n == 192
    );
}

proof fn lemma_zero_input_length_13_blocks(n: nat)
    requires
        193 <= n <= 208,
    ensures
        zero_input_length(zero_input_hash(n)) == n,
{
    reveal_with_fuel(zero_block_steps, 14);
    lemma_zero_hashes_13_blocks();
    assert(
        n == 193 || n == 194 || n == 195 || n == 196 || n == 197 || n == 198 || n == 199 || n == 200 ||
        n == 201 || n == 202 || n == 203 || n == 204 || n == 205 || n == 206 || n == 207 || n == 208
    );
}

proof fn lemma_zero_input_length_14_blocks(n: nat)
    requires
        209 <= n <= 224,
    ensures
        zero_input_length(zero_input_hash(n)) == n,
{
    reveal_with_fuel(zero_block_steps, 15);
    lemma_zero_hashes_14_blocks();
    assert(
        n == 209 || n == 210 || n == 211 || n == 212 || n == 213 || n == 214 || n == 215 || n == 216 ||
        n == 217 || n == 218 || n == 219 || n == 220 || n == 221 || n == 222 || n == 223 || n == 224
    );
}

proof fn lemma_zero_input_length_15_blocks(n: nat)
    requires
        225 <= n <= 240,
    ensures
        zero_input_length(zero_input_hash(n)) == n,
{
    reveal_with_fuel(zero_block_steps, 16);
    lemma_zero_hashes_15_blocks();
    assert(
        n == 225 || n == 226 || n == 227 || n == 228 || n == 229 || n == 230 || n == 231 || n == 232 ||
        n == 233 || n == 234 || n == 235 || n == 236 || n == 237 || n == 238 || n == 239 || n == 240
    );
}

proof fn lemma_zero_input_length_16_blocks(n: nat)
    requires
        241 <= n <= 255,
    ensures
        zero_input_length(zero_input_hash(n)) == n,
{
    reveal_with_fuel(zero_block_steps, 17);
    lemma_zero_hashes_16_blocks();
    assert(
        n == 241 || n == 242 || n == 243 || n == 244 || n == 245 || n == 246 || n == 247 || n == 248 ||
        n == 249 || n == 250 || n == 251 || n == 252 || n == 253 || n == 254 || n == 255
    );
}

/// Each all-zero input of at most 255 bytes is recovered from its hash.
pub proof fn lemma_zero_input_length(n: nat)
    requires
        n <= 255,
    ensures
        zero_input_length(zero_input_hash(n)) == n,
{
    if n <= 16 {
        lemma_zero_input_length_1_blocks(n);
    } else if n <= 32 {
        lemma_zero_input_length_2_blocks(n);
    } else if n <= 48 {
        lemma_zero_input_length_3_blocks(n);
    } else if n <= 64 {
        lemma_zero_input_length_4_blocks(n);
    } else if n <= 80 {
        lemma_zero_input_length_5_blocks(n);
    } else if n <= 96 {
        lemma_zero_input_length_6_blocks(n);
    } else if n <= 112 {
        lemma_zero_input_length_7_blocks(n);
    } else if n <= 128 {
        lemma_zero_input_length_8_blocks(n);
    } else if n <= 144 {
        lemma_zero_input_length_9_blocks(n);
    } else if n <= 160 {
        lemma_zero_input_length_10_blocks(n);
    } else if n <= 176 {
        lemma_zero_input_length_11_blocks(n);
    } else if n <= 192 {
        lemma_zero_input_length_12_blocks(n);
    } else if n <= 208 {
        lemma_zero_input_length_13_blocks(n);
    } else if n <= 224 {
        lemma_zero_input_length_14_blocks(n);
    } else if n <= 240 {
        lemma_zero_input_length_15_blocks(n);
    } else {
        lemma_zero_input_length_16_blocks(n);
    }
}

/// No two all-zero inputs of distinct lengths up to 255 bytes hash alike:
/// the hash of an all-zero input identifies its length.
pub proof fn lemma_null_padding_distinct(n: nat, m: nat)
    requires
        n <= 255,
        m <= 255,
        n != m,
    ensures
        spec_hash_bytes(zeros(n)) != spec_hash_bytes(zeros(m)),
{
    lemma_hash_of_zeros(n);
    lemma_hash_of_zeros(m);
    lemma_zero_input_length(n);
    lemma_zero_input_length(m);
}

} // verus!
