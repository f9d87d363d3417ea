//! Deterministic property checks of the hasher. Each `property_*` function
//! takes owned concrete inputs and returns a `PropertyResult`; it never panics.

use vstd::prelude::*;

use crate::fallback_hash::{spec_finish, spec_write};
use crate::operations::zeros;
use crate::zero_inputs::lemma_null_padding_distinct;
use crate::random_state::{spec_hasher_from, spec_with_seeds, RandomState};
use crate::text::{push_decimal, push_hex, spec_decimal, spec_hex_prefixed};

verus! {

/// The verdict of one property check.
#[derive(Debug, Clone, PartialEq, Eq)]
pub enum PropertyResult {
    Pass,
    Fail(String),
    Discard,
}

/// The hash of `bytes` under the hasher built from the seeds (0, 0, 0, 0).
pub open spec fn spec_hash_bytes(bytes: Seq<u8>) -> u64 {
    spec_finish(spec_write(spec_hasher_from(spec_with_seeds(0, 0, 0, 0)), bytes))
}

/// The report of a collision between the all-zero inputs of lengths `n` and `m`.
pub open spec fn spec_collision_message(n: u8, m: u8, h: u64) -> Seq<char> {
    "hash([0u8; "@ + spec_decimal(n as nat) + "]) == hash([0u8; "@ + spec_decimal(m as nat)
        + "]) == "@ + spec_hex_prefixed(h as nat)
}

/// Hashes `bytes` with the hasher built from the seeds (0, 0, 0, 0). This is
/// the portable hasher with the 128-bit folded multiply, the one aHash uses on
/// 64-bit targets without AES instructions; the AES hasher and the 32-bit
/// folded multiply are not part of this crate, so on an AES-enabled target aHash
/// itself gives other values.
pub fn hash_bytes(bytes: &[u8]) -> (h: u64)
    ensures
        h == spec_hash_bytes(bytes@),
{
    let state = RandomState::with_seeds(0, 0, 0, 0);
    let mut hasher = state.build_hasher();
    hasher.write(bytes);
    hasher.finish()
}

/// `hash([0u8; <n>]) == hash([0u8; <m>]) == 0x<h in hexadecimal>`.
pub fn collision_message(n: u8, m: u8, h: u64) -> (msg: String)
    ensures
        msg@ == spec_collision_message(n, m, h),
{
    let mut msg = String::new();
    msg.append("hash([0u8; ");
    push_decimal(&mut msg, n as u128);
    msg.append("]) == hash([0u8; ");
    push_decimal(&mut msg, m as u128);
    msg.append("]) == 0x");
    push_hex(&mut msg, h as u128);
    proof {
        reveal_strlit("]) == 0x");
        reveal_strlit("]) == ");
    }
    msg
}

/// `hash([0u8; n]) != hash([0u8; m])` for distinct `n` and `m`: equal lengths
/// are discarded; a collision fails with a message naming both lengths and
/// the shared hash.
pub fn property_null_padding_distinct(args: (u8, u8)) -> (r: PropertyResult)
    ensures
        r is Discard <==> args.0 == args.1,
        r is Fail <==> args.0 != args.1 && spec_hash_bytes(zeros(args.0 as nat))
            == spec_hash_bytes(zeros(args.1 as nat)),
        r is Pass <==> args.0 != args.1 && spec_hash_bytes(zeros(args.0 as nat))
            != spec_hash_bytes(zeros(args.1 as nat)),
        args.0 != args.1 ==> r is Pass,
        r matches PropertyResult::Fail(msg) ==> msg@ == spec_collision_message(
            args.0,
            args.1,
            spec_hash_bytes(zeros(args.0 as nat)),
        ),
{
    let (n, m) = args;
    proof {
        if n != m {
            lemma_null_padding_distinct(n as nat, m as nat);
        }
    }
    if n == m {
        return PropertyResult::Discard;
    }
    let v1 = vec![0u8; n as usize];
    let v2 = vec![0u8; m as usize];
    assert(v1@ =~= zeros(n as nat));
    assert(v2@ =~= zeros(m as nat));
    let h1 = hash_bytes(v1.as_slice());
    let h2 = hash_bytes(v2.as_slice());
    if h1 == h2 {
        PropertyResult::Fail(collision_message(n, m, h1))
    } else {
        PropertyResult::Pass
    }
}

} // verus!
