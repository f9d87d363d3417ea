//! Keys from which hashers are built.

use vstd::prelude::*;

use crate::fallback_hash::AHasher;

verus! {

/// The fixed constants (digits of pi) that the seeds are combined with.
pub const PI2_0: u64 = 0x4528_21e6_38d0_1377;
pub const PI2_1: u64 = 0xbe54_66cf_34e9_0c6c;
pub const PI2_2: u64 = 0xc0ac_29b7_c97c_50dd;
pub const PI2_3: u64 = 0x3f84_d5b5_b547_0917;

/// Four keys; every hasher built from the same keys hashes alike.
pub struct RandomState {
    pub k0: u64,
    pub k1: u64,
    pub k2: u64,
    pub k3: u64,
}

/// The keys that `with_seeds` makes of the four seeds.
pub open spec fn spec_with_seeds(k0: u64, k1: u64, k2: u64, k3: u64) -> RandomState {
    RandomState { k0: k0 ^ PI2_0, k1: k1 ^ PI2_1, k2: k2 ^ PI2_2, k3: k3 ^ PI2_3 }
}

/// The hasher that a set of keys starts: the buffer from `k1`, the pad from
/// `k0`, the extra keys from `k2` and `k3`.
pub open spec fn spec_hasher_from(s: RandomState) -> AHasher {
    AHasher { buffer: s.k1, pad: s.k0, extra_keys: [s.k2, s.k3] }
}

impl RandomState {
    /// Keys from explicit seeds, each combined with a fixed constant so that
    /// zero seeds still give non-zero keys.
    pub fn with_seeds(k0: u64, k1: u64, k2: u64, k3: u64) -> (s: RandomState)
        ensures
            s == spec_with_seeds(k0, k1, k2, k3),
    {
        RandomState { k0: k0 ^ PI2_0, k1: k1 ^ PI2_1, k2: k2 ^ PI2_2, k3: k3 ^ PI2_3 }
    }

    /// A fresh hasher with these keys.
    pub fn build_hasher(&self) -> (h: AHasher)
        ensures
            h == spec_hasher_from(*self),
    {
        AHasher::from_random_state(self)
    }
}

impl AHasher {
    pub fn from_random_state(rand_state: &RandomState) -> (h: AHasher)
        ensures
            h == spec_hasher_from(*rand_state),
    {
        AHasher { buffer: rand_state.k1, pad: rand_state.k0, extra_keys: [rand_state.k2, rand_state.k3] }
    }
}

} // verus!
