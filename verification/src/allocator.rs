//! Deterministic daily item allocator.
//!
//! Maps a user identity and a calendar day to an item number and a rarity
//! flag. The mapping is a pure function of its two arguments: calling it any
//! number of times, in any order, from any task, yields the same pair. That
//! determinism is the whole correctness mechanism here — it replaces a
//! shared "first caller of the day wins" cache and so needs no locking.
//!
//! The user identity and the day are folded into a 64-bit hash one field at
//! a time, so the combination is order-sensitive: hashing the user before
//! the day differs from the reverse, which keeps collisions across users
//! sharing a date uncorrelated.

use vstd::prelude::*;
use crate::dates::Date;

verus! {

/// Number of distinct items an allocation can name by default.
pub const ITEM_SPACE_SIZE: u64 = 1010;

/// One in this many allocations is rare by default.
pub const RARITY_DENOMINATOR: u64 = 400;

/// Seed the field folding starts from (the 64-bit golden ratio constant).
pub const HASH_SEED: u64 = 0x9e37_79b9_7f4a_7c15;

/// Errors rejected when the allocator is configured, before any allocation.
#[derive(Clone, Copy, PartialEq, Eq, Structural, Debug)]
pub enum AllocatorConfigError {
    ZeroItemSpace,
    ZeroRarityDenominator,
}

/// A finalizer in the style of splitmix64: two xor-shift-multiply rounds and
/// a closing xor-shift.
pub open spec fn spec_mix64(z: u64) -> u64 {
    let a = (z ^ (z >> 30u64)).wrapping_mul(0xbf58_476d_1ce4_e5b9u64);
    let b = (a ^ (a >> 27u64)).wrapping_mul(0x94d0_49bb_1331_11ebu64);
    b ^ (b >> 31u64)
}

/// The order-sensitive fold of a user identity and a date into 64 bits.
pub open spec fn spec_user_day_hash(user_id: i64, d: Date) -> u64 {
    let h1 = spec_mix64(HASH_SEED ^ (user_id as u64));
    let h2 = spec_mix64(h1 ^ (d.year as u64));
    let h3 = spec_mix64(h2 ^ (d.month as u64));
    spec_mix64(h3 ^ (d.day as u64))
}

/// Executable counterpart of `spec_mix64`.
fn mix64(z: u64) -> (r: u64)
    ensures
        r == spec_mix64(z),
{
    let a = (z ^ (z >> 30u64)).wrapping_mul(0xbf58_476d_1ce4_e5b9u64);
    let b = (a ^ (a >> 27u64)).wrapping_mul(0x94d0_49bb_1331_11ebu64);
    b ^ (b >> 31u64)
}

/// Executable counterpart of `spec_user_day_hash`.
pub fn user_day_hash(user_id: i64, d: Date) -> (r: u64)
    ensures
        r == spec_user_day_hash(user_id, d),
{
    let h1 = mix64(HASH_SEED ^ (user_id as u64));
    let h2 = mix64(h1 ^ (d.year as u64));
    let h3 = mix64(h2 ^ (d.month as u64));
    mix64(h3 ^ (d.day as u64))
}

/// The allocator's two configuration constants, checked once at startup.
#[derive(Clone, Copy, PartialEq, Eq, Structural, Debug)]
pub struct AllocatorConfig {
    pub item_space_size: u64,
    pub rarity_denominator: u64,
}

impl AllocatorConfig {
    /// Both divisors are nonzero, so no allocation can divide by zero.
    pub open spec fn well_formed(self) -> bool {
        self.item_space_size >= 1 && self.rarity_denominator >= 1
    }

    /// Builds a configuration, rejecting a zero divisor up front so that no
    /// later allocation can fail.
    pub fn new(item_space_size: u64, rarity_denominator: u64) -> (r: Result<
        AllocatorConfig,
        AllocatorConfigError,
    >)
        ensures
            r matches Ok(c) ==> c == (AllocatorConfig { item_space_size, rarity_denominator })
                && c.well_formed(),
            r is Ok <==> item_space_size >= 1 && rarity_denominator >= 1,
            r == Err::<AllocatorConfig, _>(AllocatorConfigError::ZeroItemSpace) <==> item_space_size
                == 0,
            r == Err::<AllocatorConfig, _>(AllocatorConfigError::ZeroRarityDenominator) <==> (
            item_space_size >= 1 && rarity_denominator == 0),
    {
        if item_space_size == 0 {
            Err(AllocatorConfigError::ZeroItemSpace)
        } else if rarity_denominator == 0 {
            Err(AllocatorConfigError::ZeroRarityDenominator)
        } else {
            Ok(AllocatorConfig { item_space_size, rarity_denominator })
        }
    }

    /// What `allocate` returns, as a pure function of the configuration, the
    /// user and the day. Determinism of the allocator is exactly this: the
    /// executable function is pinned to this value.
    pub open spec fn spec_allocate(self, user_id: i64, d: Date) -> (u64, bool)
        recommends
            self.well_formed(),
    {
        let h = spec_user_day_hash(user_id, d);
        (((h % self.item_space_size + 1) as u64), (h >> 10u64) % self.rarity_denominator == 0)
    }

    /// Law: the allocation is a pure function of the configuration, the
    /// user and the day alone. Two calls with equal inputs give equal
    /// results, however often and from wherever they are made; `allocate`
    /// is pinned to this value by its contract.
    pub proof fn lemma_allocate_deterministic(
        c1: AllocatorConfig,
        c2: AllocatorConfig,
        u1: i64,
        u2: i64,
        d1: Date,
        d2: Date,
    )
        requires
            c1 == c2,
            u1 == u2,
            d1 == d2,
        ensures
            c1.spec_allocate(u1, d1) == c2.spec_allocate(u2, d2),
    {
    }

    /// Allocates the daily item for `user_id` on day `d`: an item number in
    /// `1 ..= item_space_size` and a rarity flag. Pure and total; repeated
    /// calls on the same arguments return the identical pair.
    pub fn allocate(&self, user_id: i64, d: Date) -> (r: (u64, bool))
        requires
            self.well_formed(),
        ensures
            r == self.spec_allocate(user_id, d),
            1 <= r.0 <= self.item_space_size,
    {
        let h = user_day_hash(user_id, d);
        let item_id = h % self.item_space_size + 1;
        let rare = (h >> 10u64) % self.rarity_denominator == 0;
        (item_id, rare)
    }
}

} // verus!
