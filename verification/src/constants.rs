use vstd::prelude::*;

verus! {

/// Fixed-point scale for the reward accumulator: `acc_reward_per_share` is
/// stored as reward value per share multiplied by this constant.
pub const PRECISION: u128 = 1_000_000_000_000;

/// Maximum performance fee in basis points (20% = 2000 bps).
pub const MAX_PERFORMANCE_FEE_BPS: u16 = 2000;

/// Basis-points denominator (100% = 10_000 bps).
pub const FEE_BPS_DENOMINATOR: u64 = 10_000;

} // verus!
