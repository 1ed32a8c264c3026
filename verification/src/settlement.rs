use vstd::prelude::*;

use crate::constants::PRECISION;
use crate::error::ErrorCode;
use crate::user_stake::UserStake;

verus! {

/// The reward the accumulator attributes to `quantity` shares:
/// `floor(quantity * acc / PRECISION)`.
pub open spec fn accumulated_reward(quantity: u64, acc: u128) -> int {
    (quantity as int) * (acc as int) / (PRECISION as int)
}

/// The reward a position is owed beyond its checkpoint.
pub open spec fn pending_reward(p: UserStake, acc: u128) -> int {
    accumulated_reward(p.quantity, acc) - p.reward_debt
}

/// Reward settlement: what `settle_position` does, as a function of state.
///
/// Computes the pending reward, checks the revenue balance can pay it, and
/// advances the checkpoint to the current accumulated value — also on a no-op
/// claim, so the checkpoint never drifts. On success the result is the
/// settled position and the amount to pay the holder.
pub open spec fn spec_settle(p: UserStake, acc: u128, revenue_balance: u64) -> Result<
    (UserStake, u64),
    ErrorCode,
> {
    if (p.quantity as int) * (acc as int) > u128::MAX {
        Err(ErrorCode::Overflow)
    } else {
        let accumulated = accumulated_reward(p.quantity, acc);
        if accumulated < p.reward_debt {
            Err(ErrorCode::Underflow)
        } else {
            let pending = accumulated - p.reward_debt;
            if pending == 0 {
                Ok(((UserStake { reward_debt: accumulated as u128, ..p }), 0u64))
            } else if pending > u64::MAX {
                Err(ErrorCode::Overflow)
            } else if (revenue_balance as int) < pending {
                Err(ErrorCode::InsufficientVaultBalance)
            } else {
                Ok(((UserStake { reward_debt: accumulated as u128, ..p }), pending as u64))
            }
        }
    }
}

/// Settles the pending reward of `p` against the accumulator `acc`.
///
/// Returns the amount the caller must now transfer to the holder out of the
/// revenue balance (possibly zero). The checkpoint is advanced before the
/// transfer is issued, so a repeated or re-entered payout step cannot pay
/// twice. A pending reward below zero marks a prior bookkeeping fault and is
/// rejected; a valid history never produces it.
pub fn settle_position(p: &mut UserStake, acc: u128, revenue_balance: u64) -> (r: Result<
    u64,
    ErrorCode,
>)
    ensures
        match spec_settle(*old(p), acc, revenue_balance) {
            Ok((p2, paid)) => r == Ok::<u64, ErrorCode>(paid) && *final(p) == p2,
            Err(e) => r == Err::<u64, ErrorCode>(e) && *final(p) == *old(p),
        },
        r is Ok ==> final(p).reward_debt == accumulated_reward(old(p).quantity, acc)
            && pending_reward(*final(p), acc) == 0,
        final(p).owner == old(p).owner && final(p).quantity == old(p).quantity,
{
    let full = match (p.quantity as u128).checked_mul(acc) {
        None => { return Err(ErrorCode::Overflow) },
        Some(v) => v,
    };
    let accumulated = full / PRECISION;
    let pending = match accumulated.checked_sub(p.reward_debt) {
        None => { return Err(ErrorCode::Underflow) },
        Some(v) => v,
    };
    if pending == 0 {
        p.reward_debt = accumulated;
        Ok(0)
    } else if pending > u64::MAX as u128 {
        Err(ErrorCode::Overflow)
    } else if (revenue_balance as u128) < pending {
        Err(ErrorCode::InsufficientVaultBalance)
    } else {
        p.reward_debt = accumulated;
        Ok(pending as u64)
    }
}

} // verus!
