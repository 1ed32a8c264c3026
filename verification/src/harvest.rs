use vstd::prelude::*;

use crate::account_ref::AccountRef;
use crate::error::ErrorCode;
use crate::settlement::{accumulated_reward, pending_reward, spec_settle};
use crate::settlement::settle_position;
use crate::user_stake::UserStake;
use crate::vault::Vault;

verus! {

/// Harvest: what `process_harvest` does, as a function of state.
///
/// An ownership check followed by pure reward settlement; the position's
/// quantity and the vault are untouched.
pub open spec fn spec_harvest(
    v: Vault,
    p: UserStake,
    caller: AccountRef,
    revenue_balance: u64,
) -> Result<(UserStake, u64), ErrorCode> {
    if p.owner != caller {
        Err(ErrorCode::InvalidTokenAccountOwner)
    } else {
        spec_settle(p, v.acc_reward_per_share, revenue_balance)
    }
}

/// Pays out the reward pending on `shareholder` without changing its
/// quantity.
///
/// On success the result is the amount the caller must now transfer from the
/// revenue balance to the holder — possibly zero, in which case nothing but
/// the checkpoint moves. A second harvest with no intervening revenue deposit
/// succeeds and pays exactly zero, because the checkpoint already equals the
/// accumulated value. On any error the position is unchanged.
pub fn process_harvest(
    vault: &Vault,
    shareholder: &mut UserStake,
    caller: AccountRef,
    revenue_balance: u64,
) -> (r: Result<u64, ErrorCode>)
    ensures
        match spec_harvest(*vault, *old(shareholder), caller, revenue_balance) {
            Ok((p2, paid)) => r == Ok::<u64, ErrorCode>(paid) && *final(shareholder) == p2,
            Err(e) => r == Err::<u64, ErrorCode>(e) && *final(shareholder) == *old(shareholder),
        },
        r is Ok ==> final(shareholder).reward_debt == accumulated_reward(
            old(shareholder).quantity,
            vault.acc_reward_per_share,
        ) && pending_reward(*final(shareholder), vault.acc_reward_per_share) == 0,
        final(shareholder).owner == old(shareholder).owner && final(shareholder).quantity == old(
            shareholder,
        ).quantity,
{
    if !(shareholder.owner == caller) {
        return Err(ErrorCode::InvalidTokenAccountOwner);
    }
    settle_position(shareholder, vault.acc_reward_per_share, revenue_balance)
}

} // verus!
