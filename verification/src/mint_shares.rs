use vstd::prelude::*;

use crate::account_ref::AccountRef;
use crate::constants::PRECISION;
use crate::error::ErrorCode;
use crate::settlement::{accumulated_reward, spec_settle};
use crate::settlement::settle_position;
use crate::user_stake::UserStake;
use crate::vault::Vault;

verus! {

/// What a share issuance obliges the caller to do: pay the reward pending on
/// the old holding out of the revenue balance, collect the cost from the
/// buyer, and mint the shares.
#[derive(Clone, Copy, Debug, PartialEq, Eq, Structural)]
pub struct MintOutcome {
    /// Reward settled on the holding as it was before this issuance.
    pub reward_paid: u64,
    /// Principal owed by the buyer: `amount * price_per_share`.
    pub cost: u64,
}

/// Share issuance: what `process_mint_shares` does, as a function of state.
///
/// Validates the amount against the capacity, settles the pending reward on
/// the existing holding — before the new shares exist, so they capture
/// nothing accrued earlier — then issues the shares and takes a fresh
/// checkpoint for the enlarged holding.
pub open spec fn spec_mint_shares(
    v: Vault,
    p: UserStake,
    caller: AccountRef,
    amount: u64,
    revenue_balance: u64,
) -> Result<(Vault, UserStake, MintOutcome), ErrorCode> {
    if amount == 0 {
        Err(ErrorCode::InvalidShareAmount)
    } else if p.owner != caller {
        Err(ErrorCode::InvalidTokenAccountOwner)
    } else if v.minted_shares + amount > u64::MAX {
        Err(ErrorCode::Overflow)
    } else if v.minted_shares + amount > v.total_shares {
        Err(ErrorCode::ExceedsTotalSupply)
    } else if amount * v.price_per_share > u64::MAX {
        Err(ErrorCode::MathOverflow)
    } else {
        let cost = (amount * v.price_per_share) as u64;
        let settled: Result<(UserStake, u64), ErrorCode> = if p.quantity > 0 {
            spec_settle(p, v.acc_reward_per_share, revenue_balance)
        } else {
            Ok((p, 0u64))
        };
        match settled {
            Err(e) => Err(e),
            Ok((p1, paid)) => {
                if p1.quantity + amount > u64::MAX {
                    Err(ErrorCode::Overflow)
                } else {
                    let q2 = (p1.quantity + amount) as u64;
                    if (q2 as int) * (v.acc_reward_per_share as int) > u128::MAX {
                        Err(ErrorCode::Overflow)
                    } else {
                        Ok((
                            (Vault { minted_shares: (v.minted_shares + amount) as u64, ..v }),
                            (UserStake {
                                quantity: q2,
                                reward_debt: accumulated_reward(q2, v.acc_reward_per_share) as u128,
                                ..p1
                            }),
                            (MintOutcome { reward_paid: paid, cost }),
                        ))
                    }
                }
            },
        }
    }
}

/// Issues `amount` shares to the caller's position.
///
/// On success the caller must transfer the settled reward to the holder, the
/// cost from the buyer into the principal balance, and mint the shares; the
/// internal bookkeeping already reflects the issuance. The reward on the old
/// holding is settled before the quantity grows, so new shares never capture
/// revenue deposited before they existed. On any error both the vault and the
/// position are unchanged.
pub fn process_mint_shares(
    vault: &mut Vault,
    shareholder: &mut UserStake,
    caller: AccountRef,
    amount: u64,
    revenue_balance: u64,
) -> (r: Result<MintOutcome, ErrorCode>)
    requires
        old(vault).wf(),
    ensures
        match spec_mint_shares(*old(vault), *old(shareholder), caller, amount, revenue_balance) {
            Ok((v2, p2, o)) => r == Ok::<MintOutcome, ErrorCode>(o) && *final(vault) == v2
                && *final(shareholder) == p2,
            Err(e) => r == Err::<MintOutcome, ErrorCode>(e) && *final(vault) == *old(vault)
                && *final(shareholder) == *old(shareholder),
        },
        final(vault).wf(),
        final(vault).minted_shares - old(vault).minted_shares == final(shareholder).quantity - old(
            shareholder,
        ).quantity,
        final(vault).acc_reward_per_share == old(vault).acc_reward_per_share,
        final(vault).total_fees_collected == old(vault).total_fees_collected,
        final(vault).total_shares == old(vault).total_shares,
        final(shareholder).owner == old(shareholder).owner,
        r is Ok ==> final(shareholder).quantity == old(shareholder).quantity + amount
            && final(shareholder).reward_debt == accumulated_reward(
            final(shareholder).quantity,
            final(vault).acc_reward_per_share,
        ),
        r is Ok ==> (match r {
            Ok(o) => o.cost == amount * old(vault).price_per_share,
            Err(_) => true,
        }),
{
    if amount == 0 {
        return Err(ErrorCode::InvalidShareAmount);
    }
    if !(shareholder.owner == caller) {
        return Err(ErrorCode::InvalidTokenAccountOwner);
    }
    let new_minted = match vault.minted_shares.checked_add(amount) {
        None => { return Err(ErrorCode::Overflow) },
        Some(v) => v,
    };
    if new_minted > vault.total_shares {
        return Err(ErrorCode::ExceedsTotalSupply);
    }
    let cost = match amount.checked_mul(vault.price_per_share) {
        None => { return Err(ErrorCode::MathOverflow) },
        Some(v) => v,
    };

    // Settle the reward pending on the holding as it stands now; work on a
    // scratch copy so a later rejection leaves the position untouched.
    let mut settled = *shareholder;
    let paid: u64 = if settled.quantity > 0 {
        match settle_position(&mut settled, vault.acc_reward_per_share, revenue_balance) {
            Err(e) => { return Err(e) },
            Ok(x) => x,
        }
    } else {
        0
    };

    let new_quantity = match settled.quantity.checked_add(amount) {
        None => { return Err(ErrorCode::Overflow) },
        Some(v) => v,
    };
    let full = match (new_quantity as u128).checked_mul(vault.acc_reward_per_share) {
        None => { return Err(ErrorCode::Overflow) },
        Some(v) => v,
    };
    let new_debt: u128 = full / PRECISION;

    vault.minted_shares = new_minted;
    settled.quantity = new_quantity;
    settled.reward_debt = new_debt;
    *shareholder = settled;
    Ok(MintOutcome { reward_paid: paid, cost })
}

} // verus!
