use vstd::prelude::*;

use vstd::arithmetic::mul::lemma_mul_inequality;

use crate::account_ref::AccountRef;
use crate::constants::PRECISION;
use crate::error::ErrorCode;
use crate::settlement::{accumulated_reward, spec_settle};
use crate::settlement::settle_position;
use crate::user_stake::UserStake;
use crate::vault::Vault;

verus! {

/// What a redemption obliges the caller to do: pay the settled reward out of
/// the revenue balance, burn the shares, and pay the principal out of the
/// principal balance.
#[derive(Clone, Copy, Debug, PartialEq, Eq, Structural)]
pub struct RedeemOutcome {
    /// Reward settled on the full holding before it shrank.
    pub reward_paid: u64,
    /// Principal owed to the holder: `amount * price_per_share`.
    pub principal: u64,
}

/// Redemption: what `process_redeem_shares` does, as a function of state.
///
/// Settles the reward on the current quantity first — an early redeemer loses
/// no unclaimed revenue — then checks the principal is covered, shrinks the
/// holding and the outstanding shares, and takes a fresh checkpoint for the
/// reduced quantity.
pub open spec fn spec_redeem_shares(
    v: Vault,
    p: UserStake,
    caller: AccountRef,
    amount: u64,
    revenue_balance: u64,
    principal_balance: u64,
) -> Result<(Vault, UserStake, RedeemOutcome), ErrorCode> {
    if p.owner != caller {
        Err(ErrorCode::InvalidTokenAccountOwner)
    } else if amount == 0 {
        Err(ErrorCode::InvalidShareAmount)
    } else if p.quantity < amount {
        Err(ErrorCode::InsufficientShares)
    } else {
        match spec_settle(p, v.acc_reward_per_share, revenue_balance) {
            Err(e) => Err(e),
            Ok((p1, paid)) => {
                if amount * v.price_per_share > u64::MAX {
                    Err(ErrorCode::MathOverflow)
                } else {
                    let principal = (amount * v.price_per_share) as u64;
                    if principal_balance < principal {
                        Err(ErrorCode::InsufficientVaultBalance)
                    } else if v.minted_shares < amount {
                        Err(ErrorCode::Underflow)
                    } else {
                        let q2 = (p1.quantity - amount) as u64;
                        Ok((
                            (Vault { minted_shares: (v.minted_shares - amount) as u64, ..v }),
                            (UserStake {
                                quantity: q2,
                                reward_debt: accumulated_reward(q2, v.acc_reward_per_share) as u128,
                                ..p1
                            }),
                            (RedeemOutcome { reward_paid: paid, principal }),
                        ))
                    }
                }
            },
        }
    }
}

/// Redeems `amount` shares from the caller's position.
///
/// On success the caller must transfer the settled reward to the holder, burn
/// the shares, and pay the principal; the internal bookkeeping already
/// reflects the post-redemption truth, so a retried or duplicated external
/// step cannot double-pay. On any error both the vault and the position are
/// unchanged.
pub fn process_redeem_shares(
    vault: &mut Vault,
    shareholder: &mut UserStake,
    caller: AccountRef,
    amount: u64,
    revenue_balance: u64,
    principal_balance: u64,
) -> (r: Result<RedeemOutcome, ErrorCode>)
    requires
        old(vault).wf(),
    ensures
        match spec_redeem_shares(
            *old(vault),
            *old(shareholder),
            caller,
            amount,
            revenue_balance,
            principal_balance,
        ) {
            Ok((v2, p2, o)) => r == Ok::<RedeemOutcome, ErrorCode>(o) && *final(vault) == v2
                && *final(shareholder) == p2,
            Err(e) => r == Err::<RedeemOutcome, ErrorCode>(e) && *final(vault) == *old(vault)
                && *final(shareholder) == *old(shareholder),
        },
        final(vault).wf(),
        final(vault).minted_shares - old(vault).minted_shares == final(shareholder).quantity - old(
            shareholder,
        ).quantity,
        final(vault).acc_reward_per_share == old(vault).acc_reward_per_share,
        final(vault).total_fees_collected == old(vault).total_fees_collected,
        final(vault).total_shares == old(vault).total_shares,
        final(shareholder).owner == old(shareholder).owner,
        r is Ok ==> final(shareholder).quantity == old(shareholder).quantity - amount
            && final(shareholder).reward_debt == accumulated_reward(
            final(shareholder).quantity,
            final(vault).acc_reward_per_share,
        ),
        r is Ok ==> (match r {
            Ok(o) => o.principal == amount * old(vault).price_per_share,
            Err(_) => true,
        }),
{
    if !(shareholder.owner == caller) {
        return Err(ErrorCode::InvalidTokenAccountOwner);
    }
    if amount == 0 {
        return Err(ErrorCode::InvalidShareAmount);
    }
    if shareholder.quantity < amount {
        return Err(ErrorCode::InsufficientShares);
    }

    // Settle the reward on the full current holding; work on a scratch copy
    // so a later rejection leaves the position untouched.
    let mut settled = *shareholder;
    let paid = match settle_position(&mut settled, vault.acc_reward_per_share, revenue_balance) {
        Err(e) => { return Err(e) },
        Ok(x) => x,
    };

    let principal = match amount.checked_mul(vault.price_per_share) {
        None => { return Err(ErrorCode::MathOverflow) },
        Some(v) => v,
    };
    if principal_balance < principal {
        return Err(ErrorCode::InsufficientVaultBalance);
    }
    let new_minted = match vault.minted_shares.checked_sub(amount) {
        None => { return Err(ErrorCode::Underflow) },
        Some(v) => v,
    };

    let new_quantity: u64 = settled.quantity - amount;
    // The product for the old quantity stayed in range, so the product for
    // the smaller one does too.
    proof {
        lemma_mul_inequality(
            new_quantity as int,
            settled.quantity as int,
            vault.acc_reward_per_share as int,
        );
    }
    let full: u128 = (new_quantity as u128) * vault.acc_reward_per_share;
    let new_debt: u128 = full / PRECISION;

    vault.minted_shares = new_minted;
    settled.quantity = new_quantity;
    settled.reward_debt = new_debt;
    *shareholder = settled;
    Ok(RedeemOutcome { reward_paid: paid, principal })
}

} // verus!
