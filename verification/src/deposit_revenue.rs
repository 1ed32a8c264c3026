use vstd::prelude::*;

use vstd::arithmetic::div_mod::{
    lemma_fundamental_div_mod, lemma_mod_division_less_than_divisor,
};

use crate::constants::{FEE_BPS_DENOMINATOR, PRECISION};
use crate::error::ErrorCode;
use crate::vault::Vault;

verus! {

/// What a revenue deposit obliges the caller to transfer: the fee to the
/// treasury and the distributable part to the revenue balance.
#[derive(Clone, Copy, Debug, PartialEq, Eq, Structural)]
pub struct DepositOutcome {
    /// Performance fee skimmed for the treasury.
    pub fee: u64,
    /// What is left for the shareholders.
    pub distributable: u64,
}

/// The performance fee skimmed from `amount` at `fee_bps`:
/// `floor(amount * fee_bps / 10_000)`.
pub open spec fn spec_fee(amount: u64, fee_bps: u16) -> int {
    (amount as int) * (fee_bps as int) / (FEE_BPS_DENOMINATOR as int)
}

/// Revenue distribution: what `process_deposit_revenue` does, as a function
/// of state.
///
/// Skims the fee, scales the distributable amount by `PRECISION`, credits the
/// per-share increment to the accumulator and carries the sub-share remainder
/// forward, folding it back into the accumulator once it reaches one whole
/// unit per outstanding share.
pub open spec fn spec_deposit_revenue(v: Vault, amount: u64) -> Result<
    (Vault, DepositOutcome),
    ErrorCode,
> {
    if v.minted_shares == 0 {
        Err(ErrorCode::NoSharesMinted)
    } else if amount == 0 {
        Err(ErrorCode::InvalidRevenueAmount)
    } else {
        let fee = spec_fee(amount, v.performance_fee_bps);
        if amount - fee < 0 {
            Err(ErrorCode::Underflow)
        } else if v.total_fees_collected + fee > u64::MAX {
            Err(ErrorCode::Overflow)
        } else {
            let dist = amount - fee;
            let v1 = Vault {
                total_fees_collected: (v.total_fees_collected + fee) as u64,
                ..v
            };
            let outcome = DepositOutcome { fee: fee as u64, distributable: dist as u64 };
            if dist == 0 {
                Ok((v1, outcome))
            } else {
                let s = v.minted_shares as int;
                let scaled = dist * (PRECISION as int);
                let inc = scaled / s;
                let rem = scaled % s;
                if v.acc_reward_per_share + inc > u128::MAX {
                    Err(ErrorCode::Overflow)
                } else if v.reward_remainder + rem > u128::MAX {
                    Err(ErrorCode::Overflow)
                } else {
                    let acc1 = v.acc_reward_per_share + inc;
                    let r1 = v.reward_remainder + rem;
                    if r1 >= s {
                        if acc1 + r1 / s > u128::MAX {
                            Err(ErrorCode::Overflow)
                        } else {
                            Ok((
                                Vault {
                                    acc_reward_per_share: (acc1 + r1 / s) as u128,
                                    reward_remainder: (r1 % s) as u128,
                                    ..v1
                                },
                                outcome,
                            ))
                        }
                    } else {
                        Ok((
                            Vault {
                                acc_reward_per_share: acc1 as u128,
                                reward_remainder: r1 as u128,
                                ..v1
                            },
                            outcome,
                        ))
                    }
                }
            }
        }
    }
}

/// Distributes a revenue deposit of `amount` over the outstanding shares.
///
/// On success the caller must transfer the returned fee to the treasury and
/// the returned distributable amount into the revenue balance. The
/// accumulator and the fee counter never decrease, and at scaled precision no
/// value is lost: the accumulator credit plus the carried remainder accounts
/// for the distributable amount exactly, with the remainder left strictly
/// below one unit per outstanding share. On any error the vault is unchanged.
pub fn process_deposit_revenue(vault: &mut Vault, amount: u64) -> (r: Result<
    DepositOutcome,
    ErrorCode,
>)
    requires
        old(vault).wf(),
    ensures
        match spec_deposit_revenue(*old(vault), amount) {
            Ok((v2, o)) => r == Ok::<DepositOutcome, ErrorCode>(o) && *final(vault) == v2,
            Err(e) => r == Err::<DepositOutcome, ErrorCode>(e) && *final(vault) == *old(vault),
        },
        final(vault).wf(),
        final(vault).acc_reward_per_share >= old(vault).acc_reward_per_share,
        final(vault).total_fees_collected >= old(vault).total_fees_collected,
        final(vault).minted_shares == old(vault).minted_shares,
        final(vault).total_shares == old(vault).total_shares,
        r is Ok ==> (match r {
            Ok(o) => {
                &&& o.fee == spec_fee(amount, old(vault).performance_fee_bps)
                &&& o.fee + o.distributable == amount
                &&& (o.distributable > 0 ==> {
                    &&& final(vault).acc_reward_per_share * old(vault).minted_shares
                        + final(vault).reward_remainder
                        == old(vault).acc_reward_per_share * old(vault).minted_shares
                        + old(vault).reward_remainder + o.distributable * PRECISION
                    &&& final(vault).reward_remainder < old(vault).minted_shares
                })
            },
            Err(_) => true,
        }),
{
    if vault.minted_shares == 0 {
        return Err(ErrorCode::NoSharesMinted);
    }
    if amount == 0 {
        return Err(ErrorCode::InvalidRevenueAmount);
    }
    let s = vault.minted_shares;

    // fee = floor(amount * fee_bps / 10_000); the fee cap keeps both the
    // product and the fee itself in range.
    assert((amount as int) * (vault.performance_fee_bps as int) <= u128::MAX) by (nonlinear_arith)
        requires
            amount <= u64::MAX,
            vault.performance_fee_bps <= 2000,
    ;
    let prod: u128 = (amount as u128) * (vault.performance_fee_bps as u128);
    let fee128: u128 = prod / (FEE_BPS_DENOMINATOR as u128);
    assert(fee128 <= amount) by (nonlinear_arith)
        requires
            fee128 == (amount as int) * (vault.performance_fee_bps as int) / 10000,
            vault.performance_fee_bps <= 10000,
            amount >= 0,
    ;
    let fee: u64 = fee128 as u64;

    let new_fees = match vault.total_fees_collected.checked_add(fee) {
        None => { return Err(ErrorCode::Overflow) },
        Some(f) => f,
    };
    let dist: u64 = amount - fee;
    if dist == 0 {
        vault.total_fees_collected = new_fees;
        return Ok(DepositOutcome { fee, distributable: 0 });
    }

    // Scale by the fixed-point precision and split over the shares.
    let scaled: u128 = (dist as u128) * PRECISION;
    let inc: u128 = scaled / (s as u128);
    let rem: u128 = scaled % (s as u128);
    proof {
        lemma_fundamental_div_mod(scaled as int, s as int);
        lemma_mod_division_less_than_divisor(scaled as int, s as int);
    }

    let acc1 = match vault.acc_reward_per_share.checked_add(inc) {
        None => { return Err(ErrorCode::Overflow) },
        Some(a) => a,
    };
    let r1 = match vault.reward_remainder.checked_add(rem) {
        None => { return Err(ErrorCode::Overflow) },
        Some(x) => x,
    };

    let ghost old_acc = vault.acc_reward_per_share as int;
    let ghost old_rem = vault.reward_remainder as int;

    if r1 >= s as u128 {
        // Fold whole units per share back into the accumulator.
        let extra: u128 = r1 / (s as u128);
        let acc2 = match acc1.checked_add(extra) {
            None => { return Err(ErrorCode::Overflow) },
            Some(a) => a,
        };
        let r2: u128 = r1 % (s as u128);
        proof {
            lemma_fundamental_div_mod(r1 as int, s as int);
            lemma_mod_division_less_than_divisor(r1 as int, s as int);
            assert(acc2 * s + r2 == old_acc * s + old_rem + scaled) by (nonlinear_arith)
                requires
                    scaled == inc * s + rem,
                    r1 == extra * s + r2,
                    acc1 == old_acc + inc,
                    acc2 == acc1 + extra,
                    r1 == old_rem + rem,
            ;
        }
        vault.acc_reward_per_share = acc2;
        vault.reward_remainder = r2;
    } else {
        proof {
            assert(acc1 * s + r1 == old_acc * s + old_rem + scaled) by (nonlinear_arith)
                requires
                    scaled == inc * s + rem,
                    acc1 == old_acc + inc,
                    r1 == old_rem + rem,
            ;
        }
        vault.acc_reward_per_share = acc1;
        vault.reward_remainder = r1;
    }
    vault.total_fees_collected = new_fees;
    Ok(DepositOutcome { fee, distributable: dist })
}

} // verus!
