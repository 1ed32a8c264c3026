use vstd::prelude::*;

use crate::account_ref::AccountRef;
use crate::constants::MAX_PERFORMANCE_FEE_BPS;
use crate::error::ErrorCode;
use crate::vault::Vault;

verus! {

/// Creates a vault at pool genesis: no shares outstanding, an empty
/// accumulator, and governance held by the creator.
///
/// The fee cap is checked here so that every vault starts well-formed; every
/// operation preserves well-formedness from then on.
pub fn process_initialize_vault(
    owner: AccountRef,
    name: String,
    payment_mint: AccountRef,
    custodian: AccountRef,
    treasury: AccountRef,
    total_shares: u64,
    price_per_share: u64,
    performance_fee_bps: u16,
) -> (r: Result<Vault, ErrorCode>)
    ensures
        match r {
            Ok(v) => performance_fee_bps <= MAX_PERFORMANCE_FEE_BPS && v == (Vault {
                owner,
                name,
                payment_mint,
                custodian,
                treasury,
                authority: owner,
                total_shares,
                minted_shares: 0,
                price_per_share,
                acc_reward_per_share: 0,
                reward_remainder: 0,
                performance_fee_bps,
                total_fees_collected: 0,
            }) && v.wf(),
            Err(e) => performance_fee_bps > MAX_PERFORMANCE_FEE_BPS && e
                == ErrorCode::PerformanceFeeExceedsMax,
        },
{
    if performance_fee_bps > MAX_PERFORMANCE_FEE_BPS {
        return Err(ErrorCode::PerformanceFeeExceedsMax);
    }
    Ok(
        Vault {
            owner,
            name,
            payment_mint,
            custodian,
            treasury,
            authority: owner,
            total_shares,
            minted_shares: 0,
            price_per_share,
            acc_reward_per_share: 0,
            reward_remainder: 0,
            performance_fee_bps,
            total_fees_collected: 0,
        },
    )
}

} // verus!
