use vstd::prelude::*;

use crate::account_ref::AccountRef;
use crate::constants::MAX_PERFORMANCE_FEE_BPS;
use crate::error::ErrorCode;
use crate::vault::Vault;

verus! {

/// Fee update: what `process_update_performance_fee` does, as a function of
/// state.
pub open spec fn spec_update_performance_fee(
    v: Vault,
    caller: AccountRef,
    new_fee_bps: u16,
) -> Result<Vault, ErrorCode> {
    if v.spec_governance_disabled() {
        Err(ErrorCode::GovernanceDisabled)
    } else if caller != v.authority {
        Err(ErrorCode::Unauthorized)
    } else if new_fee_bps > MAX_PERFORMANCE_FEE_BPS {
        Err(ErrorCode::PerformanceFeeExceedsMax)
    } else {
        Ok(Vault { performance_fee_bps: new_fee_bps, ..v })
    }
}

/// Sets the performance fee, gated on the governance authority and capped at
/// 20%. Rejected outright once governance has been revoked. On any error the
/// vault is unchanged.
pub fn process_update_performance_fee(
    vault: &mut Vault,
    caller: AccountRef,
    new_fee_bps: u16,
) -> (r: Result<(), ErrorCode>)
    requires
        old(vault).wf(),
    ensures
        match spec_update_performance_fee(*old(vault), caller, new_fee_bps) {
            Ok(v2) => r == Ok::<(), ErrorCode>(()) && *final(vault) == v2,
            Err(e) => r == Err::<(), ErrorCode>(e) && *final(vault) == *old(vault),
        },
        final(vault).wf(),
        old(vault).spec_governance_disabled() ==> r == Err::<(), ErrorCode>(
            ErrorCode::GovernanceDisabled,
        ) && *final(vault) == *old(vault),
        final(vault).authority == old(vault).authority,
        final(vault).acc_reward_per_share == old(vault).acc_reward_per_share,
        final(vault).total_fees_collected == old(vault).total_fees_collected,
        final(vault).minted_shares == old(vault).minted_shares,
{
    if vault.is_governance_disabled() {
        return Err(ErrorCode::GovernanceDisabled);
    }
    if !(caller == vault.authority) {
        return Err(ErrorCode::Unauthorized);
    }
    if new_fee_bps > MAX_PERFORMANCE_FEE_BPS {
        return Err(ErrorCode::PerformanceFeeExceedsMax);
    }
    vault.performance_fee_bps = new_fee_bps;
    Ok(())
}

} // verus!
