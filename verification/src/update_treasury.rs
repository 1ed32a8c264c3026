use vstd::prelude::*;

use crate::account_ref::AccountRef;
use crate::error::ErrorCode;
use crate::vault::Vault;

verus! {

/// A proposed treasury account, with the facts the capital-segregation check
/// reads: who controls it and which mint it holds.
#[derive(Clone, Copy, Debug, PartialEq, Eq, Structural)]
pub struct TreasuryCandidate {
    /// Address of the proposed treasury account.
    pub account: AccountRef,
    /// Controlling authority of the proposed account.
    pub owner: AccountRef,
    /// Mint of the value the proposed account holds.
    pub mint: AccountRef,
}

/// Treasury update: what `process_update_treasury` does, as a function of
/// state.
///
/// The new treasury must be bound to the same custodian as the principal and
/// revenue balances and use the vault's payment mint, so fees can never be
/// redirected to an arbitrary external party.
pub open spec fn spec_update_treasury(
    v: Vault,
    caller: AccountRef,
    candidate: TreasuryCandidate,
) -> Result<Vault, ErrorCode> {
    if v.spec_governance_disabled() {
        Err(ErrorCode::GovernanceDisabled)
    } else if caller != v.authority {
        Err(ErrorCode::Unauthorized)
    } else if candidate.owner != v.custodian || candidate.mint != v.payment_mint {
        Err(ErrorCode::InvalidTreasury)
    } else {
        Ok(Vault { treasury: candidate.account, ..v })
    }
}

/// Redirects performance fees to a new treasury, gated on the governance
/// authority and on capital segregation. Rejected outright once governance
/// has been revoked. On any error the vault is unchanged.
pub fn process_update_treasury(
    vault: &mut Vault,
    caller: AccountRef,
    candidate: TreasuryCandidate,
) -> (r: Result<(), ErrorCode>)
    requires
        old(vault).wf(),
    ensures
        match spec_update_treasury(*old(vault), caller, candidate) {
            Ok(v2) => r == Ok::<(), ErrorCode>(()) && *final(vault) == v2,
            Err(e) => r == Err::<(), ErrorCode>(e) && *final(vault) == *old(vault),
        },
        final(vault).wf(),
        old(vault).spec_governance_disabled() ==> r == Err::<(), ErrorCode>(
            ErrorCode::GovernanceDisabled,
        ) && *final(vault) == *old(vault),
        final(vault).authority == old(vault).authority,
        final(vault).acc_reward_per_share == old(vault).acc_reward_per_share,
        final(vault).total_fees_collected == old(vault).total_fees_collected,
        final(vault).minted_shares == old(vault).minted_shares,
{
    if vault.is_governance_disabled() {
        return Err(ErrorCode::GovernanceDisabled);
    }
    if !(caller == vault.authority) {
        return Err(ErrorCode::Unauthorized);
    }
    if !(candidate.owner == vault.custodian) || !(candidate.mint == vault.payment_mint) {
        return Err(ErrorCode::InvalidTreasury);
    }
    vault.treasury = candidate.account;
    Ok(())
}

} // verus!
