use vstd::prelude::*;

use crate::account_ref::AccountRef;
use crate::error::ErrorCode;
use crate::vault::Vault;

verus! {

/// Authority transfer: what `process_transfer_authority` does, as a function
/// of state.
///
/// The null sentinel is not a valid target — revocation has its own,
/// deliberately irreversible operation.
pub open spec fn spec_transfer_authority(
    v: Vault,
    caller: AccountRef,
    new_authority: AccountRef,
) -> Result<Vault, ErrorCode> {
    if v.spec_governance_disabled() {
        Err(ErrorCode::GovernanceDisabled)
    } else if caller != v.authority {
        Err(ErrorCode::Unauthorized)
    } else if new_authority.spec_is_null() {
        Err(ErrorCode::InvalidAuthority)
    } else {
        Ok(Vault { authority: new_authority, ..v })
    }
}

/// Hands governance to a new authority, gated on the current one. Rejected
/// outright once governance has been revoked. On any error the vault is
/// unchanged.
pub fn process_transfer_authority(
    vault: &mut Vault,
    caller: AccountRef,
    new_authority: AccountRef,
) -> (r: Result<(), ErrorCode>)
    requires
        old(vault).wf(),
    ensures
        match spec_transfer_authority(*old(vault), caller, new_authority) {
            Ok(v2) => r == Ok::<(), ErrorCode>(()) && *final(vault) == v2,
            Err(e) => r == Err::<(), ErrorCode>(e) && *final(vault) == *old(vault),
        },
        final(vault).wf(),
        old(vault).spec_governance_disabled() ==> r == Err::<(), ErrorCode>(
            ErrorCode::GovernanceDisabled,
        ) && *final(vault) == *old(vault),
        !final(vault).spec_governance_disabled() || *final(vault) == *old(vault),
        final(vault).acc_reward_per_share == old(vault).acc_reward_per_share,
        final(vault).total_fees_collected == old(vault).total_fees_collected,
        final(vault).minted_shares == old(vault).minted_shares,
{
    if vault.is_governance_disabled() {
        return Err(ErrorCode::GovernanceDisabled);
    }
    if !(caller == vault.authority) {
        return Err(ErrorCode::Unauthorized);
    }
    if new_authority.is_null() {
        return Err(ErrorCode::InvalidAuthority);
    }
    vault.authority = new_authority;
    Ok(())
}

} // verus!
