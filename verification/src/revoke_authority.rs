use vstd::prelude::*;

use crate::account_ref::AccountRef;
use crate::error::ErrorCode;
use crate::vault::Vault;

verus! {

/// Revocation: what `process_revoke_authority` does, as a function of state.
pub open spec fn spec_revoke_authority(v: Vault, caller: AccountRef) -> Result<
    Vault,
    ErrorCode,
> {
    if v.spec_governance_disabled() {
        Err(ErrorCode::GovernanceDisabled)
    } else if caller != v.authority {
        Err(ErrorCode::Unauthorized)
    } else {
        Ok(Vault { authority: AccountRef { w0: 0, w1: 0, w2: 0, w3: 0 }, ..v })
    }
}

/// Irreversibly revokes governance: the authority becomes the null sentinel,
/// every governance operation — including a second revocation — fails with
/// `GovernanceDisabled` from then on, and the protocol parameters are frozen.
/// On any error the vault is unchanged.
pub fn process_revoke_authority(vault: &mut Vault, caller: AccountRef) -> (r: Result<
    (),
    ErrorCode,
>)
    requires
        old(vault).wf(),
    ensures
        match spec_revoke_authority(*old(vault), caller) {
            Ok(v2) => r == Ok::<(), ErrorCode>(()) && *final(vault) == v2,
            Err(e) => r == Err::<(), ErrorCode>(e) && *final(vault) == *old(vault),
        },
        final(vault).wf(),
        old(vault).spec_governance_disabled() ==> r == Err::<(), ErrorCode>(
            ErrorCode::GovernanceDisabled,
        ) && *final(vault) == *old(vault),
        r is Ok ==> final(vault).spec_governance_disabled(),
        final(vault).acc_reward_per_share == old(vault).acc_reward_per_share,
        final(vault).total_fees_collected == old(vault).total_fees_collected,
        final(vault).minted_shares == old(vault).minted_shares,
{
    if vault.is_governance_disabled() {
        return Err(ErrorCode::GovernanceDisabled);
    }
    if !(caller == vault.authority) {
        return Err(ErrorCode::Unauthorized);
    }
    vault.authority = AccountRef::null();
    Ok(())
}

} // verus!
