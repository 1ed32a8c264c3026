use vstd::prelude::*;

use crate::account_ref::AccountRef;

verus! {

/// Per-holder state: shares owned and the reward checkpoint.
///
/// One `UserStake` exists per (vault, holder) pair, created lazily on first
/// issuance to that holder. A position whose quantity has been driven to zero
/// stays valid and inert; it is never deleted.
#[derive(Clone, Copy, Debug, PartialEq, Eq, Structural)]
pub struct UserStake {
    /// The holder; every settling operation demands this capability.
    pub owner: AccountRef,
    /// Shares held.
    pub quantity: u64,
    /// Reward checkpoint: immediately after any settlement this equals
    /// `floor(quantity * acc_reward_per_share / PRECISION)`, so no unclaimed
    /// reward is implicitly owed right after settlement.
    pub reward_debt: u128,
}

impl UserStake {
    /// A fresh position for `owner`: no shares, no reward owed.
    pub fn new(owner: AccountRef) -> (r: UserStake)
        ensures
            r == (UserStake { owner, quantity: 0, reward_debt: 0 }),
    {
        UserStake { owner, quantity: 0, reward_debt: 0 }
    }
}

} // verus!
