use vstd::prelude::*;

use crate::account_ref::AccountRef;
use crate::constants::MAX_PERFORMANCE_FEE_BPS;

verus! {

/// Global per-pool state: capacity, outstanding shares, fixed price, the
/// reward accumulator with its sub-unit remainder, the fee configuration and
/// the governance authority.
///
/// One `Vault` exists per pool. It is created once at genesis with no
/// outstanding shares and is mutated by every economic and governance
/// operation.
#[derive(Clone, Debug)]
pub struct Vault {
    /// The account that created the vault and holds governance initially.
    pub owner: AccountRef,
    /// Display name of the pool; never read by the accounting core.
    pub name: String,
    /// Mint of the value the pool is denominated in.
    pub payment_mint: AccountRef,
    /// Controlling authority of the principal and revenue balances; a valid
    /// treasury must be bound to it (capital segregation).
    pub custodian: AccountRef,
    /// Account that receives performance fees.
    pub treasury: AccountRef,
    /// Governance authority; the all-zero sentinel means governance has been
    /// irreversibly revoked.
    pub authority: AccountRef,
    /// Maximum issuable shares, fixed at creation.
    pub total_shares: u64,
    /// Shares currently issued; never exceeds `total_shares`.
    pub minted_shares: u64,
    /// Fixed integer price for both issuance cost and redemption principal.
    pub price_per_share: u64,
    /// Cumulative reward per share, scaled by `PRECISION`; monotonically
    /// non-decreasing for the life of the vault.
    pub acc_reward_per_share: u128,
    /// Sub-unit carry from integer division during distribution; folded back
    /// into the accumulator once it reaches one unit per outstanding share.
    pub reward_remainder: u128,
    /// Performance fee in basis points; at most `MAX_PERFORMANCE_FEE_BPS`.
    pub performance_fee_bps: u16,
    /// Total fees ever skimmed; monotonically non-decreasing.
    pub total_fees_collected: u64,
}

impl Vault {
    /// Well-formedness: the capacity invariant and the fee cap.
    ///
    /// Established at creation and preserved by every operation.
    pub open spec fn wf(self) -> bool {
        &&& self.minted_shares <= self.total_shares
        &&& self.performance_fee_bps <= MAX_PERFORMANCE_FEE_BPS
    }

    /// Governance is disabled once the authority is the null sentinel; no
    /// operation can ever restore it.
    pub open spec fn spec_governance_disabled(self) -> bool {
        self.authority.spec_is_null()
    }

    pub fn is_governance_disabled(&self) -> (r: bool)
        ensures
            r == self.spec_governance_disabled(),
    {
        self.authority.is_null()
    }
}

} // verus!
