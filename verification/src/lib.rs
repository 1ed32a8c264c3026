//! Proportional-ownership yield ledger.
//!
//! Holders buy shares of a pool at a fixed issuance price, the pool
//! periodically receives external revenue, a performance fee is skimmed, and
//! the remainder is distributed to shareholders in proportion to their
//! holdings at the moment of each deposit. The reward-accounting core is
//! accumulator-based, exact under integer-only arithmetic, and never loses
//! fractional revenue to rounding beyond a bounded dust amount.
//!
//! The library holds the verified accounting core: vault and position state,
//! the settlement and distribution algorithms, share issuance and redemption,
//! and the governance controller. Moving value between custodial balances is
//! the caller's job: every operation reports what must be transferred, and the
//! internal bookkeeping is updated before any transfer is issued.

pub mod account_ref;
pub mod constants;
pub mod deposit_revenue;
pub mod error;
pub mod harvest;
pub mod initialize_vault;
pub mod laws;
pub mod mint_shares;
pub mod redeem_shares;
pub mod revoke_authority;
pub mod settlement;
pub mod transfer_authority;
pub mod update_performance_fee;
pub mod update_treasury;
pub mod user_stake;
pub mod vault;
