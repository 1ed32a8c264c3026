use vstd::prelude::*;

verus! {

/// Every way an operation on the ledger can be rejected.
///
/// All errors are terminal for the invocation: an operation either completes
/// in full or leaves the ledger exactly as it was.
#[derive(Clone, Copy, Debug, PartialEq, Eq, Structural)]
pub enum ErrorCode {
    /// A share amount of zero was supplied.
    InvalidShareAmount,
    /// A share or counter addition left the 64-bit range, or a fixed-point
    /// product left the 128-bit range.
    Overflow,
    /// Issuing the requested shares would push the outstanding amount past
    /// the vault's capacity.
    ExceedsTotalSupply,
    /// A checked multiplication (issuance cost, redemption principal)
    /// overflowed.
    MathOverflow,
    /// A checked subtraction underflowed; for reward settlement this marks a
    /// checkpoint ahead of the accumulator, which valid histories never
    /// produce.
    Underflow,
    /// Revenue arrived while no shares are outstanding, so it cannot be
    /// attributed to anyone.
    NoSharesMinted,
    /// A revenue amount of zero was supplied.
    InvalidRevenueAmount,
    /// The balance that backs a payout holds less than the amount owed.
    InsufficientVaultBalance,
    /// A redemption asked for more shares than the position holds.
    InsufficientShares,
    /// The caller does not own the position it tried to operate on.
    InvalidTokenAccountOwner,
    /// A fee above the 20% cap was requested.
    PerformanceFeeExceedsMax,
    /// The proposed treasury is not bound to the vault's custodian or uses
    /// the wrong payment mint.
    InvalidTreasury,
    /// The proposed authority is the null sentinel; revocation has its own
    /// operation.
    InvalidAuthority,
    /// Governance has been irreversibly revoked.
    GovernanceDisabled,
    /// The caller is not the vault's governance authority.
    Unauthorized,
}

} // verus!
