use vstd::prelude::*;

use vstd::arithmetic::div_mod::{
    lemma_div_pos_is_pos, lemma_fundamental_div_mod, lemma_mod_division_less_than_divisor,
};
use vstd::arithmetic::mul::lemma_mul_nonnegative;

use crate::account_ref::AccountRef;
use crate::constants::PRECISION;
use crate::deposit_revenue::{spec_deposit_revenue, spec_fee};
use crate::error::ErrorCode;
use crate::harvest::spec_harvest;
use crate::mint_shares::spec_mint_shares;
use crate::redeem_shares::spec_redeem_shares;
use crate::revoke_authority::spec_revoke_authority;
use crate::transfer_authority::spec_transfer_authority;
use crate::update_performance_fee::spec_update_performance_fee;
use crate::update_treasury::{spec_update_treasury, TreasuryCandidate};
use crate::user_stake::UserStake;
use crate::vault::Vault;

verus! {

/// One operation against a vault, with everything the operation reads
/// bundled in: the caller, the touched position as it stood, and the
/// balances presented to the solvency checks.
pub enum VaultOp {
    MintShares { caller: AccountRef, position: UserStake, amount: u64, revenue_balance: u64 },
    DepositRevenue { amount: u64 },
    Harvest { caller: AccountRef, position: UserStake, revenue_balance: u64 },
    RedeemShares {
        caller: AccountRef,
        position: UserStake,
        amount: u64,
        revenue_balance: u64,
        principal_balance: u64,
    },
    UpdatePerformanceFee { caller: AccountRef, new_fee_bps: u16 },
    UpdateTreasury { caller: AccountRef, candidate: TreasuryCandidate },
    TransferAuthority { caller: AccountRef, new_authority: AccountRef },
    RevokeAuthority { caller: AccountRef },
}

/// The vault after one operation. A rejected operation leaves it unchanged,
/// and a harvest never touches it.
pub open spec fn apply_op(v: Vault, op: VaultOp) -> Vault {
    match op {
        VaultOp::MintShares { caller, position, amount, revenue_balance } => match spec_mint_shares(
            v,
            position,
            caller,
            amount,
            revenue_balance,
        ) {
            Ok((v2, _, _)) => v2,
            Err(_) => v,
        },
        VaultOp::DepositRevenue { amount } => match spec_deposit_revenue(v, amount) {
            Ok((v2, _)) => v2,
            Err(_) => v,
        },
        VaultOp::Harvest { .. } => v,
        VaultOp::RedeemShares {
            caller,
            position,
            amount,
            revenue_balance,
            principal_balance,
        } => match spec_redeem_shares(
            v,
            position,
            caller,
            amount,
            revenue_balance,
            principal_balance,
        ) {
            Ok((v2, _, _)) => v2,
            Err(_) => v,
        },
        VaultOp::UpdatePerformanceFee { caller, new_fee_bps } => match spec_update_performance_fee(
            v,
            caller,
            new_fee_bps,
        ) {
            Ok(v2) => v2,
            Err(_) => v,
        },
        VaultOp::UpdateTreasury { caller, candidate } => match spec_update_treasury(
            v,
            caller,
            candidate,
        ) {
            Ok(v2) => v2,
            Err(_) => v,
        },
        VaultOp::TransferAuthority { caller, new_authority } => match spec_transfer_authority(
            v,
            caller,
            new_authority,
        ) {
            Ok(v2) => v2,
            Err(_) => v,
        },
        VaultOp::RevokeAuthority { caller } => match spec_revoke_authority(v, caller) {
            Ok(v2) => v2,
            Err(_) => v,
        },
    }
}

/// The vault after a whole sequence of operations, applied left to right.
pub open spec fn run_ops(v: Vault, ops: Seq<VaultOp>) -> Vault
    decreases ops.len(),
{
    if ops.len() == 0 {
        v
    } else {
        run_ops(apply_op(v, ops[0]), ops.drop_first())
    }
}

/// Every single operation keeps the vault well formed — in particular
/// outstanding shares never exceed the capacity — never decreases the
/// accumulator or the fee counter, never changes the capacity or the price,
/// and never resurrects revoked governance.
pub proof fn lemma_apply_op_invariants(v: Vault, op: VaultOp)
    requires
        v.wf(),
    ensures
        apply_op(v, op).wf(),
        apply_op(v, op).acc_reward_per_share >= v.acc_reward_per_share,
        apply_op(v, op).total_fees_collected >= v.total_fees_collected,
        apply_op(v, op).total_shares == v.total_shares,
        apply_op(v, op).price_per_share == v.price_per_share,
        v.spec_governance_disabled() ==> apply_op(v, op).spec_governance_disabled(),
{
    match op {
        VaultOp::DepositRevenue { amount } => {
            if v.minted_shares > 0 && amount > 0 {
                let s = v.minted_shares as int;
                lemma_mul_nonnegative(amount as int, v.performance_fee_bps as int);
                lemma_div_pos_is_pos((amount as int) * (v.performance_fee_bps as int), 10000);
                let fee = spec_fee(amount, v.performance_fee_bps);
                let dist = amount - fee;
                if dist > 0 {
                    let scaled = dist * (PRECISION as int);
                    lemma_div_pos_is_pos(scaled, s);
                    lemma_mod_division_less_than_divisor(scaled, s);
                    let r1 = v.reward_remainder + scaled % s;
                    lemma_div_pos_is_pos(r1, s);
                }
            }
        },
        _ => {},
    }
}

/// Capacity, monotonicity and governance irreversibility along any history:
/// for every starting vault and every sequence of operations — accepted or
/// rejected, in any order, by any callers — the vault stays well formed, so
/// the outstanding shares never exceed the capacity; the accumulator and the
/// fee counter never decrease; the capacity and the price never change; and
/// once governance is revoked it stays revoked.
pub proof fn lemma_run_ops_invariants(v: Vault, ops: Seq<VaultOp>)
    requires
        v.wf(),
    ensures
        run_ops(v, ops).wf(),
        run_ops(v, ops).minted_shares <= v.total_shares,
        run_ops(v, ops).acc_reward_per_share >= v.acc_reward_per_share,
        run_ops(v, ops).total_fees_collected >= v.total_fees_collected,
        run_ops(v, ops).total_shares == v.total_shares,
        run_ops(v, ops).price_per_share == v.price_per_share,
        v.spec_governance_disabled() ==> run_ops(v, ops).spec_governance_disabled(),
    decreases ops.len(),
{
    if ops.len() > 0 {
        lemma_apply_op_invariants(v, ops[0]);
        lemma_run_ops_invariants(apply_op(v, ops[0]), ops.drop_first());
    }
}

/// Sum of the quantities held by a sequence of positions.
pub open spec fn total_quantity(ps: Seq<UserStake>) -> int
    decreases ps.len(),
{
    if ps.len() == 0 {
        0
    } else {
        ps[0].quantity + total_quantity(ps.drop_first())
    }
}

/// Replacing one position changes the sum by exactly the change in that
/// position's quantity.
pub proof fn lemma_total_quantity_update(ps: Seq<UserStake>, i: int, p: UserStake)
    requires
        0 <= i < ps.len(),
    ensures
        total_quantity(ps.update(i, p)) == total_quantity(ps) - ps[i].quantity + p.quantity,
    decreases ps.len(),
{
    if i == 0 {
        assert(ps.update(0, p).drop_first() =~= ps.drop_first());
    } else {
        assert(ps.update(i, p).drop_first() =~= ps.drop_first().update(i - 1, p));
        lemma_total_quantity_update(ps.drop_first(), i - 1, p);
    }
}

/// Conservation under issuance: if the positions of a vault sum to its
/// outstanding shares, they still do after any accepted share issuance to
/// any one of them.
pub proof fn lemma_conservation_mint_shares(
    v: Vault,
    ps: Seq<UserStake>,
    i: int,
    caller: AccountRef,
    amount: u64,
    revenue_balance: u64,
)
    requires
        0 <= i < ps.len(),
        total_quantity(ps) == v.minted_shares,
        spec_mint_shares(v, ps[i], caller, amount, revenue_balance) is Ok,
    ensures
        ({
            let t = spec_mint_shares(v, ps[i], caller, amount, revenue_balance)->Ok_0;
            total_quantity(ps.update(i, t.1)) == t.0.minted_shares
        }),
{
    let t = spec_mint_shares(v, ps[i], caller, amount, revenue_balance)->Ok_0;
    lemma_total_quantity_update(ps, i, t.1);
}

/// Conservation under redemption: if the positions of a vault sum to its
/// outstanding shares, they still do after any accepted redemption from any
/// one of them.
pub proof fn lemma_conservation_redeem_shares(
    v: Vault,
    ps: Seq<UserStake>,
    i: int,
    caller: AccountRef,
    amount: u64,
    revenue_balance: u64,
    principal_balance: u64,
)
    requires
        0 <= i < ps.len(),
        total_quantity(ps) == v.minted_shares,
        spec_redeem_shares(v, ps[i], caller, amount, revenue_balance, principal_balance) is Ok,
    ensures
        ({
            let t = spec_redeem_shares(
                v,
                ps[i],
                caller,
                amount,
                revenue_balance,
                principal_balance,
            )->Ok_0;
            total_quantity(ps.update(i, t.1)) == t.0.minted_shares
        }),
{
    let t = spec_redeem_shares(v, ps[i], caller, amount, revenue_balance, principal_balance)->Ok_0;
    lemma_total_quantity_update(ps, i, t.1);
}

/// Conservation under harvest: a harvest moves the checkpoint only, so the
/// positions still sum to the outstanding shares, which a harvest never
/// touches.
pub proof fn lemma_conservation_harvest(
    v: Vault,
    ps: Seq<UserStake>,
    i: int,
    caller: AccountRef,
    revenue_balance: u64,
)
    requires
        0 <= i < ps.len(),
        total_quantity(ps) == v.minted_shares,
        spec_harvest(v, ps[i], caller, revenue_balance) is Ok,
    ensures
        ({
            let t = spec_harvest(v, ps[i], caller, revenue_balance)->Ok_0;
            total_quantity(ps.update(i, t.0)) == v.minted_shares
        }),
{
    let t = spec_harvest(v, ps[i], caller, revenue_balance)->Ok_0;
    lemma_total_quantity_update(ps, i, t.0);
    assert(ps.update(i, t.0)[i] == t.0);
}

/// Conservation under revenue distribution: a deposit touches no position
/// and no share count, so the positions still sum to the outstanding shares.
pub proof fn lemma_conservation_deposit_revenue(v: Vault, ps: Seq<UserStake>, amount: u64)
    requires
        total_quantity(ps) == v.minted_shares,
        spec_deposit_revenue(v, amount) is Ok,
    ensures
        total_quantity(ps) == spec_deposit_revenue(v, amount)->Ok_0.0.minted_shares,
{
}

/// Remainder conservation, one deposit at a time: an accepted deposit loses
/// nothing to rounding at scaled precision — the accumulator credit plus the
/// carried remainder accounts for the distributable amount exactly — and
/// whenever something was distributed it leaves the carry strictly below one
/// unit per outstanding share.
pub proof fn lemma_deposit_revenue_conserves_value(v: Vault, amount: u64)
    requires
        spec_deposit_revenue(v, amount) is Ok,
    ensures
        ({
            let t = spec_deposit_revenue(v, amount)->Ok_0;
            &&& t.0.minted_shares == v.minted_shares
            &&& t.0.acc_reward_per_share * v.minted_shares + t.0.reward_remainder
                == v.acc_reward_per_share * v.minted_shares + v.reward_remainder
                + t.1.distributable * PRECISION
            &&& (t.1.distributable > 0 ==> t.0.reward_remainder < v.minted_shares)
        }),
{
    let s = v.minted_shares as int;
    let fee = spec_fee(amount, v.performance_fee_bps);
    let dist = amount - fee;
    if dist > 0 {
        let scaled = dist * (PRECISION as int);
        let inc = scaled / s;
        let rem = scaled % s;
        lemma_fundamental_div_mod(scaled, s);
        lemma_mod_division_less_than_divisor(scaled, s);
        let acc1 = v.acc_reward_per_share + inc;
        let r1 = v.reward_remainder + rem;
        if r1 >= s {
            let extra = r1 / s;
            let r2 = r1 % s;
            lemma_fundamental_div_mod(r1, s);
            lemma_mod_division_less_than_divisor(r1, s);
            assert((acc1 + extra) * s + r2 == v.acc_reward_per_share * s + v.reward_remainder
                + scaled) by (nonlinear_arith)
                requires
                    scaled == inc * s + rem,
                    r1 == extra * s + r2,
                    acc1 == v.acc_reward_per_share + inc,
                    r1 == v.reward_remainder + rem,
            ;
        } else {
            assert(acc1 * s + r1 == v.acc_reward_per_share * s + v.reward_remainder + scaled)
                by (nonlinear_arith)
                requires
                    scaled == inc * s + rem,
                    acc1 == v.acc_reward_per_share + inc,
                    r1 == v.reward_remainder + rem,
            ;
        }
    }
}

/// The vault after a run of revenue deposits; a rejected deposit changes
/// nothing.
pub open spec fn run_deposits(v: Vault, amounts: Seq<u64>) -> Vault
    decreases amounts.len(),
{
    if amounts.len() == 0 {
        v
    } else {
        match spec_deposit_revenue(v, amounts[0]) {
            Ok((v2, _)) => run_deposits(v2, amounts.drop_first()),
            Err(_) => run_deposits(v, amounts.drop_first()),
        }
    }
}

/// What a run of revenue deposits hands the shareholders in all: the sum of
/// the distributable parts of the accepted deposits.
pub open spec fn total_distributed(v: Vault, amounts: Seq<u64>) -> int
    decreases amounts.len(),
{
    if amounts.len() == 0 {
        0
    } else {
        match spec_deposit_revenue(v, amounts[0]) {
            Ok((v2, o)) => o.distributable + total_distributed(v2, amounts.drop_first()),
            Err(_) => total_distributed(v, amounts.drop_first()),
        }
    }
}

/// Remainder conservation across any run of deposits: however many deposits
/// arrive and however small they are, the accumulator and the carried
/// remainder together account for every distributed unit exactly, at scaled
/// precision. With the carry strictly below one unit per share after every
/// distributing deposit, at most a bounded dust amount is ever uncredited —
/// and it is carried, not lost.
pub proof fn lemma_deposit_run_conserves_value(v: Vault, amounts: Seq<u64>)
    ensures
        ({
            let vn = run_deposits(v, amounts);
            &&& vn.minted_shares == v.minted_shares
            &&& vn.acc_reward_per_share * v.minted_shares + vn.reward_remainder
                == v.acc_reward_per_share * v.minted_shares + v.reward_remainder
                + total_distributed(v, amounts) * PRECISION
        }),
    decreases amounts.len(),
{
    if amounts.len() > 0 {
        match spec_deposit_revenue(v, amounts[0]) {
            Ok((v2, o)) => {
                lemma_deposit_revenue_conserves_value(v, amounts[0]);
                lemma_deposit_run_conserves_value(v2, amounts.drop_first());
                assert((o.distributable + total_distributed(v2, amounts.drop_first()))
                    * PRECISION == o.distributable * PRECISION
                    + total_distributed(v2, amounts.drop_first()) * PRECISION) by (nonlinear_arith);
            },
            Err(_) => {
                lemma_deposit_run_conserves_value(v, amounts.drop_first());
            },
        }
    }
}

/// Idempotent harvest: once a harvest has settled a position, a second
/// harvest against the same accumulator — whatever revenue balance it is
/// shown — succeeds, pays exactly zero, and changes nothing.
pub proof fn lemma_harvest_idempotent(
    v: Vault,
    p: UserStake,
    caller: AccountRef,
    first_balance: u64,
    second_balance: u64,
)
    requires
        spec_harvest(v, p, caller, first_balance) is Ok,
    ensures
        ({
            let t = spec_harvest(v, p, caller, first_balance)->Ok_0;
            spec_harvest(v, t.0, caller, second_balance) == Ok::<(UserStake, u64), ErrorCode>(
                (t.0, 0u64),
            )
        }),
{
}

/// Mint/redeem round trip: with no revenue deposited in between, issuing
/// `amount` shares and then redeeming the same `amount` pays no reward,
/// returns exactly `amount * price_per_share` as principal, and restores the
/// outstanding shares and the position's quantity to their pre-issuance
/// values.
pub proof fn lemma_mint_redeem_round_trip(
    v: Vault,
    p: UserStake,
    caller: AccountRef,
    amount: u64,
    revenue_balance: u64,
    redeem_revenue_balance: u64,
    principal_balance: u64,
)
    requires
        spec_mint_shares(v, p, caller, amount, revenue_balance) is Ok,
        principal_balance >= spec_mint_shares(v, p, caller, amount, revenue_balance)->Ok_0.2.cost,
    ensures
        ({
            let m = spec_mint_shares(v, p, caller, amount, revenue_balance)->Ok_0;
            let back = spec_redeem_shares(
                m.0,
                m.1,
                caller,
                amount,
                redeem_revenue_balance,
                principal_balance,
            );
            &&& back is Ok
            &&& back->Ok_0.2.reward_paid == 0
            &&& back->Ok_0.2.principal == amount * v.price_per_share
            &&& back->Ok_0.0.minted_shares == v.minted_shares
            &&& back->Ok_0.1.quantity == p.quantity
        }),
{
}

/// Governance irreversibility: against a vault whose authority has been
/// revoked, every governance operation — a fee update, a treasury update, an
/// authority transfer, and a second revocation — fails with
/// `GovernanceDisabled`, whoever calls it and whatever it proposes.
pub proof fn lemma_governance_irreversible(
    v: Vault,
    caller: AccountRef,
    new_fee_bps: u16,
    candidate: TreasuryCandidate,
    new_authority: AccountRef,
)
    requires
        v.spec_governance_disabled(),
    ensures
        spec_update_performance_fee(v, caller, new_fee_bps) == Err::<Vault, ErrorCode>(
            ErrorCode::GovernanceDisabled,
        ),
        spec_update_treasury(v, caller, candidate) == Err::<Vault, ErrorCode>(
            ErrorCode::GovernanceDisabled,
        ),
        spec_transfer_authority(v, caller, new_authority) == Err::<Vault, ErrorCode>(
            ErrorCode::GovernanceDisabled,
        ),
        spec_revoke_authority(v, caller) == Err::<Vault, ErrorCode>(
            ErrorCode::GovernanceDisabled,
        ),
{
}

} // verus!
