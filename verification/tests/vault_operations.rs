use tokenized_yield::account_ref::AccountRef;
use tokenized_yield::constants::PRECISION;
use tokenized_yield::deposit_revenue::process_deposit_revenue;
use tokenized_yield::error::ErrorCode;
use tokenized_yield::harvest::process_harvest;
use tokenized_yield::initialize_vault::process_initialize_vault;
use tokenized_yield::mint_shares::process_mint_shares;
use tokenized_yield::redeem_shares::process_redeem_shares;
use tokenized_yield::settlement::settle_position;
use tokenized_yield::user_stake::UserStake;
use tokenized_yield::vault::Vault;

fn addr(n: u64) -> AccountRef {
    AccountRef { w0: n, w1: 0, w2: 0, w3: 0 }
}

fn fresh_vault(capacity: u64, price: u64, fee_bps: u16) -> Vault {
    process_initialize_vault(
        addr(1),
        String::from("pool"),
        addr(2),
        addr(3),
        addr(4),
        capacity,
        price,
        fee_bps,
    )
    .unwrap()
}

#[test]
fn initialize_vault_starts_empty() {
    let v = fresh_vault(1000, 10, 1000);
    assert_eq!(v.owner, addr(1));
    assert_eq!(v.authority, addr(1));
    assert_eq!(v.payment_mint, addr(2));
    assert_eq!(v.custodian, addr(3));
    assert_eq!(v.treasury, addr(4));
    assert_eq!(v.total_shares, 1000);
    assert_eq!(v.minted_shares, 0);
    assert_eq!(v.price_per_share, 10);
    assert_eq!(v.acc_reward_per_share, 0);
    assert_eq!(v.reward_remainder, 0);
    assert_eq!(v.performance_fee_bps, 1000);
    assert_eq!(v.total_fees_collected, 0);
}

#[test]
fn initialize_vault_rejects_fee_above_cap() {
    let r = process_initialize_vault(
        addr(1),
        String::from("pool"),
        addr(2),
        addr(3),
        addr(4),
        1000,
        10,
        2001,
    );
    assert_eq!(r.unwrap_err(), ErrorCode::PerformanceFeeExceedsMax);
}

#[test]
fn mint_shares_issues_and_charges_cost() {
    let mut v = fresh_vault(1000, 10, 1000);
    let holder = addr(7);
    let mut p = UserStake::new(holder);
    let o = process_mint_shares(&mut v, &mut p, holder, 100, 0).unwrap();
    assert_eq!(o.cost, 1000);
    assert_eq!(o.reward_paid, 0);
    assert_eq!(v.minted_shares, 100);
    assert_eq!(p.quantity, 100);
    assert_eq!(p.reward_debt, 0);
}

#[test]
fn mint_shares_rejects_zero_amount() {
    let mut v = fresh_vault(1000, 10, 0);
    let holder = addr(7);
    let mut p = UserStake::new(holder);
    let r = process_mint_shares(&mut v, &mut p, holder, 0, 0);
    assert_eq!(r.unwrap_err(), ErrorCode::InvalidShareAmount);
}

#[test]
fn mint_shares_rejects_wrong_caller() {
    let mut v = fresh_vault(1000, 10, 0);
    let mut p = UserStake::new(addr(7));
    let r = process_mint_shares(&mut v, &mut p, addr(8), 5, 0);
    assert_eq!(r.unwrap_err(), ErrorCode::InvalidTokenAccountOwner);
}

#[test]
fn mint_shares_rejects_beyond_capacity() {
    let mut v = fresh_vault(1000, 10, 0);
    let holder = addr(7);
    let mut p = UserStake::new(holder);
    process_mint_shares(&mut v, &mut p, holder, 900, 0).unwrap();
    let r = process_mint_shares(&mut v, &mut p, holder, 101, 0);
    assert_eq!(r.unwrap_err(), ErrorCode::ExceedsTotalSupply);
    assert_eq!(v.minted_shares, 900);
    assert_eq!(p.quantity, 900);
}

#[test]
fn mint_shares_rejects_cost_overflow() {
    let mut v = fresh_vault(u64::MAX, u64::MAX, 0);
    let holder = addr(7);
    let mut p = UserStake::new(holder);
    let r = process_mint_shares(&mut v, &mut p, holder, 2, 0);
    assert_eq!(r.unwrap_err(), ErrorCode::MathOverflow);
}

#[test]
fn mint_shares_rejects_share_counter_overflow() {
    // With a zero price the cost stays in range, so the share counter is the
    // first thing to overflow.
    let mut v = fresh_vault(u64::MAX, 0, 0);
    let holder = addr(7);
    let mut p = UserStake::new(holder);
    process_mint_shares(&mut v, &mut p, holder, u64::MAX, 0).unwrap();
    let r = process_mint_shares(&mut v, &mut p, holder, 1, 0);
    assert_eq!(r.unwrap_err(), ErrorCode::Overflow);
}

#[test]
fn deposit_revenue_requires_outstanding_shares() {
    let mut v = fresh_vault(1000, 10, 1000);
    let r = process_deposit_revenue(&mut v, 500);
    assert_eq!(r.unwrap_err(), ErrorCode::NoSharesMinted);
}

#[test]
fn deposit_revenue_rejects_zero_amount() {
    let mut v = fresh_vault(1000, 10, 1000);
    let holder = addr(7);
    let mut p = UserStake::new(holder);
    process_mint_shares(&mut v, &mut p, holder, 100, 0).unwrap();
    let r = process_deposit_revenue(&mut v, 0);
    assert_eq!(r.unwrap_err(), ErrorCode::InvalidRevenueAmount);
}

#[test]
fn deposit_revenue_rejects_accumulator_overflow_atomically() {
    let mut v = fresh_vault(1000, 10, 1000);
    let holder = addr(7);
    let mut p = UserStake::new(holder);
    process_mint_shares(&mut v, &mut p, holder, 1, 0).unwrap();
    v.acc_reward_per_share = u128::MAX - 1;

    let r = process_deposit_revenue(&mut v, 1000);
    assert_eq!(r.unwrap_err(), ErrorCode::Overflow);
    // The rejected deposit changed nothing — not even the fee counter.
    assert_eq!(v.acc_reward_per_share, u128::MAX - 1);
    assert_eq!(v.total_fees_collected, 0);
    assert_eq!(v.reward_remainder, 0);
}

#[test]
fn deposit_revenue_rejects_remainder_overflow_atomically() {
    let mut v = fresh_vault(1000, 10, 0);
    let holder = addr(7);
    let mut p = UserStake::new(holder);
    process_mint_shares(&mut v, &mut p, holder, 3, 0).unwrap();
    v.reward_remainder = u128::MAX;

    let r = process_deposit_revenue(&mut v, 7);
    assert_eq!(r.unwrap_err(), ErrorCode::Overflow);
    assert_eq!(v.reward_remainder, u128::MAX);
    assert_eq!(v.acc_reward_per_share, 0);
}

#[test]
fn fee_and_distribution_example() {
    // capacity 1000, price 10; issue 100 shares, deposit 1000 at a 10% fee:
    // 100 goes to the treasury, 900 is distributed, and the sole holder's
    // harvest pays exactly 900.
    let mut v = fresh_vault(1000, 10, 1000);
    let holder = addr(7);
    let mut p = UserStake::new(holder);
    process_mint_shares(&mut v, &mut p, holder, 100, 0).unwrap();
    assert_eq!(v.minted_shares, 100);

    let o = process_deposit_revenue(&mut v, 1000).unwrap();
    assert_eq!(o.fee, 100);
    assert_eq!(o.distributable, 900);
    assert_eq!(v.total_fees_collected, 100);
    assert_eq!(v.acc_reward_per_share, 900 * PRECISION / 100);

    let paid = process_harvest(&v, &mut p, holder, 900).unwrap();
    assert_eq!(paid, 900);
}

#[test]
fn settle_position_advances_checkpoint_exactly() {
    let mut p = UserStake {
        owner: addr(7),
        quantity: 100,
        reward_debt: 250,
    };
    // accumulated = floor(100 * 9.5 * PRECISION / PRECISION) = 950;
    // pending = 950 - 250 = 700.
    let acc = 95 * PRECISION / 10;
    let paid = settle_position(&mut p, acc, 700).unwrap();
    assert_eq!(paid, 700);
    assert_eq!(p.reward_debt, 950);
    assert_eq!(p.quantity, 100);

    // Settled again against the same accumulator: nothing further is owed.
    let paid = settle_position(&mut p, acc, 0).unwrap();
    assert_eq!(paid, 0);
}

#[test]
fn harvest_is_idempotent() {
    let mut v = fresh_vault(1000, 10, 0);
    let holder = addr(7);
    let mut p = UserStake::new(holder);
    process_mint_shares(&mut v, &mut p, holder, 50, 0).unwrap();
    process_deposit_revenue(&mut v, 500).unwrap();

    let first = process_harvest(&v, &mut p, holder, 500).unwrap();
    assert_eq!(first, 500);
    let second = process_harvest(&v, &mut p, holder, 0).unwrap();
    assert_eq!(second, 0);
}

#[test]
fn harvest_rejects_wrong_caller() {
    let v = fresh_vault(1000, 10, 0);
    let mut p = UserStake::new(addr(7));
    let r = process_harvest(&v, &mut p, addr(8), 0);
    assert_eq!(r.unwrap_err(), ErrorCode::InvalidTokenAccountOwner);
}

#[test]
fn harvest_checks_solvency() {
    let mut v = fresh_vault(1000, 10, 0);
    let holder = addr(7);
    let mut p = UserStake::new(holder);
    process_mint_shares(&mut v, &mut p, holder, 50, 0).unwrap();
    process_deposit_revenue(&mut v, 500).unwrap();

    let r = process_harvest(&v, &mut p, holder, 499);
    assert_eq!(r.unwrap_err(), ErrorCode::InsufficientVaultBalance);
    // The failed claim left the checkpoint alone; the reward is still owed.
    let paid = process_harvest(&v, &mut p, holder, 500).unwrap();
    assert_eq!(paid, 500);
}

#[test]
fn harvest_rejects_checkpoint_ahead_of_accumulator() {
    let v = fresh_vault(1000, 10, 0);
    let holder = addr(7);
    let mut p = UserStake {
        owner: holder,
        quantity: 1,
        reward_debt: 5,
    };
    let r = process_harvest(&v, &mut p, holder, 0);
    assert_eq!(r.unwrap_err(), ErrorCode::Underflow);
}

#[test]
fn harvest_rejects_oversized_accumulated_product() {
    let mut v = fresh_vault(1000, 10, 0);
    v.acc_reward_per_share = u128::MAX;
    let holder = addr(7);
    let mut p = UserStake {
        owner: holder,
        quantity: 2,
        reward_debt: 0,
    };
    let r = process_harvest(&v, &mut p, holder, 0);
    assert_eq!(r.unwrap_err(), ErrorCode::Overflow);
}

#[test]
fn mint_redeem_round_trip_restores_state() {
    let mut v = fresh_vault(1000, 10, 0);
    let holder = addr(7);
    let mut p = UserStake::new(holder);
    process_mint_shares(&mut v, &mut p, holder, 250, 0).unwrap();

    let o = process_redeem_shares(&mut v, &mut p, holder, 250, 0, 2500).unwrap();
    assert_eq!(o.reward_paid, 0);
    assert_eq!(o.principal, 2500);
    assert_eq!(v.minted_shares, 0);
    assert_eq!(p.quantity, 0);
}

#[test]
fn redeem_settles_reward_before_shrinking() {
    let mut v = fresh_vault(1000, 10, 0);
    let holder = addr(7);
    let mut p = UserStake::new(holder);
    process_mint_shares(&mut v, &mut p, holder, 100, 0).unwrap();
    process_deposit_revenue(&mut v, 300).unwrap();

    let o = process_redeem_shares(&mut v, &mut p, holder, 40, 300, 400).unwrap();
    assert_eq!(o.reward_paid, 300);
    assert_eq!(o.principal, 400);
    assert_eq!(v.minted_shares, 60);
    assert_eq!(p.quantity, 60);
    // The reduced holding owes nothing against the current accumulator.
    let paid = process_harvest(&v, &mut p, holder, 0).unwrap();
    assert_eq!(paid, 0);
}

#[test]
fn redeem_rejects_zero_amount() {
    let mut v = fresh_vault(1000, 10, 0);
    let holder = addr(7);
    let mut p = UserStake::new(holder);
    process_mint_shares(&mut v, &mut p, holder, 10, 0).unwrap();
    let r = process_redeem_shares(&mut v, &mut p, holder, 0, 0, 100);
    assert_eq!(r.unwrap_err(), ErrorCode::InvalidShareAmount);
}

#[test]
fn redeem_rejects_more_than_held() {
    let mut v = fresh_vault(1000, 10, 0);
    let holder = addr(7);
    let mut p = UserStake::new(holder);
    process_mint_shares(&mut v, &mut p, holder, 10, 0).unwrap();
    let r = process_redeem_shares(&mut v, &mut p, holder, 11, 0, 1000);
    assert_eq!(r.unwrap_err(), ErrorCode::InsufficientShares);
}

#[test]
fn redeem_rejects_wrong_caller() {
    let mut v = fresh_vault(1000, 10, 0);
    let mut p = UserStake::new(addr(7));
    let r = process_redeem_shares(&mut v, &mut p, addr(8), 1, 0, 100);
    assert_eq!(r.unwrap_err(), ErrorCode::InvalidTokenAccountOwner);
}

#[test]
fn redeem_checks_principal_solvency() {
    let mut v = fresh_vault(1000, 10, 0);
    let holder = addr(7);
    let mut p = UserStake::new(holder);
    process_mint_shares(&mut v, &mut p, holder, 10, 0).unwrap();
    let r = process_redeem_shares(&mut v, &mut p, holder, 10, 0, 99);
    assert_eq!(r.unwrap_err(), ErrorCode::InsufficientVaultBalance);
    assert_eq!(v.minted_shares, 10);
    assert_eq!(p.quantity, 10);
}

#[test]
fn late_entrant_captures_no_earlier_revenue() {
    let mut v = fresh_vault(1000, 10, 0);
    let early = addr(7);
    let late = addr(8);
    let mut pe = UserStake::new(early);
    let mut pl = UserStake::new(late);
    process_mint_shares(&mut v, &mut pe, early, 100, 0).unwrap();
    process_deposit_revenue(&mut v, 400).unwrap();

    // The late entrant buys in after the deposit; its checkpoint swallows
    // everything accrued so far.
    process_mint_shares(&mut v, &mut pl, late, 100, 400).unwrap();
    let late_paid = process_harvest(&v, &mut pl, late, 400).unwrap();
    assert_eq!(late_paid, 0);
    let early_paid = process_harvest(&v, &mut pe, early, 400).unwrap();
    assert_eq!(early_paid, 400);
}

#[test]
fn remainder_carry_loses_nothing() {
    // Depositing 7 against 3 outstanding shares leaves a sub-share remainder
    // every time; after each group of three deposits the carry folds back
    // into the accumulator and every deposited unit is accounted for.
    let mut v = fresh_vault(10, 1, 0);
    let holder = addr(7);
    let mut p = UserStake::new(holder);
    process_mint_shares(&mut v, &mut p, holder, 3, 0).unwrap();

    let rounds: u64 = 30;
    for i in 0..rounds {
        let o = process_deposit_revenue(&mut v, 7).unwrap();
        assert_eq!(o.distributable, 7);
        // At scaled precision nothing is ever lost.
        assert_eq!(
            v.acc_reward_per_share * 3 + v.reward_remainder,
            (i as u128 + 1) * 7 * PRECISION
        );
        // The carry stays strictly below one unit per outstanding share.
        assert!(v.reward_remainder < 3);
    }
    assert_eq!(v.acc_reward_per_share, 70 * PRECISION);
    assert_eq!(v.reward_remainder, 0);

    // The sole holder collects every deposited unit.
    let paid = process_harvest(&v, &mut p, holder, 210).unwrap();
    assert_eq!(paid, 210);
}

#[test]
fn small_deposit_fee_floors_to_zero() {
    // At a 20% fee a deposit of 5 is skimmed 1; a deposit of 4 floors the
    // fee to 0 and everything is distributed.
    let mut v = fresh_vault(1000, 10, 2000);
    let holder = addr(7);
    let mut p = UserStake::new(holder);
    process_mint_shares(&mut v, &mut p, holder, 10, 0).unwrap();

    let o = process_deposit_revenue(&mut v, 4).unwrap();
    assert_eq!(o.fee, 0);
    assert_eq!(o.distributable, 4);
    assert_eq!(v.total_fees_collected, 0);
}

#[test]
fn zero_quantity_position_stays_valid() {
    let mut v = fresh_vault(1000, 10, 0);
    let holder = addr(7);
    let mut p = UserStake::new(holder);
    process_mint_shares(&mut v, &mut p, holder, 5, 0).unwrap();
    process_redeem_shares(&mut v, &mut p, holder, 5, 0, 50).unwrap();
    assert_eq!(p.quantity, 0);

    // The emptied position can harvest (nothing) and buy back in.
    let paid = process_harvest(&v, &mut p, holder, 0).unwrap();
    assert_eq!(paid, 0);
    process_mint_shares(&mut v, &mut p, holder, 5, 0).unwrap();
    assert_eq!(p.quantity, 5);
    assert_eq!(v.minted_shares, 5);
}

#[test]
fn conservation_across_holders() {
    let mut v = fresh_vault(1000, 10, 0);
    let a = addr(7);
    let b = addr(8);
    let mut pa = UserStake::new(a);
    let mut pb = UserStake::new(b);
    process_mint_shares(&mut v, &mut pa, a, 300, 0).unwrap();
    process_mint_shares(&mut v, &mut pb, b, 200, 0).unwrap();
    assert_eq!(pa.quantity + pb.quantity, v.minted_shares);

    process_deposit_revenue(&mut v, 1000).unwrap();
    process_redeem_shares(&mut v, &mut pa, a, 100, 1000, 1000).unwrap();
    assert_eq!(pa.quantity + pb.quantity, v.minted_shares);

    process_harvest(&v, &mut pb, b, 1000).unwrap();
    assert_eq!(pa.quantity + pb.quantity, v.minted_shares);
}

#[test]
fn proportional_distribution_across_holders() {
    let mut v = fresh_vault(1000, 10, 0);
    let a = addr(7);
    let b = addr(8);
    let mut pa = UserStake::new(a);
    let mut pb = UserStake::new(b);
    process_mint_shares(&mut v, &mut pa, a, 75, 0).unwrap();
    process_mint_shares(&mut v, &mut pb, b, 25, 0).unwrap();
    process_deposit_revenue(&mut v, 1000).unwrap();

    let paid_a = process_harvest(&v, &mut pa, a, 1000).unwrap();
    let paid_b = process_harvest(&v, &mut pb, b, 1000).unwrap();
    assert_eq!(paid_a, 750);
    assert_eq!(paid_b, 250);
}
