use tokenized_yield::account_ref::AccountRef;
use tokenized_yield::deposit_revenue::process_deposit_revenue;
use tokenized_yield::error::ErrorCode;
use tokenized_yield::harvest::process_harvest;
use tokenized_yield::initialize_vault::process_initialize_vault;
use tokenized_yield::mint_shares::process_mint_shares;
use tokenized_yield::redeem_shares::process_redeem_shares;
use tokenized_yield::revoke_authority::process_revoke_authority;
use tokenized_yield::transfer_authority::process_transfer_authority;
use tokenized_yield::update_performance_fee::process_update_performance_fee;
use tokenized_yield::update_treasury::{process_update_treasury, TreasuryCandidate};
use tokenized_yield::user_stake::UserStake;
use tokenized_yield::vault::Vault;

fn addr(n: u64) -> AccountRef {
    AccountRef { w0: n, w1: 0, w2: 0, w3: 0 }
}

fn fresh_vault() -> Vault {
    process_initialize_vault(
        addr(1),
        String::from("pool"),
        addr(2),
        addr(3),
        addr(4),
        1000,
        10,
        1000,
    )
    .unwrap()
}

#[test]
fn update_performance_fee_by_authority() {
    let mut v = fresh_vault();
    process_update_performance_fee(&mut v, addr(1), 500).unwrap();
    assert_eq!(v.performance_fee_bps, 500);
}

#[test]
fn update_performance_fee_rejects_above_cap() {
    let mut v = fresh_vault();
    let r = process_update_performance_fee(&mut v, addr(1), 2001);
    assert_eq!(r.unwrap_err(), ErrorCode::PerformanceFeeExceedsMax);
    assert_eq!(v.performance_fee_bps, 1000);
}

#[test]
fn update_performance_fee_rejects_non_authority() {
    let mut v = fresh_vault();
    let r = process_update_performance_fee(&mut v, addr(9), 500);
    assert_eq!(r.unwrap_err(), ErrorCode::Unauthorized);
}

#[test]
fn update_treasury_keeps_capital_segregated() {
    let mut v = fresh_vault();
    let good = TreasuryCandidate { account: addr(40), owner: addr(3), mint: addr(2) };
    process_update_treasury(&mut v, addr(1), good).unwrap();
    assert_eq!(v.treasury, addr(40));

    let foreign_owner = TreasuryCandidate { account: addr(41), owner: addr(9), mint: addr(2) };
    let r = process_update_treasury(&mut v, addr(1), foreign_owner);
    assert_eq!(r.unwrap_err(), ErrorCode::InvalidTreasury);

    let wrong_mint = TreasuryCandidate { account: addr(42), owner: addr(3), mint: addr(9) };
    let r = process_update_treasury(&mut v, addr(1), wrong_mint);
    assert_eq!(r.unwrap_err(), ErrorCode::InvalidTreasury);
    assert_eq!(v.treasury, addr(40));
}

#[test]
fn transfer_authority_hands_over_control() {
    let mut v = fresh_vault();
    process_transfer_authority(&mut v, addr(1), addr(5)).unwrap();
    assert_eq!(v.authority, addr(5));

    // The old authority has lost its power; the new one holds it.
    let r = process_update_performance_fee(&mut v, addr(1), 500);
    assert_eq!(r.unwrap_err(), ErrorCode::Unauthorized);
    process_update_performance_fee(&mut v, addr(5), 500).unwrap();
    assert_eq!(v.performance_fee_bps, 500);
}

#[test]
fn transfer_authority_rejects_null_target() {
    let mut v = fresh_vault();
    let null = AccountRef { w0: 0, w1: 0, w2: 0, w3: 0 };
    let r = process_transfer_authority(&mut v, addr(1), null);
    assert_eq!(r.unwrap_err(), ErrorCode::InvalidAuthority);
    assert_eq!(v.authority, addr(1));
}

#[test]
fn revoke_authority_disables_all_governance() {
    let mut v = fresh_vault();
    process_revoke_authority(&mut v, addr(1)).unwrap();
    assert_eq!(v.authority, AccountRef { w0: 0, w1: 0, w2: 0, w3: 0 });

    // Every governance operation now fails, for every caller — including
    // the one that revoked, and including a second revocation.
    let cand = TreasuryCandidate { account: addr(40), owner: addr(3), mint: addr(2) };
    for caller in [addr(1), addr(9), AccountRef { w0: 0, w1: 0, w2: 0, w3: 0 }] {
        assert_eq!(
            process_update_performance_fee(&mut v, caller, 500).unwrap_err(),
            ErrorCode::GovernanceDisabled
        );
        assert_eq!(
            process_update_treasury(&mut v, caller, cand).unwrap_err(),
            ErrorCode::GovernanceDisabled
        );
        assert_eq!(
            process_transfer_authority(&mut v, caller, addr(5)).unwrap_err(),
            ErrorCode::GovernanceDisabled
        );
        assert_eq!(
            process_revoke_authority(&mut v, caller).unwrap_err(),
            ErrorCode::GovernanceDisabled
        );
    }
}

#[test]
fn revoked_governance_leaves_economics_running() {
    let mut v = fresh_vault();
    process_revoke_authority(&mut v, addr(1)).unwrap();

    let holder = addr(7);
    let mut p = UserStake::new(holder);
    process_mint_shares(&mut v, &mut p, holder, 100, 0).unwrap();
    process_deposit_revenue(&mut v, 1000).unwrap();
    let paid = process_harvest(&v, &mut p, holder, 900).unwrap();
    assert_eq!(paid, 900);
    process_redeem_shares(&mut v, &mut p, holder, 100, 0, 1000).unwrap();
    assert_eq!(v.minted_shares, 0);
}

#[test]
fn governance_rejects_wrong_caller_before_validation() {
    let mut v = fresh_vault();
    // A non-authority caller is turned away even with an invalid payload.
    let r = process_update_performance_fee(&mut v, addr(9), 2001);
    assert_eq!(r.unwrap_err(), ErrorCode::Unauthorized);
}
