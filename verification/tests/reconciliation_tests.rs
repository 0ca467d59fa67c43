//! Reconciling the bookkeeping against custodied balances, and the global
//! configuration lifecycle.

use bonding_curve::{BondingCurve, ContractError, Global, GlobalSettingsInput, ProgramStatus};

fn no_changes() -> GlobalSettingsInput {
    GlobalSettingsInput {
        initial_virtual_token_reserves: None,
        initial_virtual_sol_reserves: None,
        initial_real_token_reserves: None,
        token_total_supply: None,
        mint_decimals: None,
        migrate_fee_amount: None,
        fee_receiver: None,
        status: None,
        whitelist_enabled: None,
    }
}

fn traded_curve() -> BondingCurve {
    // the state after the documented one-SOL buy on a fresh curve
    BondingCurve {
        mint: 1,
        creator: 2,
        initial_virtual_token_reserves: 100_000_000_000_000,
        virtual_sol_reserves: 31_000_000_000,
        virtual_token_reserves: 96_774_193_000_000,
        real_sol_reserves: 1_000_000_000,
        real_token_reserves: 46_774_193_000_000,
        token_total_supply: 100_000_000_000_000,
        start_time: 0,
        complete: false,
        sol_raise_target: 0,
    }
}

const RENT: u64 = 2_039_280;

#[test]
fn reconciliation_accepts_matching_balances() {
    let curve = traded_curve();
    let global = Global::default();
    // the custody account holds the tradable balance plus the reserved
    // half of the supply; the adjustment removes the reserved part
    let token_balance = curve.real_token_reserves + 50_000_000_000_000;
    let lamports = curve.real_sol_reserves + RENT;
    assert_eq!(
        curve.check_invariant(token_balance, lamports, RENT, &global),
        Ok(())
    );
}

#[test]
fn reconciliation_accepts_released_reserve_balance() {
    // once the reserved portion has left the account, the balance is
    // below the adjustment threshold and counts as-is
    let curve = traded_curve();
    let global = Global::default();
    let lamports = curve.real_sol_reserves + RENT;
    assert_eq!(
        curve.check_invariant(curve.real_token_reserves, lamports, RENT, &global),
        Ok(())
    );
}

#[test]
fn reconciliation_detects_single_lamport_drift() {
    let curve = traded_curve();
    let global = Global::default();
    let token_balance = curve.real_token_reserves + 50_000_000_000_000;
    let lamports = curve.real_sol_reserves + RENT;
    assert_eq!(
        curve.check_invariant(token_balance, lamports + 1, RENT, &global),
        Err(ContractError::BondingCurveInvariant)
    );
    assert_eq!(
        curve.check_invariant(token_balance, lamports - 1, RENT, &global),
        Err(ContractError::BondingCurveInvariant)
    );
}

#[test]
fn reconciliation_detects_token_mismatch() {
    let curve = traded_curve();
    let global = Global::default();
    let lamports = curve.real_sol_reserves + RENT;
    assert_eq!(
        curve.check_invariant(curve.real_token_reserves + 1, lamports, RENT, &global),
        Err(ContractError::BondingCurveInvariant)
    );
}

#[test]
fn reconciliation_detects_drained_virtual_reserves() {
    let mut curve = traded_curve();
    curve.virtual_sol_reserves = 0;
    let global = Global::default();
    let lamports = curve.real_sol_reserves + RENT;
    assert_eq!(
        curve.check_invariant(curve.real_token_reserves, lamports, RENT, &global),
        Err(ContractError::BondingCurveInvariant)
    );
    let mut curve = traded_curve();
    curve.virtual_token_reserves = 0;
    assert_eq!(
        curve.check_invariant(curve.real_token_reserves, lamports, RENT, &global),
        Err(ContractError::BondingCurveInvariant)
    );
}

#[test]
fn reconciliation_reports_adjustment_overflow() {
    let curve = traded_curve();
    let global = Global::default();
    let lamports = curve.real_sol_reserves + RENT;
    assert_eq!(
        curve.check_invariant(u64::MAX, lamports, RENT, &global),
        Err(ContractError::ArithmeticError)
    );
}

#[test]
fn reconciliation_rejects_balance_below_rent_floor() {
    let curve = traded_curve();
    let global = Global::default();
    assert_eq!(
        curve.check_invariant(curve.real_token_reserves, RENT - 1, RENT, &global),
        Err(ContractError::BondingCurveInvariant)
    );
}

#[test]
fn global_default_matches_documented_configuration() {
    let global = Global::default();
    assert_eq!(global.status, ProgramStatus::Running);
    assert!(global.initialized);
    assert_eq!(global.migrate_fee_amount, 500);
    assert_eq!(global.initial_virtual_token_reserves, 100_000_000_000_000);
    assert_eq!(global.initial_virtual_sol_reserves, 30_000_000_000);
    assert_eq!(global.initial_real_token_reserves, 50_000_000_000_000);
    assert_eq!(global.token_total_supply, 100_000_000_000_000);
    assert_eq!(global.mint_decimals, 6);
    assert!(!global.whitelist_enabled);
}

#[test]
fn global_initialize_records_authority_once() {
    let mut global = Global { initialized: false, ..Global::default() };
    assert_eq!(global.initialize(no_changes(), 42), Ok(()));
    assert!(global.initialized);
    assert_eq!(global.global_authority, 42);
    assert_eq!(
        global.initialize(no_changes(), 43),
        Err(ContractError::AlreadyInitialized)
    );
    assert_eq!(global.global_authority, 42);
}

#[test]
fn global_initialize_rejects_zero_decimals() {
    let mut global = Global { initialized: false, ..Global::default() };
    let params = GlobalSettingsInput { mint_decimals: Some(0), ..no_changes() };
    assert_eq!(global.initialize(params, 42), Err(ContractError::InvalidArgument));
    assert!(!global.initialized);
}

#[test]
fn global_update_settings_overwrites_only_given_fields() {
    let mut global = Global::default();
    let params = GlobalSettingsInput {
        initial_virtual_sol_reserves: Some(40_000_000_000),
        status: Some(ProgramStatus::Paused),
        whitelist_enabled: Some(true),
        ..no_changes()
    };
    global.update_settings(params);
    assert_eq!(global.initial_virtual_sol_reserves, 40_000_000_000);
    assert_eq!(global.status, ProgramStatus::Paused);
    assert!(global.whitelist_enabled);
    // untouched fields keep their values
    assert_eq!(global.initial_virtual_token_reserves, 100_000_000_000_000);
    assert_eq!(global.mint_decimals, 6);
}
