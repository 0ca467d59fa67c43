//! Behaviour of the curve state: creation, pricing, buys and sells.

use bonding_curve::{BondingCurve, CreateBondingCurveParams, ContractError, Global};

fn fixture_curve() -> BondingCurve {
    BondingCurve {
        mint: 1,
        creator: 2,
        initial_virtual_token_reserves: 100_000_000_000_000,
        virtual_sol_reserves: 30_000_000_000,
        virtual_token_reserves: 100_000_000_000_000,
        real_sol_reserves: 0,
        real_token_reserves: 50_000_000_000_000,
        token_total_supply: 100_000_000_000_000,
        start_time: 0,
        complete: false,
        sol_raise_target: 0,
    }
}

#[test]
fn update_from_params_seeds_from_global() {
    let global = Global::default();
    let params = CreateBondingCurveParams { start_time: Some(1_000), sol_raise_target: 77 };
    let mut curve = fixture_curve();
    curve.update_from_params(9, 8, &global, &params, 500);
    assert_eq!(curve.mint, 9);
    assert_eq!(curve.creator, 8);
    assert_eq!(curve.virtual_token_reserves, 100_000_000_000_000);
    assert_eq!(curve.initial_virtual_token_reserves, 100_000_000_000_000);
    assert_eq!(curve.virtual_sol_reserves, 30_000_000_000);
    assert_eq!(curve.real_token_reserves, 50_000_000_000_000);
    assert_eq!(curve.real_sol_reserves, 0);
    assert_eq!(curve.token_total_supply, 100_000_000_000_000);
    assert_eq!(curve.start_time, 1_000);
    assert_eq!(curve.sol_raise_target, 77);
    assert!(!curve.complete);
}

#[test]
fn update_from_params_without_start_time_starts_now() {
    let global = Global::default();
    let params = CreateBondingCurveParams { start_time: None, sol_raise_target: 0 };
    let mut curve = fixture_curve();
    curve.update_from_params(9, 8, &global, &params, 12_345);
    assert_eq!(curve.start_time, 12_345);
}

#[test]
fn validate_rejects_past_start_time() {
    let params = CreateBondingCurveParams { start_time: Some(400), sol_raise_target: 0 };
    assert_eq!(params.validate(500), Err(ContractError::InvalidStartTime));
    assert_eq!(params.validate(400), Ok(()));
    let open_now = CreateBondingCurveParams { start_time: None, sol_raise_target: 0 };
    assert_eq!(open_now.validate(500), Ok(()));
}

#[test]
fn is_started_compares_against_start_time() {
    let mut curve = fixture_curve();
    curve.start_time = 1_000;
    assert!(!curve.is_started(999));
    assert!(curve.is_started(1_000));
    assert!(curve.is_started(1_001));
}

#[test]
fn quote_on_documented_fixture() {
    // 30 SOL of virtual lamports against 100M virtual tokens: one SOL
    // buys 3_225_807 whole tokens at six decimals
    let curve = fixture_curve();
    let quote = curve.get_tokens_for_buy_sol(1_000_000_000);
    assert_eq!(quote, Some(3_225_807_000_000));
}

#[test]
fn quote_rejects_zero_amounts() {
    let curve = fixture_curve();
    assert_eq!(curve.get_tokens_for_buy_sol(0), None);
    assert_eq!(curve.get_sol_for_sell_tokens(0), None);
}

#[test]
fn apply_buy_on_documented_fixture() {
    let mut curve = fixture_curve();
    let result = curve.apply_buy(1_000_000_000).unwrap();
    assert_eq!(result.token_amount, 3_225_807_000_000);
    assert_eq!(result.sol_amount, 1_000_000_000);
    assert_eq!(result.price_per_token, 0);
    assert_eq!(curve.virtual_token_reserves, 96_774_193_000_000);
    assert_eq!(curve.real_token_reserves, 46_774_193_000_000);
    assert_eq!(curve.virtual_sol_reserves, 31_000_000_000);
    assert_eq!(curve.real_sol_reserves, 1_000_000_000);
    assert!(!curve.complete);
}

#[test]
fn apply_buy_rejects_zero_and_complete() {
    let mut curve = fixture_curve();
    assert!(curve.apply_buy(0).is_none());
    curve.complete = true;
    assert!(curve.apply_buy(1_000_000_000).is_none());
    let untouched = fixture_curve();
    assert_eq!(curve.virtual_token_reserves, untouched.virtual_token_reserves);
}

#[test]
fn apply_buy_marks_complete_at_raise_target() {
    let mut curve = fixture_curve();
    curve.sol_raise_target = 500_000_000;
    // the trade is not resized: the full payment still goes through
    let result = curve.apply_buy(1_000_000_000).unwrap();
    assert_eq!(result.sol_amount, 1_000_000_000);
    assert_eq!(result.token_amount, 3_225_807_000_000);
    assert!(curve.complete);
}

#[test]
fn apply_buy_below_raise_target_stays_active() {
    let mut curve = fixture_curve();
    curve.sol_raise_target = 10_000_000_000;
    let result = curve.apply_buy(1_000_000_000).unwrap();
    assert_eq!(result.sol_amount, 1_000_000_000);
    assert!(!curve.complete);
}

#[test]
fn final_buy_clamps_to_remaining_supply() {
    let mut curve = fixture_curve();
    curve.real_token_reserves = 1_000_000_000_000;
    let result = curve.apply_buy(1_000_000_000_000).unwrap();
    // clamped to the remaining million tokens and re-priced against the
    // fully diluted curve
    assert_eq!(result.token_amount, 1_000_000_000_000);
    assert_eq!(result.sol_amount, 1_155_359_056);
    assert_eq!(curve.real_token_reserves, 0);
    assert_eq!(curve.virtual_token_reserves, 99_000_000_000_000);
    assert_eq!(curve.virtual_sol_reserves, 31_155_359_056);
    assert_eq!(curve.real_sol_reserves, 1_155_359_056);
    assert!(curve.complete);
    // the market is inert now
    assert!(curve.apply_buy(1_000_000_000).is_none());
}

#[test]
fn exhausted_supply_without_completion_cannot_buy() {
    let mut curve = fixture_curve();
    curve.real_token_reserves = 0;
    let before = curve;
    assert!(curve.apply_buy(1_000_000_000).is_none());
    assert_eq!(curve, before);
}

#[test]
fn apply_sell_round_trip_does_not_create_value() {
    let mut curve = fixture_curve();
    curve.real_sol_reserves = 10_000_000_000;
    let bought = curve.apply_buy(1_000_000_000).unwrap();
    let sold = curve.apply_sell(bought.token_amount).unwrap();
    assert_eq!(sold.token_amount, 3_225_807_000_000);
    assert_eq!(sold.sol_amount, 1_001_000_000);
    // token reserves return exactly; the lamport reserves never exceed
    // their pre-buy values
    assert_eq!(curve.virtual_token_reserves, 100_000_000_000_000);
    assert_eq!(curve.real_token_reserves, 50_000_000_000_000);
    assert!(curve.virtual_sol_reserves <= 30_000_000_000);
    assert!(curve.real_sol_reserves <= 10_000_000_000);
    assert_eq!(curve.virtual_sol_reserves, 29_999_000_000);
    assert_eq!(curve.real_sol_reserves, 9_999_000_000);
}

#[test]
fn apply_sell_rejects_payout_beyond_reserve() {
    let mut curve = fixture_curve();
    let bought = curve.apply_buy(1_000_000_000).unwrap();
    let before = curve;
    // the curve only custodies the one paid SOL; the quoted payout of
    // 1_001_000_000 lamports exceeds it, so nothing changes
    assert!(curve.apply_sell(bought.token_amount).is_none());
    assert_eq!(curve, before);
}

#[test]
fn apply_sell_rejects_zero_tokens() {
    let mut curve = fixture_curve();
    let before = curve;
    assert!(curve.apply_sell(0).is_none());
    assert_eq!(curve, before);
}

#[test]
fn apply_sell_pays_from_reserve() {
    let mut curve = fixture_curve();
    curve.real_sol_reserves = 5_000_000_000;
    let sold = curve.apply_sell(3_000_000_000_000).unwrap();
    // product 3e18 over 103e12 tokens: the lamport reserve drops to
    // 29_126_000_000 and the difference is paid out
    assert_eq!(sold.sol_amount, 874_000_000);
    assert_eq!(sold.price_per_token, 0);
    assert_eq!(curve.virtual_sol_reserves, 29_126_000_000);
    assert_eq!(curve.virtual_token_reserves, 103_000_000_000_000);
    assert_eq!(curve.real_token_reserves, 53_000_000_000_000);
    assert_eq!(curve.real_sol_reserves, 4_126_000_000);
}
