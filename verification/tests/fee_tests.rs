//! The three-phase fee schedule, slot by slot.

use bonding_curve::{bps_mul, bps_mul_raw, BondingCurve, ContractError};

fn curve_started_at(start_time: i64) -> BondingCurve {
    BondingCurve {
        mint: 1,
        creator: 2,
        initial_virtual_token_reserves: 100_000_000_000_000,
        virtual_sol_reserves: 30_000_000_000,
        virtual_token_reserves: 100_000_000_000_000,
        real_sol_reserves: 0,
        real_token_reserves: 50_000_000_000_000,
        token_total_supply: 100_000_000_000_000,
        start_time,
        complete: false,
        sol_raise_target: 0,
    }
}

#[test]
fn fee_at_slot_zero_is_ninety_nine_percent() {
    let curve = curve_started_at(0);
    assert_eq!(curve.calculate_fee(1_000_000, 0), Ok(990_000));
    assert_eq!(curve.calculate_fee(101, 0), Ok(99));
}

#[test]
fn fee_stays_prohibitive_through_slot_149() {
    let curve = curve_started_at(0);
    assert_eq!(curve.calculate_fee(1_000_000, 59_999), Ok(990_000));
}

#[test]
fn fee_at_slot_150_takes_interpolated_boundary_value() {
    // (-8_300_000 * 150 + 2_162_600_000) / 1_000_000 == 917 bps
    let curve = curve_started_at(0);
    assert_eq!(curve.calculate_fee(1_000_000, 60_000), Ok(91_700));
}

#[test]
fn fee_decays_linearly_through_the_window() {
    let curve = curve_started_at(0);
    // slot 200: (-8_300_000 * 200 + 2_162_600_000) / 1_000_000 == 502 bps
    assert_eq!(curve.calculate_fee(1_000_000, 80_000), Ok(50_200));
}

#[test]
fn fee_at_slot_250_takes_final_interpolated_value() {
    // the interpolation window is inclusive of slot 250:
    // (-8_300_000 * 250 + 2_162_600_000) / 1_000_000 == 87 bps
    let curve = curve_started_at(0);
    assert_eq!(curve.calculate_fee(1_000_000, 100_000), Ok(8_700));
    assert_eq!(curve.calculate_fee(1_000_000, 100_399), Ok(8_700));
}

#[test]
fn fee_settles_at_one_percent_after_slot_250() {
    let curve = curve_started_at(0);
    assert_eq!(curve.calculate_fee(1_000_000, 100_400), Ok(10_000));
    // slot 400
    assert_eq!(curve.calculate_fee(1_000_000, 160_000), Ok(10_000));
    assert_eq!(curve.calculate_fee(123_456_789, 160_000), Ok(1_234_567));
}

#[test]
fn fee_before_start_charges_launch_rate() {
    let curve = curve_started_at(0);
    assert_eq!(curve.calculate_fee(1_000_000, -5_000), Ok(990_000));
}

#[test]
fn fee_fails_when_curve_age_overflows() {
    let curve = curve_started_at(-2);
    assert_eq!(
        curve.calculate_fee(1_000_000, i64::MAX),
        Err(ContractError::ArithmeticError)
    );
}

#[test]
fn bps_mul_computes_floored_share() {
    assert_eq!(bps_mul(9900, 10_000, 10_000), Some(9_900));
    assert_eq!(bps_mul(100, 12_345, 10_000), Some(123));
    assert_eq!(bps_mul(1, 1, 10_000), Some(0));
}

#[test]
fn bps_mul_rejects_results_beyond_sixty_four_bits() {
    assert_eq!(bps_mul(u64::MAX, u64::MAX, 1), None);
}

#[test]
fn bps_mul_raw_keeps_wide_results() {
    assert_eq!(bps_mul_raw(2, 3, 4), Some(1));
    assert_eq!(
        bps_mul_raw(u64::MAX, u64::MAX, 1),
        Some(u64::MAX as u128 * u64::MAX as u128)
    );
    assert_eq!(bps_mul_raw(1, 1, 0), None);
}
