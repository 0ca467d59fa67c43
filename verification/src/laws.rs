//! Laws of the market, stated over the same model the operation contracts
//! use and proved once and for all.

use crate::curve::BondingCurve;
use crate::global::Global;
use crate::model::{fee_lamports, lemma_quote_sol_bounds, lemma_round_trip_sol};
use vstd::arithmetic::div_mod::{lemma_div_denominator, lemma_div_multiples_vanish};
use vstd::arithmetic::mul::lemma_mul_inequality;
use vstd::prelude::*;

verus! {

/// Round-tripping creates no value: a buy followed by a sell of exactly
/// the tokens bought restores the token reserves and cannot leave either
/// lamport reserve above its pre-buy value, so the reserve product never
/// grows.
///
/// The law covers every buy that does not exhaust the tradable supply; a
/// supply-exhausting buy is re-priced against the fully diluted curve and
/// completes the market instead of keeping it balanced.
pub proof fn lemma_buy_sell_round_trip(c: BondingCurve, sol: u64)
    requires
        c.virtual_sol_reserves > 0,
        c.virtual_token_reserves > 0,
        c.buy_succeeds(sol as int),
        !c.buy_is_clamped(sol as int),
        c.buy_result_state(sol as int).sell_succeeds(c.buy_token_amount(sol as int)),
    ensures
        ({
            let c2 = c.buy_result_state(sol as int).sell_result_state(
                c.buy_token_amount(sol as int),
            );
            &&& c2.virtual_token_reserves == c.virtual_token_reserves
            &&& c2.real_token_reserves == c.real_token_reserves
            &&& c2.virtual_sol_reserves <= c.virtual_sol_reserves
            &&& c2.real_sol_reserves <= c.real_sol_reserves
            &&& c2.virtual_sol_reserves * c2.virtual_token_reserves <= c.virtual_sol_reserves
                * c.virtual_token_reserves
        }),
{
    let vsol = c.virtual_sol_reserves as int;
    let vtok = c.virtual_token_reserves as int;
    let ta = c.buy_token_amount(sol as int);
    let c1 = c.buy_result_state(sol as int);
    lemma_round_trip_sol(vsol, vtok, sol as int);
    lemma_quote_sol_bounds(vsol + sol, vtok - ta, ta);
    let c2 = c1.sell_result_state(ta);
    lemma_mul_inequality(
        c2.virtual_sol_reserves as int,
        c.virtual_sol_reserves as int,
        c.virtual_token_reserves as int,
    );
}

/// At the moment of launch the fee is ninety-nine percent of the amount,
/// rounded down.
pub proof fn lemma_fee_at_launch(start_time: i64, time_now: i64, amount: u64)
    requires
        start_time <= time_now,
        time_now - start_time < 400,
    ensures
        fee_lamports(start_time as int, time_now as int, amount as int) == amount * 9900 / 10_000,
        fee_lamports(start_time as int, time_now as int, amount as int) == amount * 99 / 100,
{
    lemma_div_denominator(amount * 9900, 100, 100);
    lemma_div_multiples_vanish(amount * 99, 100);
    assert(amount * 9900 == 100 * (amount * 99));
}

/// At the first slot of the decay phase the interpolation yields 917
/// basis points.
pub proof fn lemma_fee_at_decay_start(start_time: i64, time_now: i64, amount: u64)
    requires
        time_now - start_time == 60_000,
    ensures
        fee_lamports(start_time as int, time_now as int, amount as int) == amount * 917 / 10_000,
{
}

/// Once the decay phase is over the fee settles at exactly one percent of
/// the amount, rounded down.
pub proof fn lemma_fee_steady_state(start_time: i64, time_now: i64, amount: u64)
    requires
        time_now - start_time >= 100_400,
    ensures
        fee_lamports(start_time as int, time_now as int, amount as int) == amount * 100 / 10_000,
        fee_lamports(start_time as int, time_now as int, amount as int) == amount as int / 100,
{
    lemma_div_denominator(amount * 100, 100, 100);
    lemma_div_multiples_vanish(amount as int, 100);
    assert(amount * 100 == 100 * (amount as int));
}

/// A buy that reaches the tradable supply hands out exactly the remaining
/// tokens, drains the real token reserve to zero and completes the curve,
/// after which no further buy can succeed.
pub proof fn lemma_final_buy_clamps_and_completes(c: BondingCurve, sol: u64)
    requires
        c.buy_succeeds(sol as int),
        c.buy_is_clamped(sol as int),
    ensures
        c.buy_token_amount(sol as int) == c.real_token_reserves,
        c.buy_result_state(sol as int).real_token_reserves == 0,
        c.buy_result_state(sol as int).complete,
        forall|sol2: int| !(#[trigger] c.buy_result_state(sol as int).buy_succeeds(sol2)),
{
}

/// Completion is one-way: no buy or sell ever clears the flag, and a sell
/// never changes it.
pub proof fn lemma_complete_is_monotone(c: BondingCurve, sol: int, tokens: int)
    ensures
        c.sell_result_state(tokens).complete == c.complete,
        c.complete ==> c.buy_result_state(sol).complete,
{
}

/// Reconciliation detects a lamport drift of a single unit in either
/// direction: a custodied balance off by one from the real reserve plus
/// the rent floor never reconciles.
pub proof fn lemma_lamport_drift_breaks_reconciliation(
    c: BondingCurve,
    token_balance: u64,
    lamports: u64,
    rent_minimum: u64,
    g: Global,
)
    requires
        lamports == c.real_sol_reserves + rent_minimum + 1 || lamports + 1 == c.real_sol_reserves
            + rent_minimum,
    ensures
        !c.invariant_holds(token_balance as int, lamports as int, rent_minimum as int, g),
{
}

} // verus!
