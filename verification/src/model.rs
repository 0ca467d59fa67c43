//! Mathematical model of the pricing curve, the fee schedule and the
//! custody reconciliation, together with the bounds lemmas that the
//! executable code and the public laws rely on.
//!
//! All quantities are modelled as unbounded integers.  Lamport amounts
//! carry nine decimals and token amounts six, so the product of the two
//! virtual reserves is first scaled down by both decimal factors and then
//! scaled back up by the lamport factor, keeping intermediate values well
//! inside 128 bits.

use vstd::arithmetic::div_mod::{
    lemma_div_is_ordered, lemma_div_multiples_vanish, lemma_div_pos_is_pos,
    lemma_fundamental_div_mod, lemma_mod_division_less_than_divisor,
};
use vstd::arithmetic::mul::{
    lemma_mul_inequality, lemma_mul_inequality_converse, lemma_mul_is_associative,
    lemma_mul_is_commutative, lemma_mul_left_inequality, lemma_mul_nonnegative,
};
use vstd::prelude::*;

verus! {

/// The decimal-adjusted product of the virtual reserves: the constant that
/// a trade preserves, up to integer rounding.
pub open spec fn scaled_product(vsol: int, vtok: int) -> int {
    (vsol / 1_000_000_000) * (vtok / 1_000_000) * 1_000_000_000
}

/// Tokens released for `sol_in` lamports paid in: the token reserve drops
/// to the value that keeps the scaled product constant.
pub open spec fn quote_tokens_for_sol(vsol: int, vtok: int, sol_in: int) -> int {
    vtok - scaled_product(vsol, vtok) / (vsol + sol_in) * 1_000_000
}

/// Lamports released for `tokens_in` tokens paid in: the lamport reserve
/// drops to the value that keeps the scaled product constant.
pub open spec fn quote_sol_for_tokens(vsol: int, vtok: int, tokens_in: int) -> int {
    vsol - scaled_product(vsol, vtok) / (vtok + tokens_in) * 1_000_000
}

/// Fee rate in basis points as a function of the curve's age.
///
/// Three phases over `time_now - start_time`, measured in slots of 400
/// time units each: a prohibitive 99% before slot 150, a linear decay
/// through slot 250, and a steady 1% afterwards.
pub open spec fn fee_rate_bps(start_time: int, time_now: int) -> int {
    let diff = time_now - start_time;
    if diff < 60_000 {
        9900
    } else if diff < 100_400 {
        (2_162_600_000 - 8_300_000 * (diff / 400)) / 1_000_000
    } else {
        100
    }
}

/// The fee in lamports charged on `amount` at the curve age given by
/// `start_time` and `time_now`.
pub open spec fn fee_lamports(start_time: int, time_now: int, amount: int) -> int {
    amount * fee_rate_bps(start_time, time_now) / 10_000
}

/// The custodied token balance with the never-tradable portion of the
/// supply removed.  The curve's token account also holds the part of the
/// total supply that is reserved for migration; while it does, that part
/// must not count against the tradable bookkeeping.
pub open spec fn adjusted_token_balance(balance: int, initial_real: int, supply: int) -> int {
    if balance + initial_real >= supply {
        balance + initial_real - supply
    } else {
        balance
    }
}

/// The scaled product is nonnegative and at most `vsol * (vtok / 1_000_000)`.
proof fn lemma_scaled_product_bounds(vsol: int, vtok: int)
    requires
        0 <= vsol,
        0 <= vtok,
    ensures
        0 <= scaled_product(vsol, vtok),
        scaled_product(vsol, vtok) <= vsol * (vtok / 1_000_000),
{
    let d1 = vsol / 1_000_000_000;
    let d2 = vtok / 1_000_000;
    lemma_div_pos_is_pos(vsol, 1_000_000_000);
    lemma_div_pos_is_pos(vtok, 1_000_000);
    lemma_mul_nonnegative(d1, d2);
    lemma_mul_nonnegative(d1 * d2, 1_000_000_000);
    // d1 * 1_000_000_000 <= vsol
    lemma_fundamental_div_mod(vsol, 1_000_000_000);
    lemma_mod_division_less_than_divisor(vsol, 1_000_000_000);
    // regroup (d1 * d2) * B9 as (d1 * B9) * d2 and bound it by vsol * d2
    lemma_mul_is_associative(d1, d2, 1_000_000_000);
    lemma_mul_is_commutative(d2, 1_000_000_000);
    lemma_mul_is_associative(d1, 1_000_000_000, d2);
    lemma_mul_inequality(d1 * 1_000_000_000, vsol, d2);
}

/// A buy quote stays within the token reserve: for a positive payment the
/// quoted token amount lies between zero and `vtok`.
pub proof fn lemma_quote_tokens_bounds(vsol: int, vtok: int, sol_in: int)
    requires
        0 <= vsol,
        0 <= vtok,
        0 < sol_in,
    ensures
        0 <= quote_tokens_for_sol(vsol, vtok, sol_in) <= vtok,
{
    let d2 = vtok / 1_000_000;
    let p = scaled_product(vsol, vtok);
    let nv = vsol + sol_in;
    let q = p / nv;
    lemma_scaled_product_bounds(vsol, vtok);
    lemma_div_pos_is_pos(vtok, 1_000_000);
    lemma_div_pos_is_pos(p, nv);
    // q <= (vsol * d2) / nv <= (nv * d2) / nv == d2
    lemma_div_is_ordered(p, vsol * d2, nv);
    lemma_mul_inequality(vsol, nv, d2);
    lemma_div_is_ordered(vsol * d2, nv * d2, nv);
    lemma_mul_is_commutative(nv, d2);
    lemma_div_multiples_vanish(d2, nv);
    // q * 1_000_000 <= d2 * 1_000_000 <= vtok
    lemma_fundamental_div_mod(vtok, 1_000_000);
    lemma_mod_division_less_than_divisor(vtok, 1_000_000);
}

/// A sell quote stays within the lamport reserve: for a positive token
/// payment the quoted lamport amount lies between zero and `vsol`.
pub proof fn lemma_quote_sol_bounds(vsol: int, vtok: int, tokens_in: int)
    requires
        0 <= vsol,
        0 <= vtok,
        0 < tokens_in,
    ensures
        0 <= quote_sol_for_tokens(vsol, vtok, tokens_in) <= vsol,
{
    let d1 = vsol / 1_000_000_000;
    let d2 = vtok / 1_000_000;
    let p = scaled_product(vsol, vtok);
    let nt = vtok + tokens_in;
    let q = p / nt;
    lemma_scaled_product_bounds(vsol, vtok);
    lemma_div_pos_is_pos(vsol, 1_000_000_000);
    lemma_div_pos_is_pos(vtok, 1_000_000);
    lemma_div_pos_is_pos(p, nt);
    if d2 == 0 {
        // the product is zero, so the quote keeps the whole reserve
        lemma_div_is_ordered(p, 0, nt);
        assert(0int / nt == 0) by (nonlinear_arith)
            requires nt > 0;
    } else {
        // q * nt <= p, and d2 * 1_000_000 <= vtok < nt
        lemma_fundamental_div_mod(p, nt);
        lemma_mod_division_less_than_divisor(p, nt);
        lemma_fundamental_div_mod(vtok, 1_000_000);
        lemma_mod_division_less_than_divisor(vtok, 1_000_000);
        assert(nt * q <= p);
        if q > 0 {
            // (q * 1_000_000) * d2 <= q * nt <= p
            lemma_mul_is_commutative(nt, q);
            lemma_mul_left_inequality(q, d2 * 1_000_000, nt);
            lemma_mul_is_associative(q, d2, 1_000_000);
            lemma_mul_is_commutative(d2, 1_000_000);
            lemma_mul_is_associative(q, 1_000_000, d2);
            assert((q * 1_000_000) * d2 <= p);
            // p <= (d1 * 1_000_000_000) * d2
            lemma_fundamental_div_mod(vsol, 1_000_000_000);
            lemma_mod_division_less_than_divisor(vsol, 1_000_000_000);
            lemma_mul_is_associative(d1, d2, 1_000_000_000);
            lemma_mul_is_commutative(d2, 1_000_000_000);
            lemma_mul_is_associative(d1, 1_000_000_000, d2);
            // cancel d2 on both sides
            lemma_mul_inequality_converse(q * 1_000_000, d1 * 1_000_000_000, d2);
        } else {
            assert(q == 0);
        }
        assert(q * 1_000_000 <= vsol);
    }
}

/// Paying the tokens from a buy straight back never returns fewer lamports
/// than the buy cost: after quoting `ta` tokens for `sol_in` lamports and
/// then quoting lamports for those same `ta` tokens against the post-buy
/// reserves, the lamport quote is at least `sol_in`.
///
/// This is the arithmetic core of the round-trip laws: the buy leaves the
/// token reserve at an exact multiple of the token decimal factor, so the
/// sell's scaled product can only shrink, and the lamport reserve falls
/// back to (at most) its pre-buy value.
pub proof fn lemma_round_trip_sol(vsol: int, vtok: int, sol_in: int)
    requires
        0 <= vsol,
        0 < vtok,
        0 < sol_in,
    ensures
        ({
            let ta = quote_tokens_for_sol(vsol, vtok, sol_in);
            quote_sol_for_tokens(vsol + sol_in, vtok - ta, ta) >= sol_in
        }),
{
    let d1 = vsol / 1_000_000_000;
    let d2 = vtok / 1_000_000;
    let p0 = scaled_product(vsol, vtok);
    let nv = vsol + sol_in;
    let qb = p0 / nv;
    let ta = quote_tokens_for_sol(vsol, vtok, sol_in);
    let vtok1 = vtok - ta;
    assert(vtok1 == qb * 1_000_000);
    lemma_scaled_product_bounds(vsol, vtok);
    lemma_div_pos_is_pos(p0, nv);
    lemma_div_pos_is_pos(vsol, 1_000_000_000);
    lemma_div_pos_is_pos(vtok, 1_000_000);

    // the sell sees reserves (nv, vtok1) and a divisor of exactly vtok
    let d1s = nv / 1_000_000_000;
    let d2s = vtok1 / 1_000_000;
    lemma_mul_is_commutative(qb, 1_000_000);
    lemma_div_multiples_vanish(qb, 1_000_000);
    assert(d2s == qb);
    let p1 = scaled_product(nv, vtok1);
    assert(vtok1 + ta == vtok);

    // p1 == (d1s * B9) * qb <= nv * qb <= p0
    lemma_fundamental_div_mod(nv, 1_000_000_000);
    lemma_mod_division_less_than_divisor(nv, 1_000_000_000);
    lemma_mul_is_associative(d1s, d2s, 1_000_000_000);
    lemma_mul_is_commutative(d2s, 1_000_000_000);
    lemma_mul_is_associative(d1s, 1_000_000_000, qb);
    lemma_mul_inequality(d1s * 1_000_000_000, nv, qb);
    lemma_fundamental_div_mod(p0, nv);
    lemma_mod_division_less_than_divisor(p0, nv);
    assert(nv * qb <= p0);
    lemma_mul_is_commutative(nv, qb);
    assert(p1 <= p0);

    // qs <= Q where Q == p0 / vtok, and Q * 1_000_000 <= vsol
    let qs = p1 / vtok;
    let big_q = p0 / vtok;
    lemma_div_is_ordered(p1, p0, vtok);
    lemma_div_pos_is_pos(p1, vtok);
    lemma_fundamental_div_mod(p0, vtok);
    lemma_mod_division_less_than_divisor(p0, vtok);
    assert(vtok * big_q <= p0);
    lemma_fundamental_div_mod(vtok, 1_000_000);
    lemma_mod_division_less_than_divisor(vtok, 1_000_000);
    if d2 == 0 {
        assert(p0 == 0) by {
            lemma_mul_is_associative(d1, d2, 1_000_000_000);
            assert(d1 * d2 == 0) by (nonlinear_arith)
                requires d2 == 0;
            assert((d1 * d2) * 1_000_000_000 == 0) by (nonlinear_arith)
                requires d1 * d2 == 0;
        }
        lemma_div_pos_is_pos(p0, vtok);
        lemma_div_is_ordered(p0, 0, vtok);
        assert(0int / vtok == 0) by (nonlinear_arith)
            requires vtok > 0;
        assert(big_q == 0);
    } else {
        // Q * (d2 * 1_000_000) <= Q * vtok <= p0 <= vsol * d2
        lemma_div_pos_is_pos(p0, vtok);
        if big_q > 0 {
            lemma_mul_is_commutative(vtok, big_q);
            lemma_mul_left_inequality(big_q, d2 * 1_000_000, vtok);
            lemma_mul_is_associative(big_q, d2, 1_000_000);
            lemma_mul_is_commutative(d2, 1_000_000);
            lemma_mul_is_associative(big_q, 1_000_000, d2);
            assert((big_q * 1_000_000) * d2 <= p0);
            lemma_mul_inequality_converse(big_q * 1_000_000, vsol, d2);
        } else {
            assert(big_q == 0);
        }
    }
    assert(big_q * 1_000_000 <= vsol);
    assert(qs * 1_000_000 <= big_q * 1_000_000);
    assert(quote_sol_for_tokens(nv, vtok1, ta) == nv - qs * 1_000_000);
}

/// The fee rate is always a positive number of basis points and never
/// exceeds the launch-phase rate.
pub proof fn lemma_fee_rate_bounds(start_time: int, time_now: int)
    ensures
        0 < fee_rate_bps(start_time, time_now) <= 9900,
{
    let diff = time_now - start_time;
    if 60_000 <= diff < 100_400 {
        let slots = diff / 400;
        lemma_div_is_ordered(60_000, diff, 400);
        lemma_div_is_ordered(diff, 100_399, 400);
        assert(150 <= slots <= 250);
        let numerator = 2_162_600_000 - 8_300_000 * slots;
        assert(87_600_000 <= numerator <= 917_600_000);
        lemma_div_is_ordered(87_600_000, numerator, 1_000_000);
        lemma_div_is_ordered(numerator, 917_600_000, 1_000_000);
    }
}

/// The fee never exceeds the amount it is charged on.
pub proof fn lemma_fee_le_amount(start_time: int, time_now: int, amount: int)
    requires
        0 <= amount,
    ensures
        0 <= fee_lamports(start_time, time_now, amount) <= amount,
{
    let bps = fee_rate_bps(start_time, time_now);
    lemma_fee_rate_bounds(start_time, time_now);
    lemma_mul_nonnegative(amount, bps);
    lemma_div_pos_is_pos(amount * bps, 10_000);
    // amount * bps <= amount * 10_000, so the quotient is at most amount
    if amount > 0 {
        lemma_mul_left_inequality(amount, bps, 10_000);
        lemma_div_is_ordered(amount * bps, amount * 10_000, 10_000);
        lemma_mul_is_commutative(amount, 10_000);
        lemma_div_multiples_vanish(amount, 10_000);
    } else {
        assert(amount * bps == 0) by (nonlinear_arith)
            requires amount == 0;
        assert(0int / 10_000 == 0) by (nonlinear_arith);
    }
}

} // verus!
