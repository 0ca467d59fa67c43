//! The swap entry point: admission checks, pricing, fee and slippage in
//! one atomic step.
//!
//! The caller performs the actual transfers afterwards and then reconciles
//! with [`BondingCurve::check_invariant`]; this function only decides and
//! commits the bookkeeping.

use crate::curve::BondingCurve;
use crate::errors::ContractError;
use crate::model::{fee_lamports, lemma_fee_le_amount};
use vstd::prelude::*;

verus! {

/// A swap request: direction, size and the caller's slippage floor.
#[derive(Clone, Copy, Debug)]
pub struct SwapParams {
    /// `true` sells tokens for lamports, `false` buys tokens with lamports.
    pub base_in: bool,
    /// Tokens to sell, or lamports to spend.
    pub amount: u64,
    /// Least acceptable output: lamports after fee for a sell, tokens for
    /// a buy.
    pub min_out_amount: u64,
}

/// The committed trade, for the caller to settle: move `sol_amount`
/// against `token_amount`, and pay `fee_lamports` out of the lamport leg
/// to the fee receiver.
#[derive(Clone, Copy, Debug, PartialEq, Eq, Structural)]
pub struct SwapOutcome {
    /// `true` for a buy, `false` for a sell.
    pub is_buy: bool,
    /// Tokens bought or sold.
    pub token_amount: u64,
    /// Lamports paid in (buy) or quoted out before the fee (sell).
    pub sol_amount: u64,
    /// Fee on the lamport leg.
    pub fee_lamports: u64,
    /// Whole lamports per token, rounded down.
    pub price_per_token: u64,
}

/// Whether a swap request passes the admission checks: the curve is still
/// trading, has started, and the request is not empty.
pub open spec fn swap_admitted(c: BondingCurve, params: SwapParams, now: int) -> bool {
    &&& !c.complete
    &&& now >= c.start_time
    &&& params.amount > 0
}

/// Execute a swap request against the curve.
///
/// Admission errors, pricing failures, fee overflow and slippage all leave
/// the curve untouched; on success the curve holds exactly the state the
/// matching `apply_buy` / `apply_sell` commits.
pub fn swap(curve: &mut BondingCurve, params: SwapParams, now: i64) -> (r: Result<
    SwapOutcome,
    ContractError,
>)
    ensures
        r is Err ==> *final(curve) == *old(curve),
        old(curve).complete ==> r == Err::<SwapOutcome, ContractError>(
            ContractError::CurveComplete,
        ),
        !old(curve).complete && now < old(curve).start_time ==> r == Err::<
            SwapOutcome,
            ContractError,
        >(ContractError::CurveNotStarted),
        !old(curve).complete && now >= old(curve).start_time && params.amount == 0 ==> r == Err::<
            SwapOutcome,
            ContractError,
        >(ContractError::MinSwap),
        swap_admitted(*old(curve), params, now as int) && params.base_in ==> {
            let c = *old(curve);
            let quote = c.sell_quote(params.amount as int);
            let fee = fee_lamports(c.start_time as int, now as int, quote);
            if !c.sell_succeeds(params.amount as int) {
                r == Err::<SwapOutcome, ContractError>(ContractError::SellFailed)
            } else if now - c.start_time > i64::MAX {
                r == Err::<SwapOutcome, ContractError>(ContractError::ArithmeticError)
            } else if quote - fee < params.min_out_amount {
                r == Err::<SwapOutcome, ContractError>(ContractError::SlippageExceeded)
            } else {
                &&& r is Ok
                &&& *final(curve) == c.sell_result_state(params.amount as int)
                &&& r->Ok_0 == (SwapOutcome {
                    is_buy: false,
                    token_amount: params.amount,
                    sol_amount: quote as u64,
                    fee_lamports: fee as u64,
                    price_per_token: (quote / params.amount as int) as u64,
                })
            }
        },
        swap_admitted(*old(curve), params, now as int) && !params.base_in ==> {
            let c = *old(curve);
            let cost = c.buy_sol_cost(params.amount as int);
            let tokens = c.buy_token_amount(params.amount as int);
            let fee = fee_lamports(c.start_time as int, now as int, cost);
            if !c.buy_succeeds(params.amount as int) {
                r == Err::<SwapOutcome, ContractError>(ContractError::BuyFailed)
            } else if now - c.start_time > i64::MAX {
                r == Err::<SwapOutcome, ContractError>(ContractError::ArithmeticError)
            } else if tokens < params.min_out_amount {
                r == Err::<SwapOutcome, ContractError>(ContractError::SlippageExceeded)
            } else {
                &&& r is Ok
                &&& *final(curve) == c.buy_result_state(params.amount as int)
                &&& r->Ok_0 == (SwapOutcome {
                    is_buy: true,
                    token_amount: tokens as u64,
                    sol_amount: cost as u64,
                    fee_lamports: fee as u64,
                    price_per_token: (if tokens > 0 {
                        cost / tokens
                    } else {
                        0
                    }) as u64,
                })
            }
        },
{
    if curve.complete {
        return Err(ContractError::CurveComplete);
    }
    if !curve.is_started(now) {
        return Err(ContractError::CurveNotStarted);
    }
    if params.amount == 0 {
        return Err(ContractError::MinSwap);
    }
    if params.base_in {
        // sell tokens for lamports
        let mut scratch = *curve;
        let sell_result = match scratch.apply_sell(params.amount) {
            Some(result) => result,
            None => {
                return Err(ContractError::SellFailed);
            },
        };
        let fee = match curve.calculate_fee(sell_result.sol_amount, now) {
            Ok(fee) => fee,
            Err(e) => {
                return Err(e);
            },
        };
        proof {
            lemma_fee_le_amount(
                curve.start_time as int,
                now as int,
                sell_result.sol_amount as int,
            );
        }
        let net_to_seller = sell_result.sol_amount - fee;
        if net_to_seller < params.min_out_amount {
            return Err(ContractError::SlippageExceeded);
        }
        *curve = scratch;
        Ok(
            SwapOutcome {
                is_buy: false,
                token_amount: sell_result.token_amount,
                sol_amount: sell_result.sol_amount,
                fee_lamports: fee,
                price_per_token: sell_result.price_per_token,
            },
        )
    } else {
        // buy tokens with lamports
        let mut scratch = *curve;
        let buy_result = match scratch.apply_buy(params.amount) {
            Some(result) => result,
            None => {
                return Err(ContractError::BuyFailed);
            },
        };
        let fee = match curve.calculate_fee(buy_result.sol_amount, now) {
            Ok(fee) => fee,
            Err(e) => {
                return Err(e);
            },
        };
        if buy_result.token_amount < params.min_out_amount {
            return Err(ContractError::SlippageExceeded);
        }
        *curve = scratch;
        Ok(
            SwapOutcome {
                is_buy: true,
                token_amount: buy_result.token_amount,
                sol_amount: buy_result.sol_amount,
                fee_lamports: fee,
                price_per_token: buy_result.price_per_token,
            },
        )
    }
}

} // verus!
