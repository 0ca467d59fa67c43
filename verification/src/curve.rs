//! The bonding-curve market state and its operations.

use crate::errors::ContractError;
use crate::global::Global;
use crate::math::bps_mul;
use crate::model::{
    adjusted_token_balance, fee_lamports, lemma_fee_le_amount, lemma_quote_sol_bounds,
    lemma_quote_tokens_bounds, quote_sol_for_tokens, quote_tokens_for_sol,
};
use vstd::arithmetic::div_mod::{lemma_div_is_ordered, lemma_div_pos_is_pos};
use vstd::arithmetic::mul::lemma_mul_upper_bound;
use vstd::prelude::*;

verus! {

/// Virtual lamport reserve assumed by the final, supply-exhausting buy:
/// the fully diluted value of the curve once every tradable token is gone.
pub const FULLY_DILUTED_VIRTUAL_SOL: u64 = 115_005_359_056;

/// One market: a fixed token supply sold against lamports along a
/// constant-product curve.
///
/// The virtual reserves price trades; the real reserves mirror the
/// custodied funds.  `complete` latches to `true` when the raise target is
/// reached or the tradable supply is exhausted, and never reverts.
/// The traded asset and its creator are carried as opaque numeric
/// identifiers supplied by the host environment.
#[derive(Clone, Copy, Debug, PartialEq, Eq, Structural)]
pub struct BondingCurve {
    pub mint: u64,
    pub creator: u64,
    pub initial_virtual_token_reserves: u64,
    pub virtual_sol_reserves: u64,
    pub virtual_token_reserves: u64,
    pub real_sol_reserves: u64,
    pub real_token_reserves: u64,
    pub token_total_supply: u64,
    pub start_time: i64,
    pub complete: bool,
    pub sol_raise_target: u64,
}

/// Creation parameters consumed by the curve itself.
///
/// Token and community metadata (names, links, descriptions) stay with the
/// host; the curve only needs its trading start and raise target.
#[derive(Clone, Copy, Debug)]
pub struct CreateBondingCurveParams {
    /// Trading start; `None` starts trading immediately.
    pub start_time: Option<i64>,
    /// Lamport raise that completes the curve; zero disables the target.
    pub sol_raise_target: u64,
}

/// What a buyer receives and pays.
#[derive(Clone, Copy, Debug, PartialEq, Eq, Structural)]
pub struct BuyResult {
    /// Amount of tokens that the user will receive.
    pub token_amount: u64,
    /// Amount of SOL that the user paid.
    pub sol_amount: u64,
    /// Whole lamports paid per token, rounded down; zero for a zero-token
    /// trade.
    pub price_per_token: u64,
}

/// What a seller pays and receives.
#[derive(Clone, Copy, Debug, PartialEq, Eq, Structural)]
pub struct SellResult {
    /// Amount of tokens that the user is selling.
    pub token_amount: u64,
    /// Amount of SOL that the user will receive.
    pub sol_amount: u64,
    /// Whole lamports received per token, rounded down; zero for a
    /// zero-token trade.
    pub price_per_token: u64,
}

impl CreateBondingCurveParams {
    /// A requested trading start must not lie in the past.
    pub fn validate(&self, now: i64) -> (r: Result<(), ContractError>)
        ensures
            r is Ok <==> (self.start_time is Some ==> self.start_time->Some_0 >= now),
            r is Err ==> r->Err_0 == ContractError::InvalidStartTime,
    {
        if let Some(start_time) = self.start_time {
            if start_time < now {
                return Err(ContractError::InvalidStartTime);
            }
        }
        Ok(())
    }
}

impl BondingCurve {
    /// The token amount a buy of `sol` lamports is quoted.
    pub open spec fn buy_quote(self, sol: int) -> int {
        quote_tokens_for_sol(
            self.virtual_sol_reserves as int,
            self.virtual_token_reserves as int,
            sol,
        )
    }

    /// Whether a buy of `sol` lamports would reach past the tradable
    /// supply and is therefore clamped to it.
    pub open spec fn buy_is_clamped(self, sol: int) -> bool {
        self.buy_quote(sol) >= self.real_token_reserves
    }

    /// The token amount a buy of `sol` lamports actually receives.
    pub open spec fn buy_token_amount(self, sol: int) -> int {
        if self.buy_is_clamped(sol) {
            self.real_token_reserves as int
        } else {
            self.buy_quote(sol)
        }
    }

    /// The lamport amount a buy of `sol` lamports actually costs.  A
    /// clamped buy is re-priced against the fully diluted curve.
    pub open spec fn buy_sol_cost(self, sol: int) -> int {
        if self.buy_is_clamped(sol) {
            quote_sol_for_tokens(
                FULLY_DILUTED_VIRTUAL_SOL as int,
                self.virtual_token_reserves - self.real_token_reserves,
                self.real_token_reserves as int,
            )
        } else {
            sol
        }
    }

    /// Whether a buy of `sol` lamports completes the curve: it reaches the
    /// raise target or exhausts the tradable supply.
    pub open spec fn buy_marks_complete(self, sol: int) -> bool {
        ||| self.sol_raise_target > 0 && self.real_sol_reserves + sol >= self.sol_raise_target
        ||| self.buy_is_clamped(sol)
    }

    /// Exactly when `apply_buy` commits: the curve is still trading, the
    /// payment is positive, a clamped buy still has supply to hand out,
    /// and no reserve leaves the 64-bit range.
    pub open spec fn buy_succeeds(self, sol: int) -> bool {
        &&& !self.complete
        &&& sol > 0
        &&& (self.sol_raise_target > 0 ==> self.real_sol_reserves + sol <= u64::MAX)
        &&& (self.buy_is_clamped(sol) ==> self.real_token_reserves > 0)
        &&& self.virtual_sol_reserves + self.buy_sol_cost(sol) <= u64::MAX
        &&& self.real_sol_reserves + self.buy_sol_cost(sol) <= u64::MAX
    }

    /// The state a successful buy of `sol` lamports commits.
    pub open spec fn buy_result_state(self, sol: int) -> BondingCurve {
        BondingCurve {
            virtual_token_reserves: (self.virtual_token_reserves - self.buy_token_amount(
                sol,
            )) as u64,
            real_token_reserves: (self.real_token_reserves - self.buy_token_amount(sol)) as u64,
            virtual_sol_reserves: (self.virtual_sol_reserves + self.buy_sol_cost(sol)) as u64,
            real_sol_reserves: (self.real_sol_reserves + self.buy_sol_cost(sol)) as u64,
            complete: self.complete || self.buy_marks_complete(sol),
            ..self
        }
    }

    /// The lamport amount a sell of `tokens` is quoted.
    pub open spec fn sell_quote(self, tokens: int) -> int {
        quote_sol_for_tokens(
            self.virtual_sol_reserves as int,
            self.virtual_token_reserves as int,
            tokens,
        )
    }

    /// Exactly when `apply_sell` commits: the token amount is positive,
    /// the quoted payout is covered by the real lamport reserve, and no
    /// token reserve leaves the 64-bit range.
    pub open spec fn sell_succeeds(self, tokens: int) -> bool {
        &&& tokens > 0
        &&& self.sell_quote(tokens) <= self.real_sol_reserves
        &&& self.virtual_token_reserves + tokens <= u64::MAX
        &&& self.real_token_reserves + tokens <= u64::MAX
    }

    /// The state a successful sell of `tokens` commits.
    pub open spec fn sell_result_state(self, tokens: int) -> BondingCurve {
        BondingCurve {
            virtual_token_reserves: (self.virtual_token_reserves + tokens) as u64,
            real_token_reserves: (self.real_token_reserves + tokens) as u64,
            virtual_sol_reserves: (self.virtual_sol_reserves - self.sell_quote(tokens)) as u64,
            real_sol_reserves: (self.real_sol_reserves - self.sell_quote(tokens)) as u64,
            ..self
        }
    }

    /// Whether the custodied balances reconcile with the bookkeeping: the
    /// lamport balance is exactly the real reserve plus the rent floor,
    /// both virtual reserves are positive, and the adjusted token balance
    /// is exactly the real token reserve.
    pub open spec fn invariant_holds(
        self,
        token_balance: int,
        lamports: int,
        rent_minimum: int,
        g: Global,
    ) -> bool {
        &&& lamports == self.real_sol_reserves + rent_minimum
        &&& self.virtual_sol_reserves > 0
        &&& self.virtual_token_reserves > 0
        &&& self.real_token_reserves == adjusted_token_balance(
            token_balance,
            g.initial_real_token_reserves as int,
            g.token_total_supply as int,
        )
    }

    /// Whether trading has opened.
    pub fn is_started(&self, now: i64) -> (r: bool)
        ensures
            r == (now >= self.start_time),
    {
        now >= self.start_time
    }

    /// Seed the curve from the global configuration and the creator's
    /// parameters: full supply as the virtual token reserve, the
    /// configured tradable half as the real token reserve, and nothing
    /// custodied yet.
    pub fn update_from_params(
        &mut self,
        mint: u64,
        creator: u64,
        global_config: &Global,
        params: &CreateBondingCurveParams,
        now: i64,
    )
        ensures
            *final(self) == (BondingCurve {
                mint,
                creator,
                initial_virtual_token_reserves: global_config.token_total_supply,
                virtual_sol_reserves: global_config.initial_virtual_sol_reserves,
                virtual_token_reserves: global_config.token_total_supply,
                real_sol_reserves: 0,
                real_token_reserves: global_config.initial_real_token_reserves,
                token_total_supply: global_config.token_total_supply,
                start_time: if params.start_time is Some {
                    params.start_time->Some_0
                } else {
                    now
                },
                complete: false,
                sol_raise_target: params.sol_raise_target,
            }),
    {
        let start_time = if let Some(start_time) = params.start_time {
            start_time
        } else {
            now
        };
        *self = BondingCurve {
            mint,
            creator,
            initial_virtual_token_reserves: global_config.token_total_supply,
            virtual_sol_reserves: global_config.initial_virtual_sol_reserves,
            virtual_token_reserves: global_config.token_total_supply,
            real_sol_reserves: 0,
            real_token_reserves: global_config.initial_real_token_reserves,
            token_total_supply: global_config.token_total_supply,
            start_time,
            complete: false,
            sol_raise_target: params.sol_raise_target,
        };
    }

    /// The tokens released for a positive lamport payment, priced so that
    /// the scaled reserve product is preserved.
    ///
    /// Fails exactly on a zero payment: the quote itself always fits.
    pub fn get_tokens_for_buy_sol(&self, sol_amount: u64) -> (r: Option<u64>)
        ensures
            r is Some <==> sol_amount > 0,
            r is Some ==> r->Some_0 == self.buy_quote(sol_amount as int),
    {
        if sol_amount == 0 {
            return None;
        }
        proof {
            let vsol = self.virtual_sol_reserves as int;
            let vtok = self.virtual_token_reserves as int;
            lemma_quote_tokens_bounds(vsol, vtok, sol_amount as int);
            lemma_div_pos_is_pos(vsol, 1_000_000_000);
            lemma_div_pos_is_pos(vtok, 1_000_000);
            lemma_div_is_ordered(vsol, u64::MAX as int, 1_000_000_000);
            lemma_div_is_ordered(vtok, u64::MAX as int, 1_000_000);
            lemma_mul_upper_bound(
                vsol / 1_000_000_000,
                u64::MAX as int / 1_000_000_000,
                vtok / 1_000_000,
                u64::MAX as int / 1_000_000,
            );
        }
        let product_of_reserves = (self.virtual_sol_reserves as u128)
            .checked_div(1_000_000_000)?
            .checked_mul((self.virtual_token_reserves as u128).checked_div(1_000_000)?)?
            .checked_mul(1_000_000_000)?;
        let new_virtual_sol_reserves = (self.virtual_sol_reserves as u128).checked_add(
            sol_amount as u128,
        )?;
        let new_virtual_token_reserves = product_of_reserves.checked_div(
            new_virtual_sol_reserves,
        )?.checked_mul(1_000_000)?;
        let tokens_received = (self.virtual_token_reserves as u128).checked_sub(
            new_virtual_token_reserves,
        )?;
        u64::try_from(tokens_received).ok()
    }

    /// The lamports released for a positive token payment, priced so that
    /// the scaled reserve product is preserved.
    ///
    /// Fails exactly on a zero payment: the quote itself always fits.
    pub fn get_sol_for_sell_tokens(&self, token_amount: u64) -> (r: Option<u64>)
        ensures
            r is Some <==> token_amount > 0,
            r is Some ==> r->Some_0 == self.sell_quote(token_amount as int),
    {
        if token_amount == 0 {
            return None;
        }
        proof {
            let vsol = self.virtual_sol_reserves as int;
            let vtok = self.virtual_token_reserves as int;
            lemma_quote_sol_bounds(vsol, vtok, token_amount as int);
            lemma_div_pos_is_pos(vsol, 1_000_000_000);
            lemma_div_pos_is_pos(vtok, 1_000_000);
            lemma_div_is_ordered(vsol, u64::MAX as int, 1_000_000_000);
            lemma_div_is_ordered(vtok, u64::MAX as int, 1_000_000);
            lemma_mul_upper_bound(
                vsol / 1_000_000_000,
                u64::MAX as int / 1_000_000_000,
                vtok / 1_000_000,
                u64::MAX as int / 1_000_000,
            );
        }
        let product_of_reserves = (self.virtual_sol_reserves as u128)
            .checked_div(1_000_000_000)?
            .checked_mul((self.virtual_token_reserves as u128).checked_div(1_000_000)?)?
            .checked_mul(1_000_000_000)?;
        let new_virtual_token_reserves = (self.virtual_token_reserves as u128).checked_add(
            token_amount as u128,
        )?;
        let new_virtual_sol_reserves = product_of_reserves.checked_div(
            new_virtual_token_reserves,
        )?.checked_mul(1_000_000)?;
        let sol_received = (self.virtual_sol_reserves as u128).checked_sub(
            new_virtual_sol_reserves,
        )?;
        u64::try_from(sol_received).ok()
    }

    /// The fee charged on `amount` at time `time_now`.
    ///
    /// Fails only when the curve age does not fit a 64-bit difference.
    pub fn calculate_fee(&self, amount: u64, time_now: i64) -> (r: Result<u64, ContractError>)
        ensures
            r is Ok <==> i64::MIN <= time_now - self.start_time <= i64::MAX,
            r is Err ==> r->Err_0 == ContractError::ArithmeticError,
            r is Ok ==> r->Ok_0 == fee_lamports(
                self.start_time as int,
                time_now as int,
                amount as int,
            ),
    {
        let time_diff = match time_now.checked_sub(self.start_time) {
            Some(diff) => diff,
            None => {
                return Err(ContractError::ArithmeticError);
            },
        };
        proof {
            lemma_fee_le_amount(self.start_time as int, time_now as int, amount as int);
            if time_diff >= 0 {
                lemma_div_pos_is_pos(time_diff as int, 400);
                lemma_div_is_ordered(0, time_diff as int, 400);
                lemma_div_is_ordered(time_diff as int, i64::MAX as int, 400);
            } else {
                lemma_div_pos_is_pos(-(time_diff as int), 400);
                lemma_div_is_ordered(-(time_diff as int), i64::MAX as int + 1, 400);
            }
        }
        let slots_passed = time_diff.checked_div(400).unwrap();
        proof {
            if time_diff >= 0 {
                if time_diff >= 60_000 {
                    lemma_div_is_ordered(60_000, time_diff as int, 400);
                } else {
                    lemma_div_is_ordered(time_diff as int, 59_999, 400);
                }
                if time_diff >= 100_400 {
                    lemma_div_is_ordered(100_400, time_diff as int, 400);
                } else {
                    lemma_div_is_ordered(time_diff as int, 100_399, 400);
                }
            }
        }
        if slots_passed < 150 {
            Ok(bps_mul(9900, amount, 10_000).unwrap())
        } else if slots_passed >= 150 && slots_passed <= 250 {
            let fee_bps = (-8_300_000i64).checked_mul(slots_passed).unwrap().checked_add(
                2_162_600_000,
            ).unwrap().checked_div(1_000_000).unwrap();
            proof {
                lemma_div_pos_is_pos(2_162_600_000 - 8_300_000 * (slots_passed as int), 1_000_000);
            }
            Ok(bps_mul(fee_bps as u64, amount, 10_000).unwrap())
        } else {
            Ok(bps_mul(100, amount, 10_000).unwrap())
        }
    }

    /// Commit a buy of `sol_amount` lamports.
    ///
    /// The trade is quoted along the curve; a quote reaching the tradable
    /// supply is clamped to it and re-priced against the fully diluted
    /// curve, completing the market.  Reaching the raise target also
    /// completes the market, without resizing the trade.  On any failure
    /// nothing changes.
    pub fn apply_buy(&mut self, sol_amount: u64) -> (r: Option<BuyResult>)
        ensures
            r is Some <==> old(self).buy_succeeds(sol_amount as int),
            r is None ==> *final(self) == *old(self),
            r is Some ==> *final(self) == old(self).buy_result_state(sol_amount as int),
            r is Some ==> r->Some_0.token_amount == old(self).buy_token_amount(sol_amount as int),
            r is Some ==> r->Some_0.sol_amount == old(self).buy_sol_cost(sol_amount as int),
            r is Some ==> r->Some_0.price_per_token == (if old(self).buy_token_amount(
                sol_amount as int,
            ) > 0 {
                old(self).buy_sol_cost(sol_amount as int) / old(self).buy_token_amount(
                    sol_amount as int,
                )
            } else {
                0
            }),
    {
        if self.complete {
            return None;
        }
        let mut complete_after = false;
        if self.sol_raise_target > 0 {
            let potential_new_sol_reserves = self.real_sol_reserves.checked_add(sol_amount)?;
            if potential_new_sol_reserves >= self.sol_raise_target {
                // the raise target is reached: the trade still executes at
                // the requested size, the curve just latches complete
                complete_after = true;
            }
        }
        let quote = self.get_tokens_for_buy_sol(sol_amount)?;
        proof {
            lemma_quote_tokens_bounds(
                self.virtual_sol_reserves as int,
                self.virtual_token_reserves as int,
                sol_amount as int,
            );
        }
        let token_amount: u64;
        let sol_cost: u64;
        if quote >= self.real_token_reserves {
            // last buy: clamp to the remaining supply and re-derive the
            // price from the fully diluted curve
            token_amount = self.real_token_reserves;
            if token_amount == 0 {
                return None;
            }
            let hypothetical = BondingCurve {
                virtual_token_reserves: self.virtual_token_reserves - token_amount,
                virtual_sol_reserves: FULLY_DILUTED_VIRTUAL_SOL,
                ..*self
            };
            sol_cost = match hypothetical.get_sol_for_sell_tokens(token_amount) {
                Some(recomputed) => recomputed,
                None => {
                    return None;
                },
            };
            complete_after = true;
        } else {
            token_amount = quote;
            sol_cost = sol_amount;
        }
        let new_virtual_sol_reserves = self.virtual_sol_reserves.checked_add(sol_cost)?;
        let new_real_sol_reserves = self.real_sol_reserves.checked_add(sol_cost)?;
        let price_per_token = if token_amount > 0 {
            sol_cost / token_amount
        } else {
            0
        };
        self.virtual_token_reserves = self.virtual_token_reserves - token_amount;
        self.real_token_reserves = self.real_token_reserves - token_amount;
        self.virtual_sol_reserves = new_virtual_sol_reserves;
        self.real_sol_reserves = new_real_sol_reserves;
        self.complete = complete_after;
        Some(BuyResult { token_amount, sol_amount: sol_cost, price_per_token })
    }

    /// Commit a sell of `token_amount` tokens.
    ///
    /// The payout is quoted along the curve and rejected when it exceeds
    /// the custodied lamport reserve.  On any failure nothing changes.
    pub fn apply_sell(&mut self, token_amount: u64) -> (r: Option<SellResult>)
        ensures
            r is Some <==> old(self).sell_succeeds(token_amount as int),
            r is None ==> *final(self) == *old(self),
            r is Some ==> *final(self) == old(self).sell_result_state(token_amount as int),
            r is Some ==> r->Some_0.token_amount == token_amount,
            r is Some ==> r->Some_0.sol_amount == old(self).sell_quote(token_amount as int),
            r is Some ==> r->Some_0.price_per_token == old(self).sell_quote(token_amount as int)
                / token_amount as int,
    {
        let sol_amount = self.get_sol_for_sell_tokens(token_amount)?;
        proof {
            lemma_quote_sol_bounds(
                self.virtual_sol_reserves as int,
                self.virtual_token_reserves as int,
                token_amount as int,
            );
        }
        if sol_amount > self.real_sol_reserves {
            return None;
        }
        let new_virtual_token_reserves = self.virtual_token_reserves.checked_add(token_amount)?;
        let new_real_token_reserves = self.real_token_reserves.checked_add(token_amount)?;
        let price_per_token = sol_amount / token_amount;
        self.virtual_token_reserves = new_virtual_token_reserves;
        self.real_token_reserves = new_real_token_reserves;
        self.virtual_sol_reserves = self.virtual_sol_reserves - sol_amount;
        self.real_sol_reserves = self.real_sol_reserves - sol_amount;
        Some(SellResult { token_amount, sol_amount, price_per_token })
    }

    /// Whether removing the never-tradable supply portion from the
    /// custodied token balance overflows 64 bits.  The reconciliation
    /// reports this as an arithmetic failure rather than an invariant
    /// violation.
    pub open spec fn adjustment_overflows(token_balance: int, g: Global) -> bool {
        &&& token_balance + g.initial_real_token_reserves >= g.token_total_supply
        &&& token_balance + g.initial_real_token_reserves > u64::MAX
    }

    /// Reconcile the bookkeeping with the custodied balances, after every
    /// mutation and before any transfer becomes final.
    ///
    /// The custodied token balance is first reduced by the non-tradable
    /// part of the supply that sits in the same account.  The remaining
    /// balance must match the real token reserve exactly, the lamport
    /// balance must exceed the rent floor by exactly the real lamport
    /// reserve, and both virtual reserves must be positive.
    pub fn check_invariant(
        &self,
        custodied_token_balance: u64,
        custodied_lamports: u64,
        rent_exempt_minimum: u64,
        global: &Global,
    ) -> (r: Result<(), ContractError>)
        ensures
            Self::adjustment_overflows(custodied_token_balance as int, *global) ==> r == Err::<
                (),
                ContractError,
            >(ContractError::ArithmeticError),
            !Self::adjustment_overflows(custodied_token_balance as int, *global) ==> (r is Ok
                <==> self.invariant_holds(
                custodied_token_balance as int,
                custodied_lamports as int,
                rent_exempt_minimum as int,
                *global,
            )),
            !Self::adjustment_overflows(custodied_token_balance as int, *global) && r is Err ==> r
                == Err::<(), ContractError>(ContractError::BondingCurveInvariant),
    {
        let mut tkn_amount = custodied_token_balance;
        let reserved = (custodied_token_balance as u128) + (global.initial_real_token_reserves
            as u128);
        if reserved >= global.token_total_supply as u128 {
            tkn_amount = match custodied_token_balance.checked_add(
                global.initial_real_token_reserves,
            ) {
                Some(total) => total - global.token_total_supply,
                None => {
                    return Err(ContractError::ArithmeticError);
                },
            };
        }
        if custodied_lamports < rent_exempt_minimum {
            return Err(ContractError::BondingCurveInvariant);
        }
        let bonding_curve_pool_lamports = custodied_lamports - rent_exempt_minimum;
        if bonding_curve_pool_lamports != self.real_sol_reserves {
            return Err(ContractError::BondingCurveInvariant);
        }
        if self.virtual_sol_reserves == 0 {
            return Err(ContractError::BondingCurveInvariant);
        }
        if self.virtual_token_reserves == 0 {
            return Err(ContractError::BondingCurveInvariant);
        }
        if self.real_token_reserves != tkn_amount {
            return Err(ContractError::BondingCurveInvariant);
        }
        Ok(())
    }
}

} // verus!
