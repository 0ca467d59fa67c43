//! A constant-product bonding-curve market maker.
//!
//! A bonding curve sells a fixed token supply against incoming lamports,
//! pricing each trade from a pair of virtual reserves so that their product
//! stays (approximately) constant.  The crate holds the curve state, the
//! pricing formulas, a time-phased fee schedule, and a consistency check
//! that ties the internal bookkeeping to externally custodied balances.
//! All state transitions are atomic: an operation either commits every
//! field update it describes or leaves the state untouched.

mod curve;
mod errors;
mod global;
mod laws;
mod math;
mod model;
mod swap;

pub use curve::BondingCurve;
pub use curve::BuyResult;
pub use curve::CreateBondingCurveParams;
pub use curve::SellResult;
pub use curve::FULLY_DILUTED_VIRTUAL_SOL;
pub use errors::ContractError;
pub use global::Global;
pub use global::GlobalSettingsInput;
pub use global::ProgramStatus;
pub use laws::lemma_buy_sell_round_trip;
pub use laws::lemma_complete_is_monotone;
pub use laws::lemma_fee_at_decay_start;
pub use laws::lemma_fee_at_launch;
pub use laws::lemma_fee_steady_state;
pub use laws::lemma_final_buy_clamps_and_completes;
pub use laws::lemma_lamport_drift_breaks_reconciliation;
pub use math::bps_mul;
pub use math::bps_mul_raw;
pub use model::adjusted_token_balance;
pub use model::fee_lamports;
pub use model::fee_rate_bps;
pub use model::quote_sol_for_tokens;
pub use model::quote_tokens_for_sol;
pub use swap::swap;
pub use swap::swap_admitted;
pub use swap::SwapOutcome;
pub use swap::SwapParams;
