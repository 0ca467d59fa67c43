//! Overflow-checked basis-point arithmetic.

use vstd::arithmetic::mul::lemma_mul_upper_bound;
use vstd::prelude::*;

verus! {

/// `floor(value * bps / divisor)` over a 128-bit intermediate.
///
/// The product of two `u64` values always fits in a `u128`, so the only
/// failure is a zero divisor.
pub fn bps_mul_raw(bps: u64, value: u64, divisor: u64) -> (r: Option<u128>)
    ensures
        r is Some <==> divisor != 0,
        divisor != 0 ==> r->Some_0 == value * bps / divisor as int,
{
    proof {
        lemma_mul_upper_bound(value as int, u64::MAX as int, bps as int, u64::MAX as int);
    }
    (value as u128).checked_mul(bps as u128)?.checked_div(divisor as u128)
}

/// `floor(value * bps / divisor)` narrowed back to 64 bits.
///
/// Returns `None` when the quotient does not fit in a `u64`.  A zero
/// divisor is excluded: division by zero is not a recoverable failure of
/// this helper but a programming error.
pub fn bps_mul(bps: u64, value: u64, divisor: u64) -> (r: Option<u64>)
    requires
        divisor > 0,
    ensures
        r is Some <==> value * bps / divisor as int <= u64::MAX,
        r is Some ==> r->Some_0 == value * bps / divisor as int,
{
    let raw = bps_mul_raw(bps, value, divisor).unwrap();
    u64::try_from(raw).ok()
}

} // verus!
