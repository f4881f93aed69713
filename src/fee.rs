//! Platform fee arithmetic, in parts per billion.
use vstd::prelude::*;

verus! {

/// The denominator of a fee rate: a rate of `FEE_DENOMINATOR` takes everything.
pub const FEE_DENOMINATOR: u64 = 1_000_000_000;

/// The fee on `amount` at `rate`, rounded down.
pub open spec fn fee_of(amount: u64, rate: u64) -> int {
    (amount as int * rate as int) / (FEE_DENOMINATOR as int)
}

/// The fee on `amount` at `rate`, or `None` where it would exceed `amount`
/// (only possible with a rate above `FEE_DENOMINATOR`).
pub fn platform_fee(amount: u64, rate: u64) -> (r: Option<u64>)
    ensures
        r is Some <==> fee_of(amount, rate) <= amount,
        r matches Some(f) ==> f == fee_of(amount, rate),
{
    assert(amount as int * rate as int <= 0xffff_ffff_ffff_ffff * 0xffff_ffff_ffff_ffff)
        by (nonlinear_arith)
        requires
            amount <= 0xffff_ffff_ffff_ffffu64,
            rate <= 0xffff_ffff_ffff_ffffu64,
    ;
    let wide: u128 = amount as u128 * rate as u128;
    let f: u128 = wide / (FEE_DENOMINATOR as u128);
    if f > amount as u128 {
        None
    } else {
        Some(f as u64)
    }
}

/// For every rate up to `FEE_DENOMINATOR` the fee lies between zero and the
/// amount, and the fee and the remainder add up to the amount exactly.
pub proof fn lemma_fee_bounds(amount: u64, rate: u64)
    requires
        rate <= FEE_DENOMINATOR,
    ensures
        0 <= fee_of(amount, rate) <= amount,
        fee_of(amount, rate) + (amount - fee_of(amount, rate)) == amount,
{
    let a = amount as int;
    let k = rate as int;
    assert(0 <= a * k <= a * 1_000_000_000) by (nonlinear_arith)
        requires
            0 <= a,
            0 <= k <= 1_000_000_000,
    ;
    assert((a * k) / 1_000_000_000 <= a) by (nonlinear_arith)
        requires
            0 <= a * k <= a * 1_000_000_000,
    ;
    assert(0 <= (a * k) / 1_000_000_000) by (nonlinear_arith)
        requires
            0 <= a * k,
    ;
}

} // verus!
