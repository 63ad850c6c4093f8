//! Fee arithmetic in basis points.
use vstd::prelude::*;

verus! {

/// One whole, in basis points.
pub const BPS_DENOMINATOR: u128 = 10000;

/// The largest fee rate the ledger accepts, in basis points.
pub const MAX_FEE_BPS: u16 = 1000;

/// The fee taken from `amount_in` at `fee_bps` basis points, rounded down.
pub open spec fn fee_of(amount_in: nat, fee_bps: nat) -> nat {
    (amount_in * fee_bps) / 10000
}

/// Splits a deposit into the fee and the amount that is handed on for the swap.
///
/// The fee is `floor(amount_in * fee_bps / 10000)`, computed without an
/// intermediate product, so that it is exact for every `u128` amount.
pub fn split_fee(amount_in: u128, fee_bps: u16) -> (r: (u128, u128))
    requires
        fee_bps <= MAX_FEE_BPS,
    ensures
        r.0 == fee_of(amount_in as nat, fee_bps as nat),
        r.0 + r.1 == amount_in,
{
    let high: u128 = amount_in / BPS_DENOMINATOR;
    let low: u128 = amount_in % BPS_DENOMINATOR;
    let bps: u128 = fee_bps as u128;
    proof {
        lemma_fee_split(amount_in as int, fee_bps as int);
    }
    let fee: u128 = high * bps + (low * bps) / BPS_DENOMINATOR;
    (fee, amount_in - fee)
}

proof fn lemma_fee_split(a: int, b: int)
    requires
        0 <= a,
        0 <= b <= 1000,
    ensures
        (a / 10000) * b + ((a % 10000) * b) / 10000 == (a * b) / 10000,
        (a / 10000) * b + ((a % 10000) * b) / 10000 <= a,
        (a % 10000) * b < 10000 * 1000,
{
    let h = a / 10000;
    let l = a % 10000;
    assert(a == 10000 * h + l && 0 <= l < 10000) by (nonlinear_arith)
        requires h == a / 10000, l == a % 10000, 0 <= a;
    assert(a * b == 10000 * (h * b) + l * b) by (nonlinear_arith)
        requires a == 10000 * h + l;
    assert(0 <= l * b < 10000 * 1000) by (nonlinear_arith)
        requires 0 <= l < 10000, 0 <= b <= 1000;
    assert((10000 * (h * b) + l * b) / 10000 == h * b + (l * b) / 10000) by (nonlinear_arith)
        requires 0 <= l * b;
    assert(h * b + (l * b) / 10000 <= a) by (nonlinear_arith)
        requires a == 10000 * h + l, 0 <= b <= 1000, 0 <= l, 0 <= h, 0 <= l * b < 10000 * 1000;
}

/// Law: for every deposit and every rate of at most 1000 basis points, the
/// fee is the deposit times the rate over ten thousand, rounded down, and the
/// fee and the amount handed on add up to the deposit; neither is negative.
pub proof fn law_fee_partitions_deposit(amount_in: u128, fee_bps: u16)
    requires
        fee_bps <= MAX_FEE_BPS,
    ensures
        fee_of(amount_in as nat, fee_bps as nat) == (amount_in as nat * fee_bps as nat) / 10000,
        fee_of(amount_in as nat, fee_bps as nat) <= amount_in,
        fee_of(amount_in as nat, fee_bps as nat) + (amount_in - fee_of(
            amount_in as nat,
            fee_bps as nat,
        )) == amount_in,
{
    lemma_fee_split(amount_in as int, fee_bps as int);
}

} // verus!
