use vstd::prelude::*;

verus! {

/// The denominator of a rate expressed in basis points.
pub const BPS_SCALE: u32 = 10000;

/// The highest fee rate that a session or the parameters may carry: the whole amount.
pub const MAX_FEE_BPS: u32 = 10000;

/// The platform fee charged on `amount` at `bps` basis points, truncated toward zero.
pub open spec fn fee_of(amount: int, bps: int) -> int {
    (amount * bps) / 10000
}

/// With a rate of at most the whole amount, the fee lies between zero and the amount.
pub proof fn lemma_fee_bounds(amount: int, bps: int)
    requires
        amount >= 0,
        0 <= bps <= 10000,
    ensures
        0 <= fee_of(amount, bps) <= amount,
{
    assert(0 <= amount * bps <= amount * 10000) by (nonlinear_arith)
        requires
            amount >= 0,
            0 <= bps <= 10000,
    ;
    assert((amount * bps) / 10000 <= (amount * 10000) / 10000) by (nonlinear_arith)
        requires
            0 <= amount * bps <= amount * 10000,
    ;
    assert((amount * 10000) / 10000 == amount) by (nonlinear_arith);
    assert(0 <= (amount * bps) / 10000) by (nonlinear_arith)
        requires
            0 <= amount * bps,
    ;
}

/// Computes `floor(amount * bps / 10000)` with overflow-checked 128-bit arithmetic.
///
/// Returns `None` exactly when the product `amount * bps` does not fit in an `i128`.
pub fn checked_fee(amount: i128, bps: u32) -> (r: Option<i128>)
    requires
        amount >= 0,
    ensures
        r is Some <==> amount * bps <= i128::MAX,
        r matches Some(f) ==> f == fee_of(amount as int, bps as int),
{
    match amount.checked_mul(bps as i128) {
        Some(p) => Some(p / 10000),
        None => None,
    }
}

/// Splits `amount` into the payee's share and the platform fee at `bps` basis points: the
/// fee is `floor(amount * bps / 10000)` and the share is the rest.
///
/// The fee is computed without forming the product `amount * bps`, so every amount is
/// accepted.
pub fn split(amount: i128, bps: u32) -> (r: (i128, i128))
    requires
        amount >= 0,
        bps <= MAX_FEE_BPS,
    ensures
        r.1 == fee_of(amount as int, bps as int),
        r.0 == amount - fee_of(amount as int, bps as int),
        r.0 + r.1 == amount,
        0 <= r.1 <= amount,
{
    let q = amount / 10000;
    let rem = amount % 10000;
    proof {
        lemma_fee_bounds(amount as int, bps as int);
        lemma_fee_by_parts(amount as int, bps as int);
        assert(0 <= q * bps <= amount) by (nonlinear_arith)
            requires
                q == amount / 10000,
                amount >= 0,
                0 <= bps <= 10000,
        ;
        assert(0 <= rem * bps <= 10000 * 10000) by (nonlinear_arith)
            requires
                0 <= rem < 10000,
                0 <= bps <= 10000,
        ;
    }
    let fee = q * (bps as i128) + (rem * (bps as i128)) / 10000;
    (amount - fee, fee)
}

/// The fee can be computed from the quotient and remainder of the amount by the scale.
pub proof fn lemma_fee_by_parts(amount: int, bps: int)
    requires
        amount >= 0,
        0 <= bps <= 10000,
    ensures
        fee_of(amount, bps) == (amount / 10000) * bps + ((amount % 10000) * bps) / 10000,
{
    let q = amount / 10000;
    let r = amount % 10000;
    assert(amount == q * 10000 + r) by (nonlinear_arith)
        requires
            q == amount / 10000,
            r == amount % 10000,
    ;
    assert(amount * bps == (q * bps) * 10000 + r * bps) by (nonlinear_arith)
        requires
            amount == q * 10000 + r,
    ;
    assert(((q * bps) * 10000 + r * bps) / 10000 == q * bps + (r * bps) / 10000) by (
    nonlinear_arith)
        requires
            0 <= r * bps,
    ;
}

} // verus!
