use vstd::prelude::*;

verus! {

/// The key of a pair of 64-bit identifiers: the two side by side in 128 bits.
pub open spec fn pair_key_spec(a: u64, b: u64) -> u128 {
    (a * 0x1_0000_0000_0000_0000 + b) as u128
}

/// Packs a pair of identifiers into one key.
pub fn pair_key(a: u64, b: u64) -> (r: u128)
    ensures
        r == pair_key_spec(a, b),
{
    assert(a * 0x1_0000_0000_0000_0000 + b <= u128::MAX) by (nonlinear_arith)
        requires
            a <= u64::MAX,
            b <= u64::MAX,
    ;
    (a as u128) * 0x1_0000_0000_0000_0000 + (b as u128)
}

/// Distinct pairs of identifiers have distinct keys, so records kept under one pair never
/// share storage with those of another.
pub proof fn lemma_pair_key_injective(a: u64, b: u64, c: u64, d: u64)
    requires
        pair_key_spec(a, b) == pair_key_spec(c, d),
    ensures
        a == c,
        b == d,
{
    let m: int = 0x1_0000_0000_0000_0000;
    assert(a * m + b <= u128::MAX) by (nonlinear_arith)
        requires
            a <= u64::MAX,
            b <= u64::MAX,
            m == 0x1_0000_0000_0000_0000,
    ;
    assert(c * m + d <= u128::MAX) by (nonlinear_arith)
        requires
            c <= u64::MAX,
            d <= u64::MAX,
            m == 0x1_0000_0000_0000_0000,
    ;
    assert(a * m + b == c * m + d);
    assert(a == c) by (nonlinear_arith)
        requires
            a * m + b == c * m + d,
            0 <= b < m,
            0 <= d < m,
            0 <= a,
            0 <= c,
            m > 0,
    ;
}

} // verus!
