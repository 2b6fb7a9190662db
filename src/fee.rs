use vstd::prelude::*;

verus! {

/// Fee percentages are expressed out of this maximum (10000 is 100%).
pub const MAX_FEE_PERCENTAGE: u128 = 10000;

/// Fee charged on a tendered amount at a percentage out of the maximum,
/// truncated toward zero.
pub open spec fn percentage_fee(amount: nat, percentage: nat) -> nat {
    (amount * percentage) / (MAX_FEE_PERCENTAGE as nat)
}

/// `amount * percentage / MAX_FEE_PERCENTAGE`, computed without an
/// intermediate product that could overflow.
pub fn fee_by_percentage(amount: u128, percentage: u128) -> (r: u128)
    requires
        percentage <= MAX_FEE_PERCENTAGE,
    ensures
        r == percentage_fee(amount as nat, percentage as nat),
        r <= amount,
{
    let m: u128 = MAX_FEE_PERCENTAGE;
    let q: u128 = amount / m;
    let rem: u128 = amount % m;
    proof {
        lemma_split_fee(amount as int, percentage as int);
        assert(q * percentage <= q * m) by (nonlinear_arith)
            requires percentage <= m, q >= 0;
        assert(rem * percentage <= rem * m) by (nonlinear_arith)
            requires percentage <= m, rem >= 0;
        assert(q * m <= amount) by (nonlinear_arith)
            requires q == amount / m, m == 10000;
        assert((rem as int * percentage as int) / 10000 <= rem as int) by (nonlinear_arith)
            requires rem * percentage <= rem * 10000, rem >= 0;
    }
    let high: u128 = q * percentage;
    let low: u128 = (rem * percentage) / m;
    high + low
}

proof fn lemma_split_fee(a: int, p: int)
    requires
        a >= 0,
        0 <= p <= 10000,
    ensures
        (a / 10000) * p + ((a % 10000) * p) / 10000 == (a * p) / 10000,
        (a * p) / 10000 <= a,
        (a / 10000) * p + ((a % 10000) * p) / 10000 <= a,
{
    let q = a / 10000;
    let r = a % 10000;
    assert(a == q * 10000 + r) by (nonlinear_arith)
        requires q == a / 10000, r == a % 10000;
    assert(a * p == (q * p) * 10000 + r * p) by (nonlinear_arith)
        requires a == q * 10000 + r;
    assert(r * p >= 0) by (nonlinear_arith)
        requires r >= 0, p >= 0;
    let y = r * p;
    let x = q * p;
    vstd::arithmetic::div_mod::lemma_fundamental_div_mod(y, 10000);
    vstd::arithmetic::div_mod::lemma_mod_bound(y, 10000);
    assert(a * p == 10000 * (x + y / 10000) + y % 10000) by (nonlinear_arith)
        requires a * p == x * 10000 + y, y == 10000 * (y / 10000) + y % 10000;
    vstd::arithmetic::div_mod::lemma_div_multiples_vanish_fancy(x + y / 10000, y % 10000, 10000);
    assert((a * p) / 10000 <= a) by (nonlinear_arith)
        requires a >= 0, 0 <= p <= 10000;
}

/// A percentage fee never exceeds what was tendered, so the tendered amount
/// splits exactly into the fee and the net amount escrowed.
pub proof fn lemma_fee_split(amount: nat, percentage: nat)
    requires
        percentage <= MAX_FEE_PERCENTAGE,
    ensures
        percentage_fee(amount, percentage) <= amount,
        (amount - percentage_fee(amount, percentage)) + percentage_fee(amount, percentage) == amount,
{
    lemma_split_fee(amount as int, percentage as int);
}

} // verus!
