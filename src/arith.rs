//! Integer helpers shared by the signal chain.
use vstd::prelude::*;

verus! {

/// Division of `a` by a positive `b`, rounding toward zero (as Rust's `/` does).
pub open spec fn trunc_div(a: int, b: int) -> int {
    if a >= 0 {
        a / b
    } else {
        -((-a) / b)
    }
}

/// The representative of `f` modulo `period` in `[0, period)`: the phase
/// increment that advancing by frequency `f` amounts to.
pub fn reduce_mod(f: i128, period: u64) -> (r: u64)
    requires
        0 < period,
    ensures
        r < period,
        r as int == f as int % period as int,
{
    if f >= 0 {
        let m = (f as u128 % period as u128) as u64;
        m
    } else {
        let g: u128 = (-(f + 1)) as u128 + 1;
        let m = (g % period as u128) as u64;
        proof {
            let p = period as int;
            let gi = g as int;
            assert(gi == -(f as int));
            vstd::arithmetic::div_mod::lemma_fundamental_div_mod(gi, p);
            vstd::arithmetic::div_mod::lemma_mod_bound(gi, p);
            let q = gi / p;
            // f == -(q * p + m) == p * (-q - 1) + (p - m)
            if m == 0 {
                assert(f as int == (-q) * p) by (nonlinear_arith)
                    requires gi == p * q + 0, f as int == -gi;
                vstd::arithmetic::div_mod::lemma_mod_multiples_basic(-q, p);
            } else {
                assert(f as int == p * (-q - 1) + (p - m)) by (nonlinear_arith)
                    requires gi == p * q + m, f as int == -gi;
                vstd::arithmetic::div_mod::lemma_mod_multiples_vanish(-q - 1, p - m, p);
                vstd::arithmetic::div_mod::lemma_small_mod((p - m) as nat, p as nat);
            }
        }
        if m == 0 {
            0
        } else {
            period - m
        }
    }
}


/// Bound on the magnitude of a dividend that `div_toward_zero` accepts.
pub const DIVIDEND_BOUND: i128 = 0x10_0000_0000_0000_0000_0000_0000;

/// `a / b` rounded toward zero, for a positive `b`.
pub fn div_toward_zero(a: i128, b: u128) -> (r: i128)
    requires
        0 < b,
        -DIVIDEND_BOUND < a < DIVIDEND_BOUND,
    ensures
        r == trunc_div(a as int, b as int),
{
    proof {
        vstd::arithmetic::div_mod::lemma_div_basics_5(a as int, b as int);
        if a < 0 {
            vstd::arithmetic::div_mod::lemma_div_basics_5(-(a as int), b as int);
            vstd::arithmetic::div_mod::lemma_div_pos_is_pos(-(a as int), b as int);
        } else {
            vstd::arithmetic::div_mod::lemma_div_pos_is_pos(a as int, b as int);
        }
    }
    if a >= 0 {
        (a as u128 / b) as i128
    } else {
        let m = (-a) as u128;
        -((m / b) as i128)
    }
}

/// A quotient rounded toward zero keeps a bound that the dividend has in
/// multiples of the divisor.
pub proof fn lemma_trunc_div_bound(a: int, b: int, c: int)
    requires
        0 < b,
        0 <= c,
        -(c * b) <= a <= c * b,
    ensures
        -c <= trunc_div(a, b) <= c,
{
    vstd::arithmetic::div_mod::lemma_div_multiples_vanish(c, b);
    assert(c * b == b * c) by (nonlinear_arith);
    if a >= 0 {
        vstd::arithmetic::div_mod::lemma_div_is_ordered(a, c * b, b);
        vstd::arithmetic::div_mod::lemma_div_pos_is_pos(a, b);
    } else {
        vstd::arithmetic::div_mod::lemma_div_is_ordered(-a, c * b, b);
        vstd::arithmetic::div_mod::lemma_div_pos_is_pos(-a, b);
    }
}

} // verus!
