//! Wide fixed-point arithmetic helpers.
//!
//! All accrual math is carried in the 128-bit domain; the one narrowing or
//! saturating step the engine needs is made explicit here with an exact
//! contract.

use vstd::prelude::*;
use vstd::arithmetic::div_mod::lemma_fundamental_div_mod;
use vstd::arithmetic::div_mod::lemma_mod_division_less_than_divisor;
use vstd::arithmetic::mul::lemma_mul_inequality;
use vstd::arithmetic::mul::lemma_mul_is_commutative;
use vstd::arithmetic::mul::lemma_mul_is_distributive_add;

verus! {

/// The product of `a` and `b`, saturating at the top of the 128-bit domain.
pub open spec fn sat_mul_u128(a: int, b: int) -> int {
    if a * b > u128::MAX {
        u128::MAX as int
    } else {
        a * b
    }
}

/// Saturating 128-bit multiplication.
pub fn mul_saturating(a: u128, b: u128) -> (r: u128)
    ensures
        r == sat_mul_u128(a as int, b as int),
{
    if a == 0 {
        0
    } else if b <= u128::MAX / a {
        proof {
            let q = (u128::MAX / a) as int;
            lemma_fundamental_div_mod(u128::MAX as int, a as int);
            lemma_mod_division_less_than_divisor(u128::MAX as int, a as int);
            lemma_mul_inequality(b as int, q, a as int);
            lemma_mul_is_commutative(b as int, a as int);
            lemma_mul_is_commutative(q, a as int);
            assert(a as int * b as int <= u128::MAX);
        }
        a * b
    } else {
        proof {
            let q = (u128::MAX / a) as int;
            lemma_fundamental_div_mod(u128::MAX as int, a as int);
            lemma_mod_division_less_than_divisor(u128::MAX as int, a as int);
            lemma_mul_inequality(q + 1, b as int, a as int);
            lemma_mul_is_commutative(q + 1, a as int);
            lemma_mul_is_commutative(b as int, a as int);
            lemma_mul_is_distributive_add(a as int, q, 1);
            assert(a as int * b as int > u128::MAX);
        }
        u128::MAX
    }
}

} // verus!
