//! Arbitrary-precision factorial, accumulated by multiplication from 2 up to
//! the input. A big number is held as its base-2^32 digits, least significant
//! first; the arithmetic itself is done by `num`'s `BigUint`.

use num::BigUint;
use vstd::prelude::*;

use crate::decimal::decimal;

verus! {

/// The number that little-endian base-2^32 digits stand for.
pub open spec fn limbs_value(s: Seq<u32>) -> nat
    decreases s.len(),
{
    if s.len() == 0 {
        0
    } else {
        s[0] as nat + 0x1_0000_0000 * limbs_value(s.drop_first())
    }
}

/// `n!`: the product of all integers from 2 through `n`; `0! == 1! == 1`.
pub open spec fn factorial(n: nat) -> nat
    decreases n,
{
    if n <= 1 {
        1
    } else {
        n * factorial((n - 1) as nat)
    }
}

/// The decimal text of `n!`.
pub open spec fn factorial_text(n: nat) -> Seq<char> {
    decimal(factorial(n))
}

/// Relies on `num::BigUint::new`, `MulAssign<u32> for BigUint` and
/// `BigUint::to_u32_digits`: the digits of the product of the number and `f`.
#[verifier::external_body]
fn mul_limbs(a: Vec<u32>, f: u32) -> (r: Vec<u32>)
    ensures
        limbs_value(r@) == limbs_value(a@) * f,
{
    let mut big = BigUint::new(a);
    big *= f;
    big.to_u32_digits()
}

/// Relies on `num::BigUint::new` and `Display for BigUint` (base ten, no sign,
/// no leading zeros, `"0"` for zero): the decimal text of the number.
#[verifier::external_body]
fn limbs_to_decimal(a: &Vec<u32>) -> (r: String)
    ensures
        r@ == decimal(limbs_value(a@)),
{
    BigUint::new(a.clone()).to_string()
}

/// The base-2^32 digits of `n!`.
pub fn factorial_limbs(n: u32) -> (r: Vec<u32>)
    ensures
        limbs_value(r@) == factorial(n as nat),
{
    let mut acc: Vec<u32> = vec![1];
    assert(limbs_value(acc@) == 1) by {
        assert(acc@.drop_first().len() == 0);
        reveal_with_fuel(limbs_value, 2);
    }
    assert(factorial(1) == 1);
    let mut factor: u64 = 2;
    while factor <= n as u64
        invariant
            2 <= factor,
            factor == 2 || factor <= n as u64 + 1,
            limbs_value(acc@) == factorial((factor - 1) as nat),
        decreases n as u64 + 1 - factor,
    {
        let ghost before = limbs_value(acc@);
        acc = mul_limbs(acc, factor as u32);
        assert(factorial(factor as nat) == factor * factorial((factor - 1) as nat));
        assert(before * factor == factor * before) by (nonlinear_arith);
        factor = factor + 1;
    }
    assert(factorial(0) == 1);
    acc
}

/// The decimal text of `n!`.
pub fn factorial_decimal(n: u32) -> (r: String)
    ensures
        r@ == factorial_text(n as nat),
{
    let limbs = factorial_limbs(n);
    limbs_to_decimal(&limbs)
}

} // verus!
