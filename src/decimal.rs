//! Canonical decimal text of natural numbers.

use vstd::prelude::*;

verus! {

/// The character of a single decimal digit `d < 10`.
pub open spec fn digit_char(d: nat) -> char {
    ((48 + d) as u32) as char
}

/// The canonical decimal form of `n`: no sign, no leading zeros, `"0"` for zero.
pub open spec fn decimal(n: nat) -> Seq<char>
    decreases n,
{
    if n < 10 {
        seq![digit_char(n)]
    } else {
        decimal(n / 10).push(digit_char(n % 10))
    }
}

/// Relies on the standard `Display` impl of `u32` (through `ToString`), which
/// writes the number in base ten without sign or leading zeros.
#[verifier::external_body]
pub(crate) fn u32_to_decimal(n: u32) -> (r: String)
    ensures
        r@ == decimal(n as nat),
{
    n.to_string()
}

} // verus!
