//! Division to the nearest integer.

use vstd::prelude::*;

verus! {

/// The integer nearest to `a / b`, halves rounded up.
pub open spec fn rounded_quotient(a: nat, b: nat) -> nat
    recommends
        b > 0,
{
    (2 * a + b) / (2 * b)
}

} // verus!
