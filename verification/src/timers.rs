use vstd::prelude::*;

verus! {

/// The value of a countdown timer after one tick: one less, floored at zero.
pub open spec fn ticked(t: u8) -> u8 {
    if t > 0 {
        (t - 1) as u8
    } else {
        0
    }
}

/// Decrements a countdown timer by one, never below zero.
pub fn tick(t: u8) -> (r: u8)
    ensures
        r == ticked(t),
{
    if t > 0 {
        t - 1
    } else {
        0
    }
}

} // verus!
