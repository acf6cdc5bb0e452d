//! Exact rational usage figures.

use vstd::prelude::*;

verus! {

/// An exact rational value `num / den`, used wherever the engine reports
/// a usage percentage or ratio.
///
/// A zero denominator records a division by zero (the operating system
/// reported a total of zero); it stands for the non-finite value such a
/// quotient would have, and readers must tolerate it.
#[derive(Clone, Copy, Debug, PartialEq, Eq, Structural)]
pub struct Ratio {
    pub num: u128,
    pub den: u128,
}

impl Ratio {
    /// The exact zero value.
    pub fn zero() -> (r: Ratio)
        ensures
            r == (Ratio { num: 0, den: 1 }),
    {
        Ratio { num: 0, den: 1 }
    }

    /// Whether the value is finite, that is, whether its denominator is
    /// not zero.
    pub fn is_finite(&self) -> (r: bool)
        ensures
            r == (self.den != 0),
    {
        self.den != 0
    }
}

} // verus!
