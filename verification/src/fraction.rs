use vstd::prelude::*;

verus! {

/// An exact length: a signed numerator over a positive denominator.
///
/// Lengths are kept as fractions so that a layout is computed without rounding;
/// a caller rounds once, when it hands a length to a renderer.
#[derive(Debug, Clone, Copy, PartialEq, Eq, Structural)]
pub struct Fraction {
    pub num: i128,
    pub den: u64,
}

impl Fraction {
    /// A fraction is well formed when its denominator is positive.
    pub open spec fn wf(self) -> bool {
        self.den > 0
    }

    /// The number that the fraction stands for.
    pub open spec fn value(self) -> real {
        self.num as real / self.den as real
    }
}

} // verus!
