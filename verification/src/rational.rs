use vstd::prelude::*;

verus! {

/// An exact non-negative numeric amount, stored as a fraction of two
/// machine integers.  Stored prices and scaling factors are held in this
/// form so that rate arithmetic — in particular the reciprocal taken for a
/// reverse quote — is exact.
#[derive(Clone, Copy, Debug, PartialEq, Eq, Structural)]
pub struct Rational {
    /// Numerator.
    pub num: u64,
    /// Denominator; a zero denominator is ruled out by [`Rational::wf`].
    pub den: u64,
}

/// The rational one: the rate of a currency against itself.
pub open spec fn rational_one() -> Rational {
    Rational { num: 1, den: 1 }
}

/// The reciprocal of an amount swaps numerator and denominator.
pub open spec fn spec_recip(r: Rational) -> Rational {
    Rational { num: r.den, den: r.num }
}

impl Rational {
    /// A well-formed amount has a non-zero denominator.
    pub open spec fn wf(&self) -> bool {
        self.den > 0
    }

    /// A positive amount has a non-zero numerator; only positive amounts
    /// have a well-formed reciprocal.
    pub open spec fn is_positive(&self) -> bool {
        self.num > 0
    }

    pub fn new(num: u64, den: u64) -> (r: Rational)
        requires
            den > 0,
        ensures
            r == (Rational { num, den }),
            r.wf(),
    {
        Rational { num, den }
    }

    pub fn one() -> (r: Rational)
        ensures
            r == rational_one(),
    {
        Rational { num: 1, den: 1 }
    }

    /// The reciprocal rate: if one unit of a currency is worth `self` units
    /// of another, one unit of the other is worth `self.recip()` units of
    /// the first.
    pub fn recip(&self) -> (r: Rational)
        requires
            self.wf(),
            self.is_positive(),
        ensures
            r == spec_recip(*self),
            r.wf(),
            r.is_positive(),
    {
        Rational { num: self.den, den: self.num }
    }
}

} // verus!
