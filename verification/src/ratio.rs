//! Fractions of a whole.

use vstd::prelude::*;

verus! {

/// A fraction between 0 and 1, held as a numerator and a denominator.
#[derive(Clone, Copy, Debug)]
pub struct Ratio {
    numerator: i64,
    denominator: i64,
}

impl View for Ratio {
    type V = (int, int);

    /// The numerator and the denominator.
    closed spec fn view(&self) -> (int, int) {
        (self.numerator as int, self.denominator as int)
    }
}

/// The pair is a fraction between 0 and 1: the denominator is positive, and
/// the numerator lies between 0 and the denominator.
pub open spec fn within_unit(fraction: (int, int)) -> bool {
    0 <= fraction.0 <= fraction.1 && 0 < fraction.1
}

/// The fraction in hundredths, rounded down.
pub open spec fn percent_of(fraction: (int, int)) -> int {
    (100 * fraction.0) / fraction.1
}

impl Ratio {
    pub open spec fn wf(&self) -> bool {
        &&& within_unit(self@)
        &&& self@.1 <= i64::MAX
    }

    /// The fraction `numerator / denominator`, or `None` where that is no
    /// fraction between 0 and 1.
    pub fn new(numerator: i64, denominator: i64) -> (ratio: Option<Ratio>)
        ensures
            ratio is Some <==> within_unit((numerator as int, denominator as int)),
            ratio matches Some(r) ==> r.wf() && r@ == (numerator as int, denominator as int),
    {
        if 0 <= numerator && numerator <= denominator && 0 < denominator {
            Some(Ratio { numerator, denominator })
        } else {
            None
        }
    }

    pub fn numerator(&self) -> (n: i64)
        ensures
            n == self@.0,
    {
        self.numerator
    }

    pub fn denominator(&self) -> (d: i64)
        ensures
            d == self@.1,
    {
        self.denominator
    }

    /// The fraction in whole percent, rounded down.
    pub fn percent(&self) -> (p: u8)
        requires
            self.wf(),
        ensures
            p == percent_of(self@),
            p <= 100,
    {
        let n: i128 = self.numerator as i128;
        let d: i128 = self.denominator as i128;
        assert(0 <= (100 * n) / (d as int) <= 100) by (nonlinear_arith)
            requires
                0 <= n <= d,
                0 < d,
        ;
        ((100 * n) / d) as u8
    }
}

} // verus!
