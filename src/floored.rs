//! A real number as far as comparisons against whole numbers can tell it apart.
use vstd::prelude::*;

verus! {

/// A real number `x` given by `floor`, the greatest integer not above `x`, and
/// `whole`, whether `x` equals that integer. For a whole bound `c`, `c <= x`,
/// `x < c` and `x <= c` are decided by these two fields alone, and every value
/// of them stands for some real number.
#[derive(Debug, Clone, Copy, PartialEq, Eq, Structural)]
pub struct Floored {
    pub floor: i64,
    pub whole: bool,
}

impl Floored {
    /// `c <= x`.
    pub open spec fn at_least(self, c: int) -> bool {
        c <= self.floor
    }

    /// `x < c`.
    pub open spec fn below(self, c: int) -> bool {
        self.floor < c
    }

    /// `x <= c`.
    pub open spec fn at_most(self, c: int) -> bool {
        self.floor < c || (self.floor == c && self.whole)
    }

    pub fn new(floor: i64, whole: bool) -> (r: Floored)
        ensures
            r.floor == floor,
            r.whole == whole,
    {
        Floored { floor, whole }
    }

    /// The whole number `n` itself.
    pub fn from_integer(n: i64) -> (r: Floored)
        ensures
            r.floor == n,
            r.whole,
    {
        Floored { floor: n, whole: true }
    }

    pub fn is_at_least(&self, c: i64) -> (r: bool)
        ensures
            r == self.at_least(c as int),
    {
        c <= self.floor
    }

    pub fn is_below(&self, c: i64) -> (r: bool)
        ensures
            r == self.below(c as int),
    {
        self.floor < c
    }

    pub fn is_at_most(&self, c: i64) -> (r: bool)
        ensures
            r == self.at_most(c as int),
    {
        self.floor < c || (self.floor == c && self.whole)
    }
}

} // verus!
