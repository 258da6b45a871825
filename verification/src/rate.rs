use vstd::prelude::*;

verus! {

/// Denominator of the fixed-point mutation rate: a rate is `num / RATE_DENOM`.
pub const RATE_DENOM: u32 = 1_000_000;

/// A mutation or swap rate in `[0, 1]`, held as a fraction `num / RATE_DENOM`.
///
/// A rate of one (`num == RATE_DENOM`) asks for a fully scrambled value,
/// a rate of zero leaves values unchanged.
#[derive(Clone, Copy, Debug, PartialEq, Eq, Structural)]
pub struct Rate {
    pub num: u32,
}

impl Rate {
    /// A rate is well-formed when it does not exceed one.
    pub open spec fn wf(&self) -> bool {
        self.num <= RATE_DENOM
    }

    pub open spec fn is_zero(&self) -> bool {
        self.num == 0
    }

    /// Builds the rate `num / RATE_DENOM`.
    pub fn new(num: u32) -> (r: Rate)
        requires
            num <= RATE_DENOM,
        ensures
            r.num == num,
            r.wf(),
    {
        Rate { num }
    }

    /// The rate zero: mutation leaves every in-range value unchanged.
    pub fn zero() -> (r: Rate)
        ensures
            r.num == 0,
            r.wf(),
            r.is_zero(),
    {
        Rate { num: 0 }
    }

    /// The rate one: mutation draws from the whole admissible range.
    pub fn one() -> (r: Rate)
        ensures
            r.num == RATE_DENOM,
            r.wf(),
    {
        Rate { num: RATE_DENOM }
    }
}

} // verus!
