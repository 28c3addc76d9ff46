//! Day-count conventions, by name.
use vstd::prelude::*;

verus! {

/// A day-count convention.
#[derive(Clone, Copy, Debug, PartialEq, Eq, Structural, Hash)]
pub enum DayCounter {
    /// Actual days over a 360-day year.
    Actual360,
    /// Actual days over a 365-day year.
    Actual365Fixed,
    /// Thirty-day months over a 360-day year, by the bond-basis rule.
    Thirty360BondBasis,
}

impl DayCounter {
    /// The convention's name.
    pub open spec fn name_spec(self) -> Seq<char> {
        match self {
            DayCounter::Actual360 => "Actual/360"@,
            DayCounter::Actual365Fixed => "Actual/365 (Fixed)"@,
            DayCounter::Thirty360BondBasis => "30/360 (Bond Basis)"@,
        }
    }

    /// The convention's name.
    pub fn name(&self) -> (r: String)
        ensures
            r@ == self.name_spec(),
    {
        match self {
            DayCounter::Actual360 => String::from_str("Actual/360"),
            DayCounter::Actual365Fixed => String::from_str("Actual/365 (Fixed)"),
            DayCounter::Thirty360BondBasis => String::from_str("30/360 (Bond Basis)"),
        }
    }
}

} // verus!
