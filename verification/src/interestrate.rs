//! Interest rates with their conventions.
use vstd::prelude::*;

use crate::errors::QlError;
use crate::time::daycounter::DayCounter;
use crate::time::period::Frequency;

verus! {

/// How interest is compounded over a period.
#[derive(Clone, Copy, Debug, PartialEq, Eq, Structural, Hash)]
pub enum Compounding {
    /// Simple interest.
    Simple,
    /// Compounded at the rate's frequency.
    Compounded,
    /// Compounded continuously.
    Continuous,
    /// Simple up to the first period, compounded after.
    SimpleThenCompounded,
    /// Compounded up to the first period, simple after.
    CompoundedThenSimple,
}

impl Compounding {
    /// Whether the compounding is counted in periods of a frequency.
    pub open spec fn uses_frequency(self) -> bool {
        self is Compounded || self is SimpleThenCompounded || self is CompoundedThenSimple
    }
}

/// A rate with the day counter, compounding and frequency it is quoted in.
///
/// The rate itself is carried as the caller represents it: nothing here
/// computes with it.
#[derive(Clone, Copy, Debug, PartialEq, Eq)]
pub struct InterestRate<R> {
    rate: R,
    day_counter: DayCounter,
    compounding: Compounding,
    frequency: Frequency,
}

/// Whether `frequency` can count the periods of `compounding`: a
/// compounding that uses a frequency needs one that recurs.
pub open spec fn frequency_allowed(compounding: Compounding, frequency: Frequency) -> bool {
    compounding.uses_frequency() ==> !(frequency is Once) && !(frequency is NoFrequency)
}

impl<R> InterestRate<R> {
    /// The rate.
    pub closed spec fn rate_spec(self) -> R {
        self.rate
    }

    /// The day counter the rate accrues with.
    pub closed spec fn day_counter_spec(self) -> DayCounter {
        self.day_counter
    }

    /// How the rate compounds.
    pub closed spec fn compounding_spec(self) -> Compounding {
        self.compounding
    }

    /// The compounding frequency; `NoFrequency` where the compounding uses
    /// none.
    pub closed spec fn frequency_spec(self) -> Frequency {
        self.frequency
    }

    /// Whether the frequency is the one the compounding calls for.
    pub closed spec fn wf(self) -> bool {
        if self.compounding.uses_frequency() {
            frequency_allowed(self.compounding, self.frequency)
        } else {
            self.frequency is NoFrequency
        }
    }
}

impl<R: Copy> InterestRate<R> {
    /// A `rate` quoted with `day_counter`, `compounding` and `frequency`.
    ///
    /// The frequency is kept only where the compounding uses one, and is
    /// then refused when it is `Once` or `NoFrequency`; otherwise it is
    /// recorded as `NoFrequency`.
    pub fn new(rate: R, day_counter: DayCounter, compounding: Compounding, frequency: Frequency) -> (r:
        Result<InterestRate<R>, QlError>)
        ensures
            r is Ok <==> frequency_allowed(compounding, frequency),
            r is Err ==> r == Err::<InterestRate<R>, QlError>(QlError::FrequencyNotAllowed),
            r matches Ok(ir) ==> ({
                &&& ir.wf()
                &&& ir.rate_spec() == rate
                &&& ir.day_counter_spec() == day_counter
                &&& ir.compounding_spec() == compounding
                &&& ir.frequency_spec() == if compounding.uses_frequency() {
                    frequency
                } else {
                    Frequency::NoFrequency
                }
            }),
    {
        let uses_frequency = match compounding {
            Compounding::Compounded
            | Compounding::SimpleThenCompounded
            | Compounding::CompoundedThenSimple => true,
            _ => false,
        };
        if uses_frequency {
            match frequency {
                Frequency::Once | Frequency::NoFrequency => {
                    return Err(QlError::FrequencyNotAllowed);
                },
                _ => {},
            }
            Ok(InterestRate { rate, day_counter, compounding, frequency })
        } else {
            Ok(InterestRate { rate, day_counter, compounding, frequency: Frequency::NoFrequency })
        }
    }

    /// The same rate and conventions, accruing with `day_counter` instead.
    pub fn with_day_counter(&self, day_counter: DayCounter) -> (r: InterestRate<R>)
        ensures
            r.rate_spec() == self.rate_spec(),
            r.day_counter_spec() == day_counter,
            r.compounding_spec() == self.compounding_spec(),
            r.frequency_spec() == self.frequency_spec(),
            self.wf() ==> r.wf(),
    {
        InterestRate {
            rate: self.rate,
            day_counter,
            compounding: self.compounding,
            frequency: self.frequency,
        }
    }
}

impl<R: Copy> InterestRate<R> {
    /// The rate.
    pub fn rate(&self) -> (r: R)
        ensures
            r == self.rate_spec(),
    {
        self.rate
    }

    /// The day counter the rate accrues with.
    pub fn day_counter(&self) -> (r: DayCounter)
        ensures
            r == self.day_counter_spec(),
    {
        self.day_counter
    }

    /// How the rate compounds.
    pub fn compounding(&self) -> (r: Compounding)
        ensures
            r == self.compounding_spec(),
    {
        self.compounding
    }

    /// The compounding frequency; `NoFrequency` where the compounding uses
    /// none.
    pub fn frequency(&self) -> (r: Frequency)
        ensures
            r == self.frequency_spec(),
    {
        self.frequency
    }
}

} // verus!

