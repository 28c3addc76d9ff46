//! Option exercise styles.
use vstd::prelude::*;

use crate::time::date::Date;

verus! {

/// Exercise style of an option.
#[derive(Clone, Copy, Debug, PartialEq, Eq, Structural, Hash)]
pub enum ExerciseType {
    /// Exercisable at any time between two predefined dates.
    American,
    /// Exercisable only at a set of fixed dates.
    Bermudan,
    /// Exercisable only at one (expiry) date.
    European,
}

/// The exercise contract of an option: a style and at least one exercise
/// date, in ascending order.
pub trait Exercise {
    /// The exercise dates.
    spec fn exercise_dates(&self) -> Seq<Date>;

    /// The exercise style.
    fn exercise_type(&self) -> ExerciseType;

    /// All exercise dates, in ascending order; never empty.
    fn dates(&self) -> (r: &[Date])
        ensures
            r@ == self.exercise_dates(),
            r@.len() >= 1,
            forall|i: int, j: int| 0 <= i < j < r@.len() ==> r@[i]@ <= r@[j]@,
    ;

    /// The last exercise date.
    fn last_date(&self) -> (r: Date)
        ensures
            r == self.exercise_dates().last(),
    {
        let dates = self.dates();
        dates[dates.len() - 1]
    }
}

/// European exercise: the option can only be exercised at one (expiry) date.
#[derive(Clone, Copy, Debug, PartialEq, Eq, Hash)]
pub struct EuropeanExercise {
    dates: [Date; 1],
}

impl EuropeanExercise {
    /// The expiry date.
    pub closed spec fn expiry(&self) -> Date {
        self.dates[0]
    }

    /// A European exercise at the given expiry date.
    pub fn new(date: Date) -> (r: EuropeanExercise)
        ensures
            r.expiry() == date,
    {
        EuropeanExercise { dates: [date] }
    }
}

impl Exercise for EuropeanExercise {
    open spec fn exercise_dates(&self) -> Seq<Date> {
        seq![self.expiry()]
    }

    fn exercise_type(&self) -> (r: ExerciseType)
        ensures
            r == ExerciseType::European,
    {
        ExerciseType::European
    }

    fn dates(&self) -> (r: &[Date]) {
        let r: &[Date] = self.dates.as_slice();
        assert(r@ =~= seq![self.expiry()]);
        r
    }
}

} // verus!
