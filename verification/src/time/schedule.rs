//! Schedules: the sequence of dates a leg of payments is laid out on.
use vstd::prelude::*;

use crate::errors::QlError;
use crate::time::calendar::{BusinessDayConvention, Calendar, CalendarModel, null_calendar_spec};
use crate::time::date::Date;
use crate::time::period::Period;

verus! {

/// The rule a schedule's dates were generated with.
#[derive(Clone, Copy, Debug, PartialEq, Eq, Structural, Hash)]
pub enum DateGeneration {
    /// Backward from the termination date to the effective date.
    Backward,
    /// Forward from the effective date to the termination date.
    Forward,
    /// No intermediate dates between the effective and termination dates.
    Zero,
    /// All dates but the effective and termination ones are third Wednesdays.
    ThirdWednesday,
    /// All dates, the effective and termination ones included, are third
    /// Wednesdays.
    ThirdWednesdayInclusive,
    /// All dates but the effective one are the twentieth of their month.
    Twentieth,
    /// All dates but the effective one are the twentieth of an IMM month.
    TwentiethIMM,
    /// The credit-default-swap rule before the 2009 big bang.
    OldCDS,
    /// The credit-default-swap rule since the 2009 big bang.
    CDS,
    /// The credit-default-swap rule since December 2015.
    CDS2015,
}

/// What a schedule is: its dates and the conventions they were built with.
pub struct ScheduleModel {
    /// The dates, in order.
    pub dates: Seq<Date>,
    /// The calendar the dates were adjusted on.
    pub calendar: CalendarModel,
    /// The convention the dates were adjusted with.
    pub convention: BusinessDayConvention,
    /// The tenor between regular dates, when known.
    pub tenor: Option<Period>,
    /// The rule the dates were generated with, when known.
    pub rule: Option<DateGeneration>,
    /// Whether the dates were kept at the end of their months, when known.
    pub end_of_month: Option<bool>,
    /// For each period, whether it is a regular one; empty when unknown.
    pub is_regular: Seq<bool>,
}

impl ScheduleModel {
    /// Whether the period ending on the `i`-th date (counting from one) is a
    /// stub: a tenor is known, regularity is known, and the period is not
    /// regular.
    pub open spec fn is_stub(self, i: int) -> bool {
        &&& self.tenor is Some
        &&& self.is_regular.len() > 0
        &&& !self.is_regular[i - 1]
    }

    /// Whether every date lies in the supported range, and regularity is
    /// either unknown or known for every period.
    pub open spec fn wf(self) -> bool {
        &&& forall|i: int| 0 <= i < self.dates.len() ==> (#[trigger] self.dates[i]).wf()
        &&& (self.is_regular.len() == 0 || self.is_regular.len() + 1 == self.dates.len())
    }
}

/// A sequence of dates, with the calendar, convention, tenor, rule,
/// end-of-month flag and period regularity it was generated with.
pub struct Schedule {
    dates: Vec<Date>,
    calendar: Calendar,
    convention: BusinessDayConvention,
    tenor: Option<Period>,
    rule: Option<DateGeneration>,
    end_of_month: Option<bool>,
    is_regular: Vec<bool>,
}

impl View for Schedule {
    type V = ScheduleModel;

    closed spec fn view(&self) -> ScheduleModel {
        ScheduleModel {
            dates: self.dates@,
            calendar: self.calendar@,
            convention: self.convention,
            tenor: self.tenor,
            rule: self.rule,
            end_of_month: self.end_of_month,
            is_regular: self.is_regular@,
        }
    }
}

impl Schedule {
    /// A schedule over the given `dates`, with what is known of how they
    /// were generated.
    ///
    /// `is_regular` flags each period as regular or not; it is either empty
    /// (regularity unknown) or holds one flag per period, one fewer than the
    /// dates, and is refused otherwise.
    pub fn new(
        dates: Vec<Date>,
        calendar: Calendar,
        convention: BusinessDayConvention,
        tenor: Option<Period>,
        rule: Option<DateGeneration>,
        end_of_month: Option<bool>,
        is_regular: Vec<bool>,
    ) -> (r: Result<Schedule, QlError>)
        ensures
            r is Ok <==> (is_regular.len() == 0 || is_regular.len() + 1 == dates.len()),
            r is Err ==> r == Err::<Schedule, QlError>(QlError::RegularityMismatch),
            r matches Ok(s) ==> ({
                &&& s@.dates == dates@
                &&& s@.calendar == calendar@
                &&& s@.convention == convention
                &&& s@.tenor == tenor
                &&& s@.rule == rule
                &&& s@.end_of_month == end_of_month
                &&& s@.is_regular == is_regular@
            }),
    {
        if is_regular.len() != 0 && (dates.len() == 0 || is_regular.len() != dates.len() - 1) {
            return Err(QlError::RegularityMismatch);
        }
        Ok(Schedule { dates, calendar, convention, tenor, rule, end_of_month, is_regular })
    }

    /// A schedule over the given `dates` alone: no calendar, no adjustment,
    /// and nothing known of how they were generated.
    pub fn from_dates(dates: Vec<Date>) -> (r: Schedule)
        ensures
            r@.dates == dates@,
            r@.calendar == null_calendar_spec(),
            r@.convention == BusinessDayConvention::Unadjusted,
            r@.tenor is None,
            r@.rule is None,
            r@.end_of_month is None,
            r@.is_regular.len() == 0,
    {
        Schedule {
            dates,
            calendar: Calendar::null(),
            convention: BusinessDayConvention::Unadjusted,
            tenor: None,
            rule: None,
            end_of_month: None,
            is_regular: Vec::new(),
        }
    }

    /// A copy of the schedule.
    pub fn copied(&self) -> (r: Schedule)
        ensures
            r@ == self@,
    {
        let dates = self.dates.clone();
        let is_regular = self.is_regular.clone();
        assert forall|i: int| 0 <= i < dates@.len() implies dates@[i] == self.dates@[i] by {
            assert(cloned::<Date>(self.dates[i], dates[i]));
        }
        assert forall|i: int| 0 <= i < is_regular@.len() implies is_regular@[i]
            == self.is_regular@[i] by {
            assert(cloned::<bool>(self.is_regular[i], is_regular[i]));
        }
        assert(dates@ =~= self.dates@);
        assert(is_regular@ =~= self.is_regular@);
        Schedule {
            dates,
            calendar: self.calendar.copied(),
            convention: self.convention,
            tenor: self.tenor,
            rule: self.rule,
            end_of_month: self.end_of_month,
            is_regular,
        }
    }

    /// The number of dates.
    pub fn len(&self) -> (r: usize)
        ensures
            r == self@.dates.len(),
    {
        self.dates.len()
    }

    /// Whether the schedule has no dates.
    pub fn is_empty(&self) -> (r: bool)
        ensures
            r == (self@.dates.len() == 0),
    {
        self.dates.len() == 0
    }

    /// The `i`-th date.
    pub fn date(&self, i: usize) -> (r: Date)
        requires
            i < self@.dates.len(),
        ensures
            r == self@.dates[i as int],
    {
        self.dates[i]
    }

    /// The dates.
    pub fn dates(&self) -> (r: &Vec<Date>)
        ensures
            r@ == self@.dates,
    {
        &self.dates
    }

    /// The calendar the dates were adjusted on.
    pub fn calendar(&self) -> (r: &Calendar)
        ensures
            r@ == self@.calendar,
    {
        &self.calendar
    }

    /// The convention the dates were adjusted with.
    pub fn business_day_convention(&self) -> (r: BusinessDayConvention)
        ensures
            r == self@.convention,
    {
        self.convention
    }

    /// Whether the tenor is known.
    pub fn has_tenor(&self) -> (r: bool)
        ensures
            r == (self@.tenor is Some),
    {
        self.tenor.is_some()
    }

    /// The tenor between regular dates.
    pub fn tenor(&self) -> (r: Period)
        requires
            self@.tenor is Some,
        ensures
            r == self@.tenor.unwrap(),
    {
        self.tenor.unwrap()
    }

    /// Whether the generation rule is known.
    pub fn has_rule(&self) -> (r: bool)
        ensures
            r == (self@.rule is Some),
    {
        self.rule.is_some()
    }

    /// The rule the dates were generated with.
    pub fn rule(&self) -> (r: DateGeneration)
        requires
            self@.rule is Some,
        ensures
            r == self@.rule.unwrap(),
    {
        self.rule.unwrap()
    }

    /// Whether the end-of-month flag is known.
    pub fn has_end_of_month(&self) -> (r: bool)
        ensures
            r == (self@.end_of_month is Some),
    {
        self.end_of_month.is_some()
    }

    /// Whether the dates were kept at the end of their months.
    pub fn end_of_month(&self) -> (r: bool)
        requires
            self@.end_of_month is Some,
        ensures
            r == self@.end_of_month.unwrap(),
    {
        self.end_of_month.unwrap()
    }

    /// Whether the regularity of the periods is known.
    pub fn has_is_regular(&self) -> (r: bool)
        ensures
            r == (self@.is_regular.len() > 0),
    {
        self.is_regular.len() > 0
    }

    /// Whether the period ending on the `i`-th date, counting from one, is
    /// regular.
    pub fn is_regular_at(&self, i: usize) -> (r: bool)
        requires
            1 <= i <= self@.is_regular.len(),
        ensures
            r == self@.is_regular[i - 1],
    {
        self.is_regular[i - 1]
    }
}

} // verus!
