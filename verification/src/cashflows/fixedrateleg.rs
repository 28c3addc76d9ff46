//! The fixed-rate leg: a schedule turned into fixed-rate coupons.
use vstd::prelude::*;

use crate::cashflows::cashflow::{CashFlowDates, Leg};
use crate::cashflows::coupon::{
    CouponBase, CouponSerials, ExCouponModel, ExCouponTerms, at, ex_coupon_date, ex_coupon_model,
    ex_coupon_spec, law_payment_lag_counts_business_days, payment_date, payment_date_spec, value_at,
};
use crate::errors::QlError;
use crate::interestrate::{Compounding, InterestRate, frequency_allowed};
use crate::time::calendar::{
    BusinessDayConvention, Calendar, CalendarModel, advance_spec, business_days_after,
};
use crate::time::date::Date;
use crate::time::daycounter::DayCounter;
use crate::time::period::{Frequency, Period};
use crate::time::schedule::{Schedule, ScheduleModel};

verus! {

/// A coupon paying a fixed rate.
#[derive(Clone, Copy, Debug, PartialEq)]
pub struct FixedRateCoupon<R> {
    /// The coupon's dates and nominal.
    pub coupon: CouponBase<R>,
    /// The rate the coupon accrues at, with its conventions.
    pub rate: InterestRate<R>,
}

impl<R: Copy> FixedRateCoupon<R> {
    /// The date the coupon is paid on.
    pub fn date(&self) -> (r: Date)
        ensures
            r == self.coupon.payment_date,
    {
        self.coupon.payment_date
    }
}

/// The start of the reference period of a schedule's first coupon: one
/// tenor before its end when the first period is a stub, its accrual start
/// otherwise. `None` where that date is not defined.
#[verifier::opaque]
pub open spec fn first_reference_start(s: ScheduleModel) -> Option<int> {
    if s.is_stub(1) {
        let tenor = s.tenor.unwrap();
        if tenor.length_spec() > i32::MIN && s.end_of_month is Some {
            advance_spec(
                s.calendar,
                s.dates[1]@,
                -tenor.length_spec(),
                tenor.units_spec(),
                s.convention,
                s.end_of_month.unwrap(),
            )
        } else {
            None
        }
    } else {
        Some(s.dates[0]@)
    }
}

/// Whether a schedule's last period, of its `n` dates, is irregular: its
/// tenor is known and the period is not flagged regular.
pub open spec fn last_period_irregular(s: ScheduleModel) -> bool {
    let n = s.dates.len() as int;
    &&& s.tenor is Some
    &&& !(s.is_regular.len() > 0 && s.is_regular[n - 2])
}

/// The end of the reference period of a schedule's last coupon, when it has
/// more than one: one tenor after its start when the last period is
/// irregular, its accrual end otherwise.
#[verifier::opaque]
pub open spec fn last_reference_end(s: ScheduleModel) -> Option<int> {
    let n = s.dates.len() as int;
    if last_period_irregular(s) {
        let tenor = s.tenor.unwrap();
        if s.end_of_month is Some {
            advance_spec(
                s.calendar,
                s.dates[n - 2]@,
                tenor.length_spec(),
                tenor.units_spec(),
                s.convention,
                s.end_of_month.unwrap(),
            )
        } else {
            None
        }
    } else {
        Some(s.dates[n - 1]@)
    }
}

/// The dates of the `i`-th coupon of a fixed-rate leg over `s`, paid
/// `payment_lag` business days after its accrual end on `payment_calendar`,
/// or `None` where one falls outside the supported range.
#[verifier::opaque]
pub open spec fn fixed_coupon_serials(
    s: ScheduleModel,
    payment_calendar: CalendarModel,
    payment_lag: int,
    payment_adjustment: BusinessDayConvention,
    ex_coupon: Option<ExCouponModel>,
    i: int,
) -> Option<CouponSerials> {
    let n = s.dates.len() as int;
    let start = s.dates[i]@;
    let end = s.dates[i + 1]@;
    let ref_start = if i == 0 {
        first_reference_start(s)
    } else {
        Some(start)
    };
    let ref_end = if i == n - 2 && n > 2 {
        last_reference_end(s)
    } else {
        Some(end)
    };
    match (ref_start, ref_end, payment_date_spec(payment_calendar, end, payment_lag, payment_adjustment)) {
        (Some(a), Some(b), Some(p)) => match ex_coupon_spec(ex_coupon, p) {
            Some(e) => Some(
                CouponSerials { start, end, ref_start: a, ref_end: b, payment: p, ex_coupon: e },
            ),
            None => None,
        },
        _ => None,
    }
}

/// Whether every coupon of a fixed-rate leg over `s` has defined dates.
pub open spec fn fixed_dates_defined(
    s: ScheduleModel,
    payment_calendar: CalendarModel,
    payment_lag: int,
    payment_adjustment: BusinessDayConvention,
    ex_coupon: Option<ExCouponModel>,
) -> bool {
    &&& s.wf()
    &&& forall|i: int|
        0 <= i < s.dates.len() - 1 ==> (#[trigger] fixed_coupon_serials(
            s,
            payment_calendar,
            payment_lag,
            payment_adjustment,
            ex_coupon,
            i,
        )) is Some
}

/// What a fixed-rate leg is made of: its schedule and the terms its
/// coupons are built with.
pub struct FixedRateLegModel<R> {
    /// The schedule the coupons are laid on.
    pub schedule: ScheduleModel,
    /// The notional of each coupon; the last one carries over.
    pub notionals: Seq<R>,
    /// The rate of each coupon; the last one carries over.
    pub coupon_rates: Seq<InterestRate<R>>,
    /// The day counter of the first coupon, overriding its rate's.
    pub first_period_day_counter: Option<DayCounter>,
    /// The day counter of the last coupon, overriding its rate's.
    pub last_period_day_counter: Option<DayCounter>,
    /// The calendar payment dates are counted on.
    pub payment_calendar: CalendarModel,
    /// The convention payment dates are rolled with.
    pub payment_adjustment: BusinessDayConvention,
    /// The business days from the accrual end to the payment.
    pub payment_lag: int,
    /// The ex-coupon period, when the coupons have one.
    pub ex_coupon: Option<ExCouponModel>,
}

impl<R> FixedRateLegModel<R> {
    /// The dates of the `i`-th coupon, or `None` where one falls outside the
    /// supported range.
    pub open spec fn coupon_serials(self, i: int) -> Option<CouponSerials> {
        fixed_coupon_serials(
            self.schedule,
            self.payment_calendar,
            self.payment_lag,
            self.payment_adjustment,
            self.ex_coupon,
            i,
        )
    }

    /// Whether the dates of every coupon are defined.
    pub open spec fn dates_defined(self) -> bool {
        fixed_dates_defined(
            self.schedule,
            self.payment_calendar,
            self.payment_lag,
            self.payment_adjustment,
            self.ex_coupon,
        )
    }

    /// The day counter of the `i`-th coupon's rate, when a period override
    /// applies to it.
    pub open spec fn day_counter_override(self, i: int) -> Option<DayCounter> {
        let n = self.schedule.dates.len() as int;
        if i == 0 {
            self.first_period_day_counter
        } else if i == n - 2 && n > 2 {
            self.last_period_day_counter
        } else {
            None
        }
    }

    /// Whether `c` is the `i`-th coupon of the leg: its dates, the `i`-th
    /// notional and the `i`-th rate, under the period's day counter.
    pub open spec fn is_coupon(self, c: FixedRateCoupon<R>, i: int) -> bool {
        let rate = value_at(self.coupon_rates, i);
        &&& c.coupon.has_serials(self.coupon_serials(i).unwrap())
        &&& c.coupon.nominal == value_at(self.notionals, i)
        &&& c.rate.rate_spec() == rate.rate_spec()
        &&& c.rate.compounding_spec() == rate.compounding_spec()
        &&& c.rate.frequency_spec() == rate.frequency_spec()
        &&& c.rate.day_counter_spec() == match self.day_counter_override(i) {
            Some(dc) => dc,
            None => rate.day_counter_spec(),
        }
    }

    /// The `i`-th coupon accrues on the `i`-th notional at the `i`-th rate;
    /// only a coupon past the end of a list takes its last element.
    pub proof fn law_coupon_takes_its_own_terms(self, c: FixedRateCoupon<R>, i: int)
        requires
            0 <= i,
            self.is_coupon(c, i),
        ensures
            i < self.notionals.len() ==> c.coupon.nominal == self.notionals[i],
            i >= self.notionals.len() ==> c.coupon.nominal == self.notionals[self.notionals.len() - 1],
            i < self.coupon_rates.len() ==> c.rate.rate_spec() == self.coupon_rates[i].rate_spec(),
            i >= self.coupon_rates.len() ==> c.rate.rate_spec() == self.coupon_rates[self.coupon_rates.len()
                - 1].rate_spec(),
    {
    }

    /// With a payment lag of `n` business days, `n > 0`, every coupon is
    /// paid on a business day of the payment calendar after its accrual
    /// end, with exactly `n` business days after the accrual end up to and
    /// including the payment date.
    pub proof fn law_payment_lags_accrual_end(self, c: FixedRateCoupon<R>, i: int)
        requires
            self.dates_defined(),
            0 <= i < self.schedule.dates.len() - 1,
            self.is_coupon(c, i),
            self.payment_lag > 0,
        ensures
            c.coupon.accrual_end_date@ < c.coupon.payment_date@,
            self.payment_calendar.is_business(c.coupon.payment_date@),
            business_days_after(self.payment_calendar, c.coupon.accrual_end_date@, c.coupon.payment_date@)
                == self.payment_lag,
    {
        assert(self.coupon_serials(i) is Some);
        self.lemma_coupon_serials(i);
        law_payment_lag_counts_business_days(
            self.payment_calendar,
            self.schedule.dates[i + 1]@,
            self.payment_lag,
            self.payment_adjustment,
        );
    }

    /// The dates of the `i`-th coupon, when defined, are its own period's,
    /// paid and going ex-coupon as the leg's terms say.
    pub proof fn lemma_coupon_serials(self, i: int)
        requires
            self.coupon_serials(i) is Some,
            0 <= i < self.schedule.dates.len() - 1,
        ensures
            ({
                let s = self.schedule;
                let n = s.dates.len() as int;
                let end = s.dates[i + 1]@;
                let p = payment_date_spec(self.payment_calendar, end, self.payment_lag, self.payment_adjustment);
                &&& p is Some
                &&& i == 0 ==> first_reference_start(s) is Some
                &&& (i == n - 2 && n > 2) ==> last_reference_end(s) is Some
                &&& ex_coupon_spec(self.ex_coupon, p.unwrap()) is Some
                &&& self.coupon_serials(i).unwrap() == CouponSerials {
                    start: s.dates[i]@,
                    end,
                    ref_start: if i == 0 { first_reference_start(s).unwrap() } else { s.dates[i]@ },
                    ref_end: if i == n - 2 && n > 2 { last_reference_end(s).unwrap() } else { end },
                    payment: p.unwrap(),
                    ex_coupon: ex_coupon_spec(self.ex_coupon, p.unwrap()).unwrap(),
                }
            }),
    {
        reveal(fixed_coupon_serials);
    }

    /// The error a leg refuses to build with, if any: no rate, no notional,
    /// or fewer than two dates, checked in that order.
    pub open spec fn build_error(self) -> Option<QlError> {
        if self.coupon_rates.len() == 0 {
            Some(QlError::NoCouponRates)
        } else if self.notionals.len() == 0 {
            Some(QlError::NoNotional)
        } else if self.schedule.dates.len() < 2 {
            Some(QlError::ScheduleTooShort)
        } else {
            None
        }
    }
}

/// Builds fixed-rate coupons over a schedule, from notionals and rates
/// given per coupon, the last one carrying over to the coupons after it.
///
/// The first and last periods may be stubs; their coupons then accrue
/// against a reference period one tenor long.
pub struct FixedRateLeg<R> {
    schedule: Schedule,
    notionals: Vec<R>,
    coupon_rates: Vec<InterestRate<R>>,
    first_period_day_counter: Option<DayCounter>,
    last_period_day_counter: Option<DayCounter>,
    payment_calendar: Calendar,
    payment_adjustment: BusinessDayConvention,
    payment_lag: i32,
    ex_coupon: Option<ExCouponTerms>,
}

impl<R> View for FixedRateLeg<R> {
    type V = FixedRateLegModel<R>;

    closed spec fn view(&self) -> FixedRateLegModel<R> {
        FixedRateLegModel {
            schedule: self.schedule@,
            notionals: self.notionals@,
            coupon_rates: self.coupon_rates@,
            first_period_day_counter: self.first_period_day_counter,
            last_period_day_counter: self.last_period_day_counter,
            payment_calendar: self.payment_calendar@,
            payment_adjustment: self.payment_adjustment,
            payment_lag: self.payment_lag as int,
            ex_coupon: ex_coupon_model(self.ex_coupon),
        }
    }
}

impl<R: Copy> FixedRateLeg<R> {
    /// A leg over `schedule` with no notional and no rate yet, paying on
    /// the schedule's calendar with the `Following` convention, no lag and
    /// no ex-coupon period.
    pub fn new(schedule: Schedule) -> (r: FixedRateLeg<R>)
        ensures
            r@.schedule == schedule@,
            r@.notionals.len() == 0,
            r@.coupon_rates.len() == 0,
            r@.first_period_day_counter is None,
            r@.last_period_day_counter is None,
            r@.payment_calendar == schedule@.calendar,
            r@.payment_adjustment == BusinessDayConvention::Following,
            r@.payment_lag == 0,
            r@.ex_coupon is None,
    {
        let payment_calendar = schedule.calendar().copied();
        FixedRateLeg {
            schedule,
            notionals: Vec::new(),
            coupon_rates: Vec::new(),
            first_period_day_counter: None,
            last_period_day_counter: None,
            payment_calendar,
            payment_adjustment: BusinessDayConvention::Following,
            payment_lag: 0,
            ex_coupon: None,
        }
    }

    /// One notional for every coupon.
    pub fn with_notional(self, notional: R) -> (r: FixedRateLeg<R>)
        ensures
            r@ == (FixedRateLegModel { notionals: seq![notional], ..self@ }),
    {
        let notionals = vec![notional];
        assert(notionals@ =~= seq![notional]);
        self.with_notionals(notionals)
    }

    /// A notional per coupon; the last one carries over.
    pub fn with_notionals(self, notionals: Vec<R>) -> (r: FixedRateLeg<R>)
        ensures
            r@ == (FixedRateLegModel { notionals: notionals@, ..self@ }),
    {
        FixedRateLeg { notionals, ..self }
    }

    /// One rate for every coupon, quoted with the given conventions.
    pub fn with_coupon_rate(
        self,
        rate: R,
        day_counter: DayCounter,
        compounding: Compounding,
        frequency: Frequency,
    ) -> (r: Result<FixedRateLeg<R>, QlError>)
        ensures
            r is Ok <==> frequency_allowed(compounding, frequency),
            r is Err ==> r == Err::<FixedRateLeg<R>, QlError>(QlError::FrequencyNotAllowed),
            r matches Ok(leg) ==> ({
                &&& leg@.coupon_rates.len() == 1
                &&& leg@.coupon_rates[0].rate_spec() == rate
                &&& leg@.coupon_rates[0].day_counter_spec() == day_counter
                &&& leg@.coupon_rates[0].compounding_spec() == compounding
                &&& leg@.coupon_rates[0].frequency_spec() == if compounding.uses_frequency() {
                    frequency
                } else {
                    Frequency::NoFrequency
                }
                &&& leg@ == (FixedRateLegModel { coupon_rates: leg@.coupon_rates, ..self@ })
            }),
    {
        self.with_coupon_rates(vec![rate], day_counter, compounding, frequency)
    }

    /// A rate per coupon, all quoted with the given conventions; the last
    /// one carries over.
    pub fn with_coupon_rates(
        self,
        rates: Vec<R>,
        day_counter: DayCounter,
        compounding: Compounding,
        frequency: Frequency,
    ) -> (r: Result<FixedRateLeg<R>, QlError>)
        ensures
            r is Ok <==> (rates.len() == 0 || frequency_allowed(compounding, frequency)),
            r is Err ==> r == Err::<FixedRateLeg<R>, QlError>(QlError::FrequencyNotAllowed),
            r matches Ok(leg) ==> ({
                &&& leg@.coupon_rates.len() == rates.len()
                &&& forall|i: int|
                    0 <= i < rates.len() ==> {
                        &&& (#[trigger] leg@.coupon_rates[i]).rate_spec() == rates@[i]
                        &&& leg@.coupon_rates[i].day_counter_spec() == day_counter
                        &&& leg@.coupon_rates[i].compounding_spec() == compounding
                        &&& leg@.coupon_rates[i].frequency_spec() == if compounding.uses_frequency() {
                            frequency
                        } else {
                            Frequency::NoFrequency
                        }
                        &&& leg@.coupon_rates[i].wf()
                    }
                &&& leg@ == (FixedRateLegModel { coupon_rates: leg@.coupon_rates, ..self@ })
            }),
    {
        let mut coupon_rates: Vec<InterestRate<R>> = Vec::new();
        let mut i: usize = 0;
        while i < rates.len()
            invariant
                i <= rates.len(),
                frequency_allowed(compounding, frequency) || i == 0,
                coupon_rates.len() == i,
                forall|k: int|
                    0 <= k < i ==> {
                        &&& (#[trigger] coupon_rates@[k]).rate_spec() == rates@[k]
                        &&& coupon_rates@[k].day_counter_spec() == day_counter
                        &&& coupon_rates@[k].compounding_spec() == compounding
                        &&& coupon_rates@[k].frequency_spec() == if compounding.uses_frequency() {
                            frequency
                        } else {
                            Frequency::NoFrequency
                        }
                        &&& coupon_rates@[k].wf()
                    },
            decreases rates.len() - i,
        {
            match InterestRate::new(rates[i], day_counter, compounding, frequency) {
                Ok(rate) => coupon_rates.push(rate),
                Err(e) => {
                    return Err(e);
                },
            }
            i = i + 1;
        }
        Ok(self.with_interest_rates(coupon_rates))
    }

    /// One rate, with its conventions, for every coupon.
    pub fn with_interest_rate(self, interest_rate: InterestRate<R>) -> (r: FixedRateLeg<R>)
        ensures
            r@ == (FixedRateLegModel { coupon_rates: seq![interest_rate], ..self@ }),
    {
        let rates = vec![interest_rate];
        assert(rates@ =~= seq![interest_rate]);
        self.with_interest_rates(rates)
    }

    /// A rate, with its conventions, per coupon; the last one carries over.
    pub fn with_interest_rates(self, interest_rates: Vec<InterestRate<R>>) -> (r: FixedRateLeg<R>)
        ensures
            r@ == (FixedRateLegModel { coupon_rates: interest_rates@, ..self@ }),
    {
        FixedRateLeg { coupon_rates: interest_rates, ..self }
    }

    /// The convention payment dates are rolled with.
    pub fn with_payment_adjustment(self, convention: BusinessDayConvention) -> (r: FixedRateLeg<R>)
        ensures
            r@ == (FixedRateLegModel { payment_adjustment: convention, ..self@ }),
    {
        FixedRateLeg { payment_adjustment: convention, ..self }
    }

    /// The calendar payment dates are counted on, in place of the
    /// schedule's.
    pub fn with_payment_calendar(self, calendar: Calendar) -> (r: FixedRateLeg<R>)
        ensures
            r@ == (FixedRateLegModel { payment_calendar: calendar@, ..self@ }),
    {
        FixedRateLeg { payment_calendar: calendar, ..self }
    }

    /// The business days from a coupon's accrual end to its payment.
    pub fn with_payment_lag(self, lag: i32) -> (r: FixedRateLeg<R>)
        ensures
            r@ == (FixedRateLegModel { payment_lag: lag as int, ..self@ }),
    {
        FixedRateLeg { payment_lag: lag, ..self }
    }

    /// A day counter for the first coupon alone, in place of its rate's.
    pub fn with_first_period_day_counter(self, day_counter: DayCounter) -> (r: FixedRateLeg<R>)
        ensures
            r@ == (FixedRateLegModel { first_period_day_counter: Some(day_counter), ..self@ }),
    {
        FixedRateLeg { first_period_day_counter: Some(day_counter), ..self }
    }

    /// A day counter for the last coupon alone, in place of its rate's.
    pub fn with_last_period_day_counter(self, day_counter: DayCounter) -> (r: FixedRateLeg<R>)
        ensures
            r@ == (FixedRateLegModel { last_period_day_counter: Some(day_counter), ..self@ }),
    {
        FixedRateLeg { last_period_day_counter: Some(day_counter), ..self }
    }

    /// The ex-coupon period, measured back from each payment date on
    /// `calendar` and rolled with `convention`.
    pub fn with_ex_coupon_period(
        self,
        period: Period,
        calendar: Calendar,
        convention: BusinessDayConvention,
        end_of_month: bool,
    ) -> (r: FixedRateLeg<R>)
        ensures
            r@ == (FixedRateLegModel {
                ex_coupon: Some(
                    ExCouponModel { period, calendar: calendar@, convention, end_of_month },
                ),
                ..self@
            }),
    {
        FixedRateLeg {
            ex_coupon: Some(ExCouponTerms { period, calendar, convention, end_of_month }),
            ..self
        }
    }

    /// The `index`-th coupon, over the given dates.
    fn coupon(
        &self,
        index: usize,
        start: Date,
        end: Date,
        reference_start: Date,
        reference_end: Date,
        day_counter: Option<DayCounter>,
    ) -> (r: FixedRateCoupon<R>)
        requires
            end.wf(),
            self.notionals.len() > 0,
            self.coupon_rates.len() > 0,
            payment_date_spec(self@.payment_calendar, end@, self@.payment_lag, self@.payment_adjustment) is Some,
            ex_coupon_spec(
                self@.ex_coupon,
                payment_date_spec(
                    self@.payment_calendar,
                    end@,
                    self@.payment_lag,
                    self@.payment_adjustment,
                ).unwrap(),
            ) is Some,
        ensures
            ({
                let p = payment_date_spec(
                    self@.payment_calendar,
                    end@,
                    self@.payment_lag,
                    self@.payment_adjustment,
                ).unwrap();
                let rate = value_at(self@.coupon_rates, index as int);
                &&& r.coupon.has_serials(
                    CouponSerials {
                        start: start@,
                        end: end@,
                        ref_start: reference_start@,
                        ref_end: reference_end@,
                        payment: p,
                        ex_coupon: ex_coupon_spec(self@.ex_coupon, p).unwrap(),
                    },
                )
                &&& r.coupon.nominal == value_at(self@.notionals, index as int)
                &&& r.rate.rate_spec() == rate.rate_spec()
                &&& r.rate.compounding_spec() == rate.compounding_spec()
                &&& r.rate.frequency_spec() == rate.frequency_spec()
                &&& r.rate.day_counter_spec() == match day_counter {
                    Some(dc) => dc,
                    None => rate.day_counter_spec(),
                }
            }),
    {
        let payment = payment_date(&self.payment_calendar, end, self.payment_lag, self.payment_adjustment);
        let ex = ex_coupon_date(&self.ex_coupon, payment);
        let rate = at(&self.coupon_rates, index);
        let rate = match day_counter {
            Some(dc) => rate.with_day_counter(dc),
            None => rate,
        };
        let coupon = CouponBase::new(
            payment,
            at(&self.notionals, index),
            start,
            end,
            Some(reference_start),
            Some(reference_end),
            ex,
        );
        FixedRateCoupon { coupon, rate }
    }

    /// The first coupon, whose reference period starts one tenor before its
    /// end when the first period is a stub.
    fn first_coupon(&self) -> (r: FixedRateCoupon<R>)
        requires
            self@.dates_defined(),
            self@.build_error() is None,
        ensures
            self@.is_coupon(r, 0),
    {
        assert(self@.coupon_serials(0) is Some);
        proof {
            self@.lemma_coupon_serials(0);
        }
        reveal(first_reference_start);
        let start = self.schedule.date(0);
        let end = self.schedule.date(1);
        let stub = self.schedule.has_tenor() && self.schedule.has_is_regular()
            && !self.schedule.is_regular_at(1);
        let reference_start = if stub {
            let tenor = self.schedule.tenor();
            self.schedule.calendar().advance_by_period(
                end,
                tenor.negated(),
                self.schedule.business_day_convention(),
                self.schedule.end_of_month(),
            )
        } else {
            start
        };
        self.coupon(0, start, end, reference_start, end, self.first_period_day_counter)
    }

    /// The `i`-th coupon, neither the first nor the last, over its own
    /// period.
    fn middle_coupon(&self, i: usize) -> (r: FixedRateCoupon<R>)
        requires
            self@.dates_defined(),
            self@.build_error() is None,
            1 <= i < self@.schedule.dates.len() - 2,
        ensures
            self@.is_coupon(r, i as int),
    {
        assert(self@.coupon_serials(i as int) is Some);
        proof {
            self@.lemma_coupon_serials(i as int);
        }
        let size = self.schedule.len();
        let start = self.schedule.date(i);
        let end = self.schedule.date(i + 1);
        self.coupon(i, start, end, start, end, None)
    }

    /// The last coupon of a leg of more than one, whose reference period
    /// ends one tenor after its start when the last period is irregular.
    fn last_coupon(&self) -> (r: FixedRateCoupon<R>)
        requires
            self@.dates_defined(),
            self@.build_error() is None,
            self@.schedule.dates.len() > 2,
        ensures
            self@.is_coupon(r, self@.schedule.dates.len() - 2),
    {
        let size = self.schedule.len();
        assert(self@.coupon_serials(size - 2) is Some);
        proof {
            self@.lemma_coupon_serials(size - 2);
        }
        reveal(last_reference_end);
        let start = self.schedule.date(size - 2);
        let end = self.schedule.date(size - 1);
        let regular = (self.schedule.has_is_regular() && self.schedule.is_regular_at(size - 1))
            || !self.schedule.has_tenor();
        let reference_end = if regular {
            end
        } else {
            self.schedule.calendar().advance_by_period(
                start,
                self.schedule.tenor(),
                self.schedule.business_day_convention(),
                self.schedule.end_of_month(),
            )
        };
        self.coupon(size - 2, start, end, start, reference_end, self.last_period_day_counter)
    }

    /// The coupons of the leg, one per period of the schedule.
    pub fn coupons(&self) -> (r: Result<Vec<FixedRateCoupon<R>>, QlError>)
        requires
            self@.dates_defined(),
        ensures
            r is Ok <==> self@.build_error() is None,
            r is Err ==> r == Err::<Vec<FixedRateCoupon<R>>, QlError>(self@.build_error().unwrap()),
            r matches Ok(cs) ==> ({
                &&& cs.len() == self@.schedule.dates.len() - 1
                &&& forall|i: int| 0 <= i < cs.len() ==> self@.is_coupon(#[trigger] cs@[i], i)
            }),
    {
        if self.coupon_rates.len() == 0 {
            return Err(QlError::NoCouponRates);
        }
        if self.notionals.len() == 0 {
            return Err(QlError::NoNotional);
        }
        let size = self.schedule.len();
        if size < 2 {
            return Err(QlError::ScheduleTooShort);
        }
        let ghost leg = self@;
        let mut coupons: Vec<FixedRateCoupon<R>> = Vec::new();
        coupons.push(self.first_coupon());
        let mut i: usize = 2;
        while i < size - 1
            invariant
                self@ == leg,
                leg.dates_defined(),
                leg.build_error() is None,
                size == leg.schedule.dates.len(),
                2 <= i <= size - 1 || (size == 2 && i == 2),
                coupons.len() == i - 1,
                forall|k: int| 0 <= k < coupons.len() ==> leg.is_coupon(#[trigger] coupons@[k], k),
            decreases size - i,
        {
            coupons.push(self.middle_coupon(i - 1));
            i = i + 1;
        }
        if size > 2 {
            coupons.push(self.last_coupon());
        }
        Ok(coupons)
    }

    /// The coupons as a leg of flows: their payment dates and accrual
    /// periods.
    pub fn build(&self) -> (r: Result<Leg, QlError>)
        requires
            self@.dates_defined(),
        ensures
            r is Ok <==> self@.build_error() is None,
            r is Err ==> r == Err::<Leg, QlError>(self@.build_error().unwrap()),
            r matches Ok(flows) ==> ({
                &&& flows.len() == self@.schedule.dates.len() - 1
                &&& forall|i: int|
                    0 <= i < flows.len() ==> {
                        let s = self@.coupon_serials(i).unwrap();
                        &&& (#[trigger] flows@[i]).date@ == s.payment
                        &&& flows@[i].accrual matches Some(a) && a.start@ == s.start && a.end@
                            == s.end
                    }
            }),
    {
        match self.coupons() {
            Err(e) => Err(e),
            Ok(coupons) => {
                let mut flows: Leg = Vec::new();
                let mut i: usize = 0;
                while i < coupons.len()
                    invariant
                        i <= coupons.len(),
                        flows.len() == i,
                        coupons.len() == self@.schedule.dates.len() - 1,
                        forall|k: int|
                            0 <= k < coupons.len() ==> self@.is_coupon(#[trigger] coupons@[k], k),
                        forall|k: int|
                            0 <= k < i ==> {
                                let s = self@.coupon_serials(k).unwrap();
                                &&& (#[trigger] flows@[k]).date@ == s.payment
                                &&& flows@[k].accrual matches Some(a) && a.start@ == s.start
                                    && a.end@ == s.end
                            },
                    decreases coupons.len() - i,
                {
                    assert(self@.is_coupon(coupons@[i as int], i as int));
                    flows.push(coupons[i].coupon.flow_dates());
                    i = i + 1;
                }
                Ok(flows)
            },
        }
    }
}

} // verus!
