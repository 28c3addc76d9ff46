//! The year-on-year inflation leg: a schedule turned into coupons paying a
//! year-on-year inflation index.
use vstd::prelude::*;

use crate::cashflows::cashflow::Leg;
use crate::cashflows::coupon::{CouponSerials, at, broadcast, broadcast_spec, payment_date, value_at};
use crate::cashflows::iborleg::{
    floating_coupon_serials, floating_reference_end, floating_reference_start,
    lemma_floating_coupon_serials,
};
use crate::cashflows::yoyinflationcoupon::YoYInflationCoupon;
use crate::errors::QlError;
use crate::indexes::inflationindex::CpiInterpolationType;
use crate::time::calendar::{BusinessDayConvention, Calendar, CalendarModel};
use crate::time::daycounter::DayCounter;
use crate::time::period::Period;
use crate::time::schedule::{Schedule, ScheduleModel};

verus! {

/// What a year-on-year inflation leg is made of: its schedule, index, and
/// the terms its coupons are built with.
pub struct YoYInflationLegModel<R, I> {
    /// The schedule the coupons are laid on.
    pub schedule: ScheduleModel,
    /// The calendar payment dates are rolled on.
    pub payment_calendar: CalendarModel,
    /// The index the coupons pay.
    pub yoy_index: I,
    /// How long before each reference-period end the index is observed.
    pub observation_lag: Period,
    /// How observations interpolate between fixings.
    pub interpolation: CpiInterpolationType,
    /// The notional of each coupon; the last one carries over.
    pub notionals: Seq<R>,
    /// The day counter the coupons accrue with.
    pub payment_day_counter: Option<DayCounter>,
    /// The convention payment dates are rolled with.
    pub payment_adjustment: BusinessDayConvention,
    /// The fixing days of each coupon; the last one carries over.
    pub fixing_days: Seq<u32>,
    /// The gearing of each coupon; the last one carries over.
    pub gearings: Seq<R>,
    /// The spread of each coupon; the last one carries over.
    pub spreads: Seq<R>,
}

impl<R, I> YoYInflationLegModel<R, I> {
    /// The dates of the `i`-th coupon, paid on its accrual end rolled on the
    /// payment calendar, or `None` where one falls outside the supported
    /// range.
    pub open spec fn coupon_serials(self, i: int) -> Option<CouponSerials> {
        floating_coupon_serials(
            self.schedule,
            self.schedule.convention,
            self.payment_calendar,
            0,
            self.payment_adjustment,
            None,
            i,
        )
    }

    /// Whether the dates of every coupon are defined.
    pub open spec fn dates_defined(self) -> bool {
        &&& self.schedule.wf()
        &&& forall|i: int|
            0 <= i < self.schedule.dates.len() - 1 ==> (#[trigger] self.coupon_serials(i)) is Some
    }

    /// The error a leg refuses to build with, if any, checked in this
    /// order: no payment day counter, no notional, fewer than two dates,
    /// more notionals, gearings or spreads than periods.
    pub open spec fn build_error(self) -> Option<QlError> {
        let periods = self.schedule.dates.len() - 1;
        if self.payment_day_counter is None {
            Some(QlError::NoPaymentDayCounter)
        } else if self.notionals.len() == 0 {
            Some(QlError::NoNotional)
        } else if self.schedule.dates.len() < 2 {
            Some(QlError::ScheduleTooShort)
        } else if self.notionals.len() > periods {
            Some(QlError::TooManyNotionals)
        } else if self.gearings.len() > periods {
            Some(QlError::TooManyGearings)
        } else if self.spreads.len() > periods {
            Some(QlError::TooManySpreads)
        } else {
            None
        }
    }
}

impl<R, I: Clone> YoYInflationLegModel<R, I> {
    /// Whether `c` is the `i`-th coupon of the leg: its dates, the `i`-th
    /// notional, fixing days, gearing and spread, over a clone of the leg's
    /// index.
    pub open spec fn is_coupon(self, c: YoYInflationCoupon<R, I>, i: int) -> bool {
        &&& c.coupon.has_serials(self.coupon_serials(i).unwrap())
        &&& c.coupon.nominal == value_at(self.notionals, i)
        &&& cloned(self.yoy_index, c.yoy_index)
        &&& c.observation_lag == self.observation_lag
        &&& c.interpolation == self.interpolation
        &&& c.fixing_days == broadcast_spec(self.fixing_days, i, 0)
        &&& c.day_counter == self.payment_day_counter.unwrap()
        &&& c.gearing == if self.gearings.len() == 0 {
            None
        } else {
            Some(value_at(self.gearings, i))
        }
        &&& c.spread == if self.spreads.len() == 0 {
            None
        } else {
            Some(value_at(self.spreads, i))
        }
    }

    /// The `i`-th coupon takes the `i`-th notional, fixing days, gearing and
    /// spread; only a coupon past the end of a list takes its last element.
    pub proof fn law_coupon_takes_its_own_terms(self, c: YoYInflationCoupon<R, I>, i: int)
        requires
            0 <= i,
            self.is_coupon(c, i),
        ensures
            i < self.notionals.len() ==> c.coupon.nominal == self.notionals[i],
            i >= self.notionals.len() ==> c.coupon.nominal == self.notionals[self.notionals.len() - 1],
            self.fixing_days.len() > 0 && i < self.fixing_days.len() ==> c.fixing_days == self.fixing_days[i],
            self.fixing_days.len() > 0 && i >= self.fixing_days.len() ==> c.fixing_days
                == self.fixing_days[self.fixing_days.len() - 1],
            self.gearings.len() > 0 && i < self.gearings.len() ==> c.gearing == Some(self.gearings[i]),
            self.gearings.len() > 0 && i >= self.gearings.len() ==> c.gearing == Some(
                self.gearings[self.gearings.len() - 1],
            ),
            self.spreads.len() > 0 && i < self.spreads.len() ==> c.spread == Some(self.spreads[i]),
            self.spreads.len() > 0 && i >= self.spreads.len() ==> c.spread == Some(
                self.spreads[self.spreads.len() - 1],
            ),
            self.fixing_days.len() == 0 ==> c.fixing_days == 0,
            self.gearings.len() == 0 ==> c.gearing is None,
            self.spreads.len() == 0 ==> c.spread is None,
    {
    }
}

/// Builds coupons paying a year-on-year inflation index over a schedule,
/// from notionals, fixing days, gearings and spreads given per coupon, the
/// last one carrying over to the coupons after it.
pub struct YoYInflationLeg<R, I> {
    schedule: Schedule,
    payment_calendar: Calendar,
    yoy_index: I,
    observation_lag: Period,
    interpolation: CpiInterpolationType,
    notionals: Vec<R>,
    payment_day_counter: Option<DayCounter>,
    payment_adjustment: BusinessDayConvention,
    fixing_days: Vec<u32>,
    gearings: Vec<R>,
    spreads: Vec<R>,
}

impl<R, I> View for YoYInflationLeg<R, I> {
    type V = YoYInflationLegModel<R, I>;

    closed spec fn view(&self) -> YoYInflationLegModel<R, I> {
        YoYInflationLegModel {
            schedule: self.schedule@,
            payment_calendar: self.payment_calendar@,
            yoy_index: self.yoy_index,
            observation_lag: self.observation_lag,
            interpolation: self.interpolation,
            notionals: self.notionals@,
            payment_day_counter: self.payment_day_counter,
            payment_adjustment: self.payment_adjustment,
            fixing_days: self.fixing_days@,
            gearings: self.gearings@,
            spreads: self.spreads@,
        }
    }
}

impl<R: Copy, I: Clone> YoYInflationLeg<R, I> {
    /// A leg over `schedule` paying `yoy_index` observed `observation_lag`
    /// back, paying on `payment_calendar` with the `ModifiedFollowing`
    /// convention, with no notional and no payment day counter yet.
    pub fn new(
        schedule: Schedule,
        payment_calendar: Calendar,
        yoy_index: I,
        observation_lag: Period,
        interpolation: CpiInterpolationType,
    ) -> (r: YoYInflationLeg<R, I>)
        ensures
            r@.schedule == schedule@,
            r@.payment_calendar == payment_calendar@,
            r@.yoy_index == yoy_index,
            r@.observation_lag == observation_lag,
            r@.interpolation == interpolation,
            r@.notionals.len() == 0,
            r@.payment_day_counter is None,
            r@.payment_adjustment == BusinessDayConvention::ModifiedFollowing,
            r@.fixing_days.len() == 0,
            r@.gearings.len() == 0,
            r@.spreads.len() == 0,
    {
        YoYInflationLeg {
            schedule,
            payment_calendar,
            yoy_index,
            observation_lag,
            interpolation,
            notionals: Vec::new(),
            payment_day_counter: None,
            payment_adjustment: BusinessDayConvention::ModifiedFollowing,
            fixing_days: Vec::new(),
            gearings: Vec::new(),
            spreads: Vec::new(),
        }
    }

    /// One notional for every coupon.
    pub fn with_notional(self, notional: R) -> (r: YoYInflationLeg<R, I>)
        ensures
            r@ == (YoYInflationLegModel { notionals: seq![notional], ..self@ }),
    {
        let notionals = vec![notional];
        assert(notionals@ =~= seq![notional]);
        self.with_notionals(notionals)
    }

    /// A notional per coupon; the last one carries over.
    pub fn with_notionals(self, notionals: Vec<R>) -> (r: YoYInflationLeg<R, I>)
        ensures
            r@ == (YoYInflationLegModel { notionals: notionals@, ..self@ }),
    {
        YoYInflationLeg { notionals, ..self }
    }

    /// The day counter the coupons accrue with.
    pub fn with_payment_day_counter(self, day_counter: DayCounter) -> (r: YoYInflationLeg<R, I>)
        ensures
            r@ == (YoYInflationLegModel { payment_day_counter: Some(day_counter), ..self@ }),
    {
        YoYInflationLeg { payment_day_counter: Some(day_counter), ..self }
    }

    /// The convention payment dates are rolled with.
    pub fn with_payment_adjustment(self, convention: BusinessDayConvention) -> (r: YoYInflationLeg<
        R,
        I,
    >)
        ensures
            r@ == (YoYInflationLegModel { payment_adjustment: convention, ..self@ }),
    {
        YoYInflationLeg { payment_adjustment: convention, ..self }
    }

    /// One fixing-days count for every coupon.
    pub fn with_fixing_days(self, fixing_days: u32) -> (r: YoYInflationLeg<R, I>)
        ensures
            r@ == (YoYInflationLegModel { fixing_days: seq![fixing_days], ..self@ }),
    {
        let days = vec![fixing_days];
        assert(days@ =~= seq![fixing_days]);
        self.with_fixing_days_per_coupon(days)
    }

    /// A fixing-days count per coupon; the last one carries over.
    pub fn with_fixing_days_per_coupon(self, fixing_days: Vec<u32>) -> (r: YoYInflationLeg<R, I>)
        ensures
            r@ == (YoYInflationLegModel { fixing_days: fixing_days@, ..self@ }),
    {
        YoYInflationLeg { fixing_days, ..self }
    }

    /// One gearing for every coupon.
    pub fn with_gearing(self, gearing: R) -> (r: YoYInflationLeg<R, I>)
        ensures
            r@ == (YoYInflationLegModel { gearings: seq![gearing], ..self@ }),
    {
        let gearings = vec![gearing];
        assert(gearings@ =~= seq![gearing]);
        self.with_gearings(gearings)
    }

    /// A gearing per coupon; the last one carries over.
    pub fn with_gearings(self, gearings: Vec<R>) -> (r: YoYInflationLeg<R, I>)
        ensures
            r@ == (YoYInflationLegModel { gearings: gearings@, ..self@ }),
    {
        YoYInflationLeg { gearings, ..self }
    }

    /// One spread for every coupon.
    pub fn with_spread(self, spread: R) -> (r: YoYInflationLeg<R, I>)
        ensures
            r@ == (YoYInflationLegModel { spreads: seq![spread], ..self@ }),
    {
        let spreads = vec![spread];
        assert(spreads@ =~= seq![spread]);
        self.with_spreads(spreads)
    }

    /// A spread per coupon; the last one carries over.
    pub fn with_spreads(self, spreads: Vec<R>) -> (r: YoYInflationLeg<R, I>)
        ensures
            r@ == (YoYInflationLegModel { spreads: spreads@, ..self@ }),
    {
        YoYInflationLeg { spreads, ..self }
    }

    /// The `i`-th coupon.
    fn coupon(&self, i: usize) -> (r: YoYInflationCoupon<R, I>)
        requires
            self@.dates_defined(),
            self@.build_error() is None,
            i < self@.schedule.dates.len() - 1,
        ensures
            self@.is_coupon(r, i as int),
    {
        let size = self.schedule.len();
        let periods = size - 1;
        assert(self@.coupon_serials(i as int) is Some);
        proof {
            lemma_floating_coupon_serials(
                self@.schedule,
                self@.schedule.convention,
                self@.payment_calendar,
                0,
                self@.payment_adjustment,
                None,
                i as int,
            );
            reveal(floating_reference_start);
            reveal(floating_reference_end);
        }
        let calendar = self.schedule.calendar();
        let convention = self.schedule.business_day_convention();
        let start = self.schedule.date(i);
        let end = self.schedule.date(i + 1);
        let mut reference_start = start;
        let mut reference_end = end;
        if i == 0 && self.schedule.has_tenor() && self.schedule.has_is_regular()
            && !self.schedule.is_regular_at(1) {
            reference_start = calendar.advance_by_period(
                end,
                self.schedule.tenor().negated(),
                convention,
                false,
            );
        }
        if i == periods - 1 && self.schedule.has_tenor() && self.schedule.has_is_regular()
            && !self.schedule.is_regular_at(i + 1) {
            reference_end = calendar.advance_by_period(start, self.schedule.tenor(), convention, false);
        }
        let payment = payment_date(&self.payment_calendar, end, 0, self.payment_adjustment);
        let gearing = if self.gearings.len() == 0 {
            None
        } else {
            Some(at(&self.gearings, i))
        };
        let spread = if self.spreads.len() == 0 {
            None
        } else {
            Some(at(&self.spreads, i))
        };
        let day_counter = self.payment_day_counter.unwrap();
        YoYInflationCoupon::new(
            payment,
            at(&self.notionals, i),
            start,
            end,
            broadcast(&self.fixing_days, i, 0),
            self.yoy_index.clone(),
            self.observation_lag,
            self.interpolation,
            day_counter,
            gearing,
            spread,
            Some(reference_start),
            Some(reference_end),
        )
    }

    /// The coupons of the leg, one per period of the schedule.
    pub fn coupons(&self) -> (r: Result<Vec<YoYInflationCoupon<R, I>>, QlError>)
        requires
            self@.dates_defined(),
        ensures
            r is Ok <==> self@.build_error() is None,
            r is Err ==> r == Err::<Vec<YoYInflationCoupon<R, I>>, QlError>(
                self@.build_error().unwrap(),
            ),
            r matches Ok(cs) ==> ({
                &&& cs.len() == self@.schedule.dates.len() - 1
                &&& forall|i: int| 0 <= i < cs.len() ==> self@.is_coupon(#[trigger] cs@[i], i)
            }),
    {
        if self.payment_day_counter.is_none() {
            return Err(QlError::NoPaymentDayCounter);
        }
        if self.notionals.len() == 0 {
            return Err(QlError::NoNotional);
        }
        let size = self.schedule.len();
        if size < 2 {
            return Err(QlError::ScheduleTooShort);
        }
        let periods = size - 1;
        if self.notionals.len() > periods {
            return Err(QlError::TooManyNotionals);
        }
        if self.gearings.len() > periods {
            return Err(QlError::TooManyGearings);
        }
        if self.spreads.len() > periods {
            return Err(QlError::TooManySpreads);
        }
        let mut coupons: Vec<YoYInflationCoupon<R, I>> = Vec::new();
        let mut i: usize = 0;
        while i < periods
            invariant
                self@.dates_defined(),
                self@.build_error() is None,
                periods == self@.schedule.dates.len() - 1,
                i <= periods,
                coupons.len() == i,
                forall|k: int| 0 <= k < i ==> self@.is_coupon(#[trigger] coupons@[k], k),
            decreases periods - i,
        {
            coupons.push(self.coupon(i));
            i = i + 1;
        }
        Ok(coupons)
    }

    /// The coupons as a leg of flows: their payment dates and accrual
    /// periods.
    pub fn build(&self) -> (r: Result<Leg, QlError>)
        requires
            self@.dates_defined(),
        ensures
            r is Ok <==> self@.build_error() is None,
            r is Err ==> r == Err::<Leg, QlError>(self@.build_error().unwrap()),
            r matches Ok(flows) ==> ({
                &&& flows.len() == self@.schedule.dates.len() - 1
                &&& forall|i: int|
                    0 <= i < flows.len() ==> {
                        let s = self@.coupon_serials(i).unwrap();
                        &&& (#[trigger] flows@[i]).date@ == s.payment
                        &&& flows@[i].accrual matches Some(a) && a.start@ == s.start && a.end@
                            == s.end
                    }
            }),
    {
        match self.coupons() {
            Err(e) => Err(e),
            Ok(coupons) => {
                let mut flows: Leg = Vec::new();
                let mut i: usize = 0;
                while i < coupons.len()
                    invariant
                        i <= coupons.len(),
                        flows.len() == i,
                        coupons.len() == self@.schedule.dates.len() - 1,
                        forall|k: int|
                            0 <= k < coupons.len() ==> self@.is_coupon(#[trigger] coupons@[k], k),
                        forall|k: int|
                            0 <= k < i ==> {
                                let s = self@.coupon_serials(k).unwrap();
                                &&& (#[trigger] flows@[k]).date@ == s.payment
                                &&& flows@[k].accrual matches Some(a) && a.start@ == s.start
                                    && a.end@ == s.end
                            },
                    decreases coupons.len() - i,
                {
                    assert(self@.is_coupon(coupons@[i as int], i as int));
                    flows.push(coupons[i].coupon.flow_dates());
                    i = i + 1;
                }
                Ok(flows)
            },
        }
    }
}

} // verus!
