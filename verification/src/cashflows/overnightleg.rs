//! The overnight leg: a schedule turned into coupons compounding an
//! overnight index.
use vstd::prelude::*;

use crate::cashflows::cashflow::Leg;
use crate::cashflows::coupon::{
    CouponSerials, at, law_payment_lag_counts_business_days, may_be_nonzero, may_be_zero, payment_date,
    value_at,
};
use crate::cashflows::iborleg::{
    floating_coupon_serials, floating_reference_end, floating_reference_start,
    lemma_floating_coupon_serials,
};
use crate::cashflows::overnightindexedcoupon::{
    OvernightIndexedCoupon, RateAveraging, overnight_coupon_error,
};
use crate::errors::QlError;
use crate::indexes::iborindex::OvernightIndex;
use crate::time::calendar::{BusinessDayConvention, Calendar, CalendarModel, business_days_after};
use crate::time::daycounter::DayCounter;
use crate::time::schedule::{Schedule, ScheduleModel};

verus! {

/// The error the `i`-th coupon of an overnight leg over `s` refuses to
/// build with, if any.
#[verifier::opaque]
pub open spec fn overnight_coupon_error_at(
    s: ScheduleModel,
    payment_calendar: CalendarModel,
    payment_lag: int,
    payment_adjustment: BusinessDayConvention,
    averaging_method: RateAveraging,
    i: int,
) -> Option<QlError> {
    let serials = floating_coupon_serials(
        s,
        payment_adjustment,
        payment_calendar,
        payment_lag,
        payment_adjustment,
        None,
        i,
    ).unwrap();
    overnight_coupon_error(serials.payment, serials.start, serials.end, averaging_method)
}

/// The error the first refused coupon of an overnight leg over `s` is
/// refused with, if any coupon is.
#[verifier::opaque]
pub open spec fn first_overnight_coupon_error(
    s: ScheduleModel,
    payment_calendar: CalendarModel,
    payment_lag: int,
    payment_adjustment: BusinessDayConvention,
    averaging_method: RateAveraging,
) -> Option<QlError> {
    if exists|i: int|
        0 <= i < s.dates.len() - 1 && (#[trigger] overnight_coupon_error_at(
            s,
            payment_calendar,
            payment_lag,
            payment_adjustment,
            averaging_method,
            i,
        )) is Some {
        let i = choose|i: int|
            0 <= i < s.dates.len() - 1 && (#[trigger] overnight_coupon_error_at(
                s,
                payment_calendar,
                payment_lag,
                payment_adjustment,
                averaging_method,
                i,
            )) is Some && forall|j: int|
                0 <= j < i ==> (#[trigger] overnight_coupon_error_at(
                    s,
                    payment_calendar,
                    payment_lag,
                    payment_adjustment,
                    averaging_method,
                    j,
                )) is None;
        overnight_coupon_error_at(
            s,
            payment_calendar,
            payment_lag,
            payment_adjustment,
            averaging_method,
            i,
        )
    } else {
        None
    }
}

/// The first refused coupon's error is that of the coupon refused after
/// all the coupons before it were accepted.
pub proof fn lemma_first_overnight_coupon_error(
    s: ScheduleModel,
    payment_calendar: CalendarModel,
    payment_lag: int,
    payment_adjustment: BusinessDayConvention,
    averaging_method: RateAveraging,
    i: int,
)
    requires
        0 <= i < s.dates.len() - 1,
        overnight_coupon_error_at(s, payment_calendar, payment_lag, payment_adjustment, averaging_method, i) is Some,
        forall|j: int|
            0 <= j < i ==> (#[trigger] overnight_coupon_error_at(
                s,
                payment_calendar,
                payment_lag,
                payment_adjustment,
                averaging_method,
                j,
            )) is None,
    ensures
        first_overnight_coupon_error(s, payment_calendar, payment_lag, payment_adjustment, averaging_method)
            == overnight_coupon_error_at(s, payment_calendar, payment_lag, payment_adjustment, averaging_method, i),
{
    reveal(first_overnight_coupon_error);
    let err = |k: int| overnight_coupon_error_at(s, payment_calendar, payment_lag, payment_adjustment, averaging_method, k);
    let j = choose|j: int|
        0 <= j < s.dates.len() - 1 && (#[trigger] overnight_coupon_error_at(
            s,
            payment_calendar,
            payment_lag,
            payment_adjustment,
            averaging_method,
            j,
        )) is Some && forall|k: int|
            0 <= k < j ==> (#[trigger] overnight_coupon_error_at(
                s,
                payment_calendar,
                payment_lag,
                payment_adjustment,
                averaging_method,
                k,
            )) is None;
    if j < i {
        assert(err(j) is None);
    } else if j > i {
        assert(err(i) is None);
    }
}

/// No coupon's error means no leg error.
pub proof fn lemma_no_overnight_coupon_error(
    s: ScheduleModel,
    payment_calendar: CalendarModel,
    payment_lag: int,
    payment_adjustment: BusinessDayConvention,
    averaging_method: RateAveraging,
)
    requires
        forall|j: int|
            0 <= j < s.dates.len() - 1 ==> (#[trigger] overnight_coupon_error_at(
                s,
                payment_calendar,
                payment_lag,
                payment_adjustment,
                averaging_method,
                j,
            )) is None,
    ensures
        first_overnight_coupon_error(s, payment_calendar, payment_lag, payment_adjustment, averaging_method) is None,
{
    reveal(first_overnight_coupon_error);
}

/// What an overnight leg is made of: its schedule, index, and the terms its
/// coupons are built with.
pub struct OvernightLegModel<R> {
    /// The schedule the coupons are laid on.
    pub schedule: ScheduleModel,
    /// The index the coupons pay.
    pub index: OvernightIndex,
    /// The notional of each coupon; the last one carries over.
    pub notionals: Seq<R>,
    /// The day counter the coupons accrue with, in place of the index's.
    pub payment_day_counter: Option<DayCounter>,
    /// The convention payment dates and stub reference dates are rolled
    /// with.
    pub payment_adjustment: BusinessDayConvention,
    /// The business days from the accrual end to the payment.
    pub payment_lag: int,
    /// The calendar payment dates are counted on.
    pub payment_calendar: CalendarModel,
    /// The gearing of each coupon; the last one carries over.
    pub gearings: Seq<R>,
    /// The spread of each coupon; the last one carries over.
    pub spreads: Seq<R>,
    /// How the coupons average their fixings.
    pub averaging_method: RateAveraging,
    /// Whether the coupons compound their spread daily.
    pub compound_spread_daily: bool,
}

impl<R> OvernightLegModel<R> {
    /// The dates of the `i`-th coupon, or `None` where one falls outside the
    /// supported range.
    pub open spec fn coupon_serials(self, i: int) -> Option<CouponSerials> {
        floating_coupon_serials(
            self.schedule,
            self.payment_adjustment,
            self.payment_calendar,
            self.payment_lag,
            self.payment_adjustment,
            None,
            i,
        )
    }

    /// Whether the dates of every coupon are defined.
    pub open spec fn dates_defined(self) -> bool {
        &&& self.schedule.wf()
        &&& forall|i: int|
            0 <= i < self.schedule.dates.len() - 1 ==> (#[trigger] self.coupon_serials(i)) is Some
    }

    /// The error the leg's counts refuse it with, if any, checked in this
    /// order: no notional, fewer than two dates, more notionals, gearings or
    /// spreads than periods.
    pub open spec fn count_error(self) -> Option<QlError> {
        let periods = self.schedule.dates.len() - 1;
        if self.notionals.len() == 0 {
            Some(QlError::NoNotional)
        } else if self.schedule.dates.len() < 2 {
            Some(QlError::ScheduleTooShort)
        } else if self.notionals.len() > periods {
            Some(QlError::TooManyNotionals)
        } else if self.gearings.len() > periods {
            Some(QlError::TooManyGearings)
        } else if self.spreads.len() > periods {
            Some(QlError::TooManySpreads)
        } else {
            None
        }
    }

    /// The error the `i`-th coupon refuses to build with, if any.
    pub open spec fn coupon_error(self, i: int) -> Option<QlError> {
        overnight_coupon_error_at(
            self.schedule,
            self.payment_calendar,
            self.payment_lag,
            self.payment_adjustment,
            self.averaging_method,
            i,
        )
    }

    /// The error the leg refuses to build with, if any: its counts', else
    /// the first refused coupon's.
    pub open spec fn build_error(self) -> Option<QlError> {
        if self.count_error() is Some {
            self.count_error()
        } else {
            first_overnight_coupon_error(
                self.schedule,
                self.payment_calendar,
                self.payment_lag,
                self.payment_adjustment,
                self.averaging_method,
            )
        }
    }

    /// Whether `c` is the `i`-th coupon of the leg: its dates, the `i`-th
    /// notional, gearing and spread, over the leg's index.
    pub open spec fn is_coupon(self, c: OvernightIndexedCoupon<R>, i: int) -> bool {
        &&& c.coupon.has_serials(self.coupon_serials(i).unwrap())
        &&& c.coupon.nominal == value_at(self.notionals, i)
        &&& c.index.ibor_spec().same_terms(&self.index.ibor_spec())
        &&& c.gearing == if self.gearings.len() == 0 {
            None
        } else {
            Some(value_at(self.gearings, i))
        }
        &&& c.spread == if self.spreads.len() == 0 {
            None
        } else {
            Some(value_at(self.spreads, i))
        }
        &&& c.day_counter == match self.payment_day_counter {
            Some(dc) => dc,
            None => self.index.ibor_spec().day_counter_spec(),
        }
        &&& c.averaging_method == self.averaging_method
        &&& c.compound_spread_daily == self.compound_spread_daily
    }

    /// The `i`-th coupon takes the `i`-th notional, gearing and spread; only
    /// a coupon past the end of a list takes its last element.
    pub proof fn law_coupon_takes_its_own_terms(self, c: OvernightIndexedCoupon<R>, i: int)
        requires
            0 <= i,
            self.is_coupon(c, i),
        ensures
            i < self.notionals.len() ==> c.coupon.nominal == self.notionals[i],
            i >= self.notionals.len() ==> c.coupon.nominal == self.notionals[self.notionals.len() - 1],
            self.gearings.len() > 0 && i < self.gearings.len() ==> c.gearing == Some(self.gearings[i]),
            self.gearings.len() > 0 && i >= self.gearings.len() ==> c.gearing == Some(
                self.gearings[self.gearings.len() - 1],
            ),
            self.spreads.len() > 0 && i < self.spreads.len() ==> c.spread == Some(self.spreads[i]),
            self.spreads.len() > 0 && i >= self.spreads.len() ==> c.spread == Some(
                self.spreads[self.spreads.len() - 1],
            ),
            self.gearings.len() == 0 ==> c.gearing is None,
            self.spreads.len() == 0 ==> c.spread is None,
    {
    }

    /// With a payment lag of `n` business days, `n > 0`, every coupon is
    /// paid on a business day of the payment calendar after its accrual
    /// end, with exactly `n` business days after the accrual end up to and
    /// including the payment date.
    pub proof fn law_payment_lags_accrual_end(self, c: OvernightIndexedCoupon<R>, i: int)
        requires
            self.dates_defined(),
            0 <= i < self.schedule.dates.len() - 1,
            self.is_coupon(c, i),
            self.payment_lag > 0,
        ensures
            c.coupon.accrual_end_date@ < c.coupon.payment_date@,
            self.payment_calendar.is_business(c.coupon.payment_date@),
            business_days_after(self.payment_calendar, c.coupon.accrual_end_date@, c.coupon.payment_date@)
                == self.payment_lag,
    {
        assert(self.coupon_serials(i) is Some);
        lemma_floating_coupon_serials(
            self.schedule,
            self.payment_adjustment,
            self.payment_calendar,
            self.payment_lag,
            self.payment_adjustment,
            None,
            i,
        );
        law_payment_lag_counts_business_days(
            self.payment_calendar,
            self.schedule.dates[i + 1]@,
            self.payment_lag,
            self.payment_adjustment,
        );
    }
}

impl<R: PartialEq + From<u32>> OvernightLegModel<R> {
    /// Whether every coupon's gearing, when gearings were given, was found
    /// other than zero.
    pub open spec fn gearings_nonnull(self) -> bool {
        forall|i: int| 0 <= i < self.schedule.dates.len() - 1 ==> #[trigger] self.gearing_nonnull_at(i)
    }

    /// Whether the `i`-th coupon's gearing, when gearings were given, was
    /// found other than zero.
    pub open spec fn gearing_nonnull_at(self, i: int) -> bool {
        self.gearings.len() == 0 || may_be_nonzero(value_at(self.gearings, i))
    }

    /// Whether some coupon's gearing can be zero while that coupon and every
    /// one before it pass their date and averaging checks.
    pub open spec fn gearing_null_first(self) -> bool {
        self.gearings.len() > 0 && exists|i: int|
            0 <= i < self.schedule.dates.len() - 1 && may_be_zero(
                #[trigger] value_at(self.gearings, i),
            ) && forall|j: int| 0 <= j <= i ==> (#[trigger] self.coupon_error(j)) is None
    }
}

/// A coupon whose gearing can be zero, with it and every coupon before it
/// passing their date and averaging checks, is a null gearing met first.
proof fn lemma_null_gearing_first<R: PartialEq + From<u32>>(m: OvernightLegModel<R>, i: int)
    requires
        m.gearings.len() > 0,
        0 <= i < m.schedule.dates.len() - 1,
        may_be_zero(value_at(m.gearings, i)),
        m.coupon_error(i) is None,
        forall|k: int| 0 <= k < i ==> (#[trigger] m.coupon_error(k)) is None,
    ensures
        m.gearing_null_first(),
{
    assert forall|j: int| 0 <= j <= i implies (#[trigger] m.coupon_error(j)) is None by {
        if j < i {
        }
    }
}

/// Builds coupons compounding an overnight index over a schedule, from
/// notionals, gearings and spreads given per coupon, the last one carrying
/// over to the coupons after it.
pub struct OvernightLeg<R> {
    schedule: Schedule,
    index: OvernightIndex,
    notionals: Vec<R>,
    payment_day_counter: Option<DayCounter>,
    payment_adjustment: BusinessDayConvention,
    payment_lag: i32,
    payment_calendar: Calendar,
    gearings: Vec<R>,
    spreads: Vec<R>,
    averaging_method: RateAveraging,
    compound_spread_daily: bool,
}

impl<R> View for OvernightLeg<R> {
    type V = OvernightLegModel<R>;

    closed spec fn view(&self) -> OvernightLegModel<R> {
        OvernightLegModel {
            schedule: self.schedule@,
            index: self.index,
            notionals: self.notionals@,
            payment_day_counter: self.payment_day_counter,
            payment_adjustment: self.payment_adjustment,
            payment_lag: self.payment_lag as int,
            payment_calendar: self.payment_calendar@,
            gearings: self.gearings@,
            spreads: self.spreads@,
            averaging_method: self.averaging_method,
            compound_spread_daily: self.compound_spread_daily,
        }
    }
}

impl<R: Copy> OvernightLeg<R> {
    /// A leg over `schedule` paying `index`, with no notional yet, paying on
    /// the schedule's calendar with the `Following` convention and no lag,
    /// compounding its fixings and adding its spread after compounding.
    pub fn new(schedule: Schedule, index: OvernightIndex) -> (r: OvernightLeg<R>)
        ensures
            r@.schedule == schedule@,
            r@.index == index,
            r@.notionals.len() == 0,
            r@.payment_day_counter is None,
            r@.payment_adjustment == BusinessDayConvention::Following,
            r@.payment_lag == 0,
            r@.payment_calendar == schedule@.calendar,
            r@.gearings.len() == 0,
            r@.spreads.len() == 0,
            r@.averaging_method == RateAveraging::Compound,
            !r@.compound_spread_daily,
    {
        let payment_calendar = schedule.calendar().copied();
        OvernightLeg {
            schedule,
            index,
            notionals: Vec::new(),
            payment_day_counter: None,
            payment_adjustment: BusinessDayConvention::Following,
            payment_lag: 0,
            payment_calendar,
            gearings: Vec::new(),
            spreads: Vec::new(),
            averaging_method: RateAveraging::Compound,
            compound_spread_daily: false,
        }
    }

    /// One notional for every coupon.
    pub fn with_notional(self, notional: R) -> (r: OvernightLeg<R>)
        ensures
            r@ == (OvernightLegModel { notionals: seq![notional], ..self@ }),
    {
        let notionals = vec![notional];
        assert(notionals@ =~= seq![notional]);
        self.with_notionals(notionals)
    }

    /// A notional per coupon; the last one carries over.
    pub fn with_notionals(self, notionals: Vec<R>) -> (r: OvernightLeg<R>)
        ensures
            r@ == (OvernightLegModel { notionals: notionals@, ..self@ }),
    {
        OvernightLeg { notionals, ..self }
    }

    /// The day counter the coupons accrue with, in place of the index's.
    pub fn with_payment_day_counter(self, day_counter: DayCounter) -> (r: OvernightLeg<R>)
        ensures
            r@ == (OvernightLegModel { payment_day_counter: Some(day_counter), ..self@ }),
    {
        OvernightLeg { payment_day_counter: Some(day_counter), ..self }
    }

    /// The convention payment dates and stub reference dates are rolled
    /// with.
    pub fn with_payment_adjustment(self, convention: BusinessDayConvention) -> (r: OvernightLeg<R>)
        ensures
            r@ == (OvernightLegModel { payment_adjustment: convention, ..self@ }),
    {
        OvernightLeg { payment_adjustment: convention, ..self }
    }

    /// The business days from a coupon's accrual end to its payment.
    pub fn with_payment_lag(self, lag: i32) -> (r: OvernightLeg<R>)
        ensures
            r@ == (OvernightLegModel { payment_lag: lag as int, ..self@ }),
    {
        OvernightLeg { payment_lag: lag, ..self }
    }

    /// The calendar payment dates are counted on, in place of the
    /// schedule's.
    pub fn with_payment_calendar(self, calendar: Calendar) -> (r: OvernightLeg<R>)
        ensures
            r@ == (OvernightLegModel { payment_calendar: calendar@, ..self@ }),
    {
        OvernightLeg { payment_calendar: calendar, ..self }
    }

    /// One gearing for every coupon.
    pub fn with_gearing(self, gearing: R) -> (r: OvernightLeg<R>)
        ensures
            r@ == (OvernightLegModel { gearings: seq![gearing], ..self@ }),
    {
        let gearings = vec![gearing];
        assert(gearings@ =~= seq![gearing]);
        self.with_gearings(gearings)
    }

    /// A gearing per coupon; the last one carries over.
    pub fn with_gearings(self, gearings: Vec<R>) -> (r: OvernightLeg<R>)
        ensures
            r@ == (OvernightLegModel { gearings: gearings@, ..self@ }),
    {
        OvernightLeg { gearings, ..self }
    }

    /// One spread for every coupon.
    pub fn with_spread(self, spread: R) -> (r: OvernightLeg<R>)
        ensures
            r@ == (OvernightLegModel { spreads: seq![spread], ..self@ }),
    {
        let spreads = vec![spread];
        assert(spreads@ =~= seq![spread]);
        self.with_spreads(spreads)
    }

    /// A spread per coupon; the last one carries over.
    pub fn with_spreads(self, spreads: Vec<R>) -> (r: OvernightLeg<R>)
        ensures
            r@ == (OvernightLegModel { spreads: spreads@, ..self@ }),
    {
        OvernightLeg { spreads, ..self }
    }

    /// How the coupons average their fixings; only compounding builds.
    pub fn with_averaging_method(self, averaging_method: RateAveraging) -> (r: OvernightLeg<R>)
        ensures
            r@ == (OvernightLegModel { averaging_method, ..self@ }),
    {
        OvernightLeg { averaging_method, ..self }
    }

    /// Whether the coupons compound their spread with each daily fixing
    /// rather than add it after compounding.
    pub fn with_compound_spread_daily(self, compound_spread_daily: bool) -> (r: OvernightLeg<R>)
        ensures
            r@ == (OvernightLegModel { compound_spread_daily, ..self@ }),
    {
        OvernightLeg { compound_spread_daily, ..self }
    }

    /// The `i`-th coupon, or the error it is refused with.
    fn coupon(&self, i: usize) -> (r: Result<OvernightIndexedCoupon<R>, QlError>) where R: PartialEq + From<u32>
        requires
            self@.dates_defined(),
            self@.count_error() is None,
            i < self@.schedule.dates.len() - 1,
        ensures
            self@.coupon_error(i as int) is Some ==> r == Err::<OvernightIndexedCoupon<R>, QlError>(
                self@.coupon_error(i as int).unwrap(),
            ),
            self@.coupon_error(i as int) is None && self@.gearings.len() == 0 ==> r is Ok,
            self@.coupon_error(i as int) is None && r is Err ==> r == Err::<
                OvernightIndexedCoupon<R>,
                QlError,
            >(QlError::NullGearing) && self@.gearings.len() > 0 && may_be_zero(
                value_at(self@.gearings, i as int),
            ),
            r is Ok ==> self@.coupon_error(i as int) is None && (self@.gearings.len() > 0
                ==> may_be_nonzero(value_at(self@.gearings, i as int))),
            r matches Ok(c) ==> self@.is_coupon(c, i as int),
    {
        let size = self.schedule.len();
        let periods = size - 1;
        assert(self@.coupon_serials(i as int) is Some);
        proof {
            lemma_floating_coupon_serials(
                self@.schedule,
                self@.payment_adjustment,
                self@.payment_calendar,
                self@.payment_lag,
                self@.payment_adjustment,
                None,
                i as int,
            );
            reveal(floating_reference_start);
            reveal(floating_reference_end);
            reveal(overnight_coupon_error_at);
        }
        let calendar = self.schedule.calendar();
        let start = self.schedule.date(i);
        let end = self.schedule.date(i + 1);
        let mut reference_start = start;
        let mut reference_end = end;
        if i == 0 && self.schedule.has_tenor() && self.schedule.has_is_regular()
            && !self.schedule.is_regular_at(1) {
            reference_start = calendar.advance_by_period(
                end,
                self.schedule.tenor().negated(),
                self.payment_adjustment,
                false,
            );
        }
        if i == periods - 1 && self.schedule.has_tenor() && self.schedule.has_is_regular()
            && !self.schedule.is_regular_at(i + 1) {
            reference_end = calendar.advance_by_period(
                start,
                self.schedule.tenor(),
                self.payment_adjustment,
                false,
            );
        }
        let payment = payment_date(&self.payment_calendar, end, self.payment_lag, self.payment_adjustment);
        let gearing = if self.gearings.len() == 0 {
            None
        } else {
            Some(at(&self.gearings, i))
        };
        let spread = if self.spreads.len() == 0 {
            None
        } else {
            Some(at(&self.spreads, i))
        };
        OvernightIndexedCoupon::new(
            payment,
            at(&self.notionals, i),
            start,
            end,
            self.index.copied(),
            gearing,
            spread,
            Some(reference_start),
            Some(reference_end),
            self.payment_day_counter,
            self.averaging_method,
            self.compound_spread_daily,
            None,
        )
    }

    /// The coupons of the leg, one per period of the schedule; refused with
    /// the leg's count error, else with the first refused coupon's error.
    pub fn coupons(&self) -> (r: Result<Vec<OvernightIndexedCoupon<R>>, QlError>) where
        R: PartialEq + From<u32>,
        requires
            self@.dates_defined(),
        ensures
            self@.gearings.len() == 0 ==> (r is Ok <==> self@.build_error() is None),
            self@.gearings.len() == 0 && r is Err ==> r == Err::<
                Vec<OvernightIndexedCoupon<R>>,
                QlError,
            >(self@.build_error().unwrap()),
            r matches Err(e) ==> (e == QlError::NullGearing || self@.build_error() == Some(e)),
            r == Err::<Vec<OvernightIndexedCoupon<R>>, QlError>(QlError::NullGearing) ==> self@.count_error() is None
                && self@.gearing_null_first(),
            r is Ok ==> self@.build_error() is None && self@.gearings_nonnull(),
            r matches Ok(cs) ==> ({
                &&& cs.len() == self@.schedule.dates.len() - 1
                &&& forall|i: int| 0 <= i < cs.len() ==> self@.is_coupon(#[trigger] cs@[i], i)
            }),
    {
        if self.notionals.len() == 0 {
            return Err(QlError::NoNotional);
        }
        let size = self.schedule.len();
        if size < 2 {
            return Err(QlError::ScheduleTooShort);
        }
        let periods = size - 1;
        if self.notionals.len() > periods {
            return Err(QlError::TooManyNotionals);
        }
        if self.gearings.len() > periods {
            return Err(QlError::TooManyGearings);
        }
        if self.spreads.len() > periods {
            return Err(QlError::TooManySpreads);
        }
        match self.coupon_run() {
            (coupons, None) => {
                proof {
                    let m = self@;
                    assert forall|j: int| 0 <= j < periods implies (#[trigger] overnight_coupon_error_at(
                        m.schedule,
                        m.payment_calendar,
                        m.payment_lag,
                        m.payment_adjustment,
                        m.averaging_method,
                        j,
                    )) is None by {
                        assert(m.coupon_error(j) is None);
                    }
                    lemma_no_overnight_coupon_error(
                        m.schedule,
                        m.payment_calendar,
                        m.payment_lag,
                        m.payment_adjustment,
                        m.averaging_method,
                    );
                }
                Ok(coupons)
            },
            (_, Some((i, e))) => {
                let null_gearing = match e {
                    QlError::NullGearing => true,
                    _ => false,
                };
                if null_gearing {
                    proof {
                        reveal(overnight_coupon_error_at);
                        lemma_null_gearing_first(self@, i as int);
                    }
                    return Err(e);
                }
                proof {
                    let m = self@;
                    assert forall|j: int| 0 <= j < i implies (#[trigger] overnight_coupon_error_at(
                        m.schedule,
                        m.payment_calendar,
                        m.payment_lag,
                        m.payment_adjustment,
                        m.averaging_method,
                        j,
                    )) is None by {
                        assert(m.coupon_error(j) is None);
                    }
                    lemma_first_overnight_coupon_error(
                        m.schedule,
                        m.payment_calendar,
                        m.payment_lag,
                        m.payment_adjustment,
                        m.averaging_method,
                        i as int,
                    );
                }
                Err(e)
            },
        }
    }

    /// The coupons built in order until one is refused: all of them, or
    /// those before the refused one with its position and error.
    fn coupon_run(&self) -> (r: (Vec<OvernightIndexedCoupon<R>>, Option<(usize, QlError)>)) where
        R: PartialEq + From<u32>,
        requires
            self@.dates_defined(),
            self@.count_error() is None,
        ensures
            forall|k: int| 0 <= k < r.0.len() ==> self@.is_coupon(#[trigger] r.0@[k], k),
            forall|k: int| 0 <= k < r.0.len() ==> (#[trigger] self@.coupon_error(k)) is None,
            forall|k: int| 0 <= k < r.0.len() ==> #[trigger] self@.gearing_nonnull_at(k),
            r.1 is None ==> r.0.len() == self@.schedule.dates.len() - 1,
            r.1 matches Some((i, e)) ==> {
                &&& i == r.0.len()
                &&& i < self@.schedule.dates.len() - 1
                &&& self@.coupon_error(i as int) is Some ==> e == self@.coupon_error(i as int).unwrap()
                &&& self@.coupon_error(i as int) is None ==> e == QlError::NullGearing
                    && self@.gearings.len() > 0 && may_be_zero(value_at(self@.gearings, i as int))
            },
    {
        let periods = self.schedule.len() - 1;
        let mut coupons: Vec<OvernightIndexedCoupon<R>> = Vec::new();
        let mut i: usize = 0;
        while i < periods
            invariant
                self@.dates_defined(),
                self@.count_error() is None,
                periods == self@.schedule.dates.len() - 1,
                i <= periods,
                coupons.len() == i,
                forall|k: int| 0 <= k < i ==> self@.is_coupon(#[trigger] coupons@[k], k),
                forall|k: int| 0 <= k < i ==> (#[trigger] self@.coupon_error(k)) is None,
                forall|k: int| 0 <= k < i ==> #[trigger] self@.gearing_nonnull_at(k),
            decreases periods - i,
        {
            match self.coupon(i) {
                Ok(c) => coupons.push(c),
                Err(e) => {
                    return (coupons, Some((i, e)));
                },
            }
            i = i + 1;
        }
        (coupons, None)
    }

    /// The coupons as a leg of flows: their payment dates and accrual
    /// periods.
    pub fn build(&self) -> (r: Result<Leg, QlError>) where R: PartialEq + From<u32>
        requires
            self@.dates_defined(),
        ensures
            self@.gearings.len() == 0 ==> (r is Ok <==> self@.build_error() is None),
            self@.gearings.len() == 0 && r is Err ==> r == Err::<Leg, QlError>(
                self@.build_error().unwrap(),
            ),
            r matches Err(e) ==> (e == QlError::NullGearing || self@.build_error() == Some(e)),
            r == Err::<Leg, QlError>(QlError::NullGearing) ==> self@.count_error() is None
                && self@.gearing_null_first(),
            r is Ok ==> self@.build_error() is None && self@.gearings_nonnull(),
            r matches Ok(flows) ==> ({
                &&& flows.len() == self@.schedule.dates.len() - 1
                &&& forall|i: int|
                    0 <= i < flows.len() ==> {
                        let s = self@.coupon_serials(i).unwrap();
                        &&& (#[trigger] flows@[i]).date@ == s.payment
                        &&& flows@[i].accrual matches Some(a) && a.start@ == s.start && a.end@
                            == s.end
                    }
            }),
    {
        match self.coupons() {
            Err(e) => Err(e),
            Ok(coupons) => {
                let mut flows: Leg = Vec::new();
                let mut i: usize = 0;
                while i < coupons.len()
                    invariant
                        i <= coupons.len(),
                        flows.len() == i,
                        coupons.len() == self@.schedule.dates.len() - 1,
                        forall|k: int|
                            0 <= k < coupons.len() ==> self@.is_coupon(#[trigger] coupons@[k], k),
                        forall|k: int|
                            0 <= k < i ==> {
                                let s = self@.coupon_serials(k).unwrap();
                                &&& (#[trigger] flows@[k]).date@ == s.payment
                                &&& flows@[k].accrual matches Some(a) && a.start@ == s.start
                                    && a.end@ == s.end
                            },
                    decreases coupons.len() - i,
                {
                    assert(self@.is_coupon(coupons@[i as int], i as int));
                    flows.push(coupons[i].coupon.flow_dates());
                    i = i + 1;
                }
                Ok(flows)
            },
        }
    }
}

} // verus!
