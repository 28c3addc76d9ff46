//! The ibor leg: a schedule turned into coupons paying an ibor index.
use vstd::prelude::*;

use crate::cashflows::cashflow::Leg;
use crate::cashflows::coupon::{
    may_be_nonzero, may_be_zero,
    CouponSerials, ExCouponModel, ExCouponTerms, at, broadcast, ex_coupon_date, ex_coupon_model,
    ex_coupon_spec, law_payment_lag_counts_business_days, payment_date, payment_date_spec, value_at,
};
use crate::cashflows::iborcoupon::IborCoupon;
use crate::errors::QlError;
use crate::indexes::iborindex::IborIndex;
use crate::time::calendar::{
    BusinessDayConvention, Calendar, CalendarModel, advance_spec, business_days_after,
};
use crate::time::daycounter::DayCounter;
use crate::time::period::Period;
use crate::time::schedule::{Schedule, ScheduleModel};

verus! {

/// The start of the reference period of a floating leg's first coupon: one
/// tenor before its end, rolled with the schedule's convention, when the
/// first period is a stub; its accrual start otherwise.
#[verifier::opaque]
pub open spec fn floating_reference_start(s: ScheduleModel, convention: BusinessDayConvention) -> Option<int> {
    if s.is_stub(1) {
        let tenor = s.tenor.unwrap();
        if tenor.length_spec() > i32::MIN {
            advance_spec(
                s.calendar,
                s.dates[1]@,
                -tenor.length_spec(),
                tenor.units_spec(),
                convention,
                false,
            )
        } else {
            None
        }
    } else {
        Some(s.dates[0]@)
    }
}

/// The end of the reference period of a floating leg's last coupon: one
/// tenor after its start, rolled with the given convention, when the last
/// period is a stub; its accrual end otherwise.
#[verifier::opaque]
pub open spec fn floating_reference_end(s: ScheduleModel, convention: BusinessDayConvention) -> Option<int> {
    let n = s.dates.len() as int;
    if s.is_stub(n - 1) {
        let tenor = s.tenor.unwrap();
        advance_spec(
            s.calendar,
            s.dates[n - 2]@,
            tenor.length_spec(),
            tenor.units_spec(),
            convention,
            false,
        )
    } else {
        Some(s.dates[n - 1]@)
    }
}

/// The dates of the `i`-th coupon of a floating leg over `s`, whose stub
/// reference dates are rolled with `convention`, or `None` where one falls
/// outside the supported range.
pub open spec fn floating_coupon_serials(
    s: ScheduleModel,
    convention: BusinessDayConvention,
    payment_calendar: CalendarModel,
    payment_lag: int,
    payment_adjustment: BusinessDayConvention,
    ex_coupon: Option<ExCouponModel>,
    i: int,
) -> Option<CouponSerials> {
    let n = s.dates.len() as int;
    let start = s.dates[i]@;
    let end = s.dates[i + 1]@;
    let ref_start = if i == 0 {
        floating_reference_start(s, convention)
    } else {
        Some(start)
    };
    let ref_end = if i == n - 2 {
        floating_reference_end(s, convention)
    } else {
        Some(end)
    };
    match (ref_start, ref_end, payment_date_spec(payment_calendar, end, payment_lag, payment_adjustment)) {
        (Some(a), Some(b), Some(p)) => match ex_coupon_spec(ex_coupon, p) {
            Some(e) => Some(
                CouponSerials { start, end, ref_start: a, ref_end: b, payment: p, ex_coupon: e },
            ),
            None => None,
        },
        _ => None,
    }
}

/// The dates of a floating leg's `i`-th coupon, when defined, are its own
/// period's, with the stub reference dates at the ends, paid and going
/// ex-coupon as the leg's terms say.
pub proof fn lemma_floating_coupon_serials(
    s: ScheduleModel,
    convention: BusinessDayConvention,
    payment_calendar: CalendarModel,
    payment_lag: int,
    payment_adjustment: BusinessDayConvention,
    ex_coupon: Option<ExCouponModel>,
    i: int,
)
    requires
        floating_coupon_serials(
            s,
            convention,
            payment_calendar,
            payment_lag,
            payment_adjustment,
            ex_coupon,
            i,
        ) is Some,
    ensures
        ({
            let n = s.dates.len() as int;
            let end = s.dates[i + 1]@;
            let p = payment_date_spec(payment_calendar, end, payment_lag, payment_adjustment);
            &&& p is Some
            &&& i == 0 ==> floating_reference_start(s, convention) is Some
            &&& i == n - 2 ==> floating_reference_end(s, convention) is Some
            &&& ex_coupon_spec(ex_coupon, p.unwrap()) is Some
            &&& floating_coupon_serials(
                s,
                convention,
                payment_calendar,
                payment_lag,
                payment_adjustment,
                ex_coupon,
                i,
            ).unwrap() == CouponSerials {
                start: s.dates[i]@,
                end,
                ref_start: if i == 0 {
                    floating_reference_start(s, convention).unwrap()
                } else {
                    s.dates[i]@
                },
                ref_end: if i == n - 2 {
                    floating_reference_end(s, convention).unwrap()
                } else {
                    end
                },
                payment: p.unwrap(),
                ex_coupon: ex_coupon_spec(ex_coupon, p.unwrap()).unwrap(),
            }
        }),
{
}

/// What an ibor leg is made of: its schedule, index, and the terms its
/// coupons are built with.
pub struct IborLegModel<R> {
    /// The schedule the coupons are laid on.
    pub schedule: ScheduleModel,
    /// The index the coupons pay.
    pub index: IborIndex,
    /// The notional of each coupon; the last one carries over.
    pub notionals: Seq<R>,
    /// The day counter the coupons accrue with, in place of the index's.
    pub payment_day_counter: Option<DayCounter>,
    /// The convention payment dates are rolled with.
    pub payment_adjustment: BusinessDayConvention,
    /// The business days from the accrual end to the payment.
    pub payment_lag: int,
    /// The calendar payment dates are counted on.
    pub payment_calendar: CalendarModel,
    /// The fixing days of each coupon, in place of the index's; the last one
    /// carries over.
    pub fixing_days: Seq<u32>,
    /// The gearing of each coupon; the last one carries over.
    pub gearings: Seq<R>,
    /// The spread of each coupon; the last one carries over.
    pub spreads: Seq<R>,
    /// The convention fixing dates are rolled with.
    pub fixing_convention: BusinessDayConvention,
    /// The ex-coupon period, when the coupons have one.
    pub ex_coupon: Option<ExCouponModel>,
}

impl<R> IborLegModel<R> {
    /// The dates of the `i`-th coupon, or `None` where one falls outside the
    /// supported range.
    pub open spec fn coupon_serials(self, i: int) -> Option<CouponSerials> {
        floating_coupon_serials(
            self.schedule,
            self.schedule.convention,
            self.payment_calendar,
            self.payment_lag,
            self.payment_adjustment,
            self.ex_coupon,
            i,
        )
    }

    /// Whether the dates of every coupon are defined.
    pub open spec fn dates_defined(self) -> bool {
        &&& self.schedule.wf()
        &&& forall|i: int|
            0 <= i < self.schedule.dates.len() - 1 ==> (#[trigger] self.coupon_serials(i)) is Some
    }

    /// The error a leg refuses to build with, if any, checked in this
    /// order: no notional, fewer than two dates, more notionals, gearings or
    /// spreads than periods.
    pub open spec fn build_error(self) -> Option<QlError> {
        let periods = self.schedule.dates.len() - 1;
        if self.notionals.len() == 0 {
            Some(QlError::NoNotional)
        } else if self.schedule.dates.len() < 2 {
            Some(QlError::ScheduleTooShort)
        } else if self.notionals.len() > periods {
            Some(QlError::TooManyNotionals)
        } else if self.gearings.len() > periods {
            Some(QlError::TooManyGearings)
        } else if self.spreads.len() > periods {
            Some(QlError::TooManySpreads)
        } else {
            None
        }
    }

    /// Whether `c` is the `i`-th coupon of the leg: its dates, the `i`-th
    /// notional, fixing days, gearing and spread, over the leg's index.
    pub open spec fn is_coupon(self, c: IborCoupon<R>, i: int) -> bool {
        &&& c.coupon.has_serials(self.coupon_serials(i).unwrap())
        &&& c.coupon.nominal == value_at(self.notionals, i)
        &&& c.index.same_terms(&self.index)
        &&& c.fixing_days == if self.fixing_days.len() == 0 {
            self.index.fixing_days_spec()
        } else {
            value_at(self.fixing_days, i)
        }
        &&& c.gearing == if self.gearings.len() == 0 {
            None
        } else {
            Some(value_at(self.gearings, i))
        }
        &&& c.spread == if self.spreads.len() == 0 {
            None
        } else {
            Some(value_at(self.spreads, i))
        }
        &&& c.day_counter == match self.payment_day_counter {
            Some(dc) => dc,
            None => self.index.day_counter_spec(),
        }
        &&& !c.is_in_arrears
        &&& c.fixing_convention == self.fixing_convention
    }

    /// The `i`-th coupon takes the `i`-th notional, fixing days, gearing and
    /// spread; only a coupon past the end of a list takes its last element.
    pub proof fn law_coupon_takes_its_own_terms(self, c: IborCoupon<R>, i: int)
        requires
            0 <= i,
            self.is_coupon(c, i),
        ensures
            i < self.notionals.len() ==> c.coupon.nominal == self.notionals[i],
            i >= self.notionals.len() ==> c.coupon.nominal == self.notionals[self.notionals.len() - 1],
            self.fixing_days.len() > 0 && i < self.fixing_days.len() ==> c.fixing_days == self.fixing_days[i],
            self.fixing_days.len() > 0 && i >= self.fixing_days.len() ==> c.fixing_days
                == self.fixing_days[self.fixing_days.len() - 1],
            self.gearings.len() > 0 && i < self.gearings.len() ==> c.gearing == Some(self.gearings[i]),
            self.gearings.len() > 0 && i >= self.gearings.len() ==> c.gearing == Some(
                self.gearings[self.gearings.len() - 1],
            ),
            self.spreads.len() > 0 && i < self.spreads.len() ==> c.spread == Some(self.spreads[i]),
            self.spreads.len() > 0 && i >= self.spreads.len() ==> c.spread == Some(
                self.spreads[self.spreads.len() - 1],
            ),
            self.fixing_days.len() == 0 ==> c.fixing_days == self.index.fixing_days_spec(),
            self.gearings.len() == 0 ==> c.gearing is None,
            self.spreads.len() == 0 ==> c.spread is None,
    {
    }

    /// With a payment lag of `n` business days, `n > 0`, every coupon is
    /// paid on a business day of the payment calendar after its accrual
    /// end, with exactly `n` business days after the accrual end up to and
    /// including the payment date.
    pub proof fn law_payment_lags_accrual_end(self, c: IborCoupon<R>, i: int)
        requires
            self.dates_defined(),
            0 <= i < self.schedule.dates.len() - 1,
            self.is_coupon(c, i),
            self.payment_lag > 0,
        ensures
            c.coupon.accrual_end_date@ < c.coupon.payment_date@,
            self.payment_calendar.is_business(c.coupon.payment_date@),
            business_days_after(self.payment_calendar, c.coupon.accrual_end_date@, c.coupon.payment_date@)
                == self.payment_lag,
    {
        assert(self.coupon_serials(i) is Some);
        lemma_floating_coupon_serials(
            self.schedule,
            self.schedule.convention,
            self.payment_calendar,
            self.payment_lag,
            self.payment_adjustment,
            self.ex_coupon,
            i,
        );
        law_payment_lag_counts_business_days(
            self.payment_calendar,
            self.schedule.dates[i + 1]@,
            self.payment_lag,
            self.payment_adjustment,
        );
    }
}

impl<R: PartialEq + From<u32>> IborLegModel<R> {
    /// Whether every coupon's gearing, when gearings were given, was found
    /// other than zero.
    pub open spec fn gearings_nonnull(self) -> bool {
        self.gearings.len() == 0 || forall|i: int|
            0 <= i < self.schedule.dates.len() - 1 ==> may_be_nonzero(
                #[trigger] value_at(self.gearings, i),
            )
    }

    /// Whether some coupon's gearing can be zero.
    pub open spec fn some_gearing_null(self) -> bool {
        self.gearings.len() > 0 && exists|i: int|
            0 <= i < self.schedule.dates.len() - 1 && may_be_zero(
                #[trigger] value_at(self.gearings, i),
            )
    }
}

/// Builds coupons paying an ibor index over a schedule, from notionals,
/// fixing days, gearings and spreads given per coupon, the last one
/// carrying over to the coupons after it.
pub struct IborLeg<R> {
    schedule: Schedule,
    index: IborIndex,
    notionals: Vec<R>,
    payment_day_counter: Option<DayCounter>,
    payment_adjustment: BusinessDayConvention,
    payment_lag: i32,
    payment_calendar: Calendar,
    fixing_days: Vec<u32>,
    gearings: Vec<R>,
    spreads: Vec<R>,
    fixing_convention: BusinessDayConvention,
    ex_coupon: Option<ExCouponTerms>,
}

impl<R> View for IborLeg<R> {
    type V = IborLegModel<R>;

    closed spec fn view(&self) -> IborLegModel<R> {
        IborLegModel {
            schedule: self.schedule@,
            index: self.index,
            notionals: self.notionals@,
            payment_day_counter: self.payment_day_counter,
            payment_adjustment: self.payment_adjustment,
            payment_lag: self.payment_lag as int,
            payment_calendar: self.payment_calendar@,
            fixing_days: self.fixing_days@,
            gearings: self.gearings@,
            spreads: self.spreads@,
            fixing_convention: self.fixing_convention,
            ex_coupon: ex_coupon_model(self.ex_coupon),
        }
    }
}

impl<R: Copy> IborLeg<R> {
    /// A leg over `schedule` paying `index`, with no notional yet, paying on
    /// the schedule's calendar with the `Following` convention and no lag,
    /// fixing with the `Preceding` convention, and no ex-coupon period.
    pub fn new(schedule: Schedule, index: IborIndex) -> (r: IborLeg<R>)
        ensures
            r@.schedule == schedule@,
            r@.index == index,
            r@.notionals.len() == 0,
            r@.payment_day_counter is None,
            r@.payment_adjustment == BusinessDayConvention::Following,
            r@.payment_lag == 0,
            r@.payment_calendar == schedule@.calendar,
            r@.fixing_days.len() == 0,
            r@.gearings.len() == 0,
            r@.spreads.len() == 0,
            r@.fixing_convention == BusinessDayConvention::Preceding,
            r@.ex_coupon is None,
    {
        let payment_calendar = schedule.calendar().copied();
        IborLeg {
            schedule,
            index,
            notionals: Vec::new(),
            payment_day_counter: None,
            payment_adjustment: BusinessDayConvention::Following,
            payment_lag: 0,
            payment_calendar,
            fixing_days: Vec::new(),
            gearings: Vec::new(),
            spreads: Vec::new(),
            fixing_convention: BusinessDayConvention::Preceding,
            ex_coupon: None,
        }
    }

    /// One notional for every coupon.
    pub fn with_notional(self, notional: R) -> (r: IborLeg<R>)
        ensures
            r@ == (IborLegModel { notionals: seq![notional], ..self@ }),
    {
        let notionals = vec![notional];
        assert(notionals@ =~= seq![notional]);
        self.with_notionals(notionals)
    }

    /// A notional per coupon; the last one carries over.
    pub fn with_notionals(self, notionals: Vec<R>) -> (r: IborLeg<R>)
        ensures
            r@ == (IborLegModel { notionals: notionals@, ..self@ }),
    {
        IborLeg { notionals, ..self }
    }

    /// The day counter the coupons accrue with, in place of the index's.
    pub fn with_payment_day_counter(self, day_counter: DayCounter) -> (r: IborLeg<R>)
        ensures
            r@ == (IborLegModel { payment_day_counter: Some(day_counter), ..self@ }),
    {
        IborLeg { payment_day_counter: Some(day_counter), ..self }
    }

    /// The convention payment dates are rolled with.
    pub fn with_payment_adjustment(self, convention: BusinessDayConvention) -> (r: IborLeg<R>)
        ensures
            r@ == (IborLegModel { payment_adjustment: convention, ..self@ }),
    {
        IborLeg { payment_adjustment: convention, ..self }
    }

    /// The business days from a coupon's accrual end to its payment.
    pub fn with_payment_lag(self, lag: i32) -> (r: IborLeg<R>)
        ensures
            r@ == (IborLegModel { payment_lag: lag as int, ..self@ }),
    {
        IborLeg { payment_lag: lag, ..self }
    }

    /// The calendar payment dates are counted on, in place of the
    /// schedule's.
    pub fn with_payment_calendar(self, calendar: Calendar) -> (r: IborLeg<R>)
        ensures
            r@ == (IborLegModel { payment_calendar: calendar@, ..self@ }),
    {
        IborLeg { payment_calendar: calendar, ..self }
    }

    /// One fixing-days count for every coupon, in place of the index's.
    pub fn with_fixing_days(self, fixing_days: u32) -> (r: IborLeg<R>)
        ensures
            r@ == (IborLegModel { fixing_days: seq![fixing_days], ..self@ }),
    {
        let days = vec![fixing_days];
        assert(days@ =~= seq![fixing_days]);
        self.with_fixing_days_per_coupon(days)
    }

    /// A fixing-days count per coupon; the last one carries over.
    pub fn with_fixing_days_per_coupon(self, fixing_days: Vec<u32>) -> (r: IborLeg<R>)
        ensures
            r@ == (IborLegModel { fixing_days: fixing_days@, ..self@ }),
    {
        IborLeg { fixing_days, ..self }
    }

    /// One gearing for every coupon.
    pub fn with_gearing(self, gearing: R) -> (r: IborLeg<R>)
        ensures
            r@ == (IborLegModel { gearings: seq![gearing], ..self@ }),
    {
        let gearings = vec![gearing];
        assert(gearings@ =~= seq![gearing]);
        self.with_gearings(gearings)
    }

    /// A gearing per coupon; the last one carries over.
    pub fn with_gearings(self, gearings: Vec<R>) -> (r: IborLeg<R>)
        ensures
            r@ == (IborLegModel { gearings: gearings@, ..self@ }),
    {
        IborLeg { gearings, ..self }
    }

    /// One spread for every coupon.
    pub fn with_spread(self, spread: R) -> (r: IborLeg<R>)
        ensures
            r@ == (IborLegModel { spreads: seq![spread], ..self@ }),
    {
        let spreads = vec![spread];
        assert(spreads@ =~= seq![spread]);
        self.with_spreads(spreads)
    }

    /// A spread per coupon; the last one carries over.
    pub fn with_spreads(self, spreads: Vec<R>) -> (r: IborLeg<R>)
        ensures
            r@ == (IborLegModel { spreads: spreads@, ..self@ }),
    {
        IborLeg { spreads, ..self }
    }

    /// The convention fixing dates are rolled with.
    pub fn with_fixing_convention(self, convention: BusinessDayConvention) -> (r: IborLeg<R>)
        ensures
            r@ == (IborLegModel { fixing_convention: convention, ..self@ }),
    {
        IborLeg { fixing_convention: convention, ..self }
    }

    /// The ex-coupon period, measured back from each payment date on
    /// `calendar` and rolled with `convention`.
    pub fn with_ex_coupon_period(
        self,
        period: Period,
        calendar: Calendar,
        convention: BusinessDayConvention,
        end_of_month: bool,
    ) -> (r: IborLeg<R>)
        ensures
            r@ == (IborLegModel {
                ex_coupon: Some(
                    ExCouponModel { period, calendar: calendar@, convention, end_of_month },
                ),
                ..self@
            }),
    {
        IborLeg {
            ex_coupon: Some(ExCouponTerms { period, calendar, convention, end_of_month }),
            ..self
        }
    }

    /// The `i`-th coupon, refused when its gearing is zero.
    fn coupon(&self, i: usize) -> (r: Result<IborCoupon<R>, QlError>) where R: PartialEq + From<u32>
        requires
            self@.dates_defined(),
            self@.build_error() is None,
            i < self@.schedule.dates.len() - 1,
        ensures
            self@.gearings.len() == 0 ==> r is Ok,
            self@.gearings.len() > 0 ==> (r is Err ==> may_be_zero(value_at(self@.gearings, i as int)))
                && (r is Ok ==> may_be_nonzero(value_at(self@.gearings, i as int))),
            r is Err ==> r == Err::<IborCoupon<R>, QlError>(QlError::NullGearing),
            r matches Ok(c) ==> self@.is_coupon(c, i as int),
    {
        let size = self.schedule.len();
        let periods = size - 1;
        assert(self@.coupon_serials(i as int) is Some);
        proof {
            lemma_floating_coupon_serials(
                self@.schedule,
                self@.schedule.convention,
                self@.payment_calendar,
                self@.payment_lag,
                self@.payment_adjustment,
                self@.ex_coupon,
                i as int,
            );
            reveal(floating_reference_start);
            reveal(floating_reference_end);
        }
        let calendar = self.schedule.calendar();
        let convention = self.schedule.business_day_convention();
        let start = self.schedule.date(i);
        let end = self.schedule.date(i + 1);
        let mut reference_start = start;
        let mut reference_end = end;
        if i == 0 && self.schedule.has_tenor() && self.schedule.has_is_regular()
            && !self.schedule.is_regular_at(1) {
            reference_start = calendar.advance_by_period(
                end,
                self.schedule.tenor().negated(),
                convention,
                false,
            );
        }
        if i == periods - 1 && self.schedule.has_tenor() && self.schedule.has_is_regular()
            && !self.schedule.is_regular_at(i + 1) {
            reference_end = calendar.advance_by_period(start, self.schedule.tenor(), convention, false);
        }
        let payment = payment_date(&self.payment_calendar, end, self.payment_lag, self.payment_adjustment);
        let ex = ex_coupon_date(&self.ex_coupon, payment);
        let fixing_days = if self.fixing_days.len() == 0 {
            None
        } else {
            Some(broadcast(&self.fixing_days, i, self.index.fixing_days()))
        };
        let gearing = if self.gearings.len() == 0 {
            None
        } else {
            Some(at(&self.gearings, i))
        };
        let spread = if self.spreads.len() == 0 {
            None
        } else {
            Some(at(&self.spreads, i))
        };
        IborCoupon::new(
            payment,
            at(&self.notionals, i),
            start,
            end,
            fixing_days,
            self.index.copied(),
            gearing,
            spread,
            Some(reference_start),
            Some(reference_end),
            self.payment_day_counter,
            false,
            ex,
            self.fixing_convention,
        )
    }

    /// The coupons of the leg, one per period of the schedule.
    pub fn coupons(&self) -> (r: Result<Vec<IborCoupon<R>>, QlError>) where R: PartialEq + From<u32>
        requires
            self@.dates_defined(),
        ensures
            self@.build_error() is Some ==> r == Err::<Vec<IborCoupon<R>>, QlError>(
                self@.build_error().unwrap(),
            ),
            self@.build_error() is None && self@.gearings.len() == 0 ==> r is Ok,
            self@.build_error() is None && r is Err ==> r == Err::<Vec<IborCoupon<R>>, QlError>(
                QlError::NullGearing,
            ) && self@.some_gearing_null(),
            r matches Ok(cs) ==> ({
                &&& self@.build_error() is None
                &&& self@.gearings_nonnull()
                &&& cs.len() == self@.schedule.dates.len() - 1
                &&& forall|i: int| 0 <= i < cs.len() ==> self@.is_coupon(#[trigger] cs@[i], i)
            }),
    {
        if self.notionals.len() == 0 {
            return Err(QlError::NoNotional);
        }
        let size = self.schedule.len();
        if size < 2 {
            return Err(QlError::ScheduleTooShort);
        }
        let periods = size - 1;
        if self.notionals.len() > periods {
            return Err(QlError::TooManyNotionals);
        }
        if self.gearings.len() > periods {
            return Err(QlError::TooManyGearings);
        }
        if self.spreads.len() > periods {
            return Err(QlError::TooManySpreads);
        }
        let mut coupons: Vec<IborCoupon<R>> = Vec::new();
        let mut i: usize = 0;
        while i < periods
            invariant
                self@.dates_defined(),
                self@.build_error() is None,
                periods == self@.schedule.dates.len() - 1,
                i <= periods,
                coupons.len() == i,
                forall|k: int| 0 <= k < i ==> self@.is_coupon(#[trigger] coupons@[k], k),
                self@.gearings.len() > 0 ==> forall|k: int|
                    0 <= k < i ==> may_be_nonzero(#[trigger] value_at(self@.gearings, k)),
            decreases periods - i,
        {
            match self.coupon(i) {
                Ok(c) => {
                    coupons.push(c);
                },
                Err(e) => {
                    proof {
                        assert(may_be_zero(value_at(self@.gearings, i as int)));
                    }
                    return Err(e);
                },
            }
            i = i + 1;
        }
        Ok(coupons)
    }

    /// The coupons as a leg of flows: their payment dates and accrual
    /// periods.
    pub fn build(&self) -> (r: Result<Leg, QlError>) where R: PartialEq + From<u32>
        requires
            self@.dates_defined(),
        ensures
            self@.build_error() is Some ==> r == Err::<Leg, QlError>(self@.build_error().unwrap()),
            self@.build_error() is None && self@.gearings.len() == 0 ==> r is Ok,
            self@.build_error() is None && r is Err ==> r == Err::<Leg, QlError>(QlError::NullGearing)
                && self@.some_gearing_null(),
            r matches Ok(flows) ==> ({
                &&& self@.build_error() is None
                &&& self@.gearings_nonnull()
                &&& flows.len() == self@.schedule.dates.len() - 1
                &&& forall|i: int|
                    0 <= i < flows.len() ==> {
                        let s = self@.coupon_serials(i).unwrap();
                        &&& (#[trigger] flows@[i]).date@ == s.payment
                        &&& flows@[i].accrual matches Some(a) && a.start@ == s.start && a.end@
                            == s.end
                    }
            }),
    {
        match self.coupons() {
            Err(e) => Err(e),
            Ok(coupons) => {
                let mut flows: Leg = Vec::new();
                let mut i: usize = 0;
                while i < coupons.len()
                    invariant
                        i <= coupons.len(),
                        flows.len() == i,
                        coupons.len() == self@.schedule.dates.len() - 1,
                        forall|k: int|
                            0 <= k < coupons.len() ==> self@.is_coupon(#[trigger] coupons@[k], k),
                        forall|k: int|
                            0 <= k < i ==> {
                                let s = self@.coupon_serials(k).unwrap();
                                &&& (#[trigger] flows@[k]).date@ == s.payment
                                &&& flows@[k].accrual matches Some(a) && a.start@ == s.start
                                    && a.end@ == s.end
                            },
                    decreases coupons.len() - i,
                {
                    assert(self@.is_coupon(coupons@[i as int], i as int));
                    flows.push(coupons[i].coupon.flow_dates());
                    i = i + 1;
                }
                Ok(flows)
            },
        }
    }
}

} // verus!
