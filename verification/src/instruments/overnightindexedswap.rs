//! Overnight indexed swaps: a fixed leg against an overnight leg.
use vstd::prelude::*;

use crate::cashflows::fixedrateleg::fixed_dates_defined;
use crate::cashflows::iborleg::floating_coupon_serials;
use crate::cashflows::overnightindexedcoupon::{OvernightIndexedCoupon, RateAveraging};
use crate::cashflows::overnightleg::{OvernightLeg, first_overnight_coupon_error};
use crate::errors::QlError;
use crate::indexes::iborindex::OvernightIndex;
use crate::instruments::fixedvsfloatingswap::{
    FixedVsFloatingSwap, FixedVsFloatingSwapArguments, resolved_calendar,
};
use crate::instruments::swap::{SwapType, available};
use crate::time::calendar::{BusinessDayConvention, Calendar, CalendarModel};
use crate::time::date::Date;
use crate::time::daycounter::DayCounter;
use crate::time::period::Frequency;
use crate::time::schedule::{Schedule, ScheduleModel};

verus! {

/// The error an overnight leg of the given counts over `s` is refused with,
/// if any: no notional, fewer than two dates, more notionals or spreads than
/// periods, else its first refused coupon's.
pub open spec fn overnight_swap_leg_error(
    s: ScheduleModel,
    notionals: int,
    payment_calendar: CalendarModel,
    payment_lag: int,
    payment_adjustment: BusinessDayConvention,
    averaging_method: RateAveraging,
) -> Option<QlError> {
    let periods = s.dates.len() - 1;
    if notionals == 0 {
        Some(QlError::NoNotional)
    } else if s.dates.len() < 2 {
        Some(QlError::ScheduleTooShort)
    } else if notionals > periods {
        Some(QlError::TooManyNotionals)
    } else if 1 > periods {
        Some(QlError::TooManySpreads)
    } else {
        first_overnight_coupon_error(
            s,
            payment_calendar,
            payment_lag,
            payment_adjustment,
            averaging_method,
        )
    }
}

/// A swap exchanging a fixed rate for an overnight index compounded over
/// each period, plus a spread.
pub struct OvernightIndexedSwap<R> {
    base: FixedVsFloatingSwap<R>,
    overnight_index: OvernightIndex,
    overnight_coupons: Vec<OvernightIndexedCoupon<R>>,
    payment_lag: i32,
    payment_calendar: Calendar,
    averaging_method: RateAveraging,
}

impl<R> OvernightIndexedSwap<R> {
    /// The swap as a fixed-versus-floating swap.
    pub closed spec fn base_spec(&self) -> FixedVsFloatingSwap<R> {
        self.base
    }

    /// The overnight index.
    pub closed spec fn overnight_index_spec(&self) -> OvernightIndex {
        self.overnight_index
    }

    /// The overnight leg's coupons.
    pub closed spec fn overnight_coupons_spec(&self) -> Seq<OvernightIndexedCoupon<R>> {
        self.overnight_coupons@
    }

    /// The business days between an overnight accrual end and its payment.
    pub closed spec fn payment_lag_spec(&self) -> i32 {
        self.payment_lag
    }

    /// The calendar both legs pay on.
    pub closed spec fn payment_calendar_spec(&self) -> CalendarModel {
        self.payment_calendar@
    }

    /// How the overnight coupons average their fixings.
    pub closed spec fn averaging_method_spec(&self) -> RateAveraging {
        self.averaging_method
    }

    /// Whether the swap is the one built from the given terms: its legs'
    /// nominals, schedules, rate, spread and conventions.
    pub open spec fn has_terms(
        &self,
        swap_type: SwapType,
        fixed_nominals: Seq<R>,
        fixed_schedule: ScheduleModel,
        fixed_rate: R,
        fixed_day_count: DayCounter,
        overnight_nominals: Seq<R>,
        overnight_schedule: ScheduleModel,
        overnight_index: OvernightIndex,
        spread: R,
        payment_lag: i32,
        payment_adjustment: BusinessDayConvention,
        payment_calendar: CalendarModel,
        averaging_method: RateAveraging,
    ) -> bool {
        let base = self.base_spec();
        let n = overnight_schedule.dates.len() - 1;
        &&& base.swap_type_spec() == swap_type
        &&& base.fixed_nominals_spec() == fixed_nominals
        &&& base.fixed_schedule_spec() == fixed_schedule
        &&& base.fixed_rate_spec() == fixed_rate
        &&& base.fixed_day_count_spec() == fixed_day_count
        &&& base.floating_nominals_spec() == overnight_nominals
        &&& base.floating_schedule_spec() == overnight_schedule
        &&& base.spread_spec() == spread
        &&& base.floating_day_count_spec() == overnight_index.ibor_spec().day_counter_spec()
        &&& base.payment_convention_spec() == overnight_schedule.convention
        &&& base.ibor_index_spec().same_terms(&overnight_index.ibor_spec())
        &&& self.overnight_index_spec().ibor_spec().same_terms(&overnight_index.ibor_spec())
        &&& self.payment_lag_spec() == payment_lag
        &&& self.payment_calendar_spec() == payment_calendar
        &&& self.averaging_method_spec() == averaging_method
        &&& self.overnight_coupons_spec().len() == n
        &&& base.swap_spec().legs_spec()[1]@.len() == n
        &&& forall|i: int|
            0 <= i < n ==> {
                let c = #[trigger] self.overnight_coupons_spec()[i];
                let serials = floating_coupon_serials(
                    overnight_schedule,
                    payment_adjustment,
                    payment_calendar,
                    payment_lag as int,
                    payment_adjustment,
                    None,
                    i,
                ).unwrap();
                let f = base.swap_spec().legs_spec()[1]@[i];
                &&& c.coupon.has_serials(serials)
                &&& c.coupon.nominal == crate::cashflows::coupon::value_at(overnight_nominals, i)
                &&& c.spread == Some(spread)
                &&& c.gearing is None
                &&& c.averaging_method == averaging_method
                &&& f.date@ == serials.payment
                &&& f.accrual matches Some(a) && a.start@ == serials.start && a.end@ == serials.end
            }
    }
}

impl<R: Copy + PartialEq + From<u32>> OvernightIndexedSwap<R> {
    /// A swap paying (for a payer swap) or receiving `fixed_rate` on
    /// `nominal` over `fixed_schedule` against `overnight_index` plus
    /// `spread` on the same nominal over `overnight_schedule`.
    pub fn with_nominal(
        swap_type: SwapType,
        nominal: R,
        fixed_schedule: Schedule,
        fixed_rate: R,
        fixed_day_count: DayCounter,
        overnight_schedule: Schedule,
        overnight_index: OvernightIndex,
        spread: R,
        payment_lag: i32,
        payment_adjustment: BusinessDayConvention,
        payment_calendar: Option<Calendar>,
        averaging_method: RateAveraging,
    ) -> (r: Result<OvernightIndexedSwap<R>, QlError>)
        requires
            overnight_schedule@.wf(),
            forall|i: int|
                0 <= i < overnight_schedule@.dates.len() - 1 ==> (#[trigger] floating_coupon_serials(
                    overnight_schedule@,
                    payment_adjustment,
                    resolved_calendar(payment_calendar, overnight_schedule@),
                    payment_lag as int,
                    payment_adjustment,
                    None,
                    i,
                )) is Some,
            fixed_dates_defined(
                fixed_schedule@,
                resolved_calendar(payment_calendar, overnight_schedule@),
                payment_lag as int,
                overnight_schedule@.convention,
                None,
            ),
        ensures
            ({
                let cal = resolved_calendar(payment_calendar, overnight_schedule@);
                let leg_error = overnight_swap_leg_error(
                    overnight_schedule@,
                    1,
                    cal,
                    payment_lag as int,
                    payment_adjustment,
                    averaging_method,
                );
                &&& r is Ok <==> (leg_error is None && fixed_schedule@.dates.len() >= 2)
                &&& r is Err ==> r == Err::<OvernightIndexedSwap<R>, QlError>(
                    if leg_error is Some {
                        leg_error.unwrap()
                    } else {
                        QlError::ScheduleTooShort
                    },
                )
                &&& r matches Ok(s) ==> s.has_terms(
                    swap_type,
                    seq![nominal],
                    fixed_schedule@,
                    fixed_rate,
                    fixed_day_count,
                    seq![nominal],
                    overnight_schedule@,
                    overnight_index,
                    spread,
                    payment_lag,
                    payment_adjustment,
                    cal,
                    averaging_method,
                )
            }),
    {
        let fixed_nominals = vec![nominal];
        let overnight_nominals = vec![nominal];
        assert(fixed_nominals@ =~= seq![nominal]);
        assert(overnight_nominals@ =~= seq![nominal]);
        OvernightIndexedSwap::new(
            swap_type,
            fixed_nominals,
            fixed_schedule,
            fixed_rate,
            fixed_day_count,
            overnight_nominals,
            overnight_schedule,
            overnight_index,
            spread,
            payment_lag,
            payment_adjustment,
            payment_calendar,
            averaging_method,
        )
    }

    /// A swap paying (for a payer swap) or receiving `fixed_rate` on
    /// `fixed_nominals` over `fixed_schedule` against `overnight_index` plus
    /// `spread` on `overnight_nominals` over `overnight_schedule`, both legs
    /// paying on `payment_calendar` or the overnight schedule's.
    ///
    /// Refused as the overnight leg is, then as the fixed leg is.
    pub fn new(
        swap_type: SwapType,
        fixed_nominals: Vec<R>,
        fixed_schedule: Schedule,
        fixed_rate: R,
        fixed_day_count: DayCounter,
        overnight_nominals: Vec<R>,
        overnight_schedule: Schedule,
        overnight_index: OvernightIndex,
        spread: R,
        payment_lag: i32,
        payment_adjustment: BusinessDayConvention,
        payment_calendar: Option<Calendar>,
        averaging_method: RateAveraging,
    ) -> (r: Result<OvernightIndexedSwap<R>, QlError>)
        requires
            overnight_schedule@.wf(),
            forall|i: int|
                0 <= i < overnight_schedule@.dates.len() - 1 ==> (#[trigger] floating_coupon_serials(
                    overnight_schedule@,
                    payment_adjustment,
                    resolved_calendar(payment_calendar, overnight_schedule@),
                    payment_lag as int,
                    payment_adjustment,
                    None,
                    i,
                )) is Some,
            fixed_dates_defined(
                fixed_schedule@,
                resolved_calendar(payment_calendar, overnight_schedule@),
                payment_lag as int,
                overnight_schedule@.convention,
                None,
            ),
        ensures
            ({
                let cal = resolved_calendar(payment_calendar, overnight_schedule@);
                let leg_error = overnight_swap_leg_error(
                    overnight_schedule@,
                    overnight_nominals@.len() as int,
                    cal,
                    payment_lag as int,
                    payment_adjustment,
                    averaging_method,
                );
                &&& r is Ok <==> (leg_error is None && fixed_nominals@.len() > 0
                    && fixed_schedule@.dates.len() >= 2)
                &&& r is Err ==> r == Err::<OvernightIndexedSwap<R>, QlError>(
                    if leg_error is Some {
                        leg_error.unwrap()
                    } else if fixed_nominals@.len() == 0 {
                        QlError::NoNotional
                    } else {
                        QlError::ScheduleTooShort
                    },
                )
                &&& r matches Ok(s) ==> s.has_terms(
                    swap_type,
                    fixed_nominals@,
                    fixed_schedule@,
                    fixed_rate,
                    fixed_day_count,
                    overnight_nominals@,
                    overnight_schedule@,
                    overnight_index,
                    spread,
                    payment_lag,
                    payment_adjustment,
                    cal,
                    averaging_method,
                )
            }),
    {
        let calendar = match payment_calendar {
            Some(c) => c,
            None => overnight_schedule.calendar().copied(),
        };
        let builder: OvernightLeg<R> = OvernightLeg::new(overnight_schedule.copied(), overnight_index.copied());
        let builder = builder.with_notionals(copy_values(&overnight_nominals));
        let builder = builder.with_spread(spread);
        let builder = builder.with_payment_lag(payment_lag);
        let builder = builder.with_payment_adjustment(payment_adjustment);
        let builder = builder.with_payment_calendar(calendar.copied());
        let builder = builder.with_averaging_method(averaging_method);
        let ghost lm = builder@;
        let coupons = match builder.coupons() {
            Ok(cs) => cs,
            Err(e) => {
                return Err(e);
            },
        };
        let floating_leg = match builder.build() {
            Ok(flows) => flows,
            Err(e) => {
                return Err(e);
            },
        };
        let index = overnight_index.ibor_index().copied();
        let floating_day_count = overnight_index.ibor_index().day_counter();
        let base = match FixedVsFloatingSwap::new(
            swap_type,
            fixed_nominals,
            fixed_schedule,
            fixed_rate,
            Some(fixed_day_count),
            overnight_nominals,
            overnight_schedule,
            index,
            spread,
            floating_day_count,
            None,
            payment_lag,
            Some(calendar.copied()),
            floating_leg,
        ) {
            Ok(b) => b,
            Err(e) => {
                return Err(e);
            },
        };
        assert forall|i: int| 0 <= i < coupons@.len() implies lm.is_coupon(#[trigger] coupons@[i], i) by {}
        Ok(
            OvernightIndexedSwap {
                base,
                overnight_index: overnight_index.copied(),
                overnight_coupons: coupons,
                payment_lag,
                payment_calendar: calendar,
                averaging_method,
            },
        )
    }
}

impl<R: Copy> OvernightIndexedSwap<R> {
    /// The swap as a fixed-versus-floating swap.
    pub fn fixed_vs_floating(&self) -> (r: &FixedVsFloatingSwap<R>)
        ensures
            *r == self.base_spec(),
    {
        &self.base
    }

    /// The swap as a fixed-versus-floating swap, to record the results a
    /// pricing engine delivered.
    pub fn fixed_vs_floating_mut(&mut self) -> (r: &mut FixedVsFloatingSwap<R>)
        ensures
            *r == old(self).base_spec(),
            final(self).base_spec() == *final(r),
            final(self).overnight_coupons_spec() == old(self).overnight_coupons_spec(),
    {
        &mut self.base
    }

    /// The overnight index.
    pub fn overnight_index(&self) -> (r: &OvernightIndex)
        ensures
            *r == self.overnight_index_spec(),
    {
        &self.overnight_index
    }

    /// The overnight leg's nominals.
    pub fn overnight_nominals(&self) -> (r: &Vec<R>)
        ensures
            r@ == self.base_spec().floating_nominals_spec(),
    {
        self.base.floating_nominals()
    }

    /// The overnight leg's schedule.
    pub fn overnight_schedule(&self) -> (r: &Schedule)
        ensures
            r@ == self.base_spec().floating_schedule_spec(),
    {
        self.base.floating_schedule()
    }

    /// The overnight leg.
    pub fn overnight_leg(&self) -> (r: &crate::cashflows::cashflow::Leg)
        ensures
            *r == self.base_spec().swap_spec().legs_spec()[1],
    {
        self.base.floating_leg()
    }

    /// The overnight leg's coupons.
    pub fn overnight_coupons(&self) -> (r: &Vec<OvernightIndexedCoupon<R>>)
        ensures
            r@ == self.overnight_coupons_spec(),
    {
        &self.overnight_coupons
    }

    /// The spread over the overnight index.
    pub fn spread(&self) -> (r: R)
        ensures
            r == self.base_spec().spread_spec(),
    {
        self.base.spread()
    }

    /// The more frequent of the two legs' payment frequencies.
    pub fn payment_frequency(&self) -> (r: Frequency)
        requires
            self.base_spec().fixed_schedule_spec().tenor is Some,
            self.base_spec().floating_schedule_spec().tenor is Some,
        ensures
            ({
                let fixed = self.base_spec().fixed_schedule_spec().tenor.unwrap().frequency_spec();
                let floating = self.base_spec().floating_schedule_spec().tenor.unwrap().frequency_spec();
                r == if floating.per_year() > fixed.per_year() {
                    floating
                } else {
                    fixed
                }
            }),
    {
        let fixed = self.base.fixed_schedule().tenor().frequency();
        let floating = self.base.floating_schedule().tenor().frequency();
        if floating.value() > fixed.value() {
            floating
        } else {
            fixed
        }
    }

    /// The business days between an overnight accrual end and its payment.
    pub fn payment_lag(&self) -> (r: i32)
        ensures
            r == self.payment_lag_spec(),
    {
        self.payment_lag
    }

    /// The calendar both legs pay on.
    pub fn payment_calendar(&self) -> (r: &Calendar)
        ensures
            r@ == self.payment_calendar_spec(),
    {
        &self.payment_calendar
    }

    /// How the overnight coupons average their fixings.
    pub fn averaging_method(&self) -> (r: RateAveraging)
        ensures
            r == self.averaging_method_spec(),
    {
        self.averaging_method
    }

    /// The overnight leg's basis-point sensitivity, as last delivered.
    pub fn overnight_leg_bps(&self) -> (r: Result<R, QlError>)
        ensures
            r == available(self.base_spec().swap_spec().leg_bps_spec()[1]),
    {
        self.base.floating_leg_bps()
    }

    /// The overnight leg's value, as last delivered.
    pub fn overnight_leg_npv(&self) -> (r: Result<R, QlError>)
        ensures
            r == available(self.base_spec().swap_spec().leg_npv_spec()[1]),
    {
        self.base.floating_leg_npv()
    }
}

impl<R: Copy + From<i32>> OvernightIndexedSwap<R> {
    /// Fills `arguments` for a pricing engine: what the swap decides as a
    /// fixed-versus-floating swap, then the accrual start, payment date and
    /// nominal of each overnight coupon, with the swap's spread for each.
    /// The fixing dates, accrual times and coupon amounts, which come from
    /// each coupon's daily compounding schedule, are cleared for the
    /// engine's side to fill.
    pub fn setup_arguments(&self, arguments: &mut FixedVsFloatingSwapArguments<R>)
        ensures
            self.base_spec().has_fixed_arguments(*final(arguments)),
            final(arguments).floating_reset_dates@.len() == self.overnight_coupons_spec().len(),
            final(arguments).floating_pay_dates@.len() == self.overnight_coupons_spec().len(),
            final(arguments).floating_nominals@.len() == self.overnight_coupons_spec().len(),
            final(arguments).floating_spreads@.len() == self.overnight_coupons_spec().len(),
            forall|i: int|
                0 <= i < self.overnight_coupons_spec().len() ==> {
                    let c = #[trigger] self.overnight_coupons_spec()[i];
                    &&& final(arguments).floating_reset_dates@[i] == c.coupon.accrual_start_date
                    &&& final(arguments).floating_pay_dates@[i] == c.coupon.payment_date
                    &&& final(arguments).floating_nominals@[i] == c.coupon.nominal
                    &&& final(arguments).floating_spreads@[i] == self.base_spec().spread_spec()
                },
            final(arguments).floating_fixing_dates@.len() == 0,
            final(arguments).floating_accrual_times@.len() == 0,
            final(arguments).floating_coupons@.len() == 0,
    {
        self.base.setup_arguments(arguments);
        let n = self.overnight_coupons.len();
        let spread = self.base.spread();
        let mut reset: Vec<Date> = Vec::new();
        let mut pay: Vec<Date> = Vec::new();
        let mut nominals: Vec<R> = Vec::new();
        let mut spreads: Vec<R> = Vec::new();
        let mut i: usize = 0;
        while i < n
            invariant
                n == self.overnight_coupons@.len(),
                spread == self.base_spec().spread_spec(),
                i <= n,
                reset@.len() == i,
                pay@.len() == i,
                nominals@.len() == i,
                spreads@.len() == i,
                forall|k: int|
                    0 <= k < i ==> {
                        let c = #[trigger] self.overnight_coupons@[k];
                        &&& reset@[k] == c.coupon.accrual_start_date
                        &&& pay@[k] == c.coupon.payment_date
                        &&& nominals@[k] == c.coupon.nominal
                        &&& spreads@[k] == spread
                    },
            decreases n - i,
        {
            let c = &self.overnight_coupons[i];
            reset.push(c.coupon.accrual_start_date);
            pay.push(c.coupon.payment_date);
            nominals.push(c.coupon.nominal);
            spreads.push(spread);
            i = i + 1;
        }
        arguments.floating_reset_dates = reset;
        arguments.floating_pay_dates = pay;
        arguments.floating_nominals = nominals;
        arguments.floating_spreads = spreads;
        arguments.floating_fixing_dates = Vec::new();
        arguments.floating_accrual_times = Vec::new();
        arguments.floating_coupons = Vec::new();
    }
}

/// A copy of a list of values.
fn copy_values<R: Copy>(values: &Vec<R>) -> (r: Vec<R>)
    ensures
        r@ == values@,
{
    let mut r: Vec<R> = Vec::new();
    let mut i: usize = 0;
    while i < values.len()
        invariant
            i <= values.len(),
            r@ == values@.subrange(0, i as int),
        decreases values.len() - i,
    {
        r.push(values[i]);
        i = i + 1;
        assert(r@ =~= values@.subrange(0, i as int));
    }
    assert(values@.subrange(0, values.len() as int) =~= values@);
    r
}

} // verus!
