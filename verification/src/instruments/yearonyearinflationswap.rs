//! Year-on-year inflation swaps: a fixed leg against a leg of year-on-year
//! inflation coupons.
use vstd::prelude::*;

use crate::cashflows::cashflow::{AccrualPeriod, CashFlowDates, Leg};
use crate::cashflows::fixedrateleg::{FixedRateLeg, fixed_dates_defined};
use crate::cashflows::iborleg::floating_coupon_serials;
use crate::cashflows::yoyinflationcoupon::YoYInflationCoupon;
use crate::cashflows::yoyinflationleg::{YoYInflationLeg, YoYInflationLegModel};
use crate::errors::QlError;
use crate::indexes::inflationindex::CpiInterpolationType;
use crate::instruments::fixedvsfloatingswap::{derivation_inputs, fair_value_kept, keep_fair_value};
use crate::instruments::swap::{Swap, SwapResults, SwapType, available, results_error};
use crate::interestrate::Compounding;
use crate::time::calendar::{BusinessDayConvention, Calendar, CalendarModel};
use crate::time::daycounter::DayCounter;
use crate::time::period::{Frequency, Period};
use crate::time::schedule::{Schedule, ScheduleModel};

verus! {

/// A swap exchanging a fixed rate for a year-on-year inflation index plus
/// a spread, both legs on one nominal.
pub struct YearOnYearInflationSwap<R, I> {
    swap: Swap<R>,
    swap_type: SwapType,
    nominal: R,
    fixed_schedule: Schedule,
    fixed_rate: R,
    fixed_day_count: DayCounter,
    yoy_schedule: Schedule,
    yoy_index: I,
    yoy_coupons: Vec<YoYInflationCoupon<R, I>>,
    observation_lag: Period,
    interpolation: CpiInterpolationType,
    spread: R,
    yoy_day_count: DayCounter,
    payment_calendar: Calendar,
    payment_convention: BusinessDayConvention,
    fair_rate: Option<R>,
    fair_spread: Option<R>,
}

/// The year-on-year leg of a swap: over `schedule`, paying on `calendar`
/// with `convention`, on `nominal` plus `spread`.
pub open spec fn yoy_leg_spec<R, I>(
    schedule: ScheduleModel,
    calendar: CalendarModel,
    index: I,
    observation_lag: Period,
    interpolation: CpiInterpolationType,
    nominal: R,
    spread: R,
    day_count: DayCounter,
    convention: BusinessDayConvention,
) -> YoYInflationLegModel<R, I> {
    YoYInflationLegModel {
        schedule,
        payment_calendar: calendar,
        yoy_index: index,
        observation_lag,
        interpolation,
        notionals: seq![nominal],
        payment_day_counter: Some(day_count),
        payment_adjustment: convention,
        fixing_days: Seq::empty(),
        gearings: Seq::empty(),
        spreads: seq![spread],
    }
}

impl<R, I> YearOnYearInflationSwap<R, I> {
    #[verifier::type_invariant]
    spec fn inv(&self) -> bool {
        self.swap.legs_spec().len() == 2
    }

    /// The two-leg swap: the fixed leg first, the year-on-year leg second.
    pub closed spec fn swap_spec(&self) -> Swap<R> {
        self.swap
    }

    /// Whether the year-on-year leg is paid or received.
    pub closed spec fn swap_type_spec(&self) -> SwapType {
        self.swap_type
    }

    /// The nominal of both legs.
    pub closed spec fn nominal_spec(&self) -> R {
        self.nominal
    }

    /// The fixed rate.
    pub closed spec fn fixed_rate_spec(&self) -> R {
        self.fixed_rate
    }

    /// The spread over the index.
    pub closed spec fn spread_spec(&self) -> R {
        self.spread
    }

    /// The year-on-year coupons.
    pub closed spec fn yoy_coupons_spec(&self) -> Seq<YoYInflationCoupon<R, I>> {
        self.yoy_coupons@
    }

    /// The schedule of the fixed leg.
    pub closed spec fn fixed_schedule_spec(&self) -> ScheduleModel {
        self.fixed_schedule@
    }

    /// The day counter of the fixed leg.
    pub closed spec fn fixed_day_count_spec(&self) -> DayCounter {
        self.fixed_day_count
    }

    /// The schedule of the year-on-year leg.
    pub closed spec fn yoy_schedule_spec(&self) -> ScheduleModel {
        self.yoy_schedule@
    }

    /// The index the year-on-year leg pays.
    pub closed spec fn yoy_index_spec(&self) -> I {
        self.yoy_index
    }

    /// The observation lag of the year-on-year leg.
    pub closed spec fn observation_lag_spec(&self) -> Period {
        self.observation_lag
    }

    /// How the year-on-year observations interpolate.
    pub closed spec fn interpolation_spec(&self) -> CpiInterpolationType {
        self.interpolation
    }

    /// The day counter of the year-on-year leg.
    pub closed spec fn yoy_day_count_spec(&self) -> DayCounter {
        self.yoy_day_count
    }

    /// The calendar the year-on-year leg pays on.
    pub closed spec fn payment_calendar_spec(&self) -> CalendarModel {
        self.payment_calendar@
    }

    /// The convention both legs roll their payments with.
    pub closed spec fn payment_convention_spec(&self) -> BusinessDayConvention {
        self.payment_convention
    }

    /// The fixed rate pricing the swap at par, as kept when results were
    /// last fetched: derived from the engine's results.
    pub closed spec fn fair_rate_spec(&self) -> Option<R> {
        self.fair_rate
    }

    /// The spread pricing the swap at par, as kept when results were last
    /// fetched: derived from the engine's results.
    pub closed spec fn fair_spread_spec(&self) -> Option<R> {
        self.fair_spread
    }
}

impl<R: Copy, I: Clone> YearOnYearInflationSwap<R, I> {
    /// A swap paying (for a payer swap) or receiving `fixed_rate`, simply
    /// compounded annually on `fixed_day_count`, over `fixed_schedule`
    /// against `yoy_index` plus `spread` over `yoy_schedule`, observed
    /// `observation_lag` back and paid on `payment_calendar`; both legs on
    /// `nominal` and rolled with `payment_convention`. The fixed leg pays on
    /// its schedule's calendar.
    ///
    /// Refused when either schedule spans no period.
    pub fn new(
        swap_type: SwapType,
        nominal: R,
        fixed_schedule: Schedule,
        fixed_rate: R,
        fixed_day_count: DayCounter,
        yoy_schedule: Schedule,
        yoy_index: I,
        observation_lag: Period,
        interpolation: CpiInterpolationType,
        spread: R,
        yoy_day_count: DayCounter,
        payment_calendar: Calendar,
        payment_convention: BusinessDayConvention,
    ) -> (r: Result<YearOnYearInflationSwap<R, I>, QlError>)
        requires
            fixed_dates_defined(fixed_schedule@, fixed_schedule@.calendar, 0, payment_convention, None),
            yoy_schedule@.wf(),
            forall|i: int|
                0 <= i < yoy_schedule@.dates.len() - 1 ==> (#[trigger] floating_coupon_serials(
                    yoy_schedule@,
                    yoy_schedule@.convention,
                    payment_calendar@,
                    0,
                    payment_convention,
                    None,
                    i,
                )) is Some,
        ensures
            r is Ok <==> (fixed_schedule@.dates.len() >= 2 && yoy_schedule@.dates.len() >= 2),
            r is Err ==> r == Err::<YearOnYearInflationSwap<R, I>, QlError>(QlError::ScheduleTooShort),
            r matches Ok(s) ==> ({
                let n = yoy_schedule@.dates.len() - 1;
                let legs = s.swap_spec().legs_spec();
                &&& s.swap_type_spec() == swap_type
                &&& s.nominal_spec() == nominal
                &&& s.fixed_rate_spec() == fixed_rate
                &&& s.spread_spec() == spread
                &&& s.fixed_schedule_spec() == fixed_schedule@
                &&& s.fixed_day_count_spec() == fixed_day_count
                &&& s.yoy_schedule_spec() == yoy_schedule@
                &&& s.yoy_index_spec() == yoy_index
                &&& s.observation_lag_spec() == observation_lag
                &&& s.interpolation_spec() == interpolation
                &&& s.yoy_day_count_spec() == yoy_day_count
                &&& s.payment_calendar_spec() == payment_calendar@
                &&& s.payment_convention_spec() == payment_convention
                &&& s.swap_spec().payer_spec() == if swap_type is Payer {
                    seq![true, false]
                } else {
                    seq![false, true]
                }
                &&& s.swap_spec().no_results()
                &&& s.fair_rate_spec() is None
                &&& s.fair_spread_spec() is None
                &&& legs.len() == 2
                &&& legs[0]@.len() == fixed_schedule@.dates.len() - 1
                &&& legs[1]@.len() == n
                &&& s.yoy_coupons_spec().len() == n
                &&& exists|index: I|
                    #![trigger cloned(yoy_index, index)]
                    cloned(yoy_index, index) && forall|i: int|
                        0 <= i < n ==> {
                            let c = #[trigger] s.yoy_coupons_spec()[i];
                            &&& yoy_leg_spec(
                                yoy_schedule@,
                                payment_calendar@,
                                index,
                                observation_lag,
                                interpolation,
                                nominal,
                                spread,
                                yoy_day_count,
                                payment_convention,
                            ).is_coupon(c, i)
                            &&& legs[1]@[i] == (CashFlowDates {
                                date: c.coupon.payment_date,
                                accrual: Some(
                                    AccrualPeriod {
                                        start: c.coupon.accrual_start_date,
                                        end: c.coupon.accrual_end_date,
                                    },
                                ),
                            })
                        }
            }),
    {
        let fixed_builder: FixedRateLeg<R> = FixedRateLeg::new(fixed_schedule.copied()).with_notional(nominal);
        let fixed_builder = match fixed_builder.with_coupon_rate(
            fixed_rate,
            fixed_day_count,
            Compounding::Simple,
            Frequency::Annual,
        ) {
            Ok(b) => b,
            Err(e) => {
                return Err(e);
            },
        };
        let fixed_builder = fixed_builder.with_payment_adjustment(payment_convention);
        let fixed_leg = match fixed_builder.build() {
            Ok(flows) => flows,
            Err(e) => {
                return Err(e);
            },
        };
        let index = yoy_index.clone();
        let yoy_builder: YoYInflationLeg<R, I> = YoYInflationLeg::new(
            yoy_schedule.copied(),
            payment_calendar.copied(),
            index,
            observation_lag,
            interpolation,
        ).with_notional(nominal).with_payment_day_counter(yoy_day_count).with_payment_adjustment(
            payment_convention,
        ).with_spread(spread);
        assert(yoy_builder@ == yoy_leg_spec(
            yoy_schedule@,
            payment_calendar@,
            index,
            observation_lag,
            interpolation,
            nominal,
            spread,
            yoy_day_count,
            payment_convention,
        )) by {
            assert(yoy_builder@.fixing_days =~= Seq::<u32>::empty());
            assert(yoy_builder@.gearings =~= Seq::<R>::empty());
        }
        let yoy_coupons = match yoy_builder.coupons() {
            Ok(cs) => cs,
            Err(e) => {
                return Err(e);
            },
        };
        let mut yoy_leg: Leg = Vec::new();
        let mut i: usize = 0;
        while i < yoy_coupons.len()
            invariant
                i <= yoy_coupons@.len(),
                yoy_leg@.len() == i,
                forall|k: int|
                    0 <= k < i ==> #[trigger] yoy_leg@[k] == (CashFlowDates {
                        date: yoy_coupons@[k].coupon.payment_date,
                        accrual: Some(
                            AccrualPeriod {
                                start: yoy_coupons@[k].coupon.accrual_start_date,
                                end: yoy_coupons@[k].coupon.accrual_end_date,
                            },
                        ),
                    }),
            decreases yoy_coupons.len() - i,
        {
            yoy_leg.push(yoy_coupons[i].coupon.flow_dates());
            i = i + 1;
        }
        let payer = match swap_type {
            SwapType::Payer => vec![true, false],
            SwapType::Receiver => vec![false, true],
        };
        let ghost fixed_flows = fixed_leg;
        let ghost yoy_flows = yoy_leg;
        let legs = vec![fixed_leg, yoy_leg];
        assert(legs@ =~= seq![fixed_flows, yoy_flows]);
        let swap = match Swap::new(legs, payer) {
            Ok(s) => s,
            Err(e) => {
                return Err(e);
            },
        };
        assert(swap.legs_spec()[1]@ == yoy_flows@);
        assert(cloned(yoy_index, index));
        assert(forall|i: int|
            0 <= i < yoy_coupons@.len() ==> {
                let c = #[trigger] yoy_coupons@[i];
                &&& yoy_leg_spec(
                    yoy_schedule@,
                    payment_calendar@,
                    index,
                    observation_lag,
                    interpolation,
                    nominal,
                    spread,
                    yoy_day_count,
                    payment_convention,
                ).is_coupon(c, i)
                &&& swap.legs_spec()[1]@[i] == (CashFlowDates {
                    date: c.coupon.payment_date,
                    accrual: Some(
                        AccrualPeriod {
                            start: c.coupon.accrual_start_date,
                            end: c.coupon.accrual_end_date,
                        },
                    ),
                })
            });
        Ok(
            YearOnYearInflationSwap {
                swap,
                swap_type,
                nominal,
                fixed_schedule,
                fixed_rate,
                fixed_day_count,
                yoy_schedule,
                yoy_index,
                yoy_coupons,
                observation_lag,
                interpolation,
                spread,
                yoy_day_count,
                payment_calendar,
                payment_convention,
                fair_rate: None,
                fair_spread: None,
            },
        )
    }
}

impl<R: Copy, I> YearOnYearInflationSwap<R, I> {
    /// The two-leg swap underneath.
    pub fn swap(&self) -> (r: &Swap<R>)
        ensures
            *r == self.swap_spec(),
    {
        &self.swap
    }

    /// Whether the year-on-year leg is paid or received.
    pub fn swap_type(&self) -> (r: SwapType)
        ensures
            r == self.swap_type_spec(),
    {
        self.swap_type
    }

    /// The nominal of both legs.
    pub fn nominal(&self) -> (r: R)
        ensures
            r == self.nominal_spec(),
    {
        self.nominal
    }

    /// The schedule of the fixed leg.
    pub fn fixed_schedule(&self) -> (r: &Schedule)
        ensures
            r@ == self.fixed_schedule_spec(),
    {
        &self.fixed_schedule
    }

    /// The fixed rate.
    pub fn fixed_rate(&self) -> (r: R)
        ensures
            r == self.fixed_rate_spec(),
    {
        self.fixed_rate
    }

    /// The day counter of the fixed leg.
    pub fn fixed_day_count(&self) -> (r: DayCounter)
        ensures
            r == self.fixed_day_count_spec(),
    {
        self.fixed_day_count
    }

    /// The schedule of the year-on-year leg.
    pub fn yoy_schedule(&self) -> (r: &Schedule)
        ensures
            r@ == self.yoy_schedule_spec(),
    {
        &self.yoy_schedule
    }

    /// The index the year-on-year leg pays.
    pub fn yoy_inflation_index(&self) -> (r: &I)
        ensures
            *r == self.yoy_index_spec(),
    {
        &self.yoy_index
    }

    /// The observation lag of the year-on-year leg.
    pub fn observation_lag(&self) -> (r: Period)
        ensures
            r == self.observation_lag_spec(),
    {
        self.observation_lag
    }

    /// How the year-on-year observations interpolate.
    pub fn interpolation(&self) -> (r: CpiInterpolationType)
        ensures
            r == self.interpolation_spec(),
    {
        self.interpolation
    }

    /// The spread over the index.
    pub fn spread(&self) -> (r: R)
        ensures
            r == self.spread_spec(),
    {
        self.spread
    }

    /// The day counter of the year-on-year leg.
    pub fn yoy_day_count(&self) -> (r: DayCounter)
        ensures
            r == self.yoy_day_count_spec(),
    {
        self.yoy_day_count
    }

    /// The calendar the year-on-year leg pays on.
    pub fn payment_calendar(&self) -> (r: &Calendar)
        ensures
            r@ == self.payment_calendar_spec(),
    {
        &self.payment_calendar
    }

    /// The convention both legs roll their payments with.
    pub fn payment_convention(&self) -> (r: BusinessDayConvention)
        ensures
            r == self.payment_convention_spec(),
    {
        self.payment_convention
    }

    /// The fixed leg.
    pub fn fixed_leg(&self) -> (r: &Leg)
        ensures
            *r == self.swap_spec().legs_spec()[0],
    {
        proof {
            use_type_invariant(self);
        }
        &self.swap.legs()[0]
    }

    /// The year-on-year leg, as flows.
    pub fn yoy_leg(&self) -> (r: &Leg)
        ensures
            *r == self.swap_spec().legs_spec()[1],
    {
        proof {
            use_type_invariant(self);
        }
        &self.swap.legs()[1]
    }

    /// The year-on-year coupons.
    pub fn yoy_coupons(&self) -> (r: &[YoYInflationCoupon<R, I>])
        ensures
            r@ == self.yoy_coupons_spec(),
    {
        self.yoy_coupons.as_slice()
    }

    /// The value of the fixed leg, as last delivered.
    pub fn fixed_leg_npv(&self) -> (r: Result<R, QlError>)
        ensures
            r == available(self.swap_spec().leg_npv_spec()[0]),
    {
        proof {
            use_type_invariant(self);
        }
        self.swap.leg_npv(0)
    }

    /// The value of the year-on-year leg, as last delivered.
    pub fn yoy_leg_npv(&self) -> (r: Result<R, QlError>)
        ensures
            r == available(self.swap_spec().leg_npv_spec()[1]),
    {
        proof {
            use_type_invariant(self);
        }
        self.swap.leg_npv(1)
    }

    /// The fixed rate pricing the swap at par, as kept when results were
    /// last fetched: derived from the engine's results.
    pub fn fair_rate(&self) -> (r: Result<R, QlError>)
        ensures
            r == available(self.fair_rate_spec()),
    {
        match self.fair_rate {
            Some(v) => Ok(v),
            None => Err(QlError::ResultNotAvailable),
        }
    }

    /// The spread pricing the swap at par, as kept when results were last
    /// fetched: derived from the engine's results.
    pub fn fair_spread(&self) -> (r: Result<R, QlError>)
        ensures
            r == available(self.fair_spread_spec()),
    {
        match self.fair_spread {
            Some(v) => Ok(v),
            None => Err(QlError::ResultNotAvailable),
        }
    }

    /// What the fair rate is derived from when the engine delivered the
    /// swap's value and the fixed leg's basis-point sensitivity: the fixed
    /// rate, that value and that sensitivity, the fair rate being
    /// `fixed rate − value / (sensitivity / 1e-4)`. None otherwise.
    pub fn fair_rate_inputs(&self, results: &SwapResults<R>) -> (r: Option<(R, R, R)>)
        ensures
            r == derivation_inputs(None, *results, 0, self.fixed_rate_spec()),
    {
        if results.leg_bps.len() > 0 {
            match results.value {
                Some(v) => Some((self.fixed_rate, v, results.leg_bps[0])),
                None => None,
            }
        } else {
            None
        }
    }

    /// What the fair spread is derived from when the engine delivered the
    /// swap's value and the year-on-year leg's basis-point sensitivity: the
    /// spread, that value and that sensitivity, the fair spread being
    /// `spread − value / (sensitivity / 1e-4)`. None otherwise.
    pub fn fair_spread_inputs(&self, results: &SwapResults<R>) -> (r: Option<(R, R, R)>)
        ensures
            r == derivation_inputs(None, *results, 1, self.spread_spec()),
    {
        if results.leg_bps.len() > 1 {
            match results.value {
                Some(v) => Some((self.spread, v, results.leg_bps[1])),
                None => None,
            }
        } else {
            None
        }
    }

    /// Records what a pricing engine delivered: the swap's results, then
    /// the fair rate and spread derived from them. Where the engine
    /// delivered the swap's value and a leg's basis-point sensitivity, the
    /// fair value of that leg is the one derived from them
    /// (`derived_fair_rate` for the fixed leg, `derived_fair_spread` for
    /// the year-on-year leg, as computed from
    /// [`fair_rate_inputs`](Self::fair_rate_inputs) and
    /// [`fair_spread_inputs`](Self::fair_spread_inputs)); else there is
    /// none. Refused as the swap's results are, the fair values then
    /// unchanged.
    pub fn fetch_results(
        &mut self,
        results: &SwapResults<R>,
        derived_fair_rate: Option<R>,
        derived_fair_spread: Option<R>,
    ) -> (r: Result<(), QlError>)
        ensures
            r is Ok <==> results_error(old(self).swap_spec().legs_spec().len() as int, *results) is None,
            r is Err ==> r == Err::<(), QlError>(
                results_error(old(self).swap_spec().legs_spec().len() as int, *results).unwrap(),
            ),
            r is Ok ==> final(self).swap_spec().has_fetched(old(self).swap_spec(), *results),
            r is Err ==> final(self).swap_spec().is_unchanged_from(old(self).swap_spec()),
            r is Ok ==> final(self).fair_rate_spec() == fair_value_kept(None, *results, 0, derived_fair_rate)
                && final(self).fair_spread_spec() == fair_value_kept(
                None,
                *results,
                1,
                derived_fair_spread,
            ),
            r is Err ==> final(self).fair_rate_spec() == old(self).fair_rate_spec()
                && final(self).fair_spread_spec() == old(self).fair_spread_spec(),
            final(self).swap_spec().legs_spec() == old(self).swap_spec().legs_spec(),
            final(self).yoy_coupons_spec() == old(self).yoy_coupons_spec(),
    {
        proof {
            use_type_invariant(&*self);
        }
        let mut swap: Swap<R> = Swap::two_leg(Vec::new(), Vec::new());
        std::mem::swap(&mut swap, &mut self.swap);
        let fetched = swap.fetch_results(results);
        std::mem::swap(&mut swap, &mut self.swap);
        match fetched {
            Ok(()) => {},
            Err(e) => {
                return Err(e);
            },
        }
        self.fair_rate = keep_fair_value(None, results, 0, derived_fair_rate);
        self.fair_spread = keep_fair_value(None, results, 1, derived_fair_spread);
        Ok(())
    }
}

} // verus!
