//! Zero-coupon inflation swaps: one fixed flow against one flow indexed on
//! inflation, both at maturity.
//!
//! The fixed flow pays `N [(1 + K)^T - 1]` and the indexed one the growth
//! of the index, `N [I(T) / I(0) - 1]`; both amounts are floating-point and
//! computed outside. The swap type refers to the inflation leg: a payer
//! pays inflation and receives fixed.
use vstd::prelude::*;

use crate::cashflows::cashflow::{CashFlowDates, Leg};
use crate::errors::QlError;
use crate::indexes::inflationindex::{CpiInterpolationType, ZeroInflationIndex};
use crate::instruments::swap::{Swap, SwapResults, SwapType, available, results_error};
use crate::time::calendar::{BusinessDayConvention, Calendar, CalendarModel, adjust_spec};
use crate::time::date::{Date, advance_ok, serial_advanced};
use crate::time::daycounter::DayCounter;
use crate::time::period::{Frequency, Period, frequency_period, period_less, period_sum};

verus! {

/// Why an observation lag is refused, if it is: it must let the index
/// observe fixings that exist. Under flat interpolation the index's
/// availability lag must not exceed it; under linear interpolation a
/// further publication period is consumed, so the lag less that period
/// must still cover the availability lag.
pub open spec fn observation_lag_error(
    lag: Period,
    availability_lag: Period,
    interpolation: CpiInterpolationType,
    frequency: Frequency,
) -> Option<QlError> {
    match interpolation {
        CpiInterpolationType::Linear => match frequency_period(frequency) {
            None => Some(QlError::UnknownFrequency),
            Some(publication) => match period_sum(lag.pair(), (-publication.0, publication.1)) {
                None => Some(QlError::ImpossiblePeriodAddition),
                Some(rest) => match period_less(rest, availability_lag.pair()) {
                    None => Some(QlError::UndecidablePeriodComparison),
                    Some(true) => Some(QlError::LagBelowAvailabilityAndPeriod),
                    Some(false) => None,
                },
            },
        },
        CpiInterpolationType::Flat => match period_less(lag.pair(), availability_lag.pair()) {
            None => Some(QlError::UndecidablePeriodComparison),
            Some(true) => Some(QlError::LagBelowAvailability),
            Some(false) => None,
        },
    }
}

/// Whether the lag less the publication period fits the machine's
/// integers.
pub open spec fn observation_lag_fits(lag: Period, frequency: Frequency) -> bool {
    frequency_period(frequency) matches Some(p) ==> (period_sum(lag.pair(), (-p.0, p.1)) matches Some(
        d,
    ) ==> i32::MIN <= d.0 <= i32::MAX)
}

/// Checks the observation lag against the index's availability lag and
/// publication frequency.
fn check_observation_lag(
    lag: Period,
    availability_lag: Period,
    interpolation: CpiInterpolationType,
    frequency: Frequency,
) -> (r: Result<(), QlError>)
    requires
        observation_lag_fits(lag, frequency),
    ensures
        match observation_lag_error(lag, availability_lag, interpolation, frequency) {
            None => r == Ok::<(), QlError>(()),
            Some(e) => r == Err::<(), QlError>(e),
        },
{
    match interpolation {
        CpiInterpolationType::Linear => {
            let publication = match Period::from_frequency(frequency) {
                Ok(p) => p,
                Err(e) => {
                    return Err(e);
                },
            };
            let rest = match lag.minus(&publication) {
                Ok(p) => p,
                Err(e) => {
                    return Err(e);
                },
            };
            match rest.is_less(&availability_lag) {
                Ok(true) => Err(QlError::LagBelowAvailabilityAndPeriod),
                Ok(false) => Ok(()),
                Err(e) => Err(e),
            }
        },
        CpiInterpolationType::Flat => match lag.is_less(&availability_lag) {
            Ok(true) => Err(QlError::LagBelowAvailability),
            Ok(false) => Ok(()),
            Err(e) => Err(e),
        },
    }
}

/// A zero-coupon inflation swap: one fixed flow against one inflation
/// flow, both paid at maturity.
pub struct ZeroCouponInflationSwap<R> {
    swap: Swap<R>,
    swap_type: SwapType,
    nominal: R,
    start_date: Date,
    maturity_date: Date,
    fixed_calendar: Calendar,
    fixed_convention: BusinessDayConvention,
    fixed_rate: R,
    inflation_index: ZeroInflationIndex,
    observation_lag: Period,
    observation_interpolation: CpiInterpolationType,
    inflation_calendar: Calendar,
    inflation_convention: BusinessDayConvention,
    day_counter: DayCounter,
    base_date: Date,
    obs_date: Date,
}

/// Whether the dates of a zero-coupon inflation swap from `start` to
/// `maturity` observed `lag` back are in the supported range, and the
/// maturity can be rolled on both calendars.
pub open spec fn zero_coupon_dates_defined(
    start: Date,
    maturity: Date,
    lag: Period,
    fixed_calendar: CalendarModel,
    fixed_convention: BusinessDayConvention,
    inflation_calendar: CalendarModel,
    inflation_convention: BusinessDayConvention,
) -> bool {
    &&& start.wf()
    &&& maturity.wf()
    &&& lag.length_spec() > i32::MIN
    &&& advance_ok(start@, -lag.length_spec(), lag.units_spec())
    &&& advance_ok(maturity@, -lag.length_spec(), lag.units_spec())
    &&& adjust_spec(fixed_calendar, maturity@, fixed_convention) is Some
    &&& adjust_spec(inflation_calendar, maturity@, inflation_convention) is Some
}

impl<R> ZeroCouponInflationSwap<R> {
    #[verifier::type_invariant]
    spec fn inv(&self) -> bool {
        self.swap.legs_spec().len() == 2
    }

    /// The two-leg swap: the fixed leg first, the inflation leg second.
    pub closed spec fn swap_spec(&self) -> Swap<R> {
        self.swap
    }

    /// Whether the inflation leg is paid or received.
    pub closed spec fn swap_type_spec(&self) -> SwapType {
        self.swap_type
    }

    /// The nominal both flows are scaled by.
    pub closed spec fn nominal_spec(&self) -> R {
        self.nominal
    }

    /// The contract start date.
    pub closed spec fn start_date_spec(&self) -> Date {
        self.start_date
    }

    /// The contract maturity, before adjustment.
    pub closed spec fn maturity_date_spec(&self) -> Date {
        self.maturity_date
    }

    /// The calendar the fixed payment is rolled on.
    pub closed spec fn fixed_calendar_spec(&self) -> CalendarModel {
        self.fixed_calendar@
    }

    /// The convention the fixed payment is rolled with.
    pub closed spec fn fixed_convention_spec(&self) -> BusinessDayConvention {
        self.fixed_convention
    }

    /// The quoted rate.
    pub closed spec fn fixed_rate_spec(&self) -> R {
        self.fixed_rate
    }

    /// The index the inflation flow is indexed on.
    pub closed spec fn inflation_index_spec(&self) -> ZeroInflationIndex {
        self.inflation_index
    }

    /// The lag both observations are taken at.
    pub closed spec fn observation_lag_spec(&self) -> Period {
        self.observation_lag
    }

    /// How the observations interpolate.
    pub closed spec fn observation_interpolation_spec(&self) -> CpiInterpolationType {
        self.observation_interpolation
    }

    /// The calendar the inflation payment is rolled on.
    pub closed spec fn inflation_calendar_spec(&self) -> CalendarModel {
        self.inflation_calendar@
    }

    /// The convention the inflation payment is rolled with.
    pub closed spec fn inflation_convention_spec(&self) -> BusinessDayConvention {
        self.inflation_convention
    }

    /// The day counter the fixed amount's year fraction is taken on.
    pub closed spec fn day_counter_spec(&self) -> DayCounter {
        self.day_counter
    }

    /// The date the base fixing is observed at.
    pub closed spec fn base_date_spec(&self) -> Date {
        self.base_date
    }

    /// The date the maturity fixing is observed at.
    pub closed spec fn obs_date_spec(&self) -> Date {
        self.obs_date
    }
}

impl<R: Copy> ZeroCouponInflationSwap<R> {
    /// A swap of `nominal` from `start_date` to `maturity`, the fixed flow
    /// growing at `fixed_rate` and the other indexed on `inflation_index`
    /// observed `observation_lag` back. The fixed flow pays on the maturity
    /// rolled on the fixed calendar, the inflation flow on it rolled on the
    /// inflation calendar and convention, the fixed ones when not given.
    /// The base fixing is observed the lag before the start, the final one
    /// the lag before the maturity. A payer pays the inflation flow.
    ///
    /// Refused when the observation lag would observe fixings that do not
    /// exist yet.
    pub fn new(
        swap_type: SwapType,
        nominal: R,
        start_date: Date,
        maturity: Date,
        fixed_calendar: Calendar,
        fixed_convention: BusinessDayConvention,
        day_counter: DayCounter,
        fixed_rate: R,
        inflation_index: ZeroInflationIndex,
        observation_lag: Period,
        observation_interpolation: CpiInterpolationType,
        inflation_calendar: Option<Calendar>,
        inflation_convention: Option<BusinessDayConvention>,
    ) -> (r: Result<ZeroCouponInflationSwap<R>, QlError>)
        requires
            observation_lag_fits(observation_lag, inflation_index.base_spec().frequency_spec()),
            zero_coupon_dates_defined(
                start_date,
                maturity,
                observation_lag,
                fixed_calendar@,
                fixed_convention,
                match inflation_calendar {
                    Some(c) => c@,
                    None => fixed_calendar@,
                },
                match inflation_convention {
                    Some(c) => c,
                    None => fixed_convention,
                },
            ),
        ensures
            ({
                let error = observation_lag_error(
                    observation_lag,
                    inflation_index.base_spec().availability_lag_spec(),
                    observation_interpolation,
                    inflation_index.base_spec().frequency_spec(),
                );
                let inf_calendar = match inflation_calendar {
                    Some(c) => c@,
                    None => fixed_calendar@,
                };
                let inf_convention = match inflation_convention {
                    Some(c) => c,
                    None => fixed_convention,
                };
                &&& r is Ok <==> error is None
                &&& r is Err ==> r == Err::<ZeroCouponInflationSwap<R>, QlError>(error.unwrap())
                &&& r matches Ok(s) ==> {
                    let legs = s.swap_spec().legs_spec();
                    &&& s.swap_type_spec() == swap_type
                    &&& s.nominal_spec() == nominal
                    &&& s.start_date_spec() == start_date
                    &&& s.maturity_date_spec() == maturity
                    &&& s.fixed_calendar_spec() == fixed_calendar@
                    &&& s.fixed_convention_spec() == fixed_convention
                    &&& s.fixed_rate_spec() == fixed_rate
                    &&& s.inflation_index_spec() == inflation_index
                    &&& s.observation_lag_spec() == observation_lag
                    &&& s.observation_interpolation_spec() == observation_interpolation
                    &&& s.inflation_calendar_spec() == inf_calendar
                    &&& s.inflation_convention_spec() == inf_convention
                    &&& s.day_counter_spec() == day_counter
                    &&& s.base_date_spec()@ == serial_advanced(
                        start_date@,
                        -observation_lag.length_spec(),
                        observation_lag.units_spec(),
                    )
                    &&& s.obs_date_spec()@ == serial_advanced(
                        maturity@,
                        -observation_lag.length_spec(),
                        observation_lag.units_spec(),
                    )
                    &&& legs.len() == 2
                    &&& legs[0]@.len() == 1
                    &&& legs[0]@[0].date@ == adjust_spec(fixed_calendar@, maturity@, fixed_convention).unwrap()
                    &&& legs[0]@[0].accrual is None
                    &&& legs[1]@.len() == 1
                    &&& legs[1]@[0].date@ == adjust_spec(inf_calendar, maturity@, inf_convention).unwrap()
                    &&& legs[1]@[0].accrual is None
                    &&& s.swap_spec().payer_spec() == if swap_type is Payer {
                        seq![false, true]
                    } else {
                        seq![true, false]
                    }
                    &&& s.swap_spec().no_results()
                }
            }),
    {
        match check_observation_lag(
            observation_lag,
            inflation_index.base().availability_lag(),
            observation_interpolation,
            inflation_index.base().frequency(),
        ) {
            Ok(()) => {},
            Err(e) => {
                return Err(e);
            },
        }
        let inflation_calendar = match inflation_calendar {
            Some(c) => c,
            None => fixed_calendar.copied(),
        };
        let inflation_convention = match inflation_convention {
            Some(c) => c,
            None => fixed_convention,
        };
        let inflation_pay_date = inflation_calendar.adjust(maturity, inflation_convention);
        let fixed_pay_date = fixed_calendar.adjust(maturity, fixed_convention);
        let base_date = start_date.sub_period(observation_lag);
        let obs_date = maturity.sub_period(observation_lag);
        let fixed_leg: Leg = vec![CashFlowDates::simple(fixed_pay_date)];
        let inflation_leg: Leg = vec![CashFlowDates::simple(inflation_pay_date)];
        let ghost fixed_flows = fixed_leg;
        let ghost inflation_flows = inflation_leg;
        let payer = match swap_type {
            SwapType::Payer => vec![false, true],
            SwapType::Receiver => vec![true, false],
        };
        let legs = vec![fixed_leg, inflation_leg];
        assert(legs@ =~= seq![fixed_flows, inflation_flows]);
        let swap = match Swap::new(legs, payer) {
            Ok(s) => s,
            Err(e) => {
                return Err(e);
            },
        };
        Ok(
            ZeroCouponInflationSwap {
                swap,
                swap_type,
                nominal,
                start_date,
                maturity_date: maturity,
                fixed_calendar,
                fixed_convention,
                fixed_rate,
                inflation_index,
                observation_lag,
                observation_interpolation,
                inflation_calendar,
                inflation_convention,
                day_counter,
                base_date,
                obs_date,
            },
        )
    }
}

impl<R: Copy> ZeroCouponInflationSwap<R> {
    /// The two-leg swap underneath.
    pub fn swap(&self) -> (r: &Swap<R>)
        ensures
            *r == self.swap_spec(),
    {
        &self.swap
    }

    /// Whether the inflation leg is paid or received.
    pub fn swap_type(&self) -> (r: SwapType)
        ensures
            r == self.swap_type_spec(),
    {
        self.swap_type
    }

    /// The nominal both flows are scaled by.
    pub fn nominal(&self) -> (r: R)
        ensures
            r == self.nominal_spec(),
    {
        self.nominal
    }

    /// The contract start date.
    pub fn start_date(&self) -> (r: Date)
        ensures
            r == self.start_date_spec(),
    {
        self.start_date
    }

    /// The contract maturity, before adjustment.
    pub fn maturity_date(&self) -> (r: Date)
        ensures
            r == self.maturity_date_spec(),
    {
        self.maturity_date
    }

    /// The calendar the fixed payment is rolled on.
    pub fn fixed_calendar(&self) -> (r: &Calendar)
        ensures
            r@ == self.fixed_calendar_spec(),
    {
        &self.fixed_calendar
    }

    /// The convention the fixed payment is rolled with.
    pub fn fixed_convention(&self) -> (r: BusinessDayConvention)
        ensures
            r == self.fixed_convention_spec(),
    {
        self.fixed_convention
    }

    /// The day counter the fixed amount's year fraction is taken on.
    pub fn day_counter(&self) -> (r: DayCounter)
        ensures
            r == self.day_counter_spec(),
    {
        self.day_counter
    }

    /// The quoted rate.
    pub fn fixed_rate(&self) -> (r: R)
        ensures
            r == self.fixed_rate_spec(),
    {
        self.fixed_rate
    }

    /// The index the inflation flow is indexed on.
    pub fn inflation_index(&self) -> (r: &ZeroInflationIndex)
        ensures
            *r == self.inflation_index_spec(),
    {
        &self.inflation_index
    }

    /// The lag both observations are taken at.
    pub fn observation_lag(&self) -> (r: Period)
        ensures
            r == self.observation_lag_spec(),
    {
        self.observation_lag
    }

    /// How the observations interpolate.
    pub fn observation_interpolation(&self) -> (r: CpiInterpolationType)
        ensures
            r == self.observation_interpolation_spec(),
    {
        self.observation_interpolation
    }

    /// The calendar the inflation payment is rolled on.
    pub fn inflation_calendar(&self) -> (r: &Calendar)
        ensures
            r@ == self.inflation_calendar_spec(),
    {
        &self.inflation_calendar
    }

    /// The convention the inflation payment is rolled with.
    pub fn inflation_convention(&self) -> (r: BusinessDayConvention)
        ensures
            r == self.inflation_convention_spec(),
    {
        self.inflation_convention
    }

    /// The date the base fixing is observed at.
    pub fn base_date(&self) -> (r: Date)
        ensures
            r == self.base_date_spec(),
    {
        self.base_date
    }

    /// The date the maturity fixing is observed at.
    pub fn obs_date(&self) -> (r: Date)
        ensures
            r == self.obs_date_spec(),
    {
        self.obs_date
    }

    /// The fixed leg: its one flow.
    pub fn fixed_leg(&self) -> (r: &Leg)
        ensures
            *r == self.swap_spec().legs_spec()[0],
    {
        proof {
            use_type_invariant(self);
        }
        &self.swap.legs()[0]
    }

    /// The inflation leg: its one flow.
    pub fn inflation_leg(&self) -> (r: &Leg)
        ensures
            *r == self.swap_spec().legs_spec()[1],
    {
        proof {
            use_type_invariant(self);
        }
        &self.swap.legs()[1]
    }

    /// The value of the fixed leg, as last delivered.
    pub fn fixed_leg_npv(&self) -> (r: Result<R, QlError>)
        ensures
            r == available(self.swap_spec().leg_npv_spec()[0]),
    {
        proof {
            use_type_invariant(self);
        }
        self.swap.leg_npv(0)
    }

    /// The value of the inflation leg, as last delivered.
    pub fn inflation_leg_npv(&self) -> (r: Result<R, QlError>)
        ensures
            r == available(self.swap_spec().leg_npv_spec()[1]),
    {
        proof {
            use_type_invariant(self);
        }
        self.swap.leg_npv(1)
    }

    /// Records what a pricing engine delivered for the swap.
    pub fn fetch_results(&mut self, results: &SwapResults<R>) -> (r: Result<(), QlError>)
        ensures
            r is Ok <==> results_error(old(self).swap_spec().legs_spec().len() as int, *results) is None,
            r is Err ==> r == Err::<(), QlError>(
                results_error(old(self).swap_spec().legs_spec().len() as int, *results).unwrap(),
            ),
            r is Ok ==> final(self).swap_spec().has_fetched(old(self).swap_spec(), *results),
            r is Err ==> final(self).swap_spec().is_unchanged_from(old(self).swap_spec()),
            ({
                let mut_swap = final(self).swap_spec();
                &&& mut_swap.legs_spec() == old(self).swap_spec().legs_spec()
                &&& mut_swap.payer_spec() == old(self).swap_spec().payer_spec()
                &&& r is Ok ==> mut_swap.leg_npv_spec() == crate::instruments::swap::delivered(
                    results.leg_npv@,
                    2,
                )
                &&& r is Err ==> mut_swap.leg_npv_spec() == old(self).swap_spec().leg_npv_spec()
            }),
            final(self).base_date_spec() == old(self).base_date_spec(),
            final(self).obs_date_spec() == old(self).obs_date_spec(),
    {
        proof {
            use_type_invariant(&*self);
        }
        let mut swap: Swap<R> = Swap::two_leg(Vec::new(), Vec::new());
        std::mem::swap(&mut swap, &mut self.swap);
        let fetched = swap.fetch_results(results);
        std::mem::swap(&mut swap, &mut self.swap);
        fetched
    }
}

} // verus!
