//! Swaps exchanging a fixed-rate leg for a floating one.
use vstd::prelude::*;

use crate::cashflows::cashflow::Leg;
use crate::cashflows::fixedrateleg::{FixedRateCoupon, FixedRateLeg, fixed_coupon_serials, fixed_dates_defined};
use crate::errors::QlError;
use crate::indexes::iborindex::IborIndex;
use crate::instruments::swap::{Swap, SwapArguments, SwapResults, SwapType, available, results_error};
use crate::interestrate::Compounding;
use crate::time::calendar::{BusinessDayConvention, Calendar, CalendarModel};
use crate::time::daycounter::DayCounter;
use crate::time::date::Date;
use crate::time::period::Frequency;
use crate::time::schedule::{Schedule, ScheduleModel};
use vstd::std_specs::cmp::PartialEqSpec;

verus! {

/// What a pricing engine delivers for a fixed-versus-floating swap: the
/// swap's results, and the fixed rate and floating spread that would price
/// it at par.
pub struct FixedVsFloatingSwapResults<R> {
    /// The swap's results.
    pub swap: SwapResults<R>,
    /// The fixed rate pricing the swap at par.
    pub fair_rate: Option<R>,
    /// The floating spread pricing the swap at par.
    pub fair_spread: Option<R>,
}

/// What a pricing engine is given for a fixed-versus-floating swap, beyond
/// its legs: the side, the nominal when constant, and the dates and amounts
/// of each leg's coupons.
pub struct FixedVsFloatingSwapArguments<R> {
    /// The legs and the sign each is counted with.
    pub swap: SwapArguments<R>,
    /// The side of the swap.
    pub swap_type: Option<SwapType>,
    /// The nominal, when constant.
    pub nominal: Option<R>,
    /// The nominal of each fixed coupon.
    pub fixed_nominals: Vec<R>,
    /// The accrual start of each fixed coupon.
    pub fixed_reset_dates: Vec<Date>,
    /// The payment date of each fixed coupon.
    pub fixed_pay_dates: Vec<Date>,
    /// The amount of each fixed coupon.
    pub fixed_coupons: Vec<R>,
    /// The nominal of each floating coupon.
    pub floating_nominals: Vec<R>,
    /// The accrual start of each floating coupon.
    pub floating_reset_dates: Vec<Date>,
    /// The fixing date of each floating coupon.
    pub floating_fixing_dates: Vec<Date>,
    /// The payment date of each floating coupon.
    pub floating_pay_dates: Vec<Date>,
    /// The accrual time of each floating coupon.
    pub floating_accrual_times: Vec<R>,
    /// The spread of each floating coupon.
    pub floating_spreads: Vec<R>,
    /// The amount of each floating coupon.
    pub floating_coupons: Vec<R>,
}

/// The error fixed-versus-floating arguments are refused with, if any: the
/// per-coupon lists of a leg must all be as long as its payment dates,
/// checked in the order of the lists.
pub open spec fn arguments_error<R>(a: FixedVsFloatingSwapArguments<R>) -> Option<QlError> {
    let fixed = a.fixed_pay_dates@.len();
    let floating = a.floating_pay_dates@.len();
    if a.fixed_nominals@.len() != fixed {
        Some(QlError::FixedNominalsMismatch)
    } else if a.fixed_reset_dates@.len() != fixed {
        Some(QlError::FixedResetDatesMismatch)
    } else if a.fixed_coupons@.len() != fixed {
        Some(QlError::FixedCouponsMismatch)
    } else if a.floating_nominals@.len() != floating {
        Some(QlError::FloatingNominalsMismatch)
    } else if a.floating_reset_dates@.len() != floating {
        Some(QlError::FloatingResetDatesMismatch)
    } else if a.floating_fixing_dates@.len() != floating {
        Some(QlError::FloatingFixingDatesMismatch)
    } else if a.floating_accrual_times@.len() != floating {
        Some(QlError::FloatingAccrualTimesMismatch)
    } else if a.floating_spreads@.len() != floating {
        Some(QlError::FloatingSpreadsMismatch)
    } else if a.floating_coupons@.len() != floating {
        Some(QlError::FloatingCouponsMismatch)
    } else {
        None
    }
}

impl<R> FixedVsFloatingSwapArguments<R> {
    /// Arguments with nothing set.
    pub fn new() -> (r: FixedVsFloatingSwapArguments<R>)
        ensures
            r.swap.legs@.len() == 0,
            r.swap.payer@.len() == 0,
            r.swap_type is None,
            r.nominal is None,
            r.fixed_nominals@.len() == 0,
            r.fixed_reset_dates@.len() == 0,
            r.fixed_pay_dates@.len() == 0,
            r.fixed_coupons@.len() == 0,
            r.floating_nominals@.len() == 0,
            r.floating_reset_dates@.len() == 0,
            r.floating_fixing_dates@.len() == 0,
            r.floating_pay_dates@.len() == 0,
            r.floating_accrual_times@.len() == 0,
            r.floating_spreads@.len() == 0,
            r.floating_coupons@.len() == 0,
    {
        FixedVsFloatingSwapArguments {
            swap: SwapArguments { legs: Vec::new(), payer: Vec::new() },
            swap_type: None,
            nominal: None,
            fixed_nominals: Vec::new(),
            fixed_reset_dates: Vec::new(),
            fixed_pay_dates: Vec::new(),
            fixed_coupons: Vec::new(),
            floating_nominals: Vec::new(),
            floating_reset_dates: Vec::new(),
            floating_fixing_dates: Vec::new(),
            floating_pay_dates: Vec::new(),
            floating_accrual_times: Vec::new(),
            floating_spreads: Vec::new(),
            floating_coupons: Vec::new(),
        }
    }

    /// Refuses arguments whose per-coupon lists do not match their leg's
    /// payment dates.
    pub fn validate(&self) -> (r: Result<(), QlError>)
        ensures
            r is Ok <==> arguments_error(*self) is None,
            r is Err ==> r == Err::<(), QlError>(arguments_error(*self).unwrap()),
    {
        let fixed = self.fixed_pay_dates.len();
        let floating = self.floating_pay_dates.len();
        if self.fixed_nominals.len() != fixed {
            Err(QlError::FixedNominalsMismatch)
        } else if self.fixed_reset_dates.len() != fixed {
            Err(QlError::FixedResetDatesMismatch)
        } else if self.fixed_coupons.len() != fixed {
            Err(QlError::FixedCouponsMismatch)
        } else if self.floating_nominals.len() != floating {
            Err(QlError::FloatingNominalsMismatch)
        } else if self.floating_reset_dates.len() != floating {
            Err(QlError::FloatingResetDatesMismatch)
        } else if self.floating_fixing_dates.len() != floating {
            Err(QlError::FloatingFixingDatesMismatch)
        } else if self.floating_accrual_times.len() != floating {
            Err(QlError::FloatingAccrualTimesMismatch)
        } else if self.floating_spreads.len() != floating {
            Err(QlError::FloatingSpreadsMismatch)
        } else if self.floating_coupons.len() != floating {
            Err(QlError::FloatingCouponsMismatch)
        } else {
            Ok(())
        }
    }
}

/// Whether two lists of values are the same, value by value, as `==` on the
/// values says.
pub open spec fn same_values<R: PartialEq>(a: Seq<R>, b: Seq<R>) -> bool {
    a.len() == b.len() && forall|i: int| 0 <= i < a.len() ==> (#[trigger] a[i]).eq_spec(&b[i])
}

/// Whether every value of a list is the first one, as `==` on the values
/// says.
pub open spec fn constant_values<R: PartialEq>(a: Seq<R>) -> bool {
    forall|i: int| 0 <= i < a.len() ==> (#[trigger] a[i]).eq_spec(&a[0])
}

/// Whether `==` found the two lists the same, value by value.
pub open spec fn found_same<R: PartialEq>(a: Seq<R>, b: Seq<R>) -> bool {
    a.len() == b.len() && forall|i: int|
        0 <= i < a.len() ==> #[trigger] call_ensures(<R as PartialEq>::eq, (&a[i], &b[i]), true)
}

/// Whether `==` found the two lists different: of different lengths, or
/// with a pair of values found different.
pub open spec fn found_different<R: PartialEq>(a: Seq<R>, b: Seq<R>) -> bool {
    a.len() != b.len() || exists|i: int|
        0 <= i < a.len() && #[trigger] call_ensures(<R as PartialEq>::eq, (&a[i], &b[i]), false)
}

/// Whether `==` found every value of the list to be its first one.
pub open spec fn found_constant<R: PartialEq>(a: Seq<R>) -> bool {
    forall|i: int| 0 <= i < a.len() ==> #[trigger] call_ensures(<R as PartialEq>::eq, (&a[i], &a[0]), true)
}

/// Whether `==` found some value of the list different from its first one.
pub open spec fn found_varying<R: PartialEq>(a: Seq<R>) -> bool {
    exists|i: int| 0 <= i < a.len() && #[trigger] call_ensures(<R as PartialEq>::eq, (&a[i], &a[0]), false)
}

/// Whether the two lists are the same, value by value.
fn same_nominals<R: PartialEq>(a: &Vec<R>, b: &Vec<R>) -> (r: bool)
    ensures
        R::obeys_eq_spec() ==> r == same_values(a@, b@),
        r ==> found_same(a@, b@),
        !r ==> found_different(a@, b@),
{
    if a.len() != b.len() {
        return false;
    }
    let mut i: usize = 0;
    while i < a.len()
        invariant
            i <= a.len(),
            a.len() == b.len(),
            R::obeys_eq_spec() ==> forall|k: int| 0 <= k < i ==> (#[trigger] a@[k]).eq_spec(&b@[k]),
            forall|k: int| 0 <= k < i ==> #[trigger] call_ensures(<R as PartialEq>::eq, (&a@[k], &b@[k]), true),
        decreases a.len() - i,
    {
        let equal = a[i] == b[i];
        if !equal {
            return false;
        }
        i = i + 1;
    }
    true
}

/// Whether every value of the list is its first one.
fn constant_nominals<R: PartialEq>(a: &Vec<R>) -> (r: bool)
    ensures
        R::obeys_eq_spec() ==> r == constant_values(a@),
        r ==> found_constant(a@),
        !r ==> found_varying(a@),
{
    if a.len() == 0 {
        return true;
    }
    let mut i: usize = 0;
    while i < a.len()
        invariant
            i <= a.len(),
            a.len() > 0,
            R::obeys_eq_spec() ==> forall|k: int| 0 <= k < i ==> (#[trigger] a@[k]).eq_spec(&a@[0]),
            forall|k: int| 0 <= k < i ==> #[trigger] call_ensures(<R as PartialEq>::eq, (&a@[k], &a@[0]), true),
        decreases a.len() - i,
    {
        let equal = a[i] == a[0];
        if !equal {
            return false;
        }
        i = i + 1;
    }
    true
}

/// The fair value of leg `leg` a swap keeps: the one the engine delivered;
/// else, where the engine delivered the swap's value and the leg's
/// basis-point sensitivity, the one derived from them; else none.
pub open spec fn fair_value_kept<R>(
    delivered: Option<R>,
    results: SwapResults<R>,
    leg: int,
    derived: Option<R>,
) -> Option<R> {
    if delivered is Some {
        delivered
    } else if results.value is Some && results.leg_bps@.len() > leg {
        derived
    } else {
        None
    }
}

/// What the fair value of leg `leg` is derived from: the quoted rate or
/// spread, the swap's value and the leg's basis-point sensitivity, when the
/// engine delivered no fair value but did deliver those; none otherwise.
pub open spec fn derivation_inputs<R>(
    delivered: Option<R>,
    results: SwapResults<R>,
    leg: int,
    quoted: R,
) -> Option<(R, R, R)> {
    if delivered is None && results.value is Some && results.leg_bps@.len() > leg {
        Some((quoted, results.value.unwrap(), results.leg_bps@[leg]))
    } else {
        None
    }
}

/// The fair value of leg `leg` to keep, as [`fair_value_kept`] says.
pub(crate) fn keep_fair_value<R: Copy>(delivered: Option<R>, results: &SwapResults<R>, leg: usize, derived: Option<R>) -> (r:
    Option<R>)
    ensures
        r == fair_value_kept(delivered, *results, leg as int, derived),
{
    if delivered.is_some() {
        delivered
    } else if results.value.is_some() && results.leg_bps.len() > leg {
        derived
    } else {
        None
    }
}

/// A swap exchanging a fixed-rate leg for a floating leg: the first leg is
/// the fixed one, paid by a payer swap; the second the floating one.
///
/// Nominals, rates and spreads are carried as the caller represents them.
pub struct FixedVsFloatingSwap<R> {
    swap: Swap<R>,
    swap_type: SwapType,
    fixed_nominals: Vec<R>,
    fixed_schedule: Schedule,
    fixed_rate: R,
    fixed_day_count: DayCounter,
    fixed_coupons: Vec<FixedRateCoupon<R>>,
    floating_nominals: Vec<R>,
    floating_schedule: Schedule,
    ibor_index: IborIndex,
    spread: R,
    floating_day_count: DayCounter,
    payment_convention: BusinessDayConvention,
    fair_rate: Option<R>,
    fair_spread: Option<R>,
    constant_nominals: bool,
    same_nominals: bool,
}

/// The calendar a fixed leg pays on: the one given, or the fixed
/// schedule's.
pub open spec fn resolved_calendar(given: Option<Calendar>, fixed: ScheduleModel) -> CalendarModel {
    match given {
        Some(c) => c@,
        None => fixed.calendar,
    }
}

/// The convention a fixed leg pays with: the one given, or the floating
/// schedule's.
pub open spec fn resolved_convention(
    given: Option<BusinessDayConvention>,
    floating: ScheduleModel,
) -> BusinessDayConvention {
    match given {
        Some(c) => c,
        None => floating.convention,
    }
}

impl<R> FixedVsFloatingSwap<R> {
    /// The underlying swap: the fixed leg, then the floating leg.
    pub closed spec fn swap_spec(&self) -> Swap<R> {
        self.swap
    }

    /// The side of the swap.
    pub closed spec fn swap_type_spec(&self) -> SwapType {
        self.swap_type
    }

    /// The nominal of each fixed coupon.
    pub closed spec fn fixed_nominals_spec(&self) -> Seq<R> {
        self.fixed_nominals@
    }

    /// The fixed leg's schedule.
    pub closed spec fn fixed_schedule_spec(&self) -> ScheduleModel {
        self.fixed_schedule@
    }

    /// The fixed rate.
    pub closed spec fn fixed_rate_spec(&self) -> R {
        self.fixed_rate
    }

    /// The fixed leg's day counter.
    pub closed spec fn fixed_day_count_spec(&self) -> DayCounter {
        self.fixed_day_count
    }

    /// The fixed leg's coupons.
    pub closed spec fn fixed_coupons_spec(&self) -> Seq<FixedRateCoupon<R>> {
        self.fixed_coupons@
    }

    /// The nominal of each floating coupon.
    pub closed spec fn floating_nominals_spec(&self) -> Seq<R> {
        self.floating_nominals@
    }

    /// The floating leg's schedule.
    pub closed spec fn floating_schedule_spec(&self) -> ScheduleModel {
        self.floating_schedule@
    }

    /// The index the floating leg pays.
    pub closed spec fn ibor_index_spec(&self) -> IborIndex {
        self.ibor_index
    }

    /// The floating leg's spread.
    pub closed spec fn spread_spec(&self) -> R {
        self.spread
    }

    /// The floating leg's day counter.
    pub closed spec fn floating_day_count_spec(&self) -> DayCounter {
        self.floating_day_count
    }

    /// The convention the fixed leg's payments are rolled with.
    pub closed spec fn payment_convention_spec(&self) -> BusinessDayConvention {
        self.payment_convention
    }

    /// The fixed rate pricing the swap at par, when delivered or derived.
    pub closed spec fn fair_rate_spec(&self) -> Option<R> {
        self.fair_rate
    }

    /// The floating spread pricing the swap at par, when delivered or
    /// derived.
    pub closed spec fn fair_spread_spec(&self) -> Option<R> {
        self.fair_spread
    }

    /// Whether both legs have the same nominals.
    pub closed spec fn same_nominals_spec(&self) -> bool {
        self.same_nominals
    }

    /// Whether both legs have the same, single nominal.
    pub closed spec fn constant_nominals_spec(&self) -> bool {
        self.constant_nominals
    }

    /// The swap has its two legs, and one fixed nominal when constant.
    #[verifier::type_invariant]
    spec fn inv(self) -> bool {
        &&& self.swap.legs_spec().len() == 2
        &&& self.constant_nominals ==> self.fixed_nominals@.len() > 0
    }
}

impl<R: Copy + PartialEq> FixedVsFloatingSwap<R> {
    /// A swap paying (for a payer swap) or receiving the fixed rate on
    /// `fixed_nominals` over `fixed_schedule` against `floating_leg`, built
    /// over `floating_schedule` on `ibor_index`.
    ///
    /// The fixed day counter defaults to the index's, the payment
    /// convention to the floating schedule's and the payment calendar to
    /// the fixed schedule's. Refused when the fixed leg cannot be built:
    /// without nominals, or over fewer than two dates.
    pub fn new(
        swap_type: SwapType,
        fixed_nominals: Vec<R>,
        fixed_schedule: Schedule,
        fixed_rate: R,
        fixed_day_count: Option<DayCounter>,
        floating_nominals: Vec<R>,
        floating_schedule: Schedule,
        ibor_index: IborIndex,
        spread: R,
        floating_day_count: DayCounter,
        payment_convention: Option<BusinessDayConvention>,
        payment_lag: i32,
        payment_calendar: Option<Calendar>,
        floating_leg: Leg,
    ) -> (r: Result<FixedVsFloatingSwap<R>, QlError>)
        requires
            fixed_dates_defined(
                fixed_schedule@,
                resolved_calendar(payment_calendar, fixed_schedule@),
                payment_lag as int,
                resolved_convention(payment_convention, floating_schedule@),
                None,
            ),
        ensures
            r is Ok <==> (fixed_nominals@.len() > 0 && fixed_schedule@.dates.len() >= 2),
            r is Err ==> r == Err::<FixedVsFloatingSwap<R>, QlError>(
                if fixed_nominals@.len() == 0 {
                    QlError::NoNotional
                } else {
                    QlError::ScheduleTooShort
                },
            ),
            r matches Ok(s) ==> ({
                let dc = match fixed_day_count {
                    Some(d) => d,
                    None => ibor_index.day_counter_spec(),
                };
                let conv = resolved_convention(payment_convention, floating_schedule@);
                let cal = resolved_calendar(payment_calendar, fixed_schedule@);
                let n = fixed_schedule@.dates.len() - 1;
                &&& s.swap_type_spec() == swap_type
                &&& s.fixed_nominals_spec() == fixed_nominals@
                &&& s.fixed_schedule_spec() == fixed_schedule@
                &&& s.fixed_rate_spec() == fixed_rate
                &&& s.fixed_day_count_spec() == dc
                &&& s.floating_nominals_spec() == floating_nominals@
                &&& s.floating_schedule_spec() == floating_schedule@
                &&& s.ibor_index_spec().same_terms(&ibor_index)
                &&& s.spread_spec() == spread
                &&& s.floating_day_count_spec() == floating_day_count
                &&& s.payment_convention_spec() == conv
                &&& s.swap_spec().payer_spec() == (match swap_type {
                    SwapType::Payer => seq![true, false],
                    SwapType::Receiver => seq![false, true],
                })
                &&& s.swap_spec().legs_spec().len() == 2
                &&& s.swap_spec().legs_spec()[1] == floating_leg
                &&& s.swap_spec().legs_spec()[0]@.len() == n
                &&& s.fixed_coupons_spec().len() == n
                &&& forall|i: int|
                    0 <= i < n ==> {
                        let c = #[trigger] s.fixed_coupons_spec()[i];
                        let serials = fixed_coupon_serials(fixed_schedule@, cal, payment_lag as int, conv, None, i).unwrap();
                        let f = s.swap_spec().legs_spec()[0]@[i];
                        &&& c.coupon.has_serials(serials)
                        &&& c.coupon.nominal == crate::cashflows::coupon::value_at(fixed_nominals@, i)
                        &&& c.rate.rate_spec() == fixed_rate
                        &&& c.rate.day_counter_spec() == dc
                        &&& c.rate.compounding_spec() == Compounding::Simple
                        &&& f.date@ == serials.payment
                        &&& f.accrual matches Some(a) && a.start@ == serials.start && a.end@ == serials.end
                    }
                &&& s.swap_spec().no_results()
                &&& s.fair_rate_spec() is None
                &&& s.fair_spread_spec() is None
                &&& s.same_nominals_spec() ==> found_same(fixed_nominals@, floating_nominals@)
                &&& !s.same_nominals_spec() ==> found_different(fixed_nominals@, floating_nominals@)
                &&& s.constant_nominals_spec() ==> s.same_nominals_spec() && found_constant(fixed_nominals@)
                &&& !s.constant_nominals_spec() ==> !s.same_nominals_spec() || found_varying(fixed_nominals@)
                &&& R::obeys_eq_spec() ==> s.same_nominals_spec() == same_values(fixed_nominals@, floating_nominals@)
                &&& R::obeys_eq_spec() ==> s.constant_nominals_spec() == (same_values(
                    fixed_nominals@,
                    floating_nominals@,
                ) && constant_values(fixed_nominals@))
            }),
    {
        let fixed_day_count = match fixed_day_count {
            Some(d) => d,
            None => ibor_index.day_counter(),
        };
        let payment_convention = match payment_convention {
            Some(c) => c,
            None => floating_schedule.business_day_convention(),
        };
        let payment_calendar = match payment_calendar {
            Some(c) => c,
            None => fixed_schedule.calendar().copied(),
        };
        let builder: FixedRateLeg<R> = FixedRateLeg::new(fixed_schedule.copied());
        let builder = builder.with_notionals(clone_values(&fixed_nominals));
        let builder = match builder.with_coupon_rates(
            vec![fixed_rate],
            fixed_day_count,
            Compounding::Simple,
            Frequency::Annual,
        ) {
            Ok(b) => b,
            Err(e) => {
                return Err(e);
            },
        };
        let builder = builder.with_payment_adjustment(payment_convention);
        let builder = builder.with_payment_lag(payment_lag);
        let builder = builder.with_payment_calendar(payment_calendar);
        let ghost lm = builder@;
        let coupons = match builder.coupons() {
            Ok(cs) => cs,
            Err(e) => {
                return Err(e);
            },
        };
        let fixed_leg = match builder.build() {
            Ok(flows) => flows,
            Err(e) => {
                return Err(e);
            },
        };
        let payer = match swap_type {
            SwapType::Payer => vec![true, false],
            SwapType::Receiver => vec![false, true],
        };
        let same = same_nominals(&fixed_nominals, &floating_nominals);
        let constant = same && constant_nominals(&fixed_nominals);
        let legs = vec![fixed_leg, floating_leg];
        let swap = match Swap::new(legs, payer) {
            Ok(s) => s,
            Err(e) => {
                return Err(e);
            },
        };
        assert forall|i: int| 0 <= i < coupons@.len() implies lm.is_coupon(#[trigger] coupons@[i], i) by {}
        let s = FixedVsFloatingSwap {
            swap,
            swap_type,
            fixed_nominals,
            fixed_schedule,
            fixed_rate,
            fixed_day_count,
            fixed_coupons: coupons,
            floating_nominals,
            floating_schedule,
            ibor_index: ibor_index.copied(),
            spread,
            floating_day_count,
            payment_convention,
            fair_rate: None,
            fair_spread: None,
            constant_nominals: constant,
            same_nominals: same,
        };
        Ok(s)
    }
}

/// A copy of a list of values.
fn clone_values<R: Copy>(values: &Vec<R>) -> (r: Vec<R>)
    ensures
        r@ == values@,
{
    let mut r: Vec<R> = Vec::new();
    let mut i: usize = 0;
    while i < values.len()
        invariant
            i <= values.len(),
            r@ == values@.subrange(0, i as int),
        decreases values.len() - i,
    {
        r.push(values[i]);
        i = i + 1;
        assert(r@ =~= values@.subrange(0, i as int));
    }
    assert(values@.subrange(0, values.len() as int) =~= values@);
    r
}

impl<R: Copy> FixedVsFloatingSwap<R> {
    /// The side of the swap.
    pub fn swap_type(&self) -> (r: SwapType)
        ensures
            r == self.swap_type_spec(),
    {
        self.swap_type
    }

    /// The nominal both legs share; refused when they do not share a single
    /// one.
    pub fn nominal(&self) -> (r: Result<R, QlError>)
        ensures
            !self.constant_nominals_spec() ==> r == Err::<R, QlError>(QlError::NominalNotConstant),
            self.constant_nominals_spec() ==> r == Ok::<R, QlError>(self.fixed_nominals_spec()[0]),
    {
        proof {
            use_type_invariant(self);
        }
        if !self.constant_nominals {
            return Err(QlError::NominalNotConstant);
        }
        Ok(self.fixed_nominals[0])
    }

    /// The nominals both legs share; refused when they differ.
    pub fn nominals(&self) -> (r: Result<&Vec<R>, QlError>)
        ensures
            !self.same_nominals_spec() ==> r is Err && r == Err::<&Vec<R>, QlError>(
                QlError::NominalsDiffer,
            ),
            self.same_nominals_spec() ==> (r matches Ok(v) && v@ == self.fixed_nominals_spec()),
    {
        if !self.same_nominals {
            return Err(QlError::NominalsDiffer);
        }
        Ok(&self.fixed_nominals)
    }

    /// The nominal of each fixed coupon.
    pub fn fixed_nominals(&self) -> (r: &Vec<R>)
        ensures
            r@ == self.fixed_nominals_spec(),
    {
        &self.fixed_nominals
    }

    /// The fixed leg's schedule.
    pub fn fixed_schedule(&self) -> (r: &Schedule)
        ensures
            r@ == self.fixed_schedule_spec(),
    {
        &self.fixed_schedule
    }

    /// The fixed rate.
    pub fn fixed_rate(&self) -> (r: R)
        ensures
            r == self.fixed_rate_spec(),
    {
        self.fixed_rate
    }

    /// The fixed leg's day counter.
    pub fn fixed_day_count(&self) -> (r: DayCounter)
        ensures
            r == self.fixed_day_count_spec(),
    {
        self.fixed_day_count
    }

    /// The fixed leg's coupons.
    pub fn fixed_coupons(&self) -> (r: &Vec<FixedRateCoupon<R>>)
        ensures
            r@ == self.fixed_coupons_spec(),
    {
        &self.fixed_coupons
    }

    /// The nominal of each floating coupon.
    pub fn floating_nominals(&self) -> (r: &Vec<R>)
        ensures
            r@ == self.floating_nominals_spec(),
    {
        &self.floating_nominals
    }

    /// The floating leg's schedule.
    pub fn floating_schedule(&self) -> (r: &Schedule)
        ensures
            r@ == self.floating_schedule_spec(),
    {
        &self.floating_schedule
    }

    /// The index the floating leg pays.
    pub fn ibor_index(&self) -> (r: &IborIndex)
        ensures
            *r == self.ibor_index_spec(),
    {
        &self.ibor_index
    }

    /// The floating leg's spread.
    pub fn spread(&self) -> (r: R)
        ensures
            r == self.spread_spec(),
    {
        self.spread
    }

    /// The floating leg's day counter.
    pub fn floating_day_count(&self) -> (r: DayCounter)
        ensures
            r == self.floating_day_count_spec(),
    {
        self.floating_day_count
    }

    /// The convention the fixed leg's payments are rolled with.
    pub fn payment_convention(&self) -> (r: BusinessDayConvention)
        ensures
            r == self.payment_convention_spec(),
    {
        self.payment_convention
    }

    /// The underlying swap.
    pub fn swap(&self) -> (r: &Swap<R>)
        ensures
            *r == self.swap_spec(),
    {
        &self.swap
    }

    /// The fixed leg.
    pub fn fixed_leg(&self) -> (r: &Leg)
        ensures
            *r == self.swap_spec().legs_spec()[0],
    {
        proof {
            use_type_invariant(self);
        }
        &self.swap.legs()[0]
    }

    /// The floating leg.
    pub fn floating_leg(&self) -> (r: &Leg)
        ensures
            *r == self.swap_spec().legs_spec()[1],
    {
        proof {
            use_type_invariant(self);
        }
        &self.swap.legs()[1]
    }

    /// The fixed leg's basis-point sensitivity, as last delivered.
    pub fn fixed_leg_bps(&self) -> (r: Result<R, QlError>)
        ensures
            r == available(self.swap_spec().leg_bps_spec()[0]),
    {
        proof {
            use_type_invariant(self);
        }
        self.swap.leg_bps(0)
    }

    /// The fixed leg's value, as last delivered.
    pub fn fixed_leg_npv(&self) -> (r: Result<R, QlError>)
        ensures
            r == available(self.swap_spec().leg_npv_spec()[0]),
    {
        proof {
            use_type_invariant(self);
        }
        self.swap.leg_npv(0)
    }

    /// The floating leg's basis-point sensitivity, as last delivered.
    pub fn floating_leg_bps(&self) -> (r: Result<R, QlError>)
        ensures
            r == available(self.swap_spec().leg_bps_spec()[1]),
    {
        proof {
            use_type_invariant(self);
        }
        self.swap.leg_bps(1)
    }

    /// The floating leg's value, as last delivered.
    pub fn floating_leg_npv(&self) -> (r: Result<R, QlError>)
        ensures
            r == available(self.swap_spec().leg_npv_spec()[1]),
    {
        proof {
            use_type_invariant(self);
        }
        self.swap.leg_npv(1)
    }

    /// The fixed rate pricing the swap at par, as kept when results were
    /// last fetched: delivered by the engine or derived from its results.
    pub fn fair_rate(&self) -> (r: Result<R, QlError>)
        ensures
            r == available(self.fair_rate_spec()),
    {
        match self.fair_rate {
            Some(v) => Ok(v),
            None => Err(QlError::ResultNotAvailable),
        }
    }

    /// The floating spread pricing the swap at par, as kept when results
    /// were last fetched: delivered by the engine or derived from its results.
    pub fn fair_spread(&self) -> (r: Result<R, QlError>)
        ensures
            r == available(self.fair_spread_spec()),
    {
        match self.fair_spread {
            Some(v) => Ok(v),
            None => Err(QlError::ResultNotAvailable),
        }
    }

    /// What the fair rate is derived from when the engine delivered none
    /// but delivered the swap's value and the fixed leg's basis-point
    /// sensitivity: the fixed rate, that value and that sensitivity, the
    /// fair rate being `fixed rate − value / (sensitivity / 1e-4)`. None
    /// otherwise.
    pub fn fair_rate_inputs(&self, results: &FixedVsFloatingSwapResults<R>) -> (r: Option<(R, R, R)>)
        ensures
            r == derivation_inputs(results.fair_rate, results.swap, 0, self.fixed_rate_spec()),
    {
        if results.fair_rate.is_none() && results.swap.leg_bps.len() > 0 {
            match results.swap.value {
                Some(v) => Some((self.fixed_rate, v, results.swap.leg_bps[0])),
                None => None,
            }
        } else {
            None
        }
    }

    /// What the fair spread is derived from when the engine delivered none
    /// but delivered the swap's value and the floating leg's basis-point
    /// sensitivity: the spread, that value and that sensitivity, the fair
    /// spread being `spread − value / (sensitivity / 1e-4)`. None otherwise.
    pub fn fair_spread_inputs(&self, results: &FixedVsFloatingSwapResults<R>) -> (r: Option<(R, R, R)>)
        ensures
            r == derivation_inputs(results.fair_spread, results.swap, 1, self.spread_spec()),
    {
        if results.fair_spread.is_none() && results.swap.leg_bps.len() > 1 {
            match results.swap.value {
                Some(v) => Some((self.spread, v, results.swap.leg_bps[1])),
                None => None,
            }
        } else {
            None
        }
    }

    /// Records what a pricing engine delivered: the swap's results, then the
    /// fair rate and spread. Each is the one the engine delivered; where it
    /// delivered none but delivered the swap's value and the leg's
    /// basis-point sensitivity, the one derived from them
    /// (`derived_fair_rate` for the fixed leg, `derived_fair_spread` for the
    /// floating leg, as computed from [`fair_rate_inputs`](Self::fair_rate_inputs)
    /// and [`fair_spread_inputs`](Self::fair_spread_inputs)); else none.
    /// Refused as the swap's results are, the fair values then unchanged.
    pub fn fetch_results(
        &mut self,
        results: &FixedVsFloatingSwapResults<R>,
        derived_fair_rate: Option<R>,
        derived_fair_spread: Option<R>,
    ) -> (r: Result<(), QlError>)
        ensures
            r is Ok <==> results_error(old(self).swap_spec().legs_spec().len() as int, results.swap) is None,
            r is Err ==> r == Err::<(), QlError>(
                results_error(old(self).swap_spec().legs_spec().len() as int, results.swap).unwrap(),
            ),
            r is Ok ==> final(self).swap_spec().has_fetched(old(self).swap_spec(), results.swap),
            r is Err ==> final(self).swap_spec().is_unchanged_from(old(self).swap_spec()),
            r is Ok ==> final(self).fair_rate_spec() == fair_value_kept(
                results.fair_rate,
                results.swap,
                0,
                derived_fair_rate,
            ) && final(self).fair_spread_spec() == fair_value_kept(
                results.fair_spread,
                results.swap,
                1,
                derived_fair_spread,
            ),
            r is Err ==> final(self).fair_rate_spec() == old(self).fair_rate_spec()
                && final(self).fair_spread_spec() == old(self).fair_spread_spec(),
            final(self).swap_type_spec() == old(self).swap_type_spec(),
            final(self).fixed_nominals_spec() == old(self).fixed_nominals_spec(),
            final(self).floating_nominals_spec() == old(self).floating_nominals_spec(),
            final(self).swap_spec().legs_spec() == old(self).swap_spec().legs_spec(),
    {
        proof {
            use_type_invariant(&*self);
        }
        let mut swap: Swap<R> = Swap::two_leg(Vec::new(), Vec::new());
        std::mem::swap(&mut swap, &mut self.swap);
        let fetched = swap.fetch_results(&results.swap);
        std::mem::swap(&mut swap, &mut self.swap);
        match fetched {
            Ok(()) => {},
            Err(e) => {
                return Err(e);
            },
        }
        self.fair_rate = keep_fair_value(results.fair_rate, &results.swap, 0, derived_fair_rate);
        self.fair_spread = keep_fair_value(results.fair_spread, &results.swap, 1, derived_fair_spread);
        Ok(())
    }
}

impl<R: Copy + From<i32>> FixedVsFloatingSwap<R> {
    /// Whether `a` carries what the swap itself decides: its legs and their
    /// signs, its side, its nominal when constant, and the accrual start,
    /// payment date and nominal of each fixed coupon, with no fixed coupon
    /// amount.
    pub open spec fn has_fixed_arguments(&self, a: FixedVsFloatingSwapArguments<R>) -> bool {
        &&& a.swap.legs@.len() == self.swap_spec().legs_spec().len()
        &&& forall|j: int|
            0 <= j < self.swap_spec().legs_spec().len() ==> (#[trigger] a.swap.legs@[j])@
                == self.swap_spec().legs_spec()[j]@
        &&& a.swap.payer@.len() == self.swap_spec().payer_spec().len()
        &&& forall|j: int|
            0 <= j < self.swap_spec().payer_spec().len() ==> call_ensures(
                <R as From<i32>>::from,
                (if self.swap_spec().payer_spec()[j] {
                    -1i32
                } else {
                    1i32
                },),
                #[trigger] a.swap.payer@[j],
            )
        &&& a.swap_type == Some(self.swap_type_spec())
        &&& a.nominal == if self.constant_nominals_spec() {
            Some(self.fixed_nominals_spec()[0])
        } else {
            None
        }
        &&& a.fixed_reset_dates@.len() == self.fixed_coupons_spec().len()
        &&& a.fixed_pay_dates@.len() == self.fixed_coupons_spec().len()
        &&& a.fixed_nominals@.len() == self.fixed_coupons_spec().len()
        &&& forall|i: int|
            0 <= i < self.fixed_coupons_spec().len() ==> {
                let c = #[trigger] self.fixed_coupons_spec()[i];
                &&& a.fixed_reset_dates@[i] == c.coupon.accrual_start_date
                &&& a.fixed_pay_dates@[i] == c.coupon.payment_date
                &&& a.fixed_nominals@[i] == c.coupon.nominal
            }
        &&& a.fixed_coupons@.len() == 0
    }

    /// Fills `arguments` for a pricing engine with what the swap itself
    /// decides: its legs and their signs, its side, its nominal when
    /// constant, and the accrual start, payment date and nominal of each
    /// fixed coupon. The fixed coupon amounts, which accrue the rate over
    /// the coupon's year fraction, are cleared for the engine's side to
    /// fill; the floating lists are the swap kind's to fill.
    pub fn setup_arguments(&self, arguments: &mut FixedVsFloatingSwapArguments<R>)
        ensures
            self.has_fixed_arguments(*final(arguments)),
            final(arguments).floating_nominals@ == old(arguments).floating_nominals@,
            final(arguments).floating_reset_dates@ == old(arguments).floating_reset_dates@,
            final(arguments).floating_fixing_dates@ == old(arguments).floating_fixing_dates@,
            final(arguments).floating_pay_dates@ == old(arguments).floating_pay_dates@,
            final(arguments).floating_accrual_times@ == old(arguments).floating_accrual_times@,
            final(arguments).floating_spreads@ == old(arguments).floating_spreads@,
            final(arguments).floating_coupons@ == old(arguments).floating_coupons@,
    {
        proof {
            use_type_invariant(self);
        }
        self.swap.setup_arguments(&mut arguments.swap);
        arguments.swap_type = Some(self.swap_type);
        arguments.nominal = if self.constant_nominals {
            Some(self.fixed_nominals[0])
        } else {
            None
        };
        let n = self.fixed_coupons.len();
        let mut reset: Vec<Date> = Vec::new();
        let mut pay: Vec<Date> = Vec::new();
        let mut nominals: Vec<R> = Vec::new();
        let mut i: usize = 0;
        while i < n
            invariant
                n == self.fixed_coupons@.len(),
                i <= n,
                reset@.len() == i,
                pay@.len() == i,
                nominals@.len() == i,
                forall|k: int|
                    0 <= k < i ==> {
                        let c = #[trigger] self.fixed_coupons@[k];
                        &&& reset@[k] == c.coupon.accrual_start_date
                        &&& pay@[k] == c.coupon.payment_date
                        &&& nominals@[k] == c.coupon.nominal
                    },
            decreases n - i,
        {
            let c = self.fixed_coupons[i];
            reset.push(c.coupon.accrual_start_date);
            pay.push(c.coupon.payment_date);
            nominals.push(c.coupon.nominal);
            i = i + 1;
        }
        arguments.fixed_reset_dates = reset;
        arguments.fixed_pay_dates = pay;
        arguments.fixed_nominals = nominals;
        arguments.fixed_coupons = Vec::new();
    }
}

} // verus!
