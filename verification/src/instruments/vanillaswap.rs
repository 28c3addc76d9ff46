//! Plain-vanilla swaps: a fixed leg against an ibor leg on one nominal.
use vstd::prelude::*;

use crate::cashflows::fixedrateleg::fixed_dates_defined;
use crate::cashflows::iborcoupon::IborCoupon;
use crate::cashflows::iborleg::{IborLeg, floating_coupon_serials};
use crate::errors::QlError;
use crate::indexes::iborindex::IborIndex;
use crate::instruments::fixedvsfloatingswap::{
    FixedVsFloatingSwap, FixedVsFloatingSwapArguments, resolved_convention,
};
use crate::instruments::swap::SwapType;
use crate::time::calendar::BusinessDayConvention;
use crate::time::date::Date;
use crate::time::daycounter::DayCounter;
use crate::time::schedule::Schedule;

verus! {

/// A swap exchanging a fixed rate for an ibor index plus a spread, both
/// legs on one nominal.
pub struct VanillaSwap<R> {
    base: FixedVsFloatingSwap<R>,
    floating_coupons: Vec<IborCoupon<R>>,
}

impl<R> VanillaSwap<R> {
    /// The swap as a fixed-versus-floating swap.
    pub closed spec fn base_spec(&self) -> FixedVsFloatingSwap<R> {
        self.base
    }

    /// The floating leg's coupons.
    pub closed spec fn floating_coupons_spec(&self) -> Seq<IborCoupon<R>> {
        self.floating_coupons@
    }
}

impl<R: Copy + PartialEq + From<u32>> VanillaSwap<R> {
    /// A swap paying (for a payer swap) or receiving `fixed_rate` over
    /// `fixed_schedule` against `ibor_index` plus `spread` over
    /// `float_schedule`, both on `nominal`; payments are rolled with the
    /// given convention or the floating schedule's.
    ///
    /// Refused when either schedule spans no period.
    pub fn new(
        swap_type: SwapType,
        nominal: R,
        fixed_schedule: Schedule,
        fixed_rate: R,
        fixed_day_count: DayCounter,
        float_schedule: Schedule,
        ibor_index: IborIndex,
        spread: R,
        floating_day_count: DayCounter,
        payment_convention: Option<BusinessDayConvention>,
    ) -> (r: Result<VanillaSwap<R>, QlError>)
        requires
            float_schedule@.wf(),
            forall|i: int|
                0 <= i < float_schedule@.dates.len() - 1 ==> (#[trigger] floating_coupon_serials(
                    float_schedule@,
                    float_schedule@.convention,
                    float_schedule@.calendar,
                    0,
                    resolved_convention(payment_convention, float_schedule@),
                    None,
                    i,
                )) is Some,
            fixed_dates_defined(
                fixed_schedule@,
                fixed_schedule@.calendar,
                0,
                resolved_convention(payment_convention, float_schedule@),
                None,
            ),
        ensures
            r is Ok <==> (float_schedule@.dates.len() >= 2 && fixed_schedule@.dates.len() >= 2),
            r is Err ==> r == Err::<VanillaSwap<R>, QlError>(QlError::ScheduleTooShort),
            r matches Ok(s) ==> ({
                let base = s.base_spec();
                let conv = resolved_convention(payment_convention, float_schedule@);
                let n = float_schedule@.dates.len() - 1;
                &&& base.swap_type_spec() == swap_type
                &&& base.fixed_nominals_spec() == seq![nominal]
                &&& base.floating_nominals_spec() == seq![nominal]
                &&& base.fixed_schedule_spec() == fixed_schedule@
                &&& base.floating_schedule_spec() == float_schedule@
                &&& base.fixed_rate_spec() == fixed_rate
                &&& base.fixed_day_count_spec() == fixed_day_count
                &&& base.spread_spec() == spread
                &&& base.floating_day_count_spec() == floating_day_count
                &&& base.payment_convention_spec() == conv
                &&& base.ibor_index_spec().same_terms(&ibor_index)
                &&& s.floating_coupons_spec().len() == n
                &&& base.swap_spec().legs_spec()[1]@.len() == n
                &&& forall|i: int|
                    0 <= i < n ==> {
                        let c = #[trigger] s.floating_coupons_spec()[i];
                        let serials = floating_coupon_serials(
                            float_schedule@,
                            float_schedule@.convention,
                            float_schedule@.calendar,
                            0,
                            conv,
                            None,
                            i,
                        ).unwrap();
                        let f = base.swap_spec().legs_spec()[1]@[i];
                        &&& c.coupon.has_serials(serials)
                        &&& c.coupon.nominal == nominal
                        &&& c.index.same_terms(&ibor_index)
                        &&& c.fixing_days == ibor_index.fixing_days_spec()
                        &&& c.gearing is None
                        &&& c.spread == Some(spread)
                        &&& c.day_counter == floating_day_count
                        &&& f.date@ == serials.payment
                        &&& f.accrual matches Some(a) && a.start@ == serials.start && a.end@
                            == serials.end
                    }
            }),
    {
        let convention = match payment_convention {
            Some(c) => c,
            None => float_schedule.business_day_convention(),
        };
        let builder: IborLeg<R> = IborLeg::new(float_schedule.copied(), ibor_index.copied());
        let builder = builder.with_notionals(vec![nominal]);
        let builder = builder.with_payment_day_counter(floating_day_count);
        let builder = builder.with_payment_adjustment(convention);
        let builder = builder.with_spreads(vec![spread]);
        let ghost lm = builder@;
        let coupons = match builder.coupons() {
            Ok(cs) => cs,
            Err(e) => {
                return Err(e);
            },
        };
        let floating_leg = match builder.build() {
            Ok(flows) => flows,
            Err(e) => {
                return Err(e);
            },
        };
        let ghost float_leg = floating_leg;
        let base = match FixedVsFloatingSwap::new(
            swap_type,
            vec![nominal],
            fixed_schedule,
            fixed_rate,
            Some(fixed_day_count),
            vec![nominal],
            float_schedule,
            ibor_index,
            spread,
            floating_day_count,
            payment_convention,
            0,
            None,
            floating_leg,
        ) {
            Ok(b) => b,
            Err(e) => {
                return Err(e);
            },
        };
        assert forall|i: int| 0 <= i < coupons@.len() implies lm.is_coupon(#[trigger] coupons@[i], i) by {}
        Ok(VanillaSwap { base, floating_coupons: coupons })
    }

    /// The swap as a fixed-versus-floating swap.
    pub fn fixed_vs_floating(&self) -> (r: &FixedVsFloatingSwap<R>)
        ensures
            *r == self.base_spec(),
    {
        &self.base
    }

    /// The swap as a fixed-versus-floating swap, to record the results a
    /// pricing engine delivered.
    pub fn fixed_vs_floating_mut(&mut self) -> (r: &mut FixedVsFloatingSwap<R>)
        ensures
            *r == old(self).base_spec(),
            final(self).base_spec() == *final(r),
            final(self).floating_coupons_spec() == old(self).floating_coupons_spec(),
    {
        &mut self.base
    }

    /// The floating leg's coupons.
    pub fn floating_coupons(&self) -> (r: &Vec<IborCoupon<R>>)
        ensures
            r@ == self.floating_coupons_spec(),
    {
        &self.floating_coupons
    }
}

impl<R: Copy> VanillaSwap<R> {
    /// Whether every floating coupon's fixing date is in the supported
    /// range.
    pub open spec fn fixing_dates_defined(&self) -> bool {
        forall|i: int|
            0 <= i < self.floating_coupons_spec().len() ==> {
                let c = #[trigger] self.floating_coupons_spec()[i];
                &&& c.fixing_reference().wf()
                &&& c.fixing_days <= i32::MAX
                &&& c.fixing_date_spec() is Some
            }
    }
}

impl<R: Copy + From<i32>> VanillaSwap<R> {
    /// Fills `arguments` for a pricing engine: what the swap decides as a
    /// fixed-versus-floating swap, then the accrual start, payment date,
    /// nominal and fixing date of each floating coupon, with the swap's
    /// spread for each. The accrual times and floating coupon amounts, which
    /// take year fractions and fixings, are cleared for the engine's side to
    /// fill.
    pub fn setup_arguments(&self, arguments: &mut FixedVsFloatingSwapArguments<R>)
        requires
            self.fixing_dates_defined(),
        ensures
            self.base_spec().has_fixed_arguments(*final(arguments)),
            final(arguments).floating_reset_dates@.len() == self.floating_coupons_spec().len(),
            final(arguments).floating_pay_dates@.len() == self.floating_coupons_spec().len(),
            final(arguments).floating_nominals@.len() == self.floating_coupons_spec().len(),
            final(arguments).floating_fixing_dates@.len() == self.floating_coupons_spec().len(),
            final(arguments).floating_spreads@.len() == self.floating_coupons_spec().len(),
            forall|i: int|
                0 <= i < self.floating_coupons_spec().len() ==> {
                    let c = #[trigger] self.floating_coupons_spec()[i];
                    &&& final(arguments).floating_reset_dates@[i] == c.coupon.accrual_start_date
                    &&& final(arguments).floating_pay_dates@[i] == c.coupon.payment_date
                    &&& final(arguments).floating_nominals@[i] == c.coupon.nominal
                    &&& final(arguments).floating_fixing_dates@[i]@ == c.fixing_date_spec().unwrap()
                    &&& final(arguments).floating_spreads@[i] == self.base_spec().spread_spec()
                },
            final(arguments).floating_accrual_times@.len() == 0,
            final(arguments).floating_coupons@.len() == 0,
    {
        self.base.setup_arguments(arguments);
        let n = self.floating_coupons.len();
        let spread = self.base.spread();
        let mut reset: Vec<Date> = Vec::new();
        let mut pay: Vec<Date> = Vec::new();
        let mut nominals: Vec<R> = Vec::new();
        let mut fixings: Vec<Date> = Vec::new();
        let mut spreads: Vec<R> = Vec::new();
        let mut i: usize = 0;
        while i < n
            invariant
                n == self.floating_coupons@.len(),
                self.fixing_dates_defined(),
                spread == self.base_spec().spread_spec(),
                i <= n,
                reset@.len() == i,
                pay@.len() == i,
                nominals@.len() == i,
                fixings@.len() == i,
                spreads@.len() == i,
                forall|k: int|
                    0 <= k < i ==> {
                        let c = #[trigger] self.floating_coupons@[k];
                        &&& reset@[k] == c.coupon.accrual_start_date
                        &&& pay@[k] == c.coupon.payment_date
                        &&& nominals@[k] == c.coupon.nominal
                        &&& fixings@[k]@ == c.fixing_date_spec().unwrap()
                        &&& spreads@[k] == spread
                    },
            decreases n - i,
        {
            let c = &self.floating_coupons[i];
            assert(self.floating_coupons_spec()[i as int] == *c);
            reset.push(c.coupon.accrual_start_date);
            pay.push(c.coupon.payment_date);
            nominals.push(c.coupon.nominal);
            fixings.push(c.fixing_date());
            spreads.push(spread);
            i = i + 1;
        }
        arguments.floating_reset_dates = reset;
        arguments.floating_pay_dates = pay;
        arguments.floating_nominals = nominals;
        arguments.floating_fixing_dates = fixings;
        arguments.floating_spreads = spreads;
        arguments.floating_accrual_times = Vec::new();
        arguments.floating_coupons = Vec::new();
    }
}

} // verus!
