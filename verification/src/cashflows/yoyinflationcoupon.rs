//! Coupons paying a year-on-year inflation index.
use vstd::prelude::*;

use crate::cashflows::coupon::CouponBase;
use crate::indexes::inflationindex::CpiInterpolationType;
use crate::time::calendar::{BusinessDayConvention, Calendar, advance_spec, null_calendar_spec};
use crate::time::date::{Date, advance_ok, serial_advanced};
use crate::time::daycounter::DayCounter;
use crate::time::period::{Period, TimeUnit};

verus! {

/// A coupon paying a year-on-year inflation index, observed some time
/// before the end of its reference period, times a gearing, plus a spread.
///
/// The index is carried as the caller represents it. A missing gearing is
/// the unit gearing and a missing spread no spread: the coupon only carries
/// them.
pub struct YoYInflationCoupon<R, I> {
    /// The coupon's dates and nominal.
    pub coupon: CouponBase<R>,
    /// The index the coupon pays.
    pub yoy_index: I,
    /// How long before the reference-period end the index is observed.
    pub observation_lag: Period,
    /// How the observation interpolates between fixings.
    pub interpolation: CpiInterpolationType,
    /// The business days between the fixing and the observation.
    pub fixing_days: u32,
    /// The day counter the coupon accrues with.
    pub day_counter: DayCounter,
    /// The gearing applied to the index, when not the unit one.
    pub gearing: Option<R>,
    /// The spread over the geared index, when there is one.
    pub spread: Option<R>,
}

impl<R, I> YoYInflationCoupon<R, I> {
    /// The observation date: the observation lag before the end of the
    /// reference period.
    pub open spec fn observation_serial(self) -> int {
        serial_advanced(
            self.coupon.ref_period_end@,
            -self.observation_lag.length_spec(),
            self.observation_lag.units_spec(),
        )
    }

    /// The coupon's fixing date: the fixing days back from the observation
    /// date on a calendar without holidays, rolled with `ModifiedPreceding`;
    /// `None` outside the supported range.
    pub open spec fn fixing_date_spec(self) -> Option<int> {
        advance_spec(
            null_calendar_spec(),
            self.observation_serial(),
            -(self.fixing_days as int),
            TimeUnit::Days,
            BusinessDayConvention::ModifiedPreceding,
            false,
        )
    }

    /// Whether the coupon's fixing date is in the supported range.
    pub open spec fn fixing_date_defined(self) -> bool {
        &&& self.coupon.ref_period_end.wf()
        &&& self.observation_lag.length_spec() > i32::MIN
        &&& advance_ok(
            self.coupon.ref_period_end@,
            -self.observation_lag.length_spec(),
            self.observation_lag.units_spec(),
        )
        &&& self.fixing_days <= i32::MAX
        &&& self.fixing_date_spec() is Some
    }
}

impl<R: Copy, I> YoYInflationCoupon<R, I> {
    /// A coupon over `yoy_index`, paid on `payment_date`, accruing `nominal`
    /// from `accrual_start_date` to `accrual_end_date`; missing
    /// reference-period bounds are the accrual dates.
    pub fn new(
        payment_date: Date,
        nominal: R,
        accrual_start_date: Date,
        accrual_end_date: Date,
        fixing_days: u32,
        yoy_index: I,
        observation_lag: Period,
        interpolation: CpiInterpolationType,
        day_counter: DayCounter,
        gearing: Option<R>,
        spread: Option<R>,
        ref_period_start: Option<Date>,
        ref_period_end: Option<Date>,
    ) -> (r: YoYInflationCoupon<R, I>)
        ensures
            r.coupon == (CouponBase::<R> {
                payment_date,
                nominal,
                accrual_start_date,
                accrual_end_date,
                ref_period_start: (match ref_period_start {
                    Some(d) => d,
                    None => accrual_start_date,
                }),
                ref_period_end: (match ref_period_end {
                    Some(d) => d,
                    None => accrual_end_date,
                }),
                ex_coupon_date: None,
            }),
            r.yoy_index == yoy_index,
            r.observation_lag == observation_lag,
            r.interpolation == interpolation,
            r.fixing_days == fixing_days,
            r.day_counter == day_counter,
            r.gearing == gearing,
            r.spread == spread,
    {
        let coupon = CouponBase::new(
            payment_date,
            nominal,
            accrual_start_date,
            accrual_end_date,
            ref_period_start,
            ref_period_end,
            None,
        );
        YoYInflationCoupon {
            coupon,
            yoy_index,
            observation_lag,
            interpolation,
            fixing_days,
            day_counter,
            gearing,
            spread,
        }
    }

    /// A copy of the coupon, with a clone of its index.
    pub fn copied(&self) -> (r: YoYInflationCoupon<R, I>) where I: Clone
        ensures
            r.coupon == self.coupon,
            cloned(self.yoy_index, r.yoy_index),
            r.observation_lag == self.observation_lag,
            r.interpolation == self.interpolation,
            r.fixing_days == self.fixing_days,
            r.day_counter == self.day_counter,
            r.gearing == self.gearing,
            r.spread == self.spread,
    {
        YoYInflationCoupon {
            coupon: self.coupon,
            yoy_index: self.yoy_index.clone(),
            observation_lag: self.observation_lag,
            interpolation: self.interpolation,
            fixing_days: self.fixing_days,
            day_counter: self.day_counter,
            gearing: self.gearing,
            spread: self.spread,
        }
    }

    /// The index the coupon pays.
    pub fn yoy_index(&self) -> (r: &I)
        ensures
            r == &self.yoy_index,
    {
        &self.yoy_index
    }

    /// How long before the reference-period end the index is observed.
    pub fn observation_lag(&self) -> (r: Period)
        ensures
            r == self.observation_lag,
    {
        self.observation_lag
    }

    /// How the observation interpolates between fixings.
    pub fn interpolation(&self) -> (r: CpiInterpolationType)
        ensures
            r == self.interpolation,
    {
        self.interpolation
    }

    /// The business days between the fixing and the observation.
    pub fn fixing_days(&self) -> (r: u32)
        ensures
            r == self.fixing_days,
    {
        self.fixing_days
    }

    /// The gearing, when not the unit one.
    pub fn gearing(&self) -> (r: Option<R>)
        ensures
            r == self.gearing,
    {
        self.gearing
    }

    /// The spread, when there is one.
    pub fn spread(&self) -> (r: Option<R>)
        ensures
            r == self.spread,
    {
        self.spread
    }

    /// The coupon's fixing date: the fixing days back from the observation
    /// date on the index's fixing calendar, which has no holidays.
    pub fn fixing_date(&self) -> (r: Date)
        requires
            self.fixing_date_defined(),
        ensures
            r@ == self.fixing_date_spec().unwrap(),
            r.wf(),
    {
        let calendar = Calendar::null();
        let observed = self.coupon.ref_period_end.sub_period(self.observation_lag);
        calendar.advance(
            observed,
            -(self.fixing_days as i32),
            TimeUnit::Days,
            BusinessDayConvention::ModifiedPreceding,
            false,
        )
    }
}

} // verus!
