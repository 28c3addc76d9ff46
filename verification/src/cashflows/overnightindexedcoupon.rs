//! Coupons paying the daily overnight rate compounded over their period.
use vstd::prelude::*;

use crate::cashflows::coupon::{CouponBase, is_zero_amount, may_be_nonzero, may_be_zero};
use crate::errors::QlError;
use crate::indexes::iborindex::OvernightIndex;
use crate::time::date::Date;
use crate::time::daycounter::DayCounter;

verus! {

/// How the daily overnight fixings of a coupon are averaged.
#[derive(Clone, Copy, Debug, PartialEq, Eq, Structural, Hash)]
pub enum RateAveraging {
    /// The fixings are averaged arithmetically.
    Simple,
    /// The fixings are compounded.
    Compound,
}

/// A coupon paying an overnight index compounded daily over its accrual
/// period, times a gearing, plus a spread.
///
/// A missing gearing is the unit gearing and a missing spread no spread:
/// the coupon only carries them.
pub struct OvernightIndexedCoupon<R> {
    /// The coupon's dates and nominal.
    pub coupon: CouponBase<R>,
    /// The index the coupon pays.
    pub index: OvernightIndex,
    /// The gearing applied to the compounded rate, when not the unit one.
    pub gearing: Option<R>,
    /// The spread, when there is one.
    pub spread: Option<R>,
    /// The day counter the coupon accrues with.
    pub day_counter: DayCounter,
    /// How the fixings are averaged.
    pub averaging_method: RateAveraging,
    /// Whether the spread is compounded with each daily fixing rather than
    /// added after compounding.
    pub compound_spread_daily: bool,
}

/// The error an overnight coupon refuses to build with, if any, checked in
/// this order: an accrual start not before its end, a payment before the
/// accrual end, and simple averaging, which the coupon does not compute.
pub open spec fn overnight_coupon_error(
    payment_date: int,
    start_date: int,
    end_date: int,
    averaging_method: RateAveraging,
) -> Option<QlError> {
    if !(start_date < end_date) {
        Some(QlError::StartNotBeforeEnd)
    } else if payment_date < end_date {
        Some(QlError::PaymentBeforeAccrualEnd)
    } else if averaging_method is Simple {
        Some(QlError::SimpleAveraging)
    } else {
        None
    }
}

impl<R: Copy> OvernightIndexedCoupon<R> {
    /// A coupon over `index`, paid on `payment_date`, accruing `nominal`
    /// from `start_date` to `end_date`. A missing day counter is the
    /// index's; missing reference-period bounds are the accrual dates.
    /// After the date and averaging checks, a gearing equal to zero is
    /// refused.
    pub fn new(
        payment_date: Date,
        nominal: R,
        start_date: Date,
        end_date: Date,
        index: OvernightIndex,
        gearing: Option<R>,
        spread: Option<R>,
        ref_period_start: Option<Date>,
        ref_period_end: Option<Date>,
        day_counter: Option<DayCounter>,
        averaging_method: RateAveraging,
        compound_spread_daily: bool,
        ex_coupon_date: Option<Date>,
    ) -> (r: Result<OvernightIndexedCoupon<R>, QlError>) where R: PartialEq + From<u32>
        ensures
            ({
                let error = overnight_coupon_error(payment_date@, start_date@, end_date@, averaging_method);
                &&& error is Some ==> r == Err::<OvernightIndexedCoupon<R>, QlError>(error.unwrap())
                &&& error is None && gearing is None ==> r is Ok
                &&& error is None && r is Err ==> r == Err::<OvernightIndexedCoupon<R>, QlError>(
                    QlError::NullGearing,
                ) && may_be_zero(gearing.unwrap())
                &&& r is Ok ==> error is None && (gearing matches Some(g) ==> may_be_nonzero(g))
            }),
            r matches Ok(c) ==> ({
                &&& c.coupon == (CouponBase::<R> {
                    payment_date,
                    nominal,
                    accrual_start_date: start_date,
                    accrual_end_date: end_date,
                    ref_period_start: (match ref_period_start {
                        Some(d) => d,
                        None => start_date,
                    }),
                    ref_period_end: (match ref_period_end {
                        Some(d) => d,
                        None => end_date,
                    }),
                    ex_coupon_date,
                })
                &&& c.index.ibor_spec().same_terms(&index.ibor_spec())
                &&& c.gearing == gearing
                &&& c.spread == spread
                &&& c.day_counter == (match day_counter {
                    Some(dc) => dc,
                    None => index.ibor_spec().day_counter_spec(),
                })
                &&& c.averaging_method == averaging_method
                &&& c.compound_spread_daily == compound_spread_daily
            }),
    {
        if !start_date.is_before(&end_date) {
            return Err(QlError::StartNotBeforeEnd);
        }
        if payment_date.is_before(&end_date) {
            return Err(QlError::PaymentBeforeAccrualEnd);
        }
        match averaging_method {
            RateAveraging::Simple => {
                return Err(QlError::SimpleAveraging);
            },
            RateAveraging::Compound => {},
        }
        if let Some(g) = &gearing {
            if is_zero_amount(g) {
                return Err(QlError::NullGearing);
            }
        }
        let coupon = CouponBase::new(
            payment_date,
            nominal,
            start_date,
            end_date,
            ref_period_start,
            ref_period_end,
            ex_coupon_date,
        );
        let day_counter = match day_counter {
            Some(dc) => dc,
            None => index.ibor_index().day_counter(),
        };
        Ok(
            OvernightIndexedCoupon {
                coupon,
                index: index.copied(),
                gearing,
                spread,
                day_counter,
                averaging_method,
                compound_spread_daily,
            },
        )
    }

    /// The index the coupon pays.
    pub fn overnight_index(&self) -> (r: &OvernightIndex)
        ensures
            r == &self.index,
    {
        &self.index
    }

    /// How the fixings are averaged.
    pub fn averaging_method(&self) -> (r: RateAveraging)
        ensures
            r == self.averaging_method,
    {
        self.averaging_method
    }

    /// Whether the spread is compounded with each daily fixing.
    pub fn compound_spread_daily(&self) -> (r: bool)
        ensures
            r == self.compound_spread_daily,
    {
        self.compound_spread_daily
    }
}

} // verus!
