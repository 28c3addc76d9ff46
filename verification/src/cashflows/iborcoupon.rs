//! Coupons paying an interbank-offered-rate index.
use vstd::prelude::*;

use crate::cashflows::coupon::{CouponBase, is_zero_amount, may_be_nonzero, may_be_zero};
use crate::errors::QlError;
use crate::indexes::fixings::FixingStore;
use crate::indexes::iborindex::IborIndex;
use crate::settings::Settings;
use crate::time::calendar::{BusinessDayConvention, advance_spec};
use crate::time::date::Date;
use crate::time::daycounter::DayCounter;
use crate::time::period::TimeUnit;

verus! {

/// A coupon paying an ibor index fixed some business days before its
/// accrual starts (or, in arrears, before it ends), times a gearing, plus a
/// spread.
///
/// A missing gearing is the unit gearing and a missing spread no spread:
/// the coupon only carries them.
pub struct IborCoupon<R> {
    /// The coupon's dates and nominal.
    pub coupon: CouponBase<R>,
    /// The index the coupon pays.
    pub index: IborIndex,
    /// The business days between the fixing and the reference date.
    pub fixing_days: u32,
    /// The gearing applied to the fixing, when not the unit one.
    pub gearing: Option<R>,
    /// The spread over the geared fixing, when there is one.
    pub spread: Option<R>,
    /// The day counter the coupon accrues with.
    pub day_counter: DayCounter,
    /// Whether the index fixes at the end of the accrual period.
    pub is_in_arrears: bool,
    /// The convention the fixing date is rolled with.
    pub fixing_convention: BusinessDayConvention,
}

impl<R> IborCoupon<R> {
    /// The date the fixing is counted back from: the accrual end in
    /// arrears, the accrual start otherwise.
    pub open spec fn fixing_reference(self) -> Date {
        if self.is_in_arrears {
            self.coupon.accrual_end_date
        } else {
            self.coupon.accrual_start_date
        }
    }

    /// The coupon's fixing date: the fixing days back from the reference
    /// date on the index's fixing calendar; `None` outside the supported
    /// range.
    pub open spec fn fixing_date_spec(self) -> Option<int> {
        advance_spec(
            self.index.fixing_calendar_spec(),
            self.fixing_reference()@,
            -(self.fixing_days as int),
            TimeUnit::Days,
            self.fixing_convention,
            false,
        )
    }
}

impl<R: Copy> IborCoupon<R> {
    /// A coupon over `index`, paid on `payment_date`, accruing `nominal`
    /// from `accrual_start_date` to `accrual_end_date`. Missing fixing days
    /// and day counter are the index's; missing reference-period bounds are
    /// the accrual dates. A gearing equal to zero is refused.
    pub fn new(
        payment_date: Date,
        nominal: R,
        accrual_start_date: Date,
        accrual_end_date: Date,
        fixing_days: Option<u32>,
        index: IborIndex,
        gearing: Option<R>,
        spread: Option<R>,
        ref_period_start: Option<Date>,
        ref_period_end: Option<Date>,
        day_counter: Option<DayCounter>,
        is_in_arrears: bool,
        ex_coupon_date: Option<Date>,
        fixing_convention: BusinessDayConvention,
    ) -> (r: Result<IborCoupon<R>, QlError>) where R: PartialEq + From<u32>
        ensures
            match gearing {
                None => r is Ok,
                Some(g) => (r is Err ==> may_be_zero(g)) && (r is Ok ==> may_be_nonzero(g)),
            },
            r is Err ==> r == Err::<IborCoupon<R>, QlError>(QlError::NullGearing),
            r matches Ok(c) ==> ({
                &&& c.coupon == (CouponBase::<R> {
                    payment_date,
                    nominal,
                    accrual_start_date,
                    accrual_end_date,
                    ref_period_start: (match ref_period_start {
                        Some(d) => d,
                        None => accrual_start_date,
                    }),
                    ref_period_end: (match ref_period_end {
                        Some(d) => d,
                        None => accrual_end_date,
                    }),
                    ex_coupon_date,
                })
                &&& c.index.same_terms(&index)
                &&& c.fixing_days == (match fixing_days {
                    Some(n) => n,
                    None => index.fixing_days_spec(),
                })
                &&& c.gearing == gearing
                &&& c.spread == spread
                &&& c.day_counter == (match day_counter {
                    Some(dc) => dc,
                    None => index.day_counter_spec(),
                })
                &&& c.is_in_arrears == is_in_arrears
                &&& c.fixing_convention == fixing_convention
            }),
    {
        if let Some(g) = &gearing {
            if is_zero_amount(g) {
                return Err(QlError::NullGearing);
            }
        }
        let coupon = CouponBase::new(
            payment_date,
            nominal,
            accrual_start_date,
            accrual_end_date,
            ref_period_start,
            ref_period_end,
            ex_coupon_date,
        );
        let fixing_days = match fixing_days {
            Some(n) => n,
            None => index.fixing_days(),
        };
        let day_counter = match day_counter {
            Some(dc) => dc,
            None => index.day_counter(),
        };
        let index = index.copied();
        Ok(
            IborCoupon {
                coupon,
                index,
                fixing_days,
                gearing,
                spread,
                day_counter,
                is_in_arrears,
                fixing_convention,
            },
        )
    }

    /// The index the coupon pays.
    pub fn ibor_index(&self) -> (r: &IborIndex)
        ensures
            r == &self.index,
    {
        &self.index
    }

    /// The coupon's fixing date.
    pub fn fixing_date(&self) -> (r: Date)
        requires
            self.fixing_reference().wf(),
            self.fixing_days <= i32::MAX,
            self.fixing_date_spec() is Some,
        ensures
            r@ == self.fixing_date_spec().unwrap(),
            r.wf(),
    {
        let reference = if self.is_in_arrears {
            self.coupon.accrual_end_date
        } else {
            self.coupon.accrual_start_date
        };
        self.index.fixing_calendar().advance(
            reference,
            -(self.fixing_days as i32),
            TimeUnit::Days,
            self.fixing_convention,
            false,
        )
    }

    /// Whether the coupon's fixing is determined: not when its fixing date
    /// is after the evaluation date; always when before it, or on it when
    /// the settings enforce today's historic fixings; and otherwise when
    /// `store` holds a fixing of the index on that date. An error without
    /// an evaluation date.
    pub fn has_fixed(&self, settings: &Settings, store: &FixingStore<R>) -> (r: Result<
        bool,
        QlError,
    >)
        requires
            self.fixing_reference().wf(),
            self.fixing_days <= i32::MAX,
            self.fixing_date_spec() is Some,
        ensures
            settings.evaluation_date is None ==> r == Err::<bool, QlError>(
                QlError::NoCouponReferenceDate,
            ),
            settings.evaluation_date matches Some(today) ==> ({
                let f = self.fixing_date_spec().unwrap();
                r == Ok::<bool, QlError>(
                    if f > today@ {
                        false
                    } else if f < today@ || settings.enforces_todays_historic_fixings {
                        true
                    } else {
                        store.fixing_spec(self.index.key(), f) is Some
                    },
                )
            }),
    {
        let today = match settings.evaluation_date {
            Some(t) => t,
            None => {
                return Err(QlError::NoCouponReferenceDate);
            },
        };
        let fixing_date = self.fixing_date();
        if today.is_before(&fixing_date) {
            Ok(false)
        } else if fixing_date.is_before(&today) || settings.enforces_todays_historic_fixings {
            Ok(true)
        } else {
            Ok(self.index.has_historical_fixing(store, fixing_date))
        }
    }

    /// The index fixing at the coupon's fixing date, as far as the history
    /// decides it: the index's [`fixing`](IborIndex::fixing) on that date,
    /// today's fixing not forced to a forecast.
    pub fn index_fixing(&self, settings: &Settings, store: &FixingStore<R>) -> (r: Result<
        Option<R>,
        QlError,
    >)
        requires
            self.fixing_reference().wf(),
            self.fixing_days <= i32::MAX,
            self.fixing_date_spec() is Some,
        ensures
            ({
                let f = self.fixing_date_spec().unwrap();
                let stored = store.fixing_spec(self.index.key(), f);
                &&& !self.index.fixing_calendar_spec().is_business(f) ==> r == Err::<
                    Option<R>,
                    QlError,
                >(QlError::InvalidFixingDate)
                &&& self.index.fixing_calendar_spec().is_business(f) && settings.evaluation_date is None
                    ==> r == Err::<Option<R>, QlError>(QlError::NoEvaluationDate)
                &&& self.index.fixing_calendar_spec().is_business(f) ==> (settings.evaluation_date matches Some(today) ==> r == if f > today@ {
                    Ok::<Option<R>, QlError>(None)
                } else if f < today@ || settings.enforces_todays_historic_fixings {
                    match stored {
                        Some(v) => Ok::<Option<R>, QlError>(Some(v)),
                        None => Err::<Option<R>, QlError>(QlError::MissingFixing),
                    }
                } else {
                    Ok::<Option<R>, QlError>(stored)
                })
            }),
    {
        let fixing_date = self.fixing_date();
        self.index.fixing(settings, store, fixing_date, false)
    }
}

} // verus!
