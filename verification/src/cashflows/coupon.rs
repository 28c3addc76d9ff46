//! Coupons: cash flows accruing over a period, and the date rules the leg
//! builders share.
use vstd::prelude::*;

use crate::cashflows::cashflow::{AccrualPeriod, CashFlowDates};
use crate::time::calendar::{
    BusinessDayConvention, Calendar, CalendarModel, advance_spec, business_days_after,
    lemma_forward_counts_business_days,
};
use crate::time::date::Date;
use crate::time::period::{Period, TimeUnit};

verus! {

/// The dates and nominal of a coupon.
///
/// The nominal is carried as the caller represents it: nothing here
/// computes with it.
#[derive(Clone, Copy, Debug, PartialEq)]
pub struct CouponBase<R> {
    /// The date the coupon is paid on.
    pub payment_date: Date,
    /// The nominal the coupon accrues on.
    pub nominal: R,
    /// The start of the accrual period.
    pub accrual_start_date: Date,
    /// The end of the accrual period.
    pub accrual_end_date: Date,
    /// The start of the reference period.
    pub ref_period_start: Date,
    /// The end of the reference period.
    pub ref_period_end: Date,
    /// The date from which the coupon trades ex-coupon, when it has one.
    pub ex_coupon_date: Option<Date>,
}

/// The serial numbers of a coupon's dates.
pub struct CouponSerials {
    /// The start of the accrual period.
    pub start: int,
    /// The end of the accrual period.
    pub end: int,
    /// The start of the reference period.
    pub ref_start: int,
    /// The end of the reference period.
    pub ref_end: int,
    /// The payment date.
    pub payment: int,
    /// The ex-coupon date, when there is one.
    pub ex_coupon: Option<int>,
}

impl<R> CouponBase<R> {
    /// Whether the payment date and the accrual dates are in the supported
    /// range.
    pub open spec fn dates_wf(self) -> bool {
        &&& self.payment_date.wf()
        &&& self.accrual_start_date.wf()
        &&& self.accrual_end_date.wf()
    }

    /// Whether the coupon's dates are the given serial numbers.
    pub open spec fn has_serials(self, s: CouponSerials) -> bool {
        &&& self.accrual_start_date@ == s.start
        &&& self.accrual_end_date@ == s.end
        &&& self.ref_period_start@ == s.ref_start
        &&& self.ref_period_end@ == s.ref_end
        &&& self.payment_date@ == s.payment
        &&& match s.ex_coupon {
            None => self.ex_coupon_date is None,
            Some(e) => self.ex_coupon_date matches Some(d) && d@ == e,
        }
    }
}

impl<R: Copy> CouponBase<R> {
    /// A coupon accruing `nominal` from `accrual_start_date` to
    /// `accrual_end_date` and paid on `payment_date`, which it does not
    /// adjust. A missing reference-period bound is the matching accrual date.
    pub fn new(
        payment_date: Date,
        nominal: R,
        accrual_start_date: Date,
        accrual_end_date: Date,
        ref_period_start: Option<Date>,
        ref_period_end: Option<Date>,
        ex_coupon_date: Option<Date>,
    ) -> (r: CouponBase<R>)
        ensures
            r.payment_date == payment_date,
            r.nominal == nominal,
            r.accrual_start_date == accrual_start_date,
            r.accrual_end_date == accrual_end_date,
            r.ref_period_start == match ref_period_start {
                Some(d) => d,
                None => accrual_start_date,
            },
            r.ref_period_end == match ref_period_end {
                Some(d) => d,
                None => accrual_end_date,
            },
            r.ex_coupon_date == ex_coupon_date,
    {
        let ref_period_start = match ref_period_start {
            Some(d) => d,
            None => accrual_start_date,
        };
        let ref_period_end = match ref_period_end {
            Some(d) => d,
            None => accrual_end_date,
        };
        CouponBase {
            payment_date,
            nominal,
            accrual_start_date,
            accrual_end_date,
            ref_period_start,
            ref_period_end,
            ex_coupon_date,
        }
    }

    /// The date the coupon is paid on.
    pub fn payment_date(&self) -> (r: Date)
        ensures
            r == self.payment_date,
    {
        self.payment_date
    }

    /// The date from which the coupon trades ex-coupon, when it has one.
    pub fn ex_coupon_date(&self) -> (r: Option<Date>)
        ensures
            r == self.ex_coupon_date,
    {
        self.ex_coupon_date
    }

    /// The nominal the coupon accrues on.
    pub fn nominal(&self) -> (r: R)
        ensures
            r == self.nominal,
    {
        self.nominal
    }

    /// The start of the accrual period.
    pub fn accrual_start_date(&self) -> (r: Date)
        ensures
            r == self.accrual_start_date,
    {
        self.accrual_start_date
    }

    /// The end of the accrual period.
    pub fn accrual_end_date(&self) -> (r: Date)
        ensures
            r == self.accrual_end_date,
    {
        self.accrual_end_date
    }

    /// The start of the reference period.
    pub fn reference_period_start(&self) -> (r: Date)
        ensures
            r == self.ref_period_start,
    {
        self.ref_period_start
    }

    /// The end of the reference period.
    pub fn reference_period_end(&self) -> (r: Date)
        ensures
            r == self.ref_period_end,
    {
        self.ref_period_end
    }

    /// The coupon as a flow of a leg: its payment date and accrual period.
    pub fn flow_dates(&self) -> (r: CashFlowDates)
        ensures
            r.date == self.payment_date,
            r.accrual == Some(
                AccrualPeriod { start: self.accrual_start_date, end: self.accrual_end_date },
            ),
    {
        CashFlowDates::coupon(self.payment_date, self.accrual_start_date, self.accrual_end_date)
    }
}

/// The ex-coupon period of a leg: how far before each payment date, on
/// which calendar and with which convention, its coupons go ex-coupon.
pub struct ExCouponTerms {
    /// The period, measured back from the payment date.
    pub period: Period,
    /// The calendar the period is counted on.
    pub calendar: Calendar,
    /// The convention the ex-coupon date is rolled with.
    pub convention: BusinessDayConvention,
    /// Whether a payment at the end of its month goes ex-coupon at the end
    /// of a month.
    pub end_of_month: bool,
}

/// What an ex-coupon period is, with its calendar as a model.
pub struct ExCouponModel {
    /// The period, measured back from the payment date.
    pub period: Period,
    /// The calendar the period is counted on.
    pub calendar: CalendarModel,
    /// The convention the ex-coupon date is rolled with.
    pub convention: BusinessDayConvention,
    /// Whether end-of-month dates stay at the end of the month.
    pub end_of_month: bool,
}

impl View for ExCouponTerms {
    type V = ExCouponModel;

    open spec fn view(&self) -> ExCouponModel {
        ExCouponModel {
            period: self.period,
            calendar: self.calendar@,
            convention: self.convention,
            end_of_month: self.end_of_month,
        }
    }
}

impl ExCouponTerms {
    /// A copy of the terms.
    pub fn copied(&self) -> (r: ExCouponTerms)
        ensures
            r@ == self@,
    {
        ExCouponTerms {
            period: self.period,
            calendar: self.calendar.copied(),
            convention: self.convention,
            end_of_month: self.end_of_month,
        }
    }
}

/// The model of optional ex-coupon terms.
pub open spec fn ex_coupon_model(ex: Option<ExCouponTerms>) -> Option<ExCouponModel> {
    match ex {
        None => None,
        Some(t) => Some(t@),
    }
}

/// The ex-coupon date of a coupon paid on serial `payment`: `Some(None)`
/// without ex-coupon terms, `Some(Some(d))` with them, and `None` where the
/// date falls outside the supported range.
pub open spec fn ex_coupon_spec(ex: Option<ExCouponModel>, payment: int) -> Option<Option<int>> {
    match ex {
        None => Some(None),
        Some(t) => if t.period.length_spec() > i32::MIN {
            match advance_spec(
                t.calendar,
                payment,
                -t.period.length_spec(),
                t.period.units_spec(),
                t.convention,
                t.end_of_month,
            ) {
                Some(d) => Some(Some(d)),
                None => None,
            }
        } else {
            None
        },
    }
}

/// The payment date of a coupon accruing up to serial `end`: `lag`
/// business days later on `calendar`, rolled under `convention`.
pub open spec fn payment_date_spec(
    calendar: CalendarModel,
    end: int,
    lag: int,
    convention: BusinessDayConvention,
) -> Option<int> {
    advance_spec(calendar, end, lag, TimeUnit::Days, convention, false)
}

/// A payment lag of `lag` business days puts the payment on a business day
/// after the accrual end, with exactly `lag` business days of the payment
/// calendar after the accrual end up to and including the payment date,
/// whatever the convention.
pub proof fn law_payment_lag_counts_business_days(
    calendar: CalendarModel,
    end: int,
    lag: int,
    convention: BusinessDayConvention,
)
    requires
        lag > 0,
        payment_date_spec(calendar, end, lag, convention) is Some,
    ensures
        ({
            let p = payment_date_spec(calendar, end, lag, convention).unwrap();
            &&& end < p
            &&& calendar.is_business(p)
            &&& business_days_after(calendar, end, p) == lag
        }),
{
    lemma_forward_counts_business_days(calendar, end, lag as nat);
}

/// The payment date of a coupon accruing up to `end`.
pub fn payment_date(calendar: &Calendar, end: Date, lag: i32, convention: BusinessDayConvention) -> (r:
    Date)
    requires
        end.wf(),
        payment_date_spec(calendar@, end@, lag as int, convention) is Some,
    ensures
        r@ == payment_date_spec(calendar@, end@, lag as int, convention).unwrap(),
        r.wf(),
{
    calendar.advance(end, lag, TimeUnit::Days, convention, false)
}

/// The ex-coupon date of a coupon paid on `payment`, when the leg has
/// ex-coupon terms.
pub fn ex_coupon_date(ex: &Option<ExCouponTerms>, payment: Date) -> (r: Option<Date>)
    requires
        payment.wf(),
        ex_coupon_spec(ex_coupon_model(*ex), payment@) is Some,
    ensures
        match ex_coupon_spec(ex_coupon_model(*ex), payment@).unwrap() {
            None => r is None,
            Some(e) => r matches Some(d) && d@ == e && d.wf(),
        },
{
    match ex {
        None => None,
        Some(t) => Some(
            t.calendar.advance_by_period(payment, t.period.negated(), t.convention, t.end_of_month),
        ),
    }
}

/// The `i`-th value, or the last one past the end.
pub open spec fn value_at<T>(values: Seq<T>, i: int) -> T {
    if i < values.len() {
        values[i]
    } else {
        values.last()
    }
}

/// The `i`-th value, the last one past the end, or `default` when there is
/// none.
pub open spec fn broadcast_spec<T>(values: Seq<T>, i: int, default: T) -> T {
    if values.len() == 0 {
        default
    } else {
        value_at(values, i)
    }
}

/// The `i`-th value, or the last one past the end.
pub fn at<T: Copy>(values: &Vec<T>, i: usize) -> (r: T)
    requires
        values.len() > 0,
    ensures
        r == value_at(values@, i as int),
{
    if i < values.len() {
        values[i]
    } else {
        values[values.len() - 1]
    }
}

/// The `i`-th value, the last one past the end, or `default` when there is
/// none.
pub fn broadcast<T: Copy>(values: &Vec<T>, i: usize, default: T) -> (r: T)
    ensures
        r == broadcast_spec(values@, i as int, default),
{
    if values.len() == 0 {
        default
    } else {
        at(values, i)
    }
}

/// Whether `value` can be zero: `==` on the amounts can find it equal to
/// the zero that `From` gives.
#[verifier::opaque]
pub open spec fn may_be_zero<R: PartialEq + From<u32>>(value: R) -> bool {
    exists|zero: R|
        #![trigger call_ensures(<R as PartialEq>::eq, (&value, &zero), true)]
        call_ensures(<R as From<u32>>::from, (0u32,), zero) && call_ensures(
            <R as PartialEq>::eq,
            (&value, &zero),
            true,
        )
}

/// Whether `value` can be other than zero: `==` on the amounts can find it
/// different from the zero that `From` gives.
#[verifier::opaque]
pub open spec fn may_be_nonzero<R: PartialEq + From<u32>>(value: R) -> bool {
    exists|zero: R|
        #![trigger call_ensures(<R as PartialEq>::eq, (&value, &zero), false)]
        call_ensures(<R as From<u32>>::from, (0u32,), zero) && call_ensures(
            <R as PartialEq>::eq,
            (&value, &zero),
            false,
        )
}

/// Whether `value` compares equal to zero.
pub fn is_zero_amount<R: PartialEq + From<u32>>(value: &R) -> (r: bool)
    ensures
        r ==> may_be_zero(*value),
        !r ==> may_be_nonzero(*value),
{
    let zero = R::from(0u32);
    let null = *value == zero;
    proof {
        reveal(may_be_zero);
        reveal(may_be_nonzero);
    }
    null
}

} // verus!
