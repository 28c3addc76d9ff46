//! Forward rate agreements over an ibor index.
//!
//! A forward rate agreement settles and expires on its value date, the day
//! the underlying loan or deposit begins; the maturity date ends that loan.
//! Its forward rate, settlement amount and value are floating-point and
//! computed outside, off the index's curves, then recorded here.
use vstd::prelude::*;

use crate::cashflows::cashflow::{has_occurred, includes_reference_date, occurred};
use crate::errors::QlError;
use crate::indexes::fixings::FixingStore;
use crate::indexes::iborindex::IborIndex;
use crate::interestrate::{Compounding, InterestRate};
use crate::settings::Settings;
use crate::time::calendar::{BusinessDayConvention, Calendar, CalendarModel, adjust_spec, advance_spec};
use crate::time::date::{Date, serial_in_range};
use crate::time::daycounter::DayCounter;
use crate::time::period::{Frequency, TimeUnit};

verus! {

/// The side of a forward rate agreement.
#[derive(Clone, Copy, Debug, PartialEq, Eq, Structural)]
pub enum Position {
    /// A purchase: a future long loan, short deposit.
    Long,
    /// A sale: a future short loan, long deposit.
    Short,
}

/// A forward rate agreement over an ibor index.
pub struct ForwardRateAgreement<R> {
    fra_type: Position,
    strike_forward_rate: InterestRate<R>,
    notional_amount: R,
    index: IborIndex,
    use_indexed_coupon: bool,
    day_counter: DayCounter,
    calendar: Calendar,
    business_day_convention: BusinessDayConvention,
    value_date: Date,
    maturity_date: Date,
    forward_rate: Option<InterestRate<R>>,
    amount: Option<R>,
}

/// Whether the dates of an agreement over `index` from `value_date` to
/// `maturity_date` are in the supported range, and the maturity can be
/// rolled on the index's calendar.
pub open spec fn agreement_dates_defined(index: IborIndex, value_date: Date, maturity_date: Date) -> bool {
    &&& value_date.wf()
    &&& maturity_date.wf()
    &&& adjust_spec(index.fixing_calendar_spec(), maturity_date@, index.convention_spec()) is Some
}

impl<R> ForwardRateAgreement<R> {
    /// The side.
    pub closed spec fn fra_type_spec(&self) -> Position {
        self.fra_type
    }

    /// The agreed rate, simply compounded over the term.
    pub closed spec fn strike_spec(&self) -> InterestRate<R> {
        self.strike_forward_rate
    }

    /// The notional.
    pub closed spec fn notional_spec(&self) -> R {
        self.notional_amount
    }

    /// The index.
    pub closed spec fn index_spec(&self) -> IborIndex {
        self.index
    }

    /// Whether the forward rate is the index fixing rather than the
    /// par rate over the term.
    pub closed spec fn use_indexed_coupon_spec(&self) -> bool {
        self.use_indexed_coupon
    }

    /// The index's day counter.
    pub closed spec fn day_counter_spec(&self) -> DayCounter {
        self.day_counter
    }

    /// The index's fixing calendar.
    pub closed spec fn calendar_spec(&self) -> CalendarModel {
        self.calendar@
    }

    /// The convention the maturity date was rolled with.
    pub closed spec fn convention_spec(&self) -> BusinessDayConvention {
        self.business_day_convention
    }

    /// The value date.
    pub closed spec fn value_date_spec(&self) -> Date {
        self.value_date
    }

    /// The maturity date, rolled.
    pub closed spec fn maturity_date_spec(&self) -> Date {
        self.maturity_date
    }

    /// The forward rate, as last computed.
    pub closed spec fn forward_rate_spec(&self) -> Option<InterestRate<R>> {
        self.forward_rate
    }

    /// The settlement amount, as last computed.
    pub closed spec fn amount_spec(&self) -> Option<R> {
        self.amount
    }

    /// Whether the agreement is the one over `index` from `value_date` to
    /// `maturity_date` rolled on the index's calendar and convention, on
    /// `notional` at `strike`, with nothing computed yet.
    pub open spec fn is_agreement(
        &self,
        index: IborIndex,
        value_date: Date,
        maturity_date: Date,
        fra_type: Position,
        strike: R,
        notional: R,
    ) -> bool {
        &&& self.fra_type_spec() == fra_type
        &&& self.notional_spec() == notional
        &&& self.index_spec().same_terms(&index)
        &&& self.day_counter_spec() == index.day_counter_spec()
        &&& self.calendar_spec() == index.fixing_calendar_spec()
        &&& self.convention_spec() == index.convention_spec()
        &&& self.value_date_spec() == value_date
        &&& self.maturity_date_spec()@ == adjust_spec(
            index.fixing_calendar_spec(),
            maturity_date@,
            index.convention_spec(),
        ).unwrap()
        &&& self.strike_spec().rate_spec() == strike
        &&& self.strike_spec().day_counter_spec() == index.day_counter_spec()
        &&& self.strike_spec().compounding_spec() == Compounding::Simple
        &&& self.forward_rate_spec() is None
        &&& self.amount_spec() is None
    }
}

impl<R: Copy> ForwardRateAgreement<R> {
    /// An agreement over `index` from `value_date` to `maturity_date`,
    /// rolled on the index's calendar with its convention, at the agreed
    /// `strike_forward_rate`, simply compounded on the index's day counter.
    /// The forward rate is then the par rate over the term.
    ///
    /// Refused when the notional is not above zero, as `>` on the amounts
    /// says, then when the value date is not before the rolled maturity.
    pub fn with_maturity(
        index: IborIndex,
        value_date: Date,
        maturity_date: Date,
        fra_type: Position,
        strike_forward_rate: R,
        notional_amount: R,
    ) -> (r: Result<ForwardRateAgreement<R>, QlError>) where R: PartialOrd + From<u32>
        requires
            agreement_dates_defined(index, value_date, maturity_date),
        ensures
            ({
                let maturity = adjust_spec(index.fixing_calendar_spec(), maturity_date@, index.convention_spec()).unwrap();
                &&& exists|zero: R, positive: bool|
                    #![trigger call_ensures(<R as PartialOrd>::gt, (&notional_amount, &zero), positive)]
                    {
                        &&& call_ensures(<R as From<u32>>::from, (0u32,), zero)
                        &&& call_ensures(<R as PartialOrd>::gt, (&notional_amount, &zero), positive)
                        &&& !positive ==> r == Err::<ForwardRateAgreement<R>, QlError>(
                            QlError::NotionalNotPositive,
                        )
                        &&& positive ==> (r is Ok <==> value_date@ < maturity)
                        &&& positive && r is Err ==> r == Err::<ForwardRateAgreement<R>, QlError>(
                            QlError::ValueDateNotBeforeMaturity,
                        )
                    }
                &&& r matches Ok(f) ==> f.is_agreement(
                    index,
                    value_date,
                    maturity_date,
                    fra_type,
                    strike_forward_rate,
                    notional_amount,
                ) && !f.use_indexed_coupon_spec()
            }),
    {
        let day_counter = index.day_counter();
        let calendar = index.fixing_calendar();
        let business_day_convention = index.business_day_convention();
        let maturity_date = calendar.adjust(maturity_date, business_day_convention);
        let zero = R::from(0u32);
        let positive = notional_amount > zero;
        if !positive {
            return Err(QlError::NotionalNotPositive);
        }
        if !value_date.is_before(&maturity_date) {
            return Err(QlError::ValueDateNotBeforeMaturity);
        }
        let strike = match InterestRate::new(
            strike_forward_rate,
            day_counter,
            Compounding::Simple,
            Frequency::Once,
        ) {
            Ok(rate) => rate,
            Err(e) => {
                return Err(e);
            },
        };
        Ok(
            ForwardRateAgreement {
                fra_type,
                strike_forward_rate: strike,
                notional_amount,
                index,
                use_indexed_coupon: false,
                day_counter,
                calendar,
                business_day_convention,
                value_date,
                maturity_date,
                forward_rate: None,
                amount: None,
            },
        )
    }

    /// An agreement over `index` from `value_date` to the index's own
    /// maturity of it, whose forward rate is the index fixing.
    ///
    /// Refused as [`with_maturity`](Self::with_maturity) is.
    #[verifier::rlimit(60)]
    pub fn new(
        index: IborIndex,
        value_date: Date,
        fra_type: Position,
        strike_forward_rate: R,
        notional_amount: R,
    ) -> (r: Result<ForwardRateAgreement<R>, QlError>) where R: PartialOrd + From<u32>
        requires
            value_date.wf(),
            advance_spec(
                index.fixing_calendar_spec(),
                value_date@,
                index.tenor_spec().length_spec(),
                index.tenor_spec().units_spec(),
                index.convention_spec(),
                index.end_of_month_spec(),
            ) matches Some(m) && adjust_spec(index.fixing_calendar_spec(), m, index.convention_spec()) is Some,
        ensures
            ({
                let m = advance_spec(
                    index.fixing_calendar_spec(),
                    value_date@,
                    index.tenor_spec().length_spec(),
                    index.tenor_spec().units_spec(),
                    index.convention_spec(),
                    index.end_of_month_spec(),
                ).unwrap();
                let maturity = adjust_spec(index.fixing_calendar_spec(), m, index.convention_spec()).unwrap();
                &&& exists|zero: R, positive: bool|
                    #![trigger call_ensures(<R as PartialOrd>::gt, (&notional_amount, &zero), positive)]
                    {
                        &&& call_ensures(<R as From<u32>>::from, (0u32,), zero)
                        &&& call_ensures(<R as PartialOrd>::gt, (&notional_amount, &zero), positive)
                        &&& !positive ==> r == Err::<ForwardRateAgreement<R>, QlError>(
                            QlError::NotionalNotPositive,
                        )
                        &&& positive ==> (r is Ok <==> value_date@ < maturity)
                        &&& positive && r is Err ==> r == Err::<ForwardRateAgreement<R>, QlError>(
                            QlError::ValueDateNotBeforeMaturity,
                        )
                    }
                &&& r matches Ok(f) ==> f.use_indexed_coupon_spec() && exists|d: Date|
                    #![trigger f.is_agreement(index, value_date, d, fra_type, strike_forward_rate, notional_amount)]
                    d@ == m && f.is_agreement(
                        index,
                        value_date,
                        d,
                        fra_type,
                        strike_forward_rate,
                        notional_amount,
                    )
            }),
    {
        let maturity_date = match index.maturity_date(value_date) {
            Ok(d) => d,
            Err(e) => {
                return Err(e);
            },
        };
        let ghost terms = index;
        match ForwardRateAgreement::with_maturity(
            index,
            value_date,
            maturity_date,
            fra_type,
            strike_forward_rate,
            notional_amount,
        ) {
            Ok(fra) => {
                let indexed = ForwardRateAgreement { use_indexed_coupon: true, ..fra };
                assert(indexed.is_agreement(
                    terms,
                    value_date,
                    maturity_date,
                    fra_type,
                    strike_forward_rate,
                    notional_amount,
                ));
                Ok(indexed)
            },
            Err(e) => Err(e),
        }
    }

    /// The side.
    pub fn fra_type(&self) -> (r: Position)
        ensures
            r == self.fra_type_spec(),
    {
        self.fra_type
    }

    /// The notional.
    pub fn notional_amount(&self) -> (r: R)
        ensures
            r == self.notional_spec(),
    {
        self.notional_amount
    }

    /// The agreed rate.
    pub fn strike_forward_rate(&self) -> (r: InterestRate<R>)
        ensures
            r == self.strike_spec(),
    {
        self.strike_forward_rate
    }

    /// The index's fixing calendar.
    pub fn calendar(&self) -> (r: &Calendar)
        ensures
            r@ == self.calendar_spec(),
    {
        &self.calendar
    }

    /// The convention the maturity date was rolled with.
    pub fn business_day_convention(&self) -> (r: BusinessDayConvention)
        ensures
            r == self.convention_spec(),
    {
        self.business_day_convention
    }

    /// The index's day counter.
    pub fn day_counter(&self) -> (r: DayCounter)
        ensures
            r == self.day_counter_spec(),
    {
        self.day_counter
    }

    /// The value date.
    pub fn value_date(&self) -> (r: Date)
        ensures
            r == self.value_date_spec(),
    {
        self.value_date
    }

    /// The maturity date, rolled.
    pub fn maturity_date(&self) -> (r: Date)
        ensures
            r == self.maturity_date_spec(),
    {
        self.maturity_date
    }

    /// The index.
    pub fn index(&self) -> (r: &IborIndex)
        ensures
            *r == self.index_spec(),
    {
        &self.index
    }

    /// Whether the forward rate is the index fixing.
    pub fn use_indexed_coupon(&self) -> (r: bool)
        ensures
            r == self.use_indexed_coupon_spec(),
    {
        self.use_indexed_coupon
    }

    /// The index's fixing date for the value date.
    pub fn fixing_date(&self) -> (r: Date)
        requires
            self.value_date_spec().wf(),
            self.index_spec().fixing_days_spec() <= i32::MAX,
            advance_spec(
                self.index_spec().fixing_calendar_spec(),
                self.value_date_spec()@,
                -(self.index_spec().fixing_days_spec() as int),
                TimeUnit::Days,
                BusinessDayConvention::Following,
                false,
            ) is Some,
        ensures
            r@ == advance_spec(
                self.index_spec().fixing_calendar_spec(),
                self.value_date_spec()@,
                -(self.index_spec().fixing_days_spec() as int),
                TimeUnit::Days,
                BusinessDayConvention::Following,
                false,
            ).unwrap(),
    {
        self.index.fixing_date(self.value_date)
    }

    /// The forward rate where the history gives it: on the indexed-coupon
    /// path, the index fixing on the fixing date, `None` when the index
    /// forecasts it; `None` off that path, where the rate is the par rate
    /// off the forwarding curve. Refused as the index refuses the fixing.
    pub fn indexed_forward_rate(&self, settings: &Settings, store: &FixingStore<R>) -> (r: Result<
        Option<R>,
        QlError,
    >)
        requires
            self.value_date_spec().wf(),
            self.index_spec().fixing_days_spec() <= i32::MAX,
            advance_spec(
                self.index_spec().fixing_calendar_spec(),
                self.value_date_spec()@,
                -(self.index_spec().fixing_days_spec() as int),
                TimeUnit::Days,
                BusinessDayConvention::Following,
                false,
            ) matches Some(d) && serial_in_range(d),
        ensures
            !self.use_indexed_coupon_spec() ==> r == Ok::<Option<R>, QlError>(None),
            self.use_indexed_coupon_spec() ==> r == self.index_spec().fixing_outcome(
                *settings,
                *store,
                advance_spec(
                    self.index_spec().fixing_calendar_spec(),
                    self.value_date_spec()@,
                    -(self.index_spec().fixing_days_spec() as int),
                    TimeUnit::Days,
                    BusinessDayConvention::Following,
                    false,
                ).unwrap(),
                false,
            ),
    {
        if !self.use_indexed_coupon {
            return Ok(None);
        }
        let date = self.fixing_date();
        self.index.fixing(settings, store, date, false)
    }

    /// Whether the agreement has settled: its value date has occurred.
    pub fn is_expired(&self, settings: &Settings) -> (r: Result<bool, QlError>)
        ensures
            settings.evaluation_date is None ==> r == Err::<bool, QlError>(QlError::NoReferenceDate),
            settings.evaluation_date matches Some(today) ==> r == Ok::<bool, QlError>(
                occurred(self.value_date_spec(), today, includes_reference_date(*settings, None, None)),
            ),
    {
        has_occurred(self.value_date, settings, None, None)
    }

    /// The settlement amount, as last computed; refused before then.
    pub fn amount(&self) -> (r: Result<R, QlError>)
        ensures
            match self.amount_spec() {
                Some(a) => r == Ok::<R, QlError>(a),
                None => r == Err::<R, QlError>(QlError::AmountNotProvided),
            },
    {
        match self.amount {
            Some(a) => Ok(a),
            None => Err(QlError::AmountNotProvided),
        }
    }

    /// The forward rate over the term, as last computed; refused before
    /// then.
    pub fn forward_rate(&self) -> (r: Result<InterestRate<R>, QlError>)
        ensures
            match self.forward_rate_spec() {
                Some(f) => r == Ok::<InterestRate<R>, QlError>(f),
                None => r == Err::<InterestRate<R>, QlError>(QlError::ResultNotAvailable),
            },
    {
        match self.forward_rate {
            Some(f) => Ok(f),
            None => Err(QlError::ResultNotAvailable),
        }
    }

    /// Records the forward rate over the term, simply compounded on the
    /// index's day counter, and the settlement amount; nothing else
    /// changes.
    fn record_calculation(&mut self, forward_rate: R, amount: R)
        ensures
            final(self).forward_rate_spec() matches Some(f) && f.rate_spec() == forward_rate
                && f.day_counter_spec() == old(self).day_counter_spec() && f.compounding_spec()
                == Compounding::Simple,
            final(self).amount_spec() == Some(amount),
            final(self).value_date_spec() == old(self).value_date_spec(),
            final(self).maturity_date_spec() == old(self).maturity_date_spec(),
            final(self).strike_spec() == old(self).strike_spec(),
            final(self).notional_spec() == old(self).notional_spec(),
            final(self).fra_type_spec() == old(self).fra_type_spec(),
    {
        match InterestRate::new(forward_rate, self.day_counter, Compounding::Simple, Frequency::Once) {
            Ok(f) => {
                self.forward_rate = Some(f);
            },
            Err(_) => {
                assert(false);
            },
        }
        self.amount = Some(amount);
    }
}

impl<R: Copy> ForwardRateAgreement<R> {
    /// Sets up an agreement that has expired: records the forward rate over
    /// the term when one was calculated, simply compounded on the index's
    /// day counter. No settlement amount is recorded: the amount stays as it
    /// was.
    pub fn setup_expired(&mut self, forward_rate: Option<R>)
        ensures
            match forward_rate {
                Some(f) => final(self).forward_rate_spec() matches Some(rate) && rate.rate_spec() == f
                    && rate.day_counter_spec() == old(self).day_counter_spec()
                    && rate.compounding_spec() == Compounding::Simple,
                None => final(self).forward_rate_spec() is None,
            },
            final(self).amount_spec() == old(self).amount_spec(),
            final(self).value_date_spec() == old(self).value_date_spec(),
            final(self).maturity_date_spec() == old(self).maturity_date_spec(),
            final(self).strike_spec() == old(self).strike_spec(),
            final(self).notional_spec() == old(self).notional_spec(),
            final(self).fra_type_spec() == old(self).fra_type_spec(),
    {
        match forward_rate {
            Some(f) => match InterestRate::new(f, self.day_counter, Compounding::Simple, Frequency::Once) {
                Ok(rate) => {
                    self.forward_rate = Some(rate);
                },
                Err(_) => {
                    assert(false);
                },
            },
            None => {
                self.forward_rate = None;
            },
        }
    }

    /// The calculation step, given the forward rate over the term and the
    /// settlement amount as computed off the curves: an agreement that has
    /// expired is set up as expired, its amount not recorded; any other
    /// records both. Says whether the agreement had expired; refused without
    /// an evaluation date.
    pub fn calculate(&mut self, settings: &Settings, forward_rate: R, amount: R) -> (r: Result<bool, QlError>)
        ensures
            settings.evaluation_date is None ==> r == Err::<bool, QlError>(QlError::NoReferenceDate)
                && *final(self) == *old(self),
            settings.evaluation_date matches Some(today) ==> r == Ok::<bool, QlError>(
                occurred(
                    old(self).value_date_spec(),
                    today,
                    includes_reference_date(*settings, None, None),
                ),
            ),
            r == Ok::<bool, QlError>(true) ==> final(self).amount_spec() == old(self).amount_spec(),
            r == Ok::<bool, QlError>(false) ==> final(self).amount_spec() == Some(amount),
            r is Ok ==> (final(self).forward_rate_spec() matches Some(rate) && rate.rate_spec()
                == forward_rate && rate.day_counter_spec() == old(self).day_counter_spec()
                && rate.compounding_spec() == Compounding::Simple),
            final(self).value_date_spec() == old(self).value_date_spec(),
            final(self).maturity_date_spec() == old(self).maturity_date_spec(),
            final(self).strike_spec() == old(self).strike_spec(),
            final(self).notional_spec() == old(self).notional_spec(),
            final(self).fra_type_spec() == old(self).fra_type_spec(),
    {
        let expired = match self.is_expired(settings) {
            Ok(e) => e,
            Err(e) => {
                return Err(e);
            },
        };
        if expired {
            self.setup_expired(Some(forward_rate));
        } else {
            self.record_calculation(forward_rate, amount);
        }
        Ok(expired)
    }
}

} // verus!
