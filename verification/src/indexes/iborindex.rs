//! Interbank-offered-rate indexes: their conventions and fixing dates.
use vstd::prelude::*;

use crate::currency::Currency;
use crate::errors::QlError;
use crate::indexes::fixings::{FixingStore, name_key};
use crate::indexes::interestrateindex::{
    FixingSource, InterestRateIndexBase, fixing_source, normalized_tenor, tenor_label,
};
use crate::patterns::observable::Observables;
use crate::settings::Settings;
use crate::time::calendar::{
    BusinessDayConvention, Calendar, CalendarModel, adjust_spec, advance_spec,
};
use crate::time::date::Date;
use crate::time::daycounter::DayCounter;
use crate::time::period::{Period, TimeUnit};

verus! {

/// An interbank-offered-rate index: a rate fixed on one calendar for a
/// tenor starting some business days after the fixing.
pub struct IborIndex {
    base: InterestRateIndexBase,
    convention: BusinessDayConvention,
    end_of_month: bool,
}

impl IborIndex {
    /// The family name, as in `Euribor`.
    pub closed spec fn family_name_spec(&self) -> Seq<char> {
        self.base.family_name_spec()
    }

    /// The family, tenor, fixing days, currency, fixing calendar and day
    /// counter.
    pub closed spec fn base_spec(&self) -> InterestRateIndexBase {
        self.base
    }

    /// The code of the currency the rates are in.
    pub closed spec fn currency_spec(&self) -> Seq<char> {
        self.base.currency_spec()
    }

    /// The tenor, a multiple of twelve months given as years.
    pub closed spec fn tenor_spec(&self) -> Period {
        self.base.tenor_spec()
    }

    /// The business days between a fixing and the start of its period.
    pub closed spec fn fixing_days_spec(&self) -> u32 {
        self.base.fixing_days_spec()
    }

    /// The calendar the index fixes on.
    pub closed spec fn fixing_calendar_spec(&self) -> CalendarModel {
        self.base.fixing_calendar_spec()
    }

    /// The day counter the rate accrues with.
    pub closed spec fn day_counter_spec(&self) -> DayCounter {
        self.base.day_counter_spec()
    }

    /// The convention the maturity date is rolled with.
    pub closed spec fn convention_spec(&self) -> BusinessDayConvention {
        self.convention
    }

    /// Whether the maturity date stays at the end of its month.
    pub closed spec fn end_of_month_spec(&self) -> bool {
        self.end_of_month
    }

    /// Whether `other` has the same family, tenor, fixing days, currency,
    /// calendar, day counter and conventions.
    pub open spec fn same_terms(&self, other: &IborIndex) -> bool {
        &&& self.family_name_spec() == other.family_name_spec()
        &&& self.currency_spec() == other.currency_spec()
        &&& self.tenor_spec() == other.tenor_spec()
        &&& self.fixing_days_spec() == other.fixing_days_spec()
        &&& self.fixing_calendar_spec() == other.fixing_calendar_spec()
        &&& self.day_counter_spec() == other.day_counter_spec()
        &&& self.convention_spec() == other.convention_spec()
        &&& self.end_of_month_spec() == other.end_of_month_spec()
    }

    /// A copy of the index, with the same terms.
    pub fn copied(&self) -> (r: IborIndex)
        ensures
            r.same_terms(self),
    {
        IborIndex { base: self.base.copied(), convention: self.convention, end_of_month: self.end_of_month }
    }

    /// An index of the given family and tenor in `currency`, fixing
    /// `settlement_days` business days ahead on `fixing_calendar`, rolling
    /// its maturity with `convention` and `end_of_month`.
    pub fn new(
        family_name: String,
        tenor: Period,
        settlement_days: u32,
        currency: Currency,
        fixing_calendar: Calendar,
        convention: BusinessDayConvention,
        end_of_month: bool,
        day_counter: DayCounter,
    ) -> (r: IborIndex)
        ensures
            r.family_name_spec() == family_name@,
            r.currency_spec() == currency.code_spec(),
            (r.tenor_spec().length_spec(), r.tenor_spec().units_spec()) == normalized_tenor(tenor),
            r.fixing_days_spec() == settlement_days,
            r.fixing_calendar_spec() == fixing_calendar@,
            r.day_counter_spec() == day_counter,
            r.convention_spec() == convention,
            r.end_of_month_spec() == end_of_month,
    {
        IborIndex {
            base: InterestRateIndexBase::new(
                family_name,
                tenor,
                settlement_days,
                currency,
                fixing_calendar,
                day_counter,
            ),
            convention,
            end_of_month,
        }
    }

    /// The index name: family, tenor and day counter.
    pub open spec fn name_spec(&self) -> Seq<char> {
        self.family_name_spec() + tenor_label(self.tenor_spec(), self.fixing_days_spec()) + " "@
            + self.day_counter_spec().name_spec()
    }

    /// The key the index's fixings are filed under.
    pub open spec fn key(&self) -> Seq<u8> {
        name_key(self.name_spec())
    }

    /// The index name: family, tenor and day counter, as in
    /// `Euribor6M Actual/360`.
    pub fn name(&self) -> (r: String)
        ensures
            r@ == self.name_spec(),
    {
        self.base.name()
    }

    /// Whether `store` holds a fixing of the index on `date`.
    pub fn has_historical_fixing<R: Copy>(&self, store: &FixingStore<R>, date: Date) -> (r: bool)
        ensures
            r == (store.fixing_spec(self.key(), date@) is Some),
    {
        let name = self.name();
        store.has_fixing(name.as_str(), date)
    }

    /// What [`fixing`](Self::fixing) gives on `fixing_date`: refused when
    /// the index does not fix on the day of serial `fixing` or no evaluation date is set; `None` for
    /// a fixing to forecast; else the stored one, refused when missing where
    /// the history must have it.
    pub open spec fn fixing_outcome<R>(
        &self,
        settings: Settings,
        store: FixingStore<R>,
        fixing: int,
        forecast_todays_fixing: bool,
    ) -> Result<Option<R>, QlError> {
        if !self.fixing_calendar_spec().is_business(fixing) {
            Err(QlError::InvalidFixingDate)
        } else {
            match settings.evaluation_date {
                None => Err(QlError::NoEvaluationDate),
                Some(today) => {
                    let stored = store.fixing_spec(self.key(), fixing);
                    if fixing > today@ || (fixing == today@ && forecast_todays_fixing) {
                        Ok(None)
                    } else if fixing < today@ || settings.enforces_todays_historic_fixings {
                        match stored {
                            Some(v) => Ok(Some(v)),
                            None => Err(QlError::MissingFixing),
                        }
                    } else {
                        Ok(stored)
                    }
                },
            }
        }
    }

    /// The fixing of the index on `fixing_date`, as far as the history
    /// decides it: `Some` value read from `store`, or `None` where the
    /// fixing is to be forecast off the forwarding curve.
    ///
    /// A date the index does not fix on is refused, and so is any date
    /// without an evaluation date. A future date is forecast, and so is
    /// today's when `forecast_todays_fixing` asks for it. A past date is read
    /// from the history, and so is today's when the settings enforce
    /// historic fixings for today; a missing one is refused. Otherwise
    /// today's fixing is read from the history when on record, and forecast
    /// when not.
    pub fn fixing<R: Copy>(
        &self,
        settings: &Settings,
        store: &FixingStore<R>,
        fixing_date: Date,
        forecast_todays_fixing: bool,
    ) -> (r: Result<Option<R>, QlError>)
        requires
            fixing_date.wf(),
        ensures
            r == self.fixing_outcome(*settings, *store, fixing_date@, forecast_todays_fixing),
    {
        if !self.is_valid_fixing_date(fixing_date) {
            return Err(QlError::InvalidFixingDate);
        }
        let source = match fixing_source(settings, fixing_date, forecast_todays_fixing) {
            Ok(s) => s,
            Err(e) => {
                return Err(e);
            },
        };
        let name = self.name();
        match source {
            FixingSource::Forecast => Ok(None),
            FixingSource::History => match store.fixing(name.as_str(), fixing_date) {
                Some(v) => Ok(Some(v)),
                None => Err(QlError::MissingFixing),
            },
            FixingSource::HistoryOrForecast => Ok(store.fixing(name.as_str(), fixing_date)),
        }
    }

    /// The family name.
    pub fn family_name(&self) -> (r: &str)
        ensures
            r@ == self.family_name_spec(),
    {
        self.base.family_name()
    }

    /// The tenor.
    pub fn tenor(&self) -> (r: Period)
        ensures
            r == self.tenor_spec(),
    {
        self.base.tenor()
    }

    /// The business days between a fixing and the start of its period.
    pub fn fixing_days(&self) -> (r: u32)
        ensures
            r == self.fixing_days_spec(),
    {
        self.base.fixing_days()
    }

    /// The calendar the index fixes on.
    pub fn fixing_calendar(&self) -> (r: Calendar)
        ensures
            r@ == self.fixing_calendar_spec(),
    {
        self.base.fixing_calendar()
    }

    /// The day counter the rate accrues with.
    pub fn day_counter(&self) -> (r: DayCounter)
        ensures
            r == self.day_counter_spec(),
    {
        self.base.day_counter()
    }

    /// The currency the rates are in.
    pub fn currency(&self) -> (r: &Currency)
        ensures
            r.code_spec() == self.currency_spec(),
    {
        self.base.currency()
    }

    /// Registers the index with `settings`, as
    /// [`InterestRateIndexBase::register_with`] does; gives the index's
    /// observable.
    pub fn register_with(&mut self, settings: &Settings, observables: &mut Observables) -> (r: usize)
        requires
            old(observables)@.wf(),
            old(observables)@.subscribers.len() < usize::MAX,
            settings.evaluation_date_observable matches Some(a) ==> a < old(
                observables,
            )@.subscribers.len(),
        ensures
            r == old(observables)@.subscribers.len(),
            final(self).base_spec().observable_spec() == Some(r),
            final(self).same_terms(&*old(self)),
            final(observables)@.wf(),
            final(observables)@ == old(observables)@.with_forwarded_observable(
                settings.evaluation_date_observable,
            ),
            settings.evaluation_date_observable matches Some(a) ==> final(observables)@.forwards(
                a as int,
                r as int,
            ),
    {
        self.base.register_with(settings, observables)
    }

    /// The observable the index announces its changes through, once it is
    /// registered with the settings.
    pub fn observable(&self) -> (r: Option<usize>)
        ensures
            r == self.base_spec().observable_spec(),
    {
        self.base.observable()
    }

    /// The family, tenor, fixing days, currency, fixing calendar and day
    /// counter.
    pub fn base(&self) -> (r: &InterestRateIndexBase)
        ensures
            *r == self.base_spec(),
    {
        &self.base
    }

    /// The convention the maturity date is rolled with.
    pub fn business_day_convention(&self) -> (r: BusinessDayConvention)
        ensures
            r == self.convention_spec(),
    {
        self.convention
    }

    /// Whether the maturity date stays at the end of its month.
    pub fn end_of_month(&self) -> (r: bool)
        ensures
            r == self.end_of_month_spec(),
    {
        self.end_of_month
    }

    /// Whether the index fixes on `fixing_date`: a business day of its
    /// fixing calendar.
    pub fn is_valid_fixing_date(&self, fixing_date: Date) -> (r: bool)
        requires
            fixing_date.wf(),
        ensures
            r == self.fixing_calendar_spec().is_business(fixing_date@),
    {
        self.base.is_valid_fixing_date(fixing_date)
    }

    /// The date the index fixes for a period starting on `value_date`: the
    /// fixing days back on the fixing calendar.
    pub fn fixing_date(&self, value_date: Date) -> (r: Date)
        requires
            value_date.wf(),
            self.fixing_days_spec() <= i32::MAX,
            advance_spec(
                self.fixing_calendar_spec(),
                value_date@,
                -(self.fixing_days_spec() as int),
                TimeUnit::Days,
                BusinessDayConvention::Following,
                false,
            ) is Some,
        ensures
            r.wf(),
            r@ == advance_spec(
                self.fixing_calendar_spec(),
                value_date@,
                -(self.fixing_days_spec() as int),
                TimeUnit::Days,
                BusinessDayConvention::Following,
                false,
            ).unwrap(),
    {
        self.base.fixing_date(value_date)
    }

    /// The start of the period fixed on `fixing_date`: the fixing days on on
    /// the fixing calendar.
    pub fn value_date(&self, fixing_date: Date) -> (r: Result<Date, QlError>)
        requires
            fixing_date.wf(),
            self.fixing_days_spec() <= i32::MAX,
            self.fixing_calendar_spec().is_business(fixing_date@) ==> advance_spec(
                self.fixing_calendar_spec(),
                fixing_date@,
                self.fixing_days_spec() as int,
                TimeUnit::Days,
                BusinessDayConvention::Following,
                false,
            ) is Some,
        ensures
            !self.fixing_calendar_spec().is_business(fixing_date@) ==> r == Err::<Date, QlError>(
                QlError::InvalidFixingDate,
            ),
            self.fixing_calendar_spec().is_business(fixing_date@) ==> (r matches Ok(d) && d.wf()
                && d@ == advance_spec(
                self.fixing_calendar_spec(),
                fixing_date@,
                self.fixing_days_spec() as int,
                TimeUnit::Days,
                BusinessDayConvention::Following,
                false,
            ).unwrap()),
    {
        self.base.value_date(fixing_date)
    }

    /// The end of the period starting on `value_date`: the tenor on, rolled
    /// on the fixing calendar.
    pub fn maturity_date(&self, value_date: Date) -> (r: Result<Date, QlError>)
        requires
            value_date.wf(),
            advance_spec(
                self.fixing_calendar_spec(),
                value_date@,
                self.tenor_spec().length_spec(),
                self.tenor_spec().units_spec(),
                self.convention_spec(),
                self.end_of_month_spec(),
            ) is Some,
        ensures
            r matches Ok(d) && d.wf() && d@ == advance_spec(
                self.fixing_calendar_spec(),
                value_date@,
                self.tenor_spec().length_spec(),
                self.tenor_spec().units_spec(),
                self.convention_spec(),
                self.end_of_month_spec(),
            ).unwrap(),
    {
        Ok(
            self.base.fixing_calendar().advance_by_period(
                value_date,
                self.base.tenor(),
                self.convention,
                self.end_of_month,
            ),
        )
    }
}

/// An overnight index: an ibor index with a one-day tenor, rolled with the
/// `Following` convention and not kept at month ends.
pub struct OvernightIndex {
    ibor: IborIndex,
}

impl OvernightIndex {
    /// The index as an ibor index.
    pub closed spec fn ibor_spec(&self) -> IborIndex {
        self.ibor
    }

    /// An overnight index of the given family in `currency`, fixing
    /// `settlement_days` business days ahead on `fixing_calendar`.
    pub fn new(
        family_name: String,
        settlement_days: u32,
        currency: Currency,
        fixing_calendar: Calendar,
        day_counter: DayCounter,
    ) -> (r: OvernightIndex)
        ensures
            r.ibor_spec().family_name_spec() == family_name@,
            r.ibor_spec().currency_spec() == currency.code_spec(),
            r.ibor_spec().tenor_spec().length_spec() == 1,
            r.ibor_spec().tenor_spec().units_spec() == TimeUnit::Days,
            r.ibor_spec().fixing_days_spec() == settlement_days,
            r.ibor_spec().fixing_calendar_spec() == fixing_calendar@,
            r.ibor_spec().day_counter_spec() == day_counter,
            r.ibor_spec().convention_spec() == BusinessDayConvention::Following,
            !r.ibor_spec().end_of_month_spec(),
    {
        let ibor = IborIndex::new(
            family_name,
            Period::new(1, TimeUnit::Days),
            settlement_days,
            currency,
            fixing_calendar,
            BusinessDayConvention::Following,
            false,
            day_counter,
        );
        OvernightIndex { ibor }
    }

    /// The index as an ibor index.
    pub fn ibor_index(&self) -> (r: &IborIndex)
        ensures
            r == self.ibor_spec(),
    {
        &self.ibor
    }

    /// A copy of the index, with the same terms.
    pub fn copied(&self) -> (r: OvernightIndex)
        ensures
            r.ibor_spec().same_terms(&self.ibor_spec()),
    {
        OvernightIndex { ibor: self.ibor.copied() }
    }
}

/// An ibor index whose value dates and maturity dates follow calendars of
/// their own rather than the fixing calendar.
pub struct CustomIborIndex {
    ibor: IborIndex,
    value_calendar: Calendar,
    maturity_calendar: Calendar,
}

impl CustomIborIndex {
    /// The underlying index, carrying the fixing calendar and conventions.
    pub closed spec fn ibor_spec(&self) -> &IborIndex {
        &self.ibor
    }

    /// The calendar value dates are counted on.
    pub closed spec fn value_calendar_spec(&self) -> CalendarModel {
        self.value_calendar@
    }

    /// The calendar maturity dates are rolled on.
    pub closed spec fn maturity_calendar_spec(&self) -> CalendarModel {
        self.maturity_calendar@
    }

    /// A custom index fixing on `fixing_calendar`, counting value dates on
    /// `value_calendar` and rolling maturities on `maturity_calendar`.
    pub fn new(
        family_name: String,
        tenor: Period,
        settlement_days: u32,
        currency: Currency,
        fixing_calendar: Calendar,
        value_calendar: Calendar,
        maturity_calendar: Calendar,
        convention: BusinessDayConvention,
        end_of_month: bool,
        day_counter: DayCounter,
    ) -> (r: CustomIborIndex)
        ensures
            r.ibor_spec().family_name_spec() == family_name@,
            r.ibor_spec().currency_spec() == currency.code_spec(),
            (r.ibor_spec().tenor_spec().length_spec(), r.ibor_spec().tenor_spec().units_spec())
                == normalized_tenor(tenor),
            r.ibor_spec().fixing_days_spec() == settlement_days,
            r.ibor_spec().fixing_calendar_spec() == fixing_calendar@,
            r.ibor_spec().day_counter_spec() == day_counter,
            r.ibor_spec().convention_spec() == convention,
            r.ibor_spec().end_of_month_spec() == end_of_month,
            r.value_calendar_spec() == value_calendar@,
            r.maturity_calendar_spec() == maturity_calendar@,
    {
        CustomIborIndex {
            ibor: IborIndex::new(
                family_name,
                tenor,
                settlement_days,
                currency,
                fixing_calendar,
                convention,
                end_of_month,
                day_counter,
            ),
            value_calendar,
            maturity_calendar,
        }
    }

    /// The underlying index.
    pub fn ibor(&self) -> (r: &IborIndex)
        ensures
            r == self.ibor_spec(),
    {
        &self.ibor
    }

    /// The calendar value dates are counted on.
    pub fn value_calendar(&self) -> (r: Calendar)
        ensures
            r@ == self.value_calendar_spec(),
    {
        self.value_calendar.copied()
    }

    /// The calendar maturity dates are rolled on.
    pub fn maturity_calendar(&self) -> (r: Calendar)
        ensures
            r@ == self.maturity_calendar_spec(),
    {
        self.maturity_calendar.copied()
    }

    /// The calendar the index fixes on.
    pub fn fixing_calendar(&self) -> (r: Calendar)
        ensures
            r@ == self.ibor_spec().fixing_calendar_spec(),
    {
        self.ibor.fixing_calendar()
    }

    /// The convention maturity dates are rolled with.
    pub fn business_day_convention(&self) -> (r: BusinessDayConvention)
        ensures
            r == self.ibor_spec().convention_spec(),
    {
        self.ibor.business_day_convention()
    }

    /// Whether maturity dates stay at the end of their month.
    pub fn end_of_month(&self) -> (r: bool)
        ensures
            r == self.ibor_spec().end_of_month_spec(),
    {
        self.ibor.end_of_month()
    }

    /// The same index: its calendars and conventions carried over.
    pub fn clone_with(&self) -> (r: CustomIborIndex)
        ensures
            r.ibor_spec().same_terms(&self.ibor_spec()),
            r.ibor_spec().family_name_spec() == self.ibor_spec().family_name_spec(),
            r.ibor_spec().tenor_spec() == self.ibor_spec().tenor_spec(),
            r.ibor_spec().fixing_days_spec() == self.ibor_spec().fixing_days_spec(),
            r.ibor_spec().fixing_calendar_spec() == self.ibor_spec().fixing_calendar_spec(),
            r.ibor_spec().day_counter_spec() == self.ibor_spec().day_counter_spec(),
            r.ibor_spec().convention_spec() == self.ibor_spec().convention_spec(),
            r.ibor_spec().end_of_month_spec() == self.ibor_spec().end_of_month_spec(),
            r.value_calendar_spec() == self.value_calendar_spec(),
            r.maturity_calendar_spec() == self.maturity_calendar_spec(),
    {
        CustomIborIndex {
            ibor: self.ibor.copied(),
            value_calendar: self.value_calendar.copied(),
            maturity_calendar: self.maturity_calendar.copied(),
        }
    }

    /// Whether the index fixes on `fixing_date`: a business day of its
    /// fixing calendar.
    pub fn is_valid_fixing_date(&self, fixing_date: Date) -> (r: bool)
        requires
            fixing_date.wf(),
        ensures
            r == self.ibor_spec().fixing_calendar_spec().is_business(fixing_date@),
    {
        self.ibor.is_valid_fixing_date(fixing_date)
    }

    /// The fixing date for a period starting on `value_date`: the fixing
    /// days back on the value calendar, then rolled back onto a business day
    /// of the fixing calendar.
    pub fn fixing_date(&self, value_date: Date) -> (r: Date)
        requires
            value_date.wf(),
            self.ibor_spec().fixing_days_spec() <= i32::MAX,
            advance_spec(
                self.value_calendar_spec(),
                value_date@,
                -(self.ibor_spec().fixing_days_spec() as int),
                TimeUnit::Days,
                BusinessDayConvention::Following,
                false,
            ) matches Some(d) && adjust_spec(
                self.ibor_spec().fixing_calendar_spec(),
                d,
                BusinessDayConvention::Preceding,
            ) is Some,
        ensures
            r.wf(),
            r@ == adjust_spec(
                self.ibor_spec().fixing_calendar_spec(),
                advance_spec(
                    self.value_calendar_spec(),
                    value_date@,
                    -(self.ibor_spec().fixing_days_spec() as int),
                    TimeUnit::Days,
                    BusinessDayConvention::Following,
                    false,
                ).unwrap(),
                BusinessDayConvention::Preceding,
            ).unwrap(),
    {
        let d = self.value_calendar.advance(
            value_date,
            -(self.ibor.base.fixing_days() as i32),
            TimeUnit::Days,
            BusinessDayConvention::Following,
            false,
        );
        self.ibor.base.fixing_calendar().adjust(d, BusinessDayConvention::Preceding)
    }

    /// The start of the period fixed on `fixing_date`: the fixing days on on
    /// the value calendar, then rolled forward onto a business day of the
    /// maturity calendar.
    pub fn value_date(&self, fixing_date: Date) -> (r: Result<Date, QlError>)
        requires
            fixing_date.wf(),
            self.ibor_spec().fixing_days_spec() <= i32::MAX,
            self.ibor_spec().fixing_calendar_spec().is_business(fixing_date@) ==> (advance_spec(
                self.value_calendar_spec(),
                fixing_date@,
                self.ibor_spec().fixing_days_spec() as int,
                TimeUnit::Days,
                BusinessDayConvention::Following,
                false,
            ) matches Some(d) && adjust_spec(
                self.maturity_calendar_spec(),
                d,
                BusinessDayConvention::Following,
            ) is Some),
        ensures
            !self.ibor_spec().fixing_calendar_spec().is_business(fixing_date@) ==> r == Err::<
                Date,
                QlError,
            >(QlError::InvalidFixingDate),
            self.ibor_spec().fixing_calendar_spec().is_business(fixing_date@) ==> (r matches Ok(v)
                && v.wf() && v@ == adjust_spec(
                self.maturity_calendar_spec(),
                advance_spec(
                    self.value_calendar_spec(),
                    fixing_date@,
                    self.ibor_spec().fixing_days_spec() as int,
                    TimeUnit::Days,
                    BusinessDayConvention::Following,
                    false,
                ).unwrap(),
                BusinessDayConvention::Following,
            ).unwrap()),
    {
        if !self.ibor.is_valid_fixing_date(fixing_date) {
            return Err(QlError::InvalidFixingDate);
        }
        let d = self.value_calendar.advance(
            fixing_date,
            self.ibor.base.fixing_days() as i32,
            TimeUnit::Days,
            BusinessDayConvention::Following,
            false,
        );
        Ok(self.maturity_calendar.adjust(d, BusinessDayConvention::Following))
    }

    /// The end of the period starting on `value_date`: the tenor on, rolled
    /// on the maturity calendar.
    pub fn maturity_date(&self, value_date: Date) -> (r: Result<Date, QlError>)
        requires
            value_date.wf(),
            advance_spec(
                self.maturity_calendar_spec(),
                value_date@,
                self.ibor_spec().tenor_spec().length_spec(),
                self.ibor_spec().tenor_spec().units_spec(),
                self.ibor_spec().convention_spec(),
                self.ibor_spec().end_of_month_spec(),
            ) is Some,
        ensures
            r matches Ok(d) && d.wf() && d@ == advance_spec(
                self.maturity_calendar_spec(),
                value_date@,
                self.ibor_spec().tenor_spec().length_spec(),
                self.ibor_spec().tenor_spec().units_spec(),
                self.ibor_spec().convention_spec(),
                self.ibor_spec().end_of_month_spec(),
            ).unwrap(),
    {
        Ok(
            self.maturity_calendar.advance_by_period(
                value_date,
                self.ibor.base.tenor(),
                self.ibor.convention,
                self.ibor.end_of_month,
            ),
        )
    }
}

} // verus!
