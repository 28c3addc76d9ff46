//! Interest-rate indexes: naming, and where a fixing comes from.
use vstd::prelude::*;

use crate::currency::Currency;
use crate::errors::QlError;
use crate::patterns::observable::{
    Observables, ObservablesModel, lemma_forwarded_observers_are_notified,
};
use crate::settings::Settings;
use crate::time::calendar::{BusinessDayConvention, Calendar, CalendarModel, advance_spec};
use crate::time::date::Date;
use crate::time::daycounter::DayCounter;
use crate::time::period::{Period, TimeUnit, decimal_string};

verus! {

/// The tenor an index is named and keyed with: a whole number of years when
/// given as a multiple of twelve months, else as given.
pub open spec fn normalized_tenor(tenor: Period) -> (int, TimeUnit) {
    if tenor.units_spec() == TimeUnit::Months && tenor.length_spec() % 12 == 0 {
        (tenor.length_spec() / 12, TimeUnit::Years)
    } else {
        (tenor.length_spec(), tenor.units_spec())
    }
}

/// `tenor` with a whole number of years in place of a multiple of twelve
/// months.
pub fn normalize_tenor(tenor: Period) -> (r: Period)
    ensures
        (r.length_spec(), r.units_spec()) == normalized_tenor(tenor),
{
    let months = match tenor.units() {
        TimeUnit::Months => true,
        _ => false,
    };
    if months && tenor.length() % 12 == 0 {
        Period::new(tenor.length() / 12, TimeUnit::Years)
    } else {
        tenor
    }
}

/// The tenor part of an index name: `ON`, `TN` or `SN` for a one-day tenor
/// fixing zero, one or two days ahead, the short form of the tenor
/// otherwise.
pub open spec fn tenor_label(tenor: Period, fixing_days: u32) -> Seq<char> {
    if tenor.length_spec() == 1 && tenor.units_spec() == TimeUnit::Days && fixing_days <= 2 {
        if fixing_days == 0 {
            "ON"@
        } else if fixing_days == 1 {
            "TN"@
        } else {
            "SN"@
        }
    } else {
        decimal_string(tenor.length_spec()) + Period::unit_letter(tenor.units_spec())
    }
}

/// The name of an index: its family name, the tenor label, a space, and the
/// day counter's name, as in `JPYLibor6M Actual/360`.
pub fn compose_name(
    family_name: &str,
    tenor: Period,
    fixing_days: u32,
    day_counter: &DayCounter,
) -> (r: String)
    ensures
        r@ == family_name@ + tenor_label(tenor, fixing_days) + " "@ + day_counter.name_spec(),
{
    let one_day = tenor.length() == 1 && match tenor.units() {
        TimeUnit::Days => true,
        _ => false,
    };
    let mut name = family_name.to_owned();
    proof {
        reveal_strlit("ON");
        reveal_strlit("TN");
        reveal_strlit("SN");
        reveal_strlit(" ");
    }
    if one_day && fixing_days == 0 {
        name.append("ON");
    } else if one_day && fixing_days == 1 {
        name.append("TN");
    } else if one_day && fixing_days == 2 {
        name.append("SN");
    } else {
        let label = tenor.to_short_string();
        name.append(label.as_str());
    }
    name.append(" ");
    let dc = day_counter.name();
    name.append(dc.as_str());
    assert(name@ =~= family_name@ + tenor_label(tenor, fixing_days) + " "@ + day_counter.name_spec());
    name
}

/// Where an index fixing is read from.
#[derive(Clone, Copy, Debug, PartialEq, Eq, Structural)]
pub enum FixingSource {
    /// Forecast off the forwarding curve.
    Forecast,
    /// Read from the fixing history; missing is an error.
    History,
    /// Read from the fixing history when on record, else forecast.
    HistoryOrForecast,
}

/// Where the fixing of an interest-rate index at `fixing_date` comes from.
///
/// A future date is forecast, and so is today's when `forecast_todays_fixing`
/// asks for it. A past date is read from history, and so is today's when the
/// settings enforce historic fixings for today; otherwise today's fixing is
/// read from history if on record and forecast if not.
pub fn fixing_source(settings: &Settings, fixing_date: Date, forecast_todays_fixing: bool) -> (r:
    Result<FixingSource, QlError>)
    ensures
        settings.evaluation_date is None ==> r == Err::<FixingSource, QlError>(
            QlError::NoEvaluationDate,
        ),
        settings.evaluation_date matches Some(today) ==> r == Ok::<FixingSource, QlError>(
            if fixing_date@ > today@ || (fixing_date@ == today@ && forecast_todays_fixing) {
                FixingSource::Forecast
            } else if fixing_date@ < today@ || settings.enforces_todays_historic_fixings {
                FixingSource::History
            } else {
                FixingSource::HistoryOrForecast
            },
        ),
{
    let today = match settings.evaluation_date {
        Some(t) => t,
        None => {
            return Err(QlError::NoEvaluationDate);
        },
    };
    let f = fixing_date.serial_number();
    let t = today.serial_number();
    if f > t || (f == t && forecast_todays_fixing) {
        Ok(FixingSource::Forecast)
    } else if f < t || settings.enforces_todays_historic_fixings {
        Ok(FixingSource::History)
    } else {
        Ok(FixingSource::HistoryOrForecast)
    }
}

/// What every interest-rate index is: a family of rates in a currency,
/// fixed on a calendar for a tenor starting some business days after the
/// fixing, and accruing with a day counter.
pub struct InterestRateIndexBase {
    family_name: String,
    tenor: Period,
    fixing_days: u32,
    currency: Currency,
    fixing_calendar: Calendar,
    day_counter: DayCounter,
    observable: Option<usize>,
}

impl InterestRateIndexBase {
    /// The observable the index announces its changes through, once it is
    /// registered with the settings.
    pub closed spec fn observable_spec(&self) -> Option<usize> {
        self.observable
    }

    /// The family name, as in `Euribor`.
    pub closed spec fn family_name_spec(&self) -> Seq<char> {
        self.family_name@
    }

    /// The tenor, a multiple of twelve months given as years.
    pub closed spec fn tenor_spec(&self) -> Period {
        self.tenor
    }

    /// The business days between a fixing and the start of its period.
    pub closed spec fn fixing_days_spec(&self) -> u32 {
        self.fixing_days
    }

    /// The code of the currency the rates are in.
    pub closed spec fn currency_spec(&self) -> Seq<char> {
        self.currency.code_spec()
    }

    /// The calendar the index fixes on.
    pub closed spec fn fixing_calendar_spec(&self) -> CalendarModel {
        self.fixing_calendar@
    }

    /// The day counter the rate accrues with.
    pub closed spec fn day_counter_spec(&self) -> DayCounter {
        self.day_counter
    }

    /// The index name: family, tenor label and day counter.
    pub open spec fn name_spec(&self) -> Seq<char> {
        self.family_name_spec() + tenor_label(self.tenor_spec(), self.fixing_days_spec()) + " "@
            + self.day_counter_spec().name_spec()
    }

    /// Whether `other` has the same family, tenor, fixing days, currency,
    /// calendar and day counter.
    pub open spec fn same_terms(&self, other: &InterestRateIndexBase) -> bool {
        &&& self.family_name_spec() == other.family_name_spec()
        &&& self.tenor_spec() == other.tenor_spec()
        &&& self.fixing_days_spec() == other.fixing_days_spec()
        &&& self.currency_spec() == other.currency_spec()
        &&& self.fixing_calendar_spec() == other.fixing_calendar_spec()
        &&& self.day_counter_spec() == other.day_counter_spec()
    }

    /// The terms of an index of `family_name` and `tenor`, in `currency`,
    /// fixing `fixing_days` business days ahead on `fixing_calendar` and
    /// accruing with `day_counter`; a whole number of years given in months
    /// is kept in years.
    pub fn new(
        family_name: String,
        tenor: Period,
        fixing_days: u32,
        currency: Currency,
        fixing_calendar: Calendar,
        day_counter: DayCounter,
    ) -> (r: InterestRateIndexBase)
        ensures
            r.family_name_spec() == family_name@,
            (r.tenor_spec().length_spec(), r.tenor_spec().units_spec()) == normalized_tenor(tenor),
            r.fixing_days_spec() == fixing_days,
            r.currency_spec() == currency.code_spec(),
            r.fixing_calendar_spec() == fixing_calendar@,
            r.day_counter_spec() == day_counter,
            r.observable_spec() is None,
    {
        InterestRateIndexBase {
            family_name,
            tenor: normalize_tenor(tenor),
            fixing_days,
            currency,
            fixing_calendar,
            day_counter,
            observable: None,
        }
    }

    /// A copy, with the same terms.
    pub fn copied(&self) -> (r: InterestRateIndexBase)
        ensures
            r.same_terms(self),
            r.observable_spec() == self.observable_spec(),
    {
        InterestRateIndexBase {
            family_name: self.family_name.clone(),
            tenor: self.tenor,
            fixing_days: self.fixing_days,
            currency: self.currency.copied(),
            fixing_calendar: self.fixing_calendar.copied(),
            day_counter: self.day_counter,
            observable: self.observable,
        }
    }

    /// Gives the index an observable of its own in `observables`, and
    /// registers a forwarder to it with the observable announcing a change
    /// of the evaluation date of `settings`, when there is one: a new
    /// evaluation date then reaches every observer of the index. Gives the
    /// index's observable.
    pub fn register_with(&mut self, settings: &Settings, observables: &mut Observables) -> (r: usize)
        requires
            old(observables)@.wf(),
            old(observables)@.subscribers.len() < usize::MAX,
            settings.evaluation_date_observable matches Some(a) ==> a < old(
                observables,
            )@.subscribers.len(),
        ensures
            r == old(observables)@.subscribers.len(),
            final(self).observable_spec() == Some(r),
            final(self).same_terms(&*old(self)),
            final(observables)@.wf(),
            final(observables)@ == old(observables)@.with_forwarded_observable(
                settings.evaluation_date_observable,
            ),
            settings.evaluation_date_observable matches Some(a) ==> final(observables)@.forwards(
                a as int,
                r as int,
            ),
    {
        let b = observables.add_forwarded_observable(settings.evaluation_date_observable);
        self.observable = Some(b);
        b
    }

    /// The observable the index announces its changes through, once it is
    /// registered with the settings.
    pub fn observable(&self) -> (r: Option<usize>)
        ensures
            r == self.observable_spec(),
    {
        self.observable
    }

    /// The index name, as in `Euribor6M Actual/360`.
    pub fn name(&self) -> (r: String)
        ensures
            r@ == self.name_spec(),
    {
        compose_name(self.family_name.as_str(), self.tenor, self.fixing_days, &self.day_counter)
    }

    /// The family name.
    pub fn family_name(&self) -> (r: &str)
        ensures
            r@ == self.family_name_spec(),
    {
        self.family_name.as_str()
    }

    /// The tenor.
    pub fn tenor(&self) -> (r: Period)
        ensures
            r == self.tenor_spec(),
    {
        self.tenor
    }

    /// The business days between a fixing and the start of its period.
    pub fn fixing_days(&self) -> (r: u32)
        ensures
            r == self.fixing_days_spec(),
    {
        self.fixing_days
    }

    /// The currency the rates are in.
    pub fn currency(&self) -> (r: &Currency)
        ensures
            r.code_spec() == self.currency_spec(),
    {
        &self.currency
    }

    /// The calendar the index fixes on.
    pub fn fixing_calendar(&self) -> (r: Calendar)
        ensures
            r@ == self.fixing_calendar_spec(),
    {
        self.fixing_calendar.copied()
    }

    /// The day counter the rate accrues with.
    pub fn day_counter(&self) -> (r: DayCounter)
        ensures
            r == self.day_counter_spec(),
    {
        self.day_counter
    }

    /// Whether the index fixes on `fixing_date`: a business day of its
    /// fixing calendar.
    pub fn is_valid_fixing_date(&self, fixing_date: Date) -> (r: bool)
        requires
            fixing_date.wf(),
        ensures
            r == self.fixing_calendar_spec().is_business(fixing_date@),
    {
        self.fixing_calendar.is_business_day(fixing_date)
    }

    /// The date the index fixes for a period starting on `value_date`: the
    /// fixing days back on the fixing calendar.
    pub fn fixing_date(&self, value_date: Date) -> (r: Date)
        requires
            value_date.wf(),
            self.fixing_days_spec() <= i32::MAX,
            advance_spec(
                self.fixing_calendar_spec(),
                value_date@,
                -(self.fixing_days_spec() as int),
                TimeUnit::Days,
                BusinessDayConvention::Following,
                false,
            ) is Some,
        ensures
            r.wf(),
            r@ == advance_spec(
                self.fixing_calendar_spec(),
                value_date@,
                -(self.fixing_days_spec() as int),
                TimeUnit::Days,
                BusinessDayConvention::Following,
                false,
            ).unwrap(),
    {
        self.fixing_calendar.advance(
            value_date,
            -(self.fixing_days as i32),
            TimeUnit::Days,
            BusinessDayConvention::Following,
            false,
        )
    }

    /// The start of the period fixed on `fixing_date`: the fixing days on on
    /// the fixing calendar; refused on a date the index does not fix on.
    pub fn value_date(&self, fixing_date: Date) -> (r: Result<Date, QlError>)
        requires
            fixing_date.wf(),
            self.fixing_days_spec() <= i32::MAX,
            self.fixing_calendar_spec().is_business(fixing_date@) ==> advance_spec(
                self.fixing_calendar_spec(),
                fixing_date@,
                self.fixing_days_spec() as int,
                TimeUnit::Days,
                BusinessDayConvention::Following,
                false,
            ) is Some,
        ensures
            !self.fixing_calendar_spec().is_business(fixing_date@) ==> r == Err::<Date, QlError>(
                QlError::InvalidFixingDate,
            ),
            self.fixing_calendar_spec().is_business(fixing_date@) ==> (r matches Ok(d) && d.wf()
                && d@ == advance_spec(
                self.fixing_calendar_spec(),
                fixing_date@,
                self.fixing_days_spec() as int,
                TimeUnit::Days,
                BusinessDayConvention::Following,
                false,
            ).unwrap()),
    {
        if !self.fixing_calendar.is_business_day(fixing_date) {
            return Err(QlError::InvalidFixingDate);
        }
        Ok(
            self.fixing_calendar.advance(
                fixing_date,
                self.fixing_days as i32,
                TimeUnit::Days,
                BusinessDayConvention::Following,
                false,
            ),
        )
    }
}

/// Law: once an interest-rate index is registered with the settings,
/// announcing a new evaluation date raises the flag of every observer of
/// the index.
pub proof fn lemma_evaluation_date_reaches_rate_index_observers(
    m: ObservablesModel,
    settings: Settings,
    index: InterestRateIndexBase,
    o: int,
)
    requires
        settings.evaluation_date_observable is Some,
        index.observable_spec() is Some,
        m.forwards(
            settings.evaluation_date_observable.unwrap() as int,
            index.observable_spec().unwrap() as int,
        ),
        m.observes(index.observable_spec().unwrap() as int, o),
    ensures
        m.after_notifying(settings.evaluation_date_observable.unwrap() as int).flags[o],
{
    lemma_forwarded_observers_are_notified(
        m,
        settings.evaluation_date_observable.unwrap() as int,
        index.observable_spec().unwrap() as int,
        o,
    );
}

} // verus!
