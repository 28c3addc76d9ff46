//! Inflation periods and the publication logic of inflation indexes.
use vstd::prelude::*;

use crate::currency::Currency;
use crate::errors::QlError;
use crate::indexes::fixings::{FixingStore, name_key};
use crate::indexes::region::Region;
use crate::patterns::observable::{
    Observables, ObservablesModel, Subscriber, lemma_forwarded_observers_are_notified,
};
use crate::settings::Settings;
use crate::time::calendar::{Calendar, null_calendar_spec, CalendarModel};
use crate::time::date::{
    Date, Month, days_in_month, lemma_civil, lemma_civil_of_serial, lemma_serial_bounds,
    lemma_serial_order, serial_of, valid_ymd,
};
use crate::time::date::{advance_ok, day_of, month_of, serial_advanced, year_of};
use crate::time::period::{Frequency, Period, TimeUnit};

verus! {

/// The number of months in one inflation period at frequency `f`, for the
/// frequencies an inflation index can publish at.
pub open spec fn months_per_period(f: Frequency) -> Option<int> {
    match f {
        Frequency::Annual => Some(12),
        Frequency::Semiannual => Some(6),
        Frequency::EveryFourthMonth => Some(4),
        Frequency::Quarterly => Some(3),
        Frequency::Bimonthly => Some(2),
        Frequency::Monthly => Some(1),
        _ => None,
    }
}

/// The first month of the period of `n` months, counted from January, that
/// holds month `m`.
pub open spec fn period_start_month(m: int, n: int) -> int {
    m - (m - 1) % n
}

/// The first day of the inflation period of the date with day `d`, month `m`
/// and year `y`, at `n` months per period.
pub open spec fn period_first_serial(m: int, y: int, n: int) -> int {
    serial_of(1, period_start_month(m, n), y)
}

/// The last day of that inflation period.
pub open spec fn period_last_serial(m: int, y: int, n: int) -> int {
    let end = period_start_month(m, n) + n - 1;
    serial_of(days_in_month(end, y), end, y)
}

/// The months of an inflation period of `n` months holding month `m`: they
/// start no later than `m` at a month aligned on January in blocks of `n`,
/// end no earlier than `m` within the year, and the period of its own first
/// month is itself.
pub proof fn lemma_period_months(m: int, n: int)
    requires
        1 <= m <= 12,
        n == 1 || n == 2 || n == 3 || n == 4 || n == 6 || n == 12,
    ensures
        1 <= period_start_month(m, n) <= m,
        m <= period_start_month(m, n) + n - 1 <= 12,
        (period_start_month(m, n) - 1) % n == 0,
        period_start_month(period_start_month(m, n), n) == period_start_month(m, n),
{
}

/// The inflation period `date` falls in, at the given `frequency`: its first
/// and last day, both inclusive.
///
/// `Monthly` gives the calendar month of `date`; a coarser frequency gives
/// the aligned block of `12 / frequency` months counted from January. Weekly,
/// daily and the other finer or sentinel frequencies are refused.
pub fn inflation_period(date: Date, frequency: Frequency) -> (r: Result<(Date, Date), QlError>)
    requires
        date.wf(),
    ensures
        months_per_period(frequency) is None ==> r == Err::<(Date, Date), QlError>(
            QlError::FrequencyNotHandled,
        ),
        months_per_period(frequency) matches Some(n) ==> (r matches Ok(p) && p.0.wf() && p.1.wf()
            && p.0@ == period_first_serial(date.month_spec(), date.year_spec(), n) && p.1@
            == period_last_serial(date.month_spec(), date.year_spec(), n)),
{
    let month = date.month().ordinal();
    let year = date.year();
    let n_months: i32 = match frequency {
        Frequency::Annual
        | Frequency::Semiannual
        | Frequency::EveryFourthMonth
        | Frequency::Quarterly
        | Frequency::Bimonthly
        | Frequency::Monthly => 12 / frequency.value(),
        _ => {
            return Err(QlError::FrequencyNotHandled);
        },
    };
    proof {
        lemma_period_months(month as int, n_months as int);
    }
    let start_month = month - (month - 1) % n_months;
    let end_month = start_month + n_months - 1;
    let first = Date::new(1, Month::from_ordinal(start_month), year);
    let last = Date::end_of_month(Date::new(1, Month::from_ordinal(end_month), year));
    Ok((first, last))
}

/// Law: an inflation period holds the date it is computed for. It starts on
/// the first of a month no later than the date's, aligned on January in
/// blocks of the period's length; it ends on the last day of a month no
/// earlier, in the same year; and computing the period of its own first day
/// gives it back.
pub proof fn lemma_inflation_period_contains(date: Date, n: int)
    requires
        date.wf(),
        n == 1 || n == 2 || n == 3 || n == 4 || n == 6 || n == 12,
    ensures
        period_first_serial(date.month_spec(), date.year_spec(), n) <= date@,
        date@ <= period_last_serial(date.month_spec(), date.year_spec(), n),
        ({
            let first = period_first_serial(date.month_spec(), date.year_spec(), n);
            let start = period_start_month(date.month_spec(), n);
            &&& crate::time::date::month_of(first) == start
            &&& crate::time::date::year_of(first) == date.year_spec()
            &&& crate::time::date::day_of(first) == 1
            &&& (start - 1) % n == 0
            &&& {
                let last = period_last_serial(date.month_spec(), date.year_spec(), n);
                let end = start + n - 1;
                &&& date.month_spec() <= end <= 12
                &&& crate::time::date::month_of(last) == end
                &&& crate::time::date::year_of(last) == date.year_spec()
                &&& crate::time::date::day_of(last) == days_in_month(end, date.year_spec())
            }
            &&& period_first_serial(start, date.year_spec(), n) == first
            &&& period_last_serial(start, date.year_spec(), n) == period_last_serial(
                date.month_spec(),
                date.year_spec(),
                n,
            )
        }),
{
    let s = date@;
    lemma_civil(s);
    let (d, m, y) = (date.day_spec(), date.month_spec(), date.year_spec());
    lemma_period_months(m, n);
    let start = period_start_month(m, n);
    let end = start + n - 1;
    assert(valid_ymd(1, start, y));
    assert(valid_ymd(days_in_month(end, y), end, y));
    lemma_serial_order(1, start, y, d, m, y);
    lemma_serial_order(d, m, y, days_in_month(end, y), end, y);
    lemma_civil_of_serial(1, start, y);
    lemma_civil_of_serial(days_in_month(end, y), end, y);
}

/// Where the inflation period of a fixing date lies against the latest
/// period that could have been published by the evaluation date.
#[derive(Clone, Copy, Debug, PartialEq, Eq, Structural)]
pub enum Publication {
    /// The period is older than the latest publishable one: its figure must
    /// be on record.
    Published,
    /// The period is the latest publishable one, starting on the given day:
    /// whether a figure is on record for that day decides.
    Pending(Date),
    /// The period is newer than anything published: its figure is forecast.
    Unpublished,
}


/// The publication status of the period of `fixing` (a serial), seen from
/// the evaluation date `today` (a serial) under `lag` and `n` months per
/// period.
pub open spec fn publication_spec(today: int, lag: Period, n: int, fixing: int) -> Publication {
    let horizon = serial_advanced(today, -lag.length_spec(), lag.units_spec());
    let latest_first = period_first_serial(month_of(horizon), year_of(horizon), n);
    let latest_last = period_last_serial(month_of(horizon), year_of(horizon), n);
    let needed = period_first_serial(month_of(fixing), year_of(fixing), n);
    if needed < latest_first {
        Publication::Published
    } else if needed > latest_last {
        Publication::Unpublished
    } else {
        Publication::Pending(choose|d: Date| d@ == needed)
    }
}

/// Where the inflation period of `fixing_date` lies against the latest period
/// publishable by `today`: the period of `today - availability_lag`.
///
/// This is the three-way decision of a zero inflation index on whether a
/// fixing is forecast. An older period must be on record; a newer one is
/// forecast; the latest publishable one is forecast only while no figure is
/// on record for its first day, which [`Publication::Pending`] carries.
pub fn publication_status(
    today: Option<Date>,
    availability_lag: Period,
    frequency: Frequency,
    fixing_date: Date,
) -> (r: Result<Publication, QlError>)
    requires
        fixing_date.wf(),
        today matches Some(t) ==> t.wf() && availability_lag.length_spec() > i32::MIN && advance_ok(
            t@,
            -availability_lag.length_spec(),
            availability_lag.units_spec(),
        ),
    ensures
        today is None ==> r == Err::<Publication, QlError>(QlError::NoEvaluationDate),
        today is Some && months_per_period(frequency) is None ==> r == Err::<Publication, QlError>(
            QlError::FrequencyNotHandled,
        ),
        today matches Some(t) ==> (months_per_period(frequency) matches Some(n) ==> (r matches Ok(p)
            && match (p, publication_spec(t@, availability_lag, n, fixing_date@)) {
            (Publication::Pending(d1), Publication::Pending(d2)) => d1@ == d2@ && d1.wf(),
            (p1, p2) => p1 == p2,
        })),
{
    let today = match today {
        Some(t) => t,
        None => {
            return Err(QlError::NoEvaluationDate);
        },
    };
    let horizon = today.sub_period(availability_lag);
    let latest_possible = match inflation_period(horizon, frequency) {
        Ok(p) => p,
        Err(e) => {
            return Err(e);
        },
    };
    let needed = match inflation_period(fixing_date, frequency) {
        Ok(p) => p.0,
        Err(e) => {
            return Err(e);
        },
    };
    if needed.serial_number() < latest_possible.0.serial_number() {
        Ok(Publication::Published)
    } else if needed.serial_number() > latest_possible.1.serial_number() {
        Ok(Publication::Unpublished)
    } else {
        Ok(Publication::Pending(needed))
    }
}

/// How an observation interpolates between the index fixings bracketing it.
#[derive(Clone, Copy, Debug, PartialEq, Eq, Structural)]
pub enum CpiInterpolationType {
    /// Flat from the previous fixing.
    Flat,
    /// Linearly between the bracketing fixings.
    Linear,
}

/// The fixings a lagged index observation reads, and how it weighs them.
#[derive(Clone, Copy, Debug, PartialEq, Eq, Structural)]
pub struct CpiObservation {
    /// The first day of the lagged fixing period: its fixing is the
    /// observation, or the start of the interpolation.
    pub first_fixing_date: Date,
    /// For a linear observation off the first day of its period, the second
    /// fixing and its weight: the observation is then
    /// `i0 + (i1 - i0) * elapsed / length`.
    pub interpolation: Option<CpiInterpolation>,
}

/// The second fixing of a linear observation and its weight.
#[derive(Clone, Copy, Debug, PartialEq, Eq, Structural)]
pub struct CpiInterpolation {
    /// The first day of the fixing period after the lagged one.
    pub next_fixing_date: Date,
    /// The days elapsed in the observation's own period.
    pub elapsed: i32,
    /// The length in days of the observation's own period.
    pub length: i32,
}

/// Whether `o` is the observation at `date` under `observation_lag`,
/// `frequency` and `interpolation_type`: the lagged date's period start as
/// first fixing date, and for a linear observation off its own period's
/// first day, the day after the lagged period as next fixing date, weighted
/// by the days elapsed in the observation's own period over its length.
pub open spec fn is_observation(
    date: Date,
    observation_lag: Period,
    frequency: Frequency,
    interpolation_type: CpiInterpolationType,
    o: CpiObservation,
) -> bool {
    months_per_period(frequency) matches Some(n) && {
        let lagged = serial_advanced(date@, -observation_lag.length_spec(), observation_lag.units_spec());
        let own_first = period_first_serial(date.month_spec(), date.year_spec(), n);
        let own_last = period_last_serial(date.month_spec(), date.year_spec(), n);
        &&& o.first_fixing_date.wf()
        &&& o.first_fixing_date@ == period_first_serial(month_of(lagged), year_of(lagged), n)
        &&& (interpolation_type is Flat || date@ == own_first) ==> o.interpolation is None
        &&& (interpolation_type is Linear && date@ != own_first) ==> (o.interpolation matches Some(
            i,
        ) && i.next_fixing_date.wf() && i.next_fixing_date@ == period_last_serial(
            month_of(lagged),
            year_of(lagged),
            n,
        ) + 1 && i.elapsed == date@ - own_first && i.length == own_last + 1 - own_first)
    }
}

/// The fixings an index observation at `date` reads under `observation_lag`
/// and `interpolation_type`.
///
/// Subtracting the lag from `date` lands in the fixing period, whose first
/// day's fixing is read. A linear observation also reads the next period's
/// fixing, weighted by how far `date` has run into its own period, except on
/// that period's first day, where the weight is zero and only one fixing is
/// read.
pub fn cpi_observation(
    date: Date,
    observation_lag: Period,
    frequency: Frequency,
    interpolation_type: CpiInterpolationType,
) -> (r: Result<CpiObservation, QlError>)
    requires
        date.wf(),
        observation_lag.length_spec() > i32::MIN,
        advance_ok(date@, -observation_lag.length_spec(), observation_lag.units_spec()),
        ({
            let lagged = serial_advanced(
                date@,
                -observation_lag.length_spec(),
                observation_lag.units_spec(),
            );
            months_per_period(frequency) matches Some(n) ==> period_last_serial(
                month_of(lagged),
                year_of(lagged),
                n,
            ) < crate::time::date::MAX_SERIAL
        }),
    ensures
        months_per_period(frequency) is None ==> r == Err::<CpiObservation, QlError>(
            QlError::FrequencyNotHandled,
        ),
        months_per_period(frequency) is Some ==> (r matches Ok(o) && is_observation(
            date,
            observation_lag,
            frequency,
            interpolation_type,
            o,
        )),
{
    let lagged = date.sub_period(observation_lag);
    let fixing_period = match inflation_period(lagged, frequency) {
        Ok(p) => p,
        Err(e) => {
            return Err(e);
        },
    };
    match interpolation_type {
        CpiInterpolationType::Flat => Ok(
            CpiObservation { first_fixing_date: fixing_period.0, interpolation: None },
        ),
        CpiInterpolationType::Linear => {
            let own = match inflation_period(date, frequency) {
                Ok(p) => p,
                Err(e) => {
                    return Err(e);
                },
            };
            if date.serial_number() == own.0.serial_number() {
                return Ok(CpiObservation { first_fixing_date: fixing_period.0, interpolation: None });
            }
            let next = fixing_period.1.add_days(1);
            let elapsed = date.days_since(&own.0);
            let length = own.1.days_since(&own.0) + 1;
            Ok(
                CpiObservation {
                    first_fixing_date: fixing_period.0,
                    interpolation: Some(
                        CpiInterpolation { next_fixing_date: next, elapsed, length },
                    ),
                },
            )
        },
    }
}

/// Law: once an index is registered with the settings, announcing a new
/// evaluation date raises the flag of every observer of the index.
pub proof fn lemma_evaluation_date_reaches_index_observers(
    m: ObservablesModel,
    settings: Settings,
    index: InflationIndexBase,
    o: int,
)
    requires
        settings.evaluation_date_observable is Some,
        index.observable_spec() is Some,
        m.forwards(
            settings.evaluation_date_observable.unwrap() as int,
            index.observable_spec().unwrap() as int,
        ),
        m.observes(index.observable_spec().unwrap() as int, o),
    ensures
        m.after_notifying(settings.evaluation_date_observable.unwrap() as int).flags[o],
{
    lemma_forwarded_observers_are_notified(
        m,
        settings.evaluation_date_observable.unwrap() as int,
        index.observable_spec().unwrap() as int,
        o,
    );
}

/// What every inflation index is: a family of figures published for a
/// region at a frequency, some time after the period they measure.
pub struct InflationIndexBase {
    family_name: String,
    region: Region,
    revised: bool,
    frequency: Frequency,
    availability_lag: Period,
    currency: Currency,
    observable: Option<usize>,
}

impl InflationIndexBase {
    /// The observable the index announces its changes through, once it is
    /// registered with the settings.
    pub closed spec fn observable_spec(&self) -> Option<usize> {
        self.observable
    }

    /// Whether `other` has the same family, region, revision flag,
    /// frequency, lag and currency.
    pub open spec fn same_terms(&self, other: &InflationIndexBase) -> bool {
        &&& self.family_name_spec() == other.family_name_spec()
        &&& *self.region_spec() == *other.region_spec()
        &&& self.revised_spec() == other.revised_spec()
        &&& self.frequency_spec() == other.frequency_spec()
        &&& self.availability_lag_spec() == other.availability_lag_spec()
        &&& *self.currency_spec() == *other.currency_spec()
    }

    /// The index family, as in `RPI`.
    pub closed spec fn family_name_spec(&self) -> Seq<char> {
        self.family_name@
    }

    /// The region the index is published for.
    pub closed spec fn region_spec(&self) -> &Region {
        &self.region
    }

    /// Whether published figures may be revised.
    pub closed spec fn revised_spec(&self) -> bool {
        self.revised
    }

    /// How often figures are published.
    pub closed spec fn frequency_spec(&self) -> Frequency {
        self.frequency
    }

    /// How long after its period a figure is published.
    pub closed spec fn availability_lag_spec(&self) -> Period {
        self.availability_lag
    }

    /// The currency of the index.
    pub closed spec fn currency_spec(&self) -> &Currency {
        &self.currency
    }

    /// The index name: the region's name, a space, then the family.
    pub open spec fn name_spec(&self) -> Seq<char> {
        self.region_spec().name_spec() + " "@ + self.family_name_spec()
    }

    /// An index of `family_name` for `region`, published at `frequency`
    /// `availability_lag` after its period.
    pub fn new(
        family_name: String,
        region: Region,
        revised: bool,
        frequency: Frequency,
        availability_lag: Period,
        currency: Currency,
    ) -> (r: InflationIndexBase)
        ensures
            r.family_name_spec() == family_name@,
            *r.region_spec() == region,
            r.revised_spec() == revised,
            r.frequency_spec() == frequency,
            r.availability_lag_spec() == availability_lag,
            *r.currency_spec() == currency,
            r.observable_spec() is None,
    {
        InflationIndexBase {
            family_name,
            region,
            revised,
            frequency,
            availability_lag,
            currency,
            observable: None,
        }
    }

    /// An index as [`new`](Self::new) builds it, registered with `settings`
    /// as [`register_with`](Self::register_with) registers it.
    pub fn new_registered(
        family_name: String,
        region: Region,
        revised: bool,
        frequency: Frequency,
        availability_lag: Period,
        currency: Currency,
        settings: &Settings,
        observables: &mut Observables,
    ) -> (r: InflationIndexBase)
        requires
            old(observables)@.wf(),
            old(observables)@.subscribers.len() < usize::MAX,
            settings.evaluation_date_observable matches Some(a) ==> a < old(
                observables,
            )@.subscribers.len(),
        ensures
            r.family_name_spec() == family_name@,
            *r.region_spec() == region,
            r.revised_spec() == revised,
            r.frequency_spec() == frequency,
            r.availability_lag_spec() == availability_lag,
            *r.currency_spec() == currency,
            r.observable_spec() == Some(old(observables)@.subscribers.len() as usize),
            final(observables)@.wf(),
            final(observables)@ == old(observables)@.with_forwarded_observable(
                settings.evaluation_date_observable,
            ),
    {
        let mut base = InflationIndexBase::new(
            family_name,
            region,
            revised,
            frequency,
            availability_lag,
            currency,
        );
        base.register_with(settings, observables);
        base
    }

    /// Gives the index an observable of its own in `observables`, and
    /// registers a forwarder to it with the observable announcing a change
    /// of the evaluation date of `settings`, when there is one: a new
    /// evaluation date then reaches every observer of the index. Gives the
    /// index's observable.
    pub fn register_with(&mut self, settings: &Settings, observables: &mut Observables) -> (r: usize)
        requires
            old(observables)@.wf(),
            old(observables)@.subscribers.len() < usize::MAX,
            settings.evaluation_date_observable matches Some(a) ==> a < old(
                observables,
            )@.subscribers.len(),
        ensures
            r == old(observables)@.subscribers.len(),
            final(self).observable_spec() == Some(r),
            final(self).same_terms(&*old(self)),
            final(observables)@.wf(),
            final(observables)@ == old(observables)@.with_forwarded_observable(
                settings.evaluation_date_observable,
            ),
            settings.evaluation_date_observable matches Some(a) ==> final(observables)@.forwards(
                a as int,
                r as int,
            ),
    {
        let b = observables.add_forwarded_observable(settings.evaluation_date_observable);
        self.observable = Some(b);
        b
    }

    /// The observable the index announces its changes through, once it is
    /// registered with the settings.
    pub fn observable(&self) -> (r: Option<usize>)
        ensures
            r == self.observable_spec(),
    {
        self.observable
    }

    /// What to register with an observable the index depends on, such as
    /// its curve's, once the index is registered with the settings: a
    /// forwarder to the index's own observable, so that a change there
    /// reaches every observer of the index.
    pub fn observer(&self) -> (r: Option<Subscriber>)
        ensures
            r == match self.observable_spec() {
                Some(b) => Some(Subscriber::Forward(b)),
                None => None::<Subscriber>,
            },
    {
        match self.observable {
            Some(b) => Some(Subscriber::Forward(b)),
            None => None,
        }
    }

    /// The index name, as in `UK RPI`.
    pub fn name(&self) -> (r: String)
        ensures
            r@ == self.name_spec(),
    {
        let mut name = self.region.name().to_owned();
        name.append(" ");
        name.append(self.family_name.as_str());
        proof {
            reveal_strlit(" ");
        }
        name
    }

    /// The calendar figures are filed on: every day counts.
    pub fn fixing_calendar(&self) -> (r: Calendar)
        ensures
            r@ == null_calendar_spec(),
    {
        Calendar::null()
    }

    /// Whether a figure can be filed on `fixing_date`: always, as a figure
    /// belongs to a period rather than to a business day.
    pub fn is_valid_fixing_date(&self, fixing_date: Date) -> (r: bool)
        ensures
            r,
    {
        true
    }

    /// The index family.
    pub fn family_name(&self) -> (r: &str)
        ensures
            r@ == self.family_name_spec(),
    {
        self.family_name.as_str()
    }

    /// The region the index is published for.
    pub fn region(&self) -> (r: &Region)
        ensures
            r == self.region_spec(),
    {
        &self.region
    }

    /// Whether published figures may be revised.
    pub fn revised(&self) -> (r: bool)
        ensures
            r == self.revised_spec(),
    {
        self.revised
    }

    /// How often figures are published.
    pub fn frequency(&self) -> (r: Frequency)
        ensures
            r == self.frequency_spec(),
    {
        self.frequency
    }

    /// How long after its period a figure is published.
    pub fn availability_lag(&self) -> (r: Period)
        ensures
            r == self.availability_lag_spec(),
    {
        self.availability_lag
    }

    /// The currency of the index.
    pub fn currency(&self) -> (r: &Currency)
        ensures
            r == self.currency_spec(),
    {
        &self.currency
    }

    /// Files `value` in `store` under the index name on every day of the
    /// inflation period of `fixing_date`, in place of what was filed there;
    /// nothing else changes. Refused for a frequency finer than monthly.
    pub fn add_fixing<R: Copy>(&self, store: &mut FixingStore<R>, fixing_date: Date, value: R) -> (r:
        Result<(), QlError>)
        requires
            fixing_date.wf(),
        ensures
            ({
                let key = name_key(self.name_spec());
                match months_per_period(self.frequency_spec()) {
                    None => r == Err::<(), QlError>(QlError::FrequencyNotHandled) && *final(store)
                        == *old(store),
                    Some(n) => {
                        let first = period_first_serial(fixing_date.month_spec(), fixing_date.year_spec(), n);
                        let last = period_last_serial(fixing_date.month_spec(), fixing_date.year_spec(), n);
                        &&& r is Ok
                        &&& forall|d: int| first <= d <= last ==> #[trigger] final(store).fixing_spec(key, d) == Some(value)
                        &&& forall|k: Seq<u8>, d: int| !(k == key && first <= d <= last) ==> #[trigger] final(store).fixing_spec(k, d)
                            == old(store).fixing_spec(k, d)
                    },
                }
            }),
    {
        let (first, last) = match inflation_period(fixing_date, self.frequency) {
            Ok(p) => p,
            Err(e) => {
                return Err(e);
            },
        };
        let name = self.name();
        let ghost key = name_key(name@);
        let ghost before = *store;
        let days = last.days_since(&first);
        let mut i: i32 = 0;
        while i <= days
            invariant
                first.wf(),
                last.wf(),
                days == last@ - first@,
                0 <= i <= days + 1,
                key == name_key(name@),
                forall|d: int| first@ <= d < first@ + i ==> #[trigger] store.fixing_spec(key, d) == Some(value),
                forall|k: Seq<u8>, d: int| !(k == key && first@ <= d < first@ + i) ==> #[trigger] store.fixing_spec(k, d)
                    == before.fixing_spec(k, d),
            decreases days + 1 - i,
        {
            let day = first.add_days(i);
            store.add_fixing(name.as_str(), day, value);
            i = i + 1;
        }
        Ok(())
    }

    /// Whether a figure is filed in `store` under the index name on `date`.
    pub fn has_historical_fixing<R: Copy>(&self, store: &FixingStore<R>, date: Date) -> (r: bool)
        ensures
            r == (store.fixing_spec(name_key(self.name_spec()), date@) is Some),
    {
        let name = self.name();
        store.has_fixing(name.as_str(), date)
    }
}

/// An inflation index: what every kind shares, reached through its base.
pub trait InflationIndex {
    /// The index's family, region, frequency, lag and currency.
    fn inflation_base(&self) -> &InflationIndexBase;
}

/// An index of the level of prices, such as a consumer price index.
pub struct ZeroInflationIndex {
    base: InflationIndexBase,
}

impl InflationIndex for ZeroInflationIndex {
    fn inflation_base(&self) -> &InflationIndexBase {
        &self.base
    }
}

/// Whether `today` and the availability lag put the publication horizon in
/// the supported range.
pub open spec fn horizon_defined(today: Option<Date>, lag: Period) -> bool {
    today matches Some(t) ==> t.wf() && lag.length_spec() > i32::MIN && advance_ok(
        t@,
        -lag.length_spec(),
        lag.units_spec(),
    )
}

impl ZeroInflationIndex {
    /// The index's family, region, frequency, lag and currency.
    pub closed spec fn base_spec(&self) -> &InflationIndexBase {
        &self.base
    }

    /// The key the index's figures are filed under.
    pub open spec fn key(&self) -> Seq<u8> {
        name_key(self.base_spec().name_spec())
    }

    /// What [`fixing`](Self::fixing) gives for the period of `fixing_date`:
    /// refused without an evaluation date or at an unhandled frequency;
    /// refused as needing a curve when forecast; else the stored figure,
    /// refused when missing.
    pub open spec fn fixing_outcome<R>(&self, settings: Settings, store: FixingStore<R>, fixing_date: Date) -> Result<
        R,
        QlError,
    > {
        match settings.evaluation_date {
            None => Err(QlError::NoEvaluationDate),
            Some(today) => match months_per_period(self.base_spec().frequency_spec()) {
                None => Err(QlError::FrequencyNotHandled),
                Some(n) => if self.needs_forecast_spec(today, store, fixing_date, n) {
                    Err(QlError::EmptyHandle)
                } else {
                    match store.fixing_spec(
                        self.key(),
                        period_first_serial(fixing_date.month_spec(), fixing_date.year_spec(), n),
                    ) {
                        Some(v) => Ok(v),
                        None => Err(QlError::MissingFixing),
                    }
                },
            },
        }
    }

    /// Whether the index's figure for the period of `fixing_date` is
    /// forecast rather than read, seen from `today`: a period older than
    /// the latest publishable one is read, a newer one forecast, and the
    /// latest publishable one forecast while nothing is filed on its first
    /// day.
    pub open spec fn needs_forecast_spec<R>(
        &self,
        today: Date,
        store: FixingStore<R>,
        fixing_date: Date,
        n: int,
    ) -> bool {
        match publication_spec(today@, self.base_spec().availability_lag_spec(), n, fixing_date@) {
            Publication::Published => false,
            Publication::Unpublished => true,
            Publication::Pending(d) => store.fixing_spec(self.key(), d@) is None,
        }
    }

    /// An index of `family_name` for `region`, published at `frequency`
    /// `availability_lag` after its period.
    pub fn new(
        family_name: String,
        region: Region,
        revised: bool,
        frequency: Frequency,
        availability_lag: Period,
        currency: Currency,
    ) -> (r: ZeroInflationIndex)
        ensures
            r.base_spec().family_name_spec() == family_name@,
            *r.base_spec().region_spec() == region,
            r.base_spec().revised_spec() == revised,
            r.base_spec().frequency_spec() == frequency,
            r.base_spec().availability_lag_spec() == availability_lag,
            *r.base_spec().currency_spec() == currency,
    {
        ZeroInflationIndex {
            base: InflationIndexBase::new(
                family_name,
                region,
                revised,
                frequency,
                availability_lag,
                currency,
            ),
        }
    }

    /// Registers the index with `settings`, as
    /// [`InflationIndexBase::register_with`] does; gives the index's
    /// observable.
    pub fn register_with(&mut self, settings: &Settings, observables: &mut Observables) -> (r: usize)
        requires
            old(observables)@.wf(),
            old(observables)@.subscribers.len() < usize::MAX,
            settings.evaluation_date_observable matches Some(a) ==> a < old(
                observables,
            )@.subscribers.len(),
        ensures
            r == old(observables)@.subscribers.len(),
            final(self).base_spec().observable_spec() == Some(r),
            final(self).base_spec().same_terms(old(self).base_spec()),
            final(observables)@.wf(),
            final(observables)@ == old(observables)@.with_forwarded_observable(
                settings.evaluation_date_observable,
            ),
            settings.evaluation_date_observable matches Some(a) ==> final(observables)@.forwards(
                a as int,
                r as int,
            ),
    {
        self.base.register_with(settings, observables)
    }

    /// The observable the index announces its changes through, once it is
    /// registered with the settings.
    pub fn observable(&self) -> (r: Option<usize>)
        ensures
            r == self.base_spec().observable_spec(),
    {
        self.base.observable()
    }

    /// The index's family, region, frequency, lag and currency.
    pub fn base(&self) -> (r: &InflationIndexBase)
        ensures
            r == self.base_spec(),
    {
        &self.base
    }

    /// The index name, as in `UK RPI`.
    pub fn name(&self) -> (r: String)
        ensures
            r@ == self.base_spec().name_spec(),
    {
        self.base.name()
    }

    /// Whether a figure can be filed on `fixing_date`: always.
    pub fn is_valid_fixing_date(&self, fixing_date: Date) -> (r: bool)
        ensures
            r,
    {
        true
    }

    /// The first day of the period of the latest figure filed in `store`;
    /// refused when none is filed, or for a frequency finer than monthly.
    pub fn last_fixing_date<R: Copy>(&self, store: &FixingStore<R>) -> (r: Result<Date, QlError>)
        requires
            forall|d: int| #[trigger] store.fixing_spec(self.key(), d) is Some ==> crate::time::date::serial_in_range(d),
        ensures
            (forall|d: int| store.fixing_spec(self.key(), d) is None) ==> r == Err::<Date, QlError>(
                QlError::NoFixingsStored,
            ),
            (exists|d: int| store.fixing_spec(self.key(), d) is Some) && months_per_period(self.base_spec().frequency_spec()) is None
                ==> r == Err::<Date, QlError>(QlError::FrequencyNotHandled),
            (exists|d: int| store.fixing_spec(self.key(), d) is Some) && months_per_period(self.base_spec().frequency_spec()) is Some
                ==> r is Ok,
            r matches Ok(first) ==> exists|last: Date| {
                &&& store.is_last_date(self.key(), last@)
                &&& #[trigger] months_per_period(self.base_spec().frequency_spec()) matches Some(n) && first@
                    == period_first_serial(last.month_spec(), last.year_spec(), n)
            },
    {
        let name = self.base.name();
        let last = match store.last_fixing_date(name.as_str()) {
            Some(d) => d,
            None => {
                return Err(QlError::NoFixingsStored);
            },
        };
        assert(last.wf());
        match inflation_period(last, self.base.frequency()) {
            Ok(p) => Ok(p.0),
            Err(e) => Err(e),
        }
    }

    /// Whether the figure for the period of `fixing_date` is forecast rather
    /// than read from `store`, seen from the evaluation date; refused without
    /// an evaluation date, or for a frequency finer than monthly.
    pub fn needs_forecast<R: Copy>(&self, settings: &Settings, store: &FixingStore<R>, fixing_date: Date) -> (r:
        Result<bool, QlError>)
        requires
            fixing_date.wf(),
            horizon_defined(settings.evaluation_date, self.base_spec().availability_lag_spec()),
        ensures
            settings.evaluation_date is None ==> r == Err::<bool, QlError>(QlError::NoEvaluationDate),
            settings.evaluation_date is Some && months_per_period(self.base_spec().frequency_spec()) is None
                ==> r == Err::<bool, QlError>(QlError::FrequencyNotHandled),
            settings.evaluation_date matches Some(today) ==> (months_per_period(
                self.base_spec().frequency_spec(),
            ) matches Some(n) ==> r == Ok::<bool, QlError>(
                self.needs_forecast_spec(today, *store, fixing_date, n),
            )),
    {
        let status = match publication_status(
            settings.evaluation_date,
            self.base.availability_lag(),
            self.base.frequency(),
            fixing_date,
        ) {
            Ok(s) => s,
            Err(e) => {
                return Err(e);
            },
        };
        match status {
            Publication::Published => Ok(false),
            Publication::Unpublished => Ok(true),
            Publication::Pending(first) => {
                let name = self.base.name();
                proof {
                    let today = settings.evaluation_date.unwrap();
                    let n = months_per_period(self.base_spec().frequency_spec()).unwrap();
                    let d = choose|d: Date| d@ == period_first_serial(month_of(fixing_date@), year_of(fixing_date@), n);
                    crate::time::date::lemma_date_view_injective(d, first);
                }
                Ok(!store.has_fixing(name.as_str(), first))
            },
        }
    }

    /// The figure filed in `store` for the period of `fixing_date`, on the
    /// period's first day, if any; refused for a frequency finer than
    /// monthly.
    pub fn past_fixing<R: Copy>(&self, store: &FixingStore<R>, fixing_date: Date) -> (r: Result<Option<R>, QlError>)
        requires
            fixing_date.wf(),
        ensures
            match months_per_period(self.base_spec().frequency_spec()) {
                None => r == Err::<Option<R>, QlError>(QlError::FrequencyNotHandled),
                Some(n) => r == Ok::<Option<R>, QlError>(
                    store.fixing_spec(
                        self.key(),
                        period_first_serial(fixing_date.month_spec(), fixing_date.year_spec(), n),
                    ),
                ),
            },
    {
        let first = match inflation_period(fixing_date, self.base.frequency()) {
            Ok(p) => p.0,
            Err(e) => {
                return Err(e);
            },
        };
        let name = self.base.name();
        Ok(store.fixing(name.as_str(), first))
    }

    /// The figure for the period of `fixing_date`: read from `store` unless
    /// it is forecast, which needs an inflation curve this index does not
    /// have and is refused. A period that should be on record but is not is
    /// refused as missing. Whether today's figure is forecast is decided by
    /// the publication horizon alone, whatever `forecast_todays_fixing` says.
    pub fn fixing<R: Copy>(
        &self,
        settings: &Settings,
        store: &FixingStore<R>,
        fixing_date: Date,
        forecast_todays_fixing: bool,
    ) -> (r: Result<R, QlError>)
        requires
            fixing_date.wf(),
            horizon_defined(settings.evaluation_date, self.base_spec().availability_lag_spec()),
        ensures
            r == self.fixing_outcome(*settings, *store, fixing_date),
    {
        let forecast = match self.needs_forecast(settings, store, fixing_date) {
            Ok(b) => b,
            Err(e) => {
                return Err(e);
            },
        };
        if forecast {
            return Err(QlError::EmptyHandle);
        }
        match self.past_fixing(store, fixing_date) {
            Ok(Some(v)) => Ok(v),
            Ok(None) => Err(QlError::MissingFixing),
            Err(e) => Err(e),
        }
    }

    /// Files `value` in `store` on every day of the inflation period of
    /// `fixing_date`, as [`InflationIndexBase::add_fixing`] does.
    pub fn add_fixing<R: Copy>(&self, store: &mut FixingStore<R>, fixing_date: Date, value: R) -> (r:
        Result<(), QlError>)
        requires
            fixing_date.wf(),
        ensures
            ({
                let key = self.key();
                match months_per_period(self.base_spec().frequency_spec()) {
                    None => r == Err::<(), QlError>(QlError::FrequencyNotHandled) && *final(store)
                        == *old(store),
                    Some(n) => {
                        let first = period_first_serial(fixing_date.month_spec(), fixing_date.year_spec(), n);
                        let last = period_last_serial(fixing_date.month_spec(), fixing_date.year_spec(), n);
                        &&& r is Ok
                        &&& forall|d: int| first <= d <= last ==> #[trigger] final(store).fixing_spec(key, d) == Some(value)
                        &&& forall|k: Seq<u8>, d: int| !(k == key && first <= d <= last) ==> #[trigger] final(store).fixing_spec(k, d)
                            == old(store).fixing_spec(k, d)
                    },
                }
            }),
    {
        self.base.add_fixing(store, fixing_date, value)
    }

    /// Files each value in `store` under the index name on its own date
    /// alone, in order.
    pub fn add_fixings<R: Copy>(&self, store: &mut FixingStore<R>, fixings: Vec<(Date, R)>)
        ensures
            forall|d: int|
                (exists|i: int| 0 <= i < fixings@.len() && (#[trigger] fixings@[i]).0@ == d) ==> final(store).fixing_spec(self.key(), d) is Some,
            forall|k: Seq<u8>, d: int|
                !(k == self.key() && exists|i: int| 0 <= i < fixings@.len() && (#[trigger] fixings@[i]).0@ == d)
                    ==> #[trigger] final(store).fixing_spec(k, d) == old(store).fixing_spec(k, d),
            forall|i: int|
                0 <= i < fixings@.len() && (forall|j: int| i < j < fixings@.len() ==> (#[trigger] fixings@[j]).0@ != fixings@[i].0@)
                    ==> final(store).fixing_spec(self.key(), (#[trigger] fixings@[i]).0@) == Some(fixings@[i].1),
    {
        let name = self.base.name();
        let ghost key = self.key();
        let ghost before = *store;
        let mut i: usize = 0;
        while i < fixings.len()
            invariant
                i <= fixings@.len(),
                key == self.key(),
                key == name_key(name@),
                forall|d: int|
                    (exists|k: int| 0 <= k < i && (#[trigger] fixings@[k]).0@ == d) ==> store.fixing_spec(key, d) is Some,
                forall|kk: Seq<u8>, d: int|
                    !(kk == key && exists|k: int| 0 <= k < i && (#[trigger] fixings@[k]).0@ == d)
                        ==> #[trigger] store.fixing_spec(kk, d) == before.fixing_spec(kk, d),
                forall|k: int|
                    0 <= k < i && (forall|j: int| k < j < i ==> (#[trigger] fixings@[j]).0@ != fixings@[k].0@)
                        ==> store.fixing_spec(key, (#[trigger] fixings@[k]).0@) == Some(fixings@[k].1),
            decreases fixings.len() - i,
        {
            let (date, value) = fixings[i];
            store.add_fixing(name.as_str(), date, value);
            i = i + 1;
        }
    }

    /// Whether a figure is filed in `store` under the index name on `date`.
    pub fn has_historical_fixing<R: Copy>(&self, store: &FixingStore<R>, date: Date) -> (r: bool)
        ensures
            r == (store.fixing_spec(self.key(), date@) is Some),
    {
        self.base.has_historical_fixing(store, date)
    }
}

/// What a lagged observation of an index reads: the observation itself and
/// the fixings on its dates. The observed value is `first`, or, for an
/// interpolated observation, `first + (next - first) * elapsed / length`.
#[derive(Clone, Copy, Debug, PartialEq)]
pub struct LaggedFixing<R> {
    /// Which fixings are read, and how they are weighted.
    pub observation: CpiObservation,
    /// The fixing on the first fixing date.
    pub first: R,
    /// For an interpolated observation, the fixing on the next fixing date.
    pub next: Option<R>,
}

/// Lagged observations of zero inflation indexes.
pub struct Cpi;

impl Cpi {
    /// The observation of `index` at `date` under `observation_lag` and
    /// `interpolation_type`, with the fixings it reads as the index gives
    /// them; the second fixing is read only for an interpolated
    /// observation. Refused at a frequency without periods, then as the
    /// index refuses the first fixing, then the second.
    pub fn lagged_fixing<R: Copy>(
        index: &ZeroInflationIndex,
        settings: &Settings,
        store: &FixingStore<R>,
        date: Date,
        observation_lag: Period,
        interpolation_type: CpiInterpolationType,
    ) -> (r: Result<LaggedFixing<R>, QlError>)
        requires
            date.wf(),
            observation_lag.length_spec() > i32::MIN,
            advance_ok(date@, -observation_lag.length_spec(), observation_lag.units_spec()),
            ({
                let lagged = serial_advanced(
                    date@,
                    -observation_lag.length_spec(),
                    observation_lag.units_spec(),
                );
                months_per_period(index.base_spec().frequency_spec()) matches Some(n)
                    ==> period_last_serial(month_of(lagged), year_of(lagged), n)
                    < crate::time::date::MAX_SERIAL
            }),
            horizon_defined(settings.evaluation_date, index.base_spec().availability_lag_spec()),
        ensures
            ({
                let frequency = index.base_spec().frequency_spec();
                &&& months_per_period(frequency) is None ==> r == Err::<LaggedFixing<R>, QlError>(
                    QlError::FrequencyNotHandled,
                )
                &&& r matches Ok(l) ==> {
                    &&& is_observation(date, observation_lag, frequency, interpolation_type, l.observation)
                    &&& index.fixing_outcome(*settings, *store, l.observation.first_fixing_date) == Ok::<
                        R,
                        QlError,
                    >(l.first)
                    &&& match l.observation.interpolation {
                        None => l.next is None,
                        Some(i) => l.next matches Some(v) && index.fixing_outcome(
                            *settings,
                            *store,
                            i.next_fixing_date,
                        ) == Ok::<R, QlError>(v),
                    }
                }
                &&& r matches Err(e) ==> (months_per_period(frequency) is None || exists|o: CpiObservation|
                    #![trigger is_observation(date, observation_lag, frequency, interpolation_type, o)]
                    is_observation(date, observation_lag, frequency, interpolation_type, o) && {
                        let first = index.fixing_outcome(*settings, *store, o.first_fixing_date);
                        ||| first == Err::<R, QlError>(e)
                        ||| first is Ok && (o.interpolation matches Some(i) && index.fixing_outcome(
                            *settings,
                            *store,
                            i.next_fixing_date,
                        ) == Err::<R, QlError>(e))
                    })
            }),
    {
        let frequency = index.base().frequency();
        let observation = match cpi_observation(date, observation_lag, frequency, interpolation_type) {
            Ok(o) => o,
            Err(e) => {
                return Err(e);
            },
        };
        let first = match index.fixing(settings, store, observation.first_fixing_date, false) {
            Ok(v) => v,
            Err(e) => {
                return Err(e);
            },
        };
        match observation.interpolation {
            None => Ok(LaggedFixing { observation, first, next: None }),
            Some(i) => match index.fixing(settings, store, i.next_fixing_date, false) {
                Ok(v) => Ok(LaggedFixing { observation, first, next: Some(v) }),
                Err(e) => Err(e),
            },
        }
    }
}

} // verus!
