use libitofin::currency::Currency;
use libitofin::errors::QlError;
use libitofin::indexes::fixings::FixingStore;
use libitofin::indexes::inflation::euhicp::EuHicp;
use libitofin::indexes::inflation::ukrpi::UkRpi;
use libitofin::indexes::inflationindex::{
    inflation_period, Cpi, CpiInterpolationType, InflationIndexBase, ZeroInflationIndex,
};
use libitofin::indexes::region::Region;
use libitofin::patterns::observable::{Observables, Subscriber};
use libitofin::settings::Settings;
use libitofin::time::date::Month::{
    April, December, February, January, March, November, October, September,
};
use libitofin::time::date::{Date, Month};
use libitofin::time::period::{Frequency, Period, TimeUnit};

fn a_base_index(frequency: Frequency) -> InflationIndexBase {
    InflationIndexBase::new(
        "RPI".to_string(),
        Region::uk(),
        false,
        frequency,
        Period::new(1, TimeUnit::Months),
        Currency::gbp(),
    )
}

fn a_zero_index(frequency: Frequency) -> ZeroInflationIndex {
    ZeroInflationIndex::new(
        "RPI".to_string(),
        Region::uk(),
        false,
        frequency,
        Period::new(1, TimeUnit::Months),
        Currency::gbp(),
    )
}

#[test]
fn euhicp_construction_matches_the_cpp_table() {
    let index = EuHicp::new();
    let base = index.base();

    assert_eq!(index.name(), "EU HICP");
    assert_eq!(base.frequency(), Frequency::Monthly);
    assert!(!base.revised());
    assert_eq!(base.availability_lag(), Period::new(1, TimeUnit::Months));
    assert_eq!(base.currency().code(), "EUR");
}

#[test]
fn ukrpi_construction_matches_the_cpp_table() {
    let index = UkRpi::new();
    let base = index.base();

    assert_eq!(index.name(), "UK RPI");
    assert_eq!(base.frequency(), Frequency::Monthly);
    assert!(!base.revised());
    assert_eq!(base.availability_lag(), Period::new(1, TimeUnit::Months));
    assert_eq!(base.currency().code(), "GBP");
}

#[test]
fn name_is_region_plus_family() {
    let index = a_base_index(Frequency::Monthly);
    assert_eq!(index.name(), "UK RPI");
}

#[test]
fn inspectors_round_trip_construction() {
    let index = a_base_index(Frequency::Monthly);
    assert_eq!(index.family_name(), "RPI");
    assert_eq!(index.region(), &Region::uk());
    assert!(!index.revised());
    assert_eq!(index.frequency(), Frequency::Monthly);
    assert_eq!(index.availability_lag(), Period::new(1, TimeUnit::Months));
    assert_eq!(index.currency().code(), "GBP");
}

#[test]
fn every_date_is_a_valid_fixing_date() {
    let index = a_base_index(Frequency::Monthly);
    let sunday = Date::new(2, December, 2007);
    assert!(index.is_valid_fixing_date(sunday));
    assert!(index.fixing_calendar().is_business_day(sunday));
}

#[test]
fn monthly_period_is_the_calendar_month() {
    let (first, last) = inflation_period(Date::new(14, February, 2007), Frequency::Monthly)
        .expect("monthly is a handled frequency");
    assert_eq!(first, Date::new(1, February, 2007));
    assert_eq!(last, Date::new(28, February, 2007));
}

#[test]
fn monthly_period_ends_on_the_leap_day() {
    let (first, last) = inflation_period(Date::new(14, February, 2008), Frequency::Monthly)
        .expect("monthly is a handled frequency");
    assert_eq!(first, Date::new(1, February, 2008));
    assert_eq!(last, Date::new(29, February, 2008));
}

#[test]
fn quarterly_period_aligns_to_the_calendar_quarter() {
    let (first, last) = inflation_period(Date::new(15, December, 2007), Frequency::Quarterly)
        .expect("quarterly is a handled frequency");
    assert_eq!(first, Date::new(1, October, 2007));
    assert_eq!(last, Date::new(31, December, 2007));

    let (first, last) = inflation_period(Date::new(3, January, 2007), Frequency::Quarterly)
        .expect("quarterly is a handled frequency");
    assert_eq!(first, Date::new(1, January, 2007));
    assert_eq!(last, Date::new(31, March, 2007));
}

#[test]
fn coarser_periods_align_from_january() {
    let (first, last) = inflation_period(Date::new(15, December, 2007), Frequency::Semiannual)
        .expect("semiannual is a handled frequency");
    assert_eq!(first, Date::new(1, Month::July, 2007));
    assert_eq!(last, Date::new(31, December, 2007));

    let (first, last) = inflation_period(Date::new(15, December, 2007), Frequency::Annual)
        .expect("annual is a handled frequency");
    assert_eq!(first, Date::new(1, January, 2007));
    assert_eq!(last, Date::new(31, December, 2007));
}

#[test]
fn finer_than_monthly_is_rejected() {
    assert!(inflation_period(Date::new(15, December, 2007), Frequency::Weekly).is_err());
    assert!(inflation_period(Date::new(15, December, 2007), Frequency::Once).is_err());
}

#[test]
fn a_fixing_covers_its_whole_inflation_period() {
    let index = a_base_index(Frequency::Quarterly);
    let mut store = FixingStore::new();
    index
        .add_fixing(&mut store, Date::new(15, December, 2007), 100.0)
        .expect("adding a fixing on a quarterly inflation index");

    assert!(index.has_historical_fixing(&store, Date::new(1, October, 2007)));
    assert!(index.has_historical_fixing(&store, Date::new(30, November, 2007)));
    assert!(index.has_historical_fixing(&store, Date::new(31, December, 2007)));

    assert!(!index.has_historical_fixing(&store, Date::new(30, September, 2007)));
    assert!(!index.has_historical_fixing(&store, Date::new(1, January, 2008)));
}

#[test]
fn last_fixing_date_is_the_end_of_the_published_period() {
    let index = a_base_index(Frequency::Quarterly);
    let mut store = FixingStore::new();
    index
        .add_fixing(&mut store, Date::new(15, December, 2007), 100.0)
        .expect("adding a fixing on a quarterly inflation index");

    assert_eq!(store.last_fixing_date("UK RPI"), Some(Date::new(31, December, 2007)));
}

#[test]
fn last_fixing_date_is_none_without_a_history() {
    let store: FixingStore<f64> = FixingStore::new();
    assert_eq!(store.last_fixing_date("UK RPI"), None);
}

/// It is 10 April 2024 and the index publishes monthly with a one-month
/// availability lag, so the latest period that could have been published is
/// March 2024. The history stops at February.
fn an_april_2024_zero_index() -> (ZeroInflationIndex, Settings, FixingStore<f64>) {
    let mut settings = Settings::new();
    settings.set_evaluation_date(Date::new(10, April, 2024));
    let index = a_zero_index(Frequency::Monthly);
    let mut store = FixingStore::new();
    for (date, value) in [
        (Date::new(1, December, 2023), 100.0),
        (Date::new(1, January, 2024), 100.1),
        (Date::new(1, February, 2024), 100.2),
    ] {
        index
            .add_fixing(&mut store, date, value)
            .expect("adding a published figure");
    }
    (index, settings, store)
}

#[test]
fn a_zero_fixing_covers_its_whole_inflation_period() {
    let index = a_zero_index(Frequency::Quarterly);
    let mut store = FixingStore::new();
    index
        .add_fixing(&mut store, Date::new(15, December, 2007), 100.0)
        .expect("adding a fixing on a quarterly zero inflation index");

    assert!(index.has_historical_fixing(&store, Date::new(30, November, 2007)));
    assert!(index.has_historical_fixing(&store, Date::new(31, December, 2007)));

    assert!(!index.has_historical_fixing(&store, Date::new(30, September, 2007)));
    assert!(!index.has_historical_fixing(&store, Date::new(1, January, 2008)));
}

#[test]
fn a_past_fixing_is_read_at_the_start_of_its_period() {
    let index = a_zero_index(Frequency::Quarterly);
    let mut store = FixingStore::new();
    index.add_fixings(&mut store, vec![(Date::new(1, October, 2007), 100.0)]);

    assert_eq!(
        index
            .past_fixing(&store, Date::new(20, December, 2007))
            .expect("every date is a valid fixing date"),
        Some(100.0)
    );
}

#[test]
fn a_fixing_before_the_horizon_is_read_from_history() {
    let (index, settings, store) = an_april_2024_zero_index();
    let february = Date::new(1, February, 2024);

    assert!(!index.needs_forecast(&settings, &store, february).expect("a monthly index"));
    assert_eq!(
        index
            .fixing(&settings, &store, february, false)
            .expect("February 2024 is published"),
        100.2
    );
}

#[test]
fn a_missing_fixing_before_the_horizon_is_an_error() {
    let (index, settings, store) = an_april_2024_zero_index();
    let november = Date::new(1, November, 2023);

    assert!(!index.needs_forecast(&settings, &store, november).expect("a monthly index"));
    let error = index
        .fixing(&settings, &store, november, false)
        .expect_err("November 2023 was never published");
    assert!(error.message().contains("Missing"), "err was: {}", error.message());
}

#[test]
fn a_fixing_inside_the_horizon_forecasts_only_while_absent() {
    let (index, settings, mut store) = an_april_2024_zero_index();
    let march = Date::new(1, March, 2024);

    assert!(index.needs_forecast(&settings, &store, march).expect("a monthly index"));
    let error = index
        .fixing(&settings, &store, march, false)
        .expect_err("March 2024 has no figure yet and no curve to forecast off");
    assert!(error.message().contains("empty Handle"), "err was: {}", error.message());

    index
        .add_fixing(&mut store, march, 100.3)
        .expect("March 2024 gets published");
    assert!(!index.needs_forecast(&settings, &store, march).expect("a monthly index"));
    assert_eq!(
        index.fixing(&settings, &store, march, false).expect("March 2024 is published"),
        100.3
    );
}

#[test]
fn a_fixing_beyond_the_horizon_forecasts_even_when_stored() {
    let (index, settings, mut store) = an_april_2024_zero_index();
    let april = Date::new(1, April, 2024);

    assert!(index.needs_forecast(&settings, &store, april).expect("a monthly index"));

    index
        .add_fixing(&mut store, april, 100.4)
        .expect("recording a figure ahead of its publication");

    assert!(index.needs_forecast(&settings, &store, april).expect("a monthly index"));
    let error = index
        .fixing(&settings, &store, april, false)
        .expect_err("April 2024 is beyond the publication horizon");
    assert!(error.message().contains("empty Handle"), "err was: {}", error.message());
}

#[test]
fn the_last_fixing_date_is_the_start_of_the_published_period() {
    let index = a_zero_index(Frequency::Quarterly);
    let mut store = FixingStore::new();
    index
        .add_fixing(&mut store, Date::new(15, December, 2007), 100.0)
        .expect("adding a fixing on a quarterly zero inflation index");

    assert_eq!(
        index.last_fixing_date(&store).expect("the index has a history"),
        Date::new(1, October, 2007)
    );
}

#[test]
fn the_last_fixing_date_of_an_empty_index_is_an_error() {
    let index = a_zero_index(Frequency::Quarterly);
    let store: FixingStore<f64> = FixingStore::new();
    let error = index
        .last_fixing_date(&store)
        .expect_err("an index with no history has no last fixing date");
    assert!(error.message().contains("no fixings stored"), "err was: {}", error.message());
}

#[test]
fn last_fixing_date_is_case_insensitive() {
    let index = a_base_index(Frequency::Quarterly);
    let mut store = FixingStore::new();
    index
        .add_fixing(&mut store, Date::new(15, April, 2007), 100.0)
        .expect("adding a fixing on a quarterly inflation index");

    let expected = Some(Date::new(30, Month::June, 2007));
    assert_eq!(store.last_fixing_date("UK RPI"), expected);
    assert_eq!(store.last_fixing_date("uk rpi"), expected);
}

#[test]
fn a_finer_than_monthly_index_refuses_to_file_a_fixing() {
    let index = a_zero_index(Frequency::Weekly);
    let mut store = FixingStore::new();
    assert_eq!(
        index.add_fixing(&mut store, Date::new(15, April, 2007), 1.0),
        Err(QlError::FrequencyNotHandled)
    );
    assert!(!index.has_historical_fixing(&store, Date::new(15, April, 2007)));
}

#[test]
fn a_fixing_without_an_evaluation_date_is_refused() {
    let index = a_zero_index(Frequency::Monthly);
    let store: FixingStore<f64> = FixingStore::new();
    let settings = Settings::new();
    assert_eq!(
        index.fixing(&settings, &store, Date::new(1, March, 2024), false),
        Err(QlError::NoEvaluationDate)
    );
}

#[test]
fn a_stored_fixing_reads_back_and_a_second_write_overwrites_it() {
    let mut store = FixingStore::new();
    let day = Date::new(3, March, 2020);
    store.add_fixing("Euribor6M", day, 1.5);
    assert_eq!(store.fixing("EURIBOR6M", day), Some(1.5));
    store.add_fixing("euribor6m", day, 2.5);
    assert_eq!(store.fixing("Euribor6M", day), Some(2.5));
    assert!(!store.has_fixing("Euribor6M", day.add_days(1)));
    assert_eq!(store.last_fixing_date("Euribor6M"), Some(day));
}

#[test]
fn a_flat_lagged_observation_reads_its_lagged_period() {
    let (index, settings, store) = an_april_2024_zero_index();
    let lagged = Cpi::lagged_fixing(
        &index,
        &settings,
        &store,
        Date::new(16, April, 2024),
        Period::new(3, TimeUnit::Months),
        CpiInterpolationType::Flat,
    )
    .unwrap();
    assert_eq!(lagged.observation.first_fixing_date, Date::new(1, January, 2024));
    assert_eq!(lagged.observation.interpolation, None);
    assert_eq!(lagged.first, 100.1);
    assert_eq!(lagged.next, None);
}

#[test]
fn a_linear_lagged_observation_reads_the_next_period_and_its_weight() {
    let (index, settings, store) = an_april_2024_zero_index();
    let lagged = Cpi::lagged_fixing(
        &index,
        &settings,
        &store,
        Date::new(16, April, 2024),
        Period::new(3, TimeUnit::Months),
        CpiInterpolationType::Linear,
    )
    .unwrap();
    let weight = lagged.observation.interpolation.unwrap();
    assert_eq!(weight.next_fixing_date, Date::new(1, February, 2024));
    assert_eq!(weight.elapsed, 15);
    assert_eq!(weight.length, 30);
    assert_eq!(lagged.first, 100.1);
    assert_eq!(lagged.next, Some(100.2));
}

#[test]
fn a_linear_observation_on_its_period_start_reads_one_fixing() {
    let (index, settings, store) = an_april_2024_zero_index();
    let lagged = Cpi::lagged_fixing(
        &index,
        &settings,
        &store,
        Date::new(1, April, 2024),
        Period::new(3, TimeUnit::Months),
        CpiInterpolationType::Linear,
    )
    .unwrap();
    assert_eq!(lagged.observation.interpolation, None);
    assert_eq!(lagged.first, 100.1);
    assert_eq!(lagged.next, None);
}

#[test]
fn a_lagged_observation_needing_a_forecast_is_refused() {
    let (index, settings, store) = an_april_2024_zero_index();
    let refused = Cpi::lagged_fixing(
        &index,
        &settings,
        &store,
        Date::new(16, April, 2024),
        Period::new(1, TimeUnit::Months),
        CpiInterpolationType::Flat,
    );
    assert_eq!(refused, Err(QlError::EmptyHandle));
    let second_refused = Cpi::lagged_fixing(
        &index,
        &settings,
        &store,
        Date::new(16, April, 2024),
        Period::new(2, TimeUnit::Months),
        CpiInterpolationType::Linear,
    );
    assert_eq!(second_refused, Err(QlError::EmptyHandle));
}

#[test]
fn a_new_evaluation_date_notifies_the_observers_of_a_registered_index() {
    let mut observables = Observables::new();
    let mut settings = Settings::new();
    let announcer = settings.add_evaluation_date_observable(&mut observables);
    let base = InflationIndexBase::new_registered(
        "RPI".to_string(),
        Region::uk(),
        false,
        Frequency::Monthly,
        Period::new(1, TimeUnit::Months),
        Currency::gbp(),
        &settings,
        &mut observables,
    );
    assert_eq!(base.family_name(), "RPI");
    assert!(!base.revised());
    assert_eq!(base.frequency(), Frequency::Monthly);
    assert_eq!(base.currency().code(), "GBP");
    let index_observable = base.observable().unwrap();
    assert!(observables.is_registered(announcer, Subscriber::Forward(index_observable)));

    let watcher = observables.add_observer();
    let bystander = observables.add_observer();
    observables.register(index_observable, Subscriber::Observer(watcher));
    settings.set_evaluation_date_notifying(Date::new(10, April, 2024), &mut observables);
    assert_eq!(settings.evaluation_date(), Some(Date::new(10, April, 2024)));
    assert!(observables.is_up(watcher));
    assert!(!observables.is_up(bystander));
}

#[test]
fn an_index_registered_later_is_notified_too() {
    let mut observables = Observables::new();
    let mut settings = Settings::new();
    settings.add_evaluation_date_observable(&mut observables);
    let mut index = a_zero_index(Frequency::Monthly);
    assert_eq!(index.observable(), None);
    let own = index.register_with(&settings, &mut observables);
    assert_eq!(index.observable(), Some(own));
    assert_eq!(index.name(), "UK RPI");
    let watcher = observables.add_observer();
    observables.register(own, Subscriber::Observer(watcher));
    settings.set_evaluation_date_notifying(Date::new(1, March, 2024), &mut observables);
    assert!(observables.is_up(watcher));
}

#[test]
fn the_index_re_broadcasts_its_dependencies() {
    let mut observables = Observables::new();
    let mut settings = Settings::new();
    settings.add_evaluation_date_observable(&mut observables);
    let base = InflationIndexBase::new_registered(
        "RPI".to_string(),
        Region::uk(),
        false,
        Frequency::Monthly,
        Period::new(1, TimeUnit::Months),
        Currency::gbp(),
        &settings,
        &mut observables,
    );
    let flag = observables.add_observer();
    observables.register(base.observable().unwrap(), Subscriber::Observer(flag));

    settings.set_evaluation_date_notifying(Date::new(3, December, 2007), &mut observables);
    assert!(observables.is_up(flag));

    observables.lower(flag);
    let curve = observables.add_observable();
    observables.register(curve, base.observer().unwrap());
    observables.notify(curve);
    assert!(observables.is_up(flag));
}
