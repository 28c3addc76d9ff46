use libitofin::currency::Currency;
use libitofin::indexes::iborindex::CustomIborIndex;
use libitofin::time::calendar::{BusinessDayConvention, Calendar};
use libitofin::time::date::{Date, Month};
use libitofin::time::daycounter::DayCounter;
use libitofin::time::period::{Period, TimeUnit};

/// Three bespoke calendars with hand-placed holidays and the "Custom Ibor"
/// index over them.
fn custom_ibor() -> (CustomIborIndex, Calendar, Calendar, Calendar) {
    let mut fix_cal = Calendar::bespoke("Fixings");
    fix_cal.add_holiday(Date::new(8, Month::January, 2025));

    let mut val_cal = Calendar::bespoke("Value");
    val_cal.add_holiday(Date::new(21, Month::January, 2025));

    let mut mat_cal = Calendar::bespoke("Maturity");
    mat_cal.add_holiday(Date::new(7, Month::January, 2025));
    mat_cal.add_holiday(Date::new(15, Month::January, 2025));
    mat_cal.add_holiday(Date::new(23, Month::April, 2025));
    mat_cal.add_holiday(Date::new(30, Month::April, 2025));

    let index = CustomIborIndex::new(
        "Custom Ibor".to_string(),
        Period::new(3, TimeUnit::Months),
        2,
        Currency::eur(),
        fix_cal.clone(),
        val_cal.clone(),
        mat_cal.clone(),
        BusinessDayConvention::ModifiedFollowing,
        true,
        DayCounter::Actual360,
    );
    (index, fix_cal, val_cal, mat_cal)
}

#[test]
fn the_three_calendars_survive_construction_and_clone() {
    let (index, fix_cal, val_cal, mat_cal) = custom_ibor();
    let clone = index.clone_with();
    for index in [&index, &clone] {
        assert_eq!(index.fixing_calendar(), fix_cal);
        assert_eq!(index.value_calendar(), val_cal);
        assert_eq!(index.maturity_calendar(), mat_cal);
    }
}

#[test]
fn value_date_rejects_a_fixing_calendar_holiday() {
    let (index, _, _, _) = custom_ibor();
    let clone = index.clone_with();
    let holiday = Date::new(8, Month::January, 2025);
    for index in [&index, &clone] {
        assert!(!index.is_valid_fixing_date(holiday));
        assert!(index.value_date(holiday).is_err());
    }
}

#[test]
fn value_date_advances_on_value_and_adjusts_on_maturity() {
    let (index, _, _, _) = custom_ibor();
    let clone = index.clone_with();
    for index in [&index, &clone] {
        assert_eq!(
            index.value_date(Date::new(7, Month::January, 2025)).unwrap(),
            Date::new(9, Month::January, 2025)
        );
        assert_eq!(
            index.value_date(Date::new(13, Month::January, 2025)).unwrap(),
            Date::new(16, Month::January, 2025)
        );
        assert_eq!(
            index.value_date(Date::new(20, Month::January, 2025)).unwrap(),
            Date::new(23, Month::January, 2025)
        );
    }
}

#[test]
fn fixing_date_goes_back_on_value_and_adjusts_preceding_on_fixing() {
    let (index, _, _, _) = custom_ibor();
    let clone = index.clone_with();
    for index in [&index, &clone] {
        assert_eq!(
            index.fixing_date(Date::new(23, Month::January, 2025)),
            Date::new(20, Month::January, 2025)
        );
        assert_eq!(
            index.fixing_date(Date::new(16, Month::January, 2025)),
            Date::new(14, Month::January, 2025)
        );
        assert_eq!(
            index.fixing_date(Date::new(10, Month::January, 2025)),
            Date::new(7, Month::January, 2025)
        );
    }
}

#[test]
fn maturity_date_advances_on_the_maturity_calendar() {
    let (index, _, _, _) = custom_ibor();
    let clone = index.clone_with();
    for index in [&index, &clone] {
        assert_eq!(
            index.maturity_date(Date::new(23, Month::January, 2025)).unwrap(),
            Date::new(24, Month::April, 2025)
        );
        assert_eq!(
            index.maturity_date(Date::new(30, Month::January, 2025)).unwrap(),
            Date::new(29, Month::April, 2025)
        );
        assert_eq!(
            index.maturity_date(Date::new(28, Month::February, 2025)).unwrap(),
            Date::new(31, Month::May, 2025)
        );
    }
}

#[test]
fn the_custom_index_is_named_by_family_tenor_and_day_counter() {
    let (index, _, _, _) = custom_ibor();
    assert_eq!(index.ibor().name(), "Custom Ibor3M Actual/360");
    assert_eq!(index.ibor().tenor(), Period::new(3, TimeUnit::Months));
    assert_eq!(index.ibor().fixing_days(), 2);
}

#[test]
fn a_twelve_month_tenor_is_named_as_one_year() {
    let index = libitofin::indexes::iborindex::IborIndex::new(
        "Euribor".to_string(),
        Period::new(12, TimeUnit::Months),
        2,
        Currency::eur(),
        Calendar::weekends_only(),
        BusinessDayConvention::ModifiedFollowing,
        false,
        DayCounter::Actual360,
    );
    assert_eq!(index.tenor(), Period::new(1, TimeUnit::Years));
    assert_eq!(index.name(), "Euribor1Y Actual/360");
}

#[test]
fn an_interest_rate_index_base_names_and_dates_its_fixings() {
    let base = libitofin::indexes::interestrateindex::InterestRateIndexBase::new(
        "Euribor".to_string(),
        Period::new(12, TimeUnit::Months),
        2,
        Currency::eur(),
        Calendar::weekends_only(),
        DayCounter::Actual360,
    );
    assert_eq!(base.name(), "Euribor1Y Actual/360");
    assert_eq!(base.currency().code(), "EUR");
    assert_eq!(base.tenor(), Period::new(1, TimeUnit::Years));
    // Monday 3 March 2025 fixes for Wednesday 5 March.
    let fixing = Date::new(3, Month::March, 2025);
    assert_eq!(base.value_date(fixing), Ok(Date::new(5, Month::March, 2025)));
    assert_eq!(base.fixing_date(Date::new(5, Month::March, 2025)), fixing);
    assert_eq!(
        base.value_date(Date::new(1, Month::March, 2025)),
        Err(libitofin::errors::QlError::InvalidFixingDate)
    );
}

#[test]
fn a_new_evaluation_date_notifies_the_observers_of_a_registered_ibor_index() {
    let mut observables = libitofin::patterns::observable::Observables::new();
    let mut settings = libitofin::settings::Settings::new();
    settings.add_evaluation_date_observable(&mut observables);
    let mut index = libitofin::indexes::iborindex::IborIndex::new(
        "Euribor".to_string(),
        Period::new(6, TimeUnit::Months),
        2,
        Currency::eur(),
        Calendar::weekends_only(),
        BusinessDayConvention::ModifiedFollowing,
        false,
        DayCounter::Actual360,
    );
    let own = index.register_with(&settings, &mut observables);
    assert_eq!(index.observable(), Some(own));
    assert_eq!(index.copied().observable(), Some(own));
    let watcher = observables.add_observer();
    observables.register(own, libitofin::patterns::observable::Subscriber::Observer(watcher));
    settings.set_evaluation_date_notifying(Date::new(3, Month::March, 2025), &mut observables);
    assert!(observables.is_up(watcher));
}
