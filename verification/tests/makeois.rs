use libitofin::currency::Currency;
use libitofin::errors::QlError;
use libitofin::indexes::iborindex::OvernightIndex;
use libitofin::instruments::makeois::{default_settlement_days, MakeOis};
use libitofin::settings::Settings;
use libitofin::time::calendar::{BusinessDayConvention, Calendar};
use libitofin::time::date::{Date, Month};
use libitofin::time::daycounter::DayCounter;
use libitofin::time::period::{Period, TimeUnit};
use libitofin::time::schedule::{DateGeneration, Schedule};
use libitofin::instruments::swap::SwapType;

const NOMINAL: f64 = 100.0;
const SETTLEMENT_DAYS: i32 = 2;

fn today() -> Date {
    Date::new(5, Month::February, 2009)
}

fn settings_at(today: Date) -> Settings {
    let mut settings = Settings::new();
    settings.set_evaluation_date(today);
    settings
}

/// The euro short-term rate on a weekends-only calendar, no holiday falling
/// near the dates used here.
fn estr() -> OvernightIndex {
    OvernightIndex::new("ESTR".to_string(), 0, Currency::eur(), Calendar::weekends_only(), DayCounter::Actual360)
}

fn settlement(settings: &Settings) -> Date {
    Calendar::weekends_only().advance(
        settings.evaluation_date().unwrap(),
        SETTLEMENT_DAYS,
        TimeUnit::Days,
        BusinessDayConvention::Following,
        false,
    )
}

#[test]
fn settlement_days_dispatch_by_family() {
    assert_eq!(default_settlement_days("SONIA"), 0);
    assert_eq!(default_settlement_days("CORRA"), 1);
    assert_eq!(default_settlement_days("ESTR"), 2);
    assert_eq!(default_settlement_days("anything else"), 2);
}

#[test]
fn derived_start_date_matches_settlement() {
    let settings = settings_at(today());
    let settlement = settlement(&settings);
    let swap = MakeOis::new(
        Period::new(1, TimeUnit::Years),
        estr(),
        Some(0.03),
        Period::new(0, TimeUnit::Days),
    )
    .with_nominal(NOMINAL);

    assert_eq!(swap.dates(&settings).unwrap().start, settlement);
}

#[test]
fn an_explicit_effective_date_needs_no_evaluation_date() {
    let effective = Date::new(9, Month::February, 2009);
    let swap = MakeOis::new(
        Period::new(1, TimeUnit::Years),
        estr(),
        Some(0.03),
        Period::new(0, TimeUnit::Days),
    )
    .with_effective_date(effective);

    let dates = swap.dates(&Settings::new()).unwrap();
    assert_eq!(dates.start, effective);
    assert_eq!(dates.end, Date::new(9, Month::February, 2010));
    assert!(!dates.end_of_month);
}

#[test]
fn a_derived_start_needs_an_evaluation_date() {
    let swap: MakeOis<f64> = MakeOis::new(
        Period::new(1, TimeUnit::Years),
        estr(),
        Some(0.03),
        Period::new(0, TimeUnit::Days),
    );
    assert_eq!(swap.dates(&Settings::new()).err(), Some(QlError::NoSwapReferenceDate));
}

fn annual_dates_schedule(from_year: i32, years: i32) -> Schedule {
    let calendar = Calendar::weekends_only();
    let dates: Vec<Date> = (0..=years)
        .map(|k| calendar.adjust(Date::new(9, Month::February, from_year + k), BusinessDayConvention::Following))
        .collect();
    Schedule::new(
        dates,
        calendar,
        BusinessDayConvention::Following,
        Some(Period::new(1, TimeUnit::Years)),
        Some(DateGeneration::Backward),
        Some(false),
        vec![true; years as usize],
    )
    .unwrap()
}

#[test]
fn assembled_swap_carries_the_terms_and_defaults() {
    let terms = MakeOis::new(
        Period::new(2, TimeUnit::Years),
        estr(),
        Some(0.03),
        Period::new(0, TimeUnit::Days),
    );
    let swap = terms
        .assemble(0.03, annual_dates_schedule(2009, 2), annual_dates_schedule(2009, 2), DayCounter::Actual360)
        .unwrap();
    assert_eq!(swap.fixed_vs_floating().swap_type(), SwapType::Payer);
    assert_eq!(swap.fixed_vs_floating().fixed_nominals(), &vec![1.0]);
    assert_eq!(swap.overnight_nominals(), &vec![1.0]);
    assert_eq!(swap.spread(), 0.0);
    assert_eq!(swap.fixed_vs_floating().fixed_rate(), 0.03);
    assert_eq!(swap.overnight_coupons().len(), 2);
    assert_eq!(swap.payment_lag(), 0);

    let given = terms.with_nominal(NOMINAL).with_overnight_leg_spread(0.001).with_payment_lag(2);
    let swap = given
        .assemble(0.03, annual_dates_schedule(2009, 2), annual_dates_schedule(2009, 2), DayCounter::Actual360)
        .unwrap();
    assert_eq!(swap.overnight_nominals(), &vec![NOMINAL]);
    assert_eq!(swap.spread(), 0.001);
    assert_eq!(swap.payment_lag(), 2);
}

#[test]
fn assembling_over_a_one_date_fixed_schedule_is_refused() {
    let terms: MakeOis<f64> = MakeOis::new(
        Period::new(2, TimeUnit::Years),
        estr(),
        Some(0.03),
        Period::new(0, TimeUnit::Days),
    );
    let fixed = Schedule::from_dates(vec![Date::new(9, Month::February, 2009)]);
    let refused = terms.assemble(0.03, fixed, annual_dates_schedule(2009, 2), DayCounter::Actual360);
    assert_eq!(refused.err(), Some(QlError::ScheduleTooShort));
}
