use libitofin::currency::Currency;
use libitofin::errors::QlError;
use libitofin::indexes::fixings::FixingStore;
use libitofin::indexes::iborindex::IborIndex;
use libitofin::instruments::forwardrateagreement::{ForwardRateAgreement, Position};
use libitofin::interestrate::Compounding;
use libitofin::settings::Settings;
use libitofin::time::calendar::{BusinessDayConvention, Calendar};
use libitofin::time::date::{Date, Month};
use libitofin::time::daycounter::DayCounter;
use libitofin::time::period::{Period, TimeUnit};

fn euribor3m() -> IborIndex {
    IborIndex::new(
        "Euribor".to_string(),
        Period::new(3, TimeUnit::Months),
        2,
        Currency::eur(),
        Calendar::weekends_only(),
        BusinessDayConvention::ModifiedFollowing,
        false,
        DayCounter::Actual360,
    )
}

#[test]
fn an_agreement_rolls_its_maturity_on_the_index_calendar() {
    // 15 November 2025 is a Saturday
    let fra: ForwardRateAgreement<f64> = ForwardRateAgreement::with_maturity(
        euribor3m(),
        Date::new(15, Month::August, 2025),
        Date::new(15, Month::November, 2025),
        Position::Long,
        0.02,
        1_000_000.0,
    )
    .unwrap();
    assert_eq!(fra.maturity_date(), Date::new(17, Month::November, 2025));
    assert_eq!(fra.day_counter(), DayCounter::Actual360);
    assert_eq!(fra.strike_forward_rate().compounding(), Compounding::Simple);
    assert_eq!(fra.strike_forward_rate().rate(), 0.02);
    assert!(!fra.use_indexed_coupon());
    assert_eq!(fra.fixing_date(), Date::new(13, Month::August, 2025));
    assert_eq!(fra.amount(), Err(QlError::AmountNotProvided));
}

#[test]
fn an_agreement_ending_before_it_starts_is_refused() {
    let refused = ForwardRateAgreement::<f64>::with_maturity(
        euribor3m(),
        Date::new(15, Month::August, 2025),
        Date::new(15, Month::August, 2025),
        Position::Short,
        0.02,
        1.0,
    );
    assert_eq!(refused.err(), Some(QlError::ValueDateNotBeforeMaturity));
}

#[test]
fn an_indexed_agreement_ends_on_the_index_maturity() {
    let value = Date::new(15, Month::August, 2025);
    let fra = ForwardRateAgreement::<f64>::new(euribor3m(), value, Position::Long, 0.02, 1.0).unwrap();
    assert!(fra.use_indexed_coupon());
    assert_eq!(fra.maturity_date(), euribor3m().maturity_date(value).unwrap());
    let mut settings = Settings::new();
    settings.set_evaluation_date(Date::new(1, Month::August, 2025));
    assert_eq!(fra.is_expired(&settings), Ok(false));
    settings.set_evaluation_date(Date::new(20, Month::August, 2025));
    assert_eq!(fra.is_expired(&settings), Ok(true));
}

#[test]
fn a_recorded_calculation_is_read_back() {
    let mut fra = ForwardRateAgreement::<f64>::new(
        euribor3m(),
        Date::new(15, Month::August, 2025),
        Position::Long,
        0.02,
        1.0,
    )
    .unwrap();
    let mut settings = Settings::new();
    settings.set_evaluation_date(Date::new(1, Month::August, 2025));
    assert_eq!(fra.calculate(&settings, 0.025, 12.5), Ok(false));
    assert_eq!(fra.amount(), Ok(12.5));
    assert_eq!(fra.forward_rate().unwrap().rate(), 0.025);
    assert_eq!(fra.forward_rate().unwrap().day_counter(), DayCounter::Actual360);
}

#[test]
fn an_expired_agreement_records_no_amount() {
    let mut fra = ForwardRateAgreement::<f64>::new(
        euribor3m(),
        Date::new(15, Month::August, 2025),
        Position::Long,
        0.02,
        1.0,
    )
    .unwrap();
    assert_eq!(fra.calculate(&Settings::new(), 0.025, 12.5), Err(QlError::NoReferenceDate));
    let mut settings = Settings::new();
    settings.set_evaluation_date(Date::new(20, Month::August, 2025));
    assert_eq!(fra.calculate(&settings, 0.025, 12.5), Ok(true));
    assert_eq!(fra.amount(), Err(QlError::AmountNotProvided));
    assert_eq!(fra.forward_rate().unwrap().rate(), 0.025);
    fra.setup_expired(None);
    assert!(fra.forward_rate().is_err());
}

#[test]
fn an_indexed_forward_rate_is_the_stored_fixing() {
    let value = Date::new(15, Month::August, 2025);
    let fra = ForwardRateAgreement::<f64>::new(euribor3m(), value, Position::Long, 0.02, 1.0).unwrap();
    let mut store: FixingStore<f64> = FixingStore::new();
    let mut settings = Settings::new();
    settings.set_evaluation_date(Date::new(20, Month::August, 2025));
    assert_eq!(fra.indexed_forward_rate(&settings, &store), Err(QlError::MissingFixing));
    store.add_fixing(&euribor3m().name(), Date::new(13, Month::August, 2025), 0.031);
    assert_eq!(fra.indexed_forward_rate(&settings, &store), Ok(Some(0.031)));
    settings.set_evaluation_date(Date::new(1, Month::August, 2025));
    assert_eq!(fra.indexed_forward_rate(&settings, &store), Ok(None));
}

#[test]
fn a_par_forward_rate_is_left_to_the_curve() {
    let fra: ForwardRateAgreement<f64> = ForwardRateAgreement::with_maturity(
        euribor3m(),
        Date::new(15, Month::August, 2025),
        Date::new(15, Month::November, 2025),
        Position::Long,
        0.02,
        1_000_000.0,
    )
    .unwrap();
    let store: FixingStore<f64> = FixingStore::new();
    assert_eq!(fra.indexed_forward_rate(&Settings::new(), &store), Ok(None));
}

#[test]
fn an_agreement_needs_a_positive_notional() {
    for notional in [0.0, -1.0] {
        let refused = ForwardRateAgreement::<f64>::with_maturity(
            euribor3m(),
            Date::new(15, Month::August, 2025),
            Date::new(15, Month::November, 2025),
            Position::Long,
            0.02,
            notional,
        );
        assert_eq!(refused.err(), Some(QlError::NotionalNotPositive));
    }
    let refused = ForwardRateAgreement::<f64>::new(
        euribor3m(),
        Date::new(15, Month::August, 2025),
        Position::Short,
        0.02,
        0.0,
    );
    assert_eq!(refused.err(), Some(QlError::NotionalNotPositive));
    assert_eq!(QlError::NotionalNotPositive.message(), "notionalAmount must be positive");
}
