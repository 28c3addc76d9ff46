use libitofin::currency::Currency;
use libitofin::cashflows::iborcoupon::IborCoupon;
use libitofin::cashflows::iborleg::IborLeg;
use libitofin::cashflows::overnightleg::OvernightLeg;
use libitofin::errors::QlError;
use libitofin::indexes::fixings::FixingStore;
use libitofin::indexes::iborindex::{IborIndex, OvernightIndex};
use libitofin::settings::Settings;
use libitofin::time::calendar::{BusinessDayConvention, Calendar};
use libitofin::time::date::{Date, Month};
use libitofin::time::daycounter::DayCounter;
use libitofin::time::period::{Period, TimeUnit};
use libitofin::time::schedule::{DateGeneration, Schedule};

fn settings_on(today: Date) -> Settings {
    let mut settings = Settings::new();
    settings.set_evaluation_date(today);
    settings
}

/// A three-month Euribor-like index on a weekends-only calendar (no holiday
/// falls near the dates used here).
fn euribor3m() -> IborIndex {
    IborIndex::new(
        "Euribor".to_string(),
        Period::new(3, TimeUnit::Months),
        2,
        Currency::eur(),
        Calendar::weekends_only(),
        BusinessDayConvention::ModifiedFollowing,
        true,
        DayCounter::Actual360,
    )
}

/// An ibor coupon spanning the value-to-maturity period of `fixing_date`.
fn coupon_for_fixing_date(index: &IborIndex, fixing_date: Date) -> IborCoupon<f64> {
    let start_date = index.value_date(fixing_date).unwrap();
    let end_date = index.maturity_date(fixing_date).unwrap();
    IborCoupon::new(
        end_date,
        100.0,
        start_date,
        end_date,
        Some(index.fixing_days()),
        index.copied(),
        Some(1.0),
        Some(0.0),
        None,
        None,
        None,
        false,
        None,
        BusinessDayConvention::Preceding,
    )
    .unwrap()
}

#[test]
fn an_ibor_coupon_knows_when_it_has_fixed() {
    let today = Date::new(15, Month::June, 2026);
    let mut settings = settings_on(today);
    let index = euribor3m();
    let calendar = index.fixing_calendar();

    let yesterday =
        calendar.advance(today, -1, TimeUnit::Days, BusinessDayConvention::Following, false);
    let tomorrow =
        calendar.advance(today, 1, TimeUnit::Days, BusinessDayConvention::Following, false);

    {
        let coupon = coupon_for_fixing_date(&index, yesterday);
        let store: FixingStore<f64> = FixingStore::new();
        assert!(coupon.has_fixed(&settings, &store).unwrap());
        assert!(coupon.index_fixing(&settings, &store).is_err());
    }

    {
        let coupon = coupon_for_fixing_date(&index, today);
        settings.enforces_todays_historic_fixings = false;
        let store: FixingStore<f64> = FixingStore::new();
        assert!(!coupon.has_fixed(&settings, &store).unwrap());
    }

    {
        let coupon = coupon_for_fixing_date(&index, today);
        settings.enforces_todays_historic_fixings = false;
        let mut store = FixingStore::new();
        store.add_fixing(index.name().as_str(), coupon.fixing_date(), 0.01);
        assert!(coupon.has_fixed(&settings, &store).unwrap());
    }

    {
        let coupon = coupon_for_fixing_date(&index, today);
        settings.enforces_todays_historic_fixings = true;
        let store: FixingStore<f64> = FixingStore::new();
        assert!(coupon.has_fixed(&settings, &store).unwrap());
        assert!(coupon.index_fixing(&settings, &store).is_err());
    }

    {
        let coupon = coupon_for_fixing_date(&index, tomorrow);
        let store: FixingStore<f64> = FixingStore::new();
        assert!(!coupon.has_fixed(&settings, &store).unwrap());
    }
}

#[test]
fn a_past_ibor_coupon_reads_its_fixing_off_the_store() {
    let today = Date::new(15, Month::June, 2026);
    let settings = settings_on(today);
    let index = euribor3m();
    let fixing_date = index.fixing_calendar().advance(
        today,
        -2,
        TimeUnit::Months,
        BusinessDayConvention::Following,
        false,
    );
    let mut store = FixingStore::new();
    store.add_fixing(index.name().as_str(), fixing_date, 0.01);

    let coupon = coupon_for_fixing_date(&index, fixing_date);
    assert_eq!(coupon.fixing_date(), fixing_date);
    assert_eq!(coupon.index_fixing(&settings, &store), Ok(Some(0.01)));
    assert_eq!(
        coupon.index_fixing(&settings, &FixingStore::new()),
        Err(QlError::MissingFixing)
    );
}

#[test]
fn a_future_fixing_is_left_to_the_forecast() {
    let today = Date::new(15, Month::June, 2026);
    let settings = settings_on(today);
    let index = euribor3m();
    let fixing_date = Date::new(15, Month::July, 2026);
    let store: FixingStore<f64> = FixingStore::new();
    assert_eq!(index.fixing(&settings, &store, fixing_date, false), Ok(None));
    // a Saturday is no fixing date
    assert_eq!(
        index.fixing(&settings, &store, Date::new(13, Month::June, 2026), false),
        Err(QlError::InvalidFixingDate)
    );
    // today's fixing is forecast when asked, and read when on record
    let mut store = FixingStore::new();
    store.add_fixing("EURIBOR3M ACTUAL/360", today, 0.02);
    assert_eq!(index.fixing(&settings, &store, today, true), Ok(None));
    assert_eq!(index.fixing(&settings, &store, today, false), Ok(Some(0.02)));
}

#[test]
fn a_zero_gearing_is_refused() {
    let index = euribor3m();
    let start = Date::new(15, Month::June, 2026);
    let end = Date::new(15, Month::September, 2026);
    let refused = IborCoupon::new(
        end,
        100.0,
        start,
        end,
        None,
        index.copied(),
        Some(0.0),
        None,
        None,
        None,
        None,
        false,
        None,
        BusinessDayConvention::Preceding,
    );
    assert_eq!(refused.err(), Some(QlError::NullGearing));
    assert_eq!(QlError::NullGearing.message(), "Null gearing not allowed");
}

fn quarterly_schedule() -> Schedule {
    let calendar = Calendar::weekends_only();
    let dates: Vec<Date> = [Month::January, Month::April, Month::July, Month::October]
        .iter()
        .map(|m| calendar.adjust(Date::new(15, *m, 2026), BusinessDayConvention::ModifiedFollowing))
        .collect();
    Schedule::new(
        dates,
        calendar,
        BusinessDayConvention::ModifiedFollowing,
        Some(Period::new(3, TimeUnit::Months)),
        Some(DateGeneration::Forward),
        Some(false),
        vec![true; 3],
    )
    .unwrap()
}

#[test]
fn an_ibor_leg_with_a_zero_gearing_is_refused() {
    let leg: IborLeg<f64> = IborLeg::new(quarterly_schedule(), euribor3m()).with_notional(100.0);
    assert_eq!(leg.coupons().map(|cs| cs.len()), Ok(3));
    let geared = IborLeg::new(quarterly_schedule(), euribor3m()).with_notional(100.0).with_gearing(0.0);
    assert_eq!(geared.coupons().err(), Some(QlError::NullGearing));
    assert_eq!(geared.build().err(), Some(QlError::NullGearing));
    let later = IborLeg::new(quarterly_schedule(), euribor3m())
        .with_notional(100.0)
        .with_gearings(vec![1.0, 2.0, 0.0]);
    assert_eq!(later.coupons().err(), Some(QlError::NullGearing));
}

#[test]
fn an_overnight_leg_with_a_zero_gearing_is_refused() {
    let estr = OvernightIndex::new(
        "ESTR".to_string(),
        0,
        Currency::eur(),
        Calendar::weekends_only(),
        DayCounter::Actual360,
    );
    let leg: OvernightLeg<f64> = OvernightLeg::new(quarterly_schedule(), estr.copied()).with_notional(100.0);
    assert_eq!(leg.coupons().map(|cs| cs.len()), Ok(3));
    let geared = OvernightLeg::new(quarterly_schedule(), estr).with_notional(100.0).with_gearing(0.0);
    assert_eq!(geared.coupons().err(), Some(QlError::NullGearing));
    assert_eq!(geared.build().err(), Some(QlError::NullGearing));
}
