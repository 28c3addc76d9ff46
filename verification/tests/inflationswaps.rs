use libitofin::currency::Currency;
use libitofin::errors::QlError;
use libitofin::indexes::inflationindex::{CpiInterpolationType, ZeroInflationIndex};
use libitofin::indexes::region::Region;
use libitofin::instruments::swap::{SwapResults, SwapType};
use libitofin::instruments::yearonyearinflationswap::YearOnYearInflationSwap;
use libitofin::instruments::zerocouponinflationswap::ZeroCouponInflationSwap;
use libitofin::time::calendar::{BusinessDayConvention, Calendar};
use libitofin::time::date::{Date, Month};
use libitofin::time::daycounter::DayCounter;
use libitofin::time::period::{Frequency, Period, TimeUnit};
use libitofin::time::schedule::{DateGeneration, Schedule};

fn uk_rpi(frequency: Frequency, availability_months: i32) -> ZeroInflationIndex {
    ZeroInflationIndex::new(
        "RPI".to_string(),
        Region::uk(),
        false,
        frequency,
        Period::new(availability_months, TimeUnit::Months),
        Currency::gbp(),
    )
}

fn zero_coupon(
    lag_months: i32,
    interpolation: CpiInterpolationType,
    index: ZeroInflationIndex,
) -> Result<ZeroCouponInflationSwap<f64>, QlError> {
    ZeroCouponInflationSwap::new(
        SwapType::Payer,
        1_000_000.0,
        Date::new(15, Month::March, 2022),
        // a Saturday
        Date::new(15, Month::March, 2025),
        Calendar::weekends_only(),
        BusinessDayConvention::Following,
        DayCounter::Actual365Fixed,
        0.03,
        index,
        Period::new(lag_months, TimeUnit::Months),
        interpolation,
        None,
        Some(BusinessDayConvention::Preceding),
    )
}

#[test]
fn a_zero_coupon_swap_pays_both_flows_at_the_rolled_maturity() {
    let swap = zero_coupon(3, CpiInterpolationType::Flat, uk_rpi(Frequency::Monthly, 2)).unwrap();
    assert_eq!(swap.fixed_leg()[0].date, Date::new(17, Month::March, 2025));
    assert_eq!(swap.inflation_leg()[0].date, Date::new(14, Month::March, 2025));
    assert_eq!(swap.maturity_date(), Date::new(15, Month::March, 2025));
    assert_eq!(swap.base_date(), Date::new(15, Month::December, 2021));
    assert_eq!(swap.obs_date(), Date::new(15, Month::December, 2024));
    assert_eq!(swap.inflation_convention(), BusinessDayConvention::Preceding);
    assert_eq!(swap.inflation_calendar(), &Calendar::weekends_only());
    // a payer pays the inflation leg
    assert_eq!(swap.swap().payer(0), Ok(false));
    assert_eq!(swap.swap().payer(1), Ok(true));
    assert!(swap.inflation_leg_npv().is_err());
}

#[test]
fn a_zero_coupon_swap_refuses_a_lag_observing_unpublished_fixings() {
    let flat = zero_coupon(1, CpiInterpolationType::Flat, uk_rpi(Frequency::Monthly, 2));
    assert_eq!(flat.err(), Some(QlError::LagBelowAvailability));
    // linear interpolation consumes a further publication period
    let linear = zero_coupon(2, CpiInterpolationType::Linear, uk_rpi(Frequency::Monthly, 2));
    assert_eq!(linear.err(), Some(QlError::LagBelowAvailabilityAndPeriod));
    let enough = zero_coupon(3, CpiInterpolationType::Linear, uk_rpi(Frequency::Monthly, 2));
    assert!(enough.is_ok());
    let quarterly = zero_coupon(4, CpiInterpolationType::Linear, uk_rpi(Frequency::Quarterly, 2));
    assert_eq!(quarterly.err(), Some(QlError::LagBelowAvailabilityAndPeriod));
}

#[test]
fn a_zero_coupon_swap_reads_back_its_leg_values() {
    let mut swap = zero_coupon(3, CpiInterpolationType::Flat, uk_rpi(Frequency::Monthly, 2)).unwrap();
    let results = SwapResults {
        value: Some(-2.0),
        leg_npv: vec![10.0, -12.0],
        leg_bps: Vec::new(),
        start_discounts: Vec::new(),
        end_discounts: Vec::new(),
        npv_date_discount: None,
    };
    swap.fetch_results(&results).unwrap();
    assert_eq!(swap.fixed_leg_npv(), Ok(10.0));
    assert_eq!(swap.inflation_leg_npv(), Ok(-12.0));
}

#[test]
fn period_arithmetic_converts_years_and_months_and_refuses_the_rest() {
    let year = Period::new(1, TimeUnit::Years);
    let month = Period::new(1, TimeUnit::Months);
    assert_eq!(year.minus(&month), Ok(Period::new(11, TimeUnit::Months)));
    assert_eq!(year.is_less(&Period::new(13, TimeUnit::Months)), Ok(true));
    assert_eq!(month.is_less(&Period::new(32, TimeUnit::Days)), Ok(true));
    assert_eq!(
        month.is_less(&Period::new(30, TimeUnit::Days)),
        Err(QlError::UndecidablePeriodComparison)
    );
    assert_eq!(
        month.plus(&Period::new(1, TimeUnit::Weeks)),
        Err(QlError::ImpossiblePeriodAddition)
    );
    assert_eq!(Period::from_frequency(Frequency::Quarterly), Ok(Period::new(3, TimeUnit::Months)));
    assert_eq!(Period::from_frequency(Frequency::OtherFrequency), Err(QlError::UnknownFrequency));
}

fn annual_schedule(from_year: i32, years: i32) -> Schedule {
    let calendar = Calendar::weekends_only();
    let dates: Vec<Date> = (0..=years)
        .map(|k| calendar.adjust(Date::new(1, Month::June, from_year + k), BusinessDayConvention::ModifiedFollowing))
        .collect();
    Schedule::new(
        dates,
        calendar,
        BusinessDayConvention::ModifiedFollowing,
        Some(Period::new(1, TimeUnit::Years)),
        Some(DateGeneration::Forward),
        Some(false),
        vec![true; years as usize],
    )
    .unwrap()
}

#[test]
fn a_year_on_year_swap_pairs_a_fixed_leg_with_year_on_year_coupons() {
    let mut swap: YearOnYearInflationSwap<f64, String> = YearOnYearInflationSwap::new(
        SwapType::Payer,
        1_000_000.0,
        annual_schedule(2022, 5),
        0.025,
        DayCounter::Thirty360BondBasis,
        annual_schedule(2022, 5),
        "YY_RPI".to_string(),
        Period::new(3, TimeUnit::Months),
        CpiInterpolationType::Flat,
        0.001,
        DayCounter::Actual365Fixed,
        Calendar::weekends_only(),
        BusinessDayConvention::ModifiedFollowing,
    )
    .unwrap();
    assert_eq!(swap.fixed_leg().len(), 5);
    assert_eq!(swap.yoy_leg().len(), 5);
    assert_eq!(swap.yoy_coupons().len(), 5);
    assert_eq!(swap.yoy_coupons()[0].spread, Some(0.001));
    assert_eq!(swap.yoy_coupons()[4].coupon.accrual_end_date, Date::new(1, Month::June, 2027));
    assert_eq!(swap.yoy_leg()[2].date, swap.yoy_coupons()[2].coupon.payment_date);
    assert_eq!(swap.swap().payer(0), Ok(true));
    assert!(swap.fair_rate().is_err());

    // without the swap's value nothing is derived
    let undervalued = SwapResults {
        value: None,
        leg_npv: vec![-5.0, 7.0],
        leg_bps: vec![-400.0, 380.0],
        start_discounts: Vec::new(),
        end_discounts: Vec::new(),
        npv_date_discount: None,
    };
    assert_eq!(swap.fair_rate_inputs(&undervalued), None);
    swap.fetch_results(&undervalued, Some(1.0), Some(1.0)).unwrap();
    assert!(swap.fair_rate().is_err());
    assert!(swap.fair_spread().is_err());

    let results = SwapResults {
        value: Some(2.0),
        leg_npv: vec![-5.0, 7.0],
        leg_bps: vec![-400.0, 380.0],
        start_discounts: Vec::new(),
        end_discounts: Vec::new(),
        npv_date_discount: None,
    };
    let (rate, npv, bps) = swap.fair_rate_inputs(&results).unwrap();
    assert_eq!((rate, npv, bps), (0.025, 2.0, -400.0));
    let derived_rate = rate - npv / (bps / 1.0e-4);
    let (spread, npv, bps) = swap.fair_spread_inputs(&results).unwrap();
    assert_eq!((spread, npv, bps), (0.001, 2.0, 380.0));
    let derived_spread = spread - npv / (bps / 1.0e-4);
    swap.fetch_results(&results, Some(derived_rate), Some(derived_spread)).unwrap();
    assert_eq!(swap.fair_rate(), Ok(derived_rate));
    assert!((derived_rate - 0.0250005).abs() < 1e-12);
    assert_eq!(swap.fair_spread(), Ok(derived_spread));
    assert_eq!(swap.yoy_leg_npv(), Ok(7.0));
    assert_eq!(swap.swap().npv(), Ok(2.0));

    // legs without a sensitivity leave both fair values unset
    let unpriced = SwapResults {
        value: Some(2.0),
        leg_npv: vec![-5.0, 7.0],
        leg_bps: Vec::new(),
        start_discounts: Vec::new(),
        end_discounts: Vec::new(),
        npv_date_discount: None,
    };
    assert_eq!(swap.fair_spread_inputs(&unpriced), None);
    swap.fetch_results(&unpriced, Some(derived_rate), Some(derived_spread)).unwrap();
    assert!(swap.fair_rate().is_err());
    assert!(swap.fair_spread().is_err());
}

#[test]
fn a_year_on_year_swap_needs_a_period_on_each_leg() {
    let short = YearOnYearInflationSwap::<f64, String>::new(
        SwapType::Receiver,
        1.0,
        annual_schedule(2022, 0),
        0.025,
        DayCounter::Thirty360BondBasis,
        annual_schedule(2022, 3),
        "YY_RPI".to_string(),
        Period::new(3, TimeUnit::Months),
        CpiInterpolationType::Flat,
        0.0,
        DayCounter::Actual365Fixed,
        Calendar::weekends_only(),
        BusinessDayConvention::ModifiedFollowing,
    );
    assert_eq!(short.err(), Some(QlError::ScheduleTooShort));
}
