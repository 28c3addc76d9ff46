use libitofin::errors::QlError;
use libitofin::indexes::inflationindex::CpiInterpolationType;
use libitofin::instruments::inflationcapfloor::{
    CapFloorType, YoYInflationCapFloor, YoYInflationCapFloorArguments,
};
use libitofin::instruments::makeyoyinflationcapfloor::MakeYoYInflationCapFloor;
use libitofin::settings::Settings;
use libitofin::time::calendar::{BusinessDayConvention, Calendar};
use libitofin::time::date::{Date, Month};
use libitofin::time::daycounter::DayCounter;
use libitofin::time::period::{Period, TimeUnit};

fn builder(cap_floor_type: CapFloorType, years: usize) -> MakeYoYInflationCapFloor<f64, String> {
    MakeYoYInflationCapFloor::new(
        cap_floor_type,
        "YY_RPI".to_string(),
        years,
        Calendar::weekends_only(),
        Period::new(3, TimeUnit::Months),
        CpiInterpolationType::Flat,
    )
}

fn today_settings() -> Settings {
    let mut settings = Settings::new();
    settings.set_evaluation_date(Date::new(10, Month::February, 2022));
    settings
}

#[test]
fn the_builder_lays_an_annual_leg_from_spot() {
    let settings = today_settings();
    let coupons = builder(CapFloorType::Cap, 3).with_fixing_days(2).coupons(&settings).unwrap();
    // spot is two business days after Thursday 10 February 2022
    let spot = Date::new(14, Month::February, 2022);
    assert_eq!(coupons.len(), 3);
    for (k, coupon) in coupons.iter().enumerate() {
        let start = spot.add_period(Period::new(k as i32, TimeUnit::Years));
        let end = spot.add_period(Period::new(k as i32 + 1, TimeUnit::Years));
        assert_eq!(coupon.coupon.accrual_start_date, start);
        assert_eq!(coupon.coupon.accrual_end_date, end);
        assert_eq!(
            coupon.coupon.payment_date,
            Calendar::weekends_only().adjust(end, BusinessDayConvention::ModifiedFollowing)
        );
        assert_eq!(coupon.coupon.nominal, 1_000_000.0);
        assert_eq!(coupon.day_counter, DayCounter::Thirty360BondBasis);
        assert_eq!(coupon.yoy_index, "YY_RPI");
    }
}

#[test]
fn the_front_optionlet_can_be_excluded_and_the_last_kept_alone() {
    let settings = today_settings();
    let effective = Date::new(1, Month::March, 2022);
    let all = builder(CapFloorType::Cap, 4).with_effective_date(effective).coupons(&settings).unwrap();
    let without_front = builder(CapFloorType::Cap, 4)
        .with_effective_date(effective)
        .with_first_caplet_excluded()
        .coupons(&settings)
        .unwrap();
    let last_only = builder(CapFloorType::Cap, 4)
        .with_effective_date(effective)
        .as_optionlet(true)
        .coupons(&settings)
        .unwrap();
    assert_eq!(all.len(), 4);
    assert_eq!(without_front.len(), 3);
    assert_eq!(without_front[0].coupon.accrual_start_date, all[1].coupon.accrual_start_date);
    assert_eq!(last_only.len(), 1);
    assert_eq!(last_only[0].coupon.accrual_end_date, Date::new(1, Month::March, 2026));
}

#[test]
fn the_strike_is_explicit_or_at_the_money_but_not_both() {
    let settings = today_settings();
    let cap = builder(CapFloorType::Cap, 2).with_strike(0.03).build(&settings, None).unwrap();
    assert_eq!(cap.cap_rates(), &[0.03, 0.03]);
    assert!(cap.floor_rates().is_empty());

    let atm = builder(CapFloorType::Floor, 2).with_atm_strike().build(&settings, Some(0.025)).unwrap();
    assert_eq!(atm.floor_rates(), &[0.025, 0.025]);

    let both = builder(CapFloorType::Cap, 2).with_strike(0.03).with_atm_strike().build(&settings, Some(0.02));
    assert_eq!(both.err(), Some(QlError::StrikeAndAtmCurve));
    let neither = builder(CapFloorType::Cap, 2).build(&settings, None);
    assert_eq!(neither.err(), Some(QlError::NoStrike));
    let collar = builder(CapFloorType::Collar, 2).with_strike(0.03).build(&settings, None);
    assert_eq!(collar.err(), Some(QlError::CollarNeedsTwoStrikeVectors));
}

#[test]
fn a_derived_cap_floor_start_needs_an_evaluation_date() {
    let built = builder(CapFloorType::Cap, 2).with_strike(0.03).build(&Settings::new(), None);
    assert_eq!(built.err(), Some(QlError::NoCapFloorReferenceDate));
    let empty = builder(CapFloorType::Cap, 1)
        .with_strike(0.03)
        .with_first_caplet_excluded()
        .build(&today_settings(), None);
    assert_eq!(empty.err(), Some(QlError::NoCoupons));
}

#[test]
fn strike_vectors_are_padded_with_their_last_strike() {
    let coupons = builder(CapFloorType::Cap, 3).coupons(&today_settings()).unwrap();
    let collar = YoYInflationCapFloor::collar(coupons, vec![0.05, 0.06], vec![0.01]).unwrap();
    assert_eq!(collar.cap_rates(), &[0.05, 0.06, 0.06]);
    assert_eq!(collar.floor_rates(), &[0.01, 0.01, 0.01]);
    assert_eq!(collar.cap_floor_type(), CapFloorType::Collar);

    let optionlet = collar.optionlet(1).unwrap();
    assert_eq!(optionlet.yoy_leg().len(), 1);
    assert_eq!(optionlet.cap_rates(), &[0.06]);
    assert_eq!(optionlet.floor_rates(), &[0.01]);
    assert_eq!(collar.optionlet(3).err(), Some(QlError::OptionletOutOfRange));
}

#[test]
fn a_cap_floor_refuses_missing_coupons_and_strikes() {
    let coupons = builder(CapFloorType::Cap, 2).coupons(&today_settings()).unwrap();
    assert_eq!(YoYInflationCapFloor::<f64, String>::cap(Vec::new(), vec![0.01]).err(), Some(QlError::NoCoupons));
    assert_eq!(
        YoYInflationCapFloor::floor(coupons, Vec::new()).err(),
        Some(QlError::NoFloorRates)
    );
}

#[test]
fn the_engine_arguments_span_the_leg() {
    let settings = today_settings();
    let floor = builder(CapFloorType::Floor, 3).with_strike(0.02).build(&settings, None).unwrap();
    let mut arguments = YoYInflationCapFloorArguments::new();
    floor.setup_arguments(&mut arguments);
    assert_eq!(arguments.cap_floor_type, Some(CapFloorType::Floor));
    assert_eq!(arguments.start_dates.len(), 3);
    assert_eq!(arguments.cap_rates, vec![None, None, None]);
    assert_eq!(arguments.floor_rates, vec![Some(0.02), Some(0.02), Some(0.02)]);
    assert_eq!(arguments.index.as_deref(), Some("YY_RPI"));
    // the accrual times are for the engine's side to fill
    assert_eq!(arguments.validate(), Err(QlError::AccrualTimeCountMismatch));
    arguments.accrual_times = vec![1.0, 1.0, 1.0];
    assert_eq!(arguments.validate(), Ok(()));
    assert_eq!(floor.start_date(), arguments.start_dates[0]);
    assert!(!floor.is_expired(&settings).unwrap());
}

fn yoy_coupon(accrual_end: Date) -> libitofin::cashflows::yoyinflationcoupon::YoYInflationCoupon<f64, String> {
    libitofin::cashflows::yoyinflationcoupon::YoYInflationCoupon::new(
        accrual_end,
        1_000_000.0,
        accrual_end.sub_period(Period::new(1, TimeUnit::Years)),
        accrual_end,
        0,
        "YY_RPI".to_string(),
        Period::new(3, TimeUnit::Months),
        CpiInterpolationType::Flat,
        DayCounter::Thirty360BondBasis,
        Some(1.0),
        Some(0.0),
        None,
        None,
    )
}

#[test]
fn the_base_date_separates_the_determined_coupon_from_the_live_one() {
    // a monthly surface observed eight months back from 10 February 2022
    let observed = today_settings().evaluation_date().unwrap().sub_period(Period::new(8, TimeUnit::Months));
    let base_date = libitofin::indexes::inflationindex::inflation_period(
        observed,
        libitofin::time::period::Frequency::Monthly,
    )
    .unwrap()
    .0;
    assert_eq!(base_date, Date::new(1, Month::June, 2021));

    let determined = yoy_coupon(Date::new(10, Month::August, 2021));
    let live = yoy_coupon(Date::new(10, Month::February, 2022));
    assert_eq!(determined.fixing_date(), Date::new(10, Month::May, 2021));
    assert_eq!(live.fixing_date(), Date::new(10, Month::November, 2021));
    assert!(!base_date.is_before(&determined.fixing_date()));
    assert!(base_date.is_before(&live.fixing_date()));
}
