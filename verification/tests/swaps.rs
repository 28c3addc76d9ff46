use libitofin::currency::Currency;
use libitofin::indexes::iborindex::{IborIndex, OvernightIndex};
use libitofin::errors::QlError;
use libitofin::instruments::fixedvsfloatingswap::{FixedVsFloatingSwapArguments, FixedVsFloatingSwapResults};
use libitofin::instruments::makeois::MakeOis;
use libitofin::instruments::swap::{SwapResults, SwapType};
use libitofin::instruments::vanillaswap::VanillaSwap;
use libitofin::time::calendar::{BusinessDayConvention, Calendar};
use libitofin::time::date::{Date, Month};
use libitofin::time::daycounter::DayCounter;
use libitofin::time::period::{Period, TimeUnit};
use libitofin::time::schedule::{DateGeneration, Schedule};

fn euribor6m() -> IborIndex {
    IborIndex::new(
        "Euribor".to_string(),
        Period::new(6, TimeUnit::Months),
        2,
        Currency::eur(),
        Calendar::weekends_only(),
        BusinessDayConvention::ModifiedFollowing,
        false,
        DayCounter::Actual360,
    )
}

/// Dates every `months` months from 15 January 2026, `periods` periods long,
/// rolled on a weekends-only calendar.
fn schedule(months: i32, periods: i32) -> Schedule {
    let calendar = Calendar::weekends_only();
    let start = Date::new(15, Month::January, 2026);
    let dates: Vec<Date> = (0..=periods)
        .map(|k| {
            calendar.adjust(
                start.add_period(Period::new(months * k, TimeUnit::Months)),
                BusinessDayConvention::ModifiedFollowing,
            )
        })
        .collect();
    Schedule::new(
        dates,
        calendar,
        BusinessDayConvention::ModifiedFollowing,
        Some(Period::new(months, TimeUnit::Months)),
        Some(DateGeneration::Forward),
        Some(false),
        vec![true; periods as usize],
    )
    .unwrap()
}

#[test]
fn a_vanilla_swap_hands_its_dates_to_the_engine() {
    let swap: VanillaSwap<f64> = VanillaSwap::new(
        SwapType::Payer,
        1_000_000.0,
        schedule(12, 2),
        0.03,
        DayCounter::Thirty360BondBasis,
        schedule(6, 4),
        euribor6m(),
        0.001,
        DayCounter::Actual360,
        None,
    )
    .unwrap();
    let mut arguments: FixedVsFloatingSwapArguments<f64> = FixedVsFloatingSwapArguments::new();
    swap.setup_arguments(&mut arguments);
    assert_eq!(arguments.swap.legs.len(), 2);
    assert_eq!(arguments.swap.payer, vec![-1.0, 1.0]);
    assert_eq!(arguments.swap_type, Some(SwapType::Payer));
    assert_eq!(arguments.nominal, Some(1_000_000.0));
    assert_eq!(arguments.fixed_pay_dates.len(), 2);
    assert_eq!(arguments.fixed_reset_dates[0], Date::new(15, Month::January, 2026));
    assert_eq!(arguments.fixed_nominals, vec![1_000_000.0; 2]);
    assert_eq!(arguments.floating_pay_dates.len(), 4);
    // 15 July 2026 is a Wednesday; the fixing is two business days before.
    assert_eq!(arguments.floating_reset_dates[1], Date::new(15, Month::July, 2026));
    assert_eq!(arguments.floating_fixing_dates[1], Date::new(13, Month::July, 2026));
    assert_eq!(arguments.floating_spreads, vec![0.001; 4]);
    assert!(arguments.fixed_coupons.is_empty());
    assert!(arguments.floating_coupons.is_empty());
}

#[test]
fn an_overnight_swap_hands_its_dates_to_the_engine() {
    let estr = OvernightIndex::new(
        "ESTR".to_string(),
        0,
        Currency::eur(),
        Calendar::weekends_only(),
        DayCounter::Actual360,
    );
    let terms: MakeOis<f64> =
        MakeOis::new(Period::new(2, TimeUnit::Years), estr, Some(0.02), Period::new(0, TimeUnit::Days));
    let swap = terms.assemble(0.02, schedule(12, 2), schedule(12, 2), DayCounter::Actual360).unwrap();
    let mut arguments: FixedVsFloatingSwapArguments<f64> = FixedVsFloatingSwapArguments::new();
    swap.setup_arguments(&mut arguments);
    assert_eq!(arguments.swap.payer.len(), 2);
    assert_eq!(arguments.floating_pay_dates.len(), 2);
    assert_eq!(arguments.floating_nominals, vec![1.0, 1.0]);
    assert_eq!(arguments.floating_spreads, vec![0.0, 0.0]);
    assert!(arguments.floating_fixing_dates.is_empty());
}

#[test]
fn delivered_swap_results_are_checked_per_leg() {
    let mut swap: VanillaSwap<f64> = VanillaSwap::new(
        SwapType::Receiver,
        100.0,
        schedule(12, 1),
        0.03,
        DayCounter::Thirty360BondBasis,
        schedule(6, 2),
        euribor6m(),
        0.0,
        DayCounter::Actual360,
        None,
    )
    .unwrap();
    let mut results = FixedVsFloatingSwapResults {
        swap: SwapResults {
            value: None,
            leg_npv: vec![1.0],
            leg_bps: Vec::new(),
            start_discounts: Vec::new(),
            end_discounts: Vec::new(),
            npv_date_discount: None,
        },
        fair_rate: Some(0.031),
        fair_spread: None,
    };
    let base = swap.fixed_vs_floating_mut();
    assert_eq!(base.fetch_results(&results, None, None), Err(QlError::WrongLegNpvCount));
    assert!(base.fair_rate().is_err());
    results.swap.leg_npv = vec![1.0, -2.0];
    results.swap.leg_bps = vec![0.5];
    assert_eq!(base.fetch_results(&results, None, None), Err(QlError::WrongLegBpsCount));
    results.swap.leg_bps = Vec::new();
    assert_eq!(base.fetch_results(&results, None, None), Ok(()));
    assert_eq!(base.fair_rate(), Ok(0.031));
    assert_eq!(base.floating_leg_npv(), Ok(-2.0));
}

#[test]
fn a_fair_rate_missing_from_the_results_is_derived_from_value_and_sensitivity() {
    let mut swap: VanillaSwap<f64> = VanillaSwap::new(
        SwapType::Payer,
        100.0,
        schedule(12, 1),
        0.03,
        DayCounter::Thirty360BondBasis,
        schedule(6, 2),
        euribor6m(),
        0.001,
        DayCounter::Actual360,
        None,
    )
    .unwrap();
    let results = FixedVsFloatingSwapResults {
        swap: SwapResults {
            value: Some(0.5),
            leg_npv: vec![-99.5, 100.0],
            leg_bps: vec![-0.01, 0.0098],
            start_discounts: Vec::new(),
            end_discounts: Vec::new(),
            npv_date_discount: None,
        },
        fair_rate: None,
        fair_spread: Some(0.0007),
    };
    let base = swap.fixed_vs_floating_mut();
    let (rate, npv, bps) = base.fair_rate_inputs(&results).unwrap();
    assert_eq!((rate, npv, bps), (0.03, 0.5, -0.01));
    // the engine's own fair spread is kept: nothing to derive it from
    assert_eq!(base.fair_spread_inputs(&results), None);
    let derived = rate - npv / (bps / 1.0e-4);
    assert!((derived - 0.035).abs() < 1e-12);
    assert_eq!(base.fetch_results(&results, Some(derived), Some(1.0)), Ok(()));
    assert_eq!(base.fair_rate(), Ok(derived));
    assert_eq!(base.fair_spread(), Ok(0.0007));
    assert_eq!(base.swap().npv(), Ok(0.5));
}

#[test]
fn without_the_swap_value_no_fair_rate_is_derived() {
    let mut swap: VanillaSwap<f64> = VanillaSwap::new(
        SwapType::Payer,
        100.0,
        schedule(12, 1),
        0.03,
        DayCounter::Thirty360BondBasis,
        schedule(6, 2),
        euribor6m(),
        0.0,
        DayCounter::Actual360,
        None,
    )
    .unwrap();
    let results = FixedVsFloatingSwapResults {
        swap: SwapResults {
            value: None,
            leg_npv: vec![-99.5, 100.0],
            leg_bps: vec![-0.01, 0.0098],
            start_discounts: Vec::new(),
            end_discounts: Vec::new(),
            npv_date_discount: None,
        },
        fair_rate: None,
        fair_spread: None,
    };
    let base = swap.fixed_vs_floating_mut();
    assert_eq!(base.fair_rate_inputs(&results), None);
    assert_eq!(base.fair_spread_inputs(&results), None);
    assert_eq!(base.fetch_results(&results, Some(0.035), Some(0.002)), Ok(()));
    assert_eq!(base.fair_rate(), Err(QlError::ResultNotAvailable));
    assert_eq!(base.fair_spread(), Err(QlError::ResultNotAvailable));
}
