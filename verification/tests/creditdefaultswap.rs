use libitofin::errors::QlError;
use libitofin::instruments::creditdefaultswap::{
    CdsArguments, CdsResults, CdsTerms, CreditDefaultSwap, ProtectionSide,
};
use libitofin::settings::Settings;
use libitofin::time::calendar::{BusinessDayConvention, Calendar};
use libitofin::time::date::{Date, Month};
use libitofin::time::daycounter::DayCounter;
use libitofin::time::period::{Period, TimeUnit};
use libitofin::time::schedule::{DateGeneration, Schedule};

const NOTIONAL: f64 = 10_000_000.0;
const SPREAD: f64 = 0.01;

type Cds = CreditDefaultSwap<f64, ()>;

/// Dates every `months` months from `from` to `to`, each but the last
/// rolled forward to a business day of a weekends-only calendar.
fn rolled_dates(from: Date, to: Date, months: i32, adjust_last: bool) -> Vec<Date> {
    let calendar = Calendar::weekends_only();
    let mut dates = Vec::new();
    let mut i = 0;
    loop {
        let unadjusted = from.add_period(Period::new(months * i, TimeUnit::Months));
        let last = unadjusted == to;
        if last && !adjust_last {
            dates.push(unadjusted);
        } else {
            dates.push(calendar.adjust(unadjusted, BusinessDayConvention::Following));
        }
        if last {
            return dates;
        }
        i += 1;
    }
}

/// A ten-year semiannual contract schedule, generated backwards from its
/// unadjusted termination date.
fn ten_year_schedule() -> Schedule {
    let dates = rolled_dates(
        Date::new(20, Month::June, 2026),
        Date::new(20, Month::June, 2036),
        6,
        false,
    );
    let periods = dates.len() - 1;
    Schedule::new(
        dates,
        Calendar::weekends_only(),
        BusinessDayConvention::Following,
        Some(Period::new(6, TimeUnit::Months)),
        Some(DateGeneration::Backward),
        Some(false),
        vec![true; periods],
    )
    .unwrap()
}

fn contract(terms: CdsTerms<()>) -> Result<Cds, QlError> {
    CreditDefaultSwap::with_terms(
        ProtectionSide::Buyer,
        NOTIONAL,
        SPREAD,
        ten_year_schedule(),
        BusinessDayConvention::Following,
        DayCounter::Actual360,
        terms,
    )
}

#[test]
fn the_premium_leg_spans_the_schedule_and_the_contract_matures_with_it() {
    let schedule = ten_year_schedule();
    let cds: Cds = CreditDefaultSwap::new(
        ProtectionSide::Buyer,
        NOTIONAL,
        SPREAD,
        schedule.copied(),
        BusinessDayConvention::Following,
        DayCounter::Actual360,
        true,
        true,
    )
    .unwrap();

    assert_eq!(cds.coupons().len(), schedule.len() - 1);
    assert_eq!(cds.coupons().len(), 20);
    assert_eq!(
        cds.coupons()[0].date(),
        Calendar::weekends_only().adjust(schedule.date(1), BusinessDayConvention::Following)
    );
    assert_eq!(cds.maturity(), *schedule.dates().last().unwrap());
    assert_eq!(cds.side(), ProtectionSide::Buyer);
    assert_eq!(cds.notional(), NOTIONAL);
    assert_eq!(cds.running_spread(), SPREAD);
    assert!(cds.settles_accrual());
    assert!(cds.pays_at_default_time());
    assert_eq!(cds.cash_settlement_days(), 3);
}

#[test]
fn the_trade_date_defaults_to_the_day_before_the_protection_start() {
    let cds = contract(CdsTerms::default()).unwrap();

    assert_eq!(cds.trade_date(), cds.protection_start_date().sub_days(1));
}

#[test]
fn the_protection_starts_on_the_first_accrual_date_unless_given() {
    let schedule = ten_year_schedule();
    assert_eq!(
        contract(CdsTerms::default()).unwrap().protection_start_date(),
        schedule.date(0)
    );

    let earlier = schedule.date(0).sub_days(10);
    let cds = contract(CdsTerms { protection_start: Some(earlier), ..CdsTerms::default() }).unwrap();
    assert_eq!(cds.protection_start_date(), earlier);
    assert_eq!(cds.trade_date(), earlier.sub_days(1));
}

#[test]
fn the_upfront_payment_is_a_zero_flow_on_the_cash_settlement_date() {
    let cds = contract(CdsTerms::default()).unwrap();
    let expected = Calendar::weekends_only().advance(
        cds.trade_date(),
        3,
        TimeUnit::Days,
        BusinessDayConvention::Following,
        false,
    );

    assert_eq!(cds.upfront(), None);
    assert_eq!(cds.upfront_payment().date(), expected);
    assert!(cds.upfront_payment().accrual.is_none());
    assert!(expected >= cds.protection_start_date());
}

#[test]
fn the_accrual_rebate_is_a_zero_flow_when_rebated_and_absent_otherwise() {
    let rebated = contract(CdsTerms::default()).unwrap();
    let rebate = rebated.accrual_rebate().unwrap();
    assert!(rebated.rebates_accrual());
    assert!(rebate.accrual.is_none());
    assert_eq!(rebate.date(), rebated.upfront_payment().date());

    let bare = contract(CdsTerms { rebates_accrual: false, ..CdsTerms::default() }).unwrap();
    assert!(bare.accrual_rebate().is_none());
    assert!(!bare.rebates_accrual());
}

#[test]
fn an_empty_schedule_is_an_error_not_a_panic() {
    let empty: Result<Cds, QlError> = CreditDefaultSwap::with_terms(
        ProtectionSide::Buyer,
        NOTIONAL,
        SPREAD,
        Schedule::from_dates(Vec::new()),
        BusinessDayConvention::Following,
        DayCounter::Actual360,
        CdsTerms::default(),
    );

    assert!(empty.is_err());
    assert_eq!(empty.err(), Some(QlError::EmptySchedule));
}

#[test]
fn protection_can_not_start_after_the_first_accrual_date() {
    let late = ten_year_schedule().date(0).add_days(1);

    let refused = contract(CdsTerms { protection_start: Some(late), ..CdsTerms::default() });
    assert!(refused.is_err());
    assert_eq!(refused.err(), Some(QlError::ProtectionAfterAccrual));
}

#[test]
fn a_trade_date_on_or_after_the_first_accrual_date_is_refused_while_rebating() {
    let first_accrual = ten_year_schedule().date(0);

    let refused = contract(CdsTerms { trade_date: Some(first_accrual), ..CdsTerms::default() });
    assert!(refused.is_err());
    assert_eq!(refused.err(), Some(QlError::AccruedRebate));

    let bare = contract(CdsTerms {
        trade_date: Some(first_accrual),
        rebates_accrual: false,
        ..CdsTerms::default()
    })
    .unwrap();
    assert_eq!(bare.trade_date(), first_accrual);
}

#[test]
fn a_post_big_bang_contract_trades_on_the_protection_start() {
    let dates = rolled_dates(
        Date::new(20, Month::June, 2026),
        Date::new(20, Month::June, 2036),
        3,
        false,
    );
    let periods = dates.len() - 1;
    let schedule = Schedule::new(
        dates,
        Calendar::weekends_only(),
        BusinessDayConvention::Following,
        Some(Period::new(3, TimeUnit::Months)),
        Some(DateGeneration::CDS),
        Some(false),
        vec![true; periods],
    )
    .unwrap();
    let build = |terms| -> Result<Cds, QlError> {
        CreditDefaultSwap::with_terms(
            ProtectionSide::Buyer,
            NOTIONAL,
            SPREAD,
            schedule.copied(),
            BusinessDayConvention::Following,
            DayCounter::Actual360,
            terms,
        )
    };

    let cds = build(CdsTerms { rebates_accrual: false, ..CdsTerms::default() }).unwrap();
    assert_eq!(cds.trade_date(), cds.protection_start_date());
    assert_eq!(cds.protection_start_date(), schedule.date(0));

    assert!(build(CdsTerms::default()).is_err());
}

#[test]
fn the_claim_defaults_to_the_face_value() {
    let cds = contract(CdsTerms::default()).unwrap();

    // no claim was given, so a default pays the face value not recovered
    assert!(cds.claim().is_none());
}

#[test]
fn the_last_period_day_counter_reaches_the_last_coupon_only() {
    let plain = contract(CdsTerms::default()).unwrap();
    let overridden = contract(CdsTerms {
        last_period_day_counter: Some(DayCounter::Actual365Fixed),
        ..CdsTerms::default()
    })
    .unwrap();

    let day_counter = |cds: &Cds, i: usize| cds.coupons()[i].rate.day_counter();
    let last = plain.coupons().len() - 1;
    assert_ne!(day_counter(&plain, last), day_counter(&overridden, last));
    assert_eq!(day_counter(&overridden, last), DayCounter::Actual365Fixed);
    assert_eq!(day_counter(&plain, 0), day_counter(&overridden, 0));
    assert_eq!(day_counter(&overridden, 0), DayCounter::Actual360);
}

#[test]
fn the_engine_results_are_refused_until_delivered() {
    let cds = contract(CdsTerms::default()).unwrap();
    assert!(cds.fair_spread().is_err());
    assert!(cds.coupon_leg_npv().is_err());
}

#[test]
fn a_delivered_result_is_read_back() {
    let mut cds = contract(CdsTerms::default()).unwrap();
    let mut results = CdsResults::none();
    results.fair_spread = Some(0.0123);
    cds.fetch_results(&results);
    assert_eq!(cds.fair_spread(), Ok(0.0123));
    assert!(cds.coupon_leg_npv().is_err());
}

#[test]
fn a_contract_expires_once_its_last_coupon_has_paid() {
    let cds = contract(CdsTerms::default()).unwrap();
    let mut settings = Settings::new();
    assert_eq!(cds.is_expired(&settings), Err(QlError::NoReferenceDate));
    settings.set_evaluation_date(Date::new(1, Month::January, 2030));
    assert_eq!(cds.is_expired(&settings), Ok(false));
    settings.set_evaluation_date(Date::new(1, Month::January, 2040));
    assert_eq!(cds.is_expired(&settings), Ok(true));
}

#[test]
fn an_expired_contract_reports_zero_results_but_the_rebate() {
    let mut cds = contract(CdsTerms::default()).unwrap();
    let mut results = CdsResults::none();
    results.accrual_rebate_npv = Some(7.0);
    results.fair_spread = Some(0.5);
    cds.fetch_results(&results);
    cds.setup_expired();
    assert_eq!(cds.fair_spread(), Ok(0.0));
    assert_eq!(cds.fair_upfront(), Ok(0.0));
    assert_eq!(cds.coupon_leg_bps(), Ok(0.0));
    assert_eq!(cds.coupon_leg_npv(), Ok(0.0));
    assert_eq!(cds.default_leg_npv(), Ok(0.0));
    assert_eq!(cds.upfront_bps(), Ok(0.0));
    assert_eq!(cds.upfront_npv(), Ok(0.0));
    assert_eq!(cds.accrual_rebate_npv(), Ok(7.0));
}

#[test]
fn reset_results_are_all_absent() {
    let mut results: CdsResults<f64> = CdsResults::none();
    results.fair_spread = Some(0.01);
    results.upfront_npv = Some(3.0);
    results.reset();
    assert_eq!(results.fair_spread, None);
    assert_eq!(results.upfront_npv, None);
    assert_eq!(results.accrual_rebate_npv, None);
}

#[test]
fn the_arguments_carry_the_contract_and_validate() {
    let cds = contract(CdsTerms::default()).unwrap();
    let mut arguments: CdsArguments<f64, ()> = CdsArguments::new();
    assert_eq!(arguments.validate(), Err(QlError::SideNotSet));
    cds.setup_arguments(&mut arguments);
    assert_eq!(arguments.validate(), Ok(()));
    assert_eq!(arguments.side, Some(ProtectionSide::Buyer));
    assert_eq!(arguments.notional, Some(NOTIONAL));
    assert_eq!(arguments.spread, Some(SPREAD));
    assert_eq!(arguments.upfront, None);
    assert_eq!(arguments.leg.len(), cds.coupons().len());
    assert_eq!(arguments.upfront_payment.unwrap().date, cds.upfront_payment().date);
    assert_eq!(arguments.claim, Some(None));
    assert_eq!(arguments.protection_start, Some(cds.protection_start_date()));
    assert_eq!(arguments.maturity, Some(cds.maturity()));
}

#[test]
fn arguments_name_the_first_thing_missing() {
    let cds = contract(CdsTerms::default()).unwrap();
    let mut arguments: CdsArguments<f64, ()> = CdsArguments::new();
    cds.setup_arguments(&mut arguments);
    arguments.notional = Some(0.0);
    assert_eq!(arguments.validate(), Err(QlError::NullNotional));
    assert_eq!(QlError::NullNotional.message(), "null notional set");
    arguments.notional = None;
    assert_eq!(arguments.validate(), Err(QlError::NotionalNotSet));
    arguments.notional = Some(NOTIONAL);
    arguments.spread = None;
    assert_eq!(arguments.validate(), Err(QlError::SpreadNotSet));
    cds.setup_arguments(&mut arguments);
    arguments.leg.clear();
    assert_eq!(arguments.validate(), Err(QlError::CouponsNotSet));
    cds.setup_arguments(&mut arguments);
    arguments.upfront_payment = None;
    assert_eq!(arguments.validate(), Err(QlError::UpfrontPaymentNotSet));
    cds.setup_arguments(&mut arguments);
    arguments.claim = None;
    assert_eq!(arguments.validate(), Err(QlError::ClaimNotSet));
    cds.setup_arguments(&mut arguments);
    arguments.protection_start = None;
    assert_eq!(arguments.validate(), Err(QlError::ProtectionStartNotSet));
    cds.setup_arguments(&mut arguments);
    arguments.maturity = None;
    assert_eq!(arguments.validate(), Err(QlError::MaturityNotSet));
}
