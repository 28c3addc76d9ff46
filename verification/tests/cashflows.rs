use libitofin::cashflows::cashflow::{CashFlowDates, Leg};
use libitofin::cashflows::cashflows::CashFlows;
use libitofin::errors::QlError;
use libitofin::settings::Settings;
use libitofin::time::date::{Date, Month};

fn today() -> Date {
    Date::new(7, Month::July, 2026)
}

fn accrual_start() -> Date {
    Date::new(15, Month::January, 2026)
}

fn accrual_end() -> Date {
    Date::new(15, Month::July, 2026)
}

fn payment() -> Date {
    Date::new(20, Month::July, 2026)
}

fn early_payment() -> Date {
    Date::new(10, Month::January, 2026)
}

/// An early plain flow, a coupon accruing across the evaluation date, and a
/// redemption sharing the coupon's payment date.
fn leg() -> Leg {
    vec![
        CashFlowDates::simple(early_payment()),
        CashFlowDates::coupon(payment(), accrual_start(), accrual_end()),
        CashFlowDates::simple(payment()),
    ]
}

fn settings() -> Settings {
    let mut settings = Settings::new();
    settings.set_evaluation_date(today());
    settings
}

#[test]
fn the_leg_spans_the_accrual_dates_of_its_coupons() {
    let leg = leg();

    assert_eq!(CashFlows::start_date(&leg).unwrap(), early_payment());
    assert_eq!(CashFlows::maturity_date(&leg).unwrap(), payment());
}

#[test]
fn an_empty_leg_has_no_dates() {
    let leg = Leg::new();

    assert!(CashFlows::start_date(&leg).is_err());
    assert!(CashFlows::maturity_date(&leg).is_err());
}

#[test]
fn the_previous_and_next_flows_straddle_the_settlement_date() {
    let (leg, settings) = (leg(), settings());
    let at = |date| {
        (
            CashFlows::previous_cash_flow(&leg, &settings, None, date).unwrap(),
            CashFlows::next_cash_flow(&leg, &settings, None, date).unwrap(),
        )
    };

    assert_eq!(at(None), (Some(0), Some(1)));
    assert_eq!(at(Some(early_payment().sub_days(1))), (None, Some(0)));
    assert_eq!(at(Some(payment().add_days(1))), (Some(2), None));
}

#[test]
fn the_flow_dates_follow_the_flows_they_are_read_off() {
    let (leg, settings) = (leg(), settings());
    let previous = |date| CashFlows::previous_cash_flow_date(&leg, &settings, None, date);
    let next = |date| CashFlows::next_cash_flow_date(&leg, &settings, None, date);

    assert_eq!(previous(None).unwrap(), Some(early_payment()));
    assert_eq!(next(None).unwrap(), Some(payment()));
    assert_eq!(previous(Some(early_payment().sub_days(1))).unwrap(), None);
    assert_eq!(next(Some(payment().add_days(1))).unwrap(), None);
}

#[test]
fn an_unset_evaluation_date_is_an_error() {
    let (leg, settings) = (leg(), Settings::new());

    assert!(CashFlows::previous_cash_flow(&leg, &settings, None, None).is_err());
    assert!(CashFlows::next_cash_flow(&leg, &settings, None, None).is_err());
}

#[test]
fn the_missing_reference_date_error_names_its_cause() {
    let (leg, settings) = (leg(), Settings::new());
    assert_eq!(
        CashFlows::next_cash_flow(&leg, &settings, None, None),
        Err(QlError::NoReferenceDate)
    );
    assert_eq!(CashFlows::start_date(&Leg::new()), Err(QlError::EmptyLeg));
}

#[test]
fn the_flows_sharing_a_payment_date_form_one_range() {
    let (leg, settings) = (leg(), settings());
    // the coupon and the redemption pay together on the next payment date
    assert_eq!(
        CashFlows::next_cash_flow_range(&leg, &settings, None, None).unwrap(),
        Some((1, 3))
    );
    assert_eq!(
        CashFlows::previous_cash_flow_range(&leg, &settings, None, None).unwrap(),
        Some((0, 1))
    );
}

#[test]
fn a_flow_on_the_settlement_date_counts_as_pending_only_when_included() {
    let (leg, settings) = (leg(), settings());
    let on = Some(payment());
    assert_eq!(CashFlows::next_cash_flow(&leg, &settings, Some(true), on).unwrap(), Some(1));
    assert_eq!(CashFlows::next_cash_flow(&leg, &settings, Some(false), on).unwrap(), None);
}
