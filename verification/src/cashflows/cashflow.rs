//! The dates a cash flow carries, and when it counts as occurred.
use vstd::prelude::*;

use crate::errors::QlError;
use crate::settings::Settings;
use crate::time::date::Date;

verus! {

/// The accrual period of a coupon.
#[derive(Clone, Copy, Debug, PartialEq, Eq, Structural)]
pub struct AccrualPeriod {
    /// The start of the accrual period.
    pub start: Date,
    /// The end of the accrual period.
    pub end: Date,
}

/// The dates of a cash flow: its payment date and, for a coupon, the period
/// it accrues over.
#[derive(Clone, Copy, Debug, PartialEq, Eq, Structural)]
pub struct CashFlowDates {
    /// The payment date.
    pub date: Date,
    /// The accrual period, for a coupon.
    pub accrual: Option<AccrualPeriod>,
}

/// A sequence of cash flows.
pub type Leg = Vec<CashFlowDates>;

impl CashFlowDates {
    /// Whether every date the flow carries is in the supported range.
    pub open spec fn wf(self) -> bool {
        &&& self.date.wf()
        &&& self.accrual matches Some(a) ==> a.start.wf() && a.end.wf()
    }

    /// A plain flow paid on `date`.
    pub fn simple(date: Date) -> (r: CashFlowDates)
        ensures
            r.date == date,
            r.accrual is None,
    {
        CashFlowDates { date, accrual: None }
    }

    /// A coupon paid on `date`, accruing from `start` to `end`.
    pub fn coupon(date: Date, start: Date, end: Date) -> (r: CashFlowDates)
        ensures
            r.date == date,
            r.accrual == Some(AccrualPeriod { start, end }),
    {
        CashFlowDates { date, accrual: Some(AccrualPeriod { start, end }) }
    }

    /// The payment date.
    pub fn date(&self) -> (r: Date)
        ensures
            r == self.date,
    {
        self.date
    }
}

/// The date an occurrence is measured against: the settlement date when
/// given, else the evaluation date.
pub open spec fn reference_date(settings: Settings, settlement_date: Option<Date>) -> Option<Date> {
    match settlement_date {
        Some(d) => Some(d),
        None => settings.evaluation_date,
    }
}

/// Whether a flow paying on its reference date counts as not yet occurred.
pub open spec fn includes_reference_date(
    settings: Settings,
    settlement_date: Option<Date>,
    include_settlement_date_flows: Option<bool>,
) -> bool {
    let on_today = match settlement_date {
        None => true,
        Some(d) => settings.evaluation_date == Some(d),
    };
    if on_today && settings.include_todays_cash_flows is Some {
        settings.include_todays_cash_flows.unwrap()
    } else {
        match include_settlement_date_flows {
            Some(b) => b,
            None => settings.include_reference_date_events,
        }
    }
}

/// Whether a flow paying on `date` has occurred by reference date `reference`.
pub open spec fn occurred(date: Date, reference: Date, include_reference_date: bool) -> bool {
    date@ < reference@ || (date@ == reference@ && !include_reference_date)
}

/// Whether the flow paying on `date` has occurred under `settings`, measured
/// against `settlement_date` or, without one, the evaluation date.
///
/// A flow paying before the reference date has occurred and one paying after
/// it has not. One paying on it has occurred unless flows on the reference
/// date are included: the caller's choice, else the settings' default, and
/// on the evaluation date the settings' override for today's flows when set.
pub fn has_occurred(
    date: Date,
    settings: &Settings,
    settlement_date: Option<Date>,
    include_settlement_date_flows: Option<bool>,
) -> (r: Result<bool, QlError>)
    ensures
        reference_date(*settings, settlement_date) is None ==> r == Err::<bool, QlError>(
            QlError::NoReferenceDate,
        ),
        reference_date(*settings, settlement_date) matches Some(reference) ==> r == Ok::<
            bool,
            QlError,
        >(
            occurred(
                date,
                reference,
                includes_reference_date(*settings, settlement_date, include_settlement_date_flows),
            ),
        ),
{
    let reference = match settlement_date {
        Some(d) => d,
        None => match settings.evaluation_date {
            Some(d) => d,
            None => {
                return Err(QlError::NoReferenceDate);
            },
        },
    };
    if reference.is_before(&date) {
        return Ok(false);
    }
    if date.is_before(&reference) {
        return Ok(true);
    }
    let on_today = match settlement_date {
        None => true,
        Some(d) => match settings.evaluation_date {
            Some(e) => d == e,
            None => false,
        },
    };
    let includes = if on_today && settings.include_todays_cash_flows.is_some() {
        settings.include_todays_cash_flows.unwrap()
    } else {
        match include_settlement_date_flows {
            Some(b) => b,
            None => settings.include_reference_date_events,
        }
    };
    Ok(!includes)
}

} // verus!
