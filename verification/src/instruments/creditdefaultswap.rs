//! Credit-default swaps quoted as a running spread: the contract's terms,
//! the premium leg it pays, and the upfront and accrual-rebate flows that
//! frame it.
use vstd::prelude::*;

use crate::cashflows::cashflow::CashFlowDates;
use crate::cashflows::coupon::{is_zero_amount, may_be_nonzero, may_be_zero};
use crate::cashflows::fixedrateleg::{FixedRateCoupon, FixedRateLeg, fixed_coupon_serials, fixed_dates_defined};
use crate::cashflows::cashflow::{has_occurred, includes_reference_date, occurred};
use crate::errors::QlError;
use crate::settings::Settings;
use crate::interestrate::Compounding;
use crate::time::calendar::{BusinessDayConvention, advance_spec};
use crate::time::date::{Date, serial_in_range};
use crate::time::daycounter::DayCounter;
use crate::time::period::{Frequency, TimeUnit};
use crate::time::schedule::{DateGeneration, Schedule, ScheduleModel};

verus! {

/// Which side of the protection a contract holds.
#[derive(Clone, Copy, Debug, PartialEq, Eq, Structural, Hash)]
pub enum ProtectionSide {
    /// Pays the premium and receives the protection payment.
    Buyer,
    /// Receives the premium and pays the protection payment.
    Seller,
}

/// The terms of a credit-default swap that take a default when not quoted.
///
/// The claim, what a default pays out, is carried as the caller represents
/// it; without one the contract pays the face value not recovered.
pub struct CdsTerms<C> {
    /// Whether the accrued coupon is due on a default.
    pub settles_accrual: bool,
    /// Whether a default pays at default time rather than at the end of the
    /// accrual period.
    pub pays_at_default_time: bool,
    /// The first date a default triggers the contract; the schedule's first
    /// date when absent.
    pub protection_start: Option<Date>,
    /// What a default pays out; the face value not recovered when absent.
    pub claim: Option<C>,
    /// The day counter the last coupon accrues with, in place of the
    /// spread's.
    pub last_period_day_counter: Option<DayCounter>,
    /// Whether the protection seller rebates the accrued current coupon.
    pub rebates_accrual: bool,
    /// The trade date; deduced from the protection start when absent.
    pub trade_date: Option<Date>,
    /// The business days from the trade date to cash settlement.
    pub cash_settlement_days: u32,
}

impl<C> CdsTerms<C> {
    /// The usual terms: accrual settled and paid at default time, the
    /// protection starting with the schedule, the face-value claim, no
    /// last-period day counter, the accrual rebated, a deduced trade date,
    /// and cash settlement three business days after it.
    pub fn standard() -> (r: CdsTerms<C>)
        ensures
            r.settles_accrual,
            r.pays_at_default_time,
            r.protection_start is None,
            r.claim is None,
            r.last_period_day_counter is None,
            r.rebates_accrual,
            r.trade_date is None,
            r.cash_settlement_days == 3,
    {
        CdsTerms {
            settles_accrual: true,
            pays_at_default_time: true,
            protection_start: None,
            claim: None,
            last_period_day_counter: None,
            rebates_accrual: true,
            trade_date: None,
            cash_settlement_days: 3,
        }
    }
}

impl<C> Default for CdsTerms<C> {
    fn default() -> (r: CdsTerms<C>)
        ensures
            r.settles_accrual,
            r.pays_at_default_time,
            r.protection_start is None,
            r.claim is None,
            r.last_period_day_counter is None,
            r.rebates_accrual,
            r.trade_date is None,
            r.cash_settlement_days == 3,
    {
        CdsTerms::standard()
    }
}

/// Whether a schedule was generated under a post-big-bang rule, under which
/// protection is effective from the trade date.
pub open spec fn is_post_big_bang(s: ScheduleModel) -> bool {
    s.rule == Some(DateGeneration::CDS) || s.rule == Some(DateGeneration::CDS2015)
}

/// The protection start: the one given, or the schedule's first date.
pub open spec fn protection_start_spec(s: ScheduleModel, given: Option<Date>) -> Date {
    match given {
        Some(d) => d,
        None => s.dates[0],
    }
}

/// The serial number of the trade date: the one given, or the protection
/// start under a post-big-bang rule and the day before it otherwise.
pub open spec fn trade_date_spec(s: ScheduleModel, protection_start: Date, given: Option<Date>) -> int {
    match given {
        Some(d) => d@,
        None => if is_post_big_bang(s) {
            protection_start@
        } else {
            protection_start@ - 1
        },
    }
}

/// The cash settlement date: `days` business days after `trade` on the
/// schedule's calendar, rolled with `convention`.
pub open spec fn upfront_date_spec(
    s: ScheduleModel,
    trade: int,
    days: u32,
    convention: BusinessDayConvention,
) -> Option<int> {
    advance_spec(s.calendar, trade, days as int, TimeUnit::Days, convention, false)
}

/// Whether every date a contract over `s` derives is in the supported range:
/// the premium leg's, the trade date, and the cash settlement date.
pub open spec fn cds_dates_defined<C>(
    s: ScheduleModel,
    payment_convention: BusinessDayConvention,
    terms: CdsTerms<C>,
) -> bool {
    let start = protection_start_spec(s, terms.protection_start);
    let trade = trade_date_spec(s, start, terms.trade_date);
    &&& fixed_dates_defined(s, s.calendar, 0, payment_convention, None)
    &&& s.dates.len() > 0 ==> {
        &&& start.wf()
        &&& serial_in_range(trade)
        &&& terms.cash_settlement_days <= i32::MAX
        &&& upfront_date_spec(s, trade, terms.cash_settlement_days, payment_convention) is Some
    }
}

/// The error a contract over `s` refuses to build with, if any, checked in
/// this order: an empty schedule; a protection start after the first
/// accrual date outside the post-big-bang rules; a schedule spanning no
/// premium period; a cash settlement before the protection start; and a
/// trade date on or after the first accrual date while the accrual is
/// rebated.
pub open spec fn cds_error<C>(
    s: ScheduleModel,
    payment_convention: BusinessDayConvention,
    terms: CdsTerms<C>,
) -> Option<QlError> {
    let start = protection_start_spec(s, terms.protection_start);
    let trade = trade_date_spec(s, start, terms.trade_date);
    if s.dates.len() == 0 {
        Some(QlError::EmptySchedule)
    } else if !is_post_big_bang(s) && start@ > s.dates[0]@ {
        Some(QlError::ProtectionAfterAccrual)
    } else if s.dates.len() < 2 {
        Some(QlError::ScheduleTooShort)
    } else if upfront_date_spec(s, trade, terms.cash_settlement_days, payment_convention).unwrap()
        < start@ {
        Some(QlError::SettlementBeforeProtection)
    } else if terms.rebates_accrual && trade >= s.dates[0]@ {
        Some(QlError::AccruedRebate)
    } else {
        None
    }
}

/// A credit-default swap quoted as a running spread.
///
/// One side pays the premium leg and receives the protection payment, the
/// other the reverse. The notional and spread are carried as the caller
/// represents them; the contract quotes no upfront, so its upfront payment
/// and accrual rebate are flows of zero amount, which only their dates
/// describe here.
pub struct CreditDefaultSwap<R, C> {
    side: ProtectionSide,
    notional: R,
    running_spread: R,
    settles_accrual: bool,
    pays_at_default_time: bool,
    claim: Option<C>,
    protection_start: Date,
    trade_date: Date,
    cash_settlement_days: u32,
    leg: Vec<FixedRateCoupon<R>>,
    upfront_date: Date,
    accrual_rebate_date: Option<Date>,
    maturity: Date,
    results: CdsResults<R>,
}

/// What a pricing engine delivers for a credit-default swap; a result it
/// did not compute is absent.
#[derive(Clone, Copy)]
pub struct CdsResults<R> {
    /// The running spread pricing the contract at zero.
    pub fair_spread: Option<R>,
    /// The upfront pricing the contract at zero.
    pub fair_upfront: Option<R>,
    /// The premium leg's sensitivity to a one-basis-point spread move.
    pub coupon_leg_bps: Option<R>,
    /// The premium leg's value.
    pub coupon_leg_npv: Option<R>,
    /// The protection leg's value.
    pub default_leg_npv: Option<R>,
    /// The upfront payment's sensitivity to a one-basis-point move.
    pub upfront_bps: Option<R>,
    /// The upfront payment's value.
    pub upfront_npv: Option<R>,
    /// The accrual rebate's value.
    pub accrual_rebate_npv: Option<R>,
}

impl<R> CdsResults<R> {
    /// Forgets every result.
    pub fn reset(&mut self)
        ensures
            *final(self) == CdsResults::<R>::spec_none(),
    {
        self.fair_spread = None;
        self.fair_upfront = None;
        self.coupon_leg_bps = None;
        self.coupon_leg_npv = None;
        self.default_leg_npv = None;
        self.upfront_bps = None;
        self.upfront_npv = None;
        self.accrual_rebate_npv = None;
    }

    /// No result delivered.
    pub open spec fn spec_none() -> CdsResults<R> {
        CdsResults {
            fair_spread: None,
            fair_upfront: None,
            coupon_leg_bps: None,
            coupon_leg_npv: None,
            default_leg_npv: None,
            upfront_bps: None,
            upfront_npv: None,
            accrual_rebate_npv: None,
        }
    }

    /// No result delivered.
    pub fn none() -> (r: CdsResults<R>)
        ensures
            r.fair_spread is None,
            r.fair_upfront is None,
            r.coupon_leg_bps is None,
            r.coupon_leg_npv is None,
            r.default_leg_npv is None,
            r.upfront_bps is None,
            r.upfront_npv is None,
            r.accrual_rebate_npv is None,
    {
        CdsResults {
            fair_spread: None,
            fair_upfront: None,
            coupon_leg_bps: None,
            coupon_leg_npv: None,
            default_leg_npv: None,
            upfront_bps: None,
            upfront_npv: None,
            accrual_rebate_npv: None,
        }
    }
}

/// What a pricing engine is given for a credit-default swap: the
/// contract's side, notional, spreads, premium leg, framing flows, claim
/// and dates, each absent until set.
pub struct CdsArguments<R, C> {
    /// Which side of the protection the contract holds.
    pub side: Option<ProtectionSide>,
    /// The notional the protection covers.
    pub notional: Option<R>,
    /// The upfront, when the contract quotes one.
    pub upfront: Option<R>,
    /// The running spread.
    pub spread: Option<R>,
    /// The premium leg's coupons.
    pub leg: Vec<FixedRateCoupon<R>>,
    /// The upfront payment.
    pub upfront_payment: Option<CashFlowDates>,
    /// The accrual rebate, when the contract carries one.
    pub accrual_rebate: Option<CashFlowDates>,
    /// Whether the accrued coupon is due on a default.
    pub settles_accrual: bool,
    /// Whether a default pays at default time.
    pub pays_at_default_time: bool,
    /// What a default pays out, once set: the contract's own claim, or
    /// none for the face-value claim.
    pub claim: Option<Option<C>>,
    /// The first date a default triggers the contract.
    pub protection_start: Option<Date>,
    /// The date the contract matures.
    pub maturity: Option<Date>,
}

/// The first thing missing from `args`, in the order they are checked: a
/// zero notional (`null_notional`) counts as missing right after an absent
/// one.
pub open spec fn cds_arguments_error<R, C>(args: CdsArguments<R, C>, null_notional: bool) -> Option<
    QlError,
> {
    if args.side is None {
        Some(QlError::SideNotSet)
    } else if args.notional is None {
        Some(QlError::NotionalNotSet)
    } else if null_notional {
        Some(QlError::NullNotional)
    } else if args.spread is None {
        Some(QlError::SpreadNotSet)
    } else if args.leg@.len() == 0 {
        Some(QlError::CouponsNotSet)
    } else if args.upfront_payment is None {
        Some(QlError::UpfrontPaymentNotSet)
    } else if args.claim is None {
        Some(QlError::ClaimNotSet)
    } else if args.protection_start is None {
        Some(QlError::ProtectionStartNotSet)
    } else if args.maturity is None {
        Some(QlError::MaturityNotSet)
    } else {
        None
    }
}

impl<R, C> CdsArguments<R, C> {
    /// Arguments with nothing set.
    pub fn new() -> (r: CdsArguments<R, C>)
        ensures
            r.side is None,
            r.notional is None,
            r.upfront is None,
            r.spread is None,
            r.leg@.len() == 0,
            r.upfront_payment is None,
            r.accrual_rebate is None,
            !r.settles_accrual,
            !r.pays_at_default_time,
            r.claim is None,
            r.protection_start is None,
            r.maturity is None,
    {
        CdsArguments {
            side: None,
            notional: None,
            upfront: None,
            spread: None,
            leg: Vec::new(),
            upfront_payment: None,
            accrual_rebate: None,
            settles_accrual: false,
            pays_at_default_time: false,
            claim: None,
            protection_start: None,
            maturity: None,
        }
    }

    /// Refuses arguments that lack what an engine needs, or carry a zero
    /// notional, naming the first thing missing.
    pub fn validate(&self) -> (r: Result<(), QlError>) where R: Copy + From<u32> + PartialEq
        ensures
            exists|null: bool|
                #![trigger cds_arguments_error(*self, null)]
                {
                    &&& self.side is Some ==> (self.notional matches Some(n) ==> (null ==> may_be_zero(
                        n,
                    )) && (!null ==> may_be_nonzero(n)))
                    &&& r is Ok <==> cds_arguments_error(*self, null) is None
                    &&& r is Err ==> r == Err::<(), QlError>(cds_arguments_error(*self, null).unwrap())
                },
    {
        if self.side.is_none() {
            assert(cds_arguments_error(*self, false) is Some);
            return Err(QlError::SideNotSet);
        }
        let notional = match self.notional {
            Some(n) => n,
            None => {
                assert(cds_arguments_error(*self, false) is Some);
                return Err(QlError::NotionalNotSet);
            },
        };
        let null = is_zero_amount(&notional);
        assert(cds_arguments_error(*self, null) is Some || !null);
        if null {
            return Err(QlError::NullNotional);
        }
        if self.spread.is_none() {
            Err(QlError::SpreadNotSet)
        } else if self.leg.len() == 0 {
            Err(QlError::CouponsNotSet)
        } else if self.upfront_payment.is_none() {
            Err(QlError::UpfrontPaymentNotSet)
        } else if self.claim.is_none() {
            Err(QlError::ClaimNotSet)
        } else if self.protection_start.is_none() {
            Err(QlError::ProtectionStartNotSet)
        } else if self.maturity.is_none() {
            Err(QlError::MaturityNotSet)
        } else {
            Ok(())
        }
    }
}

impl<R, C> CreditDefaultSwap<R, C> {
    /// Which side of the protection the contract holds.
    pub closed spec fn side_spec(&self) -> ProtectionSide {
        self.side
    }

    /// The notional the protection covers.
    pub closed spec fn notional_spec(&self) -> R {
        self.notional
    }

    /// The running spread the premium leg pays.
    pub closed spec fn running_spread_spec(&self) -> R {
        self.running_spread
    }

    /// Whether the accrued coupon is due on a default.
    pub closed spec fn settles_accrual_spec(&self) -> bool {
        self.settles_accrual
    }

    /// Whether a default pays at default time.
    pub closed spec fn pays_at_default_time_spec(&self) -> bool {
        self.pays_at_default_time
    }

    /// The claim given in the terms; none for the face-value claim.
    pub closed spec fn claim_spec(&self) -> Option<C> {
        self.claim
    }

    /// The first date a default triggers the contract.
    pub closed spec fn protection_start_spec(&self) -> Date {
        self.protection_start
    }

    /// The trade date.
    pub closed spec fn trade_date_spec(&self) -> Date {
        self.trade_date
    }

    /// The business days from the trade date to cash settlement.
    pub closed spec fn cash_settlement_days_spec(&self) -> u32 {
        self.cash_settlement_days
    }

    /// The premium leg's coupons.
    pub closed spec fn coupons_spec(&self) -> Seq<FixedRateCoupon<R>> {
        self.leg@
    }

    /// The cash settlement date, on which the upfront payment falls.
    pub closed spec fn upfront_date_spec(&self) -> Date {
        self.upfront_date
    }

    /// The date of the accrual rebate, when the contract rebates.
    pub closed spec fn accrual_rebate_date_spec(&self) -> Option<Date> {
        self.accrual_rebate_date
    }

    /// The date the contract matures.
    pub closed spec fn maturity_spec(&self) -> Date {
        self.maturity
    }

    /// The results the pricing engine last delivered.
    pub closed spec fn results_spec(&self) -> CdsResults<R> {
        self.results
    }
}

impl<R: Copy, C> CreditDefaultSwap<R, C> {
    /// A contract on the standard terms, settling its accrual and paying at
    /// default time as `settles_accrual` and `pays_at_default_time` say.
    pub fn new(
        side: ProtectionSide,
        notional: R,
        spread: R,
        schedule: Schedule,
        payment_convention: BusinessDayConvention,
        day_counter: DayCounter,
        settles_accrual: bool,
        pays_at_default_time: bool,
    ) -> (r: Result<CreditDefaultSwap<R, C>, QlError>)
        requires
            cds_dates_defined(
                schedule@,
                payment_convention,
                CdsTerms::<C> { settles_accrual, pays_at_default_time, ..CdsTerms::<C>::spec_standard() },
            ),
        ensures
            ({
                let terms = (CdsTerms::<C> {
                    settles_accrual,
                    pays_at_default_time,
                    ..CdsTerms::<C>::spec_standard()
                });
                &&& r is Ok <==> cds_error(schedule@, payment_convention, terms) is None
                &&& r is Err ==> r == Err::<CreditDefaultSwap<R, C>, QlError>(
                    cds_error(schedule@, payment_convention, terms).unwrap(),
                )
                &&& r matches Ok(cds) ==> cds.is_contract(
                    side,
                    notional,
                    spread,
                    schedule@,
                    payment_convention,
                    day_counter,
                    terms,
                )
            }),
    {
        let mut terms: CdsTerms<C> = CdsTerms::standard();
        terms.settles_accrual = settles_accrual;
        terms.pays_at_default_time = pays_at_default_time;
        CreditDefaultSwap::with_terms(
            side,
            notional,
            spread,
            schedule,
            payment_convention,
            day_counter,
            terms,
        )
    }
}

impl<C> CdsTerms<C> {
    /// The usual terms, as [`standard`](Self::standard) builds them.
    pub open spec fn spec_standard() -> CdsTerms<C> {
        CdsTerms {
            settles_accrual: true,
            pays_at_default_time: true,
            protection_start: None,
            claim: None,
            last_period_day_counter: None,
            rebates_accrual: true,
            trade_date: None,
            cash_settlement_days: 3,
        }
    }
}

impl<R, C> CreditDefaultSwap<R, C> {
    /// Whether the contract is the one built from the given side, notional,
    /// spread, schedule, conventions and terms: its protection start, trade
    /// date, premium leg, cash settlement and rebate dates, and maturity.
    pub open spec fn is_contract(
        &self,
        side: ProtectionSide,
        notional: R,
        spread: R,
        s: ScheduleModel,
        payment_convention: BusinessDayConvention,
        day_counter: DayCounter,
        terms: CdsTerms<C>,
    ) -> bool {
        let start = protection_start_spec(s, terms.protection_start);
        let trade = trade_date_spec(s, start, terms.trade_date);
        let upfront = upfront_date_spec(s, trade, terms.cash_settlement_days, payment_convention).unwrap();
        let n = s.dates.len() as int;
        &&& self.side_spec() == side
        &&& self.notional_spec() == notional
        &&& self.running_spread_spec() == spread
        &&& self.settles_accrual_spec() == terms.settles_accrual
        &&& self.pays_at_default_time_spec() == terms.pays_at_default_time
        &&& self.claim_spec() == terms.claim
        &&& self.protection_start_spec() == start
        &&& self.trade_date_spec()@ == trade
        &&& self.cash_settlement_days_spec() == terms.cash_settlement_days
        &&& self.upfront_date_spec()@ == upfront
        &&& self.accrual_rebate_date_spec() == if terms.rebates_accrual {
            Some(self.upfront_date_spec())
        } else {
            None
        }
        &&& self.maturity_spec() == s.dates[n - 1]
        &&& self.results_spec() == CdsResults::<R>::spec_none()
        &&& self.coupons_spec().len() == n - 1
        &&& forall|i: int|
            0 <= i < n - 1 ==> {
                let c = #[trigger] self.coupons_spec()[i];
                &&& c.coupon.has_serials(
                    fixed_coupon_serials(s, s.calendar, 0, payment_convention, None, i).unwrap(),
                )
                &&& c.coupon.nominal == notional
                &&& c.rate.rate_spec() == spread
                &&& c.rate.compounding_spec() == Compounding::Simple
                &&& c.rate.frequency_spec() == Frequency::NoFrequency
                &&& c.rate.day_counter_spec() == if i == n - 2 && n > 2
                    && terms.last_period_day_counter is Some {
                    terms.last_period_day_counter.unwrap()
                } else {
                    day_counter
                }
            }
    }
}

impl<R: Copy, C> CreditDefaultSwap<R, C> {
    /// A contract on the given `terms`.
    ///
    /// Refused on an empty schedule; on a protection start after the first
    /// accrual date, unless the schedule follows a post-big-bang rule; on a
    /// schedule spanning no premium period; on a cash settlement date before
    /// the protection start; and, while the accrual is rebated, on a trade
    /// date on or after the first accrual date, whose rebate of the accrued
    /// coupon the contract does not compute.
    pub fn with_terms(
        side: ProtectionSide,
        notional: R,
        spread: R,
        schedule: Schedule,
        payment_convention: BusinessDayConvention,
        day_counter: DayCounter,
        terms: CdsTerms<C>,
    ) -> (r: Result<CreditDefaultSwap<R, C>, QlError>)
        requires
            cds_dates_defined(schedule@, payment_convention, terms),
        ensures
            r is Ok <==> cds_error(schedule@, payment_convention, terms) is None,
            r is Err ==> r == Err::<CreditDefaultSwap<R, C>, QlError>(
                cds_error(schedule@, payment_convention, terms).unwrap(),
            ),
            r matches Ok(cds) ==> cds.is_contract(
                side,
                notional,
                spread,
                schedule@,
                payment_convention,
                day_counter,
                terms,
            ),
    {
        let ghost s = schedule@;
        if schedule.is_empty() {
            return Err(QlError::EmptySchedule);
        }
        let first_accrual = schedule.date(0);
        let protection_start = match terms.protection_start {
            Some(d) => d,
            None => first_accrual,
        };
        let post_big_bang = schedule.has_rule() && match schedule.rule() {
            DateGeneration::CDS | DateGeneration::CDS2015 => true,
            _ => false,
        };
        if !post_big_bang && first_accrual.is_before(&protection_start) {
            return Err(QlError::ProtectionAfterAccrual);
        }
        let size = schedule.len();
        let maturity = schedule.date(size - 1);

        let leg_builder: FixedRateLeg<R> = FixedRateLeg::new(schedule.copied());
        let leg_builder = leg_builder.with_notional(notional);
        let leg_builder = match leg_builder.with_coupon_rate(
            spread,
            day_counter,
            Compounding::Simple,
            Frequency::Annual,
        ) {
            Ok(b) => b,
            Err(e) => {
                return Err(e);
            },
        };
        let leg_builder = leg_builder.with_payment_adjustment(payment_convention);
        let leg_builder = match terms.last_period_day_counter {
            Some(dc) => leg_builder.with_last_period_day_counter(dc),
            None => leg_builder,
        };
        let ghost lm = leg_builder@;
        assert(lm.schedule == s);
        assert(lm.payment_calendar == s.calendar);
        assert(lm.payment_lag == 0);
        assert(lm.ex_coupon is None);
        assert(lm.notionals == seq![notional]);
        assert(lm.coupon_rates.len() == 1);
        assert(lm.first_period_day_counter is None);
        assert(lm.last_period_day_counter == terms.last_period_day_counter);
        let leg = match leg_builder.coupons() {
            Ok(cs) => cs,
            Err(e) => {
                return Err(e);
            },
        };
        assert forall|i: int| 0 <= i < size - 1 implies {
            let c = #[trigger] leg@[i];
            &&& c.coupon.has_serials(
                fixed_coupon_serials(s, s.calendar, 0, payment_convention, None, i).unwrap(),
            )
            &&& c.coupon.nominal == notional
            &&& c.rate.rate_spec() == spread
            &&& c.rate.compounding_spec() == Compounding::Simple
            &&& c.rate.frequency_spec() == Frequency::NoFrequency
            &&& c.rate.day_counter_spec() == if i == size - 2 && size > 2
                && terms.last_period_day_counter is Some {
                terms.last_period_day_counter.unwrap()
            } else {
                day_counter
            }
        } by {
            assert(lm.is_coupon(leg@[i], i));
        }

        let trade_date = match terms.trade_date {
            Some(d) => d,
            None => if post_big_bang {
                protection_start
            } else {
                protection_start.sub_days(1)
            },
        };
        let upfront_date = schedule.calendar().advance(
            trade_date,
            terms.cash_settlement_days as i32,
            TimeUnit::Days,
            payment_convention,
            false,
        );
        if upfront_date.is_before(&protection_start) {
            return Err(QlError::SettlementBeforeProtection);
        }
        let accrual_rebate_date = if terms.rebates_accrual {
            if !trade_date.is_before(&first_accrual) {
                return Err(QlError::AccruedRebate);
            }
            Some(upfront_date)
        } else {
            None
        };
        let cds = CreditDefaultSwap {
            side,
            notional,
            running_spread: spread,
            settles_accrual: terms.settles_accrual,
            pays_at_default_time: terms.pays_at_default_time,
            claim: terms.claim,
            protection_start,
            trade_date,
            cash_settlement_days: terms.cash_settlement_days,
            leg,
            upfront_date,
            accrual_rebate_date,
            maturity,
            results: CdsResults::none(),
        };
        Ok(cds)
    }
}

impl<R: Copy, C> CreditDefaultSwap<R, C> {
    /// Which side of the protection the contract holds.
    pub fn side(&self) -> (r: ProtectionSide)
        ensures
            r == self.side_spec(),
    {
        self.side
    }

    /// The notional the protection covers.
    pub fn notional(&self) -> (r: R)
        ensures
            r == self.notional_spec(),
    {
        self.notional
    }

    /// The running spread the premium leg pays.
    pub fn running_spread(&self) -> (r: R)
        ensures
            r == self.running_spread_spec(),
    {
        self.running_spread
    }

    /// The upfront, which a running-spread contract does not quote.
    pub fn upfront(&self) -> (r: Option<R>)
        ensures
            r is None,
    {
        None
    }

    /// Whether the accrued coupon is due on a default.
    pub fn settles_accrual(&self) -> (r: bool)
        ensures
            r == self.settles_accrual_spec(),
    {
        self.settles_accrual
    }

    /// Whether a default pays at default time rather than at the end of the
    /// accrual period.
    pub fn pays_at_default_time(&self) -> (r: bool)
        ensures
            r == self.pays_at_default_time_spec(),
    {
        self.pays_at_default_time
    }

    /// The claim the terms gave; none for the face-value claim.
    pub fn claim(&self) -> (r: Option<&C>)
        ensures
            r == match self.claim_spec() {
                Some(c) => Some(&c),
                None => None::<&C>,
            },
    {
        match &self.claim {
            Some(c) => Some(c),
            None => None,
        }
    }

    /// The premium leg's coupons.
    pub fn coupons(&self) -> (r: &Vec<FixedRateCoupon<R>>)
        ensures
            r@ == self.coupons_spec(),
    {
        &self.leg
    }

    /// The first date a default triggers the contract.
    pub fn protection_start_date(&self) -> (r: Date)
        ensures
            r == self.protection_start_spec(),
    {
        self.protection_start
    }

    /// The date the contract matures: the schedule's last date.
    pub fn maturity(&self) -> (r: Date)
        ensures
            r == self.maturity_spec(),
    {
        self.maturity
    }

    /// The upfront payment: a flow of zero amount on the cash settlement
    /// date.
    pub fn upfront_payment(&self) -> (r: CashFlowDates)
        ensures
            r.date == self.upfront_date_spec(),
            r.accrual is None,
    {
        CashFlowDates::simple(self.upfront_date)
    }

    /// The accrual rebate, a flow of zero amount on the cash settlement date,
    /// when the contract rebates the accrued coupon.
    pub fn accrual_rebate(&self) -> (r: Option<CashFlowDates>)
        ensures
            match self.accrual_rebate_date_spec() {
                None => r is None,
                Some(d) => r matches Some(f) && f.date == d && f.accrual is None,
            },
    {
        match self.accrual_rebate_date {
            None => None,
            Some(d) => Some(CashFlowDates::simple(d)),
        }
    }

    /// Whether the contract rebates the accrued coupon.
    pub fn rebates_accrual(&self) -> (r: bool)
        ensures
            r == (self.accrual_rebate_date_spec() is Some),
    {
        self.accrual_rebate_date.is_some()
    }

    /// The trade date.
    pub fn trade_date(&self) -> (r: Date)
        ensures
            r == self.trade_date_spec(),
    {
        self.trade_date
    }

    /// The business days from the trade date to cash settlement.
    pub fn cash_settlement_days(&self) -> (r: u32)
        ensures
            r == self.cash_settlement_days_spec(),
    {
        self.cash_settlement_days
    }

    /// The running spread pricing the contract at zero, as the pricing engine last delivered it.
    pub fn fair_spread(&self) -> (r: Result<R, QlError>)
        ensures
            r == match self.results_spec().fair_spread {
                Some(v) => Ok(v),
                None => Err(QlError::FairSpreadNotAvailable),
            },
    {
        match self.results.fair_spread {
            Some(v) => Ok(v),
            None => Err(QlError::FairSpreadNotAvailable),
        }
    }

    /// The upfront pricing the contract at zero, as the pricing engine last delivered it.
    pub fn fair_upfront(&self) -> (r: Result<R, QlError>)
        ensures
            r == match self.results_spec().fair_upfront {
                Some(v) => Ok(v),
                None => Err(QlError::FairUpfrontNotAvailable),
            },
    {
        match self.results.fair_upfront {
            Some(v) => Ok(v),
            None => Err(QlError::FairUpfrontNotAvailable),
        }
    }

    /// The premium leg's basis-point sensitivity, as the pricing engine last delivered it.
    pub fn coupon_leg_bps(&self) -> (r: Result<R, QlError>)
        ensures
            r == match self.results_spec().coupon_leg_bps {
                Some(v) => Ok(v),
                None => Err(QlError::CouponLegBpsNotAvailable),
            },
    {
        match self.results.coupon_leg_bps {
            Some(v) => Ok(v),
            None => Err(QlError::CouponLegBpsNotAvailable),
        }
    }

    /// The premium leg's value, as the pricing engine last delivered it.
    pub fn coupon_leg_npv(&self) -> (r: Result<R, QlError>)
        ensures
            r == match self.results_spec().coupon_leg_npv {
                Some(v) => Ok(v),
                None => Err(QlError::CouponLegNpvNotAvailable),
            },
    {
        match self.results.coupon_leg_npv {
            Some(v) => Ok(v),
            None => Err(QlError::CouponLegNpvNotAvailable),
        }
    }

    /// The protection leg's value, as the pricing engine last delivered it.
    pub fn default_leg_npv(&self) -> (r: Result<R, QlError>)
        ensures
            r == match self.results_spec().default_leg_npv {
                Some(v) => Ok(v),
                None => Err(QlError::DefaultLegNpvNotAvailable),
            },
    {
        match self.results.default_leg_npv {
            Some(v) => Ok(v),
            None => Err(QlError::DefaultLegNpvNotAvailable),
        }
    }

    /// The upfront payment's value, as the pricing engine last delivered it.
    pub fn upfront_npv(&self) -> (r: Result<R, QlError>)
        ensures
            r == match self.results_spec().upfront_npv {
                Some(v) => Ok(v),
                None => Err(QlError::UpfrontNpvNotAvailable),
            },
    {
        match self.results.upfront_npv {
            Some(v) => Ok(v),
            None => Err(QlError::UpfrontNpvNotAvailable),
        }
    }

    /// The upfront payment's basis-point sensitivity, as the pricing engine last delivered it.
    pub fn upfront_bps(&self) -> (r: Result<R, QlError>)
        ensures
            r == match self.results_spec().upfront_bps {
                Some(v) => Ok(v),
                None => Err(QlError::UpfrontBpsNotAvailable),
            },
    {
        match self.results.upfront_bps {
            Some(v) => Ok(v),
            None => Err(QlError::UpfrontBpsNotAvailable),
        }
    }

    /// The accrual rebate's value, as the pricing engine last delivered it.
    pub fn accrual_rebate_npv(&self) -> (r: Result<R, QlError>)
        ensures
            r == match self.results_spec().accrual_rebate_npv {
                Some(v) => Ok(v),
                None => Err(QlError::AccrualRebateNpvNotAvailable),
            },
    {
        match self.results.accrual_rebate_npv {
            Some(v) => Ok(v),
            None => Err(QlError::AccrualRebateNpvNotAvailable),
        }
    }

    /// Records what a pricing engine delivered.
    pub fn fetch_results(&mut self, results: &CdsResults<R>)
        ensures
            final(self).results_spec() == *results,
            final(self).coupons_spec() == old(self).coupons_spec(),
            final(self).protection_start_spec() == old(self).protection_start_spec(),
            final(self).maturity_spec() == old(self).maturity_spec(),
    {
        self.results = *results;
    }
}

impl<R: Copy, C> CreditDefaultSwap<R, C> {
    /// Whether every premium coupon has paid, measured against the
    /// evaluation date; refused without one unless there is no coupon.
    pub fn is_expired(&self, settings: &Settings) -> (r: Result<bool, QlError>)
        ensures
            self.coupons_spec().len() > 0 && settings.evaluation_date is None ==> r == Err::<
                bool,
                QlError,
            >(QlError::NoReferenceDate),
            self.coupons_spec().len() == 0 ==> r == Ok::<bool, QlError>(true),
            settings.evaluation_date matches Some(today) ==> r == Ok::<bool, QlError>(
                forall|i: int|
                    0 <= i < self.coupons_spec().len() ==> occurred(
                        #[trigger] self.coupons_spec()[i].coupon.payment_date,
                        today,
                        includes_reference_date(*settings, None, None),
                    ),
            ),
    {
        let n = self.leg.len();
        let mut i = n;
        while i > 0
            invariant
                i <= n == self.leg@.len(),
                settings.evaluation_date is None ==> i == n,
                settings.evaluation_date matches Some(today) ==> forall|k: int|
                    i <= k < n ==> occurred(
                        #[trigger] self.coupons_spec()[k].coupon.payment_date,
                        today,
                        includes_reference_date(*settings, None, None),
                    ),
            decreases i,
        {
            match has_occurred(self.leg[i - 1].coupon.payment_date, settings, None, None) {
                Ok(true) => {},
                Ok(false) => {
                    return Ok(false);
                },
                Err(e) => {
                    return Err(e);
                },
            }
            i = i - 1;
        }
        Ok(true)
    }

    /// Records the results of a contract that has expired: every result
    /// but the accrual rebate's value is zero, which stays as it was.
    pub fn setup_expired(&mut self) where R: From<u32>
        ensures
            call_ensures(<R as From<u32>>::from, (0u32,), final(self).results_spec().fair_spread.unwrap()),
            final(self).results_spec() == (CdsResults {
                fair_spread: final(self).results_spec().fair_spread,
                fair_upfront: final(self).results_spec().fair_spread,
                coupon_leg_bps: final(self).results_spec().fair_spread,
                coupon_leg_npv: final(self).results_spec().fair_spread,
                default_leg_npv: final(self).results_spec().fair_spread,
                upfront_bps: final(self).results_spec().fair_spread,
                upfront_npv: final(self).results_spec().fair_spread,
                accrual_rebate_npv: old(self).results_spec().accrual_rebate_npv,
            }),
            final(self).results_spec().fair_spread is Some,
            final(self).coupons_spec() == old(self).coupons_spec(),
            final(self).protection_start_spec() == old(self).protection_start_spec(),
            final(self).maturity_spec() == old(self).maturity_spec(),
    {
        let zero = R::from(0u32);
        self.results.fair_spread = Some(zero);
        self.results.fair_upfront = Some(zero);
        self.results.coupon_leg_bps = Some(zero);
        self.results.coupon_leg_npv = Some(zero);
        self.results.default_leg_npv = Some(zero);
        self.results.upfront_bps = Some(zero);
        self.results.upfront_npv = Some(zero);
    }
}

impl<R: Copy, C: Copy> CreditDefaultSwap<R, C> {
    /// Fills `arguments` for a pricing engine: side, notional, running
    /// spread, premium coupons, upfront payment and accrual rebate, the
    /// accrual and payment terms, the claim, the protection start and the
    /// maturity. The contract quotes no upfront, so none is given.
    pub fn setup_arguments(&self, arguments: &mut CdsArguments<R, C>)
        ensures
            final(arguments).side == Some(self.side_spec()),
            final(arguments).notional == Some(self.notional_spec()),
            final(arguments).upfront is None,
            final(arguments).spread == Some(self.running_spread_spec()),
            final(arguments).leg@ == self.coupons_spec(),
            final(arguments).upfront_payment matches Some(f) && f.date == self.upfront_date_spec()
                && f.accrual is None,
            match self.accrual_rebate_date_spec() {
                None => final(arguments).accrual_rebate is None,
                Some(d) => final(arguments).accrual_rebate matches Some(f) && f.date == d
                    && f.accrual is None,
            },
            final(arguments).settles_accrual == self.settles_accrual_spec(),
            final(arguments).pays_at_default_time == self.pays_at_default_time_spec(),
            final(arguments).claim == Some(self.claim_spec()),
            final(arguments).protection_start == Some(self.protection_start_spec()),
            final(arguments).maturity == Some(self.maturity_spec()),
    {
        arguments.side = Some(self.side);
        arguments.notional = Some(self.notional);
        arguments.leg = self.coupons_copy();
        arguments.upfront_payment = Some(self.upfront_payment());
        arguments.accrual_rebate = self.accrual_rebate();
        arguments.settles_accrual = self.settles_accrual;
        arguments.pays_at_default_time = self.pays_at_default_time;
        arguments.claim = Some(self.claim);
        arguments.upfront = None;
        arguments.spread = Some(self.running_spread);
        arguments.protection_start = Some(self.protection_start);
        arguments.maturity = Some(self.maturity);
    }
}

impl<R: Copy, C> CreditDefaultSwap<R, C> {
    /// A copy of the premium coupons.
    fn coupons_copy(&self) -> (r: Vec<FixedRateCoupon<R>>)
        ensures
            r@ == self.coupons_spec(),
    {
        let mut out: Vec<FixedRateCoupon<R>> = Vec::new();
        let mut i: usize = 0;
        while i < self.leg.len()
            invariant
                i <= self.leg@.len(),
                out@ == self.leg@.subrange(0, i as int),
            decreases self.leg@.len() - i,
        {
            out.push(self.leg[i]);
            i = i + 1;
        }
        out
    }
}

} // verus!
