//! The terms an overnight indexed swap is made from: a tenor, an overnight
//! index and a few overrides, from which its start and end dates follow.
use vstd::prelude::*;

use crate::cashflows::overnightindexedcoupon::RateAveraging;
use crate::errors::QlError;
use crate::indexes::iborindex::OvernightIndex;
use crate::cashflows::fixedrateleg::fixed_dates_defined;
use crate::cashflows::iborleg::floating_coupon_serials;
use crate::instruments::overnightindexedswap::{OvernightIndexedSwap, overnight_swap_leg_error};
use crate::instruments::swap::SwapType;
use crate::instruments::fixedvsfloatingswap::resolved_calendar;
use crate::settings::Settings;
use crate::time::calendar::{
    BusinessDayConvention, CalendarModel, adjust_spec, advance_spec, business_end_of_month_spec,
    business_month_end_spec, lemma_following_is_first_business_day, lemma_forward_counts_business_days,
    lemma_preceding_is_last_business_day, month_end_serial,
};
use crate::time::date::{
    Date, advance_ok, lemma_advanced_after, lemma_advanced_before, serial_advanced, serial_in_range,
};
use crate::time::daycounter::DayCounter;
use crate::time::schedule::Schedule;
use crate::time::period::{Period, TimeUnit};

verus! {

/// The business days from the trade date to the start of an overnight
/// indexed swap on an index of the given family: none for SONIA, one for
/// CORRA, two for every other family.
pub open spec fn default_settlement_days_spec(family_name: Seq<char>) -> u32 {
    if family_name == "SONIA"@ {
        0
    } else if family_name == "CORRA"@ {
        1
    } else {
        2
    }
}

/// The business days from the trade date to the start of an overnight
/// indexed swap on an index of the given family: none for SONIA, one for
/// CORRA, two for every other family.
pub fn default_settlement_days(family_name: &str) -> (r: u32)
    ensures
        r == default_settlement_days_spec(family_name@),
{
    let name = family_name.to_owned();
    if name == String::from_str("SONIA") {
        0
    } else if name == String::from_str("CORRA") {
        1
    } else {
        2
    }
}

/// Whether a schedule of this tenor may keep its dates at month ends: a
/// tenor of at least one month, counted in months or years.
pub open spec fn allows_end_of_month_spec(tenor: Period) -> bool {
    (tenor.units_spec() is Months || tenor.units_spec() is Years) && tenor.length_spec() >= 1
}

/// Whether a schedule of this tenor may keep its dates at month ends.
pub fn allows_end_of_month(tenor: Period) -> (r: bool)
    ensures
        r == allows_end_of_month_spec(tenor),
{
    match tenor.units() {
        TimeUnit::Months | TimeUnit::Years => tenor.length() >= 1,
        _ => false,
    }
}

/// The dates an overnight indexed swap spans, and whether its schedules
/// keep their dates at month ends.
#[derive(Clone, Copy, Debug, PartialEq, Eq, Structural)]
pub struct OisDates {
    /// The start date.
    pub start: Date,
    /// The end date.
    pub end: Date,
    /// Whether the schedules keep their dates at month ends.
    pub end_of_month: bool,
}

/// The start of a swap derived from the evaluation date `today`: the
/// settlement days after today rolled onto a business day, moved by the
/// forward start and rolled back for a backward one and forward
/// otherwise. `None` outside the supported range.
pub open spec fn derived_start_spec(
    cal: CalendarModel,
    today: int,
    settlement_days: u32,
    forward_start: Period,
) -> Option<int> {
    match adjust_spec(cal, today, BusinessDayConvention::Following) {
        None => None,
        Some(reference) => match advance_spec(
            cal,
            reference,
            settlement_days as int,
            TimeUnit::Days,
            BusinessDayConvention::Following,
            false,
        ) {
            None => None,
            Some(spot) => if advance_ok(spot, forward_start.length_spec(), forward_start.units_spec()) {
                let moved = serial_advanced(spot, forward_start.length_spec(), forward_start.units_spec());
                adjust_spec(
                    cal,
                    moved,
                    if forward_start.length_spec() < 0 {
                        BusinessDayConvention::Preceding
                    } else {
                        BusinessDayConvention::Following
                    },
                )
            } else {
                None
            },
        },
    }
}

/// The end of a swap of `tenor` starting on `start`: the tenor on, moved to
/// the month's last business day when the start is one and the tenor
/// allows it. `None` outside the supported range.
pub open spec fn derived_end_spec(cal: CalendarModel, start: int, tenor: Period) -> Option<int> {
    if !advance_ok(start, tenor.length_spec(), tenor.units_spec()) {
        None
    } else {
        let end = serial_advanced(start, tenor.length_spec(), tenor.units_spec());
        match business_month_end_spec(cal, start) {
            None => None,
            Some(eom) => if eom && allows_end_of_month_spec(tenor) {
                business_end_of_month_spec(cal, end)
            } else {
                Some(end)
            },
        }
    }
}

/// A swap of a positive tenor ends after it starts: the tenor on from the
/// start, unless the start is its month's last business day and the tenor
/// is in months or years; the end is then the last business day on or
/// before the end of the month the tenor reaches.
pub proof fn law_end_lies_a_tenor_after_start(cal: CalendarModel, start: int, tenor: Period)
    requires
        serial_in_range(start),
        tenor.length_spec() > 0,
        derived_end_spec(cal, start, tenor) is Some,
    ensures
        ({
            let moved = serial_advanced(start, tenor.length_spec(), tenor.units_spec());
            let end = derived_end_spec(cal, start, tenor).unwrap();
            let keeps_month_end = business_month_end_spec(cal, start) == Some(true) && (tenor.units_spec() is Months
                || tenor.units_spec() is Years);
            &&& start < moved
            &&& !keeps_month_end ==> end == moved
            &&& keeps_month_end ==> {
                &&& end <= month_end_serial(moved)
                &&& cal.is_business(end)
                &&& forall|t: int| end < t <= month_end_serial(moved) ==> !cal.is_business(t)
            }
        }),
{
    let moved = serial_advanced(start, tenor.length_spec(), tenor.units_spec());
    lemma_advanced_after(start, tenor.length_spec(), tenor.units_spec());
    if business_month_end_spec(cal, start) == Some(true) && allows_end_of_month_spec(tenor) {
        lemma_preceding_is_last_business_day(cal, month_end_serial(moved));
    }
}

/// The terms of an overnight indexed swap: its tenor and index, an
/// optional fixed rate (to be filled with the fair rate when absent), a
/// forward start, and the overrides of its defaults.
///
/// Amounts and rates are carried as the caller represents them; a missing
/// nominal is the unit nominal and a missing spread no spread.
pub struct MakeOis<R> {
    swap_tenor: Period,
    overnight_index: OvernightIndex,
    fixed_rate: Option<R>,
    forward_start: Period,
    effective_date: Option<Date>,
    swap_type: SwapType,
    nominal: Option<R>,
    overnight_spread: Option<R>,
    payment_lag: i32,
    payment_adjustment: BusinessDayConvention,
    averaging_method: RateAveraging,
}

/// What the terms of an overnight indexed swap are.
pub struct MakeOisModel<R> {
    /// The swap's tenor.
    pub swap_tenor: Period,
    /// The overnight index.
    pub overnight_index: OvernightIndex,
    /// The fixed rate, when given.
    pub fixed_rate: Option<R>,
    /// How far after the spot date the swap starts.
    pub forward_start: Period,
    /// The start date, when given.
    pub effective_date: Option<Date>,
    /// The side of the swap.
    pub swap_type: SwapType,
    /// The nominal, when not the unit one.
    pub nominal: Option<R>,
    /// The spread over the overnight index, when there is one.
    pub overnight_spread: Option<R>,
    /// The business days between an overnight accrual end and its payment.
    pub payment_lag: int,
    /// The convention overnight payments are rolled with.
    pub payment_adjustment: BusinessDayConvention,
    /// How the overnight coupons average their fixings.
    pub averaging_method: RateAveraging,
}

impl<R> View for MakeOis<R> {
    type V = MakeOisModel<R>;

    closed spec fn view(&self) -> MakeOisModel<R> {
        MakeOisModel {
            swap_tenor: self.swap_tenor,
            overnight_index: self.overnight_index,
            fixed_rate: self.fixed_rate,
            forward_start: self.forward_start,
            effective_date: self.effective_date,
            swap_type: self.swap_type,
            nominal: self.nominal,
            overnight_spread: self.overnight_spread,
            payment_lag: self.payment_lag as int,
            payment_adjustment: self.payment_adjustment,
            averaging_method: self.averaging_method,
        }
    }
}

impl<R> MakeOisModel<R> {
    /// The start date: the one given, or derived from the evaluation date.
    pub open spec fn start_spec(self, today: Option<Date>) -> Option<int> {
        match self.effective_date {
            Some(d) => Some(d@),
            None => match today {
                None => None,
                Some(t) => derived_start_spec(
                    self.overnight_index.ibor_spec().fixing_calendar_spec(),
                    t@,
                    default_settlement_days_spec(self.overnight_index.ibor_spec().family_name_spec()),
                    self.forward_start,
                ),
            },
        }
    }

    /// With no effective date and a forward start of a positive length, the
    /// swap starts after the spot date (the index's settlement days after
    /// today rolled forward, on the index's fixing calendar): on the first
    /// business day on or after the spot date moved by the forward start.
    pub proof fn law_forward_start_lies_after_spot(self, today: Date)
        requires
            self.effective_date is None,
            self.start_spec(Some(today)) is Some,
            self.forward_start.length_spec() > 0,
        ensures
            ({
                let cal = self.overnight_index.ibor_spec().fixing_calendar_spec();
                let days = default_settlement_days_spec(self.overnight_index.ibor_spec().family_name_spec());
                let reference = adjust_spec(cal, today@, BusinessDayConvention::Following).unwrap();
                let spot = advance_spec(
                    cal,
                    reference,
                    days as int,
                    TimeUnit::Days,
                    BusinessDayConvention::Following,
                    false,
                ).unwrap();
                let moved = serial_advanced(spot, self.forward_start.length_spec(), self.forward_start.units_spec());
                let start = self.start_spec(Some(today)).unwrap();
                &&& spot < moved <= start
                &&& cal.is_business(start)
                &&& forall|t: int| moved <= t < start ==> !cal.is_business(t)
            }),
    {
        let cal = self.overnight_index.ibor_spec().fixing_calendar_spec();
        let days = default_settlement_days_spec(self.overnight_index.ibor_spec().family_name_spec());
        let reference = adjust_spec(cal, today@, BusinessDayConvention::Following).unwrap();
        let spot = advance_spec(cal, reference, days as int, TimeUnit::Days, BusinessDayConvention::Following, false).unwrap();
        let n = self.forward_start.length_spec();
        let units = self.forward_start.units_spec();
        if days == 0 {
            lemma_following_is_first_business_day(cal, reference);
        } else {
            lemma_forward_counts_business_days(cal, reference, days as nat);
        }
        assert(advance_ok(spot, n, units));
        lemma_advanced_after(spot, n, units);
        lemma_following_is_first_business_day(cal, serial_advanced(spot, n, units));
    }

    /// With no effective date and a backward forward start, the swap starts
    /// before the spot date: on the last business day on or before the spot
    /// date moved back by the forward start.
    pub proof fn law_backward_start_lies_before_spot(self, today: Date)
        requires
            self.effective_date is None,
            self.start_spec(Some(today)) is Some,
            self.forward_start.length_spec() < 0,
        ensures
            ({
                let cal = self.overnight_index.ibor_spec().fixing_calendar_spec();
                let days = default_settlement_days_spec(self.overnight_index.ibor_spec().family_name_spec());
                let reference = adjust_spec(cal, today@, BusinessDayConvention::Following).unwrap();
                let spot = advance_spec(
                    cal,
                    reference,
                    days as int,
                    TimeUnit::Days,
                    BusinessDayConvention::Following,
                    false,
                ).unwrap();
                let moved = serial_advanced(spot, self.forward_start.length_spec(), self.forward_start.units_spec());
                let start = self.start_spec(Some(today)).unwrap();
                &&& start <= moved < spot
                &&& cal.is_business(start)
                &&& forall|t: int| start < t <= moved ==> !cal.is_business(t)
            }),
    {
        let cal = self.overnight_index.ibor_spec().fixing_calendar_spec();
        let days = default_settlement_days_spec(self.overnight_index.ibor_spec().family_name_spec());
        let reference = adjust_spec(cal, today@, BusinessDayConvention::Following).unwrap();
        let spot = advance_spec(cal, reference, days as int, TimeUnit::Days, BusinessDayConvention::Following, false).unwrap();
        let n = self.forward_start.length_spec();
        let units = self.forward_start.units_spec();
        if days == 0 {
            lemma_following_is_first_business_day(cal, reference);
        } else {
            lemma_forward_counts_business_days(cal, reference, days as nat);
        }
        assert(advance_ok(spot, n, units));
        lemma_advanced_before(spot, n, units);
        lemma_preceding_is_last_business_day(cal, serial_advanced(spot, n, units));
    }

    /// Whether the dates are defined: a start date given, or an evaluation
    /// date to derive it from, then an end date, all in the supported
    /// range.
    pub open spec fn dates_defined(self, today: Option<Date>) -> bool {
        let cal = self.overnight_index.ibor_spec().fixing_calendar_spec();
        &&& self.effective_date matches Some(d) ==> d.wf()
        &&& today matches Some(t) ==> t.wf()
        &&& (self.effective_date is Some || today is Some) ==> {
            &&& self.start_spec(today) is Some
            &&& derived_end_spec(cal, self.start_spec(today).unwrap(), self.swap_tenor) is Some
        }
    }
}

impl<R: Copy> MakeOis<R> {
    /// The terms of a swap of `swap_tenor` on `overnight_index` starting
    /// `forward_start` after spot, paying `fixed_rate` when given: a payer
    /// swap on the unit nominal, without spread or payment lag, paying with
    /// the `Following` convention and compounding its fixings.
    pub fn new(
        swap_tenor: Period,
        overnight_index: OvernightIndex,
        fixed_rate: Option<R>,
        forward_start: Period,
    ) -> (r: MakeOis<R>)
        ensures
            r@ == (MakeOisModel {
                swap_tenor,
                overnight_index,
                fixed_rate,
                forward_start,
                effective_date: None,
                swap_type: SwapType::Payer,
                nominal: None,
                overnight_spread: None,
                payment_lag: 0,
                payment_adjustment: BusinessDayConvention::Following,
                averaging_method: RateAveraging::Compound,
            }),
    {
        MakeOis {
            swap_tenor,
            overnight_index,
            fixed_rate,
            forward_start,
            effective_date: None,
            swap_type: SwapType::Payer,
            nominal: None,
            overnight_spread: None,
            payment_lag: 0,
            payment_adjustment: BusinessDayConvention::Following,
            averaging_method: RateAveraging::Compound,
        }
    }

    /// The start date, in place of the one derived from the evaluation date.
    pub fn with_effective_date(self, effective_date: Date) -> (r: MakeOis<R>)
        ensures
            r@ == (MakeOisModel { effective_date: Some(effective_date), ..self@ }),
    {
        MakeOis { effective_date: Some(effective_date), ..self }
    }

    /// The spread over the overnight index.
    pub fn with_overnight_leg_spread(self, spread: R) -> (r: MakeOis<R>)
        ensures
            r@ == (MakeOisModel { overnight_spread: Some(spread), ..self@ }),
    {
        MakeOis { overnight_spread: Some(spread), ..self }
    }

    /// The nominal both legs share.
    pub fn with_nominal(self, nominal: R) -> (r: MakeOis<R>)
        ensures
            r@ == (MakeOisModel { nominal: Some(nominal), ..self@ }),
    {
        MakeOis { nominal: Some(nominal), ..self }
    }

    /// The business days between an overnight accrual end and its payment.
    pub fn with_payment_lag(self, payment_lag: i32) -> (r: MakeOis<R>)
        ensures
            r@ == (MakeOisModel { payment_lag: payment_lag as int, ..self@ }),
    {
        MakeOis { payment_lag, ..self }
    }

    /// How the overnight coupons average their fixings.
    pub fn with_averaging_method(self, averaging_method: RateAveraging) -> (r: MakeOis<R>)
        ensures
            r@ == (MakeOisModel { averaging_method, ..self@ }),
    {
        MakeOis { averaging_method, ..self }
    }

    /// The swap's start and end dates, and whether its schedules keep their
    /// dates at month ends.
    ///
    /// The start is the effective date when given; otherwise it is derived
    /// from the evaluation date, refused when none is set: the index's
    /// settlement days after today rolled forward, moved by the forward
    /// start, then rolled back for a backward start and forward otherwise,
    /// all on the index's fixing calendar. The schedules keep month ends
    /// when the start is its month's last business day; the end is then the
    /// tenor on, moved to its month's last business day when month ends are
    /// kept and the tenor allows it.
    pub fn dates(&self, settings: &Settings) -> (r: Result<OisDates, QlError>)
        requires
            self@.dates_defined(settings.evaluation_date),
        ensures
            ({
                let today = settings.evaluation_date;
                let cal = self@.overnight_index.ibor_spec().fixing_calendar_spec();
                &&& r is Ok <==> (self@.effective_date is Some || today is Some)
                &&& r is Err ==> r == Err::<OisDates, QlError>(QlError::NoSwapReferenceDate)
                &&& r matches Ok(d) ==> {
                    let start = self@.start_spec(today).unwrap();
                    &&& d.start@ == start
                    &&& d.end_of_month == business_month_end_spec(cal, start).unwrap()
                    &&& d.end@ == derived_end_spec(cal, start, self@.swap_tenor).unwrap()
                }
            }),
    {
        let calendar = self.overnight_index.ibor_index().fixing_calendar();
        let start = match self.effective_date {
            Some(d) => d,
            None => {
                let today = match settings.evaluation_date() {
                    Some(t) => t,
                    None => {
                        return Err(QlError::NoSwapReferenceDate);
                    },
                };
                let settlement_days = default_settlement_days(
                    self.overnight_index.ibor_index().family_name(),
                );
                let reference = calendar.adjust(today, BusinessDayConvention::Following);
                let spot = calendar.advance(
                    reference,
                    settlement_days as i32,
                    TimeUnit::Days,
                    BusinessDayConvention::Following,
                    false,
                );
                let moved = spot.add_period(self.forward_start);
                if self.forward_start.length() < 0 {
                    calendar.adjust(moved, BusinessDayConvention::Preceding)
                } else {
                    calendar.adjust(moved, BusinessDayConvention::Following)
                }
            },
        };
        let end_of_month = calendar.is_end_of_month(start);
        let mut end = start.add_period(self.swap_tenor);
        if end_of_month && allows_end_of_month(self.swap_tenor) {
            end = calendar.end_of_month(end);
        }
        Ok(OisDates { start, end, end_of_month })
    }

    /// The swap's tenor.
    pub fn swap_tenor(&self) -> (r: Period)
        ensures
            r == self@.swap_tenor,
    {
        self.swap_tenor
    }

    /// The overnight index.
    pub fn overnight_index(&self) -> (r: &OvernightIndex)
        ensures
            *r == self@.overnight_index,
    {
        &self.overnight_index
    }

    /// The fixed rate, when given.
    pub fn fixed_rate(&self) -> (r: Option<R>)
        ensures
            r == self@.fixed_rate,
    {
        self.fixed_rate
    }

    /// The side of the swap.
    pub fn swap_type(&self) -> (r: SwapType)
        ensures
            r == self@.swap_type,
    {
        self.swap_type
    }

    /// The nominal, when not the unit one.
    pub fn nominal(&self) -> (r: Option<R>)
        ensures
            r == self@.nominal,
    {
        self.nominal
    }

    /// The spread over the overnight index, when there is one.
    pub fn overnight_spread(&self) -> (r: Option<R>)
        ensures
            r == self@.overnight_spread,
    {
        self.overnight_spread
    }

    /// The business days between an overnight accrual end and its payment.
    pub fn payment_lag(&self) -> (r: i32)
        ensures
            r == self@.payment_lag,
    {
        self.payment_lag
    }

    /// The convention overnight payments are rolled with.
    pub fn payment_adjustment(&self) -> (r: BusinessDayConvention)
        ensures
            r == self@.payment_adjustment,
    {
        self.payment_adjustment
    }

    /// How the overnight coupons average their fixings.
    pub fn averaging_method(&self) -> (r: RateAveraging)
        ensures
            r == self@.averaging_method,
    {
        self.averaging_method
    }
}

impl<R: Copy + PartialEq + From<u32>> MakeOis<R> {
    /// The swap these terms make over the given schedules at `fixed_rate`,
    /// the fixed leg counted with `fixed_day_count`: both legs on the
    /// nominal, the unit one when none was given, the overnight leg carrying
    /// the spread, none when none was given, and the payment lag, roll and
    /// averaging of the terms, paying on the overnight schedule's calendar.
    pub fn assemble(
        &self,
        fixed_rate: R,
        fixed_schedule: Schedule,
        overnight_schedule: Schedule,
        fixed_day_count: DayCounter,
    ) -> (r: Result<OvernightIndexedSwap<R>, QlError>)
        requires
            overnight_schedule@.wf(),
            forall|i: int|
                0 <= i < overnight_schedule@.dates.len() - 1 ==> (#[trigger] floating_coupon_serials(
                    overnight_schedule@,
                    self@.payment_adjustment,
                    resolved_calendar(None, overnight_schedule@),
                    self@.payment_lag,
                    self@.payment_adjustment,
                    None,
                    i,
                )) is Some,
            fixed_dates_defined(
                fixed_schedule@,
                resolved_calendar(None, overnight_schedule@),
                self@.payment_lag,
                overnight_schedule@.convention,
                None,
            ),
        ensures
            ({
                let cal = resolved_calendar(None, overnight_schedule@);
                let leg_error = overnight_swap_leg_error(
                    overnight_schedule@,
                    1,
                    cal,
                    self@.payment_lag,
                    self@.payment_adjustment,
                    self@.averaging_method,
                );
                &&& r is Ok <==> (leg_error is None && fixed_schedule@.dates.len() >= 2)
                &&& r is Err ==> r == Err::<OvernightIndexedSwap<R>, QlError>(
                    if leg_error is Some {
                        leg_error.unwrap()
                    } else {
                        QlError::ScheduleTooShort
                    },
                )
                &&& r matches Ok(s) ==> {
                    let nominal = s.base_spec().fixed_nominals_spec()[0];
                    let spread = s.base_spec().spread_spec();
                    &&& match self@.nominal {
                        Some(n) => nominal == n,
                        None => call_ensures(<R as From<u32>>::from, (1u32,), nominal),
                    }
                    &&& match self@.overnight_spread {
                        Some(v) => spread == v,
                        None => call_ensures(<R as From<u32>>::from, (0u32,), spread),
                    }
                    &&& s.has_terms(
                        self@.swap_type,
                        seq![nominal],
                        fixed_schedule@,
                        fixed_rate,
                        fixed_day_count,
                        seq![nominal],
                        overnight_schedule@,
                        self@.overnight_index,
                        spread,
                        self@.payment_lag as i32,
                        self@.payment_adjustment,
                        cal,
                        self@.averaging_method,
                    )
                }
            }),
    {
        let nominal = match self.nominal {
            Some(n) => n,
            None => R::from(1u32),
        };
        let spread = match self.overnight_spread {
            Some(v) => v,
            None => R::from(0u32),
        };
        OvernightIndexedSwap::with_nominal(
            self.swap_type,
            nominal,
            fixed_schedule,
            fixed_rate,
            fixed_day_count,
            overnight_schedule,
            self.overnight_index.copied(),
            spread,
            self.payment_lag,
            self.payment_adjustment,
            None,
            self.averaging_method,
        )
    }
}

} // verus!
