//! The standard market year-on-year inflation cap or floor, built from a
//! length in years.
//!
//! The builder derives an annual year-on-year leg from a length in years,
//! an index and a start date, trims it to the optionlets asked for, and
//! strikes it at an explicit rate or at the money. The coupons are trimmed
//! before an at-the-money strike is resolved: the strike is the rate that
//! reprices what survives.
use vstd::prelude::*;

use crate::cashflows::yoyinflationcoupon::YoYInflationCoupon;
use crate::cashflows::iborleg::{floating_reference_end, floating_reference_start};
use crate::cashflows::yoyinflationleg::{YoYInflationLeg, YoYInflationLegModel};
use crate::errors::QlError;
use crate::indexes::inflationindex::CpiInterpolationType;
use crate::instruments::inflationcapfloor::{CapFloorType, YoYInflationCapFloor, padded};
use crate::settings::Settings;
use crate::time::calendar::{BusinessDayConvention, Calendar, CalendarModel, adjust_spec, advance_spec};
use crate::time::date::{Date, advance_ok, serial_advanced};
use crate::time::daycounter::DayCounter;
use crate::time::period::{Period, TimeUnit};
use crate::time::schedule::{DateGeneration, Schedule, ScheduleModel};

verus! {

/// Builds a standard market year-on-year inflation cap or floor.
pub struct MakeYoYInflationCapFloor<R, I> {
    cap_floor_type: CapFloorType,
    index: I,
    length: usize,
    calendar: Calendar,
    observation_lag: Period,
    interpolation: CpiInterpolationType,
    strike: Option<R>,
    at_the_money: bool,
    nominal: R,
    roll: BusinessDayConvention,
    day_counter: DayCounter,
    fixing_days: u32,
    first_caplet_excluded: bool,
    as_optionlet: bool,
    effective_date: Option<Date>,
    forward_start: Period,
}

/// What a builder holds.
pub struct MakeYoYInflationCapFloorModel<R, I> {
    /// The instrument type.
    pub cap_floor_type: CapFloorType,
    /// The index the coupons pay.
    pub index: I,
    /// The length of the leg, in years.
    pub length: usize,
    /// The calendar the start date is derived on and payments are rolled on.
    pub calendar: CalendarModel,
    /// How long before each reference-period end the index is observed.
    pub observation_lag: Period,
    /// How observations interpolate between fixings.
    pub interpolation: CpiInterpolationType,
    /// The explicit strike, if given.
    pub strike: Option<R>,
    /// Whether the strike is to be at the money.
    pub at_the_money: bool,
    /// The nominal of every coupon.
    pub nominal: R,
    /// The convention payment dates are rolled with.
    pub roll: BusinessDayConvention,
    /// The day counter the coupons accrue with.
    pub day_counter: DayCounter,
    /// The business days from the evaluation date to spot.
    pub fixing_days: u32,
    /// Whether the front optionlet is dropped.
    pub first_caplet_excluded: bool,
    /// Whether only the last optionlet is kept.
    pub as_optionlet: bool,
    /// The start date, when given outright.
    pub effective_date: Option<Date>,
    /// How long after spot the leg starts.
    pub forward_start: Period,
}

impl<R, I> View for MakeYoYInflationCapFloor<R, I> {
    type V = MakeYoYInflationCapFloorModel<R, I>;

    closed spec fn view(&self) -> MakeYoYInflationCapFloorModel<R, I> {
        MakeYoYInflationCapFloorModel {
            cap_floor_type: self.cap_floor_type,
            index: self.index,
            length: self.length,
            calendar: self.calendar@,
            observation_lag: self.observation_lag,
            interpolation: self.interpolation,
            strike: self.strike,
            at_the_money: self.at_the_money,
            nominal: self.nominal,
            roll: self.roll,
            day_counter: self.day_counter,
            fixing_days: self.fixing_days,
            first_caplet_excluded: self.first_caplet_excluded,
            as_optionlet: self.as_optionlet,
            effective_date: self.effective_date,
            forward_start: self.forward_start,
        }
    }
}

/// Whether `s` is the annual schedule of `years` years from `start` on
/// `calendar`: the start and every anniversary of it, unadjusted, every
/// period a regular one.
pub open spec fn is_annual_schedule(s: ScheduleModel, calendar: CalendarModel, start: int, years: int) -> bool {
    &&& s.dates.len() == years + 1
    &&& forall|k: int| 0 <= k <= years ==> (#[trigger] s.dates[k])@ == serial_advanced(start, k, TimeUnit::Years)
    &&& forall|k: int| 0 <= k <= years ==> (#[trigger] s.dates[k]).wf()
    &&& s.calendar == calendar
    &&& s.convention == BusinessDayConvention::Unadjusted
    &&& s.tenor matches Some(p) && p.length_spec() == 1 && p.units_spec() == TimeUnit::Years
    &&& s.rule == Some(DateGeneration::Forward)
    &&& s.end_of_month == Some(false)
    &&& s.is_regular == Seq::new(years as nat, |k: int| true)
}

/// The coupons kept of a leg of `n`: the half-open index range from the
/// first kept to the end, without the front one when it is excluded, and
/// only the last one when a single optionlet is asked for.
pub open spec fn kept_range(n: int, first_excluded: bool, as_optionlet: bool) -> (int, int) {
    let lo = if first_excluded && n > 0 {
        1
    } else {
        0
    };
    if as_optionlet && n - lo > 1 {
        (n - 1, n)
    } else {
        (lo, n)
    }
}

/// The strike chosen: the explicit one, or the at-the-money rate when the
/// strike is to be at the money; refused when both or neither are asked
/// for, or the at-the-money rate is missing.
pub open spec fn strike_choice<R>(strike: Option<R>, at_the_money: bool, atm_rate: Option<R>) -> Result<
    R,
    QlError,
> {
    match strike {
        Some(k) => if at_the_money {
            Err(QlError::StrikeAndAtmCurve)
        } else {
            Ok(k)
        },
        None => if at_the_money {
            match atm_rate {
                Some(k) => Ok(k),
                None => Err(QlError::NoAtmRate),
            }
        } else {
            Err(QlError::NoStrike)
        },
    }
}

impl<R, I> MakeYoYInflationCapFloorModel<R, I> {
    /// The spot date derived from the evaluation date `today`: the fixing
    /// days on, rolled `Following` on the calendar.
    pub open spec fn spot_spec(self, today: Date) -> Option<int> {
        advance_spec(
            self.calendar,
            today@,
            self.fixing_days as int,
            TimeUnit::Days,
            BusinessDayConvention::Following,
            false,
        )
    }

    /// Whether the start date is derivable from the evaluation date
    /// `today`, or given outright.
    pub open spec fn has_start(self, today: Option<Date>) -> bool {
        self.effective_date is Some || today is Some
    }

    /// Whether the start date is in the supported range, where it is
    /// derivable.
    pub open spec fn start_defined(self, today: Option<Date>) -> bool {
        match self.effective_date {
            Some(d) => d.wf(),
            None => match today {
                None => true,
                Some(t) => {
                    &&& t.wf()
                    &&& self.fixing_days <= i32::MAX
                    &&& self.spot_spec(t) matches Some(spot) && advance_ok(
                        spot,
                        self.forward_start.length_spec(),
                        self.forward_start.units_spec(),
                    )
                },
            },
        }
    }

    /// The start date: the effective date when given, else the forward
    /// start after spot.
    pub open spec fn start_spec(self, today: Option<Date>) -> int {
        match self.effective_date {
            Some(d) => d@,
            None => serial_advanced(
                self.spot_spec(today.unwrap()).unwrap(),
                self.forward_start.length_spec(),
                self.forward_start.units_spec(),
            ),
        }
    }

    /// Whether the anniversaries of `start` over the length are in the
    /// supported range, and each can be rolled on the calendar.
    pub open spec fn leg_defined(self, start: int) -> bool {
        &&& self.length <= i32::MAX
        &&& forall|k: int|
            0 <= k <= self.length ==> #[trigger] advance_ok(start, k, TimeUnit::Years) && (k >= 1
                ==> adjust_spec(self.calendar, serial_advanced(start, k, TimeUnit::Years), self.roll) is Some)
    }

    /// Whether every date the build computes is defined.
    pub open spec fn build_defined(self, today: Option<Date>) -> bool {
        &&& self.start_defined(today)
        &&& self.has_start(today) ==> self.leg_defined(self.start_spec(today))
    }

    /// The year-on-year leg laid on schedule `s`, paying `index`.
    pub open spec fn leg_spec(self, s: ScheduleModel, index: I) -> YoYInflationLegModel<R, I> {
        YoYInflationLegModel {
            schedule: s,
            payment_calendar: self.calendar,
            yoy_index: index,
            observation_lag: self.observation_lag,
            interpolation: self.interpolation,
            notionals: seq![self.nominal],
            payment_day_counter: Some(self.day_counter),
            payment_adjustment: self.roll,
            fixing_days: Seq::empty(),
            gearings: Seq::empty(),
            spreads: Seq::empty(),
        }
    }
}

/// The coupons kept of `coupons`: without the front one when it is
/// excluded, and only the last one when a single optionlet is asked for.
fn trim<T>(coupons: Vec<T>, first_excluded: bool, as_optionlet: bool) -> (r: Vec<T>)
    ensures
        ({
            let (lo, hi) = kept_range(coupons@.len() as int, first_excluded, as_optionlet);
            r@ == coupons@.subrange(lo, hi)
        }),
{
    let ghost every = coupons@;
    let mut coupons = coupons;
    if first_excluded && coupons.len() > 0 {
        coupons.remove(0);
    }
    if as_optionlet && coupons.len() > 1 {
        let last = coupons.pop().unwrap();
        coupons = vec![last];
    }
    let ghost (lo, hi) = kept_range(every.len() as int, first_excluded, as_optionlet);
    assert(coupons@ =~= every.subrange(lo, hi));
    coupons
}

/// The leg over an annual schedule of a builder whose leg is defined has
/// every coupon's dates defined.
proof fn lemma_annual_leg_defined<R, I>(m: MakeYoYInflationCapFloorModel<R, I>, s: ScheduleModel, start: int, index: I)
    requires
        m.leg_defined(start),
        is_annual_schedule(s, m.calendar, start, m.length as int),
    ensures
        m.leg_spec(s, index).dates_defined(),
{
    let leg = m.leg_spec(s, index);
    reveal(floating_reference_start);
    reveal(floating_reference_end);
    assert(leg.schedule.wf());
    assert forall|i: int| 0 <= i < leg.schedule.dates.len() - 1 implies (#[trigger] leg.coupon_serials(i)) is Some by {
        let n = s.dates.len() as int;
        assert(!s.is_stub(1));
        assert(!s.is_stub(n - 1));
        assert(advance_ok(start, i + 1, TimeUnit::Years));
        assert(s.dates[i + 1]@ == serial_advanced(start, i + 1, TimeUnit::Years));
    }
}

impl<R: Copy, I> MakeYoYInflationCapFloor<R, I> {
    /// Starts a builder for a `cap_floor_type` cap or floor of `length`
    /// years on `index`, observed `observation_lag` back under
    /// `interpolation`, the start date derived and the payments rolled on
    /// `calendar`. It comes with a nominal of one million, the
    /// `ModifiedFollowing` payment roll, the 30/360 bond-basis day counter,
    /// no fixing days, every optionlet kept, no forward start and no strike.
    pub fn new(
        cap_floor_type: CapFloorType,
        index: I,
        length: usize,
        calendar: Calendar,
        observation_lag: Period,
        interpolation: CpiInterpolationType,
    ) -> (r: MakeYoYInflationCapFloor<R, I>) where R: From<u32>
        ensures
            r@.cap_floor_type == cap_floor_type,
            r@.index == index,
            r@.length == length,
            r@.calendar == calendar@,
            r@.observation_lag == observation_lag,
            r@.interpolation == interpolation,
            r@.strike is None,
            !r@.at_the_money,
            call_ensures(<R as From<u32>>::from, (1000000u32,), r@.nominal),
            r@.roll == BusinessDayConvention::ModifiedFollowing,
            r@.day_counter == DayCounter::Thirty360BondBasis,
            r@.fixing_days == 0,
            !r@.first_caplet_excluded,
            !r@.as_optionlet,
            r@.effective_date is None,
            r@.forward_start.length_spec() == 0,
            r@.forward_start.units_spec() == TimeUnit::Days,
    {
        MakeYoYInflationCapFloor {
            cap_floor_type,
            index,
            length,
            calendar,
            observation_lag,
            interpolation,
            strike: None,
            at_the_money: false,
            nominal: R::from(1000000u32),
            roll: BusinessDayConvention::ModifiedFollowing,
            day_counter: DayCounter::Thirty360BondBasis,
            fixing_days: 0,
            first_caplet_excluded: false,
            as_optionlet: false,
            effective_date: None,
            forward_start: Period::new(0, TimeUnit::Days),
        }
    }

    /// Sets the nominal every coupon carries.
    pub fn with_nominal(self, nominal: R) -> (r: MakeYoYInflationCapFloor<R, I>)
        ensures
            r@ == (MakeYoYInflationCapFloorModel { nominal, ..self@ }),
    {
        MakeYoYInflationCapFloor { nominal, ..self }
    }

    /// Sets the start date outright, in place of the forward start after
    /// spot.
    pub fn with_effective_date(self, effective_date: Date) -> (r: MakeYoYInflationCapFloor<R, I>)
        ensures
            r@ == (MakeYoYInflationCapFloorModel { effective_date: Some(effective_date), ..self@ }),
    {
        MakeYoYInflationCapFloor { effective_date: Some(effective_date), ..self }
    }

    /// Sets the day counter the coupons accrue with.
    pub fn with_payment_day_counter(self, day_counter: DayCounter) -> (r: MakeYoYInflationCapFloor<R, I>)
        ensures
            r@ == (MakeYoYInflationCapFloorModel { day_counter, ..self@ }),
    {
        MakeYoYInflationCapFloor { day_counter, ..self }
    }

    /// Sets the convention payment dates are rolled with.
    pub fn with_payment_adjustment(self, convention: BusinessDayConvention) -> (r: MakeYoYInflationCapFloor<R, I>)
        ensures
            r@ == (MakeYoYInflationCapFloorModel { roll: convention, ..self@ }),
    {
        MakeYoYInflationCapFloor { roll: convention, ..self }
    }

    /// Sets the business days from the evaluation date to spot; only the
    /// derived start date reads them.
    pub fn with_fixing_days(self, fixing_days: u32) -> (r: MakeYoYInflationCapFloor<R, I>)
        ensures
            r@ == (MakeYoYInflationCapFloorModel { fixing_days, ..self@ }),
    {
        MakeYoYInflationCapFloor { fixing_days, ..self }
    }

    /// Keeps only the last optionlet, when `as_optionlet` is set.
    pub fn as_optionlet(self, as_optionlet: bool) -> (r: MakeYoYInflationCapFloor<R, I>)
        ensures
            r@ == (MakeYoYInflationCapFloorModel { as_optionlet, ..self@ }),
    {
        MakeYoYInflationCapFloor { as_optionlet, ..self }
    }

    /// Sets how long after spot the leg starts.
    pub fn with_forward_start(self, forward_start: Period) -> (r: MakeYoYInflationCapFloor<R, I>)
        ensures
            r@ == (MakeYoYInflationCapFloorModel { forward_start, ..self@ }),
    {
        MakeYoYInflationCapFloor { forward_start, ..self }
    }

    /// Drops the front optionlet.
    pub fn with_first_caplet_excluded(self) -> (r: MakeYoYInflationCapFloor<R, I>)
        ensures
            r@ == (MakeYoYInflationCapFloorModel { first_caplet_excluded: true, ..self@ }),
    {
        MakeYoYInflationCapFloor { first_caplet_excluded: true, ..self }
    }

    /// Strikes the cap or floor at `strike`; refused at build time together
    /// with an at-the-money strike.
    pub fn with_strike(self, strike: R) -> (r: MakeYoYInflationCapFloor<R, I>)
        ensures
            r@ == (MakeYoYInflationCapFloorModel { strike: Some(strike), ..self@ }),
    {
        MakeYoYInflationCapFloor { strike: Some(strike), ..self }
    }

    /// Strikes the cap or floor at the money: at the rate that reprices the
    /// trimmed leg off a nominal curve. Refused at build time together with
    /// an explicit strike.
    pub fn with_atm_strike(self) -> (r: MakeYoYInflationCapFloor<R, I>)
        ensures
            r@ == (MakeYoYInflationCapFloorModel { at_the_money: true, ..self@ }),
    {
        MakeYoYInflationCapFloor { at_the_money: true, ..self }
    }

    /// The start date: the effective date when given, else the forward
    /// start after spot, the fixing days after the evaluation date; refused
    /// when it has to be derived without an evaluation date.
    fn start_date(&self, settings: &Settings) -> (r: Result<Date, QlError>)
        requires
            self@.start_defined(settings.evaluation_date),
        ensures
            !self@.has_start(settings.evaluation_date) ==> r == Err::<Date, QlError>(
                QlError::NoCapFloorReferenceDate,
            ),
            self@.has_start(settings.evaluation_date) ==> (r matches Ok(d) && d.wf() && d@
                == self@.start_spec(settings.evaluation_date)),
    {
        match self.effective_date {
            Some(d) => Ok(d),
            None => {
                let today = match settings.evaluation_date {
                    Some(t) => t,
                    None => {
                        return Err(QlError::NoCapFloorReferenceDate);
                    },
                };
                let spot = self.calendar.advance(
                    today,
                    self.fixing_days as i32,
                    TimeUnit::Days,
                    BusinessDayConvention::Following,
                    false,
                );
                Ok(spot.add_period(self.forward_start))
            },
        }
    }

    /// The annual schedule of the leg from `start`: the start and each of
    /// its anniversaries over the length, unadjusted.
    fn annual_schedule(&self, start: Date) -> (r: Schedule)
        requires
            start.wf(),
            self@.leg_defined(start@),
        ensures
            is_annual_schedule(r@, self@.calendar, start@, self@.length as int),
    {
        let mut dates: Vec<Date> = Vec::new();
        let mut is_regular: Vec<bool> = Vec::new();
        let mut k: usize = 0;
        while k <= self.length
            invariant
                start.wf(),
                self@.leg_defined(start@),
                k <= self.length + 1,
                dates@.len() == k,
                is_regular@ == Seq::new((if k == 0 { 0 } else { k - 1 }) as nat, |j: int| true),
                forall|j: int| 0 <= j < k ==> (#[trigger] dates@[j])@ == serial_advanced(start@, j, TimeUnit::Years),
                forall|j: int| 0 <= j < k ==> (#[trigger] dates@[j]).wf(),
            decreases self.length + 1 - k,
        {
            assert(advance_ok(start@, k as int, TimeUnit::Years));
            dates.push(start.add_period(Period::new(k as i32, TimeUnit::Years)));
            if k > 0 {
                is_regular.push(true);
            }
            assert(is_regular@ =~= Seq::new(k as nat, |j: int| true));
            k = k + 1;
        }
        match Schedule::new(
            dates,
            self.calendar.copied(),
            BusinessDayConvention::Unadjusted,
            Some(Period::new(1, TimeUnit::Years)),
            Some(DateGeneration::Forward),
            Some(false),
            is_regular,
        ) {
            Ok(s) => s,
            Err(_) => {
                assert(false);
                Schedule::from_dates(Vec::new())
            },
        }
    }
}

impl<R: Copy, I: Clone> MakeYoYInflationCapFloor<R, I> {
    /// The year-on-year leg over the annual schedule from `start`, paying a
    /// clone of the index.
    fn annual_leg(&self, start: Date) -> (r: YoYInflationLeg<R, I>)
        requires
            start.wf(),
            self@.leg_defined(start@),
        ensures
            is_annual_schedule(r@.schedule, self@.calendar, start@, self@.length as int),
            cloned(self@.index, r@.yoy_index),
            r@ == self@.leg_spec(r@.schedule, r@.yoy_index),
    {
        let schedule = self.annual_schedule(start);
        let leg = YoYInflationLeg::new(
            schedule,
            self.calendar.copied(),
            self.index.clone(),
            self.observation_lag,
            self.interpolation,
        ).with_payment_adjustment(self.roll).with_payment_day_counter(self.day_counter).with_notional(
            self.nominal,
        );
        assert(leg@.fixing_days =~= Seq::<u32>::empty());
        assert(leg@.gearings =~= Seq::<R>::empty());
        assert(leg@.spreads =~= Seq::<R>::empty());
        leg
    }

    /// The coupons the optionlets are written on: the annual year-on-year
    /// leg from the start date over the length, trimmed of the front coupon
    /// when it is excluded and down to the last one when a single optionlet
    /// is asked for. Refused when the start date has to be derived without
    /// an evaluation date, and over a length of zero years.
    pub fn coupons(&self, settings: &Settings) -> (r: Result<Vec<YoYInflationCoupon<R, I>>, QlError>)
        requires
            self@.build_defined(settings.evaluation_date),
        ensures
            !self@.has_start(settings.evaluation_date) ==> r == Err::<Vec<YoYInflationCoupon<R, I>>, QlError>(
                QlError::NoCapFloorReferenceDate,
            ),
            self@.has_start(settings.evaluation_date) && self@.length == 0 ==> r == Err::<
                Vec<YoYInflationCoupon<R, I>>,
                QlError,
            >(QlError::ScheduleTooShort),
            self@.has_start(settings.evaluation_date) && self@.length > 0 ==> (r matches Ok(cs) && exists|
                s: ScheduleModel,
                index: I,
            |
                #![trigger is_annual_schedule(s, self@.calendar, self@.start_spec(settings.evaluation_date), self@.length as int), cloned(self@.index, index)]
                is_annual_schedule(s, self@.calendar, self@.start_spec(settings.evaluation_date), self@.length as int)
                    && cloned(self@.index, index) && {
                    let (lo, hi) = kept_range(
                        self@.length as int,
                        self@.first_caplet_excluded,
                        self@.as_optionlet,
                    );
                    &&& cs@.len() == hi - lo
                    &&& forall|i: int| 0 <= i < cs@.len() ==> self@.leg_spec(s, index).is_coupon(#[trigger] cs@[i], lo + i)
                }),
    {
        let start = match self.start_date(settings) {
            Ok(d) => d,
            Err(e) => {
                return Err(e);
            },
        };
        let leg = self.annual_leg(start);
        let ghost s = leg@.schedule;
        let ghost index = leg@.yoy_index;
        proof {
            lemma_annual_leg_defined(self@, s, start@, index);
        }
        let all = match leg.coupons() {
            Ok(cs) => cs,
            Err(e) => {
                return Err(e);
            },
        };
        let coupons = trim(all, self.first_caplet_excluded, self.as_optionlet);
        assert(coupons@.len() == kept_range(all@.len() as int, self@.first_caplet_excluded, self@.as_optionlet).1 - kept_range(all@.len() as int, self@.first_caplet_excluded, self@.as_optionlet).0);
        Ok(coupons)
    }

    /// Builds the cap or floor: the coupons, then the strike - the explicit
    /// one, or `atm_rate`, the rate repricing those coupons off a nominal
    /// curve, when the strike is at the money - then the instrument struck
    /// there.
    ///
    /// Refused as [`coupons`](Self::coupons) is; when both or neither of an
    /// explicit strike and an at-the-money strike were asked for, or the
    /// at-the-money rate is missing; for a collar, which needs two strikes;
    /// and when no coupon is left.
    pub fn build(self, settings: &Settings, atm_rate: Option<R>) -> (r: Result<
        YoYInflationCapFloor<R, I>,
        QlError,
    >)
        requires
            self@.build_defined(settings.evaluation_date),
        ensures
            !self@.has_start(settings.evaluation_date) ==> r == Err::<YoYInflationCapFloor<R, I>, QlError>(
                QlError::NoCapFloorReferenceDate,
            ),
            self@.has_start(settings.evaluation_date) && self@.length == 0 ==> r == Err::<
                YoYInflationCapFloor<R, I>,
                QlError,
            >(QlError::ScheduleTooShort),
            self@.has_start(settings.evaluation_date) && self@.length > 0 ==> ({
                let (lo, hi) = kept_range(
                    self@.length as int,
                    self@.first_caplet_excluded,
                    self@.as_optionlet,
                );
                match strike_choice(self@.strike, self@.at_the_money, atm_rate) {
                    Err(e) => r == Err::<YoYInflationCapFloor<R, I>, QlError>(e),
                    Ok(k) => if self@.cap_floor_type is Collar {
                        r == Err::<YoYInflationCapFloor<R, I>, QlError>(QlError::CollarNeedsTwoStrikeVectors)
                    } else if hi == lo {
                        r == Err::<YoYInflationCapFloor<R, I>, QlError>(QlError::NoCoupons)
                    } else {
                        r matches Ok(c) && c.type_spec() == self@.cap_floor_type && c.cap_rates_spec() == (if self@.cap_floor_type is Cap {
                            padded(seq![k], hi - lo)
                        } else {
                            Seq::<R>::empty()
                        }) && c.floor_rates_spec() == (if self@.cap_floor_type is Floor {
                            padded(seq![k], hi - lo)
                        } else {
                            Seq::<R>::empty()
                        }) && exists|s: ScheduleModel, index: I|
                            #![trigger is_annual_schedule(s, self@.calendar, self@.start_spec(settings.evaluation_date), self@.length as int), cloned(self@.index, index)]
                            is_annual_schedule(s, self@.calendar, self@.start_spec(settings.evaluation_date), self@.length as int)
                                && cloned(self@.index, index) && c.coupons_spec().len() == hi - lo && forall|i: int|
                                0 <= i < c.coupons_spec().len() ==> self@.leg_spec(s, index).is_coupon(
                                    #[trigger] c.coupons_spec()[i],
                                    lo + i,
                                )
                    },
                }
            }),
    {
        let coupons = match self.coupons(settings) {
            Ok(cs) => cs,
            Err(e) => {
                return Err(e);
            },
        };
        let strike = match self.strike {
            Some(k) => {
                if self.at_the_money {
                    return Err(QlError::StrikeAndAtmCurve);
                }
                k
            },
            None => {
                if !self.at_the_money {
                    return Err(QlError::NoStrike);
                }
                match atm_rate {
                    Some(k) => k,
                    None => {
                        return Err(QlError::NoAtmRate);
                    },
                }
            },
        };
        let strikes = vec![strike];
        assert(strikes@ =~= seq![strike]);
        YoYInflationCapFloor::with_strikes(self.cap_floor_type, coupons, strikes)
    }
}

} // verus!
