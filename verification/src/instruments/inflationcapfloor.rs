//! Year-on-year inflation caps, floors and collars.
//!
//! A cap, floor or collar is written on a year-on-year inflation leg, with
//! a cap strike and/or a floor strike per coupon. Unlike a nominal cap or
//! floor it keeps its first optionlet: a year-on-year coupon effectively
//! sets in arrears, so its front optionlet is live.
use vstd::prelude::*;

use crate::cashflows::cashflow::{CashFlowDates, Leg, has_occurred, includes_reference_date, occurred};
use crate::cashflows::cashflows::{CashFlows, flow_start, flow_end, leg_wf};
use crate::cashflows::yoyinflationcoupon::YoYInflationCoupon;
use crate::errors::QlError;
use crate::settings::Settings;
use crate::time::date::Date;
use crate::time::period::Period;

verus! {

/// What a cap/floor instrument is long of.
#[derive(Clone, Copy, Debug, PartialEq, Eq, Structural)]
pub enum CapFloorType {
    /// A cap: the optionlets pay above the cap strikes.
    Cap,
    /// A floor: the optionlets pay below the floor strikes.
    Floor,
    /// A collar: long the cap and short the floor.
    Collar,
}

/// Whether an instrument of type `t` carries cap strikes.
pub open spec fn has_cap(t: CapFloorType) -> bool {
    t is Cap || t is Collar
}

/// Whether an instrument of type `t` carries floor strikes.
pub open spec fn has_floor(t: CapFloorType) -> bool {
    t is Floor || t is Collar
}

/// `rates` padded to length `n` by repeating its last element.
pub open spec fn padded<R>(rates: Seq<R>, n: int) -> Seq<R> {
    if rates.len() >= n {
        rates
    } else {
        rates + Seq::new((n - rates.len()) as nat, |i: int| rates.last())
    }
}

/// The strikes an instrument keeps of the `rates` it was given: padded to
/// the `n` coupons when its type uses them, as given otherwise.
pub open spec fn kept_strikes<R>(uses: bool, rates: Seq<R>, n: int) -> Seq<R> {
    if uses {
        padded(rates, n)
    } else {
        rates
    }
}

/// Why an instrument of type `t` over `n` coupons with the given strikes
/// is refused, if it is.
pub open spec fn cap_floor_error<R>(t: CapFloorType, n: int, cap_rates: Seq<R>, floor_rates: Seq<R>) -> Option<
    QlError,
> {
    if n == 0 {
        Some(QlError::NoCoupons)
    } else if has_cap(t) && cap_rates.len() == 0 {
        Some(QlError::NoCapRates)
    } else if has_floor(t) && floor_rates.len() == 0 {
        Some(QlError::NoFloorRates)
    } else {
        None
    }
}

/// Pads `rates` to length `n` by repeating its last element.
fn pad<R: Copy>(rates: Vec<R>, n: usize) -> (r: Vec<R>)
    requires
        rates@.len() > 0,
    ensures
        r@ == padded(rates@, n as int),
{
    let ghost given = rates@;
    let mut r = rates;
    let last = r[r.len() - 1];
    assert(last == given.last());
    while r.len() < n
        invariant
            given.len() > 0,
            last == given.last(),
            r@.len() >= given.len(),
            r@.len() == given.len() || r@.len() <= n,
            r@ =~= given + Seq::new((r@.len() - given.len()) as nat, |i: int| given.last()),
        decreases n - r.len(),
    {
        r.push(last);
    }
    proof {
        if given.len() < n as int {
            assert(r@.len() == n);
        } else {
            assert(r@ =~= given);
        }
    }
    r
}

/// What a pricing engine is given for a year-on-year cap/floor: the
/// instrument type, the index and its observation lag, and per optionlet
/// the dates, nominal, gearing, spread and strikes, with `None` for a strike
/// the type does not use and for the unit gearing or no spread.
///
/// The strikes are carried as struck. The engine prices an optionlet on the
/// bare index, so it reads them brought onto the index's scale,
/// `(strike - spread) / gearing`; that, and the accrual periods as year
/// fractions, are floating-point and filled in on the engine's side.
pub struct YoYInflationCapFloorArguments<R, I> {
    /// The instrument type.
    pub cap_floor_type: Option<CapFloorType>,
    /// The index the engine reads its forwards off.
    pub index: Option<I>,
    /// The lag the coupons observe inflation with.
    pub observation_lag: Option<Period>,
    /// Each coupon's accrual start date.
    pub start_dates: Vec<Date>,
    /// Each coupon's fixing date.
    pub fixing_dates: Vec<Date>,
    /// Each coupon's payment date.
    pub pay_dates: Vec<Date>,
    /// Each coupon's accrual period as a year fraction.
    pub accrual_times: Vec<R>,
    /// Each coupon's cap strike, `None` for a pure floor.
    pub cap_rates: Vec<Option<R>>,
    /// Each coupon's floor strike, `None` for a pure cap.
    pub floor_rates: Vec<Option<R>>,
    /// Each coupon's gearing, `None` for the unit gearing.
    pub gearings: Vec<Option<R>>,
    /// Each coupon's spread, `None` for no spread.
    pub spreads: Vec<Option<R>>,
    /// Each coupon's nominal.
    pub nominals: Vec<R>,
}

/// Why an argument bundle is refused, if it is: every per-coupon vector
/// must have as many entries as there are start dates.
pub open spec fn cap_floor_arguments_error<R, I>(a: YoYInflationCapFloorArguments<R, I>) -> Option<QlError> {
    let n = a.start_dates@.len();
    if a.cap_floor_type is None {
        Some(QlError::CapFloorTypeNotSet)
    } else if a.index is None {
        Some(QlError::NoInflationIndex)
    } else if a.pay_dates@.len() != n {
        Some(QlError::PayDateCountMismatch)
    } else if a.fixing_dates@.len() != n {
        Some(QlError::FixingDateCountMismatch)
    } else if a.accrual_times@.len() != n {
        Some(QlError::AccrualTimeCountMismatch)
    } else if a.cap_rates@.len() != n {
        Some(QlError::CapRateCountMismatch)
    } else if a.floor_rates@.len() != n {
        Some(QlError::FloorRateCountMismatch)
    } else if a.gearings@.len() != n {
        Some(QlError::GearingCountMismatch)
    } else if a.spreads@.len() != n {
        Some(QlError::SpreadCountMismatch)
    } else if a.nominals@.len() != n {
        Some(QlError::NominalCountMismatch)
    } else {
        None
    }
}

impl<R, I> YoYInflationCapFloorArguments<R, I> {
    /// An empty bundle.
    pub fn new() -> (r: YoYInflationCapFloorArguments<R, I>)
        ensures
            r.cap_floor_type is None,
            r.index is None,
            r.observation_lag is None,
            r.start_dates@.len() == 0,
            r.fixing_dates@.len() == 0,
            r.pay_dates@.len() == 0,
            r.accrual_times@.len() == 0,
            r.cap_rates@.len() == 0,
            r.floor_rates@.len() == 0,
            r.gearings@.len() == 0,
            r.spreads@.len() == 0,
            r.nominals@.len() == 0,
    {
        YoYInflationCapFloorArguments {
            cap_floor_type: None,
            index: None,
            observation_lag: None,
            start_dates: Vec::new(),
            fixing_dates: Vec::new(),
            pay_dates: Vec::new(),
            accrual_times: Vec::new(),
            cap_rates: Vec::new(),
            floor_rates: Vec::new(),
            gearings: Vec::new(),
            spreads: Vec::new(),
            nominals: Vec::new(),
        }
    }

    /// Checks that the bundle is complete: the type and the index are set
    /// and every per-coupon vector spans the leg.
    pub fn validate(&self) -> (r: Result<(), QlError>)
        ensures
            r is Ok <==> cap_floor_arguments_error(*self) is None,
            r is Err ==> r == Err::<(), QlError>(cap_floor_arguments_error(*self).unwrap()),
    {
        let n = self.start_dates.len();
        if self.cap_floor_type.is_none() {
            return Err(QlError::CapFloorTypeNotSet);
        }
        if self.index.is_none() {
            return Err(QlError::NoInflationIndex);
        }
        if self.pay_dates.len() != n {
            return Err(QlError::PayDateCountMismatch);
        }
        if self.fixing_dates.len() != n {
            return Err(QlError::FixingDateCountMismatch);
        }
        if self.accrual_times.len() != n {
            return Err(QlError::AccrualTimeCountMismatch);
        }
        if self.cap_rates.len() != n {
            return Err(QlError::CapRateCountMismatch);
        }
        if self.floor_rates.len() != n {
            return Err(QlError::FloorRateCountMismatch);
        }
        if self.gearings.len() != n {
            return Err(QlError::GearingCountMismatch);
        }
        if self.spreads.len() != n {
            return Err(QlError::SpreadCountMismatch);
        }
        if self.nominals.len() != n {
            return Err(QlError::NominalCountMismatch);
        }
        Ok(())
    }
}

/// A cap, floor or collar over a year-on-year inflation leg.
///
/// The leg is never empty, and each strike vector the type uses has a
/// strike for every coupon.
pub struct YoYInflationCapFloor<R, I> {
    cap_floor_type: CapFloorType,
    coupons: Vec<YoYInflationCoupon<R, I>>,
    cap_rates: Vec<R>,
    floor_rates: Vec<R>,
}

impl<R, I> YoYInflationCapFloor<R, I> {
    #[verifier::type_invariant]
    spec fn inv(&self) -> bool {
        &&& self.coupons@.len() > 0
        &&& has_cap(self.cap_floor_type) ==> self.cap_rates@.len() >= self.coupons@.len()
        &&& has_floor(self.cap_floor_type) ==> self.floor_rates@.len() >= self.coupons@.len()
    }

    /// The instrument type.
    pub closed spec fn type_spec(&self) -> CapFloorType {
        self.cap_floor_type
    }

    /// The coupons the optionlets are written on.
    pub closed spec fn coupons_spec(&self) -> Seq<YoYInflationCoupon<R, I>> {
        self.coupons@
    }

    /// The cap strikes.
    pub closed spec fn cap_rates_spec(&self) -> Seq<R> {
        self.cap_rates@
    }

    /// The floor strikes.
    pub closed spec fn floor_rates_spec(&self) -> Seq<R> {
        self.floor_rates@
    }

    /// Whether the instrument is the one of type `t` over `coupons`, with
    /// the strikes kept of `cap_rates` and `floor_rates`.
    pub open spec fn is_instrument(
        &self,
        t: CapFloorType,
        coupons: Seq<YoYInflationCoupon<R, I>>,
        cap_rates: Seq<R>,
        floor_rates: Seq<R>,
    ) -> bool {
        &&& self.type_spec() == t
        &&& self.coupons_spec() == coupons
        &&& self.cap_rates_spec() == kept_strikes(has_cap(t), cap_rates, coupons.len() as int)
        &&& self.floor_rates_spec() == kept_strikes(has_floor(t), floor_rates, coupons.len() as int)
    }
}

impl<R: Copy, I> YoYInflationCapFloor<R, I> {
    /// An instrument of type `cap_floor_type` over `coupons`. Each strike
    /// vector the type uses is padded to the number of coupons by repeating
    /// its last strike; one it does not use is kept as given. Refused on an
    /// empty leg, and on an empty strike vector the type uses.
    pub fn new(
        cap_floor_type: CapFloorType,
        coupons: Vec<YoYInflationCoupon<R, I>>,
        cap_rates: Vec<R>,
        floor_rates: Vec<R>,
    ) -> (r: Result<YoYInflationCapFloor<R, I>, QlError>)
        ensures
            r is Ok <==> cap_floor_error(cap_floor_type, coupons@.len() as int, cap_rates@, floor_rates@) is None,
            r is Err ==> r == Err::<YoYInflationCapFloor<R, I>, QlError>(
                cap_floor_error(cap_floor_type, coupons@.len() as int, cap_rates@, floor_rates@).unwrap(),
            ),
            r matches Ok(c) ==> c.is_instrument(cap_floor_type, coupons@, cap_rates@, floor_rates@),
    {
        let n = coupons.len();
        if n == 0 {
            return Err(QlError::NoCoupons);
        }
        let uses_cap = match cap_floor_type {
            CapFloorType::Cap | CapFloorType::Collar => true,
            CapFloorType::Floor => false,
        };
        let uses_floor = match cap_floor_type {
            CapFloorType::Floor | CapFloorType::Collar => true,
            CapFloorType::Cap => false,
        };
        if uses_cap && cap_rates.len() == 0 {
            return Err(QlError::NoCapRates);
        }
        if uses_floor && floor_rates.len() == 0 {
            return Err(QlError::NoFloorRates);
        }
        let cap_rates = if uses_cap {
            pad(cap_rates, n)
        } else {
            cap_rates
        };
        let floor_rates = if uses_floor {
            pad(floor_rates, n)
        } else {
            floor_rates
        };
        Ok(YoYInflationCapFloor { cap_floor_type, coupons, cap_rates, floor_rates })
    }

    /// A cap over `coupons` struck at `strikes`.
    pub fn cap(coupons: Vec<YoYInflationCoupon<R, I>>, strikes: Vec<R>) -> (r: Result<
        YoYInflationCapFloor<R, I>,
        QlError,
    >)
        ensures
            r is Ok <==> cap_floor_error(CapFloorType::Cap, coupons@.len() as int, strikes@, Seq::<R>::empty())
                is None,
            r is Err ==> r == Err::<YoYInflationCapFloor<R, I>, QlError>(
                cap_floor_error(CapFloorType::Cap, coupons@.len() as int, strikes@, Seq::<R>::empty()).unwrap(),
            ),
            r matches Ok(c) ==> c.is_instrument(CapFloorType::Cap, coupons@, strikes@, Seq::<R>::empty()),
    {
        let none: Vec<R> = Vec::new();
        YoYInflationCapFloor::new(CapFloorType::Cap, coupons, strikes, none)
    }

    /// A floor over `coupons` struck at `strikes`.
    pub fn floor(coupons: Vec<YoYInflationCoupon<R, I>>, strikes: Vec<R>) -> (r: Result<
        YoYInflationCapFloor<R, I>,
        QlError,
    >)
        ensures
            r is Ok <==> cap_floor_error(CapFloorType::Floor, coupons@.len() as int, Seq::<R>::empty(), strikes@)
                is None,
            r is Err ==> r == Err::<YoYInflationCapFloor<R, I>, QlError>(
                cap_floor_error(CapFloorType::Floor, coupons@.len() as int, Seq::<R>::empty(), strikes@).unwrap(),
            ),
            r matches Ok(c) ==> c.is_instrument(CapFloorType::Floor, coupons@, Seq::<R>::empty(), strikes@),
    {
        let none: Vec<R> = Vec::new();
        YoYInflationCapFloor::new(CapFloorType::Floor, coupons, none, strikes)
    }

    /// A collar over `coupons`, long the cap at `cap_rates` and short the
    /// floor at `floor_rates`.
    pub fn collar(coupons: Vec<YoYInflationCoupon<R, I>>, cap_rates: Vec<R>, floor_rates: Vec<R>) -> (r:
        Result<YoYInflationCapFloor<R, I>, QlError>)
        ensures
            r is Ok <==> cap_floor_error(CapFloorType::Collar, coupons@.len() as int, cap_rates@, floor_rates@)
                is None,
            r is Err ==> r == Err::<YoYInflationCapFloor<R, I>, QlError>(
                cap_floor_error(CapFloorType::Collar, coupons@.len() as int, cap_rates@, floor_rates@).unwrap(),
            ),
            r matches Ok(c) ==> c.is_instrument(CapFloorType::Collar, coupons@, cap_rates@, floor_rates@),
    {
        YoYInflationCapFloor::new(CapFloorType::Collar, coupons, cap_rates, floor_rates)
    }

    /// A cap or a floor over `coupons` struck at `strikes`: cap strikes for a
    /// cap, floor strikes for a floor. Refused without strikes, and for a
    /// collar, which needs two vectors of strikes.
    pub fn with_strikes(cap_floor_type: CapFloorType, coupons: Vec<YoYInflationCoupon<R, I>>, strikes: Vec<R>) -> (r:
        Result<YoYInflationCapFloor<R, I>, QlError>)
        ensures
            strikes@.len() == 0 ==> r == Err::<YoYInflationCapFloor<R, I>, QlError>(QlError::NoStrikes),
            strikes@.len() > 0 && cap_floor_type is Collar ==> r == Err::<YoYInflationCapFloor<R, I>, QlError>(
                QlError::CollarNeedsTwoStrikeVectors,
            ),
            strikes@.len() > 0 && cap_floor_type is Cap ==> (match r {
                Ok(c) => cap_floor_error(CapFloorType::Cap, coupons@.len() as int, strikes@, Seq::<R>::empty()) is None
                    && c.is_instrument(CapFloorType::Cap, coupons@, strikes@, Seq::<R>::empty()),
                Err(e) => cap_floor_error(CapFloorType::Cap, coupons@.len() as int, strikes@, Seq::<R>::empty())
                    == Some(e),
            }),
            strikes@.len() > 0 && cap_floor_type is Floor ==> (match r {
                Ok(c) => cap_floor_error(CapFloorType::Floor, coupons@.len() as int, Seq::<R>::empty(), strikes@)
                    is None && c.is_instrument(CapFloorType::Floor, coupons@, Seq::<R>::empty(), strikes@),
                Err(e) => cap_floor_error(CapFloorType::Floor, coupons@.len() as int, Seq::<R>::empty(), strikes@)
                    == Some(e),
            }),
    {
        if strikes.len() == 0 {
            return Err(QlError::NoStrikes);
        }
        match cap_floor_type {
            CapFloorType::Cap => YoYInflationCapFloor::cap(coupons, strikes),
            CapFloorType::Floor => YoYInflationCapFloor::floor(coupons, strikes),
            CapFloorType::Collar => Err(QlError::CollarNeedsTwoStrikeVectors),
        }
    }

    /// The instrument type.
    pub fn cap_floor_type(&self) -> (r: CapFloorType)
        ensures
            r == self.type_spec(),
    {
        self.cap_floor_type
    }

    /// The cap strikes.
    pub fn cap_rates(&self) -> (r: &[R])
        ensures
            r@ == self.cap_rates_spec(),
    {
        self.cap_rates.as_slice()
    }

    /// The floor strikes.
    pub fn floor_rates(&self) -> (r: &[R])
        ensures
            r@ == self.floor_rates_spec(),
    {
        self.floor_rates.as_slice()
    }

    /// The year-on-year coupons the optionlets are written on.
    pub fn yoy_leg(&self) -> (r: &[YoYInflationCoupon<R, I>])
        ensures
            r@ == self.coupons_spec(),
    {
        self.coupons.as_slice()
    }

    /// The index the coupons pay: the first coupon's.
    pub fn index(&self) -> (r: &I)
        ensures
            self.coupons_spec().len() > 0,
            r == &self.coupons_spec()[0].yoy_index,
    {
        proof {
            use_type_invariant(self);
        }
        &self.coupons[0].yoy_index
    }

    /// The lag the coupons observe inflation with: the first coupon's.
    pub fn observation_lag(&self) -> (r: Period)
        ensures
            self.coupons_spec().len() > 0,
            r == self.coupons_spec()[0].observation_lag,
    {
        proof {
            use_type_invariant(self);
        }
        self.coupons[0].observation_lag
    }

    /// The coupons as a leg of flows: their payment dates and accrual
    /// periods.
    pub fn cash_flows(&self) -> (r: Leg)
        ensures
            r@.len() == self.coupons_spec().len(),
            forall|i: int|
                0 <= i < r@.len() ==> #[trigger] r@[i] == (CashFlowDates {
                    date: self.coupons_spec()[i].coupon.payment_date,
                    accrual: Some(
                        crate::cashflows::cashflow::AccrualPeriod {
                            start: self.coupons_spec()[i].coupon.accrual_start_date,
                            end: self.coupons_spec()[i].coupon.accrual_end_date,
                        },
                    ),
                }),
    {
        let mut flows: Leg = Vec::new();
        let mut i: usize = 0;
        while i < self.coupons.len()
            invariant
                i <= self.coupons@.len(),
                flows@.len() == i,
                forall|k: int|
                    0 <= k < i ==> #[trigger] flows@[k] == (CashFlowDates {
                        date: self.coupons@[k].coupon.payment_date,
                        accrual: Some(
                            crate::cashflows::cashflow::AccrualPeriod {
                                start: self.coupons@[k].coupon.accrual_start_date,
                                end: self.coupons@[k].coupon.accrual_end_date,
                            },
                        ),
                    }),
            decreases self.coupons.len() - i,
        {
            flows.push(self.coupons[i].coupon.flow_dates());
            i = i + 1;
        }
        flows
    }

    /// The earliest accrual start of the leg.
    pub fn start_date(&self) -> (r: Date)
        requires
            forall|i: int| 0 <= i < self.coupons_spec().len() ==> (#[trigger] self.coupons_spec()[i]).coupon.dates_wf(),
        ensures
            exists|i: int| 0 <= i < self.coupons_spec().len() && r == (#[trigger] self.coupons_spec()[i]).coupon.accrual_start_date,
            forall|i: int| 0 <= i < self.coupons_spec().len() ==> r@ <= (#[trigger] self.coupons_spec()[i]).coupon.accrual_start_date@,
    {
        proof {
            use_type_invariant(self);
        }
        let flows = self.cash_flows();
        assert forall|i: int| 0 <= i < flows@.len() implies #[trigger] flows@[i].wf() by {
            assert(self.coupons_spec()[i].coupon.dates_wf());
        }
        match CashFlows::start_date(&flows) {
            Ok(d) => {
                let ghost i = choose|i: int| 0 <= i < flows@.len() && d@ == flow_start(#[trigger] flows@[i]);
                assert(flow_start(flows@[i]) == self.coupons_spec()[i].coupon.accrual_start_date@);
                proof {
                    crate::time::date::lemma_date_view_injective(d, self.coupons_spec()[i].coupon.accrual_start_date);
                }
                assert forall|j: int| 0 <= j < self.coupons_spec().len() implies d@ <= (#[trigger] self.coupons_spec()[j]).coupon.accrual_start_date@ by {
                    assert(flow_start(flows@[j]) == self.coupons_spec()[j].coupon.accrual_start_date@);
                }
                d
            },
            Err(_) => {
                assert(false);
                self.coupons[0].coupon.accrual_start_date
            },
        }
    }

    /// The latest accrual end of the leg.
    pub fn maturity_date(&self) -> (r: Date)
        requires
            forall|i: int| 0 <= i < self.coupons_spec().len() ==> (#[trigger] self.coupons_spec()[i]).coupon.dates_wf(),
        ensures
            exists|i: int| 0 <= i < self.coupons_spec().len() && r == (#[trigger] self.coupons_spec()[i]).coupon.accrual_end_date,
            forall|i: int| 0 <= i < self.coupons_spec().len() ==> r@ >= (#[trigger] self.coupons_spec()[i]).coupon.accrual_end_date@,
    {
        proof {
            use_type_invariant(self);
        }
        let flows = self.cash_flows();
        assert forall|i: int| 0 <= i < flows@.len() implies #[trigger] flows@[i].wf() by {
            assert(self.coupons_spec()[i].coupon.dates_wf());
        }
        match CashFlows::maturity_date(&flows) {
            Ok(d) => {
                let ghost i = choose|i: int| 0 <= i < flows@.len() && d@ == flow_end(#[trigger] flows@[i]);
                assert(flow_end(flows@[i]) == self.coupons_spec()[i].coupon.accrual_end_date@);
                proof {
                    crate::time::date::lemma_date_view_injective(d, self.coupons_spec()[i].coupon.accrual_end_date);
                }
                assert forall|j: int| 0 <= j < self.coupons_spec().len() implies d@ >= (#[trigger] self.coupons_spec()[j]).coupon.accrual_end_date@ by {
                    assert(flow_end(flows@[j]) == self.coupons_spec()[j].coupon.accrual_end_date@);
                }
                d
            },
            Err(_) => {
                assert(false);
                self.coupons[0].coupon.accrual_end_date
            },
        }
    }

    /// Whether every coupon has paid, measured against the evaluation date;
    /// refused without one.
    pub fn is_expired(&self, settings: &Settings) -> (r: Result<bool, QlError>)
        ensures
            settings.evaluation_date is None ==> r == Err::<bool, QlError>(QlError::NoReferenceDate),
            settings.evaluation_date matches Some(today) ==> r == Ok::<bool, QlError>(
                forall|i: int|
                    0 <= i < self.coupons_spec().len() ==> occurred(
                        #[trigger] self.coupons_spec()[i].coupon.payment_date,
                        today,
                        includes_reference_date(*settings, None, None),
                    ),
            ),
    {
        proof {
            use_type_invariant(self);
        }
        let n = self.coupons.len();
        let mut i = n;
        while i > 0
            invariant
                i <= n == self.coupons@.len(),
                n > 0,
                settings.evaluation_date is None ==> i == n,
                settings.evaluation_date matches Some(today) ==> forall|k: int|
                    i <= k < n ==> occurred(
                        #[trigger] self.coupons_spec()[k].coupon.payment_date,
                        today,
                        includes_reference_date(*settings, None, None),
                    ),
            decreases i,
        {
            match has_occurred(self.coupons[i - 1].coupon.payment_date, settings, None, None) {
                Ok(true) => {},
                Ok(false) => {
                    return Ok(false);
                },
                Err(e) => {
                    return Err(e);
                },
            }
            i = i - 1;
        }
        Ok(true)
    }
}

impl<R: Copy, I: Clone> YoYInflationCapFloor<R, I> {
    /// Fills `arguments` for a pricing engine: the type, a clone of the
    /// index and the observation lag of the first coupon, and per coupon its
    /// accrual start, fixing and payment dates, nominal, gearing, spread and
    /// the strikes the type uses, `None` for the others. The accrual times
    /// are left empty for the engine's side to fill.
    pub fn setup_arguments(&self, arguments: &mut YoYInflationCapFloorArguments<R, I>)
        requires
            forall|i: int|
                0 <= i < self.coupons_spec().len() ==> (#[trigger] self.coupons_spec()[i]).fixing_date_defined(),
        ensures
            final(arguments).cap_floor_type == Some(self.type_spec()),
            final(arguments).index matches Some(index) && cloned(self.coupons_spec()[0].yoy_index, index),
            final(arguments).observation_lag == Some(self.coupons_spec()[0].observation_lag),
            final(arguments).accrual_times@.len() == 0,
            ({
                let n = self.coupons_spec().len();
                let a = *final(arguments);
                &&& a.start_dates@.len() == n
                &&& a.fixing_dates@.len() == n
                &&& a.pay_dates@.len() == n
                &&& a.cap_rates@.len() == n
                &&& a.floor_rates@.len() == n
                &&& a.gearings@.len() == n
                &&& a.spreads@.len() == n
                &&& a.nominals@.len() == n
                &&& forall|i: int|
                    0 <= i < n ==> {
                        let c = #[trigger] self.coupons_spec()[i];
                        &&& a.start_dates@[i] == c.coupon.accrual_start_date
                        &&& a.fixing_dates@[i]@ == c.fixing_date_spec().unwrap()
                        &&& a.pay_dates@[i] == c.coupon.payment_date
                        &&& a.nominals@[i] == c.coupon.nominal
                        &&& a.gearings@[i] == c.gearing
                        &&& a.spreads@[i] == c.spread
                        &&& a.cap_rates@[i] == if has_cap(self.type_spec()) {
                            Some(self.cap_rates_spec()[i])
                        } else {
                            None
                        }
                        &&& a.floor_rates@[i] == if has_floor(self.type_spec()) {
                            Some(self.floor_rates_spec()[i])
                        } else {
                            None
                        }
                    }
            }),
    {
        proof {
            use_type_invariant(self);
        }
        let n = self.coupons.len();
        let uses_cap = match self.cap_floor_type {
            CapFloorType::Cap | CapFloorType::Collar => true,
            CapFloorType::Floor => false,
        };
        let uses_floor = match self.cap_floor_type {
            CapFloorType::Floor | CapFloorType::Collar => true,
            CapFloorType::Cap => false,
        };
        let mut start_dates: Vec<Date> = Vec::new();
        let mut fixing_dates: Vec<Date> = Vec::new();
        let mut pay_dates: Vec<Date> = Vec::new();
        let mut cap_rates: Vec<Option<R>> = Vec::new();
        let mut floor_rates: Vec<Option<R>> = Vec::new();
        let mut gearings: Vec<Option<R>> = Vec::new();
        let mut spreads: Vec<Option<R>> = Vec::new();
        let mut nominals: Vec<R> = Vec::new();
        let mut i: usize = 0;
        while i < n
            invariant
                n == self.coupons_spec().len(),
                uses_cap == has_cap(self.type_spec()),
                uses_floor == has_floor(self.type_spec()),
                has_cap(self.type_spec()) ==> self.cap_rates_spec().len() >= n,
                has_floor(self.type_spec()) ==> self.floor_rates_spec().len() >= n,
                forall|k: int|
                    0 <= k < self.coupons_spec().len() ==> (#[trigger] self.coupons_spec()[k]).fixing_date_defined(),
                i <= n,
                start_dates@.len() == i,
                fixing_dates@.len() == i,
                pay_dates@.len() == i,
                cap_rates@.len() == i,
                floor_rates@.len() == i,
                gearings@.len() == i,
                spreads@.len() == i,
                nominals@.len() == i,
                forall|k: int|
                    0 <= k < i ==> {
                        let c = #[trigger] self.coupons_spec()[k];
                        &&& start_dates@[k] == c.coupon.accrual_start_date
                        &&& fixing_dates@[k]@ == c.fixing_date_spec().unwrap()
                        &&& pay_dates@[k] == c.coupon.payment_date
                        &&& nominals@[k] == c.coupon.nominal
                        &&& gearings@[k] == c.gearing
                        &&& spreads@[k] == c.spread
                        &&& cap_rates@[k] == if has_cap(self.type_spec()) {
                            Some(self.cap_rates_spec()[k])
                        } else {
                            None
                        }
                        &&& floor_rates@[k] == if has_floor(self.type_spec()) {
                            Some(self.floor_rates_spec()[k])
                        } else {
                            None
                        }
                    },
            decreases n - i,
        {
            let coupon = &self.coupons[i];
            assert(coupon.fixing_date_defined());
            start_dates.push(coupon.coupon.accrual_start_date);
            fixing_dates.push(coupon.fixing_date());
            pay_dates.push(coupon.coupon.payment_date);
            nominals.push(coupon.coupon.nominal);
            gearings.push(coupon.gearing);
            spreads.push(coupon.spread);
            if uses_cap {
                cap_rates.push(Some(self.cap_rates[i]));
            } else {
                cap_rates.push(None);
            }
            if uses_floor {
                floor_rates.push(Some(self.floor_rates[i]));
            } else {
                floor_rates.push(None);
            }
            i = i + 1;
        }
        arguments.cap_floor_type = Some(self.cap_floor_type);
        arguments.index = Some(self.coupons[0].yoy_index.clone());
        arguments.observation_lag = Some(self.coupons[0].observation_lag);
        arguments.start_dates = start_dates;
        arguments.fixing_dates = fixing_dates;
        arguments.pay_dates = pay_dates;
        arguments.accrual_times = Vec::new();
        arguments.cap_rates = cap_rates;
        arguments.floor_rates = floor_rates;
        arguments.gearings = gearings;
        arguments.spreads = spreads;
        arguments.nominals = nominals;
    }

    /// The `n`-th optionlet: an instrument of the same type over that coupon
    /// alone, with the `n`-th of each strike the type uses. Refused past the
    /// end of the leg.
    pub fn optionlet(&self, n: usize) -> (r: Result<YoYInflationCapFloor<R, I>, QlError>)
        ensures
            n >= self.coupons_spec().len() ==> r == Err::<YoYInflationCapFloor<R, I>, QlError>(
                QlError::OptionletOutOfRange,
            ),
            n < self.coupons_spec().len() ==> (r matches Ok(c) && {
                let coupon = c.coupons_spec()[0];
                let source = self.coupons_spec()[n as int];
                &&& c.type_spec() == self.type_spec()
                &&& c.coupons_spec().len() == 1
                &&& coupon.coupon == source.coupon
                &&& cloned(source.yoy_index, coupon.yoy_index)
                &&& coupon.observation_lag == source.observation_lag
                &&& coupon.interpolation == source.interpolation
                &&& coupon.fixing_days == source.fixing_days
                &&& coupon.day_counter == source.day_counter
                &&& coupon.gearing == source.gearing
                &&& coupon.spread == source.spread
                &&& c.cap_rates_spec() == if has_cap(self.type_spec()) {
                    seq![self.cap_rates_spec()[n as int]]
                } else {
                    Seq::<R>::empty()
                }
                &&& c.floor_rates_spec() == if has_floor(self.type_spec()) {
                    seq![self.floor_rates_spec()[n as int]]
                } else {
                    Seq::<R>::empty()
                }
            }),
    {
        proof {
            use_type_invariant(self);
        }
        if n >= self.coupons.len() {
            return Err(QlError::OptionletOutOfRange);
        }
        let mut cap_rates: Vec<R> = Vec::new();
        let mut floor_rates: Vec<R> = Vec::new();
        match self.cap_floor_type {
            CapFloorType::Cap | CapFloorType::Collar => {
                cap_rates.push(self.cap_rates[n]);
            },
            CapFloorType::Floor => {},
        }
        match self.cap_floor_type {
            CapFloorType::Floor | CapFloorType::Collar => {
                floor_rates.push(self.floor_rates[n]);
            },
            CapFloorType::Cap => {},
        }
        let coupon = self.coupons[n].copied();
        let coupons = vec![coupon];
        assert(coupons@ =~= seq![coupon]);
        let ghost caps = cap_rates@;
        let ghost floors = floor_rates@;
        let r = YoYInflationCapFloor::new(self.cap_floor_type, coupons, cap_rates, floor_rates);
        assert(has_cap(self.cap_floor_type) ==> caps.len() == 1);
        assert(has_floor(self.cap_floor_type) ==> floors.len() == 1);
        assert(has_cap(self.cap_floor_type) ==> padded(caps, 1) == caps);
        assert(has_floor(self.cap_floor_type) ==> padded(floors, 1) == floors);
        r
    }
}

} // verus!
