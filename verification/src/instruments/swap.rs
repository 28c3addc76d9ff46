//! Swaps: instruments exchanging the flows of two or more legs.
use vstd::prelude::*;

use crate::cashflows::cashflow::{CashFlowDates, Leg};
use crate::cashflows::cashflows::{CashFlows, flow_end, flow_start, leg_wf};
use crate::errors::QlError;
use crate::time::date::Date;

verus! {

/// Whether a two-leg swap is seen from the receiver or the payer of the leg
/// it is named for.
#[derive(Clone, Copy, Debug, PartialEq, Eq, Structural, Hash)]
pub enum SwapType {
    /// The leg is received.
    Receiver,
    /// The leg is paid.
    Payer,
}

impl SwapType {
    /// The name of the side.
    pub fn name(&self) -> (r: String)
        ensures
            r@ == (match self {
                SwapType::Receiver => "Receiver"@,
                SwapType::Payer => "Payer"@,
            }),
    {
        match self {
            SwapType::Receiver => String::from_str("Receiver"),
            SwapType::Payer => String::from_str("Payer"),
        }
    }
}

/// The legs of a swap and, for each, whether it is paid; and the results a
/// pricing engine last delivered for them.
///
/// Results are carried as the engine represents them: nothing here computes
/// with them.
pub struct Swap<R> {
    legs: Vec<Leg>,
    payer: Vec<bool>,
    leg_npv: Vec<Option<R>>,
    leg_bps: Vec<Option<R>>,
    start_discounts: Vec<Option<R>>,
    end_discounts: Vec<Option<R>>,
    npv_date_discount: Option<R>,
    value: Option<R>,
}

/// What a pricing engine delivers for a swap: its value; per leg, its
/// value, its basis-point sensitivity and the discount factors at its start
/// and end; and the discount factor at the valuation date. An empty list or
/// an absent value means the engine did not compute that result.
pub struct SwapResults<R> {
    /// The value of the swap.
    pub value: Option<R>,
    /// The value of each leg.
    pub leg_npv: Vec<R>,
    /// The basis-point sensitivity of each leg.
    pub leg_bps: Vec<R>,
    /// The discount factor at the start of each leg.
    pub start_discounts: Vec<R>,
    /// The discount factor at the end of each leg.
    pub end_discounts: Vec<R>,
    /// The discount factor at the valuation date.
    pub npv_date_discount: Option<R>,
}

/// What a pricing engine is given for a swap: its legs and, for each, the
/// sign its flows are counted with.
pub struct SwapArguments<R> {
    /// The legs.
    pub legs: Vec<Leg>,
    /// The sign each leg's flows are counted with.
    pub payer: Vec<R>,
}

impl<R> SwapArguments<R> {
    /// Refuses arguments with a different number of legs and signs.
    pub fn validate(&self) -> (r: Result<(), QlError>)
        ensures
            r is Ok <==> self.legs@.len() == self.payer@.len(),
            r is Err ==> r == Err::<(), QlError>(QlError::LegMultiplierMismatch),
    {
        if self.legs.len() != self.payer.len() {
            return Err(QlError::LegMultiplierMismatch);
        }
        Ok(())
    }
}

/// A result a pricing engine delivered, or the error that it did not.
pub open spec fn available<R>(result: Option<R>) -> Result<R, QlError> {
    match result {
        Some(v) => Ok(v),
        None => Err(QlError::ResultNotAvailable),
    }
}

/// The results of one kind for every leg: none when the engine delivered
/// none, else the delivered ones.
pub open spec fn delivered<R>(results: Seq<R>, n: int) -> Seq<Option<R>> {
    if results.len() == 0 {
        Seq::new(n as nat, |i: int| None)
    } else {
        Seq::new(n as nat, |i: int| Some(results[i]))
    }
}

/// `n` results none delivered.
fn none_delivered<R>(n: usize) -> (r: Vec<Option<R>>)
    ensures
        r@ == Seq::new(n as nat, |i: int| None::<R>),
{
    let mut r: Vec<Option<R>> = Vec::new();
    let mut i: usize = 0;
    while i < n
        invariant
            i <= n,
            r@ == Seq::new(i as nat, |k: int| None::<R>),
        decreases n - i,
    {
        r.push(None);
        i = i + 1;
        assert(r@ =~= Seq::new(i as nat, |k: int| None::<R>));
    }
    r
}

/// The results of one kind for `n` legs, from what the engine delivered;
/// refused when it delivered some but not one per leg.
fn deliver<R: Copy>(results: &Vec<R>, n: usize, error: QlError) -> (r: Result<Vec<Option<R>>, QlError>)
    ensures
        r is Ok <==> (results@.len() == 0 || results@.len() == n),
        r is Err ==> r == Err::<Vec<Option<R>>, QlError>(error),
        r matches Ok(v) ==> v@ == delivered(results@, n as int),
{
    if results.len() == 0 {
        return Ok(none_delivered(n));
    }
    if results.len() != n {
        return Err(error);
    }
    let mut r: Vec<Option<R>> = Vec::new();
    let mut i: usize = 0;
    while i < n
        invariant
            i <= n,
            results@.len() == n,
            r@ == Seq::new(i as nat, |k: int| Some(results@[k])),
        decreases n - i,
    {
        r.push(Some(results[i]));
        i = i + 1;
        assert(r@ =~= Seq::new(i as nat, |k: int| Some(results@[k])));
    }
    Ok(r)
}

/// Whether a kind of per-leg result was delivered for none or for each of
/// `n` legs.
pub open spec fn delivered_count_ok<R>(results: Seq<R>, n: int) -> bool {
    results.len() == 0 || results.len() == n
}

/// The error a swap of `n` legs refuses `results` with, if any: values,
/// sensitivities, start and end discounts are checked in this order, each
/// to be delivered for none or for every leg.
pub open spec fn results_error<R>(n: int, results: SwapResults<R>) -> Option<QlError> {
    if !delivered_count_ok(results.leg_npv@, n) {
        Some(QlError::WrongLegNpvCount)
    } else if !delivered_count_ok(results.leg_bps@, n) {
        Some(QlError::WrongLegBpsCount)
    } else if !delivered_count_ok(results.start_discounts@, n) {
        Some(QlError::WrongStartDiscountCount)
    } else if !delivered_count_ok(results.end_discounts@, n) {
        Some(QlError::WrongEndDiscountCount)
    } else {
        None
    }
}

/// Every leg holds dates in the supported range.
pub open spec fn legs_wf(legs: Seq<Leg>) -> bool {
    forall|i: int| 0 <= i < legs.len() ==> leg_wf(#[trigger] legs[i]@)
}

/// Whether `d` is the earliest accrual start over every flow of every leg.
pub open spec fn is_earliest_start(legs: Seq<Leg>, d: int) -> bool {
    &&& exists|i: int, k: int|
        0 <= i < legs.len() && 0 <= k < legs[i]@.len() && d == flow_start(#[trigger] legs[i]@[k])
    &&& forall|i: int, k: int|
        0 <= i < legs.len() && 0 <= k < legs[i]@.len() ==> d <= flow_start(#[trigger] legs[i]@[k])
}

/// Whether `d` is the latest accrual end over every flow of every leg.
pub open spec fn is_latest_end(legs: Seq<Leg>, d: int) -> bool {
    &&& exists|i: int, k: int|
        0 <= i < legs.len() && 0 <= k < legs[i]@.len() && d == flow_end(#[trigger] legs[i]@[k])
    &&& forall|i: int, k: int|
        0 <= i < legs.len() && 0 <= k < legs[i]@.len() ==> flow_end(#[trigger] legs[i]@[k]) <= d
}

/// A copy of a leg.
pub fn copy_leg(leg: &Leg) -> (r: Leg)
    ensures
        r@ == leg@,
{
    let mut r: Leg = Vec::new();
    let mut i: usize = 0;
    while i < leg.len()
        invariant
            i <= leg.len(),
            r@ == leg@.subrange(0, i as int),
        decreases leg.len() - i,
    {
        r.push(leg[i]);
        i = i + 1;
        assert(r@ =~= leg@.subrange(0, i as int));
    }
    assert(leg@.subrange(0, leg.len() as int) =~= leg@);
    r
}

/// A copy of a list of legs.
fn copy_legs(legs: &Vec<Leg>) -> (r: Vec<Leg>)
    ensures
        r@.len() == legs@.len(),
        forall|j: int| 0 <= j < legs@.len() ==> (#[trigger] r@[j])@ == legs@[j]@,
{
    let mut r: Vec<Leg> = Vec::new();
    let mut j: usize = 0;
    while j < legs.len()
        invariant
            j <= legs.len(),
            r@.len() == j,
            forall|k: int| 0 <= k < j ==> (#[trigger] r@[k])@ == legs@[k]@,
        decreases legs.len() - j,
    {
        r.push(copy_leg(&legs[j]));
        j = j + 1;
    }
    r
}

impl<R> Swap<R> {
    /// Every leg has a payer flag and a slot for each result.
    #[verifier::type_invariant]
    spec fn inv(self) -> bool {
        &&& self.payer@.len() == self.legs@.len()
        &&& self.leg_npv@.len() == self.legs@.len()
        &&& self.leg_bps@.len() == self.legs@.len()
        &&& self.start_discounts@.len() == self.legs@.len()
        &&& self.end_discounts@.len() == self.legs@.len()
    }

    /// The value of each leg, when delivered.
    pub closed spec fn leg_npv_spec(&self) -> Seq<Option<R>> {
        self.leg_npv@
    }

    /// The basis-point sensitivity of each leg, when delivered.
    pub closed spec fn leg_bps_spec(&self) -> Seq<Option<R>> {
        self.leg_bps@
    }

    /// The discount factor at the start of each leg, when delivered.
    pub closed spec fn start_discounts_spec(&self) -> Seq<Option<R>> {
        self.start_discounts@
    }

    /// The discount factor at the end of each leg, when delivered.
    pub closed spec fn end_discounts_spec(&self) -> Seq<Option<R>> {
        self.end_discounts@
    }

    /// The discount factor at the valuation date, when delivered.
    pub closed spec fn npv_date_discount_spec(&self) -> Option<R> {
        self.npv_date_discount
    }

    /// The value of the swap, when delivered.
    pub closed spec fn value_spec(&self) -> Option<R> {
        self.value
    }

    /// The legs.
    pub closed spec fn legs_spec(&self) -> Seq<Leg> {
        self.legs@
    }

    /// The payer flags, one per leg.
    pub closed spec fn payer_spec(&self) -> Seq<bool> {
        self.payer@
    }

    /// A swap over `legs`, leg `j` paid when `payer[j]` holds and received
    /// otherwise.
    pub fn new(legs: Vec<Leg>, payer: Vec<bool>) -> (r: Result<Swap<R>, QlError>)
        ensures
            payer@.len() != legs@.len() ==> r is Err && r == Err::<Swap<R>, QlError>(
                QlError::PayerLegSizeMismatch,
            ),
            payer@.len() == legs@.len() ==> (r matches Ok(s) && s.legs_spec() == legs@
                && s.payer_spec() == payer@ && s.no_results()),
    {
        if payer.len() != legs.len() {
            return Err(QlError::PayerLegSizeMismatch);
        }
        let n = legs.len();
        Ok(
            Swap {
                legs,
                payer,
                leg_npv: none_delivered(n),
                leg_bps: none_delivered(n),
                start_discounts: none_delivered(n),
                end_discounts: none_delivered(n),
                npv_date_discount: None,
                value: None,
            },
        )
    }

    /// Whether the swap holds `results` as delivered for the legs of
    /// `before`, with the legs and payer flags of `before`.
    pub open spec fn has_fetched(&self, before: Swap<R>, results: SwapResults<R>) -> bool {
        let n = before.legs_spec().len() as int;
        &&& self.legs_spec() == before.legs_spec()
        &&& self.payer_spec() == before.payer_spec()
        &&& self.leg_npv_spec() == delivered(results.leg_npv@, n)
        &&& self.leg_bps_spec() == delivered(results.leg_bps@, n)
        &&& self.start_discounts_spec() == delivered(results.start_discounts@, n)
        &&& self.end_discounts_spec() == delivered(results.end_discounts@, n)
        &&& self.npv_date_discount_spec() == results.npv_date_discount
        &&& self.value_spec() == results.value
    }

    /// Whether the swap holds the legs, payer flags and results of `before`.
    pub open spec fn is_unchanged_from(&self, before: Swap<R>) -> bool {
        &&& self.legs_spec() == before.legs_spec()
        &&& self.payer_spec() == before.payer_spec()
        &&& self.leg_npv_spec() == before.leg_npv_spec()
        &&& self.leg_bps_spec() == before.leg_bps_spec()
        &&& self.start_discounts_spec() == before.start_discounts_spec()
        &&& self.end_discounts_spec() == before.end_discounts_spec()
        &&& self.npv_date_discount_spec() == before.npv_date_discount_spec()
        &&& self.value_spec() == before.value_spec()
    }

    /// Whether no result has been delivered yet.
    pub open spec fn no_results(&self) -> bool {
        &&& forall|j: int| 0 <= j < self.leg_npv_spec().len() ==> (#[trigger] self.leg_npv_spec()[j]) is None
        &&& forall|j: int| 0 <= j < self.leg_bps_spec().len() ==> (#[trigger] self.leg_bps_spec()[j]) is None
        &&& forall|j: int|
            0 <= j < self.start_discounts_spec().len() ==> (#[trigger] self.start_discounts_spec()[j]) is None
        &&& forall|j: int|
            0 <= j < self.end_discounts_spec().len() ==> (#[trigger] self.end_discounts_spec()[j]) is None
        &&& self.npv_date_discount_spec() is None
        &&& self.value_spec() is None
    }

    /// A swap paying `first_leg` and receiving `second_leg`.
    pub fn two_leg(first_leg: Leg, second_leg: Leg) -> (r: Swap<R>)
        ensures
            r.legs_spec() == seq![first_leg, second_leg],
            r.payer_spec() == seq![true, false],
            r.no_results(),
    {
        let legs = vec![first_leg, second_leg];
        let payer = vec![true, false];
        assert(legs@ =~= seq![first_leg, second_leg]);
        assert(payer@ =~= seq![true, false]);
        Swap {
            legs,
            payer,
            leg_npv: none_delivered(2),
            leg_bps: none_delivered(2),
            start_discounts: none_delivered(2),
            end_discounts: none_delivered(2),
            npv_date_discount: None,
            value: None,
        }
    }

    /// The number of legs.
    pub fn number_of_legs(&self) -> (r: usize)
        ensures
            r == self.legs_spec().len(),
    {
        self.legs.len()
    }

    /// All the legs.
    pub fn legs(&self) -> (r: &[Leg])
        ensures
            r@ == self.legs_spec(),
    {
        self.legs.as_slice()
    }

    /// The `j`-th leg.
    pub fn leg(&self, j: usize) -> (r: Result<&Leg, QlError>)
        ensures
            j >= self.legs_spec().len() ==> r == Err::<&Leg, QlError>(QlError::LegOutOfRange),
            j < self.legs_spec().len() ==> r == Ok::<&Leg, QlError>(&self.legs_spec()[j as int]),
    {
        if j >= self.legs.len() {
            return Err(QlError::LegOutOfRange);
        }
        Ok(&self.legs[j])
    }

    /// Whether the `j`-th leg is paid.
    pub fn payer(&self, j: usize) -> (r: Result<bool, QlError>)
        ensures
            j >= self.legs_spec().len() ==> r == Err::<bool, QlError>(QlError::LegOutOfRange),
            j < self.legs_spec().len() ==> r == Ok::<bool, QlError>(self.payer_spec()[j as int]),
    {
        proof {
            use_type_invariant(self);
        }
        if j >= self.legs.len() {
            return Err(QlError::LegOutOfRange);
        }
        Ok(self.payer[j])
    }

    /// The earliest start date over the legs.
    pub fn start_date(&self) -> (r: Result<Date, QlError>)
        requires
            legs_wf(self.legs_spec()),
        ensures
            self.legs_spec().len() == 0 ==> r == Err::<Date, QlError>(QlError::NoLegs),
            (self.legs_spec().len() > 0 && exists|i: int|
                0 <= i < self.legs_spec().len() && #[trigger] self.legs_spec()[i]@.len() == 0)
                ==> r == Err::<Date, QlError>(QlError::EmptyLeg),
            (self.legs_spec().len() > 0 && forall|i: int|
                0 <= i < self.legs_spec().len() ==> #[trigger] self.legs_spec()[i]@.len() > 0) ==> (
            r matches Ok(d) && d.wf() && is_earliest_start(self.legs_spec(), d@)),
    {
        if self.legs.len() == 0 {
            return Err(QlError::NoLegs);
        }
        let mut date = match CashFlows::start_date(&self.legs[0]) {
            Ok(d) => d,
            Err(e) => {
                return Err(e);
            },
        };
        proof {
            let first = self.legs@.subrange(0, 1);
            assert(first[0] == self.legs@[0]);
            assert forall|i: int, k: int|
                0 <= i < first.len() && 0 <= k < first[i]@.len() implies date@ <= flow_start(
                #[trigger] first[i]@[k],
            ) by {
                assert(i == 0);
            }
            let k = choose|k: int|
                0 <= k < self.legs@[0]@.len() && date@ == flow_start(#[trigger] self.legs@[0]@[k]);
            assert(date@ == flow_start(first[0]@[k]));
        }
        let mut j: usize = 1;
        while j < self.legs.len()
            invariant
                1 <= j <= self.legs@.len(),
                legs_wf(self.legs@),
                date.wf(),
                forall|i: int| 0 <= i < j ==> #[trigger] self.legs@[i]@.len() > 0,
                is_earliest_start(self.legs@.subrange(0, j as int), date@),
            decreases self.legs@.len() - j,
        {
            let next = match CashFlows::start_date(&self.legs[j]) {
                Ok(d) => d,
                Err(e) => {
                    return Err(e);
                },
            };
            let ghost prev = self.legs@.subrange(0, j as int);
            let ghost grown = self.legs@.subrange(0, j + 1);
            if next.is_before(&date) {
                date = next;
            }
            assert forall|i: int, k: int|
                0 <= i < grown.len() && 0 <= k < grown[i]@.len() implies date@ <= flow_start(
                #[trigger] grown[i]@[k],
            ) by {
                if i < j {
                    assert(grown[i] == prev[i]);
                }
            }
            assert(exists|i: int, k: int|
                0 <= i < grown.len() && 0 <= k < grown[i]@.len() && date@ == flow_start(
                    #[trigger] grown[i]@[k],
                )) by {
                if date@ == next@ {
                    let k = choose|k: int|
                        0 <= k < self.legs@[j as int]@.len() && next@ == flow_start(
                            #[trigger] self.legs@[j as int]@[k],
                        );
                    assert(grown[j as int] == self.legs@[j as int]);
                    assert(date@ == flow_start(grown[j as int]@[k]));
                } else {
                    let (i, k) = choose|i: int, k: int|
                        0 <= i < prev.len() && 0 <= k < prev[i]@.len() && date@ == flow_start(
                            #[trigger] prev[i]@[k],
                        );
                    assert(grown[i] == prev[i]);
                    assert(date@ == flow_start(grown[i]@[k]));
                }
            }
            j = j + 1;
        }
        assert(self.legs@.subrange(0, self.legs@.len() as int) =~= self.legs@);
        Ok(date)
    }

    /// The latest maturity date over the legs.
    pub fn maturity_date(&self) -> (r: Result<Date, QlError>)
        requires
            legs_wf(self.legs_spec()),
        ensures
            self.legs_spec().len() == 0 ==> r == Err::<Date, QlError>(QlError::NoLegs),
            (self.legs_spec().len() > 0 && exists|i: int|
                0 <= i < self.legs_spec().len() && #[trigger] self.legs_spec()[i]@.len() == 0)
                ==> r == Err::<Date, QlError>(QlError::EmptyLeg),
            (self.legs_spec().len() > 0 && forall|i: int|
                0 <= i < self.legs_spec().len() ==> #[trigger] self.legs_spec()[i]@.len() > 0) ==> (
            r matches Ok(d) && d.wf() && is_latest_end(self.legs_spec(), d@)),
    {
        if self.legs.len() == 0 {
            return Err(QlError::NoLegs);
        }
        let mut date = match CashFlows::maturity_date(&self.legs[0]) {
            Ok(d) => d,
            Err(e) => {
                return Err(e);
            },
        };
        proof {
            let first = self.legs@.subrange(0, 1);
            assert(first[0] == self.legs@[0]);
            assert forall|i: int, k: int|
                0 <= i < first.len() && 0 <= k < first[i]@.len() implies flow_end(
                #[trigger] first[i]@[k],
            ) <= date@ by {
                assert(i == 0);
            }
            let k = choose|k: int|
                0 <= k < self.legs@[0]@.len() && date@ == flow_end(#[trigger] self.legs@[0]@[k]);
            assert(date@ == flow_end(first[0]@[k]));
        }
        let mut j: usize = 1;
        while j < self.legs.len()
            invariant
                1 <= j <= self.legs@.len(),
                legs_wf(self.legs@),
                date.wf(),
                forall|i: int| 0 <= i < j ==> #[trigger] self.legs@[i]@.len() > 0,
                is_latest_end(self.legs@.subrange(0, j as int), date@),
            decreases self.legs@.len() - j,
        {
            let next = match CashFlows::maturity_date(&self.legs[j]) {
                Ok(d) => d,
                Err(e) => {
                    return Err(e);
                },
            };
            let ghost prev = self.legs@.subrange(0, j as int);
            let ghost grown = self.legs@.subrange(0, j + 1);
            if date.is_before(&next) {
                date = next;
            }
            assert forall|i: int, k: int|
                0 <= i < grown.len() && 0 <= k < grown[i]@.len() implies flow_end(
                #[trigger] grown[i]@[k],
            ) <= date@ by {
                if i < j {
                    assert(grown[i] == prev[i]);
                }
            }
            assert(exists|i: int, k: int|
                0 <= i < grown.len() && 0 <= k < grown[i]@.len() && date@ == flow_end(
                    #[trigger] grown[i]@[k],
                )) by {
                if date@ == next@ {
                    let k = choose|k: int|
                        0 <= k < self.legs@[j as int]@.len() && next@ == flow_end(
                            #[trigger] self.legs@[j as int]@[k],
                        );
                    assert(grown[j as int] == self.legs@[j as int]);
                    assert(date@ == flow_end(grown[j as int]@[k]));
                } else {
                    let (i, k) = choose|i: int, k: int|
                        0 <= i < prev.len() && 0 <= k < prev[i]@.len() && date@ == flow_end(
                            #[trigger] prev[i]@[k],
                        );
                    assert(grown[i] == prev[i]);
                    assert(date@ == flow_end(grown[i]@[k]));
                }
            }
            j = j + 1;
        }
        assert(self.legs@.subrange(0, self.legs@.len() as int) =~= self.legs@);
        Ok(date)
    }
}

impl<R: Copy> Swap<R> {
    /// The value of the `j`-th leg, as the pricing engine last delivered it.
    pub fn leg_npv(&self, j: usize) -> (r: Result<R, QlError>)
        ensures
            r == if j >= self.legs_spec().len() {
                Err(QlError::LegOutOfRange)
            } else {
                available(self.leg_npv_spec()[j as int])
            },
    {
        proof {
            use_type_invariant(self);
        }
        if j >= self.legs.len() {
            return Err(QlError::LegOutOfRange);
        }
        match self.leg_npv[j] {
            Some(v) => Ok(v),
            None => Err(QlError::ResultNotAvailable),
        }
    }

    /// The basis-point sensitivity of the `j`-th leg, as the pricing engine
    /// last delivered it.
    pub fn leg_bps(&self, j: usize) -> (r: Result<R, QlError>)
        ensures
            r == if j >= self.legs_spec().len() {
                Err(QlError::LegOutOfRange)
            } else {
                available(self.leg_bps_spec()[j as int])
            },
    {
        proof {
            use_type_invariant(self);
        }
        if j >= self.legs.len() {
            return Err(QlError::LegOutOfRange);
        }
        match self.leg_bps[j] {
            Some(v) => Ok(v),
            None => Err(QlError::ResultNotAvailable),
        }
    }

    /// The discount factor at the start of the `j`-th leg, as the pricing
    /// engine last delivered it.
    pub fn start_discounts(&self, j: usize) -> (r: Result<R, QlError>)
        ensures
            r == if j >= self.legs_spec().len() {
                Err(QlError::LegOutOfRange)
            } else {
                available(self.start_discounts_spec()[j as int])
            },
    {
        proof {
            use_type_invariant(self);
        }
        if j >= self.legs.len() {
            return Err(QlError::LegOutOfRange);
        }
        match self.start_discounts[j] {
            Some(v) => Ok(v),
            None => Err(QlError::ResultNotAvailable),
        }
    }

    /// The discount factor at the end of the `j`-th leg, as the pricing
    /// engine last delivered it.
    pub fn end_discounts(&self, j: usize) -> (r: Result<R, QlError>)
        ensures
            r == if j >= self.legs_spec().len() {
                Err(QlError::LegOutOfRange)
            } else {
                available(self.end_discounts_spec()[j as int])
            },
    {
        proof {
            use_type_invariant(self);
        }
        if j >= self.legs.len() {
            return Err(QlError::LegOutOfRange);
        }
        match self.end_discounts[j] {
            Some(v) => Ok(v),
            None => Err(QlError::ResultNotAvailable),
        }
    }

    /// The value of the swap, as the pricing engine last delivered it.
    pub fn npv(&self) -> (r: Result<R, QlError>)
        ensures
            r == available(self.value_spec()),
    {
        match self.value {
            Some(v) => Ok(v),
            None => Err(QlError::ResultNotAvailable),
        }
    }

    /// The discount factor at the valuation date, as the pricing engine last
    /// delivered it.
    pub fn npv_date_discount(&self) -> (r: Result<R, QlError>)
        ensures
            r == available(self.npv_date_discount_spec()),
    {
        match self.npv_date_discount {
            Some(v) => Ok(v),
            None => Err(QlError::ResultNotAvailable),
        }
    }

    /// Records what a pricing engine delivered: each kind of per-leg result
    /// is cleared when none was delivered and taken as delivered otherwise;
    /// refused, in this order, when values, sensitivities, start or end
    /// discounts were delivered but not one per leg. The legs do not change.
    pub fn fetch_results(&mut self, results: &SwapResults<R>) -> (r: Result<(), QlError>)
        ensures
            r is Ok <==> results_error(old(self).legs_spec().len() as int, *results) is None,
            r is Err ==> r == Err::<(), QlError>(
                results_error(old(self).legs_spec().len() as int, *results).unwrap(),
            ),
            r is Ok ==> final(self).has_fetched(*old(self), *results),
            r is Err ==> final(self).is_unchanged_from(*old(self)),
            ({
                let n = old(self).legs_spec().len() as int;
                let ok = |v: Seq<R>| v.len() == 0 || v.len() == n;
                &&& r is Ok <==> (ok(results.leg_npv@) && ok(results.leg_bps@) && ok(
                    results.start_discounts@,
                ) && ok(results.end_discounts@))
                &&& r is Err ==> r == Err::<(), QlError>(
                    if !ok(results.leg_npv@) {
                        QlError::WrongLegNpvCount
                    } else if !ok(results.leg_bps@) {
                        QlError::WrongLegBpsCount
                    } else if !ok(results.start_discounts@) {
                        QlError::WrongStartDiscountCount
                    } else {
                        QlError::WrongEndDiscountCount
                    },
                )
                &&& r is Err ==> final(self).leg_npv_spec() == old(self).leg_npv_spec()
                    && final(self).leg_bps_spec() == old(self).leg_bps_spec()
                    && final(self).start_discounts_spec() == old(self).start_discounts_spec()
                    && final(self).end_discounts_spec() == old(self).end_discounts_spec()
                    && final(self).npv_date_discount_spec() == old(self).npv_date_discount_spec()
                    && final(self).value_spec() == old(self).value_spec()
                &&& r is Ok ==> final(self).leg_npv_spec() == delivered(results.leg_npv@, n)
                    && final(self).leg_bps_spec() == delivered(results.leg_bps@, n)
                    && final(self).start_discounts_spec() == delivered(results.start_discounts@, n)
                    && final(self).end_discounts_spec() == delivered(results.end_discounts@, n)
                    && final(self).npv_date_discount_spec() == results.npv_date_discount
                    && final(self).value_spec() == results.value
                &&& final(self).legs_spec() == old(self).legs_spec()
                &&& final(self).payer_spec() == old(self).payer_spec()
            }),
    {
        proof {
            use_type_invariant(&*self);
        }
        let n = self.legs.len();
        let leg_npv = match deliver(&results.leg_npv, n, QlError::WrongLegNpvCount) {
            Ok(v) => v,
            Err(e) => {
                return Err(e);
            },
        };
        let leg_bps = match deliver(&results.leg_bps, n, QlError::WrongLegBpsCount) {
            Ok(v) => v,
            Err(e) => {
                return Err(e);
            },
        };
        let start_discounts = match deliver(&results.start_discounts, n, QlError::WrongStartDiscountCount) {
            Ok(v) => v,
            Err(e) => {
                return Err(e);
            },
        };
        let end_discounts = match deliver(&results.end_discounts, n, QlError::WrongEndDiscountCount) {
            Ok(v) => v,
            Err(e) => {
                return Err(e);
            },
        };
        self.leg_npv = leg_npv;
        self.leg_bps = leg_bps;
        self.start_discounts = start_discounts;
        self.end_discounts = end_discounts;
        self.npv_date_discount = results.npv_date_discount;
        self.value = results.value;
        Ok(())
    }
}

impl<R: From<i32>> Swap<R> {
    /// Fills `arguments` for a pricing engine: a copy of the legs, and for
    /// each the sign its flows are counted with, `-1` for a paid leg and
    /// `1` for a received one, as `From` gives them.
    pub fn setup_arguments(&self, arguments: &mut SwapArguments<R>)
        ensures
            final(arguments).legs@.len() == self.legs_spec().len(),
            forall|j: int|
                0 <= j < self.legs_spec().len() ==> (#[trigger] final(arguments).legs@[j])@
                    == self.legs_spec()[j]@,
            final(arguments).payer@.len() == self.payer_spec().len(),
            forall|j: int|
                0 <= j < self.payer_spec().len() ==> call_ensures(
                    <R as From<i32>>::from,
                    (if self.payer_spec()[j] {
                        -1i32
                    } else {
                        1i32
                    },),
                    #[trigger] final(arguments).payer@[j],
                ),
    {
        arguments.legs = copy_legs(&self.legs);
        let mut signs: Vec<R> = Vec::new();
        let mut j: usize = 0;
        while j < self.payer.len()
            invariant
                j <= self.payer@.len(),
                signs@.len() == j,
                forall|k: int|
                    0 <= k < j ==> call_ensures(
                        <R as From<i32>>::from,
                        (if self.payer@[k] {
                            -1i32
                        } else {
                            1i32
                        },),
                        #[trigger] signs@[k],
                    ),
            decreases self.payer.len() - j,
        {
            let sign: i32 = if self.payer[j] {
                -1
            } else {
                1
            };
            signs.push(R::from(sign));
            j = j + 1;
        }
        arguments.payer = signs;
    }
}

} // verus!
