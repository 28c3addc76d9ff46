//! Analytics over a leg: the dates it spans and the flows around a date.
use vstd::prelude::*;

use crate::cashflows::cashflow::{
    CashFlowDates, Leg, has_occurred, includes_reference_date, occurred, reference_date,
};
use crate::errors::QlError;
use crate::settings::Settings;
use crate::time::date::Date;

verus! {

/// The date a flow starts accruing from: its accrual start for a coupon,
/// its payment date for anything else.
pub open spec fn flow_start(f: CashFlowDates) -> int {
    match f.accrual {
        Some(a) => a.start@,
        None => f.date@,
    }
}

/// The date a flow accrues to: its accrual end for a coupon, its payment
/// date for anything else.
pub open spec fn flow_end(f: CashFlowDates) -> int {
    match f.accrual {
        Some(a) => a.end@,
        None => f.date@,
    }
}

/// Every flow of the leg carries dates in the supported range.
pub open spec fn leg_wf(leg: Seq<CashFlowDates>) -> bool {
    forall|i: int| 0 <= i < leg.len() ==> #[trigger] leg[i].wf()
}

/// Whether flow `j` of `leg` has occurred by `reference` under `inc`.
pub open spec fn flow_occurred(leg: Seq<CashFlowDates>, j: int, reference: Date, inc: bool) -> bool {
    occurred(leg[j].date, reference, inc)
}

/// The index of the last flow of `leg` that has occurred, if any.
pub open spec fn last_occurred(leg: Seq<CashFlowDates>, reference: Date, inc: bool, o: Option<
    usize,
>) -> bool {
    match o {
        Some(i) => i < leg.len() && flow_occurred(leg, i as int, reference, inc) && forall|j: int|
            i < j < leg.len() ==> !#[trigger] flow_occurred(leg, j, reference, inc),
        None => forall|j: int| 0 <= j < leg.len() ==> !#[trigger] flow_occurred(leg, j, reference, inc),
    }
}

/// The index of the first flow of `leg` that has not occurred, if any.
pub open spec fn first_pending(leg: Seq<CashFlowDates>, reference: Date, inc: bool, o: Option<
    usize,
>) -> bool {
    match o {
        Some(i) => i < leg.len() && !flow_occurred(leg, i as int, reference, inc) && forall|j: int|
            0 <= j < i ==> #[trigger] flow_occurred(leg, j, reference, inc),
        None => forall|j: int| 0 <= j < leg.len() ==> #[trigger] flow_occurred(leg, j, reference, inc),
    }
}

/// The analytics over a leg.
pub struct CashFlows;

impl CashFlows {
    /// The earliest date the leg accrues from: the first accrual start over
    /// the coupons, and the payment date of anything that is not one.
    pub fn start_date(leg: &Leg) -> (r: Result<Date, QlError>)
        requires
            leg_wf(leg@),
        ensures
            leg@.len() == 0 ==> r == Err::<Date, QlError>(QlError::EmptyLeg),
            leg@.len() > 0 ==> (r matches Ok(d) && d.wf() && (exists|i: int|
                0 <= i < leg@.len() && d@ == flow_start(#[trigger] leg@[i])) && forall|i: int|
                0 <= i < leg@.len() ==> d@ <= flow_start(#[trigger] leg@[i])),
    {
        if leg.len() == 0 {
            return Err(QlError::EmptyLeg);
        }
        let mut best = Self::accrual_start_or_payment(&leg[0]);
        let mut k: usize = 1;
        assert(best@ == flow_start(leg@[0]));
        while k < leg.len()
            invariant
                1 <= k <= leg@.len(),
                leg_wf(leg@),
                best.wf(),
                exists|i: int| 0 <= i < k && best@ == flow_start(#[trigger] leg@[i]),
                forall|i: int| 0 <= i < k ==> best@ <= flow_start(#[trigger] leg@[i]),
            decreases leg@.len() - k,
        {
            let candidate = Self::accrual_start_or_payment(&leg[k]);
            if candidate.is_before(&best) {
                best = candidate;
            }
            k = k + 1;
        }
        Ok(best)
    }

    /// The latest date the leg accrues to: the last accrual end over the
    /// coupons, and the payment date of anything that is not one.
    pub fn maturity_date(leg: &Leg) -> (r: Result<Date, QlError>)
        requires
            leg_wf(leg@),
        ensures
            leg@.len() == 0 ==> r == Err::<Date, QlError>(QlError::EmptyLeg),
            leg@.len() > 0 ==> (r matches Ok(d) && d.wf() && (exists|i: int|
                0 <= i < leg@.len() && d@ == flow_end(#[trigger] leg@[i])) && forall|i: int|
                0 <= i < leg@.len() ==> flow_end(#[trigger] leg@[i]) <= d@),
    {
        if leg.len() == 0 {
            return Err(QlError::EmptyLeg);
        }
        let mut best = Self::accrual_end_or_payment(&leg[0]);
        let mut k: usize = 1;
        assert(best@ == flow_end(leg@[0]));
        while k < leg.len()
            invariant
                1 <= k <= leg@.len(),
                leg_wf(leg@),
                best.wf(),
                exists|i: int| 0 <= i < k && best@ == flow_end(#[trigger] leg@[i]),
                forall|i: int| 0 <= i < k ==> flow_end(#[trigger] leg@[i]) <= best@,
            decreases leg@.len() - k,
        {
            let candidate = Self::accrual_end_or_payment(&leg[k]);
            if best.is_before(&candidate) {
                best = candidate;
            }
            k = k + 1;
        }
        Ok(best)
    }

    /// The index of the last flow paying before or at the settlement date
    /// (the evaluation date when none is given).
    pub fn previous_cash_flow(
        leg: &Leg,
        settings: &Settings,
        include_settlement_date_flows: Option<bool>,
        settlement_date: Option<Date>,
    ) -> (r: Result<Option<usize>, QlError>)
        ensures
            leg@.len() == 0 ==> r == Ok::<Option<usize>, QlError>(None),
            leg@.len() > 0 && reference_date(*settings, settlement_date) is None ==> r == Err::<
                Option<usize>,
                QlError,
            >(QlError::NoReferenceDate),
            reference_date(*settings, settlement_date) matches Some(reference) ==> (r matches Ok(o)
                && last_occurred(
                leg@,
                reference,
                includes_reference_date(*settings, settlement_date, include_settlement_date_flows),
                o,
            )),
    {
        let ghost inc = includes_reference_date(
            *settings,
            settlement_date,
            include_settlement_date_flows,
        );
        let ghost reference: Date = reference_date(*settings, settlement_date).unwrap();
        let mut k = leg.len();
        while k > 0
            invariant
                k <= leg@.len(),
                inc == includes_reference_date(
                    *settings,
                    settlement_date,
                    include_settlement_date_flows,
                ),
                reference_date(*settings, settlement_date) is Some ==> reference_date(
                    *settings,
                    settlement_date,
                ) == Some(reference),
                reference_date(*settings, settlement_date) is Some ==> forall|j: int|
                    k <= j < leg@.len() ==> !#[trigger] flow_occurred(leg@, j, reference, inc),
                k < leg@.len() ==> reference_date(*settings, settlement_date) is Some,
            decreases k,
        {
            let index = k - 1;
            let occurred_here = has_occurred(
                leg[index].date(),
                settings,
                settlement_date,
                include_settlement_date_flows,
            );
            match occurred_here {
                Ok(b) => {
                    assert(b == flow_occurred(leg@, index as int, reference, inc));
                    if b {
                        return Ok(Some(index));
                    }
                },
                Err(e) => {
                    return Err(e);
                },
            }
            k = index;
        }
        Ok(None)
    }

    /// The index of the first flow paying after the settlement date (the
    /// evaluation date when none is given).
    pub fn next_cash_flow(
        leg: &Leg,
        settings: &Settings,
        include_settlement_date_flows: Option<bool>,
        settlement_date: Option<Date>,
    ) -> (r: Result<Option<usize>, QlError>)
        ensures
            leg@.len() == 0 ==> r == Ok::<Option<usize>, QlError>(None),
            leg@.len() > 0 && reference_date(*settings, settlement_date) is None ==> r == Err::<
                Option<usize>,
                QlError,
            >(QlError::NoReferenceDate),
            reference_date(*settings, settlement_date) matches Some(reference) ==> (r matches Ok(o)
                && first_pending(
                leg@,
                reference,
                includes_reference_date(*settings, settlement_date, include_settlement_date_flows),
                o,
            )),
    {
        let ghost inc = includes_reference_date(
            *settings,
            settlement_date,
            include_settlement_date_flows,
        );
        let ghost reference: Date = reference_date(*settings, settlement_date).unwrap();
        let mut k: usize = 0;
        while k < leg.len()
            invariant
                k <= leg@.len(),
                inc == includes_reference_date(
                    *settings,
                    settlement_date,
                    include_settlement_date_flows,
                ),
                reference_date(*settings, settlement_date) is Some ==> reference_date(
                    *settings,
                    settlement_date,
                ) == Some(reference),
                reference_date(*settings, settlement_date) is Some ==> forall|j: int|
                    0 <= j < k ==> #[trigger] flow_occurred(leg@, j, reference, inc),
                k > 0 ==> reference_date(*settings, settlement_date) is Some,
            decreases leg@.len() - k,
        {
            let occurred_here = has_occurred(
                leg[k].date(),
                settings,
                settlement_date,
                include_settlement_date_flows,
            );
            match occurred_here {
                Ok(b) => {
                    assert(b == flow_occurred(leg@, k as int, reference, inc));
                    if !b {
                        return Ok(Some(k));
                    }
                },
                Err(e) => {
                    return Err(e);
                },
            }
            k = k + 1;
        }
        Ok(None)
    }

    /// The payment date of the [`previous_cash_flow`](Self::previous_cash_flow).
    pub fn previous_cash_flow_date(
        leg: &Leg,
        settings: &Settings,
        include_settlement_date_flows: Option<bool>,
        settlement_date: Option<Date>,
    ) -> (r: Result<Option<Date>, QlError>)
        ensures
            leg@.len() == 0 ==> r == Ok::<Option<Date>, QlError>(None),
            leg@.len() > 0 && reference_date(*settings, settlement_date) is None ==> r == Err::<
                Option<Date>,
                QlError,
            >(QlError::NoReferenceDate),
            reference_date(*settings, settlement_date) matches Some(reference) ==> (r matches Ok(o)
                && exists|i: Option<usize>|
                last_occurred(
                    leg@,
                    reference,
                    includes_reference_date(
                        *settings,
                        settlement_date,
                        include_settlement_date_flows,
                    ),
                    i,
                ) && #[trigger] date_at(leg@, i) == o),
    {
        let found = Self::previous_cash_flow(
            leg,
            settings,
            include_settlement_date_flows,
            settlement_date,
        );
        match found {
            Ok(o) => {
                let r = match o {
                    Some(index) => Some(leg[index].date()),
                    None => None,
                };
                assert(date_at(leg@, o) == r);
                Ok(r)
            },
            Err(e) => Err(e),
        }
    }

    /// The payment date of the [`next_cash_flow`](Self::next_cash_flow).
    pub fn next_cash_flow_date(
        leg: &Leg,
        settings: &Settings,
        include_settlement_date_flows: Option<bool>,
        settlement_date: Option<Date>,
    ) -> (r: Result<Option<Date>, QlError>)
        ensures
            leg@.len() == 0 ==> r == Ok::<Option<Date>, QlError>(None),
            leg@.len() > 0 && reference_date(*settings, settlement_date) is None ==> r == Err::<
                Option<Date>,
                QlError,
            >(QlError::NoReferenceDate),
            reference_date(*settings, settlement_date) matches Some(reference) ==> (r matches Ok(o)
                && exists|i: Option<usize>|
                first_pending(
                    leg@,
                    reference,
                    includes_reference_date(
                        *settings,
                        settlement_date,
                        include_settlement_date_flows,
                    ),
                    i,
                ) && #[trigger] date_at(leg@, i) == o),
    {
        let found = Self::next_cash_flow(leg, settings, include_settlement_date_flows, settlement_date);
        match found {
            Ok(o) => {
                let r = match o {
                    Some(index) => Some(leg[index].date()),
                    None => None,
                };
                assert(date_at(leg@, o) == r);
                Ok(r)
            },
            Err(e) => Err(e),
        }
    }

    /// The flows paying on the date of the
    /// [`previous_cash_flow`](Self::previous_cash_flow), as the half-open index
    /// range `[lo, hi)`: the previous flow is the last of them, and the range
    /// reaches back over every flow before it on the same date. The total
    /// paid on that date is the sum of their amounts.
    pub fn previous_cash_flow_range(
        leg: &Leg,
        settings: &Settings,
        include_settlement_date_flows: Option<bool>,
        settlement_date: Option<Date>,
    ) -> (r: Result<Option<(usize, usize)>, QlError>)
        ensures
            leg@.len() == 0 ==> r == Ok::<Option<(usize, usize)>, QlError>(None),
            leg@.len() > 0 && reference_date(*settings, settlement_date) is None ==> r == Err::<
                Option<(usize, usize)>,
                QlError,
            >(QlError::NoReferenceDate),
            reference_date(*settings, settlement_date) matches Some(reference) ==> (r matches Ok(o)
                && match o {
                None => last_occurred(
                    leg@,
                    reference,
                    includes_reference_date(
                        *settings,
                        settlement_date,
                        include_settlement_date_flows,
                    ),
                    None,
                ),
                Some((lo, hi)) => hi >= 1 && last_occurred(
                    leg@,
                    reference,
                    includes_reference_date(
                        *settings,
                        settlement_date,
                        include_settlement_date_flows,
                    ),
                    Some((hi - 1) as usize),
                ) && same_date_run(leg@, lo as int, hi as int, (hi - 1) as int),
            }),
    {
        let found = Self::previous_cash_flow(
            leg,
            settings,
            include_settlement_date_flows,
            settlement_date,
        );
        let index = match found {
            Ok(Some(i)) => i,
            Ok(None) => {
                return Ok(None);
            },
            Err(e) => {
                return Err(e);
            },
        };
        let ghost inc = includes_reference_date(
            *settings,
            settlement_date,
            include_settlement_date_flows,
        );
        let ghost reference: Date = reference_date(*settings, settlement_date).unwrap();
        let n = leg.len();
        assert(index < n);
        if index + 1 < n {
            assert(!flow_occurred(leg@, index + 1, reference, inc));
            assert(leg@[index + 1].date != leg@[index as int].date);
        }
        let payment = leg[index].date();
        let mut lo = index;
        while lo > 0 && leg[lo - 1].date() == payment
            invariant
                lo <= index < leg@.len(),
                payment == leg@[index as int].date,
                forall|k: int| lo <= k <= index ==> #[trigger] leg@[k].date == payment,
            decreases lo,
        {
            lo = lo - 1;
        }
        Ok(Some((lo, index + 1)))
    }

    /// The flows paying on the date of the
    /// [`next_cash_flow`](Self::next_cash_flow), as the half-open index range
    /// `[lo, hi)`: the next flow is the first of them, and the range reaches
    /// on over every flow after it on the same date. The total paid on that
    /// date is the sum of their amounts.
    pub fn next_cash_flow_range(
        leg: &Leg,
        settings: &Settings,
        include_settlement_date_flows: Option<bool>,
        settlement_date: Option<Date>,
    ) -> (r: Result<Option<(usize, usize)>, QlError>)
        ensures
            leg@.len() == 0 ==> r == Ok::<Option<(usize, usize)>, QlError>(None),
            leg@.len() > 0 && reference_date(*settings, settlement_date) is None ==> r == Err::<
                Option<(usize, usize)>,
                QlError,
            >(QlError::NoReferenceDate),
            reference_date(*settings, settlement_date) matches Some(reference) ==> (r matches Ok(o)
                && match o {
                None => first_pending(
                    leg@,
                    reference,
                    includes_reference_date(
                        *settings,
                        settlement_date,
                        include_settlement_date_flows,
                    ),
                    None,
                ),
                Some((lo, hi)) => first_pending(
                    leg@,
                    reference,
                    includes_reference_date(
                        *settings,
                        settlement_date,
                        include_settlement_date_flows,
                    ),
                    Some(lo),
                ) && same_date_run(leg@, lo as int, hi as int, lo as int),
            }),
    {
        let found = Self::next_cash_flow(leg, settings, include_settlement_date_flows, settlement_date);
        let index = match found {
            Ok(Some(i)) => i,
            Ok(None) => {
                return Ok(None);
            },
            Err(e) => {
                return Err(e);
            },
        };
        let ghost inc = includes_reference_date(
            *settings,
            settlement_date,
            include_settlement_date_flows,
        );
        let ghost reference: Date = reference_date(*settings, settlement_date).unwrap();
        let n = leg.len();
        assert(index < n);
        if index > 0 {
            assert(flow_occurred(leg@, index - 1, reference, inc));
            assert(leg@[index - 1].date != leg@[index as int].date);
        }
        let payment = leg[index].date();
        let mut hi = index + 1;
        while hi < leg.len() && leg[hi].date() == payment
            invariant
                index < hi <= leg@.len(),
                payment == leg@[index as int].date,
                forall|k: int| index <= k < hi ==> #[trigger] leg@[k].date == payment,
            decreases leg@.len() - hi,
        {
            hi = hi + 1;
        }
        Ok(Some((index, hi)))
    }

    fn accrual_start_or_payment(flow: &CashFlowDates) -> (r: Date)
        requires
            flow.wf(),
        ensures
            r@ == flow_start(*flow),
            r.wf(),
    {
        match flow.accrual {
            Some(a) => a.start,
            None => flow.date,
        }
    }

    fn accrual_end_or_payment(flow: &CashFlowDates) -> (r: Date)
        requires
            flow.wf(),
        ensures
            r@ == flow_end(*flow),
            r.wf(),
    {
        match flow.accrual {
            Some(a) => a.end,
            None => flow.date,
        }
    }
}

/// The payment date of the flow at an optional index.
pub open spec fn date_at(leg: Seq<CashFlowDates>, i: Option<usize>) -> Option<Date> {
    match i {
        Some(k) => Some(leg[k as int].date),
        None => None,
    }
}


/// `[lo, hi)` is the maximal run of consecutive flows of `leg` around flow
/// `at` paying on the same date as it.
pub open spec fn same_date_run(leg: Seq<CashFlowDates>, lo: int, hi: int, at: int) -> bool {
    &&& 0 <= lo <= at < hi <= leg.len()
    &&& forall|k: int| lo <= k < hi ==> #[trigger] leg[k].date == leg[at].date
    &&& lo > 0 ==> leg[lo - 1].date != leg[at].date
    &&& hi < leg.len() ==> leg[hi].date != leg[at].date
}

/// The payment dates of `leg` never decrease.
pub open spec fn payment_dates_sorted(leg: Seq<CashFlowDates>) -> bool {
    forall|i: int, j: int| 0 <= i <= j < leg.len() ==> leg[i].date@ <= leg[j].date@
}

/// Over a leg whose payment dates never decrease, the next flow is the one
/// right after the previous flow: the first of the leg when none has
/// occurred, and none when the last has.
pub proof fn lemma_previous_next_adjacent(
    leg: Seq<CashFlowDates>,
    reference: Date,
    inc: bool,
    previous: Option<usize>,
    next: Option<usize>,
)
    requires
        payment_dates_sorted(leg),
        last_occurred(leg, reference, inc, previous),
        first_pending(leg, reference, inc, next),
    ensures
        match previous {
            None => next == (if leg.len() > 0 { Some(0usize) } else { None }),
            Some(i) => next == (if i + 1 < leg.len() { Some((i + 1) as usize) } else { None }),
        },
{
    match previous {
        None => {
            if leg.len() > 0 {
                assert(!flow_occurred(leg, 0, reference, inc));
            }
        },
        Some(i) => {
            assert forall|k: int| 0 <= k <= i implies #[trigger] flow_occurred(
                leg,
                k,
                reference,
                inc,
            ) by {
                assert(leg[k].date@ <= leg[i as int].date@);
            }
            if i + 1 < leg.len() {
                assert(!flow_occurred(leg, i + 1, reference, inc));
            }
        },
    }
}

} // verus!
