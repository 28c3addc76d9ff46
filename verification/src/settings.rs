//! The evaluation settings a computation reads.
use vstd::prelude::*;

use crate::patterns::observable::Observables;
use crate::time::date::Date;

verus! {

/// The evaluation date and the conventions around it.
#[derive(Clone, Copy, Debug, PartialEq, Eq, Structural)]
pub struct Settings {
    /// The date computations are made as of; unset until given.
    pub evaluation_date: Option<Date>,
    /// Whether an event falling on its reference date counts as not yet
    /// occurred.
    pub include_reference_date_events: bool,
    /// When set, overrides that choice for cash flows paying on the
    /// evaluation date itself.
    pub include_todays_cash_flows: Option<bool>,
    /// Whether a fixing on the evaluation date must come from history.
    pub enforces_todays_historic_fixings: bool,
    /// The observable of a registry that announces a change of the
    /// evaluation date, once one was added.
    pub evaluation_date_observable: Option<usize>,
}

impl Settings {
    /// Settings with no evaluation date and every convention at its default.
    pub fn new() -> (r: Settings)
        ensures
            r.evaluation_date is None,
            !r.include_reference_date_events,
            r.include_todays_cash_flows is None,
            !r.enforces_todays_historic_fixings,
            r.evaluation_date_observable is None,
    {
        Settings {
            evaluation_date: None,
            include_reference_date_events: false,
            include_todays_cash_flows: None,
            enforces_todays_historic_fixings: false,
            evaluation_date_observable: None,
        }
    }

    /// Sets the evaluation date.
    pub fn set_evaluation_date(&mut self, date: Date)
        ensures
            final(self).evaluation_date == Some(date),
            final(self).include_reference_date_events == old(self).include_reference_date_events,
            final(self).include_todays_cash_flows == old(self).include_todays_cash_flows,
            final(self).enforces_todays_historic_fixings == old(
                self,
            ).enforces_todays_historic_fixings,
            final(self).evaluation_date_observable == old(self).evaluation_date_observable,
    {
        self.evaluation_date = Some(date);
    }

    /// Adds to `observables` the observable that announces a change of the
    /// evaluation date, and gives its identifier.
    pub fn add_evaluation_date_observable(&mut self, observables: &mut Observables) -> (r: usize)
        requires
            old(observables)@.wf(),
            old(observables)@.subscribers.len() < usize::MAX,
        ensures
            final(observables)@.wf(),
            r == old(observables)@.subscribers.len(),
            final(observables)@ == old(observables)@.with_observable(),
            *final(self) == (Settings { evaluation_date_observable: Some(r), ..*old(self) }),
    {
        let r = observables.add_observable();
        self.evaluation_date_observable = Some(r);
        r
    }

    /// Sets the evaluation date and announces it: the observable for the
    /// evaluation date, when there is one, is notified in `observables`.
    pub fn set_evaluation_date_notifying(&mut self, date: Date, observables: &mut Observables)
        requires
            old(observables)@.wf(),
            old(self).evaluation_date_observable matches Some(a) ==> a < old(
                observables,
            )@.subscribers.len(),
        ensures
            *final(self) == (Settings { evaluation_date: Some(date), ..*old(self) }),
            final(observables)@.wf(),
            final(observables)@ == match old(self).evaluation_date_observable {
                Some(a) => old(observables)@.after_notifying(a as int),
                None => old(observables)@,
            },
    {
        self.evaluation_date = Some(date);
        match self.evaluation_date_observable {
            Some(a) => observables.notify(a),
            None => {},
        }
    }

    /// The evaluation date, when set.
    pub fn evaluation_date(&self) -> (r: Option<Date>)
        ensures
            r == self.evaluation_date,
    {
        self.evaluation_date
    }
}

} // verus!
