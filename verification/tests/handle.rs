use libitofin::handle::{Handle, Links, RelinkableHandle};
use libitofin::patterns::observable::{Observables, Subscriber};
use std::cell::Cell;
use std::rc::Rc;

/// A pointee for the link-sharing tests, with the observable it notifies
/// through.
#[derive(Clone, Debug, PartialEq)]
struct Pointee {
    value: i32,
    observable: usize,
}

impl Pointee {
    fn new(observables: &mut Observables, value: i32) -> Pointee {
        Pointee { value, observable: observables.add_observable() }
    }
}

/// A quote: a value that notifies its observers when it changes.
#[derive(Clone, Debug)]
struct Quote {
    value: Rc<Cell<f64>>,
    observable: usize,
}

impl Quote {
    fn new(observables: &mut Observables, value: f64) -> Quote {
        Quote { value: Rc::new(Cell::new(value)), observable: observables.add_observable() }
    }

    fn value(&self) -> f64 {
        self.value.get()
    }

    fn set_value(&self, observables: &mut Observables, value: f64) {
        if value != self.value.get() {
            self.value.set(value);
            observables.notify(self.observable);
        }
    }
}

#[test]
fn empty_handle_cannot_be_dereferenced() {
    let (mut links, mut observables) = (Links::<Pointee>::new(), Observables::new());
    let h = Handle::empty(&mut links, &mut observables);
    assert!(h.is_empty(&links));
    assert!(h.current_link(&links).is_err());
}

#[test]
fn handle_dereferences_to_pointee() {
    let (mut links, mut observables) = (Links::new(), Observables::new());
    let pointee = Pointee::new(&mut observables, 42);
    let h = Handle::new(&mut links, &mut observables, pointee.clone(), pointee.observable);
    assert!(!h.is_empty(&links));
    assert_eq!(h.current_link(&links).unwrap().value, 42);
}

#[test]
fn copies_share_one_link() {
    let (mut links, mut observables) = (Links::new(), Observables::new());
    let pointee = Pointee::new(&mut observables, 1);
    let h = Handle::new(&mut links, &mut observables, pointee.clone(), pointee.observable);
    let copy = h.clone();
    assert!(h.points_to_same_link(&copy));
}

#[test]
fn relink_propagates_notification_to_observers() {
    let (mut links, mut observables) = (Links::new(), Observables::new());
    let first = Pointee::new(&mut observables, 1);
    let rh = RelinkableHandle::new(&mut links, &mut observables, first.clone(), first.observable);
    let observed = rh.handle();

    let flag = observables.add_observer();
    observed.register_observer(&links, &mut observables, flag);

    let second = Pointee::new(&mut observables, 2);
    rh.link_to(&mut links, &mut observables, second.clone(), second.observable);

    assert!(observables.is_up(flag), "relink should notify observers");
    // the change is visible through the copy that shares the link
    assert_eq!(observed.current_link(&links).unwrap().value, 2);
}

#[test]
fn reset_empties_and_notifies() {
    let (mut links, mut observables) = (Links::new(), Observables::new());
    let pointee = Pointee::new(&mut observables, 1);
    let rh = RelinkableHandle::new(&mut links, &mut observables, pointee.clone(), pointee.observable);
    let observed = rh.handle();
    let flag = observables.add_observer();
    observed.register_observer(&links, &mut observables, flag);

    rh.reset(&mut links, &mut observables);

    assert!(observables.is_up(flag));
    assert!(observed.is_empty(&links));
}

#[test]
fn observer_may_read_handle_during_relink() {
    let (mut links, mut observables) = (Links::new(), Observables::new());
    let first = Pointee::new(&mut observables, 1);
    let rh = RelinkableHandle::new(&mut links, &mut observables, first.clone(), first.observable);
    // a reader keeps a copy of the handle and reads it when notified
    let reader_handle = rh.handle();
    let reader = observables.add_observer();
    rh.handle().register_observer(&links, &mut observables, reader);
    let mut seen: Option<i32> = None;

    let second = Pointee::new(&mut observables, 2);
    rh.link_to(&mut links, &mut observables, second.clone(), second.observable);

    if observables.is_up(reader) {
        observables.lower(reader);
        seen = reader_handle.current_link(&links).ok().map(|p| p.value);
    }
    // the observer dereferences the handle and sees the freshly-linked value
    assert_eq!(seen, Some(2));
}

#[test]
fn pointee_change_notifies_handle_observers() {
    let (mut links, mut observables) = (Links::new(), Observables::new());
    let quote = Quote::new(&mut observables, 0.0);
    let h = Handle::new(&mut links, &mut observables, quote.clone(), quote.observable);
    let flag = observables.add_observer();
    h.register_observer(&links, &mut observables, flag);

    quote.set_value(&mut observables, 3.14);

    assert!(observables.is_up(flag), "observer was not notified of quote change");
}

#[test]
fn observable_handle_forwards_pointee_changes_and_relinks() {
    let (mut links, mut observables) = (Links::new(), Observables::new());
    let me1 = Quote::new(&mut observables, 0.0);
    let h = RelinkableHandle::new(&mut links, &mut observables, me1.clone(), me1.observable);
    let f = observables.add_observer();
    h.handle().register_observer(&links, &mut observables, f);

    me1.set_value(&mut observables, 3.14);
    assert!(observables.is_up(f), "observer was not notified of quote change");

    observables.lower(f);
    let me2 = Quote::new(&mut observables, 0.0);
    h.link_to(&mut links, &mut observables, me2.clone(), me2.observable);
    assert!(observables.is_up(f), "observer was not notified of relink");

    observables.lower(f);
    me1.set_value(&mut observables, 1.0);
    assert!(!observables.is_up(f), "detached pointee must no longer notify handle observers");

    me2.set_value(&mut observables, 2.0);
    assert!(observables.is_up(f), "new pointee change must notify handle observers");
}

#[test]
fn reset_unhooks_the_old_pointee() {
    let (mut links, mut observables) = (Links::new(), Observables::new());
    let quote = Quote::new(&mut observables, 1.0);
    let rh = RelinkableHandle::new(&mut links, &mut observables, quote.clone(), quote.observable);
    let flag = observables.add_observer();
    rh.handle().register_observer(&links, &mut observables, flag);

    rh.reset(&mut links, &mut observables);
    observables.lower(flag);

    quote.set_value(&mut observables, 2.0);
    assert!(!observables.is_up(flag), "reset must drop the pointee subscription");
}

#[test]
fn linking_an_empty_handle_starts_forwarding() {
    let (mut links, mut observables) = (Links::new(), Observables::new());
    let rh = RelinkableHandle::empty(&mut links, &mut observables);
    let flag = observables.add_observer();
    rh.handle().register_observer(&links, &mut observables, flag);

    let quote = Quote::new(&mut observables, 0.0);
    rh.link_to(&mut links, &mut observables, quote.clone(), quote.observable);
    observables.lower(flag);

    quote.set_value(&mut observables, 1.0);
    assert!(observables.is_up(flag), "pointee linked after construction must forward");
}

#[test]
fn write_back_during_forwarded_notification_reaches_handle_observers() {
    let (mut links, mut observables) = (Links::new(), Observables::new());
    let quote = Quote::new(&mut observables, 0.5);
    let h = Handle::new(&mut links, &mut observables, quote.clone(), quote.observable);

    // a cacher reads the quote through the handle; a normalizer caps the
    // quote at 1.0, writing back into it when notified
    let cacher = observables.add_observer();
    h.register_observer(&links, &mut observables, cacher);
    let normalizer = observables.add_observer();
    h.register_observer(&links, &mut observables, normalizer);
    let mut seen: Option<f64> = None;

    quote.set_value(&mut observables, 2.0);

    // every observer deals with its notification, until none is pending
    while observables.is_up(cacher) || observables.is_up(normalizer) {
        if observables.is_up(cacher) {
            observables.lower(cacher);
            seen = h.current_link(&links).ok().map(|q| q.value());
        }
        if observables.is_up(normalizer) {
            observables.lower(normalizer);
            if quote.value() > 1.0 {
                quote.set_value(&mut observables, 1.0);
            }
        }
    }

    assert_eq!(quote.value(), 1.0);
    assert_eq!(
        seen,
        Some(1.0),
        "handle observers must see the written-back value, not the stale one"
    );
}

#[test]
fn an_observer_registers_once() {
    let (mut links, mut observables) = (Links::<Pointee>::new(), Observables::new());
    let h = Handle::empty(&mut links, &mut observables);
    let flag = observables.add_observer();
    assert!(h.register_observer(&links, &mut observables, flag));
    assert!(!h.register_observer(&links, &mut observables, flag));
}

#[test]
fn a_notification_reaches_observers_through_a_chain_of_forwarders() {
    let mut observables = Observables::new();
    let a = observables.add_observable();
    let b = observables.add_observable();
    let c = observables.add_observable();
    let near = observables.add_observer();
    let far = observables.add_observer();
    let other = observables.add_observer();
    observables.register(a, Subscriber::Forward(b));
    observables.register(b, Subscriber::Forward(c));
    observables.register(c, Subscriber::Forward(a));
    observables.register(b, Subscriber::Observer(near));
    observables.register(c, Subscriber::Observer(far));
    observables.add_observable();
    let d = observables.add_observable();
    observables.register(d, Subscriber::Observer(other));

    observables.notify(a);

    assert!(observables.is_up(near));
    assert!(observables.is_up(far));
    assert!(!observables.is_up(other));
    assert!(observables.unregister(a, Subscriber::Forward(b)));
    assert!(!observables.unregister(a, Subscriber::Forward(b)));
}
