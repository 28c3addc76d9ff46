//! Observables, the observers registered with them, and how a notification
//! spreads.
//!
//! Every observable and every observer of a registry has an identifier, its
//! position in the registry. What is registered with an observable is a
//! [`Subscriber`]: an observer, whose flag a notification raises, or a
//! forwarder, which passes the notification on to another observable. A
//! notification raises the flag of every observer registered with the
//! observable notified or with one it forwards to, directly or through
//! further forwarders.
use vstd::prelude::*;

verus! {

/// What is registered with an observable.
#[derive(Clone, Copy, Debug, PartialEq, Eq, Structural)]
pub enum Subscriber {
    /// The observer with this identifier: notified by raising its flag.
    Observer(usize),
    /// A forwarder to the observable with this identifier: notified by
    /// notifying that observable in turn.
    Forward(usize),
}

/// A registry of observables and observers.
pub struct Observables {
    subscribers: Vec<Vec<Subscriber>>,
    flags: Vec<bool>,
}

/// What a registry is: the subscribers of each observable, and whether
/// each observer has been notified.
pub struct ObservablesModel {
    /// The subscribers of each observable, by identifier.
    pub subscribers: Seq<Seq<Subscriber>>,
    /// Whether each observer has been notified, by identifier.
    pub flags: Seq<bool>,
}

impl View for Observables {
    type V = ObservablesModel;

    closed spec fn view(&self) -> ObservablesModel {
        ObservablesModel {
            subscribers: self.subscribers@.map_values(|l: Vec<Subscriber>| l@),
            flags: self.flags@,
        }
    }
}

impl ObservablesModel {
    /// Whether `s` names an observer or an observable of the registry.
    pub open spec fn valid_subscriber(self, s: Subscriber) -> bool {
        match s {
            Subscriber::Observer(o) => o < self.flags.len(),
            Subscriber::Forward(b) => b < self.subscribers.len(),
        }
    }

    /// Whether every subscriber of every observable names something in the
    /// registry.
    pub open spec fn wf(self) -> bool {
        forall|a: int, i: int|
            0 <= a < self.subscribers.len() && 0 <= i < self.subscribers[a].len()
                ==> self.valid_subscriber(#[trigger] self.subscribers[a][i])
    }

    /// Whether observable `c` forwards its notifications to observable `b`.
    pub open spec fn forwards(self, c: int, b: int) -> bool {
        0 <= c < self.subscribers.len() && 0 <= b < self.subscribers.len() && self.subscribers[c].contains(
            Subscriber::Forward(b as usize),
        )
    }

    /// Whether observer `o` is registered with observable `b`.
    pub open spec fn observes(self, b: int, o: int) -> bool {
        0 <= b < self.subscribers.len() && 0 <= o < self.flags.len() && self.subscribers[b].contains(
            Subscriber::Observer(o as usize),
        )
    }

    /// The observables a notification of `a` reaches in at most `k`
    /// forwarding steps.
    pub open spec fn reached(self, a: int, k: nat) -> Set<int>
        decreases k,
    {
        if k == 0 {
            set![a]
        } else {
            let before = self.reached(a, (k - 1) as nat);
            before.union(Set::new(|b: int| exists|c: int| before.contains(c) && self.forwards(c, b)))
        }
    }

    /// Whether a notification of observable `a` reaches observer `o`: it is
    /// registered with an observable the notification reaches. A path
    /// through more forwarders than there are observables visits one twice,
    /// so paths of that length reach everything reachable.
    pub open spec fn notified(self, a: int, o: int) -> bool {
        exists|b: int| #[trigger] self.reached(a, self.subscribers.len()).contains(b) && self.observes(b, o)
    }

    /// The registry with one more observable, with nothing registered.
    pub open spec fn with_observable(self) -> ObservablesModel {
        ObservablesModel { subscribers: self.subscribers.push(Seq::empty()), flags: self.flags }
    }

    /// The registry with `s` registered with observable `a`, unless it is
    /// registered there already.
    pub open spec fn subscribed(self, a: int, s: Subscriber) -> ObservablesModel {
        if self.subscribers[a].contains(s) {
            self
        } else {
            ObservablesModel {
                subscribers: self.subscribers.update(a, self.subscribers[a].push(s)),
                flags: self.flags,
            }
        }
    }

    /// The registry with one more observable, with a forwarder to it
    /// registered with observable `announcer`, when there is one.
    pub open spec fn with_forwarded_observable(self, announcer: Option<usize>) -> ObservablesModel {
        let b = self.subscribers.len() as int;
        match announcer {
            Some(a) => self.with_observable().subscribed(a as int, Subscriber::Forward(b as usize)),
            None => self.with_observable(),
        }
    }

    /// The registry with `s` no longer registered with observable `a`.
    pub open spec fn unsubscribed(self, a: int, s: Subscriber) -> ObservablesModel {
        ObservablesModel {
            subscribers: self.subscribers.update(a, self.subscribers[a].filter(other_than(s))),
            flags: self.flags,
        }
    }

    /// The registry after a notification of observable `a`: the flag of
    /// every observer it reaches raised, nothing else changed.
    pub open spec fn after_notifying(self, a: int) -> ObservablesModel {
        ObservablesModel {
            subscribers: self.subscribers,
            flags: Seq::new(self.flags.len(), |o: int| self.flags[o] || self.notified(a, o)),
        }
    }
}

/// The subscribers other than `s`.
pub open spec fn other_than(s: Subscriber) -> spec_fn(Subscriber) -> bool {
    |x: Subscriber| x != s
}

/// A notification reaches at least what it reached in fewer steps.
pub proof fn lemma_reached_monotonic(m: ObservablesModel, a: int, j: nat, k: nat)
    requires
        j <= k,
    ensures
        m.reached(a, j).subset_of(m.reached(a, k)),
    decreases k,
{
    if j < k {
        lemma_reached_monotonic(m, a, j, (k - 1) as nat);
    }
}

/// Law: a notification of an observable reaches every observer registered
/// with it.
pub proof fn lemma_direct_observers_are_notified(m: ObservablesModel, a: int, o: int)
    requires
        m.observes(a, o),
    ensures
        m.notified(a, o),
{
    lemma_reached_monotonic(m, a, 0, m.subscribers.len());
    assert(m.reached(a, 0).contains(a));
    assert(m.reached(a, m.subscribers.len()).contains(a));
}

/// Law: a notification of an observable reaches every observer registered
/// with an observable it forwards to.
pub proof fn lemma_forwarded_observers_are_notified(m: ObservablesModel, a: int, b: int, o: int)
    requires
        m.forwards(a, b),
        m.observes(b, o),
    ensures
        m.notified(a, o),
{
    assert(m.reached(a, 0).contains(a));
    assert(m.reached(a, 1).contains(b));
    lemma_reached_monotonic(m, a, 1, m.subscribers.len());
    assert(m.reached(a, m.subscribers.len()).contains(b));
}

/// Law: a notification of an observable reaches an observer only through
/// an observable it reaches, and not at all an observer registered nowhere.
pub proof fn lemma_unregistered_observers_are_not_notified(m: ObservablesModel, a: int, o: int)
    requires
        forall|b: int| 0 <= b < m.subscribers.len() ==> !m.observes(b, o),
    ensures
        !m.notified(a, o),
{
}

/// Every observable a notification reaches is one of the registry's.
proof fn lemma_reached_in_range(m: ObservablesModel, a: int, k: nat, b: int)
    requires
        m.wf(),
        0 <= a < m.subscribers.len(),
        m.reached(a, k).contains(b),
    ensures
        0 <= b < m.subscribers.len(),
    decreases k,
{
    if k > 0 {
        let before = m.reached(a, (k - 1) as nat);
        if before.contains(b) {
            lemma_reached_in_range(m, a, (k - 1) as nat, b);
        }
    }
}

impl Observables {
    /// An empty registry.
    pub fn new() -> (r: Observables)
        ensures
            r@.wf(),
            r@.subscribers.len() == 0,
            r@.flags.len() == 0,
    {
        let r = Observables { subscribers: Vec::new(), flags: Vec::new() };
        assert(r@.subscribers =~= Seq::<Seq<Subscriber>>::empty());
        r
    }

    /// The number of observables.
    pub fn observable_count(&self) -> (r: usize)
        ensures
            r == self@.subscribers.len(),
    {
        self.subscribers.len()
    }

    /// The number of observers.
    pub fn observer_count(&self) -> (r: usize)
        ensures
            r == self@.flags.len(),
    {
        self.flags.len()
    }

    /// Adds an observable with nothing registered, and gives its
    /// identifier.
    pub fn add_observable(&mut self) -> (r: usize)
        requires
            old(self)@.wf(),
            old(self)@.subscribers.len() < usize::MAX,
        ensures
            final(self)@.wf(),
            r == old(self)@.subscribers.len(),
            final(self)@ == old(self)@.with_observable(),
    {
        let r = self.subscribers.len();
        let ghost before = self@;
        let mut subscribers: Vec<Vec<Subscriber>> = Vec::new();
        std::mem::swap(&mut subscribers, &mut self.subscribers);
        subscribers.push(Vec::new());
        assert(subscribers@.map_values(|l: Vec<Subscriber>| l@) =~= before.subscribers.push(
            Seq::empty(),
        ));
        self.subscribers = subscribers;
        r
    }

    /// Adds an observable with nothing registered, and registers a
    /// forwarder to it with observable `announcer`, when there is one: a
    /// notification of `announcer` then reaches whatever is registered with
    /// the new observable. Gives the new observable's identifier.
    pub fn add_forwarded_observable(&mut self, announcer: Option<usize>) -> (r: usize)
        requires
            old(self)@.wf(),
            old(self)@.subscribers.len() < usize::MAX,
            announcer matches Some(a) ==> a < old(self)@.subscribers.len(),
        ensures
            final(self)@.wf(),
            r == old(self)@.subscribers.len(),
            final(self)@ == old(self)@.with_forwarded_observable(announcer),
            announcer matches Some(a) ==> final(self)@.forwards(a as int, r as int),
    {
        let b = self.add_observable();
        match announcer {
            Some(a) => {
                let ghost before = self@;
                self.register(a, Subscriber::Forward(b));
                proof {
                    let f = Subscriber::Forward(b);
                    if !before.subscribers[a as int].contains(f) {
                        let i = before.subscribers[a as int].len() as int;
                        assert(self@.subscribers[a as int][i] == f);
                    }
                    assert(self@.subscribers[a as int].contains(f));
                }
            },
            None => {},
        }
        b
    }

    /// Adds an observer, not yet notified, and gives its identifier.
    pub fn add_observer(&mut self) -> (r: usize)
        requires
            old(self)@.wf(),
            old(self)@.flags.len() < usize::MAX,
        ensures
            final(self)@.wf(),
            r == old(self)@.flags.len(),
            final(self)@.subscribers == old(self)@.subscribers,
            final(self)@.flags == old(self)@.flags.push(false),
    {
        let r = self.flags.len();
        let ghost before = self@;
        self.flags.push(false);
        assert forall|a: int, i: int|
            0 <= a < self@.subscribers.len() && 0 <= i < self@.subscribers[a].len()
                implies self@.valid_subscriber(#[trigger] self@.subscribers[a][i]) by {
            assert(before.valid_subscriber(before.subscribers[a][i]));
        }
        r
    }

    /// Whether observer `observer` has been notified.
    pub fn is_up(&self, observer: usize) -> (r: bool)
        requires
            observer < self@.flags.len(),
        ensures
            r == self@.flags[observer as int],
    {
        self.flags[observer]
    }

    /// Lowers the flag of observer `observer`, as an observer does once it
    /// has dealt with a notification.
    pub fn lower(&mut self, observer: usize)
        requires
            old(self)@.wf(),
            observer < old(self)@.flags.len(),
        ensures
            final(self)@.wf(),
            final(self)@.subscribers == old(self)@.subscribers,
            final(self)@.flags == old(self)@.flags.update(observer as int, false),
    {
        let ghost before = self@;
        self.flags.set(observer, false);
        assert forall|a: int, i: int|
            0 <= a < self@.subscribers.len() && 0 <= i < self@.subscribers[a].len()
                implies self@.valid_subscriber(#[trigger] self@.subscribers[a][i]) by {
            assert(before.valid_subscriber(before.subscribers[a][i]));
        }
    }

    /// Whether `subscriber` is registered with observable `observable`.
    pub fn is_registered(&self, observable: usize, subscriber: Subscriber) -> (r: bool)
        requires
            observable < self@.subscribers.len(),
        ensures
            r == self@.subscribers[observable as int].contains(subscriber),
    {
        let list = &self.subscribers[observable];
        assert(list@ == self@.subscribers[observable as int]);
        let mut i: usize = 0;
        while i < list.len()
            invariant
                i <= list@.len(),
                list@ == self@.subscribers[observable as int],
                forall|k: int| 0 <= k < i ==> list@[k] != subscriber,
            decreases list.len() - i,
        {
            if list[i] == subscriber {
                assert(list@[i as int] == subscriber);
                assert(self@.subscribers[observable as int].contains(subscriber));
                return true;
            }
            i = i + 1;
        }
        false
    }

    /// Registers `subscriber` with observable `observable`, unless it is
    /// registered there already; says whether it was not.
    pub fn register(&mut self, observable: usize, subscriber: Subscriber) -> (r: bool)
        requires
            old(self)@.wf(),
            observable < old(self)@.subscribers.len(),
            old(self)@.valid_subscriber(subscriber),
        ensures
            final(self)@.wf(),
            r == !old(self)@.subscribers[observable as int].contains(subscriber),
            final(self)@ == old(self)@.subscribed(observable as int, subscriber),
    {
        if self.is_registered(observable, subscriber) {
            return false;
        }
        let ghost before = self@;
        let mut subscribers: Vec<Vec<Subscriber>> = Vec::new();
        std::mem::swap(&mut subscribers, &mut self.subscribers);
        let mut list: Vec<Subscriber> = Vec::new();
        std::mem::swap(&mut list, &mut subscribers[observable]);
        list.push(subscriber);
        subscribers.set(observable, list);
        assert(subscribers@.map_values(|l: Vec<Subscriber>| l@) =~= before.subscribers.update(
            observable as int,
            before.subscribers[observable as int].push(subscriber),
        ));
        self.subscribers = subscribers;
        assert forall|a: int, i: int|
            0 <= a < self@.subscribers.len() && 0 <= i < self@.subscribers[a].len()
                implies self@.valid_subscriber(#[trigger] self@.subscribers[a][i]) by {
            if a != observable as int || i < before.subscribers[a].len() {
                assert(before.valid_subscriber(before.subscribers[a][i]));
            }
        }
        true
    }

    /// Unregisters `subscriber` from observable `observable`; says whether
    /// it was registered there.
    pub fn unregister(&mut self, observable: usize, subscriber: Subscriber) -> (r: bool)
        requires
            old(self)@.wf(),
            observable < old(self)@.subscribers.len(),
        ensures
            final(self)@.wf(),
            r == old(self)@.subscribers[observable as int].contains(subscriber),
            final(self)@ == old(self)@.unsubscribed(observable as int, subscriber),
    {
        let found = self.is_registered(observable, subscriber);
        let ghost before = self@;
        let ghost pred = other_than(subscriber);
        let mut subscribers: Vec<Vec<Subscriber>> = Vec::new();
        std::mem::swap(&mut subscribers, &mut self.subscribers);
        let mut list: Vec<Subscriber> = Vec::new();
        std::mem::swap(&mut list, &mut subscribers[observable]);
        assert(list@ == before.subscribers[observable as int]);
        let mut kept: Vec<Subscriber> = Vec::new();
        let mut i: usize = 0;
        while i < list.len()
            invariant
                i <= list@.len(),
                kept@ == list@.subrange(0, i as int).filter(pred),
                pred == other_than(subscriber),
            decreases list.len() - i,
        {
            proof {
                reveal(Seq::filter);
                assert(list@.subrange(0, i + 1).drop_last() =~= list@.subrange(0, i as int));
                assert(list@.subrange(0, i + 1).last() == list@[i as int]);
            }
            if list[i] != subscriber {
                kept.push(list[i]);
            }
            i = i + 1;
        }
        assert(list@.subrange(0, list@.len() as int) =~= list@);
        proof {
            broadcast use Seq::lemma_filter_pred;
            assert forall|k: int| 0 <= k < kept@.len() implies before.valid_subscriber(
                #[trigger] kept@[k],
            ) by {
                assert(list@.filter(pred).contains(kept@[k]));
                #[allow(deprecated)]
                list@.filter_lemma(pred);
                let j = choose|j: int| 0 <= j < kept@.len() && kept@[j] == kept@[k];
                assert(kept@[k] == list@.filter(pred)[k]);
                lemma_filter_member(list@, pred, k);
            }
        }
        subscribers.set(observable, kept);
        assert(subscribers@.map_values(|l: Vec<Subscriber>| l@) =~= before.subscribers.update(
            observable as int,
            before.subscribers[observable as int].filter(pred),
        ));
        self.subscribers = subscribers;
        assert forall|a: int, i: int|
            0 <= a < self@.subscribers.len() && 0 <= i < self@.subscribers[a].len()
                implies self@.valid_subscriber(#[trigger] self@.subscribers[a][i]) by {
            if a != observable as int {
                assert(before.valid_subscriber(before.subscribers[a][i]));
            }
        }
        found
    }
}

impl Observables {
    /// The observables marked in `marked`, together with every observable a
    /// marked one forwards to.
    fn step(&self, marked: &Vec<bool>) -> (r: Vec<bool>)
        requires
            self@.wf(),
            marked@.len() == self@.subscribers.len(),
        ensures
            r@.len() == marked@.len(),
            forall|b: int|
                0 <= b < r@.len() ==> (r@[b] <==> (marked@[b] || exists|c: int|
                    0 <= c < marked@.len() && marked@[c] && #[trigger] self@.forwards(c, b))),
    {
        let n = self.subscribers.len();
        let mut r: Vec<bool> = Vec::new();
        let mut i: usize = 0;
        while i < n
            invariant
                n == self@.subscribers.len(),
                marked@.len() == n,
                i <= n,
                r@ == marked@.subrange(0, i as int),
            decreases n - i,
        {
            r.push(marked[i]);
            i = i + 1;
        }
        assert(r@ =~= marked@);
        let mut c: usize = 0;
        while c < n
            invariant
                self@.wf(),
                n == self@.subscribers.len(),
                marked@.len() == n,
                r@.len() == n,
                c <= n,
                forall|b: int|
                    0 <= b < n ==> (r@[b] <==> (marked@[b] || exists|c2: int|
                        0 <= c2 < c && marked@[c2] && #[trigger] self@.forwards(c2, b))),
            decreases n - c,
        {
            if marked[c] {
                let list = &self.subscribers[c];
                assert(list@ == self@.subscribers[c as int]);
                let mut j: usize = 0;
                while j < list.len()
                    invariant
                        self@.wf(),
                        n == self@.subscribers.len(),
                        c < n,
                        marked@.len() == n,
                        marked@[c as int],
                        list@ == self@.subscribers[c as int],
                        r@.len() == n,
                        j <= list@.len(),
                        forall|b: int|
                            0 <= b < n ==> (r@[b] <==> (marked@[b] || (exists|c2: int|
                                0 <= c2 < c && marked@[c2] && #[trigger] self@.forwards(c2, b))
                                || exists|j2: int|
                                0 <= j2 < j && #[trigger] list@[j2] == Subscriber::Forward(b as usize))),
                    decreases list.len() - j,
                {
                    let ghost before = r@;
                    match list[j] {
                        Subscriber::Forward(b) => {
                            assert(self@.valid_subscriber(self@.subscribers[c as int][j as int]));
                            r.set(b, true);
                            assert forall|b2: int|
                                0 <= b2 < n implies (r@[b2] <==> (marked@[b2] || (exists|c2: int|
                                    0 <= c2 < c && marked@[c2] && #[trigger] self@.forwards(c2, b2))
                                    || exists|j2: int|
                                    0 <= j2 < j + 1 && #[trigger] list@[j2] == Subscriber::Forward(
                                        b2 as usize,
                                    ))) by {
                                if b2 == b as int {
                                    assert(list@[j as int] == Subscriber::Forward(b2 as usize));
                                } else {
                                    if exists|j2: int|
                                        0 <= j2 < j + 1 && #[trigger] list@[j2] == Subscriber::Forward(
                                            b2 as usize,
                                        ) {
                                        let j2 = choose|j2: int|
                                            0 <= j2 < j + 1 && #[trigger] list@[j2] == Subscriber::Forward(
                                                b2 as usize,
                                            );
                                        assert(j2 < j);
                                    }
                                }
                            }
                        },
                        Subscriber::Observer(_) => {
                            assert forall|b2: int|
                                0 <= b2 < n implies (r@[b2] <==> (marked@[b2] || (exists|c2: int|
                                    0 <= c2 < c && marked@[c2] && #[trigger] self@.forwards(c2, b2))
                                    || exists|j2: int|
                                    0 <= j2 < j + 1 && #[trigger] list@[j2] == Subscriber::Forward(
                                        b2 as usize,
                                    ))) by {
                                if exists|j2: int|
                                    0 <= j2 < j + 1 && #[trigger] list@[j2] == Subscriber::Forward(
                                        b2 as usize,
                                    ) {
                                    let j2 = choose|j2: int|
                                        0 <= j2 < j + 1 && #[trigger] list@[j2] == Subscriber::Forward(
                                            b2 as usize,
                                        );
                                    assert(j2 < j);
                                }
                            }
                        },
                    }
                    j = j + 1;
                }
                assert forall|b: int|
                    0 <= b < n implies (r@[b] <==> (marked@[b] || exists|c2: int|
                        0 <= c2 < c + 1 && marked@[c2] && #[trigger] self@.forwards(c2, b))) by {
                    if exists|j2: int|
                        0 <= j2 < list@.len() && #[trigger] list@[j2] == Subscriber::Forward(b as usize) {
                        let j2 = choose|j2: int|
                            0 <= j2 < list@.len() && #[trigger] list@[j2] == Subscriber::Forward(b as usize);
                        assert(self@.forwards(c as int, b));
                    }
                    if self@.forwards(c as int, b) {
                        let j2 = choose|j2: int|
                            0 <= j2 < list@.len() && list@[j2] == Subscriber::Forward(b as usize);
                        assert(list@[j2] == Subscriber::Forward(b as usize));
                    }
                    if exists|c2: int| 0 <= c2 < c + 1 && marked@[c2] && #[trigger] self@.forwards(c2, b) {
                        let c2 = choose|c2: int|
                            0 <= c2 < c + 1 && marked@[c2] && #[trigger] self@.forwards(c2, b);
                        if c2 < c {
                            assert(exists|c3: int| 0 <= c3 < c && marked@[c3] && #[trigger] self@.forwards(c3, b));
                        }
                    }
                }
            } else {
                assert forall|b: int|
                    0 <= b < n implies (r@[b] <==> (marked@[b] || exists|c2: int|
                        0 <= c2 < c + 1 && marked@[c2] && #[trigger] self@.forwards(c2, b))) by {
                    if exists|c2: int| 0 <= c2 < c + 1 && marked@[c2] && #[trigger] self@.forwards(c2, b) {
                        let c2 = choose|c2: int|
                            0 <= c2 < c + 1 && marked@[c2] && #[trigger] self@.forwards(c2, b);
                        assert(c2 < c);
                    }
                }
            }
            c = c + 1;
        }
        r
    }
}

impl Observables {
    /// Raises the flag of every observer registered with observable `b`.
    fn raise_observers_of(&mut self, b: usize)
        requires
            old(self)@.wf(),
            b < old(self)@.subscribers.len(),
        ensures
            final(self)@.subscribers == old(self)@.subscribers,
            final(self)@.flags == raised(old(self)@.flags, old(self)@.subscribers[b as int]),
    {
        let ghost m = self@;
        let count = self.flags.len();
        assert(m.flags.len() <= usize::MAX);
        let mut j: usize = 0;
        while j < self.subscribers[b].len()
            invariant
                m.wf(),
                m.flags.len() <= usize::MAX,
                b < m.subscribers.len(),
                self@.subscribers == m.subscribers,
                j <= m.subscribers[b as int].len(),
                self@.flags == raised(m.flags, m.subscribers[b as int].subrange(0, j as int)),
            decreases m.subscribers[b as int].len() - j,
        {
            let ghost prefix = m.subscribers[b as int].subrange(0, j as int);
            let s = self.subscribers[b][j];
            assert(s == m.subscribers[b as int][j as int]);
            assert(m.valid_subscriber(m.subscribers[b as int][j as int]));
            assert(m.subscribers[b as int].subrange(0, j + 1) =~= prefix.push(s));
            proof {
                lemma_raised_push(m.flags, prefix, s);
            }
            if let Subscriber::Observer(o) = s {
                self.flags.set(o, true);
            }
            j = j + 1;
        }
        assert(m.subscribers[b as int].subrange(0, m.subscribers[b as int].len() as int) =~= m.subscribers[b as int]);
    }

    /// Notifies observable `observable`: raises the flag of every observer
    /// registered with it or with an observable it forwards to, directly
    /// or through further forwarders; nothing else changes.
    pub fn notify(&mut self, observable: usize)
        requires
            old(self)@.wf(),
            observable < old(self)@.subscribers.len(),
        ensures
            final(self)@.wf(),
            final(self)@ == old(self)@.after_notifying(observable as int),
    {
        let ghost m = self@;
        let ghost a = observable as int;
        let n = self.subscribers.len();
        let mut marked: Vec<bool> = Vec::new();
        let mut i: usize = 0;
        while i < n
            invariant
                n == m.subscribers.len(),
                i <= n,
                marked@.len() == i,
                observable < n,
                forall|b: int| 0 <= b < i ==> (marked@[b] <==> b == observable as int),
            decreases n - i,
        {
            marked.push(i == observable);
            i = i + 1;
        }
        assert forall|b: int| 0 <= b < n implies (marked@[b] <==> m.reached(a, 0).contains(b)) by {}
        let mut k: usize = 0;
        while k < n
            invariant
                self@ == m,
                m.wf(),
                n == m.subscribers.len(),
                0 <= a < n,
                k <= n,
                marked@.len() == n,
                forall|b: int| 0 <= b < n ==> (marked@[b] <==> m.reached(a, k as nat).contains(b)),
            decreases n - k,
        {
            let next = self.step(&marked);
            proof {
                lemma_step_reaches(m, a, k as nat, marked@, next@);
            }
            marked = next;
            k = k + 1;
        }
        let mut b: usize = 0;
        while b < n
            invariant
                self@.wf(),
                self@.subscribers == m.subscribers,
                self@.flags.len() == m.flags.len(),
                m.wf(),
                n == m.subscribers.len(),
                0 <= a < n,
                b <= n,
                marked@.len() == n,
                forall|x: int| 0 <= x < n ==> (marked@[x] <==> m.reached(a, n as nat).contains(x)),
                forall|o: int|
                    0 <= o < m.flags.len() ==> (self@.flags[o] <==> (m.flags[o] || exists|b2: int|
                        0 <= b2 < b && marked@[b2] && #[trigger] m.observes(b2, o))),
            decreases n - b,
        {
            let ghost before = self@;
            assert(forall|o: int| 0 <= o < m.flags.len() ==> (self@.flags[o] <==> (m.flags[o] || exists|b2: int| 0 <= b2 < b && marked@[b2] && #[trigger] m.observes(b2, o))));
            assert(forall|o: int| 0 <= o < m.flags.len() ==> (before.flags[o] <==> (m.flags[o] || exists|b2: int| 0 <= b2 < b && marked@[b2] && #[trigger] m.observes(b2, o))));
            if marked[b] {
                self.raise_observers_of(b);
            }
            assert forall|o: int|
                0 <= o < m.flags.len() implies (self@.flags[o] <==> (m.flags[o] || exists|b2: int|
                    0 <= b2 < b + 1 && marked@[b2] && #[trigger] m.observes(b2, o))) by {
                let earlier = exists|b2: int| 0 <= b2 < b && marked@[b2] && #[trigger] m.observes(b2, o);
                let here = marked@[b as int] && m.observes(b as int, o);
                assert(before.flags[o] <==> (m.flags[o] || earlier));
                if marked@[b as int] {
                    assert(self@.flags[o] == raised(before.flags, m.subscribers[b as int])[o]);
                    assert(self@.flags[o] == (before.flags[o] || m.subscribers[b as int].contains(
                        Subscriber::Observer(o as usize),
                    )));
                } else {
                    assert(self@.flags[o] == before.flags[o]);
                }
                assert(self@.flags[o] == (before.flags[o] || here));
                if here {
                    assert(0 <= b < b + 1 && marked@[b as int] && m.observes(b as int, o));
                }
                if exists|b2: int| 0 <= b2 < b + 1 && marked@[b2] && #[trigger] m.observes(b2, o) {
                    let b2 = choose|b2: int| 0 <= b2 < b + 1 && marked@[b2] && #[trigger] m.observes(b2, o);
                    if b2 < b {
                        assert(earlier);
                    } else {
                        assert(here);
                    }
                }
                if earlier {
                    let b2 = choose|b2: int| 0 <= b2 < b && marked@[b2] && #[trigger] m.observes(b2, o);
                    assert(0 <= b2 < b + 1 && marked@[b2] && m.observes(b2, o));
                }
            }
            assert(self@.wf()) by {
                assert forall|x: int, y: int|
                    0 <= x < self@.subscribers.len() && 0 <= y < self@.subscribers[x].len()
                        implies self@.valid_subscriber(#[trigger] self@.subscribers[x][y]) by {
                    assert(m.valid_subscriber(m.subscribers[x][y]));
                }
            }
            b = b + 1;
        }
        assert(forall|o: int| 0 <= o < m.flags.len() ==> (self@.flags[o] <==> (m.flags[o] || exists|b2: int| 0 <= b2 < n && marked@[b2] && #[trigger] m.observes(b2, o))));
        proof {
            let target = m.after_notifying(a);
            assert(forall|x: int| 0 <= x < n ==> (marked@[x] <==> m.reached(a, m.subscribers.len()).contains(x)));
            assert forall|o: int| 0 <= o < m.flags.len() implies self@.flags[o] == target.flags[o] by {
                assert(target.flags[o] == (m.flags[o] || m.notified(a, o)));
                if m.notified(a, o) {
                    let x = choose|x: int| #[trigger] m.reached(a, m.subscribers.len()).contains(x) && m.observes(x, o);
                    assert(0 <= x < n);
                    assert(marked@[x]);
                    assert(0 <= x < n && marked@[x] && m.observes(x, o));
                }
                if exists|b2: int| 0 <= b2 < n && marked@[b2] && #[trigger] m.observes(b2, o) {
                    let b2 = choose|b2: int| 0 <= b2 < n && marked@[b2] && #[trigger] m.observes(b2, o);
                    assert(m.reached(a, m.subscribers.len()).contains(b2));
                    assert(m.reached(a, m.subscribers.len()).contains(b2) && m.observes(b2, o));
                }
            }
            assert(self@.flags =~= target.flags);
        }
    }
}

/// `flags` with the flag of every observer in `list` raised.
pub open spec fn raised(flags: Seq<bool>, list: Seq<Subscriber>) -> Seq<bool> {
    Seq::new(flags.len(), |o: int| flags[o] || list.contains(Subscriber::Observer(o as usize)))
}

/// Raising the observers of a list one longer raises one more flag, when
/// the last subscriber is an observer.
proof fn lemma_raised_push(flags: Seq<bool>, list: Seq<Subscriber>, s: Subscriber)
    requires
        flags.len() <= usize::MAX,
    ensures
        raised(flags, list.push(s)) == match s {
            Subscriber::Observer(o) => if (o as int) < flags.len() {
                raised(flags, list).update(o as int, true)
            } else {
                raised(flags, list)
            },
            Subscriber::Forward(_) => raised(flags, list),
        },
{
    let longer = list.push(s);
    assert forall|o: int| 0 <= o < flags.len() implies (#[trigger] longer.contains(Subscriber::Observer(o as usize))
        <==> (list.contains(Subscriber::Observer(o as usize)) || s == Subscriber::Observer(o as usize))) by {
        if list.contains(Subscriber::Observer(o as usize)) {
            let i = choose|i: int| 0 <= i < list.len() && list[i] == Subscriber::Observer(o as usize);
            assert(longer[i] == Subscriber::Observer(o as usize));
        }
        if s == Subscriber::Observer(o as usize) {
            assert(longer[list.len() as int] == s);
        }
        if longer.contains(Subscriber::Observer(o as usize)) {
            let i = choose|i: int| 0 <= i < longer.len() && longer[i] == Subscriber::Observer(o as usize);
            if i < list.len() {
                assert(list[i] == Subscriber::Observer(o as usize));
            }
        }
    }
    match s {
        Subscriber::Observer(o) => {
            if (o as int) < flags.len() {
                assert forall|k: int| 0 <= k < flags.len() implies raised(flags, longer)[k] == raised(
                    flags,
                    list,
                ).update(o as int, true)[k] by {
                    assert(longer.contains(Subscriber::Observer(k as usize)) <==> (list.contains(
                        Subscriber::Observer(k as usize),
                    ) || s == Subscriber::Observer(k as usize)));
                    if k == o as int {
                        assert(s == Subscriber::Observer(k as usize));
                    } else {
                        assert(s != Subscriber::Observer(k as usize));
                    }
                }
                assert(raised(flags, longer) =~= raised(flags, list).update(o as int, true));
            } else {
                assert(raised(flags, longer) =~= raised(flags, list));
            }
        },
        Subscriber::Forward(_) => {
            assert(raised(flags, longer) =~= raised(flags, list));
        },
    }
}

/// A step marks exactly what a notification reaches in one more
/// forwarding step.
proof fn lemma_step_reaches(m: ObservablesModel, a: int, k: nat, marked: Seq<bool>, next: Seq<bool>)
    requires
        marked.len() == m.subscribers.len(),
        next.len() == marked.len(),
        forall|b: int| 0 <= b < marked.len() ==> (marked[b] <==> m.reached(a, k).contains(b)),
        forall|b: int|
            0 <= b < next.len() ==> (next[b] <==> (marked[b] || exists|c: int|
                0 <= c < marked.len() && marked[c] && #[trigger] m.forwards(c, b))),
    ensures
        forall|b: int| 0 <= b < next.len() ==> (next[b] <==> m.reached(a, k + 1).contains(b)),
{
    let before = m.reached(a, k);
    assert(m.reached(a, k + 1) == before.union(
        Set::new(|x: int| exists|c: int| before.contains(c) && m.forwards(c, x)),
    ));
    assert forall|b: int| 0 <= b < next.len() implies (next[b] <==> m.reached(a, k + 1).contains(b)) by {
        if exists|c: int| before.contains(c) && m.forwards(c, b) {
            let c = choose|c: int| before.contains(c) && m.forwards(c, b);
            assert(marked[c]);
        }
        if exists|c: int| 0 <= c < marked.len() && marked[c] && #[trigger] m.forwards(c, b) {
            let c = choose|c: int| 0 <= c < marked.len() && marked[c] && #[trigger] m.forwards(c, b);
            assert(before.contains(c));
        }
    }
}

/// What a filter keeps is an element of the sequence filtered.
proof fn lemma_filter_member(s: Seq<Subscriber>, pred: spec_fn(Subscriber) -> bool, k: int)
    requires
        0 <= k < s.filter(pred).len(),
    ensures
        exists|j: int| 0 <= j < s.len() && s[j] == s.filter(pred)[k],
    decreases s.len(),
{
    reveal(Seq::filter);
    let rest = s.drop_last().filter(pred);
    if k < rest.len() {
        lemma_filter_member(s.drop_last(), pred, k);
        let j = choose|j: int| 0 <= j < s.drop_last().len() && s.drop_last()[j] == rest[k];
        assert(s[j] == s.filter(pred)[k]);
    } else {
        assert(s[s.len() - 1] == s.filter(pred)[k]);
    }
}

} // verus!
