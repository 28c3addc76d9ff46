//! Shared, relinkable handles to observable pointees.
//!
//! Every copy of a [`Handle`] shares one link, which holds the current
//! pointee. Relinking through a [`RelinkableHandle`] changes the pointee for
//! every copy and notifies the observers registered with the link. A link
//! also observes its pointee: it registers a forwarder with the pointee's
//! observable, so that a change of the pointee reaches the link's observers
//! too, and relinking moves that registration to the new pointee.
//!
//! Links live in a [`Links`] registry and observables in an
//! [`Observables`] one; a handle names its link by identifier, and a
//! pointee comes with the identifier of the observable it notifies through.
use vstd::prelude::*;

use crate::errors::QlError;
use crate::patterns::observable::{
    Observables, ObservablesModel, Subscriber, lemma_direct_observers_are_notified,
    lemma_forwarded_observers_are_notified, other_than,
};

verus! {

/// The state a handle and its copies share: the current pointee, with the
/// observable it notifies through, and the link's own observable.
pub struct Link<P> {
    current: Option<(P, usize)>,
    observable: usize,
}

/// What a link is.
pub struct LinkModel<P> {
    /// The current pointee and the observable it notifies through, if any.
    pub current: Option<(P, usize)>,
    /// The observable the link notifies its observers through.
    pub observable: usize,
}

/// The links handles share, by identifier.
pub struct Links<P> {
    links: Vec<Link<P>>,
}

impl<P> View for Links<P> {
    type V = Seq<LinkModel<P>>;

    closed spec fn view(&self) -> Seq<LinkModel<P>> {
        self.links@.map_values(|l: Link<P>| LinkModel { current: l.current, observable: l.observable })
    }
}

/// Whether every link's observable, and the observable of every current
/// pointee, is one of the registry's.
pub open spec fn links_consistent<P>(links: Seq<LinkModel<P>>, observables: ObservablesModel) -> bool {
    forall|i: int|
        0 <= i < links.len() ==> {
            &&& (#[trigger] links[i]).observable < observables.subscribers.len()
            &&& links[i].current matches Some(c) ==> c.1 < observables.subscribers.len()
        }
}

/// The registry once the forwarder of the link observing through
/// `link_observable` is unregistered from its current pointee, if any.
pub open spec fn unhooked<P>(observables: ObservablesModel, link: LinkModel<P>) -> ObservablesModel {
    match link.current {
        Some(c) => observables.unsubscribed(c.1 as int, Subscriber::Forward(link.observable)),
        None => observables,
    }
}

/// Law: relinking or resetting a handle notifies every observer
/// registered with its link.
pub proof fn lemma_relinking_notifies_the_link_observers(
    moved: ObservablesModel,
    link_observable: int,
    observer: int,
)
    requires
        moved.observes(link_observable, observer),
    ensures
        moved.after_notifying(link_observable).flags[observer],
{
    lemma_direct_observers_are_notified(moved, link_observable, observer);
}

/// Law: while a link's forwarder is registered with its pointee's
/// observable, a change of the pointee notifies every observer registered
/// with the link.
pub proof fn lemma_pointee_changes_reach_the_link_observers(
    observables: ObservablesModel,
    pointee_observable: int,
    link_observable: int,
    observer: int,
)
    requires
        observables.forwards(pointee_observable, link_observable),
        observables.observes(link_observable, observer),
    ensures
        observables.after_notifying(pointee_observable).flags[observer],
{
    lemma_forwarded_observers_are_notified(observables, pointee_observable, link_observable, observer);
}

/// Law: once a link is relinked or reset, its old pointee no longer
/// forwards to it.
pub proof fn lemma_the_old_pointee_is_unhooked<P>(observables: ObservablesModel, link: LinkModel<P>)
    requires
        link.current is Some,
        link.current.unwrap().1 < observables.subscribers.len(),
    ensures
        !unhooked(observables, link).forwards(link.current.unwrap().1 as int, link.observable as int),
{
    let q = link.current.unwrap().1 as int;
    let forwarder = Subscriber::Forward(link.observable);
    let kept = observables.subscribers[q].filter(other_than(forwarder));
    assert(unhooked(observables, link).subscribers[q] == kept);
    if kept.contains(forwarder) {
        let i = choose|i: int| 0 <= i < kept.len() && kept[i] == forwarder;
        observables.subscribers[q].lemma_filter_pred(other_than(forwarder), i);
    }
}

impl<P> Links<P> {
    /// A registry without links.
    pub fn new() -> (r: Links<P>)
        ensures
            r@.len() == 0,
    {
        let r = Links { links: Vec::new() };
        assert(r@ =~= Seq::<LinkModel<P>>::empty());
        r
    }

    /// Adds a link with the given pointee and a new observable of its own,
    /// whose forwarder is registered with the pointee's observable.
    fn add(&mut self, observables: &mut Observables, current: Option<(P, usize)>) -> (r: usize)
        requires
            old(observables)@.wf(),
            old(observables)@.subscribers.len() < usize::MAX,
            links_consistent(old(self)@, old(observables)@),
            current matches Some(c) ==> c.1 < old(observables)@.subscribers.len(),
        ensures
            r == old(self)@.len(),
            final(self)@ == old(self)@.push(
                LinkModel { current, observable: old(observables)@.subscribers.len() as usize },
            ),
            final(observables)@ == match current {
                Some(c) => old(observables)@.with_observable().subscribed(
                    c.1 as int,
                    Subscriber::Forward(old(observables)@.subscribers.len() as usize),
                ),
                None => old(observables)@.with_observable(),
            },
            final(observables)@.wf(),
            links_consistent(final(self)@, final(observables)@),
    {
        let observable = observables.add_observable();
        let pointee_observable = match &current {
            Some(c) => Some(c.1),
            None => None,
        };
        if let Some(q) = pointee_observable {
            observables.register(q, Subscriber::Forward(observable));
        }
        let r = self.links.len();
        let ghost before = self@;
        self.links.push(Link { current, observable });
        assert(self@ =~= before.push(LinkModel { current, observable }));
        r
    }
}

/// A shared handle to a pointee: every copy names the same link.
#[derive(Clone, Copy, Debug, PartialEq, Eq, Structural)]
pub struct Handle {
    link: usize,
}

impl Handle {
    /// The identifier of the handle's link.
    pub closed spec fn link(&self) -> usize {
        self.link
    }

    /// A handle to no pointee, over a new link.
    pub fn empty<P>(links: &mut Links<P>, observables: &mut Observables) -> (r: Handle)
        requires
            old(observables)@.wf(),
            old(observables)@.subscribers.len() < usize::MAX,
            links_consistent(old(links)@, old(observables)@),
        ensures
            r.link() == old(links)@.len(),
            final(links)@ == old(links)@.push(
                LinkModel { current: None, observable: old(observables)@.subscribers.len() as usize },
            ),
            final(observables)@ == old(observables)@.with_observable(),
            final(observables)@.wf(),
            links_consistent(final(links)@, final(observables)@),
    {
        Handle { link: links.add(observables, None) }
    }

    /// A handle to `pointee`, which notifies through observable
    /// `pointee_observable`, over a new link whose forwarder is registered
    /// with that observable.
    pub fn new<P>(
        links: &mut Links<P>,
        observables: &mut Observables,
        pointee: P,
        pointee_observable: usize,
    ) -> (r: Handle)
        requires
            old(observables)@.wf(),
            old(observables)@.subscribers.len() < usize::MAX,
            links_consistent(old(links)@, old(observables)@),
            pointee_observable < old(observables)@.subscribers.len(),
        ensures
            r.link() == old(links)@.len(),
            final(links)@ == old(links)@.push(
                LinkModel {
                    current: Some((pointee, pointee_observable)),
                    observable: old(observables)@.subscribers.len() as usize,
                },
            ),
            final(observables)@ == old(observables)@.with_observable().subscribed(
                pointee_observable as int,
                Subscriber::Forward(old(observables)@.subscribers.len() as usize),
            ),
            final(observables)@.wf(),
            links_consistent(final(links)@, final(observables)@),
    {
        Handle { link: links.add(observables, Some((pointee, pointee_observable))) }
    }

    /// The current pointee; refused when the handle points at nothing.
    pub fn current_link<'a, P>(&self, links: &'a Links<P>) -> (r: Result<&'a P, QlError>)
        requires
            self.link() < links@.len(),
        ensures
            match links@[self.link() as int].current {
                Some(c) => r matches Ok(p) && *p == c.0,
                None => r == Err::<&P, QlError>(QlError::EmptyHandle),
            },
    {
        match &links.links[self.link].current {
            Some(c) => Ok(&c.0),
            None => Err(QlError::EmptyHandle),
        }
    }

    /// Whether the handle points at nothing.
    pub fn is_empty<P>(&self, links: &Links<P>) -> (r: bool)
        requires
            self.link() < links@.len(),
        ensures
            r == links@[self.link() as int].current is None,
    {
        links.links[self.link].current.is_none()
    }

    /// Registers observer `observer` with the handle's link, which notifies
    /// it of every relink and every change of the pointee; says whether it
    /// was not registered already.
    pub fn register_observer<P>(&self, links: &Links<P>, observables: &mut Observables, observer: usize) -> (r:
        bool)
        requires
            self.link() < links@.len(),
            old(observables)@.wf(),
            links_consistent(links@, old(observables)@),
            observer < old(observables)@.flags.len(),
        ensures
            r == !old(observables)@.subscribers[links@[self.link() as int].observable as int].contains(
                Subscriber::Observer(observer),
            ),
            final(observables)@ == old(observables)@.subscribed(
                links@[self.link() as int].observable as int,
                Subscriber::Observer(observer),
            ),
            final(observables)@.wf(),
            links_consistent(links@, final(observables)@),
    {
        let observable = links.links[self.link].observable;
        assert(links@[self.link() as int].observable < old(observables)@.subscribers.len());
        observables.register(observable, Subscriber::Observer(observer))
    }

    /// Whether the two handles share one link.
    pub fn points_to_same_link(&self, other: &Handle) -> (r: bool)
        ensures
            r == (self.link() == other.link()),
    {
        self.link == other.link
    }
}

/// A handle through which the shared link can be pointed elsewhere, for
/// every copy at once.
#[derive(Debug)]
pub struct RelinkableHandle {
    handle: Handle,
}

impl RelinkableHandle {
    /// The identifier of the handle's link.
    pub closed spec fn link(&self) -> usize {
        self.handle.link
    }

    /// A relinkable handle to no pointee, over a new link.
    pub fn empty<P>(links: &mut Links<P>, observables: &mut Observables) -> (r: RelinkableHandle)
        requires
            old(observables)@.wf(),
            old(observables)@.subscribers.len() < usize::MAX,
            links_consistent(old(links)@, old(observables)@),
        ensures
            r.link() == old(links)@.len(),
            final(links)@ == old(links)@.push(
                LinkModel { current: None, observable: old(observables)@.subscribers.len() as usize },
            ),
            final(observables)@ == old(observables)@.with_observable(),
            final(observables)@.wf(),
            links_consistent(final(links)@, final(observables)@),
    {
        RelinkableHandle { handle: Handle::empty(links, observables) }
    }

    /// A relinkable handle to `pointee`, which notifies through observable
    /// `pointee_observable`, over a new link.
    pub fn new<P>(
        links: &mut Links<P>,
        observables: &mut Observables,
        pointee: P,
        pointee_observable: usize,
    ) -> (r: RelinkableHandle)
        requires
            old(observables)@.wf(),
            old(observables)@.subscribers.len() < usize::MAX,
            links_consistent(old(links)@, old(observables)@),
            pointee_observable < old(observables)@.subscribers.len(),
        ensures
            r.link() == old(links)@.len(),
            final(links)@ == old(links)@.push(
                LinkModel {
                    current: Some((pointee, pointee_observable)),
                    observable: old(observables)@.subscribers.len() as usize,
                },
            ),
            final(observables)@ == old(observables)@.with_observable().subscribed(
                pointee_observable as int,
                Subscriber::Forward(old(observables)@.subscribers.len() as usize),
            ),
            final(observables)@.wf(),
            links_consistent(final(links)@, final(observables)@),
    {
        RelinkableHandle { handle: Handle::new(links, observables, pointee, pointee_observable) }
    }

    /// A plain handle sharing this one's link.
    pub fn handle(&self) -> (r: Handle)
        ensures
            r.link() == self.link(),
    {
        self.handle
    }

    /// Points the shared link at `new_current`: moves the link's forwarder
    /// from the old pointee's observable to the new one's, then notifies
    /// the link's observers.
    fn relink<P>(&self, links: &mut Links<P>, observables: &mut Observables, new_current: Option<(P, usize)>)
        requires
            self.link() < old(links)@.len(),
            old(observables)@.wf(),
            links_consistent(old(links)@, old(observables)@),
            new_current matches Some(c) ==> c.1 < old(observables)@.subscribers.len(),
        ensures
            ({
                let link = old(links)@[self.link() as int];
                let forwarder = Subscriber::Forward(link.observable);
                let moved = match new_current {
                    Some(c) => unhooked(old(observables)@, link).subscribed(c.1 as int, forwarder),
                    None => unhooked(old(observables)@, link),
                };
                &&& final(links)@ == old(links)@.update(
                    self.link() as int,
                    LinkModel { current: new_current, observable: link.observable },
                )
                &&& final(observables)@ == moved.after_notifying(link.observable as int)
            }),
            final(observables)@.wf(),
            links_consistent(final(links)@, final(observables)@),
    {
        let i = self.handle.link;
        let ghost link = links@[i as int];
        let observable = links.links[i].observable;
        let forwarder = Subscriber::Forward(observable);
        let old_pointee_observable = match &links.links[i].current {
            Some(c) => Some(c.1),
            None => None,
        };
        assert(link.observable < observables@.subscribers.len());
        if let Some(q) = old_pointee_observable {
            observables.unregister(q, forwarder);
        }
        let new_pointee_observable = match &new_current {
            Some(c) => Some(c.1),
            None => None,
        };
        if let Some(q) = new_pointee_observable {
            observables.register(q, forwarder);
        }
        let ghost before = links@;
        links.links.set(i, Link { current: new_current, observable });
        assert(links@ =~= before.update(i as int, LinkModel { current: new_current, observable }));
        observables.notify(observable);
    }

    /// Points the shared link at `pointee`, which notifies through
    /// observable `pointee_observable`: moves the link's forwarder from the
    /// old pointee's observable to the new one's, then notifies the
    /// observers registered with the link.
    pub fn link_to<P>(
        &self,
        links: &mut Links<P>,
        observables: &mut Observables,
        pointee: P,
        pointee_observable: usize,
    )
        requires
            self.link() < old(links)@.len(),
            old(observables)@.wf(),
            links_consistent(old(links)@, old(observables)@),
            pointee_observable < old(observables)@.subscribers.len(),
        ensures
            ({
                let link = old(links)@[self.link() as int];
                &&& final(links)@ == old(links)@.update(
                    self.link() as int,
                    LinkModel {
                        current: Some((pointee, pointee_observable)),
                        observable: link.observable,
                    },
                )
                &&& final(observables)@ == unhooked(old(observables)@, link).subscribed(
                    pointee_observable as int,
                    Subscriber::Forward(link.observable),
                ).after_notifying(link.observable as int)
            }),
            final(observables)@.wf(),
            links_consistent(final(links)@, final(observables)@),
    {
        self.relink(links, observables, Some((pointee, pointee_observable)));
    }

    /// Empties the shared link: unregisters the link's forwarder from the
    /// old pointee's observable, then notifies the observers registered
    /// with the link.
    pub fn reset<P>(&self, links: &mut Links<P>, observables: &mut Observables)
        requires
            self.link() < old(links)@.len(),
            old(observables)@.wf(),
            links_consistent(old(links)@, old(observables)@),
        ensures
            ({
                let link = old(links)@[self.link() as int];
                &&& final(links)@ == old(links)@.update(
                    self.link() as int,
                    LinkModel { current: None, observable: link.observable },
                )
                &&& final(observables)@ == unhooked(old(observables)@, link).after_notifying(
                    link.observable as int,
                )
            }),
            final(observables)@.wf(),
            links_consistent(final(links)@, final(observables)@),
    {
        self.relink(links, observables, None);
    }
}

} // verus!
