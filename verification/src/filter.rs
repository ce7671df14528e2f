//! What a subscriber wants to be sent.

use vstd::prelude::*;

verus! {

/// A predicate on events, owned by the sender it was subscribed with.
///
/// It is asked once for each event that its subscriber could be sent. It may
/// keep state between two questions (to let through one event a second, say),
/// so the same event need not get the same answer twice.
///
/// An implementation may say which answers it gives, and whether it keeps
/// state; what it says is then proved of `test`. One that says nothing leaves
/// `answers` and `steady` as they are here, which promises nothing.
pub trait Predicate<Event>: Send {
    /// Whether `interested` is an answer that the predicate, as it is now,
    /// can give for `evt`. A predicate that does not say is taken to give
    /// either answer.
    open spec fn answers(&self, evt: &Event, interested: bool) -> bool {
        true
    }

    /// Whether the predicate keeps no state that matters: to ask it does
    /// not change what it answers from then on. A predicate that does not
    /// say is taken to keep state.
    open spec fn steady(&self) -> bool {
        false
    }

    /// Whether the subscriber wants `evt`.
    fn test(&mut self, evt: &Event) -> (interested: bool)
        ensures
            old(self).answers(evt, interested),
            old(self).steady() ==> final(self).steady() && forall|e: &Event, i: bool|
                #[trigger] final(self).answers(e, i) == old(self).answers(e, i),
    ;
}

/// A predicate that is a function or a closure without state.
struct FnPredicate<Event, F: Fn(&Event) -> bool + Send> {
    f: F,
    event: std::marker::PhantomData<Event>,
}

impl<Event, F: Fn(&Event) -> bool + Send> FnPredicate<Event, F> {
    /// The function can be called on every event.
    #[verifier::type_invariant]
    spec fn total(self) -> bool {
        forall|evt: &Event| call_requires(self.f, (evt,))
    }
}

impl<Event: Send, F: Fn(&Event) -> bool + Send> Predicate<Event> for FnPredicate<Event, F> {
    closed spec fn answers(&self, evt: &Event, interested: bool) -> bool {
        call_ensures(self.f, (evt,), interested)
    }

    closed spec fn steady(&self) -> bool {
        true
    }

    fn test(&mut self, evt: &Event) -> (interested: bool) {
        proof {
            use_type_invariant(&*self);
        }
        (self.f)(evt)
    }
}

/// A predicate of any type, as the filter holds it.
struct Held<Event, P: Predicate<Event>> {
    predicate: P,
    event: std::marker::PhantomData<Event>,
}

impl<Event: Send, P: Predicate<Event>> Predicate<Event> for Held<Event, P> {
    closed spec fn answers(&self, evt: &Event, interested: bool) -> bool {
        self.predicate.answers(evt, interested)
    }

    closed spec fn steady(&self) -> bool {
        self.predicate.steady()
    }

    fn test(&mut self, evt: &Event) -> (interested: bool) {
        self.predicate.test(evt)
    }
}

/// The filter of one subscription.
#[verifier::reject_recursive_types(Event)]
pub struct Filter<Event> {
    predicate: Box<dyn Predicate<Event>>,
}

impl<Event: Send + 'static> Filter<Event> {
    /// Whether `interested` is an answer that the filter, as it is now, can
    /// give for `evt`.
    pub closed spec fn answers(&self, evt: &Event, interested: bool) -> bool {
        self.predicate.answers(evt, interested)
    }

    /// Whether the filter keeps no state that matters: to ask it does not
    /// change what it answers from then on.
    pub closed spec fn steady(&self) -> bool {
        self.predicate.steady()
    }

    /// The filter that asks `predicate`.
    pub fn new<P: Predicate<Event> + 'static>(predicate: P) -> (filter: Filter<Event>)
        ensures
            filter.steady() == predicate.steady(),
            forall|evt: &Event, interested: bool|
                #[trigger] filter.answers(evt, interested) == predicate.answers(evt, interested),
    {
        Filter { predicate: Box::new(Held { predicate, event: std::marker::PhantomData }) }
    }

    /// The filter that asks a function or a closure, which must accept every
    /// event. A predicate that keeps state implements [`Predicate`] and
    /// comes in through [`Filter::new`].
    pub fn from_fn<F: Fn(&Event) -> bool + Send + 'static>(f: F) -> (filter: Filter<Event>)
        requires
            forall|evt: &Event| call_requires(f, (evt,)),
        ensures
            filter.steady(),
            forall|evt: &Event, interested: bool|
                #[trigger] filter.answers(evt, interested) == call_ensures(f, (evt,), interested),
    {
        Filter { predicate: Box::new(FnPredicate { f, event: std::marker::PhantomData }) }
    }

    /// Asks the predicate whether the subscriber wants `evt`.
    pub fn call(&mut self, evt: &Event) -> (interested: bool)
        ensures
            old(self).answers(evt, interested),
            old(self).steady() ==> final(self).steady() && forall|e: &Event, i: bool|
                #[trigger] final(self).answers(e, i) == old(self).answers(e, i),
    {
        self.predicate.test(evt)
    }
}

} // verus!
