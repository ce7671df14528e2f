//! The notification of one subscriber with one event, as decisions.
//!
//! A notification asks up to three questions, in this order, and stops at
//! the first that settles it: is the sender closed; does the filter want the
//! event; did the queue take it. The first two are asked by
//! [`Sender::notify`](crate::events::Sender::notify). The third can make the
//! notifier wait, so the caller asks it: it sends the copy that `notify`
//! hands out, and tells [`Step::finish`] whether the queue took it.
//!
//! What the answers are is for the queue and the filter to say. What follows
//! from them is decided here, by functions that take the answers as
//! arguments.

use vstd::prelude::*;

verus! {

/// How the notification of one sender with one event ended.
#[derive(Clone, Copy, Debug, PartialEq, Eq, Structural)]
pub enum Outcome {
    /// The sender was found closed. The filter was not asked and nothing was
    /// sent.
    Closed,
    /// The filter did not want the event. Nothing was sent, so nothing was
    /// learnt about the subscriber: it counts as alive.
    Skipped,
    /// The queue took a copy of the event.
    Delivered,
    /// The queue refused the copy: the subscriber went away meanwhile.
    Failed,
}

impl Outcome {
    /// The outcome that the three answers decide. An answer that is never
    /// asked for does not matter: `interested` where the sender is closed,
    /// `sent` where nothing is sent.
    pub open spec fn of(closed: bool, interested: bool, sent: bool) -> Outcome {
        if closed {
            Outcome::Closed
        } else if !interested {
            Outcome::Skipped
        } else if sent {
            Outcome::Delivered
        } else {
            Outcome::Failed
        }
    }

    /// Whether the subscriber is kept after a notification that ended so.
    pub open spec fn alive(self) -> bool {
        self is Skipped || self is Delivered
    }

    /// Whether the event went onto the subscriber's queue.
    pub open spec fn queued(self) -> bool {
        self is Delivered
    }

    /// The outcome of a notification whose copy was sent: delivered where
    /// the queue took it, failed where it did not.
    pub fn after_send(sent: bool) -> (outcome: Outcome)
        ensures
            outcome == Outcome::of(false, true, sent),
            outcome.alive() == sent,
    {
        if sent {
            Outcome::Delivered
        } else {
            Outcome::Failed
        }
    }

    /// Whether the subscriber is kept after a notification that ended so.
    pub fn is_alive(&self) -> (alive: bool)
        ensures
            alive == self.alive(),
    {
        match self {
            Outcome::Skipped | Outcome::Delivered => true,
            Outcome::Closed | Outcome::Failed => false,
        }
    }
}

/// What is left to do for one sender and one event, once the sender and its
/// filter were asked.
pub enum Step<Event> {
    /// Nothing: the notification ended without a send, with this outcome.
    Settled(Outcome),
    /// Send this copy of the event, then say how it went.
    Send(Event),
}

impl<Event: Clone> Step<Event> {
    /// The step that the first two answers decide: nothing is left where
    /// the sender is closed or the filter does not want the event, and
    /// otherwise a copy of the event is to be sent. The event is copied only
    /// where the copy is sent.
    pub fn decide(closed: bool, interested: bool, evt: &Event) -> (step: Step<Event>)
        ensures
            closed ==> step == Step::<Event>::Settled(Outcome::Closed),
            !closed && !interested ==> step == Step::<Event>::Settled(Outcome::Skipped),
            !closed && interested ==> step is Send && cloned(*evt, step->Send_0),
            forall|sent: bool|
                #[trigger] step.outcome(sent) == Outcome::of(closed, interested, sent),
    {
        if closed {
            Step::Settled(Outcome::Closed)
        } else if !interested {
            Step::Settled(Outcome::Skipped)
        } else {
            Step::Send(evt.clone())
        }
    }
}

impl<Event> Step<Event> {
    /// The outcome of the notification, given how the send went. Where
    /// nothing was to be sent, `sent` does not matter.
    pub open spec fn outcome(self, sent: bool) -> Outcome {
        match self {
            Step::Settled(outcome) => outcome,
            Step::Send(_) => if sent {
                Outcome::Delivered
            } else {
                Outcome::Failed
            },
        }
    }

    /// The outcome of the notification, given how the send went.
    pub fn finish(&self, sent: bool) -> (outcome: Outcome)
        ensures
            outcome == self.outcome(sent),
    {
        match self {
            Step::Settled(outcome) => *outcome,
            Step::Send(_) => Outcome::after_send(sent),
        }
    }
}

} // verus!
