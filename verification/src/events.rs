//! The two halves of one subscription: the stream of events that the
//! subscriber holds, and the sender through which the notifier reaches it.

use vstd::prelude::*;
use vstd::std_specs::convert::FromSpec;
use futures::channel::mpsc::{
    self, Receiver as FutReceiver, SendError, Sender as FutSender,
    UnboundedReceiver as FutUnboundedReceiver, UnboundedSender as FutUnboundedSender,
};
use std::task::{Context, Poll};
use crate::error::Error;
use crate::filter::Filter;
use crate::notify::{Outcome, Step};
use crate::observable::{Channel, ObserveConfig};
use crate::transport::{
    bounded_poll_close, bounded_poll_flush, bounded_poll_next, bounded_poll_ready,
    bounded_start_send, unbounded_poll_close, unbounded_poll_flush, unbounded_poll_next,
    unbounded_poll_ready, unbounded_start_send,
};

verus! {

/// The sending half of a queue, of either discipline. A bounded one goes
/// with a record of the size that was chosen for its queue.
#[verifier::reject_recursive_types(Event)]
enum Tx<Event> {
    Bounded(FutSender<Event>, Ghost<usize>),
    Unbounded(FutUnboundedSender<Event>),
}

/// The receiving half of a queue, of either discipline. A bounded one goes
/// with a record of the size that was chosen for its queue.
#[verifier::reject_recursive_types(Event)]
enum Rx<Event> {
    Bounded(FutReceiver<Event>, Ghost<usize>),
    Unbounded(FutUnboundedReceiver<Event>),
}

/// A stream of events: what a subscriber holds.
///
/// It yields the events that the notifier sent to this subscriber, in the
/// order in which they were broadcast. Once it has reported its end it stays
/// ended.
#[verifier::reject_recursive_types(Event)]
pub struct Events<Event> where Event: Clone + 'static + Send {
    rx: Receiver<Event>,
}

/// The sender of one subscription: the sending half of its queue, and the
/// filter that the subscriber chose. The notifier holds it.
#[verifier::reject_recursive_types(Event)]
pub struct Sender<Event> where Event: Clone + 'static + Send {
    tx: Tx<Event>,
    filter: Option<Filter<Event>>,
}

/// The receiver of one subscription: the receiving half of its queue, and
/// whether it has reported the end of the queue.
#[verifier::reject_recursive_types(Event)]
pub struct Receiver<Event> where Event: Clone + 'static + Send {
    rx: Rx<Event>,
    ended: bool,
}

impl<Event> Events<Event> where Event: Clone + 'static + Send {
    /// The discipline that was chosen for the queue, with its size where it
    /// is bounded.
    pub closed spec fn channel(&self) -> Channel {
        self.rx.channel()
    }

    /// Whether the queue is bounded.
    pub open spec fn is_bounded(&self) -> bool {
        self.channel() is Bounded
    }

    /// Whether the stream has reported its end.
    pub closed spec fn ended(&self) -> bool {
        self.rx.ended()
    }

    /// A new subscription: its stream and its sender, joined by a queue of
    /// the chosen discipline. The sender takes the filter; the stream never
    /// sees it.
    pub fn new(config: ObserveConfig<Event>) -> (pair: (Self, Sender<Event>))
        requires
            config.channel.valid(),
        ensures
            pair.0.channel() == config.channel,
            !pair.0.ended(),
            pair.1.channel() == config.channel,
            pair.1.filter() == config.filter,
    {
        let (tx, rx) = match config.channel {
            Channel::Bounded(queue_size) => {
                let (tx, rx) = mpsc::channel(queue_size);
                (
                    Sender { tx: Tx::Bounded(tx, Ghost(queue_size)), filter: config.filter },
                    Receiver { rx: Rx::Bounded(rx, Ghost(queue_size)), ended: false },
                )
            },
            Channel::Unbounded => {
                let (tx, rx) = mpsc::unbounded();
                (
                    Sender { tx: Tx::Unbounded(tx), filter: config.filter },
                    Receiver { rx: Rx::Unbounded(rx), ended: false },
                )
            },
        };
        (Events { rx }, tx)
    }

    /// Closes the queue: the sender takes no new events from now on, and the
    /// events that are in the queue can still be read. Dropping the stream
    /// instead loses them.
    pub fn close(&mut self)
        ensures
            final(self).channel() == old(self).channel(),
            final(self).ended() == old(self).ended(),
    {
        self.rx.close();
    }

    /// Asks for the next event. The answer is an event, "not yet", or the
    /// end of the stream: the queue is closed and empty. The end is final:
    /// once reported, it is the answer to every later poll, and the queue is
    /// not asked again.
    pub fn poll_next(&mut self, cx: &mut Context<'_>) -> (polled: Poll<Option<Event>>)
        ensures
            final(self).channel() == old(self).channel(),
            old(self).ended() ==> polled matches Poll::Ready(None),
            final(self).ended() <==> old(self).ended() || polled matches Poll::Ready(None),
    {
        self.rx.poll_next(cx)
    }

    /// The stream as text, for debugging, given the name of the event type.
    pub fn fmt(&self, event_type: &str) -> (text: String)
        ensures
            text@ == "Events { rx: "@ + receiver_label(self.is_bounded(), event_type@) + " }"@,
    {
        let mut text = String::from_str("Events { rx: ");
        let rx = self.rx.fmt(event_type);
        text.append(rx.as_str());
        text.append(" }");
        text
    }
}

impl<Event> Sender<Event> where Event: Clone + 'static + Send {
    /// The discipline that was chosen for the queue, with its size where it
    /// is bounded.
    pub closed spec fn channel(&self) -> Channel {
        match self.tx {
            Tx::Bounded(_, size) => Channel::Bounded(size@),
            Tx::Unbounded(_) => Channel::Unbounded,
        }
    }

    /// Whether the queue is bounded.
    pub open spec fn is_bounded(&self) -> bool {
        self.channel() is Bounded
    }

    /// The filter that the subscriber chose, if it chose one.
    pub closed spec fn filter(&self) -> Option<Filter<Event>> {
        self.filter
    }

    /// Whether this sender is `other` but for what its filter may remember:
    /// of the same discipline and size, and with a filter where `other` has
    /// one.
    pub open spec fn alike(&self, other: &Self) -> bool {
        &&& self.channel() == other.channel()
        &&& self.filter() is Some == other.filter() is Some
    }

    /// Whether `interested` is an answer that this sender's filter, as it is
    /// now, can give for `evt`. A sender without a filter wants every event.
    pub open spec fn wants(&self, evt: &Event, interested: bool) -> bool {
        wanted_by(self.filter(), evt, interested)
    }

    /// Whether a notification leaves what this sender wants as it is: it has
    /// no filter, or one that keeps no state that matters.
    pub open spec fn steady(&self) -> bool {
        steady_or_none(self.filter())
    }

    /// Whether this sender wants what `other` wants, and goes on wanting it.
    pub open spec fn same_wishes(&self, other: &Self) -> bool {
        &&& self.steady()
        &&& forall|e: &Event, i: bool| #[trigger] self.wants(e, i) == other.wants(e, i)
    }

    /// Whether the subscriber is gone: it closed or dropped its stream.
    pub fn is_closed(&self) -> (closed: bool) {
        match &self.tx {
            Tx::Bounded(tx, _) => tx.is_closed(),
            Tx::Unbounded(tx) => tx.is_closed(),
        }
    }

    /// Begins the notification of this subscriber with `evt`: asks whether
    /// the sender is closed and, if it is not, whether the filter wants the
    /// event. A closed sender settles the notification as closed, without
    /// asking the filter. An event that the filter does not want settles it
    /// as skipped. Otherwise a copy of the event is handed out to be sent;
    /// the event itself stays with the caller, for the subscribers that follow.
    pub fn notify(&mut self, evt: &Event) -> (step: Step<Event>)
        ensures
            final(self).alike(old(self)),
            step matches Step::Settled(outcome) ==> outcome is Closed || outcome is Skipped,
            step matches Step::Settled(Outcome::Closed) ==> *final(self) == *old(self),
            old(self).steady() ==> final(self).same_wishes(old(self)),
            step matches Step::Settled(Outcome::Skipped) ==> old(self).wants(evt, false),
            step matches Step::Send(copy) ==> old(self).wants(evt, true) && cloned(*evt, copy),
    {
        if self.is_closed() {
            return Step::decide(true, false, evt);
        }
        Self::notifier(&mut self.filter, evt)
    }

    /// Decides for a sender that is not closed: skip the event where the
    /// filter does not want it, send a copy where it does or where there is
    /// no filter.
    pub fn notifier(filter: &mut Option<Filter<Event>>, evt: &Event) -> (step: Step<Event>)
        ensures
            *final(filter) is Some == *old(filter) is Some,
            steady_or_none(*old(filter)) ==> steady_or_none(*final(filter)) && forall|
                e: &Event,
                i: bool,
            | #[trigger] wanted_by(*final(filter), e, i) == wanted_by(*old(filter), e, i),
            step matches Step::Settled(outcome) ==> outcome is Skipped && wanted_by(
                *old(filter),
                evt,
                false,
            ),
            step matches Step::Send(copy) ==> wanted_by(*old(filter), evt, true) && cloned(
                *evt,
                copy,
            ),
    {
        let interested = match filter {
            Some(f) => f.call(evt),
            None => true,
        };
        Step::decide(false, interested, evt)
    }

    /// Asks whether the queue has room for one more item. An unbounded
    /// sender answers at once. The only refusal is that of a closed queue.
    pub fn poll_ready(&mut self, cx: &mut Context<'_>) -> (polled: Poll<Result<(), Error>>)
        ensures
            final(self).channel() == old(self).channel(),
            final(self).filter() == old(self).filter(),
            !old(self).is_bounded() ==> polled is Ready,
            polled matches Poll::Ready(Err(e)) ==> e.kind is Closed,
    {
        match &mut self.tx {
            Tx::Bounded(tx, _) => ready_or(bounded_poll_ready(tx, cx)),
            Tx::Unbounded(tx) => ready_or(unbounded_poll_ready(tx, cx)),
        }
    }

    /// Hands `item` to the queue, past the filter. A bounded queue refuses
    /// it where the sender was not ready; either queue refuses it once it is
    /// closed.
    pub fn start_send(&mut self, item: Event) -> (sent: Result<(), Error>)
        ensures
            final(self).channel() == old(self).channel(),
            final(self).filter() == old(self).filter(),
            !old(self).is_bounded() ==> (sent matches Err(e) ==> e.kind is Closed),
    {
        match &mut self.tx {
            Tx::Bounded(tx, _) => accepted_or(bounded_start_send(tx, item)),
            Tx::Unbounded(tx) => accepted_or(unbounded_start_send(tx, item)),
        }
    }

    /// Waits until the queue has taken what it was handed. An unbounded
    /// sender is done at once. A flush never fails: a closed queue counts as
    /// flushed.
    pub fn poll_flush(&mut self, cx: &mut Context<'_>) -> (polled: Poll<Result<(), Error>>)
        ensures
            final(self).channel() == old(self).channel(),
            final(self).filter() == old(self).filter(),
            !old(self).is_bounded() ==> polled is Ready,
            !(polled matches Poll::Ready(Err(_))),
    {
        match &mut self.tx {
            Tx::Bounded(tx, _) => ready_or(bounded_poll_flush(tx, cx)),
            Tx::Unbounded(tx) => ready_or(unbounded_poll_flush(tx, cx)),
        }
    }

    /// Lets go of the queue. It is done at once and never fails.
    pub fn poll_close(&mut self, cx: &mut Context<'_>) -> (polled: Poll<Result<(), Error>>)
        ensures
            final(self).channel() == old(self).channel(),
            final(self).filter() == old(self).filter(),
            polled matches Poll::Ready(Ok(_)),
    {
        match &mut self.tx {
            Tx::Bounded(tx, _) => ready_or(bounded_poll_close(tx, cx)),
            Tx::Unbounded(tx) => ready_or(unbounded_poll_close(tx, cx)),
        }
    }
}

/// Whether `interested` is an answer that `filter`, as it is now, can give
/// for `evt`. Where there is no filter, every event is wanted.
pub open spec fn wanted_by<Event: Send + 'static>(
    filter: Option<Filter<Event>>,
    evt: &Event,
    interested: bool,
) -> bool {
    match filter {
        Some(f) => f.answers(evt, interested),
        None => interested,
    }
}

/// Whether to ask `filter` does not change what it answers from then on:
/// there is none, or it keeps no state that matters.
pub open spec fn steady_or_none<Event: Send + 'static>(filter: Option<Filter<Event>>) -> bool {
    match filter {
        Some(f) => f.steady(),
        None => true,
    }
}

/// The answer of the queue, with its refusal as an error of this crate.
fn accepted_or(sent: Result<(), SendError>) -> (mapped: Result<(), Error>)
    ensures
        sent is Ok <==> mapped is Ok,
        sent matches Err(e) ==> mapped == Err::<(), Error>(Error::from_spec(e)),
{
    match sent {
        Ok(()) => Ok(()),
        Err(e) => Err(Error::from(e)),
    }
}

/// The answer of a poll, with the queue's refusal as an error of this crate.
fn ready_or(polled: Poll<Result<(), SendError>>) -> (mapped: Poll<Result<(), Error>>)
    ensures
        polled is Pending <==> mapped is Pending,
        polled matches Poll::Ready(Ok(_)) <==> mapped matches Poll::Ready(Ok(_)),
        polled matches Poll::Ready(Err(e)) ==> mapped == Poll::Ready(
            Err::<(), Error>(Error::from_spec(e)),
        ),
{
    match polled {
        Poll::Pending => Poll::Pending,
        Poll::Ready(sent) => Poll::Ready(accepted_or(sent)),
    }
}

/// The text that stands for a receiver: its type, with the name of the
/// event type, and its discipline.
pub open spec fn receiver_label(bounded: bool, event_type: Seq<char>) -> Seq<char> {
    "pharos::events::Receiver::<"@ + event_type + if bounded {
        ">::Bounded(_)"@
    } else {
        ">::Unbounded(_)"@
    }
}

impl<Event> Receiver<Event> where Event: Clone + 'static + Send {
    /// The discipline that was chosen for the queue, with its size where it
    /// is bounded.
    pub closed spec fn channel(&self) -> Channel {
        match self.rx {
            Rx::Bounded(_, size) => Channel::Bounded(size@),
            Rx::Unbounded(_) => Channel::Unbounded,
        }
    }

    /// Whether the queue is bounded.
    pub open spec fn is_bounded(&self) -> bool {
        self.channel() is Bounded
    }

    /// Whether the receiver has reported the end of the queue.
    pub closed spec fn ended(&self) -> bool {
        self.ended
    }

    /// Closes the queue: the sender takes no new events from now on, and the
    /// events that are in the queue can still be read. To close is not to
    /// end: the end is reported by a poll, once the queue is empty.
    pub fn close(&mut self)
        ensures
            final(self).channel() == old(self).channel(),
            final(self).ended() == old(self).ended(),
    {
        match &mut self.rx {
            Rx::Bounded(rx, _) => rx.close(),
            Rx::Unbounded(rx) => rx.close(),
        };
    }

    /// Asks the queue for the next event: an event, "not yet", or the end:
    /// the queue is closed and empty. The end is final: once reported, it is
    /// the answer to every later poll, and the queue is not asked again.
    pub fn poll_next(&mut self, cx: &mut Context<'_>) -> (polled: Poll<Option<Event>>)
        ensures
            final(self).channel() == old(self).channel(),
            old(self).ended() ==> polled matches Poll::Ready(None),
            final(self).ended() <==> old(self).ended() || polled matches Poll::Ready(None),
    {
        if self.ended {
            return Poll::Ready(None);
        }
        let polled = match &mut self.rx {
            Rx::Bounded(rx, _) => bounded_poll_next(rx, cx),
            Rx::Unbounded(rx) => unbounded_poll_next(rx, cx),
        };
        self.settle(polled)
    }

    /// Takes note of what the queue answered to a poll, and hands the answer
    /// on as it is: the receiver has reported its end from now on where the
    /// answer is the end, and is as it was where it is an event or "not
    /// yet".
    pub fn settle(&mut self, polled: Poll<Option<Event>>) -> (out: Poll<Option<Event>>)
        ensures
            out == polled,
            final(self).channel() == old(self).channel(),
            final(self).ended() == (old(self).ended() || polled matches Poll::Ready(None)),
    {
        if let Poll::Ready(None) = &polled {
            self.ended = true;
        }
        polled
    }

    /// The receiver as text, for debugging, given the name of the event
    /// type. The text shows the discipline and nothing of the queue.
    pub fn fmt(&self, event_type: &str) -> (text: String)
        ensures
            text@ == receiver_label(self.is_bounded(), event_type@),
    {
        let mut text = String::from_str("pharos::events::Receiver::<");
        text.append(event_type);
        match &self.rx {
            Rx::Bounded(_, _) => text.append(">::Bounded(_)"),
            Rx::Unbounded(_) => text.append(">::Unbounded(_)"),
        };
        text
    }
}

} // verus!
