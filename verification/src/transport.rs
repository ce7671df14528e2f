//! The queues that carry events from the notifier to each subscriber.
//!
//! They are the channels of `futures::channel::mpsc`. Nothing in this module
//! is proved: it declares the outside types and states, for each outside
//! function the crate calls, what the rest of the crate relies on. A queue is
//! shared by its two halves and may be used from two threads at once, so what
//! one half will observe next is never stated here; only facts that hold of
//! every outcome are.
//!
//! The functions called here do not panic, with two exceptions that no
//! program meets: a lock inside a bounded queue is poisoned only by an
//! earlier panic, and a queue refuses to count beyond `usize::MAX >> 1`
//! items, which no memory holds.

use vstd::prelude::*;
use futures::channel::mpsc::{
    Receiver as FutReceiver, SendError, Sender as FutSender,
    UnboundedReceiver as FutUnboundedReceiver, UnboundedSender as FutUnboundedSender,
};
use std::task::{Context, Poll};

verus! {

/// The sending half of a bounded queue.
#[verifier::external_type_specification]
#[verifier::external_body]
#[verifier::reject_recursive_types(T)]
pub struct ExFutSender<T>(FutSender<T>);

/// The receiving half of a bounded queue.
#[verifier::external_type_specification]
#[verifier::external_body]
#[verifier::reject_recursive_types(T)]
pub struct ExFutReceiver<T>(FutReceiver<T>);

/// The sending half of an unbounded queue.
#[verifier::external_type_specification]
#[verifier::external_body]
#[verifier::reject_recursive_types(T)]
pub struct ExFutUnboundedSender<T>(FutUnboundedSender<T>);

/// The receiving half of an unbounded queue.
#[verifier::external_type_specification]
#[verifier::external_body]
#[verifier::reject_recursive_types(T)]
pub struct ExFutUnboundedReceiver<T>(FutUnboundedReceiver<T>);

/// The error with which a queue refuses an item.
#[verifier::external_type_specification]
#[verifier::external_body]
pub struct ExSendError(SendError);

/// The task context handed to every poll.
#[verifier::external_type_specification]
#[verifier::external_body]
pub struct ExContext<'a>(Context<'a>);

/// The answer of a poll: a value, or "not yet".
#[verifier::external_type_specification]
#[verifier::reject_recursive_types(T)]
pub struct ExPoll<T>(Poll<T>);

/// The largest buffer that a bounded queue can be asked for, exclusive.
pub open spec fn max_buffer() -> int {
    usize::MAX as int / 4
}

/// Whether a refusal says that the receiving half is gone, as
/// `SendError::is_disconnected` reports it. A refusal that is not of this
/// kind says that the queue was full.
pub uninterp spec fn disconnected(e: SendError) -> bool;

/// `futures::channel::mpsc::channel`: a fresh bounded queue. The outside
/// function panics on a buffer of `usize::MAX >> 2` or more, which the
/// precondition leaves out. Nothing is claimed of the two halves.
pub assume_specification<T>[ futures::channel::mpsc::channel::<T> ](buffer: usize) -> (pair: (
    FutSender<T>,
    FutReceiver<T>,
))
    requires
        buffer < max_buffer(),
;

/// `futures::channel::mpsc::unbounded`: a fresh unbounded queue. Nothing is
/// claimed of the two halves.
pub assume_specification<T>[ futures::channel::mpsc::unbounded::<T> ]() -> (pair: (
    FutUnboundedSender<T>,
    FutUnboundedReceiver<T>,
));

/// `Sender::is_closed`. The answer depends on what the receiving half has
/// done so far, so nothing is claimed of it.
pub assume_specification<T>[ FutSender::<T>::is_closed ](tx: &FutSender<T>) -> (closed: bool);

/// `UnboundedSender::is_closed`. Nothing is claimed of the answer.
pub assume_specification<T>[ FutUnboundedSender::<T>::is_closed ](
    tx: &FutUnboundedSender<T>,
) -> (closed: bool);

/// `Receiver::close`. Its effect is on the shared queue, of which nothing is
/// claimed.
pub assume_specification<T>[ FutReceiver::<T>::close ](rx: &mut FutReceiver<T>);

/// `UnboundedReceiver::close`. Its effect is on the shared queue, of which
/// nothing is claimed.
pub assume_specification<T>[ FutUnboundedReceiver::<T>::close ](rx: &mut FutUnboundedReceiver<T>);

/// `SendError::is_disconnected`: the answer is the one that `disconnected`
/// names.
pub assume_specification[ SendError::is_disconnected ](e: &SendError) -> (gone: bool)
    ensures
        gone == disconnected(*e),
;

/// `Stream::poll_next` of a bounded `Receiver`. Nothing is claimed of the
/// answer.
#[verifier::external_body]
pub(crate) fn bounded_poll_next<T>(
    rx: &mut FutReceiver<T>,
    cx: &mut Context<'_>,
) -> (polled: Poll<Option<T>>) {
    futures::Stream::poll_next(std::pin::Pin::new(rx), cx)
}

/// `Stream::poll_next` of an `UnboundedReceiver`. Nothing is claimed of the
/// answer.
#[verifier::external_body]
pub(crate) fn unbounded_poll_next<T>(
    rx: &mut FutUnboundedReceiver<T>,
    cx: &mut Context<'_>,
) -> (polled: Poll<Option<T>>) {
    futures::Stream::poll_next(std::pin::Pin::new(rx), cx)
}

/// `Sink::poll_ready` of a bounded `Sender`: ready, not yet, or refused. It
/// refuses only because the receiving half is gone.
#[verifier::external_body]
pub(crate) fn bounded_poll_ready<T>(
    tx: &mut FutSender<T>,
    cx: &mut Context<'_>,
) -> (polled: Poll<Result<(), SendError>>)
    ensures
        polled matches Poll::Ready(Err(e)) ==> disconnected(e),
{
    futures::Sink::poll_ready(std::pin::Pin::new(tx), cx)
}

/// `Sink::start_send` of a bounded `Sender`. Nothing is claimed of the
/// answer: the queue may take the item, be full, or be gone.
#[verifier::external_body]
pub(crate) fn bounded_start_send<T>(
    tx: &mut FutSender<T>,
    item: T,
) -> (sent: Result<(), SendError>) {
    futures::Sink::start_send(std::pin::Pin::new(tx), item)
}

/// `Sink::poll_flush` of a bounded `Sender`: done or not yet. It never
/// refuses: a queue whose receiving half is gone counts as flushed.
#[verifier::external_body]
pub(crate) fn bounded_poll_flush<T>(
    tx: &mut FutSender<T>,
    cx: &mut Context<'_>,
) -> (polled: Poll<Result<(), SendError>>)
    ensures
        !(polled matches Poll::Ready(Err(_))),
{
    futures::Sink::poll_flush(std::pin::Pin::new(tx), cx)
}

/// `Sink::poll_close` of a bounded `Sender`: it lets go of the queue and is
/// done at once.
#[verifier::external_body]
pub(crate) fn bounded_poll_close<T>(
    tx: &mut FutSender<T>,
    cx: &mut Context<'_>,
) -> (polled: Poll<Result<(), SendError>>)
    ensures
        polled matches Poll::Ready(Ok(_)),
{
    futures::Sink::poll_close(std::pin::Pin::new(tx), cx)
}

/// `Sink::poll_ready` of an `UnboundedSender`: it answers at once, and
/// refuses only because the receiving half is gone.
#[verifier::external_body]
pub(crate) fn unbounded_poll_ready<T>(
    tx: &mut FutUnboundedSender<T>,
    cx: &mut Context<'_>,
) -> (polled: Poll<Result<(), SendError>>)
    ensures
        polled is Ready,
        polled matches Poll::Ready(Err(e)) ==> disconnected(e),
{
    futures::Sink::poll_ready(std::pin::Pin::new(tx), cx)
}

/// `Sink::start_send` of an `UnboundedSender`: it refuses only because the
/// receiving half is gone.
#[verifier::external_body]
pub(crate) fn unbounded_start_send<T>(
    tx: &mut FutUnboundedSender<T>,
    item: T,
) -> (sent: Result<(), SendError>)
    ensures
        sent matches Err(e) ==> disconnected(e),
{
    futures::Sink::start_send(std::pin::Pin::new(tx), item)
}

/// `Sink::poll_flush` of an `UnboundedSender`: done at once.
#[verifier::external_body]
pub(crate) fn unbounded_poll_flush<T>(
    tx: &mut FutUnboundedSender<T>,
    cx: &mut Context<'_>,
) -> (polled: Poll<Result<(), SendError>>)
    ensures
        polled matches Poll::Ready(Ok(_)),
{
    futures::Sink::poll_flush(std::pin::Pin::new(tx), cx)
}

/// `Sink::poll_close` of an `UnboundedSender`: it lets go of the queue and is
/// done at once.
#[verifier::external_body]
pub(crate) fn unbounded_poll_close<T>(
    tx: &mut FutUnboundedSender<T>,
    cx: &mut Context<'_>,
) -> (polled: Poll<Result<(), SendError>>)
    ensures
        polled matches Poll::Ready(Ok(_)),
{
    futures::Sink::poll_close(std::pin::Pin::new(tx), cx)
}

} // verus!
