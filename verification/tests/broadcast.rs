use std::future::Future;
use std::pin::Pin;
use std::task::{Context, Poll};

use futures::task::noop_waker_ref;
use futures::{Sink, SinkExt};
use pharos::broadcast::Broadcast;
use pharos::error::Error;
use pharos::events::{Events, Sender};
use pharos::filter::Filter;
use pharos::observable::{Channel, ObserveConfig};

/// A sender as a sink, so that `SinkExt::send` can drive it.
struct Line<'a, E: Clone + Send + 'static>(&'a mut Sender<E>);

impl<'a, E: Clone + Send + 'static> Sink<E> for Line<'a, E> {
    type Error = Error;

    fn poll_ready(mut self: Pin<&mut Self>, cx: &mut Context<'_>) -> Poll<Result<(), Error>> {
        self.0.poll_ready(cx)
    }

    fn start_send(mut self: Pin<&mut Self>, item: E) -> Result<(), Error> {
        self.0.start_send(item)
    }

    fn poll_flush(mut self: Pin<&mut Self>, cx: &mut Context<'_>) -> Poll<Result<(), Error>> {
        self.0.poll_flush(cx)
    }

    fn poll_close(mut self: Pin<&mut Self>, cx: &mut Context<'_>) -> Poll<Result<(), Error>> {
        self.0.poll_close(cx)
    }
}

/// Broadcasts `evt` to senders whose queues have room, and gives the
/// verdicts.
fn broadcast_now<E: Clone + Send + 'static>(senders: &mut Vec<Sender<E>>, evt: &E) -> Vec<bool> {
    let mut cx = Context::from_waker(noop_waker_ref());
    let mut pass = Broadcast::new();
    while let Some(copy) = pass.next(senders, evt) {
        assert!(pass.is_awaiting());
        let mut line = Line(&mut senders[pass.index()]);
        let mut send = line.send(copy);
        match Pin::new(&mut send).poll(&mut cx) {
            Poll::Ready(sent) => pass.sent(sent.is_ok()),
            Poll::Pending => panic!("the notifier had to wait"),
        }
    }
    assert!(!pass.is_awaiting());
    assert_eq!(pass.index(), senders.len());
    pass.verdicts()
}

fn seen<E: Clone + Send + 'static>(events: &mut Events<E>) -> Vec<E> {
    let mut cx = Context::from_waker(noop_waker_ref());
    let mut seen = Vec::new();
    while let Poll::Ready(Some(evt)) = events.poll_next(&mut cx) {
        seen.push(evt);
    }
    seen
}

#[test]
fn broadcast_to_nobody_is_over_at_once() {
    let mut senders: Vec<Sender<u8>> = Vec::new();
    let mut pass = Broadcast::new();

    assert_eq!(pass.index(), 0);
    assert!(!pass.is_awaiting());
    assert_eq!(pass.next(&mut senders, &1), None);
    assert_eq!(pass.index(), 0);
    assert_eq!(pass.verdicts(), Vec::<bool>::new());
}

#[test]
fn broadcast_reaches_every_subscriber_in_its_own_way() {
    let (mut all, tx_all) = Events::<i32>::new(ObserveConfig::default());
    let (mut even, tx_even) = Events::<i32>::new(
        ObserveConfig::default()
            .channel(Channel::Bounded(4))
            .filter(Filter::from_fn(|evt: &i32| evt % 2 == 0)),
    );
    let (gone, tx_gone) = Events::<i32>::new(ObserveConfig::default());
    let (mut odd, tx_odd) = Events::<i32>::new(
        ObserveConfig::default().filter(Filter::from_fn(|evt: &i32| evt % 2 != 0)),
    );
    drop(gone);
    let mut senders = vec![tx_all, tx_even, tx_gone, tx_odd];

    assert_eq!(broadcast_now(&mut senders, &1), vec![true, true, false, true]);
    assert_eq!(broadcast_now(&mut senders, &2), vec![true, true, false, true]);
    assert_eq!(broadcast_now(&mut senders, &3), vec![true, true, false, true]);
    assert_eq!(broadcast_now(&mut senders, &4), vec![true, true, false, true]);

    assert_eq!(seen(&mut all), vec![1, 2, 3, 4]);
    assert_eq!(seen(&mut even), vec![2, 4]);
    assert_eq!(seen(&mut odd), vec![1, 3]);
}

#[test]
fn subscriber_that_goes_away_does_not_stop_the_broadcast() {
    let (first, tx_first) = Events::<u8>::new(ObserveConfig::default());
    let (mut second, tx_second) = Events::<u8>::new(ObserveConfig::default());
    let mut senders = vec![tx_first, tx_second];

    assert_eq!(broadcast_now(&mut senders, &1), vec![true, true]);
    drop(first);
    assert_eq!(broadcast_now(&mut senders, &2), vec![false, true]);
    assert_eq!(broadcast_now(&mut senders, &3), vec![false, true]);

    assert_eq!(seen(&mut second), vec![1, 2, 3]);
}

#[test]
fn dead_subscriber_that_is_not_interested_is_found_at_its_next_event() {
    let (mut picky, tx_picky) = Events::<u8>::new(
        ObserveConfig::default().filter(Filter::from_fn(|evt: &u8| *evt >= 10)),
    );
    let mut senders = vec![tx_picky];
    let mut cx = Context::from_waker(noop_waker_ref());

    // The subscriber goes away between the notifier's look at the sender and
    // the send: only the send can tell.
    let mut pass = Broadcast::new();
    let copy = pass.next(&mut senders, &10);
    assert_eq!(copy, Some(10));
    picky.close();
    assert_eq!(senders[pass.index()].start_send(10).map_err(|e| e.kind()).is_ok(), false);
    pass.sent(false);
    assert_eq!(pass.next(&mut senders, &10), None);
    assert_eq!(pass.verdicts(), vec![false]);
    assert_eq!(picky.poll_next(&mut cx), Poll::Ready(None));
}

#[test]
fn slow_subscriber_holds_up_those_behind_it() {
    let mut cx = Context::from_waker(noop_waker_ref());
    let (mut slow, tx_slow) =
        Events::<char>::new(ObserveConfig::default().channel(Channel::Bounded(1)));
    let (mut fast, tx_fast) = Events::<char>::new(ObserveConfig::default());
    let mut senders = vec![tx_slow, tx_fast];

    assert_eq!(broadcast_now(&mut senders, &'a'), vec![true, true]);
    assert_eq!(seen(&mut fast), vec!['a']);

    let mut pass = Broadcast::new();
    let copy = pass.next(&mut senders, &'b').expect("the first subscriber is sent a copy");
    assert_eq!(pass.index(), 0);
    {
        let mut line = Line(&mut senders[0]);
        let mut send = line.send(copy);
        assert!(Pin::new(&mut send).poll(&mut cx).is_pending());
        // While the notifier waits for the first subscriber, the second has
        // not been sent the event.
        assert!(fast.poll_next(&mut cx).is_pending());
        assert_eq!(slow.poll_next(&mut cx), Poll::Ready(Some('a')));
        assert!(matches!(Pin::new(&mut send).poll(&mut cx), Poll::Ready(Ok(()))));
    }
    pass.sent(true);
    assert_eq!(pass.index(), 1);

    let copy = pass.next(&mut senders, &'b').expect("the second subscriber is sent a copy");
    assert_eq!(pass.index(), 1);
    assert_eq!(senders[1].start_send(copy), Ok(()));
    pass.sent(true);
    assert_eq!(pass.next(&mut senders, &'b'), None);

    assert_eq!(pass.verdicts(), vec![true, true]);
    assert_eq!(seen(&mut slow), vec!['b']);
    assert_eq!(seen(&mut fast), vec!['b']);
}

#[test]
fn verdicts_follow_the_outcomes_so_far() {
    let (_keep, tx_skip) = Events::<u8>::new(
        ObserveConfig::default().filter(Filter::from_fn(|_: &u8| false)),
    );
    let (gone, tx_gone) = Events::<u8>::new(ObserveConfig::default());
    let (_stay, tx_stay) = Events::<u8>::new(ObserveConfig::default());
    let (_last, tx_last) = Events::<u8>::new(ObserveConfig::default());
    drop(gone);
    let mut senders = vec![tx_skip, tx_gone, tx_stay, tx_last];
    let mut pass = Broadcast::new();

    assert_eq!(pass.verdicts(), Vec::<bool>::new());
    assert_eq!(pass.next(&mut senders, &5), Some(5));
    assert_eq!(pass.index(), 2);
    assert_eq!(pass.verdicts(), vec![true, false]);
    pass.sent(false);
    assert_eq!(pass.verdicts(), vec![true, false, false]);
    assert_eq!(pass.next(&mut senders, &5), Some(5));
    assert_eq!(pass.index(), 3);
    pass.sent(true);
    assert_eq!(pass.verdicts(), vec![true, false, false, true]);
    assert_eq!(pass.next(&mut senders, &5), None);
    assert_eq!(pass.verdicts(), vec![true, false, false, true]);
}
