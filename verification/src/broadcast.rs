//! The broadcast of one event to all senders.
//!
//! A broadcast visits the senders in their order and notifies each. Sending
//! to a bounded queue can make the notifier wait, which only the caller can
//! do, so the broadcast is written as steps: [`Broadcast::next`] notifies
//! sender after sender until one is to be sent a copy, and hands that copy
//! out; the caller sends it to the sender at [`Broadcast::index`], waiting
//! as long as it takes, and reports with [`Broadcast::sent`] whether the
//! queue took it. While the caller waits, no later sender has been asked
//! anything: a subscriber that is slow to read holds up those behind it.

use vstd::prelude::*;
use crate::events::Sender;
use crate::notify::{Outcome, Step};
use crate::stream::verdicts;

verus! {

/// The state of one broadcast: the outcomes for the senders that it has
/// visited, and whether the copy for the next sender is on its way.
pub struct Broadcast {
    outcomes: Vec<Outcome>,
    awaiting: bool,
}

/// What holds of a sender that a broadcast of `evt` passed over without
/// sending: it was found closed, and then it is as it was; or its filter
/// did not want the event.
pub open spec fn passed_over<Event: Clone + 'static + Send>(
    outcome: Outcome,
    before: Sender<Event>,
    after: Sender<Event>,
    evt: &Event,
) -> bool {
    ||| outcome is Closed && after == before
    ||| outcome is Skipped && before.wants(evt, false)
}

impl Broadcast {
    /// The outcomes so far: one for each sender visited, in the senders'
    /// order.
    pub closed spec fn outcomes(&self) -> Seq<Outcome> {
        self.outcomes@
    }

    /// Whether a copy was handed out whose send has not been reported.
    pub closed spec fn awaiting(&self) -> bool {
        self.awaiting
    }

    /// The number of senders visited so far.
    pub open spec fn visited(&self) -> int {
        self.outcomes().len() as int
    }

    /// A broadcast that has visited no sender yet.
    pub fn new() -> (pass: Broadcast)
        ensures
            pass.outcomes() == Seq::<Outcome>::empty(),
            !pass.awaiting(),
    {
        Broadcast { outcomes: Vec::new(), awaiting: false }
    }

    /// The number of senders visited so far: the index of the sender whose
    /// turn it is.
    pub fn index(&self) -> (index: usize)
        ensures
            index == self.visited(),
    {
        self.outcomes.len()
    }

    /// Whether a copy was handed out whose send has not been reported.
    pub fn is_awaiting(&self) -> (awaiting: bool)
        ensures
            awaiting == self.awaiting(),
    {
        self.awaiting
    }

    /// Goes on with the broadcast of `evt`: notifies the senders from the
    /// one whose turn it is, in order, until one is to be sent a copy or
    /// none is left. It returns the copy to send to the sender at `index()`,
    /// or `None` when every sender has its outcome.
    ///
    /// The senders passed over were closed, or have a filter that did not
    /// want the event. The senders behind the one that is to be sent a copy
    /// were not asked anything yet.
    pub fn next<Event>(&mut self, senders: &mut Vec<Sender<Event>>, evt: &Event) -> (copy: Option<
        Event,
    >) where Event: Clone + 'static + Send
        requires
            !old(self).awaiting(),
            old(self).visited() <= old(senders).len(),
        ensures
            final(senders).len() == old(senders).len(),
            old(self).visited() <= final(self).visited() <= old(senders).len(),
            final(self).outcomes().take(old(self).visited()) == old(self).outcomes(),
            forall|i: int|
                0 <= i < old(senders).len() ==> (#[trigger] final(senders)[i]).alike(
                    &old(senders)[i],
                ),
            forall|i: int|
                0 <= i < old(self).visited() || final(self).visited() < i < old(senders).len()
                    ==> #[trigger] final(senders)[i] == old(senders)[i],
            forall|i: int|
                0 <= i < old(senders).len() && old(senders)[i].steady()
                    ==> (#[trigger] final(senders)[i]).same_wishes(&old(senders)[i]),
            forall|i: int|
                old(self).visited() <= i < final(self).visited() ==> passed_over(
                    #[trigger] final(self).outcomes()[i],
                    old(senders)[i],
                    final(senders)[i],
                    evt,
                ),
            copy is None ==> {
                &&& !final(self).awaiting()
                &&& final(self).visited() == old(senders).len()
            },
            copy matches Some(c) ==> {
                &&& final(self).awaiting()
                &&& final(self).visited() < old(senders).len()
                &&& old(senders)[final(self).visited()].wants(evt, true)
                &&& cloned(*evt, c)
            },
    {
        let ghost before = self.outcomes@;
        while self.outcomes.len() < senders.len()
            invariant
                !self.awaiting,
                senders.len() == old(senders).len(),
                before == old(self).outcomes(),
                before.len() <= self.visited() <= senders.len(),
                self.outcomes().take(before.len() as int) == before,
                forall|i: int|
                    0 <= i < senders.len() ==> (#[trigger] senders[i]).alike(&old(senders)[i]),
                forall|i: int|
                    0 <= i < before.len() || self.visited() <= i < senders.len()
                        ==> #[trigger] senders[i] == old(senders)[i],
                forall|i: int|
                    0 <= i < senders.len() && old(senders)[i].steady()
                        ==> (#[trigger] senders[i]).same_wishes(&old(senders)[i]),
                forall|i: int|
                    before.len() <= i < self.visited() ==> passed_over(
                        #[trigger] self.outcomes()[i],
                        old(senders)[i],
                        senders[i],
                        evt,
                    ),
            decreases senders.len() - self.outcomes.len(),
        {
            let at = self.outcomes.len();
            match senders[at].notify(evt) {
                Step::Settled(outcome) => {
                    self.outcomes.push(outcome);
                },
                Step::Send(copy) => {
                    self.awaiting = true;
                    return Some(copy);
                },
            }
        }
        None
    }

    /// Records how the send of the copy went: the sender whose turn it was
    /// has its outcome, delivered or failed, and the broadcast can go on.
    pub fn sent(&mut self, ok: bool)
        requires
            old(self).awaiting(),
        ensures
            !final(self).awaiting(),
            final(self).outcomes() == old(self).outcomes().push(Outcome::of(false, true, ok)),
    {
        self.outcomes.push(Outcome::after_send(ok));
        self.awaiting = false;
    }

    /// The verdicts so far, in the senders' order: for each sender visited,
    /// whether it is kept. A sender is dropped where it was found closed or
    /// its queue refused the copy.
    pub fn verdicts(&self) -> (alive: Vec<bool>)
        ensures
            alive@ == verdicts(self.outcomes()),
    {
        let mut alive: Vec<bool> = Vec::new();
        let mut i: usize = 0;
        while i < self.outcomes.len()
            invariant
                i <= self.outcomes.len(),
                alive@ == verdicts(self.outcomes@.subrange(0, i as int)),
            decreases self.outcomes.len() - i,
        {
            alive.push(self.outcomes[i].is_alive());
            i += 1;
            assert(alive@ =~= verdicts(self.outcomes@.subrange(0, i as int)));
        }
        assert(self.outcomes@.subrange(0, i as int) == self.outcomes@);
        alive
    }
}

} // verus!
