//! What a subscriber observes over a run of broadcasts.
//!
//! A run is a sequence of events, broadcast one after the other, and for one
//! subscriber the outcome of each notification. The queue of a subscription
//! is first in, first out: that is the transport's promise, and the one
//! thing that is taken for granted here. So the subscriber reads the events
//! that went onto its queue, in the order in which they went. This module
//! says which events those are, and proves what follows for a subscriber
//! without a filter, for one with a filter, and for one that went away.

use vstd::prelude::*;
use crate::notify::Outcome;

verus! {

/// The items at the positions that `keep` marks, in their order.
pub open spec fn select<T>(items: Seq<T>, keep: Seq<bool>) -> Seq<T>
    recommends
        items.len() == keep.len(),
    decreases items.len(),
{
    if items.len() == 0 || keep.len() == 0 {
        Seq::empty()
    } else {
        let before = select(items.drop_last(), keep.drop_last());
        if keep.last() {
            before.push(items.last())
        } else {
            before
        }
    }
}

/// The positions that `keep` marks, ascending.
pub open spec fn positions(keep: Seq<bool>) -> Seq<int>
    decreases keep.len(),
{
    if keep.len() == 0 {
        Seq::empty()
    } else {
        let before = positions(keep.drop_last());
        if keep.last() {
            before.push(keep.len() - 1)
        } else {
            before
        }
    }
}

/// For each notification of a run, whether its event went onto the queue.
pub open spec fn queued(outcomes: Seq<Outcome>) -> Seq<bool> {
    outcomes.map_values(|outcome: Outcome| outcome.queued())
}

/// What one notification was answered: by the sender, whether it is closed;
/// by the filter, whether it wants the event; by the queue, whether it took
/// the copy. A subscriber without a filter counts as one whose filter wants
/// every event. An answer that was not asked for can be anything.
pub struct Answers {
    pub closed: bool,
    pub interested: bool,
    pub sent: bool,
}

impl Answers {
    /// The outcome that these answers decide.
    pub open spec fn outcome(self) -> Outcome {
        Outcome::of(self.closed, self.interested, self.sent)
    }
}

/// The outcomes that the answers of a run decide.
pub open spec fn outcomes(answers: Seq<Answers>) -> Seq<Outcome> {
    answers.map_values(|answer: Answers| answer.outcome())
}

/// For each notification of a run, whether the filter wanted its event.
pub open spec fn wanted(answers: Seq<Answers>) -> Seq<bool> {
    answers.map_values(|answer: Answers| answer.interested)
}

/// The verdicts that go with a sequence of outcomes: for each, whether the
/// subscriber is kept.
pub open spec fn verdicts(outcomes: Seq<Outcome>) -> Seq<bool> {
    outcomes.map_values(|outcome: Outcome| outcome.alive())
}

/// The stream of a subscriber over a run: the events that went onto its
/// queue, in the order of the broadcasts.
pub open spec fn stream<Event>(events: Seq<Event>, outcomes: Seq<Outcome>) -> Seq<Event>
    recommends
        events.len() == outcomes.len(),
{
    select(events, queued(outcomes))
}

/// Where every position is marked, all items are selected.
pub proof fn lemma_select_all<T>(items: Seq<T>, keep: Seq<bool>)
    requires
        items.len() == keep.len(),
        forall|i: int| 0 <= i < keep.len() ==> keep[i],
    ensures
        select(items, keep) == items,
    decreases items.len(),
{
    if items.len() > 0 {
        lemma_select_all(items.drop_last(), keep.drop_last());
        assert(items.drop_last().push(items.last()) == items);
    } else {
        assert(items == Seq::<T>::empty());
    }
}

/// Where the marks are the values of a predicate on the items, the selected
/// items are the items that the predicate holds of.
pub proof fn lemma_select_filter<T>(items: Seq<T>, keep: Seq<bool>, pred: spec_fn(T) -> bool)
    requires
        items.len() == keep.len(),
        forall|i: int| 0 <= i < keep.len() ==> #[trigger] keep[i] == pred(items[i]),
    ensures
        select(items, keep) == items.filter(pred),
    decreases items.len(),
{
    reveal(Seq::filter);
    if items.len() > 0 {
        lemma_select_filter(items.drop_last(), keep.drop_last(), pred);
    }
}

/// The marked positions are positions that are marked, they ascend, and
/// none is left out.
pub proof fn lemma_positions(keep: Seq<bool>)
    ensures
        forall|j: int|
            0 <= j < positions(keep).len() ==> {
                let at = #[trigger] positions(keep)[j];
                0 <= at < keep.len() && keep[at]
            },
        forall|j: int, k: int|
            0 <= j < k < positions(keep).len() ==> #[trigger] positions(keep)[j]
                < #[trigger] positions(keep)[k],
        forall|i: int| 0 <= i < keep.len() && #[trigger] keep[i] ==> positions(keep).contains(i),
    decreases keep.len(),
{
    if keep.len() > 0 {
        let shorter = keep.drop_last();
        let before = positions(shorter);
        let all = positions(keep);
        let last = keep.len() - 1;
        lemma_positions(shorter);
        assert forall|i: int| 0 <= i < keep.len() && #[trigger] keep[i] implies all.contains(
            i,
        ) by {
            if i < last {
                assert(shorter[i] == keep[i]);
                let j = choose|j: int| 0 <= j < before.len() && before[j] == i;
                assert(all[j] == i);
            } else {
                assert(all[before.len() as int] == i);
            }
        }
        assert forall|j: int| 0 <= j < all.len() implies 0 <= #[trigger] all[j] < keep.len()
            && keep[all[j]] by {
            if j < before.len() {
                assert(all[j] == before[j]);
                assert(shorter[before[j]] == keep[before[j]]);
            }
        }
        assert forall|j: int, k: int| 0 <= j < k < all.len() implies #[trigger] all[j]
            < #[trigger] all[k] by {
            assert(all[j] == before[j]);
            if k < before.len() {
                assert(all[k] == before[k]);
            }
        }
    }
}

/// The selected items are the items at the marked positions.
pub proof fn lemma_select_positions<T>(items: Seq<T>, keep: Seq<bool>)
    requires
        items.len() == keep.len(),
    ensures
        select(items, keep).len() == positions(keep).len(),
        forall|j: int|
            0 <= j < positions(keep).len() ==> #[trigger] select(items, keep)[j]
                == items[positions(keep)[j]],
    decreases items.len(),
{
    if items.len() > 0 {
        let before = positions(keep.drop_last());
        let all = positions(keep);
        let chosen = select(items, keep);
        lemma_select_positions(items.drop_last(), keep.drop_last());
        lemma_positions(keep.drop_last());
        assert forall|j: int| 0 <= j < all.len() implies #[trigger] chosen[j] == items[all[j]] by {
            if j < before.len() {
                assert(all[j] == before[j]);
                assert(items.drop_last()[before[j]] == items[before[j]]);
            }
        }
    }
}

/// A subscriber without a filter that stays alive observes every event that
/// is broadcast, in the order of the broadcasts, and nothing else.
///
/// To stay alive is to be kept after each notification: the sender was not
/// found closed, and the queue took what it was sent.
pub proof fn law_unfiltered_stream<Event>(events: Seq<Event>, answers: Seq<Answers>)
    requires
        events.len() == answers.len(),
        forall|i: int| 0 <= i < answers.len() ==> (#[trigger] answers[i]).interested,
        forall|i: int| 0 <= i < answers.len() ==> (#[trigger] answers[i]).outcome().alive(),
    ensures
        stream(events, outcomes(answers)) == events,
{
    lemma_select_all(events, queued(outcomes(answers)));
}

/// A subscriber that stays alive observes the events that its filter
/// wanted, in the order of the broadcasts, and nothing else. This holds of
/// every filter, also of one whose answers depend on what it was asked
/// before: what counts is the answer that it gave to each event.
pub proof fn law_wanted_stream<Event>(events: Seq<Event>, answers: Seq<Answers>)
    requires
        events.len() == answers.len(),
        forall|i: int| 0 <= i < answers.len() ==> (#[trigger] answers[i]).outcome().alive(),
    ensures
        stream(events, outcomes(answers)) == select(events, wanted(answers)),
{
    assert(queued(outcomes(answers)) =~= wanted(answers));
}

/// A subscriber that stays alive, with a filter that answers by `wants`,
/// observes exactly the events `e` that are broadcast and for which
/// `wants(e)` holds, in the order of the broadcasts.
pub proof fn law_filtered_stream<Event>(
    events: Seq<Event>,
    answers: Seq<Answers>,
    wants: spec_fn(Event) -> bool,
)
    requires
        events.len() == answers.len(),
        forall|i: int| 0 <= i < answers.len() ==> (#[trigger] answers[i]).outcome().alive(),
        forall|i: int|
            0 <= i < answers.len() ==> (#[trigger] answers[i]).interested == wants(events[i]),
    ensures
        stream(events, outcomes(answers)) == events.filter(wants),
{
    law_wanted_stream(events, answers);
    lemma_select_filter(events, wanted(answers), wants);
}

/// Whatever happens to a subscriber, its stream holds the events of the
/// notifications that delivered, one for one and in the order of the
/// broadcasts: no event that was skipped, that found the sender closed or
/// that the queue refused is ever in it, and no event that was delivered is
/// missing.
pub proof fn law_stream_order<Event>(events: Seq<Event>, outcomes: Seq<Outcome>)
    requires
        events.len() == outcomes.len(),
    ensures
        stream(events, outcomes).len() == positions(queued(outcomes)).len(),
        forall|j: int|
            0 <= j < stream(events, outcomes).len() ==> {
                let at = #[trigger] positions(queued(outcomes))[j];
                &&& 0 <= at < events.len()
                &&& outcomes[at] is Delivered
                &&& stream(events, outcomes)[j] == events[at]
            },
        forall|j: int, k: int|
            0 <= j < k < stream(events, outcomes).len() ==> #[trigger] positions(
                queued(outcomes),
            )[j] < #[trigger] positions(queued(outcomes))[k],
        forall|i: int|
            0 <= i < outcomes.len() && #[trigger] outcomes[i] is Delivered ==> positions(
                queued(outcomes),
            ).contains(i),
{
    let keep = queued(outcomes);
    lemma_positions(keep);
    lemma_select_positions(events, keep);
    assert forall|i: int| 0 <= i < outcomes.len() && #[trigger] outcomes[i] is Delivered
        implies positions(keep).contains(i) by {
        assert(keep[i]);
    }
}

/// A subscriber that is gone is reported dead by the next notification
/// whose event it would have been sent: the sender is found closed, or the
/// queue refuses the copy. A notification has an outcome whatever the
/// subscriber did, and that outcome is no error of the broadcast.
pub proof fn law_dead_subscriber_is_reported(closed: bool, sent: bool)
    requires
        closed || !sent,
    ensures
        !Outcome::of(closed, true, sent).alive(),
        !Outcome::of(closed, true, sent).queued(),
{
}

/// A subscriber whose filter does not want an event is kept, whatever the
/// state of its queue: as long as the sender is not found closed, nothing is
/// sent and so nothing is learnt.
pub proof fn law_skipped_subscriber_is_kept(sent: bool)
    ensures
        Outcome::of(false, false, sent).alive(),
        !Outcome::of(false, false, sent).queued(),
{
}

} // verus!
