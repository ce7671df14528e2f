//! What a subscriber chooses when it subscribes.

use vstd::prelude::*;
use crate::filter::Filter;
use crate::transport::max_buffer;

verus! {

/// How the queue of a subscription buffers. It is chosen once, when the
/// subscription is made.
#[derive(Clone, Copy, Debug, PartialEq, Eq, Structural)]
pub enum Channel {
    /// A queue with room for so many events. When it is full the notifier
    /// waits for the subscriber, and with it every subscriber that comes
    /// later in the same broadcast.
    Bounded(usize),
    /// A queue that grows as long as the subscriber does not read. The
    /// notifier never waits for it.
    Unbounded,
}

impl Channel {
    /// A bounded queue has room for at least one event, and for fewer than
    /// the transport's limit.
    pub open spec fn valid(self) -> bool {
        match self {
            Channel::Bounded(size) => 1 <= size < max_buffer(),
            Channel::Unbounded => true,
        }
    }

    /// Whether a queue can be made of this choice.
    pub fn is_valid(&self) -> (ok: bool)
        ensures
            ok == self.valid(),
    {
        match self {
            Channel::Bounded(size) => 1 <= *size && *size < usize::MAX / 4,
            Channel::Unbounded => true,
        }
    }
}

impl Default for Channel {
    /// Unbounded.
    fn default() -> (channel: Channel)
        ensures
            channel == Channel::Unbounded,
    {
        Channel::Unbounded
    }
}

/// The choices of one subscription: how its queue buffers, and which events
/// it wants.
#[verifier::reject_recursive_types(Event)]
pub struct ObserveConfig<Event> {
    pub channel: Channel,
    pub filter: Option<Filter<Event>>,
}

impl<Event: Send + 'static> ObserveConfig<Event> {
    /// The same choices, with `channel` for the queue.
    pub fn channel(self, channel: Channel) -> (config: ObserveConfig<Event>)
        ensures
            config.channel == channel,
            config.filter == self.filter,
    {
        ObserveConfig { channel, filter: self.filter }
    }

    /// The same choices, with `filter` to decide which events are sent.
    pub fn filter(self, filter: Filter<Event>) -> (config: ObserveConfig<Event>)
        ensures
            config.channel == self.channel,
            config.filter == Some(filter),
    {
        ObserveConfig { channel: self.channel, filter: Some(filter) }
    }
}

impl<Event: Send + 'static> Default for ObserveConfig<Event> {
    /// An unbounded queue and no filter: every event is sent.
    fn default() -> (config: ObserveConfig<Event>)
        ensures
            config.channel == Channel::Unbounded,
            config.filter is None,
    {
        ObserveConfig { channel: Channel::Unbounded, filter: None }
    }
}

} // verus!
