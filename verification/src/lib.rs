//! An in-process broadcast primitive: a publisher notifies any number of
//! subscribers, each through a queue of its own, bounded or unbounded, with
//! an optional filter that decides which events a subscriber is sent.

pub mod broadcast;
pub mod error;
pub mod events;
pub mod filter;
pub mod notify;
pub mod observable;
pub mod stream;
pub mod transport;

pub use broadcast::Broadcast;
pub use error::{Error, ErrorKind};
pub use events::{Events, Sender};
pub use filter::{Filter, Predicate};
pub use notify::{Outcome, Step};
pub use observable::{Channel, ObserveConfig};
