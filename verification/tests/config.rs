use pharos::events::{Events, Sender};
use pharos::filter::Filter;
use pharos::observable::{Channel, ObserveConfig};

#[test]
fn default_is_unbounded_without_filter() {
    let config = ObserveConfig::<u8>::default();

    assert_eq!(config.channel, Channel::Unbounded);
    assert!(config.filter.is_none());
    assert_eq!(Channel::default(), Channel::Unbounded);
}

#[test]
fn builders_set_one_choice_and_keep_the_other() {
    let config = ObserveConfig::<u8>::default().channel(Channel::Bounded(5));
    assert_eq!(config.channel, Channel::Bounded(5));
    assert!(config.filter.is_none());

    let config = config.filter(Filter::from_fn(|evt: &u8| *evt == 1));
    assert_eq!(config.channel, Channel::Bounded(5));
    assert!(config.filter.is_some());

    let config = config.channel(Channel::Unbounded);
    assert_eq!(config.channel, Channel::Unbounded);
    assert!(config.filter.is_some());
}

#[test]
fn bounded_queue_needs_room_for_one_event() {
    assert!(!Channel::Bounded(0).is_valid());
    assert!(Channel::Bounded(1).is_valid());
    assert!(Channel::Bounded(2).is_valid());
    assert!(Channel::Unbounded.is_valid());
}

#[test]
fn bounded_queue_stays_under_the_limit_of_the_transport() {
    assert!(Channel::Bounded(usize::MAX / 4 - 1).is_valid());
    assert!(!Channel::Bounded(usize::MAX / 4).is_valid());
    assert!(!Channel::Bounded(usize::MAX >> 2).is_valid());
    assert!(!Channel::Bounded(usize::MAX).is_valid());
}

#[test]
fn largest_valid_queue_can_be_made() {
    let config = ObserveConfig::<u8>::default().channel(Channel::Bounded(usize::MAX / 4 - 1));

    let (events, sender) = Events::new(config);

    assert!(!sender.is_closed());
    assert_eq!(
        events.fmt("u8"),
        "Events { rx: pharos::events::Receiver::<u8>::Bounded(_) }"
    );
}

fn crosses_threads<T: Send>() {}

#[test]
fn both_halves_can_move_to_another_thread() {
    crosses_threads::<Events<u8>>();
    crosses_threads::<Sender<u8>>();
    crosses_threads::<Filter<u8>>();
    crosses_threads::<ObserveConfig<u8>>();
}

#[test]
fn items_are_found_at_the_root_of_the_crate() {
    let (events, sender) = pharos::Events::<u8>::new(
        pharos::ObserveConfig::default().channel(pharos::Channel::Bounded(1)),
    );

    assert!(!sender.is_closed());
    drop(events);
    assert!(sender.is_closed());
    assert!(!pharos::Outcome::Closed.is_alive());
}
