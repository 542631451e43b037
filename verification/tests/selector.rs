use enclave_io::channel::EventChannel;
use enclave_io::interest::{Interest, Token};
use enclave_io::selector::{
    Event, EventKind, Events, Provider, Registration, RegistrationId, Selector,
};

fn both() -> Interest {
    Interest::readable().add(Interest::writable())
}

#[test]
fn push_then_select_delivers_in_order() {
    let mut selector = Selector::new(1);
    let a = Registration::new(&mut selector, Token(10), Interest::readable());
    let b = Registration::new(&mut selector, Token(20), Interest::writable());
    assert!(a.push_event(&mut selector, EventKind::Readable));
    assert!(b.push_event(&mut selector, EventKind::Writable));
    assert!(!b.push_event(&mut selector, EventKind::Readable));
    let mut events = Events::with_capacity(8);
    selector.select(&mut events);
    assert_eq!(
        events.to_vec(),
        vec![
            Event::new(EventKind::Readable, Token(10)),
            Event::new(EventKind::Writable, Token(20)),
        ]
    );
    selector.select(&mut events);
    assert!(events.is_empty());
}

#[test]
fn channel_is_first_in_first_out() {
    let mut channel = EventChannel::new();
    assert!(channel.is_empty());
    assert_eq!(channel.try_recv(), None);
    channel.send((RegistrationId(4), EventKind::Writable));
    assert!(!channel.is_empty());
    channel.send((RegistrationId(2), EventKind::ReadError));
    channel.send((RegistrationId(9), EventKind::Readable));
    assert_eq!(channel.try_recv(), Some((RegistrationId(4), EventKind::Writable)));
    assert_eq!(channel.try_recv(), Some((RegistrationId(2), EventKind::ReadError)));
    assert!(!channel.is_empty());
    assert_eq!(channel.try_recv(), Some((RegistrationId(9), EventKind::Readable)));
    assert!(channel.is_empty());
    assert_eq!(channel.try_recv(), None);
}

#[test]
fn two_channels_do_not_mix() {
    let mut one = EventChannel::new();
    let mut two = EventChannel::new();
    one.send((RegistrationId(1), EventKind::Readable));
    assert!(two.is_empty());
    assert_eq!(two.try_recv(), None);
    assert_eq!(one.try_recv(), Some((RegistrationId(1), EventKind::Readable)));
}

#[test]
fn new_selector_is_empty() {
    let mut selector = Selector::new(42);
    assert_eq!(selector.id(), 42);
    assert!(!selector.has_pending());
    assert!(selector.can_register());
    assert_eq!(selector.registered(RegistrationId(1)), None);
    let mut events = Events::with_capacity(4);
    selector.select(&mut events);
    assert!(events.is_empty());
    assert_eq!(events.len(), 0);
    assert_eq!(events.capacity(), 4);
}

#[test]
fn registration_ids_start_at_one_and_grow() {
    let mut selector = Selector::new(1);
    let a = Registration::new(&mut selector, Token(7), Interest::readable());
    let b = Registration::new(&mut selector, Token(8), Interest::writable());
    let c = Registration::new(&mut selector, Token(9), both());
    assert_eq!(a.id, RegistrationId(1));
    assert_eq!(b.id, RegistrationId(2));
    assert_eq!(c.id, RegistrationId(3));
    assert_eq!(a.selector, 1);
    assert_eq!(a.token(), Token(7));
    assert_eq!(selector.registered(a.id), Some((Token(7), Interest::readable())));
    assert_eq!(selector.registered(b.id), Some((Token(8), Interest::writable())));
    assert_eq!(selector.registered(c.id), Some((Token(9), both())));
    assert_eq!(selector.registered(RegistrationId(4)), None);
    assert_eq!(selector.registered(RegistrationId(0)), None);
}

#[test]
fn registration_id_counter() {
    let mut counter: usize = 5;
    assert_eq!(RegistrationId::new(&mut counter), RegistrationId(5));
    assert_eq!(counter, 6);
    assert_eq!(RegistrationId::new(&mut counter), RegistrationId(6));
    assert_eq!(counter, 7);
}

#[test]
fn ids_are_not_reused_after_release() {
    let mut selector = Selector::new(1);
    let a = Registration::new(&mut selector, Token(7), Interest::readable());
    a.release(&mut selector);
    let b = Registration::new(&mut selector, Token(8), Interest::readable());
    assert_eq!(b.id, RegistrationId(2));
    assert_eq!(selector.registered(RegistrationId(1)), None);
}

#[test]
fn select_stops_at_capacity_and_keeps_the_surplus() {
    let mut selector = Selector::new(1);
    let r = Registration::new(&mut selector, Token(5), both());
    for _ in 0..3 {
        r.push_event(&mut selector, EventKind::Readable);
        r.push_event(&mut selector, EventKind::Writable);
    }
    let mut events = Events::with_capacity(4);
    selector.select(&mut events);
    assert_eq!(events.len(), 4);
    assert_eq!(events.get(3), Some(Event::new(EventKind::Writable, Token(5))));
    assert_eq!(events.get(4), None);
    assert!(selector.has_pending());
    selector.select(&mut events);
    assert_eq!(
        events.to_vec(),
        vec![
            Event::new(EventKind::Readable, Token(5)),
            Event::new(EventKind::Writable, Token(5)),
        ]
    );
    assert!(!selector.has_pending());
}

#[test]
fn select_into_a_buffer_without_room_takes_nothing() {
    let mut selector = Selector::new(1);
    let r = Registration::new(&mut selector, Token(5), both());
    r.push_event(&mut selector, EventKind::Readable);
    let mut none = Events::with_capacity(0);
    selector.select(&mut none);
    assert!(none.is_empty());
    assert!(selector.has_pending());
    let mut one = Events::with_capacity(1);
    selector.select(&mut one);
    assert_eq!(one.to_vec(), vec![Event::new(EventKind::Readable, Token(5))]);
}

#[test]
fn select_clears_the_buffer_first() {
    let mut selector = Selector::new(1);
    let r = Registration::new(&mut selector, Token(5), both());
    r.push_event(&mut selector, EventKind::Readable);
    let mut events = Events::with_capacity(2);
    selector.select(&mut events);
    assert_eq!(events.len(), 1);
    r.push_event(&mut selector, EventKind::Writable);
    selector.select(&mut events);
    assert_eq!(events.to_vec(), vec![Event::new(EventKind::Writable, Token(5))]);
    events.clear();
    assert!(events.is_empty());
    assert_eq!(events.capacity(), 2);
}

#[test]
fn skipped_messages_do_not_use_up_room() {
    let mut selector = Selector::new(1);
    let gone = Registration::new(&mut selector, Token(1), both());
    let kept = Registration::new(&mut selector, Token(2), both());
    gone.push_event(&mut selector, EventKind::Readable);
    gone.push_event(&mut selector, EventKind::Writable);
    kept.push_event(&mut selector, EventKind::Readable);
    gone.release(&mut selector);
    let mut events = Events::with_capacity(1);
    selector.select(&mut events);
    assert_eq!(events.to_vec(), vec![Event::new(EventKind::Readable, Token(2))]);
    assert!(!selector.has_pending());
}

#[test]
fn events_of_a_released_registration_are_dropped() {
    let mut selector = Selector::new(1);
    let r = Registration::new(&mut selector, Token(5), both());
    assert!(r.push_event(&mut selector, EventKind::Readable));
    assert!(r.push_event(&mut selector, EventKind::ReadError));
    r.release(&mut selector);
    assert!(selector.has_pending());
    let mut events = Events::with_capacity(8);
    selector.select(&mut events);
    assert!(events.is_empty());
    assert!(!selector.has_pending());
}

#[test]
fn push_event_follows_the_interest() {
    let mut selector = Selector::new(1);
    let reader = Registration::new(&mut selector, Token(1), Interest::readable());
    let writer = Registration::new(&mut selector, Token(2), Interest::writable());
    assert!(reader.push_event(&mut selector, EventKind::Readable));
    assert!(reader.push_event(&mut selector, EventKind::ReadClosed));
    assert!(!reader.push_event(&mut selector, EventKind::Writable));
    assert!(!reader.push_event(&mut selector, EventKind::WriteClosed));
    assert!(!writer.push_event(&mut selector, EventKind::Readable));
    assert!(!writer.push_event(&mut selector, EventKind::ReadClosed));
    assert!(writer.push_event(&mut selector, EventKind::Writable));
    assert!(writer.push_event(&mut selector, EventKind::WriteClosed));
    let mut events = Events::with_capacity(8);
    selector.select(&mut events);
    assert_eq!(
        events.to_vec(),
        vec![
            Event::new(EventKind::Readable, Token(1)),
            Event::new(EventKind::ReadClosed, Token(1)),
            Event::new(EventKind::Writable, Token(2)),
            Event::new(EventKind::WriteClosed, Token(2)),
        ]
    );
}

#[test]
fn error_edges_surface_whatever_the_interest() {
    let mut selector = Selector::new(1);
    let reader = Registration::new(&mut selector, Token(1), Interest::readable());
    let writer = Registration::new(&mut selector, Token(2), Interest::writable());
    let nobody = Registration::new(&mut selector, Token(3), Interest::from_bits(0));
    assert!(reader.push_event(&mut selector, EventKind::WriteError));
    assert!(writer.push_event(&mut selector, EventKind::ReadError));
    assert!(nobody.push_event(&mut selector, EventKind::ReadError));
    assert!(nobody.push_event(&mut selector, EventKind::WriteError));
    assert!(!nobody.push_event(&mut selector, EventKind::Readable));
    let mut events = Events::with_capacity(8);
    selector.select(&mut events);
    assert_eq!(
        events.to_vec(),
        vec![
            Event::new(EventKind::WriteError, Token(1)),
            Event::new(EventKind::ReadError, Token(2)),
            Event::new(EventKind::ReadError, Token(3)),
            Event::new(EventKind::WriteError, Token(3)),
        ]
    );
}

#[test]
fn drain_filters_by_the_interest_recorded_at_drain_time() {
    let mut selector = Selector::new(1);
    let mut r = Registration::new(&mut selector, Token(1), both());
    assert!(r.push_event(&mut selector, EventKind::Writable));
    assert!(r.push_event(&mut selector, EventKind::Readable));
    assert!(r.push_event(&mut selector, EventKind::WriteError));
    assert!(r.change_details(&mut selector, Token(9), Interest::readable()));
    let mut events = Events::with_capacity(8);
    selector.select(&mut events);
    assert_eq!(
        events.to_vec(),
        vec![
            Event::new(EventKind::Readable, Token(9)),
            Event::new(EventKind::WriteError, Token(9)),
        ]
    );
}

#[test]
fn matches_interest_table() {
    let r = Interest::readable();
    let w = Interest::writable();
    assert!(EventKind::Readable.matches_interest(&r));
    assert!(EventKind::ReadClosed.matches_interest(&r));
    assert!(!EventKind::Writable.matches_interest(&r));
    assert!(!EventKind::WriteClosed.matches_interest(&r));
    assert!(EventKind::ReadError.matches_interest(&r));
    assert!(EventKind::WriteError.matches_interest(&r));
    assert!(!EventKind::Readable.matches_interest(&w));
    assert!(!EventKind::ReadClosed.matches_interest(&w));
    assert!(EventKind::Writable.matches_interest(&w));
    assert!(EventKind::WriteClosed.matches_interest(&w));
    assert!(EventKind::ReadError.matches_interest(&w));
    assert!(EventKind::WriteError.matches_interest(&w));
}

#[test]
fn change_details_reports_a_change() {
    let mut selector = Selector::new(1);
    let mut r = Registration::new(&mut selector, Token(1), Interest::readable());
    assert!(!r.change_details(&mut selector, Token(1), Interest::readable()));
    assert_eq!(selector.registered(r.id), Some((Token(1), Interest::readable())));
    assert!(r.change_details(&mut selector, Token(2), Interest::readable()));
    assert_eq!(r.token(), Token(2));
    assert_eq!(selector.registered(r.id), Some((Token(2), Interest::readable())));
    assert!(r.change_details(&mut selector, Token(2), Interest::writable()));
    assert_eq!(r.interest, Interest::writable());
    assert_eq!(selector.registered(r.id), Some((Token(2), Interest::writable())));
    assert!(!r.change_details(&mut selector, Token(2), Interest::writable()));
    assert!(!selector.has_pending());
}

#[test]
fn a_registration_acts_on_its_own_selector_only() {
    let mut mine = Selector::new(1);
    let mut other = Selector::new(2);
    let mut r = Registration::new(&mut mine, Token(1), Interest::readable());
    let theirs = Registration::new(&mut other, Token(5), Interest::readable());
    assert_eq!(r.id, theirs.id);
    assert!(!r.push_event(&mut other, EventKind::Readable));
    assert!(!other.has_pending());
    assert!(!r.change_details(&mut other, Token(3), Interest::writable()));
    assert_eq!(r.token(), Token(1));
    assert_eq!(other.registered(theirs.id), Some((Token(5), Interest::readable())));
    assert_eq!(r.provider(), Provider { selector: 1 });
    assert_eq!(Provider::new(&other), Provider { selector: 2 });
    r.release(&mut other);
    assert_eq!(other.registered(theirs.id), Some((Token(5), Interest::readable())));
    assert_eq!(mine.registered(RegistrationId(1)), Some((Token(1), Interest::readable())));
}

#[test]
fn poll_timeout_is_zero_when_events_wait() {
    let mut selector = Selector::new(1);
    assert_eq!(selector.poll_timeout(None), None);
    assert_eq!(selector.poll_timeout(Some(100_000_000)), Some(100_000_000));
    let r = Registration::new(&mut selector, Token(1), Interest::readable());
    r.push_event(&mut selector, EventKind::Readable);
    assert_eq!(selector.poll_timeout(None), Some(0));
    assert_eq!(selector.poll_timeout(Some(100_000_000)), Some(0));
    let mut events = Events::with_capacity(1);
    selector.select(&mut events);
    assert_eq!(selector.poll_timeout(Some(7)), Some(7));
}

#[test]
fn register_waker_tells_whether_one_was_there() {
    let mut selector = Selector::new(1);
    assert!(!selector.register_waker());
    assert!(selector.register_waker());
    assert!(selector.register_waker());
}
