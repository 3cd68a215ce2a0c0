use event_handler::{EventLoop, EventSet, Handler, HandlerExt, Readiness, Token};
use std::collections::HashMap;

struct Plain;

impl Handler for Plain {
    type Timeout = ();
    type Message = Vec<u8>;
}

fn must_be_send<T: Send>() {}

fn simple_message_is_send<H: Handler>() {
    must_be_send::<H::Message>();
}

fn fallible_message_is_send<H: HandlerExt>() {
    must_be_send::<H::Message>();
}

#[test]
fn every_message_type_is_send() {
    simple_message_is_send::<Plain>();
    fallible_message_is_send::<Plain>();
}

#[test]
fn token_is_a_copyable_key() {
    let token = Token(5);
    let copy = token;
    assert_eq!(token, copy);
    assert_eq!(token.0, 5);
    assert_ne!(Token(5), Token(6));
    let mut sources: HashMap<Token, &str> = HashMap::new();
    sources.insert(Token(1), "listener");
    sources.insert(Token(2), "client");
    assert_eq!(sources.get(&Token(2)), Some(&"client"));
    assert_eq!(sources.get(&Token(3)), None);
}

#[test]
fn empty_set_has_no_member() {
    let set = EventSet::none();
    assert!(set.is_none());
    assert!(!set.is_readable());
    assert!(!set.is_writable());
    assert!(!set.is_error());
    assert!(!set.is_hup());
}

#[test]
fn single_sets_have_one_member() {
    let r = EventSet::readable();
    assert!(r.is_readable() && !r.is_writable() && !r.is_error() && !r.is_hup());
    let w = EventSet::writable();
    assert!(!w.is_readable() && w.is_writable() && !w.is_error() && !w.is_hup());
    let e = EventSet::error();
    assert!(!e.is_readable() && !e.is_writable() && e.is_error() && !e.is_hup());
    let h = EventSet::hup();
    assert!(!h.is_readable() && !h.is_writable() && !h.is_error() && h.is_hup());
    assert!(!r.is_none() && !w.is_none() && !e.is_none() && !h.is_none());
    assert_ne!(r, w);
    assert_ne!(e, h);
}

#[test]
fn union_has_the_members_of_both() {
    let both = EventSet::readable().union(EventSet::writable());
    assert!(both.is_readable());
    assert!(both.is_writable());
    assert!(!both.is_error());
    assert!(!both.is_hup());
    assert_eq!(both, EventSet::writable().union(EventSet::readable()));
    assert_eq!(both.union(both), both);
    assert_eq!(both.union(EventSet::none()), both);
    let all = both.union(EventSet::error()).union(EventSet::hup());
    assert!(all.is_readable() && all.is_writable() && all.is_error() && all.is_hup());
}

#[test]
fn contains_is_the_subset_test() {
    let both = EventSet::readable().union(EventSet::writable());
    assert!(both.contains(EventSet::readable()));
    assert!(both.contains(EventSet::writable()));
    assert!(both.contains(both));
    assert!(both.contains(EventSet::none()));
    assert!(!both.contains(EventSet::hup()));
    assert!(!EventSet::readable().contains(both));
    assert!(EventSet::none().contains(EventSet::none()));
    assert!(!EventSet::none().contains(EventSet::error()));
}

#[test]
fn event_set_is_copyable() {
    let set = EventSet::error();
    let copy = set;
    assert_eq!(set, copy);
    assert!(set.is_error());
}

#[test]
fn readiness_kinds_are_distinct() {
    assert_ne!(Readiness::Readable, Readiness::Writable);
    assert_ne!(Readiness::Error, Readiness::Hup);
    let kind = Readiness::Hup;
    let copy = kind;
    assert_eq!(kind, copy);
}

#[test]
fn new_loop_runs_until_shut_down() {
    let mut event_loop: EventLoop<Plain> = EventLoop::new();
    assert!(event_loop.is_running());
    event_loop.shutdown();
    assert!(!event_loop.is_running());
    event_loop.shutdown();
    assert!(!event_loop.is_running());
}
