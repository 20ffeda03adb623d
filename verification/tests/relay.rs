//! End-to-end behaviour of the relay core, driven as the server would
//! drive it: sessions subscribe, inbound frames are pumped through the
//! hub and the store, the outbound side drains its queue.

use chat_relay::hub::BroadcastHub;
use chat_relay::session::{
    classify_frame, handle_inbound_event, outbound_startup, run_inbound_frame, Frame,
    InboundAction, InboundEvent, Session,
};
use chat_relay::store::MessageStore;

fn text_event(s: &str) -> InboundEvent {
    InboundEvent::Received(Frame::Text(String::from(s)))
}

#[test]
fn greeting_then_empty_history_then_first_message() {
    // A client connects to an empty relay: it is greeted, sees no
    // history, and its first message reaches the store and the hub.
    let mut store = MessageStore::new();
    let mut hub = BroadcastHub::new(16);
    let session = Session::start(&mut hub);

    let history = store.fetch_past_messages();
    let startup = outbound_startup("Guest42", &history);
    assert_eq!(startup.len(), 1);
    assert_eq!(startup[0], "Your username is: Guest42");

    let stop = run_inbound_frame(&mut store, &mut hub, "Guest42", text_event("hello"), 1700000000);
    assert!(!stop);

    let delivered = hub.recv(session.subscription);
    assert_eq!(delivered, Some(String::from("1700000000 Guest42: hello")));
    assert_eq!(hub.recv(session.subscription), None);

    let stored = store.fetch_past_messages();
    assert_eq!(stored.len(), 1);
    assert_eq!(stored[0].username, "Guest42");
    assert_eq!(stored[0].message, "hello");
    assert_eq!(stored[0].created_at, 1700000000);
}

#[test]
fn two_clients_see_both_lines_in_publish_order() {
    // A sends "hi", then B sends "hey": both subscribers receive both
    // lines, in the order they were broadcast.
    let mut store = MessageStore::new();
    let mut hub = BroadcastHub::new(16);
    let a = Session::start(&mut hub);
    let b = Session::start(&mut hub);

    run_inbound_frame(&mut store, &mut hub, "GuestA", text_event("hi"), 100);
    run_inbound_frame(&mut store, &mut hub, "GuestB", text_event("hey"), 101);

    for session in [&a, &b] {
        assert_eq!(hub.recv(session.subscription), Some(String::from("100 GuestA: hi")));
        assert_eq!(hub.recv(session.subscription), Some(String::from("101 GuestB: hey")));
        assert_eq!(hub.recv(session.subscription), None);
    }

    let stored = store.fetch_past_messages();
    assert_eq!(stored.len(), 2);
    // Newest first in the history snapshot.
    assert_eq!(stored[0].message, "hey");
    assert_eq!(stored[1].message, "hi");
}

#[test]
fn empty_text_frame_reaches_neither_store_nor_hub() {
    let mut store = MessageStore::new();
    let mut hub = BroadcastHub::new(4);
    let session = Session::start(&mut hub);

    let stop = run_inbound_frame(&mut store, &mut hub, "Guest1", text_event(""), 50);
    assert!(!stop);
    assert_eq!(hub.recv(session.subscription), None);
    assert_eq!(store.fetch_past_messages().len(), 0);
}

#[test]
fn non_text_frames_are_ignored_and_close_stops() {
    let mut store = MessageStore::new();
    let mut hub = BroadcastHub::new(4);
    let session = Session::start(&mut hub);

    let stop = run_inbound_frame(
        &mut store,
        &mut hub,
        "Guest1",
        InboundEvent::Received(Frame::Other),
        60,
    );
    assert!(!stop);
    assert_eq!(hub.recv(session.subscription), None);
    assert_eq!(store.fetch_past_messages().len(), 0);

    assert!(run_inbound_frame(
        &mut store,
        &mut hub,
        "Guest1",
        InboundEvent::Received(Frame::Close),
        61,
    ));
    assert!(run_inbound_frame(&mut store, &mut hub, "Guest1", InboundEvent::TransportError, 62));
    assert!(run_inbound_frame(&mut store, &mut hub, "Guest1", InboundEvent::StreamEnd, 63));
    assert_eq!(store.fetch_past_messages().len(), 0);
}

#[test]
fn classify_frame_builds_the_broadcast_line() {
    let action = classify_frame("Guest7", text_event("hello there"), 123456789);
    match action {
        InboundAction::Publish { line, text, timestamp } => {
            assert_eq!(line, "123456789 Guest7: hello there");
            assert_eq!(text, "hello there");
            assert_eq!(timestamp, 123456789);
        }
        _ => panic!("a non-empty text frame must be published"),
    }
    assert!(matches!(classify_frame("Guest7", text_event(""), 1), InboundAction::Ignore));
    assert!(matches!(
        classify_frame("Guest7", InboundEvent::Received(Frame::Close), 1),
        InboundAction::Stop
    ));
}

#[test]
fn pump_exit_tears_down_both_directions() {
    // Whichever pump dies first, the session closes: the subscription
    // stops receiving and its pending lines are gone.
    let mut store = MessageStore::new();
    let mut hub = BroadcastHub::new(8);
    let mut session = Session::start(&mut hub);
    let bystander = Session::start(&mut hub);

    run_inbound_frame(&mut store, &mut hub, "GuestX", text_event("before"), 10);
    session.on_pump_exit(&mut hub);
    assert!(!session.inbound_running);
    assert!(!session.outbound_running);

    // Lines published after the teardown never reach the dead session.
    run_inbound_frame(&mut store, &mut hub, "GuestY", text_event("after"), 11);
    assert_eq!(hub.recv(session.subscription), None);
    // The surviving session still gets everything.
    assert_eq!(hub.recv(bystander.subscription), Some(String::from("10 GuestX: before")));
    assert_eq!(hub.recv(bystander.subscription), Some(String::from("11 GuestY: after")));
}

#[test]
fn late_subscriber_misses_earlier_lines() {
    let mut store = MessageStore::new();
    let mut hub = BroadcastHub::new(8);
    let early = Session::start(&mut hub);
    run_inbound_frame(&mut store, &mut hub, "GuestE", text_event("first"), 1);
    let late = Session::start(&mut hub);
    run_inbound_frame(&mut store, &mut hub, "GuestE", text_event("second"), 2);

    assert_eq!(hub.recv(early.subscription), Some(String::from("1 GuestE: first")));
    assert_eq!(hub.recv(early.subscription), Some(String::from("2 GuestE: second")));
    assert_eq!(hub.recv(late.subscription), Some(String::from("2 GuestE: second")));
    assert_eq!(hub.recv(late.subscription), None);
}

#[test]
fn slow_subscriber_loses_oldest_lines_only() {
    // Queue bound 2: after three publishes the oldest line is gone and
    // the publisher was never blocked or failed.
    let mut store = MessageStore::new();
    let mut hub = BroadcastHub::new(2);
    let slow = Session::start(&mut hub);
    run_inbound_frame(&mut store, &mut hub, "G", text_event("one"), 1);
    run_inbound_frame(&mut store, &mut hub, "G", text_event("two"), 2);
    run_inbound_frame(&mut store, &mut hub, "G", text_event("three"), 3);

    assert_eq!(hub.recv(slow.subscription), Some(String::from("2 G: two")));
    assert_eq!(hub.recv(slow.subscription), Some(String::from("3 G: three")));
    assert_eq!(hub.recv(slow.subscription), None);
    // The store, unlike the bounded queues, kept everything.
    assert_eq!(store.fetch_past_messages().len(), 3);
}

#[test]
fn clock_stamped_message_reaches_store_and_hub() {
    // The timestamp comes from the system clock; everything else about
    // the delivered line and the stored message is pinned.
    let mut store = MessageStore::new();
    let mut hub = BroadcastHub::new(4);
    let session = Session::start(&mut hub);

    let stop = handle_inbound_event(&mut store, &mut hub, "GuestT", text_event("stamped"));
    assert!(!stop);

    let line = hub.recv(session.subscription).expect("line must be delivered");
    assert!(line.ends_with(" GuestT: stamped"));
    let stored = store.fetch_past_messages();
    assert_eq!(stored.len(), 1);
    assert_eq!(stored[0].username, "GuestT");
    assert_eq!(stored[0].message, "stamped");
    // The clock reads a present-day time, not a degenerate stamp.
    assert!(stored[0].created_at > 1_500_000_000);
    assert_eq!(line, format!("{} GuestT: stamped", stored[0].created_at));
}

#[test]
fn publish_with_no_subscribers_is_a_no_op() {
    let mut store = MessageStore::new();
    let mut hub = BroadcastHub::new(4);
    let stop = run_inbound_frame(&mut store, &mut hub, "Guest1", text_event("quiet"), 5);
    assert!(!stop);
    assert_eq!(store.fetch_past_messages().len(), 1);
}
