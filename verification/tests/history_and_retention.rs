//! The history snapshot and the retention sweep, observed through the
//! store's public face.

use chat_relay::message::Message;
use chat_relay::session::outbound_startup;
use chat_relay::store::{storage_timestamp, MessageStore};
use chat_relay::RETENTION_SECONDS;

fn store_with(entries: &[(&str, &str, i64)]) -> MessageStore {
    let mut store = MessageStore::new();
    for (user, body, ts) in entries {
        store.add_message(user, body, *ts);
    }
    store
}

fn bodies(messages: &[Message]) -> Vec<String> {
    messages.iter().map(|m| m.message.clone()).collect()
}

#[test]
fn history_snapshot_is_newest_first() {
    // Inserted out of order; the snapshot comes back ordered by
    // descending timestamp and contains every persisted message.
    let store = store_with(&[("a", "mid", 10), ("b", "old", 5), ("c", "new", 20)]);
    let snapshot = store.fetch_past_messages();
    assert_eq!(bodies(&snapshot), vec!["new", "mid", "old"]);
    assert_eq!(snapshot[0].created_at, 20);
    assert_eq!(snapshot[1].created_at, 10);
    assert_eq!(snapshot[2].created_at, 5);
}

#[test]
fn equal_timestamps_put_the_newcomer_first() {
    let store = store_with(&[("a", "first", 7), ("b", "second", 7)]);
    let snapshot = store.fetch_past_messages();
    assert_eq!(bodies(&snapshot), vec!["second", "first"]);
}

#[test]
fn snapshot_lines_follow_snapshot_order() {
    let store = store_with(&[("ann", "hi", 3), ("bob", "yo", 9)]);
    let lines = outbound_startup("Guest1", &store.fetch_past_messages());
    assert_eq!(lines.len(), 3);
    assert_eq!(lines[0], "Your username is: Guest1");
    assert_eq!(lines[1], "9 bob: yo");
    assert_eq!(lines[2], "3 ann: hi");
}

#[test]
fn store_ids_count_up_from_zero() {
    let store = store_with(&[("a", "x", 2), ("b", "y", 1)]);
    let snapshot = store.fetch_past_messages();
    // Newest first: "x" (ts 2, id 0), then "y" (ts 1, id 1).
    assert_eq!(snapshot[0].id, 0);
    assert_eq!(snapshot[1].id, 1);
}

#[test]
fn retention_removes_all_and_only_expired_messages() {
    let now: i64 = 10_000_000;
    let cutoff = now - RETENTION_SECONDS;
    let mut store = store_with(&[
        ("a", "ancient", cutoff - 5000),
        ("b", "just expired", cutoff - 1),
        ("c", "on the edge", cutoff),
        ("d", "fresh", now),
    ]);
    store.cleanup_message(now);
    let after = store.fetch_past_messages();
    assert_eq!(bodies(&after), vec!["fresh", "on the edge"]);
}

#[test]
fn retention_twice_is_the_same_as_once() {
    let now: i64 = 20_000_000;
    let mut store = store_with(&[
        ("a", "old", now - RETENTION_SECONDS - 10),
        ("b", "new", now - 10),
    ]);
    store.cleanup_message(now);
    let first = store.fetch_past_messages();
    store.cleanup_message(now);
    let second = store.fetch_past_messages();
    assert_eq!(bodies(&first), bodies(&second));
    assert_eq!(first.len(), 1);
    assert_eq!(second[0].message, "new");
    assert_eq!(second[0].created_at, now - 10);
}

#[test]
fn retention_on_empty_store_is_a_no_op() {
    let mut store = MessageStore::new();
    store.cleanup_message(1_000_000_000);
    assert_eq!(store.fetch_past_messages().len(), 0);
}

#[test]
fn storage_timestamp_scales_to_the_stored_unit() {
    assert_eq!(storage_timestamp(5), Some(5000));
    assert_eq!(storage_timestamp(0), Some(0));
    assert_eq!(storage_timestamp(-3), Some(-3000));
    assert_eq!(storage_timestamp(i64::MAX / 1000 + 1), None);
}
