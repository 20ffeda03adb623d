//! Connection sessions and their two pumps.
//!
//! A session owns one client's duplex channel and runs two duties: the
//! inbound pump turns the client's text frames into broadcast lines and
//! stored messages, and the outbound pump sends the greeting, the
//! history snapshot, and then every line its subscription delivers. The
//! functions here are the decision core of both pumps; the surrounding
//! program reads frames, performs sends, and feeds each event back in.

use vstd::prelude::*;

use crate::hub::{bounded_push, BroadcastHub};
use crate::message::{format_line, greeting_line, spec_greeting, spec_line, Message};
use crate::store::MessageStore;

verus! {

/// One frame read from the client. Anything that is neither text nor an
/// explicit close (control traffic, binary data) is `Other`.
pub enum Frame {
    Text(String),
    Close,
    Other,
}

/// What the inbound pump sees on one read from the channel.
pub enum InboundEvent {
    /// A frame arrived.
    Received(Frame),
    /// The read failed: the client is gone or the transport broke.
    TransportError,
    /// The channel's read side finished cleanly.
    StreamEnd,
}

/// What the inbound pump does in reaction to one event.
pub enum InboundAction {
    /// Broadcast `line` to the hub and persist `text` with `timestamp`.
    Publish { line: String, text: String, timestamp: i64 },
    /// Do nothing: an empty text frame or a non-text frame.
    Ignore,
    /// Terminate the pump, tearing the session down.
    Stop,
}

/// Whether the event carries a text frame with content.
pub open spec fn is_nonempty_text(event: InboundEvent) -> bool {
    match event {
        InboundEvent::Received(Frame::Text(t)) => t@.len() > 0,
        _ => false,
    }
}

/// The text carried by the event's frame.
pub open spec fn event_text(event: InboundEvent) -> Seq<char> {
    match event {
        InboundEvent::Received(Frame::Text(t)) => t@,
        _ => Seq::empty(),
    }
}

/// Whether the event ends the inbound pump: a close frame, a transport
/// error, or the end of the stream.
pub open spec fn ends_session(event: InboundEvent) -> bool {
    match event {
        InboundEvent::Received(Frame::Close) => true,
        InboundEvent::Received(_) => false,
        InboundEvent::TransportError => true,
        InboundEvent::StreamEnd => true,
    }
}

/// Decide what one inbound event means, given the session's display name
/// and the time of receipt. A text frame with content becomes a publish
/// of its formatted line; an empty text frame and a non-text frame are
/// ignored; a close frame, a read error and the end of the stream all
/// stop the pump.
pub fn classify_frame(username: &str, event: InboundEvent, now: i64) -> (a: InboundAction)
    ensures
        is_nonempty_text(event) ==> (a matches InboundAction::Publish { line, text, timestamp }
            && line@ == spec_line(now as int, username@, event_text(event)) && text@ == event_text(
            event,
        ) && timestamp == now),
        ends_session(event) ==> a matches InboundAction::Stop,
        !is_nonempty_text(event) && !ends_session(event) ==> a matches InboundAction::Ignore,
{
    match event {
        InboundEvent::Received(Frame::Text(t)) => {
            if t.as_str().is_empty() {
                InboundAction::Ignore
            } else {
                let line = format_line(now, username, t.as_str());
                InboundAction::Publish { line, text: t, timestamp: now }
            }
        },
        InboundEvent::Received(Frame::Close) => InboundAction::Stop,
        InboundEvent::Received(Frame::Other) => InboundAction::Ignore,
        InboundEvent::TransportError => InboundAction::Stop,
        InboundEvent::StreamEnd => InboundAction::Stop,
    }
}

/// The hub delivered `line` to every subscription active in `pre`, and
/// nothing else about it changed.
pub open spec fn hub_broadcasts(pre: BroadcastHub, post: BroadcastHub, line: Seq<char>) -> bool {
    &&& post.sub_count() == pre.sub_count()
    &&& post.spec_capacity() == pre.spec_capacity()
    &&& forall|j: int| 0 <= j < pre.sub_count() ==> post.is_active(j) == pre.is_active(j)
    &&& forall|j: int|
        0 <= j < pre.sub_count() && pre.is_active(j) ==> post.queue(j) == bounded_push(
            pre.queue(j),
            line,
            pre.spec_capacity(),
        )
    &&& forall|j: int|
        0 <= j < pre.sub_count() && !pre.is_active(j) ==> post.queue(j) == pre.queue(j)
}

/// Nothing about the hub changed.
pub open spec fn hub_unchanged(pre: BroadcastHub, post: BroadcastHub) -> bool {
    &&& post.sub_count() == pre.sub_count()
    &&& post.spec_capacity() == pre.spec_capacity()
    &&& forall|j: int| 0 <= j < pre.sub_count() ==> post.is_active(j) == pre.is_active(j)
    &&& forall|j: int| 0 <= j < pre.sub_count() ==> post.queue(j) == pre.queue(j)
}

/// The store gained exactly one message, with this author, body and
/// timestamp, in timestamp order; everything stored before is still
/// there, unchanged.
pub open spec fn store_appends(
    pre: MessageStore,
    post: MessageStore,
    username: Seq<char>,
    text: Seq<char>,
    ts: int,
) -> bool {
    &&& post@.len() == pre@.len() + 1
    &&& post.spec_next_id() == pre.spec_next_id() + 1
    &&& exists|k: int|
        {
            &&& 0 <= k <= pre@.len()
            &&& post@ == pre@.insert(k, post@[k])
            &&& post@[k].username@ == username
            &&& post@[k].message@ == text
            &&& post@[k].created_at == ts
            &&& post@[k].id == pre.spec_next_id()
        }
}

/// Drive one inbound event through the whole pump step: classify it,
/// and on a publishable frame broadcast the formatted line to the hub
/// and persist the message, in that order and independently of each
/// other. Returns whether the pump must stop. Exactly the events that
/// end the session stop it; exactly the non-empty text frames reach the
/// hub and the store; everything else leaves both untouched.
pub fn run_inbound_frame(
    store: &mut MessageStore,
    hub: &mut BroadcastHub,
    username: &str,
    event: InboundEvent,
    now: i64,
) -> (stop: bool)
    requires
        old(store).wf(),
        old(hub).wf(),
        old(store).spec_next_id() < i64::MAX,
    ensures
        final(store).wf(),
        final(hub).wf(),
        stop == ends_session(event),
        is_nonempty_text(event) ==> store_appends(
            *old(store),
            *final(store),
            username@,
            event_text(event),
            now as int,
        ) && hub_broadcasts(
            *old(hub),
            *final(hub),
            spec_line(now as int, username@, event_text(event)),
        ),
        !is_nonempty_text(event) ==> *final(store) == *old(store) && hub_unchanged(
            *old(hub),
            *final(hub),
        ),
{
    let stop = matches!(event, InboundEvent::Received(Frame::Close))
        || matches!(event, InboundEvent::TransportError)
        || matches!(event, InboundEvent::StreamEnd);
    let action = classify_frame(username, event, now);
    match action {
        InboundAction::Publish { line, text, timestamp } => {
            hub.publish(line.as_str());
            store.add_message(username, text.as_str(), timestamp);
        },
        InboundAction::Ignore => {},
        InboundAction::Stop => {},
    }
    stop
}

/// One full inbound-pump reaction: stamp the event with the time of
/// receipt, read from the system clock, and drive it through the hub
/// and the store. The clock pins the timestamp, nothing else: whatever
/// it returned, a non-empty text frame is broadcast and persisted with
/// that single stamp, and every other event changes nothing.
pub fn handle_inbound_event(
    store: &mut MessageStore,
    hub: &mut BroadcastHub,
    username: &str,
    event: InboundEvent,
) -> (stop: bool)
    requires
        old(store).wf(),
        old(hub).wf(),
        old(store).spec_next_id() < i64::MAX,
    ensures
        final(store).wf(),
        final(hub).wf(),
        stop == ends_session(event),
        is_nonempty_text(event) ==> exists|now: int|
            store_appends(*old(store), *final(store), username@, event_text(event), now)
                && hub_broadcasts(
                *old(hub),
                *final(hub),
                spec_line(now, username@, event_text(event)),
            ),
        !is_nonempty_text(event) ==> *final(store) == *old(store) && hub_unchanged(
            *old(hub),
            *final(hub),
        ),
{
    let now = crate::clock::now_unix();
    run_inbound_frame(store, hub, username, event, now)
}

/// Everything the outbound pump sends before its steady-state loop: the
/// greeting announcing the display name, then one line per message of
/// the history snapshot, in snapshot order (newest first).
pub fn outbound_startup(username: &str, history: &Vec<Message>) -> (lines: Vec<String>)
    ensures
        lines@.len() == 1 + history@.len(),
        lines@[0]@ == spec_greeting(username@),
        forall|i: int| 0 <= i < history@.len() ==> #[trigger] lines@[i + 1]@ == history@[i].line_view(),
{
    let mut lines: Vec<String> = Vec::new();
    lines.push(greeting_line(username));
    let mut i: usize = 0;
    let n = history.len();
    while i < n
        invariant
            i <= n,
            n == history@.len(),
            lines@.len() == 1 + i,
            lines@[0]@ == spec_greeting(username@),
            forall|j: int| 0 <= j < i ==> #[trigger] lines@[j + 1]@ == history@[j].line_view(),
        decreases n - i,
    {
        lines.push(history[i].render_line());
        i += 1;
    }
    lines
}

/// No empty artifacts: only a text frame with content is ever broadcast
/// or persisted — every other event leaves the hub and the store
/// untouched, by the pump's own contract — and what such a frame
/// produces is never empty either: the stored body is the frame's
/// non-empty text, and the broadcast line starts with the timestamp's
/// digits.
pub proof fn lemma_no_empty_artifacts(event: InboundEvent, username: Seq<char>, now: int)
    requires
        is_nonempty_text(event),
    ensures
        event_text(event).len() > 0,
        spec_line(now, username, event_text(event)).len() > 0,
{
    crate::message::lemma_line_nonempty(now, username, event_text(event));
}

/// One connection's session: the pair of pumps and the subscription
/// they share. The session is useful only while both directions run.
pub struct Session {
    /// The hub subscription handle created when the session started.
    pub subscription: usize,
    /// Whether the inbound pump is still running.
    pub inbound_running: bool,
    /// Whether the outbound pump is still running.
    pub outbound_running: bool,
}

impl Session {
    /// Open a session: create its subscription — before any history
    /// query, so no line published after the snapshot is missed — and
    /// start both pumps.
    pub fn start(hub: &mut BroadcastHub) -> (s: Session)
        requires
            old(hub).wf(),
        ensures
            final(hub).wf(),
            s.inbound_running,
            s.outbound_running,
            s.subscription == old(hub).sub_count(),
            final(hub).sub_count() == old(hub).sub_count() + 1,
            final(hub).spec_capacity() == old(hub).spec_capacity(),
            final(hub).is_active(s.subscription as int),
            final(hub).queue(s.subscription as int) == Seq::<Seq<char>>::empty(),
            forall|j: int|
                0 <= j < old(hub).sub_count() ==> final(hub).is_active(j) == old(hub).is_active(j)
                    && final(hub).queue(j) == old(hub).queue(j),
    {
        let subscription = hub.subscribe();
        Session { subscription, inbound_running: true, outbound_running: true }
    }

    /// Fail-fast teardown: the moment either pump terminates — normal
    /// completion, close frame, or transport error — the whole session
    /// ends. Both directions are stopped together and the subscription
    /// is released, so neither a half-open session nor a leaked
    /// subscription outlives the first failure.
    pub fn on_pump_exit(&mut self, hub: &mut BroadcastHub)
        requires
            old(hub).wf(),
            old(self).subscription < old(hub).sub_count(),
        ensures
            final(hub).wf(),
            !final(self).inbound_running,
            !final(self).outbound_running,
            final(self).subscription == old(self).subscription,
            !final(hub).is_active(old(self).subscription as int),
            final(hub).queue(old(self).subscription as int) == Seq::<Seq<char>>::empty(),
            final(hub).sub_count() == old(hub).sub_count(),
            final(hub).spec_capacity() == old(hub).spec_capacity(),
            forall|j: int|
                0 <= j < old(hub).sub_count() && j != old(self).subscription ==> final(hub).is_active(
                    j,
                ) == old(hub).is_active(j) && final(hub).queue(j) == old(hub).queue(j),
    {
        self.inbound_running = false;
        self.outbound_running = false;
        hub.unsubscribe(self.subscription);
    }
}

} // verus!
