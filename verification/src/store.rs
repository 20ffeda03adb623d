//! The message store: the durable log of chat messages.
//!
//! The store keeps messages ordered by descending timestamp, assigns each
//! one a fresh identifier, and ages messages out after the retention
//! window. It is the in-process model of the durable table `(id,
//! username, message, created_at)`; the calling program mirrors every
//! operation onto its storage engine.

use vstd::prelude::*;

use crate::message::Message;
use crate::RETENTION_SECONDS;
use crate::retention_cutoff;

verus! {

/// Newest first: timestamps never increase along the sequence.
pub open spec fn sorted_desc(s: Seq<Message>) -> bool {
    forall|i: int, j: int| 0 <= i <= j < s.len() ==> s[i].created_at >= s[j].created_at
}

/// What a retention sweep leaves behind: exactly the messages whose
/// timestamp is at or above the cutoff, in their stored order.
pub open spec fn keep_recent(s: Seq<Message>, cutoff: int) -> Seq<Message>
    decreases s.len(),
{
    if s.len() == 0 {
        s
    } else {
        let rest = keep_recent(s.drop_last(), cutoff);
        if s.last().created_at >= cutoff {
            rest.push(s.last())
        } else {
            rest
        }
    }
}

/// The sweep removes all and only the messages older than the cutoff:
/// everything it keeps is a stored message at or above the cutoff, and
/// every stored message at or above the cutoff is kept.
pub proof fn lemma_keep_recent_membership(s: Seq<Message>, cutoff: int)
    ensures
        forall|i: int|
            0 <= i < keep_recent(s, cutoff).len() ==> (#[trigger] keep_recent(s, cutoff)[i]).created_at
                >= cutoff && s.contains(keep_recent(s, cutoff)[i]),
        forall|i: int|
            0 <= i < s.len() && (#[trigger] s[i]).created_at >= cutoff ==> keep_recent(
                s,
                cutoff,
            ).contains(s[i]),
    decreases s.len(),
{
    if s.len() > 0 {
        let prefix = s.drop_last();
        let rest = keep_recent(prefix, cutoff);
        let r = keep_recent(s, cutoff);
        lemma_keep_recent_membership(prefix, cutoff);
        assert forall|i: int| 0 <= i < r.len() implies (#[trigger] r[i]).created_at >= cutoff
            && s.contains(r[i]) by {
            if i < rest.len() {
                assert(r[i] == rest[i]);
                let j = choose|j: int| 0 <= j < prefix.len() && prefix[j] == rest[i];
                assert(s[j] == r[i]);
            } else {
                assert(r[i] == s.last());
                assert(s[s.len() - 1] == s.last());
            }
        }
        assert forall|i: int| 0 <= i < s.len() && (#[trigger] s[i]).created_at >= cutoff implies r
            .contains(s[i]) by {
            if i < s.len() - 1 {
                assert(prefix[i] == s[i]);
                let j = choose|j: int| 0 <= j < rest.len() && rest[j] == prefix[i];
                assert(r[j] == s[i]);
            } else {
                assert(r[r.len() - 1] == s[i]);
            }
        }
    }
}

/// Sweeping keeps the newest-first order.
pub proof fn lemma_keep_recent_sorted(s: Seq<Message>, cutoff: int)
    requires
        sorted_desc(s),
    ensures
        sorted_desc(keep_recent(s, cutoff)),
    decreases s.len(),
{
    if s.len() > 0 {
        let prefix = s.drop_last();
        let rest = keep_recent(prefix, cutoff);
        let r = keep_recent(s, cutoff);
        assert(sorted_desc(prefix)) by {
            assert forall|i: int, j: int| 0 <= i <= j < prefix.len() implies prefix[i].created_at
                >= prefix[j].created_at by {
                assert(s[i].created_at >= s[j].created_at);
            }
        }
        lemma_keep_recent_sorted(prefix, cutoff);
        lemma_keep_recent_membership(prefix, cutoff);
        if s.last().created_at >= cutoff {
            assert forall|i: int, j: int| 0 <= i <= j < r.len() implies r[i].created_at
                >= r[j].created_at by {
                if j < rest.len() {
                    assert(r[i] == rest[i] && r[j] == rest[j]);
                } else {
                    assert(r[j] == s.last());
                    if i < rest.len() {
                        let k = choose|k: int| 0 <= k < prefix.len() && prefix[k] == rest[i];
                        assert(s[k].created_at >= s[s.len() - 1].created_at);
                    }
                }
            }
        }
    }
}

/// Running the sweep twice with the same cutoff changes nothing the
/// second time.
pub proof fn lemma_keep_recent_idempotent(s: Seq<Message>, cutoff: int)
    ensures
        keep_recent(keep_recent(s, cutoff), cutoff) == keep_recent(s, cutoff),
    decreases s.len(),
{
    if s.len() > 0 {
        let prefix = s.drop_last();
        let rest = keep_recent(prefix, cutoff);
        lemma_keep_recent_idempotent(prefix, cutoff);
        if s.last().created_at >= cutoff {
            let r = rest.push(s.last());
            assert(r.drop_last() =~= rest);
            assert(r.last() == s.last());
            assert(keep_recent(r, cutoff) =~= keep_recent(rest, cutoff).push(s.last()));
        }
    }
}

/// A remembered pairing of a client address and a display name, the row
/// shape of the store's second table. Reserved: nothing assigns names
/// from it yet, and connections get a fresh generated name instead.
pub struct Username {
    /// The client address, as a single number.
    pub ip: i64,
    /// The display name last associated with that address.
    pub username: String,
}

/// The stored form of a timestamp: the storage engine keeps the column
/// a thousandfold finer than whole seconds, so persisting scales the
/// second count by 1000. `None` when the scaled value would not fit.
pub fn storage_timestamp(seconds: i64) -> (r: Option<i64>)
    ensures
        r matches Some(ms) ==> ms == seconds * 1000,
        r is None <==> !(i64::MIN <= seconds * 1000 <= i64::MAX),
{
    seconds.checked_mul(1000)
}

/// The durable message log, modelled as its full contents.
pub struct MessageStore {
    messages: Vec<Message>,
    next_id: i64,
}

impl MessageStore {
    /// The stored messages, newest first.
    pub closed spec fn view(&self) -> Seq<Message> {
        self.messages@
    }

    /// The identifier the next persisted message will get.
    pub closed spec fn spec_next_id(&self) -> int {
        self.next_id as int
    }

    /// Store invariant: newest-first order, no empty bodies, and every
    /// identifier already handed out is below the next one.
    pub open spec fn wf(&self) -> bool {
        &&& sorted_desc(self@)
        &&& forall|i: int| 0 <= i < self@.len() ==> (#[trigger] self@[i]).valid()
        &&& forall|i: int| 0 <= i < self@.len() ==> (#[trigger] self@[i]).id < self.spec_next_id()
    }

    /// An empty store.
    pub fn new() -> (s: MessageStore)
        ensures
            s.wf(),
            s@ == Seq::<Message>::empty(),
            s.spec_next_id() == 0,
    {
        let s = MessageStore { messages: Vec::new(), next_id: 0 };
        proof {
            assert(s@ =~= Seq::<Message>::empty());
        }
        s
    }

    /// Persist one message. It is placed by its timestamp, before every
    /// stored message with a strictly smaller one, so the newest-first
    /// order is kept; among equal timestamps the newcomer comes first.
    pub fn add_message(&mut self, username: &str, message: &str, created_at: i64)
        requires
            old(self).wf(),
            message@.len() > 0,
            old(self).spec_next_id() < i64::MAX,
        ensures
            final(self).wf(),
            final(self).spec_next_id() == old(self).spec_next_id() + 1,
            final(self)@.len() == old(self)@.len() + 1,
            exists|k: int|
                {
                    &&& 0 <= k <= old(self)@.len()
                    &&& final(self)@ == old(self)@.insert(k, final(self)@[k])
                    &&& (forall|j: int|
                        0 <= j < k ==> (#[trigger] old(self)@[j]).created_at > created_at)
                    &&& (k < old(self)@.len() ==> old(self)@[k].created_at <= created_at)
                    &&& final(self)@[k].username@ == username@
                    &&& final(self)@[k].message@ == message@
                    &&& final(self)@[k].created_at == created_at
                    &&& final(self)@[k].id == old(self).spec_next_id()
                },
    {
        let n = self.messages.len();
        let mut k: usize = 0;
        while k < n && self.messages[k].created_at > created_at
            invariant
                k <= n,
                n == self.messages.len(),
                *self == *old(self),
                forall|j: int| 0 <= j < k ==> (#[trigger] self.messages@[j]).created_at > created_at,
            decreases n - k,
        {
            k += 1;
        }
        let id = self.next_id;
        self.next_id = id + 1;
        let m = Message {
            id,
            username: username.to_owned(),
            message: message.to_owned(),
            created_at,
        };
        self.messages.insert(k, m);
        proof {
            let pre = old(self)@;
            let post = self@;
            let ki = k as int;
            assert(post == pre.insert(ki, post[ki]));
            assert forall|i: int, j: int| 0 <= i <= j < post.len() implies post[i].created_at
                >= post[j].created_at by {
                if i < ki && j == ki {
                    assert(pre[i].created_at > created_at);
                } else if i == ki && j > ki {
                    assert(pre[ki].created_at <= created_at);
                    assert(pre[ki].created_at >= pre[j - 1].created_at);
                }
            }
            assert(final(self).wf());
        }
    }

    /// A snapshot of the whole history, newest first: exactly the stored
    /// contents, in store order.
    pub fn fetch_past_messages(&self) -> (v: Vec<Message>)
        ensures
            v@ == self@,
            self.wf() ==> sorted_desc(v@),
    {
        let mut v: Vec<Message> = Vec::new();
        let mut i: usize = 0;
        let n = self.messages.len();
        while i < n
            invariant
                i <= n,
                n == self.messages.len(),
                v@ =~= self.messages@.subrange(0, i as int),
            decreases n - i,
        {
            v.push(self.messages[i].clone());
            i += 1;
        }
        proof {
            assert(v@ =~= self@);
        }
        v
    }

    /// The retention sweep: drop every message strictly older than the
    /// retention window measured from `now`, keep everything else.
    pub fn cleanup_message(&mut self, now: i64)
        requires
            old(self).wf(),
            now >= i64::MIN + RETENTION_SECONDS,
        ensures
            final(self).wf(),
            final(self)@ == keep_recent(old(self)@, retention_cutoff(now as int)),
            final(self).spec_next_id() == old(self).spec_next_id(),
    {
        let cutoff = now - RETENTION_SECONDS;
        let mut kept: Vec<Message> = Vec::new();
        let mut i: usize = 0;
        let n = self.messages.len();
        while i < n
            invariant
                i <= n,
                n == self.messages.len(),
                *self == *old(self),
                cutoff == retention_cutoff(now as int),
                kept@ == keep_recent(self.messages@.subrange(0, i as int), cutoff as int),
            decreases n - i,
        {
            proof {
                let s = self.messages@;
                assert(s.subrange(0, i + 1).drop_last() =~= s.subrange(0, i as int));
                assert(s.subrange(0, i + 1).last() == s[i as int]);
            }
            if self.messages[i].created_at >= cutoff {
                kept.push(self.messages[i].clone());
            }
            i += 1;
        }
        proof {
            assert(self.messages@.subrange(0, n as int) =~= self.messages@);
            lemma_keep_recent_membership(old(self)@, cutoff as int);
            lemma_keep_recent_sorted(old(self)@, cutoff as int);
        }
        self.messages = kept;
        proof {
            assert forall|i: int| 0 <= i < self@.len() implies (#[trigger] self@[i]).valid()
                && self@[i].id < self.spec_next_id() by {
                let j = choose|j: int| 0 <= j < old(self)@.len() && old(self)@[j] == self@[i];
            }
        }
    }
}

} // verus!
