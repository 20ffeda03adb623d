//! The broadcast hub: the process-wide fan-out point.
//!
//! Publishers push a formatted line; every subscription active at that
//! moment gets a copy appended to its own bounded queue. A slow
//! subscriber never blocks the publisher: when its queue is full, its
//! oldest pending lines are dropped to make room (bounded loss). The hub
//! keeps no history: a new subscription starts with an empty queue and
//! sees only lines published after it was created.

use vstd::prelude::*;

verus! {

/// One subscription's delivery state inside the hub.
struct Subscriber {
    active: bool,
    queue: Vec<String>,
}

/// The lines a queue holds, as sequences of characters.
pub open spec fn lines_of(q: Seq<String>) -> Seq<Seq<char>> {
    q.map_values(|s: String| s@)
}

/// What a queue becomes when one more line arrives: the oldest pending
/// lines fall out, if need be, so that the newest fits within `cap`.
pub open spec fn bounded_push(q: Seq<Seq<char>>, line: Seq<char>, cap: int) -> Seq<Seq<char>> {
    if q.len() < cap {
        q.push(line)
    } else {
        q.skip(q.len() - cap + 1).push(line)
    }
}

/// Append `line` to `q`, first dropping the oldest entries if the queue
/// is at `capacity`.
fn push_line(q: &mut Vec<String>, line: &str, capacity: usize)
    requires
        capacity >= 1,
    ensures
        lines_of(final(q)@) == bounded_push(lines_of(old(q)@), line@, capacity as int),
        lines_of(final(q)@).len() <= capacity,
{
    let ghost orig = old(q)@;
    let ghost mut dropped: int = 0;
    proof {
        assert(q@ =~= orig.skip(0));
    }
    while q.len() >= capacity
        invariant
            capacity >= 1,
            0 <= dropped,
            dropped == orig.len() - q@.len(),
            dropped == 0 || q@.len() >= capacity - 1,
            q@ == orig.skip(dropped),
        decreases q@.len(),
    {
        q.remove(0);
        proof {
            dropped = dropped + 1;
            assert(q@ =~= orig.skip(dropped));
        }
    }
    proof {
        if dropped > 0 {
            assert(q@.len() == capacity - 1);
            assert(dropped == orig.len() - capacity + 1);
        } else {
            assert(orig.len() < capacity);
        }
    }
    q.push(line.to_owned());
    proof {
        assert(lines_of(q@) =~= bounded_push(lines_of(orig), line@, capacity as int));
    }
}

/// The fan-out primitive shared by every connection session.
pub struct BroadcastHub {
    subscribers: Vec<Subscriber>,
    capacity: usize,
}

impl BroadcastHub {
    /// How many subscription slots have ever been handed out; handles
    /// are indices below this count.
    pub closed spec fn sub_count(&self) -> int {
        self.subscribers@.len() as int
    }

    /// Whether the subscription `id` is still receiving lines.
    pub closed spec fn is_active(&self, id: int) -> bool {
        self.subscribers@[id].active
    }

    /// The lines delivered to subscription `id` and not yet consumed,
    /// oldest first.
    pub closed spec fn queue(&self, id: int) -> Seq<Seq<char>> {
        lines_of(self.subscribers@[id].queue@)
    }

    /// How many lines a subscription may have pending before the oldest
    /// is dropped.
    pub closed spec fn spec_capacity(&self) -> int {
        self.capacity as int
    }

    /// Hub invariant: a positive queue bound, and no pending queue ever
    /// exceeds it.
    pub open spec fn wf(&self) -> bool {
        &&& self.spec_capacity() >= 1
        &&& forall|id: int|
            0 <= id < self.sub_count() ==> #[trigger] self.queue(id).len() <= self.spec_capacity()
    }

    /// A hub with no subscribers, whose queues will hold at most
    /// `capacity` pending lines each.
    pub fn new(capacity: usize) -> (h: BroadcastHub)
        requires
            capacity >= 1,
        ensures
            h.wf(),
            h.sub_count() == 0,
            h.spec_capacity() == capacity,
    {
        BroadcastHub { subscribers: Vec::new(), capacity }
    }

    /// Open a new subscription. It starts active with an empty queue:
    /// it will see only lines published after this call.
    pub fn subscribe(&mut self) -> (id: usize)
        requires
            old(self).wf(),
        ensures
            final(self).wf(),
            id == old(self).sub_count(),
            final(self).sub_count() == old(self).sub_count() + 1,
            final(self).spec_capacity() == old(self).spec_capacity(),
            final(self).is_active(id as int),
            final(self).queue(id as int) == Seq::<Seq<char>>::empty(),
            forall|j: int|
                0 <= j < old(self).sub_count() ==> final(self).is_active(j) == old(self).is_active(
                    j,
                ) && final(self).queue(j) == old(self).queue(j),
    {
        let id = self.subscribers.len();
        self.subscribers.push(Subscriber { active: true, queue: Vec::new() });
        proof {
            assert(self.queue(id as int) =~= Seq::<Seq<char>>::empty());
            assert forall|j: int| 0 <= j < self.sub_count() implies #[trigger] self.queue(j).len()
                <= self.spec_capacity() by {
                if j < id {
                    assert(self.queue(j) == old(self).queue(j));
                    assert(old(self).queue(j).len() <= old(self).spec_capacity());
                }
            }
        }
        id
    }

    /// Close a subscription: it receives nothing further and its pending
    /// lines are discarded.
    pub fn unsubscribe(&mut self, id: usize)
        requires
            old(self).wf(),
            id < old(self).sub_count(),
        ensures
            final(self).wf(),
            final(self).sub_count() == old(self).sub_count(),
            final(self).spec_capacity() == old(self).spec_capacity(),
            !final(self).is_active(id as int),
            final(self).queue(id as int) == Seq::<Seq<char>>::empty(),
            forall|j: int|
                0 <= j < old(self).sub_count() && j != id ==> final(self).is_active(j) == old(
                    self,
                ).is_active(j) && final(self).queue(j) == old(self).queue(j),
    {
        let slot = &mut self.subscribers[id];
        slot.active = false;
        slot.queue = Vec::new();
        proof {
            assert(self.queue(id as int) =~= Seq::<Seq<char>>::empty());
            assert forall|j: int| 0 <= j < self.sub_count() implies #[trigger] self.queue(j).len()
                <= self.spec_capacity() by {
                if j != id {
                    assert(self.queue(j) == old(self).queue(j));
                    assert(old(self).queue(j).len() <= old(self).spec_capacity());
                }
            }
        }
    }

    /// Deliver `line` to every active subscription: each gets it
    /// appended to its queue, dropping its oldest pending lines if the
    /// queue was full. Inactive slots and the publisher are untouched;
    /// with no active subscriber this changes nothing.
    pub fn publish(&mut self, line: &str)
        requires
            old(self).wf(),
        ensures
            final(self).wf(),
            final(self).sub_count() == old(self).sub_count(),
            final(self).spec_capacity() == old(self).spec_capacity(),
            forall|j: int|
                0 <= j < old(self).sub_count() ==> final(self).is_active(j) == old(self).is_active(
                    j,
                ),
            forall|j: int|
                0 <= j < old(self).sub_count() && old(self).is_active(j) ==> final(self).queue(j)
                    == bounded_push(old(self).queue(j), line@, old(self).spec_capacity()),
            forall|j: int|
                0 <= j < old(self).sub_count() && !old(self).is_active(j) ==> final(self).queue(j)
                    == old(self).queue(j),
    {
        let n = self.subscribers.len();
        let cap = self.capacity;
        let mut i: usize = 0;
        while i < n
            invariant
                i <= n,
                cap >= 1,
                n == self.sub_count(),
                n == old(self).sub_count(),
                old(self).wf(),
                self.spec_capacity() == old(self).spec_capacity(),
                cap == self.spec_capacity(),
                forall|j: int| 0 <= j < n ==> self.is_active(j) == old(self).is_active(j),
                forall|j: int| i <= j < n ==> #[trigger] self.queue(j) == old(self).queue(j),
                forall|j: int|
                    0 <= j < i && old(self).is_active(j) ==> #[trigger] self.queue(j)
                        == bounded_push(old(self).queue(j), line@, old(self).spec_capacity()),
                forall|j: int|
                    0 <= j < i && !old(self).is_active(j) ==> #[trigger] self.queue(j) == old(
                        self,
                    ).queue(j),
                forall|j: int|
                    0 <= j < i ==> #[trigger] self.queue(j).len() <= self.spec_capacity(),
            decreases n - i,
        {
            let ghost pre = *self;
            let active_i = self.subscribers[i].active;
            if active_i {
                push_line(&mut self.subscribers[i].queue, line, cap);
            }
            proof {
                if active_i {
                    assert forall|j: int| 0 <= j < n && j != i implies #[trigger] self.queue(j)
                        == pre.queue(j) && self.is_active(j) == pre.is_active(j) by {
                        assert(self.subscribers@[j] == pre.subscribers@[j]);
                    }
                    assert(self.queue(i as int) == bounded_push(
                        pre.queue(i as int),
                        line@,
                        cap as int,
                    ));
                } else {
                    assert(self.queue(i as int) == old(self).queue(i as int));
                    assert(old(self).queue(i as int).len() <= old(self).spec_capacity());
                }
            }
            i += 1;
        }
        proof {
            assert forall|j: int| 0 <= j < self.sub_count() implies #[trigger] self.queue(j).len()
                <= self.spec_capacity() by {
                if !old(self).is_active(j) {
                    assert(old(self).queue(j).len() <= old(self).spec_capacity());
                }
            }
        }
    }

    /// Take the oldest pending line of subscription `id`, if any.
    pub fn recv(&mut self, id: usize) -> (r: Option<String>)
        requires
            old(self).wf(),
            id < old(self).sub_count(),
        ensures
            final(self).wf(),
            final(self).sub_count() == old(self).sub_count(),
            final(self).spec_capacity() == old(self).spec_capacity(),
            forall|j: int|
                0 <= j < old(self).sub_count() ==> final(self).is_active(j) == old(self).is_active(
                    j,
                ),
            forall|j: int|
                0 <= j < old(self).sub_count() && j != id ==> final(self).queue(j) == old(
                    self,
                ).queue(j),
            old(self).queue(id as int).len() == 0 ==> r is None && final(self).queue(id as int)
                == old(self).queue(id as int),
            old(self).queue(id as int).len() > 0 ==> (r matches Some(line) && line@ == old(
                self,
            ).queue(id as int).first()) && final(self).queue(id as int) == old(self).queue(
                id as int,
            ).drop_first(),
    {
        let slot = &mut self.subscribers[id];
        let r = if slot.queue.len() == 0 {
            None
        } else {
            let line = slot.queue.remove(0);
            proof {
                assert(self.queue(id as int) =~= old(self).queue(id as int).drop_first());
            }
            Some(line)
        };
        proof {
            assert forall|j: int| 0 <= j < self.sub_count() implies #[trigger] self.queue(j).len()
                <= self.spec_capacity() by {
                if j != id {
                    assert(self.queue(j) == old(self).queue(j));
                }
                assert(old(self).queue(j).len() <= old(self).spec_capacity());
            }
        }
        r
    }
}

/// Every subscription active at publish time receives the published
/// line: after the bounded push it is the newest pending entry of that
/// subscription's queue, whatever older lines were dropped for room.
pub proof fn lemma_publish_delivers(q: Seq<Seq<char>>, line: Seq<char>, cap: int)
    requires
        cap >= 1,
    ensures
        bounded_push(q, line, cap).len() >= 1,
        bounded_push(q, line, cap).last() == line,
{
}

/// No reordering after the publish point: when two lines are published
/// one after the other and a subscriber's queue has room for both, the
/// queue holds the first strictly before the second; a subscriber that
/// drains its queue in order therefore sees them in publish order.
pub proof fn lemma_publish_preserves_order(
    q: Seq<Seq<char>>,
    first: Seq<char>,
    second: Seq<char>,
    cap: int,
)
    requires
        q.len() + 2 <= cap,
    ensures
        bounded_push(bounded_push(q, first, cap), second, cap) == q.push(first).push(second),
        bounded_push(bounded_push(q, first, cap), second, cap)[q.len() as int] == first,
        bounded_push(bounded_push(q, first, cap), second, cap)[q.len() as int + 1] == second,
{
}

} // verus!
