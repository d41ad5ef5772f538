//! The relay bus: one broadcast topic of events with a bounded backlog and an
//! independent read cursor for every subscriber.

use vstd::prelude::*;
use crate::event::{event_view, EventView, ServerEventMessage};

verus! {

/// The last `n` items of `s`, or all of `s` where it has no more than `n`.
pub open spec fn keep_last<A>(s: Seq<A>, n: nat) -> Seq<A> {
    if s.len() > n {
        s.skip(s.len() - n)
    } else {
        s
    }
}

/// The backlog of the relay's own bus.
pub const BACKLOG: usize = 8;

/// The mathematical value of a bus.
pub struct BusView {
    /// How many events the bus retains.
    pub capacity: nat,
    /// The retained events, oldest first.
    pub backlog: Seq<EventView>,
    /// For every subscriber, how many of the retained events it has not read.
    pub pending: Seq<nat>,
}

impl BusView {
    /// The backlog is bounded and no subscriber is owed more than is retained.
    pub open spec fn wf(self) -> bool {
        &&& self.capacity > 0
        &&& self.backlog.len() <= self.capacity
        &&& forall|h: int| 0 <= h < self.pending.len() ==> #[trigger] self.pending[h] <= self.backlog.len()
    }

    /// The number of subscriptions made so far.
    pub open spec fn subscribers(self) -> nat {
        self.pending.len()
    }

    /// The events that subscriber `h` has yet to receive, next one first.
    pub open spec fn queue(self, h: int) -> Seq<EventView> {
        self.backlog.skip(self.backlog.len() - self.pending[h])
    }

    /// The bus of a given capacity before anything happened on it.
    pub open spec fn empty(capacity: nat) -> BusView {
        BusView { capacity, backlog: Seq::empty(), pending: Seq::empty() }
    }

    /// The bus after `e` was published: the backlog takes `e` and lets go of
    /// its oldest event if it is full; every subscriber is owed one event
    /// more, up to the capacity.
    pub open spec fn published(self, e: EventView) -> BusView {
        BusView {
            capacity: self.capacity,
            backlog: keep_last(self.backlog.push(e), self.capacity),
            pending: Seq::new(
                self.pending.len(),
                |h: int|
                    if self.pending[h] < self.capacity {
                        self.pending[h] + 1
                    } else {
                        self.capacity
                    },
            ),
        }
    }

    /// The bus after one more subscription, which is owed nothing yet.
    pub open spec fn subscribed(self) -> BusView {
        BusView { capacity: self.capacity, backlog: self.backlog, pending: self.pending.push(0) }
    }

    /// What subscriber `h` receives next, if anything is waiting for it.
    pub open spec fn next(self, h: int) -> Option<EventView> {
        if 0 <= h < self.pending.len() && self.pending[h] > 0 {
            Some(self.queue(h).first())
        } else {
            None
        }
    }

    /// The bus after subscriber `h` received what was next for it.
    pub open spec fn received(self, h: int) -> BusView {
        if 0 <= h < self.pending.len() && self.pending[h] > 0 {
            BusView {
                capacity: self.capacity,
                backlog: self.backlog,
                pending: self.pending.update(h, (self.pending[h] - 1) as nat),
            }
        } else {
            self
        }
    }
}

/// A broadcast topic of events. Publishing never waits for a subscriber: a
/// subscriber that falls more than the capacity behind loses the oldest
/// events. Every bus is well formed, as `BusView::wf` says.
#[derive(Debug)]
pub struct RelayBus {
    capacity: usize,
    backlog: Vec<ServerEventMessage>,
    pending: Vec<usize>,
}

impl View for RelayBus {
    type V = BusView;

    closed spec fn view(&self) -> BusView {
        BusView {
            capacity: self.capacity as nat,
            backlog: self.backlog@.map_values(|e: ServerEventMessage| e@),
            pending: self.pending@.map_values(|n: usize| n as nat),
        }
    }
}

impl RelayBus {
    #[verifier::type_invariant]
    spec fn inv(self) -> bool {
        self@.wf()
    }

    /// A bus that retains the last `capacity` events.
    pub fn new(capacity: usize) -> (bus: RelayBus)
        requires
            capacity > 0,
        ensures
            bus@.wf(),
            bus@ == BusView::empty(capacity as nat),
    {
        let bus = RelayBus { capacity, backlog: Vec::new(), pending: Vec::new() };
        assert(bus@.backlog =~= Seq::empty());
        assert(bus@.pending =~= Seq::empty());
        bus
    }

    /// The number of events the bus retains.
    pub fn capacity(&self) -> (n: usize)
        ensures
            n == self@.capacity,
            self@.wf(),
    {
        proof {
            use_type_invariant(self);
        }
        self.capacity
    }

    /// The number of subscriptions made so far.
    pub fn subscribers(&self) -> (n: usize)
        ensures
            n == self@.subscribers(),
            self@.wf(),
    {
        proof {
            use_type_invariant(self);
        }
        self.pending.len()
    }

    /// Makes `event` the newest event of the bus and owes it to every
    /// subscriber.
    pub fn publish(&mut self, event: ServerEventMessage)
        ensures
            final(self)@.wf(),
            final(self)@ == old(self)@.published(event@),
    {
        proof {
            use_type_invariant(&*self);
        }
        let ghost before = self@;
        let capacity = self.capacity;
        let mut pending: Vec<usize> = Vec::new();
        let mut backlog: Vec<ServerEventMessage> = Vec::new();
        std::mem::swap(&mut pending, &mut self.pending);
        std::mem::swap(&mut backlog, &mut self.backlog);
        let ghost owed_before = pending@;
        let ghost kept_before = backlog@.len();
        assert forall|k: int| 0 <= k < owed_before.len() implies #[trigger] owed_before[k]
            <= kept_before by {
            assert(before.pending[k] == owed_before[k]);
        }
        if backlog.len() >= capacity {
            backlog.remove(0);
        }
        backlog.push(event);
        assert(backlog@.map_values(|e: ServerEventMessage| e@) =~= before.published(
            event@,
        ).backlog);
        let mut h: usize = 0;
        while h < pending.len()
            invariant
                h <= pending@.len(),
                pending@.len() == owed_before.len(),
                kept_before <= capacity,
                forall|k: int| 0 <= k < owed_before.len() ==> #[trigger] owed_before[k] <= kept_before,
                forall|k: int|
                    0 <= k < h ==> #[trigger] pending@[k] == if owed_before[k] < capacity {
                        owed_before[k] + 1
                    } else {
                        capacity as int
                    },
                forall|k: int| h <= k < pending@.len() ==> #[trigger] pending@[k] == owed_before[k],
            decreases pending@.len() - h,
        {
            let owed = pending[h];
            if owed < capacity {
                pending.set(h, owed + 1);
            }
            h = h + 1;
        }
        assert(pending@.map_values(|n: usize| n as nat) =~= before.published(event@).pending);
        self.backlog = backlog;
        self.pending = pending;
    }

    /// Opens a subscription that will see every event published from now on,
    /// and returns its handle.
    pub fn subscribe(&mut self) -> (handle: usize)
        ensures
            final(self)@.wf(),
            handle == old(self)@.subscribers(),
            final(self)@ == old(self)@.subscribed(),
    {
        proof {
            use_type_invariant(&*self);
        }
        let ghost before = self@;
        let mut pending: Vec<usize> = Vec::new();
        std::mem::swap(&mut pending, &mut self.pending);
        let handle = pending.len();
        pending.push(0);
        assert(pending@.map_values(|n: usize| n as nat) =~= before.subscribed().pending);
        self.pending = pending;
        handle
    }

    /// Hands subscription `handle` a copy of the oldest event it has not yet
    /// received. Returns `None`, and changes nothing, where no event is
    /// waiting or no such subscription was made.
    pub fn receive(&mut self, handle: usize) -> (event: Option<ServerEventMessage>)
        ensures
            final(self)@.wf(),
            event_view(event) == old(self)@.next(handle as int),
            final(self)@ == old(self)@.received(handle as int),
    {
        proof {
            use_type_invariant(&*self);
        }
        let ghost before = self@;
        if handle >= self.pending.len() {
            return None;
        }
        let owed = self.pending[handle];
        if owed == 0 {
            return None;
        }
        let event = self.backlog[self.backlog.len() - owed].clone();
        let mut pending: Vec<usize> = Vec::new();
        std::mem::swap(&mut pending, &mut self.pending);
        pending.set(handle, owed - 1);
        assert(pending@.map_values(|n: usize| n as nat) =~= before.received(
            handle as int,
        ).pending);
        self.pending = pending;
        Some(event)
    }
}

/// Publishing appends the event to what every subscriber is still owed, and
/// a subscriber that is owed more than the capacity loses the oldest.
pub proof fn lemma_publish_appends(bus: BusView, e: EventView, h: int)
    requires
        bus.wf(),
        0 <= h < bus.subscribers(),
    ensures
        bus.published(e).wf(),
        bus.published(e).subscribers() == bus.subscribers(),
        bus.published(e).queue(h) == keep_last(bus.queue(h).push(e), bus.capacity),
{
}

/// A new subscription is owed nothing, and takes nothing from the others.
pub proof fn lemma_subscribe_starts_empty(bus: BusView)
    requires
        bus.wf(),
    ensures
        bus.subscribed().wf(),
        bus.subscribed().subscribers() == bus.subscribers() + 1,
        bus.subscribed().queue(bus.subscribers() as int) == Seq::<EventView>::empty(),
        forall|h: int|
            0 <= h < bus.subscribers() ==> #[trigger] bus.subscribed().queue(h) == bus.queue(h),
{
}

/// Receiving hands a subscriber the first event it is owed and takes that
/// event from its queue alone: every other subscriber is still owed all it
/// was owed before.
pub proof fn lemma_receive_takes_first(bus: BusView, h: int)
    requires
        bus.wf(),
        0 <= h < bus.subscribers(),
    ensures
        bus.received(h).wf(),
        bus.received(h).subscribers() == bus.subscribers(),
        bus.queue(h).len() == 0 ==> bus.next(h) is None && bus.received(h) == bus,
        bus.queue(h).len() > 0 ==> bus.next(h) == Some(bus.queue(h).first()) && bus.received(
            h,
        ).queue(h) == bus.queue(h).drop_first(),
        forall|other: int|
            0 <= other < bus.subscribers() && other != h ==> #[trigger] bus.received(h).queue(
                other,
            ) == bus.queue(other),
{
}

/// A subscriber that was owed nothing when `e` was published receives
/// exactly `e` next, and is then owed nothing again.
pub proof fn lemma_publish_then_receive(bus: BusView, e: EventView, h: int)
    requires
        bus.wf(),
        0 <= h < bus.subscribers(),
        bus.queue(h).len() == 0,
    ensures
        bus.published(e).next(h) == Some(e),
        bus.published(e).received(h).queue(h) == Seq::<EventView>::empty(),
{
}

/// Two subscribers that were owed nothing when `e` was published both
/// receive `e`, whichever of them receives first.
pub proof fn lemma_both_receive(bus: BusView, e: EventView, first: int, second: int)
    requires
        bus.wf(),
        0 <= first < bus.subscribers(),
        0 <= second < bus.subscribers(),
        first != second,
        bus.queue(first).len() == 0,
        bus.queue(second).len() == 0,
    ensures
        bus.published(e).next(first) == Some(e),
        bus.published(e).received(first).next(second) == Some(e),
{
    lemma_publish_then_receive(bus, e, first);
    lemma_publish_then_receive(bus, e, second);
    lemma_publish_appends(bus, e, first);
    lemma_receive_takes_first(bus.published(e), first);
}

/// The bus after every event of `events` was published, first one first.
pub open spec fn published_all(bus: BusView, events: Seq<EventView>) -> BusView
    decreases events.len(),
{
    if events.len() == 0 {
        bus
    } else {
        published_all(bus, events.drop_last()).published(events.last())
    }
}

/// After any run of publishes a subscriber is owed what it was owed before
/// and then the published events, in the order in which they were
/// published; where that is more than the bus retains, the oldest are gone.
pub proof fn lemma_receive_in_publish_order(bus: BusView, events: Seq<EventView>, h: int)
    requires
        bus.wf(),
        0 <= h < bus.subscribers(),
    ensures
        published_all(bus, events).wf(),
        published_all(bus, events).subscribers() == bus.subscribers(),
        published_all(bus, events).capacity == bus.capacity,
        published_all(bus, events).queue(h) == keep_last(bus.queue(h) + events, bus.capacity),
    decreases events.len(),
{
    if events.len() > 0 {
        lemma_receive_in_publish_order(bus, events.drop_last(), h);
        lemma_publish_appends(published_all(bus, events.drop_last()), events.last(), h);
    }
}

/// What two subscribers are owed is the same run of events in the same
/// order: the queue of the one that is owed less is the tail of the other's.
pub proof fn lemma_same_order(bus: BusView, ahead: int, behind: int)
    requires
        bus.wf(),
        0 <= ahead < bus.subscribers(),
        0 <= behind < bus.subscribers(),
        bus.queue(ahead).len() <= bus.queue(behind).len(),
    ensures
        bus.queue(ahead) == bus.queue(behind).skip(
            bus.queue(behind).len() - bus.queue(ahead).len(),
        ),
{
}

} // verus!
