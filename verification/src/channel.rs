//! The addressable event channel and the native layer's channel registry.
//!
//! A channel is the persistent sink handed to the native layer by one watch
//! call: the native side pushes events into it, the application drains it.
//! Delivery within one channel is first-in, first-out; no relative order
//! holds across two independently registered channels.

use vstd::prelude::*;

use crate::models::NotificationEvent;

verus! {

/// One addressable sink: an opaque numeric identifier the native layer can
/// push messages to, plus the pushed events not yet drained, oldest first.
#[derive(Debug)]
pub struct EventChannel {
    pub id: u64,
    pub queue: Vec<NotificationEvent>,
}

impl EventChannel {
    /// A fresh, empty channel under the given identifier.
    pub fn new(id: u64) -> (r: EventChannel)
        ensures
            r.id == id,
            r.queue@ == Seq::<NotificationEvent>::empty(),
    {
        EventChannel { id, queue: Vec::new() }
    }

    /// The native layer pushes an event: it joins the back of the queue.
    pub fn push(&mut self, event: NotificationEvent)
        ensures
            final(self).id == old(self).id,
            final(self).queue@ == old(self).queue@.push(event),
    {
        self.queue.push(event);
    }

    /// The application drains one event: the oldest pushed event leaves
    /// first, so repeated calls deliver events in push order.
    pub fn take_next(&mut self) -> (r: Option<NotificationEvent>)
        ensures
            final(self).id == old(self).id,
            old(self).queue@.len() == 0 ==> r is None && final(self).queue@ == old(self).queue@,
            old(self).queue@.len() > 0 ==> r == Some(old(self).queue@[0]) && final(self).queue@
                == old(self).queue@.drop_first(),
    {
        if self.queue.len() == 0 {
            None
        } else {
            Some(self.queue.remove(0))
        }
    }

    /// How many events wait in the channel.
    pub fn pending(&self) -> (n: usize)
        ensures
            n == self.queue@.len(),
    {
        self.queue.len()
    }
}

/// The order in which repeated `take_next` calls deliver a queue: the head
/// first, then the delivery order of the rest.
pub open spec fn spec_delivery(q: Seq<NotificationEvent>) -> Seq<NotificationEvent>
    decreases q.len(),
{
    if q.len() == 0 {
        Seq::empty()
    } else {
        seq![q[0]] + spec_delivery(q.drop_first())
    }
}

/// FIFO per channel: draining a channel delivers exactly its queue, in
/// queue order, so events pushed earlier are delivered earlier.
pub proof fn lemma_channel_fifo(q: Seq<NotificationEvent>)
    ensures
        spec_delivery(q) == q,
    decreases q.len(),
{
    if q.len() == 0 {
        assert(spec_delivery(q) =~= q);
    } else {
        lemma_channel_fifo(q.drop_first());
        assert(spec_delivery(q) =~= q);
    }
}

/// Event order is kept: if the native layer pushes `e1` and then `e2` to
/// the same channel, the delivery sequence places `e1` strictly before
/// `e2`, whatever was in the queue before.
pub proof fn lemma_push_order_delivered(
    q: Seq<NotificationEvent>,
    e1: NotificationEvent,
    e2: NotificationEvent,
)
    ensures
        spec_delivery(q.push(e1).push(e2)).len() == q.len() + 2,
        spec_delivery(q.push(e1).push(e2))[q.len() as int] == e1,
        spec_delivery(q.push(e1).push(e2))[q.len() as int + 1] == e2,
{
    lemma_channel_fifo(q.push(e1).push(e2));
}

/// Content equality of events: the same event type and the same payload
/// entries in the same order.
pub open spec fn same_event(a: NotificationEvent, b: NotificationEvent) -> bool {
    a.type_ == b.type_ && a.payload@ == b.payload@
}

/// Copies a payload entry for entry.
fn clone_pairs(v: &Vec<(String, String)>) -> (r: Vec<(String, String)>)
    ensures
        r@ == v@,
{
    let mut r: Vec<(String, String)> = Vec::new();
    let n = v.len();
    let mut i: usize = 0;
    while i < n
        invariant
            i <= n,
            n == v.len(),
            r@ == v@.subrange(0, i as int),
        decreases n - i,
    {
        r.push((v[i].0.clone(), v[i].1.clone()));
        assert(r@ =~= v@.subrange(0, i as int + 1));
        i = i + 1;
    }
    assert(r@ =~= v@);
    r
}

/// Copies an event's content into an independent value.
pub fn clone_event(e: &NotificationEvent) -> (r: NotificationEvent)
    ensures
        same_event(r, *e),
{
    NotificationEvent { type_: e.type_, payload: clone_pairs(&e.payload) }
}

/// The native layer's side of the watch operation: every channel that a
/// watch call registered, in registration order.  Registering twice keeps
/// both entries — the bridge never deduplicates or replaces a channel.
#[derive(Debug)]
pub struct ChannelRegistry {
    pub channels: Vec<EventChannel>,
}

impl ChannelRegistry {
    /// An empty registry: no channel is registered at startup.
    pub fn new() -> (r: ChannelRegistry)
        ensures
            r.channels@ == Seq::<EventChannel>::empty(),
    {
        ChannelRegistry { channels: Vec::new() }
    }

    /// Registers one more channel; every earlier registration stays live.
    pub fn register(&mut self, channel: EventChannel)
        ensures
            final(self).channels@ == old(self).channels@.push(channel),
    {
        self.channels.push(channel);
    }

    /// How many channels are registered.
    pub fn count(&self) -> (n: usize)
        ensures
            n == self.channels@.len(),
    {
        self.channels.len()
    }

    /// Pushes an event to every channel registered under `id`, in
    /// registration order; channels under other identifiers are untouched.
    pub fn deliver(&mut self, id: u64, event: &NotificationEvent)
        ensures
            final(self).channels@.len() == old(self).channels@.len(),
            forall|i: int|
                0 <= i < old(self).channels@.len() ==> final(self).channels@[i].id == old(self).channels@[i].id,
            forall|i: int|
                0 <= i < old(self).channels@.len() && old(self).channels@[i].id == id ==> {
                    &&& final(self).channels@[i].queue@.len() == old(self).channels@[i].queue@.len() + 1
                    &&& final(self).channels@[i].queue@.subrange(
                        0,
                        old(self).channels@[i].queue@.len() as int,
                    ) == old(self).channels@[i].queue@
                    &&& same_event(final(self).channels@[i].queue@.last(), *event)
                },
            forall|i: int|
                0 <= i < old(self).channels@.len() && old(self).channels@[i].id != id
                    ==> final(self).channels@[i].queue@ == old(self).channels@[i].queue@,
    {
        let n = self.channels.len();
        let mut out: Vec<EventChannel> = Vec::new();
        let mut i: usize = 0;
        while i < n
            invariant
                i <= n,
                n == old(self).channels@.len(),
                self.channels@ =~= old(self).channels@.subrange(i as int, n as int),
                out@.len() == i,
                forall|j: int|
                    0 <= j < i ==> out@[j].id == old(self).channels@[j].id,
                forall|j: int|
                    0 <= j < i && old(self).channels@[j].id == id ==> {
                        &&& out@[j].queue@.len() == old(self).channels@[j].queue@.len() + 1
                        &&& out@[j].queue@.subrange(
                            0,
                            old(self).channels@[j].queue@.len() as int,
                        ) == old(self).channels@[j].queue@
                        &&& same_event(out@[j].queue@.last(), *event)
                    },
                forall|j: int|
                    0 <= j < i && old(self).channels@[j].id != id ==> out@[j].queue@ == old(
                        self,
                    ).channels@[j].queue@,
            decreases n - i,
        {
            let mut c = self.channels.remove(0);
            assert(c == old(self).channels@[i as int]);
            let ghost q0 = c.queue@;
            if c.id == id {
                c.push(clone_event(event));
                assert(c.queue@.subrange(0, q0.len() as int) =~= q0);
            }
            out.push(c);
            assert(self.channels@ =~= old(self).channels@.subrange(i as int + 1, n as int));
            i = i + 1;
        }
        self.channels = out;
    }
}

} // verus!
