//! Bounded, non-blocking hand-off of readings from acquisition to delivery.
use vstd::prelude::*;
use embassy_sync::blocking_mutex::raw::CriticalSectionRawMutex;
use embassy_sync::channel::{Channel, TrySendError};
use crate::reading::Reading;

verus! {

/// Number of readings the delivery queue holds at most.
pub const QUEUE_CAPACITY: usize = 2;

/// The channel that carries readings between the two tasks. Its contents are
/// known to the proofs only through [`channel_items`].
#[verifier::external_body]
pub struct ReadingChannel {
    inner: Channel<CriticalSectionRawMutex, Reading, 2>,
}

/// The readings held by a channel, oldest first.
pub uninterp spec fn channel_items(c: ReadingChannel) -> Seq<Reading>;

/// Relies on `embassy_sync::channel::Channel::new`: a new channel is empty.
#[verifier::external_body]
fn channel_new() -> (r: ReadingChannel)
    ensures
        channel_items(r).len() == 0,
{
    ReadingChannel { inner: Channel::new() }
}

/// Relies on `embassy_sync::channel::Channel::try_send`: the item is pushed at
/// the back unless the channel already holds its capacity, in which case the
/// item is handed back and the channel is unchanged.
#[verifier::external_body]
fn channel_try_send(c: &mut ReadingChannel, item: Reading) -> (refused: Option<Reading>)
    ensures
        refused is None <==> channel_items(*old(c)).len() < 2,
        refused is None ==> channel_items(*final(c)) == channel_items(*old(c)).push(item),
        refused is Some ==> refused == Some(item) && channel_items(*final(c)) == channel_items(*old(c)),
{
    match c.inner.try_send(item) {
        Ok(()) => None,
        Err(TrySendError::Full(back)) => Some(back),
    }
}

/// Relies on `embassy_sync::channel::Channel::try_receive`: the oldest item is
/// taken from the front, or nothing when the channel is empty.
#[verifier::external_body]
fn channel_try_receive(c: &mut ReadingChannel) -> (r: Option<Reading>)
    ensures
        r is None <==> channel_items(*old(c)).len() == 0,
        r is None ==> channel_items(*final(c)) == channel_items(*old(c)),
        r is Some ==> r == Some(channel_items(*old(c))[0]) && channel_items(*final(c)) == channel_items(*old(c)).drop_first(),
{
    c.inner.try_receive().ok()
}

/// Relies on `embassy_sync::channel::Channel::len`: the number of items held.
#[verifier::external_body]
fn channel_len(c: &ReadingChannel) -> (r: usize)
    ensures
        r == channel_items(*c).len(),
{
    c.inner.len()
}

/// A FIFO of at most [`QUEUE_CAPACITY`] readings. Offering a reading never
/// blocks: when the queue is full the new reading is refused and the pending
/// ones are kept.
pub struct DeliveryQueue {
    channel: ReadingChannel,
}

impl DeliveryQueue {
    /// The pending readings, oldest first.
    pub closed spec fn items(&self) -> Seq<Reading> {
        channel_items(self.channel)
    }

    pub closed spec fn wf(&self) -> bool {
        self.items().len() <= QUEUE_CAPACITY
    }

    pub fn new() -> (q: DeliveryQueue)
        ensures
            q.wf(),
            q.items() == Seq::<Reading>::empty(),
    {
        let q = DeliveryQueue { channel: channel_new() };
        assert(q.items() =~= Seq::<Reading>::empty());
        q
    }

    /// Number of pending readings.
    pub fn len(&self) -> (r: usize)
        ensures
            r == self.items().len(),
    {
        channel_len(&self.channel)
    }

    /// Offers a reading. It is accepted at the back when fewer than
    /// [`QUEUE_CAPACITY`] readings are pending; otherwise it is handed back in
    /// `Err` and the queue is left as it was.
    pub fn try_enqueue(&mut self, item: Reading) -> (r: Result<(), Reading>)
        requires
            old(self).wf(),
        ensures
            final(self).wf(),
            old(self).items().len() < QUEUE_CAPACITY ==> r is Ok && final(self).items() == old(self).items().push(item),
            old(self).items().len() >= QUEUE_CAPACITY ==> r == Err::<(), Reading>(item) && final(self).items() == old(self).items(),
    {
        match channel_try_send(&mut self.channel, item) {
            None => Ok(()),
            Some(back) => Err(back),
        }
    }

    /// Takes the oldest pending reading, or `None` when nothing is pending.
    pub fn try_dequeue(&mut self) -> (r: Option<Reading>)
        requires
            old(self).wf(),
        ensures
            final(self).wf(),
            old(self).items().len() == 0 ==> r is None && final(self).items() == old(self).items(),
            old(self).items().len() > 0 ==> r == Some(old(self).items()[0]) && final(self).items() == old(self).items().drop_first(),
    {
        channel_try_receive(&mut self.channel)
    }
}

/// One operation on the queue: offer a reading, or take the oldest.
pub enum QueueOp {
    Offer(Reading),
    Take,
}

/// The pending readings after one operation, with the reading it accepted
/// and the reading it took, as sequences of at most one element.
pub open spec fn queue_step(items: Seq<Reading>, op: QueueOp) -> (Seq<Reading>, Seq<Reading>, Seq<Reading>) {
    match op {
        QueueOp::Offer(r) => if items.len() < QUEUE_CAPACITY {
            (items.push(r), seq![r], Seq::<Reading>::empty())
        } else {
            (items, Seq::<Reading>::empty(), Seq::<Reading>::empty())
        },
        QueueOp::Take => if items.len() > 0 {
            (items.drop_first(), Seq::<Reading>::empty(), seq![items[0]])
        } else {
            (items, Seq::<Reading>::empty(), Seq::<Reading>::empty())
        },
    }
}

/// The pending readings after a run of operations, with all readings
/// accepted and all readings taken, each in the order it happened.
pub open spec fn queue_run(items: Seq<Reading>, ops: Seq<QueueOp>) -> (Seq<Reading>, Seq<Reading>, Seq<Reading>)
    decreases ops.len(),
{
    if ops.len() == 0 {
        (items, Seq::<Reading>::empty(), Seq::<Reading>::empty())
    } else {
        let (i1, a1, t1) = queue_step(items, ops[0]);
        let (i2, a2, t2) = queue_run(i1, ops.drop_first());
        (i2, a1 + a2, t1 + t2)
    }
}

/// The queue is first in, first out and loses nothing it accepted: over any
/// run of operations, the readings pending before followed by those accepted
/// are exactly the readings taken followed by those still pending, and no
/// more than [`QUEUE_CAPACITY`] are ever pending.
pub proof fn lemma_fifo(items: Seq<Reading>, ops: Seq<QueueOp>)
    requires
        items.len() <= QUEUE_CAPACITY,
    ensures
        items + queue_run(items, ops).1 == queue_run(items, ops).2 + queue_run(items, ops).0,
        queue_run(items, ops).0.len() <= QUEUE_CAPACITY,
    decreases ops.len(),
{
    if ops.len() > 0 {
        let (i1, a1, t1) = queue_step(items, ops[0]);
        let (i2, a2, t2) = queue_run(i1, ops.drop_first());
        lemma_fifo(i1, ops.drop_first());
        assert(items + a1 =~= t1 + i1);
        assert(items + (a1 + a2) =~= (items + a1) + a2);
        assert((t1 + i1) + a2 =~= t1 + (i1 + a2));
        assert(t1 + (t2 + i2) =~= (t1 + t2) + i2);
    }
}

} // verus!
