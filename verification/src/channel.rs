//! A multi-producer, single-consumer FIFO channel, bounded or unbounded.
//!
//! [`Channel`] is the shared buffer behind a channel's handles: the pending
//! items in acceptance order, the capacity discipline, the number of live
//! sender handles and whether the single receiver is still there. Handles
//! are modelled by counts, and every operation of a handle is a transition
//! on this shared state — the buffer is the single serialization point that
//! gives all producers one total acceptance order.
//!
//! Blocking is expressed by outcomes: [`SendAttempt::Full`] and
//! [`RecvAttempt::Empty`] tell the caller to re-run the attempt (parking
//! between attempts), while `Closed` outcomes are permanent. The ghost
//! histories of accepted and delivered values let the contracts state the
//! FIFO guarantee: what has been delivered is always a prefix of what was
//! accepted.

use vstd::prelude::*;
use crate::shared::{RefOp, ops_valid, strong_after, lemma_valid_prefix_live};

verus! {

/// How one send attempt fared.
pub enum SendAttempt<T> {
    /// The value entered the buffer; it will be delivered in this
    /// acceptance order.
    Accepted,
    /// The buffer is at capacity (or, on a rendezvous channel, no receiver
    /// is waiting): the value comes back, try again later.
    Full(T),
    /// The receiver is gone, permanently: the value comes back, no send
    /// can ever be accepted again.
    Closed(T),
}

/// How one receive attempt fared.
pub enum RecvAttempt<T> {
    /// The oldest accepted value, removed from the buffer.
    Received(T),
    /// Nothing buffered yet, but senders remain: try again later.
    Empty,
    /// Nothing buffered and the last sender is gone, permanently: no value
    /// will ever arrive again.
    Closed,
}

/// The shared state of one MPSC channel: pending items, capacity
/// discipline, live handles, and the ghost histories of accepted and
/// delivered values.
pub struct Channel<T> {
    queue: Vec<T>,
    capacity: Option<usize>,
    senders: u64,
    receiver_alive: bool,
    receiver_waiting: bool,
    accepted: Ghost<Seq<T>>,
    delivered: Ghost<Seq<T>>,
}

impl<T> Channel<T> {
    /// The pending items, oldest first.
    pub closed spec fn buffer(self) -> Seq<T> {
        self.queue@
    }

    /// The capacity discipline: `None` for unbounded, `Some(c)` for a
    /// buffer of at most `c` items, `Some(0)` for a rendezvous channel.
    pub closed spec fn capacity(self) -> Option<usize> {
        self.capacity
    }

    /// Number of live sender handles.
    pub closed spec fn senders(self) -> int {
        self.senders as int
    }

    /// Whether the single receiver handle is still live.
    pub closed spec fn receiver_alive(self) -> bool {
        self.receiver_alive
    }

    /// Whether the receiver is parked waiting for a value, which is what a
    /// rendezvous send hands off to.
    pub closed spec fn receiver_waiting(self) -> bool {
        self.receiver_waiting
    }

    /// Every value ever accepted into the buffer, in acceptance order.
    pub closed spec fn accepted(self) -> Seq<T> {
        self.accepted@
    }

    /// Every value handed to the receiver, in delivery order.
    pub closed spec fn delivered(self) -> Seq<T> {
        self.delivered@
    }

    /// Whether the channel is closed for receiving: the last sender handle
    /// has been dropped. Buffered items are still delivered.
    pub open spec fn no_senders(self) -> bool {
        self.senders() == 0
    }

    /// Whether a send could enter the buffer now: an unbounded buffer
    /// always has room, a bounded one while under capacity, a rendezvous
    /// channel exactly while the receiver is parked and the handoff slot is
    /// free.
    pub open spec fn has_room(self) -> bool {
        match self.capacity() {
            Option::None => true,
            Option::Some(c) => if c == 0 {
                self.receiver_waiting() && self.buffer().len() == 0
            } else {
                self.buffer().len() < c
            },
        }
    }

    /// Well-formedness: the delivered and pending values are exactly the
    /// accepted ones in order; a bounded buffer never exceeds its capacity;
    /// the rendezvous handoff slot holds at most one value and only for a
    /// waiting receiver; and only a live receiver waits.
    pub open spec fn wf(self) -> bool {
        &&& self.accepted() == self.delivered() + self.buffer()
        &&& match self.capacity() {
            Option::None => true,
            Option::Some(c) => if c == 0 {
                self.buffer().len() <= 1 && (self.receiver_alive() && self.buffer().len() == 1
                    ==> self.receiver_waiting())
            } else {
                self.buffer().len() <= c
            },
        }
        &&& self.receiver_waiting() ==> self.receiver_alive()
        &&& self.senders() >= 0
    }

    /// Reports the number of live sender handles.
    pub fn sender_count(&self) -> (r: u64)
        ensures
            r == self.senders(),
    {
        self.senders
    }

    /// Reports whether the receiver handle is still live.
    pub fn is_receiver_alive(&self) -> (r: bool)
        ensures
            r == self.receiver_alive(),
    {
        self.receiver_alive
    }

    /// Creates an unbounded channel: one sender handle, a live receiver,
    /// nothing accepted yet.
    pub fn unbounded() -> (c: Self)
        ensures
            c.wf(),
            c.capacity() is None,
            c.senders() == 1,
            c.receiver_alive(),
            !c.receiver_waiting(),
            c.buffer() == Seq::<T>::empty(),
            c.accepted() == Seq::<T>::empty(),
            c.delivered() == Seq::<T>::empty(),
    {
        Channel {
            queue: Vec::new(),
            capacity: None,
            senders: 1,
            receiver_alive: true,
            receiver_waiting: false,
            accepted: Ghost(Seq::empty()),
            delivered: Ghost(Seq::empty()),
        }
    }

    /// Creates a bounded channel of the given capacity: with capacity zero
    /// it is a rendezvous channel, where a send completes only into a
    /// waiting receive.
    pub fn bounded(capacity: usize) -> (c: Self)
        ensures
            c.wf(),
            c.capacity() == Some(capacity),
            c.senders() == 1,
            c.receiver_alive(),
            !c.receiver_waiting(),
            c.buffer() == Seq::<T>::empty(),
            c.accepted() == Seq::<T>::empty(),
            c.delivered() == Seq::<T>::empty(),
    {
        Channel {
            queue: Vec::new(),
            capacity: Some(capacity),
            senders: 1,
            receiver_alive: true,
            receiver_waiting: false,
            accepted: Ghost(Seq::empty()),
            delivered: Ghost(Seq::empty()),
        }
    }

    /// Clones a sender handle: one more producer of the same channel.
    pub fn clone_sender(&mut self)
        requires
            old(self).wf(),
            old(self).senders() >= 1,
            old(self).senders() < u64::MAX,
        ensures
            final(self).wf(),
            final(self).senders() == old(self).senders() + 1,
            final(self).capacity() == old(self).capacity(),
            final(self).receiver_alive() == old(self).receiver_alive(),
            final(self).receiver_waiting() == old(self).receiver_waiting(),
            final(self).buffer() == old(self).buffer(),
            final(self).accepted() == old(self).accepted(),
            final(self).delivered() == old(self).delivered(),
    {
        self.senders = self.senders + 1;
    }

    /// Drops a sender handle. Dropping the last one closes the channel for
    /// good: `no_senders` holds from here on, since no operation creates a
    /// sender out of nothing.
    pub fn drop_sender(&mut self)
        requires
            old(self).wf(),
            old(self).senders() >= 1,
        ensures
            final(self).wf(),
            final(self).senders() == old(self).senders() - 1,
            final(self).capacity() == old(self).capacity(),
            final(self).receiver_alive() == old(self).receiver_alive(),
            final(self).receiver_waiting() == old(self).receiver_waiting(),
            final(self).buffer() == old(self).buffer(),
            final(self).accepted() == old(self).accepted(),
            final(self).delivered() == old(self).delivered(),
    {
        self.senders = self.senders - 1;
    }

    /// Drops the receiver handle: from here on every send attempt is
    /// rejected as closed.
    pub fn drop_receiver(&mut self)
        requires
            old(self).wf(),
        ensures
            final(self).wf(),
            !final(self).receiver_alive(),
            !final(self).receiver_waiting(),
            final(self).senders() == old(self).senders(),
            final(self).capacity() == old(self).capacity(),
            final(self).buffer() == old(self).buffer(),
            final(self).accepted() == old(self).accepted(),
            final(self).delivered() == old(self).delivered(),
    {
        self.receiver_alive = false;
        self.receiver_waiting = false;
    }

    /// One producer's attempt to send `value`. With the receiver gone the
    /// attempt is rejected as closed; with no room it is rejected as full,
    /// to be retried; otherwise the value is accepted at the back of the
    /// buffer, extending the acceptance order. A rejected attempt hands the
    /// value back and leaves the channel unchanged.
    pub fn try_send(&mut self, value: T) -> (r: SendAttempt<T>)
        requires
            old(self).wf(),
            old(self).senders() >= 1,
        ensures
            final(self).wf(),
            final(self).senders() == old(self).senders(),
            final(self).capacity() == old(self).capacity(),
            final(self).receiver_alive() == old(self).receiver_alive(),
            final(self).receiver_waiting() == old(self).receiver_waiting(),
            final(self).delivered() == old(self).delivered(),
            !old(self).receiver_alive() ==> (r matches SendAttempt::Closed(v) && v == value)
                && *final(self) == *old(self),
            old(self).receiver_alive() && !old(self).has_room() ==> (r
                matches SendAttempt::Full(v) && v == value) && *final(self) == *old(self),
            old(self).receiver_alive() && old(self).has_room() ==> r is Accepted && final(self).buffer() == old(self).buffer().push(value) && final(self).accepted() == old(self).accepted().push(value),
    {
        if !self.receiver_alive {
            return SendAttempt::Closed(value);
        }
        let room = match self.capacity {
            None => true,
            Some(c) => if c == 0 {
                self.receiver_waiting && self.queue.len() == 0
            } else {
                self.queue.len() < c
            },
        };
        if room {
            proof {
                self.accepted@ = self.accepted@.push(value);
            }
            self.queue.push(value);
            SendAttempt::Accepted
        } else {
            SendAttempt::Full(value)
        }
    }

    /// The single consumer's attempt to receive. The oldest buffered value
    /// is delivered, extending the delivery order; an empty buffer with
    /// senders remaining asks the caller to retry and records that the
    /// receiver is waiting — which is what a rendezvous send completes
    /// into; an empty buffer with no sender left is closed, permanently, so
    /// a receiver never waits on a channel that cannot produce a value.
    pub fn try_recv(&mut self) -> (r: RecvAttempt<T>)
        requires
            old(self).wf(),
            old(self).receiver_alive(),
        ensures
            final(self).wf(),
            final(self).senders() == old(self).senders(),
            final(self).capacity() == old(self).capacity(),
            final(self).receiver_alive(),
            final(self).accepted() == old(self).accepted(),
            old(self).buffer().len() > 0 ==> (r matches RecvAttempt::Received(v) && v == old(self).buffer().first()) && final(self).buffer() == old(self).buffer().drop_first()
                && final(self).delivered() == old(self).delivered().push(
                old(self).buffer().first(),
            ) && !final(self).receiver_waiting(),
            old(self).buffer().len() == 0 && old(self).no_senders() ==> r is Closed && final(self).buffer() == old(self).buffer() && final(self).delivered() == old(self).delivered()
                && !final(self).receiver_waiting(),
            old(self).buffer().len() == 0 && !old(self).no_senders() ==> r is Empty && final(self).buffer() == old(self).buffer() && final(self).delivered() == old(self).delivered()
                && final(self).receiver_waiting(),
    {
        if self.queue.len() > 0 {
            let value = self.queue.remove(0);
            proof {
                assert(old(self).queue@.remove(0) =~= old(self).queue@.drop_first());
                self.delivered@ = self.delivered@.push(value);
                assert(self.accepted@ =~= self.delivered@ + self.queue@);
            }
            self.receiver_waiting = false;
            RecvAttempt::Received(value)
        } else if self.senders == 0 {
            self.receiver_waiting = false;
            RecvAttempt::Closed
        } else {
            self.receiver_waiting = true;
            RecvAttempt::Empty
        }
    }
}

/// FIFO delivery: at every instant, what the receiver has been handed is
/// exactly an initial segment of what the channel accepted, value for value
/// in acceptance order — the buffer holds the rest. Values are thus
/// delivered in the order their sends were accepted, with no loss,
/// duplication or reordering.
pub proof fn lemma_fifo_delivery<T>(c: Channel<T>)
    requires
        c.wf(),
    ensures
        c.delivered().is_prefix_of(c.accepted()),
        c.accepted().len() == c.delivered().len() + c.buffer().len(),
        forall|i: int| 0 <= i < c.delivered().len() ==> c.delivered()[i] == c.accepted()[i],
        forall|i: int|
            0 <= i < c.buffer().len() ==> c.buffer()[i] == c.accepted()[c.delivered().len() + i],
{
    assert(c.delivered() =~= c.accepted().subrange(0, c.delivered().len() as int));
}

/// Closure is permanent. Sender handles are shared-ownership handles of the
/// channel state — `clone_sender` and `drop_sender` act through a live
/// handle exactly as the strong-handle operations of [`crate::shared`] do —
/// so over any valid history of cloning and dropping the channel's senders,
/// the sender count reaches zero only at the history's very end: no
/// operation can follow, `no_senders` holds from then on, and by the
/// contract of [`Channel::try_recv`] every receive attempt on the drained
/// buffer answers [`RecvAttempt::Closed`], never a false
/// [`RecvAttempt::Empty`] that would leave the receiver blocked forever.
pub proof fn lemma_closure_is_permanent(ops: Seq<RefOp>, i: int)
    requires
        ops_valid(ops),
        0 <= i <= ops.len(),
        strong_after(ops.take(i)) == 0,
    ensures
        i == ops.len(),
{
    if i < ops.len() {
        lemma_valid_prefix_live(ops, i);
    }
}

} // verus!
