//! Outbound channel adapter: bounded buffering between the loop thread
//! and the asynchronous consumer.
//!
//! The overflow behaviour is an explicit, caller-chosen policy — it
//! changes what the consumer observes under load, so it must never be
//! implicit.  Under [`DeliveryPolicy::Block`] a full buffer answers
//! [`SendOutcome::WouldBlock`] and the loop thread waits and retries;
//! under [`DeliveryPolicy::DropNewest`] the offered event is discarded.
//! A closed buffer means no consumer remains: the whole bridge tears
//! down, there is no lingering idle state.

use vstd::prelude::*;

verus! {

/// What the adapter does when the consumer cannot keep up.
#[derive(Clone, Copy, Debug, PartialEq, Eq, Structural)]
pub enum DeliveryPolicy {
    /// The producer waits momentarily and offers the event again.
    Block,
    /// The offered event is discarded.
    DropNewest,
}

/// The adapter's answer to one offered event.
#[derive(Clone, Copy, Debug, PartialEq, Eq, Structural)]
pub enum SendOutcome {
    /// The event was buffered.
    Sent,
    /// The buffer is full and the policy is to block: offer it again.
    WouldBlock,
    /// The buffer is full and the policy is to drop: the event is gone.
    DroppedNewest,
    /// No consumer remains; the bridge must tear down.
    Closed,
}

/// A bounded buffer of pending events, oldest first.
pub struct OutboundBuffer<E> {
    queue: Vec<E>,
    capacity: usize,
    policy: DeliveryPolicy,
    closed: bool,
}

impl<E> View for OutboundBuffer<E> {
    type V = Seq<E>;

    closed spec fn view(&self) -> Seq<E> {
        self.queue@
    }
}

impl<E> OutboundBuffer<E> {
    /// The fixed capacity the adapter was created with.
    pub closed spec fn cap(&self) -> nat {
        self.capacity as nat
    }

    /// The overflow policy the adapter was created with.
    pub closed spec fn overflow_policy(&self) -> DeliveryPolicy {
        self.policy
    }

    /// Has the consumer side gone away?
    pub closed spec fn is_closed(&self) -> bool {
        self.closed
    }

    pub closed spec fn well_formed(&self) -> bool {
        self.queue@.len() <= self.capacity
    }

    pub fn new(capacity: usize, policy: DeliveryPolicy) -> (b: Self)
        ensures
            b.well_formed(),
            b@ == Seq::<E>::empty(),
            b.cap() == capacity,
            b.overflow_policy() == policy,
            !b.is_closed(),
    {
        OutboundBuffer { queue: Vec::new(), capacity, policy, closed: false }
    }

    /// Offer one event to the consumer.  Deterministic for every state:
    /// closed answers `Closed` and the bridge tears down; a free slot
    /// buffers the event; a full buffer follows the declared policy.
    pub fn send(&mut self, event: E) -> (r: SendOutcome)
        requires
            old(self).well_formed(),
        ensures
            final(self).well_formed(),
            final(self).cap() == old(self).cap(),
            final(self).overflow_policy() == old(self).overflow_policy(),
            final(self).is_closed() == old(self).is_closed(),
            old(self).is_closed() ==> r is Closed && final(self)@ == old(self)@,
            !old(self).is_closed() && old(self)@.len() < old(self).cap() ==> r is Sent
                && final(self)@ == old(self)@.push(event),
            !old(self).is_closed() && old(self)@.len() == old(self).cap() && old(
                self,
            ).overflow_policy() is Block ==> r is WouldBlock && final(self)@ == old(self)@,
            !old(self).is_closed() && old(self)@.len() == old(self).cap() && old(
                self,
            ).overflow_policy() is DropNewest ==> r is DroppedNewest && final(self)@ == old(
                self,
            )@,
    {
        if self.closed {
            return SendOutcome::Closed;
        }
        if self.queue.len() < self.capacity {
            self.queue.push(event);
            return SendOutcome::Sent;
        }
        match self.policy {
            DeliveryPolicy::Block => SendOutcome::WouldBlock,
            DeliveryPolicy::DropNewest => SendOutcome::DroppedNewest,
        }
    }

    /// The consumer takes the oldest pending event.
    pub fn take_next(&mut self) -> (r: Option<E>)
        requires
            old(self).well_formed(),
        ensures
            final(self).well_formed(),
            final(self).cap() == old(self).cap(),
            final(self).overflow_policy() == old(self).overflow_policy(),
            final(self).is_closed() == old(self).is_closed(),
            match r {
                Some(e) => old(self)@.len() > 0 && e == old(self)@[0] && final(self)@ == old(
                    self,
                )@.drop_first(),
                None => old(self)@.len() == 0 && final(self)@ == old(self)@,
            },
    {
        if self.queue.len() == 0 {
            None
        } else {
            let e = self.queue.remove(0);
            proof {
                assert(self@ =~= old(self)@.drop_first());
            }
            Some(e)
        }
    }

    /// The consumer is gone: every later offer answers `Closed`.
    pub fn close(&mut self)
        requires
            old(self).well_formed(),
        ensures
            final(self).well_formed(),
            final(self)@ == old(self)@,
            final(self).cap() == old(self).cap(),
            final(self).overflow_policy() == old(self).overflow_policy(),
            final(self).is_closed(),
    {
        self.closed = true;
    }

    /// How many events are pending.
    pub fn pending(&self) -> (n: usize)
        ensures
            n == self@.len(),
    {
        self.queue.len()
    }
}

} // verus!
