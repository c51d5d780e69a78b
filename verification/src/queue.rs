//! The bounded, ordered, first-in-first-out queue that sits between the
//! dispatcher and one plugin's worker.
//!
//! Its capacity is fixed when it is made. A full queue admits nothing more:
//! that is the backpressure a slow plugin exerts on the broadcaster, and it
//! is never an error and never drops a message. `try_send` reports exactly
//! when a sender would have to wait: the first send refused is the one that
//! arrives when the queue already holds `capacity` messages, and room opens
//! again as soon as the consumer has received one.

use vstd::prelude::*;

verus! {

/// A bounded FIFO channel of pending messages for one plugin.
pub struct BoundedQueue<T> {
    items: Vec<T>,
    capacity: usize,
}

impl<T> BoundedQueue<T> {
    /// What the queue holds, oldest first.
    pub closed spec fn contents(self) -> Seq<T> {
        self.items@
    }

    /// The bound fixed when the queue was made.
    pub closed spec fn capacity_spec(self) -> usize {
        self.capacity
    }

    /// The queue never holds more than its capacity.
    pub open spec fn wf(self) -> bool {
        self.contents().len() <= self.capacity_spec()
    }

    /// An empty queue bounded at `capacity` messages.
    pub fn new(capacity: usize) -> (q: BoundedQueue<T>)
        ensures
            q.wf(),
            q.contents() == Seq::<T>::empty(),
            q.capacity_spec() == capacity,
    {
        BoundedQueue { items: Vec::new(), capacity }
    }

    /// The bound fixed when the queue was made.
    pub fn capacity(&self) -> (capacity: usize)
        ensures
            capacity == self.capacity_spec(),
    {
        self.capacity
    }

    /// How many messages are pending.
    pub fn len(&self) -> (n: usize)
        ensures
            n == self.contents().len(),
    {
        self.items.len()
    }

    /// Offers one message to the queue. It is accepted, and appended behind
    /// everything already pending, exactly when the queue is not yet full;
    /// a full queue hands the message back untouched — the sender must wait
    /// for the consumer, not lose the message.
    pub fn try_send(&mut self, value: T) -> (refused: Option<T>)
        requires
            old(self).wf(),
        ensures
            final(self).wf(),
            final(self).capacity_spec() == old(self).capacity_spec(),
            refused is None <==> old(self).contents().len() < old(self).capacity_spec(),
            refused is None ==> final(self).contents() == old(self).contents().push(value),
            refused matches Some(v) ==> v == value
                && final(self).contents() == old(self).contents(),
    {
        if self.items.len() < self.capacity {
            self.items.push(value);
            None
        } else {
            Some(value)
        }
    }

    /// Takes the oldest pending message out, or reports an empty queue.
    pub fn recv(&mut self) -> (received: Option<T>)
        ensures
            final(self).capacity_spec() == old(self).capacity_spec(),
            old(self).contents().len() == 0 ==> received is None
                && final(self).contents() == old(self).contents(),
            old(self).contents().len() > 0 ==> {
                &&& received == Some(old(self).contents()[0])
                &&& final(self).contents() == old(self).contents().drop_first()
            },
    {
        if self.items.len() == 0 {
            None
        } else {
            let first = self.items.remove(0);
            proof {
                assert(self.items@ =~= old(self).items@.drop_first());
            }
            Some(first)
        }
    }
}

} // verus!
