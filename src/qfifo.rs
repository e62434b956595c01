//! Bounded first-in first-out queues: the hand-off between links, the
//! router and the application. A full queue refuses what is offered and
//! hands it back, so the producer waits instead of anything being dropped.
use vstd::prelude::*;

verus! {

/// How many entries each queue of the stack holds.
pub const CSP_QUEUE_LENGTH: usize = 16;

/// The queue contents after offering `e`: `None` when the queue is full and
/// refuses it.
pub open spec fn fifo_offer<T>(items: Seq<T>, capacity: nat, e: T) -> Option<Seq<T>> {
    if items.len() < capacity {
        Some(items.push(e))
    } else {
        None
    }
}

/// Offering `es` in order with no consumer: the final contents and how
/// many offers were taken.
pub open spec fn fifo_offer_all<T>(items: Seq<T>, capacity: nat, es: Seq<T>) -> (Seq<T>, nat)
    decreases es.len(),
{
    if es.len() == 0 {
        (items, 0)
    } else {
        let (q, n) = fifo_offer_all(items, capacity, es.drop_last());
        match fifo_offer(q, capacity, es.last()) {
            Some(q2) => (q2, n + 1),
            None => (q, n),
        }
    }
}

/// A queue that holds at most `capacity` entries.
pub struct CspQueue<T> {
    items: Vec<T>,
    capacity: usize,
}

impl<T> View for CspQueue<T> {
    type V = Seq<T>;

    closed spec fn view(&self) -> Seq<T> {
        self.items@
    }
}

impl<T> CspQueue<T> {
    pub closed spec fn spec_capacity(&self) -> nat {
        self.capacity as nat
    }

    /// The queue holds no more than its capacity.
    pub open spec fn wf(&self) -> bool {
        self@.len() <= self.spec_capacity()
    }

    /// An empty queue of the given capacity.
    pub fn new(capacity: usize) -> (r: Self)
        ensures
            r.wf(),
            r@ == Seq::<T>::empty(),
            r.spec_capacity() == capacity,
    {
        CspQueue { items: Vec::new(), capacity }
    }

    pub fn len(&self) -> (r: usize)
        ensures
            r == self@.len(),
    {
        self.items.len()
    }

    pub fn capacity(&self) -> (r: usize)
        ensures
            r == self.spec_capacity(),
    {
        self.capacity
    }

    pub fn is_full(&self) -> (r: bool)
        ensures
            r == (self@.len() >= self.spec_capacity()),
    {
        self.items.len() >= self.capacity
    }

    /// Adds `e` at the back when there is room; otherwise leaves the queue
    /// as it is and hands `e` back.
    pub fn push(&mut self, e: T) -> (r: Result<(), T>)
        requires
            old(self).wf(),
        ensures
            final(self).wf(),
            final(self).spec_capacity() == old(self).spec_capacity(),
            fifo_offer(old(self)@, old(self).spec_capacity(), e) is Some ==> r is Ok && final(self)@
                == fifo_offer(old(self)@, old(self).spec_capacity(), e)->Some_0,
            fifo_offer(old(self)@, old(self).spec_capacity(), e) is None ==> r == Err::<(), T>(e)
                && final(self)@ == old(self)@,
    {
        if self.items.len() < self.capacity {
            self.items.push(e);
            Ok(())
        } else {
            Err(e)
        }
    }

    /// Takes the entry at the front, if any.
    pub fn pop(&mut self) -> (r: Option<T>)
        requires
            old(self).wf(),
        ensures
            final(self).wf(),
            final(self).spec_capacity() == old(self).spec_capacity(),
            old(self)@.len() == 0 ==> r is None && final(self)@ == old(self)@,
            old(self)@.len() > 0 ==> r == Some(old(self)@[0]) && final(self)@ == old(self)@.drop_first(),
    {
        if self.items.len() == 0 {
            None
        } else {
            let e = self.items.remove(0);
            assert(self.items@ =~= old(self)@.drop_first());
            Some(e)
        }
    }
}

/// Backpressure: offering entries one after another to an empty queue of
/// capacity `n`, with nothing taken out, keeps the first `n` in order and
/// refuses every later one, so the queue never grows past `n` and nothing
/// it took is lost; in particular the offer after the `n`-th is refused.
pub proof fn lemma_fifo_backpressure<T>(n: nat, es: Seq<T>)
    ensures
        es.len() <= n ==> fifo_offer_all(Seq::<T>::empty(), n, es) == (es, es.len()),
        es.len() > n ==> fifo_offer_all(Seq::<T>::empty(), n, es) == (es.take(n as int), n),
        es.len() > n ==> fifo_offer(es.take(n as int), n, es[n as int]) is None,
    decreases es.len(),
{
    if es.len() > 0 {
        let es0 = es.drop_last();
        lemma_fifo_backpressure(n, es0);
        if es.len() <= n {
            assert(es0.push(es.last()) =~= es);
        } else if es0.len() == n {
            assert(es0 =~= es.take(n as int));
        } else {
            assert(es0.take(n as int) =~= es.take(n as int));
        }
    }
}

} // verus!
