//! A double-ended event queue, as the simulator stands it in for the RTOS queue.
use vstd::prelude::*;

verus! {

/// The error type of the RTOS queue operations (never produced here).
#[derive(Clone, Copy, Debug, PartialEq, Eq, Structural)]
pub struct EspError {}

/// RTOS ticks.
pub type TickType = u32;

/// A queue whose front is the end of its buffer: `send_front` and `recv_front` work there,
/// `send_back` inserts at the other end.
pub struct Queue<T> {
    c: Vec<T>,
}

impl<T: Copy> Queue<T> {
    /// The buffer, back first and front last.
    pub closed spec fn items(&self) -> Seq<T> {
        self.c@
    }

    /// An empty queue; the capacity is not enforced.
    pub fn new(_capacity: usize) -> (q: Queue<T>)
        ensures
            q.items() == Seq::<T>::empty(),
    {
        Queue { c: Vec::new() }
    }

    /// Puts `item` at the back of the queue.
    pub fn send_back(&mut self, item: T, _timeout: TickType) -> (r: Result<bool, EspError>)
        ensures
            final(self).items() == seq![item] + old(self).items(),
            r == Ok::<bool, EspError>(true),
    {
        self.c.insert(0, item);
        assert(self.c@ =~= seq![item] + old(self).items());
        Ok(true)
    }

    /// Puts `item` at the front of the queue.
    pub fn send_front(&mut self, item: T, _timeout: TickType) -> (r: Result<bool, EspError>)
        ensures
            final(self).items() == old(self).items().push(item),
            r == Ok::<bool, EspError>(true),
    {
        self.c.push(item);
        Ok(true)
    }

    /// Takes the item at the front of the queue, if any.
    pub fn recv_front(&mut self, _timeout: TickType) -> (r: Option<(T, bool)>)
        ensures
            old(self).items().len() == 0 ==> r is None && final(self).items() == old(self).items(),
            old(self).items().len() > 0 ==> r == Some((old(self).items().last(), true))
                && final(self).items() == old(self).items().drop_last(),
    {
        match self.c.pop() {
            Some(x) => Some((x, true)),
            None => None,
        }
    }

    /// The item at the front of the queue, if any.
    pub fn peek_front(&self, _timeout: TickType) -> (r: Option<T>)
        ensures
            self.items().len() == 0 ==> r is None,
            self.items().len() > 0 ==> r == Some(self.items().last()),
    {
        if self.c.len() == 0 {
            None
        } else {
            Some(self.c[self.c.len() - 1])
        }
    }
}

/// Items sent to the back of an empty queue come out of the front in the order they were sent.
pub proof fn lemma_back_to_front_fifo<T>(a: T, b: T)
    ensures
        ({
            let q = seq![b] + (seq![a] + Seq::<T>::empty());
            &&& q.last() == a
            &&& q.drop_last().last() == b
        }),
{
    let q = seq![b] + (seq![a] + Seq::<T>::empty());
    assert(q =~= seq![b, a]);
}

/// Sending to the front and receiving from it gives back the item and the queue as it was.
pub proof fn lemma_send_recv_front<T>(q: Seq<T>, x: T)
    ensures
        q.push(x).last() == x,
        q.push(x).drop_last() == q,
{
    assert(q.push(x).drop_last() =~= q);
}

} // verus!
