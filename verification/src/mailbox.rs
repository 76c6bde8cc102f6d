//! Mailboxes: unbounded first-in, first-out queues.

use std::collections::VecDeque;
use vstd::prelude::*;

verus! {

/// An unbounded queue that hands its items out in the order in which they
/// were put in. Its view is the sequence of waiting items, oldest first.
pub struct Mailbox<T> {
    queue: VecDeque<T>,
}

impl<T> View for Mailbox<T> {
    type V = Seq<T>;

    closed spec fn view(&self) -> Seq<T> {
        self.queue@
    }
}

impl<T> Mailbox<T> {
    /// An empty mailbox.
    pub fn new() -> (mailbox: Self)
        ensures
            mailbox@ == Seq::<T>::empty(),
    {
        Mailbox { queue: VecDeque::new() }
    }

    /// Puts `item` behind everything that is already waiting.
    pub fn send(&mut self, item: T)
        ensures
            final(self)@ == old(self)@.push(item),
    {
        self.queue.push_back(item);
    }

    /// Takes the oldest waiting item, if there is one.
    pub fn recv(&mut self) -> (item: Option<T>)
        ensures
            old(self)@.len() == 0 ==> item is None && final(self)@ == old(self)@,
            old(self)@.len() > 0 ==> item == Some(old(self)@[0]) && final(self)@ == old(self)@.drop_first(),
    {
        self.queue.pop_front()
    }

    /// The number of waiting items.
    pub fn len(&self) -> (n: usize)
        ensures
            n == self@.len(),
    {
        self.queue.len()
    }

    /// Whether nothing is waiting.
    pub fn is_empty(&self) -> (empty: bool)
        ensures
            empty == (self@.len() == 0),
    {
        self.queue.len() == 0
    }
}

} // verus!
