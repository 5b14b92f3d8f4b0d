//! The pending event queue: normalized UI events gathered between two
//! update passes, handed over in arrival order and all at once.

use vstd::prelude::*;

verus! {

/// Normalized events waiting for the next update pass, oldest first.
pub struct EventQueue<E> {
    pending: Vec<E>,
}

impl<E> View for EventQueue<E> {
    type V = Seq<E>;

    closed spec fn view(&self) -> Seq<E> {
        self.pending@
    }
}

impl<E> EventQueue<E> {
    /// A queue with nothing pending.
    pub fn new() -> (queue: Self)
        ensures
            queue@ == Seq::<E>::empty(),
    {
        EventQueue { pending: Vec::new() }
    }

    /// Appends `event` behind everything that is already pending.
    pub fn push(&mut self, event: E)
        ensures
            final(self)@ == old(self)@.push(event),
    {
        self.pending.push(event);
    }

    /// How many events are pending.
    pub fn len(&self) -> (count: usize)
        ensures
            count == self@.len(),
    {
        self.pending.len()
    }

    /// Whether nothing is pending.
    pub fn is_empty(&self) -> (empty: bool)
        ensures
            empty == (self@.len() == 0),
    {
        self.pending.len() == 0
    }

    /// Hands over everything that is pending, in arrival order, and leaves
    /// the queue empty.
    pub fn drain(&mut self) -> (batch: Vec<E>)
        ensures
            batch@ == old(self)@,
            final(self)@ == Seq::<E>::empty(),
    {
        let mut batch: Vec<E> = Vec::new();
        std::mem::swap(&mut batch, &mut self.pending);
        batch
    }
}

} // verus!
