//! The cross-thread dispatch queue.
//!
//! Work submitted from any thread is enqueued here and executed on the
//! owning UI thread, in submission order, exactly once.  In the running
//! system the submitter also posts a reserved wake message to the owning
//! thread so that a blocked message-retrieval call returns; that posting is
//! a platform call and stays outside the library.  The queue itself is the
//! ordered buffer, with first-in-first-out behaviour pinned by the
//! contracts below.

use vstd::prelude::*;

verus! {

/// An ordered queue of deferred work, drained in submission order.
pub struct DispatchQueue<W> {
    items: Vec<W>,
}

impl<W> View for DispatchQueue<W> {
    type V = Seq<W>;

    closed spec fn view(&self) -> Seq<W> {
        self.items@
    }
}

impl<W> DispatchQueue<W> {
    /// An empty queue.
    pub fn new() -> (r: DispatchQueue<W>)
        ensures
            r@ == Seq::<W>::empty(),
    {
        DispatchQueue { items: Vec::new() }
    }

    /// How many units of work are waiting.
    pub fn len(&self) -> (r: usize)
        ensures
            r == self@.len(),
    {
        self.items.len()
    }

    /// Appends one unit of work behind everything already submitted.
    pub fn dispatch(&mut self, work: W)
        ensures
            final(self)@ == old(self)@.push(work),
    {
        self.items.push(work);
    }

    /// Removes and returns the oldest unit of work, or `None` on an empty
    /// queue.
    pub fn pop_front(&mut self) -> (r: Option<W>)
        ensures
            old(self)@.len() == 0 ==> r is None && final(self)@ == old(self)@,
            old(self)@.len() > 0 ==> r == Some(old(self)@[0]) && final(self)@ == old(self)@.drop_first(),
    {
        if self.items.len() == 0 {
            None
        } else {
            let w = self.items.remove(0);
            assert(self@ =~= old(self)@.drop_first());
            Some(w)
        }
    }

    /// Removes and returns everything waiting, oldest first: the drain
    /// phase of the message loop hands the result to execution, so queued
    /// work runs in exactly the order it was submitted.
    pub fn drain(&mut self) -> (works: Vec<W>)
        ensures
            works@ == old(self)@,
            final(self)@ == Seq::<W>::empty(),
    {
        let mut rest = Vec::new();
        core::mem::swap(&mut self.items, &mut rest);
        rest
    }
}

/// Submission order is kept: work dispatched earlier stands earlier in the
/// queue, and later submissions never disturb what is already waiting.
pub proof fn lemma_dispatch_fifo<W>(s: Seq<W>, w1: W, w2: W)
    ensures
        s.push(w1).push(w2)[s.len() as int] == w1,
        s.push(w1).push(w2)[s.len() as int + 1] == w2,
        forall|i: int| 0 <= i < s.len() ==> s.push(w1).push(w2)[i] == s[i],
{
}

} // verus!
