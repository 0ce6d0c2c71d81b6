//! A FIFO of parked waiters.

use std::collections::VecDeque;
use vstd::prelude::*;

verus! {

/// The handle of one suspended coroutine, as the scheduler identifies it.
pub type Waiter = u64;

/// An ordered list of parked waiters, released front first.
pub struct WaitList {
    handles: VecDeque<Waiter>,
}

impl View for WaitList {
    type V = Seq<Waiter>;

    closed spec fn view(&self) -> Seq<Waiter> {
        self.handles@
    }
}

impl WaitList {
    /// An empty list.
    pub fn new() -> (r: WaitList)
        ensures
            r@ == Seq::<Waiter>::empty(),
    {
        WaitList { handles: VecDeque::new() }
    }

    /// Parks `h` behind every waiter already on the list.
    pub fn push_back(&mut self, h: Waiter)
        ensures
            final(self)@ == old(self)@.push(h),
    {
        self.handles.push_back(h);
    }

    /// Takes the waiter that has waited longest, if any.
    pub fn pop_front(&mut self) -> (r: Option<Waiter>)
        ensures
            old(self)@.len() == 0 ==> r is None && final(self)@ == old(self)@,
            old(self)@.len() > 0 ==> r == Some(old(self)@[0]) && final(self)@ == old(self)@.drop_first(),
    {
        self.handles.pop_front()
    }

    /// The number of parked waiters.
    pub fn len(&self) -> (r: usize)
        ensures
            r == self@.len(),
    {
        self.handles.len()
    }

    /// Takes every waiter off the list, in the order in which they parked.
    pub fn drain(&mut self) -> (r: Vec<Waiter>)
        ensures
            r@ == old(self)@,
            final(self)@ == Seq::<Waiter>::empty(),
    {
        let ghost orig = self@;
        let mut out: Vec<Waiter> = Vec::new();
        while self.handles.len() > 0
            invariant
                out@ + self@ == orig,
            decreases self@.len(),
        {
            let h = self.handles.pop_front().unwrap();
            out.push(h);
            assert(out@ + self@ =~= orig);
        }
        assert(out@ =~= orig);
        out
    }
}

} // verus!
