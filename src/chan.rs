//! The state that one channel pair shares: the buffered items, the live
//! endpoints of each kind, and the two wait lists of the parking protocol.
//!
//! Every operation here is one critical section: a caller holds the channel's
//! lock around it and afterwards marks ready the waiters that it hands back.

use crate::error::{TryRecvError, TrySendError};
use crate::wait_list::{WaitList, Waiter};
use std::collections::VecDeque;
use vstd::prelude::*;

verus! {

/// The first waiter of a list, the one that the next progress event releases.
pub open spec fn front(s: Seq<Waiter>) -> Option<Waiter> {
    if s.len() > 0 {
        Some(s[0])
    } else {
        None
    }
}

/// A list after its first waiter, if any, has been released.
pub open spec fn after_front(s: Seq<Waiter>) -> Seq<Waiter> {
    if s.len() > 0 {
        s.drop_first()
    } else {
        s
    }
}

/// Releasing the first waiter of one list keeps the two lists free of
/// duplicates and apart.
proof fn lemma_release_front_keeps_apart(a: Seq<Waiter>, b: Seq<Waiter>)
    requires
        a.no_duplicates(),
        forall|h: Waiter| a.contains(h) ==> !b.contains(h),
    ensures
        after_front(a).no_duplicates(),
        forall|h: Waiter| after_front(a).contains(h) ==> !b.contains(h),
        forall|h: Waiter| b.contains(h) ==> !after_front(a).contains(h),
{
    if a.len() > 0 {
        assert forall|h: Waiter| after_front(a).contains(h) implies a.contains(h) by {
            let i = choose|i: int| 0 <= i < after_front(a).len() && after_front(a)[i] == h;
            assert(a[i + 1] == h);
        }
    }
}

/// Parking a waiter that is on neither list keeps the lists free of
/// duplicates and apart.
proof fn lemma_park_keeps_apart(a: Seq<Waiter>, b: Seq<Waiter>, h: Waiter)
    requires
        a.no_duplicates(),
        forall|x: Waiter| a.contains(x) ==> !b.contains(x),
        !a.contains(h),
        !b.contains(h),
    ensures
        a.push(h).no_duplicates(),
        forall|x: Waiter| a.push(h).contains(x) ==> !b.contains(x),
        forall|x: Waiter| b.contains(x) ==> !a.push(h).contains(x),
{
    assert forall|x: Waiter| a.push(h).contains(x) implies a.contains(x) || x == h by {
        let i = choose|i: int| 0 <= i < a.push(h).len() && a.push(h)[i] == x;
        if i < a.len() {
            assert(a[i] == x);
        }
    }
}

/// What a channel is, abstractly.
pub struct ChanModel<T> {
    /// Items sent and not yet received, oldest first.
    pub queued: Seq<T>,
    /// The most items that may be buffered; `None` for an unbounded channel.
    pub bound: Option<nat>,
    /// How many producer endpoints are alive.
    pub senders: nat,
    /// Whether the consumer endpoint is alive.
    pub receiver: bool,
    /// Consumers parked until an item arrives.
    pub recv_waiting: Seq<Waiter>,
    /// Producers parked until room frees up.
    pub send_waiting: Seq<Waiter>,
    /// Every value that a send has handed over, in the order the sends succeeded.
    pub sent: Seq<T>,
    /// Every value that a receive has returned, in order.
    pub delivered: Seq<T>,
}

impl<T> ChanModel<T> {
    /// A freshly created pair: one producer, one consumer, nothing queued.
    pub open spec fn fresh(bound: Option<nat>) -> ChanModel<T> {
        ChanModel {
            queued: Seq::empty(),
            bound,
            senders: 1,
            receiver: true,
            recv_waiting: Seq::empty(),
            send_waiting: Seq::empty(),
            sent: Seq::empty(),
            delivered: Seq::empty(),
        }
    }

    /// The buffer holds as many items as the bound allows.
    pub open spec fn full(self) -> bool {
        match self.bound {
            Some(b) => self.queued.len() >= b,
            None => false,
        }
    }

    /// `h` waits on one of the two lists.
    pub open spec fn is_parked(self, h: Waiter) -> bool {
        self.recv_waiting.contains(h) || self.send_waiting.contains(h)
    }

    /// What holds of every reachable channel state.
    pub open spec fn inv(self) -> bool {
        &&& self.sent == self.delivered + self.queued
        &&& self.recv_waiting.no_duplicates()
        &&& self.send_waiting.no_duplicates()
        &&& forall|h: Waiter| self.recv_waiting.contains(h) ==> !self.send_waiting.contains(h)
        &&& self.senders == 0 ==> self.recv_waiting.len() == 0
        &&& !self.receiver ==> self.send_waiting.len() == 0
        &&& self.bound matches Some(b) ==> self.queued.len() <= b
    }

    /// What a non-blocking send of `t` reports.
    pub open spec fn send_result(self, t: T) -> Result<(), TrySendError<T>> {
        if !self.receiver {
            Err(TrySendError::Disconnected(t))
        } else if self.full() {
            Err(TrySendError::Full(t))
        } else {
            Ok(())
        }
    }

    /// What a non-blocking receive reports.
    pub open spec fn recv_result(self) -> Result<T, TryRecvError> {
        if self.queued.len() > 0 {
            Ok(self.queued[0])
        } else if self.senders == 0 {
            Err(TryRecvError::Disconnected)
        } else {
            Err(TryRecvError::Empty)
        }
    }

    /// The state after `t` was accepted: it joins the queue and the first
    /// parked consumer is released.
    pub open spec fn accept(self, t: T) -> ChanModel<T> {
        ChanModel {
            queued: self.queued.push(t),
            sent: self.sent.push(t),
            recv_waiting: after_front(self.recv_waiting),
            ..self
        }
    }

    /// The state after the oldest item was received: it leaves the queue and
    /// the first parked producer is released.
    pub open spec fn deliver(self) -> ChanModel<T> {
        ChanModel {
            queued: self.queued.drop_first(),
            delivered: self.delivered.push(self.queued[0]),
            send_waiting: after_front(self.send_waiting),
            ..self
        }
    }

    /// The state after the consumer `h` parked.
    pub open spec fn park_consumer(self, h: Waiter) -> ChanModel<T> {
        ChanModel { recv_waiting: self.recv_waiting.push(h), ..self }
    }

    /// The state after the producer `h` parked.
    pub open spec fn park_producer(self, h: Waiter) -> ChanModel<T> {
        ChanModel { send_waiting: self.send_waiting.push(h), ..self }
    }

    /// The state after one producer endpoint was dropped. The last one takes
    /// every parked consumer off its list: no item can ever come for them.
    pub open spec fn sender_dropped(self) -> ChanModel<T> {
        if self.senders == 1 {
            ChanModel { senders: 0, recv_waiting: Seq::empty(), ..self }
        } else {
            ChanModel { senders: (self.senders - 1) as nat, ..self }
        }
    }

    /// The waiters that dropping one producer endpoint releases.
    pub open spec fn sender_drop_wakes(self) -> Seq<Waiter> {
        if self.senders == 1 {
            self.recv_waiting
        } else {
            Seq::empty()
        }
    }

    /// The state after the consumer was dropped: every parked producer is taken
    /// off its list, since no room can ever free up for them.
    pub open spec fn receiver_dropped(self) -> ChanModel<T> {
        ChanModel { receiver: false, send_waiting: Seq::empty(), ..self }
    }
}

/// The shared state of one channel pair.
pub struct Chan<T> {
    buf: VecDeque<T>,
    bound: Option<usize>,
    senders: usize,
    receiver: bool,
    recv_waiters: WaitList,
    send_waiters: WaitList,
    sent: Ghost<Seq<T>>,
    delivered: Ghost<Seq<T>>,
}

impl<T> View for Chan<T> {
    type V = ChanModel<T>;

    closed spec fn view(&self) -> ChanModel<T> {
        ChanModel {
            queued: self.buf@,
            bound: match self.bound {
                Some(b) => Some(b as nat),
                None => None,
            },
            senders: self.senders as nat,
            receiver: self.receiver,
            recv_waiting: self.recv_waiters@,
            send_waiting: self.send_waiters@,
            sent: self.sent@,
            delivered: self.delivered@,
        }
    }
}

impl<T> Chan<T> {
    /// The channel is in a reachable state.
    pub open spec fn wf(&self) -> bool {
        self@.inv()
    }

    /// The state of a new unbounded pair.
    pub fn unbounded() -> (r: Chan<T>)
        ensures
            r.wf(),
            r@ == ChanModel::<T>::fresh(None),
    {
        Chan {
            buf: VecDeque::new(),
            bound: None,
            senders: 1,
            receiver: true,
            recv_waiters: WaitList::new(),
            send_waiters: WaitList::new(),
            sent: Ghost(Seq::empty()),
            delivered: Ghost(Seq::empty()),
        }
    }

    /// The state of a new pair that buffers at most `bound` items.
    pub fn bounded(bound: usize) -> (r: Chan<T>)
        ensures
            r.wf(),
            r@ == ChanModel::<T>::fresh(Some(bound as nat)),
    {
        Chan {
            buf: VecDeque::new(),
            bound: Some(bound),
            senders: 1,
            receiver: true,
            recv_waiters: WaitList::new(),
            send_waiters: WaitList::new(),
            sent: Ghost(Seq::empty()),
            delivered: Ghost(Seq::empty()),
        }
    }

    /// A non-blocking send through a live producer endpoint. On success the
    /// value is queued and the first parked consumer, if any, is handed back
    /// to be marked ready. On failure the value comes back unchanged and
    /// nothing else changes.
    pub fn try_send(&mut self, t: T) -> (r: (Result<(), TrySendError<T>>, Option<Waiter>))
        requires
            old(self).wf(),
            old(self)@.senders > 0,
        ensures
            final(self).wf(),
            r.0 == old(self)@.send_result(t),
            r.0 is Ok ==> final(self)@ == old(self)@.accept(t) && r.1 == front(
                old(self)@.recv_waiting,
            ),
            r.0 is Err ==> final(self)@ == old(self)@ && r.1 is None,
    {
        if !self.receiver {
            return (Err(TrySendError::Disconnected(t)), None);
        }
        if self.is_full() {
            return (Err(TrySendError::Full(t)), None);
        }
        self.buf.push_back(t);
        self.sent = Ghost(self.sent@.push(t));
        let woken = self.recv_waiters.pop_front();
        proof {
            let m = old(self)@;
            assert(self@.sent =~= self@.delivered + self@.queued);
            assert(self@ =~= m.accept(t));
            lemma_release_front_keeps_apart(m.recv_waiting, m.send_waiting);
        }
        (Ok(()), woken)
    }

    /// A non-blocking receive through the live consumer endpoint. On success
    /// the oldest item leaves the queue and the first parked producer, if any,
    /// is handed back to be marked ready; otherwise nothing changes.
    pub fn try_recv(&mut self) -> (r: (Result<T, TryRecvError>, Option<Waiter>))
        requires
            old(self).wf(),
            old(self)@.receiver,
        ensures
            final(self).wf(),
            r.0 == old(self)@.recv_result(),
            r.0 is Ok ==> final(self)@ == old(self)@.deliver() && r.1 == front(
                old(self)@.send_waiting,
            ),
            r.0 is Err ==> final(self)@ == old(self)@ && r.1 is None,
    {
        match self.buf.pop_front() {
            Some(t) => {
                self.delivered = Ghost(self.delivered@.push(t));
                let woken = self.send_waiters.pop_front();
                proof {
                    let m = old(self)@;
                    assert(m.sent =~= m.delivered + m.queued);
                    assert(self@.sent =~= self@.delivered + self@.queued);
                    assert(self@ =~= m.deliver());
                    lemma_release_front_keeps_apart(m.send_waiting, m.recv_waiting);
                }
                (Ok(t), woken)
            },
            None => {
                if self.senders == 0 {
                    (Err(TryRecvError::Disconnected), None)
                } else {
                    (Err(TryRecvError::Empty), None)
                }
            },
        }
    }

    /// The setup step of a parking consumer `h`, run after it has left the
    /// runnable set and before it is switched away. It retries the receive;
    /// only if the channel is still empty does `h` join the consumers' wait
    /// list. Any other outcome is returned, and the caller marks `h` ready
    /// again at once.
    pub fn park_recv(&mut self, h: Waiter) -> (r: (Result<T, TryRecvError>, Option<Waiter>))
        requires
            old(self).wf(),
            old(self)@.receiver,
            !old(self)@.is_parked(h),
        ensures
            final(self).wf(),
            r.0 == old(self)@.recv_result(),
            r.0 is Ok ==> final(self)@ == old(self)@.deliver() && r.1 == front(
                old(self)@.send_waiting,
            ),
            r.0 == Err::<T, TryRecvError>(TryRecvError::Empty) ==> final(self)@ == old(
                self,
            )@.park_consumer(h) && r.1 is None,
            r.0 == Err::<T, TryRecvError>(TryRecvError::Disconnected) ==> final(self)@ == old(
                self,
            )@ && r.1 is None,
    {
        let r = self.try_recv();
        if let Err(TryRecvError::Empty) = r.0 {
            self.recv_waiters.push_back(h);
            proof {
                let m = old(self)@;
                assert(self@ =~= m.park_consumer(h));
                lemma_park_keeps_apart(m.recv_waiting, m.send_waiting, h);
            }
        }
        r
    }

    /// The setup step of a parking producer `h` holding `t`: it retries the
    /// send, and only if the buffer is still full does `h` join the
    /// producers' wait list. The value comes back with any failure.
    pub fn park_send(&mut self, h: Waiter, t: T) -> (r: (Result<(), TrySendError<T>>, Option<Waiter>))
        requires
            old(self).wf(),
            old(self)@.senders > 0,
            !old(self)@.is_parked(h),
        ensures
            final(self).wf(),
            r.0 == old(self)@.send_result(t),
            r.0 is Ok ==> final(self)@ == old(self)@.accept(t) && r.1 == front(
                old(self)@.recv_waiting,
            ),
            r.0 == Err::<(), TrySendError<T>>(TrySendError::Full(t)) ==> final(self)@ == old(
                self,
            )@.park_producer(h) && r.1 is None,
            r.0 == Err::<(), TrySendError<T>>(TrySendError::Disconnected(t)) ==> final(self)@
                == old(self)@ && r.1 is None,
    {
        let r = self.try_send(t);
        if let Err(TrySendError::Full(_)) = r.0 {
            self.send_waiters.push_back(h);
            proof {
                let m = old(self)@;
                assert(self@ =~= m.park_producer(h));
                lemma_park_keeps_apart(m.send_waiting, m.recv_waiting, h);
            }
        }
        r
    }

    /// How many producer endpoints are alive.
    pub fn senders(&self) -> (r: usize)
        ensures
            r == self@.senders,
    {
        self.senders
    }

    /// A producer endpoint was cloned.
    pub fn add_sender(&mut self)
        requires
            old(self).wf(),
            old(self)@.senders > 0,
            old(self)@.senders < usize::MAX,
        ensures
            final(self).wf(),
            final(self)@ == (ChanModel { senders: old(self)@.senders + 1, ..old(self)@ }),
    {
        self.senders = self.senders + 1;
        assert(self@ =~= (ChanModel { senders: old(self)@.senders + 1, ..old(self)@ }));
    }

    /// A producer endpoint was dropped. The waiters handed back are to be
    /// marked ready: when the last producer goes, every parked consumer.
    pub fn drop_sender(&mut self) -> (r: Vec<Waiter>)
        requires
            old(self).wf(),
            old(self)@.senders > 0,
        ensures
            final(self).wf(),
            final(self)@ == old(self)@.sender_dropped(),
            r@ == old(self)@.sender_drop_wakes(),
    {
        self.senders = self.senders - 1;
        if self.senders == 0 {
            let woken = self.recv_waiters.drain();
            assert(self@ =~= old(self)@.sender_dropped());
            woken
        } else {
            assert(self@ =~= old(self)@.sender_dropped());
            Vec::new()
        }
    }

    /// The consumer endpoint was dropped. Every parked producer is handed back
    /// to be marked ready.
    pub fn drop_receiver(&mut self) -> (r: Vec<Waiter>)
        requires
            old(self).wf(),
            old(self)@.receiver,
        ensures
            final(self).wf(),
            final(self)@ == old(self)@.receiver_dropped(),
            r@ == old(self)@.send_waiting,
    {
        self.receiver = false;
        let woken = self.send_waiters.drain();
        assert(self@ =~= old(self)@.receiver_dropped());
        woken
    }

    /// Whether the buffer has no room for another item.
    fn is_full(&self) -> (r: bool)
        ensures
            r == self@.full(),
    {
        match self.bound {
            Some(b) => self.buf.len() >= b,
            None => false,
        }
    }
}

} // verus!
