//! What holds of a channel across operations.

use crate::chan::{after_front, ChanModel};
use crate::error::{TryRecvError, TrySendError};
use crate::wait_list::Waiter;
use vstd::prelude::*;

verus! {

/// The state after the values of `s` were accepted one after another.
pub open spec fn accept_all<T>(m: ChanModel<T>, s: Seq<T>) -> ChanModel<T>
    decreases s.len(),
{
    if s.len() == 0 {
        m
    } else {
        accept_all(m, s.drop_last()).accept(s.last())
    }
}

/// The state after `n` items were received one after another.
pub open spec fn deliver_n<T>(m: ChanModel<T>, n: nat) -> ChanModel<T>
    decreases n,
{
    if n == 0 {
        m
    } else {
        deliver_n(m, (n - 1) as nat).deliver()
    }
}

/// A wait list after `n` progress events, each releasing its first waiter.
pub open spec fn released(w: Seq<Waiter>, n: nat) -> Seq<Waiter> {
    if n < w.len() {
        w.subrange(n as int, w.len() as int)
    } else {
        Seq::empty()
    }
}

proof fn lemma_release_one_more(w: Seq<Waiter>, n: nat)
    ensures
        after_front(released(w, n)) == released(w, n + 1),
{
    if n < w.len() {
        assert(released(w, n).drop_first() =~= released(w, n + 1));
    }
    if n == 0 {
        assert(w.subrange(0, w.len() as int) =~= w);
    }
}

proof fn lemma_accept_all<T>(m: ChanModel<T>, s: Seq<T>)
    ensures
        accept_all(m, s).queued == m.queued + s,
        accept_all(m, s).delivered == m.delivered,
        accept_all(m, s).sent == m.sent + s,
        accept_all(m, s).senders == m.senders,
        accept_all(m, s).receiver == m.receiver,
        accept_all(m, s).send_waiting == m.send_waiting,
        accept_all(m, s).recv_waiting == released(m.recv_waiting, s.len()),
    decreases s.len(),
{
    if s.len() > 0 {
        lemma_accept_all(m, s.drop_last());
        lemma_release_one_more(m.recv_waiting, s.drop_last().len());
        assert(m.queued + s.drop_last() + seq![s.last()] =~= m.queued + s);
        assert(m.sent + s.drop_last() + seq![s.last()] =~= m.sent + s);
    }
}

proof fn lemma_deliver_n<T>(m: ChanModel<T>, n: nat)
    requires
        n <= m.queued.len(),
    ensures
        deliver_n(m, n).queued == m.queued.subrange(n as int, m.queued.len() as int),
        deliver_n(m, n).delivered == m.delivered + m.queued.subrange(0, n as int),
        deliver_n(m, n).recv_waiting == m.recv_waiting,
        deliver_n(m, n).send_waiting == released(m.send_waiting, n),
    decreases n,
{
    if n > 0 {
        let k = (n - 1) as nat;
        lemma_deliver_n(m, k);
        lemma_release_one_more(m.send_waiting, k);
        assert(m.queued.subrange(k as int, m.queued.len() as int).drop_first() =~= m.queued.subrange(
            n as int,
            m.queued.len() as int,
        ));
        assert(m.delivered + m.queued.subrange(0, k as int) + seq![m.queued[k as int]]
            =~= m.delivered + m.queued.subrange(0, n as int));
    } else {
        assert(m.queued.subrange(0, m.queued.len() as int) =~= m.queued);
        assert(m.delivered + m.queued.subrange(0, 0) =~= m.delivered);
    }
}

/// Values come out in the order in which their sends succeeded: whatever was
/// queued, then every value of `s` sent after it, whichever producers sent
/// them.
pub proof fn law_fifo<T>(m: ChanModel<T>, s: Seq<T>)
    requires
        m.inv(),
    ensures
        deliver_n(accept_all(m, s), m.queued.len() + s.len()).delivered == m.delivered + m.queued
            + s,
{
    lemma_accept_all(m, s);
    let a = accept_all(m, s);
    lemma_deliver_n(a, m.queued.len() + s.len());
    assert(a.queued.subrange(0, (m.queued.len() + s.len()) as int) =~= m.queued + s);
    assert(m.delivered + (m.queued + s) =~= m.delivered + m.queued + s);
}

/// Each accepted send releases exactly one parked consumer, the one that has
/// waited longest: a consumer parked at position `i` is released by the
/// `i + 1`-th send that succeeds after it parked, and not before.
pub proof fn law_consumers_released_in_order<T>(m: ChanModel<T>, s: Seq<T>, i: int)
    requires
        m.inv(),
        0 <= i < m.recv_waiting.len(),
    ensures
        s.len() <= i ==> accept_all(m, s).recv_waiting.contains(m.recv_waiting[i]),
        s.len() > i ==> !accept_all(m, s).recv_waiting.contains(m.recv_waiting[i]),
{
    lemma_accept_all(m, s);
    let w = m.recv_waiting;
    let r = accept_all(m, s).recv_waiting;
    if s.len() <= i {
        assert(r[i - s.len()] == w[i]);
    } else if s.len() < w.len() {
        assert forall|j: int| 0 <= j < r.len() implies r[j] != w[i] by {
            assert(r[j] == w[j + s.len()]);
        }
    }
}

/// Each receive releases exactly one parked producer, the one that has
/// waited longest: a producer parked at position `i` is released by the
/// `i + 1`-th receive after it parked, and not before.
pub proof fn law_producers_released_in_order<T>(m: ChanModel<T>, n: nat, i: int)
    requires
        m.inv(),
        n <= m.queued.len(),
        0 <= i < m.send_waiting.len(),
    ensures
        n <= i ==> deliver_n(m, n).send_waiting.contains(m.send_waiting[i]),
        n > i ==> !deliver_n(m, n).send_waiting.contains(m.send_waiting[i]),
{
    lemma_deliver_n(m, n);
    let w = m.send_waiting;
    let r = deliver_n(m, n).send_waiting;
    if n <= i {
        assert(r[i - n] == w[i]);
    } else if n < w.len() {
        assert forall|j: int| 0 <= j < r.len() implies r[j] != w[i] by {
            assert(r[j] == w[j + n]);
        }
    }
}

/// No value is delivered twice and none is lost: in every reachable state the
/// values received so far are the first ones sent, and receiving what is
/// queued delivers exactly every value sent.
pub proof fn law_exactly_once<T>(m: ChanModel<T>)
    requires
        m.inv(),
    ensures
        m.delivered == m.sent.subrange(0, m.delivered.len() as int),
        deliver_n(m, m.queued.len()).delivered == m.sent,
{
    assert(m.sent.subrange(0, m.delivered.len() as int) =~= m.delivered);
    lemma_deliver_n(m, m.queued.len());
    assert(m.queued.subrange(0, m.queued.len() as int) =~= m.queued);
}

/// Dropping the last producer releases every parked consumer, and none of
/// them can park again: a retried receive yields an item or `Disconnected`.
pub proof fn law_producer_drop_wakes<T>(m: ChanModel<T>, h: Waiter)
    requires
        m.inv(),
        m.senders == 1,
        m.recv_waiting.contains(h),
    ensures
        m.sender_drop_wakes().contains(h),
        m.sender_dropped().recv_waiting.len() == 0,
        m.sender_dropped().recv_result() != Err::<T, TryRecvError>(TryRecvError::Empty),
        m.sender_dropped().queued.len() == 0 ==> m.sender_dropped().recv_result() == Err::<
            T,
            TryRecvError,
        >(TryRecvError::Disconnected),
{
}

/// Dropping the consumer of a bounded channel releases every parked
/// producer, and each retried send reports `Disconnected` with its value.
pub proof fn law_consumer_drop_wakes<T>(m: ChanModel<T>, t: T)
    requires
        m.inv(),
        m.receiver,
    ensures
        m.receiver_dropped().send_waiting.len() == 0,
        m.receiver_dropped().send_result(t) == Err::<(), TrySendError<T>>(
            TrySendError::Disconnected(t),
        ),
{
}

/// A send on a full channel is rejected with the value itself.
pub proof fn law_full_rejects<T>(m: ChanModel<T>, t: T)
    requires
        m.inv(),
        m.receiver,
        m.full(),
    ensures
        m.send_result(t) == Err::<(), TrySendError<T>>(TrySendError::Full(t)),
{
}

} // verus!
