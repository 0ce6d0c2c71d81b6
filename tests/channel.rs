use coio::chan::Chan;
use coio::error::{RecvError, SendError, TryRecvError, TrySendError};
use coio::protocol::{recv_outcome, send_outcome};
use coio::wait_list::WaitList;

#[test]
fn wait_list_releases_in_parking_order() {
    let mut l = WaitList::new();
    assert_eq!(l.pop_front(), None);
    l.push_back(3);
    l.push_back(1);
    l.push_back(2);
    assert_eq!(l.len(), 3);
    assert_eq!(l.pop_front(), Some(3));
    assert_eq!(l.drain(), vec![1, 2]);
    assert_eq!(l.len(), 0);
}

#[test]
fn unbounded_delivers_in_send_order() {
    let mut c: Chan<i32> = Chan::unbounded();
    for i in 1..10 {
        assert_eq!(c.try_send(i), (Ok(()), None));
    }
    for i in 1..10 {
        assert_eq!(c.try_recv(), (Ok(i), None));
    }
    assert_eq!(c.try_recv(), (Err(TryRecvError::Empty), None));
}

#[test]
fn interleaved_producers_deliver_each_value_once() {
    let mut c: Chan<u32> = Chan::unbounded();
    c.add_sender();
    // two producers: one sends even values, the other odd ones
    let mut got = Vec::new();
    for i in 0..50u32 {
        assert_eq!(c.try_send(2 * i).0, Ok(()));
        assert_eq!(c.try_send(2 * i + 1).0, Ok(()));
        if i % 3 == 0 {
            got.push(c.try_recv().0.unwrap());
        }
    }
    assert!(c.drop_sender().is_empty());
    assert!(c.drop_sender().is_empty());
    loop {
        match c.try_recv().0 {
            Ok(v) => got.push(v),
            Err(e) => {
                assert_eq!(e, TryRecvError::Disconnected);
                break;
            }
        }
    }
    let expected: Vec<u32> = (0..100).collect();
    assert_eq!(got, expected);
}

#[test]
fn full_bounded_send_hands_value_back() {
    let mut c: Chan<i32> = Chan::bounded(2);
    assert_eq!(c.try_send(1), (Ok(()), None));
    assert_eq!(c.try_send(2), (Ok(()), None));
    assert_eq!(c.try_send(3), (Err(TrySendError::Full(3)), None));
    assert_eq!(c.try_recv(), (Ok(1), None));
    assert_eq!(c.try_recv(), (Ok(2), None));
    assert_eq!(c.try_recv(), (Err(TryRecvError::Empty), None));
}

#[test]
fn zero_bound_never_buffers() {
    let mut c: Chan<i32> = Chan::bounded(0);
    assert_eq!(c.try_send(5), (Err(TrySendError::Full(5)), None));
    assert_eq!(c.try_recv(), (Err(TryRecvError::Empty), None));
}

#[test]
fn capacity_one_parked_sender_is_released_by_receive() {
    let mut c: Chan<i32> = Chan::bounded(1);
    assert_eq!(c.try_send(1), (Ok(()), None));
    // the second send finds the buffer full and parks as waiter 9
    assert_eq!(c.try_send(2), (Err(TrySendError::Full(2)), None));
    assert_eq!(c.park_send(9, 2), (Err(TrySendError::Full(2)), None));
    // receiving frees a slot and releases waiter 9
    assert_eq!(c.try_recv(), (Ok(1), Some(9)));
    assert_eq!(c.try_send(2), (Ok(()), None));
    assert_eq!(c.try_recv(), (Ok(2), None));
}

#[test]
fn parked_consumer_is_released_by_send() {
    let mut c: Chan<i32> = Chan::unbounded();
    assert_eq!(c.park_recv(4), (Err(TryRecvError::Empty), None));
    assert_eq!(c.try_send(8), (Ok(()), Some(4)));
    assert_eq!(c.park_recv(4), (Ok(8), None));
}

#[test]
fn park_setup_cancels_when_progress_is_possible() {
    let mut c: Chan<i32> = Chan::bounded(1);
    assert_eq!(c.park_send(1, 10), (Ok(()), None));
    assert_eq!(c.park_recv(2), (Ok(10), None));
    assert_eq!(c.park_recv(2), (Err(TryRecvError::Empty), None));
    assert_eq!(c.park_send(1, 11), (Ok(()), Some(2)));
}

#[test]
fn relay_chain_reproduces_sequence() {
    let stages: usize = 10000;
    let mut chans: Vec<Chan<i32>> = (0..=stages).map(|_| Chan::unbounded()).collect();
    for i in 0..10 {
        assert_eq!(chans[0].try_send(i).0, Ok(()));
        for k in 0..stages {
            let v = chans[k].try_recv().0.unwrap();
            assert_eq!(chans[k + 1].try_send(v).0, Ok(()));
        }
        assert_eq!(chans[stages].try_recv().0, Ok(i));
    }
}

#[test]
fn channels_work_without_any_scheduler() {
    let mut u: Chan<i32> = Chan::unbounded();
    let mut b: Chan<i32> = Chan::bounded(1);
    assert_eq!(u.try_send(1), (Ok(()), None));
    assert_eq!(u.try_recv(), (Ok(1), None));
    assert_eq!(b.try_send(2), (Ok(()), None));
    assert_eq!(b.try_recv(), (Ok(2), None));
    assert!(u.drop_sender().is_empty());
    assert_eq!(u.try_recv(), (Err(TryRecvError::Disconnected), None));
    assert!(b.drop_receiver().is_empty());
    assert_eq!(b.try_send(3), (Err(TrySendError::Disconnected(3)), None));
}

#[test]
fn last_producer_drop_wakes_parked_consumer() {
    let mut c: Chan<i32> = Chan::unbounded();
    c.add_sender();
    assert_eq!(c.park_recv(6), (Err(TryRecvError::Empty), None));
    assert!(c.drop_sender().is_empty());
    assert_eq!(c.drop_sender(), vec![6]);
    assert_eq!(c.park_recv(6), (Err(TryRecvError::Disconnected), None));
}

#[test]
fn buffered_items_outlive_last_producer() {
    let mut c: Chan<i32> = Chan::bounded(3);
    assert_eq!(c.try_send(1).0, Ok(()));
    assert_eq!(c.try_send(2).0, Ok(()));
    assert!(c.drop_sender().is_empty());
    assert_eq!(c.try_recv().0, Ok(1));
    assert_eq!(c.try_recv().0, Ok(2));
    assert_eq!(c.try_recv().0, Err(TryRecvError::Disconnected));
}

#[test]
fn consumer_drop_wakes_every_parked_producer() {
    let mut c: Chan<i32> = Chan::bounded(1);
    c.add_sender();
    assert_eq!(c.try_send(0).0, Ok(()));
    assert_eq!(c.park_send(1, 10), (Err(TrySendError::Full(10)), None));
    assert_eq!(c.park_send(2, 20), (Err(TrySendError::Full(20)), None));
    assert_eq!(c.drop_receiver(), vec![1, 2]);
    assert_eq!(c.park_send(1, 10), (Err(TrySendError::Disconnected(10)), None));
    assert_eq!(c.try_send(20), (Err(TrySendError::Disconnected(20)), None));
}

#[test]
fn receive_outcomes_settle_or_park() {
    assert_eq!(recv_outcome(Ok::<i32, TryRecvError>(3)), Some(Ok(3)));
    assert_eq!(recv_outcome::<i32>(Err(TryRecvError::Disconnected)), Some(Err(RecvError)));
    assert_eq!(recv_outcome::<i32>(Err(TryRecvError::Empty)), None);
}

#[test]
fn send_outcomes_settle_or_park() {
    assert_eq!(send_outcome::<i32>(Ok(())), Ok(Ok(())));
    assert_eq!(send_outcome(Err(TrySendError::Disconnected(4))), Ok(Err(SendError(4))));
    assert_eq!(send_outcome(Err(TrySendError::Full(5))), Err(5));
}

#[test]
fn parked_producers_are_released_one_per_receive_in_order() {
    let mut c: Chan<i32> = Chan::bounded(1);
    assert_eq!(c.try_send(0).0, Ok(()));
    assert_eq!(c.park_send(11, 1).0, Err(TrySendError::Full(1)));
    assert_eq!(c.park_send(12, 2).0, Err(TrySendError::Full(2)));
    assert_eq!(c.park_send(13, 3).0, Err(TrySendError::Full(3)));
    assert_eq!(c.try_recv(), (Ok(0), Some(11)));
    assert_eq!(c.try_send(1), (Ok(()), None));
    assert_eq!(c.try_recv(), (Ok(1), Some(12)));
    assert_eq!(c.try_send(2), (Ok(()), None));
    assert_eq!(c.try_recv(), (Ok(2), Some(13)));
    assert_eq!(c.try_send(3), (Ok(()), None));
    assert_eq!(c.try_recv(), (Ok(3), None));
}
