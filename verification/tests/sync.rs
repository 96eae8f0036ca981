use xx_core::async_std::sync::broadcast;
use xx_core::async_std::sync::channel::error::{RecvError, SendError};
use xx_core::async_std::sync::channel::mp::MCChannel;
use xx_core::async_std::sync::channel::{mpmc, mpsc, oneshot};
use xx_core::async_std::sync::mutex::{Mutex, TryLockError};
use xx_core::async_std::sync::notify::Notify;
use xx_core::async_std::sync::wait_list::{
    AtomicWaiter, Progress, RawWaitList, ThreadSafeWaitList, WaitError,
};

#[test]
fn recv_error_new_picks_variant() {
    assert_eq!(RecvError::new(true), RecvError::Closed);
    assert_eq!(RecvError::new(false), RecvError::Empty);
    assert_eq!(SendError::new(3u8, true), SendError::Closed(3u8));
    assert_eq!(SendError::new(3u8, false), SendError::Full(3u8));
}

#[test]
fn mpmc_fifo_order() {
    let (tx, rx, mut ch) = mpmc::bounded::<u32>(4);
    assert_eq!(tx.try_send(&mut ch, 1), Ok(()));
    assert_eq!(tx.try_send(&mut ch, 2), Ok(()));
    assert_eq!(rx.len(&ch), 2);
    assert_eq!(rx.try_recv(&mut ch), Ok(1));
    assert_eq!(rx.try_recv(&mut ch), Ok(2));
    assert_eq!(rx.try_recv(&mut ch), Err(RecvError::Empty));
    assert!(rx.is_empty(&ch));
}

#[test]
fn mpmc_full_hands_value_back() {
    let (tx, _rx, mut ch) = mpmc::bounded::<u32>(2);
    assert_eq!(tx.try_send(&mut ch, 1), Ok(()));
    assert_eq!(tx.try_send(&mut ch, 2), Ok(()));
    assert!(tx.is_full(&ch));
    assert_eq!(tx.try_send(&mut ch, 3), Err(SendError::Full(3)));
    assert_eq!(tx.spare_capacity(&ch), 0);
}

#[test]
fn mpmc_capacity_rounds_up() {
    let (tx, _rx, ch) = mpmc::bounded::<u32>(3);
    assert_eq!(tx.spare_capacity(&ch), 4);
}

#[test]
fn mpmc_closed_by_receiver() {
    let (tx, rx, mut ch) = mpmc::bounded::<u32>(4);
    rx.close(&mut ch);
    assert!(tx.is_closed(&ch));
    assert_eq!(tx.try_send(&mut ch, 5), Err(SendError::Closed(5)));
}

#[test]
fn mpmc_last_sender_gone_closes_receivers() {
    let (tx, rx, mut ch) = mpmc::bounded::<u32>(4);
    assert_eq!(tx.try_send(&mut ch, 9), Ok(()));
    tx.drop_handle(&mut ch);
    assert_eq!(rx.try_recv(&mut ch), Ok(9));
    assert_eq!(rx.try_recv(&mut ch), Err(RecvError::Closed));
}

#[test]
fn mpmc_last_receiver_gone_closes_senders() {
    let (tx, rx, mut ch) = mpmc::bounded::<u32>(4);
    let rx2 = mpmc::Receiver::new(&mut ch);
    rx.drop_handle(&mut ch);
    assert!(!tx.is_closed(&ch));
    rx2.drop_handle(&mut ch);
    assert!(tx.is_closed(&ch));
}

#[test]
fn mpsc_is_the_same_channel() {
    let (tx, rx, mut ch) = mpsc::bounded::<u8>(2);
    assert_eq!(tx.try_send(&mut ch, 7), Ok(()));
    assert_eq!(rx.try_recv(&mut ch), Ok(7));
}

#[test]
fn mc_channel_counts() {
    let mut ch = MCChannel::<u8>::new(8);
    assert_eq!(ch.len(), 0);
    assert_eq!(ch.spare_capacity(), 8);
    assert_eq!(ch.try_send(1), Ok(()));
    assert_eq!(ch.len(), 1);
    assert_eq!(ch.try_recv(), Some(1));
    assert_eq!(ch.try_recv(), None);
}

#[test]
fn oneshot_send_then_recv() {
    let (tx, mut rx, mut ch) = oneshot::channel::<u32>();
    assert!(!tx.is_closed(&ch));
    assert_eq!(tx.send(&mut ch, 42), Ok(()));
    assert_eq!(rx.try_recv(&mut ch), Ok(42));
    assert_eq!(rx.try_recv(&mut ch), Err(RecvError::Closed));
}

#[test]
fn oneshot_empty_before_send() {
    let (_tx, mut rx, mut ch) = oneshot::channel::<u32>();
    assert_eq!(rx.try_recv(&mut ch), Err(RecvError::Empty));
}

#[test]
fn oneshot_sender_dropped_closes() {
    let (tx, mut rx, mut ch) = oneshot::channel::<u32>();
    tx.drop_handle(&mut ch);
    assert_eq!(rx.try_recv(&mut ch), Err(RecvError::Closed));
}

#[test]
fn oneshot_receiver_dropped_send_fails() {
    let (tx, rx, mut ch) = oneshot::channel::<u32>();
    rx.drop_handle(&mut ch);
    assert!(tx.is_closed(&ch));
    assert_eq!(tx.send(&mut ch, 1), Err(1));
}

#[test]
fn oneshot_close_then_send_returns_value() {
    let (tx, mut rx, mut ch) = oneshot::channel::<u32>();
    rx.close(&mut ch);
    assert_eq!(tx.send(&mut ch, 5), Err(5));
    assert_eq!(rx.try_recv(&mut ch), Err(RecvError::Closed));
}

#[test]
fn broadcast_every_receiver_gets_value() {
    let (tx, mut rx, mut ch) = broadcast::channel::<u32>(4);
    let mut rx2 = tx.subscribe(&mut ch);
    assert_eq!(tx.send(&mut ch, 10), Ok(()));
    assert_eq!(rx.try_recv(&mut ch), Ok(10));
    assert_eq!(rx2.try_recv(&mut ch), Ok(10));
    assert_eq!(rx.try_recv(&mut ch), Err(broadcast::RecvError::Empty));
}

#[test]
fn broadcast_subscriber_sees_only_later_values() {
    let (tx, mut rx, mut ch) = broadcast::channel::<u32>(4);
    assert_eq!(tx.send(&mut ch, 1), Ok(()));
    let mut late = rx.resubscribe(&mut ch);
    assert_eq!(tx.send(&mut ch, 2), Ok(()));
    assert_eq!(late.try_recv(&mut ch), Ok(2));
    assert_eq!(rx.try_recv(&mut ch), Ok(1));
    assert_eq!(rx.try_recv(&mut ch), Ok(2));
}

#[test]
fn broadcast_lagging_receiver() {
    let (tx, mut rx, mut ch) = broadcast::channel::<u32>(2);
    let mut keep = tx.subscribe(&mut ch);
    for v in 0..4u32 {
        let _ = tx.send(&mut ch, v);
        let _ = keep.try_recv(&mut ch);
    }
    assert_eq!(rx.try_recv(&mut ch), Err(broadcast::RecvError::Lagged(2)));
}

#[test]
fn broadcast_lag_then_resume_then_closed() {
    let (tx, mut rx, mut ch) = broadcast::channel::<i32>(2);
    assert_eq!(tx.send(&mut ch, 1), Ok(()));
    assert_eq!(tx.send(&mut ch, 2), Ok(()));
    assert_eq!(tx.send(&mut ch, 3), Ok(()));
    assert_eq!(rx.try_recv(&mut ch), Err(broadcast::RecvError::Lagged(1)));
    assert_eq!(rx.try_recv(&mut ch), Ok(2));
    assert_eq!(rx.try_recv(&mut ch), Ok(3));
    assert_eq!(rx.try_recv(&mut ch), Err(broadcast::RecvError::Empty));
    tx.drop_handle(&mut ch);
    assert_eq!(rx.try_recv(&mut ch), Err(broadcast::RecvError::Closed));
}

#[test]
fn broadcast_resubscribe_and_synchronize() {
    let (tx, mut rx, mut ch) = broadcast::channel::<i32>(4);
    assert_eq!(tx.send(&mut ch, 1), Ok(()));
    let mut rx2 = rx.resubscribe(&mut ch);
    assert_eq!(tx.send(&mut ch, 2), Ok(()));
    assert_eq!(rx2.try_recv(&mut ch), Ok(2));
    assert_eq!(rx2.try_recv(&mut ch), Err(broadcast::RecvError::Empty));
    assert_eq!(rx.try_recv(&mut ch), Ok(1));
    assert_eq!(rx.try_recv(&mut ch), Ok(2));
    assert_eq!(tx.send(&mut ch, 3), Ok(()));
    rx.synchronize(&ch);
    assert_eq!(rx.try_recv(&mut ch), Err(broadcast::RecvError::Empty));
    assert_eq!(tx.send(&mut ch, 4), Ok(()));
    assert_eq!(rx.try_recv(&mut ch), Ok(4));
}

#[test]
fn broadcast_without_receivers_returns_value() {
    let (tx, rx, mut ch) = broadcast::channel::<u32>(2);
    rx.drop_handle(&mut ch);
    assert_eq!(tx.send(&mut ch, 3), Err(broadcast::SendError(3)));
}

#[test]
fn mutex_second_try_lock_would_block() {
    let mut m = Mutex::new(5u32);
    let guard = m.try_lock().ok().unwrap();
    assert!(matches!(m.try_lock(), Err(TryLockError::WouldBlock)));
    assert_eq!(*guard.get(&m), 5);
    guard.set(&mut m, 6);
    guard.release(&mut m, false);
    assert!(m.try_lock().is_ok());
    assert!(!m.is_poisoned());
}

#[test]
fn mutex_poisoned_by_panicking_holder() {
    let mut m = Mutex::new(1u8);
    let guard = m.try_lock().ok().unwrap();
    guard.release(&mut m, true);
    assert!(m.is_poisoned());
    assert!(matches!(m.try_lock(), Err(TryLockError::Poisoned(_))));
    match m.get_mut() {
        Err(e) => *e.guard = 7,
        Ok(_) => panic!("a poisoned mutex reports it"),
    }
    m.clear_poison();
    assert!(!m.is_poisoned());
    assert_eq!(*m.get_mut().ok().unwrap(), 7);
}

#[test]
fn mutex_into_inner_and_get_mut() {
    let mut m = Mutex::new(vec![1u8]);
    m.get_mut().unwrap().push(2);
    assert_eq!(m.into_inner().ok().unwrap(), vec![1u8, 2]);
}

#[test]
fn raw_wait_list_wakes_in_order() {
    let mut list = RawWaitList::<u8>::new();
    assert_eq!(list.wait(1), Progress::Pending);
    assert_eq!(list.wait(2), Progress::Pending);
    assert!(list.wake_one(7));
    let done = list.take_completions();
    assert_eq!(done, vec![(1u64, Ok(7u8))]);
    list.finish_wait();
    assert_eq!(list.wake_all(8), 1);
    assert_eq!(list.take_completions(), vec![(2u64, Ok(8u8))]);
}

#[test]
fn raw_wait_list_closed_refuses() {
    let mut list = RawWaitList::<u8>::new();
    assert_eq!(list.wait(1), Progress::Pending);
    assert_eq!(list.close(0), 1);
    assert_eq!(list.wait(2), Progress::Done(Err(WaitError::Closed)));
}

#[test]
fn thread_safe_wait_list_cancel() {
    let mut list = ThreadSafeWaitList::<u8>::new();
    assert_eq!(list.wait(|| true, 3), Progress::Pending);
    list.cancel(3);
    assert_eq!(list.take_completions(), vec![(3u64, Err(WaitError::Cancelled))]);
    assert_eq!(list.wait(|| false, 4), Progress::Done(Err(WaitError::Cancelled)));
    assert!(!list.is_closed());
}

#[test]
fn atomic_waiter_displaces_and_closes() {
    let mut w = AtomicWaiter::<u8>::new();
    assert_eq!(w.suspend(|| true, 1), Progress::Pending);
    assert_eq!(w.suspend(|| true, 2), Progress::Pending);
    assert!(w.wake(9));
    assert!(!w.wake(9));
    assert!(!w.close(0));
    assert!(w.is_closed());
    assert_eq!(w.suspend(|| true, 3), Progress::Done(Err(WaitError::Closed)));
    assert_eq!(
        w.take_completions(),
        vec![(1u64, Err(WaitError::Cancelled)), (2u64, Ok(9u8))]
    );
}

#[test]
fn notify_wakes_every_waiter() {
    let mut n = Notify::<u8>::new();
    assert_eq!(n.wait(1), Progress::Pending);
    assert_eq!(n.wait(2), Progress::Pending);
    assert_eq!(n.notify(4), 2);
    assert_eq!(n.wait(3), Progress::Pending);
    assert_eq!(n.notify(5), 3);
}

#[test]
fn notify_counts_tasks_still_waiting() {
    let mut n = Notify::<u8>::new();
    assert_eq!(n.notify(0), 0);
    assert_eq!(n.wait(1), Progress::Pending);
    assert_eq!(n.wait(2), Progress::Pending);
    assert_eq!(n.notify(4), 2);
    n.finish_wait();
    n.finish_wait();
    assert_eq!(n.wait(3), Progress::Pending);
    assert_eq!(n.notify(5), 1);
}

#[test]
fn one_slot_channel_refuses_when_full() {
    let (tx, rx, mut ch) = mpmc::bounded::<u32>(1);
    assert_eq!(tx.try_send(&mut ch, 1), Ok(()));
    assert_eq!(tx.try_send(&mut ch, 2), Err(SendError::Full(2)));
    assert_eq!(rx.try_recv(&mut ch), Ok(1));
    assert_eq!(tx.try_send(&mut ch, 3), Ok(()));
    assert_eq!(rx.try_recv(&mut ch), Ok(3));
}
