//! Sends a single message to another task.
//!
//! If the `Sender` is dropped before a message is sent, the receiver gets a
//! [`RecvError::Closed`] error. If the `Receiver` is dropped before a message
//! is sent, [`Sender::send`] fails and hands the value back.
//!
//! The shared state of a channel is the [`Channel`] value returned by
//! [`channel`]; both ends act on it.

use vstd::prelude::*;
use super::error::{RecvError, RecvResult};
use crate::async_std::sync::wait_list::{waiter_closed, AtomicWaiter, WaiterSlot};

verus! {

/// The state shared by the two ends of a oneshot channel
pub struct Channel<T> {
    value: Option<T>,
    tx_waiter: AtomicWaiter<()>,
    rx_waiter: AtomicWaiter<()>,
}

impl<T> Channel<T> {
    /// The sent value not yet received
    pub closed spec fn stored(&self) -> Option<T> {
        self.value
    }

    /// The waiter of the sending side, closed once the receiver is done
    pub closed spec fn tx(&self) -> AtomicWaiter<()> {
        self.tx_waiter
    }

    /// The waiter of the receiving side, closed once a value was sent or the
    /// sender is gone
    pub closed spec fn rx(&self) -> AtomicWaiter<()> {
        self.rx_waiter
    }

    pub open spec fn tx_closed(&self) -> bool {
        self.tx().slot() == WaiterSlot::Closed
    }

    fn new() -> (r: Self)
        ensures
            r.stored() is None,
            r.tx().slot() == WaiterSlot::Empty,
            r.rx().slot() == WaiterSlot::Empty,
            r.tx().completions().len() == 0,
            r.rx().completions().len() == 0,
    {
        Self { value: None, tx_waiter: AtomicWaiter::new(), rx_waiter: AtomicWaiter::new() }
    }

    /// Take the sent value, if any
    fn try_consume_value(&mut self) -> (r: Option<T>)
        ensures
            r == old(self).stored(),
            final(self).stored() is None,
            final(self).tx() == old(self).tx(),
            final(self).rx() == old(self).rx(),
    {
        let mut value = None;
        std::mem::swap(&mut value, &mut self.value);
        value
    }

    /// Close both sides
    fn close(&mut self)
        ensures
            closed_both(*old(self), *final(self)),
    {
        self.tx_waiter.close(());
        self.rx_waiter.close(());
    }
}

/// Both waiters closed, the stored value untouched
pub open spec fn closed_both<T>(before: Channel<T>, after: Channel<T>) -> bool {
    &&& waiter_closed(before.tx(), after.tx(), ())
    &&& waiter_closed(before.rx(), after.rx(), ())
    &&& after.stored() == before.stored()
}

/// What [`Receiver::try_recv`] returns on a channel in state `c`
pub open spec fn try_recv_result<T>(c: Channel<T>) -> RecvResult<T> {
    match c.stored() {
        Some(v) => Ok(v),
        None => Err(if c.tx_closed() { RecvError::Closed } else { RecvError::Empty }),
    }
}

/// The state change of [`Receiver::try_recv`]: a received value closes the
/// sending side
pub open spec fn try_recv_post<T>(before: Channel<T>, after: Channel<T>) -> bool {
    match before.stored() {
        Some(_) => {
            &&& after.stored() is None
            &&& waiter_closed(before.tx(), after.tx(), ())
            &&& after.rx() == before.rx()
        },
        None => after == before,
    }
}

/// What [`Sender::send`] returns on a channel in state `c`
pub open spec fn send_result<T>(c: Channel<T>, value: T) -> Result<(), T> {
    if c.tx_closed() {
        Err(value)
    } else {
        Ok(())
    }
}

/// The state change of [`Sender::send`]: the value is stored unless the
/// receiver is gone, and the receiving side is closed
pub open spec fn send_post<T>(before: Channel<T>, after: Channel<T>, value: T) -> bool {
    &&& waiter_closed(before.rx(), after.rx(), ())
    &&& after.tx() == before.tx()
    &&& after.stored() == (if before.tx_closed() { None } else { Some(value) })
}

/// The state change of dropping the receiver: the sending side is closed
/// and a value already sent is discarded
pub open spec fn drop_receiver_post<T>(before: Channel<T>, after: Channel<T>) -> bool {
    &&& waiter_closed(before.tx(), after.tx(), ())
    &&& after.rx() == before.rx()
    &&& after.stored() is None
}

/// The receiver of a oneshot channel
pub struct Receiver<T> {
    phantom: std::marker::PhantomData<T>,
}

impl<T> Receiver<T> {
    /// Attempt to receive the value without suspending
    pub fn try_recv(&mut self, channel: &mut Channel<T>) -> (r: RecvResult<T>)
        ensures
            r == try_recv_result(*old(channel)),
            try_recv_post(*old(channel), *final(channel)),
    {
        match channel.try_consume_value() {
            Some(value) => {
                channel.tx_waiter.close(());
                Ok(value)
            },
            None => Err(RecvError::new(channel.tx_waiter.is_closed())),
        }
    }

    /// Close the channel, preventing a later call to `send` from succeeding
    pub fn close(&mut self, channel: &mut Channel<T>)
        ensures
            closed_both(*old(channel), *final(channel)),
    {
        channel.close();
    }

    /// Give up the receiving end: the sending side is closed and a value
    /// that was already sent is discarded
    pub fn drop_handle(self, channel: &mut Channel<T>)
        ensures
            drop_receiver_post(*old(channel), *final(channel)),
    {
        channel.tx_waiter.close(());
        let _ = channel.try_consume_value();
    }
}

/// The sender of a oneshot channel
pub struct Sender<T> {
    phantom: std::marker::PhantomData<T>,
}

impl<T> Sender<T> {
    /// Send a value. If the receiver is gone, the value is handed back as
    /// `Err(value)`
    pub fn send(self, channel: &mut Channel<T>, value: T) -> (r: Result<(), T>)
        ensures
            r == send_result(*old(channel), value),
            send_post(*old(channel), *final(channel), value),
    {
        channel.value = Some(value);
        channel.rx_waiter.close(());
        if !channel.tx_waiter.is_closed() {
            return Ok(());
        }
        match channel.try_consume_value() {
            None => Ok(()),
            Some(value) => Err(value),
        }
    }

    /// Check if the receiving end is gone
    #[must_use]
    pub fn is_closed(&self, channel: &Channel<T>) -> (r: bool)
        ensures
            r == channel.tx_closed(),
    {
        channel.tx_waiter.is_closed()
    }

    /// Give up the sending end without sending: both sides are closed
    pub fn drop_handle(self, channel: &mut Channel<T>)
        ensures
            closed_both(*old(channel), *final(channel)),
    {
        channel.close();
    }
}

/// Create a oneshot channel: the two ends and their shared state
#[must_use]
pub fn channel<T>() -> (r: (Sender<T>, Receiver<T>, Channel<T>))
    ensures
        r.2.stored() is None,
        r.2.tx().slot() == WaiterSlot::Empty,
        r.2.rx().slot() == WaiterSlot::Empty,
{
    (
        Sender { phantom: std::marker::PhantomData },
        Receiver { phantom: std::marker::PhantomData },
        Channel::new(),
    )
}

/// If the sender is dropped before a value is sent, the receiver gets
/// `Closed`
pub proof fn law_sender_dropped_then_recv_closed<T>(c0: Channel<T>, c1: Channel<T>)
    requires
        c0.stored() is None,
        closed_both(c0, c1),
    ensures
        try_recv_result(c1) == Err::<T, RecvError>(RecvError::Closed),
{
}

/// If the receiver is dropped before a value is sent, sending fails and
/// hands the value back
pub proof fn law_receiver_dropped_then_send_fails<T>(c0: Channel<T>, c1: Channel<T>, value: T)
    requires
        drop_receiver_post(c0, c1),
    ensures
        send_result(c1, value) == Err::<(), T>(value),
{
}

/// A value sent while the receiver is still open is received by a later
/// `try_recv`, even after the receiver closed the channel
pub proof fn law_send_then_close_then_recv<T>(
    c0: Channel<T>,
    c1: Channel<T>,
    c2: Channel<T>,
    value: T,
)
    requires
        !c0.tx_closed(),
        send_post(c0, c1, value),
        closed_both(c1, c2),
    ensures
        send_result(c0, value) == Ok::<(), T>(()),
        try_recv_result(c2) == Ok::<T, RecvError>(value),
{
}

/// Once the receiver closed the channel, a later send hands the value back
/// and the receiver sees `Closed`: the value is never lost
pub proof fn law_close_then_send_returns_value<T>(
    c0: Channel<T>,
    c1: Channel<T>,
    c2: Channel<T>,
    value: T,
)
    requires
        closed_both(c0, c1),
        send_post(c1, c2, value),
    ensures
        send_result(c1, value) == Err::<(), T>(value),
        try_recv_result(c2) is Err,
        c0.stored() is None ==> try_recv_result(c2) == Err::<T, RecvError>(RecvError::Closed),
{
}

} // verus!
