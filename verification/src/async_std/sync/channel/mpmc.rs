//! A multi-producer, multi-consumer queue for sending many messages between
//! many async tasks.
//!
//! Create a channel with [`bounded`]: it returns a [`Sender`], a
//! [`Receiver`] and the shared [`MCChannel`] both act on. When every sender
//! has been dropped and the remaining messages have been received, receiving
//! gives [`RecvError::Closed`]; when every receiver has been dropped, sending
//! gives [`SendError::Closed`].

use vstd::prelude::*;
use std::marker::PhantomData;
use vstd::arithmetic::power2::pow2;
use super::error::{RecvError, RecvResult, SendError, SendResult};
use super::mp::{is_next_pow2, MCChannel};

verus! {

/// What a send on a channel in state `c` returns
pub open spec fn send_result<T>(c: MCChannel<T>, value: T) -> SendResult<T> {
    if c.tx_list().is_closed_spec() {
        Err(SendError::Closed(value))
    } else if c.queue().len() == c.capacity() {
        Err(SendError::Full(value))
    } else {
        Ok(())
    }
}

/// The queue after a send on a channel in state `c`
pub open spec fn queue_after_send<T>(c: MCChannel<T>, value: T) -> Seq<T> {
    if send_result(c, value) is Ok {
        c.queue().push(value)
    } else {
        c.queue()
    }
}

/// What a receive on a channel in state `c` returns
pub open spec fn recv_result<T>(c: MCChannel<T>) -> RecvResult<T> {
    if c.queue().len() > 0 {
        Ok(c.queue()[0])
    } else if c.rx_list().is_closed_spec() {
        Err(RecvError::Closed)
    } else {
        Err(RecvError::Empty)
    }
}

/// The queue after a receive on a channel in state `c`
pub open spec fn queue_after_recv<T>(c: MCChannel<T>) -> Seq<T> {
    if c.queue().len() > 0 {
        c.queue().drop_first()
    } else {
        c.queue()
    }
}

/// The receiver of a channel
pub struct Receiver<T> {
    phantom: PhantomData<T>,
}

impl<T> Receiver<T> {
    /// A new receiver of `channel`
    pub fn new(channel: &mut MCChannel<T>) -> (r: Self)
        ensures
            final(channel).receivers() == old(channel).receivers().wrapping_add(1),
            final(channel).senders() == old(channel).senders(),
            final(channel).capacity() == old(channel).capacity(),
            final(channel).head_pos() == old(channel).head_pos(),
            final(channel).queue() == old(channel).queue(),
            old(channel).wf() ==> final(channel).wf(),
            final(channel).tx_list() == old(channel).tx_list(),
            final(channel).rx_list() == old(channel).rx_list(),
    {
        channel.new_receiver();
        Receiver { phantom: PhantomData }
    }

    /// Attempt to receive a value without suspending: the oldest value, or
    /// `Closed` once the receiving side is closed, else `Empty`
    pub fn try_recv(&self, channel: &mut MCChannel<T>) -> (r: RecvResult<T>)
        requires
            old(channel).wf(),
            old(channel).head_pos() + old(channel).capacity() + 1 < usize::MAX,
        ensures
            final(channel).wf(),
            r == recv_result(*old(channel)),
            final(channel).queue() == queue_after_recv(*old(channel)),
            final(channel).capacity() == old(channel).capacity(),
            final(channel).rx_list() == old(channel).rx_list(),
            final(channel).senders() == old(channel).senders(),
            final(channel).receivers() == old(channel).receivers(),
    {
        match channel.try_recv() {
            Some(value) => Ok(value),
            None => Err(RecvError::new(channel.is_recv_closed())),
        }
    }

    /// The number of values in the channel
    pub fn len(&self, channel: &MCChannel<T>) -> (n: usize)
        requires
            channel.wf(),
        ensures
            n == channel.queue().len(),
    {
        channel.len()
    }

    /// Returns `true` if the channel is empty
    pub fn is_empty(&self, channel: &MCChannel<T>) -> (b: bool)
        requires
            channel.wf(),
        ensures
            b == (channel.queue().len() == 0),
    {
        self.len(channel) == 0
    }

    /// Close the channel to senders; the values in it can still be received
    pub fn close(&self, channel: &mut MCChannel<T>)
        ensures
            final(channel).tx_list().is_closed_spec(),
            final(channel).rx_list() == old(channel).rx_list(),
            final(channel).queue() == old(channel).queue(),
            old(channel).wf() ==> final(channel).wf(),
    {
        channel.close_send();
    }

    /// Drop this receiver; the last one closes the channel to senders
    pub fn drop_handle(self, channel: &mut MCChannel<T>)
        ensures
            final(channel).receivers() == old(channel).receivers().wrapping_sub(1),
            final(channel).queue() == old(channel).queue(),
            old(channel).wf() ==> final(channel).wf(),
            old(channel).receivers() == 1 ==> final(channel).tx_list().is_closed_spec(),
    {
        channel.drop_receiver();
    }
}

/// The sender of a channel
pub struct Sender<T> {
    phantom: PhantomData<T>,
}

impl<T> Sender<T> {
    /// A new sender of `channel`
    pub fn new(channel: &mut MCChannel<T>) -> (s: Self)
        ensures
            final(channel).senders() == old(channel).senders().wrapping_add(1),
            final(channel).receivers() == old(channel).receivers(),
            final(channel).capacity() == old(channel).capacity(),
            final(channel).head_pos() == old(channel).head_pos(),
            final(channel).queue() == old(channel).queue(),
            old(channel).wf() ==> final(channel).wf(),
            final(channel).tx_list() == old(channel).tx_list(),
            final(channel).rx_list() == old(channel).rx_list(),
    {
        channel.new_sender();
        Sender { phantom: PhantomData }
    }

    /// Attempt to send a value without suspending: `Closed` once the sending
    /// side is closed, `Full` when there is no room; the value is handed
    /// back on failure.
    pub fn try_send(&self, channel: &mut MCChannel<T>, value: T) -> (r: SendResult<T>)
        requires
            old(channel).wf(),
        ensures
            final(channel).wf(),
            r == send_result(*old(channel), value),
            final(channel).queue() == queue_after_send(*old(channel), value),
            final(channel).capacity() == old(channel).capacity(),
            final(channel).tx_list() == old(channel).tx_list(),
            final(channel).senders() == old(channel).senders(),
            final(channel).receivers() == old(channel).receivers(),
    {
        proof {
            old(channel).lemma_queue_bound();
        }
        if self.is_closed(channel) {
            return Err(SendError::Closed(value));
        }
        match channel.try_send(value) {
            Ok(()) => Ok(()),
            Err(value) => Err(SendError::new(value, channel.is_send_closed())),
        }
    }

    /// The room left in the channel
    pub fn spare_capacity(&self, channel: &MCChannel<T>) -> (n: usize)
        requires
            channel.wf(),
        ensures
            n == channel.capacity() - channel.queue().len(),
    {
        channel.spare_capacity()
    }

    /// Returns `true` if the channel is full
    pub fn is_full(&self, channel: &MCChannel<T>) -> (b: bool)
        requires
            channel.wf(),
        ensures
            b == (channel.queue().len() == channel.capacity()),
    {
        self.spare_capacity(channel) == 0
    }

    /// Returns `true` if the channel is closed to senders
    pub fn is_closed(&self, channel: &MCChannel<T>) -> (b: bool)
        ensures
            b == channel.tx_list().is_closed_spec(),
    {
        channel.is_send_closed()
    }

    /// Drop this sender; the last one closes the channel to receivers
    pub fn drop_handle(self, channel: &mut MCChannel<T>)
        ensures
            final(channel).senders() == old(channel).senders().wrapping_sub(1),
            final(channel).queue() == old(channel).queue(),
            old(channel).wf() ==> final(channel).wf(),
            old(channel).senders() == 1 ==> final(channel).rx_list().is_closed_spec(),
    {
        channel.drop_sender();
    }
}

/// Create a channel with room for `size` values, rounded up to a power of
/// two, with one sender and one receiver. The size must not be zero, and
/// its rounding must fit in a `usize`.
pub fn bounded<T>(size: usize) -> (r: (Sender<T>, Receiver<T>, MCChannel<T>))
    requires
        size != 0,
        exists|e: nat| e < usize::BITS && pow2(e) >= size,
    ensures
        r.2.wf(),
        is_next_pow2(size as nat, r.2.capacity()),
        r.2.queue() == Seq::<T>::empty(),
        r.2.head_pos() == 0,
        r.2.senders() == 1,
        r.2.receivers() == 1,
        !r.2.tx_list().is_closed_spec(),
        !r.2.rx_list().is_closed_spec(),
{
    let mut channel = MCChannel::new(size);
    let tx = Sender::new(&mut channel);
    let rx = Receiver::new(&mut channel);
    (tx, rx, channel)
}

/// What is sent is received in the order it was sent: on an empty open
/// channel with room for two values, sending `a` then `b` and receiving
/// twice gives `a` then `b`
pub proof fn law_fifo<T>(
    c0: MCChannel<T>,
    c1: MCChannel<T>,
    c2: MCChannel<T>,
    c3: MCChannel<T>,
    a: T,
    b: T,
)
    requires
        c0.queue().len() == 0,
        c0.capacity() >= 2,
        !c0.tx_list().is_closed_spec(),
        c1.queue() == queue_after_send(c0, a),
        c1.capacity() == c0.capacity(),
        c1.tx_list() == c0.tx_list(),
        c2.queue() == queue_after_send(c1, b),
        c3.queue() == queue_after_recv(c2),
    ensures
        send_result(c0, a) is Ok,
        send_result(c1, b) is Ok,
        recv_result(c2) == Ok::<T, RecvError>(a),
        recv_result(c3) == Ok::<T, RecvError>(b),
{
    assert(c1.queue() =~= seq![a]);
    assert(c2.queue() =~= seq![a, b]);
    assert(c3.queue() =~= seq![b]);
}

/// A run of the channel: `ops[i]` is a send of the value it holds, or a
/// receive where it holds none, and takes the channel from `cs[i]` to `cs[i + 1]`
pub open spec fn is_run<T>(cs: Seq<MCChannel<T>>, ops: Seq<Option<T>>) -> bool {
    &&& cs.len() == ops.len() + 1
    &&& forall|i: int|
        0 <= i < ops.len() ==> (#[trigger] cs[i + 1]).queue() == match ops[i] {
            Some(v) => queue_after_send(cs[i], v),
            None => queue_after_recv(cs[i]),
        }
}

/// The values that the first `n` steps of a run received, in order
pub open spec fn received<T>(cs: Seq<MCChannel<T>>, ops: Seq<Option<T>>, n: int) -> Seq<T>
    decreases n,
{
    if n <= 0 {
        Seq::empty()
    } else {
        let prev = received(cs, ops, n - 1);
        match ops[n - 1] {
            None => match recv_result(cs[n - 1]) {
                Ok(v) => prev.push(v),
                Err(_) => prev,
            },
            Some(_) => prev,
        }
    }
}

/// The values that the first `n` steps of a run sent and the channel took,
/// in order
pub open spec fn accepted<T>(cs: Seq<MCChannel<T>>, ops: Seq<Option<T>>, n: int) -> Seq<T>
    decreases n,
{
    if n <= 0 {
        Seq::empty()
    } else {
        let prev = accepted(cs, ops, n - 1);
        match ops[n - 1] {
            Some(v) => if send_result(cs[n - 1], v) is Ok {
                prev.push(v)
            } else {
                prev
            },
            None => prev,
        }
    }
}

/// The first `n` steps of a run keep what was received, followed by what
/// is queued, equal to what was queued at the start followed by what was taken
pub proof fn lemma_fifo_steps<T>(cs: Seq<MCChannel<T>>, ops: Seq<Option<T>>, n: int)
    requires
        is_run(cs, ops),
        0 <= n <= ops.len(),
    ensures
        received(cs, ops, n) + cs[n].queue() == cs[0].queue() + accepted(cs, ops, n),
    decreases n,
{
    if n == 0 {
        assert(received(cs, ops, 0) + cs[0].queue() =~= cs[0].queue() + accepted(cs, ops, 0));
    } else {
        let m = n - 1;
        lemma_fifo_steps(cs, ops, m);
        let r = received(cs, ops, m);
        let a = accepted(cs, ops, m);
        let q = cs[m].queue();
        assert(cs[m + 1].queue() == match ops[m] {
            Some(v) => queue_after_send(cs[m], v),
            None => queue_after_recv(cs[m]),
        });
        match ops[m] {
            Some(v) => {
                if send_result(cs[m], v) is Ok {
                    assert(r + q.push(v) =~= (r + q).push(v));
                    assert((cs[0].queue() + a).push(v) =~= cs[0].queue() + a.push(v));
                }
            },
            None => {
                if q.len() > 0 {
                    assert(r.push(q[0]) + q.drop_first() =~= r + q);
                }
            },
        }
    }
}

/// First in, first out, over any run of sends and receives: what was
/// received, followed by what is still queued, is what was queued at the
/// start followed by every value the channel took, in the order sent; no
/// value is lost, duplicated or reordered
pub proof fn law_fifo_run<T>(cs: Seq<MCChannel<T>>, ops: Seq<Option<T>>)
    requires
        is_run(cs, ops),
    ensures
        received(cs, ops, ops.len() as int) + cs.last().queue() == cs[0].queue() + accepted(
            cs,
            ops,
            ops.len() as int,
        ),
{
    lemma_fifo_steps(cs, ops, ops.len() as int);
}

/// A send on a closed channel hands the value back and leaves the queue
/// as it was
pub proof fn law_send_after_close_fails<T>(c: MCChannel<T>, value: T)
    requires
        c.tx_list().is_closed_spec(),
    ensures
        send_result(c, value) == Err::<(), SendError<T>>(SendError::Closed(value)),
        queue_after_send(c, value) == c.queue(),
{
}

} // verus!
