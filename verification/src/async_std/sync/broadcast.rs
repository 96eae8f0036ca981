//! A multi-producer, multi-consumer broadcast. Each sent value is seen by all
//! receivers subscribed at the time it is sent.
//!
//! If the senders send faster than a receiver receives, that receiver lags:
//! it gets a [`RecvError::Lagged`] error with the number of messages it
//! missed, and then continues from the oldest message still in the channel.
//!
//! The shared state is the [`Channel`] value; senders and receivers act on it.

use vstd::prelude::*;
use crate::async_std::sync::channel::mp::{is_next_pow2, is_usize_pow2, lemma_mod_distinct, lemma_pow2_positive,
    checked_next_power_of_two_of, slot_index};
use crate::async_std::sync::wait_list::{closed_list, woken_every, ThreadSafeWaitList};
use vstd::arithmetic::power2::pow2;

verus! {

struct Slot<T> {
    sequence: usize,
    remaining: usize,
    data: Option<T>,
}

/// The state shared by the senders and receivers of a broadcast channel
pub struct Channel<T> {
    tail: usize,
    slots: Vec<Slot<T>>,
    tx_count: usize,
    rx_count: usize,
    rx_waiters: ThreadSafeWaitList<()>,
}

/// The error returned from a call to `recv`
#[derive(Clone, Copy, Debug, PartialEq, Eq, Structural)]
pub enum RecvError {
    /// The channel is currently empty
    Empty,
    /// The channel is closed
    Closed,
    /// The receiver lagged and lost this many messages
    Lagged(usize),
}

/// The error returned from a call to `send`: there are no receivers
#[derive(Debug, PartialEq, Eq)]
pub struct SendError<T>(pub T);

pub type RecvResult<T> = Result<T, RecvError>;

pub type SendResult<T> = Result<(), SendError<T>>;

impl<T> Channel<T> {
    pub closed spec fn capacity(&self) -> nat {
        self.slots@.len()
    }

    /// Position of the next value to send
    pub closed spec fn tail_pos(&self) -> nat {
        self.tail as nat
    }

    /// Sequence number of the slot that holds position `pos`: one past the
    /// last position written to it, or its index if it was never written
    pub closed spec fn sequence_at(&self, pos: int) -> int {
        self.slots@[pos % (self.slots@.len() as int)].sequence as int
    }

    /// Receivers that still have to read the slot of position `pos`
    pub closed spec fn remaining_at(&self, pos: int) -> int {
        self.slots@[pos % (self.slots@.len() as int)].remaining as int
    }

    /// The value in the slot of position `pos`
    pub closed spec fn data_at(&self, pos: int) -> Option<T> {
        self.slots@[pos % (self.slots@.len() as int)].data
    }

    pub closed spec fn senders(&self) -> usize {
        self.tx_count
    }

    pub closed spec fn receivers(&self) -> usize {
        self.rx_count
    }

    pub closed spec fn rx_list(&self) -> ThreadSafeWaitList<()> {
        self.rx_waiters
    }

    /// Every slot records the last position written to it (within the last
    /// lap), and holds a value exactly while some receiver still has to read it
    pub closed spec fn wf(&self) -> bool {
        let cap = self.slots@.len() as int;
        &&& is_usize_pow2(cap as nat)
        &&& self.tail + cap < usize::MAX
        &&& forall|i: int|
            #![trigger self.slots@[i]]
            0 <= i < cap ==> {
                let s = self.slots@[i].sequence as int;
                &&& (self.tail <= i && s == i) || (i < self.tail && 1 <= s <= self.tail
                    && self.tail <= s - 1 + cap && (s - 1) % cap == i)
                &&& (self.slots@[i].data is Some <==> self.slots@[i].remaining > 0)
            }
    }

    /// The ring law: of the positions, those not sent yet (from the tail on)
    /// hold no message for them; the last `capacity` positions sent are
    /// held, each with a value exactly while some receiver has still to read
    /// it; and any position before those was overwritten by a later lap
    pub proof fn lemma_ring(&self, p: int)
        requires
            self.wf(),
            0 <= p,
        ensures
            self.capacity() > 0,
            p >= self.tail_pos() ==> self.sequence_at(p) < p + 1,
            self.tail_pos() - self.capacity() <= p < self.tail_pos() ==> self.sequence_at(p) == p + 1,
            p < self.tail_pos() - self.capacity() ==> self.sequence_at(p) > p + 1,
            self.data_at(p) is Some <==> self.remaining_at(p) > 0,
    {
        let cap = self.slots@.len() as int;
        lemma_pow2_positive(cap as nat);
        let i = p % cap;
        vstd::arithmetic::div_mod::lemma_mod_bound(p, cap);
        vstd::arithmetic::div_mod::lemma_mod_decreases(p as nat, cap as nat);
        assert(0 <= i < cap);
        let slot = self.slots@[i];
        let sq = slot.sequence as int;
        let t = self.tail as int;
        if t - cap <= p < t {
            assert(i < t);
            let q = sq - 1;
            assert((q) % cap == i);
            if q < p {
                lemma_mod_distinct(q, p, cap);
            } else if q > p {
                lemma_mod_distinct(p, q, cap);
            }
        }
    }

    #[verifier::rlimit(20)]
    fn new(size: usize) -> (r: Self)
        requires
            size != 0,
            exists|e: nat| e < usize::BITS && pow2(e) >= size,
        ensures
            r.wf(),
            r.tail_pos() == 0,
            is_next_pow2(size as nat, r.capacity()),
            r.senders() == 0,
            r.receivers() == 0,
            r.rx_list().is_fresh(),
            forall|p: int| 0 <= p ==> #[trigger] r.data_at(p) is None,
    {
        let size = checked_next_power_of_two_of(size);
        let mut slots: Vec<Slot<T>> = Vec::new();
        let mut i: usize = 0;
        while i < size
            invariant
                i <= size,
                slots@.len() == i,
                forall|j: int|
                    0 <= j < i ==> #[trigger] slots@[j].sequence == j && slots@[j].remaining == 0
                        && slots@[j].data is None,
            decreases size - i,
        {
            slots.push(Slot { sequence: i, remaining: 0, data: None });
            i = i + 1;
        }
        let r = Self {
            tail: 0,
            slots,
            tx_count: 0,
            rx_count: 0,
            rx_waiters: ThreadSafeWaitList::new(),
        };
        proof {
            let e = choose|e: nat| e < usize::BITS && pow2(e) == size as nat;
            vstd::bits::lemma_usize_pow2_no_overflow(e);
            assert forall|i: int|
                #![trigger r.slots@[i]]
                0 <= i < size implies {
                let s = r.slots@[i].sequence as int;
                &&& (r.tail <= i && s == i) || (i < r.tail && 1 <= s <= r.tail && r.tail <= s - 1
                    + size && (s - 1) % (size as int) == i)
                &&& (r.slots@[i].data is Some <==> r.slots@[i].remaining > 0)
            } by {
                assert(r.slots@[i].sequence == i);
            }
            assert forall|p: int| 0 <= p implies #[trigger] r.data_at(p) is None by {
                lemma_pow2_positive(size as nat);
                vstd::arithmetic::div_mod::lemma_mod_bound(p, size as int);
                assert(r.slots@[p % (size as int)].data is None);
            }
        }
        r
    }

    /// Discard every value still held (what dropping the channel does)
    pub fn drop_all(&mut self)
        requires
            old(self).wf(),
        ensures
            final(self).wf(),
            final(self).tail_pos() == old(self).tail_pos(),
            final(self).capacity() == old(self).capacity(),
            forall|p: int| 0 <= p ==> #[trigger] final(self).data_at(p) is None,
    {
        let n = self.slots.len();
        let mut i: usize = 0;
        while i < n
            invariant
                n == self.slots@.len(),
                n == old(self).slots@.len(),
                i <= n,
                self.tail == old(self).tail,
                forall|j: int|
                    0 <= j < n ==> #[trigger] self.slots@[j].sequence == old(self).slots@[j].sequence,
                forall|j: int| 0 <= j < i ==> #[trigger] self.slots@[j].remaining == 0
                    && self.slots@[j].data is None,
                forall|j: int| i <= j < n ==> #[trigger] self.slots@[j] == old(self).slots@[j],
            decreases n - i,
        {
            let mut slot = Slot { sequence: 0, remaining: 0, data: None };
            self.slots.set_and_swap(i, &mut slot);
            let seq = slot.sequence;
            let mut fixed = Slot { sequence: seq, remaining: 0, data: None };
            self.slots.set_and_swap(i, &mut fixed);
            i = i + 1;
        }
        proof {
            let cap = n as int;
            assert forall|j: int|
                #![trigger self.slots@[j]]
                0 <= j < cap implies {
                let s = self.slots@[j].sequence as int;
                &&& (self.tail <= j && s == j) || (j < self.tail && 1 <= s <= self.tail && self.tail
                    <= s - 1 + cap && (s - 1) % cap == j)
                &&& (self.slots@[j].data is Some <==> self.slots@[j].remaining > 0)
            } by {
                assert(old(self).slots@[j].sequence == self.slots@[j].sequence);
            }
            assert forall|p: int| 0 <= p implies #[trigger] self.data_at(p) is None by {
                let j = p % cap;
                lemma_pow2_positive(cap as nat);
                vstd::arithmetic::div_mod::lemma_mod_bound(p, cap);
                assert(self.slots@[j].remaining == 0);
                assert(self.slots@[j].data is None);
            }
        }
    }
}

/// The receiving end of a broadcast channel: the position of the next value
/// it reads
pub struct Receiver<T> {
    pos: usize,
    phantom: std::marker::PhantomData<T>,
}

impl<T> Receiver<T> {
    pub closed spec fn position(&self) -> nat {
        self.pos as nat
    }

    /// Subscribe to `channel`: receive the values sent from now on
    fn new(channel: &mut Channel<T>) -> (r: Self)
        ensures
            r.position() == old(channel).tail_pos(),
            subscribed(*old(channel), *final(channel)),
    {
        channel.rx_count = channel.rx_count.wrapping_add(1);
        let tail = channel.tail;
        Self { pos: tail, phantom: std::marker::PhantomData }
    }

    /// Create a new receiver that will receive messages sent after this call
    #[must_use]
    pub fn resubscribe(&self, channel: &mut Channel<T>) -> (r: Self)
        ensures
            r.position() == old(channel).tail_pos(),
            subscribed(*old(channel), *final(channel)),
    {
        Self::new(channel)
    }

    /// Reset this receiver to receive messages sent after this call
    pub fn synchronize(&mut self, channel: &Channel<T>)
        ensures
            final(self).position() == channel.tail_pos(),
    {
        self.pos = channel.tail;
    }

    /// Attempt to receive a value without suspending.
    ///
    /// The receiver must be one of the channel's subscribers: its position is
    /// at most the tail, and a value it has not read yet is still held.
    pub fn try_recv(&mut self, channel: &mut Channel<T>) -> (r: RecvResult<T>)
        where
            T: Clone,
        requires
            old(channel).wf(),
            old(self).position() <= old(channel).tail_pos(),
            old(channel).sequence_at(old(self).position() as int) == old(self).position() + 1
                ==> old(channel).remaining_at(old(self).position() as int) > 0,
        ensures
            final(channel).wf(),
            final(self).position() <= final(channel).tail_pos(),
            recv_post(*old(self), *old(channel), *final(self), *final(channel), r),
    {
        let ghost cap = channel.slots@.len() as int;
        let ghost pos0 = self.pos as int;
        let idx = slot_index(self.pos, channel.slots.len());
        let sequence = channel.slots[idx].sequence;
        let next = self.pos + 1;
        if sequence == next {
            proof {
                let s = channel.slots@[idx as int].sequence as int;
                vstd::arithmetic::div_mod::lemma_mod_decreases(pos0 as nat, cap as nat);
                assert(s <= channel.tail);
            }
            self.pos = next;
            let remaining = channel.slots[idx].remaining;
            if remaining == 1 {
                let mut slot = Slot { sequence, remaining: 0, data: None };
                channel.slots.set_and_swap(idx, &mut slot);
                proof {
                    assert(channel.slots@[idx as int] == Slot::<T> { sequence, remaining: 0, data: None });
                    Self::lemma_slot_update_wf(*old(channel), *channel, idx as int);
                }
                match slot.data {
                    Some(v) => Ok(v),
                    None => {
                        proof {
                            assert(false);
                        }
                        Err(RecvError::Empty)
                    },
                }
            } else {
                let value = match &channel.slots[idx].data {
                    Some(v) => v.clone(),
                    None => {
                        proof {
                            assert(false);
                        }
                        return Err(RecvError::Empty);
                    },
                };
                let mut slot = Slot { sequence: 0, remaining: 0, data: None };
                channel.slots.set_and_swap(idx, &mut slot);
                let mut updated = Slot {
                    sequence: slot.sequence,
                    remaining: slot.remaining.wrapping_sub(1),
                    data: slot.data,
                };
                channel.slots.set_and_swap(idx, &mut updated);
                proof {
                    Self::lemma_slot_update_wf(*old(channel), *channel, idx as int);
                }
                Ok(value)
            }
        } else if sequence < next {
            if channel.rx_waiters.is_closed() {
                Err(RecvError::Closed)
            } else {
                Err(RecvError::Empty)
            }
        } else {
            proof {
                assert(channel.slots@[idx as int].sequence > pos0 + 1);
                let s = channel.slots@[idx as int].sequence as int;
                assert(idx == pos0 % cap);
                assert(!(channel.tail <= idx && s == idx)) by {
                    vstd::arithmetic::div_mod::lemma_mod_bound(pos0, cap);
                    assert(pos0 % cap <= pos0) by {
                        vstd::arithmetic::div_mod::lemma_mod_decreases(pos0 as nat, cap as nat);
                    }
                }
                assert((s - 1) % cap == pos0 % cap);
                if s - 1 < pos0 + cap {
                    lemma_mod_distinct(pos0, s - 1, cap);
                }
                assert(channel.tail >= pos0 + cap + 1);
            }
            let head = channel.tail - channel.slots.len();
            let missed = head - self.pos;
            self.pos = head;
            Err(RecvError::Lagged(missed))
        }
    }

    proof fn lemma_slot_update_wf(before: Channel<T>, after: Channel<T>, idx: int)
        requires
            before.wf(),
            0 <= idx < before.slots@.len(),
            after.tail == before.tail,
            after.slots@.len() == before.slots@.len(),
            forall|j: int| 0 <= j < before.slots@.len() && j != idx ==> #[trigger] after.slots@[j] == before.slots@[j],
            after.slots@[idx].sequence == before.slots@[idx].sequence,
            after.slots@[idx].data is Some <==> after.slots@[idx].remaining > 0,
        ensures
            after.wf(),
    {
        let cap = before.slots@.len() as int;
        assert forall|i: int|
            #![trigger after.slots@[i]]
            0 <= i < cap implies {
            let s = after.slots@[i].sequence as int;
            &&& (after.tail <= i && s == i) || (i < after.tail && 1 <= s <= after.tail && after.tail
                <= s - 1 + cap && (s - 1) % cap == i)
            &&& (after.slots@[i].data is Some <==> after.slots@[i].remaining > 0)
        } by {
            assert(before.slots@[i].sequence == after.slots@[i].sequence);
        }
    }

    /// Give up this receiver
    pub fn drop_handle(self, channel: &mut Channel<T>)
        ensures
            final(channel).receivers() == old(channel).receivers().wrapping_sub(1),
            final(channel).senders() == old(channel).senders(),
            final(channel).rx_list() == old(channel).rx_list(),
            old(channel).wf() ==> final(channel).wf(),
            final(channel).tail_pos() == old(channel).tail_pos(),
            final(channel).capacity() == old(channel).capacity(),
            forall|p: int| #[trigger] final(channel).sequence_at(p) == old(channel).sequence_at(p),
            forall|p: int| #[trigger] final(channel).remaining_at(p) == old(channel).remaining_at(p),
            forall|p: int| #[trigger] final(channel).data_at(p) == old(channel).data_at(p),
    {
        channel.rx_count = channel.rx_count.wrapping_sub(1);
        proof {
            if old(channel).wf() {
                let cap = channel.slots@.len() as int;
                assert forall|i: int|
                    #![trigger channel.slots@[i]]
                    0 <= i < cap implies {
                    let s = channel.slots@[i].sequence as int;
                    &&& (channel.tail <= i && s == i) || (i < channel.tail && 1 <= s <= channel.tail
                        && channel.tail <= s - 1 + cap && (s - 1) % cap == i)
                    &&& (channel.slots@[i].data is Some <==> channel.slots@[i].remaining > 0)
                } by {
                    assert(old(channel).slots@[i] == channel.slots@[i]);
                }
            }
        }
    }
}

/// One more receiver is subscribed; nothing else changes
pub open spec fn subscribed<T>(before: Channel<T>, after: Channel<T>) -> bool {
    &&& after.receivers() == before.receivers().wrapping_add(1)
    &&& after.senders() == before.senders()
    &&& after.tail_pos() == before.tail_pos()
    &&& after.capacity() == before.capacity()
    &&& forall|p: int| #[trigger] after.sequence_at(p) == before.sequence_at(p)
    &&& forall|p: int| #[trigger] after.remaining_at(p) == before.remaining_at(p)
    &&& forall|p: int| #[trigger] after.data_at(p) == before.data_at(p)
    &&& after.rx_list() == before.rx_list()
    &&& before.wf() ==> after.wf()
}

/// The outcome of `try_recv` for a receiver at `rx.position()` on `ch`
pub open spec fn recv_post<T: Clone>(
    rx: Receiver<T>,
    ch: Channel<T>,
    rx2: Receiver<T>,
    ch2: Channel<T>,
    r: RecvResult<T>,
) -> bool {
    let pos = rx.position() as int;
    let seq = ch.sequence_at(pos);
    &&& ch2.tail_pos() == ch.tail_pos()
    &&& ch2.capacity() == ch.capacity()
    &&& ch2.senders() == ch.senders()
    &&& ch2.receivers() == ch.receivers()
    &&& ch2.rx_list() == ch.rx_list()
    &&& if seq == pos + 1 {
        // the value at `pos` is there: read it
        &&& rx2.position() == pos + 1
        &&& r is Ok
        &&& ch2.sequence_at(pos) == seq
        &&& ch2.remaining_at(pos) == ch.remaining_at(pos) - 1
        &&& if ch.remaining_at(pos) == 1 {
            r == Ok::<T, RecvError>(ch.data_at(pos)->Some_0) && ch2.data_at(pos) is None
        } else {
            cloned(ch.data_at(pos)->Some_0, r->Ok_0) && ch2.data_at(pos) == ch.data_at(pos)
        }
        &&& forall|q: int|
            0 <= q && q % (ch.capacity() as int) != pos % (ch.capacity() as int) ==> {
                &&& #[trigger] ch2.sequence_at(q) == ch.sequence_at(q)
                &&& ch2.remaining_at(q) == ch.remaining_at(q)
                &&& ch2.data_at(q) == ch.data_at(q)
            }
    } else {
        &&& forall|q: int|
            #![trigger ch2.sequence_at(q)]
            ch2.sequence_at(q) == ch.sequence_at(q) && ch2.remaining_at(q) == ch.remaining_at(q)
                && ch2.data_at(q) == ch.data_at(q)
        &&& if seq < pos + 1 {
            // nothing sent at `pos` yet
            &&& rx2.position() == pos
            &&& r == Err::<T, RecvError>(
                if ch.rx_list().is_closed_spec() { RecvError::Closed } else { RecvError::Empty },
            )
        } else {
            // `pos` was overwritten: skip to the oldest value still held
            &&& rx2.position() == ch.tail_pos() - ch.capacity()
            &&& r == Err::<T, RecvError>(
                RecvError::Lagged((ch.tail_pos() - ch.capacity() - pos) as usize),
            )
        }
    }
}

/// The sending end of a broadcast channel
pub struct Sender<T> {
    phantom: std::marker::PhantomData<T>,
}

impl<T> Sender<T> {
    fn new(channel: &mut Channel<T>) -> (r: Self)
        ensures
            final(channel).senders() == old(channel).senders().wrapping_add(1),
            final(channel).receivers() == old(channel).receivers(),
            final(channel).capacity() == old(channel).capacity(),
            final(channel).rx_list() == old(channel).rx_list(),
            final(channel).tail_pos() == old(channel).tail_pos(),
            forall|p: int| #[trigger] final(channel).data_at(p) == old(channel).data_at(p),
            old(channel).wf() ==> final(channel).wf(),
    {
        channel.tx_count = channel.tx_count.wrapping_add(1);
        proof {
            if old(channel).wf() {
                let cap = channel.slots@.len() as int;
                assert forall|i: int|
                    #![trigger channel.slots@[i]]
                    0 <= i < cap implies {
                    let s = channel.slots@[i].sequence as int;
                    &&& (channel.tail <= i && s == i) || (i < channel.tail && 1 <= s <= channel.tail
                        && channel.tail <= s - 1 + cap && (s - 1) % cap == i)
                    &&& (channel.slots@[i].data is Some <==> channel.slots@[i].remaining > 0)
                } by {
                    assert(old(channel).slots@[i] == channel.slots@[i]);
                }
            }
        }
        Self { phantom: std::marker::PhantomData }
    }

    /// Send a value to every subscribed receiver. With no receivers the value
    /// is handed back; the position is used up either way, and the value the
    /// slot held a lap ago is discarded.
    pub fn send(&self, channel: &mut Channel<T>, value: T) -> (r: SendResult<T>)
        requires
            old(channel).wf(),
            old(channel).tail_pos() + old(channel).capacity() + 1 < usize::MAX,
        ensures
            final(channel).wf(),
            send_post(*old(channel), *final(channel), value, r),
    {
        let ghost cap = channel.slots@.len() as int;
        let index = channel.tail;
        let receivers = channel.rx_count;
        let idx = slot_index(index, channel.slots.len());
        channel.tail = index + 1;
        let (data, refused) = if receivers == 0 { (None, Some(value)) } else { (Some(value), None) };
        let mut slot = Slot { sequence: index + 1, remaining: receivers, data };
        channel.slots.set_and_swap(idx, &mut slot);
        proof {
            let before = *old(channel);
            assert forall|i: int|
                #![trigger channel.slots@[i]]
                0 <= i < cap implies {
                let s = channel.slots@[i].sequence as int;
                &&& (channel.tail <= i && s == i) || (i < channel.tail && 1 <= s <= channel.tail
                    && channel.tail <= s - 1 + cap && (s - 1) % cap == i)
                &&& (channel.slots@[i].data is Some <==> channel.slots@[i].remaining > 0)
            } by {
                if i != idx {
                    assert(before.slots@[i] == channel.slots@[i]);
                    let s = before.slots@[i].sequence as int;
                    if i < before.tail {
                        if s - 1 + cap == index {
                            vstd::arithmetic::div_mod::lemma_mod_add_multiples_vanish(s - 1, cap);
                        }
                    } else {
                        if i == before.tail {
                            vstd::arithmetic::div_mod::lemma_small_mod(i as nat, cap as nat);
                        }
                    }
                } else {
                    assert(channel.slots@[i].sequence == index + 1);
                    vstd::arithmetic::div_mod::lemma_mod_decreases(index as nat, cap as nat);
                }
            }
            assert forall|q: int|
                0 <= q && q % cap != (index as int) % cap implies {
                &&& #[trigger] channel.sequence_at(q) == before.sequence_at(q)
                &&& channel.remaining_at(q) == before.remaining_at(q)
                &&& channel.data_at(q) == before.data_at(q)
            } by {
                vstd::arithmetic::div_mod::lemma_mod_bound(q, cap);
            }
        }
        if let Some(value) = refused {
            return Err(SendError(value));
        }
        channel.rx_waiters.wake_all(());
        Ok(())
    }

    /// Create a new receiver that receives messages sent after this call
    #[must_use]
    pub fn subscribe(&self, channel: &mut Channel<T>) -> (r: Receiver<T>)
        ensures
            r.position() == old(channel).tail_pos(),
            subscribed(*old(channel), *final(channel)),
    {
        Receiver::new(channel)
    }

    /// Give up this sender; when it was the last one the receivers' wait list
    /// is closed
    pub fn drop_handle(self, channel: &mut Channel<T>)
        ensures
            final(channel).senders() == old(channel).senders().wrapping_sub(1),
            final(channel).receivers() == old(channel).receivers(),
            final(channel).tail_pos() == old(channel).tail_pos(),
            old(channel).senders() == 1 ==> closed_list(old(channel).rx_list(), final(channel).rx_list()),
            old(channel).senders() != 1 ==> final(channel).rx_list() == old(channel).rx_list(),
            old(channel).wf() ==> final(channel).wf(),
            final(channel).capacity() == old(channel).capacity(),
            forall|p: int| #[trigger] final(channel).sequence_at(p) == old(channel).sequence_at(p),
            forall|p: int| #[trigger] final(channel).remaining_at(p) == old(channel).remaining_at(p),
            forall|p: int| #[trigger] final(channel).data_at(p) == old(channel).data_at(p),
    {
        let prev = channel.tx_count;
        channel.tx_count = channel.tx_count.wrapping_sub(1);
        if prev == 1 {
            channel.rx_waiters.close(());
        }
        proof {
            if old(channel).wf() {
                let cap = channel.slots@.len() as int;
                assert forall|i: int|
                    #![trigger channel.slots@[i]]
                    0 <= i < cap implies {
                    let s = channel.slots@[i].sequence as int;
                    &&& (channel.tail <= i && s == i) || (i < channel.tail && 1 <= s <= channel.tail
                        && channel.tail <= s - 1 + cap && (s - 1) % cap == i)
                    &&& (channel.slots@[i].data is Some <==> channel.slots@[i].remaining > 0)
                } by {
                    assert(old(channel).slots@[i] == channel.slots@[i]);
                }
            }
        }
    }
}

/// The outcome of `send` of `value` on `ch`
pub open spec fn send_post<T>(ch: Channel<T>, ch2: Channel<T>, value: T, r: SendResult<T>) -> bool {
    let index = ch.tail_pos() as int;
    let n = ch.receivers();
    &&& ch2.tail_pos() == index + 1
    &&& ch2.capacity() == ch.capacity()
    &&& ch2.senders() == ch.senders()
    &&& ch2.receivers() == ch.receivers()
    &&& ch2.sequence_at(index) == index + 1
    &&& ch2.remaining_at(index) == n
    &&& forall|q: int|
        0 <= q && q % (ch.capacity() as int) != index % (ch.capacity() as int) ==> {
            &&& #[trigger] ch2.sequence_at(q) == ch.sequence_at(q)
            &&& ch2.remaining_at(q) == ch.remaining_at(q)
            &&& ch2.data_at(q) == ch.data_at(q)
        }
    &&& if n == 0 {
        &&& r == Err::<(), SendError<T>>(SendError(value))
        &&& ch2.data_at(index) is None
        &&& ch2.rx_list() == ch.rx_list()
    } else {
        &&& r == Ok::<(), SendError<T>>(())
        &&& ch2.data_at(index) == Some(value)
        &&& woken_every(ch.rx_list(), ch2.rx_list(), ())
    }
}

/// Create a broadcast channel with room for `size` values (rounded up to a
/// power of two): a sender, a receiver, and their shared state.
/// The size must not be zero, and its rounding must not overflow.
#[must_use]
pub fn channel<T>(size: usize) -> (r: (Sender<T>, Receiver<T>, Channel<T>))
    requires
        size != 0,
        exists|e: nat| e < usize::BITS && pow2(e) >= size,
    ensures
        r.2.wf(),
        is_next_pow2(size as nat, r.2.capacity()),
        r.2.tail_pos() == 0,
        forall|p: int| 0 <= p ==> #[trigger] r.2.sequence_at(p) < p + 1 && r.2.data_at(p) is None,
        r.2.senders() == 1,
        r.2.receivers() == 1,
        r.1.position() == 0,
        !r.2.rx_list().is_closed_spec(),
{
    let mut channel = Channel::new(size);
    let tx = Sender::new(&mut channel);
    let rx = Receiver::new(&mut channel);
    proof {
        assert forall|p: int| 0 <= p implies #[trigger] channel.sequence_at(p) < p + 1 && channel.data_at(p) is None by {
            channel.lemma_ring(p);
        }
    }
    (tx, rx, channel)
}

/// A receiver that is up to date receives the value sent next
pub proof fn law_subscriber_receives_next_send<T: Clone>(
    ch0: Channel<T>,
    ch1: Channel<T>,
    rx: Receiver<T>,
    rx2: Receiver<T>,
    ch2: Channel<T>,
    value: T,
    sent: SendResult<T>,
    got: RecvResult<T>,
)
    requires
        ch0.wf(),
        ch0.receivers() > 0,
        rx.position() == ch0.tail_pos(),
        send_post(ch0, ch1, value, sent),
        recv_post(rx, ch1, rx2, ch2, got),
    ensures
        sent is Ok,
        got is Ok,
        cloned(value, got->Ok_0),
        rx2.position() == rx.position() + 1,
{
}

} // verus!
