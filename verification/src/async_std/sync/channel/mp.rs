//! A bounded multi-producer multi-consumer queue. Each slot carries a
//! sequence number that tells senders and receivers whether it is free or
//! holds a value for the current lap.

use vstd::prelude::*;
use vstd::arithmetic::power2::pow2;
use vstd::bits::{low_bits_mask, lemma_usize_low_bits_mask_is_mod};
use crate::async_std::sync::wait_list::{
    closed_list, woken_one, Progress, ThreadSafeWaitList, WaitResult,
};

verus! {

/// `n` is a power of two that fits in a `usize`
pub open spec fn is_usize_pow2(n: nat) -> bool {
    exists|e: nat| e < usize::BITS && pow2(e) == n
}

pub proof fn lemma_pow2_positive(n: nat)
    requires
        is_usize_pow2(n),
    ensures
        n > 0,
{
    let e = choose|e: nat| e < usize::BITS && pow2(e) == n;
    vstd::arithmetic::power2::lemma_pow2_pos(e);
}

/// The smallest power of two that is at least `n`
pub open spec fn is_next_pow2(n: nat, p: nat) -> bool {
    &&& exists|e: nat| pow2(e) == p
    &&& p >= n
    &&& forall|e: nat| pow2(e) >= n ==> pow2(e) >= p
}

/// The smallest power of two that is at least `n` (what
/// `usize::checked_next_power_of_two` gives), or `None` when it does not
/// fit in a `usize`
fn checked_next_power_of_two(n: usize) -> (r: Option<usize>)
    ensures
        r matches Some(p) ==> is_next_pow2(n as nat, p as nat) && is_usize_pow2(p as nat),
        r is None ==> forall|e: nat| e < usize::BITS ==> pow2(e) < n,
{
    let mut p: usize = 1;
    let ghost mut e0: nat = 0;
    proof {
        vstd::arithmetic::power2::lemma2_to64();
    }
    while p < n
        invariant
            p == pow2(e0),
            p > 0,
            e0 < usize::BITS,
            forall|e: nat| e < e0 ==> #[trigger] pow2(e) < n,
        decreases usize::MAX - p,
    {
        if p > usize::MAX / 2 {
            proof {
                assert forall|e: nat| e < usize::BITS implies pow2(e) < n by {
                    if e > e0 {
                        vstd::arithmetic::power2::lemma_pow2_unfold(e0 + 1);
                        if e > e0 + 1 {
                            vstd::arithmetic::power2::lemma_pow2_strictly_increases(e0 + 1, e);
                        }
                        vstd::bits::lemma_usize_pow2_no_overflow(e);
                    }
                }
            }
            return None;
        }
        proof {
            vstd::arithmetic::power2::lemma_pow2_unfold(e0 + 1);
            assert forall|e: nat| e < e0 + 1 implies #[trigger] pow2(e) < n by {
                if e < e0 {
                } else {
                    assert(e == e0);
                }
            }
        }
        p = p * 2;
        proof {
            e0 = e0 + 1;
            if e0 >= usize::BITS {
                vstd::arithmetic::power2::lemma2_to64();
                assert(pow2(usize::BITS as nat) == usize::MAX + 1);
                if e0 > usize::BITS {
                    vstd::arithmetic::power2::lemma_pow2_strictly_increases(usize::BITS as nat, e0);
                }
                assert(false);
            }
        }
    }
    proof {
        assert forall|e: nat| pow2(e) >= n implies pow2(e) >= p by {
            if e < e0 {
            } else if e > e0 {
                vstd::arithmetic::power2::lemma_pow2_strictly_increases(e0, e);
            }
        }
    }
    Some(p)
}

pub proof fn lemma_mod_distinct(p: int, q: int, cap: int)
    requires
        cap > 0,
        0 <= p < q < p + cap,
    ensures
        p % cap != q % cap,
{
    vstd::arithmetic::div_mod::lemma_fundamental_div_mod(p, cap);
    vstd::arithmetic::div_mod::lemma_fundamental_div_mod(q, cap);
    if p % cap == q % cap {
        assert(q - p == cap * (q / cap - p / cap)) by (nonlinear_arith)
            requires
                p == cap * (p / cap) + p % cap,
                q == cap * (q / cap) + q % cap,
                p % cap == q % cap,
        ;
        assert(false) by (nonlinear_arith)
            requires
                q - p == cap * (q / cap - p / cap),
                0 < q - p < cap,
                cap > 0,
        ;
    }
}

proof fn lemma_mod_shift(p: int, cap: int)
    requires
        cap > 0,
        p >= 0,
    ensures
        (p + cap) % cap == p % cap,
{
    vstd::arithmetic::div_mod::lemma_mod_add_multiples_vanish(p, cap);
}

/// `pos & (cap - 1)`, which is `pos % cap` for a power of two `cap`
pub(crate) fn slot_index(pos: usize, cap: usize) -> (r: usize)
    requires
        is_usize_pow2(cap as nat),
    ensures
        r == pos % cap,
        r < cap,
{
    let ghost e = choose|e: nat| e < usize::BITS && pow2(e) == cap as nat;
    proof {
        lemma_usize_low_bits_mask_is_mod(pos, e);
        vstd::arithmetic::power2::lemma_pow2_pos(e);
        assert(low_bits_mask(e) == cap - 1);
    }
    pos & (cap - 1)
}

struct Slot<T> {
    sequence: usize,
    data: Option<T>,
}

/// `size` rounded up to a power of two, which must fit in a `usize`
pub(crate) fn checked_next_power_of_two_of(size: usize) -> (p: usize)
    requires
        exists|e: nat| e < usize::BITS && pow2(e) >= size,
    ensures
        is_next_pow2(size as nat, p as nat),
        is_usize_pow2(p as nat),
{
    match checked_next_power_of_two(size) {
        Some(p) => p,
        None => {
            proof {
                let e = choose|e: nat| e < usize::BITS && pow2(e) >= size;
                assert(pow2(e) < size);
            }
            0
        },
    }
}

/// Create `size` slots rounded up to a power of two, slot `i` free for
/// position `i`. The size must not be zero, and its rounding must fit in a
/// `usize`.
fn create_slots<T>(size: usize) -> (slots: Vec<Slot<T>>)
    requires
        size != 0,
        exists|e: nat| e < usize::BITS && pow2(e) >= size,
    ensures
        is_next_pow2(size as nat, slots@.len()),
        is_usize_pow2(slots@.len()),
        forall|i: int| 0 <= i < slots@.len() ==> #[trigger] slots@[i].sequence == i && slots@[i].data is None,
{
    let size = checked_next_power_of_two_of(size);
    let mut slots: Vec<Slot<T>> = Vec::new();
    let mut i: usize = 0;
    while i < size
        invariant
            i <= size,
            slots@.len() == i,
            forall|j: int| 0 <= j < i ==> #[trigger] slots@[j].sequence == j && slots@[j].data is None,
        decreases size - i,
    {
        slots.push(Slot { sequence: i, data: None });
        i = i + 1;
    }
    slots
}

/// A bounded queue shared by any number of senders and receivers
pub struct MCChannel<T> {
    head: usize,
    tail: usize,
    slots: Vec<Slot<T>>,
    tx_waiters: ThreadSafeWaitList<()>,
    rx_waiters: ThreadSafeWaitList<()>,
    tx_count: usize,
    rx_count: usize,
}

impl<T> MCChannel<T> {
    proof fn lemma_wf_frame(a: &Self, b: &Self)
        requires
            a.wf(),
            a.head == b.head,
            a.tail == b.tail,
            a.slots@ == b.slots@,
        ensures
            b.wf(),
            b.queue() == a.queue(),
    {
        assert(b.queue() =~= a.queue());
    }

    /// The queue never holds more than the capacity
    pub proof fn lemma_queue_bound(&self)
        requires
            self.wf(),
        ensures
            self.queue().len() <= self.capacity(),
            self.capacity() > 0,
    {
        lemma_pow2_positive(self.slots@.len() as nat);
    }

    /// The number of slots
    pub closed spec fn capacity(&self) -> nat {
        self.slots@.len()
    }

    /// Position of the next value to receive
    pub closed spec fn head_pos(&self) -> nat {
        self.head as nat
    }

    /// Position of the next value to send
    pub closed spec fn tail_pos(&self) -> nat {
        self.tail as nat
    }

    /// The values in the queue, oldest first
    pub closed spec fn queue(&self) -> Seq<T> {
        Seq::new(
            (self.tail - self.head) as nat,
            |i: int| self.slots@[(self.head + i) % (self.slots@.len() as int)].data->Some_0,
        )
    }

    /// Waiters for space to send
    pub closed spec fn tx_list(&self) -> ThreadSafeWaitList<()> {
        self.tx_waiters
    }

    /// Waiters for values to receive
    pub closed spec fn rx_list(&self) -> ThreadSafeWaitList<()> {
        self.rx_waiters
    }

    pub closed spec fn senders(&self) -> usize {
        self.tx_count
    }

    pub closed spec fn receivers(&self) -> usize {
        self.rx_count
    }

    /// The slots hold the queue: positions `head..tail` are filled for this
    /// lap, positions `tail..head + capacity` are free
    pub closed spec fn wf(&self) -> bool {
        let cap = self.slots@.len() as int;
        &&& is_usize_pow2(cap as nat)
        &&& self.head <= self.tail <= self.head + cap
        &&& self.head + cap < usize::MAX
        &&& forall|p: int|
            #![trigger self.slots@[p % cap]]
            self.head <= p < self.tail ==> self.slots@[p % cap].sequence == p + 1
                && self.slots@[p % cap].data is Some
        &&& forall|p: int|
            #![trigger self.slots@[p % cap]]
            self.tail <= p < self.head + cap ==> self.slots@[p % cap].sequence == p
                && self.slots@[p % cap].data is None
    }

    /// Create a channel with room for `size` values, rounded up to a power of
    /// two. The size must not be zero, and its rounding must fit in a
    /// `usize`.
    pub fn new(size: usize) -> (r: Self)
        requires
            size != 0,
            exists|e: nat| e < usize::BITS && pow2(e) >= size,
        ensures
            r.wf(),
            is_next_pow2(size as nat, r.capacity()),
            r.queue() == Seq::<T>::empty(),
            r.head_pos() == 0,
            r.senders() == 0,
            r.receivers() == 0,
            r.tx_list().is_fresh(),
            r.rx_list().is_fresh(),
    {
        let slots = create_slots(size);
        let r = Self {
            head: 0,
            tail: 0,
            slots,
            tx_waiters: ThreadSafeWaitList::new(),
            rx_waiters: ThreadSafeWaitList::new(),
            tx_count: 0,
            rx_count: 0,
        };
        proof {
            let cap = r.slots@.len() as int;
            let e = choose|e: nat| e < usize::BITS && pow2(e) == cap as nat;
            vstd::bits::lemma_usize_pow2_no_overflow(e);
            assert forall|p: int|
                #![trigger r.slots@[p % cap]]
                r.tail <= p < r.head + cap implies r.slots@[p % cap].sequence
                == p && r.slots@[p % cap].data is None by {
                vstd::arithmetic::div_mod::lemma_small_mod(p as nat, cap as nat);
                assert(r.slots@[p].sequence == p);
            }
            assert(r.queue() =~= Seq::<T>::empty());
            assert(is_usize_pow2(cap as nat));
            assert(r.head + cap < usize::MAX);
            assert(r.wf());
        }
        r
    }

    fn wake_recv(&mut self)
        ensures
            woken_one(old(self).rx_list(), final(self).rx_list(), ()),
            final(self).tx_list() == old(self).tx_list(),
            final(self).head == old(self).head,
            final(self).tail == old(self).tail,
            final(self).slots == old(self).slots,
            final(self).tx_count == old(self).tx_count,
            final(self).rx_count == old(self).rx_count,
    {
        self.rx_waiters.wake_one(());
    }

    fn wake_send(&mut self)
        ensures
            woken_one(old(self).tx_list(), final(self).tx_list(), ()),
            final(self).rx_list() == old(self).rx_list(),
            final(self).head == old(self).head,
            final(self).tail == old(self).tail,
            final(self).slots == old(self).slots,
            final(self).tx_count == old(self).tx_count,
            final(self).rx_count == old(self).rx_count,
    {
        self.tx_waiters.wake_one(());
    }

    /// Attempt to store `value`. Fails, handing the value back, when the
    /// queue is full (a full one-slot queue too, whose slot would otherwise
    /// look free). On success one receiver waiter is woken.
    pub fn try_send(&mut self, value: T) -> (r: Result<(), T>)
        requires
            old(self).wf(),
        ensures
            final(self).wf(),
            final(self).capacity() == old(self).capacity(),
            final(self).head_pos() == old(self).head_pos(),
            old(self).queue().len() < old(self).capacity() ==> r is Ok && final(self).queue()
                == old(self).queue().push(value) && woken_one(
                old(self).rx_list(),
                final(self).rx_list(),
                (),
            ),
            old(self).queue().len() == old(self).capacity() ==> r == Err::<(), T>(value)
                && final(self).queue() == old(self).queue() && final(self).rx_list() == old(
                self,
            ).rx_list(),
            final(self).tx_list() == old(self).tx_list(),
            final(self).senders() == old(self).senders(),
            final(self).receivers() == old(self).receivers(),
    {
        let cap = self.slots.len();
        let pos = self.tail;
        if pos - self.head == cap {
            return Err(value);
        }
        let idx = slot_index(pos, cap);
        let sequence = self.slots[idx].sequence;
        let ghost c = cap as int;
        if sequence == pos {
            proof {
                if self.tail == self.head + c {
                    lemma_mod_shift(self.head as int, c);
                    assert(self.slots@[(self.head as int) % c].sequence == self.head + 1);
                }
            }
            self.tail = pos + 1;
            self.wake_recv();
            let mut slot = Slot { sequence: pos + 1, data: Some(value) };
            self.slots.set_and_swap(idx, &mut slot);
            proof {
                let old_s = old(self);
                assert forall|p: int| self.head <= p < self.tail implies #[trigger] self.slots@[p
                    % c].sequence == p + 1 && self.slots@[p % c].data is Some by {
                    if p != pos {
                        lemma_mod_distinct(p, pos as int, c);
                        assert(old_s.slots@[p % c] == self.slots@[p % c]);
                    }
                }
                assert forall|p: int| self.tail <= p < self.head + c implies #[trigger] self.slots@[p
                    % c].sequence == p && self.slots@[p % c].data is None by {
                    lemma_mod_distinct(pos as int, p, c);
                    assert(old_s.slots@[p % c] == self.slots@[p % c]);
                }
                assert forall|i: int| 0 <= i < self.queue().len() implies self.queue()[i]
                    == old_s.queue().push(value)[i] by {
                    let p = self.head + i;
                    if p != pos {
                        lemma_mod_distinct(p, pos as int, c);
                    }
                }
                assert(self.queue() =~= old_s.queue().push(value));
            }
            Ok(())
        } else {
            proof {
                if self.tail < self.head + c {
                    assert(self.slots@[(pos as int) % c].sequence == pos);
                }
                lemma_mod_shift(self.head as int, c);
                assert(self.slots@[(self.head as int) % c].sequence == self.head + 1);
                assert(sequence < pos);
            }
            Err(value)
        }
    }

    /// Attempt to take the oldest value. On success one sender waiter is
    /// woken. The position counters must stay below `usize::MAX`.
    pub fn try_recv(&mut self) -> (r: Option<T>)
        requires
            old(self).wf(),
            old(self).head_pos() + old(self).capacity() + 1 < usize::MAX,
        ensures
            final(self).wf(),
            final(self).capacity() == old(self).capacity(),
            final(self).tail_pos() == old(self).tail_pos(),
            old(self).queue().len() > 0 ==> r == Some(old(self).queue()[0]) && final(self).queue()
                == old(self).queue().drop_first() && woken_one(
                old(self).tx_list(),
                final(self).tx_list(),
                (),
            ) && final(self).head_pos() == old(self).head_pos() + 1,
            old(self).queue().len() == 0 ==> r is None && final(self).queue() == old(self).queue()
                && final(self).tx_list() == old(self).tx_list() && final(self).head_pos() == old(
                self,
            ).head_pos(),
            final(self).rx_list() == old(self).rx_list(),
            final(self).senders() == old(self).senders(),
            final(self).receivers() == old(self).receivers(),
    {
        let cap = self.slots.len();
        let pos = self.head;
        let idx = slot_index(pos, cap);
        let sequence = self.slots[idx].sequence;
        let ghost c = cap as int;
        if sequence == pos + 1 {
            proof {
                if self.head == self.tail {
                    assert(self.slots@[(pos as int) % c].sequence == pos);
                }
            }
            self.head = pos + 1;
            self.wake_send();
            let mut slot = Slot { sequence: pos + cap, data: None };
            self.slots.set_and_swap(idx, &mut slot);
            let value = match slot.data {
                Some(v) => v,
                None => {
                    proof {
                        assert(false);
                    }
                    return None;
                },
            };
            proof {
                let old_s = old(self);
                lemma_mod_shift(pos as int, c);
                assert forall|p: int| self.head <= p < self.tail implies #[trigger] self.slots@[p
                    % c].sequence == p + 1 && self.slots@[p % c].data is Some by {
                    lemma_mod_distinct(pos as int, p, c);
                    assert(old_s.slots@[p % c] == self.slots@[p % c]);
                }
                assert forall|p: int| self.tail <= p < self.head + c implies #[trigger] self.slots@[p
                    % c].sequence == p && self.slots@[p % c].data is None by {
                    if p != pos + c {
                        lemma_mod_distinct(pos as int, p, c);
                        assert(old_s.slots@[p % c] == self.slots@[p % c]);
                    }
                }
                assert forall|i: int| 0 <= i < self.queue().len() implies self.queue()[i]
                    == old_s.queue().drop_first()[i] by {
                    let p = self.head + i;
                    lemma_mod_distinct(pos as int, p, c);
                }
                assert(self.queue() =~= old_s.queue().drop_first());
                assert(self.wf());
            }
            Some(value)
        } else {
            proof {
                if self.head < self.tail {
                    assert(self.slots@[(pos as int) % c].sequence == pos + 1);
                }
                assert(self.slots@[(pos as int) % c].sequence == pos);
                assert(self.wf());
            }
            None
        }
    }

    /// The number of values in the queue
    pub fn len(&self) -> (n: usize)
        requires
            self.wf(),
        ensures
            n == self.queue().len(),
    {
        self.tail - self.head
    }

    /// The room left for sends
    pub fn spare_capacity(&self) -> (n: usize)
        requires
            self.wf(),
        ensures
            n == self.capacity() - self.queue().len(),
    {
        self.head + self.slots.len() - self.tail
    }

    pub fn new_sender(&mut self)
        ensures
            final(self).capacity() == old(self).capacity(),
            final(self).head_pos() == old(self).head_pos(),
            final(self).senders() == old(self).senders().wrapping_add(1),
            final(self).receivers() == old(self).receivers(),
            final(self).queue() == old(self).queue(),
            old(self).wf() ==> final(self).wf(),
            final(self).tx_list() == old(self).tx_list(),
            final(self).rx_list() == old(self).rx_list(),
    {
        self.tx_count = self.tx_count.wrapping_add(1);
        proof {
            if old(self).wf() {
                Self::lemma_wf_frame(&*old(self), &*self);
            }
        }
    }

    /// A sender went away; when it was the last one the receiving side is
    /// closed
    pub fn drop_sender(&mut self)
        ensures
            final(self).senders() == old(self).senders().wrapping_sub(1),
            final(self).receivers() == old(self).receivers(),
            final(self).queue() == old(self).queue(),
            old(self).wf() ==> final(self).wf(),
            final(self).tx_list() == old(self).tx_list(),
            old(self).senders() == 1 ==> closed_list(old(self).rx_list(), final(self).rx_list()),
            old(self).senders() != 1 ==> final(self).rx_list() == old(self).rx_list(),
    {
        let prev = self.tx_count;
        self.tx_count = self.tx_count.wrapping_sub(1);
        proof {
            if old(self).wf() {
                Self::lemma_wf_frame(&*old(self), &*self);
            }
            assert(self.queue() =~= old(self).queue());
        }
        if prev == 1 {
            self.close_recv();
        }
    }

    pub fn is_send_closed(&self) -> (r: bool)
        ensures
            r == self.tx_list().is_closed_spec(),
    {
        self.tx_waiters.is_closed()
    }

    /// Close the sending side, waking every sender waiter
    pub fn close_send(&mut self)
        ensures
            closed_list(old(self).tx_list(), final(self).tx_list()),
            final(self).rx_list() == old(self).rx_list(),
            final(self).senders() == old(self).senders(),
            final(self).receivers() == old(self).receivers(),
            final(self).queue() == old(self).queue(),
            old(self).wf() ==> final(self).wf(),
    {
        self.tx_waiters.close(());
        proof {
            if old(self).wf() {
                Self::lemma_wf_frame(&*old(self), &*self);
            }
        }
    }

    pub fn is_recv_closed(&self) -> (r: bool)
        ensures
            r == self.rx_list().is_closed_spec(),
    {
        self.rx_waiters.is_closed()
    }

    /// Close the receiving side, waking every receiver waiter
    pub fn close_recv(&mut self)
        ensures
            closed_list(old(self).rx_list(), final(self).rx_list()),
            final(self).tx_list() == old(self).tx_list(),
            final(self).senders() == old(self).senders(),
            final(self).receivers() == old(self).receivers(),
            final(self).queue() == old(self).queue(),
            old(self).wf() ==> final(self).wf(),
    {
        self.rx_waiters.close(());
        proof {
            if old(self).wf() {
                Self::lemma_wf_frame(&*old(self), &*self);
            }
        }
    }

    pub fn new_receiver(&mut self)
        ensures
            final(self).capacity() == old(self).capacity(),
            final(self).head_pos() == old(self).head_pos(),
            final(self).receivers() == old(self).receivers().wrapping_add(1),
            final(self).senders() == old(self).senders(),
            final(self).queue() == old(self).queue(),
            old(self).wf() ==> final(self).wf(),
            final(self).tx_list() == old(self).tx_list(),
            final(self).rx_list() == old(self).rx_list(),
    {
        self.rx_count = self.rx_count.wrapping_add(1);
        proof {
            if old(self).wf() {
                Self::lemma_wf_frame(&*old(self), &*self);
            }
        }
    }

    /// A receiver went away; when it was the last one the sending side is
    /// closed
    pub fn drop_receiver(&mut self)
        ensures
            final(self).receivers() == old(self).receivers().wrapping_sub(1),
            final(self).senders() == old(self).senders(),
            final(self).queue() == old(self).queue(),
            old(self).wf() ==> final(self).wf(),
            final(self).rx_list() == old(self).rx_list(),
            old(self).receivers() == 1 ==> closed_list(old(self).tx_list(), final(self).tx_list()),
            old(self).receivers() != 1 ==> final(self).tx_list() == old(self).tx_list(),
    {
        let prev = self.rx_count;
        self.rx_count = self.rx_count.wrapping_sub(1);
        proof {
            if old(self).wf() {
                Self::lemma_wf_frame(&*old(self), &*self);
            }
            assert(self.queue() =~= old(self).queue());
        }
        if prev == 1 {
            self.close_send();
        }
    }

    /// Start waiting for room to send as task `request`; the wait blocks only
    /// while the queue is full
    pub fn send_wait(&mut self, request: u64) -> (r: Progress<WaitResult<()>>)
        requires
            old(self).wf(),
        ensures
            final(self).wf(),
            final(self).queue() == old(self).queue(),
            final(self).rx_list() == old(self).rx_list(),
            old(self).tx_list().is_closed_spec() ==> r == Progress::Done(
                Err::<(), _>(crate::async_std::sync::wait_list::WaitError::Closed),
            ),
            !old(self).tx_list().is_closed_spec() && old(self).queue().len() == old(self).capacity()
                ==> r == Progress::<WaitResult<()>>::Pending && final(self).tx_list().waiters()
                == old(self).tx_list().waiters().push(request),
            !old(self).tx_list().is_closed_spec() && old(self).queue().len() < old(self).capacity()
                ==> r == Progress::Done(
                Err::<(), _>(crate::async_std::sync::wait_list::WaitError::Cancelled),
            ) && final(self).tx_list().waiters() == old(self).tx_list().waiters(),
    {
        let full = self.spare_capacity() == 0;
        let should_block = move || -> (b: bool)
            ensures
                b == full,
            { full };
        let r = self.tx_waiters.wait(should_block, request);
        proof {
            Self::lemma_wf_frame(&*old(self), &*self);
        }
        r
    }

    /// Start waiting for a value as task `request`; the wait blocks only
    /// while the queue is empty
    pub fn recv_wait(&mut self, request: u64) -> (r: Progress<WaitResult<()>>)
        requires
            old(self).wf(),
        ensures
            final(self).wf(),
            final(self).queue() == old(self).queue(),
            final(self).tx_list() == old(self).tx_list(),
            old(self).rx_list().is_closed_spec() ==> r == Progress::Done(
                Err::<(), _>(crate::async_std::sync::wait_list::WaitError::Closed),
            ),
            !old(self).rx_list().is_closed_spec() && old(self).queue().len() == 0
                ==> r == Progress::<WaitResult<()>>::Pending && final(self).rx_list().waiters()
                == old(self).rx_list().waiters().push(request),
            !old(self).rx_list().is_closed_spec() && old(self).queue().len() > 0 ==> r
                == Progress::Done(
                Err::<(), _>(crate::async_std::sync::wait_list::WaitError::Cancelled),
            ) && final(self).rx_list().waiters() == old(self).rx_list().waiters(),
    {
        let empty = self.len() == 0;
        let should_block = move || -> (b: bool)
            ensures
                b == empty,
            { empty };
        let r = self.rx_waiters.wait(should_block, request);
        proof {
            Self::lemma_wf_frame(&*old(self), &*self);
        }
        r
    }
}

} // verus!
