//! Wait lists: the bookkeeping of suspended tasks and who gets woken.

use vstd::prelude::*;

verus! {

/// The error a wait completes with when it does not get a value
#[derive(Clone, Copy, Debug, PartialEq, Eq, Structural)]
pub enum WaitError {
    /// The wait was cancelled (interrupted, or the caller decided not to block)
    Cancelled,
    /// The wait list is closed
    Closed,
}

/// Result of a wait
pub type WaitResult<T> = Result<T, WaitError>;

/// What a suspend operation decided: the task stays suspended until a
/// completion arrives, or it finishes at once with a result
#[derive(Debug, PartialEq, Eq)]
pub enum Progress<T> {
    Pending,
    Done(T),
}

/// The state of an [`AtomicWaiter`]: nobody waiting, a waiting task, or closed
#[derive(Clone, Copy, Debug, PartialEq, Eq, Structural)]
pub enum WaiterSlot {
    Empty,
    Waiting(u64),
    Closed,
}

/// The effect of [`AtomicWaiter::close`] with `value`: the slot becomes
/// `Closed` and a waiting task completes with `Ok(value)`
pub open spec fn waiter_closed<T>(before: AtomicWaiter<T>, after: AtomicWaiter<T>, value: T) -> bool {
    &&& after.slot() == WaiterSlot::Closed
    &&& after.completions() == (match before.slot() {
        WaiterSlot::Waiting(p) => before.completions().push((p, Ok(value))),
        _ => before.completions(),
    })
}

/// A single-slot waiter. At most one task waits on it at a time; a new
/// waiter displaces (cancels) the previous one. Closing is permanent.
pub struct AtomicWaiter<T> {
    waiter: WaiterSlot,
    completions: Vec<(u64, WaitResult<T>)>,
}

impl<T> AtomicWaiter<T> {
    /// The current slot
    pub closed spec fn slot(&self) -> WaiterSlot {
        self.waiter
    }

    /// The completions decided so far, oldest first, not yet taken
    pub closed spec fn completions(&self) -> Seq<(u64, WaitResult<T>)> {
        self.completions@
    }

    #[must_use]
    pub fn new() -> (r: Self)
        ensures
            r.slot() == WaiterSlot::Empty,
            r.completions() == Seq::<(u64, WaitResult<T>)>::empty(),
    {
        Self { waiter: WaiterSlot::Empty, completions: Vec::new() }
    }

    /// Install `request` unless the waiter is closed. Returns the previous slot.
    fn set_waiter(&mut self, request: WaiterSlot) -> (prev: WaiterSlot)
        ensures
            prev == old(self).slot(),
            final(self).slot() == (if prev == WaiterSlot::Closed { prev } else { request }),
            final(self).completions() == old(self).completions(),
    {
        let prev = self.waiter;
        if prev != WaiterSlot::Closed {
            self.waiter = request;
        }
        prev
    }

    /// Remove `request` if it is still the installed waiter
    fn cancel_wait(&mut self, request: u64) -> (r: Result<WaiterSlot, WaiterSlot>)
        ensures
            old(self).slot() == WaiterSlot::Waiting(request) ==> r == Ok::<WaiterSlot, WaiterSlot>(
                old(self).slot(),
            ) && final(self).slot() == WaiterSlot::Empty,
            old(self).slot() != WaiterSlot::Waiting(request) ==> r == Err::<WaiterSlot, WaiterSlot>(
                old(self).slot(),
            ) && final(self).slot() == old(self).slot(),
            final(self).completions() == old(self).completions(),
    {
        let cur = self.waiter;
        if cur == WaiterSlot::Waiting(request) {
            self.waiter = WaiterSlot::Empty;
            Ok(cur)
        } else {
            Err(cur)
        }
    }

    fn complete(&mut self, id: u64, result: WaitResult<T>)
        ensures
            final(self).slot() == old(self).slot(),
            final(self).completions() == old(self).completions().push((id, result)),
    {
        self.completions.push((id, result));
    }

    /// Suspend the task `request`. `should_block` is asked once the waiter is
    /// installed; a previous waiter is cancelled.
    pub fn suspend<F>(&mut self, should_block: F, request: u64) -> (r: Progress<WaitResult<T>>)
        where
            F: FnOnce() -> bool,
        requires
            call_requires(should_block, ()),
        ensures
            ({
                let prev = old(self).slot();
                let installed = prev != WaiterSlot::Closed;
                let prev_cancelled = match prev {
                    WaiterSlot::Waiting(p) => seq![(p, Err::<T, WaitError>(WaitError::Cancelled))],
                    _ => Seq::<(u64, WaitResult<T>)>::empty(),
                };
                &&& exists|b: bool|
                    #![trigger call_ensures(should_block, (), b)]
                    call_ensures(should_block, (), b) && {
                        let withdrawn = installed && !b;
                        &&& final(self).slot() == (if !installed {
                            WaiterSlot::Closed
                        } else if withdrawn {
                            WaiterSlot::Empty
                        } else {
                            WaiterSlot::Waiting(request)
                        })
                        &&& r == (if prev == WaiterSlot::Closed {
                            Progress::Done(Err::<T, WaitError>(WaitError::Closed))
                        } else if withdrawn {
                            Progress::Done(Err::<T, WaitError>(WaitError::Cancelled))
                        } else {
                            Progress::Pending
                        })
                    }
                &&& final(self).completions() == old(self).completions() + prev_cancelled
            }),
    {
        let mut error: Option<WaitError> = None;
        let prev = self.set_waiter(WaiterSlot::Waiting(request));
        if !should_block() {
            if self.cancel_wait(request).is_ok() {
                error = Some(WaitError::Cancelled);
            }
        }
        match prev {
            WaiterSlot::Empty => {},
            WaiterSlot::Waiting(p) => {
                self.complete(p, Err(WaitError::Cancelled));
            },
            WaiterSlot::Closed => {
                error = Some(WaitError::Closed);
            },
        }
        match error {
            None => Progress::Pending,
            Some(err) => Progress::Done(Err(err)),
        }
    }

    /// Cancel the suspended task `request`: if a wake did not take it first,
    /// it completes with `Cancelled`.
    pub fn cancel(&mut self, request: u64)
        ensures
            old(self).slot() == WaiterSlot::Waiting(request) ==> final(self).slot()
                == WaiterSlot::Empty && final(self).completions() == old(self).completions().push(
                (request, Err(WaitError::Cancelled)),
            ),
            old(self).slot() != WaiterSlot::Waiting(request) ==> final(self).slot()
                == old(self).slot() && final(self).completions() == old(self).completions(),
    {
        if self.cancel_wait(request).is_ok() {
            self.complete(request, Err(WaitError::Cancelled));
        }
    }

    fn wake_internal(&mut self, new_waiter: WaiterSlot, value: T) -> (woke: bool)
        ensures
            woke == old(self).slot() is Waiting,
            final(self).slot() == (if old(self).slot() == WaiterSlot::Closed {
                WaiterSlot::Closed
            } else {
                new_waiter
            }),
            final(self).completions() == (match old(self).slot() {
                WaiterSlot::Waiting(p) => old(self).completions().push((p, Ok(value))),
                _ => old(self).completions(),
            }),
    {
        let prev = self.set_waiter(new_waiter);
        match prev {
            WaiterSlot::Waiting(p) => {
                self.complete(p, Ok(value));
                true
            },
            _ => false,
        }
    }

    /// Wake the waiting task with `value`. Returns `true` if a task was woken
    pub fn wake(&mut self, value: T) -> (woke: bool)
        ensures
            woke == old(self).slot() is Waiting,
            final(self).slot() == (if old(self).slot() == WaiterSlot::Closed {
                WaiterSlot::Closed
            } else {
                WaiterSlot::Empty
            }),
            final(self).completions() == (match old(self).slot() {
                WaiterSlot::Waiting(p) => old(self).completions().push((p, Ok(value))),
                _ => old(self).completions(),
            }),
    {
        self.wake_internal(WaiterSlot::Empty, value)
    }

    /// Close the waiter, waking the waiting task with `value`. Returns `true`
    /// if a task was woken
    pub fn close(&mut self, value: T) -> (woke: bool)
        ensures
            woke == old(self).slot() is Waiting,
            waiter_closed(*old(self), *final(self), value),
    {
        self.wake_internal(WaiterSlot::Closed, value)
    }

    pub fn is_closed(&self) -> (r: bool)
        ensures
            r == (self.slot() == WaiterSlot::Closed),
    {
        self.waiter == WaiterSlot::Closed
    }

    /// Hand the decided completions to the runtime
    pub fn take_completions(&mut self) -> (r: Vec<(u64, WaitResult<T>)>)
        ensures
            r@ == old(self).completions(),
            final(self).completions() == Seq::<(u64, WaitResult<T>)>::empty(),
            final(self).slot() == old(self).slot(),
    {
        let mut out = Vec::new();
        std::mem::swap(&mut out, &mut self.completions);
        out
    }
}


/// First index of `id` in `list`
fn find_waiter(list: &Vec<u64>, id: u64) -> (r: Option<usize>)
    ensures
        match r {
            Some(i) => i < list@.len() && list@[i as int] == id && forall|j: int|
                0 <= j < i ==> list@[j] != id,
            None => !list@.contains(id),
        },
{
    let mut i: usize = 0;
    while i < list.len()
        invariant
            i <= list@.len(),
            forall|j: int| 0 <= j < i ==> list@[j] != id,
        decreases list@.len() - i,
    {
        if list[i] == id {
            return Some(i);
        }
        i = i + 1;
    }
    proof {
        assert forall|x: u64| list@.contains(x) implies x != id by {
            let j = choose|j: int| 0 <= j < list@.len() && list@[j] == x;
            assert(list@[j] != id);
        }
    }
    None
}

/// The completions that waking every waiter in `ids` with `value` produces:
/// each waiter, in list order, gets `Ok` of a clone of `value`, the last one
/// gets `value` itself
pub open spec fn woken_all<T: Clone>(
    ids: Seq<u64>,
    value: T,
    results: Seq<(u64, WaitResult<T>)>,
) -> bool {
    &&& results.len() == ids.len()
    &&& forall|i: int|
        0 <= i < ids.len() ==> #[trigger] results[i].0 == ids[i] && results[i].1 is Ok && cloned(
            value,
            results[i].1->Ok_0,
        )
    &&& ids.len() > 0 ==> results[ids.len() - 1].1 == Ok::<T, WaitError>(value)
}

/// Push a completion for every id of `ids`, cloning `value` for all but the last
fn complete_all<T: Clone>(
    completions: &mut Vec<(u64, WaitResult<T>)>,
    ids: &Vec<u64>,
    value: T,
)
    ensures
        final(completions)@.len() == old(completions)@.len() + ids@.len(),
        final(completions)@.subrange(0, old(completions)@.len() as int) == old(completions)@,
        woken_all(
            ids@,
            value,
            final(completions)@.subrange(old(completions)@.len() as int, final(completions)@.len() as int),
        ),
{
    let n = ids.len();
    if n == 0 {
        proof {
            assert(final(completions)@.subrange(0, old(completions)@.len() as int) =~= old(completions)@);
            assert(final(completions)@.subrange(old(completions)@.len() as int, final(completions)@.len() as int).len() == 0);
        }
        return;
    }
    let ghost start = completions@.len();
    let mut i: usize = 0;
    while i + 1 < n
        invariant
            n == ids@.len(),
            n > 0,
            i + 1 <= n,
            start == old(completions)@.len(),
            completions@.len() == start + i,
            completions@.subrange(0, start as int) == old(completions)@,
            forall|j: int|
                0 <= j < i ==> #[trigger] completions@[start + j].0 == ids@[j] && completions@[start
                    + j].1 is Ok && cloned(value, completions@[start + j].1->Ok_0),
        decreases n - i,
    {
        let v = value.clone();
        let ghost before = completions@;
        proof {
            assert(cloned(value, v));
        }
        completions.push((ids[i], Ok(v)));
        proof {
            assert forall|j: int| 0 <= j < i + 1 implies #[trigger] completions@[start + j].0
                == ids@[j] && completions@[start + j].1 is Ok && cloned(
                value,
                completions@[start + j].1->Ok_0,
            ) by {
                if j < i {
                    assert(completions@[start + j] == before[start + j]);
                    assert(before[start + j].0 == ids@[j]);
                    assert(cloned(value, before[start + j].1->Ok_0));
                } else {
                    assert(j == i);
                    assert(completions@[start + j] == (ids@[j], Ok::<T, WaitError>(v)));
                    assert(cloned(value, v));
                }
            }
            assert(completions@.subrange(0, start as int) =~= before.subrange(0, start as int));
        }
        i = i + 1;
    }
    completions.push((ids[i], Ok(value)));
    proof {
        let res = completions@.subrange(start as int, completions@.len() as int);
        assert(completions@.subrange(0, start as int) =~= old(completions)@);
        assert forall|j: int| 0 <= j < ids@.len() implies #[trigger] res[j].0 == ids@[j]
            && res[j].1 is Ok && cloned(value, res[j].1->Ok_0) by {
            assert(res[j] == completions@[start + j]);
        }
    }
}

/// A wait list for tasks of one thread. Waiters are woken in the order they
/// started waiting.
pub struct RawWaitList<T> {
    list: Vec<u64>,
    count: usize,
    closed: bool,
    completions: Vec<(u64, WaitResult<T>)>,
}

/// The effect of a wait on an open list: the task is queued last
pub open spec fn queued<T>(before: RawWaitList<T>, after: RawWaitList<T>, request: u64) -> bool {
    &&& after.waiters() == before.waiters().push(request)
    &&& after.completions() == before.completions()
    &&& after.is_closed_spec() == before.is_closed_spec()
}

/// The effect of waking one task: the longest waiting one completes with
/// `value`
pub open spec fn woke_first<T>(before: RawWaitList<T>, after: RawWaitList<T>, value: T) -> bool {
    &&& before.waiters().len() > 0
    &&& after.waiters() == before.waiters().drop_first()
    &&& after.completions() == before.completions().push((before.waiters()[0], Ok(value)))
}

/// Tasks are woken in the order they started waiting
pub proof fn law_wake_in_wait_order<T>(
    l0: RawWaitList<T>,
    l1: RawWaitList<T>,
    l2: RawWaitList<T>,
    l3: RawWaitList<T>,
    first: u64,
    second: u64,
    value: T,
)
    requires
        l0.waiters().len() == 0,
        queued(l0, l1, first),
        queued(l1, l2, second),
        woke_first(l2, l3, value),
    ensures
        l3.completions() == l0.completions().push((first, Ok::<T, WaitError>(value))),
        l3.waiters() == seq![second],
{
    assert(l2.waiters() =~= seq![first, second]);
    assert(l3.waiters() =~= seq![second]);
}

impl<T> RawWaitList<T> {
    /// The suspended tasks, in the order they will be woken
    pub closed spec fn waiters(&self) -> Seq<u64> {
        self.list@
    }

    /// The number of tasks currently inside a wait
    pub closed spec fn count(&self) -> usize {
        self.count
    }

    pub closed spec fn is_closed_spec(&self) -> bool {
        self.closed
    }

    pub closed spec fn completions(&self) -> Seq<(u64, WaitResult<T>)> {
        self.completions@
    }

    #[must_use]
    pub fn new() -> (r: Self)
        ensures
            r.waiters() == Seq::<u64>::empty(),
            r.count() == 0,
            !r.is_closed_spec(),
            r.completions() == Seq::<(u64, WaitResult<T>)>::empty(),
    {
        Self { list: Vec::new(), count: 0, closed: false, completions: Vec::new() }
    }

    /// Start waiting as task `request`. A closed list refuses at once with
    /// `Closed`; otherwise the task is queued and counted until
    /// [`finish_wait`](Self::finish_wait)
    pub fn wait(&mut self, request: u64) -> (r: Progress<WaitResult<T>>)
        ensures
            !old(self).is_closed_spec() ==> queued(*old(self), *final(self), request),
            old(self).is_closed_spec() ==> r == Progress::Done(Err::<T, WaitError>(WaitError::Closed))
                && final(self).waiters() == old(self).waiters() && final(self).count() == old(self).count(),
            !old(self).is_closed_spec() ==> r == Progress::<WaitResult<T>>::Pending
                && final(self).waiters() == old(self).waiters().push(request) && final(self).count()
                == old(self).count().wrapping_add(1),
            final(self).is_closed_spec() == old(self).is_closed_spec(),
            final(self).completions() == old(self).completions(),
    {
        if self.closed {
            return Progress::Done(Err(WaitError::Closed));
        }
        self.count = self.count.wrapping_add(1);
        self.list.push(request);
        Progress::Pending
    }

    /// A wait that was pending has completed
    pub fn finish_wait(&mut self)
        ensures
            final(self).count() == old(self).count().wrapping_sub(1),
            final(self).waiters() == old(self).waiters(),
            final(self).is_closed_spec() == old(self).is_closed_spec(),
            final(self).completions() == old(self).completions(),
    {
        self.count = self.count.wrapping_sub(1);
    }

    /// Cancel the wait of `request`: if it is still queued, it leaves the
    /// queue and completes with `Cancelled`
    pub fn cancel(&mut self, request: u64)
        ensures
            old(self).waiters().contains(request) ==> exists|i: int|
                0 <= i < old(self).waiters().len() && old(self).waiters()[i] == request
                    && final(self).waiters() == old(self).waiters().remove(i),
            old(self).waiters().contains(request) ==> final(self).completions() == old(self).completions().push((request, Err(WaitError::Cancelled))),
            !old(self).waiters().contains(request) ==> final(self).waiters() == old(self).waiters()
                && final(self).completions() == old(self).completions(),
            final(self).count() == old(self).count(),
            final(self).is_closed_spec() == old(self).is_closed_spec(),
    {
        match find_waiter(&self.list, request) {
            Some(i) => {
                self.list.remove(i);
                self.completions.push((request, Err(WaitError::Cancelled)));
                proof {
                    assert(old(self).waiters()[i as int] == request);
                }
            },
            None => {},
        }
    }

    /// Wake the longest waiting task with `value`. Returns `true` if a task
    /// was woken
    pub fn wake_one(&mut self, value: T) -> (woke: bool)
        ensures
            woke ==> woke_first(*old(self), *final(self), value),
            woke == (old(self).waiters().len() > 0),
            woke ==> final(self).waiters() == old(self).waiters().drop_first()
                && final(self).completions() == old(self).completions().push(
                (old(self).waiters()[0], Ok(value)),
            ),
            !woke ==> final(self).waiters() == old(self).waiters() && final(self).completions()
                == old(self).completions(),
            final(self).count() == old(self).count(),
            final(self).is_closed_spec() == old(self).is_closed_spec(),
    {
        if self.list.len() == 0 {
            return false;
        }
        let id = self.list.remove(0);
        self.completions.push((id, Ok(value)));
        proof {
            assert(old(self).waiters().remove(0) =~= old(self).waiters().drop_first());
        }
        true
    }

    /// Wake every waiting task, each with a clone of `value`. Returns the
    /// number of tasks inside a wait at the time of the call
    pub fn wake_all(&mut self, value: T) -> (n: usize)
        where
            T: Clone,
        ensures
            n == old(self).count(),
            final(self).waiters() == Seq::<u64>::empty(),
            final(self).completions().len() == old(self).completions().len() + old(self).waiters().len(),
            final(self).completions().subrange(0, old(self).completions().len() as int) == old(self).completions(),
            woken_all(
                old(self).waiters(),
                value,
                final(self).completions().subrange(
                    old(self).completions().len() as int,
                    final(self).completions().len() as int,
                ),
            ),
            final(self).count() == old(self).count(),
            final(self).is_closed_spec() == old(self).is_closed_spec(),
    {
        let count = self.count;
        let mut list = Vec::new();
        std::mem::swap(&mut list, &mut self.list);
        complete_all(&mut self.completions, &list, value);
        count
    }

    /// Close the list and wake every waiting task. Later waits fail with
    /// `Closed`
    pub fn close(&mut self, value: T) -> (n: usize)
        where
            T: Clone,
        ensures
            n == old(self).count(),
            final(self).is_closed_spec(),
            final(self).waiters() == Seq::<u64>::empty(),
            final(self).completions().len() == old(self).completions().len() + old(self).waiters().len(),
            final(self).completions().subrange(0, old(self).completions().len() as int) == old(self).completions(),
            woken_all(
                old(self).waiters(),
                value,
                final(self).completions().subrange(
                    old(self).completions().len() as int,
                    final(self).completions().len() as int,
                ),
            ),
            final(self).count() == old(self).count(),
    {
        self.closed = true;
        self.wake_all(value)
    }

    pub fn take_completions(&mut self) -> (r: Vec<(u64, WaitResult<T>)>)
        ensures
            r@ == old(self).completions(),
            final(self).completions() == Seq::<(u64, WaitResult<T>)>::empty(),
            final(self).waiters() == old(self).waiters(),
            final(self).count() == old(self).count(),
            final(self).is_closed_spec() == old(self).is_closed_spec(),
    {
        let mut out = Vec::new();
        std::mem::swap(&mut out, &mut self.completions);
        out
    }
}


/// The effect of [`ThreadSafeWaitList::wake_one`] with `value`: unless the
/// empty hint is set, the longest waiting task leaves the queue and
/// completes with `Ok(value)`
pub open spec fn woken_one<T>(
    before: ThreadSafeWaitList<T>,
    after: ThreadSafeWaitList<T>,
    value: T,
) -> bool {
    let woke = !before.empty_hint() && before.waiters().len() > 0;
    &&& woke ==> after.waiters() == before.waiters().drop_first() && after.completions()
        == before.completions().push((before.waiters()[0], Ok(value)))
    &&& !woke ==> after.waiters() == before.waiters() && after.completions()
        == before.completions()
    &&& after.count() == before.count()
    &&& after.is_closed_spec() == before.is_closed_spec()
    &&& after.empty_hint() == before.empty_hint()
}

/// The effect of [`ThreadSafeWaitList::wake_all`] with `value`: unless the
/// empty hint is set, every queued task completes, in queue order
pub open spec fn woken_every<T: Clone>(
    before: ThreadSafeWaitList<T>,
    after: ThreadSafeWaitList<T>,
    value: T,
) -> bool {
    &&& after.count() == before.count()
    &&& after.is_closed_spec() == before.is_closed_spec()
    &&& after.empty_hint() == before.empty_hint()
    &&& before.empty_hint() ==> after.waiters() == before.waiters() && after.completions()
        == before.completions()
    &&& !before.empty_hint() ==> {
        &&& after.waiters() == Seq::<u64>::empty()
        &&& after.completions().len() == before.completions().len() + before.waiters().len()
        &&& after.completions().subrange(0, before.completions().len() as int)
            == before.completions()
        &&& woken_all(
            before.waiters(),
            value,
            after.completions().subrange(
                before.completions().len() as int,
                after.completions().len() as int,
            ),
        )
    }
}

/// The effect of [`ThreadSafeWaitList::close`] on the flags and queue
pub open spec fn closed_list<T>(before: ThreadSafeWaitList<T>, after: ThreadSafeWaitList<T>) -> bool {
    &&& after.is_closed_spec()
    &&& after.count() == before.count()
    &&& after.empty_hint() == before.empty_hint()
    &&& before.empty_hint() ==> after.waiters() == before.waiters() && after.completions()
        == before.completions()
    &&& !before.empty_hint() ==> after.waiters() == Seq::<u64>::empty()
        && after.completions().len() == before.completions().len() + before.waiters().len()
        && after.completions().subrange(0, before.completions().len() as int)
        == before.completions()
}

/// A wait list shared between threads. Besides the queue of waiters it keeps
/// an `empty` hint that lets wake-ups skip the queue: it is cleared when a
/// task starts to suspend and recomputed when a suspend gives up.
pub struct ThreadSafeWaitList<T> {
    list: Vec<u64>,
    count: usize,
    closed: bool,
    empty: bool,
    completions: Vec<(u64, WaitResult<T>)>,
}

impl<T> ThreadSafeWaitList<T> {
    pub closed spec fn waiters(&self) -> Seq<u64> {
        self.list@
    }

    pub closed spec fn count(&self) -> usize {
        self.count
    }

    pub closed spec fn is_closed_spec(&self) -> bool {
        self.closed
    }

    /// The `empty` hint
    pub closed spec fn empty_hint(&self) -> bool {
        self.empty
    }

    pub closed spec fn completions(&self) -> Seq<(u64, WaitResult<T>)> {
        self.completions@
    }

    /// The state of a freshly created list
    pub open spec fn is_fresh(&self) -> bool {
        &&& self.waiters() == Seq::<u64>::empty()
        &&& self.count() == 0
        &&& !self.is_closed_spec()
        &&& !self.empty_hint()
        &&& self.completions() == Seq::<(u64, WaitResult<T>)>::empty()
    }

    #[must_use]
    pub fn new() -> (r: Self)
        ensures
            r.waiters() == Seq::<u64>::empty(),
            r.count() == 0,
            !r.is_closed_spec(),
            !r.empty_hint(),
            r.completions() == Seq::<(u64, WaitResult<T>)>::empty(),
    {
        Self { list: Vec::new(), count: 0, closed: false, empty: false, completions: Vec::new() }
    }

    /// Start waiting as task `request`. A closed list refuses with `Closed`;
    /// otherwise `should_block` is asked, and if it says no the wait ends
    /// with `Cancelled`; else the task is queued and counted until
    /// [`finish_wait`](Self::finish_wait)
    pub fn wait<F>(&mut self, should_block: F, request: u64) -> (r: Progress<WaitResult<T>>)
        where
            F: FnOnce() -> bool,
        requires
            call_requires(should_block, ()),
        ensures
            old(self).is_closed_spec() ==> r == Progress::Done(Err::<T, WaitError>(WaitError::Closed))
                && final(self).waiters() == old(self).waiters() && final(self).count() == old(self).count() && final(self).empty_hint() == old(self).empty_hint(),
            !old(self).is_closed_spec() ==> exists|b: bool|
                #![trigger call_ensures(should_block, (), b)]
                call_ensures(should_block, (), b) && (if b {
                    &&& r == Progress::<WaitResult<T>>::Pending
                    &&& final(self).waiters() == old(self).waiters().push(request)
                    &&& final(self).count() == old(self).count().wrapping_add(1)
                    &&& !final(self).empty_hint()
                } else {
                    &&& r == Progress::Done(Err::<T, WaitError>(WaitError::Cancelled))
                    &&& final(self).waiters() == old(self).waiters()
                    &&& final(self).count() == old(self).count()
                    &&& final(self).empty_hint() == (old(self).waiters().len() == 0)
                }),
            final(self).is_closed_spec() == old(self).is_closed_spec(),
            final(self).completions() == old(self).completions(),
    {
        if self.closed {
            return Progress::Done(Err(WaitError::Closed));
        }
        self.empty = false;
        if !should_block() {
            self.empty = self.list.len() == 0;
            return Progress::Done(Err(WaitError::Cancelled));
        }
        self.list.push(request);
        self.count = self.count.wrapping_add(1);
        Progress::Pending
    }

    /// A wait that was pending has completed
    pub fn finish_wait(&mut self)
        ensures
            final(self).count() == old(self).count().wrapping_sub(1),
            final(self).waiters() == old(self).waiters(),
            final(self).is_closed_spec() == old(self).is_closed_spec(),
            final(self).empty_hint() == old(self).empty_hint(),
            final(self).completions() == old(self).completions(),
    {
        self.count = self.count.wrapping_sub(1);
    }

    /// Cancel the wait of `request`: if it is still queued, it leaves the
    /// queue and completes with `Cancelled`
    pub fn cancel(&mut self, request: u64)
        ensures
            old(self).waiters().contains(request) ==> exists|i: int|
                0 <= i < old(self).waiters().len() && old(self).waiters()[i] == request
                    && final(self).waiters() == old(self).waiters().remove(i),
            old(self).waiters().contains(request) ==> final(self).completions() == old(self).completions().push((request, Err(WaitError::Cancelled))),
            !old(self).waiters().contains(request) ==> final(self).waiters() == old(self).waiters()
                && final(self).completions() == old(self).completions(),
            final(self).count() == old(self).count(),
            final(self).is_closed_spec() == old(self).is_closed_spec(),
            final(self).empty_hint() == old(self).empty_hint(),
    {
        match find_waiter(&self.list, request) {
            Some(i) => {
                self.list.remove(i);
                self.completions.push((request, Err(WaitError::Cancelled)));
            },
            None => {},
        }
    }

    /// Wake the longest waiting task with `value`, unless the `empty` hint is
    /// set. Returns `true` if a task was woken
    pub fn wake_one(&mut self, value: T) -> (woke: bool)
        ensures
            woke == (!old(self).empty_hint() && old(self).waiters().len() > 0),
            woken_one(*old(self), *final(self), value),
    {
        if self.empty {
            return false;
        }
        if self.list.len() == 0 {
            return false;
        }
        let id = self.list.remove(0);
        self.completions.push((id, Ok(value)));
        proof {
            assert(old(self).waiters().remove(0) =~= old(self).waiters().drop_first());
        }
        true
    }

    /// Wake every waiting task with a clone of `value`, unless the `empty`
    /// hint is set. Returns the number of tasks inside a wait at the time of
    /// the call, or zero when the hint is set
    pub fn wake_all(&mut self, value: T) -> (n: usize)
        where
            T: Clone,
        ensures
            n == (if old(self).empty_hint() { 0 } else { old(self).count() }),
            woken_every(*old(self), *final(self), value),
    {
        if self.empty {
            return 0;
        }
        let count = self.count;
        let mut list = Vec::new();
        std::mem::swap(&mut list, &mut self.list);
        complete_all(&mut self.completions, &list, value);
        count
    }

    pub fn is_closed(&self) -> (r: bool)
        ensures
            r == self.is_closed_spec(),
    {
        self.closed
    }

    /// Close the list and wake every waiting task (see [`wake_all`](Self::wake_all)).
    /// Later waits fail with `Closed`
    pub fn close(&mut self, value: T) -> (n: usize)
        where
            T: Clone,
        ensures
            closed_list(*old(self), *final(self)),
            final(self).is_closed_spec(),
            old(self).empty_hint() ==> n == 0 && final(self).waiters() == old(self).waiters()
                && final(self).completions() == old(self).completions(),
            !old(self).empty_hint() ==> {
                &&& n == old(self).count()
                &&& final(self).waiters() == Seq::<u64>::empty()
                &&& final(self).completions().len() == old(self).completions().len() + old(self).waiters().len()
                &&& final(self).completions().subrange(0, old(self).completions().len() as int)
                    == old(self).completions()
                &&& woken_all(
                    old(self).waiters(),
                    value,
                    final(self).completions().subrange(
                        old(self).completions().len() as int,
                        final(self).completions().len() as int,
                    ),
                )
            },
            final(self).count() == old(self).count(),
            final(self).empty_hint() == old(self).empty_hint(),
    {
        self.closed = true;
        self.wake_all(value)
    }

    pub fn take_completions(&mut self) -> (r: Vec<(u64, WaitResult<T>)>)
        ensures
            r@ == old(self).completions(),
            final(self).completions() == Seq::<(u64, WaitResult<T>)>::empty(),
            final(self).waiters() == old(self).waiters(),
            final(self).count() == old(self).count(),
            final(self).is_closed_spec() == old(self).is_closed_spec(),
            final(self).empty_hint() == old(self).empty_hint(),
    {
        let mut out = Vec::new();
        std::mem::swap(&mut out, &mut self.completions);
        out
    }
}

} // verus!
