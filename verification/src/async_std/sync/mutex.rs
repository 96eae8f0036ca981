//! An async mutex: the lock state machine. A contended lock parks the task
//! on a wait list and the unlocking side wakes one waiter.

use vstd::prelude::*;
use super::wait_list::{woken_one, Progress, ThreadSafeWaitList, WaitResult};

verus! {

/// The lock word
#[derive(Clone, Copy, Debug, PartialEq, Eq, Structural)]
pub enum State {
    Unlocked,
    Locked,
    /// Locked, and some task may be waiting
    Contended,
}

/// The lock was poisoned: a holder panicked. The guard or value is still
/// handed out inside the error
#[derive(Debug, PartialEq, Eq)]
pub struct PoisonError<G> {
    /// The guard or value handed out despite the poison
    pub guard: G,
}

impl<G> PoisonError<G> {
    pub closed spec fn inner(&self) -> G {
        self.guard
    }

    pub fn new(guard: G) -> (r: Self)
        ensures
            r.inner() == guard,
    {
        Self { guard }
    }

    pub fn into_inner(self) -> (r: G)
        ensures
            r == self.inner(),
    {
        self.guard
    }
}

/// Why `try_lock` failed
#[derive(Debug, PartialEq, Eq)]
pub enum TryLockError<G> {
    Poisoned(PoisonError<G>),
    WouldBlock,
}

pub type LockResult<G> = Result<G, PoisonError<G>>;

pub type TryLockResult<G> = Result<G, TryLockError<G>>;

/// Proof of holding the lock of a [`Mutex`]
pub struct MutexGuard<T> {
    phantom: std::marker::PhantomData<T>,
}

/// An async mutex around a value
pub struct Mutex<T> {
    state: State,
    wait_list: ThreadSafeWaitList<()>,
    poisoned: bool,
    value: T,
}

/// The outcome of a lock attempt: the lock, or a pending wait
pub enum LockAttempt<T> {
    Acquired(LockResult<MutexGuard<T>>),
    Waiting,
}

/// `r` is the lock result for a mutex whose poison flag is `poisoned`
pub open spec fn poison_mapped<G>(poisoned: bool, r: LockResult<G>) -> bool {
    if poisoned {
        r is Err
    } else {
        r is Ok
    }
}

/// The effect of `try_lock` on a mutex: it takes the lock exactly when the
/// lock is free, and changes nothing else
pub open spec fn try_lock_post<T>(before: Mutex<T>, after: Mutex<T>, acquired: bool) -> bool {
    &&& acquired == (before.state_spec() == State::Unlocked)
    &&& after.state_spec() == (if acquired { State::Locked } else { before.state_spec() })
    &&& after.waiters() == before.waiters()
    &&& after.poisoned_spec() == before.poisoned_spec()
    &&& after.value_spec() == before.value_spec()
}

/// The effect of releasing a guard: the lock is free, and poisoned if the
/// holder was panicking
pub open spec fn release_post<T>(before: Mutex<T>, after: Mutex<T>, panicking: bool) -> bool {
    &&& after.state_spec() == State::Unlocked
    &&& after.poisoned_spec() == (before.poisoned_spec() || panicking)
    &&& after.value_spec() == before.value_spec()
}

impl<T> Mutex<T> {
    pub closed spec fn state_spec(&self) -> State {
        self.state
    }

    pub closed spec fn poisoned_spec(&self) -> bool {
        self.poisoned
    }

    pub closed spec fn value_spec(&self) -> T {
        self.value
    }

    pub closed spec fn waiters(&self) -> ThreadSafeWaitList<()> {
        self.wait_list
    }

    /// The wait list of a mutex is never closed
    pub open spec fn wf(&self) -> bool {
        !self.waiters().is_closed_spec()
    }

    pub fn new(value: T) -> (r: Self)
        ensures
            r.state_spec() == State::Unlocked,
            !r.poisoned_spec(),
            r.value_spec() == value,
            r.waiters().is_fresh(),
            r.wf(),
    {
        Self { state: State::Unlocked, wait_list: ThreadSafeWaitList::new(), poisoned: false, value }
    }

    /// Release the lock; when it was contended one waiter is woken
    fn unlock(&mut self)
        ensures
            final(self).state_spec() == State::Unlocked,
            old(self).state_spec() == State::Contended ==> woken_one(
                old(self).waiters(),
                final(self).waiters(),
                (),
            ),
            old(self).state_spec() != State::Contended ==> final(self).waiters() == old(self).waiters(),
            final(self).poisoned_spec() == old(self).poisoned_spec(),
            final(self).value_spec() == old(self).value_spec(),
    {
        let state = self.state;
        self.state = State::Unlocked;
        if state == State::Contended {
            self.wait_list.wake_one(());
        }
    }

    /// Take the lock if it is free
    fn try_lock_internal(&mut self) -> (acquired: bool)
        ensures
            acquired == (old(self).state_spec() == State::Unlocked),
            final(self).state_spec() == (if acquired { State::Locked } else { old(self).state_spec() }),
            final(self).waiters() == old(self).waiters(),
            final(self).poisoned_spec() == old(self).poisoned_spec(),
            final(self).value_spec() == old(self).value_spec(),
    {
        if self.state == State::Unlocked {
            self.state = State::Locked;
            true
        } else {
            false
        }
    }

    /// Spin a while for a holder to release, then mark the lock contended.
    /// Returns the state found before marking: `Unlocked` means the lock is
    /// now held
    fn try_spin_lock(&mut self) -> (prev: State)
        ensures
            prev == old(self).state_spec(),
            final(self).state_spec() == State::Contended,
            final(self).waiters() == old(self).waiters(),
            final(self).poisoned_spec() == old(self).poisoned_spec(),
            final(self).value_spec() == old(self).value_spec(),
    {
        let mut state = State::Locked;
        let mut i: u32 = 0;
        while i < 97
            invariant
                i <= 97,
                self.state == old(self).state,
                state == State::Locked || state == self.state,
            decreases 97 - i,
        {
            state = self.state;
            if state != State::Locked {
                break;
            }
            i = i + 1;
        }
        let prev = if state != State::Contended {
            let s = self.state;
            self.state = State::Contended;
            s
        } else {
            state
        };
        proof {
            assert(prev == old(self).state);
        }
        prev
    }

    /// Try to take the lock as task `request`. When it is held the task is
    /// parked on the wait list and the lock is marked contended; the task
    /// tries again when woken. A waiting task must not be interrupted: the
    /// caller checks that before retrying.
    pub fn lock(&mut self, request: u64) -> (r: LockAttempt<T>)
        requires
            old(self).wf(),
        ensures
            final(self).wf(),
            final(self).poisoned_spec() == old(self).poisoned_spec(),
            final(self).value_spec() == old(self).value_spec(),
            old(self).state_spec() == State::Unlocked ==> final(self).state_spec() == State::Locked
                && final(self).waiters() == old(self).waiters() && (r matches LockAttempt::Acquired(g)
                && poison_mapped(old(self).poisoned_spec(), g)),
            old(self).state_spec() != State::Unlocked ==> final(self).state_spec()
                == State::Contended && r is Waiting && final(self).waiters().waiters() == old(self).waiters().waiters().push(request) && final(self).waiters().completions() == old(self).waiters().completions(),
    {
        if self.try_lock_internal() {
            let guard = MutexGuard { phantom: std::marker::PhantomData };
            return LockAttempt::Acquired(self.map_poison(guard));
        }
        let prev = self.try_spin_lock();
        if prev == State::Unlocked {
            let guard = MutexGuard { phantom: std::marker::PhantomData };
            return LockAttempt::Acquired(self.map_poison(guard));
        }
        let contended = self.state == State::Contended;
        let should_block = move || -> (b: bool)
            ensures
                b == contended,
            { contended };
        let progress = self.wait_list.wait(should_block, request);
        match progress {
            Progress::Pending => LockAttempt::Waiting,
            Progress::Done(_) => {
                proof {
                    assert(false);
                }
                LockAttempt::Waiting
            },
        }
    }

    fn map_poison<G>(&self, guard: G) -> (r: LockResult<G>)
        ensures
            self.poisoned_spec() ==> r == Err::<G, PoisonError<G>>(PoisonError { guard }),
            !self.poisoned_spec() ==> r == Ok::<G, PoisonError<G>>(guard),
    {
        if self.poisoned {
            Err(PoisonError { guard })
        } else {
            Ok(guard)
        }
    }

    /// Take the lock if it is free, without waiting
    pub fn try_lock(&mut self) -> (r: TryLockResult<MutexGuard<T>>)
        ensures
            try_lock_post(*old(self), *final(self), !(r matches Err(TryLockError::WouldBlock))),
            final(self).waiters() == old(self).waiters(),
            final(self).poisoned_spec() == old(self).poisoned_spec(),
            final(self).value_spec() == old(self).value_spec(),
            old(self).state_spec() == State::Unlocked ==> final(self).state_spec() == State::Locked
                && (if old(self).poisoned_spec() {
                r matches Err(TryLockError::Poisoned(_))
            } else {
                r is Ok
            }),
            old(self).state_spec() != State::Unlocked ==> final(self).state_spec() == old(self).state_spec() && r matches Err(TryLockError::WouldBlock),
    {
        if self.try_lock_internal() {
            let guard = MutexGuard { phantom: std::marker::PhantomData };
            match self.map_poison(guard) {
                Ok(g) => Ok(g),
                Err(e) => Err(TryLockError::Poisoned(e)),
            }
        } else {
            Err(TryLockError::WouldBlock)
        }
    }

    pub fn is_poisoned(&self) -> (r: bool)
        ensures
            r == self.poisoned_spec(),
    {
        self.poisoned
    }

    pub fn clear_poison(&mut self)
        ensures
            !final(self).poisoned_spec(),
            final(self).state_spec() == old(self).state_spec(),
            final(self).waiters() == old(self).waiters(),
            final(self).value_spec() == old(self).value_spec(),
    {
        self.poisoned = false;
    }

    /// The value, flagged if the lock is poisoned
    pub fn into_inner(self) -> (r: LockResult<T>)
        ensures
            self.poisoned_spec() ==> (r matches Err(e) && e.inner() == self.value_spec()),
            !self.poisoned_spec() ==> r == Ok::<T, PoisonError<T>>(self.value_spec()),
    {
        if self.poisoned {
            Err(PoisonError { guard: self.value })
        } else {
            Ok(self.value)
        }
    }

    /// The value, without locking (the mutex is borrowed exclusively). When
    /// the lock is poisoned the value is still handed out, inside the error
    pub fn get_mut(&mut self) -> (r: LockResult<&mut T>)
        ensures
            old(self).poisoned_spec() ==> (r matches Err(e) && *e.guard == old(self).value_spec()
                && final(self).value_spec() == *final(e.guard)),
            !old(self).poisoned_spec() ==> (r matches Ok(v) && *v == old(self).value_spec()
                && final(self).value_spec() == *final(v)),
            final(self).state_spec() == old(self).state_spec(),
            final(self).poisoned_spec() == old(self).poisoned_spec(),
            final(self).waiters() == old(self).waiters(),
    {
        if self.poisoned {
            Err(PoisonError { guard: &mut self.value })
        } else {
            Ok(&mut self.value)
        }
    }
}

impl<T> MutexGuard<T> {
    /// The protected value
    pub fn get<'a>(&self, mutex: &'a Mutex<T>) -> (r: &'a T)
        ensures
            *r == mutex.value_spec(),
    {
        &mutex.value
    }

    /// Replace the protected value
    pub fn set(&self, mutex: &mut Mutex<T>, value: T)
        ensures
            final(mutex).value_spec() == value,
            final(mutex).state_spec() == old(mutex).state_spec(),
            final(mutex).poisoned_spec() == old(mutex).poisoned_spec(),
            final(mutex).waiters() == old(mutex).waiters(),
    {
        mutex.value = value;
    }

    /// Release the lock. A holder that is unwinding from a panic poisons the
    /// mutex
    pub fn release(self, mutex: &mut Mutex<T>, panicking: bool)
        ensures
            release_post(*old(mutex), *final(mutex), panicking),
            final(mutex).state_spec() == State::Unlocked,
            final(mutex).poisoned_spec() == (old(mutex).poisoned_spec() || panicking),
            final(mutex).value_spec() == old(mutex).value_spec(),
            old(mutex).state_spec() == State::Contended ==> woken_one(
                old(mutex).waiters(),
                final(mutex).waiters(),
                (),
            ),
            old(mutex).state_spec() != State::Contended ==> final(mutex).waiters() == old(mutex).waiters(),
    {
        if panicking {
            mutex.poisoned = true;
        }
        mutex.unlock();
    }
}

/// Mutual exclusion: once `try_lock` took the lock, a second `try_lock`
/// does not get it; after the guard is released, `try_lock` gets it again
pub proof fn law_mutual_exclusion<T>(
    m0: Mutex<T>,
    m1: Mutex<T>,
    m2: Mutex<T>,
    m3: Mutex<T>,
    m4: Mutex<T>,
    first: bool,
    second: bool,
    panicking: bool,
    third: bool,
)
    requires
        try_lock_post(m0, m1, first),
        first,
        try_lock_post(m1, m2, second),
        release_post(m2, m3, panicking),
        try_lock_post(m3, m4, third),
    ensures
        !second,
        third,
        m4.poisoned_spec() == (m0.poisoned_spec() || panicking),
{
}

/// A lock that is free is taken by `try_lock`
pub proof fn law_free_lock_is_taken<T>(m0: Mutex<T>, m1: Mutex<T>, acquired: bool)
    requires
        m0.state_spec() == State::Unlocked,
        try_lock_post(m0, m1, acquired),
    ensures
        acquired,
        m1.state_spec() == State::Locked,
{
}

} // verus!
