//! A simple wait list. A task waits on the list and is resumed with a value
//! when someone notifies it.

use vstd::prelude::*;
use super::wait_list::{woken_all, Progress, RawWaitList, ThreadSafeWaitList, WaitError, WaitResult};

verus! {

/// A wait list for tasks of one thread
pub struct RawNotify<T> {
    waiters: RawWaitList<T>,
}

impl<T: Clone> RawNotify<T> {
    /// The underlying wait list
    pub closed spec fn list(&self) -> RawWaitList<T> {
        self.waiters
    }

    #[must_use]
    pub fn new_unpinned() -> (r: Self)
        ensures
            r.list().waiters() == Seq::<u64>::empty(),
            r.list().count() == 0,
            !r.list().is_closed_spec(),
            r.list().completions() == Seq::<(u64, WaitResult<T>)>::empty(),
    {
        Self { waiters: RawWaitList::new() }
    }

    /// Start waiting as task `request` (see [`RawWaitList::wait`])
    pub fn wait(&mut self, request: u64) -> (r: Progress<WaitResult<T>>)
        ensures
            old(self).list().is_closed_spec() ==> r == Progress::Done(
                Err::<T, WaitError>(WaitError::Closed),
            ) && final(self).list().waiters() == old(self).list().waiters()
                && final(self).list().count() == old(self).list().count(),
            !old(self).list().is_closed_spec() ==> r == Progress::<WaitResult<T>>::Pending
                && final(self).list().waiters() == old(self).list().waiters().push(request)
                && final(self).list().count() == old(self).list().count().wrapping_add(1),
            final(self).list().is_closed_spec() == old(self).list().is_closed_spec(),
            final(self).list().completions() == old(self).list().completions(),
    {
        self.waiters.wait(request)
    }

    /// A wait that was pending has returned: the task no longer counts
    pub fn finish_wait(&mut self)
        ensures
            final(self).list().count() == old(self).list().count().wrapping_sub(1),
            final(self).list().waiters() == old(self).list().waiters(),
            final(self).list().is_closed_spec() == old(self).list().is_closed_spec(),
            final(self).list().completions() == old(self).list().completions(),
    {
        self.waiters.finish_wait()
    }

    /// Wake every waiting task with `value`; returns the number of tasks
    /// that were waiting
    pub fn notify(&mut self, value: T) -> (n: usize)
        ensures
            n == old(self).list().count(),
            final(self).list().count() == old(self).list().count(),
            final(self).list().is_closed_spec() == old(self).list().is_closed_spec(),
            final(self).list().waiters() == Seq::<u64>::empty(),
            final(self).list().completions().subrange(
                0,
                old(self).list().completions().len() as int,
            ) == old(self).list().completions(),
            final(self).list().completions().len() == old(self).list().completions().len() + old(self).list().waiters().len(),
            woken_all(
                old(self).list().waiters(),
                value,
                final(self).list().completions().subrange(
                    old(self).list().completions().len() as int,
                    final(self).list().completions().len() as int,
                ),
            ),
    {
        self.waiters.wake_all(value)
    }
}

/// A wait list for tasks of one thread, created ready to use
pub struct RcNotify<T> {
    raw: RawNotify<T>,
}

impl<T: Clone> RcNotify<T> {
    pub closed spec fn list(&self) -> RawWaitList<T> {
        self.raw.list()
    }

    /// Create a new notify instance
    #[must_use]
    pub fn new() -> (r: Self)
        ensures
            r.list().waiters() == Seq::<u64>::empty(),
            r.list().count() == 0,
            !r.list().is_closed_spec(),
    {
        Self { raw: RawNotify::new_unpinned() }
    }

    /// Start waiting as task `request` (see [`RawWaitList::wait`])
    pub fn wait(&mut self, request: u64) -> (r: Progress<WaitResult<T>>)
        ensures
            old(self).list().is_closed_spec() ==> r == Progress::Done(
                Err::<T, WaitError>(WaitError::Closed),
            ) && final(self).list().waiters() == old(self).list().waiters()
                && final(self).list().count() == old(self).list().count(),
            !old(self).list().is_closed_spec() ==> r == Progress::<WaitResult<T>>::Pending
                && final(self).list().waiters() == old(self).list().waiters().push(request)
                && final(self).list().count() == old(self).list().count().wrapping_add(1),
            final(self).list().is_closed_spec() == old(self).list().is_closed_spec(),
            final(self).list().completions() == old(self).list().completions(),
    {
        self.raw.wait(request)
    }

    /// A wait that was pending has returned: the task no longer counts
    pub fn finish_wait(&mut self)
        ensures
            final(self).list().count() == old(self).list().count().wrapping_sub(1),
            final(self).list().waiters() == old(self).list().waiters(),
            final(self).list().is_closed_spec() == old(self).list().is_closed_spec(),
            final(self).list().completions() == old(self).list().completions(),
    {
        self.raw.finish_wait()
    }

    /// Wake every waiting task with `value`; returns the number of tasks
    /// inside a wait
    pub fn notify(&mut self, value: T) -> (n: usize)
        ensures
            n == old(self).list().count(),
            final(self).list().count() == old(self).list().count(),
            final(self).list().is_closed_spec() == old(self).list().is_closed_spec(),
            final(self).list().waiters() == Seq::<u64>::empty(),
            final(self).list().completions().len() == old(self).list().completions().len() + old(self).list().waiters().len(),
            woken_all(
                old(self).list().waiters(),
                value,
                final(self).list().completions().subrange(
                    old(self).list().completions().len() as int,
                    final(self).list().completions().len() as int,
                ),
            ),
    {
        self.raw.notify(value)
    }
}

/// A thread safe wait list
pub struct Notify<T> {
    waiters: ThreadSafeWaitList<T>,
}

impl<T: Clone> Notify<T> {
    pub closed spec fn list(&self) -> ThreadSafeWaitList<T> {
        self.waiters
    }

    /// Create a new notify instance
    #[must_use]
    pub fn new() -> (r: Self)
        ensures
            r.list().waiters() == Seq::<u64>::empty(),
            r.list().count() == 0,
            !r.list().is_closed_spec(),
            !r.list().empty_hint(),
            r.list().completions() == Seq::<(u64, WaitResult<T>)>::empty(),
    {
        Self { waiters: ThreadSafeWaitList::new() }
    }

    /// Start waiting as task `request`; the wait always blocks unless the
    /// list is closed
    pub fn wait(&mut self, request: u64) -> (r: Progress<WaitResult<T>>)
        ensures
            old(self).list().is_closed_spec() ==> r == Progress::Done(
                Err::<T, WaitError>(WaitError::Closed),
            ) && final(self).list().waiters() == old(self).list().waiters()
                && final(self).list().count() == old(self).list().count(),
            !old(self).list().is_closed_spec() ==> r == Progress::<WaitResult<T>>::Pending
                && final(self).list().waiters() == old(self).list().waiters().push(request)
                && final(self).list().count() == old(self).list().count().wrapping_add(1)
                && !final(self).list().empty_hint(),
            final(self).list().is_closed_spec() == old(self).list().is_closed_spec(),
            final(self).list().completions() == old(self).list().completions(),
    {
        let always = || -> (b: bool)
            ensures
                b,
            { true };
        self.waiters.wait(always, request)
    }

    /// A wait that was pending has returned: the task no longer counts
    pub fn finish_wait(&mut self)
        ensures
            final(self).list().count() == old(self).list().count().wrapping_sub(1),
            final(self).list().waiters() == old(self).list().waiters(),
            final(self).list().is_closed_spec() == old(self).list().is_closed_spec(),
            final(self).list().empty_hint() == old(self).list().empty_hint(),
            final(self).list().completions() == old(self).list().completions(),
    {
        self.waiters.finish_wait()
    }

    /// Wake every waiting task with `value`; returns the number of tasks
    /// that were waiting (zero when the list's empty hint is set)
    pub fn notify(&mut self, value: T) -> (n: usize)
        ensures
            old(self).list().empty_hint() ==> n == 0 && final(self).list().waiters() == old(self).list().waiters(),
            !old(self).list().empty_hint() ==> n == old(self).list().count() && final(self).list().waiters() == Seq::<u64>::empty() && final(self).list().completions().len()
                == old(self).list().completions().len() + old(self).list().waiters().len()
                && woken_all(
                old(self).list().waiters(),
                value,
                final(self).list().completions().subrange(
                    old(self).list().completions().len() as int,
                    final(self).list().completions().len() as int,
                ),
            ),
    {
        self.waiters.wake_all(value)
    }
}

} // verus!
