//! The condition variable as the backend sees it.
//!
//! The queue of waiting threads belongs to the operating system. What is
//! kept here is whether the object is ready for use, and what a wait hands
//! back to the layer above.

use crate::init_assert::{InitAssert, InitState};
use crate::sys::mutex::MutexGuard;
use vstd::prelude::*;

verus! {

/// The record of one condition variable.
pub struct Condvar {
    inner: InitAssert<()>,
}

impl Condvar {
    /// How far the initialisation has come.
    pub closed spec fn state(&self) -> InitState {
        self.inner.state()
    }

    /// Whether `init` has run.
    pub open spec fn is_init(&self) -> bool {
        self.state() == InitState::Init
    }

    /// A condition variable that is not yet ready for use.
    pub fn uninit() -> (r: Self)
        ensures
            r.state() == InitState::Uninit,
    {
        Condvar { inner: InitAssert::new() }
    }

    /// Makes the condition variable ready for use. Doing so twice is a
    /// usage error.
    pub fn init(&mut self)
        requires
            old(self).state() == InitState::Uninit,
        ensures
            final(self).is_init(),
    {
        self.inner.init(|| -> (u: ()) { });
    }

    /// Reports how far the initialisation has come.
    pub fn init_state(&self) -> (s: InitState)
        ensures
            s == self.state(),
    {
        self.inner.current()
    }

    /// Admits a wake-up of one waiter. Nothing is kept of it: the record
    /// is the same before and after, so a later wait cannot see it.
    pub fn notify_one(&self)
        requires
            self.is_init(),
    {
        let _ready: &() = self.inner.get_ref();
    }

    /// Admits a wake-up of all waiters. Nothing is kept of it.
    pub fn notify_all(&self)
        requires
            self.is_init(),
    {
        let _ready: &() = self.inner.get_ref();
    }

    /// Passes the guard of the mutex through a wait: the mutex was released
    /// while the thread slept and is held again when the wait returns.
    pub fn wait(&self, lock: MutexGuard) -> (r: MutexGuard)
        requires
            self.is_init(),
        ensures
            r == lock,
    {
        let _ready: &() = self.inner.get_ref();
        lock
    }

    /// Passes the guard through a timed wait. `timed_out` is what the
    /// native wait reported; the first component of the result says whether
    /// the wait ended before its time was up.
    pub fn wait_timeout(&self, lock: MutexGuard, timed_out: bool) -> (r: (bool, MutexGuard))
        requires
            self.is_init(),
        ensures
            r.0 == !timed_out,
            r.1 == lock,
    {
        let _ready: &() = self.inner.get_ref();
        (!timed_out, lock)
    }
}

} // verus!
