//! The condition variable: waiting on a mutex, with and without a limit
//! in time.
//!
//! A wait releases the mutex, sleeps, and takes the mutex again before it
//! returns, whatever woke it. The sleep is the caller's to perform. The
//! loops that repeat a wait until a condition is gone are given here one
//! turn at a time: each turn takes what the caller observed and says
//! whether to return or to sleep once more.

use crate::mutex::{Mutex, MutexGuard};
use crate::poison::{payload, Guard, LockResult, PoisonError};
use crate::sys::condvar as sys;
use crate::sys::mutex::MutexGuard as RawGuard;
use crate::init_assert::InitState;
use std::sync::Arc;
use vstd::prelude::*;

verus! {

/// Whether a timed wait ran out of time.
#[derive(Debug, PartialEq, Eq, Copy, Clone, Structural)]
pub struct WaitTimeoutResult(pub bool);

impl WaitTimeoutResult {
    /// `true` where the wait ended because its time was up.
    pub fn timed_out(&self) -> (r: bool)
        ensures
            r == self.0,
    {
        self.0
    }
}

/// A thread asleep on a condition variable: it has let go of its mutex and
/// keeps what its acquisition remembers.
#[derive(Debug)]
pub struct Waiter {
    token: Guard,
}

impl Waiter {
    /// What the suspended acquisition remembers.
    pub closed spec fn token(&self) -> Guard {
        self.token
    }
}

/// One turn of a wait that lasts while a condition holds.
#[derive(Debug)]
pub enum WaitStep {
    /// The condition is gone: the wait returns the guard.
    Done(MutexGuard),
    /// The condition holds: wait on the condition variable, then look
    /// again.
    Wait(MutexGuard),
}

/// One turn of a wait that lasts while a condition holds and time is left.
#[derive(Debug)]
pub enum TimedStep {
    /// The wait returns the guard, and says whether time ran out.
    Done(MutexGuard, WaitTimeoutResult),
    /// The condition holds and this many nanoseconds are left: wait that
    /// long at most, then look again.
    Wait(MutexGuard, u128),
}

/// What a timed wait returns: the verdict of `result` on poisoning, around
/// the guard and the report on time.
pub open spec fn timed_spec(result: LockResult<MutexGuard>, timed_out: bool) -> LockResult<
    (MutexGuard, WaitTimeoutResult),
> {
    match result {
        Ok(guard) => Ok((guard, WaitTimeoutResult(timed_out))),
        Err(error) => Err(PoisonError { guard: (error.guard, WaitTimeoutResult(timed_out)) }),
    }
}

/// Puts the report on time next to the guard, inside or outside the error.
pub fn timed(result: LockResult<MutexGuard>, timed_out: bool) -> (r: LockResult<
    (MutexGuard, WaitTimeoutResult),
>)
    ensures
        r == timed_spec(result, timed_out),
{
    match result {
        Ok(v) => Ok((v, WaitTimeoutResult(timed_out))),
        Err(v) => Err(PoisonError::new((v.into_inner(), WaitTimeoutResult(timed_out)))),
    }
}

/// What is left of `dur` after `elapsed`, both in nanoseconds; `None` once
/// more than `dur` has passed.
pub open spec fn remaining(dur: u128, elapsed: u128) -> Option<u128> {
    if elapsed > dur {
        None
    } else {
        Some((dur - elapsed) as u128)
    }
}

/// One turn of a timed wait on a condition: what it decides from the time
/// allowed, the time gone and what the predicate said.
pub open spec fn timed_turn(guard: MutexGuard, dur: u128, elapsed: u128, condition: bool)
    -> TimedStep {
    if !condition {
        TimedStep::Done(guard, WaitTimeoutResult(false))
    } else {
        match remaining(dur, elapsed) {
            Some(timeout) => TimedStep::Wait(guard, timeout),
            None => TimedStep::Done(guard, WaitTimeoutResult(true)),
        }
    }
}

/// A timed wait on a condition returns at once and in time where the
/// condition is gone, however little time was allowed. It never returns in
/// time while the condition holds, and it returns out of time only when
/// more than the time allowed has passed; until then it waits for no
/// longer than what is left.
pub proof fn lemma_timed_turn(guard: MutexGuard, dur: u128, elapsed: u128, condition: bool)
    ensures
        !condition ==> timed_turn(guard, dur, elapsed, condition) == TimedStep::Done(
            guard,
            WaitTimeoutResult(false),
        ),
        timed_turn(guard, dur, elapsed, condition) matches TimedStep::Done(_, t) ==> (t.0
            <==> condition),
        timed_turn(guard, dur, elapsed, condition) matches TimedStep::Done(_, t) && t.0
            ==> elapsed > dur,
        condition && elapsed > dur ==> timed_turn(guard, dur, elapsed, condition)
            == TimedStep::Done(guard, WaitTimeoutResult(true)),
        timed_turn(guard, dur, elapsed, condition) matches TimedStep::Wait(_, timeout)
            ==> condition && timeout + elapsed == dur,
{
}

/// A condition variable.
pub struct Condvar {
    inner: sys::Condvar,
}

impl Condvar {
    /// How far the initialisation has come.
    pub closed spec fn state(&self) -> InitState {
        self.inner.state()
    }

    /// Whether `init` has run.
    pub open spec fn is_init(&self) -> bool {
        self.state() == InitState::Init
    }

    /// A condition variable that is not yet ready for use.
    pub fn uninit() -> (r: Self)
        ensures
            r.state() == InitState::Uninit,
    {
        Condvar { inner: sys::Condvar::uninit() }
    }

    /// Makes the condition variable ready for use. Doing so twice is a
    /// usage error.
    pub fn init(&mut self)
        requires
            old(self).state() == InitState::Uninit,
        ensures
            final(self).is_init(),
    {
        self.inner.init()
    }

    /// A condition variable, ready for use, at its place on the heap.
    pub fn boxed() -> (r: Box<Self>)
        ensures
            r.is_init(),
    {
        let mut this = Box::new(Self::uninit());
        this.init();
        this
    }

    /// A condition variable, ready for use, behind a shared handle.
    pub fn arc() -> (r: Arc<Self>)
        ensures
            r.is_init(),
    {
        let mut this = Self::uninit();
        this.init();
        Arc::new(this)
    }

    /// Reports how far the initialisation has come.
    pub fn init_state(&self) -> (s: InitState)
        ensures
            s == self.state(),
    {
        self.inner.init_state()
    }

    /// Admits a wake-up of one waiter. The condition variable keeps
    /// nothing of it: with no waiter there, it is lost.
    pub fn notify_one(&self)
        requires
            self.is_init(),
    {
        self.inner.notify_one()
    }

    /// Admits a wake-up of all waiters. The condition variable keeps
    /// nothing of it: with no waiter there, it is lost.
    pub fn notify_all(&self)
        requires
            self.is_init(),
    {
        self.inner.notify_all()
    }

    /// Starts a wait: lets go of `mutex` and leaves the thread asleep.
    /// The acquisition is not over, so the poison flag is not touched.
    pub fn park<T>(&self, mutex: &mut Mutex<T>, lock: MutexGuard) -> (w: Waiter)
        requires
            self.is_init(),
            old(mutex).held(),
        ensures
            !final(mutex).held(),
            final(mutex).same_content(old(mutex)),
            w.token() == lock.token(),
    {
        Waiter { token: lock.suspend(mutex) }
    }

    /// Ends a wait, whatever woke the thread: takes `mutex` again, which
    /// the caller has waited for, and returns the guard. A mutex that was
    /// poisoned while the thread slept says so.
    pub fn resume<T>(&self, mutex: &mut Mutex<T>, waiter: Waiter) -> (r: LockResult<MutexGuard>)
        requires
            self.is_init(),
            old(mutex).is_init(),
            !old(mutex).held(),
        ensures
            final(mutex).held(),
            final(mutex).same_content(old(mutex)),
            r is Err <==> old(mutex).poisoned(),
            payload(r).token() == waiter.token(),
    {
        let Waiter { token } = waiter;
        MutexGuard::restore(mutex, token)
    }

    /// Ends a timed wait: as `resume`, with the report of the sleep on
    /// whether its time ran out.
    pub fn resume_timeout<T>(&self, mutex: &mut Mutex<T>, waiter: Waiter, timed_out: bool) -> (r:
        LockResult<(MutexGuard, WaitTimeoutResult)>)
        requires
            self.is_init(),
            old(mutex).is_init(),
            !old(mutex).held(),
        ensures
            final(mutex).held(),
            final(mutex).same_content(old(mutex)),
            r is Err <==> old(mutex).poisoned(),
            payload(r).0.token() == waiter.token(),
            payload(r).1 == WaitTimeoutResult(timed_out),
    {
        timed(self.resume(mutex, waiter), timed_out)
    }

    /// A wait during which nobody else took the mutex: the guard comes
    /// back as it went, inside an error if the mutex is poisoned.
    pub fn wait<T>(&self, mutex: &Mutex<T>, lock: MutexGuard) -> (r: LockResult<MutexGuard>)
        requires
            self.is_init(),
        ensures
            r is Err <==> mutex.poisoned(),
            payload(r).token() == lock.token(),
            payload(r).raw() == lock.raw(),
    {
        lock.map(
            mutex,
            |guard: RawGuard| -> (g: RawGuard)
                ensures g == guard
                { self.inner.wait(guard) },
        )
    }

    /// One turn of a wait that lasts while a condition holds.
    /// `condition` is what the caller's predicate said of the value under
    /// the lock.
    pub fn wait_while(&self, guard: MutexGuard, condition: bool) -> (r: WaitStep)
        ensures
            r == (if condition {
                WaitStep::Wait(guard)
            } else {
                WaitStep::Done(guard)
            }),
    {
        if condition {
            WaitStep::Wait(guard)
        } else {
            WaitStep::Done(guard)
        }
    }

    /// A timed wait during which nobody else took the mutex. `timed_out`
    /// is the report of the sleep on whether its time ran out.
    pub fn wait_timeout<T>(&self, mutex: &Mutex<T>, lock: MutexGuard, timed_out: bool) -> (r:
        LockResult<(MutexGuard, WaitTimeoutResult)>)
        requires
            self.is_init(),
        ensures
            r is Err <==> mutex.poisoned(),
            payload(r).0.token() == lock.token(),
            payload(r).0.raw() == lock.raw(),
            payload(r).1 == WaitTimeoutResult(timed_out),
    {
        let result = lock.map(
            mutex,
            |guard: RawGuard| -> (g: RawGuard)
                ensures g == guard
                { self.inner.wait_timeout(guard, timed_out).1 },
        );
        timed(result, timed_out)
    }

    /// One turn of a wait that lasts while a condition holds and time is
    /// left. `dur` is the whole time allowed and `elapsed` the time since
    /// the wait began, in nanoseconds of a clock that never goes back;
    /// `condition` is what the caller's predicate said of the value under
    /// the lock.
    ///
    /// A condition that is gone ends the wait at once, in time. A condition
    /// that holds ends it only when more than `dur` has passed, out of time.
    pub fn wait_timeout_while(&self, guard: MutexGuard, dur: u128, elapsed: u128, condition: bool)
        -> (r: TimedStep)
        ensures
            r == timed_turn(guard, dur, elapsed, condition),
    {
        if !condition {
            return TimedStep::Done(guard, WaitTimeoutResult(false));
        }
        match dur.checked_sub(elapsed) {
            Some(timeout) => TimedStep::Wait(guard, timeout),
            None => TimedStep::Done(guard, WaitTimeoutResult(true)),
        }
    }
}

} // verus!
