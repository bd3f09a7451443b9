//! The mutual-exclusion lock: a backend lock, a poison flag and the value
//! that both protect.

use crate::init_assert::InitState;
use crate::poison::{map_result, payload, Flag, Guard, LockResult, PoisonError, TryLockError, TryLockResult, released};
use crate::sys::mutex as sys;
use std::sync::Arc;
use vstd::prelude::*;

verus! {

/// A value of type `T` behind an exclusive lock.
///
/// The value is reached through the guard that `lock` and `try_lock`
/// return. A holder that fails while it holds the guard leaves the mutex
/// poisoned: later acquisitions still succeed, and say so.
pub struct Mutex<T> {
    inner: sys::Mutex,
    poison: Flag,
    data: T,
}

/// Proof of one acquisition of a `Mutex`. It carries what the acquisition
/// has to remember for its release.
#[derive(Debug)]
pub struct MutexGuard {
    guard: sys::MutexGuard,
    poison: Guard,
}

impl<T> Mutex<T> {
    /// How far the initialisation of the mutex has come.
    pub closed spec fn state(&self) -> InitState {
        self.inner.state()
    }

    /// Whether `init` has run.
    pub open spec fn is_init(&self) -> bool {
        self.state() == InitState::Init
    }

    /// Whether a guard is out.
    pub closed spec fn held(&self) -> bool {
        self.inner.is_held()
    }

    /// Whether a holder failed while it held the guard.
    pub closed spec fn poisoned(&self) -> bool {
        self.poison.failed()
    }

    /// The protected value.
    pub closed spec fn value(&self) -> T {
        self.data
    }

    /// Whether `self` differs from `before` in nothing but who holds it.
    pub open spec fn same_content(&self, before: &Self) -> bool {
        &&& self.state() == before.state()
        &&& self.poisoned() == before.poisoned()
        &&& self.value() == before.value()
    }

    /// A mutex around `value` that is not yet ready for use.
    pub fn uninit(value: T) -> (r: Self)
        ensures
            r.state() == InitState::Uninit,
            !r.held(),
            !r.poisoned(),
            r.value() == value,
    {
        Mutex { inner: sys::Mutex::uninit(), poison: Flag::new(), data: value }
    }

    /// A mutex around `value`, ready for use, at its place on the heap.
    pub fn boxed(value: T) -> (r: Box<Self>)
        ensures
            r.is_init(),
            !r.held(),
            !r.poisoned(),
            r.value() == value,
    {
        let mut this = Box::new(Self::uninit(value));
        this.init();
        this
    }

    /// A mutex around `value`, ready for use, behind a shared handle.
    pub fn arc(value: T) -> (r: Arc<Self>)
        ensures
            r.is_init(),
            !r.held(),
            !r.poisoned(),
            r.value() == value,
    {
        let mut this = Self::uninit(value);
        this.init();
        Arc::new(this)
    }

    /// Makes the mutex ready for use. Doing so twice is a usage error.
    pub fn init(&mut self)
        requires
            old(self).state() == InitState::Uninit,
        ensures
            final(self).is_init(),
            final(self).held() == old(self).held(),
            final(self).poisoned() == old(self).poisoned(),
            final(self).value() == old(self).value(),
    {
        self.inner.init()
    }

    /// Takes the mutex for a thread that is (`panicking`) or is not failing
    /// already. The caller has waited until the mutex was free.
    ///
    /// The guard is returned either way; on a poisoned mutex it comes
    /// inside the error.
    pub fn lock(&mut self, panicking: bool) -> (r: LockResult<MutexGuard>)
        requires
            old(self).is_init(),
            !old(self).held(),
        ensures
            final(self).held(),
            final(self).same_content(old(self)),
            r is Err <==> old(self).poisoned(),
            payload(r).token() == (Guard { panicking }),
    {
        let guard = self.inner.lock();
        map_result(
            self.poison.borrow(panicking),
            |poison: Guard| -> (g: MutexGuard)
                ensures g.token() == poison
                { MutexGuard { guard, poison } },
        )
    }

    /// Takes the mutex if it is free, without waiting.
    pub fn try_lock(&mut self, panicking: bool) -> (r: TryLockResult<MutexGuard>)
        requires
            old(self).is_init(),
        ensures
            final(self).held(),
            final(self).same_content(old(self)),
            old(self).held() <==> r matches Err(TryLockError::WouldBlock),
            !old(self).held() && old(self).poisoned() <==> r matches Err(
                TryLockError::Poisoned(_),
            ),
            match r {
                Ok(g) => g.token() == (Guard { panicking }),
                Err(TryLockError::Poisoned(e)) => e.guard.token() == (Guard { panicking }),
                Err(TryLockError::WouldBlock) => true,
            },
    {
        let guard = match self.inner.try_lock() {
            Some(guard) => guard,
            None => {
                return Err(TryLockError::WouldBlock);
            },
        };
        let result = map_result(
            self.poison.borrow(panicking),
            |poison: Guard| -> (g: MutexGuard)
                ensures g.token() == poison
                { MutexGuard { guard, poison } },
        );
        match result {
            Ok(g) => Ok(g),
            Err(e) => Err(TryLockError::Poisoned(e)),
        }
    }

    /// Reports how far the initialisation has come.
    pub fn init_state(&self) -> (s: InitState)
        ensures
            s == self.state(),
    {
        self.inner.init_state()
    }

    /// Reports whether the mutex is poisoned.
    pub fn is_poisoned(&self) -> (r: bool)
        ensures
            r == self.poisoned(),
    {
        self.poison.get()
    }

    /// The value as it stands, for the owner of the mutex.
    pub(crate) fn peek(&self) -> (r: &T)
        ensures
            *r == self.value(),
    {
        &self.data
    }

    /// Reports whether a guard is out.
    pub fn is_locked(&self) -> (r: bool)
        ensures
            r == self.held(),
    {
        self.inner.locked()
    }

    /// Gives the value up and ends the mutex. A poisoned mutex says so and
    /// still gives the value.
    pub fn into_inner(self) -> (r: LockResult<T>)
        ensures
            r is Err <==> self.poisoned(),
            payload(r) == self.value(),
    {
        let Mutex { inner: _, poison, data } = self;
        if poison.get() {
            Err(PoisonError::new(data))
        } else {
            Ok(data)
        }
    }

    /// The value, for writing, for a caller that owns the mutex alone. A
    /// poisoned mutex says so and still gives the reference.
    pub fn get_mut(&mut self) -> (r: LockResult<&mut T>)
        ensures
            r is Err <==> old(self).poisoned(),
            *payload(r) == old(self).value(),
            final(self).value() == *final(payload(r)),
            final(self).state() == old(self).state(),
            final(self).held() == old(self).held(),
            final(self).poisoned() == old(self).poisoned(),
    {
        let data = &mut self.data;
        if self.poison.get() {
            Err(PoisonError::new(data))
        } else {
            Ok(data)
        }
    }
}

impl MutexGuard {
    /// What the acquisition remembers for its release.
    pub closed spec fn token(&self) -> Guard {
        self.poison
    }

    /// The guard of the backend lock.
    pub closed spec fn raw(&self) -> sys::MutexGuard {
        self.guard
    }

    /// Passes the backend guard through `f` and keeps the rest, then looks
    /// at the mutex again: a mutex that is poisoned by now says so.
    pub fn map<T, F>(self, mutex: &Mutex<T>, f: F) -> (r: LockResult<Self>) where
        F: FnOnce(sys::MutexGuard) -> sys::MutexGuard,

        requires
            f.requires((self.raw(),)),
        ensures
            r is Err <==> mutex.poisoned(),
            payload(r).token() == self.token(),
            f.ensures((self.raw(),), payload(r).raw()),
    {
        let MutexGuard { guard, poison } = self;
        let guard = f(guard);
        (MutexGuard { guard, poison }).repoison(mutex)
    }

    /// Wraps the guard in the verdict of the mutex as it is now.
    pub fn repoison<T>(self, mutex: &Mutex<T>) -> (r: LockResult<Self>)
        ensures
            r is Err <==> mutex.poisoned(),
            payload(r) == self,
    {
        if mutex.is_poisoned() {
            Err(PoisonError::new(self))
        } else {
            Ok(self)
        }
    }

    /// The protected value, shared.
    pub fn deref<'a, T>(&self, mutex: &'a Mutex<T>) -> (r: &'a T)
        requires
            mutex.held(),
        ensures
            *r == mutex.value(),
    {
        &mutex.data
    }

    /// The protected value, for writing. The mutex holds whatever the
    /// caller leaves behind the reference.
    pub fn deref_mut<'a, T>(&self, mutex: &'a mut Mutex<T>) -> (r: &'a mut T)
        requires
            old(mutex).held(),
        ensures
            *r == old(mutex).value(),
            final(mutex).value() == *final(r),
            final(mutex).state() == old(mutex).state(),
            final(mutex).held(),
            final(mutex).poisoned() == old(mutex).poisoned(),
    {
        &mut mutex.data
    }

    /// Lets go of the mutex for the length of a sleep, without ending the
    /// acquisition: the poison flag is not touched, and what the
    /// acquisition remembers is handed to the caller to come back with.
    pub(crate) fn suspend<T>(self, mutex: &mut Mutex<T>) -> (token: Guard)
        requires
            old(mutex).held(),
        ensures
            !final(mutex).held(),
            final(mutex).same_content(old(mutex)),
            token == self.token(),
    {
        let MutexGuard { guard, poison } = self;
        mutex.inner.unlock(guard);
        poison
    }

    /// Takes the mutex again after a sleep, for the acquisition that
    /// `token` belongs to. The caller has waited until the mutex was free.
    /// A mutex that was poisoned in the meantime says so.
    pub(crate) fn restore<T>(mutex: &mut Mutex<T>, token: Guard) -> (r: LockResult<Self>)
        requires
            old(mutex).is_init(),
            !old(mutex).held(),
        ensures
            final(mutex).held(),
            final(mutex).same_content(old(mutex)),
            r is Err <==> old(mutex).poisoned(),
            payload(r).token() == token,
    {
        let guard = mutex.inner.lock();
        (MutexGuard { guard, poison: token }).repoison(mutex)
    }

    /// Ends the acquisition, for a thread that is (`panicking`) or is not
    /// failing now. The mutex is free afterwards, and poisoned if the
    /// holder started to fail while it held the guard.
    pub fn release<T>(self, mutex: &mut Mutex<T>, panicking: bool)
        requires
            old(mutex).held(),
        ensures
            !final(mutex).held(),
            final(mutex).state() == old(mutex).state(),
            final(mutex).value() == old(mutex).value(),
            final(mutex).poisoned() == released(old(mutex).poisoned(), self.token(), panicking),
    {
        let MutexGuard { guard, poison } = self;
        mutex.poison.done(&poison, panicking);
        mutex.inner.unlock(guard);
    }
}

} // verus!
