//! The reader-writer lock: a backend record, a poison flag and the value
//! that both protect.

use crate::init_assert::InitState;
use crate::poison::{map_result, payload, Flag, Guard, LockResult, PoisonError, TryLockError, TryLockResult, released};
use crate::sys::rwlock as sys;
use crate::sys::rwlock::{Attempt, ReadStatus, Verdict, WriteStatus};
use std::sync::Arc;
use vstd::prelude::*;

verus! {

/// A value of type `T` behind a lock that many readers or one writer hold.
///
/// Only a writer can leave the value torn, so only a writer that fails
/// while it holds the lock poisons it.
pub struct RwLock<T> {
    inner: sys::RwLock,
    poison: Flag,
    data: T,
}

/// Proof of one shared acquisition of an `RwLock`.
#[derive(Debug)]
pub struct RwLockReadGuard {
    guard: sys::ReadGuard,
}

/// Proof of the exclusive acquisition of an `RwLock`. It carries what the
/// acquisition has to remember for its release.
#[derive(Debug)]
pub struct RwLockWriteGuard {
    guard: sys::WriteGuard,
    poison: Guard,
}

/// How a non-blocking acquisition ended, and what is left for the caller
/// to do on the native lock.
#[derive(Debug)]
pub struct Tried<G> {
    /// The guard, clean or poisoned, or `WouldBlock`.
    pub result: TryLockResult<G>,
    /// Set where the native lock granted a request that the record forbids:
    /// the caller must release the native lock.
    pub release_native: bool,
}

impl<T> RwLock<T> {
    /// The backend record: writer flag, reader count, initialisation.
    pub closed spec fn record(&self) -> sys::RwLock {
        self.inner
    }

    /// Whether `init` has run.
    pub open spec fn is_init(&self) -> bool {
        self.record().is_init()
    }

    /// Whether a writer failed while it held the lock.
    pub closed spec fn poisoned(&self) -> bool {
        self.poison.failed()
    }

    /// The protected value.
    pub closed spec fn value(&self) -> T {
        self.data
    }

    /// Whether `self` differs from `before` in nothing but who holds it.
    pub open spec fn same_content(&self, before: &Self) -> bool {
        &&& self.record().state() == before.record().state()
        &&& self.record().max_readers() == before.record().max_readers()
        &&& self.poisoned() == before.poisoned()
        &&& self.value() == before.value()
    }

    /// A lock around `value` that is not yet ready for use, for as many
    /// readers as can be counted.
    pub fn uninit(value: T) -> (r: Self)
        ensures
            r.record().state() == InitState::Uninit,
            !r.record().write_locked(),
            r.record().num_readers() == 0,
            r.record().max_readers() == usize::MAX,
            !r.poisoned(),
            r.value() == value,
    {
        RwLock { inner: sys::RwLock::uninit(), poison: Flag::new(), data: value }
    }

    /// A lock around `value` that is not yet ready for use, for
    /// `max_readers` readers at once.
    pub fn with_max_readers(value: T, max_readers: usize) -> (r: Self)
        ensures
            r.record().state() == InitState::Uninit,
            !r.record().write_locked(),
            r.record().num_readers() == 0,
            r.record().max_readers() == max_readers,
            !r.poisoned(),
            r.value() == value,
    {
        RwLock {
            inner: sys::RwLock::with_max_readers(max_readers),
            poison: Flag::new(),
            data: value,
        }
    }

    /// A lock around `value`, ready for use, at its place on the heap.
    pub fn boxed(value: T) -> (r: Box<Self>)
        ensures
            r.is_init(),
            !r.record().write_locked(),
            r.record().num_readers() == 0,
            r.record().max_readers() == usize::MAX,
            !r.poisoned(),
            r.value() == value,
    {
        let mut this = Box::new(Self::uninit(value));
        this.init();
        this
    }

    /// A lock around `value`, ready for use, behind a shared handle.
    pub fn arc(value: T) -> (r: Arc<Self>)
        ensures
            r.is_init(),
            !r.record().write_locked(),
            r.record().num_readers() == 0,
            r.record().max_readers() == usize::MAX,
            !r.poisoned(),
            r.value() == value,
    {
        let mut this = Self::uninit(value);
        this.init();
        Arc::new(this)
    }

    /// Makes the lock ready for use. Doing so twice is a usage error.
    pub fn init(&mut self)
        requires
            old(self).record().state() == InitState::Uninit,
        ensures
            final(self).is_init(),
            final(self).record().write_locked() == old(self).record().write_locked(),
            final(self).record().num_readers() == old(self).record().num_readers(),
            final(self).record().max_readers() == old(self).record().max_readers(),
            final(self).poisoned() == old(self).poisoned(),
            final(self).value() == old(self).value(),
    {
        self.inner.init()
    }

    /// Judges a blocking shared request that the native lock answered with
    /// `status`, before anything is recorded.
    pub fn check_read(&self, status: ReadStatus) -> (v: Verdict)
        requires
            self.is_init(),
        ensures
            v == self.record().read_verdict(status),
    {
        self.inner.check_read(status)
    }

    /// Judges a blocking exclusive request that the native lock answered
    /// with `status`, before anything is recorded.
    pub fn check_write(&self, status: WriteStatus) -> (v: Verdict)
        requires
            self.is_init(),
        ensures
            v == self.record().write_verdict(status),
    {
        self.inner.check_write(status)
    }

    /// Takes the lock for reading, after a blocking request that the native
    /// lock answered with `status`. A request on which the verdict is not
    /// `Proceed` is a usage error that ends the operation before this point.
    ///
    /// The guard is returned either way; on a poisoned lock it comes
    /// inside the error.
    pub fn read(&mut self, status: ReadStatus) -> (r: LockResult<RwLockReadGuard>)
        requires
            old(self).is_init(),
            old(self).record().read_verdict(status) == Verdict::Proceed,
        ensures
            final(self).same_content(old(self)),
            !final(self).record().write_locked(),
            final(self).record().num_readers() == old(self).record().num_readers() + 1,
            r is Err <==> old(self).poisoned(),
    {
        let guard = self.inner.read(status);
        map_result(
            self.poison.borrow(false),
            |_poison: Guard| -> (g: RwLockReadGuard) { RwLockReadGuard { guard } },
        )
    }

    /// Takes the lock for reading if the native lock granted it and the
    /// record allows it, without waiting.
    pub fn try_read(&mut self, granted: bool) -> (r: Tried<RwLockReadGuard>)
        requires
            old(self).is_init(),
        ensures
            final(self).same_content(old(self)),
            final(self).record().write_locked() == old(self).record().write_locked(),
            granted && old(self).record().admits_reader() <==> !(r.result matches Err(
                TryLockError::WouldBlock,
            )),
            r.result is Ok ==> !old(self).poisoned(),
            r.result matches Err(TryLockError::Poisoned(_)) ==> old(self).poisoned(),
            r.release_native <==> granted && !old(self).record().admits_reader(),
            final(self).record().num_readers() == old(self).record().num_readers() + (if granted
                && old(self).record().admits_reader() {
                1nat
            } else {
                0nat
            }),
    {
        let guard = match self.inner.try_read(granted) {
            Attempt::Held(guard) => guard,
            Attempt::Busy => {
                return Tried { result: Err(TryLockError::WouldBlock), release_native: false };
            },
            Attempt::Revoked => {
                return Tried { result: Err(TryLockError::WouldBlock), release_native: true };
            },
        };
        let result = map_result(
            self.poison.borrow(false),
            |_poison: Guard| -> (g: RwLockReadGuard) { RwLockReadGuard { guard } },
        );
        match result {
            Ok(g) => Tried { result: Ok(g), release_native: false },
            Err(e) => Tried { result: Err(TryLockError::Poisoned(e)), release_native: false },
        }
    }

    /// Takes the lock for writing, after a blocking request that the native
    /// lock answered with `status`, for a thread that is (`panicking`) or
    /// is not failing already. A request on which the verdict is not
    /// `Proceed` is a usage error that ends the operation before this point.
    ///
    /// The guard is returned either way; on a poisoned lock it comes
    /// inside the error.
    pub fn write(&mut self, status: WriteStatus, panicking: bool) -> (r: LockResult<
        RwLockWriteGuard,
    >)
        requires
            old(self).is_init(),
            old(self).record().write_verdict(status) == Verdict::Proceed,
        ensures
            final(self).same_content(old(self)),
            final(self).record().write_locked(),
            final(self).record().num_readers() == 0,
            r is Err <==> old(self).poisoned(),
            payload(r).token() == (Guard { panicking }),
    {
        let guard = self.inner.write(status);
        map_result(
            self.poison.borrow(panicking),
            |poison: Guard| -> (g: RwLockWriteGuard)
                ensures g.token() == poison
                { RwLockWriteGuard { guard, poison } },
        )
    }

    /// Takes the lock for writing if the native lock granted it and the
    /// record allows it, without waiting. With a read guard out the answer
    /// is `WouldBlock`, whatever the native lock said.
    pub fn try_write(&mut self, granted: bool, panicking: bool) -> (r: Tried<RwLockWriteGuard>)
        requires
            old(self).is_init(),
        ensures
            final(self).same_content(old(self)),
            final(self).record().num_readers() == old(self).record().num_readers(),
            old(self).record().num_readers() > 0 ==> r.result matches Err(
                TryLockError::WouldBlock,
            ),
            granted && old(self).record().admits_writer() <==> !(r.result matches Err(
                TryLockError::WouldBlock,
            )),
            r.result is Ok ==> !old(self).poisoned(),
            r.result matches Err(TryLockError::Poisoned(_)) ==> old(self).poisoned(),
            r.release_native <==> granted && !old(self).record().admits_writer(),
            final(self).record().write_locked() == (old(self).record().write_locked() || (granted
                && old(self).record().admits_writer())),
            match r.result {
                Ok(g) => g.token() == (Guard { panicking }),
                Err(TryLockError::Poisoned(e)) => e.guard.token() == (Guard { panicking }),
                Err(TryLockError::WouldBlock) => true,
            },
    {
        let guard = match self.inner.try_write(granted) {
            Attempt::Held(guard) => guard,
            Attempt::Busy => {
                return Tried { result: Err(TryLockError::WouldBlock), release_native: false };
            },
            Attempt::Revoked => {
                return Tried { result: Err(TryLockError::WouldBlock), release_native: true };
            },
        };
        let result = map_result(
            self.poison.borrow(panicking),
            |poison: Guard| -> (g: RwLockWriteGuard)
                ensures g.token() == poison
                { RwLockWriteGuard { guard, poison } },
        );
        match result {
            Ok(g) => Tried { result: Ok(g), release_native: false },
            Err(e) => Tried { result: Err(TryLockError::Poisoned(e)), release_native: false },
        }
    }

    /// Reports how far the initialisation has come.
    pub fn init_state(&self) -> (s: InitState)
        ensures
            s == self.record().state(),
    {
        self.inner.init_state()
    }

    /// Reports whether the lock is poisoned.
    pub fn is_poisoned(&self) -> (r: bool)
        ensures
            r == self.poisoned(),
    {
        self.poison.get()
    }

    /// Reports how many read guards are out.
    pub fn readers(&self) -> (r: usize)
        ensures
            r == self.record().num_readers(),
            self.record().exclusive(),
    {
        self.inner.readers()
    }

    /// Reports whether the write guard is out.
    pub fn is_write_locked(&self) -> (r: bool)
        ensures
            r == self.record().write_locked(),
            self.record().exclusive(),
    {
        self.inner.is_write_locked()
    }

    /// Gives the value up and ends the lock. A poisoned lock says so and
    /// still gives the value.
    pub fn into_inner(self) -> (r: LockResult<T>)
        ensures
            r is Err <==> self.poisoned(),
            payload(r) == self.value(),
    {
        let RwLock { inner: _, poison, data } = self;
        if poison.get() {
            Err(PoisonError::new(data))
        } else {
            Ok(data)
        }
    }

    /// The value, for writing, for a caller that owns the lock alone. A
    /// poisoned lock says so and still gives the reference.
    pub fn get_mut(&mut self) -> (r: LockResult<&mut T>)
        ensures
            r is Err <==> old(self).poisoned(),
            *payload(r) == old(self).value(),
            final(self).value() == *final(payload(r)),
            final(self).record() == old(self).record(),
            final(self).poisoned() == old(self).poisoned(),
    {
        let data = &mut self.data;
        if self.poison.get() {
            Err(PoisonError::new(data))
        } else {
            Ok(data)
        }
    }
}

impl RwLockReadGuard {
    /// The protected value, shared.
    pub fn deref<'a, T>(&self, lock: &'a RwLock<T>) -> (r: &'a T)
        requires
            lock.record().num_readers() > 0,
        ensures
            *r == lock.value(),
    {
        &lock.data
    }

    /// Ends the shared acquisition. A reader cannot have torn the value:
    /// the poison flag stays as it was, however the reader ends.
    pub fn release<T>(self, lock: &mut RwLock<T>)
        requires
            old(lock).record().num_readers() > 0,
        ensures
            final(lock).same_content(old(lock)),
            !final(lock).record().write_locked(),
            final(lock).record().num_readers() == old(lock).record().num_readers() - 1,
    {
        let RwLockReadGuard { guard } = self;
        lock.inner.read_unlock(guard);
    }
}

impl RwLockWriteGuard {
    /// What the acquisition remembers for its release.
    pub closed spec fn token(&self) -> Guard {
        self.poison
    }

    /// The protected value, shared.
    pub fn deref<'a, T>(&self, lock: &'a RwLock<T>) -> (r: &'a T)
        requires
            lock.record().write_locked(),
        ensures
            *r == lock.value(),
    {
        &lock.data
    }

    /// The protected value, for writing. The lock holds whatever the
    /// caller leaves behind the reference.
    pub fn deref_mut<'a, T>(&self, lock: &'a mut RwLock<T>) -> (r: &'a mut T)
        requires
            old(lock).record().write_locked(),
        ensures
            *r == old(lock).value(),
            final(lock).value() == *final(r),
            final(lock).record() == old(lock).record(),
            final(lock).poisoned() == old(lock).poisoned(),
    {
        &mut lock.data
    }

    /// Ends the exclusive acquisition, for a thread that is (`panicking`)
    /// or is not failing now. The lock is free afterwards, and poisoned if
    /// the writer started to fail while it held the guard.
    pub fn release<T>(self, lock: &mut RwLock<T>, panicking: bool)
        requires
            old(lock).record().write_locked(),
        ensures
            final(lock).record().state() == old(lock).record().state(),
            final(lock).record().max_readers() == old(lock).record().max_readers(),
            !final(lock).record().write_locked(),
            final(lock).record().num_readers() == 0,
            final(lock).value() == old(lock).value(),
            final(lock).poisoned() == released(old(lock).poisoned(), self.token(), panicking),
    {
        let RwLockWriteGuard { guard, poison } = self;
        lock.poison.done(&poison, panicking);
        lock.inner.write_unlock(guard);
    }
}

} // verus!
