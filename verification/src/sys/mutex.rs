//! The exclusive lock as the backend sees it: initialised or not, held or
//! not.

use crate::init_assert::{InitAssert, InitState};
use vstd::prelude::*;

verus! {

/// The record of one exclusive lock.
pub struct Mutex {
    lock: InitAssert<()>,
    held: bool,
}

/// Proof of one acquisition of a `Mutex`. Handing it back releases the lock.
#[derive(Debug)]
pub struct MutexGuard {
    token: (),
}

impl Mutex {
    /// How far the initialisation of the lock has come.
    pub closed spec fn state(&self) -> InitState {
        self.lock.state()
    }

    /// Whether `init` has run.
    pub open spec fn is_init(&self) -> bool {
        self.state() == InitState::Init
    }

    /// Whether a guard is out.
    pub closed spec fn is_held(&self) -> bool {
        self.held
    }

    /// A lock that is not yet ready for use.
    pub fn uninit() -> (r: Self)
        ensures
            r.state() == InitState::Uninit,
            !r.is_held(),
    {
        Mutex { lock: InitAssert::new(), held: false }
    }

    /// Makes the lock ready for use. Doing so twice is a usage error.
    pub fn init(&mut self)
        requires
            old(self).state() == InitState::Uninit,
        ensures
            final(self).is_init(),
            final(self).is_held() == old(self).is_held(),
    {
        self.lock.init(|| -> (u: ()) { });
    }

    /// Reports how far the initialisation has come.
    pub fn init_state(&self) -> (s: InitState)
        ensures
            s == self.state(),
    {
        self.lock.current()
    }

    /// Reports whether a guard is out.
    pub fn locked(&self) -> (r: bool)
        ensures
            r == self.is_held(),
    {
        self.held
    }

    /// Takes the lock if it is free, and says `None` if it is not.
    pub fn try_lock(&mut self) -> (r: Option<MutexGuard>)
        requires
            old(self).is_init(),
        ensures
            final(self).is_init(),
            final(self).is_held(),
            r is Some <==> !old(self).is_held(),
    {
        if self.held {
            None
        } else {
            self.held = true;
            Some(MutexGuard { token: () })
        }
    }

    /// Takes the lock. The caller has waited until it was free; taking a
    /// lock that is held would never return.
    pub fn lock(&mut self) -> (r: MutexGuard)
        requires
            old(self).is_init(),
            !old(self).is_held(),
        ensures
            final(self).is_init(),
            final(self).is_held(),
    {
        self.held = true;
        MutexGuard { token: () }
    }

    /// Gives the lock back: the end of the acquisition that `guard` stands
    /// for.
    pub fn unlock(&mut self, guard: MutexGuard)
        requires
            old(self).is_held(),
        ensures
            !final(self).is_held(),
            final(self).state() == old(self).state(),
    {
        let MutexGuard { token: _ } = guard;
        self.held = false;
    }
}

} // verus!
