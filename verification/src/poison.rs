//! Poisoning: how a lock remembers that a holder failed while holding it.

use vstd::prelude::*;

verus! {

/// Says that the lock is poisoned, and carries what a clean acquisition
/// would have returned.
#[derive(Debug)]
pub struct PoisonError<T> {
    pub guard: T,
}

impl<T> PoisonError<T> {
    /// Wraps `guard` as the payload of a poisoned acquisition.
    pub fn new(guard: T) -> (r: Self)
        ensures
            r.guard == guard,
    {
        PoisonError { guard }
    }

    /// Gives the payload up: poisoning warns, it never denies access.
    pub fn into_inner(self) -> (r: T)
        ensures
            r == self.guard,
    {
        self.guard
    }

    /// The payload, shared.
    pub fn get_ref(&self) -> (r: &T)
        ensures
            *r == self.guard,
    {
        &self.guard
    }
}

/// Why a non-blocking acquisition did not return a clean guard.
#[derive(Debug)]
pub enum TryLockError<T> {
    /// The lock was acquired, and it is poisoned.
    Poisoned(PoisonError<T>),
    /// The lock is held elsewhere; nothing was acquired.
    WouldBlock,
}

/// What a blocking acquisition returns.
pub type LockResult<G> = Result<G, PoisonError<G>>;

/// What a non-blocking acquisition returns.
pub type TryLockResult<G> = Result<G, TryLockError<G>>;

/// The poison flag of one lock: clear at first, set at most once, never
/// cleared.
#[derive(Debug)]
pub struct Flag {
    failed: bool,
}

/// What one acquisition remembers until its release: whether the acquiring
/// thread was already failing when it took the lock.
#[derive(Clone, Copy, Debug, PartialEq, Eq, Structural)]
pub struct Guard {
    pub panicking: bool,
}

/// What `Flag::borrow` returns on a flag in state `failed`.
pub open spec fn borrowed(failed: bool, panicking: bool) -> LockResult<Guard> {
    if failed {
        Err(PoisonError { guard: Guard { panicking } })
    } else {
        Ok(Guard { panicking })
    }
}

/// The flag after a release: it is set by a holder that fails now and was
/// not failing when it acquired, and it keeps what it had.
pub open spec fn released(failed: bool, guard: Guard, panicking: bool) -> bool {
    failed || (!guard.panicking && panicking)
}

/// A holder that was sound when it acquired and fails before it releases
/// sets the flag. A holder that was failing already when it acquired
/// leaves the flag as it was, whatever happens to it afterwards. A set
/// flag stays set through every later release, and every acquisition on a
/// set flag is reported as poisoned, with its token inside the error.
pub proof fn lemma_poison_protocol(
    failed: bool,
    panicking: bool,
    later: Guard,
    later_panicking: bool,
    next_panicking: bool,
)
    ensures
        released(failed, Guard { panicking: false }, true),
        released(failed, Guard { panicking: false }, false) == failed,
        released(failed, Guard { panicking: true }, panicking) == failed,
        released(true, later, later_panicking),
        borrowed(true, next_panicking) == Err::<Guard, PoisonError<Guard>>(
            PoisonError { guard: Guard { panicking: next_panicking } },
        ),
        borrowed(false, next_panicking) == Ok::<Guard, PoisonError<Guard>>(
            Guard { panicking: next_panicking },
        ),
{
}

impl Flag {
    /// Whether the flag is set.
    pub closed spec fn failed(&self) -> bool {
        self.failed
    }

    /// A clear flag.
    pub fn new() -> (r: Flag)
        ensures
            !r.failed(),
    {
        Flag { failed: false }
    }

    /// Records an acquisition by a thread that is (`panicking`) or is not
    /// failing already. The token is returned either way; on a poisoned
    /// flag it comes inside the error.
    pub fn borrow(&self, panicking: bool) -> (r: LockResult<Guard>)
        ensures
            r == borrowed(self.failed(), panicking),
    {
        let ret = Guard { panicking };
        if self.get() {
            Err(PoisonError::new(ret))
        } else {
            Ok(ret)
        }
    }

    /// Records the release of the acquisition that `guard` stands for, by a
    /// thread that is (`panicking`) or is not failing now.
    pub fn done(&mut self, guard: &Guard, panicking: bool)
        ensures
            final(self).failed() == released(old(self).failed(), *guard, panicking),
    {
        if !guard.panicking && panicking {
            self.failed = true;
        }
    }

    /// Reports whether the flag is set.
    pub fn get(&self) -> (r: bool)
        ensures
            r == self.failed(),
    {
        self.failed
    }
}

/// The payload of a result, clean or poisoned.
pub open spec fn payload<T>(result: LockResult<T>) -> T {
    match result {
        Ok(t) => t,
        Err(e) => e.guard,
    }
}

/// Maps what `result` carries through `f`: a clean result stays clean, a
/// poisoned one stays poisoned.
pub fn map_result<T, U, F>(result: LockResult<T>, f: F) -> (r: LockResult<U>) where
    F: FnOnce(T) -> U,

    requires
        f.requires((payload(result),)),
    ensures
        r is Ok <==> result is Ok,
        f.ensures((payload(result),), payload(r)),
{
    match result {
        Ok(t) => Ok(f(t)),
        Err(error) => Err(PoisonError::new(f(error.into_inner()))),
    }
}

} // verus!
