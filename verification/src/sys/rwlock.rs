//! The shared/exclusive lock as the backend sees it: a writer flag and a
//! reader count, kept above the native lock.
//!
//! A native lock cannot be trusted everywhere to refuse a thread that asks
//! for a lock it already holds: some grant the request. The record kept here
//! is what a grant is checked against, so that such a grant is found out and
//! taken back instead of being handed on as a guard.

use crate::init_assert::{InitAssert, InitState};
use vstd::prelude::*;

verus! {

/// What the native lock answered to a blocking request for the shared lock.
#[derive(Clone, Copy, Debug, PartialEq, Eq, Structural)]
pub enum ReadStatus {
    /// The native lock is now held, shared.
    Granted,
    /// The native lock holds as many readers as it can.
    Again,
    /// The native lock saw that waiting would never end.
    Deadlock,
}

/// What the native lock answered to a blocking request for the exclusive
/// lock.
#[derive(Clone, Copy, Debug, PartialEq, Eq, Structural)]
pub enum WriteStatus {
    /// The native lock is now held, exclusively.
    Granted,
    /// The native lock saw that waiting would never end.
    Deadlock,
}

/// The codes with which a platform's native lock says that it is full, and
/// that waiting would never end. They differ between platforms.
#[derive(Clone, Copy, Debug, PartialEq, Eq, Structural)]
pub struct Codes {
    pub again: i32,
    pub deadlock: i32,
}

/// How the answer to a blocking shared request is read from its code.
pub open spec fn read_status_of(code: i32, codes: Codes) -> Option<ReadStatus> {
    if code == codes.again {
        Some(ReadStatus::Again)
    } else if code == codes.deadlock {
        Some(ReadStatus::Deadlock)
    } else if code == 0 {
        Some(ReadStatus::Granted)
    } else {
        None
    }
}

/// How the answer to a blocking exclusive request is read from its code.
pub open spec fn write_status_of(code: i32, codes: Codes) -> Option<WriteStatus> {
    if code == codes.deadlock {
        Some(WriteStatus::Deadlock)
    } else if code == 0 {
        Some(WriteStatus::Granted)
    } else {
        None
    }
}

impl ReadStatus {
    /// Reads the answer of the native lock from its return code. A code
    /// that a sound native lock never returns gives `None`.
    pub fn decode(code: i32, codes: Codes) -> (r: Option<ReadStatus>)
        ensures
            r == read_status_of(code, codes),
    {
        if code == codes.again {
            Some(ReadStatus::Again)
        } else if code == codes.deadlock {
            Some(ReadStatus::Deadlock)
        } else if code == 0 {
            Some(ReadStatus::Granted)
        } else {
            None
        }
    }
}

impl WriteStatus {
    /// Reads the answer of the native lock from its return code. A code
    /// that a sound native lock never returns gives `None`.
    pub fn decode(code: i32, codes: Codes) -> (r: Option<WriteStatus>)
        ensures
            r == write_status_of(code, codes),
    {
        if code == codes.deadlock {
            Some(WriteStatus::Deadlock)
        } else if code == 0 {
            Some(WriteStatus::Granted)
        } else {
            None
        }
    }
}

/// A usage error that ends the operation: it is never handed to the caller
/// of a lock as a value to recover from.
#[derive(Clone, Copy, Debug, PartialEq, Eq, Structural)]
pub enum Fatal {
    /// More readers than the lock can count.
    MaxReaders,
    /// The lock would be waited for by one of its own holders.
    Deadlock,
}

/// Whether a blocking acquisition may go on.
#[derive(Clone, Copy, Debug, PartialEq, Eq, Structural)]
pub enum Verdict {
    /// The acquisition stands; the guard may be taken.
    Proceed,
    /// The operation ends with `error`. Where `release_native` is set the
    /// native lock had granted the request and must be released first.
    Abort { error: Fatal, release_native: bool },
}

/// How a non-blocking acquisition ended.
#[derive(Debug)]
pub enum Attempt<G> {
    /// The lock is held; here is the guard.
    Held(G),
    /// The native lock refused; nothing is held.
    Busy,
    /// The native lock granted what the record forbids. Nothing is held by
    /// the record, and the caller must release the native lock.
    Revoked,
}

/// The record of one shared/exclusive lock.
pub struct RwLock {
    write_locked: bool,
    num_readers: usize,
    max_readers: usize,
    initialized: InitAssert<()>,
}

/// Proof of one shared acquisition.
#[derive(Debug)]
pub struct ReadGuard {
    token: (),
}

/// Proof of one exclusive acquisition.
#[derive(Debug)]
pub struct WriteGuard {
    token: (),
}

impl RwLock {
    #[verifier::type_invariant]
    spec fn never_shared_with_a_writer(self) -> bool {
        !(self.write_locked && self.num_readers > 0)
    }

    /// How far the initialisation of the lock has come.
    pub closed spec fn state(&self) -> InitState {
        self.initialized.state()
    }

    /// Whether `init` has run.
    pub open spec fn is_init(&self) -> bool {
        self.state() == InitState::Init
    }

    /// Whether a write guard is out.
    pub closed spec fn write_locked(&self) -> bool {
        self.write_locked
    }

    /// How many read guards are out.
    pub closed spec fn num_readers(&self) -> nat {
        self.num_readers as nat
    }

    /// How many read guards may be out at once.
    pub closed spec fn max_readers(&self) -> nat {
        self.max_readers as nat
    }

    /// Readers and a writer never hold the lock together.
    pub open spec fn exclusive(&self) -> bool {
        !(self.write_locked() && self.num_readers() > 0)
    }

    /// Whether the record allows one more reader.
    pub open spec fn admits_reader(&self) -> bool {
        !self.write_locked() && self.num_readers() < self.max_readers()
    }

    /// Whether the record allows a writer.
    pub open spec fn admits_writer(&self) -> bool {
        !self.write_locked() && self.num_readers() == 0
    }

    /// The verdict on a blocking shared request that the native lock
    /// answered with `status`.
    pub open spec fn read_verdict(&self, status: ReadStatus) -> Verdict {
        match status {
            ReadStatus::Again => Verdict::Abort {
                error: Fatal::MaxReaders,
                release_native: false,
            },
            ReadStatus::Deadlock => Verdict::Abort {
                error: Fatal::Deadlock,
                release_native: false,
            },
            ReadStatus::Granted => if self.write_locked() {
                Verdict::Abort { error: Fatal::Deadlock, release_native: true }
            } else if self.num_readers() >= self.max_readers() {
                Verdict::Abort { error: Fatal::MaxReaders, release_native: true }
            } else {
                Verdict::Proceed
            },
        }
    }

    /// The verdict on a blocking exclusive request that the native lock
    /// answered with `status`.
    pub open spec fn write_verdict(&self, status: WriteStatus) -> Verdict {
        match status {
            WriteStatus::Deadlock => Verdict::Abort {
                error: Fatal::Deadlock,
                release_native: false,
            },
            WriteStatus::Granted => if self.admits_writer() {
                Verdict::Proceed
            } else {
                Verdict::Abort { error: Fatal::Deadlock, release_native: true }
            },
        }
    }

    /// A lock that is not yet ready for use, for as many readers as can be
    /// counted.
    pub fn uninit() -> (r: Self)
        ensures
            r.state() == InitState::Uninit,
            !r.write_locked(),
            r.num_readers() == 0,
            r.max_readers() == usize::MAX,
            r.exclusive(),
    {
        Self::with_max_readers(usize::MAX)
    }

    /// A lock that is not yet ready for use, for `max_readers` readers at
    /// once: what a platform allows differs.
    pub fn with_max_readers(max_readers: usize) -> (r: Self)
        ensures
            r.state() == InitState::Uninit,
            !r.write_locked(),
            r.num_readers() == 0,
            r.max_readers() == max_readers,
            r.exclusive(),
    {
        RwLock { write_locked: false, num_readers: 0, max_readers, initialized: InitAssert::new() }
    }

    /// Makes the lock ready for use. Doing so twice is a usage error.
    pub fn init(&mut self)
        requires
            old(self).state() == InitState::Uninit,
        ensures
            final(self).is_init(),
            final(self).write_locked() == old(self).write_locked(),
            final(self).num_readers() == old(self).num_readers(),
            final(self).max_readers() == old(self).max_readers(),
            final(self).exclusive(),
    {
        proof {
            use_type_invariant(&*self);
        }
        let mut ready: InitAssert<()> = InitAssert::new();
        ready.init(|| -> (u: ()) { });
        self.initialized = ready;
    }

    /// Reports how far the initialisation has come.
    pub fn init_state(&self) -> (s: InitState)
        ensures
            s == self.state(),
    {
        self.initialized.current()
    }

    /// Reports whether a write guard is out.
    pub fn is_write_locked(&self) -> (r: bool)
        ensures
            r == self.write_locked(),
            self.exclusive(),
    {
        proof {
            use_type_invariant(self);
        }
        self.write_locked
    }

    /// Reports how many read guards are out.
    pub fn readers(&self) -> (r: usize)
        ensures
            r == self.num_readers(),
            self.exclusive(),
    {
        proof {
            use_type_invariant(self);
        }
        self.num_readers
    }

    /// Judges a blocking shared request before anything is recorded.
    pub fn check_read(&self, status: ReadStatus) -> (v: Verdict)
        requires
            self.is_init(),
        ensures
            v == self.read_verdict(status),
    {
        match status {
            ReadStatus::Again => Verdict::Abort {
                error: Fatal::MaxReaders,
                release_native: false,
            },
            ReadStatus::Deadlock => Verdict::Abort {
                error: Fatal::Deadlock,
                release_native: false,
            },
            ReadStatus::Granted => {
                if self.write_locked {
                    Verdict::Abort { error: Fatal::Deadlock, release_native: true }
                } else if self.num_readers >= self.max_readers {
                    Verdict::Abort { error: Fatal::MaxReaders, release_native: true }
                } else {
                    Verdict::Proceed
                }
            },
        }
    }

    /// Judges a blocking exclusive request before anything is recorded.
    pub fn check_write(&self, status: WriteStatus) -> (v: Verdict)
        requires
            self.is_init(),
        ensures
            v == self.write_verdict(status),
    {
        match status {
            WriteStatus::Deadlock => Verdict::Abort {
                error: Fatal::Deadlock,
                release_native: false,
            },
            WriteStatus::Granted => {
                if self.write_locked || self.num_readers != 0 {
                    Verdict::Abort { error: Fatal::Deadlock, release_native: true }
                } else {
                    Verdict::Proceed
                }
            },
        }
    }

    /// Records a shared acquisition that the native lock granted, or takes
    /// the grant back where the record forbids it.
    pub fn try_read(&mut self, granted: bool) -> (r: Attempt<ReadGuard>)
        requires
            old(self).is_init(),
        ensures
            final(self).is_init(),
            final(self).max_readers() == old(self).max_readers(),
            final(self).write_locked() == old(self).write_locked(),
            r is Held <==> granted && old(self).admits_reader(),
            r is Busy <==> !granted,
            final(self).num_readers() == old(self).num_readers() + (if r is Held {
                1nat
            } else {
                0nat
            }),
            old(self).exclusive(),
            final(self).exclusive(),
    {
        proof {
            use_type_invariant(&*self);
        }
        if granted {
            if self.write_locked || self.num_readers >= self.max_readers {
                Attempt::Revoked
            } else {
                self.num_readers = self.num_readers + 1;
                Attempt::Held(ReadGuard { token: () })
            }
        } else {
            Attempt::Busy
        }
    }

    /// Records a shared acquisition after a blocking request. A request on
    /// which the verdict is not `Proceed` is a usage error that ends the
    /// operation before this point.
    pub fn read(&mut self, status: ReadStatus) -> (r: ReadGuard)
        requires
            old(self).is_init(),
            old(self).read_verdict(status) == Verdict::Proceed,
        ensures
            final(self).is_init(),
            final(self).max_readers() == old(self).max_readers(),
            !final(self).write_locked(),
            final(self).num_readers() == old(self).num_readers() + 1,
            final(self).exclusive(),
    {
        self.num_readers = self.num_readers + 1;
        ReadGuard { token: () }
    }

    /// Records an exclusive acquisition that the native lock granted, or
    /// takes the grant back where the record forbids it.
    pub fn try_write(&mut self, granted: bool) -> (r: Attempt<WriteGuard>)
        requires
            old(self).is_init(),
        ensures
            final(self).is_init(),
            final(self).max_readers() == old(self).max_readers(),
            final(self).num_readers() == old(self).num_readers(),
            r is Held <==> granted && old(self).admits_writer(),
            r is Busy <==> !granted,
            final(self).write_locked() == (old(self).write_locked() || r is Held),
            old(self).exclusive(),
            final(self).exclusive(),
    {
        proof {
            use_type_invariant(&*self);
        }
        if granted {
            if self.write_locked || self.num_readers != 0 {
                Attempt::Revoked
            } else {
                self.write_locked = true;
                Attempt::Held(WriteGuard { token: () })
            }
        } else {
            Attempt::Busy
        }
    }

    /// Records an exclusive acquisition after a blocking request. A request
    /// on which the verdict is not `Proceed` is a usage error that ends the
    /// operation before this point.
    pub fn write(&mut self, status: WriteStatus) -> (r: WriteGuard)
        requires
            old(self).is_init(),
            old(self).write_verdict(status) == Verdict::Proceed,
        ensures
            final(self).is_init(),
            final(self).max_readers() == old(self).max_readers(),
            final(self).write_locked(),
            final(self).num_readers() == 0,
            final(self).exclusive(),
    {
        self.write_locked = true;
        WriteGuard { token: () }
    }

    /// Records the end of a shared acquisition. The caller releases the
    /// native lock afterwards.
    pub fn read_unlock(&mut self, guard: ReadGuard)
        requires
            old(self).num_readers() > 0,
        ensures
            final(self).state() == old(self).state(),
            final(self).max_readers() == old(self).max_readers(),
            !old(self).write_locked(),
            !final(self).write_locked(),
            final(self).num_readers() == old(self).num_readers() - 1,
            final(self).exclusive(),
    {
        proof {
            use_type_invariant(&*self);
        }
        let ReadGuard { token: _ } = guard;
        self.num_readers = self.num_readers - 1;
    }

    /// Records the end of the exclusive acquisition. The caller releases
    /// the native lock afterwards.
    pub fn write_unlock(&mut self, guard: WriteGuard)
        requires
            old(self).write_locked(),
        ensures
            final(self).state() == old(self).state(),
            final(self).max_readers() == old(self).max_readers(),
            !final(self).write_locked(),
            old(self).num_readers() == 0,
            final(self).num_readers() == 0,
            final(self).exclusive(),
    {
        proof {
            use_type_invariant(&*self);
        }
        let WriteGuard { token: _ } = guard;
        self.write_locked = false;
    }
}

} // verus!
