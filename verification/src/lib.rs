//! Pinned synchronisation primitives, stated as sequential protocols.
//!
//! Every primitive of this crate is a plain value: a record of what a lock,
//! a condition variable or a barrier knows about itself, together with the
//! transitions that its operations perform on that record. Whoever shares a
//! primitive between threads keeps the record next to the object of the
//! operating system, performs the blocking calls, and hands their outcome to
//! the transitions defined here. The contracts say, for each transition,
//! which state follows and what the caller is given back.
//!
//! A thread appears in a record as the token it holds: a guard while it
//! holds a lock, a waiter while it sleeps on a condition variable, a ticket
//! while it sleeps at a barrier. Whether a thread is failing is not found
//! out here; the operations that need to know are told.

pub mod barrier;
pub mod condvar;
pub mod init_assert;
pub mod mutex;
pub mod poison;
pub mod rwlock;
pub mod sys;

pub use crate::barrier::{Arrival, Barrier, BarrierWaitResult, Ticket};
pub use crate::condvar::{Condvar, TimedStep, WaitStep, WaitTimeoutResult, Waiter};
pub use crate::mutex::{Mutex, MutexGuard};
pub use crate::poison::{LockResult, PoisonError, TryLockError, TryLockResult};
pub use crate::rwlock::{RwLock, RwLockReadGuard, RwLockWriteGuard, Tried};
