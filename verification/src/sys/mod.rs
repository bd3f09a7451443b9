//! The bookkeeping that sits directly above the lock objects of the
//! operating system.
//!
//! The objects themselves are not here. A blocking or non-blocking call on
//! one of them is made by the caller, who reports what the object answered;
//! the types of this module keep the state that the answer is checked
//! against.

use crate::poison::{LockResult, TryLockError, TryLockResult};
use vstd::prelude::*;

pub mod condvar;
pub mod mutex;
pub mod rwlock;

verus! {

/// A code with which the operating system refused a request: any code
/// but zero.
#[derive(Clone, Copy, Debug, PartialEq, Eq, Structural)]
pub struct OsError {
    pub code: i32,
}

/// What `cvt_nz` makes of a return code.
pub open spec fn cvt_nz_spec(error: i32) -> Result<(), OsError> {
    if error == 0 {
        Ok(())
    } else {
        Err(OsError { code: error })
    }
}

/// Reads a return code of the operating system: zero is success, and
/// anything else is the error.
pub fn cvt_nz(error: i32) -> (r: Result<(), OsError>)
    ensures
        r == cvt_nz_spec(error),
{
    if error == 0 {
        Ok(())
    } else {
        Err(OsError { code: error })
    }
}

/// What a non-blocking acquisition amounts to once poisoning is set aside.
pub open spec fn try_ignore_poison_spec<T>(result: TryLockResult<T>) -> Option<T> {
    match result {
        Ok(lock) => Some(lock),
        Err(TryLockError::Poisoned(error)) => Some(error.guard),
        Err(TryLockError::WouldBlock) => None,
    }
}

/// What a blocking acquisition amounts to once poisoning is set aside.
pub open spec fn ignore_poison_spec<T>(result: LockResult<T>) -> T {
    match result {
        Ok(lock) => lock,
        Err(error) => error.guard,
    }
}

/// Takes the guard out of a non-blocking acquisition, poisoned or not;
/// `None` only where nothing was acquired.
pub fn try_ignore_poison<T>(result: TryLockResult<T>) -> (r: Option<T>)
    ensures
        r == try_ignore_poison_spec(result),
{
    match result {
        Ok(lock) => Some(lock),
        Err(TryLockError::Poisoned(error)) => Some(error.into_inner()),
        Err(TryLockError::WouldBlock) => None,
    }
}

/// Takes the guard out of a blocking acquisition, poisoned or not.
pub fn ignore_poison<T>(result: LockResult<T>) -> (r: T)
    ensures
        r == ignore_poison_spec(result),
{
    match result {
        Ok(lock) => lock,
        Err(error) => error.into_inner(),
    }
}

} // verus!
