//! Waiting for the lock of a credential.

use vstd::prelude::*;

use crate::error::{IoErrorKind, IoFailure, LoginError};

verus! {

/// How long the lock is waited for, in milliseconds.
pub const REFRESH_LOCK_TIMEOUT_MILLIS: u64 = 60_000;

/// How long it takes until the lock is tried again, in milliseconds.
pub const REFRESH_LOCK_PAUSE_MILLIS: u64 = 50;

/// What comes of trying the lock.
pub enum LockStep {
    /// It is ours.
    Acquired,
    /// Another process has it: try again after so many milliseconds.
    TryAgain(u64),
    /// It cannot be had.
    Failed(LoginError),
}

/// Goes on after an attempt to take the lock without waiting, `waited`
/// milliseconds after the first one.
pub fn acquire_refresh_lock(attempt: Result<(), IoFailure>, waited: u64) -> (step: LockStep)
    ensures
        step == (match attempt {
            Ok(_) => LockStep::Acquired,
            Err(failure) => if failure.kind != IoErrorKind::WouldBlock {
                LockStep::Failed(LoginError::RefreshLock(failure))
            } else if waited >= REFRESH_LOCK_TIMEOUT_MILLIS {
                LockStep::Failed(LoginError::RefreshLockTimedOut)
            } else {
                LockStep::TryAgain(REFRESH_LOCK_PAUSE_MILLIS)
            },
        }),
{
    match attempt {
        Ok(()) => LockStep::Acquired,
        Err(failure) => {
            if failure.kind != IoErrorKind::WouldBlock {
                LockStep::Failed(LoginError::RefreshLock(failure))
            } else if waited >= REFRESH_LOCK_TIMEOUT_MILLIS {
                LockStep::Failed(LoginError::RefreshLockTimedOut)
            } else {
                LockStep::TryAgain(REFRESH_LOCK_PAUSE_MILLIS)
            }
        },
    }
}

}
