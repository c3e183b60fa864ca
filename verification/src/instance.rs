//! The guard that lets only one helper run on a machine.
//!
//! At startup the helper asks the operating system to create a mutex
//! under a fixed, machine-wide name. The system creates it or finds it in
//! one step, so of two helpers that start together only one sees it
//! created. This module reads the system's answer.

use vstd::prelude::*;

verus! {

/// The machine-wide name of the mutex.
pub const MUTEX_NAME: &'static str = "Global\\DarktideLocalServerMutex";

/// The error code with which the operating system says that the named
/// object was there before the call.
pub const ERROR_ALREADY_EXISTS: u32 = 183;

/// What became of the attempt to create the mutex.
#[derive(Clone, Copy, Debug, PartialEq, Eq)]
pub enum LockAttempt {
    /// The mutex was created: no other helper holds it.
    Created,
    /// The mutex was there already: another helper holds it.
    AlreadyHeld,
    /// The mutex could not be created or opened.
    Failed,
}

/// What the helper does after the attempt.
#[derive(Clone, Copy, Debug, PartialEq, Eq)]
pub enum Startup {
    /// Go on: load the configuration, bind the port, serve.
    Serve,
    /// End at once and in silence, before any port or file is touched.
    ExitQuietly,
}

/// How the system's answer reads: no handle means failure, whatever the
/// error code; a handle with [`ERROR_ALREADY_EXISTS`] means that the
/// mutex was there already; a handle with any other code means that it
/// was created.
pub open spec fn attempt_of(handle_is_null: bool, last_error: u32) -> LockAttempt {
    if handle_is_null {
        LockAttempt::Failed
    } else if last_error == ERROR_ALREADY_EXISTS {
        LockAttempt::AlreadyHeld
    } else {
        LockAttempt::Created
    }
}

/// Reads the system's answer to the attempt to create the mutex:
/// whether the handle it returned is null, and the error code it left.
pub fn classify_lock_attempt(handle_is_null: bool, last_error: u32) -> (attempt: LockAttempt)
    ensures
        attempt == attempt_of(handle_is_null, last_error),
{
    if handle_is_null {
        LockAttempt::Failed
    } else if last_error == ERROR_ALREADY_EXISTS {
        LockAttempt::AlreadyHeld
    } else {
        LockAttempt::Created
    }
}

/// Whether the helper holds the lock after the attempt. A failure counts
/// as not holding it, so that two helpers never serve one port.
pub fn acquired(attempt: LockAttempt) -> (held: bool)
    ensures
        held == (attempt is Created),
{
    match attempt {
        LockAttempt::Created => true,
        LockAttempt::AlreadyHeld => false,
        LockAttempt::Failed => false,
    }
}

/// Decides how the helper starts: it serves only if it holds the lock.
pub fn startup_decision(attempt: LockAttempt) -> (startup: Startup)
    ensures
        startup == if attempt is Created {
            Startup::Serve
        } else {
            Startup::ExitQuietly
        },
{
    if acquired(attempt) {
        Startup::Serve
    } else {
        Startup::ExitQuietly
    }
}

} // verus!
