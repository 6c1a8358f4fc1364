//! Acquiring a data directory: the steps taken, in which order, and
//! which error each failing step is reported as. The steps themselves
//! (creating the directory, opening the lock file, taking the exclusive
//! lock) are performed by the caller.

use std::io;
use std::path::PathBuf;

use vstd::prelude::*;

verus! {

/// The name of the lock file inside a data directory.
pub const LOCK_FILE_NAME: &'static str = ".lock";

/// Every way acquiring a data directory can fail, each named for the
/// step that failed.
#[derive(Debug)]
pub enum DataDirError {
    /// The directory could not be created.
    Create { path: PathBuf, source: io::Error },
    /// The lock file inside it could not be opened.
    OpenLockFile { path: PathBuf, source: io::Error },
    /// Another instance already holds the lock on the directory.
    AlreadyLocked { path: PathBuf },
}

/// One step of acquiring a data directory.
#[derive(Debug, Clone, Copy, PartialEq, Eq, Structural)]
pub enum AcquireStep {
    /// Create the directory and its parents.
    CreateDir,
    /// Open (creating if needed, never truncating) the lock file.
    OpenLockFile,
    /// Take the exclusive lock on the lock file without blocking.
    LockExclusive,
}

/// What to do once a step has finished.
#[derive(Debug, Clone, Copy, PartialEq, Eq, Structural)]
pub enum AcquireAction {
    /// Perform this step next.
    Perform(AcquireStep),
    /// Stop: this step failed, and its error is the result.
    Fail(AcquireStep),
    /// Stop: every step succeeded and the directory is held.
    Acquired,
}

/// The step acquisition begins with.
pub open spec fn spec_first_step() -> AcquireStep {
    AcquireStep::CreateDir
}

/// What follows a step that succeeded or failed.
pub open spec fn spec_next_action(step: AcquireStep, succeeded: bool) -> AcquireAction {
    if !succeeded {
        AcquireAction::Fail(step)
    } else {
        match step {
            AcquireStep::CreateDir => AcquireAction::Perform(AcquireStep::OpenLockFile),
            AcquireStep::OpenLockFile => AcquireAction::Perform(AcquireStep::LockExclusive),
            AcquireStep::LockExclusive => AcquireAction::Acquired,
        }
    }
}

/// Where a whole acquisition ends, given whether each step would
/// succeed: the first step that fails, or `Acquired`.
pub open spec fn spec_acquire_outcome(create_ok: bool, open_ok: bool, lock_ok: bool) -> AcquireAction {
    if !create_ok {
        AcquireAction::Fail(AcquireStep::CreateDir)
    } else if !open_ok {
        AcquireAction::Fail(AcquireStep::OpenLockFile)
    } else if !lock_ok {
        AcquireAction::Fail(AcquireStep::LockExclusive)
    } else {
        AcquireAction::Acquired
    }
}

/// The step acquisition begins with.
pub fn first_step() -> (step: AcquireStep)
    ensures
        step == spec_first_step(),
{
    AcquireStep::CreateDir
}

/// What follows a step that succeeded or failed.
pub fn next_action(step: AcquireStep, succeeded: bool) -> (action: AcquireAction)
    ensures
        action == spec_next_action(step, succeeded),
{
    if !succeeded {
        AcquireAction::Fail(step)
    } else {
        match step {
            AcquireStep::CreateDir => AcquireAction::Perform(AcquireStep::OpenLockFile),
            AcquireStep::OpenLockFile => AcquireAction::Perform(AcquireStep::LockExclusive),
            AcquireStep::LockExclusive => AcquireAction::Acquired,
        }
    }
}

/// Law: starting at the first step and following `next_action`, the
/// steps run in the order create, open, lock; the run stops at the
/// first step that fails, with that step as the failure, and ends in
/// `Acquired` exactly when all three succeed.
pub proof fn lemma_acquire_sequence(create_ok: bool, open_ok: bool, lock_ok: bool)
    ensures
        spec_first_step() == AcquireStep::CreateDir,
        ({
            let after_create = spec_next_action(spec_first_step(), create_ok);
            let outcome = match after_create {
                AcquireAction::Perform(open_step) => {
                    match spec_next_action(open_step, open_ok) {
                        AcquireAction::Perform(lock_step) => spec_next_action(lock_step, lock_ok),
                        other => other,
                    }
                },
                other => other,
            };
            outcome == spec_acquire_outcome(create_ok, open_ok, lock_ok)
        }),
        spec_acquire_outcome(create_ok, open_ok, lock_ok) == AcquireAction::Acquired <==> (create_ok
            && open_ok && lock_ok),
{
}

/// The error reported when `step` fails on the directory at `path`;
/// `source` is the I/O error the step gave. A failed lock is always
/// reported as `AlreadyLocked`, whatever its cause.
pub fn step_error(step: AcquireStep, path: PathBuf, source: io::Error) -> (error: DataDirError)
    ensures
        error == (match step {
            AcquireStep::CreateDir => DataDirError::Create { path, source },
            AcquireStep::OpenLockFile => DataDirError::OpenLockFile { path, source },
            AcquireStep::LockExclusive => DataDirError::AlreadyLocked { path },
        }),
{
    match step {
        AcquireStep::CreateDir => DataDirError::Create { path, source },
        AcquireStep::OpenLockFile => DataDirError::OpenLockFile { path, source },
        AcquireStep::LockExclusive => DataDirError::AlreadyLocked { path },
    }
}

impl DataDirError {
    /// The directory the failed acquisition was for.
    pub fn path(&self) -> (path: &PathBuf)
        ensures
            path == (match self {
                DataDirError::Create { path, .. } => path,
                DataDirError::OpenLockFile { path, .. } => path,
                DataDirError::AlreadyLocked { path } => path,
            }),
    {
        match self {
            DataDirError::Create { path, .. } => path,
            DataDirError::OpenLockFile { path, .. } => path,
            DataDirError::AlreadyLocked { path } => path,
        }
    }

    /// Whether this error says that another instance holds the lock.
    pub fn is_already_locked(&self) -> (locked: bool)
        ensures
            locked == (self is AlreadyLocked),
    {
        match self {
            DataDirError::AlreadyLocked { .. } => true,
            _ => false,
        }
    }
}

} // verus!
