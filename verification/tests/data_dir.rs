use std::io;
use std::path::PathBuf;

use sync_mesh_core::data_dir::{
    first_step, next_action, step_error, AcquireAction, AcquireStep, DataDirError, LOCK_FILE_NAME,
};

#[test]
fn steps_run_create_open_lock() {
    assert_eq!(first_step(), AcquireStep::CreateDir);
    assert_eq!(
        next_action(AcquireStep::CreateDir, true),
        AcquireAction::Perform(AcquireStep::OpenLockFile)
    );
    assert_eq!(
        next_action(AcquireStep::OpenLockFile, true),
        AcquireAction::Perform(AcquireStep::LockExclusive)
    );
    assert_eq!(next_action(AcquireStep::LockExclusive, true), AcquireAction::Acquired);
}

#[test]
fn a_failing_step_ends_the_acquisition() {
    for step in [AcquireStep::CreateDir, AcquireStep::OpenLockFile, AcquireStep::LockExclusive] {
        assert_eq!(next_action(step, false), AcquireAction::Fail(step));
    }
}

#[test]
fn each_failing_step_has_its_own_error() {
    let path = PathBuf::from("/data/node");
    let create = step_error(AcquireStep::CreateDir, path.clone(), io::Error::other("denied"));
    assert!(matches!(create, DataDirError::Create { .. }));
    assert_eq!(create.path(), &path);
    assert!(!create.is_already_locked());

    let open = step_error(AcquireStep::OpenLockFile, path.clone(), io::Error::other("denied"));
    assert!(matches!(open, DataDirError::OpenLockFile { .. }));
    assert_eq!(open.path(), &path);

    let lock = step_error(AcquireStep::LockExclusive, path.clone(), io::Error::other("busy"));
    assert!(matches!(lock, DataDirError::AlreadyLocked { .. }));
    assert!(lock.is_already_locked());
    assert_eq!(lock.path(), &path);
}

#[test]
fn create_error_keeps_its_source() {
    let error = step_error(
        AcquireStep::CreateDir,
        PathBuf::from("/x"),
        io::Error::new(io::ErrorKind::PermissionDenied, "no"),
    );
    match error {
        DataDirError::Create { source, .. } => {
            assert_eq!(source.kind(), io::ErrorKind::PermissionDenied)
        }
        other => panic!("unexpected {other:?}"),
    }
}

#[test]
fn lock_file_is_named_dot_lock() {
    assert_eq!(LOCK_FILE_NAME, ".lock");
}
