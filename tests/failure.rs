use sync_harness::failure::{settle_join, Failure, FailureKind, SyncOp};

#[test]
fn sync_failures_name_the_operation() {
    let f = Failure::sync(SyncOp::LockMutex);
    assert_eq!(f.kind, FailureKind::Synchronization);
    assert_eq!(f.text(), "Failed to lock mutex");
    assert_eq!(Failure::sync(SyncOp::WriteRwLock).message, "Failed to lock RwLock for writing");
    assert_eq!(Failure::sync(SyncOp::ReadRwLock).message, "Failed to lock RwLock for reading");
    assert_eq!(Failure::sync(SyncOp::WaitCondvar).message, "Failed to wait");
    assert_eq!(Failure::sync(SyncOp::SendMessage).message, "Failed to send message");
    assert_eq!(Failure::sync(SyncOp::ReceiveMessage).message, "Failed to receive message");
}

#[test]
fn panic_is_distinguished() {
    let f = Failure::panicked("Sender thread");
    assert_eq!(f.kind, FailureKind::Panicked);
    assert_eq!(f.message, "Sender thread panicked");
}

#[test]
fn join_of_crashed_worker_fails() {
    let r: Result<u64, Failure> = settle_join(None, "Thread");
    let f = r.unwrap_err();
    assert_eq!(f.kind, FailureKind::Panicked);
    assert_eq!(f.message, "Thread panicked");
}

#[test]
fn join_passes_returned_values_on() {
    let r = settle_join(Some(Ok(42u64)), "Thread");
    assert_eq!(r.unwrap(), 42);
    let r: Result<u64, Failure> =
        settle_join(Some(Err(Failure::sync(SyncOp::LockMutex))), "Thread");
    let f = r.unwrap_err();
    assert_eq!(f.kind, FailureKind::Synchronization);
    assert_eq!(f.message, "Failed to lock mutex");
}
