use vstd::prelude::*;

verus! {

/// Where a scenario failure came from.
#[derive(Clone, Copy, Debug, PartialEq, Eq, Structural)]
pub enum FailureKind {
    /// An invariant of the scenario did not hold.
    Assertion,
    /// A lock was poisoned, or a channel peer went away.
    Synchronization,
    /// A worker thread ended without returning a value.
    Panicked,
    /// An operation on the filesystem scratch space failed.
    Io,
}

/// A failed check: what kind of failure, and a message that says what went wrong.
#[derive(Debug)]
pub struct Failure {
    pub kind: FailureKind,
    pub message: String,
}

/// The synchronization operations that a scenario performs and that can fail.
#[derive(Clone, Copy, Debug, PartialEq, Eq, Structural)]
pub enum SyncOp {
    LockMutex,
    WriteRwLock,
    ReadRwLock,
    WaitCondvar,
    SendMessage,
    ReceiveMessage,
}

/// The message reported when `op` fails.
pub open spec fn sync_message(op: SyncOp) -> Seq<char> {
    match op {
        SyncOp::LockMutex => "Failed to lock mutex"@,
        SyncOp::WriteRwLock => "Failed to lock RwLock for writing"@,
        SyncOp::ReadRwLock => "Failed to lock RwLock for reading"@,
        SyncOp::WaitCondvar => "Failed to wait"@,
        SyncOp::SendMessage => "Failed to send message"@,
        SyncOp::ReceiveMessage => "Failed to receive message"@,
    }
}

/// The message reported when the worker called `label` ends abnormally.
pub open spec fn panic_message(label: Seq<char>) -> Seq<char> {
    label + " panicked"@
}

impl Failure {
    /// The failure of a synchronization operation (a poisoned lock, a closed channel).
    pub fn sync(op: SyncOp) -> (r: Failure)
        ensures
            r.kind == FailureKind::Synchronization,
            r.message@ == sync_message(op),
    {
        proof {
            reveal_strlit("Failed to lock mutex");
            reveal_strlit("Failed to lock RwLock for writing");
            reveal_strlit("Failed to lock RwLock for reading");
            reveal_strlit("Failed to wait");
            reveal_strlit("Failed to send message");
            reveal_strlit("Failed to receive message");
        }
        let message = match op {
            SyncOp::LockMutex => String::from_str("Failed to lock mutex"),
            SyncOp::WriteRwLock => String::from_str("Failed to lock RwLock for writing"),
            SyncOp::ReadRwLock => String::from_str("Failed to lock RwLock for reading"),
            SyncOp::WaitCondvar => String::from_str("Failed to wait"),
            SyncOp::SendMessage => String::from_str("Failed to send message"),
            SyncOp::ReceiveMessage => String::from_str("Failed to receive message"),
        };
        Failure { kind: FailureKind::Synchronization, message }
    }

    /// The abnormal termination of the worker called `label`.
    pub fn panicked(label: &str) -> (r: Failure)
        ensures
            r.kind == FailureKind::Panicked,
            r.message@ == panic_message(label@),
    {
        proof { reveal_strlit(" panicked"); }
        let mut message = String::from_str(label);
        message.append(" panicked");
        Failure { kind: FailureKind::Panicked, message }
    }

    /// The message, for reporting.
    pub fn text(&self) -> (r: String)
        ensures
            r@ == self.message@,
    {
        self.message.clone()
    }
}

/// Turns the way a joined worker ended into its result: `exit` is `None` when
/// the worker ended abnormally, else what it returned.
pub fn settle_join<T>(exit: Option<Result<T, Failure>>, label: &str) -> (r: Result<T, Failure>)
    ensures
        exit is Some ==> r == exit->Some_0,
        exit is None ==> r is Err && r->Err_0.kind == FailureKind::Panicked
            && r->Err_0.message@ == panic_message(label@),
{
    match exit {
        Some(res) => res,
        None => Err(Failure::panicked(label)),
    }
}

} // verus!
