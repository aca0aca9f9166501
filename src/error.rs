use vstd::prelude::*;

verus! {

/// The kinds of failure a session can report.
#[derive(Clone, Copy, Debug, PartialEq, Eq, Structural)]
pub enum PtyErrorKind {
    /// The terminal device pair could not be allocated.
    AllocationFailure,
    /// The shell process could not be launched.
    SpawnFailure,
    /// An exclusive guard around a handle could not be acquired.
    HandleLockFailure,
    /// Writing to the device, deriving its writer or reader, or queueing input failed.
    IoFailure,
    /// The terminal geometry could not be changed.
    ResizeFailure,
    /// The termination request for the shell failed.
    KillFailure,
    /// The process table or the shell's status could not be read.
    ReadinessCheckFailure,
    /// The shell exited before it was seen idle.
    ShellExitedDuringWait,
}

/// A failure of a session operation, with the underlying system's text.
#[derive(Clone, Debug)]
pub struct PtyError {
    pub kind: PtyErrorKind,
    pub detail: String,
}

impl PtyError {
    pub fn new(kind: PtyErrorKind, detail: String) -> (r: PtyError)
        ensures
            r.kind == kind,
            r.detail@ == detail@,
    {
        PtyError { kind, detail }
    }
}

/// Turns the outcome of one system operation into the session's result:
/// success stays success, and a failure becomes an error of `kind` carrying
/// the system's text.
pub fn settle(kind: PtyErrorKind, outcome: Result<(), String>) -> (r: Result<(), PtyError>)
    ensures
        outcome is Ok <==> r is Ok,
        outcome is Err ==> r->Err_0.kind == kind && r->Err_0.detail@ == outcome->Err_0@,
{
    match outcome {
        Ok(()) => Ok(()),
        Err(text) => Err(PtyError::new(kind, text)),
    }
}

} // verus!
