use vstd::prelude::*;
use crate::error::{PtyError, PtyErrorKind, settle};

verus! {

/// What a termination request finds of the shell before it acts.
#[derive(Clone, Copy, Debug, PartialEq, Eq, Structural)]
pub enum ShellStatus {
    Running,
    Exited,
}

/// Whether a termination request still has to signal the shell. A shell that
/// has already exited is left alone, so terminating twice, or terminating a
/// shell that ended by itself, succeeds.
pub fn needs_termination(status: ShellStatus) -> (r: bool)
    ensures
        r == (status == ShellStatus::Running),
{
    status == ShellStatus::Running
}

/// The result of a termination request: `signal` is the outcome of signalling
/// the shell, and is only looked at where the shell was still running.
pub fn kill_outcome(status: ShellStatus, signal: Result<(), String>) -> (r: Result<(), PtyError>)
    ensures
        status == ShellStatus::Exited ==> r is Ok,
        status == ShellStatus::Running ==> (r is Ok <==> signal is Ok),
        status == ShellStatus::Running && signal is Err ==> r->Err_0.kind == PtyErrorKind::KillFailure
            && r->Err_0.detail@ == signal->Err_0@,
{
    if needs_termination(status) {
        settle(PtyErrorKind::KillFailure, signal)
    } else {
        Ok(())
    }
}

} // verus!
