use vstd::prelude::*;
use crate::error::PtyErrorKind;

verus! {

/// Consecutive snapshots without children that confirm the shell is idle.
pub const REQUIRED_READY_CHECKS: u32 = 3;

/// How long, in milliseconds from the start, readiness is waited for.
pub const READY_BUDGET_MS: u64 = 5000;

/// The pause between two polls, in milliseconds.
pub const POLL_INTERVAL_MS: u64 = 300;

/// Where the readiness detector stands.
#[derive(Clone, Copy, Debug, PartialEq, Eq, Structural)]
pub enum ReadinessPhase {
    /// Still polling; the count of consecutive snapshots without children.
    Polling(u32),
    /// The shell was seen without children often enough in a row.
    ReadyConfirmed,
    /// The time budget ran out first; readiness is advisory, so this succeeds.
    TimedOut,
    /// The shell had exited.
    ShellExited,
}

/// What the driver of the detector observed.
#[derive(Clone, Copy, Debug, PartialEq, Eq, Structural)]
pub enum ReadinessEvent {
    /// Milliseconds elapsed since the wait began.
    Clock(u64),
    /// The shell was found still running.
    StillRunning,
    /// The shell was found exited.
    Exited,
    /// A process-table snapshot found this many children of the shell.
    Snapshot(usize),
}

/// What the driver should do next.
#[derive(Clone, Copy, Debug, PartialEq, Eq, Structural)]
pub enum ReadinessAction {
    /// Ask whether the shell is still running, then report it.
    QueryStatus,
    /// Take a snapshot of the process table, then report its children count.
    TakeSnapshot,
    /// Pause for this many milliseconds, then report the clock.
    Sleep(u64),
    /// The wait is over and succeeded.
    Succeed,
    /// The wait is over and failed with this kind.
    Fail(PtyErrorKind),
}

/// The phase after one snapshot that saw `children` children of the shell.
pub open spec fn after_snapshot(phase: ReadinessPhase, children: nat) -> ReadinessPhase {
    match phase {
        ReadinessPhase::Polling(n) => if children == 0 {
            if n + 1 >= REQUIRED_READY_CHECKS {
                ReadinessPhase::ReadyConfirmed
            } else {
                ReadinessPhase::Polling((n + 1) as u32)
            }
        } else {
            ReadinessPhase::Polling(0)
        },
        _ => phase,
    }
}

/// The action that closes a finished wait.
pub open spec fn closing_action(phase: ReadinessPhase) -> ReadinessAction {
    match phase {
        ReadinessPhase::ShellExited => ReadinessAction::Fail(PtyErrorKind::ShellExitedDuringWait),
        _ => ReadinessAction::Succeed,
    }
}

/// One step of the detector: the next phase and action after an event.
pub open spec fn readiness_step(phase: ReadinessPhase, event: ReadinessEvent) -> (
    ReadinessPhase,
    ReadinessAction,
) {
    match phase {
        ReadinessPhase::Polling(n) => match event {
            ReadinessEvent::Clock(ms) => if ms > READY_BUDGET_MS {
                (ReadinessPhase::TimedOut, ReadinessAction::Succeed)
            } else {
                (phase, ReadinessAction::QueryStatus)
            },
            ReadinessEvent::Exited => (
                ReadinessPhase::ShellExited,
                ReadinessAction::Fail(PtyErrorKind::ShellExitedDuringWait),
            ),
            ReadinessEvent::StillRunning => (phase, ReadinessAction::TakeSnapshot),
            ReadinessEvent::Snapshot(c) => {
                let next = after_snapshot(phase, c as nat);
                if next == ReadinessPhase::ReadyConfirmed {
                    (next, ReadinessAction::Succeed)
                } else {
                    (next, ReadinessAction::Sleep(POLL_INTERVAL_MS))
                }
            },
        },
        _ => (phase, closing_action(phase)),
    }
}

/// The phase after a run of snapshots, from a fresh detector.
pub open spec fn phase_after_snapshots(counts: Seq<nat>) -> ReadinessPhase
    decreases counts.len(),
{
    if counts.len() == 0 {
        ReadinessPhase::Polling(0)
    } else {
        after_snapshot(phase_after_snapshots(counts.drop_last()), counts.last())
    }
}

/// Whether three consecutive snapshots of the run found no children.
pub open spec fn has_zero_run(counts: Seq<nat>) -> bool {
    exists|i: int|
        2 <= i < counts.len() && #[trigger] counts[i] == 0 && counts[i - 1] == 0 && counts[i - 2]
            == 0
}

/// The number of snapshots without children at the end of the run.
pub open spec fn trailing_zeros(counts: Seq<nat>) -> nat
    decreases counts.len(),
{
    if counts.len() == 0 {
        0
    } else if counts.last() == 0 {
        1 + trailing_zeros(counts.drop_last())
    } else {
        0
    }
}

proof fn lemma_trailing_zeros_run(counts: Seq<nat>)
    requires
        counts.len() > 0,
    ensures
        trailing_zeros(counts) >= 3 <==> (counts.len() >= 3 && counts[counts.len() - 1] == 0
            && counts[counts.len() - 2] == 0 && counts[counts.len() - 3] == 0),
{
    reveal_with_fuel(trailing_zeros, 4);
    let a = counts.drop_last();
    if a.len() > 0 {
        let b = a.drop_last();
        assert(a.last() == counts[counts.len() - 2]);
        if b.len() > 0 {
            assert(b.last() == counts[counts.len() - 3]);
        }
    }
}

proof fn lemma_snapshots_phase(counts: Seq<nat>)
    ensures
        has_zero_run(counts) ==> phase_after_snapshots(counts) == ReadinessPhase::ReadyConfirmed,
        !has_zero_run(counts) ==> trailing_zeros(counts) < REQUIRED_READY_CHECKS
            && phase_after_snapshots(counts) == ReadinessPhase::Polling(
            trailing_zeros(counts) as u32,
        ),
    decreases counts.len(),
{
    if counts.len() > 0 {
        let prev = counts.drop_last();
        lemma_snapshots_phase(prev);
        lemma_trailing_zeros_run(counts);
        let n = counts.len() - 1;
        if has_zero_run(prev) {
            let i = choose|i: int|
                2 <= i < prev.len() && #[trigger] prev[i] == 0 && prev[i - 1] == 0 && prev[i - 2]
                    == 0;
            assert(counts[i] == 0);
            assert(has_zero_run(counts));
        } else if has_zero_run(counts) {
            let i = choose|i: int|
                2 <= i < counts.len() && #[trigger] counts[i] == 0 && counts[i - 1] == 0 && counts[i
                    - 2] == 0;
            if i < n {
                assert(prev[i] == 0);
                assert(false);
            }
        } else {
            if counts.len() >= 3 && counts[n] == 0 && counts[n - 1] == 0 && counts[n - 2] == 0 {
                assert(counts[n] == 0);
            }
        }
    }
}

/// Readiness is confirmed after a run of snapshots exactly when three
/// consecutive ones found the shell without children: a single snapshot
/// without children, or two, between snapshots with children, never confirm
/// it. Applied to each prefix of a run, this says that confirmation comes on
/// the third consecutive snapshot without children, and not before.
pub proof fn lemma_ready_needs_three_quiet_snapshots(counts: Seq<nat>)
    ensures
        phase_after_snapshots(counts) == ReadinessPhase::ReadyConfirmed <==> has_zero_run(
            counts,
        ),
{
    lemma_snapshots_phase(counts);
}

/// A detector that is still polling and learns that the budget has run out
/// ends the wait at once, and the wait succeeds.
pub proof fn lemma_budget_exhausted_succeeds(n: u32, elapsed_ms: u64)
    requires
        elapsed_ms > READY_BUDGET_MS,
    ensures
        readiness_step(ReadinessPhase::Polling(n), ReadinessEvent::Clock(elapsed_ms)) == (
            ReadinessPhase::TimedOut,
            ReadinessAction::Succeed,
        ),
{
}

/// One poll takes a fixed course: a clock reading within the budget leads to a
/// status query, a running shell to a snapshot, and the snapshot either ends
/// the wait with success or to a single pause of the poll interval, after
/// which the clock is read again. So the wait pauses once per poll and reads
/// the clock after every pause, and a clock reading past the budget ends it:
/// it lasts at most the budget plus one interval and the time the queries of
/// one poll take.
pub proof fn lemma_poll_cycle(n: u32, elapsed_ms: u64, children: usize)
    requires
        phase_wf(ReadinessPhase::Polling(n)),
        elapsed_ms <= READY_BUDGET_MS,
    ensures
        readiness_step(ReadinessPhase::Polling(n), ReadinessEvent::Clock(elapsed_ms)) == (
            ReadinessPhase::Polling(n),
            ReadinessAction::QueryStatus,
        ),
        readiness_step(ReadinessPhase::Polling(n), ReadinessEvent::StillRunning) == (
            ReadinessPhase::Polling(n),
            ReadinessAction::TakeSnapshot,
        ),
        ({
            let (next, action) = readiness_step(
                ReadinessPhase::Polling(n),
                ReadinessEvent::Snapshot(children),
            );
            ||| next == ReadinessPhase::ReadyConfirmed && action == ReadinessAction::Succeed
            ||| next is Polling && phase_wf(next) && action == ReadinessAction::Sleep(
                POLL_INTERVAL_MS,
            )
        }),
{
}

/// A detector that is still polling and learns that the shell has exited
/// ends the wait at once with a failure, whatever the clock says.
pub proof fn lemma_exited_shell_fails_at_once(n: u32)
    ensures
        readiness_step(ReadinessPhase::Polling(n), ReadinessEvent::Exited) == (
            ReadinessPhase::ShellExited,
            ReadinessAction::Fail(PtyErrorKind::ShellExitedDuringWait),
        ),
{
}

/// Whether a phase is one where polling goes on, with a count below the
/// confirmation threshold.
pub open spec fn phase_wf(phase: ReadinessPhase) -> bool {
    match phase {
        ReadinessPhase::Polling(n) => n < REQUIRED_READY_CHECKS,
        _ => true,
    }
}

/// Decides, poll by poll, whether a freshly launched shell is idle at its
/// prompt, judging by the absence of child processes.
pub struct ReadinessDetector {
    pub phase: ReadinessPhase,
}

impl ReadinessDetector {
    pub open spec fn wf(&self) -> bool {
        phase_wf(self.phase)
    }

    /// A detector that has seen nothing yet.
    pub fn new() -> (r: ReadinessDetector)
        ensures
            r.phase == ReadinessPhase::Polling(0),
            r.wf(),
    {
        ReadinessDetector { phase: ReadinessPhase::Polling(0) }
    }

    /// Whether the wait is over.
    pub fn is_finished(&self) -> (r: bool)
        ensures
            r == !(self.phase is Polling),
    {
        !matches!(self.phase, ReadinessPhase::Polling(_))
    }

    /// Takes in one event and says what to do next.
    pub fn on_event(&mut self, event: ReadinessEvent) -> (action: ReadinessAction)
        requires
            old(self).wf(),
        ensures
            (final(self).phase, action) == readiness_step(old(self).phase, event),
            final(self).wf(),
    {
        match self.phase {
            ReadinessPhase::Polling(n) => match event {
                ReadinessEvent::Clock(ms) => {
                    if ms > READY_BUDGET_MS {
                        self.phase = ReadinessPhase::TimedOut;
                        ReadinessAction::Succeed
                    } else {
                        ReadinessAction::QueryStatus
                    }
                },
                ReadinessEvent::Exited => {
                    self.phase = ReadinessPhase::ShellExited;
                    ReadinessAction::Fail(PtyErrorKind::ShellExitedDuringWait)
                },
                ReadinessEvent::StillRunning => ReadinessAction::TakeSnapshot,
                ReadinessEvent::Snapshot(c) => {
                    if c == 0 {
                        if n + 1 >= REQUIRED_READY_CHECKS {
                            self.phase = ReadinessPhase::ReadyConfirmed;
                            ReadinessAction::Succeed
                        } else {
                            self.phase = ReadinessPhase::Polling(n + 1);
                            ReadinessAction::Sleep(POLL_INTERVAL_MS)
                        }
                    } else {
                        self.phase = ReadinessPhase::Polling(0);
                        ReadinessAction::Sleep(POLL_INTERVAL_MS)
                    }
                },
            },
            ReadinessPhase::ShellExited => ReadinessAction::Fail(
                PtyErrorKind::ShellExitedDuringWait,
            ),
            _ => ReadinessAction::Succeed,
        }
    }
}

} // verus!
