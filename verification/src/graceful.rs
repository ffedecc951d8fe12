//! Graceful shutdown in two stages.
//!
//! A first interrupt only asks for a status report. A second one within a
//! short window cancels every task and waits for them to end, but not for
//! ever. The caller watches the signals and the clock and reports them; the
//! decisions are made here.

use vstd::prelude::*;

verus! {

/// Seconds within which a second interrupt must follow the first.
pub const INTERRUPT_WINDOW_SECS: u64 = 3;

/// Seconds between two looks at the tasks that are still running.
pub const GRACE_TICK_SECS: u64 = 3;

/// Looks that may find tasks running before the wait is given up.
pub const GRACE_TICKS: u32 = 10;

#[derive(Clone, Copy, Debug, PartialEq, Eq, Structural)]
pub enum ShutdownPhase {
    /// No interrupt is pending.
    Running,
    /// One interrupt came; a second one within the window shuts down.
    Armed,
    /// Cancelled; waiting for the tasks to end. Counts the looks so far.
    Draining(u32),
    /// Over: the process may exit.
    Finished,
}

/// What the caller reports.
#[derive(Clone, Copy, Debug, PartialEq, Eq, Structural)]
pub enum ShutdownSignal {
    /// The user interrupted the process.
    Interrupt,
    /// The window after the first interrupt has passed.
    WindowElapsed,
    /// Every task has ended.
    TasksDrained,
    /// Another `GRACE_TICK_SECS` have passed with tasks still running.
    GraceElapsed,
}

/// What the caller is to do next.
#[derive(Clone, Copy, Debug, PartialEq, Eq, Structural)]
pub enum ShutdownAction {
    /// Ask every task to show its status, and start the window.
    ShowInfo,
    /// Tell the user to interrupt twice in quick succession, and wait.
    Remind,
    /// Cancel every task, take no new ones, and wait for them to end.
    Cancel,
    /// Go on waiting for the tasks to end.
    KeepWaiting,
    /// Exit: every task has ended.
    Exit,
    /// Exit although tasks still run: the wait has been long enough.
    ExitOnTimeout,
    /// The signal does not belong to the phase: nothing changed.
    Ignore,
}

/// The phase and the action that follow a signal.
pub open spec fn spec_shutdown(phase: ShutdownPhase, signal: ShutdownSignal) -> (
    ShutdownPhase,
    ShutdownAction,
) {
    match (phase, signal) {
        (ShutdownPhase::Running, ShutdownSignal::Interrupt) => (
            ShutdownPhase::Armed,
            ShutdownAction::ShowInfo,
        ),
        (ShutdownPhase::Armed, ShutdownSignal::Interrupt) => (
            ShutdownPhase::Draining(0),
            ShutdownAction::Cancel,
        ),
        (ShutdownPhase::Armed, ShutdownSignal::WindowElapsed) => (
            ShutdownPhase::Running,
            ShutdownAction::Remind,
        ),
        (ShutdownPhase::Draining(_), ShutdownSignal::TasksDrained) => (
            ShutdownPhase::Finished,
            ShutdownAction::Exit,
        ),
        (ShutdownPhase::Draining(looks), ShutdownSignal::GraceElapsed) => if looks >= GRACE_TICKS {
            (ShutdownPhase::Finished, ShutdownAction::ExitOnTimeout)
        } else {
            (ShutdownPhase::Draining((looks + 1) as u32), ShutdownAction::KeepWaiting)
        },
        _ => (phase, ShutdownAction::Ignore),
    }
}

/// The shutdown of a process.
pub struct Graceful {
    phase: ShutdownPhase,
}

impl Graceful {
    pub closed spec fn view(&self) -> ShutdownPhase {
        self.phase
    }

    /// Whether the tasks have been told to end.
    pub open spec fn spec_cancelled(&self) -> bool {
        self@ is Draining || self@ is Finished
    }

    pub fn new() -> (graceful: Self)
        ensures
            graceful@ == ShutdownPhase::Running,
    {
        Graceful { phase: ShutdownPhase::Running }
    }

    pub fn phase(&self) -> (phase: ShutdownPhase)
        ensures
            phase == self@,
    {
        self.phase
    }

    /// Whether the tasks have been told to end.
    pub fn cancelled(&self) -> (yes: bool)
        ensures
            yes == self.spec_cancelled(),
    {
        match self.phase {
            ShutdownPhase::Draining(_) => true,
            ShutdownPhase::Finished => true,
            _ => false,
        }
    }

    /// Takes a signal and says what to do.
    pub fn shutdown(&mut self, signal: ShutdownSignal) -> (action: ShutdownAction)
        ensures
            (final(self)@, action) == spec_shutdown(old(self)@, signal),
    {
        let (next, action) = match (self.phase, signal) {
            (ShutdownPhase::Running, ShutdownSignal::Interrupt) => (
                ShutdownPhase::Armed,
                ShutdownAction::ShowInfo,
            ),
            (ShutdownPhase::Armed, ShutdownSignal::Interrupt) => (
                ShutdownPhase::Draining(0),
                ShutdownAction::Cancel,
            ),
            (ShutdownPhase::Armed, ShutdownSignal::WindowElapsed) => (
                ShutdownPhase::Running,
                ShutdownAction::Remind,
            ),
            (ShutdownPhase::Draining(_), ShutdownSignal::TasksDrained) => (
                ShutdownPhase::Finished,
                ShutdownAction::Exit,
            ),
            (ShutdownPhase::Draining(looks), ShutdownSignal::GraceElapsed) => {
                if looks >= GRACE_TICKS {
                    (ShutdownPhase::Finished, ShutdownAction::ExitOnTimeout)
                } else {
                    (ShutdownPhase::Draining(looks + 1), ShutdownAction::KeepWaiting)
                }
            },
            (phase, _) => (phase, ShutdownAction::Ignore),
        };
        self.phase = next;
        action
    }
}

/// The phase after `count` more looks that find tasks running.
pub open spec fn after_grace(phase: ShutdownPhase, count: nat) -> ShutdownPhase
    decreases count,
{
    if count == 0 {
        phase
    } else {
        after_grace(spec_shutdown(phase, ShutdownSignal::GraceElapsed).0, (count - 1) as nat)
    }
}

/// Cancellation is for good: no signal brings a cancelled process back.
pub proof fn lemma_cancelled_stays(phase: ShutdownPhase, signal: ShutdownSignal)
    requires
        phase is Draining || phase is Finished,
    ensures
        spec_shutdown(phase, signal).0 is Draining || spec_shutdown(phase, signal).0 is Finished,
{
}

/// The wait for the tasks is bounded: after cancellation the process is over
/// once `GRACE_TICKS + 1` looks have found tasks running, and not before.
pub proof fn lemma_drain_is_bounded(count: nat)
    ensures
        count <= GRACE_TICKS ==> after_grace(ShutdownPhase::Draining(0), count)
            == ShutdownPhase::Draining(count as u32),
        count > GRACE_TICKS ==> after_grace(ShutdownPhase::Draining(0), count)
            == ShutdownPhase::Finished,
{
    lemma_drain_from(0, count);
}

proof fn lemma_drain_from(looks: u32, count: nat)
    requires
        looks <= GRACE_TICKS,
    ensures
        looks + count <= GRACE_TICKS ==> after_grace(ShutdownPhase::Draining(looks), count)
            == ShutdownPhase::Draining((looks + count) as u32),
        looks + count > GRACE_TICKS ==> after_grace(ShutdownPhase::Draining(looks), count)
            == ShutdownPhase::Finished,
        after_grace(ShutdownPhase::Finished, count) == ShutdownPhase::Finished,
    decreases count,
{
    if count > 0 {
        if looks < GRACE_TICKS {
            lemma_drain_from((looks + 1) as u32, (count - 1) as nat);
        } else {
            lemma_drain_from(looks, (count - 1) as nat);
        }
    }
}

} // verus!
