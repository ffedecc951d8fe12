//! The daemon's life, step by step: take the lock, bind the control socket,
//! scan, serve, and stop.
//!
//! The supervisor performs no I/O. Its caller tries the lock, binds the
//! socket, scans the directory tree and spawns the listeners, and reports
//! each outcome; the supervisor answers with the next step.

use vstd::prelude::*;
use crate::config_manager::ClusterIdentity;
use crate::daemon::{
    aborted, cluster_views, kept, only_view, started, DaemonState, ListenerStart, RescanPlan,
};
use crate::daemon_socket::{DaemonMessage, MessageView};

verus! {

/// Where the daemon stands.
#[derive(Clone, Copy, Debug, PartialEq, Eq, Structural)]
pub enum SupervisorPhase {
    /// The lock on the configuration root is yet to be tried.
    Locking,
    /// The lock is held; the control socket is yet to be bound.
    Binding,
    /// The socket is bound; the first scan is yet to come.
    Scanning,
    /// The listeners run and rescans are served.
    Running,
    /// The daemon is over.
    Stopped,
}

/// What became of the attempt to lock the configuration root.
#[derive(Debug)]
pub enum LockAttempt {
    Acquired,
    /// Another daemon holds the lock.
    HeldElsewhere,
    /// The lock file could not be opened or locked, with the reason.
    Failed(String),
}

/// The end of a daemon that never served: the exit code, and what to tell
/// the user.
#[derive(Debug)]
pub struct ExitNotice {
    pub code: i32,
    pub message: String,
}

/// What the caller is to do next.
#[derive(Debug)]
pub enum SupervisorStep {
    /// Remove a stale socket file, then bind the control socket.
    BindSocket,
    /// Scan the cluster directories.
    Scan,
    /// Spawn these listeners, then wait for shutdown and serve rescans.
    Spawn(Vec<ListenerStart>),
    /// Abort these listener tasks, release the lock, remove the socket and
    /// exit with code 0.
    Shutdown(Vec<u64>),
    /// Exit at once.
    Exit(ExitNotice),
    /// The report does not belong to the phase: nothing changed.
    Unexpected,
}

/// The outcome of a rescan that was asked for over the control socket: what
/// to do to the listeners, if anything, and what to answer.
#[derive(Debug)]
pub struct RescanOutcome {
    pub plan: Option<RescanPlan>,
    pub response: DaemonMessage,
}

pub struct Supervisor {
    phase: SupervisorPhase,
    state: DaemonState,
}

impl Supervisor {
    pub closed spec fn phase(&self) -> SupervisorPhase {
        self.phase
    }

    /// The listener tasks by cluster alias.
    pub closed spec fn listeners(&self) -> Map<Seq<char>, u64> {
        self.state@
    }

    pub closed spec fn next_task(&self) -> nat {
        self.state.next_task()
    }

    /// What every supervisor satisfies: its books are in order, and
    /// listeners run only while it serves.
    pub closed spec fn wf(&self) -> bool {
        &&& self.state.wf()
        &&& !(self.phase is Running) ==> self.state@ == Map::<Seq<char>, u64>::empty()
    }

    /// A daemon for a configuration root, before its first step: the caller
    /// is to try the lock.
    pub fn new(malai_home: String) -> (supervisor: Self)
        ensures
            supervisor.wf(),
            supervisor.phase() == SupervisorPhase::Locking,
            supervisor.listeners() == Map::<Seq<char>, u64>::empty(),
    {
        Supervisor { phase: SupervisorPhase::Locking, state: DaemonState::new(malai_home) }
    }

    pub fn current_phase(&self) -> (phase: SupervisorPhase)
        ensures
            phase == self.phase(),
    {
        self.phase
    }

    /// The books, for reading.
    pub fn state(&self) -> (state: &DaemonState)
        requires
            self.wf(),
        ensures
            state.wf(),
            state@ == self.listeners(),
            state.next_task() == self.next_task(),
    {
        &self.state
    }

    /// Takes the outcome of the lock attempt.
    ///
    /// With the lock the daemon goes on to bind its socket. Where another
    /// daemon holds the lock this one says so and exits with code 0, so that
    /// starting the daemon twice does no harm. Any other failure is fatal.
    pub fn lock_attempted(&mut self, attempt: LockAttempt) -> (step: SupervisorStep)
        requires
            old(self).wf(),
        ensures
            final(self).wf(),
            final(self).listeners() == old(self).listeners(),
            final(self).next_task() == old(self).next_task(),
            if old(self).phase() is Locking {
                match attempt {
                    LockAttempt::Acquired => step is BindSocket && final(self).phase() is Binding,
                    LockAttempt::HeldElsewhere => {
                        &&& final(self).phase() is Stopped
                        &&& step matches SupervisorStep::Exit(notice)
                        &&& notice.code == 0
                        &&& notice.message@ == "another instance is running"@
                    },
                    LockAttempt::Failed(reason) => {
                        &&& final(self).phase() is Stopped
                        &&& step matches SupervisorStep::Exit(notice)
                        &&& notice.code == 1
                        &&& notice.message == reason
                    },
                }
            } else {
                step is Unexpected && final(self).phase() == old(self).phase()
            },
    {
        match self.phase {
            SupervisorPhase::Locking => {},
            _ => {
                return SupervisorStep::Unexpected;
            },
        }
        match attempt {
            LockAttempt::Acquired => {
                self.phase = SupervisorPhase::Binding;
                SupervisorStep::BindSocket
            },
            LockAttempt::HeldElsewhere => {
                self.phase = SupervisorPhase::Stopped;
                SupervisorStep::Exit(
                    ExitNotice { code: 0, message: "another instance is running".to_owned() },
                )
            },
            LockAttempt::Failed(reason) => {
                self.phase = SupervisorPhase::Stopped;
                SupervisorStep::Exit(ExitNotice { code: 1, message: reason })
            },
        }
    }

    /// Takes the outcome of binding the control socket. A socket that cannot
    /// be bound is fatal.
    pub fn socket_attempted(&mut self, bound: Result<(), String>) -> (step: SupervisorStep)
        requires
            old(self).wf(),
        ensures
            final(self).wf(),
            final(self).listeners() == old(self).listeners(),
            final(self).next_task() == old(self).next_task(),
            if old(self).phase() is Binding {
                match bound {
                    Ok(()) => step is Scan && final(self).phase() is Scanning,
                    Err(reason) => {
                        &&& final(self).phase() is Stopped
                        &&& step matches SupervisorStep::Exit(notice)
                        &&& notice.code == 1
                        &&& notice.message == reason
                    },
                }
            } else {
                step is Unexpected && final(self).phase() == old(self).phase()
            },
    {
        match self.phase {
            SupervisorPhase::Binding => {},
            _ => {
                return SupervisorStep::Unexpected;
            },
        }
        match bound {
            Ok(()) => {
                self.phase = SupervisorPhase::Scanning;
                SupervisorStep::Scan
            },
            Err(reason) => {
                self.phase = SupervisorPhase::Stopped;
                SupervisorStep::Exit(ExitNotice { code: 1, message: reason })
            },
        }
    }

    /// Takes the clusters of the first scan and says which listeners to
    /// spawn: one for each cluster, the first of its alias.
    pub fn start_all_cluster_listeners(&mut self, found: &[ClusterIdentity]) -> (step:
        SupervisorStep)
        requires
            old(self).wf(),
        ensures
            final(self).wf(),
            if old(self).phase() is Scanning {
                let s = started(
                    Map::<Seq<char>, u64>::empty(),
                    old(self).next_task(),
                    cluster_views(found@),
                    None,
                );
                if old(self).next_task() + found@.len() <= u64::MAX {
                    &&& final(self).phase() is Running
                    &&& step matches SupervisorStep::Spawn(starts)
                    &&& starts@ == s.starts
                    &&& final(self).listeners() == s.listeners
                    &&& final(self).next_task() == s.next_task
                } else {
                    &&& final(self).phase() is Stopped
                    &&& step matches SupervisorStep::Exit(notice)
                    &&& notice.code == 1
                    &&& final(self).listeners() == old(self).listeners()
                }
            } else {
                &&& step is Unexpected
                &&& final(self).phase() == old(self).phase()
                &&& final(self).listeners() == old(self).listeners()
                &&& final(self).next_task() == old(self).next_task()
            },
    {
        match self.phase {
            SupervisorPhase::Scanning => {},
            _ => {
                return SupervisorStep::Unexpected;
            },
        }
        match self.state.start_cluster_listeners(found, None) {
            Ok(starts) => {
                self.phase = SupervisorPhase::Running;
                SupervisorStep::Spawn(starts)
            },
            Err(_) => {
                self.phase = SupervisorPhase::Stopped;
                SupervisorStep::Exit(
                    ExitNotice { code: 1, message: "too many listener tasks".to_owned() },
                )
            },
        }
    }

    /// Serves a rescan request with the clusters of a fresh scan.
    ///
    /// A daemon that serves answers `Success` and hands out the plan; where
    /// the numbers for the tasks would run out, or the daemon does not
    /// serve, it answers with an error and changes nothing.
    pub fn rescan(&mut self, cluster_name: Option<&str>, found: &[ClusterIdentity]) -> (outcome:
        RescanOutcome)
        requires
            old(self).wf(),
        ensures
            final(self).wf(),
            final(self).phase() == old(self).phase(),
            if old(self).phase() is Running && old(self).next_task() + found@.len() <= u64::MAX {
                let s = started(
                    kept(old(self).listeners(), only_view(cluster_name)),
                    old(self).next_task(),
                    cluster_views(found@),
                    only_view(cluster_name),
                );
                &&& outcome.response@ == MessageView::Success
                &&& outcome.plan matches Some(plan)
                &&& plan.start@ == s.starts
                &&& plan.abort@.no_duplicates()
                &&& forall|task: u64|
                    plan.abort@.contains(task) <==> aborted(
                        old(self).listeners(),
                        only_view(cluster_name),
                    ).contains(task)
                &&& final(self).listeners() == s.listeners
                &&& final(self).next_task() == s.next_task
            } else {
                &&& outcome.plan.is_none()
                &&& outcome.response@ == MessageView::Error(
                    if old(self).phase() is Running {
                        "too many listener tasks"@
                    } else {
                        "daemon is not serving"@
                    },
                )
                &&& final(self).listeners() == old(self).listeners()
                &&& final(self).next_task() == old(self).next_task()
            },
    {
        match self.phase {
            SupervisorPhase::Running => {},
            _ => {
                return RescanOutcome {
                    plan: None,
                    response: DaemonMessage::Error("daemon is not serving".to_owned()),
                };
            },
        }
        match self.state.perform_real_daemon_rescan(cluster_name, found) {
            Ok(plan) => RescanOutcome { plan: Some(plan), response: DaemonMessage::Success },
            Err(_) => RescanOutcome {
                plan: None,
                response: DaemonMessage::Error("too many listener tasks".to_owned()),
            },
        }
    }

    /// Takes the shutdown signal: every listener is to be aborted, and the
    /// daemon is over. Before the daemon serves there is nothing to abort.
    pub fn cancelled(&mut self) -> (step: SupervisorStep)
        requires
            old(self).wf(),
        ensures
            final(self).wf(),
            final(self).listeners() == Map::<Seq<char>, u64>::empty(),
            final(self).next_task() == old(self).next_task(),
            if old(self).phase() is Stopped {
                step is Unexpected && final(self).phase() is Stopped
            } else {
                &&& final(self).phase() is Stopped
                &&& step matches SupervisorStep::Shutdown(tasks)
                &&& tasks@.no_duplicates()
                &&& forall|task: u64|
                    tasks@.contains(task) <==> exists|alias: Seq<char>|
                        old(self).listeners().contains_key(alias) && old(self).listeners()[alias]
                            == task
            },
    {
        match self.phase {
            SupervisorPhase::Stopped => {
                return SupervisorStep::Unexpected;
            },
            _ => {},
        }
        let tasks = self.state.stop_all_cluster_listeners();
        proof {
            assert forall|task: u64| tasks@.contains(task) implies exists|alias: Seq<char>|
                old(self).listeners().contains_key(alias) && old(self).listeners()[alias]
                    == task by {
                let alias = choose|alias: Seq<char>|
                    old(self).state@.contains_key(alias) && old(self).state@[alias] == task;
                assert(old(self).listeners().contains_key(alias) && old(self).listeners()[alias]
                    == task);
            }
        }
        self.phase = SupervisorPhase::Stopped;
        SupervisorStep::Shutdown(tasks)
    }
}

} // verus!
