use vstd::prelude::*;

use crate::error::{AppError, ErrorKind};

verus! {

/// The single control value ever sent to the supervisor: terminate the
/// worker process group now.
pub const SHUTDOWN_SENTINEL: i32 = -1;

/// Whether the supervised worker process group is still running, as
/// far as the supervisor is concerned.
#[derive(Clone, Copy, PartialEq, Eq, Structural, Debug)]
pub enum WorkerStatus {
    Running,
    Killed,
}

/// What the supervising loop must do after handling a control value.
#[derive(Clone, Copy, PartialEq, Eq, Structural, Debug)]
pub enum SupervisorAction {
    /// Kill the whole worker process group, children included.
    KillGroup,
    /// Nothing: the value was not the sentinel, or the group is
    /// already down.
    Ignore,
}

/// The supervision step as a function of state and control value: the
/// sentinel kills a running group; everything else changes nothing.
pub open spec fn supervisor_step(w: WorkerStatus, signal: i32) -> (WorkerStatus, SupervisorAction) {
    if signal == SHUTDOWN_SENTINEL && w is Running {
        (WorkerStatus::Killed, SupervisorAction::KillGroup)
    } else {
        (w, SupervisorAction::Ignore)
    }
}

/// Shutdown terminates the worker: after the sentinel is handled the
/// group is down in every case — a running group is ordered killed,
/// and one already down is not killed a second time.
pub proof fn lemma_shutdown_terminates(w: WorkerStatus)
    ensures
        supervisor_step(w, SHUTDOWN_SENTINEL).0 is Killed,
        w is Running ==> supervisor_step(w, SHUTDOWN_SENTINEL).1 is KillGroup,
        w is Killed ==> supervisor_step(w, SHUTDOWN_SENTINEL).1 is Ignore,
{
}

/// The decision half of the process supervisor: it tracks whether the
/// worker group is up and turns each control value received into the
/// action the supervising loop must take. Spawning the group and the
/// kill itself are the loop's own, outside work.
pub struct Supervisor {
    pub worker: WorkerStatus,
}

impl Supervisor {
    /// A supervisor for a group that was just spawned.
    pub fn new() -> (s: Supervisor)
        ensures
            s.worker is Running,
    {
        Supervisor { worker: WorkerStatus::Running }
    }

    /// Handle one control value: exactly the supervision step. The
    /// kill is ordered at most once over the supervisor's lifetime.
    pub fn handle_signal(&mut self, signal: i32) -> (a: SupervisorAction)
        ensures
            (final(self).worker, a) == supervisor_step(old(self).worker, signal),
    {
        if signal == SHUTDOWN_SENTINEL {
            match self.worker {
                WorkerStatus::Running => {
                    self.worker = WorkerStatus::Killed;
                    SupervisorAction::KillGroup
                },
                WorkerStatus::Killed => SupervisorAction::Ignore,
            }
        } else {
            SupervisorAction::Ignore
        }
    }
}

/// A model of the single-slot, bounded control channel that carries
/// the shutdown sentinel from the host's teardown path to the
/// supervising loop. One slot suffices: only one value is ever sent.
pub struct ControlChannel {
    slot: Option<i32>,
}

impl ControlChannel {
    /// What the channel currently holds.
    pub closed spec fn pending(&self) -> Option<i32> {
        self.slot
    }

    /// An empty channel.
    pub fn new() -> (c: ControlChannel)
        ensures
            c.pending() is None,
    {
        ControlChannel { slot: None }
    }

    /// Deliver a control value without ever blocking the sender: into
    /// an empty slot it goes; a full slot is a `ProcessError`, which
    /// the teardown path must surface as fatal rather than wait on.
    pub fn send(&mut self, signal: i32) -> (r: Result<(), AppError>)
        ensures
            old(self).pending() is None ==> r is Ok && final(self).pending() == Some(signal),
            old(self).pending() is Some ==> (r matches Err(e) && e.kind is ProcessError) && final(
                self).pending() == old(self).pending(),
    {
        match self.slot {
            None => {
                self.slot = Some(signal);
                Ok(())
            },
            Some(_) => Err(
                AppError::new(ErrorKind::ProcessError, "control channel is full".to_owned()),
            ),
        }
    }

    /// Take the pending control value, if any, leaving the slot empty.
    pub fn try_recv(&mut self) -> (r: Option<i32>)
        ensures
            r == old(self).pending(),
            final(self).pending() is None,
    {
        let got = self.slot;
        self.slot = None;
        got
    }
}

} // verus!
