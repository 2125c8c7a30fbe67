//! Process supervisor: owns the lifecycle of the single managed child
//! process.
//!
//! The supervisor is a state machine over plain values.  Decisions (may a
//! launch proceed, which process must be terminated) are made here; the
//! operating-system calls they lead to (spawning, graceful termination,
//! forceful kill) are performed by the embedding, which reports what happened
//! back through [`SpawnOutcome`] and [`TerminationOutcome`] events.  Launch
//! and stop are therefore each split in two: a `*_begin` step that decides
//! and a `*_finish` step that records the outcome.

use vstd::prelude::*;

use crate::config::Configuration;

verus! {

/// Ownership of one live child process, as the supervisor tracks it: the
/// process id the embedding spawned.  At most one handle exists per
/// supervisor at any time.
#[derive(Clone, Copy, Debug, PartialEq, Eq, Structural)]
pub struct ProcessHandle {
    pub pid: u64,
}

/// The supervisor's lifecycle state.  `Idle` is the initial state;
/// `Failed` is terminal until the supervisor is reconstructed and carries
/// the operating-system error that ended the lifecycle.
#[derive(Clone, Copy, Debug, PartialEq, Eq, Structural)]
pub enum SupervisorState {
    Idle,
    Running,
    Stopping,
    Stopped,
    Failed { os_error: i32 },
}

/// Errors of the supervisor's operations.
#[derive(Clone, Copy, Debug, PartialEq, Eq, Structural)]
pub enum SupervisorError {
    /// The addon directory could not be created or accessed.
    DirectoryUnavailable,
    /// A launch was requested while no executable path is configured.
    NoTargetConfigured,
    /// A launch was requested while one is already underway or winding down.
    AlreadyRunning,
    /// The spawn call failed; carries the operating-system error.
    LaunchFailed { os_error: i32 },
    /// The child survived the graceful wait and the forceful kill.
    TerminationTimeout,
    /// Exclusive access to the shared supervisor could not be acquired.
    LockError,
}

/// What the embedding's spawn call reported.
#[derive(Clone, Copy, Debug, PartialEq, Eq, Structural)]
pub enum SpawnOutcome {
    Spawned { pid: u64 },
    SpawnError { os_error: i32 },
}

/// What the embedding's bounded termination attempt reported: the child
/// exited within the timeout, was forcefully killed after it, or survived
/// even the kill.
#[derive(Clone, Copy, Debug, PartialEq, Eq, Structural)]
pub enum TerminationOutcome {
    ExitedWithinTimeout,
    KilledAfterTimeout,
    KillFailed { os_error: i32 },
}

/// What a stop request asks the embedding to do.
#[derive(Clone, Copy, Debug, PartialEq, Eq, Structural)]
pub enum StopStep {
    /// Nothing is running: the stop is already complete.
    NoProcess,
    /// Terminate this process, gracefully first, forcefully after the
    /// bounded timeout, and report the outcome to [`Supervisor::stop_finish`].
    Terminate { pid: u64 },
}

/// The component owning at most one managed child process: its launch
/// configuration, its lifecycle state, and the handle of the live child,
/// if any.
#[derive(Clone, Debug)]
pub struct Supervisor {
    pub config: Configuration,
    pub state: SupervisorState,
    pub handle: Option<ProcessHandle>,
}

impl Supervisor {
    /// A handle exists exactly while a process is running or winding down.
    pub open spec fn wf(self) -> bool {
        (self.state is Running || self.state is Stopping) <==> self.handle is Some
    }

    /// Whether a launch may proceed from this state.
    pub open spec fn launchable(self) -> bool {
        self.state is Idle || self.state is Stopped
    }

    /// What a launch request returns, decided from the state alone: busy
    /// states reject it, a terminal failure keeps reporting itself, and a
    /// launchable state accepts it exactly when a target is configured.
    pub open spec fn launch_decision(self) -> Result<(), SupervisorError> {
        match self.state {
            SupervisorState::Running => Err(SupervisorError::AlreadyRunning),
            SupervisorState::Stopping => Err(SupervisorError::AlreadyRunning),
            SupervisorState::Failed { os_error } => Err(SupervisorError::LaunchFailed { os_error }),
            SupervisorState::Idle => self.launch_allowed(),
            SupervisorState::Stopped => self.launch_allowed(),
        }
    }

    /// The target check behind [`Supervisor::launch_decision`].
    pub open spec fn launch_allowed(self) -> Result<(), SupervisorError> {
        if self.config@.path is Some {
            Ok(())
        } else {
            Err(SupervisorError::NoTargetConfigured)
        }
    }

    /// The supervisor after a spawn outcome is recorded: running with the
    /// spawned process's handle, or failed with the spawn error.
    pub open spec fn launch_step(self, outcome: SpawnOutcome) -> Supervisor {
        match outcome {
            SpawnOutcome::Spawned { pid } => Supervisor {
                state: SupervisorState::Running,
                handle: Some(ProcessHandle { pid }),
                ..self
            },
            SpawnOutcome::SpawnError { os_error } => Supervisor {
                state: SupervisorState::Failed { os_error },
                handle: None,
                ..self
            },
        }
    }

    /// What recording a spawn outcome returns.
    pub open spec fn launch_result(outcome: SpawnOutcome) -> Result<(), SupervisorError> {
        match outcome {
            SpawnOutcome::Spawned { .. } => Ok(()),
            SpawnOutcome::SpawnError { os_error } => Err(SupervisorError::LaunchFailed { os_error }),
        }
    }

    /// What a stop request asks for: nothing when no process is owned,
    /// termination of the owned process otherwise.
    pub open spec fn stop_step(self) -> StopStep {
        if self.state is Running || self.state is Stopping {
            StopStep::Terminate { pid: self.handle->Some_0.pid }
        } else {
            StopStep::NoProcess
        }
    }

    /// The supervisor after a stop request: a running lifecycle starts
    /// winding down, every other state is left exactly as it was.
    pub open spec fn stop_begin_post(self) -> Supervisor {
        if self.state is Running {
            Supervisor { state: SupervisorState::Stopping, ..self }
        } else {
            self
        }
    }

    /// The supervisor after a termination outcome is recorded: stopped once
    /// the child is gone, failed if even the forceful kill did not take it.
    pub open spec fn stop_finish_post(self, outcome: TerminationOutcome) -> Supervisor {
        match outcome {
            TerminationOutcome::KillFailed { os_error } => Supervisor {
                state: SupervisorState::Failed { os_error },
                handle: None,
                ..self
            },
            _ => Supervisor { state: SupervisorState::Stopped, handle: None, ..self },
        }
    }

    /// What recording a termination outcome returns.
    pub open spec fn stop_finish_result(outcome: TerminationOutcome) -> Result<(), SupervisorError> {
        match outcome {
            TerminationOutcome::KillFailed { .. } => Err(SupervisorError::TerminationTimeout),
            _ => Ok(()),
        }
    }

    /// Constructs a supervisor from a loaded configuration, owning no
    /// process and ready to launch.
    pub fn new(config: Configuration) -> (s: Supervisor)
        ensures
            s.state is Idle,
            s.handle is None,
            s.config == config,
            s.wf(),
    {
        Supervisor { config, state: SupervisorState::Idle, handle: None }
    }

    /// Decides a launch request.  The state is not touched: on `Ok` the
    /// embedding spawns the configured executable and records what happened
    /// through [`Supervisor::launch_finish`].
    pub fn launch_begin(&self) -> (r: Result<(), SupervisorError>)
        ensures
            r == self.launch_decision(),
    {
        match self.state {
            SupervisorState::Running => Err(SupervisorError::AlreadyRunning),
            SupervisorState::Stopping => Err(SupervisorError::AlreadyRunning),
            SupervisorState::Failed { os_error } => Err(SupervisorError::LaunchFailed { os_error }),
            _ => {
                if self.config.executable_path.is_some() {
                    Ok(())
                } else {
                    Err(SupervisorError::NoTargetConfigured)
                }
            },
        }
    }

    /// Records the outcome of the spawn an accepted launch led to.  A
    /// successful spawn makes the lifecycle `Running` and takes ownership of
    /// exactly one handle; a failed spawn makes it `Failed` and returns the
    /// spawn error — never silently `Running`.
    pub fn launch_finish(&mut self, outcome: SpawnOutcome) -> (r: Result<(), SupervisorError>)
        requires
            old(self).wf(),
            old(self).launch_decision() is Ok,
        ensures
            *final(self) == old(self).launch_step(outcome),
            r == Supervisor::launch_result(outcome),
            final(self).wf(),
    {
        match outcome {
            SpawnOutcome::Spawned { pid } => {
                self.state = SupervisorState::Running;
                self.handle = Some(ProcessHandle { pid });
                Ok(())
            },
            SpawnOutcome::SpawnError { os_error } => {
                self.state = SupervisorState::Failed { os_error };
                self.handle = None;
                Err(SupervisorError::LaunchFailed { os_error })
            },
        }
    }

    /// Decides a stop request.  Stopping something that was never started is
    /// not an error: in `Idle`, `Stopped` or `Failed` the supervisor is left
    /// exactly as it was and nothing is asked of the embedding.  A running
    /// lifecycle starts winding down and the embedding is asked to terminate
    /// the owned process, reporting back through [`Supervisor::stop_finish`].
    pub fn stop_begin(&mut self) -> (r: StopStep)
        requires
            old(self).wf(),
        ensures
            *final(self) == old(self).stop_begin_post(),
            r == old(self).stop_step(),
            final(self).wf(),
            !(old(self).state is Running || old(self).state is Stopping)
                ==> *final(self) == *old(self) && r == StopStep::NoProcess,
    {
        match self.state {
            SupervisorState::Running => {
                let pid = self.handle.as_ref().unwrap().pid;
                self.state = SupervisorState::Stopping;
                StopStep::Terminate { pid }
            },
            SupervisorState::Stopping => {
                let pid = self.handle.as_ref().unwrap().pid;
                StopStep::Terminate { pid }
            },
            _ => StopStep::NoProcess,
        }
    }

    /// Records the outcome of the bounded termination a stop led to.  Once
    /// the child exited or was killed the lifecycle is `Stopped` and the
    /// stop succeeded; if even the forceful kill failed it is `Failed` and
    /// the stop reports the timeout.
    pub fn stop_finish(&mut self, outcome: TerminationOutcome) -> (r: Result<(), SupervisorError>)
        requires
            old(self).wf(),
            old(self).state is Stopping,
        ensures
            *final(self) == old(self).stop_finish_post(outcome),
            r == Supervisor::stop_finish_result(outcome),
            final(self).wf(),
    {
        match outcome {
            TerminationOutcome::KillFailed { os_error } => {
                self.state = SupervisorState::Failed { os_error };
                self.handle = None;
                Err(SupervisorError::TerminationTimeout)
            },
            _ => {
                self.state = SupervisorState::Stopped;
                self.handle = None;
                Ok(())
            },
        }
    }

    /// True exactly while the lifecycle state is `Running`; never blocks.
    pub fn is_running(&self) -> (b: bool)
        ensures
            b == (self.state is Running),
    {
        match self.state {
            SupervisorState::Running => true,
            _ => false,
        }
    }

    /// Read accessor for the persisted launch-on-startup flag.
    pub fn launch_on_startup(&self) -> (b: bool)
        ensures
            b == self.config.launch_on_startup,
    {
        self.config.launch_on_startup
    }

    /// The configured target, cloned out for the embedding's spawn call.
    pub fn executable_path(&self) -> (r: Option<Vec<u8>>)
        ensures
            match r {
                Some(p) => self.config@.path == Some(p@),
                None => self.config@.path is None,
            },
    {
        match &self.config.executable_path {
            Some(p) => Some(clone_bytes(p)),
            None => None,
        }
    }
}

/// Byte-for-byte copy of a path, with its contents pinned down (the derived
/// clone of a vector carries no specification).
fn clone_bytes(v: &Vec<u8>) -> (r: Vec<u8>)
    ensures
        r@ == v@,
{
    let mut r: Vec<u8> = Vec::new();
    let mut i: usize = 0;
    while i < v.len()
        invariant
            i <= v.len(),
            r@ == v@.subrange(0, i as int),
        decreases v.len() - i,
    {
        r.push(v[i]);
        i = i + 1;
        proof {
            assert(r@ =~= v@.subrange(0, i as int));
        }
    }
    assert(r@ =~= v@);
    r
}

/// Stopping is idempotent: a stop request in `Idle`, `Stopped` or `Failed`
/// succeeds as a no-op and leaves the supervisor exactly unchanged.
pub proof fn lemma_stop_idempotent(s: Supervisor)
    requires
        s.wf(),
        s.state is Idle || s.state is Stopped || s.state is Failed,
    ensures
        s.stop_begin_post() == s,
        s.stop_step() == StopStep::NoProcess,
{
}

/// Launching is exclusive: once a launch has been accepted and its spawn
/// recorded, exactly one process handle is alive, and any further launch
/// request — from whichever caller the registry admits next — is rejected
/// with `AlreadyRunning` and changes nothing.
pub proof fn lemma_launch_exclusive(s: Supervisor, pid: u64)
    requires
        s.wf(),
        s.launch_decision() is Ok,
    ensures
        ({
            let s1 = s.launch_step(SpawnOutcome::Spawned { pid });
            &&& s1.wf()
            &&& s1.handle == Some(ProcessHandle { pid })
            &&& s1.launch_decision() == Err::<(), SupervisorError>(SupervisorError::AlreadyRunning)
        }),
{
}

} // verus!
