//! Process-wide registry: the holder of the single shared supervisor for
//! the addon's entire session.
//!
//! Initialization is exactly-once: a second install attempt is rejected and
//! never replaces a supervisor that may be running.  Every trigger the host
//! drives (load, unload, hotkey, menu) reaches the supervisor through this
//! registry; the embedding keeps the one registry value behind its mutual
//! exclusion, so the delegating operations here are what each caller runs
//! while holding exclusive access.  A caller that finds the registry
//! uninitialized — the load sequence failed before registration — gets a
//! graceful no-op, never an abort.

use vstd::prelude::*;

use crate::supervisor::{SpawnOutcome, StopStep, Supervisor, SupervisorError, TerminationOutcome};

verus! {

/// Errors of the registry.
#[derive(Clone, Copy, Debug, PartialEq, Eq, Structural)]
pub enum RegistryError {
    /// A shared supervisor is already installed; the newcomer is refused.
    AlreadyInitialized,
}

/// The one holder of the shared supervisor instance.
#[derive(Debug)]
pub struct Registry {
    pub slot: Option<Supervisor>,
}

impl Registry {
    /// Whether the shared supervisor has been installed.
    pub open spec fn initialized(self) -> bool {
        self.slot is Some
    }

    /// The installed supervisor, if any, is well-formed.
    pub open spec fn wf(self) -> bool {
        self.slot matches Some(s) ==> s.wf()
    }

    /// What an install attempt returns: refused exactly when a supervisor
    /// is already installed.
    pub open spec fn initialize_result(self) -> Result<(), RegistryError> {
        if self.initialized() {
            Err(RegistryError::AlreadyInitialized)
        } else {
            Ok(())
        }
    }

    /// The registry after an install attempt: unchanged when already
    /// initialized, holding the newcomer otherwise.
    pub open spec fn initialize_post(self, sup: Supervisor) -> Registry {
        if self.initialized() {
            self
        } else {
            Registry { slot: Some(sup) }
        }
    }

    /// An empty registry, as the session starts.
    pub fn new() -> (r: Registry)
        ensures
            !r.initialized(),
            r.wf(),
    {
        Registry { slot: None }
    }

    /// Installs the shared supervisor exactly once.  A second call returns
    /// `AlreadyInitialized` and leaves the installed instance untouched.
    pub fn initialize(&mut self, sup: Supervisor) -> (r: Result<(), RegistryError>)
        requires
            old(self).wf(),
            sup.wf(),
        ensures
            r == old(self).initialize_result(),
            *final(self) == old(self).initialize_post(sup),
            final(self).wf(),
    {
        match self.slot {
            Some(_) => Err(RegistryError::AlreadyInitialized),
            None => {
                self.slot = Some(sup);
                Ok(())
            },
        }
    }

    /// Whether the shared supervisor has been installed.
    pub fn is_initialized(&self) -> (b: bool)
        ensures
            b == self.initialized(),
    {
        self.slot.is_some()
    }

    /// Borrows the shared instance, or nothing if the load sequence failed
    /// before registration.
    pub fn get(&self) -> (r: Option<&Supervisor>)
        ensures
            match r {
                Some(s) => self.slot == Some(*s),
                None => self.slot is None,
            },
    {
        match &self.slot {
            Some(s) => Some(s),
            None => None,
        }
    }

    /// A trigger's launch request: decided by the installed supervisor, a
    /// no-op (`None`) when nothing is installed.
    pub fn launch_begin(&self) -> (r: Option<Result<(), SupervisorError>>)
        ensures
            match r {
                Some(d) => self.slot matches Some(s) && d == s.launch_decision(),
                None => self.slot is None,
            },
    {
        match &self.slot {
            Some(s) => Some(s.launch_begin()),
            None => None,
        }
    }

    /// Records a spawn outcome with the installed supervisor.
    pub fn launch_finish(&mut self, outcome: SpawnOutcome) -> (r: Option<Result<(), SupervisorError>>)
        requires
            old(self).wf(),
            old(self).slot matches Some(s) ==> s.launch_decision() is Ok,
        ensures
            old(self).slot is None ==> r is None && *final(self) == *old(self),
            old(self).slot matches Some(s) ==> {
                &&& final(self).slot == Some(s.launch_step(outcome))
                &&& r == Some(Supervisor::launch_result(outcome))
            },
            final(self).wf(),
    {
        match &mut self.slot {
            Some(s) => Some(s.launch_finish(outcome)),
            None => None,
        }
    }

    /// A trigger's stop request: decided and recorded by the installed
    /// supervisor, a no-op (`None`) when nothing is installed.
    pub fn stop_begin(&mut self) -> (r: Option<StopStep>)
        requires
            old(self).wf(),
        ensures
            old(self).slot is None ==> r is None && *final(self) == *old(self),
            old(self).slot matches Some(s) ==> {
                &&& final(self).slot == Some(s.stop_begin_post())
                &&& r == Some(s.stop_step())
            },
            final(self).wf(),
    {
        match &mut self.slot {
            Some(s) => Some(s.stop_begin()),
            None => None,
        }
    }

    /// Records a termination outcome with the installed supervisor.
    pub fn stop_finish(&mut self, outcome: TerminationOutcome) -> (r: Option<Result<(), SupervisorError>>)
        requires
            old(self).wf(),
            old(self).slot matches Some(s) ==> s.state is Stopping,
        ensures
            old(self).slot is None ==> r is None && *final(self) == *old(self),
            old(self).slot matches Some(s) ==> {
                &&& final(self).slot == Some(s.stop_finish_post(outcome))
                &&& r == Some(Supervisor::stop_finish_result(outcome))
            },
            final(self).wf(),
    {
        match &mut self.slot {
            Some(s) => Some(s.stop_finish(outcome)),
            None => None,
        }
    }

    /// Whether the installed supervisor currently reads as running; `false`
    /// when nothing is installed.
    pub fn is_running(&self) -> (b: bool)
        ensures
            b == (self.slot matches Some(s) && s.state is Running),
    {
        match &self.slot {
            Some(s) => s.is_running(),
            None => false,
        }
    }
}

/// Initialization is exactly-once: from an uninitialized registry the first
/// install succeeds, a second install attempt — with whatever supervisor —
/// is rejected with `AlreadyInitialized`, and the originally installed
/// instance remains in place unchanged.
pub proof fn lemma_initialize_once(r0: Registry, a: Supervisor, b: Supervisor)
    requires
        !r0.initialized(),
    ensures
        r0.initialize_result() == Ok::<(), RegistryError>(()),
        ({
            let r1 = r0.initialize_post(a);
            &&& r1.slot == Some(a)
            &&& r1.initialize_result() == Err::<(), RegistryError>(RegistryError::AlreadyInitialized)
            &&& r1.initialize_post(b) == r1
        }),
{
}

} // verus!
