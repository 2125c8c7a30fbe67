//! Addon lifecycle entry points: the decision cores of the host's load and
//! unload hooks.
//!
//! The host drives the hooks; the embedding performs the surrounding
//! operating-system and host-API work (creating the addon directory,
//! reading the configuration file, registering textures, keybinds and the
//! quick-access entry, spawning and terminating the child process).  What is
//! decided here: the supervisor is constructed from the loaded configuration
//! and installed into the registry exactly once; whether an automatic launch
//! is wanted; and what the final stop of the unload hook asks for.  The step
//! value returned tells the embedding what to do next, and the outcome of
//! that work is recorded through the registry's finish operations.

use vstd::prelude::*;

use crate::config::Configuration;
use crate::registry::Registry;
use crate::supervisor::{StopStep, Supervisor};

verus! {

/// What the load hook decided.
#[derive(Clone, Copy, Debug, PartialEq, Eq, Structural)]
pub enum LoadStep {
    /// A duplicate load hook fired: the installed supervisor stays in
    /// place untouched and nothing further is done.
    AlreadyLoaded,
    /// The supervisor was constructed and installed.  When `autolaunch`
    /// is set the embedding follows up with the registry's launch
    /// operations.
    Loaded { autolaunch: bool },
}

/// What the unload hook asks the embedding to do.
#[derive(Clone, Copy, Debug, PartialEq, Eq, Structural)]
pub enum UnloadStep {
    /// The load sequence never registered a supervisor: unload is a no-op.
    NotLoaded,
    /// No process is owned: the final stop is already complete.
    NoProcess,
    /// Terminate this process, gracefully first and forcefully after the
    /// bounded timeout, and record the outcome through
    /// [`Registry::stop_finish`].
    Terminate { pid: u64 },
}

/// The kind of unload step a stop request maps to.
pub open spec fn unload_step_of(step: StopStep) -> UnloadStep {
    match step {
        StopStep::NoProcess => UnloadStep::NoProcess,
        StopStep::Terminate { pid } => UnloadStep::Terminate { pid },
    }
}

/// Load hook: constructs the supervisor from the loaded configuration and
/// installs it into the registry exactly once.  A duplicate load leaves the
/// installed — possibly running — supervisor untouched.  The returned step
/// says whether the configuration asks for an automatic launch; the spawn
/// itself is the embedding's follow-up through the registry.
pub fn nexus_load(reg: &mut Registry, cfg: Configuration) -> (r: LoadStep)
    requires
        old(reg).wf(),
        cfg@.wf(),
    ensures
        final(reg).wf(),
        old(reg).initialized() ==> r == LoadStep::AlreadyLoaded && *final(reg) == *old(reg),
        !old(reg).initialized() ==> {
            &&& final(reg).slot matches Some(s)
            &&& s.state is Idle
            &&& s.handle is None
            &&& s.config == cfg
            &&& r == (LoadStep::Loaded { autolaunch: cfg.launch_on_startup })
        },
{
    if reg.is_initialized() {
        return LoadStep::AlreadyLoaded;
    }
    let autolaunch = cfg.launch_on_startup;
    let sup = Supervisor::new(cfg);
    let installed = reg.initialize(sup);
    assert(installed is Ok);
    LoadStep::Loaded { autolaunch }
}

/// Unload hook: issues the final stop, whether or not anything was ever
/// launched.  An uninitialized registry is tolerated as a no-op; otherwise
/// this is the supervisor's stop request, and the embedding performs any
/// termination asked for and records its outcome.
pub fn nexus_unload(reg: &mut Registry) -> (r: UnloadStep)
    requires
        old(reg).wf(),
    ensures
        final(reg).wf(),
        old(reg).slot is None ==> r == UnloadStep::NotLoaded && *final(reg) == *old(reg),
        old(reg).slot matches Some(s) ==> {
            &&& final(reg).slot == Some(s.stop_begin_post())
            &&& r == unload_step_of(s.stop_step())
        },
{
    match reg.stop_begin() {
        None => UnloadStep::NotLoaded,
        Some(StopStep::NoProcess) => UnloadStep::NoProcess,
        Some(StopStep::Terminate { pid }) => UnloadStep::Terminate { pid },
    }
}

} // verus!
