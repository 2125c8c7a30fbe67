use exe_supervisor::config::Configuration;
use exe_supervisor::registry::{Registry, RegistryError};
use exe_supervisor::supervisor::{
    SpawnOutcome, StopStep, Supervisor, SupervisorError, SupervisorState, TerminationOutcome,
};

fn supervisor_with_target() -> Supervisor {
    Supervisor::new(Configuration {
        executable_path: Some("overlay.exe".as_bytes().to_vec()),
        launch_on_startup: false,
    })
}

#[test]
fn new_registry_is_uninitialized() {
    let reg = Registry::new();
    assert!(!reg.is_initialized());
    assert!(reg.get().is_none());
    assert!(!reg.is_running());
}

#[test]
fn initialize_once_then_rejected() {
    let mut reg = Registry::new();
    let first = Supervisor::new(Configuration {
        executable_path: None,
        launch_on_startup: false,
    });
    let second = Supervisor::new(Configuration {
        executable_path: None,
        launch_on_startup: true,
    });
    assert_eq!(reg.initialize(first), Ok(()));
    assert!(reg.is_initialized());
    assert_eq!(reg.initialize(second), Err(RegistryError::AlreadyInitialized));
    // The originally installed instance remains reachable, unchanged.
    let installed = reg.get().unwrap();
    assert!(!installed.launch_on_startup());
    assert_eq!(installed.state, SupervisorState::Idle);
}

#[test]
fn uninitialized_registry_operations_no_op() {
    let mut reg = Registry::new();
    assert!(reg.launch_begin().is_none());
    assert!(reg.stop_begin().is_none());
    assert!(reg.launch_finish(SpawnOutcome::Spawned { pid: 1 }).is_none());
    assert!(reg
        .stop_finish(TerminationOutcome::ExitedWithinTimeout)
        .is_none());
    assert!(!reg.is_running());
}

#[test]
fn registry_launch_flow() {
    let mut reg = Registry::new();
    assert_eq!(reg.initialize(supervisor_with_target()), Ok(()));
    assert_eq!(reg.launch_begin(), Some(Ok(())));
    assert_eq!(
        reg.launch_finish(SpawnOutcome::Spawned { pid: 77 }),
        Some(Ok(()))
    );
    assert!(reg.is_running());
    assert_eq!(
        reg.launch_begin(),
        Some(Err(SupervisorError::AlreadyRunning))
    );
}

#[test]
fn registry_stop_flow() {
    let mut reg = Registry::new();
    assert_eq!(reg.initialize(supervisor_with_target()), Ok(()));
    assert_eq!(reg.stop_begin(), Some(StopStep::NoProcess));
    assert_eq!(reg.launch_begin(), Some(Ok(())));
    assert_eq!(
        reg.launch_finish(SpawnOutcome::Spawned { pid: 77 }),
        Some(Ok(()))
    );
    assert_eq!(reg.stop_begin(), Some(StopStep::Terminate { pid: 77 }));
    assert_eq!(
        reg.stop_finish(TerminationOutcome::ExitedWithinTimeout),
        Some(Ok(()))
    );
    assert!(!reg.is_running());
    assert_eq!(reg.get().unwrap().state, SupervisorState::Stopped);
}
