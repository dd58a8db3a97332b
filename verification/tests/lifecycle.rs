use nokhwa_bindings_windows::error::{ApiBackend, NokhwaError};
use nokhwa_bindings_windows::lifecycle::{
    de_initialize_mf, initialize_mf, Lifecycle, ShutdownEvent, ShutdownStep, StartupEvent,
    StartupStep,
};

fn started() -> Lifecycle {
    let mut lifecycle = Lifecycle::new();
    initialize_mf(&mut lifecycle, StartupEvent::FoundationStarted(Ok(())));
    lifecycle
}

#[test]
fn new_subsystem_is_down_and_unused() {
    let lifecycle = Lifecycle::new();
    assert!(!lifecycle.is_initialized());
    assert_eq!(lifecycle.session_count(), 0);
}

#[test]
fn startup_runs_through_its_steps() {
    let mut lifecycle = Lifecycle::new();
    assert_eq!(initialize_mf(&mut lifecycle, StartupEvent::Requested), StartupStep::InitializeCom);
    assert!(!lifecycle.is_initialized());
    assert_eq!(
        initialize_mf(&mut lifecycle, StartupEvent::ComStarted(Ok(()))),
        StartupStep::StartFoundation
    );
    assert!(!lifecycle.is_initialized());
    assert_eq!(
        initialize_mf(&mut lifecycle, StartupEvent::FoundationStarted(Ok(()))),
        StartupStep::Finished(Ok(()))
    );
    assert!(lifecycle.is_initialized());
}

#[test]
fn startup_of_a_started_subsystem_asks_for_nothing() {
    let mut lifecycle = started();
    assert_eq!(initialize_mf(&mut lifecycle, StartupEvent::Requested), StartupStep::Finished(Ok(())));
    assert!(lifecycle.is_initialized());
    assert_eq!(lifecycle, started());
}

#[test]
fn failed_startup_leaves_the_subsystem_down() {
    let error = |why: &str| NokhwaError::InitializeError {
        backend: ApiBackend::MediaFoundation,
        error: why.to_string(),
    };
    let mut lifecycle = Lifecycle::new();
    assert_eq!(
        initialize_mf(&mut lifecycle, StartupEvent::ComStarted(Err("com".to_string()))),
        StartupStep::Finished(Err(error("com")))
    );
    assert!(!lifecycle.is_initialized());
    assert_eq!(
        initialize_mf(&mut lifecycle, StartupEvent::FoundationStarted(Err("mf".to_string()))),
        StartupStep::ReleaseCom(error("mf"))
    );
    assert!(!lifecycle.is_initialized());
}

#[test]
fn shutdown_runs_through_its_steps() {
    let mut lifecycle = started();
    assert_eq!(de_initialize_mf(&mut lifecycle, ShutdownEvent::Requested), ShutdownStep::StopFoundation);
    assert!(lifecycle.is_initialized());
    assert_eq!(
        de_initialize_mf(&mut lifecycle, ShutdownEvent::FoundationStopped(Ok(()))),
        ShutdownStep::ReleaseCom
    );
    assert!(!lifecycle.is_initialized());
    assert_eq!(
        de_initialize_mf(&mut lifecycle, ShutdownEvent::ComReleased),
        ShutdownStep::Finished(Ok(()))
    );
    assert!(!lifecycle.is_initialized());
    assert_eq!(lifecycle.session_count(), 0);
}

#[test]
fn subsystem_can_always_count_its_first_device() {
    assert!(Lifecycle::new().can_open());
}

#[test]
fn shutdown_of_a_subsystem_that_is_down_asks_for_nothing() {
    let mut lifecycle = Lifecycle::new();
    assert_eq!(de_initialize_mf(&mut lifecycle, ShutdownEvent::Requested), ShutdownStep::Finished(Ok(())));
    assert!(!lifecycle.is_initialized());
    assert_eq!(lifecycle.session_count(), 0);
}

#[test]
fn failed_shutdown_leaves_the_subsystem_started() {
    let mut lifecycle = started();
    assert_eq!(
        de_initialize_mf(&mut lifecycle, ShutdownEvent::FoundationStopped(Err("busy".to_string()))),
        ShutdownStep::Finished(Err(NokhwaError::ShutdownError {
            backend: ApiBackend::MediaFoundation,
            error: "busy".to_string(),
        }))
    );
    assert!(lifecycle.is_initialized());
}
