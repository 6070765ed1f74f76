use sidecar_setup::sidecar::SidecarCommand;
use sidecar_setup::startup::{BuildProfile, LogLevel, Phase, Setup, SetupAction, SetupEvent};

fn expect_spawn(action: &SetupAction) {
    match action {
        SetupAction::SpawnSidecar { command } => {
            assert_eq!(command.program, "brain");
            assert_eq!(command.args, vec!["--host", "127.0.0.1", "--port", "8000"]);
        }
        _ => panic!("expected the sidecar to be launched"),
    }
}

fn drive(profile: BuildProfile, events: &[SetupEvent]) -> (Setup, Vec<SetupAction>) {
    let mut setup = Setup::new(profile);
    let mut actions = Vec::new();
    for event in events {
        actions.push(setup.step(*event));
    }
    (setup, actions)
}

#[test]
fn brain_command_has_fixed_arguments() {
    let command = SidecarCommand::brain();
    assert_eq!(command.program, "brain");
    assert_eq!(command.args, vec!["--host", "127.0.0.1", "--port", "8000"]);
}

#[test]
fn new_setup_has_not_started() {
    let setup = Setup::new(BuildProfile::Release);
    assert_eq!(setup.profile, BuildProfile::Release);
    assert_eq!(setup.phase, Phase::NotStarted);
}

#[test]
fn debug_start_registers_log_plugin_before_spawning() {
    let mut setup = Setup::new(BuildProfile::Debug);
    let first = setup.step(SetupEvent::Begin);
    assert!(matches!(first, SetupAction::RegisterLogPlugin { level: LogLevel::Info }));
    assert_eq!(setup.phase, Phase::RegisteringLog);
    let second = setup.step(SetupEvent::LogPluginRegistered);
    expect_spawn(&second);
    assert_eq!(setup.phase, Phase::SpawningSidecar);
    let third = setup.step(SetupEvent::SidecarSpawned);
    assert!(matches!(third, SetupAction::FinishSetup));
    assert_eq!(setup.phase, Phase::Running);
}

#[test]
fn release_start_never_registers_log_plugin() {
    let mut setup = Setup::new(BuildProfile::Release);
    let first = setup.step(SetupEvent::Begin);
    expect_spawn(&first);
    assert_eq!(setup.phase, Phase::SpawningSidecar);
    let late = setup.step(SetupEvent::LogPluginRegistered);
    assert!(matches!(late, SetupAction::Ignore));
    let done = setup.step(SetupEvent::SidecarSpawned);
    assert!(matches!(done, SetupAction::FinishSetup));
    assert_eq!(setup.phase, Phase::Running);
}

#[test]
fn release_run_of_every_event_holds_no_log_registration() {
    let events = [
        SetupEvent::LogPluginRegistered,
        SetupEvent::Begin,
        SetupEvent::LogPluginFailed,
        SetupEvent::Begin,
        SetupEvent::SidecarSpawned,
    ];
    let (setup, actions) = drive(BuildProfile::Release, &events);
    assert_eq!(actions.len(), events.len());
    assert!(actions.iter().all(|a| !matches!(a, SetupAction::RegisterLogPlugin { .. })));
    assert_eq!(setup.phase, Phase::Running);
}

#[test]
fn log_plugin_failure_aborts_setup() {
    let (setup, actions) =
        drive(BuildProfile::Debug, &[SetupEvent::Begin, SetupEvent::LogPluginFailed]);
    assert!(matches!(actions[1], SetupAction::PropagateError));
    assert_eq!(setup.phase, Phase::Aborted);
}

#[test]
fn missing_sidecar_aborts_setup() {
    let (setup, actions) =
        drive(BuildProfile::Release, &[SetupEvent::Begin, SetupEvent::SidecarMissing]);
    assert!(matches!(actions[1], SetupAction::PropagateError));
    assert_eq!(setup.phase, Phase::Aborted);
}

#[test]
fn spawn_failure_terminates_and_never_finishes() {
    let events = [
        SetupEvent::Begin,
        SetupEvent::LogPluginRegistered,
        SetupEvent::SidecarSpawnFailed,
        SetupEvent::SidecarSpawned,
        SetupEvent::Begin,
    ];
    let (setup, actions) = drive(BuildProfile::Debug, &events);
    match &actions[2] {
        SetupAction::Terminate { message } => {
            assert_eq!(message, "Failed to spawn sidecar process")
        }
        _ => panic!("expected the process to be terminated"),
    }
    assert!(matches!(actions[3], SetupAction::Ignore));
    assert!(matches!(actions[4], SetupAction::Ignore));
    assert!(actions.iter().all(|a| !matches!(a, SetupAction::FinishSetup)));
    assert_eq!(setup.phase, Phase::Terminated);
}

#[test]
fn sidecar_is_spawned_once() {
    let events = [
        SetupEvent::Begin,
        SetupEvent::Begin,
        SetupEvent::SidecarSpawned,
        SetupEvent::Begin,
        SetupEvent::LogPluginRegistered,
    ];
    let (_, actions) = drive(BuildProfile::Release, &events);
    let spawns = actions.iter().filter(|a| matches!(a, SetupAction::SpawnSidecar { .. })).count();
    assert_eq!(spawns, 1);
}

#[test]
fn events_out_of_order_are_ignored() {
    let mut setup = Setup::new(BuildProfile::Debug);
    let early = setup.step(SetupEvent::SidecarSpawned);
    assert!(matches!(early, SetupAction::Ignore));
    assert_eq!(setup.phase, Phase::NotStarted);
    setup.step(SetupEvent::Begin);
    let wrong = setup.step(SetupEvent::SidecarMissing);
    assert!(matches!(wrong, SetupAction::Ignore));
    assert_eq!(setup.phase, Phase::RegisteringLog);
}
