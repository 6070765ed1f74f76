//! The start-up sequence as a state machine.
//!
//! The host calls [`Setup::step`] with what happened last and performs the
//! action it gets back. In a debug build the logging plugin is registered
//! first, at level `Info`; then the sidecar is launched once. A failed plugin
//! registration, or a sidecar that cannot be found, aborts start-up with the
//! error; a sidecar that cannot be spawned terminates the process.
use vstd::prelude::*;
use crate::sidecar::{sidecar_command_spec, SidecarCommand, SidecarCommandView};

verus! {

/// The configuration the application was built in.
#[derive(Clone, Copy, PartialEq, Eq, Structural, Debug)]
pub enum BuildProfile {
    Debug,
    Release,
}

/// The most verbose level of log record that is kept.
#[derive(Clone, Copy, PartialEq, Eq, Structural, Debug)]
pub enum LogLevel {
    Off,
    Error,
    Warn,
    Info,
    Debug,
    Trace,
}

/// How far start-up has come.
#[derive(Clone, Copy, PartialEq, Eq, Structural, Debug)]
pub enum Phase {
    /// Nothing has been done yet.
    NotStarted,
    /// The logging plugin is being registered.
    RegisteringLog,
    /// The sidecar is being looked up and spawned.
    SpawningSidecar,
    /// The sidecar runs and start-up completed: the event loop takes over.
    Running,
    /// Start-up failed with an error that is handed back to the framework.
    Aborted,
    /// The sidecar could not be spawned: the process ends.
    Terminated,
}

/// What the host reports back after performing an action.
#[derive(Clone, Copy, PartialEq, Eq, Structural, Debug)]
pub enum SetupEvent {
    /// Start-up begins.
    Begin,
    /// The logging plugin was registered.
    LogPluginRegistered,
    /// Registering the logging plugin failed.
    LogPluginFailed,
    /// The sidecar executable could not be resolved.
    SidecarMissing,
    /// The sidecar process was spawned.
    SidecarSpawned,
    /// Spawning the sidecar process failed.
    SidecarSpawnFailed,
}

/// What the host is asked to do next.
pub enum SetupAction {
    /// Register the logging plugin, keeping records up to `level`.
    RegisterLogPlugin { level: LogLevel },
    /// Launch `command` and leave it running unsupervised.
    SpawnSidecar { command: SidecarCommand },
    /// Start-up is complete: report that the sidecar started and hand over
    /// to the event loop.
    FinishSetup,
    /// Return the error that was reported from the start-up hook.
    PropagateError,
    /// End the process with `message`.
    Terminate { message: String },
    /// The event does not belong to the current phase: nothing to do.
    Ignore,
}

/// Mathematical model of a [`SetupAction`].
pub enum SetupActionView {
    RegisterLogPlugin { level: LogLevel },
    SpawnSidecar { command: SidecarCommandView },
    FinishSetup,
    PropagateError,
    Terminate { message: Seq<char> },
    Ignore,
}

impl View for SetupAction {
    type V = SetupActionView;

    open spec fn view(&self) -> SetupActionView {
        match self {
            SetupAction::RegisterLogPlugin { level } => SetupActionView::RegisterLogPlugin {
                level: *level,
            },
            SetupAction::SpawnSidecar { command } => SetupActionView::SpawnSidecar {
                command: command@,
            },
            SetupAction::FinishSetup => SetupActionView::FinishSetup,
            SetupAction::PropagateError => SetupActionView::PropagateError,
            SetupAction::Terminate { message } => SetupActionView::Terminate { message: message@ },
            SetupAction::Ignore => SetupActionView::Ignore,
        }
    }
}

/// Level at which the logging plugin keeps records.
pub open spec fn log_level() -> LogLevel {
    LogLevel::Info
}

/// Message with which the process ends when the sidecar cannot be spawned.
pub open spec fn spawn_failure_message() -> Seq<char> {
    "Failed to spawn sidecar process"@
}

/// One step of start-up: from the build profile, the current phase and the
/// event just reported, the next phase and the action to perform.
pub open spec fn next(profile: BuildProfile, phase: Phase, event: SetupEvent) -> (
    Phase,
    SetupActionView,
) {
    let spawn = SetupActionView::SpawnSidecar { command: sidecar_command_spec() };
    match (phase, event) {
        (Phase::NotStarted, SetupEvent::Begin) => if profile == BuildProfile::Debug {
            (Phase::RegisteringLog, SetupActionView::RegisterLogPlugin { level: log_level() })
        } else {
            (Phase::SpawningSidecar, spawn)
        },
        (Phase::RegisteringLog, SetupEvent::LogPluginRegistered) => (Phase::SpawningSidecar, spawn),
        (Phase::RegisteringLog, SetupEvent::LogPluginFailed) => (
            Phase::Aborted,
            SetupActionView::PropagateError,
        ),
        (Phase::SpawningSidecar, SetupEvent::SidecarMissing) => (
            Phase::Aborted,
            SetupActionView::PropagateError,
        ),
        (Phase::SpawningSidecar, SetupEvent::SidecarSpawned) => (
            Phase::Running,
            SetupActionView::FinishSetup,
        ),
        (Phase::SpawningSidecar, SetupEvent::SidecarSpawnFailed) => (
            Phase::Terminated,
            SetupActionView::Terminate { message: spawn_failure_message() },
        ),
        _ => (phase, SetupActionView::Ignore),
    }
}

/// The state of one start-up.
pub struct Setup {
    pub profile: BuildProfile,
    pub phase: Phase,
}

impl Setup {
    /// A start-up for an application built in `profile`, before anything has
    /// been done.
    pub fn new(profile: BuildProfile) -> (r: Setup)
        ensures
            r.profile == profile,
            r.phase == Phase::NotStarted,
    {
        Setup { profile, phase: Phase::NotStarted }
    }

    /// Takes the event the host reports, moves to the next phase and returns
    /// the action the host is to perform.
    pub fn step(&mut self, event: SetupEvent) -> (a: SetupAction)
        ensures
            final(self).profile == old(self).profile,
            (final(self).phase, a@) == next(old(self).profile, old(self).phase, event),
    {
        match (self.phase, event) {
            (Phase::NotStarted, SetupEvent::Begin) => {
                if self.profile == BuildProfile::Debug {
                    self.phase = Phase::RegisteringLog;
                    SetupAction::RegisterLogPlugin { level: LogLevel::Info }
                } else {
                    self.phase = Phase::SpawningSidecar;
                    SetupAction::SpawnSidecar { command: SidecarCommand::brain() }
                }
            },
            (Phase::RegisteringLog, SetupEvent::LogPluginRegistered) => {
                self.phase = Phase::SpawningSidecar;
                SetupAction::SpawnSidecar { command: SidecarCommand::brain() }
            },
            (Phase::RegisteringLog, SetupEvent::LogPluginFailed) => {
                self.phase = Phase::Aborted;
                SetupAction::PropagateError
            },
            (Phase::SpawningSidecar, SetupEvent::SidecarMissing) => {
                self.phase = Phase::Aborted;
                SetupAction::PropagateError
            },
            (Phase::SpawningSidecar, SetupEvent::SidecarSpawned) => {
                self.phase = Phase::Running;
                SetupAction::FinishSetup
            },
            (Phase::SpawningSidecar, SetupEvent::SidecarSpawnFailed) => {
                self.phase = Phase::Terminated;
                SetupAction::Terminate { message: "Failed to spawn sidecar process".to_owned() }
            },
            _ => SetupAction::Ignore,
        }
    }
}

} // verus!
