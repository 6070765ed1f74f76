//! Whole start-ups: the actions a sequence of reported events leads to, and
//! what holds of every such sequence.
use vstd::prelude::*;
use crate::sidecar::sidecar_command_spec;
use crate::startup::{next, BuildProfile, Phase, SetupActionView, SetupEvent};

verus! {

/// The phase reached and the actions returned when `events` are reported in
/// order to a fresh start-up built in `profile`.
pub open spec fn run(profile: BuildProfile, events: Seq<SetupEvent>) -> (
    Phase,
    Seq<SetupActionView>,
)
    decreases events.len(),
{
    if events.len() == 0 {
        (Phase::NotStarted, Seq::empty())
    } else {
        let prev = run(profile, events.drop_last());
        let (phase, action) = next(profile, prev.0, events.last());
        (phase, prev.1.push(action))
    }
}

/// One action is returned for each event reported.
pub proof fn lemma_run_len(profile: BuildProfile, events: Seq<SetupEvent>)
    ensures
        run(profile, events).1.len() == events.len(),
    decreases events.len(),
{
    if events.len() > 0 {
        lemma_run_len(profile, events.drop_last());
    }
}

/// What holds after every prefix of a debug start-up: once past the logging
/// step towards the sidecar, the plugin was requested and its registration
/// reported; and every launch of the sidecar came after such a request.
spec fn debug_order_holds(events: Seq<SetupEvent>) -> bool {
    let (phase, actions) = run(BuildProfile::Debug, events);
    &&& actions.len() == events.len()
    &&& phase != Phase::NotStarted ==> exists|i: int|
        0 <= i < actions.len() && #[trigger] actions[i] is RegisterLogPlugin
    &&& (phase == Phase::SpawningSidecar || phase == Phase::Running || phase
        == Phase::Terminated) ==> exists|k: int|
        0 <= k < events.len() && #[trigger] events[k] == SetupEvent::LogPluginRegistered
    &&& forall|j: int|
        0 <= j < actions.len() && #[trigger] actions[j] is SpawnSidecar ==> (exists|i: int|
            0 <= i < j && #[trigger] actions[i] is RegisterLogPlugin) && (exists|k: int|
            0 <= k <= j && #[trigger] events[k] == SetupEvent::LogPluginRegistered)
}

proof fn lemma_debug_order_holds(events: Seq<SetupEvent>)
    ensures
        debug_order_holds(events),
    decreases events.len(),
{
    if events.len() > 0 {
        let prefix = events.drop_last();
        lemma_debug_order_holds(prefix);
        let prev = run(BuildProfile::Debug, prefix);
        let cur = run(BuildProfile::Debug, events);
        assert(cur.1 == prev.1.push(cur.1.last()));
        assert forall|k: int| 0 <= k < prefix.len() implies events[k] == prefix[k] by {}
        assert forall|i: int| 0 <= i < prev.1.len() implies cur.1[i] == prev.1[i] by {}
        if prev.0 != Phase::NotStarted {
            let i = choose|i: int| 0 <= i < prev.1.len() && #[trigger] prev.1[i] is RegisterLogPlugin;
            assert(cur.1[i] is RegisterLogPlugin);
        }
        if prev.0 == Phase::SpawningSidecar || prev.0 == Phase::Running || prev.0
            == Phase::Terminated {
            let k = choose|k: int|
                0 <= k < prefix.len() && #[trigger] prefix[k] == SetupEvent::LogPluginRegistered;
            assert(events[k] == SetupEvent::LogPluginRegistered);
        }
        if prev.0 == Phase::RegisteringLog && events.last() == SetupEvent::LogPluginRegistered {
            assert(events[events.len() - 1] == SetupEvent::LogPluginRegistered);
        }
        if prev.0 == Phase::NotStarted && events.last() == SetupEvent::Begin {
            assert(cur.1[cur.1.len() - 1] is RegisterLogPlugin);
        }
        assert forall|j: int|
            0 <= j < cur.1.len() && #[trigger] cur.1[j] is SpawnSidecar implies (exists|i: int|
                0 <= i < j && #[trigger] cur.1[i] is RegisterLogPlugin) && (exists|k: int|
                0 <= k <= j && #[trigger] events[k] == SetupEvent::LogPluginRegistered) by {
            if j < prev.1.len() {
                assert(prev.1[j] is SpawnSidecar);
                let i = choose|i: int| 0 <= i < j && #[trigger] prev.1[i] is RegisterLogPlugin;
                let k = choose|k: int|
                    0 <= k <= j && #[trigger] prefix[k] == SetupEvent::LogPluginRegistered;
                assert(cur.1[i] is RegisterLogPlugin);
                assert(events[k] == SetupEvent::LogPluginRegistered);
            } else {
                let i = choose|i: int| 0 <= i < prev.1.len() && #[trigger] prev.1[i] is RegisterLogPlugin;
                let k = choose|k: int|
                    0 <= k < events.len() && #[trigger] events[k] == SetupEvent::LogPluginRegistered;
                assert(cur.1[i] is RegisterLogPlugin);
                assert(k <= j);
            }
        }
    }
}

/// In a debug build the logging plugin comes first: every launch of the
/// sidecar is preceded by a request to register the plugin, and answers a
/// report, that one or an earlier, that the plugin was registered.
pub proof fn lemma_debug_log_plugin_before_spawn(events: Seq<SetupEvent>)
    ensures
        forall|j: int|
            0 <= j < run(BuildProfile::Debug, events).1.len() && #[trigger] run(
                BuildProfile::Debug,
                events,
            ).1[j] is SpawnSidecar ==> (exists|i: int|
                0 <= i < j && #[trigger] run(BuildProfile::Debug, events).1[i] is RegisterLogPlugin)
                && (exists|k: int|
                0 <= k <= j && #[trigger] events[k] == SetupEvent::LogPluginRegistered),
{
    lemma_debug_order_holds(events);
}

/// In a release build the logging plugin is never registered.
pub proof fn lemma_release_never_registers_log_plugin(events: Seq<SetupEvent>)
    ensures
        forall|j: int|
            0 <= j < run(BuildProfile::Release, events).1.len() ==> !(#[trigger] run(
                BuildProfile::Release,
                events,
            ).1[j] is RegisterLogPlugin),
    decreases events.len(),
{
    if events.len() > 0 {
        lemma_release_never_registers_log_plugin(events.drop_last());
    }
}

/// Every launch of the sidecar runs the bundled sidecar with exactly the
/// arguments `--host 127.0.0.1 --port 8000`.
pub proof fn lemma_spawn_uses_fixed_command(profile: BuildProfile, events: Seq<SetupEvent>)
    ensures
        forall|j: int|
            0 <= j < run(profile, events).1.len() && #[trigger] run(profile, events).1[j] is SpawnSidecar
                ==> run(profile, events).1[j]->command == sidecar_command_spec(),
    decreases events.len(),
{
    if events.len() > 0 {
        lemma_spawn_uses_fixed_command(profile, events.drop_last());
    }
}

/// Once start-up has asked for the sidecar it never returns to the phases
/// that come before that request.
spec fn spawns_behind(events: Seq<SetupEvent>, profile: BuildProfile) -> bool {
    let (phase, actions) = run(profile, events);
    forall|j: int|
        0 <= j < actions.len() && #[trigger] actions[j] is SpawnSidecar ==> phase
            != Phase::NotStarted && phase != Phase::RegisteringLog
}

proof fn lemma_spawns_behind(profile: BuildProfile, events: Seq<SetupEvent>)
    ensures
        spawns_behind(events, profile),
        run(profile, events).1.len() == events.len(),
    decreases events.len(),
{
    if events.len() > 0 {
        lemma_spawns_behind(profile, events.drop_last());
    }
}

/// The sidecar is launched at most once in a start-up.
pub proof fn lemma_sidecar_spawned_at_most_once(profile: BuildProfile, events: Seq<SetupEvent>)
    ensures
        forall|j: int, k: int|
            0 <= j < run(profile, events).1.len() && 0 <= k < run(profile, events).1.len()
                && #[trigger] run(profile, events).1[j] is SpawnSidecar && #[trigger] run(
                profile,
                events,
            ).1[k] is SpawnSidecar ==> j == k,
    decreases events.len(),
{
    if events.len() > 0 {
        let prefix = events.drop_last();
        lemma_sidecar_spawned_at_most_once(profile, prefix);
        lemma_spawns_behind(profile, prefix);
        let prev = run(profile, prefix);
        let cur = run(profile, events);
        assert forall|i: int| 0 <= i < prev.1.len() implies cur.1[i] == prev.1[i] by {}
    }
}

/// What holds after every prefix of a start-up: a termination or a completed
/// start-up leaves its phase for good, and nothing but `Ignore` follows a
/// termination.
spec fn outcome_is_final(events: Seq<SetupEvent>, profile: BuildProfile) -> bool {
    let (phase, actions) = run(profile, events);
    &&& forall|j: int|
        0 <= j < actions.len() && #[trigger] actions[j] is Terminate ==> phase == Phase::Terminated
    &&& forall|j: int|
        0 <= j < actions.len() && #[trigger] actions[j] is FinishSetup ==> phase == Phase::Running
    &&& forall|j: int, k: int|
        0 <= j < k < actions.len() && #[trigger] actions[j] is Terminate ==> #[trigger] actions[k]
            is Ignore
}

proof fn lemma_outcome_is_final(profile: BuildProfile, events: Seq<SetupEvent>)
    ensures
        outcome_is_final(events, profile),
    decreases events.len(),
{
    if events.len() > 0 {
        let prefix = events.drop_last();
        lemma_outcome_is_final(profile, prefix);
        lemma_run_len(profile, prefix);
        let prev = run(profile, prefix);
        let cur = run(profile, events);
        assert forall|i: int| 0 <= i < prev.1.len() implies cur.1[i] == prev.1[i] by {}
        assert forall|j: int, k: int|
            0 <= j < k < cur.1.len() && #[trigger] cur.1[j] is Terminate implies #[trigger] cur.1[k]
                is Ignore by {
            if k < prev.1.len() {
                assert(prev.1[j] is Terminate);
            } else {
                assert(prev.1[j] is Terminate);
                assert(prev.0 == Phase::Terminated);
            }
        }
    }
}

/// A sidecar that cannot be spawned ends start-up for good: every later event
/// is ignored, and the start-up never completes, so the event loop is never
/// handed control.
pub proof fn lemma_spawn_failure_is_final(profile: BuildProfile, events: Seq<SetupEvent>)
    ensures
        run(profile, events).1.len() == events.len(),
        forall|j: int|
            0 <= j < events.len() && #[trigger] run(profile, events).1[j] is Terminate ==> run(
                profile,
                events,
            ).0 == Phase::Terminated,
        forall|j: int, k: int|
            0 <= j < k < events.len() && #[trigger] run(profile, events).1[j] is Terminate
                ==> #[trigger] run(profile, events).1[k] is Ignore,
        forall|j: int, k: int|
            0 <= j < events.len() && 0 <= k < events.len() && #[trigger] run(profile, events).1[j] is Terminate
                ==> !(#[trigger] run(profile, events).1[k] is FinishSetup),
{
    lemma_outcome_is_final(profile, events);
    lemma_run_len(profile, events);
}

} // verus!
