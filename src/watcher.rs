use vstd::prelude::*;

verus! {

/// A filesystem notification as the monitor delivers it; carried through,
/// never looked into.
#[verifier::external_type_specification]
#[verifier::external_body]
pub struct ExEvent(notify::Event);

/// The monitor's error, for a notification that could not be decoded or a
/// registration that failed; carried through, never looked into.
#[verifier::external_type_specification]
#[verifier::external_body]
pub struct ExError(notify::Error);

/// Why the watcher could not start. Either one is fatal: the process ends
/// before the window is shown.
#[derive(Clone, Copy, Debug, PartialEq, Eq, Structural)]
pub enum StartupFailure {
    /// The filesystem monitor could not be created.
    WatcherConstruction,
    /// The watched root could not be registered with the monitor.
    WatchRegistration,
}

/// Where the watcher stands.
#[derive(Clone, Copy, Debug, PartialEq, Eq, Structural)]
pub enum WatcherState {
    /// The monitor is being created.
    Initializing,
    /// The monitor exists; the watched root is being registered.
    Registering,
    /// The root is registered; each notification is forwarded. There is no
    /// way out of this state.
    Watching,
    /// Startup failed; nothing more happens.
    Failed(StartupFailure),
}

/// What the outside world reports to the watcher.
#[derive(Clone, Copy, Debug, PartialEq, Eq, Structural)]
pub enum WatcherEvent {
    /// The outcome of creating the monitor.
    MonitorCreated(bool),
    /// The outcome of registering the watched root, recursively.
    RootRegistered(bool),
    /// A notification from the monitor that decoded into a change event.
    Changed,
    /// A notification from the monitor that could not be decoded.
    TranslationFailed,
}

/// What the watcher asks of the outside world in answer to an event.
#[derive(Clone, Copy, Debug, PartialEq, Eq, Structural)]
pub enum WatcherAction {
    /// Register the watched root with the monitor, recursively.
    RegisterRoot,
    /// Startup succeeded: start waiting for notifications.
    StartWatching,
    /// Send one reload signal; a failed send is ignored.
    ForwardReload,
    /// Log the notification that could not be decoded, then go on.
    LogTranslationError,
    /// End the process: the watcher cannot work.
    Abort(StartupFailure),
    /// The event has no meaning in this state.
    Ignore,
}

/// The watcher's transition table. Startup goes through creation and
/// registration; either failure is final; while watching, each notification
/// gets one action; anything else is ignored.
pub open spec fn step_spec(state: WatcherState, event: WatcherEvent) -> (WatcherState, WatcherAction) {
    match (state, event) {
        (WatcherState::Initializing, WatcherEvent::MonitorCreated(true)) =>
            (WatcherState::Registering, WatcherAction::RegisterRoot),
        (WatcherState::Initializing, WatcherEvent::MonitorCreated(false)) =>
            (WatcherState::Failed(StartupFailure::WatcherConstruction),
             WatcherAction::Abort(StartupFailure::WatcherConstruction)),
        (WatcherState::Registering, WatcherEvent::RootRegistered(true)) =>
            (WatcherState::Watching, WatcherAction::StartWatching),
        (WatcherState::Registering, WatcherEvent::RootRegistered(false)) =>
            (WatcherState::Failed(StartupFailure::WatchRegistration),
             WatcherAction::Abort(StartupFailure::WatchRegistration)),
        (WatcherState::Watching, WatcherEvent::Changed) =>
            (WatcherState::Watching, WatcherAction::ForwardReload),
        (WatcherState::Watching, WatcherEvent::TranslationFailed) =>
            (WatcherState::Watching, WatcherAction::LogTranslationError),
        _ => (state, WatcherAction::Ignore),
    }
}

/// The state after feeding `events`, in order, from `state`.
pub open spec fn state_after(state: WatcherState, events: Seq<WatcherEvent>) -> WatcherState
    decreases events.len(),
{
    if events.len() == 0 {
        state
    } else {
        state_after(step_spec(state, events[0]).0, events.drop_first())
    }
}

/// The actions answered to `events`, in order, from `state`: one for each
/// event.
pub open spec fn actions_after(state: WatcherState, events: Seq<WatcherEvent>) -> Seq<WatcherAction>
    decreases events.len(),
{
    if events.len() == 0 {
        Seq::empty()
    } else {
        seq![step_spec(state, events[0]).1] + actions_after(step_spec(state, events[0]).0, events.drop_first())
    }
}

/// The state from which the application window may be shown.
pub open spec fn window_may_open(state: WatcherState) -> bool {
    state == WatcherState::Watching
}

/// Takes one event in the given state and returns the next state and the
/// action to perform.
pub fn step(state: WatcherState, event: WatcherEvent) -> (r: (WatcherState, WatcherAction))
    ensures
        r == step_spec(state, event),
{
    match (state, event) {
        (WatcherState::Initializing, WatcherEvent::MonitorCreated(ok)) => {
            if ok {
                (WatcherState::Registering, WatcherAction::RegisterRoot)
            } else {
                (WatcherState::Failed(StartupFailure::WatcherConstruction),
                 WatcherAction::Abort(StartupFailure::WatcherConstruction))
            }
        },
        (WatcherState::Registering, WatcherEvent::RootRegistered(ok)) => {
            if ok {
                (WatcherState::Watching, WatcherAction::StartWatching)
            } else {
                (WatcherState::Failed(StartupFailure::WatchRegistration),
                 WatcherAction::Abort(StartupFailure::WatchRegistration))
            }
        },
        (WatcherState::Watching, WatcherEvent::Changed) =>
            (WatcherState::Watching, WatcherAction::ForwardReload),
        (WatcherState::Watching, WatcherEvent::TranslationFailed) =>
            (WatcherState::Watching, WatcherAction::LogTranslationError),
        _ => (state, WatcherAction::Ignore),
    }
}

/// Turns one notification of the monitor into the event it stands for:
/// any decoded notification means "something changed", whatever its kind
/// or paths.
pub fn translate(notification: &Result<notify::Event, notify::Error>) -> (r: WatcherEvent)
    ensures
        r == (if notification is Ok { WatcherEvent::Changed } else { WatcherEvent::TranslationFailed }),
{
    match notification {
        Ok(_) => WatcherEvent::Changed,
        Err(_) => WatcherEvent::TranslationFailed,
    }
}

/// Turns the outcome of registering the watched root into its event.
pub fn registration_event(outcome: &Result<(), notify::Error>) -> (r: WatcherEvent)
    ensures
        r == WatcherEvent::RootRegistered(outcome is Ok),
{
    match outcome {
        Ok(_) => WatcherEvent::RootRegistered(true),
        Err(_) => WatcherEvent::RootRegistered(false),
    }
}

/// Tells whether the window may be shown: only once the watcher is
/// watching.
pub fn may_open_window(state: &WatcherState) -> (r: bool)
    ensures
        r == window_may_open(*state),
{
    match state {
        WatcherState::Watching => true,
        _ => false,
    }
}

/// While watching, every notification is answered on its own: a decoded one
/// by exactly one reload signal, an undecodable one by a log entry, and an
/// undecodable one does not stop those after it from being forwarded.
pub proof fn lemma_each_change_forwarded(events: Seq<WatcherEvent>)
    requires
        forall|i: int| 0 <= i < events.len() ==>
            events[i] == WatcherEvent::Changed || events[i] == WatcherEvent::TranslationFailed,
    ensures
        state_after(WatcherState::Watching, events) == WatcherState::Watching,
        actions_after(WatcherState::Watching, events).len() == events.len(),
        forall|i: int| 0 <= i < events.len() ==>
            (#[trigger] actions_after(WatcherState::Watching, events)[i] == WatcherAction::ForwardReload
                <==> events[i] == WatcherEvent::Changed),
        forall|i: int| 0 <= i < events.len() ==>
            (actions_after(WatcherState::Watching, events)[i] == WatcherAction::LogTranslationError
                <==> #[trigger] events[i] == WatcherEvent::TranslationFailed),
    decreases events.len(),
{
    if events.len() > 0 {
        let rest = events.drop_first();
        assert forall|i: int| 0 <= i < rest.len() implies
            rest[i] == WatcherEvent::Changed || rest[i] == WatcherEvent::TranslationFailed by {
            assert(rest[i] == events[i + 1]);
        }
        lemma_each_change_forwarded(rest);
        let acts = actions_after(WatcherState::Watching, events);
        let tail = actions_after(WatcherState::Watching, rest);
        assert forall|i: int| 1 <= i < events.len() implies acts[i] == tail[i - 1] && events[i] == rest[i - 1] by {}
    }
}

/// A failed startup is final: whatever comes after, the watcher stays
/// failed, ignores every event, and the window is never shown.
pub proof fn lemma_failure_is_final(failure: StartupFailure, events: Seq<WatcherEvent>)
    ensures
        state_after(WatcherState::Failed(failure), events) == WatcherState::Failed(failure),
        !window_may_open(state_after(WatcherState::Failed(failure), events)),
        actions_after(WatcherState::Failed(failure), events).len() == events.len(),
        forall|i: int| 0 <= i < events.len() ==>
            #[trigger] actions_after(WatcherState::Failed(failure), events)[i] == WatcherAction::Ignore,
    decreases events.len(),
{
    if events.len() > 0 {
        let rest = events.drop_first();
        lemma_failure_is_final(failure, rest);
        let acts = actions_after(WatcherState::Failed(failure), events);
        let tail = actions_after(WatcherState::Failed(failure), rest);
        assert forall|i: int| 1 <= i < events.len() implies acts[i] == tail[i - 1] by {}
    }
}

/// If the monitor cannot be created, or the root cannot be registered, the
/// process is told to end, and no later event lets the window be shown.
pub proof fn lemma_startup_failure_prevents_window(state: WatcherState, event: WatcherEvent, later: Seq<WatcherEvent>)
    requires
        (state == WatcherState::Initializing && event == WatcherEvent::MonitorCreated(false))
            || (state == WatcherState::Registering && event == WatcherEvent::RootRegistered(false)),
    ensures
        step_spec(state, event).1 is Abort,
        !window_may_open(step_spec(state, event).0),
        !window_may_open(state_after(step_spec(state, event).0, later)),
{
    let f = if state == WatcherState::Initializing {
        StartupFailure::WatcherConstruction
    } else {
        StartupFailure::WatchRegistration
    };
    assert(step_spec(state, event).0 == WatcherState::Failed(f));
    lemma_failure_is_final(f, later);
}

} // verus!
