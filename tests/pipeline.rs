use live_reload::asset::intercept;
use live_reload::controller::{
    awaits_signal, on_receive, ControllerAction, ControllerState, ReloadSignal,
};
use live_reload::greeting::greet;
use live_reload::watcher::{
    may_open_window, registration_event, step, translate, StartupFailure, WatcherAction,
    WatcherEvent, WatcherState,
};

fn started() -> WatcherState {
    let (s, a) = step(WatcherState::Initializing, WatcherEvent::MonitorCreated(true));
    assert_eq!((s, a), (WatcherState::Registering, WatcherAction::RegisterRoot));
    let (s, a) = step(s, WatcherEvent::RootRegistered(true));
    assert_eq!((s, a), (WatcherState::Watching, WatcherAction::StartWatching));
    s
}

#[test]
fn greet_builds_greeting() {
    assert_eq!(greet("Ada"), "Hello, Ada! You've been greeted from Rust!");
    assert_eq!(greet(""), "Hello, ! You've been greeted from Rust!");
}

#[test]
fn successful_startup_allows_window() {
    assert!(!may_open_window(&WatcherState::Initializing));
    assert!(!may_open_window(&WatcherState::Registering));
    let s = started();
    assert!(may_open_window(&s));
}

#[test]
fn construction_failure_aborts_and_blocks_window() {
    let (s, a) = step(WatcherState::Initializing, WatcherEvent::MonitorCreated(false));
    assert_eq!(s, WatcherState::Failed(StartupFailure::WatcherConstruction));
    assert_eq!(a, WatcherAction::Abort(StartupFailure::WatcherConstruction));
    assert!(!may_open_window(&s));
    let (s2, a2) = step(s, WatcherEvent::RootRegistered(true));
    assert_eq!(s2, s);
    assert_eq!(a2, WatcherAction::Ignore);
    assert!(!may_open_window(&s2));
}

#[test]
fn registration_failure_aborts_and_blocks_window() {
    let (s, _) = step(WatcherState::Initializing, WatcherEvent::MonitorCreated(true));
    let (s, a) = step(s, WatcherEvent::RootRegistered(false));
    assert_eq!(s, WatcherState::Failed(StartupFailure::WatchRegistration));
    assert_eq!(a, WatcherAction::Abort(StartupFailure::WatchRegistration));
    let (s, a) = step(s, WatcherEvent::Changed);
    assert_eq!(a, WatcherAction::Ignore);
    assert!(!may_open_window(&s));
}

#[test]
fn translation_failure_does_not_stop_forwarding() {
    let s = started();
    let (s, a) = step(s, WatcherEvent::Changed);
    assert_eq!(a, WatcherAction::ForwardReload);
    let (s, a) = step(s, WatcherEvent::TranslationFailed);
    assert_eq!(a, WatcherAction::LogTranslationError);
    assert_eq!(s, WatcherState::Watching);
    let (s, a) = step(s, WatcherEvent::Changed);
    assert_eq!(a, WatcherAction::ForwardReload);
    assert_eq!(s, WatcherState::Watching);
}

#[test]
fn notifications_are_translated() {
    let ok: Result<notify::Event, notify::Error> =
        Ok(notify::Event::new(notify::EventKind::Any));
    assert_eq!(translate(&ok), WatcherEvent::Changed);
    let bad: Result<notify::Event, notify::Error> = Err(notify::Error::generic("bad event"));
    assert_eq!(translate(&bad), WatcherEvent::TranslationFailed);
}

#[test]
fn registration_outcomes_are_translated() {
    assert_eq!(registration_event(&Ok(())), WatcherEvent::RootRegistered(true));
    let bad: Result<(), notify::Error> = Err(notify::Error::path_not_found());
    assert_eq!(registration_event(&bad), WatcherEvent::RootRegistered(false));
}

#[test]
fn controller_reloads_once_on_first_signal() {
    let st = ControllerState::AwaitingSignal;
    assert!(awaits_signal(&st));
    let (st, a) = on_receive(st, Some(ReloadSignal));
    assert_eq!(a, ControllerAction::Reload);
    assert!(!awaits_signal(&st));
    let (st, a) = on_receive(st, Some(ReloadSignal));
    assert_eq!(a, ControllerAction::Nothing);
    assert_eq!(st, ControllerState::Finished);
}

#[test]
fn closed_channel_without_signal_is_no_op() {
    let (st, a) = on_receive(ControllerState::AwaitingSignal, None);
    assert_eq!(a, ControllerAction::Nothing);
    assert_eq!(st, ControllerState::Finished);
    let (_, a) = on_receive(st, Some(ReloadSignal));
    assert_eq!(a, ControllerAction::Nothing);
}

#[test]
fn scenario_b_change_reloads_and_serves_v2() {
    let mut body = Vec::new();
    intercept("tauri://localhost", &mut body, Ok(b"v1".to_vec()));
    assert_eq!(body, b"v1".to_vec());
    let w = started();
    let (_, a) = step(w, WatcherEvent::Changed);
    assert_eq!(a, WatcherAction::ForwardReload);
    let (_, c) = on_receive(ControllerState::AwaitingSignal, Some(ReloadSignal));
    assert_eq!(c, ControllerAction::Reload);
    let mut body = body;
    intercept("tauri://localhost", &mut body, Ok(b"v2".to_vec()));
    assert_eq!(body, b"v2".to_vec());
}

#[test]
fn scenario_c_double_edit_reloads_once() {
    let w = started();
    let (w, a1) = step(w, WatcherEvent::Changed);
    let (_, a2) = step(w, WatcherEvent::Changed);
    assert_eq!(a1, WatcherAction::ForwardReload);
    assert_eq!(a2, WatcherAction::ForwardReload);
    let mut reloads: u32 = 0;
    let mut st = ControllerState::AwaitingSignal;
    for _ in 0..2 {
        let (next, a) = on_receive(st, Some(ReloadSignal));
        if a == ControllerAction::Reload {
            reloads += 1;
        }
        st = next;
    }
    assert_eq!(reloads, 1);
}
