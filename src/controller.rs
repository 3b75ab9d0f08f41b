use vstd::prelude::*;

verus! {

/// The message that the watcher sends to the controller: the view should
/// reload.
#[derive(Clone, Copy, Debug, PartialEq, Eq, Structural)]
pub struct ReloadSignal;

/// Where the view controller stands.
///
/// The controller receives once. After the first signal, or after finding
/// the channel closed, it is finished: later signals stay in the channel and
/// the view is reloaded at most once in the life of the process.
#[derive(Clone, Copy, Debug, PartialEq, Eq, Structural)]
pub enum ControllerState {
    /// The controller is waiting for its one receive.
    AwaitingSignal,
    /// The one receive has been handled.
    Finished,
}

/// What the controller asks of the view.
#[derive(Clone, Copy, Debug, PartialEq, Eq, Structural)]
pub enum ControllerAction {
    /// Reload the rendered document; a failure is logged and not retried.
    Reload,
    /// Leave the view alone.
    Nothing,
}

/// The controller's transition table: the first receive decides, and
/// nothing after it does anything.
pub open spec fn receive_spec(
    state: ControllerState,
    received: Option<ReloadSignal>,
) -> (ControllerState, ControllerAction) {
    match state {
        ControllerState::AwaitingSignal => match received {
            Some(_) => (ControllerState::Finished, ControllerAction::Reload),
            None => (ControllerState::Finished, ControllerAction::Nothing),
        },
        ControllerState::Finished => (ControllerState::Finished, ControllerAction::Nothing),
    }
}

/// The number of reloads asked for when the receives in `received` are
/// handled in order from `state`.
pub open spec fn reloads_after(state: ControllerState, received: Seq<Option<ReloadSignal>>) -> nat
    decreases received.len(),
{
    if received.len() == 0 {
        0
    } else {
        let (next, action) = receive_spec(state, received[0]);
        (if action == ControllerAction::Reload { 1nat } else { 0nat }) + reloads_after(next, received.drop_first())
    }
}

/// Handles the outcome of a receive on the reload channel: `Some` for a
/// signal, `None` for a channel closed with nothing sent.
pub fn on_receive(state: ControllerState, received: Option<ReloadSignal>) -> (r: (ControllerState, ControllerAction))
    ensures
        r == receive_spec(state, received),
{
    match state {
        ControllerState::AwaitingSignal => match received {
            Some(_) => (ControllerState::Finished, ControllerAction::Reload),
            None => (ControllerState::Finished, ControllerAction::Nothing),
        },
        ControllerState::Finished => (ControllerState::Finished, ControllerAction::Nothing),
    }
}

/// Tells whether the controller still performs its receive.
pub fn awaits_signal(state: &ControllerState) -> (r: bool)
    ensures
        r == (*state == ControllerState::AwaitingSignal),
{
    match state {
        ControllerState::AwaitingSignal => true,
        ControllerState::Finished => false,
    }
}

/// Once finished, the controller asks for no reload, whatever it receives.
pub proof fn lemma_finished_never_reloads(received: Seq<Option<ReloadSignal>>)
    ensures
        reloads_after(ControllerState::Finished, received) == 0,
    decreases received.len(),
{
    if received.len() > 0 {
        lemma_finished_never_reloads(received.drop_first());
    }
}

/// In the life of the process the view is reloaded exactly once if the
/// first receive brings a signal, and never otherwise, however many signals
/// are sent before or after.
pub proof fn lemma_single_reload(received: Seq<Option<ReloadSignal>>)
    ensures
        reloads_after(ControllerState::AwaitingSignal, received)
            == (if received.len() > 0 && received[0] is Some { 1nat } else { 0nat }),
{
    if received.len() > 0 {
        lemma_finished_never_reloads(received.drop_first());
    }
}

} // verus!
