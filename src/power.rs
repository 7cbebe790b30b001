//! What the power button does: show a dark frame, put the controller to sleep,
//! then hand the device to the platform's deep sleep. A step that fails sends
//! the device back to waiting for the next press.
use vstd::prelude::*;

verus! {

/// Where the power-off sequence stands.
#[derive(Clone, Copy, Debug, PartialEq, Eq, Structural)]
pub enum PowerState {
    /// Waiting for the button.
    Idle,
    /// The dark frame is being shown.
    Clearing,
    /// The controller is being put to sleep.
    Sleeping,
    /// The controller sleeps: the device may power off.
    Done,
}

/// What happened since the last action.
#[derive(Clone, Copy, Debug, PartialEq, Eq, Structural)]
pub enum PowerEvent {
    ButtonPressed,
    /// The action under way went through.
    Succeeded,
    /// The action under way failed.
    Failed,
}

/// What to do next.
#[derive(Clone, Copy, Debug, PartialEq, Eq, Structural)]
pub enum PowerAction {
    AwaitButton,
    ShowDarkFrame,
    EnterDeepSleep,
    /// Arm the wake source and enter the platform's deep sleep.
    PowerOff,
}

/// The action that belongs to a state.
pub open spec fn action_of(s: PowerState) -> PowerAction {
    match s {
        PowerState::Idle => PowerAction::AwaitButton,
        PowerState::Clearing => PowerAction::ShowDarkFrame,
        PowerState::Sleeping => PowerAction::EnterDeepSleep,
        PowerState::Done => PowerAction::PowerOff,
    }
}

/// The next state after event `e` in state `s`. A press starts the sequence
/// from idle; success moves it on; failure returns it to idle; any other event
/// leaves the state as it is.
pub open spec fn next_state(s: PowerState, e: PowerEvent) -> PowerState {
    match (s, e) {
        (PowerState::Idle, PowerEvent::ButtonPressed) => PowerState::Clearing,
        (PowerState::Clearing, PowerEvent::Succeeded) => PowerState::Sleeping,
        (PowerState::Clearing, PowerEvent::Failed) => PowerState::Idle,
        (PowerState::Sleeping, PowerEvent::Succeeded) => PowerState::Done,
        (PowerState::Sleeping, PowerEvent::Failed) => PowerState::Idle,
        _ => s,
    }
}

/// The next state and the action to perform in it.
pub fn power_button_step(state: PowerState, event: PowerEvent) -> (r: (PowerState, PowerAction))
    ensures
        r.0 == next_state(state, event),
        r.1 == action_of(r.0),
{
    let next = match (state, event) {
        (PowerState::Idle, PowerEvent::ButtonPressed) => PowerState::Clearing,
        (PowerState::Clearing, PowerEvent::Succeeded) => PowerState::Sleeping,
        (PowerState::Clearing, PowerEvent::Failed) => PowerState::Idle,
        (PowerState::Sleeping, PowerEvent::Succeeded) => PowerState::Done,
        (PowerState::Sleeping, PowerEvent::Failed) => PowerState::Idle,
        _ => state,
    };
    let action = match next {
        PowerState::Idle => PowerAction::AwaitButton,
        PowerState::Clearing => PowerAction::ShowDarkFrame,
        PowerState::Sleeping => PowerAction::EnterDeepSleep,
        PowerState::Done => PowerAction::PowerOff,
    };
    (next, action)
}

/// The device powers off only once the controller has gone to sleep, and the
/// controller is put to sleep only once the dark frame has been shown.
pub proof fn lemma_power_off_order(s: PowerState, e: PowerEvent)
    ensures
        next_state(s, e) == PowerState::Done ==> s == PowerState::Done || (s
            == PowerState::Sleeping && e == PowerEvent::Succeeded),
        next_state(s, e) == PowerState::Sleeping ==> s == PowerState::Sleeping || (s
            == PowerState::Clearing && e == PowerEvent::Succeeded),
{
}

} // verus!
