use eink_display::power::{power_button_step, PowerAction, PowerEvent, PowerState};

#[test]
fn press_show_sleep_power_off() {
    let (s, a) = power_button_step(PowerState::Idle, PowerEvent::ButtonPressed);
    assert_eq!((s, a), (PowerState::Clearing, PowerAction::ShowDarkFrame));
    let (s, a) = power_button_step(s, PowerEvent::Succeeded);
    assert_eq!((s, a), (PowerState::Sleeping, PowerAction::EnterDeepSleep));
    let (s, a) = power_button_step(s, PowerEvent::Succeeded);
    assert_eq!((s, a), (PowerState::Done, PowerAction::PowerOff));
}

#[test]
fn failures_go_back_to_waiting() {
    assert_eq!(
        power_button_step(PowerState::Clearing, PowerEvent::Failed),
        (PowerState::Idle, PowerAction::AwaitButton)
    );
    assert_eq!(
        power_button_step(PowerState::Sleeping, PowerEvent::Failed),
        (PowerState::Idle, PowerAction::AwaitButton)
    );
}

#[test]
fn stray_events_change_nothing() {
    assert_eq!(power_button_step(PowerState::Idle, PowerEvent::Succeeded), (PowerState::Idle, PowerAction::AwaitButton));
    assert_eq!(
        power_button_step(PowerState::Clearing, PowerEvent::ButtonPressed),
        (PowerState::Clearing, PowerAction::ShowDarkFrame)
    );
    assert_eq!(power_button_step(PowerState::Done, PowerEvent::Failed), (PowerState::Done, PowerAction::PowerOff));
}
