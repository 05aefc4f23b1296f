use control_link::{DeviceState, ModeOrColor, OperatingMode, TrackingColor};

#[test]
fn initial_state_is_disconnected_and_green() {
    let state = DeviceState::new();
    assert_eq!(state.mode, OperatingMode::Disconnected);
    assert_eq!(state.color, TrackingColor::Green);
}

#[test]
fn mode_change_replaces_mode_and_keeps_color() {
    let mut state = DeviceState::new();
    state.apply(ModeOrColor::Mode(OperatingMode::Race));
    assert_eq!(
        state,
        DeviceState { mode: OperatingMode::Race, color: TrackingColor::Green }
    );
}

#[test]
fn color_change_replaces_color_and_keeps_mode() {
    let mut state = DeviceState { mode: OperatingMode::Calibrate, color: TrackingColor::Green };
    state.apply(ModeOrColor::Color(TrackingColor::Red));
    assert_eq!(
        state,
        DeviceState { mode: OperatingMode::Calibrate, color: TrackingColor::Red }
    );
}

#[test]
fn same_mode_twice_is_idempotent() {
    let mut state = DeviceState::new();
    state.apply(ModeOrColor::Mode(OperatingMode::Calibrate));
    let once = state;
    state.apply(ModeOrColor::Mode(OperatingMode::Calibrate));
    assert_eq!(state, once);
    assert_eq!(state.mode, OperatingMode::Calibrate);
}

#[test]
fn same_color_twice_is_idempotent() {
    let mut state = DeviceState::new();
    state.apply(ModeOrColor::Color(TrackingColor::Blue));
    let once = state;
    state.apply(ModeOrColor::Color(TrackingColor::Blue));
    assert_eq!(state, once);
}

#[test]
fn any_mode_may_follow_any_mode() {
    let modes = [OperatingMode::Disconnected, OperatingMode::Calibrate, OperatingMode::Race];
    for from in modes {
        for to in modes {
            let mut state = DeviceState { mode: from, color: TrackingColor::Black };
            state.apply(ModeOrColor::Mode(to));
            assert_eq!(state.mode, to);
            assert_eq!(state.color, TrackingColor::Black);
        }
    }
}

#[test]
fn disconnected_is_reachable_again() {
    let mut state = DeviceState::new();
    state.apply(ModeOrColor::Mode(OperatingMode::Race));
    state.apply(ModeOrColor::Mode(OperatingMode::Disconnected));
    assert_eq!(state.mode, OperatingMode::Disconnected);
}
