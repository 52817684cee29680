use synth_control::controller::{
    BindingsError, ControllerBindings, ControllerButton, ControllerFailure, ControllerPreferenceStatus,
    ControllerRole, ControllerSettingId, ControllerState, BINDINGS_VERSION,
};

fn default_buttons() -> Vec<ControllerButton> {
    vec![
        ControllerButton::DPadUp,
        ControllerButton::DPadDown,
        ControllerButton::DPadLeft,
        ControllerButton::DPadRight,
        ControllerButton::South,
        ControllerButton::LeftShoulder,
        ControllerButton::Start,
        ControllerButton::LeftTrigger,
        ControllerButton::RightTrigger,
        ControllerButton::North,
    ]
}

#[test]
fn default_bindings_assign_one_distinct_button_per_role() {
    let bindings = ControllerBindings::default_bindings();
    assert_eq!(bindings.version(), 1);
    assert_eq!(bindings.buttons(), default_buttons());
    assert_eq!(bindings.button(ControllerRole::Edit), ControllerButton::South);
    assert_eq!(bindings.button(ControllerRole::Settings), ControllerButton::North);
    assert_eq!(bindings.role(ControllerButton::Start), Some(ControllerRole::Preview));
    assert_eq!(bindings.role(ControllerButton::Mode), None);
}

#[test]
fn recorded_bindings_are_checked_for_version_length_and_duplicates() {
    assert_eq!(
        ControllerBindings::from_parts(2, default_buttons()),
        Err(BindingsError::UnsupportedVersion)
    );
    assert_eq!(
        ControllerBindings::from_parts(BINDINGS_VERSION, default_buttons()[..9].to_vec()),
        Err(BindingsError::WrongLength)
    );
    let mut duplicated = default_buttons();
    duplicated[9] = ControllerButton::South;
    assert_eq!(
        ControllerBindings::from_parts(BINDINGS_VERSION, duplicated),
        Err(BindingsError::DuplicateButton)
    );
    let accepted = ControllerBindings::from_parts(BINDINGS_VERSION, default_buttons()).unwrap();
    assert_eq!(accepted, ControllerBindings::default_bindings());
}

#[test]
fn assigning_a_bound_button_swaps_it_with_the_previous_one() {
    let mut bindings = ControllerBindings::default_bindings();
    bindings.assign(ControllerRole::Edit, ControllerButton::North);
    assert_eq!(bindings.button(ControllerRole::Edit), ControllerButton::North);
    assert_eq!(bindings.button(ControllerRole::Settings), ControllerButton::South);
    bindings.assign(ControllerRole::Up, ControllerButton::Mode);
    assert_eq!(bindings.button(ControllerRole::Up), ControllerButton::Mode);
    assert_eq!(bindings.role(ControllerButton::DPadUp), None);
    let buttons = bindings.buttons();
    for (index, button) in buttons.iter().enumerate() {
        assert!(!buttons[..index].contains(button));
    }
}

#[test]
fn roles_and_settings_follow_binding_order() {
    let roles = ControllerRole::all();
    assert_eq!(roles.len(), 10);
    for (index, role) in roles.iter().enumerate() {
        assert_eq!(role.position(), index);
        assert_eq!(ControllerRole::at(index), *role);
    }
    let settings = ControllerSettingId::all();
    assert_eq!(settings.len(), 11);
    assert_eq!(settings[0], ControllerSettingId::Binding(ControllerRole::Up));
    assert_eq!(settings[10], ControllerSettingId::ResetDefaults);
    assert_eq!(ControllerSettingId::ResetDefaults.label(), "Restore default buttons");
    assert_eq!(ControllerSettingId::Binding(ControllerRole::NextPatch).label(), "Next Patch");
    assert_eq!(ControllerRole::Shift.description(), "Hold with a direction to change pages. Hold with Preview to open Settings.");
    assert_eq!(ControllerButton::DPadLeft.label(), "D-pad left");
}

#[test]
fn controller_state_starts_loading_with_default_bindings() {
    let state = ControllerState::initial();
    assert!(state.devices().is_empty());
    assert_eq!(state.bindings(), &ControllerBindings::default_bindings());
    assert_eq!(state.capture(), None);
    assert!(!state.ready());
    assert_eq!(state.preference_status(), ControllerPreferenceStatus::Loading);
    assert_eq!(state.backend_failure(), None);
    assert_eq!(ControllerPreferenceStatus::Loading.label(), "Loading buttons");
    assert_eq!(
        ControllerPreferenceStatus::Failed(ControllerFailure::PreferenceWrite).label(),
        "Buttons active, but saving failed; confirm a mapping to retry"
    );
}
