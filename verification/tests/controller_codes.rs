use sdl2::controller::{
    get_axis_from_string, get_button_from_string, get_string_for_axis, get_string_for_button,
    try_get_axis_from_string, try_get_button_from_string, try_wrap_controller_axis,
    try_wrap_controller_button, wrap_controller_axis, wrap_controller_button, ControllerAxis,
    ControllerBind, ControllerButton,
};
use sdl2::event::EventState;

#[test]
fn axis_codes_round_trip() {
    for code in 0u8..=5u8 {
        let axis = wrap_controller_axis(code);
        assert_ne!(axis, ControllerAxis::Invalid);
        assert_eq!(axis.code(), code as i32);
    }
}

#[test]
fn axis_variants_round_trip() {
    let axes = [
        ControllerAxis::LeftX,
        ControllerAxis::LeftY,
        ControllerAxis::RightX,
        ControllerAxis::RightY,
        ControllerAxis::TriggerLeft,
        ControllerAxis::TriggerRight,
    ];
    for axis in axes {
        let code = axis.code();
        assert!(0 <= code && code <= 5);
        assert_eq!(wrap_controller_axis(code as u8), axis);
    }
    assert_eq!(ControllerAxis::Invalid.code(), -1);
}

#[test]
fn axis_decode_rejects_undefined_codes() {
    assert_eq!(try_wrap_controller_axis(6), None);
    assert_eq!(try_wrap_controller_axis(7), None);
    assert_eq!(try_wrap_controller_axis(100), None);
    assert_eq!(try_wrap_controller_axis(255), None);
    assert_eq!(try_wrap_controller_axis(2), Some(ControllerAxis::RightX));
}

#[test]
fn button_codes_round_trip() {
    for code in 0u8..=14u8 {
        let button = wrap_controller_button(code);
        assert_ne!(button, ControllerButton::Invalid);
        assert_eq!(button.code(), code as i32);
    }
}

#[test]
fn button_variants_round_trip() {
    let buttons = [
        ControllerButton::A,
        ControllerButton::B,
        ControllerButton::X,
        ControllerButton::Y,
        ControllerButton::Back,
        ControllerButton::Guide,
        ControllerButton::Start,
        ControllerButton::LeftStick,
        ControllerButton::RightStick,
        ControllerButton::LeftShoulder,
        ControllerButton::RightShoulder,
        ControllerButton::DPadUp,
        ControllerButton::DPadDown,
        ControllerButton::DPadLeft,
        ControllerButton::DPadRight,
    ];
    for button in buttons {
        let code = button.code();
        assert!(0 <= code && code <= 14);
        assert_eq!(wrap_controller_button(code as u8), button);
    }
    assert_eq!(ControllerButton::Invalid.code(), -1);
}

#[test]
fn button_decode_rejects_undefined_codes() {
    assert_eq!(try_wrap_controller_button(15), None);
    assert_eq!(try_wrap_controller_button(16), None);
    assert_eq!(try_wrap_controller_button(255), None);
    assert_eq!(try_wrap_controller_button(14), Some(ControllerButton::DPadRight));
}

#[test]
fn axis_names_round_trip() {
    let names = ["leftx", "lefty", "rightx", "righty", "lefttrigger", "righttrigger"];
    for name in names {
        let axis = get_axis_from_string(name);
        assert_ne!(axis, ControllerAxis::Invalid);
        assert_eq!(get_string_for_axis(axis), Some(name.to_string()));
    }
}

#[test]
fn axis_names_exact() {
    assert_eq!(get_string_for_axis(ControllerAxis::LeftX), Some("leftx".to_string()));
    assert_eq!(get_string_for_axis(ControllerAxis::TriggerRight), Some("righttrigger".to_string()));
    assert_eq!(get_string_for_axis(ControllerAxis::Invalid), None);
    assert_eq!(get_axis_from_string("lefty"), ControllerAxis::LeftY);
}

#[test]
fn unknown_axis_name_is_rejected() {
    assert_eq!(try_get_axis_from_string(""), None);
    assert_eq!(try_get_axis_from_string("leftz"), None);
    assert_eq!(try_get_axis_from_string("LEFTX"), None);
    assert_eq!(try_get_axis_from_string("righty"), Some(ControllerAxis::RightY));
}

#[test]
fn button_names_round_trip() {
    let names = [
        "a",
        "b",
        "x",
        "y",
        "back",
        "guide",
        "start",
        "leftstick",
        "rightstick",
        "leftshoulder",
        "rightshoulder",
        "dpup",
        "dpdown",
        "dpleft",
        "dpright",
    ];
    for name in names {
        let button = get_button_from_string(name);
        assert_ne!(button, ControllerButton::Invalid);
        assert_eq!(get_string_for_button(button), Some(name.to_string()));
    }
}

#[test]
fn button_names_exact() {
    assert_eq!(get_string_for_button(ControllerButton::DPadUp), Some("dpup".to_string()));
    assert_eq!(get_string_for_button(ControllerButton::Guide), Some("guide".to_string()));
    assert_eq!(get_string_for_button(ControllerButton::Invalid), None);
    assert_eq!(get_button_from_string("rightshoulder"), ControllerButton::RightShoulder);
}

#[test]
fn unknown_button_name_is_rejected() {
    assert_eq!(try_get_button_from_string(""), None);
    assert_eq!(try_get_button_from_string("c"), None);
    assert_eq!(try_get_button_from_string("dpcenter"), None);
    assert_eq!(try_get_button_from_string("start"), Some(ControllerButton::Start));
}

#[test]
fn bind_decode_covers_every_kind() {
    assert_eq!(ControllerBind::from_raw(0, 7, 9), ControllerBind::Unbound);
    assert_eq!(ControllerBind::from_raw(1, 3, 0), ControllerBind::Button(3));
    assert_eq!(ControllerBind::from_raw(2, 4, 0), ControllerBind::Axis(4));
    assert_eq!(ControllerBind::from_raw(3, 0, 4), ControllerBind::Hat(0, 4));
    assert_eq!(ControllerBind::from_raw(-1, 5, 5), ControllerBind::Unbound);
    assert_eq!(ControllerBind::from_raw(4, 5, 5), ControllerBind::Unbound);
}

#[test]
fn event_state_codes_round_trip() {
    let states = [EventState::Query, EventState::Ignore, EventState::Enable];
    for state in states {
        assert_eq!(EventState::try_from_code(state.code()), Some(state));
    }
    assert_eq!(EventState::Query.code(), -1);
    assert_eq!(EventState::Ignore.code(), 0);
    assert_eq!(EventState::Enable.code(), 1);
    assert_eq!(EventState::try_from_code(2), None);
    assert_eq!(EventState::try_from_code(-2), None);
}
