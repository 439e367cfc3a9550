use sdl2::controller::Controller;
use sdl2::joystick::{name_for_index, num_joysticks, HatState, Joystick};

#[test]
fn open_with_null_handle_fails() {
    let opened = Joystick::from_ll(0, 0, 0, 0, 0, 0, "no joystick at index 9".to_string());
    assert_eq!(opened.err(), Some("no joystick at index 9".to_string()));
}

#[test]
fn open_snapshots_reported_metadata() {
    let joystick = Joystick::from_ll(0x1000, 7, 6, 1, 12, 1, String::new()).unwrap();
    assert_eq!(joystick.instance_id, 7);
    assert_eq!(joystick.num_axes, 6);
    assert_eq!(joystick.num_balls, 1);
    assert_eq!(joystick.num_buttons, 12);
    assert_eq!(joystick.num_hats, 1);
}

#[test]
fn controller_open_with_null_handle_fails() {
    let opened = Controller::from_ll(0, "not a game controller".to_string());
    assert!(opened.is_err());
    let opened = Controller::from_ll(0x2000, String::new());
    assert!(opened.is_ok());
}

#[test]
fn downcast_agrees_with_direct_open() {
    // Both paths wrap the same native handle and the same reported
    // metadata, so they must present identical instance id and counts.
    let direct = Joystick::from_ll(0x3000, 11, 6, 0, 15, 1, String::new()).unwrap();
    let controller = Controller::from_ll(0x3000, String::new()).unwrap();
    let derived = controller.get_joystick(11, 6, 0, 15, 1).unwrap();
    assert_eq!(direct.raw, derived.raw);
    assert_eq!(direct.instance_id, derived.instance_id);
    assert_eq!(direct.num_axes, derived.num_axes);
    assert_eq!(direct.num_balls, derived.num_balls);
    assert_eq!(direct.num_buttons, derived.num_buttons);
    assert_eq!(direct.num_hats, derived.num_hats);
}

#[test]
fn axis_read_is_bounds_checked() {
    let joystick = Joystick::from_ll(0x1000, 1, 2, 0, 0, 0, String::new()).unwrap();
    assert_eq!(joystick.get_axis(0, 1200, "e".to_string()), Ok(1200));
    assert_eq!(joystick.get_axis(1, -32768, "e".to_string()), Ok(-32768));
    assert_eq!(joystick.get_axis(2, 5, "bad axis".to_string()), Err("bad axis".to_string()));
    assert_eq!(joystick.get_axis(-1, 5, "bad axis".to_string()), Err("bad axis".to_string()));
}

#[test]
fn centered_axis_read_is_success() {
    // The native layer reports both a centered axis and a failed read as
    // zero; within bounds the read succeeds, zero value included.
    let joystick = Joystick::from_ll(0x1000, 1, 4, 0, 0, 0, String::new()).unwrap();
    assert_eq!(joystick.get_axis(3, 0, "e".to_string()), Ok(0));
}

#[test]
fn ball_read_follows_native_status() {
    let joystick = Joystick::from_ll(0x1000, 1, 0, 2, 0, 0, String::new()).unwrap();
    assert_eq!(joystick.get_ball(0, 0, 3, -4, "e".to_string()), Ok((3, -4)));
    assert_eq!(joystick.get_ball(9, -1, 0, 0, "bad ball".to_string()), Err("bad ball".to_string()));
}

#[test]
fn joystick_name_follows_native_result() {
    let joystick = Joystick::from_ll(0x1000, 1, 0, 0, 0, 0, String::new()).unwrap();
    assert_eq!(
        joystick.name(Some("Gamepad".to_string()), String::new()),
        Ok("Gamepad".to_string())
    );
    assert_eq!(joystick.name(None, "gone".to_string()), Err("gone".to_string()));
}

#[test]
fn empty_host_enumerates_to_zero() {
    // A host with no devices is a successful enumeration of zero, not a
    // failure.
    assert_eq!(num_joysticks(0, String::new()), Ok(0));
}

#[test]
fn device_count_follows_native_sign() {
    assert_eq!(num_joysticks(3, String::new()), Ok(3));
    assert_eq!(num_joysticks(-1, "not initialized".to_string()), Err("not initialized".to_string()));
}

#[test]
fn name_for_index_follows_native_result() {
    assert_eq!(name_for_index(Some("Pad".to_string()), String::new()), Ok("Pad".to_string()));
    assert_eq!(name_for_index(None, "no device".to_string()), Err("no device".to_string()));
}

#[test]
fn mapping_for_guid_follows_native_result() {
    let mapping = "030000005e0400008e02000014010000,X360 Controller,a:b0,b:b1".to_string();
    assert_eq!(
        sdl2::controller::mapping_for_guid(Some(mapping.clone()), String::new()),
        Ok(mapping)
    );
    assert_eq!(
        sdl2::controller::mapping_for_guid(None, "no mapping".to_string()),
        Err("no mapping".to_string())
    );
}

#[test]
fn hat_states_round_trip() {
    let states = [
        HatState::Centered,
        HatState::Up,
        HatState::Right,
        HatState::Down,
        HatState::Left,
        HatState::RightUp,
        HatState::RightDown,
        HatState::LeftUp,
        HatState::LeftDown,
    ];
    for state in states {
        assert_eq!(HatState::try_from_code(state.code()), Some(state));
    }
    assert_eq!(HatState::RightUp.code(), 3);
    assert_eq!(HatState::LeftDown.code(), 12);
}

#[test]
fn invalid_hat_masks_are_rejected() {
    assert_eq!(HatState::try_from_code(5), None);
    assert_eq!(HatState::try_from_code(10), None);
    assert_eq!(HatState::try_from_code(15), None);
    assert_eq!(HatState::try_from_code(255), None);
}

#[test]
fn native_boolean_convention() {
    assert!(sdl2::sdl_bool(1));
    assert!(sdl2::sdl_bool(-1));
    assert!(sdl2::sdl_bool(7));
    assert!(!sdl2::sdl_bool(0));
}
