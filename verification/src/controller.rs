//! The game-controller side of the binding: the symbolic axis and button
//! sets with their integer codes and mapping-string names, the owning
//! `Controller` handle, and binding descriptors.
//!
//! The native library defines each symbolic axis and button as a small
//! integer code and a fixed name used in mapping strings.  Both directions
//! of both translations are implemented and verified here; an integer code
//! outside the defined set is never coerced to a default variant.

use crate::joystick::{joystick_snapshot, Joystick};
use crate::SdlResult;
use vstd::prelude::*;

verus! {

/// A semantic controller axis, as the native mapping database names them.
/// `Invalid` is the explicit sentinel of the native library, never a
/// fallback for an unrecognized code.
#[derive(Copy, Clone, Debug, PartialEq, Eq, Structural)]
pub enum ControllerAxis {
    Invalid,
    LeftX,
    LeftY,
    RightX,
    RightY,
    TriggerLeft,
    TriggerRight,
}

/// The native integer code of an axis.
pub open spec fn axis_code(a: ControllerAxis) -> int {
    match a {
        ControllerAxis::Invalid => -1,
        ControllerAxis::LeftX => 0,
        ControllerAxis::LeftY => 1,
        ControllerAxis::RightX => 2,
        ControllerAxis::RightY => 3,
        ControllerAxis::TriggerLeft => 4,
        ControllerAxis::TriggerRight => 5,
    }
}

/// The axis a native code denotes, if the code is defined.
pub open spec fn axis_for_code(code: int) -> Option<ControllerAxis> {
    if code == -1 {
        Some(ControllerAxis::Invalid)
    } else if code == 0 {
        Some(ControllerAxis::LeftX)
    } else if code == 1 {
        Some(ControllerAxis::LeftY)
    } else if code == 2 {
        Some(ControllerAxis::RightX)
    } else if code == 3 {
        Some(ControllerAxis::RightY)
    } else if code == 4 {
        Some(ControllerAxis::TriggerLeft)
    } else if code == 5 {
        Some(ControllerAxis::TriggerRight)
    } else {
        None
    }
}

impl ControllerAxis {
    /// The native integer code of this axis.
    pub fn code(self) -> (r: i32)
        ensures
            r == axis_code(self),
    {
        match self {
            ControllerAxis::Invalid => -1,
            ControllerAxis::LeftX => 0,
            ControllerAxis::LeftY => 1,
            ControllerAxis::RightX => 2,
            ControllerAxis::RightY => 3,
            ControllerAxis::TriggerLeft => 4,
            ControllerAxis::TriggerRight => 5,
        }
    }
}

/// Decodes a native axis code that the event layer reports.  Undefined
/// codes mean the native library and this binding have drifted out of sync;
/// they are ruled out by contract here, and the boundary layer treats them
/// as a fatal condition rather than coercing them to any variant.
pub fn wrap_controller_axis(bitflags: u8) -> (r: ControllerAxis)
    requires
        axis_for_code(bitflags as int) is Some,
    ensures
        Some(r) == axis_for_code(bitflags as int),
        axis_code(r) == bitflags as int,
{
    match try_wrap_controller_axis(bitflags) {
        Some(a) => a,
        None => {
            proof {
                assert(false);
            }
            ControllerAxis::Invalid
        },
    }
}

/// Total form of the axis decode: `None` exactly on the codes outside the
/// defined set, never a default variant.
pub fn try_wrap_controller_axis(bitflags: u8) -> (r: Option<ControllerAxis>)
    ensures
        r == axis_for_code(bitflags as int),
        r matches Some(a) ==> axis_code(a) == bitflags as int,
{
    match bitflags {
        0 => Some(ControllerAxis::LeftX),
        1 => Some(ControllerAxis::LeftY),
        2 => Some(ControllerAxis::RightX),
        3 => Some(ControllerAxis::RightY),
        4 => Some(ControllerAxis::TriggerLeft),
        5 => Some(ControllerAxis::TriggerRight),
        _ => None,
    }
}

/// Axis codes round-trip: decoding any defined code returns the unique
/// axis whose code it is, and every axis decodes back from its own code.
pub proof fn lemma_controller_axis_round_trip(code: int, a: ControllerAxis)
    ensures
        axis_for_code(code) matches Some(v) ==> axis_code(v) == code,
        axis_for_code(axis_code(a)) == Some(a),
{
}

/// A semantic controller button, as the native mapping database names
/// them.  `Invalid` is the explicit sentinel of the native library, never a
/// fallback for an unrecognized code.
#[derive(Copy, Clone, Debug, PartialEq, Eq, Structural)]
pub enum ControllerButton {
    Invalid,
    A,
    B,
    X,
    Y,
    Back,
    Guide,
    Start,
    LeftStick,
    RightStick,
    LeftShoulder,
    RightShoulder,
    DPadUp,
    DPadDown,
    DPadLeft,
    DPadRight,
}

/// The native integer code of a button.
pub open spec fn button_code(b: ControllerButton) -> int {
    match b {
        ControllerButton::Invalid => -1,
        ControllerButton::A => 0,
        ControllerButton::B => 1,
        ControllerButton::X => 2,
        ControllerButton::Y => 3,
        ControllerButton::Back => 4,
        ControllerButton::Guide => 5,
        ControllerButton::Start => 6,
        ControllerButton::LeftStick => 7,
        ControllerButton::RightStick => 8,
        ControllerButton::LeftShoulder => 9,
        ControllerButton::RightShoulder => 10,
        ControllerButton::DPadUp => 11,
        ControllerButton::DPadDown => 12,
        ControllerButton::DPadLeft => 13,
        ControllerButton::DPadRight => 14,
    }
}

/// The button a native code denotes, if the code is defined.
pub open spec fn button_for_code(code: int) -> Option<ControllerButton> {
    if code == -1 {
        Some(ControllerButton::Invalid)
    } else if code == 0 {
        Some(ControllerButton::A)
    } else if code == 1 {
        Some(ControllerButton::B)
    } else if code == 2 {
        Some(ControllerButton::X)
    } else if code == 3 {
        Some(ControllerButton::Y)
    } else if code == 4 {
        Some(ControllerButton::Back)
    } else if code == 5 {
        Some(ControllerButton::Guide)
    } else if code == 6 {
        Some(ControllerButton::Start)
    } else if code == 7 {
        Some(ControllerButton::LeftStick)
    } else if code == 8 {
        Some(ControllerButton::RightStick)
    } else if code == 9 {
        Some(ControllerButton::LeftShoulder)
    } else if code == 10 {
        Some(ControllerButton::RightShoulder)
    } else if code == 11 {
        Some(ControllerButton::DPadUp)
    } else if code == 12 {
        Some(ControllerButton::DPadDown)
    } else if code == 13 {
        Some(ControllerButton::DPadLeft)
    } else if code == 14 {
        Some(ControllerButton::DPadRight)
    } else {
        None
    }
}

impl ControllerButton {
    /// The native integer code of this button.
    pub fn code(self) -> (r: i32)
        ensures
            r == button_code(self),
    {
        match self {
            ControllerButton::Invalid => -1,
            ControllerButton::A => 0,
            ControllerButton::B => 1,
            ControllerButton::X => 2,
            ControllerButton::Y => 3,
            ControllerButton::Back => 4,
            ControllerButton::Guide => 5,
            ControllerButton::Start => 6,
            ControllerButton::LeftStick => 7,
            ControllerButton::RightStick => 8,
            ControllerButton::LeftShoulder => 9,
            ControllerButton::RightShoulder => 10,
            ControllerButton::DPadUp => 11,
            ControllerButton::DPadDown => 12,
            ControllerButton::DPadLeft => 13,
            ControllerButton::DPadRight => 14,
        }
    }
}

/// Decodes a native button code that the event layer reports.  Undefined
/// codes mean the native library and this binding have drifted out of sync;
/// they are ruled out by contract here, and the boundary layer treats them
/// as a fatal condition rather than coercing them to any variant.
pub fn wrap_controller_button(bitflags: u8) -> (r: ControllerButton)
    requires
        button_for_code(bitflags as int) is Some,
    ensures
        Some(r) == button_for_code(bitflags as int),
        button_code(r) == bitflags as int,
{
    match try_wrap_controller_button(bitflags) {
        Some(b) => b,
        None => {
            proof {
                assert(false);
            }
            ControllerButton::Invalid
        },
    }
}

/// Total form of the button decode: `None` exactly on the codes outside
/// the defined set, never a default variant.
pub fn try_wrap_controller_button(bitflags: u8) -> (r: Option<ControllerButton>)
    ensures
        r == button_for_code(bitflags as int),
        r matches Some(b) ==> button_code(b) == bitflags as int,
{
    match bitflags {
        0 => Some(ControllerButton::A),
        1 => Some(ControllerButton::B),
        2 => Some(ControllerButton::X),
        3 => Some(ControllerButton::Y),
        4 => Some(ControllerButton::Back),
        5 => Some(ControllerButton::Guide),
        6 => Some(ControllerButton::Start),
        7 => Some(ControllerButton::LeftStick),
        8 => Some(ControllerButton::RightStick),
        9 => Some(ControllerButton::LeftShoulder),
        10 => Some(ControllerButton::RightShoulder),
        11 => Some(ControllerButton::DPadUp),
        12 => Some(ControllerButton::DPadDown),
        13 => Some(ControllerButton::DPadLeft),
        14 => Some(ControllerButton::DPadRight),
        _ => None,
    }
}

/// Button codes round-trip: decoding any defined code returns the unique
/// button whose code it is, and every button decodes back from its own
/// code.
pub proof fn lemma_controller_button_round_trip(code: int, b: ControllerButton)
    ensures
        button_for_code(code) matches Some(v) ==> button_code(v) == code,
        button_for_code(button_code(b)) == Some(b),
{
}

/// Whether two string slices hold the same characters.
fn str_eq(a: &str, b: &str) -> (r: bool)
    ensures
        r == (a@ == b@),
{
    let sa = String::from_str(a);
    let sb = String::from_str(b);
    sa == sb
}

/// The mapping-string name of an axis; the empty sequence for `Invalid`,
/// which has no name.
pub open spec fn axis_name(a: ControllerAxis) -> Seq<char> {
    match a {
        ControllerAxis::Invalid => Seq::empty(),
        ControllerAxis::LeftX => "leftx"@,
        ControllerAxis::LeftY => "lefty"@,
        ControllerAxis::RightX => "rightx"@,
        ControllerAxis::RightY => "righty"@,
        ControllerAxis::TriggerLeft => "lefttrigger"@,
        ControllerAxis::TriggerRight => "righttrigger"@,
    }
}

/// The axis a mapping-string name denotes; `Invalid` for any other text.
pub open spec fn axis_for_name(s: Seq<char>) -> ControllerAxis {
    if s == "leftx"@ {
        ControllerAxis::LeftX
    } else if s == "lefty"@ {
        ControllerAxis::LeftY
    } else if s == "rightx"@ {
        ControllerAxis::RightX
    } else if s == "righty"@ {
        ControllerAxis::RightY
    } else if s == "lefttrigger"@ {
        ControllerAxis::TriggerLeft
    } else if s == "righttrigger"@ {
        ControllerAxis::TriggerRight
    } else {
        ControllerAxis::Invalid
    }
}

/// The axis a mapping-string name denotes; `None` for a text that names no
/// axis.
pub fn try_get_axis_from_string(pch_string: &str) -> (r: Option<ControllerAxis>)
    ensures
        axis_for_name(pch_string@) == ControllerAxis::Invalid ==> r is None,
        axis_for_name(pch_string@) != ControllerAxis::Invalid ==> r == Some(
            axis_for_name(pch_string@),
        ),
{
    if str_eq(pch_string, "leftx") {
        Some(ControllerAxis::LeftX)
    } else if str_eq(pch_string, "lefty") {
        Some(ControllerAxis::LeftY)
    } else if str_eq(pch_string, "rightx") {
        Some(ControllerAxis::RightX)
    } else if str_eq(pch_string, "righty") {
        Some(ControllerAxis::RightY)
    } else if str_eq(pch_string, "lefttrigger") {
        Some(ControllerAxis::TriggerLeft)
    } else if str_eq(pch_string, "righttrigger") {
        Some(ControllerAxis::TriggerRight)
    } else {
        None
    }
}

/// The axis a mapping-string name denotes.  A text that names no axis is a
/// contract violation, as with undefined integer codes; the boundary layer
/// treats it as fatal.
pub fn get_axis_from_string(pch_string: &str) -> (r: ControllerAxis)
    requires
        axis_for_name(pch_string@) != ControllerAxis::Invalid,
    ensures
        r == axis_for_name(pch_string@),
{
    match try_get_axis_from_string(pch_string) {
        Some(a) => a,
        None => {
            proof {
                assert(false);
            }
            ControllerAxis::Invalid
        },
    }
}

/// The mapping-string name of an axis; `None` for `Invalid`, which has no
/// name.
pub fn get_string_for_axis(axis: ControllerAxis) -> (r: Option<String>)
    ensures
        axis == ControllerAxis::Invalid <==> r is None,
        r matches Some(s) ==> s@ == axis_name(axis),
{
    match axis {
        ControllerAxis::Invalid => None,
        ControllerAxis::LeftX => Some(String::from_str("leftx")),
        ControllerAxis::LeftY => Some(String::from_str("lefty")),
        ControllerAxis::RightX => Some(String::from_str("rightx")),
        ControllerAxis::RightY => Some(String::from_str("righty")),
        ControllerAxis::TriggerLeft => Some(String::from_str("lefttrigger")),
        ControllerAxis::TriggerRight => Some(String::from_str("righttrigger")),
    }
}

/// Axis names round-trip: the name of any axis denotes that axis, and a
/// text that denotes an axis is that axis's name.
pub proof fn lemma_axis_name_round_trip(a: ControllerAxis, s: Seq<char>)
    ensures
        a != ControllerAxis::Invalid ==> axis_for_name(axis_name(a)) == a,
        axis_for_name(s) != ControllerAxis::Invalid ==> axis_name(axis_for_name(s)) == s,
{
    reveal_strlit("leftx");
    reveal_strlit("lefty");
    reveal_strlit("rightx");
    reveal_strlit("righty");
    reveal_strlit("lefttrigger");
    reveal_strlit("righttrigger");
    assert("lefty"@ != "leftx"@) by {
        assert("lefty"@[4] == 'y');
    }
    assert("rightx"@ != "leftx"@ && "rightx"@ != "lefty"@) by {
        assert("rightx"@.len() == 6);
    }
    assert("righty"@ != "leftx"@ && "righty"@ != "lefty"@) by {
        assert("righty"@.len() == 6);
    }
    assert("righty"@ != "rightx"@) by {
        assert("righty"@[5] == 'y');
    }
    assert("lefttrigger"@ != "leftx"@ && "lefttrigger"@ != "lefty"@ && "lefttrigger"@ != "rightx"@
        && "lefttrigger"@ != "righty"@) by {
        assert("lefttrigger"@.len() == 11);
    }
    assert("righttrigger"@ != "leftx"@ && "righttrigger"@ != "lefty"@ && "righttrigger"@
        != "rightx"@ && "righttrigger"@ != "righty"@ && "righttrigger"@ != "lefttrigger"@) by {
        assert("righttrigger"@.len() == 12);
    }
}

/// The mapping-string name of a button; the empty sequence for `Invalid`,
/// which has no name.
pub open spec fn button_name(b: ControllerButton) -> Seq<char> {
    match b {
        ControllerButton::Invalid => Seq::empty(),
        ControllerButton::A => "a"@,
        ControllerButton::B => "b"@,
        ControllerButton::X => "x"@,
        ControllerButton::Y => "y"@,
        ControllerButton::Back => "back"@,
        ControllerButton::Guide => "guide"@,
        ControllerButton::Start => "start"@,
        ControllerButton::LeftStick => "leftstick"@,
        ControllerButton::RightStick => "rightstick"@,
        ControllerButton::LeftShoulder => "leftshoulder"@,
        ControllerButton::RightShoulder => "rightshoulder"@,
        ControllerButton::DPadUp => "dpup"@,
        ControllerButton::DPadDown => "dpdown"@,
        ControllerButton::DPadLeft => "dpleft"@,
        ControllerButton::DPadRight => "dpright"@,
    }
}

/// The button a mapping-string name denotes; `Invalid` for any other text.
pub open spec fn button_for_name(s: Seq<char>) -> ControllerButton {
    if s == "a"@ {
        ControllerButton::A
    } else if s == "b"@ {
        ControllerButton::B
    } else if s == "x"@ {
        ControllerButton::X
    } else if s == "y"@ {
        ControllerButton::Y
    } else if s == "back"@ {
        ControllerButton::Back
    } else if s == "guide"@ {
        ControllerButton::Guide
    } else if s == "start"@ {
        ControllerButton::Start
    } else if s == "leftstick"@ {
        ControllerButton::LeftStick
    } else if s == "rightstick"@ {
        ControllerButton::RightStick
    } else if s == "leftshoulder"@ {
        ControllerButton::LeftShoulder
    } else if s == "rightshoulder"@ {
        ControllerButton::RightShoulder
    } else if s == "dpup"@ {
        ControllerButton::DPadUp
    } else if s == "dpdown"@ {
        ControllerButton::DPadDown
    } else if s == "dpleft"@ {
        ControllerButton::DPadLeft
    } else if s == "dpright"@ {
        ControllerButton::DPadRight
    } else {
        ControllerButton::Invalid
    }
}

/// The button a mapping-string name denotes; `None` for a text that names
/// no button.
pub fn try_get_button_from_string(pch_string: &str) -> (r: Option<ControllerButton>)
    ensures
        button_for_name(pch_string@) == ControllerButton::Invalid ==> r is None,
        button_for_name(pch_string@) != ControllerButton::Invalid ==> r == Some(
            button_for_name(pch_string@),
        ),
{
    if str_eq(pch_string, "a") {
        Some(ControllerButton::A)
    } else if str_eq(pch_string, "b") {
        Some(ControllerButton::B)
    } else if str_eq(pch_string, "x") {
        Some(ControllerButton::X)
    } else if str_eq(pch_string, "y") {
        Some(ControllerButton::Y)
    } else if str_eq(pch_string, "back") {
        Some(ControllerButton::Back)
    } else if str_eq(pch_string, "guide") {
        Some(ControllerButton::Guide)
    } else if str_eq(pch_string, "start") {
        Some(ControllerButton::Start)
    } else if str_eq(pch_string, "leftstick") {
        Some(ControllerButton::LeftStick)
    } else if str_eq(pch_string, "rightstick") {
        Some(ControllerButton::RightStick)
    } else if str_eq(pch_string, "leftshoulder") {
        Some(ControllerButton::LeftShoulder)
    } else if str_eq(pch_string, "rightshoulder") {
        Some(ControllerButton::RightShoulder)
    } else if str_eq(pch_string, "dpup") {
        Some(ControllerButton::DPadUp)
    } else if str_eq(pch_string, "dpdown") {
        Some(ControllerButton::DPadDown)
    } else if str_eq(pch_string, "dpleft") {
        Some(ControllerButton::DPadLeft)
    } else if str_eq(pch_string, "dpright") {
        Some(ControllerButton::DPadRight)
    } else {
        None
    }
}

/// The button a mapping-string name denotes.  A text that names no button
/// is a contract violation, as with undefined integer codes; the boundary
/// layer treats it as fatal.
pub fn get_button_from_string(pch_string: &str) -> (r: ControllerButton)
    requires
        button_for_name(pch_string@) != ControllerButton::Invalid,
    ensures
        r == button_for_name(pch_string@),
{
    match try_get_button_from_string(pch_string) {
        Some(b) => b,
        None => {
            proof {
                assert(false);
            }
            ControllerButton::Invalid
        },
    }
}

/// The mapping-string name of a button; `None` for `Invalid`, which has no
/// name.
pub fn get_string_for_button(button: ControllerButton) -> (r: Option<String>)
    ensures
        button == ControllerButton::Invalid <==> r is None,
        r matches Some(s) ==> s@ == button_name(button),
{
    match button {
        ControllerButton::Invalid => None,
        ControllerButton::A => Some(String::from_str("a")),
        ControllerButton::B => Some(String::from_str("b")),
        ControllerButton::X => Some(String::from_str("x")),
        ControllerButton::Y => Some(String::from_str("y")),
        ControllerButton::Back => Some(String::from_str("back")),
        ControllerButton::Guide => Some(String::from_str("guide")),
        ControllerButton::Start => Some(String::from_str("start")),
        ControllerButton::LeftStick => Some(String::from_str("leftstick")),
        ControllerButton::RightStick => Some(String::from_str("rightstick")),
        ControllerButton::LeftShoulder => Some(String::from_str("leftshoulder")),
        ControllerButton::RightShoulder => Some(String::from_str("rightshoulder")),
        ControllerButton::DPadUp => Some(String::from_str("dpup")),
        ControllerButton::DPadDown => Some(String::from_str("dpdown")),
        ControllerButton::DPadLeft => Some(String::from_str("dpleft")),
        ControllerButton::DPadRight => Some(String::from_str("dpright")),
    }
}

/// Button names round-trip: the name of any button denotes that button,
/// and a text that denotes a button is that button's name.
pub proof fn lemma_button_name_round_trip(b: ControllerButton, s: Seq<char>)
    ensures
        b != ControllerButton::Invalid ==> button_for_name(button_name(b)) == b,
        button_for_name(s) != ControllerButton::Invalid ==> button_name(button_for_name(s)) == s,
{
    reveal_strlit("a");
    reveal_strlit("b");
    reveal_strlit("x");
    reveal_strlit("y");
    reveal_strlit("back");
    reveal_strlit("guide");
    reveal_strlit("start");
    reveal_strlit("leftstick");
    reveal_strlit("rightstick");
    reveal_strlit("leftshoulder");
    reveal_strlit("rightshoulder");
    reveal_strlit("dpup");
    reveal_strlit("dpdown");
    reveal_strlit("dpleft");
    reveal_strlit("dpright");
    assert("a"@.len() == 1 && "b"@.len() == 1 && "x"@.len() == 1 && "y"@.len() == 1);
    assert("back"@.len() == 4 && "dpup"@.len() == 4);
    assert("guide"@.len() == 5 && "start"@.len() == 5);
    assert("leftstick"@.len() == 9 && "rightstick"@.len() == 10);
    assert("leftshoulder"@.len() == 12 && "rightshoulder"@.len() == 13);
    assert("dpdown"@.len() == 6 && "dpleft"@.len() == 6 && "dpright"@.len() == 7);
    assert("a"@[0] == 'a' && "b"@[0] == 'b' && "x"@[0] == 'x' && "y"@[0] == 'y');
    assert("back"@[0] == 'b' && "dpup"@[0] == 'd');
    assert("guide"@[0] == 'g' && "start"@[0] == 's');
    assert("dpdown"@[2] == 'd' && "dpleft"@[2] == 'l');
}

/// An owned game-controller handle: the address of the open native handle.
/// The richer semantic view of the same physical device a `Joystick`
/// wraps.
///
/// The handle is released by `close`, which consumes the value, so no
/// accessor is reachable after close.
pub struct Controller {
    /// Address of the open native handle; never 0 for a well-formed value.
    pub raw: usize,
}

impl Controller {
    /// A controller wraps an open, non-null native handle.
    pub open spec fn wf(&self) -> bool {
        self.raw != 0
    }

    /// Wraps the outcome of a native open: a null handle (address 0) means
    /// the open failed and the last-error text is the failure.
    pub fn from_ll(raw: usize, error: String) -> (r: SdlResult<Controller>)
        ensures
            raw == 0 ==> r == Err::<Controller, String>(error),
            raw != 0 ==> r == Ok::<Controller, String>(Controller { raw }),
            raw != 0 ==> (r matches Ok(c) && c.wf()),
    {
        if raw == 0 {
            Err(error)
        } else {
            Ok(Controller { raw })
        }
    }

    /// Down-casts to the joystick view of the same physical device: the
    /// joystick wraps the very same native handle, with the metadata the
    /// native library reports for it.  An open controller always yields a
    /// joystick view.
    pub fn get_joystick(
        &self,
        instance_id: i32,
        num_axes: i32,
        num_balls: i32,
        num_buttons: i32,
        num_hats: i32,
    ) -> (r: SdlResult<Joystick>)
        requires
            self.wf(),
        ensures
            r == Ok::<Joystick, String>(
                joystick_snapshot(self.raw, instance_id, num_axes, num_balls, num_buttons,
                num_hats),
            ),
            r matches Ok(j) && j.wf() && j.raw == self.raw,
    {
        Joystick::from_ll(self.raw, instance_id, num_axes, num_balls, num_buttons, num_hats,
            String::new())
    }

    /// Wraps the outcome of the native name query; a controller without a
    /// name map entry has none.
    pub fn name(&self, native_name: Option<String>) -> (r: Option<String>)
        ensures
            r == native_name,
    {
        native_name
    }

    /// Releases the handle.  Consumes the value: after closing, no
    /// accessor of this controller can be reached, which is the discipline
    /// the native library demands.
    pub fn close(self) {
    }
}

/// A joystick opened by index and one obtained by down-casting an open
/// controller agree on the instance id and on every count whenever both
/// wrap the same native handle and the native library reported the same
/// metadata for it.
pub proof fn lemma_open_paths_agree(
    c: Controller,
    direct: Joystick,
    derived: Joystick,
    instance_id: i32,
    num_axes: i32,
    num_balls: i32,
    num_buttons: i32,
    num_hats: i32,
)
    requires
        c.wf(),
        direct == joystick_snapshot(c.raw, instance_id, num_axes, num_balls, num_buttons,
        num_hats),
        derived == joystick_snapshot(c.raw, instance_id, num_axes, num_balls, num_buttons,
        num_hats),
    ensures
        direct.instance_id == derived.instance_id,
        direct.num_axes == derived.num_axes,
        direct.num_balls == derived.num_balls,
        direct.num_buttons == derived.num_buttons,
        direct.num_hats == derived.num_hats,
        direct.raw == derived.raw,
{
}

/// Which native primitive a controller's logical axis or button maps to: a
/// native button, a native axis, a hat direction, or nothing.
#[derive(Copy, Clone, Debug, PartialEq, Eq, Structural)]
pub enum ControllerBind {
    Unbound,
    Button(i32),
    Axis(i32),
    Hat(i32, i32),
}

/// The binding a native descriptor denotes: the native tag selects the
/// kind, the first value names the button, axis or hat, and the second the
/// hat direction mask.  An unknown tag means no binding, as the native
/// library reports for unmapped inputs.
pub open spec fn bind_for_raw(bind_type: i32, value: i32, mask: i32) -> ControllerBind {
    if bind_type == 1 {
        ControllerBind::Button(value)
    } else if bind_type == 2 {
        ControllerBind::Axis(value)
    } else if bind_type == 3 {
        ControllerBind::Hat(value, mask)
    } else {
        ControllerBind::Unbound
    }
}

impl ControllerBind {
    /// Decodes a native binding descriptor from its tag and values.
    pub fn from_raw(bind_type: i32, value: i32, mask: i32) -> (r: ControllerBind)
        ensures
            r == bind_for_raw(bind_type, value, mask),
    {
        if bind_type == 1 {
            ControllerBind::Button(value)
        } else if bind_type == 2 {
            ControllerBind::Axis(value)
        } else if bind_type == 3 {
            ControllerBind::Hat(value, mask)
        } else {
            ControllerBind::Unbound
        }
    }
}

/// Decides a mapping-by-GUID lookup: a device without a registered mapping
/// string is the failure carrying the last-error text.  The mapping string
/// itself is opaque pass-through data of the native library.
pub fn mapping_for_guid(native_mapping: Option<String>, error: String) -> (r: SdlResult<String>)
    ensures
        native_mapping matches Some(m) ==> r == Ok::<String, String>(m),
        native_mapping is None ==> r == Err::<String, String>(error),
{
    match native_mapping {
        Some(m) => Ok(m),
        None => Err(error),
    }
}

} // verus!
