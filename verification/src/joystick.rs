//! The joystick side of the binding: device enumeration results, the owning
//! `Joystick` handle with its snapshotted metadata, hat-switch positions, and
//! the textual form of device GUIDs.
//!
//! Every function here is pure: the layer that crosses the C boundary makes
//! the native call first and hands the raw outcome (a pointer rendered as an
//! address, a count, a value, the last-error string) to these functions,
//! which decide success or failure and build the typed result.

use crate::guid::{
    bytes_of_hex, hex_of_bytes, is_guid_text, nibble_char, nibble_str, read_hex_digit,
    SDL_JoystickGUID,
};
use crate::SdlResult;
use vstd::prelude::*;

verus! {

/// The GUID type under its joystick-module name.
pub type JoystickGUID = SDL_JoystickGUID;

/// A hat-switch position: one of the nine states the native bitmask (up,
/// right, down, left) can validly take.
#[derive(Copy, Clone, Debug, PartialEq, Eq, Structural)]
pub enum HatState {
    Centered,
    Up,
    Right,
    Down,
    Left,
    RightUp,
    RightDown,
    LeftUp,
    LeftDown,
}

/// The native bitmask of a hat position.
pub open spec fn hat_code(h: HatState) -> int {
    match h {
        HatState::Centered => 0,
        HatState::Up => 1,
        HatState::Right => 2,
        HatState::Down => 4,
        HatState::Left => 8,
        HatState::RightUp => 3,
        HatState::RightDown => 6,
        HatState::LeftUp => 9,
        HatState::LeftDown => 12,
    }
}

/// The hat position a native bitmask denotes, if it is one of the nine
/// valid masks.
pub open spec fn hat_for_code(code: int) -> Option<HatState> {
    if code == 0 {
        Some(HatState::Centered)
    } else if code == 1 {
        Some(HatState::Up)
    } else if code == 2 {
        Some(HatState::Right)
    } else if code == 4 {
        Some(HatState::Down)
    } else if code == 8 {
        Some(HatState::Left)
    } else if code == 3 {
        Some(HatState::RightUp)
    } else if code == 6 {
        Some(HatState::RightDown)
    } else if code == 9 {
        Some(HatState::LeftUp)
    } else if code == 12 {
        Some(HatState::LeftDown)
    } else {
        None
    }
}

impl HatState {
    /// The native bitmask of this position.
    pub fn code(self) -> (r: u8)
        ensures
            r == hat_code(self),
    {
        match self {
            HatState::Centered => 0,
            HatState::Up => 1,
            HatState::Right => 2,
            HatState::Down => 4,
            HatState::Left => 8,
            HatState::RightUp => 3,
            HatState::RightDown => 6,
            HatState::LeftUp => 9,
            HatState::LeftDown => 12,
        }
    }

    /// The position a native bitmask denotes; `None` for a mask outside the
    /// nine valid ones.
    pub fn try_from_code(code: u8) -> (r: Option<HatState>)
        ensures
            r == hat_for_code(code as int),
            r matches Some(h) ==> hat_code(h) == code as int,
    {
        match code {
            0 => Some(HatState::Centered),
            1 => Some(HatState::Up),
            2 => Some(HatState::Right),
            4 => Some(HatState::Down),
            8 => Some(HatState::Left),
            3 => Some(HatState::RightUp),
            6 => Some(HatState::RightDown),
            9 => Some(HatState::LeftUp),
            12 => Some(HatState::LeftDown),
            _ => None,
        }
    }
}

/// Decoding the bitmask of any hat position returns that position.
pub proof fn lemma_hat_round_trip(h: HatState)
    ensures
        hat_for_code(hat_code(h)) == Some(h),
{
}

/// The metadata snapshot that wraps an open native handle: the handle's
/// address and the instance id and axis/ball/button/hat counts the native
/// library reported at open time.
pub open spec fn joystick_snapshot(
    raw: usize,
    instance_id: i32,
    num_axes: i32,
    num_balls: i32,
    num_buttons: i32,
    num_hats: i32,
) -> Joystick {
    Joystick { raw, instance_id, num_axes, num_balls, num_buttons, num_hats }
}

/// An owned joystick handle: the address of the open native handle plus the
/// metadata snapshotted when it was opened.
///
/// The handle is released by `close`, which consumes the value, so no
/// accessor is reachable after close.
pub struct Joystick {
    /// Address of the open native handle; never 0 for a well-formed value.
    pub raw: usize,
    /// Identifier stable for this physical connection session.
    pub instance_id: i32,
    pub num_axes: i32,
    pub num_balls: i32,
    pub num_buttons: i32,
    pub num_hats: i32,
}

impl Joystick {
    /// A joystick wraps an open, non-null native handle.
    pub open spec fn wf(&self) -> bool {
        self.raw != 0
    }

    /// Wraps the outcome of a native open: a null handle (address 0) means
    /// the open failed and the last-error text is the failure; any other
    /// address is wrapped together with the metadata the native library
    /// reported for it.
    pub fn from_ll(
        raw: usize,
        instance_id: i32,
        num_axes: i32,
        num_balls: i32,
        num_buttons: i32,
        num_hats: i32,
        error: String,
    ) -> (r: SdlResult<Joystick>)
        ensures
            raw == 0 ==> r == Err::<Joystick, String>(error),
            raw != 0 ==> r == Ok::<Joystick, String>(
                joystick_snapshot(raw, instance_id, num_axes, num_balls, num_buttons, num_hats),
            ),
            raw != 0 ==> (r matches Ok(j) && j.wf()),
    {
        if raw == 0 {
            Err(error)
        } else {
            Ok(Joystick { raw, instance_id, num_axes, num_balls, num_buttons, num_hats })
        }
    }

    /// Wraps the outcome of the native name query: a missing name is the
    /// failure carrying the last-error text.
    pub fn name(&self, native_name: Option<String>, error: String) -> (r: SdlResult<String>)
        ensures
            native_name matches Some(n) ==> r == Ok::<String, String>(n),
            native_name is None ==> r == Err::<String, String>(error),
    {
        match native_name {
            Some(n) => Ok(n),
            None => Err(error),
        }
    }

    /// Decides an axis read.  The native call reports a failed read and a
    /// centered axis with the same zero sentinel; this wrapper resolves the
    /// ambiguity by the snapshotted axis count instead: an index within
    /// bounds succeeds with the value read (zero included), an index out of
    /// bounds is the failure carrying the last-error text.
    pub fn get_axis(&self, axis: i32, raw_value: i16, error: String) -> (r: SdlResult<i16>)
        ensures
            0 <= axis < self.num_axes ==> r == Ok::<i16, String>(raw_value),
            !(0 <= axis < self.num_axes) ==> r == Err::<i16, String>(error),
    {
        if 0 <= axis && axis < self.num_axes {
            Ok(raw_value)
        } else {
            Err(error)
        }
    }

    /// Decides a trackball read from the native status: a negative status
    /// is the failure carrying the last-error text, otherwise the relative
    /// motion pair is returned.
    pub fn get_ball(&self, ball: i32, status: i32, xrel: i32, yrel: i32, error: String) -> (r:
        SdlResult<(i32, i32)>)
        ensures
            status >= 0 ==> r == Ok::<(i32, i32), String>((xrel, yrel)),
            status < 0 ==> r == Err::<(i32, i32), String>(error),
    {
        if status < 0 {
            Err(error)
        } else {
            Ok((xrel, yrel))
        }
    }

    /// Releases the handle.  Consumes the value: after closing, no accessor
    /// of this joystick can be reached, which is the discipline the native
    /// library demands.
    pub fn close(self) {
    }
}

/// Decides the device count: the native enumeration reports failure as a
/// negative count; zero and above is a successful count (an empty host
/// enumerates to zero, not to a failure).
pub fn num_joysticks(count: i32, error: String) -> (r: SdlResult<i32>)
    ensures
        count >= 0 ==> r == Ok::<i32, String>(count),
        count < 0 ==> r == Err::<i32, String>(error),
{
    if count < 0 {
        Err(error)
    } else {
        Ok(count)
    }
}

/// Decides a name-by-index query: a missing name is the failure carrying
/// the last-error text.
pub fn name_for_index(native_name: Option<String>, error: String) -> (r: SdlResult<String>)
    ensures
        native_name matches Some(n) ==> r == Ok::<String, String>(n),
        native_name is None ==> r == Err::<String, String>(error),
{
    match native_name {
        Some(n) => Ok(n),
        None => Err(error),
    }
}

/// The all-zero GUID, which the native parser returns for malformed text.
pub fn zero_guid() -> (r: JoystickGUID)
    ensures
        r.wf(),
        r.data@ == Seq::new(16, |i: int| 0u8),
{
    let mut data: Vec<u8> = Vec::new();
    let mut i: usize = 0;
    while i < 16
        invariant
            i <= 16,
            data@ =~= Seq::new(i as nat, |j: int| 0u8),
        decreases 16 - i,
    {
        data.push(0u8);
        i += 1;
    }
    proof {
        assert(data@ =~= Seq::new(16, |i: int| 0u8));
    }
    SDL_JoystickGUID { data }
}

/// The textual form of a GUID: 32 lower-case hex digits, two per byte, high
/// nibble first.  Always succeeds; the option mirrors the shape of the
/// native renderer, which can refuse a too-small buffer.
pub fn get_guid_string(guid: JoystickGUID) -> (r: Option<String>)
    requires
        guid.wf(),
    ensures
        r matches Some(s) && s@ == hex_of_bytes(guid.data@),
{
    let ghost t = hex_of_bytes(guid.data@);
    let mut s = String::new();
    let mut i: usize = 0;
    while i < 16
        invariant
            guid.wf(),
            i <= 16,
            t == hex_of_bytes(guid.data@),
            s@ =~= t.subrange(0, 2 * i),
        decreases 16 - i,
    {
        let b = guid.data[i];
        s.append(nibble_str(b / 16));
        s.append(nibble_str(b % 16));
        proof {
            assert(t[2 * i] == nibble_char(guid.data@[i as int] as int / 16));
            assert(t[2 * i + 1] == nibble_char(guid.data@[i as int] as int % 16));
            assert(s@ =~= t.subrange(0, 2 * (i + 1)));
        }
        i += 1;
    }
    proof {
        assert(s@ =~= t);
    }
    Some(s)
}

/// The GUID a text denotes.  Exactly 32 hex digits (either letter case)
/// give the spelled-out bytes; any other text gives the all-zero GUID, as
/// the native parser does.
pub fn get_guid_from_string(pch_guid: &str) -> (r: JoystickGUID)
    ensures
        r.wf(),
        is_guid_text(pch_guid@) ==> r.data@ == bytes_of_hex(pch_guid@),
        !is_guid_text(pch_guid@) ==> r.data@ == Seq::new(16, |i: int| 0u8),
{
    let len = pch_guid.unicode_len();
    if len != 32 {
        return zero_guid();
    }
    let mut data: Vec<u8> = Vec::new();
    let mut i: usize = 0;
    while i < 16
        invariant
            i <= 16,
            pch_guid@.len() == 32,
            forall|j: int| 0 <= j < 2 * i ==> crate::guid::is_hex_char(#[trigger] pch_guid@[j]),
            data@ =~= bytes_of_hex(pch_guid@).subrange(0, i as int),
        decreases 16 - i,
    {
        let hi = read_hex_digit(pch_guid.get_char(2 * i));
        let lo = read_hex_digit(pch_guid.get_char(2 * i + 1));
        if hi < 0 || lo < 0 {
            return zero_guid();
        }
        data.push((hi * 16 + lo) as u8);
        proof {
            assert(data@ =~= bytes_of_hex(pch_guid@).subrange(0, i + 1));
        }
        i += 1;
    }
    proof {
        assert(data@ =~= bytes_of_hex(pch_guid@));
    }
    SDL_JoystickGUID { data }
}

} // verus!
