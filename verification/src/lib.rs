//! Safe, verified core of a binding layer over a native joystick and
//! game-controller subsystem.
//!
//! The native library does all device discovery, HID parsing and event
//! generation; this crate holds the logic that a binding adds on top of it:
//! translating integer codes to symbolic enum variants, converting device
//! GUIDs to and from their textual hex form, turning null or negative native
//! results into typed errors, and snapshotting device metadata into owning
//! handle types whose accessors are bounds-checked.  The thin layer that
//! actually crosses the C call boundary lives outside this crate and hands
//! every native result to the functions here as plain values.

use vstd::prelude::*;

pub mod controller;
pub mod event;
pub mod guid;
pub mod joystick;

verus! {

/// Result type of every fallible operation: the error payload is the native
/// library's last-error string, fetched right after the failing call.
pub type SdlResult<T> = Result<T, String>;

/// Decodes the native boolean convention, under which attachment and
/// capability queries report any nonzero value as true.
pub fn sdl_bool(value: i32) -> (r: bool)
    ensures
        r == (value != 0),
{
    value != 0
}

} // verus!
