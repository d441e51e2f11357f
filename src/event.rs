//! The abstract events that callers describe, and the errors of a dispatch.
use vstd::prelude::*;
use vstd::string::*;

verus! {

/// A keycode tagged with the platform it is valid for.
#[derive(Clone, Copy, Debug, PartialEq, Eq, Structural)]
pub enum RawKey {
    ScanCode(u32),
    WinVirtualKeycode(u32),
    LinuxXorgKeycode(u32),
    LinuxConsoleKeycode(u32),
    MacVirtualKeycode(u32),
}

/// A key, either symbolic (resolved through the caller's key table) or raw.
#[derive(Clone, Copy, Debug, PartialEq, Eq, Structural)]
pub enum Key {
    /// A symbolic key identifier; the key table maps it to a native keycode.
    Symbol(u32),
    RawKey(RawKey),
}

/// A mouse button.
#[derive(Clone, Copy, Debug, PartialEq, Eq, Structural)]
pub enum Button {
    Left,
    Middle,
    Right,
    Unknown(u8),
}

/// One pointer coordinate as the caller's floating-point value classifies it:
/// not finite, or finite and rounded to the nearest integer (saturated to the
/// range of `i64`).
#[derive(Clone, Copy, Debug, PartialEq, Eq, Structural)]
pub enum Coordinate {
    NonFinite,
    Rounded(i64),
}

/// An abstract input event.
#[derive(Clone, Copy, Debug, PartialEq, Eq, Structural)]
pub enum EventType {
    KeyPress(Key),
    KeyRelease(Key),
    ButtonPress(Button),
    ButtonRelease(Button),
    /// An absolute pointer position: the pointer is moved there, not by
    /// this much.
    MouseMove { x: Coordinate, y: Coordinate },
    /// Scroll amounts: horizontal, then vertical.
    Wheel { delta_x: i64, delta_y: i64 },
}

/// Why a dispatch failed.
#[derive(Clone, Debug, PartialEq, Eq)]
pub enum SimulateError {
    /// No connection to the display server could be opened.
    NoDisplay,
    /// A symbolic key has no native keycode.
    NoCode,
    /// A raw keycode of another platform was given.
    InvalidRawKey { expected: String, got: Option<String> },
    /// A native call reported failure, or the operation is not available.
    SendInput,
}

/// The platform name that `InvalidRawKey` reports as expected.
pub open spec fn platform_name() -> Seq<char> {
    "Linux"@
}

/// Whether an error is the one for a raw keycode of another platform: it
/// names this platform as expected and nothing as given.
pub open spec fn wrong_platform(e: SimulateError) -> bool {
    e matches SimulateError::InvalidRawKey { expected, got } && expected@ == platform_name()
        && got is None
}

/// The error for a raw keycode of another platform.
pub fn invalid_raw_key() -> (e: SimulateError)
    ensures
        wrong_platform(e),
{
    SimulateError::InvalidRawKey { expected: String::from_str("Linux"), got: None }
}

/// A copy of an error, equal to it.
pub fn copy_error(e: &SimulateError) -> (r: SimulateError)
    ensures
        r == *e,
{
    match e {
        SimulateError::NoDisplay => SimulateError::NoDisplay,
        SimulateError::NoCode => SimulateError::NoCode,
        SimulateError::InvalidRawKey { expected, got } => {
            let g = match got {
                Some(s) => Some(s.clone()),
                None => None,
            };
            SimulateError::InvalidRawKey { expected: expected.clone(), got: g }
        },
        SimulateError::SendInput => SimulateError::SendInput,
    }
}

} // verus!
