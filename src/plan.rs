//! From an abstract event to the native calls that synthesize it.
use crate::event::{invalid_raw_key, wrong_platform, Button, Coordinate, EventType, Key, RawKey, SimulateError};
use vstd::prelude::*;

verus! {

/// The keycode that character injection remaps: a function-key slot that no
/// keyboard layout is expected to use.
pub const INJECTION_KEYCODE: u32 = 194;

/// Legacy symbolic codes cover the code points below this bound.
pub const LEGACY_KEYSYM_LIMIT: u32 = 0x100;

/// The flag that marks a symbolic code as a Unicode code point.
pub const UNICODE_KEYSYM_FLAG: u32 = 0x0100_0000;

/// One primitive call of the display server's test extension.
#[derive(Clone, Copy, Debug, PartialEq, Eq, Structural)]
pub enum NativeCall {
    /// A key event on a native keycode, with no delay.
    Key { keycode: u32, pressed: bool },
    /// A button event on a native button index, with no delay.
    Button { button: u32, pressed: bool },
    /// An absolute pointer motion on screen 0, with no delay.
    Motion { x: i32, y: i32 },
    /// Binds one keycode to one symbolic code in the keyboard mapping.
    Remap { keycode: u32, keysym: u64 },
}

/// The calls of one dispatch, in order, and how their statuses combine.
#[derive(Clone, Copy, Debug, PartialEq, Eq, Structural)]
pub enum Plan {
    /// One call; its status is the result.
    Single(NativeCall),
    /// `x_pairs` press/release pairs on `x_button`, then `y_pairs` pairs on
    /// `y_button`; every status counts, on top of a starting value of 1.
    Wheel { x_button: u32, x_pairs: u64, y_button: u32, y_pairs: u64 },
    /// A remap of `keycode` to `keysym`, whose status is ignored, then one key
    /// event on `keycode`, whose status is the result.
    Remapped { keycode: u32, keysym: u64, pressed: bool },
}

impl Plan {
    /// The number of calls.
    pub open spec fn count(self) -> nat {
        match self {
            Plan::Single(_) => 1,
            Plan::Wheel { x_pairs, y_pairs, .. } => 2 * (x_pairs + y_pairs) as nat,
            Plan::Remapped { .. } => 2,
        }
    }

    /// The call at position `i`.
    pub open spec fn call(self, i: int) -> NativeCall {
        match self {
            Plan::Single(c) => c,
            Plan::Wheel { x_button, x_pairs, y_button, .. } => {
                if i < 2 * x_pairs {
                    NativeCall::Button { button: x_button, pressed: i % 2 == 0 }
                } else {
                    NativeCall::Button { button: y_button, pressed: (i - 2 * x_pairs) % 2 == 0 }
                }
            },
            Plan::Remapped { keycode, keysym, pressed } => {
                if i == 0 {
                    NativeCall::Remap { keycode, keysym }
                } else {
                    NativeCall::Key { keycode, pressed }
                }
            },
        }
    }

    /// All calls, in order.
    pub open spec fn calls(self) -> Seq<NativeCall> {
        Seq::new(self.count(), |i: int| self.call(i))
    }

    /// Whether the status of the call at position `i` enters the result.
    pub open spec fn reports(self, i: int) -> bool {
        !(self is Remapped && i == 0)
    }

    /// The value that statuses are combined into: 1 for a wheel, all bits set
    /// (so that a lone status stands as it is) otherwise.
    pub open spec fn seed(self) -> i32 {
        if self is Wheel {
            1
        } else {
            -1i32
        }
    }

    /// The bitwise AND of the seed and of the statuses that count, for the
    /// statuses of the first `st.len()` calls.
    pub open spec fn combined(self, st: Seq<i32>) -> i32
        decreases st.len(),
    {
        if st.len() == 0 {
            self.seed()
        } else {
            let acc = self.combined(st.drop_last());
            if self.reports(st.len() - 1) {
                acc & st.last()
            } else {
                acc
            }
        }
    }

    /// The number of calls.
    pub fn len(&self) -> (n: u128)
        ensures
            n == self.count(),
    {
        match self {
            Plan::Single(_) => 1,
            Plan::Wheel { x_pairs, y_pairs, .. } => 2 * (*x_pairs as u128 + *y_pairs as u128),
            Plan::Remapped { .. } => 2,
        }
    }

    /// The call at position `i`.
    pub fn call_at(&self, i: u128) -> (c: NativeCall)
        requires
            i < self.count(),
        ensures
            c == self.call(i as int),
    {
        match self {
            Plan::Single(c) => *c,
            Plan::Wheel { x_button, x_pairs, y_button, .. } => {
                let xs: u128 = 2 * (*x_pairs as u128);
                if i < xs {
                    NativeCall::Button { button: *x_button, pressed: i % 2 == 0 }
                } else {
                    NativeCall::Button { button: *y_button, pressed: (i - xs) % 2 == 0 }
                }
            },
            Plan::Remapped { keycode, keysym, pressed } => {
                if i == 0 {
                    NativeCall::Remap { keycode: *keycode, keysym: *keysym }
                } else {
                    NativeCall::Key { keycode: *keycode, pressed: *pressed }
                }
            },
        }
    }

    /// Whether the status of the call at position `i` enters the result.
    pub fn status_counts(&self, i: u128) -> (b: bool)
        ensures
            b == self.reports(i as int),
    {
        match self {
            Plan::Remapped { .. } => i != 0,
            _ => true,
        }
    }

    /// The value that statuses are combined into.
    pub fn start_status(&self) -> (s: i32)
        ensures
            s == self.seed(),
    {
        match self {
            Plan::Wheel { .. } => 1,
            _ => -1,
        }
    }
}

/// The native button index of a button.
pub open spec fn button_code(b: Button) -> u32 {
    match b {
        Button::Left => 1,
        Button::Middle => 2,
        Button::Right => 3,
        Button::Unknown(code) => code as u32,
    }
}

/// The native button index of a button: 1, 2, 3 for left, middle, right; an
/// unknown button's own code.
pub fn button_index(b: Button) -> (r: u32)
    ensures
        r == button_code(b),
{
    match b {
        Button::Left => 1,
        Button::Middle => 2,
        Button::Right => 3,
        Button::Unknown(code) => code as u32,
    }
}

/// The native coordinate: 0 for a value that is not finite, else the rounded
/// value clamped into the range of `i32`.
pub open spec fn coord_value(c: Coordinate) -> i32 {
    match c {
        Coordinate::NonFinite => 0,
        Coordinate::Rounded(v) => {
            if v < i32::MIN {
                i32::MIN
            } else if v > i32::MAX {
                i32::MAX
            } else {
                v as i32
            }
        },
    }
}

/// The native coordinate of a pointer coordinate.
pub fn native_coord(c: Coordinate) -> (r: i32)
    ensures
        r == coord_value(c),
        c is NonFinite ==> r == 0,
        c is Rounded && i32::MIN <= c->Rounded_0 <= i32::MAX ==> r == c->Rounded_0,
{
    match c {
        Coordinate::NonFinite => 0,
        Coordinate::Rounded(v) => {
            if v < i32::MIN as i64 {
                i32::MIN
            } else if v > i32::MAX as i64 {
                i32::MAX
            } else {
                v as i32
            }
        },
    }
}

/// The absolute value of a scroll amount.
pub open spec fn magnitude(d: i64) -> nat {
    if d < 0 {
        (-d) as nat
    } else {
        d as nat
    }
}

fn abs_u64(d: i64) -> (r: u64)
    ensures
        r == magnitude(d),
{
    if d < 0 {
        (-(d as i128)) as u64
    } else {
        d as u64
    }
}

/// The horizontal scroll button: 7 to the right, 6 otherwise.
pub open spec fn horizontal_button(dx: i64) -> u32 {
    if dx > 0 {
        7
    } else {
        6
    }
}

/// The vertical scroll button: 4 for a positive amount, 5 otherwise.
pub open spec fn vertical_button(dy: i64) -> u32 {
    if dy > 0 {
        4
    } else {
        5
    }
}

/// The symbolic code of a character: the code point itself below 0x100,
/// else the code point with the Unicode flag set.
pub open spec fn keysym_of(c: char) -> u64 {
    let cp = c as u32;
    if cp < LEGACY_KEYSYM_LIMIT {
        cp as u64
    } else {
        (cp | UNICODE_KEYSYM_FLAG) as u64
    }
}

/// The symbolic code of a character.
pub fn char_keysym(c: char) -> (r: u64)
    ensures
        r == keysym_of(c),
{
    let cp = c as u32;
    if cp < LEGACY_KEYSYM_LIMIT {
        cp as u64
    } else {
        (cp | UNICODE_KEYSYM_FLAG) as u64
    }
}

/// The calls that inject a character: remap the injection keycode to the
/// character's symbolic code, then press or release that keycode. The remap
/// is global to the display session and outlasts the dispatch: the keycode
/// keeps meaning the last injected character.
pub fn char_plan(c: char, pressed: bool) -> (p: Plan)
    ensures
        p == (Plan::Remapped { keycode: INJECTION_KEYCODE, keysym: keysym_of(c), pressed }),
{
    Plan::Remapped { keycode: INJECTION_KEYCODE, keysym: char_keysym(c), pressed }
}

/// Whether a key event carries a raw keycode of another platform.
pub open spec fn foreign_raw_key(e: EventType) -> bool {
    match e {
        EventType::KeyPress(Key::RawKey(r)) | EventType::KeyRelease(Key::RawKey(r)) => !(
        r is LinuxXorgKeycode),
        _ => false,
    }
}

/// Whether a key event carries a symbolic key that the key table left
/// unresolved.
pub open spec fn unresolved_key(e: EventType, resolved: Option<u32>) -> bool {
    match e {
        EventType::KeyPress(Key::Symbol(_)) | EventType::KeyRelease(Key::Symbol(_)) => resolved
            is None,
        _ => false,
    }
}

/// The native keycode of a key, where it has one.
pub open spec fn keycode_of(k: Key, resolved: Option<u32>) -> u32 {
    match k {
        Key::RawKey(RawKey::LinuxXorgKeycode(code)) => code,
        Key::RawKey(_) => 0,
        Key::Symbol(_) => resolved.unwrap(),
    }
}

/// The calls that synthesize an event that translates.
pub open spec fn plan_of(e: EventType, resolved: Option<u32>) -> Plan {
    match e {
        EventType::KeyPress(k) => Plan::Single(
            NativeCall::Key { keycode: keycode_of(k, resolved), pressed: true },
        ),
        EventType::KeyRelease(k) => Plan::Single(
            NativeCall::Key { keycode: keycode_of(k, resolved), pressed: false },
        ),
        EventType::ButtonPress(b) => Plan::Single(
            NativeCall::Button { button: button_code(b), pressed: true },
        ),
        EventType::ButtonRelease(b) => Plan::Single(
            NativeCall::Button { button: button_code(b), pressed: false },
        ),
        EventType::MouseMove { x, y } => Plan::Single(
            NativeCall::Motion { x: coord_value(x), y: coord_value(y) },
        ),
        EventType::Wheel { delta_x, delta_y } => Plan::Wheel {
            x_button: horizontal_button(delta_x),
            x_pairs: magnitude(delta_x) as u64,
            y_button: vertical_button(delta_y),
            y_pairs: magnitude(delta_y) as u64,
        },
    }
}

fn key_plan(k: Key, resolved: Option<u32>, pressed: bool) -> (r: Result<Plan, SimulateError>)
    ensures
        k is RawKey && !(k->RawKey_0 is LinuxXorgKeycode) ==> (r matches Err(e) && wrong_platform(e)),
        k is Symbol && resolved is None ==> r == Err::<Plan, SimulateError>(SimulateError::NoCode),
        k is RawKey && k->RawKey_0 is LinuxXorgKeycode || k is Symbol && resolved is Some ==> r == Ok::<Plan, SimulateError>(
            Plan::Single(NativeCall::Key { keycode: keycode_of(k, resolved), pressed }),
        ),
{
    let keycode = match k {
        Key::RawKey(RawKey::LinuxXorgKeycode(code)) => code,
        Key::RawKey(_) => {
            return Err(invalid_raw_key());
        },
        Key::Symbol(_) => match resolved {
            Some(code) => code,
            None => {
                return Err(SimulateError::NoCode);
            },
        },
    };
    Ok(Plan::Single(NativeCall::Key { keycode, pressed }))
}

/// Translates an event into the calls that synthesize it. `resolved` is what
/// the key table gave for the event's symbolic key; other events ignore it.
/// A raw keycode of another platform and an unresolved symbolic key are
/// refused before any call is planned.
pub fn translate(event: &EventType, resolved: Option<u32>) -> (r: Result<Plan, SimulateError>)
    ensures
        foreign_raw_key(*event) ==> (r matches Err(e) && wrong_platform(e)),
        unresolved_key(*event, resolved) ==> r == Err::<Plan, SimulateError>(
            SimulateError::NoCode,
        ),
        !foreign_raw_key(*event) && !unresolved_key(*event, resolved) ==> r == Ok::<
            Plan,
            SimulateError,
        >(plan_of(*event, resolved)),
{
    match event {
        EventType::KeyPress(k) => key_plan(*k, resolved, true),
        EventType::KeyRelease(k) => key_plan(*k, resolved, false),
        EventType::ButtonPress(b) => Ok(
            Plan::Single(NativeCall::Button { button: button_index(*b), pressed: true }),
        ),
        EventType::ButtonRelease(b) => Ok(
            Plan::Single(NativeCall::Button { button: button_index(*b), pressed: false }),
        ),
        EventType::MouseMove { x, y } => Ok(
            Plan::Single(NativeCall::Motion { x: native_coord(*x), y: native_coord(*y) }),
        ),
        EventType::Wheel { delta_x, delta_y } => {
            let x_button: u32 = if *delta_x > 0 {
                7
            } else {
                6
            };
            let y_button: u32 = if *delta_y > 0 {
                4
            } else {
                5
            };
            Ok(
                Plan::Wheel {
                    x_button,
                    x_pairs: abs_u64(*delta_x),
                    y_button,
                    y_pairs: abs_u64(*delta_y),
                },
            )
        },
    }
}

} // verus!
