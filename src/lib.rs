//! Translation of platform-neutral input events into synthetic X11 input
//! calls, and the connection discipline around each dispatch.
//!
//! The library never touches the display server itself: it decides which
//! native calls to make and in what order, and a driver outside it performs
//! them and hands the results back.
use vstd::prelude::*;

pub mod dispatch;
pub mod event;
pub mod laws;
pub mod plan;


pub use dispatch::{simulate_unicode, Action, Dispatch, Phase, Reply};
pub use event::{Button, Coordinate, EventType, Key, RawKey, SimulateError};
pub use plan::{
    button_index, char_keysym, char_plan, native_coord, translate, NativeCall, Plan,
    INJECTION_KEYCODE,
};

verus! {

} // verus!
