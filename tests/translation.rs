use xsimulate::{
    button_index, char_keysym, char_plan, native_coord, simulate_unicode, translate, Button,
    Coordinate, EventType, Key, NativeCall, Plan, RawKey, SimulateError, INJECTION_KEYCODE,
};

fn calls_of(p: &Plan) -> Vec<NativeCall> {
    let mut out = Vec::new();
    let mut i: u128 = 0;
    while i < p.len() {
        out.push(p.call_at(i));
        i += 1;
    }
    out
}

fn button(button: u32, pressed: bool) -> NativeCall {
    NativeCall::Button { button, pressed }
}

#[test]
fn raw_linux_key_press_and_release() {
    let k = Key::RawKey(RawKey::LinuxXorgKeycode(38));
    assert_eq!(
        translate(&EventType::KeyPress(k), None),
        Ok(Plan::Single(NativeCall::Key { keycode: 38, pressed: true }))
    );
    assert_eq!(
        translate(&EventType::KeyRelease(k), Some(99)),
        Ok(Plan::Single(NativeCall::Key { keycode: 38, pressed: false }))
    );
}

#[test]
fn raw_key_of_another_platform_is_refused() {
    let expected = Err(SimulateError::InvalidRawKey { expected: "Linux".to_string(), got: None });
    for raw in [
        RawKey::ScanCode(1),
        RawKey::WinVirtualKeycode(0x41),
        RawKey::LinuxConsoleKeycode(30),
        RawKey::MacVirtualKeycode(0),
    ] {
        assert_eq!(translate(&EventType::KeyPress(Key::RawKey(raw)), Some(5)), expected);
        assert_eq!(translate(&EventType::KeyRelease(Key::RawKey(raw)), None), expected);
    }
}

#[test]
fn symbolic_key_uses_resolved_code() {
    assert_eq!(
        translate(&EventType::KeyPress(Key::Symbol(7)), Some(24)),
        Ok(Plan::Single(NativeCall::Key { keycode: 24, pressed: true }))
    );
    assert_eq!(
        translate(&EventType::KeyRelease(Key::Symbol(7)), Some(24)),
        Ok(Plan::Single(NativeCall::Key { keycode: 24, pressed: false }))
    );
}

#[test]
fn unresolved_symbolic_key_has_no_code() {
    assert_eq!(translate(&EventType::KeyPress(Key::Symbol(7)), None), Err(SimulateError::NoCode));
    assert_eq!(translate(&EventType::KeyRelease(Key::Symbol(7)), None), Err(SimulateError::NoCode));
}

#[test]
fn fixed_button_indices() {
    assert_eq!(button_index(Button::Left), 1);
    assert_eq!(button_index(Button::Middle), 2);
    assert_eq!(button_index(Button::Right), 3);
    assert_eq!(
        translate(&EventType::ButtonRelease(Button::Right), None),
        Ok(Plan::Single(button(3, false)))
    );
}

#[test]
fn unknown_button_250_press() {
    assert_eq!(
        translate(&EventType::ButtonPress(Button::Unknown(250)), None),
        Ok(Plan::Single(button(250, true)))
    );
}

#[test]
fn move_within_range_keeps_coordinates() {
    let e = EventType::MouseMove { x: Coordinate::Rounded(100), y: Coordinate::Rounded(-3) };
    let p = translate(&e, None).unwrap();
    assert_eq!(calls_of(&p), vec![NativeCall::Motion { x: 100, y: -3 }]);
}

#[test]
fn move_is_clamped_to_native_range() {
    assert_eq!(native_coord(Coordinate::Rounded(i64::MAX)), i32::MAX);
    assert_eq!(native_coord(Coordinate::Rounded(i64::MIN)), i32::MIN);
    assert_eq!(native_coord(Coordinate::Rounded(i32::MAX as i64 + 1)), i32::MAX);
    assert_eq!(native_coord(Coordinate::Rounded(i32::MIN as i64)), i32::MIN);
}

#[test]
fn non_finite_coordinates_become_zero() {
    let e = EventType::MouseMove { x: Coordinate::NonFinite, y: Coordinate::Rounded(50) };
    assert_eq!(calls_of(&translate(&e, None).unwrap()), vec![NativeCall::Motion { x: 0, y: 50 }]);
    let e = EventType::MouseMove { x: Coordinate::Rounded(-7), y: Coordinate::NonFinite };
    assert_eq!(calls_of(&translate(&e, None).unwrap()), vec![NativeCall::Motion { x: -7, y: 0 }]);
}

#[test]
fn wheel_expands_into_pairs() {
    let p = translate(&EventType::Wheel { delta_x: 2, delta_y: -1 }, None).unwrap();
    assert_eq!(p.len(), 6);
    assert_eq!(
        calls_of(&p),
        vec![
            button(7, true),
            button(7, false),
            button(7, true),
            button(7, false),
            button(5, true),
            button(5, false),
        ]
    );
    let p = translate(&EventType::Wheel { delta_x: -1, delta_y: 3 }, None).unwrap();
    assert_eq!(
        calls_of(&p),
        vec![
            button(6, true),
            button(6, false),
            button(4, true),
            button(4, false),
            button(4, true),
            button(4, false),
            button(4, true),
            button(4, false),
        ]
    );
}

#[test]
fn wheel_zero_axis_makes_no_call() {
    let p = translate(&EventType::Wheel { delta_x: 0, delta_y: 0 }, None).unwrap();
    assert_eq!(p.len(), 0);
    let p = translate(&EventType::Wheel { delta_x: 0, delta_y: 2 }, None).unwrap();
    assert_eq!(calls_of(&p), vec![button(4, true), button(4, false), button(4, true), button(4, false)]);
}

#[test]
fn wheel_extreme_amounts() {
    let p = translate(&EventType::Wheel { delta_x: i64::MIN, delta_y: i64::MAX }, None).unwrap();
    assert_eq!(p.len(), 2 * ((1u128 << 63) + (i64::MAX as u128)));
    assert_eq!(p.call_at(0), button(6, true));
    assert_eq!(p.call_at(1u128 << 64), button(4, true));
    assert_eq!(p.call_at(p.len() - 1), button(4, false));
}

#[test]
fn keysym_of_legacy_and_unicode_characters() {
    assert_eq!(char_keysym('A'), 0x41);
    assert_eq!(char_keysym('\u{ff}'), 0xff);
    assert_eq!(char_keysym('\u{100}'), 0x0100_0100);
    assert_eq!(char_keysym('\u{1F600}'), 0x1F600 | 0x0100_0000);
}

#[test]
fn char_injection_remaps_then_presses() {
    let p = char_plan('\u{1F600}', true);
    assert_eq!(
        calls_of(&p),
        vec![
            NativeCall::Remap { keycode: INJECTION_KEYCODE, keysym: 0x0101_F600 },
            NativeCall::Key { keycode: 194, pressed: true },
        ]
    );
    let p = char_plan('a', false);
    assert_eq!(
        calls_of(&p),
        vec![NativeCall::Remap { keycode: 194, keysym: 0x61 }, NativeCall::Key { keycode: 194, pressed: false }]
    );
}

#[test]
fn unicode_entry_point_always_fails() {
    assert_eq!(simulate_unicode(0), Err(SimulateError::SendInput));
    assert_eq!(simulate_unicode(0x41), Err(SimulateError::SendInput));
    assert_eq!(simulate_unicode(u16::MAX), Err(SimulateError::SendInput));
}
