//! Raw events of a Linux input device, and the five keys of the joystick.
//!
//! The device reports every state change of every key as a record of type,
//! code and value. Only the transition to "pressed" of the four arrows and of
//! Enter means anything to the joystick; the rest is dropped here.

use vstd::prelude::*;

verus! {

/// Event type of key and button state changes.
pub const EV_KEY: u16 = 1;

/// Value of a key event that reports the transition to pressed.
pub const PRESSED: i32 = 1;

/// Code of the Enter key, the joystick's centre button.
pub const KEY_ENTER: u16 = 28;

/// Code of the up arrow.
pub const KEY_UP: u16 = 103;

/// Code of the left arrow.
pub const KEY_LEFT: u16 = 105;

/// Code of the right arrow.
pub const KEY_RIGHT: u16 = 106;

/// Code of the down arrow.
pub const KEY_DOWN: u16 = 108;

/// One record read from the input device, without its timestamp.
#[derive(Clone, Copy, Debug, PartialEq, Eq, Structural)]
pub struct RawEvent {
    /// The event type: key, relative axis, synchronisation and so on.
    pub kind: u16,
    /// Which key or axis, within the type.
    pub code: u16,
    /// For a key: 0 released, 1 pressed, 2 repeated.
    pub value: i32,
}

/// A direction in which the stick can be pushed.
#[derive(Clone, Copy, Debug, PartialEq, Eq, Structural)]
pub enum Direction {
    Up,
    Down,
    Left,
    Right,
}

/// One of the five keys that the joystick presents.
#[derive(Clone, Copy, Debug, PartialEq, Eq, Structural)]
pub enum Key {
    /// The stick pushed in a direction.
    Arrow(Direction),
    /// The stick pressed down.
    Enter,
}

/// The joystick key with a given key code, if there is one.
pub open spec fn key_with_code(code: u16) -> Option<Key> {
    if code == KEY_UP {
        Some(Key::Arrow(Direction::Up))
    } else if code == KEY_DOWN {
        Some(Key::Arrow(Direction::Down))
    } else if code == KEY_LEFT {
        Some(Key::Arrow(Direction::Left))
    } else if code == KEY_RIGHT {
        Some(Key::Arrow(Direction::Right))
    } else if code == KEY_ENTER {
        Some(Key::Enter)
    } else {
        None
    }
}

/// The joystick key whose press a raw event reports. Releases, repeats,
/// events of other types and other keys report none.
pub open spec fn pressed_key(ev: RawEvent) -> Option<Key> {
    if ev.kind == EV_KEY && ev.value == PRESSED {
        key_with_code(ev.code)
    } else {
        None
    }
}

/// Has evdev summarise an event: `evdev::InputEvent::new`, then
/// `destructure` on the result. Taken on trust: evdev summarises an event as
/// `EventSummary::Key` exactly when its type is `EV_KEY`, and hands the code
/// and the value through unchanged.
#[verifier::external_body]
fn key_event(kind: u16, code: u16, value: i32) -> (key: Option<(u16, i32)>)
    ensures
        key == (if kind == EV_KEY {
            Some((code, value))
        } else {
            None
        }),
{
    match evdev::InputEvent::new(kind, code, value).destructure() {
        evdev::EventSummary::Key(_, key, state) => Some((key.code(), state)),
        _ => None,
    }
}

/// `evdev::KeyCode::code` of `KEY_UP`. Taken on trust: evdev numbers the
/// up arrow 103.
#[verifier::external_body]
fn code_up() -> (code: u16)
    ensures
        code == KEY_UP,
{
    evdev::KeyCode::KEY_UP.code()
}

/// `evdev::KeyCode::code` of `KEY_DOWN`. Taken on trust: evdev numbers the
/// down arrow 108.
#[verifier::external_body]
fn code_down() -> (code: u16)
    ensures
        code == KEY_DOWN,
{
    evdev::KeyCode::KEY_DOWN.code()
}

/// `evdev::KeyCode::code` of `KEY_LEFT`. Taken on trust: evdev numbers the
/// left arrow 105.
#[verifier::external_body]
fn code_left() -> (code: u16)
    ensures
        code == KEY_LEFT,
{
    evdev::KeyCode::KEY_LEFT.code()
}

/// `evdev::KeyCode::code` of `KEY_RIGHT`. Taken on trust: evdev numbers the
/// right arrow 106.
#[verifier::external_body]
fn code_right() -> (code: u16)
    ensures
        code == KEY_RIGHT,
{
    evdev::KeyCode::KEY_RIGHT.code()
}

/// `evdev::KeyCode::code` of `KEY_ENTER`. Taken on trust: evdev numbers the
/// Enter key 28.
#[verifier::external_body]
fn code_enter() -> (code: u16)
    ensures
        code == KEY_ENTER,
{
    evdev::KeyCode::KEY_ENTER.code()
}

/// Looks a key code up among the joystick's five.
pub fn key_for_code(code: u16) -> (key: Option<Key>)
    ensures
        key == key_with_code(code),
{
    if code == code_up() {
        Some(Key::Arrow(Direction::Up))
    } else if code == code_down() {
        Some(Key::Arrow(Direction::Down))
    } else if code == code_left() {
        Some(Key::Arrow(Direction::Left))
    } else if code == code_right() {
        Some(Key::Arrow(Direction::Right))
    } else if code == code_enter() {
        Some(Key::Enter)
    } else {
        None
    }
}

/// Tells which joystick key a raw event presses, if any.
pub fn classify(ev: RawEvent) -> (key: Option<Key>)
    ensures
        key == pressed_key(ev),
{
    match key_event(ev.kind, ev.code, ev.value) {
        Some((code, state)) => {
            if state == PRESSED {
                key_for_code(code)
            } else {
                None
            }
        },
        None => None,
    }
}

/// The code under which the device reports a joystick key.
pub open spec fn code_of(key: Key) -> u16 {
    match key {
        Key::Arrow(Direction::Up) => KEY_UP,
        Key::Arrow(Direction::Down) => KEY_DOWN,
        Key::Arrow(Direction::Left) => KEY_LEFT,
        Key::Arrow(Direction::Right) => KEY_RIGHT,
        Key::Enter => KEY_ENTER,
    }
}

/// The raw event by which the device reports the press of a joystick key.
pub open spec fn press_of(key: Key) -> RawEvent {
    RawEvent { kind: EV_KEY, code: code_of(key), value: PRESSED }
}

/// The press of each of the five keys is recognised as that key.
pub proof fn lemma_press_is_recognised(key: Key)
    ensures
        pressed_key(press_of(key)) == Some(key),
{
}

/// A raw event is recognised only if it is the press of one of the five keys.
pub proof fn lemma_recognised_is_press(ev: RawEvent)
    ensures
        pressed_key(ev) matches Some(key) ==> ev == press_of(key),
{
}

} // verus!
