//! The abstract event model: the shared vocabulary that the translator,
//! the synthesizer and the capture loop all speak.

use vstd::prelude::*;

verus! {

/// A logical keyboard key, independent of any platform encoding.
///
/// The enumeration is closed: every native code that does not correspond to
/// one of the named keys is carried through as `Unknown`, so that translation
/// stays total and a capture loop never fails on an unexpected code.
#[derive(Clone, Copy, Debug, PartialEq, Eq, Structural)]
pub enum Key {
    Alt,
    AltGr,
    Backspace,
    CapsLock,
    ControlLeft,
    ControlRight,
    Delete,
    DownArrow,
    End,
    Escape,
    F1,
    F2,
    F3,
    F4,
    F5,
    F6,
    F7,
    F8,
    F9,
    F10,
    F11,
    F12,
    Home,
    Insert,
    LeftArrow,
    MetaLeft,
    MetaRight,
    PageDown,
    PageUp,
    Return,
    RightArrow,
    ShiftLeft,
    ShiftRight,
    Space,
    Tab,
    UpArrow,
    KeyA,
    KeyB,
    KeyC,
    KeyD,
    KeyE,
    KeyF,
    KeyG,
    KeyH,
    KeyI,
    KeyJ,
    KeyK,
    KeyL,
    KeyM,
    KeyN,
    KeyO,
    KeyP,
    KeyQ,
    KeyR,
    KeyS,
    KeyT,
    KeyU,
    KeyV,
    KeyW,
    KeyX,
    KeyY,
    KeyZ,
    Num0,
    Num1,
    Num2,
    Num3,
    Num4,
    Num5,
    Num6,
    Num7,
    Num8,
    Num9,
    /// A key whose native virtual code has no named counterpart; the code is
    /// carried so the key can still be re-injected or compared.
    Unknown(u32),
}

/// A mouse button.  `Unknown` carries the platform's numeric extension for
/// side or extra buttons.
#[derive(Clone, Copy, Debug, PartialEq, Eq, Structural)]
pub enum Button {
    Left,
    Middle,
    Right,
    Unknown(u8),
}

/// The kind of input activity an [`Event`] describes, together with its
/// payload.  Wheel deltas are signed tick counts; mouse coordinates are
/// absolute screen positions.
#[derive(Clone, Copy, Debug, PartialEq, Eq, Structural)]
pub enum EventType {
    KeyPress(Key),
    KeyRelease(Key),
    ButtonPress(Button),
    ButtonRelease(Button),
    Wheel { delta_x: i64, delta_y: i64 },
    MouseMove { x: i64, y: i64 },
}

/// One observed or synthesized input event.
///
/// `time` is a caller-supplied timestamp in milliseconds, captured when the
/// native event is translated, not when the hardware generated it.  `code`
/// and `scan_code` are the best-effort native encodings of the key involved
/// and are `0` when the reverse mapping is unknown or not applicable.
#[derive(Clone, Debug)]
pub struct Event {
    pub event_type: EventType,
    pub time: u64,
    pub name: Option<String>,
    pub code: u32,
    pub scan_code: u32,
}

/// Failure of a single synthesis call: the native value could not be
/// represented, a required screen metric was unavailable, or the operating
/// system rejected the injection.
#[derive(Clone, Copy, Debug, PartialEq, Eq, Structural)]
pub struct SimulateError;

/// Failure to establish a capture session: the native input subsystem could
/// not be opened.
#[derive(Clone, Copy, Debug, PartialEq, Eq, Structural)]
pub struct GrabError;

} // verus!
