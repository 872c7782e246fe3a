//! The synthesizer: turns an abstract [`EventType`] into the exact native
//! injection calls that make the operating system emit the event as if real
//! hardware had produced it.
//!
//! Planning is separated from sending.  Everything the original native call
//! needs — flags, codes, scaled wheel data, normalized virtual-desktop
//! coordinates — is computed and checked here; the embedding application
//! only copies each planned [`Injection`] into the native call, in order,
//! stopping at the first failing call.  Every numeric conversion is checked:
//! a value that does not fit its native field is a [`SimulateError`], never
//! a silent truncation.

use vstd::prelude::*;
use crate::events::{Button, EventType, Key, SimulateError};
use crate::keycodes::{key_to_native, key_to_native_spec};

verus! {

pub const KEYEVENTF_KEYDOWN: u32 = 0;
pub const KEYEVENTF_KEYUP: u32 = 2;
pub const KEYDOWN_FLAG: u16 = 0;
pub const KEYUP_FLAG: u16 = 2;
pub const UNICODE_FLAG: u16 = 4;
pub const MOUSEEVENTF_MOVE: u32 = 0x0001;
pub const MOUSEEVENTF_LEFTDOWN: u32 = 0x0002;
pub const MOUSEEVENTF_LEFTUP: u32 = 0x0004;
pub const MOUSEEVENTF_RIGHTDOWN: u32 = 0x0008;
pub const MOUSEEVENTF_RIGHTUP: u32 = 0x0010;
pub const MOUSEEVENTF_MIDDLEDOWN: u32 = 0x0020;
pub const MOUSEEVENTF_MIDDLEUP: u32 = 0x0040;
pub const MOUSEEVENTF_XDOWN: u32 = 0x0080;
pub const MOUSEEVENTF_XUP: u32 = 0x0100;
pub const MOUSEEVENTF_WHEEL: u32 = 0x0800;
pub const MOUSEEVENTF_HWHEEL: u32 = 0x1000;
pub const MOUSEEVENTF_VIRTUALDESK: u32 = 0x4000;
pub const MOUSEEVENTF_ABSOLUTE: u32 = 0x8000;
/// Native wheel ticks per abstract wheel delta unit.
pub const WHEEL_DELTA: i64 = 120;
/// The virtual code forced for the layout key under a Korean layout.
pub const VK_HANGUL: u32 = 21;
/// The statically tabulated virtual code of the layout-dependent AltGr key.
pub const ALTGR_CODE: u32 = 165;
/// The low-word language identifier of a Korean keyboard layout.
pub const KOREAN_LANG_ID: u16 = 0x0412;

/// One native injection call, either a keyboard event or a mouse event,
/// carrying exactly the payload the native input structure takes.
#[derive(Clone, Copy, Debug, PartialEq, Eq, Structural)]
pub enum Injection {
    Keyboard { flags: u32, vk: u16, scan: u16 },
    Mouse { flags: u32, data: u32, dx: i32, dy: i32 },
}

/// What the synthesizer reads of the environment at planning time.  The
/// embedding application queries the operating system for these values
/// anew on every keyboard synthesis call, because the active layout can
/// change between calls.
#[derive(Clone, Copy, Debug, PartialEq, Eq, Structural)]
pub struct SimulationContext {
    /// Low-word language identifier of the active keyboard layout.
    pub lang_id: u16,
    /// What the platform's scan-code to virtual-code conversion returned
    /// for the scan code of the key being synthesized; read only when that
    /// scan code is non-zero.
    pub mapped_vk: u32,
    /// Width of the virtual desktop, or 0 when unavailable.
    pub width: i32,
    /// Height of the virtual desktop, or 0 when unavailable.
    pub height: i32,
}

/// Whether a planned result agrees with its specification.
pub open spec fn plan_matches(
    r: Result<Vec<Injection>, SimulateError>,
    s: Result<Seq<Injection>, SimulateError>,
) -> bool {
    match r {
        Ok(v) => s matches Ok(q) && v@ == q,
        Err(_) => s is Err,
    }
}

/// The virtual code a key resolves to at synthesis time.  The layout key
/// (AltGr) is forced: under a Korean layout a press becomes the Hangul
/// code, otherwise its tabulated code stands.  For any other key a
/// non-zero scan code makes the platform's own scan-code conversion
/// (`mapped_vk`) authoritative over the tabulated code.
pub open spec fn resolved_key_code(key: Key, pressed: bool, lang_id: u16, mapped_vk: u32) -> u32 {
    let code = key_to_native_spec(key).0;
    let scan = key_to_native_spec(key).1;
    if pressed && code == ALTGR_CODE && lang_id == KOREAN_LANG_ID {
        VK_HANGUL
    } else if code == ALTGR_CODE {
        ALTGR_CODE
    } else if scan != 0 {
        mapped_vk
    } else {
        code
    }
}

/// The keyboard injection for a key event: an error exactly when the
/// resolved virtual code does not fit the native 16-bit field.
pub open spec fn key_injection(key: Key, pressed: bool, lang_id: u16, mapped_vk: u32) -> Result<
    Injection,
    SimulateError,
> {
    let code = resolved_key_code(key, pressed, lang_id, mapped_vk);
    if code > 0xFFFF {
        Err(SimulateError)
    } else {
        Ok(
            Injection::Keyboard {
                flags: if pressed {
                    KEYEVENTF_KEYDOWN
                } else {
                    KEYEVENTF_KEYUP
                },
                vk: code as u16,
                scan: 0,
            },
        )
    }
}

/// Plans a key press or release.
pub fn plan_key_event(key: Key, pressed: bool, lang_id: u16, mapped_vk: u32) -> (r: Result<
    Injection,
    SimulateError,
>)
    ensures
        r == key_injection(key, pressed, lang_id, mapped_vk),
{
    let (code, scan) = key_to_native(key);
    let resolved: u32 = if pressed && code == ALTGR_CODE && lang_id == KOREAN_LANG_ID {
        VK_HANGUL
    } else if code == ALTGR_CODE {
        ALTGR_CODE
    } else if scan != 0 {
        mapped_vk
    } else {
        code
    };
    if resolved > 0xFFFF {
        Err(SimulateError)
    } else {
        Ok(
            Injection::Keyboard {
                flags: if pressed {
                    KEYEVENTF_KEYDOWN
                } else {
                    KEYEVENTF_KEYUP
                },
                vk: resolved as u16,
                scan: 0,
            },
        )
    }
}

/// The mouse injection for a button event.  The three named buttons carry
/// their own down or up flag; an unknown button becomes a generic extra
/// button event whose data field carries the button's numeric extension.
pub open spec fn button_injection(button: Button, pressed: bool) -> Injection {
    match button {
        Button::Left => Injection::Mouse {
            flags: if pressed {
                MOUSEEVENTF_LEFTDOWN
            } else {
                MOUSEEVENTF_LEFTUP
            },
            data: 0,
            dx: 0,
            dy: 0,
        },
        Button::Middle => Injection::Mouse {
            flags: if pressed {
                MOUSEEVENTF_MIDDLEDOWN
            } else {
                MOUSEEVENTF_MIDDLEUP
            },
            data: 0,
            dx: 0,
            dy: 0,
        },
        Button::Right => Injection::Mouse {
            flags: if pressed {
                MOUSEEVENTF_RIGHTDOWN
            } else {
                MOUSEEVENTF_RIGHTUP
            },
            data: 0,
            dx: 0,
            dy: 0,
        },
        Button::Unknown(code) => Injection::Mouse {
            flags: if pressed {
                MOUSEEVENTF_XDOWN
            } else {
                MOUSEEVENTF_XUP
            },
            data: code as u32,
            dx: 0,
            dy: 0,
        },
    }
}

/// Plans a button press or release; button events never fail to plan.
pub fn plan_button_event(button: Button, pressed: bool) -> (r: Injection)
    ensures
        r == button_injection(button, pressed),
{
    match button {
        Button::Left => Injection::Mouse {
            flags: if pressed {
                MOUSEEVENTF_LEFTDOWN
            } else {
                MOUSEEVENTF_LEFTUP
            },
            data: 0,
            dx: 0,
            dy: 0,
        },
        Button::Middle => Injection::Mouse {
            flags: if pressed {
                MOUSEEVENTF_MIDDLEDOWN
            } else {
                MOUSEEVENTF_MIDDLEUP
            },
            data: 0,
            dx: 0,
            dy: 0,
        },
        Button::Right => Injection::Mouse {
            flags: if pressed {
                MOUSEEVENTF_RIGHTDOWN
            } else {
                MOUSEEVENTF_RIGHTUP
            },
            data: 0,
            dx: 0,
            dy: 0,
        },
        Button::Unknown(code) => Injection::Mouse {
            flags: if pressed {
                MOUSEEVENTF_XDOWN
            } else {
                MOUSEEVENTF_XUP
            },
            data: code as u32,
            dx: 0,
            dy: 0,
        },
    }
}

/// Whether a wheel delta fits the native signed 16-bit ticks type.
pub open spec fn wheel_delta_ok(delta: i64) -> bool {
    -0x8000 <= delta <= 0x7FFF
}

/// The native data word for one wheel axis: the delta scaled by
/// [`WHEEL_DELTA`], stored in two's complement.
pub open spec fn wheel_data(delta: i64) -> u32 {
    if delta >= 0 {
        (delta * WHEEL_DELTA) as u32
    } else {
        (0x1_0000_0000 + delta * WHEEL_DELTA) as u32
    }
}

fn wheel_data_exec(delta: i64) -> (r: u32)
    requires
        wheel_delta_ok(delta),
    ensures
        r == wheel_data(delta),
{
    if delta >= 0 {
        (delta * WHEEL_DELTA) as u32
    } else {
        (0x1_0000_0000i64 + delta * WHEEL_DELTA) as u32
    }
}

/// The injections for a wheel event: an error exactly when either delta
/// lies outside the signed 16-bit range; otherwise one injection per
/// non-zero axis, horizontal first, then vertical.
pub open spec fn wheel_injections(delta_x: i64, delta_y: i64) -> Result<
    Seq<Injection>,
    SimulateError,
> {
    if !wheel_delta_ok(delta_x) || !wheel_delta_ok(delta_y) {
        Err(SimulateError)
    } else {
        let horizontal: Seq<Injection> = if delta_x != 0 {
            seq![Injection::Mouse { flags: MOUSEEVENTF_HWHEEL, data: wheel_data(delta_x), dx: 0, dy: 0 }]
        } else {
            Seq::<Injection>::empty()
        };
        let vertical: Seq<Injection> = if delta_y != 0 {
            seq![Injection::Mouse { flags: MOUSEEVENTF_WHEEL, data: wheel_data(delta_y), dx: 0, dy: 0 }]
        } else {
            Seq::<Injection>::empty()
        };
        Ok(horizontal + vertical)
    }
}

/// Plans a wheel event.  A delta outside the signed 16-bit range is
/// reported as an error before anything is sent, never truncated.
pub fn plan_wheel(delta_x: i64, delta_y: i64) -> (r: Result<Vec<Injection>, SimulateError>)
    ensures
        plan_matches(r, wheel_injections(delta_x, delta_y)),
{
    if delta_x < -0x8000 || delta_x > 0x7FFF || delta_y < -0x8000 || delta_y > 0x7FFF {
        return Err(SimulateError);
    }
    let mut v: Vec<Injection> = Vec::new();
    if delta_x != 0 {
        v.push(Injection::Mouse { flags: MOUSEEVENTF_HWHEEL, data: wheel_data_exec(delta_x), dx: 0, dy: 0 });
    }
    if delta_y != 0 {
        v.push(Injection::Mouse { flags: MOUSEEVENTF_WHEEL, data: wheel_data_exec(delta_y), dx: 0, dy: 0 });
    }
    proof {
        assert(v@ =~= wheel_injections(delta_x, delta_y)->Ok_0);
    }
    Ok(v)
}

/// Integer division that rounds toward zero, as the native division does.
pub open spec fn div_toward_zero(a: int, b: int) -> int {
    if a >= 0 {
        a / b
    } else {
        -((-a) / b)
    }
}

/// An absolute coordinate normalized into the platform's virtual-desktop
/// space: `(coordinate + 1) * 65535 / dimension`.
pub open spec fn scaled_coordinate(c: int, dim: int) -> int {
    div_toward_zero((c + 1) * 65535, dim)
}

fn scaled_axis(c: i64, dim: i32) -> (r: i64)
    requires
        dim > 0,
        -0x8000_0000 <= c <= 0x7FFF_FFFF,
    ensures
        r == scaled_coordinate(c as int, dim as int),
{
    let n: i64 = (c + 1) * 65535;
    if n >= 0 {
        ((n as u64) / (dim as u64)) as i64
    } else {
        -((((-n) as u64) / (dim as u64)) as i64)
    }
}

/// The injection for an absolute mouse move: an error when either screen
/// dimension is unavailable (zero or negative, reported before any call is
/// made), when a coordinate does not fit the native 32-bit field, or when
/// the normalized value does not; otherwise a single move flagged as
/// absolute within the virtual desktop.
pub open spec fn mouse_move_injections(x: i64, y: i64, width: i32, height: i32) -> Result<
    Seq<Injection>,
    SimulateError,
> {
    if width <= 0 || height <= 0 {
        Err(SimulateError)
    } else if x < -0x8000_0000 || x > 0x7FFF_FFFF || y < -0x8000_0000 || y > 0x7FFF_FFFF {
        Err(SimulateError)
    } else {
        let dx = scaled_coordinate(x as int, width as int);
        let dy = scaled_coordinate(y as int, height as int);
        if dx < -0x8000_0000 || dx > 0x7FFF_FFFF || dy < -0x8000_0000 || dy > 0x7FFF_FFFF {
            Err(SimulateError)
        } else {
            Ok(
                seq![
                    Injection::Mouse {
                        flags: MOUSEEVENTF_MOVE | MOUSEEVENTF_ABSOLUTE | MOUSEEVENTF_VIRTUALDESK,
                        data: 0,
                        dx: dx as i32,
                        dy: dy as i32,
                    },
                ],
            )
        }
    }
}

/// Plans an absolute mouse move.  The screen dimensions are checked before
/// the injection is planned: a zero-size desktop cannot be normalized
/// against and is an error.
pub fn plan_mouse_move(x: i64, y: i64, width: i32, height: i32) -> (r: Result<
    Vec<Injection>,
    SimulateError,
>)
    ensures
        plan_matches(r, mouse_move_injections(x, y, width, height)),
{
    if width <= 0 || height <= 0 {
        return Err(SimulateError);
    }
    if x < -0x8000_0000i64 || x > 0x7FFF_FFFFi64 || y < -0x8000_0000i64 || y > 0x7FFF_FFFFi64 {
        return Err(SimulateError);
    }
    let dx = scaled_axis(x, width);
    let dy = scaled_axis(y, height);
    if dx < -0x8000_0000i64 || dx > 0x7FFF_FFFFi64 || dy < -0x8000_0000i64 || dy > 0x7FFF_FFFFi64 {
        return Err(SimulateError);
    }
    let mut v: Vec<Injection> = Vec::new();
    v.push(
        Injection::Mouse {
            flags: MOUSEEVENTF_MOVE | MOUSEEVENTF_ABSOLUTE | MOUSEEVENTF_VIRTUALDESK,
            data: 0,
            dx: dx as i32,
            dy: dy as i32,
        },
    );
    proof {
        assert(v@ =~= mouse_move_injections(x, y, width, height)->Ok_0);
    }
    Ok(v)
}

/// The full plan for one abstract event, every failure condition included.
pub open spec fn simulate_spec(event_type: EventType, ctx: SimulationContext) -> Result<
    Seq<Injection>,
    SimulateError,
> {
    match event_type {
        EventType::KeyPress(key) => match key_injection(key, true, ctx.lang_id, ctx.mapped_vk) {
            Ok(i) => Ok(seq![i]),
            Err(e) => Err(e),
        },
        EventType::KeyRelease(key) => match key_injection(key, false, ctx.lang_id, ctx.mapped_vk) {
            Ok(i) => Ok(seq![i]),
            Err(e) => Err(e),
        },
        EventType::ButtonPress(button) => Ok(seq![button_injection(button, true)]),
        EventType::ButtonRelease(button) => Ok(seq![button_injection(button, false)]),
        EventType::Wheel { delta_x, delta_y } => wheel_injections(delta_x, delta_y),
        EventType::MouseMove { x, y } => mouse_move_injections(x, y, ctx.width, ctx.height),
    }
}

/// Plans the native injection calls that synthesize one abstract event,
/// in the order they must be issued; the embedding application sends them
/// one by one and stops at the first call the operating system rejects.
pub fn simulate(event_type: &EventType, ctx: &SimulationContext) -> (r: Result<
    Vec<Injection>,
    SimulateError,
>)
    ensures
        plan_matches(r, simulate_spec(*event_type, *ctx)),
{
    match event_type {
        EventType::KeyPress(key) => match plan_key_event(*key, true, ctx.lang_id, ctx.mapped_vk) {
            Ok(i) => {
                let mut v: Vec<Injection> = Vec::new();
                v.push(i);
                proof {
                    assert(v@ =~= simulate_spec(*event_type, *ctx)->Ok_0);
                }
                Ok(v)
            },
            Err(e) => Err(e),
        },
        EventType::KeyRelease(key) => match plan_key_event(*key, false, ctx.lang_id, ctx.mapped_vk) {
            Ok(i) => {
                let mut v: Vec<Injection> = Vec::new();
                v.push(i);
                proof {
                    assert(v@ =~= simulate_spec(*event_type, *ctx)->Ok_0);
                }
                Ok(v)
            },
            Err(e) => Err(e),
        },
        EventType::ButtonPress(button) => {
            let i = plan_button_event(*button, true);
            let mut v: Vec<Injection> = Vec::new();
            v.push(i);
            proof {
                assert(v@ =~= simulate_spec(*event_type, *ctx)->Ok_0);
            }
            Ok(v)
        },
        EventType::ButtonRelease(button) => {
            let i = plan_button_event(*button, false);
            let mut v: Vec<Injection> = Vec::new();
            v.push(i);
            proof {
                assert(v@ =~= simulate_spec(*event_type, *ctx)->Ok_0);
            }
            Ok(v)
        },
        EventType::Wheel { delta_x, delta_y } => plan_wheel(*delta_x, *delta_y),
        EventType::MouseMove { x, y } => plan_mouse_move(*x, *y, ctx.width, ctx.height),
    }
}

/// The keyboard injection for a literal character.  `scan_info` is what
/// the operating system's character-to-virtual-key resolution returned for
/// the character: a zero high byte means the low byte is a usable virtual
/// key, anything else falls back to a raw Unicode injection that carries
/// the character itself.  A character above the 16-bit range cannot be
/// carried and is an error.
pub open spec fn char_injection(chr: char, pressed: bool, scan_info: u16) -> Result<
    Injection,
    SimulateError,
> {
    if chr as u32 > 0xFFFF {
        Err(SimulateError)
    } else {
        let high = (scan_info >> 8) & 0xFF;
        let state: u16 = if pressed {
            KEYDOWN_FLAG
        } else {
            KEYUP_FLAG
        };
        if high == 0 {
            Ok(
                Injection::Keyboard { flags: (0 | state) as u32, vk: scan_info & 0xFF, scan: 0 },
            )
        } else {
            Ok(
                Injection::Keyboard {
                    flags: (UNICODE_FLAG | state) as u32,
                    vk: 0,
                    scan: (chr as u32) as u16,
                },
            )
        }
    }
}

/// Plans the synthesis of a literal character; press or release state is
/// an explicit parameter, never inferred.
pub fn simulate_char(chr: char, pressed: bool, scan_info: u16) -> (r: Result<
    Injection,
    SimulateError,
>)
    ensures
        r == char_injection(chr, pressed, scan_info),
{
    if chr as u32 > 0xFFFF {
        return Err(SimulateError);
    }
    let high: u16 = (scan_info >> 8) & 0xFF;
    let state: u16 = if pressed {
        KEYDOWN_FLAG
    } else {
        KEYUP_FLAG
    };
    if high == 0 {
        Ok(Injection::Keyboard { flags: (0 | state) as u32, vk: scan_info & 0xFF, scan: 0 })
    } else {
        Ok(
            Injection::Keyboard {
                flags: (UNICODE_FLAG | state) as u32,
                vk: 0,
                scan: (chr as u32) as u16,
            },
        )
    }
}

} // verus!
