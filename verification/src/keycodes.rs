//! The keycode translator: the bidirectional mapping between the abstract
//! [`Key`] enumeration and native Windows codes.
//!
//! Each named key carries a virtual-key code and, where the key sits on the
//! main block of a Windows-style layered keyboard, a hardware scan code;
//! the scan code is `0` where none is meaningful.  The tables are data, not
//! logic: both directions are exhaustive over the closed enumeration, and
//! every native code resolves to some key, so a capture loop can never be
//! stopped by an unexpected code.

use vstd::prelude::*;
use crate::events::Key;

verus! {

/// The native `(virtual_code, scan_code)` pair of a key.
pub open spec fn key_to_native_spec(k: Key) -> (u32, u32) {
    match k {
        Key::Alt => (164u32, 0x38u32),
        Key::AltGr => (165u32, 0u32),
        Key::Backspace => (8u32, 0x0Eu32),
        Key::CapsLock => (20u32, 0x3Au32),
        Key::ControlLeft => (162u32, 0x1Du32),
        Key::ControlRight => (163u32, 0u32),
        Key::Delete => (46u32, 0u32),
        Key::DownArrow => (40u32, 0u32),
        Key::End => (35u32, 0u32),
        Key::Escape => (27u32, 0x01u32),
        Key::F1 => (112u32, 0x3Bu32),
        Key::F2 => (113u32, 0x3Cu32),
        Key::F3 => (114u32, 0x3Du32),
        Key::F4 => (115u32, 0x3Eu32),
        Key::F5 => (116u32, 0x3Fu32),
        Key::F6 => (117u32, 0x40u32),
        Key::F7 => (118u32, 0x41u32),
        Key::F8 => (119u32, 0x42u32),
        Key::F9 => (120u32, 0x43u32),
        Key::F10 => (121u32, 0x44u32),
        Key::F11 => (122u32, 0x57u32),
        Key::F12 => (123u32, 0x58u32),
        Key::Home => (36u32, 0u32),
        Key::Insert => (45u32, 0u32),
        Key::LeftArrow => (37u32, 0u32),
        Key::MetaLeft => (91u32, 0u32),
        Key::MetaRight => (92u32, 0u32),
        Key::PageDown => (34u32, 0u32),
        Key::PageUp => (33u32, 0u32),
        Key::Return => (13u32, 0x1Cu32),
        Key::RightArrow => (39u32, 0u32),
        Key::ShiftLeft => (160u32, 0x2Au32),
        Key::ShiftRight => (161u32, 0x36u32),
        Key::Space => (32u32, 0x39u32),
        Key::Tab => (9u32, 0x0Fu32),
        Key::UpArrow => (38u32, 0u32),
        Key::KeyA => (65u32, 0x1Eu32),
        Key::KeyB => (66u32, 0x30u32),
        Key::KeyC => (67u32, 0x2Eu32),
        Key::KeyD => (68u32, 0x20u32),
        Key::KeyE => (69u32, 0x12u32),
        Key::KeyF => (70u32, 0x21u32),
        Key::KeyG => (71u32, 0x22u32),
        Key::KeyH => (72u32, 0x23u32),
        Key::KeyI => (73u32, 0x17u32),
        Key::KeyJ => (74u32, 0x24u32),
        Key::KeyK => (75u32, 0x25u32),
        Key::KeyL => (76u32, 0x26u32),
        Key::KeyM => (77u32, 0x32u32),
        Key::KeyN => (78u32, 0x31u32),
        Key::KeyO => (79u32, 0x18u32),
        Key::KeyP => (80u32, 0x19u32),
        Key::KeyQ => (81u32, 0x10u32),
        Key::KeyR => (82u32, 0x13u32),
        Key::KeyS => (83u32, 0x1Fu32),
        Key::KeyT => (84u32, 0x14u32),
        Key::KeyU => (85u32, 0x16u32),
        Key::KeyV => (86u32, 0x2Fu32),
        Key::KeyW => (87u32, 0x11u32),
        Key::KeyX => (88u32, 0x2Du32),
        Key::KeyY => (89u32, 0x15u32),
        Key::KeyZ => (90u32, 0x2Cu32),
        Key::Num0 => (48u32, 0x0Bu32),
        Key::Num1 => (49u32, 0x02u32),
        Key::Num2 => (50u32, 0x03u32),
        Key::Num3 => (51u32, 0x04u32),
        Key::Num4 => (52u32, 0x05u32),
        Key::Num5 => (53u32, 0x06u32),
        Key::Num6 => (54u32, 0x07u32),
        Key::Num7 => (55u32, 0x08u32),
        Key::Num8 => (56u32, 0x09u32),
        Key::Num9 => (57u32, 0x0Au32),
        Key::Unknown(code) => (code, 0u32),
    }
}

/// The key a native virtual code denotes; a code outside the table gives
/// `Unknown`, carrying the code itself.
pub open spec fn native_to_key_spec(code: u32) -> Key {
    match code {
        164u32 => Key::Alt,
        165u32 => Key::AltGr,
        8u32 => Key::Backspace,
        20u32 => Key::CapsLock,
        162u32 => Key::ControlLeft,
        163u32 => Key::ControlRight,
        46u32 => Key::Delete,
        40u32 => Key::DownArrow,
        35u32 => Key::End,
        27u32 => Key::Escape,
        112u32 => Key::F1,
        113u32 => Key::F2,
        114u32 => Key::F3,
        115u32 => Key::F4,
        116u32 => Key::F5,
        117u32 => Key::F6,
        118u32 => Key::F7,
        119u32 => Key::F8,
        120u32 => Key::F9,
        121u32 => Key::F10,
        122u32 => Key::F11,
        123u32 => Key::F12,
        36u32 => Key::Home,
        45u32 => Key::Insert,
        37u32 => Key::LeftArrow,
        91u32 => Key::MetaLeft,
        92u32 => Key::MetaRight,
        34u32 => Key::PageDown,
        33u32 => Key::PageUp,
        13u32 => Key::Return,
        39u32 => Key::RightArrow,
        160u32 => Key::ShiftLeft,
        161u32 => Key::ShiftRight,
        32u32 => Key::Space,
        9u32 => Key::Tab,
        38u32 => Key::UpArrow,
        65u32 => Key::KeyA,
        66u32 => Key::KeyB,
        67u32 => Key::KeyC,
        68u32 => Key::KeyD,
        69u32 => Key::KeyE,
        70u32 => Key::KeyF,
        71u32 => Key::KeyG,
        72u32 => Key::KeyH,
        73u32 => Key::KeyI,
        74u32 => Key::KeyJ,
        75u32 => Key::KeyK,
        76u32 => Key::KeyL,
        77u32 => Key::KeyM,
        78u32 => Key::KeyN,
        79u32 => Key::KeyO,
        80u32 => Key::KeyP,
        81u32 => Key::KeyQ,
        82u32 => Key::KeyR,
        83u32 => Key::KeyS,
        84u32 => Key::KeyT,
        85u32 => Key::KeyU,
        86u32 => Key::KeyV,
        87u32 => Key::KeyW,
        88u32 => Key::KeyX,
        89u32 => Key::KeyY,
        90u32 => Key::KeyZ,
        48u32 => Key::Num0,
        49u32 => Key::Num1,
        50u32 => Key::Num2,
        51u32 => Key::Num3,
        52u32 => Key::Num4,
        53u32 => Key::Num5,
        54u32 => Key::Num6,
        55u32 => Key::Num7,
        56u32 => Key::Num8,
        57u32 => Key::Num9,
        _ => Key::Unknown(code),
    }
}

/// Translates a key to its native `(virtual_code, scan_code)` pair.
pub fn key_to_native(k: Key) -> (r: (u32, u32))
    ensures
        r == key_to_native_spec(k),
{
    match k {
        Key::Alt => (164u32, 0x38u32),
        Key::AltGr => (165u32, 0u32),
        Key::Backspace => (8u32, 0x0Eu32),
        Key::CapsLock => (20u32, 0x3Au32),
        Key::ControlLeft => (162u32, 0x1Du32),
        Key::ControlRight => (163u32, 0u32),
        Key::Delete => (46u32, 0u32),
        Key::DownArrow => (40u32, 0u32),
        Key::End => (35u32, 0u32),
        Key::Escape => (27u32, 0x01u32),
        Key::F1 => (112u32, 0x3Bu32),
        Key::F2 => (113u32, 0x3Cu32),
        Key::F3 => (114u32, 0x3Du32),
        Key::F4 => (115u32, 0x3Eu32),
        Key::F5 => (116u32, 0x3Fu32),
        Key::F6 => (117u32, 0x40u32),
        Key::F7 => (118u32, 0x41u32),
        Key::F8 => (119u32, 0x42u32),
        Key::F9 => (120u32, 0x43u32),
        Key::F10 => (121u32, 0x44u32),
        Key::F11 => (122u32, 0x57u32),
        Key::F12 => (123u32, 0x58u32),
        Key::Home => (36u32, 0u32),
        Key::Insert => (45u32, 0u32),
        Key::LeftArrow => (37u32, 0u32),
        Key::MetaLeft => (91u32, 0u32),
        Key::MetaRight => (92u32, 0u32),
        Key::PageDown => (34u32, 0u32),
        Key::PageUp => (33u32, 0u32),
        Key::Return => (13u32, 0x1Cu32),
        Key::RightArrow => (39u32, 0u32),
        Key::ShiftLeft => (160u32, 0x2Au32),
        Key::ShiftRight => (161u32, 0x36u32),
        Key::Space => (32u32, 0x39u32),
        Key::Tab => (9u32, 0x0Fu32),
        Key::UpArrow => (38u32, 0u32),
        Key::KeyA => (65u32, 0x1Eu32),
        Key::KeyB => (66u32, 0x30u32),
        Key::KeyC => (67u32, 0x2Eu32),
        Key::KeyD => (68u32, 0x20u32),
        Key::KeyE => (69u32, 0x12u32),
        Key::KeyF => (70u32, 0x21u32),
        Key::KeyG => (71u32, 0x22u32),
        Key::KeyH => (72u32, 0x23u32),
        Key::KeyI => (73u32, 0x17u32),
        Key::KeyJ => (74u32, 0x24u32),
        Key::KeyK => (75u32, 0x25u32),
        Key::KeyL => (76u32, 0x26u32),
        Key::KeyM => (77u32, 0x32u32),
        Key::KeyN => (78u32, 0x31u32),
        Key::KeyO => (79u32, 0x18u32),
        Key::KeyP => (80u32, 0x19u32),
        Key::KeyQ => (81u32, 0x10u32),
        Key::KeyR => (82u32, 0x13u32),
        Key::KeyS => (83u32, 0x1Fu32),
        Key::KeyT => (84u32, 0x14u32),
        Key::KeyU => (85u32, 0x16u32),
        Key::KeyV => (86u32, 0x2Fu32),
        Key::KeyW => (87u32, 0x11u32),
        Key::KeyX => (88u32, 0x2Du32),
        Key::KeyY => (89u32, 0x15u32),
        Key::KeyZ => (90u32, 0x2Cu32),
        Key::Num0 => (48u32, 0x0Bu32),
        Key::Num1 => (49u32, 0x02u32),
        Key::Num2 => (50u32, 0x03u32),
        Key::Num3 => (51u32, 0x04u32),
        Key::Num4 => (52u32, 0x05u32),
        Key::Num5 => (53u32, 0x06u32),
        Key::Num6 => (54u32, 0x07u32),
        Key::Num7 => (55u32, 0x08u32),
        Key::Num8 => (56u32, 0x09u32),
        Key::Num9 => (57u32, 0x0Au32),
        Key::Unknown(code) => (code, 0u32),
    }
}

/// Translates a native virtual code to the key it denotes.  Total: every
/// code that the table does not name resolves to `Unknown` rather than
/// failing, so capture keeps running on unexpected codes.
pub fn native_to_key(code: u32) -> (r: Key)
    ensures
        r == native_to_key_spec(code),
{
    match code {
        164u32 => Key::Alt,
        165u32 => Key::AltGr,
        8u32 => Key::Backspace,
        20u32 => Key::CapsLock,
        162u32 => Key::ControlLeft,
        163u32 => Key::ControlRight,
        46u32 => Key::Delete,
        40u32 => Key::DownArrow,
        35u32 => Key::End,
        27u32 => Key::Escape,
        112u32 => Key::F1,
        113u32 => Key::F2,
        114u32 => Key::F3,
        115u32 => Key::F4,
        116u32 => Key::F5,
        117u32 => Key::F6,
        118u32 => Key::F7,
        119u32 => Key::F8,
        120u32 => Key::F9,
        121u32 => Key::F10,
        122u32 => Key::F11,
        123u32 => Key::F12,
        36u32 => Key::Home,
        45u32 => Key::Insert,
        37u32 => Key::LeftArrow,
        91u32 => Key::MetaLeft,
        92u32 => Key::MetaRight,
        34u32 => Key::PageDown,
        33u32 => Key::PageUp,
        13u32 => Key::Return,
        39u32 => Key::RightArrow,
        160u32 => Key::ShiftLeft,
        161u32 => Key::ShiftRight,
        32u32 => Key::Space,
        9u32 => Key::Tab,
        38u32 => Key::UpArrow,
        65u32 => Key::KeyA,
        66u32 => Key::KeyB,
        67u32 => Key::KeyC,
        68u32 => Key::KeyD,
        69u32 => Key::KeyE,
        70u32 => Key::KeyF,
        71u32 => Key::KeyG,
        72u32 => Key::KeyH,
        73u32 => Key::KeyI,
        74u32 => Key::KeyJ,
        75u32 => Key::KeyK,
        76u32 => Key::KeyL,
        77u32 => Key::KeyM,
        78u32 => Key::KeyN,
        79u32 => Key::KeyO,
        80u32 => Key::KeyP,
        81u32 => Key::KeyQ,
        82u32 => Key::KeyR,
        83u32 => Key::KeyS,
        84u32 => Key::KeyT,
        85u32 => Key::KeyU,
        86u32 => Key::KeyV,
        87u32 => Key::KeyW,
        88u32 => Key::KeyX,
        89u32 => Key::KeyY,
        90u32 => Key::KeyZ,
        48u32 => Key::Num0,
        49u32 => Key::Num1,
        50u32 => Key::Num2,
        51u32 => Key::Num3,
        52u32 => Key::Num4,
        53u32 => Key::Num5,
        54u32 => Key::Num6,
        55u32 => Key::Num7,
        56u32 => Key::Num8,
        57u32 => Key::Num9,
        _ => Key::Unknown(code),
    }
}

/// Round trip on the enumeration: every named key is recovered from its own
/// virtual code.  `Unknown` is excluded: it may carry the virtual code of a
/// named key (for example the code of `KeyA`), and that code translates back
/// to the named key, not to `Unknown`.
pub proof fn lemma_native_round_trip(k: Key)
    requires
        !(k is Unknown),
    ensures
        native_to_key_spec(key_to_native_spec(k).0) == k,
{
}

/// The whole closed enumeration round-trips: every key the enumeration
/// names is recovered from its own virtual code.
pub proof fn lemma_enumeration_round_trips(i: int)
    requires
        0 <= i < enumerated_keys().len(),
    ensures
        native_to_key_spec(key_to_native_spec(enumerated_keys()[i]).0) == enumerated_keys()[i],
{
    let k = enumerated_keys()[i];
    assert(!(k is Unknown));
    lemma_native_round_trip(k);
}

/// The closed enumeration, every named key once, in declaration order.
pub open spec fn enumerated_keys() -> Seq<Key> {
    seq![
        Key::Alt,
        Key::AltGr,
        Key::Backspace,
        Key::CapsLock,
        Key::ControlLeft,
        Key::ControlRight,
        Key::Delete,
        Key::DownArrow,
        Key::End,
        Key::Escape,
        Key::F1,
        Key::F2,
        Key::F3,
        Key::F4,
        Key::F5,
        Key::F6,
        Key::F7,
        Key::F8,
        Key::F9,
        Key::F10,
        Key::F11,
        Key::F12,
        Key::Home,
        Key::Insert,
        Key::LeftArrow,
        Key::MetaLeft,
        Key::MetaRight,
        Key::PageDown,
        Key::PageUp,
        Key::Return,
        Key::RightArrow,
        Key::ShiftLeft,
        Key::ShiftRight,
        Key::Space,
        Key::Tab,
        Key::UpArrow,
        Key::KeyA,
        Key::KeyB,
        Key::KeyC,
        Key::KeyD,
        Key::KeyE,
        Key::KeyF,
        Key::KeyG,
        Key::KeyH,
        Key::KeyI,
        Key::KeyJ,
        Key::KeyK,
        Key::KeyL,
        Key::KeyM,
        Key::KeyN,
        Key::KeyO,
        Key::KeyP,
        Key::KeyQ,
        Key::KeyR,
        Key::KeyS,
        Key::KeyT,
        Key::KeyU,
        Key::KeyV,
        Key::KeyW,
        Key::KeyX,
        Key::KeyY,
        Key::KeyZ,
        Key::Num0,
        Key::Num1,
        Key::Num2,
        Key::Num3,
        Key::Num4,
        Key::Num5,
        Key::Num6,
        Key::Num7,
        Key::Num8,
        Key::Num9,
    ]
}

/// Hands out the closed enumeration as a vector, for callers that walk
/// every named key (such as the grabbing pass of a capture session).
#[verifier::rlimit(100)]
pub fn all_keys() -> (r: Vec<Key>)
    ensures
        r@ == enumerated_keys(),
{
    let mut v: Vec<Key> = Vec::new();
    v.push(Key::Alt);
    v.push(Key::AltGr);
    v.push(Key::Backspace);
    v.push(Key::CapsLock);
    v.push(Key::ControlLeft);
    v.push(Key::ControlRight);
    v.push(Key::Delete);
    v.push(Key::DownArrow);
    v.push(Key::End);
    v.push(Key::Escape);
    v.push(Key::F1);
    v.push(Key::F2);
    v.push(Key::F3);
    v.push(Key::F4);
    v.push(Key::F5);
    v.push(Key::F6);
    v.push(Key::F7);
    v.push(Key::F8);
    v.push(Key::F9);
    v.push(Key::F10);
    v.push(Key::F11);
    v.push(Key::F12);
    v.push(Key::Home);
    v.push(Key::Insert);
    v.push(Key::LeftArrow);
    v.push(Key::MetaLeft);
    v.push(Key::MetaRight);
    v.push(Key::PageDown);
    v.push(Key::PageUp);
    v.push(Key::Return);
    v.push(Key::RightArrow);
    v.push(Key::ShiftLeft);
    v.push(Key::ShiftRight);
    v.push(Key::Space);
    v.push(Key::Tab);
    v.push(Key::UpArrow);
    v.push(Key::KeyA);
    v.push(Key::KeyB);
    v.push(Key::KeyC);
    v.push(Key::KeyD);
    v.push(Key::KeyE);
    v.push(Key::KeyF);
    v.push(Key::KeyG);
    v.push(Key::KeyH);
    v.push(Key::KeyI);
    v.push(Key::KeyJ);
    v.push(Key::KeyK);
    v.push(Key::KeyL);
    v.push(Key::KeyM);
    v.push(Key::KeyN);
    v.push(Key::KeyO);
    v.push(Key::KeyP);
    v.push(Key::KeyQ);
    v.push(Key::KeyR);
    v.push(Key::KeyS);
    v.push(Key::KeyT);
    v.push(Key::KeyU);
    v.push(Key::KeyV);
    v.push(Key::KeyW);
    v.push(Key::KeyX);
    v.push(Key::KeyY);
    v.push(Key::KeyZ);
    v.push(Key::Num0);
    v.push(Key::Num1);
    v.push(Key::Num2);
    v.push(Key::Num3);
    v.push(Key::Num4);
    v.push(Key::Num5);
    v.push(Key::Num6);
    v.push(Key::Num7);
    v.push(Key::Num8);
    v.push(Key::Num9);
    proof {
        assert(v@ =~= enumerated_keys());
    }
    v
}

} // verus!
