use vstd::prelude::*;

use crate::code::{Code, ALT, CONTROL, META, SHIFT, SUPER};
use crate::event::{GlobalHotKeyEvent, HotKeyState};
use crate::hotkey::Modifiers;

verus! {

/// Carbon's handle types, which only ever stand behind pointers.
#[derive(Clone, Copy, Debug)]
pub struct OpaqueEventRef {}

#[derive(Clone, Copy, Debug)]
pub struct OpaqueEventHandlerRef {}

#[derive(Clone, Copy, Debug)]
pub struct OpaqueEventHandlerCallRef {}

#[derive(Clone, Copy, Debug)]
pub struct OpaqueEventTargetRef {}

#[derive(Clone, Copy, Debug)]
pub struct OpaqueEventHotKeyRef {}

/// The id that Carbon hands back with a hotkey event.
#[derive(Clone, Copy, Debug)]
pub struct EventHotKeyID {
    pub signature: u32,
    pub id: u32,
}

/// The class and kind of the events that a handler asks for.
#[derive(Clone, Copy, Debug)]
pub struct EventTypeSpec {
    pub event_class: u32,
    pub event_kind: u32,
}

/// The status of a Carbon call that succeeded.
pub const NO_ERR: i32 = 0;

/// The event that a Carbon hotkey event gives: a press of the hotkey whose
/// id was read, where reading it succeeded.
pub fn hotkey_event(status: i32, hotkey_id: EventHotKeyID) -> (r: Option<GlobalHotKeyEvent>)
    ensures
        r == if status == NO_ERR {
            Some(GlobalHotKeyEvent { id: hotkey_id.id, state: HotKeyState::Pressed })
        } else {
            None::<GlobalHotKeyEvent>
        },
{
    if status == NO_ERR {
        Some(GlobalHotKeyEvent { id: hotkey_id.id, state: HotKeyState::Pressed })
    } else {
        None
    }
}

/// Carbon's modifier masks.
pub const CMD_KEY: u32 = 256;
pub const SHIFT_KEY: u32 = 512;
pub const OPTION_KEY: u32 = 2048;
pub const CONTROL_KEY: u32 = 4096;

/// The Carbon modifier mask for a set of modifiers.
pub open spec fn carbon_mods(bits: u32) -> u32 {
    (if bits & SHIFT == SHIFT { SHIFT_KEY } else { 0 }) | (if bits & (SUPER | META) != 0 {
        CMD_KEY
    } else {
        0
    }) | (if bits & ALT == ALT { OPTION_KEY } else { 0 }) | (if bits & CONTROL == CONTROL {
        CONTROL_KEY
    } else {
        0
    })
}

pub fn modifiers_to_carbon_mods(modifiers: Modifiers) -> (r: u32)
    ensures
        r == carbon_mods(modifiers.bits),
{
    let shift = if modifiers.contains(Modifiers { bits: SHIFT }) {
        SHIFT_KEY
    } else {
        0
    };
    let command = if modifiers.intersects(Modifiers { bits: SUPER | META }) {
        CMD_KEY
    } else {
        0
    };
    let option = if modifiers.contains(Modifiers { bits: ALT }) {
        OPTION_KEY
    } else {
        0
    };
    let control = if modifiers.contains(Modifiers { bits: CONTROL }) {
        CONTROL_KEY
    } else {
        0
    };
    shift | command | option | control
}

/// A four-character code read as a big-endian number.
pub open spec fn four_char_code(s: Seq<char>) -> int
    decreases s.len(),
{
    if s.len() == 0 {
        0
    } else {
        four_char_code(s.drop_last()) * 256 + (s.last() as int)
    }
}

/// The signature that this library's hotkeys carry: the four-character code
/// `htrs`.
pub fn hotkey_signature() -> (r: u32)
    ensures
        r == four_char_code(seq!['h', 't', 'r', 's']),
{
    let code = "htrs";
    proof {
        reveal_strlit("htrs");
    }
    let mut res: u32 = 0;
    let mut i: usize = 0;
    while i < 4
        invariant
            code@ == seq!['h', 't', 'r', 's'],
            i <= 4,
            res as int == four_char_code(code@.take(i as int)),
            i == 0 ==> res == 0,
            i == 1 ==> res == 0x68,
            i == 2 ==> res == 0x6874,
            i == 3 ==> res == 0x687472,
        decreases 4 - i,
    {
        let c = code.get_char(i);
        assert(code@.take(i as int + 1).drop_last() =~= code@.take(i as int));
        res = res * 256 + c as u32;
        i = i + 1;
    }
    assert(code@.take(4) =~= code@);
    res
}


/// Carbon's virtual key code of a key, where it has one.
pub open spec fn carbon_key_code(code: Code) -> Option<u32> {
    match code {
        Code::KeyA => Some(0x00),
        Code::KeyS => Some(0x01),
        Code::KeyD => Some(0x02),
        Code::KeyF => Some(0x03),
        Code::KeyH => Some(0x04),
        Code::KeyG => Some(0x05),
        Code::KeyZ => Some(0x06),
        Code::KeyX => Some(0x07),
        Code::KeyC => Some(0x08),
        Code::KeyV => Some(0x09),
        Code::KeyB => Some(0x0b),
        Code::KeyQ => Some(0x0c),
        Code::KeyW => Some(0x0d),
        Code::KeyE => Some(0x0e),
        Code::KeyR => Some(0x0f),
        Code::KeyY => Some(0x10),
        Code::KeyT => Some(0x11),
        Code::Digit1 => Some(0x12),
        Code::Digit2 => Some(0x13),
        Code::Digit3 => Some(0x14),
        Code::Digit4 => Some(0x15),
        Code::Digit6 => Some(0x16),
        Code::Digit5 => Some(0x17),
        Code::Equal => Some(0x18),
        Code::Digit9 => Some(0x19),
        Code::Digit7 => Some(0x1a),
        Code::Minus => Some(0x1b),
        Code::Digit8 => Some(0x1c),
        Code::Digit0 => Some(0x1d),
        Code::BracketRight => Some(0x1e),
        Code::KeyO => Some(0x1f),
        Code::KeyU => Some(0x20),
        Code::BracketLeft => Some(0x21),
        Code::KeyI => Some(0x22),
        Code::KeyP => Some(0x23),
        Code::Enter => Some(0x24),
        Code::KeyL => Some(0x25),
        Code::KeyJ => Some(0x26),
        Code::Quote => Some(0x27),
        Code::KeyK => Some(0x28),
        Code::Semicolon => Some(0x29),
        Code::Backslash => Some(0x2a),
        Code::Comma => Some(0x2b),
        Code::Slash => Some(0x2c),
        Code::KeyN => Some(0x2d),
        Code::KeyM => Some(0x2e),
        Code::Period => Some(0x2f),
        Code::Tab => Some(0x30),
        Code::Space => Some(0x31),
        Code::Backquote => Some(0x32),
        Code::Backspace => Some(0x33),
        Code::Escape => Some(0x35),
        Code::F17 => Some(0x40),
        Code::NumpadDecimal => Some(0x41),
        Code::NumpadMultiply => Some(0x43),
        Code::NumpadAdd => Some(0x45),
        Code::NumLock => Some(0x47),
        Code::AudioVolumeUp => Some(0x48),
        Code::AudioVolumeDown => Some(0x49),
        Code::AudioVolumeMute => Some(0x4a),
        Code::NumpadDivide => Some(0x4b),
        Code::NumpadEnter => Some(0x4c),
        Code::NumpadSubtract => Some(0x4e),
        Code::F18 => Some(0x4f),
        Code::F19 => Some(0x50),
        Code::NumpadEqual => Some(0x51),
        Code::Numpad0 => Some(0x52),
        Code::Numpad1 => Some(0x53),
        Code::Numpad2 => Some(0x54),
        Code::Numpad3 => Some(0x55),
        Code::Numpad4 => Some(0x56),
        Code::Numpad5 => Some(0x57),
        Code::Numpad6 => Some(0x58),
        Code::Numpad7 => Some(0x59),
        Code::F20 => Some(0x5a),
        Code::Numpad8 => Some(0x5b),
        Code::Numpad9 => Some(0x5c),
        Code::F5 => Some(0x60),
        Code::F6 => Some(0x61),
        Code::F7 => Some(0x62),
        Code::F3 => Some(0x63),
        Code::F8 => Some(0x64),
        Code::F9 => Some(0x65),
        Code::F11 => Some(0x67),
        Code::F13 => Some(0x69),
        Code::F16 => Some(0x6a),
        Code::F14 => Some(0x6b),
        Code::F10 => Some(0x6d),
        Code::F12 => Some(0x6f),
        Code::F15 => Some(0x71),
        Code::Insert => Some(0x72),
        Code::Home => Some(0x73),
        Code::PageUp => Some(0x74),
        Code::Delete => Some(0x75),
        Code::F4 => Some(0x76),
        Code::End => Some(0x77),
        Code::F2 => Some(0x78),
        Code::PageDown => Some(0x79),
        Code::F1 => Some(0x7a),
        Code::ArrowLeft => Some(0x7b),
        Code::ArrowRight => Some(0x7c),
        Code::ArrowDown => Some(0x7d),
        Code::ArrowUp => Some(0x7e),
        Code::CapsLock => Some(0x39),
        Code::PrintScreen => Some(0x46),
        _ => None,
    }
}

pub fn key_to_scancode(code: Code) -> (r: Option<u32>)
    ensures
        r == carbon_key_code(code),
{
    match code {
        Code::KeyA => Some(0x00),
        Code::KeyS => Some(0x01),
        Code::KeyD => Some(0x02),
        Code::KeyF => Some(0x03),
        Code::KeyH => Some(0x04),
        Code::KeyG => Some(0x05),
        Code::KeyZ => Some(0x06),
        Code::KeyX => Some(0x07),
        Code::KeyC => Some(0x08),
        Code::KeyV => Some(0x09),
        Code::KeyB => Some(0x0b),
        Code::KeyQ => Some(0x0c),
        Code::KeyW => Some(0x0d),
        Code::KeyE => Some(0x0e),
        Code::KeyR => Some(0x0f),
        Code::KeyY => Some(0x10),
        Code::KeyT => Some(0x11),
        Code::Digit1 => Some(0x12),
        Code::Digit2 => Some(0x13),
        Code::Digit3 => Some(0x14),
        Code::Digit4 => Some(0x15),
        Code::Digit6 => Some(0x16),
        Code::Digit5 => Some(0x17),
        Code::Equal => Some(0x18),
        Code::Digit9 => Some(0x19),
        Code::Digit7 => Some(0x1a),
        Code::Minus => Some(0x1b),
        Code::Digit8 => Some(0x1c),
        Code::Digit0 => Some(0x1d),
        Code::BracketRight => Some(0x1e),
        Code::KeyO => Some(0x1f),
        Code::KeyU => Some(0x20),
        Code::BracketLeft => Some(0x21),
        Code::KeyI => Some(0x22),
        Code::KeyP => Some(0x23),
        Code::Enter => Some(0x24),
        Code::KeyL => Some(0x25),
        Code::KeyJ => Some(0x26),
        Code::Quote => Some(0x27),
        Code::KeyK => Some(0x28),
        Code::Semicolon => Some(0x29),
        Code::Backslash => Some(0x2a),
        Code::Comma => Some(0x2b),
        Code::Slash => Some(0x2c),
        Code::KeyN => Some(0x2d),
        Code::KeyM => Some(0x2e),
        Code::Period => Some(0x2f),
        Code::Tab => Some(0x30),
        Code::Space => Some(0x31),
        Code::Backquote => Some(0x32),
        Code::Backspace => Some(0x33),
        Code::Escape => Some(0x35),
        Code::F17 => Some(0x40),
        Code::NumpadDecimal => Some(0x41),
        Code::NumpadMultiply => Some(0x43),
        Code::NumpadAdd => Some(0x45),
        Code::NumLock => Some(0x47),
        Code::AudioVolumeUp => Some(0x48),
        Code::AudioVolumeDown => Some(0x49),
        Code::AudioVolumeMute => Some(0x4a),
        Code::NumpadDivide => Some(0x4b),
        Code::NumpadEnter => Some(0x4c),
        Code::NumpadSubtract => Some(0x4e),
        Code::F18 => Some(0x4f),
        Code::F19 => Some(0x50),
        Code::NumpadEqual => Some(0x51),
        Code::Numpad0 => Some(0x52),
        Code::Numpad1 => Some(0x53),
        Code::Numpad2 => Some(0x54),
        Code::Numpad3 => Some(0x55),
        Code::Numpad4 => Some(0x56),
        Code::Numpad5 => Some(0x57),
        Code::Numpad6 => Some(0x58),
        Code::Numpad7 => Some(0x59),
        Code::F20 => Some(0x5a),
        Code::Numpad8 => Some(0x5b),
        Code::Numpad9 => Some(0x5c),
        Code::F5 => Some(0x60),
        Code::F6 => Some(0x61),
        Code::F7 => Some(0x62),
        Code::F3 => Some(0x63),
        Code::F8 => Some(0x64),
        Code::F9 => Some(0x65),
        Code::F11 => Some(0x67),
        Code::F13 => Some(0x69),
        Code::F16 => Some(0x6a),
        Code::F14 => Some(0x6b),
        Code::F10 => Some(0x6d),
        Code::F12 => Some(0x6f),
        Code::F15 => Some(0x71),
        Code::Insert => Some(0x72),
        Code::Home => Some(0x73),
        Code::PageUp => Some(0x74),
        Code::Delete => Some(0x75),
        Code::F4 => Some(0x76),
        Code::End => Some(0x77),
        Code::F2 => Some(0x78),
        Code::PageDown => Some(0x79),
        Code::F1 => Some(0x7a),
        Code::ArrowLeft => Some(0x7b),
        Code::ArrowRight => Some(0x7c),
        Code::ArrowDown => Some(0x7d),
        Code::ArrowUp => Some(0x7e),
        Code::CapsLock => Some(0x39),
        Code::PrintScreen => Some(0x46),
        _ => None,
    }
}

} // verus!
