use vstd::prelude::*;

use crate::code::{Code, ALT, CONTROL, META, SHIFT, SUPER};
use crate::event::{GlobalHotKeyEvent, HotKeyState};
use crate::hotkey::Modifiers;

verus! {

/// The Win32 hotkey modifier flags.
pub const MOD_ALT: u32 = 0x0001;
pub const MOD_CONTROL: u32 = 0x0002;
pub const MOD_SHIFT: u32 = 0x0004;
pub const MOD_WIN: u32 = 0x0008;
pub const MOD_NOREPEAT: u32 = 0x4000;

/// The Win32 modifier flags for a set of modifiers; auto-repeat is always
/// asked off.
pub open spec fn win32_mods(bits: u32) -> u32 {
    MOD_NOREPEAT | (if bits & SHIFT == SHIFT { MOD_SHIFT } else { 0 }) | (if bits & (SUPER | META)
        != 0 {
        MOD_WIN
    } else {
        0
    }) | (if bits & ALT == ALT { MOD_ALT } else { 0 }) | (if bits & CONTROL == CONTROL {
        MOD_CONTROL
    } else {
        0
    })
}

pub fn modifiers_to_win32_mods(modifiers: Modifiers) -> (r: u32)
    ensures
        r == win32_mods(modifiers.bits),
{
    let shift = if modifiers.contains(Modifiers { bits: SHIFT }) {
        MOD_SHIFT
    } else {
        0
    };
    let win = if modifiers.intersects(Modifiers { bits: SUPER | META }) {
        MOD_WIN
    } else {
        0
    };
    let alt = if modifiers.contains(Modifiers { bits: ALT }) {
        MOD_ALT
    } else {
        0
    };
    let control = if modifiers.contains(Modifiers { bits: CONTROL }) {
        MOD_CONTROL
    } else {
        0
    };
    MOD_NOREPEAT | shift | win | alt | control
}

/// The window message that announces a registered hotkey.
pub const WM_HOTKEY: u32 = 0x0312;

/// The event that a window message announces: a press of the hotkey whose
/// id `wparam` holds, where the message is `WM_HOTKEY`.
pub fn hotkey_message_event(msg: u32, wparam: usize) -> (r: Option<GlobalHotKeyEvent>)
    ensures
        r == if msg == WM_HOTKEY {
            Some(GlobalHotKeyEvent { id: wparam as u32, state: HotKeyState::Pressed })
        } else {
            None::<GlobalHotKeyEvent>
        },
{
    if msg == WM_HOTKEY {
        Some(GlobalHotKeyEvent { id: wparam as u32, state: HotKeyState::Pressed })
    } else {
        None
    }
}

/// The event that a poll of the hotkey's key state gives: its release once
/// the key reads as up (a state of zero).
pub fn key_state_event(id: u32, key_state: i16) -> (r: Option<GlobalHotKeyEvent>)
    ensures
        r == if key_state == 0 {
            Some(GlobalHotKeyEvent { id, state: HotKeyState::Released })
        } else {
            None::<GlobalHotKeyEvent>
        },
{
    if key_state == 0 {
        Some(GlobalHotKeyEvent { id, state: HotKeyState::Released })
    } else {
        None
    }
}

/// The high word of a message parameter, which holds a hotkey's
/// virtual-key code.
#[allow(non_snake_case)]
pub fn HIWORD(x: u32) -> (r: u16)
    ensures
        r as u32 == x >> 16,
{
    assert(x >> 16 <= 0xffff) by (bit_vector);
    (x >> 16) as u16
}

/// The Win32 virtual-key code of a key, where it has one.
pub open spec fn virtual_key(key: Code) -> Option<u32> {
    match key {
        Code::KeyA => Some(0x41),  // VK_A
        Code::KeyB => Some(0x42),  // VK_B
        Code::KeyC => Some(0x43),  // VK_C
        Code::KeyD => Some(0x44),  // VK_D
        Code::KeyE => Some(0x45),  // VK_E
        Code::KeyF => Some(0x46),  // VK_F
        Code::KeyG => Some(0x47),  // VK_G
        Code::KeyH => Some(0x48),  // VK_H
        Code::KeyI => Some(0x49),  // VK_I
        Code::KeyJ => Some(0x4a),  // VK_J
        Code::KeyK => Some(0x4b),  // VK_K
        Code::KeyL => Some(0x4c),  // VK_L
        Code::KeyM => Some(0x4d),  // VK_M
        Code::KeyN => Some(0x4e),  // VK_N
        Code::KeyO => Some(0x4f),  // VK_O
        Code::KeyP => Some(0x50),  // VK_P
        Code::KeyQ => Some(0x51),  // VK_Q
        Code::KeyR => Some(0x52),  // VK_R
        Code::KeyS => Some(0x53),  // VK_S
        Code::KeyT => Some(0x54),  // VK_T
        Code::KeyU => Some(0x55),  // VK_U
        Code::KeyV => Some(0x56),  // VK_V
        Code::KeyW => Some(0x57),  // VK_W
        Code::KeyX => Some(0x58),  // VK_X
        Code::KeyY => Some(0x59),  // VK_Y
        Code::KeyZ => Some(0x5a),  // VK_Z
        Code::Digit0 => Some(0x30),  // VK_0
        Code::Digit1 => Some(0x31),  // VK_1
        Code::Digit2 => Some(0x32),  // VK_2
        Code::Digit3 => Some(0x33),  // VK_3
        Code::Digit4 => Some(0x34),  // VK_4
        Code::Digit5 => Some(0x35),  // VK_5
        Code::Digit6 => Some(0x36),  // VK_6
        Code::Digit7 => Some(0x37),  // VK_7
        Code::Digit8 => Some(0x38),  // VK_8
        Code::Digit9 => Some(0x39),  // VK_9
        Code::Equal => Some(0xbb),  // VK_OEM_PLUS
        Code::Comma => Some(0xbc),  // VK_OEM_COMMA
        Code::Minus => Some(0xbd),  // VK_OEM_MINUS
        Code::Period => Some(0xbe),  // VK_OEM_PERIOD
        Code::Semicolon => Some(0xba),  // VK_OEM_1
        Code::Slash => Some(0xbf),  // VK_OEM_2
        Code::Backquote => Some(0xc0),  // VK_OEM_3
        Code::BracketLeft => Some(0xdb),  // VK_OEM_4
        Code::Backslash => Some(0xdc),  // VK_OEM_5
        Code::BracketRight => Some(0xdd),  // VK_OEM_6
        Code::Quote => Some(0xde),  // VK_OEM_7
        Code::Backspace => Some(0x08),  // VK_BACK
        Code::Tab => Some(0x09),  // VK_TAB
        Code::Space => Some(0x20),  // VK_SPACE
        Code::Enter => Some(0x0d),  // VK_RETURN
        Code::CapsLock => Some(0x14),  // VK_CAPITAL
        Code::Escape => Some(0x1b),  // VK_ESCAPE
        Code::PageUp => Some(0x21),  // VK_PRIOR
        Code::PageDown => Some(0x22),  // VK_NEXT
        Code::End => Some(0x23),  // VK_END
        Code::Home => Some(0x24),  // VK_HOME
        Code::ArrowLeft => Some(0x25),  // VK_LEFT
        Code::ArrowUp => Some(0x26),  // VK_UP
        Code::ArrowRight => Some(0x27),  // VK_RIGHT
        Code::ArrowDown => Some(0x28),  // VK_DOWN
        Code::PrintScreen => Some(0x2c),  // VK_SNAPSHOT
        Code::Insert => Some(0x2d),  // VK_INSERT
        Code::Delete => Some(0x2e),  // VK_DELETE
        Code::F1 => Some(0x70),  // VK_F1
        Code::F2 => Some(0x71),  // VK_F2
        Code::F3 => Some(0x72),  // VK_F3
        Code::F4 => Some(0x73),  // VK_F4
        Code::F5 => Some(0x74),  // VK_F5
        Code::F6 => Some(0x75),  // VK_F6
        Code::F7 => Some(0x76),  // VK_F7
        Code::F8 => Some(0x77),  // VK_F8
        Code::F9 => Some(0x78),  // VK_F9
        Code::F10 => Some(0x79),  // VK_F10
        Code::F11 => Some(0x7a),  // VK_F11
        Code::F12 => Some(0x7b),  // VK_F12
        Code::F13 => Some(0x7c),  // VK_F13
        Code::F14 => Some(0x7d),  // VK_F14
        Code::F15 => Some(0x7e),  // VK_F15
        Code::F16 => Some(0x7f),  // VK_F16
        Code::F17 => Some(0x80),  // VK_F17
        Code::F18 => Some(0x81),  // VK_F18
        Code::F19 => Some(0x82),  // VK_F19
        Code::F20 => Some(0x83),  // VK_F20
        Code::F21 => Some(0x84),  // VK_F21
        Code::F22 => Some(0x85),  // VK_F22
        Code::F23 => Some(0x86),  // VK_F23
        Code::F24 => Some(0x87),  // VK_F24
        Code::NumLock => Some(0x90),  // VK_NUMLOCK
        Code::Numpad0 => Some(0x60),  // VK_NUMPAD0
        Code::Numpad1 => Some(0x61),  // VK_NUMPAD1
        Code::Numpad2 => Some(0x62),  // VK_NUMPAD2
        Code::Numpad3 => Some(0x63),  // VK_NUMPAD3
        Code::Numpad4 => Some(0x64),  // VK_NUMPAD4
        Code::Numpad5 => Some(0x65),  // VK_NUMPAD5
        Code::Numpad6 => Some(0x66),  // VK_NUMPAD6
        Code::Numpad7 => Some(0x67),  // VK_NUMPAD7
        Code::Numpad8 => Some(0x68),  // VK_NUMPAD8
        Code::Numpad9 => Some(0x69),  // VK_NUMPAD9
        Code::NumpadAdd => Some(0x6b),  // VK_ADD
        Code::NumpadDecimal => Some(0x6e),  // VK_DECIMAL
        Code::NumpadDivide => Some(0x6f),  // VK_DIVIDE
        Code::NumpadEnter => Some(0x0d),  // VK_RETURN
        Code::NumpadEqual => Some(0x45),  // VK_E
        Code::NumpadMultiply => Some(0x6a),  // VK_MULTIPLY
        Code::NumpadSubtract => Some(0x6d),  // VK_SUBTRACT
        Code::ScrollLock => Some(0x91),  // VK_SCROLL
        Code::AudioVolumeDown => Some(0xae),  // VK_VOLUME_DOWN
        Code::AudioVolumeUp => Some(0xaf),  // VK_VOLUME_UP
        Code::AudioVolumeMute => Some(0xad),  // VK_VOLUME_MUTE
        _ => None,
    }
}

pub fn key_to_vk(key: Code) -> (r: Option<u32>)
    ensures
        r == virtual_key(key),
{
    match key {
        Code::KeyA => Some(0x41),  // VK_A
        Code::KeyB => Some(0x42),  // VK_B
        Code::KeyC => Some(0x43),  // VK_C
        Code::KeyD => Some(0x44),  // VK_D
        Code::KeyE => Some(0x45),  // VK_E
        Code::KeyF => Some(0x46),  // VK_F
        Code::KeyG => Some(0x47),  // VK_G
        Code::KeyH => Some(0x48),  // VK_H
        Code::KeyI => Some(0x49),  // VK_I
        Code::KeyJ => Some(0x4a),  // VK_J
        Code::KeyK => Some(0x4b),  // VK_K
        Code::KeyL => Some(0x4c),  // VK_L
        Code::KeyM => Some(0x4d),  // VK_M
        Code::KeyN => Some(0x4e),  // VK_N
        Code::KeyO => Some(0x4f),  // VK_O
        Code::KeyP => Some(0x50),  // VK_P
        Code::KeyQ => Some(0x51),  // VK_Q
        Code::KeyR => Some(0x52),  // VK_R
        Code::KeyS => Some(0x53),  // VK_S
        Code::KeyT => Some(0x54),  // VK_T
        Code::KeyU => Some(0x55),  // VK_U
        Code::KeyV => Some(0x56),  // VK_V
        Code::KeyW => Some(0x57),  // VK_W
        Code::KeyX => Some(0x58),  // VK_X
        Code::KeyY => Some(0x59),  // VK_Y
        Code::KeyZ => Some(0x5a),  // VK_Z
        Code::Digit0 => Some(0x30),  // VK_0
        Code::Digit1 => Some(0x31),  // VK_1
        Code::Digit2 => Some(0x32),  // VK_2
        Code::Digit3 => Some(0x33),  // VK_3
        Code::Digit4 => Some(0x34),  // VK_4
        Code::Digit5 => Some(0x35),  // VK_5
        Code::Digit6 => Some(0x36),  // VK_6
        Code::Digit7 => Some(0x37),  // VK_7
        Code::Digit8 => Some(0x38),  // VK_8
        Code::Digit9 => Some(0x39),  // VK_9
        Code::Equal => Some(0xbb),  // VK_OEM_PLUS
        Code::Comma => Some(0xbc),  // VK_OEM_COMMA
        Code::Minus => Some(0xbd),  // VK_OEM_MINUS
        Code::Period => Some(0xbe),  // VK_OEM_PERIOD
        Code::Semicolon => Some(0xba),  // VK_OEM_1
        Code::Slash => Some(0xbf),  // VK_OEM_2
        Code::Backquote => Some(0xc0),  // VK_OEM_3
        Code::BracketLeft => Some(0xdb),  // VK_OEM_4
        Code::Backslash => Some(0xdc),  // VK_OEM_5
        Code::BracketRight => Some(0xdd),  // VK_OEM_6
        Code::Quote => Some(0xde),  // VK_OEM_7
        Code::Backspace => Some(0x08),  // VK_BACK
        Code::Tab => Some(0x09),  // VK_TAB
        Code::Space => Some(0x20),  // VK_SPACE
        Code::Enter => Some(0x0d),  // VK_RETURN
        Code::CapsLock => Some(0x14),  // VK_CAPITAL
        Code::Escape => Some(0x1b),  // VK_ESCAPE
        Code::PageUp => Some(0x21),  // VK_PRIOR
        Code::PageDown => Some(0x22),  // VK_NEXT
        Code::End => Some(0x23),  // VK_END
        Code::Home => Some(0x24),  // VK_HOME
        Code::ArrowLeft => Some(0x25),  // VK_LEFT
        Code::ArrowUp => Some(0x26),  // VK_UP
        Code::ArrowRight => Some(0x27),  // VK_RIGHT
        Code::ArrowDown => Some(0x28),  // VK_DOWN
        Code::PrintScreen => Some(0x2c),  // VK_SNAPSHOT
        Code::Insert => Some(0x2d),  // VK_INSERT
        Code::Delete => Some(0x2e),  // VK_DELETE
        Code::F1 => Some(0x70),  // VK_F1
        Code::F2 => Some(0x71),  // VK_F2
        Code::F3 => Some(0x72),  // VK_F3
        Code::F4 => Some(0x73),  // VK_F4
        Code::F5 => Some(0x74),  // VK_F5
        Code::F6 => Some(0x75),  // VK_F6
        Code::F7 => Some(0x76),  // VK_F7
        Code::F8 => Some(0x77),  // VK_F8
        Code::F9 => Some(0x78),  // VK_F9
        Code::F10 => Some(0x79),  // VK_F10
        Code::F11 => Some(0x7a),  // VK_F11
        Code::F12 => Some(0x7b),  // VK_F12
        Code::F13 => Some(0x7c),  // VK_F13
        Code::F14 => Some(0x7d),  // VK_F14
        Code::F15 => Some(0x7e),  // VK_F15
        Code::F16 => Some(0x7f),  // VK_F16
        Code::F17 => Some(0x80),  // VK_F17
        Code::F18 => Some(0x81),  // VK_F18
        Code::F19 => Some(0x82),  // VK_F19
        Code::F20 => Some(0x83),  // VK_F20
        Code::F21 => Some(0x84),  // VK_F21
        Code::F22 => Some(0x85),  // VK_F22
        Code::F23 => Some(0x86),  // VK_F23
        Code::F24 => Some(0x87),  // VK_F24
        Code::NumLock => Some(0x90),  // VK_NUMLOCK
        Code::Numpad0 => Some(0x60),  // VK_NUMPAD0
        Code::Numpad1 => Some(0x61),  // VK_NUMPAD1
        Code::Numpad2 => Some(0x62),  // VK_NUMPAD2
        Code::Numpad3 => Some(0x63),  // VK_NUMPAD3
        Code::Numpad4 => Some(0x64),  // VK_NUMPAD4
        Code::Numpad5 => Some(0x65),  // VK_NUMPAD5
        Code::Numpad6 => Some(0x66),  // VK_NUMPAD6
        Code::Numpad7 => Some(0x67),  // VK_NUMPAD7
        Code::Numpad8 => Some(0x68),  // VK_NUMPAD8
        Code::Numpad9 => Some(0x69),  // VK_NUMPAD9
        Code::NumpadAdd => Some(0x6b),  // VK_ADD
        Code::NumpadDecimal => Some(0x6e),  // VK_DECIMAL
        Code::NumpadDivide => Some(0x6f),  // VK_DIVIDE
        Code::NumpadEnter => Some(0x0d),  // VK_RETURN
        Code::NumpadEqual => Some(0x45),  // VK_E
        Code::NumpadMultiply => Some(0x6a),  // VK_MULTIPLY
        Code::NumpadSubtract => Some(0x6d),  // VK_SUBTRACT
        Code::ScrollLock => Some(0x91),  // VK_SCROLL
        Code::AudioVolumeDown => Some(0xae),  // VK_VOLUME_DOWN
        Code::AudioVolumeUp => Some(0xaf),  // VK_VOLUME_UP
        Code::AudioVolumeMute => Some(0xad),  // VK_VOLUME_MUTE
        _ => None,
    }
}

} // verus!
