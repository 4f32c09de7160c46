use vstd::prelude::*;

verus! {

/// The physical key of a hotkey, named after its place on a US keyboard.
#[derive(Clone, Copy, Debug, PartialEq, Eq, Hash, Structural)]
pub enum Code {
    Backquote,
    Backslash,
    BracketLeft,
    BracketRight,
    Comma,
    Digit0,
    Digit1,
    Digit2,
    Digit3,
    Digit4,
    Digit5,
    Digit6,
    Digit7,
    Digit8,
    Digit9,
    Equal,
    IntlBackslash,
    KeyA,
    KeyB,
    KeyC,
    KeyD,
    KeyE,
    KeyF,
    KeyG,
    KeyH,
    KeyI,
    KeyJ,
    KeyK,
    KeyL,
    KeyM,
    KeyN,
    KeyO,
    KeyP,
    KeyQ,
    KeyR,
    KeyS,
    KeyT,
    KeyU,
    KeyV,
    KeyW,
    KeyX,
    KeyY,
    KeyZ,
    Minus,
    Period,
    Quote,
    Semicolon,
    Slash,
    Backspace,
    CapsLock,
    Enter,
    Space,
    Tab,
    Delete,
    End,
    Home,
    Insert,
    PageDown,
    PageUp,
    ArrowDown,
    ArrowLeft,
    ArrowRight,
    ArrowUp,
    NumLock,
    Numpad0,
    Numpad1,
    Numpad2,
    Numpad3,
    Numpad4,
    Numpad5,
    Numpad6,
    Numpad7,
    Numpad8,
    Numpad9,
    NumpadAdd,
    NumpadDecimal,
    NumpadDivide,
    NumpadEnter,
    NumpadEqual,
    NumpadMultiply,
    NumpadSubtract,
    Escape,
    F1,
    F2,
    F3,
    F4,
    F5,
    F6,
    F7,
    F8,
    F9,
    F10,
    F11,
    F12,
    PrintScreen,
    ScrollLock,
    Pause,
    MediaStop,
    MediaTrackNext,
    MediaTrackPrevious,
    AudioVolumeDown,
    AudioVolumeMute,
    AudioVolumeUp,
    F13,
    F14,
    F15,
    F16,
    F17,
    F18,
    F19,
    F20,
    F21,
    F22,
    F23,
    F24,
}

/// The name of a key, as written in messages: its variant's name.
pub open spec fn code_name(c: Code) -> Seq<char> {
    match c {
        Code::Backquote => "Backquote"@,
        Code::Backslash => "Backslash"@,
        Code::BracketLeft => "BracketLeft"@,
        Code::BracketRight => "BracketRight"@,
        Code::Comma => "Comma"@,
        Code::Digit0 => "Digit0"@,
        Code::Digit1 => "Digit1"@,
        Code::Digit2 => "Digit2"@,
        Code::Digit3 => "Digit3"@,
        Code::Digit4 => "Digit4"@,
        Code::Digit5 => "Digit5"@,
        Code::Digit6 => "Digit6"@,
        Code::Digit7 => "Digit7"@,
        Code::Digit8 => "Digit8"@,
        Code::Digit9 => "Digit9"@,
        Code::Equal => "Equal"@,
        Code::IntlBackslash => "IntlBackslash"@,
        Code::KeyA => "KeyA"@,
        Code::KeyB => "KeyB"@,
        Code::KeyC => "KeyC"@,
        Code::KeyD => "KeyD"@,
        Code::KeyE => "KeyE"@,
        Code::KeyF => "KeyF"@,
        Code::KeyG => "KeyG"@,
        Code::KeyH => "KeyH"@,
        Code::KeyI => "KeyI"@,
        Code::KeyJ => "KeyJ"@,
        Code::KeyK => "KeyK"@,
        Code::KeyL => "KeyL"@,
        Code::KeyM => "KeyM"@,
        Code::KeyN => "KeyN"@,
        Code::KeyO => "KeyO"@,
        Code::KeyP => "KeyP"@,
        Code::KeyQ => "KeyQ"@,
        Code::KeyR => "KeyR"@,
        Code::KeyS => "KeyS"@,
        Code::KeyT => "KeyT"@,
        Code::KeyU => "KeyU"@,
        Code::KeyV => "KeyV"@,
        Code::KeyW => "KeyW"@,
        Code::KeyX => "KeyX"@,
        Code::KeyY => "KeyY"@,
        Code::KeyZ => "KeyZ"@,
        Code::Minus => "Minus"@,
        Code::Period => "Period"@,
        Code::Quote => "Quote"@,
        Code::Semicolon => "Semicolon"@,
        Code::Slash => "Slash"@,
        Code::Backspace => "Backspace"@,
        Code::CapsLock => "CapsLock"@,
        Code::Enter => "Enter"@,
        Code::Space => "Space"@,
        Code::Tab => "Tab"@,
        Code::Delete => "Delete"@,
        Code::End => "End"@,
        Code::Home => "Home"@,
        Code::Insert => "Insert"@,
        Code::PageDown => "PageDown"@,
        Code::PageUp => "PageUp"@,
        Code::ArrowDown => "ArrowDown"@,
        Code::ArrowLeft => "ArrowLeft"@,
        Code::ArrowRight => "ArrowRight"@,
        Code::ArrowUp => "ArrowUp"@,
        Code::NumLock => "NumLock"@,
        Code::Numpad0 => "Numpad0"@,
        Code::Numpad1 => "Numpad1"@,
        Code::Numpad2 => "Numpad2"@,
        Code::Numpad3 => "Numpad3"@,
        Code::Numpad4 => "Numpad4"@,
        Code::Numpad5 => "Numpad5"@,
        Code::Numpad6 => "Numpad6"@,
        Code::Numpad7 => "Numpad7"@,
        Code::Numpad8 => "Numpad8"@,
        Code::Numpad9 => "Numpad9"@,
        Code::NumpadAdd => "NumpadAdd"@,
        Code::NumpadDecimal => "NumpadDecimal"@,
        Code::NumpadDivide => "NumpadDivide"@,
        Code::NumpadEnter => "NumpadEnter"@,
        Code::NumpadEqual => "NumpadEqual"@,
        Code::NumpadMultiply => "NumpadMultiply"@,
        Code::NumpadSubtract => "NumpadSubtract"@,
        Code::Escape => "Escape"@,
        Code::F1 => "F1"@,
        Code::F2 => "F2"@,
        Code::F3 => "F3"@,
        Code::F4 => "F4"@,
        Code::F5 => "F5"@,
        Code::F6 => "F6"@,
        Code::F7 => "F7"@,
        Code::F8 => "F8"@,
        Code::F9 => "F9"@,
        Code::F10 => "F10"@,
        Code::F11 => "F11"@,
        Code::F12 => "F12"@,
        Code::PrintScreen => "PrintScreen"@,
        Code::ScrollLock => "ScrollLock"@,
        Code::Pause => "Pause"@,
        Code::MediaStop => "MediaStop"@,
        Code::MediaTrackNext => "MediaTrackNext"@,
        Code::MediaTrackPrevious => "MediaTrackPrevious"@,
        Code::AudioVolumeDown => "AudioVolumeDown"@,
        Code::AudioVolumeMute => "AudioVolumeMute"@,
        Code::AudioVolumeUp => "AudioVolumeUp"@,
        Code::F13 => "F13"@,
        Code::F14 => "F14"@,
        Code::F15 => "F15"@,
        Code::F16 => "F16"@,
        Code::F17 => "F17"@,
        Code::F18 => "F18"@,
        Code::F19 => "F19"@,
        Code::F20 => "F20"@,
        Code::F21 => "F21"@,
        Code::F22 => "F22"@,
        Code::F23 => "F23"@,
        Code::F24 => "F24"@,
    }
}

impl Code {
    /// The key's name, as written in messages.
    pub fn name(&self) -> (r: &'static str)
        ensures
            r@ == code_name(*self),
    {
        match self {
            Code::Backquote => "Backquote",
            Code::Backslash => "Backslash",
            Code::BracketLeft => "BracketLeft",
            Code::BracketRight => "BracketRight",
            Code::Comma => "Comma",
            Code::Digit0 => "Digit0",
            Code::Digit1 => "Digit1",
            Code::Digit2 => "Digit2",
            Code::Digit3 => "Digit3",
            Code::Digit4 => "Digit4",
            Code::Digit5 => "Digit5",
            Code::Digit6 => "Digit6",
            Code::Digit7 => "Digit7",
            Code::Digit8 => "Digit8",
            Code::Digit9 => "Digit9",
            Code::Equal => "Equal",
            Code::IntlBackslash => "IntlBackslash",
            Code::KeyA => "KeyA",
            Code::KeyB => "KeyB",
            Code::KeyC => "KeyC",
            Code::KeyD => "KeyD",
            Code::KeyE => "KeyE",
            Code::KeyF => "KeyF",
            Code::KeyG => "KeyG",
            Code::KeyH => "KeyH",
            Code::KeyI => "KeyI",
            Code::KeyJ => "KeyJ",
            Code::KeyK => "KeyK",
            Code::KeyL => "KeyL",
            Code::KeyM => "KeyM",
            Code::KeyN => "KeyN",
            Code::KeyO => "KeyO",
            Code::KeyP => "KeyP",
            Code::KeyQ => "KeyQ",
            Code::KeyR => "KeyR",
            Code::KeyS => "KeyS",
            Code::KeyT => "KeyT",
            Code::KeyU => "KeyU",
            Code::KeyV => "KeyV",
            Code::KeyW => "KeyW",
            Code::KeyX => "KeyX",
            Code::KeyY => "KeyY",
            Code::KeyZ => "KeyZ",
            Code::Minus => "Minus",
            Code::Period => "Period",
            Code::Quote => "Quote",
            Code::Semicolon => "Semicolon",
            Code::Slash => "Slash",
            Code::Backspace => "Backspace",
            Code::CapsLock => "CapsLock",
            Code::Enter => "Enter",
            Code::Space => "Space",
            Code::Tab => "Tab",
            Code::Delete => "Delete",
            Code::End => "End",
            Code::Home => "Home",
            Code::Insert => "Insert",
            Code::PageDown => "PageDown",
            Code::PageUp => "PageUp",
            Code::ArrowDown => "ArrowDown",
            Code::ArrowLeft => "ArrowLeft",
            Code::ArrowRight => "ArrowRight",
            Code::ArrowUp => "ArrowUp",
            Code::NumLock => "NumLock",
            Code::Numpad0 => "Numpad0",
            Code::Numpad1 => "Numpad1",
            Code::Numpad2 => "Numpad2",
            Code::Numpad3 => "Numpad3",
            Code::Numpad4 => "Numpad4",
            Code::Numpad5 => "Numpad5",
            Code::Numpad6 => "Numpad6",
            Code::Numpad7 => "Numpad7",
            Code::Numpad8 => "Numpad8",
            Code::Numpad9 => "Numpad9",
            Code::NumpadAdd => "NumpadAdd",
            Code::NumpadDecimal => "NumpadDecimal",
            Code::NumpadDivide => "NumpadDivide",
            Code::NumpadEnter => "NumpadEnter",
            Code::NumpadEqual => "NumpadEqual",
            Code::NumpadMultiply => "NumpadMultiply",
            Code::NumpadSubtract => "NumpadSubtract",
            Code::Escape => "Escape",
            Code::F1 => "F1",
            Code::F2 => "F2",
            Code::F3 => "F3",
            Code::F4 => "F4",
            Code::F5 => "F5",
            Code::F6 => "F6",
            Code::F7 => "F7",
            Code::F8 => "F8",
            Code::F9 => "F9",
            Code::F10 => "F10",
            Code::F11 => "F11",
            Code::F12 => "F12",
            Code::PrintScreen => "PrintScreen",
            Code::ScrollLock => "ScrollLock",
            Code::Pause => "Pause",
            Code::MediaStop => "MediaStop",
            Code::MediaTrackNext => "MediaTrackNext",
            Code::MediaTrackPrevious => "MediaTrackPrevious",
            Code::AudioVolumeDown => "AudioVolumeDown",
            Code::AudioVolumeMute => "AudioVolumeMute",
            Code::AudioVolumeUp => "AudioVolumeUp",
            Code::F13 => "F13",
            Code::F14 => "F14",
            Code::F15 => "F15",
            Code::F16 => "F16",
            Code::F17 => "F17",
            Code::F18 => "F18",
            Code::F19 => "F19",
            Code::F20 => "F20",
            Code::F21 => "F21",
            Code::F22 => "F22",
            Code::F23 => "F23",
            Code::F24 => "F24",
        }
    }
}

pub const ALT: u32 = 0x01;
pub const ALT_GRAPH: u32 = 0x02;
pub const CAPS_LOCK: u32 = 0x04;
pub const CONTROL: u32 = 0x08;
pub const FN: u32 = 0x10;
pub const FN_LOCK: u32 = 0x20;
pub const META: u32 = 0x40;
pub const NUM_LOCK: u32 = 0x80;
pub const SCROLL_LOCK: u32 = 0x100;
pub const SHIFT: u32 = 0x200;
pub const SYMBOL: u32 = 0x400;
pub const SYMBOL_LOCK: u32 = 0x800;
pub const HYPER: u32 = 0x1000;
pub const SUPER: u32 = 0x2000;

/// Every flag that a modifier set can hold.
pub const ALL_MODIFIERS: u32 = 0x3fff;

/// The flags that take part in a hotkey's identity: the held modifiers,
/// with the lock keys and the rarer modifiers left out.
pub const BASE_MODIFIERS: u32 = 0x2249;

} // verus!
