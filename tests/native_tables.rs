use global_hotkey::carbon::{hotkey_event, key_to_scancode, EventHotKeyID};
use global_hotkey::win32::{hotkey_message_event, key_state_event, HIWORD, WM_HOTKEY};
use global_hotkey::{GlobalHotKeyEvent, HotKeyState};
use global_hotkey::code::{Code, ALT, CONTROL, META, SHIFT};
use global_hotkey::hotkey::Modifiers;
use global_hotkey::win32::{key_to_vk, modifiers_to_win32_mods, MOD_ALT, MOD_CONTROL, MOD_NOREPEAT, MOD_SHIFT, MOD_WIN};

#[test]
fn win32_virtual_keys() {
    assert_eq!(key_to_vk(Code::KeyA), Some(0x41));
    assert_eq!(key_to_vk(Code::Digit9), Some(0x39));
    assert_eq!(key_to_vk(Code::F24), Some(0x87));
    assert_eq!(key_to_vk(Code::NumpadEnter), Some(0x0d));
    assert_eq!(key_to_vk(Code::Backquote), Some(0xc0));
    assert_eq!(key_to_vk(Code::Pause), None);
}

#[test]
fn win32_modifiers() {
    let m = |b: u32| modifiers_to_win32_mods(Modifiers::from_bits_truncate(b));
    assert_eq!(m(0), MOD_NOREPEAT);
    assert_eq!(m(SHIFT | META), MOD_NOREPEAT | MOD_SHIFT | MOD_WIN);
    assert_eq!(m(ALT | CONTROL), MOD_NOREPEAT | MOD_ALT | MOD_CONTROL);
}

#[test]
fn carbon_key_codes() {
    assert_eq!(key_to_scancode(Code::KeyA), Some(0x00));
    assert_eq!(key_to_scancode(Code::KeyS), Some(0x01));
    assert_eq!(key_to_scancode(Code::ArrowUp), Some(0x7e));
    assert_eq!(key_to_scancode(Code::PrintScreen), Some(0x46));
    assert_eq!(key_to_scancode(Code::MediaStop), None);
}

#[test]
fn win32_callback_events() {
    assert_eq!(
        hotkey_message_event(WM_HOTKEY, 42),
        Some(GlobalHotKeyEvent { id: 42, state: HotKeyState::Pressed })
    );
    assert_eq!(hotkey_message_event(0x0100, 42), None);
    assert_eq!(key_state_event(9, 0), Some(GlobalHotKeyEvent { id: 9, state: HotKeyState::Released }));
    assert_eq!(key_state_event(9, -32768), None);
    assert_eq!(HIWORD(0x0051_0006), 0x51);
}

#[test]
fn carbon_callback_events() {
    let id = EventHotKeyID { signature: 0x68747273, id: 3 };
    assert_eq!(hotkey_event(0, id), Some(GlobalHotKeyEvent { id: 3, state: HotKeyState::Pressed }));
    assert_eq!(hotkey_event(-9870, id), None);
}
