use global_hotkey::code::{Code, ALT, CONTROL, META, SHIFT};
use global_hotkey::hotkey::{HotKey, IdAllocator, Modifiers};
use global_hotkey::parser::{modifier_of_keyword, parse_hotkey, parse_key};
use global_hotkey::Error;

fn mods(bits: u32) -> Modifiers {
    Modifiers::from_bits_truncate(bits)
}

fn check(s: &str, m: Modifiers, key: Code) {
    let mut ids = IdAllocator::new();
    let r = parse_hotkey(s, &mut ids).unwrap();
    assert_eq!(r.mods, m);
    assert_eq!(r.key, key);
}

#[test]
fn test_parse_hotkey() {
    check("KeyX", Modifiers::empty(), Code::KeyX);
    check("CTRL+KeyX", mods(CONTROL), Code::KeyX);
    check("SHIFT+KeyC", mods(SHIFT), Code::KeyC);
    check("SHIFT+KeyC", mods(SHIFT), Code::KeyC);
    check(
        "super+ctrl+SHIFT+alt+ArrowUp",
        mods(META | CONTROL | SHIFT | ALT),
        Code::ArrowUp,
    );
    check("Digit5", Modifiers::empty(), Code::Digit5);
    check("KeyG", Modifiers::empty(), Code::KeyG);
    check("SHiFT+F12", mods(SHIFT), Code::F12);
    check("CmdOrCtrl+Space", mods(CONTROL), Code::Space);
}

#[test]
fn modifiers_must_come_before_the_key() {
    let mut ids = IdAllocator::new();
    match parse_hotkey("shift+Q+alt", &mut ids) {
        Err(Error::UnexpectedHotKeyFormat(s)) => assert_eq!(s, "shift+Q+alt"),
        other => panic!("unexpected result {:?}", other),
    }
    let r = parse_hotkey("shift+alt+Q", &mut ids).unwrap();
    assert_eq!(r.mods, mods(SHIFT | ALT));
    assert_eq!(r.key, Code::KeyQ);
}

#[test]
fn two_keys_are_a_format_error() {
    let mut ids = IdAllocator::new();
    assert!(matches!(
        parse_hotkey("Ctrl+Shift+C+A", &mut ids),
        Err(Error::UnexpectedHotKeyFormat(_))
    ));
}

#[test]
fn modifiers_without_a_key_are_a_format_error() {
    let mut ids = IdAllocator::new();
    match parse_hotkey("shift+alt", &mut ids) {
        Err(Error::UnexpectedHotKeyFormat(s)) => assert_eq!(s, "shift+alt"),
        other => panic!("unexpected result {:?}", other),
    }
}

#[test]
fn empty_tokens_are_rejected() {
    let mut ids = IdAllocator::new();
    match parse_hotkey("+G", &mut ids) {
        Err(Error::EmptyHotKeyToken(s)) => assert_eq!(s, "+G"),
        other => panic!("unexpected result {:?}", other),
    }
    match parse_hotkey("CTRL+", &mut ids) {
        Err(Error::EmptyHotKeyToken(s)) => assert_eq!(s, "CTRL+"),
        other => panic!("unexpected result {:?}", other),
    }
    match parse_hotkey("CTRL+ +G", &mut ids) {
        Err(Error::EmptyHotKeyToken(_)) => {}
        other => panic!("unexpected result {:?}", other),
    }
}

#[test]
fn unknown_modifier_is_an_unknown_key() {
    let mut ids = IdAllocator::new();
    match parse_hotkey("SHGSH+G", &mut ids) {
        Err(Error::UnrecognizedHotKeyCode(s)) => assert_eq!(s, "SHGSH"),
        other => panic!("unexpected result {:?}", other),
    }
    match parse_hotkey("NotAKey", &mut ids) {
        Err(Error::UnrecognizedHotKeyCode(s)) => assert_eq!(s, "NotAKey"),
        other => panic!("unexpected result {:?}", other),
    }
}

#[test]
fn bare_key_is_not_trimmed() {
    let mut ids = IdAllocator::new();
    match parse_hotkey(" KeyX", &mut ids) {
        Err(Error::UnrecognizedHotKeyCode(s)) => assert_eq!(s, " KeyX"),
        other => panic!("unexpected result {:?}", other),
    }
}

#[test]
fn tokens_are_trimmed_and_case_folded() {
    check(" ctrl + keyx ", mods(CONTROL), Code::KeyX);
    check("Option+cmd+esc", mods(ALT | META), Code::Escape);
    check("shift+numplus", mods(SHIFT), Code::NumpadAdd);
    check("alt+`", mods(ALT), Code::Backquote);
    check("ctrl+\\", mods(CONTROL), Code::Backslash);
}

#[test]
fn round_trip_of_rendered_hotkeys() {
    let keys = [
        ("KEYA", Code::KeyA),
        ("DIGIT0", Code::Digit0),
        ("F24", Code::F24),
        ("NUMPADSUBTRACT", Code::NumpadSubtract),
        ("VOLUMEMUTE", Code::AudioVolumeMute),
        (",", Code::Comma),
    ];
    let orders: [&[&str]; 4] = [
        &[],
        &["SHIFT"],
        &["ALT", "CONTROL", "SUPER", "SHIFT"],
        &["SHIFT", "SUPER", "CONTROL", "ALT"],
    ];
    let expected = [0, SHIFT, ALT | CONTROL | META | SHIFT, ALT | CONTROL | META | SHIFT];
    for (name, key) in keys {
        for (order, bits) in orders.iter().zip(expected) {
            let mut text = order.join("+");
            if !text.is_empty() {
                text.push('+');
            }
            text.push_str(name);
            check(&text, mods(bits), key);
        }
    }
}

#[test]
fn parse_key_reports_the_token() {
    assert_eq!(parse_key("pageup").unwrap(), Code::PageUp);
    assert_eq!(parse_key("Num9").unwrap(), Code::Numpad9);
    match parse_key("F25") {
        Err(Error::UnrecognizedHotKeyCode(s)) => assert_eq!(s, "F25"),
        other => panic!("unexpected result {:?}", other),
    }
}

#[test]
fn modifier_keywords() {
    assert_eq!(modifier_of_keyword("COMMANDORCONTROL"), Some(CONTROL));
    assert_eq!(modifier_of_keyword("CMD"), Some(META));
    assert_eq!(modifier_of_keyword("OPTION"), Some(ALT));
    assert_eq!(modifier_of_keyword("shift"), None);
}

#[test]
fn parsed_hotkeys_take_fresh_ids() {
    let mut ids = IdAllocator::new();
    let a = parse_hotkey("ctrl+KeyA", &mut ids).unwrap();
    let b = parse_hotkey("ctrl+KeyA", &mut ids).unwrap();
    assert_eq!(a.id(), 0);
    assert_eq!(b.id(), 1);
    assert!(parse_hotkey("ctrl+", &mut ids).is_err());
    let c = HotKey::new(None, Code::KeyB, &mut ids);
    assert_eq!(c.id(), 2);
    assert_eq!(a, b);
}
