use global_hotkey::code::{Code, ALT, CONTROL, META, SHIFT, SUPER};
use global_hotkey::hotkey::{HotKey, IdAllocator, Modifiers};
use global_hotkey::x11::{
    keycode_to_x11_scancode, lock_variants_of, modifiers_to_x11_mods, x11_target, GrabSequence,
    GrabTable, CONTROL_MASK, LOCK_MASK, MOD1_MASK, MOD2_MASK, MOD4_MASK, SHIFT_MASK,
};
use global_hotkey::{Error, GlobalHotKeyEvent, HotKeyState};

fn hotkey(bits: u32, key: Code, ids: &mut IdAllocator) -> HotKey {
    HotKey::new(Some(Modifiers::from_bits_truncate(bits)), key, ids)
}

/// Runs the grabs of one registration against a server that refuses the
/// grab with index `refuse_at`, and gives the masks grabbed and released.
fn run_grabs(mask: u32, refuse_at: Option<usize>) -> (Vec<u32>, Vec<u32>, bool) {
    let mut seq = GrabSequence::new(mask);
    let mut grabbed = Vec::new();
    while let Some(m) = seq.next_grab() {
        let refused = refuse_at == Some(grabbed.len());
        grabbed.push(m);
        seq.record(refused);
    }
    (grabbed, seq.rollback(), seq.refused())
}

#[test]
fn modifier_masks() {
    let m = |b: u32| modifiers_to_x11_mods(Modifiers::from_bits_truncate(b));
    assert_eq!(m(0), 0);
    assert_eq!(m(SHIFT), SHIFT_MASK);
    assert_eq!(m(SUPER), MOD4_MASK);
    assert_eq!(m(META), MOD4_MASK);
    assert_eq!(m(ALT | CONTROL), MOD1_MASK | CONTROL_MASK);
    assert_eq!(m(ALT | CONTROL | SHIFT | META), 0x4d);
}

#[test]
fn keysyms() {
    assert_eq!(keycode_to_x11_scancode(Code::KeyQ), Some('Q' as u32));
    assert_eq!(keycode_to_x11_scancode(Code::Digit7), Some('7' as u32));
    assert_eq!(keycode_to_x11_scancode(Code::F12), Some(0xffc9));
    assert_eq!(keycode_to_x11_scancode(Code::Enter), Some(0xff0d));
    assert_eq!(keycode_to_x11_scancode(Code::AudioVolumeMute), Some(0x1008ff12));
    assert_eq!(keycode_to_x11_scancode(Code::NumLock), None);
    assert_eq!(keycode_to_x11_scancode(Code::F13), None);
}

#[test]
fn target_of_a_key_without_keysym_fails() {
    let mut ids = IdAllocator::new();
    let h = hotkey(SHIFT, Code::F20, &mut ids);
    match x11_target(&h) {
        Err(Error::FailedToRegister(msg)) => {
            assert_eq!(msg, "Unable to register accelerator (unknown scancode for this key: F20).")
        }
        other => panic!("unexpected result {:?}", other),
    }
    let h = hotkey(SHIFT | ALT, Code::KeyA, &mut ids);
    assert_eq!(x11_target(&h).unwrap(), (SHIFT_MASK | MOD1_MASK, 'A' as u32));
}

#[test]
fn grabs_cover_every_lock_state() {
    assert_eq!(
        lock_variants_of(CONTROL_MASK),
        vec![CONTROL_MASK, CONTROL_MASK | MOD2_MASK, CONTROL_MASK | LOCK_MASK, CONTROL_MASK | MOD2_MASK | LOCK_MASK]
    );
    let (grabbed, released, refused) = run_grabs(0, None);
    assert_eq!(grabbed, vec![0, MOD2_MASK, LOCK_MASK, MOD2_MASK | LOCK_MASK]);
    assert!(released.is_empty());
    assert!(!refused);
}

#[test]
fn refused_grab_rolls_back_all_variants() {
    let (grabbed, released, refused) = run_grabs(SHIFT_MASK, Some(1));
    assert_eq!(grabbed, vec![SHIFT_MASK, SHIFT_MASK | MOD2_MASK]);
    assert_eq!(released, lock_variants_of(SHIFT_MASK));
    assert!(refused);
}

#[test]
fn registering_twice_conflicts() {
    let mut ids = IdAllocator::new();
    let h = hotkey(CONTROL, Code::KeyK, &mut ids);
    let (mask, _) = x11_target(&h).unwrap();
    let keycode = 45;
    let mut table = GrabTable::new();
    assert!(table.finish_register(h, mask, keycode, false).is_ok());
    assert!(table.contains(mask, keycode));
    match table.finish_register(h, mask, keycode, false) {
        Err(Error::AlreadyRegistered(k)) => assert_eq!(k, h),
        other => panic!("unexpected result {:?}", other),
    }
    table.remove(mask, keycode);
    assert!(!table.contains(mask, keycode));
    assert!(table.finish_register(h, mask, keycode, false).is_ok());
}

#[test]
fn refused_grab_is_already_registered() {
    let mut ids = IdAllocator::new();
    let h = hotkey(0, Code::KeyK, &mut ids);
    let mut table = GrabTable::new();
    assert!(matches!(table.finish_register(h, 0, 45, true), Err(Error::AlreadyRegistered(_))));
    assert!(!table.contains(0, 45));
}

#[test]
fn repeated_presses_report_one_press_and_one_release() {
    let mut ids = IdAllocator::new();
    let h = hotkey(SHIFT, Code::KeyS, &mut ids);
    let mut table = GrabTable::new();
    table.finish_register(h, SHIFT_MASK, 39, false).unwrap();
    let mut events = Vec::new();
    for _ in 0..6 {
        if let Some(e) = table.handle_key_event(true, SHIFT_MASK, 39) {
            events.push(e);
        }
    }
    assert_eq!(events, vec![GlobalHotKeyEvent { id: h.id(), state: HotKeyState::Pressed }]);
    let released = table.handle_key_event(false, SHIFT_MASK, 39);
    assert_eq!(released, Some(GlobalHotKeyEvent { id: h.id(), state: HotKeyState::Released }));
    assert_eq!(table.handle_key_event(false, SHIFT_MASK, 39), None);
    assert_eq!(
        table.handle_key_event(true, SHIFT_MASK, 39),
        Some(GlobalHotKeyEvent { id: h.id(), state: HotKeyState::Pressed })
    );
}

#[test]
fn lock_keys_do_not_change_events() {
    let mut ids = IdAllocator::new();
    let h = hotkey(0, Code::KeyL, &mut ids);
    let mut table = GrabTable::new();
    table.finish_register(h, 0, 46, false).unwrap();
    let down = Some(GlobalHotKeyEvent { id: h.id(), state: HotKeyState::Pressed });
    let up = Some(GlobalHotKeyEvent { id: h.id(), state: HotKeyState::Released });
    assert_eq!(table.handle_key_event(true, MOD2_MASK, 46), down);
    assert_eq!(table.handle_key_event(false, MOD2_MASK | LOCK_MASK, 46), up);
    assert_eq!(table.handle_key_event(true, LOCK_MASK, 46), down);
    assert_eq!(table.handle_key_event(false, 0, 46), up);
    assert_eq!(table.handle_key_event(true, SHIFT_MASK | LOCK_MASK, 46), None);
}

#[test]
fn unregistering_releases_the_combination() {
    let mut ids = IdAllocator::new();
    let h = hotkey(ALT, Code::KeyU, &mut ids);
    let mut table = GrabTable::new();
    table.finish_register(h, MOD1_MASK, 30, false).unwrap();
    table.finish_unregister(Some((MOD1_MASK, 30)));
    assert!(!table.contains(MOD1_MASK, 30));
    assert_eq!(table.handle_key_event(true, MOD1_MASK, 30), None);
    table.finish_unregister(Some((MOD1_MASK, 30)));
    table.finish_unregister(None);
    assert!(table.finish_register(h, MOD1_MASK, 30, false).is_ok());
}

#[test]
fn unregistered_combinations_are_ignored() {
    let mut table = GrabTable::new();
    assert_eq!(table.handle_key_event(true, 0, 10), None);
    table.remove(0, 10);
    assert!(!table.contains(0, 10));
}
