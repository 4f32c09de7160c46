use std::collections::hash_map::DefaultHasher;
use std::hash::{Hash, Hasher};

use global_hotkey::code::{Code, ALT, CAPS_LOCK, CONTROL, NUM_LOCK, SHIFT};
use global_hotkey::hotkey::{HotKey, IdAllocator, Modifiers};

fn hash_of(h: &HotKey) -> u64 {
    let mut s = DefaultHasher::new();
    h.hash(&mut s);
    s.finish()
}

#[test]
fn equality_ignores_the_id() {
    let mut ids = IdAllocator::new();
    let a = HotKey::new(Some(Modifiers::from_bits_truncate(SHIFT)), Code::KeyQ, &mut ids);
    let b = HotKey::new(Some(Modifiers::from_bits_truncate(SHIFT)), Code::KeyQ, &mut ids);
    assert_ne!(a.id(), b.id());
    assert_eq!(a, b);
    assert_eq!(hash_of(&a), hash_of(&b));
    let c = HotKey::new(Some(Modifiers::from_bits_truncate(ALT)), Code::KeyQ, &mut ids);
    assert_ne!(a, c);
}

#[test]
fn new_without_modifiers_is_empty() {
    let mut ids = IdAllocator::new();
    let a = HotKey::new(None, Code::F1, &mut ids);
    assert_eq!(a.mods.bits(), 0);
    assert_eq!(a.key, Code::F1);
    assert!(ids.has_next());
    assert_eq!(ids.next(), 1);
}

#[test]
fn matches_ignores_lock_flags() {
    let mut ids = IdAllocator::new();
    let h = HotKey::new(Some(Modifiers::from_bits_truncate(CONTROL | SHIFT)), Code::KeyD, &mut ids);
    assert!(h.matches(Modifiers::from_bits_truncate(CONTROL | SHIFT | CAPS_LOCK | NUM_LOCK), Code::KeyD));
    assert!(!h.matches(Modifiers::from_bits_truncate(CONTROL), Code::KeyD));
    assert!(!h.matches(Modifiers::from_bits_truncate(CONTROL | SHIFT), Code::KeyE));
}

#[test]
fn modifier_set_operations() {
    let mut m = Modifiers::empty();
    m.set(Modifiers::from_bits_truncate(ALT), true);
    m.set(Modifiers::from_bits_truncate(SHIFT), true);
    assert!(m.contains(Modifiers::from_bits_truncate(ALT | SHIFT)));
    assert!(m.intersects(Modifiers::from_bits_truncate(SHIFT | CONTROL)));
    assert!(!m.contains(Modifiers::from_bits_truncate(SHIFT | CONTROL)));
    m.set(Modifiers::from_bits_truncate(ALT), false);
    assert_eq!(m.bits(), SHIFT);
    assert_eq!(Modifiers::from_bits_truncate(0xffff_ffff).bits(), 0x3fff);
}

#[test]
fn code_names() {
    assert_eq!(Code::KeyA.name(), "KeyA");
    assert_eq!(Code::MediaTrackPrevious.name(), "MediaTrackPrevious");
}
