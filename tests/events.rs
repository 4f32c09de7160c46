use std::sync::atomic::{AtomicU32, Ordering};
use std::sync::Arc;

use global_hotkey::carbon::{hotkey_signature, modifiers_to_carbon_mods};
use global_hotkey::code::{Code, ALT, CONTROL, SHIFT, SUPER};
use global_hotkey::hotkey::{HotKey, IdAllocator, Modifiers};
use global_hotkey::x11::{register_target, GrabTable};
use global_hotkey::manager::{answer_outcome, register_each, unregister_each, HotKeyBackend};
use global_hotkey::{Error, EventBus, GlobalHotKeyEvent, GlobalHotKeyManager, HotKeyState};

type Handler = Box<dyn Fn(GlobalHotKeyEvent)>;

fn event(id: u32) -> GlobalHotKeyEvent {
    GlobalHotKeyEvent { id, state: HotKeyState::Pressed }
}

#[test]
fn events_go_to_the_channel_without_handler() {
    let mut bus: EventBus<Handler> = EventBus::new();
    GlobalHotKeyEvent::send(&mut bus, event(7));
    let rx = GlobalHotKeyEvent::receiver(&bus);
    assert_eq!(rx.try_recv().unwrap(), event(7));
    assert!(rx.try_recv().is_err());
}

#[test]
fn handler_takes_events_and_first_choice_wins() {
    let seen = Arc::new(AtomicU32::new(0));
    let s = seen.clone();
    let mut bus: EventBus<Handler> = EventBus::new();
    GlobalHotKeyEvent::set_event_handler(&mut bus, Some(Box::new(move |e: GlobalHotKeyEvent| {
        s.fetch_add(e.id, Ordering::SeqCst);
    }) as Handler));
    GlobalHotKeyEvent::set_event_handler(&mut bus, None);
    GlobalHotKeyEvent::send(&mut bus, event(5));
    GlobalHotKeyEvent::send(&mut bus, event(2));
    assert_eq!(seen.load(Ordering::SeqCst), 7);
    assert!(GlobalHotKeyEvent::receiver(&bus).try_recv().is_err());
}

#[test]
fn choosing_the_channel_blocks_a_later_handler() {
    let seen = Arc::new(AtomicU32::new(0));
    let s = seen.clone();
    let mut bus: EventBus<Handler> = EventBus::new();
    GlobalHotKeyEvent::set_event_handler(&mut bus, None);
    GlobalHotKeyEvent::set_event_handler(&mut bus, Some(Box::new(move |e: GlobalHotKeyEvent| {
        s.fetch_add(e.id, Ordering::SeqCst);
    }) as Handler));
    GlobalHotKeyEvent::send(&mut bus, event(3));
    assert_eq!(seen.load(Ordering::SeqCst), 0);
    assert_eq!(GlobalHotKeyEvent::receiver(&bus).try_recv().unwrap(), event(3));
}

#[test]
fn sending_first_chooses_the_channel() {
    let seen = Arc::new(AtomicU32::new(0));
    let s = seen.clone();
    let mut bus: EventBus<Handler> = EventBus::new();
    GlobalHotKeyEvent::send(&mut bus, event(4));
    GlobalHotKeyEvent::set_event_handler(&mut bus, Some(Box::new(move |e: GlobalHotKeyEvent| {
        s.fetch_add(e.id, Ordering::SeqCst);
    }) as Handler));
    GlobalHotKeyEvent::send(&mut bus, event(6));
    assert_eq!(seen.load(Ordering::SeqCst), 0);
    let rx = GlobalHotKeyEvent::receiver(&bus);
    assert_eq!(rx.try_recv().unwrap(), event(4));
    assert_eq!(rx.try_recv().unwrap(), event(6));
}

struct Recorder {
    calls: std::cell::RefCell<Vec<(&'static str, u32)>>,
    fail_on: Option<u32>,
}

impl HotKeyBackend for Recorder {
    fn registered(&self, _hotkey: HotKey, _r: Result<(), Error>) -> bool {
        true
    }

    fn unregistered(&self, _hotkey: HotKey, _r: Result<(), Error>) -> bool {
        true
    }

    fn register(&self, hotkey: HotKey) -> Result<(), Error> {
        self.calls.borrow_mut().push(("register", hotkey.id()));
        if self.fail_on == Some(hotkey.id()) {
            return Err(Error::AlreadyRegistered(hotkey));
        }
        Ok(())
    }

    fn unregister(&self, hotkey: HotKey) -> Result<(), Error> {
        self.calls.borrow_mut().push(("unregister", hotkey.id()));
        if self.fail_on == Some(hotkey.id()) {
            return Err(Error::FailedToUnRegister(hotkey));
        }
        Ok(())
    }
}

fn three_hotkeys() -> Vec<HotKey> {
    let mut ids = IdAllocator::new();
    vec![
        HotKey::new(None, Code::KeyA, &mut ids),
        HotKey::new(None, Code::KeyB, &mut ids),
        HotKey::new(None, Code::KeyC, &mut ids),
    ]
}

#[test]
fn unregister_all_unregisters() {
    let keys = three_hotkeys();
    let b = Recorder { calls: Default::default(), fail_on: None };
    assert!(unregister_each(&b, &keys).is_ok());
    assert_eq!(*b.calls.borrow(), vec![("unregister", 0), ("unregister", 1), ("unregister", 2)]);
}

#[test]
fn register_all_stops_at_first_error() {
    let keys = three_hotkeys();
    let b = Recorder { calls: Default::default(), fail_on: Some(1) };
    assert!(matches!(register_each(&b, &keys), Err(Error::AlreadyRegistered(_))));
    assert_eq!(*b.calls.borrow(), vec![("register", 0), ("register", 1)]);
    let b = Recorder { calls: Default::default(), fail_on: Some(0) };
    assert!(matches!(unregister_each(&b, &keys), Err(Error::FailedToUnRegister(_))));
    assert_eq!(*b.calls.borrow(), vec![("unregister", 0)]);
}

#[test]
fn answers_reach_the_caller() {
    let mut ids = IdAllocator::new();
    let h = HotKey::new(None, Code::KeyA, &mut ids);
    let other = HotKey::new(None, Code::KeyA, &mut ids);
    assert!(answer_outcome(h, None).is_ok());
    let mut table = GrabTable::new();
    let first = table.answer_register(h, 0, 38, false);
    assert!(answer_outcome(h, Some(first)).is_ok());
    let second = table.answer_register(h, 0, 38, false);
    assert!(matches!(answer_outcome(h, Some(second)), Err(Error::AlreadyRegistered(k)) if k.id() == h.id()));
    let refused = table.answer_register(other, 0, 38, true);
    assert!(answer_outcome(h, Some(refused)).is_ok());
    let unknown = HotKey::new(None, Code::F20, &mut ids);
    match register_target(unknown) {
        Err(answer) => match answer_outcome(unknown, Some(answer)) {
            Err(Error::FailedToRegister(msg)) => {
                assert_eq!(msg, "Unable to register accelerator (unknown scancode for this key: F20).")
            }
            other => panic!("unexpected result {:?}", other),
        },
        Ok(_) => panic!("F20 has no keysym"),
    }
}

#[test]
fn manager_without_worker_answers_success() {
    let (tx, rx) = crossbeam_channel::unbounded();
    drop(rx);
    let manager = GlobalHotKeyManager::new(tx);
    let keys = three_hotkeys();
    assert!(manager.register(keys[0]).is_ok());
    assert!(manager.unregister(keys[0]).is_ok());
    assert!(manager.register_all(&keys).is_ok());
    assert!(manager.unregister_all(&keys).is_ok());
    manager.shutdown();
}

#[test]
fn carbon_modifiers_and_signature() {
    let m = |b: u32| modifiers_to_carbon_mods(Modifiers::from_bits_truncate(b));
    assert_eq!(m(SHIFT), 512);
    assert_eq!(m(SUPER), 256);
    assert_eq!(m(ALT | CONTROL), 2048 | 4096);
    assert_eq!(hotkey_signature(), 1752461939);
}
