use vstd::prelude::*;
use vstd::string::StringExecFns;

use crate::code::{code_name, Code, ALT, CONTROL, META, SHIFT, SUPER};
use crate::error::Error;
use crate::event::{GlobalHotKeyEvent, HotKeyState};
use crate::hotkey::{HotKey, Modifiers};

verus! {

broadcast use vstd::std_specs::hash::group_hash_axioms;

/// The X11 modifier masks.
pub const SHIFT_MASK: u32 = 0x01;
pub const LOCK_MASK: u32 = 0x02;
pub const CONTROL_MASK: u32 = 0x04;
pub const MOD1_MASK: u32 = 0x08;
pub const MOD2_MASK: u32 = 0x10;
pub const MOD4_MASK: u32 = 0x40;

/// The masks that a hotkey's identity is made of: Control, Shift, Super
/// (Mod4) and Alt (Mod1). Lock keys (CapsLock, NumLock on Mod2) are left out.
pub const TRACKED_MASKS: u32 = 0x4d;

/// The lock-key states that a grab must cover, by index: none, NumLock,
/// CapsLock, both.
pub open spec fn ignored_mask(i: int) -> u32 {
    if i == 0 {
        0
    } else if i == 1 {
        MOD2_MASK
    } else if i == 2 {
        LOCK_MASK
    } else {
        MOD2_MASK | LOCK_MASK
    }
}

/// The number of grabs that one hotkey takes.
pub const GRAB_COUNT: usize = 4;

pub fn ignored_mask_at(i: usize) -> (r: u32)
    requires
        i < GRAB_COUNT,
    ensures
        r == ignored_mask(i as int),
{
    if i == 0 {
        0
    } else if i == 1 {
        MOD2_MASK
    } else if i == 2 {
        LOCK_MASK
    } else {
        MOD2_MASK | LOCK_MASK
    }
}

/// The X11 modifier mask for a set of modifiers.
pub open spec fn x11_mods(bits: u32) -> u32 {
    (if bits & SHIFT == SHIFT { SHIFT_MASK } else { 0 }) | (if bits & (SUPER | META) != 0 {
        MOD4_MASK
    } else {
        0
    }) | (if bits & ALT == ALT { MOD1_MASK } else { 0 }) | (if bits & CONTROL == CONTROL {
        CONTROL_MASK
    } else {
        0
    })
}

/// A modifier mask made from a set of modifiers holds tracked masks only.
pub proof fn lemma_x11_mods_tracked(bits: u32)
    ensures
        x11_mods(bits) & !TRACKED_MASKS == 0,
{
    let a: u32 = if bits & SHIFT == SHIFT { SHIFT_MASK } else { 0 };
    let b: u32 = if bits & (SUPER | META) != 0 { MOD4_MASK } else { 0 };
    let c: u32 = if bits & ALT == ALT { MOD1_MASK } else { 0 };
    let d: u32 = if bits & CONTROL == CONTROL { CONTROL_MASK } else { 0 };
    assert((a | b | c | d) & !0x4du32 == 0) by (bit_vector)
        requires
            a == 0 || a == 0x01,
            b == 0 || b == 0x40,
            c == 0 || c == 0x08,
            d == 0 || d == 0x04,
    ;
}

pub fn modifiers_to_x11_mods(modifiers: Modifiers) -> (r: u32)
    ensures
        r == x11_mods(modifiers.bits),
{
    let shift = if modifiers.contains(Modifiers { bits: SHIFT }) {
        SHIFT_MASK
    } else {
        0
    };
    let super_key = if modifiers.intersects(Modifiers { bits: SUPER | META }) {
        MOD4_MASK
    } else {
        0
    };
    let alt = if modifiers.contains(Modifiers { bits: ALT }) {
        MOD1_MASK
    } else {
        0
    };
    let control = if modifiers.contains(Modifiers { bits: CONTROL }) {
        CONTROL_MASK
    } else {
        0
    };
    shift | super_key | alt | control
}

/// The X11 keysym of a key, where it has one.
pub open spec fn x11_keysym(key: Code) -> Option<u32> {
    match key {
        Code::KeyA => Some('A' as u32),
        Code::KeyB => Some('B' as u32),
        Code::KeyC => Some('C' as u32),
        Code::KeyD => Some('D' as u32),
        Code::KeyE => Some('E' as u32),
        Code::KeyF => Some('F' as u32),
        Code::KeyG => Some('G' as u32),
        Code::KeyH => Some('H' as u32),
        Code::KeyI => Some('I' as u32),
        Code::KeyJ => Some('J' as u32),
        Code::KeyK => Some('K' as u32),
        Code::KeyL => Some('L' as u32),
        Code::KeyM => Some('M' as u32),
        Code::KeyN => Some('N' as u32),
        Code::KeyO => Some('O' as u32),
        Code::KeyP => Some('P' as u32),
        Code::KeyQ => Some('Q' as u32),
        Code::KeyR => Some('R' as u32),
        Code::KeyS => Some('S' as u32),
        Code::KeyT => Some('T' as u32),
        Code::KeyU => Some('U' as u32),
        Code::KeyV => Some('V' as u32),
        Code::KeyW => Some('W' as u32),
        Code::KeyX => Some('X' as u32),
        Code::KeyY => Some('Y' as u32),
        Code::KeyZ => Some('Z' as u32),
        Code::Backslash => Some(0x5c),  // XK_backslash
        Code::BracketLeft => Some(0x5b),  // XK_bracketleft
        Code::BracketRight => Some(0x5d),  // XK_bracketright
        Code::Comma => Some(0x2c),  // XK_comma
        Code::Digit0 => Some('0' as u32),
        Code::Digit1 => Some('1' as u32),
        Code::Digit2 => Some('2' as u32),
        Code::Digit3 => Some('3' as u32),
        Code::Digit4 => Some('4' as u32),
        Code::Digit5 => Some('5' as u32),
        Code::Digit6 => Some('6' as u32),
        Code::Digit7 => Some('7' as u32),
        Code::Digit8 => Some('8' as u32),
        Code::Digit9 => Some('9' as u32),
        Code::Equal => Some(0x3d),  // XK_equal
        Code::IntlBackslash => Some(0x5c),  // XK_backslash
        Code::Minus => Some(0x2d),  // XK_minus
        Code::Period => Some(0x2e),  // XK_period
        Code::Quote => Some(0xad0),  // XK_leftsinglequotemark
        Code::Semicolon => Some(0x3b),  // XK_semicolon
        Code::Slash => Some(0x2f),  // XK_slash
        Code::Backspace => Some(0xff08),  // XK_BackSpace
        Code::CapsLock => Some(0xffe5),  // XK_Caps_Lock
        Code::Enter => Some(0xff0d),  // XK_Return
        Code::Space => Some(0x20),  // XK_space
        Code::Tab => Some(0xff09),  // XK_Tab
        Code::Delete => Some(0xffff),  // XK_Delete
        Code::End => Some(0xff57),  // XK_End
        Code::Home => Some(0xff50),  // XK_Home
        Code::Insert => Some(0xff63),  // XK_Insert
        Code::PageDown => Some(0xff56),  // XK_Page_Down
        Code::PageUp => Some(0xff55),  // XK_Page_Up
        Code::ArrowDown => Some(0xff54),  // XK_Down
        Code::ArrowLeft => Some(0xff51),  // XK_Left
        Code::ArrowRight => Some(0xff53),  // XK_Right
        Code::ArrowUp => Some(0xff52),  // XK_Up
        Code::Numpad0 => Some(0xffb0),  // XK_KP_0
        Code::Numpad1 => Some(0xffb1),  // XK_KP_1
        Code::Numpad2 => Some(0xffb2),  // XK_KP_2
        Code::Numpad3 => Some(0xffb3),  // XK_KP_3
        Code::Numpad4 => Some(0xffb4),  // XK_KP_4
        Code::Numpad5 => Some(0xffb5),  // XK_KP_5
        Code::Numpad6 => Some(0xffb6),  // XK_KP_6
        Code::Numpad7 => Some(0xffb7),  // XK_KP_7
        Code::Numpad8 => Some(0xffb8),  // XK_KP_8
        Code::Numpad9 => Some(0xffb9),  // XK_KP_9
        Code::NumpadAdd => Some(0xffab),  // XK_KP_Add
        Code::NumpadDecimal => Some(0xffae),  // XK_KP_Decimal
        Code::NumpadDivide => Some(0xffaf),  // XK_KP_Divide
        Code::NumpadMultiply => Some(0xffaa),  // XK_KP_Multiply
        Code::NumpadSubtract => Some(0xffad),  // XK_KP_Subtract
        Code::Escape => Some(0xff1b),  // XK_Escape
        Code::PrintScreen => Some(0xff61),  // XK_Print
        Code::ScrollLock => Some(0xff14),  // XK_Scroll_Lock
        Code::Pause => Some(0x1008ff14),  // XF86XK_AudioPlay
        Code::MediaStop => Some(0x1008ff15),  // XF86XK_AudioStop
        Code::MediaTrackNext => Some(0x1008ff17),  // XF86XK_AudioNext
        Code::MediaTrackPrevious => Some(0x1008ff16),  // XF86XK_AudioPrev
        Code::AudioVolumeDown => Some(0x1008ff11),  // XF86XK_AudioLowerVolume
        Code::AudioVolumeMute => Some(0x1008ff12),  // XF86XK_AudioMute
        Code::AudioVolumeUp => Some(0x1008ff13),  // XF86XK_AudioRaiseVolume
        Code::F1 => Some(0xffbe),  // XK_F1
        Code::F2 => Some(0xffbf),  // XK_F2
        Code::F3 => Some(0xffc0),  // XK_F3
        Code::F4 => Some(0xffc1),  // XK_F4
        Code::F5 => Some(0xffc2),  // XK_F5
        Code::F6 => Some(0xffc3),  // XK_F6
        Code::F7 => Some(0xffc4),  // XK_F7
        Code::F8 => Some(0xffc5),  // XK_F8
        Code::F9 => Some(0xffc6),  // XK_F9
        Code::F10 => Some(0xffc7),  // XK_F10
        Code::F11 => Some(0xffc8),  // XK_F11
        Code::F12 => Some(0xffc9),  // XK_F12
        _ => None,
    }
}

pub fn keycode_to_x11_scancode(key: Code) -> (r: Option<u32>)
    ensures
        r == x11_keysym(key),
{
    match key {
        Code::KeyA => Some('A' as u32),
        Code::KeyB => Some('B' as u32),
        Code::KeyC => Some('C' as u32),
        Code::KeyD => Some('D' as u32),
        Code::KeyE => Some('E' as u32),
        Code::KeyF => Some('F' as u32),
        Code::KeyG => Some('G' as u32),
        Code::KeyH => Some('H' as u32),
        Code::KeyI => Some('I' as u32),
        Code::KeyJ => Some('J' as u32),
        Code::KeyK => Some('K' as u32),
        Code::KeyL => Some('L' as u32),
        Code::KeyM => Some('M' as u32),
        Code::KeyN => Some('N' as u32),
        Code::KeyO => Some('O' as u32),
        Code::KeyP => Some('P' as u32),
        Code::KeyQ => Some('Q' as u32),
        Code::KeyR => Some('R' as u32),
        Code::KeyS => Some('S' as u32),
        Code::KeyT => Some('T' as u32),
        Code::KeyU => Some('U' as u32),
        Code::KeyV => Some('V' as u32),
        Code::KeyW => Some('W' as u32),
        Code::KeyX => Some('X' as u32),
        Code::KeyY => Some('Y' as u32),
        Code::KeyZ => Some('Z' as u32),
        Code::Backslash => Some(0x5c),  // XK_backslash
        Code::BracketLeft => Some(0x5b),  // XK_bracketleft
        Code::BracketRight => Some(0x5d),  // XK_bracketright
        Code::Comma => Some(0x2c),  // XK_comma
        Code::Digit0 => Some('0' as u32),
        Code::Digit1 => Some('1' as u32),
        Code::Digit2 => Some('2' as u32),
        Code::Digit3 => Some('3' as u32),
        Code::Digit4 => Some('4' as u32),
        Code::Digit5 => Some('5' as u32),
        Code::Digit6 => Some('6' as u32),
        Code::Digit7 => Some('7' as u32),
        Code::Digit8 => Some('8' as u32),
        Code::Digit9 => Some('9' as u32),
        Code::Equal => Some(0x3d),  // XK_equal
        Code::IntlBackslash => Some(0x5c),  // XK_backslash
        Code::Minus => Some(0x2d),  // XK_minus
        Code::Period => Some(0x2e),  // XK_period
        Code::Quote => Some(0xad0),  // XK_leftsinglequotemark
        Code::Semicolon => Some(0x3b),  // XK_semicolon
        Code::Slash => Some(0x2f),  // XK_slash
        Code::Backspace => Some(0xff08),  // XK_BackSpace
        Code::CapsLock => Some(0xffe5),  // XK_Caps_Lock
        Code::Enter => Some(0xff0d),  // XK_Return
        Code::Space => Some(0x20),  // XK_space
        Code::Tab => Some(0xff09),  // XK_Tab
        Code::Delete => Some(0xffff),  // XK_Delete
        Code::End => Some(0xff57),  // XK_End
        Code::Home => Some(0xff50),  // XK_Home
        Code::Insert => Some(0xff63),  // XK_Insert
        Code::PageDown => Some(0xff56),  // XK_Page_Down
        Code::PageUp => Some(0xff55),  // XK_Page_Up
        Code::ArrowDown => Some(0xff54),  // XK_Down
        Code::ArrowLeft => Some(0xff51),  // XK_Left
        Code::ArrowRight => Some(0xff53),  // XK_Right
        Code::ArrowUp => Some(0xff52),  // XK_Up
        Code::Numpad0 => Some(0xffb0),  // XK_KP_0
        Code::Numpad1 => Some(0xffb1),  // XK_KP_1
        Code::Numpad2 => Some(0xffb2),  // XK_KP_2
        Code::Numpad3 => Some(0xffb3),  // XK_KP_3
        Code::Numpad4 => Some(0xffb4),  // XK_KP_4
        Code::Numpad5 => Some(0xffb5),  // XK_KP_5
        Code::Numpad6 => Some(0xffb6),  // XK_KP_6
        Code::Numpad7 => Some(0xffb7),  // XK_KP_7
        Code::Numpad8 => Some(0xffb8),  // XK_KP_8
        Code::Numpad9 => Some(0xffb9),  // XK_KP_9
        Code::NumpadAdd => Some(0xffab),  // XK_KP_Add
        Code::NumpadDecimal => Some(0xffae),  // XK_KP_Decimal
        Code::NumpadDivide => Some(0xffaf),  // XK_KP_Divide
        Code::NumpadMultiply => Some(0xffaa),  // XK_KP_Multiply
        Code::NumpadSubtract => Some(0xffad),  // XK_KP_Subtract
        Code::Escape => Some(0xff1b),  // XK_Escape
        Code::PrintScreen => Some(0xff61),  // XK_Print
        Code::ScrollLock => Some(0xff14),  // XK_Scroll_Lock
        Code::Pause => Some(0x1008ff14),  // XF86XK_AudioPlay
        Code::MediaStop => Some(0x1008ff15),  // XF86XK_AudioStop
        Code::MediaTrackNext => Some(0x1008ff17),  // XF86XK_AudioNext
        Code::MediaTrackPrevious => Some(0x1008ff16),  // XF86XK_AudioPrev
        Code::AudioVolumeDown => Some(0x1008ff11),  // XF86XK_AudioLowerVolume
        Code::AudioVolumeMute => Some(0x1008ff12),  // XF86XK_AudioMute
        Code::AudioVolumeUp => Some(0x1008ff13),  // XF86XK_AudioRaiseVolume
        Code::F1 => Some(0xffbe),  // XK_F1
        Code::F2 => Some(0xffbf),  // XK_F2
        Code::F3 => Some(0xffc0),  // XK_F3
        Code::F4 => Some(0xffc1),  // XK_F4
        Code::F5 => Some(0xffc2),  // XK_F5
        Code::F6 => Some(0xffc3),  // XK_F6
        Code::F7 => Some(0xffc4),  // XK_F7
        Code::F8 => Some(0xffc5),  // XK_F8
        Code::F9 => Some(0xffc6),  // XK_F9
        Code::F10 => Some(0xffc7),  // XK_F10
        Code::F11 => Some(0xffc8),  // XK_F11
        Code::F12 => Some(0xffc9),  // XK_F12
        _ => None,
    }
}

/// The four masks that a grab of `mask` is made with, one per lock-key state.
pub open spec fn lock_variants(mask: u32) -> Seq<u32> {
    Seq::new(GRAB_COUNT as nat, |i: int| mask | ignored_mask(i))
}

pub fn lock_variants_of(mask: u32) -> (r: Vec<u32>)
    ensures
        r@ == lock_variants(mask),
{
    let mut r: Vec<u32> = Vec::new();
    let mut i: usize = 0;
    while i < GRAB_COUNT
        invariant
            i <= GRAB_COUNT,
            r@ == lock_variants(mask).take(i as int),
        decreases GRAB_COUNT - i,
    {
        r.push(mask | ignored_mask_at(i));
        i = i + 1;
        assert(r@ =~= lock_variants(mask).take(i as int));
    }
    assert(r@ =~= lock_variants(mask));
    r
}

/// The grabs of one registration, made one after the other until the X
/// server refuses one.
pub struct GrabSequence {
    mask: u32,
    made: usize,
    refused: bool,
}

impl GrabSequence {
    pub closed spec fn mask(&self) -> u32 {
        self.mask
    }

    /// How many grabs were made.
    pub closed spec fn made(&self) -> nat {
        self.made as nat
    }

    /// Whether a grab was refused.
    pub closed spec fn was_refused(&self) -> bool {
        self.refused
    }

    pub closed spec fn wf(&self) -> bool {
        self.made <= GRAB_COUNT
    }

    pub fn new(mask: u32) -> (r: GrabSequence)
        ensures
            r.wf(),
            r.mask() == mask,
            r.made() == 0,
            !r.was_refused(),
    {
        GrabSequence { mask, made: 0, refused: false }
    }

    /// The mask of the next grab to make, if any is left.
    pub fn next_grab(&self) -> (r: Option<u32>)
        requires
            self.wf(),
        ensures
            r == if !self.was_refused() && self.made() < GRAB_COUNT {
                Some(self.mask() | ignored_mask(self.made() as int))
            } else {
                None::<u32>
            },
    {
        if !self.refused && self.made < GRAB_COUNT {
            Some(self.mask | ignored_mask_at(self.made))
        } else {
            None
        }
    }

    /// Takes note of the grab just made, and of whether it was refused.
    pub fn record(&mut self, refused: bool)
        requires
            old(self).wf(),
            !old(self).was_refused(),
            old(self).made() < GRAB_COUNT,
        ensures
            final(self).wf(),
            final(self).mask() == old(self).mask(),
            final(self).made() == old(self).made() + 1,
            final(self).was_refused() == refused,
    {
        self.made = self.made + 1;
        self.refused = refused;
    }

    pub fn refused(&self) -> (r: bool)
        ensures
            r == self.was_refused(),
    {
        self.refused
    }

    /// The grabs to release once the sequence ends: every lock-key variant
    /// after a refusal, none otherwise.
    pub fn rollback(&self) -> (r: Vec<u32>)
        ensures
            self.was_refused() ==> r@ == lock_variants(self.mask()),
            !self.was_refused() ==> r@.len() == 0,
    {
        if self.refused {
            lock_variants_of(self.mask)
        } else {
            Vec::new()
        }
    }
}

/// The message of the error for a key without a keysym.
pub open spec fn unknown_keysym_message(key: Code) -> Seq<char> {
    "Unable to register accelerator (unknown scancode for this key: "@ + code_name(key) + ")."@
}

/// The X11 modifier mask and keysym of a hotkey; the key must have a
/// keysym.
pub fn x11_target(hotkey: &HotKey) -> (r: Result<(u32, u32), Error>)
    ensures
        match x11_keysym(hotkey.key) {
            Some(k) => r is Ok && r->Ok_0 == (x11_mods(hotkey.mods.bits), k) && r->Ok_0.0
                & !TRACKED_MASKS == 0,
            None => r is Err && r->Err_0 is FailedToRegister && r->Err_0->FailedToRegister_0@
                == unknown_keysym_message(hotkey.key),
        },
{
    proof {
        lemma_x11_mods_tracked(hotkey.mods.bits);
    }
    match keycode_to_x11_scancode(hotkey.key) {
        Some(k) => Ok((modifiers_to_x11_mods(hotkey.mods), k)),
        None => {
            let message = String::from_str(
                "Unable to register accelerator (unknown scancode for this key: ",
            ).concat(hotkey.key.name()).concat(").");
            Err(Error::FailedToRegister(message))
        },
    }
}

/// The table key of a grabbed combination.
pub open spec fn combo(mask: u32, keycode: u32) -> u64 {
    ((mask as int) * 0x1_0000_0000 + keycode as int) as u64
}

fn combo_of(mask: u32, keycode: u32) -> (r: u64)
    ensures
        r == combo(mask, keycode),
{
    assert((mask as int) * 0x1_0000_0000 + keycode as int <= u64::MAX) by (nonlinear_arith);
    (mask as u64) * 0x1_0000_0000u64 + keycode as u64
}

/// The tracked part of the modifier state that an X11 key event reports.
pub open spec fn event_mask(state: u32) -> u32 {
    state & TRACKED_MASKS
}

/// A registration: the hotkey's id, and whether its key is held down.
pub type Grabbed = (u32, bool);

/// What a registration leaves of the table: `None` where the combination is
/// taken, by another client (`conflict`) or in the table already.
pub open spec fn registered(
    table: Map<u64, Grabbed>,
    key: u64,
    id: u32,
    conflict: bool,
) -> Option<Map<u64, Grabbed>> {
    if conflict || table.contains_key(key) {
        None
    } else {
        Some(table.insert(key, (id, false)))
    }
}

/// The table after a native key event on `key`, and the event it reports:
/// a press only when the key was up, a release only when it was down, so
/// that auto-repeat gives one press.
pub open spec fn key_step(table: Map<u64, Grabbed>, key: u64, pressed: bool) -> (Map<u64, Grabbed>, Option<GlobalHotKeyEvent>) {
    if table.contains_key(key) {
        let (id, down) = table[key];
        if pressed && !down {
            (table.insert(key, (id, true)), Some(GlobalHotKeyEvent { id, state: HotKeyState::Pressed }))
        } else if !pressed && down {
            (table.insert(key, (id, false)), Some(GlobalHotKeyEvent { id, state: HotKeyState::Released }))
        } else {
            (table, None)
        }
    } else {
        (table, None)
    }
}

/// What the worker may answer to a request to register `hotkey`: success,
/// the combination taken already, or the key without a keysym.
pub open spec fn register_outcome(hotkey: HotKey, r: Result<(), Error>) -> bool {
    match r {
        Ok(_) => true,
        Err(e) => e == Error::AlreadyRegistered(hotkey) || (x11_keysym(hotkey.key) is None
            && e is FailedToRegister && e->FailedToRegister_0@ == unknown_keysym_message(
            hotkey.key,
        )),
    }
}

/// The worker's answer to a request to register a hotkey. Only the
/// worker's steps below make one, so every answer is one that they allow.
pub struct RegisterAnswer {
    hotkey: HotKey,
    result: Result<(), Error>,
}

impl RegisterAnswer {
    #[verifier::type_invariant]
    spec fn inv(&self) -> bool {
        register_outcome(self.hotkey, self.result)
    }

    pub closed spec fn hotkey(&self) -> HotKey {
        self.hotkey
    }

    pub closed spec fn result(&self) -> Result<(), Error> {
        self.result
    }

    /// The hotkey that the answer is about, and the answer.
    pub fn into_parts(self) -> (r: (HotKey, Result<(), Error>))
        ensures
            r.0 == self.hotkey(),
            r.1 == self.result(),
            register_outcome(r.0, r.1),
    {
        proof {
            use_type_invariant(&self);
        }
        (self.hotkey, self.result)
    }
}

/// The first step of a registration: the X11 mask and keysym of `hotkey`,
/// or, for a key without a keysym, the worker's answer.
pub fn register_target(hotkey: HotKey) -> (r: Result<(u32, u32), RegisterAnswer>)
    ensures
        match x11_keysym(hotkey.key) {
            Some(k) => r is Ok && r->Ok_0 == (x11_mods(hotkey.mods.bits), k) && r->Ok_0.0
                & !TRACKED_MASKS == 0,
            None => r is Err && r->Err_0.hotkey() == hotkey && r->Err_0.result() is Err
                && r->Err_0.result()->Err_0 is FailedToRegister
                && r->Err_0.result()->Err_0->FailedToRegister_0@ == unknown_keysym_message(
                hotkey.key,
            ),
        },
{
    match x11_target(&hotkey) {
        Ok(t) => Ok(t),
        Err(e) => Err(RegisterAnswer { hotkey, result: Err(e) }),
    }
}

/// The grabbed combinations of one X11 connection.
pub struct GrabTable {
    entries: std::collections::HashMap<u64, Grabbed>,
}

impl GrabTable {
    pub closed spec fn view(&self) -> Map<u64, Grabbed> {
        self.entries@
    }

    pub fn new() -> (r: GrabTable)
        ensures
            r.view() == Map::<u64, Grabbed>::empty(),
    {
        GrabTable { entries: std::collections::HashMap::new() }
    }

    pub fn contains(&self, mask: u32, keycode: u32) -> (r: bool)
        ensures
            r == self.view().contains_key(combo(mask, keycode)),
    {
        self.entries.contains_key(&combo_of(mask, keycode))
    }

    /// Ends the registration of `hotkey` as `mask` on `keycode`, once its
    /// grabs were made: `conflict` tells whether one of them was refused.
    /// The mask holds no lock-key bits, so that events under any lock state
    /// find the entry.
    pub fn finish_register(&mut self, hotkey: HotKey, mask: u32, keycode: u32, conflict: bool) -> (r: Result<(), Error>)
        requires
            mask & !TRACKED_MASKS == 0,
        ensures
            match registered(old(self).view(), combo(mask, keycode), hotkey.id, conflict) {
                Some(t) => r is Ok && final(self).view() == t,
                None => r is Err && r->Err_0 == Error::AlreadyRegistered(hotkey) && final(self).view()
                    == old(self).view(),
            },
    {
        let key = combo_of(mask, keycode);
        if conflict || self.entries.contains_key(&key) {
            return Err(Error::AlreadyRegistered(hotkey));
        }
        self.entries.insert(key, (hotkey.id, false));
        Ok(())
    }

    /// The last step of a registration: `finish_register`, with its result
    /// made the worker's answer.
    pub fn answer_register(&mut self, hotkey: HotKey, mask: u32, keycode: u32, conflict: bool) -> (r: RegisterAnswer)
        requires
            mask & !TRACKED_MASKS == 0,
        ensures
            r.hotkey() == hotkey,
            match registered(old(self).view(), combo(mask, keycode), hotkey.id, conflict) {
                Some(t) => r.result() is Ok && final(self).view() == t,
                None => r.result() == Err::<(), Error>(Error::AlreadyRegistered(hotkey))
                    && final(self).view() == old(self).view(),
            },
    {
        let result = self.finish_register(hotkey, mask, keycode, conflict);
        RegisterAnswer { hotkey, result }
    }

    /// The last step of an unregistration, once the grabs of `target` (its
    /// mask and keycode) were released: forgets that combination. A key
    /// without a keysym (`None`) was never grabbed, and leaves the table as
    /// it is. Nothing here can fail, registered before or not.
    pub fn finish_unregister(&mut self, target: Option<(u32, u32)>)
        ensures
            match target {
                Some((mask, keycode)) => final(self).view() == old(self).view().remove(
                    combo(mask, keycode),
                ),
                None => final(self).view() == old(self).view(),
            },
    {
        if let Some((mask, keycode)) = target {
            self.remove(mask, keycode);
        }
    }

    /// Forgets the combination `mask` on `keycode`, if it was there.
    pub fn remove(&mut self, mask: u32, keycode: u32)
        ensures
            final(self).view() == old(self).view().remove(combo(mask, keycode)),
    {
        let key = combo_of(mask, keycode);
        self.entries.remove(&key);
    }

    /// Takes a native key press (`pressed`) or release on `keycode` with the
    /// modifier `state`, and gives the event to report, if any.
    pub fn handle_key_event(&mut self, pressed: bool, state: u32, keycode: u32) -> (r: Option<GlobalHotKeyEvent>)
        ensures
            (final(self).view(), r) == key_step(old(self).view(), combo(event_mask(state), keycode), pressed),
    {
        let key = combo_of(state & TRACKED_MASKS, keycode);
        match self.entries.get(&key) {
            Some(entry) => {
                let (id, down) = *entry;
                if pressed && !down {
                    self.entries.insert(key, (id, true));
                    Some(GlobalHotKeyEvent { id, state: HotKeyState::Pressed })
                } else if !pressed && down {
                    self.entries.insert(key, (id, false));
                    Some(GlobalHotKeyEvent { id, state: HotKeyState::Released })
                } else {
                    None
                }
            },
            None => None,
        }
    }
}


/// Registering a combination that is free, with no refusal from the X
/// server, succeeds; registering it again then fails as taken; once it is
/// removed, registering it succeeds again.
pub proof fn lemma_register_twice_conflicts(
    table: Map<u64, Grabbed>,
    key: u64,
    first: u32,
    second: u32,
    third: u32,
)
    requires
        !table.contains_key(key),
    ensures
        registered(table, key, first, false) is Some,
        registered(registered(table, key, first, false)->Some_0, key, second, false) is None,
        registered(registered(table, key, first, false)->Some_0.remove(key), key, third, false) is Some,
{
    let once = table.insert(key, (first, false));
    assert(once.contains_key(key));
    assert(!once.remove(key).contains_key(key));
}

/// The table and the reported events after a run of native presses (`true`)
/// and releases (`false`) on the combination `key`.
pub open spec fn run_key_events(table: Map<u64, Grabbed>, key: u64, presses: Seq<bool>) -> (Map<u64, Grabbed>, Seq<GlobalHotKeyEvent>)
    decreases presses.len(),
{
    if presses.len() == 0 {
        (table, Seq::empty())
    } else {
        let (before, events) = run_key_events(table, key, presses.drop_last());
        let (after, event) = key_step(before, key, presses.last());
        match event {
            Some(e) => (after, events.push(e)),
            None => (after, events),
        }
    }
}

/// `n` native presses in a row.
pub open spec fn presses(n: nat) -> Seq<bool> {
    Seq::new(n, |i: int| true)
}

/// A press followed by any number of repeated presses of a registered
/// hotkey whose key is up reports one press; the release that follows
/// reports one release, and leaves the table as it was.
pub proof fn lemma_repeats_collapse(table: Map<u64, Grabbed>, key: u64, id: u32, repeats: nat)
    requires
        table.contains_key(key),
        table[key] == (id, false),
    ensures
        run_key_events(table, key, presses(repeats + 1)).1 == seq![
            GlobalHotKeyEvent { id, state: HotKeyState::Pressed },
        ],
        run_key_events(table, key, presses(repeats + 1).push(false)).1 == seq![
            GlobalHotKeyEvent { id, state: HotKeyState::Pressed },
            GlobalHotKeyEvent { id, state: HotKeyState::Released },
        ],
        run_key_events(table, key, presses(repeats + 1).push(false)).0 == table,
    decreases repeats,
{
    let down = table.insert(key, (id, true));
    let pressed = GlobalHotKeyEvent { id, state: HotKeyState::Pressed };
    let released = GlobalHotKeyEvent { id, state: HotKeyState::Released };
    let all = presses(repeats + 1);
    assert(all.last());
    if repeats == 0 {
        assert(all.drop_last() =~= Seq::<bool>::empty());
        assert(run_key_events(table, key, all.drop_last()) == (table, Seq::<GlobalHotKeyEvent>::empty()));
        assert(key_step(table, key, true) == (down, Some(pressed)));
        assert(Seq::<GlobalHotKeyEvent>::empty().push(pressed) =~= seq![pressed]);
    } else {
        lemma_repeats_collapse(table, key, id, (repeats - 1) as nat);
        assert(all.drop_last() =~= presses(repeats));
        lemma_presses_hold_down(table, key, id, (repeats - 1) as nat);
        assert(run_key_events(table, key, all.drop_last()).0 == down);
        assert(run_key_events(table, key, all.drop_last()).1 == seq![pressed]);
        assert(key_step(down, key, true) == (down, None::<GlobalHotKeyEvent>));
    }
    assert(run_key_events(table, key, all).1 == seq![pressed]);
    lemma_presses_hold_down(table, key, id, repeats);
    let with_release = all.push(false);
    assert(with_release.drop_last() =~= all);
    assert(seq![pressed].push(released) =~= seq![pressed, released]);
    assert(down.insert(key, (id, false)) =~= table);
}

/// After a press and any number of repeats, the key is held down.
proof fn lemma_presses_hold_down(table: Map<u64, Grabbed>, key: u64, id: u32, repeats: nat)
    requires
        table.contains_key(key),
        table[key] == (id, false),
    ensures
        run_key_events(table, key, presses(repeats + 1)).0 == table.insert(key, (id, true)),
    decreases repeats,
{
    let all = presses(repeats + 1);
    let down = table.insert(key, (id, true));
    assert(all.last());
    if repeats == 0 {
        assert(all.drop_last() =~= Seq::<bool>::empty());
        assert(run_key_events(table, key, all.drop_last()).0 == table);
    } else {
        lemma_presses_hold_down(table, key, id, (repeats - 1) as nat);
        assert(all.drop_last() =~= presses(repeats));
        assert(run_key_events(table, key, all.drop_last()).0 == down);
        assert(down.insert(key, (id, true)) =~= down);
    }
}

/// NumLock and CapsLock change nothing: a key event under any state of the
/// two is handled as the same event without them, a registered mask is
/// found under each state of the two, and the grabs of every combination
/// cover each state of the two.
pub proof fn lemma_lock_keys_ignored(
    table: Map<u64, Grabbed>,
    mask: u32,
    state: u32,
    lock: u32,
    keycode: u32,
    pressed: bool,
)
    requires
        lock & !(LOCK_MASK | MOD2_MASK) == 0,
    ensures
        event_mask(state | lock) == event_mask(state),
        mask & !TRACKED_MASKS == 0 ==> event_mask(mask | lock) == mask,
        key_step(table, combo(event_mask(state | lock), keycode), pressed) == key_step(
            table,
            combo(event_mask(state), keycode),
            pressed,
        ),
        exists|i: int| 0 <= i < GRAB_COUNT && #[trigger] lock_variants(mask)[i] == mask | lock,
{
    assert((state | lock) & 0x4d == state & 0x4d) by (bit_vector)
        requires
            lock & !(0x02u32 | 0x10u32) == 0,
    ;
    assert(mask & !0x4du32 == 0 ==> (mask | lock) & 0x4d == mask) by (bit_vector)
        requires
            lock & !(0x02u32 | 0x10u32) == 0,
    ;
    assert(lock == 0 || lock == 0x10 || lock == 0x02 || lock == 0x12) by (bit_vector)
        requires
            lock & !(0x02u32 | 0x10u32) == 0,
    ;
    assert(0x10u32 | 0x02u32 == 0x12u32) by (bit_vector);
    let v = lock_variants(mask);
    if lock == 0 {
        assert(v[0] == mask | lock);
    } else if lock == 0x10 {
        assert(v[1] == mask | lock);
    } else if lock == 0x02 {
        assert(v[2] == mask | lock);
    } else {
        assert(v[3] == mask | lock);
    }
}

} // verus!
