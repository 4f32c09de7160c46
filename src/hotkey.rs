use vstd::prelude::*;
use vstd::std_specs::cmp::PartialEqSpec;

use crate::code::{Code, ALL_MODIFIERS, BASE_MODIFIERS};

verus! {

/// A set of modifier keys, held as bit flags.
#[derive(Clone, Copy, Debug, PartialEq, Eq, Hash, Structural)]
pub struct Modifiers {
    pub bits: u32,
}

impl Modifiers {
    pub fn empty() -> (r: Modifiers)
        ensures
            r.bits == 0,
    {
        Modifiers { bits: 0 }
    }

    /// The set of the known flags among `bits`; other bits are dropped.
    pub fn from_bits_truncate(bits: u32) -> (r: Modifiers)
        ensures
            r.bits == bits & ALL_MODIFIERS,
    {
        Modifiers { bits: bits & ALL_MODIFIERS }
    }

    pub fn bits(&self) -> (r: u32)
        ensures
            r == self.bits,
    {
        self.bits
    }

    /// Whether every flag of `other` is in this set.
    pub fn contains(&self, other: Modifiers) -> (r: bool)
        ensures
            r == (self.bits & other.bits == other.bits),
    {
        self.bits & other.bits == other.bits
    }

    /// Whether this set and `other` share a flag.
    pub fn intersects(&self, other: Modifiers) -> (r: bool)
        ensures
            r == (self.bits & other.bits != 0),
    {
        self.bits & other.bits != 0
    }

    /// Adds the flags of `other` when `value` holds, removes them otherwise.
    pub fn set(&mut self, other: Modifiers, value: bool)
        ensures
            value ==> final(self).bits == old(self).bits | other.bits,
            !value ==> final(self).bits == old(self).bits & !other.bits,
    {
        if value {
            self.bits = self.bits | other.bits;
        } else {
            self.bits = self.bits & !other.bits;
        }
    }
}

/// Hands out hotkey ids: each one once, in increasing order.
pub struct IdAllocator {
    next: u32,
}

impl IdAllocator {
    pub closed spec fn next_id(&self) -> u32 {
        self.next
    }

    pub fn new() -> (r: IdAllocator)
        ensures
            r.next_id() == 0,
    {
        IdAllocator { next: 0 }
    }

    /// Whether another id can be handed out.
    pub fn has_next(&self) -> (r: bool)
        ensures
            r == (self.next_id() < u32::MAX),
    {
        self.next < u32::MAX
    }

    pub fn next(&mut self) -> (r: u32)
        requires
            old(self).next_id() < u32::MAX,
        ensures
            r == old(self).next_id(),
            final(self).next_id() == old(self).next_id() + 1,
    {
        let r = self.next;
        self.next = self.next + 1;
        r
    }
}

/// A keyboard shortcut: a set of modifiers and one key, with the id that
/// its events carry. Two hotkeys are equal when their modifiers and keys are.
#[derive(Clone, Copy, Debug)]
pub struct HotKey {
    pub mods: Modifiers,
    pub key: Code,
    pub id: u32,
}

impl HotKey {
    /// A hotkey with the next id of `ids`; no modifiers where `mods` is `None`.
    pub fn new(mods: Option<Modifiers>, key: Code, ids: &mut IdAllocator) -> (r: HotKey)
        requires
            old(ids).next_id() < u32::MAX,
        ensures
            r.mods.bits == (match mods {
                Some(m) => m.bits,
                None => 0,
            }),
            r.key == key,
            r.id == old(ids).next_id(),
            final(ids).next_id() == old(ids).next_id() + 1,
    {
        let m = match mods {
            Some(m) => m,
            None => Modifiers::empty(),
        };
        HotKey { mods: m, key, id: ids.next() }
    }

    pub fn id(&self) -> (r: u32)
        ensures
            r == self.id,
    {
        self.id
    }

    /// Whether a key event with `modifiers` held on `key` fires this hotkey:
    /// flags outside the held modifiers (lock keys and the like) are ignored.
    pub fn matches(&self, modifiers: Modifiers, key: Code) -> (r: bool)
        ensures
            r == (self.mods.bits == modifiers.bits & BASE_MODIFIERS && self.key == key),
    {
        self.mods.bits == modifiers.bits & BASE_MODIFIERS && self.key == key
    }
}

impl PartialEq for HotKey {
    fn eq(&self, other: &HotKey) -> (r: bool) {
        self.mods == other.mods && self.key == other.key
    }
}

impl vstd::std_specs::cmp::PartialEqSpecImpl for HotKey {
    open spec fn obeys_eq_spec() -> bool {
        true
    }

    open spec fn eq_spec(&self, other: &HotKey) -> bool {
        self.mods == other.mods && self.key == other.key
    }
}

impl Eq for HotKey {
}

/// Two hotkeys with the same modifiers and key are equal, whatever their ids.
pub proof fn lemma_equality_ignores_id(a: HotKey, b: HotKey)
    requires
        a.mods == b.mods,
        a.key == b.key,
    ensures
        a.eq_spec(&b),
        b.eq_spec(&a),
{
}

impl core::hash::Hash for HotKey {
    /// Feeds the modifiers and the key to `state` through their derived
    /// `Hash`, and leaves the id out, as equality does.
    #[verifier::external_body]
    fn hash<H: core::hash::Hasher>(&self, state: &mut H) {
        self.mods.hash(state);
        self.key.hash(state);
    }
}

} // verus!
