//! Press/release gating: each held key plays once, however long the platform
//! keeps repeating it, and its release plays only after that press.

use std::collections::HashSet;

use vstd::prelude::*;

use crate::keys::{key_id, lemma_key_id_injective, Key, KeyEvent};

verus! {

broadcast use vstd::std_specs::hash::group_hash_axioms;

/// What `event_to_play` does with `evt` when `held` are down: the keys down
/// afterwards, and the event to play if there is one.
pub open spec fn gate_step(held: Set<Key>, evt: KeyEvent) -> (Set<Key>, Option<KeyEvent>) {
    match evt {
        KeyEvent::KeyPress(key) => if held.contains(key) {
            (held, None)
        } else {
            (held.insert(key), Some(evt))
        },
        KeyEvent::KeyRelease(key) => if held.contains(key) {
            (held.remove(key), Some(evt))
        } else {
            (held, None)
        },
    }
}

/// Tracks which keys are down so that key repeats and stray releases are
/// dropped.
pub struct KeyPressGate {
    depressed: HashSet<u64>,
}

impl View for KeyPressGate {
    type V = Set<Key>;

    /// The keys currently held down.
    closed spec fn view(&self) -> Set<Key> {
        Set::new(|k: Key| self.depressed@.contains(key_id(k)))
    }
}

impl KeyPressGate {
    /// A tracker with no key held.
    pub fn new() -> (r: Self)
        ensures
            r@ == Set::<Key>::empty(),
    {
        let r = KeyPressGate { depressed: HashSet::new() };
        assert(r@ =~= Set::<Key>::empty());
        r
    }

    /// The event to play for `evt`, if any: a press of a key not yet held, or
    /// the release of a held key.
    pub fn event_to_play(&mut self, evt: KeyEvent) -> (r: Option<KeyEvent>)
        ensures
            (final(self)@, r) == gate_step(old(self)@, evt),
    {
        proof {
            assert forall|a: Key, b: Key| key_id(a) == key_id(b) implies a == b by {
                lemma_key_id_injective(a);
                lemma_key_id_injective(b);
            }
        }
        match evt {
            KeyEvent::KeyPress(key) => {
                let id = key.id();
                if self.depressed.insert(id) {
                    assert(self@ =~= old(self)@.insert(key));
                    Some(evt)
                } else {
                    assert(self@ =~= old(self)@);
                    None
                }
            },
            KeyEvent::KeyRelease(key) => {
                let id = key.id();
                if self.depressed.remove(&id) {
                    assert(self@ =~= old(self)@.remove(key));
                    Some(evt)
                } else {
                    assert(self@ =~= old(self)@);
                    None
                }
            },
        }
    }
}

impl Default for KeyPressGate {
    fn default() -> (r: Self)
        ensures
            r@ == Set::<Key>::empty(),
    {
        KeyPressGate::new()
    }
}

/// A press of a key that is not held plays, and so does its release right
/// after; the held keys are then as before.
pub proof fn lemma_press_then_release_plays_both(held: Set<Key>, key: Key)
    requires
        !held.contains(key),
    ensures
        ({
            let (after_press, first) = gate_step(held, KeyEvent::KeyPress(key));
            let (after_release, second) = gate_step(after_press, KeyEvent::KeyRelease(key));
            &&& first == Some(KeyEvent::KeyPress(key))
            &&& second == Some(KeyEvent::KeyRelease(key))
            &&& after_release == held
        }),
{
    assert(held.insert(key).remove(key) =~= held);
}

/// While a key is held, pressing it again plays nothing and changes nothing.
pub proof fn lemma_repeated_press_is_silent(held: Set<Key>, key: Key)
    requires
        held.contains(key),
    ensures
        gate_step(held, KeyEvent::KeyPress(key)) == (held, None::<KeyEvent>),
{
}

/// A release of a key that is not held plays nothing and changes nothing.
pub proof fn lemma_stray_release_is_silent(held: Set<Key>, key: Key)
    requires
        !held.contains(key),
    ensures
        gate_step(held, KeyEvent::KeyRelease(key)) == (held, None::<KeyEvent>),
{
}

/// Keys are tracked independently: an event on one key leaves whether any
/// other key is held unchanged.
pub proof fn lemma_keys_are_independent(held: Set<Key>, evt: KeyEvent, other: Key)
    requires
        match evt {
            KeyEvent::KeyPress(k) => k != other,
            KeyEvent::KeyRelease(k) => k != other,
        },
    ensures
        gate_step(held, evt).0.contains(other) == held.contains(other),
{
}

} // verus!
