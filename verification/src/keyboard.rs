//! The 16-key hexadecimal keypad.

use vstd::prelude::*;

verus! {

/// Number of keys on the keypad.
pub const KEY_COUNT: usize = 16;

/// Lowest pressed key at or after `start`, if any key from there on is pressed.
pub open spec fn first_pressed_from(keys: Seq<bool>, start: int) -> Option<u8>
    decreases keys.len() - start,
{
    if start < 0 || start >= keys.len() {
        None
    } else if keys[start] {
        Some(start as u8)
    } else {
        first_pressed_from(keys, start + 1)
    }
}

/// Lowest pressed key of the whole keypad, if any key is pressed.
pub open spec fn first_pressed(keys: Seq<bool>) -> Option<u8> {
    first_pressed_from(keys, 0)
}

/// Whether the key with the given index is held down; indices off the keypad are never down.
pub open spec fn key_is_down(keys: Seq<bool>, key: int) -> bool {
    0 <= key < keys.len() && keys[key]
}

/// State of the keypad: one cell per key, `true` while the key is held down.
pub struct Keyboard {
    keys: [bool; 16],
}

impl View for Keyboard {
    type V = Seq<bool>;

    closed spec fn view(&self) -> Seq<bool> {
        self.keys@
    }
}

impl Keyboard {
    /// Every keypad has sixteen keys.
    pub proof fn lemma_size(&self)
        ensures
            self@.len() == 16,
    {
    }

    /// A keypad with no key held down.
    pub fn new() -> (keyboard: Keyboard)
        ensures
            keyboard@ == Seq::new(16, |k: int| false),
    {
        Keyboard { keys: [false; 16] }
    }

    /// Marks `key` as held down. An index off the keypad changes nothing.
    pub fn key_down(&mut self, key: usize)
        ensures
            final(self)@.len() == 16,
            key < 16 ==> final(self)@ == old(self)@.update(key as int, true),
            key >= 16 ==> final(self)@ == old(self)@,
    {
        if key < KEY_COUNT {
            self.keys[key] = true;
        }
    }

    /// Marks `key` as released. An index off the keypad changes nothing.
    pub fn key_up(&mut self, key: usize)
        ensures
            final(self)@.len() == 16,
            key < 16 ==> final(self)@ == old(self)@.update(key as int, false),
            key >= 16 ==> final(self)@ == old(self)@,
    {
        if key < KEY_COUNT {
            self.keys[key] = false;
        }
    }

    /// Whether `key` is held down. An index off the keypad is never down.
    pub fn is_key_pressed(&self, key: usize) -> (pressed: bool)
        ensures
            self@.len() == 16,
            pressed == key_is_down(self@, key as int),
    {
        key < KEY_COUNT && self.keys[key]
    }

    /// The lowest key that is held down, if any key is.
    pub fn first_pressed_key(&self) -> (key: Option<u8>)
        ensures
            self@.len() == 16,
            key == first_pressed(self@),
    {
        let mut k: u8 = 0;
        while k < 16
            invariant
                k <= 16,
                first_pressed(self@) == first_pressed_from(self@, k as int),
            decreases 16 - k,
        {
            if self.keys[k as usize] {
                return Some(k);
            }
            k += 1;
        }
        None
    }
}

} // verus!
