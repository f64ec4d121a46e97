//! The 16-key input surface: a key-pressed bitmask owned by the
//! collaborator. The core only queries it; the collaborator sets and
//! clears key bits between ticks.

use vstd::prelude::*;

verus! {

/// True when `key` names one of the 16 keys and its bit is set in `keys`.
/// Key indices outside 0..=15 name no key and are never pressed.
pub open spec fn key_pressed(keys: u16, key: u8) -> bool {
    key < 16 && (keys >> (key as u16)) & 1 == 1
}

/// The key-pressed bitmask: bit `k` is set while key `k` is held down.
pub struct KeyBoard {
    /// The 16 key bits.
    pub keys: u16,
}

impl KeyBoard {
    /// Queries one key. Indices outside 0..=15 name no key and read as
    /// not pressed.
    pub fn is_set(&self, key: u8) -> (r: bool)
        ensures
            r == key_pressed(self.keys, key),
    {
        if key < 16 {
            (self.keys >> (key as u16)) & 1 == 1
        } else {
            false
        }
    }

    /// Presses or releases one key.
    pub fn set_key(&mut self, key: u8, pressed: bool)
        requires
            key < 16,
        ensures
            final(self).keys == if pressed {
                old(self).keys | (1u16 << (key as u16))
            } else {
                old(self).keys & !(1u16 << (key as u16))
            },
    {
        if pressed {
            self.keys = self.keys | (1u16 << (key as u16));
        } else {
            self.keys = self.keys & !(1u16 << (key as u16));
        }
    }
}

impl Default for KeyBoard {
    /// A keyboard with no key pressed.
    fn default() -> (r: KeyBoard)
        ensures
            r.keys == 0u16,
    {
        KeyBoard { keys: 0 }
    }
}

} // verus!
