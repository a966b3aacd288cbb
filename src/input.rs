use vstd::prelude::*;

verus! {

/// Number of keys of the keypad.
pub const NUM_KEYS: usize = 16;

/// State of the sixteen-key keypad, as the host reports it.
///
/// `new_press` records that a key went down since the key-wait instruction
/// last looked, and `last_key` which key it was.
pub struct Input {
    pub keys: [bool; 16],
    pub last_key: u8,
    pub new_press: bool,
}

impl Input {
    /// No key down, no press pending.
    pub fn new() -> (r: Input)
        ensures
            forall|k: int| 0 <= k < NUM_KEYS ==> !r.keys@[k],
            r.last_key == 0,
            !r.new_press,
    {
        Input { keys: [false; 16], last_key: 0, new_press: false }
    }

    /// Records that `key` went down.
    pub fn key_down(&mut self, key: u8)
        requires
            key < NUM_KEYS,
        ensures
            final(self).keys@ == old(self).keys@.update(key as int, true),
            final(self).last_key == key,
            final(self).new_press,
    {
        self.keys[key as usize] = true;
        self.last_key = key;
        self.new_press = true;
    }

    /// Records that `key` went up.
    pub fn key_up(&mut self, key: u8)
        requires
            key < NUM_KEYS,
        ensures
            final(self).keys@ == old(self).keys@.update(key as int, false),
            final(self).last_key == old(self).last_key,
            final(self).new_press == old(self).new_press,
    {
        self.keys[key as usize] = false;
    }

    /// Whether `key` is down.
    pub fn is_down(&self, key: u8) -> (r: bool)
        requires
            key < NUM_KEYS,
        ensures
            r == self.keys@[key as int],
    {
        self.keys[key as usize]
    }
}

} // verus!
