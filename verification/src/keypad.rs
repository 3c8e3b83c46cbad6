//! A snapshot of the sixteen-key input device.

use vstd::prelude::*;

verus! {

/// Number of keys of the input device.
pub const KEY_COUNT: usize = 16;

/// Whether key `key` is down in `keys`; an index that names no key is never
/// down.
pub open spec fn key_down(keys: Seq<bool>, key: int) -> bool {
    0 <= key < keys.len() && keys[key]
}

/// The lowest index at or above `from` whose key is down in `keys`, or
/// `keys.len()` when there is none.
pub open spec fn first_key_down(keys: Seq<bool>, from: int) -> int
    decreases keys.len() - from,
{
    if from < 0 || from >= keys.len() {
        keys.len() as int
    } else if keys[from] {
        from
    } else {
        first_key_down(keys, from + 1)
    }
}

/// What `first_key_down` finds: a key that is down with none down between
/// `from` and it, or the length when no key at or above `from` is down.
pub proof fn lemma_first_key_down(keys: Seq<bool>, from: int)
    requires
        0 <= from <= keys.len(),
    ensures
        from <= first_key_down(keys, from) <= keys.len(),
        first_key_down(keys, from) < keys.len() ==> keys[first_key_down(keys, from)],
        forall|k: int| from <= k < first_key_down(keys, from) ==> !keys[k],
    decreases keys.len() - from,
{
    if from < keys.len() && !keys[from] {
        lemma_first_key_down(keys, from + 1);
    }
}

/// The state of the sixteen keys at one moment: the host fills it in from
/// the input device before each tick.
#[derive(Clone, Copy, Debug)]
pub struct Keypad {
    keys: [bool; KEY_COUNT],
}

impl View for Keypad {
    type V = Seq<bool>;

    closed spec fn view(&self) -> Seq<bool> {
        self.keys@
    }
}

impl Keypad {
    /// A keypad has sixteen keys.
    pub proof fn lemma_view_len(&self)
        ensures
            self@.len() == 16,
    {
    }

    /// A keypad with every key up.
    pub fn new() -> (keypad: Keypad)
        ensures
            keypad@.len() == 16,
            forall|k: int| 0 <= k < 16 ==> !keypad@[k],
    {
        Keypad { keys: [false; KEY_COUNT] }
    }

    /// A keypad whose key `k` is down iff `keys[k]` is true.
    pub fn from_keys(keys: [bool; KEY_COUNT]) -> (keypad: Keypad)
        ensures
            keypad@ == keys@,
    {
        Keypad { keys }
    }

    /// Records key `key` as down or up; an index that names no key changes
    /// nothing.
    pub fn set_key(&mut self, key: u8, down: bool)
        ensures
            final(self)@ == if key < 16 {
                old(self)@.update(key as int, down)
            } else {
                old(self)@
            },
    {
        if (key as usize) < KEY_COUNT {
            self.keys[key as usize] = down;
        }
    }

    /// Whether key `key` is down.
    pub fn is_key_pressed(&self, key: u8) -> (down: bool)
        ensures
            down == key_down(self@, key as int),
            self@.len() == 16,
    {
        (key as usize) < KEY_COUNT && self.keys[key as usize]
    }

    /// The lowest key that is down, if any.
    pub fn first_pressed(&self) -> (found: Option<u8>)
        ensures
            self@.len() == 16,
            match found {
                Some(key) => key < 16 && first_key_down(self@, 0) == key,
                None => first_key_down(self@, 0) == 16,
            },
    {
        let mut key: u8 = 0;
        while key < 16
            invariant
                key <= 16,
                self@.len() == 16,
                first_key_down(self@, 0) == first_key_down(self@, key as int),
            decreases 16 - key,
        {
            if self.keys[key as usize] {
                return Some(key);
            }
            key += 1;
        }
        None
    }
}

} // verus!
