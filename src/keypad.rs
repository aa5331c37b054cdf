use vstd::prelude::*;

verus! {

/// Number of logical keys.
pub const KEYS_NUM: usize = 16;

/// Press state of the sixteen logical keys `0x0`..`0xF`.
pub struct Keypad {
    keys: [bool; KEYS_NUM],
}

/// The sixteen logical keys, named after the host keys they are usually bound to.
#[derive(Clone, Copy, Debug, PartialEq, Eq, Structural)]
pub enum Key {
    KeyX,
    Key1,
    Key2,
    Key3,
    KeyQ,
    KeyW,
    KeyE,
    KeyA,
    KeyS,
    KeyD,
    KeyZ,
    KeyC,
    Key4,
    KeyR,
    KeyF,
    KeyV,
}

/// Logical index of a key.
pub open spec fn key_index(k: Key) -> nat {
    match k {
        Key::KeyX => 0,
        Key::Key1 => 1,
        Key::Key2 => 2,
        Key::Key3 => 3,
        Key::KeyQ => 4,
        Key::KeyW => 5,
        Key::KeyE => 6,
        Key::KeyA => 7,
        Key::KeyS => 8,
        Key::KeyD => 9,
        Key::KeyZ => 10,
        Key::KeyC => 11,
        Key::Key4 => 12,
        Key::KeyR => 13,
        Key::KeyF => 14,
        Key::KeyV => 15,
    }
}

/// The smallest pressed key index among the first `keys.len()` keys, if any.
pub open spec fn lowest_pressed(keys: Seq<bool>) -> Option<usize> {
    if exists|i: int| 0 <= i < keys.len() && keys[i] {
        let i = choose|i: int|
            0 <= i < keys.len() && keys[i] && forall|j: int| 0 <= j < i ==> !keys[j];
        Some(i as usize)
    } else {
        None
    }
}

impl Key {
    pub fn index(&self) -> (r: usize)
        ensures
            r == key_index(*self),
    {
        match self {
            Key::KeyX => 0,
            Key::Key1 => 1,
            Key::Key2 => 2,
            Key::Key3 => 3,
            Key::KeyQ => 4,
            Key::KeyW => 5,
            Key::KeyE => 6,
            Key::KeyA => 7,
            Key::KeyS => 8,
            Key::KeyD => 9,
            Key::KeyZ => 10,
            Key::KeyC => 11,
            Key::Key4 => 12,
            Key::KeyR => 13,
            Key::KeyF => 14,
            Key::KeyV => 15,
        }
    }
}

impl View for Keypad {
    type V = Seq<bool>;

    closed spec fn view(&self) -> Seq<bool> {
        self.keys@
    }
}

impl Keypad {
    pub fn new() -> (r: Keypad)
        ensures
            r@ == Seq::new(KEYS_NUM as nat, |i: int| false),
    {
        let r = Keypad { keys: [false; KEYS_NUM] };
        assert(r@ =~= Seq::new(KEYS_NUM as nat, |i: int| false));
        r
    }

    pub fn is_pressed(&self, key: u8) -> (r: bool)
        requires
            key < KEYS_NUM,
        ensures
            r == self@[key as int],
    {
        self.keys[key as usize]
    }

    /// The lowest-indexed pressed key, if any key is pressed.
    pub fn get_pressed(&self) -> (r: Option<usize>)
        ensures
            r == lowest_pressed(self@),
            r matches Some(i) ==> i < KEYS_NUM && self@[i as int]
                && forall|j: int| 0 <= j < i ==> !self@[j],
            r is None ==> forall|j: int| 0 <= j < KEYS_NUM ==> !self@[j],
    {
        let mut i: usize = 0;
        while i < KEYS_NUM
            invariant
                i <= KEYS_NUM,
                self@.len() == KEYS_NUM,
                forall|j: int| 0 <= j < i ==> !self@[j],
            decreases KEYS_NUM - i,
        {
            if self.keys[i] {
                proof {
                    let w = choose|w: int|
                        0 <= w < self@.len() && self@[w] && forall|j: int| 0 <= j < w ==> !self@[j];
                    assert(0 <= w < self@.len() && self@[w] && forall|j: int| 0 <= j < w ==> !self@[j]);
                    assert(w == i as int) by {
                        if w < i {
                            assert(!self@[w]);
                        } else if w > i {
                            assert(!self@[i as int]);
                        }
                    };
                }
                return Some(i);
            }
            i += 1;
        }
        None
    }

    pub fn set_pressed(&mut self, k: Key)
        ensures
            final(self)@ == old(self)@.update(key_index(k) as int, true),
    {
        self.keys[k.index()] = true;
    }

    pub fn set_unpressed(&mut self, k: Key)
        ensures
            final(self)@ == old(self)@.update(key_index(k) as int, false),
    {
        self.keys[k.index()] = false;
    }
}

} // verus!
