//! The keypad: sixteen keys with the codes `0x0` to `0xF`, as the host saw
//! them when it last looked.

use vstd::prelude::*;

verus! {

/// The number of keys.
pub const KEY_COUNT: usize = 16;

/// What a keypad holds: for each key code whether the key is down, and the
/// key that was released since the host last looked, if one was.
#[verifier::ext_equal]
pub struct KeypadState {
    pub down: Seq<bool>,
    pub released: Option<u8>,
}

impl KeypadState {
    /// There are sixteen keys, and a released key is one of them.
    pub open spec fn wf(&self) -> bool {
        &&& self.down.len() == KEY_COUNT
        &&& self.released matches Some(code) ==> code <= 0xF
    }
}

/// The key that a code stands for: codes above `0xF` stand for key `0`.
pub open spec fn key_of(code: u8) -> int {
    if code <= 0xF {
        code as int
    } else {
        0
    }
}

/// A key of the host's keyboard, as far as the keypad is concerned: the
/// sixteen keys that stand for the keys of the keypad, and any other key.
#[derive(Debug, Clone, Copy, PartialEq, Eq, Structural)]
pub enum Key {
    Key0,
    Key1,
    Key2,
    Key3,
    Key4,
    Key5,
    Key6,
    Key7,
    Key8,
    Key9,
    A,
    B,
    C,
    D,
    E,
    F,
    Other,
}

/// The host key that stands for the keypad key with code `code`. A code
/// above `0xF` names no keypad key and gets the key of code `0`.
pub open spec fn key_for(code: u8) -> Key {
    match code {
        0x1 => Key::Key1,
        0x2 => Key::Key2,
        0x3 => Key::Key3,
        0x4 => Key::Key4,
        0x5 => Key::Key5,
        0x6 => Key::Key6,
        0x7 => Key::Key7,
        0x8 => Key::Key8,
        0x9 => Key::Key9,
        0xa => Key::A,
        0xb => Key::B,
        0xc => Key::C,
        0xd => Key::D,
        0xe => Key::E,
        0xf => Key::F,
        _ => Key::Key0,
    }
}

/// The code of the keypad key that host key `key` stands for. A key that
/// stands for none gets the code `0`.
pub open spec fn code_for(key: Key) -> u8 {
    match key {
        Key::Key1 => 0x1,
        Key::Key2 => 0x2,
        Key::Key3 => 0x3,
        Key::Key4 => 0x4,
        Key::Key5 => 0x5,
        Key::Key6 => 0x6,
        Key::Key7 => 0x7,
        Key::Key8 => 0x8,
        Key::Key9 => 0x9,
        Key::A => 0xa,
        Key::B => 0xb,
        Key::C => 0xc,
        Key::D => 0xd,
        Key::E => 0xe,
        Key::F => 0xf,
        _ => 0x0,
    }
}

/// The host key that stands for the keypad key with code `code`.
pub fn code_to_key(code: u8) -> (key: Key)
    ensures
        key == key_for(code),
{
    match code {
        0x1 => Key::Key1,
        0x2 => Key::Key2,
        0x3 => Key::Key3,
        0x4 => Key::Key4,
        0x5 => Key::Key5,
        0x6 => Key::Key6,
        0x7 => Key::Key7,
        0x8 => Key::Key8,
        0x9 => Key::Key9,
        0xa => Key::A,
        0xb => Key::B,
        0xc => Key::C,
        0xd => Key::D,
        0xe => Key::E,
        0xf => Key::F,
        _ => Key::Key0,
    }
}

/// The code of the keypad key that host key `key` stands for.
pub fn key_to_code(key: &Key) -> (code: u8)
    ensures
        code == code_for(*key),
        code <= 0xF,
{
    match key {
        Key::Key1 => 0x1,
        Key::Key2 => 0x2,
        Key::Key3 => 0x3,
        Key::Key4 => 0x4,
        Key::Key5 => 0x5,
        Key::Key6 => 0x6,
        Key::Key7 => 0x7,
        Key::Key8 => 0x8,
        Key::Key9 => 0x9,
        Key::A => 0xa,
        Key::B => 0xb,
        Key::C => 0xc,
        Key::D => 0xd,
        Key::E => 0xe,
        Key::F => 0xf,
        _ => 0x0,
    }
}

/// From a code to its host key and back gives the code again, and for a
/// code above `0xF` the code `0`: the key that the keypad looks at for it.
pub proof fn lemma_code_key_code(code: u8)
    ensures
        code_for(key_for(code)) == key_of(code),
{
}

/// From one of the sixteen host keys to its code and back gives the key
/// again.
pub proof fn lemma_key_code_key(key: Key)
    requires
        key != Key::Other,
    ensures
        key_for(code_for(key)) == key,
{
}

/// A snapshot of the host's keypad.
#[derive(Debug, Clone, Copy)]
pub struct Keypad {
    down: [bool; KEY_COUNT],
    released: Option<u8>,
}

impl View for Keypad {
    type V = KeypadState;

    closed spec fn view(&self) -> KeypadState {
        KeypadState { down: self.down@, released: self.released }
    }
}

impl Keypad {
    /// A keypad with no key down and none released.
    pub fn new() -> (k: Keypad)
        ensures
            k@.wf(),
            k@.down == Seq::new(KEY_COUNT as nat, |c: int| false),
            k@.released == None::<u8>,
    {
        Keypad { down: [false; KEY_COUNT], released: None }
    }

    /// Records whether the key with code `code` is down.
    pub fn set_key(&mut self, code: u8, is_down: bool)
        requires
            code <= 0xF,
            old(self)@.wf(),
        ensures
            final(self)@.wf(),
            final(self)@.down == old(self)@.down.update(code as int, is_down),
            final(self)@.released == old(self)@.released,
    {
        self.down[code as usize] = is_down;
    }

    /// Records which key was released since the host last looked, if any.
    pub fn set_released_key(&mut self, key: Option<u8>)
        requires
            key matches Some(code) ==> code <= 0xF,
            old(self)@.wf(),
        ensures
            final(self)@.wf(),
            final(self)@.down == old(self)@.down,
            final(self)@.released == key,
    {
        self.released = key;
    }

    /// Whether the key that `code` stands for is down.
    pub fn is_key_down(&self, code: u8) -> (b: bool)
        requires
            self@.wf(),
        ensures
            b == self@.down[key_of(code)],
    {
        if code <= 0xF {
            self.down[code as usize]
        } else {
            self.down[0]
        }
    }

    /// Hands out the released key, if there is one, and forgets it.
    pub fn take_released_key(&mut self) -> (key: Option<u8>)
        requires
            old(self)@.wf(),
        ensures
            final(self)@.wf(),
            key == old(self)@.released,
            key matches Some(code) ==> code <= 0xF,
            final(self)@.down == old(self)@.down,
            final(self)@.released == None::<u8>,
    {
        let key = self.released;
        self.released = None;
        key
    }

    /// The lowest code from `0x1` to `0xF` whose key is down, if any is.
    pub fn first_key_down(&self) -> (key: Option<u8>)
        requires
            self@.wf(),
        ensures
            match key {
                Some(code) => 1 <= code <= 0xF && self@.down[code as int] && forall|lower: int|
                    1 <= lower < code ==> !self@.down[lower],
                None => forall|code: int| 1 <= code <= 0xF ==> !self@.down[code],
            },
    {
        let mut code: u8 = 1;
        while code < 16
            invariant
                1 <= code <= 16,
                forall|lower: int| 1 <= lower < code ==> !self@.down[lower],
            decreases 16 - code,
        {
            if self.down[code as usize] {
                return Some(code);
            }
            code += 1;
        }
        None
    }
}

} // verus!
