//! Keyboard keys and the names by which a hotkey specification refers to them.

use vstd::prelude::*;

use crate::text::{text_is, upper_of, uppercase};

verus! {

/// A keyboard key. The keys that a hotkey specification can name have a
/// variant each; every other key of the keyboard is `Other`.
#[derive(Clone, Copy, Debug, PartialEq, Eq, Structural)]
pub enum Key {
    A,
    B,
    C,
    D,
    E,
    F,
    G,
    H,
    I,
    J,
    K,
    L,
    M,
    N,
    O,
    P,
    Q,
    R,
    S,
    T,
    U,
    V,
    W,
    X,
    Y,
    Z,
    Key0,
    Key1,
    Key2,
    Key3,
    Key4,
    Key5,
    Key6,
    Key7,
    Key8,
    Key9,
    F1,
    F2,
    F3,
    F4,
    F5,
    F6,
    F7,
    F8,
    F9,
    F10,
    F11,
    F12,
    LShift,
    RShift,
    LControl,
    RControl,
    LAlt,
    RAlt,
    Space,
    Enter,
    Tab,
    Backspace,
    CapsLock,
    Other,
}

/// The key that an upper-case key name denotes, if any.
pub open spec fn key_named(t: Seq<char>) -> Option<Key> {
    if t == "A"@ {
        Some(Key::A)
    } else if t == "B"@ {
        Some(Key::B)
    } else if t == "C"@ {
        Some(Key::C)
    } else if t == "D"@ {
        Some(Key::D)
    } else if t == "E"@ {
        Some(Key::E)
    } else if t == "F"@ {
        Some(Key::F)
    } else if t == "G"@ {
        Some(Key::G)
    } else if t == "H"@ {
        Some(Key::H)
    } else if t == "I"@ {
        Some(Key::I)
    } else if t == "J"@ {
        Some(Key::J)
    } else if t == "K"@ {
        Some(Key::K)
    } else if t == "L"@ {
        Some(Key::L)
    } else if t == "M"@ {
        Some(Key::M)
    } else if t == "N"@ {
        Some(Key::N)
    } else if t == "O"@ {
        Some(Key::O)
    } else if t == "P"@ {
        Some(Key::P)
    } else if t == "Q"@ {
        Some(Key::Q)
    } else if t == "R"@ {
        Some(Key::R)
    } else if t == "S"@ {
        Some(Key::S)
    } else if t == "T"@ {
        Some(Key::T)
    } else if t == "U"@ {
        Some(Key::U)
    } else if t == "V"@ {
        Some(Key::V)
    } else if t == "W"@ {
        Some(Key::W)
    } else if t == "X"@ {
        Some(Key::X)
    } else if t == "Y"@ {
        Some(Key::Y)
    } else if t == "Z"@ {
        Some(Key::Z)
    } else if t == "0"@ {
        Some(Key::Key0)
    } else if t == "1"@ {
        Some(Key::Key1)
    } else if t == "2"@ {
        Some(Key::Key2)
    } else if t == "3"@ {
        Some(Key::Key3)
    } else if t == "4"@ {
        Some(Key::Key4)
    } else if t == "5"@ {
        Some(Key::Key5)
    } else if t == "6"@ {
        Some(Key::Key6)
    } else if t == "7"@ {
        Some(Key::Key7)
    } else if t == "8"@ {
        Some(Key::Key8)
    } else if t == "9"@ {
        Some(Key::Key9)
    } else if t == "F1"@ {
        Some(Key::F1)
    } else if t == "F2"@ {
        Some(Key::F2)
    } else if t == "F3"@ {
        Some(Key::F3)
    } else if t == "F4"@ {
        Some(Key::F4)
    } else if t == "F5"@ {
        Some(Key::F5)
    } else if t == "F6"@ {
        Some(Key::F6)
    } else if t == "F7"@ {
        Some(Key::F7)
    } else if t == "F8"@ {
        Some(Key::F8)
    } else if t == "F9"@ {
        Some(Key::F9)
    } else if t == "F10"@ {
        Some(Key::F10)
    } else if t == "F11"@ {
        Some(Key::F11)
    } else if t == "F12"@ {
        Some(Key::F12)
    } else if t == "LSHIFT"@ {
        Some(Key::LShift)
    } else if t == "RSHIFT"@ {
        Some(Key::RShift)
    } else if t == "LCTRL"@ {
        Some(Key::LControl)
    } else if t == "LCONTROL"@ {
        Some(Key::LControl)
    } else if t == "RCTRL"@ {
        Some(Key::RControl)
    } else if t == "RCONTROL"@ {
        Some(Key::RControl)
    } else if t == "LALT"@ {
        Some(Key::LAlt)
    } else if t == "RALT"@ {
        Some(Key::RAlt)
    } else if t == "SPACE"@ {
        Some(Key::Space)
    } else if t == "ENTER"@ {
        Some(Key::Enter)
    } else if t == "TAB"@ {
        Some(Key::Tab)
    } else if t == "BACKSPACE"@ {
        Some(Key::Backspace)
    } else if t == "CAPSLOCK"@ {
        Some(Key::CapsLock)
    } else {
        None
    }
}

/// Looks up an upper-case key name: letters, digits, function keys, the
/// left and right modifier keys and a few named keys.
pub fn keycode_from_upper(u: &str) -> (r: Option<Key>)
    ensures
        r == key_named(u@),
{
    if text_is(u, "A") {
        Some(Key::A)
    } else if text_is(u, "B") {
        Some(Key::B)
    } else if text_is(u, "C") {
        Some(Key::C)
    } else if text_is(u, "D") {
        Some(Key::D)
    } else if text_is(u, "E") {
        Some(Key::E)
    } else if text_is(u, "F") {
        Some(Key::F)
    } else if text_is(u, "G") {
        Some(Key::G)
    } else if text_is(u, "H") {
        Some(Key::H)
    } else if text_is(u, "I") {
        Some(Key::I)
    } else if text_is(u, "J") {
        Some(Key::J)
    } else if text_is(u, "K") {
        Some(Key::K)
    } else if text_is(u, "L") {
        Some(Key::L)
    } else if text_is(u, "M") {
        Some(Key::M)
    } else if text_is(u, "N") {
        Some(Key::N)
    } else if text_is(u, "O") {
        Some(Key::O)
    } else if text_is(u, "P") {
        Some(Key::P)
    } else if text_is(u, "Q") {
        Some(Key::Q)
    } else if text_is(u, "R") {
        Some(Key::R)
    } else if text_is(u, "S") {
        Some(Key::S)
    } else if text_is(u, "T") {
        Some(Key::T)
    } else if text_is(u, "U") {
        Some(Key::U)
    } else if text_is(u, "V") {
        Some(Key::V)
    } else if text_is(u, "W") {
        Some(Key::W)
    } else if text_is(u, "X") {
        Some(Key::X)
    } else if text_is(u, "Y") {
        Some(Key::Y)
    } else if text_is(u, "Z") {
        Some(Key::Z)
    } else if text_is(u, "0") {
        Some(Key::Key0)
    } else if text_is(u, "1") {
        Some(Key::Key1)
    } else if text_is(u, "2") {
        Some(Key::Key2)
    } else if text_is(u, "3") {
        Some(Key::Key3)
    } else if text_is(u, "4") {
        Some(Key::Key4)
    } else if text_is(u, "5") {
        Some(Key::Key5)
    } else if text_is(u, "6") {
        Some(Key::Key6)
    } else if text_is(u, "7") {
        Some(Key::Key7)
    } else if text_is(u, "8") {
        Some(Key::Key8)
    } else if text_is(u, "9") {
        Some(Key::Key9)
    } else if text_is(u, "F1") {
        Some(Key::F1)
    } else if text_is(u, "F2") {
        Some(Key::F2)
    } else if text_is(u, "F3") {
        Some(Key::F3)
    } else if text_is(u, "F4") {
        Some(Key::F4)
    } else if text_is(u, "F5") {
        Some(Key::F5)
    } else if text_is(u, "F6") {
        Some(Key::F6)
    } else if text_is(u, "F7") {
        Some(Key::F7)
    } else if text_is(u, "F8") {
        Some(Key::F8)
    } else if text_is(u, "F9") {
        Some(Key::F9)
    } else if text_is(u, "F10") {
        Some(Key::F10)
    } else if text_is(u, "F11") {
        Some(Key::F11)
    } else if text_is(u, "F12") {
        Some(Key::F12)
    } else if text_is(u, "LSHIFT") {
        Some(Key::LShift)
    } else if text_is(u, "RSHIFT") {
        Some(Key::RShift)
    } else if text_is(u, "LCTRL") {
        Some(Key::LControl)
    } else if text_is(u, "LCONTROL") {
        Some(Key::LControl)
    } else if text_is(u, "RCTRL") {
        Some(Key::RControl)
    } else if text_is(u, "RCONTROL") {
        Some(Key::RControl)
    } else if text_is(u, "LALT") {
        Some(Key::LAlt)
    } else if text_is(u, "RALT") {
        Some(Key::RAlt)
    } else if text_is(u, "SPACE") {
        Some(Key::Space)
    } else if text_is(u, "ENTER") {
        Some(Key::Enter)
    } else if text_is(u, "TAB") {
        Some(Key::Tab)
    } else if text_is(u, "BACKSPACE") {
        Some(Key::Backspace)
    } else if text_is(u, "CAPSLOCK") {
        Some(Key::CapsLock)
    } else {
        None
    }
}

/// Looks up a key name in any letter case.
pub fn keycode_from_string(s: &str) -> (r: Option<Key>)
    ensures
        r == key_named(upper_of(s@)),
{
    let u = uppercase(s);
    keycode_from_upper(u.as_str())
}

/// Whether `k` is among the pressed keys.
pub fn key_is_pressed(pressed: &Vec<Key>, k: Key) -> (r: bool)
    ensures
        r == pressed@.contains(k),
{
    let mut i: usize = 0;
    while i < pressed.len()
        invariant
            i <= pressed@.len(),
            forall|j: int| 0 <= j < i ==> pressed@[j] != k,
        decreases pressed@.len() - i,
    {
        if pressed[i] == k {
            return true;
        }
        i = i + 1;
    }
    false
}

} // verus!
