//! Hotkeys bound to the auxiliary mouse buttons 4 and 5.

use vstd::prelude::*;

use crate::text::text_is;

verus! {

/// The index of the mouse button that a specification names, if it names one.
pub open spec fn mouse_button_index(s: Seq<char>) -> Option<usize> {
    if s == "MouseButton4"@ {
        Some(4)
    } else if s == "MouseButton5"@ {
        Some(5)
    } else {
        None
    }
}

/// Whether the mouse button that `s` names is held in `buttons`; an index
/// beyond the end of `buttons` counts as released.
pub open spec fn button_down(buttons: Seq<bool>, s: Seq<char>) -> bool {
    match mouse_button_index(s) {
        Some(i) => i < buttons.len() && buttons[i as int],
        None => false,
    }
}

/// The index of the mouse button that `hotkey` names, if it names one.
pub fn get_mouse_button_index(hotkey: &str) -> (r: Option<usize>)
    ensures
        r == mouse_button_index(hotkey@),
{
    if text_is(hotkey, "MouseButton4") {
        Some(4)
    } else if text_is(hotkey, "MouseButton5") {
        Some(5)
    } else {
        None
    }
}

/// Reads the state of one button, released where `buttons` is too short.
fn button_state(buttons: &Vec<bool>, index: usize) -> (r: bool)
    ensures
        r == (index < buttons@.len() && buttons@[index as int]),
{
    if index < buttons.len() {
        buttons[index]
    } else {
        false
    }
}

/// Whether the mouse button that `hotkey` names is held.
pub fn is_mouse_button_pressed(buttons: &Vec<bool>, hotkey: &str) -> (r: bool)
    ensures
        r == button_down(buttons@, hotkey@),
{
    match get_mouse_button_index(hotkey) {
        Some(index) => button_state(buttons, index),
        None => false,
    }
}

/// Whether the mouse button that `hotkey` names is held now and was not held
/// before.
pub fn was_mouse_button_just_pressed(current: &Vec<bool>, previous: &Vec<bool>, hotkey: &str) -> (r: bool)
    ensures
        r == (button_down(current@, hotkey@) && !button_down(previous@, hotkey@)),
{
    if let Some(index) = get_mouse_button_index(hotkey) {
        let current_pressed = button_state(current, index);
        let previous_pressed = button_state(previous, index);
        current_pressed && !previous_pressed
    } else {
        false
    }
}

} // verus!
