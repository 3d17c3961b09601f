//! Hotkey matching and click activation logic for a keyboard- and
//! mouse-driven auto clicker.

pub mod text;
pub mod key;
pub mod hotkey;
pub mod mouse;
pub mod activation;
pub mod clicker;

pub use hotkey::check_hotkey;
pub use key::{keycode_from_string, Key};
pub use mouse::{get_mouse_button_index, is_mouse_button_pressed, was_mouse_button_just_pressed};
