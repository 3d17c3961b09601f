use autoclicker::hotkey::{check_hotkey, match_tokens};
use autoclicker::key::{keycode_from_string, keycode_from_upper, Key};
use autoclicker::mouse::{get_mouse_button_index, is_mouse_button_pressed, was_mouse_button_just_pressed};
use autoclicker::text::{split_on_plus, text_is};

#[test]
fn ctrl_a_matches_with_left_ctrl() {
    assert!(check_hotkey(&vec![Key::LControl, Key::A], "CTRL+A"));
}

#[test]
fn ctrl_a_matches_with_right_ctrl() {
    assert!(check_hotkey(&vec![Key::RControl, Key::A], "CTRL+A"));
}

#[test]
fn ctrl_a_needs_the_modifier() {
    assert!(!check_hotkey(&vec![Key::A], "CTRL+A"));
}

#[test]
fn shift_f1_with_left_shift() {
    assert!(check_hotkey(&vec![Key::LShift, Key::F1], "SHIFT+F1"));
}

#[test]
fn shift_f1_with_right_shift() {
    assert!(check_hotkey(&vec![Key::RShift, Key::F1], "SHIFT+F1"));
}

#[test]
fn shift_f1_without_shift() {
    assert!(!check_hotkey(&vec![Key::F1], "SHIFT+F1"));
}

#[test]
fn modifiers_alone_never_match() {
    let all = vec![Key::LShift, Key::RShift, Key::LControl, Key::RControl, Key::LAlt, Key::RAlt];
    assert!(!check_hotkey(&all, "CTRL+SHIFT+ALT"));
    assert!(!check_hotkey(&all, "CONTROL"));
    assert!(!check_hotkey(&all, "shift"));
}

#[test]
fn unknown_key_never_matches() {
    assert!(!check_hotkey(&vec![Key::LControl, Key::A, Key::Other], "CTRL+A+ESCAPE"));
    assert!(!check_hotkey(&vec![Key::A], "A+"));
}

#[test]
fn empty_spec_never_matches() {
    assert!(!check_hotkey(&vec![Key::A], ""));
    assert!(!check_hotkey(&vec![], ""));
}

#[test]
fn tokens_are_trimmed_and_case_folded() {
    assert!(check_hotkey(&vec![Key::LAlt, Key::Key7], "  alt + 7 "));
    assert!(check_hotkey(&vec![Key::RControl, Key::Space], "Control+space"));
}

#[test]
fn every_named_key_must_be_held() {
    let pressed = vec![Key::Q, Key::W];
    assert!(check_hotkey(&pressed, "Q+W"));
    assert!(check_hotkey(&pressed, "W+Q"));
    assert!(!check_hotkey(&pressed, "Q+W+E"));
}

#[test]
fn extra_keys_held_do_not_matter() {
    assert!(check_hotkey(&vec![Key::Other, Key::LShift, Key::Tab, Key::B], "TAB"));
}

#[test]
fn explicit_modifier_keys_are_keys() {
    assert!(check_hotkey(&vec![Key::LShift, Key::F12], "LSHIFT+F12"));
    assert!(!check_hotkey(&vec![Key::RShift, Key::F12], "LSHIFT+F12"));
}

#[test]
fn key_names_in_any_case() {
    assert_eq!(keycode_from_string("a"), Some(Key::A));
    assert_eq!(keycode_from_string("f10"), Some(Key::F10));
    assert_eq!(keycode_from_string("lctrl"), Some(Key::LControl));
    assert_eq!(keycode_from_string("RControl"), Some(Key::RControl));
    assert_eq!(keycode_from_string("CapsLock"), Some(Key::CapsLock));
    assert_eq!(keycode_from_string("0"), Some(Key::Key0));
    assert_eq!(keycode_from_string("F13"), None);
    assert_eq!(keycode_from_string("SHIFT"), None);
    assert_eq!(keycode_from_string(""), None);
}

#[test]
fn upper_case_lookup_is_exact() {
    assert_eq!(keycode_from_upper("BACKSPACE"), Some(Key::Backspace));
    assert_eq!(keycode_from_upper("ralt"), None);
}

#[test]
fn tokens_given_already_normalized() {
    let toks = vec!["SHIFT".to_string(), "F1".to_string()];
    assert!(match_tokens(&vec![Key::RShift, Key::F1], &toks));
    assert!(!match_tokens(&vec![Key::F1], &toks));
}

#[test]
fn split_keeps_empty_pieces() {
    assert_eq!(split_on_plus("CTRL+A"), vec!["CTRL".to_string(), "A".to_string()]);
    assert_eq!(split_on_plus("+"), vec![String::new(), String::new()]);
    assert_eq!(split_on_plus(""), vec![String::new()]);
}

#[test]
fn text_comparison() {
    assert!(text_is("ab", "ab"));
    assert!(!text_is("ab", "abc"));
    assert!(!text_is("ab", "aB"));
}

#[test]
fn mouse_button_names() {
    assert_eq!(get_mouse_button_index("MouseButton4"), Some(4));
    assert_eq!(get_mouse_button_index("MouseButton5"), Some(5));
    assert_eq!(get_mouse_button_index("mousebutton4"), None);
    assert_eq!(get_mouse_button_index("MouseButton3"), None);
}

#[test]
fn mouse_button_state() {
    let buttons = vec![false, false, false, false, true, false];
    assert!(is_mouse_button_pressed(&buttons, "MouseButton4"));
    assert!(!is_mouse_button_pressed(&buttons, "MouseButton5"));
    assert!(!is_mouse_button_pressed(&vec![true, true], "MouseButton4"));
    assert!(!is_mouse_button_pressed(&buttons, "A"));
}

#[test]
fn mouse_button_edge() {
    let up = vec![false; 6];
    let down = vec![false, false, false, false, false, true];
    assert!(was_mouse_button_just_pressed(&down, &up, "MouseButton5"));
    assert!(!was_mouse_button_just_pressed(&down, &down, "MouseButton5"));
    assert!(!was_mouse_button_just_pressed(&up, &down, "MouseButton5"));
    assert!(was_mouse_button_just_pressed(&down, &vec![], "MouseButton5"));
}
