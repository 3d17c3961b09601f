use autoclicker::activation::{
    handle_hold_mode, handle_toggle_mode, idle_tick, poll_interval_ms, reset_hold_mode_hotkeys, running_tick,
    target_is_active, Activation, ActivationUpdate, HotkeySettings, InputSnapshot,
};
use autoclicker::clicker::{click_step, ClickPlan};
use autoclicker::key::Key;

fn snap(keys: Vec<Key>, buttons: Vec<bool>) -> InputSnapshot {
    InputSnapshot { keys, buttons }
}

fn settings(left: &str, right: &str, hold_mode: bool) -> HotkeySettings {
    HotkeySettings { hotkey_left: left.to_string(), hotkey_right: right.to_string(), hold_mode }
}

fn off() -> Activation {
    Activation { left: false, right: false }
}

#[test]
fn hold_mode_follows_the_keys() {
    let s = settings("CTRL+A", "MouseButton4", true);
    let mut stored = off();
    let mut previous = snap(vec![], vec![]);
    let samples = vec![
        snap(vec![Key::LControl, Key::A], vec![false; 6]),
        snap(vec![Key::LControl, Key::A], vec![false, false, false, false, true, false]),
        snap(vec![Key::A], vec![false, false, false, false, true, false]),
        snap(vec![], vec![false; 6]),
        snap(vec![Key::RControl, Key::A], vec![false; 6]),
    ];
    for sample in &samples {
        let u = running_tick(&s, sample, &mut previous, stored);
        stored = u.apply(stored);
        assert_eq!(stored.left, target_is_active(sample, "CTRL+A"));
        assert_eq!(stored.right, target_is_active(sample, "MouseButton4"));
        let again = running_tick(&s, sample, &mut previous, stored);
        assert_eq!(again, ActivationUpdate::none());
    }
}

#[test]
fn hold_mode_writes_only_changes() {
    let s = settings("F1", "", true);
    let pressed = snap(vec![Key::F1], vec![]);
    let u = handle_hold_mode(&s, &pressed, off());
    assert_eq!(u, ActivationUpdate { left: Some(true), right: None });
    let u = handle_hold_mode(&s, &pressed, Activation { left: true, right: true });
    assert_eq!(u, ActivationUpdate { left: None, right: None });
    let u = handle_hold_mode(&s, &snap(vec![], vec![]), Activation { left: true, right: true });
    assert_eq!(u, ActivationUpdate { left: Some(false), right: None });
}

#[test]
fn toggle_flips_once_per_press() {
    let s = settings("SHIFT+F1", "", false);
    let mut previous = snap(vec![], vec![]);
    let mut stored = off();
    let press = snap(vec![Key::LShift, Key::F1], vec![]);
    let u = running_tick(&s, &press, &mut previous, stored);
    assert_eq!(u.left, Some(true));
    stored = u.apply(stored);
    let still = snap(vec![Key::F1, Key::LShift], vec![]);
    let u = running_tick(&s, &still, &mut previous, stored);
    assert_eq!(u.left, None);
    let u = running_tick(&s, &still, &mut previous, stored);
    assert_eq!(u.left, None);
    let u = running_tick(&s, &snap(vec![], vec![]), &mut previous, stored);
    assert_eq!(u.left, None);
    let u = running_tick(&s, &press, &mut previous, stored);
    assert_eq!(u.left, Some(false));
}

#[test]
fn toggle_with_mouse_button() {
    let s = settings("", "MouseButton5", false);
    let mut previous = snap(vec![], vec![false; 6]);
    let down = snap(vec![], vec![false, false, false, false, false, true]);
    let u = handle_toggle_mode(&s, &down, &mut previous, Activation { left: false, right: true });
    assert_eq!(u, ActivationUpdate { left: None, right: Some(false) });
    assert_eq!(previous.buttons, down.buttons);
    let u = handle_toggle_mode(&s, &down, &mut previous, Activation { left: false, right: false });
    assert_eq!(u, ActivationUpdate::none());
}

#[test]
fn hold_mode_keeps_previous_sample() {
    let s = settings("A", "B", true);
    let mut previous = snap(vec![Key::Z], vec![true]);
    running_tick(&s, &snap(vec![Key::A], vec![]), &mut previous, off());
    assert_eq!(previous.keys, vec![Key::Z]);
    assert_eq!(previous.buttons, vec![true]);
}

#[test]
fn stopping_releases_hold_targets() {
    let stored = Activation { left: true, right: false };
    let u = idle_tick(true, stored);
    assert_eq!(u, ActivationUpdate { left: Some(false), right: None });
    assert_eq!(u.apply(stored), off());
    assert_eq!(reset_hold_mode_hotkeys(off()), ActivationUpdate::none());
}

#[test]
fn stopping_keeps_toggle_targets() {
    let stored = Activation { left: true, right: true };
    assert_eq!(idle_tick(false, stored), ActivationUpdate::none());
}

#[test]
fn poll_intervals() {
    assert_eq!(poll_interval_ms(true), 50);
    assert_eq!(poll_interval_ms(false), 200);
}

#[test]
fn snapshot_comparison_and_copy() {
    let a = snap(vec![Key::A, Key::Other], vec![true, false]);
    let b = a.duplicate();
    assert!(a.same_as(&b));
    assert_eq!(b.keys, a.keys);
    assert!(!a.same_as(&snap(vec![Key::A], vec![true, false])));
    assert!(!a.same_as(&snap(vec![Key::A, Key::Other], vec![true, true])));
}

#[test]
fn clicks_at_the_interval_with_one_target() {
    let plan = click_step(true, true, false, 100_000);
    assert_eq!(plan, ClickPlan { click_left: true, click_right: false, sleep_micros: 100_000 });
    let plan = click_step(true, false, true, 100_000);
    assert_eq!(plan, ClickPlan { click_left: false, click_right: true, sleep_micros: 100_000 });
}

#[test]
fn no_clicks_without_active_target() {
    let plan = click_step(true, false, false, 100_000);
    assert_eq!(plan, ClickPlan { click_left: false, click_right: false, sleep_micros: 50_000 });
}

#[test]
fn no_clicks_while_stopped() {
    let plan = click_step(false, true, true, 100_000);
    assert_eq!(plan, ClickPlan { click_left: false, click_right: false, sleep_micros: 200_000 });
}
