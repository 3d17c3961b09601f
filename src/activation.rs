//! The activation state machine: from the latest input sample and the stored
//! activation of the left and right click targets, decide which activations
//! change. Hold mode makes a target active exactly while its hotkey is held;
//! toggle mode flips it on each press.

use vstd::prelude::*;

use crate::hotkey::{check_hotkey, hotkey_matches};
use crate::key::Key;
use crate::mouse::{
    button_down, get_mouse_button_index, is_mouse_button_pressed, mouse_button_index,
    was_mouse_button_just_pressed,
};

verus! {

/// Delay between two polls while the automation runs.
pub const ACTIVE_POLL_MS: u64 = 50;

/// Delay between two polls while the automation is stopped.
pub const IDLE_POLL_MS: u64 = 200;

/// One sample of the input devices: the keys held, and for each mouse button
/// index whether it is held.
pub struct InputSnapshot {
    pub keys: Vec<Key>,
    pub buttons: Vec<bool>,
}

impl View for InputSnapshot {
    type V = (Seq<Key>, Seq<bool>);

    open spec fn view(&self) -> (Seq<Key>, Seq<bool>) {
        (self.keys@, self.buttons@)
    }
}

/// The hotkey of each click target and the activation mode.
pub struct HotkeySettings {
    pub hotkey_left: String,
    pub hotkey_right: String,
    pub hold_mode: bool,
}

/// The stored activation of the two click targets.
#[derive(Clone, Copy, Debug, PartialEq, Eq, Structural)]
pub struct Activation {
    pub left: bool,
    pub right: bool,
}

/// The new value to store and announce for each target, where it changes.
#[derive(Clone, Copy, Debug, PartialEq, Eq, Structural)]
pub struct ActivationUpdate {
    pub left: Option<bool>,
    pub right: Option<bool>,
}

pub open spec fn no_update() -> ActivationUpdate {
    ActivationUpdate { left: None, right: None }
}

/// The stored activation once an update is written.
pub open spec fn applied(stored: Activation, u: ActivationUpdate) -> Activation {
    Activation {
        left: match u.left {
            Some(b) => b,
            None => stored.left,
        },
        right: match u.right {
            Some(b) => b,
            None => stored.right,
        },
    }
}

/// Whether a hotkey is held in a sample: a mouse-button hotkey by its button,
/// any other as a key combination.
pub open spec fn target_active(snap: (Seq<Key>, Seq<bool>), hotkey: Seq<char>) -> bool {
    if mouse_button_index(hotkey) is Some {
        button_down(snap.1, hotkey)
    } else {
        hotkey_matches(snap.0, hotkey)
    }
}

/// Hold mode for one target: store whether the hotkey is held, when that
/// differs from what is stored. An empty hotkey leaves the target alone.
pub open spec fn hold_target(hotkey: Seq<char>, snap: (Seq<Key>, Seq<bool>), stored: bool) -> Option<bool> {
    if hotkey.len() > 0 && target_active(snap, hotkey) != stored {
        Some(target_active(snap, hotkey))
    } else {
        None
    }
}

/// Toggle mode for one target: flip the stored value when the hotkey is held
/// now and was not held in the previous sample.
pub open spec fn toggle_target(
    hotkey: Seq<char>,
    current: (Seq<Key>, Seq<bool>),
    previous: (Seq<Key>, Seq<bool>),
    stored: bool,
) -> Option<bool> {
    if hotkey.len() > 0 && target_active(current, hotkey) && !target_active(previous, hotkey) {
        Some(!stored)
    } else {
        None
    }
}

pub open spec fn hold_update(settings: HotkeySettings, current: (Seq<Key>, Seq<bool>), stored: Activation) -> ActivationUpdate {
    ActivationUpdate {
        left: hold_target(settings.hotkey_left@, current, stored.left),
        right: hold_target(settings.hotkey_right@, current, stored.right),
    }
}

pub open spec fn toggle_update(
    settings: HotkeySettings,
    current: (Seq<Key>, Seq<bool>),
    previous: (Seq<Key>, Seq<bool>),
    stored: Activation,
) -> ActivationUpdate {
    ActivationUpdate {
        left: toggle_target(settings.hotkey_left@, current, previous, stored.left),
        right: toggle_target(settings.hotkey_right@, current, previous, stored.right),
    }
}

/// The update of one poll while the automation runs.
pub open spec fn running_update(
    settings: HotkeySettings,
    current: (Seq<Key>, Seq<bool>),
    previous: (Seq<Key>, Seq<bool>),
    stored: Activation,
) -> ActivationUpdate {
    if settings.hold_mode {
        hold_update(settings, current, stored)
    } else {
        toggle_update(settings, current, previous, stored)
    }
}

/// The update of one poll while the automation is stopped: in hold mode every
/// active target is released; toggle mode keeps what is stored.
pub open spec fn idle_update(hold_mode: bool, stored: Activation) -> ActivationUpdate {
    if hold_mode {
        ActivationUpdate {
            left: if stored.left { Some(false) } else { None },
            right: if stored.right { Some(false) } else { None },
        }
    } else {
        no_update()
    }
}

impl ActivationUpdate {
    /// An update that changes nothing.
    pub fn none() -> (r: ActivationUpdate)
        ensures
            r == no_update(),
    {
        ActivationUpdate { left: None, right: None }
    }

    /// The stored activation once this update is written.
    pub fn apply(self, stored: Activation) -> (r: Activation)
        ensures
            r == applied(stored, self),
    {
        Activation {
            left: match self.left {
                Some(b) => b,
                None => stored.left,
            },
            right: match self.right {
                Some(b) => b,
                None => stored.right,
            },
        }
    }
}

fn same_keys(a: &Vec<Key>, b: &Vec<Key>) -> (r: bool)
    ensures
        r == (a@ == b@),
{
    if a.len() != b.len() {
        return false;
    }
    let mut i: usize = 0;
    while i < a.len()
        invariant
            a@.len() == b@.len(),
            i <= a@.len(),
            forall|j: int| 0 <= j < i ==> a@[j] == b@[j],
        decreases a@.len() - i,
    {
        if a[i] != b[i] {
            return false;
        }
        i = i + 1;
    }
    assert(a@ =~= b@);
    true
}

fn same_buttons(a: &Vec<bool>, b: &Vec<bool>) -> (r: bool)
    ensures
        r == (a@ == b@),
{
    if a.len() != b.len() {
        return false;
    }
    let mut i: usize = 0;
    while i < a.len()
        invariant
            a@.len() == b@.len(),
            i <= a@.len(),
            forall|j: int| 0 <= j < i ==> a@[j] == b@[j],
        decreases a@.len() - i,
    {
        if a[i] != b[i] {
            return false;
        }
        i = i + 1;
    }
    assert(a@ =~= b@);
    true
}

impl InputSnapshot {
    /// Whether two samples hold the same keys and button states.
    pub fn same_as(&self, other: &InputSnapshot) -> (r: bool)
        ensures
            r == (self@ == other@),
    {
        same_keys(&self.keys, &other.keys) && same_buttons(&self.buttons, &other.buttons)
    }

    /// A copy of this sample.
    pub fn duplicate(&self) -> (r: InputSnapshot)
        ensures
            r@ == self@,
    {
        let mut keys: Vec<Key> = Vec::new();
        let mut i: usize = 0;
        while i < self.keys.len()
            invariant
                i <= self.keys@.len(),
                keys@ == self.keys@.take(i as int),
            decreases self.keys@.len() - i,
        {
            keys.push(self.keys[i]);
            i = i + 1;
            assert(keys@ =~= self.keys@.take(i as int));
        }
        let mut buttons: Vec<bool> = Vec::new();
        let mut j: usize = 0;
        while j < self.buttons.len()
            invariant
                j <= self.buttons@.len(),
                buttons@ == self.buttons@.take(j as int),
            decreases self.buttons@.len() - j,
        {
            buttons.push(self.buttons[j]);
            j = j + 1;
            assert(buttons@ =~= self.buttons@.take(j as int));
        }
        assert(keys@ =~= self.keys@);
        assert(buttons@ =~= self.buttons@);
        InputSnapshot { keys, buttons }
    }
}

/// Whether `hotkey` is held in the sample.
pub fn target_is_active(snap: &InputSnapshot, hotkey: &str) -> (r: bool)
    ensures
        r == target_active(snap@, hotkey@),
{
    if get_mouse_button_index(hotkey).is_some() {
        is_mouse_button_pressed(&snap.buttons, hotkey)
    } else {
        check_hotkey(&snap.keys, hotkey)
    }
}

fn hold_target_update(hotkey: &str, current: &InputSnapshot, stored: bool) -> (r: Option<bool>)
    ensures
        r == hold_target(hotkey@, current@, stored),
{
    if hotkey.is_empty() {
        return None;
    }
    let active = target_is_active(current, hotkey);
    if active != stored {
        Some(active)
    } else {
        None
    }
}

fn toggle_target_update(hotkey: &str, current: &InputSnapshot, previous: &InputSnapshot, stored: bool) -> (r: Option<bool>)
    ensures
        r == toggle_target(hotkey@, current@, previous@, stored),
{
    if hotkey.is_empty() {
        return None;
    }
    let triggered = if get_mouse_button_index(hotkey).is_some() {
        was_mouse_button_just_pressed(&current.buttons, &previous.buttons, hotkey)
    } else {
        check_hotkey(&current.keys, hotkey) && !check_hotkey(&previous.keys, hotkey)
    };
    if triggered {
        Some(!stored)
    } else {
        None
    }
}

/// Hold mode: each target with a hotkey becomes active exactly while its
/// hotkey is held; only values that differ from the stored ones are written.
pub fn handle_hold_mode(settings: &HotkeySettings, current: &InputSnapshot, stored: Activation) -> (r: ActivationUpdate)
    ensures
        r == hold_update(*settings, current@, stored),
{
    ActivationUpdate {
        left: hold_target_update(settings.hotkey_left.as_str(), current, stored.left),
        right: hold_target_update(settings.hotkey_right.as_str(), current, stored.right),
    }
}

/// Toggle mode: each target with a hotkey flips when its hotkey goes from
/// released in `previous` to held in `current`. Where the sample differs from
/// `previous`, it becomes the new `previous`.
pub fn handle_toggle_mode(
    settings: &HotkeySettings,
    current: &InputSnapshot,
    previous: &mut InputSnapshot,
    stored: Activation,
) -> (r: ActivationUpdate)
    ensures
        r == toggle_update(*settings, current@, old(previous)@, stored),
        final(previous)@ == current@,
{
    if current.same_as(previous) {
        return ActivationUpdate::none();
    }
    let r = ActivationUpdate {
        left: toggle_target_update(settings.hotkey_left.as_str(), current, previous, stored.left),
        right: toggle_target_update(settings.hotkey_right.as_str(), current, previous, stored.right),
    };
    *previous = current.duplicate();
    r
}

/// Releases every active target, as hold mode does while stopped.
pub fn reset_hold_mode_hotkeys(stored: Activation) -> (r: ActivationUpdate)
    ensures
        r == idle_update(true, stored),
{
    ActivationUpdate {
        left: if stored.left { Some(false) } else { None },
        right: if stored.right { Some(false) } else { None },
    }
}

/// One poll while the automation is stopped.
pub fn idle_tick(hold_mode: bool, stored: Activation) -> (r: ActivationUpdate)
    ensures
        r == idle_update(hold_mode, stored),
{
    if hold_mode {
        reset_hold_mode_hotkeys(stored)
    } else {
        ActivationUpdate::none()
    }
}

/// One poll while the automation runs, on a fresh sample. Toggle mode keeps
/// the sample as the previous one; hold mode leaves `previous` as it was.
pub fn running_tick(
    settings: &HotkeySettings,
    current: &InputSnapshot,
    previous: &mut InputSnapshot,
    stored: Activation,
) -> (r: ActivationUpdate)
    ensures
        r == running_update(*settings, current@, old(previous)@, stored),
        final(previous)@ == (if settings.hold_mode { old(previous)@ } else { current@ }),
{
    if settings.hold_mode {
        handle_hold_mode(settings, current, stored)
    } else {
        handle_toggle_mode(settings, current, previous, stored)
    }
}

/// How long to wait before the next poll.
pub fn poll_interval_ms(running: bool) -> (r: u64)
    ensures
        r == (if running { ACTIVE_POLL_MS } else { IDLE_POLL_MS }),
{
    if running {
        ACTIVE_POLL_MS
    } else {
        IDLE_POLL_MS
    }
}

/// In hold mode, one poll leaves each target that has a hotkey active exactly
/// when its hotkey is held in the sample, and polling the same sample again
/// writes nothing.
pub proof fn lemma_hold_mode_converges(
    settings: HotkeySettings,
    current: (Seq<Key>, Seq<bool>),
    previous: (Seq<Key>, Seq<bool>),
    stored: Activation,
)
    requires
        settings.hold_mode,
    ensures
        settings.hotkey_left@.len() > 0 ==> applied(stored, running_update(settings, current, previous, stored)).left
            == target_active(current, settings.hotkey_left@),
        settings.hotkey_right@.len() > 0 ==> applied(stored, running_update(settings, current, previous, stored)).right
            == target_active(current, settings.hotkey_right@),
        running_update(
            settings,
            current,
            previous,
            applied(stored, running_update(settings, current, previous, stored)),
        ) == no_update(),
{
}

/// In toggle mode, a target flips on the poll where its hotkey goes from
/// released to held, and not on the following poll while it stays held.
pub proof fn lemma_toggle_flips_once_per_press(
    settings: HotkeySettings,
    before: (Seq<Key>, Seq<bool>),
    first: (Seq<Key>, Seq<bool>),
    second: (Seq<Key>, Seq<bool>),
    stored: Activation,
)
    requires
        !settings.hold_mode,
    ensures
        settings.hotkey_left@.len() > 0 && !target_active(before, settings.hotkey_left@) && target_active(
            first,
            settings.hotkey_left@,
        ) ==> running_update(settings, first, before, stored).left == Some(!stored.left),
        settings.hotkey_right@.len() > 0 && !target_active(before, settings.hotkey_right@) && target_active(
            first,
            settings.hotkey_right@,
        ) ==> running_update(settings, first, before, stored).right == Some(!stored.right),
        target_active(first, settings.hotkey_left@) && target_active(second, settings.hotkey_left@)
            ==> running_update(
            settings,
            second,
            first,
            applied(stored, running_update(settings, first, before, stored)),
        ).left is None,
        target_active(first, settings.hotkey_right@) && target_active(second, settings.hotkey_right@)
            ==> running_update(
            settings,
            second,
            first,
            applied(stored, running_update(settings, first, before, stored)),
        ).right is None,
{
}

/// Once the automation is stopped in hold mode, one poll leaves both targets
/// inactive.
pub proof fn lemma_stop_releases_hold_targets(stored: Activation)
    ensures
        applied(stored, idle_update(true, stored)) == (Activation { left: false, right: false }),
{
}

} // verus!
