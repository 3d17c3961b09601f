//! Matching a hotkey specification such as `"CTRL+SHIFT+A"` against the
//! set of keys held down.

use vstd::prelude::*;

use crate::key::{key_is_pressed, key_named, keycode_from_upper, Key};
use crate::text::{split_on_plus, split_plus, text_is, texts, trim_of, trimmed, upper_of, uppercase};

verus! {

pub open spec fn is_shift_word(t: Seq<char>) -> bool {
    t == "SHIFT"@
}

pub open spec fn is_ctrl_word(t: Seq<char>) -> bool {
    t == "CTRL"@ || t == "CONTROL"@
}

pub open spec fn is_alt_word(t: Seq<char>) -> bool {
    t == "ALT"@
}

/// A token that asks for a modifier rather than naming a key.
pub open spec fn is_modifier_word(t: Seq<char>) -> bool {
    is_shift_word(t) || is_ctrl_word(t) || is_alt_word(t)
}

pub open spec fn wants_shift(toks: Seq<Seq<char>>) -> bool {
    exists|i: int| 0 <= i < toks.len() && is_shift_word(#[trigger] toks[i])
}

pub open spec fn wants_ctrl(toks: Seq<Seq<char>>) -> bool {
    exists|i: int| 0 <= i < toks.len() && is_ctrl_word(#[trigger] toks[i])
}

pub open spec fn wants_alt(toks: Seq<Seq<char>>) -> bool {
    exists|i: int| 0 <= i < toks.len() && is_alt_word(#[trigger] toks[i])
}

/// Whether the left or the right variant of a modifier is held.
pub open spec fn either_held(pressed: Seq<Key>, left: Key, right: Key) -> bool {
    pressed.contains(left) || pressed.contains(right)
}

/// Every token that is no modifier names a known key.
pub open spec fn all_keys_known(toks: Seq<Seq<char>>) -> bool {
    forall|i: int| 0 <= i < toks.len() && !is_modifier_word(#[trigger] toks[i]) ==> key_named(toks[i]) is Some
}

/// Some token names a key rather than a modifier.
pub open spec fn names_a_key(toks: Seq<Seq<char>>) -> bool {
    exists|i: int| 0 <= i < toks.len() && !is_modifier_word(#[trigger] toks[i])
}

/// Whether upper-case, trimmed tokens match the pressed keys: every key token
/// is known, every requested modifier is held on either side, at least one
/// key is named, and every named key is held.
pub open spec fn tokens_match(pressed: Seq<Key>, toks: Seq<Seq<char>>) -> bool {
    &&& all_keys_known(toks)
    &&& wants_shift(toks) ==> either_held(pressed, Key::LShift, Key::RShift)
    &&& wants_ctrl(toks) ==> either_held(pressed, Key::LControl, Key::RControl)
    &&& wants_alt(toks) ==> either_held(pressed, Key::LAlt, Key::RAlt)
    &&& names_a_key(toks)
    &&& forall|i: int|
        0 <= i < toks.len() && !is_modifier_word(#[trigger] toks[i]) ==> pressed.contains(
            key_named(toks[i])->0,
        )
}

/// The tokens of a specification: its `'+'`-separated pieces, trimmed and
/// in upper case.
pub open spec fn normalized_tokens(s: Seq<char>) -> Seq<Seq<char>> {
    split_plus(s).map_values(|p: Seq<char>| upper_of(trim_of(p)))
}

/// Whether the hotkey specification `s` matches the pressed keys.
pub open spec fn hotkey_matches(pressed: Seq<Key>, s: Seq<char>) -> bool {
    s.len() > 0 && tokens_match(pressed, normalized_tokens(s))
}

/// Some key token among the first `n` names `k`.
pub open spec fn named_among(toks: Seq<Seq<char>>, n: int, k: Key) -> bool {
    exists|j: int| 0 <= j < n && !is_modifier_word(#[trigger] toks[j]) && key_named(toks[j]) == Some(k)
}

/// Matches trimmed, upper-case tokens against the pressed keys.
#[verifier::loop_isolation(false)]
pub fn match_tokens(pressed: &Vec<Key>, toks: &Vec<String>) -> (r: bool)
    ensures
        r == tokens_match(pressed@, texts(toks@)),
{
    let ghost ts = texts(toks@);
    proof {
        reveal_strlit("SHIFT");
        reveal_strlit("CTRL");
        reveal_strlit("CONTROL");
        reveal_strlit("ALT");
    }
    let mut shift = false;
    let mut ctrl = false;
    let mut alt = false;
    let mut required: Vec<Key> = Vec::new();
    let mut i: usize = 0;
    while i < toks.len()
        invariant
            ts == texts(toks@),
            i <= toks@.len(),
            shift == exists|j: int| 0 <= j < i && is_shift_word(#[trigger] ts[j]),
            ctrl == exists|j: int| 0 <= j < i && is_ctrl_word(#[trigger] ts[j]),
            alt == exists|j: int| 0 <= j < i && is_alt_word(#[trigger] ts[j]),
            forall|j: int| 0 <= j < i && !is_modifier_word(#[trigger] ts[j]) ==> key_named(ts[j]) is Some,
            forall|j: int|
                0 <= j < i && !is_modifier_word(#[trigger] ts[j]) ==> required@.contains(
                    key_named(ts[j])->0,
                ),
            forall|k: int| 0 <= k < required@.len() ==> named_among(ts, i as int, #[trigger] required@[k]),
            (required@.len() > 0) == (exists|j: int| 0 <= j < i && !is_modifier_word(#[trigger] ts[j])),
        decreases toks@.len() - i,
    {
        let t = toks[i].as_str();
        assert(t@ == ts[i as int]);
        if text_is(t, "SHIFT") {
            shift = true;
        } else if text_is(t, "CTRL") || text_is(t, "CONTROL") {
            ctrl = true;
        } else if text_is(t, "ALT") {
            alt = true;
        } else {
            match keycode_from_upper(t) {
                Some(k) => {
                    let ghost before = required@;
                    required.push(k);
                    proof {
                        assert forall|j: int|
                            0 <= j < i + 1 && !is_modifier_word(#[trigger] ts[j]) implies required@.contains(
                            key_named(ts[j])->0,
                        ) by {
                            if j < i {
                                let m = choose|m: int| 0 <= m < before.len() && before[m] == key_named(ts[j])->0;
                                assert(required@[m] == before[m]);
                            } else {
                                assert(required@[before.len() as int] == k);
                            }
                        }
                        assert forall|m: int| 0 <= m < required@.len() implies named_among(
                            ts,
                            i + 1,
                            #[trigger] required@[m],
                        ) by {
                            if m < before.len() {
                                assert(required@[m] == before[m]);
                                assert(named_among(ts, i as int, before[m]));
                            } else {
                                assert(!is_modifier_word(ts[i as int]));
                            }
                        }
                    }
                },
                None => {
                    assert(!all_keys_known(ts));
                    return false;
                },
            }
        }
        i = i + 1;
    }
    if shift && !key_is_pressed(pressed, Key::LShift) && !key_is_pressed(pressed, Key::RShift) {
        return false;
    }
    if ctrl && !key_is_pressed(pressed, Key::LControl) && !key_is_pressed(pressed, Key::RControl) {
        return false;
    }
    if alt && !key_is_pressed(pressed, Key::LAlt) && !key_is_pressed(pressed, Key::RAlt) {
        return false;
    }
    let mut k: usize = 0;
    while k < required.len()
        invariant
            k <= required@.len(),
            forall|m: int| 0 <= m < k ==> pressed@.contains(#[trigger] required@[m]),
        decreases required@.len() - k,
    {
        if !key_is_pressed(pressed, required[k]) {
            assert(named_among(ts, ts.len() as int, required@[k as int]));
            let ghost j = choose|j: int|
                0 <= j < ts.len() && !is_modifier_word(#[trigger] ts[j]) && key_named(ts[j]) == Some(
                    required@[k as int],
                );
            assert(!pressed@.contains(key_named(ts[j])->0));
            return false;
        }
        k = k + 1;
    }
    proof {
        assert forall|j: int|
            0 <= j < ts.len() && !is_modifier_word(#[trigger] ts[j]) implies pressed@.contains(
            key_named(ts[j])->0,
        ) by {
            let m = choose|m: int| 0 <= m < required@.len() && required@[m] == key_named(ts[j])->0;
            assert(pressed@.contains(required@[m]));
        }
    }
    required.len() > 0
}

/// Whether the hotkey specification `hotkey` matches the pressed keys.
pub fn check_hotkey(pressed: &Vec<Key>, hotkey: &str) -> (r: bool)
    ensures
        r == hotkey_matches(pressed@, hotkey@),
{
    if hotkey.is_empty() {
        return false;
    }
    let pieces = split_on_plus(hotkey);
    let ghost ps = texts(pieces@);
    let mut toks: Vec<String> = Vec::new();
    let mut i: usize = 0;
    while i < pieces.len()
        invariant
            ps == texts(pieces@),
            ps == split_plus(hotkey@),
            i <= pieces@.len(),
            toks@.len() == i,
            forall|j: int| 0 <= j < i ==> (#[trigger] toks@[j])@ == upper_of(trim_of(ps[j])),
        decreases pieces@.len() - i,
    {
        let t = uppercase(trimmed(pieces[i].as_str()));
        toks.push(t);
        i = i + 1;
    }
    assert(texts(toks@) =~= normalized_tokens(hotkey@));
    match_tokens(pressed, &toks)
}

/// A specification whose tokens are all modifiers never matches, even with
/// every modifier held.
pub proof fn lemma_modifiers_alone_never_match(pressed: Seq<Key>, s: Seq<char>)
    requires
        forall|i: int|
            0 <= i < normalized_tokens(s).len() ==> is_modifier_word(#[trigger] normalized_tokens(s)[i]),
    ensures
        !hotkey_matches(pressed, s),
{
}

/// A specification with a token that names no known key never matches.
pub proof fn lemma_unknown_key_never_matches(pressed: Seq<Key>, s: Seq<char>)
    requires
        exists|i: int|
            0 <= i < normalized_tokens(s).len() && !is_modifier_word(#[trigger] normalized_tokens(s)[i])
                && key_named(normalized_tokens(s)[i]) is None,
    ensures
        !hotkey_matches(pressed, s),
{
}

} // verus!
