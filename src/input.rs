//! Keyboard side: key-code names, left/right-aware modifier tracking, event
//! translation with repeat filtering, and the bookkeeping of an exclusive grab.
use vstd::prelude::*;

use crate::config::{KeyBinding, Modifiers};
use crate::text::str_eq;

verus! {

/// Event type of key events.
pub const EV_KEY: u16 = 1;

/// Key-event value of an auto-repeat.
pub const KEY_REPEAT: i32 = 2;

pub const KEY_ENTER: u16 = 28;
pub const KEY_LEFTCTRL: u16 = 29;
pub const KEY_A: u16 = 30;
pub const KEY_LEFTSHIFT: u16 = 42;
pub const KEY_RIGHTSHIFT: u16 = 54;
pub const KEY_LEFTALT: u16 = 56;
pub const KEY_RIGHTCTRL: u16 = 97;
pub const KEY_RIGHTALT: u16 = 100;
pub const KEY_LEFTMETA: u16 = 125;
pub const KEY_RIGHTMETA: u16 = 126;

/// The name of a Linux input key code, for the keys this tool knows.
pub open spec fn key_name_of(code: u16) -> Option<Seq<char>> {
    match code {
        30 => Some("a"@),
        48 => Some("b"@),
        46 => Some("c"@),
        32 => Some("d"@),
        18 => Some("e"@),
        33 => Some("f"@),
        34 => Some("g"@),
        35 => Some("h"@),
        23 => Some("i"@),
        36 => Some("j"@),
        37 => Some("k"@),
        38 => Some("l"@),
        50 => Some("m"@),
        49 => Some("n"@),
        24 => Some("o"@),
        25 => Some("p"@),
        16 => Some("q"@),
        19 => Some("r"@),
        31 => Some("s"@),
        20 => Some("t"@),
        22 => Some("u"@),
        47 => Some("v"@),
        17 => Some("w"@),
        45 => Some("x"@),
        21 => Some("y"@),
        44 => Some("z"@),
        11 => Some("0"@),
        2 => Some("1"@),
        3 => Some("2"@),
        4 => Some("3"@),
        5 => Some("4"@),
        6 => Some("5"@),
        7 => Some("6"@),
        8 => Some("7"@),
        9 => Some("8"@),
        10 => Some("9"@),
        1 => Some("esc"@),
        14 => Some("backspace"@),
        15 => Some("tab"@),
        28 => Some("enter"@),
        57 => Some("space"@),
        51 => Some(","@),
        52 => Some("."@),
        53 => Some("/"@),
        39 => Some(";"@),
        40 => Some("'"@),
        26 => Some("["@),
        27 => Some("]"@),
        43 => Some("\\"@),
        12 => Some("-"@),
        13 => Some("="@),
        41 => Some("`"@),
        103 => Some("up"@),
        108 => Some("down"@),
        105 => Some("left"@),
        106 => Some("right"@),
        59 => Some("f1"@),
        60 => Some("f2"@),
        61 => Some("f3"@),
        62 => Some("f4"@),
        63 => Some("f5"@),
        64 => Some("f6"@),
        65 => Some("f7"@),
        66 => Some("f8"@),
        67 => Some("f9"@),
        68 => Some("f10"@),
        87 => Some("f11"@),
        88 => Some("f12"@),
        _ => None,
    }
}

/// Maps a key code to its name; `None` for keys without one.
pub fn key_to_name(code: u16) -> (r: Option<String>)
    ensures
        r is None <==> key_name_of(code) is None,
        r matches Some(s) ==> key_name_of(code) == Some(s@),
{
    let name: &str = match code {
        30 => "a",
        48 => "b",
        46 => "c",
        32 => "d",
        18 => "e",
        33 => "f",
        34 => "g",
        35 => "h",
        23 => "i",
        36 => "j",
        37 => "k",
        38 => "l",
        50 => "m",
        49 => "n",
        24 => "o",
        25 => "p",
        16 => "q",
        19 => "r",
        31 => "s",
        20 => "t",
        22 => "u",
        47 => "v",
        17 => "w",
        45 => "x",
        21 => "y",
        44 => "z",
        11 => "0",
        2 => "1",
        3 => "2",
        4 => "3",
        5 => "4",
        6 => "5",
        7 => "6",
        8 => "7",
        9 => "8",
        10 => "9",
        1 => "esc",
        14 => "backspace",
        15 => "tab",
        28 => "enter",
        57 => "space",
        51 => ",",
        52 => ".",
        53 => "/",
        39 => ";",
        40 => "'",
        26 => "[",
        27 => "]",
        43 => "\\",
        12 => "-",
        13 => "=",
        41 => "`",
        103 => "up",
        108 => "down",
        105 => "left",
        106 => "right",
        59 => "f1",
        60 => "f2",
        61 => "f3",
        62 => "f4",
        63 => "f5",
        64 => "f6",
        65 => "f7",
        66 => "f8",
        67 => "f9",
        68 => "f10",
        87 => "f11",
        88 => "f12",
        _ => {
            return None;
        },
    };
    Some(name.to_string())
}

/// Physical modifier keys held, left and right apart.
#[derive(Clone, Copy, Debug, PartialEq, Eq, Structural)]
pub struct ModifierState {
    pub left_alt: bool,
    pub right_alt: bool,
    pub left_ctrl: bool,
    pub right_ctrl: bool,
    pub left_shift: bool,
    pub right_shift: bool,
    pub left_meta: bool,
    pub right_meta: bool,
}

/// No modifier key held.
pub open spec fn released_modifiers() -> ModifierState {
    ModifierState {
        left_alt: false,
        right_alt: false,
        left_ctrl: false,
        right_ctrl: false,
        left_shift: false,
        right_shift: false,
        left_meta: false,
        right_meta: false,
    }
}

impl Default for ModifierState {
    fn default() -> (r: Self)
        ensures
            r == released_modifiers(),
    {
        ModifierState {
            left_alt: false,
            right_alt: false,
            left_ctrl: false,
            right_ctrl: false,
            left_shift: false,
            right_shift: false,
            left_meta: false,
            right_meta: false,
        }
    }
}

impl ModifierState {
    /// The state after key `code` went down (`pressed`) or up.
    pub open spec fn updated(self, code: u16, pressed: bool) -> ModifierState {
        if code == KEY_LEFTALT {
            ModifierState { left_alt: pressed, ..self }
        } else if code == KEY_RIGHTALT {
            ModifierState { right_alt: pressed, ..self }
        } else if code == KEY_LEFTCTRL {
            ModifierState { left_ctrl: pressed, ..self }
        } else if code == KEY_RIGHTCTRL {
            ModifierState { right_ctrl: pressed, ..self }
        } else if code == KEY_LEFTSHIFT {
            ModifierState { left_shift: pressed, ..self }
        } else if code == KEY_RIGHTSHIFT {
            ModifierState { right_shift: pressed, ..self }
        } else if code == KEY_LEFTMETA {
            ModifierState { left_meta: pressed, ..self }
        } else if code == KEY_RIGHTMETA {
            ModifierState { right_meta: pressed, ..self }
        } else {
            self
        }
    }

    /// The logical modifier set: each modifier is held on either side.
    pub open spec fn logical(self) -> Modifiers {
        Modifiers {
            alt: self.left_alt || self.right_alt,
            ctrl: self.left_ctrl || self.right_ctrl,
            shift: self.left_shift || self.right_shift,
            super_key: self.left_meta || self.right_meta,
        }
    }

    /// Records that key `code` went down or up; keys other than the eight
    /// modifier keys leave the state as it is.
    pub fn update(&mut self, code: u16, pressed: bool)
        ensures
            *final(self) == old(self).updated(code, pressed),
    {
        if code == KEY_LEFTALT {
            self.left_alt = pressed;
        } else if code == KEY_RIGHTALT {
            self.right_alt = pressed;
        } else if code == KEY_LEFTCTRL {
            self.left_ctrl = pressed;
        } else if code == KEY_RIGHTCTRL {
            self.right_ctrl = pressed;
        } else if code == KEY_LEFTSHIFT {
            self.left_shift = pressed;
        } else if code == KEY_RIGHTSHIFT {
            self.right_shift = pressed;
        } else if code == KEY_LEFTMETA {
            self.left_meta = pressed;
        } else if code == KEY_RIGHTMETA {
            self.right_meta = pressed;
        }
    }

    pub fn alt(&self) -> (r: bool)
        ensures
            r == self.logical().alt,
    {
        self.left_alt || self.right_alt
    }

    pub fn ctrl(&self) -> (r: bool)
        ensures
            r == self.logical().ctrl,
    {
        self.left_ctrl || self.right_ctrl
    }

    pub fn shift(&self) -> (r: bool)
        ensures
            r == self.logical().shift,
    {
        self.left_shift || self.right_shift
    }

    /// Meta, also called Super.
    pub fn meta(&self) -> (r: bool)
        ensures
            r == self.logical().super_key,
    {
        self.left_meta || self.right_meta
    }

    /// Snapshot of the logical modifier set.
    pub fn to_modifiers(&self) -> (r: Modifiers)
        ensures
            r == self.logical(),
    {
        Modifiers { alt: self.alt(), ctrl: self.ctrl(), shift: self.shift(), super_key: self.meta() }
    }

    /// A binding matches when the key names are equal and the held modifier
    /// set equals the binding's exactly: an extra modifier breaks the match.
    pub fn matches(&self, binding: &KeyBinding, key_name: &str) -> (r: bool)
        ensures
            r == (key_name@ == binding.key@ && self.logical() == binding.modifiers),
    {
        if !str_eq(key_name, binding.key.as_str()) {
            return false;
        }
        let mods = self.to_modifiers();
        mods == binding.modifiers
    }
}

/// A translated key press or release.
#[derive(Clone, Debug)]
pub struct KeyEvent {
    pub key: String,
    pub pressed: bool,
    pub modifiers: Modifiers,
}

/// A device counts as a keyboard when it has both the `A` key and `Enter`.
pub fn is_keyboard(supported: &Vec<u16>) -> (r: bool)
    ensures
        r == (supported@.contains(KEY_A) && supported@.contains(KEY_ENTER)),
{
    let mut has_a = false;
    let mut has_enter = false;
    let mut i: usize = 0;
    while i < supported.len()
        invariant
            i <= supported@.len(),
            has_a == exists|j: int| 0 <= j < i && supported@[j] == KEY_A,
            has_enter == exists|j: int| 0 <= j < i && supported@[j] == KEY_ENTER,
        decreases supported@.len() - i,
    {
        if supported[i] == KEY_A {
            has_a = true;
        }
        if supported[i] == KEY_ENTER {
            has_enter = true;
        }
        i = i + 1;
    }
    has_a && has_enter
}

/// The keyboard side of an exclusive grab: whether the devices are grabbed,
/// and the modifier keys seen so far.
#[derive(Clone, Copy, Debug, PartialEq, Eq, Structural)]
pub struct GrabState {
    pub grabbed: bool,
    pub modifier_state: ModifierState,
}

/// What a grab release leaves: nothing grabbed, no modifier held.
pub open spec fn released(s: GrabState) -> GrabState {
    GrabState { grabbed: false, modifier_state: released_modifiers() }
}

impl GrabState {
    pub fn new() -> (r: Self)
        ensures
            !r.grabbed,
            r.modifier_state == released_modifiers(),
    {
        GrabState { grabbed: false, modifier_state: ModifierState::default() }
    }

    pub fn is_grabbed(&self) -> (r: bool)
        ensures
            r == self.grabbed,
    {
        self.grabbed
    }

    /// Records that every device is now grabbed.
    pub fn mark_grabbed(&mut self)
        ensures
            final(self).grabbed,
            final(self).modifier_state == old(self).modifier_state,
    {
        self.grabbed = true;
    }

    /// Ends the grab. Returns whether the devices were grabbed, that is,
    /// whether they must now be let go; a second call returns false. The
    /// modifier state is cleared in any case, so no modifier stays stuck.
    pub fn release(&mut self) -> (was_grabbed: bool)
        ensures
            was_grabbed == old(self).grabbed,
            *final(self) == released(*old(self)),
    {
        let was_grabbed = self.grabbed;
        self.grabbed = false;
        self.modifier_state = ModifierState::default();
        was_grabbed
    }

    /// Translates one raw device event. Events other than key events, and
    /// auto-repeats, are dropped before anything else sees them. A key press
    /// (value 1) or release (any other value) updates the modifier state and,
    /// for a key with a name, yields a key event with the modifiers then held.
    pub fn translate(&mut self, ev_type: u16, code: u16, value: i32) -> (r: Option<KeyEvent>)
        ensures
            ev_type != EV_KEY || value == KEY_REPEAT ==> r is None && *final(self) == *old(self),
            ev_type == EV_KEY && value != KEY_REPEAT ==> {
                &&& final(self).grabbed == old(self).grabbed
                &&& final(self).modifier_state == old(self).modifier_state.updated(code, value == 1)
                &&& (r is None <==> key_name_of(code) is None)
                &&& (r matches Some(e) ==> key_name_of(code) == Some(e.key@) && e.pressed == (value
                    == 1) && e.modifiers == final(self).modifier_state.logical())
            },
    {
        if ev_type != EV_KEY || value == KEY_REPEAT {
            return None;
        }
        let pressed = value == 1;
        self.modifier_state.update(code, pressed);
        match key_to_name(code) {
            Some(key) => Some(KeyEvent { key, pressed, modifiers: self.modifier_state.to_modifiers() }),
            None => None,
        }
    }

    /// Whether `key` with the modifiers held now is the chord `binding`.
    pub fn check_activation(&self, key: &str, binding: &KeyBinding) -> (r: bool)
        ensures
            r == (key@ == binding.key@ && self.modifier_state.logical() == binding.modifiers),
    {
        self.modifier_state.matches(binding, key)
    }

    pub fn modifiers(&self) -> (r: &ModifierState)
        ensures
            *r == self.modifier_state,
    {
        &self.modifier_state
    }
}

/// Matching is by exact modifier set: with a binding's modifiers held, also
/// pressing Control when the binding has no Control breaks the match.
pub proof fn lemma_extra_modifier_breaks_match(m: ModifierState, b: KeyBinding)
    requires
        m.logical() == b.modifiers,
        !b.modifiers.ctrl,
    ensures
        m.updated(KEY_LEFTCTRL, true).logical() != b.modifiers,
        m.updated(KEY_RIGHTCTRL, true).logical() != b.modifiers,
{
}

/// Teardown happens once: after a release nothing is grabbed, so a second
/// release reports that nothing is left to let go.
pub proof fn lemma_release_once(s: GrabState)
    ensures
        !released(s).grabbed,
        released(released(s)) == released(s),
{
}

} // verus!
