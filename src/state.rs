//! The modal state machine: Inactive, Normal and Hint modes, and the action
//! each key produces in them.
use vstd::prelude::*;

use crate::config::Config;
use crate::text::{contains_char, pop_char, push_char, str_eq};

verus! {

/// Exactly one mode is active at a time.
#[derive(Clone, Copy, Debug, PartialEq, Eq, Structural)]
pub enum Mode {
    /// Listening for the activation chords only.
    Inactive,
    /// The keyboard drives the pointer.
    Normal,
    /// Hint labels are shown; two characters pick one.
    Hint,
}

/// What the orchestrating loop is asked to do after a key.
#[derive(Clone, Copy, Debug, PartialEq, Eq, Structural)]
pub enum Action {
    Nothing,
    EnterNormal,
    EnterHint,
    Exit,
    /// The combined held direction, each component in -1..=1.
    Move { dx: i32, dy: i32 },
    /// Button 0 is left, 1 middle, 2 right.
    Click(u8),
    ToggleDrag,
    CopyAndExit,
    /// Positive scrolls down, negative up.
    Scroll(i32),
    HintChar(char),
    Accelerate,
    Decelerate,
    ReleaseSpeedMod,
}

/// Held movement keys and speed modifiers.
#[derive(Clone, Copy, Debug, PartialEq, Eq, Structural)]
pub struct MovementState {
    pub left: bool,
    pub right: bool,
    pub up: bool,
    pub down: bool,
    pub accelerating: bool,
    pub decelerating: bool,
}

/// Held scroll keys.
#[derive(Clone, Copy, Debug, PartialEq, Eq, Structural)]
pub struct ScrollState {
    pub up: bool,
    pub down: bool,
}

/// Nothing held.
pub open spec fn idle_movement() -> MovementState {
    MovementState {
        left: false,
        right: false,
        up: false,
        down: false,
        accelerating: false,
        decelerating: false,
    }
}

/// Nothing held.
pub open spec fn idle_scroll() -> ScrollState {
    ScrollState { up: false, down: false }
}

/// One axis of a direction: the negative and positive keys cancel out.
pub open spec fn axis(neg: bool, pos: bool) -> i32 {
    if neg == pos {
        0
    } else if neg {
        -1i32
    } else {
        1
    }
}

impl Default for MovementState {
    fn default() -> (r: Self)
        ensures
            r == idle_movement(),
    {
        MovementState {
            left: false,
            right: false,
            up: false,
            down: false,
            accelerating: false,
            decelerating: false,
        }
    }
}

impl Default for ScrollState {
    fn default() -> (r: Self)
        ensures
            r == idle_scroll(),
    {
        ScrollState { up: false, down: false }
    }
}

impl MovementState {
    pub open spec fn dir(self) -> (i32, i32) {
        (axis(self.left, self.right), axis(self.up, self.down))
    }

    /// The held direction; opposite keys cancel, so left and right together
    /// give a horizontal component of 0.
    pub fn direction(&self) -> (r: (i32, i32))
        ensures
            r == self.dir(),
            self.left && self.right ==> r.0 == 0,
            self.up && self.down ==> r.1 == 0,
    {
        let dx: i32 = if self.left { -1 } else { 0 };
        let dx: i32 = dx + if self.right { 1 } else { 0 };
        let dy: i32 = if self.up { -1 } else { 0 };
        let dy: i32 = dy + if self.down { 1 } else { 0 };
        (dx, dy)
    }

    pub fn is_moving(&self) -> (r: bool)
        ensures
            r == (self.left || self.right || self.up || self.down),
    {
        self.left || self.right || self.up || self.down
    }
}

impl ScrollState {
    pub open spec fn dir(self) -> i32 {
        if self.down {
            1
        } else if self.up {
            -1i32
        } else {
            0
        }
    }

    /// 1 for down, -1 for up, 0 for none; down wins when both are held.
    pub fn direction(&self) -> (r: i32)
        ensures
            r == self.dir(),
    {
        if self.down {
            1
        } else if self.up {
            -1
        } else {
            0
        }
    }

    pub fn is_scrolling(&self) -> (r: bool)
        ensures
            r == (self.up || self.down),
    {
        self.up || self.down
    }
}

/// The movement state with one direction key newly held, and the move it asks for.
pub open spec fn held(m: MovementState) -> Action {
    Action::Move { dx: m.dir().0, dy: m.dir().1 }
}

/// Normal mode: the new movement state, scroll state, drag flag and action
/// after `key` went down (`pressed`) or up. Key names are compared as they
/// are, without regard to held modifiers.
/// Normal mode, key released: a speed modifier is let go, or the released
/// direction and scroll keys stop being held.
pub open spec fn normal_release(m: MovementState, sc: ScrollState, key: Seq<char>, c: Config) -> (
    MovementState,
    ScrollState,
    Action,
) {
    if key == c.accelerator@ {
        (MovementState { accelerating: false, ..m }, sc, Action::ReleaseSpeedMod)
    } else if key == c.decelerator@ {
        (MovementState { decelerating: false, ..m }, sc, Action::ReleaseSpeedMod)
    } else {
        (
            MovementState {
                left: m.left && key != c.left@,
                right: m.right && key != c.right@,
                up: m.up && key != c.up@,
                down: m.down && key != c.down@,
                ..m
            },
            ScrollState { up: sc.up && key != c.scroll_up@, down: sc.down && key != c.scroll_down@ },
            Action::Nothing,
        )
    }
}

/// Normal mode, key pressed: the first binding that applies, in a fixed order;
/// a direction, scroll or speed key acts only on its first press.
pub open spec fn normal_press(
    m: MovementState,
    sc: ScrollState,
    drag: bool,
    key: Seq<char>,
    c: Config,
) -> (MovementState, ScrollState, bool, Action) {
    if key == c.exit@ {
        (m, sc, drag, Action::Exit)
    } else if key == c.hint@ {
        (m, sc, drag, Action::EnterHint)
    } else if key == c.drag@ {
        (m, sc, !drag, Action::ToggleDrag)
    } else if key == c.copy_and_exit@ {
        (m, sc, drag, Action::CopyAndExit)
    } else if key == c.accelerator@ && !m.accelerating {
        (MovementState { accelerating: true, ..m }, sc, drag, Action::Accelerate)
    } else if key == c.decelerator@ && !m.decelerating {
        (MovementState { decelerating: true, ..m }, sc, drag, Action::Decelerate)
    } else if key == c.left@ && !m.left {
        let n = MovementState { left: true, ..m };
        (n, sc, drag, held(n))
    } else if key == c.right@ && !m.right {
        let n = MovementState { right: true, ..m };
        (n, sc, drag, held(n))
    } else if key == c.up@ && !m.up {
        let n = MovementState { up: true, ..m };
        (n, sc, drag, held(n))
    } else if key == c.down@ && !m.down {
        let n = MovementState { down: true, ..m };
        (n, sc, drag, held(n))
    } else if key == c.scroll_up@ && !sc.up {
        (m, ScrollState { up: true, ..sc }, drag, Action::Scroll(-1i32))
    } else if key == c.scroll_down@ && !sc.down {
        (m, ScrollState { down: true, ..sc }, drag, Action::Scroll(1))
    } else if key == c.buttons.left@ {
        (m, sc, drag, Action::Click(0))
    } else if key == c.buttons.middle@ {
        (m, sc, drag, Action::Click(1))
    } else if key == c.buttons.right@ {
        (m, sc, drag, Action::Click(2))
    } else {
        (m, sc, drag, Action::Nothing)
    }
}

/// Normal mode: the new movement state, scroll state, drag flag and action
/// after `key` went down (`pressed`) or up. Key names are compared as they
/// are, without regard to held modifiers.
pub open spec fn normal_key(
    m: MovementState,
    sc: ScrollState,
    drag: bool,
    key: Seq<char>,
    pressed: bool,
    c: Config,
) -> (MovementState, ScrollState, bool, Action) {
    if pressed {
        normal_press(m, sc, drag, key, c)
    } else {
        let r = normal_release(m, sc, key, c);
        (r.0, r.1, drag, r.2)
    }
}

/// Hint mode: the new hint buffer and the action after `key`. Only presses
/// count; a single character of the hint alphabet is appended, `backspace`
/// drops the last character.
pub open spec fn hint_key(buf: Seq<char>, key: Seq<char>, pressed: bool, c: Config) -> (
    Seq<char>,
    Action,
) {
    if !pressed {
        (buf, Action::Nothing)
    } else if key == c.hint_exit@ || key == c.exit@ {
        (buf, Action::Exit)
    } else if key.len() == 1 && c.hint_chars@.contains(key[0]) {
        (buf.push(key[0]), Action::HintChar(key[0]))
    } else if key == "backspace"@ && buf.len() > 0 {
        (buf.drop_last(), Action::Nothing)
    } else {
        (buf, Action::Nothing)
    }
}

/// The state of the modal machine, owned by the orchestrating loop.
#[derive(Debug)]
pub struct AppState {
    pub mode: Mode,
    pub drag_active: bool,
    pub movement: MovementState,
    pub scroll: ScrollState,
    pub hint_buffer: String,
}

impl Default for AppState {
    fn default() -> (r: Self)
        ensures
            r.mode == Mode::Inactive,
            !r.drag_active,
            r.movement == idle_movement(),
            r.scroll == idle_scroll(),
            r.hint_buffer@.len() == 0,
    {
        AppState {
            mode: Mode::Inactive,
            drag_active: false,
            movement: MovementState::default(),
            scroll: ScrollState::default(),
            hint_buffer: String::new(),
        }
    }
}

impl AppState {
    /// The hint buffer holds characters only in Hint mode.
    pub open spec fn wf(&self) -> bool {
        self.mode != Mode::Hint ==> self.hint_buffer@.len() == 0
    }

    pub fn new() -> (r: Self)
        ensures
            r.mode == Mode::Inactive,
            !r.drag_active,
            r.movement == idle_movement(),
            r.scroll == idle_scroll(),
            r.hint_buffer@.len() == 0,
            r.wf(),
    {
        Self::default()
    }

    /// Clears held keys and the hint buffer; mode and drag flag stay.
    pub fn reset(&mut self)
        ensures
            final(self).movement == idle_movement(),
            final(self).scroll == idle_scroll(),
            final(self).hint_buffer@.len() == 0,
            final(self).mode == old(self).mode,
            final(self).drag_active == old(self).drag_active,
    {
        self.movement = MovementState::default();
        self.scroll = ScrollState::default();
        self.hint_buffer = String::new();
    }

    /// Enters Normal mode from any state, with nothing held and no hint typed.
    pub fn enter_normal(&mut self)
        ensures
            final(self).mode == Mode::Normal,
            final(self).movement == idle_movement(),
            final(self).scroll == idle_scroll(),
            final(self).hint_buffer@.len() == 0,
            final(self).drag_active == old(self).drag_active,
            final(self).wf(),
    {
        self.reset();
        self.mode = Mode::Normal;
    }

    /// Enters Hint mode from any state, with nothing held and no hint typed.
    pub fn enter_hint(&mut self)
        ensures
            final(self).mode == Mode::Hint,
            final(self).movement == idle_movement(),
            final(self).scroll == idle_scroll(),
            final(self).hint_buffer@.len() == 0,
            final(self).drag_active == old(self).drag_active,
            final(self).wf(),
    {
        self.reset();
        self.mode = Mode::Hint;
    }

    /// Back to Inactive: nothing held, no hint typed, no drag.
    pub fn exit(&mut self)
        ensures
            final(self).mode == Mode::Inactive,
            final(self).movement == idle_movement(),
            final(self).scroll == idle_scroll(),
            final(self).hint_buffer@.len() == 0,
            !final(self).drag_active,
            final(self).wf(),
    {
        self.reset();
        self.mode = Mode::Inactive;
        self.drag_active = false;
    }

    /// Dispatches a key in the current mode. Inactive mode ignores it (the
    /// activation chords are matched elsewhere, with modifiers).
    pub fn process_key(&mut self, key: &str, pressed: bool, config: &Config) -> (r: Action)
        ensures
            final(self).mode == old(self).mode,
            old(self).mode == Mode::Inactive ==> r == Action::Nothing && *final(self) == *old(self),
            old(self).mode == Mode::Normal ==> {
                let n = normal_key(
                    old(self).movement,
                    old(self).scroll,
                    old(self).drag_active,
                    key@,
                    pressed,
                    *config,
                );
                &&& final(self).movement == n.0
                &&& final(self).scroll == n.1
                &&& final(self).drag_active == n.2
                &&& r == n.3
                &&& final(self).hint_buffer@ == old(self).hint_buffer@
            },
            old(self).mode == Mode::Hint ==> {
                let h = hint_key(old(self).hint_buffer@, key@, pressed, *config);
                &&& final(self).hint_buffer@ == h.0
                &&& r == h.1
                &&& final(self).movement == old(self).movement
                &&& final(self).scroll == old(self).scroll
                &&& final(self).drag_active == old(self).drag_active
            },
            old(self).wf() ==> final(self).wf(),
    {
        match self.mode {
            Mode::Inactive => Action::Nothing,
            Mode::Normal => self.process_normal_key(key, pressed, config),
            Mode::Hint => self.process_hint_key(key, pressed, config),
        }
    }

    fn process_normal_key(&mut self, key: &str, pressed: bool, config: &Config) -> (r: Action)
        ensures
            ({
                let n = normal_key(
                    old(self).movement,
                    old(self).scroll,
                    old(self).drag_active,
                    key@,
                    pressed,
                    *config,
                );
                &&& final(self).movement == n.0
                &&& final(self).scroll == n.1
                &&& final(self).drag_active == n.2
                &&& r == n.3
            }),
            final(self).mode == old(self).mode,
            final(self).hint_buffer == old(self).hint_buffer,
    {
        if pressed {
            self.press_normal_key(key, config)
        } else {
            self.release_normal_key(key, config)
        }
    }

    fn release_normal_key(&mut self, key: &str, config: &Config) -> (r: Action)
        ensures
            ({
                let n = normal_release(old(self).movement, old(self).scroll, key@, *config);
                &&& final(self).movement == n.0
                &&& final(self).scroll == n.1
                &&& r == n.2
            }),
            final(self).drag_active == old(self).drag_active,
            final(self).mode == old(self).mode,
            final(self).hint_buffer == old(self).hint_buffer,
    {
        if str_eq(key, config.accelerator.as_str()) {
            self.movement.accelerating = false;
            return Action::ReleaseSpeedMod;
        }
        if str_eq(key, config.decelerator.as_str()) {
            self.movement.decelerating = false;
            return Action::ReleaseSpeedMod;
        }
        let is_left = str_eq(key, config.left.as_str());
        let is_right = str_eq(key, config.right.as_str());
        let is_up = str_eq(key, config.up.as_str());
        let is_down = str_eq(key, config.down.as_str());
        let is_scroll_up = str_eq(key, config.scroll_up.as_str());
        let is_scroll_down = str_eq(key, config.scroll_down.as_str());
        self.movement.left = self.movement.left && !is_left;
        self.movement.right = self.movement.right && !is_right;
        self.movement.up = self.movement.up && !is_up;
        self.movement.down = self.movement.down && !is_down;
        self.scroll.up = self.scroll.up && !is_scroll_up;
        self.scroll.down = self.scroll.down && !is_scroll_down;
        Action::Nothing
    }

    #[verifier::rlimit(40)]
    fn press_normal_key(&mut self, key: &str, config: &Config) -> (r: Action)
        ensures
            ({
                let n = normal_press(
                    old(self).movement,
                    old(self).scroll,
                    old(self).drag_active,
                    key@,
                    *config,
                );
                &&& final(self).movement == n.0
                &&& final(self).scroll == n.1
                &&& final(self).drag_active == n.2
                &&& r == n.3
            }),
            final(self).mode == old(self).mode,
            final(self).hint_buffer == old(self).hint_buffer,
    {
        let is_exit = str_eq(key, config.exit.as_str());
        let is_hint = str_eq(key, config.hint.as_str());
        let is_drag = str_eq(key, config.drag.as_str());
        let is_copy = str_eq(key, config.copy_and_exit.as_str());
        let is_accel = str_eq(key, config.accelerator.as_str());
        let is_decel = str_eq(key, config.decelerator.as_str());
        let is_left = str_eq(key, config.left.as_str());
        let is_right = str_eq(key, config.right.as_str());
        let is_up = str_eq(key, config.up.as_str());
        let is_down = str_eq(key, config.down.as_str());
        let is_scroll_up = str_eq(key, config.scroll_up.as_str());
        let is_scroll_down = str_eq(key, config.scroll_down.as_str());
        let is_button_left = str_eq(key, config.buttons.left.as_str());
        let is_button_middle = str_eq(key, config.buttons.middle.as_str());
        let is_button_right = str_eq(key, config.buttons.right.as_str());
        if is_exit {
            Action::Exit
        } else if is_hint {
            Action::EnterHint
        } else if is_drag {
            self.drag_active = !self.drag_active;
            Action::ToggleDrag
        } else if is_copy {
            Action::CopyAndExit
        } else if is_accel && !self.movement.accelerating {
            self.movement.accelerating = true;
            Action::Accelerate
        } else if is_decel && !self.movement.decelerating {
            self.movement.decelerating = true;
            Action::Decelerate
        } else if is_left && !self.movement.left {
            self.movement.left = true;
            let (dx, dy) = self.movement.direction();
            Action::Move { dx, dy }
        } else if is_right && !self.movement.right {
            self.movement.right = true;
            let (dx, dy) = self.movement.direction();
            Action::Move { dx, dy }
        } else if is_up && !self.movement.up {
            self.movement.up = true;
            let (dx, dy) = self.movement.direction();
            Action::Move { dx, dy }
        } else if is_down && !self.movement.down {
            self.movement.down = true;
            let (dx, dy) = self.movement.direction();
            Action::Move { dx, dy }
        } else if is_scroll_up && !self.scroll.up {
            self.scroll.up = true;
            Action::Scroll(-1)
        } else if is_scroll_down && !self.scroll.down {
            self.scroll.down = true;
            Action::Scroll(1)
        } else if is_button_left {
            Action::Click(0)
        } else if is_button_middle {
            Action::Click(1)
        } else if is_button_right {
            Action::Click(2)
        } else {
            Action::Nothing
        }
    }

    fn process_hint_key(&mut self, key: &str, pressed: bool, config: &Config) -> (r: Action)
        ensures
            ({
                let h = hint_key(old(self).hint_buffer@, key@, pressed, *config);
                &&& final(self).hint_buffer@ == h.0
                &&& r == h.1
            }),
            final(self).mode == old(self).mode,
            final(self).movement == old(self).movement,
            final(self).scroll == old(self).scroll,
            final(self).drag_active == old(self).drag_active,
    {
        if !pressed {
            return Action::Nothing;
        }
        if str_eq(key, config.hint_exit.as_str()) || str_eq(key, config.exit.as_str()) {
            return Action::Exit;
        }
        if key.unicode_len() == 1 {
            let ch = key.get_char(0);
            if contains_char(config.hint_chars.as_str(), ch) {
                push_char(&mut self.hint_buffer, ch);
                return Action::HintChar(ch);
            }
        }
        if str_eq(key, "backspace") {
            pop_char(&mut self.hint_buffer);
        }
        Action::Nothing
    }
}

} // verus!
