//! The decisions of the control loop. The loop itself (polling devices,
//! writing to the virtual pointer, pacing frames) belongs to the caller; it
//! hands each key event and each tick to a `Session` and carries out the
//! commands it gets back, in order.
use vstd::prelude::*;

use crate::config::{Config, KeyBinding};
use crate::hints::{calculate_hints, find_hint_by_prefix, find_hint_exact, is_hint_grid, with_prefix, HintPoint};
use crate::input::{KeyEvent, ModifierState};
use crate::output::{
    button_batch, button_code_of, click_events, move_batch, move_events, release_batch, scroll_events,
    wheel_batch, InputEvent, PointerState, BTN_LEFT,
};
use crate::physics::{tick_result, PhysicsState};
use crate::state::{hint_key, idle_movement, idle_scroll, normal_key, Action, AppState, Mode, MovementState, ScrollState};

verus! {

/// Work for the caller to carry out.
#[derive(Debug)]
pub enum Command {
    /// Take exclusive hold of the keyboards.
    GrabDevices,
    /// Let the keyboards go.
    ReleaseDevices,
    /// Write these events to the virtual pointer as one batch.
    Emit(Vec<InputEvent>),
    /// Write `press`, wait the click settle delay, then write `release`.
    Click { press: Vec<InputEvent>, release: Vec<InputEvent> },
}

pub open spec fn is_emit(c: Command, es: Seq<InputEvent>) -> bool {
    c matches Command::Emit(v) && v@ == es
}

pub open spec fn is_click(c: Command, code: u16) -> bool {
    c matches Command::Click { press, release } && press@ == button_batch(code, true) && release@
        == button_batch(code, false)
}

/// `e` is a press of chord `b` with exactly its modifiers held.
pub open spec fn activates(b: KeyBinding, e: KeyEvent, mods: ModifierState) -> bool {
    e.pressed && e.key@ == b.key@ && mods.logical() == b.modifiers
}

/// What the mode state machine makes of a key: movement, scroll, drag flag,
/// hint buffer and action.
pub open spec fn key_step(s: AppState, key: Seq<char>, pressed: bool, c: Config) -> (
    MovementState,
    ScrollState,
    bool,
    Seq<char>,
    Action,
) {
    if s.mode == Mode::Normal {
        let n = normal_key(s.movement, s.scroll, s.drag_active, key, pressed, c);
        (n.0, n.1, n.2, s.hint_buffer@, n.3)
    } else if s.mode == Mode::Hint {
        let h = hint_key(s.hint_buffer@, key, pressed, c);
        (s.movement, s.scroll, s.drag_active, h.0, h.1)
    } else {
        (s.movement, s.scroll, s.drag_active, s.hint_buffer@, Action::Nothing)
    }
}

/// A state with nothing held and no hint typed, in mode `m`.
pub open spec fn cleared(s: AppState, m: Mode) -> bool {
    &&& s.mode == m
    &&& s.movement == idle_movement()
    &&& s.scroll == idle_scroll()
    &&& s.hint_buffer@.len() == 0
}

/// The commands that end a drag on the way out: one release batch, if held.
pub open spec fn release_commands(cmds: Seq<Command>, start: int, held: bool) -> bool {
    &&& cmds.len() == start + (if held { 1int } else { 0int })
    &&& held ==> is_emit(cmds[start], release_batch(true))
}

/// Motion stopped, clock read at `now`.
pub open spec fn at_rest(now: u64) -> PhysicsState {
    PhysicsState { velocity_x: 0, velocity_y: 0, scroll_velocity: 0, last_update: now }
}

/// `s` is the state machine's result `k` in mode `m`.
pub open spec fn takes_step(
    s: AppState,
    m: Mode,
    k: (MovementState, ScrollState, bool, Seq<char>, Action),
) -> bool {
    &&& s.mode == m
    &&& s.movement == k.0
    &&& s.scroll == k.1
    &&& s.drag_active == k.2
    &&& s.hint_buffer@ == k.3
}

/// Leaving for Inactive: nothing held, no drag flag, motion reset, the
/// keyboards let go and a held drag button released, in that order.
pub open spec fn exited(o: Session, f: Session, cmds: Seq<Command>, now: u64) -> bool {
    &&& cleared(f.state, Mode::Inactive)
    &&& !f.state.drag_active
    &&& f.physics == at_rest(now)
    &&& !f.pointer.drag_button_held
    &&& cmds.len() >= 1
    &&& cmds[0] is ReleaseDevices
    &&& release_commands(cmds, 1, o.pointer.drag_button_held)
}

/// The hint-grid size limit: the number of labels fits a `usize`.
pub open spec fn config_ok(c: Config) -> bool {
    c.hint_chars@.len() * c.hint_chars@.len() <= usize::MAX
}

/// Everything the control loop keeps between events.
pub struct Session {
    pub state: AppState,
    pub physics: PhysicsState,
    pub pointer: PointerState,
    pub hints: Vec<HintPoint>,
    pub screen_width: u32,
    pub screen_height: u32,
}

impl Session {
    pub open spec fn wf(&self) -> bool {
        &&& self.state.wf()
        &&& self.physics.wf()
        &&& 0 < self.screen_width <= i32::MAX
        &&& 0 < self.screen_height <= i32::MAX
    }

    /// Inactive, at rest, with no hints, for a screen of the given size.
    pub fn new(screen_width: u32, screen_height: u32, now_us: u64) -> (r: Self)
        requires
            0 < screen_width <= i32::MAX,
            0 < screen_height <= i32::MAX,
        ensures
            r.wf(),
            cleared(r.state, Mode::Inactive),
            !r.state.drag_active,
            !r.pointer.drag_button_held,
            r.hints@.len() == 0,
            r.physics == (PhysicsState { velocity_x: 0, velocity_y: 0, scroll_velocity: 0, last_update: now_us }),
            r.screen_width == screen_width,
            r.screen_height == screen_height,
    {
        Session {
            state: AppState::new(),
            physics: PhysicsState::new(now_us),
            pointer: PointerState::new(),
            hints: Vec::new(),
            screen_width,
            screen_height,
        }
    }

    /// Handles one key event. While Inactive only the two activation chords
    /// count, matched with the modifiers held now (`mods`); in the other
    /// modes the state machine decides and its action is carried out here.
    pub fn handle_event(
        &mut self,
        event: &KeyEvent,
        mods: &ModifierState,
        config: &Config,
        now_us: u64,
    ) -> (cmds: Vec<Command>)
        requires
            old(self).wf(),
            config_ok(*config),
        ensures
            final(self).wf(),
            final(self).screen_width == old(self).screen_width,
            final(self).screen_height == old(self).screen_height,
            old(self).state.mode == Mode::Inactive ==> {
                if activates(config.activation_key, *event, *mods) {
                    &&& cleared(final(self).state, Mode::Normal)
                    &&& final(self).state.drag_active == old(self).state.drag_active
                    &&& final(self).physics == at_rest(now_us)
                    &&& cmds@.len() == 1 && cmds@[0] is GrabDevices
                    &&& final(self).hints@ == old(self).hints@
                    &&& final(self).pointer == old(self).pointer
                } else if activates(config.hint_activation_key, *event, *mods) {
                    &&& cleared(final(self).state, Mode::Hint)
                    &&& final(self).state.drag_active == old(self).state.drag_active
                    &&& is_hint_grid(
                        final(self).hints@,
                        config.hint_chars@,
                        old(self).screen_width as int,
                        old(self).screen_height as int,
                    )
                    &&& cmds@.len() == 1 && cmds@[0] is GrabDevices
                    &&& final(self).physics == at_rest(now_us)
                    &&& final(self).pointer == old(self).pointer
                } else {
                    &&& final(self).state == old(self).state
                    &&& cmds@.len() == 0
                    &&& final(self).physics == old(self).physics
                    &&& final(self).hints@ == old(self).hints@
                    &&& final(self).pointer == old(self).pointer
                }
            },
            old(self).state.mode != Mode::Inactive ==> {
                let k = key_step(old(self).state, event.key@, event.pressed, *config);
                let buf = k.3;
                match k.4 {
                    Action::Exit => {
                        &&& exited(*old(self), *final(self), cmds@, now_us)
                        &&& final(self).hints@.len() == 0
                    },
                    Action::CopyAndExit => {
                        &&& exited(*old(self), *final(self), cmds@, now_us)
                        &&& final(self).hints@ == old(self).hints@
                    },
                    Action::EnterHint => {
                        &&& cleared(final(self).state, Mode::Hint)
                        &&& final(self).state.drag_active == old(self).state.drag_active
                        &&& is_hint_grid(
                            final(self).hints@,
                            config.hint_chars@,
                            old(self).screen_width as int,
                            old(self).screen_height as int,
                        )
                        &&& cmds@.len() == 0
                        &&& final(self).physics == at_rest(now_us)
                        &&& final(self).pointer == old(self).pointer
                    },
                    Action::HintChar(_) => {
                        if exists|i: int|
                            0 <= i < old(self).hints@.len() && (#[trigger] old(self).hints@[i]).label@
                                == buf {
                            &&& exited(*old(self), *final(self), cmds@, now_us)
                            &&& final(self).hints@.len() == 0
                        } else {
                            &&& final(self).state.mode == Mode::Hint
                            &&& final(self).state.movement == k.0
                            &&& final(self).state.scroll == k.1
                            &&& final(self).state.drag_active == k.2
                            &&& final(self).state.hint_buffer@ == (if with_prefix(
                                old(self).hints@,
                                buf,
                            ).len() == 0 {
                                Seq::<char>::empty()
                            } else {
                                buf
                            })
                            &&& final(self).hints@ == old(self).hints@
                            &&& final(self).physics == old(self).physics
                            &&& final(self).pointer == old(self).pointer
                            &&& cmds@.len() == 0
                        }
                    },
                    Action::ToggleDrag => {
                        &&& takes_step(final(self).state, old(self).state.mode, k)
                        &&& final(self).physics == old(self).physics
                        &&& final(self).hints@ == old(self).hints@
                        &&& final(self).pointer.drag_button_held == !old(self).pointer.drag_button_held
                        &&& cmds@.len() == 1
                        &&& is_emit(cmds@[0], button_batch(BTN_LEFT, final(self).pointer.drag_button_held))
                    },
                    Action::Click(b) => {
                        &&& takes_step(final(self).state, old(self).state.mode, k)
                        &&& final(self).physics == old(self).physics
                        &&& final(self).hints@ == old(self).hints@
                        &&& final(self).pointer == old(self).pointer
                        &&& (button_code_of(b) matches Some(code) ==> cmds@.len() == 1
                            && is_click(cmds@[0], code))
                        &&& (button_code_of(b) is None ==> cmds@.len() == 0)
                    },
                    Action::EnterNormal => {
                        &&& cleared(final(self).state, Mode::Normal)
                        &&& final(self).state.drag_active == old(self).state.drag_active
                        &&& final(self).hints@.len() == 0
                        &&& final(self).physics == at_rest(now_us)
                        &&& final(self).pointer == old(self).pointer
                        &&& cmds@.len() == 0
                    },
                    _ => {
                        &&& takes_step(final(self).state, old(self).state.mode, k)
                        &&& final(self).physics == old(self).physics
                        &&& final(self).pointer == old(self).pointer
                        &&& final(self).hints@ == old(self).hints@
                        &&& cmds@.len() == 0
                    },
                }
            },
    {
        let mut cmds: Vec<Command> = Vec::new();
        if self.state.mode == Mode::Inactive {
            return self.handle_inactive(event, mods, config, now_us);
        }
        let action = self.state.process_key(event.key.as_str(), event.pressed, config);
        match action {
            Action::Exit => {
                self.state.exit();
                cmds.push(Command::ReleaseDevices);
                self.physics.reset(now_us);
                let released = self.pointer.release_drag();
                if released.len() > 0 {
                    cmds.push(Command::Emit(released));
                }
                self.hints = Vec::new();
            },
            Action::EnterHint => {
                self.state.enter_hint();
                self.physics.reset(now_us);
                self.hints = calculate_hints(
                    self.screen_width,
                    self.screen_height,
                    config.hint_chars.as_str(),
                    config.hint_size,
                );
            },
            Action::EnterNormal => {
                self.state.enter_normal();
                self.physics.reset(now_us);
                self.hints = Vec::new();
            },
            Action::Click(button) => {
                if let Some((press, release)) = click_events(button) {
                    cmds.push(Command::Click { press, release });
                }
            },
            Action::ToggleDrag => {
                let events = self.pointer.toggle_drag();
                cmds.push(Command::Emit(events));
            },
            Action::CopyAndExit => {
                self.state.exit();
                cmds.push(Command::ReleaseDevices);
                self.physics.reset(now_us);
                let released = self.pointer.release_drag();
                if released.len() > 0 {
                    cmds.push(Command::Emit(released));
                }
            },
            Action::HintChar(_) => {
                let exact = find_hint_exact(self.hints.as_slice(), self.state.hint_buffer.as_str()).is_some();
                if exact {
                    self.state.exit();
                    cmds.push(Command::ReleaseDevices);
                    self.physics.reset(now_us);
                    let released = self.pointer.release_drag();
                    if released.len() > 0 {
                        cmds.push(Command::Emit(released));
                    }
                    self.hints = Vec::new();
                } else {
                    let matching = find_hint_by_prefix(self.hints.as_slice(), self.state.hint_buffer.as_str()).len();
                    if matching == 0 {
                        self.state.hint_buffer = String::new();
                    }
                }
            },
            _ => {},
        }
        cmds
    }

    /// Inactive mode: only a press of one of the two activation chords, with
    /// exactly its modifiers held, does anything.
    fn handle_inactive(
        &mut self,
        event: &KeyEvent,
        mods: &ModifierState,
        config: &Config,
        now_us: u64,
    ) -> (cmds: Vec<Command>)
        requires
            old(self).wf(),
            old(self).state.mode == Mode::Inactive,
            config_ok(*config),
        ensures
            final(self).wf(),
            final(self).screen_width == old(self).screen_width,
            final(self).screen_height == old(self).screen_height,
            ({
                if activates(config.activation_key, *event, *mods) {
                    &&& cleared(final(self).state, Mode::Normal)
                    &&& final(self).state.drag_active == old(self).state.drag_active
                    &&& final(self).physics == at_rest(now_us)
                    &&& cmds@.len() == 1 && cmds@[0] is GrabDevices
                    &&& final(self).hints@ == old(self).hints@
                    &&& final(self).pointer == old(self).pointer
                } else if activates(config.hint_activation_key, *event, *mods) {
                    &&& cleared(final(self).state, Mode::Hint)
                    &&& final(self).state.drag_active == old(self).state.drag_active
                    &&& is_hint_grid(
                        final(self).hints@,
                        config.hint_chars@,
                        old(self).screen_width as int,
                        old(self).screen_height as int,
                    )
                    &&& cmds@.len() == 1 && cmds@[0] is GrabDevices
                    &&& final(self).physics == at_rest(now_us)
                    &&& final(self).pointer == old(self).pointer
                } else {
                    &&& final(self).state == old(self).state
                    &&& cmds@.len() == 0
                    &&& final(self).physics == old(self).physics
                    &&& final(self).hints@ == old(self).hints@
                    &&& final(self).pointer == old(self).pointer
                }
            }),
    {
        let mut cmds: Vec<Command> = Vec::new();
        if event.pressed {
            if mods.matches(&config.activation_key, event.key.as_str()) {
                self.state.enter_normal();
                cmds.push(Command::GrabDevices);
                self.physics.reset(now_us);
            } else if mods.matches(&config.hint_activation_key, event.key.as_str()) {
                self.state.enter_hint();
                cmds.push(Command::GrabDevices);
                self.physics.reset(now_us);
                self.hints = calculate_hints(
                    self.screen_width,
                    self.screen_height,
                    config.hint_chars.as_str(),
                    config.hint_size,
                );
            }
        }
        cmds
    }

    /// One frame: in Normal mode the integrator runs (also with nothing held,
    /// so motion decays) and any nonzero move or scroll is emitted; in the
    /// other modes nothing happens.
    pub fn tick(&mut self, config: &Config, now_us: u64) -> (cmds: Vec<Command>)
        requires
            old(self).wf(),
        ensures
            final(self).wf(),
            final(self).state == old(self).state,
            final(self).pointer == old(self).pointer,
            final(self).hints@ == old(self).hints@,
            final(self).screen_width == old(self).screen_width,
            final(self).screen_height == old(self).screen_height,
            old(self).state.mode != Mode::Normal ==> cmds@.len() == 0 && final(self).physics == old(
                self,
            ).physics,
            old(self).state.mode == Mode::Normal ==> {
                let t = tick_result(old(self).physics, old(self).state, *config, now_us);
                let (dx, dy, scroll) = t.1;
                let moved = dx != 0 || dy != 0;
                &&& final(self).physics == t.0
                &&& cmds@.len() == (if moved { 1int } else { 0int }) + (if scroll != 0 { 1int } else { 0int })
                &&& moved ==> is_emit(cmds@[0], move_batch(dx, dy))
                &&& scroll != 0 ==> is_emit(cmds@[cmds@.len() - 1], wheel_batch(scroll))
            },
    {
        let mut cmds: Vec<Command> = Vec::new();
        if self.state.mode == Mode::Normal {
            let (dx, dy, scroll) = self.physics.update(&self.state, config, now_us);
            if dx != 0 || dy != 0 {
                cmds.push(Command::Emit(move_events(dx, dy)));
            }
            if scroll != 0 {
                cmds.push(Command::Emit(scroll_events(scroll)));
            }
        }
        cmds
    }
}

} // verus!
