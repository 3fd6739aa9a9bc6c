//! The movement integrator: held directions and elapsed time become velocity
//! and whole-pixel deltas. Integer fixed point throughout: velocities are in
//! millionths of a pixel (or scroll unit) per second, times in microseconds.
use vstd::prelude::*;

use crate::config::Config;
use crate::state::{AppState, MovementState};

verus! {

/// Velocity units per pixel per second.
pub const VELOCITY_SCALE: i64 = 1_000_000;

/// A tick longer than this (in microseconds) counts as a stall.
pub const MAX_TICK_US: u64 = 100_000;

/// Turns velocity units times microseconds into pixels.
pub const PIXEL_DIVISOR: i128 = 1_000_000_000_000;

/// Scroll output is one wheel step per hundred units of travel.
pub const SCROLL_DIVISOR: i128 = 100_000_000_000_000;

/// The largest speed any configuration can ask for, in velocity units.
pub open spec fn velocity_bound() -> int {
    4_294_967_295int * 1_000_000int
}

/// A bounded linear step from `cur` toward `target` that never overshoots.
pub open spec fn toward(cur: int, target: int, step: int) -> int {
    if cur < target {
        if cur + step < target {
            cur + step
        } else {
            target
        }
    } else if cur > target {
        if cur - step > target {
            cur - step
        } else {
            target
        }
    } else {
        cur
    }
}

/// `v` limited to `[-bound, bound]`.
pub open spec fn clamp_sym(v: int, bound: int) -> int {
    if v < -bound {
        -bound
    } else if v > bound {
        bound
    } else {
        v
    }
}

/// `n / d` rounded to the nearest integer, halves away from zero.
pub open spec fn round_div(n: int, d: int) -> int {
    if n >= 0 {
        (2 * n + d) / (2 * d)
    } else {
        -((-2 * n + d) / (2 * d))
    }
}

/// Elapsed time that is zero, negative or above the stall limit.
pub open spec fn is_stall(last: u64, now: u64) -> bool {
    now <= last || now - last > MAX_TICK_US
}

/// While decelerating (and not accelerating) a held direction takes its
/// target at once, with no ramp.
pub open spec fn instant_target(m: MovementState) -> bool {
    m.decelerating && !m.accelerating
}

/// Acceleration of the ramp toward the target: the accelerator's while
/// accelerating, else the base acceleration.
pub open spec fn accel_of(m: MovementState, c: Config) -> int {
    if m.accelerating {
        c.accelerator_acceleration as int
    } else {
        c.acceleration as int
    }
}

/// Target speed: the decelerator's, else the maximum while accelerating, else the base speed.
pub open spec fn target_speed_of(m: MovementState, c: Config) -> int {
    if m.decelerating {
        c.decelerator_speed as int
    } else if m.accelerating {
        c.max_speed as int
    } else {
        c.speed as int
    }
}

/// One axis after a tick of `dt` microseconds with direction component `d`.
/// With some direction held the axis moves toward its target (or takes it at
/// once while decelerating); with none it slows to 0 at twice the base
/// acceleration. Then it is clamped to the maximum speed.
pub open spec fn next_velocity(v: int, d: int, moving: bool, m: MovementState, c: Config, dt: int) -> int {
    let max = c.max_speed * VELOCITY_SCALE;
    let target = d * target_speed_of(m, c) * VELOCITY_SCALE;
    if moving && instant_target(m) {
        clamp_sym(target, max)
    } else if moving {
        clamp_sym(toward(v, target, accel_of(m, c) * dt), max)
    } else {
        clamp_sym(toward(v, 0, c.acceleration * dt * 2), max)
    }
}

/// Scroll velocity after a tick: toward the scroll direction times the
/// maximum scroll speed while a scroll key is held, else toward 0.
pub open spec fn next_scroll_velocity(v: int, d: int, c: Config, dt: int) -> int {
    if d != 0 {
        toward(v, d * c.scroll_max_speed * VELOCITY_SCALE, c.scroll_acceleration * dt)
    } else {
        toward(v, 0, (if c.scroll_deceleration < 0 { -c.scroll_deceleration } else { c.scroll_deceleration as int }) * dt)
    }
}

/// One tick at `now`: the state after it and the pixel and scroll deltas to
/// emit. A stall emits nothing and keeps the velocities; the clock is
/// resynchronised either way.
pub open spec fn tick_result(p: PhysicsState, state: AppState, c: Config, now: u64) -> (
    PhysicsState,
    (i32, i32, i32),
) {
    if is_stall(p.last_update, now) {
        (PhysicsState { last_update: now, ..p }, (0i32, 0i32, 0i32))
    } else {
        let dt = now - p.last_update;
        let d = state.movement.dir();
        let moving = d.0 != 0 || d.1 != 0;
        let vx = next_velocity(p.velocity_x as int, d.0 as int, moving, state.movement, c, dt);
        let vy = next_velocity(p.velocity_y as int, d.1 as int, moving, state.movement, c, dt);
        let sv = next_scroll_velocity(p.scroll_velocity as int, state.scroll.dir() as int, c, dt);
        (
            PhysicsState {
                velocity_x: vx as i64,
                velocity_y: vy as i64,
                scroll_velocity: sv as i64,
                last_update: now,
            },
            (
                round_div(vx * dt, PIXEL_DIVISOR as int) as i32,
                round_div(vy * dt, PIXEL_DIVISOR as int) as i32,
                round_div(sv * dt, SCROLL_DIVISOR as int) as i32,
            ),
        )
    }
}

/// Moves `current` toward `target` by at most `delta`.
pub fn move_towards(current: i64, target: i64, delta: i64) -> (r: i64)
    requires
        delta >= 0,
        i64::MIN <= current - delta,
        current + delta <= i64::MAX,
    ensures
        r == toward(current as int, target as int, delta as int),
{
    if current < target {
        let next = current + delta;
        if next < target {
            next
        } else {
            target
        }
    } else if current > target {
        let next = current - delta;
        if next > target {
            next
        } else {
            target
        }
    } else {
        current
    }
}

fn clamp_velocity(v: i64, bound: i64) -> (r: i64)
    requires
        bound >= 0,
    ensures
        r == clamp_sym(v as int, bound as int),
{
    if v < -bound {
        -bound
    } else if v > bound {
        bound
    } else {
        v
    }
}

fn rounded_quotient(n: i128, d: i128) -> (r: i128)
    requires
        d > 0,
        -0x1_0000_0000_0000_0000_0000_0000 <= n <= 0x1_0000_0000_0000_0000_0000_0000,
        d <= 0x1_0000_0000_0000_0000_0000_0000,
    ensures
        r == round_div(n as int, d as int),
{
    let den = 2 * d;
    if n >= 0 {
        let num = 2 * n + d;
        num / den
    } else {
        let num = d - 2 * n;
        let q = num / den;
        proof {
            assert(0 <= q <= num) by (nonlinear_arith)
                requires
                    num >= 0,
                    den >= 1,
                    q == num / den,
            ;
        }
        -q
    }
}

/// Rounding a quotient whose dividend is at most `k` times the divisor gives at most `k + 1`.
proof fn lemma_round_div_bound(n: int, d: int, k: int)
    requires
        d > 0,
        k >= 0,
        -(k * d) <= n <= k * d,
    ensures
        -k - 1 <= round_div(n, d) <= k + 1,
{
    if n >= 0 {
        assert(0 <= (2 * n + d) / (2 * d) <= k + 1) by (nonlinear_arith)
            requires
                d > 0,
                k >= 0,
                0 <= n <= k * d,
        ;
    } else {
        assert(0 <= (-2 * n + d) / (2 * d) <= k + 1) by (nonlinear_arith)
            requires
                d > 0,
                k >= 0,
                0 <= -n <= k * d,
        ;
    }
}

/// Velocities and the time of the last tick, owned by the orchestrating loop.
#[derive(Clone, Copy, Debug, PartialEq, Eq, Structural)]
pub struct PhysicsState {
    pub velocity_x: i64,
    pub velocity_y: i64,
    pub scroll_velocity: i64,
    /// Microseconds on a monotonic clock.
    pub last_update: u64,
}

impl PhysicsState {
    /// Every velocity is within what a configuration can ask for.
    pub open spec fn wf(&self) -> bool {
        &&& -velocity_bound() <= self.velocity_x <= velocity_bound()
        &&& -velocity_bound() <= self.velocity_y <= velocity_bound()
        &&& -velocity_bound() <= self.scroll_velocity <= velocity_bound()
    }

    /// At rest, with the clock read at `now_us`.
    pub fn new(now_us: u64) -> (r: Self)
        ensures
            r.velocity_x == 0,
            r.velocity_y == 0,
            r.scroll_velocity == 0,
            r.last_update == now_us,
            r.wf(),
    {
        PhysicsState { velocity_x: 0, velocity_y: 0, scroll_velocity: 0, last_update: now_us }
    }

    /// Stops all motion and resynchronises the clock.
    pub fn reset(&mut self, now_us: u64)
        ensures
            final(self).velocity_x == 0,
            final(self).velocity_y == 0,
            final(self).scroll_velocity == 0,
            final(self).last_update == now_us,
            final(self).wf(),
    {
        self.velocity_x = 0;
        self.velocity_y = 0;
        self.scroll_velocity = 0;
        self.last_update = now_us;
    }

    /// One tick at time `now_us`: returns the pixel deltas and the scroll
    /// steps to emit, as `tick_result` gives them.
    pub fn update(&mut self, state: &AppState, config: &Config, now_us: u64) -> (r: (i32, i32, i32))
        requires
            old(self).wf(),
        ensures
            final(self).wf(),
            (*final(self), r) == tick_result(*old(self), *state, *config, now_us),
            is_stall(old(self).last_update, now_us) ==> r == (0i32, 0i32, 0i32),
            -500_000_000 <= r.0 <= 500_000_000,
            -500_000_000 <= r.1 <= 500_000_000,
            -500_000_000 <= r.2 <= 500_000_000,
    {
        let last = self.last_update;
        self.last_update = now_us;
        if now_us <= last || now_us - last > MAX_TICK_US {
            return (0, 0, 0);
        }
        let dt: i64 = (now_us - last) as i64;
        let (dir_x, dir_y) = state.movement.direction();
        let scroll_dir = state.scroll.direction();
        let m = state.movement;
        let accel: i64 = if m.accelerating {
            config.accelerator_acceleration as i64
        } else {
            config.acceleration as i64
        };
        let target_speed: i64 = if m.decelerating {
            config.decelerator_speed as i64
        } else if m.accelerating {
            config.max_speed as i64
        } else {
            config.speed as i64
        };
        let max: i64 = config.max_speed as i64 * VELOCITY_SCALE;
        proof {
            assert(0 <= accel * dt <= 4_294_967_295 * 100_000) by (nonlinear_arith)
                requires
                    0 <= accel <= 4_294_967_295,
                    0 <= dt <= 100_000,
            ;
            assert(0 <= config.acceleration * dt <= 4_294_967_295 * 100_000) by (nonlinear_arith)
                requires
                    0 <= config.acceleration <= 4_294_967_295,
                    0 <= dt <= 100_000,
            ;
        }
        if dir_x != 0 || dir_y != 0 {
            let step = accel * dt;
            proof {
                assert(-target_speed * VELOCITY_SCALE <= dir_x * target_speed * VELOCITY_SCALE
                    <= target_speed * VELOCITY_SCALE) by (nonlinear_arith)
                    requires
                        -1 <= dir_x <= 1,
                        0 <= target_speed <= 4_294_967_295,
                ;
                assert(-target_speed * VELOCITY_SCALE <= dir_y * target_speed * VELOCITY_SCALE
                    <= target_speed * VELOCITY_SCALE) by (nonlinear_arith)
                    requires
                        -1 <= dir_y <= 1,
                        0 <= target_speed <= 4_294_967_295,
                ;
            }
            let target_x = dir_x as i64 * target_speed * VELOCITY_SCALE;
            let target_y = dir_y as i64 * target_speed * VELOCITY_SCALE;
            if m.decelerating && !m.accelerating {
                self.velocity_x = target_x;
                self.velocity_y = target_y;
            } else {
                self.velocity_x = move_towards(self.velocity_x, target_x, step);
                self.velocity_y = move_towards(self.velocity_y, target_y, step);
            }
        } else {
            let step = config.acceleration as i64 * dt * 2;
            self.velocity_x = move_towards(self.velocity_x, 0, step);
            self.velocity_y = move_towards(self.velocity_y, 0, step);
        }
        self.velocity_x = clamp_velocity(self.velocity_x, max);
        self.velocity_y = clamp_velocity(self.velocity_y, max);
        let scroll_step_bound: i64 = 2_147_483_648;
        if scroll_dir != 0 {
            proof {
                assert(-config.scroll_max_speed * VELOCITY_SCALE <= scroll_dir * config.scroll_max_speed
                    * VELOCITY_SCALE <= config.scroll_max_speed * VELOCITY_SCALE) by (nonlinear_arith)
                    requires
                        -1 <= scroll_dir <= 1,
                        0 <= config.scroll_max_speed <= 4_294_967_295,
                ;
                assert(0 <= config.scroll_acceleration * dt <= 4_294_967_295 * 100_000) by (nonlinear_arith)
                    requires
                        0 <= config.scroll_acceleration <= 4_294_967_295,
                        0 <= dt <= 100_000,
                ;
            }
            let target = scroll_dir as i64 * config.scroll_max_speed as i64 * VELOCITY_SCALE;
            let step = config.scroll_acceleration as i64 * dt;
            self.scroll_velocity = move_towards(self.scroll_velocity, target, step);
        } else {
            let decel: i64 = if config.scroll_deceleration < 0 {
                -(config.scroll_deceleration as i64)
            } else {
                config.scroll_deceleration as i64
            };
            proof {
                assert(0 <= decel * dt <= scroll_step_bound * 100_000) by (nonlinear_arith)
                    requires
                        0 <= decel <= scroll_step_bound,
                        0 <= dt <= 100_000,
                ;
            }
            self.scroll_velocity = move_towards(self.scroll_velocity, 0, decel * dt);
        }
        let vx = self.velocity_x;
        let vy = self.velocity_y;
        let sv = self.scroll_velocity;
        let bound: i128 = 4_294_967_295 * 1_000_000;
        proof {
            assert(-bound * 100_000 <= vx * dt <= bound * 100_000) by (nonlinear_arith)
                requires
                    -bound <= vx <= bound,
                    0 <= dt <= 100_000,
            ;
            assert(-bound * 100_000 <= vy * dt <= bound * 100_000) by (nonlinear_arith)
                requires
                    -bound <= vy <= bound,
                    0 <= dt <= 100_000,
            ;
            assert(-bound * 100_000 <= sv * dt <= bound * 100_000) by (nonlinear_arith)
                requires
                    -bound <= sv <= bound,
                    0 <= dt <= 100_000,
            ;
        }
        proof {
            lemma_round_div_bound(vx * dt, PIXEL_DIVISOR as int, 430_000_000);
            lemma_round_div_bound(vy * dt, PIXEL_DIVISOR as int, 430_000_000);
            lemma_round_div_bound(sv * dt, SCROLL_DIVISOR as int, 4_300_000);
        }
        let dx = rounded_quotient(vx as i128 * dt as i128, PIXEL_DIVISOR);
        let dy = rounded_quotient(vy as i128 * dt as i128, PIXEL_DIVISOR);
        let scroll = rounded_quotient(sv as i128 * dt as i128, SCROLL_DIVISOR);
        (dx as i32, dy as i32, scroll as i32)
    }
}

/// The distance between `a` and `b`.
pub open spec fn dist(a: int, b: int) -> int {
    if a >= b {
        a - b
    } else {
        b - a
    }
}

/// With a direction held, an axis reaches its target (the direction times the
/// target speed): at once while decelerating, else closing by the
/// acceleration step each tick without overshooting. It never leaves the
/// maximum speed, and once at the target it stays.
pub proof fn lemma_velocity_converges(v: int, d: int, m: MovementState, c: Config, dt: int)
    requires
        dt >= 0,
        -1 <= d <= 1,
        target_speed_of(m, c) <= c.max_speed,
        -(c.max_speed * VELOCITY_SCALE) <= v <= c.max_speed * VELOCITY_SCALE,
    ensures
        ({
            let t = d * target_speed_of(m, c) * VELOCITY_SCALE;
            let n = next_velocity(v, d, true, m, c, dt);
            &&& (instant_target(m) ==> n == t)
            &&& (!instant_target(m) ==> dist(n, t) == if dist(v, t) > accel_of(m, c) * dt {
                dist(v, t) - accel_of(m, c) * dt
            } else {
                0
            })
            &&& -(c.max_speed * VELOCITY_SCALE) <= n <= c.max_speed * VELOCITY_SCALE
            &&& (v == t ==> n == t)
        }),
{
    let ts = target_speed_of(m, c);
    assert(0 <= accel_of(m, c) * dt) by (nonlinear_arith)
        requires
            accel_of(m, c) >= 0,
            dt >= 0,
    ;
    assert(-(ts * VELOCITY_SCALE) <= d * ts * VELOCITY_SCALE <= ts * VELOCITY_SCALE) by (nonlinear_arith)
        requires
            -1 <= d <= 1,
            ts >= 0,
    ;
}

/// With no direction held, each axis slows toward 0 by twice the base
/// acceleration per unit of time, without crossing it.
pub proof fn lemma_velocity_decays(v: int, m: MovementState, c: Config, dt: int)
    requires
        dt >= 0,
        -(c.max_speed * VELOCITY_SCALE) <= v <= c.max_speed * VELOCITY_SCALE,
    ensures
        ({
            let n = next_velocity(v, 0, false, m, c, dt);
            let step = 2 * c.acceleration * dt;
            &&& dist(n, 0) == if dist(v, 0) > step {
                dist(v, 0) - step
            } else {
                0
            }
            &&& (v >= 0 ==> n >= 0)
            &&& (v <= 0 ==> n <= 0)
        }),
{
    assert(0 <= c.acceleration * dt * 2 == 2 * c.acceleration * dt) by (nonlinear_arith)
        requires
            c.acceleration >= 0,
            dt >= 0,
    ;
}

/// A stalled tick emits nothing and leaves every velocity as it was.
pub proof fn lemma_stall_keeps_velocity(p: PhysicsState, state: AppState, c: Config, now: u64)
    requires
        is_stall(p.last_update, now),
    ensures
        tick_result(p, state, c, now).1 == (0i32, 0i32, 0i32),
        tick_result(p, state, c, now).0.velocity_x == p.velocity_x,
        tick_result(p, state, c, now).0.velocity_y == p.velocity_y,
        tick_result(p, state, c, now).0.scroll_velocity == p.scroll_velocity,
{
}

} // verus!
