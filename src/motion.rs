//! The per-mode velocity rules of the controller. Each takes the current values
//! and returns the new ones; the mover strings them together with the collision
//! queries.
use vstd::prelude::*;
use crate::fixed::{clamp, fmul, fx_mul, isqrt, lemma_fmul_bound, max, min, sqrt_floor, ONE, POS_MAX, SETTING_MAX, SPEED_MAX};
use crate::input::PlayerInput;
use crate::state::{AirState, JumpState, PlayerControllerMessage, PlayerState, SlamState};
use crate::settings::PlayerControllerSettings;
use crate::vector::{clamp_i64, within, Vec2, Vec3};

verus! {

/// Below this horizontal speed air friction stops the character outright (0.01).
pub const FRICTION_STOP: i64 = 655;

/// Air friction removes at least this speed's share per second (0.1).
pub const FRICTION_FLOOR: i64 = 6554;

/// How far above `run_speed` the ground speed may be before it decays (0.5).
pub const RUN_MARGIN: i64 = 32768;

/// A time step the controller accepts: not negative and within `SETTING_MAX`.
pub open spec fn valid_dt(dt: int) -> bool {
    0 <= dt <= SETTING_MAX
}

/// The launch speed that rises `height` against `gravity`: `sqrt(2 g h)`.
pub open spec fn impulse_spec(gravity: int, height: int) -> int {
    sqrt_floor(2 * gravity * height)
}

pub proof fn lemma_impulse_bound(gravity: int, height: int)
    requires
        0 <= gravity <= SETTING_MAX,
        0 <= height <= 4 * SETTING_MAX,
    ensures
        0 <= impulse_spec(gravity, height) <= SETTING_MAX * 8,
{
    let n = 2 * gravity * height;
    assert(0 <= n <= 0x8_0000_0000_0000) by (nonlinear_arith)
        requires
            0 <= gravity <= SETTING_MAX,
            0 <= height <= 4 * SETTING_MAX,
            n == 2 * gravity * height,
    ;
    crate::fixed::lemma_sqrt_floor_exists(n);
    let r = sqrt_floor(n);
    if r > SETTING_MAX * 8 {
        assert(r * r > 0x8_0000_0000_0000) by (nonlinear_arith)
            requires
                r > 0x800_0000,
        ;
    }
}

pub fn impulse(gravity: i64, height: i64) -> (r: i64)
    requires
        0 <= gravity <= SETTING_MAX,
        0 <= height <= 4 * SETTING_MAX,
    ensures
        r == impulse_spec(gravity as int, height as int),
        0 <= r <= SETTING_MAX * 8,
{
    let g2 = 2 * (gravity as u128);
    proof {
        assert(g2 * height <= 0x8_0000_0000_0000) by (nonlinear_arith)
            requires
                0 <= g2 <= 0x200_0000,
                0 <= height <= 0x400_0000,
        ;
    }
    let n = g2 * (height as u128);
    assert(n == 2 * gravity * height);
    let r = isqrt(n);
    proof {
        if r > SETTING_MAX * 8 {
            assert(r * r > 0x8_0000_0000_0000) by (nonlinear_arith)
                requires
                    r > 0x800_0000,
            ;
        }
    }
    r as i64
}

/// Half a tick of gravity (none on the ground), then the fall held to terminal velocity.
pub open spec fn half_gravity_spec(vy: int, grounded: bool, s: PlayerControllerSettings, dt: int) -> int {
    let v = if grounded {
        vy
    } else {
        vy - fmul(s.gravity as int, dt) / 2
    };
    if v < -s.terminal_velocity {
        -s.terminal_velocity
    } else {
        v
    }
}

pub fn half_gravity(vy: i64, grounded: bool, s: &PlayerControllerSettings, dt: i64) -> (r: i64)
    requires
        s.wf(),
        valid_dt(dt as int),
        within(vy as int, SPEED_MAX as int),
    ensures
        r == half_gravity_spec(vy as int, grounded, *s, dt as int),
        r >= -s.terminal_velocity,
        within(r as int, SPEED_MAX as int),
{
    let mut v = vy;
    if !grounded {
        let g = fx_mul(s.gravity, dt);
        proof {
            lemma_fmul_bound(s.gravity as int, dt as int, SETTING_MAX as int, SETTING_MAX as int);
        }
        v = vy - g / 2;
    }
    if v < -s.terminal_velocity {
        v = -s.terminal_velocity;
    }
    v
}

/// The vertical velocity after `k` half steps of gravity in the air.
pub open spec fn fall_after(vy: int, s: PlayerControllerSettings, dt: int, k: nat) -> int
    decreases k,
{
    if k == 0 {
        vy
    } else {
        half_gravity_spec(fall_after(vy, s, dt, (k - 1) as nat), false, s, dt)
    }
}

/// Falling, the vertical velocity drops by half a step of gravity each half step
/// until it reaches `-terminal_velocity` exactly, and then stays there: after `k`
/// half steps it is `max(vy - k * step, -terminal_velocity)`.
pub proof fn lemma_terminal_velocity(vy: int, s: PlayerControllerSettings, dt: int, k: nat)
    requires
        s.wf(),
        valid_dt(dt),
        vy >= -s.terminal_velocity,
    ensures
        fall_after(vy, s, dt, k) == max(vy - k * (fmul(s.gravity as int, dt) / 2), -s.terminal_velocity),
        k * (fmul(s.gravity as int, dt) / 2) >= vy + s.terminal_velocity ==> fall_after(vy, s, dt, k)
            == -s.terminal_velocity,
    decreases k,
{
    let d = fmul(s.gravity as int, dt) / 2;
    lemma_fmul_bound(s.gravity as int, dt, SETTING_MAX as int, SETTING_MAX as int);
    assert(fmul(s.gravity as int, dt) >= 0) by (nonlinear_arith)
        requires
            s.gravity >= 0,
            dt >= 0,
            fmul(s.gravity as int, dt) == crate::fixed::div_trunc(s.gravity * dt, ONE as int),
    ;
    if k == 0 {
        assert(k * d == 0) by (nonlinear_arith)
            requires
                k == 0,
        ;
    } else {
        lemma_terminal_velocity(vy, s, dt, (k - 1) as nat);
        assert(k * d == (k - 1) * d + d) by (nonlinear_arith);
        let prev = fall_after(vy, s, dt, (k - 1) as nat);
        assert(prev == max(vy - (k - 1) * d, -s.terminal_velocity));
        assert(fall_after(vy, s, dt, k) == half_gravity_spec(prev, false, s, dt));
        assert(d >= 0);
    }
    if k * d >= vy + s.terminal_velocity {
        assert(vy - k * d <= -s.terminal_velocity);
    }
}

/// Air drag on the horizontal velocity: proportional to speed, at least the
/// share of `FRICTION_FLOOR`, and a stop below `FRICTION_STOP`.
pub open spec fn air_friction_spec(v: Vec3, s: PlayerControllerSettings, dt: int) -> Vec3 {
    let h = v.horizontal_spec();
    let speed = h.length_spec();
    if speed < FRICTION_STOP {
        Vec3 { x: 0, y: v.y, z: 0 }
    } else {
        let remove = fmul(fmul(max(speed, FRICTION_FLOOR as int), dt), s.air_friction as int);
        let new_speed = clamp(speed - remove, 0, SPEED_MAX as int);
        let n = h.normalized().scaled_spec(new_speed);
        Vec3 { x: n.x, y: v.y, z: n.z }
    }
}

pub fn air_friction(v: Vec3, s: &PlayerControllerSettings, dt: i64) -> (r: Vec3)
    requires
        s.wf(),
        valid_dt(dt as int),
        v.bounded(SPEED_MAX as int),
    ensures
        r == air_friction_spec(v, *s, dt as int),
        r.bounded(SPEED_MAX as int),
{
    let h = v.horizontal();
    let speed = h.length();
    if speed < FRICTION_STOP {
        return Vec3 { x: 0, y: v.y, z: 0 };
    }
    let base = if speed > FRICTION_FLOOR {
        speed
    } else {
        FRICTION_FLOOR
    };
    let scaled_time = fx_mul(base, dt);
    proof {
        lemma_fmul_bound(base as int, dt as int, 2 * SPEED_MAX, SETTING_MAX as int);
    }
    let remove = fx_mul(scaled_time, s.air_friction);
    proof {
        lemma_fmul_bound(scaled_time as int, s.air_friction as int, 2 * POS_MAX, SETTING_MAX as int);
    }
    let new_speed = clamp_i64(speed - remove, 0, SPEED_MAX);
    if let Some(d) = h.normalize() {
        let n = d.scaled(new_speed);
        Vec3 { x: n.x, y: v.y, z: n.z }
    } else {
        Vec3 { x: 0, y: v.y, z: 0 }
    }
}

/// Steering in the air: accelerate along the input direction at `air_accel`,
/// but not past `air_speed` along it.
pub open spec fn air_move_spec(v: Vec3, input: PlayerInput, s: PlayerControllerSettings, dt: int) -> Vec3 {
    let f = input.movement.flat_spec();
    if f.is_zero() {
        v
    } else {
        let dir = f.normalized();
        let st = v.horizontal_spec().speed_towards_spec(dir);
        let to_add = min(max(s.air_speed - st, 0), fmul(s.air_accel as int, dt));
        v.add_sat_spec(dir.scaled_spec(to_add), SPEED_MAX as int)
    }
}

pub fn air_move(v: Vec3, input: &PlayerInput, s: &PlayerControllerSettings, dt: i64) -> (r: Vec3)
    requires
        s.wf(),
        input.wf(),
        valid_dt(dt as int),
        v.bounded(SPEED_MAX as int),
    ensures
        r == air_move_spec(v, *input, *s, dt as int),
        r.bounded(SPEED_MAX as int),
{
    match input.movement.flat().normalize() {
        None => v,
        Some(dir) => {
            let st = v.horizontal().speed_towards(dir);
            let limit = if s.air_speed - st > 0 {
                s.air_speed - st
            } else {
                0
            };
            let accel = fx_mul(s.air_accel, dt);
            proof {
                lemma_fmul_bound(s.air_accel as int, dt as int, SETTING_MAX as int, SETTING_MAX as int);
            }
            let to_add = if limit <= accel {
                limit
            } else {
                accel
            };
            v.add_sat(dir.scaled(to_add), SPEED_MAX)
        }
    }
}

/// A jump from the ground: the full jump height, plus the slam boost when the
/// grounded state holds one; the character is then airborne and rising.
pub open spec fn ground_jump_spec(state: PlayerState, s: PlayerControllerSettings) -> (int, AirState) {
    let boost = match state {
        PlayerState::Grounded(g) => if g.jump_boost {
            s.slam_jump_boost as int
        } else {
            0
        },
        _ => 0,
    };
    (
        impulse_spec(s.gravity as int, s.jump + boost),
        AirState { jump_state: JumpState::Normal, ..AirState::fresh() },
    )
}

pub fn ground_jump(state: &PlayerState, s: &PlayerControllerSettings) -> (r: (i64, AirState))
    requires
        s.wf(),
    ensures
        r.0 == ground_jump_spec(*state, *s).0,
        r.1 == ground_jump_spec(*state, *s).1,
        0 <= r.0 <= 8 * SETTING_MAX,
{
    let boost = match state {
        PlayerState::Grounded(g) => if g.jump_boost {
            s.slam_jump_boost
        } else {
            0
        },
        _ => 0,
    };
    let vy = impulse(s.gravity, s.jump + boost);
    (vy, AirState { air_jumps: 0, dashed: false, jump_state: JumpState::Normal, coyote_countdown: 0 })
}

/// The horizontal unit direction the character faces, as a world vector; +Z
/// when the facing is zero.
pub open spec fn facing_dir_spec(facing: Vec2) -> Vec3 {
    if facing.flat_spec().is_zero() {
        Vec3 { x: 0, y: 0, z: ONE }
    } else {
        facing.flat_spec().normalized()
    }
}

pub fn facing_dir(facing: Vec2) -> (r: Vec3)
    requires
        within(facing.x as int, ONE as int),
        within(facing.y as int, ONE as int),
    ensures
        r == facing_dir_spec(facing),
        r.bounded(ONE as int),
{
    match facing.flat().normalize() {
        Some(d) => d,
        None => Vec3 { x: 0, y: 0, z: ONE },
    }
}

/// `v` plus a push along the unit direction `dir` that brings the speed along it
/// up to `target`, never slowing it.
pub open spec fn boost_towards_spec(v: Vec3, dir: Vec3, target: int) -> Vec3 {
    let st = v.horizontal_spec().speed_towards_spec(dir);
    v.add_sat_spec(dir.scaled_spec(max(target - st, 0)), SPEED_MAX as int)
}

pub fn boost_towards(v: Vec3, dir: Vec3, target: i64) -> (r: Vec3)
    requires
        v.bounded(SPEED_MAX as int),
        dir.bounded(ONE as int),
        within(target as int, SETTING_MAX as int),
    ensures
        r == boost_towards_spec(v, dir, target as int),
        r.bounded(SPEED_MAX as int),
{
    let st = v.horizontal().speed_towards(dir);
    let boost = if target - st > 0 {
        target - st
    } else {
        0
    };
    v.add_sat(dir.scaled(boost), SPEED_MAX)
}

/// The air dash: once per airborne period, when enabled and pressed, push the
/// speed along the facing up to `dash_velocity` and hop to `dash_height`.
pub open spec fn dash_spec(
    v: Vec3,
    a: AirState,
    facing: Vec2,
    input: PlayerInput,
    s: PlayerControllerSettings,
) -> (Vec3, AirState) {
    if s.dash_enabled && !a.dashed && input.dash.start {
        let w = boost_towards_spec(v, facing_dir_spec(facing), s.dash_velocity as int);
        (
            Vec3 { y: impulse_spec(s.gravity as int, s.dash_height as int) as i64, ..w },
            AirState { dashed: true, ..a },
        )
    } else {
        (v, a)
    }
}

pub fn dash(v: Vec3, a: AirState, facing: Vec2, input: &PlayerInput, s: &PlayerControllerSettings) -> (r: (Vec3, AirState))
    requires
        s.wf(),
        v.bounded(SPEED_MAX as int),
        within(facing.x as int, ONE as int),
        within(facing.y as int, ONE as int),
    ensures
        r == dash_spec(v, a, facing, *input, *s),
        r.0.bounded(SPEED_MAX as int),
{
    if s.dash_enabled && !a.dashed && input.dash.start {
        let w = boost_towards(v, facing_dir(facing), s.dash_velocity);
        let vy = impulse(s.gravity, s.dash_height);
        (Vec3 { x: w.x, y: vy, z: w.z }, AirState { dashed: true, ..a })
    } else {
        (v, a)
    }
}

/// A jump press in the air. Past the coyote time, an air jump while any are
/// left: full jump height, one air jump used, and a push along the input
/// direction up to `air_jump_forward_boost`. Within the coyote time, a ground
/// jump. Otherwise nothing.
pub open spec fn air_jump_spec(v: Vec3, a: AirState, input: PlayerInput, s: PlayerControllerSettings) -> (
    Vec3,
    AirState,
    Option<PlayerControllerMessage>,
) {
    if !input.jump.start {
        (v, a, None)
    } else if a.air_jumps < s.air_jumps && a.coyote_countdown <= 0 {
        let v1 = Vec3 { y: impulse_spec(s.gravity as int, s.jump as int) as i64, ..v };
        let f = input.movement.flat_spec();
        let v2 = if f.is_zero() {
            v1
        } else {
            boost_towards_spec(v1, f.normalized(), s.air_jump_forward_boost as int)
        };
        (
            v2,
            AirState { air_jumps: (a.air_jumps + 1) as u8, jump_state: JumpState::Normal, ..a },
            Some(PlayerControllerMessage::AirJump),
        )
    } else if a.coyote_countdown > 0 {
        let (vy, a1) = ground_jump_spec(PlayerState::Air(a), s);
        (Vec3 { y: vy as i64, ..v }, a1, Some(PlayerControllerMessage::CoyoteTimeJump))
    } else {
        (v, a, None)
    }
}

pub fn air_jump(v: Vec3, a: AirState, input: &PlayerInput, s: &PlayerControllerSettings) -> (r: (
    Vec3,
    AirState,
    Option<PlayerControllerMessage>,
))
    requires
        s.wf(),
        input.wf(),
        v.bounded(SPEED_MAX as int),
    ensures
        r == air_jump_spec(v, a, *input, *s),
        r.0.bounded(SPEED_MAX as int),
{
    if !input.jump.start {
        (v, a, None)
    } else if a.air_jumps < s.air_jumps && a.coyote_countdown <= 0 {
        let vy = impulse(s.gravity, s.jump);
        let v1 = Vec3 { x: v.x, y: vy, z: v.z };
        let v2 = match input.movement.flat().normalize() {
            None => v1,
            Some(dir) => boost_towards(v1, dir, s.air_jump_forward_boost),
        };
        (
            v2,
            AirState { air_jumps: a.air_jumps + 1, jump_state: JumpState::Normal, ..a },
            Some(PlayerControllerMessage::AirJump),
        )
    } else if a.coyote_countdown > 0 {
        let (vy, a1) = ground_jump(&PlayerState::Air(a), s);
        (Vec3 { x: v.x, y: vy, z: v.z }, a1, Some(PlayerControllerMessage::CoyoteTimeJump))
    } else {
        (v, a, None)
    }
}

/// Each tick in the air runs the coyote time down by the time step, to zero.
/// A jump pressed at no coyote time left is never a coyote jump: it uses an air
/// jump when one is left and does nothing otherwise. With coyote time left it is
/// a jump at full ground height, and the character stays airborne and rising.
pub proof fn lemma_coyote_boundary(v: Vec3, a: AirState, input: PlayerInput, s: PlayerControllerSettings, dt: int)
    requires
        input.jump.start,
        s.wf(),
        a.wf(),
        valid_dt(dt),
    ensures
        air_prelude_spec(v, a, input, s, dt).1.coyote_countdown == max(a.coyote_countdown - dt, 0),
        a.coyote_countdown <= 0 ==> air_jump_spec(v, a, input, s).2 != Some(
            PlayerControllerMessage::CoyoteTimeJump,
        ),
        a.coyote_countdown <= 0 && a.air_jumps < s.air_jumps ==> air_jump_spec(v, a, input, s).1.air_jumps
            == a.air_jumps + 1,
        a.coyote_countdown <= 0 && a.air_jumps >= s.air_jumps ==> air_jump_spec(v, a, input, s) == (
            v,
            a,
            Option::<PlayerControllerMessage>::None,
        ),
        a.coyote_countdown > 0 ==> air_jump_spec(v, a, input, s).2 == Some(
            PlayerControllerMessage::CoyoteTimeJump,
        ) && air_jump_spec(v, a, input, s).0.y == impulse_spec(s.gravity as int, s.jump as int),
{
    lemma_impulse_bound(s.gravity as int, s.jump as int);
}

/// The state and the number of air jumps granted after `k` jump presses in a row,
/// past the coyote time.
pub open spec fn air_jumps_after(v: Vec3, a: AirState, input: PlayerInput, s: PlayerControllerSettings, k: nat) -> (
    Vec3,
    AirState,
    nat,
)
    decreases k,
{
    if k == 0 {
        (v, a, 0)
    } else {
        let (v0, a0, n0) = air_jumps_after(v, a, input, s, (k - 1) as nat);
        let (v1, a1, m) = air_jump_spec(v0, a0, input, s);
        (v1, a1, if m is Some { n0 + 1 } else { n0 })
    }
}

/// With `N = air_jumps` allowed, `k` presses in one airborne period past the
/// coyote time grant exactly `min(k, N)` jumps; every press after the `N`th
/// leaves the velocity as it was.
pub proof fn lemma_air_jump_cap(v: Vec3, a: AirState, input: PlayerInput, s: PlayerControllerSettings, k: nat)
    requires
        input.jump.start,
        a.air_jumps == 0,
        a.coyote_countdown <= 0,
    ensures
        air_jumps_after(v, a, input, s, k).2 == min(k as int, s.air_jumps as int),
        air_jumps_after(v, a, input, s, k).1.air_jumps == min(k as int, s.air_jumps as int),
        air_jumps_after(v, a, input, s, k).1.coyote_countdown == a.coyote_countdown,
        k >= s.air_jumps ==> air_jump_spec(
            air_jumps_after(v, a, input, s, k).0,
            air_jumps_after(v, a, input, s, k).1,
            input,
            s,
        ).0 == air_jumps_after(v, a, input, s, k).0,
    decreases k,
{
    if k > 0 {
        lemma_air_jump_cap(v, a, input, s, (k - 1) as nat);
    }
}

/// Dashing twice in one airborne period boosts once: the second press changes
/// nothing. A fresh airborne period, as after landing, may dash again.
pub proof fn lemma_dash_once(v: Vec3, a: AirState, facing: Vec2, input: PlayerInput, s: PlayerControllerSettings)
    ensures
        dash_spec(dash_spec(v, a, facing, input, s).0, dash_spec(v, a, facing, input, s).1, facing, input, s)
            == dash_spec(v, a, facing, input, s),
        !AirState::fresh().dashed,
        !AirState::fresh().with_coyote_spec(s.coyote_time as int).dashed,
{
}

/// The start of the air rule: drag, the coyote time running down, and the jump
/// cut to half its speed when the button is let go while rising; a jump ends once
/// the character stops rising.
pub open spec fn air_prelude_spec(v: Vec3, a: AirState, input: PlayerInput, s: PlayerControllerSettings, dt: int) -> (
    Vec3,
    AirState,
) {
    let v1 = air_friction_spec(v, s, dt);
    let countdown = max(a.coyote_countdown - dt, 0);
    let halve = a.jump_state == JumpState::Normal && v1.y > 0 && !input.jump.fire;
    let v2 = if halve {
        Vec3 { y: (v1.y / 2) as i64, ..v1 }
    } else {
        v1
    };
    let js = if halve {
        JumpState::Halved
    } else {
        a.jump_state
    };
    let js2 = if js != JumpState::Idle && v2.y <= 0 {
        JumpState::Idle
    } else {
        js
    };
    (v2, AirState { coyote_countdown: countdown as i64, jump_state: js2, ..a })
}

pub fn air_prelude(v: Vec3, a: AirState, input: &PlayerInput, s: &PlayerControllerSettings, dt: i64) -> (r: (
    Vec3,
    AirState,
))
    requires
        s.wf(),
        valid_dt(dt as int),
        v.bounded(SPEED_MAX as int),
        a.wf(),
    ensures
        r == air_prelude_spec(v, a, *input, *s, dt as int),
        r.0.bounded(SPEED_MAX as int),
        r.1.wf(),
{
    let mut v1 = air_friction(v, s, dt);
    let mut air = a;
    air.coyote_countdown = if a.coyote_countdown - dt > 0 {
        a.coyote_countdown - dt
    } else {
        0
    };
    if air.jump_state == JumpState::Normal && v1.y > 0 && !input.jump.fire {
        v1.y = v1.y / 2;
        air.jump_state = JumpState::Halved;
    }
    if air.jump_state != JumpState::Idle && v1.y <= 0 {
        air.jump_state = JumpState::Idle;
    }
    (v1, air)
}

/// The actions of the air rule in order: dash, jump, then steering.
pub open spec fn air_actions_spec(
    v: Vec3,
    a: AirState,
    facing: Vec2,
    input: PlayerInput,
    s: PlayerControllerSettings,
    dt: int,
) -> (Vec3, AirState, Option<PlayerControllerMessage>) {
    let d = dash_spec(v, a, facing, input, s);
    let j = air_jump_spec(d.0, d.1, input, s);
    (air_move_spec(j.0, input, s, dt), j.1, j.2)
}

pub fn air_actions(v: Vec3, a: AirState, facing: Vec2, input: &PlayerInput, s: &PlayerControllerSettings, dt: i64) -> (r: (
    Vec3,
    AirState,
    Option<PlayerControllerMessage>,
))
    requires
        s.wf(),
        input.wf(),
        valid_dt(dt as int),
        v.bounded(SPEED_MAX as int),
        within(facing.x as int, ONE as int),
        within(facing.y as int, ONE as int),
    ensures
        r == air_actions_spec(v, a, facing, *input, *s, dt as int),
        r.0.bounded(SPEED_MAX as int),
        a.wf() ==> r.1.wf(),
{
    let (v1, a1) = dash(v, a, facing, input, s);
    let (v2, a2, msg) = air_jump(v1, a1, input, s);
    (air_move(v2, input, s, dt), a2, msg)
}

/// The slam rule: the character stops dead, waits `slam_pause`, then falls at
/// `slam_velocity`.
pub open spec fn slam_spec(sl: SlamState, s: PlayerControllerSettings, dt: int) -> (Vec3, SlamState) {
    let timer = if sl.timer < s.slam_pause {
        sl.timer + dt
    } else {
        sl.timer as int
    };
    let vy = if timer >= s.slam_pause {
        -s.slam_velocity
    } else {
        0
    };
    (Vec3 { x: 0, y: vy as i64, z: 0 }, SlamState { timer: timer as i64 })
}

pub fn slam(sl: SlamState, s: &PlayerControllerSettings, dt: i64) -> (r: (Vec3, SlamState))
    requires
        s.wf(),
        valid_dt(dt as int),
        PlayerState::Slam(sl).wf(),
    ensures
        r == slam_spec(sl, *s, dt as int),
        r.0.bounded(SPEED_MAX as int),
        PlayerState::Slam(r.1).wf(),
{
    let timer = if sl.timer < s.slam_pause {
        sl.timer + dt
    } else {
        sl.timer
    };
    let vy = if timer >= s.slam_pause {
        -s.slam_velocity
    } else {
        0
    };
    (Vec3 { x: 0, y: vy, z: 0 }, SlamState { timer })
}

/// A contact met while moving: where, and the surface's unit normal.
#[derive(Clone, Copy, Debug, PartialEq, Eq, Structural)]
pub struct Contact {
    pub point: Vec3,
    pub normal: Vec3,
}

/// The point of the last contact, in order of meeting, whose surface counts as
/// floor (upward component at least `min_floor`).
pub open spec fn last_floor_contact(contacts: Seq<Contact>, min_floor: int) -> Option<Vec3>
    decreases contacts.len(),
{
    if contacts.len() == 0 {
        None
    } else if contacts.last().normal.y >= min_floor {
        Some(contacts.last().point)
    } else {
        last_floor_contact(contacts.drop_last(), min_floor)
    }
}

pub fn floor_contact(contacts: &Vec<Contact>, min_floor: i64) -> (r: Option<Vec3>)
    ensures
        r == last_floor_contact(contacts@, min_floor as int),
{
    let mut i: usize = contacts.len();
    assert(contacts@.subrange(0, i as int) =~= contacts@);
    while i > 0
        invariant
            i <= contacts@.len(),
            last_floor_contact(contacts@, min_floor as int) == last_floor_contact(
                contacts@.subrange(0, i as int),
                min_floor as int,
            ),
        decreases i,
    {
        let c = contacts[i - 1];
        let ghost prefix = contacts@.subrange(0, i as int);
        assert(prefix.last() == c);
        assert(prefix.drop_last() =~= contacts@.subrange(0, i - 1));
        if c.normal.y >= min_floor {
            return Some(c.point);
        }
        i = i - 1;
    }
    assert(contacts@.subrange(0, 0).len() == 0);
    None
}

} // verus!
