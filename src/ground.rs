//! Rules on the ground: running, sliding, stepping, snapping to the floor, and
//! telling ground from air.
use vstd::prelude::*;
use crate::fixed::{clamp, div_trunc, fmul, fx_mul, lemma_fmul_bound, ONE, POS_MAX, SETTING_MAX, SPEED_MAX};
use crate::input::PlayerInput;
use crate::motion::{ground_jump, ground_jump_spec, valid_dt, RUN_MARGIN};
use crate::settings::PlayerControllerSettings;
use crate::state::{AirState, GroundedState, PlayerState, SlidingState};
use crate::vector::{within, Vec3};

verus! {

/// What a collision probe reports: how far it went and the unit normal of the
/// surface it met.
#[derive(Clone, Copy, Debug, PartialEq, Eq, Structural)]
pub struct Hit {
    pub distance: i64,
    pub normal: Vec3,
}

impl Hit {
    pub open spec fn wf(self) -> bool {
        0 <= self.distance <= POS_MAX && self.normal.bounded(ONE as int)
    }
}

/// The input's target speed on one axis: `movement * speed_modifier * run_speed`.
pub open spec fn run_component(m: int, modifier: int, run_speed: int) -> int {
    fmul(fmul(m, modifier), run_speed)
}

/// `x / 1.5`, rounded toward zero.
pub open spec fn slow_down(x: int) -> int {
    div_trunc(2 * x, 3)
}

/// The running rule. Faster than `run_speed + RUN_MARGIN`, the speed decays by a
/// factor of 1.5 (not during the first `coyote_friction` of time on the ground)
/// and keeps its magnitude while turning toward the input. Otherwise the
/// horizontal velocity is the input's target. The vertical velocity is zeroed
/// either way. Also returns whether the speed was too high and whether the
/// friction grace applied.
pub open spec fn run_spec(v: Vec3, g: GroundedState, input: PlayerInput, s: PlayerControllerSettings, dt: int) -> (
    Vec3,
    GroundedState,
    bool,
    bool,
) {
    let grace = g.ground_time < s.coyote_friction;
    let g1 = if grace {
        GroundedState { ground_time: (g.ground_time + dt) as i64, ..g }
    } else {
        g
    };
    let too_fast = v.horizontal_spec().length_spec() > s.run_speed + RUN_MARGIN;
    let tx = run_component(input.movement.x as int, input.speed_modifier as int, s.run_speed as int);
    let tz = run_component(input.movement.y as int, input.speed_modifier as int, s.run_speed as int);
    if too_fast {
        let v1 = if grace {
            v
        } else {
            Vec3 { x: slow_down(v.x as int) as i64, y: slow_down(v.y as int) as i64, z: slow_down(v.z as int) as i64 }
        };
        let attempted = Vec3 { x: (v1.x + tx) as i64, y: v1.y, z: (v1.z + tz) as i64 };
        let v2 = if attempted.is_zero() {
            v1
        } else {
            let n = attempted.normalized().scaled_spec(v1.length_spec());
            Vec3 {
                x: clamp(n.x as int, -SPEED_MAX, SPEED_MAX as int) as i64,
                y: clamp(n.y as int, -SPEED_MAX, SPEED_MAX as int) as i64,
                z: clamp(n.z as int, -SPEED_MAX, SPEED_MAX as int) as i64,
            }
        };
        (Vec3 { y: 0, ..v2 }, g1, true, grace)
    } else {
        (Vec3 { x: tx as i64, y: 0, z: tz as i64 }, g1, false, grace)
    }
}

fn run_target(m: i64, modifier: i64, run_speed: i64) -> (r: i64)
    requires
        within(m as int, ONE as int),
        0 <= modifier <= ONE,
        within(run_speed as int, SETTING_MAX as int),
    ensures
        r == run_component(m as int, modifier as int, run_speed as int),
        within(r as int, SETTING_MAX as int),
{
    let a = fx_mul(m, modifier);
    proof {
        lemma_fmul_bound(m as int, modifier as int, ONE as int, ONE as int);
    }
    let r = fx_mul(a, run_speed);
    proof {
        lemma_fmul_bound(a as int, run_speed as int, ONE as int, SETTING_MAX as int);
    }
    r
}

fn slow(x: i64) -> (r: i64)
    requires
        within(x as int, SPEED_MAX as int),
    ensures
        r == slow_down(x as int),
        within(r as int, SPEED_MAX as int),
{
    let p = 2 * x;
    if p >= 0 {
        p / 3
    } else {
        -((-p) / 3)
    }
}

pub fn run(v: Vec3, g: GroundedState, input: &PlayerInput, s: &PlayerControllerSettings, dt: i64) -> (r: (
    Vec3,
    GroundedState,
    bool,
    bool,
))
    requires
        s.wf(),
        input.wf(),
        valid_dt(dt as int),
        v.bounded(SPEED_MAX as int),
        PlayerState::Grounded(g).wf(),
    ensures
        r == run_spec(v, g, *input, *s, dt as int),
        r.0.bounded(SPEED_MAX as int),
        r.0.y == 0,
        PlayerState::Grounded(r.1).wf(),
{
    let grace = g.ground_time < s.coyote_friction;
    let g1 = if grace {
        GroundedState { ground_time: g.ground_time + dt, ..g }
    } else {
        g
    };
    let too_fast = v.horizontal().length() > s.run_speed + RUN_MARGIN;
    let tx = run_target(input.movement.x, input.speed_modifier, s.run_speed);
    let tz = run_target(input.movement.y, input.speed_modifier, s.run_speed);
    if too_fast {
        let v1 = if grace {
            v
        } else {
            Vec3 { x: slow(v.x), y: slow(v.y), z: slow(v.z) }
        };
        let attempted = Vec3 { x: v1.x + tx, y: v1.y, z: v1.z + tz };
        let v2 = match attempted.normalize() {
            None => v1,
            Some(d) => d.scaled(v1.length()).saturate(SPEED_MAX),
        };
        (Vec3 { x: v2.x, y: 0, z: v2.z }, g1, true, grace)
    } else {
        (Vec3 { x: tx, y: 0, z: tz }, g1, false, grace)
    }
}

/// The sliding rule: the timer runs, the horizontal velocity is the slide's, the
/// slide ends once the timer exceeds `slide_time`, and a jump press jumps with 1.5 times the
/// horizontal speed.
pub open spec fn slide_spec(v: Vec3, sl: SlidingState, input: PlayerInput, s: PlayerControllerSettings, dt: int) -> (
    Vec3,
    PlayerState,
) {
    let timer = sl.timer + dt;
    let v1 = Vec3 {
        x: fmul(sl.direction.x as int, s.slide_speed as int) as i64,
        y: v.y,
        z: fmul(sl.direction.y as int, s.slide_speed as int) as i64,
    };
    let st = if timer > s.slide_time {
        PlayerState::Grounded(GroundedState::fresh())
    } else {
        PlayerState::Sliding(SlidingState { timer: timer as i64, ..sl })
    };
    if input.jump.start {
        let (vy, a) = ground_jump_spec(st, s);
        (
            Vec3 { x: div_trunc(3 * v1.x, 2) as i64, y: vy as i64, z: div_trunc(3 * v1.z, 2) as i64 },
            PlayerState::Air(a),
        )
    } else {
        (v1, st)
    }
}

fn boost_half(x: i64) -> (r: i64)
    requires
        within(x as int, SETTING_MAX as int),
    ensures
        r == div_trunc(3 * x, 2),
        within(r as int, 2 * SETTING_MAX),
{
    let p = 3 * x;
    if p >= 0 {
        p / 2
    } else {
        -((-p) / 2)
    }
}

pub fn slide(v: Vec3, sl: SlidingState, input: &PlayerInput, s: &PlayerControllerSettings, dt: i64) -> (r: (
    Vec3,
    PlayerState,
))
    requires
        s.wf(),
        valid_dt(dt as int),
        v.bounded(SPEED_MAX as int),
        PlayerState::Sliding(sl).wf(),
    ensures
        r == slide_spec(v, sl, *input, *s, dt as int),
        r.0.bounded(SPEED_MAX as int),
        r.1.wf(),
{
    let timer = sl.timer + dt;
    let x = fx_mul(sl.direction.x, s.slide_speed);
    proof {
        lemma_fmul_bound(sl.direction.x as int, s.slide_speed as int, ONE as int, SETTING_MAX as int);
    }
    let z = fx_mul(sl.direction.y, s.slide_speed);
    proof {
        lemma_fmul_bound(sl.direction.y as int, s.slide_speed as int, ONE as int, SETTING_MAX as int);
    }
    let v1 = Vec3 { x, y: v.y, z };
    let st = if timer > s.slide_time {
        PlayerState::Grounded(GroundedState::new())
    } else {
        PlayerState::Sliding(SlidingState { timer, ..sl })
    };
    if input.jump.start {
        let (vy, a) = ground_jump(&st, s);
        (Vec3 { x: boost_half(v1.x), y: vy, z: boost_half(v1.z) }, PlayerState::Air(a))
    } else {
        (v1, st)
    }
}

/// Whether a downward probe finds floor under the character: the character is not
/// rising faster than `maximum_grounded_up_velocity`, and the surface faces up
/// more steeply than `min_floor_angle`.
pub open spec fn on_floor(vy: int, hit: Option<Hit>, s: PlayerControllerSettings) -> bool {
    vy <= s.maximum_grounded_up_velocity && (hit matches Some(h) && h.normal.y > s.min_floor_angle)
}

/// The mode after the ground check: landing gives a fresh grounded state, leaving
/// the ground a fresh air state with the full coyote time; otherwise no change.
pub open spec fn ground_check_spec(state: PlayerState, vy: int, hit: Option<Hit>, s: PlayerControllerSettings) -> PlayerState {
    let grounded = on_floor(vy, hit, s);
    if grounded && !state.grounded_spec() {
        PlayerState::Grounded(GroundedState::fresh())
    } else if !grounded && state.grounded_spec() {
        PlayerState::Air(AirState::fresh().with_coyote_spec(s.coyote_time as int))
    } else {
        state
    }
}

pub fn ground_check(state: PlayerState, vy: i64, hit: Option<Hit>, s: &PlayerControllerSettings) -> (r: PlayerState)
    requires
        s.wf(),
        state.wf(),
    ensures
        r == ground_check_spec(state, vy as int, hit, *s),
        r.wf(),
{
    let grounded = vy <= s.maximum_grounded_up_velocity && match hit {
        Some(h) => h.normal.y > s.min_floor_angle,
        None => false,
    };
    if grounded && !state.grounded() {
        PlayerState::Grounded(GroundedState::new())
    } else if !grounded && state.grounded() {
        PlayerState::Air(AirState::new().with_coyote(s))
    } else {
        state
    }
}

/// On the ground, a probe that finds floor keeps the mode as it is; in the air,
/// one that finds no floor does too. Walking off a ledge starts the coyote time
/// with no air jump used and no dash spent.
pub proof fn lemma_ground_check_stable(state: PlayerState, vy: int, hit: Option<Hit>, s: PlayerControllerSettings)
    ensures
        state.grounded_spec() && on_floor(vy, hit, s) ==> ground_check_spec(state, vy, hit, s) == state,
        !state.grounded_spec() && !on_floor(vy, hit, s) ==> ground_check_spec(state, vy, hit, s) == state,
        state.grounded_spec() && !on_floor(vy, hit, s) ==> ground_check_spec(state, vy, hit, s) == PlayerState::Air(
            AirState { coyote_countdown: s.coyote_time, ..AirState::fresh() },
        ),
{
}

/// Floor snapping: a probe of `floor_snap` downward (from the position moved out
/// of any overlap by `offset`) that meets floor stops the fall and moves the
/// character down onto it.
pub open spec fn snap_spec(pos: Vec3, vy: int, offset: Vec3, hit: Option<Hit>, s: PlayerControllerSettings) -> (Vec3, int) {
    match hit {
        None => (pos, vy),
        Some(h) => if h.normal.y < s.min_floor_angle {
            (pos, vy)
        } else {
            (
                Vec3 {
                    x: clamp(pos.x + offset.x, -POS_MAX, POS_MAX as int) as i64,
                    y: clamp(pos.y + offset.y - h.distance, -POS_MAX, POS_MAX as int) as i64,
                    z: clamp(pos.z + offset.z, -POS_MAX, POS_MAX as int) as i64,
                },
                if vy < 0 {
                    0
                } else {
                    vy
                },
            )
        },
    }
}

pub fn snap(pos: Vec3, vy: i64, offset: Vec3, hit: Option<Hit>, s: &PlayerControllerSettings) -> (r: (Vec3, i64))
    requires
        pos.bounded(POS_MAX as int),
        offset.bounded(POS_MAX as int),
        hit matches Some(h) ==> h.wf(),
    ensures
        r.0 == snap_spec(pos, vy as int, offset, hit, *s).0,
        r.1 == snap_spec(pos, vy as int, offset, hit, *s).1,
        r.0.bounded(POS_MAX as int),
{
    match hit {
        None => (pos, vy),
        Some(h) => if h.normal.y < s.min_floor_angle {
            (pos, vy)
        } else {
            let down = Vec3 { x: offset.x, y: offset.y - h.distance, z: offset.z };
            (pos.add_sat(down, POS_MAX), if vy < 0 {
                0
            } else {
                vy
            })
        },
    }
}

/// The square of the distance from `a` to `b`.
pub open spec fn dist_sq_spec(a: Vec3, b: Vec3) -> int {
    (a.x - b.x) * (a.x - b.x) + (a.y - b.y) * (a.y - b.y) + (a.z - b.z) * (a.z - b.z)
}

/// Where a step attempt lands: `step` below the raised-and-moved position when the
/// drop probe meets nothing, on the surface when it meets floor, and nowhere (the
/// step is refused) when it meets anything steeper.
pub open spec fn step_landing(raised: Vec3, drop: Option<Hit>, s: PlayerControllerSettings) -> Option<Vec3> {
    match drop {
        None => Some(
            Vec3 { y: clamp(raised.y - s.step, -POS_MAX, POS_MAX as int) as i64, ..raised },
        ),
        Some(h) => if h.normal.y < s.min_floor_angle {
            None
        } else {
            Some(Vec3 { y: clamp(raised.y - h.distance, -POS_MAX, POS_MAX as int) as i64, ..raised })
        },
    }
}

/// The step policy: of the move along the ground and the stepped move, keep the one
/// that went farther from `start`; the ground move wins ties lost by the step and
/// any refused step. A kept step takes the ground move's vertical velocity.
pub open spec fn step_choice_spec(
    start: Vec3,
    ground_pos: Vec3,
    ground_vel: Vec3,
    raised: Vec3,
    step_vel: Vec3,
    drop: Option<Hit>,
    s: PlayerControllerSettings,
) -> (Vec3, Vec3) {
    match step_landing(raised, drop, s) {
        None => (ground_pos, ground_vel),
        Some(p) => if dist_sq_spec(ground_pos, start) > dist_sq_spec(p, start) {
            (ground_pos, ground_vel)
        } else {
            (p, Vec3 { y: ground_vel.y, ..step_vel })
        },
    }
}

pub fn step_choice(
    start: Vec3,
    ground_pos: Vec3,
    ground_vel: Vec3,
    raised: Vec3,
    step_vel: Vec3,
    drop: Option<Hit>,
    s: &PlayerControllerSettings,
) -> (r: (Vec3, Vec3))
    requires
        s.wf(),
        start.bounded(POS_MAX as int),
        ground_pos.bounded(POS_MAX as int),
        raised.bounded(POS_MAX as int),
        drop matches Some(h) ==> h.wf(),
    ensures
        r == step_choice_spec(start, ground_pos, ground_vel, raised, step_vel, drop, *s),
        r.0.bounded(POS_MAX as int),
{
    let landed = match drop {
        None => Some(raised.add_sat(Vec3 { x: 0, y: -s.step, z: 0 }, POS_MAX)),
        Some(h) => if h.normal.y < s.min_floor_angle {
            None
        } else {
            Some(raised.add_sat(Vec3 { x: 0, y: -h.distance, z: 0 }, POS_MAX))
        },
    };
    match landed {
        None => (ground_pos, ground_vel),
        Some(p) => if ground_pos.dist_sq(start) > p.dist_sq(start) {
            (ground_pos, ground_vel)
        } else {
            (p, Vec3 { x: step_vel.x, y: ground_vel.y, z: step_vel.z })
        },
    }
}

/// A step whose drop probe meets a surface steeper than floor is refused and the
/// ground move stands; a step that lands on floor, or drops freely, is kept
/// whenever it went at least as far as the ground move.
pub proof fn lemma_step_policy(
    start: Vec3,
    ground_pos: Vec3,
    ground_vel: Vec3,
    raised: Vec3,
    step_vel: Vec3,
    drop: Option<Hit>,
    s: PlayerControllerSettings,
)
    ensures
        (drop matches Some(h) && h.normal.y < s.min_floor_angle) ==> step_choice_spec(
            start,
            ground_pos,
            ground_vel,
            raised,
            step_vel,
            drop,
            s,
        ) == (ground_pos, ground_vel),
        step_landing(raised, drop, s) matches Some(p) ==> (dist_sq_spec(p, start) >= dist_sq_spec(
            ground_pos,
            start,
        ) ==> step_choice_spec(start, ground_pos, ground_vel, raised, step_vel, drop, s).0 == p),
        step_choice_spec(start, ground_pos, ground_vel, raised, step_vel, drop, s).1.y == ground_vel.y,
{
}

} // verus!
