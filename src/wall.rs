//! Grabbing walls: choosing the wall, holding on, letting go and jumping off.
use vstd::prelude::*;
use crate::fixed::{min, ONE, SPEED_MAX};
use crate::ground::Hit;
use crate::motion::{impulse, impulse_spec};
use crate::settings::PlayerControllerSettings;
use crate::state::{AirState, JumpState, WallGrabState};
use crate::vector::{within, Axis, Vec2, Vec3};

verus! {

/// A wall found by a probe: how well it lines up with the facing, the probe's
/// axis, and the wall's unit normal.
#[derive(Clone, Copy, Debug, PartialEq, Eq, Structural)]
pub struct WallCandidate {
    pub influence: i64,
    pub axis: Axis,
    pub normal: Vec3,
}

pub open spec fn neg_spec(v: Vec3) -> Vec3 {
    Vec3 { x: -v.x as i64, y: -v.y as i64, z: -v.z as i64 }
}

/// Whether a unit normal is steep enough to grab: its vertical component lies in
/// `[wall_grab_min_normal, wall_grab_max_normal]`.
pub open spec fn grabbable(n: Vec3, s: PlayerControllerSettings) -> bool {
    s.wall_grab_min_normal <= n.y <= s.wall_grab_max_normal
}

/// What a probe along `axis` offers: nothing when it met nothing, when the
/// surface is not steep enough to grab, or when the character moves away from it
/// faster than `wall_grab_max_away_velocity`; otherwise the wall, scored by how
/// much the facing points into it.
pub open spec fn wall_candidate_spec(
    hit: Option<Hit>,
    axis: Axis,
    hvel: Vec3,
    facing: Vec2,
    s: PlayerControllerSettings,
) -> Option<WallCandidate> {
    match hit {
        None => None,
        Some(h) => if h.normal.is_zero() {
            None
        } else {
            let n = h.normal.normalized();
            if !grabbable(n, s) {
                None
            } else if hvel.speed_towards_spec(n) > s.wall_grab_max_away_velocity {
                None
            } else {
                Some(
                    WallCandidate {
                        influence: facing.flat_spec().speed_towards_spec(neg_spec(n)) as i64,
                        axis,
                        normal: n,
                    },
                )
            }
        },
    }
}

pub fn wall_candidate(hit: Option<Hit>, axis: Axis, hvel: Vec3, facing: Vec2, s: &PlayerControllerSettings) -> (r: Option<WallCandidate>)
    requires
        hit matches Some(h) ==> h.wf(),
        hvel.bounded(SPEED_MAX as int),
        within(facing.x as int, ONE as int),
        within(facing.y as int, ONE as int),
    ensures
        r == wall_candidate_spec(hit, axis, hvel, facing, *s),
        r matches Some(c) ==> c.normal.bounded(ONE as int) && grabbable(c.normal, *s),
{
    match hit {
        None => None,
        Some(h) => match h.normal.normalize() {
            None => None,
            Some(n) => {
                if n.y < s.wall_grab_min_normal || n.y > s.wall_grab_max_normal {
                    None
                } else if hvel.speed_towards(n) > s.wall_grab_max_away_velocity {
                    None
                } else {
                    let influence = facing.flat().speed_towards(n.neg());
                    Some(WallCandidate { influence, axis, normal: n })
                }
            },
        },
    }
}

/// The better of the best wall so far and a new candidate: the new one only when
/// it lines up strictly better with the facing, so the first of equals stays.
pub open spec fn pick_wall_spec(best: Option<WallCandidate>, cand: Option<WallCandidate>) -> Option<WallCandidate> {
    match cand {
        None => best,
        Some(c) => match best {
            None => Some(c),
            Some(b) => if c.influence > b.influence {
                Some(c)
            } else {
                best
            },
        },
    }
}

pub fn pick_wall(best: Option<WallCandidate>, cand: Option<WallCandidate>) -> (r: Option<WallCandidate>)
    ensures
        r == pick_wall_spec(best, cand),
{
    match cand {
        None => best,
        Some(c) => match best {
            None => Some(c),
            Some(b) => if c.influence > b.influence {
                Some(c)
            } else {
                best
            },
        },
    }
}

/// A surface whose normal's vertical component lies outside
/// `[wall_grab_min_normal, wall_grab_max_normal]` is never chosen, however well it
/// lines up with the facing: no candidate is made of it, and the choice among
/// candidates only ever keeps one of them.
pub proof fn lemma_wall_grab_rejects(
    best: Option<WallCandidate>,
    hit: Option<Hit>,
    axis: Axis,
    hvel: Vec3,
    facing: Vec2,
    s: PlayerControllerSettings,
)
    requires
        best matches Some(b) ==> grabbable(b.normal, s),
    ensures
        (hit matches Some(h) && !h.normal.is_zero() && !grabbable(h.normal.normalized(), s))
            ==> wall_candidate_spec(hit, axis, hvel, facing, s) is None,
        pick_wall_spec(best, wall_candidate_spec(hit, axis, hvel, facing, s)) matches Some(w)
            ==> grabbable(w.normal, s),
{
}

/// The facing while holding a wall: along the wall, the horizontal normal
/// turned a quarter turn; +Z when the normal is vertical.
pub open spec fn facing_along_wall_spec(n: Vec3) -> Vec2 {
    let f = Vec3 { x: n.z, y: 0, z: -n.x as i64 };
    if f.is_zero() {
        Vec2 { x: 0, y: ONE }
    } else {
        let d = f.normalized();
        Vec2 { x: d.x, y: d.z }
    }
}

pub fn facing_along_wall(n: Vec3) -> (r: Vec2)
    requires
        n.bounded(ONE as int),
    ensures
        r == facing_along_wall_spec(n),
        within(r.x as int, ONE as int),
        within(r.y as int, ONE as int),
{
    let f = Vec3 { x: n.z, y: 0, z: -n.x };
    match f.normalize() {
        None => Vec2 { x: 0, y: ONE },
        Some(d) => Vec2 { x: d.x, y: d.z },
    }
}

/// Letting go of a wall: airborne again with the saved air jumps and dash, no
/// jump and no coyote time.
pub open spec fn release_spec(w: WallGrabState) -> AirState {
    AirState {
        air_jumps: w.prev_air_state.air_jumps,
        dashed: w.prev_air_state.dashed,
        jump_state: JumpState::Idle,
        coyote_countdown: 0,
    }
}

pub fn release(w: &WallGrabState) -> (r: AirState)
    ensures
        r == release_spec(*w),
{
    AirState {
        air_jumps: w.prev_air_state.air_jumps,
        dashed: w.prev_air_state.dashed,
        jump_state: JumpState::Idle,
        coyote_countdown: 0,
    }
}

/// A jump off a wall, from rest: up by the speed that rises twice
/// `wall_jump_add_vertical`, but not past `wall_jump_max_vertical`, and out along
/// the wall's normal at `wall_jump_add_horizontal`; airborne and rising with the
/// saved air jumps and dash.
pub open spec fn wall_jump_spec(w: WallGrabState, s: PlayerControllerSettings) -> (Vec3, AirState) {
    let up = if 0 < s.wall_jump_max_vertical {
        min(impulse_spec(s.gravity as int, 2 * s.wall_jump_add_vertical), s.wall_jump_max_vertical as int)
    } else {
        0
    };
    let out = w.wall_normal.scaled_spec(s.wall_jump_add_horizontal as int);
    (
        Vec3 { x: out.x, y: (up + out.y) as i64, z: out.z },
        AirState { jump_state: JumpState::Normal, ..release_spec(w) },
    )
}

pub fn wall_jump(w: &WallGrabState, s: &PlayerControllerSettings) -> (r: (Vec3, AirState))
    requires
        s.wf(),
        w.wall_normal.bounded(ONE as int),
    ensures
        r == wall_jump_spec(*w, *s),
        r.0.bounded(SPEED_MAX as int),
{
    let up = if 0 < s.wall_jump_max_vertical {
        let add = impulse(s.gravity, 2 * s.wall_jump_add_vertical);
        if add < s.wall_jump_max_vertical {
            add
        } else {
            s.wall_jump_max_vertical
        }
    } else {
        0
    };
    let out = w.wall_normal.scaled(s.wall_jump_add_horizontal);
    (
        Vec3 { x: out.x, y: up + out.y, z: out.z },
        AirState {
            air_jumps: w.prev_air_state.air_jumps,
            dashed: w.prev_air_state.dashed,
            jump_state: JumpState::Normal,
            coyote_countdown: 0,
        },
    )
}

} // verus!
