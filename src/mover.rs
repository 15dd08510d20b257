//! One tick of the controller as a resumable machine. The mover never touches
//! level geometry itself: it asks the caller a collision `Query`, and the caller
//! runs it against the level and hands back the `Reply`, until the mover reports
//! `Step::Done`.
use vstd::prelude::*;
use crate::fixed::{clamp, fmul, fx_mul, lemma_fmul_bound, ONE, POS_MAX, SETTING_MAX, SPEED_MAX};
use crate::ground::{
    ground_check, ground_check_spec, run, run_spec, slide, slide_spec, snap, snap_spec, step_choice,
    step_choice_spec, Hit,
};
use crate::input::PlayerInput;
use crate::motion::{
    air_actions, air_actions_spec, air_prelude, air_prelude_spec, floor_contact, ground_jump,
    ground_jump_spec, half_gravity, RUN_MARGIN, half_gravity_spec, last_floor_contact, slam, slam_spec, valid_dt,
    Contact,
};
use crate::settings::PlayerControllerSettings;
use crate::state::{AirState, GroundedState, PlayerControllerMessage, PlayerState, SlamState, SlidingState, WallGrabState};
use crate::vector::{clamp_i64, within, Axis, Vec2, Vec3};
use crate::wall::{
    facing_along_wall, facing_along_wall_spec, neg_spec, pick_wall, pick_wall_spec, release, release_spec,
    wall_candidate, wall_candidate_spec, wall_jump, wall_jump_spec, WallCandidate,
};

verus! {

/// Skin width of the sweeps that move the character (0.01).
pub const SKIN: i64 = 655;

/// Reach of the probe under the character that tells ground from air (0.02).
pub const GROUND_PROBE: i64 = 1311;

/// Speed of the free-flying camera mode (20).
pub const FLY_SPEED: i64 = 1310720;

/// A collision question for the caller, about the character's own shape and the
/// level's static geometry only.
#[derive(Clone, Copy, Debug, PartialEq, Eq, Structural)]
pub enum Query {
    /// Move from `position` at `velocity` for one tick, sliding along what is met;
    /// with `ground_plane`, the floor plane (normal +Y) also blocks.
    MoveAndSlide { position: Vec3, velocity: Vec3, ground_plane: bool },
    /// Sweep the shape from `position` by `motion`, stopping `skin` short of a hit.
    CastMove { position: Vec3, motion: Vec3, skin: i64 },
    /// The least offset that moves the shape at `position` out of the level.
    Depenetrate { position: Vec3 },
    /// Cast the shape from `position` along `direction` up to `max_distance`.
    CastShape { position: Vec3, direction: Axis, max_distance: i64 },
}

/// The answer to a `Query`.
pub enum Reply {
    /// For `MoveAndSlide`: where the move ended, the velocity left after sliding,
    /// whether nothing at all was met, and each contact in order.
    Moved { position: Vec3, velocity: Vec3, unimpeded: bool, contacts: Vec<Contact> },
    /// For `CastMove` and `CastShape`: the first hit, if any.
    Swept(Option<Hit>),
    /// For `Depenetrate`.
    Offset(Vec3),
}

/// What the mover wants next.
#[derive(Clone, Copy, Debug, PartialEq, Eq, Structural)]
pub enum Step {
    Ask(Query),
    Done,
}

/// What follows a move along the ground.
#[derive(Clone, Copy, Debug, PartialEq, Eq, Structural)]
pub enum AfterGround {
    /// Running: jump or slide, told whether the speed was too high and whether the
    /// landing friction grace applied.
    Run { too_fast: bool, grace: bool },
    Slide,
}

/// Where a tick stands: which reply the mover waits for, and what it keeps meanwhile.
#[derive(Clone, Copy, Debug, PartialEq, Eq, Structural)]
pub enum Stage {
    GroundDirect { start_pos: Vec3, start_vel: Vec3, after: AfterGround },
    GroundRise { start_pos: Vec3, start_vel: Vec3, ground_pos: Vec3, ground_vel: Vec3, after: AfterGround },
    GroundAcross { start_pos: Vec3, ground_pos: Vec3, ground_vel: Vec3, after: AfterGround },
    GroundDrop { start_pos: Vec3, ground_pos: Vec3, ground_vel: Vec3, after: AfterGround },
    WallProbe { next: u8, best: Option<WallCandidate>, air: AirState },
    WallSnap { normal: Vec3, saved: Vec3, air: AirState },
    AirMove,
    SlamMove,
    SlamCheck,
    Release,
    WallDepenetrate { grab: WallGrabState },
    WallStick { grab: WallGrabState, offset: Vec3 },
    SnapDepenetrate,
    SnapCast { offset: Vec3 },
    GroundCheck,
    Done,
}

/// The four horizontal probe directions of the wall search, in order.
pub open spec fn probe_axis_spec(i: int) -> Axis {
    if i == 0 {
        Axis::PosX
    } else if i == 1 {
        Axis::NegX
    } else if i == 2 {
        Axis::PosZ
    } else {
        Axis::NegZ
    }
}

fn probe_axis(i: u8) -> (r: Axis)
    ensures
        r == probe_axis_spec(i as int),
{
    if i == 0 {
        Axis::PosX
    } else if i == 1 {
        Axis::NegX
    } else if i == 2 {
        Axis::PosZ
    } else {
        Axis::NegZ
    }
}

/// Which kind of reply answers a query.
#[derive(Clone, Copy, Debug, PartialEq, Eq, Structural)]
pub enum ReplyKind {
    Moved,
    Swept,
    Offset,
}

impl Query {
    /// Every value in the question fits the ranges the caller converts.
    pub open spec fn wf(self) -> bool {
        match self {
            Query::MoveAndSlide { position, velocity, .. } => position.bounded(POS_MAX as int)
                && velocity.bounded(SPEED_MAX as int),
            Query::CastMove { position, motion, skin } => position.bounded(POS_MAX as int)
                && motion.bounded(POS_MAX as int) && 0 <= skin <= SETTING_MAX,
            Query::Depenetrate { position } => position.bounded(POS_MAX as int),
            Query::CastShape { position, max_distance, .. } => position.bounded(POS_MAX as int) && 0
                <= max_distance <= SETTING_MAX,
        }
    }

    pub open spec fn kind_spec(self) -> ReplyKind {
        match self {
            Query::MoveAndSlide { .. } => ReplyKind::Moved,
            Query::CastMove { .. } | Query::CastShape { .. } => ReplyKind::Swept,
            Query::Depenetrate { .. } => ReplyKind::Offset,
        }
    }

    /// The kind of reply that answers this query.
    pub fn kind(&self) -> (r: ReplyKind)
        ensures
            r == self.kind_spec(),
    {
        match self {
            Query::MoveAndSlide { .. } => ReplyKind::Moved,
            Query::CastMove { .. } | Query::CastShape { .. } => ReplyKind::Swept,
            Query::Depenetrate { .. } => ReplyKind::Offset,
        }
    }
}

impl Reply {
    pub open spec fn kind_spec(&self) -> ReplyKind {
        match self {
            Reply::Moved { .. } => ReplyKind::Moved,
            Reply::Swept(_) => ReplyKind::Swept,
            Reply::Offset(_) => ReplyKind::Offset,
        }
    }

    pub fn kind(&self) -> (r: ReplyKind)
        ensures
            r == self.kind_spec(),
    {
        match self {
            Reply::Moved { .. } => ReplyKind::Moved,
            Reply::Swept(_) => ReplyKind::Swept,
            Reply::Offset(_) => ReplyKind::Offset,
        }
    }
}

impl Stage {
    /// The kind of reply this stage waits for; none once the tick is done.
    pub open spec fn awaits(self) -> Option<ReplyKind> {
        match self {
            Stage::GroundDirect { .. } | Stage::GroundAcross { .. } | Stage::WallSnap { .. }
            | Stage::AirMove | Stage::SlamMove | Stage::Release => Some(ReplyKind::Moved),
            Stage::GroundRise { .. } | Stage::GroundDrop { .. } | Stage::WallProbe { .. }
            | Stage::SlamCheck | Stage::WallStick { .. } | Stage::SnapCast { .. }
            | Stage::GroundCheck => Some(ReplyKind::Swept),
            Stage::WallDepenetrate { .. } | Stage::SnapDepenetrate => Some(ReplyKind::Offset),
            Stage::Done => None,
        }
    }

    pub open spec fn answered_by(self, reply: &Reply) -> bool {
        self.awaits() == Some(reply.kind_spec())
    }

    pub open spec fn wf(self) -> bool {
        match self {
            Stage::GroundDirect { start_pos, start_vel, .. } => start_pos.bounded(POS_MAX as int)
                && start_vel.bounded(SPEED_MAX as int),
            Stage::GroundRise { start_pos, start_vel, ground_pos, ground_vel, .. } => start_pos.bounded(
                POS_MAX as int,
            ) && start_vel.bounded(SPEED_MAX as int) && ground_pos.bounded(POS_MAX as int)
                && ground_vel.bounded(SPEED_MAX as int),
            Stage::GroundAcross { start_pos, ground_pos, ground_vel, .. } => start_pos.bounded(
                POS_MAX as int,
            ) && ground_pos.bounded(POS_MAX as int) && ground_vel.bounded(SPEED_MAX as int),
            Stage::GroundDrop { start_pos, ground_pos, ground_vel, .. } => start_pos.bounded(
                POS_MAX as int,
            ) && ground_pos.bounded(POS_MAX as int) && ground_vel.bounded(SPEED_MAX as int),
            Stage::WallProbe { next, best, air } => next < 4 && air.wf() && (best matches Some(
                b,
            ) ==> b.normal.bounded(ONE as int)),
            Stage::WallSnap { normal, saved, air } => normal.bounded(ONE as int) && saved.bounded(
                SPEED_MAX as int,
            ) && air.wf(),
            Stage::WallDepenetrate { grab } => PlayerState::WallGrab(grab).wf(),
            Stage::WallStick { grab, offset } => PlayerState::WallGrab(grab).wf() && offset.bounded(
                POS_MAX as int,
            ),
            Stage::SnapCast { offset } => offset.bounded(POS_MAX as int),
            _ => true,
        }
    }
}

/// The body and mode of one character through one tick.
pub struct Mover {
    pub state: PlayerState,
    pub position: Vec3,
    pub velocity: Vec3,
    pub facing: Vec2,
    /// Feedback signals raised so far in this tick.
    pub messages: Vec<PlayerControllerMessage>,
    pub stage: Stage,
}

/// A hit brought into range: distance in `[0, POS_MAX]`, normal components in
/// `[-ONE, ONE]`.
pub open spec fn clean_hit_spec(hit: Option<Hit>) -> Option<Hit> {
    match hit {
        None => None,
        Some(h) => Some(
            Hit {
                distance: clamp(h.distance as int, 0, POS_MAX as int) as i64,
                normal: h.normal.saturate_spec(ONE as int),
            },
        ),
    }
}

fn clean_hit(hit: Option<Hit>) -> (r: Option<Hit>)
    ensures
        r == clean_hit_spec(hit),
        r matches Some(h) ==> h.wf(),
{
    match hit {
        None => None,
        Some(h) => Some(Hit { distance: clamp_i64(h.distance, 0, POS_MAX), normal: h.normal.saturate(ONE) }),
    }
}

/// The velocity after the first half step of gravity of a tick.
pub open spec fn fallen_spec(velocity: Vec3, state: PlayerState, s: PlayerControllerSettings, dt: int) -> Vec3 {
    Vec3 { y: half_gravity_spec(velocity.y as int, state.grounded_spec(), s, dt) as i64, ..velocity }
}

/// One axis of free flight: `c * dt * FLY_SPEED`.
pub open spec fn fly_spec(c: int, dt: int) -> int {
    fmul(fmul(c, dt), FLY_SPEED as int)
}

/// The displacement of one tick of free flight: along the input, up while jump is
/// held, down while slide is held.
pub open spec fn flight_spec(input: PlayerInput, dt: int) -> Vec3 {
    let up = (if input.jump.fire {
        ONE as int
    } else {
        0
    }) - (if input.slide.fire {
        ONE as int
    } else {
        0
    });
    Vec3 {
        x: fly_spec(input.movement.x as int, dt) as i64,
        y: fly_spec(up, dt) as i64,
        z: fly_spec(input.movement.y as int, dt) as i64,
    }
}

/// The messages with one more, if any.
pub open spec fn push_opt(msgs: Seq<PlayerControllerMessage>, m: Option<PlayerControllerMessage>) -> Seq<
    PlayerControllerMessage,
> {
    match m {
        Some(x) => msgs.push(x),
        None => msgs,
    }
}

/// `m` holds mode `st`, position `pos`, velocity `vel`, facing `facing` and
/// messages `msgs`.
pub open spec fn holds(
    m: Mover,
    st: PlayerState,
    pos: Vec3,
    vel: Vec3,
    facing: Vec2,
    msgs: Seq<PlayerControllerMessage>,
) -> bool {
    m.state == st && m.position == pos && m.velocity == vel && m.facing == facing && m.messages@ == msgs
}

/// The end of a tick from mode `st`, position `pos` and velocity `vel`: the second
/// half step of gravity, then the ground check's probe, or, rising faster than
/// `maximum_grounded_up_velocity`, the ground check without one.
pub open spec fn settles(
    st: PlayerState,
    pos: Vec3,
    vel: Vec3,
    facing: Vec2,
    msgs: Seq<PlayerControllerMessage>,
    m: Mover,
    r: Step,
    s: PlayerControllerSettings,
    dt: int,
) -> bool {
    let vy = half_gravity_spec(vel.y as int, st.grounded_spec(), s, dt);
    let v = Vec3 { y: vy as i64, ..vel };
    if vy <= s.maximum_grounded_up_velocity {
        holds(m, st, pos, v, facing, msgs) && m.stage == Stage::GroundCheck && r == Step::Ask(
            Query::CastShape { position: pos, direction: Axis::NegY, max_distance: GROUND_PROBE },
        )
    } else {
        holds(m, ground_check_spec(st, vy, None, s), pos, v, facing, msgs) && m.stage == Stage::Done
            && r == Step::Done
    }
}

/// After a mode's rule: on the ground the floor snap begins by moving out of any
/// overlap; otherwise the tick settles.
pub open spec fn finishes(
    st: PlayerState,
    pos: Vec3,
    vel: Vec3,
    facing: Vec2,
    msgs: Seq<PlayerControllerMessage>,
    m: Mover,
    r: Step,
    s: PlayerControllerSettings,
    dt: int,
) -> bool {
    if st.grounded_spec() {
        holds(m, st, pos, vel, facing, msgs) && m.stage == Stage::SnapDepenetrate && r == Step::Ask(
            Query::Depenetrate { position: pos },
        )
    } else {
        settles(st, pos, vel, facing, msgs, m, r, s, dt)
    }
}

/// What running does after the ground move: the vertical velocity is zeroed, then
/// a jump press jumps (signalled as a friction-grace jump when the speed was too
/// high within the grace), or a slide press starts a slide along the facing.
pub open spec fn after_ground_spec(
    after: AfterGround,
    st: PlayerState,
    vel: Vec3,
    facing: Vec2,
    s: PlayerControllerSettings,
    input: PlayerInput,
) -> (PlayerState, Vec3, Option<PlayerControllerMessage>) {
    match after {
        AfterGround::Slide => (st, vel, None),
        AfterGround::Run { too_fast, grace } => {
            let v0 = Vec3 { y: 0, ..vel };
            if input.jump.start {
                let j = ground_jump_spec(st, s);
                (
                    PlayerState::Air(j.1),
                    Vec3 { y: j.0 as i64, ..v0 },
                    Some(
                        if too_fast && grace {
                            PlayerControllerMessage::CoyoteFrictionJump
                        } else {
                            PlayerControllerMessage::GroundJump
                        },
                    ),
                )
            } else if input.slide.start && s.slide_enabled {
                (PlayerState::Sliding(SlidingState { direction: facing, timer: 0 }), v0, None)
            } else {
                (st, v0, None)
            }
        },
    }
}

/// The tick after the ground move ended at `pos` with `vel`.
pub open spec fn grounds_after(
    after: AfterGround,
    st: PlayerState,
    pos: Vec3,
    vel: Vec3,
    facing: Vec2,
    msgs: Seq<PlayerControllerMessage>,
    m: Mover,
    r: Step,
    s: PlayerControllerSettings,
    input: PlayerInput,
    dt: int,
) -> bool {
    let g = after_ground_spec(after, st, vel, facing, s, input);
    finishes(g.0, pos, g.1, facing, push_opt(msgs, g.2), m, r, s, dt)
}

/// The air rule after the wall search: a slam press starts a slam; otherwise
/// dash, jump and steering, then the move.
pub open spec fn air_rest_spec(
    air: AirState,
    pos: Vec3,
    vel: Vec3,
    facing: Vec2,
    msgs: Seq<PlayerControllerMessage>,
    m: Mover,
    r: Step,
    s: PlayerControllerSettings,
    input: PlayerInput,
    dt: int,
) -> bool {
    if s.slam_enabled && input.slide.start {
        finishes(PlayerState::Slam(SlamState { timer: 0 }), pos, vel, facing, msgs, m, r, s, dt)
    } else {
        let act = air_actions_spec(vel, air, facing, input, s, dt);
        holds(m, PlayerState::Air(act.1), pos, act.0, facing, push_opt(msgs, act.2)) && m.stage
            == Stage::AirMove && r == Step::Ask(
            Query::MoveAndSlide { position: pos, velocity: act.0, ground_plane: false },
        )
    }
}

/// The mode after a slam's ground check: a landing keeps the slam's jump boost.
pub open spec fn slam_landing_spec(st: PlayerState, vy: int, hit: Option<Hit>, s: PlayerControllerSettings) -> PlayerState {
    match ground_check_spec(st, vy, hit, s) {
        PlayerState::Grounded(g) => PlayerState::Grounded(GroundedState { jump_boost: true, ..g }),
        other => other,
    }
}

/// The grab kept for a wall hold: the air jumps are granted again.
pub open spec fn regrant(w: WallGrabState) -> WallGrabState {
    WallGrabState { prev_air_state: AirState { air_jumps: 0, ..w.prev_air_state }, ..w }
}

/// A mode's rule from its top, with the velocity after the first half step of
/// gravity, up to its first collision query.
pub open spec fn begins(
    st: PlayerState,
    pos: Vec3,
    vel: Vec3,
    facing: Vec2,
    msgs: Seq<PlayerControllerMessage>,
    m: Mover,
    r: Step,
    s: PlayerControllerSettings,
    input: PlayerInput,
    dt: int,
) -> bool {
    match st {
        PlayerState::Grounded(g) => {
            let run = run_spec(vel, g, input, s, dt);
            holds(m, PlayerState::Grounded(run.1), pos, run.0, facing, msgs) && m.stage
                == Stage::GroundDirect {
                start_pos: pos,
                start_vel: run.0,
                after: AfterGround::Run { too_fast: run.2, grace: run.3 },
            } && r == Step::Ask(Query::MoveAndSlide { position: pos, velocity: run.0, ground_plane: true })
        },
        PlayerState::Air(a) => {
            let pre = air_prelude_spec(vel, a, input, s, dt);
            if s.wall_grab_enabled && input.wall_grab.fire {
                holds(m, st, pos, pre.0, facing, msgs) && m.stage == Stage::WallProbe {
                    next: 0,
                    best: None,
                    air: pre.1,
                } && r == Step::Ask(
                    Query::CastShape {
                        position: pos,
                        direction: Axis::PosX,
                        max_distance: s.wall_grab_max_wall_distance,
                    },
                )
            } else {
                air_rest_spec(pre.1, pos, pre.0, facing, msgs, m, r, s, input, dt)
            }
        },
        PlayerState::Sliding(sl) => {
            let sd = slide_spec(vel, sl, input, s, dt);
            holds(m, sd.1, pos, sd.0, facing, msgs) && m.stage == Stage::GroundDirect {
                start_pos: pos,
                start_vel: sd.0,
                after: AfterGround::Slide,
            } && r == Step::Ask(Query::MoveAndSlide { position: pos, velocity: sd.0, ground_plane: true })
        },
        PlayerState::Slam(sl) => {
            let sm = slam_spec(sl, s, dt);
            holds(m, PlayerState::Slam(sm.1), pos, sm.0, facing, msgs) && m.stage == Stage::SlamMove
                && r == Step::Ask(Query::MoveAndSlide { position: pos, velocity: sm.0, ground_plane: false })
        },
        PlayerState::WallGrab(w) => {
            let grab = regrant(w);
            let f = facing_along_wall_spec(w.wall_normal);
            let zero = Vec3 { x: 0, y: 0, z: 0 };
            if !input.wall_grab.fire {
                holds(m, PlayerState::Air(release_spec(grab)), pos, zero, f, msgs) && m.stage
                    == Stage::Release && r == Step::Ask(
                    Query::MoveAndSlide { position: pos, velocity: zero, ground_plane: false },
                )
            } else if input.jump.start {
                let wj = wall_jump_spec(grab, s);
                holds(m, PlayerState::Air(wj.1), pos, wj.0, f, msgs) && m.stage == Stage::Release && r
                    == Step::Ask(Query::MoveAndSlide { position: pos, velocity: wj.0, ground_plane: false })
            } else {
                holds(m, PlayerState::WallGrab(grab), pos, zero, f, msgs) && m.stage
                    == Stage::WallDepenetrate { grab } && r == Step::Ask(Query::Depenetrate { position: pos })
            }
        },
    }
}

/// How the tick goes on from `old` when a move ended at `p` with velocity `v`.
pub open spec fn on_moved_spec(
    old: Mover,
    p: Vec3,
    v: Vec3,
    unimpeded: bool,
    contacts: Seq<Contact>,
    m: Mover,
    r: Step,
    s: PlayerControllerSettings,
    input: PlayerInput,
    dt: int,
) -> bool {
    let st = old.state;
    let facing = old.facing;
    let msgs = old.messages@;
    match old.stage {
        Stage::GroundDirect { start_pos, start_vel, after } => if unimpeded {
            grounds_after(after, st, p, v, facing, msgs, m, r, s, input, dt)
        } else {
            holds(m, st, start_pos, start_vel, facing, msgs) && m.stage == Stage::GroundRise {
                start_pos,
                start_vel,
                ground_pos: p,
                ground_vel: v,
                after,
            } && r == Step::Ask(
                Query::CastMove { position: start_pos, motion: Vec3 { x: 0, y: s.floor_snap, z: 0 }, skin: SKIN },
            )
        },
        Stage::GroundAcross { start_pos, ground_pos, ground_vel, after } => holds(m, st, p, v, facing, msgs)
            && m.stage == Stage::GroundDrop { start_pos, ground_pos, ground_vel, after } && r == Step::Ask(
            Query::CastMove { position: p, motion: Vec3 { x: 0, y: -s.step as i64, z: 0 }, skin: SKIN },
        ),
        Stage::WallSnap { normal, saved, air } => finishes(
            PlayerState::WallGrab(WallGrabState { wall_normal: normal, prev_air_state: air }),
            p,
            saved,
            facing,
            msgs,
            m,
            r,
            s,
            dt,
        ),
        Stage::SlamMove => match last_floor_contact(contacts, s.min_floor_angle as int) {
            None => finishes(st, p, v, facing, msgs, m, r, s, dt),
            Some(point) => {
                let msgs2 = msgs.push(PlayerControllerMessage::Slam(point));
                if v.y <= s.maximum_grounded_up_velocity {
                    holds(m, st, p, v, facing, msgs2) && m.stage == Stage::SlamCheck && r == Step::Ask(
                        Query::CastShape { position: p, direction: Axis::NegY, max_distance: GROUND_PROBE },
                    )
                } else {
                    finishes(slam_landing_spec(st, v.y as int, None, s), p, v, facing, msgs2, m, r, s, dt)
                }
            },
        },
        _ => finishes(st, p, v, facing, msgs, m, r, s, dt),
    }
}

/// How the tick goes on from `old` when a sweep or probe met `hit`.
pub open spec fn on_swept_spec(
    old: Mover,
    hit: Option<Hit>,
    m: Mover,
    r: Step,
    s: PlayerControllerSettings,
    input: PlayerInput,
    dt: int,
) -> bool {
    let st = old.state;
    let pos = old.position;
    let vel = old.velocity;
    let facing = old.facing;
    let msgs = old.messages@;
    match old.stage {
        Stage::GroundRise { start_pos, start_vel, ground_pos, ground_vel, after } => {
            let up = match hit {
                Some(h) => h.distance,
                None => s.floor_snap,
            };
            let raised = start_pos.add_sat_spec(Vec3 { x: 0, y: up, z: 0 }, POS_MAX as int);
            holds(m, st, raised, start_vel, facing, msgs) && m.stage == Stage::GroundAcross {
                start_pos,
                ground_pos,
                ground_vel,
                after,
            } && r == Step::Ask(Query::MoveAndSlide { position: raised, velocity: start_vel, ground_plane: false })
        },
        Stage::GroundDrop { start_pos, ground_pos, ground_vel, after } => {
            let c = step_choice_spec(start_pos, ground_pos, ground_vel, pos, vel, hit, s);
            grounds_after(after, st, c.0, c.1, facing, msgs, m, r, s, input, dt)
        },
        Stage::WallProbe { next, best, air } => {
            let b = pick_wall_spec(
                best,
                wall_candidate_spec(hit, probe_axis_spec(next as int), vel.horizontal_spec(), facing, s),
            );
            if next < 3 {
                holds(m, st, pos, vel, facing, msgs) && m.stage == Stage::WallProbe {
                    next: (next + 1) as u8,
                    best: b,
                    air,
                } && r == Step::Ask(
                    Query::CastShape {
                        position: pos,
                        direction: probe_axis_spec(next + 1),
                        max_distance: s.wall_grab_max_wall_distance,
                    },
                )
            } else {
                match b {
                    None => air_rest_spec(air, pos, vel, facing, msgs, m, r, s, input, dt),
                    Some(c) => {
                        let push = c.axis.unit_spec().scaled_spec(s.wall_grab_max_wall_distance as int);
                        holds(m, st, pos, push, facing, msgs) && m.stage == Stage::WallSnap {
                            normal: c.normal,
                            saved: vel,
                            air,
                        } && r == Step::Ask(Query::MoveAndSlide { position: pos, velocity: push, ground_plane: false })
                    },
                }
            }
        },
        Stage::SlamCheck => finishes(slam_landing_spec(st, vel.y as int, hit, s), pos, vel, facing, msgs, m, r, s, dt),
        Stage::WallStick { grab, offset } => match hit {
            Some(h) => finishes(
                st,
                pos.add_sat_spec(offset, POS_MAX as int).add_sat_spec(
                    neg_spec(grab.wall_normal).scaled_spec(h.distance as int),
                    POS_MAX as int,
                ),
                vel,
                facing,
                msgs,
                m,
                r,
                s,
                dt,
            ),
            None => holds(m, PlayerState::Air(release_spec(grab)), pos, vel, facing, msgs) && m.stage
                == Stage::Release && r == Step::Ask(
                Query::MoveAndSlide { position: pos, velocity: vel, ground_plane: false },
            ),
        },
        Stage::SnapCast { offset } => {
            let sn = snap_spec(pos, vel.y as int, offset, hit, s);
            settles(st, sn.0, Vec3 { y: sn.1 as i64, ..vel }, facing, msgs, m, r, s, dt)
        },
        _ => holds(m, ground_check_spec(st, vel.y as int, hit, s), pos, vel, facing, msgs) && m.stage
            == Stage::Done && r == Step::Done,
    }
}

/// How the tick goes on from `old` once moved out of overlap by `o`.
pub open spec fn on_offset_spec(old: Mover, o: Vec3, m: Mover, r: Step, s: PlayerControllerSettings) -> bool {
    let from = old.position.add_sat_spec(o, POS_MAX as int);
    holds(m, old.state, old.position, old.velocity, old.facing, old.messages@) && match old.stage {
        Stage::WallDepenetrate { grab } => m.stage == Stage::WallStick { grab, offset: o } && r == Step::Ask(
            Query::CastMove {
                position: from,
                motion: neg_spec(grab.wall_normal).scaled_spec(s.wall_grab_max_wall_distance as int),
                skin: SKIN,
            },
        ),
        _ => m.stage == Stage::SnapCast { offset: o } && r == Step::Ask(
            Query::CastMove { position: from, motion: Vec3 { x: 0, y: -s.floor_snap as i64, z: 0 }, skin: SKIN },
        ),
    }
}

/// A hit on flat floor right under the character.
pub open spec fn floor_hit() -> Hit {
    Hit { distance: 0, normal: Vec3 { x: 0, y: ONE, z: 0 } }
}

/// An idle tick on flat ground keeps the character grounded, in place, at rest
/// and silent. The tick begins grounded with no velocity and no movement, jump or
/// slide input; the level answers as flat floor under the character touches it:
/// the move meets nothing and stays put, there is no overlap, and both downward
/// probes meet floor at once. Replies in range pass `resume`'s clamping
/// unchanged, so `m1` to `m5` are the mover after `start` and each `resume`.
pub proof fn lemma_idle_tick_stays_grounded(
    g: GroundedState,
    pos: Vec3,
    facing: Vec2,
    s: PlayerControllerSettings,
    input: PlayerInput,
    dt: int,
    m1: Mover,
    r1: Step,
    m2: Mover,
    r2: Step,
    m3: Mover,
    r3: Step,
    m4: Mover,
    r4: Step,
    m5: Mover,
    r5: Step,
)
    requires
        s.wf(),
        !s.flycam,
        valid_dt(dt),
        PlayerState::Grounded(g).wf(),
        pos.bounded(POS_MAX as int),
        input.movement == (Vec2 { x: 0, y: 0 }),
        !input.jump.start,
        !input.slide.start,
        s.terminal_velocity >= 0,
        s.maximum_grounded_up_velocity >= 0,
        s.min_floor_angle < ONE,
        s.run_speed + RUN_MARGIN >= 0,
        begins(
            PlayerState::Grounded(g),
            pos,
            fallen_spec(Vec3 { x: 0, y: 0, z: 0 }, PlayerState::Grounded(g), s, dt),
            facing,
            Seq::empty(),
            m1,
            r1,
            s,
            input,
            dt,
        ),
        on_moved_spec(m1, pos, Vec3 { x: 0, y: 0, z: 0 }, true, Seq::empty(), m2, r2, s, input, dt),
        on_offset_spec(m2, Vec3 { x: 0, y: 0, z: 0 }, m3, r3, s),
        on_swept_spec(m3, Some(floor_hit()), m4, r4, s, input, dt),
        on_swept_spec(m4, Some(floor_hit()), m5, r5, s, input, dt),
    ensures
        r5 is Done,
        m5.state is Grounded,
        m5.position == pos,
        m5.velocity == (Vec3 { x: 0, y: 0, z: 0 }),
        m5.messages@ == Seq::<PlayerControllerMessage>::empty(),
{
    let zero = Vec3 { x: 0, y: 0, z: 0 };
    assert(fallen_spec(zero, PlayerState::Grounded(g), s, dt) == zero);
    assert(zero.horizontal_spec().dot_spec(zero.horizontal_spec()) == 0);
    crate::fixed::lemma_sqrt_floor(0, 0);
    let run = run_spec(zero, g, input, s, dt);
    assert(0 * (input.speed_modifier as int) == 0);
    assert(crate::fixed::fmul(0, input.speed_modifier as int) == 0);
    assert(0 * (s.run_speed as int) == 0);
    assert(crate::fixed::fmul(0, s.run_speed as int) == 0);
    assert(crate::ground::run_component(0, input.speed_modifier as int, s.run_speed as int) == 0);
    assert(run.0 == zero);
    assert(m1.stage == Stage::GroundDirect { start_pos: pos, start_vel: zero, after: AfterGround::Run { too_fast: run.2, grace: run.3 } });
    assert(m2.state == PlayerState::Grounded(run.1));
    assert(m2.stage == Stage::SnapDepenetrate);
    assert(pos.add_sat_spec(zero, POS_MAX as int) == pos);
    assert(m3.stage == Stage::SnapCast { offset: zero });
    assert(m4.position == pos);
    assert(m4.stage == Stage::GroundCheck);
}

impl Mover {
    /// Values in range, the stage's keepings too, and the fall held to terminal
    /// velocity once the last half step of gravity is done.
    pub open spec fn wf(&self, s: &PlayerControllerSettings) -> bool {
        &&& self.state.wf()
        &&& self.position.bounded(POS_MAX as int)
        &&& self.velocity.bounded(SPEED_MAX as int)
        &&& within(self.facing.x as int, ONE as int)
        &&& within(self.facing.y as int, ONE as int)
        &&& self.stage.wf()
        &&& (self.stage is GroundCheck ==> self.velocity.y >= -s.terminal_velocity)
    }

    /// What a step tells the caller agrees with where the mover stands: a query is
    /// in range and the mover waits for its kind of reply, and a finished tick
    /// (other than free flight) leaves the fall held to terminal velocity.
    pub open spec fn reports(&self, r: Step, s: &PlayerControllerSettings) -> bool {
        &&& (r is Done <==> self.stage is Done)
        &&& (r matches Step::Ask(q) ==> q.wf() && self.stage.awaits() == Some(q.kind_spec()))
        &&& (r is Done && !s.flycam ==> self.velocity.y >= -s.terminal_velocity)
    }

    /// The kind of reply the mover waits for, if any.
    pub fn awaits(&self) -> (r: Option<ReplyKind>)
        ensures
            r == self.stage.awaits(),
    {
        match self.stage {
            Stage::GroundDirect { .. } | Stage::GroundAcross { .. } | Stage::WallSnap { .. }
            | Stage::AirMove | Stage::SlamMove | Stage::Release => Some(ReplyKind::Moved),
            Stage::GroundRise { .. } | Stage::GroundDrop { .. } | Stage::WallProbe { .. }
            | Stage::SlamCheck | Stage::WallStick { .. } | Stage::SnapCast { .. }
            | Stage::GroundCheck => Some(ReplyKind::Swept),
            Stage::WallDepenetrate { .. } | Stage::SnapDepenetrate => Some(ReplyKind::Offset),
            Stage::Done => None,
        }
    }

    /// Begins a tick. In free flight the character moves by the input and the
    /// tick is done; otherwise the first half step of gravity is applied and the
    /// mode's rule runs up to its first collision query.
    pub fn start(
        state: PlayerState,
        position: Vec3,
        velocity: Vec3,
        facing: Vec2,
        s: &PlayerControllerSettings,
        input: &PlayerInput,
        dt: i64,
    ) -> (r: (Mover, Step))
        requires
            s.wf(),
            input.wf(),
            valid_dt(dt as int),
            state.wf(),
            position.bounded(POS_MAX as int),
            velocity.bounded(SPEED_MAX as int),
            within(facing.x as int, ONE as int),
            within(facing.y as int, ONE as int),
        ensures
            r.0.wf(s),
            r.0.reports(r.1, s),
            s.flycam ==> r.1 is Done && holds(
                r.0,
                state,
                position.add_sat_spec(flight_spec(*input, dt as int), POS_MAX as int),
                velocity,
                facing,
                Seq::empty(),
            ),
            !s.flycam ==> begins(
                state,
                position,
                fallen_spec(velocity, state, *s, dt as int),
                facing,
                Seq::empty(),
                r.0,
                r.1,
                *s,
                *input,
                dt as int,
            ),
    {
        let mut m = Mover { state, position, velocity, facing, messages: Vec::new(), stage: Stage::Done };
        if s.flycam {
            let up: i64 = if input.jump.fire {
                ONE
            } else {
                0
            } - if input.slide.fire {
                ONE
            } else {
                0
            };
            let step = Vec3 { x: fly(input.movement.x, dt), y: fly(up, dt), z: fly(input.movement.y, dt) };
            m.position = position.add_sat(step, POS_MAX);
            return (m, Step::Done);
        }
        let grounded = m.state.grounded();
        m.velocity.y = half_gravity(m.velocity.y, grounded, s, dt);
        let r = m.begin_update(s, input, dt);
        (m, r)
    }

    /// Continues the tick with the answer to the last query. Reply values are
    /// first held to range: positions and offsets to `POS_MAX`, velocities to
    /// `SPEED_MAX`, hit distances to `[0, POS_MAX]` and normals to `[-ONE, ONE]`.
    pub fn resume(&mut self, reply: Reply, s: &PlayerControllerSettings, input: &PlayerInput, dt: i64) -> (r: Step)
        requires
            s.wf(),
            input.wf(),
            valid_dt(dt as int),
            old(self).wf(s),
            old(self).stage.answered_by(&reply),
        ensures
            final(self).wf(s),
            final(self).reports(r, s),
            match reply {
                Reply::Moved { position, velocity, unimpeded, contacts } => on_moved_spec(
                    *old(self),
                    position.saturate_spec(POS_MAX as int),
                    velocity.saturate_spec(SPEED_MAX as int),
                    unimpeded,
                    contacts@,
                    *final(self),
                    r,
                    *s,
                    *input,
                    dt as int,
                ),
                Reply::Swept(h) => on_swept_spec(*old(self), clean_hit_spec(h), *final(self), r, *s, *input, dt as int),
                Reply::Offset(o) => on_offset_spec(*old(self), o.saturate_spec(POS_MAX as int), *final(self), r, *s),
            },
    {
        let stage = self.stage;
        match reply {
            Reply::Moved { position, velocity, unimpeded, contacts } => {
                let p = position.saturate(POS_MAX);
                let v = velocity.saturate(SPEED_MAX);
                self.on_moved(stage, p, v, unimpeded, &contacts, s, input, dt)
            },
            Reply::Swept(hit) => {
                let h = clean_hit(hit);
                self.on_swept(stage, h, s, input, dt)
            },
            Reply::Offset(o) => {
                let o = o.saturate(POS_MAX);
                self.on_offset(stage, o, s)
            },
        }
    }

    fn ask(&mut self, stage: Stage, q: Query) -> (r: Step)
        ensures
            *final(self) == (Mover { stage, ..*old(self) }),
            r == Step::Ask(q),
    {
        self.stage = stage;
        Step::Ask(q)
    }

    /// The mode's rule, from the top.
    fn begin_update(&mut self, s: &PlayerControllerSettings, input: &PlayerInput, dt: i64) -> (r: Step)
        requires
            !(old(self).stage is GroundCheck),
            s.wf(),
            input.wf(),
            valid_dt(dt as int),
            old(self).wf(s),
        ensures
            final(self).wf(s),
            final(self).reports(r, s),
            begins(
                old(self).state,
                old(self).position,
                old(self).velocity,
                old(self).facing,
                old(self).messages@,
                *final(self),
                r,
                *s,
                *input,
                dt as int,
            ),
    {
        match self.state {
            PlayerState::Grounded(g) => {
                let (v, g1, too_fast, grace) = run(self.velocity, g, input, s, dt);
                self.state = PlayerState::Grounded(g1);
                self.velocity = v;
                self.ground_move(AfterGround::Run { too_fast, grace }, s)
            },
            PlayerState::Air(a) => {
                let (v, air) = air_prelude(self.velocity, a, input, s, dt);
                self.velocity = v;
                if s.wall_grab_enabled && input.wall_grab.fire {
                    let q = Query::CastShape {
                        position: self.position,
                        direction: Axis::PosX,
                        max_distance: s.wall_grab_max_wall_distance,
                    };
                    return self.ask(Stage::WallProbe { next: 0, best: None, air }, q);
                }
                self.air_rest(air, s, input, dt)
            },
            PlayerState::Sliding(sl) => {
                let (v, st) = slide(self.velocity, sl, input, s, dt);
                self.velocity = v;
                self.state = st;
                self.ground_move(AfterGround::Slide, s)
            },
            PlayerState::Slam(sl) => {
                let (v, sl1) = slam(sl, s, dt);
                self.velocity = v;
                self.state = PlayerState::Slam(sl1);
                let q = Query::MoveAndSlide { position: self.position, velocity: v, ground_plane: false };
                self.ask(Stage::SlamMove, q)
            },
            PlayerState::WallGrab(w) => {
                let mut grab = w;
                grab.prev_air_state.air_jumps = 0;
                self.velocity = Vec3::zero();
                self.facing = facing_along_wall(grab.wall_normal);
                if !input.wall_grab.fire {
                    self.state = PlayerState::Air(release(&grab));
                    let q = Query::MoveAndSlide { position: self.position, velocity: self.velocity, ground_plane: false };
                    return self.ask(Stage::Release, q);
                }
                if input.jump.start {
                    let (v, a1) = wall_jump(&grab, s);
                    self.velocity = v;
                    self.state = PlayerState::Air(a1);
                    let q = Query::MoveAndSlide { position: self.position, velocity: v, ground_plane: false };
                    return self.ask(Stage::Release, q);
                }
                self.state = PlayerState::WallGrab(grab);
                self.ask(Stage::WallDepenetrate { grab }, Query::Depenetrate { position: self.position })
            },
        }
    }

    /// The air rule after the wall search: slam, dash, jump, steering, then the move.
    fn air_rest(&mut self, air: AirState, s: &PlayerControllerSettings, input: &PlayerInput, dt: i64) -> (r: Step)
        requires
            !(old(self).stage is GroundCheck),
            s.wf(),
            input.wf(),
            valid_dt(dt as int),
            old(self).wf(s),
            air.wf(),
        ensures
            final(self).wf(s),
            final(self).reports(r, s),
            air_rest_spec(
                air,
                old(self).position,
                old(self).velocity,
                old(self).facing,
                old(self).messages@,
                *final(self),
                r,
                *s,
                *input,
                dt as int,
            ),
    {
        if s.slam_enabled && input.slide.start {
            self.state = PlayerState::Slam(SlamState { timer: 0 });
            return self.finish_update(s, dt);
        }
        let (v3, a2, msg) = air_actions(self.velocity, air, self.facing, input, s, dt);
        if let Some(m) = msg {
            self.messages.push(m);
        }
        self.velocity = v3;
        self.state = PlayerState::Air(a2);
        let q = Query::MoveAndSlide { position: self.position, velocity: v3, ground_plane: false };
        self.ask(Stage::AirMove, q)
    }

    /// Moves along the ground, trying a step when the direct move is impeded.
    fn ground_move(&mut self, after: AfterGround, s: &PlayerControllerSettings) -> (r: Step)
        requires
            old(self).position.bounded(POS_MAX as int),
            old(self).velocity.bounded(SPEED_MAX as int),
        ensures
            *final(self) == (Mover {
                stage: Stage::GroundDirect {
                    start_pos: old(self).position,
                    start_vel: old(self).velocity,
                    after,
                },
                ..*old(self)
            }),
            final(self).reports(r, s),
            r == Step::Ask(
                Query::MoveAndSlide { position: old(self).position, velocity: old(self).velocity, ground_plane: true },
            ),
    {
        let q = Query::MoveAndSlide { position: self.position, velocity: self.velocity, ground_plane: true };
        self.ask(Stage::GroundDirect { start_pos: self.position, start_vel: self.velocity, after }, q)
    }

    /// What the running and sliding rules do after the ground move.
    fn after_ground(&mut self, after: AfterGround, s: &PlayerControllerSettings, input: &PlayerInput, dt: i64) -> (r: Step)
        requires
            !(old(self).stage is GroundCheck),
            s.wf(),
            valid_dt(dt as int),
            old(self).wf(s),
        ensures
            final(self).wf(s),
            final(self).reports(r, s),
            grounds_after(
                after,
                old(self).state,
                old(self).position,
                old(self).velocity,
                old(self).facing,
                old(self).messages@,
                *final(self),
                r,
                *s,
                *input,
                dt as int,
            ),
    {
        if let AfterGround::Run { too_fast, grace } = after {
            self.velocity.y = 0;
            if input.jump.start {
                let (vy, a) = ground_jump(&self.state, s);
                self.state = PlayerState::Air(a);
                self.velocity.y = vy;
                if too_fast && grace {
                    self.messages.push(PlayerControllerMessage::CoyoteFrictionJump);
                } else {
                    self.messages.push(PlayerControllerMessage::GroundJump);
                }
            } else if input.slide.start && s.slide_enabled {
                self.state = PlayerState::Sliding(SlidingState { direction: self.facing, timer: 0 });
            }
        }
        self.finish_update(s, dt)
    }

    /// After the mode's rule: snap to the floor on the ground, then the rest.
    fn finish_update(&mut self, s: &PlayerControllerSettings, dt: i64) -> (r: Step)
        requires
            !(old(self).stage is GroundCheck),
            s.wf(),
            valid_dt(dt as int),
            old(self).wf(s),
        ensures
            final(self).wf(s),
            final(self).reports(r, s),
            finishes(
                old(self).state,
                old(self).position,
                old(self).velocity,
                old(self).facing,
                old(self).messages@,
                *final(self),
                r,
                *s,
                dt as int,
            ),
    {
        if self.state.grounded() {
            let q = Query::Depenetrate { position: self.position };
            return self.ask(Stage::SnapDepenetrate, q);
        }
        self.after_snap(s, dt)
    }

    /// The second half step of gravity, then the ground check.
    fn after_snap(&mut self, s: &PlayerControllerSettings, dt: i64) -> (r: Step)
        requires
            s.wf(),
            valid_dt(dt as int),
            old(self).wf(s),
        ensures
            final(self).wf(s),
            final(self).reports(r, s),
            settles(
                old(self).state,
                old(self).position,
                old(self).velocity,
                old(self).facing,
                old(self).messages@,
                *final(self),
                r,
                *s,
                dt as int,
            ),
    {
        let grounded = self.state.grounded();
        self.velocity.y = half_gravity(self.velocity.y, grounded, s, dt);
        if self.velocity.y <= s.maximum_grounded_up_velocity {
            let q = Query::CastShape { position: self.position, direction: Axis::NegY, max_distance: GROUND_PROBE };
            return self.ask(Stage::GroundCheck, q);
        }
        self.state = ground_check(self.state, self.velocity.y, None, s);
        self.stage = Stage::Done;
        Step::Done
    }

    fn on_moved(
        &mut self,
        stage: Stage,
        p: Vec3,
        v: Vec3,
        unimpeded: bool,
        contacts: &Vec<Contact>,
        s: &PlayerControllerSettings,
        input: &PlayerInput,
        dt: i64,
    ) -> (r: Step)
        requires
            s.wf(),
            input.wf(),
            valid_dt(dt as int),
            old(self).wf(s),
            stage == old(self).stage,
            stage.awaits() == Some(ReplyKind::Moved),
            p.bounded(POS_MAX as int),
            v.bounded(SPEED_MAX as int),
        ensures
            final(self).wf(s),
            final(self).reports(r, s),
            on_moved_spec(*old(self), p, v, unimpeded, contacts@, *final(self), r, *s, *input, dt as int),
    {
        match stage {
            Stage::GroundDirect { start_pos, start_vel, after } => {
                if unimpeded {
                    self.position = p;
                    self.velocity = v;
                    return self.after_ground(after, s, input, dt);
                }
                self.position = start_pos;
                self.velocity = start_vel;
                let q = Query::CastMove {
                    position: start_pos,
                    motion: Vec3 { x: 0, y: s.floor_snap, z: 0 },
                    skin: SKIN,
                };
                self.ask(Stage::GroundRise { start_pos, start_vel, ground_pos: p, ground_vel: v, after }, q)
            },
            Stage::GroundAcross { start_pos, ground_pos, ground_vel, after } => {
                self.position = p;
                self.velocity = v;
                let q = Query::CastMove { position: p, motion: Vec3 { x: 0, y: -s.step, z: 0 }, skin: SKIN };
                self.ask(Stage::GroundDrop { start_pos, ground_pos, ground_vel, after }, q)
            },
            Stage::WallSnap { normal, saved, air } => {
                self.position = p;
                self.velocity = saved;
                self.state = PlayerState::WallGrab(WallGrabState::new(normal, air));
                self.finish_update(s, dt)
            },
            Stage::SlamMove => {
                self.position = p;
                self.velocity = v;
                match floor_contact(contacts, s.min_floor_angle) {
                    None => self.finish_update(s, dt),
                    Some(point) => {
                        self.messages.push(PlayerControllerMessage::Slam(point));
                        if self.velocity.y <= s.maximum_grounded_up_velocity {
                            let q = Query::CastShape {
                                position: self.position,
                                direction: Axis::NegY,
                                max_distance: GROUND_PROBE,
                            };
                            return self.ask(Stage::SlamCheck, q);
                        }
                        self.land_slam(None, s, dt)
                    },
                }
            },
            _ => {
                self.position = p;
                self.velocity = v;
                self.finish_update(s, dt)
            },
        }
    }

    /// The ground check of a slam that hit floor: landing keeps the slam's jump boost.
    fn land_slam(&mut self, hit: Option<Hit>, s: &PlayerControllerSettings, dt: i64) -> (r: Step)
        requires
            !(old(self).stage is GroundCheck),
            s.wf(),
            valid_dt(dt as int),
            old(self).wf(s),
        ensures
            final(self).wf(s),
            final(self).reports(r, s),
            finishes(
                slam_landing_spec(old(self).state, old(self).velocity.y as int, hit, *s),
                old(self).position,
                old(self).velocity,
                old(self).facing,
                old(self).messages@,
                *final(self),
                r,
                *s,
                dt as int,
            ),
    {
        let st = ground_check(self.state, self.velocity.y, hit, s);
        self.state = match st {
            PlayerState::Grounded(g) => PlayerState::Grounded(GroundedState { jump_boost: true, ..g }),
            other => other,
        };
        self.finish_update(s, dt)
    }

    fn on_swept(
        &mut self,
        stage: Stage,
        hit: Option<Hit>,
        s: &PlayerControllerSettings,
        input: &PlayerInput,
        dt: i64,
    ) -> (r: Step)
        requires
            s.wf(),
            input.wf(),
            valid_dt(dt as int),
            old(self).wf(s),
            stage == old(self).stage,
            stage.awaits() == Some(ReplyKind::Swept),
            hit matches Some(h) ==> h.wf(),
        ensures
            final(self).wf(s),
            final(self).reports(r, s),
            on_swept_spec(*old(self), hit, *final(self), r, *s, *input, dt as int),
    {
        match stage {
            Stage::GroundRise { start_pos, start_vel, ground_pos, ground_vel, after } => {
                let up = match hit {
                    Some(h) => h.distance,
                    None => s.floor_snap,
                };
                let raised = start_pos.add_sat(Vec3 { x: 0, y: up, z: 0 }, POS_MAX);
                self.position = raised;
                self.velocity = start_vel;
                let q = Query::MoveAndSlide { position: raised, velocity: start_vel, ground_plane: false };
                self.ask(Stage::GroundAcross { start_pos, ground_pos, ground_vel, after }, q)
            },
            Stage::GroundDrop { start_pos, ground_pos, ground_vel, after } => {
                let (p, v) = step_choice(start_pos, ground_pos, ground_vel, self.position, self.velocity, hit, s);
                self.position = p;
                self.velocity = v;
                self.after_ground(after, s, input, dt)
            },
            Stage::WallProbe { next, best, air } => {
                let cand = wall_candidate(hit, probe_axis(next), self.velocity.horizontal(), self.facing, s);
                let best = pick_wall(best, cand);
                if next < 3 {
                    let q = Query::CastShape {
                        position: self.position,
                        direction: probe_axis(next + 1),
                        max_distance: s.wall_grab_max_wall_distance,
                    };
                    return self.ask(Stage::WallProbe { next: next + 1, best, air }, q);
                }
                match best {
                    None => self.air_rest(air, s, input, dt),
                    Some(c) => {
                        let saved = self.velocity;
                        let push = c.axis.unit().scaled(s.wall_grab_max_wall_distance);
                        self.velocity = push;
                        let q = Query::MoveAndSlide { position: self.position, velocity: push, ground_plane: false };
                        self.ask(Stage::WallSnap { normal: c.normal, saved, air }, q)
                    },
                }
            },
            Stage::SlamCheck => self.land_slam(hit, s, dt),
            Stage::WallStick { grab, offset } => match hit {
                Some(h) => {
                    let held = self.position.add_sat(offset, POS_MAX);
                    let back = grab.wall_normal.neg().scaled(h.distance);
                    self.position = held.add_sat(back, POS_MAX);
                    self.finish_update(s, dt)
                },
                None => {
                    self.state = PlayerState::Air(release(&grab));
                    let q = Query::MoveAndSlide { position: self.position, velocity: self.velocity, ground_plane: false };
                    self.ask(Stage::Release, q)
                },
            },
            Stage::SnapCast { offset } => {
                let (p, vy) = snap(self.position, self.velocity.y, offset, hit, s);
                self.position = p;
                self.velocity.y = vy;
                self.after_snap(s, dt)
            },
            _ => {
                self.state = ground_check(self.state, self.velocity.y, hit, s);
                self.stage = Stage::Done;
                Step::Done
            },
        }
    }

    fn on_offset(&mut self, stage: Stage, o: Vec3, s: &PlayerControllerSettings) -> (r: Step)
        requires
            s.wf(),
            old(self).wf(s),
            stage == old(self).stage,
            stage.awaits() == Some(ReplyKind::Offset),
            o.bounded(POS_MAX as int),
        ensures
            final(self).wf(s),
            final(self).reports(r, s),
            on_offset_spec(*old(self), o, *final(self), r, *s),
    {
        let from = self.position.add_sat(o, POS_MAX);
        match stage {
            Stage::WallDepenetrate { grab } => {
                let motion = grab.wall_normal.neg().scaled(s.wall_grab_max_wall_distance);
                let q = Query::CastMove { position: from, motion, skin: SKIN };
                self.ask(Stage::WallStick { grab, offset: o }, q)
            },
            _ => {
                let q = Query::CastMove { position: from, motion: Vec3 { x: 0, y: -s.floor_snap, z: 0 }, skin: SKIN };
                self.ask(Stage::SnapCast { offset: o }, q)
            },
        }
    }
}

/// One axis of the free-flying displacement: `c * dt * FLY_SPEED`.
fn fly(c: i64, dt: i64) -> (r: i64)
    requires
        within(c as int, ONE as int),
        valid_dt(dt as int),
    ensures
        r == fly_spec(c as int, dt as int),
        within(r as int, 2 * POS_MAX),
{
    let a = fx_mul(c, dt);
    proof {
        lemma_fmul_bound(c as int, dt as int, ONE as int, SETTING_MAX as int);
    }
    let r = fx_mul(a, FLY_SPEED);
    proof {
        lemma_fmul_bound(a as int, FLY_SPEED as int, SETTING_MAX as int, SETTING_MAX as int);
    }
    r
}

} // verus!
