use dreamseeker::fixed::ONE;
use dreamseeker::ground::Hit;
use dreamseeker::input::{ActionEvents, PlayerInput};
use dreamseeker::motion::Contact;
use dreamseeker::mover::{Mover, Query, Reply, ReplyKind, Step};
use dreamseeker::settings::PlayerControllerSettings;
use dreamseeker::state::{AirState, GroundedState, PlayerControllerMessage, PlayerState};
use dreamseeker::vector::{Axis, Vec2, Vec3};

const DT: i64 = 1024;

/// A level for a point-sized character: flat floor at height 0 for `x < edge`,
/// and at `height` from `edge` on (a ledge when positive, a drop when negative).
struct World {
    edge: i64,
    height: i64,
}

fn up() -> Vec3 {
    Vec3::new(0, ONE, 0)
}

impl World {
    fn floor_at(&self, x: i64) -> i64 {
        if x >= self.edge {
            self.height
        } else {
            0
        }
    }

    fn answer(&self, q: Query) -> Reply {
        match q {
            Query::MoveAndSlide { position: p, velocity: v, .. } => {
                let mut t = Vec3::new(p.x + v.x * DT / ONE, p.y + v.y * DT / ONE, p.z + v.z * DT / ONE);
                let mut vel = v;
                let mut contacts = Vec::new();
                if p.x < self.edge && t.x >= self.edge && t.y < self.height {
                    t.x = self.edge - 1;
                    vel.x = 0;
                    contacts.push(Contact { point: t, normal: Vec3::new(-ONE, 0, 0) });
                }
                let f = self.floor_at(t.x);
                if t.y < f {
                    t.y = f;
                    if vel.y < 0 {
                        vel.y = 0;
                    }
                    contacts.push(Contact { point: t, normal: up() });
                }
                Reply::Moved { position: t, velocity: vel, unimpeded: contacts.is_empty(), contacts }
            }
            Query::CastMove { position: p, motion: m, .. } => {
                if m.y < 0 {
                    let gap = p.y - self.floor_at(p.x);
                    if gap <= -m.y {
                        return Reply::Swept(Some(Hit { distance: gap.max(0), normal: up() }));
                    }
                }
                Reply::Swept(None)
            }
            Query::Depenetrate { position: p } => {
                let f = self.floor_at(p.x);
                Reply::Offset(Vec3::new(0, if p.y < f { f - p.y } else { 0 }, 0))
            }
            Query::CastShape { position: p, direction, max_distance } => {
                if direction == Axis::NegY {
                    let gap = p.y - self.floor_at(p.x);
                    if gap <= max_distance {
                        return Reply::Swept(Some(Hit { distance: gap.max(0), normal: up() }));
                    }
                }
                Reply::Swept(None)
            }
        }
    }

    fn tick(
        &self,
        state: PlayerState,
        position: Vec3,
        velocity: Vec3,
        s: &PlayerControllerSettings,
        input: &PlayerInput,
    ) -> Mover {
        let (mut m, mut step) = Mover::start(state, position, velocity, Vec2::new(ONE, 0), s, input, DT);
        let mut asked = 0;
        while let Step::Ask(q) = step {
            asked += 1;
            assert!(asked < 50);
            let reply = self.answer(q);
            assert_eq!(m.awaits(), Some(reply.kind()));
            assert_eq!(q.kind(), reply.kind());
            step = m.resume(reply, s, input, DT);
        }
        m
    }
}

fn running() -> PlayerInput {
    let mut i = PlayerInput::idle();
    i.movement = Vec2::new(ONE, 0);
    i.speed_modifier = ONE;
    i
}

fn settled() -> PlayerState {
    PlayerState::Grounded(GroundedState { ground_time: 3072, jump_boost: false })
}

#[test]
fn idle_on_flat_ground_stays_grounded() {
    let s = PlayerControllerSettings::default();
    let world = World { edge: i64::MAX / 4, height: 0 };
    let start = Vec3::new(100, 0, 200);
    let m = world.tick(settled(), start, Vec3::new(0, 0, 0), &s, &PlayerInput::idle());
    assert_eq!(m.state, settled());
    assert_eq!(m.position, start);
    assert_eq!(m.velocity, Vec3::new(0, 0, 0));
    assert!(m.messages.is_empty());
}

#[test]
fn jump_from_the_ground() {
    let s = PlayerControllerSettings::default();
    let world = World { edge: i64::MAX / 4, height: 0 };
    let mut input = PlayerInput::idle();
    input.jump = ActionEvents { start: true, fire: true, complete: false };
    let m = world.tick(settled(), Vec3::new(0, 0, 0), Vec3::new(0, 0, 0), &s, &input);
    assert!(matches!(m.state, PlayerState::Air(_)));
    assert_eq!(m.messages, vec![PlayerControllerMessage::GroundJump]);
    // the launch speed less half a step of gravity
    assert_eq!(m.velocity.y, 414486 - 10240);
}

#[test]
fn walking_off_a_ledge_starts_coyote_time() {
    let s = PlayerControllerSettings::default();
    let world = World { edge: 1000, height: -10 * ONE };
    let m = world.tick(settled(), Vec3::new(0, 0, 0), Vec3::new(0, 0, 0), &s, &running());
    assert_eq!(
        m.state,
        PlayerState::Air(AirState { coyote_countdown: s.coyote_time, ..AirState::new() })
    );
}

#[test]
fn steps_up_a_low_ledge() {
    let s = PlayerControllerSettings::default();
    let edge = 10_000;
    let world = World { edge, height: 13107 };
    let m = world.tick(settled(), Vec3::new(edge - 3000, 0, 0), Vec3::new(0, 0, 0), &s, &running());
    assert_eq!(m.position, Vec3::new(edge - 3000 + 5632, 13107, 0));
    assert!(m.state.grounded());
    assert_eq!(m.velocity.x, s.run_speed);
}

#[test]
fn a_tall_ledge_blocks() {
    let s = PlayerControllerSettings::default();
    let edge = 10_000;
    let world = World { edge, height: 45875 };
    let m = world.tick(settled(), Vec3::new(edge - 3000, 0, 0), Vec3::new(0, 0, 0), &s, &running());
    assert_eq!(m.position, Vec3::new(edge - 1, 0, 0));
    assert!(m.state.grounded());
}

#[test]
fn long_fall_holds_terminal_velocity() {
    let s = PlayerControllerSettings::default();
    let world = World { edge: i64::MAX / 4, height: 0 };
    let mut state = PlayerState::Air(AirState::new());
    let mut pos = Vec3::new(0, 1000 * ONE, 0);
    let mut vel = Vec3::new(0, 0, 0);
    for _ in 0..300 {
        let m = world.tick(state, pos, vel, &s, &PlayerInput::idle());
        assert!(m.velocity.y >= -s.terminal_velocity);
        state = m.state;
        pos = m.position;
        vel = m.velocity;
    }
    assert_eq!(vel.y, -s.terminal_velocity);
    assert!(matches!(state, PlayerState::Air(_)));
}

#[test]
fn landing_ends_the_fall() {
    let s = PlayerControllerSettings::default();
    let world = World { edge: i64::MAX / 4, height: 0 };
    let m = world.tick(
        PlayerState::Air(AirState::new()),
        Vec3::new(0, 100, 0),
        Vec3::new(0, -ONE, 0),
        &s,
        &PlayerInput::idle(),
    );
    assert_eq!(m.state, PlayerState::Grounded(GroundedState::new()));
    assert_eq!(m.position.y, 0);
}

#[test]
fn free_flight_ignores_gravity() {
    let mut s = PlayerControllerSettings::default();
    s.flycam = true;
    let world = World { edge: i64::MAX / 4, height: 0 };
    let m = world.tick(PlayerState::Air(AirState::new()), Vec3::new(0, 0, 0), Vec3::new(0, 0, 0), &s, &running());
    // 20 m/s for 1/64 s
    assert_eq!(m.position, Vec3::new(20480, 0, 0));
    assert_eq!(m.velocity, Vec3::new(0, 0, 0));
}

fn jump_press() -> PlayerInput {
    let mut i = PlayerInput::idle();
    i.jump = ActionEvents { start: true, fire: true, complete: false };
    i
}

fn off_the_ledge(idle_ticks: usize) -> (World, PlayerState, Vec3, Vec3, PlayerControllerSettings) {
    let s = PlayerControllerSettings::default();
    let world = World { edge: 1000, height: -10 * ONE };
    let m = world.tick(settled(), Vec3::new(0, 0, 0), Vec3::new(0, 0, 0), &s, &running());
    let (mut state, mut pos, mut vel) = (m.state, m.position, m.velocity);
    for _ in 0..idle_ticks {
        let m = world.tick(state, pos, vel, &s, &PlayerInput::idle());
        state = m.state;
        pos = m.position;
        vel = m.velocity;
    }
    (world, state, pos, vel, s)
}

#[test]
fn coyote_jump_within_the_grace() {
    // 5/64 s of coyote time, 1/64 s per tick: after three more ticks one tick is left
    let (world, state, pos, vel, s) = off_the_ledge(3);
    let m = world.tick(state, pos, vel, &s, &jump_press());
    assert_eq!(m.messages, vec![PlayerControllerMessage::CoyoteTimeJump]);
}

#[test]
fn air_jump_once_the_grace_is_over() {
    let (world, state, pos, vel, s) = off_the_ledge(4);
    let m = world.tick(state, pos, vel, &s, &jump_press());
    assert_eq!(m.messages, vec![PlayerControllerMessage::AirJump]);
    match m.state {
        PlayerState::Air(a) => assert_eq!(a.air_jumps, 1),
        _ => panic!("not airborne"),
    }
}

#[test]
fn ground_move_starts_with_no_vertical_velocity() {
    let s = PlayerControllerSettings::default();
    let (m, step) = Mover::start(
        settled(),
        Vec3::new(0, 0, 0),
        Vec3::new(0, ONE, 0),
        Vec2::new(ONE, 0),
        &s,
        &running(),
        DT,
    );
    assert_eq!(
        step,
        Step::Ask(Query::MoveAndSlide {
            position: Vec3::new(0, 0, 0),
            velocity: Vec3::new(s.run_speed, 0, 0),
            ground_plane: true,
        })
    );
    assert_eq!(m.awaits(), Some(ReplyKind::Moved));
}

#[test]
fn holding_a_wall_faces_along_it() {
    let s = PlayerControllerSettings::default();
    let mut input = PlayerInput::idle();
    input.wall_grab = ActionEvents { start: false, fire: true, complete: false };
    let grab = dreamseeker::state::WallGrabState::new(
        Vec3::new(-ONE, 0, 0),
        AirState { air_jumps: 2, ..AirState::new() },
    );
    let (m, step) = Mover::start(
        PlayerState::WallGrab(grab),
        Vec3::new(0, ONE, 0),
        Vec3::new(0, 0, 0),
        Vec2::new(ONE, 0),
        &s,
        &input,
        DT,
    );
    assert_eq!(step, Step::Ask(Query::Depenetrate { position: Vec3::new(0, ONE, 0) }));
    assert_eq!(m.facing, Vec2::new(0, ONE));
    match m.state {
        PlayerState::WallGrab(w) => assert_eq!(w.prev_air_state.air_jumps, 0),
        _ => panic!("let go of the wall"),
    }
}
