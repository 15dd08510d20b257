use dreamseeker::fixed::{isqrt, ONE};
use dreamseeker::ground::{ground_check, run, slide, snap, step_choice, Hit};
use dreamseeker::input::{speed_tier, ActionEvents, PlayerController, PlayerInput};
use dreamseeker::motion::{
    air_friction, air_jump, air_move, dash, floor_contact, ground_jump, half_gravity, impulse,
    slam, Contact,
};
use dreamseeker::settings::PlayerControllerSettings;
use dreamseeker::state::{
    AirState, GroundedState, JumpState, PlayerControllerMessage, PlayerState, SlamState,
    SlidingState, WallGrabState,
};
use dreamseeker::vector::{Axis, Vec2, Vec3};
use dreamseeker::wall::{facing_along_wall, pick_wall, release, wall_candidate, wall_jump};

const DT: i64 = 1024;

fn pressed() -> ActionEvents {
    ActionEvents { start: true, fire: true, complete: false }
}

fn jump_input() -> PlayerInput {
    let mut i = PlayerInput::idle();
    i.jump = pressed();
    i
}

fn air(jumps: u8, coyote: i64) -> AirState {
    AirState { air_jumps: jumps, dashed: false, jump_state: JumpState::Idle, coyote_countdown: coyote }
}

fn up() -> Vec3 {
    Vec3::new(0, ONE, 0)
}

#[test]
fn isqrt_rounds_down() {
    assert_eq!(isqrt(0), 0);
    assert_eq!(isqrt(15), 3);
    assert_eq!(isqrt(16), 4);
    assert_eq!(isqrt(1 << 60), 1 << 30);
}

#[test]
fn impulse_reaches_the_height() {
    // sqrt(2 * 20 * 1) = 6.3246 m/s
    assert_eq!(impulse(20 * ONE, ONE), 414486);
    assert_eq!(impulse(20 * ONE, ONE / 2), 293085);
    assert_eq!(impulse(0, ONE), 0);
}

#[test]
fn half_gravity_applies_half_a_step_in_the_air() {
    let s = PlayerControllerSettings::default();
    // 20 m/s^2 over half of 1/64 s
    assert_eq!(half_gravity(0, false, &s, DT), -10240);
    assert_eq!(half_gravity(0, true, &s, DT), 0);
    assert_eq!(half_gravity(-50 * ONE, true, &s, DT), -20 * ONE);
}

#[test]
fn falling_never_passes_terminal_velocity() {
    let s = PlayerControllerSettings::default();
    let mut vy: i64 = 0;
    for _ in 0..1000 {
        vy = half_gravity(vy, false, &s, DT);
        assert!(vy >= -s.terminal_velocity);
        vy = half_gravity(vy, false, &s, DT);
        assert!(vy >= -s.terminal_velocity);
    }
    assert_eq!(vy, -s.terminal_velocity);
}

#[test]
fn speed_tiers() {
    assert_eq!(speed_tier(0, false), 0);
    assert_eq!(speed_tier(19660, false), 0);
    assert_eq!(speed_tier(19661, false), ONE / 2);
    assert_eq!(speed_tier(45874, false), ONE / 2);
    assert_eq!(speed_tier(45875, false), ONE);
    assert_eq!(speed_tier(ONE, true), ONE / 2);
    assert_eq!(speed_tier(100, true), 0);
}

#[test]
fn gather_updates_facing_unless_locked() {
    let none = ActionEvents::default();
    let mut pc = PlayerController::new();
    let dir = Vec2::new(ONE, 0);
    let grounded = PlayerState::Grounded(GroundedState::new());
    let input = PlayerInput::gather(dir, ONE, false, none, none, none, none, &grounded, &mut pc);
    assert_eq!(input.speed_modifier, ONE);
    assert_eq!(input.movement, dir);
    assert_eq!(pc.facing, dir);
    let slam_state = PlayerState::Slam(SlamState { timer: 0 });
    PlayerInput::gather(Vec2::new(0, -ONE), ONE, false, none, none, none, none, &slam_state, &mut pc);
    assert_eq!(pc.facing, dir);
    PlayerInput::gather(Vec2::new(0, 0), 0, false, none, none, none, none, &grounded, &mut pc);
    assert_eq!(pc.facing, dir);
}

#[test]
fn state_classes() {
    assert!(PlayerState::Grounded(GroundedState::new()).grounded());
    assert!(PlayerState::Sliding(SlidingState { direction: Vec2::new(0, ONE), timer: 0 }).grounded());
    assert!(!PlayerState::Air(AirState::new()).grounded());
    assert!(!PlayerState::Grounded(GroundedState::new()).facing_locked());
    assert!(PlayerState::Slam(SlamState { timer: 0 }).facing_locked());
    assert_eq!(PlayerState::default(), PlayerState::Air(AirState::new()));
}

#[test]
fn air_friction_slows_and_stops() {
    let s = PlayerControllerSettings::default();
    let v = air_friction(Vec3::new(4 * ONE, -ONE, 0), &s, DT);
    // 4 m/s loses 0.3 * 4 / 64 = 0.01875 m/s
    assert_eq!(v.y, -ONE);
    assert_eq!(v.z, 0);
    assert_eq!(v.x, 4 * ONE - 1228);
    let still = air_friction(Vec3::new(600, 7, 0), &s, DT);
    assert_eq!(still, Vec3::new(0, 7, 0));
}

#[test]
fn air_move_caps_at_air_speed() {
    let s = PlayerControllerSettings::default();
    let mut input = PlayerInput::idle();
    input.movement = Vec2::new(ONE, 0);
    // 8 m/s^2 for 1/64 s
    assert_eq!(air_move(Vec3::new(0, 0, 0), &input, &s, DT).x, 8192);
    assert_eq!(air_move(Vec3::new(s.air_speed, 0, 0), &input, &s, DT).x, s.air_speed);
    assert_eq!(air_move(Vec3::new(s.air_speed - 100, 0, 0), &input, &s, DT).x, s.air_speed);
    assert_eq!(air_move(Vec3::new(3, 4, 5), &PlayerInput::idle(), &s, DT), Vec3::new(3, 4, 5));
}

#[test]
fn dash_boosts_once_per_airborne_period() {
    let s = PlayerControllerSettings::default();
    let mut input = PlayerInput::idle();
    input.dash = pressed();
    let facing = Vec2::new(ONE, 0);
    let (v1, a1) = dash(Vec3::new(0, -ONE, 0), air(0, 0), facing, &input, &s);
    assert!(a1.dashed);
    assert_eq!(v1.x, s.dash_velocity);
    assert_eq!(v1.y, 293085);
    let (v2, a2) = dash(v1, a1, facing, &input, &s);
    assert_eq!(v2, v1);
    assert_eq!(a2, a1);
    // a fresh airborne period dashes again
    let (v3, _) = dash(Vec3::new(0, 0, 0), AirState::new().with_coyote(&s), facing, &input, &s);
    assert_eq!(v3.x, s.dash_velocity);
    // faster than the dash already: only the hop
    let (v4, _) = dash(Vec3::new(12 * ONE, 0, 0), air(0, 0), facing, &input, &s);
    assert_eq!(v4.x, 12 * ONE);
}

#[test]
fn air_jumps_are_capped() {
    let s = PlayerControllerSettings::default();
    let input = jump_input();
    let mut v = Vec3::new(0, -ONE, 0);
    let mut a = air(0, 0);
    let mut granted = 0;
    for _ in 0..5 {
        let before = v;
        let (v1, a1, m) = air_jump(v, a, &input, &s);
        if m == Some(PlayerControllerMessage::AirJump) {
            granted += 1;
            assert_eq!(v1.y, 414486);
        } else {
            assert_eq!(m, None);
            assert_eq!(v1, before);
        }
        v = Vec3::new(v1.x, -ONE, v1.z);
        a = a1;
    }
    assert_eq!(granted, s.air_jumps as usize);
    assert_eq!(a.air_jumps, s.air_jumps);
}

#[test]
fn coyote_time_boundary() {
    let s = PlayerControllerSettings::default();
    let input = jump_input();
    let v = Vec3::new(0, -ONE, 0);
    // within the coyote time: a full ground jump, no air jump used
    let (v1, a1, m1) = air_jump(v, air(0, 1), &input, &s);
    assert_eq!(m1, Some(PlayerControllerMessage::CoyoteTimeJump));
    assert_eq!(v1.y, 414486);
    assert_eq!(a1.air_jumps, 0);
    assert_eq!(a1.jump_state, JumpState::Normal);
    // at zero: an air jump
    let (_, a2, m2) = air_jump(v, air(0, 0), &input, &s);
    assert_eq!(m2, Some(PlayerControllerMessage::AirJump));
    assert_eq!(a2.air_jumps, 1);
    // at zero with none left: nothing
    let (v3, a3, m3) = air_jump(v, air(2, 0), &input, &s);
    assert_eq!(m3, None);
    assert_eq!(v3, v);
    assert_eq!(a3, air(2, 0));
}

#[test]
fn ground_jump_uses_slam_boost() {
    let s = PlayerControllerSettings::default();
    let plain = PlayerState::Grounded(GroundedState::new());
    let boosted = PlayerState::Grounded(GroundedState { ground_time: 0, jump_boost: true });
    assert_eq!(ground_jump(&plain, &s).0, 414486);
    assert_eq!(ground_jump(&boosted, &s).0, 717910);
    assert_eq!(ground_jump(&boosted, &s).1.jump_state, JumpState::Normal);
}

#[test]
fn running_sets_and_decays_speed() {
    let s = PlayerControllerSettings::default();
    let mut input = PlayerInput::idle();
    input.movement = Vec2::new(0, ONE);
    input.speed_modifier = ONE;
    // the vertical velocity is zeroed before the ground move
    let (v, g, too_fast, grace) = run(Vec3::new(0, ONE, 0), GroundedState::new(), &input, &s, DT);
    assert_eq!(v, Vec3::new(0, 0, s.run_speed));
    assert!(!too_fast);
    assert!(grace);
    assert_eq!(g.ground_time, DT);
    // too fast and past the grace (3/64 s): slowed by 1.5
    let settled = GroundedState { ground_time: s.coyote_friction, jump_boost: false };
    let (v2, g2, too_fast2, grace2) = run(Vec3::new(0, 0, 12 * ONE), settled, &PlayerInput::idle(), &s, DT);
    assert!(too_fast2 && !grace2);
    assert_eq!(v2, Vec3::new(0, 0, 8 * ONE));
    assert_eq!(g2.ground_time, s.coyote_friction);
    // within the grace: kept
    let early = GroundedState { ground_time: s.coyote_friction - 1, jump_boost: false };
    let (v3, _, _, grace3) = run(Vec3::new(0, 0, 12 * ONE), early, &PlayerInput::idle(), &s, DT);
    assert!(grace3);
    assert_eq!(v3, Vec3::new(0, 0, 12 * ONE));
}

#[test]
fn sliding_runs_its_course() {
    let s = PlayerControllerSettings::default();
    let sl = SlidingState { direction: Vec2::new(ONE, 0), timer: 0 };
    let (v, st) = slide(Vec3::new(0, 0, 0), sl, &PlayerInput::idle(), &s, DT);
    assert_eq!(v.x, s.slide_speed);
    assert_eq!(st, PlayerState::Sliding(SlidingState { direction: Vec2::new(ONE, 0), timer: DT }));
    let late = SlidingState { direction: Vec2::new(ONE, 0), timer: s.slide_time };
    let (_, st2) = slide(Vec3::new(0, 0, 0), late, &PlayerInput::idle(), &s, DT);
    assert_eq!(st2, PlayerState::Grounded(GroundedState::new()));
    // reaching slide_time exactly is not exceeding it
    let edge = SlidingState { direction: Vec2::new(ONE, 0), timer: s.slide_time - DT };
    let (_, st4) = slide(Vec3::new(0, 0, 0), edge, &PlayerInput::idle(), &s, DT);
    assert_eq!(st4, PlayerState::Sliding(SlidingState { direction: Vec2::new(ONE, 0), timer: s.slide_time }));
    let (v3, st3) = slide(Vec3::new(0, 0, 0), sl, &jump_input(), &s, DT);
    assert_eq!(v3.x, s.slide_speed * 3 / 2);
    assert_eq!(v3.y, 414486);
    assert!(matches!(st3, PlayerState::Air(_)));
}

#[test]
fn slam_pauses_then_falls() {
    let s = PlayerControllerSettings::default();
    let (v, sl) = slam(SlamState { timer: 0 }, &s, DT);
    assert_eq!(v, Vec3::new(0, 0, 0));
    assert_eq!(sl.timer, DT);
    let (v2, sl2) = slam(SlamState { timer: s.slam_pause - 1 }, &s, DT);
    assert_eq!(v2.y, -s.slam_velocity);
    assert_eq!(sl2.timer, s.slam_pause - 1 + DT);
    let contacts = vec![
        Contact { point: Vec3::new(1, 0, 0), normal: up() },
        Contact { point: Vec3::new(2, 0, 0), normal: Vec3::new(ONE, 0, 0) },
    ];
    assert_eq!(floor_contact(&contacts, s.min_floor_angle), Some(Vec3::new(1, 0, 0)));
    assert_eq!(floor_contact(&Vec::new(), s.min_floor_angle), None);
}

#[test]
fn ground_check_transitions() {
    let s = PlayerControllerSettings::default();
    let floor = Some(Hit { distance: 0, normal: up() });
    let grounded = PlayerState::Grounded(GroundedState { ground_time: 2048, jump_boost: false });
    assert_eq!(ground_check(grounded, 0, floor, &s), grounded);
    assert_eq!(
        ground_check(grounded, 0, None, &s),
        PlayerState::Air(AirState { coyote_countdown: s.coyote_time, ..AirState::new() })
    );
    let falling = PlayerState::Air(air(1, 0));
    assert_eq!(ground_check(falling, -ONE, floor, &s), PlayerState::Grounded(GroundedState::new()));
    // rising too fast to land
    assert_eq!(ground_check(falling, 6 * ONE, floor, &s), falling);
    // a steep surface is no floor
    let steep = Some(Hit { distance: 0, normal: Vec3::new(ONE / 2, ONE / 2, 0) });
    assert_eq!(ground_check(falling, 0, steep, &s), falling);
}

#[test]
fn snap_moves_onto_floor() {
    let s = PlayerControllerSettings::default();
    let pos = Vec3::new(0, 1000, 0);
    let floor = Some(Hit { distance: 1000, normal: up() });
    assert_eq!(snap(pos, -5, Vec3::new(0, 0, 0), floor, &s), (Vec3::new(0, 0, 0), 0));
    assert_eq!(snap(pos, 5, Vec3::new(0, 0, 0), floor, &s), (Vec3::new(0, 0, 0), 5));
    let wall = Some(Hit { distance: 1000, normal: Vec3::new(ONE, 0, 0) });
    assert_eq!(snap(pos, -5, Vec3::new(0, 0, 0), wall, &s), (pos, -5));
    assert_eq!(snap(pos, -5, Vec3::new(0, 0, 0), None, &s), (pos, -5));
}

#[test]
fn step_policy() {
    let s = PlayerControllerSettings::default();
    let start = Vec3::new(0, 0, 0);
    let ground_pos = Vec3::new(1000, 0, 0);
    let ground_vel = Vec3::new(0, -3, 0);
    let raised = Vec3::new(5000, s.floor_snap, 0);
    let step_vel = Vec3::new(7, 9, 0);
    // lands on a low ledge: farther, kept, with the ground's vertical speed
    let ledge = Some(Hit { distance: s.floor_snap - 13107, normal: up() });
    assert_eq!(
        step_choice(start, ground_pos, ground_vel, raised, step_vel, ledge, &s),
        (Vec3::new(5000, 13107, 0), Vec3::new(7, -3, 0))
    );
    // a steep landing is refused
    let steep = Some(Hit { distance: 10, normal: Vec3::new(ONE, 0, 0) });
    assert_eq!(
        step_choice(start, ground_pos, ground_vel, raised, step_vel, steep, &s),
        (ground_pos, ground_vel)
    );
    // nothing below: drop the whole step
    assert_eq!(
        step_choice(start, ground_pos, ground_vel, raised, step_vel, None, &s).0,
        Vec3::new(5000, s.floor_snap - s.step, 0)
    );
    // the ground move went farther
    let short = Vec3::new(10, s.floor_snap, 0);
    let flat = Some(Hit { distance: s.floor_snap, normal: up() });
    assert_eq!(
        step_choice(start, ground_pos, ground_vel, short, step_vel, flat, &s),
        (ground_pos, ground_vel)
    );
}

#[test]
fn wall_candidates_and_rejection() {
    let s = PlayerControllerSettings::default();
    let facing = Vec2::new(ONE, 0);
    let wall = Some(Hit { distance: 100, normal: Vec3::new(-ONE, 0, 0) });
    let c = wall_candidate(wall, Axis::PosX, Vec3::new(0, 0, 0), facing, &s).unwrap();
    assert_eq!(c.normal, Vec3::new(-ONE, 0, 0));
    assert_eq!(c.influence, ONE);
    assert_eq!(c.axis, Axis::PosX);
    // a floor is never grabbed, however it lines up
    let floor = Some(Hit { distance: 100, normal: up() });
    assert_eq!(wall_candidate(floor, Axis::PosX, Vec3::new(0, 0, 0), facing, &s), None);
    // a ceiling neither
    let ceiling = Some(Hit { distance: 100, normal: Vec3::new(0, -ONE, 0) });
    assert_eq!(wall_candidate(ceiling, Axis::PosX, Vec3::new(0, 0, 0), facing, &s), None);
    // moving away too fast
    let away = Vec3::new(-3 * ONE, 0, 0);
    assert_eq!(wall_candidate(wall, Axis::PosX, away, facing, &s), None);
    assert_eq!(wall_candidate(None, Axis::PosX, Vec3::new(0, 0, 0), facing, &s), None);
    // the wall faced wins; the first of equals stays
    let other = Some(Hit { distance: 100, normal: Vec3::new(0, 0, -ONE) });
    let d = wall_candidate(other, Axis::PosZ, Vec3::new(0, 0, 0), facing, &s);
    assert_eq!(pick_wall(Some(c), d), Some(c));
    assert_eq!(pick_wall(d, Some(c)), Some(c));
    assert_eq!(pick_wall(None, d), d);
}

#[test]
fn wall_grab_release_and_jump() {
    let s = PlayerControllerSettings::default();
    let grab = WallGrabState::new(
        Vec3::new(-ONE, 0, 0),
        AirState { air_jumps: 1, dashed: true, jump_state: JumpState::Halved, coyote_countdown: 9 },
    );
    assert_eq!(
        release(&grab),
        AirState { air_jumps: 1, dashed: true, jump_state: JumpState::Idle, coyote_countdown: 0 }
    );
    let (v, a) = wall_jump(&grab, &s);
    // sqrt(2 * 20 * 2 * 1) = 8.94 m/s, capped at 5
    assert_eq!(v, Vec3::new(-5 * ONE, 5 * ONE, 0));
    assert_eq!(a.jump_state, JumpState::Normal);
    assert!(a.dashed);
    // along the wall, a quarter turn from its normal
    assert_eq!(facing_along_wall(Vec3::new(-ONE, 0, 0)), Vec2::new(0, ONE));
    assert_eq!(facing_along_wall(Vec3::new(0, 0, -ONE)), Vec2::new(-ONE, 0));
    assert_eq!(facing_along_wall(up()), Vec2::new(0, ONE));
}
