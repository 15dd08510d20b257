//! Tuning values of the controller, in fixed point (`ONE` is 1.0; lengths in
//! metres, speeds in metres per second, times in seconds).
use vstd::prelude::*;
use crate::fixed::SETTING_MAX;
use crate::vector::within;

verus! {

pub struct PlayerControllerSettings {
    pub gravity: i64,
    pub floor_snap: i64,
    pub step: i64,
    pub jump: i64,
    /// Least upward component of a unit normal for a surface to count as floor.
    pub min_floor_angle: i64,
    pub maximum_grounded_up_velocity: i64,
    pub flycam: bool,
    pub coyote_time: i64,
    pub air_friction: i64,
    pub terminal_velocity: i64,
    pub air_speed: i64,
    pub air_accel: i64,
    pub air_jumps: u8,
    pub air_jump_forward_boost: i64,
    pub dash_enabled: bool,
    pub dash_velocity: i64,
    pub dash_height: i64,
    /// When faster than `run_speed`, time after landing during which no
    /// friction is applied.
    pub coyote_friction: i64,
    pub run_speed: i64,
    pub slide_enabled: bool,
    pub slide_speed: i64,
    pub slide_time: i64,
    pub slam_enabled: bool,
    pub slam_pause: i64,
    pub slam_velocity: i64,
    pub slam_jump_boost: i64,
    pub wall_grab_enabled: bool,
    pub wall_grab_min_normal: i64,
    pub wall_grab_max_normal: i64,
    pub wall_grab_max_wall_distance: i64,
    pub wall_grab_max_away_velocity: i64,
    pub wall_jump_add_vertical: i64,
    pub wall_jump_max_vertical: i64,
    pub wall_jump_add_horizontal: i64,
    pub min_sword_bounce: i64,
}

impl PlayerControllerSettings {

    /// Whether these settings meet `wf`, for callers that cannot prove it.
    pub fn is_valid(&self) -> (r: bool)
        ensures
            r == self.wf(),
    {
        (in_range(self.gravity) && self.gravity >= 0) &&
            (in_range(self.floor_snap) && self.floor_snap >= 0) &&
            (in_range(self.step) && self.step >= 0) &&
            (in_range(self.jump) && self.jump >= 0) &&
            (in_range(self.min_floor_angle)) &&
            (in_range(self.maximum_grounded_up_velocity)) &&
            (in_range(self.coyote_time)) &&
            (in_range(self.air_friction)) &&
            (in_range(self.terminal_velocity)) &&
            (in_range(self.air_speed)) &&
            (in_range(self.air_accel)) &&
            (in_range(self.air_jump_forward_boost)) &&
            (in_range(self.dash_velocity)) &&
            (in_range(self.dash_height) && self.dash_height >= 0) &&
            (in_range(self.coyote_friction)) &&
            (in_range(self.run_speed)) &&
            (in_range(self.slide_speed)) &&
            (in_range(self.slide_time)) &&
            (in_range(self.slam_pause)) &&
            (in_range(self.slam_velocity)) &&
            (in_range(self.slam_jump_boost) && self.slam_jump_boost >= 0) &&
            (in_range(self.wall_grab_min_normal)) &&
            (in_range(self.wall_grab_max_normal)) &&
            (in_range(self.wall_grab_max_wall_distance) && self.wall_grab_max_wall_distance >= 0) &&
            (in_range(self.wall_grab_max_away_velocity)) &&
            (in_range(self.wall_jump_add_vertical) && self.wall_jump_add_vertical >= 0) &&
            (in_range(self.wall_jump_max_vertical)) &&
            (in_range(self.wall_jump_add_horizontal)) &&
            (in_range(self.min_sword_bounce))
    }
    /// Every value fits the fixed-point range, and the heights and accelerations
    /// that go under a square root, and the probe distances, are not negative.
    pub open spec fn wf(&self) -> bool {
        &&& within(self.gravity as int, SETTING_MAX as int) && self.gravity >= 0
        &&& within(self.floor_snap as int, SETTING_MAX as int) && self.floor_snap >= 0
        &&& within(self.step as int, SETTING_MAX as int) && self.step >= 0
        &&& within(self.jump as int, SETTING_MAX as int) && self.jump >= 0
        &&& within(self.min_floor_angle as int, SETTING_MAX as int)
        &&& within(self.maximum_grounded_up_velocity as int, SETTING_MAX as int)
        &&& within(self.coyote_time as int, SETTING_MAX as int)
        &&& within(self.air_friction as int, SETTING_MAX as int)
        &&& within(self.terminal_velocity as int, SETTING_MAX as int)
        &&& within(self.air_speed as int, SETTING_MAX as int)
        &&& within(self.air_accel as int, SETTING_MAX as int)
        &&& within(self.air_jump_forward_boost as int, SETTING_MAX as int)
        &&& within(self.dash_velocity as int, SETTING_MAX as int)
        &&& within(self.dash_height as int, SETTING_MAX as int) && self.dash_height >= 0
        &&& within(self.coyote_friction as int, SETTING_MAX as int)
        &&& within(self.run_speed as int, SETTING_MAX as int)
        &&& within(self.slide_speed as int, SETTING_MAX as int)
        &&& within(self.slide_time as int, SETTING_MAX as int)
        &&& within(self.slam_pause as int, SETTING_MAX as int)
        &&& within(self.slam_velocity as int, SETTING_MAX as int)
        &&& within(self.slam_jump_boost as int, SETTING_MAX as int) && self.slam_jump_boost >= 0
        &&& within(self.wall_grab_min_normal as int, SETTING_MAX as int)
        &&& within(self.wall_grab_max_normal as int, SETTING_MAX as int)
        &&& within(self.wall_grab_max_wall_distance as int, SETTING_MAX as int)
            && self.wall_grab_max_wall_distance >= 0
        &&& within(self.wall_grab_max_away_velocity as int, SETTING_MAX as int)
        &&& within(self.wall_jump_add_vertical as int, SETTING_MAX as int)
            && self.wall_jump_add_vertical >= 0
        &&& within(self.wall_jump_max_vertical as int, SETTING_MAX as int)
        &&& within(self.wall_jump_add_horizontal as int, SETTING_MAX as int)
        &&& within(self.min_sword_bounce as int, SETTING_MAX as int)
    }
}

fn in_range(x: i64) -> (r: bool)
    ensures
        r == within(x as int, SETTING_MAX as int),
{
    -SETTING_MAX <= x && x <= SETTING_MAX
}

impl Default for PlayerControllerSettings {
    fn default() -> (r: Self)
        ensures
            r.wf(),
            r.gravity == 20 * 65536,
            r.jump == 65536,
            r.coyote_time == 5 * 1024,
            r.terminal_velocity == 20 * 65536,
            r.air_jumps == 2,
            r.coyote_friction == 3 * 1024,
            r.dash_enabled && r.slide_enabled && r.slam_enabled && r.wall_grab_enabled,
            !r.flycam,
    {
        PlayerControllerSettings {
            gravity: 1310720,
            floor_snap: 16384,
            step: 21627,
            jump: 65536,
            min_floor_angle: 45875,
            maximum_grounded_up_velocity: 380109,
            flycam: false,
            coyote_time: 5120,
            air_friction: 19661,
            terminal_velocity: 1310720,
            air_speed: 360448,
            air_accel: 524288,
            air_jumps: 2,
            air_jump_forward_boost: 294912,
            dash_enabled: true,
            dash_velocity: 655360,
            dash_height: 32768,
            coyote_friction: 3072,
            run_speed: 360448,
            slide_enabled: true,
            slide_speed: 491520,
            slide_time: 45875,
            slam_enabled: true,
            slam_pause: 32768,
            slam_velocity: 1310720,
            slam_jump_boost: 131072,
            wall_grab_enabled: true,
            wall_grab_min_normal: -6554,
            wall_grab_max_normal: 39322,
            wall_grab_max_wall_distance: 13107,
            wall_grab_max_away_velocity: 131072,
            wall_jump_add_vertical: 65536,
            wall_jump_max_vertical: 327680,
            wall_jump_add_horizontal: 327680,
            min_sword_bounce: 655360,
        }
    }
}

} // verus!
