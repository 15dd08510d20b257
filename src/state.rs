//! The movement modes of the character and the data each one owns.
use vstd::prelude::*;
use crate::fixed::{ONE, SETTING_MAX};
use crate::settings::PlayerControllerSettings;
use crate::vector::{within, Vec2, Vec3};

verus! {

/// Where a jump stands: rising from a held jump, cut short, or none.
#[derive(Clone, Copy, Debug, PartialEq, Eq, Structural)]
pub enum JumpState {
    Idle,
    Normal,
    Halved,
}

#[derive(Clone, Copy, Debug, PartialEq, Eq, Structural)]
pub struct GroundedState {
    /// Time spent on the ground, counted up to `coyote_friction`.
    pub ground_time: i64,
    /// The next ground jump gets the slam boost.
    pub jump_boost: bool,
}

#[derive(Clone, Copy, Debug, PartialEq, Eq, Structural)]
pub struct AirState {
    /// Air jumps used in this airborne period.
    pub air_jumps: u8,
    pub dashed: bool,
    pub jump_state: JumpState,
    /// Time left in which a jump still counts as a ground jump.
    pub coyote_countdown: i64,
}

#[derive(Clone, Copy, Debug, PartialEq, Eq, Structural)]
pub struct SlidingState {
    pub direction: Vec2,
    pub timer: i64,
}

#[derive(Clone, Copy, Debug, PartialEq, Eq, Structural)]
pub struct SlamState {
    pub timer: i64,
}

#[derive(Clone, Copy, Debug, PartialEq, Eq, Structural)]
pub struct WallGrabState {
    pub wall_normal: Vec3,
    /// The air state at the grab, restored when letting go.
    pub prev_air_state: AirState,
}

/// The movement mode; exactly one is active.
#[derive(Clone, Copy, Debug, PartialEq, Eq, Structural)]
pub enum PlayerState {
    Grounded(GroundedState),
    Air(AirState),
    Sliding(SlidingState),
    Slam(SlamState),
    WallGrab(WallGrabState),
}

/// A feedback signal of a transition, for sound and effects.
#[derive(Clone, Copy, Debug, PartialEq, Eq, Structural)]
pub enum PlayerControllerMessage {
    GroundJump,
    CoyoteTimeJump,
    CoyoteFrictionJump,
    AirJump,
    /// A slam hit the floor at this point.
    Slam(Vec3),
}

impl GroundedState {
    pub open spec fn fresh() -> GroundedState {
        GroundedState { ground_time: 0, jump_boost: false }
    }

    pub fn new() -> (r: GroundedState)
        ensures
            r == GroundedState::fresh(),
    {
        GroundedState { ground_time: 0, jump_boost: false }
    }
}

impl AirState {
    /// No jumps used, no dash, no coyote time.
    pub open spec fn fresh() -> AirState {
        AirState { air_jumps: 0, dashed: false, jump_state: JumpState::Idle, coyote_countdown: 0 }
    }

    pub open spec fn wf(self) -> bool {
        within(self.coyote_countdown as int, SETTING_MAX as int)
    }

    pub fn new() -> (r: AirState)
        ensures
            r == AirState::fresh(),
    {
        AirState { air_jumps: 0, dashed: false, jump_state: JumpState::Idle, coyote_countdown: 0 }
    }

    pub open spec fn with_coyote_spec(self, coyote_time: int) -> AirState {
        AirState { coyote_countdown: coyote_time as i64, ..self }
    }

    /// This state with the full coyote time to run.
    pub fn with_coyote(self, settings: &PlayerControllerSettings) -> (r: AirState)
        ensures
            r == self.with_coyote_spec(settings.coyote_time as int),
    {
        AirState { coyote_countdown: settings.coyote_time, ..self }
    }
}

impl WallGrabState {
    pub fn new(wall_normal: Vec3, prev_air_state: AirState) -> (r: WallGrabState)
        ensures
            r == (WallGrabState { wall_normal, prev_air_state }),
    {
        WallGrabState { wall_normal, prev_air_state }
    }
}

impl PlayerState {
    /// Grounded and sliding are the modes on the ground.
    pub open spec fn grounded_spec(&self) -> bool {
        *self is Grounded || *self is Sliding
    }

    pub open spec fn facing_locked_spec(&self) -> bool {
        *self is Sliding || *self is Slam || *self is WallGrab
    }

    /// The values every mode keeps within range.
    pub open spec fn wf(&self) -> bool {
        match *self {
            PlayerState::Grounded(g) => 0 <= g.ground_time <= 2 * SETTING_MAX,
            PlayerState::Air(a) => a.wf(),
            PlayerState::Sliding(s) => within(s.direction.x as int, ONE as int) && within(
                s.direction.y as int,
                ONE as int,
            ) && 0 <= s.timer <= 2 * SETTING_MAX,
            PlayerState::Slam(s) => 0 <= s.timer <= 2 * SETTING_MAX,
            PlayerState::WallGrab(w) => w.wall_normal.bounded(ONE as int) && w.prev_air_state.wf(),
        }
    }

    pub fn grounded(&self) -> (r: bool)
        ensures
            r == self.grounded_spec(),
    {
        match self {
            PlayerState::Grounded(_) | PlayerState::Sliding(_) => true,
            _ => false,
        }
    }

    pub fn facing_locked(&self) -> (r: bool)
        ensures
            r == self.facing_locked_spec(),
    {
        match self {
            PlayerState::Sliding(_) | PlayerState::Slam(_) | PlayerState::WallGrab(_) => true,
            _ => false,
        }
    }
}

impl Default for PlayerState {
    /// A character starts in the air, with no coyote time.
    fn default() -> (r: Self)
        ensures
            r == PlayerState::Air(AirState::fresh()),
    {
        PlayerState::Air(AirState::new())
    }
}

} // verus!
