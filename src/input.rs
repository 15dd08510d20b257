//! The per-tick intent of the player and the facing it steers.
use vstd::prelude::*;
use crate::fixed::ONE;
use crate::state::PlayerState;
use crate::vector::{within, Vec2};

verus! {

/// Below this stick magnitude the character stands still (0.3).
pub const STILL_BELOW: i64 = 19661;

/// Below this stick magnitude the character walks (0.7).
pub const WALK_BELOW: i64 = 45875;

/// What an action did this tick: began, is held, or ended.
#[derive(Clone, Copy, Debug, Default, PartialEq, Eq, Structural)]
pub struct ActionEvents {
    pub start: bool,
    pub fire: bool,
    pub complete: bool,
}

/// The intent gathered for one tick.
#[derive(Clone, Copy, Debug, PartialEq, Eq, Structural)]
pub struct PlayerInput {
    /// World-space horizontal direction of movement, unit or zero.
    pub movement: Vec2,
    /// 0, `ONE / 2` or `ONE`.
    pub speed_modifier: i64,
    pub jump: ActionEvents,
    pub slide: ActionEvents,
    pub dash: ActionEvents,
    pub wall_grab: ActionEvents,
}

/// The character's facing, a horizontal unit direction (`x` along world X, `y`
/// along world Z).
#[derive(Clone, Copy, Debug, PartialEq, Eq, Structural)]
pub struct PlayerController {
    pub facing: Vec2,
}

/// The speed tier for a stick magnitude, with the walk modifier held or not.
pub open spec fn speed_tier_spec(magnitude: int, walk: bool) -> int {
    if magnitude < STILL_BELOW {
        0
    } else if magnitude < WALK_BELOW || walk {
        ONE / 2
    } else {
        ONE as int
    }
}

pub fn speed_tier(magnitude: i64, walk: bool) -> (r: i64)
    ensures
        r == speed_tier_spec(magnitude as int, walk),
{
    if magnitude < STILL_BELOW {
        0
    } else if magnitude < WALK_BELOW || walk {
        ONE / 2
    } else {
        ONE
    }
}

impl PlayerInput {
    pub open spec fn wf(&self) -> bool {
        within(self.movement.x as int, ONE as int) && within(self.movement.y as int, ONE as int)
            && 0 <= self.speed_modifier <= ONE
    }

    /// No movement and no action.
    pub fn idle() -> (r: PlayerInput)
        ensures
            r.wf(),
            r.movement.is_zero(),
            r.speed_modifier == 0,
            !r.jump.start && !r.jump.fire && !r.slide.start && !r.dash.start,
            !r.wall_grab.fire,
    {
        let none = ActionEvents { start: false, fire: false, complete: false };
        PlayerInput {
            movement: Vec2 { x: 0, y: 0 },
            speed_modifier: 0,
            jump: none,
            slide: none,
            dash: none,
            wall_grab: none,
        }
    }

    /// The input for a tick: `direction` is the stick direction already turned into
    /// world space (unit or zero) and `magnitude` the stick's deflection. The facing
    /// follows a non-zero direction unless the state locks it.
    pub fn gather(
        direction: Vec2,
        magnitude: i64,
        walk: bool,
        jump: ActionEvents,
        slide: ActionEvents,
        dash: ActionEvents,
        wall_grab: ActionEvents,
        state: &PlayerState,
        controller: &mut PlayerController,
    ) -> (r: PlayerInput)
        requires
            within(direction.x as int, ONE as int),
            within(direction.y as int, ONE as int),
        ensures
            r.wf(),
            r == (PlayerInput {
                movement: direction,
                speed_modifier: speed_tier_spec(magnitude as int, walk) as i64,
                jump,
                slide,
                dash,
                wall_grab,
            }),
            final(controller).facing == (if !direction.is_zero() && !state.facing_locked_spec() {
                direction
            } else {
                old(controller).facing
            }),
    {
        let speed_modifier = speed_tier(magnitude, walk);
        if (direction.x != 0 || direction.y != 0) && !state.facing_locked() {
            controller.facing = direction;
        }
        PlayerInput { movement: direction, speed_modifier, jump, slide, dash, wall_grab }
    }
}

impl PlayerController {
    /// Facing along world +Z.
    pub fn new() -> (r: PlayerController)
        ensures
            r.facing == (Vec2 { x: 0, y: ONE }),
    {
        PlayerController { facing: Vec2 { x: 0, y: ONE } }
    }
}

} // verus!
