//! Angles as fractions of a full turn: `TURN` units make one revolution, so a
//! value is kept exactly and wraps without rounding.
use vstd::prelude::*;
use vstd::arithmetic::div_mod::{lemma_fundamental_div_mod, lemma_fundamental_div_mod_converse, lemma_mod_multiples_vanish};

verus! {

/// Units in one full turn (2π radians).
pub const TURN: i128 = 0x1_0000_0000;

/// Units in half a turn (π radians).
pub const HALF_TURN: i128 = 0x8000_0000;

/// `x` brought into `[-HALF_TURN, HALF_TURN)` by whole turns.
pub open spec fn wrap(x: int) -> int {
    (x + HALF_TURN) % (TURN as int) - HALF_TURN
}

/// An angle normalised to `[-HALF_TURN, HALF_TURN)`, that is `[-π, π)`.
#[derive(Clone, Copy, Debug, Default, PartialEq, Eq, Structural)]
pub struct Angle {
    units: i32,
}

/// `x % TURN`, computed without signed remainder.
fn mod_turn(t: i128) -> (m: i128)
    requires
        t > i128::MIN,
    ensures
        m == (t as int) % (TURN as int),
        0 <= m < TURN,
{
    if t >= 0 {
        t % TURN
    } else {
        let q = (-t) / TURN;
        let r = (-t) % TURN;
        proof {
            lemma_fundamental_div_mod(-t as int, TURN as int);
        }
        if r == 0 {
            proof {
                lemma_fundamental_div_mod_converse(t as int, TURN as int, -q, 0);
            }
            0
        } else {
            proof {
                lemma_fundamental_div_mod_converse(t as int, TURN as int, -q - 1, TURN - r);
            }
            TURN - r
        }
    }
}

fn wrap_exec(x: i128) -> (r: i32)
    requires
        -0x1_0000_0000_0000_0000 <= x <= 0x1_0000_0000_0000_0000,
    ensures
        r == wrap(x as int),
{
    let m = mod_turn(x + HALF_TURN);
    (m - HALF_TURN) as i32
}

impl Angle {
    /// The angle's value in units, in `[-HALF_TURN, HALF_TURN)`.
    pub closed spec fn value(self) -> int {
        self.units as int
    }

    /// The angle of `units`, wrapped by whole turns into `[-HALF_TURN, HALF_TURN)`.
    pub fn new(units: i64) -> (r: Angle)
        ensures
            r.value() == wrap(units as int),
    {
        Angle { units: wrap_exec(units as i128) }
    }

    pub fn get(self) -> (r: i32)
        ensures
            r == self.value(),
            -HALF_TURN <= r < HALF_TURN,
    {
        self.units
    }

    /// The sum of two angles, wrapped.
    pub fn add(self, other: Angle) -> (r: Angle)
        ensures
            r.value() == wrap(self.value() + other.value()),
    {
        Angle { units: wrap_exec(self.units as i128 + other.units as i128) }
    }

    /// The difference of two angles, wrapped.
    pub fn sub(self, other: Angle) -> (r: Angle)
        ensures
            r.value() == wrap(self.value() - other.value()),
    {
        Angle { units: wrap_exec(self.units as i128 - other.units as i128) }
    }

    /// The shortest signed turn from `other` to `self`, in `[-HALF_TURN, HALF_TURN)`.
    pub fn diff(self, other: Angle) -> (r: i64)
        ensures
            r == wrap(self.value() - other.value()),
            -HALF_TURN <= r < HALF_TURN,
    {
        wrap_exec(self.units as i128 - other.units as i128) as i64
    }
}

/// Reading a value as an angle.
pub trait AsAngle {
    fn as_angle(self) -> Angle;
}

impl AsAngle for i64 {
    /// The angle of this many units, wrapped.
    fn as_angle(self) -> Angle {
        Angle::new(self)
    }
}

/// Every wrapped value lies in `[-HALF_TURN, HALF_TURN)`.
pub proof fn lemma_wrap_range(x: int)
    ensures
        -HALF_TURN <= wrap(x) < HALF_TURN,
{
    lemma_fundamental_div_mod(x + HALF_TURN, TURN as int);
}

/// Adding whole turns does not change an angle: `new(x + k·TURN)` and `new(x)`
/// have the same value, and both lie in `[-HALF_TURN, HALF_TURN)`.
pub proof fn lemma_new_periodic(x: int, k: int)
    ensures
        wrap(x + k * TURN) == wrap(x),
        -HALF_TURN <= wrap(x) < HALF_TURN,
{
    lemma_mod_multiples_vanish(k, x + HALF_TURN, TURN as int);
    assert(TURN * k + (x + HALF_TURN) == (x + k * TURN) + HALF_TURN) by (nonlinear_arith);
    lemma_wrap_range(x);
}

/// The difference of two angles lies in `[-HALF_TURN, HALF_TURN)`, and an angle
/// differs from itself by zero.
pub proof fn lemma_diff_bounds(a: Angle, b: Angle)
    ensures
        -HALF_TURN <= wrap(a.value() - b.value()) < HALF_TURN,
        wrap(a.value() - a.value()) == 0,
{
    lemma_wrap_range(a.value() - b.value());
    lemma_fundamental_div_mod_converse(HALF_TURN as int, TURN as int, 0, HALF_TURN as int);
}

} // verus!
