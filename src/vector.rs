//! Fixed-point vectors. `Vec3` is a world vector with `y` up; `Vec2` is a
//! direction in the horizontal plane, with `x` along world X and `y` along
//! world Z.
use vstd::prelude::*;
use crate::fixed::{
    clamp, div_trunc, div_toward_zero, fmul, fx_mul, isqrt, max, sqrt_floor, ONE, POS_MAX,
    SPEED_MAX,
};

verus! {

#[derive(Clone, Copy, Debug, PartialEq, Eq, Structural)]
pub struct Vec3 {
    pub x: i64,
    pub y: i64,
    pub z: i64,
}

#[derive(Clone, Copy, Debug, PartialEq, Eq, Structural)]
pub struct Vec2 {
    pub x: i64,
    pub y: i64,
}

/// Which of the six axis directions a probe is cast along.
#[derive(Clone, Copy, Debug, PartialEq, Eq, Structural)]
pub enum Axis {
    PosX,
    NegX,
    PosY,
    NegY,
    PosZ,
    NegZ,
}

impl Axis {
    /// The unit vector of this axis.
    pub open spec fn unit_spec(self) -> Vec3 {
        match self {
            Axis::PosX => Vec3 { x: ONE, y: 0, z: 0 },
            Axis::NegX => Vec3 { x: (-ONE) as i64, y: 0, z: 0 },
            Axis::PosY => Vec3 { x: 0, y: ONE, z: 0 },
            Axis::NegY => Vec3 { x: 0, y: (-ONE) as i64, z: 0 },
            Axis::PosZ => Vec3 { x: 0, y: 0, z: ONE },
            Axis::NegZ => Vec3 { x: 0, y: 0, z: (-ONE) as i64 },
        }
    }

    pub fn unit(self) -> (r: Vec3)
        ensures
            r == self.unit_spec(),
    {
        match self {
            Axis::PosX => Vec3 { x: ONE, y: 0, z: 0 },
            Axis::NegX => Vec3 { x: -ONE, y: 0, z: 0 },
            Axis::PosY => Vec3 { x: 0, y: ONE, z: 0 },
            Axis::NegY => Vec3 { x: 0, y: -ONE, z: 0 },
            Axis::PosZ => Vec3 { x: 0, y: 0, z: ONE },
            Axis::NegZ => Vec3 { x: 0, y: 0, z: -ONE },
        }
    }
}

/// `|c| <= m` on each component.
pub open spec fn within(c: int, m: int) -> bool {
    -m <= c <= m
}

proof fn lemma_scaled_bound(c: int, s: int, m: int)
    requires
        within(c, ONE as int),
        within(s, m),
    ensures
        within(fmul(s, c), m),
{
    assert(s * c == c * s) by (nonlinear_arith);
    assert(-(m * ONE) <= c * s <= m * ONE) by (nonlinear_arith)
        requires
            within(c, ONE as int),
            within(s, m),
    ;
    if c * s >= 0 {
        assert((c * s) / (ONE as int) <= m) by (nonlinear_arith)
            requires
                0 <= c * s <= m * ONE,
        ;
    } else {
        assert((-(c * s)) / (ONE as int) <= m) by (nonlinear_arith)
            requires
                0 <= -(c * s) <= m * ONE,
        ;
    }
}

proof fn lemma_component_le_length(c: int, n: int, l: int)
    requires
        c * c <= n,
        n < (l + 1) * (l + 1),
        l >= 0,
    ensures
        within(c, l),
{
    if c > l {
        assert((l + 1) * (l + 1) <= c * c) by (nonlinear_arith)
            requires
                c >= l + 1,
                l >= 0,
        ;
    }
    if c < -l {
        assert((l + 1) * (l + 1) <= c * c) by (nonlinear_arith)
            requires
                -c >= l + 1,
                l >= 0,
        ;
    }
}

proof fn lemma_unit_component(c: int, l: int)
    requires
        within(c, l),
        l >= 1,
    ensures
        within(div_trunc(c * ONE, l), ONE as int),
{
    if c >= 0 {
        assert((c * ONE) / l <= ONE) by (nonlinear_arith)
            requires
                0 <= c <= l,
                l >= 1,
        ;
        assert((c * ONE) / l >= 0) by (nonlinear_arith)
            requires
                0 <= c,
                l >= 1,
        ;
    } else {
        assert((-(c * ONE)) / l <= ONE) by (nonlinear_arith)
            requires
                0 <= -c <= l,
                l >= 1,
        ;
        assert((-(c * ONE)) / l >= 0) by (nonlinear_arith)
            requires
                c < 0,
                l >= 1,
        ;
    }
}

pub fn clamp_i64(x: i64, lo: i64, hi: i64) -> (r: i64)
    requires
        lo <= hi,
    ensures
        r == clamp(x as int, lo as int, hi as int),
{
    if x < lo {
        lo
    } else if x > hi {
        hi
    } else {
        x
    }
}

impl Vec3 {
    pub open spec fn bounded(self, m: int) -> bool {
        within(self.x as int, m) && within(self.y as int, m) && within(self.z as int, m)
    }

    pub open spec fn is_zero(self) -> bool {
        self.x == 0 && self.y == 0 && self.z == 0
    }

    pub open spec fn dot_spec(self, o: Vec3) -> int {
        self.x * o.x + self.y * o.y + self.z * o.z
    }

    /// The length, rounded down.
    pub open spec fn length_spec(self) -> int {
        sqrt_floor(self.dot_spec(self))
    }

    /// This vector with its vertical component dropped.
    pub open spec fn horizontal_spec(self) -> Vec3 {
        Vec3 { x: self.x, y: 0, z: self.z }
    }

    /// The unit vector along a non-zero vector, in fixed point.
    pub open spec fn normalized(self) -> Vec3 {
        let l = self.length_spec();
        Vec3 {
            x: div_trunc(self.x * ONE, l) as i64,
            y: div_trunc(self.y * ONE, l) as i64,
            z: div_trunc(self.z * ONE, l) as i64,
        }
    }

    /// Each component multiplied by the fixed-point scalar `s`.
    pub open spec fn scaled_spec(self, s: int) -> Vec3 {
        Vec3 {
            x: fmul(s, self.x as int) as i64,
            y: fmul(s, self.y as int) as i64,
            z: fmul(s, self.z as int) as i64,
        }
    }

    /// The sum, each component held to `[-m, m]`.
    pub open spec fn add_sat_spec(self, o: Vec3, m: int) -> Vec3 {
        Vec3 {
            x: clamp(self.x + o.x, -m, m) as i64,
            y: clamp(self.y + o.y, -m, m) as i64,
            z: clamp(self.z + o.z, -m, m) as i64,
        }
    }

    /// How fast `self` moves along the unit direction `dir`; zero when it moves away.
    pub open spec fn speed_towards_spec(self, dir: Vec3) -> int {
        max(div_trunc(self.dot_spec(dir), ONE as int), 0)
    }

    pub fn new(x: i64, y: i64, z: i64) -> (r: Vec3)
        ensures
            r == (Vec3 { x, y, z }),
    {
        Vec3 { x, y, z }
    }

    pub fn zero() -> (r: Vec3)
        ensures
            r.is_zero(),
    {
        Vec3 { x: 0, y: 0, z: 0 }
    }

    pub fn horizontal(self) -> (r: Vec3)
        ensures
            r == self.horizontal_spec(),
    {
        Vec3 { x: self.x, y: 0, z: self.z }
    }

    pub fn neg(self) -> (r: Vec3)
        requires
            self.bounded(POS_MAX as int),
        ensures
            r == (Vec3 { x: -self.x as i64, y: -self.y as i64, z: -self.z as i64 }),
            r.bounded(POS_MAX as int),
    {
        Vec3 { x: -self.x, y: -self.y, z: -self.z }
    }

    /// The exact dot product.
    pub fn dot(self, o: Vec3) -> (r: i128)
        requires
            self.bounded(2 * POS_MAX),
            o.bounded(2 * POS_MAX),
        ensures
            r == self.dot_spec(o),
    {
        proof {
            lemma_product_bound(self.x as int, o.x as int);
            lemma_product_bound(self.y as int, o.y as int);
            lemma_product_bound(self.z as int, o.z as int);
        }
        (self.x as i128) * (o.x as i128) + (self.y as i128) * (o.y as i128) + (self.z as i128)
            * (o.z as i128)
    }

    /// The length, rounded down.
    pub fn length(self) -> (r: i64)
        requires
            self.bounded(2 * SPEED_MAX),
        ensures
            r == self.length_spec(),
            0 <= r <= 4 * SPEED_MAX,
            self.bounded(SPEED_MAX as int) ==> r <= 2 * SPEED_MAX,
            self.is_zero() <==> r == 0,
    {
        proof {
            self.lemma_dot_self_bound();
        }
        let n = self.dot(self);
        let l = isqrt(n as u128);
        proof {
            assert(l * l <= n < (l + 1) * (l + 1));
            if n == 0 {
                assert(l * l <= 0 ==> l == 0) by (nonlinear_arith);
            }
            if self.bounded(SPEED_MAX as int) {
                let m: int = SPEED_MAX as int;
                assert(n <= 3 * m * m) by (nonlinear_arith)
                    requires
                        n == self.x * self.x + self.y * self.y + self.z * self.z,
                        within(self.x as int, m),
                        within(self.y as int, m),
                        within(self.z as int, m),
                ;
                if l > 2 * SPEED_MAX {
                    assert(l * l > 4 * m * m) by (nonlinear_arith)
                        requires
                            l > 2 * m,
                            m > 0,
                    ;
                }
            }
            if l > 4 * SPEED_MAX {
                assert(l * l > 0x10_0000_0000_0000_0000) by (nonlinear_arith)
                    requires
                        l > 0x4_0000_0000,
                ;
            }
        }
        l as i64
    }

    proof fn lemma_dot_self_bound(self)
        requires
            self.bounded(2 * SPEED_MAX),
        ensures
            0 <= self.dot_spec(self) <= 0xC_0000_0000_0000_0000,
            self.is_zero() <==> self.dot_spec(self) == 0,
    {
        let m: int = 0x2_0000_0000;
        assert(m * m == 0x4_0000_0000_0000_0000) by (nonlinear_arith)
            requires
                m == 0x2_0000_0000,
        ;
        assert(0 <= self.x * self.x <= m * m) by (nonlinear_arith)
            requires
                within(self.x as int, m),
        ;
        assert(0 <= self.y * self.y <= m * m) by (nonlinear_arith)
            requires
                within(self.y as int, m),
        ;
        assert(0 <= self.z * self.z <= m * m) by (nonlinear_arith)
            requires
                within(self.z as int, m),
        ;
        if self.x != 0 {
            assert(self.x * self.x > 0) by (nonlinear_arith)
                requires
                    self.x != 0,
            ;
        }
        if self.y != 0 {
            assert(self.y * self.y > 0) by (nonlinear_arith)
                requires
                    self.y != 0,
            ;
        }
        if self.z != 0 {
            assert(self.z * self.z > 0) by (nonlinear_arith)
                requires
                    self.z != 0,
            ;
        }
        if self.is_zero() {
            assert(self.x * self.x == 0 && self.y * self.y == 0 && self.z * self.z == 0)
                by (nonlinear_arith)
                requires
                    self.x == 0 && self.y == 0 && self.z == 0,
            ;
        }
    }

    /// The unit vector along `self`, or `None` for the zero vector.
    pub fn normalize(self) -> (r: Option<Vec3>)
        requires
            self.bounded(2 * SPEED_MAX),
        ensures
            r == (if self.is_zero() {
                None
            } else {
                Some(self.normalized())
            }),
            r matches Some(d) ==> d.bounded(ONE as int),
    {
        if self.x == 0 && self.y == 0 && self.z == 0 {
            return None;
        }
        let l = self.length();
        proof {
            let n = self.dot_spec(self);
            self.lemma_dot_self_bound();
            fixed_is_isqrt(n, l as int);
            assert(self.x * self.x <= n && self.y * self.y <= n && self.z * self.z <= n)
                by (nonlinear_arith)
                requires
                    n == self.x * self.x + self.y * self.y + self.z * self.z,
            ;
            lemma_component_le_length(self.x as int, n, l as int);
            lemma_component_le_length(self.y as int, n, l as int);
            lemma_component_le_length(self.z as int, n, l as int);
            lemma_unit_component(self.x as int, l as int);
            lemma_unit_component(self.y as int, l as int);
            lemma_unit_component(self.z as int, l as int);
        }
        let x = div_toward_zero((self.x as i128) * (ONE as i128), l as i128);
        let y = div_toward_zero((self.y as i128) * (ONE as i128), l as i128);
        let z = div_toward_zero((self.z as i128) * (ONE as i128), l as i128);
        Some(Vec3 { x: x as i64, y: y as i64, z: z as i64 })
    }

    /// Each component multiplied by the fixed-point scalar `s`.
    pub fn scaled(self, s: i64) -> (r: Vec3)
        requires
            self.bounded(ONE as int),
            within(s as int, 2 * POS_MAX),
        ensures
            r == self.scaled_spec(s as int),
            r.bounded(if s >= 0 { s as int } else { -s }),
    {
        proof {
            let m: int = if s >= 0 { s as int } else { -s };
            lemma_scaled_bound(self.x as int, s as int, m);
            lemma_scaled_bound(self.y as int, s as int, m);
            lemma_scaled_bound(self.z as int, s as int, m);
        }
        Vec3 { x: fx_mul(s, self.x), y: fx_mul(s, self.y), z: fx_mul(s, self.z) }
    }

    /// The sum, each component held to `[-m, m]`.
    pub fn add_sat(self, o: Vec3, m: i64) -> (r: Vec3)
        requires
            self.bounded(POS_MAX as int),
            o.bounded(2 * POS_MAX),
            0 <= m,
        ensures
            r == self.add_sat_spec(o, m as int),
            r.bounded(m as int),
    {
        Vec3 {
            x: clamp_i64(self.x + o.x, -m, m),
            y: clamp_i64(self.y + o.y, -m, m),
            z: clamp_i64(self.z + o.z, -m, m),
        }
    }

    /// Each component held to `[-m, m]`.
    pub open spec fn saturate_spec(self, m: int) -> Vec3 {
        Vec3 {
            x: clamp(self.x as int, -m, m) as i64,
            y: clamp(self.y as int, -m, m) as i64,
            z: clamp(self.z as int, -m, m) as i64,
        }
    }

    /// Each component held to `[-m, m]`.
    pub fn saturate(self, m: i64) -> (r: Vec3)
        requires
            0 <= m,
        ensures
            r == self.saturate_spec(m as int),
            r.bounded(m as int),
    {
        Vec3 { x: clamp_i64(self.x, -m, m), y: clamp_i64(self.y, -m, m), z: clamp_i64(self.z, -m, m) }
    }

    /// How fast `self` moves along the unit direction `dir`; zero when it moves away.
    pub fn speed_towards(self, dir: Vec3) -> (r: i64)
        requires
            self.bounded(SPEED_MAX as int),
            dir.bounded(ONE as int),
        ensures
            r == self.speed_towards_spec(dir),
            0 <= r <= 3 * SPEED_MAX,
    {
        proof {
            let m = SPEED_MAX as int;
            let o = ONE as int;
            assert(within(self.x * dir.x, m * o)) by (nonlinear_arith)
                requires
                    within(self.x as int, m),
                    within(dir.x as int, o),
            ;
            assert(within(self.y * dir.y, m * o)) by (nonlinear_arith)
                requires
                    within(self.y as int, m),
                    within(dir.y as int, o),
            ;
            assert(within(self.z * dir.z, m * o)) by (nonlinear_arith)
                requires
                    within(self.z as int, m),
                    within(dir.z as int, o),
            ;
            crate::fixed::lemma_div_trunc_bound(self.dot_spec(dir), o, 3 * m);
        }
        let d = self.dot(dir);
        let q = div_toward_zero(d, ONE as i128);
        if q > 0 {
            q as i64
        } else {
            0
        }
    }

    /// The squared distance between two positions.
    pub fn dist_sq(self, o: Vec3) -> (r: i128)
        requires
            self.bounded(POS_MAX as int),
            o.bounded(POS_MAX as int),
        ensures
            r == (Vec3 {
                x: (self.x - o.x) as i64,
                y: (self.y - o.y) as i64,
                z: (self.z - o.z) as i64,
            }).dot_spec(
                Vec3 { x: (self.x - o.x) as i64, y: (self.y - o.y) as i64, z: (self.z - o.z) as i64 },
            ),
    {
        let d = Vec3 { x: self.x - o.x, y: self.y - o.y, z: self.z - o.z };
        d.dot(d)
    }
}

proof fn fixed_is_isqrt(n: int, l: int)
    requires
        l == sqrt_floor(n),
        n >= 0,
    ensures
        crate::fixed::is_isqrt(n, l),
{
    crate::fixed::lemma_sqrt_floor_exists(n);
}

proof fn lemma_product_bound(a: int, b: int)
    requires
        within(a, 2 * POS_MAX),
        within(b, 2 * POS_MAX),
    ensures
        within(a * b, 0x4_0000_0000_0000_0000_0000),
{
    assert(within(a * b, 0x4_0000_0000_0000_0000_0000)) by (nonlinear_arith)
        requires
            within(a, 0x200_0000_0000),
            within(b, 0x200_0000_0000),
    ;
}

impl Vec2 {
    pub open spec fn is_zero(self) -> bool {
        self.x == 0 && self.y == 0
    }

    /// The horizontal world vector `(x, 0, y)`.
    pub open spec fn flat_spec(self) -> Vec3 {
        Vec3 { x: self.x, y: 0, z: self.y }
    }

    pub fn new(x: i64, y: i64) -> (r: Vec2)
        ensures
            r == (Vec2 { x, y }),
    {
        Vec2 { x, y }
    }

    pub fn flat(self) -> (r: Vec3)
        ensures
            r == self.flat_spec(),
    {
        Vec3 { x: self.x, y: 0, z: self.y }
    }
}

} // verus!
