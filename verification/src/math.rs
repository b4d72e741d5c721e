//! Fixed-point geometry: vectors in thousandths of a world unit, integer
//! square roots, rounding to whole units and normalisation.

use vstd::prelude::*;

verus! {

/// Number of sub-units in one world unit. A unit vector has this length.
pub const UNIT: i64 = 1000;

/// Largest magnitude a world coordinate may have, in sub-units.
pub const WORLD_LIMIT: i64 = 1_000_000_000_000;

/// Largest magnitude of a displacement that `Vec3::displace` accepts.
pub const DELTA_LIMIT: i128 = 0x100_0000_0000_0000_0000_0000_0000_0000;

/// A point or displacement of the world: two planar coordinates and a layer,
/// all in sub-units.
#[derive(Clone, Copy, Debug, PartialEq, Eq, Structural)]
pub struct Vec3 {
    pub x: i64,
    pub y: i64,
    pub z: i64,
}

/// A planar extent in sub-units.
#[derive(Clone, Copy, Debug, PartialEq, Eq, Structural)]
pub struct Vec2 {
    pub x: i64,
    pub y: i64,
}

/// The magnitude of an integer.
pub open spec fn abs_spec(v: int) -> int {
    if v < 0 {
        -v
    } else {
        v
    }
}

/// Division that rounds toward zero, for a positive divisor.
pub open spec fn div_toward_zero(a: int, b: int) -> int
    recommends
        b > 0,
{
    if a >= 0 {
        a / b
    } else {
        -((-a) / b)
    }
}

/// A coordinate brought back into the world: values beyond `WORLD_LIMIT`
/// stop at the limit.
pub open spec fn confine_spec(v: int) -> int {
    if v > WORLD_LIMIT {
        WORLD_LIMIT as int
    } else if v < -WORLD_LIMIT {
        -WORLD_LIMIT
    } else {
        v
    }
}

/// A coordinate rounded to the nearest whole unit, halves away from zero.
/// The result counts units, not sub-units.
pub open spec fn round_units_spec(v: int) -> int {
    if v >= 0 {
        (v + 500) / 1000
    } else {
        -((-v + 500) / 1000)
    }
}

/// The squared distance between two points, over all three coordinates.
pub open spec fn distance_squared_spec(a: Vec3, b: Vec3) -> int {
    (b.x - a.x) * (b.x - a.x) + (b.y - a.y) * (b.y - a.y) + (b.z - a.z) * (b.z - a.z)
}

/// The length of the planar vector `(dx, dy)` in thousandths, rounded down.
pub open spec fn scaled_length_spec(dx: int, dy: int) -> nat {
    isqrt_spec(((dx * dx + dy * dy) * 1_000_000) as nat)
}

/// One component of the unit vector along `(dx, dy)`, scaled by `UNIT` and
/// rounded toward zero. The zero vector has direction zero.
pub open spec fn unit_component_spec(c: int, dx: int, dy: int) -> int {
    if scaled_length_spec(dx, dy) == 0 {
        0
    } else {
        div_toward_zero(c * 1_000_000, scaled_length_spec(dx, dy) as int)
    }
}

impl Vec3 {
    /// The origin.
    pub open spec fn zero_spec() -> Vec3 {
        Vec3 { x: 0, y: 0, z: 0 }
    }

    /// Every coordinate lies within `WORLD_LIMIT` of the origin.
    pub open spec fn in_world(self) -> bool {
        &&& -WORLD_LIMIT <= self.x <= WORLD_LIMIT
        &&& -WORLD_LIMIT <= self.y <= WORLD_LIMIT
        &&& -WORLD_LIMIT <= self.z <= WORLD_LIMIT
    }

    /// Every component lies between `-UNIT` and `UNIT`, as those of a
    /// direction do.
    pub open spec fn is_direction(self) -> bool {
        &&& -UNIT <= self.x <= UNIT
        &&& -UNIT <= self.y <= UNIT
        &&& -UNIT <= self.z <= UNIT
    }

    /// The point displaced by `(dx, dy, dz)` and confined to the world.
    pub open spec fn displaced(self, dx: int, dy: int, dz: int) -> Vec3 {
        Vec3 {
            x: confine_spec(self.x + dx) as i64,
            y: confine_spec(self.y + dy) as i64,
            z: confine_spec(self.z + dz) as i64,
        }
    }

    pub fn new(x: i64, y: i64, z: i64) -> (v: Vec3)
        ensures
            v == (Vec3 { x, y, z }),
    {
        Vec3 { x, y, z }
    }

    pub fn zero() -> (v: Vec3)
        ensures
            v == Vec3::zero_spec(),
    {
        Vec3 { x: 0, y: 0, z: 0 }
    }

    /// Whether the vector is the origin.
    pub fn is_zero(&self) -> (b: bool)
        ensures
            b == (*self == Vec3::zero_spec()),
    {
        self.x == 0 && self.y == 0 && self.z == 0
    }

    /// Decides whether the point lies in the world.
    pub fn within_world(&self) -> (b: bool)
        ensures
            b == self.in_world(),
    {
        -WORLD_LIMIT <= self.x && self.x <= WORLD_LIMIT && -WORLD_LIMIT <= self.y && self.y
            <= WORLD_LIMIT && -WORLD_LIMIT <= self.z && self.z <= WORLD_LIMIT
    }

    /// Decides whether the vector is no longer than a unit vector along any
    /// axis.
    pub fn within_unit(&self) -> (b: bool)
        ensures
            b == self.is_direction(),
    {
        -UNIT <= self.x && self.x <= UNIT && -UNIT <= self.y && self.y <= UNIT && -UNIT <= self.z
            && self.z <= UNIT
    }

    /// Displaces the point and confines the result to the world.
    pub fn displace(&self, dx: i128, dy: i128, dz: i128) -> (v: Vec3)
        requires
            -DELTA_LIMIT <= dx <= DELTA_LIMIT,
            -DELTA_LIMIT <= dy <= DELTA_LIMIT,
            -DELTA_LIMIT <= dz <= DELTA_LIMIT,
        ensures
            v == self.displaced(dx as int, dy as int, dz as int),
            v.in_world(),
    {
        Vec3 {
            x: confine(self.x as i128 + dx),
            y: confine(self.y as i128 + dy),
            z: confine(self.z as i128 + dz),
        }
    }
}

/// Computes a quotient rounded toward zero.
pub fn div_trunc(a: i128, b: i128) -> (r: i128)
    requires
        b > 0,
        a > i128::MIN,
    ensures
        r == div_toward_zero(a as int, b as int),
{
    a / b
}

/// Brings a coordinate back into the world.
pub fn confine(v: i128) -> (r: i64)
    ensures
        r == confine_spec(v as int),
        -WORLD_LIMIT <= r <= WORLD_LIMIT,
{
    if v > WORLD_LIMIT as i128 {
        WORLD_LIMIT
    } else if v < -(WORLD_LIMIT as i128) {
        -WORLD_LIMIT
    } else {
        v as i64
    }
}

/// Largest magnitude of a rate that `travelled` accepts.
pub const RATE_LIMIT: i128 = 0x1_0000_0000_0000_0000_0000_0000_0000;

/// Largest magnitude of a distance that `travelled` reports. It reaches
/// beyond the world from any coordinate.
pub const TRAVEL_LIMIT: i128 = 0x10_0000_0000_0000_0000_0000_0000;

/// A distance cut down to `TRAVEL_LIMIT` in magnitude.
pub open spec fn saturate_spec(q: int) -> int {
    if q > TRAVEL_LIMIT {
        TRAVEL_LIMIT as int
    } else if q < -TRAVEL_LIMIT {
        -TRAVEL_LIMIT
    } else {
        q
    }
}

/// The distance covered in `delta` milliseconds at `rate` thousandths of a
/// sub-unit per second, rounded toward zero.
pub open spec fn travelled_spec(rate: int, delta: u64) -> int {
    div_toward_zero(rate * delta, 1_000_000)
}

/// A displacement beyond `TRAVEL_LIMIT` leads out of the world from
/// wherever it starts, so cutting it down changes nothing once the result
/// is confined to the world.
pub proof fn lemma_saturation_is_confined(p: i64, q: int)
    ensures
        confine_spec(p + saturate_spec(q)) == confine_spec(p + q),
{
}

/// Cutting displacements down to `TRAVEL_LIMIT` does not change where they
/// lead within the world.
pub proof fn lemma_displaced_saturated(v: Vec3, dx: int, dy: int, dz: int)
    ensures
        v.displaced(saturate_spec(dx), saturate_spec(dy), saturate_spec(dz)) == v.displaced(
            dx,
            dy,
            dz,
        ),
{
    lemma_saturation_is_confined(v.x, dx);
    lemma_saturation_is_confined(v.y, dy);
    lemma_saturation_is_confined(v.z, dz);
}

/// Computes the distance covered in `delta` milliseconds at `rate`, cut down
/// to `TRAVEL_LIMIT` in magnitude.
pub fn travelled(rate: i128, delta: u64) -> (d: i128)
    requires
        -RATE_LIMIT <= rate <= RATE_LIMIT,
    ensures
        d == saturate_spec(travelled_spec(rate as int, delta)),
        -TRAVEL_LIMIT <= d <= TRAVEL_LIMIT,
{
    let ghost product = rate * delta;
    assert((rate > 0 ==> product >= 0) && (rate < 0 ==> product <= 0) && (rate == 0 ==> product
        == 0)) by (nonlinear_arith)
        requires
            product == rate * delta,
            delta >= 0,
    ;
    match rate.checked_mul(delta as i128) {
        Some(exact) => {
            let quotient = exact / 1_000_000;
            assert(quotient == travelled_spec(rate as int, delta));
            if quotient > TRAVEL_LIMIT {
                TRAVEL_LIMIT
            } else if quotient < -TRAVEL_LIMIT {
                -TRAVEL_LIMIT
            } else {
                quotient
            }
        },
        None => {
            if rate > 0 {
                assert(product > i128::MAX);
                assert(travelled_spec(rate as int, delta) == product / 1_000_000);
                assert(product / 1_000_000 >= TRAVEL_LIMIT);
                TRAVEL_LIMIT
            } else {
                assert(product < i128::MIN);
                assert(travelled_spec(rate as int, delta) == -((-product) / 1_000_000));
                assert((-product) / 1_000_000 >= TRAVEL_LIMIT);
                -TRAVEL_LIMIT
            }
        },
    }
}

/// Rounds a coordinate to the nearest whole unit, halves away from zero.
pub fn round_units(v: i64) -> (r: i64)
    ensures
        r == round_units_spec(v as int),
{
    let w: i128 = v as i128;
    if w >= 0 {
        ((w + 500) / 1000) as i64
    } else {
        (-((-w + 500) / 1000)) as i64
    }
}

/// The integer square root: the largest `r` with `r * r <= n`.
pub open spec fn isqrt_spec(n: nat) -> nat
    decreases n,
{
    if n == 0 {
        0
    } else {
        let r = isqrt_spec((n - 1) as nat);
        if (r + 1) * (r + 1) <= n {
            r + 1
        } else {
            r
        }
    }
}

/// `isqrt_spec(n)` is a root of `n` from below: its square does not exceed
/// `n`, and the square of its successor does.
pub proof fn lemma_isqrt_bounds(n: nat)
    ensures
        isqrt_spec(n) * isqrt_spec(n) <= n,
        n < (isqrt_spec(n) + 1) * (isqrt_spec(n) + 1),
    decreases n,
{
    let s = isqrt_spec(n);
    if n == 0 {
        assert(s * s == 0 && (s + 1) * (s + 1) == 1) by (nonlinear_arith)
            requires
                s == 0,
        ;
    } else {
        lemma_isqrt_bounds((n - 1) as nat);
        let r = isqrt_spec((n - 1) as nat);
        if (r + 1) * (r + 1) <= n {
            assert(n < (s + 1) * (s + 1)) by (nonlinear_arith)
                requires
                    n - 1 < s * s,
                    s >= 1,
            ;
        }
    }
}

/// Only one natural number lies between the bounds of `lemma_isqrt_bounds`.
pub proof fn lemma_isqrt_unique(n: nat, r: nat)
    requires
        r * r <= n,
        n < (r + 1) * (r + 1),
    ensures
        r == isqrt_spec(n),
{
    lemma_isqrt_bounds(n);
    let s = isqrt_spec(n);
    if r < s {
        assert((r + 1) * (r + 1) <= s * s) by (nonlinear_arith)
            requires
                r + 1 <= s,
        ;
    } else if s < r {
        assert((s + 1) * (s + 1) <= r * r) by (nonlinear_arith)
            requires
                s + 1 <= r,
        ;
    }
}

/// Computes the integer square root by bisection.
pub fn isqrt(n: u128) -> (r: u64)
    ensures
        r == isqrt_spec(n as nat),
{
    let mut lo: u128 = 0;
    let mut hi: u128 = 0x1_0000_0000_0000_0000;
    assert(n < hi * hi) by (nonlinear_arith)
        requires
            hi == 0x1_0000_0000_0000_0000,
            n <= u128::MAX,
    ;
    while hi - lo > 1
        invariant
            lo < hi <= 0x1_0000_0000_0000_0000,
            lo * lo <= n,
            n < hi * hi,
        decreases hi - lo,
    {
        let mid: u128 = lo + (hi - lo) / 2;
        assert(mid * mid <= 0xFFFF_FFFF_FFFF_FFFF * 0xFFFF_FFFF_FFFF_FFFF) by (nonlinear_arith)
            requires
                0 <= mid <= 0xFFFF_FFFF_FFFF_FFFF,
        ;
        if mid * mid <= n {
            lo = mid;
        } else {
            hi = mid;
        }
    }
    proof {
        lemma_isqrt_unique(n as nat, lo as nat);
    }
    lo as u64
}

/// Whether the distance between `a` and `b` lies strictly between `lo` and
/// `hi`, decided on squares so that no root is taken.
pub fn distance_strictly_between(a: Vec3, b: Vec3, lo: u32, hi: u32) -> (r: bool)
    ensures
        r == (lo * lo < distance_squared_spec(a, b) < hi * hi),
{
    let dx: i128 = b.x as i128 - a.x as i128;
    let dy: i128 = b.y as i128 - a.y as i128;
    let dz: i128 = b.z as i128 - a.z as i128;
    let h: i128 = hi as i128;
    let l: i128 = lo as i128;
    proof {
        lemma_square_bounds(dx as int, h as int);
        lemma_square_bounds(dy as int, h as int);
        lemma_square_bounds(dz as int, h as int);
        lemma_square_bounds(l as int, 0x1_0000_0000);
        lemma_square_bounds(h as int, 0x1_0000_0000);
        assert(0x1_0000_0000int * 0x1_0000_0000int == 0x1_0000_0000_0000_0000int);
    }
    if dx >= h || dx <= -h || dy >= h || dy <= -h || dz >= h || dz <= -h {
        false
    } else {
        let d2: i128 = dx * dx + dy * dy + dz * dz;
        l * l < d2 && d2 < h * h
    }
}

/// Squares are ordered as magnitudes are: below the bound, the square is
/// below the bound's square; at or above it, at or above.
pub proof fn lemma_square_bounds(v: int, bound: int)
    by (nonlinear_arith)
    requires
        bound >= 0,
    ensures
        0 <= v * v,
        -bound < v < bound ==> v * v < bound * bound,
        (v >= bound || v <= -bound) ==> v * v >= bound * bound,
{
}

/// The unit vector along `(dx, dy)`, scaled by `UNIT`, each component rounded
/// toward zero.
pub fn unit_vector(dx: i64, dy: i64) -> (r: (i64, i64))
    requires
        -2 * WORLD_LIMIT <= dx <= 2 * WORLD_LIMIT,
        -2 * WORLD_LIMIT <= dy <= 2 * WORLD_LIMIT,
    ensures
        r.0 == unit_component_spec(dx as int, dx as int, dy as int),
        r.1 == unit_component_spec(dy as int, dx as int, dy as int),
        -UNIT <= r.0 <= UNIT,
        -UNIT <= r.1 <= UNIT,
{
    let wx: i128 = dx as i128;
    let wy: i128 = dy as i128;
    proof {
        lemma_square_bounds(wx as int, 2_000_000_000_001);
        lemma_square_bounds(wy as int, 2_000_000_000_001);
        assert(2_000_000_000_001int * 2_000_000_000_001int
            == 4_000_000_000_004_000_000_000_001int);
    }
    let sum: i128 = wx * wx + wy * wy;
    let len: i128 = isqrt((sum * 1_000_000) as u128) as i128;
    if len == 0 {
        (0, 0)
    } else {
        proof {
            lemma_unit_component_bounded(wx as int, wx as int, wy as int);
            lemma_unit_component_bounded(wy as int, wx as int, wy as int);
        }
        let nx: i128 = div_trunc(wx * 1_000_000, len);
        let ny: i128 = div_trunc(wy * 1_000_000, len);
        (nx as i64, ny as i64)
    }
}

/// A component of a unit vector never exceeds `UNIT` in magnitude.
pub proof fn lemma_unit_component_bounded(c: int, dx: int, dy: int)
    requires
        c == dx || c == dy,
    ensures
        -UNIT <= unit_component_spec(c, dx, dy) <= UNIT,
{
    let n = ((dx * dx + dy * dy) * 1_000_000) as nat;
    let len = scaled_length_spec(dx, dy) as int;
    let m = abs_spec(c);
    assert(dx * dx >= 0 && dy * dy >= 0 && m * m == c * c && m * m <= dx * dx + dy * dy)
        by (nonlinear_arith)
        requires
            c == dx || c == dy,
            m == abs_spec(c),
    ;
    lemma_isqrt_bounds(n);
    if len > 0 {
        // 1000 * |c| squared is at most n, so it cannot exceed the root of n.
        assert(1000 * m <= len) by (nonlinear_arith)
            requires
                m >= 0,
                len >= 0,
                m * m * 1_000_000 <= n,
                n < (len + 1) * (len + 1),
        ;
        assert((m * 1_000_000) / len <= 1000) by (nonlinear_arith)
            requires
                0 <= m * 1_000_000 <= 1000 * len,
                len > 0,
        ;
        assert((m * 1_000_000) / len >= 0) by (nonlinear_arith)
            requires
                0 <= m * 1_000_000,
                len > 0,
        ;
        if c >= 0 {
            assert(c * 1_000_000 == m * 1_000_000);
        } else {
            assert(-(c * 1_000_000) == m * 1_000_000);
        }
    }
}

} // verus!
