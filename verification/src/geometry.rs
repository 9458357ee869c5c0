//! Fixed-point plane geometry.
//!
//! Positions, distances and speeds are integers counted in subunits:
//! `SUBUNITS` subunits make one world unit.  Squared distances stay exact;
//! where a true length or a normalized step is needed, the floor square root
//! and truncating scaled division below pin down the rounding once and for
//! all.

use vstd::prelude::*;

verus! {

/// Subunits per world unit: every coordinate, radius and speed in this crate
/// is a whole number of subunits.
pub const SUBUNITS: i64 = 1000;

/// Bound on any coordinate fed to the geometry routines, in subunits.
/// Within it, squared distances and scaled products fit comfortably in `i64`.
pub const GEOM_LIMIT: i64 = 1_000_000_000;

/// A point or direction in the plane, in subunits.
#[derive(Clone, Copy, Debug, PartialEq, Eq, Structural)]
pub struct Vec2 {
    pub x: i64,
    pub y: i64,
}

/// A cell of the tile grid.
#[derive(Clone, Copy, Debug, PartialEq, Eq, Structural, Hash)]
pub struct GridPos {
    pub x: i64,
    pub y: i64,
}

impl Vec2 {
    pub fn new(x: i64, y: i64) -> (v: Vec2)
        ensures
            v.x == x && v.y == y,
    {
        Vec2 { x, y }
    }

    /// Both coordinates within `bound` in absolute value.
    pub open spec fn in_range(self, bound: int) -> bool {
        -bound <= self.x <= bound && -bound <= self.y <= bound
    }
}

/// Squared Euclidean distance between two points.
pub open spec fn dist_sq(a: Vec2, b: Vec2) -> int {
    (b.x - a.x) * (b.x - a.x) + (b.y - a.y) * (b.y - a.y)
}

/// Dot product of two direction vectors.
pub open spec fn dot(a: Vec2, b: Vec2) -> int {
    a.x * b.x + a.y * b.y
}

/// Executable squared distance.
pub fn dist_sq_i64(a: Vec2, b: Vec2) -> (r: i64)
    requires
        a.in_range(GEOM_LIMIT as int),
        b.in_range(GEOM_LIMIT as int),
    ensures
        r == dist_sq(a, b),
{
    let dx = b.x - a.x;
    let dy = b.y - a.y;
    proof {
        assert(dx * dx + dy * dy <= 8_000_000_000_000_000_000 && dx * dx >= 0 && dy * dy >= 0)
            by (nonlinear_arith)
            requires
                -2_000_000_000 <= dx <= 2_000_000_000,
                -2_000_000_000 <= dy <= 2_000_000_000,
        ;
    }
    dx * dx + dy * dy
}

/// Executable dot product.
pub fn dot_i64(a: Vec2, b: Vec2) -> (r: i64)
    requires
        a.in_range(GEOM_LIMIT as int),
        b.in_range(GEOM_LIMIT as int),
    ensures
        r == dot(a, b),
{
    proof {
        assert(-2_000_000_000_000_000_000 <= a.x * b.x + a.y * b.y <= 2_000_000_000_000_000_000
            && -1_000_000_000_000_000_000 <= a.x * b.x <= 1_000_000_000_000_000_000
            && -1_000_000_000_000_000_000 <= a.y * b.y <= 1_000_000_000_000_000_000)
            by (nonlinear_arith)
            requires
                -1_000_000_000 <= a.x <= 1_000_000_000,
                -1_000_000_000 <= a.y <= 1_000_000_000,
                -1_000_000_000 <= b.x <= 1_000_000_000,
                -1_000_000_000 <= b.y <= 1_000_000_000,
        ;
    }
    a.x * b.x + a.y * b.y
}

/// The floor of the square root of `n` (0 for negative `n`).
pub open spec fn sqrt_floor(n: int) -> int
    decreases n,
{
    if n <= 0 {
        0
    } else {
        let r = sqrt_floor(n - 1);
        if (r + 1) * (r + 1) <= n {
            r + 1
        } else {
            r
        }
    }
}

/// `sqrt_floor` really is the floor of the square root.
pub proof fn lemma_sqrt_floor(n: int)
    ensures
        0 <= sqrt_floor(n),
        sqrt_floor(n) * sqrt_floor(n) <= vstd::math::max(n, 0),
        n < (sqrt_floor(n) + 1) * (sqrt_floor(n) + 1),
    decreases n,
{
    if n <= 0 {
    } else {
        lemma_sqrt_floor(n - 1);
        let r = sqrt_floor(n - 1);
        if (r + 1) * (r + 1) <= n {
            assert(n < (r + 2) * (r + 2)) by (nonlinear_arith)
                requires
                    n - 1 < (r + 1) * (r + 1),
                    0 <= r,
            ;
        }
    }
}

/// Any `r` with `r * r <= n < (r + 1) * (r + 1)` is `sqrt_floor(n)`.
pub proof fn lemma_sqrt_floor_unique(n: int, r: int)
    requires
        0 <= r,
        r * r <= n,
        n < (r + 1) * (r + 1),
    ensures
        r == sqrt_floor(n),
{
    lemma_sqrt_floor(n);
    let s = sqrt_floor(n);
    assert(r == s) by (nonlinear_arith)
        requires
            0 <= r,
            0 <= s,
            r * r <= n,
            n < (r + 1) * (r + 1),
            s * s <= n,
            n < (s + 1) * (s + 1),
    ;
}

/// Floor square root of a 64-bit integer.
pub fn isqrt(n: u64) -> (r: u64)
    ensures
        r == sqrt_floor(n as int),
{
    let mut lo: u64 = 0;
    let mut hi: u64 = if n < 4294967295 {
        n
    } else {
        4294967295
    };
    proof {
        assert((hi + 1) * (hi + 1) > n) by (nonlinear_arith)
            requires
                hi == n || hi == 4294967295,
                n <= 0xffff_ffff_ffff_ffff,
        ;
    }
    while lo < hi
        invariant
            0 <= lo <= hi <= 4294967295,
            lo * lo <= n,
            n < (hi + 1) * (hi + 1),
        decreases hi - lo,
    {
        let mid: u64 = lo + (hi - lo + 1) / 2;
        proof {
            assert(mid * mid <= 0xffff_fffe_0000_0001) by (nonlinear_arith)
                requires
                    0 <= mid <= 4294967295,
            ;
        }
        if mid * mid <= n {
            lo = mid;
        } else {
            hi = mid - 1;
        }
    }
    proof {
        lemma_sqrt_floor_unique(n as int, lo as int);
    }
    lo
}

/// `v / d` rounded to the nearest integer, halves away from zero.
pub open spec fn round_div(v: int, d: int) -> int {
    if v >= 0 {
        (v + d / 2) / d
    } else {
        -(((-v) + d / 2) / d)
    }
}

/// Rounding division on machine integers.
pub fn round_div_i64(v: i64, d: i64) -> (r: i64)
    requires
        -GEOM_LIMIT <= v <= GEOM_LIMIT,
        1 <= d <= 1_000_000,
    ensures
        r == round_div(v as int, d as int),
{
    let du: u64 = d as u64;
    if v >= 0 {
        ((v as u64 + du / 2) / du) as i64
    } else {
        -((((-v) as u64 + du / 2) / du) as i64)
    }
}

/// `v * num / den` with the quotient truncated toward zero.
pub open spec fn scale_frac(v: int, num: int, den: int) -> int {
    if v >= 0 {
        (v * num) / den
    } else {
        -(((-v) * num) / den)
    }
}

/// `sqrt_floor` is bounded by any `m` whose square bounds `n`.
pub proof fn lemma_sqrt_le_of_sq(n: int, m: int)
    requires
        0 <= m,
        n <= m * m,
    ensures
        sqrt_floor(n) <= m,
{
    lemma_sqrt_floor(n);
    let s = sqrt_floor(n);
    assert(s <= m) by (nonlinear_arith)
        requires
            0 <= s,
            0 <= m,
            s * s <= vstd::math::max(n, 0),
            n <= m * m,
    ;
}

/// `sqrt_floor` dominates any `m` whose square `n` dominates.
pub proof fn lemma_sqrt_ge_of_sq(n: int, m: int)
    requires
        0 <= m,
        m * m <= n,
    ensures
        m <= sqrt_floor(n),
{
    lemma_sqrt_floor(n);
    let s = sqrt_floor(n);
    assert(m <= s) by (nonlinear_arith)
        requires
            0 <= s,
            0 <= m,
            m * m <= n,
            n < (s + 1) * (s + 1),
    ;
}

/// Each component of a vector is bounded by the floor length of the vector.
pub proof fn lemma_component_le_norm(x: int, y: int)
    ensures
        -sqrt_floor(x * x + y * y) <= x <= sqrt_floor(x * x + y * y),
        -sqrt_floor(x * x + y * y) <= y <= sqrt_floor(x * x + y * y),
{
    let n = x * x + y * y;
    let ax = if x >= 0 { x } else { -x };
    let ay = if y >= 0 { y } else { -y };
    assert(ax * ax <= n && ay * ay <= n) by (nonlinear_arith)
        requires
            n == x * x + y * y,
            ax == if x >= 0 { x } else { -x },
            ay == if y >= 0 { y } else { -y },
    ;
    lemma_sqrt_ge_of_sq(n, ax);
    lemma_sqrt_ge_of_sq(n, ay);
}

/// Sign and size of a truncating scaled division: the result keeps the sign
/// of `v`, never exceeds `num` once `v` is within `den`, and never exceeds
/// `v` itself once `num` is within `den`.
pub proof fn lemma_scale_frac_bounds(v: int, num: int, den: int)
    requires
        1 <= den,
        0 <= num,
    ensures
        v >= 0 ==> 0 <= scale_frac(v, num, den),
        v <= 0 ==> scale_frac(v, num, den) <= 0,
        -den <= v <= den ==> -num <= scale_frac(v, num, den) <= num,
        num <= den && v >= 0 ==> scale_frac(v, num, den) <= v,
        num <= den && v <= 0 ==> v <= scale_frac(v, num, den),
{
    let u = if v >= 0 { v } else { -v };
    assert(0 <= u * num) by (nonlinear_arith)
        requires
            0 <= u,
            0 <= num,
    ;
    vstd::arithmetic::div_mod::lemma_div_pos_is_pos(u * num, den);
    if u <= den {
        assert(u * num <= den * num) by (nonlinear_arith)
            requires
                u <= den,
                0 <= num,
        ;
        vstd::arithmetic::div_mod::lemma_div_is_ordered(u * num, den * num, den);
        vstd::arithmetic::div_mod::lemma_div_multiples_vanish(num, den);
    }
    if num <= den {
        assert(u * num <= den * u) by (nonlinear_arith)
            requires
                num <= den,
                0 <= u,
        ;
        vstd::arithmetic::div_mod::lemma_div_is_ordered(u * num, den * u, den);
        vstd::arithmetic::div_mod::lemma_div_multiples_vanish(u, den);
    }
    if v == 0 {
        vstd::arithmetic::div_mod::lemma_div_of0(den);
        assert(v * num == 0) by (nonlinear_arith)
            requires
                v == 0,
        ;
    }
    if v >= 0 {
        assert(v * num == u * num);
    } else {
        assert((-v) * num == u * num);
        assert(scale_frac(v, num, den) == -((u * num) / den));
    }
}

/// Truncating scaled division on machine integers.
pub fn scale_frac_i64(v: i64, num: u64, den: u64) -> (r: i64)
    requires
        -GEOM_LIMIT <= v <= GEOM_LIMIT,
        num <= 4_000_000_000,
        den >= 1,
    ensures
        r == scale_frac(v as int, num as int, den as int),
{
    let mag: u64 = if v >= 0 {
        v as u64
    } else {
        (-v) as u64
    };
    proof {
        assert(mag * num <= 4_000_000_000_000_000_000) by (nonlinear_arith)
            requires
                0 <= mag <= 1_000_000_000,
                0 <= num <= 4_000_000_000,
        ;
    }
    let q: u64 = (mag * num) / den;
    proof {
        assert(q <= mag * num) by (nonlinear_arith)
            requires
                q == (mag * num) / (den as int),
                den >= 1,
                mag * num >= 0,
        ;
    }
    if v >= 0 {
        q as i64
    } else {
        -(q as i64)
    }
}

}
