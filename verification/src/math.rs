//! Fixed-point scalar and vector arithmetic.
//!
//! A scalar holds thousandths of a unit, so `1000` is one unit. Vectors are
//! triples of such scalars. Lengths come from an exact integer square root,
//! and normalization divides each component by the length with truncation
//! toward zero, the rounding machine integer division performs.

use vstd::prelude::*;

verus! {

/// One unit, in fixed-point thousandths.
pub const UNIT: i64 = 1000;

/// Largest magnitude a vector component may have before `norm` is taken;
/// keeps the sum of three squares within `SQRT_IN_MAX`.
pub const COORD_LIMIT: i64 = 30000000;

/// Largest input `isqrt` accepts (`2^52 - 1`).
pub const SQRT_IN_MAX: u64 = 4503599627370495;

/// Integer square root, defined by counting up: the largest `r` with
/// `r * r <= n`.
pub open spec fn isqrt_spec(n: int) -> int
    decreases n,
{
    if n <= 0 {
        0
    } else {
        let r = isqrt_spec(n - 1);
        if (r + 1) * (r + 1) <= n {
            r + 1
        } else {
            r
        }
    }
}

/// Squaring is monotonic on the nonnegative integers.
pub proof fn lemma_sq_mono(a: int, b: int)
    requires
        0 <= a <= b,
    ensures
        a * a <= b * b,
{
    assert(a * a <= b * b) by (nonlinear_arith)
        requires
            0 <= a <= b,
    ;
}

/// `isqrt_spec(n)` is the integer square root: its square is at most `n`,
/// and the next square is beyond `n`.
pub proof fn lemma_isqrt_bounds(n: int)
    requires
        n >= 0,
    ensures
        0 <= isqrt_spec(n),
        isqrt_spec(n) * isqrt_spec(n) <= n,
        n < (isqrt_spec(n) + 1) * (isqrt_spec(n) + 1),
    decreases n,
{
    if n == 0 {
    } else {
        lemma_isqrt_bounds(n - 1);
        let r = isqrt_spec(n - 1);
        assert(r * r <= n - 1 && n - 1 < (r + 1) * (r + 1));
        if (r + 1) * (r + 1) <= n {
            assert(isqrt_spec(n) == r + 1);
            assert((r + 1) * (r + 1) < (r + 2) * (r + 2)) by (nonlinear_arith)
                requires
                    r >= 0,
            ;
            assert(n < (r + 2) * (r + 2));
        } else {
            assert(isqrt_spec(n) == r);
            assert(r * r <= n);
            assert(n < (r + 1) * (r + 1));
        }
    }
}

/// Any `r` squeezed between consecutive squares around `n` is the square
/// root of `n`.
pub proof fn lemma_isqrt_unique(n: int, r: int)
    requires
        n >= 0,
        r >= 0,
        r * r <= n,
        n < (r + 1) * (r + 1),
    ensures
        r == isqrt_spec(n),
{
    let s = isqrt_spec(n);
    lemma_isqrt_bounds(n);
    if r < s {
        lemma_sq_mono(r + 1, s);
        assert(false);
    }
    if s < r {
        lemma_sq_mono(s + 1, r);
        assert(false);
    }
}

/// Exact integer square root by bisection.
pub fn isqrt(n: u64) -> (r: u64)
    requires
        n <= SQRT_IN_MAX,
    ensures
        r == isqrt_spec(n as int),
        r < 67108864,
{
    let mut lo: u64 = 0;
    let mut hi: u64 = 67108864;
    while lo + 1 < hi
        invariant
            lo < hi <= 67108864,
            n <= SQRT_IN_MAX,
            (lo as int) * (lo as int) <= n as int,
            (n as int) < (hi as int) * (hi as int),
        decreases hi - lo,
    {
        let mid: u64 = lo + (hi - lo) / 2;
        proof {
            lemma_sq_mono(mid as int, 67108864);
        }
        if mid * mid <= n {
            lo = mid;
        } else {
            hi = mid;
        }
    }
    proof {
        lemma_isqrt_unique(n as int, lo as int);
    }
    lo
}

/// Division truncated toward zero by a positive divisor, the rounding Rust's
/// `/` uses on machine integers.
pub open spec fn trunc_div(a: int, b: int) -> int
    recommends
        b > 0,
{
    if a >= 0 {
        a / b
    } else {
        -((-a) / b)
    }
}

/// Division truncated toward zero, computed on magnitudes so only unsigned
/// machine division is used.
pub fn div_trunc(a: i64, b: i64) -> (r: i64)
    requires
        b > 0,
        a > i64::MIN,
    ensures
        r == trunc_div(a as int, b as int),
        a >= 0 ==> 0 <= r <= a,
        a <= 0 ==> a <= r <= 0,
{
    if a >= 0 {
        proof {
            assert(0 <= a as int / b as int <= a) by (nonlinear_arith)
                requires
                    b >= 1,
                    a >= 0,
            ;
        }
        ((a as u64) / (b as u64)) as i64
    } else {
        let m: u64 = (-a) as u64;
        let q: u64 = m / (b as u64);
        proof {
            assert(q <= m) by (nonlinear_arith)
                requires
                    q == m as int / b as int,
                    b >= 1,
                    m >= 0,
            ;
        }
        -(q as i64)
    }
}

/// Multiplying within bounds stays within the product of the bounds.
pub proof fn lemma_mul_bound(a: int, b: int, aa: int, bb: int)
    requires
        -aa <= a <= aa,
        -bb <= b <= bb,
        0 <= aa,
        0 <= bb,
    ensures
        -(aa * bb) <= a * b <= aa * bb,
{
    assert(-(aa * bb) <= a * b <= aa * bb) by (nonlinear_arith)
        requires
            -aa <= a <= aa,
            -bb <= b <= bb,
            0 <= aa,
            0 <= bb,
    ;
}

/// Truncated division by `b` of anything within `b * k` stays within `k`.
pub proof fn lemma_trunc_div_bound(a: int, b: int, k: int)
    requires
        b >= 1,
        k >= 0,
        -(b * k) <= a <= b * k,
    ensures
        -k <= trunc_div(a, b) <= k,
{
    if a >= 0 {
        assert(0 <= a / b <= k) by (nonlinear_arith)
            requires
                b >= 1,
                k >= 0,
                0 <= a <= b * k,
        ;
    } else {
        assert(0 <= (-a) / b <= k) by (nonlinear_arith)
            requires
                b >= 1,
                k >= 0,
                0 <= -a <= b * k,
        ;
    }
}

/// The mathematical value of a vector: three unbounded integers.
pub struct Vec3View {
    pub x: int,
    pub y: int,
    pub z: int,
}

/// A fixed-point vector; components are thousandths of a unit.
#[derive(Clone, Copy, Debug, PartialEq, Eq, Structural)]
pub struct Vec3 {
    pub x: i64,
    pub y: i64,
    pub z: i64,
}

impl View for Vec3 {
    type V = Vec3View;

    open spec fn view(&self) -> Vec3View {
        Vec3View { x: self.x as int, y: self.y as int, z: self.z as int }
    }
}

/// The squared length of a vector.
pub open spec fn norm_sq(v: Vec3View) -> int {
    v.x * v.x + v.y * v.y + v.z * v.z
}

/// The fixed-point length of a vector: the integer square root of the
/// squared length.
pub open spec fn norm_of(v: Vec3View) -> int {
    isqrt_spec(norm_sq(v))
}

/// Whether every component is small enough for length computations.
pub open spec fn in_coord_range(v: Vec3View) -> bool {
    &&& -COORD_LIMIT <= v.x <= COORD_LIMIT
    &&& -COORD_LIMIT <= v.y <= COORD_LIMIT
    &&& -COORD_LIMIT <= v.z <= COORD_LIMIT
}

/// What normalization returns: `None` for the zero vector, else each
/// component scaled to a unit-length vector with truncation toward zero.
pub open spec fn normalized_of(v: Vec3View) -> Option<Vec3View> {
    if norm_sq(v) == 0 {
        None
    } else {
        Some(
            Vec3View {
                x: trunc_div(v.x * UNIT, norm_of(v)),
                y: trunc_div(v.y * UNIT, norm_of(v)),
                z: trunc_div(v.z * UNIT, norm_of(v)),
            },
        )
    }
}

impl Vec3 {
    pub fn new(x: i64, y: i64, z: i64) -> (r: Vec3)
        ensures
            r@ == (Vec3View { x: x as int, y: y as int, z: z as int }),
    {
        Vec3 { x, y, z }
    }

    pub fn zero() -> (r: Vec3)
        ensures
            r@ == (Vec3View { x: 0int, y: 0int, z: 0int }),
    {
        Vec3 { x: 0, y: 0, z: 0 }
    }

    /// Componentwise sum.
    pub fn plus(&self, other: &Vec3) -> (r: Vec3)
        requires
            i64::MIN <= self@.x + other@.x <= i64::MAX,
            i64::MIN <= self@.y + other@.y <= i64::MAX,
            i64::MIN <= self@.z + other@.z <= i64::MAX,
        ensures
            r@ == (Vec3View {
                x: self@.x + other@.x,
                y: self@.y + other@.y,
                z: self@.z + other@.z,
            }),
    {
        Vec3 { x: self.x + other.x, y: self.y + other.y, z: self.z + other.z }
    }

    /// Componentwise difference.
    pub fn minus(&self, other: &Vec3) -> (r: Vec3)
        requires
            i64::MIN <= self@.x - other@.x <= i64::MAX,
            i64::MIN <= self@.y - other@.y <= i64::MAX,
            i64::MIN <= self@.z - other@.z <= i64::MAX,
        ensures
            r@ == (Vec3View {
                x: self@.x - other@.x,
                y: self@.y - other@.y,
                z: self@.z - other@.z,
            }),
    {
        Vec3 { x: self.x - other.x, y: self.y - other.y, z: self.z - other.z }
    }

    /// Fixed-point length.
    pub fn norm(&self) -> (r: i64)
        requires
            in_coord_range(self@),
        ensures
            r == norm_of(self@),
            r >= 0,
    {
        proof {
            lemma_norm_sq_in_sqrt_range(self@);
        }
        let xx: i64 = self.x * self.x;
        let yy: i64 = self.y * self.y;
        let zz: i64 = self.z * self.z;
        let s: u64 = (xx + yy + zz) as u64;
        let r: u64 = isqrt(s);
        r as i64
    }

    /// Scale to unit length; `None` exactly for the zero vector.
    pub fn try_normalize(&self) -> (r: Option<Vec3>)
        requires
            in_coord_range(self@),
        ensures
            match r {
                Some(u) => normalized_of(self@) == Some(u@),
                None => normalized_of(self@) is None && self@ == (Vec3View {
                    x: 0int,
                    y: 0int,
                    z: 0int,
                }),
            },
    {
        if self.x == 0 && self.y == 0 && self.z == 0 {
            None
        } else {
            proof {
                lemma_nonzero_norm_sq(self@);
            }
            let n: i64 = self.norm();
            proof {
                lemma_norm_positive(self@);
            }
            let r = Vec3 {
                x: div_trunc(self.x * UNIT, n),
                y: div_trunc(self.y * UNIT, n),
                z: div_trunc(self.z * UNIT, n),
            };
            Some(r)
        }
    }
}

/// Within `COORD_LIMIT`, the sum of the three squares fits below
/// `SQRT_IN_MAX`.
pub proof fn lemma_norm_sq_in_sqrt_range(v: Vec3View)
    requires
        in_coord_range(v),
    ensures
        0 <= norm_sq(v) <= SQRT_IN_MAX,
        v.x * v.x <= norm_sq(v),
        v.y * v.y <= norm_sq(v),
        v.z * v.z <= norm_sq(v),
        v.x * v.x <= 900000000000000,
        v.y * v.y <= 900000000000000,
        v.z * v.z <= 900000000000000,
{
    assert(0 <= v.x * v.x <= 900000000000000) by (nonlinear_arith)
        requires
            -COORD_LIMIT <= v.x <= COORD_LIMIT,
    ;
    assert(0 <= v.y * v.y <= 900000000000000) by (nonlinear_arith)
        requires
            -COORD_LIMIT <= v.y <= COORD_LIMIT,
    ;
    assert(0 <= v.z * v.z <= 900000000000000) by (nonlinear_arith)
        requires
            -COORD_LIMIT <= v.z <= COORD_LIMIT,
    ;
}

/// No component exceeds the vector's length in magnitude.
pub proof fn lemma_component_le_norm(v: Vec3View)
    requires
        in_coord_range(v),
    ensures
        -norm_of(v) <= v.x <= norm_of(v),
        -norm_of(v) <= v.y <= norm_of(v),
        -norm_of(v) <= v.z <= norm_of(v),
{
    lemma_norm_sq_in_sqrt_range(v);
    lemma_isqrt_bounds(norm_sq(v));
    let n = norm_of(v);
    if v.x > n {
        lemma_sq_mono(n + 1, v.x);
        assert(false);
    }
    if v.x < -n {
        assert((-v.x) * (-v.x) == v.x * v.x) by (nonlinear_arith);
        lemma_sq_mono(n + 1, -v.x);
        assert(false);
    }
    if v.y > n {
        lemma_sq_mono(n + 1, v.y);
        assert(false);
    }
    if v.y < -n {
        assert((-v.y) * (-v.y) == v.y * v.y) by (nonlinear_arith);
        lemma_sq_mono(n + 1, -v.y);
        assert(false);
    }
    if v.z > n {
        lemma_sq_mono(n + 1, v.z);
        assert(false);
    }
    if v.z < -n {
        assert((-v.z) * (-v.z) == v.z * v.z) by (nonlinear_arith);
        lemma_sq_mono(n + 1, -v.z);
        assert(false);
    }
}

/// Each component of a normalized vector is within one unit.
pub proof fn lemma_normalized_bounds(v: Vec3View)
    requires
        in_coord_range(v),
    ensures
        match normalized_of(v) {
            None => true,
            Some(n) => {
                &&& -UNIT <= n.x <= UNIT
                &&& -UNIT <= n.y <= UNIT
                &&& -UNIT <= n.z <= UNIT
            },
        },
{
    if norm_sq(v) != 0 {
        lemma_norm_sq_in_sqrt_range(v);
        lemma_norm_positive(v);
        lemma_component_le_norm(v);
        let n = norm_of(v);
        assert(-(n * 1000) <= v.x * UNIT <= n * 1000) by (nonlinear_arith)
            requires
                -n <= v.x <= n,
                n >= 1,
        ;
        assert(-(n * 1000) <= v.y * UNIT <= n * 1000) by (nonlinear_arith)
            requires
                -n <= v.y <= n,
                n >= 1,
        ;
        assert(-(n * 1000) <= v.z * UNIT <= n * 1000) by (nonlinear_arith)
            requires
                -n <= v.z <= n,
                n >= 1,
        ;
        lemma_trunc_div_bound(v.x * UNIT, n, 1000);
        lemma_trunc_div_bound(v.y * UNIT, n, 1000);
        lemma_trunc_div_bound(v.z * UNIT, n, 1000);
    }
}

/// A vector with a nonzero component has a positive squared length.
pub proof fn lemma_nonzero_norm_sq(v: Vec3View)
    requires
        v.x != 0 || v.y != 0 || v.z != 0,
    ensures
        norm_sq(v) >= 1,
{
    assert(v.x * v.x >= 0 && v.y * v.y >= 0 && v.z * v.z >= 0) by (nonlinear_arith);
    if v.x != 0 {
        assert(v.x * v.x >= 1) by (nonlinear_arith)
            requires
                v.x != 0,
        ;
    } else if v.y != 0 {
        assert(v.y * v.y >= 1) by (nonlinear_arith)
            requires
                v.y != 0,
        ;
    } else {
        assert(v.z * v.z >= 1) by (nonlinear_arith)
            requires
                v.z != 0,
        ;
    }
}

/// A vector with a nonzero component has positive length.
pub proof fn lemma_norm_positive(v: Vec3View)
    requires
        norm_sq(v) >= 1,
    ensures
        norm_of(v) >= 1,
{
    lemma_isqrt_bounds(norm_sq(v));
    let r = isqrt_spec(norm_sq(v));
    if r == 0 {
        assert((r + 1) * (r + 1) == 1) by (nonlinear_arith)
            requires
                r == 0,
        ;
        assert(false);
    }
}

} // verus!
