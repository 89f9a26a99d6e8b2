use vstd::math::abs;
use vstd::prelude::*;

verus! {

/// A three-component vector with exact integer coordinates.
#[derive(Clone, Copy, Debug, PartialEq, Eq, Structural)]
pub struct Vector3 {
    pub x: i64,
    pub y: i64,
    pub z: i64,
}

/// True when `v` fits in an `i64`.
pub open spec fn fits_i64(v: int) -> bool {
    i64::MIN <= v <= i64::MAX
}

/// Dot product over the mathematical integers.
pub open spec fn dot_of(a: Vector3, b: Vector3) -> int {
    a.x * b.x + a.y * b.y + a.z * b.z
}

/// Squared Euclidean distance over the mathematical integers.
pub open spec fn dist_sq_of(a: Vector3, b: Vector3) -> int {
    (a.x - b.x) * (a.x - b.x) + (a.y - b.y) * (a.y - b.y) + (a.z - b.z) * (a.z - b.z)
}

/// Cross product over the mathematical integers, as a triple.
pub open spec fn cross_of(a: Vector3, b: Vector3) -> (int, int, int) {
    (a.y * b.z - a.z * b.y, a.z * b.x - a.x * b.z, a.x * b.y - a.y * b.x)
}

/// Quotient of `a` by `b` rounded toward zero, as Rust's integer division rounds.
pub open spec fn trunc_div(a: int, b: int) -> int {
    if (a >= 0) == (b > 0) {
        (abs(a) / abs(b)) as int
    } else {
        -(abs(a) / abs(b))
    }
}

/// `r` is the integer square root of `n`: the largest integer whose square is at most `n`.
pub open spec fn is_isqrt(r: int, n: int) -> bool {
    0 <= r && r * r <= n && n < (r + 1) * (r + 1)
}

/// The integer square root of `n`.
pub open spec fn isqrt_of(n: int) -> int {
    choose|r: int| is_isqrt(r, n)
}

/// The integer square root is unique, so `isqrt_of` names it.
pub proof fn lemma_isqrt_unique(r: int, n: int)
    requires
        is_isqrt(r, n),
    ensures
        isqrt_of(n) == r,
{
    let c = isqrt_of(n);
    assert(is_isqrt(c, n));
    if c < r {
        assert((c + 1) * (c + 1) <= r * r) by (nonlinear_arith)
            requires
                0 <= c < r,
        ;
    } else if c > r {
        assert((r + 1) * (r + 1) <= c * c) by (nonlinear_arith)
            requires
                0 <= r < c,
        ;
    }
}

/// Integer square root of a non-negative `i64`, found by bisection.
pub(crate) fn isqrt(n: i64) -> (r: i64)
    requires
        n >= 0,
    ensures
        is_isqrt(r as int, n as int),
{
    let mut lo: i128 = 0;
    let mut hi: i128 = 3_037_000_500;
    assert(hi * hi > n) by (nonlinear_arith)
        requires
            hi == 3_037_000_500,
            n <= 0x7fff_ffff_ffff_ffff,
    ;
    while hi - lo > 1
        invariant
            0 <= lo < hi <= 3_037_000_500,
            lo * lo <= n,
            n < hi * hi,
        decreases hi - lo,
    {
        let mid: i128 = lo + (hi - lo) / 2;
        assert(0 <= mid * mid <= 3_037_000_500 * 3_037_000_500) by (nonlinear_arith)
            requires
                0 <= mid <= 3_037_000_500,
        ;
        if mid * mid <= n as i128 {
            lo = mid;
        } else {
            hi = mid;
        }
    }
    assert(hi == lo + 1);
    lo as i64
}

/// Quotient of `a` by `b` rounded toward zero.
pub(crate) fn div_toward_zero(a: i64, b: i64) -> (r: i64)
    requires
        b != 0,
        b == -1 ==> a != i64::MIN,
    ensures
        r == trunc_div(a as int, b as int),
{
    let wa: i128 = if a < 0 { -(a as i128) } else { a as i128 };
    let wb: i128 = if b < 0 { -(b as i128) } else { b as i128 };
    let q: i128 = wa / wb;
    assert(0 <= q <= wa) by (nonlinear_arith)
        requires
            wa >= 0,
            wb >= 1,
            q == wa / wb,
    ;
    if (a >= 0) == (b > 0) {
        assert(q * wb <= wa) by (nonlinear_arith)
            requires
                wa >= 0,
                wb >= 1,
                q == wa / wb,
        ;
        assert(q <= i64::MAX) by (nonlinear_arith)
            requires
                wb >= 1,
                q >= 0,
                q * wb <= wa,
                wa <= 0x8000_0000_0000_0000,
                wb == 1 ==> wa <= 0x7fff_ffff_ffff_ffff,
        ;
        q as i64
    } else {
        (-q) as i64
    }
}

proof fn lemma_prod_bound(a: i64, b: i64)
    ensures
        -0x4000_0000_0000_0000_0000_0000_0000_0000 <= a * b <= 0x4000_0000_0000_0000_0000_0000_0000_0000,
{
    assert(-0x4000_0000_0000_0000_0000_0000_0000_0000 <= a * b <= 0x4000_0000_0000_0000_0000_0000_0000_0000) by (nonlinear_arith)
        requires
            -0x8000_0000_0000_0000 <= a <= 0x7fff_ffff_ffff_ffff,
            -0x8000_0000_0000_0000 <= b <= 0x7fff_ffff_ffff_ffff,
    ;
}

impl Vector3 {
    pub fn new(x: i64, y: i64, z: i64) -> (r: Vector3)
        ensures
            r.x == x,
            r.y == y,
            r.z == z,
    {
        Vector3 { x, y, z }
    }

    pub fn dot(&self, other: &Vector3) -> (r: i64)
        requires
            fits_i64(dot_of(*self, *other)),
        ensures
            r == dot_of(*self, *other),
    {
        proof {
            lemma_prod_bound(self.x, other.x);
            lemma_prod_bound(self.y, other.y);
            lemma_prod_bound(self.z, other.z);
        }
        let sum: i128 = (self.x as i128) * (other.x as i128) + (self.y as i128) * (other.y as i128)
            + (self.z as i128) * (other.z as i128);
        sum as i64
    }

    pub fn cross(&self, other: &Vector3) -> (r: Vector3)
        requires
            fits_i64(cross_of(*self, *other).0),
            fits_i64(cross_of(*self, *other).1),
            fits_i64(cross_of(*self, *other).2),
        ensures
            (r.x as int, r.y as int, r.z as int) == cross_of(*self, *other),
    {
        proof {
            lemma_prod_bound(self.y, other.z);
            lemma_prod_bound(self.z, other.y);
            lemma_prod_bound(self.z, other.x);
            lemma_prod_bound(self.x, other.z);
            lemma_prod_bound(self.x, other.y);
            lemma_prod_bound(self.y, other.x);
        }
        let x: i128 = (self.y as i128) * (other.z as i128) - (self.z as i128) * (other.y as i128);
        let y: i128 = (self.z as i128) * (other.x as i128) - (self.x as i128) * (other.z as i128);
        let z: i128 = (self.x as i128) * (other.y as i128) - (self.y as i128) * (other.x as i128);
        Vector3 { x: x as i64, y: y as i64, z: z as i64 }
    }

    pub fn norm_squared(&self) -> (r: i64)
        requires
            fits_i64(dot_of(*self, *self)),
        ensures
            r == dot_of(*self, *self),
    {
        self.dot(self)
    }

    /// Euclidean length, rounded down to an integer.
    pub fn length(&self) -> (r: i64)
        requires
            fits_i64(dot_of(*self, *self)),
        ensures
            is_isqrt(r as int, dot_of(*self, *self)),
    {
        let n = self.norm_squared();
        assert(n >= 0) by (nonlinear_arith)
            requires
                n == self.x * self.x + self.y * self.y + self.z * self.z,
        ;
        isqrt(n)
    }

    /// The vector divided by its length rounded down, each coordinate rounded
    /// toward zero; the zero vector is returned unchanged.
    pub fn normalize(&self) -> (r: Vector3)
        requires
            fits_i64(dot_of(*self, *self)),
        ensures
            ({
                let n = isqrt_of(dot_of(*self, *self));
                &&& n == 0 ==> r == *self
                &&& n != 0 ==> r.x == trunc_div(self.x as int, n) && r.y == trunc_div(self.y as int, n)
                    && r.z == trunc_div(self.z as int, n)
            }),
    {
        let length = self.length();
        proof {
            lemma_isqrt_unique(length as int, dot_of(*self, *self));
        }
        if length == 0 {
            *self
        } else {
            Vector3 {
                x: div_toward_zero(self.x, length),
                y: div_toward_zero(self.y, length),
                z: div_toward_zero(self.z, length),
            }
        }
    }

    /// Euclidean distance to `other`, rounded down to an integer.
    pub fn distance(&self, other: &Vector3) -> (r: i64)
        requires
            fits_i64(dist_sq_of(*self, *other)),
        ensures
            is_isqrt(r as int, dist_sq_of(*self, *other)),
    {
        let dx: i128 = self.x as i128 - other.x as i128;
        let dy: i128 = self.y as i128 - other.y as i128;
        let dz: i128 = self.z as i128 - other.z as i128;
        assert(0 <= dx * dx <= i64::MAX && 0 <= dy * dy <= i64::MAX && 0 <= dz * dz <= i64::MAX)
            by (nonlinear_arith)
            requires
                dx * dx + dy * dy + dz * dz <= i64::MAX,
        ;
        let sq: i128 = dx * dx + dy * dy + dz * dz;
        isqrt(sq as i64)
    }
}

impl core::ops::Add for Vector3 {
    type Output = Vector3;

    fn add(self, rhs: Vector3) -> Vector3 {
        Vector3 { x: self.x + rhs.x, y: self.y + rhs.y, z: self.z + rhs.z }
    }
}

impl vstd::std_specs::ops::AddSpecImpl for Vector3 {
    open spec fn obeys_add_spec() -> bool {
        true
    }

    open spec fn add_req(self, rhs: Vector3) -> bool {
        fits_i64(self.x + rhs.x) && fits_i64(self.y + rhs.y) && fits_i64(self.z + rhs.z)
    }

    open spec fn add_spec(self, rhs: Vector3) -> Vector3 {
        Vector3 {
            x: (self.x + rhs.x) as i64,
            y: (self.y + rhs.y) as i64,
            z: (self.z + rhs.z) as i64,
        }
    }
}

impl core::ops::Sub for Vector3 {
    type Output = Vector3;

    fn sub(self, rhs: Vector3) -> Vector3 {
        Vector3 { x: self.x - rhs.x, y: self.y - rhs.y, z: self.z - rhs.z }
    }
}

impl vstd::std_specs::ops::SubSpecImpl for Vector3 {
    open spec fn obeys_sub_spec() -> bool {
        true
    }

    open spec fn sub_req(self, rhs: Vector3) -> bool {
        fits_i64(self.x - rhs.x) && fits_i64(self.y - rhs.y) && fits_i64(self.z - rhs.z)
    }

    open spec fn sub_spec(self, rhs: Vector3) -> Vector3 {
        Vector3 {
            x: (self.x - rhs.x) as i64,
            y: (self.y - rhs.y) as i64,
            z: (self.z - rhs.z) as i64,
        }
    }
}

impl core::ops::Mul<i64> for Vector3 {
    type Output = Vector3;

    fn mul(self, scalar: i64) -> Vector3 {
        Vector3 { x: self.x * scalar, y: self.y * scalar, z: self.z * scalar }
    }
}

impl vstd::std_specs::ops::MulSpecImpl<i64> for Vector3 {
    open spec fn obeys_mul_spec() -> bool {
        true
    }

    open spec fn mul_req(self, scalar: i64) -> bool {
        fits_i64(self.x * scalar) && fits_i64(self.y * scalar) && fits_i64(self.z * scalar)
    }

    open spec fn mul_spec(self, scalar: i64) -> Vector3 {
        Vector3 {
            x: (self.x * scalar) as i64,
            y: (self.y * scalar) as i64,
            z: (self.z * scalar) as i64,
        }
    }
}

impl core::ops::Div<i64> for Vector3 {
    type Output = Vector3;

    fn div(self, scalar: i64) -> Vector3 {
        Vector3 {
            x: div_toward_zero(self.x, scalar),
            y: div_toward_zero(self.y, scalar),
            z: div_toward_zero(self.z, scalar),
        }
    }
}

impl vstd::std_specs::ops::DivSpecImpl<i64> for Vector3 {
    open spec fn obeys_div_spec() -> bool {
        true
    }

    open spec fn div_req(self, scalar: i64) -> bool {
        scalar != 0 && (scalar == -1 ==> self.x != i64::MIN && self.y != i64::MIN && self.z != i64::MIN)
    }

    open spec fn div_spec(self, scalar: i64) -> Vector3 {
        Vector3 {
            x: trunc_div(self.x as int, scalar as int) as i64,
            y: trunc_div(self.y as int, scalar as int) as i64,
            z: trunc_div(self.z as int, scalar as int) as i64,
        }
    }
}

} // verus!
