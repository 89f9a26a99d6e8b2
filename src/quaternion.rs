//! Quaternions with exact integer components.
use vstd::prelude::*;
use crate::vector::{
    div_toward_zero, fits_i64, isqrt, isqrt_of, lemma_isqrt_unique, trunc_div, Vector3,
};

verus! {

/// A quaternion `w + xi + yj + zk` with exact integer components.
#[derive(Clone, Copy, Debug, PartialEq, Eq, Structural)]
pub struct Quaternion {
    pub w: i64,
    pub x: i64,
    pub y: i64,
    pub z: i64,
}

/// The Hamilton product `a * b` over the mathematical integers, as (w, x, y, z).
pub open spec fn product_of(a: Quaternion, b: Quaternion) -> (int, int, int, int) {
    (
        a.w * b.w - a.x * b.x - a.y * b.y - a.z * b.z,
        a.w * b.x + a.x * b.w + a.y * b.z - a.z * b.y,
        a.w * b.y - a.x * b.z + a.y * b.w + a.z * b.x,
        a.w * b.z + a.x * b.y - a.y * b.x + a.z * b.w,
    )
}

/// The squared norm `w² + x² + y² + z²` over the mathematical integers.
pub open spec fn norm_sq_of(q: Quaternion) -> int {
    q.w * q.w + q.x * q.x + q.y * q.y + q.z * q.z
}

/// The matrix by which `rotate_vector` multiplies, row by row: for a unit
/// quaternion, the rotation it stands for.
pub open spec fn rotation_matrix(q: Quaternion) -> Seq<int> {
    seq![
        1 - 2 * (q.y * q.y + q.z * q.z),
        2 * (q.x * q.y - q.w * q.z),
        2 * (q.x * q.z + q.w * q.y),
        2 * (q.x * q.y + q.w * q.z),
        1 - 2 * (q.x * q.x + q.z * q.z),
        2 * (q.y * q.z - q.w * q.x),
        2 * (q.x * q.z - q.w * q.y),
        2 * (q.y * q.z + q.w * q.x),
        1 - 2 * (q.x * q.x + q.y * q.y),
    ]
}

/// The rotated coordinates of `v`, as (x, y, z).
pub open spec fn rotated_of(q: Quaternion, v: Vector3) -> (int, int, int) {
    let m = rotation_matrix(q);
    (
        v.x * m[0] + v.y * m[1] + v.z * m[2],
        v.x * m[3] + v.y * m[4] + v.z * m[5],
        v.x * m[6] + v.y * m[7] + v.z * m[8],
    )
}

/// A product of two `i64` values lies between `i64::MIN * i64::MAX` and `i64::MIN * i64::MIN`.
proof fn lemma_product_range(a: i64, b: i64)
    ensures
        -0x3fff_ffff_ffff_ffff_8000_0000_0000_0000 <= a * b <= 0x4000_0000_0000_0000_0000_0000_0000_0000,
{
    if (a >= 0) == (b >= 0) {
        assert(0 <= a * b <= 0x4000_0000_0000_0000_0000_0000_0000_0000) by (nonlinear_arith)
            requires
                -0x8000_0000_0000_0000 <= a <= 0x7fff_ffff_ffff_ffff,
                -0x8000_0000_0000_0000 <= b <= 0x7fff_ffff_ffff_ffff,
                (a >= 0) == (b >= 0),
        ;
    } else if a < 0 {
        assert(-0x3fff_ffff_ffff_ffff_8000_0000_0000_0000 <= a * b <= 0) by (nonlinear_arith)
            requires
                -0x8000_0000_0000_0000 <= a < 0,
                0 <= b <= 0x7fff_ffff_ffff_ffff,
        ;
    } else {
        assert(-0x3fff_ffff_ffff_ffff_8000_0000_0000_0000 <= a * b <= 0) by (nonlinear_arith)
            requires
                0 <= a <= 0x7fff_ffff_ffff_ffff,
                -0x8000_0000_0000_0000 <= b < 0,
        ;
    }
}

/// `p - m + t3 + t4`, where `p` and `m` are products of two `i64` values and
/// `t3`, `t4` are such products or their negations, when the result fits in an `i64`.
fn sum_of_products(p: i128, m: i128, t3: i128, t4: i128) -> (r: i64)
    requires
        -0x3fff_ffff_ffff_ffff_8000_0000_0000_0000 <= p <= 0x4000_0000_0000_0000_0000_0000_0000_0000,
        -0x3fff_ffff_ffff_ffff_8000_0000_0000_0000 <= m <= 0x4000_0000_0000_0000_0000_0000_0000_0000,
        -0x4000_0000_0000_0000_0000_0000_0000_0000 <= t3 <= 0x4000_0000_0000_0000_0000_0000_0000_0000,
        -0x4000_0000_0000_0000_0000_0000_0000_0000 <= t4 <= 0x4000_0000_0000_0000_0000_0000_0000_0000,
        fits_i64(p - m + t3 + t4),
    ensures
        r == p - m + t3 + t4,
{
    let a: i128 = p - m;
    let b: i128 = a + t3;
    (b + t4) as i64
}

/// `v.x * a + v.y * b + v.z * c`, when it fits in an `i64`.
fn row_times(v: &Vector3, a: i64, b: i64, c: i64) -> (r: i64)
    requires
        fits_i64(v.x * a + v.y * b + v.z * c),
    ensures
        r == v.x * a + v.y * b + v.z * c,
{
    proof {
        lemma_product_range(v.x, a);
        lemma_product_range(v.y, b);
        lemma_product_range(v.z, c);
    }
    let s: i128 = (v.x as i128) * (a as i128) + (v.y as i128) * (b as i128);
    (s + (v.z as i128) * (c as i128)) as i64
}

impl Quaternion {
    pub fn new(w: i64, x: i64, y: i64, z: i64) -> (r: Quaternion)
        ensures
            r == (Quaternion { w, x, y, z }),
    {
        Quaternion { w, x, y, z }
    }

    pub fn identity() -> (r: Quaternion)
        ensures
            r == (Quaternion { w: 1, x: 0, y: 0, z: 0 }),
    {
        Quaternion { w: 1, x: 0, y: 0, z: 0 }
    }

    pub fn conjugate(&self) -> (r: Quaternion)
        requires
            self.x != i64::MIN,
            self.y != i64::MIN,
            self.z != i64::MIN,
        ensures
            r.w == self.w,
            r.x == -self.x,
            r.y == -self.y,
            r.z == -self.z,
    {
        Quaternion { w: self.w, x: -self.x, y: -self.y, z: -self.z }
    }
}

impl Quaternion {
    /// The Hamilton product `self * other`.
    pub fn multiply(&self, other: &Quaternion) -> (r: Quaternion)
        requires
            fits_i64(product_of(*self, *other).0),
            fits_i64(product_of(*self, *other).1),
            fits_i64(product_of(*self, *other).2),
            fits_i64(product_of(*self, *other).3),
        ensures
            (r.w as int, r.x as int, r.y as int, r.z as int) == product_of(*self, *other),
    {
        let (aw, ax, ay, az) = (self.w as i128, self.x as i128, self.y as i128, self.z as i128);
        let (bw, bx, by, bz) = (other.w as i128, other.x as i128, other.y as i128, other.z as i128);
        proof {
            lemma_product_range(self.w, other.w);
            lemma_product_range(self.w, other.x);
            lemma_product_range(self.w, other.y);
            lemma_product_range(self.w, other.z);
            lemma_product_range(self.x, other.w);
            lemma_product_range(self.x, other.x);
            lemma_product_range(self.x, other.y);
            lemma_product_range(self.x, other.z);
            lemma_product_range(self.y, other.w);
            lemma_product_range(self.y, other.x);
            lemma_product_range(self.y, other.y);
            lemma_product_range(self.y, other.z);
            lemma_product_range(self.z, other.w);
            lemma_product_range(self.z, other.x);
            lemma_product_range(self.z, other.y);
            lemma_product_range(self.z, other.z);
        }
        let w = sum_of_products(aw * bw, ax * bx, -(ay * by), -(az * bz));
        let x = sum_of_products(aw * bx, az * by, ax * bw, ay * bz);
        let y = sum_of_products(aw * by, ax * bz, ay * bw, az * bx);
        let z = sum_of_products(aw * bz, ay * bx, ax * by, az * bw);
        Quaternion { w, x, y, z }
    }

    /// The quaternion divided by its norm rounded down, each component rounded
    /// toward zero; the zero quaternion gives the identity.
    pub fn normalize(&self) -> (r: Quaternion)
        requires
            fits_i64(norm_sq_of(*self)),
        ensures
            ({
                let n = isqrt_of(norm_sq_of(*self));
                &&& n == 0 ==> r == (Quaternion { w: 1, x: 0, y: 0, z: 0 })
                &&& n != 0 ==> r.w == trunc_div(self.w as int, n) && r.x == trunc_div(self.x as int, n)
                    && r.y == trunc_div(self.y as int, n) && r.z == trunc_div(self.z as int, n)
            }),
    {
        proof {
            lemma_product_range(self.w, self.w);
            lemma_product_range(self.x, self.x);
            lemma_product_range(self.y, self.y);
            lemma_product_range(self.z, self.z);
        }
        let (w, x, y, z) = (self.w as i128, self.x as i128, self.y as i128, self.z as i128);
        assert(w * w >= 0 && x * x >= 0 && y * y >= 0 && z * z >= 0) by (nonlinear_arith);
        let length_sq = (w * w + x * x + y * y + z * z) as i64;
        let length = isqrt(length_sq);
        proof {
            lemma_isqrt_unique(length as int, norm_sq_of(*self));
        }
        if length == 0 {
            Quaternion::identity()
        } else {
            Quaternion {
                w: div_toward_zero(self.w, length),
                x: div_toward_zero(self.x, length),
                y: div_toward_zero(self.y, length),
                z: div_toward_zero(self.z, length),
            }
        }
    }

    /// Multiplies `v` by the quaternion's rotation matrix; for a unit
    /// quaternion this rotates `v` by the rotation the quaternion stands for.
    pub fn rotate_vector(&self, v: &Vector3) -> (r: Vector3)
        requires
            forall|i: int| 0 <= i < 9 ==> fits_i64(#[trigger] rotation_matrix(*self)[i]),
            fits_i64(rotated_of(*self, *v).0),
            fits_i64(rotated_of(*self, *v).1),
            fits_i64(rotated_of(*self, *v).2),
        ensures
            (r.x as int, r.y as int, r.z as int) == rotated_of(*self, *v),
    {
        let ghost m = rotation_matrix(*self);
        assert(fits_i64(m[0]) && fits_i64(m[1]) && fits_i64(m[2]) && fits_i64(m[3]) && fits_i64(m[4])
            && fits_i64(m[5]) && fits_i64(m[6]) && fits_i64(m[7]) && fits_i64(m[8]));
        proof {
            lemma_product_range(self.w, self.x);
            lemma_product_range(self.w, self.y);
            lemma_product_range(self.w, self.z);
            lemma_product_range(self.x, self.x);
            lemma_product_range(self.x, self.y);
            lemma_product_range(self.x, self.z);
            lemma_product_range(self.y, self.y);
            lemma_product_range(self.y, self.z);
            lemma_product_range(self.z, self.z);
        }
        let (qw, qx, qy, qz) = (self.w as i128, self.x as i128, self.y as i128, self.z as i128);
        let m0 = (1 - 2 * (qy * qy + qz * qz)) as i64;
        let m1 = (2 * (qx * qy - qw * qz)) as i64;
        let m2 = (2 * (qx * qz + qw * qy)) as i64;
        let m3 = (2 * (qx * qy + qw * qz)) as i64;
        let m4 = (1 - 2 * (qx * qx + qz * qz)) as i64;
        let m5 = (2 * (qy * qz - qw * qx)) as i64;
        let m6 = (2 * (qx * qz - qw * qy)) as i64;
        let m7 = (2 * (qy * qz + qw * qx)) as i64;
        let m8 = (1 - 2 * (qx * qx + qy * qy)) as i64;
        let x = row_times(v, m0, m1, m2);
        let y = row_times(v, m3, m4, m5);
        let z = row_times(v, m6, m7, m8);
        Vector3 { x, y, z }
    }
}

} // verus!
