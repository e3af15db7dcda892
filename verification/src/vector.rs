//! Three-component vectors over the fixed-point scalars, with the arithmetic
//! the simulation needs: add, subtract, negate, scale, dot product, magnitude
//! and normalization. Each executable operation returns exactly what the
//! matching spec function states, component by component.

use crate::scalar::{
    clip64, divt, is_sqrt_of, lemma_sqrt_floor_unique, radd, rdiv, real_add, real_div, real_mul,
    real_neg, real_sub, rmul, rneg, rsub, sqrt_floor, Real, SCALE,
};
use vstd::prelude::*;

verus! {

/// A vector of three fixed-point reals.
#[derive(Clone, Copy, Debug, PartialEq, Eq, Structural, Default)]
pub struct Vector3 {
    pub x: Real,
    pub y: Real,
    pub z: Real,
}

/// The mathematical value of a `Vector3`: its components as unbounded
/// integers (still in fixed-point units).
pub ghost struct Vec3 {
    pub x: int,
    pub y: int,
    pub z: int,
}

impl View for Vector3 {
    type V = Vec3;

    open spec fn view(&self) -> Vec3 {
        Vec3 { x: self.x as int, y: self.y as int, z: self.z as int }
    }
}

/// The zero vector.
pub open spec fn v3_zero() -> Vec3 {
    Vec3 { x: 0, y: 0, z: 0 }
}

/// Componentwise saturating addition.
pub open spec fn v3_add(a: Vec3, b: Vec3) -> Vec3 {
    Vec3 { x: radd(a.x, b.x), y: radd(a.y, b.y), z: radd(a.z, b.z) }
}

/// Componentwise saturating subtraction.
pub open spec fn v3_sub(a: Vec3, b: Vec3) -> Vec3 {
    Vec3 { x: rsub(a.x, b.x), y: rsub(a.y, b.y), z: rsub(a.z, b.z) }
}

/// Componentwise saturating negation.
pub open spec fn v3_neg(a: Vec3) -> Vec3 {
    Vec3 { x: rneg(a.x), y: rneg(a.y), z: rneg(a.z) }
}

/// Scaling by a fixed-point scalar.
pub open spec fn v3_scale(a: Vec3, k: int) -> Vec3 {
    Vec3 { x: rmul(a.x, k), y: rmul(a.y, k), z: rmul(a.z, k) }
}

/// Fixed-point dot product: the three componentwise products, summed.
pub open spec fn v3_dot(a: Vec3, b: Vec3) -> int {
    radd(radd(rmul(a.x, b.x), rmul(a.y, b.y)), rmul(a.z, b.z))
}

/// The exact (unclamped) sum of the squared components. The squares are taken
/// on the raw fixed-point units, so this is `SCALE * SCALE` times the squared
/// geometric length.
pub open spec fn v3_mag_sq(a: Vec3) -> int {
    a.x * a.x + a.y * a.y + a.z * a.z
}

/// Fixed-point magnitude: the integer square root of the squared component
/// sum, which lands back on the fixed-point grid.
pub open spec fn v3_mag(a: Vec3) -> int {
    clip64(sqrt_floor(v3_mag_sq(a)))
}

/// The unit vector along `a`: each component rescaled by the magnitude.
/// Meaningful only for `v3_mag(a) > 0`; callers guard the zero vector.
pub open spec fn v3_normalize(a: Vec3) -> Vec3
    recommends
        v3_mag(a) > 0,
{
    Vec3 { x: rdiv(a.x, v3_mag(a)), y: rdiv(a.y, v3_mag(a)), z: rdiv(a.z, v3_mag(a)) }
}

/// Whether every component lies in the `i64` range (as every vector read
/// from an executable `Vector3` does).
pub open spec fn v3_in_range(v: Vec3) -> bool {
    &&& i64::MIN <= v.x <= i64::MAX
    &&& i64::MIN <= v.y <= i64::MAX
    &&& i64::MIN <= v.z <= i64::MAX
}

/// Whether `v` is a unit vector along one of the coordinate axes. These are
/// the unit directions the fixed-point grid represents exactly.
pub open spec fn axis_unit(v: Vec3) -> bool {
    ||| v == (Vec3 { x: SCALE as int, y: 0, z: 0 })
    ||| v == (Vec3 { x: -SCALE as int, y: 0, z: 0 })
    ||| v == (Vec3 { x: 0, y: SCALE as int, z: 0 })
    ||| v == (Vec3 { x: 0, y: -SCALE as int, z: 0 })
    ||| v == (Vec3 { x: 0, y: 0, z: SCALE as int })
    ||| v == (Vec3 { x: 0, y: 0, z: -SCALE as int })
}

/// The vector of signed length `u` along the axis unit `n`.
pub open spec fn v3_along(n: Vec3, u: int) -> Vec3
    recommends
        axis_unit(n),
{
    Vec3 {
        x: if n.x > 0 {
            u
        } else if n.x < 0 {
            -u
        } else {
            0
        },
        y: if n.y > 0 {
            u
        } else if n.y < 0 {
            -u
        } else {
            0
        },
        z: if n.z > 0 {
            u
        } else if n.z < 0 {
            -u
        } else {
            0
        },
    }
}

impl Vector3 {
    /// Build a vector from its fixed-point components.
    pub fn new(x: Real, y: Real, z: Real) -> (r: Vector3)
        ensures
            r@ == (Vec3 { x: x as int, y: y as int, z: z as int }),
    {
        Vector3 { x, y, z }
    }

    /// The zero vector.
    pub fn zero() -> (r: Vector3)
        ensures
            r@ == v3_zero(),
    {
        Vector3 { x: 0, y: 0, z: 0 }
    }

    /// The unit vector along the y axis.
    pub fn y() -> (r: Vector3)
        ensures
            r@ == (Vec3 { x: 0, y: SCALE as int, z: 0 }),
    {
        Vector3 { x: 0, y: SCALE, z: 0 }
    }

    /// Vector addition.
    pub fn add(&self, other: &Vector3) -> (r: Vector3)
        ensures
            r@ == v3_add(self@, other@),
    {
        Vector3 {
            x: real_add(self.x, other.x),
            y: real_add(self.y, other.y),
            z: real_add(self.z, other.z),
        }
    }

    /// Vector subtraction.
    pub fn sub(&self, other: &Vector3) -> (r: Vector3)
        ensures
            r@ == v3_sub(self@, other@),
    {
        Vector3 {
            x: real_sub(self.x, other.x),
            y: real_sub(self.y, other.y),
            z: real_sub(self.z, other.z),
        }
    }

    /// Vector negation.
    pub fn neg(&self) -> (r: Vector3)
        ensures
            r@ == v3_neg(self@),
    {
        Vector3 { x: real_neg(self.x), y: real_neg(self.y), z: real_neg(self.z) }
    }

    /// Scaling by a fixed-point scalar.
    pub fn scale(&self, k: Real) -> (r: Vector3)
        ensures
            r@ == v3_scale(self@, k as int),
    {
        Vector3 { x: real_mul(self.x, k), y: real_mul(self.y, k), z: real_mul(self.z, k) }
    }

    /// Fixed-point dot product.
    pub fn dot(&self, other: &Vector3) -> (r: Real)
        ensures
            r as int == v3_dot(self@, other@),
    {
        let px = real_mul(self.x, other.x);
        let py = real_mul(self.y, other.y);
        let pz = real_mul(self.z, other.z);
        real_add(real_add(px, py), pz)
    }

    /// Fixed-point magnitude (geometric length on the fixed-point grid).
    pub fn magnitude(&self) -> (r: Real)
        ensures
            r as int == v3_mag(self@),
            r >= 0,
    {
        let sx = square_to_u128(self.x);
        let sy = square_to_u128(self.y);
        let sz = square_to_u128(self.z);
        let sum = sx + sy + sz;
        let root = crate::scalar::isqrt_u128(sum);
        proof {
            lemma_sqrt_floor_unique(sum as int, root as int);
        }
        if root > i64::MAX as u128 {
            i64::MAX
        } else {
            root as i64
        }
    }

    /// The unit vector along `self`. The zero vector has no direction, so
    /// callers first check that the magnitude is positive.
    pub fn normalize(&self) -> (r: Vector3)
        requires
            v3_mag(self@) > 0,
        ensures
            r@ == v3_normalize(self@),
    {
        let m = self.magnitude();
        Vector3 {
            x: real_div(self.x, m),
            y: real_div(self.y, m),
            z: real_div(self.z, m),
        }
    }
}

/// The exact square of an `i64`, computed without overflow.
fn square_to_u128(x: i64) -> (r: u128)
    ensures
        r as int == (x as int) * (x as int),
        r <= 0x4000_0000_0000_0000_0000_0000_0000_0000u128,
{
    let w = x as i128;
    proof {
        assert(0 <= (x as int) * (x as int)
            <= 0x4000_0000_0000_0000_0000_0000_0000_0000) by (nonlinear_arith)
            requires
                -0x8000_0000_0000_0000 <= x as int <= 0x7fff_ffff_ffff_ffff,
        ;
    }
    let p = w * w;
    p as u128
}

} // verus!
