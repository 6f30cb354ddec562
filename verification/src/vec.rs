use vstd::prelude::*;

verus! {

use crate::AsArray;
use crate::scalar::{
    add_s, sub_s, mul_s, sqrt_s, is_zero_bits, add_bits, sub_bits, mul_bits, sqrt_bits,
    POS_ZERO_BITS, ONE_BITS,
};

/// Objects that have a well-defined magnitude (2-norm).
pub trait Magnitude {
    /// The magnitude of `self`, as a specification-level value.
    spec fn mag_spec(&self) -> u32;

    /// Computes the magnitude of `self`
    fn mag(&self) -> (r: u32)
        ensures
            r == self.mag_spec(),
    ;
}

/// Objects that support the componentwise vector arithmetic shared by every
/// arity: vector addition and vector subtraction.
pub trait Vector: AsArray + Magnitude + Sized {
    /// The componentwise sum of `self` and `rhs`, as a specification-level value.
    spec fn add_spec(self, rhs: Self) -> Self;

    /// Componentwise vector addition.
    fn add(self, rhs: Self) -> (r: Self)
        ensures
            r == self.add_spec(rhs),
    ;

    /// The componentwise difference of `self` and `rhs`, as a specification-level value.
    spec fn sub_spec(self, rhs: Self) -> Self;

    /// Componentwise vector subtraction.
    fn sub(self, rhs: Self) -> (r: Self)
        ensures
            r == self.sub_spec(rhs),
    ;
}

/// A trait for things that can take a dot product with themselves
pub trait Dot: Sized {
    /// The result of the dot product
    type Output;

    /// The dot product of `self` and `rhs`, as a specification-level value.
    spec fn dot_spec(self, rhs: Self) -> Self::Output;

    /// Computes the dot product of `self` with `rhs`
    fn dot_mul(self, rhs: Self) -> (r: Self::Output)
        ensures
            r == self.dot_spec(rhs),
    ;
}

/// A two-component vector of scalars held as IEEE-754 binary32 bit patterns
#[derive(Debug, Copy, Clone, PartialEq, Eq, Structural)]
pub struct Vec2 {
    /// The x component
    pub x: u32,
    /// The y component
    pub y: u32,
}

impl Vec2 {
    /// Constructs a new `Vec2`
    pub fn new(x: u32, y: u32) -> (r: Self)
        ensures
            r == (Vec2 { x, y }),
    {
        Vec2 { x, y }
    }

    /// The all-zero vector.
    pub fn zero() -> (r: Self)
        ensures
            r == (Vec2 { x: POS_ZERO_BITS, y: POS_ZERO_BITS }),
    {
        Vec2 { x: POS_ZERO_BITS, y: POS_ZERO_BITS }
    }

    /// True exactly when every component compares equal to zero; a zero of
    /// either sign counts.
    pub fn is_zero(&self) -> (r: bool)
        ensures
            r == (is_zero_bits(self.x) && is_zero_bits(self.y)),
    {
        crate::scalar::scalar_is_zero(self.x) && crate::scalar::scalar_is_zero(self.y)
    }

    /// Adds the scalar `rhs` to every component.
    pub fn add_scalar(self, rhs: u32) -> (r: Self)
        ensures
            r == (Vec2 { x: add_s(self.x, rhs), y: add_s(self.y, rhs) }),
    {
        Vec2 { x: add_bits(self.x, rhs), y: add_bits(self.y, rhs) }
    }

    /// Subtracts the scalar `rhs` from every component.
    pub fn sub_scalar(self, rhs: u32) -> (r: Self)
        ensures
            r == (Vec2 { x: sub_s(self.x, rhs), y: sub_s(self.y, rhs) }),
    {
        Vec2 { x: sub_bits(self.x, rhs), y: sub_bits(self.y, rhs) }
    }

    /// Multiplies every component by the scalar `rhs`.
    pub fn mul_scalar(self, rhs: u32) -> (r: Self)
        ensures
            r == (Vec2 { x: mul_s(self.x, rhs), y: mul_s(self.y, rhs) }),
    {
        Vec2 { x: mul_bits(self.x, rhs), y: mul_bits(self.y, rhs) }
    }
}

impl AsArray for Vec2 {
    type Output = u32;

    open spec fn array_spec(&self) -> Seq<u32> {
        seq![self.x, self.y]
    }

    fn as_array(&self) -> (r: Vec<u32>) {
        let mut r: Vec<u32> = Vec::new();
        r.push(self.x);
        r.push(self.y);
        proof {
            assert(r@ =~= seq![self.x, self.y]);
        }
        r
    }
}

impl Magnitude for Vec2 {
    open spec fn mag_spec(&self) -> u32 {
        sqrt_s((*self).dot_spec(*self))
    }

    fn mag(&self) -> (r: u32) {
        let d = (*self).dot_mul(*self);
        sqrt_bits(d)
    }
}

impl Vector for Vec2 {
    open spec fn add_spec(self, rhs: Self) -> Self {
        Vec2 { x: add_s(self.x, rhs.x), y: add_s(self.y, rhs.y) }
    }

    fn add(self, rhs: Self) -> (r: Self) {
        Vec2 { x: add_bits(self.x, rhs.x), y: add_bits(self.y, rhs.y) }
    }

    open spec fn sub_spec(self, rhs: Self) -> Self {
        Vec2 { x: sub_s(self.x, rhs.x), y: sub_s(self.y, rhs.y) }
    }

    fn sub(self, rhs: Self) -> (r: Self) {
        Vec2 { x: sub_bits(self.x, rhs.x), y: sub_bits(self.y, rhs.y) }
    }
}

impl Dot for Vec2 {
    type Output = u32;

    open spec fn dot_spec(self, rhs: Self) -> u32 {
        add_s(mul_s(self.x, rhs.x), mul_s(self.y, rhs.y))
    }

    fn dot_mul(self, rhs: Self) -> (r: u32) {
        add_bits(mul_bits(self.x, rhs.x), mul_bits(self.y, rhs.y))
    }
}

/// A three-component vector of scalars held as IEEE-754 binary32 bit patterns
#[derive(Debug, Copy, Clone, PartialEq, Eq, Structural)]
pub struct Vec3 {
    /// The x (red) component
    pub x: u32,
    /// The y (green) component
    pub y: u32,
    /// The z (blue) component
    pub z: u32,
}

impl Vec3 {
    /// Constructs a new `Vec3`
    pub fn new(x: u32, y: u32, z: u32) -> (r: Self)
        ensures
            r == (Vec3 { x, y, z }),
    {
        Vec3 { x, y, z }
    }

    /// The all-zero vector.
    pub fn zero() -> (r: Self)
        ensures
            r == (Vec3 { x: POS_ZERO_BITS, y: POS_ZERO_BITS, z: POS_ZERO_BITS }),
    {
        Vec3 { x: POS_ZERO_BITS, y: POS_ZERO_BITS, z: POS_ZERO_BITS }
    }

    /// The all-one vector.
    pub fn one() -> (r: Self)
        ensures
            r == (Vec3 { x: ONE_BITS, y: ONE_BITS, z: ONE_BITS }),
    {
        Vec3 { x: ONE_BITS, y: ONE_BITS, z: ONE_BITS }
    }

    /// True exactly when every component compares equal to zero; a zero of
    /// either sign counts.
    pub fn is_zero(&self) -> (r: bool)
        ensures
            r == (is_zero_bits(self.x) && is_zero_bits(self.y) && is_zero_bits(self.z)),
    {
        crate::scalar::scalar_is_zero(self.x) && crate::scalar::scalar_is_zero(self.y)
            && crate::scalar::scalar_is_zero(self.z)
    }

    /// Adds the scalar `rhs` to every component.
    pub fn add_scalar(self, rhs: u32) -> (r: Self)
        ensures
            r == (Vec3 {
                x: add_s(self.x, rhs),
                y: add_s(self.y, rhs),
                z: add_s(self.z, rhs),
            }),
    {
        Vec3 {
            x: add_bits(self.x, rhs),
            y: add_bits(self.y, rhs),
            z: add_bits(self.z, rhs),
        }
    }

    /// Subtracts the scalar `rhs` from every component.
    pub fn sub_scalar(self, rhs: u32) -> (r: Self)
        ensures
            r == (Vec3 {
                x: sub_s(self.x, rhs),
                y: sub_s(self.y, rhs),
                z: sub_s(self.z, rhs),
            }),
    {
        Vec3 {
            x: sub_bits(self.x, rhs),
            y: sub_bits(self.y, rhs),
            z: sub_bits(self.z, rhs),
        }
    }

    /// Multiplies every component by the scalar `rhs`.
    pub fn mul_scalar(self, rhs: u32) -> (r: Self)
        ensures
            r == (Vec3 {
                x: mul_s(self.x, rhs),
                y: mul_s(self.y, rhs),
                z: mul_s(self.z, rhs),
            }),
    {
        Vec3 {
            x: mul_bits(self.x, rhs),
            y: mul_bits(self.y, rhs),
            z: mul_bits(self.z, rhs),
        }
    }

    /// The cross product of `self` and `rhs`, as a specification-level value.
    pub open spec fn cross_spec(self, rhs: Self) -> Self {
        Vec3 {
            x: sub_s(mul_s(self.y, rhs.z), mul_s(self.z, rhs.y)),
            y: sub_s(mul_s(self.z, rhs.x), mul_s(self.x, rhs.z)),
            z: sub_s(mul_s(self.x, rhs.y), mul_s(self.y, rhs.x)),
        }
    }

    /// Computes the cross product of `self` and `rhs`.
    pub fn cross(self, rhs: Self) -> (r: Self)
        ensures
            r == self.cross_spec(rhs),
    {
        Vec3 {
            x: sub_bits(mul_bits(self.y, rhs.z), mul_bits(self.z, rhs.y)),
            y: sub_bits(mul_bits(self.z, rhs.x), mul_bits(self.x, rhs.z)),
            z: sub_bits(mul_bits(self.x, rhs.y), mul_bits(self.y, rhs.x)),
        }
    }
}

impl AsArray for Vec3 {
    type Output = u32;

    open spec fn array_spec(&self) -> Seq<u32> {
        seq![self.x, self.y, self.z]
    }

    fn as_array(&self) -> (r: Vec<u32>) {
        let mut r: Vec<u32> = Vec::new();
        r.push(self.x);
        r.push(self.y);
        r.push(self.z);
        proof {
            assert(r@ =~= seq![self.x, self.y, self.z]);
        }
        r
    }
}

impl Magnitude for Vec3 {
    open spec fn mag_spec(&self) -> u32 {
        sqrt_s((*self).dot_spec(*self))
    }

    fn mag(&self) -> (r: u32) {
        let d = (*self).dot_mul(*self);
        sqrt_bits(d)
    }
}

impl Vector for Vec3 {
    open spec fn add_spec(self, rhs: Self) -> Self {
        Vec3 {
            x: add_s(self.x, rhs.x),
            y: add_s(self.y, rhs.y),
            z: add_s(self.z, rhs.z),
        }
    }

    fn add(self, rhs: Self) -> (r: Self) {
        Vec3 {
            x: add_bits(self.x, rhs.x),
            y: add_bits(self.y, rhs.y),
            z: add_bits(self.z, rhs.z),
        }
    }

    open spec fn sub_spec(self, rhs: Self) -> Self {
        Vec3 {
            x: sub_s(self.x, rhs.x),
            y: sub_s(self.y, rhs.y),
            z: sub_s(self.z, rhs.z),
        }
    }

    fn sub(self, rhs: Self) -> (r: Self) {
        Vec3 {
            x: sub_bits(self.x, rhs.x),
            y: sub_bits(self.y, rhs.y),
            z: sub_bits(self.z, rhs.z),
        }
    }
}

impl Dot for Vec3 {
    type Output = u32;

    open spec fn dot_spec(self, rhs: Self) -> u32 {
        add_s(
            add_s(mul_s(self.x, rhs.x), mul_s(self.y, rhs.y)),
            mul_s(self.z, rhs.z),
        )
    }

    fn dot_mul(self, rhs: Self) -> (r: u32) {
        add_bits(
            add_bits(mul_bits(self.x, rhs.x), mul_bits(self.y, rhs.y)),
            mul_bits(self.z, rhs.z),
        )
    }
}

/// A four-component vector of scalars held as IEEE-754 binary32 bit patterns
#[derive(Debug, Copy, Clone, PartialEq, Eq, Structural)]
pub struct Vec4 {
    /// The x (red) component
    pub x: u32,
    /// The y (green) component
    pub y: u32,
    /// The z (blue) component
    pub z: u32,
    /// The w (alpha) component
    pub w: u32,
}

impl Vec4 {
    /// Constructs a new `Vec4`
    pub fn new(x: u32, y: u32, z: u32, w: u32) -> (r: Self)
        ensures
            r == (Vec4 { x, y, z, w }),
    {
        Vec4 { x, y, z, w }
    }

    /// The all-zero vector.
    pub fn zero() -> (r: Self)
        ensures
            r == (Vec4 {
                x: POS_ZERO_BITS,
                y: POS_ZERO_BITS,
                z: POS_ZERO_BITS,
                w: POS_ZERO_BITS,
            }),
    {
        Vec4 { x: POS_ZERO_BITS, y: POS_ZERO_BITS, z: POS_ZERO_BITS, w: POS_ZERO_BITS }
    }

    /// True exactly when every component compares equal to zero; a zero of
    /// either sign counts.
    pub fn is_zero(&self) -> (r: bool)
        ensures
            r == (is_zero_bits(self.x) && is_zero_bits(self.y) && is_zero_bits(self.z)
                && is_zero_bits(self.w)),
    {
        crate::scalar::scalar_is_zero(self.x) && crate::scalar::scalar_is_zero(self.y)
            && crate::scalar::scalar_is_zero(self.z) && crate::scalar::scalar_is_zero(self.w)
    }

    /// Adds the scalar `rhs` to every component.
    pub fn add_scalar(self, rhs: u32) -> (r: Self)
        ensures
            r == (Vec4 {
                x: add_s(self.x, rhs),
                y: add_s(self.y, rhs),
                z: add_s(self.z, rhs),
                w: add_s(self.w, rhs),
            }),
    {
        Vec4 {
            x: add_bits(self.x, rhs),
            y: add_bits(self.y, rhs),
            z: add_bits(self.z, rhs),
            w: add_bits(self.w, rhs),
        }
    }

    /// Subtracts the scalar `rhs` from every component.
    pub fn sub_scalar(self, rhs: u32) -> (r: Self)
        ensures
            r == (Vec4 {
                x: sub_s(self.x, rhs),
                y: sub_s(self.y, rhs),
                z: sub_s(self.z, rhs),
                w: sub_s(self.w, rhs),
            }),
    {
        Vec4 {
            x: sub_bits(self.x, rhs),
            y: sub_bits(self.y, rhs),
            z: sub_bits(self.z, rhs),
            w: sub_bits(self.w, rhs),
        }
    }

    /// Multiplies every component by the scalar `rhs`.
    pub fn mul_scalar(self, rhs: u32) -> (r: Self)
        ensures
            r == (Vec4 {
                x: mul_s(self.x, rhs),
                y: mul_s(self.y, rhs),
                z: mul_s(self.z, rhs),
                w: mul_s(self.w, rhs),
            }),
    {
        Vec4 {
            x: mul_bits(self.x, rhs),
            y: mul_bits(self.y, rhs),
            z: mul_bits(self.z, rhs),
            w: mul_bits(self.w, rhs),
        }
    }
}

impl AsArray for Vec4 {
    type Output = u32;

    open spec fn array_spec(&self) -> Seq<u32> {
        seq![self.x, self.y, self.z, self.w]
    }

    fn as_array(&self) -> (r: Vec<u32>) {
        let mut r: Vec<u32> = Vec::new();
        r.push(self.x);
        r.push(self.y);
        r.push(self.z);
        r.push(self.w);
        proof {
            assert(r@ =~= seq![self.x, self.y, self.z, self.w]);
        }
        r
    }
}

impl Magnitude for Vec4 {
    open spec fn mag_spec(&self) -> u32 {
        sqrt_s((*self).dot_spec(*self))
    }

    fn mag(&self) -> (r: u32) {
        let d = (*self).dot_mul(*self);
        sqrt_bits(d)
    }
}

/// Every lane of `add` and `sub`, the `w` lane included, combines the two
/// operands componentwise.
impl Vector for Vec4 {
    open spec fn add_spec(self, rhs: Self) -> Self {
        Vec4 {
            x: add_s(self.x, rhs.x),
            y: add_s(self.y, rhs.y),
            z: add_s(self.z, rhs.z),
            w: add_s(self.w, rhs.w),
        }
    }

    fn add(self, rhs: Self) -> (r: Self) {
        Vec4 {
            x: add_bits(self.x, rhs.x),
            y: add_bits(self.y, rhs.y),
            z: add_bits(self.z, rhs.z),
            w: add_bits(self.w, rhs.w),
        }
    }

    open spec fn sub_spec(self, rhs: Self) -> Self {
        Vec4 {
            x: sub_s(self.x, rhs.x),
            y: sub_s(self.y, rhs.y),
            z: sub_s(self.z, rhs.z),
            w: sub_s(self.w, rhs.w),
        }
    }

    fn sub(self, rhs: Self) -> (r: Self) {
        Vec4 {
            x: sub_bits(self.x, rhs.x),
            y: sub_bits(self.y, rhs.y),
            z: sub_bits(self.z, rhs.z),
            w: sub_bits(self.w, rhs.w),
        }
    }
}

impl Dot for Vec4 {
    type Output = u32;

    open spec fn dot_spec(self, rhs: Self) -> u32 {
        add_s(
            add_s(
                add_s(mul_s(self.x, rhs.x), mul_s(self.y, rhs.y)),
                mul_s(self.z, rhs.z),
            ),
            mul_s(self.w, rhs.w),
        )
    }

    fn dot_mul(self, rhs: Self) -> (r: u32) {
        add_bits(
            add_bits(
                add_bits(mul_bits(self.x, rhs.x), mul_bits(self.y, rhs.y)),
                mul_bits(self.z, rhs.z),
            ),
            mul_bits(self.w, rhs.w),
        )
    }
}

/// Computes the distance between two vectors using Pythagoras's theorem.
pub fn distance<V: Vector + Copy>(v1: &V, v2: &V) -> (r: u32)
    ensures
        r == (v2.sub_spec(*v1)).mag_spec(),
{
    let d = (*v2).sub(*v1);
    d.mag()
}

/// Creates a new two-component vector
pub fn vec2(x: u32, y: u32) -> (r: Vec2)
    ensures
        r == (Vec2 { x, y }),
{
    Vec2 { x, y }
}

/// Creates a new three-component vector
pub fn vec3(x: u32, y: u32, z: u32) -> (r: Vec3)
    ensures
        r == (Vec3 { x, y, z }),
{
    Vec3 { x, y, z }
}

/// Creates a new four-component vector
pub fn vec4(x: u32, y: u32, z: u32, w: u32) -> (r: Vec4)
    ensures
        r == (Vec4 { x, y, z, w }),
{
    Vec4 { x, y, z, w }
}

} // verus!
