use vstd::prelude::*;

verus! {

use crate::AsArray;
use crate::scalar::{add_s, add_bits, POS_ZERO_BITS, ONE_BITS};
use crate::vec::{Dot, Vec3, Vec4, Vector};

/// Matrices that can be transposed
pub trait Transpose: Sized {
    /// The transpose of `self`, as a specification-level value.
    spec fn transpose_spec(self) -> Self;

    /// Transposes a matrix, turning rows into columns and vice-versa
    fn transpose(self) -> (r: Self)
        ensures
            r == self.transpose_spec(),
    ;
}

/// A 4x4 matrix in column-major order
#[derive(Debug, Copy, Clone, PartialEq, Eq, Structural)]
pub struct Mat4 {
    /// Column 0
    pub c0: Vec4,
    /// Column 1
    pub c1: Vec4,
    /// Column 2
    pub c2: Vec4,
    /// Column 3
    pub c3: Vec4,
}

impl Transpose for Mat4 {
    open spec fn transpose_spec(self) -> Self {
        Mat4 {
            c0: Vec4 { x: self.c0.x, y: self.c1.x, z: self.c2.x, w: self.c3.x },
            c1: Vec4 { x: self.c0.y, y: self.c1.y, z: self.c2.y, w: self.c3.y },
            c2: Vec4 { x: self.c0.z, y: self.c1.z, z: self.c2.z, w: self.c3.z },
            c3: Vec4 { x: self.c0.w, y: self.c1.w, z: self.c2.w, w: self.c3.w },
        }
    }

    fn transpose(self) -> (r: Self) {
        Mat4 {
            c0: Vec4::new(self.c0.x, self.c1.x, self.c2.x, self.c3.x),
            c1: Vec4::new(self.c0.y, self.c1.y, self.c2.y, self.c3.y),
            c2: Vec4::new(self.c0.z, self.c1.z, self.c2.z, self.c3.z),
            c3: Vec4::new(self.c0.w, self.c1.w, self.c2.w, self.c3.w),
        }
    }
}

impl Mat4 {
    /// Constructs a matrix from its four columns.
    pub fn new(c0: Vec4, c1: Vec4, c2: Vec4, c3: Vec4) -> (r: Self)
        ensures
            r == (Mat4 { c0, c1, c2, c3 }),
    {
        Mat4 { c0, c1, c2, c3 }
    }

    /// Column `i` of the matrix, as a specification-level value.
    pub open spec fn col(self, i: int) -> Vec4 {
        if i == 0 {
            self.c0
        } else if i == 1 {
            self.c1
        } else if i == 2 {
            self.c2
        } else {
            self.c3
        }
    }

    /// Returns column `index`, read-only. A column index outside `0..=3` is a
    /// caller fault, not a data condition, and is excluded by the
    /// precondition.
    pub fn index(&self, index: usize) -> (r: &Vec4)
        requires
            index < 4,
        ensures
            *r == self.col(index as int),
    {
        if index == 0 {
            &self.c0
        } else if index == 1 {
            &self.c1
        } else if index == 2 {
            &self.c2
        } else {
            &self.c3
        }
    }

    /// The identity matrix, as a specification-level value.
    pub open spec fn one_spec() -> Self {
        Mat4 {
            c0: Vec4 { x: ONE_BITS, y: POS_ZERO_BITS, z: POS_ZERO_BITS, w: POS_ZERO_BITS },
            c1: Vec4 { x: POS_ZERO_BITS, y: ONE_BITS, z: POS_ZERO_BITS, w: POS_ZERO_BITS },
            c2: Vec4 { x: POS_ZERO_BITS, y: POS_ZERO_BITS, z: ONE_BITS, w: POS_ZERO_BITS },
            c3: Vec4 { x: POS_ZERO_BITS, y: POS_ZERO_BITS, z: POS_ZERO_BITS, w: ONE_BITS },
        }
    }

    /// The 4x4 identity matrix, the canonical "one" value.
    pub fn one() -> (r: Self)
        ensures
            r == Mat4::one_spec(),
    {
        Mat4 {
            c0: Vec4::new(ONE_BITS, POS_ZERO_BITS, POS_ZERO_BITS, POS_ZERO_BITS),
            c1: Vec4::new(POS_ZERO_BITS, ONE_BITS, POS_ZERO_BITS, POS_ZERO_BITS),
            c2: Vec4::new(POS_ZERO_BITS, POS_ZERO_BITS, ONE_BITS, POS_ZERO_BITS),
            c3: Vec4::new(POS_ZERO_BITS, POS_ZERO_BITS, POS_ZERO_BITS, ONE_BITS),
        }
    }

    /// The matrix product of `self` and `rhs`, as a specification-level
    /// value: entry `(j, i)` of the result is the dot product of row `j` of
    /// `self` with column `i` of `rhs`.
    pub open spec fn mul_spec(self, rhs: Self) -> Self {
        let t = self.transpose_spec();
        Mat4 {
            c0: Vec4 {
                x: t.c0.dot_spec(rhs.c0),
                y: t.c1.dot_spec(rhs.c0),
                z: t.c2.dot_spec(rhs.c0),
                w: t.c3.dot_spec(rhs.c0),
            },
            c1: Vec4 {
                x: t.c0.dot_spec(rhs.c1),
                y: t.c1.dot_spec(rhs.c1),
                z: t.c2.dot_spec(rhs.c1),
                w: t.c3.dot_spec(rhs.c1),
            },
            c2: Vec4 {
                x: t.c0.dot_spec(rhs.c2),
                y: t.c1.dot_spec(rhs.c2),
                z: t.c2.dot_spec(rhs.c2),
                w: t.c3.dot_spec(rhs.c2),
            },
            c3: Vec4 {
                x: t.c0.dot_spec(rhs.c3),
                y: t.c1.dot_spec(rhs.c3),
                z: t.c2.dot_spec(rhs.c3),
                w: t.c3.dot_spec(rhs.c3),
            },
        }
    }

    /// Matrix multiplication under the column-major, column-vector
    /// convention: the rows of `self` are extracted by a transpose and each
    /// is folded with every column of `rhs` by the dot product.
    pub fn mul(self, rhs: Self) -> (r: Self)
        ensures
            r == self.mul_spec(rhs),
    {
        let t = self.transpose();
        Mat4 {
            c0: Vec4::new(
                t.c0.dot_mul(rhs.c0),
                t.c1.dot_mul(rhs.c0),
                t.c2.dot_mul(rhs.c0),
                t.c3.dot_mul(rhs.c0),
            ),
            c1: Vec4::new(
                t.c0.dot_mul(rhs.c1),
                t.c1.dot_mul(rhs.c1),
                t.c2.dot_mul(rhs.c1),
                t.c3.dot_mul(rhs.c1),
            ),
            c2: Vec4::new(
                t.c0.dot_mul(rhs.c2),
                t.c1.dot_mul(rhs.c2),
                t.c2.dot_mul(rhs.c2),
                t.c3.dot_mul(rhs.c2),
            ),
            c3: Vec4::new(
                t.c0.dot_mul(rhs.c3),
                t.c1.dot_mul(rhs.c3),
                t.c2.dot_mul(rhs.c3),
                t.c3.dot_mul(rhs.c3),
            ),
        }
    }

    /// The componentwise sum of `self` and `rhs`, as a specification-level
    /// value.
    pub open spec fn add_spec(self, rhs: Self) -> Self {
        Mat4 {
            c0: self.c0.add_spec(rhs.c0),
            c1: self.c1.add_spec(rhs.c1),
            c2: self.c2.add_spec(rhs.c2),
            c3: self.c3.add_spec(rhs.c3),
        }
    }

    /// Componentwise matrix addition.
    pub fn add(self, rhs: Self) -> (r: Self)
        ensures
            r == self.add_spec(rhs),
    {
        Mat4 {
            c0: self.c0.add(rhs.c0),
            c1: self.c1.add(rhs.c1),
            c2: self.c2.add(rhs.c2),
            c3: self.c3.add(rhs.c3),
        }
    }
}

/// Transposing a matrix twice yields the original matrix.
pub proof fn lemma_transpose_involution(m: Mat4)
    ensures
        m.transpose_spec().transpose_spec() == m,
{
}

/// The translation composition of `mat` and `vec`, as a specification-level
/// value: the rows of `mat` are reassembled into columns, and the components
/// of `vec` are added into the `w` lane of columns 0 through 2.
pub open spec fn translate_spec(mat: Mat4, vec: Vec3) -> Mat4 {
    Mat4 {
        c0: Vec4 { x: mat.c0.x, y: mat.c1.x, z: mat.c2.x, w: add_s(mat.c3.x, vec.x) },
        c1: Vec4 { x: mat.c0.y, y: mat.c1.y, z: mat.c2.y, w: add_s(mat.c3.y, vec.y) },
        c2: Vec4 { x: mat.c0.z, y: mat.c1.z, z: mat.c2.z, w: add_s(mat.c3.z, vec.z) },
        c3: Vec4 { x: mat.c0.w, y: mat.c1.w, z: mat.c2.w, w: mat.c3.w },
    }
}

/// Creates a new matrix corresponding to the supplied matrix composed with a translate operation
pub fn translate(mat: &Mat4, vec: Vec3) -> (r: Mat4)
    ensures
        r == translate_spec(*mat, vec),
{
    Mat4 {
        c0: Vec4::new(mat.c0.x, mat.c1.x, mat.c2.x, add_bits(mat.c3.x, vec.x)),
        c1: Vec4::new(mat.c0.y, mat.c1.y, mat.c2.y, add_bits(mat.c3.y, vec.y)),
        c2: Vec4::new(mat.c0.z, mat.c1.z, mat.c2.z, add_bits(mat.c3.z, vec.z)),
        c3: Vec4::new(mat.c0.w, mat.c1.w, mat.c2.w, mat.c3.w),
    }
}

impl AsArray for Mat4 {
    type Output = u32;

    open spec fn array_spec(&self) -> Seq<u32> {
        self.c0.array_spec() + self.c1.array_spec() + self.c2.array_spec()
            + self.c3.array_spec()
    }

    fn as_array(&self) -> (r: Vec<u32>) {
        let mut r = self.c0.as_array();
        let mut r1 = self.c1.as_array();
        let mut r2 = self.c2.as_array();
        let mut r3 = self.c3.as_array();
        r.append(&mut r1);
        r.append(&mut r2);
        r.append(&mut r3);
        r
    }
}

} // verus!
