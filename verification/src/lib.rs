//! A small linear-algebra kernel for real-time graphics: two-, three- and
//! four-component vectors and a 4x4 column-major matrix.
//!
//! Every scalar is held as the bit pattern (`u32`) of an IEEE-754 binary32
//! number, so that the layout of every operation — which lanes combine, in
//! what order sums are formed, and how values are exported — is stated
//! exactly in the contracts, while the per-scalar arithmetic itself is
//! supplied by an IEEE-754 software implementation.

use vstd::prelude::*;

/// Matrices
pub mod mat;
/// Scalars held as IEEE-754 binary32 bit patterns
pub mod scalar;
/// Vectors
pub mod vec;

pub use vec::{vec2, vec3, vec4, Vec2, Vec3, Vec4};

verus! {

/// A trait for objects that can be turned into an array
pub trait AsArray {
    /// The element type of the generated array
    type Output;

    /// The exported components, as a sequence in their documented order.
    spec fn array_spec(&self) -> Seq<Self::Output>;

    /// Turns an object into an array
    fn as_array(&self) -> (r: Vec<Self::Output>)
        ensures
            r@ == self.array_spec(),
    ;
}

} // verus!
