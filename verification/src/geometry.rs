//! The manifolds on which the state of a body lives.
//!
//! Only what is integral about them is kept here: their dimension. The
//! retraction and its inverse compute with real numbers and belong to the
//! caller.

use vstd::prelude::*;

verus! {

/// Three-dimensional Euclidean space: points and tangents are 3-vectors.
#[derive(Clone, Copy, Debug, PartialEq, Eq, Structural)]
pub struct Euclidean3;

/// The rotation group of 3-space: points are unit quaternions, tangents are
/// scaled rotation axes.
#[derive(Clone, Copy, Debug, PartialEq, Eq, Structural)]
pub struct SO3;

impl Euclidean3 {
    /// Dimension of the manifold.
    pub fn dim() -> (d: usize)
        ensures
            d == 3,
    {
        3
    }
}

impl SO3 {
    /// Dimension of the manifold.
    pub fn dim() -> (d: usize)
        ensures
            d == 3,
    {
        3
    }
}

impl Default for Euclidean3 {
    fn default() -> (m: Self)
        ensures
            m == Euclidean3,
    {
        Euclidean3
    }
}

impl Default for SO3 {
    fn default() -> (m: Self)
        ensures
            m == SO3,
    {
        SO3
    }
}

} // verus!
