//! Points and vectors of the plane, as the library carries them.

use crate::scalar::Scalar;
use core::cmp::Ordering;
use vstd::prelude::*;
use vstd::std_specs::cmp::PartialOrdSpec;

verus! {

/// A position in the scene, in grid units.
#[derive(Debug, Clone, Copy, PartialEq, Eq, Structural)]
pub struct Point {
    pub x: Scalar,
    pub y: Scalar,
}

/// A displacement or a force.
#[derive(Debug, Clone, Copy, PartialEq, Eq, Structural)]
pub struct Vector {
    pub x: Scalar,
    pub y: Scalar,
}

impl Point {
    pub fn new(x: Scalar, y: Scalar) -> (p: Point)
        ensures
            p.x == x,
            p.y == y,
    {
        Point { x, y }
    }

    /// The origin.
    pub fn zero() -> (p: Point)
        ensures
            p.x.bits == 0,
            p.y.bits == 0,
    {
        Point { x: Scalar { bits: 0 }, y: Scalar { bits: 0 } }
    }
}

impl Vector {
    pub fn new(x: Scalar, y: Scalar) -> (v: Vector)
        ensures
            v.x == x,
            v.y == y,
    {
        Vector { x, y }
    }

    /// The vector of no length.
    pub fn zero() -> (v: Vector)
        ensures
            v.x.bits == 0,
            v.y.bits == 0,
    {
        Vector { x: Scalar { bits: 0 }, y: Scalar { bits: 0 } }
    }
}

/// The value that `clamp` gives where the order of `T` is the one that
/// contracts speak of: `min` where `x` is less than `min`, else `max`
/// where `x` is greater than `max`, else `x`.
pub open spec fn clamped<T: PartialOrd>(x: T, min: T, max: T) -> T {
    if x.partial_cmp_spec(&min) == Some(Ordering::Less) {
        min
    } else if x.partial_cmp_spec(&max) == Some(Ordering::Greater) {
        max
    } else {
        x
    }
}

/// Brings `x` into the range from `min` to `max`.
pub fn clamp<T: PartialOrd>(x: T, min: T, max: T) -> (r: T)
    ensures
        T::obeys_partial_cmp_spec() ==> r == clamped(x, min, max),
{
    if x < min {
        min
    } else if x > max {
        max
    } else {
        x
    }
}

} // verus!
