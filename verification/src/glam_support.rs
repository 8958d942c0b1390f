use vstd::prelude::*;

use crate::point::{HasPosition, Point2};

verus! {

/// The coordinates of a two-dimensional vector of the linear-algebra crate
/// (its single- and double-precision vector types), held as plain values:
/// the two components that a position is read from.
#[derive(Debug, Clone, Copy, PartialEq)]
pub struct Vector2<S> {
    /// The vector's x component.
    pub x: S,
    /// The vector's y component.
    pub y: S,
}

/// The point at which a vector stands: the one whose coordinates are the
/// vector's components, x to x and y to y.
pub open spec fn point_of<S>(v: Vector2<S>) -> Point2<S> {
    Point2 { x: v.x, y: v.y }
}

impl<S: Copy> HasPosition for Vector2<S> {
    type Scalar = S;

    /// A vector stands at the point whose coordinates are its components.
    fn position(&self) -> (p: Point2<S>)
        ensures
            p == point_of(*self),
    {
        Point2 { x: self.x, y: self.y }
    }
}

impl<S> From<Vector2<S>> for Point2<S> {
    /// Turns a vector into the point whose coordinates are its components.
    fn from(value: Vector2<S>) -> (p: Point2<S>) {
        Point2 { x: value.x, y: value.y }
    }
}

impl<S> vstd::std_specs::convert::FromSpecImpl<Vector2<S>> for Point2<S> {
    open spec fn obeys_from_spec() -> bool {
        true
    }

    open spec fn from_spec(v: Vector2<S>) -> Point2<S> {
        point_of(v)
    }
}

/// Converting a vector into a point gives the vector's position: `from` and
/// `position` agree on every vector, and both keep the two components.
pub proof fn lemma_from_is_position<S: Copy>(v: Vector2<S>)
    ensures
        <Point2<S> as vstd::std_specs::convert::FromSpec<Vector2<S>>>::from_spec(v) == point_of(v),
        point_of(v).x == v.x,
        point_of(v).y == v.y,
{
}

} // verus!
