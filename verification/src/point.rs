use vstd::prelude::*;

verus! {

/// A point in the plane, generic over its scalar type.
#[derive(Debug, Clone, Copy, PartialEq, Eq, PartialOrd, Ord, Hash, Default)]
pub struct Point2<S> {
    /// The point's x coordinate.
    pub x: S,
    /// The point's y coordinate.
    pub y: S,
}

impl<S> Point2<S> {
    /// Creates a point from its two coordinates.
    pub fn new(x: S, y: S) -> (p: Point2<S>)
        ensures
            p.x == x,
            p.y == y,
    {
        Point2 { x, y }
    }
}

/// Something that stands at a position in the plane.
pub trait HasPosition {
    /// The scalar type of the position's coordinates.
    type Scalar;

    /// The position at which this value stands.
    fn position(&self) -> Point2<Self::Scalar>;
}

} // verus!
