//! Points, sizes, rectangles and the cursor.
use vstd::prelude::*;

use crate::scalar::{whole, zero, Arithmetic, Scalar};

verus! {

/// A position.
#[derive(Clone, Copy, Debug)]
pub struct Point<S> {
    pub x: S,
    pub y: S,
}

/// A displacement.
#[derive(Clone, Copy, Debug)]
pub struct Vector<S> {
    pub x: S,
    pub y: S,
}

/// A width and a height.
#[derive(Clone, Copy, Debug)]
pub struct Size<S> {
    pub width: S,
    pub height: S,
}

/// An axis-aligned rectangle.
#[derive(Clone, Copy, Debug)]
pub struct Rectangle<S> {
    pub x: S,
    pub y: S,
    pub width: S,
    pub height: S,
}

/// The point with both coordinates zero.
pub open spec fn origin<S: Arithmetic>() -> Point<S> {
    Point { x: zero::<S>(), y: zero::<S>() }
}

/// The vector with both components zero.
pub open spec fn no_motion<S: Arithmetic>() -> Vector<S> {
    Vector { x: zero::<S>(), y: zero::<S>() }
}

impl<S: Scalar> Point<S> {
    /// Gives the point with both coordinates zero.
    pub fn origin() -> (r: Self)
        ensures
            r == origin::<S>(),
    {
        Point { x: S::ratio(0, 1), y: S::ratio(0, 1) }
    }
}

impl<S: Scalar> Vector<S> {
    /// Gives the vector with both components zero.
    pub fn none() -> (r: Self)
        ensures
            r == no_motion::<S>(),
    {
        Vector { x: S::ratio(0, 1), y: S::ratio(0, 1) }
    }
}

impl<S: Arithmetic> Rectangle<S> {
    /// Whether the rectangle covers a point: its left and top edges belong to it, its
    /// right and bottom edges do not.
    pub open spec fn covers(self, p: Point<S>) -> bool {
        &&& self.x.at_most(p.x)
        &&& p.x.below(self.x.sum(self.width))
        &&& self.y.at_most(p.y)
        &&& p.y.below(self.y.sum(self.height))
    }

    /// The horizontal coordinate of the centre.
    pub open spec fn middle_x(self) -> S {
        self.x.sum(self.width.quotient(whole(2)))
    }

    /// The vertical coordinate of the centre.
    pub open spec fn middle_y(self) -> S {
        self.y.sum(self.height.quotient(whole(2)))
    }

    /// Whether every side agrees with that of another rectangle.
    pub open spec fn agrees(self, other: Self) -> bool {
        &&& self.x.same(other.x)
        &&& self.y.same(other.y)
        &&& self.width.same(other.width)
        &&& self.height.same(other.height)
    }

    /// What the rectangle has in common with another one: nothing, unless it has an area.
    pub open spec fn common(self, other: Self) -> Option<Self> {
        let x = self.x.greater(other.x);
        let y = self.y.greater(other.y);
        let width = self.x.sum(self.width).lesser(other.x.sum(other.width)).difference(x);
        let height = self.y.sum(self.height).lesser(other.y.sum(other.height)).difference(y);
        if zero::<S>().below(width) && zero::<S>().below(height) {
            Some(Rectangle { x, y, width, height })
        } else {
            None
        }
    }
}

impl<S: Scalar> Rectangle<S> {
    /// Gives what the rectangle has in common with another one.
    pub fn intersection(&self, other: &Self) -> (r: Option<Self>)
        ensures
            r == self.common(*other),
    {
        let x: S = self.x.max(other.x);
        let y: S = self.y.max(other.y);
        let width: S = self.x.plus(self.width).min(other.x.plus(other.width)).minus(x);
        let height: S = self.y.plus(self.height).min(other.y.plus(other.height)).minus(y);
        if S::ratio(0, 1).lt(width) && S::ratio(0, 1).lt(height) {
            Some(Rectangle { x, y, width, height })
        } else {
            None
        }
    }

    /// Tests whether the rectangle covers a point.
    pub fn contains(&self, p: Point<S>) -> (r: bool)
        ensures
            r == self.covers(p),
    {
        self.x.le(p.x) && p.x.lt(self.x.plus(self.width)) && self.y.le(p.y) && p.y.lt(
            self.y.plus(self.height),
        )
    }

    /// Gives the horizontal coordinate of the centre.
    pub fn center_x(&self) -> (r: S)
        ensures
            r == self.middle_x(),
    {
        self.x.plus(self.width.over(S::ratio(2, 1)))
    }

    /// Gives the vertical coordinate of the centre.
    pub fn center_y(&self) -> (r: S)
        ensures
            r == self.middle_y(),
    {
        self.y.plus(self.height.over(S::ratio(2, 1)))
    }

    /// Tests whether two rectangles are equal.
    pub fn equals(&self, other: &Self) -> (r: bool)
        ensures
            r == self.agrees(*other),
    {
        self.x.eq(other.x) && self.y.eq(other.y) && self.width.eq(other.width) && self.height.eq(
            other.height,
        )
    }
}

/// Where the pointer is, and whether the widget at hand may react to it.
#[derive(Clone, Copy, Debug)]
pub enum Cursor<S> {
    /// The cursor is at a position.
    Available(Point<S>),
    /// The cursor is at a position but hovers above an unrelated layer.
    Levitating(Point<S>),
    /// There is no cursor.
    Unavailable,
}

impl<S: Arithmetic> Cursor<S> {
    /// The position of an available cursor.
    pub open spec fn spot(self) -> Option<Point<S>> {
        match self {
            Cursor::Available(p) => Some(p),
            _ => None,
        }
    }

    /// The position of an available cursor that is inside of some bounds.
    pub open spec fn spot_over(self, bounds: Rectangle<S>) -> Option<Point<S>> {
        match self {
            Cursor::Available(p) => if bounds.covers(p) {
                Some(p)
            } else {
                None
            },
            _ => None,
        }
    }

    /// The position of an available cursor, or the origin.
    pub open spec fn spot_or_origin(self) -> Point<S> {
        match self {
            Cursor::Available(p) => p,
            _ => origin::<S>(),
        }
    }

    /// The cursor lifted above the layer.
    pub open spec fn lifted(self) -> Cursor<S> {
        match self {
            Cursor::Available(p) => Cursor::Levitating(p),
            _ => self,
        }
    }

    /// The cursor put back on the layer.
    pub open spec fn landed(self) -> Cursor<S> {
        match self {
            Cursor::Levitating(p) => Cursor::Available(p),
            _ => self,
        }
    }
}

impl<S: Scalar> Cursor<S> {
    /// Gives the position of an available cursor.
    pub fn position(&self) -> (r: Option<Point<S>>)
        ensures
            r == self.spot(),
    {
        match self {
            Cursor::Available(p) => Some(*p),
            _ => None,
        }
    }

    /// Gives the position of an available cursor that is inside of some bounds.
    pub fn position_over(&self, bounds: Rectangle<S>) -> (r: Option<Point<S>>)
        ensures
            r == self.spot_over(bounds),
    {
        match self {
            Cursor::Available(p) => if bounds.contains(*p) {
                Some(*p)
            } else {
                None
            },
            _ => None,
        }
    }

    /// Gives the position of an available cursor, or the origin.
    pub fn position_or_origin(&self) -> (r: Point<S>)
        ensures
            r == self.spot_or_origin(),
    {
        match self {
            Cursor::Available(p) => *p,
            _ => Point::origin(),
        }
    }

    /// Lifts the cursor above the layer.
    pub fn levitate(self) -> (r: Self)
        ensures
            r == self.lifted(),
    {
        match self {
            Cursor::Available(p) => Cursor::Levitating(p),
            _ => self,
        }
    }

    /// Puts the cursor back on the layer.
    pub fn land(self) -> (r: Self)
        ensures
            r == self.landed(),
    {
        match self {
            Cursor::Levitating(p) => Cursor::Available(p),
            _ => self,
        }
    }
}

} // verus!
