//! How far the content is scrolled along one axis.
use vstd::prelude::*;

use crate::scalar::{floor_at_zero, nonnegative, whole, zero, Arithmetic, Scalar};
use crate::scrolling::scrollable::Anchor;

verus! {

/// How far the content is scrolled along one axis.
#[derive(Clone, Copy, Debug)]
pub enum Offset<S> {
    /// A distance.
    Absolute(S),
    /// A share of the distance that can be scrolled.
    Relative(S),
}

/// The distance that can be scrolled.
pub open spec fn reach<S: Arithmetic>(viewport: S, content: S) -> S {
    nonnegative(content.difference(viewport))
}

/// Gives the distance that can be scrolled.
pub fn find_reach<S: Scalar>(viewport: S, content: S) -> (r: S)
    ensures
        r == reach(viewport, content),
        zero::<S>().at_most(r),
{
    floor_at_zero(content.minus(viewport))
}

impl<S: Arithmetic> Offset<S> {
    /// The distance that the offset stands for.
    pub open spec fn distance(self, viewport: S, content: S) -> S {
        match self {
            Offset::Absolute(absolute) => absolute.lesser(reach(viewport, content)),
            Offset::Relative(share) => nonnegative(content.difference(viewport).product(share)),
        }
    }

    /// The distance from the start of the content, for an offset counted from an anchor.
    pub open spec fn shift(self, viewport: S, content: S, alignment: Anchor) -> S {
        match alignment {
            Anchor::Start => self.distance(viewport, content),
            Anchor::End => nonnegative(
                reach(viewport, content).difference(self.distance(viewport, content)),
            ),
        }
    }

    /// The offset moved by a distance, within the content. Content that fits does not move.
    pub open spec fn moved(self, delta: S, viewport: S, content: S) -> Self {
        if viewport.below(content) {
            Offset::Absolute(
                self.distance(viewport, content).sum(delta).clamped(
                    zero(),
                    content.difference(viewport),
                ),
            )
        } else {
            self
        }
    }

    /// The offset as a distance.
    pub open spec fn settled(self, viewport: S, content: S) -> Self {
        Offset::Absolute(self.distance(viewport, content))
    }

    /// The offset at a share of the distance that can be scrolled.
    pub open spec fn at_share(share: S) -> Self {
        Offset::Relative(share.clamped(zero(), whole(1)))
    }

    /// Whether two offsets are of the same kind and value.
    pub open spec fn agrees(self, other: Self) -> bool {
        match (self, other) {
            (Offset::Absolute(a), Offset::Absolute(b)) => a.same(b),
            (Offset::Relative(a), Offset::Relative(b)) => a.same(b),
            _ => false,
        }
    }
}

impl<S: Scalar> Offset<S> {
    /// Gives the distance that the offset stands for.
    pub fn absolute(self, viewport: S, content: S) -> (r: S)
        ensures
            r == self.distance(viewport, content),
    {
        match self {
            Offset::Absolute(absolute) => absolute.min(find_reach(viewport, content)),
            Offset::Relative(share) => floor_at_zero(content.minus(viewport).times(share)),
        }
    }

    /// Gives the distance from the start of the content.
    pub fn translation(self, viewport: S, content: S, alignment: Anchor) -> (r: S)
        ensures
            r == self.shift(viewport, content, alignment),
    {
        let offset: S = self.absolute(viewport, content);
        match alignment {
            Anchor::Start => offset,
            Anchor::End => floor_at_zero(find_reach(viewport, content).minus(offset)),
        }
    }

    /// Moves the offset by a distance.
    pub fn moved_by(self, delta: S, viewport: S, content: S) -> (r: Self)
        ensures
            r == self.moved(delta, viewport, content),
    {
        if viewport.lt(content) {
            let end: S = content.minus(viewport);
            Offset::Absolute(self.absolute(viewport, content).plus(delta).clamp(S::ratio(0, 1), end))
        } else {
            self
        }
    }

    /// Turns the offset into a distance.
    pub fn settle(self, viewport: S, content: S) -> (r: Self)
        ensures
            r == self.settled(viewport, content),
    {
        Offset::Absolute(self.absolute(viewport, content))
    }

    /// Gives the offset at a share of the distance that can be scrolled.
    pub fn from_share(share: S) -> (r: Self)
        ensures
            r == Self::at_share(share),
    {
        Offset::Relative(share.clamp(S::ratio(0, 1), S::ratio(1, 1)))
    }

    /// Tests whether two offsets are of the same kind and value.
    pub fn equals(self, other: Self) -> (r: bool)
        ensures
            r == self.agrees(other),
    {
        match (self, other) {
            (Offset::Absolute(a), Offset::Absolute(b)) => a.eq(b),
            (Offset::Relative(a), Offset::Relative(b)) => a.eq(b),
            _ => false,
        }
    }
}

} // verus!
