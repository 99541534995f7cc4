//! The laid out parts of a scrollbar.
use vstd::prelude::*;

use crate::geometry::{Point, Rectangle};
use crate::scalar::{whole, zero, Arithmetic, Scalar};
use crate::scrolling::scrollable::Anchor;

verus! {

/// A scrollbar that has been laid out.
#[derive(Clone, Copy, Debug)]
pub struct Scrollbar<S> {
    /// The area of the scrollbar and its margins.
    pub total_bounds: Rectangle<S>,
    /// The area of the rail.
    pub bounds: Rectangle<S>,
    pub scroller: Option<Scroller<S>>,
    pub alignment: Anchor,
    pub disabled: bool,
}

/// The handle of a scrollbar.
#[derive(Clone, Copy, Debug)]
pub struct Scroller<S> {
    pub bounds: Rectangle<S>,
}

/// The share of the rail above the scroller, when the scroller is held at a share of its own
/// length and the cursor is at a position along the rail.
pub open spec fn share_along<S: Arithmetic>(
    position: S,
    start: S,
    length: S,
    scroller_length: S,
    grabbed_at: S,
    alignment: Anchor,
) -> S {
    let share = position.difference(start).difference(
        scroller_length.product(grabbed_at),
    ).quotient(length.difference(scroller_length));
    match alignment {
        Anchor::Start => share,
        Anchor::End => whole::<S>(1).difference(share),
    }
}

/// Gives the share of the rail above the scroller.
fn find_share<S: Scalar>(
    position: S,
    start: S,
    length: S,
    scroller_length: S,
    grabbed_at: S,
    alignment: Anchor,
) -> (r: S)
    ensures
        r == share_along(position, start, length, scroller_length, grabbed_at, alignment),
{
    let share: S = position.minus(start).minus(scroller_length.times(grabbed_at)).over(
        length.minus(scroller_length),
    );
    match alignment {
        Anchor::Start => share,
        Anchor::End => S::ratio(1, 1).minus(share),
    }
}

impl<S: Arithmetic> Scrollbar<S> {
    /// Where the cursor puts the content vertically, as a share of the scrollable distance.
    pub open spec fn share_y(self, grabbed_at: S, cursor_position: Point<S>) -> S {
        match self.scroller {
            Some(scroller) => share_along(
                cursor_position.y,
                self.bounds.y,
                self.bounds.height,
                scroller.bounds.height,
                grabbed_at,
                self.alignment,
            ),
            None => zero(),
        }
    }

    /// Where the cursor puts the content horizontally, as a share of the scrollable distance.
    pub open spec fn share_x(self, grabbed_at: S, cursor_position: Point<S>) -> S {
        match self.scroller {
            Some(scroller) => share_along(
                cursor_position.x,
                self.bounds.x,
                self.bounds.width,
                scroller.bounds.width,
                grabbed_at,
                self.alignment,
            ),
            None => zero(),
        }
    }
}

impl<S: Scalar> Scrollbar<S> {
    /// Tests whether the cursor is over the scrollbar.
    pub fn is_mouse_over(&self, cursor_position: Point<S>) -> (r: bool)
        ensures
            r == self.total_bounds.covers(cursor_position),
    {
        self.total_bounds.contains(cursor_position)
    }

    /// Gives where the cursor puts the content vertically.
    pub fn scroll_percentage_y(&self, grabbed_at: S, cursor_position: Point<S>) -> (r: S)
        ensures
            r == self.share_y(grabbed_at, cursor_position),
    {
        match self.scroller {
            Some(scroller) => find_share(
                cursor_position.y,
                self.bounds.y,
                self.bounds.height,
                scroller.bounds.height,
                grabbed_at,
                self.alignment,
            ),
            None => S::ratio(0, 1),
        }
    }

    /// Gives where the cursor puts the content horizontally.
    pub fn scroll_percentage_x(&self, grabbed_at: S, cursor_position: Point<S>) -> (r: S)
        ensures
            r == self.share_x(grabbed_at, cursor_position),
    {
        match self.scroller {
            Some(scroller) => find_share(
                cursor_position.x,
                self.bounds.x,
                self.bounds.width,
                scroller.bounds.width,
                grabbed_at,
                self.alignment,
            ),
            None => S::ratio(0, 1),
        }
    }
}

} // verus!
