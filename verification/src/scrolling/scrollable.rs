//! What every scrollable has: directions, scrollbars, offsets and a status.
use vstd::prelude::*;

use crate::geometry::{Rectangle, Vector};
use crate::scalar::{zero, Arithmetic, Scalar};

verus! {

/// The end of the content from which an offset counts.
#[derive(Clone, Copy, Debug, PartialEq, Eq, Structural)]
pub enum Anchor {
    Start,
    End,
}

/// How a scrollbar looks.
#[derive(Clone, Copy, Debug)]
pub struct Scrollbar<S> {
    pub width: S,
    pub margin: S,
    pub scroller_width: S,
    pub alignment: Anchor,
    /// The distance to the content of a scrollbar that takes space of its own.
    pub spacing: Option<S>,
}

/// The directions in which content can be scrolled.
#[derive(Clone, Copy, Debug)]
pub enum Direction<S> {
    Vertical(Scrollbar<S>),
    Horizontal(Scrollbar<S>),
    Both { vertical: Scrollbar<S>, horizontal: Scrollbar<S> },
}

/// A distance from the start of the content.
#[derive(Clone, Copy, Debug)]
pub struct AbsoluteOffset<T> {
    pub x: T,
    pub y: T,
}

/// A fraction of the scrollable distance.
#[derive(Clone, Copy, Debug)]
pub struct RelativeOffset<T> {
    pub x: T,
    pub y: T,
}

/// The part of the content that is visible.
#[derive(Clone, Copy, Debug)]
pub struct Viewport<S> {
    pub offset: AbsoluteOffset<S>,
    pub bounds: Rectangle<S>,
    pub content_bounds: Rectangle<S>,
}

/// What a scrollable is doing.
#[derive(Clone, Copy, Debug)]
pub enum Status<S> {
    /// The scrollable can be interacted with.
    Active {
        hover_factor: S,
        is_horizontal_scrollbar_disabled: bool,
        is_vertical_scrollbar_disabled: bool,
    },
    /// The cursor is over the scrollable.
    Hovered {
        hover_factor: S,
        is_horizontal_scrollbar_hovered: bool,
        is_vertical_scrollbar_hovered: bool,
        is_horizontal_scrollbar_disabled: bool,
        is_vertical_scrollbar_disabled: bool,
    },
    /// A scroller is being dragged.
    Dragged {
        hover_factor: S,
        is_horizontal_scrollbar_dragged: bool,
        is_vertical_scrollbar_dragged: bool,
        is_horizontal_scrollbar_disabled: bool,
        is_vertical_scrollbar_disabled: bool,
    },
}

/// The scrollbar that is used when no other is asked for.
pub open spec fn plain_scrollbar<S: Arithmetic>() -> Scrollbar<S> {
    Scrollbar {
        width: S::fraction(10, 1),
        margin: zero(),
        scroller_width: S::fraction(10, 1),
        alignment: Anchor::Start,
        spacing: None,
    }
}

/// A distance, counted from the given end.
pub open spec fn counted_from<S: Arithmetic>(anchor: Anchor, delta: S) -> S {
    match anchor {
        Anchor::Start => delta,
        Anchor::End => delta.opposite(),
    }
}

impl<S: Arithmetic> Scrollbar<S> {
    /// The space that the scrollbar takes across its direction.
    pub open spec fn thickness(self) -> S {
        self.width.greater(self.scroller_width).sum(S::fraction(2, 1).product(self.margin))
    }

    /// The space that the scrollbar takes away from the content, if it takes any.
    pub open spec fn embedding(self) -> Option<S> {
        match self.spacing {
            Some(spacing) => Some(
                self.width.greater(self.scroller_width).sum(
                    self.margin.product(S::fraction(2, 1)),
                ).sum(spacing),
            ),
            None => None,
        }
    }
}

impl<S: Scalar> Scrollbar<S> {
    /// Gives the scrollbar that is used when no other is asked for.
    pub fn plain() -> (r: Self)
        ensures
            r == plain_scrollbar::<S>(),
    {
        Scrollbar {
            width: S::ratio(10, 1),
            margin: S::ratio(0, 1),
            scroller_width: S::ratio(10, 1),
            alignment: Anchor::Start,
            spacing: None,
        }
    }

    /// Gives the space that the scrollbar takes across its direction.
    pub fn total_width(&self) -> (r: S)
        ensures
            r == self.thickness(),
    {
        self.width.max(self.scroller_width).plus(S::ratio(2, 1).times(self.margin))
    }

    /// Gives the space that the scrollbar takes away from the content, if it takes any.
    pub fn embedded_width(&self) -> (r: Option<S>)
        ensures
            r == self.embedding(),
    {
        match self.spacing {
            Some(spacing) => Some(
                self.width.max(self.scroller_width).plus(
                    self.margin.times(S::ratio(2, 1)),
                ).plus(spacing),
            ),
            None => None,
        }
    }
}

impl<S: Arithmetic> Direction<S> {
    /// The horizontal scrollbar.
    pub open spec fn sideways(self) -> Option<Scrollbar<S>> {
        match self {
            Direction::Vertical(_) => None,
            Direction::Horizontal(scrollbar) => Some(scrollbar),
            Direction::Both { horizontal, .. } => Some(horizontal),
        }
    }

    /// The vertical scrollbar.
    pub open spec fn upright(self) -> Option<Scrollbar<S>> {
        match self {
            Direction::Vertical(scrollbar) => Some(scrollbar),
            Direction::Horizontal(_) => None,
            Direction::Both { vertical, .. } => Some(vertical),
        }
    }

    /// A motion, counted from the ends at which the scrollbars are anchored.
    pub open spec fn aligned(self, delta: Vector<S>) -> Vector<S> {
        Vector {
            x: match self.sideways() {
                Some(scrollbar) => counted_from(scrollbar.alignment, delta.x),
                None => delta.x,
            },
            y: match self.upright() {
                Some(scrollbar) => counted_from(scrollbar.alignment, delta.y),
                None => delta.y,
            },
        }
    }
}

impl<S: Scalar> Direction<S> {
    /// Gives the horizontal scrollbar.
    pub fn horizontal(&self) -> (r: Option<Scrollbar<S>>)
        ensures
            r == self.sideways(),
    {
        match self {
            Direction::Vertical(_) => None,
            Direction::Horizontal(scrollbar) => Some(*scrollbar),
            Direction::Both { horizontal, .. } => Some(*horizontal),
        }
    }

    /// Gives the vertical scrollbar.
    pub fn vertical(&self) -> (r: Option<Scrollbar<S>>)
        ensures
            r == self.upright(),
    {
        match self {
            Direction::Vertical(scrollbar) => Some(*scrollbar),
            Direction::Horizontal(_) => None,
            Direction::Both { vertical, .. } => Some(*vertical),
        }
    }

    /// Counts a motion from the ends at which the scrollbars are anchored.
    pub fn align(&self, delta: Vector<S>) -> (r: Vector<S>)
        ensures
            r == self.aligned(delta),
    {
        let mut x: S = delta.x;
        let mut y: S = delta.y;
        if let Some(scrollbar) = self.horizontal() {
            if scrollbar.alignment == Anchor::End {
                x = x.negate();
            }
        }
        if let Some(scrollbar) = self.vertical() {
            if scrollbar.alignment == Anchor::End {
                y = y.negate();
            }
        }
        Vector { x, y }
    }
}

/// An offset as a fraction of the distance that can be scrolled.
pub open spec fn relative_to<S: Arithmetic>(
    offset: AbsoluteOffset<S>,
    bounds: Rectangle<S>,
    content_bounds: Rectangle<S>,
) -> RelativeOffset<S> {
    RelativeOffset {
        x: offset.x.quotient(content_bounds.width.difference(bounds.width)),
        y: offset.y.quotient(content_bounds.height.difference(bounds.height)),
    }
}

impl<S: Scalar> Viewport<S> {
    /// Makes the viewport at an absolute offset.
    pub fn from_absolute(
        offset: AbsoluteOffset<S>,
        bounds: Rectangle<S>,
        content_bounds: Rectangle<S>,
    ) -> (r: Self)
        ensures
            r == (Viewport { offset, bounds, content_bounds }),
    {
        Viewport { offset, bounds, content_bounds }
    }

    /// Gives the offset as a fraction of the distance that can be scrolled.
    pub fn relative_offset(&self) -> (r: RelativeOffset<S>)
        ensures
            r == relative_to(self.offset, self.bounds, self.content_bounds),
    {
        RelativeOffset {
            x: self.offset.x.over(self.content_bounds.width.minus(self.bounds.width)),
            y: self.offset.y.over(self.content_bounds.height.minus(self.bounds.height)),
        }
    }
}

} // verus!
