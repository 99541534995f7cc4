//! Where everything is when an event arrives.
use vstd::prelude::*;

use crate::geometry::{Cursor, Point, Rectangle, Size};
use crate::scalar::{floor_at_zero, nonnegative, zero, Arithmetic, Scalar};
use crate::scrolling::scrollable::{Direction, Status};
use crate::scrolling::virtual_scrollable::offset::Offset;
use crate::scrolling::virtual_scrollable::scrollbars::Scrollbars;
use crate::scrolling::virtual_scrollable::state::{embedded_padding, padding, State};
use crate::scrolling::virtual_scrollable::VirtualScrollable;

verus! {

/// Where everything is when an event arrives.
#[derive(Clone, Copy, Debug)]
pub struct Scene<S> {
    /// The area of the scrollable.
    pub bounds: Rectangle<S>,
    /// The area that is left to the content.
    pub viewport_bounds: Rectangle<S>,
    /// The area of all content.
    pub content_bounds: Rectangle<S>,
    /// Where the cursor is over the scrollable.
    pub over: Option<Point<S>>,
    pub scrollbars: Scrollbars<S>,
    pub over_y_scrollbar: bool,
    pub over_x_scrollbar: bool,
    /// The offsets at that time.
    pub offset_x: Offset<S>,
    pub offset_y: Offset<S>,
}

/// The area that is left to the content.
pub open spec fn viewport_of<S: Arithmetic>(
    direction: Direction<S>,
    state: State<S>,
    bounds: Rectangle<S>,
) -> Rectangle<S> {
    Rectangle {
        x: bounds.x,
        y: bounds.y,
        width: nonnegative(bounds.width.difference(padding(direction, state).0)),
        height: nonnegative(bounds.height.difference(padding(direction, state).1)),
    }
}

/// The extent of all content along one axis.
pub open spec fn content_extent<S: Arithmetic>(declared: S, available: S) -> S {
    if zero::<S>().below(declared) {
        declared
    } else {
        available
    }
}

/// The area of all content.
pub open spec fn content_of<S: Arithmetic>(content_size: Size<S>, bounds: Rectangle<S>) -> Rectangle<S> {
    Rectangle {
        x: bounds.x,
        y: bounds.y,
        width: content_extent(content_size.width, bounds.width),
        height: content_extent(content_size.height, bounds.height),
    }
}

/// The part of the content that is visible when the content is shifted.
pub open spec fn visible_part<S: Arithmetic>(
    shift: crate::geometry::Vector<S>,
    viewport: Size<S>,
    content: Size<S>,
) -> Rectangle<S> {
    Rectangle {
        x: shift.x,
        y: shift.y,
        width: nonnegative(viewport.width.lesser(content.width.difference(shift.x))),
        height: nonnegative(viewport.height.lesser(content.height.difference(shift.y))),
    }
}

/// Where everything is.
pub open spec fn scene_of<S: Arithmetic>(
    direction: Direction<S>,
    content_size: Size<S>,
    state: State<S>,
    bounds: Rectangle<S>,
    cursor: Cursor<S>,
) -> Scene<S> {
    let viewport_bounds = viewport_of(direction, state, bounds);
    let content_bounds = content_of(content_size, bounds);
    let scrollbars = Scrollbars::laid_out(
        state,
        direction,
        bounds,
        Size { width: viewport_bounds.width, height: viewport_bounds.height },
        content_bounds,
    );
    Scene {
        bounds,
        viewport_bounds,
        content_bounds,
        over: cursor.spot_over(bounds),
        scrollbars,
        over_y_scrollbar: scrollbars.hovered(cursor).0,
        over_x_scrollbar: scrollbars.hovered(cursor).1,
        offset_x: state.offset_x,
        offset_y: state.offset_y,
    }
}

impl<S: Arithmetic> Scene<S> {
    /// Where the cursor is over content, and not over a scrollbar.
    pub open spec fn over_content(self) -> Option<Point<S>> {
        if self.over_x_scrollbar || self.over_y_scrollbar {
            None
        } else {
            self.over
        }
    }

    /// The cursor as content sees it that reacts to events: lifted, unless it is over content.
    pub open spec fn content_cursor(self, cursor: Cursor<S>) -> Cursor<S> {
        match self.over_content() {
            Some(p) => Cursor::Available(p),
            None => cursor.lifted(),
        }
    }

    /// What the scrollable is doing.
    pub open spec fn status_of(self, state: State<S>, hover_factor: S) -> Status<S> {
        let x_disabled = self.scrollbars.x is Some && self.scrollbars.x->0.disabled;
        let y_disabled = self.scrollbars.y is Some && self.scrollbars.y->0.disabled;
        if state.holds_scroller() {
            Status::Dragged {
                hover_factor,
                is_horizontal_scrollbar_dragged: state.interaction is XScrollerGrabbed,
                is_vertical_scrollbar_dragged: state.interaction is YScrollerGrabbed,
                is_horizontal_scrollbar_disabled: x_disabled,
                is_vertical_scrollbar_disabled: y_disabled,
            }
        } else if self.over is Some {
            Status::Hovered {
                hover_factor,
                is_horizontal_scrollbar_hovered: self.over_x_scrollbar,
                is_vertical_scrollbar_hovered: self.over_y_scrollbar,
                is_horizontal_scrollbar_disabled: x_disabled,
                is_vertical_scrollbar_disabled: y_disabled,
            }
        } else {
            Status::Active {
                hover_factor,
                is_horizontal_scrollbar_disabled: x_disabled,
                is_vertical_scrollbar_disabled: y_disabled,
            }
        }
    }
}

impl<S: Scalar> Scene<S> {
    /// Gives where the cursor is over content, and not over a scrollbar.
    pub fn find_over_content(&self) -> (r: Option<Point<S>>)
        ensures
            r == self.over_content(),
    {
        if self.over_x_scrollbar || self.over_y_scrollbar {
            None
        } else {
            self.over
        }
    }

    /// Gives the cursor as content sees it that reacts to events.
    pub fn find_content_cursor(&self, cursor: Cursor<S>) -> (r: Cursor<S>)
        ensures
            r == self.content_cursor(cursor),
    {
        match self.find_over_content() {
            Some(p) => Cursor::Available(p),
            None => cursor.levitate(),
        }
    }

    /// Tells what the scrollable is doing.
    pub fn status(&self, state: &State<S>, hover_factor: S) -> (r: Status<S>)
        ensures
            r == self.status_of(*state, hover_factor),
    {
        if state.scrollers_grabbed() {
            Status::Dragged {
                hover_factor,
                is_horizontal_scrollbar_dragged: state.x_scroller_grabbed_at().is_some(),
                is_vertical_scrollbar_dragged: state.y_scroller_grabbed_at().is_some(),
                is_horizontal_scrollbar_disabled: self.scrollbars.is_x_disabled(),
                is_vertical_scrollbar_disabled: self.scrollbars.is_y_disabled(),
            }
        } else if self.over.is_some() {
            Status::Hovered {
                hover_factor,
                is_horizontal_scrollbar_hovered: self.over_x_scrollbar,
                is_vertical_scrollbar_hovered: self.over_y_scrollbar,
                is_horizontal_scrollbar_disabled: self.scrollbars.is_x_disabled(),
                is_vertical_scrollbar_disabled: self.scrollbars.is_y_disabled(),
            }
        } else {
            Status::Active {
                hover_factor,
                is_horizontal_scrollbar_disabled: self.scrollbars.is_x_disabled(),
                is_vertical_scrollbar_disabled: self.scrollbars.is_y_disabled(),
            }
        }
    }
}

/// Whether two statuses differ in more than how far the hover animation is.
pub open spec fn statuses_differ<S>(a: Status<S>, b: Status<S>) -> bool {
    match (a, b) {
        (
            Status::Active {
                is_horizontal_scrollbar_disabled: h1,
                is_vertical_scrollbar_disabled: v1,
                ..
            },
            Status::Active {
                is_horizontal_scrollbar_disabled: h2,
                is_vertical_scrollbar_disabled: v2,
                ..
            },
        ) => (h1, v1) != (h2, v2),
        (
            Status::Hovered {
                is_horizontal_scrollbar_hovered: hh1,
                is_vertical_scrollbar_hovered: vh1,
                is_horizontal_scrollbar_disabled: h1,
                is_vertical_scrollbar_disabled: v1,
                ..
            },
            Status::Hovered {
                is_horizontal_scrollbar_hovered: hh2,
                is_vertical_scrollbar_hovered: vh2,
                is_horizontal_scrollbar_disabled: h2,
                is_vertical_scrollbar_disabled: v2,
                ..
            },
        ) => (hh1, vh1, h1, v1) != (hh2, vh2, h2, v2),
        (
            Status::Dragged {
                is_horizontal_scrollbar_dragged: hd1,
                is_vertical_scrollbar_dragged: vd1,
                is_horizontal_scrollbar_disabled: h1,
                is_vertical_scrollbar_disabled: v1,
                ..
            },
            Status::Dragged {
                is_horizontal_scrollbar_dragged: hd2,
                is_vertical_scrollbar_dragged: vd2,
                is_horizontal_scrollbar_disabled: h2,
                is_vertical_scrollbar_disabled: v2,
                ..
            },
        ) => (hd1, vd1, h1, v1) != (hd2, vd2, h2, v2),
        _ => true,
    }
}

/// Tests whether two statuses differ in more than how far the hover animation is.
pub fn status_fields_changed<S>(a: &Status<S>, b: &Status<S>) -> (r: bool)
    ensures
        r == statuses_differ(*a, *b),
{
    match (a, b) {
        (
            Status::Active {
                is_horizontal_scrollbar_disabled: h1,
                is_vertical_scrollbar_disabled: v1,
                ..
            },
            Status::Active {
                is_horizontal_scrollbar_disabled: h2,
                is_vertical_scrollbar_disabled: v2,
                ..
            },
        ) => *h1 != *h2 || *v1 != *v2,
        (
            Status::Hovered {
                is_horizontal_scrollbar_hovered: hh1,
                is_vertical_scrollbar_hovered: vh1,
                is_horizontal_scrollbar_disabled: h1,
                is_vertical_scrollbar_disabled: v1,
                ..
            },
            Status::Hovered {
                is_horizontal_scrollbar_hovered: hh2,
                is_vertical_scrollbar_hovered: vh2,
                is_horizontal_scrollbar_disabled: h2,
                is_vertical_scrollbar_disabled: v2,
                ..
            },
        ) => *hh1 != *hh2 || *vh1 != *vh2 || *h1 != *h2 || *v1 != *v2,
        (
            Status::Dragged {
                is_horizontal_scrollbar_dragged: hd1,
                is_vertical_scrollbar_dragged: vd1,
                is_horizontal_scrollbar_disabled: h1,
                is_vertical_scrollbar_disabled: v1,
                ..
            },
            Status::Dragged {
                is_horizontal_scrollbar_dragged: hd2,
                is_vertical_scrollbar_dragged: vd2,
                is_horizontal_scrollbar_disabled: h2,
                is_vertical_scrollbar_disabled: v2,
                ..
            },
        ) => *hd1 != *hd2 || *vd1 != *vd2 || *h1 != *h2 || *v1 != *v2,
        _ => true,
    }
}

/// Gives the part of the content that is visible when the content is shifted.
pub fn find_visible_part<S: Scalar>(
    shift: crate::geometry::Vector<S>,
    viewport: Size<S>,
    content: Size<S>,
) -> (r: Rectangle<S>)
    ensures
        r == visible_part(shift, viewport, content),
{
    Rectangle {
        x: shift.x,
        y: shift.y,
        width: floor_at_zero(viewport.width.min(content.width.minus(shift.x))),
        height: floor_at_zero(viewport.height.min(content.height.minus(shift.y))),
    }
}

/// Gives the extent of all content along one axis.
pub fn find_content_extent<S: Scalar>(declared: S, available: S) -> (r: S)
    ensures
        r == content_extent(declared, available),
{
    if S::ratio(0, 1).lt(declared) {
        declared
    } else {
        available
    }
}

impl<S: Scalar, V, F, C, I> VirtualScrollable<S, V, F, C, I> {
    /// Finds out where everything is.
    pub fn scene(&self, state: &State<S>, bounds: Rectangle<S>, cursor: Cursor<S>) -> (r: Scene<S>)
        ensures
            r == scene_of(self.direction, self.content_size, *state, bounds, cursor),
    {
        let (right_padding, bottom_padding) = embedded_padding(self.direction, state);
        let viewport: Size<S> = Size {
            width: floor_at_zero(bounds.width.minus(right_padding)),
            height: floor_at_zero(bounds.height.minus(bottom_padding)),
        };
        let content_bounds: Rectangle<S> = Rectangle {
            x: bounds.x,
            y: bounds.y,
            width: find_content_extent(self.content_size.width, bounds.width),
            height: find_content_extent(self.content_size.height, bounds.height),
        };
        let scrollbars: Scrollbars<S> = Scrollbars::new(
            state,
            self.direction,
            bounds,
            viewport,
            content_bounds,
        );
        let (over_y_scrollbar, over_x_scrollbar) = scrollbars.is_mouse_over(cursor);
        Scene {
            bounds,
            viewport_bounds: Rectangle {
                x: bounds.x,
                y: bounds.y,
                width: viewport.width,
                height: viewport.height,
            },
            content_bounds,
            over: cursor.position_over(bounds),
            scrollbars,
            over_y_scrollbar,
            over_x_scrollbar,
            offset_x: state.offset_x,
            offset_y: state.offset_y,
        }
    }
}

} // verus!
