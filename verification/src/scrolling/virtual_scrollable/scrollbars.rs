//! The layout of both scrollbars.
use vstd::prelude::*;

use crate::geometry::{Cursor, Point, Rectangle, Size};
use crate::scalar::{floor_at_zero, nonnegative, whole, zero, Arithmetic, Scalar};
use crate::scrolling::scrollable::{Direction, Scrollbar};
use crate::scrolling::virtual_scrollable::internals;
use crate::scrolling::virtual_scrollable::state::State;

verus! {

/// The scrollbars that are shown.
#[derive(Clone, Copy, Debug)]
pub struct Scrollbars<S> {
    pub y: Option<internals::Scrollbar<S>>,
    pub x: Option<internals::Scrollbar<S>>,
}

/// Where the scroller is along its rail and how long it is: as much of the rail as is visible of
/// the content, but not shorter than two pixels. There is none where all content is visible.
pub open spec fn scroller_span<S: Arithmetic>(
    start: S,
    length: S,
    shift: S,
    viewport: S,
    content: S,
) -> Option<(S, S)> {
    let ratio = viewport.quotient(content);
    if whole::<S>(1).at_most(ratio) {
        None
    } else {
        Some(
            (
                nonnegative(
                    start.sum(shift.product(ratio).product(length).quotient(viewport)),
                ),
                length.product(ratio).greater(whole(2)),
            ),
        )
    }
}

fn find_scroller_span<S: Scalar>(start: S, length: S, shift: S, viewport: S, content: S) -> (r: Option<
    (S, S),
>)
    ensures
        r == scroller_span(start, length, shift, viewport, content),
{
    let ratio: S = viewport.over(content);
    if S::ratio(1, 1).le(ratio) {
        None
    } else {
        let scroller_length: S = length.times(ratio).max(S::ratio(2, 1));
        let offset: S = shift.times(ratio).times(length).over(viewport);
        Some((floor_at_zero(start.plus(offset)), scroller_length))
    }
}

/// What is shown of a scrollbar: nothing where its content fits.
pub open spec fn shown<S: Arithmetic>(scrollbar: Option<Scrollbar<S>>, viewport: S, content: S) -> Option<
    Scrollbar<S>,
> {
    if viewport.below(content) {
        scrollbar
    } else {
        None
    }
}

fn find_shown<S: Scalar>(scrollbar: Option<Scrollbar<S>>, viewport: S, content: S) -> (r: Option<
    Scrollbar<S>,
>)
    ensures
        r == shown(scrollbar, viewport, content),
{
    if viewport.lt(content) {
        scrollbar
    } else {
        None
    }
}

/// The edge of something of a given thickness, centred on the last `total` before `end`.
pub open spec fn centred_edge<S: Arithmetic>(end: S, total: S, thickness: S) -> S {
    end.difference(total.quotient(whole(2))).difference(thickness.quotient(whole(2)))
}

fn find_centred_edge<S: Scalar>(end: S, total: S, thickness: S) -> (r: S)
    ensures
        r == centred_edge(end, total, thickness),
{
    end.minus(total.over(S::ratio(2, 1))).minus(thickness.over(S::ratio(2, 1)))
}

/// A vertical scrollbar of a given length at the right edge.
pub open spec fn upright_bar<S: Arithmetic>(
    style: Scrollbar<S>,
    bounds: Rectangle<S>,
    length: S,
    shift: S,
    viewport: S,
    content: S,
) -> internals::Scrollbar<S> {
    let total = style.thickness();
    let right = bounds.x.sum(bounds.width);
    internals::Scrollbar {
        total_bounds: Rectangle {
            x: right.difference(total),
            y: bounds.y,
            width: total,
            height: length,
        },
        bounds: Rectangle {
            x: centred_edge(right, total, style.width),
            y: bounds.y,
            width: style.width,
            height: length,
        },
        scroller: match scroller_span(bounds.y, length, shift, viewport, content) {
            Some((position, size)) => Some(
                internals::Scroller {
                    bounds: Rectangle {
                        x: centred_edge(right, total, style.scroller_width),
                        y: position,
                        width: style.scroller_width,
                        height: size,
                    },
                },
            ),
            None => None,
        },
        alignment: style.alignment,
        disabled: content.at_most(bounds.height),
    }
}

/// A horizontal scrollbar of a given length at the bottom edge.
pub open spec fn sideways_bar<S: Arithmetic>(
    style: Scrollbar<S>,
    bounds: Rectangle<S>,
    length: S,
    shift: S,
    viewport: S,
    content: S,
) -> internals::Scrollbar<S> {
    let total = style.thickness();
    let bottom = bounds.y.sum(bounds.height);
    internals::Scrollbar {
        total_bounds: Rectangle {
            x: bounds.x,
            y: bottom.difference(total),
            width: length,
            height: total,
        },
        bounds: Rectangle {
            x: bounds.x,
            y: centred_edge(bottom, total, style.width),
            width: length,
            height: style.width,
        },
        scroller: match scroller_span(bounds.x, length, shift, viewport, content) {
            Some((position, size)) => Some(
                internals::Scroller {
                    bounds: Rectangle {
                        x: position,
                        y: centred_edge(bottom, total, style.scroller_width),
                        width: size,
                        height: style.scroller_width,
                    },
                },
            ),
            None => None,
        },
        alignment: style.alignment,
        disabled: content.at_most(bounds.width),
    }
}

impl<S: Arithmetic> Scrollbars<S> {
    /// The space at the end of the vertical scrollbar that it leaves to the horizontal one: none
    /// where the horizontal scrollbar has space of its own.
    pub open spec fn corner_height(
        direction: Direction<S>,
        bounds: Rectangle<S>,
        viewport: Size<S>,
        content_bounds: Rectangle<S>,
    ) -> S {
        if zero::<S>().below(nonnegative(bounds.height.difference(viewport.height))) {
            zero()
        } else {
            match shown(direction.sideways(), viewport.width, content_bounds.width) {
                Some(style) => style.thickness(),
                None => zero(),
            }
        }
    }

    /// The space at the end of the horizontal scrollbar that it leaves to the vertical one.
    pub open spec fn corner_width(
        direction: Direction<S>,
        bounds: Rectangle<S>,
        viewport: Size<S>,
        content_bounds: Rectangle<S>,
    ) -> S {
        if zero::<S>().below(nonnegative(bounds.width.difference(viewport.width))) {
            zero()
        } else {
            match shown(direction.upright(), viewport.height, content_bounds.height) {
                Some(style) => style.thickness(),
                None => zero(),
            }
        }
    }

    /// The scrollbars of a scrollable.
    pub open spec fn laid_out(
        state: State<S>,
        direction: Direction<S>,
        bounds: Rectangle<S>,
        viewport: Size<S>,
        content_bounds: Rectangle<S>,
    ) -> Self {
        let shift = state.shifted(
            direction,
            Rectangle {
                x: bounds.x,
                y: bounds.y,
                width: viewport.width,
                height: viewport.height,
            },
            content_bounds,
        );
        Scrollbars {
            y: match shown(direction.upright(), viewport.height, content_bounds.height) {
                Some(style) => Some(
                    upright_bar(
                        style,
                        bounds,
                        nonnegative(
                            viewport.height.difference(
                                Self::corner_height(direction, bounds, viewport, content_bounds),
                            ),
                        ),
                        shift.y,
                        viewport.height,
                        content_bounds.height,
                    ),
                ),
                None => None,
            },
            x: match shown(direction.sideways(), viewport.width, content_bounds.width) {
                Some(style) => Some(
                    sideways_bar(
                        style,
                        bounds,
                        nonnegative(
                            viewport.width.difference(
                                Self::corner_width(direction, bounds, viewport, content_bounds),
                            ),
                        ),
                        shift.x,
                        viewport.width,
                        content_bounds.width,
                    ),
                ),
                None => None,
            },
        }
    }

    /// Whether the cursor is over the vertical scrollbar, and over the horizontal one.
    pub open spec fn hovered(self, cursor: Cursor<S>) -> (bool, bool) {
        match cursor.spot() {
            Some(p) => (
                self.y is Some && self.y->0.total_bounds.covers(p),
                self.x is Some && self.x->0.total_bounds.covers(p),
            ),
            None => (false, false),
        }
    }

    /// The share of its length at which the vertical scroller is grabbed: where the cursor is
    /// on it, or in its middle where the cursor is elsewhere on the scrollbar.
    pub open spec fn grabbed_y(self, at: Point<S>) -> Option<S> {
        match self.y {
            Some(scrollbar) => match scrollbar.scroller {
                Some(scroller) => if !scrollbar.total_bounds.covers(at) {
                    None
                } else if scroller.bounds.covers(at) {
                    Some(at.y.difference(scroller.bounds.y).quotient(scroller.bounds.height))
                } else {
                    Some(S::fraction(1, 2))
                },
                None => None,
            },
            None => None,
        }
    }

    /// The share of its length at which the horizontal scroller is grabbed.
    pub open spec fn grabbed_x(self, at: Point<S>) -> Option<S> {
        match self.x {
            Some(scrollbar) => match scrollbar.scroller {
                Some(scroller) => if !scrollbar.total_bounds.covers(at) {
                    None
                } else if scroller.bounds.covers(at) {
                    Some(at.x.difference(scroller.bounds.x).quotient(scroller.bounds.width))
                } else {
                    Some(S::fraction(1, 2))
                },
                None => None,
            },
            None => None,
        }
    }
}

impl<S: Scalar> Scrollbars<S> {
    /// Lays out the scrollbars of a scrollable.
    pub fn new(
        state: &State<S>,
        direction: Direction<S>,
        bounds: Rectangle<S>,
        viewport: Size<S>,
        content_bounds: Rectangle<S>,
    ) -> (r: Self)
        ensures
            r == Self::laid_out(*state, direction, bounds, viewport, content_bounds),
    {
        let viewport_bounds: Rectangle<S> = Rectangle {
            x: bounds.x,
            y: bounds.y,
            width: viewport.width,
            height: viewport.height,
        };
        let translation = state.translation(direction, viewport_bounds, content_bounds);
        let zero: S = S::ratio(0, 1);
        let reserved_width: S = floor_at_zero(bounds.width.minus(viewport.width));
        let reserved_height: S = floor_at_zero(bounds.height.minus(viewport.height));
        let shown_x: Option<Scrollbar<S>> = find_shown(
            direction.horizontal(),
            viewport.width,
            content_bounds.width,
        );
        let shown_y: Option<Scrollbar<S>> = find_shown(
            direction.vertical(),
            viewport.height,
            content_bounds.height,
        );
        let y: Option<internals::Scrollbar<S>> = match shown_y {
            Some(style) => {
                let corner: S = if zero.lt(reserved_height) {
                    zero
                } else {
                    match shown_x {
                        Some(other) => other.total_width(),
                        None => zero,
                    }
                };
                let total: S = style.total_width();
                let right: S = bounds.x.plus(bounds.width);
                let length: S = floor_at_zero(viewport.height.minus(corner));
                let span: Option<(S, S)> = find_scroller_span(
                    bounds.y,
                    length,
                    translation.y,
                    viewport.height,
                    content_bounds.height,
                );
                Some(
                    internals::Scrollbar {
                        total_bounds: Rectangle {
                            x: right.minus(total),
                            y: bounds.y,
                            width: total,
                            height: length,
                        },
                        bounds: Rectangle {
                            x: find_centred_edge(right, total, style.width),
                            y: bounds.y,
                            width: style.width,
                            height: length,
                        },
                        scroller: match span {
                            Some((position, size)) => Some(
                                internals::Scroller {
                                    bounds: Rectangle {
                                        x: find_centred_edge(right, total, style.scroller_width),
                                        y: position,
                                        width: style.scroller_width,
                                        height: size,
                                    },
                                },
                            ),
                            None => None,
                        },
                        alignment: style.alignment,
                        disabled: content_bounds.height.le(bounds.height),
                    },
                )
            },
            None => None,
        };
        let x: Option<internals::Scrollbar<S>> = match shown_x {
            Some(style) => {
                let corner: S = if zero.lt(reserved_width) {
                    zero
                } else {
                    match y {
                        Some(other) => other.total_bounds.width,
                        None => zero,
                    }
                };
                let total: S = style.total_width();
                let bottom: S = bounds.y.plus(bounds.height);
                let length: S = floor_at_zero(viewport.width.minus(corner));
                let span: Option<(S, S)> = find_scroller_span(
                    bounds.x,
                    length,
                    translation.x,
                    viewport.width,
                    content_bounds.width,
                );
                Some(
                    internals::Scrollbar {
                        total_bounds: Rectangle {
                            x: bounds.x,
                            y: bottom.minus(total),
                            width: length,
                            height: total,
                        },
                        bounds: Rectangle {
                            x: bounds.x,
                            y: find_centred_edge(bottom, total, style.width),
                            width: length,
                            height: style.width,
                        },
                        scroller: match span {
                            Some((position, size)) => Some(
                                internals::Scroller {
                                    bounds: Rectangle {
                                        x: position,
                                        y: find_centred_edge(bottom, total, style.scroller_width),
                                        width: size,
                                        height: style.scroller_width,
                                    },
                                },
                            ),
                            None => None,
                        },
                        alignment: style.alignment,
                        disabled: content_bounds.width.le(bounds.width),
                    },
                )
            },
            None => None,
        };
        Scrollbars { y, x }
    }

    /// Tests whether the cursor is over the vertical scrollbar, and over the horizontal one.
    pub fn is_mouse_over(&self, cursor: Cursor<S>) -> (r: (bool, bool))
        ensures
            r == self.hovered(cursor),
    {
        match cursor.position() {
            Some(p) => (
                match &self.y {
                    Some(scrollbar) => scrollbar.is_mouse_over(p),
                    None => false,
                },
                match &self.x {
                    Some(scrollbar) => scrollbar.is_mouse_over(p),
                    None => false,
                },
            ),
            None => (false, false),
        }
    }

    /// Tests whether the vertical scrollbar is disabled.
    pub fn is_y_disabled(&self) -> (r: bool)
        ensures
            r == (self.y is Some && self.y->0.disabled),
    {
        match &self.y {
            Some(scrollbar) => scrollbar.disabled,
            None => false,
        }
    }

    /// Tests whether the horizontal scrollbar is disabled.
    pub fn is_x_disabled(&self) -> (r: bool)
        ensures
            r == (self.x is Some && self.x->0.disabled),
    {
        match &self.x {
            Some(scrollbar) => scrollbar.disabled,
            None => false,
        }
    }

    /// Gives the share of its length at which the vertical scroller is grabbed.
    pub fn grab_y_scroller(&self, cursor_position: Point<S>) -> (r: Option<S>)
        ensures
            r == self.grabbed_y(cursor_position),
    {
        if let Some(scrollbar) = self.y {
            if let Some(scroller) = scrollbar.scroller {
                if scrollbar.total_bounds.contains(cursor_position) {
                    return Some(
                        if scroller.bounds.contains(cursor_position) {
                            cursor_position.y.minus(scroller.bounds.y).over(scroller.bounds.height)
                        } else {
                            S::ratio(1, 2)
                        },
                    );
                }
            }
        }
        None
    }

    /// Gives the share of its length at which the horizontal scroller is grabbed.
    pub fn grab_x_scroller(&self, cursor_position: Point<S>) -> (r: Option<S>)
        ensures
            r == self.grabbed_x(cursor_position),
    {
        if let Some(scrollbar) = self.x {
            if let Some(scroller) = scrollbar.scroller {
                if scrollbar.total_bounds.contains(cursor_position) {
                    return Some(
                        if scroller.bounds.contains(cursor_position) {
                            cursor_position.x.minus(scroller.bounds.x).over(scroller.bounds.width)
                        } else {
                            S::ratio(1, 2)
                        },
                    );
                }
            }
        }
        None
    }

    /// Tests whether any scrollbar is shown.
    pub fn active(&self) -> (r: bool)
        ensures
            r == (self.y is Some || self.x is Some),
    {
        self.y.is_some() || self.x.is_some()
    }
}

} // verus!
