//! How much room scrollbars and content get, and when content is built.
use vstd::prelude::*;

use crate::geometry::{Rectangle, Size, Vector};
use crate::scalar::{floor_at_zero, nonnegative, zero, Arithmetic, Scalar};
use crate::scrolling::scrollable::{Direction, Scrollbar};
use crate::scrolling::virtual_scrollable::scene::{
    content_extent, find_content_extent, find_visible_part, viewport_of, visible_part,
};
use crate::scrolling::virtual_scrollable::state::{embedded_padding, State};
use crate::scrolling::virtual_scrollable::VirtualScrollable;

verus! {

/// What is to be laid out.
#[derive(Clone, Copy, Debug)]
pub struct LayoutPlan<S> {
    /// The room for the content.
    pub viewport: Size<S>,
    /// The part of the content that is visible.
    pub visible: Rectangle<S>,
    /// Whether the content has to be built; otherwise its layout is kept.
    pub rebuild: bool,
}

/// What an operation on the scrollable sees.
#[derive(Clone, Copy, Debug)]
pub struct OperationPlan<S> {
    pub bounds: Rectangle<S>,
    pub content_bounds: Rectangle<S>,
    pub translation: Vector<S>,
}

/// The space that a scrollbar takes from the content, if it takes any.
pub open spec fn room_for<S: Arithmetic>(scrollbar: Option<Scrollbar<S>>) -> Option<S> {
    match scrollbar {
        Some(scrollbar) => scrollbar.embedding(),
        None => None,
    }
}

fn find_room_for<S: Scalar>(scrollbar: Option<Scrollbar<S>>) -> (r: Option<S>)
    ensures
        r == room_for(scrollbar),
{
    match scrollbar {
        Some(scrollbar) => scrollbar.embedded_width(),
        None => None,
    }
}

/// What is left of an extent beside a scrollbar.
pub open spec fn left_over<S: Arithmetic>(extent: S, room: Option<S>, visible: bool) -> S {
    nonnegative(
        extent.difference(
            if visible && room is Some {
                room->0
            } else {
                zero()
            },
        ),
    )
}

fn find_left_over<S: Scalar>(extent: S, room: Option<S>, visible: bool) -> (r: S)
    ensures
        r == left_over(extent, room, visible),
{
    let taken: S = match room {
        Some(room) => if visible {
            room
        } else {
            S::ratio(0, 1)
        },
        None => S::ratio(0, 1),
    };
    floor_at_zero(extent.minus(taken))
}

/// Which scrollbars are needed, given which take room: the vertical one where the content is
/// higher than what the horizontal one leaves, and the other way round. A scrollbar that takes no
/// room is not counted.
pub open spec fn needed<S: Arithmetic>(
    direction: Direction<S>,
    bounds: Size<S>,
    content: Size<S>,
    visible: (bool, bool),
) -> (bool, bool) {
    let room_y = room_for(direction.upright());
    let room_x = room_for(direction.sideways());
    (
        room_y is Some && left_over(bounds.height, room_x, visible.1).below(content.height),
        room_x is Some && left_over(bounds.width, room_y, visible.0).below(content.width),
    )
}

/// The scrollbars that take room in the end: what is needed is found out twice, since each
/// scrollbar may make the other one necessary.
pub open spec fn resolved<S: Arithmetic>(
    direction: Direction<S>,
    bounds: Size<S>,
    content: Size<S>,
    visible: (bool, bool),
) -> (bool, bool) {
    let start = (
        visible.0 && room_for(direction.upright()) is Some,
        visible.1 && room_for(direction.sideways()) is Some,
    );
    needed(direction, bounds, content, needed(direction, bounds, content, start))
}

fn find_resolved<S: Scalar>(
    direction: Direction<S>,
    bounds: Size<S>,
    content: Size<S>,
    visible: (bool, bool),
) -> (r: (bool, bool))
    ensures
        r == resolved(direction, bounds, content, visible),
{
    let room_y: Option<S> = find_room_for(direction.vertical());
    let room_x: Option<S> = find_room_for(direction.horizontal());
    let mut is_y_visible: bool = visible.0 && room_y.is_some();
    let mut is_x_visible: bool = visible.1 && room_x.is_some();
    let ghost start = (is_y_visible, is_x_visible);
    let mut round: u32 = 0;
    while round < 2
        invariant_except_break
            round <= 2,
            round == 0 ==> (is_y_visible, is_x_visible) == start,
            round == 1 ==> (is_y_visible, is_x_visible) == needed(
                direction,
                bounds,
                content,
                start,
            ),
            round == 2 ==> (is_y_visible, is_x_visible) == needed(
                direction,
                bounds,
                content,
                needed(direction, bounds, content, start),
            ),
        invariant
            room_y == room_for(direction.upright()),
            room_x == room_for(direction.sideways()),
        ensures
            (is_y_visible, is_x_visible) == needed(
                direction,
                bounds,
                content,
                needed(direction, bounds, content, start),
            ),
        decreases 2 - round,
    {
        let viewport_width: S = find_left_over(bounds.width, room_y, is_y_visible);
        let viewport_height: S = find_left_over(bounds.height, room_x, is_x_visible);
        let y_needed: bool = room_y.is_some() && viewport_height.lt(content.height);
        let x_needed: bool = room_x.is_some() && viewport_width.lt(content.width);
        if y_needed == is_y_visible && x_needed == is_x_visible {
            break;
        }
        is_y_visible = y_needed;
        is_x_visible = x_needed;
        round = round + 1;
    }
    (is_y_visible, is_x_visible)
}

/// Whether a viewport differs so much from the one that content was built for that the content
/// has to be built again.
pub open spec fn strays<S: Arithmetic>(a: Rectangle<S>, b: Rectangle<S>) -> bool {
    let limit = S::fraction(1, 100);
    ||| limit.below(a.x.difference(b.x).magnitude())
    ||| limit.below(a.y.difference(b.y).magnitude())
    ||| limit.below(a.width.difference(b.width).magnitude())
    ||| limit.below(a.height.difference(b.height).magnitude())
}

fn has_strayed<S: Scalar>(a: &Rectangle<S>, b: &Rectangle<S>) -> (r: bool)
    ensures
        r == strays(*a, *b),
{
    let limit: S = S::ratio(1, 100);
    limit.lt(a.x.minus(b.x).abs()) || limit.lt(a.y.minus(b.y).abs()) || limit.lt(
        a.width.minus(b.width).abs(),
    ) || limit.lt(a.height.minus(b.height).abs())
}

/// The size of all content.
pub open spec fn content_within<S: Arithmetic>(content_size: Size<S>, bounds: Size<S>) -> Size<S> {
    Size {
        width: content_extent(content_size.width, bounds.width),
        height: content_extent(content_size.height, bounds.height),
    }
}

/// The state with the scrollbars resolved that take room.
pub open spec fn with_scrollbars<S: Arithmetic>(
    s: State<S>,
    direction: Direction<S>,
    bounds: Size<S>,
    content: Size<S>,
) -> State<S> {
    let visible = resolved(
        direction,
        bounds,
        content,
        (s.is_y_scrollbar_visible, s.is_x_scrollbar_visible),
    );
    State { is_y_scrollbar_visible: visible.0, is_x_scrollbar_visible: visible.1, ..s }
}

/// What is laid out, once the scrollbars are resolved that take room.
pub open spec fn plan_of<S: Arithmetic>(
    s: State<S>,
    direction: Direction<S>,
    bounds: Size<S>,
    content: Size<S>,
    cache_key: u64,
) -> LayoutPlan<S> {
    let viewport = Size {
        width: left_over(bounds.width, room_for(direction.upright()), s.is_y_scrollbar_visible),
        height: left_over(bounds.height, room_for(direction.sideways()), s.is_x_scrollbar_visible),
    };
    let shift = s.shifted(
        direction,
        Rectangle { x: zero(), y: zero(), width: viewport.width, height: viewport.height },
        Rectangle { x: zero(), y: zero(), width: content.width, height: content.height },
    );
    let visible = visible_part(shift, viewport, content);
    LayoutPlan {
        viewport,
        visible,
        rebuild: (s.cached_viewport is Some ==> strays(s.cached_viewport->0, visible))
            || s.cached_key != cache_key || !s.has_cached_layout,
    }
}

/// The state after the layout.
pub open spec fn laid_out<S: Arithmetic>(s: State<S>, plan: LayoutPlan<S>, cache_key: u64) -> State<S> {
    if plan.rebuild {
        State {
            cached_viewport: Some(plan.visible),
            has_cached_layout: true,
            cached_key: cache_key,
            ..s
        }
    } else {
        s
    }
}

impl<S: Scalar, V, F, C, I> VirtualScrollable<S, V, F, C, I> {
    /// Plans the layout within a size. The content is built again when the visible part of it
    /// or the key of its data has changed.
    pub fn layout(&mut self, state: &mut State<S>, bounds: Size<S>) -> (plan: LayoutPlan<S>)
        ensures
            ({
                let content = content_within(old(self).content_size, bounds);
                let s = with_scrollbars(*old(state), old(self).direction, bounds, content);
                &&& plan == plan_of(s, old(self).direction, bounds, content, old(self).cache_key)
                &&& *final(state) == laid_out(s, plan, old(self).cache_key)
                &&& *final(self) == (VirtualScrollable {
                    cached_content: if plan.rebuild {
                        Some(plan.visible)
                    } else {
                        old(self).cached_content
                    },
                    ..*old(self)
                })
            }),
    {
        let content: Size<S> = Size {
            width: find_content_extent(self.content_size.width, bounds.width),
            height: find_content_extent(self.content_size.height, bounds.height),
        };
        let (is_y_visible, is_x_visible) = find_resolved(
            self.direction,
            bounds,
            content,
            (state.is_y_scrollbar_visible, state.is_x_scrollbar_visible),
        );
        state.is_y_scrollbar_visible = is_y_visible;
        state.is_x_scrollbar_visible = is_x_visible;
        let viewport: Size<S> = Size {
            width: find_left_over(
                bounds.width,
                find_room_for(self.direction.vertical()),
                is_y_visible,
            ),
            height: find_left_over(
                bounds.height,
                find_room_for(self.direction.horizontal()),
                is_x_visible,
            ),
        };
        let zero: S = S::ratio(0, 1);
        let translation: Vector<S> = state.translation(
            self.direction,
            Rectangle { x: zero, y: zero, width: viewport.width, height: viewport.height },
            Rectangle { x: zero, y: zero, width: content.width, height: content.height },
        );
        let visible: Rectangle<S> = find_visible_part(translation, viewport, content);
        let viewport_changed: bool = match &state.cached_viewport {
            Some(cached) => has_strayed(cached, &visible),
            None => true,
        };
        let rebuild: bool = viewport_changed || state.cached_key != self.cache_key
            || !state.has_cached_layout;
        if rebuild {
            state.cached_viewport = Some(visible);
            state.has_cached_layout = true;
            state.cached_key = self.cache_key;
            self.cached_content = Some(visible);
        }
        LayoutPlan { viewport, visible, rebuild }
    }

    /// Gives what an operation on the scrollable sees.
    pub fn operate(&self, state: &State<S>, bounds: Rectangle<S>) -> (r: OperationPlan<S>)
        ensures
            r.bounds == bounds,
            r.content_bounds == (Rectangle {
                x: zero(),
                y: zero(),
                width: content_extent(self.content_size.width, bounds.width),
                height: content_extent(self.content_size.height, bounds.height),
            }),
            r.translation == state.shifted(
                self.direction,
                viewport_of(self.direction, *state, bounds),
                r.content_bounds,
            ),
    {
        let (right_padding, bottom_padding) = embedded_padding(self.direction, state);
        let viewport_bounds: Rectangle<S> = Rectangle {
            x: bounds.x,
            y: bounds.y,
            width: floor_at_zero(bounds.width.minus(right_padding)),
            height: floor_at_zero(bounds.height.minus(bottom_padding)),
        };
        let content_bounds: Rectangle<S> = Rectangle {
            x: S::ratio(0, 1),
            y: S::ratio(0, 1),
            width: find_content_extent(self.content_size.width, bounds.width),
            height: find_content_extent(self.content_size.height, bounds.height),
        };
        let translation: Vector<S> = state.translation(
            self.direction,
            viewport_bounds,
            content_bounds,
        );
        OperationPlan { bounds, content_bounds, translation }
    }
}

} // verus!
