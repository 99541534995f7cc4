//! What holds of virtual scrolling as a whole.
use vstd::arithmetic::div_mod::{
    lemma_div_denominator, lemma_div_multiples_vanish, lemma_div_pos_is_pos,
    lemma_fundamental_div_mod, lemma_mod_bound,
};
use vstd::arithmetic::mul::lemma_mul_is_commutative;
use vstd::prelude::*;

use crate::event::Event;
use crate::geometry::{Cursor, Rectangle, Size};
use crate::scalar::pixels::{Pixels, STEPS};
use crate::scalar::{is_arithmetic, zero, Arithmetic};
use crate::scrolling::scrollable::{relative_to, AbsoluteOffset, Direction, Status};
use crate::scrolling::virtual_scrollable::frame::{frame_step, is_repeated, Frame};
use crate::scrolling::virtual_scrollable::layout::{
    laid_out, left_over, needed, plan_of, resolved, room_for, with_scrollbars,
};
use crate::scrolling::virtual_scrollable::notify::{unchanged, ScrollEffect};
use crate::scrolling::virtual_scrollable::offset::{reach, Offset};
use crate::scrolling::virtual_scrollable::react::react_step;
use crate::scrolling::virtual_scrollable::scene::{statuses_differ, Scene};
use crate::scrolling::virtual_scrollable::state::State;
use crate::scrolling::virtual_scrollable::update::{
    begin_step, cancels_auto_scroll, ends_drag, next_of, Wishes,
};
use crate::scrolling::virtual_scrollable::{end_row, first_row};
use crate::time::Instant;

verus! {

/// However far content is scrolled, it stops at its ends; content that fits does not move.
pub proof fn law_scrolling_stops_at_the_ends<S: Arithmetic>(
    offset: Offset<S>,
    delta: S,
    viewport: S,
    content: S,
)
    requires
        is_arithmetic::<S>(),
        offset.distance(viewport, content).sum(delta).at_most(
            offset.distance(viewport, content).sum(delta),
        ),
    ensures
        viewport.below(content) ==> (offset.moved(delta, viewport, content) matches Offset::Absolute(
            to,
        ) && zero::<S>().at_most(to) && to.at_most(content.difference(viewport))),
        !viewport.below(content) ==> offset.moved(delta, viewport, content) == offset,
{
}

/// An animated scroll heads for a place within the content, from where the content is.
pub proof fn law_animated_scroll_stays_within<S: Arithmetic>(
    s: State<S>,
    target: AbsoluteOffset<S>,
    bounds: Rectangle<S>,
    content_bounds: Rectangle<S>,
    now: Instant,
)
    requires
        is_arithmetic::<S>(),
        target.x.at_most(target.x),
        target.y.at_most(target.y),
    ensures
        ({
            let after = s.animated_to(target, bounds, content_bounds, now);
            let to = after.scroll_to_target->0;
            &&& after.scroll_to_start == Some(s.distances(bounds, content_bounds))
            &&& after.offset_x == s.offset_x && after.offset_y == s.offset_y
            &&& zero::<S>().at_most(to.x) && to.x.at_most(reach(bounds.width, content_bounds.width))
            &&& zero::<S>().at_most(to.y) && to.y.at_most(
                reach(bounds.height, content_bounds.height),
            )
        }),
{
    let dx = content_bounds.width.difference(bounds.width);
    let dy = content_bounds.height.difference(bounds.height);
    assert(zero::<S>().at_most(dx.greater(zero::<S>())));
    assert(zero::<S>().at_most(dy.greater(zero::<S>())));
}

/// With the first new frame after an animated scroll is over, the content is where the scroll was
/// heading, and the scroll is gone, whatever else was moving the content.
pub proof fn law_finished_scroll_arrives<S: Arithmetic>(
    s: State<S>,
    wishes: Wishes<S>,
    scene: Scene<S>,
    frame: Frame<S>,
)
    requires
        s.has_animated_scroll(),
        !frame.motion.scroll_running,
        !is_repeated(s, frame.now),
    ensures
        ({
            let after = frame_step(s, wishes, scene, frame).state;
            &&& after.offset_x == Offset::Absolute(s.scroll_to_target->0.x)
            &&& after.offset_y == Offset::Absolute(s.scroll_to_target->0.y)
            &&& after.scroll_to_target is None
            &&& after.scroll_to_start is None
            &&& after.scroll_to_animation is None
        }),
{
}

/// A viewport is reported once: right after a report there is nothing new to report.
pub proof fn law_viewport_is_reported_once<S: Arithmetic>(
    s: State<S>,
    bounds: Rectangle<S>,
    content_bounds: Rectangle<S>,
)
    requires
        bounds.agrees(bounds),
        content_bounds.agrees(content_bounds),
        ({
            let offset = s.distances(bounds, content_bounds);
            let share = relative_to(offset, bounds, content_bounds);
            &&& unchanged(offset.x, offset.x) && unchanged(offset.y, offset.y)
            &&& unchanged(share.x, share.x) && unchanged(share.y, share.y)
        }),
    ensures
        !s.reported(bounds, content_bounds).is_news(bounds, content_bounds),
        s.reported(bounds, content_bounds).reported(bounds, content_bounds) == s.reported(
            bounds,
            content_bounds,
        ),
{
}

/// Content that fits its viewport is never reported.
pub proof fn law_fitting_content_is_not_reported<S: Arithmetic>(
    s: State<S>,
    reports: bool,
    bounds: Rectangle<S>,
    content_bounds: Rectangle<S>,
)
    requires
        content_bounds.width.at_most(bounds.width),
        content_bounds.height.at_most(bounds.height),
    ensures
        s.report(reports, bounds, content_bounds) == Seq::<ScrollEffect<S>>::empty(),
        s.reported(bounds, content_bounds) == s,
{
}

/// Statuses are compared without how far the hover animation is: a status that differs in
/// nothing else is the same, and the order of the comparison does not matter.
pub proof fn law_hover_animation_is_no_change<S>(a: Status<S>, b: Status<S>, factor: S)
    ensures
        !statuses_differ(a, a),
        statuses_differ(a, b) == statuses_differ(b, a),
        ({
            let other = match a {
                Status::Active {
                    is_horizontal_scrollbar_disabled,
                    is_vertical_scrollbar_disabled,
                    ..
                } => Status::Active {
                    hover_factor: factor,
                    is_horizontal_scrollbar_disabled,
                    is_vertical_scrollbar_disabled,
                },
                Status::Hovered {
                    is_horizontal_scrollbar_hovered,
                    is_vertical_scrollbar_hovered,
                    is_horizontal_scrollbar_disabled,
                    is_vertical_scrollbar_disabled,
                    ..
                } => Status::Hovered {
                    hover_factor: factor,
                    is_horizontal_scrollbar_hovered,
                    is_vertical_scrollbar_hovered,
                    is_horizontal_scrollbar_disabled,
                    is_vertical_scrollbar_disabled,
                },
                Status::Dragged {
                    is_horizontal_scrollbar_dragged,
                    is_vertical_scrollbar_dragged,
                    is_horizontal_scrollbar_disabled,
                    is_vertical_scrollbar_disabled,
                    ..
                } => Status::Dragged {
                    hover_factor: factor,
                    is_horizontal_scrollbar_dragged,
                    is_vertical_scrollbar_dragged,
                    is_horizontal_scrollbar_disabled,
                    is_vertical_scrollbar_disabled,
                },
            };
            !statuses_differ(a, other)
        }),
{
}

/// Releasing the left button or a finger ends every interaction, and moves nothing at once.
pub proof fn law_release_ends_interaction<S: Arithmetic>(
    s: State<S>,
    wishes: Wishes<S>,
    scene: Scene<S>,
    event: Event<S>,
    cursor: Cursor<S>,
    captured: bool,
    now: Instant,
)
    requires
        ends_drag(event),
    ensures
        ({
            let after = react_step(s, wishes, scene, event, cursor, captured, now).state;
            &&& after.interaction is Idle
            &&& after.offset_x == s.offset_x && after.offset_y == s.offset_y
            &&& !(s.interaction is TouchScrolling) ==> after.velocity == s.velocity
        }),
{
}

/// A button, the wheel, a finger or a key stops scrolling away from the cursor, and nothing else
/// comes of it.
pub proof fn law_input_cancels_auto_scroll<S: Arithmetic>(
    s: State<S>,
    wishes: Wishes<S>,
    scene: Scene<S>,
    event: Event<S>,
    cursor: Cursor<S>,
    cached: Option<Rectangle<S>>,
    now: Instant,
)
    requires
        s.interaction is AutoScrolling,
        cancels_auto_scroll(event),
    ensures
        next_of(s, wishes, scene, event, cursor, cached, now) is Finish,
        ({
            let begun = begin_step(s, wishes.reports, scene, event, cursor, now);
            &&& begun.state.interaction is Idle
            &&& begun.state.offset_x == s.offset_x && begun.state.offset_y == s.offset_y
            &&& begun.effects == seq![
                ScrollEffect::<S>::CaptureEvent,
                ScrollEffect::<S>::RequestRedraw,
            ]
        }),
{
}

/// Scrolling away from the cursor is never started unless it has been asked for.
pub proof fn law_auto_scroll_is_opt_in<S: Arithmetic>(
    s: State<S>,
    wishes: Wishes<S>,
    scene: Scene<S>,
    event: Event<S>,
    cursor: Cursor<S>,
    captured: bool,
    now: Instant,
)
    requires
        !wishes.auto_scroll,
        !(s.interaction is AutoScrolling),
    ensures
        !(react_step(s, wishes, scene, event, cursor, captured, now).state.interaction
            is AutoScrolling),
{
}

/// An event that the content has captured moves nothing, and starts nothing.
pub proof fn law_captured_event_is_left_alone<S: Arithmetic>(
    s: State<S>,
    wishes: Wishes<S>,
    scene: Scene<S>,
    event: Event<S>,
    cursor: Cursor<S>,
    now: Instant,
)
    requires
        !ends_drag(event),
    ensures
        react_step(s, wishes, scene, event, cursor, true, now).state == s,
        react_step(s, wishes, scene, event, cursor, true, now).effects == Seq::<
            ScrollEffect<S>,
        >::empty(),
{
}

/// Scrolling away from the cursor is computed once per frame: the same frame again moves nothing.
pub proof fn law_frame_is_computed_once<S: Arithmetic>(
    s: State<S>,
    wishes: Wishes<S>,
    scene: Scene<S>,
    frame: Frame<S>,
)
    requires
        is_repeated(s, frame.now),
    ensures
        frame_step(s, wishes, scene, frame).state == s,
{
}

/// A frame while nothing moves by itself and no animated scroll is due to arrive leaves the
/// content where it is.
pub proof fn law_still_content_stays<S: Arithmetic>(
    s: State<S>,
    wishes: Wishes<S>,
    scene: Scene<S>,
    frame: Frame<S>,
)
    requires
        !s.is_moving(frame.motion),
        !s.has_animated_scroll(),
    ensures
        frame_step(s, wishes, scene, frame).state.offset_x == s.offset_x,
        frame_step(s, wishes, scene, frame).state.offset_y == s.offset_y,
{
}

/// A changed key has content built again, whatever is visible.
pub proof fn law_changed_key_rebuilds<S: Arithmetic>(
    s: State<S>,
    direction: Direction<S>,
    bounds: Size<S>,
    content: Size<S>,
    cache_key: u64,
)
    requires
        s.cached_key != cache_key,
    ensures
        plan_of(s, direction, bounds, content, cache_key).rebuild,
{
}

/// Content that has just been laid out is kept as long as nothing changes.
pub proof fn law_unchanged_content_is_kept<S: Arithmetic>(
    s: State<S>,
    direction: Direction<S>,
    bounds: Size<S>,
    content: Size<S>,
    cache_key: u64,
)
    requires
        is_arithmetic::<S>(),
        plan_of(s, direction, bounds, content, cache_key).rebuild,
    ensures
        ({
            let plan = plan_of(s, direction, bounds, content, cache_key);
            let after = laid_out(s, plan, cache_key);
            let again = plan_of(after, direction, bounds, content, cache_key);
            &&& !again.rebuild
            &&& again.visible == plan.visible
            &&& again.viewport == plan.viewport
        }),
{
    let plan = plan_of(s, direction, bounds, content, cache_key);
    let v = plan.visible;
    assert(!S::fraction(1, 100).below(v.x.difference(v.x).magnitude()));
    assert(!S::fraction(1, 100).below(v.y.difference(v.y).magnitude()));
    assert(!S::fraction(1, 100).below(v.width.difference(v.width).magnitude()));
    assert(!S::fraction(1, 100).below(v.height.difference(v.height).magnitude()));
}

/// Whether no scrollbar gives room back while the other one takes some.
pub open spec fn takes_room_alike<S: Arithmetic>(direction: Direction<S>) -> bool {
    match (room_for(direction.upright()), room_for(direction.sideways())) {
        (Some(y), Some(x)) => {
            ||| zero::<S>().at_most(y) && zero::<S>().at_most(x)
            ||| y.at_most(zero()) && x.at_most(zero())
        },
        _ => true,
    }
}

/// Resolving the scrollbars once more changes nothing.
pub proof fn law_scrollbars_settle<S: Arithmetic>(
    direction: Direction<S>,
    bounds: Size<S>,
    content: Size<S>,
    visible: (bool, bool),
)
    requires
        is_arithmetic::<S>(),
        takes_room_alike(direction),
    ensures
        resolved(direction, bounds, content, resolved(direction, bounds, content, visible))
            == resolved(direction, bounds, content, visible),
{
    let room_y = room_for(direction.upright());
    let room_x = room_for(direction.sideways());
    let needs = |v: (bool, bool)| needed(direction, bounds, content, v);
    if room_y is Some && room_x is Some {
        let high = left_over(bounds.height, room_x, false);
        let high_beside = left_over(bounds.height, room_x, true);
        let wide = left_over(bounds.width, room_y, false);
        let wide_beside = left_over(bounds.width, room_y, true);
        if zero::<S>().at_most(room_y->0) && zero::<S>().at_most(room_x->0) {
            assert(high_beside.at_most(high));
            assert(wide_beside.at_most(wide));
            assert(high.below(content.height) ==> high_beside.below(content.height));
            assert(wide.below(content.width) ==> wide_beside.below(content.width));
        } else {
            assert(high.at_most(high_beside));
            assert(wide.at_most(wide_beside));
            assert(high_beside.below(content.height) ==> high.below(content.height));
            assert(wide_beside.below(content.width) ==> wide.below(content.width));
        }
    }
}

/// A layout that is repeated without a change keeps its scrollbars and its content; with another
/// key the content is built again for the same part.
pub proof fn law_layout_settles<S: Arithmetic>(
    s: State<S>,
    direction: Direction<S>,
    bounds: Size<S>,
    content: Size<S>,
    cache_key: u64,
    other_key: u64,
)
    requires
        is_arithmetic::<S>(),
        takes_room_alike(direction),
    ensures
        ({
            let first = with_scrollbars(s, direction, bounds, content);
            let plan = plan_of(first, direction, bounds, content, cache_key);
            let after = laid_out(first, plan, cache_key);
            let second = with_scrollbars(after, direction, bounds, content);
            let again = plan_of(second, direction, bounds, content, cache_key);
            let other = plan_of(second, direction, bounds, content, other_key);
            &&& second == after
            &&& !again.rebuild
            &&& again.viewport == plan.viewport
            &&& again.visible == plan.visible
            &&& laid_out(second, again, cache_key) == after
            &&& other.rebuild == (other_key != cache_key)
            &&& other.visible == plan.visible
        }),
{
    let first = with_scrollbars(s, direction, bounds, content);
    let plan = plan_of(first, direction, bounds, content, cache_key);
    law_scrollbars_settle(
        direction,
        bounds,
        content,
        (s.is_y_scrollbar_visible, s.is_x_scrollbar_visible),
    );
    if plan.rebuild {
        law_unchanged_content_is_kept(first, direction, bounds, content, cache_key);
    }
}

/// A quotient of pixels, in steps, rounded down to whole pixels.
proof fn lemma_quotient_index(a: Pixels, h: Pixels)
    requires
        0 <= a.0,
        0 < h.0,
        a.0 * STEPS <= h.0 * i64::MAX,
    ensures
        a.quotient(h).0 == a.0 * STEPS / h.0 as int,
        a.quotient(h).0 as int / STEPS as int == a.0 as int / h.0 as int,
        0 <= a.0 as int / h.0 as int,
        h.0 * (a.0 as int / h.0 as int) <= a.0 < h.0 * (a.0 as int / h.0 as int) + h.0,
{
    let n = a.0 as int;
    let d = h.0 as int;
    lemma_div_pos_is_pos(n * STEPS, d);
    assert(n * STEPS / d <= i64::MAX) by {
        lemma_fundamental_div_mod(n * STEPS, d);
        lemma_mod_bound(n * STEPS, d);
        let q = n * STEPS / d;
        assert(q <= i64::MAX) by (nonlinear_arith)
            requires
                d * q <= d * i64::MAX,
                0 < d,
        ;
    }
    lemma_div_denominator(n * STEPS, d, STEPS as int);
    lemma_div_denominator(n * STEPS, STEPS as int, d);
    lemma_mul_is_commutative(d, STEPS as int);
    lemma_div_multiples_vanish(n, STEPS as int);
    lemma_mul_is_commutative(n, STEPS as int);
    lemma_div_pos_is_pos(n, d);
    lemma_fundamental_div_mod(n, d);
    lemma_mod_bound(n, d);
}

/// Every row that shows in a viewport is among its rows, in pixels whose quotients fit.
pub proof fn law_visible_rows_are_built(row_height: Pixels, viewport: Rectangle<Pixels>, row: int)
    requires
        row_height.0 > 0,
        0 <= viewport.y.0,
        0 <= viewport.height.0,
        viewport.y.0 + viewport.height.0 <= i64::MAX,
        (viewport.y.0 + viewport.height.0) * STEPS <= row_height.0 * i64::MAX,
        usize::MAX > (viewport.y.0 + viewport.height.0) / row_height.0 as int,
        row >= 0,
        row * row_height.0 < viewport.y.0 + viewport.height.0,
        viewport.y.0 < (row + 1) * row_height.0,
    ensures
        first_row(row_height, viewport) <= row < end_row(row_height, viewport),
{
    let h = row_height.0 as int;
    let top = viewport.y.0 as int;
    let bottom = viewport.y.0 + viewport.height.0;
    assert(top * STEPS <= bottom * STEPS);
    lemma_quotient_index(viewport.y, row_height);
    lemma_quotient_index(viewport.y.sum(viewport.height), row_height);
    let a = top / h;
    let b = bottom / h;
    assert(a <= row) by (nonlinear_arith)
        requires
            h * a <= top,
            top < (row + 1) * h,
            h > 0,
    ;
    assert(row <= b) by (nonlinear_arith)
        requires
            row * h < bottom,
            bottom < h * b + h,
            h > 0,
    ;
}

} // verus!
