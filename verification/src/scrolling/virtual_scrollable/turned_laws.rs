//! Both axes are treated alike: turning everything that goes in, so that right becomes down and
//! down becomes right, turns what comes out.
use vstd::prelude::*;

use crate::event::{Event, MouseEvent, ScrollDelta, TouchEvent};
use crate::geometry::{Cursor, Point, Rectangle, Size, Vector};
use crate::scalar::Arithmetic;
use crate::scrolling::scrollable::{AbsoluteOffset, Direction, Viewport};
use crate::scrolling::virtual_scrollable::frame::{
    animate_step, auto_scroll_step, coast_step, frame_step, Frame,
};
use crate::scrolling::virtual_scrollable::internals;
use crate::scrolling::virtual_scrollable::layout::{plan_of, with_scrollbars, LayoutPlan};
use crate::scrolling::virtual_scrollable::react::{
    cursor_step, finger_dragged, middle_button_step, react_step, release_step, touch_step,
    wheel_motion, wheel_step,
};
use crate::scrolling::virtual_scrollable::scene::{scene_of, Scene};
use crate::scrolling::virtual_scrollable::scrollbars::Scrollbars;
use crate::scrolling::virtual_scrollable::state::{Interaction, State};
use crate::scrolling::virtual_scrollable::update::{
    drag_x_step, drag_y_step, ends_drag, Step, Wishes,
};
use crate::time::Instant;

verus! {

/// A point with its axes swapped.
pub open spec fn turned_point<S>(p: Point<S>) -> Point<S> {
    Point { x: p.y, y: p.x }
}

/// A vector with its axes swapped.
pub open spec fn turned_vector<S>(v: Vector<S>) -> Vector<S> {
    Vector { x: v.y, y: v.x }
}

/// A size with its axes swapped.
pub open spec fn turned_size<S>(size: Size<S>) -> Size<S> {
    Size { width: size.height, height: size.width }
}

/// A rectangle with its axes swapped.
pub open spec fn turned_area<S>(r: Rectangle<S>) -> Rectangle<S> {
    Rectangle { x: r.y, y: r.x, width: r.height, height: r.width }
}

/// Both offsets swapped.
pub open spec fn turned_offsets<S>(offset: AbsoluteOffset<S>) -> AbsoluteOffset<S> {
    AbsoluteOffset { x: offset.y, y: offset.x }
}

/// The directions swapped.
pub open spec fn turned_direction<S>(direction: Direction<S>) -> Direction<S> {
    match direction {
        Direction::Vertical(bar) => Direction::Horizontal(bar),
        Direction::Horizontal(bar) => Direction::Vertical(bar),
        Direction::Both { vertical, horizontal } => Direction::Both {
            vertical: horizontal,
            horizontal: vertical,
        },
    }
}

/// A viewport with its axes swapped.
pub open spec fn turned_viewport<S>(viewport: Viewport<S>) -> Viewport<S> {
    Viewport {
        offset: turned_offsets(viewport.offset),
        bounds: turned_area(viewport.bounds),
        content_bounds: turned_area(viewport.content_bounds),
    }
}

/// A cursor with its axes swapped.
pub open spec fn turned_cursor<S>(cursor: Cursor<S>) -> Cursor<S> {
    match cursor {
        Cursor::Available(p) => Cursor::Available(turned_point(p)),
        Cursor::Levitating(p) => Cursor::Levitating(turned_point(p)),
        Cursor::Unavailable => Cursor::Unavailable,
    }
}

/// What the pointer is doing, with the axes swapped.
pub open spec fn turned_interaction<S>(interaction: Interaction<S>) -> Interaction<S> {
    match interaction {
        Interaction::Idle => Interaction::Idle,
        Interaction::YScrollerGrabbed(at) => Interaction::XScrollerGrabbed(at),
        Interaction::XScrollerGrabbed(at) => Interaction::YScrollerGrabbed(at),
        Interaction::AutoScrolling { origin, current, last_frame } => Interaction::AutoScrolling {
            origin: turned_point(origin),
            current: turned_point(current),
            last_frame,
        },
        Interaction::TouchScrolling { last_position, last_time } => Interaction::TouchScrolling {
            last_position: turned_point(last_position),
            last_time,
        },
    }
}

/// A state with its axes swapped.
pub open spec fn turned<S>(s: State<S>) -> State<S> {
    State {
        offset_y: s.offset_x,
        offset_x: s.offset_y,
        interaction: turned_interaction(s.interaction),
        last_notified: match s.last_notified {
            Some(viewport) => Some(turned_viewport(viewport)),
            None => None,
        },
        last_scrolled: s.last_scrolled,
        is_mouse_over_area: s.is_mouse_over_area,
        velocity: turned_vector(s.velocity),
        last_kinetic_update: s.last_kinetic_update,
        scroll_to_target: match s.scroll_to_target {
            Some(target) => Some(turned_offsets(target)),
            None => None,
        },
        scroll_to_animation: s.scroll_to_animation,
        scroll_to_start: match s.scroll_to_start {
            Some(start) => Some(turned_offsets(start)),
            None => None,
        },
        is_y_scrollbar_visible: s.is_x_scrollbar_visible,
        is_x_scrollbar_visible: s.is_y_scrollbar_visible,
        cached_viewport: match s.cached_viewport {
            Some(viewport) => Some(turned_area(viewport)),
            None => None,
        },
        has_cached_layout: s.has_cached_layout,
        cached_key: s.cached_key,
        is_pointer_down: s.is_pointer_down,
    }
}

/// A scrollbar with its axes swapped.
pub open spec fn turned_bar<S>(bar: internals::Scrollbar<S>) -> internals::Scrollbar<S> {
    internals::Scrollbar {
        total_bounds: turned_area(bar.total_bounds),
        bounds: turned_area(bar.bounds),
        scroller: match bar.scroller {
            Some(scroller) => Some(internals::Scroller { bounds: turned_area(scroller.bounds) }),
            None => None,
        },
        alignment: bar.alignment,
        disabled: bar.disabled,
    }
}

/// Both scrollbars, swapped.
pub open spec fn turned_bars<S>(bars: Scrollbars<S>) -> Scrollbars<S> {
    Scrollbars {
        y: match bars.x {
            Some(bar) => Some(turned_bar(bar)),
            None => None,
        },
        x: match bars.y {
            Some(bar) => Some(turned_bar(bar)),
            None => None,
        },
    }
}

/// A scene with its axes swapped.
pub open spec fn turned_scene<S>(scene: Scene<S>) -> Scene<S> {
    Scene {
        bounds: turned_area(scene.bounds),
        viewport_bounds: turned_area(scene.viewport_bounds),
        content_bounds: turned_area(scene.content_bounds),
        over: match scene.over {
            Some(p) => Some(turned_point(p)),
            None => None,
        },
        scrollbars: turned_bars(scene.scrollbars),
        over_y_scrollbar: scene.over_x_scrollbar,
        over_x_scrollbar: scene.over_y_scrollbar,
        offset_x: scene.offset_y,
        offset_y: scene.offset_x,
    }
}

/// Wishes with the directions swapped.
pub open spec fn turned_wishes<S>(wishes: Wishes<S>) -> Wishes<S> {
    Wishes { direction: turned_direction(wishes.direction), ..wishes }
}

/// Scrolling, the way to the content and what is asked of an animation are alike on both axes.
pub proof fn law_state_can_be_turned<S: Arithmetic>(
    s: State<S>,
    direction: Direction<S>,
    delta: Vector<S>,
    target: AbsoluteOffset<S>,
    bounds: Rectangle<S>,
    content_bounds: Rectangle<S>,
    now: Instant,
)
    ensures
        turned(s).scrolled(turned_vector(delta), turned_area(bounds), turned_area(content_bounds))
            == turned(s.scrolled(delta, bounds, content_bounds)),
        turned(s).unsnapped(turned_area(bounds), turned_area(content_bounds)) == turned(
            s.unsnapped(bounds, content_bounds),
        ),
        turned(s).distances(turned_area(bounds), turned_area(content_bounds)) == turned_offsets(
            s.distances(bounds, content_bounds),
        ),
        turned(s).shifted(
            turned_direction(direction),
            turned_area(bounds),
            turned_area(content_bounds),
        ) == turned_vector(s.shifted(direction, bounds, content_bounds)),
        turned(s).animated_to(
            turned_offsets(target),
            turned_area(bounds),
            turned_area(content_bounds),
            now,
        ) == turned(s.animated_to(target, bounds, content_bounds, now)),
        turned(s).is_news(turned_area(bounds), turned_area(content_bounds)) == s.is_news(
            bounds,
            content_bounds,
        ),
        turned(s).reported(turned_area(bounds), turned_area(content_bounds)) == turned(
            s.reported(bounds, content_bounds),
        ),
        turned(s).reported_scroll(turned_area(bounds), turned_area(content_bounds), now) == turned(
            s.reported_scroll(bounds, content_bounds, now),
        ),
{
}

/// Content that moves on its own, or to where it was told to scroll, does so alike on both axes.
pub proof fn law_motion_can_be_turned<S: Arithmetic>(
    s: State<S>,
    now: Instant,
    decay: S,
    running: bool,
    progress: S,
    bounds: Rectangle<S>,
    content_bounds: Rectangle<S>,
)
    ensures
        turned(s).coasted(now, decay, turned_area(bounds), turned_area(content_bounds)) == turned(
            s.coasted(now, decay, bounds, content_bounds),
        ),
        turned(s).animated(running, progress, turned_area(bounds), turned_area(content_bounds))
            == turned(s.animated(running, progress, bounds, content_bounds)),
{
    law_state_can_be_turned(
        s,
        Direction::Both {
            vertical: crate::scrolling::scrollable::plain_scrollbar(),
            horizontal: crate::scrolling::scrollable::plain_scrollbar(),
        },
        Vector {
            x: s.velocity.x.product(s.coasting_time(now)),
            y: s.velocity.y.product(s.coasting_time(now)),
        },
        AbsoluteOffset { x: decay, y: decay },
        bounds,
        content_bounds,
        now,
    );
}

/// Both scrollbars are laid out alike: the vertical one at the right edge as the horizontal one is
/// at the bottom edge.
pub proof fn law_scrollbars_can_be_turned<S: Arithmetic>(
    s: State<S>,
    direction: Direction<S>,
    bounds: Rectangle<S>,
    viewport: Size<S>,
    content_bounds: Rectangle<S>,
)
    ensures
        Scrollbars::laid_out(
            turned(s),
            turned_direction(direction),
            turned_area(bounds),
            turned_size(viewport),
            turned_area(content_bounds),
        ) == turned_bars(
            Scrollbars::laid_out(s, direction, bounds, viewport, content_bounds),
        ),
{
    let viewport_bounds = Rectangle {
        x: bounds.x,
        y: bounds.y,
        width: viewport.width,
        height: viewport.height,
    };
    law_state_can_be_turned(
        s,
        direction,
        s.velocity,
        AbsoluteOffset { x: bounds.x, y: bounds.x },
        viewport_bounds,
        content_bounds,
        Instant { nanos: 0 },
    );
}

/// Both scrollbars are found and held alike.
pub proof fn law_grabbing_can_be_turned<S: Arithmetic>(
    bars: Scrollbars<S>,
    cursor: Cursor<S>,
    at: Point<S>,
    held: S,
)
    ensures
        turned_bars(bars).hovered(turned_cursor(cursor)) == (
            bars.hovered(cursor).1,
            bars.hovered(cursor).0,
        ),
        turned_bars(bars).grabbed_y(turned_point(at)) == bars.grabbed_x(at),
        turned_bars(bars).grabbed_x(turned_point(at)) == bars.grabbed_y(at),
        bars.x matches Some(bar) ==> turned_bar(bar).share_y(held, turned_point(at))
            == bar.share_x(held, at),
        bars.y matches Some(bar) ==> turned_bar(bar).share_x(held, turned_point(at))
            == bar.share_y(held, at),
{
}

/// Where everything is, is alike on both axes.
pub proof fn law_scene_can_be_turned<S: Arithmetic>(
    direction: Direction<S>,
    content_size: Size<S>,
    s: State<S>,
    bounds: Rectangle<S>,
    cursor: Cursor<S>,
)
    ensures
        scene_of(
            turned_direction(direction),
            turned_size(content_size),
            turned(s),
            turned_area(bounds),
            turned_cursor(cursor),
        ) == turned_scene(scene_of(direction, content_size, s, bounds, cursor)),
{
    let scene = scene_of(direction, content_size, s, bounds, cursor);
    let viewport = Size {
        width: scene.viewport_bounds.width,
        height: scene.viewport_bounds.height,
    };
    law_scrollbars_can_be_turned(s, direction, bounds, viewport, scene.content_bounds);
    law_grabbing_can_be_turned(
        scene.scrollbars,
        cursor,
        Point { x: bounds.x, y: bounds.y },
        bounds.x,
    );
}

/// What is laid out is alike on both axes: which scrollbars take room, what they leave, and which
/// part of the content shows there.
pub proof fn law_layout_can_be_turned<S: Arithmetic>(
    s: State<S>,
    direction: Direction<S>,
    bounds: Size<S>,
    content: Size<S>,
    cache_key: u64,
)
    ensures
        with_scrollbars(
            turned(s),
            turned_direction(direction),
            turned_size(bounds),
            turned_size(content),
        ) == turned(with_scrollbars(s, direction, bounds, content)),
        ({
            let plan = plan_of(s, direction, bounds, content, cache_key);
            plan_of(
                turned(s),
                turned_direction(direction),
                turned_size(bounds),
                turned_size(content),
                cache_key,
            ) == (LayoutPlan {
                viewport: turned_size(plan.viewport),
                visible: turned_area(plan.visible),
                rebuild: plan.rebuild,
            })
        }),
{
    let plan = plan_of(s, direction, bounds, content, cache_key);
    let zero = crate::scalar::zero::<S>();
    let viewport = Rectangle {
        x: zero,
        y: zero,
        width: plan.viewport.width,
        height: plan.viewport.height,
    };
    let all = Rectangle { x: zero, y: zero, width: content.width, height: content.height };
    law_state_can_be_turned(
        s,
        direction,
        s.velocity,
        AbsoluteOffset { x: zero, y: zero },
        viewport,
        all,
        Instant { nanos: 0 },
    );
}

/// An event with the axes swapped of the distances that it carries.
pub open spec fn turned_event<S>(event: Event<S>) -> Event<S> {
    match event {
        Event::Mouse(MouseEvent::WheelScrolled { delta: ScrollDelta::Pixels { x, y }, shift }) => {
            Event::Mouse(
                MouseEvent::WheelScrolled { delta: ScrollDelta::Pixels { x: y, y: x }, shift },
            )
        },
        Event::Mouse(MouseEvent::WheelScrolled { delta: ScrollDelta::Lines { x, y }, shift }) => {
            Event::Mouse(
                MouseEvent::WheelScrolled { delta: ScrollDelta::Lines { x: y, y: x }, shift },
            )
        },
        Event::Mouse(MouseEvent::CursorMoved { position }) => Event::Mouse(
            MouseEvent::CursorMoved { position: turned_point(position) },
        ),
        _ => event,
    }
}

/// Whether one step is another with the axes swapped.
pub open spec fn is_turned<S>(step: Step<S>, other: Step<S>) -> bool {
    &&& step.state == turned(other.state)
    &&& step.effects.len() == other.effects.len()
    &&& step.stop == other.stop
}

/// A motion is counted alike on both axes.
proof fn lemma_aligned<S: Arithmetic>(direction: Direction<S>, delta: Vector<S>)
    ensures
        turned_direction(direction).aligned(turned_vector(delta)) == turned_vector(
            direction.aligned(delta),
        ),
{
}

/// Scrolling by a motion, and reporting it, is alike on both axes.
proof fn lemma_scrolled<S: Arithmetic>(
    s: State<S>,
    direction: Direction<S>,
    delta: Vector<S>,
    bounds: Rectangle<S>,
    content_bounds: Rectangle<S>,
    now: Instant,
)
    ensures
        turned(s).scrolled(
            turned_direction(direction).aligned(turned_vector(delta)),
            turned_area(bounds),
            turned_area(content_bounds),
        ) == turned(s.scrolled(direction.aligned(delta), bounds, content_bounds)),
{
    lemma_aligned(direction, delta);
    law_state_can_be_turned(
        s,
        direction,
        direction.aligned(delta),
        AbsoluteOffset { x: bounds.x, y: bounds.x },
        bounds,
        content_bounds,
        now,
    );
}

/// Reporting is alike on both axes.
proof fn lemma_reported<S: Arithmetic>(
    s: State<S>,
    bounds: Rectangle<S>,
    content_bounds: Rectangle<S>,
    reports: bool,
    now: Instant,
)
    ensures
        turned(s).is_news(turned_area(bounds), turned_area(content_bounds)) == s.is_news(
            bounds,
            content_bounds,
        ),
        turned(s).report(reports, turned_area(bounds), turned_area(content_bounds)).len()
            == s.report(reports, bounds, content_bounds).len(),
        turned(s).reported(turned_area(bounds), turned_area(content_bounds)) == turned(
            s.reported(bounds, content_bounds),
        ),
        turned(s).reported_scroll(turned_area(bounds), turned_area(content_bounds), now) == turned(
            s.reported_scroll(bounds, content_bounds, now),
        ),
{
}

proof fn lemma_wheel<S: Arithmetic>(
    s: State<S>,
    wishes: Wishes<S>,
    scene: Scene<S>,
    delta: ScrollDelta<S>,
    other: ScrollDelta<S>,
    shift: bool,
    now: Instant,
)
    requires
        wheel_motion(other, shift, wishes.swaps_wheel) == turned_vector(
            wheel_motion(delta, shift, wishes.swaps_wheel),
        ),
    ensures
        is_turned(
            wheel_step(turned(s), turned_wishes(wishes), turned_scene(scene), other, shift, now),
            wheel_step(s, wishes, scene, delta, shift, now),
        ),
{
    let motion = wheel_motion(delta, shift, wishes.swaps_wheel);
    let viewport = scene.viewport_bounds;
    let content = scene.content_bounds;
    let moved = s.at_rest().scrolled(wishes.direction.aligned(motion), viewport, content);
    assert(turned(s).at_rest() == turned(s.at_rest()));
    lemma_scrolled(s.at_rest(), wishes.direction, motion, viewport, content, now);
    lemma_reported(moved, viewport, content, wishes.reports, now);
}

proof fn lemma_touch<S: Arithmetic>(
    s: State<S>,
    wishes: Wishes<S>,
    scene: Scene<S>,
    touch: TouchEvent<S>,
    cursor: Cursor<S>,
    now: Instant,
)
    ensures
        is_turned(
            touch_step(
                turned(s),
                turned_wishes(wishes),
                turned_scene(scene),
                touch,
                turned_cursor(cursor),
                now,
            ),
            touch_step(s, wishes, scene, touch, cursor, now),
        ),
{
    let viewport = scene.viewport_bounds;
    let content = scene.content_bounds;
    if touch is FingerMoved {
        if let Interaction::TouchScrolling { last_position, last_time } = s.interaction {
            if let Cursor::Available(p) = cursor {
                let delta = Vector {
                    x: last_position.x.difference(p.x),
                    y: last_position.y.difference(p.y),
                };
                lemma_scrolled(s, wishes.direction, delta, viewport, content, now);
                let moved = finger_dragged(
                    s,
                    wishes.direction,
                    scene,
                    last_position,
                    last_time,
                    p,
                    now,
                );
                let other = finger_dragged(
                    turned(s),
                    turned_direction(wishes.direction),
                    turned_scene(scene),
                    turned_point(last_position),
                    last_time,
                    turned_point(p),
                    now,
                );
                assert(other == turned(moved));
                lemma_reported(moved, viewport, content, wishes.reports, now);
            }
        }
    }
}

proof fn lemma_others<S: Arithmetic>(
    s: State<S>,
    wishes: Wishes<S>,
    scene: Scene<S>,
    position: Point<S>,
    now: Instant,
)
    ensures
        is_turned(
            cursor_step(turned(s), turned_point(position), now),
            cursor_step(s, position, now),
        ),
        is_turned(
            middle_button_step(turned(s), turned_wishes(wishes), turned_scene(scene), now),
            middle_button_step(s, wishes, scene, now),
        ),
        is_turned(
            release_step(turned(s), turned_wishes(wishes), now),
            release_step(s, wishes, now),
        ),
{
    lemma_aligned(wishes.direction, s.velocity);
}

/// The pointer, the wheel and fingers are reacted to alike on both axes. Keys are not: the content
/// is taken to go on downward where it can.
pub proof fn law_reaction_can_be_turned<S: Arithmetic>(
    s: State<S>,
    wishes: Wishes<S>,
    scene: Scene<S>,
    event: Event<S>,
    cursor: Cursor<S>,
    captured: bool,
    now: Instant,
)
    requires
        !(event is Keyboard),
    ensures
        is_turned(
            react_step(
                turned(s),
                turned_wishes(wishes),
                turned_scene(scene),
                turned_event(event),
                turned_cursor(cursor),
                captured,
                now,
            ),
            react_step(s, wishes, scene, event, cursor, captured, now),
        ),
{
    let somewhere = Point { x: scene.bounds.x, y: scene.bounds.y };
    lemma_others(s, wishes, scene, somewhere, now);
    assert(ends_drag(turned_event(event)) == ends_drag(event));
    match event {
        Event::Mouse(MouseEvent::WheelScrolled { delta, shift }) => match delta {
            ScrollDelta::Pixels { x, y } => {
                let other = ScrollDelta::Pixels { x: y, y: x };
                lemma_wheel(s, wishes, scene, delta, other, shift, now);
            },
            ScrollDelta::Lines { x, y } => {
                let other = ScrollDelta::Lines { x: y, y: x };
                lemma_wheel(s, wishes, scene, delta, other, shift, now);
            },
        },
        Event::Mouse(MouseEvent::CursorMoved { position }) => {
            lemma_others(s, wishes, scene, position, now);
        },
        Event::Touch(touch) => {
            lemma_touch(s, wishes, scene, touch, cursor, now);
        },
        _ => {},
    }
}

/// A frame with the axes swapped.
pub open spec fn turned_frame<S>(frame: Frame<S>) -> Frame<S> {
    Frame { pull: turned_vector(frame.pull), ..frame }
}

proof fn lemma_auto_scroll<S: Arithmetic>(
    s: State<S>,
    wishes: Wishes<S>,
    scene: Scene<S>,
    frame: Frame<S>,
)
    ensures
        is_turned(
            auto_scroll_step(
                turned(s),
                turned_wishes(wishes),
                turned_scene(scene),
                turned_frame(frame),
            ),
            auto_scroll_step(s, wishes, scene, frame),
        ),
{
    let viewport = scene.viewport_bounds;
    let content = scene.content_bounds;
    if let Interaction::AutoScrolling { origin, current, last_frame } = s.interaction {
        let waiting = State {
            interaction: Interaction::AutoScrolling { origin, current, last_frame: None },
            ..s
        };
        let delta = crate::scrolling::virtual_scrollable::frame::auto_distance(origin, current);
        let span = match last_frame {
            Some(last) => frame.now.span_since(last),
            None => 0,
        };
        let seconds = S::seconds(span);
        let motion = Vector {
            x: delta.x.sign().product(frame.pull.x).product(seconds),
            y: delta.y.sign().product(frame.pull.y).product(seconds),
        };
        let moved = waiting.scrolled(wishes.direction.aligned(motion), viewport, content);
        lemma_scrolled(waiting, wishes.direction, motion, viewport, content, frame.clock);
        lemma_reported(moved, viewport, content, wishes.reports, frame.clock);
    }
}

proof fn lemma_coast<S: Arithmetic>(
    s: State<S>,
    wishes: Wishes<S>,
    scene: Scene<S>,
    frame: Frame<S>,
)
    ensures
        is_turned(
            coast_step(
                turned(s),
                turned_wishes(wishes),
                turned_scene(scene),
                turned_frame(frame),
            ),
            coast_step(s, wishes, scene, frame),
        ),
{
    let viewport = scene.viewport_bounds;
    let content = scene.content_bounds;
    let moved = s.coasted(frame.now, frame.decay, viewport, content);
    law_motion_can_be_turned(s, frame.now, frame.decay, false, frame.decay, viewport, content);
    lemma_reported(moved, viewport, content, wishes.reports, frame.clock);
}

proof fn lemma_animate<S: Arithmetic>(
    s: State<S>,
    wishes: Wishes<S>,
    scene: Scene<S>,
    frame: Frame<S>,
)
    ensures
        is_turned(
            animate_step(
                turned(s),
                turned_wishes(wishes),
                turned_scene(scene),
                turned_frame(frame),
            ),
            animate_step(s, wishes, scene, frame),
        ),
{
    let viewport = scene.viewport_bounds;
    let content = scene.content_bounds;
    let running = frame.motion.scroll_running;
    let progress = frame.motion.scroll_progress;
    let moved = s.animated(running, progress, viewport, content);
    law_motion_can_be_turned(s, frame.now, frame.decay, running, progress, viewport, content);
    lemma_reported(moved, viewport, content, wishes.reports, frame.clock);
}

/// What moves by itself moves on alike on both axes.
pub proof fn law_frame_can_be_turned<S: Arithmetic>(
    s: State<S>,
    wishes: Wishes<S>,
    scene: Scene<S>,
    frame: Frame<S>,
)
    ensures
        is_turned(
            frame_step(
                turned(s),
                turned_wishes(wishes),
                turned_scene(scene),
                turned_frame(frame),
            ),
            frame_step(s, wishes, scene, frame),
        ),
{
    let first = auto_scroll_step(s, wishes, scene, frame).state;
    let second = coast_step(first, wishes, scene, frame).state;
    let third = animate_step(second, wishes, scene, frame).state;
    lemma_auto_scroll(s, wishes, scene, frame);
    lemma_coast(first, wishes, scene, frame);
    lemma_animate(second, wishes, scene, frame);
    lemma_reported(
        third,
        scene.viewport_bounds,
        scene.content_bounds,
        wishes.reports,
        frame.clock,
    );
}

proof fn lemma_dragged<S: Arithmetic>(
    s: State<S>,
    share: S,
    bounds: Rectangle<S>,
    content_bounds: Rectangle<S>,
)
    ensures
        turned(s).dragged_y(share, turned_area(bounds), turned_area(content_bounds)) == turned(
            s.dragged_x(share, bounds, content_bounds),
        ),
{
}

/// Both scrollers are dragged alike.
pub proof fn law_dragging_can_be_turned<S: Arithmetic>(
    s: State<S>,
    reports: bool,
    scene: Scene<S>,
    event: Event<S>,
    cursor: Cursor<S>,
    now: Instant,
)
    ensures
        drag_y_step(
            turned(s),
            reports,
            turned_scene(scene),
            turned_event(event),
            turned_cursor(cursor),
            now,
        ).state == turned(drag_x_step(s, reports, scene, event, cursor, now).state),
        scene.scrollbars.x is Some && (s.interaction is XScrollerGrabbed
            || scene.scrollbars.grabbed_x(cursor.spot_or_origin()) is Some) ==> is_turned(
            drag_y_step(
                turned(s),
                reports,
                turned_scene(scene),
                turned_event(event),
                turned_cursor(cursor),
                now,
            ),
            drag_x_step(s, reports, scene, event, cursor, now),
        ),
{
    let bars = scene.scrollbars;
    let content = scene.content_bounds;
    match cursor {
        Cursor::Available(p) | Cursor::Levitating(p) => {
            match s.interaction {
                Interaction::XScrollerGrabbed(at) => {
                    law_grabbing_can_be_turned(bars, cursor, p, at);
                    if let Some(bar) = bars.x {
                        let share = bar.share_x(at, p);
                        lemma_dragged(s, share, scene.viewport_bounds, content);
                        let moved = s.dragged_x(share, scene.viewport_bounds, content);
                        lemma_reported(moved, scene.bounds, content, reports, now);
                    }
                },
                _ => {
                    law_grabbing_can_be_turned(bars, cursor, p, p.x);
                    if let Some(at) = bars.grabbed_x(p) {
                        law_grabbing_can_be_turned(bars, cursor, p, at);
                        let share = bars.x->0.share_x(at, p);
                        lemma_dragged(s, share, scene.bounds, content);
                        let moved = State {
                            interaction: Interaction::XScrollerGrabbed(at),
                            ..s.dragged_x(share, scene.bounds, content)
                        };
                        lemma_reported(moved, scene.bounds, content, reports, now);
                    }
                },
            }
        },
        Cursor::Unavailable => {},
    }
}

} // verus!
