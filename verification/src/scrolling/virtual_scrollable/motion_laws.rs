//! What moves the content, in exact arithmetic: by how much, along which axis, and which way.
use vstd::prelude::*;

use crate::event::{Event, Key, KeyboardEvent, MouseEvent, Named, ScrollDelta, TouchEvent};
use crate::geometry::{Cursor, Point, Rectangle, Vector};
use crate::scalar::exact::{exact, lemma_fractions, Exact};
use crate::scalar::Arithmetic;
use crate::scrolling::scrollable::{AbsoluteOffset, Anchor, Direction};
use crate::scrolling::virtual_scrollable::frame::{beyond_dead_zone, frame_step, Frame};
use crate::scrolling::virtual_scrollable::offset::Offset;
use crate::scrolling::virtual_scrollable::react::{react_step, wheel_motion};
use crate::scrolling::virtual_scrollable::scene::Scene;
use crate::scrolling::virtual_scrollable::state::{Interaction, State};
use crate::scrolling::virtual_scrollable::update::Wishes;
use crate::scrolling::virtual_scrollable::{anchored_x, anchored_y};
use crate::time::Instant;

verus! {

/// The end from which the horizontal offset counts, where content scrolls sideways.
pub open spec fn anchor_x<S>(direction: Direction<S>) -> Option<Anchor> {
    match direction {
        Direction::Vertical(_) => None,
        Direction::Horizontal(bar) => Some(bar.alignment),
        Direction::Both { horizontal, .. } => Some(horizontal.alignment),
    }
}

/// The end from which the vertical offset counts, where content scrolls up and down.
pub open spec fn anchor_y<S>(direction: Direction<S>) -> Option<Anchor> {
    match direction {
        Direction::Vertical(bar) => Some(bar.alignment),
        Direction::Horizontal(_) => None,
        Direction::Both { vertical, .. } => Some(vertical.alignment),
    }
}

/// Whether an offset stands for a distance, where some distance can be scrolled.
pub open spec fn stands_at(offset: Offset<Exact>, room: real, distance: real) -> bool {
    &&& 0real <= distance <= room
    &&& match offset {
        Offset::Absolute(absolute) => absolute.value == distance,
        Offset::Relative(share) => share.value * room == distance,
    }
}

/// Whether an offset goes from a distance by as much as it is told, until it comes to an end of
/// the content. An offset that counts from the end goes the other way.
pub open spec fn goes(
    distance: real,
    by: real,
    anchor: Option<Anchor>,
    room: real,
    after: Offset<Exact>,
) -> bool {
    let there = if anchor == Some(Anchor::End) {
        distance - by
    } else {
        distance + by
    };
    &&& after is Absolute
    &&& 0real <= there <= room ==> after->Absolute_0.value == there
    &&& there < 0real ==> after->Absolute_0.value == 0real
    &&& there > room ==> after->Absolute_0.value == room
}

/// Moving an offset takes it from where it stands to where it has to go.
proof fn lemma_goes(
    offset: Offset<Exact>,
    distance: real,
    by: real,
    anchor: Option<Anchor>,
    viewport: Exact,
    content: Exact,
)
    requires
        viewport.value < content.value,
        stands_at(offset, content.value - viewport.value, distance),
    ensures
        goes(
            distance,
            by,
            anchor,
            content.value - viewport.value,
            offset.moved(
                exact(
                    if anchor == Some(Anchor::End) {
                        -by
                    } else {
                        by
                    },
                ),
                viewport,
                content,
            ),
        ),
{
    lemma_fractions();
    if let Offset::Relative(share) = offset {
        let room = content.value - viewport.value;
        let p = share.value;
        assert(room * p == p * room) by (nonlinear_arith);
    }
}

/// A whole number of sixties is sixty times the number.
proof fn lemma_lines(lines: real)
    ensures
        exact(lines).opposite().product(Exact::fraction(60, 1)) == exact(-(60real * lines)),
{
    assert(60real / 1real == 60real) by (nonlinear_arith);
    assert(-lines * 60real == -(60real * lines)) by (nonlinear_arith);
}

/// Content is shifted sideways by its horizontal offset, in whole pixels: from the start if the
/// offset counts from there, by what is left of the way if it counts from the end, and not at
/// all if it does not scroll sideways.
pub proof fn law_content_is_shifted_sideways(
    s: State<Exact>,
    direction: Direction<Exact>,
    bounds: Rectangle<Exact>,
    content_bounds: Rectangle<Exact>,
    distance: real,
)
    requires
        stands_at(s.offset_x, content_bounds.width.value - bounds.width.value, distance),
    ensures
        s.shifted(direction, bounds, content_bounds).x == (match anchor_x(direction) {
            Some(Anchor::Start) => exact(distance).rounded(),
            Some(Anchor::End) => exact(
                content_bounds.width.value - bounds.width.value - distance,
            ).rounded(),
            None => exact(0real),
        }),
{
    lemma_fractions();
    if let Offset::Relative(share) = s.offset_x {
        let room = content_bounds.width.value - bounds.width.value;
        let p = share.value;
        assert(room * p == p * room) by (nonlinear_arith);
    }
}

/// Content is shifted up by its vertical offset, in whole pixels: from the start if the offset
/// counts from there, by what is left of the way if it counts from the end, and not at all if it
/// does not scroll up and down.
pub proof fn law_content_is_shifted_up(
    s: State<Exact>,
    direction: Direction<Exact>,
    bounds: Rectangle<Exact>,
    content_bounds: Rectangle<Exact>,
    distance: real,
)
    requires
        stands_at(s.offset_y, content_bounds.height.value - bounds.height.value, distance),
    ensures
        s.shifted(direction, bounds, content_bounds).y == (match anchor_y(direction) {
            Some(Anchor::Start) => exact(distance).rounded(),
            Some(Anchor::End) => exact(
                content_bounds.height.value - bounds.height.value - distance,
            ).rounded(),
            None => exact(0real),
        }),
{
    lemma_fractions();
    if let Offset::Relative(share) = s.offset_y {
        let room = content_bounds.height.value - bounds.height.value;
        let p = share.value;
        assert(room * p == p * room) by (nonlinear_arith);
    }
}

/// How far content is shifted along one axis depends on nothing that belongs to the other one.
pub proof fn law_axes_are_shifted_apart<S: Arithmetic>(
    s: State<S>,
    t: State<S>,
    direction: Direction<S>,
    bounds: Rectangle<S>,
    content_bounds: Rectangle<S>,
    other_bounds: Rectangle<S>,
    other_content: Rectangle<S>,
)
    ensures
        s.offset_x == t.offset_x && bounds.width == other_bounds.width && content_bounds.width
            == other_content.width ==> s.shifted(direction, bounds, content_bounds).x == t.shifted(
            direction,
            other_bounds,
            other_content,
        ).x,
        s.offset_y == t.offset_y && bounds.height == other_bounds.height && content_bounds.height
            == other_content.height ==> s.shifted(direction, bounds, content_bounds).y == t.shifted(
            direction,
            other_bounds,
            other_content,
        ).y,
{
}

/// Content that fits is not shifted.
pub proof fn law_fitting_content_is_not_shifted(
    s: State<Exact>,
    direction: Direction<Exact>,
    bounds: Rectangle<Exact>,
    content_bounds: Rectangle<Exact>,
)
    requires
        match s.offset_x {
            Offset::Absolute(d) => 0real <= d.value,
            Offset::Relative(share) => 0real <= share.value,
        },
        match s.offset_y {
            Offset::Absolute(d) => 0real <= d.value,
            Offset::Relative(share) => 0real <= share.value,
        },
    ensures
        content_bounds.width.value <= bounds.width.value ==> s.shifted(
            direction,
            bounds,
            content_bounds,
        ).x == exact(0real),
        content_bounds.height.value <= bounds.height.value ==> s.shifted(
            direction,
            bounds,
            content_bounds,
        ).y == exact(0real),
{
    lemma_fractions();
    let half = 1real / 2real;
    assert(half + 0real == 1real / 2real);
    assert((1real / 2real).floor() == 0);
    if let Offset::Relative(share) = s.offset_x {
        let room = content_bounds.width.value - bounds.width.value;
        let p = share.value;
        assert(room <= 0real ==> room * p <= 0real) by (nonlinear_arith)
            requires
                0real <= p,
        ;
    }
    if let Offset::Relative(share) = s.offset_y {
        let room = content_bounds.height.value - bounds.height.value;
        let p = share.value;
        assert(room <= 0real ==> room * p <= 0real) by (nonlinear_arith)
            requires
                0real <= p,
        ;
    }
}

/// The event of a wheel.
pub open spec fn wheel<S>(delta: ScrollDelta<S>, shift: bool) -> Event<S> {
    Event::Mouse(MouseEvent::WheelScrolled { delta, shift })
}

/// Turning a wheel by some pixels takes the content back by as many pixels along each axis, and
/// no further than to its ends.
pub proof fn law_wheel_scrolls_pixels(
    s: State<Exact>,
    wishes: Wishes<Exact>,
    scene: Scene<Exact>,
    delta: Vector<Exact>,
    shift: bool,
    cursor: Cursor<Exact>,
    now: Instant,
    x: real,
    y: real,
)
    requires
        scene.over is Some,
    ensures
        ({
            let event = wheel(ScrollDelta::Pixels { x: delta.x, y: delta.y }, shift);
            let after = react_step(s, wishes, scene, event, cursor, false, now).state;
            let room_x = scene.content_bounds.width.value - scene.viewport_bounds.width.value;
            let room_y = scene.content_bounds.height.value - scene.viewport_bounds.height.value;
            &&& room_x <= 0real ==> after.offset_x == s.offset_x
            &&& room_y <= 0real ==> after.offset_y == s.offset_y
            &&& room_x > 0real && stands_at(s.offset_x, room_x, x) ==> goes(
                x,
                -delta.x.value,
                anchor_x(wishes.direction),
                room_x,
                after.offset_x,
            )
            &&& room_y > 0real && stands_at(s.offset_y, room_y, y) ==> goes(
                y,
                -delta.y.value,
                anchor_y(wishes.direction),
                room_y,
                after.offset_y,
            )
        }),
{
    let viewport = scene.viewport_bounds;
    let content = scene.content_bounds;
    let room_x = content.width.value - viewport.width.value;
    let room_y = content.height.value - viewport.height.value;
    if room_x > 0real && stands_at(s.offset_x, room_x, x) {
        let anchor = anchor_x(wishes.direction);
        lemma_goes(s.offset_x, x, -delta.x.value, anchor, viewport.width, content.width);
    }
    if room_y > 0real && stands_at(s.offset_y, room_y, y) {
        let anchor = anchor_y(wishes.direction);
        lemma_goes(s.offset_y, y, -delta.y.value, anchor, viewport.height, content.height);
    }
}

/// Turning a wheel by some lines takes the content back by sixty pixels for each line along each
/// axis. With shift, lines along one axis scroll the other one, unless the platform has turned
/// them already.
pub proof fn law_wheel_scrolls_lines(
    s: State<Exact>,
    wishes: Wishes<Exact>,
    scene: Scene<Exact>,
    delta: Vector<Exact>,
    shift: bool,
    cursor: Cursor<Exact>,
    now: Instant,
    x: real,
    y: real,
)
    requires
        scene.over is Some,
    ensures
        ({
            let event = wheel(ScrollDelta::Lines { x: delta.x, y: delta.y }, shift);
            let after = react_step(s, wishes, scene, event, cursor, false, now).state;
            let room_x = scene.content_bounds.width.value - scene.viewport_bounds.width.value;
            let room_y = scene.content_bounds.height.value - scene.viewport_bounds.height.value;
            let turned = shift && !wishes.swaps_wheel;
            let lines_x = if turned {
                delta.y.value
            } else {
                delta.x.value
            };
            let lines_y = if turned {
                delta.x.value
            } else {
                delta.y.value
            };
            &&& room_x <= 0real ==> after.offset_x == s.offset_x
            &&& room_y <= 0real ==> after.offset_y == s.offset_y
            &&& room_x > 0real && stands_at(s.offset_x, room_x, x) ==> goes(
                x,
                -(60real * lines_x),
                anchor_x(wishes.direction),
                room_x,
                after.offset_x,
            )
            &&& room_y > 0real && stands_at(s.offset_y, room_y, y) ==> goes(
                y,
                -(60real * lines_y),
                anchor_y(wishes.direction),
                room_y,
                after.offset_y,
            )
        }),
{
    let viewport = scene.viewport_bounds;
    let content = scene.content_bounds;
    let room_x = content.width.value - viewport.width.value;
    let room_y = content.height.value - viewport.height.value;
    let turned = shift && !wishes.swaps_wheel;
    let lines_x = if turned {
        delta.y.value
    } else {
        delta.x.value
    };
    let lines_y = if turned {
        delta.x.value
    } else {
        delta.y.value
    };
    lemma_lines(lines_x);
    lemma_lines(lines_y);
    if room_x > 0real && stands_at(s.offset_x, room_x, x) {
        let anchor = anchor_x(wishes.direction);
        lemma_goes(s.offset_x, x, -(60real * lines_x), anchor, viewport.width, content.width);
    }
    if room_y > 0real && stands_at(s.offset_y, room_y, y) {
        let anchor = anchor_y(wishes.direction);
        lemma_goes(s.offset_y, y, -(60real * lines_y), anchor, viewport.height, content.height);
    }
}

/// A wheel knows no difference between the axes: swapping those of its delta swaps those of the
/// motion.
pub proof fn law_wheel_axes_are_alike<S: Arithmetic>(x: S, y: S, shift: bool, swaps: bool)
    ensures
        ({
            let lines = wheel_motion(ScrollDelta::Lines { x, y }, shift, swaps);
            let swapped_lines = wheel_motion(ScrollDelta::Lines { x: y, y: x }, shift, swaps);
            let pixels = wheel_motion(ScrollDelta::Pixels { x, y }, shift, swaps);
            let swapped_pixels = wheel_motion(ScrollDelta::Pixels { x: y, y: x }, shift, swaps);
            &&& lines.x == swapped_lines.y && lines.y == swapped_lines.x
            &&& pixels.x == swapped_pixels.y && pixels.y == swapped_pixels.x
        }),
{
}

/// A wheel moves nothing while the cursor is elsewhere, or where the content has taken the event.
pub proof fn law_wheel_elsewhere<S: Arithmetic>(
    s: State<S>,
    wishes: Wishes<S>,
    scene: Scene<S>,
    delta: ScrollDelta<S>,
    shift: bool,
    cursor: Cursor<S>,
    captured: bool,
    now: Instant,
)
    requires
        scene.over is None || captured,
    ensures
        react_step(s, wishes, scene, wheel(delta, shift), cursor, captured, now).state == s,
        react_step(s, wishes, scene, wheel(delta, shift), cursor, captured, now).effects.len() == 0,
{
}

/// A finger that drags the content takes it along: along each axis the content goes as far as the
/// finger does, and the other way where offsets count from the end. From then on the drag counts
/// from where the finger is.
pub proof fn law_finger_takes_content_along(
    s: State<Exact>,
    wishes: Wishes<Exact>,
    scene: Scene<Exact>,
    touch: TouchEvent<Exact>,
    from: Point<Exact>,
    since: Instant,
    to: Point<Exact>,
    now: Instant,
    x: real,
    y: real,
)
    requires
        touch is FingerMoved,
        s.interaction == (Interaction::TouchScrolling { last_position: from, last_time: since }),
    ensures
        ({
            let cursor = Cursor::Available(to);
            let step = react_step(s, wishes, scene, Event::Touch(touch), cursor, false, now);
            let after = step.state;
            let room_x = scene.content_bounds.width.value - scene.viewport_bounds.width.value;
            let room_y = scene.content_bounds.height.value - scene.viewport_bounds.height.value;
            &&& after.interaction == (Interaction::TouchScrolling {
                last_position: to,
                last_time: now,
            })
            &&& room_x <= 0real ==> after.offset_x == s.offset_x
            &&& room_y <= 0real ==> after.offset_y == s.offset_y
            &&& room_x > 0real && stands_at(s.offset_x, room_x, x) ==> goes(
                x,
                from.x.value - to.x.value,
                anchor_x(wishes.direction),
                room_x,
                after.offset_x,
            )
            &&& room_y > 0real && stands_at(s.offset_y, room_y, y) ==> goes(
                y,
                from.y.value - to.y.value,
                anchor_y(wishes.direction),
                room_y,
                after.offset_y,
            )
        }),
{
    let viewport = scene.viewport_bounds;
    let content = scene.content_bounds;
    let room_x = content.width.value - viewport.width.value;
    let room_y = content.height.value - viewport.height.value;
    if room_x > 0real && stands_at(s.offset_x, room_x, x) {
        let anchor = anchor_x(wishes.direction);
        let by = from.x.value - to.x.value;
        lemma_goes(s.offset_x, x, by, anchor, viewport.width, content.width);
    }
    if room_y > 0real && stands_at(s.offset_y, room_y, y) {
        let anchor = anchor_y(wishes.direction);
        let by = from.y.value - to.y.value;
        lemma_goes(s.offset_y, y, by, anchor, viewport.height, content.height);
    }
}

/// The press of a named key.
pub open spec fn press<S>(named: Named, shift: bool) -> Event<S> {
    Event::Keyboard(KeyboardEvent::KeyPressed { key: Key::Named(named), shift })
}

/// Whether a state scrolls with an animation that has just begun, from where the content is.
pub open spec fn sets_out(
    s: State<Exact>,
    after: State<Exact>,
    now: Instant,
    x: real,
    y: real,
) -> bool {
    &&& after.offset_x == s.offset_x
    &&& after.offset_y == s.offset_y
    &&& after.scroll_to_animation == Some(now)
    &&& after.scroll_to_start == Some(AbsoluteOffset { x: exact(x), y: exact(y) })
    &&& after.scroll_to_target is Some
    &&& after.velocity == (Vector { x: exact(0real), y: exact(0real) })
}

/// The page keys scroll by a page: to the right or left where the content does not scroll up and
/// down, or where shift is held and it scrolls sideways, and else up or down. The other axis stays
/// where it is, and no page goes past an end.
pub proof fn law_page_keys_scroll_by_pages(
    s: State<Exact>,
    wishes: Wishes<Exact>,
    scene: Scene<Exact>,
    back: bool,
    shift: bool,
    cursor: Cursor<Exact>,
    now: Instant,
    x: real,
    y: real,
)
    requires
        scene.over is Some,
        stands_at(
            s.offset_x,
            scene.content_bounds.width.value - scene.viewport_bounds.width.value,
            x,
        ),
        stands_at(
            s.offset_y,
            scene.content_bounds.height.value - scene.viewport_bounds.height.value,
            y,
        ),
    ensures
        ({
            let named = if back {
                Named::PageUp
            } else {
                Named::PageDown
            };
            let after = react_step(s, wishes, scene, press(named, shift), cursor, false, now).state;
            let room_x = scene.content_bounds.width.value - scene.viewport_bounds.width.value;
            let room_y = scene.content_bounds.height.value - scene.viewport_bounds.height.value;
            let sideways = match wishes.direction {
                Direction::Vertical(_) => false,
                Direction::Horizontal(_) => true,
                Direction::Both { .. } => shift,
            };
            let page = if sideways {
                scene.viewport_bounds.width.value
            } else {
                scene.viewport_bounds.height.value
            };
            let by = if back {
                -page
            } else {
                page
            };
            let target = after.scroll_to_target->0;
            &&& sets_out(s, after, now, x, y)
            &&& sideways ==> target.y.value == y && goes(
                x,
                by,
                None,
                room_x,
                Offset::Absolute(target.x),
            )
            &&& !sideways ==> target.x.value == x && goes(
                y,
                by,
                None,
                room_y,
                Offset::Absolute(target.y),
            )
        }),
{
    lemma_fractions();
    lemma_distances(s, scene, x, y);
}

/// What an offset stands for is a distance.
proof fn lemma_distances(s: State<Exact>, scene: Scene<Exact>, x: real, y: real)
    requires
        stands_at(
            s.offset_x,
            scene.content_bounds.width.value - scene.viewport_bounds.width.value,
            x,
        ),
        stands_at(
            s.offset_y,
            scene.content_bounds.height.value - scene.viewport_bounds.height.value,
            y,
        ),
    ensures
        s.distances(scene.viewport_bounds, scene.content_bounds) == (AbsoluteOffset {
            x: exact(x),
            y: exact(y),
        }),
{
    lemma_fractions();
    let room_x = scene.content_bounds.width.value - scene.viewport_bounds.width.value;
    let room_y = scene.content_bounds.height.value - scene.viewport_bounds.height.value;
    if let Offset::Relative(share) = s.offset_x {
        let p = share.value;
        assert(room_x * p == p * room_x) by (nonlinear_arith);
    }
    if let Offset::Relative(share) = s.offset_y {
        let p = share.value;
        assert(room_y * p == p * room_y) by (nonlinear_arith);
    }
}

/// Home scrolls to the top and End to the bottom, where content scrolls up and down. With shift
/// they also scroll to the left and to the right end, where it scrolls sideways.
pub proof fn law_home_and_end_scroll_to_the_ends(
    s: State<Exact>,
    wishes: Wishes<Exact>,
    scene: Scene<Exact>,
    shift: bool,
    cursor: Cursor<Exact>,
    now: Instant,
    x: real,
    y: real,
)
    requires
        scene.over is Some,
        stands_at(
            s.offset_x,
            scene.content_bounds.width.value - scene.viewport_bounds.width.value,
            x,
        ),
        stands_at(
            s.offset_y,
            scene.content_bounds.height.value - scene.viewport_bounds.height.value,
            y,
        ),
    ensures
        ({
            let home = react_step(
                s,
                wishes,
                scene,
                press(Named::Home, shift),
                cursor,
                false,
                now,
            ).state;
            let end = react_step(
                s,
                wishes,
                scene,
                press(Named::End, shift),
                cursor,
                false,
                now,
            ).state;
            let room_x = scene.content_bounds.width.value - scene.viewport_bounds.width.value;
            let room_y = scene.content_bounds.height.value - scene.viewport_bounds.height.value;
            let takes_x = shift && !(wishes.direction is Vertical);
            let takes_y = !(wishes.direction is Horizontal);
            &&& sets_out(s, home, now, x, y)
            &&& sets_out(s, end, now, x, y)
            &&& home.scroll_to_target->0.x.value == (if takes_x {
                0real
            } else {
                x
            })
            &&& home.scroll_to_target->0.y.value == (if takes_y {
                0real
            } else {
                y
            })
            &&& end.scroll_to_target->0.x.value == (if takes_x {
                room_x
            } else {
                x
            })
            &&& end.scroll_to_target->0.y.value == (if takes_y {
                room_y
            } else {
                y
            })
        }),
{
    lemma_fractions();
    lemma_distances(s, scene, x, y);
}

/// Any other key leaves the content where it is.
pub proof fn law_other_keys_do_not_scroll<S: Arithmetic>(
    s: State<S>,
    wishes: Wishes<S>,
    scene: Scene<S>,
    key: Key,
    shift: bool,
    cursor: Cursor<S>,
    now: Instant,
)
    requires
        key matches Key::Named(named) ==> named != Named::PageUp && named != Named::PageDown
            && named != Named::Home && named != Named::End,
    ensures
        ({
            let event = Event::Keyboard(KeyboardEvent::KeyPressed { key, shift });
            let step = react_step(s, wishes, scene, event, cursor, false, now);
            step.state == s && step.effects.len() == 0
        }),
{
}

/// How far an eased number is along its way.
proof fn lemma_eased(start: real, target: real, progress: real)
    requires
        0real <= progress <= 1real,
    ensures
        ({
            let rest = 1real - progress;
            let there = start + (target - start) * (1real - rest * rest * rest);
            &&& target - there == (target - start) * (rest * rest * rest)
            &&& start <= target ==> start <= there <= target
            &&& target <= start ==> target <= there <= start
        }),
{
    let rest = 1real - progress;
    let cube = rest * rest * rest;
    assert(0real <= cube <= 1real) by (nonlinear_arith)
        requires
            0real <= rest <= 1real,
            cube == rest * rest * rest,
    ;
    let way = target - start;
    assert(way * (1real - cube) == way - way * cube) by (nonlinear_arith);
    assert(way >= 0real ==> 0real <= way * cube <= way) by (nonlinear_arith)
        requires
            0real <= cube <= 1real,
    ;
    assert(way <= 0real ==> way <= way * cube <= 0real) by (nonlinear_arith)
        requires
            0real <= cube <= 1real,
    ;
}

/// An animated scroll slows down toward its end: what is left of the way, along each axis, is the
/// cube of the time that is left. So it starts where it started, and ends where it ends.
pub proof fn law_animated_scroll_slows_down(
    s: State<Exact>,
    progress: Exact,
    bounds: Rectangle<Exact>,
    content_bounds: Rectangle<Exact>,
)
    requires
        s.scroll_to_start is Some,
        s.scroll_to_target is Some,
        s.scroll_to_animation is Some,
        0real <= progress.value <= 1real,
        0real <= s.scroll_to_start->0.x.value <= content_bounds.width.value - bounds.width.value,
        0real <= s.scroll_to_target->0.x.value <= content_bounds.width.value - bounds.width.value,
        0real <= s.scroll_to_start->0.y.value <= content_bounds.height.value - bounds.height.value,
        0real <= s.scroll_to_target->0.y.value <= content_bounds.height.value
            - bounds.height.value,
    ensures
        ({
            let after = s.animated(true, progress, bounds, content_bounds);
            let start = s.scroll_to_start->0;
            let target = s.scroll_to_target->0;
            let left = 1real - progress.value;
            &&& after.offset_x is Absolute && after.offset_y is Absolute
            &&& target.x.value - after.offset_x->Absolute_0.value == (target.x.value
                - start.x.value) * (left * left * left)
            &&& target.y.value - after.offset_y->Absolute_0.value == (target.y.value
                - start.y.value) * (left * left * left)
            &&& after.scroll_to_start == s.scroll_to_start
            &&& after.scroll_to_target == s.scroll_to_target
        }),
{
    lemma_fractions();
    let start = s.scroll_to_start->0;
    let target = s.scroll_to_target->0;
    lemma_eased(start.x.value, target.x.value, progress.value);
    lemma_eased(start.y.value, target.y.value, progress.value);
}

/// Content that moves on its own goes, along each axis, as far as its speed takes it in the time
/// since it last moved; before its first move that counts as sixteen milliseconds. Friction then
/// takes its share of the speed, and an end of the content all of it.
pub proof fn law_content_coasts_with_its_speed(
    s: State<Exact>,
    wishes: Wishes<Exact>,
    scene: Scene<Exact>,
    frame: Frame<Exact>,
    x: real,
    y: real,
)
    requires
        !(s.interaction is AutoScrolling),
        s.scroll_to_animation is None,
        s.velocity.x.value > 1real || s.velocity.x.value < -1real || s.velocity.y.value > 1real
            || s.velocity.y.value < -1real,
    ensures
        ({
            let after = frame_step(s, wishes, scene, frame).state;
            let time = match s.last_kinetic_update {
                Some(last) => (if frame.now.nanos >= last.nanos {
                    frame.now.nanos - last.nanos
                } else {
                    0
                }) as real / 1_000_000_000real,
                None => 16real / 1000real,
            };
            let room_x = scene.content_bounds.width.value - scene.viewport_bounds.width.value;
            let room_y = scene.content_bounds.height.value - scene.viewport_bounds.height.value;
            &&& after.last_kinetic_update == Some(frame.now)
            &&& room_x <= 0real ==> after.offset_x == s.offset_x && after.velocity.x.value == 0real
            &&& room_y <= 0real ==> after.offset_y == s.offset_y && after.velocity.y.value == 0real
            &&& room_x > 0real && stands_at(s.offset_x, room_x, x) ==> goes(
                x,
                s.velocity.x.value * time,
                None,
                room_x,
                after.offset_x,
            )
            &&& room_y > 0real && stands_at(s.offset_y, room_y, y) ==> goes(
                y,
                s.velocity.y.value * time,
                None,
                room_y,
                after.offset_y,
            )
            &&& after.offset_x != s.offset_x ==> after.velocity.x.value == s.velocity.x.value
                * frame.decay.value
            &&& after.offset_y != s.offset_y ==> after.velocity.y.value == s.velocity.y.value
                * frame.decay.value
            &&& after.offset_x == s.offset_x ==> after.velocity.x.value == 0real
            &&& after.offset_y == s.offset_y ==> after.velocity.y.value == 0real
        }),
{
    lemma_fractions();
    let viewport = scene.viewport_bounds;
    let content = scene.content_bounds;
    let room_x = content.width.value - viewport.width.value;
    let room_y = content.height.value - viewport.height.value;
    let time = s.coasting_time(frame.now).value;
    if room_x > 0real && stands_at(s.offset_x, room_x, x) {
        let by = s.velocity.x.value * time;
        lemma_goes(s.offset_x, x, by, None, viewport.width, content.width);
    }
    if room_y > 0real && stands_at(s.offset_y, room_y, y) {
        let by = s.velocity.y.value * time;
        lemma_goes(s.offset_y, y, by, None, viewport.height, content.height);
    }
}

/// How far content scrolls along an axis in a frame while it scrolls away from the cursor: not at
/// all while the cursor is less than twenty pixels from where it started, and else toward the
/// cursor.
pub open spec fn pulled(from: real, to: real, pull: real, time: real) -> real {
    if -20real < to - from < 20real {
        0real
    } else if to > from {
        pull * time
    } else {
        -(pull * time)
    }
}

/// Content that scrolls on its own follows the cursor: along each axis toward the side on which
/// the cursor is of where it started, and not along an axis on which the cursor is close to that
/// and does not pull.
pub proof fn law_auto_scroll_follows_the_cursor(
    s: State<Exact>,
    wishes: Wishes<Exact>,
    scene: Scene<Exact>,
    frame: Frame<Exact>,
    origin: Point<Exact>,
    current: Point<Exact>,
    last: Instant,
    x: real,
    y: real,
)
    requires
        s.interaction == (Interaction::AutoScrolling { origin, current, last_frame: Some(last) }),
        s.velocity.x.value == 0real,
        s.velocity.y.value == 0real,
        s.scroll_to_animation is None,
        last.nanos < frame.now.nanos,
        -20real < current.x.value - origin.x.value < 20real ==> frame.pull.x.value == 0real,
        -20real < current.y.value - origin.y.value < 20real ==> frame.pull.y.value == 0real,
    ensures
        ({
            let after = frame_step(s, wishes, scene, frame).state;
            let time = (frame.now.nanos - last.nanos) as real / 1_000_000_000real;
            let room_x = scene.content_bounds.width.value - scene.viewport_bounds.width.value;
            let room_y = scene.content_bounds.height.value - scene.viewport_bounds.height.value;
            let near_x = -20real < current.x.value - origin.x.value < 20real;
            let near_y = -20real < current.y.value - origin.y.value < 20real;
            &&& near_x && near_y ==> after.offset_x == s.offset_x && after.offset_y == s.offset_y
            &&& room_x <= 0real ==> after.offset_x == s.offset_x
            &&& room_y <= 0real ==> after.offset_y == s.offset_y
            &&& !(near_x && near_y) && room_x > 0real && stands_at(s.offset_x, room_x, x) ==> goes(
                x,
                pulled(origin.x.value, current.x.value, frame.pull.x.value, time),
                anchor_x(wishes.direction),
                room_x,
                after.offset_x,
            )
            &&& !(near_x && near_y) && room_y > 0real && stands_at(s.offset_y, room_y, y) ==> goes(
                y,
                pulled(origin.y.value, current.y.value, frame.pull.y.value, time),
                anchor_y(wishes.direction),
                room_y,
                after.offset_y,
            )
        }),
{
    lemma_fractions();
    let viewport = scene.viewport_bounds;
    let content = scene.content_bounds;
    let room_x = content.width.value - viewport.width.value;
    let room_y = content.height.value - viewport.height.value;
    let time = (frame.now.nanos - last.nanos) as real / 1_000_000_000real;
    lemma_pulled(origin.x.value, current.x.value, frame.pull.x.value, time);
    lemma_pulled(origin.y.value, current.y.value, frame.pull.y.value, time);
    if room_x > 0real && stands_at(s.offset_x, room_x, x) {
        let by = pulled(origin.x.value, current.x.value, frame.pull.x.value, time);
        let anchor = anchor_x(wishes.direction);
        lemma_goes(s.offset_x, x, by, anchor, viewport.width, content.width);
    }
    if room_y > 0real && stands_at(s.offset_y, room_y, y) {
        let by = pulled(origin.y.value, current.y.value, frame.pull.y.value, time);
        let anchor = anchor_y(wishes.direction);
        lemma_goes(s.offset_y, y, by, anchor, viewport.height, content.height);
    }
}

/// The motion of one frame along one axis.
proof fn lemma_pulled(from: real, to: real, pull: real, time: real)
    requires
        -20real < to - from < 20real ==> pull == 0real,
    ensures
        beyond_dead_zone(exact(to - from)).sign().product(exact(pull)).product(exact(time)).value
            == pulled(from, to, pull, time),
        beyond_dead_zone(exact(to - from)).same(exact(0real)) <==> -20real < to - from < 20real,
{
    lemma_fractions();
    assert(20real / 1real == 20real) by (nonlinear_arith);
    assert(1real * pull * time == pull * time) by (nonlinear_arith);
    assert(0real * time == 0real) by (nonlinear_arith);
    assert(-(1real) * pull * time == -(pull * time)) by (nonlinear_arith);
}

/// Setting the anchor of one axis sets it where that axis scrolls, and leaves the other one alone.
pub proof fn law_anchors_are_set_apart<S>(direction: Direction<S>, anchor: Anchor)
    ensures
        anchor_x(anchored_x(direction, anchor)) == (if direction is Vertical {
            None
        } else {
            Some(anchor)
        }),
        anchor_y(anchored_x(direction, anchor)) == anchor_y(direction),
        anchor_y(anchored_y(direction, anchor)) == (if direction is Horizontal {
            None
        } else {
            Some(anchor)
        }),
        anchor_x(anchored_y(direction, anchor)) == anchor_x(direction),
{
}

/// An animated scroll heads for where it is told to, along each axis, or for the nearest end of
/// the content where that is past it. It starts where the content is.
pub proof fn law_animated_scroll_heads_for_its_target(
    s: State<Exact>,
    target: AbsoluteOffset<Exact>,
    scene: Scene<Exact>,
    now: Instant,
    x: real,
    y: real,
)
    requires
        stands_at(
            s.offset_x,
            scene.content_bounds.width.value - scene.viewport_bounds.width.value,
            x,
        ),
        stands_at(
            s.offset_y,
            scene.content_bounds.height.value - scene.viewport_bounds.height.value,
            y,
        ),
    ensures
        ({
            let after = s.animated_to(target, scene.viewport_bounds, scene.content_bounds, now);
            let there = after.scroll_to_target->0;
            let room_x = scene.content_bounds.width.value - scene.viewport_bounds.width.value;
            let room_y = scene.content_bounds.height.value - scene.viewport_bounds.height.value;
            &&& sets_out(s, after, now, x, y)
            &&& goes(0real, target.x.value, None, room_x, Offset::Absolute(there.x))
            &&& goes(0real, target.y.value, None, room_y, Offset::Absolute(there.y))
        }),
{
    lemma_fractions();
    lemma_distances(s, scene, x, y);
}

/// An offset at a share of the way stands that far along it, within its ends.
pub proof fn law_share_is_a_place_on_the_way(share: Exact, viewport: Exact, content: Exact)
    requires
        viewport.value <= content.value,
    ensures
        ({
            let room = content.value - viewport.value;
            let there = Offset::at_share(share).distance(viewport, content).value;
            &&& 0real <= share.value <= 1real ==> there == share.value * room
            &&& share.value < 0real ==> there == 0real
            &&& share.value > 1real ==> there == room
            &&& Offset::at_share(share).settled(viewport, content) == Offset::Absolute(exact(there))
        }),
{
    lemma_fractions();
    let room = content.value - viewport.value;
    let p = share.value;
    assert(room * p == p * room) by (nonlinear_arith);
    assert(room * 0real == 0real) by (nonlinear_arith);
    assert(room * 1real == room) by (nonlinear_arith);
    assert(0real <= p ==> p * room >= 0real) by (nonlinear_arith)
        requires
            room >= 0real,
    ;
}

} // verus!
