//! What virtual scrollables take note of when events arrive, and what they report.
use vstd::prelude::*;

use crate::event::{
    Button, Event, Key, KeyboardEvent, MouseEvent, Named, ScrollDelta, TouchEvent,
};
use crate::geometry::{Cursor, Point, Rectangle, Size, Vector};
use crate::scalar::exact::{exact, lemma_fractions, Exact};
use crate::scalar::Arithmetic;
use crate::scrolling::scrollable::{
    relative_to, AbsoluteOffset, Anchor, Direction, Status, Viewport,
};
use crate::scrolling::virtual_scrollable::exact_laws::is_proper;
use crate::scrolling::virtual_scrollable::frame::{beyond_dead_zone, frame_step, Frame};
use crate::scrolling::virtual_scrollable::motion_laws::{anchor_x, anchor_y, stands_at};
use crate::scrolling::virtual_scrollable::notify::{unchanged, ScrollEffect};
use crate::scrolling::virtual_scrollable::offset::Offset;
use crate::scrolling::virtual_scrollable::react::{react_step, settle_effects};
use crate::scrolling::virtual_scrollable::scene::{statuses_differ, visible_part, Scene};
use crate::scrolling::virtual_scrollable::state::{Interaction, Motion, State};
use crate::scrolling::virtual_scrollable::update::{
    begin_step, forward_of, next_of, seen, Next, Wishes,
};
use crate::scrolling::virtual_scrollable::VirtualScrollable;
use crate::time::Instant;

verus! {

/// A series of scroll events ends with the press or the release of a button, or when the cursor
/// leaves. It also ends with the cursor moving more than a tenth of a second after the last
/// scroll, or with anything else that happens more than one and a half seconds after it. Nothing
/// else ends it, and nothing but scrolling starts it.
pub proof fn law_series_of_scrolls_ends<S: Arithmetic>(s: State<S>, event: Event<S>, now: Instant)
    ensures
        ({
            let after = seen(s, event, now).last_scrolled;
            &&& s.last_scrolled is None ==> after is None
            &&& s.last_scrolled matches Some(last) ==> {
                let nanos = if now.nanos >= last.nanos {
                    (now.nanos - last.nanos) as int
                } else {
                    0
                };
                let ends = match event {
                    Event::Mouse(MouseEvent::ButtonPressed { .. }) => true,
                    Event::Mouse(MouseEvent::ButtonReleased { .. }) => true,
                    Event::Mouse(MouseEvent::CursorLeft) => true,
                    Event::Mouse(MouseEvent::CursorMoved { .. }) => nanos > 100 * 1_000_000,
                    _ => nanos > 1_500 * 1_000_000,
                };
                after == (if ends {
                    None
                } else {
                    Some(last)
                })
            }
        }),
{
}

/// A pointer is down from when a button or a finger goes down until one goes up.
pub proof fn law_pointer_is_tracked<S: Arithmetic>(s: State<S>, event: Event<S>, now: Instant)
    ensures
        seen(s, event, now).is_pointer_down == (match event {
            Event::Mouse(MouseEvent::ButtonPressed { .. }) => true,
            Event::Touch(TouchEvent::FingerPressed { .. }) => true,
            Event::Mouse(MouseEvent::ButtonReleased { .. }) => false,
            Event::Touch(TouchEvent::FingerLifted { .. }) => false,
            Event::Touch(TouchEvent::FingerLost { .. }) => false,
            _ => s.is_pointer_down,
        }),
        seen(s, event, now).offset_x == s.offset_x,
        seen(s, event, now).offset_y == s.offset_y,
        seen(s, event, now).interaction == s.interaction,
{
}

/// Content sees every event but those of the window, and a wheel that goes on turning while the
/// content scrolls. It sees an event for the part of it that is visible, with the cursor as it is
/// above that part.
pub proof fn law_content_sees_events<S: Arithmetic>(
    s: State<S>,
    wishes: Wishes<S>,
    scene: Scene<S>,
    event: Event<S>,
    cursor: Cursor<S>,
    cached: Option<Rectangle<S>>,
    now: Instant,
)
    requires
        s.interaction is Idle,
        !scene.over_y_scrollbar,
        !scene.over_x_scrollbar,
    ensures
        ({
            let next = next_of(s, wishes, scene, event, cursor, cached, now);
            let hidden = event is RedrawRequested || event is Window || (seen(
                s,
                event,
                now,
            ).last_scrolled is Some && event matches Event::Mouse(
                MouseEvent::WheelScrolled { .. },
            ));
            &&& hidden ==> next is React
            &&& !hidden ==> (next matches Next::Forward(forward) && {
                let shift = s.shifted(wishes.direction, scene.bounds, scene.content_bounds);
                let viewport = Size {
                    width: scene.viewport_bounds.width,
                    height: scene.viewport_bounds.height,
                };
                let content = Size {
                    width: scene.content_bounds.width,
                    height: scene.content_bounds.height,
                };
                &&& forward.viewport.x == shift.x
                &&& forward.viewport.y == shift.y
                &&& forward.viewport == visible_part(shift, viewport, content)
                &&& forward.cursor == (match scene.over {
                    Some(p) => Cursor::Available(p),
                    None => cursor.lifted(),
                })
                &&& cached is None ==> !forward.from_cache
            })
            &&& begin_step(s, wishes.reports, scene, event, cursor, now).effects.len() == 0
        }),
{
}

/// What content is kept for counts as the same as long as no side of it has moved by more than a
/// hundredth of a pixel.
pub proof fn law_kept_content_is_close(
    s: State<Exact>,
    wishes: Wishes<Exact>,
    scene: Scene<Exact>,
    cursor: Cursor<Exact>,
    kept: Rectangle<Exact>,
)
    ensures
        ({
            let forward = forward_of(s, wishes.direction, scene, cursor, Some(kept));
            let v = forward.viewport;
            let close = |a: real, b: real| -(1real) <= 100real * (a - b) <= 1real;
            forward.from_cache == (close(kept.x.value, v.x.value) && close(
                kept.y.value,
                v.y.value,
            ) && close(kept.width.value, v.width.value) && close(
                kept.height.value,
                v.height.value,
            ))
        }),
{
    let hundredth = 1real / 100real;
    assert(100real * hundredth == 1real) by (nonlinear_arith)
        requires
            hundredth == 1real / 100real,
    ;
}

/// What is reported is where the content is.
pub proof fn law_report_says_where_content_is(
    s: State<Exact>,
    bounds: Rectangle<Exact>,
    content_bounds: Rectangle<Exact>,
    x: real,
    y: real,
)
    requires
        stands_at(s.offset_x, content_bounds.width.value - bounds.width.value, x),
        stands_at(s.offset_y, content_bounds.height.value - bounds.height.value, y),
        content_bounds.width.value > bounds.width.value || content_bounds.height.value
            > bounds.height.value,
        s.last_notified is None,
    ensures
        s.report(true, bounds, content_bounds) == seq![
            ScrollEffect::Publish(
                Viewport {
                    offset: AbsoluteOffset { x: exact(x), y: exact(y) },
                    bounds,
                    content_bounds,
                },
            ),
        ],
        s.report(false, bounds, content_bounds).len() == 0,
        s.reported(bounds, content_bounds).last_notified == Some(
            Viewport {
                offset: AbsoluteOffset { x: exact(x), y: exact(y) },
                bounds,
                content_bounds,
            },
        ),
{
    lemma_fractions();
    let room_x = content_bounds.width.value - bounds.width.value;
    let room_y = content_bounds.height.value - bounds.height.value;
    if let Offset::Relative(share) = s.offset_x {
        let p = share.value;
        assert(room_x * p == p * room_x) by (nonlinear_arith);
    }
    if let Offset::Relative(share) = s.offset_y {
        let p = share.value;
        assert(room_y * p == p * room_y) by (nonlinear_arith);
    }
}

/// Content that has moved along either axis since the last report, or whose size or viewport has
/// changed, is reported again; content that has not is not.
pub proof fn law_every_move_is_reported(
    s: State<Exact>,
    last: Viewport<Exact>,
    bounds: Rectangle<Exact>,
    content_bounds: Rectangle<Exact>,
)
    requires
        s.last_notified == Some(last),
        content_bounds.width.value > bounds.width.value || content_bounds.height.value
            > bounds.height.value,
    ensures
        s.is_news(bounds, content_bounds) <==> (last.offset != s.distances(bounds, content_bounds)
            || last.bounds != bounds || last.content_bounds != content_bounds),
{
}

/// An offset as a share of the way is what makes the way as long as the offset.
pub proof fn law_share_of_the_way(
    offset: AbsoluteOffset<Exact>,
    bounds: Rectangle<Exact>,
    content_bounds: Rectangle<Exact>,
)
    requires
        content_bounds.width.value > bounds.width.value,
        content_bounds.height.value > bounds.height.value,
    ensures
        ({
            let share = relative_to(offset, bounds, content_bounds);
            &&& share.x.value * (content_bounds.width.value - bounds.width.value) == offset.x.value
            &&& share.y.value * (content_bounds.height.value - bounds.height.value)
                == offset.y.value
        }),
{
    let x = offset.x.value;
    let y = offset.y.value;
    let w = content_bounds.width.value - bounds.width.value;
    let h = content_bounds.height.value - bounds.height.value;
    assert((x / w) * w == x) by (nonlinear_arith)
        requires
            w > 0real,
    ;
    assert((y / h) * h == y) by (nonlinear_arith)
        requires
            h > 0real,
    ;
}

/// Once an event is done, a frame is drawn if the content has moved. Else one is asked for only
/// where something moves by itself: if the cursor has come or gone, and if the status has changed.
pub proof fn law_event_ends_with_a_frame<S: Arithmetic>(
    s: State<S>,
    scene: Scene<S>,
    status: Status<S>,
    last_status: Option<Status<S>>,
    hover_changed: bool,
    now: Instant,
    motion: Motion<S>,
)
    ensures
        ({
            let effects = settle_effects(
                s,
                scene,
                status,
                last_status,
                hover_changed,
                now,
                motion,
            );
            let moved = !(scene.offset_x.agrees(s.offset_x) && scene.offset_y.agrees(s.offset_y));
            let changed = last_status is Some && statuses_differ(last_status->0, status);
            let moving = s.is_coasting() || (s.scroll_to_animation is Some
                && motion.scroll_running) || motion.hover_running || s.interaction is AutoScrolling;
            &&& moved ==> effects.len() > 0 && effects.last() is RequestRedraw
            &&& !moved && !moving ==> effects.len() == 0
            &&& !moved && !hover_changed && !changed ==> effects.len() == 0
            &&& !moved && moving && (hover_changed || changed) ==> effects.len() > 0
                && effects.last() == ScrollEffect::<S>::RequestRedrawAt(
                Instant { nanos: (now.nanos + 16_000_000) as u64 },
            )
        }),
{
}

/// A finger that drags content makes its speed part of that of the content: three tenths of the
/// way it has made in the time since it last moved, and seven tenths of what was there before. No
/// time counts as less than a millisecond.
pub proof fn law_finger_sets_the_speed(
    s: State<Exact>,
    wishes: Wishes<Exact>,
    scene: Scene<Exact>,
    touch: TouchEvent<Exact>,
    from: Point<Exact>,
    since: Instant,
    to: Point<Exact>,
    now: Instant,
)
    requires
        touch is FingerMoved,
        s.interaction == (Interaction::TouchScrolling { last_position: from, last_time: since }),
        since.nanos <= now.nanos,
    ensures
        ({
            let cursor = Cursor::Available(to);
            let after = react_step(
                s,
                wishes,
                scene,
                Event::Touch(touch),
                cursor,
                false,
                now,
            ).state;
            let time = if now.nanos - since.nanos >= 1_000_000 {
                (now.nanos - since.nanos) as real / 1_000_000_000real
            } else {
                1real / 1000real
            };
            &&& 10real * after.velocity.x.value == 7real * s.velocity.x.value + 3real * ((
            to.x.value - from.x.value) / time)
            &&& 10real * after.velocity.y.value == 7real * s.velocity.y.value + 3real * ((
            to.y.value - from.y.value) / time)
        }),
{
    lemma_fractions();
    let nanos = (now.nanos - since.nanos) as real;
    let seconds = nanos / 1_000_000_000real;
    assert(seconds * 1_000_000_000real == nanos) by (nonlinear_arith)
        requires
            seconds == nanos / 1_000_000_000real,
    ;
    let least = 1real / 1000real;
    assert(least * 1000real == 1real) by (nonlinear_arith)
        requires
            least == 1real / 1000real,
    ;
    assert(now.nanos - since.nanos >= 1_000_000 <==> nanos >= 1_000_000real);
    assert(seconds >= least <==> nanos >= 1_000_000real);
    let time = if now.nanos - since.nanos >= 1_000_000 {
        seconds
    } else {
        least
    };
    lemma_smoothed(s.velocity.x.value, from.x.value, to.x.value, time);
    lemma_smoothed(s.velocity.y.value, from.y.value, to.y.value, time);
}

/// The speed along one axis.
proof fn lemma_smoothed(velocity: real, from: real, to: real, time: real)
    requires
        0real < time,
    ensures
        10real * crate::scrolling::virtual_scrollable::react::smoothed(
            exact(velocity),
            exact(from - to),
            exact(time),
        ).value == 7real * velocity + 3real * ((to - from) / time),
{
    lemma_fractions();
    let share = 3real / 10real;
    assert(10real * share == 3real) by (nonlinear_arith)
        requires
            share == 3real / 10real,
    ;
    let speed = (to - from) / time;
    assert(-(from - to) / time == speed) by (nonlinear_arith)
        requires
            0real < time,
            speed == (to - from) / time,
    ;
    assert(10real * (velocity * (1real - share) + speed * share) == 7real * velocity + 3real
        * speed) by (nonlinear_arith)
        requires
            10real * share == 3real,
    ;
}

/// Content that a finger has dragged keeps the speed of the finger when the finger goes up, turned
/// round along each axis whose offset counts from the end.
pub proof fn law_lifted_finger_leaves_its_speed(
    s: State<Exact>,
    wishes: Wishes<Exact>,
    scene: Scene<Exact>,
    touch: TouchEvent<Exact>,
    cursor: Cursor<Exact>,
    captured: bool,
    now: Instant,
)
    requires
        s.interaction is TouchScrolling,
        touch is FingerLifted || touch is FingerLost,
    ensures
        ({
            let event = Event::Touch(touch);
            let after = react_step(s, wishes, scene, event, cursor, captured, now).state;
            let effects = react_step(s, wishes, scene, event, cursor, captured, now).effects;
            let fast = s.velocity.x.value > 1real || s.velocity.x.value < -(1real)
                || s.velocity.y.value > 1real || s.velocity.y.value < -(1real);
            &&& effects.len() == (if fast {
                1nat
            } else {
                0nat
            })
            &&& fast ==> effects[0] is RequestRedrawAt
            &&& after.last_kinetic_update == Some(now)
            &&& after.velocity.x.value == (if anchor_x(wishes.direction) == Some(Anchor::End) {
                -s.velocity.x.value
            } else {
                s.velocity.x.value
            })
            &&& after.velocity.y.value == (if anchor_y(wishes.direction) == Some(Anchor::End) {
                -s.velocity.y.value
            } else {
                s.velocity.y.value
            })
        }),
{
    lemma_fractions();
}

/// A finger that goes down on the content stops it, and drags it from there.
pub proof fn law_finger_stops_the_content<S: Arithmetic>(
    s: State<S>,
    wishes: Wishes<S>,
    scene: Scene<S>,
    touch: TouchEvent<S>,
    cursor: Cursor<S>,
    now: Instant,
)
    requires
        touch is FingerPressed,
        scene.over is Some,
        !scene.over_x_scrollbar,
        !scene.over_y_scrollbar,
    ensures
        ({
            let event = Event::Touch(touch);
            let step = react_step(s, wishes, scene, event, cursor, false, now);
            &&& step.state.interaction == (Interaction::TouchScrolling {
                last_position: scene.over->0,
                last_time: now,
            })
            &&& step.state.velocity == (Vector { x: S::fraction(0, 1), y: S::fraction(0, 1) })
            &&& step.state.scroll_to_animation is None
            &&& step.state.offset_x == s.offset_x
            &&& step.state.offset_y == s.offset_y
            &&& step.effects == seq![ScrollEffect::<S>::CaptureEvent]
        }),
{
}

/// Where it is asked for, the middle button starts scrolling away from the cursor over the
/// content; no other button does.
pub proof fn law_middle_button_starts_auto_scroll<S: Arithmetic>(
    s: State<S>,
    wishes: Wishes<S>,
    scene: Scene<S>,
    button: Button,
    cursor: Cursor<S>,
    now: Instant,
)
    requires
        wishes.auto_scroll,
        s.interaction is Idle,
    ensures
        ({
            let event = Event::Mouse(MouseEvent::ButtonPressed { button });
            let step = react_step(s, wishes, scene, event, cursor, false, now);
            &&& step.state == (if button == Button::Middle && scene.over is Some {
                State {
                    interaction: Interaction::AutoScrolling {
                        origin: scene.over->0,
                        current: scene.over->0,
                        last_frame: None,
                    },
                    ..s
                }
            } else {
                s
            })
            &&& button == Button::Middle && scene.over is Some ==> step.effects.len() == 2
                && step.effects[0] is CaptureEvent
            &&& !(button == Button::Middle && scene.over is Some) ==> step.effects.len() == 0
        }),
{
}

/// While content scrolls away from the cursor, the cursor is followed. The first time it is twenty
/// pixels or more away along an axis, a frame is asked for.
pub proof fn law_auto_scroll_watches_the_cursor(
    s: State<Exact>,
    wishes: Wishes<Exact>,
    scene: Scene<Exact>,
    origin: Point<Exact>,
    current: Point<Exact>,
    last_frame: Option<Instant>,
    position: Point<Exact>,
    cursor: Cursor<Exact>,
    now: Instant,
)
    requires
        s.interaction == (Interaction::AutoScrolling { origin, current, last_frame }),
    ensures
        ({
            let event = Event::Mouse(MouseEvent::CursorMoved { position });
            let step = react_step(s, wishes, scene, event, cursor, false, now);
            let far = |a: real, b: real| a - b >= 20real || b - a >= 20real;
            &&& step.state == (State {
                interaction: Interaction::AutoScrolling { origin, current: position, last_frame },
                ..s
            })
            &&& step.effects.len() == (if last_frame is None && (far(
                position.x.value,
                origin.x.value,
            ) || far(position.y.value, origin.y.value)) {
                1nat
            } else {
                0nat
            })
        }),
{
    assert(20real / 1real == 20real) by (nonlinear_arith);
}

/// A wheel that has scrolled the content, now or a moment ago, is kept from other widgets. What
/// was moving stops, and the move is reported.
pub proof fn law_wheel_that_scrolls_is_taken(
    s: State<Exact>,
    wishes: Wishes<Exact>,
    scene: Scene<Exact>,
    delta: ScrollDelta<Exact>,
    shift: bool,
    cursor: Cursor<Exact>,
    now: Instant,
)
    requires
        scene.over is Some,
    ensures
        ({
            let event = Event::Mouse(MouseEvent::WheelScrolled { delta, shift });
            let step = react_step(s, wishes, scene, event, cursor, false, now);
            let after = step.state;
            let taken = step.effects.len() > 0 && step.effects.last() is CaptureEvent;
            &&& taken == (after.last_scrolled is Some)
            &&& after.last_notified != s.last_notified ==> after.last_scrolled == Some(now)
            &&& after.last_notified == s.last_notified && s.last_scrolled is None
                ==> step.effects.len() == 0
            &&& after.last_notified != s.last_notified && wishes.reports ==> step.effects.len() == 2
                && step.effects[0] == ScrollEffect::Publish(after.last_notified->0)
            &&& !wishes.reports ==> step.effects.len() <= 1
            &&& after.velocity.x.value == 0real && after.velocity.y.value == 0real
            &&& after.scroll_to_animation is None
            &&& after.last_kinetic_update is None
        }),
{
    lemma_fractions();
    let event = Event::Mouse(MouseEvent::WheelScrolled { delta, shift });
    let step = react_step(s, wishes, scene, event, cursor, false, now);
    let viewport = scene.viewport_bounds;
    let content = scene.content_bounds;
    let moved = s.at_rest().scrolled(
        wishes.direction.aligned(
            crate::scrolling::virtual_scrollable::react::wheel_motion(
                delta,
                shift,
                wishes.swaps_wheel,
            ),
        ),
        viewport,
        content,
    );
    if moved.is_news(viewport, content) && s.last_notified == Some(
        moved.viewport(viewport, content),
    ) {
        assert(false);
    }
}

/// After a frame the next one is asked for, sixteen milliseconds later, as long as something moves
/// by itself; that is the last thing that is asked for.
pub proof fn law_motion_asks_for_the_next_frame<S: Arithmetic>(
    s: State<S>,
    wishes: Wishes<S>,
    scene: Scene<S>,
    frame: Frame<S>,
)
    requires
        frame.now.nanos + 16_000_000 <= u64::MAX,
    ensures
        ({
            let step = frame_step(s, wishes, scene, frame);
            let after = step.state;
            let moving = S::fraction(1, 1).below(after.velocity.x.magnitude()) || S::fraction(
                1,
                1,
            ).below(after.velocity.y.magnitude()) || (after.scroll_to_animation is Some
                && frame.motion.scroll_running) || frame.motion.hover_running
                || after.interaction is AutoScrolling;
            let asks = step.effects.len() > 0 && step.effects.last() is RequestRedrawAt;
            &&& asks == moving
            &&& moving ==> step.effects.last() == ScrollEffect::<S>::RequestRedrawAt(
                Instant { nanos: (frame.now.nanos + 16_000_000) as u64 },
            )
        }),
{
}

/// While content scrolls away from the cursor, the press of any button, the wheel, a finger or a
/// key stops it and goes no further. Nothing else does.
pub proof fn law_what_stops_auto_scroll<S: Arithmetic>(
    s: State<S>,
    wishes: Wishes<S>,
    scene: Scene<S>,
    event: Event<S>,
    cursor: Cursor<S>,
    cached: Option<Rectangle<S>>,
    now: Instant,
)
    requires
        s.interaction is AutoScrolling,
    ensures
        ({
            let stops = match event {
                Event::Mouse(MouseEvent::ButtonPressed { .. }) => true,
                Event::Mouse(MouseEvent::WheelScrolled { .. }) => true,
                Event::Mouse(_) => false,
                Event::Touch(_) => true,
                Event::Keyboard(_) => true,
                _ => false,
            };
            let begun = begin_step(s, wishes.reports, scene, event, cursor, now).state;
            let next = next_of(s, wishes, scene, event, cursor, cached, now);
            &&& (next is Finish) == stops
            &&& begun.interaction == (if stops {
                Interaction::Idle
            } else {
                s.interaction
            })
            &&& begun.offset_x == s.offset_x && begun.offset_y == s.offset_y
        }),
{
}

/// Nothing but the release of the left button, or of a finger, lets a scroller go that is held.
pub proof fn law_what_lets_a_scroller_go<S: Arithmetic>(
    s: State<S>,
    wishes: Wishes<S>,
    scene: Scene<S>,
    event: Event<S>,
    cursor: Cursor<S>,
    captured: bool,
    now: Instant,
)
    requires
        s.interaction is YScrollerGrabbed || s.interaction is XScrollerGrabbed,
        !(event matches Event::Touch(TouchEvent::FingerPressed { .. })),
    ensures
        react_step(s, wishes, scene, event, cursor, captured, now).state.interaction == (
        match event {
            Event::Mouse(MouseEvent::ButtonReleased { button }) => if button == Button::Left {
                Interaction::Idle
            } else {
                s.interaction
            },
            Event::Touch(TouchEvent::FingerLifted { .. }) => Interaction::Idle,
            Event::Touch(TouchEvent::FingerLost { .. }) => Interaction::Idle,
            _ => s.interaction,
        }),
{
}

/// Content that moves by no more than a pixel per second along each axis stays where it is.
pub proof fn law_slow_content_stays(
    s: State<Exact>,
    wishes: Wishes<Exact>,
    scene: Scene<Exact>,
    frame: Frame<Exact>,
)
    requires
        -(1real) <= s.velocity.x.value <= 1real,
        -(1real) <= s.velocity.y.value <= 1real,
        !(s.interaction is AutoScrolling),
        s.scroll_to_animation is None,
    ensures
        ({
            let after = frame_step(s, wishes, scene, frame).state;
            &&& after.offset_x == s.offset_x
            &&& after.offset_y == s.offset_y
            &&& after.velocity == s.velocity
        }),
{
    lemma_fractions();
}

/// The keys that scroll are kept from other widgets, and ask for the first frame of the animation.
/// They do nothing while the cursor is elsewhere.
pub proof fn law_scrolling_keys_are_taken<S: Arithmetic>(
    s: State<S>,
    wishes: Wishes<S>,
    scene: Scene<S>,
    named: Named,
    shift: bool,
    cursor: Cursor<S>,
    now: Instant,
)
    requires
        named == Named::PageUp || named == Named::PageDown || named == Named::Home || named
            == Named::End,
        now.nanos + 16_000_000 <= u64::MAX,
    ensures
        ({
            let event = Event::Keyboard(
                KeyboardEvent::KeyPressed { key: Key::Named(named), shift },
            );
            let step = react_step(s, wishes, scene, event, cursor, false, now);
            &&& scene.over is Some ==> step.effects == seq![
                ScrollEffect::<S>::CaptureEvent,
                ScrollEffect::<S>::RequestRedrawAt(
                    Instant { nanos: (now.nanos + 16_000_000) as u64 },
                ),
            ]
            &&& scene.over is None ==> step.effects.len() == 0 && step.state == s
        }),
{
}

/// A share of the way is not longer than the way.
proof fn lemma_share_within(offset: Offset<Exact>, viewport: Exact, content: Exact)
    requires
        is_proper(offset),
    ensures
        offset.settled(viewport, content).distance(viewport, content) == offset.distance(
            viewport,
            content,
        ),
{
    lemma_fractions();
    if let Offset::Relative(share) = offset {
        let room = content.value - viewport.value;
        let p = share.value;
        assert(room >= 0real ==> 0real <= room * p <= room) by (nonlinear_arith)
            requires
                0real <= p <= 1real,
        ;
        assert(room < 0real ==> room * p <= 0real) by (nonlinear_arith)
            requires
                0real <= p <= 1real,
        ;
    }
}

/// Taking both offsets as distances does not move the content.
pub proof fn law_unsnapping_moves_nothing(
    s: State<Exact>,
    bounds: Rectangle<Exact>,
    content_bounds: Rectangle<Exact>,
)
    requires
        is_proper(s.offset_x),
        is_proper(s.offset_y),
    ensures
        ({
            let after = s.unsnapped(bounds, content_bounds);
            &&& after.distances(bounds, content_bounds) == s.distances(bounds, content_bounds)
            &&& after.offset_x is Absolute && after.offset_y is Absolute
        }),
{
    lemma_share_within(s.offset_x, bounds.width, content_bounds.width);
    lemma_share_within(s.offset_y, bounds.height, content_bounds.height);
}

/// Before anything has happened, content that is anchored to its start shows its start, nothing is
/// held, and nothing moves by itself.
pub proof fn law_nothing_moves_at_first(
    direction: Direction<Exact>,
    bounds: Rectangle<Exact>,
    content_bounds: Rectangle<Exact>,
)
    requires
        bounds.width.value <= content_bounds.width.value,
        bounds.height.value <= content_bounds.height.value,
    ensures
        ({
            let s = State::<Exact>::initial();
            let shift = s.shifted(direction, bounds, content_bounds);
            &&& anchor_x(direction) != Some(Anchor::End) ==> shift.x.value == 0real
            &&& anchor_y(direction) != Some(Anchor::End) ==> shift.y.value == 0real
            &&& s.interaction is Idle
            &&& s.velocity.x.value == 0real && s.velocity.y.value == 0real
            &&& s.scroll_to_animation is None
            &&& s.last_notified is None && s.last_scrolled is None
            &&& !s.has_cached_layout && s.cached_viewport is None
            &&& !s.is_pointer_down && !s.is_mouse_over_area
        }),
{
    lemma_fractions();
    assert((1real / 2real).floor() == 0);
}

/// A scrollable reports viewports exactly if it was told what to make of them.
pub proof fn law_wishes_are_those_of_the_scrollable<S: Arithmetic, V, F, C, I>(
    widget: VirtualScrollable<S, V, F, C, I>,
    swaps: bool,
)
    ensures
        ({
            let wishes = widget.wishes(swaps);
            &&& wishes.direction == widget.direction
            &&& wishes.reports == (widget.on_scroll is Some)
            &&& wishes.auto_scroll == widget.auto_scroll
            &&& wishes.swaps_wheel == swaps
        }),
{
}

/// Offsets agree exactly if they are the same.
pub proof fn law_agreeing_offsets_are_the_same(a: Offset<Exact>, b: Offset<Exact>)
    ensures
        a.agrees(b) == (a == b),
{
}

/// Two results that are not numbers count as unchanged, and so do numbers that are no further
/// apart than is tolerated.
pub proof fn law_what_counts_as_unchanged<S: Arithmetic>(a: S, b: S)
    ensures
        a.undefined() && b.undefined() ==> unchanged(a, b),
        a.difference(b).magnitude().at_most(S::tolerance()) ==> unchanged(a, b),
        unchanged(a, b) ==> a.undefined() && b.undefined() || a.difference(b).magnitude().at_most(
            S::tolerance(),
        ),
{
}

/// The first frame in which the cursor is far from where it started, moves nothing: it only says
/// when time starts to count. As long as the cursor is close to where it started along both axes,
/// no time counts.
pub proof fn law_auto_scroll_starts_from_rest(
    s: State<Exact>,
    wishes: Wishes<Exact>,
    scene: Scene<Exact>,
    frame: Frame<Exact>,
    origin: Point<Exact>,
    current: Point<Exact>,
    last_frame: Option<Instant>,
    x: real,
    y: real,
)
    requires
        s.interaction == (Interaction::AutoScrolling { origin, current, last_frame }),
        last_frame != Some(frame.now),
        s.velocity.x.value == 0real,
        s.velocity.y.value == 0real,
        s.scroll_to_animation is None,
        stands_at(
            s.offset_x,
            scene.content_bounds.width.value - scene.viewport_bounds.width.value,
            x,
        ),
        stands_at(
            s.offset_y,
            scene.content_bounds.height.value - scene.viewport_bounds.height.value,
            y,
        ),
    ensures
        ({
            let after = frame_step(s, wishes, scene, frame).state;
            let there = after.distances(scene.viewport_bounds, scene.content_bounds);
            let near = -20real < current.x.value - origin.x.value < 20real && -20real
                < current.y.value - origin.y.value < 20real;
            &&& near ==> after.interaction == (Interaction::AutoScrolling {
                origin,
                current,
                last_frame: None,
            })
            &&& last_frame is None ==> there.x.value == x && there.y.value == y
            &&& !near && last_frame is None ==> after.interaction == (Interaction::AutoScrolling {
                origin,
                current,
                last_frame: Some(frame.now),
            })
        }),
{
    lemma_fractions();
    lemma_dead_zone(current.x.value - origin.x.value);
    lemma_dead_zone(current.y.value - origin.y.value);
    assert(0real / 1_000_000_000real == 0real) by (nonlinear_arith);
    lemma_no_time(current.x.value - origin.x.value, frame.pull.x.value);
    lemma_no_time(current.y.value - origin.y.value, frame.pull.y.value);
    let room_x = scene.content_bounds.width.value - scene.viewport_bounds.width.value;
    let room_y = scene.content_bounds.height.value - scene.viewport_bounds.height.value;
    if let Offset::Relative(share) = s.offset_x {
        let p = share.value;
        assert(room_x * p == p * room_x) by (nonlinear_arith);
    }
    if let Offset::Relative(share) = s.offset_y {
        let p = share.value;
        assert(room_y * p == p * room_y) by (nonlinear_arith);
    }
}

/// What is beyond the zone in which the cursor does not scroll.
proof fn lemma_dead_zone(delta: real)
    ensures
        beyond_dead_zone(exact(delta)).same(exact(0real)) <==> -20real < delta < 20real,
{
    lemma_fractions();
    assert(20real / 1real == 20real) by (nonlinear_arith);
}

/// Nothing moves in no time.
proof fn lemma_no_time(delta: real, pull: real)
    ensures
        beyond_dead_zone(exact(delta)).sign().product(exact(pull)).product(exact(0real)) == exact(
            0real,
        ),
{
    let by = beyond_dead_zone(exact(delta)).sign().product(exact(pull)).value;
    assert(by * 0real == 0real) by (nonlinear_arith);
}

} // verus!
