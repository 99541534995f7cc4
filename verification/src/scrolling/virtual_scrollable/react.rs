//! What a virtual scrollable makes of an event that its content left alone.
use vstd::prelude::*;

use crate::event::{
    Button, Event, Key, KeyboardEvent, MouseEvent, Named, ScrollDelta, TouchEvent,
};
use crate::geometry::{Cursor, Point, Vector};
use crate::scalar::{whole, zero, Arithmetic, Scalar};
use crate::scrolling::scrollable::{AbsoluteOffset, Direction, Status};
use crate::scrolling::virtual_scrollable::notify::{notify_scroll, ScrollEffect};
use crate::scrolling::virtual_scrollable::offset::{find_reach, reach};
use crate::scrolling::virtual_scrollable::scene::{
    status_fields_changed, statuses_differ, Scene,
};
use crate::scrolling::virtual_scrollable::state::{Interaction, Motion, State};
use crate::scrolling::virtual_scrollable::update::{ends_drag, is_end_of_drag, Step, Wishes};
use crate::scrolling::virtual_scrollable::VirtualScrollable;
use crate::time::Instant;

verus! {

/// The distance from its origin within which the cursor does not scroll by itself.
pub const DEAD_ZONE: i32 = 20;

/// How far a wheel scrolls. Shift turns a wheel of lines sideways, unless the platform has done
/// so already; a line is sixty pixels.
pub open spec fn wheel_motion<S: Arithmetic>(delta: ScrollDelta<S>, shift: bool, swaps: bool) -> Vector<S> {
    match delta {
        ScrollDelta::Lines { x, y } => {
            let (mx, my) = if shift && !swaps {
                (y, x)
            } else {
                (x, y)
            };
            Vector {
                x: mx.opposite().product(whole(60)),
                y: my.opposite().product(whole(60)),
            }
        },
        ScrollDelta::Pixels { x, y } => Vector { x: x.opposite(), y: y.opposite() },
    }
}

fn find_wheel_motion<S: Scalar>(delta: ScrollDelta<S>, shift: bool, swaps: bool) -> (r: Vector<S>)
    ensures
        r == wheel_motion(delta, shift, swaps),
{
    match delta {
        ScrollDelta::Lines { x, y } => {
            let (x, y) = if swaps && shift {
                (y, x)
            } else {
                (x, y)
            };
            let movement: Vector<S> = if !shift {
                Vector { x, y }
            } else {
                Vector { x: y, y: x }
            };
            Vector {
                x: movement.x.negate().times(S::ratio(60, 1)),
                y: movement.y.negate().times(S::ratio(60, 1)),
            }
        },
        ScrollDelta::Pixels { x, y } => Vector { x: x.negate(), y: y.negate() },
    }
}

/// What the wheel does.
pub open spec fn wheel_step<S: Arithmetic>(
    s: State<S>,
    wishes: Wishes<S>,
    scene: Scene<S>,
    delta: ScrollDelta<S>,
    shift: bool,
    now: Instant,
) -> Step<S> {
    if scene.over is None {
        Step { state: s, effects: Seq::empty(), stop: false }
    } else {
        let moved = s.at_rest().scrolled(
            wishes.direction.aligned(wheel_motion(delta, shift, wishes.swaps_wheel)),
            scene.viewport_bounds,
            scene.content_bounds,
        );
        let after = moved.reported_scroll(scene.viewport_bounds, scene.content_bounds, now);
        let report = moved.report(wishes.reports, scene.viewport_bounds, scene.content_bounds);
        Step {
            state: after,
            effects: if after.last_scrolled is Some {
                report.push(ScrollEffect::CaptureEvent)
            } else {
                report
            },
            stop: false,
        }
    }
}

/// Where a key scrolls to, from where the content is: a page on or back, or to an end. Shift
/// turns pages sideways, and takes both axes to an end.
pub open spec fn key_target<S: Arithmetic>(
    named: Named,
    shift: bool,
    direction: Direction<S>,
    from: AbsoluteOffset<S>,
    scene: Scene<S>,
) -> Option<AbsoluteOffset<S>> {
    let upright = direction.upright() is Some;
    let sideways = direction.sideways() is Some;
    let end_x = reach(scene.viewport_bounds.width, scene.content_bounds.width);
    let end_y = reach(scene.viewport_bounds.height, scene.content_bounds.height);
    let page_x = scene.viewport_bounds.width;
    let page_y = scene.viewport_bounds.height;
    let pages_sideways = sideways && (shift || !upright);
    match named {
        Named::PageUp => Some(
            if pages_sideways {
                AbsoluteOffset { x: from.x.difference(page_x).clamped(zero(), end_x), y: from.y }
            } else {
                AbsoluteOffset { x: from.x, y: from.y.difference(page_y).clamped(zero(), end_y) }
            },
        ),
        Named::PageDown => Some(
            if pages_sideways {
                AbsoluteOffset { x: from.x.sum(page_x).clamped(zero(), end_x), y: from.y }
            } else {
                AbsoluteOffset { x: from.x, y: from.y.sum(page_y).clamped(zero(), end_y) }
            },
        ),
        Named::Home => Some(
            AbsoluteOffset {
                x: if shift && sideways {
                    zero()
                } else {
                    from.x
                },
                y: if upright {
                    zero()
                } else {
                    from.y
                },
            },
        ),
        Named::End => Some(
            AbsoluteOffset {
                x: if shift && sideways {
                    end_x
                } else {
                    from.x
                },
                y: if upright {
                    end_y
                } else {
                    from.y
                },
            },
        ),
        _ => None,
    }
}

fn find_key_target<S: Scalar>(
    named: Named,
    shift: bool,
    direction: Direction<S>,
    from: AbsoluteOffset<S>,
    scene: &Scene<S>,
) -> (r: Option<AbsoluteOffset<S>>)
    ensures
        r == key_target(named, shift, direction, from, *scene),
{
    let upright: bool = direction.vertical().is_some();
    let sideways: bool = direction.horizontal().is_some();
    let start: S = S::ratio(0, 1);
    let end_x: S = find_reach(scene.viewport_bounds.width, scene.content_bounds.width);
    let end_y: S = find_reach(scene.viewport_bounds.height, scene.content_bounds.height);
    let mut target: AbsoluteOffset<S> = from;
    match named {
        Named::PageUp => {
            if shift && sideways {
                target.x = target.x.minus(scene.viewport_bounds.width).clamp(start, end_x);
            } else if upright {
                target.y = target.y.minus(scene.viewport_bounds.height).clamp(start, end_y);
            } else {
                target.x = target.x.minus(scene.viewport_bounds.width).clamp(start, end_x);
            }
        },
        Named::PageDown => {
            if shift && sideways {
                target.x = target.x.plus(scene.viewport_bounds.width).clamp(start, end_x);
            } else if upright {
                target.y = target.y.plus(scene.viewport_bounds.height).clamp(start, end_y);
            } else {
                target.x = target.x.plus(scene.viewport_bounds.width).clamp(start, end_x);
            }
        },
        Named::Home => {
            if upright {
                target.y = start;
            }
            if shift && sideways {
                target.x = start;
            }
        },
        Named::End => {
            if upright {
                target.y = end_y;
            }
            if shift && sideways {
                target.x = end_x;
            }
        },
        _ => {
            return None;
        },
    }
    Some(target)
}

/// What a key does while the cursor is over the scrollable.
pub open spec fn key_step<S: Arithmetic>(
    s: State<S>,
    wishes: Wishes<S>,
    scene: Scene<S>,
    key: Key,
    shift: bool,
    now: Instant,
) -> Step<S> {
    let idle = Step { state: s, effects: Seq::empty(), stop: false };
    match key {
        Key::Named(named) => match key_target(
            named,
            shift,
            wishes.direction,
            s.distances(scene.viewport_bounds, scene.content_bounds),
            scene,
        ) {
            Some(target) => if scene.over is Some {
                Step {
                    state: (State { last_kinetic_update: None, ..s }).animated_to(
                        target,
                        scene.viewport_bounds,
                        scene.content_bounds,
                        now,
                    ),
                    effects: seq![
                        ScrollEffect::CaptureEvent,
                        ScrollEffect::RequestRedrawAt(now.next_frame()),
                    ],
                    stop: false,
                }
            } else {
                idle
            },
            None => idle,
        },
        _ => idle,
    }
}

/// The speed of a finger that has dragged the content by a distance, smoothed over time. A finger
/// moves against the direction in which the content is scrolled, so the sign is the opposite one.
pub open spec fn smoothed<S: Arithmetic>(velocity: S, delta: S, dt: S) -> S {
    let share = S::fraction(3, 10);
    velocity.product(whole::<S>(1).difference(share)).sum(
        delta.opposite().quotient(dt).product(share),
    )
}

fn smooth<S: Scalar>(velocity: S, delta: S, dt: S) -> (r: S)
    ensures
        r == smoothed(velocity, delta, dt),
{
    let share: S = S::ratio(3, 10);
    velocity.times(S::ratio(1, 1).minus(share)).plus(delta.negate().over(dt).times(share))
}

/// The state after a finger has dragged the content.
pub open spec fn finger_dragged<S: Arithmetic>(
    s: State<S>,
    direction: Direction<S>,
    scene: Scene<S>,
    last_position: Point<S>,
    last_time: Instant,
    at: Point<S>,
    now: Instant,
) -> State<S> {
    let dt = S::seconds(now.span_since(last_time)).greater(S::fraction(1, 1000));
    let delta = Vector {
        x: last_position.x.difference(at.x),
        y: last_position.y.difference(at.y),
    };
    State {
        velocity: Vector {
            x: smoothed(s.velocity.x, delta.x, dt),
            y: smoothed(s.velocity.y, delta.y, dt),
        },
        interaction: Interaction::TouchScrolling { last_position: at, last_time: now },
        ..s.scrolled(direction.aligned(delta), scene.viewport_bounds, scene.content_bounds)
    }
}

/// What a touch does that does not end a drag.
pub open spec fn touch_step<S: Arithmetic>(
    s: State<S>,
    wishes: Wishes<S>,
    scene: Scene<S>,
    touch: TouchEvent<S>,
    cursor: Cursor<S>,
    now: Instant,
) -> Step<S> {
    let idle = Step { state: s, effects: Seq::empty(), stop: false };
    match touch {
        TouchEvent::FingerPressed { .. } => match scene.over {
            Some(p) => Step {
                state: State {
                    interaction: Interaction::TouchScrolling { last_position: p, last_time: now },
                    ..s.at_rest()
                },
                effects: seq![ScrollEffect::CaptureEvent],
                stop: false,
            },
            None => idle,
        },
        TouchEvent::FingerMoved { .. } => match (s.interaction, cursor.spot()) {
            (Interaction::TouchScrolling { last_position, last_time }, Some(p)) => {
                let moved = finger_dragged(
                    s,
                    wishes.direction,
                    scene,
                    last_position,
                    last_time,
                    p,
                    now,
                );
                Step {
                    state: moved.reported_scroll(scene.viewport_bounds, scene.content_bounds, now),
                    effects: moved.report(
                        wishes.reports,
                        scene.viewport_bounds,
                        scene.content_bounds,
                    ).push(ScrollEffect::CaptureEvent),
                    stop: false,
                }
            },
            _ => idle,
        },
        _ => Step { effects: seq![ScrollEffect::CaptureEvent], ..idle },
    }
}

/// Whether a distance leaves the zone in which the cursor does not scroll by itself.
pub open spec fn leaves_dead_zone<S: Arithmetic>(delta: S) -> bool {
    whole::<S>(DEAD_ZONE as int).at_most(delta.magnitude())
}

/// What a moving cursor does.
pub open spec fn cursor_step<S: Arithmetic>(s: State<S>, position: Point<S>, now: Instant) -> Step<S> {
    match s.interaction {
        Interaction::AutoScrolling { origin, last_frame, .. } => Step {
            state: State {
                interaction: Interaction::AutoScrolling { origin, current: position, last_frame },
                ..s
            },
            effects: if (leaves_dead_zone(position.x.difference(origin.x)) || leaves_dead_zone(
                position.y.difference(origin.y),
            )) && last_frame is None {
                seq![ScrollEffect::RequestRedrawAt(now.next_frame())]
            } else {
                Seq::empty()
            },
            stop: false,
        },
        _ => Step { state: s, effects: Seq::empty(), stop: false },
    }
}

/// What the middle button does.
pub open spec fn middle_button_step<S: Arithmetic>(
    s: State<S>,
    wishes: Wishes<S>,
    scene: Scene<S>,
    now: Instant,
) -> Step<S> {
    if wishes.auto_scroll && s.interaction is Idle && scene.over is Some {
        let origin = scene.over->0;
        Step {
            state: State {
                interaction: Interaction::AutoScrolling {
                    origin,
                    current: origin,
                    last_frame: None,
                },
                ..s
            },
            effects: seq![
                ScrollEffect::CaptureEvent,
                ScrollEffect::RequestRedrawAt(now.next_frame()),
            ],
            stop: false,
        }
    } else {
        Step { state: s, effects: Seq::empty(), stop: false }
    }
}

/// What the end of a drag does: content that was dragged with a finger moves on its own from then
/// on, at the speed of the finger. Since that speed counts along the finger, the content turns
/// back toward where it was dragged from.
pub open spec fn release_step<S: Arithmetic>(s: State<S>, wishes: Wishes<S>, now: Instant) -> Step<S> {
    if s.interaction is TouchScrolling {
        let state = State {
            velocity: wishes.direction.aligned(s.velocity),
            last_kinetic_update: Some(now),
            interaction: Interaction::Idle,
            ..s
        };
        Step {
            state,
            effects: if state.is_coasting() {
                seq![ScrollEffect::RequestRedrawAt(now.next_frame())]
            } else {
                Seq::empty()
            },
            stop: false,
        }
    } else {
        Step {
            state: State { interaction: Interaction::Idle, ..s },
            effects: Seq::empty(),
            stop: false,
        }
    }
}

/// What an event does that the content has seen, unless it asks for a new frame.
pub open spec fn react_step<S: Arithmetic>(
    s: State<S>,
    wishes: Wishes<S>,
    scene: Scene<S>,
    event: Event<S>,
    cursor: Cursor<S>,
    captured: bool,
    now: Instant,
) -> Step<S> {
    let idle = Step { state: s, effects: Seq::empty(), stop: false };
    if ends_drag(event) {
        release_step(s, wishes, now)
    } else if captured {
        idle
    } else {
        match event {
            Event::Mouse(MouseEvent::WheelScrolled { delta, shift }) => wheel_step(
                s,
                wishes,
                scene,
                delta,
                shift,
                now,
            ),
            Event::Keyboard(KeyboardEvent::KeyPressed { key, shift }) => key_step(
                s,
                wishes,
                scene,
                key,
                shift,
                now,
            ),
            Event::Mouse(MouseEvent::ButtonPressed { button: Button::Middle }) => {
                middle_button_step(s, wishes, scene, now)
            },
            Event::Touch(touch) => if s.interaction is TouchScrolling || (!scene.over_y_scrollbar
                && !scene.over_x_scrollbar) {
                touch_step(s, wishes, scene, touch, cursor, now)
            } else {
                idle
            },
            Event::Mouse(MouseEvent::CursorMoved { position }) => cursor_step(s, position, now),
            _ => idle,
        }
    }
}

fn react_to_wheel<S: Scalar>(
    state: &mut State<S>,
    wishes: &Wishes<S>,
    scene: &Scene<S>,
    delta: ScrollDelta<S>,
    shift: bool,
    now: Instant,
    effects: &mut Vec<ScrollEffect<S>>,
)
    requires
        old(effects)@.len() == 0,
    ensures
        *final(state) == wheel_step(*old(state), *wishes, *scene, delta, shift, now).state,
        final(effects)@ == wheel_step(*old(state), *wishes, *scene, delta, shift, now).effects,
{
    let ghost step = wheel_step(*state, *wishes, *scene, delta, shift, now);
    if scene.over.is_none() {
        assert(effects@ =~= step.effects);
        return;
    }
    state.velocity = Vector::none();
    state.last_kinetic_update = None;
    state.scroll_to_target = None;
    state.scroll_to_animation = None;
    let motion: Vector<S> = find_wheel_motion(delta, shift, wishes.swaps_wheel);
    state.scroll(wishes.direction.align(motion), scene.viewport_bounds, scene.content_bounds);
    let has_scrolled: bool = notify_scroll(
        state,
        wishes.reports,
        scene.viewport_bounds,
        scene.content_bounds,
        now,
        effects,
    );
    if has_scrolled || state.last_scrolled.is_some() {
        effects.push(ScrollEffect::CaptureEvent);
    }
    assert(effects@ =~= step.effects);
}

fn react_to_key<S: Scalar>(
    state: &mut State<S>,
    wishes: &Wishes<S>,
    scene: &Scene<S>,
    key: &Key,
    shift: bool,
    now: Instant,
    effects: &mut Vec<ScrollEffect<S>>,
)
    requires
        old(effects)@.len() == 0,
        now.has_next_frame(),
    ensures
        *final(state) == key_step(*old(state), *wishes, *scene, *key, shift, now).state,
        final(effects)@ == key_step(*old(state), *wishes, *scene, *key, shift, now).effects,
{
    let ghost step = key_step(*state, *wishes, *scene, *key, shift, now);
    if scene.over.is_some() {
        if let Key::Named(named) = key {
            let from: AbsoluteOffset<S> = state.absolute(
                scene.viewport_bounds,
                scene.content_bounds,
            );
            if let Some(target) = find_key_target(*named, shift, wishes.direction, from, scene) {
                state.velocity = Vector::none();
                state.last_kinetic_update = None;
                state.scroll_to_animated(
                    target,
                    scene.viewport_bounds,
                    scene.content_bounds,
                    now,
                );
                effects.push(ScrollEffect::CaptureEvent);
                effects.push(ScrollEffect::RequestRedrawAt(now.after_frame()));
            }
        }
    }
    assert(effects@ =~= step.effects);
}

fn react_to_touch<S: Scalar>(
    state: &mut State<S>,
    wishes: &Wishes<S>,
    scene: &Scene<S>,
    touch: &TouchEvent<S>,
    cursor: Cursor<S>,
    now: Instant,
    effects: &mut Vec<ScrollEffect<S>>,
)
    requires
        old(effects)@.len() == 0,
    ensures
        *final(state) == touch_step(*old(state), *wishes, *scene, *touch, cursor, now).state,
        final(effects)@ == touch_step(*old(state), *wishes, *scene, *touch, cursor, now).effects,
{
    let ghost step = touch_step(*state, *wishes, *scene, *touch, cursor, now);
    match touch {
        TouchEvent::FingerPressed { .. } => {
            if let Some(position) = scene.over {
                state.velocity = Vector::none();
                state.last_kinetic_update = None;
                state.scroll_to_target = None;
                state.scroll_to_animation = None;
                state.interaction =
                Interaction::TouchScrolling { last_position: position, last_time: now };
                effects.push(ScrollEffect::CaptureEvent);
            }
        },
        TouchEvent::FingerMoved { .. } => {
            if let (Interaction::TouchScrolling { last_position, last_time }, Some(at)) = (
                state.interaction,
                cursor.position(),
            ) {
                let dt: S = S::from_nanos(now.since(last_time)).max(S::ratio(1, 1000));
                let delta: Vector<S> = Vector {
                    x: last_position.x.minus(at.x),
                    y: last_position.y.minus(at.y),
                };
                state.velocity = Vector {
                    x: smooth(state.velocity.x, delta.x, dt),
                    y: smooth(state.velocity.y, delta.y, dt),
                };
                state.scroll(
                    wishes.direction.align(delta),
                    scene.viewport_bounds,
                    scene.content_bounds,
                );
                state.interaction =
                Interaction::TouchScrolling { last_position: at, last_time: now };
                let _ = notify_scroll(
                    state,
                    wishes.reports,
                    scene.viewport_bounds,
                    scene.content_bounds,
                    now,
                    effects,
                );
                effects.push(ScrollEffect::CaptureEvent);
            }
        },
        _ => {
            effects.push(ScrollEffect::CaptureEvent);
        },
    }
    assert(effects@ =~= step.effects);
}

impl<S: Scalar, V, F, C, I> VirtualScrollable<S, V, F, C, I> {
    /// Reacts to an event that the content has seen, unless it asks for a new frame.
    pub fn react(
        &self,
        state: &mut State<S>,
        event: &Event<S>,
        scene: &Scene<S>,
        cursor: Cursor<S>,
        captured: bool,
        swaps_wheel: bool,
        now: Instant,
    ) -> (effects: Vec<ScrollEffect<S>>)
        requires
            now.has_next_frame(),
        ensures
            ({
                let step = react_step(
                    *old(state),
                    self.wishes(swaps_wheel),
                    *scene,
                    *event,
                    cursor,
                    captured,
                    now,
                );
                &&& *final(state) == step.state
                &&& effects@ == step.effects
            }),
    {
        let wishes: Wishes<S> = self.find_wishes(swaps_wheel);
        let ghost step = react_step(*state, wishes, *scene, *event, cursor, captured, now);
        let mut effects: Vec<ScrollEffect<S>> = Vec::new();
        if is_end_of_drag(event) {
            if let Interaction::TouchScrolling { .. } = state.interaction {
                state.velocity = wishes.direction.align(state.velocity);
                state.last_kinetic_update = Some(now);
                if state.is_kinetic_active() {
                    effects.push(ScrollEffect::RequestRedrawAt(now.after_frame()));
                }
            }
            state.interaction = Interaction::Idle;
            assert(effects@ =~= step.effects);
            return effects;
        }
        if captured {
            assert(effects@ =~= step.effects);
            return effects;
        }
        match event {
            Event::Mouse(MouseEvent::WheelScrolled { delta, shift }) => {
                react_to_wheel(state, &wishes, scene, *delta, *shift, now, &mut effects);
            },
            Event::Keyboard(KeyboardEvent::KeyPressed { key, shift }) => {
                react_to_key(state, &wishes, scene, key, *shift, now, &mut effects);
            },
            Event::Mouse(MouseEvent::ButtonPressed { button: Button::Middle }) => {
                if wishes.auto_scroll {
                    if let Interaction::Idle = state.interaction {
                        if let Some(origin) = scene.over {
                            state.interaction =
                            Interaction::AutoScrolling {
                                origin,
                                current: origin,
                                last_frame: None,
                            };
                            effects.push(ScrollEffect::CaptureEvent);
                            effects.push(ScrollEffect::RequestRedrawAt(now.after_frame()));
                        }
                    }
                }
            },
            Event::Touch(touch) => {
                let touch_scrolling: bool = match state.interaction {
                    Interaction::TouchScrolling { .. } => true,
                    _ => false,
                };
                if touch_scrolling || (!scene.over_y_scrollbar && !scene.over_x_scrollbar) {
                    react_to_touch(state, &wishes, scene, touch, cursor, now, &mut effects);
                }
            },
            Event::Mouse(MouseEvent::CursorMoved { position }) => {
                if let Interaction::AutoScrolling { origin, last_frame, .. } = state.interaction {
                    let dx: S = position.x.minus(origin.x);
                    let dy: S = position.y.minus(origin.y);
                    state.interaction =
                    Interaction::AutoScrolling { origin, current: *position, last_frame };
                    let zone: S = S::ratio(DEAD_ZONE, 1);
                    if (zone.le(dx.abs()) || zone.le(dy.abs())) && last_frame.is_none() {
                        effects.push(ScrollEffect::RequestRedrawAt(now.after_frame()));
                    }
                }
            },
            _ => {},
        }
        assert(effects@ =~= step.effects);
        effects
    }
}

/// What settling an event asks for.
pub open spec fn settle_effects<S: Arithmetic>(
    s: State<S>,
    scene: Scene<S>,
    status: Status<S>,
    last_status: Option<Status<S>>,
    hover_changed: bool,
    now: Instant,
    motion: Motion<S>,
) -> Seq<ScrollEffect<S>> {
    let next = match s.next_frame(now, motion) {
        Some(at) => seq![ScrollEffect::RequestRedrawAt(at)],
        None => Seq::empty(),
    };
    let hover = if hover_changed {
        next
    } else {
        Seq::empty()
    };
    if !(scene.offset_x.agrees(s.offset_x) && scene.offset_y.agrees(s.offset_y)) {
        hover.push(ScrollEffect::RequestRedraw)
    } else if last_status is Some && statuses_differ(last_status->0, status) {
        hover + next
    } else {
        hover
    }
}

/// Takes note of whether the cursor is over the scrollable, and tells whether that has changed
/// and the hover animation has to turn around.
pub fn enter_hover<S: Scalar>(state: &mut State<S>, scene: &Scene<S>) -> (changed: bool)
    ensures
        changed == (old(state).is_mouse_over_area != (scene.over is Some)),
        *final(state) == (State { is_mouse_over_area: scene.over is Some, ..*old(state) }),
{
    let over: bool = scene.over.is_some();
    if over != state.is_mouse_over_area {
        state.is_mouse_over_area = over;
        true
    } else {
        false
    }
}

impl<S: Scalar, V, F, C, I> VirtualScrollable<S, V, F, C, I> {
    /// Closes the handling of an event. The status is remembered with each new frame. Another
    /// frame is asked for when the content was scrolled, or when the status has changed while
    /// something moves.
    pub fn settle(
        &mut self,
        state: &State<S>,
        event: &Event<S>,
        scene: &Scene<S>,
        hover_changed: bool,
        now: Instant,
        motion: &Motion<S>,
    ) -> (effects: Vec<ScrollEffect<S>>)
        requires
            now.has_next_frame(),
        ensures
            ({
                let status = scene.status_of(*state, motion.hover_factor);
                let last_status = if event is RedrawRequested {
                    Some(status)
                } else {
                    old(self).last_status
                };
                &&& *final(self) == (VirtualScrollable { last_status, ..*old(self) })
                &&& effects@ == settle_effects(
                    *state,
                    *scene,
                    status,
                    last_status,
                    hover_changed && !(event is RedrawRequested),
                    now,
                    *motion,
                )
            }),
    {
        let mut effects: Vec<ScrollEffect<S>> = Vec::new();
        let is_redraw: bool = match event {
            Event::RedrawRequested(_) => true,
            _ => false,
        };
        let next: Option<Instant> = state.next_redraw_instant(now, motion);
        if hover_changed && !is_redraw {
            if let Some(at) = next {
                effects.push(ScrollEffect::RequestRedrawAt(at));
            }
        }
        let status: Status<S> = scene.status(state, motion.hover_factor);
        if is_redraw {
            self.last_status = Some(status);
        }
        if !(scene.offset_x.equals(state.offset_x) && scene.offset_y.equals(state.offset_y)) {
            effects.push(ScrollEffect::RequestRedraw);
        } else {
            let changed: bool = match &self.last_status {
                Some(last) => status_fields_changed(last, &status),
                None => false,
            };
            if changed {
                if let Some(at) = next {
                    effects.push(ScrollEffect::RequestRedrawAt(at));
                }
            }
        }
        assert(effects@ =~= settle_effects(
            *state,
            *scene,
            status,
            self.last_status,
            hover_changed && !is_redraw,
            now,
            *motion,
        ));
        effects
    }
}

} // verus!
