//! How a virtual scrollable reacts to events.
//!
//! An event is handled in steps. `begin` tracks the pointer and drags scrollers, and says
//! whether the content sees the event; the front end hands the event on. `react` handles what
//! the content left, and `settle` closes the event.
use vstd::prelude::*;

use crate::event::{Button, Event, MouseEvent, TouchEvent};
use crate::geometry::{Cursor, Point, Rectangle, Size, Vector};
use crate::scalar::{Arithmetic, Scalar};
use crate::scrolling::scrollable::Direction;
use crate::scrolling::virtual_scrollable::notify::{notify_scroll, ScrollEffect};
use crate::scrolling::virtual_scrollable::offset::Offset;
use crate::scrolling::virtual_scrollable::scene::{find_visible_part, visible_part, Scene};
use crate::scrolling::virtual_scrollable::state::{Interaction, State};
use crate::scrolling::virtual_scrollable::VirtualScrollable;
use crate::time::Instant;

verus! {

/// How long after scrolling a moving cursor ends a transaction, in nanoseconds.
pub const CURSOR_GRACE_NANOS: u64 = 100_000_000;

/// How long after scrolling any event ends a transaction, in nanoseconds.
pub const SCROLL_GRACE_NANOS: u64 = 1_500_000_000;

/// How the content is updated with an event.
#[derive(Clone, Copy, Debug)]
pub struct Forward<S> {
    /// The cursor as the content sees it.
    pub cursor: Cursor<S>,
    /// The part of the content that is visible.
    pub viewport: Rectangle<S>,
    /// Whether the content that is kept fits that viewport.
    pub from_cache: bool,
}

/// How the handling of an event goes on.
#[derive(Clone, Copy, Debug)]
pub enum Next<S> {
    /// The event is done.
    Finish,
    /// The event only has to be settled.
    Settle,
    /// The content sees the event, then it is reacted to.
    Forward(Forward<S>),
    /// The event is reacted to.
    React,
}

/// The outcome of the first step.
#[derive(Debug)]
pub struct Begun<S> {
    pub effects: Vec<ScrollEffect<S>>,
    pub next: Next<S>,
}

/// A state together with what has been asked for.
#[verifier::ext_equal]
pub struct Step<S> {
    pub state: State<S>,
    pub effects: Seq<ScrollEffect<S>>,
    /// Whether the event is not to be handled any further.
    pub stop: bool,
}

/// The wishes of a scrollable that its reactions depend on.
#[derive(Clone, Copy, Debug)]
pub struct Wishes<S> {
    pub direction: Direction<S>,
    /// Whether viewports are reported.
    pub reports: bool,
    /// Whether the middle button starts scrolling away from the cursor.
    pub auto_scroll: bool,
    /// Whether the platform itself turns a wheel sideways while shift is held.
    pub swaps_wheel: bool,
}

/// Whether an event presses a button or puts a finger down.
pub open spec fn presses<S>(event: Event<S>) -> bool {
    ||| event matches Event::Mouse(MouseEvent::ButtonPressed { .. })
    ||| event matches Event::Touch(TouchEvent::FingerPressed { .. })
}

/// Whether an event releases a button or a finger.
pub open spec fn lets_go<S>(event: Event<S>) -> bool {
    ||| event matches Event::Mouse(MouseEvent::ButtonReleased { .. })
    ||| event matches Event::Touch(TouchEvent::FingerLifted { .. })
    ||| event matches Event::Touch(TouchEvent::FingerLost { .. })
}

/// Whether an event releases the left button or a finger.
pub open spec fn ends_drag<S>(event: Event<S>) -> bool {
    ||| event matches Event::Mouse(MouseEvent::ButtonReleased { button: Button::Left })
    ||| event matches Event::Touch(TouchEvent::FingerLifted { .. })
    ||| event matches Event::Touch(TouchEvent::FingerLost { .. })
}

/// Whether an event starts a drag: the left button or a finger goes down.
pub open spec fn starts_drag<S>(event: Event<S>) -> bool {
    ||| event matches Event::Mouse(MouseEvent::ButtonPressed { button: Button::Left })
    ||| event matches Event::Touch(TouchEvent::FingerPressed { .. })
}

/// Whether an event moves the cursor or a finger.
pub open spec fn moves_pointer<S>(event: Event<S>) -> bool {
    ||| event matches Event::Mouse(MouseEvent::CursorMoved { .. })
    ||| event matches Event::Touch(TouchEvent::FingerMoved { .. })
}

/// Whether an event turns the wheel.
pub open spec fn turns_wheel<S>(event: Event<S>) -> bool {
    event matches Event::Mouse(MouseEvent::WheelScrolled { .. })
}

/// Whether an event cancels scrolling away from the cursor.
pub open spec fn cancels_auto_scroll<S>(event: Event<S>) -> bool {
    ||| event matches Event::Mouse(MouseEvent::ButtonPressed { .. })
    ||| turns_wheel(event)
    ||| event is Touch
    ||| event is Keyboard
}

/// Whether an event belongs to the window.
pub open spec fn is_window_event<S>(event: Event<S>) -> bool {
    event is RedrawRequested || event is Window
}

/// Whether an event ends a series of scroll events that belong together.
pub open spec fn ends_transaction<S>(event: Event<S>, since_scroll: int) -> bool {
    match event {
        Event::Mouse(MouseEvent::ButtonPressed { .. }) => true,
        Event::Mouse(MouseEvent::ButtonReleased { .. }) => true,
        Event::Mouse(MouseEvent::CursorLeft) => true,
        Event::Mouse(MouseEvent::CursorMoved { .. }) => since_scroll > CURSOR_GRACE_NANOS,
        _ => since_scroll > SCROLL_GRACE_NANOS,
    }
}

fn is_start_of_drag<S>(event: &Event<S>) -> (r: bool)
    ensures
        r == starts_drag(*event),
{
    match event {
        Event::Mouse(MouseEvent::ButtonPressed { button: Button::Left }) => true,
        Event::Touch(TouchEvent::FingerPressed { .. }) => true,
        _ => false,
    }
}

pub(crate) fn is_end_of_drag<S>(event: &Event<S>) -> (r: bool)
    ensures
        r == ends_drag(*event),
{
    match event {
        Event::Mouse(MouseEvent::ButtonReleased { button: Button::Left }) => true,
        Event::Touch(TouchEvent::FingerLifted { .. }) => true,
        Event::Touch(TouchEvent::FingerLost { .. }) => true,
        _ => false,
    }
}

fn is_pointer_motion<S>(event: &Event<S>) -> (r: bool)
    ensures
        r == moves_pointer(*event),
{
    match event {
        Event::Mouse(MouseEvent::CursorMoved { .. }) => true,
        Event::Touch(TouchEvent::FingerMoved { .. }) => true,
        _ => false,
    }
}

fn is_wheel<S>(event: &Event<S>) -> (r: bool)
    ensures
        r == turns_wheel(*event),
{
    match event {
        Event::Mouse(MouseEvent::WheelScrolled { .. }) => true,
        _ => false,
    }
}

fn is_cancelling<S>(event: &Event<S>) -> (r: bool)
    ensures
        r == cancels_auto_scroll(*event),
{
    match event {
        Event::Mouse(MouseEvent::ButtonPressed { .. }) => true,
        Event::Mouse(MouseEvent::WheelScrolled { .. }) => true,
        Event::Touch(_) => true,
        Event::Keyboard(_) => true,
        _ => false,
    }
}

impl<S: Arithmetic> State<S> {
    /// The state with the pointer tracked.
    pub open spec fn tracking(self, event: Event<S>) -> Self {
        State {
            is_pointer_down: if presses(event) {
                true
            } else if lets_go(event) {
                false
            } else {
                self.is_pointer_down
            },
            ..self
        }
    }

    /// The state with a transaction ended, where an event ends it.
    pub open spec fn in_transaction(self, event: Event<S>, now: Instant) -> Self {
        State {
            last_scrolled: match self.last_scrolled {
                Some(last) => if ends_transaction(event, now.span_since(last)) {
                    None
                } else {
                    Some(last)
                },
                None => None,
            },
            ..self
        }
    }

    /// The state scrolled vertically to where the cursor drags the scroller.
    pub open spec fn dragged_y(
        self,
        share: S,
        bounds: Rectangle<S>,
        content_bounds: Rectangle<S>,
    ) -> Self {
        (State { offset_y: Offset::at_share(share), ..self }).unsnapped(bounds, content_bounds)
    }

    /// The state scrolled horizontally to where the cursor drags the scroller.
    pub open spec fn dragged_x(
        self,
        share: S,
        bounds: Rectangle<S>,
        content_bounds: Rectangle<S>,
    ) -> Self {
        (State { offset_x: Offset::at_share(share), ..self }).unsnapped(bounds, content_bounds)
    }
}

/// What an event does to the vertical scroller. A held scroller follows the pointer; pressing on
/// the scrollbar grabs it, and scrolls to the pointer.
pub open spec fn drag_y_step<S: Arithmetic>(
    s: State<S>,
    reports: bool,
    scene: Scene<S>,
    event: Event<S>,
    cursor: Cursor<S>,
    now: Instant,
) -> Step<S> {
    let idle = Step { state: s, effects: Seq::empty(), stop: false };
    match s.interaction {
        Interaction::YScrollerGrabbed(at) => if moves_pointer(event) && scene.scrollbars.y is Some {
            match cursor.landed().spot() {
                None => Step { stop: true, ..idle },
                Some(p) => {
                    let moved = s.dragged_y(
                        scene.scrollbars.y->0.share_y(at, p),
                        scene.viewport_bounds,
                        scene.content_bounds,
                    );
                    Step {
                        state: moved.reported_scroll(scene.bounds, scene.content_bounds, now),
                        effects: moved.report(reports, scene.bounds, scene.content_bounds).push(
                            ScrollEffect::CaptureEvent,
                        ),
                        stop: false,
                    }
                },
            }
        } else {
            idle
        },
        _ => if scene.over_y_scrollbar && starts_drag(event) {
            match cursor.spot() {
                None => Step { stop: true, ..idle },
                Some(p) => match scene.scrollbars.grabbed_y(p) {
                    Some(at) => {
                        let moved = State {
                            interaction: Interaction::YScrollerGrabbed(at),
                            ..s.dragged_y(
                                scene.scrollbars.y->0.share_y(at, p),
                                scene.bounds,
                                scene.content_bounds,
                            )
                        };
                        Step {
                            state: moved.reported_scroll(scene.bounds, scene.content_bounds, now),
                            effects: moved.report(
                                reports,
                                scene.bounds,
                                scene.content_bounds,
                            ).push(ScrollEffect::CaptureEvent),
                            stop: false,
                        }
                    },
                    None => Step { effects: seq![ScrollEffect::CaptureEvent], ..idle },
                },
            }
        } else {
            idle
        },
    }
}

/// What an event does to the horizontal scroller.
pub open spec fn drag_x_step<S: Arithmetic>(
    s: State<S>,
    reports: bool,
    scene: Scene<S>,
    event: Event<S>,
    cursor: Cursor<S>,
    now: Instant,
) -> Step<S> {
    let idle = Step { state: s, effects: Seq::empty(), stop: false };
    match s.interaction {
        Interaction::XScrollerGrabbed(at) => if moves_pointer(event) {
            match cursor.landed().spot() {
                None => Step { stop: true, ..idle },
                Some(p) => match scene.scrollbars.x {
                    Some(scrollbar) => {
                        let moved = s.dragged_x(
                            scrollbar.share_x(at, p),
                            scene.viewport_bounds,
                            scene.content_bounds,
                        );
                        Step {
                            state: moved.reported_scroll(scene.bounds, scene.content_bounds, now),
                            effects: moved.report(
                                reports,
                                scene.bounds,
                                scene.content_bounds,
                            ).push(ScrollEffect::CaptureEvent),
                            stop: false,
                        }
                    },
                    None => Step { effects: seq![ScrollEffect::CaptureEvent], ..idle },
                },
            }
        } else {
            idle
        },
        _ => if scene.over_x_scrollbar && starts_drag(event) {
            match cursor.spot() {
                None => Step { stop: true, ..idle },
                Some(p) => match scene.scrollbars.grabbed_x(p) {
                    Some(at) => {
                        let moved = State {
                            interaction: Interaction::XScrollerGrabbed(at),
                            ..s.dragged_x(
                                scene.scrollbars.x->0.share_x(at, p),
                                scene.bounds,
                                scene.content_bounds,
                            )
                        };
                        Step {
                            state: moved.reported_scroll(scene.bounds, scene.content_bounds, now),
                            effects: moved.report(
                                reports,
                                scene.bounds,
                                scene.content_bounds,
                            ).push(ScrollEffect::CaptureEvent),
                            stop: false,
                        }
                    },
                    None => idle,
                },
            }
        } else {
            idle
        },
    }
}

/// What an event does to both scrollers.
pub open spec fn drag_step<S: Arithmetic>(
    s: State<S>,
    reports: bool,
    scene: Scene<S>,
    event: Event<S>,
    cursor: Cursor<S>,
    now: Instant,
) -> Step<S> {
    let first = drag_y_step(s, reports, scene, event, cursor, now);
    if first.stop {
        first
    } else {
        let second = drag_x_step(first.state, reports, scene, event, cursor, now);
        Step { effects: first.effects + second.effects, ..second }
    }
}

/// Whether two viewports are too close to tell apart.
pub open spec fn is_near<S: Arithmetic>(a: Rectangle<S>, b: Rectangle<S>) -> bool {
    let limit = S::fraction(1, 100);
    &&& a.x.difference(b.x).magnitude().at_most(limit)
    &&& a.y.difference(b.y).magnitude().at_most(limit)
    &&& a.width.difference(b.width).magnitude().at_most(limit)
    &&& a.height.difference(b.height).magnitude().at_most(limit)
}

/// Tests whether two viewports are too close to tell apart.
pub fn are_near<S: Scalar>(a: &Rectangle<S>, b: &Rectangle<S>) -> (r: bool)
    ensures
        r == is_near(*a, *b),
{
    let limit: S = S::ratio(1, 100);
    a.x.minus(b.x).abs().le(limit) && a.y.minus(b.y).abs().le(limit) && a.width.minus(
        b.width,
    ).abs().le(limit) && a.height.minus(b.height).abs().le(limit)
}

/// Whether the content sees an event: not what belongs to the window, and not a wheel that turns
/// within a series of scroll events.
pub open spec fn reaches_content<S: Arithmetic>(s: State<S>, event: Event<S>) -> bool {
    (s.last_scrolled is None || !turns_wheel(event)) && !is_window_event(event)
}

/// How the content sees an event.
pub open spec fn forward_of<S: Arithmetic>(
    s: State<S>,
    direction: Direction<S>,
    scene: Scene<S>,
    cursor: Cursor<S>,
    cached: Option<Rectangle<S>>,
) -> Forward<S> {
    let viewport = visible_part(
        s.shifted(direction, scene.bounds, scene.content_bounds),
        Size { width: scene.viewport_bounds.width, height: scene.viewport_bounds.height },
        Size { width: scene.content_bounds.width, height: scene.content_bounds.height },
    );
    Forward {
        cursor: scene.content_cursor(cursor),
        viewport,
        from_cache: cached is Some && is_near(cached->0, viewport),
    }
}

/// The state when an event is seen: the pointer tracked and transactions ended.
pub open spec fn seen<S: Arithmetic>(s: State<S>, event: Event<S>, now: Instant) -> State<S> {
    s.tracking(event).in_transaction(event, now)
}

/// The outcome of the first step on an event.
pub open spec fn begin_step<S: Arithmetic>(
    s: State<S>,
    reports: bool,
    scene: Scene<S>,
    event: Event<S>,
    cursor: Cursor<S>,
    now: Instant,
) -> Step<S> {
    let s1 = seen(s, event, now);
    if s1.interaction is AutoScrolling && cancels_auto_scroll(event) {
        Step {
            state: State { interaction: Interaction::Idle, ..s1 },
            effects: seq![ScrollEffect::CaptureEvent, ScrollEffect::RequestRedraw],
            stop: true,
        }
    } else {
        drag_step(s1, reports, scene, event, cursor, now)
    }
}

/// How the handling of an event goes on after the first step.
pub open spec fn next_of<S: Arithmetic>(
    s: State<S>,
    wishes: Wishes<S>,
    scene: Scene<S>,
    event: Event<S>,
    cursor: Cursor<S>,
    cached: Option<Rectangle<S>>,
    now: Instant,
) -> Next<S> {
    let s1 = seen(s, event, now);
    let begun = begin_step(s, wishes.reports, scene, event, cursor, now);
    if s1.interaction is AutoScrolling && cancels_auto_scroll(event) {
        Next::Finish
    } else if begun.stop {
        Next::Settle
    } else if reaches_content(begun.state, event) {
        Next::Forward(forward_of(begun.state, wishes.direction, scene, cursor, cached))
    } else {
        Next::React
    }
}

fn track_pointer<S: Scalar>(state: &mut State<S>, event: &Event<S>)
    ensures
        *final(state) == old(state).tracking(*event),
{
    match event {
        Event::Mouse(MouseEvent::ButtonPressed { .. }) => {
            state.is_pointer_down = true;
        },
        Event::Touch(TouchEvent::FingerPressed { .. }) => {
            state.is_pointer_down = true;
        },
        Event::Mouse(MouseEvent::ButtonReleased { .. }) => {
            state.is_pointer_down = false;
        },
        Event::Touch(TouchEvent::FingerLifted { .. }) => {
            state.is_pointer_down = false;
        },
        Event::Touch(TouchEvent::FingerLost { .. }) => {
            state.is_pointer_down = false;
        },
        _ => {},
    }
}

fn end_transaction<S: Scalar>(state: &mut State<S>, event: &Event<S>, now: Instant)
    ensures
        *final(state) == old(state).in_transaction(*event, now),
{
    if let Some(last) = state.last_scrolled {
        let elapsed: u64 = now.since(last);
        let ends: bool = match event {
            Event::Mouse(MouseEvent::ButtonPressed { .. }) => true,
            Event::Mouse(MouseEvent::ButtonReleased { .. }) => true,
            Event::Mouse(MouseEvent::CursorLeft) => true,
            Event::Mouse(MouseEvent::CursorMoved { .. }) => elapsed > CURSOR_GRACE_NANOS,
            _ => elapsed > SCROLL_GRACE_NANOS,
        };
        if ends {
            state.last_scrolled = None;
        }
    }
}

fn drag_y<S: Scalar>(
    state: &mut State<S>,
    reports: bool,
    scene: &Scene<S>,
    event: &Event<S>,
    cursor: Cursor<S>,
    now: Instant,
    effects: &mut Vec<ScrollEffect<S>>,
) -> (stop: bool)
    ensures
        ({
            let step = drag_y_step(*old(state), reports, *scene, *event, cursor, now);
            &&& *final(state) == step.state
            &&& final(effects)@ == old(effects)@ + step.effects
            &&& stop == step.stop
        }),
{
    let ghost step = drag_y_step(*state, reports, *scene, *event, cursor, now);
    let ghost before = effects@;
    if let Some(at) = state.y_scroller_grabbed_at() {
        if is_pointer_motion(event) {
            if let Some(scrollbar) = scene.scrollbars.y {
                let position: Option<Point<S>> = cursor.land().position();
                if position.is_none() {
                    assert(effects@ =~= before + step.effects);
                    return true;
                }
                let p: Point<S> = position.unwrap();
                state.scroll_y_to(
                    scrollbar.scroll_percentage_y(at, p),
                    scene.viewport_bounds,
                    scene.content_bounds,
                );
                let _ = notify_scroll(
                    state,
                    reports,
                    scene.bounds,
                    scene.content_bounds,
                    now,
                    effects,
                );
                effects.push(ScrollEffect::CaptureEvent);
            }
        }
    } else if scene.over_y_scrollbar && is_start_of_drag(event) {
        let position: Option<Point<S>> = cursor.position();
        if position.is_none() {
            assert(effects@ =~= before + step.effects);
            return true;
        }
        let p: Point<S> = position.unwrap();
        if let (Some(at), Some(scrollbar)) = (scene.scrollbars.grab_y_scroller(p), scene.scrollbars.y) {
            state.scroll_y_to(
                scrollbar.scroll_percentage_y(at, p),
                scene.bounds,
                scene.content_bounds,
            );
            state.interaction = Interaction::YScrollerGrabbed(at);
            let _ = notify_scroll(
                state,
                reports,
                scene.bounds,
                scene.content_bounds,
                now,
                effects,
            );
        }
        effects.push(ScrollEffect::CaptureEvent);
    }
    assert(effects@ =~= before + step.effects);
    false
}

fn drag_x<S: Scalar>(
    state: &mut State<S>,
    reports: bool,
    scene: &Scene<S>,
    event: &Event<S>,
    cursor: Cursor<S>,
    now: Instant,
    effects: &mut Vec<ScrollEffect<S>>,
) -> (stop: bool)
    ensures
        ({
            let step = drag_x_step(*old(state), reports, *scene, *event, cursor, now);
            &&& *final(state) == step.state
            &&& final(effects)@ == old(effects)@ + step.effects
            &&& stop == step.stop
        }),
{
    let ghost step = drag_x_step(*state, reports, *scene, *event, cursor, now);
    let ghost before = effects@;
    if let Some(at) = state.x_scroller_grabbed_at() {
        if is_pointer_motion(event) {
            let position: Option<Point<S>> = cursor.land().position();
            if position.is_none() {
                assert(effects@ =~= before + step.effects);
                return true;
            }
            let p: Point<S> = position.unwrap();
            if let Some(scrollbar) = scene.scrollbars.x {
                state.scroll_x_to(
                    scrollbar.scroll_percentage_x(at, p),
                    scene.viewport_bounds,
                    scene.content_bounds,
                );
                let _ = notify_scroll(
                    state,
                    reports,
                    scene.bounds,
                    scene.content_bounds,
                    now,
                    effects,
                );
            }
            effects.push(ScrollEffect::CaptureEvent);
        }
    } else if scene.over_x_scrollbar && is_start_of_drag(event) {
        let position: Option<Point<S>> = cursor.position();
        if position.is_none() {
            assert(effects@ =~= before + step.effects);
            return true;
        }
        let p: Point<S> = position.unwrap();
        if let (Some(at), Some(scrollbar)) = (scene.scrollbars.grab_x_scroller(p), scene.scrollbars.x) {
            state.scroll_x_to(
                scrollbar.scroll_percentage_x(at, p),
                scene.bounds,
                scene.content_bounds,
            );
            state.interaction = Interaction::XScrollerGrabbed(at);
            let _ = notify_scroll(
                state,
                reports,
                scene.bounds,
                scene.content_bounds,
                now,
                effects,
            );
            effects.push(ScrollEffect::CaptureEvent);
        }
    }
    assert(effects@ =~= before + step.effects);
    false
}

impl<S: Arithmetic, V, F, C, I> VirtualScrollable<S, V, F, C, I> {
    /// The wishes of the scrollable.
    pub open spec fn wishes(self, swaps_wheel: bool) -> Wishes<S> {
        Wishes {
            direction: self.direction,
            reports: self.on_scroll is Some,
            auto_scroll: self.auto_scroll,
            swaps_wheel,
        }
    }
}

impl<S: Scalar, V, F, C, I> VirtualScrollable<S, V, F, C, I> {
    /// Gives the wishes of the scrollable.
    pub fn find_wishes(&self, swaps_wheel: bool) -> (r: Wishes<S>)
        ensures
            r == self.wishes(swaps_wheel),
    {
        Wishes {
            direction: self.direction,
            reports: self.on_scroll.is_some(),
            auto_scroll: self.auto_scroll,
            swaps_wheel,
        }
    }

    /// Takes the first step on an event. Content that has to be built for the event is the
    /// content that is kept from then on.
    pub fn begin(
        &mut self,
        state: &mut State<S>,
        event: &Event<S>,
        scene: &Scene<S>,
        cursor: Cursor<S>,
        now: Instant,
    ) -> (r: Begun<S>)
        ensures
            ({
                let reports = old(self).on_scroll is Some;
                let begun = begin_step(*old(state), reports, *scene, *event, cursor, now);
                let next = next_of(
                    *old(state),
                    old(self).wishes(false),
                    *scene,
                    *event,
                    cursor,
                    old(self).cached_content,
                    now,
                );
                &&& *final(state) == begun.state
                &&& r.effects@ == begun.effects
                &&& r.next == next
                &&& *final(self) == (VirtualScrollable {
                    cached_content: match next {
                        Next::Forward(forward) => if forward.from_cache {
                            old(self).cached_content
                        } else {
                            Some(forward.viewport)
                        },
                        _ => old(self).cached_content,
                    },
                    ..*old(self)
                })
            }),
    {
        let mut effects: Vec<ScrollEffect<S>> = Vec::new();
        let reports: bool = self.on_scroll.is_some();
        track_pointer(state, event);
        end_transaction(state, event, now);
        if let Interaction::AutoScrolling { .. } = state.interaction {
            if is_cancelling(event) {
                state.interaction = Interaction::Idle;
                effects.push(ScrollEffect::CaptureEvent);
                effects.push(ScrollEffect::RequestRedraw);
                return Begun { effects, next: Next::Finish };
            }
        }
        let ghost s1 = *state;
        if drag_y(state, reports, scene, event, cursor, now, &mut effects) {
            assert(effects@ =~= drag_step(s1, reports, *scene, *event, cursor, now).effects);
            return Begun { effects, next: Next::Settle };
        }
        let stop: bool = drag_x(state, reports, scene, event, cursor, now, &mut effects);
        assert(effects@ =~= drag_step(s1, reports, *scene, *event, cursor, now).effects);
        if stop {
            return Begun { effects, next: Next::Settle };
        }
        let window: bool = match event {
            Event::RedrawRequested(_) => true,
            Event::Window => true,
            _ => false,
        };
        if (state.last_scrolled.is_none() || !is_wheel(event)) && !window {
            let translation: Vector<S> = state.translation(
                self.direction,
                scene.bounds,
                scene.content_bounds,
            );
            let viewport: Rectangle<S> = find_visible_part(
                translation,
                Size { width: scene.viewport_bounds.width, height: scene.viewport_bounds.height },
                Size { width: scene.content_bounds.width, height: scene.content_bounds.height },
            );
            let from_cache: bool = match &self.cached_content {
                Some(cached) => are_near(cached, &viewport),
                None => false,
            };
            if !from_cache {
                self.cached_content = Some(viewport);
            }
            let cursor: Cursor<S> = scene.find_content_cursor(cursor);
            return Begun {
                effects,
                next: Next::Forward(Forward { cursor, viewport, from_cache }),
            };
        }
        Begun { effects, next: Next::React }
    }
}

} // verus!
