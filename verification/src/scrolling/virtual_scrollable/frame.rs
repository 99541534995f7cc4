//! What moves by itself, from frame to frame.
use vstd::prelude::*;

use crate::event::Event;
use crate::geometry::{Point, Vector};
use crate::scalar::{whole, zero, Arithmetic, Scalar};
use crate::scrolling::virtual_scrollable::notify::{notify_scroll, notify_viewport, ScrollEffect};
use crate::scrolling::virtual_scrollable::react::DEAD_ZONE;
use crate::scrolling::virtual_scrollable::scene::Scene;
use crate::scrolling::virtual_scrollable::state::{Interaction, Motion, State};
use crate::scrolling::virtual_scrollable::update::{Step, Wishes};
use crate::scrolling::virtual_scrollable::VirtualScrollable;
use crate::time::Instant;

verus! {

/// What a frame is computed with, beside the state.
#[derive(Clone, Copy, Debug)]
pub struct Frame<S> {
    /// The moment that the frame is for.
    pub now: Instant,
    /// The moment at which it is computed.
    pub clock: Instant,
    /// How strongly the distance from its origin, as `auto_scroll_distance` gives it, moves the
    /// content while it scrolls away from the cursor.
    pub pull: Vector<S>,
    /// How much of the speed friction leaves over `kinetic_time`.
    pub decay: S,
    pub motion: Motion<S>,
}

/// A distance that counts: nothing within the dead zone.
pub open spec fn beyond_dead_zone<S: Arithmetic>(delta: S) -> S {
    if delta.magnitude().below(whole(DEAD_ZONE as int)) {
        zero()
    } else {
        delta
    }
}

/// How far the cursor is from where it started scrolling, beyond the dead zone.
pub open spec fn auto_distance<S: Arithmetic>(origin: Point<S>, current: Point<S>) -> Vector<S> {
    Vector {
        x: beyond_dead_zone(current.x.difference(origin.x)),
        y: beyond_dead_zone(current.y.difference(origin.y)),
    }
}

fn find_auto_distance<S: Scalar>(origin: Point<S>, current: Point<S>) -> (r: Vector<S>)
    ensures
        r == auto_distance(origin, current),
{
    let mut delta: Vector<S> = Vector {
        x: current.x.minus(origin.x),
        y: current.y.minus(origin.y),
    };
    if delta.x.abs().lt(S::ratio(DEAD_ZONE, 1)) {
        delta.x = S::ratio(0, 1);
    }
    if delta.y.abs().lt(S::ratio(DEAD_ZONE, 1)) {
        delta.y = S::ratio(0, 1);
    }
    delta
}

/// The state after the content has scrolled away from the cursor, and what that reports.
pub open spec fn auto_scroll_step<S: Arithmetic>(
    s: State<S>,
    wishes: Wishes<S>,
    scene: Scene<S>,
    frame: Frame<S>,
) -> Step<S> {
    match s.interaction {
        Interaction::AutoScrolling { origin, current, last_frame } => {
            let waiting = State {
                interaction: Interaction::AutoScrolling { origin, current, last_frame: None },
                ..s
            };
            let delta = auto_distance(origin, current);
            if delta.x.same(zero()) && delta.y.same(zero()) {
                Step { state: waiting, effects: Seq::empty(), stop: false }
            } else {
                let span = match last_frame {
                    Some(last) => frame.now.span_since(last),
                    None => 0,
                };
                let seconds = S::seconds(span);
                let moved = waiting.scrolled(
                    wishes.direction.aligned(
                        Vector {
                            x: delta.x.sign().product(frame.pull.x).product(seconds),
                            y: delta.y.sign().product(frame.pull.y).product(seconds),
                        },
                    ),
                    scene.viewport_bounds,
                    scene.content_bounds,
                );
                let news = moved.is_news(scene.viewport_bounds, scene.content_bounds);
                let after = moved.reported_scroll(
                    scene.viewport_bounds,
                    scene.content_bounds,
                    frame.clock,
                );
                Step {
                    state: if news || span == 0 {
                        State {
                            interaction: Interaction::AutoScrolling {
                                origin,
                                current,
                                last_frame: Some(frame.now),
                            },
                            ..after
                        }
                    } else {
                        after
                    },
                    effects: moved.report(
                        wishes.reports,
                        scene.viewport_bounds,
                        scene.content_bounds,
                    ),
                    stop: false,
                }
            }
        },
        _ => Step { state: s, effects: Seq::empty(), stop: false },
    }
}

/// The state after the content has moved on its own, and what that reports.
pub open spec fn coast_step<S: Arithmetic>(
    s: State<S>,
    wishes: Wishes<S>,
    scene: Scene<S>,
    frame: Frame<S>,
) -> Step<S> {
    if s.is_coasting() {
        let moved = s.coasted(
            frame.now,
            frame.decay,
            scene.viewport_bounds,
            scene.content_bounds,
        );
        if s.is_slow() || moved.is_level_with(s) {
            Step { state: moved, effects: Seq::empty(), stop: false }
        } else {
            Step {
                state: moved.reported_scroll(
                    scene.viewport_bounds,
                    scene.content_bounds,
                    frame.clock,
                ),
                effects: moved.report(wishes.reports, scene.viewport_bounds, scene.content_bounds),
                stop: false,
            }
        }
    } else {
        Step { state: s, effects: Seq::empty(), stop: false }
    }
}

/// The state after an animated scroll has moved on, and what that reports. A scroll that is over
/// has arrived: its last move is reported with the frame.
pub open spec fn animate_step<S: Arithmetic>(
    s: State<S>,
    wishes: Wishes<S>,
    scene: Scene<S>,
    frame: Frame<S>,
) -> Step<S> {
    let moved = s.animated(
        frame.motion.scroll_running,
        frame.motion.scroll_progress,
        scene.viewport_bounds,
        scene.content_bounds,
    );
    if s.has_animated_scroll() && frame.motion.scroll_running {
        Step {
            state: moved.reported_scroll(
                scene.viewport_bounds,
                scene.content_bounds,
                frame.clock,
            ),
            effects: moved.report(wishes.reports, scene.viewport_bounds, scene.content_bounds),
            stop: false,
        }
    } else {
        Step { state: moved, effects: Seq::empty(), stop: false }
    }
}

/// The request for the next frame, where something moves by itself.
pub open spec fn next_frame_request<S: Arithmetic>(s: State<S>, frame: Frame<S>) -> Seq<
    ScrollEffect<S>,
> {
    match s.next_frame(frame.now, frame.motion) {
        Some(at) => seq![ScrollEffect::RequestRedrawAt(at)],
        None => Seq::empty(),
    }
}

/// Whether scrolling away from the cursor has been computed for a frame already.
pub open spec fn is_repeated<S: Arithmetic>(s: State<S>, now: Instant) -> bool {
    s.interaction matches Interaction::AutoScrolling { last_frame, .. } && last_frame == Some(now)
}

/// What a new frame does: what moves by itself moves on, and each new viewport is reported. A
/// frame that scrolling away from the cursor has been computed for already does nothing.
pub open spec fn frame_step<S: Arithmetic>(
    s: State<S>,
    wishes: Wishes<S>,
    scene: Scene<S>,
    frame: Frame<S>,
) -> Step<S> {
    if is_repeated(s, frame.now) {
        Step { state: s, effects: next_frame_request(s, frame), stop: false }
    } else {
        let first = auto_scroll_step(s, wishes, scene, frame);
        let second = coast_step(first.state, wishes, scene, frame);
        let third = animate_step(second.state, wishes, scene, frame);
        let last = third.state.reported(scene.viewport_bounds, scene.content_bounds);
        Step {
            state: last,
            effects: first.effects + second.effects + third.effects + third.state.report(
                wishes.reports,
                scene.viewport_bounds,
                scene.content_bounds,
            ) + next_frame_request(last, frame),
            stop: false,
        }
    }
}

impl<S: Scalar> State<S> {
    /// Gives how far the cursor is from where it started scrolling, beyond the dead zone.
    pub fn auto_scroll_distance(&self) -> (r: Option<Vector<S>>)
        ensures
            r == (match self.interaction {
                Interaction::AutoScrolling { origin, current, .. } => Some(
                    auto_distance(origin, current),
                ),
                _ => None,
            }),
    {
        match self.interaction {
            Interaction::AutoScrolling { origin, current, .. } => Some(
                find_auto_distance(origin, current),
            ),
            _ => None,
        }
    }
}

fn scroll_away<S: Scalar>(
    state: &mut State<S>,
    wishes: &Wishes<S>,
    scene: &Scene<S>,
    frame: &Frame<S>,
    effects: &mut Vec<ScrollEffect<S>>,
)
    ensures
        *final(state) == auto_scroll_step(*old(state), *wishes, *scene, *frame).state,
        final(effects)@ == old(effects)@ + auto_scroll_step(
            *old(state),
            *wishes,
            *scene,
            *frame,
        ).effects,
{
    let ghost step = auto_scroll_step(*state, *wishes, *scene, *frame);
    let ghost before = effects@;
    if let Interaction::AutoScrolling { origin, current, last_frame } = state.interaction {
        state.interaction = Interaction::AutoScrolling { origin, current, last_frame: None };
        let delta: Vector<S> = find_auto_distance(origin, current);
        if !delta.x.eq(S::ratio(0, 1)) || !delta.y.eq(S::ratio(0, 1)) {
            let span: u64 = match last_frame {
                Some(last) => frame.now.since(last),
                None => 0,
            };
            let seconds: S = S::from_nanos(span);
            state.scroll(
                wishes.direction.align(
                    Vector {
                        x: delta.x.signum().times(frame.pull.x).times(seconds),
                        y: delta.y.signum().times(frame.pull.y).times(seconds),
                    },
                ),
                scene.viewport_bounds,
                scene.content_bounds,
            );
            let has_scrolled: bool = notify_scroll(
                state,
                wishes.reports,
                scene.viewport_bounds,
                scene.content_bounds,
                frame.clock,
                effects,
            );
            if has_scrolled || span == 0 {
                state.interaction =
                Interaction::AutoScrolling { origin, current, last_frame: Some(frame.now) };
            }
        }
    }
    assert(effects@ =~= before + step.effects);
}

fn coast<S: Scalar>(
    state: &mut State<S>,
    wishes: &Wishes<S>,
    scene: &Scene<S>,
    frame: &Frame<S>,
    effects: &mut Vec<ScrollEffect<S>>,
)
    ensures
        *final(state) == coast_step(*old(state), *wishes, *scene, *frame).state,
        final(effects)@ == old(effects)@ + coast_step(
            *old(state),
            *wishes,
            *scene,
            *frame,
        ).effects,
{
    let ghost step = coast_step(*state, *wishes, *scene, *frame);
    let ghost before = effects@;
    if state.is_kinetic_active() {
        if state.update_kinetic(
            frame.now,
            frame.decay,
            scene.viewport_bounds,
            scene.content_bounds,
        ) {
            let _ = notify_scroll(
                state,
                wishes.reports,
                scene.viewport_bounds,
                scene.content_bounds,
                frame.clock,
                effects,
            );
        }
    }
    assert(effects@ =~= before + step.effects);
}

fn animate<S: Scalar>(
    state: &mut State<S>,
    wishes: &Wishes<S>,
    scene: &Scene<S>,
    frame: &Frame<S>,
    effects: &mut Vec<ScrollEffect<S>>,
)
    ensures
        *final(state) == animate_step(*old(state), *wishes, *scene, *frame).state,
        final(effects)@ == old(effects)@ + animate_step(
            *old(state),
            *wishes,
            *scene,
            *frame,
        ).effects,
{
    let ghost step = animate_step(*state, *wishes, *scene, *frame);
    let ghost before = effects@;
    if state.update_scroll_to_animation(
        frame.motion.scroll_running,
        frame.motion.scroll_progress,
        scene.viewport_bounds,
        scene.content_bounds,
    ) {
        let _ = notify_scroll(
            state,
            wishes.reports,
            scene.viewport_bounds,
            scene.content_bounds,
            frame.clock,
            effects,
        );
    }
    assert(effects@ =~= before + step.effects);
}

/// Gives the moment of a new frame, where an event asks for one and is still to be reacted to.
/// `redraw` takes such an event, and `react` all others.
pub fn due_frame<S>(event: &Event<S>, captured: bool) -> (r: Option<Instant>)
    ensures
        r == (match *event {
            Event::RedrawRequested(at) => if captured {
                None
            } else {
                Some(at)
            },
            _ => None,
        }),
{
    match event {
        Event::RedrawRequested(at) => if captured {
            None
        } else {
            Some(*at)
        },
        _ => None,
    }
}

impl<S: Scalar, V, F, C, I> VirtualScrollable<S, V, F, C, I> {
    /// Moves what moves by itself on to a new frame. The front end turns the hover animation
    /// around first, where `enter_hover` says so.
    pub fn redraw(&self, state: &mut State<S>, scene: &Scene<S>, frame: &Frame<S>) -> (effects: Vec<
        ScrollEffect<S>,
    >)
        requires
            frame.now.has_next_frame(),
        ensures
            *final(state) == frame_step(*old(state), self.wishes(false), *scene, *frame).state,
            effects@ == frame_step(*old(state), self.wishes(false), *scene, *frame).effects,
    {
        let wishes: Wishes<S> = self.find_wishes(false);
        let ghost step = frame_step(*state, wishes, *scene, *frame);
        let mut effects: Vec<ScrollEffect<S>> = Vec::new();
        if let Interaction::AutoScrolling { last_frame: Some(last), .. } = state.interaction {
            if last.nanos == frame.now.nanos {
                if let Some(next) = state.next_redraw_instant(frame.now, &frame.motion) {
                    effects.push(ScrollEffect::RequestRedrawAt(next));
                }
                assert(effects@ =~= step.effects);
                return effects;
            }
        }
        assert(!is_repeated(*state, frame.now));
        scroll_away(state, &wishes, scene, frame, &mut effects);
        coast(state, &wishes, scene, frame, &mut effects);
        animate(state, &wishes, scene, frame, &mut effects);
        let _ = notify_viewport(
            state,
            wishes.reports,
            scene.viewport_bounds,
            scene.content_bounds,
            &mut effects,
        );
        if let Some(next) = state.next_redraw_instant(frame.now, &frame.motion) {
            effects.push(ScrollEffect::RequestRedrawAt(next));
        }
        assert(effects@ =~= step.effects);
        effects
    }
}

} // verus!
