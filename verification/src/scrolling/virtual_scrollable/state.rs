//! The scroll position and what moves it.
use vstd::prelude::*;

use crate::geometry::{no_motion, Point, Rectangle, Vector};
use crate::scalar::{nonnegative, whole, zero, Arithmetic, Scalar};
use crate::scrolling::scrollable::{
    AbsoluteOffset, Direction, RelativeOffset, Scrollbar, Viewport,
};
use crate::scrolling::virtual_scrollable::offset::{find_reach, reach, Offset};
use crate::time::Instant;

verus! {

/// What the pointer is doing to the content.
#[derive(Clone, Copy, Debug)]
pub enum Interaction<S> {
    /// Nothing.
    Idle,
    /// Holding the vertical scroller at a share of its length.
    YScrollerGrabbed(S),
    /// Holding the horizontal scroller at a share of its length.
    XScrollerGrabbed(S),
    /// Scrolling on its own, away from an origin.
    AutoScrolling { origin: Point<S>, current: Point<S>, last_frame: Option<Instant> },
    /// Dragging the content with a finger.
    TouchScrolling { last_position: Point<S>, last_time: Instant },
}

/// The state of a virtual scrollable.
#[derive(Clone, Copy, Debug)]
pub struct State<S> {
    pub offset_y: Offset<S>,
    pub offset_x: Offset<S>,
    pub interaction: Interaction<S>,
    /// The viewport that was last reported.
    pub last_notified: Option<Viewport<S>>,
    pub last_scrolled: Option<Instant>,
    /// Whether the cursor is over the scrollable, which the hover animation moves toward.
    pub is_mouse_over_area: bool,
    /// The speed at which the content moves on its own, per second.
    pub velocity: Vector<S>,
    pub last_kinetic_update: Option<Instant>,
    /// Where an animated scroll ends.
    pub scroll_to_target: Option<AbsoluteOffset<S>>,
    /// When an animated scroll began.
    pub scroll_to_animation: Option<Instant>,
    /// Where an animated scroll began.
    pub scroll_to_start: Option<AbsoluteOffset<S>>,
    pub is_y_scrollbar_visible: bool,
    pub is_x_scrollbar_visible: bool,
    /// The viewport that the content was last built for.
    pub cached_viewport: Option<Rectangle<S>>,
    /// Whether the layout of that content is kept.
    pub has_cached_layout: bool,
    /// The key that the content was last built with.
    pub cached_key: u64,
    /// Whether a button or a finger is down.
    pub is_pointer_down: bool,
}

/// What the animations say at a moment.
#[derive(Clone, Copy, Debug)]
pub struct Motion<S> {
    /// Whether the hover animation is running.
    pub hover_running: bool,
    /// How far the hover animation is, from zero to one.
    pub hover_factor: S,
    /// Whether the animation of a scroll, if there is one, is running.
    pub scroll_running: bool,
    /// How far that animation is, from zero to one.
    pub scroll_progress: S,
}

/// A share of a distance, slowing down toward its end.
pub open spec fn eased<S: Arithmetic>(progress: S) -> S {
    let rest = whole::<S>(1).difference(progress);
    whole::<S>(1).difference(rest.product(rest).product(rest))
}

/// Where an animated scroll is along one axis.
pub open spec fn along<S: Arithmetic>(start: S, target: S, progress: S, viewport: S, content: S) -> Offset<
    S,
> {
    Offset::Absolute(
        start.sum(target.difference(start).product(eased(progress))).clamped(
            zero(),
            reach(viewport, content),
        ),
    )
}

fn find_along<S: Scalar>(start: S, target: S, progress: S, viewport: S, content: S) -> (r: Offset<S>)
    ensures
        r == along(start, target, progress, viewport, content),
{
    let rest: S = S::ratio(1, 1).minus(progress);
    let eased: S = S::ratio(1, 1).minus(rest.times(rest).times(rest));
    Offset::Absolute(
        start.plus(target.minus(start).times(eased)).clamp(
            S::ratio(0, 1),
            find_reach(viewport, content),
        ),
    )
}

impl<S: Arithmetic> State<S> {
    /// The state before anything happened.
    pub open spec fn initial() -> Self {
        State {
            offset_y: Offset::Absolute(zero()),
            offset_x: Offset::Absolute(zero()),
            interaction: Interaction::Idle,
            last_notified: None,
            last_scrolled: None,
            is_mouse_over_area: false,
            velocity: no_motion(),
            last_kinetic_update: None,
            scroll_to_target: None,
            scroll_to_animation: None,
            scroll_to_start: None,
            is_y_scrollbar_visible: true,
            is_x_scrollbar_visible: true,
            cached_viewport: None,
            has_cached_layout: false,
            cached_key: 0,
            is_pointer_down: false,
        }
    }

    /// The state scrolled by a distance.
    pub open spec fn scrolled(
        self,
        delta: Vector<S>,
        bounds: Rectangle<S>,
        content_bounds: Rectangle<S>,
    ) -> Self {
        State {
            offset_y: self.offset_y.moved(delta.y, bounds.height, content_bounds.height),
            offset_x: self.offset_x.moved(delta.x, bounds.width, content_bounds.width),
            ..self
        }
    }

    /// The state with both offsets as distances.
    pub open spec fn unsnapped(self, bounds: Rectangle<S>, content_bounds: Rectangle<S>) -> Self {
        State {
            offset_x: self.offset_x.settled(bounds.width, content_bounds.width),
            offset_y: self.offset_y.settled(bounds.height, content_bounds.height),
            ..self
        }
    }

    /// The distances that both offsets stand for.
    pub open spec fn distances(
        self,
        bounds: Rectangle<S>,
        content_bounds: Rectangle<S>,
    ) -> AbsoluteOffset<S> {
        AbsoluteOffset {
            x: self.offset_x.distance(bounds.width, content_bounds.width),
            y: self.offset_y.distance(bounds.height, content_bounds.height),
        }
    }

    /// How far the content is shifted.
    pub open spec fn shifted(
        self,
        direction: Direction<S>,
        bounds: Rectangle<S>,
        content_bounds: Rectangle<S>,
    ) -> Vector<S> {
        Vector {
            x: match direction.sideways() {
                Some(scrollbar) => self.offset_x.shift(
                    bounds.width,
                    content_bounds.width,
                    scrollbar.alignment,
                ).rounded(),
                None => zero(),
            },
            y: match direction.upright() {
                Some(scrollbar) => self.offset_y.shift(
                    bounds.height,
                    content_bounds.height,
                    scrollbar.alignment,
                ).rounded(),
                None => zero(),
            },
        }
    }

    /// The state with an animated scroll to a place within the content.
    pub open spec fn animated_to(
        self,
        target: AbsoluteOffset<S>,
        bounds: Rectangle<S>,
        content_bounds: Rectangle<S>,
        now: Instant,
    ) -> Self {
        State {
            scroll_to_start: Some(self.distances(bounds, content_bounds)),
            scroll_to_target: Some(
                AbsoluteOffset {
                    x: target.x.clamped(zero(), reach(bounds.width, content_bounds.width)),
                    y: target.y.clamped(zero(), reach(bounds.height, content_bounds.height)),
                },
            ),
            scroll_to_animation: Some(now),
            velocity: no_motion(),
            ..self
        }
    }

    /// Whether the content is too slow to keep moving on its own.
    pub open spec fn is_slow(self) -> bool {
        self.velocity.x.magnitude().below(whole(1)) && self.velocity.y.magnitude().below(whole(1))
    }

    /// Whether the content moves on its own.
    pub open spec fn is_coasting(self) -> bool {
        whole::<S>(1).below(self.velocity.x.magnitude()) || whole::<S>(1).below(
            self.velocity.y.magnitude(),
        )
    }

    /// The seconds since the content was last moved on its own.
    pub open spec fn coasting_time(self, now: Instant) -> S {
        match self.last_kinetic_update {
            Some(last) => S::seconds(now.span_since(last)),
            None => S::fraction(16, 1000),
        }
    }

    /// The state after the content has moved on its own until a moment.
    pub open spec fn coasted(
        self,
        now: Instant,
        decay: S,
        bounds: Rectangle<S>,
        content_bounds: Rectangle<S>,
    ) -> Self {
        if self.is_slow() {
            State { velocity: no_motion(), last_kinetic_update: None, ..self }
        } else {
            let dt = self.coasting_time(now);
            let moved = self.scrolled(
                Vector { x: self.velocity.x.product(dt), y: self.velocity.y.product(dt) },
                bounds,
                content_bounds,
            );
            State {
                last_kinetic_update: Some(now),
                velocity: Vector {
                    x: if moved.offset_x.agrees(self.offset_x) {
                        zero()
                    } else {
                        self.velocity.x.product(decay)
                    },
                    y: if moved.offset_y.agrees(self.offset_y) {
                        zero()
                    } else {
                        self.velocity.y.product(decay)
                    },
                },
                ..moved
            }
        }
    }

    /// Whether two states have the content at the same position.
    pub open spec fn is_level_with(self, other: Self) -> bool {
        self.offset_x.agrees(other.offset_x) && self.offset_y.agrees(other.offset_y)
    }

    /// Whether there is an animated scroll.
    pub open spec fn has_animated_scroll(self) -> bool {
        self.scroll_to_target is Some && self.scroll_to_start is Some && self.scroll_to_animation
            is Some
    }

    /// The state after an animated scroll has moved on.
    pub open spec fn animated(
        self,
        running: bool,
        progress: S,
        bounds: Rectangle<S>,
        content_bounds: Rectangle<S>,
    ) -> Self {
        if !self.has_animated_scroll() {
            self
        } else if !running {
            State {
                offset_x: Offset::Absolute(self.scroll_to_target->0.x),
                offset_y: Offset::Absolute(self.scroll_to_target->0.y),
                scroll_to_target: None,
                scroll_to_start: None,
                scroll_to_animation: None,
                ..self
            }
        } else {
            State {
                offset_x: along(
                    self.scroll_to_start->0.x,
                    self.scroll_to_target->0.x,
                    progress,
                    bounds.width,
                    content_bounds.width,
                ),
                offset_y: along(
                    self.scroll_to_start->0.y,
                    self.scroll_to_target->0.y,
                    progress,
                    bounds.height,
                    content_bounds.height,
                ),
                ..self
            }
        }
    }

    /// Whether a scroller is held.
    pub open spec fn holds_scroller(self) -> bool {
        self.interaction is YScrollerGrabbed || self.interaction is XScrollerGrabbed
    }

    /// Whether anything moves by itself.
    pub open spec fn is_moving(self, motion: Motion<S>) -> bool {
        ||| self.is_coasting()
        ||| (self.scroll_to_animation is Some && motion.scroll_running)
        ||| motion.hover_running
        ||| self.interaction is AutoScrolling
    }

    /// When the next frame is needed for what moves by itself.
    pub open spec fn next_frame(self, now: Instant, motion: Motion<S>) -> Option<Instant> {
        if self.is_moving(motion) {
            Some(now.next_frame())
        } else {
            None
        }
    }

    /// The state in which nothing keeps moving: no momentum, and no animated scroll.
    pub open spec fn at_rest(self) -> Self {
        State {
            velocity: no_motion(),
            last_kinetic_update: None,
            scroll_to_target: None,
            scroll_to_animation: None,
            ..self
        }
    }
}

impl<S: Scalar> State<S> {
    /// Makes the state before anything happened.
    pub fn new() -> (r: Self)
        ensures
            r == Self::initial(),
    {
        State {
            offset_y: Offset::Absolute(S::ratio(0, 1)),
            offset_x: Offset::Absolute(S::ratio(0, 1)),
            interaction: Interaction::Idle,
            last_notified: None,
            last_scrolled: None,
            is_mouse_over_area: false,
            velocity: Vector::none(),
            last_kinetic_update: None,
            scroll_to_target: None,
            scroll_to_animation: None,
            scroll_to_start: None,
            is_y_scrollbar_visible: true,
            is_x_scrollbar_visible: true,
            cached_viewport: None,
            has_cached_layout: false,
            cached_key: 0,
            is_pointer_down: false,
        }
    }

    /// Scrolls by a distance.
    pub fn scroll(
        &mut self,
        delta: Vector<S>,
        bounds: Rectangle<S>,
        content_bounds: Rectangle<S>,
    )
        ensures
            *final(self) == old(self).scrolled(delta, bounds, content_bounds),
    {
        self.offset_y = self.offset_y.moved_by(delta.y, bounds.height, content_bounds.height);
        self.offset_x = self.offset_x.moved_by(delta.x, bounds.width, content_bounds.width);
    }

    /// Scrolls by a distance that comes from an operation.
    pub fn scroll_by(
        &mut self,
        offset: AbsoluteOffset<S>,
        bounds: Rectangle<S>,
        content_bounds: Rectangle<S>,
    )
        ensures
            *final(self) == old(self).scrolled(
                Vector { x: offset.x, y: offset.y },
                bounds,
                content_bounds,
            ),
    {
        self.scroll(Vector { x: offset.x, y: offset.y }, bounds, content_bounds);
    }

    /// Scrolls vertically to a share of the scrollable distance.
    pub fn scroll_y_to(
        &mut self,
        percentage: S,
        bounds: Rectangle<S>,
        content_bounds: Rectangle<S>,
    )
        ensures
            *final(self) == (State {
                offset_y: Offset::at_share(percentage),
                ..*old(self)
            }).unsnapped(bounds, content_bounds),
    {
        self.offset_y = Offset::from_share(percentage);
        self.unsnap(bounds, content_bounds);
    }

    /// Scrolls horizontally to a share of the scrollable distance.
    pub fn scroll_x_to(
        &mut self,
        percentage: S,
        bounds: Rectangle<S>,
        content_bounds: Rectangle<S>,
    )
        ensures
            *final(self) == (State {
                offset_x: Offset::at_share(percentage),
                ..*old(self)
            }).unsnapped(bounds, content_bounds),
    {
        self.offset_x = Offset::from_share(percentage);
        self.unsnap(bounds, content_bounds);
    }

    /// Keeps the content at a share of the scrollable distance, along each axis that is given.
    pub fn snap_to(&mut self, offset: RelativeOffset<Option<S>>)
        ensures
            *final(self) == (State {
                offset_x: match offset.x {
                    Some(x) => Offset::at_share(x),
                    None => old(self).offset_x,
                },
                offset_y: match offset.y {
                    Some(y) => Offset::at_share(y),
                    None => old(self).offset_y,
                },
                ..*old(self)
            }),
    {
        if let Some(x) = offset.x {
            self.offset_x = Offset::from_share(x);
        }
        if let Some(y) = offset.y {
            self.offset_y = Offset::from_share(y);
        }
    }

    /// Scrolls to a distance, along each axis that is given.
    pub fn scroll_to(&mut self, offset: AbsoluteOffset<Option<S>>)
        ensures
            *final(self) == (State {
                offset_x: match offset.x {
                    Some(x) => Offset::Absolute(nonnegative(x)),
                    None => old(self).offset_x,
                },
                offset_y: match offset.y {
                    Some(y) => Offset::Absolute(nonnegative(y)),
                    None => old(self).offset_y,
                },
                ..*old(self)
            }),
    {
        if let Some(x) = offset.x {
            self.offset_x = Offset::Absolute(x.max(S::ratio(0, 1)));
        }
        if let Some(y) = offset.y {
            self.offset_y = Offset::Absolute(y.max(S::ratio(0, 1)));
        }
    }

    /// Turns both offsets into distances.
    pub fn unsnap(&mut self, bounds: Rectangle<S>, content_bounds: Rectangle<S>)
        ensures
            *final(self) == old(self).unsnapped(bounds, content_bounds),
    {
        self.offset_x = self.offset_x.settle(bounds.width, content_bounds.width);
        self.offset_y = self.offset_y.settle(bounds.height, content_bounds.height);
    }

    /// Gives how far the content is shifted.
    pub fn translation(
        &self,
        direction: Direction<S>,
        bounds: Rectangle<S>,
        content_bounds: Rectangle<S>,
    ) -> (r: Vector<S>)
        ensures
            r == self.shifted(direction, bounds, content_bounds),
    {
        let x: S = match direction.horizontal() {
            Some(scrollbar) => self.offset_x.translation(
                bounds.width,
                content_bounds.width,
                scrollbar.alignment,
            ).round(),
            None => S::ratio(0, 1),
        };
        let y: S = match direction.vertical() {
            Some(scrollbar) => self.offset_y.translation(
                bounds.height,
                content_bounds.height,
                scrollbar.alignment,
            ).round(),
            None => S::ratio(0, 1),
        };
        Vector { x, y }
    }

    /// Gives the distances that both offsets stand for.
    pub fn absolute(&self, bounds: Rectangle<S>, content_bounds: Rectangle<S>) -> (r: AbsoluteOffset<
        S,
    >)
        ensures
            r == self.distances(bounds, content_bounds),
    {
        AbsoluteOffset {
            x: self.offset_x.absolute(bounds.width, content_bounds.width),
            y: self.offset_y.absolute(bounds.height, content_bounds.height),
        }
    }

    /// Starts an animated scroll to a place within the content.
    pub fn scroll_to_animated(
        &mut self,
        target: AbsoluteOffset<S>,
        bounds: Rectangle<S>,
        content_bounds: Rectangle<S>,
        now: Instant,
    )
        ensures
            *final(self) == old(self).animated_to(target, bounds, content_bounds, now),
    {
        let current: AbsoluteOffset<S> = self.absolute(bounds, content_bounds);
        let end_x: S = find_reach(bounds.width, content_bounds.width);
        let end_y: S = find_reach(bounds.height, content_bounds.height);
        self.scroll_to_start = Some(current);
        self.scroll_to_target = Some(
            AbsoluteOffset {
                x: target.x.clamp(S::ratio(0, 1), end_x),
                y: target.y.clamp(S::ratio(0, 1), end_y),
            },
        );
        self.scroll_to_animation = Some(now);
        self.velocity = Vector::none();
    }

    /// Starts an animated scroll to a place that may leave an axis where it is.
    pub fn animate_to(
        &mut self,
        offset: AbsoluteOffset<Option<S>>,
        bounds: Rectangle<S>,
        content_bounds: Rectangle<S>,
        now: Instant,
    )
        ensures
            *final(self) == old(self).animated_to(
                AbsoluteOffset {
                    x: match offset.x {
                        Some(x) => x,
                        None => old(self).distances(bounds, content_bounds).x,
                    },
                    y: match offset.y {
                        Some(y) => y,
                        None => old(self).distances(bounds, content_bounds).y,
                    },
                },
                bounds,
                content_bounds,
                now,
            ),
    {
        let current: AbsoluteOffset<S> = self.absolute(bounds, content_bounds);
        let target: AbsoluteOffset<S> = AbsoluteOffset {
            x: match offset.x {
                Some(x) => x,
                None => current.x,
            },
            y: match offset.y {
                Some(y) => y,
                None => current.y,
            },
        };
        self.scroll_to_animated(target, bounds, content_bounds, now);
    }

    /// Starts an animated scroll by a distance.
    pub fn animate_by(
        &mut self,
        offset: AbsoluteOffset<S>,
        bounds: Rectangle<S>,
        content_bounds: Rectangle<S>,
        now: Instant,
    )
        ensures
            *final(self) == old(self).animated_to(
                AbsoluteOffset {
                    x: old(self).distances(bounds, content_bounds).x.sum(offset.x),
                    y: old(self).distances(bounds, content_bounds).y.sum(offset.y),
                },
                bounds,
                content_bounds,
                now,
            ),
    {
        let current: AbsoluteOffset<S> = self.absolute(bounds, content_bounds);
        let target: AbsoluteOffset<S> = AbsoluteOffset {
            x: current.x.plus(offset.x),
            y: current.y.plus(offset.y),
        };
        self.scroll_to_animated(target, bounds, content_bounds, now);
    }

    /// Gives the seconds since the content was last moved on its own.
    pub fn kinetic_time(&self, now: Instant) -> (r: S)
        ensures
            r == self.coasting_time(now),
    {
        match self.last_kinetic_update {
            Some(last) => S::from_nanos(now.since(last)),
            None => S::ratio(16, 1000),
        }
    }

    /// Moves the content on its own, given how much of the speed friction leaves, and tells
    /// whether its position has changed.
    pub fn update_kinetic(
        &mut self,
        now: Instant,
        decay: S,
        bounds: Rectangle<S>,
        content_bounds: Rectangle<S>,
    ) -> (r: bool)
        ensures
            r == (!old(self).is_slow() && !old(self).coasted(
                now,
                decay,
                bounds,
                content_bounds,
            ).is_level_with(*old(self))),
            *final(self) == old(self).coasted(now, decay, bounds, content_bounds),
    {
        let slow_x: bool = self.velocity.x.abs().lt(S::ratio(1, 1));
        let slow_y: bool = self.velocity.y.abs().lt(S::ratio(1, 1));
        if slow_x && slow_y {
            self.velocity = Vector::none();
            self.last_kinetic_update = None;
            return false;
        }
        let dt: S = self.kinetic_time(now);
        self.last_kinetic_update = Some(now);
        let delta: Vector<S> = Vector {
            x: self.velocity.x.times(dt),
            y: self.velocity.y.times(dt),
        };
        let old_x: Offset<S> = self.offset_x;
        let old_y: Offset<S> = self.offset_y;
        self.scroll(delta, bounds, content_bounds);
        self.velocity = Vector {
            x: self.velocity.x.times(decay),
            y: self.velocity.y.times(decay),
        };
        let still_x: bool = self.offset_x.equals(old_x);
        let still_y: bool = self.offset_y.equals(old_y);
        if still_x {
            self.velocity.x = S::ratio(0, 1);
        }
        if still_y {
            self.velocity.y = S::ratio(0, 1);
        }
        !(still_x && still_y)
    }

    /// Moves an animated scroll on, and tells whether it still runs.
    pub fn update_scroll_to_animation(
        &mut self,
        running: bool,
        progress: S,
        bounds: Rectangle<S>,
        content_bounds: Rectangle<S>,
    ) -> (r: bool)
        ensures
            r == (old(self).has_animated_scroll() && running),
            *final(self) == old(self).animated(running, progress, bounds, content_bounds),
    {
        if self.scroll_to_animation.is_none() {
            return false;
        }
        match (self.scroll_to_target, self.scroll_to_start) {
            (Some(target), Some(start)) => {
                if !running {
                    self.offset_x = Offset::Absolute(target.x);
                    self.offset_y = Offset::Absolute(target.y);
                    self.scroll_to_target = None;
                    self.scroll_to_start = None;
                    self.scroll_to_animation = None;
                    return false;
                }
                self.offset_x = find_along(
                    start.x,
                    target.x,
                    progress,
                    bounds.width,
                    content_bounds.width,
                );
                self.offset_y = find_along(
                    start.y,
                    target.y,
                    progress,
                    bounds.height,
                    content_bounds.height,
                );
                true
            },
            _ => false,
        }
    }

    /// Tests whether the content moves on its own.
    pub fn is_kinetic_active(&self) -> (r: bool)
        ensures
            r == self.is_coasting(),
    {
        S::ratio(1, 1).lt(self.velocity.x.abs()) || S::ratio(1, 1).lt(self.velocity.y.abs())
    }

    /// Tests whether an animated scroll runs.
    pub fn is_scroll_to_animating(&self, motion: &Motion<S>) -> (r: bool)
        ensures
            r == (self.scroll_to_animation is Some && motion.scroll_running),
    {
        self.scroll_to_animation.is_some() && motion.scroll_running
    }

    /// Tests whether a scroller is held.
    pub fn scrollers_grabbed(&self) -> (r: bool)
        ensures
            r == self.holds_scroller(),
    {
        match self.interaction {
            Interaction::YScrollerGrabbed(_) => true,
            Interaction::XScrollerGrabbed(_) => true,
            _ => false,
        }
    }

    /// Tests whether anything moves by itself.
    pub fn needs_animation(&self, motion: &Motion<S>) -> (r: bool)
        ensures
            r == self.is_moving(*motion),
    {
        self.is_kinetic_active() || self.is_scroll_to_animating(motion) || motion.hover_running
            || match self.interaction {
            Interaction::AutoScrolling { .. } => true,
            _ => false,
        }
    }

    /// Gives when the next frame is needed for what moves by itself.
    pub fn next_redraw_instant(&self, now: Instant, motion: &Motion<S>) -> (r: Option<Instant>)
        requires
            now.has_next_frame(),
        ensures
            r == self.next_frame(now, *motion),
    {
        if self.needs_animation(motion) {
            Some(now.after_frame())
        } else {
            None
        }
    }

    /// Gives the share at which the vertical scroller is held.
    pub fn y_scroller_grabbed_at(&self) -> (r: Option<S>)
        ensures
            r == (match self.interaction {
                Interaction::YScrollerGrabbed(at) => Some(at),
                _ => None,
            }),
    {
        match self.interaction {
            Interaction::YScrollerGrabbed(at) => Some(at),
            _ => None,
        }
    }

    /// Gives the share at which the horizontal scroller is held.
    pub fn x_scroller_grabbed_at(&self) -> (r: Option<S>)
        ensures
            r == (match self.interaction {
                Interaction::XScrollerGrabbed(at) => Some(at),
                _ => None,
            }),
    {
        match self.interaction {
            Interaction::XScrollerGrabbed(at) => Some(at),
            _ => None,
        }
    }
}

/// The space that the scrollbars take from the right and from the bottom of the content.
pub open spec fn padding<S: Arithmetic>(direction: Direction<S>, state: State<S>) -> (S, S) {
    (
        match direction.upright() {
            Some(scrollbar) => match scrollbar.embedding() {
                Some(space) => if state.is_y_scrollbar_visible {
                    space
                } else {
                    zero()
                },
                None => zero(),
            },
            None => zero(),
        },
        match direction.sideways() {
            Some(scrollbar) => match scrollbar.embedding() {
                Some(space) => if state.is_x_scrollbar_visible {
                    space
                } else {
                    zero()
                },
                None => zero(),
            },
            None => zero(),
        },
    )
}

/// Gives the space that one scrollbar takes from the content.
pub fn embedded_space<S: Scalar>(scrollbar: Option<Scrollbar<S>>, visible: bool) -> (r: S)
    ensures
        r == (match scrollbar {
            Some(scrollbar) => match scrollbar.embedding() {
                Some(space) => if visible {
                    space
                } else {
                    zero()
                },
                None => zero(),
            },
            None => zero(),
        }),
{
    if let Some(scrollbar) = scrollbar {
        if let Some(space) = scrollbar.embedded_width() {
            if visible {
                return space;
            }
        }
    }
    S::ratio(0, 1)
}

/// Gives the space that the scrollbars take from the right and from the bottom of the content.
pub fn embedded_padding<S: Scalar>(direction: Direction<S>, state: &State<S>) -> (r: (S, S))
    ensures
        r == padding(direction, *state),
{
    (
        embedded_space(direction.vertical(), state.is_y_scrollbar_visible),
        embedded_space(direction.horizontal(), state.is_x_scrollbar_visible),
    )
}

} // verus!
