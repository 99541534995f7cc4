//! Reporting the viewport when it has changed.
use vstd::prelude::*;

use crate::geometry::Rectangle;
use crate::scalar::{Arithmetic, Scalar};
use crate::scrolling::scrollable::{relative_to, AbsoluteOffset, Viewport};
use crate::scrolling::virtual_scrollable::state::State;
use crate::time::Instant;

verus! {

/// What a scrollable asks of its surroundings.
#[derive(Clone, Copy, Debug)]
pub enum ScrollEffect<S> {
    /// Keep the event from other widgets.
    CaptureEvent,
    /// Draw the next frame.
    RequestRedraw,
    /// Draw a frame at a moment.
    RequestRedrawAt(Instant),
    /// Publish the message that is made of a viewport.
    Publish(Viewport<S>),
}

/// Whether a number has not changed: two results that are not numbers count as one.
pub open spec fn unchanged<S: Arithmetic>(a: S, b: S) -> bool {
    a.difference(b).magnitude().at_most(S::tolerance()) || (a.undefined() && b.undefined())
}

fn is_unchanged<S: Scalar>(a: S, b: S) -> (r: bool)
    ensures
        r == unchanged(a, b),
{
    a.minus(b).abs().le(S::epsilon()) || (a.is_nan() && b.is_nan())
}

/// Whether a viewport is the one that was last reported.
pub open spec fn is_old_news<S: Arithmetic>(last: Viewport<S>, current: Viewport<S>) -> bool {
    let last_relative = relative_to(last.offset, last.bounds, last.content_bounds);
    let current_relative = relative_to(current.offset, current.bounds, current.content_bounds);
    &&& last.bounds.agrees(current.bounds)
    &&& last.content_bounds.agrees(current.content_bounds)
    &&& unchanged(last_relative.x, current_relative.x)
    &&& unchanged(last_relative.y, current_relative.y)
    &&& unchanged(last.offset.x, current.offset.x)
    &&& unchanged(last.offset.y, current.offset.y)
}

impl<S: Arithmetic> State<S> {
    /// The viewport at the current offsets.
    pub open spec fn viewport(self, bounds: Rectangle<S>, content_bounds: Rectangle<S>) -> Viewport<
        S,
    > {
        Viewport { offset: self.distances(bounds, content_bounds), bounds, content_bounds }
    }

    /// Whether the viewport has to be reported: there is something to scroll, and it is not the
    /// viewport that was last reported.
    pub open spec fn is_news(self, bounds: Rectangle<S>, content_bounds: Rectangle<S>) -> bool {
        &&& !(content_bounds.width.at_most(bounds.width) && content_bounds.height.at_most(
            bounds.height,
        ))
        &&& !(self.last_notified is Some && is_old_news(
            self.last_notified->0,
            self.viewport(bounds, content_bounds),
        ))
    }

    /// The state after the viewport has been reported, where that was due.
    pub open spec fn reported(self, bounds: Rectangle<S>, content_bounds: Rectangle<S>) -> Self {
        if self.is_news(bounds, content_bounds) {
            State { last_notified: Some(self.viewport(bounds, content_bounds)), ..self }
        } else {
            self
        }
    }

    /// The state after scrolling has been reported, where that was due.
    pub open spec fn reported_scroll(
        self,
        bounds: Rectangle<S>,
        content_bounds: Rectangle<S>,
        now: Instant,
    ) -> Self {
        if self.is_news(bounds, content_bounds) {
            State {
                last_notified: Some(self.viewport(bounds, content_bounds)),
                last_scrolled: Some(now),
                ..self
            }
        } else {
            self
        }
    }

    /// The report of the viewport, where it is due and wanted.
    pub open spec fn report(
        self,
        wanted: bool,
        bounds: Rectangle<S>,
        content_bounds: Rectangle<S>,
    ) -> Seq<ScrollEffect<S>> {
        if wanted && self.is_news(bounds, content_bounds) {
            seq![ScrollEffect::Publish(self.viewport(bounds, content_bounds))]
        } else {
            Seq::empty()
        }
    }
}

/// Reports the viewport if that is due, and tells whether it was.
pub fn notify_viewport<S: Scalar>(
    state: &mut State<S>,
    wanted: bool,
    bounds: Rectangle<S>,
    content_bounds: Rectangle<S>,
    effects: &mut Vec<ScrollEffect<S>>,
) -> (r: bool)
    ensures
        r == old(state).is_news(bounds, content_bounds),
        *final(state) == old(state).reported(bounds, content_bounds),
        final(effects)@ == old(effects)@ + old(state).report(wanted, bounds, content_bounds),
{
    if content_bounds.width.le(bounds.width) && content_bounds.height.le(bounds.height) {
        assert(effects@ =~= old(effects)@ + Seq::empty());
        return false;
    }
    let offset: AbsoluteOffset<S> = state.absolute(bounds, content_bounds);
    let viewport: Viewport<S> = Viewport::from_absolute(offset, bounds, content_bounds);
    if let Some(last) = state.last_notified {
        let last_relative = last.relative_offset();
        let current_relative = viewport.relative_offset();
        if last.bounds.equals(&bounds) && last.content_bounds.equals(&content_bounds)
            && is_unchanged(last_relative.x, current_relative.x) && is_unchanged(
            last_relative.y,
            current_relative.y,
        ) && is_unchanged(last.offset.x, viewport.offset.x) && is_unchanged(
            last.offset.y,
            viewport.offset.y,
        ) {
            assert(effects@ =~= old(effects)@ + Seq::empty());
            return false;
        }
    }
    state.last_notified = Some(viewport);
    if wanted {
        effects.push(ScrollEffect::Publish(viewport));
    }
    assert(effects@ =~= old(effects)@ + old(state).report(wanted, bounds, content_bounds));
    true
}

/// Reports scrolling if that is due, and tells whether it was.
pub fn notify_scroll<S: Scalar>(
    state: &mut State<S>,
    wanted: bool,
    bounds: Rectangle<S>,
    content_bounds: Rectangle<S>,
    now: Instant,
    effects: &mut Vec<ScrollEffect<S>>,
) -> (r: bool)
    ensures
        r == old(state).is_news(bounds, content_bounds),
        *final(state) == old(state).reported_scroll(bounds, content_bounds, now),
        final(effects)@ == old(effects)@ + old(state).report(wanted, bounds, content_bounds),
{
    if notify_viewport(state, wanted, bounds, content_bounds, effects) {
        state.last_scrolled = Some(now);
        true
    } else {
        false
    }
}

} // verus!
