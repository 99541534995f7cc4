//! Where scrollbars are and what they do, in exact arithmetic. What is said of the vertical
//! scrollbar holds of the horizontal one, since both axes are treated alike.
use vstd::prelude::*;

use crate::event::{Button, Event, MouseEvent, TouchEvent};
use crate::geometry::{Cursor, Point, Rectangle, Size, Vector};
use crate::geometry_laws::holds;
use crate::scalar::exact::{exact, lemma_fractions, Exact};
use crate::scalar::Arithmetic;
use crate::scrolling::scrollable::{plain_scrollbar, Anchor, Direction, Scrollbar};
use crate::scrolling::virtual_scrollable::layout::{
    content_within, laid_out, plan_of, with_scrollbars,
};
use crate::scrolling::virtual_scrollable::motion_laws::stands_at;
use crate::scrolling::virtual_scrollable::offset::Offset;
use crate::scrolling::virtual_scrollable::scene::{
    content_of, scene_of, viewport_of, visible_part, Scene,
};
use crate::scrolling::virtual_scrollable::scrollbars::Scrollbars;
use crate::scrolling::virtual_scrollable::state::{Interaction, State};
use crate::scrolling::virtual_scrollable::update::{drag_step, drag_y_step, next_of, Wishes};
use crate::time::Instant;

verus! {

/// The style of the vertical scrollbar, where content scrolls up and down.
pub open spec fn style_y<S>(direction: Direction<S>) -> Option<Scrollbar<S>> {
    match direction {
        Direction::Vertical(style) => Some(style),
        Direction::Horizontal(_) => None,
        Direction::Both { vertical, .. } => Some(vertical),
    }
}

/// The style of the horizontal scrollbar, where content scrolls sideways.
pub open spec fn style_x<S>(direction: Direction<S>) -> Option<Scrollbar<S>> {
    match direction {
        Direction::Vertical(_) => None,
        Direction::Horizontal(style) => Some(style),
        Direction::Both { horizontal, .. } => Some(horizontal),
    }
}

/// The wider one of the rail and the scroller, with a margin on both sides.
pub open spec fn across(style: Scrollbar<Exact>) -> real {
    (if style.width.value >= style.scroller_width.value {
        style.width.value
    } else {
        style.scroller_width.value
    }) + style.margin.value + style.margin.value
}

/// Where the scroller is along its rail.
proof fn lemma_scroller(length: real, shift: real, viewport: real, content: real)
    requires
        0real < viewport < content,
        0real <= shift,
        0real <= length,
    ensures
        ({
            let ratio = viewport / content;
            let along = shift * ratio * length / viewport;
            &&& ratio < 1real
            &&& along * content == shift * length
            &&& 0real <= along
            &&& length * ratio * content == length * viewport
        }),
{
    let ratio = viewport / content;
    assert(ratio * content == viewport) by (nonlinear_arith)
        requires
            0real < content,
            ratio == viewport / content,
    ;
    assert(ratio < 1real) by (nonlinear_arith)
        requires
            0real < content,
            ratio * content == viewport,
            viewport < content,
    ;
    assert(0real < ratio) by (nonlinear_arith)
        requires
            0real < content,
            ratio * content == viewport,
            0real < viewport,
    ;
    let whole = shift * ratio * length;
    let along = whole / viewport;
    assert(along * viewport == whole) by (nonlinear_arith)
        requires
            0real < viewport,
            along == whole / viewport,
    ;
    let product = shift * length;
    assert(whole == product * ratio) by (nonlinear_arith)
        requires
            whole == shift * ratio * length,
            product == shift * length,
    ;
    assert(along * content == product) by (nonlinear_arith)
        requires
            along * viewport == product * ratio,
            ratio * content == viewport,
            0real < ratio,
    ;
    assert(0real <= product) by (nonlinear_arith)
        requires
            0real <= shift,
            0real <= length,
            product == shift * length,
    ;
    assert(0real <= along) by (nonlinear_arith)
        requires
            along * content == product,
            0real <= product,
            0real < content,
    ;
    assert(length * ratio * content == length * viewport) by (nonlinear_arith)
        requires
            ratio * content == viewport,
    ;
}

/// The vertical scrollbar stands at the right edge of the scrollable and starts at its top. Its
/// rail is as long as the viewport, less what it leaves to a horizontal scrollbar that floats
/// above the content. Its scroller is in the middle of it, and shows of the rail what the viewport
/// shows of the content: it starts as far along the rail as the viewport does along the content,
/// and has the same share of the length, if that is not less than two pixels.
pub proof fn law_scrollbar_shows_where_the_viewport_is(
    s: State<Exact>,
    direction: Direction<Exact>,
    bounds: Rectangle<Exact>,
    viewport: Size<Exact>,
    content_bounds: Rectangle<Exact>,
    distance: real,
)
    requires
        style_y(direction) is Some,
        0real < viewport.height.value < content_bounds.height.value,
        0real <= bounds.y.value,
        stands_at(s.offset_y, content_bounds.height.value - viewport.height.value, distance),
    ensures
        ({
            let bars = Scrollbars::laid_out(s, direction, bounds, viewport, content_bounds);
            let style = style_y(direction)->0;
            let bar = bars.y->0;
            let all = bar.total_bounds;
            let rail = bar.bounds;
            let scroller = bar.scroller->0.bounds;
            let shift = exact(
                match style.alignment {
                    Anchor::Start => distance,
                    Anchor::End => content_bounds.height.value - viewport.height.value - distance,
                },
            ).rounded().value;
            let corner = if style_x(direction) is Some && viewport.width.value
                < content_bounds.width.value && bounds.height.value <= viewport.height.value {
                across(style_x(direction)->0)
            } else {
                0real
            };
            &&& bars.y is Some
            &&& all.x.value + all.width.value == bounds.x.value + bounds.width.value
            &&& all.y == bounds.y
            &&& all.width.value == across(style)
            &&& all.height == rail.height
            &&& rail.y == bounds.y
            &&& rail.width == style.width
            &&& rail.height.value == (if viewport.height.value >= corner {
                viewport.height.value - corner
            } else {
                0real
            })
            &&& 2real * rail.x.value + rail.width.value == 2real * all.x.value + all.width.value
            &&& bar.scroller is Some
            &&& 2real * scroller.x.value + scroller.width.value == 2real * all.x.value
                + all.width.value
            &&& scroller.width == style.scroller_width
            &&& (scroller.y.value - rail.y.value) * content_bounds.height.value == shift
                * rail.height.value
            &&& scroller.height.value >= 2real
            &&& rail.height.value * viewport.height.value >= 2real * content_bounds.height.value
                ==> scroller.height.value * content_bounds.height.value == rail.height.value
                * viewport.height.value
            &&& rail.height.value * viewport.height.value <= 2real * content_bounds.height.value
                ==> scroller.height.value == 2real
            &&& bar.alignment == style.alignment
            &&& bar.disabled == (content_bounds.height.value <= bounds.height.value)
        }),
{
    lemma_fractions();
    lemma_two();
    let bars = Scrollbars::laid_out(s, direction, bounds, viewport, content_bounds);
    let bar = bars.y->0;
    let style = style_y(direction)->0;
    let length = bar.bounds.height.value;
    let v = viewport.height.value;
    let c = content_bounds.height.value;
    let area = Rectangle {
        x: bounds.x,
        y: bounds.y,
        width: viewport.width,
        height: viewport.height,
    };
    crate::scrolling::virtual_scrollable::motion_laws::law_content_is_shifted_up(
        s,
        direction,
        area,
        content_bounds,
        distance,
    );
    let shift = s.shifted(direction, area, content_bounds).y.value;
    lemma_rounded_sign(distance);
    lemma_rounded_sign(c - v - distance);
    if let Some(other) = style_x(direction) {
        lemma_doubled(other);
    }
    lemma_doubled(style);
    lemma_scroller(length, shift, v, c);
    let share = length * (v / c);
    assert(share * c >= 2real * c ==> share >= 2real) by (nonlinear_arith)
        requires
            0real < c,
    ;
    assert(share * c <= 2real * c ==> share <= 2real) by (nonlinear_arith)
        requires
            0real < c,
    ;
    let total = across(style);
    assert(2real * (total / 2real) == total) by (nonlinear_arith);
    let w = style.width.value;
    assert(2real * (w / 2real) == w) by (nonlinear_arith);
    let sw = style.scroller_width.value;
    assert(2real * (sw / 2real) == sw) by (nonlinear_arith);
}

/// Two, and half of it.
proof fn lemma_two()
    ensures
        Exact::fraction(2, 1) == exact(2real),
        Exact::fraction(1, 2).value == 1real / 2real,
{
    assert(2real / 1real == 2real) by (nonlinear_arith);
}

/// Twice the margin is the margin on both sides.
proof fn lemma_doubled(style: Scrollbar<Exact>)
    ensures
        style.thickness().value == across(style),
        style.spacing matches Some(spacing) ==> style.embedding() is Some
            && style.embedding()->0.value == across(style) + spacing.value,
        style.spacing is None ==> style.embedding() is None,
{
    lemma_two();
    let m = style.margin.value;
    assert(2real * m == m + m) by (nonlinear_arith);
    assert(m * 2real == m + m) by (nonlinear_arith);
}

/// Rounding does not make a number negative.
proof fn lemma_rounded_sign(x: real)
    requires
        0real <= x,
    ensures
        exact(x).rounded().value >= 0real,
{
    let half = 1real / 2real;
    assert(half + x >= 0real);
    assert((half + x).floor() >= 0);
}

/// No scrollbar is shown for an axis that content does not scroll along, or that it fits in.
pub proof fn law_no_scrollbar_without_need(
    s: State<Exact>,
    direction: Direction<Exact>,
    bounds: Rectangle<Exact>,
    viewport: Size<Exact>,
    content_bounds: Rectangle<Exact>,
)
    ensures
        ({
            let bars = Scrollbars::laid_out(s, direction, bounds, viewport, content_bounds);
            &&& (bars.y is Some) == (!(direction is Horizontal) && viewport.height.value
                < content_bounds.height.value)
            &&& (bars.x is Some) == (!(direction is Vertical) && viewport.width.value
                < content_bounds.width.value)
        }),
{
}

/// A scroller that is dragged follows the pointer, and the content follows the scroller: where the
/// scroller is along its way, there the content is along its own. Both stop at their ends. The
/// other axis stays where it is.
pub proof fn law_content_follows_the_scroller(
    s: State<Exact>,
    reports: bool,
    scene: Scene<Exact>,
    event: Event<Exact>,
    at: Exact,
    pointer: Point<Exact>,
    now: Instant,
    x: real,
)
    requires
        s.interaction == Interaction::YScrollerGrabbed(at),
        event matches Event::Mouse(MouseEvent::CursorMoved { .. }) || event matches Event::Touch(
            TouchEvent::FingerMoved { .. },
        ),
        scene.scrollbars.y is Some,
        scene.scrollbars.y->0.scroller is Some,
        0real < scene.scrollbars.y->0.scroller->0.bounds.height.value
            < scene.scrollbars.y->0.bounds.height.value,
        0real <= scene.content_bounds.height.value - scene.viewport_bounds.height.value,
        stands_at(
            s.offset_x,
            scene.content_bounds.width.value - scene.viewport_bounds.width.value,
            x,
        ),
    ensures
        ({
            let step = drag_y_step(s, reports, scene, event, Cursor::Available(pointer), now);
            let lifted = drag_y_step(s, reports, scene, event, Cursor::Levitating(pointer), now);
            let after = step.state;
            let bar = scene.scrollbars.y->0;
            let scroller = bar.scroller->0.bounds;
            let way = bar.bounds.height.value - scroller.height.value;
            let top = pointer.y.value - scroller.height.value * at.value - bar.bounds.y.value;
            let room = scene.content_bounds.height.value - scene.viewport_bounds.height.value;
            let along = if top < 0real {
                0real
            } else if top > way {
                way
            } else {
                top
            };
            &&& lifted == step
            &&& !step.stop
            &&& after.interaction == s.interaction
            &&& after.offset_y is Absolute
            &&& after.offset_y->Absolute_0.value * way == room * (match bar.alignment {
                Anchor::Start => along,
                Anchor::End => way - along,
            })
            &&& after.offset_x == Offset::Absolute(exact(x))
        }),
{
    lemma_fractions();
    let bar = scene.scrollbars.y->0;
    let scroller = bar.scroller->0.bounds;
    let way = bar.bounds.height.value - scroller.height.value;
    let top = pointer.y.value - scroller.height.value * at.value - bar.bounds.y.value;
    let room = scene.content_bounds.height.value - scene.viewport_bounds.height.value;
    let share = (pointer.y.value - bar.bounds.y.value - scroller.height.value * at.value) / way;
    assert(share * way == top) by (nonlinear_arith)
        requires
            way > 0real,
            share == (pointer.y.value - bar.bounds.y.value - scroller.height.value * at.value)
                / way,
            top == pointer.y.value - scroller.height.value * at.value - bar.bounds.y.value,
    ;
    assert(top < 0real ==> share < 0real) by (nonlinear_arith)
        requires
            way > 0real,
            share * way == top,
    ;
    assert(top > way ==> share > 1real) by (nonlinear_arith)
        requires
            way > 0real,
            share * way == top,
    ;
    assert(0real <= top <= way ==> 0real <= share <= 1real) by (nonlinear_arith)
        requires
            way > 0real,
            share * way == top,
    ;
    let clamped = if share < 0real {
        0real
    } else if share > 1real {
        1real
    } else {
        share
    };
    let other = if 1real - share < 0real {
        0real
    } else if 1real - share > 1real {
        1real
    } else {
        1real - share
    };
    let along = if top < 0real {
        0real
    } else if top > way {
        way
    } else {
        top
    };
    assert(clamped * way == along) by (nonlinear_arith)
        requires
            way > 0real,
            share * way == top,
            clamped == (if share < 0real {
                0real
            } else if share > 1real {
                1real
            } else {
                share
            }),
            along == (if top < 0real {
                0real
            } else if top > way {
                way
            } else {
                top
            }),
            top < 0real ==> share < 0real,
            top > way ==> share > 1real,
            0real <= top <= way ==> 0real <= share <= 1real,
    ;
    assert(other == 1real - clamped);
    assert(other * way == way - along) by (nonlinear_arith)
        requires
            other == 1real - clamped,
            clamped * way == along,
    ;
    assert(room * clamped >= 0real && room * other >= 0real) by (nonlinear_arith)
        requires
            room >= 0real,
            clamped >= 0real,
            other >= 0real,
    ;
    assert((room * clamped) * way == room * along) by (nonlinear_arith)
        requires
            clamped * way == along,
    ;
    assert((room * other) * way == room * (way - along)) by (nonlinear_arith)
        requires
            other * way == way - along,
    ;
    let room_x = scene.content_bounds.width.value - scene.viewport_bounds.width.value;
    if let Offset::Relative(p) = s.offset_x {
        let p = p.value;
        assert(room_x * p == p * room_x) by (nonlinear_arith);
    }
}

/// The space that a scrollbar takes from the content: none, unless it is shown and has a distance
/// to the content.
pub open spec fn taken(style: Option<Scrollbar<Exact>>, visible: bool) -> real {
    match style {
        Some(style) => match style.spacing {
            Some(spacing) => if visible {
                across(style) + spacing.value
            } else {
                0real
            },
            None => 0real,
        },
        None => 0real,
    }
}

/// A difference, or zero where that would be negative.
pub open spec fn less(a: real, b: real) -> real {
    if a >= b {
        a - b
    } else {
        0real
    }
}

/// The viewport is what the scrollbars leave: the vertical one takes from the width, and the
/// horizontal one from the height. Laying out and handling events agree on that.
pub proof fn law_scrollbars_take_their_space(
    s: State<Exact>,
    direction: Direction<Exact>,
    bounds: Rectangle<Exact>,
    content: Size<Exact>,
    cache_key: u64,
)
    ensures
        ({
            let viewport = viewport_of(direction, s, bounds);
            let size = Size { width: bounds.width, height: bounds.height };
            let plan = plan_of(s, direction, size, content, cache_key);
            &&& viewport.x == bounds.x
            &&& viewport.y == bounds.y
            &&& viewport.width.value == less(
                bounds.width.value,
                taken(style_y(direction), s.is_y_scrollbar_visible),
            )
            &&& viewport.height.value == less(
                bounds.height.value,
                taken(style_x(direction), s.is_x_scrollbar_visible),
            )
            &&& plan.viewport.width == viewport.width
            &&& plan.viewport.height == viewport.height
        }),
{
    lemma_fractions();
    if let Some(style) = style_y(direction) {
        lemma_doubled(style);
    }
    if let Some(style) = style_x(direction) {
        lemma_doubled(style);
    }
}

/// A scrollbar that takes space is shown for content that is larger than the scrollable, and not
/// for content that fits even beside the other scrollbar. A scrollbar that takes no space is never
/// counted.
pub proof fn law_scrollbars_are_shown_where_needed(
    s: State<Exact>,
    direction: Direction<Exact>,
    bounds: Size<Exact>,
    content: Size<Exact>,
)
    requires
        0real <= bounds.width.value,
        0real <= bounds.height.value,
        match style_x(direction) {
            Some(style) => 0real <= taken(Some(style), true),
            None => true,
        },
        match style_y(direction) {
            Some(style) => 0real <= taken(Some(style), true),
            None => true,
        },
    ensures
        ({
            let after = with_scrollbars(s, direction, bounds, content);
            let takes_y = style_y(direction) is Some && style_y(direction)->0.spacing is Some;
            let takes_x = style_x(direction) is Some && style_x(direction)->0.spacing is Some;
            &&& takes_y && bounds.height.value < content.height.value
                ==> after.is_y_scrollbar_visible
            &&& takes_x && bounds.width.value < content.width.value ==> after.is_x_scrollbar_visible
            &&& !takes_y || content.height.value <= less(
                bounds.height.value,
                taken(style_x(direction), true),
            ) ==> !after.is_y_scrollbar_visible
            &&& !takes_x || content.width.value <= less(
                bounds.width.value,
                taken(style_y(direction), true),
            ) ==> !after.is_x_scrollbar_visible
            &&& after.offset_x == s.offset_x
            &&& after.offset_y == s.offset_y
        }),
{
    lemma_fractions();
    if let Some(style) = style_y(direction) {
        lemma_doubled(style);
    }
    if let Some(style) = style_x(direction) {
        lemma_doubled(style);
    }
}

/// What is visible starts where the content is shifted to, is as large as the viewport, and does
/// not go past the end of the content.
pub proof fn law_visible_part_is_within_the_content(
    shift: Vector<Exact>,
    viewport: Size<Exact>,
    content: Size<Exact>,
)
    requires
        0real <= shift.x.value <= content.width.value,
        0real <= shift.y.value <= content.height.value,
        0real <= viewport.width.value,
        0real <= viewport.height.value,
    ensures
        ({
            let part = visible_part(shift, viewport, content);
            &&& part.x == shift.x
            &&& part.y == shift.y
            &&& 0real <= part.width.value <= viewport.width.value
            &&& 0real <= part.height.value <= viewport.height.value
            &&& part.x.value + part.width.value <= content.width.value
            &&& part.y.value + part.height.value <= content.height.value
            &&& part.width == viewport.width || part.x.value + part.width.value
                == content.width.value
            &&& part.height == viewport.height || part.y.value + part.height.value
                == content.height.value
        }),
{
    lemma_fractions();
}

/// Content is as large as it is said to be; where nothing is said, it is as large as the
/// scrollable.
pub proof fn law_content_has_its_size(content_size: Size<Exact>, bounds: Rectangle<Exact>)
    ensures
        ({
            let content = content_of(content_size, bounds);
            &&& content.x == bounds.x
            &&& content.y == bounds.y
            &&& content_size.width.value > 0real ==> content.width == content_size.width
            &&& content_size.width.value <= 0real ==> content.width == bounds.width
            &&& content_size.height.value > 0real ==> content.height == content_size.height
            &&& content_size.height.value <= 0real ==> content.height == bounds.height
        }),
{
    lemma_fractions();
}

/// Content sees the cursor only where it is over the scrollable and over no scrollbar.
pub proof fn law_content_sees_the_cursor_above_it(
    direction: Direction<Exact>,
    content_size: Size<Exact>,
    s: State<Exact>,
    bounds: Rectangle<Exact>,
    at: Point<Exact>,
)
    ensures
        ({
            let cursor = Cursor::Available(at);
            let scene = scene_of(direction, content_size, s, bounds, cursor);
            let inside = bounds.x.value <= at.x.value && at.x.value < bounds.x.value
                + bounds.width.value && bounds.y.value <= at.y.value && at.y.value < bounds.y.value
                + bounds.height.value;
            let on_y = match scene.scrollbars.y {
                Some(bar) => bar.total_bounds.covers(at),
                None => false,
            };
            let on_x = match scene.scrollbars.x {
                Some(bar) => bar.total_bounds.covers(at),
                None => false,
            };
            &&& scene.over == (if inside {
                Some(at)
            } else {
                None
            })
            &&& scene.over_y_scrollbar == on_y
            &&& scene.over_x_scrollbar == on_x
            &&& scene.content_cursor(cursor) == (if inside && !on_x && !on_y {
                Cursor::Available(at)
            } else {
                Cursor::Levitating(at)
            })
        }),
{
}

/// Pressing the left button on a vertical scrollbar, or putting a finger there, holds its scroller:
/// where the cursor is on it, and in its middle where the cursor is beside it. Then the content is
/// where the scroller is: the scroller is held at the pointer, as far as its way goes.
pub proof fn law_press_holds_the_scroller(
    s: State<Exact>,
    reports: bool,
    scene: Scene<Exact>,
    event: Event<Exact>,
    pointer: Point<Exact>,
    now: Instant,
)
    requires
        event matches Event::Mouse(MouseEvent::ButtonPressed { button: Button::Left })
            || event matches Event::Touch(TouchEvent::FingerPressed { .. }),
        s.interaction is Idle,
        scene.over_y_scrollbar,
        scene.scrollbars.y is Some,
        scene.scrollbars.y->0.scroller is Some,
        holds(scene.scrollbars.y->0.total_bounds, pointer),
    ensures
        ({
            let step = drag_y_step(s, reports, scene, event, Cursor::Available(pointer), now);
            let bar = scene.scrollbars.y->0;
            let scroller = bar.scroller->0.bounds;
            let held = step.state.interaction->YScrollerGrabbed_0;
            &&& step.state.interaction is YScrollerGrabbed
            &&& !holds(scroller, pointer) ==> 2real * held.value == 1real
            &&& holds(scroller, pointer) ==> held.value * scroller.height.value == pointer.y.value
                - scroller.y.value
            &&& step.state.offset_y == Offset::at_share(bar.share_y(held, pointer)).settled(
                scene.bounds.height,
                scene.content_bounds.height,
            )
            &&& step.effects.len() > 0 && step.effects.last() is CaptureEvent
            &&& !step.stop
        }),
{
    lemma_two();
    let scroller = scene.scrollbars.y->0.scroller->0.bounds;
    let way = pointer.y.value - scroller.y.value;
    let h = scroller.height.value;
    if holds(scroller, pointer) {
        assert((way / h) * h == way) by (nonlinear_arith)
            requires
                h > 0real,
        ;
    }
    assert(2real * (1real / 2real) == 1real) by (nonlinear_arith);
}

/// While a scroller is held, the place of the content along its way is the place of the scroller
/// along its own.
pub proof fn law_share_is_the_place_of_the_scroller(
    bar: crate::scrolling::virtual_scrollable::internals::Scrollbar<Exact>,
    held: Exact,
    pointer: Point<Exact>,
)
    requires
        bar.scroller is Some,
        bar.scroller->0.bounds.height.value < bar.bounds.height.value,
        bar.scroller->0.bounds.width.value < bar.bounds.width.value,
    ensures
        ({
            let scroller = bar.scroller->0.bounds;
            let way_y = bar.bounds.height.value - scroller.height.value;
            let way_x = bar.bounds.width.value - scroller.width.value;
            let top = pointer.y.value - scroller.height.value * held.value - bar.bounds.y.value;
            let left = pointer.x.value - scroller.width.value * held.value - bar.bounds.x.value;
            match bar.alignment {
                Anchor::Start => {
                    &&& bar.share_y(held, pointer).value * way_y == top
                    &&& bar.share_x(held, pointer).value * way_x == left
                },
                Anchor::End => {
                    &&& (1real - bar.share_y(held, pointer).value) * way_y == top
                    &&& (1real - bar.share_x(held, pointer).value) * way_x == left
                },
            }
        }),
{
    lemma_fractions();
    let scroller = bar.scroller->0.bounds;
    let way_y = bar.bounds.height.value - scroller.height.value;
    let way_x = bar.bounds.width.value - scroller.width.value;
    let top = pointer.y.value - bar.bounds.y.value - scroller.height.value * held.value;
    let left = pointer.x.value - bar.bounds.x.value - scroller.width.value * held.value;
    assert((top / way_y) * way_y == top) by (nonlinear_arith)
        requires
            way_y > 0real,
    ;
    assert((left / way_x) * way_x == left) by (nonlinear_arith)
        requires
            way_x > 0real,
    ;
    let y = top / way_y;
    let x = left / way_x;
    assert((1real - (1real - y)) * way_y == y * way_y) by (nonlinear_arith);
    assert((1real - (1real - x)) * way_x == x * way_x) by (nonlinear_arith);
}

/// Content is built again when a side of what is visible of it has moved by more than a hundredth
/// of a pixel since it was built, when its key has changed, or when no layout of it is kept.
pub proof fn law_content_is_rebuilt_when_it_moves(
    s: State<Exact>,
    direction: Direction<Exact>,
    bounds: Size<Exact>,
    content: Size<Exact>,
    cache_key: u64,
)
    ensures
        ({
            let plan = plan_of(s, direction, bounds, content, cache_key);
            let v = plan.visible;
            let far = |a: real, b: real| 100real * (a - b) > 1real || 100real * (b - a) > 1real;
            let moved = match s.cached_viewport {
                Some(kept) => far(kept.x.value, v.x.value) || far(kept.y.value, v.y.value) || far(
                    kept.width.value,
                    v.width.value,
                ) || far(kept.height.value, v.height.value),
                None => true,
            };
            let after = laid_out(s, plan, cache_key);
            &&& plan.rebuild == (moved || s.cached_key != cache_key || !s.has_cached_layout)
            &&& plan.rebuild ==> after.cached_viewport == Some(v) && after.cached_key == cache_key
                && after.has_cached_layout
            &&& !plan.rebuild ==> after == s
            &&& after.offset_x == s.offset_x && after.offset_y == s.offset_y
        }),
{
    let hundredth = 1real / 100real;
    assert(100real * hundredth == 1real) by (nonlinear_arith)
        requires
            hundredth == 1real / 100real,
    ;
}

/// What is visible after laying out starts as far along the content as the content is scrolled,
/// within the viewport that the scrollbars leave.
pub proof fn law_layout_shows_where_content_is(
    s: State<Exact>,
    direction: Direction<Exact>,
    bounds: Size<Exact>,
    content: Size<Exact>,
    cache_key: u64,
    distance: real,
)
    requires
        style_y(direction) is Some,
        stands_at(
            s.offset_y,
            content.height.value - plan_of(
                s,
                direction,
                bounds,
                content,
                cache_key,
            ).viewport.height.value,
            distance,
        ),
    ensures
        ({
            let plan = plan_of(s, direction, bounds, content, cache_key);
            let room = content.height.value - plan.viewport.height.value;
            let below = content.height.value - plan.visible.y.value;
            &&& plan.visible.y == (match style_y(direction)->0.alignment {
                Anchor::Start => exact(distance).rounded(),
                Anchor::End => exact(room - distance).rounded(),
            })
            &&& 0real <= plan.viewport.height.value <= below ==> plan.visible.height
                == plan.viewport.height
            &&& 0real <= below < plan.viewport.height.value ==> plan.visible.height.value == below
        }),
{
    lemma_fractions();
    let plan = plan_of(s, direction, bounds, content, cache_key);
    let zero = Exact::fraction(0, 1);
    crate::scrolling::virtual_scrollable::motion_laws::law_content_is_shifted_up(
        s,
        direction,
        Rectangle {
            x: zero,
            y: zero,
            width: plan.viewport.width,
            height: plan.viewport.height,
        },
        Rectangle { x: zero, y: zero, width: content.width, height: content.height },
        distance,
    );
}

/// Any other event leaves scrollers alone that are not held, and so does any event that is not
/// above a scrollbar.
pub proof fn law_other_events_hold_no_scroller<S: Arithmetic>(
    s: State<S>,
    reports: bool,
    scene: Scene<S>,
    event: Event<S>,
    cursor: Cursor<S>,
    now: Instant,
)
    requires
        s.interaction is Idle,
        !(event matches Event::Mouse(MouseEvent::ButtonPressed { button: Button::Left })
            || event matches Event::Touch(TouchEvent::FingerPressed { .. })) || (
        !scene.over_y_scrollbar && !scene.over_x_scrollbar),
    ensures
        ({
            let step = drag_step(s, reports, scene, event, cursor, now);
            step.state == s && step.effects.len() == 0 && !step.stop
        }),
{
}

/// A scroller that is held and a cursor that is nowhere move nothing; the event is done with.
pub proof fn law_lost_cursor_drags_nothing<S: Arithmetic>(
    s: State<S>,
    wishes: Wishes<S>,
    scene: Scene<S>,
    event: Event<S>,
    cached: Option<Rectangle<S>>,
    now: Instant,
)
    requires
        s.interaction is YScrollerGrabbed && scene.scrollbars.y is Some || s.interaction
            is XScrollerGrabbed,
        event matches Event::Mouse(MouseEvent::CursorMoved { .. }) || event matches Event::Touch(
            TouchEvent::FingerMoved { .. },
        ),
    ensures
        ({
            let step = drag_step(s, wishes.reports, scene, event, Cursor::Unavailable, now);
            &&& step.state == s
            &&& step.effects.len() == 0
            &&& next_of(s, wishes, scene, event, Cursor::Unavailable, cached, now) is Settle
        }),
{
}

/// The scrollbar that is used when no other is asked for is ten pixels wide and takes no space from
/// the content.
pub proof fn law_plain_scrollbar_takes_no_space()
    ensures
        plain_scrollbar::<Exact>().thickness().value == 10real,
        plain_scrollbar::<Exact>().embedding() is None,
        plain_scrollbar::<Exact>().alignment == Anchor::Start,
{
    lemma_fractions();
    lemma_doubled(plain_scrollbar());
    assert(10real / 1real == 10real) by (nonlinear_arith);
}

/// Laying out and handling events agree on how large the content is.
pub proof fn law_content_size_is_agreed<S: Arithmetic>(
    content_size: Size<S>,
    bounds: Rectangle<S>,
)
    ensures
        ({
            let laid_out = content_within(
                content_size,
                Size { width: bounds.width, height: bounds.height },
            );
            let seen = content_of(content_size, bounds);
            laid_out.width == seen.width && laid_out.height == seen.height
        }),
{
}

} // verus!
