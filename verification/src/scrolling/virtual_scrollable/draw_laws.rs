//! What is drawn of a virtual scrollable, in exact arithmetic.
use vstd::prelude::*;

use crate::geometry::{Cursor, Rectangle, Vector};
use crate::scalar::exact::{exact, lemma_fractions, Exact};
use crate::scalar::Arithmetic;
use crate::scrolling::scrollable::Status;
use crate::scrolling::virtual_scrollable::draw::{
    all_quads, arrows_of, content_shift, scrollbar_quads, Arrow, AutoScrollIcon, Color, Edge, Fill,
    Quad, ScrollStyle,
};
use crate::scrolling::virtual_scrollable::internals;
use crate::scrolling::virtual_scrollable::scene::{statuses_differ, Scene};
use crate::scrolling::virtual_scrollable::state::State;
use crate::scrolling::virtual_scrollable::turned_laws::{
    turned, turned_area, turned_bar, turned_scene,
};
use crate::scrolling::virtual_scrollable::VirtualScrollable;

verus! {

/// Whether a color can be seen: it is not black without any opacity.
pub open spec fn can_be_seen(color: Color<Exact>) -> bool {
    color.r.value != 0real || color.g.value != 0real || color.b.value != 0real || color.a.value
        != 0real
}

/// Whether a part of a vertical scrollbar is drawn where it should be: it keeps its length, and
/// where it is drawn thin, its right edge and at most the wanted width.
pub open spec fn is_drawn_upright(
    drawn: Rectangle<Exact>,
    area: Rectangle<Exact>,
    thin: bool,
    width: real,
) -> bool {
    &&& drawn.y == area.y
    &&& drawn.height == area.height
    &&& drawn.x.value + drawn.width.value == area.x.value + area.width.value
    &&& !thin || width >= area.width.value ==> drawn.width == area.width
    &&& thin && 0real <= width < area.width.value ==> drawn.width.value == width
}

/// A scroller is the last thing that is drawn of a vertical scrollbar. It has the color for being
/// dragged while it is, else the one for the cursor above it, and else its own. While it floats
/// with room of its own and is not used, it is a thin line at the right edge.
pub proof fn law_scroller_is_drawn(
    style: ScrollStyle<Exact>,
    bar: internals::Scrollbar<Exact>,
    is_hovered: bool,
    is_dragged: bool,
)
    requires
        bar.scroller is Some,
        bar.scroller->0.bounds.width.value > 0real,
        bar.scroller->0.bounds.height.value > 0real,
        style.floating_width.value > 0real,
        can_be_seen(style.handle_color),
        can_be_seen(style.handle_color_hovered),
        can_be_seen(style.handle_color_dragged),
    ensures
        ({
            let quads = scrollbar_quads(style, bar, true, is_hovered, is_dragged);
            let thin = style.floating && style.floating_allocated_width.value > 0real && !is_hovered
                && !is_dragged;
            &&& quads.len() > 0
            &&& quads.last().fill == Fill::Rounded(
                if is_dragged {
                    style.handle_color_dragged
                } else if is_hovered {
                    style.handle_color_hovered
                } else {
                    style.handle_color
                },
            )
            &&& is_drawn_upright(
                quads.last().bounds,
                bar.scroller->0.bounds,
                thin,
                style.floating_width.value,
            )
        }),
{
    lemma_fractions();
}

/// A rail with a color is the first thing that is drawn of a vertical scrollbar, and drawn thin
/// when the scroller is; a rail without a color is not drawn, nor is anything without a scroller.
pub proof fn law_rail_is_drawn(
    style: ScrollStyle<Exact>,
    bar: internals::Scrollbar<Exact>,
    is_hovered: bool,
    is_dragged: bool,
)
    requires
        bar.bounds.width.value > 0real,
        bar.bounds.height.value > 0real,
        style.floating_width.value > 0real,
    ensures
        ({
            let quads = scrollbar_quads(style, bar, true, is_hovered, is_dragged);
            let thin = style.floating && style.floating_allocated_width.value > 0real && !is_hovered
                && !is_dragged;
            &&& style.rail_background is Some && can_be_seen(style.rail_background->0) ==> {
                &&& quads.len() > 0
                &&& quads[0].fill == Fill::Rounded(style.rail_background->0)
                &&& is_drawn_upright(
                    quads[0].bounds,
                    bar.bounds,
                    thin,
                    style.floating_width.value,
                )
            }
            &&& style.rail_background is None && bar.scroller is None ==> quads.len() == 0
            &&& style.rail_background is None ==> quads.len() <= 1
            &&& quads.len() <= 2
        }),
{
    lemma_fractions();
}

/// Areas with their axes swapped.
pub open spec fn turned_quads<S>(quads: Seq<Quad<S>>) -> Seq<Quad<S>> {
    Seq::new(
        quads.len(),
        |i: int| Quad { bounds: turned_area(quads[i].bounds), fill: quads[i].fill },
    )
}

/// Both scrollbars are drawn alike.
pub proof fn law_drawing_can_be_turned<S: Arithmetic>(
    style: ScrollStyle<S>,
    bar: internals::Scrollbar<S>,
    is_vertical: bool,
    is_hovered: bool,
    is_dragged: bool,
)
    ensures
        scrollbar_quads(style, turned_bar(bar), !is_vertical, is_hovered, is_dragged)
            == turned_quads(scrollbar_quads(style, bar, is_vertical, is_hovered, is_dragged)),
{
    assert(scrollbar_quads(style, turned_bar(bar), !is_vertical, is_hovered, is_dragged)
        =~= turned_quads(scrollbar_quads(style, bar, is_vertical, is_hovered, is_dragged)));
}

/// Each scrollbar is drawn as what the status says of it: the vertical one first, then the
/// horizontal one, and last the gap where both would meet, if it has a background.
pub proof fn law_each_scrollbar_has_its_status<S: Arithmetic>(
    scene: Scene<S>,
    style: ScrollStyle<S>,
    status: Status<S>,
    gap: bool,
)
    ensures
        ({
            let quads = all_quads(scene, style, status, gap);
            let y = match scene.scrollbars.y {
                Some(bar) => match status {
                    Status::Active { .. } => scrollbar_quads(style, bar, true, false, false),
                    Status::Hovered { is_vertical_scrollbar_hovered: h, .. } => scrollbar_quads(
                        style,
                        bar,
                        true,
                        h,
                        false,
                    ),
                    Status::Dragged { is_vertical_scrollbar_dragged: d, .. } => scrollbar_quads(
                        style,
                        bar,
                        true,
                        false,
                        d,
                    ),
                },
                None => Seq::empty(),
            };
            let x = match scene.scrollbars.x {
                Some(bar) => match status {
                    Status::Active { .. } => scrollbar_quads(style, bar, false, false, false),
                    Status::Hovered { is_horizontal_scrollbar_hovered: h, .. } => scrollbar_quads(
                        style,
                        bar,
                        false,
                        h,
                        false,
                    ),
                    Status::Dragged { is_horizontal_scrollbar_dragged: d, .. } => scrollbar_quads(
                        style,
                        bar,
                        false,
                        false,
                        d,
                    ),
                },
                None => Seq::empty(),
            };
            let both = scene.scrollbars.x is Some && scene.scrollbars.y is Some;
            let rest = quads.len() - y.len() - x.len();
            &&& rest == (if both && gap {
                1int
            } else {
                0int
            })
            &&& quads.take(y.len() as int) == y
            &&& quads.skip(y.len() as int).take(x.len() as int) == x
            &&& both && gap ==> quads.last() == (Quad {
                bounds: Rectangle {
                    x: scene.scrollbars.y->0.bounds.x,
                    y: scene.scrollbars.x->0.bounds.y,
                    width: scene.scrollbars.y->0.bounds.width,
                    height: scene.scrollbars.x->0.bounds.height,
                },
                fill: Fill::Gap,
            })
        }),
{
    let quads = all_quads(scene, style, status, gap);
    let y = match scene.scrollbars.y {
        Some(bar) => scrollbar_quads(
            style,
            bar,
            true,
            crate::scrolling::virtual_scrollable::draw::hovered_bars(status).0,
            crate::scrolling::virtual_scrollable::draw::dragged_bars(status).0,
        ),
        None => Seq::empty(),
    };
    let x = match scene.scrollbars.x {
        Some(bar) => scrollbar_quads(
            style,
            bar,
            false,
            crate::scrolling::virtual_scrollable::draw::hovered_bars(status).1,
            crate::scrolling::virtual_scrollable::draw::dragged_bars(status).1,
        ),
        None => Seq::empty(),
    };
    assert(quads.take(y.len() as int) =~= y);
    assert(quads.skip(y.len() as int).take(x.len() as int) =~= x);
}

/// Content in rows is drawn so that the rows fall where they belong: it is moved up by less than a
/// row, to where a whole number of rows lies before it. Sideways, and without rows, it is moved by
/// less than a pixel, to where a whole number of pixels lies before it.
pub proof fn law_rows_fall_into_place(shift: Vector<Exact>, row_height: Option<Exact>)
    requires
        0real <= shift.y.value,
        row_height matches Some(h) ==> 0real < h.value,
    ensures
        ({
            let moved = content_shift(shift, row_height);
            let size = match row_height {
                Some(h) => h.value,
                None => 1real,
            };
            let rows = (shift.y.value / size).floor();
            let pixels = shift.x.value.floor();
            &&& shift.y.value + moved.y.value == rows as real * size
            &&& -size < moved.y.value <= 0real
            &&& shift.x.value + moved.x.value == pixels as real
            &&& -(1real) < moved.x.value <= 0real
        }),
{
    let y = shift.y.value;
    match row_height {
        Some(h) => {
            let q = y / h.value;
            let down = q.floor() as real;
            let size = h.value;
            assert(q * size == y) by (nonlinear_arith)
                requires
                    0real < size,
                    q == y / size,
            ;
            assert(0real <= q) by (nonlinear_arith)
                requires
                    0real < size,
                    q * size == y,
                    0real <= y,
            ;
            assert(down <= q < down + 1real);
            assert(down * size <= q * size && q * size < down * size + size) by (nonlinear_arith)
                requires
                    0real < size,
                    down <= q < down + 1real,
            ;
        },
        None => {
            assert(y / 1real == y) by (nonlinear_arith);
            let down = y.floor() as real;
            assert(down * 1real == down) by (nonlinear_arith);
            assert(down <= y < down + 1real);
        },
    }
    let down_x = shift.x.value.floor() as real;
    assert(down_x <= shift.x.value < down_x + 1real);
}

/// The icon that marks where scrolling started shows two arrows for each axis that scrolls: those
/// up and down above and below its middle, at the top and at the bottom, and those to the sides at
/// the left and at the right, which change places where text runs from right to left.
pub proof fn law_icon_shows_where_to_scroll(
    icon: AutoScrollIcon<Exact>,
    area: Rectangle<Exact>,
    rtl: bool,
)
    requires
        area.width.value > 10real,
        area.height.value > 9real,
    ensures
        ({
            let arrows = arrows_of(icon, area, rtl);
            let sideways = if icon.vertical {
                2int
            } else {
                0int
            };
            let middle = area.x.value + area.width.value / 2real;
            let bottom = area.y.value + area.height.value;
            let right = area.x.value + area.width.value;
            &&& arrows.len() == sideways + (if icon.horizontal {
                2int
            } else {
                0int
            })
            &&& icon.vertical ==> {
                &&& arrows[0].arrow == Arrow::Up && arrows[0].edge == Edge::Top
                &&& arrows[1].arrow == Arrow::Down && arrows[1].edge == Edge::Bottom
                &&& arrows[0].position.x.value == middle && arrows[1].position.x.value == middle
                &&& arrows[0].position.y.value - area.y.value == 4real
                &&& 2real * (bottom - arrows[1].position.y.value) == 9real
                &&& arrows[0].position.y.value < arrows[1].position.y.value
            }
            &&& icon.horizontal ==> {
                let left = arrows[sideways];
                let other = arrows[sideways + 1];
                &&& left.edge == Edge::Left && other.edge == Edge::Right
                &&& left.arrow == (if rtl {
                    Arrow::Right
                } else {
                    Arrow::Left
                })
                &&& other.arrow == (if rtl {
                    Arrow::Left
                } else {
                    Arrow::Right
                })
                &&& left.position.y == other.position.y
                &&& left.position.y.value == area.y.value + area.height.value / 2real + 1real
                &&& left.position.x.value - area.x.value == 5real
                &&& right - other.position.x.value == 5real
                &&& left.position.x.value < other.position.x.value
            }
        }),
{
    lemma_fractions();
    assert(4real / 1real == 4real) by (nonlinear_arith);
    assert(2real / 1real == 2real) by (nonlinear_arith);
    assert(2real * (1real / 2real) == 1real) by (nonlinear_arith);
    assert(Exact::fraction(4, 1) == exact(4real));
    assert(Exact::fraction(2, 1) == exact(2real));
    assert(area.middle_x().value == area.x.value + area.width.value / 2real);
    assert(area.middle_y().value == area.y.value + area.height.value / 2real);
    let arrows = arrows_of(icon, area, rtl);
    if icon.vertical {
        assert(arrows[0].position.y.value == area.y.value + 4real);
        assert(arrows[1].position.y.value == area.y.value + area.height.value - 4real - 1real
            / 2real);
    }
    if icon.horizontal {
        let sideways = if icon.vertical {
            2int
        } else {
            0int
        };
        assert(arrows[sideways].position.x.value == area.x.value + 4real + 1real);
        assert(arrows[sideways + 1].position.x.value == area.x.value + area.width.value - 4real
            - 1real);
    }
}

/// Both scrollbars are told apart in a status: swapping the axes swaps what it says of them.
pub open spec fn turned_status<S>(status: Status<S>) -> Status<S> {
    match status {
        Status::Active {
            hover_factor,
            is_horizontal_scrollbar_disabled,
            is_vertical_scrollbar_disabled,
        } => Status::Active {
            hover_factor,
            is_horizontal_scrollbar_disabled: is_vertical_scrollbar_disabled,
            is_vertical_scrollbar_disabled: is_horizontal_scrollbar_disabled,
        },
        Status::Hovered {
            hover_factor,
            is_horizontal_scrollbar_hovered,
            is_vertical_scrollbar_hovered,
            is_horizontal_scrollbar_disabled,
            is_vertical_scrollbar_disabled,
        } => Status::Hovered {
            hover_factor,
            is_horizontal_scrollbar_hovered: is_vertical_scrollbar_hovered,
            is_vertical_scrollbar_hovered: is_horizontal_scrollbar_hovered,
            is_horizontal_scrollbar_disabled: is_vertical_scrollbar_disabled,
            is_vertical_scrollbar_disabled: is_horizontal_scrollbar_disabled,
        },
        Status::Dragged {
            hover_factor,
            is_horizontal_scrollbar_dragged,
            is_vertical_scrollbar_dragged,
            is_horizontal_scrollbar_disabled,
            is_vertical_scrollbar_disabled,
        } => Status::Dragged {
            hover_factor,
            is_horizontal_scrollbar_dragged: is_vertical_scrollbar_dragged,
            is_vertical_scrollbar_dragged: is_horizontal_scrollbar_dragged,
            is_horizontal_scrollbar_disabled: is_vertical_scrollbar_disabled,
            is_vertical_scrollbar_disabled: is_horizontal_scrollbar_disabled,
        },
    }
}

/// A scrollable is dragged while a scroller is held, and it is that scroller which is; else it is
/// hovered while the cursor is over it, and it is the scrollbar below the cursor which is. A
/// scrollbar is disabled as it was laid out, and one that is not shown never is.
pub proof fn law_status_says_what_happens<S: Arithmetic>(
    scene: Scene<S>,
    s: State<S>,
    hover_factor: S,
)
    ensures
        ({
            let status = scene.status_of(s, hover_factor);
            let other = turned_scene(scene).status_of(turned(s), hover_factor);
            let held_y = s.interaction is YScrollerGrabbed;
            let held = held_y || s.interaction is XScrollerGrabbed;
            let disabled = match scene.scrollbars.y {
                Some(bar) => bar.disabled,
                None => false,
            };
            &&& other == turned_status(status)
            &&& match status {
                Status::Dragged {
                    hover_factor: f,
                    is_vertical_scrollbar_dragged,
                    is_vertical_scrollbar_disabled,
                    ..
                } => held && f == hover_factor && is_vertical_scrollbar_dragged == held_y
                    && is_vertical_scrollbar_disabled == disabled,
                Status::Hovered {
                    hover_factor: f,
                    is_vertical_scrollbar_hovered,
                    is_vertical_scrollbar_disabled,
                    ..
                } => !held && scene.over is Some && f == hover_factor
                    && is_vertical_scrollbar_hovered == scene.over_y_scrollbar
                    && is_vertical_scrollbar_disabled == disabled,
                Status::Active { hover_factor: f, is_vertical_scrollbar_disabled, .. } => !held
                    && scene.over is None && f == hover_factor && is_vertical_scrollbar_disabled
                    == disabled,
            }
        }),
{
}

/// Statuses that do not differ are the same but for how far the hover animation is.
pub proof fn law_equal_statuses_say_the_same<S>(a: Status<S>, b: Status<S>)
    requires
        !statuses_differ(a, b),
        match (a, b) {
            (Status::Active { hover_factor: f, .. }, Status::Active { hover_factor: g, .. }) => f
                == g,
            (Status::Hovered { hover_factor: f, .. }, Status::Hovered { hover_factor: g, .. }) => f
                == g,
            (Status::Dragged { hover_factor: f, .. }, Status::Dragged { hover_factor: g, .. }) => f
                == g,
            _ => true,
        },
    ensures
        a == b,
{
}

/// Content is cut off exactly if a scrollbar is shown; only then is it moved. It sees the cursor
/// only above itself.
pub proof fn law_content_is_drawn_where_it_shows<S: Arithmetic, V, F, C, I>(
    widget: VirtualScrollable<S, V, F, C, I>,
    s: State<S>,
    scene: Scene<S>,
    visible: Rectangle<S>,
)
    ensures
        ({
            let plan = widget.content_plan(s, scene, visible);
            let shift = s.shifted(widget.direction, scene.viewport_bounds, scene.content_bounds);
            let scrolls = scene.scrollbars.y is Some || scene.scrollbars.x is Some;
            &&& plan.clipped == scrolls
            &&& scrolls ==> plan.translation == content_shift(shift, widget.row_height)
            &&& !scrolls ==> plan.translation == (Vector {
                x: S::fraction(0, 1),
                y: S::fraction(0, 1),
            })
            &&& plan.visible_bounds == visible
            &&& plan.cursor == (match scene.over {
                Some(p) => if scene.over_x_scrollbar || scene.over_y_scrollbar {
                    Cursor::Unavailable
                } else {
                    Cursor::Available(p)
                },
                None => Cursor::Unavailable,
            })
        }),
{
}

/// Scrollbars are drawn where the scrollable shows and two pixels beyond, but not beyond the size
/// of the view.
pub proof fn law_scrollbars_are_cut_off<V, F, C, I>(
    visible: Rectangle<Exact>,
    viewport: Rectangle<Exact>,
)
    ensures
        ({
            let layer = VirtualScrollable::<Exact, V, F, C, I>::scrollbar_layer(visible, viewport);
            &&& layer.x == visible.x && layer.y == visible.y
            &&& layer.width.value <= viewport.width.value
            &&& layer.height.value <= viewport.height.value
            &&& layer.width.value == visible.width.value + 2real || (layer.width == viewport.width
                && viewport.width.value < visible.width.value + 2real)
            &&& layer.height.value == visible.height.value + 2real || (layer.height
                == viewport.height && viewport.height.value < visible.height.value + 2real)
        }),
{
    assert(2real / 1real == 2real) by (nonlinear_arith);
}

/// A scrollable is drawn with the status that it was last found in; before that, as one that is
/// neither hovered nor dragged nor disabled.
pub proof fn law_last_status_is_drawn<V, F, C, I>(widget: VirtualScrollable<Exact, V, F, C, I>)
    ensures
        match widget.last_status {
            Some(status) => widget.shown_status() == status,
            None => widget.shown_status() matches Status::Active {
                hover_factor,
                is_horizontal_scrollbar_disabled,
                is_vertical_scrollbar_disabled,
            } && hover_factor.value == 0real && !is_horizontal_scrollbar_disabled
                && !is_vertical_scrollbar_disabled,
        },
{
    lemma_fractions();
}

} // verus!
