//! What is drawn of a virtual scrollable.
use vstd::prelude::*;

use crate::geometry::{Cursor, Point, Rectangle, Vector};
use crate::scalar::{zero, Arithmetic, Scalar};
use crate::scrolling::scrollable::Status;
use crate::scrolling::virtual_scrollable::internals;
use crate::scrolling::virtual_scrollable::scene::{scene_of, Scene};
use crate::scrolling::virtual_scrollable::state::{Interaction, State};
use crate::scrolling::virtual_scrollable::VirtualScrollable;

verus! {

/// A color.
#[derive(Clone, Copy, Debug)]
pub struct Color<S> {
    pub r: S,
    pub g: S,
    pub b: S,
    pub a: S,
}

/// How scrollbars look.
#[derive(Clone, Copy, Debug)]
pub struct ScrollStyle<S> {
    /// Whether scrollbars float above the content.
    pub floating: bool,
    /// The width of a floating scrollbar that is not used.
    pub floating_width: S,
    /// The room that floating scrollbars are given all the same.
    pub floating_allocated_width: S,
    pub rail_background: Option<Color<S>>,
    pub handle_color: Color<S>,
    pub handle_color_hovered: Color<S>,
    pub handle_color_dragged: Color<S>,
}

/// What an area is filled with.
#[derive(Clone, Copy, Debug)]
pub enum Fill<S> {
    /// A color, with rounded corners.
    Rounded(Color<S>),
    /// The background of the gap between two scrollbars.
    Gap,
}

/// An area that is filled.
#[derive(Clone, Copy, Debug)]
pub struct Quad<S> {
    pub bounds: Rectangle<S>,
    pub fill: Fill<S>,
}

/// How the content is drawn.
#[derive(Clone, Copy, Debug)]
pub struct ContentPlan<S> {
    /// Whether the content is cut off at its visible bounds.
    pub clipped: bool,
    /// How far the content is moved.
    pub translation: Vector<S>,
    /// The cursor as the content sees it.
    pub cursor: Cursor<S>,
    /// The area of the scrollable that is visible.
    pub visible_bounds: Rectangle<S>,
}

/// How the scrollbars are drawn.
#[derive(Debug)]
pub struct ScrollbarPlan<S> {
    /// Where they are cut off.
    pub layer: Rectangle<S>,
    /// What is filled, in order.
    pub quads: Vec<Quad<S>>,
}

/// What is drawn above the background.
#[derive(Debug)]
pub struct DrawPlan<S> {
    pub content: Option<ContentPlan<S>>,
    pub scrollbars: Option<ScrollbarPlan<S>>,
}

/// What is there to be drawn of the content.
#[derive(Clone, Copy, Debug, PartialEq, Eq, Structural)]
pub struct ContentParts {
    /// Whether the content has a widget state.
    pub has_state: bool,
    /// Whether the content has been laid out.
    pub has_layout: bool,
}

impl<S: Arithmetic> Color<S> {
    /// Whether nothing of the color can be seen.
    pub open spec fn is_clear(self) -> bool {
        self.r.same(zero()) && self.g.same(zero()) && self.b.same(zero()) && self.a.same(zero())
    }
}

impl<S: Scalar> Color<S> {
    /// Tests whether nothing of the color can be seen.
    pub fn is_transparent(&self) -> (r: bool)
        ensures
            r == self.is_clear(),
    {
        let zero: S = S::ratio(0, 1);
        self.r.eq(zero) && self.g.eq(zero) && self.b.eq(zero) && self.a.eq(zero)
    }
}

/// A scrollbar area made as thin as wanted, at its outer edge.
pub open spec fn thinned<S: Arithmetic>(bounds: Rectangle<S>, thickness: S, is_vertical: bool) -> Rectangle<
    S,
> {
    if is_vertical {
        let t = thickness.greater(zero()).lesser(bounds.width);
        Rectangle { x: bounds.x.sum(bounds.width).difference(t), width: t, ..bounds }
    } else {
        let t = thickness.greater(zero()).lesser(bounds.height);
        Rectangle { y: bounds.y.sum(bounds.height).difference(t), height: t, ..bounds }
    }
}

fn thin<S: Scalar>(bounds: Rectangle<S>, thickness: S, is_vertical: bool) -> (r: Rectangle<S>)
    ensures
        r == thinned(bounds, thickness, is_vertical),
{
    let t: S = thickness.max(S::ratio(0, 1)).min(
        if is_vertical {
            bounds.width
        } else {
            bounds.height
        },
    );
    if is_vertical {
        Rectangle { x: bounds.x.plus(bounds.width).minus(t), width: t, ..bounds }
    } else {
        Rectangle { y: bounds.y.plus(bounds.height).minus(t), height: t, ..bounds }
    }
}

/// An area that is filled, unless it is empty or its color cannot be seen.
pub open spec fn painted<S: Arithmetic>(bounds: Rectangle<S>, color: Color<S>) -> Seq<Quad<S>> {
    if zero::<S>().below(bounds.width) && zero::<S>().below(bounds.height) && !color.is_clear() {
        seq![Quad { bounds, fill: Fill::Rounded(color) }]
    } else {
        Seq::empty()
    }
}

fn paint<S: Scalar>(bounds: Rectangle<S>, color: Color<S>, quads: &mut Vec<Quad<S>>)
    ensures
        final(quads)@ == old(quads)@ + painted(bounds, color),
{
    let ghost before = quads@;
    if S::ratio(0, 1).lt(bounds.width) && S::ratio(0, 1).lt(bounds.height)
        && !color.is_transparent() {
        quads.push(Quad { bounds, fill: Fill::Rounded(color) });
    }
    assert(quads@ =~= before + painted(bounds, color));
}

/// Whether a scrollbar is drawn as a thin line: it floats with room of its own, and is not used.
pub open spec fn is_collapsed<S: Arithmetic>(style: ScrollStyle<S>, is_hovered: bool, is_dragged: bool) -> bool {
    style.floating && zero::<S>().below(style.floating_allocated_width) && !is_hovered
        && !is_dragged
}

/// The color of a scroller.
pub open spec fn handle_color<S>(style: ScrollStyle<S>, is_hovered: bool, is_dragged: bool) -> Color<S> {
    if is_dragged {
        style.handle_color_dragged
    } else if is_hovered {
        style.handle_color_hovered
    } else {
        style.handle_color
    }
}

/// What is filled for a scrollbar: its rail, and its scroller.
pub open spec fn scrollbar_quads<S: Arithmetic>(
    style: ScrollStyle<S>,
    scrollbar: internals::Scrollbar<S>,
    is_vertical: bool,
    is_hovered: bool,
    is_dragged: bool,
) -> Seq<Quad<S>> {
    let collapsed = is_collapsed(style, is_hovered, is_dragged);
    let rail = match style.rail_background {
        Some(color) => painted(
            if collapsed {
                thinned(scrollbar.bounds, style.floating_width, is_vertical)
            } else {
                scrollbar.bounds
            },
            color,
        ),
        None => Seq::empty(),
    };
    let handle = match scrollbar.scroller {
        Some(scroller) => painted(
            if collapsed {
                thinned(scroller.bounds, style.floating_width, is_vertical)
            } else {
                scroller.bounds
            },
            handle_color(style, is_hovered, is_dragged),
        ),
        None => Seq::empty(),
    };
    rail + handle
}

fn draw_scrollbar<S: Scalar>(
    style: &ScrollStyle<S>,
    scrollbar: &internals::Scrollbar<S>,
    is_vertical: bool,
    is_hovered: bool,
    is_dragged: bool,
    quads: &mut Vec<Quad<S>>,
)
    ensures
        final(quads)@ == old(quads)@ + scrollbar_quads(
            *style,
            *scrollbar,
            is_vertical,
            is_hovered,
            is_dragged,
        ),
{
    let ghost before = quads@;
    let is_interacting: bool = is_hovered || is_dragged;
    let is_thin_like: bool = style.floating && S::ratio(0, 1).lt(style.floating_allocated_width);
    let collapsed: bool = is_thin_like && !is_interacting;
    if let Some(color) = style.rail_background {
        let bounds: Rectangle<S> = if collapsed {
            thin(scrollbar.bounds, style.floating_width, is_vertical)
        } else {
            scrollbar.bounds
        };
        paint(bounds, color, quads);
    }
    if let Some(scroller) = scrollbar.scroller {
        let bounds: Rectangle<S> = if collapsed {
            thin(scroller.bounds, style.floating_width, is_vertical)
        } else {
            scroller.bounds
        };
        let color: Color<S> = if is_dragged {
            style.handle_color_dragged
        } else if is_hovered {
            style.handle_color_hovered
        } else {
            style.handle_color
        };
        paint(bounds, color, quads);
    }
    assert(quads@ =~= before + scrollbar_quads(
        *style,
        *scrollbar,
        is_vertical,
        is_hovered,
        is_dragged,
    ));
}

/// Whether the vertical and the horizontal scrollbar are hovered.
pub open spec fn hovered_bars<S>(status: Status<S>) -> (bool, bool) {
    match status {
        Status::Hovered {
            is_vertical_scrollbar_hovered,
            is_horizontal_scrollbar_hovered,
            ..
        } => (is_vertical_scrollbar_hovered, is_horizontal_scrollbar_hovered),
        _ => (false, false),
    }
}

/// Whether the vertical and the horizontal scrollbar are dragged.
pub open spec fn dragged_bars<S>(status: Status<S>) -> (bool, bool) {
    match status {
        Status::Dragged {
            is_vertical_scrollbar_dragged,
            is_horizontal_scrollbar_dragged,
            ..
        } => (is_vertical_scrollbar_dragged, is_horizontal_scrollbar_dragged),
        _ => (false, false),
    }
}

/// What is filled for both scrollbars, and for the gap between them.
pub open spec fn all_quads<S: Arithmetic>(
    scene: Scene<S>,
    style: ScrollStyle<S>,
    status: Status<S>,
    has_gap_background: bool,
) -> Seq<Quad<S>> {
    let y = match scene.scrollbars.y {
        Some(scrollbar) => scrollbar_quads(
            style,
            scrollbar,
            true,
            hovered_bars(status).0,
            dragged_bars(status).0,
        ),
        None => Seq::empty(),
    };
    let x = match scene.scrollbars.x {
        Some(scrollbar) => scrollbar_quads(
            style,
            scrollbar,
            false,
            hovered_bars(status).1,
            dragged_bars(status).1,
        ),
        None => Seq::empty(),
    };
    let gap = match (scene.scrollbars.x, scene.scrollbars.y) {
        (Some(x), Some(y)) => if has_gap_background {
            seq![
                Quad {
                    bounds: Rectangle {
                        x: y.bounds.x,
                        y: x.bounds.y,
                        width: y.bounds.width,
                        height: x.bounds.height,
                    },
                    fill: Fill::Gap,
                },
            ]
        } else {
            Seq::empty()
        },
        _ => Seq::empty(),
    };
    y + x + gap
}

fn draw_scrollbars<S: Scalar>(
    scene: &Scene<S>,
    style: &ScrollStyle<S>,
    status: &Status<S>,
    has_gap_background: bool,
) -> (quads: Vec<Quad<S>>)
    ensures
        quads@ == all_quads(*scene, *style, *status, has_gap_background),
{
    let mut quads: Vec<Quad<S>> = Vec::new();
    let (is_v_hovered, is_h_hovered) = match status {
        Status::Hovered {
            is_vertical_scrollbar_hovered,
            is_horizontal_scrollbar_hovered,
            ..
        } => (*is_vertical_scrollbar_hovered, *is_horizontal_scrollbar_hovered),
        _ => (false, false),
    };
    let (is_v_dragged, is_h_dragged) = match status {
        Status::Dragged {
            is_vertical_scrollbar_dragged,
            is_horizontal_scrollbar_dragged,
            ..
        } => (*is_vertical_scrollbar_dragged, *is_horizontal_scrollbar_dragged),
        _ => (false, false),
    };
    if let Some(scrollbar) = &scene.scrollbars.y {
        draw_scrollbar(style, scrollbar, true, is_v_hovered, is_v_dragged, &mut quads);
    }
    if let Some(scrollbar) = &scene.scrollbars.x {
        draw_scrollbar(style, scrollbar, false, is_h_hovered, is_h_dragged, &mut quads);
    }
    if let (Some(x), Some(y)) = (&scene.scrollbars.x, &scene.scrollbars.y) {
        if has_gap_background {
            quads.push(
                Quad {
                    bounds: Rectangle {
                        x: y.bounds.x,
                        y: x.bounds.y,
                        width: y.bounds.width,
                        height: x.bounds.height,
                    },
                    fill: Fill::Gap,
                },
            );
        }
    }
    assert(quads@ =~= all_quads(*scene, *style, *status, has_gap_background));
    quads
}

/// How far content that is built for a viewport is moved back: rows by what is scrolled of the
/// first one, other content by what is scrolled of a pixel.
pub open spec fn content_shift<S: Arithmetic>(shift: Vector<S>, row_height: Option<S>) -> Vector<S> {
    Vector {
        x: shift.x.difference(shift.x.floored()).opposite(),
        y: match row_height {
            Some(row_height) => shift.y.remainder(row_height),
            None => shift.y.difference(shift.y.floored()),
        }.opposite(),
    }
}

fn find_content_shift<S: Scalar>(shift: Vector<S>, row_height: Option<S>) -> (r: Vector<S>)
    ensures
        r == content_shift(shift, row_height),
{
    let offset_x: S = shift.x.minus(shift.x.floor());
    let offset_y: S = match row_height {
        Some(row_height) => shift.y.modulo(row_height),
        None => shift.y.minus(shift.y.floor()),
    };
    Vector { x: offset_x.negate(), y: offset_y.negate() }
}

impl<S: Arithmetic, V, F, C, I> VirtualScrollable<S, V, F, C, I> {
    /// The status that the scrollable is drawn with.
    pub open spec fn shown_status(self) -> Status<S> {
        match self.last_status {
            Some(status) => status,
            None => Status::Active {
                hover_factor: zero(),
                is_horizontal_scrollbar_disabled: false,
                is_vertical_scrollbar_disabled: false,
            },
        }
    }

    /// How the content is drawn in a scene.
    pub open spec fn content_plan(
        self,
        state: State<S>,
        scene: Scene<S>,
        visible_bounds: Rectangle<S>,
    ) -> ContentPlan<S> {
        let scrolls = scene.scrollbars.y is Some || scene.scrollbars.x is Some;
        ContentPlan {
            clipped: scrolls,
            translation: if scrolls {
                content_shift(
                    state.shifted(self.direction, scene.viewport_bounds, scene.content_bounds),
                    self.row_height,
                )
            } else {
                Vector { x: zero(), y: zero() }
            },
            cursor: match scene.over_content() {
                Some(p) => Cursor::Available(p),
                None => Cursor::Unavailable,
            },
            visible_bounds,
        }
    }

    /// The area that scrollbars are drawn in.
    pub open spec fn scrollbar_layer(visible: Rectangle<S>, viewport: Rectangle<S>) -> Rectangle<S> {
        Rectangle {
            width: visible.width.sum(S::fraction(2, 1)).lesser(viewport.width),
            height: visible.height.sum(S::fraction(2, 1)).lesser(viewport.height),
            ..visible
        }
    }
}

impl<S: Scalar, V, F, C, I> VirtualScrollable<S, V, F, C, I> {
    /// Gives the status that the scrollable is drawn with.
    pub fn drawn_status(&self) -> (r: Status<S>)
        ensures
            r == self.shown_status(),
    {
        match self.last_status {
            Some(status) => status,
            None => Status::Active {
                hover_factor: S::ratio(0, 1),
                is_horizontal_scrollbar_disabled: false,
                is_vertical_scrollbar_disabled: false,
            },
        }
    }

    /// Plans what is drawn above the background; nothing at all outside of the viewport. The
    /// content that is kept is drawn where it has both a state and a layout; without a state
    /// nothing more is drawn.
    pub fn draw(
        &self,
        state: &State<S>,
        bounds: Rectangle<S>,
        cursor: Cursor<S>,
        viewport: Rectangle<S>,
        style: &ScrollStyle<S>,
        has_gap_background: bool,
        parts: ContentParts,
    ) -> (r: Option<DrawPlan<S>>)
        ensures
            r is Some <==> bounds.common(viewport) is Some,
            r is Some ==> {
                let visible = bounds.common(viewport)->0;
                let scene = scene_of(self.direction, self.content_size, *state, bounds, cursor);
                let scrolls = scene.scrollbars.y is Some || scene.scrollbars.x is Some;
                let is_broken = self.cached_content is Some && !parts.has_state;
                &&& r->0.content == (if self.cached_content is Some && parts.has_state
                    && parts.has_layout {
                    Some(self.content_plan(*state, scene, visible))
                } else {
                    None
                })
                &&& r->0.scrollbars is Some <==> scrolls && !is_broken
                &&& r->0.scrollbars is Some ==> r->0.scrollbars->0.layer == Self::scrollbar_layer(
                    visible,
                    viewport,
                ) && r->0.scrollbars->0.quads@ == all_quads(
                    scene,
                    *style,
                    self.shown_status(),
                    has_gap_background,
                )
            },
    {
        let visible_bounds: Rectangle<S> = match bounds.intersection(&viewport) {
            Some(visible) => visible,
            None => {
                return None;
            },
        };
        let scene: Scene<S> = self.scene(state, bounds, cursor);
        let content_cursor: Cursor<S> = match scene.find_over_content() {
            Some(p) => Cursor::Available(p),
            None => Cursor::Unavailable,
        };
        let scrolls: bool = scene.scrollbars.active();
        let has_content: bool = self.cached_content.is_some();
        let content: Option<ContentPlan<S>> = if has_content && parts.has_state && parts.has_layout {
            let translation: Vector<S> = if scrolls {
                let shift: Vector<S> = state.translation(
                    self.direction,
                    scene.viewport_bounds,
                    scene.content_bounds,
                );
                find_content_shift(shift, self.row_height)
            } else {
                Vector::none()
            };
            Some(
                ContentPlan {
                    clipped: scrolls,
                    translation,
                    cursor: content_cursor,
                    visible_bounds,
                },
            )
        } else {
            None
        };
        if !scrolls || (has_content && !parts.has_state) {
            return Some(DrawPlan { content, scrollbars: None });
        }
        let status: Status<S> = self.drawn_status();
        let layer: Rectangle<S> = Rectangle {
            width: visible_bounds.width.plus(S::ratio(2, 1)).min(viewport.width),
            height: visible_bounds.height.plus(S::ratio(2, 1)).min(viewport.height),
            ..visible_bounds
        };
        let quads: Vec<Quad<S>> = draw_scrollbars(&scene, style, &status, has_gap_background);
        Some(DrawPlan { content, scrollbars: Some(ScrollbarPlan { layer, quads }) })
    }

    /// Gives the cursor with which the content is asked for the shape of the pointer; none where
    /// a scroller is held or there is no content to ask.
    pub fn mouse_interaction(
        &self,
        state: &State<S>,
        bounds: Rectangle<S>,
        cursor: Cursor<S>,
        parts: ContentParts,
    ) -> (r: Option<Cursor<S>>)
        ensures
            r == (if !state.holds_scroller() && self.cached_content is Some && parts.has_state
                && parts.has_layout {
                Some(
                    scene_of(
                        self.direction,
                        self.content_size,
                        *state,
                        bounds,
                        cursor,
                    ).content_cursor(cursor),
                )
            } else {
                None
            }),
    {
        if state.scrollers_grabbed() || self.cached_content.is_none() || !parts.has_state
            || !parts.has_layout {
            return None;
        }
        let scene: Scene<S> = self.scene(state, bounds, cursor);
        Some(scene.find_content_cursor(cursor))
    }

    /// Gives the icon that marks where scrolling away from the cursor started.
    pub fn overlay(&self, state: &State<S>, bounds: Rectangle<S>) -> (r: Option<AutoScrollIcon<S>>)
        ensures
            r == (match state.interaction {
                Interaction::AutoScrolling { origin, .. } => {
                    let scrollbars = scene_of(
                        self.direction,
                        self.content_size,
                        *state,
                        bounds,
                        Cursor::Unavailable,
                    ).scrollbars;
                    Some(
                        AutoScrollIcon {
                            origin,
                            vertical: scrollbars.y is Some,
                            horizontal: scrollbars.x is Some,
                        },
                    )
                },
                _ => None,
            }),
    {
        match state.interaction {
            Interaction::AutoScrolling { origin, .. } => {
                let scene: Scene<S> = self.scene(state, bounds, Cursor::Unavailable);
                Some(
                    AutoScrollIcon {
                        origin,
                        vertical: scene.scrollbars.y.is_some(),
                        horizontal: scene.scrollbars.x.is_some(),
                    },
                )
            },
            _ => None,
        }
    }
}

/// The icon that marks where scrolling away from the cursor started.
#[derive(Clone, Copy, Debug)]
pub struct AutoScrollIcon<S> {
    pub origin: Point<S>,
    pub vertical: bool,
    pub horizontal: bool,
}

/// The width and the height of the icon.
pub const ICON_SIZE: i32 = 40;

/// The diameter of its dot, and the distance of its arrows from its edges.
pub const ICON_DOT: i32 = 4;

/// Which arrow is drawn.
#[derive(Clone, Copy, Debug, PartialEq, Eq, Structural)]
pub enum Arrow {
    Up,
    Down,
    Left,
    Right,
}

/// The edge at which an arrow is drawn; it is centred along the other axis.
#[derive(Clone, Copy, Debug, PartialEq, Eq, Structural)]
pub enum Edge {
    Top,
    Bottom,
    Left,
    Right,
}

/// An arrow of the icon.
#[derive(Clone, Copy, Debug)]
pub struct ArrowPlan<S> {
    pub arrow: Arrow,
    pub edge: Edge,
    pub position: Point<S>,
}

/// The arrows of the icon, which stands in the given area. Where text runs from right to left,
/// the sideways arrows change places.
pub open spec fn arrows_of<S: Arithmetic>(icon: AutoScrollIcon<S>, area: Rectangle<S>, rtl: bool) -> Seq<
    ArrowPlan<S>,
> {
    let gap = S::fraction(ICON_DOT as int, 1);
    let one = S::fraction(1, 1);
    let upright = if icon.vertical {
        seq![
            ArrowPlan {
                arrow: Arrow::Up,
                edge: Edge::Top,
                position: Point { x: area.middle_x(), y: area.y.sum(gap) },
            },
            ArrowPlan {
                arrow: Arrow::Down,
                edge: Edge::Bottom,
                position: Point {
                    x: area.middle_x(),
                    y: area.y.sum(area.height).difference(gap).difference(S::fraction(1, 2)),
                },
            },
        ]
    } else {
        Seq::empty()
    };
    let sideways = if icon.horizontal {
        seq![
            ArrowPlan {
                arrow: if rtl {
                    Arrow::Right
                } else {
                    Arrow::Left
                },
                edge: Edge::Left,
                position: Point {
                    x: area.x.sum(gap).sum(one),
                    y: area.middle_y().sum(one),
                },
            },
            ArrowPlan {
                arrow: if rtl {
                    Arrow::Left
                } else {
                    Arrow::Right
                },
                edge: Edge::Right,
                position: Point {
                    x: area.x.sum(area.width).difference(gap).difference(one),
                    y: area.middle_y().sum(one),
                },
            },
        ]
    } else {
        Seq::empty()
    };
    upright + sideways
}

impl<S: Scalar> AutoScrollIcon<S> {
    /// Gives the area of the icon, centred on its origin.
    pub fn layout(&self) -> (r: Rectangle<S>)
        ensures
            ({
                let size = S::fraction(ICON_SIZE as int, 1);
                let half = size.quotient(S::fraction(2, 1));
                r == (Rectangle {
                    x: self.origin.x.difference(half),
                    y: self.origin.y.difference(half),
                    width: size,
                    height: size,
                })
            }),
    {
        let size: S = S::ratio(ICON_SIZE, 1);
        let half: S = size.over(S::ratio(2, 1));
        Rectangle {
            x: self.origin.x.minus(half),
            y: self.origin.y.minus(half),
            width: size,
            height: size,
        }
    }

    /// Gives the area of the dot in the middle of the icon.
    pub fn dot(&self, area: Rectangle<S>) -> (r: Rectangle<S>)
        ensures
            ({
                let size = S::fraction(ICON_DOT as int, 1);
                let half = size.quotient(S::fraction(2, 1));
                r == (Rectangle {
                    x: area.middle_x().difference(half),
                    y: area.middle_y().difference(half),
                    width: size,
                    height: size,
                })
            }),
    {
        let size: S = S::ratio(ICON_DOT, 1);
        let half: S = size.over(S::ratio(2, 1));
        Rectangle {
            x: area.center_x().minus(half),
            y: area.center_y().minus(half),
            width: size,
            height: size,
        }
    }

    /// Gives the arrows of the icon.
    pub fn arrows(&self, area: Rectangle<S>, rtl: bool) -> (r: Vec<ArrowPlan<S>>)
        ensures
            r@ == arrows_of(*self, area, rtl),
    {
        let mut arrows: Vec<ArrowPlan<S>> = Vec::new();
        let gap: S = S::ratio(ICON_DOT, 1);
        let one: S = S::ratio(1, 1);
        if self.vertical {
            arrows.push(
                ArrowPlan {
                    arrow: Arrow::Up,
                    edge: Edge::Top,
                    position: Point { x: area.center_x(), y: area.y.plus(gap) },
                },
            );
            arrows.push(
                ArrowPlan {
                    arrow: Arrow::Down,
                    edge: Edge::Bottom,
                    position: Point {
                        x: area.center_x(),
                        y: area.y.plus(area.height).minus(gap).minus(S::ratio(1, 2)),
                    },
                },
            );
        }
        if self.horizontal {
            let (left, right) = if rtl {
                (Arrow::Right, Arrow::Left)
            } else {
                (Arrow::Left, Arrow::Right)
            };
            arrows.push(
                ArrowPlan {
                    arrow: left,
                    edge: Edge::Left,
                    position: Point {
                        x: area.x.plus(gap).plus(one),
                        y: area.center_y().plus(one),
                    },
                },
            );
            arrows.push(
                ArrowPlan {
                    arrow: right,
                    edge: Edge::Right,
                    position: Point {
                        x: area.x.plus(area.width).minus(gap).minus(one),
                        y: area.center_y().plus(one),
                    },
                },
            );
        }
        assert(arrows@ =~= arrows_of(*self, area, rtl));
        arrows
    }
}

} // verus!
