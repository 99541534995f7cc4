//! What is laid out, reported to assistive technologies and drawn of the panels of a menu.
use vstd::prelude::*;

use crate::geometry::{Cursor, Point, Rectangle, Size, Vector};
use crate::menu::ids::{item_id, item_id_text, panel_id, panel_id_text};
use crate::menu::overlay::Menu;
use crate::menu::state::{MenuBarModel, MenuBarState, MenuState, PathHighlight};
use crate::menu::tree::MenuTree;
use crate::scalar::{whole, zero, Arithmetic, Scalar};

verus! {

/// The height of an item of which nothing else is known.
pub const UNKNOWN_ITEM_HEIGHT: i32 = 36;

/// The part of a panel that has been laid out: the items from `start` to `end`, both counted.
#[derive(Debug)]
pub struct PanelLayout<S> {
    pub bounds: Rectangle<S>,
    pub start: usize,
    pub end: usize,
    /// The areas of these items.
    pub children: Vec<Rectangle<S>>,
}

/// What an item is to assistive technologies.
#[derive(Clone, Copy, Debug, PartialEq, Eq, Structural)]
pub enum ItemRole {
    /// Something between items.
    Splitter,
    /// An item. One with a submenu is expanded or collapsed.
    MenuItem { expanded: Option<bool> },
}

/// An item as assistive technologies see it.
#[derive(Debug)]
pub struct ItemNode<S> {
    pub id: String,
    pub bounds: Rectangle<S>,
    pub role: ItemRole,
}

/// A panel as assistive technologies see it: always expanded, with all of its items.
#[derive(Debug)]
pub struct PanelNode<S> {
    pub id: String,
    pub bounds: Rectangle<S>,
    pub child_ids: Vec<String>,
    pub items: Vec<ItemNode<S>>,
}

/// Space around something.
#[derive(Clone, Copy, Debug)]
pub struct Padding<S> {
    pub top: S,
    pub right: S,
    pub bottom: S,
    pub left: S,
}

/// All panels as assistive technologies see them, in one container.
#[derive(Debug)]
pub struct MenuReport<S> {
    /// The area of the container, which is opened before the panels and closed after them.
    pub container: Rectangle<S>,
    pub panels: Vec<PanelNode<S>>,
}

/// Where what is drawn is cut off.
#[derive(Clone, Copy, Debug)]
pub enum Layer<S> {
    /// At the edges of an area.
    Bounded(Rectangle<S>),
    /// Nowhere to the right and to the bottom of the origin.
    Unbounded,
}

/// What the style says of a panel.
#[derive(Clone, Copy, Debug)]
pub struct PanelStyle<S> {
    /// How far the background reaches beyond the items.
    pub background_expand: Padding<u16>,
    /// The space between the edges of an item and its highlight.
    pub content_padding: Padding<S>,
}

/// What is drawn of a panel.
#[derive(Debug)]
pub struct PanelPlan<S> {
    /// Where the panel is cut off.
    pub layer: Layer<S>,
    /// The area behind the items, expanded by the style.
    pub background: Rectangle<S>,
    /// The part of the items that is in view.
    pub clip: Rectangle<S>,
    /// The area of the highlighted item.
    pub highlight: Option<Rectangle<S>>,
    /// The items that are drawn, each with the position of its laid out area.
    pub items: Vec<(usize, usize)>,
    /// The cursor as the items see it: only the last panel has it within reach.
    pub cursor: Cursor<S>,
}

/// Nothing.
pub open spec fn no_area<S: Arithmetic>() -> Rectangle<S> {
    Rectangle { x: zero(), y: zero(), width: zero(), height: zero() }
}

/// The part of an area that is in view, or nothing.
pub open spec fn in_view<S: Arithmetic>(area: Rectangle<S>, viewport: Rectangle<S>) -> Rectangle<S> {
    match area.common(viewport) {
        Some(part) => part,
        None => no_area(),
    }
}

fn find_in_view<S: Scalar>(area: Rectangle<S>, viewport: Rectangle<S>) -> (r: Rectangle<S>)
    ensures
        r == in_view(area, viewport),
{
    match area.intersection(&viewport) {
        Some(part) => part,
        None => Rectangle {
            x: S::ratio(0, 1),
            y: S::ratio(0, 1),
            width: S::ratio(0, 1),
            height: S::ratio(0, 1),
        },
    }
}

/// An area with space added around it.
pub open spec fn expanded<S: Arithmetic>(area: Rectangle<S>, by: Padding<u16>) -> Rectangle<S> {
    let left = whole::<S>(by.left as int);
    let top = whole::<S>(by.top as int);
    Rectangle {
        x: area.x.difference(left),
        y: area.y.difference(top),
        width: area.width.sum(left.sum(whole(by.right as int))),
        height: area.height.sum(top.sum(whole(by.bottom as int))),
    }
}

fn expand<S: Scalar>(area: Rectangle<S>, by: Padding<u16>) -> (r: Rectangle<S>)
    ensures
        r == expanded(area, by),
{
    let left: S = S::ratio(by.left as i32, 1);
    let top: S = S::ratio(by.top as i32, 1);
    Rectangle {
        x: area.x.minus(left),
        y: area.y.minus(top),
        width: area.width.plus(left.plus(S::ratio(by.right as i32, 1))),
        height: area.height.plus(top.plus(S::ratio(by.bottom as i32, 1))),
    }
}

/// The size of panels above each other.
pub open spec fn stacked<S: Arithmetic>(sizes: Seq<Size<S>>) -> Size<S>
    decreases sizes.len(),
{
    if sizes.len() == 0 {
        Size { width: zero(), height: zero() }
    } else {
        let above = stacked(sizes.drop_last());
        Size {
            width: above.width.greater(sizes.last().width),
            height: above.height.sum(sizes.last().height),
        }
    }
}

/// Gives the size of panels above each other.
pub fn stack<S: Scalar>(sizes: &Vec<Size<S>>) -> (r: Size<S>)
    ensures
        r == stacked(sizes@),
{
    let mut size: Size<S> = Size { width: S::ratio(0, 1), height: S::ratio(0, 1) };
    let len: usize = sizes.len();
    let mut i: usize = 0;
    assert(sizes@.take(0) =~= Seq::empty());
    while i < len
        invariant
            0 <= i <= len,
            len == sizes@.len(),
            size == stacked(sizes@.take(i as int)),
        decreases len - i,
    {
        proof {
            assert(sizes@.take(i + 1).drop_last() =~= sizes@.take(i as int));
            assert(sizes@.take(i + 1).last() == sizes@[i as int]);
        }
        size = Size {
            width: size.width.max(sizes[i].width),
            height: size.height.plus(sizes[i].height),
        };
        i = i + 1;
    }
    assert(sizes@.take(len as int) =~= sizes@);
    size
}

/// The area of an item of a panel: where it has been laid out, or else where it belongs.
pub open spec fn item_bounds<S: Arithmetic>(
    panel: MenuState<S>,
    layout: PanelLayout<S>,
    item: int,
) -> Rectangle<S> {
    if layout.start <= item <= layout.end && item - layout.start < layout.children@.len() {
        layout.children@[item - layout.start]
    } else {
        Rectangle {
            x: layout.bounds.x,
            y: layout.bounds.y.sum(
                if item < panel.menu_bounds.child_positions@.len() {
                    panel.menu_bounds.child_positions@[item]
                } else {
                    zero()
                },
            ),
            width: layout.bounds.width,
            height: if item < panel.menu_bounds.child_sizes@.len() {
                panel.menu_bounds.child_sizes@[item].height
            } else {
                whole(UNKNOWN_ITEM_HEIGHT as int)
            },
        }
    }
}

fn find_item_bounds<S: Scalar>(panel: &MenuState<S>, layout: &PanelLayout<S>, item: usize) -> (r:
    Rectangle<S>)
    ensures
        r == item_bounds(*panel, *layout, item as int),
{
    if layout.start <= item && item <= layout.end && item - layout.start < layout.children.len() {
        return layout.children[item - layout.start];
    }
    let offset: S = if item < panel.menu_bounds.child_positions.len() {
        panel.menu_bounds.child_positions[item]
    } else {
        S::ratio(0, 1)
    };
    let height: S = if item < panel.menu_bounds.child_sizes.len() {
        panel.menu_bounds.child_sizes[item].height
    } else {
        S::ratio(UNKNOWN_ITEM_HEIGHT, 1)
    };
    Rectangle {
        x: layout.bounds.x,
        y: layout.bounds.y.plus(offset),
        width: layout.bounds.width,
        height,
    }
}

/// What an item is to assistive technologies.
pub open spec fn role_of<I>(
    item: MenuTree<I>,
    active_root: Seq<usize>,
    panel: int,
    position: int,
) -> ItemRole {
    if item.is_separator {
        ItemRole::Splitter
    } else {
        ItemRole::MenuItem {
            expanded: if item.children@.len() > 0 {
                Some(panel + 1 < active_root.len() && active_root[panel + 1] == position)
            } else {
                None
            },
        }
    }
}

/// Whether an item is reported as it is.
pub open spec fn reports_item<S: Arithmetic, I>(
    node: ItemNode<S>,
    m: MenuBarModel<S>,
    item: MenuTree<I>,
    panel: int,
    layout: PanelLayout<S>,
    position: int,
) -> bool {
    &&& node.id@ == item_id_text(m.active_root[0] as nat, panel as nat, position as nat)
    &&& node.bounds == item_bounds(m.menu_states[panel], layout, position)
    &&& node.role == role_of(item, m.active_root, panel, position)
}

impl<'b, S: Arithmetic, I> Menu<'b, S, I> {
    /// The number of panels that are laid out, from the first one: the overlay of a bar shows
    /// one panel of its own, and each further panel is an overlay of its own.
    pub open spec fn laid_out_panels(self, m: MenuBarModel<S>) -> int {
        if m.active_root[0] >= self.menu_roots@.len() || m.active_root[0] >= m.tree.len() {
            0
        } else {
            self.own_panels(m)
        }
    }

    /// The number of panels that the overlay shows itself.
    pub open spec fn own_panels(self, m: MenuBarModel<S>) -> int {
        if self.is_overlay || m.menu_states.len() <= 1 {
            m.menu_states.len() as int
        } else {
            1
        }
    }

    /// Whether a panel is reported as it is, with all of its items.
    pub open spec fn reports_panel(
        self,
        node: PanelNode<S>,
        m: MenuBarModel<S>,
        panel: int,
        layout: PanelLayout<S>,
    ) -> bool {
        let items = self.items_of(m, panel);
        &&& node.id@ == panel_id_text(m.active_root[0] as nat, panel as nat)
        &&& node.bounds == layout.bounds
        &&& node.items@.len() == items.len()
        &&& node.child_ids@.len() == items.len()
        &&& forall|k: int|
            0 <= k < items.len() ==> (#[trigger] node.child_ids@[k])@ == item_id_text(
                m.active_root[0] as nat,
                panel as nat,
                k as nat,
            )
        &&& forall|k: int|
            0 <= k < items.len() ==> reports_item(
                #[trigger] node.items@[k],
                m,
                items[k],
                panel,
                layout,
                k,
            )
    }

    /// Whether the selected item of a panel is highlighted, given how many panels the active
    /// path goes through.
    pub open spec fn highlights(self, panel: int, path_len: int) -> bool {
        match self.path_highlight {
            Some(PathHighlight::Full) => true,
            Some(PathHighlight::OmitActive) => panel < path_len - 1,
            Some(PathHighlight::MenuActive) => panel < path_len,
            None => false,
        }
    }

    /// The area of the highlight in a panel: the selected item without its padding, as far as it
    /// is in view.
    pub open spec fn highlight_area(
        self,
        panel_state: MenuState<S>,
        panel: int,
        layout: PanelLayout<S>,
        viewport: Rectangle<S>,
        padding: Padding<S>,
        path_len: int,
    ) -> Option<Rectangle<S>> {
        match panel_state.index {
            Some(active) => {
                let child = if active >= layout.start {
                    active - layout.start
                } else {
                    0
                };
                if self.highlights(panel, path_len) && child < layout.children@.len() {
                    let item = layout.children@[child];
                    Some(
                        in_view(
                            Rectangle {
                                x: item.x.sum(padding.left),
                                y: item.y.sum(padding.top),
                                width: item.width.difference(padding.left).difference(
                                    padding.right,
                                ),
                                height: item.height.difference(padding.top).difference(
                                    padding.bottom,
                                ),
                            },
                            viewport,
                        ),
                    )
                } else {
                    None
                }
            },
            None => None,
        }
    }

    /// The first items of a panel that are drawn: those that are laid out and have a widget
    /// state. Nothing is drawn of a part that goes beyond the items.
    pub open spec fn drawn_items(
        self,
        m: MenuBarModel<S>,
        panel: int,
        layout: PanelLayout<S>,
        count: int,
    ) -> Seq<(usize, usize)>
        decreases count,
    {
        if count <= 0 {
            Seq::empty()
        } else {
            let before = self.drawn_items(m, panel, layout, count - 1);
            let position = layout.start + count - 1;
            if self.items_of(m, panel)[position].index < m.tree[m.active_root[0] as int] {
                before.push((position as usize, (count - 1) as usize))
            } else {
                before
            }
        }
    }

    /// The number of items of a panel that are laid out in order.
    pub open spec fn drawable(
        self,
        m: MenuBarModel<S>,
        panel: int,
        layout: PanelLayout<S>,
    ) -> int {
        if layout.start <= layout.end < self.items_of(m, panel).len() && m.active_root[0]
            < m.tree.len() {
            let part = layout.end - layout.start + 1;
            if part < layout.children@.len() {
                part
            } else {
                layout.children@.len() as int
            }
        } else {
            0
        }
    }

    /// Where a panel is cut off: an overlay at the size of the view, other menus nowhere.
    pub open spec fn layer(self, viewport: Rectangle<S>) -> Layer<S> {
        if self.is_overlay {
            Layer::Bounded(
                Rectangle {
                    x: zero(),
                    y: zero(),
                    width: viewport.width,
                    height: viewport.height,
                },
            )
        } else {
            Layer::Unbounded
        }
    }

    /// The cursor as the items of a panel see it.
    pub open spec fn cursor_in(
        self,
        m: MenuBarModel<S>,
        panel: int,
        view_cursor: Cursor<S>,
    ) -> Cursor<S> {
        if panel == m.menu_states.len() - 1 {
            view_cursor
        } else {
            Cursor::Available(Point { x: whole(-1), y: whole(-1) })
        }
    }

    /// Whether a plan draws a panel as it is.
    pub open spec fn draws_panel(
        self,
        plan: PanelPlan<S>,
        m: MenuBarModel<S>,
        panel: int,
        layout: PanelLayout<S>,
        viewport: Rectangle<S>,
        view_cursor: Cursor<S>,
        style: PanelStyle<S>,
        path_len: int,
    ) -> bool {
        &&& plan.layer == self.layer(viewport)
        &&& plan.background == expanded(in_view(layout.bounds, viewport), style.background_expand)
        &&& plan.clip == in_view(layout.bounds, viewport)
        &&& plan.highlight == self.highlight_area(
            m.menu_states[panel],
            panel,
            layout,
            viewport,
            style.content_padding,
            path_len,
        )
        &&& plan.items@ == self.drawn_items(m, panel, layout, self.drawable(m, panel, layout))
        &&& plan.cursor == self.cursor_in(m, panel, view_cursor)
    }
}

impl<'b, S: Scalar, I> Menu<'b, S, I> {
    /// Gives the number of panels that are laid out, and how far all of them are moved; none
    /// where the menu is closed.
    pub fn layout(&self, state: &MenuBarState<S>) -> (r: Option<(usize, Vector<S>)>)
        ensures
            r == (if state@.active_root.len() == 0 || state@.menu_states.len() == 0 {
                None
            } else {
                Some(
                    (
                        self.laid_out_panels(state@) as usize,
                        Vector {
                            x: zero::<S>().difference(self.position.x),
                            y: zero::<S>().difference(self.position.y),
                        },
                    ),
                )
            }),
    {
        if state.active_root.len() == 0 || state.menu_states.len() == 0 {
            return None;
        }
        let root: usize = state.active_root[0];
        let panels: usize = if root >= self.menu_roots.len() || root >= state.tree.len() {
            0
        } else if self.is_overlay {
            state.menu_states.len()
        } else {
            1
        };
        Some(
            (
                panels,
                Vector {
                    x: S::ratio(0, 1).minus(self.position.x),
                    y: S::ratio(0, 1).minus(self.position.y),
                },
            ),
        )
    }

    /// Reports the panels that have been laid out to assistive technologies, with all of their
    /// items, also those that are out of view. They stand in a container of the size of the view,
    /// which is there without panels too.
    pub fn operate_inner(
        &self,
        state: &MenuBarState<S>,
        viewport: Rectangle<S>,
        layouts: &Vec<PanelLayout<S>>,
    ) -> (r: MenuReport<S>)
        ensures
            r.container == viewport,
            !self.is_showing(state@) ==> r.panels@.len() == 0,
            self.is_showing(state@) ==> {
                &&& r.panels@.len() == (if layouts@.len() < self.own_panels(state@) {
                    layouts@.len() as int
                } else {
                    self.own_panels(state@)
                })
                &&& forall|p: int|
                    0 <= p < r.panels@.len() ==> self.reports_panel(
                        #[trigger] r.panels@[p],
                        state@,
                        p,
                        layouts@[p],
                    )
            },
    {
        let mut nodes: Vec<PanelNode<S>> = Vec::new();
        if !state.open || state.active_root.len() == 0 || state.active_root[0]
            >= self.menu_roots.len() {
            return MenuReport { container: viewport, panels: nodes };
        }
        let own: usize = if self.is_overlay || state.menu_states.len() <= 1 {
            state.menu_states.len()
        } else {
            1
        };
        let panels: usize = if layouts.len() < own {
            layouts.len()
        } else {
            own
        };
        let mut panel: usize = 0;
        while panel < panels
            invariant
                0 <= panel <= panels,
                panels <= layouts@.len(),
                panels <= state@.menu_states.len(),
                self.root_exists(state@),
                nodes@.len() == panel,
                forall|p: int|
                    0 <= p < panel ==> self.reports_panel(
                        #[trigger] nodes@[p],
                        state@,
                        p,
                        layouts@[p],
                    ),
            decreases panels - panel,
        {
            let node: PanelNode<S> = self.report_panel(state, panel, &layouts[panel]);
            nodes.push(node);
            panel = panel + 1;
        }
        MenuReport { container: viewport, panels: nodes }
    }

    fn report_panel(&self, state: &MenuBarState<S>, panel: usize, layout: &PanelLayout<S>) -> (node:
        PanelNode<S>)
        requires
            self.root_exists(state@),
            panel < state@.menu_states.len(),
        ensures
            self.reports_panel(node, state@, panel as int, *layout),
    {
        let root: usize = state.active_root[0];
        let items: &Vec<MenuTree<I>> = self.panel_items(state, panel);
        let mut child_ids: Vec<String> = Vec::new();
        let mut item_nodes: Vec<ItemNode<S>> = Vec::new();
        let len: usize = items.len();
        let mut k: usize = 0;
        let ghost m = state@;
        while k < len
            invariant
                0 <= k <= len,
                len == items@.len(),
                m == state@,
                items@ == self.items_of(m, panel as int),
                root == m.active_root[0],
                panel < m.menu_states.len(),
                child_ids@.len() == k,
                item_nodes@.len() == k,
                forall|j: int|
                    0 <= j < k ==> (#[trigger] child_ids@[j])@ == item_id_text(
                        root as nat,
                        panel as nat,
                        j as nat,
                    ),
                forall|j: int|
                    0 <= j < k ==> reports_item(
                        #[trigger] item_nodes@[j],
                        m,
                        items@[j],
                        panel as int,
                        *layout,
                        j,
                    ),
            decreases len - k,
        {
            child_ids.push(item_id(root, panel, k));
            assert(panel < state.menu_states.len());
            let item: &MenuTree<I> = &items[k];
            let role: ItemRole = if item.is_separator {
                ItemRole::Splitter
            } else if item.children.len() > 0 {
                ItemRole::MenuItem {
                    expanded: Some(
                        panel + 1 < state.active_root.len() && state.active_root[panel + 1] == k,
                    ),
                }
            } else {
                ItemRole::MenuItem { expanded: None }
            };
            let bounds: Rectangle<S> = find_item_bounds(&state.menu_states[panel], layout, k);
            item_nodes.push(ItemNode { id: item_id(root, panel, k), bounds, role });
            k = k + 1;
        }
        PanelNode {
            id: panel_id(root, panel),
            bounds: layout.bounds,
            child_ids,
            items: item_nodes,
        }
    }

    /// Plans what is drawn of the panels that have been laid out, the first one first.
    pub fn draw(
        &self,
        state: &MenuBarState<S>,
        layouts: &Vec<PanelLayout<S>>,
        viewport: Rectangle<S>,
        view_cursor: Cursor<S>,
        style: PanelStyle<S>,
        path_len: usize,
    ) -> (plans: Vec<PanelPlan<S>>)
        ensures
            !self.is_showing(state@) ==> plans@.len() == 0,
            self.is_showing(state@) ==> {
                &&& plans@.len() == (if layouts@.len() < self.own_panels(state@) {
                    layouts@.len() as int
                } else {
                    self.own_panels(state@)
                })
                &&& forall|p: int|
                    0 <= p < plans@.len() ==> self.draws_panel(
                        #[trigger] plans@[p],
                        state@,
                        p,
                        layouts@[p],
                        viewport,
                        view_cursor,
                        style,
                        path_len as int,
                    )
            },
    {
        let mut plans: Vec<PanelPlan<S>> = Vec::new();
        if !state.open || state.active_root.len() == 0 || state.active_root[0]
            >= self.menu_roots.len() {
            return plans;
        }
        let own: usize = if self.is_overlay || state.menu_states.len() <= 1 {
            state.menu_states.len()
        } else {
            1
        };
        let panels: usize = if layouts.len() < own {
            layouts.len()
        } else {
            own
        };
        let mut panel: usize = 0;
        while panel < panels
            invariant
                0 <= panel <= panels,
                panels <= layouts@.len(),
                panels <= state@.menu_states.len(),
                self.root_exists(state@),
                plans@.len() == panel,
                forall|p: int|
                    0 <= p < panel ==> self.draws_panel(
                        #[trigger] plans@[p],
                        state@,
                        p,
                        layouts@[p],
                        viewport,
                        view_cursor,
                        style,
                        path_len as int,
                    ),
            decreases panels - panel,
        {
            let plan: PanelPlan<S> = self.draw_panel(
                state,
                panel,
                &layouts[panel],
                viewport,
                view_cursor,
                style,
                path_len,
            );
            plans.push(plan);
            panel = panel + 1;
        }
        plans
    }

    fn draw_panel(
        &self,
        state: &MenuBarState<S>,
        panel: usize,
        layout: &PanelLayout<S>,
        viewport: Rectangle<S>,
        view_cursor: Cursor<S>,
        style: PanelStyle<S>,
        path_len: usize,
    ) -> (plan: PanelPlan<S>)
        requires
            self.root_exists(state@),
            panel < state@.menu_states.len(),
        ensures
            self.draws_panel(
                plan,
                state@,
                panel as int,
                *layout,
                viewport,
                view_cursor,
                style,
                path_len as int,
            ),
    {
        let clip: Rectangle<S> = find_in_view(layout.bounds, viewport);
        let background: Rectangle<S> = expand(clip, style.background_expand);
        let padding: Padding<S> = style.content_padding;
        let layer: Layer<S> = if self.is_overlay {
            Layer::Bounded(
                Rectangle {
                    x: S::ratio(0, 1),
                    y: S::ratio(0, 1),
                    width: viewport.width,
                    height: viewport.height,
                },
            )
        } else {
            Layer::Unbounded
        };
        let draw_path: bool = match self.path_highlight {
            Some(PathHighlight::Full) => true,
            Some(PathHighlight::OmitActive) => path_len != 0 && panel < path_len - 1,
            Some(PathHighlight::MenuActive) => path_len != 0 && panel < path_len,
            None => false,
        };
        let mut highlight: Option<Rectangle<S>> = None;
        if draw_path {
            if let Some(active) = state.menu_states[panel].index {
                let child: usize = active.saturating_sub(layout.start);
                if child < layout.children.len() {
                    let item: Rectangle<S> = layout.children[child];
                    highlight = Some(
                        find_in_view(
                            Rectangle {
                                x: item.x.plus(padding.left),
                                y: item.y.plus(padding.top),
                                width: item.width.minus(padding.left).minus(padding.right),
                                height: item.height.minus(padding.top).minus(padding.bottom),
                            },
                            viewport,
                        ),
                    );
                }
            }
        }
        let items: Vec<(usize, usize)> = self.draw_items(state, panel, layout);
        let panels: usize = state.menu_states.len();
        let cursor: Cursor<S> = if panel == panels - 1 {
            view_cursor
        } else {
            Cursor::Available(Point { x: S::ratio(-1, 1), y: S::ratio(-1, 1) })
        };
        PanelPlan { layer, background, clip, highlight, items, cursor }
    }

    fn draw_items(&self, state: &MenuBarState<S>, panel: usize, layout: &PanelLayout<S>) -> (drawn:
        Vec<(usize, usize)>)
        requires
            self.root_exists(state@),
            panel < state@.menu_states.len(),
        ensures
            drawn@ == self.drawn_items(
                state@,
                panel as int,
                *layout,
                self.drawable(state@, panel as int, *layout),
            ),
    {
        let mut drawn: Vec<(usize, usize)> = Vec::new();
        let root: usize = state.active_root[0];
        let items: &Vec<MenuTree<I>> = self.panel_items(state, panel);
        if layout.start > layout.end || layout.end >= items.len() || root >= state.tree.len() {
            return drawn;
        }
        let part: usize = layout.end - layout.start + 1;
        let count: usize = if part < layout.children.len() {
            part
        } else {
            layout.children.len()
        };
        let states: usize = state.tree[root];
        let mut k: usize = 0;
        let ghost m = state@;
        while k < count
            invariant
                0 <= k <= count,
                count <= layout.end - layout.start + 1,
                layout.start <= layout.end < items@.len(),
                m == state@,
                items@ == self.items_of(m, panel as int),
                root == m.active_root[0],
                root < m.tree.len(),
                states == m.tree[root as int],
                drawn@ == self.drawn_items(m, panel as int, *layout, k as int),
            decreases count - k,
        {
            if items[layout.start + k].index < states {
                drawn.push((layout.start + k, k));
            }
            k = k + 1;
        }
        drawn
    }
}

/// Every item that is drawn lies in the part of its panel that has been laid out, next to the
/// area that was laid out for it.
pub proof fn law_drawn_items_are_laid_out<'b, S: Arithmetic, I>(
    menu: Menu<'b, S, I>,
    m: MenuBarModel<S>,
    panel: int,
    layout: PanelLayout<S>,
    count: int,
    i: int,
)
    requires
        count <= menu.drawable(m, panel, layout),
        0 <= i < menu.drawn_items(m, panel, layout, count).len(),
    ensures
        ({
            let (position, child) = menu.drawn_items(m, panel, layout, count)[i];
            &&& layout.start <= position <= layout.end
            &&& position == layout.start + child
            &&& child < layout.children@.len()
        }),
    decreases count,
{
    if count > 0 {
        let before = menu.drawn_items(m, panel, layout, count - 1);
        if i < before.len() {
            law_drawn_items_are_laid_out(menu, m, panel, layout, count - 1, i);
        }
    }
}

} // verus!
