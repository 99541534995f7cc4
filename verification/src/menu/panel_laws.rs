//! How the panels of a menu are drawn and reported.
use vstd::prelude::*;

use crate::geometry::{Cursor, Point, Rectangle, Size};
use crate::geometry_laws::holds;
use crate::menu::ids::law_item_belongs_to_its_panel;
use crate::menu::overlay::Menu;
use crate::menu::panels::{
    expanded, in_view, item_bounds, role_of, stacked, ItemRole, Layer, Padding, PanelLayout,
    PanelNode, PanelPlan, PanelStyle,
};
use crate::menu::state::{MenuBarModel, MenuState, PathHighlight};
use crate::menu::tree::MenuTree;
use crate::scalar::exact::{exact, lemma_fractions, Exact};
use crate::scalar::Arithmetic;
use crate::text::decimal;

verus! {

/// What is in view of an area holds exactly the points of the area that the view holds.
pub proof fn law_view_cuts_off(area: Rectangle<Exact>, viewport: Rectangle<Exact>, p: Point<Exact>)
    ensures
        holds(in_view(area, viewport), p) == (holds(area, p) && holds(viewport, p)),
{
    lemma_fractions();
    crate::geometry_laws::law_common_area_holds_common_points(area, viewport, p);
}

/// Expanding an area moves each of its edges outward by the space that is added there.
pub proof fn law_each_edge_moves_outward(area: Rectangle<Exact>, by: Padding<u16>)
    ensures
        ({
            let wider = expanded(area, by);
            &&& wider.x.value == area.x.value - by.left as real
            &&& wider.y.value == area.y.value - by.top as real
            &&& wider.x.value + wider.width.value == area.x.value + area.width.value
                + by.right as real
            &&& wider.y.value + wider.height.value == area.y.value + area.height.value
                + by.bottom as real
        }),
{
    let (l, t, r, b) = (by.left as real, by.top as real, by.right as real, by.bottom as real);
    assert(l / 1real == l && t / 1real == t && r / 1real == r && b / 1real == b)
        by (nonlinear_arith);
}

/// Panels above each other are as wide as the widest of them, and as high as all of them together.
pub proof fn law_stack_holds_its_panels(sizes: Seq<Size<Exact>>, more: Size<Exact>, i: int)
    ensures
        0 <= i < sizes.len() ==> sizes[i].width.value <= stacked(sizes).width.value,
        stacked(sizes).width.value == 0real || exists|k: int|
            0 <= k < sizes.len() && (#[trigger] sizes[k]).width == stacked(sizes).width,
        stacked(sizes).width.value >= 0real,
        stacked(sizes.push(more)).height.value == stacked(sizes).height.value + more.height.value,
        sizes.len() == 0 ==> stacked(sizes).height.value == 0real,
    decreases sizes.len(),
{
    lemma_fractions();
    assert(sizes.push(more).drop_last() =~= sizes);
    if sizes.len() > 0 {
        let above = sizes.drop_last();
        law_stack_holds_its_panels(above, more, i);
        let last = sizes.len() - 1;
        assert(sizes[last] == sizes.last());
        if stacked(sizes).width == stacked(above).width && stacked(above).width.value != 0real {
            let k = choose|k: int|
                0 <= k < above.len() && (#[trigger] above[k]).width == stacked(above).width;
            assert(sizes[k].width == stacked(sizes).width);
        }
    }
}

/// An item that has been laid out is where it was laid out. One that has not is reported as wide
/// as its panel, at its own distance from the top of it.
pub proof fn law_items_have_their_places(
    panel: MenuState<Exact>,
    layout: PanelLayout<Exact>,
    item: int,
)
    requires
        0 <= item,
    ensures
        ({
            let area = item_bounds(panel, layout, item);
            let child = item - layout.start;
            let laid_out = layout.start <= item <= layout.end && child < layout.children@.len();
            &&& laid_out ==> area == layout.children@[child]
            &&& !laid_out ==> area.x == layout.bounds.x && area.width == layout.bounds.width
            &&& !laid_out && item < panel.menu_bounds.child_positions@.len() ==> area.y.value
                - layout.bounds.y.value == panel.menu_bounds.child_positions@[item].value
            &&& !laid_out && item < panel.menu_bounds.child_sizes@.len() ==> area.height
                == panel.menu_bounds.child_sizes@[item].height
        }),
{
}

/// A separator is reported as such. An item with a submenu is expanded exactly while the active
/// path goes through it; one without is neither expanded nor collapsed.
pub proof fn law_items_have_their_roles<I>(
    item: MenuTree<I>,
    active_root: Seq<usize>,
    panel: int,
    position: int,
)
    requires
        0 <= panel,
    ensures
        (role_of(item, active_root, panel, position) is Splitter) == item.is_separator,
        role_of(item, active_root, panel, position) matches ItemRole::MenuItem { expanded } ==> {
            &&& (expanded is Some) == (item.children@.len() > 0)
            &&& expanded is Some ==> (expanded == Some(true)) == (panel + 1 < active_root.len()
                && active_root[panel + 1] == position)
        },
{
}

/// How the path is highlighted: in full, without its last panel, only in the panels that it goes
/// through, or not at all.
pub proof fn law_path_is_highlighted<'b, S: Arithmetic, I>(
    menu: Menu<'b, S, I>,
    panel: int,
    path_len: int,
)
    requires
        0 <= panel,
    ensures
        menu.path_highlight is None ==> !menu.highlights(panel, path_len),
        menu.path_highlight == Some(PathHighlight::Full) ==> menu.highlights(panel, path_len),
        menu.path_highlight == Some(PathHighlight::MenuActive) ==> (menu.highlights(panel, path_len)
            <==> panel < path_len),
        menu.path_highlight == Some(PathHighlight::OmitActive) ==> (menu.highlights(panel, path_len)
            <==> panel + 1 < path_len),
{
}

/// How far a position is behind a first one; one before it counts as the first.
pub open spec fn first_or(position: int, first: int) -> int {
    if position < first {
        0
    } else {
        position - first
    }
}

/// The highlight of a panel lies within the selected item, at the distance of the padding from each
/// edge, and is cut off where the view ends. Where the selected item lies before those that have
/// been laid out, the first of these is highlighted.
pub proof fn law_highlight_is_in_the_item<'b, I>(
    menu: Menu<'b, Exact, I>,
    panel_state: MenuState<Exact>,
    panel: int,
    layout: PanelLayout<Exact>,
    viewport: Rectangle<Exact>,
    padding: Padding<Exact>,
    path_len: int,
    p: Point<Exact>,
)
    requires
        panel_state.index is Some,
        first_or(panel_state.index->0 as int, layout.start as int) < layout.children@.len(),
        menu.path_highlight == Some(PathHighlight::Full),
    ensures
        ({
            let area = menu.highlight_area(
                panel_state,
                panel,
                layout,
                viewport,
                padding,
                path_len,
            );
            let item = layout.children@[first_or(
                panel_state.index->0 as int,
                layout.start as int,
            )];
            let left = item.x.value + padding.left.value;
            let right = item.x.value + item.width.value - padding.right.value;
            let top = item.y.value + padding.top.value;
            let bottom = item.y.value + item.height.value - padding.bottom.value;
            &&& area is Some
            &&& holds(area->0, p) == (left <= p.x.value && p.x.value < right && top <= p.y.value
                && p.y.value < bottom && holds(viewport, p))
        }),
{
    let item = layout.children@[first_or(panel_state.index->0 as int, layout.start as int)];
    let inner = Rectangle {
        x: exact(item.x.value + padding.left.value),
        y: exact(item.y.value + padding.top.value),
        width: exact(item.width.value - padding.left.value - padding.right.value),
        height: exact(item.height.value - padding.top.value - padding.bottom.value),
    };
    law_view_cuts_off(inner, viewport, p);
}

/// Nothing is highlighted where nothing is selected.
pub proof fn law_no_highlight_without_selection<'b, S: Arithmetic, I>(
    menu: Menu<'b, S, I>,
    panel_state: MenuState<S>,
    panel: int,
    layout: PanelLayout<S>,
    viewport: Rectangle<S>,
    padding: Padding<S>,
    path_len: int,
)
    requires
        panel_state.index is None,
    ensures
        menu.highlight_area(panel_state, panel, layout, viewport, padding, path_len) is None,
{
}

/// Every item that has been laid out, and that a widget state is kept for, is drawn with its area.
pub proof fn law_laid_out_items_are_drawn<'b, S: Arithmetic, I>(
    menu: Menu<'b, S, I>,
    m: MenuBarModel<S>,
    panel: int,
    layout: PanelLayout<S>,
    count: int,
    child: int,
)
    requires
        0 <= child < count,
        layout.start + count <= usize::MAX,
        menu.items_of(m, panel)[layout.start + child].index < m.tree[m.active_root[0] as int],
    ensures
        menu.drawn_items(m, panel, layout, count).contains(
            ((layout.start + child) as usize, child as usize),
        ),
    decreases count,
{
    let all = menu.drawn_items(m, panel, layout, count);
    let before = menu.drawn_items(m, panel, layout, count - 1);
    let wanted = ((layout.start + child) as usize, child as usize);
    if child < count - 1 {
        law_laid_out_items_are_drawn(menu, m, panel, layout, count - 1, child);
        let i = choose|i: int| 0 <= i < before.len() && before[i] == wanted;
        assert(all[i] == wanted);
    } else {
        assert(all[before.len() as int] == wanted);
    }
}

/// Only the last panel has the cursor within reach: other panels are given one that is outside of
/// everything with coordinates that are not negative.
pub proof fn law_last_panel_has_the_cursor<'b, I>(
    menu: Menu<'b, Exact, I>,
    m: MenuBarModel<Exact>,
    panel: int,
    view_cursor: Cursor<Exact>,
    area: Rectangle<Exact>,
)
    requires
        area.x.value >= 0real,
        area.y.value >= 0real,
    ensures
        panel == m.menu_states.len() - 1 ==> menu.cursor_in(m, panel, view_cursor) == view_cursor,
        panel != m.menu_states.len() - 1 ==> menu.cursor_in(m, panel, view_cursor).spot_over(
            area,
        ) is None,
{
    assert(-(1real) / 1real == -(1real)) by (nonlinear_arith);
}

/// An overlay is cut off at the size of the view, wherever the view is; other menus are not.
pub proof fn law_overlay_is_cut_off<'b, I>(menu: Menu<'b, Exact, I>, viewport: Rectangle<Exact>)
    ensures
        menu.is_overlay ==> (menu.layer(viewport) matches Layer::Bounded(area) && area.x.value
            == 0real && area.y.value == 0real && area.width == viewport.width && area.height
            == viewport.height),
        !menu.is_overlay ==> menu.layer(viewport) is Unbounded,
{
    lemma_fractions();
}

/// A panel that is reported as it is has its items in order, each under the identifier that the
/// panel lists for it, with its role and its area.
pub proof fn law_reported_panel_lists_its_items<'b, S: Arithmetic, I>(
    menu: Menu<'b, S, I>,
    node: PanelNode<S>,
    m: MenuBarModel<S>,
    panel: int,
    layout: PanelLayout<S>,
    k: int,
)
    requires
        menu.reports_panel(node, m, panel, layout),
        0 <= panel < m.menu_states.len(),
        0 <= k < menu.items_of(m, panel).len(),
    ensures
        ({
            let item = menu.items_of(m, panel)[k];
            let reported = node.items@[k];
            let child = k - layout.start;
            &&& node.items@.len() == menu.items_of(m, panel).len()
            &&& node.child_ids@.len() == node.items@.len()
            &&& node.child_ids@[k]@ == reported.id@
            &&& node.bounds == layout.bounds
            &&& reported.id@ == node.id@ + "/item/"@ + decimal(k as nat)
            &&& (reported.role is Splitter) == item.is_separator
            &&& layout.start <= k <= layout.end && child < layout.children@.len()
                ==> reported.bounds == layout.children@[child]
        }),
{
    law_item_belongs_to_its_panel(m.active_root[0] as nat, panel as nat, k as nat);
    assert(crate::menu::panels::reports_item(
        node.items@[k],
        m,
        menu.items_of(m, panel)[k],
        panel,
        layout,
        k,
    ));
}

/// A panel that is drawn as it is, is cut off where the view ends; its background reaches beyond
/// that by what the style adds at each edge.
pub proof fn law_drawn_panel_is_in_view<'b, I>(
    menu: Menu<'b, Exact, I>,
    plan: PanelPlan<Exact>,
    m: MenuBarModel<Exact>,
    panel: int,
    layout: PanelLayout<Exact>,
    viewport: Rectangle<Exact>,
    view_cursor: Cursor<Exact>,
    style: PanelStyle<Exact>,
    path_len: int,
    p: Point<Exact>,
)
    requires
        menu.draws_panel(plan, m, panel, layout, viewport, view_cursor, style, path_len),
        0 <= panel < m.menu_states.len(),
    ensures
        holds(plan.clip, p) == (holds(layout.bounds, p) && holds(viewport, p)),
        plan.background.x.value == plan.clip.x.value - style.background_expand.left as real,
        plan.background.y.value == plan.clip.y.value - style.background_expand.top as real,
        plan.background.x.value + plan.background.width.value == plan.clip.x.value
            + plan.clip.width.value + style.background_expand.right as real,
        plan.background.y.value + plan.background.height.value == plan.clip.y.value
            + plan.clip.height.value + style.background_expand.bottom as real,
        m.menu_states[panel].index is None ==> plan.highlight is None,
        panel == m.menu_states.len() - 1 ==> plan.cursor == view_cursor,
        (plan.layer is Bounded) == menu.is_overlay,
{
    law_view_cuts_off(layout.bounds, viewport, p);
    law_each_edge_moves_outward(plan.clip, style.background_expand);
}

/// An overlay lays out all of its panels; the menu of a bar lays out its first one, and each
/// further panel is an overlay of its own.
pub proof fn law_own_panels_are_laid_out<'b, S: Arithmetic, I>(
    menu: Menu<'b, S, I>,
    m: MenuBarModel<S>,
)
    requires
        m.active_root.len() > 0,
    ensures
        ({
            let exists_root = m.active_root[0] < menu.menu_roots@.len() && m.active_root[0]
                < m.tree.len();
            &&& !exists_root ==> menu.laid_out_panels(m) == 0
            &&& exists_root ==> menu.laid_out_panels(m) == menu.own_panels(m)
            &&& menu.is_overlay ==> menu.own_panels(m) == m.menu_states.len()
            &&& !menu.is_overlay && m.menu_states.len() > 0 ==> menu.own_panels(m) == 1
            &&& m.menu_states.len() == 0 ==> menu.own_panels(m) == 0
        }),
{
}

/// All items of a panel that have been laid out in order can be drawn, as far as there are areas
/// for them.
pub proof fn law_laid_out_part_is_drawable<'b, S: Arithmetic, I>(
    menu: Menu<'b, S, I>,
    m: MenuBarModel<S>,
    panel: int,
    layout: PanelLayout<S>,
)
    requires
        layout.start <= layout.end < menu.items_of(m, panel).len(),
        m.active_root.len() > 0,
        m.active_root[0] < m.tree.len(),
    ensures
        ({
            let count = menu.drawable(m, panel, layout);
            let part = layout.end + 1 - layout.start;
            &&& count <= part && count <= layout.children@.len()
            &&& count == part || count == layout.children@.len()
        }),
{
}

} // verus!
