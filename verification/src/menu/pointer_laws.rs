//! What the pointer and assistive technologies do to an open menu.
use vstd::prelude::*;

use crate::event::{AccessibilityAction, Button, Event, MouseEvent, Status, TouchEvent};
use crate::geometry::{Cursor, Point, Rectangle};
use crate::geometry_laws::holds;
use crate::menu::events::{in_overlay, in_panels, PointerOutcome};
use crate::menu::overlay::{click_steps, ClickStep, Menu, Pending};
use crate::menu::state::{MenuBarModel, MenuBounds, MenuState};
use crate::menu::tree::path_below_root;
use crate::scalar::exact::{exact, lemma_fractions, Exact};
use crate::scalar::Arithmetic;

verus! {

/// Whether a point is in an area in which the cursor counts as inside of a panel.
pub open spec fn in_some_panel(panels: Seq<MenuState<Exact>>, p: Point<Exact>) -> bool {
    exists|i: int|
        0 <= i < panels.len() && holds((#[trigger] panels[i]).menu_bounds.check_bounds, p)
}

/// A release that is less than two pixels from where the press was, is a click. The left button
/// and fingers close the menu with a click, inside of its panels or outside of them, where the menu
/// is to close with a click there. Any release on the bar closes the menu. Else it stays open.
pub proof fn law_clicks_close_where_they_may<'b, I>(
    menu: Menu<'b, Exact, I>,
    m: MenuBarModel<Exact>,
    event: Event<Exact>,
    pressed_at: Point<Exact>,
    released_at: Point<Exact>,
    viewport: Rectangle<Exact>,
    menu_status: Status,
)
    requires
        m.view_cursor == Cursor::Available(pressed_at),
        event matches Event::Mouse(MouseEvent::ButtonReleased { .. }) || event matches Event::Touch(
            TouchEvent::FingerLifted { .. },
        ),
    ensures
        ({
            let after = menu.pointer_model(
                m,
                event,
                Cursor::Available(released_at),
                viewport,
                menu_status,
            );
            let at = Point {
                x: exact(released_at.x.value + viewport.x.value),
                y: exact(released_at.y.value + viewport.y.value),
            };
            let dx = pressed_at.x.value - released_at.x.value;
            let dy = pressed_at.y.value - released_at.y.value;
            let clicks = !(event matches Event::Mouse(MouseEvent::ButtonReleased { button })
                && button != Button::Left) && dx * dx + dy * dy < 4real;
            let wanted = if in_some_panel(m.menu_states, at) {
                menu.close_condition.click_inside
            } else {
                menu.close_condition.click_outside
            };
            let closes = (clicks && wanted) || holds(menu.bar_bounds, at);
            &&& !after.state.pressed
            &&& closes ==> !after.state.open && after.state.menu_states.len() == 0
                && after.state.active_root.len() == 0 && after.outcome == PointerOutcome::<
                Exact,
            >::Done(Status::Captured)
            &&& !closes ==> after.state == (MenuBarModel { pressed: false, ..m }) && after.outcome
                == PointerOutcome::<Exact>::Done(menu_status)
        }),
{
    lemma_fractions();
    assert(4real / 1real == 4real) by (nonlinear_arith);
    let at = Point {
        x: exact(released_at.x.value + viewport.x.value),
        y: exact(released_at.y.value + viewport.y.value),
    };
    assert(in_overlay(released_at, viewport) == at);
    assert(in_panels(m.menu_states, at) == in_some_panel(m.menu_states, at)) by {
        if in_some_panel(m.menu_states, at) {
            let i = choose|i: int|
                0 <= i < m.menu_states.len() && holds(
                    (#[trigger] m.menu_states[i]).menu_bounds.check_bounds,
                    at,
                );
            assert(m.menu_states[i].menu_bounds.check_bounds.covers(at));
        }
        if in_panels(m.menu_states, at) {
            let i = choose|i: int|
                0 <= i < m.menu_states.len() && (
                #[trigger] m.menu_states[i]).menu_bounds.check_bounds.covers(at);
            assert(holds(m.menu_states[i].menu_bounds.check_bounds, at));
        }
    }
}

/// Pressing the left button or putting a finger down closes nothing: it is remembered where that
/// was. Other buttons do nothing.
pub proof fn law_press_is_remembered<'b, S: Arithmetic, I>(
    menu: Menu<'b, S, I>,
    m: MenuBarModel<S>,
    event: Event<S>,
    view_cursor: Cursor<S>,
    viewport: Rectangle<S>,
    menu_status: Status,
)
    requires
        event matches Event::Mouse(MouseEvent::ButtonPressed { .. }) || event matches Event::Touch(
            TouchEvent::FingerPressed { .. },
        ),
    ensures
        ({
            let after = menu.pointer_model(m, event, view_cursor, viewport, menu_status);
            let counts = !(event matches Event::Mouse(MouseEvent::ButtonPressed { button })
                && button != Button::Left);
            &&& counts ==> after.state == (MenuBarModel { pressed: true, view_cursor, ..m })
                && after.outcome == PointerOutcome::<S>::Done(Status::Captured)
            &&& !counts ==> after.state == m && after.outcome == PointerOutcome::<S>::Done(
                menu_status,
            )
        }),
{
}

/// The wheel and a moving pointer leave the menu as it is. The wheel scrolls the panels below the
/// cursor, and the selection follows a pointer that moves: in an overlay wherever it is, and else
/// only within the view.
pub proof fn law_pointer_is_followed<'b, I>(
    menu: Menu<'b, Exact, I>,
    m: MenuBarModel<Exact>,
    event: Event<Exact>,
    cursor: Point<Exact>,
    viewport: Rectangle<Exact>,
    menu_status: Status,
)
    ensures
        ({
            let after = menu.pointer_model(
                m,
                event,
                Cursor::Available(cursor),
                viewport,
                menu_status,
            );
            let moved_to = match event {
                Event::Mouse(MouseEvent::CursorMoved { position }) => Some(position),
                Event::Touch(TouchEvent::FingerMoved { position, .. }) => Some(position),
                _ => None,
            };
            &&& event matches Event::Mouse(MouseEvent::WheelScrolled { delta, .. }) ==> after.state
                == m && (after.outcome matches PointerOutcome::Scroll { delta: d, overlay_cursor }
                && d == delta && overlay_cursor.x.value == cursor.x.value + viewport.x.value
                && overlay_cursor.y.value == cursor.y.value + viewport.y.value)
            &&& moved_to matches Some(p) ==> after.state == m && if menu.is_overlay || holds(
                viewport,
                p,
            ) {
                after.outcome matches PointerOutcome::Track { view_cursor, overlay_cursor }
                    && view_cursor == Cursor::Available(p) && overlay_cursor.x.value == p.x.value
                    + viewport.x.value && overlay_cursor.y.value == p.y.value + viewport.y.value
            } else {
                after.outcome == PointerOutcome::<Exact>::Done(menu_status)
            }
        }),
{
    lemma_fractions();
}

/// An assistive technology selects the item that it focuses or clicks, and nothing where it takes
/// the focus away. Panels behind the one with the item go away.
pub proof fn law_assistive_focus_is_followed<'b, S: Arithmetic, I>(
    menu: Menu<'b, S, I>,
    m: MenuBarModel<S>,
    panel: int,
    item: usize,
    action: AccessibilityAction,
)
    requires
        0 <= panel < m.menu_states.len(),
    ensures
        ({
            let after = menu.acted_on(m, panel, item, action);
            &&& after.open == m.open
            &&& after.menu_states.len() == panel + 1
            &&& after.menu_states[panel].index == (match action {
                AccessibilityAction::Focus => Some(item),
                AccessibilityAction::Click => Some(item),
                AccessibilityAction::Blur => None,
                AccessibilityAction::Other => m.menu_states[panel].index,
            })
            &&& after.menu_states[panel].menu_bounds == m.menu_states[panel].menu_bounds
            &&& after.menu_states[panel].scroll_offset == m.menu_states[panel].scroll_offset
            &&& after.active_root.len() <= panel + 1
            &&& forall|i: int|
                0 <= i < after.active_root.len() ==> after.active_root[i] == m.active_root[i]
            &&& m.active_root.len() <= panel + 1 ==> after.active_root == m.active_root
        }),
{
}

/// A click on an item presses and releases the left button in the middle of it, and the release is
/// seen whatever was made of the press.
pub proof fn law_click_hits_the_middle(area: Rectangle<Exact>)
    requires
        area.width.value > 0real,
        area.height.value > 0real,
    ensures
        ({
            let steps = click_steps(area);
            &&& steps.len() == 3
            &&& steps[1] is Uncapture
            &&& steps[0] matches ClickStep::Update { event, cursor: Cursor::Available(p) } && event
                matches Event::Mouse(MouseEvent::ButtonPressed { button: Button::Left }) && holds(
                area,
                p,
            ) && 2real * (p.x.value - area.x.value) == area.width.value && 2real * (p.y.value
                - area.y.value) == area.height.value
            &&& steps[2] matches ClickStep::Update { event, cursor: Cursor::Available(p) } && event
                matches Event::Mouse(MouseEvent::ButtonReleased { button: Button::Left }) && holds(
                area,
                p,
            ) && 2real * (p.x.value - area.x.value) == area.width.value && 2real * (p.y.value
                - area.y.value) == area.height.value
        }),
{
    let w = area.width.value;
    let h = area.height.value;
    assert(2real / 1real == 2real) by (nonlinear_arith);
    assert(2real * (w / 2real) == w) by (nonlinear_arith);
    assert(2real * (h / 2real) == h) by (nonlinear_arith);
}

/// The first panel shows the items of the open root. Once the submenu of an item of the last panel
/// has been opened in an overlay, the new panel shows the items of that submenu, and the panels
/// before it what they showed before.
pub proof fn law_panels_show_their_items<'b, S: Arithmetic, I>(
    menu: Menu<'b, S, I>,
    m: MenuBarModel<S>,
    pending: Pending<S>,
    bounds: MenuBounds<S>,
    panel: int,
)
    requires
        menu.is_overlay,
        m.active_root.len() > 0,
        m.active_root.len() == m.menu_states.len(),
        pending is OpenSubmenu,
        pending->OpenSubmenu_hover < menu.items_of(m, m.menu_states.len() - 1).len(),
        0 <= panel < m.menu_states.len(),
    ensures
        ({
            let opened = menu.finished(m, pending, bounds);
            let last = m.menu_states.len() - 1;
            &&& menu.items_of(m, 0) == menu.menu_roots@[m.active_root[0] as int].children@
            &&& opened.menu_states.len() == last + 2
            &&& menu.items_of(opened, last + 1) == menu.items_of(
                m,
                last,
            )[pending->OpenSubmenu_hover as int].children@
            &&& menu.items_of(opened, panel) == menu.items_of(m, panel)
            &&& menu.active_items(m) == menu.items_of(m, last)
        }),
{
    let opened = menu.finished(m, pending, bounds);
    let last = m.menu_states.len() - 1;
    let path = path_below_root(opened.active_root, last + 1);
    assert(path_below_root(m.active_root, 0) =~= Seq::empty());
    assert(path.drop_last() =~= path_below_root(m.active_root, last));
    assert(path.last() == pending->OpenSubmenu_hover);
    assert(path_below_root(opened.active_root, panel) =~= path_below_root(m.active_root, panel));
    assert(path_below_root(m.active_root, last) =~= m.active_root.subrange(
        1,
        m.active_root.len() as int,
    ));
}

/// Assistive technologies are told of every item of every panel, once: each place in a panel is
/// among the places, and no place comes before one of an earlier panel or before an earlier one of
/// its own.
pub proof fn law_every_place_is_told<'b, S: Arithmetic, I>(
    menu: Menu<'b, S, I>,
    m: MenuBarModel<S>,
    panels: int,
    panel: int,
    item: int,
)
    requires
        0 <= panel < panels <= usize::MAX,
        0 <= item < menu.items_of(m, panel).len(),
        forall|k: int| 0 <= k < panels ==> (#[trigger] menu.items_of(m, k)).len() <= usize::MAX,
    ensures
        menu.places(m, panels).contains((panel as usize, item as usize)),
        forall|i: int, j: int|
            0 <= i < j < menu.places(m, panels).len() ==> {
                let a = #[trigger] menu.places(m, panels)[i];
                let b = #[trigger] menu.places(m, panels)[j];
                a.0 < b.0 || (a.0 == b.0 && a.1 < b.1)
            },
    decreases panels,
{
    let all = menu.places(m, panels);
    let before = menu.places(m, panels - 1);
    let wanted = (panel as usize, item as usize);
    if panel < panels - 1 {
        law_every_place_is_told(menu, m, panels - 1, panel, item);
        let i = choose|i: int| 0 <= i < before.len() && before[i] == wanted;
        assert(all[i] == wanted);
    } else {
        assert(all[before.len() + item] == wanted);
    }
    lemma_places_in_order(menu, m, panels);
}

/// The places of some panels belong to these panels, and are in order.
proof fn lemma_places_in_order<'b, S: Arithmetic, I>(
    menu: Menu<'b, S, I>,
    m: MenuBarModel<S>,
    panels: int,
)
    requires
        0 <= panels <= usize::MAX,
        forall|k: int| 0 <= k < panels ==> (#[trigger] menu.items_of(m, k)).len() <= usize::MAX,
    ensures
        forall|i: int|
            0 <= i < menu.places(m, panels).len() ==> (#[trigger] menu.places(m, panels)[i]).0
                < panels,
        forall|i: int, j: int|
            0 <= i < j < menu.places(m, panels).len() ==> {
                let a = #[trigger] menu.places(m, panels)[i];
                let b = #[trigger] menu.places(m, panels)[j];
                a.0 < b.0 || (a.0 == b.0 && a.1 < b.1)
            },
    decreases panels,
{
    if panels > 0 {
        lemma_places_in_order(menu, m, panels - 1);
        let all = menu.places(m, panels);
        let before = menu.places(m, panels - 1);
        let n = before.len() as int;
        assert(menu.items_of(m, panels - 1).len() <= usize::MAX);
        assert forall|i: int| 0 <= i < all.len() implies (#[trigger] all[i]).0 < panels by {
            if i < n {
                assert(all[i] == before[i]);
            } else {
                assert(all[i] == ((panels - 1) as usize, (i - n) as usize));
            }
        }
        assert forall|i: int, j: int| 0 <= i < j < all.len() implies {
            let a = #[trigger] all[i];
            let b = #[trigger] all[j];
            a.0 < b.0 || (a.0 == b.0 && a.1 < b.1)
        } by {
            if j < n {
                assert(all[i] == before[i] && all[j] == before[j]);
            } else {
                assert(all[j] == ((panels - 1) as usize, (j - n) as usize));
                if i < n {
                    assert(all[i] == before[i]);
                } else {
                    assert(all[i] == ((panels - 1) as usize, (i - n) as usize));
                }
            }
        }
    }
}

/// What an assistive technology does is followed exactly if it is done to an item of the menu that
/// is no separator.
pub proof fn law_separators_are_not_acted_on<'b, S: Arithmetic, I>(
    menu: Menu<'b, S, I>,
    m: MenuBarModel<S>,
    panel: usize,
    item: usize,
)
    ensures
        menu.follows(m, Some((panel, item))) == !menu.items_of(
            m,
            panel as int,
        )[item as int].is_separator,
        !menu.follows(m, None),
{
}

} // verus!
