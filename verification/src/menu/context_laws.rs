//! How a context menu opens and closes.
use vstd::prelude::*;

use crate::event::{Button, Event, Key, KeyboardEvent, MouseEvent, Named, TouchEvent};
use crate::geometry::{Cursor, Point, Rectangle, Vector};
use crate::geometry_laws::holds;
use crate::menu::context_menu::{anchor_of, ContextEffect, ContextMenu, LocalModel};
use crate::menu::model::{activation, MenuId};
use crate::scalar::exact::{lemma_fractions, Exact};

verus! {

/// The release of the right button over the widget opens its menu at the cursor, with the first
/// root and no panel yet. The widget below sees the event as well.
pub proof fn law_right_click_opens_the_menu<C, M, F, I>(
    menu: ContextMenu<C, M, F, I>,
    s: LocalModel<Exact>,
    at: Point<Exact>,
    bounds: Rectangle<Exact>,
)
    requires
        menu.context_menu is Some,
        menu.on_right_click is None,
        menu.native_items is None,
        holds(bounds, at),
    ensures
        ({
            let event = Event::Mouse(MouseEvent::ButtonReleased { button: Button::Right });
            let after = menu.update_model(s, event, bounds, Cursor::Available(at));
            &&& after.state.bar.open
            &&& after.state.bar.active_root == seq![0usize]
            &&& after.state.bar.menu_states == s.bar.menu_states
            &&& after.state.bar.view_cursor == Cursor::Available(at)
            &&& after.state.context_cursor == at
            &&& after.state.fingers == s.fingers
            &&& after.forward
            &&& after.effects == seq![
                ContextEffect::<Exact>::CaptureEvent,
                ContextEffect::<Exact>::RequestRedraw,
            ]
        }),
{
}

/// Lifting one of two fingers over the widget opens its menu as a right click does; with any other
/// number of fingers it closes it.
pub proof fn law_two_fingers_open_the_menu<C, M, F, I>(
    menu: ContextMenu<C, M, F, I>,
    s: LocalModel<Exact>,
    id: u64,
    position: Point<Exact>,
    at: Point<Exact>,
    bounds: Rectangle<Exact>,
)
    requires
        menu.context_menu is Some,
        menu.on_right_click is None,
        menu.native_items is None,
        holds(bounds, at),
    ensures
        ({
            let event = Event::Touch(TouchEvent::FingerLifted { id, position });
            let after = menu.update_model(s, event, bounds, Cursor::Available(at));
            &&& after.state.bar.open == (s.fingers.len() == 2)
            &&& after.state.bar.open ==> after.state.context_cursor == at
            &&& !after.state.bar.open ==> after.state.bar.menu_states.len() == 0
                && after.state.bar.active_root.len() == 0
            &&& forall|f: u64| #[trigger]
                after.state.fingers.contains(f) <==> s.fingers.contains(f) && f != id
        }),
{
}

/// A finger that goes down over the widget, while its menu is closed, is counted and does nothing
/// else.
pub proof fn law_fingers_are_counted<C, M, F, I>(
    menu: ContextMenu<C, M, F, I>,
    s: LocalModel<Exact>,
    id: u64,
    position: Point<Exact>,
    at: Point<Exact>,
    bounds: Rectangle<Exact>,
)
    requires
        !s.bar.open,
        holds(bounds, at),
    ensures
        ({
            let event = Event::Touch(TouchEvent::FingerPressed { id, position });
            let after = menu.update_model(s, event, bounds, Cursor::Available(at));
            &&& after.state.bar == s.bar
            &&& after.effects.len() == 0
            &&& forall|f: u64| #[trigger]
                after.state.fingers.contains(f) <==> s.fingers.contains(f) || f == id
        }),
{
}

/// A click beside an open menu closes it: any press of the left or the right button, or of a
/// finger, outside of the widget. The event goes no further up, but the widget sees it.
pub proof fn law_press_elsewhere_closes_the_menu<C, M, F, I>(
    menu: ContextMenu<C, M, F, I>,
    s: LocalModel<Exact>,
    event: Event<Exact>,
    at: Point<Exact>,
    bounds: Rectangle<Exact>,
)
    requires
        s.bar.open,
        !holds(bounds, at),
        event matches Event::Mouse(MouseEvent::ButtonPressed { button: Button::Left })
            || event matches Event::Mouse(MouseEvent::ButtonPressed { button: Button::Right })
            || event matches Event::Touch(TouchEvent::FingerPressed { .. }),
    ensures
        ({
            let after = menu.update_model(s, event, bounds, Cursor::Available(at));
            &&& !after.state.bar.open
            &&& after.state.bar.menu_states.len() == 0
            &&& after.state.bar.active_root.len() == 0
            &&& after.forward
            &&& after.effects.len() == 2
            &&& after.effects[0] is CaptureEvent
        }),
{
}

/// Letting the left button go over the widget closes its menu; moving the cursor, turning the wheel
/// or pressing a key other than Escape leaves everything as it is.
pub proof fn law_other_events_leave_the_menu<C, M, F, I>(
    menu: ContextMenu<C, M, F, I>,
    s: LocalModel<Exact>,
    event: Event<Exact>,
    at: Point<Exact>,
    bounds: Rectangle<Exact>,
)
    requires
        holds(bounds, at),
    ensures
        ({
            let after = menu.update_model(s, event, bounds, Cursor::Available(at));
            let is_move = event matches Event::Mouse(MouseEvent::CursorMoved { .. })
                || event matches Event::Mouse(MouseEvent::WheelScrolled { .. })
                || event matches Event::Touch(TouchEvent::FingerMoved { .. });
            let is_key = event matches Event::Keyboard(
                KeyboardEvent::KeyPressed { key: Key::Named(named), .. },
            ) && named != Named::Escape;
            &&& event matches Event::Mouse(
                MouseEvent::ButtonReleased { button: Button::Left },
            ) ==> {
                &&& !after.state.bar.open
                &&& after.state.bar.menu_states.len() == 0
                &&& after.state.fingers == s.fingers
                &&& after.forward
            }
            &&& is_move || is_key ==> after.state == s && after.effects.len() == 0 && after.forward
        }),
{
}

/// Where a native menu replaces the menu, a right click over the widget asks for it at the cursor
/// and opens nothing.
pub proof fn law_native_menu_is_requested<C, M, F, I>(
    menu: ContextMenu<C, M, F, I>,
    s: LocalModel<Exact>,
    at: Point<Exact>,
    bounds: Rectangle<Exact>,
)
    requires
        menu.context_menu is Some,
        menu.on_right_click is None,
        menu.native_items is Some,
        holds(bounds, at),
    ensures
        ({
            let event = Event::Mouse(MouseEvent::ButtonReleased { button: Button::Right });
            let after = menu.update_model(s, event, bounds, Cursor::Available(at));
            &&& after.effects == seq![
                ContextEffect::RequestContextMenu(at),
                ContextEffect::CaptureEvent,
            ]
            &&& !after.forward
            &&& after.state == (LocalModel { context_cursor: at, ..s })
        }),
{
}

/// Seen from a layer that is shifted, the menu opens from the same point: shifting the layer back
/// leads to where the menu was asked for.
pub proof fn law_menu_opens_from_its_point(at: Point<Exact>, translation: Vector<Exact>)
    ensures
        ({
            let anchor = anchor_of(at, translation);
            &&& anchor.x.value + translation.x.value == at.x.value
            &&& anchor.y.value + translation.y.value == at.y.value
            &&& anchor.width.value == 0real
            &&& anchor.height.value == 0real
        }),
{
    lemma_fractions();
}

/// The choice of an entry in a native menu publishes the message of that entry; nothing else
/// publishes one.
pub proof fn law_chosen_entry_is_published<C, M, F, I>(
    menu: ContextMenu<C, M, F, I>,
    id: MenuId,
    event: Event<Exact>,
)
    ensures
        menu.selected_message(Event::<Exact>::ContextMenuItemSelected(id)) == (
        match menu.menu_nodes {
            Some(nodes) => activation(id, nodes@),
            None => None,
        }),
        !(event is ContextMenuItemSelected) ==> menu.selected_message(event) is None,
{
}

} // verus!
