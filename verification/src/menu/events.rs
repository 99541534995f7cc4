//! How the overlay of a menu reacts to events other than keys.
//!
//! `dispatch` says what an event is. What assistive technologies do is handled by
//! `handle_accessibility`. For a pointer the front end first lets the items see the event and
//! opens a root that is due, and then hands the outcome to `handle_pointer`.
use vstd::prelude::*;

use crate::event::{
    is_button_release, is_finger_lift, left_button_released, touch_lifted, AccessibilityAction,
    Button, Event, MouseEvent, ScrollDelta, Status, TouchEvent,
};
use crate::geometry::{Cursor, Point, Rectangle};
use crate::menu::overlay::{Menu, MenuEffect};
use crate::menu::state::{MenuBarModel, MenuBarState, MenuState};
use crate::menu::tree::{descend, items_at, path_below_root, MenuTree};
use crate::scalar::{whole, zero, Arithmetic, Scalar};

verus! {

/// What an event is to a menu.
#[derive(Clone, Copy, Debug, PartialEq, Eq, Structural)]
pub enum Dispatch {
    /// The menu is closed.
    Ignored,
    /// Something that an assistive technology does.
    Accessibility,
    /// A key.
    Keyboard,
    /// Anything else.
    Pointer,
}

/// What comes of the pointer.
#[derive(Clone, Copy, Debug)]
pub enum PointerOutcome<S> {
    /// Nothing more is to be done.
    Done(Status),
    /// The panels are scrolled; what comes of it is merged with what the items made of it.
    Scroll { delta: ScrollDelta<S>, overlay_cursor: Point<S> },
    /// The selection follows the cursor; what comes of it is merged with what the items made of
    /// it.
    Track { view_cursor: Cursor<S>, overlay_cursor: Point<S> },
}

/// What comes of the pointer, and the menu it leaves.
#[verifier::ext_equal]
pub struct PointerModel<S> {
    pub outcome: PointerOutcome<S>,
    pub state: MenuBarModel<S>,
}

/// A position of the view as seen from the overlay.
pub open spec fn in_overlay<S: Arithmetic>(p: Point<S>, viewport: Rectangle<S>) -> Point<S> {
    Point {
        x: p.x.difference(zero::<S>().difference(viewport.x)),
        y: p.y.difference(zero::<S>().difference(viewport.y)),
    }
}

/// Gives a position of the view as seen from the overlay.
pub fn to_overlay<S: Scalar>(p: Point<S>, viewport: Rectangle<S>) -> (r: Point<S>)
    ensures
        r == in_overlay(p, viewport),
{
    Point {
        x: p.x.minus(S::ratio(0, 1).minus(viewport.x)),
        y: p.y.minus(S::ratio(0, 1).minus(viewport.y)),
    }
}

/// Whether a position is in one of the panels.
pub open spec fn in_panels<S: Arithmetic>(panels: Seq<MenuState<S>>, p: Point<S>) -> bool {
    exists|i: int|
        0 <= i < panels.len() && (#[trigger] panels[i]).menu_bounds.check_bounds.covers(p)
}

fn is_in_panels<S: Scalar>(panels: &Vec<MenuState<S>>, p: Point<S>) -> (r: bool)
    ensures
        r == in_panels(panels@, p),
{
    let len: usize = panels.len();
    let mut i: usize = 0;
    while i < len
        invariant
            0 <= i <= len,
            len == panels@.len(),
            forall|k: int|
                0 <= k < i ==> !(#[trigger] panels@[k]).menu_bounds.check_bounds.covers(p),
        decreases len - i,
    {
        if panels[i].menu_bounds.check_bounds.contains(p) {
            assert(panels@[i as int].menu_bounds.check_bounds.covers(p));
            return true;
        }
        i = i + 1;
    }
    false
}

/// Whether two positions are less than two pixels apart.
pub open spec fn is_close<S: Arithmetic>(a: Point<S>, b: Point<S>) -> bool {
    let dx = a.x.difference(b.x);
    let dy = a.y.difference(b.y);
    dx.product(dx).sum(dy.product(dy)).below(whole(4))
}

fn are_close<S: Scalar>(a: Point<S>, b: Point<S>) -> (r: bool)
    ensures
        r == is_close(a, b),
{
    let dx: S = a.x.minus(b.x);
    let dy: S = a.y.minus(b.y);
    dx.times(dx).plus(dy.times(dy)).lt(S::ratio(4, 1))
}

/// Whether an event releases the left button or a finger.
pub open spec fn is_click<S>(event: Event<S>) -> bool {
    is_button_release(event, Button::Left) || is_finger_lift(event)
}

impl<'b, S: Arithmetic, I> Menu<'b, S, I> {
    /// The items of a panel.
    pub open spec fn items_of(self, m: MenuBarModel<S>, panel: int) -> Seq<MenuTree<I>> {
        items_at(
            self.menu_roots@[m.active_root[0] as int].children@,
            path_below_root(m.active_root, panel),
        )
    }

    /// Whether the menu shows panels of a root that exists.
    pub open spec fn is_showing(self, m: MenuBarModel<S>) -> bool {
        m.open && self.root_exists(m)
    }

    /// The items of the first panels, panel by panel, each as its panel and its position there.
    pub open spec fn places(self, m: MenuBarModel<S>, panels: int) -> Seq<(usize, usize)>
        decreases panels,
    {
        if panels <= 0 {
            Seq::empty()
        } else {
            self.places(m, panels - 1) + Seq::new(
                self.items_of(m, panels - 1).len(),
                |k: int| ((panels - 1) as usize, k as usize),
            )
        }
    }

    /// The menu after an assistive technology has acted on an item: deeper panels are closed,
    /// and the item gains or loses the selection.
    pub open spec fn acted_on(
        self,
        m: MenuBarModel<S>,
        panel: int,
        item: usize,
        action: AccessibilityAction,
    ) -> MenuBarModel<S> {
        let states = m.menu_states.take(panel + 1);
        MenuBarModel {
            active_root: if m.active_root.len() > panel + 1 {
                m.active_root.take(panel + 1)
            } else {
                m.active_root
            },
            menu_states: states.update(
                panel,
                MenuState {
                    index: match action {
                        AccessibilityAction::Blur => None,
                        AccessibilityAction::Focus | AccessibilityAction::Click => Some(item),
                        AccessibilityAction::Other => states[panel].index,
                    },
                    ..states[panel]
                },
            ),
            ..m
        }
    }

    /// Whether an action on an item is followed: separators are left alone.
    pub open spec fn follows(self, m: MenuBarModel<S>, target: Option<(usize, usize)>) -> bool {
        match target {
            Some((panel, item)) => !self.items_of(m, panel as int)[item as int].is_separator,
            None => false,
        }
    }

    /// What a click or a release does. It closes the menu where the menu is to close with a
    /// click there, or where it lands on the bar; a drag closes nothing on its own.
    pub open spec fn release_model(
        self,
        m: MenuBarModel<S>,
        event: Event<S>,
        view_cursor: Cursor<S>,
        viewport: Rectangle<S>,
        menu_status: Status,
    ) -> PointerModel<S> {
        let released = MenuBarModel { pressed: false, ..m };
        let at = in_overlay(view_cursor.spot_or_origin(), viewport);
        let inside = in_panels(m.menu_states, at);
        let closes = is_close(m.view_cursor.spot_or_origin(), view_cursor.spot_or_origin())
            && is_click(event) && (if inside {
            self.close_condition.click_inside
        } else {
            self.close_condition.click_outside
        });
        if closes || self.bar_bounds.covers(at) {
            PointerModel {
                outcome: PointerOutcome::Done(Status::Captured),
                state: released.closed(),
            }
        } else {
            PointerModel { outcome: PointerOutcome::Done(menu_status), state: released }
        }
    }

    /// What comes of a moving cursor.
    pub open spec fn motion_outcome(
        self,
        position: Point<S>,
        viewport: Rectangle<S>,
        menu_status: Status,
    ) -> PointerOutcome<S> {
        if !self.is_overlay && !viewport.covers(position) {
            PointerOutcome::Done(menu_status)
        } else {
            PointerOutcome::Track {
                view_cursor: Cursor::Available(position),
                overlay_cursor: in_overlay(position, viewport),
            }
        }
    }

    /// What the pointer does.
    pub open spec fn pointer_model(
        self,
        m: MenuBarModel<S>,
        event: Event<S>,
        view_cursor: Cursor<S>,
        viewport: Rectangle<S>,
        menu_status: Status,
    ) -> PointerModel<S> {
        let at = in_overlay(view_cursor.spot_or_origin(), viewport);
        let pressed = PointerModel {
            outcome: PointerOutcome::Done(Status::Captured),
            state: MenuBarModel { pressed: true, view_cursor, ..m },
        };
        match event {
            Event::Mouse(MouseEvent::WheelScrolled { delta, .. }) => PointerModel {
                outcome: PointerOutcome::Scroll { delta, overlay_cursor: at },
                state: m,
            },
            Event::Mouse(MouseEvent::ButtonPressed { button: Button::Left }) => pressed,
            Event::Touch(TouchEvent::FingerPressed { .. }) => pressed,
            Event::Mouse(MouseEvent::CursorMoved { position }) => PointerModel {
                outcome: self.motion_outcome(position, viewport, menu_status),
                state: m,
            },
            Event::Touch(TouchEvent::FingerMoved { position, .. }) => PointerModel {
                outcome: self.motion_outcome(position, viewport, menu_status),
                state: m,
            },
            Event::Mouse(MouseEvent::ButtonReleased { .. }) => self.release_model(
                m,
                event,
                view_cursor,
                viewport,
                menu_status,
            ),
            Event::Touch(TouchEvent::FingerLifted { .. }) => self.release_model(
                m,
                event,
                view_cursor,
                viewport,
                menu_status,
            ),
            _ => PointerModel { outcome: PointerOutcome::Done(menu_status), state: m },
        }
    }

    /// Only the left button and fingers close a menu with a click outside of its bar: a right
    /// click leaves the menu open.
    pub proof fn law_right_click_closes_nothing(
        self,
        m: MenuBarModel<S>,
        event: Event<S>,
        view_cursor: Cursor<S>,
        viewport: Rectangle<S>,
        menu_status: Status,
    )
        requires
            is_button_release(event, Button::Right),
            !self.bar_bounds.covers(in_overlay(view_cursor.spot_or_origin(), viewport)),
        ensures
            self.pointer_model(m, event, view_cursor, viewport, menu_status).state == (
            MenuBarModel { pressed: false, ..m }),
    {
    }

    /// A click closes a menu that closes with clicks both inside and outside, wherever it lands.
    pub proof fn law_click_closes_context_menu(
        self,
        m: MenuBarModel<S>,
        event: Event<S>,
        view_cursor: Cursor<S>,
        viewport: Rectangle<S>,
        menu_status: Status,
    )
        requires
            is_click(event),
            is_close(m.view_cursor.spot_or_origin(), view_cursor.spot_or_origin()),
            self.close_condition.click_inside,
            self.close_condition.click_outside,
        ensures
            ({
                let after = self.pointer_model(
                    m,
                    event,
                    view_cursor,
                    viewport,
                    menu_status,
                );
                &&& !after.state.open
                &&& after.state.menu_states.len() == 0
                &&& after.outcome == PointerOutcome::<S>::Done(Status::Captured)
            }),
    {
    }

    /// Whatever an assistive technology does, panels stay on the active path, and the panels
    /// above the one that it acts in stay as they are.
    pub proof fn law_action_keeps_panels_above(
        self,
        m: MenuBarModel<S>,
        panel: int,
        item: usize,
        action: AccessibilityAction,
    )
        requires
            m.panels_on_path(),
            0 <= panel < m.menu_states.len(),
        ensures
            ({
                let after = self.acted_on(m, panel, item, action);
                &&& after.panels_on_path()
                &&& after.menu_states.len() == panel + 1
                &&& after.menu_states.take(panel) == m.menu_states.take(panel)
            }),
    {
        let after = self.acted_on(m, panel, item, action);
        assert(after.menu_states.take(panel) =~= m.menu_states.take(panel));
    }
}

impl<'b, S: Scalar, I> Menu<'b, S, I> {
    /// Tells what an event is to the menu.
    pub fn dispatch(&self, state: &MenuBarState<S>, event: &Event<S>) -> (r: Dispatch)
        ensures
            r == (if !state@.open && state@.active_root.len() == 0 {
                Dispatch::Ignored
            } else if event is Accessibility {
                Dispatch::Accessibility
            } else if event is Keyboard {
                Dispatch::Keyboard
            } else {
                Dispatch::Pointer
            }),
    {
        if !state.open && state.active_root.len() == 0 {
            return Dispatch::Ignored;
        }
        match event {
            Event::Accessibility(_) => Dispatch::Accessibility,
            Event::Keyboard(_) => Dispatch::Keyboard,
            _ => Dispatch::Pointer,
        }
    }

    /// Gives the items of a panel.
    pub fn panel_items(&self, state: &MenuBarState<S>, panel: usize) -> (r: &'b Vec<MenuTree<I>>)
        requires
            self.root_exists(state@),
        ensures
            r@ == self.items_of(state@, panel as int),
    {
        let root: usize = state.active_root[0];
        descend(&self.menu_roots[root].children, &state.active_root, panel)
    }

    /// Lists the items of all panels in the order in which they are looked for.
    pub fn accessible_items(&self, state: &MenuBarState<S>) -> (r: Vec<(usize, usize)>)
        ensures
            r@ == (if self.is_showing(state@) {
                self.places(state@, state@.menu_states.len() as int)
            } else {
                Seq::empty()
            }),
    {
        let mut places: Vec<(usize, usize)> = Vec::new();
        if !state.open || state.active_root.len() == 0 || state.active_root[0]
            >= self.menu_roots.len() {
            return places;
        }
        let panels: usize = state.menu_states.len();
        let mut panel: usize = 0;
        while panel < panels
            invariant
                0 <= panel <= panels,
                self.root_exists(state@),
                places@ == self.places(state@, panel as int),
            decreases panels - panel,
        {
            let items: &Vec<MenuTree<I>> = self.panel_items(state, panel);
            let len: usize = items.len();
            let mut item: usize = 0;
            let ghost before = places@;
            while item < len
                invariant
                    0 <= item <= len,
                    panel < panels,
                    places@ == before + Seq::new(item as nat, |k: int| (panel, k as usize)),
                decreases len - item,
            {
                places.push((panel, item));
                item = item + 1;
                assert(places@ =~= before + Seq::new(item as nat, |k: int| (panel, k as usize)));
            }
            panel = panel + 1;
            assert(places@ =~= self.places(state@, panel as int));
        }
        places
    }

    /// Handles what an assistive technology does to the item that it means, if the menu has it.
    pub fn handle_accessibility(
        &self,
        state: &mut MenuBarState<S>,
        action: AccessibilityAction,
        target: Option<(usize, usize)>,
    ) -> (r: (Status, Vec<MenuEffect>))
        requires
            target matches Some((panel, item)) ==> self.is_showing(old(state)@) && panel < old(
                state,
            )@.menu_states.len() && item < self.items_of(old(state)@, panel as int).len(),
        ensures
            r.0 == (if self.follows(old(state)@, target) {
                Status::Captured
            } else {
                Status::Ignored
            }),
            r.1@ == (if self.follows(old(state)@, target) {
                seq![MenuEffect::RequestRedraw]
            } else {
                Seq::empty()
            }),
            final(state)@ == (match target {
                Some((panel, item)) => if self.follows(old(state)@, target) {
                    self.acted_on(old(state)@, panel as int, item, action)
                } else {
                    old(state)@
                },
                None => old(state)@,
            }),
    {
        let (panel, item) = match target {
            Some((panel, item)) => (panel, item),
            None => {
                return (Status::Ignored, Vec::new());
            },
        };
        let items: &Vec<MenuTree<I>> = self.panel_items(state, panel);
        if items[item].is_separator {
            return (Status::Ignored, Vec::new());
        }
        let ghost before = state@;
        assert(panel < state.menu_states.len());
        state.menu_states.truncate(panel + 1);
        state.active_root.truncate(panel + 1);
        match action {
            AccessibilityAction::Blur => {
                state.menu_states[panel].index = None;
            },
            AccessibilityAction::Focus => {
                state.menu_states[panel].index = Some(item);
            },
            AccessibilityAction::Click => {
                state.menu_states[panel].index = Some(item);
            },
            AccessibilityAction::Other => {},
        }
        assert(state@ =~= self.acted_on(before, panel as int, item, action));
        let mut effects: Vec<MenuEffect> = Vec::new();
        effects.push(MenuEffect::RequestRedraw);
        (Status::Captured, effects)
    }

    /// Handles the pointer, given what the items made of the event.
    pub fn handle_pointer(
        &self,
        state: &mut MenuBarState<S>,
        event: &Event<S>,
        view_cursor: Cursor<S>,
        viewport: Rectangle<S>,
        menu_status: Status,
    ) -> (outcome: PointerOutcome<S>)
        ensures
            ({
                let model = self.pointer_model(
                    old(state)@,
                    *event,
                    view_cursor,
                    viewport,
                    menu_status,
                );
                &&& outcome == model.outcome
                &&& final(state)@ =~= model.state
            }),
    {
        let at: Point<S> = to_overlay(view_cursor.position_or_origin(), viewport);
        match event {
            Event::Mouse(MouseEvent::WheelScrolled { delta, .. }) => PointerOutcome::Scroll {
                delta: *delta,
                overlay_cursor: at,
            },
            Event::Mouse(MouseEvent::ButtonPressed { button: Button::Left }) => {
                state.pressed = true;
                state.view_cursor = view_cursor;
                PointerOutcome::Done(Status::Captured)
            },
            Event::Touch(TouchEvent::FingerPressed { .. }) => {
                state.pressed = true;
                state.view_cursor = view_cursor;
                PointerOutcome::Done(Status::Captured)
            },
            Event::Mouse(MouseEvent::CursorMoved { position }) => self.track(
                *position,
                viewport,
                menu_status,
            ),
            Event::Touch(TouchEvent::FingerMoved { position, .. }) => self.track(
                *position,
                viewport,
                menu_status,
            ),
            Event::Mouse(MouseEvent::ButtonReleased { .. }) => self.release(
                state,
                event,
                view_cursor,
                viewport,
                menu_status,
            ),
            Event::Touch(TouchEvent::FingerLifted { .. }) => self.release(
                state,
                event,
                view_cursor,
                viewport,
                menu_status,
            ),
            _ => PointerOutcome::Done(menu_status),
        }
    }

    fn track(&self, position: Point<S>, viewport: Rectangle<S>, menu_status: Status) -> (outcome:
        PointerOutcome<S>)
        ensures
            outcome == self.motion_outcome(position, viewport, menu_status),
    {
        if !self.is_overlay && !viewport.contains(position) {
            return PointerOutcome::Done(menu_status);
        }
        PointerOutcome::Track {
            view_cursor: Cursor::Available(position),
            overlay_cursor: to_overlay(position, viewport),
        }
    }

    fn release(
        &self,
        state: &mut MenuBarState<S>,
        event: &Event<S>,
        view_cursor: Cursor<S>,
        viewport: Rectangle<S>,
        menu_status: Status,
    ) -> (outcome: PointerOutcome<S>)
        ensures
            ({
                let model = self.release_model(
                    old(state)@,
                    *event,
                    view_cursor,
                    viewport,
                    menu_status,
                );
                &&& outcome == model.outcome
                &&& final(state)@ == model.state
            }),
    {
        let at: Point<S> = to_overlay(view_cursor.position_or_origin(), viewport);
        state.pressed = false;
        if are_close(state.view_cursor.position_or_origin(), view_cursor.position_or_origin()) {
            let is_inside: bool = is_in_panels(&state.menu_states, at);
            let is_click: bool = left_button_released(event) || touch_lifted(event);
            let needs_reset: bool = is_click && ((self.close_condition.click_inside && is_inside)
                || (self.close_condition.click_outside && !is_inside));
            if needs_reset {
                state.reset();
                return PointerOutcome::Done(Status::Captured);
            }
        }
        if self.bar_bounds.contains(at) {
            state.reset();
            PointerOutcome::Done(Status::Captured)
        } else {
            PointerOutcome::Done(menu_status)
        }
    }
}

} // verus!
