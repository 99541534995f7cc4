//! A menu that opens at the cursor.
use std::collections::HashSet;

use vstd::prelude::*;

use crate::event::{
    is_button_press, is_button_release, is_finger_lift, is_finger_press, is_press_of,
    left_button_released, right_button_pressed, right_button_released, touch_lifted, Button, Event,
    Key, KeyboardEvent, MouseEvent, Named, TouchEvent,
};
use crate::geometry::{origin, Cursor, Point, Rectangle, Vector};
use crate::menu::model::{
    activation, find_activated_message, ContextMenuItem, MenuId, MenuNode,
};
use crate::menu::overlay::Menu;
use crate::menu::state::{
    CloseCondition, Direction, ItemHeight, ItemWidth, MenuBarModel, MenuBarState, PathHighlight,
};
use crate::menu::tree::{alike, all_alike, numbered_from, MenuTree};
use crate::scalar::{zero, Arithmetic, Scalar};

verus! {

/// The direction in which text and menus flow.
#[derive(Clone, Copy, Debug, PartialEq, Eq, Structural)]
pub enum LayoutDirection {
    LeftToRight,
    RightToLeft,
}

/// A widget with a context menu.
#[must_use]
#[derive(Debug)]
pub struct ContextMenu<C, M, F, I> {
    /// The widget below the menu.
    pub content: C,
    /// The menu that is shown as an overlay.
    pub context_menu: Option<Vec<MenuTree<I>>>,
    /// Whether the escape key closes the menu.
    pub close_on_escape: bool,
    /// What replaces the menu on a right click.
    pub on_right_click: Option<F>,
    /// The entries of a native menu.
    pub native_items: Option<Vec<ContextMenuItem>>,
    /// The entries that the menu was made from.
    pub menu_nodes: Option<Vec<MenuNode<M>>>,
    /// The direction of this menu, where it differs from that of the application.
    pub layout_direction: Option<LayoutDirection>,
}

/// Whether a list of roots holds a single item above the given entries, numbered in flat order.
pub open spec fn single_root<I>(
    roots: Option<Vec<MenuTree<I>>>,
    item: I,
    menu: Seq<MenuTree<I>>,
) -> bool {
    &&& roots is Some
    &&& roots->0@.len() == 1
    &&& roots->0@[0].item == item
    &&& !roots->0@[0].is_separator
    &&& roots->0@[0].mnemonic is None
    &&& all_alike(menu, roots->0@[0].children@)
    &&& numbered_from(roots->0@[0].flat(), 0)
}

/// Whether the items below a single root can be numbered.
pub open spec fn can_be_numbered<I>(menu: Seq<MenuTree<I>>) -> bool {
    1 + crate::menu::tree::flat_items(menu).len() <= usize::MAX
}

/// Puts entries below a single root and numbers them.
fn rooted<I>(item: I, menu: Vec<MenuTree<I>>) -> (r: Vec<MenuTree<I>>)
    requires
        can_be_numbered(menu@),
    ensures
        single_root(Some(r), item, menu@),
{
    let mut root: MenuTree<I> = MenuTree::with_children(item, menu);
    let ghost before = root;
    root.set_index();
    let mut roots: Vec<MenuTree<I>> = Vec::new();
    roots.push(root);
    assert(all_alike(menu@, roots@[0].children@)) by {
        assert forall|i: int| 0 <= i < menu@.len() implies alike(
            #[trigger] menu@[i],
            roots@[0].children@[i],
        ) by {
            assert(alike(before.children@[i], root.children@[i]));
        }
    }
    roots
}

/// Makes a widget with a context menu out of the items of its overlay.
pub fn context_menu_from<C, M, F, I>(content: C, root_item: I, menu: Option<Vec<MenuTree<I>>>) -> (r:
    ContextMenu<C, M, F, I>)
    requires
        menu is Some ==> can_be_numbered(menu->0@),
    ensures
        r.content == content,
        menu is None ==> r.context_menu is None,
        menu is Some ==> single_root(r.context_menu, root_item, menu->0@),
        r.close_on_escape,
        r.on_right_click is None,
        r.native_items is None,
        r.menu_nodes is None,
        r.layout_direction is None,
{
    ContextMenu {
        content,
        context_menu: match menu {
            Some(menu) => Some(rooted(root_item, menu)),
            None => None,
        },
        close_on_escape: true,
        on_right_click: None,
        native_items: None,
        menu_nodes: None,
        layout_direction: None,
    }
}

/// Makes a widget with a context menu out of menu entries, given what the entries look like in
/// an overlay and in a native menu. An empty list is no menu.
pub fn context_menu<C, M, F, I>(
    content: C,
    root_item: I,
    nodes: Vec<MenuNode<M>>,
    items: Vec<MenuTree<I>>,
    native_items: Vec<ContextMenuItem>,
) -> (r: ContextMenu<C, M, F, I>)
    requires
        can_be_numbered(items@),
    ensures
        r.content == content,
        items@.len() == 0 ==> r.context_menu is None,
        items@.len() > 0 ==> single_root(r.context_menu, root_item, items@),
        r.close_on_escape,
        r.on_right_click is None,
        r.native_items == (if native_items@.len() == 0 {
            None
        } else {
            Some(native_items)
        }),
        r.menu_nodes == (if nodes@.len() == 0 {
            None
        } else {
            Some(nodes)
        }),
        r.layout_direction is None,
{
    ContextMenu {
        content,
        context_menu: if items.len() == 0 {
            None
        } else {
            Some(rooted(root_item, items))
        },
        close_on_escape: true,
        on_right_click: None,
        native_items: if native_items.len() == 0 {
            None
        } else {
            Some(native_items)
        },
        menu_nodes: if nodes.len() == 0 {
            None
        } else {
            Some(nodes)
        },
        layout_direction: None,
    }
}

/// The state of a context menu.
#[derive(Debug)]
pub struct LocalState<S> {
    /// Where the menu was asked for.
    pub context_cursor: Point<S>,
    /// The fingers that are down on the widget.
    pub fingers_pressed: HashSet<u64>,
    pub menu_bar_state: MenuBarState<S>,
}

/// What a `LocalState` stands for.
#[verifier::ext_equal]
pub struct LocalModel<S> {
    pub context_cursor: Point<S>,
    pub fingers: Set<u64>,
    pub bar: MenuBarModel<S>,
}

impl<S> View for LocalState<S> {
    type V = LocalModel<S>;

    open spec fn view(&self) -> LocalModel<S> {
        LocalModel {
            context_cursor: self.context_cursor,
            fingers: self.fingers_pressed@,
            bar: self.menu_bar_state@,
        }
    }
}

/// What a context menu asks of its surroundings.
#[derive(Clone, Copy, Debug)]
pub enum ContextEffect<S> {
    /// Publish the message of the right click at a position.
    RightClick(Point<S>),
    /// Show the native menu at a position.
    RequestContextMenu(Point<S>),
    /// Keep the event from other widgets.
    CaptureEvent,
    /// Draw the next frame.
    RequestRedraw,
}

/// What comes of an event.
#[derive(Debug)]
pub struct ContextResponse<M, S> {
    /// The message to publish before the effects.
    pub published: Option<M>,
    /// What is asked for, in order.
    pub effects: Vec<ContextEffect<S>>,
    /// Whether the widget below the menu sees the event as well.
    pub forward: bool,
}

/// What comes of an event, and the state it leaves.
#[verifier::ext_equal]
pub struct ContextModel<S> {
    pub effects: Seq<ContextEffect<S>>,
    pub forward: bool,
    pub state: LocalModel<S>,
}

impl<S: Arithmetic> LocalModel<S> {
    /// The state with the menu opened at the cursor.
    pub open spec fn opened(self, cursor: Cursor<S>) -> Self {
        LocalModel {
            context_cursor: cursor.spot_or_origin(),
            bar: MenuBarModel {
                open: true,
                view_cursor: cursor,
                active_root: seq![0usize],
                ..self.bar
            },
            ..self
        }
    }

    /// The state with the menu closed.
    pub open spec fn closed(self) -> Self {
        LocalModel { bar: self.bar.closed(), ..self }
    }

    /// The state after the fingers of a touch event have been counted.
    pub open spec fn counting(self, event: Event<S>) -> Self {
        match event {
            Event::Touch(TouchEvent::FingerPressed { id, .. }) => LocalModel {
                fingers: self.fingers.insert(id),
                ..self
            },
            Event::Touch(TouchEvent::FingerLifted { id, .. }) => LocalModel {
                fingers: self.fingers.remove(id),
                ..self
            },
            _ => self,
        }
    }
}

/// Whether an event asks for a context menu: the release of the right button, or of one of two
/// fingers.
pub open spec fn asks_for_menu<S>(event: Event<S>, fingers: Set<u64>) -> bool {
    is_button_release(event, Button::Right) || (is_finger_lift(event) && fingers.len() == 2)
}

/// Whether an event closes an open menu.
pub open spec fn closes_menu<S>(event: Event<S>, close_on_escape: bool) -> bool {
    ||| close_on_escape && is_press_of(event, Named::Escape)
    ||| is_button_press(event, Button::Right)
    ||| is_button_press(event, Button::Left)
    ||| is_finger_press(event)
}

impl<C, M, F, I> ContextMenu<C, M, F, I> {
    /// The message of the entry that an event selects in a native menu.
    pub open spec fn selected_message<S>(self, event: Event<S>) -> Option<M> {
        match event {
            Event::ContextMenuItemSelected(id) => match self.menu_nodes {
                Some(nodes) => activation(id, nodes@),
                None => None,
            },
            _ => None,
        }
    }

    /// What an event does that selects nothing in a native menu.
    pub open spec fn pointer_model<S: Arithmetic>(
        self,
        s: LocalModel<S>,
        event: Event<S>,
        bounds: Rectangle<S>,
        cursor: Cursor<S>,
    ) -> ContextModel<S> {
        let over = cursor.spot_over(bounds) is Some;
        let at = cursor.spot_or_origin();
        let counted = s.counting(event);
        if s.bar.open && closes_menu(event, self.close_on_escape) {
            ContextModel {
                effects: seq![ContextEffect::CaptureEvent, ContextEffect::RequestRedraw],
                forward: true,
                state: if self.context_menu is Some && over && is_button_press(
                    event,
                    Button::Right,
                ) {
                    s.closed().opened(cursor)
                } else {
                    s.closed()
                },
            }
        } else if !over {
            ContextModel { effects: Seq::empty(), forward: true, state: s }
        } else if self.context_menu is Some && asks_for_menu(event, s.fingers) {
            if self.on_right_click is Some {
                ContextModel {
                    effects: seq![ContextEffect::RightClick(at), ContextEffect::CaptureEvent],
                    forward: false,
                    state: LocalModel { context_cursor: at, ..counted },
                }
            } else if self.native_items is Some {
                ContextModel {
                    effects: seq![
                        ContextEffect::RequestContextMenu(at),
                        ContextEffect::CaptureEvent,
                    ],
                    forward: false,
                    state: LocalModel { context_cursor: at, ..counted },
                }
            } else {
                ContextModel {
                    effects: seq![ContextEffect::CaptureEvent, ContextEffect::RequestRedraw],
                    forward: true,
                    state: counted.opened(cursor),
                }
            }
        } else if is_button_release(event, Button::Right) || is_button_release(event, Button::Left)
            || is_finger_lift(event) {
            ContextModel {
                effects: seq![ContextEffect::RequestRedraw],
                forward: true,
                state: counted.closed(),
            }
        } else {
            ContextModel { effects: Seq::empty(), forward: true, state: counted }
        }
    }

    /// What an event does.
    pub open spec fn update_model<S: Arithmetic>(
        self,
        s: LocalModel<S>,
        event: Event<S>,
        bounds: Rectangle<S>,
        cursor: Cursor<S>,
    ) -> ContextModel<S> {
        if self.selected_message(event) is Some {
            ContextModel {
                effects: seq![ContextEffect::CaptureEvent],
                forward: false,
                state: s,
            }
        } else {
            self.pointer_model(s, event, bounds, cursor)
        }
    }

    /// The side on which submenus open.
    pub open spec fn side(self, global: LayoutDirection) -> Direction {
        let direction = match self.layout_direction {
            Some(direction) => direction,
            None => global,
        };
        if direction == LayoutDirection::RightToLeft {
            Direction::Negative
        } else {
            Direction::Positive
        }
    }

    /// Sets whether the escape key closes the menu.
    pub fn close_on_escape(self, close_on_escape: bool) -> (r: Self)
        ensures
            r == (ContextMenu { close_on_escape, ..self }),
    {
        let mut this: Self = self;
        this.close_on_escape = close_on_escape;
        this
    }

    /// Sets what replaces the menu on a right click.
    pub fn on_right_click(self, callback: F) -> (r: Self)
        ensures
            r == (ContextMenu { on_right_click: Some(callback), ..self }),
    {
        let mut this: Self = self;
        this.on_right_click = Some(callback);
        this
    }

    /// Sets the direction of this menu: from right to left, submenus open to the left.
    pub fn layout_direction(self, direction: LayoutDirection) -> (r: Self)
        ensures
            r == (ContextMenu { layout_direction: Some(direction), ..self }),
    {
        let mut this: Self = self;
        this.layout_direction = Some(direction);
        this
    }

    /// Makes the state of a menu that is closed.
    pub fn state<S: Scalar>(&self) -> (r: LocalState<S>)
        ensures
            r@.context_cursor == origin::<S>(),
            r@.fingers == Set::<u64>::empty(),
            r@.bar == (MenuBarModel {
                open: false,
                pressed: false,
                view_cursor: Cursor::<S>::Unavailable,
                active_root: Seq::empty(),
                menu_states: Seq::empty(),
                horizontal_direction: Direction::Positive,
                vertical_direction: Direction::Positive,
                alt_pressed: false,
                show_mnemonics: false,
                tree: Seq::empty(),
            }),
    {
        LocalState {
            context_cursor: Point::origin(),
            fingers_pressed: HashSet::new(),
            menu_bar_state: MenuBarState::new(Vec::new()),
        }
    }

    /// Gives the items that need widget states: for each root, its flat list.
    pub fn children(&self) -> (r: Option<Vec<Vec<&MenuTree<I>>>>)
        ensures
            r is Some <==> self.context_menu is Some,
            r is Some ==> r->0@.len() == self.context_menu->0@.len() && forall|i: int|
                0 <= i < r->0@.len() ==> (#[trigger] r->0@[i])@
                    == self.context_menu->0@[i].flat().map_values(|t: MenuTree<I>| &t),
    {
        match &self.context_menu {
            None => None,
            Some(roots) => {
                let mut lists: Vec<Vec<&MenuTree<I>>> = Vec::new();
                let len: usize = roots.len();
                let mut i: usize = 0;
                while i < len
                    invariant
                        0 <= i <= len,
                        len == roots@.len(),
                        lists@.len() == i,
                        forall|k: int|
                            0 <= k < i ==> (#[trigger] lists@[k])@ == roots@[k].flat().map_values(
                                |t: MenuTree<I>| &t,
                            ),
                    decreases len - i,
                {
                    lists.push(roots[i].flatten());
                    i = i + 1;
                }
                Some(lists)
            },
        }
    }

    /// Chooses the side on which submenus open.
    pub fn draw<S: Scalar>(&self, state: &mut LocalState<S>, global: LayoutDirection)
        ensures
            final(state)@ == (LocalModel {
                bar: MenuBarModel {
                    horizontal_direction: self.side(global),
                    ..old(state)@.bar
                },
                ..old(state)@
            }),
    {
        let direction: LayoutDirection = match self.layout_direction {
            Some(direction) => direction,
            None => global,
        };
        state.menu_bar_state.horizontal_direction = if direction == LayoutDirection::RightToLeft {
            Direction::Negative
        } else {
            Direction::Positive
        };
    }
}

/// Opens the menu at the cursor.
fn open_at<S: Scalar>(state: &mut LocalState<S>, cursor: Cursor<S>)
    ensures
        final(state)@ == old(state)@.opened(cursor),
{
    state.context_cursor = cursor.position_or_origin();
    state.menu_bar_state.open = true;
    state.menu_bar_state.view_cursor = cursor;
    state.menu_bar_state.active_root.clear();
    state.menu_bar_state.active_root.push(0);
    assert(state.menu_bar_state.active_root@ =~= seq![0usize]);
}

/// Counts the fingers of a touch event.
fn count_fingers<S: Scalar>(state: &mut LocalState<S>, event: &Event<S>)
    ensures
        final(state)@ == old(state)@.counting(*event),
{
    match event {
        Event::Touch(TouchEvent::FingerPressed { id, .. }) => {
            let _ = state.fingers_pressed.insert(*id);
        },
        Event::Touch(TouchEvent::FingerLifted { id, .. }) => {
            let _ = state.fingers_pressed.remove(id);
        },
        _ => {},
    }
}

/// Tests whether an event closes an open menu.
fn is_closing<S>(event: &Event<S>, close_on_escape: bool) -> (r: bool)
    ensures
        r == closes_menu(*event, close_on_escape),
{
    match event {
        Event::Keyboard(
            KeyboardEvent::KeyPressed { key: Key::Named(Named::Escape), .. },
        ) => close_on_escape,
        Event::Mouse(MouseEvent::ButtonPressed { button }) => *button == Button::Right || *button
            == Button::Left,
        Event::Touch(TouchEvent::FingerPressed { .. }) => true,
        _ => false,
    }
}

impl<C, M: Clone, F, I> ContextMenu<C, M, F, I> {
    /// Reacts to an event.
    pub fn update<S: Scalar>(
        &self,
        state: &mut LocalState<S>,
        event: &Event<S>,
        bounds: Rectangle<S>,
        cursor: Cursor<S>,
    ) -> (r: ContextResponse<M, S>)
        ensures
            match self.selected_message(*event) {
                Some(message) => r.published is Some && cloned(message, r.published->0),
                None => r.published is None,
            },
            r.effects@ == self.update_model(old(state)@, *event, bounds, cursor).effects,
            r.forward == self.update_model(old(state)@, *event, bounds, cursor).forward,
            final(state)@ == self.update_model(old(state)@, *event, bounds, cursor).state,
    {
        let mut effects: Vec<ContextEffect<S>> = Vec::new();
        if let Event::ContextMenuItemSelected(id) = event {
            if let Some(nodes) = &self.menu_nodes {
                let found: Option<M> = find_activated_message(id, nodes.as_slice());
                if found.is_some() {
                    effects.push(ContextEffect::CaptureEvent);
                    return ContextResponse { published: found, effects, forward: false };
                }
            }
        }
        let over: bool = cursor.position_over(bounds).is_some();
        if state.menu_bar_state.open && is_closing(event, self.close_on_escape) {
            state.menu_bar_state.reset();
            effects.push(ContextEffect::CaptureEvent);
            effects.push(ContextEffect::RequestRedraw);
            if self.context_menu.is_some() && over && right_button_pressed(event) {
                open_at(state, cursor);
            }
            return ContextResponse { published: None, effects, forward: true };
        }
        if !over {
            return ContextResponse { published: None, effects, forward: true };
        }
        let fingers_pressed: usize = state.fingers_pressed.len();
        count_fingers(state, event);
        if self.context_menu.is_some() && (right_button_released(event) || (touch_lifted(event)
            && fingers_pressed == 2)) {
            if self.on_right_click.is_some() {
                state.context_cursor = cursor.position_or_origin();
                effects.push(ContextEffect::RightClick(state.context_cursor));
                effects.push(ContextEffect::CaptureEvent);
                return ContextResponse { published: None, effects, forward: false };
            }
            if self.native_items.is_some() {
                state.context_cursor = cursor.position_or_origin();
                effects.push(ContextEffect::RequestContextMenu(state.context_cursor));
                effects.push(ContextEffect::CaptureEvent);
                return ContextResponse { published: None, effects, forward: false };
            }
            open_at(state, cursor);
            effects.push(ContextEffect::CaptureEvent);
            effects.push(ContextEffect::RequestRedraw);
        } else if right_button_released(event) || touch_lifted(event) || left_button_released(
            event,
        ) {
            state.menu_bar_state.reset();
            effects.push(ContextEffect::RequestRedraw);
        }
        ContextResponse { published: None, effects, forward: true }
    }
}

/// The point at which a menu was asked for, as seen from a layer that is shifted.
pub open spec fn anchor_of<S: Arithmetic>(at: Point<S>, translation: Vector<S>) -> Rectangle<S> {
    Rectangle {
        x: at.x.difference(translation.x),
        y: at.y.difference(translation.y),
        width: zero(),
        height: zero(),
    }
}

impl<C, M, F, I> ContextMenu<C, M, F, I> {
    /// Gives the overlay of an open menu, in a layer that is shifted. The menu opens from the
    /// point at which it was asked for, and closes with any click.
    pub fn overlay<'b, S: Scalar>(
        &'b self,
        state: &LocalState<S>,
        translation: Vector<S>,
        accessible: bool,
    ) -> (r: Option<Menu<'b, S, I>>)
        ensures
            r is Some <==> self.context_menu is Some && state@.bar.open,
            r is Some ==> {
                let menu = r->0;
                let anchor = anchor_of(state@.context_cursor, translation);
                &&& *menu.menu_roots == self.context_menu->0
                &&& menu.bounds_expand == 16
                &&& menu.menu_overlays_parent
                &&& menu.close_condition == (CloseCondition {
                    leave: false,
                    click_outside: true,
                    click_inside: true,
                })
                &&& menu.item_width == (ItemWidth::Dynamic { min: 180, max: 600 })
                &&& menu.item_height == ItemHeight::Dynamic(40)
                &&& menu.bar_bounds == anchor
                &&& menu.main_offset == 0
                &&& menu.cross_offset == 0
                &&& menu.root_bounds_list@ == seq![anchor]
                &&& menu.path_highlight == Some(PathHighlight::MenuActive)
                &&& menu.position == (Point { x: translation.x, y: translation.y })
                &&& menu.is_overlay
                &&& menu.accessible == accessible
            },
    {
        match &self.context_menu {
            None => None,
            Some(roots) => {
                if !state.menu_bar_state.open {
                    return None;
                }
                let bounds: Rectangle<S> = Rectangle {
                    x: state.context_cursor.x.minus(translation.x),
                    y: state.context_cursor.y.minus(translation.y),
                    width: S::ratio(0, 1),
                    height: S::ratio(0, 1),
                };
                let mut root_bounds_list: Vec<Rectangle<S>> = Vec::new();
                root_bounds_list.push(bounds);
                let menu: Menu<'b, S, I> = Menu {
                    menu_roots: roots,
                    bounds_expand: 16,
                    menu_overlays_parent: true,
                    close_condition: CloseCondition {
                        leave: false,
                        click_outside: true,
                        click_inside: true,
                    },
                    item_width: ItemWidth::Dynamic { min: 180, max: 600 },
                    item_height: ItemHeight::Dynamic(40),
                    bar_bounds: bounds,
                    main_offset: 0,
                    cross_offset: 0,
                    root_bounds_list,
                    path_highlight: Some(PathHighlight::MenuActive),
                    position: Point { x: translation.x, y: translation.y },
                    is_overlay: true,
                    accessible,
                };
                assert(menu.root_bounds_list@ =~= seq![anchor_of(
                    state@.context_cursor,
                    translation,
                )]);
                Some(menu)
            },
        }
    }

    /// A menu that is replaced on a right click, by a message or by a native menu, never opens.
    pub proof fn law_replaced_menu_stays_closed<S: Arithmetic>(
        self,
        s: LocalModel<S>,
        event: Event<S>,
        bounds: Rectangle<S>,
        cursor: Cursor<S>,
    )
        requires
            !s.bar.open,
            self.on_right_click is Some || self.native_items is Some,
        ensures
            !self.update_model(s, event, bounds, cursor).state.bar.open,
    {
    }

    /// Where a message replaces the menu, a right click over the widget publishes that message for
    /// the position of the cursor, and the widget below does not see it.
    pub proof fn law_right_click_is_reported<S: Arithmetic>(
        self,
        s: LocalModel<S>,
        event: Event<S>,
        bounds: Rectangle<S>,
        cursor: Cursor<S>,
    )
        requires
            is_button_release(event, Button::Right),
            self.context_menu is Some,
            self.on_right_click is Some,
            cursor.spot_over(bounds) is Some,
        ensures
            self.update_model(s, event, bounds, cursor).effects == seq![
                ContextEffect::RightClick(cursor.spot_over(bounds)->0),
                ContextEffect::CaptureEvent,
            ],
            !self.update_model(s, event, bounds, cursor).forward,
    {
    }

    /// The direction of a menu decides on which side its submenus open; without one, that of the
    /// application does.
    pub proof fn law_direction_decides_side(self, direction: LayoutDirection, global: LayoutDirection)
        requires
            self.layout_direction == Some(direction),
        ensures
            (self.side(global) == Direction::Negative) == (direction
                == LayoutDirection::RightToLeft),
            ((ContextMenu { layout_direction: None, ..self }).side(global) == Direction::Negative)
                == (global == LayoutDirection::RightToLeft),
    {
    }

    /// Only a right click or a touch with two fingers opens a menu, only over the widget, and
    /// only where there is a menu; it opens at the cursor.
    pub proof fn law_opens_at_cursor<S: Arithmetic>(
        self,
        s: LocalModel<S>,
        event: Event<S>,
        bounds: Rectangle<S>,
        cursor: Cursor<S>,
    )
        requires
            !s.bar.open,
            self.update_model(s, event, bounds, cursor).state.bar.open,
        ensures
            self.context_menu is Some,
            asks_for_menu(event, s.fingers),
            cursor.spot_over(bounds) is Some,
            Some(self.update_model(s, event, bounds, cursor).state.context_cursor)
                == cursor.spot_over(bounds),
    {
    }

    /// Escape closes an open menu, unless that is switched off; then the menu stays as it is.
    pub proof fn law_escape<S: Arithmetic>(
        self,
        s: LocalModel<S>,
        event: Event<S>,
        bounds: Rectangle<S>,
        cursor: Cursor<S>,
    )
        requires
            s.bar.open,
            is_press_of(event, Named::Escape),
        ensures
            self.update_model(s, event, bounds, cursor).state == (if self.close_on_escape {
                s.closed()
            } else {
                s
            }),
    {
    }

    /// Pressing the right button over the widget moves an open menu to the cursor; pressing the
    /// left button closes it.
    pub proof fn law_press_on_open_menu<S: Arithmetic>(
        self,
        s: LocalModel<S>,
        event: Event<S>,
        bounds: Rectangle<S>,
        cursor: Cursor<S>,
    )
        requires
            s.bar.open,
            self.context_menu is Some,
            cursor.spot_over(bounds) is Some,
            is_button_press(event, Button::Right) || is_button_press(event, Button::Left),
        ensures
            ({
                let after = self.update_model(s, event, bounds, cursor).state;
                &&& after.bar.open == is_button_press(event, Button::Right)
                &&& after.bar.menu_states.len() == 0
                &&& after.bar.open ==> Some(after.context_cursor) == cursor.spot_over(bounds)
            }),
    {
    }

    /// An entry that a native menu reports is the only thing that produces a message, and it
    /// leaves the menu alone.
    pub proof fn law_selection_is_published<S: Arithmetic>(
        self,
        s: LocalModel<S>,
        id: MenuId,
        bounds: Rectangle<S>,
        cursor: Cursor<S>,
    )
        ensures
            ({
                let event = Event::<S>::ContextMenuItemSelected(id);
                let after = self.update_model(s, event, bounds, cursor);
                &&& after.state == s
                &&& self.selected_message(event) is Some ==> !after.forward && after.effects
                    == seq![ContextEffect::<S>::CaptureEvent]
                &&& self.selected_message(event) is None ==> after.forward && after.effects
                    == Seq::<ContextEffect<S>>::empty()
            }),
    {
    }
}

} // verus!
