//! The overlay of a menu bar or a context menu, and its keyboard navigation.
//!
//! Laying out a panel is done by the front end: where the overlay needs a new panel it hands
//! out a request, and `finish_open` adds the panel once its bounds are known. An item that is to
//! be activated is handed out likewise, and `finish_activation` clicks it once it is laid out.
use vstd::prelude::*;
use vstd::string::StrSliceExecFns;

use crate::event::{Button, Event, Key, KeyboardEvent, MouseEvent, Named, Status};
use crate::geometry::{Cursor, Point, Rectangle};
use crate::menu::selection::{
    letter_mask, openable_mask, pick_item, pick_letter, pick_root, ring_pick, selectable_mask,
    start_above, start_below,
};
use crate::menu::state::{
    Aod, CloseCondition, Direction, ItemHeight, ItemWidth, MenuBarModel, MenuBarState, MenuBounds,
    MenuState, PathHighlight,
};
use crate::menu::tree::{descend, items_at, MenuTree};
use crate::scalar::{whole, zero, Arithmetic, Scalar};

verus! {

/// The overlay of a menu.
#[derive(Debug)]
pub struct Menu<'b, S, I> {
    pub menu_roots: &'b Vec<MenuTree<I>>,
    pub bounds_expand: u16,
    pub menu_overlays_parent: bool,
    pub close_condition: CloseCondition,
    pub item_width: ItemWidth,
    pub item_height: ItemHeight,
    pub bar_bounds: Rectangle<S>,
    pub main_offset: i32,
    pub cross_offset: i32,
    pub root_bounds_list: Vec<Rectangle<S>>,
    pub path_highlight: Option<PathHighlight>,
    pub position: Point<S>,
    pub is_overlay: bool,
    /// Whether the focus of assistive technologies follows the selection.
    pub accessible: bool,
}

/// What the overlay asks of its surroundings.
#[derive(Clone, Copy, Debug, PartialEq, Eq, Structural)]
pub enum MenuEffect {
    /// Draw the next frame.
    RequestRedraw,
    /// Compute the layout again.
    InvalidateLayout,
    /// Show or hide the underlines of mnemonics.
    ShowUnderlines(bool),
    /// Move the focus of assistive technologies to an item.
    FocusItem { root: usize, panel: usize, item: usize },
}

/// A panel that is about to open, with where it belongs.
#[derive(Clone, Copy, Debug)]
pub enum Pending<S> {
    /// The panel of a root.
    OpenRoot { index: usize, aod: Aod<S>, parent_bounds: Rectangle<S> },
    /// The panel of the submenu of an item of the last panel.
    OpenSubmenu { root: usize, hover: usize, aod: Aod<S>, parent_bounds: Rectangle<S> },
    /// The activation of an item of the last panel by a click.
    Activate { root: usize, hover: usize, tree_index: usize },
}

/// What comes of a key.
#[derive(Debug)]
pub struct KeyResponse<S> {
    /// Whether the key was consumed.
    pub status: Status,
    /// What is asked for, in order.
    pub effects: Vec<MenuEffect>,
    /// What the front end has to do before the response is complete.
    pub pending: Option<Pending<S>>,
}

/// What is done with an item that is clicked.
#[derive(Debug)]
pub enum ClickStep<S> {
    /// The item is updated with an event.
    Update { event: Event<S>, cursor: Cursor<S> },
    /// Whether the event was captured is forgotten.
    Uncapture,
}

/// What comes of the activation of an item.
#[derive(Debug)]
pub struct Activated<S> {
    /// What is done with the item, in order.
    pub steps: Vec<ClickStep<S>>,
    /// What is asked for afterwards.
    pub effects: Vec<MenuEffect>,
}

/// What a click on an item does with it: it is pressed and released in the middle of its area.
pub open spec fn click_steps<S: Arithmetic>(area: Rectangle<S>) -> Seq<ClickStep<S>> {
    let cursor = Cursor::Available(Point { x: area.middle_x(), y: area.middle_y() });
    seq![
        ClickStep::Update {
            event: Event::Mouse(MouseEvent::ButtonPressed { button: Button::Left }),
            cursor,
        },
        ClickStep::Uncapture,
        ClickStep::Update {
            event: Event::Mouse(MouseEvent::ButtonReleased { button: Button::Left }),
            cursor,
        },
    ]
}

/// What comes of a key, and the menu it leaves.
#[verifier::ext_equal]
pub struct KeyModel<S> {
    pub status: Status,
    pub effects: Seq<MenuEffect>,
    pub pending: Option<Pending<S>>,
    pub state: MenuBarModel<S>,
}

/// The lower case of an ASCII letter; any other character stays as it is.
pub open spec fn ascii_lower(c: char) -> char {
    if 'A' <= c <= 'Z' {
        ((c as u8 + 32) as u8) as char
    } else {
        c
    }
}

/// Gives the lower case of an ASCII letter.
pub fn to_ascii_lower(c: char) -> (r: char)
    ensures
        r == ascii_lower(c),
{
    if 'A' <= c && c <= 'Z' {
        ((c as u8) + 32) as char
    } else {
        c
    }
}

impl<'b, S: Arithmetic, I> Menu<'b, S, I> {
    /// Whether the open root exists.
    pub open spec fn root_exists(self, m: MenuBarModel<S>) -> bool {
        m.active_root.len() > 0 && m.active_root[0] < self.menu_roots@.len()
    }

    /// The items of the last panel on the active path.
    pub open spec fn active_items(self, m: MenuBarModel<S>) -> Seq<MenuTree<I>> {
        items_at(
            self.menu_roots@[m.active_root[0] as int].children@,
            m.active_root.subrange(1, m.active_root.len() as int),
        )
    }

    /// The number of items that the last panel has laid out.
    pub open spec fn laid_out(m: MenuBarModel<S>) -> int {
        m.menu_states.last().menu_bounds.child_positions@.len() as int
    }

    /// The item that a key for moving within the last panel selects.
    pub open spec fn moved_to(self, m: MenuBarModel<S>, named: Named) -> Option<usize> {
        if m.shows_panel() && self.root_exists(m) {
            let count = Self::laid_out(m);
            let mask = selectable_mask(self.active_items(m));
            let index = m.menu_states.last().index;
            match named {
                Named::ArrowUp => ring_pick(mask, count, start_above(index, count), false),
                Named::ArrowDown => ring_pick(mask, count, start_below(index, count), true),
                Named::Home => ring_pick(mask, count, 0, true),
                Named::End => ring_pick(mask, count, count - 1, false),
                _ => None,
            }
        } else {
            None
        }
    }

    /// The request to move the focus to an item, where focus is followed.
    pub open spec fn focus_effects(self, root: usize, panel: int, item: Option<usize>) -> Seq<
        MenuEffect,
    > {
        match item {
            Some(i) => if self.accessible {
                seq![MenuEffect::FocusItem { root, panel: panel as usize, item: i }]
            } else {
                Seq::empty()
            },
            None => Seq::empty(),
        }
    }

    /// What a key for moving within the last panel does.
    pub open spec fn move_model(self, m: MenuBarModel<S>, named: Named) -> KeyModel<S> {
        let target = self.moved_to(m, named);
        KeyModel {
            status: Status::Captured,
            effects: self.focus_effects(m.active_root[0], m.menu_states.len() - 1, target).push(
                MenuEffect::RequestRedraw,
            ),
            pending: None,
            state: if target is Some {
                m.selecting(target)
            } else {
                m
            },
        }
    }

    /// What closing the last submenu does: its panel goes away, and the item that opened it is
    /// selected again. Outside of an overlay a submenu may have no place on the active path, which
    /// then holds the root alone: the path and the selection below are as they were when the
    /// submenu opened.
    pub open spec fn leave_submenu_model(self, m: MenuBarModel<S>) -> KeyModel<S> {
        let popped = MenuBarModel { menu_states: m.menu_states.drop_last(), ..m };
        let state = if m.active_root.len() > 1 || (self.is_overlay && m.active_root.len() > 0) {
            (MenuBarModel { active_root: m.active_root.drop_last(), ..popped }).selecting(
                Some(m.active_root.last()),
            )
        } else {
            popped
        };
        let focus = if state.active_root.len() > 0 {
            self.focus_effects(
                state.active_root[0],
                state.menu_states.len() - 1,
                state.menu_states.last().index,
            )
        } else {
            Seq::empty()
        };
        KeyModel {
            status: Status::Captured,
            effects: focus + seq![MenuEffect::InvalidateLayout, MenuEffect::RequestRedraw],
            pending: None,
            state,
        }
    }

    /// The side on which the panels of a root open. The menus of a bar keep the side that the
    /// bar has chosen; other menus open toward the middle of the view.
    pub open spec fn root_direction(
        self,
        m: MenuBarModel<S>,
        index: int,
        viewport_width: S,
        rtl: bool,
    ) -> Direction {
        let view_center = viewport_width.product(S::fraction(1, 2));
        let root_center = self.root_bounds_list@[index].middle_x();
        if !self.is_overlay {
            m.horizontal_direction
        } else if rtl {
            if root_center.below(view_center) {
                Direction::Positive
            } else {
                Direction::Negative
            }
        } else if view_center.below(root_center) {
            Direction::Negative
        } else {
            Direction::Positive
        }
    }

    /// How the panel of a root is placed.
    pub open spec fn root_placement(self, m: MenuBarModel<S>) -> Aod<S> {
        Aod {
            horizontal: true,
            vertical: true,
            horizontal_overlap: true,
            vertical_overlap: false,
            horizontal_direction: m.horizontal_direction,
            vertical_direction: m.vertical_direction,
            horizontal_offset: zero::<S>(),
            vertical_offset: whole::<S>(self.main_offset as int),
        }
    }

    /// How the panel of a submenu is placed.
    pub open spec fn submenu_placement(self, m: MenuBarModel<S>) -> Aod<S> {
        Aod {
            horizontal: true,
            vertical: true,
            horizontal_overlap: false,
            vertical_overlap: true,
            horizontal_direction: m.horizontal_direction,
            vertical_direction: m.vertical_direction,
            horizontal_offset: whole::<S>(self.cross_offset as int),
            vertical_offset: zero::<S>(),
        }
    }

    /// Whether a root can be opened.
    pub open spec fn can_open(self, index: int) -> bool {
        &&& 0 <= index < self.menu_roots@.len()
        &&& index < self.root_bounds_list@.len()
        &&& self.menu_roots@[index].children@.len() > 0
    }

    /// The menu at the moment its panel is requested: everything else is closed.
    pub open spec fn root_opening(
        self,
        m: MenuBarModel<S>,
        index: int,
        viewport_width: S,
        rtl: bool,
    ) -> MenuBarModel<S> {
        if self.can_open(index) {
            MenuBarModel {
                menu_states: Seq::empty(),
                active_root: Seq::empty(),
                horizontal_direction: self.root_direction(m, index, viewport_width, rtl),
                ..m
            }
        } else {
            m
        }
    }

    /// The panel that is requested for a root.
    pub open spec fn root_request(
        self,
        m: MenuBarModel<S>,
        index: int,
        viewport_width: S,
        rtl: bool,
    ) -> Option<Pending<S>> {
        if self.can_open(index) && index < m.tree.len() {
            Some(
                Pending::OpenRoot {
                    index: index as usize,
                    aod: self.root_placement(self.root_opening(m, index, viewport_width, rtl)),
                    parent_bounds: self.root_bounds_list@[index],
                },
            )
        } else {
            None
        }
    }

    /// What opening a root does.
    pub open spec fn open_root_model(
        self,
        m: MenuBarModel<S>,
        index: int,
        viewport_width: S,
        rtl: bool,
    ) -> KeyModel<S> {
        let pending = self.root_request(m, index, viewport_width, rtl);
        KeyModel {
            status: Status::Captured,
            effects: if pending is None {
                seq![MenuEffect::InvalidateLayout, MenuEffect::RequestRedraw]
            } else {
                Seq::empty()
            },
            pending,
            state: self.root_opening(m, index, viewport_width, rtl),
        }
    }

    /// What switching to the next or the previous root does.
    pub open spec fn switch_root_model(
        self,
        m: MenuBarModel<S>,
        next: bool,
        viewport_width: S,
        rtl: bool,
    ) -> KeyModel<S> {
        if m.open && m.active_root.len() > 0 {
            let current = m.active_root[0] as int;
            let count = self.menu_roots@.len() as int;
            let start = if next {
                if current >= count - 1 {
                    0
                } else {
                    current + 1
                }
            } else if current == 0 {
                count - 1
            } else {
                current - 1
            };
            let found = ring_pick(openable_mask(self.menu_roots@), count, start, next);
            if found is Some && found->0 != current {
                self.open_root_model(m, found->0 as int, viewport_width, rtl)
            } else {
                KeyModel {
                    status: Status::Captured,
                    effects: Seq::empty(),
                    pending: None,
                    state: m,
                }
            }
        } else {
            KeyModel {
                status: Status::Ignored,
                effects: Seq::empty(),
                pending: None,
                state: m,
            }
        }
    }

    /// Whether switching to the next or the previous root stays within the roots.
    pub open spec fn can_switch(self, m: MenuBarModel<S>, next: bool) -> bool {
        let count = self.menu_roots@.len();
        m.open && m.active_root.len() > 0 ==> if next || m.active_root[0] == 0 {
            count > 0
        } else {
            count == 0 || m.active_root[0] <= count
        }
    }

    /// Whether the press of a named key stays within the roots.
    pub open spec fn can_take(self, m: MenuBarModel<S>, named: Named) -> bool {
        match named {
            Named::ArrowLeft => m.open && m.menu_states.len() > 1 || self.can_switch(m, false),
            Named::ArrowRight => self.submenu_request(m) is Some || self.can_switch(m, true),
            _ => true,
        }
    }

    /// The area of an item of a panel.
    pub open spec fn item_area(panel: MenuState<S>, item: int) -> Rectangle<S> {
        let area = panel.menu_bounds.children_bounds;
        let size = panel.menu_bounds.child_sizes@[item];
        Rectangle {
            x: zero::<S>().sum(area.x.difference(zero::<S>())),
            y: panel.menu_bounds.child_positions@[item].sum(panel.scroll_offset).sum(
                area.y.difference(zero::<S>()),
            ),
            width: size.width,
            height: size.height,
        }
    }

    /// The panel that is requested for the submenu of the selected item.
    pub open spec fn submenu_request(self, m: MenuBarModel<S>) -> Option<Pending<S>> {
        if m.shows_panel() && self.root_exists(m) && m.active_root[0] < m.tree.len() {
            let panel = m.menu_states.last();
            match panel.index {
                Some(hover) => {
                    let items = self.active_items(m);
                    if hover < items.len() && items[hover as int].children@.len() > 0 && hover
                        < panel.menu_bounds.child_positions@.len() && hover
                        < panel.menu_bounds.child_sizes@.len() {
                        Some(
                            Pending::OpenSubmenu {
                                root: m.active_root[0],
                                hover,
                                aod: self.submenu_placement(m),
                                parent_bounds: Self::item_area(panel, hover as int),
                            },
                        )
                    } else {
                        None
                    }
                },
                None => None,
            }
        } else {
            None
        }
    }

    /// The item that is about to be activated: the selected one, unless it is a separator or
    /// opens a submenu.
    pub open spec fn activation(self, m: MenuBarModel<S>) -> Option<Pending<S>> {
        if m.shows_panel() && self.root_exists(m) {
            match m.menu_states.last().index {
                Some(hover) => {
                    let items = self.active_items(m);
                    let root = m.active_root[0];
                    if hover < items.len() && !items[hover as int].is_separator
                        && items[hover as int].children@.len() == 0 && root < m.tree.len()
                        && items[hover as int].index < m.tree[root as int] {
                        Some(
                            Pending::Activate {
                                root,
                                hover,
                                tree_index: items[hover as int].index,
                            },
                        )
                    } else {
                        None
                    }
                },
                None => None,
            }
        } else {
            None
        }
    }

    /// What activating the selected item does.
    pub open spec fn activate_model(self, m: MenuBarModel<S>) -> KeyModel<S> {
        let pending = self.activation(m);
        KeyModel {
            status: Status::Captured,
            effects: if pending is None {
                seq![MenuEffect::RequestRedraw]
            } else {
                Seq::empty()
            },
            pending,
            state: m,
        }
    }

    /// What a letter does: it selects the first item that it is the mnemonic of, and activates it.
    pub open spec fn letter_model(self, m: MenuBarModel<S>, letter: char) -> KeyModel<S> {
        let items = self.active_items(m);
        let hit = ring_pick(letter_mask(items, letter), items.len() as int, 0, true);
        if m.open && self.root_exists(m) && hit is Some {
            self.activate_model(m.selecting(hit))
        } else {
            self.ignored(m)
        }
    }

    /// An event that is left alone.
    pub open spec fn ignored(self, m: MenuBarModel<S>) -> KeyModel<S> {
        KeyModel { status: Status::Ignored, effects: Seq::empty(), pending: None, state: m }
    }

    /// What showing or hiding the mnemonics does.
    pub open spec fn mnemonics_model(self, m: MenuBarModel<S>, show: bool) -> KeyModel<S> {
        KeyModel {
            status: Status::Captured,
            effects: seq![
                MenuEffect::ShowUnderlines(show),
                MenuEffect::InvalidateLayout,
                MenuEffect::RequestRedraw,
            ],
            pending: None,
            state: MenuBarModel { alt_pressed: show, show_mnemonics: show, ..m },
        }
    }

    /// What the press of a named key does.
    pub open spec fn named_key_model(
        self,
        m: MenuBarModel<S>,
        named: Named,
        mnemonics: bool,
        viewport_width: S,
        rtl: bool,
    ) -> KeyModel<S> {
        match named {
            Named::Alt => if mnemonics {
                self.mnemonics_model(m, true)
            } else {
                self.ignored(m)
            },
            Named::Escape => KeyModel {
                status: Status::Captured,
                effects: seq![MenuEffect::RequestRedraw],
                pending: None,
                state: if m.open {
                    m.closed()
                } else {
                    m
                },
            },
            Named::ArrowUp | Named::ArrowDown | Named::Home | Named::End => self.move_model(
                m,
                named,
            ),
            Named::ArrowLeft => if m.open && m.menu_states.len() > 1 {
                self.leave_submenu_model(m)
            } else {
                self.switch_root_model(m, false, viewport_width, rtl)
            },
            Named::ArrowRight => {
                let pending = self.submenu_request(m);
                if pending is Some {
                    KeyModel {
                        status: Status::Captured,
                        effects: Seq::empty(),
                        pending,
                        state: m,
                    }
                } else {
                    self.switch_root_model(m, true, viewport_width, rtl)
                }
            },
            Named::Enter => self.activate_model(m),
            _ => self.ignored(m),
        }
    }

    /// What a keyboard event does.
    pub open spec fn key_model(
        self,
        m: MenuBarModel<S>,
        event: KeyboardEvent,
        mnemonics: bool,
        viewport_width: S,
        rtl: bool,
    ) -> KeyModel<S> {
        match event {
            KeyboardEvent::KeyPressed { key: Key::Named(named), .. } => self.named_key_model(
                m,
                named,
                mnemonics,
                viewport_width,
                rtl,
            ),
            KeyboardEvent::KeyPressed { key: Key::Character(text), .. } => if mnemonics
                && text@.len() > 0 {
                self.letter_model(m, ascii_lower(text@[0]))
            } else {
                self.ignored(m)
            },
            KeyboardEvent::KeyReleased { key: Key::Named(Named::Alt) } => if mnemonics {
                self.mnemonics_model(m, false)
            } else {
                self.ignored(m)
            },
            _ => self.ignored(m),
        }
    }

    /// Whether a request fits the menu.
    pub open spec fn fits(self, m: MenuBarModel<S>, pending: Pending<S>) -> bool {
        match pending {
            Pending::OpenRoot { index, .. } => index < self.menu_roots@.len(),
            Pending::OpenSubmenu { root, hover, .. } => {
                &&& self.root_exists(m)
                &&& root == m.active_root[0]
                &&& hover < self.active_items(m).len()
            },
            Pending::Activate { .. } => true,
        }
    }

    /// The menu once a request is carried out, with the bounds of the panel that it asked for.
    pub open spec fn finished(
        self,
        m: MenuBarModel<S>,
        pending: Pending<S>,
        bounds: MenuBounds<S>,
    ) -> MenuBarModel<S> {
        let panel = MenuState {
            index: self.first_selected(m, pending),
            scroll_offset: zero::<S>(),
            menu_bounds: bounds,
        };
        match pending {
            Pending::OpenRoot { index, .. } => MenuBarModel {
                active_root: m.active_root.push(index),
                menu_states: m.menu_states.push(panel),
                ..m
            },
            Pending::OpenSubmenu { hover, .. } => if self.is_overlay {
                MenuBarModel {
                    active_root: m.active_root.push(hover),
                    menu_states: m.menu_states.push(panel),
                    ..m
                }
            } else {
                MenuBarModel {
                    menu_states: (if m.menu_states.len() <= 1 {
                        m.menu_states
                    } else {
                        m.menu_states.take(1)
                    }).push(panel),
                    ..m
                }
            },
            Pending::Activate { .. } => m.closed(),
        }
    }

    /// The item that is selected when a panel opens: the first one that can be.
    pub open spec fn first_selected(self, m: MenuBarModel<S>, pending: Pending<S>) -> Option<
        usize,
    > {
        let items = match pending {
            Pending::OpenRoot { index, .. } => self.menu_roots@[index as int].children@,
            Pending::OpenSubmenu { hover, .. } => self.active_items(m)[hover as int].children@,
            Pending::Activate { .. } => Seq::empty(),
        };
        ring_pick(selectable_mask(items), items.len() as int, 0, true)
    }

    /// What is asked for once a request is carried out.
    pub open spec fn finish_effects(self, m: MenuBarModel<S>, pending: Pending<S>) -> Seq<
        MenuEffect,
    > {
        let refresh = seq![MenuEffect::InvalidateLayout, MenuEffect::RequestRedraw];
        let selected = self.first_selected(m, pending);
        match pending {
            Pending::OpenRoot { index, .. } => self.focus_effects(index, 0, selected) + refresh,
            Pending::OpenSubmenu { root, .. } => self.focus_effects(
                root,
                if self.is_overlay || m.menu_states.len() <= 1 {
                    m.menu_states.len() as int
                } else {
                    1
                },
                selected,
            ) + refresh,
            Pending::Activate { .. } => seq![MenuEffect::RequestRedraw],
        }
    }
}

impl<'b, S: Scalar, I> Menu<'b, S, I> {
    /// Finds the items of the last panel on the active path.
    pub fn find_active_items(&self, state: &MenuBarState<S>) -> (r: Option<&'b Vec<MenuTree<I>>>)
        ensures
            match r {
                Some(items) => self.root_exists(state@) && items@ == self.active_items(state@),
                None => !self.root_exists(state@),
            },
    {
        if state.active_root.len() == 0 {
            return None;
        }
        let first: usize = state.active_root[0];
        if first >= self.menu_roots.len() {
            return None;
        }
        let root: &'b MenuTree<I> = &self.menu_roots[first];
        Some(descend(&root.children, &state.active_root, usize::MAX))
    }

    fn focus(&self, effects: &mut Vec<MenuEffect>, root: usize, panel: usize, item: Option<usize>)
        ensures
            final(effects)@ == old(effects)@ + self.focus_effects(root, panel as int, item),
    {
        if let Some(i) = item {
            if self.accessible {
                effects.push(MenuEffect::FocusItem { root, panel, item: i });
            }
        }
    }

    fn move_selection(&self, state: &mut MenuBarState<S>, named: Named) -> (r: KeyResponse<S>)
        requires
            named == Named::ArrowUp || named == Named::ArrowDown || named == Named::Home || named
                == Named::End,
        ensures
            response_matches(r, final(state)@, self.move_model(old(state)@, named)),
    {
        let mut effects: Vec<MenuEffect> = Vec::new();
        if state.open && state.menu_states.len() > 0 {
            if let Some(items) = self.find_active_items(state) {
                let last: usize = state.menu_states.len() - 1;
                let count: usize = state.menu_states[last].menu_bounds.child_positions.len();
                let index: Option<usize> = state.menu_states[last].index;
                let target: Option<usize> = match named {
                    Named::ArrowUp => {
                        let start: usize = match index {
                            Some(i) if i > 0 => i - 1,
                            _ => if count > 0 {
                                count - 1
                            } else {
                                0
                            },
                        };
                        pick_item(items, count, start, false)
                    },
                    Named::ArrowDown => {
                        let start: usize = match index {
                            Some(i) if count > 0 && i < count - 1 => i + 1,
                            _ => 0,
                        };
                        pick_item(items, count, start, true)
                    },
                    Named::Home => pick_item(items, count, 0, true),
                    _ => pick_item(
                        items,
                        count,
                        if count > 0 {
                            count - 1
                        } else {
                            0
                        },
                        false,
                    ),
                };
                assert(target == self.moved_to(state@, named));
                if target.is_some() {
                    state.select(target);
                }
                let root: usize = state.active_root[0];
                self.focus(&mut effects, root, last, target);
            }
        }
        effects.push(MenuEffect::RequestRedraw);
        KeyResponse { status: Status::Captured, effects, pending: None }
    }

    fn leave_submenu(&self, state: &mut MenuBarState<S>) -> (r: KeyResponse<S>)
        requires
            old(state).menu_states@.len() > 1,
        ensures
            response_matches(r, final(state)@, self.leave_submenu_model(old(state)@)),
    {
        let mut effects: Vec<MenuEffect> = Vec::new();
        let _ = state.menu_states.pop();
        if self.is_overlay || state.active_root.len() > 1 {
            let opening: Option<usize> = state.active_root.pop();
            if opening.is_some() {
                state.select(opening);
            }
        }
        if state.active_root.len() > 0 {
            let root: usize = state.active_root[0];
            let last: usize = state.menu_states.len() - 1;
            let item: Option<usize> = state.menu_states[last].index;
            self.focus(&mut effects, root, last, item);
        }
        effects.push(MenuEffect::InvalidateLayout);
        effects.push(MenuEffect::RequestRedraw);
        KeyResponse { status: Status::Captured, effects, pending: None }
    }

    /// Closes what is open and asks for the panel of a root.
    pub fn open_root_menu_by_index(
        &self,
        state: &mut MenuBarState<S>,
        index: usize,
        viewport_width: S,
        rtl: bool,
    ) -> (r: KeyResponse<S>)
        ensures
            response_matches(
                r,
                final(state)@,
                self.open_root_model(old(state)@, index as int, viewport_width, rtl),
            ),
            r.pending matches Some(p) ==> self.fits(final(state)@, p),
    {
        let mut pending: Option<Pending<S>> = None;
        if index < self.menu_roots.len() && index < self.root_bounds_list.len()
            && self.menu_roots[index].children.len() > 0 {
            let root_bounds: Rectangle<S> = self.root_bounds_list[index];
            state.menu_states.clear();
            state.active_root.clear();
            if self.is_overlay {
                let view_center: S = viewport_width.times(S::ratio(1, 2));
                let root_center: S = root_bounds.center_x();
                state.horizontal_direction =
                if rtl {
                    if root_center.lt(view_center) {
                        Direction::Positive
                    } else {
                        Direction::Negative
                    }
                } else if view_center.lt(root_center) {
                    Direction::Negative
                } else {
                    Direction::Positive
                };
            }
            if index < state.tree.len() {
                let aod = Aod {
                    horizontal: true,
                    vertical: true,
                    horizontal_overlap: true,
                    vertical_overlap: false,
                    horizontal_direction: state.horizontal_direction,
                    vertical_direction: state.vertical_direction,
                    horizontal_offset: S::ratio(0, 1),
                    vertical_offset: S::ratio(self.main_offset, 1),
                };
                pending = Some(Pending::OpenRoot { index, aod, parent_bounds: root_bounds });
            }
        }
        let mut effects: Vec<MenuEffect> = Vec::new();
        if pending.is_none() {
            effects.push(MenuEffect::InvalidateLayout);
            effects.push(MenuEffect::RequestRedraw);
        }
        KeyResponse { status: Status::Captured, effects, pending }
    }

    fn switch_root(
        &self,
        state: &mut MenuBarState<S>,
        next: bool,
        viewport_width: S,
        rtl: bool,
    ) -> (r: KeyResponse<S>)
        requires
            self.can_switch(old(state)@, next),
        ensures
            response_matches(
                r,
                final(state)@,
                self.switch_root_model(old(state)@, next, viewport_width, rtl),
            ),
            r.pending matches Some(p) ==> self.fits(final(state)@, p),
    {
        if !state.open || state.active_root.len() == 0 {
            return KeyResponse { status: Status::Ignored, effects: Vec::new(), pending: None };
        }
        let current: usize = state.active_root[0];
        let count: usize = self.menu_roots.len();
        let start: usize = if next {
            if current >= count - 1 {
                0
            } else {
                current + 1
            }
        } else if current == 0 {
            count - 1
        } else {
            current - 1
        };
        if let Some(index) = pick_root(self.menu_roots, start, next) {
            if index != current {
                return self.open_root_menu_by_index(state, index, viewport_width, rtl);
            }
        }
        KeyResponse { status: Status::Captured, effects: Vec::new(), pending: None }
    }

    fn request_submenu(&self, state: &MenuBarState<S>) -> (r: Option<Pending<S>>)
        ensures
            r == self.submenu_request(state@),
            r matches Some(p) ==> self.fits(state@, p),
    {
        if !state.open || state.menu_states.len() == 0 || state.active_root.len() == 0 {
            return None;
        }
        let root: usize = state.active_root[0];
        let items: &'b Vec<MenuTree<I>> = match self.find_active_items(state) {
            Some(items) => items,
            None => {
                return None;
            },
        };
        if root >= state.tree.len() {
            return None;
        }
        let panel: &MenuState<S> = &state.menu_states[state.menu_states.len() - 1];
        let hover: usize = match panel.index {
            Some(hover) => hover,
            None => {
                return None;
            },
        };
        if hover >= items.len() || items[hover].children.len() == 0 {
            return None;
        }
        if hover >= panel.menu_bounds.child_positions.len() || hover
            >= panel.menu_bounds.child_sizes.len() {
            return None;
        }
        let nothing: S = S::ratio(0, 1);
        let area: Rectangle<S> = panel.menu_bounds.children_bounds;
        let parent_bounds = Rectangle {
            x: nothing.plus(area.x.minus(nothing)),
            y: panel.menu_bounds.child_positions[hover].plus(panel.scroll_offset).plus(
                area.y.minus(nothing),
            ),
            width: panel.menu_bounds.child_sizes[hover].width,
            height: panel.menu_bounds.child_sizes[hover].height,
        };
        let aod = Aod {
            horizontal: true,
            vertical: true,
            horizontal_overlap: false,
            vertical_overlap: true,
            horizontal_direction: state.horizontal_direction,
            vertical_direction: state.vertical_direction,
            horizontal_offset: S::ratio(self.cross_offset, 1),
            vertical_offset: S::ratio(0, 1),
        };
        Some(Pending::OpenSubmenu { root, hover, aod, parent_bounds })
    }

    /// Asks for a click on the selected item, if it is one that can be activated.
    pub fn activate_selected_item(&self, state: &MenuBarState<S>) -> (r: KeyResponse<S>)
        ensures
            response_matches(r, state@, self.activate_model(state@)),
    {
        let pending: Option<Pending<S>> = self.find_activation(state);
        let mut effects: Vec<MenuEffect> = Vec::new();
        if pending.is_none() {
            effects.push(MenuEffect::RequestRedraw);
        }
        KeyResponse { status: Status::Captured, effects, pending }
    }

    fn find_activation(&self, state: &MenuBarState<S>) -> (r: Option<Pending<S>>)
        ensures
            r == self.activation(state@),
    {
        if !state.open || state.menu_states.len() == 0 || state.active_root.len() == 0 {
            return None;
        }
        let hover: usize = match state.menu_states[state.menu_states.len() - 1].index {
            Some(hover) => hover,
            None => {
                return None;
            },
        };
        let root: usize = state.active_root[0];
        let items: &'b Vec<MenuTree<I>> = match self.find_active_items(state) {
            Some(items) => items,
            None => {
                return None;
            },
        };
        if hover >= items.len() || items[hover].is_separator || items[hover].children.len() > 0 {
            return None;
        }
        let tree_index: usize = items[hover].index;
        if root >= state.tree.len() || tree_index >= state.tree[root] {
            return None;
        }
        Some(Pending::Activate { root, hover, tree_index })
    }

    fn press_letter(&self, state: &mut MenuBarState<S>, letter: char) -> (r: KeyResponse<S>)
        ensures
            response_matches(r, final(state)@, self.letter_model(old(state)@, letter)),
    {
        if state.open {
            if let Some(items) = self.find_active_items(state) {
                let hit: Option<usize> = pick_letter(items, letter);
                if hit.is_some() {
                    state.select(hit);
                    return self.activate_selected_item(state);
                }
            }
        }
        KeyResponse { status: Status::Ignored, effects: Vec::new(), pending: None }
    }

    fn show_mnemonics(&self, state: &mut MenuBarState<S>, show: bool) -> (r: KeyResponse<S>)
        ensures
            response_matches(r, final(state)@, self.mnemonics_model(old(state)@, show)),
    {
        state.alt_pressed = show;
        state.show_mnemonics = show;
        let mut effects: Vec<MenuEffect> = Vec::new();
        effects.push(MenuEffect::ShowUnderlines(show));
        effects.push(MenuEffect::InvalidateLayout);
        effects.push(MenuEffect::RequestRedraw);
        KeyResponse { status: Status::Captured, effects, pending: None }
    }

    fn press_named_key(
        &self,
        state: &mut MenuBarState<S>,
        named: Named,
        mnemonics: bool,
        viewport_width: S,
        rtl: bool,
    ) -> (r: KeyResponse<S>)
        requires
            self.can_take(old(state)@, named),
        ensures
            response_matches(
                r,
                final(state)@,
                self.named_key_model(old(state)@, named, mnemonics, viewport_width, rtl),
            ),
            r.pending matches Some(p) ==> self.fits(final(state)@, p),
    {
        match named {
            Named::Alt => if mnemonics {
                self.show_mnemonics(state, true)
            } else {
                KeyResponse { status: Status::Ignored, effects: Vec::new(), pending: None }
            },
            Named::Escape => {
                if state.open {
                    state.reset();
                }
                let mut effects: Vec<MenuEffect> = Vec::new();
                effects.push(MenuEffect::RequestRedraw);
                KeyResponse { status: Status::Captured, effects, pending: None }
            },
            Named::ArrowUp | Named::ArrowDown | Named::Home | Named::End => self.move_selection(
                state,
                named,
            ),
            Named::ArrowLeft => if state.open && state.menu_states.len() > 1 {
                self.leave_submenu(state)
            } else {
                self.switch_root(state, false, viewport_width, rtl)
            },
            Named::ArrowRight => {
                let pending: Option<Pending<S>> = self.request_submenu(state);
                if pending.is_some() {
                    KeyResponse { status: Status::Captured, effects: Vec::new(), pending }
                } else {
                    self.switch_root(state, true, viewport_width, rtl)
                }
            },
            Named::Enter => self.activate_selected_item(state),
            _ => KeyResponse { status: Status::Ignored, effects: Vec::new(), pending: None },
        }
    }

    /// Handles a keyboard event while the menu is open.
    pub fn handle_keyboard_event(
        &self,
        state: &mut MenuBarState<S>,
        event: &KeyboardEvent,
        mnemonics: bool,
        viewport_width: S,
        rtl: bool,
    ) -> (r: KeyResponse<S>)
        requires
            match *event {
                KeyboardEvent::KeyPressed { key: Key::Named(named), .. } => self.can_take(
                    old(state)@,
                    named,
                ),
                _ => true,
            },
        ensures
            response_matches(
                r,
                final(state)@,
                self.key_model(old(state)@, *event, mnemonics, viewport_width, rtl),
            ),
            r.pending matches Some(p) ==> self.fits(final(state)@, p),
    {
        match event {
            KeyboardEvent::KeyPressed { key: Key::Named(named), .. } => self.press_named_key(
                state,
                *named,
                mnemonics,
                viewport_width,
                rtl,
            ),
            KeyboardEvent::KeyPressed { key: Key::Character(text), .. } => if mnemonics
                && text.as_str().unicode_len() > 0 {
                self.press_letter(state, to_ascii_lower(text.as_str().get_char(0)))
            } else {
                KeyResponse { status: Status::Ignored, effects: Vec::new(), pending: None }
            },
            KeyboardEvent::KeyReleased { key: Key::Named(Named::Alt) } => if mnemonics {
                self.show_mnemonics(state, false)
            } else {
                KeyResponse { status: Status::Ignored, effects: Vec::new(), pending: None }
            },
            _ => KeyResponse { status: Status::Ignored, effects: Vec::new(), pending: None },
        }
    }

    /// Clicks the item that is to be activated, which is laid out in the given area, and closes
    /// the menu.
    pub fn finish_activation(&self, state: &mut MenuBarState<S>, area: Rectangle<S>) -> (r:
        Activated<S>)
        ensures
            r.steps@ == click_steps(area),
            r.effects@ == seq![MenuEffect::RequestRedraw],
            final(state)@ == old(state)@.closed(),
    {
        let cursor: Cursor<S> = Cursor::Available(
            Point { x: area.center_x(), y: area.center_y() },
        );
        let mut steps: Vec<ClickStep<S>> = Vec::new();
        steps.push(
            ClickStep::Update {
                event: Event::Mouse(MouseEvent::ButtonPressed { button: Button::Left }),
                cursor,
            },
        );
        steps.push(ClickStep::Uncapture);
        steps.push(
            ClickStep::Update {
                event: Event::Mouse(MouseEvent::ButtonReleased { button: Button::Left }),
                cursor,
            },
        );
        state.reset();
        let mut effects: Vec<MenuEffect> = Vec::new();
        effects.push(MenuEffect::RequestRedraw);
        assert(steps@ =~= click_steps(area));
        Activated { steps, effects }
    }

    /// Completes a request for a panel with the bounds that were laid out for it.
    pub fn finish_open(
        &self,
        state: &mut MenuBarState<S>,
        pending: Pending<S>,
        bounds: MenuBounds<S>,
    ) -> (effects: Vec<MenuEffect>)
        requires
            self.fits(old(state)@, pending),
            !(pending is Activate),
        ensures
            final(state)@ == self.finished(old(state)@, pending, bounds),
            effects@ == self.finish_effects(old(state)@, pending),
    {
        let mut effects: Vec<MenuEffect> = Vec::new();
        match pending {
            Pending::OpenRoot { index, .. } => {
                let items: &'b Vec<MenuTree<I>> = &self.menu_roots[index].children;
                let selected: Option<usize> = pick_item(items, items.len(), 0, true);
                state.active_root.push(index);
                state.menu_states.push(
                    MenuState {
                        index: selected,
                        scroll_offset: S::ratio(0, 1),
                        menu_bounds: bounds,
                    },
                );
                self.focus(&mut effects, index, 0, selected);
                effects.push(MenuEffect::InvalidateLayout);
                effects.push(MenuEffect::RequestRedraw);
            },
            Pending::OpenSubmenu { root, hover, .. } => {
                if let Some(items) = self.find_active_items(state) {
                    let below: &'b Vec<MenuTree<I>> = &items[hover].children;
                    let selected: Option<usize> = pick_item(below, below.len(), 0, true);
                    if self.is_overlay {
                        state.active_root.push(hover);
                    } else {
                        state.menu_states.truncate(1);
                    }
                    let panel: usize = state.menu_states.len();
                    state.menu_states.push(
                        MenuState {
                            index: selected,
                            scroll_offset: S::ratio(0, 1),
                            menu_bounds: bounds,
                        },
                    );
                    self.focus(&mut effects, root, panel, selected);
                    effects.push(MenuEffect::InvalidateLayout);
                    effects.push(MenuEffect::RequestRedraw);
                }
            },
            Pending::Activate { .. } => {},
        }
        effects
    }
}

/// Whether a response and the menu that it leaves are as a model says.
pub open spec fn response_matches<S>(
    r: KeyResponse<S>,
    state: MenuBarModel<S>,
    model: KeyModel<S>,
) -> bool {
    &&& r.status == model.status
    &&& r.effects@ =~= model.effects
    &&& r.pending == model.pending
    &&& state =~= model.state
}

} // verus!
