//! The state of an open menu: its panels, the path through them and the selection.
use vstd::prelude::*;

use crate::geometry::{Cursor, Rectangle, Size};
use crate::scalar::Scalar;

verus! {

/// The side of its parent on which a panel opens.
#[derive(Clone, Copy, Debug, PartialEq, Eq, Structural)]
pub enum Direction {
    Positive,
    Negative,
}

/// When a menu closes by itself.
#[derive(Clone, Copy, Debug, PartialEq, Eq, Structural)]
pub struct CloseCondition {
    /// The cursor leaves the menu.
    pub leave: bool,
    /// A click lands outside of the menu.
    pub click_outside: bool,
    /// A click lands inside of the menu.
    pub click_inside: bool,
}

/// The width of menu items.
#[derive(Clone, Copy, Debug, PartialEq, Eq, Structural)]
pub enum ItemWidth {
    /// Every item has the same width.
    Uniform(u16),
    /// Items are as wide as their content needs, within limits.
    Dynamic { min: u16, max: u16 },
}

/// The height of menu items.
#[derive(Clone, Copy, Debug, PartialEq, Eq, Structural)]
pub enum ItemHeight {
    /// Every item has the same height.
    Uniform(u16),
    /// Items are as high as their content needs, but not lower than a minimum.
    Dynamic(u16),
}

/// How the path of open submenus is highlighted.
#[derive(Clone, Copy, Debug, PartialEq, Eq, Structural)]
pub enum PathHighlight {
    /// The whole path.
    Full,
    /// The path without the item that is active.
    OmitActive,
    /// The items that opened a submenu, and the active one.
    MenuActive,
}

/// How a panel is placed next to its parent.
#[derive(Clone, Copy, Debug)]
pub struct Aod<S> {
    pub horizontal: bool,
    pub vertical: bool,
    pub horizontal_overlap: bool,
    pub vertical_overlap: bool,
    pub horizontal_direction: Direction,
    pub vertical_direction: Direction,
    pub horizontal_offset: S,
    pub vertical_offset: S,
}

/// Where a panel and its items are.
#[derive(Debug)]
pub struct MenuBounds<S> {
    /// The offset of each item from the top of the panel.
    pub child_positions: Vec<S>,
    /// The size of each item.
    pub child_sizes: Vec<Size<S>>,
    /// The area of the items.
    pub children_bounds: Rectangle<S>,
    /// The area in which the cursor counts as inside of the panel.
    pub check_bounds: Rectangle<S>,
}

/// An open panel.
#[derive(Debug)]
pub struct MenuState<S> {
    /// The selected item.
    pub index: Option<usize>,
    /// How far the panel is scrolled.
    pub scroll_offset: S,
    /// Where the panel is.
    pub menu_bounds: MenuBounds<S>,
}

/// The state shared by a menu bar or a context menu and its overlay.
#[derive(Debug)]
pub struct MenuBarState<S> {
    pub open: bool,
    pub pressed: bool,
    pub view_cursor: Cursor<S>,
    /// The open root followed by the item that each further panel was opened from.
    pub active_root: Vec<usize>,
    /// The open panels, the root panel first.
    pub menu_states: Vec<MenuState<S>>,
    pub horizontal_direction: Direction,
    pub vertical_direction: Direction,
    pub alt_pressed: bool,
    pub show_mnemonics: bool,
    /// For each root, the number of widget states that are kept for its flat list.
    pub tree: Vec<usize>,
}

/// What a `MenuBarState` stands for.
#[verifier::ext_equal]
pub struct MenuBarModel<S> {
    pub open: bool,
    pub pressed: bool,
    pub view_cursor: Cursor<S>,
    pub active_root: Seq<usize>,
    pub menu_states: Seq<MenuState<S>>,
    pub horizontal_direction: Direction,
    pub vertical_direction: Direction,
    pub alt_pressed: bool,
    pub show_mnemonics: bool,
    pub tree: Seq<usize>,
}

impl<S> View for MenuBarState<S> {
    type V = MenuBarModel<S>;

    open spec fn view(&self) -> MenuBarModel<S> {
        MenuBarModel {
            open: self.open,
            pressed: self.pressed,
            view_cursor: self.view_cursor,
            active_root: self.active_root@,
            menu_states: self.menu_states@,
            horizontal_direction: self.horizontal_direction,
            vertical_direction: self.vertical_direction,
            alt_pressed: self.alt_pressed,
            show_mnemonics: self.show_mnemonics,
            tree: self.tree@,
        }
    }
}

impl<S> MenuBarModel<S> {
    /// The menu with everything closed.
    pub open spec fn closed(self) -> Self {
        MenuBarModel {
            open: false,
            active_root: Seq::empty(),
            menu_states: Seq::empty(),
            ..self
        }
    }

    /// Whether a panel is open and belongs to a root.
    pub open spec fn shows_panel(self) -> bool {
        self.open && self.menu_states.len() > 0 && self.active_root.len() > 0
    }

    /// The menu with another item selected in its last panel.
    pub open spec fn selecting(self, index: Option<usize>) -> Self {
        if self.menu_states.len() == 0 {
            self
        } else {
            let last = self.menu_states.len() - 1;
            MenuBarModel {
                menu_states: self.menu_states.update(
                    last,
                    MenuState { index, ..self.menu_states[last] },
                ),
                ..self
            }
        }
    }

    /// Whether every panel of the menu has its place on the active path.
    pub open spec fn panels_on_path(self) -> bool {
        self.menu_states.len() <= self.active_root.len()
    }
}

impl<S: Scalar> MenuBarState<S> {
    /// Makes the state of a menu that is closed.
    pub fn new(tree: Vec<usize>) -> (r: Self)
        ensures
            r@ == (MenuBarModel {
                open: false,
                pressed: false,
                view_cursor: Cursor::<S>::Unavailable,
                active_root: Seq::empty(),
                menu_states: Seq::empty(),
                horizontal_direction: Direction::Positive,
                vertical_direction: Direction::Positive,
                alt_pressed: false,
                show_mnemonics: false,
                tree: tree@,
            }),
    {
        MenuBarState {
            open: false,
            pressed: false,
            view_cursor: Cursor::Unavailable,
            active_root: Vec::new(),
            menu_states: Vec::new(),
            horizontal_direction: Direction::Positive,
            vertical_direction: Direction::Positive,
            alt_pressed: false,
            show_mnemonics: false,
            tree,
        }
    }

    /// Closes the menu.
    pub fn reset(&mut self)
        ensures
            final(self)@ == old(self)@.closed(),
    {
        self.open = false;
        self.active_root.clear();
        self.menu_states.clear();
    }

    /// Selects an item of the last panel.
    pub fn select(&mut self, index: Option<usize>)
        ensures
            final(self)@ == old(self)@.selecting(index),
    {
        let len: usize = self.menu_states.len();
        if len > 0 {
            self.menu_states[len - 1].index = index;
        }
    }
}

} // verus!
