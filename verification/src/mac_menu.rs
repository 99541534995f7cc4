//! The menu bar and the context menus of macOS.
//!
//! What a menu looks like and what is shown of it is decided here, as a plan of plain values;
//! the front end carries the plan out with AppKit.
use std::sync::mpsc::{Receiver, Sender};

use vstd::prelude::*;
use vstd::string::StringExecFns;

use crate::channel::{are_ends, is_received, received};
use crate::geometry::Point;
use crate::mac_menu::main_menu::{build_main_menu, main_items};
use crate::mac_menu::plan::{
    build_context_menu, build_context_menu_from_items, context_items, models, plain_context_items,
    NativeMenu,
};
use crate::mac_menu::signature::{list_bytes, Look};
use crate::menu::model::{AppMenu, ContextMenuItem, MenuId, MenuNode};
use crate::scalar::{Arithmetic, Scalar};

pub mod answer_laws;
pub mod application_laws;
pub mod item_laws;
pub mod label;
pub mod laws;
pub mod main_menu;
pub mod plan;
pub mod shortcut;
pub mod signature;
pub mod signature_laws;

verus! {

/// Why a menu could not be installed or updated.
#[derive(Clone, Copy, Debug, PartialEq, Eq, Structural)]
pub enum MenuError {
    /// Not running on the main thread, as AppKit requires.
    NotMainThread,
}

impl MenuError {
    /// Says in words what went wrong.
    pub fn message(&self) -> (r: String)
        ensures
            r@ == "Not running on the main thread"@,
    {
        String::from_str("Not running on the main thread")
    }
}

/// The menu bar of an application.
pub struct MacMenu {
    receiver: Receiver<MenuId>,
    last_look: Option<Look>,
}

impl MacMenu {
    /// What the menu looks like that is installed; nothing before one is.
    pub closed spec fn installed(&self) -> Option<Seq<u8>> {
        match self.last_look {
            Some(look) => Some(look@),
            None => None,
        }
    }

    /// The channel end at which activated entries arrive.
    pub closed spec fn channel_end(&self) -> Receiver<MenuId> {
        self.receiver
    }

    /// Makes a menu bar, together with the sender that reports activated entries to it.
    pub fn new(on_main_thread: bool) -> (r: Result<(MacMenu, Sender<MenuId>), MenuError>)
        ensures
            r is Ok <==> on_main_thread,
            r is Err ==> r->Err_0 == MenuError::NotMainThread,
            r is Ok ==> r->Ok_0.0.installed() is None,
            r is Ok ==> are_ends(r->Ok_0.1, r->Ok_0.0.channel_end()),
    {
        if !on_main_thread {
            return Err(MenuError::NotMainThread);
        }
        let (sender, receiver) = std::sync::mpsc::channel();
        Ok((MacMenu { receiver, last_look: None }, sender))
    }

    /// Gives the menu to install, if the menu looks different from the one that is installed.
    pub fn sync<Message>(&mut self, menu: &AppMenu<Message>, on_main_thread: bool) -> (r: Result<
        Option<NativeMenu>,
        MenuError,
    >)
        ensures
            final(self).channel_end() == old(self).channel_end(),
            ({
                let look = Some(list_bytes(menu.roots@));
                if old(self).installed() == look {
                    &&& r == Ok::<Option<NativeMenu>, MenuError>(None)
                    &&& final(self).installed() == look
                } else if !on_main_thread {
                    &&& r == Err::<Option<NativeMenu>, MenuError>(MenuError::NotMainThread)
                    &&& final(self).installed() == old(self).installed()
                } else {
                    &&& r is Ok
                    &&& r->Ok_0 is Some
                    &&& models(r->Ok_0->0.items@) == main_items(menu.roots@)
                    &&& final(self).installed() == look
                }
            }),
    {
        let look: Look = Look::of(menu);
        if let Some(last) = &self.last_look {
            if last.matches(&look) {
                return Ok(None);
            }
        }
        if !on_main_thread {
            return Err(MenuError::NotMainThread);
        }
        let native: NativeMenu = build_main_menu(menu);
        self.last_look = Some(look);
        Ok(Some(native))
    }

    /// Takes an activated entry that has been reported, without waiting.
    pub fn try_recv(&self) -> (r: Option<MenuId>)
        ensures
            is_received(self.channel_end(), r),
    {
        received(self.receiver.try_recv())
    }
}

/// A native context menu.
pub struct MacContextMenu {
    receiver: Receiver<MenuId>,
    /// How often the menu has been shown to wait for a choice.
    showings: u64,
}

/// The entry that was chosen in one showing of a context menu.
#[derive(Clone, Copy, Debug, PartialEq, Eq, Structural)]
pub struct Choice {
    /// The number of the showing.
    pub showing: u64,
    pub id: MenuId,
}

/// One showing of a context menu, with a channel of its own for the entry that is chosen.
pub struct Showing<S> {
    /// The menu to show.
    pub menu: NativeMenu,
    /// Where to show it, in the coordinates of the view.
    pub location: Point<S>,
    /// Tells this showing from all others of the same menu.
    pub number: u64,
    /// Reports the chosen entry.
    pub sender: Sender<Choice>,
    /// The channel end at which the chosen entry arrives.
    pub receiver: Receiver<Choice>,
}

/// The answer to a showing, given what has arrived: an entry that was chosen in that showing.
pub open spec fn answer_of(number: u64, arrived: Option<Choice>) -> Option<MenuId> {
    match arrived {
        Some(choice) => if choice.showing == number {
            Some(choice.id)
        } else {
            None
        },
        None => None,
    }
}

/// Gives the answer to a showing, given what has arrived.
pub fn find_answer(number: u64, arrived: Option<Choice>) -> (r: Option<MenuId>)
    ensures
        r == answer_of(number, arrived),
{
    match arrived {
        Some(choice) => if choice.showing == number {
            Some(choice.id)
        } else {
            None
        },
        None => None,
    }
}

/// Whether a menu was taken from one state to another by a showing with a number.
pub open spec fn is_showing(before: MacContextMenu, after: MacContextMenu, number: u64) -> bool {
    number == before.showings() && after.showings() == before.showings() + 1
}

/// An entry that was chosen in an earlier showing, and not asked for, never answers a later one:
/// a showing that was dismissed has no answer, and one in which an entry was chosen is answered
/// with that entry.
pub proof fn law_earlier_choice_does_not_answer(
    first: MacContextMenu,
    after_first: MacContextMenu,
    second: MacContextMenu,
    after_second: MacContextMenu,
    earlier: u64,
    later: u64,
    id: MenuId,
)
    requires
        is_showing(first, after_first, earlier),
        after_first.showings() <= second.showings(),
        is_showing(second, after_second, later),
    ensures
        earlier != later,
        answer_of(later, Some(Choice { showing: earlier, id })) is None,
        answer_of(later, None) is None,
        answer_of(later, Some(Choice { showing: later, id })) == Some(id),
{
}

/// A position in the coordinates of a view. A view that is not flipped counts from its bottom.
pub open spec fn view_position<S: Arithmetic>(is_flipped: bool, view_height: S, x: S, y: S) -> Point<S> {
    Point {
        x,
        y: if is_flipped {
            y
        } else {
            view_height.difference(y)
        },
    }
}

impl MacContextMenu {
    /// The channel end at which activated entries arrive.
    pub closed spec fn channel_end(&self) -> Receiver<MenuId> {
        self.receiver
    }

    /// How often the menu has been shown to wait for a choice.
    pub closed spec fn showings(&self) -> u64 {
        self.showings
    }

    /// Makes a context menu, together with the sender that reports activated entries to it.
    pub fn new(on_main_thread: bool) -> (r: Result<(MacContextMenu, Sender<MenuId>), MenuError>)
        ensures
            r is Ok <==> on_main_thread,
            r is Err ==> r->Err_0 == MenuError::NotMainThread,
            r is Ok ==> are_ends(r->Ok_0.1, r->Ok_0.0.channel_end()),
            r is Ok ==> r->Ok_0.0.showings() == 0,
    {
        if !on_main_thread {
            return Err(MenuError::NotMainThread);
        }
        let (sender, receiver) = std::sync::mpsc::channel();
        Ok((MacContextMenu { receiver, showings: 0 }, sender))
    }

    /// Gives how often the menu has been shown to wait for a choice.
    pub fn count_showings(&self) -> (r: u64)
        ensures
            r == self.showings(),
    {
        self.showings
    }

    /// Gives the menu to show, at a position in the coordinates of the view.
    pub fn show<Message, S: Scalar>(
        &self,
        nodes: &[MenuNode<Message>],
        on_main_thread: bool,
        x: S,
        y: S,
    ) -> (r: Result<(NativeMenu, Point<S>), MenuError>)
        ensures
            r is Ok <==> on_main_thread,
            r is Err ==> r->Err_0 == MenuError::NotMainThread,
            r is Ok ==> models(r->Ok_0.0.items@) == context_items(nodes@) && r->Ok_0.1 == (Point {
                x,
                y,
            }),
    {
        if !on_main_thread {
            return Err(MenuError::NotMainThread);
        }
        Ok((build_context_menu(nodes), Point { x, y }))
    }

    /// Gives the menu to show, at a position that counts from the top.
    pub fn show_items<S: Scalar>(
        &self,
        items: &[ContextMenuItem],
        on_main_thread: bool,
        is_flipped: bool,
        view_height: S,
        x: S,
        y: S,
    ) -> (r: Result<(NativeMenu, Point<S>), MenuError>)
        ensures
            r is Ok <==> on_main_thread,
            r is Err ==> r->Err_0 == MenuError::NotMainThread,
            r is Ok ==> models(r->Ok_0.0.items@) == plain_context_items(items@) && r->Ok_0.1
                == view_position(is_flipped, view_height, x, y),
    {
        if !on_main_thread {
            return Err(MenuError::NotMainThread);
        }
        let menu: NativeMenu = build_context_menu_from_items(items);
        let location: Point<S> = if is_flipped {
            Point { x, y }
        } else {
            Point { x, y: view_height.minus(y) }
        };
        Ok((menu, location))
    }

    /// Gives the menu to show, at a position that counts from the top, with a number and a channel
    /// of its own for the entry that is chosen.
    pub fn prepare_items<S: Scalar>(
        &mut self,
        items: &[ContextMenuItem],
        on_main_thread: bool,
        is_flipped: bool,
        view_height: S,
        x: S,
        y: S,
    ) -> (r: Result<Showing<S>, MenuError>)
        requires
            old(self).showings() < u64::MAX,
        ensures
            final(self).channel_end() == old(self).channel_end(),
            r is Err ==> final(self).showings() == old(self).showings(),
            r is Ok ==> is_showing(*old(self), *final(self), r->Ok_0.number),
            r is Ok <==> on_main_thread,
            r is Err ==> r->Err_0 == MenuError::NotMainThread,
            r is Ok ==> {
                &&& models(r->Ok_0.menu.items@) == plain_context_items(items@)
                &&& r->Ok_0.location == view_position(is_flipped, view_height, x, y)
                &&& are_ends(r->Ok_0.sender, r->Ok_0.receiver)
            },
    {
        let (menu, location) = match self.show_items(
            items,
            on_main_thread,
            is_flipped,
            view_height,
            x,
            y,
        ) {
            Ok((menu, location)) => (menu, location),
            Err(error) => {
                return Err(error);
            },
        };
        let (sender, receiver) = std::sync::mpsc::channel();
        let number: u64 = self.showings;
        self.showings = number + 1;
        Ok(Showing { menu, location, number, sender, receiver })
    }

    /// Takes the chosen entry of a menu that has been shown and closed again: none, if it was
    /// dismissed or could not be shown.
    pub fn show_items_and_wait<S>(&self, shown: Result<Showing<S>, MenuError>) -> (r: Option<MenuId>)
        ensures
            shown is Ok ==> exists|arrived: Option<Choice>| #[trigger]
                is_received(shown->Ok_0.receiver, arrived) && r == answer_of(
                    shown->Ok_0.number,
                    arrived,
                ),
            shown is Err ==> r is None,
    {
        match shown {
            Ok(showing) => {
                let arrived: Option<Choice> = received(showing.receiver.try_recv());
                assert(is_received(showing.receiver, arrived));
                find_answer(showing.number, arrived)
            },
            Err(_) => None,
        }
    }

    /// Takes an activated entry that has been reported, without waiting.
    pub fn try_recv(&self) -> (r: Option<MenuId>)
        ensures
            is_received(self.channel_end(), r),
    {
        received(self.receiver.try_recv())
    }
}

} // verus!
