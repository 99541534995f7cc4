//! The description of an application menu or a context menu.
use vstd::prelude::*;

use crate::event::Key;

verus! {

/// The identifier of a menu entry.
#[derive(Clone, Copy, Debug, PartialEq, Eq, Structural)]
pub struct MenuId(pub u64);

/// The part that a menu entry plays on platforms that give some entries a place of their own.
#[derive(Clone, Copy, Debug, PartialEq, Eq, Structural)]
pub enum MenuRole {
    /// No part of its own.
    Ordinary,
    About,
    Preferences,
    Quit,
    ApplicationSpecific,
}

/// The modifier keys of a shortcut.
#[derive(Clone, Copy, Debug, PartialEq, Eq, Structural)]
pub struct Modifiers {
    pub shift: bool,
    pub ctrl: bool,
    pub alt: bool,
    pub command: bool,
}

/// The keys that activate a menu entry.
#[derive(Debug)]
pub struct MenuShortcut {
    pub modifiers: Modifiers,
    pub key: Key,
}

/// What a menu entry is.
#[derive(Debug)]
pub enum MenuKind<Message> {
    Separator,
    Item { label: String, enabled: bool, shortcut: Option<MenuShortcut>, on_activate: Message },
    CheckItem {
        label: String,
        enabled: bool,
        checked: Option<bool>,
        shortcut: Option<MenuShortcut>,
        on_activate: Message,
    },
    Submenu { label: String, enabled: bool, children: Vec<MenuNode<Message>> },
}

/// An entry of a menu.
#[derive(Debug)]
pub struct MenuNode<Message> {
    pub id: MenuId,
    pub role: MenuRole,
    pub kind: MenuKind<Message>,
}

/// The menu of an application.
#[derive(Debug)]
pub struct AppMenu<Message> {
    pub roots: Vec<MenuNode<Message>>,
}

/// What an entry of a context menu is.
#[derive(Debug)]
pub enum ContextMenuItemKind {
    Separator,
    Item { label: String, enabled: bool },
    CheckItem { label: String, enabled: bool, checked: Option<bool> },
    Submenu { label: String, children: Vec<ContextMenuItem> },
}

/// An entry of a context menu, without the message that it produces.
#[derive(Debug)]
pub struct ContextMenuItem {
    pub id: MenuId,
    pub kind: ContextMenuItemKind,
}

impl<Message> MenuNode<Message> {
    /// The message of an entry that can be activated.
    pub open spec fn message(self) -> Option<Message> {
        match self.kind {
            MenuKind::Item { on_activate, .. } => Some(on_activate),
            MenuKind::CheckItem { on_activate, .. } => Some(on_activate),
            _ => None,
        }
    }

    /// The entries of a submenu; none for any other entry.
    pub open spec fn entries(self) -> Seq<MenuNode<Message>> {
        match self.kind {
            MenuKind::Submenu { children, .. } => children@,
            _ => Seq::empty(),
        }
    }

    /// Whether the entry is a submenu without entries.
    pub open spec fn is_hollow(self) -> bool {
        self.kind is Submenu && self.entries().len() == 0
    }

    /// Tests whether the entry is a submenu without entries.
    pub fn is_empty_submenu(&self) -> (r: bool)
        ensures
            r == self.is_hollow(),
    {
        match &self.kind {
            MenuKind::Submenu { children, .. } => children.len() == 0,
            _ => false,
        }
    }
}

/// The message of the entry with an identifier: of the entries in the order of the menu, where
/// an entry comes before the entries of its submenu, the first that can be activated decides.
pub open spec fn activation<Message>(id: MenuId, nodes: Seq<MenuNode<Message>>) -> Option<Message>
    decreases nodes,
{
    if nodes.len() == 0 {
        None
    } else {
        match activation(id, nodes.drop_last()) {
            Some(message) => Some(message),
            None => {
                let node = nodes.last();
                if node.id == id && node.message() is Some {
                    node.message()
                } else {
                    match node.kind {
                        MenuKind::Submenu { children, .. } => activation(id, children@),
                        _ => None,
                    }
                }
            },
        }
    }
}

/// An earlier entry that decides is not overruled by a later one.
proof fn lemma_activation_prefix<Message>(id: MenuId, nodes: Seq<MenuNode<Message>>, n: int)
    requires
        0 <= n <= nodes.len(),
        activation(id, nodes.take(n)) is Some,
    ensures
        activation(id, nodes) == activation(id, nodes.take(n)),
    decreases nodes.len(),
{
    if n < nodes.len() {
        assert(nodes.drop_last().take(n) =~= nodes.take(n));
        lemma_activation_prefix(id, nodes.drop_last(), n);
    } else {
        assert(nodes.take(n) =~= nodes);
    }
}

/// Finds the message of the entry with an identifier.
fn find_message<'a, Message>(id: &MenuId, nodes: &'a [MenuNode<Message>]) -> (r: Option<
    &'a Message,
>)
    ensures
        r == (match activation(*id, nodes@) {
            Some(message) => Some(&message),
            None => None,
        }),
    decreases nodes@,
{
    let len: usize = nodes.len();
    let mut i: usize = 0;
    assert(nodes@.take(0) =~= Seq::empty());
    while i < len
        invariant
            0 <= i <= len,
            len == nodes@.len(),
            activation(*id, nodes@.take(i as int)) is None,
        decreases len - i,
    {
        let node: &MenuNode<Message> = &nodes[i];
        proof {
            assert(nodes@.take(i + 1).drop_last() =~= nodes@.take(i as int));
            assert(nodes@.take(i + 1).last() == nodes@[i as int]);
        }
        if node.id == *id {
            match &node.kind {
                MenuKind::Item { on_activate, .. } => {
                    proof {
                        lemma_activation_prefix(*id, nodes@, i + 1);
                    }
                    return Some(on_activate);
                },
                MenuKind::CheckItem { on_activate, .. } => {
                    proof {
                        lemma_activation_prefix(*id, nodes@, i + 1);
                    }
                    return Some(on_activate);
                },
                _ => {},
            }
        }
        if let MenuKind::Submenu { children, .. } = &node.kind {
            proof {
                assert(decreases_to!(nodes@ => nodes@[i as int]));
            }
            let nested: Option<&Message> = find_message(id, children.as_slice());
            if nested.is_some() {
                proof {
                    lemma_activation_prefix(*id, nodes@, i + 1);
                }
                return nested;
            }
        }
        i = i + 1;
    }
    assert(nodes@.take(len as int) =~= nodes@);
    None
}

/// Gives a copy of the message of the entry with an identifier.
pub fn find_activated_message<Message: Clone>(id: &MenuId, nodes: &[MenuNode<Message>]) -> (r:
    Option<Message>)
    ensures
        match activation(*id, nodes@) {
            Some(message) => r is Some && cloned(message, r->0),
            None => r is None,
        },
{
    match find_message(id, nodes) {
        Some(message) => Some(message.clone()),
        None => None,
    }
}

} // verus!
