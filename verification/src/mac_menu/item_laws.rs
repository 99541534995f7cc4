//! What the items of native menus say of the entries that they stand for.
use vstd::prelude::*;

use crate::mac_menu::label::stripped;
use crate::mac_menu::main_menu::{main_items, root_items};
use crate::mac_menu::plan::{
    context_items, plain_context_items, submenu_items, ItemModel,
};
use crate::mac_menu::shortcut::{equivalent_of, KeyEquivalentModel};
use crate::menu::model::{
    ContextMenuItem, ContextMenuItemKind, MenuId, MenuKind, MenuNode, MenuRole,
};

verus! {

/// Whether an item is marked and enabled as it should be, and bears a label and a tag.
pub open spec fn is_leaf(
    item: ItemModel,
    id: MenuId,
    label: Seq<char>,
    enabled: bool,
    marked: bool,
    key: Option<KeyEquivalentModel>,
) -> bool {
    &&& item is Leaf
    &&& item->Leaf_title == stripped(label)
    &&& item->Leaf_enabled == enabled
    &&& item->Leaf_tag == id.0 as i64
    &&& item->Leaf_state == 0 || item->Leaf_state == 1
    &&& (item->Leaf_state == 1) == marked
    &&& item->key == key
}

/// Whether an item shows an entry for what it is. An item is enabled exactly if the entry is, and
/// marked exactly if the entry is one with a mark that is set.
pub open spec fn pictures<M>(item: ItemModel, node: MenuNode<M>) -> bool {
    match node.kind {
        MenuKind::Separator => item is Separator,
        MenuKind::Item { label, enabled, shortcut, .. } => is_leaf(
            item,
            node.id,
            label@,
            enabled,
            false,
            equivalent_of(shortcut),
        ),
        MenuKind::CheckItem { label, enabled, checked, shortcut, .. } => is_leaf(
            item,
            node.id,
            label@,
            enabled,
            checked == Some(true),
            equivalent_of(shortcut),
        ),
        MenuKind::Submenu { label, enabled, .. } => {
            &&& item is Submenu
            &&& item->Submenu_title == stripped(label@)
            &&& item->Submenu_enabled == Some(enabled)
        },
    }
}

/// Whether an item shows an entry without a message for what it is. Submenus are always enabled.
pub open spec fn pictures_plain(item: ItemModel, entry: ContextMenuItem) -> bool {
    match entry.kind {
        ContextMenuItemKind::Separator => item is Separator,
        ContextMenuItemKind::Item { label, enabled } => is_leaf(
            item,
            entry.id,
            label@,
            enabled,
            false,
            None,
        ),
        ContextMenuItemKind::CheckItem { label, enabled, checked } => is_leaf(
            item,
            entry.id,
            label@,
            enabled,
            checked == Some(true),
            None,
        ),
        ContextMenuItemKind::Submenu { label, .. } => {
            &&& item is Submenu
            &&& item->Submenu_title == stripped(label@)
            &&& item->Submenu_enabled == Some(true)
        },
    }
}

/// The item at the end of a path: each step is a position in the menu that the path has come to.
pub open spec fn item_at(items: Seq<ItemModel>, path: Seq<int>) -> Option<ItemModel>
    decreases path.len(),
{
    if path.len() == 0 || !(0 <= path[0] < items.len()) {
        None
    } else if path.len() == 1 {
        Some(items[path[0]])
    } else {
        match items[path[0]] {
            ItemModel::Submenu { items: below, .. } => item_at(below, path.skip(1)),
            _ => None,
        }
    }
}

/// The entry at the end of a path.
pub open spec fn entry_at<M>(nodes: Seq<MenuNode<M>>, path: Seq<int>) -> Option<MenuNode<M>>
    decreases path.len(),
{
    if path.len() == 0 || !(0 <= path[0] < nodes.len()) {
        None
    } else if path.len() == 1 {
        Some(nodes[path[0]])
    } else {
        match nodes[path[0]].kind {
            MenuKind::Submenu { children, .. } => entry_at(children@, path.skip(1)),
            _ => None,
        }
    }
}

/// The entry without a message at the end of a path.
pub open spec fn plain_entry_at(entries: Seq<ContextMenuItem>, path: Seq<int>) -> Option<
    ContextMenuItem,
>
    decreases path.len(),
{
    if path.len() == 0 || !(0 <= path[0] < entries.len()) {
        None
    } else if path.len() == 1 {
        Some(entries[path[0]])
    } else {
        match entries[path[0]].kind {
            ContextMenuItemKind::Submenu { children, .. } => plain_entry_at(
                children@,
                path.skip(1),
            ),
            _ => None,
        }
    }
}

/// Each entry of a context menu has its item at the same place.
proof fn lemma_context_item<M>(nodes: Seq<MenuNode<M>>, i: int)
    ensures
        context_items(nodes).len() == nodes.len(),
        0 <= i < nodes.len() ==> {
            &&& pictures(context_items(nodes)[i], nodes[i])
            &&& nodes[i].kind is Submenu ==> context_items(nodes)[i]->items == context_items(
                nodes[i].kind->children@,
            )
        },
    decreases nodes.len(),
{
    if nodes.len() > 0 {
        lemma_context_item(nodes.drop_last(), i);
    }
}

/// A native context menu shows each entry, at every depth, in the place of the entry: with the
/// label of the entry, enabled exactly if the entry is, marked exactly if the entry is one with a
/// mark that is set, and with the shortcut and the tag of the entry. It shows nothing else.
pub proof fn law_context_menu_shows_its_entries<M>(nodes: Seq<MenuNode<M>>, path: Seq<int>)
    ensures
        (item_at(context_items(nodes), path) is Some) == (entry_at(nodes, path) is Some),
        entry_at(nodes, path) is Some ==> pictures(
            item_at(context_items(nodes), path)->0,
            entry_at(nodes, path)->0,
        ),
    decreases path.len(),
{
    lemma_context_item(nodes, 0);
    if path.len() > 0 && 0 <= path[0] < nodes.len() {
        lemma_context_item(nodes, path[0]);
        if let MenuKind::Submenu { children, .. } = nodes[path[0]].kind {
            if path.len() > 1 {
                law_context_menu_shows_its_entries(children@, path.skip(1));
            }
        }
    }
}

/// Each entry without a message has its item at the same place.
proof fn lemma_plain_item(entries: Seq<ContextMenuItem>, i: int)
    ensures
        plain_context_items(entries).len() == entries.len(),
        0 <= i < entries.len() ==> {
            &&& pictures_plain(plain_context_items(entries)[i], entries[i])
            &&& entries[i].kind is Submenu ==> plain_context_items(entries)[i]->items
                == plain_context_items(entries[i].kind->children@)
        },
    decreases entries.len(),
{
    if entries.len() > 0 {
        lemma_plain_item(entries.drop_last(), i);
    }
}

/// A native context menu that is made of entries without messages shows each of them, at every
/// depth, in its place: the state of its item is one exactly if the entry has a mark that is set,
/// and else zero; the item is enabled exactly if the entry is, and a submenu always is.
pub proof fn law_plain_context_menu_shows_its_entries(
    entries: Seq<ContextMenuItem>,
    path: Seq<int>,
)
    ensures
        (item_at(plain_context_items(entries), path) is Some) == (plain_entry_at(entries, path)
            is Some),
        plain_entry_at(entries, path) is Some ==> pictures_plain(
            item_at(plain_context_items(entries), path)->0,
            plain_entry_at(entries, path)->0,
        ),
    decreases path.len(),
{
    lemma_plain_item(entries, 0);
    if path.len() > 0 && 0 <= path[0] < entries.len() {
        lemma_plain_item(entries, path[0]);
        if let ContextMenuItemKind::Submenu { children, .. } = entries[path[0]].kind {
            if path.len() > 1 {
                law_plain_context_menu_shows_its_entries(children@, path.skip(1));
            }
        }
    }
}

/// The entries of a menu of the menu bar that stay there: those without a role. Directly in a
/// menu of the bar, a submenu without entries does not stay either.
pub open spec fn staying<M>(nodes: Seq<MenuNode<M>>, outermost: bool) -> Seq<MenuNode<M>> {
    nodes.filter(
        |node: MenuNode<M>|
            node.role == MenuRole::Ordinary && !(outermost && match node.kind {
                MenuKind::Submenu { children, .. } => children@.len() == 0,
                _ => false,
            }),
    )
}

/// The entry at the end of a path through entries that stay.
pub open spec fn staying_at<M>(nodes: Seq<MenuNode<M>>, outermost: bool, path: Seq<int>) -> Option<
    MenuNode<M>,
>
    decreases path.len(),
{
    let there = staying(nodes, outermost);
    if path.len() == 0 || !(0 <= path[0] < there.len()) {
        None
    } else if path.len() == 1 {
        Some(there[path[0]])
    } else {
        match there[path[0]].kind {
            MenuKind::Submenu { children, .. } => staying_at(children@, false, path.skip(1)),
            _ => None,
        }
    }
}

/// Each entry that stays in its menu has its item at the same place.
proof fn lemma_submenu_item<M>(nodes: Seq<MenuNode<M>>, outermost: bool, i: int)
    ensures
        submenu_items(nodes, outermost).len() == staying(nodes, outermost).len(),
        0 <= i < staying(nodes, outermost).len() ==> {
            let node = staying(nodes, outermost)[i];
            &&& pictures(submenu_items(nodes, outermost)[i], node)
            &&& node.kind is Submenu ==> submenu_items(nodes, outermost)[i]->items
                == submenu_items(node.kind->children@, false)
        },
    decreases nodes.len(),
{
    reveal(Seq::filter);
    if nodes.len() > 0 {
        lemma_submenu_item(nodes.drop_last(), outermost, i);
    }
}

/// A menu of the menu bar shows each entry that stays there, at every depth, in the order of the
/// entries and with what they say; it shows nothing else.
pub proof fn law_menu_shows_its_entries<M>(
    nodes: Seq<MenuNode<M>>,
    outermost: bool,
    path: Seq<int>,
)
    ensures
        (item_at(submenu_items(nodes, outermost), path) is Some) == (staying_at(
            nodes,
            outermost,
            path,
        ) is Some),
        staying_at(nodes, outermost, path) is Some ==> pictures(
            item_at(submenu_items(nodes, outermost), path)->0,
            staying_at(nodes, outermost, path)->0,
        ),
    decreases path.len(),
{
    lemma_submenu_item(nodes, outermost, 0);
    let there = staying(nodes, outermost);
    if path.len() > 0 && 0 <= path[0] < there.len() {
        lemma_submenu_item(nodes, outermost, path[0]);
        if let MenuKind::Submenu { children, .. } = there[path[0]].kind {
            if path.len() > 1 {
                law_menu_shows_its_entries(children@, false, path.skip(1));
            }
        }
    }
}

/// The menus of an application that the menu bar shows: those in which an entry stays.
pub open spec fn shown_roots<M>(roots: Seq<MenuNode<M>>) -> Seq<MenuNode<M>> {
    roots.filter(
        |root: MenuNode<M>|
            match root.kind {
                MenuKind::Submenu { children, .. } => staying(children@, true).len() > 0,
                _ => false,
            },
    )
}

/// Each menu that is shown has its item at the same place.
proof fn lemma_root_item<M>(roots: Seq<MenuNode<M>>, i: int)
    ensures
        root_items(roots).len() == shown_roots(roots).len(),
        0 <= i < shown_roots(roots).len() ==> {
            let item = root_items(roots)[i];
            let root = shown_roots(roots)[i];
            &&& root.kind is Submenu
            &&& item is Submenu
            &&& item->Submenu_title == stripped(root.kind->Submenu_label@)
            &&& item->Submenu_enabled is None
            &&& item->items == submenu_items(root.kind->children@, true)
        },
    decreases roots.len(),
{
    reveal(Seq::filter);
    if roots.len() > 0 {
        lemma_root_item(roots.drop_last(), i);
        if let MenuKind::Submenu { children, .. } = roots.last().kind {
            lemma_submenu_item(children@, true, 0);
        }
    }
}

/// The menu bar starts with the menu of the application. Behind it come the menus in which an
/// entry stays, in order, each under its own label and with what stays in it.
pub proof fn law_menu_bar_shows_its_menus<M>(roots: Seq<MenuNode<M>>, i: int, path: Seq<int>)
    ensures
        main_items(roots).len() == 1 + shown_roots(roots).len(),
        main_items(roots)[0] is Submenu,
        main_items(roots)[0]->Submenu_title == "Application"@,
        0 <= i < shown_roots(roots).len() ==> {
            let item = main_items(roots)[1 + i];
            let root = shown_roots(roots)[i];
            let entry = staying_at(root.kind->children@, true, path);
            &&& root.kind is Submenu
            &&& item is Submenu
            &&& item->Submenu_title == stripped(root.kind->Submenu_label@)
            &&& item->Submenu_enabled is None
            &&& (item_at(item->items, path) is Some) == (entry is Some)
            &&& entry is Some ==> pictures(item_at(item->items, path)->0, entry->0)
        },
{
    lemma_root_item(roots, i);
    if 0 <= i < shown_roots(roots).len() {
        law_menu_shows_its_entries(shown_roots(roots)[i].kind->children@, true, path);
    }
}

} // verus!
