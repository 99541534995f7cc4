//! The native menus that are made of menu entries.
use vstd::prelude::*;

use crate::mac_menu::label::{strip_mnemonic, stripped};
use crate::mac_menu::shortcut::{
    apply_shortcut, equivalent_of, key_view, KeyEquivalent, KeyEquivalentModel,
};
use crate::menu::model::{
    ContextMenuItem, ContextMenuItemKind, MenuId, MenuKind, MenuNode, MenuRole, MenuShortcut,
};

verus! {

/// An item of a native menu.
#[derive(Debug)]
pub enum NativeItem {
    Separator,
    /// An item with a menu of its own. Whether it is enabled may be left to the platform.
    Submenu { title: String, enabled: Option<bool>, items: Vec<NativeItem> },
    /// An item that can be activated. Its tag tells which entry it stands for.
    Leaf { title: String, enabled: bool, tag: i64, state: i64, key: Option<KeyEquivalent> },
}

/// A native menu.
#[derive(Debug)]
pub struct NativeMenu {
    pub items: Vec<NativeItem>,
}

/// What a `NativeItem` stands for.
pub enum ItemModel {
    Separator,
    Submenu { title: Seq<char>, enabled: Option<bool>, items: Seq<ItemModel> },
    Leaf {
        title: Seq<char>,
        enabled: bool,
        tag: int,
        state: int,
        key: Option<KeyEquivalentModel>,
    },
}

impl NativeItem {
    /// What the item stands for.
    pub open spec fn model(self) -> ItemModel
        decreases self,
    {
        match self {
            NativeItem::Separator => ItemModel::Separator,
            NativeItem::Submenu { title, enabled, items } => ItemModel::Submenu {
                title: title@,
                enabled,
                items: models(items@),
            },
            NativeItem::Leaf { title, enabled, tag, state, key } => ItemModel::Leaf {
                title: title@,
                enabled,
                tag: tag as int,
                state: state as int,
                key: key_view(key),
            },
        }
    }
}

/// What a list of items stands for.
pub open spec fn models(items: Seq<NativeItem>) -> Seq<ItemModel>
    decreases items,
{
    if items.len() == 0 {
        Seq::empty()
    } else {
        models(items.drop_last()).push(items.last().model())
    }
}

/// What a list stands for grows with the list.
proof fn lemma_models_push(items: Seq<NativeItem>, item: NativeItem)
    ensures
        models(items.push(item)) == models(items).push(item.model()),
{
    assert(items.push(item).drop_last() =~= items);
}

/// The tag of an entry: its identifier as a signed number.
pub open spec fn tag_of(id: MenuId) -> i64 {
    id.0 as i64
}

/// The entry that a tag stands for.
pub open spec fn tagged(tag: i64) -> MenuId {
    MenuId(tag as u64)
}

/// The identifier of an activated entry is the one that it was built with.
pub proof fn law_tags_are_read_back(id: MenuId)
    ensures
        tagged(tag_of(id)) == id,
{
    let n = id.0;
    assert((n as i64) as u64 == n) by (bit_vector);
}

/// Gives the identifier of the entry that was activated.
pub fn activated(tag: i64) -> (r: MenuId)
    ensures
        r == tagged(tag),
{
    MenuId(tag as u64)
}

/// An item that can be activated.
pub open spec fn leaf_model(
    id: MenuId,
    label: Seq<char>,
    enabled: bool,
    checked: Option<bool>,
    key: Option<KeyEquivalentModel>,
) -> ItemModel {
    ItemModel::Leaf {
        title: stripped(label),
        enabled,
        tag: tag_of(id) as int,
        state: if checked == Some(true) {
            1
        } else {
            0
        },
        key,
    }
}

/// Builds an item that can be activated.
pub fn build_leaf_item(
    id: MenuId,
    label: &str,
    enabled: bool,
    checked: Option<bool>,
    shortcut: Option<&MenuShortcut>,
) -> (r: NativeItem)
    ensures
        r.model() == leaf_model(
            id,
            label@,
            enabled,
            checked,
            match shortcut {
                Some(shortcut) => equivalent_of(Some(*shortcut)),
                None => None,
            },
        ),
{
    let state: i64 = match checked {
        Some(true) => 1,
        Some(false) => 0,
        None => 0,
    };
    let key: Option<KeyEquivalent> = match shortcut {
        Some(shortcut) => apply_shortcut(shortcut),
        None => None,
    };
    NativeItem::Leaf { title: strip_mnemonic(label), enabled, tag: id.0 as i64, state, key }
}

/// The entries of a menu, each followed by the entries of its submenu.
pub open spec fn in_order<Message>(nodes: Seq<MenuNode<Message>>) -> Seq<MenuNode<Message>>
    decreases nodes,
{
    if nodes.len() == 0 {
        Seq::empty()
    } else {
        let node = nodes.last();
        let below = match node.kind {
            MenuKind::Submenu { children, .. } => in_order(children@),
            _ => Seq::empty(),
        };
        in_order(nodes.drop_last()).push(node) + below
    }
}

/// The first entry with a role.
pub open spec fn first_with<Message>(role: MenuRole, nodes: Seq<MenuNode<Message>>) -> Option<
    MenuNode<Message>,
>
    decreases nodes.len(),
{
    if nodes.len() == 0 {
        None
    } else {
        match first_with(role, nodes.drop_last()) {
            Some(node) => Some(node),
            None => if nodes.last().role == role {
                Some(nodes.last())
            } else {
                None
            },
        }
    }
}

/// The entries with a role, in order.
pub open spec fn all_with<Message>(role: MenuRole, nodes: Seq<MenuNode<Message>>) -> Seq<
    MenuNode<Message>,
>
    decreases nodes.len(),
{
    if nodes.len() == 0 {
        Seq::empty()
    } else if nodes.last().role == role {
        all_with(role, nodes.drop_last()).push(nodes.last())
    } else {
        all_with(role, nodes.drop_last())
    }
}

/// The entries that are shown in a submenu: those without a role, and on request no submenu
/// without entries.
pub open spec fn is_shown<Message>(node: MenuNode<Message>, skip_hollow: bool) -> bool {
    node.role == MenuRole::Ordinary && !(skip_hollow && node.is_hollow())
}

/// An entry as an item of a native menu, given the items of its submenu.
pub open spec fn item_with<Message>(node: MenuNode<Message>, below: Seq<ItemModel>) -> ItemModel {
    match node.kind {
        MenuKind::Separator => ItemModel::Separator,
        MenuKind::Submenu { label, enabled, .. } => ItemModel::Submenu {
            title: stripped(label@),
            enabled: Some(enabled),
            items: below,
        },
        MenuKind::Item { label, enabled, shortcut, .. } => leaf_model(
            node.id,
            label@,
            enabled,
            None,
            equivalent_of(shortcut),
        ),
        MenuKind::CheckItem { label, enabled, checked, shortcut, .. } => leaf_model(
            node.id,
            label@,
            enabled,
            checked,
            equivalent_of(shortcut),
        ),
    }
}

/// The items of a context menu: all entries.
pub open spec fn context_items<Message>(nodes: Seq<MenuNode<Message>>) -> Seq<ItemModel>
    decreases nodes,
{
    if nodes.len() == 0 {
        Seq::empty()
    } else {
        let node = nodes.last();
        let below = match node.kind {
            MenuKind::Submenu { children, .. } => context_items(children@),
            _ => Seq::empty(),
        };
        context_items(nodes.drop_last()).push(item_with(node, below))
    }
}

/// The items of a submenu of the menu bar: the entries without a role.
pub open spec fn submenu_items<Message>(nodes: Seq<MenuNode<Message>>, skip_hollow: bool) -> Seq<
    ItemModel,
>
    decreases nodes,
{
    if nodes.len() == 0 {
        Seq::empty()
    } else {
        let node = nodes.last();
        let before = submenu_items(nodes.drop_last(), skip_hollow);
        if is_shown(node, skip_hollow) {
            let below = match node.kind {
                MenuKind::Submenu { children, .. } => submenu_items(children@, false),
                _ => Seq::empty(),
            };
            before.push(item_with(node, below))
        } else {
            before
        }
    }
}

/// The items of a context menu that is made of entries without messages.
pub open spec fn plain_context_items(items: Seq<ContextMenuItem>) -> Seq<ItemModel>
    decreases items,
{
    if items.len() == 0 {
        Seq::empty()
    } else {
        let item = items.last();
        plain_context_items(items.drop_last()).push(
            match item.kind {
                ContextMenuItemKind::Separator => ItemModel::Separator,
                ContextMenuItemKind::Submenu { label, children } => ItemModel::Submenu {
                    title: stripped(label@),
                    enabled: Some(true),
                    items: plain_context_items(children@),
                },
                ContextMenuItemKind::Item { label, enabled } => leaf_model(
                    item.id,
                    label@,
                    enabled,
                    None,
                    None,
                ),
                ContextMenuItemKind::CheckItem { label, enabled, checked } => leaf_model(
                    item.id,
                    label@,
                    enabled,
                    checked,
                    None,
                ),
            },
        )
    }
}

/// Builds the item of an entry that is no submenu.
fn build_plain_item<Message>(node: &MenuNode<Message>) -> (r: NativeItem)
    requires
        !(node.kind is Submenu),
    ensures
        r.model() == item_with(*node, Seq::empty()),
{
    match &node.kind {
        MenuKind::Item { label, enabled, shortcut, .. } => build_leaf_item(
            node.id,
            label.as_str(),
            *enabled,
            None,
            shortcut.as_ref(),
        ),
        MenuKind::CheckItem { label, enabled, checked, shortcut, .. } => build_leaf_item(
            node.id,
            label.as_str(),
            *enabled,
            *checked,
            shortcut.as_ref(),
        ),
        _ => NativeItem::Separator,
    }
}

/// Builds the items of a context menu.
pub fn build_context_menu<Message>(nodes: &[MenuNode<Message>]) -> (r: NativeMenu)
    ensures
        models(r.items@) == context_items(nodes@),
    decreases nodes@,
{
    let mut items: Vec<NativeItem> = Vec::new();
    let len: usize = nodes.len();
    let mut i: usize = 0;
    assert(nodes@.take(0) =~= Seq::empty());
    while i < len
        invariant
            0 <= i <= len,
            len == nodes@.len(),
            models(items@) == context_items(nodes@.take(i as int)),
        decreases len - i,
    {
        let node: &MenuNode<Message> = &nodes[i];
        proof {
            assert(nodes@.take(i + 1).drop_last() =~= nodes@.take(i as int));
            assert(nodes@.take(i + 1).last() == nodes@[i as int]);
            assert(decreases_to!(nodes@ => nodes@[i as int]));
        }
        let item: NativeItem = match &node.kind {
            MenuKind::Submenu { label, enabled, children } => {
                let below: NativeMenu = build_context_menu(children.as_slice());
                NativeItem::Submenu {
                    title: strip_mnemonic(label.as_str()),
                    enabled: Some(*enabled),
                    items: below.items,
                }
            },
            _ => build_plain_item(node),
        };
        proof {
            lemma_models_push(items@, item);
        }
        items.push(item);
        i = i + 1;
    }
    assert(nodes@.take(len as int) =~= nodes@);
    NativeMenu { items }
}

/// Builds the items of a context menu out of entries without messages.
pub fn build_context_menu_from_items(entries: &[ContextMenuItem]) -> (r: NativeMenu)
    ensures
        models(r.items@) == plain_context_items(entries@),
    decreases entries@,
{
    let mut items: Vec<NativeItem> = Vec::new();
    let len: usize = entries.len();
    let mut i: usize = 0;
    assert(entries@.take(0) =~= Seq::empty());
    while i < len
        invariant
            0 <= i <= len,
            len == entries@.len(),
            models(items@) == plain_context_items(entries@.take(i as int)),
        decreases len - i,
    {
        let entry: &ContextMenuItem = &entries[i];
        proof {
            assert(entries@.take(i + 1).drop_last() =~= entries@.take(i as int));
            assert(entries@.take(i + 1).last() == entries@[i as int]);
            assert(decreases_to!(entries@ => entries@[i as int]));
        }
        let item: NativeItem = match &entry.kind {
            ContextMenuItemKind::Separator => NativeItem::Separator,
            ContextMenuItemKind::Submenu { label, children } => {
                let below: NativeMenu = build_context_menu_from_items(children.as_slice());
                NativeItem::Submenu {
                    title: strip_mnemonic(label.as_str()),
                    enabled: Some(true),
                    items: below.items,
                }
            },
            ContextMenuItemKind::Item { label, enabled } => build_leaf_item(
                entry.id,
                label.as_str(),
                *enabled,
                None,
                None,
            ),
            ContextMenuItemKind::CheckItem { label, enabled, checked } => build_leaf_item(
                entry.id,
                label.as_str(),
                *enabled,
                *checked,
                None,
            ),
        };
        proof {
            lemma_models_push(items@, item);
        }
        items.push(item);
        i = i + 1;
    }
    assert(entries@.take(len as int) =~= entries@);
    NativeMenu { items }
}

/// Builds the items of a submenu of the menu bar, on request without submenus that have no
/// entries.
pub fn build_submenu_filtered<Message>(children: &[MenuNode<Message>], skip_hollow: bool) -> (r:
    NativeMenu)
    ensures
        models(r.items@) == submenu_items(children@, skip_hollow),
    decreases children@,
{
    let mut items: Vec<NativeItem> = Vec::new();
    let len: usize = children.len();
    let mut i: usize = 0;
    assert(children@.take(0) =~= Seq::empty());
    while i < len
        invariant
            0 <= i <= len,
            len == children@.len(),
            models(items@) == submenu_items(children@.take(i as int), skip_hollow),
        decreases len - i,
    {
        let node: &MenuNode<Message> = &children[i];
        proof {
            assert(children@.take(i + 1).drop_last() =~= children@.take(i as int));
            assert(children@.take(i + 1).last() == children@[i as int]);
            assert(decreases_to!(children@ => children@[i as int]));
        }
        if node.role == MenuRole::Ordinary && !(skip_hollow && node.is_empty_submenu()) {
            let item: NativeItem = match &node.kind {
                MenuKind::Submenu { label, enabled, children: below } => {
                    let below: NativeMenu = build_submenu_filtered(below.as_slice(), false);
                    NativeItem::Submenu {
                        title: strip_mnemonic(label.as_str()),
                        enabled: Some(*enabled),
                        items: below.items,
                    }
                },
                _ => build_plain_item(node),
            };
            proof {
                lemma_models_push(items@, item);
            }
            items.push(item);
        }
        i = i + 1;
    }
    assert(children@.take(len as int) =~= children@);
    NativeMenu { items }
}

/// Builds the items of a submenu of the menu bar.
pub fn build_submenu<Message>(children: &[MenuNode<Message>]) -> (r: NativeMenu)
    ensures
        models(r.items@) == submenu_items(children@, false),
{
    build_submenu_filtered(children, false)
}

/// The entries that have a place in the application menu.
#[derive(Debug)]
pub struct RoleItems<'a, Message> {
    pub about: Option<&'a MenuNode<Message>>,
    pub preferences: Option<&'a MenuNode<Message>>,
    pub quit: Option<&'a MenuNode<Message>>,
    pub app_specific: Vec<&'a MenuNode<Message>>,
}

/// The entry behind an optional reference.
pub open spec fn behind<T>(r: Option<&T>) -> Option<T> {
    match r {
        Some(node) => Some(*node),
        None => None,
    }
}

/// The entries behind references.
pub open spec fn all_behind<T>(list: Seq<&T>) -> Seq<T> {
    Seq::new(list.len(), |i: int| *list[i])
}

impl<'a, Message> RoleItems<'a, Message> {
    /// Whether these are the entries with roles among a list: the first that is about the
    /// application, that opens its preferences and that quits it, and all specific ones.
    pub open spec fn holds(self, nodes: Seq<MenuNode<Message>>) -> bool {
        &&& behind(self.about) == first_with(MenuRole::About, nodes)
        &&& behind(self.preferences) == first_with(MenuRole::Preferences, nodes)
        &&& behind(self.quit) == first_with(MenuRole::Quit, nodes)
        &&& all_behind(self.app_specific@) == all_with(MenuRole::ApplicationSpecific, nodes)
    }
}

/// Adds the entries with roles among a list, and below it, to those found before.
fn collect_role_items<'a, Message>(
    nodes: &'a [MenuNode<Message>],
    found: &mut RoleItems<'a, Message>,
    Ghost(before): Ghost<Seq<MenuNode<Message>>>,
)
    requires
        old(found).holds(before),
    ensures
        final(found).holds(before + in_order(nodes@)),
    decreases nodes@,
{
    let len: usize = nodes.len();
    let mut i: usize = 0;
    proof {
        assert(nodes@.take(0) =~= Seq::empty());
        assert(before + in_order(nodes@.take(0)) =~= before);
    }
    while i < len
        invariant
            0 <= i <= len,
            len == nodes@.len(),
            found.holds(before + in_order(nodes@.take(i as int))),
        decreases len - i,
    {
        let node: &'a MenuNode<Message> = &nodes[i];
        let ghost so_far = before + in_order(nodes@.take(i as int));
        let ghost specific = found.app_specific@;
        proof {
            assert(nodes@.take(i + 1).drop_last() =~= nodes@.take(i as int));
            assert(nodes@.take(i + 1).last() == nodes@[i as int]);
            assert(decreases_to!(nodes@ => nodes@[i as int]));
            assert(so_far.push(*node).drop_last() =~= so_far);
        }
        match node.role {
            MenuRole::About => {
                if found.about.is_none() {
                    found.about = Some(node);
                }
            },
            MenuRole::Preferences => {
                if found.preferences.is_none() {
                    found.preferences = Some(node);
                }
            },
            MenuRole::Quit => {
                if found.quit.is_none() {
                    found.quit = Some(node);
                }
            },
            MenuRole::ApplicationSpecific => {
                found.app_specific.push(node);
                assert(all_behind(found.app_specific@) =~= all_behind(specific).push(*node));
            },
            MenuRole::Ordinary => {},
        }
        assert(found.holds(so_far.push(*node)));
        if let MenuKind::Submenu { children, .. } = &node.kind {
            collect_role_items(children.as_slice(), found, Ghost(so_far.push(*node)));
            assert(before + in_order(nodes@.take(i + 1)) =~= so_far.push(*node) + in_order(
                children@,
            ));
        } else {
            assert(before + in_order(nodes@.take(i + 1)) =~= so_far.push(*node));
        }
        i = i + 1;
    }
    assert(nodes@.take(len as int) =~= nodes@);
}

/// Finds the entries that have a place in the application menu.
pub fn find_role_items<'a, Message>(nodes: &'a [MenuNode<Message>]) -> (r: RoleItems<'a, Message>)
    ensures
        r.holds(in_order(nodes@)),
{
    let mut found: RoleItems<'a, Message> = RoleItems {
        about: None,
        preferences: None,
        quit: None,
        app_specific: Vec::new(),
    };
    assert(all_behind(found.app_specific@) =~= Seq::empty());
    collect_role_items(nodes, &mut found, Ghost(Seq::empty()));
    assert(Seq::empty() + in_order(nodes@) =~= in_order(nodes@));
    found
}

} // verus!
