//! The menu bar: the application menu first, then the menus of the application.
use vstd::prelude::*;
use vstd::string::StringExecFns;

use crate::mac_menu::label::{strip_mnemonic, stripped};
use crate::mac_menu::plan::{
    all_behind, all_with, behind, build_leaf_item, build_submenu_filtered, find_role_items,
    first_with, in_order, leaf_model, models, submenu_items, ItemModel, NativeItem, NativeMenu,
    RoleItems,
};
use crate::mac_menu::shortcut::{
    command_shortcut, equivalent_of, equivalent_with, KeyEquivalentModel,
};
use crate::menu::model::{AppMenu, MenuKind, MenuNode, MenuRole, MenuShortcut, Modifiers};
use crate::text::lowercased;

verus! {

/// The shortcut of the command key and a text.
pub open spec fn command_with(text: Seq<char>) -> Option<KeyEquivalentModel> {
    equivalent_with(
        Some(lowercased(text)),
        Modifiers { shift: false, ctrl: false, alt: false, command: true },
    )
}

/// The item of an entry with a role, with a shortcut for want of another. Only a plain item is
/// shown: a separator, an item with a mark or a submenu is not.
pub open spec fn role_items<Message>(
    node: Option<MenuNode<Message>>,
    otherwise: Option<KeyEquivalentModel>,
) -> Seq<ItemModel> {
    match node {
        Some(node) => match node.kind {
            MenuKind::Item { label, enabled, shortcut, .. } => seq![
                leaf_model(
                    node.id,
                    label@,
                    enabled,
                    None,
                    if shortcut is Some {
                        equivalent_of(shortcut)
                    } else {
                        otherwise
                    },
                ),
            ],
            _ => Seq::empty(),
        },
        None => Seq::empty(),
    }
}

/// The items of entries that are specific to the application.
pub open spec fn specific_items<Message>(nodes: Seq<MenuNode<Message>>) -> Seq<ItemModel>
    decreases nodes.len(),
{
    if nodes.len() == 0 {
        Seq::empty()
    } else {
        specific_items(nodes.drop_last()) + role_items(Some(nodes.last()), None)
    }
}

/// A separator, on a condition.
pub open spec fn separator_if(condition: bool) -> Seq<ItemModel> {
    if condition {
        seq![ItemModel::Separator]
    } else {
        Seq::empty()
    }
}

/// The items of the application menu: what is about the application and a separator, its
/// preferences, its specific entries after a separator, a separator if any of these two are
/// there, and what quits it.
pub open spec fn application_items<Message>(nodes: Seq<MenuNode<Message>>) -> Seq<ItemModel> {
    let about = role_items(first_with(MenuRole::About, nodes), None);
    let preferences = first_with(MenuRole::Preferences, nodes);
    let specific = all_with(MenuRole::ApplicationSpecific, nodes);
    let quit = first_with(MenuRole::Quit, nodes);
    about + separator_if(about.len() > 0) + role_items(preferences, command_with(","@))
        + separator_if(specific.len() > 0) + specific_items(specific) + separator_if(
        preferences is Some || specific.len() > 0,
    ) + role_items(quit, command_with("q"@))
}

/// The items of the menus of the application. A menu whose entries have all moved to the
/// application menu is not shown.
pub open spec fn root_items<Message>(roots: Seq<MenuNode<Message>>) -> Seq<ItemModel>
    decreases roots.len(),
{
    if roots.len() == 0 {
        Seq::empty()
    } else {
        let before = root_items(roots.drop_last());
        match roots.last().kind {
            MenuKind::Submenu { label, children, .. } => {
                let items = submenu_items(children@, true);
                if items.len() == 0 {
                    before
                } else {
                    before.push(
                        ItemModel::Submenu { title: stripped(label@), enabled: None, items },
                    )
                }
            },
            _ => before,
        }
    }
}

/// The items of the menu bar.
pub open spec fn main_items<Message>(roots: Seq<MenuNode<Message>>) -> Seq<ItemModel> {
    seq![
        ItemModel::Submenu {
            title: "Application"@,
            enabled: None,
            items: application_items(in_order(roots)),
        },
    ] + root_items(roots)
}

/// What a list stands for, when an item is appended.
proof fn lemma_models_appended(items: Seq<NativeItem>, item: NativeItem)
    ensures
        models(items.push(item)) == models(items) + seq![item.model()],
{
    assert(items.push(item).drop_last() =~= items);
    assert(models(items.push(item)) =~= models(items) + seq![item.model()]);
}

/// Appends the item of an entry with a role, and tells whether there was one.
fn add_role_item<Message>(
    items: &mut Vec<NativeItem>,
    node: Option<&MenuNode<Message>>,
    otherwise: Option<&MenuShortcut>,
) -> (added: bool)
    ensures
        ({
            let more = role_items(
                behind(node),
                match otherwise {
                    Some(shortcut) => equivalent_of(Some(*shortcut)),
                    None => None,
                },
            );
            &&& models(final(items)@) == models(old(items)@) + more
            &&& added == (more.len() > 0)
        }),
{
    let ghost before = items@;
    if let Some(node) = node {
        if let MenuKind::Item { label, enabled, shortcut, .. } = &node.kind {
            let shortcut: Option<&MenuShortcut> = match shortcut {
                Some(shortcut) => Some(shortcut),
                None => otherwise,
            };
            let item: NativeItem = build_leaf_item(
                node.id,
                label.as_str(),
                *enabled,
                None,
                shortcut,
            );
            proof {
                lemma_models_appended(items@, item);
            }
            items.push(item);
            return true;
        }
    }
    assert(models(before) + Seq::empty() =~= models(before));
    false
}

/// Appends a separator, on a condition.
fn add_separator_if(items: &mut Vec<NativeItem>, condition: bool)
    ensures
        models(final(items)@) == models(old(items)@) + separator_if(condition),
{
    let ghost before = items@;
    if condition {
        proof {
            lemma_models_appended(items@, NativeItem::Separator);
        }
        items.push(NativeItem::Separator);
    } else {
        assert(models(before) + Seq::empty() =~= models(before));
    }
}

/// Builds the items of the application menu.
fn build_application_items<'a, Message>(
    roles: &RoleItems<'a, Message>,
    Ghost(nodes): Ghost<Seq<MenuNode<Message>>>,
) -> (items: Vec<NativeItem>)
    requires
        roles.holds(nodes),
    ensures
        models(items@) == application_items(nodes),
{
    let mut items: Vec<NativeItem> = Vec::new();
    let ghost about = role_items(first_with(MenuRole::About, nodes), None);
    let ghost preferences = first_with(MenuRole::Preferences, nodes);
    let ghost specific = all_with(MenuRole::ApplicationSpecific, nodes);
    let has_about: bool = add_role_item(&mut items, roles.about, None);
    assert(models(items@) =~= about);
    add_separator_if(&mut items, has_about);
    let comma: MenuShortcut = command_shortcut(",");
    let _ = add_role_item(&mut items, roles.preferences, Some(&comma));
    let len: usize = roles.app_specific.len();
    add_separator_if(&mut items, len > 0);
    let ghost start = models(items@);
    let mut i: usize = 0;
    proof {
        assert(specific.take(0) =~= Seq::empty());
        assert(start + specific_items(specific.take(0)) =~= start);
    }
    while i < len
        invariant
            0 <= i <= len,
            len == roles.app_specific@.len(),
            all_behind(roles.app_specific@) == specific,
            models(items@) == start + specific_items(specific.take(i as int)),
        decreases len - i,
    {
        proof {
            assert(specific[i as int] == *roles.app_specific@[i as int]);
            assert(specific.take(i + 1).drop_last() =~= specific.take(i as int));
            assert(specific.take(i + 1).last() == specific[i as int]);
        }
        let ghost before = specific_items(specific.take(i as int));
        let _ = add_role_item(&mut items, Some(roles.app_specific[i]), None);
        assert(models(items@) =~= start + (before + role_items(Some(specific[i as int]), None)));
        i = i + 1;
    }
    assert(specific.take(len as int) =~= specific);
    add_separator_if(&mut items, roles.preferences.is_some() || len > 0);
    let q: MenuShortcut = command_shortcut("q");
    let _ = add_role_item(&mut items, roles.quit, Some(&q));
    assert(models(items@) =~= application_items(nodes));
    items
}

/// Builds the menu bar.
pub fn build_main_menu<Message>(menu: &AppMenu<Message>) -> (r: NativeMenu)
    ensures
        models(r.items@) == main_items(menu.roots@),
{
    let roots: &[MenuNode<Message>] = menu.roots.as_slice();
    let roles: RoleItems<'_, Message> = find_role_items(roots);
    let app_items: Vec<NativeItem> = build_application_items(&roles, Ghost(in_order(roots@)));
    let mut items: Vec<NativeItem> = Vec::new();
    let app_item: NativeItem = NativeItem::Submenu {
        title: String::from_str("Application"),
        enabled: None,
        items: app_items,
    };
    proof {
        lemma_models_appended(items@, app_item);
    }
    let ghost first = seq![app_item.model()];
    items.push(app_item);
    let len: usize = roots.len();
    let mut i: usize = 0;
    proof {
        assert(roots@.take(0) =~= Seq::empty());
        assert(models(items@) =~= first + root_items(roots@.take(0)));
    }
    while i < len
        invariant
            0 <= i <= len,
            len == roots@.len(),
            models(items@) == first + root_items(roots@.take(i as int)),
        decreases len - i,
    {
        let root: &MenuNode<Message> = &roots[i];
        let ghost before = root_items(roots@.take(i as int));
        proof {
            assert(roots@.take(i + 1).drop_last() =~= roots@.take(i as int));
            assert(roots@.take(i + 1).last() == roots@[i as int]);
        }
        if let MenuKind::Submenu { label, children, .. } = &root.kind {
            let submenu: NativeMenu = build_submenu_filtered(children.as_slice(), true);
            proof {
                lemma_models_len(submenu.items@);
            }
            if submenu.items.len() > 0 {
                let item: NativeItem = NativeItem::Submenu {
                    title: strip_mnemonic(label.as_str()),
                    enabled: None,
                    items: submenu.items,
                };
                proof {
                    lemma_models_appended(items@, item);
                    assert((first + before) + seq![item.model()] =~= first + before.push(
                        item.model(),
                    ));
                }
                items.push(item);
            }
        }
        i = i + 1;
    }
    assert(roots@.take(len as int) =~= roots@);
    NativeMenu { items }
}

/// A list stands for as many items as it has.
proof fn lemma_models_len(items: Seq<NativeItem>)
    ensures
        models(items).len() == items.len(),
    decreases items.len(),
{
    if items.len() > 0 {
        lemma_models_len(items.drop_last());
    }
}

} // verus!
