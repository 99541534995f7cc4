//! What holds of native menus as a whole.
use vstd::prelude::*;

use crate::mac_menu::main_menu::{
    application_items, main_items, role_items, root_items, specific_items,
};
use crate::mac_menu::plan::{
    all_with, context_items, first_with, in_order, item_with, law_tags_are_read_back,
    submenu_items, tag_of, tagged, ItemModel,
};
use crate::menu::model::{activation, MenuKind, MenuNode, MenuRole};

verus! {

/// Whether a tag is on an item, or on an item of its submenu.
pub open spec fn bears(item: ItemModel, tag: int) -> bool
    decreases item,
{
    match item {
        ItemModel::Separator => false,
        ItemModel::Leaf { tag: t, .. } => t == tag,
        ItemModel::Submenu { items, .. } => exists|i: int|
            0 <= i < items.len() && bears(#[trigger] items[i], tag),
    }
}

/// Whether a tag is in a list of items.
pub open spec fn shows(items: Seq<ItemModel>, tag: int) -> bool {
    exists|i: int| 0 <= i < items.len() && bears(#[trigger] items[i], tag)
}

proof fn lemma_shows_push(items: Seq<ItemModel>, item: ItemModel, tag: int)
    ensures
        shows(items.push(item), tag) <==> shows(items, tag) || bears(item, tag),
{
    let more = items.push(item);
    if shows(items, tag) {
        let i = choose|i: int| 0 <= i < items.len() && bears(#[trigger] items[i], tag);
        assert(bears(more[i], tag));
    }
    if bears(item, tag) {
        assert(bears(more[items.len() as int], tag));
    }
    if shows(more, tag) {
        let i = choose|i: int| 0 <= i < more.len() && bears(#[trigger] more[i], tag);
        if i < items.len() {
            assert(bears(items[i], tag));
        }
    }
}

proof fn lemma_shows_concat(a: Seq<ItemModel>, b: Seq<ItemModel>, tag: int)
    ensures
        shows(a + b, tag) <==> shows(a, tag) || shows(b, tag),
    decreases b.len(),
{
    if b.len() == 0 {
        assert(a + b =~= a);
    } else {
        lemma_shows_concat(a, b.drop_last(), tag);
        lemma_shows_push(a + b.drop_last(), b.last(), tag);
        lemma_shows_push(b.drop_last(), b.last(), tag);
        assert((a + b.drop_last()).push(b.last()) =~= a + b);
        assert(b.drop_last().push(b.last()) =~= b);
    }
}

/// A tag on the item of an entry that is no submenu is the tag of the entry, which has a
/// message.
proof fn lemma_tag_of_item<M>(node: MenuNode<M>, below: Seq<ItemModel>, tag: i64)
    requires
        bears(item_with(node, below), tag as int),
    ensures
        node.kind is Submenu ==> shows(below, tag as int),
        !(node.kind is Submenu) ==> node.id == tagged(tag) && node.message() is Some,
{
    law_tags_are_read_back(node.id);
}

/// Choosing any item of a native context menu answers with a message: the tag of every item
/// leads to an entry that has one.
pub proof fn law_every_context_item_answers<M>(nodes: Seq<MenuNode<M>>, tag: i64)
    requires
        shows(context_items(nodes), tag as int),
    ensures
        activation(tagged(tag), nodes) is Some,
    decreases nodes,
{
    if nodes.len() > 0 {
        let node = nodes.last();
        let below = match node.kind {
            MenuKind::Submenu { children, .. } => context_items(children@),
            _ => Seq::empty(),
        };
        let before = context_items(nodes.drop_last());
        lemma_shows_push(before, item_with(node, below), tag as int);
        if shows(before, tag as int) {
            law_every_context_item_answers(nodes.drop_last(), tag);
        } else {
            lemma_tag_of_item(node, below, tag);
            if let MenuKind::Submenu { children, .. } = node.kind {
                law_every_context_item_answers(children@, tag);
            }
        }
    } else {
        assert(false);
    }
}

/// A submenu of the menu bar shows nothing but entries of the menu that it is made of.
proof fn lemma_submenu_item_answers<M>(nodes: Seq<MenuNode<M>>, skip_hollow: bool, tag: i64)
    requires
        shows(submenu_items(nodes, skip_hollow), tag as int),
    ensures
        activation(tagged(tag), nodes) is Some,
    decreases nodes,
{
    if nodes.len() > 0 {
        let node = nodes.last();
        let below = match node.kind {
            MenuKind::Submenu { children, .. } => submenu_items(children@, false),
            _ => Seq::empty(),
        };
        let before = submenu_items(nodes.drop_last(), skip_hollow);
        lemma_shows_push(before, item_with(node, below), tag as int);
        if shows(before, tag as int) {
            lemma_submenu_item_answers(nodes.drop_last(), skip_hollow, tag);
        } else {
            lemma_tag_of_item(node, below, tag);
            if let MenuKind::Submenu { children, .. } = node.kind {
                lemma_submenu_item_answers(children@, false, tag);
            }
        }
    } else {
        assert(false);
    }
}

proof fn lemma_root_item_answers<M>(roots: Seq<MenuNode<M>>, tag: i64)
    requires
        shows(root_items(roots), tag as int),
    ensures
        activation(tagged(tag), roots) is Some,
    decreases roots.len(),
{
    if roots.len() > 0 {
        let before = root_items(roots.drop_last());
        if shows(before, tag as int) {
            lemma_root_item_answers(roots.drop_last(), tag);
        } else if let MenuKind::Submenu { label, children, .. } = roots.last().kind {
            let items = submenu_items(children@, true);
            let item = ItemModel::Submenu {
                title: crate::mac_menu::label::stripped(label@),
                enabled: None,
                items,
            };
            lemma_shows_push(before, item, tag as int);
            assert(shows(items, tag as int));
            lemma_submenu_item_answers(children@, true, tag);
        }
    } else {
        assert(false);
    }
}

/// An entry that a menu holds anywhere, and that has a message, answers to its identifier.
proof fn lemma_entry_answers<M>(nodes: Seq<MenuNode<M>>, node: MenuNode<M>)
    requires
        in_order(nodes).contains(node),
        node.message() is Some,
    ensures
        activation(node.id, nodes) is Some,
    decreases nodes,
{
    let all = in_order(nodes);
    let i = choose|i: int| 0 <= i < all.len() && all[i] == node;
    if nodes.len() > 0 {
        let last = nodes.last();
        let before = in_order(nodes.drop_last());
        if i < before.len() {
            assert(before[i] == node);
            lemma_entry_answers(nodes.drop_last(), node);
        } else if i > before.len() {
            if let MenuKind::Submenu { children, .. } = last.kind {
                assert(in_order(children@)[i - before.len() - 1] == node);
                lemma_entry_answers(children@, node);
            }
        }
    }
}

proof fn lemma_first_is_held<M>(role: MenuRole, nodes: Seq<MenuNode<M>>)
    requires
        first_with(role, nodes) is Some,
    ensures
        nodes.contains(first_with(role, nodes)->0),
        first_with(role, nodes)->0.role == role,
    decreases nodes.len(),
{
    if nodes.len() > 0 {
        if first_with(role, nodes.drop_last()) is Some {
            lemma_first_is_held(role, nodes.drop_last());
            let node = first_with(role, nodes)->0;
            let i = choose|i: int|
                0 <= i < nodes.drop_last().len() && nodes.drop_last()[i] == node;
            assert(nodes[i] == node);
        } else {
            assert(nodes[nodes.len() - 1] == nodes.last());
        }
    }
}

proof fn lemma_all_are_held<M>(role: MenuRole, nodes: Seq<MenuNode<M>>, i: int)
    requires
        0 <= i < all_with(role, nodes).len(),
    ensures
        nodes.contains(all_with(role, nodes)[i]),
        all_with(role, nodes)[i].role == role,
    decreases nodes.len(),
{
    if nodes.len() > 0 {
        let before = all_with(role, nodes.drop_last());
        if i < before.len() {
            lemma_all_are_held(role, nodes.drop_last(), i);
            let node = before[i];
            let j = choose|j: int|
                0 <= j < nodes.drop_last().len() && nodes.drop_last()[j] == node;
            assert(nodes[j] == node);
        } else {
            assert(nodes[nodes.len() - 1] == nodes.last());
        }
    }
}

proof fn lemma_role_item_answers<M>(
    roots: Seq<MenuNode<M>>,
    node: Option<MenuNode<M>>,
    otherwise: Option<crate::mac_menu::shortcut::KeyEquivalentModel>,
    tag: i64,
)
    requires
        shows(role_items(node, otherwise), tag as int),
        node is Some ==> in_order(roots).contains(node->0),
    ensures
        activation(tagged(tag), roots) is Some,
{
    let items = role_items(node, otherwise);
    let i = choose|i: int| 0 <= i < items.len() && bears(#[trigger] items[i], tag as int);
    law_tags_are_read_back(node->0.id);
    lemma_entry_answers(roots, node->0);
}

proof fn lemma_specific_item_answers<M>(
    roots: Seq<MenuNode<M>>,
    nodes: Seq<MenuNode<M>>,
    tag: i64,
)
    requires
        shows(specific_items(nodes), tag as int),
        forall|i: int| 0 <= i < nodes.len() ==> in_order(roots).contains(#[trigger] nodes[i]),
    ensures
        activation(tagged(tag), roots) is Some,
    decreases nodes.len(),
{
    if nodes.len() > 0 {
        let before = specific_items(nodes.drop_last());
        lemma_shows_concat(before, role_items(Some(nodes.last()), None), tag as int);
        if shows(before, tag as int) {
            assert forall|i: int| 0 <= i < nodes.drop_last().len() implies in_order(
                roots,
            ).contains(#[trigger] nodes.drop_last()[i]) by {
                assert(in_order(roots).contains(nodes[i]));
            }
            lemma_specific_item_answers(roots, nodes.drop_last(), tag);
        } else {
            assert(in_order(roots).contains(nodes[nodes.len() - 1]));
            lemma_role_item_answers(roots, Some(nodes.last()), None, tag);
        }
    } else {
        assert(false);
    }
}

proof fn lemma_separators_show_nothing(condition: bool, tag: int)
    ensures
        !shows(crate::mac_menu::main_menu::separator_if(condition), tag),
{
}

proof fn lemma_application_item_answers<M>(roots: Seq<MenuNode<M>>, tag: i64)
    requires
        shows(application_items(in_order(roots)), tag as int),
    ensures
        activation(tagged(tag), roots) is Some,
{
    let nodes = in_order(roots);
    let t = tag as int;
    let about = role_items(first_with(MenuRole::About, nodes), None);
    let preferences = first_with(MenuRole::Preferences, nodes);
    let specific = all_with(MenuRole::ApplicationSpecific, nodes);
    let quit = first_with(MenuRole::Quit, nodes);
    let comma = crate::mac_menu::main_menu::command_with(","@);
    let q = crate::mac_menu::main_menu::command_with("q"@);
    let s1 = crate::mac_menu::main_menu::separator_if(about.len() > 0);
    let s2 = crate::mac_menu::main_menu::separator_if(specific.len() > 0);
    let s3 = crate::mac_menu::main_menu::separator_if(preferences is Some || specific.len() > 0);
    let p1 = about + s1;
    let p2 = p1 + role_items(preferences, comma);
    let p3 = p2 + s2;
    let p4 = p3 + specific_items(specific);
    let p5 = p4 + s3;
    lemma_shows_concat(about, s1, t);
    lemma_shows_concat(p1, role_items(preferences, comma), t);
    lemma_shows_concat(p2, s2, t);
    lemma_shows_concat(p3, specific_items(specific), t);
    lemma_shows_concat(p4, s3, t);
    lemma_shows_concat(p5, role_items(quit, q), t);
    lemma_separators_show_nothing(about.len() > 0, t);
    lemma_separators_show_nothing(specific.len() > 0, t);
    lemma_separators_show_nothing(preferences is Some || specific.len() > 0, t);
    if shows(about, t) {
        if first_with(MenuRole::About, nodes) is Some {
            lemma_first_is_held(MenuRole::About, nodes);
        }
        lemma_role_item_answers(roots, first_with(MenuRole::About, nodes), None, tag);
    } else if shows(role_items(preferences, comma), t) {
        if preferences is Some {
            lemma_first_is_held(MenuRole::Preferences, nodes);
        }
        lemma_role_item_answers(roots, preferences, comma, tag);
    } else if shows(specific_items(specific), t) {
        assert forall|i: int| 0 <= i < specific.len() implies nodes.contains(
            #[trigger] specific[i],
        ) by {
            lemma_all_are_held(MenuRole::ApplicationSpecific, nodes, i);
        }
        lemma_specific_item_answers(roots, specific, tag);
    } else {
        if quit is Some {
            lemma_first_is_held(MenuRole::Quit, nodes);
        }
        lemma_role_item_answers(roots, quit, q, tag);
    }
}

/// Choosing any item of the menu bar answers with a message.
pub proof fn law_every_menu_bar_item_answers<M>(roots: Seq<MenuNode<M>>, tag: i64)
    requires
        shows(main_items(roots), tag as int),
    ensures
        activation(tagged(tag), roots) is Some,
{
    let first = ItemModel::Submenu {
        title: "Application"@,
        enabled: None,
        items: application_items(in_order(roots)),
    };
    lemma_shows_concat(seq![first], root_items(roots), tag as int);
    if shows(root_items(roots), tag as int) {
        lemma_root_item_answers(roots, tag);
    } else {
        let i = choose|i: int| 0 <= i < 1 && bears(#[trigger] seq![first][i], tag as int);
        assert(bears(first, tag as int));
        lemma_application_item_answers(roots, tag);
    }
}

/// The entries of a list that have no role, in order.
pub open spec fn without_roles<M>(nodes: Seq<MenuNode<M>>) -> Seq<MenuNode<M>> {
    all_with(MenuRole::Ordinary, nodes)
}

/// An entry that has moved to the application menu leaves no trace in its own menu.
pub proof fn law_entries_with_roles_leave_their_menu<M>(
    nodes: Seq<MenuNode<M>>,
    skip_hollow: bool,
)
    ensures
        submenu_items(nodes, skip_hollow) == submenu_items(without_roles(nodes), skip_hollow),
    decreases nodes.len(),
{
    if nodes.len() > 0 {
        law_entries_with_roles_leave_their_menu(nodes.drop_last(), skip_hollow);
        if nodes.last().role == MenuRole::Ordinary {
            let kept = without_roles(nodes);
            assert(kept.drop_last() =~= without_roles(nodes.drop_last()));
            assert(kept.last() == nodes.last());
        }
    }
}

/// Wherever it stands in the menu, the entry that quits the application comes last in the
/// application menu.
pub proof fn law_quit_comes_last<M>(roots: Seq<MenuNode<M>>)
    requires
        first_with(MenuRole::Quit, in_order(roots)) is Some,
        first_with(MenuRole::Quit, in_order(roots))->0.kind is Item,
    ensures
        ({
            let items = application_items(in_order(roots));
            let quit = first_with(MenuRole::Quit, in_order(roots))->0;
            &&& items.len() > 0
            &&& bears(items.last(), tag_of(quit.id) as int)
        }),
{
    let nodes = in_order(roots);
    let quit = first_with(MenuRole::Quit, nodes);
    let q = crate::mac_menu::main_menu::command_with("q"@);
    let items = application_items(nodes);
    assert(role_items(quit, q).len() == 1);
    assert(items.last() == role_items(quit, q)[0]);
}

} // verus!
