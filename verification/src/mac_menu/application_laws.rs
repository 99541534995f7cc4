//! What the application menu shows of the entries with a role.
use vstd::prelude::*;

use crate::mac_menu::item_laws::{entry_at, is_leaf};
use crate::mac_menu::main_menu::{
    application_items, command_with, main_items, role_items, separator_if, specific_items,
};
use crate::mac_menu::plan::{all_with, first_with, in_order, ItemModel};
use crate::mac_menu::shortcut::{equivalent_of, KeyEquivalentModel};
use crate::menu::model::{MenuKind, MenuNode, MenuRole};
use crate::text::lowercased;

verus! {

/// The entries with a role, in order.
pub open spec fn playing<M>(role: MenuRole, nodes: Seq<MenuNode<M>>) -> Seq<MenuNode<M>> {
    nodes.filter(|node: MenuNode<M>| node.role == role)
}

/// The entries that are plain items.
pub open spec fn plain<M>(nodes: Seq<MenuNode<M>>) -> Seq<MenuNode<M>> {
    nodes.filter(|node: MenuNode<M>| node.kind is Item)
}

/// The first of some entries, if there is one.
pub open spec fn at_most_one<M>(nodes: Seq<MenuNode<M>>) -> Seq<MenuNode<M>> {
    if nodes.len() > 0 {
        seq![nodes[0]]
    } else {
        Seq::empty()
    }
}

/// The items that are no separators.
pub open spec fn without_separators(items: Seq<ItemModel>) -> Seq<ItemModel> {
    items.filter(|item: ItemModel| !(item is Separator))
}

/// The shortcut of a text together with the command key, and no other modifier.
pub open spec fn with_command(text: Seq<char>) -> Option<KeyEquivalentModel> {
    Some(KeyEquivalentModel { key: lowercased(text), modifier_mask: 0x10_0000 })
}

/// Whether an item of the application menu shows an entry for what it is. The entry has its own
/// shortcut, or one that is usual for its role.
pub open spec fn pictures_role<M>(item: ItemModel, node: MenuNode<M>) -> bool {
    match node.kind {
        MenuKind::Item { label, enabled, shortcut, .. } => is_leaf(
            item,
            node.id,
            label@,
            enabled,
            false,
            if shortcut is Some {
                equivalent_of(shortcut)
            } else {
                match node.role {
                    MenuRole::Preferences => with_command(","@),
                    MenuRole::Quit => with_command("q"@),
                    _ => None,
                }
            },
        ),
        _ => false,
    }
}

/// Whether items show entries, one by one.
pub open spec fn picture_roles<M>(items: Seq<ItemModel>, nodes: Seq<MenuNode<M>>) -> bool {
    &&& items.len() == nodes.len()
    &&& forall|i: int|
        0 <= i < items.len() ==> pictures_role(#[trigger] items[i], #[trigger] nodes[i])
}

proof fn lemma_first<M>(role: MenuRole, nodes: Seq<MenuNode<M>>)
    ensures
        match first_with(role, nodes) {
            Some(node) => playing(role, nodes).len() > 0 && playing(role, nodes)[0] == node
                && node.role == role,
            None => playing(role, nodes).len() == 0,
        },
    decreases nodes.len(),
{
    reveal(Seq::filter);
    if nodes.len() > 0 {
        lemma_first(role, nodes.drop_last());
    }
}

proof fn lemma_all<M>(role: MenuRole, nodes: Seq<MenuNode<M>>)
    ensures
        all_with(role, nodes) == playing(role, nodes),
        forall|i: int|
            0 <= i < all_with(role, nodes).len() ==> (#[trigger] all_with(role, nodes)[i]).role
                == role,
    decreases nodes.len(),
{
    reveal(Seq::filter);
    if nodes.len() > 0 {
        lemma_all(role, nodes.drop_last());
        assert(nodes.drop_last().push(nodes.last()) =~= nodes);
    } else {
        assert(all_with(role, nodes) =~= playing(role, nodes));
    }
}

/// The item of one entry with a role.
proof fn lemma_role_item<M>(
    role: MenuRole,
    nodes: Seq<MenuNode<M>>,
    otherwise: Option<KeyEquivalentModel>,
)
    requires
        otherwise == (match role {
            MenuRole::Preferences => with_command(","@),
            MenuRole::Quit => with_command("q"@),
            _ => None,
        }),
    ensures
        picture_roles(
            role_items(first_with(role, nodes), otherwise),
            plain(at_most_one(playing(role, nodes))),
        ),
        without_separators(role_items(first_with(role, nodes), otherwise)) == role_items(
            first_with(role, nodes),
            otherwise,
        ),
{
    reveal(Seq::filter);
    reveal_with_fuel(Seq::filter, 2);
    lemma_first(role, nodes);
    let items = role_items(first_with(role, nodes), otherwise);
    let one = at_most_one(playing(role, nodes));
    if one.len() > 0 {
        assert(one.drop_last() =~= Seq::empty());
        assert(plain(one) =~= if one[0].kind is Item { one } else { Seq::empty() });
    }
    if items.len() > 0 {
        assert(items.drop_last() =~= Seq::empty());
        assert(without_separators(items) =~= items);
    }
}

proof fn lemma_pictures_add<M>(
    items: Seq<ItemModel>,
    nodes: Seq<MenuNode<M>>,
    more_items: Seq<ItemModel>,
    more_nodes: Seq<MenuNode<M>>,
)
    requires
        picture_roles(items, nodes),
        picture_roles(more_items, more_nodes),
    ensures
        picture_roles(items + more_items, nodes + more_nodes),
{
    let a = items + more_items;
    let b = nodes + more_nodes;
    assert forall|i: int| 0 <= i < a.len() implies pictures_role(
        #[trigger] a[i],
        #[trigger] b[i],
    ) by {
        if i < items.len() {
            assert(pictures_role(items[i], nodes[i]));
        } else {
            let j = i - items.len();
            assert(pictures_role(more_items[j], more_nodes[j]));
        }
    }
}

/// The item of an entry that is specific to the application.
proof fn lemma_specific_item<M>(node: MenuNode<M>)
    requires
        node.role == MenuRole::ApplicationSpecific,
    ensures
        picture_roles(role_items(Some(node), None), plain(seq![node])),
        without_separators(role_items(Some(node), None)) == role_items(Some(node), None),
{
    let nodes = seq![node];
    lemma_first(MenuRole::ApplicationSpecific, nodes);
    reveal_with_fuel(first_with, 2);
    reveal_with_fuel(Seq::filter, 2);
    assert(nodes.drop_last() =~= Seq::empty());
    assert(first_with(MenuRole::ApplicationSpecific, nodes) == Some(node));
    assert(at_most_one(playing(MenuRole::ApplicationSpecific, nodes)) =~= nodes);
    lemma_role_item(MenuRole::ApplicationSpecific, nodes, None);
}

/// The items of the entries that are specific to the application.
proof fn lemma_specific_items<M>(nodes: Seq<MenuNode<M>>)
    requires
        forall|i: int|
            0 <= i < nodes.len() ==> (#[trigger] nodes[i]).role == MenuRole::ApplicationSpecific,
    ensures
        picture_roles(specific_items(nodes), plain(nodes)),
        without_separators(specific_items(nodes)) == specific_items(nodes),
    decreases nodes.len(),
{
    if nodes.len() > 0 {
        let rest = nodes.drop_last();
        let last = nodes[nodes.len() - 1];
        assert forall|i: int| 0 <= i < rest.len() implies (#[trigger] rest[i]).role
            == MenuRole::ApplicationSpecific by {
            assert(rest[i] == nodes[i]);
        }
        lemma_specific_items(rest);
        lemma_specific_item(last);
        let before = specific_items(rest);
        let more = role_items(Some(last), None);
        lemma_pictures_add(before, plain(rest), more, plain(seq![last]));
        Seq::filter_distributes_over_add(before, more, |item: ItemModel| !(item is Separator));
        Seq::filter_distributes_over_add(rest, seq![last], |node: MenuNode<M>| node.kind is Item);
        assert(rest + seq![last] =~= nodes);
    } else {
        reveal(Seq::filter);
        assert(without_separators(specific_items(nodes)) =~= specific_items(nodes));
    }
}

proof fn lemma_no_separators_left(condition: bool)
    ensures
        without_separators(separator_if(condition)) == Seq::<ItemModel>::empty(),
{
    reveal(Seq::filter);
    reveal_with_fuel(Seq::filter, 2);
    let items = separator_if(condition);
    if condition {
        assert(items.drop_last() =~= Seq::empty());
    }
    assert(without_separators(items) =~= Seq::empty());
}

proof fn lemma_command_with()
    ensures
        command_with(","@) == with_command(","@),
        command_with("q"@) == with_command("q"@),
{
}

/// Between its separators, the application menu shows the first entry that is about the
/// application, the first for its preferences, all that are specific to it, and the first that
/// quits it, in this order. An entry that is no plain item is not shown. Each item is enabled
/// exactly if its entry is; preferences and quitting have the shortcuts that are usual for them,
/// unless the entry has one of its own.
pub proof fn law_application_menu_shows_roles<M>(nodes: Seq<MenuNode<M>>)
    ensures
        picture_roles(
            without_separators(application_items(nodes)),
            plain(at_most_one(playing(MenuRole::About, nodes))) + plain(
                at_most_one(playing(MenuRole::Preferences, nodes)),
            ) + plain(playing(MenuRole::ApplicationSpecific, nodes)) + plain(
                at_most_one(playing(MenuRole::Quit, nodes)),
            ),
        ),
{
    lemma_command_with();
    let keep = |item: ItemModel| !(item is Separator);
    let about = role_items(first_with(MenuRole::About, nodes), None);
    let preferences = first_with(MenuRole::Preferences, nodes);
    let specific = all_with(MenuRole::ApplicationSpecific, nodes);
    let preference_items = role_items(preferences, command_with(","@));
    let quit = role_items(first_with(MenuRole::Quit, nodes), command_with("q"@));
    let s1 = separator_if(about.len() > 0);
    let s2 = separator_if(specific.len() > 0);
    let s3 = separator_if(preferences is Some || specific.len() > 0);
    let p1 = about + s1;
    let p2 = p1 + preference_items;
    let p3 = p2 + s2;
    let p4 = p3 + specific_items(specific);
    let p5 = p4 + s3;
    Seq::filter_distributes_over_add(about, s1, keep);
    Seq::filter_distributes_over_add(p1, preference_items, keep);
    Seq::filter_distributes_over_add(p2, s2, keep);
    Seq::filter_distributes_over_add(p3, specific_items(specific), keep);
    Seq::filter_distributes_over_add(p4, s3, keep);
    Seq::filter_distributes_over_add(p5, quit, keep);
    lemma_no_separators_left(about.len() > 0);
    lemma_no_separators_left(specific.len() > 0);
    lemma_no_separators_left(preferences is Some || specific.len() > 0);
    lemma_role_item(MenuRole::About, nodes, None);
    lemma_role_item(MenuRole::Preferences, nodes, command_with(","@));
    lemma_role_item(MenuRole::Quit, nodes, command_with("q"@));
    lemma_all(MenuRole::ApplicationSpecific, nodes);
    lemma_specific_items(specific);
    let n1 = plain(at_most_one(playing(MenuRole::About, nodes)));
    let n2 = plain(at_most_one(playing(MenuRole::Preferences, nodes)));
    let n3 = plain(playing(MenuRole::ApplicationSpecific, nodes));
    let n4 = plain(at_most_one(playing(MenuRole::Quit, nodes)));
    lemma_pictures_add(about, n1, preference_items, n2);
    lemma_pictures_add(about + preference_items, n1 + n2, specific_items(specific), n3);
    lemma_pictures_add(
        about + preference_items + specific_items(specific),
        n1 + n2 + n3,
        quit,
        n4,
    );
    assert(without_separators(application_items(nodes)) =~= about + preference_items
        + specific_items(specific) + quit);
}

/// What is about the application is set off from what follows, what is specific to it from its
/// preferences, and what quits it from both.
pub proof fn law_application_menu_is_divided<M>(nodes: Seq<MenuNode<M>>, i: int)
    ensures
        ({
            let items = application_items(nodes);
            let about = plain(at_most_one(playing(MenuRole::About, nodes))).len();
            let preferences = plain(at_most_one(playing(MenuRole::Preferences, nodes))).len();
            let specific = plain(playing(MenuRole::ApplicationSpecific, nodes)).len();
            let quit = plain(at_most_one(playing(MenuRole::Quit, nodes))).len();
            let has_preferences = playing(MenuRole::Preferences, nodes).len() > 0;
            let has_specific = playing(MenuRole::ApplicationSpecific, nodes).len() > 0;
            let before_specific = 2 * about + preferences;
            let behind_specific = before_specific + specific + (if has_specific {
                1int
            } else {
                0int
            });
            let before_quit = behind_specific + (if has_preferences || has_specific {
                1int
            } else {
                0int
            });
            &&& items.len() == before_quit + quit
            &&& 0 <= i < items.len() ==> (items[i] is Separator <==> {
                ||| about == 1 && i == 1
                ||| has_specific && i == before_specific
                ||| (has_preferences || has_specific) && i == behind_specific
            })
        }),
{
    lemma_command_with();
    let preferences = first_with(MenuRole::Preferences, nodes);
    let specific = all_with(MenuRole::ApplicationSpecific, nodes);
    lemma_role_item(MenuRole::About, nodes, None);
    lemma_role_item(MenuRole::Preferences, nodes, command_with(","@));
    lemma_role_item(MenuRole::Quit, nodes, command_with("q"@));
    lemma_first(MenuRole::Preferences, nodes);
    lemma_all(MenuRole::ApplicationSpecific, nodes);
    lemma_specific_items(specific);
    let about = role_items(first_with(MenuRole::About, nodes), None);
    let preference_items = role_items(preferences, command_with(","@));
    let quit = role_items(first_with(MenuRole::Quit, nodes), command_with("q"@));
    let more = specific_items(specific);
    let n3 = plain(playing(MenuRole::ApplicationSpecific, nodes));
    let s1 = separator_if(about.len() > 0);
    let s2 = separator_if(specific.len() > 0);
    let s3 = separator_if(preferences is Some || specific.len() > 0);
    let start = about.len() + s1.len() + preference_items.len() + s2.len();
    if start <= i < start + more.len() {
        let k = i - start;
        assert(application_items(nodes)[i] == more[k]);
        assert(pictures_role(more[k], n3[k]));
    }
}

/// The application menu finds entries wherever they are in the menus of the application.
pub proof fn law_every_entry_is_looked_at<M>(roots: Seq<MenuNode<M>>, path: Seq<int>)
    requires
        entry_at(roots, path) is Some,
    ensures
        in_order(roots).contains(entry_at(roots, path)->0),
        main_items(roots)[0] is Submenu,
        main_items(roots)[0]->items == application_items(in_order(roots)),
    decreases roots, path.len(),
{
    let found = entry_at(roots, path)->0;
    let all = in_order(roots);
    let last = roots.last();
    let before = in_order(roots.drop_last());
    if path[0] < roots.len() - 1 {
        assert(roots.drop_last()[path[0]] == roots[path[0]]);
        assert(entry_at(roots.drop_last(), path) == entry_at(roots, path));
        law_every_entry_is_looked_at(roots.drop_last(), path);
        let i = choose|i: int| 0 <= i < before.len() && before[i] == found;
        assert(all[i] == found);
    } else if path.len() == 1 {
        assert(all[before.len() as int] == found);
    } else if let MenuKind::Submenu { children, .. } = last.kind {
        law_every_entry_is_looked_at(children@, path.skip(1));
        let below = in_order(children@);
        let i = choose|i: int| 0 <= i < below.len() && below[i] == found;
        assert(all[before.len() + 1 + i] == found);
    }
}

} // verus!
