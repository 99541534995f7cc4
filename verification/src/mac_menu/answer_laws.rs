//! What choosing an item answers, and where menus are shown.
use vstd::prelude::*;

use crate::mac_menu::plan::in_order;
use crate::mac_menu::view_position;
use crate::menu::model::{activation, MenuId, MenuKind, MenuNode};
use crate::scalar::exact::Exact;

verus! {

/// Whether an entry answers to an identifier: it bears it, and has a message.
pub open spec fn answers_to<M>(node: MenuNode<M>, id: MenuId) -> bool {
    node.id == id && match node.kind {
        MenuKind::Item { .. } => true,
        MenuKind::CheckItem { .. } => true,
        _ => false,
    }
}

/// The message of an entry that has one.
pub open spec fn message_of<M>(node: MenuNode<M>) -> M {
    match node.kind {
        MenuKind::Item { on_activate, .. } => on_activate,
        MenuKind::CheckItem { on_activate, .. } => on_activate,
        _ => arbitrary(),
    }
}

/// Of all entries, each followed by those of its submenu, the first that bears an identifier and
/// has a message answers to it, with its own message. Where there is none, nothing does.
pub proof fn law_first_entry_answers<M>(id: MenuId, nodes: Seq<MenuNode<M>>, i: int)
    ensures
        (forall|j: int|
            0 <= j < in_order(nodes).len() ==> !answers_to(#[trigger] in_order(nodes)[j], id))
            ==> activation(id, nodes) is None,
        0 <= i < in_order(nodes).len() && answers_to(in_order(nodes)[i], id) && (forall|j: int|
            0 <= j < i ==> !answers_to(#[trigger] in_order(nodes)[j], id)) ==> activation(id, nodes)
            == Some(message_of(in_order(nodes)[i])),
    decreases nodes,
{
    let all = in_order(nodes);
    if nodes.len() > 0 {
        let node = nodes.last();
        let before = in_order(nodes.drop_last());
        let below = match node.kind {
            MenuKind::Submenu { children, .. } => in_order(children@),
            _ => Seq::empty(),
        };
        let n = before.len() as int;
        assert(all == before.push(node) + below);
        assert(forall|j: int| 0 <= j < n ==> #[trigger] before[j] == all[j]);
        assert(forall|j: int| 0 <= j < below.len() ==> #[trigger] below[j] == all[n + 1 + j]);
        assert(all[n] == node);
        law_first_entry_answers(id, nodes.drop_last(), i);
        if let MenuKind::Submenu { children, .. } = node.kind {
            law_first_entry_answers(id, children@, i - n - 1);
        }
        if 0 <= i < all.len() && answers_to(all[i], id) && (forall|j: int|
            0 <= j < i ==> !answers_to(#[trigger] all[j], id)) {
            if i < n {
                assert(before[i] == all[i]);
            } else {
                assert forall|j: int| 0 <= j < n implies !answers_to(#[trigger] before[j], id) by {
                    assert(!answers_to(all[j], id));
                }
                if i > n {
                    assert(!answers_to(all[n], id));
                    assert(below[i - n - 1] == all[i]);
                    assert forall|j: int| 0 <= j < i - n - 1 implies !answers_to(
                        #[trigger] below[j],
                        id,
                    ) by {
                        assert(!answers_to(all[n + 1 + j], id));
                    }
                }
            }
        }
        if forall|j: int| 0 <= j < all.len() ==> !answers_to(#[trigger] all[j], id) {
            assert forall|j: int| 0 <= j < n implies !answers_to(#[trigger] before[j], id) by {
                assert(!answers_to(all[j], id));
            }
            assert forall|j: int| 0 <= j < below.len() implies !answers_to(
                #[trigger] below[j],
                id,
            ) by {
                assert(!answers_to(all[n + 1 + j], id));
            }
            assert(!answers_to(all[n], id));
        }
    }
}

/// A place in a view that counts from the top is given as it is. In one that counts from the
/// bottom, what is as far from the top is given by how far it is from the bottom; the way back is
/// the same.
pub proof fn law_place_counts_from_the_right_edge(height: Exact, x: Exact, y: Exact)
    ensures
        ({
            let flipped = view_position(true, height, x, y);
            let upright = view_position(false, height, x, y);
            &&& flipped.x == x && upright.x == x
            &&& flipped.y == y
            &&& upright.y.value + y.value == height.value
            &&& view_position(false, height, x, upright.y).y == y
        }),
{
}

} // verus!
