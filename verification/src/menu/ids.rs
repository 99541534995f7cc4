//! The identifiers under which panels and items are known to assistive technologies.
use vstd::prelude::*;
use vstd::string::StringExecFns;

use crate::text::{decimal, lemma_decimal_prefix, push_decimal};

verus! {

/// The identifier of a panel: its root and its depth.
pub open spec fn panel_id_text(root: nat, panel: nat) -> Seq<char> {
    "icy_ui.menu/"@ + (decimal(root) + ("/panel/"@ + decimal(panel)))
}

/// The identifier of an item: its panel and its position there.
pub open spec fn item_id_text(root: nat, panel: nat, item: nat) -> Seq<char> {
    "icy_ui.menu/"@ + (decimal(root) + ("/panel/"@ + (decimal(panel) + ("/item/"@ + decimal(
        item,
    )))))
}

/// Gives the identifier of a panel.
pub fn panel_id(root: usize, panel: usize) -> (r: String)
    ensures
        r@ == panel_id_text(root as nat, panel as nat),
{
    let mut id: String = String::new();
    id.append("icy_ui.menu/");
    push_decimal(&mut id, root);
    id.append("/panel/");
    push_decimal(&mut id, panel);
    assert(id@ =~= panel_id_text(root as nat, panel as nat));
    id
}

/// Gives the identifier of an item.
pub fn item_id(root: usize, panel: usize, item: usize) -> (r: String)
    ensures
        r@ == item_id_text(root as nat, panel as nat, item as nat),
{
    let mut id: String = String::new();
    id.append("icy_ui.menu/");
    push_decimal(&mut id, root);
    id.append("/panel/");
    push_decimal(&mut id, panel);
    id.append("/item/");
    push_decimal(&mut id, item);
    assert(id@ =~= item_id_text(root as nat, panel as nat, item as nat));
    id
}

/// Text behind a common prefix is determined.
proof fn lemma_same_prefix(prefix: Seq<char>, a: Seq<char>, b: Seq<char>)
    requires
        prefix + a == prefix + b,
    ensures
        a == b,
{
    assert(a =~= (prefix + a).skip(prefix.len() as int));
    assert(b =~= (prefix + b).skip(prefix.len() as int));
}

/// No two items share an identifier.
pub proof fn law_item_ids_differ(r1: nat, p1: nat, i1: nat, r2: nat, p2: nat, i2: nat)
    requires
        item_id_text(r1, p1, i1) == item_id_text(r2, p2, i2),
    ensures
        r1 == r2 && p1 == p2 && i1 == i2,
{
    reveal_strlit("icy_ui.menu/");
    reveal_strlit("/panel/");
    reveal_strlit("/item/");
    let item1 = "/item/"@ + decimal(i1);
    let item2 = "/item/"@ + decimal(i2);
    let panel1 = "/panel/"@ + (decimal(p1) + item1);
    let panel2 = "/panel/"@ + (decimal(p2) + item2);
    lemma_same_prefix("icy_ui.menu/"@, decimal(r1) + panel1, decimal(r2) + panel2);
    lemma_decimal_prefix(r1, r2, panel1, panel2);
    lemma_same_prefix("/panel/"@, decimal(p1) + item1, decimal(p2) + item2);
    lemma_decimal_prefix(p1, p2, item1, item2);
    lemma_same_prefix("/item/"@, decimal(i1), decimal(i2));
    assert(decimal(i1) + Seq::<char>::empty() =~= decimal(i1));
    assert(decimal(i2) + Seq::<char>::empty() =~= decimal(i2));
    lemma_decimal_prefix(i1, i2, Seq::empty(), Seq::empty());
}

/// No two panels share an identifier, and no panel shares one with an item.
pub proof fn law_panel_ids_differ(r1: nat, p1: nat, r2: nat, p2: nat, item: nat)
    ensures
        panel_id_text(r1, p1) == panel_id_text(r2, p2) ==> r1 == r2 && p1 == p2,
        panel_id_text(r1, p1) != item_id_text(r2, p2, item),
{
    reveal_strlit("icy_ui.menu/");
    reveal_strlit("/panel/");
    reveal_strlit("/item/");
    let tail1 = "/panel/"@ + decimal(p1);
    let tail2 = "/panel/"@ + decimal(p2);
    assert(decimal(p1) + Seq::<char>::empty() =~= decimal(p1));
    assert(decimal(p2) + Seq::<char>::empty() =~= decimal(p2));
    if panel_id_text(r1, p1) == panel_id_text(r2, p2) {
        lemma_same_prefix("icy_ui.menu/"@, decimal(r1) + tail1, decimal(r2) + tail2);
        lemma_decimal_prefix(r1, r2, tail1, tail2);
        lemma_same_prefix("/panel/"@, decimal(p1), decimal(p2));
        lemma_decimal_prefix(p1, p2, Seq::empty(), Seq::empty());
    }
    if panel_id_text(r1, p1) == item_id_text(r2, p2, item) {
        let item2 = "/item/"@ + decimal(item);
        let longer = "/panel/"@ + (decimal(p2) + item2);
        lemma_same_prefix("icy_ui.menu/"@, decimal(r1) + tail1, decimal(r2) + longer);
        lemma_decimal_prefix(r1, r2, tail1, longer);
        lemma_same_prefix("/panel/"@, decimal(p1), decimal(p2) + item2);
        lemma_decimal_prefix(p1, p2, Seq::empty(), item2);
        assert(item2.len() > 0);
    }
}

/// The identifier of an item is that of its panel, followed by its position there.
pub proof fn law_item_belongs_to_its_panel(root: nat, panel: nat, item: nat)
    ensures
        item_id_text(root, panel, item) == panel_id_text(root, panel) + "/item/"@ + decimal(item),
{
    assert(item_id_text(root, panel, item) =~= panel_id_text(root, panel) + "/item/"@ + decimal(
        item,
    ));
}

} // verus!
