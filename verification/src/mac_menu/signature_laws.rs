//! The signature of a menu tells menus apart by what they look like, and by nothing else.
use vstd::prelude::*;
use vstd::utf8::encode_utf8;

use crate::event::{Key, Named};
use crate::mac_menu::signature::{
    checked_byte, entry_bytes, flag, head_bytes, key_bytes, list_bytes, named_number, node_bytes,
    number_bytes, role_byte, shortcut_bytes, signature_of, text_bytes,
};
use crate::mac_menu::MacMenu;
use crate::menu::model::{MenuKind, MenuNode, MenuRole, MenuShortcut};

verus! {

/// Whether two keys are the same.
pub open spec fn same_key(a: Key, b: Key) -> bool {
    match (a, b) {
        (Key::Named(m), Key::Named(n)) => m == n,
        (Key::Character(s), Key::Character(t)) => s@ == t@,
        (Key::Unidentified, Key::Unidentified) => true,
        _ => false,
    }
}

/// Whether two optional shortcuts are the same.
pub open spec fn same_shortcut(a: Option<MenuShortcut>, b: Option<MenuShortcut>) -> bool {
    match (a, b) {
        (Some(a), Some(b)) => a.modifiers == b.modifiers && same_key(a.key, b.key),
        (None, None) => true,
        _ => false,
    }
}

/// Whether two entries look the same, whatever their identifiers and messages are.
pub open spec fn looks_like<M, N>(a: MenuNode<M>, b: MenuNode<N>) -> bool
    decreases a,
{
    &&& a.role == b.role
    &&& match (a.kind, b.kind) {
        (MenuKind::Separator, MenuKind::Separator) => true,
        (
            MenuKind::Item { label: l1, enabled: e1, shortcut: s1, .. },
            MenuKind::Item { label: l2, enabled: e2, shortcut: s2, .. },
        ) => l1@ == l2@ && e1 == e2 && same_shortcut(s1, s2),
        (
            MenuKind::CheckItem { label: l1, enabled: e1, checked: c1, shortcut: s1, .. },
            MenuKind::CheckItem { label: l2, enabled: e2, checked: c2, shortcut: s2, .. },
        ) => l1@ == l2@ && e1 == e2 && c1 == c2 && same_shortcut(s1, s2),
        (
            MenuKind::Submenu { label: l1, enabled: e1, children: c1 },
            MenuKind::Submenu { label: l2, enabled: e2, children: c2 },
        ) => l1@ == l2@ && e1 == e2 && c1@.len() == c2@.len() && forall|i: int|
            0 <= i < c1@.len() ==> looks_like(#[trigger] c1@[i], c2@[i]),
        _ => false,
    }
}

/// Whether two lists of entries look the same.
pub open spec fn all_look_like<M, N>(a: Seq<MenuNode<M>>, b: Seq<MenuNode<N>>) -> bool {
    &&& a.len() == b.len()
    &&& forall|i: int| 0 <= i < a.len() ==> looks_like(#[trigger] a[i], b[i])
}

/// Whether the length of a text can be written down.
pub open spec fn fits(text: Seq<char>) -> bool {
    encode_utf8(text).len() <= u64::MAX
}

/// Whether the lengths within a shortcut can be written down.
pub open spec fn shortcut_fits(shortcut: Option<MenuShortcut>) -> bool {
    match shortcut {
        Some(shortcut) => match shortcut.key {
            Key::Character(text) => fits(text@),
            _ => true,
        },
        None => true,
    }
}

/// Whether the lengths within an entry can be written down, as those of all texts and lists in
/// memory can.
pub open spec fn node_fits<M>(node: MenuNode<M>) -> bool
    decreases node,
{
    match node.kind {
        MenuKind::Separator => true,
        MenuKind::Item { label, shortcut, .. } => fits(label@) && shortcut_fits(shortcut),
        MenuKind::CheckItem { label, shortcut, .. } => fits(label@) && shortcut_fits(shortcut),
        MenuKind::Submenu { label, children, .. } => fits(label@) && children@.len() <= u64::MAX
            && forall|i: int| 0 <= i < children@.len() ==> node_fits(#[trigger] children@[i]),
    }
}

/// Whether the lengths within a list of entries can be written down.
pub open spec fn list_fits<M>(nodes: Seq<MenuNode<M>>) -> bool {
    nodes.len() <= u64::MAX && forall|i: int| 0 <= i < nodes.len() ==> node_fits(#[trigger] nodes[i])
}

/// Entries that look the same are written down the same.
proof fn lemma_alike_nodes<M, N>(a: MenuNode<M>, b: MenuNode<N>)
    requires
        looks_like(a, b),
    ensures
        node_bytes(a) == node_bytes(b),
    decreases a,
{
    reveal(shortcut_bytes);
    if let MenuKind::Submenu { children: c1, .. } = a.kind {
        if let MenuKind::Submenu { children: c2, .. } = b.kind {
            lemma_alike_entries(c1@, c2@);
        }
    }
}

proof fn lemma_alike_entries<M, N>(a: Seq<MenuNode<M>>, b: Seq<MenuNode<N>>)
    requires
        all_look_like(a, b),
    ensures
        entry_bytes(a) == entry_bytes(b),
    decreases a,
{
    if a.len() > 0 {
        let last = a.len() - 1;
        assert(looks_like(a[last], b[last]));
        assert forall|i: int| 0 <= i < a.drop_last().len() implies looks_like(
            #[trigger] a.drop_last()[i],
            b.drop_last()[i],
        ) by {
            assert(looks_like(a[i], b[i]));
        }
        lemma_alike_entries(a.drop_last(), b.drop_last());
        lemma_alike_nodes(a.last(), b.last());
    }
}

/// Menus that look the same have the same signature, whatever their identifiers and messages
/// are: a menu that is built anew without a change is not installed again.
pub proof fn law_signature_ignores_identity<M, N>(a: Seq<MenuNode<M>>, b: Seq<MenuNode<N>>)
    requires
        all_look_like(a, b),
    ensures
        list_bytes(a) == list_bytes(b),
        signature_of(a) == signature_of(b),
{
    lemma_alike_entries(a, b);
}

proof fn lemma_regroup(a: Seq<u8>, b: Seq<u8>, c: Seq<u8>)
    ensures
        (a + b) + c == a + (b + c),
{
    assert((a + b) + c =~= a + (b + c));
}

proof fn lemma_number_prefix(a: u64, b: u64, ra: Seq<u8>, rb: Seq<u8>)
    requires
        number_bytes(a) + ra == number_bytes(b) + rb,
    ensures
        a == b,
        ra == rb,
{
    reveal(number_bytes);
    let left = number_bytes(a) + ra;
    let right = number_bytes(b) + rb;
    assert(left[0] == a as u8 && right[0] == b as u8);
    assert(left[1] == (a >> 8) as u8 && right[1] == (b >> 8) as u8);
    assert(left[2] == (a >> 16) as u8 && right[2] == (b >> 16) as u8);
    assert(left[3] == (a >> 24) as u8 && right[3] == (b >> 24) as u8);
    assert(left[4] == (a >> 32) as u8 && right[4] == (b >> 32) as u8);
    assert(left[5] == (a >> 40) as u8 && right[5] == (b >> 40) as u8);
    assert(left[6] == (a >> 48) as u8 && right[6] == (b >> 48) as u8);
    assert(left[7] == (a >> 56) as u8 && right[7] == (b >> 56) as u8);
    assert(a == b) by (bit_vector)
        requires
            a as u8 == b as u8,
            (a >> 8) as u8 == (b >> 8) as u8,
            (a >> 16) as u8 == (b >> 16) as u8,
            (a >> 24) as u8 == (b >> 24) as u8,
            (a >> 32) as u8 == (b >> 32) as u8,
            (a >> 40) as u8 == (b >> 40) as u8,
            (a >> 48) as u8 == (b >> 48) as u8,
            (a >> 56) as u8 == (b >> 56) as u8,
    ;
    assert(ra =~= left.skip(8));
    assert(rb =~= right.skip(8));
}

proof fn lemma_text_prefix(a: Seq<char>, b: Seq<char>, ra: Seq<u8>, rb: Seq<u8>)
    requires
        fits(a),
        fits(b),
        text_bytes(a) + ra == text_bytes(b) + rb,
    ensures
        a == b,
        ra == rb,
{
    reveal(text_bytes);
    let ea = encode_utf8(a);
    let eb = encode_utf8(b);
    assert(text_bytes(a) + ra =~= number_bytes(ea.len() as u64) + (ea + ra));
    assert(text_bytes(b) + rb =~= number_bytes(eb.len() as u64) + (eb + rb));
    lemma_number_prefix(ea.len() as u64, eb.len() as u64, ea + ra, eb + rb);
    assert(ea =~= (ea + ra).take(ea.len() as int));
    assert(eb =~= (eb + rb).take(ea.len() as int));
    assert(ra =~= (ea + ra).skip(ea.len() as int));
    assert(rb =~= (eb + rb).skip(ea.len() as int));
    vstd::utf8::encode_utf8_decode_utf8(a);
    vstd::utf8::encode_utf8_decode_utf8(b);
}

proof fn lemma_key_prefix(a: Key, b: Key, ra: Seq<u8>, rb: Seq<u8>)
    requires
        a matches Key::Character(text) ==> fits(text@),
        b matches Key::Character(text) ==> fits(text@),
        key_bytes(a) + ra == key_bytes(b) + rb,
    ensures
        same_key(a, b),
        ra == rb,
{
    let left = key_bytes(a) + ra;
    let right = key_bytes(b) + rb;
    assert(left[0] == key_bytes(a)[0]);
    assert(right[0] == key_bytes(b)[0]);
    match (a, b) {
        (Key::Named(m), Key::Named(n)) => {
            assert(left.skip(1) =~= number_bytes(named_number(m)) + ra);
            assert(right.skip(1) =~= number_bytes(named_number(n)) + rb);
            lemma_number_prefix(named_number(m), named_number(n), ra, rb);
        },
        (Key::Character(s), Key::Character(t)) => {
            assert(left.skip(1) =~= text_bytes(s@) + ra);
            assert(right.skip(1) =~= text_bytes(t@) + rb);
            lemma_text_prefix(s@, t@, ra, rb);
        },
        (Key::Unidentified, Key::Unidentified) => {
            assert(left.skip(1) =~= ra);
            assert(right.skip(1) =~= rb);
        },
        _ => {},
    }
}

proof fn lemma_shortcut_prefix(
    a: Option<MenuShortcut>,
    b: Option<MenuShortcut>,
    ra: Seq<u8>,
    rb: Seq<u8>,
)
    requires
        shortcut_fits(a),
        shortcut_fits(b),
        shortcut_bytes(a) + ra == shortcut_bytes(b) + rb,
    ensures
        same_shortcut(a, b),
        ra == rb,
{
    reveal(shortcut_bytes);
    let left = shortcut_bytes(a) + ra;
    let right = shortcut_bytes(b) + rb;
    assert(left[0] == shortcut_bytes(a)[0]);
    assert(right[0] == shortcut_bytes(b)[0]);
    match (a, b) {
        (Some(a), Some(b)) => {
            assert(left[1] == flag(a.modifiers.shift) && right[1] == flag(b.modifiers.shift));
            assert(left[2] == flag(a.modifiers.ctrl) && right[2] == flag(b.modifiers.ctrl));
            assert(left[3] == flag(a.modifiers.alt) && right[3] == flag(b.modifiers.alt));
            assert(left[4] == flag(a.modifiers.command) && right[4] == flag(b.modifiers.command));
            assert(left.skip(5) =~= key_bytes(a.key) + ra);
            assert(right.skip(5) =~= key_bytes(b.key) + rb);
            lemma_key_prefix(a.key, b.key, ra, rb);
        },
        (None, None) => {
            assert(left.skip(1) =~= ra);
            assert(right.skip(1) =~= rb);
        },
        _ => {},
    }
}

proof fn lemma_head_prefix(
    role_a: MenuRole,
    role_b: MenuRole,
    kind: u8,
    label_a: Seq<char>,
    label_b: Seq<char>,
    enabled_a: bool,
    enabled_b: bool,
    ra: Seq<u8>,
    rb: Seq<u8>,
)
    requires
        fits(label_a),
        fits(label_b),
        head_bytes(role_a, kind, label_a, enabled_a) + ra == head_bytes(
            role_b,
            kind,
            label_b,
            enabled_b,
        ) + rb,
    ensures
        role_a == role_b,
        label_a == label_b,
        enabled_a == enabled_b,
        ra == rb,
{
    reveal(head_bytes);
    let left = head_bytes(role_a, kind, label_a, enabled_a) + ra;
    let right = head_bytes(role_b, kind, label_b, enabled_b) + rb;
    assert(left[0] == role_byte(role_a) && right[0] == role_byte(role_b));
    assert(left[2] == flag(enabled_a) && right[2] == flag(enabled_b));
    assert(left.skip(3) =~= text_bytes(label_a) + ra);
    assert(right.skip(3) =~= text_bytes(label_b) + rb);
    lemma_text_prefix(label_a, label_b, ra, rb);
}

/// The byte that tells of which kind an entry is.
spec fn kind_byte<M>(node: MenuNode<M>) -> u8 {
    match node.kind {
        MenuKind::Separator => 0,
        MenuKind::Item { .. } => 1,
        MenuKind::CheckItem { .. } => 2,
        MenuKind::Submenu { .. } => 3,
    }
}

proof fn lemma_node_start<M>(node: MenuNode<M>, rest: Seq<u8>)
    ensures
        (node_bytes(node) + rest).len() >= 2,
        (node_bytes(node) + rest)[1] == kind_byte(node),
{
    reveal(head_bytes);
}

proof fn lemma_node_prefix<M, N>(a: MenuNode<M>, b: MenuNode<N>, ra: Seq<u8>, rb: Seq<u8>)
    requires
        node_fits(a),
        node_fits(b),
        node_bytes(a) + ra == node_bytes(b) + rb,
    ensures
        looks_like(a, b),
        ra == rb,
    decreases a, 1nat,
{
    lemma_node_start(a, ra);
    lemma_node_start(b, rb);
    let left = node_bytes(a) + ra;
    let right = node_bytes(b) + rb;
    match (a.kind, b.kind) {
        (MenuKind::Separator, MenuKind::Separator) => {
            assert(left[0] == role_byte(a.role) && right[0] == role_byte(b.role));
            assert(left.skip(2) =~= ra);
            assert(right.skip(2) =~= rb);
        },
        (
            MenuKind::Item { label: l1, enabled: e1, shortcut: s1, .. },
            MenuKind::Item { label: l2, enabled: e2, shortcut: s2, .. },
        ) => {
            lemma_regroup(head_bytes(a.role, 1, l1@, e1), shortcut_bytes(s1), ra);
            lemma_regroup(head_bytes(b.role, 1, l2@, e2), shortcut_bytes(s2), rb);
            lemma_head_prefix(
                a.role,
                b.role,
                1,
                l1@,
                l2@,
                e1,
                e2,
                shortcut_bytes(s1) + ra,
                shortcut_bytes(s2) + rb,
            );
            lemma_shortcut_prefix(s1, s2, ra, rb);
        },
        (
            MenuKind::CheckItem { label: l1, enabled: e1, checked: c1, shortcut: s1, .. },
            MenuKind::CheckItem { label: l2, enabled: e2, checked: c2, shortcut: s2, .. },
        ) => {
            let ta = seq![checked_byte(c1)] + (shortcut_bytes(s1) + ra);
            let tb = seq![checked_byte(c2)] + (shortcut_bytes(s2) + rb);
            lemma_regroup(seq![checked_byte(c1)], shortcut_bytes(s1), ra);
            lemma_regroup(seq![checked_byte(c2)], shortcut_bytes(s2), rb);
            lemma_regroup(
                head_bytes(a.role, 2, l1@, e1),
                seq![checked_byte(c1)] + shortcut_bytes(s1),
                ra,
            );
            lemma_regroup(
                head_bytes(b.role, 2, l2@, e2),
                seq![checked_byte(c2)] + shortcut_bytes(s2),
                rb,
            );
            lemma_head_prefix(a.role, b.role, 2, l1@, l2@, e1, e2, ta, tb);
            assert(ta[0] == checked_byte(c1) && tb[0] == checked_byte(c2));
            assert(ta.skip(1) =~= shortcut_bytes(s1) + ra);
            assert(tb.skip(1) =~= shortcut_bytes(s2) + rb);
            lemma_shortcut_prefix(s1, s2, ra, rb);
        },
        (
            MenuKind::Submenu { label: l1, enabled: e1, children: c1 },
            MenuKind::Submenu { label: l2, enabled: e2, children: c2 },
        ) => {
            lemma_regroup(head_bytes(a.role, 3, l1@, e1), list_bytes(c1@), ra);
            lemma_regroup(head_bytes(b.role, 3, l2@, e2), list_bytes(c2@), rb);
            lemma_head_prefix(
                a.role,
                b.role,
                3,
                l1@,
                l2@,
                e1,
                e2,
                list_bytes(c1@) + ra,
                list_bytes(c2@) + rb,
            );
            lemma_list_prefix(c1@, c2@, ra, rb);
        },
        _ => {},
    }
}

proof fn lemma_list_prefix<M, N>(
    a: Seq<MenuNode<M>>,
    b: Seq<MenuNode<N>>,
    ra: Seq<u8>,
    rb: Seq<u8>,
)
    requires
        list_fits(a),
        list_fits(b),
        list_bytes(a) + ra == list_bytes(b) + rb,
    ensures
        all_look_like(a, b),
        ra == rb,
    decreases a, 3nat,
{
    assert(list_bytes(a) + ra =~= number_bytes(a.len() as u64) + (entry_bytes(a) + ra));
    assert(list_bytes(b) + rb =~= number_bytes(b.len() as u64) + (entry_bytes(b) + rb));
    lemma_number_prefix(
        a.len() as u64,
        b.len() as u64,
        entry_bytes(a) + ra,
        entry_bytes(b) + rb,
    );
    lemma_entries_prefix(a, b, ra, rb);
}

/// The entries of a list, the first one apart.
proof fn lemma_first_entry<M>(nodes: Seq<MenuNode<M>>)
    requires
        nodes.len() > 0,
    ensures
        entry_bytes(nodes) == node_bytes(nodes[0]) + entry_bytes(nodes.skip(1)),
    decreases nodes.len(),
{
    if nodes.len() == 1 {
        assert(nodes.drop_last() =~= Seq::empty());
        assert(nodes.skip(1) =~= Seq::empty());
        assert(entry_bytes(nodes) =~= node_bytes(nodes[0]) + entry_bytes(nodes.skip(1)));
    } else {
        let front = nodes.drop_last();
        lemma_first_entry(front);
        assert(front.skip(1) =~= nodes.skip(1).drop_last());
        assert(entry_bytes(nodes) =~= node_bytes(nodes[0]) + (entry_bytes(front.skip(1))
            + node_bytes(nodes.last())));
    }
}

proof fn lemma_entries_prefix<M, N>(
    a: Seq<MenuNode<M>>,
    b: Seq<MenuNode<N>>,
    ra: Seq<u8>,
    rb: Seq<u8>,
)
    requires
        list_fits(a),
        list_fits(b),
        a.len() == b.len(),
        entry_bytes(a) + ra == entry_bytes(b) + rb,
    ensures
        all_look_like(a, b),
        ra == rb,
    decreases a, 2nat,
{
    if a.len() == 0 {
        assert(entry_bytes(a) + ra =~= ra);
        assert(entry_bytes(b) + rb =~= rb);
    } else {
        lemma_first_entry(a);
        lemma_first_entry(b);
        let ta = entry_bytes(a.skip(1)) + ra;
        let tb = entry_bytes(b.skip(1)) + rb;
        assert(entry_bytes(a) + ra =~= node_bytes(a[0]) + ta);
        assert(entry_bytes(b) + rb =~= node_bytes(b[0]) + tb);
        lemma_node_prefix(a[0], b[0], ta, tb);
        assert forall|i: int| 0 <= i < a.skip(1).len() implies node_fits(
            #[trigger] a.skip(1)[i],
        ) by {
            assert(node_fits(a[i + 1]));
        }
        assert forall|i: int| 0 <= i < b.skip(1).len() implies node_fits(
            #[trigger] b.skip(1)[i],
        ) by {
            assert(node_fits(b[i + 1]));
        }
        lemma_entries_prefix(a.skip(1), b.skip(1), ra, rb);
        assert forall|i: int| 0 <= i < a.len() implies looks_like(#[trigger] a[i], b[i]) by {
            if i > 0 {
                assert(looks_like(a.skip(1)[i - 1], b.skip(1)[i - 1]));
            }
        }
    }
}

/// What is hashed tells menus apart: menus that are written down the same look the same, so that
/// every visible change reaches the hasher.
pub proof fn law_every_visible_change_is_hashed<M, N>(a: Seq<MenuNode<M>>, b: Seq<MenuNode<N>>)
    requires
        list_fits(a),
        list_fits(b),
        list_bytes(a) == list_bytes(b),
    ensures
        all_look_like(a, b),
{
    let none = Seq::<u8>::empty();
    assert(list_bytes(a) + none =~= list_bytes(a));
    assert(list_bytes(b) + none =~= list_bytes(b));
    lemma_list_prefix(a, b, none, none);
}

/// A menu bar that has been synchronised with one menu takes another one for the same if and only
/// if they look the same: every change that shows, such as an entry that has moved into a
/// submenu, has the menu installed again, and nothing else has.
pub proof fn law_every_visible_change_is_installed<M, N>(
    bar: MacMenu,
    a: Seq<MenuNode<M>>,
    b: Seq<MenuNode<N>>,
)
    requires
        list_fits(a),
        list_fits(b),
        bar.installed() == Some(list_bytes(a)),
    ensures
        bar.installed() == Some(list_bytes(b)) <==> all_look_like(a, b),
{
    if all_look_like(a, b) {
        law_signature_ignores_identity(a, b);
    } else if list_bytes(a) == list_bytes(b) {
        law_every_visible_change_is_hashed(a, b);
    }
}

} // verus!
