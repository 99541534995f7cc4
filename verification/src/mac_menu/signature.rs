//! A signature of what a menu looks like.
//!
//! What a menu looks like is written down as bytes, in which every text and every list is
//! preceded by its length. Identifiers and messages do not count: identifiers are made anew
//! whenever a menu is built, and a menu that looks the same must not flicker.
use std::collections::hash_map::DefaultHasher;
use std::hash::Hasher;

use vstd::prelude::*;
use vstd::std_specs::hash::DefaultHasherAdditionalSpecFns;
use vstd::utf8::encode_utf8;

use crate::event::{Key, Named};
use crate::menu::model::{AppMenu, MenuKind, MenuNode, MenuRole, MenuShortcut, Modifiers};

verus! {

/// A truth value as a byte.
pub open spec fn flag(b: bool) -> u8 {
    if b {
        1
    } else {
        0
    }
}

/// A number in eight bytes, the lowest first.
#[verifier::opaque]
pub open spec fn number_bytes(n: u64) -> Seq<u8> {
    seq![
        n as u8,
        (n >> 8) as u8,
        (n >> 16) as u8,
        (n >> 24) as u8,
        (n >> 32) as u8,
        (n >> 40) as u8,
        (n >> 48) as u8,
        (n >> 56) as u8,
    ]
}

/// A text, with its length.
#[verifier::opaque]
pub open spec fn text_bytes(text: Seq<char>) -> Seq<u8> {
    number_bytes(encode_utf8(text).len() as u64) + encode_utf8(text)
}

/// The byte of a role.
pub open spec fn role_byte(role: MenuRole) -> u8 {
    match role {
        MenuRole::Ordinary => 0,
        MenuRole::About => 1,
        MenuRole::Preferences => 2,
        MenuRole::Quit => 3,
        MenuRole::ApplicationSpecific => 4,
    }
}

/// The number of a key that has a name.
pub open spec fn named_number(named: Named) -> u64 {
    match named {
        Named::Alt => 0,
        Named::Enter => 1,
        Named::Tab => 2,
        Named::Escape => 3,
        Named::Backspace => 4,
        Named::Delete => 5,
        Named::ArrowUp => 6,
        Named::ArrowDown => 7,
        Named::ArrowLeft => 8,
        Named::ArrowRight => 9,
        Named::Home => 10,
        Named::End => 11,
        Named::PageUp => 12,
        Named::PageDown => 13,
        Named::F1 => 14,
        Named::F2 => 15,
        Named::F3 => 16,
        Named::F4 => 17,
        Named::F5 => 18,
        Named::F6 => 19,
        Named::F7 => 20,
        Named::F8 => 21,
        Named::F9 => 22,
        Named::F10 => 23,
        Named::F11 => 24,
        Named::F12 => 25,
        Named::Other(n) => (26 + n) as u64,
    }
}

/// A key.
pub open spec fn key_bytes(key: Key) -> Seq<u8> {
    match key {
        Key::Named(named) => seq![0u8] + number_bytes(named_number(named)),
        Key::Character(text) => seq![1u8] + text_bytes(text@),
        Key::Unidentified => seq![2u8],
    }
}

/// The modifiers of a shortcut.
pub open spec fn modifier_bytes(modifiers: Modifiers) -> Seq<u8> {
    seq![
        flag(modifiers.shift),
        flag(modifiers.ctrl),
        flag(modifiers.alt),
        flag(modifiers.command),
    ]
}

/// A shortcut, if there is one.
#[verifier::opaque]
pub open spec fn shortcut_bytes(shortcut: Option<MenuShortcut>) -> Seq<u8> {
    match shortcut {
        None => seq![0u8],
        Some(shortcut) => seq![1u8] + modifier_bytes(shortcut.modifiers) + key_bytes(shortcut.key),
    }
}

/// The byte of a mark.
pub open spec fn checked_byte(checked: Option<bool>) -> u8 {
    match checked {
        None => 0,
        Some(false) => 1,
        Some(true) => 2,
    }
}

/// What entries with a label have in common: a role, a kind, a label, and whether they are
/// enabled.
#[verifier::opaque]
pub open spec fn head_bytes(role: MenuRole, kind: u8, label: Seq<char>, enabled: bool) -> Seq<u8> {
    seq![role_byte(role), kind, flag(enabled)] + text_bytes(label)
}

/// What an entry looks like.
pub open spec fn node_bytes<Message>(node: MenuNode<Message>) -> Seq<u8>
    decreases node, 0nat,
{
    match node.kind {
        MenuKind::Separator => seq![role_byte(node.role), 0u8],
        MenuKind::Item { label, enabled, shortcut, .. } => head_bytes(
            node.role,
            1,
            label@,
            enabled,
        ) + shortcut_bytes(shortcut),
        MenuKind::CheckItem { label, enabled, checked, shortcut, .. } => head_bytes(
            node.role,
            2,
            label@,
            enabled,
        ) + (seq![checked_byte(checked)] + shortcut_bytes(shortcut)),
        MenuKind::Submenu { label, enabled, children } => head_bytes(node.role, 3, label@, enabled)
            + list_bytes(children@),
    }
}

/// What entries look like, one after the other.
pub open spec fn entry_bytes<Message>(nodes: Seq<MenuNode<Message>>) -> Seq<u8>
    decreases nodes, 0nat,
{
    if nodes.len() == 0 {
        Seq::empty()
    } else {
        entry_bytes(nodes.drop_last()) + node_bytes(nodes.last())
    }
}

/// What a list of entries looks like.
pub open spec fn list_bytes<Message>(nodes: Seq<MenuNode<Message>>) -> Seq<u8>
    decreases nodes, 1nat,
{
    number_bytes(nodes.len() as u64) + entry_bytes(nodes)
}

/// The signature of a menu.
pub open spec fn signature_of<Message>(roots: Seq<MenuNode<Message>>) -> u64 {
    DefaultHasher::spec_finish(seq![list_bytes(roots)])
}

fn write_number(bytes: &mut Vec<u8>, n: u64)
    ensures
        final(bytes)@ == old(bytes)@ + number_bytes(n),
{
    let ghost before = bytes@;
    bytes.push(n as u8);
    bytes.push((n >> 8) as u8);
    bytes.push((n >> 16) as u8);
    bytes.push((n >> 24) as u8);
    bytes.push((n >> 32) as u8);
    bytes.push((n >> 40) as u8);
    bytes.push((n >> 48) as u8);
    bytes.push((n >> 56) as u8);
    reveal(number_bytes);
    assert(bytes@ =~= before + number_bytes(n));
}

fn write_text(bytes: &mut Vec<u8>, text: &str)
    ensures
        final(bytes)@ == old(bytes)@ + text_bytes(text@),
{
    let ghost before = bytes@;
    let encoded: &[u8] = text.as_bytes();
    write_number(bytes, encoded.len() as u64);
    let ghost counted = bytes@;
    let len: usize = encoded.len();
    let mut i: usize = 0;
    while i < len
        invariant
            0 <= i <= len,
            len == encoded@.len(),
            bytes@ == counted + encoded@.take(i as int),
        decreases len - i,
    {
        bytes.push(encoded[i]);
        i = i + 1;
        assert(bytes@ =~= counted + encoded@.take(i as int));
    }
    reveal(text_bytes);
    assert(bytes@ =~= before + text_bytes(text@));
}

fn write_flag(bytes: &mut Vec<u8>, b: bool)
    ensures
        final(bytes)@ == old(bytes)@ + seq![flag(b)],
{
    let ghost before = bytes@;
    bytes.push(
        if b {
            1
        } else {
            0
        },
    );
    assert(bytes@ =~= before + seq![flag(b)]);
}

fn write_byte(bytes: &mut Vec<u8>, b: u8)
    ensures
        final(bytes)@ == old(bytes)@ + seq![b],
{
    let ghost before = bytes@;
    bytes.push(b);
    assert(bytes@ =~= before + seq![b]);
}

fn find_named_number(named: Named) -> (r: u64)
    ensures
        r == named_number(named),
{
    match named {
        Named::Alt => 0,
        Named::Enter => 1,
        Named::Tab => 2,
        Named::Escape => 3,
        Named::Backspace => 4,
        Named::Delete => 5,
        Named::ArrowUp => 6,
        Named::ArrowDown => 7,
        Named::ArrowLeft => 8,
        Named::ArrowRight => 9,
        Named::Home => 10,
        Named::End => 11,
        Named::PageUp => 12,
        Named::PageDown => 13,
        Named::F1 => 14,
        Named::F2 => 15,
        Named::F3 => 16,
        Named::F4 => 17,
        Named::F5 => 18,
        Named::F6 => 19,
        Named::F7 => 20,
        Named::F8 => 21,
        Named::F9 => 22,
        Named::F10 => 23,
        Named::F11 => 24,
        Named::F12 => 25,
        Named::Other(n) => 26 + n as u64,
    }
}

fn write_key(bytes: &mut Vec<u8>, key: &Key)
    ensures
        final(bytes)@ == old(bytes)@ + key_bytes(*key),
{
    let ghost before = bytes@;
    match key {
        Key::Named(named) => {
            write_byte(bytes, 0);
            write_number(bytes, find_named_number(*named));
        },
        Key::Character(text) => {
            write_byte(bytes, 1);
            write_text(bytes, text.as_str());
        },
        Key::Unidentified => {
            write_byte(bytes, 2);
        },
    }
    assert(bytes@ =~= before + key_bytes(*key));
}

fn write_shortcut(bytes: &mut Vec<u8>, shortcut: &Option<MenuShortcut>)
    ensures
        final(bytes)@ == old(bytes)@ + shortcut_bytes(*shortcut),
{
    let ghost before = bytes@;
    match shortcut {
        None => {
            write_byte(bytes, 0);
        },
        Some(shortcut) => {
            write_byte(bytes, 1);
            write_flag(bytes, shortcut.modifiers.shift);
            write_flag(bytes, shortcut.modifiers.ctrl);
            write_flag(bytes, shortcut.modifiers.alt);
            write_flag(bytes, shortcut.modifiers.command);
            write_key(bytes, &shortcut.key);
        },
    }
    reveal(shortcut_bytes);
    assert(bytes@ =~= before + shortcut_bytes(*shortcut));
}

fn write_role(bytes: &mut Vec<u8>, role: MenuRole)
    ensures
        final(bytes)@ == old(bytes)@ + seq![role_byte(role)],
{
    match role {
        MenuRole::Ordinary => write_byte(bytes, 0),
        MenuRole::About => write_byte(bytes, 1),
        MenuRole::Preferences => write_byte(bytes, 2),
        MenuRole::Quit => write_byte(bytes, 3),
        MenuRole::ApplicationSpecific => write_byte(bytes, 4),
    }
}

fn write_head(bytes: &mut Vec<u8>, role: MenuRole, kind: u8, label: &str, enabled: bool)
    ensures
        final(bytes)@ == old(bytes)@ + head_bytes(role, kind, label@, enabled),
{
    let ghost before = bytes@;
    write_role(bytes, role);
    write_byte(bytes, kind);
    write_flag(bytes, enabled);
    write_text(bytes, label);
    reveal(head_bytes);
    assert(bytes@ =~= before + head_bytes(role, kind, label@, enabled));
}

/// Writes down what an entry looks like.
pub fn hash_node<Message>(node: &MenuNode<Message>, bytes: &mut Vec<u8>)
    ensures
        final(bytes)@ == old(bytes)@ + node_bytes(*node),
    decreases *node, 0nat,
{
    let ghost before = bytes@;
    match &node.kind {
        MenuKind::Separator => {
            write_role(bytes, node.role);
            write_byte(bytes, 0);
            assert(bytes@ =~= before + node_bytes(*node));
        },
        MenuKind::Item { label, enabled, shortcut, .. } => {
            write_head(bytes, node.role, 1, label.as_str(), *enabled);
            write_shortcut(bytes, shortcut);
            assert(bytes@ =~= before + node_bytes(*node));
        },
        MenuKind::CheckItem { label, enabled, checked, shortcut, .. } => {
            write_head(bytes, node.role, 2, label.as_str(), *enabled);
            match checked {
                None => write_byte(bytes, 0),
                Some(false) => write_byte(bytes, 1),
                Some(true) => write_byte(bytes, 2),
            }
            write_shortcut(bytes, shortcut);
            assert(bytes@ =~= before + node_bytes(*node));
        },
        MenuKind::Submenu { label, enabled, children } => {
            write_head(bytes, node.role, 3, label.as_str(), *enabled);
            hash_list(children.as_slice(), bytes);
            assert(bytes@ =~= before + node_bytes(*node));
        },
    }
}

/// Writes down what a list of entries looks like.
fn hash_list<Message>(nodes: &[MenuNode<Message>], bytes: &mut Vec<u8>)
    ensures
        final(bytes)@ == old(bytes)@ + list_bytes(nodes@),
    decreases nodes@, 1nat,
{
    let ghost before = bytes@;
    let len: usize = nodes.len();
    write_number(bytes, len as u64);
    let ghost counted = bytes@;
    let mut i: usize = 0;
    proof {
        assert(nodes@.take(0) =~= Seq::empty());
        assert(counted + entry_bytes(nodes@.take(0)) =~= counted);
    }
    while i < len
        invariant
            0 <= i <= len,
            len == nodes@.len(),
            bytes@ == counted + entry_bytes(nodes@.take(i as int)),
        decreases len - i,
    {
        proof {
            assert(nodes@.take(i + 1).drop_last() =~= nodes@.take(i as int));
            assert(nodes@.take(i + 1).last() == nodes@[i as int]);
            assert(decreases_to!(nodes@ => nodes@[i as int]));
        }
        hash_node(&nodes[i], bytes);
        i = i + 1;
        assert(bytes@ =~= counted + entry_bytes(nodes@.take(i as int)));
    }
    assert(nodes@.take(len as int) =~= nodes@);
    assert(bytes@ =~= before + list_bytes(nodes@));
}

/// Writes down what a menu looks like.
fn write_menu<Message>(menu: &AppMenu<Message>) -> (bytes: Vec<u8>)
    ensures
        bytes@ == list_bytes(menu.roots@),
{
    let mut bytes: Vec<u8> = Vec::new();
    hash_list(menu.roots.as_slice(), &mut bytes);
    assert(bytes@ =~= list_bytes(menu.roots@));
    bytes
}

fn sign(bytes: &Vec<u8>) -> (r: u64)
    ensures
        r == DefaultHasher::spec_finish(seq![bytes@]),
{
    let mut hasher: DefaultHasher = DefaultHasher::new();
    hasher.write(bytes.as_slice());
    assert(hasher@ =~= seq![bytes@]);
    hasher.finish()
}

/// Gives the signature of a menu.
pub fn menu_signature<Message>(menu: &AppMenu<Message>) -> (r: u64)
    ensures
        r == signature_of(menu.roots@),
{
    sign(&write_menu(menu))
}

/// What a menu looks like, with the signature of that, by which most changes are noticed at once.
#[derive(Debug)]
pub struct Look {
    signature: u64,
    bytes: Vec<u8>,
}

impl Look {
    #[verifier::type_invariant]
    spec fn is_signed(self) -> bool {
        self.signature == DefaultHasher::spec_finish(seq![self.bytes@])
    }

    /// What the menu looks like.
    pub closed spec fn view(&self) -> Seq<u8> {
        self.bytes@
    }

    /// Takes down what a menu looks like.
    pub fn of<Message>(menu: &AppMenu<Message>) -> (r: Self)
        ensures
            r@ == list_bytes(menu.roots@),
    {
        let bytes: Vec<u8> = write_menu(menu);
        let signature: u64 = sign(&bytes);
        Look { signature, bytes }
    }

    /// Tests whether two menus look the same.
    pub fn matches(&self, other: &Look) -> (r: bool)
        ensures
            r == (self@ == other@),
    {
        proof {
            use_type_invariant(self);
            use_type_invariant(other);
        }
        if self.signature != other.signature {
            return false;
        }
        let len: usize = self.bytes.len();
        if len != other.bytes.len() {
            return false;
        }
        let mut i: usize = 0;
        while i < len
            invariant
                0 <= i <= len,
                len == self.bytes@.len(),
                len == other.bytes@.len(),
                forall|k: int| 0 <= k < i ==> self.bytes@[k] == other.bytes@[k],
            decreases len - i,
        {
            if self.bytes[i] != other.bytes[i] {
                return false;
            }
            i = i + 1;
        }
        assert(self.bytes@ =~= other.bytes@);
        true
    }
}

} // verus!
