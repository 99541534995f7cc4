//! Shortcuts as AppKit has them: a text for the key, and a mask for the modifiers.
use vstd::prelude::*;
use vstd::string::StringExecFns;

use crate::event::{Key, Named};
use crate::menu::model::{MenuShortcut, Modifiers};
use crate::text::{lowercased, text_of};

verus! {

/// The command key in a mask.
pub const COMMAND_MASK: usize = 0x10_0000;

/// The shift key in a mask.
pub const SHIFT_MASK: usize = 0x2_0000;

/// The option key in a mask.
pub const OPTION_MASK: usize = 0x8_0000;

/// The control key in a mask.
pub const CONTROL_MASK: usize = 0x4_0000;

/// A shortcut of a native menu item.
#[derive(Debug)]
pub struct KeyEquivalent {
    pub key: String,
    pub modifier_mask: usize,
}

/// What a `KeyEquivalent` stands for.
#[verifier::ext_equal]
pub struct KeyEquivalentModel {
    pub key: Seq<char>,
    pub modifier_mask: int,
}

/// What an optional `KeyEquivalent` stands for.
pub open spec fn key_view(key: Option<KeyEquivalent>) -> Option<KeyEquivalentModel> {
    match key {
        Some(key) => Some(
            KeyEquivalentModel { key: key.key@, modifier_mask: key.modifier_mask as int },
        ),
        None => None,
    }
}

/// The character that stands for a key that has a name; some keys have none.
pub open spec fn named_char(named: Named) -> Option<char> {
    match named {
        Named::Enter => Some('\r'),
        Named::Tab => Some('\t'),
        Named::Escape => Some('\u{1b}'),
        Named::Backspace => Some('\u{8}'),
        Named::Delete => Some('\u{7f}'),
        Named::ArrowUp => Some('\u{f700}'),
        Named::ArrowDown => Some('\u{f701}'),
        Named::ArrowLeft => Some('\u{f702}'),
        Named::ArrowRight => Some('\u{f703}'),
        Named::Home => Some('\u{f729}'),
        Named::End => Some('\u{f72b}'),
        Named::PageUp => Some('\u{f72c}'),
        Named::PageDown => Some('\u{f72d}'),
        Named::F1 => Some('\u{f704}'),
        Named::F2 => Some('\u{f705}'),
        Named::F3 => Some('\u{f706}'),
        Named::F4 => Some('\u{f707}'),
        Named::F5 => Some('\u{f708}'),
        Named::F6 => Some('\u{f709}'),
        Named::F7 => Some('\u{f70a}'),
        Named::F8 => Some('\u{f70b}'),
        Named::F9 => Some('\u{f70c}'),
        Named::F10 => Some('\u{f70d}'),
        Named::F11 => Some('\u{f70e}'),
        Named::F12 => Some('\u{f70f}'),
        _ => None,
    }
}

/// The text that stands for a key: for a key that produces text the lower case of the text, for
/// a key that has a name its character.
pub open spec fn key_text_of(key: Key) -> Option<Seq<char>> {
    match key {
        Key::Character(text) => Some(lowercased(text@)),
        Key::Named(named) => match named_char(named) {
            Some(c) => Some(seq![c]),
            None => None,
        },
        Key::Unidentified => None,
    }
}

/// The mask of modifiers.
pub open spec fn mask_of(modifiers: Modifiers) -> int {
    (if modifiers.command {
        COMMAND_MASK as int
    } else {
        0
    }) + (if modifiers.shift {
        SHIFT_MASK as int
    } else {
        0
    }) + (if modifiers.alt {
        OPTION_MASK as int
    } else {
        0
    }) + (if modifiers.ctrl {
        CONTROL_MASK as int
    } else {
        0
    })
}

/// A shortcut with a text for its key: none, where no text stands for the key.
pub open spec fn equivalent_with(text: Option<Seq<char>>, modifiers: Modifiers) -> Option<
    KeyEquivalentModel,
> {
    match text {
        Some(key) => Some(KeyEquivalentModel { key, modifier_mask: mask_of(modifiers) }),
        None => None,
    }
}

/// What AppKit is given for an optional shortcut.
pub open spec fn equivalent_of(shortcut: Option<MenuShortcut>) -> Option<KeyEquivalentModel> {
    match shortcut {
        Some(shortcut) => equivalent_with(key_text_of(shortcut.key), shortcut.modifiers),
        None => None,
    }
}

/// Gives the character that stands for a key that has a name.
pub fn find_named_char(named: Named) -> (r: Option<char>)
    ensures
        r == named_char(named),
{
    match named {
        Named::Enter => Some('\r'),
        Named::Tab => Some('\t'),
        Named::Escape => Some('\u{1b}'),
        Named::Backspace => Some('\u{8}'),
        Named::Delete => Some('\u{7f}'),
        Named::ArrowUp => Some('\u{f700}'),
        Named::ArrowDown => Some('\u{f701}'),
        Named::ArrowLeft => Some('\u{f702}'),
        Named::ArrowRight => Some('\u{f703}'),
        Named::Home => Some('\u{f729}'),
        Named::End => Some('\u{f72b}'),
        Named::PageUp => Some('\u{f72c}'),
        Named::PageDown => Some('\u{f72d}'),
        Named::F1 => Some('\u{f704}'),
        Named::F2 => Some('\u{f705}'),
        Named::F3 => Some('\u{f706}'),
        Named::F4 => Some('\u{f707}'),
        Named::F5 => Some('\u{f708}'),
        Named::F6 => Some('\u{f709}'),
        Named::F7 => Some('\u{f70a}'),
        Named::F8 => Some('\u{f70b}'),
        Named::F9 => Some('\u{f70c}'),
        Named::F10 => Some('\u{f70d}'),
        Named::F11 => Some('\u{f70e}'),
        Named::F12 => Some('\u{f70f}'),
        _ => None,
    }
}

/// Gives the text that stands for a key.
pub fn key_text(key: &Key) -> (r: Option<String>)
    ensures
        text_of(r) == key_text_of(*key),
{
    match key {
        Key::Character(text) => Some(text.as_str().to_lowercase()),
        Key::Named(named) => match find_named_char(*named) {
            Some(c) => {
                let mut text: String = String::new();
                text.push(c);
                assert(text@ =~= seq![c]);
                Some(text)
            },
            None => None,
        },
        Key::Unidentified => None,
    }
}

/// Makes a shortcut of the text that stands for its key.
pub fn make_equivalent(text: Option<String>, modifiers: Modifiers) -> (r: Option<KeyEquivalent>)
    ensures
        key_view(r) == equivalent_with(text_of(text), modifiers),
{
    match text {
        Some(key) => {
            let mut modifier_mask: usize = 0;
            if modifiers.command {
                modifier_mask = modifier_mask + COMMAND_MASK;
            }
            if modifiers.shift {
                modifier_mask = modifier_mask + SHIFT_MASK;
            }
            if modifiers.alt {
                modifier_mask = modifier_mask + OPTION_MASK;
            }
            if modifiers.ctrl {
                modifier_mask = modifier_mask + CONTROL_MASK;
            }
            Some(KeyEquivalent { key, modifier_mask })
        },
        None => None,
    }
}

/// Gives what AppKit is given for a shortcut.
pub fn apply_shortcut(shortcut: &MenuShortcut) -> (r: Option<KeyEquivalent>)
    ensures
        key_view(r) == equivalent_with(key_text_of(shortcut.key), shortcut.modifiers),
{
    make_equivalent(key_text(&shortcut.key), shortcut.modifiers)
}

/// Makes the shortcut of the command key and a text.
pub fn command_shortcut(text: &str) -> (r: MenuShortcut)
    ensures
        r.modifiers == (Modifiers { shift: false, ctrl: false, alt: false, command: true }),
        r.key matches Key::Character(key) && key@ == text@,
{
    MenuShortcut {
        modifiers: Modifiers { shift: false, ctrl: false, alt: false, command: true },
        key: Key::Character(String::from_str(text)),
    }
}

/// Different modifiers have different masks.
pub proof fn law_masks_differ(a: Modifiers, b: Modifiers)
    requires
        mask_of(a) == mask_of(b),
    ensures
        a == b,
{
}

/// Different named keys are never given the same character.
pub proof fn law_named_keys_differ(a: Named, b: Named)
    requires
        named_char(a) is Some,
        named_char(a) == named_char(b),
    ensures
        a == b,
{
}

/// Each modifier has a bit of its own: from the lowest up, shift, control, option and command.
/// There are no other bits.
pub proof fn law_each_modifier_has_its_bit(modifiers: Modifiers)
    ensures
        ({
            let mask = mask_of(modifiers);
            &&& (mask / 0x2_0000 % 2 == 1) == modifiers.shift
            &&& (mask / 0x4_0000 % 2 == 1) == modifiers.ctrl
            &&& (mask / 0x8_0000 % 2 == 1) == modifiers.alt
            &&& (mask / 0x10_0000 % 2 == 1) == modifiers.command
            &&& mask % 0x2_0000 == 0
            &&& 0 <= mask < 0x20_0000
        }),
{
}

/// The number of a function key.
pub open spec fn function_number(named: Named) -> int {
    match named {
        Named::F1 => 1,
        Named::F2 => 2,
        Named::F3 => 3,
        Named::F4 => 4,
        Named::F5 => 5,
        Named::F6 => 6,
        Named::F7 => 7,
        Named::F8 => 8,
        Named::F9 => 9,
        Named::F10 => 10,
        Named::F11 => 11,
        Named::F12 => 12,
        _ => 0,
    }
}

/// The code of the character of a key; zero where it has none.
pub open spec fn code_of(named: Named) -> int {
    match named_char(named) {
        Some(c) => c as int,
        None => 0,
    }
}

/// The function keys have characters in a row, behind those of the arrow keys; both are in the
/// range that is set aside for such keys, as are those of the keys for moving to an end or by a
/// page. The other keys that have a character have one of the control characters.
pub proof fn law_keys_have_their_characters(named: Named)
    ensures
        function_number(named) > 0 ==> code_of(named) == 0xf703 + function_number(named),
        named == Named::ArrowUp ==> code_of(named) == 0xf700,
        named == Named::ArrowDown ==> code_of(named) == 1 + code_of(Named::ArrowUp),
        named == Named::ArrowLeft ==> code_of(named) == 1 + code_of(Named::ArrowDown),
        named == Named::ArrowRight ==> code_of(named) == 1 + code_of(Named::ArrowLeft),
        named == Named::Home ==> code_of(named) == 0xf729,
        named == Named::End ==> code_of(named) == 2 + code_of(Named::Home),
        named == Named::PageUp ==> code_of(named) == 1 + code_of(Named::End),
        named == Named::PageDown ==> code_of(named) == 1 + code_of(Named::PageUp),
        named == Named::Enter ==> code_of(named) == 0xd,
        named == Named::Tab ==> code_of(named) == 0x9,
        named == Named::Escape ==> code_of(named) == 0x1b,
        named == Named::Backspace ==> code_of(named) == 0x8,
        named == Named::Delete ==> code_of(named) == 0x7f,
        named == Named::Alt ==> named_char(named) is None,
        named is Other ==> named_char(named) is None,
{
}

/// A shortcut has the lower case of the text that its key produces, or the character of its key,
/// with the mask of its modifiers; without either of them there is none.
pub proof fn law_shortcut_has_its_key(shortcut: MenuShortcut)
    ensures
        ({
            let given = equivalent_of(Some(shortcut));
            &&& given is Some ==> given->0.modifier_mask == mask_of(shortcut.modifiers)
            &&& match shortcut.key {
                Key::Character(text) => given is Some && given->0.key == lowercased(text@),
                Key::Named(named) => (given is Some) == (named_char(named) is Some) && (given
                    is Some ==> given->0.key == seq![named_char(named)->0]),
                Key::Unidentified => given is None,
            }
        }),
        equivalent_of(None) is None,
{
}

} // verus!
