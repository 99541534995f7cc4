use icy_ui::event::{Key, Named};
use icy_ui::mac_menu::label::strip_mnemonic;
use icy_ui::mac_menu::main_menu::build_main_menu;
use icy_ui::mac_menu::plan::{
    activated, build_context_menu, build_context_menu_from_items, build_leaf_item, build_submenu,
    build_submenu_filtered, find_role_items, NativeItem, NativeMenu,
};
use icy_ui::mac_menu::shortcut::{
    apply_shortcut, command_shortcut, find_named_char, key_text, make_equivalent,
};
use icy_ui::mac_menu::signature::menu_signature;
use icy_ui::mac_menu::{Choice, MacContextMenu, MacMenu, MenuError};
use icy_ui::menu::model::{
    AppMenu, ContextMenuItem, ContextMenuItemKind, MenuId, MenuKind, MenuNode, MenuRole,
    MenuShortcut, Modifiers,
};
use icy_ui::scalar::pixels::{Pixels, STEPS};

fn px(n: i64) -> Pixels {
    Pixels(n * STEPS)
}

const PLAIN: Modifiers = Modifiers { shift: false, ctrl: false, alt: false, command: false };

fn item(id: u64, label: &str, role: MenuRole) -> MenuNode<u32> {
    MenuNode {
        id: MenuId(id),
        role,
        kind: MenuKind::Item {
            label: label.to_string(),
            enabled: true,
            shortcut: None,
            on_activate: id as u32,
        },
    }
}

fn submenu(id: u64, label: &str, children: Vec<MenuNode<u32>>) -> MenuNode<u32> {
    MenuNode {
        id: MenuId(id),
        role: MenuRole::Ordinary,
        kind: MenuKind::Submenu { label: label.to_string(), enabled: true, children },
    }
}

fn separator() -> MenuNode<u32> {
    MenuNode { id: MenuId(0), role: MenuRole::Ordinary, kind: MenuKind::Separator }
}

fn describe(items: &[NativeItem]) -> String {
    let mut text = String::new();
    for item in items {
        match item {
            NativeItem::Separator => text.push_str("- "),
            NativeItem::Leaf { title, .. } => text.push_str(&format!("{} ", title)),
            NativeItem::Submenu { title, items, .. } => {
                text.push_str(&format!("{}[ {}] ", title, describe(items)))
            }
        }
    }
    text
}

fn shown(menu: &NativeMenu) -> String {
    describe(&menu.items)
}

fn key_of(item: &NativeItem) -> Option<(String, usize)> {
    match item {
        NativeItem::Leaf { key, .. } => key.as_ref().map(|k| (k.key.clone(), k.modifier_mask)),
        _ => None,
    }
}

#[test]
fn mnemonic_marks_are_stripped() {
    assert_eq!(strip_mnemonic("&File"), "File");
    assert_eq!(strip_mnemonic("Save &As"), "Save As");
    assert_eq!(strip_mnemonic("Cut && Paste"), "Cut & Paste");
    assert_eq!(strip_mnemonic("&&&Both"), "&Both");
    assert_eq!(strip_mnemonic("Ends with &"), "Ends with ");
    assert_eq!(strip_mnemonic("Ends with &&"), "Ends with &");
    assert_eq!(strip_mnemonic("Plain"), "Plain");
    assert_eq!(strip_mnemonic(""), "");
}

#[test]
fn keys_become_texts() {
    assert_eq!(key_text(&Key::Character("Q".to_string())), Some("q".to_string()));
    assert_eq!(key_text(&Key::Character("\u{c4}".to_string())), Some("\u{e4}".to_string()));
    assert_eq!(key_text(&Key::Named(Named::Enter)), Some("\r".to_string()));
    assert_eq!(key_text(&Key::Named(Named::Home)), Some("\u{f729}".to_string()));
    assert_eq!(key_text(&Key::Named(Named::F12)), Some("\u{f70f}".to_string()));
    assert_eq!(key_text(&Key::Named(Named::Alt)), None);
    assert_eq!(key_text(&Key::Unidentified), None);
    assert_eq!(find_named_char(Named::Delete), Some('\u{7f}'));
    assert_eq!(find_named_char(Named::Other(7)), None);
}

#[test]
fn modifiers_become_a_mask() {
    let all = Modifiers { shift: true, ctrl: true, alt: true, command: true };
    let key = make_equivalent(Some("x".to_string()), all).unwrap();
    assert_eq!(key.key, "x");
    assert_eq!(key.modifier_mask, (1 << 20) | (1 << 17) | (1 << 19) | (1 << 18));
    let shift = Modifiers { shift: true, ..PLAIN };
    assert_eq!(make_equivalent(Some("x".to_string()), shift).unwrap().modifier_mask, 1 << 17);
    assert!(make_equivalent(None, all).is_none());
    let shortcut = MenuShortcut { modifiers: PLAIN, key: Key::Named(Named::Alt) };
    assert!(apply_shortcut(&shortcut).is_none());
    let shortcut = command_shortcut("S");
    let key = apply_shortcut(&shortcut).unwrap();
    assert_eq!((key.key.as_str(), key.modifier_mask), ("s", 1 << 20));
}

#[test]
fn leaves_carry_their_entry() {
    let shortcut = command_shortcut("N");
    let leaf = build_leaf_item(MenuId(u64::MAX), "&New", false, Some(true), Some(&shortcut));
    match &leaf {
        NativeItem::Leaf { title, enabled, tag, state, .. } => {
            assert_eq!(title, "New");
            assert!(!*enabled);
            assert_eq!(*tag, -1);
            assert_eq!(*state, 1);
            assert_eq!(activated(*tag), MenuId(u64::MAX));
        }
        _ => panic!("not a leaf"),
    }
    assert_eq!(key_of(&leaf), Some(("n".to_string(), 1 << 20)));
    match build_leaf_item(MenuId(5), "Off", true, Some(false), None) {
        NativeItem::Leaf { state, tag, key, .. } => {
            assert_eq!(state, 0);
            assert_eq!(activated(tag), MenuId(5));
            assert!(key.is_none());
        }
        _ => panic!("not a leaf"),
    }
}

#[test]
fn context_menus_show_every_entry() {
    let check = MenuNode {
        id: MenuId(3),
        role: MenuRole::Ordinary,
        kind: MenuKind::CheckItem {
            label: "Wrap".to_string(),
            enabled: true,
            checked: Some(true),
            shortcut: None,
            on_activate: 3,
        },
    };
    let nodes = vec![
        item(1, "&Cut", MenuRole::Ordinary),
        separator(),
        submenu(2, "More", vec![check, item(4, "About", MenuRole::About)]),
    ];
    assert_eq!(shown(&build_context_menu(&nodes)), "Cut - More[ Wrap About ] ");
    let items = vec![
        ContextMenuItem {
            id: MenuId(1),
            kind: ContextMenuItemKind::Item { label: "&Cut".to_string(), enabled: false },
        },
        ContextMenuItem { id: MenuId(2), kind: ContextMenuItemKind::Separator },
        ContextMenuItem {
            id: MenuId(3),
            kind: ContextMenuItemKind::Submenu {
                label: "&Sub".to_string(),
                children: vec![ContextMenuItem {
                    id: MenuId(4),
                    kind: ContextMenuItemKind::CheckItem {
                        label: "On".to_string(),
                        enabled: true,
                        checked: Some(true),
                    },
                }],
            },
        },
    ];
    let menu = build_context_menu_from_items(&items);
    assert_eq!(shown(&menu), "Cut - Sub[ On ] ");
    assert!(matches!(menu.items[0], NativeItem::Leaf { enabled: false, state: 0, .. }));
    assert!(matches!(menu.items[2], NativeItem::Submenu { enabled: Some(true), .. }));
}

#[test]
fn the_menu_bar_starts_with_the_application_menu() {
    let menu = AppMenu {
        roots: vec![
            submenu(
                1,
                "&File",
                vec![
                    item(10, "Open", MenuRole::Ordinary),
                    item(11, "Settings", MenuRole::Preferences),
                    item(12, "&Quit", MenuRole::Quit),
                    item(13, "Second Quit", MenuRole::Quit),
                    submenu(14, "Empty", vec![]),
                ],
            ),
            submenu(2, "&Help", vec![item(20, "About", MenuRole::About)]),
            submenu(3, "Tools", vec![item(30, "Special", MenuRole::ApplicationSpecific)]),
            item(40, "Stray", MenuRole::Ordinary),
            submenu(5, "View", vec![submenu(50, "Nested", vec![item(51, "Q", MenuRole::Quit)])]),
        ],
    };
    let native = build_main_menu(&menu);
    assert_eq!(
        shown(&native),
        "Application[ About - Settings - Special - Quit ] File[ Open ] View[ Nested[ ] ] "
    );
    match &native.items[0] {
        NativeItem::Submenu { enabled, items, .. } => {
            assert!(enabled.is_none());
            assert_eq!(key_of(&items[0]), None);
            assert_eq!(key_of(&items[2]), Some((",".to_string(), 1 << 20)));
            assert_eq!(key_of(&items[6]), Some(("q".to_string(), 1 << 20)));
            assert!(matches!(items[6], NativeItem::Leaf { tag: 12, .. }));
        }
        _ => panic!("not a menu"),
    }
}

#[test]
fn a_menu_bar_without_roles_has_an_empty_application_menu() {
    let menu = AppMenu { roots: vec![submenu(1, "File", vec![item(2, "New", MenuRole::Ordinary)])] };
    assert_eq!(shown(&build_main_menu(&menu)), "Application[ ] File[ New ] ");
    let menu = AppMenu { roots: vec![submenu(1, "File", vec![item(2, "Quit", MenuRole::Quit)])] };
    assert_eq!(shown(&build_main_menu(&menu)), "Application[ Quit ] ");
}

#[test]
fn a_shortcut_of_its_own_replaces_the_usual_one() {
    let mut quit = item(2, "Quit", MenuRole::Quit);
    if let MenuKind::Item { shortcut, .. } = &mut quit.kind {
        *shortcut = Some(MenuShortcut {
            modifiers: Modifiers { alt: true, ..PLAIN },
            key: Key::Named(Named::F4),
        });
    }
    let menu = AppMenu { roots: vec![submenu(1, "File", vec![quit])] };
    match &build_main_menu(&menu).items[0] {
        NativeItem::Submenu { items, .. } => {
            assert_eq!(key_of(&items[0]), Some(("\u{f707}".to_string(), 1 << 19)));
        }
        _ => panic!("not a menu"),
    }
}

#[test]
fn submenus_leave_out_roles_and_on_request_empty_submenus() {
    let children = vec![
        submenu(1, "Empty", vec![]),
        item(2, "Keep", MenuRole::Ordinary),
        item(3, "Gone", MenuRole::About),
    ];
    assert_eq!(shown(&build_submenu(&children)), "Empty[ ] Keep ");
    assert_eq!(shown(&build_submenu_filtered(&children, true)), "Keep ");
}

#[test]
fn roles_are_found_anywhere() {
    let nodes = vec![
        submenu(1, "A", vec![item(2, "S1", MenuRole::ApplicationSpecific)]),
        item(3, "First", MenuRole::About),
        item(4, "Second", MenuRole::About),
        item(5, "S2", MenuRole::ApplicationSpecific),
    ];
    let roles = find_role_items(&nodes);
    assert_eq!(roles.about.unwrap().id, MenuId(3));
    assert!(roles.preferences.is_none());
    assert!(roles.quit.is_none());
    let ids: Vec<u64> = roles.app_specific.iter().map(|n| n.id.0).collect();
    assert_eq!(ids, vec![2, 5]);
}

#[test]
fn signatures_ignore_identifiers_and_messages() {
    let a = AppMenu { roots: vec![submenu(1, "File", vec![item(2, "New", MenuRole::Ordinary)])] };
    let b = AppMenu { roots: vec![submenu(7, "File", vec![item(8, "New", MenuRole::Ordinary)])] };
    assert_eq!(menu_signature(&a), menu_signature(&b));
}

#[test]
fn signatures_see_visible_changes() {
    let base = AppMenu {
        roots: vec![submenu(
            1,
            "File",
            vec![submenu(2, "Sub", vec![item(3, "A", MenuRole::Ordinary)]), item(4, "B", MenuRole::Ordinary)],
        )],
    };
    let moved = AppMenu {
        roots: vec![submenu(
            1,
            "File",
            vec![submenu(
                2,
                "Sub",
                vec![item(3, "A", MenuRole::Ordinary), item(4, "B", MenuRole::Ordinary)],
            )],
        )],
    };
    let renamed = AppMenu {
        roots: vec![submenu(
            1,
            "File",
            vec![submenu(2, "Sub", vec![item(3, "A", MenuRole::Ordinary)]), item(4, "C", MenuRole::Ordinary)],
        )],
    };
    let role = AppMenu {
        roots: vec![submenu(
            1,
            "File",
            vec![submenu(2, "Sub", vec![item(3, "A", MenuRole::Ordinary)]), item(4, "B", MenuRole::Quit)],
        )],
    };
    let signature = menu_signature(&base);
    assert_ne!(signature, menu_signature(&moved));
    assert_ne!(signature, menu_signature(&renamed));
    assert_ne!(signature, menu_signature(&role));
}

#[test]
fn a_menu_is_installed_when_it_has_changed() {
    assert!(matches!(MacMenu::new(false), Err(MenuError::NotMainThread)));
    let (mut menu, sender) = MacMenu::new(true).ok().unwrap();
    let file = AppMenu { roots: vec![submenu(1, "File", vec![item(2, "New", MenuRole::Ordinary)])] };
    let again = AppMenu { roots: vec![submenu(3, "File", vec![item(4, "New", MenuRole::Ordinary)])] };
    let edit = AppMenu { roots: vec![submenu(1, "Edit", vec![item(2, "New", MenuRole::Ordinary)])] };
    assert!(matches!(menu.sync(&file, false), Err(MenuError::NotMainThread)));
    let native = menu.sync(&file, true).unwrap().unwrap();
    assert_eq!(shown(&native), "Application[ ] File[ New ] ");
    assert!(menu.sync(&again, true).unwrap().is_none());
    assert!(menu.sync(&again, false).unwrap().is_none());
    assert!(menu.sync(&edit, true).unwrap().is_some());
    let entry = |label: &str| item(9, label, MenuRole::Ordinary);
    let beside = vec![submenu(2, "A", vec![entry("x")]), entry("y")];
    let within = vec![submenu(2, "A", vec![entry("x"), entry("y")])];
    let beside = AppMenu { roots: vec![submenu(1, "File", beside)] };
    let within = AppMenu { roots: vec![submenu(1, "File", within)] };
    assert!(menu.sync(&beside, true).unwrap().is_some());
    let native = menu.sync(&within, true).unwrap().unwrap();
    assert_eq!(shown(&native), "Application[ ] File[ A[ x y ] ] ");
    assert!(menu.sync(&within, true).unwrap().is_none());
    assert!(menu.try_recv().is_none());
    sender.send(MenuId(9)).unwrap();
    assert_eq!(menu.try_recv(), Some(MenuId(9)));
}

#[test]
fn context_menus_need_the_main_thread() {
    assert!(matches!(MacContextMenu::new(false), Err(MenuError::NotMainThread)));
    let (menu, sender) = MacContextMenu::new(true).ok().unwrap();
    let nodes = vec![item(1, "Cut", MenuRole::Ordinary)];
    assert!(matches!(
        menu.show(&nodes, false, px(1), px(2)),
        Err(MenuError::NotMainThread)
    ));
    let (native, at) = menu.show(&nodes, true, px(1), px(2)).unwrap();
    assert_eq!(shown(&native), "Cut ");
    assert_eq!((at.x, at.y), (px(1), px(2)));
    sender.send(MenuId(1)).unwrap();
    assert_eq!(menu.try_recv(), Some(MenuId(1)));
    assert_eq!(menu.try_recv(), None);
}

#[test]
fn only_the_choice_of_the_menu_that_is_shown_is_waited_for() {
    let (mut menu, sender) = MacContextMenu::new(true).ok().unwrap();
    let items = vec![ContextMenuItem { id: MenuId(2), kind: ContextMenuItemKind::Separator }];
    let prepare = |menu: &mut MacContextMenu, on_main_thread| {
        menu.prepare_items(&items, on_main_thread, false, px(100), px(3), px(10))
    };
    sender.send(MenuId(1)).unwrap();
    let refused = prepare(&mut menu, false);
    assert!(matches!(refused, Err(MenuError::NotMainThread)));
    assert_eq!(menu.count_showings(), 0);
    assert_eq!(menu.show_items_and_wait(refused), None);
    let earlier = prepare(&mut menu, true).ok().unwrap();
    earlier.sender.send(Choice { showing: earlier.number, id: MenuId(5) }).unwrap();
    let dismissed = prepare(&mut menu, true);
    assert_eq!(menu.show_items_and_wait(dismissed), None);
    let showing = prepare(&mut menu, true).ok().unwrap();
    assert_eq!(shown(&showing.menu), "- ");
    assert_eq!((showing.location.x, showing.location.y), (px(3), px(90)));
    assert_ne!(showing.number, earlier.number);
    showing.sender.send(Choice { showing: showing.number, id: MenuId(2) }).unwrap();
    assert_eq!(menu.show_items_and_wait(Ok(showing)), Some(MenuId(2)));
    let misled = prepare(&mut menu, true).ok().unwrap();
    misled.sender.send(Choice { showing: earlier.number, id: MenuId(5) }).unwrap();
    assert_eq!(menu.show_items_and_wait(Ok(misled)), None);
    assert_eq!(menu.show_items_and_wait(Ok(earlier)), Some(MenuId(5)));
    assert_eq!(menu.count_showings(), 4);
    assert_eq!(menu.try_recv(), Some(MenuId(1)));
}

#[test]
fn positions_are_flipped_for_views_that_are_not() {
    let (menu, _sender) = MacContextMenu::new(true).ok().unwrap();
    let items: Vec<ContextMenuItem> = vec![];
    let (_, at) = menu.show_items(&items, true, true, px(100), px(3), px(10)).unwrap();
    assert_eq!((at.x, at.y), (px(3), px(10)));
    let (_, at) = menu.show_items(&items, true, false, px(100), px(3), px(10)).unwrap();
    assert_eq!((at.x, at.y), (px(3), px(90)));
    assert!(menu.show_items(&items, false, false, px(100), px(3), px(10)).is_err());
}

#[test]
fn errors_have_a_message() {
    assert_eq!(MenuError::NotMainThread.message(), "Not running on the main thread");
}
