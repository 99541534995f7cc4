use icy_ui::event::{
    Button, Event, Key, KeyboardEvent, MouseEvent, Named, TouchEvent,
};
use icy_ui::geometry::{Cursor, Point, Rectangle, Vector};
use icy_ui::menu::context_menu::{
    context_menu, context_menu_from, ContextEffect, ContextMenu, LayoutDirection, LocalState,
};
use icy_ui::menu::model::{
    find_activated_message, ContextMenuItem, ContextMenuItemKind, MenuId, MenuKind, MenuNode,
    MenuRole,
};
use icy_ui::menu::state::{CloseCondition, Direction, ItemHeight, ItemWidth, PathHighlight};
use icy_ui::menu::tree::MenuTree;
use icy_ui::scalar::pixels::{Pixels, STEPS};

fn px(n: i64) -> Pixels {
    Pixels(n * STEPS)
}

type Widget = ContextMenu<&'static str, u32, &'static str, &'static str>;
type Input = Event<Pixels>;

fn node(id: u64, message: u32) -> MenuNode<u32> {
    MenuNode {
        id: MenuId(id),
        role: MenuRole::Ordinary,
        kind: MenuKind::Item {
            label: "item".to_string(),
            enabled: true,
            shortcut: None,
            on_activate: message,
        },
    }
}

fn tree(item: &'static str) -> MenuTree<&'static str> {
    MenuTree::with_children(item, vec![])
}

fn overlay_menu() -> Widget {
    context_menu("content", "root", vec![node(1, 10)], vec![tree("cut"), tree("copy")], vec![])
}

fn native_menu() -> Widget {
    let native = ContextMenuItem {
        id: MenuId(1),
        kind: ContextMenuItemKind::Item { label: "cut".to_string(), enabled: true },
    };
    context_menu("content", "root", vec![node(1, 10)], vec![tree("cut")], vec![native])
}

fn bounds() -> Rectangle<Pixels> {
    Rectangle { x: px(0), y: px(0), width: px(100), height: px(50) }
}

fn at(x: i64, y: i64) -> Cursor<Pixels> {
    Cursor::Available(Point { x: px(x), y: px(y) })
}

fn release(button: Button) -> Input {
    Event::Mouse(MouseEvent::ButtonReleased { button })
}

fn press(button: Button) -> Input {
    Event::Mouse(MouseEvent::ButtonPressed { button })
}

fn touch(id: u64, down: bool) -> Input {
    let position = Point { x: px(5), y: px(5) };
    Event::Touch(if down {
        TouchEvent::FingerPressed { id, position }
    } else {
        TouchEvent::FingerLifted { id, position }
    })
}

fn escape() -> Input {
    Event::Keyboard(KeyboardEvent::KeyPressed { key: Key::Named(Named::Escape), shift: false })
}

fn describe(effects: &[ContextEffect<Pixels>]) -> String {
    let mut text = String::new();
    for effect in effects {
        match effect {
            ContextEffect::RightClick(p) => text.push_str(&format!("click {} {};", p.x.0 / STEPS, p.y.0 / STEPS)),
            ContextEffect::RequestContextMenu(p) => {
                text.push_str(&format!("native {} {};", p.x.0 / STEPS, p.y.0 / STEPS))
            }
            ContextEffect::CaptureEvent => text.push_str("capture;"),
            ContextEffect::RequestRedraw => text.push_str("redraw;"),
        }
    }
    text
}

fn opened(menu: &Widget) -> LocalState<Pixels> {
    let mut state = menu.state();
    let _ = menu.update(&mut state, &release(Button::Right), bounds(), at(7, 8));
    state
}

#[test]
fn messages_are_found_by_identifier() {
    let nested = MenuNode {
        id: MenuId(3),
        role: MenuRole::Ordinary,
        kind: MenuKind::Submenu {
            label: "more".to_string(),
            enabled: true,
            children: vec![node(4, 40), node(1, 99)],
        },
    };
    let check = MenuNode {
        id: MenuId(5),
        role: MenuRole::Ordinary,
        kind: MenuKind::CheckItem {
            label: "check".to_string(),
            enabled: true,
            checked: None,
            shortcut: None,
            on_activate: 50,
        },
    };
    let nodes = vec![node(1, 10), nested, check];
    assert_eq!(find_activated_message(&MenuId(1), &nodes), Some(10));
    assert_eq!(find_activated_message(&MenuId(4), &nodes), Some(40));
    assert_eq!(find_activated_message(&MenuId(5), &nodes), Some(50));
    assert_eq!(find_activated_message(&MenuId(3), &nodes), None);
    assert_eq!(find_activated_message(&MenuId(6), &nodes), None);
}

#[test]
fn menus_are_numbered_below_a_single_root() {
    let menu: Widget = context_menu_from(
        "content",
        "root",
        Some(vec![MenuTree::with_children("a", vec![tree("a1"), tree("a2")]), tree("b")]),
    );
    assert!(menu.close_on_escape);
    assert!(menu.native_items.is_none());
    assert!(menu.menu_nodes.is_none());
    let lists = menu.children().unwrap();
    assert_eq!(lists.len(), 1);
    let flat: Vec<(&str, usize)> = lists[0].iter().map(|t| (t.item, t.index)).collect();
    assert_eq!(flat, vec![("root", 0), ("a", 1), ("b", 2), ("a1", 3), ("a2", 4)]);
    let none: Widget = context_menu_from("content", "root", None);
    assert!(none.context_menu.is_none());
    assert!(none.children().is_none());
}

#[test]
fn empty_menus_are_no_menus() {
    let menu: Widget = context_menu("content", "root", vec![], vec![], vec![]);
    assert!(menu.context_menu.is_none());
    assert!(menu.native_items.is_none());
    assert!(menu.menu_nodes.is_none());
    assert!(overlay_menu().context_menu.is_some());
    assert!(overlay_menu().native_items.is_none());
    assert!(native_menu().native_items.is_some());
}

#[test]
fn a_right_click_opens_the_overlay() {
    let menu = overlay_menu();
    let mut state = menu.state();
    let r = menu.update(&mut state, &release(Button::Right), bounds(), at(7, 8));
    assert_eq!(describe(&r.effects), "capture;redraw;");
    assert!(r.forward);
    assert!(r.published.is_none());
    assert!(state.menu_bar_state.open);
    assert_eq!(state.menu_bar_state.active_root, vec![0]);
    assert_eq!(state.context_cursor.x, px(7));
    assert_eq!(state.context_cursor.y, px(8));
}

#[test]
fn a_click_elsewhere_opens_nothing() {
    let menu = overlay_menu();
    let mut state = menu.state();
    let r = menu.update(&mut state, &release(Button::Right), bounds(), at(200, 8));
    assert_eq!(describe(&r.effects), "");
    assert!(r.forward);
    assert!(!state.menu_bar_state.open);
    let r = menu.update(&mut state, &release(Button::Left), bounds(), at(7, 8));
    assert_eq!(describe(&r.effects), "redraw;");
    assert!(!state.menu_bar_state.open);
}

#[test]
fn two_fingers_open_the_menu() {
    let menu = overlay_menu();
    let mut state = menu.state();
    let _ = menu.update(&mut state, &touch(1, true), bounds(), at(5, 5));
    let r = menu.update(&mut state, &touch(1, false), bounds(), at(5, 5));
    assert_eq!(describe(&r.effects), "redraw;");
    assert!(!state.menu_bar_state.open);
    let _ = menu.update(&mut state, &touch(1, true), bounds(), at(5, 5));
    let _ = menu.update(&mut state, &touch(2, true), bounds(), at(5, 5));
    assert_eq!(state.fingers_pressed.len(), 2);
    let r = menu.update(&mut state, &touch(2, false), bounds(), at(5, 5));
    assert_eq!(describe(&r.effects), "capture;redraw;");
    assert!(state.menu_bar_state.open);
    assert_eq!(state.fingers_pressed.len(), 1);
}

#[test]
fn a_message_or_a_native_menu_replaces_the_overlay() {
    let menu = overlay_menu().on_right_click("callback");
    let mut state = menu.state();
    let r = menu.update(&mut state, &release(Button::Right), bounds(), at(7, 8));
    assert_eq!(describe(&r.effects), "click 7 8;capture;");
    assert!(!r.forward);
    assert!(!state.menu_bar_state.open);
    let menu = native_menu();
    let mut state = menu.state();
    let r = menu.update(&mut state, &release(Button::Right), bounds(), at(7, 8));
    assert_eq!(describe(&r.effects), "native 7 8;capture;");
    assert!(!r.forward);
    assert!(!state.menu_bar_state.open);
}

#[test]
fn selections_of_a_native_menu_are_published() {
    let menu = native_menu();
    let mut state = menu.state();
    let r = menu.update(
        &mut state,
        &Event::ContextMenuItemSelected(MenuId(1)),
        bounds(),
        Cursor::Unavailable,
    );
    assert_eq!(r.published, Some(10));
    assert_eq!(describe(&r.effects), "capture;");
    assert!(!r.forward);
    let r = menu.update(
        &mut state,
        &Event::ContextMenuItemSelected(MenuId(2)),
        bounds(),
        Cursor::Unavailable,
    );
    assert_eq!(r.published, None);
    assert!(r.forward);
}

#[test]
fn escape_closes_the_menu_unless_switched_off() {
    let menu = overlay_menu();
    let mut state = opened(&menu);
    let r = menu.update(&mut state, &escape(), bounds(), at(7, 8));
    assert_eq!(describe(&r.effects), "capture;redraw;");
    assert!(!state.menu_bar_state.open);
    assert!(state.menu_bar_state.active_root.is_empty());
    let menu = overlay_menu().close_on_escape(false);
    let mut state = opened(&menu);
    let r = menu.update(&mut state, &escape(), bounds(), at(7, 8));
    assert_eq!(describe(&r.effects), "");
    assert!(state.menu_bar_state.open);
}

#[test]
fn a_press_closes_or_moves_an_open_menu() {
    let menu = overlay_menu();
    let mut state = opened(&menu);
    let r = menu.update(&mut state, &press(Button::Left), bounds(), at(20, 8));
    assert_eq!(describe(&r.effects), "capture;redraw;");
    assert!(!state.menu_bar_state.open);
    let mut state = opened(&menu);
    let r = menu.update(&mut state, &press(Button::Right), bounds(), at(20, 9));
    assert_eq!(describe(&r.effects), "capture;redraw;");
    assert!(state.menu_bar_state.open);
    assert_eq!((state.context_cursor.x, state.context_cursor.y), (px(20), px(9)));
    let mut state = opened(&menu);
    let _ = menu.update(&mut state, &press(Button::Right), bounds(), at(200, 9));
    assert!(!state.menu_bar_state.open);
    let mut state = opened(&menu);
    let r = menu.update(&mut state, &press(Button::Middle), bounds(), at(20, 9));
    assert_eq!(describe(&r.effects), "");
    assert!(state.menu_bar_state.open);
}

#[test]
fn submenus_open_in_the_direction_of_the_menu() {
    let menu = overlay_menu();
    let mut state = menu.state::<Pixels>();
    menu.draw(&mut state, LayoutDirection::RightToLeft);
    assert_eq!(state.menu_bar_state.horizontal_direction, Direction::Negative);
    let menu = overlay_menu().layout_direction(LayoutDirection::LeftToRight);
    menu.draw(&mut state, LayoutDirection::RightToLeft);
    assert_eq!(state.menu_bar_state.horizontal_direction, Direction::Positive);
}

#[test]
fn the_overlay_opens_from_the_cursor() {
    let menu = overlay_menu();
    let translation = Vector { x: px(2), y: px(3) };
    assert!(menu.overlay(&menu.state(), translation, true).is_none());
    let state = opened(&menu);
    let overlay = menu.overlay(&state, translation, true).unwrap();
    assert_eq!(overlay.menu_roots.len(), 1);
    assert_eq!(overlay.bounds_expand, 16);
    assert_eq!(overlay.item_width, ItemWidth::Dynamic { min: 180, max: 600 });
    assert_eq!(overlay.item_height, ItemHeight::Dynamic(40));
    assert_eq!(overlay.path_highlight, Some(PathHighlight::MenuActive));
    assert_eq!(
        overlay.close_condition,
        CloseCondition { leave: false, click_outside: true, click_inside: true }
    );
    assert_eq!((overlay.bar_bounds.x, overlay.bar_bounds.y), (px(5), px(5)));
    assert_eq!(overlay.bar_bounds.width, px(0));
    assert_eq!(overlay.root_bounds_list.len(), 1);
    assert_eq!((overlay.position.x, overlay.position.y), (px(2), px(3)));
    assert!(overlay.is_overlay);
}
