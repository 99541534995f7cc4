use icy_ui::event::{
    AccessibilityAction, Button, Event, Key, KeyboardEvent, MouseEvent, Named, ScrollDelta, Status,
    TouchEvent,
};
use icy_ui::geometry::{Cursor, Point, Rectangle, Size};
use icy_ui::menu::events::{Dispatch, PointerOutcome};
use icy_ui::menu::ids::{item_id, panel_id};
use icy_ui::menu::overlay::{ClickStep, Menu, MenuEffect, Pending};
use icy_ui::menu::panels::{stack, ItemRole, Layer, Padding, PanelLayout, PanelStyle};
use icy_ui::menu::state::{
    CloseCondition, ItemHeight, ItemWidth, MenuBarState, MenuBounds, MenuState,
    PathHighlight,
};
use icy_ui::menu::tree::MenuTree;
use icy_ui::scalar::pixels::{Pixels, STEPS};

fn px(n: i64) -> Pixels {
    Pixels(n * STEPS)
}

type Root = MenuTree<&'static str>;
type Input = Event<Pixels>;

fn leaf(item: &'static str) -> Root {
    MenuTree::with_children(item, vec![])
}

fn divider() -> Root {
    let mut tree = leaf("-");
    tree.is_separator = true;
    tree
}

fn lettered(item: &'static str, letter: char) -> Root {
    let mut tree = leaf(item);
    tree.mnemonic = Some(letter);
    tree
}

// File: -, New, Open > (Recent, Other), Quit    Edit: Copy    Empty:
fn roots() -> Vec<Root> {
    let open = MenuTree::with_children("Open", vec![leaf("Recent"), leaf("Other")]);
    let mut roots = vec![
        MenuTree::with_children("File", vec![divider(), lettered("New", 'n'), open, leaf("Quit")]),
        MenuTree::with_children("Edit", vec![leaf("Copy")]),
        MenuTree::with_children("Empty", vec![]),
    ];
    for root in roots.iter_mut() {
        root.set_index();
    }
    roots
}

fn area(x: i64, y: i64, width: i64, height: i64) -> Rectangle<Pixels> {
    Rectangle { x: px(x), y: px(y), width: px(width), height: px(height) }
}

fn panel_bounds(count: usize) -> MenuBounds<Pixels> {
    MenuBounds {
        child_positions: (0..count).map(|i| px(10 * i as i64)).collect(),
        child_sizes: (0..count).map(|_| Size { width: px(50), height: px(10) }).collect(),
        children_bounds: area(0, 20, 50, 10 * count as i64),
        check_bounds: area(0, 20, 50, 10 * count as i64),
    }
}

fn bar(roots: &Vec<Root>) -> Menu<'_, Pixels, &'static str> {
    Menu {
        menu_roots: roots,
        bounds_expand: 10,
        menu_overlays_parent: false,
        close_condition: CloseCondition { leave: false, click_outside: true, click_inside: true },
        item_width: ItemWidth::Uniform(150),
        item_height: ItemHeight::Uniform(30),
        bar_bounds: area(0, 0, 100, 20),
        main_offset: 0,
        cross_offset: 0,
        root_bounds_list: vec![area(0, 0, 30, 20), area(30, 0, 30, 20), area(60, 0, 30, 20)],
        path_highlight: Some(PathHighlight::MenuActive),
        position: Point { x: px(0), y: px(0) },
        is_overlay: true,
        accessible: true,
    }
}

fn opened(menu: &Menu<'_, Pixels, &'static str>) -> MenuBarState<Pixels> {
    let mut state = MenuBarState::new(vec![7, 2, 1]);
    state.open = true;
    state.active_root = vec![0];
    state.menu_states = vec![MenuState {
        index: Some(1),
        scroll_offset: px(0),
        menu_bounds: panel_bounds(4),
    }];
    assert!(menu.find_active_items(&state).is_some());
    state
}

fn press(named: Named) -> KeyboardEvent {
    KeyboardEvent::KeyPressed { key: Key::Named(named), shift: false }
}

fn selected(state: &MenuBarState<Pixels>) -> Option<usize> {
    state.menu_states.last().and_then(|panel| panel.index)
}

#[test]
fn arrows_move_over_separators() {
    let roots = roots();
    let menu = bar(&roots);
    let mut state = opened(&menu);
    let r = menu.handle_keyboard_event(&mut state, &press(Named::ArrowDown), true, px(200), false);
    assert_eq!(r.status, Status::Captured);
    assert_eq!(selected(&state), Some(2));
    assert_eq!(
        r.effects,
        vec![
            MenuEffect::FocusItem { root: 0, panel: 0, item: 2 },
            MenuEffect::RequestRedraw,
        ]
    );
    let _ = menu.handle_keyboard_event(&mut state, &press(Named::ArrowUp), true, px(200), false);
    assert_eq!(selected(&state), Some(1));
    let _ = menu.handle_keyboard_event(&mut state, &press(Named::ArrowUp), true, px(200), false);
    assert_eq!(selected(&state), Some(3));
    let _ = menu.handle_keyboard_event(&mut state, &press(Named::ArrowDown), true, px(200), false);
    assert_eq!(selected(&state), Some(1));
    let _ = menu.handle_keyboard_event(&mut state, &press(Named::End), true, px(200), false);
    assert_eq!(selected(&state), Some(3));
    let _ = menu.handle_keyboard_event(&mut state, &press(Named::Home), true, px(200), false);
    assert_eq!(selected(&state), Some(1));
}

#[test]
fn the_right_arrow_opens_a_submenu_and_the_left_arrow_closes_it() {
    let roots = roots();
    let menu = bar(&roots);
    let mut state = opened(&menu);
    state.menu_states[0].index = Some(2);
    let r = menu.handle_keyboard_event(&mut state, &press(Named::ArrowRight), true, px(200), false);
    assert_eq!(r.status, Status::Captured);
    let pending = r.pending.unwrap();
    match pending {
        Pending::OpenSubmenu { root, hover, aod, parent_bounds } => {
            assert_eq!((root, hover), (0, 2));
            assert!(!aod.horizontal_overlap);
            assert!(aod.vertical_overlap);
            assert_eq!(parent_bounds.y, px(40));
        }
        _ => panic!("no submenu"),
    }
    let effects = menu.finish_open(&mut state, pending, panel_bounds(2));
    assert_eq!(state.active_root, vec![0, 2]);
    assert_eq!(state.menu_states.len(), 2);
    assert_eq!(selected(&state), Some(0));
    assert_eq!(effects[0], MenuEffect::FocusItem { root: 0, panel: 1, item: 0 });
    let r = menu.handle_keyboard_event(&mut state, &press(Named::ArrowLeft), true, px(200), false);
    assert_eq!(r.status, Status::Captured);
    assert_eq!(state.active_root, vec![0]);
    assert_eq!(state.menu_states.len(), 1);
    assert_eq!(selected(&state), Some(2));
}

#[test]
fn the_left_arrow_closes_a_submenu_outside_of_an_overlay() {
    let roots = roots();
    let mut menu = bar(&roots);
    menu.is_overlay = false;
    let mut state = opened(&menu);
    state.menu_states[0].index = Some(2);
    let r = menu.handle_keyboard_event(&mut state, &press(Named::ArrowRight), true, px(200), false);
    let _ = menu.finish_open(&mut state, r.pending.unwrap(), panel_bounds(2));
    assert_eq!(state.active_root, vec![0]);
    assert_eq!(state.menu_states.len(), 2);
    let r = menu.handle_keyboard_event(&mut state, &press(Named::ArrowLeft), true, px(200), false);
    assert_eq!(r.status, Status::Captured);
    assert_eq!(state.active_root, vec![0]);
    assert_eq!(state.menu_states.len(), 1);
    assert_eq!(selected(&state), Some(2));
    assert_eq!(r.effects[0], MenuEffect::FocusItem { root: 0, panel: 0, item: 2 });
}

#[test]
fn the_left_arrow_takes_a_panel_off_the_path() {
    let roots = roots();
    let mut menu = bar(&roots);
    menu.is_overlay = false;
    let mut state = opened(&menu);
    state.active_root = vec![0, 1];
    state.menu_states.push(MenuState {
        index: Some(0),
        scroll_offset: px(0),
        menu_bounds: panel_bounds(2),
    });
    state.menu_states[0].index = None;
    let r = menu.handle_keyboard_event(&mut state, &press(Named::ArrowLeft), true, px(200), false);
    assert_eq!(r.status, Status::Captured);
    assert_eq!(state.active_root, vec![0]);
    assert_eq!(state.menu_states.len(), 1);
    assert_eq!(selected(&state), Some(1));
}

#[test]
fn arrows_switch_between_roots_that_can_open() {
    let roots = roots();
    let menu = bar(&roots);
    let mut state = opened(&menu);
    let r = menu.handle_keyboard_event(&mut state, &press(Named::ArrowRight), true, px(200), false);
    let pending = r.pending.unwrap();
    assert!(matches!(pending, Pending::OpenRoot { index: 1, .. }));
    assert!(state.active_root.is_empty());
    let _ = menu.finish_open(&mut state, pending, panel_bounds(1));
    assert_eq!(state.active_root, vec![1]);
    let r = menu.handle_keyboard_event(&mut state, &press(Named::ArrowRight), true, px(200), false);
    assert!(matches!(r.pending.unwrap(), Pending::OpenRoot { index: 0, .. }));
}

#[test]
fn enter_activates_leaves_only() {
    let roots = roots();
    let menu = bar(&roots);
    let mut state = opened(&menu);
    let r = menu.handle_keyboard_event(&mut state, &press(Named::Enter), true, px(200), false);
    let pending = r.pending.unwrap();
    assert!(matches!(pending, Pending::Activate { root: 0, hover: 1, tree_index: 2 }));
    let activated = menu.finish_activation(&mut state, area(10, 20, 30, 5));
    assert!(!state.open);
    assert!(state.active_root.is_empty());
    assert_eq!(activated.effects, vec![MenuEffect::RequestRedraw]);
    assert_eq!(activated.steps.len(), 3);
    let is_middle = |cursor: &Cursor<Pixels>| match cursor {
        Cursor::Available(p) => p.x == px(25) && p.y == Pixels(22 * STEPS + STEPS / 2),
        _ => false,
    };
    match &activated.steps[0] {
        ClickStep::Update { event, cursor } => {
            assert!(matches!(
                event,
                Event::Mouse(MouseEvent::ButtonPressed { button: Button::Left })
            ));
            assert!(is_middle(cursor));
        }
        ClickStep::Uncapture => panic!("not pressed"),
    }
    assert!(matches!(activated.steps[1], ClickStep::Uncapture));
    match &activated.steps[2] {
        ClickStep::Update { event, cursor } => {
            assert!(matches!(
                event,
                Event::Mouse(MouseEvent::ButtonReleased { button: Button::Left })
            ));
            assert!(is_middle(cursor));
        }
        ClickStep::Uncapture => panic!("not released"),
    }
    let mut state = opened(&menu);
    state.menu_states[0].index = Some(2);
    let r = menu.handle_keyboard_event(&mut state, &press(Named::Enter), true, px(200), false);
    assert!(r.pending.is_none());
    assert_eq!(r.effects, vec![MenuEffect::RequestRedraw]);
}

#[test]
fn letters_activate_their_item() {
    let roots = roots();
    let menu = bar(&roots);
    let mut state = opened(&menu);
    state.menu_states[0].index = None;
    let letter = KeyboardEvent::KeyPressed { key: Key::Character("N".to_string()), shift: true };
    let r = menu.handle_keyboard_event(&mut state, &letter, true, px(200), false);
    assert!(matches!(r.pending, Some(Pending::Activate { hover: 1, .. })));
    let mut state = opened(&menu);
    let r = menu.handle_keyboard_event(&mut state, &letter, false, px(200), false);
    assert_eq!(r.status, Status::Ignored);
    let other = KeyboardEvent::KeyPressed { key: Key::Character("z".to_string()), shift: false };
    let r = menu.handle_keyboard_event(&mut state, &other, true, px(200), false);
    assert_eq!(r.status, Status::Ignored);
    assert!(r.pending.is_none());
}

#[test]
fn alt_shows_and_hides_mnemonics() {
    let roots = roots();
    let menu = bar(&roots);
    let mut state = opened(&menu);
    let r = menu.handle_keyboard_event(&mut state, &press(Named::Alt), true, px(200), false);
    assert_eq!(r.effects[0], MenuEffect::ShowUnderlines(true));
    assert!(state.show_mnemonics);
    let released = KeyboardEvent::KeyReleased { key: Key::Named(Named::Alt) };
    let r = menu.handle_keyboard_event(&mut state, &released, true, px(200), false);
    assert_eq!(r.effects[0], MenuEffect::ShowUnderlines(false));
    assert!(!state.show_mnemonics);
}

#[test]
fn escape_closes_everything() {
    let roots = roots();
    let menu = bar(&roots);
    let mut state = opened(&menu);
    let r = menu.handle_keyboard_event(&mut state, &press(Named::Escape), true, px(200), false);
    assert_eq!(r.status, Status::Captured);
    assert!(!state.open);
    assert!(state.menu_states.is_empty());
    assert!(state.active_root.is_empty());
}

#[test]
fn events_are_told_apart() {
    let roots = roots();
    let menu = bar(&roots);
    let state = opened(&menu);
    let closed = MenuBarState::new(vec![7, 2, 1]);
    let key: Input = Event::Keyboard(KeyboardEvent::ModifiersChanged);
    assert_eq!(menu.dispatch(&closed, &key), Dispatch::Ignored);
    assert_eq!(menu.dispatch(&state, &key), Dispatch::Keyboard);
    assert_eq!(
        menu.dispatch(&state, &Event::Accessibility(AccessibilityAction::Click)),
        Dispatch::Accessibility
    );
    assert_eq!(menu.dispatch(&state, &Event::Window), Dispatch::Pointer);
}

fn viewport() -> Rectangle<Pixels> {
    area(0, 0, 200, 200)
}

fn at(x: i64, y: i64) -> Cursor<Pixels> {
    Cursor::Available(Point { x: px(x), y: px(y) })
}

fn release(button: Button) -> Input {
    Event::Mouse(MouseEvent::ButtonReleased { button })
}

#[test]
fn a_press_is_remembered() {
    let roots = roots();
    let menu = bar(&roots);
    let mut state = opened(&menu);
    let event = Event::Mouse(MouseEvent::ButtonPressed { button: Button::Left });
    let r = menu.handle_pointer(&mut state, &event, at(5, 25), viewport(), Status::Ignored);
    assert!(matches!(r, PointerOutcome::Done(Status::Captured)));
    assert!(state.pressed);
    assert!(matches!(state.view_cursor, Cursor::Available(_)));
}

#[test]
fn clicks_close_by_the_close_condition() {
    let roots = roots();
    let mut menu = bar(&roots);
    let inside = at(5, 25);
    let outside = at(150, 150);
    let mut state = opened(&menu);
    state.view_cursor = at(6, 26);
    let r = menu.handle_pointer(&mut state, &release(Button::Left), inside, viewport(), Status::Ignored);
    assert!(matches!(r, PointerOutcome::Done(Status::Captured)));
    assert!(!state.open);
    let mut state = opened(&menu);
    state.view_cursor = outside;
    let r = menu.handle_pointer(&mut state, &release(Button::Right), outside, viewport(), Status::Ignored);
    assert!(matches!(r, PointerOutcome::Done(Status::Ignored)));
    assert!(state.open);
    state.view_cursor = at(150, 152);
    let r = menu.handle_pointer(&mut state, &release(Button::Left), outside, viewport(), Status::Ignored);
    assert!(matches!(r, PointerOutcome::Done(Status::Ignored)));
    assert!(state.open);
    menu.close_condition.click_inside = false;
    state.view_cursor = inside;
    let r = menu.handle_pointer(&mut state, &release(Button::Left), inside, viewport(), Status::Captured);
    assert!(matches!(r, PointerOutcome::Done(Status::Captured)));
    assert!(state.open);
    let lifted = Event::Touch(TouchEvent::FingerLifted {
        id: 0,
        position: Point { x: px(0), y: px(0) },
    });
    state.view_cursor = at(150, 151);
    let _ = menu.handle_pointer(&mut state, &lifted, outside, viewport(), Status::Ignored);
    assert!(!state.open);
}

#[test]
fn a_release_on_the_bar_closes_the_menu() {
    let roots = roots();
    let menu = bar(&roots);
    let mut state = opened(&menu);
    let r = menu.handle_pointer(&mut state, &release(Button::Right), at(5, 5), viewport(), Status::Ignored);
    assert!(matches!(r, PointerOutcome::Done(Status::Captured)));
    assert!(!state.open);
}

#[test]
fn the_cursor_and_the_wheel_are_followed() {
    let roots = roots();
    let mut menu = bar(&roots);
    let mut state = opened(&menu);
    let shifted = area(10, 20, 50, 50);
    let moved = Event::Mouse(MouseEvent::CursorMoved {
        position: Point { x: px(100), y: px(100) },
    });
    match menu.handle_pointer(&mut state, &moved, at(0, 0), shifted, Status::Ignored) {
        PointerOutcome::Track { overlay_cursor, .. } => {
            assert_eq!((overlay_cursor.x, overlay_cursor.y), (px(110), px(120)));
        }
        _ => panic!("not tracked"),
    }
    menu.is_overlay = false;
    let r = menu.handle_pointer(&mut state, &moved, at(0, 0), shifted, Status::Captured);
    assert!(matches!(r, PointerOutcome::Done(Status::Captured)));
    let wheel = Event::Mouse(MouseEvent::WheelScrolled {
        delta: ScrollDelta::Pixels { x: px(0), y: px(3) },
        shift: false,
    });
    match menu.handle_pointer(&mut state, &wheel, at(1, 2), shifted, Status::Ignored) {
        PointerOutcome::Scroll { delta: ScrollDelta::Pixels { y, .. }, overlay_cursor } => {
            assert_eq!(y, px(3));
            assert_eq!((overlay_cursor.x, overlay_cursor.y), (px(11), px(22)));
        }
        _ => panic!("not scrolled"),
    }
}

#[test]
fn assistive_technologies_select_items() {
    let roots = roots();
    let menu = bar(&roots);
    let mut state = opened(&menu);
    state.active_root = vec![0, 2];
    state.menu_states.push(MenuState {
        index: Some(1),
        scroll_offset: px(0),
        menu_bounds: panel_bounds(2),
    });
    assert_eq!(
        menu.accessible_items(&state),
        vec![(0, 0), (0, 1), (0, 2), (0, 3), (1, 0), (1, 1)]
    );
    let r = menu.handle_accessibility(&mut state, AccessibilityAction::Focus, Some((1, 0)));
    assert_eq!(r, (Status::Captured, vec![MenuEffect::RequestRedraw]));
    assert_eq!(state.menu_states.len(), 2);
    assert_eq!(selected(&state), Some(0));
    let r = menu.handle_accessibility(&mut state, AccessibilityAction::Focus, Some((0, 0)));
    assert_eq!(r, (Status::Ignored, vec![]));
    assert_eq!(state.menu_states.len(), 2);
    let r = menu.handle_accessibility(&mut state, AccessibilityAction::Click, Some((0, 3)));
    assert_eq!(r, (Status::Captured, vec![MenuEffect::RequestRedraw]));
    assert_eq!(state.menu_states.len(), 1);
    assert_eq!(state.active_root, vec![0]);
    assert_eq!(selected(&state), Some(3));
    let _ = menu.handle_accessibility(&mut state, AccessibilityAction::Blur, Some((0, 3)));
    assert_eq!(selected(&state), None);
    let r = menu.handle_accessibility(&mut state, AccessibilityAction::Click, None);
    assert_eq!(r, (Status::Ignored, vec![]));
}

#[test]
fn identifiers_name_root_panel_and_item() {
    assert_eq!(panel_id(0, 12), "icy_ui.menu/0/panel/12");
    assert_eq!(item_id(3, 0, 107), "icy_ui.menu/3/panel/0/item/107");
    assert_ne!(item_id(1, 11, 1), item_id(11, 1, 1));
}

#[test]
fn panels_are_laid_out_and_stacked() {
    let roots = roots();
    let mut menu = bar(&roots);
    menu.position = Point { x: px(4), y: px(5) };
    let mut state = opened(&menu);
    state.menu_states.push(MenuState {
        index: None,
        scroll_offset: px(0),
        menu_bounds: panel_bounds(2),
    });
    let (panels, moved) = menu.layout(&state).unwrap();
    assert_eq!(panels, 2);
    assert_eq!((moved.x, moved.y), (px(-4), px(-5)));
    menu.is_overlay = false;
    assert_eq!(menu.layout(&state).unwrap().0, 1);
    state.active_root = vec![9];
    assert_eq!(menu.layout(&state).unwrap().0, 0);
    state.reset();
    assert!(menu.layout(&state).is_none());
    let size = stack(&vec![
        Size { width: px(10), height: px(20) },
        Size { width: px(30), height: px(5) },
    ]);
    assert_eq!((size.width, size.height), (px(30), px(25)));
}

fn laid_out() -> PanelLayout<Pixels> {
    PanelLayout {
        bounds: area(0, 20, 50, 20),
        start: 1,
        end: 2,
        children: vec![area(0, 20, 50, 10), area(0, 30, 50, 10)],
    }
}

#[test]
fn all_items_are_reported_to_assistive_technologies() {
    let roots = roots();
    let menu = bar(&roots);
    let mut state = opened(&menu);
    state.active_root = vec![0, 2];
    let report = menu.operate_inner(&state, viewport(), &vec![laid_out()]);
    assert!(report.container.equals(&viewport()));
    let nodes = report.panels;
    assert_eq!(nodes.len(), 1);
    assert_eq!(nodes[0].id, "icy_ui.menu/0/panel/0");
    assert_eq!(nodes[0].child_ids.len(), 4);
    assert_eq!(nodes[0].child_ids[3], "icy_ui.menu/0/panel/0/item/3");
    let roles: Vec<ItemRole> = nodes[0].items.iter().map(|n| n.role).collect();
    assert_eq!(
        roles,
        vec![
            ItemRole::Splitter,
            ItemRole::MenuItem { expanded: None },
            ItemRole::MenuItem { expanded: Some(true) },
            ItemRole::MenuItem { expanded: None },
        ]
    );
    let tops: Vec<i64> = nodes[0].items.iter().map(|n| n.bounds.y.0 / STEPS).collect();
    assert_eq!(tops, vec![20, 20, 30, 50]);
    state.menu_states[0].menu_bounds = panel_bounds(1);
    let report = menu.operate_inner(&state, viewport(), &vec![laid_out()]);
    assert!(report.container.equals(&viewport()));
    let nodes = report.panels;
    assert_eq!(nodes[0].items[3].bounds.y, px(20));
    assert_eq!(nodes[0].items[3].bounds.height, px(36));
    state.open = false;
    let report = menu.operate_inner(&state, viewport(), &vec![laid_out()]);
    assert!(report.container.equals(&viewport()));
    assert!(report.panels.is_empty());
}

#[test]
fn panels_are_drawn_with_their_highlight() {
    let roots = roots();
    let mut menu = bar(&roots);
    let state = opened(&menu);
    let style = PanelStyle {
        background_expand: Padding { top: 1, right: 2, bottom: 3, left: 4 },
        content_padding: Padding { top: px(1), right: px(2), bottom: px(3), left: px(4) },
    };
    let plans = menu.draw(&state, &vec![laid_out()], viewport(), at(7, 8), style, 1);
    assert_eq!(plans.len(), 1);
    assert_eq!(plans[0].clip.height, px(20));
    let background = plans[0].background;
    assert_eq!((background.x, background.y), (px(-4), px(19)));
    assert_eq!((background.width, background.height), (px(56), px(24)));
    match plans[0].layer {
        Layer::Bounded(bounds) => {
            assert!(bounds.equals(&Rectangle { x: px(0), y: px(0), ..viewport() }));
        }
        Layer::Unbounded => panic!("not cut off"),
    }
    let highlight = plans[0].highlight.unwrap();
    assert_eq!((highlight.x, highlight.y), (px(4), px(21)));
    assert_eq!((highlight.width, highlight.height), (px(44), px(6)));
    assert_eq!(plans[0].items, vec![(1, 0), (2, 1)]);
    assert!(matches!(plans[0].cursor, Cursor::Available(p) if p.x == px(7) && p.y == px(8)));
    assert!(menu.draw(&state, &vec![laid_out()], viewport(), at(7, 8), style, 0)[0].highlight.is_none());
    menu.path_highlight = Some(PathHighlight::OmitActive);
    assert!(menu.draw(&state, &vec![laid_out()], viewport(), at(7, 8), style, 1)[0].highlight.is_none());
    menu.path_highlight = Some(PathHighlight::Full);
    assert!(menu.draw(&state, &vec![laid_out()], viewport(), at(7, 8), style, 0)[0].highlight.is_some());
    let mut beyond = laid_out();
    beyond.end = 4;
    assert!(menu.draw(&state, &vec![beyond], viewport(), at(7, 8), style, 1)[0].items.is_empty());
    let far = area(500, 500, 10, 10);
    assert_eq!(menu.draw(&state, &vec![laid_out()], far, at(7, 8), style, 1)[0].clip.width, px(0));
    menu.is_overlay = false;
    let plans = menu.draw(&state, &vec![laid_out()], viewport(), at(7, 8), style, 1);
    assert!(matches!(plans[0].layer, Layer::Unbounded));
}

#[test]
fn panels_below_the_last_one_do_not_see_the_cursor() {
    let roots = roots();
    let menu = bar(&roots);
    let mut state = opened(&menu);
    state.active_root = vec![0, 2];
    state.menu_states.push(MenuState {
        index: None,
        scroll_offset: px(0),
        menu_bounds: panel_bounds(2),
    });
    let style = PanelStyle {
        background_expand: Padding { top: 0, right: 0, bottom: 0, left: 0 },
        content_padding: Padding { top: px(0), right: px(0), bottom: px(0), left: px(0) },
    };
    let layouts = vec![laid_out(), laid_out()];
    let plans = menu.draw(&state, &layouts, viewport(), at(7, 8), style, 2);
    assert!(matches!(plans[0].cursor, Cursor::Available(p) if p.x == px(-1) && p.y == px(-1)));
    assert!(matches!(plans[1].cursor, Cursor::Available(p) if p.x == px(7) && p.y == px(8)));
}
