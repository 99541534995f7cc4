use icy_ui::event::{
    Button, Event, Key, KeyboardEvent, MouseEvent, Named, ScrollDelta, TouchEvent,
};
use icy_ui::geometry::{Cursor, Point, Rectangle, Size, Vector};
use icy_ui::menu::overlay::Menu;
use icy_ui::menu::state::{
    CloseCondition, Direction as Side, ItemHeight, ItemWidth, MenuBarState,
};
use icy_ui::menu::tree::MenuTree;
use icy_ui::scalar::{Arithmetic, Scalar};
use icy_ui::scrolling::scrollable::{
    AbsoluteOffset, Anchor, Direction, RelativeOffset, Scrollbar, Status, Viewport,
};
use icy_ui::scrolling::virtual_scrollable::draw::{
    Arrow, AutoScrollIcon, Color, ContentParts, Edge, Fill, ScrollStyle,
};
use icy_ui::scrolling::virtual_scrollable::frame::Frame;
use icy_ui::scrolling::virtual_scrollable::notify::ScrollEffect;
use icy_ui::scrolling::virtual_scrollable::offset::Offset;
use icy_ui::scrolling::virtual_scrollable::react::enter_hover;
use icy_ui::scrolling::virtual_scrollable::scene::status_fields_changed;
use icy_ui::scrolling::virtual_scrollable::scrollbars::Scrollbars;
use icy_ui::scrolling::virtual_scrollable::state::{Interaction, Motion, State};
use icy_ui::scrolling::virtual_scrollable::update::Next;
use icy_ui::scrolling::virtual_scrollable::{show_rows, visible_rows, Length, VirtualScrollable};
use icy_ui::time::Instant;

#[derive(Clone, Copy, Debug, PartialEq)]
struct Px(f32);

impl Arithmetic for Px {}

impl Scalar for Px {
    fn ratio(numerator: i32, denominator: i32) -> Self {
        Px(numerator as f32 / denominator as f32)
    }
    fn plus(self, other: Self) -> Self {
        Px(self.0 + other.0)
    }
    fn minus(self, other: Self) -> Self {
        Px(self.0 - other.0)
    }
    fn times(self, other: Self) -> Self {
        Px(self.0 * other.0)
    }
    fn over(self, other: Self) -> Self {
        Px(self.0 / other.0)
    }
    fn modulo(self, other: Self) -> Self {
        Px(self.0 % other.0)
    }
    fn negate(self) -> Self {
        Px(-self.0)
    }
    fn abs(self) -> Self {
        Px(self.0.abs())
    }
    fn signum(self) -> Self {
        Px(self.0.signum())
    }
    fn round(self) -> Self {
        Px(self.0.round())
    }
    fn floor(self) -> Self {
        Px(self.0.floor())
    }
    fn min(self, other: Self) -> Self {
        Px(self.0.min(other.0))
    }
    fn max(self, other: Self) -> Self {
        Px(self.0.max(other.0))
    }
    fn clamp(self, low: Self, high: Self) -> Self {
        Px(self.0.clamp(low.0, high.0))
    }
    fn lt(self, other: Self) -> bool {
        self.0 < other.0
    }
    fn le(self, other: Self) -> bool {
        self.0 <= other.0
    }
    fn eq(self, other: Self) -> bool {
        self.0 == other.0
    }
    fn is_nan(self) -> bool {
        self.0.is_nan()
    }
    fn epsilon() -> Self {
        Px(f32::EPSILON)
    }
    fn from_nanos(nanos: u64) -> Self {
        Px(std::time::Duration::from_nanos(nanos).as_secs_f32())
    }
    fn from_count(n: usize) -> Self {
        Px(n as f32)
    }
    fn to_floor_index(self) -> usize {
        self.0.floor().max(0.0) as usize
    }
    fn to_ceil_index(self) -> usize {
        self.0.ceil() as usize
    }
}

type Widget = VirtualScrollable<Px, &'static str, &'static str, &'static str, u32>;
type Input = Event<Px>;

const PARTS: ContentParts = ContentParts { has_state: true, has_layout: true };

fn area(x: f32, y: f32, width: f32, height: f32) -> Rectangle<Px> {
    Rectangle { x: Px(x), y: Px(y), width: Px(width), height: Px(height) }
}

fn sides(r: &Rectangle<Px>) -> (f32, f32, f32, f32) {
    (r.x.0, r.y.0, r.width.0, r.height.0)
}

fn at(x: f32, y: f32) -> Cursor<Px> {
    Cursor::Available(Point { x: Px(x), y: Px(y) })
}

fn moment(millis: u64) -> Instant {
    Instant { nanos: millis * 1_000_000 }
}

// A list of a hundred rows of ten pixels, in a window of a hundred by two hundred.
fn list() -> Widget {
    show_rows(Px(10.0), 100, "rows", "class")
}

fn window() -> Rectangle<Px> {
    area(0.0, 0.0, 100.0, 200.0)
}

fn content() -> Rectangle<Px> {
    area(0.0, 0.0, 100.0, 1000.0)
}

fn still() -> Motion<Px> {
    Motion {
        hover_running: false,
        hover_factor: Px(0.0),
        scroll_running: false,
        scroll_progress: Px(0.0),
    }
}

fn frame(millis: u64) -> Frame<Px> {
    Frame {
        now: moment(millis),
        clock: moment(millis + 1),
        pull: Vector { x: Px(0.0), y: Px(0.0) },
        decay: Px(0.5),
        motion: still(),
    }
}

fn y_of(state: &State<Px>) -> f32 {
    state.offset_y.absolute(Px(200.0), Px(1000.0)).0
}

fn describe(effects: &[ScrollEffect<Px>]) -> String {
    let mut text = String::new();
    for effect in effects {
        match effect {
            ScrollEffect::CaptureEvent => text.push_str("capture;"),
            ScrollEffect::RequestRedraw => text.push_str("redraw;"),
            ScrollEffect::RequestRedrawAt(at) => {
                text.push_str(&format!("at {};", at.nanos / 1_000_000))
            }
            ScrollEffect::Publish(v) => text.push_str(&format!("publish {};", v.offset.y.0)),
        }
    }
    text
}

// Takes an event through all steps, with content that ignores it.
fn run(
    widget: &mut Widget,
    state: &mut State<Px>,
    event: &Input,
    cursor: Cursor<Px>,
    millis: u64,
) -> String {
    let scene = widget.scene(state, window(), cursor);
    let begun = widget.begin(state, event, &scene, cursor, moment(millis));
    let mut text = describe(&begun.effects);
    let captured = text.contains("capture");
    match begun.next {
        Next::Finish => return text,
        Next::Settle => {}
        Next::Forward(_) | Next::React => {
            let effects =
                widget.react(state, event, &scene, cursor, captured, false, moment(millis));
            text.push_str(&describe(&effects));
        }
    }
    let changed = enter_hover(state, &scene);
    let effects = widget.settle(state, event, &scene, changed, moment(millis), &still());
    text.push_str(&describe(&effects));
    text
}

fn wheel(y: f32) -> Input {
    Event::Mouse(MouseEvent::WheelScrolled {
        delta: ScrollDelta::Pixels { x: Px(0.0), y: Px(y) },
        shift: false,
    })
}

fn moved(x: f32, y: f32) -> Input {
    Event::Mouse(MouseEvent::CursorMoved { position: Point { x: Px(x), y: Px(y) } })
}

fn press(button: Button) -> Input {
    Event::Mouse(MouseEvent::ButtonPressed { button })
}

fn release(button: Button) -> Input {
    Event::Mouse(MouseEvent::ButtonReleased { button })
}

fn key(named: Named, shift: bool) -> Input {
    Event::Keyboard(KeyboardEvent::KeyPressed { key: Key::Named(named), shift })
}

#[test]
fn roots_in_the_far_half_open_toward_the_middle() {
    let roots = vec![
        MenuTree::with_children("File", vec![MenuTree::with_children("New", vec![])]),
        MenuTree::with_children("Edit", vec![MenuTree::with_children("Copy", vec![])]),
    ];
    let menu = Menu {
        menu_roots: &roots,
        bounds_expand: 10,
        menu_overlays_parent: false,
        close_condition: CloseCondition { leave: false, click_outside: true, click_inside: true },
        item_width: ItemWidth::Uniform(150),
        item_height: ItemHeight::Uniform(30),
        bar_bounds: area(0.0, 0.0, 100.0, 20.0),
        main_offset: 0,
        cross_offset: 0,
        root_bounds_list: vec![area(0.0, 0.0, 30.0, 20.0), area(30.0, 0.0, 31.0, 20.0)],
        path_highlight: None,
        position: Point { x: Px(0.0), y: Px(0.0) },
        is_overlay: true,
        accessible: false,
    };
    let mut state = MenuBarState::new(vec![2, 2]);
    let _ = menu.open_root_menu_by_index(&mut state, 1, Px(90.0), false);
    assert_eq!(state.horizontal_direction, Side::Negative);
    let _ = menu.open_root_menu_by_index(&mut state, 1, Px(91.0), false);
    assert_eq!(state.horizontal_direction, Side::Positive);
    let _ = menu.open_root_menu_by_index(&mut state, 1, Px(91.0), true);
    assert_eq!(state.horizontal_direction, Side::Negative);
}

#[test]
fn offsets_stop_at_the_end() {
    assert_eq!(Offset::Absolute(Px(250.0)).absolute(Px(100.0), Px(300.0)), Px(200.0));
    assert_eq!(Offset::Relative(Px(0.25)).absolute(Px(100.0), Px(300.0)), Px(50.0));
    assert_eq!(Offset::Relative(Px(0.25)).absolute(Px(300.0), Px(100.0)), Px(0.0));
    assert_eq!(Offset::Absolute(Px(30.0)).translation(Px(100.0), Px(300.0), Anchor::Start), Px(30.0));
    assert_eq!(Offset::Absolute(Px(30.0)).translation(Px(100.0), Px(300.0), Anchor::End), Px(170.0));
    assert!(Offset::Absolute(Px(1.0)).equals(Offset::Absolute(Px(1.0))));
    assert!(!Offset::Absolute(Px(1.0)).equals(Offset::Relative(Px(1.0))));
}

#[test]
fn scrolling_stays_within_the_content() {
    let mut state: State<Px> = State::new();
    let down = Vector { x: Px(5.0), y: Px(300.0) };
    state.scroll(down, window(), content());
    assert_eq!(y_of(&state), 300.0);
    assert!(matches!(state.offset_x, Offset::Absolute(Px(x)) if x == 0.0));
    state.scroll(Vector { x: Px(0.0), y: Px(600.0) }, window(), content());
    assert_eq!(y_of(&state), 800.0);
    state.scroll_by(AbsoluteOffset { x: Px(0.0), y: Px(-900.0) }, window(), content());
    assert_eq!(y_of(&state), 0.0);
}

#[test]
fn scroll_positions_can_be_set() {
    let mut state: State<Px> = State::new();
    state.scroll_y_to(Px(0.5), window(), content());
    assert!(matches!(state.offset_y, Offset::Absolute(Px(y)) if y == 400.0));
    state.scroll_x_to(Px(2.0), window(), area(0.0, 0.0, 300.0, 1000.0));
    assert!(matches!(state.offset_x, Offset::Absolute(Px(x)) if x == 200.0));
    state.snap_to(RelativeOffset { x: None, y: Some(Px(1.5)) });
    assert!(matches!(state.offset_y, Offset::Relative(Px(y)) if y == 1.0));
    assert!(matches!(state.offset_x, Offset::Absolute(Px(x)) if x == 200.0));
    state.unsnap(window(), content());
    assert!(matches!(state.offset_y, Offset::Absolute(Px(y)) if y == 800.0));
    state.scroll_to(AbsoluteOffset { x: Some(Px(-3.0)), y: None });
    assert!(matches!(state.offset_x, Offset::Absolute(Px(x)) if x == 0.0));
}

#[test]
fn animated_scrolls_head_for_the_content() {
    let mut state: State<Px> = State::new();
    state.velocity = Vector { x: Px(9.0), y: Px(9.0) };
    state.scroll_to_animated(
        AbsoluteOffset { x: Px(50.0), y: Px(5000.0) },
        window(),
        content(),
        moment(3),
    );
    let target = state.scroll_to_target.unwrap();
    assert_eq!((target.x, target.y), (Px(0.0), Px(800.0)));
    assert_eq!(state.velocity.y, Px(0.0));
    assert!(state.update_scroll_to_animation(true, Px(0.5), window(), content()));
    assert_eq!(y_of(&state), 700.0);
    assert!(!state.update_scroll_to_animation(false, Px(1.0), window(), content()));
    assert_eq!(y_of(&state), 800.0);
    assert!(state.scroll_to_animation.is_none());
    assert!(!state.update_scroll_to_animation(true, Px(0.5), window(), content()));
    state.animate_by(AbsoluteOffset { x: Px(0.0), y: Px(-100.0) }, window(), content(), moment(4));
    assert_eq!(state.scroll_to_target.unwrap().y, Px(700.0));
    state.animate_to(AbsoluteOffset { x: None, y: Some(Px(10.0)) }, window(), content(), moment(5));
    assert_eq!(state.scroll_to_target.unwrap().y, Px(10.0));
    assert_eq!(state.scroll_to_start.unwrap().y, Px(800.0));
}

#[test]
fn momentum_wears_off() {
    let mut state: State<Px> = State::new();
    assert!(!state.update_kinetic(moment(0), Px(0.5), window(), content()));
    state.velocity = Vector { x: Px(50.0), y: Px(1000.0) };
    assert!(state.is_kinetic_active());
    assert!(state.update_kinetic(moment(0), Px(0.5), window(), content()));
    assert_eq!(y_of(&state), 16.0);
    assert_eq!((state.velocity.x, state.velocity.y), (Px(0.0), Px(500.0)));
    assert!(state.update_kinetic(moment(1000), Px(0.5), window(), content()));
    assert_eq!(y_of(&state), 516.0);
    assert!(state.update_kinetic(moment(3000), Px(0.5), window(), content()));
    assert_eq!(y_of(&state), 800.0);
    assert!(!state.update_kinetic(moment(4000), Px(0.5), window(), content()));
    assert_eq!(state.velocity.y, Px(0.0));
    assert!(!state.is_kinetic_active());
}

#[test]
fn frames_are_asked_for_while_something_moves() {
    let mut state: State<Px> = State::new();
    assert_eq!(state.next_redraw_instant(moment(5), &still()), None);
    let hovering = Motion { hover_running: true, ..still() };
    assert_eq!(state.next_redraw_instant(moment(5), &hovering), Some(moment(21)));
    let scrolling = Motion { scroll_running: true, ..still() };
    assert_eq!(state.next_redraw_instant(moment(5), &scrolling), None);
    state.scroll_to_animation = Some(moment(1));
    assert_eq!(state.next_redraw_instant(moment(5), &scrolling), Some(moment(21)));
}

#[test]
fn scrollbars_mirror_the_position() {
    let mut state: State<Px> = State::new();
    state.scroll_to(AbsoluteOffset { x: None, y: Some(Px(400.0)) });
    let direction = Direction::Vertical(Scrollbar {
        width: Px(8.0),
        margin: Px(1.0),
        scroller_width: Px(6.0),
        alignment: Anchor::Start,
        spacing: None,
    });
    let size = Size { width: Px(100.0), height: Px(200.0) };
    let bars = Scrollbars::new(&state, direction, window(), size, content());
    assert!(bars.x.is_none());
    assert!(bars.active());
    let y = bars.y.unwrap();
    assert_eq!(sides(&y.total_bounds), (90.0, 0.0, 10.0, 200.0));
    assert_eq!(sides(&y.bounds), (91.0, 0.0, 8.0, 200.0));
    assert_eq!(sides(&y.scroller.unwrap().bounds), (92.0, 80.0, 6.0, 40.0));
    assert!(!bars.is_y_disabled());
    assert_eq!(bars.is_mouse_over(at(95.0, 5.0)), (true, false));
    assert_eq!(bars.is_mouse_over(at(85.0, 5.0)), (false, false));
    assert_eq!(bars.is_mouse_over(Cursor::Unavailable), (false, false));
    assert_eq!(bars.grab_y_scroller(Point { x: Px(95.0), y: Px(90.0) }), Some(Px(0.25)));
    assert_eq!(bars.grab_y_scroller(Point { x: Px(95.0), y: Px(10.0) }), Some(Px(0.5)));
    assert_eq!(bars.grab_y_scroller(Point { x: Px(5.0), y: Px(90.0) }), None);
    assert_eq!(bars.grab_x_scroller(Point { x: Px(95.0), y: Px(90.0) }), None);
    let p = Point { x: Px(95.0), y: Px(100.0) };
    assert_eq!(y.scroll_percentage_y(Px(0.5), p), Px(0.5));
    let mut reversed = y;
    reversed.alignment = Anchor::End;
    assert_eq!(reversed.scroll_percentage_y(Px(0.0), p), Px(0.375));
    reversed.scroller = None;
    assert_eq!(reversed.scroll_percentage_y(Px(0.0), p), Px(0.0));
}

#[test]
fn two_scrollbars_leave_each_other_room() {
    let state: State<Px> = State::new();
    let bar = Scrollbar::<Px>::plain();
    let direction = Direction::Both { vertical: bar, horizontal: bar };
    let wide = area(0.0, 0.0, 300.0, 1000.0);
    let size = Size { width: Px(100.0), height: Px(200.0) };
    let bars = Scrollbars::new(&state, direction, window(), size, wide);
    assert_eq!(bars.y.unwrap().total_bounds.height, Px(190.0));
    assert_eq!(bars.x.unwrap().total_bounds.width, Px(90.0));
    assert_eq!(sides(&bars.x.unwrap().total_bounds), (0.0, 190.0, 90.0, 10.0));
    let smaller = Size { width: Px(85.0), height: Px(185.0) };
    let bars = Scrollbars::new(&state, direction, window(), smaller, wide);
    assert_eq!(bars.y.unwrap().total_bounds.height, Px(185.0));
    assert_eq!(bars.x.unwrap().total_bounds.width, Px(85.0));
    let p = Point { x: Px(40.0), y: Px(195.0) };
    assert_eq!(bars.grab_x_scroller(p), Some(Px(0.5)));
    assert!(bars.x.unwrap().scroll_percentage_x(Px(0.5), p).0 > 0.0);
}

#[test]
fn builders_set_what_they_name() {
    let widget = list()
        .auto_scroll(true)
        .direction(Direction::Both { vertical: Scrollbar::plain(), horizontal: Scrollbar::plain() })
        .anchor_bottom()
        .anchor_right()
        .id(7)
        .width(Length::Shrink)
        .height(Length::Fixed(Px(3.0)))
        .on_scroll("message")
        .style("other")
        .cache_key(42);
    assert!(widget.auto_scroll);
    assert_eq!(widget.direction.vertical().unwrap().alignment, Anchor::End);
    assert_eq!(widget.direction.horizontal().unwrap().alignment, Anchor::End);
    assert_eq!(widget.id, Some(7));
    assert!(matches!(widget.width, Length::Shrink));
    assert!(matches!(widget.height, Length::Fixed(Px(h)) if h == 3.0));
    assert_eq!(widget.on_scroll, Some("message"));
    assert_eq!(widget.class, "other");
    assert_eq!(widget.cache_key, 42);
    let widget = widget.anchor_top().anchor_left();
    assert_eq!(widget.direction.vertical().unwrap().alignment, Anchor::Start);
    assert_eq!(widget.direction.horizontal().unwrap().alignment, Anchor::Start);
    let sideways = list().horizontal().anchor_bottom();
    assert!(sideways.direction.vertical().is_none());
    assert_eq!(sideways.direction.horizontal().unwrap().alignment, Anchor::Start);
    assert_eq!(list().content_size.height, Px(1000.0));
    let plain: Widget = VirtualScrollable::new(Size { width: Px(1.0), height: Px(2.0) }, "view", "class");
    assert!(plain.row_height.is_none());
    assert!(!plain.auto_scroll);
}

#[test]
fn only_visible_rows_are_built() {
    assert_eq!(list().rows_in(area(0.0, 45.0, 10.0, 60.0)), Some(4..12));
    let few: Widget = show_rows(Px(10.0), 5, "rows", "class");
    assert_eq!(few.rows_in(area(0.0, 0.0, 10.0, 60.0)), Some(0..5));
    let other: Widget =
        VirtualScrollable::new(Size { width: Px(10.0), height: Px(10.0) }, "view", "class");
    assert_eq!(other.rows_in(area(0.0, 0.0, 10.0, 60.0)), None);
    assert_eq!(visible_rows(Px(30.0), 100, area(0.0, 45.0, 10.0, 60.0)), 1..5);
    assert_eq!(visible_rows(Px(30.0), 4, area(0.0, 45.0, 10.0, 60.0)), 1..4);
    assert_eq!(visible_rows(Px(30.0), 100, area(0.0, -45.0, 10.0, 60.0)), 0..2);
    assert_eq!(visible_rows(Px(0.0), 100, area(0.0, 1.0, 10.0, 60.0)).end, 100);
}

#[test]
fn content_is_built_when_it_changes() {
    let mut widget = list();
    let mut state: State<Px> = State::new();
    let size = Size { width: Px(100.0), height: Px(200.0) };
    let plan = widget.layout(&mut state, size);
    assert!(plan.rebuild);
    assert_eq!(sides(&plan.visible), (0.0, 0.0, 100.0, 200.0));
    assert!(!widget.layout(&mut state, size).rebuild);
    state.scroll(Vector { x: Px(0.0), y: Px(25.0) }, window(), content());
    let plan = widget.layout(&mut state, size);
    assert!(plan.rebuild);
    assert_eq!(plan.visible.y, Px(25.0));
    let mut widget = widget.cache_key(1);
    assert!(widget.layout(&mut state, size).rebuild);
    assert!(!widget.layout(&mut state, size).rebuild);
    assert_eq!(sides(&widget.cached_content.unwrap()), (0.0, 25.0, 100.0, 200.0));
}

#[test]
fn embedded_scrollbars_take_room_when_needed() {
    let bar = Scrollbar { spacing: Some(Px(2.0)), ..Scrollbar::plain() };
    let mut widget = list().direction(Direction::Both { vertical: bar, horizontal: bar });
    let mut state: State<Px> = State::new();
    let plan = widget.layout(&mut state, Size { width: Px(100.0), height: Px(200.0) });
    assert!(state.is_y_scrollbar_visible);
    assert!(state.is_x_scrollbar_visible);
    assert_eq!((plan.viewport.width, plan.viewport.height), (Px(88.0), Px(188.0)));
    let plan = widget.layout(&mut state, Size { width: Px(100.0), height: Px(2000.0) });
    assert!(!state.is_y_scrollbar_visible);
    assert!(!state.is_x_scrollbar_visible);
    assert_eq!((plan.viewport.width, plan.viewport.height), (Px(100.0), Px(2000.0)));
    let operation = widget.operate(&state, window());
    assert_eq!(sides(&operation.content_bounds), (0.0, 0.0, 100.0, 1000.0));
    assert_eq!(operation.translation.y, Px(0.0));
}

#[test]
fn the_wheel_scrolls_under_the_cursor() {
    let mut widget = list().on_scroll("message");
    let mut state: State<Px> = State::new();
    let text = run(&mut widget, &mut state, &wheel(-30.0), at(50.0, 50.0), 0);
    assert_eq!(text, "publish 30;capture;redraw;");
    assert_eq!(y_of(&state), 30.0);
    assert_eq!(state.last_scrolled, Some(moment(0)));
    let text = run(&mut widget, &mut state, &wheel(-30.0), at(500.0, 50.0), 1);
    assert_eq!(text, "");
    assert_eq!(y_of(&state), 30.0);
    let lines = Event::Mouse(MouseEvent::WheelScrolled {
        delta: ScrollDelta::Lines { x: Px(0.0), y: Px(-1.0) },
        shift: false,
    });
    let _ = run(&mut widget, &mut state, &lines, at(50.0, 50.0), 2);
    assert_eq!(y_of(&state), 90.0);
    let sideways = Event::Mouse(MouseEvent::WheelScrolled {
        delta: ScrollDelta::Lines { x: Px(0.0), y: Px(-1.0) },
        shift: true,
    });
    let _ = run(&mut widget, &mut state, &sideways, at(50.0, 50.0), 3);
    assert_eq!(y_of(&state), 90.0);
    let scene = widget.scene(&state, window(), at(50.0, 50.0));
    let _ = widget.react(&mut state, &sideways, &scene, at(50.0, 50.0), false, true, moment(4));
    assert_eq!(y_of(&state), 150.0);
}

#[test]
fn a_transaction_keeps_the_wheel_from_the_content() {
    let mut widget = list();
    let mut state: State<Px> = State::new();
    let cursor = at(50.0, 50.0);
    let scene = widget.scene(&state, window(), cursor);
    let begun = widget.begin(&mut state, &wheel(-1.0), &scene, cursor, moment(0));
    assert!(matches!(begun.next, Next::Forward(_)));
    state.last_scrolled = Some(moment(0));
    let begun = widget.begin(&mut state, &wheel(-1.0), &scene, cursor, moment(1500));
    assert!(matches!(begun.next, Next::React));
    let begun = widget.begin(&mut state, &wheel(-1.0), &scene, cursor, moment(1501));
    assert!(matches!(begun.next, Next::Forward(_)));
    assert_eq!(state.last_scrolled, None);
    state.last_scrolled = Some(moment(0));
    let _ = widget.begin(&mut state, &moved(50.0, 50.0), &scene, cursor, moment(100));
    assert_eq!(state.last_scrolled, Some(moment(0)));
    let _ = widget.begin(&mut state, &moved(50.0, 50.0), &scene, cursor, moment(101));
    assert_eq!(state.last_scrolled, None);
}

#[test]
fn the_content_sees_events_with_its_own_cursor() {
    let mut widget = list();
    let mut state: State<Px> = State::new();
    let cursor = at(50.0, 50.0);
    let scene = widget.scene(&state, window(), cursor);
    match widget.begin(&mut state, &moved(50.0, 50.0), &scene, cursor, moment(0)).next {
        Next::Forward(forward) => {
            assert!(!forward.from_cache);
            assert_eq!(sides(&forward.viewport), (0.0, 0.0, 100.0, 200.0));
            assert!(matches!(forward.cursor, Cursor::Available(_)));
        }
        _ => panic!("not forwarded"),
    }
    match widget.begin(&mut state, &moved(50.0, 50.0), &scene, cursor, moment(0)).next {
        Next::Forward(forward) => assert!(forward.from_cache),
        _ => panic!("not forwarded"),
    }
    let over_bar = at(95.0, 150.0);
    let scene = widget.scene(&state, window(), over_bar);
    match widget.begin(&mut state, &moved(95.0, 150.0), &scene, over_bar, moment(0)).next {
        Next::Forward(forward) => assert!(matches!(forward.cursor, Cursor::Levitating(_))),
        _ => panic!("not forwarded"),
    }
    let begun = widget.begin(&mut state, &Event::Window, &scene, cursor, moment(0));
    assert!(matches!(begun.next, Next::React));
}

#[test]
fn scrollers_are_dragged() {
    let mut widget = list().on_scroll("message");
    let mut state: State<Px> = State::new();
    let text = run(&mut widget, &mut state, &press(Button::Left), at(95.0, 100.0), 0);
    assert_eq!(text, "publish 400;capture;redraw;");
    assert_eq!(state.y_scroller_grabbed_at(), Some(Px(0.5)));
    assert!(state.scrollers_grabbed());
    assert!(state.is_pointer_down);
    let text = run(&mut widget, &mut state, &moved(10.0, 60.0), at(10.0, 60.0), 1);
    assert_eq!(text, "publish 200;capture;redraw;");
    assert_eq!(y_of(&state), 200.0);
    let text = run(&mut widget, &mut state, &moved(10.0, 60.0), Cursor::Unavailable, 2);
    assert_eq!(text, "");
    let _ = run(&mut widget, &mut state, &release(Button::Left), at(10.0, 60.0), 3);
    assert!(!state.scrollers_grabbed());
    assert!(!state.is_pointer_down);
    assert_eq!(y_of(&state), 200.0);
}

#[test]
fn horizontal_scrollers_are_dragged_too() {
    let mut widget: Widget =
        VirtualScrollable::new(Size { width: Px(300.0), height: Px(0.0) }, "view", "class").horizontal();
    let mut state: State<Px> = State::new();
    let text = run(&mut widget, &mut state, &press(Button::Left), at(50.0, 195.0), 0);
    assert!(text.starts_with("capture;"));
    assert!(state.x_scroller_grabbed_at().is_some());
    let _ = run(&mut widget, &mut state, &moved(100.0, 195.0), at(100.0, 195.0), 1);
    assert_eq!(state.offset_x.absolute(Px(100.0), Px(300.0)), Px(200.0));
    let _ = run(&mut widget, &mut state, &release(Button::Left), at(100.0, 195.0), 2);
    assert!(state.x_scroller_grabbed_at().is_none());
}

#[test]
fn keys_scroll_by_pages_and_to_the_ends() {
    let cases: [(Named, f32, f32); 5] = [
        (Named::PageDown, 300.0, 500.0),
        (Named::PageUp, 300.0, 100.0),
        (Named::PageUp, 100.0, 0.0),
        (Named::Home, 300.0, 0.0),
        (Named::End, 300.0, 800.0),
    ];
    for (named, from, to) in cases {
        let mut widget = list();
        let mut state: State<Px> = State::new();
        state.scroll_to(AbsoluteOffset { x: None, y: Some(Px(from)) });
        let text = run(&mut widget, &mut state, &key(named, false), at(50.0, 50.0), 4);
        assert_eq!(text, "capture;at 20;");
        assert_eq!(state.scroll_to_target.unwrap().y, Px(to));
        assert_eq!(state.scroll_to_start.unwrap().y, Px(from));
        assert_eq!(state.scroll_to_animation, Some(moment(4)));
        assert_eq!(y_of(&state), from);
    }
    let mut widget = list();
    let mut state: State<Px> = State::new();
    assert_eq!(run(&mut widget, &mut state, &key(Named::Tab, false), at(50.0, 50.0), 4), "");
    assert_eq!(run(&mut widget, &mut state, &key(Named::End, false), at(500.0, 50.0), 4), "");
    assert!(state.scroll_to_target.is_none());
}

#[test]
fn shift_turns_pages_sideways() {
    let mut widget: Widget =
        VirtualScrollable::new(Size { width: Px(300.0), height: Px(1000.0) }, "view", "class")
            .direction(Direction::Both { vertical: Scrollbar::plain(), horizontal: Scrollbar::plain() });
    let mut state: State<Px> = State::new();
    let _ = run(&mut widget, &mut state, &key(Named::PageDown, true), at(50.0, 50.0), 0);
    let target = state.scroll_to_target.unwrap();
    assert_eq!((target.x, target.y), (Px(100.0), Px(0.0)));
    let _ = run(&mut widget, &mut state, &key(Named::End, true), at(50.0, 50.0), 0);
    let target = state.scroll_to_target.unwrap();
    assert_eq!((target.x, target.y), (Px(200.0), Px(800.0)));
}

#[test]
fn the_middle_button_scrolls_away_from_the_cursor() {
    let mut widget = list();
    let mut state: State<Px> = State::new();
    assert_eq!(run(&mut widget, &mut state, &press(Button::Middle), at(50.0, 50.0), 0), "");
    let mut widget = list().auto_scroll(true);
    let text = run(&mut widget, &mut state, &press(Button::Middle), at(50.0, 50.0), 0);
    assert_eq!(text, "capture;at 16;");
    let text = run(&mut widget, &mut state, &moved(50.0, 60.0), at(50.0, 60.0), 1);
    assert_eq!(text, "");
    assert_eq!(state.auto_scroll_distance().unwrap().y, Px(0.0));
    let text = run(&mut widget, &mut state, &moved(50.0, 75.0), at(50.0, 75.0), 2);
    assert_eq!(text, "at 18;");
    assert_eq!(state.auto_scroll_distance().unwrap().y, Px(25.0));
    let scene = widget.scene(&state, window(), at(50.0, 75.0));
    let pulled = Frame { pull: Vector { x: Px(0.0), y: Px(125.0) }, ..frame(1000) };
    let effects = widget.redraw(&mut state, &scene, &pulled);
    assert_eq!(describe(&effects), "at 1016;");
    assert_eq!(y_of(&state), 0.0);
    let pulled = Frame { pull: Vector { x: Px(0.0), y: Px(125.0) }, ..frame(2000) };
    let _ = widget.redraw(&mut state, &scene, &pulled);
    assert_eq!(y_of(&state), 125.0);
    let _ = widget.redraw(&mut state, &scene, &pulled);
    assert_eq!(y_of(&state), 125.0);
    let icon = widget.overlay(&state, window()).unwrap();
    assert!(icon.vertical && !icon.horizontal);
    let text = run(&mut widget, &mut state, &key(Named::Tab, false), at(50.0, 75.0), 3);
    assert_eq!(text, "capture;redraw;");
    assert!(matches!(state.interaction, Interaction::Idle));
    assert!(widget.overlay(&state, window()).is_none());
}

#[test]
fn a_finger_drags_the_content_and_lets_it_coast() {
    let mut widget = list();
    let mut state: State<Px> = State::new();
    let p = |y: f32| Point { x: Px(50.0), y: Px(y) };
    let down = Event::Touch(TouchEvent::FingerPressed { id: 1, position: p(100.0) });
    assert_eq!(run(&mut widget, &mut state, &down, at(50.0, 100.0), 0), "capture;");
    let drag = Event::Touch(TouchEvent::FingerMoved { id: 1, position: p(60.0) });
    let text = run(&mut widget, &mut state, &drag, at(50.0, 60.0), 1000);
    assert_eq!(text, "capture;redraw;");
    assert_eq!(y_of(&state), 40.0);
    assert_eq!(state.velocity.y, Px(-12.0));
    let up = Event::Touch(TouchEvent::FingerLifted { id: 1, position: p(60.0) });
    let text = run(&mut widget, &mut state, &up, at(50.0, 60.0), 1001);
    assert_eq!(text, "at 1017;");
    assert!(matches!(state.interaction, Interaction::Idle));
    assert_eq!(state.last_kinetic_update, Some(moment(1001)));
    let scene = widget.scene(&state, window(), Cursor::Unavailable);
    let _ = widget.redraw(&mut state, &scene, &frame(2001));
    assert_eq!(y_of(&state), 28.0);
    assert_eq!(state.velocity.y, Px(-6.0));
}

#[test]
fn viewports_are_reported_once() {
    let mut widget = list().on_scroll("message");
    let mut state: State<Px> = State::new();
    let scene = widget.scene(&state, window(), Cursor::Unavailable);
    assert_eq!(describe(&widget.redraw(&mut state, &scene, &frame(0))), "publish 0;");
    assert_eq!(describe(&widget.redraw(&mut state, &scene, &frame(16))), "");
    let text = run(&mut widget, &mut state, &wheel(10.0), at(50.0, 50.0), 0);
    assert_eq!(text, "");
    let silent = list();
    let mut state: State<Px> = State::new();
    assert_eq!(describe(&silent.redraw(&mut state, &scene, &frame(0))), "");
    let reported: Viewport<Px> = state.last_notified.unwrap();
    assert_eq!(reported.relative_offset().y, Px(0.0));
}

#[test]
fn animations_move_with_each_frame() {
    let mut widget = list();
    let mut state: State<Px> = State::new();
    let _ = run(&mut widget, &mut state, &key(Named::End, false), at(50.0, 50.0), 0);
    let scene = widget.scene(&state, window(), at(50.0, 50.0));
    let motion = Motion { scroll_running: true, scroll_progress: Px(0.5), ..still() };
    let effects = widget.redraw(&mut state, &scene, &Frame { motion, ..frame(10) });
    assert_eq!(describe(&effects), "at 26;");
    assert_eq!(y_of(&state), 700.0);
    let text = run(&mut widget, &mut state, &wheel(0.0), at(50.0, 50.0), 11);
    assert_eq!(text, "capture;");
    assert!(state.scroll_to_target.is_none());
}

#[test]
fn a_finished_animation_has_arrived() {
    let mut widget = list().on_scroll("message");
    let mut state: State<Px> = State::new();
    let _ = run(&mut widget, &mut state, &key(Named::End, false), at(50.0, 50.0), 0);
    let scene = widget.scene(&state, window(), at(50.0, 50.0));
    let motion = Motion { scroll_running: true, scroll_progress: Px(0.5), ..still() };
    let effects = widget.redraw(&mut state, &scene, &Frame { motion, ..frame(10) });
    assert_eq!(describe(&effects), "publish 700;at 26;");
    let effects = widget.redraw(&mut state, &scene, &frame(600));
    assert_eq!(describe(&effects), "publish 800;");
    assert!(matches!(state.offset_x, Offset::Absolute(Px(x)) if x == 0.0));
    assert!(matches!(state.offset_y, Offset::Absolute(Px(y)) if y == 800.0));
    assert!(state.scroll_to_target.is_none());
    assert!(state.scroll_to_animation.is_none());
    assert_eq!(describe(&widget.redraw(&mut state, &scene, &frame(616))), "");
}

#[test]
fn the_status_follows_the_cursor() {
    let mut widget = list();
    let mut state: State<Px> = State::new();
    let scene = widget.scene(&state, window(), at(95.0, 150.0));
    let event = Event::RedrawRequested(moment(0));
    assert!(enter_hover(&mut state, &scene));
    assert!(!enter_hover(&mut state, &scene));
    let effects = widget.settle(&state, &event, &scene, true, moment(0), &still());
    assert_eq!(describe(&effects), "");
    let hovered = widget.last_status.unwrap();
    assert!(matches!(
        hovered,
        Status::Hovered { is_vertical_scrollbar_hovered: true, is_horizontal_scrollbar_hovered: false, .. }
    ));
    let away = widget.scene(&state, window(), Cursor::Unavailable);
    let hovering = Motion { hover_running: true, ..still() };
    let effects = widget.settle(&state, &Event::Window, &away, true, moment(0), &hovering);
    assert_eq!(describe(&effects), "at 16;at 16;");
    let active = away.status(&state, Px(0.5));
    assert!(status_fields_changed(&hovered, &active));
    assert!(!status_fields_changed(&active, &away.status(&state, Px(0.9))));
    state.interaction = Interaction::YScrollerGrabbed(Px(0.5));
    assert!(matches!(
        away.status(&state, Px(0.0)),
        Status::Dragged { is_vertical_scrollbar_dragged: true, .. }
    ));
}

fn color(a: f32) -> Color<Px> {
    Color { r: Px(0.0), g: Px(0.0), b: Px(0.0), a: Px(a) }
}

fn look(floating: bool) -> ScrollStyle<Px> {
    ScrollStyle {
        floating,
        floating_width: Px(2.0),
        floating_allocated_width: Px(6.0),
        rail_background: Some(color(0.1)),
        handle_color: color(0.2),
        handle_color_hovered: color(0.3),
        handle_color_dragged: color(0.4),
    }
}

#[test]
fn content_and_scrollbars_are_drawn() {
    let mut widget = list();
    let mut state: State<Px> = State::new();
    state.scroll_to(AbsoluteOffset { x: None, y: Some(Px(25.0)) });
    let outside = area(500.0, 0.0, 10.0, 10.0);
    let cursor = at(50.0, 50.0);
    assert!(widget.draw(&state, window(), cursor, outside, &look(false), false, PARTS).is_none());
    let screen = area(0.0, 0.0, 500.0, 500.0);
    let plan = widget.draw(&state, window(), cursor, screen, &look(false), false, PARTS).unwrap();
    assert!(plan.content.is_none());
    assert!(plan.scrollbars.is_some());
    let _ = widget.layout(&mut state, Size { width: Px(100.0), height: Px(200.0) });
    let plan = widget.draw(&state, window(), cursor, screen, &look(false), false, PARTS).unwrap();
    let drawn = plan.content.unwrap();
    assert!(drawn.clipped);
    assert_eq!(drawn.translation.y, Px(-5.0));
    assert!(matches!(drawn.cursor, Cursor::Available(_)));
    let bars = plan.scrollbars.unwrap();
    assert_eq!(sides(&bars.layer), (0.0, 0.0, 102.0, 202.0));
    assert_eq!(bars.quads.len(), 2);
    assert_eq!(bars.quads[0].bounds.width, Px(10.0));
    assert!(matches!(bars.quads[1].fill, Fill::Rounded(c) if c.a == Px(0.2)));
    let thin = widget.draw(&state, window(), cursor, screen, &look(true), false, PARTS).unwrap();
    assert_eq!(sides(&thin.scrollbars.unwrap().quads[0].bounds), (98.0, 0.0, 2.0, 200.0));
    let stateless = ContentParts { has_state: false, has_layout: true };
    let plan = widget.draw(&state, window(), cursor, screen, &look(false), false, stateless).unwrap();
    assert!(plan.content.is_none());
    assert!(plan.scrollbars.is_none());
}

#[test]
fn a_used_scrollbar_changes_its_look() {
    let mut widget = list();
    let state: State<Px> = State::new();
    let screen = area(0.0, 0.0, 500.0, 500.0);
    widget.last_status = Some(Status::Dragged {
        hover_factor: Px(1.0),
        is_horizontal_scrollbar_dragged: false,
        is_vertical_scrollbar_dragged: true,
        is_horizontal_scrollbar_disabled: false,
        is_vertical_scrollbar_disabled: false,
    });
    let mut style = look(true);
    style.rail_background = Some(color(0.0));
    let plan = widget.draw(&state, window(), at(50.0, 50.0), screen, &style, false, PARTS).unwrap();
    let quads = plan.scrollbars.unwrap().quads;
    assert_eq!(quads.len(), 1);
    assert_eq!(quads[0].bounds.width, Px(10.0));
    assert!(matches!(quads[0].fill, Fill::Rounded(c) if c.a == Px(0.4)));
}

#[test]
fn the_gap_between_scrollbars_is_filled() {
    let bar = Scrollbar::plain();
    let widget: Widget =
        VirtualScrollable::new(Size { width: Px(300.0), height: Px(1000.0) }, "view", "class")
            .direction(Direction::Both { vertical: bar, horizontal: bar });
    let state: State<Px> = State::new();
    let screen = area(0.0, 0.0, 500.0, 500.0);
    let plan = widget.draw(&state, window(), at(0.0, 0.0), screen, &look(false), true, PARTS).unwrap();
    let quads = plan.scrollbars.unwrap().quads;
    assert_eq!(quads.len(), 5);
    assert!(matches!(quads[4].fill, Fill::Gap));
    assert_eq!(sides(&quads[4].bounds), (90.0, 190.0, 10.0, 10.0));
}

#[test]
fn the_pointer_takes_its_shape_from_the_content() {
    let mut widget = list();
    let mut state: State<Px> = State::new();
    assert!(widget.mouse_interaction(&state, window(), at(50.0, 50.0), PARTS).is_none());
    let _ = widget.layout(&mut state, Size { width: Px(100.0), height: Px(200.0) });
    assert!(matches!(
        widget.mouse_interaction(&state, window(), at(50.0, 50.0), PARTS),
        Some(Cursor::Available(_))
    ));
    assert!(matches!(
        widget.mouse_interaction(&state, window(), at(95.0, 50.0), PARTS),
        Some(Cursor::Levitating(_))
    ));
    state.interaction = Interaction::YScrollerGrabbed(Px(0.5));
    assert!(widget.mouse_interaction(&state, window(), at(50.0, 50.0), PARTS).is_none());
}

#[test]
fn the_icon_has_arrows_for_its_directions() {
    let icon = AutoScrollIcon {
        origin: Point { x: Px(100.0), y: Px(60.0) },
        vertical: true,
        horizontal: true,
    };
    let place = icon.layout();
    assert_eq!(sides(&place), (80.0, 40.0, 40.0, 40.0));
    assert_eq!(sides(&icon.dot(place)), (98.0, 58.0, 4.0, 4.0));
    let arrows = icon.arrows(place, false);
    let kinds: Vec<(Arrow, Edge)> = arrows.iter().map(|a| (a.arrow, a.edge)).collect();
    assert_eq!(
        kinds,
        vec![
            (Arrow::Up, Edge::Top),
            (Arrow::Down, Edge::Bottom),
            (Arrow::Left, Edge::Left),
            (Arrow::Right, Edge::Right),
        ]
    );
    assert_eq!((arrows[1].position.x, arrows[1].position.y), (Px(100.0), Px(75.5)));
    assert_eq!((arrows[2].position.x, arrows[2].position.y), (Px(85.0), Px(61.0)));
    let arrows = icon.arrows(place, true);
    assert_eq!((arrows[2].arrow, arrows[2].edge), (Arrow::Right, Edge::Left));
}
