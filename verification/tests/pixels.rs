use icy_ui::geometry::{Point, Rectangle, Size};
use icy_ui::scalar::pixels::{Pixels, STEPS};
use icy_ui::scalar::{floor_at_zero, Scalar};
use icy_ui::scrolling::scrollable::{Anchor, Direction, Scrollbar};
use icy_ui::scrolling::virtual_scrollable::offset::Offset;
use icy_ui::scrolling::virtual_scrollable::scrollbars::Scrollbars;
use icy_ui::scrolling::virtual_scrollable::state::State;
use icy_ui::scrolling::virtual_scrollable::visible_rows;

fn px(n: i64) -> Pixels {
    Pixels(n * STEPS)
}

fn area(x: i64, y: i64, width: i64, height: i64) -> Rectangle<Pixels> {
    Rectangle { x: px(x), y: px(y), width: px(width), height: px(height) }
}

#[test]
fn pixels_are_divided_into_steps() {
    assert_eq!(Pixels::ratio(7, 2), Pixels(3 * STEPS + STEPS / 2));
    assert_eq!(Pixels::ratio(1, 3), Pixels(STEPS / 3));
    assert_eq!(Pixels::ratio(-1, 3), Pixels(-(STEPS / 3)));
    assert_eq!(px(-7).over(px(2)), Pixels(-3 * STEPS - STEPS / 2));
    assert_eq!(px(7).over(px(0)), Pixels(i64::MAX));
    assert_eq!(px(-7).over(px(0)), Pixels(i64::MIN));
    assert_eq!(px(0).over(px(0)), px(0));
    assert_eq!(px(-7).modulo(px(3)), px(-1));
    assert_eq!(px(7).modulo(px(-3)), px(1));
    assert_eq!(px(7).modulo(px(0)), px(7));
    assert_eq!(Pixels::ratio(1, 2).times(Pixels::ratio(1, 4)), Pixels(STEPS / 8));
    assert_eq!(px(100).times(px(100).over(px(400))), px(25));
}

#[test]
fn pixels_stop_at_their_limits() {
    assert_eq!(Pixels(i64::MAX).plus(Pixels(1)), Pixels(i64::MAX));
    assert_eq!(Pixels(i64::MIN).minus(Pixels(1)), Pixels(i64::MIN));
    assert_eq!(Pixels(i64::MAX).times(px(-2)), Pixels(i64::MIN));
    assert_eq!(Pixels(i64::MIN).negate(), Pixels(i64::MAX));
    assert_eq!(Pixels(i64::MIN).abs(), Pixels(i64::MAX));
    assert_eq!(Pixels(i64::MIN).over(px(-1)), Pixels(i64::MAX));
}

#[test]
fn pixels_are_ordered_and_rounded() {
    assert_eq!(px(5).clamp(px(0), px(3)), px(3));
    assert_eq!(px(-5).clamp(px(0), px(3)), px(0));
    assert_eq!(px(2).min(px(1)), px(1));
    assert_eq!(px(2).max(px(1)), px(2));
    assert_eq!(floor_at_zero(px(-4)), px(0));
    assert_eq!(px(0).signum(), px(1));
    assert_eq!(px(-9).signum(), px(-1));
    assert_eq!(Pixels::ratio(5, 2).round(), px(3));
    assert_eq!(Pixels::ratio(-5, 2).round(), px(-3));
    assert_eq!(Pixels::ratio(-9, 4).round(), px(-2));
    assert_eq!(Pixels::ratio(9, 4).floor(), px(2));
    assert_eq!(Pixels::ratio(-9, 4).floor(), px(-3));
    assert_eq!(px(-1).to_floor_index(), 0);
    assert_eq!(Pixels::ratio(9, 4).to_floor_index(), 2);
    assert_eq!(Pixels::ratio(9, 4).to_ceil_index(), 3);
    assert_eq!(px(12).to_ceil_index(), 12);
    assert_eq!(Pixels::from_nanos(2_500_000_000), Pixels::ratio(5, 2));
    assert_eq!(Pixels::from_count(9), px(9));
}

#[test]
fn rectangles_cover_their_first_edges_only() {
    let a = area(0, 0, 10, 10);
    let b = area(6, -5, 10, 9);
    assert!(a.contains(Point { x: px(0), y: px(9) }));
    assert!(!a.contains(Point { x: px(10), y: px(9) }));
    let common = a.intersection(&b).unwrap();
    assert_eq!((common.x, common.y), (px(6), px(0)));
    assert_eq!((common.width, common.height), (px(4), px(4)));
    let beside = Rectangle { x: px(10), ..b };
    assert!(a.intersection(&beside).is_none());
    assert!(a.equals(&a));
    assert!(!a.equals(&b));
    assert_eq!((b.center_x(), b.center_y()), (px(11), Pixels::ratio(-1, 2)));
}

#[test]
fn one_more_row_is_built_than_shows() {
    assert_eq!(visible_rows(px(30), 100, area(0, 45, 10, 100)), 1..6);
    assert_eq!(visible_rows(px(30), 5, area(0, 45, 10, 100)), 1..5);
    assert_eq!(visible_rows(px(30), 100, area(0, 60, 10, 30)), 2..4);
    assert_eq!(visible_rows(px(0), 100, area(0, 1, 10, 60)).end, 100);
}

#[test]
fn scrollers_are_as_long_as_the_content_that_shows() {
    let direction = Direction::Vertical(Scrollbar::plain());
    let mut state: State<Pixels> = State::new();
    state.offset_y = Offset::Absolute(px(200));
    let bounds = area(0, 0, 50, 100);
    let size = Size { width: px(50), height: px(100) };
    let bars = Scrollbars::new(&state, direction, bounds, size, area(0, 0, 50, 400));
    let bar = bars.y.unwrap();
    let scroller = bar.scroller.unwrap();
    assert_eq!((scroller.bounds.y, scroller.bounds.height), (px(50), px(25)));
    for y in [50, 60, 74] {
        let at = Point { x: scroller.bounds.x, y: px(y) };
        let held = bars.grab_y_scroller(at).unwrap();
        let share = bar.scroll_percentage_y(held, at);
        assert!(share.minus(Pixels::ratio(2, 3)).abs().lt(Pixels::ratio(1, 1000)));
    }
}

#[test]
fn what_lies_before_and_behind_an_offset_adds_up() {
    for offset in [
        Offset::Absolute(px(0)),
        Offset::Absolute(px(120)),
        Offset::Absolute(px(900)),
        Offset::Relative(Pixels::ratio(1, 4)),
    ] {
        let before = offset.translation(px(100), px(400), Anchor::Start);
        let behind = offset.translation(px(100), px(400), Anchor::End);
        assert_eq!(before.plus(behind), px(300));
    }
}
