//! What holds of virtual scrolling in exact arithmetic.
use vstd::prelude::*;

use crate::geometry::{Point, Rectangle};
use crate::scalar::exact::{exact, lemma_fractions, Exact};
use crate::scalar::{zero, Arithmetic};
use crate::scrolling::scrollable::Anchor;
use crate::scrolling::virtual_scrollable::offset::{reach, Offset};
use crate::scrolling::virtual_scrollable::scrollbars::Scrollbars;
use crate::scrolling::virtual_scrollable::{end_row, first_row, row_range};

verus! {

/// Whether an offset is a distance that is not negative, or a share.
pub open spec fn is_proper(offset: Offset<Exact>) -> bool {
    match offset {
        Offset::Absolute(distance) => 0real <= distance.value,
        Offset::Relative(share) => 0real <= share.value <= 1real,
    }
}

/// An offset is within the distance that can be scrolled, from whichever end it counts, and what
/// lies before and behind it adds up to that distance.
pub proof fn law_anchors_add_up(offset: Offset<Exact>, viewport: Exact, content: Exact)
    requires
        is_proper(offset),
    ensures
        ({
            let from_start = offset.shift(viewport, content, Anchor::Start);
            let from_end = offset.shift(viewport, content, Anchor::End);
            let all = reach(viewport, content);
            &&& from_start.sum(from_end) == all
            &&& 0real <= from_start.value <= all.value
            &&& 0real <= from_end.value <= all.value
        }),
{
    lemma_fractions();
    if let Offset::Relative(share) = offset {
        let room = content.value - viewport.value;
        let p = share.value;
        assert(room >= 0real ==> 0real <= room * p <= room) by (nonlinear_arith)
            requires
                0real <= p <= 1real,
        ;
        assert(room < 0real ==> room * p <= 0real) by (nonlinear_arith)
            requires
                0real <= p <= 1real,
        ;
    }
}

/// Scrolling back undoes scrolling that did not reach an end.
pub proof fn law_scrolling_back(offset: Exact, delta: Exact, viewport: Exact, content: Exact)
    requires
        viewport.value < content.value,
        0real <= offset.value <= content.value - viewport.value,
        0real <= offset.value + delta.value <= content.value - viewport.value,
    ensures
        Offset::Absolute(offset).moved(delta, viewport, content).moved(
            delta.opposite(),
            viewport,
            content,
        ) == Offset::Absolute(offset),
{
    lemma_fractions();
}

/// Content that is anchored to its end and has not been scrolled shows its end.
pub proof fn law_anchored_content_shows_its_end(viewport: Exact, content: Exact)
    requires
        viewport.value <= content.value,
    ensures
        Offset::Absolute(zero()).shift(viewport, content, Anchor::End).sum(viewport) == content,
{
    lemma_fractions();
}

/// Holding a scroller where it was grabbed leaves it where it is.
proof fn lemma_held_scroller(
    position: real,
    start: real,
    length: real,
    scroller: real,
    scroller_length: real,
)
    requires
        0real < scroller_length < length,
    ensures
        position - start - scroller_length * ((position - scroller) / scroller_length) == scroller
            - start,
{
    let part = (position - scroller) / scroller_length;
    assert(scroller_length * part == position - scroller) by (nonlinear_arith)
        requires
            0real < scroller_length,
            part == (position - scroller) / scroller_length,
    ;
}

/// Grabbing the vertical scroller does not move it: the content goes to the share that the
/// scroller stands at, wherever on the scroller the cursor is. Without a scroller that is none.
pub proof fn law_grabbing_keeps_y(bars: Scrollbars<Exact>, at: Point<Exact>)
    requires
        bars.y is Some,
    ensures
        bars.y->0.scroller is None ==> bars.grabbed_y(at) is None && forall|held: Exact|
            #[trigger] bars.y->0.share_y(held, at) == zero::<Exact>(),
        bars.y->0.scroller is Some ==> {
            let rail = bars.y->0.bounds;
            let scroller = bars.y->0.scroller->0.bounds;
            let share = scroller.y.difference(rail.y).quotient(
                rail.height.difference(scroller.height),
            );
            0real < scroller.height.value < rail.height.value && scroller.covers(at)
                && bars.y->0.total_bounds.covers(at) ==> {
                &&& bars.grabbed_y(at) is Some
                &&& bars.y->0.share_y(bars.grabbed_y(at)->0, at) == (match bars.y->0.alignment {
                    Anchor::Start => share,
                    Anchor::End => exact(1real).difference(share),
                })
            }
        },
{
    lemma_fractions();
    if bars.y->0.scroller is Some {
        let rail = bars.y->0.bounds;
        let scroller = bars.y->0.scroller->0.bounds;
        if 0real < scroller.height.value < rail.height.value {
            lemma_held_scroller(
                at.y.value,
                rail.y.value,
                rail.height.value,
                scroller.y.value,
                scroller.height.value,
            );
        }
    }
}

/// Grabbing the horizontal scroller does not move it.
pub proof fn law_grabbing_keeps_x(bars: Scrollbars<Exact>, at: Point<Exact>)
    requires
        bars.x is Some,
    ensures
        bars.x->0.scroller is None ==> bars.grabbed_x(at) is None && forall|held: Exact|
            #[trigger] bars.x->0.share_x(held, at) == zero::<Exact>(),
        bars.x->0.scroller is Some ==> {
            let rail = bars.x->0.bounds;
            let scroller = bars.x->0.scroller->0.bounds;
            let share = scroller.x.difference(rail.x).quotient(
                rail.width.difference(scroller.width),
            );
            0real < scroller.width.value < rail.width.value && scroller.covers(at)
                && bars.x->0.total_bounds.covers(at) ==> {
                &&& bars.grabbed_x(at) is Some
                &&& bars.x->0.share_x(bars.grabbed_x(at)->0, at) == (match bars.x->0.alignment {
                    Anchor::Start => share,
                    Anchor::End => exact(1real).difference(share),
                })
            }
        },
{
    lemma_fractions();
    if bars.x->0.scroller is Some {
        let rail = bars.x->0.bounds;
        let scroller = bars.x->0.scroller->0.bounds;
        if 0real < scroller.width.value < rail.width.value {
            lemma_held_scroller(
                at.x.value,
                rail.x.value,
                rail.width.value,
                scroller.x.value,
                scroller.width.value,
            );
        }
    }
}

/// What rounding a quotient down or up says of the product.
proof fn lemma_rounded_quotient(a: real, h: real)
    requires
        0real < h,
    ensures
        a >= (a / h).floor() as real * h,
        a < ((a / h).floor() + 1) as real * h,
        a <= (-((-(a / h)).floor())) as real * h,
        a > (-((-(a / h)).floor()) - 1) as real * h,
{
    let q = a / h;
    let down = q.floor();
    let up = -((-q).floor());
    assert(q * h == a) by (nonlinear_arith)
        requires
            0real < h,
            q == a / h,
    ;
    assert(down as real <= q < (down + 1) as real);
    assert(up as real >= q > (up - 1) as real);
    assert(down as real * h <= q * h) by (nonlinear_arith)
        requires
            0real < h,
            down as real <= q,
    ;
    assert(q * h < (down + 1) as real * h) by (nonlinear_arith)
        requires
            0real < h,
            q < (down + 1) as real,
    ;
    assert(q * h <= up as real * h) by (nonlinear_arith)
        requires
            0real < h,
            q <= up as real,
    ;
    assert((up - 1) as real * h < q * h) by (nonlinear_arith)
        requires
            0real < h,
            q > (up - 1) as real,
    ;
}

/// Multiples of a positive number are ordered as their factors are.
proof fn lemma_multiples(m: int, n: int, h: real)
    requires
        0real < h,
    ensures
        m as real * h < n as real * h <==> m < n,
{
    let a = m as real;
    let b = n as real;
    assert(a < b ==> a * h < b * h) by (nonlinear_arith)
        requires
            0real < h,
    ;
    assert(b <= a ==> b * h <= a * h) by (nonlinear_arith)
        requires
            0real < h,
    ;
}

/// The rows of a viewport within the content are a range of rows that exist. It starts with the
/// row at the top of the viewport, holds every row that shows, and at most one that does not and
/// starts at the bottom of the viewport or below.
pub proof fn law_rows_of_a_viewport(
    row_height: Exact,
    total_rows: usize,
    viewport: Rectangle<Exact>,
    row: int,
    other: int,
)
    requires
        0real < row_height.value,
        0real <= viewport.y.value,
        0real <= viewport.height.value,
        viewport.y.value + viewport.height.value <= row_height.value * total_rows as real,
    ensures
        ({
            let (start, end) = row_range(row_height, total_rows, viewport);
            let h = row_height.value;
            let top = viewport.y.value;
            let bottom = viewport.y.value + viewport.height.value;
            &&& start <= end <= total_rows
            &&& start == (top / h).floor()
            &&& 0 <= row < total_rows && row as real * h < bottom && top < (row + 1) as real * h
                ==> start <= row < end
            &&& start <= row < end && bottom <= row as real * h && start <= other < end && bottom
                <= other as real * h ==> row == other
        }),
{
    let h = row_height.value;
    let top = viewport.y.value;
    let bottom = top + viewport.height.value;
    let down = (top / h).floor();
    let up = -((-(bottom / h)).floor());
    lemma_rounded_quotient(top, h);
    lemma_rounded_quotient(bottom, h);
    assert(h * total_rows as real == total_rows as real * h) by (nonlinear_arith);
    assert(0real * h == 0real) by (nonlinear_arith);
    lemma_multiples(0, down + 1, h);
    lemma_multiples(down, total_rows as int + 1, h);
    lemma_multiples(up, 0, h);
    lemma_multiples(up, down, h);
    lemma_multiples(up - 1, total_rows as int, h);
    lemma_multiples(down, row + 1, h);
    lemma_multiples(row, up, h);
    lemma_multiples(up - 1, row, h);
    lemma_multiples(up - 1, other, h);
    lemma_multiples(total_rows as int, total_rows as int + 1, h);
    assert(0 <= down <= total_rows);
    assert(0 <= up <= total_rows);
    assert(down <= up);
    assert(first_row(row_height, viewport) == down);
    assert(end_row(row_height, viewport) == up + 1);
}

} // verus!
