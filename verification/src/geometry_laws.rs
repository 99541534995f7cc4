//! What areas have in common and which points they hold, in exact arithmetic.
use vstd::prelude::*;

use crate::geometry::{Cursor, Point, Rectangle};
use crate::scalar::exact::{lemma_fractions, Exact};

verus! {

/// Whether a point is in an area: from its left and top edges on, up to and without its right and
/// bottom edges.
pub open spec fn holds(area: Rectangle<Exact>, p: Point<Exact>) -> bool {
    &&& area.x.value <= p.x.value
    &&& p.x.value < area.x.value + area.width.value
    &&& area.y.value <= p.y.value
    &&& p.y.value < area.y.value + area.height.value
}

/// An area covers the points that it holds.
pub proof fn law_area_covers_its_points(area: Rectangle<Exact>, p: Point<Exact>)
    ensures
        area.covers(p) == holds(area, p),
{
}

/// What two areas have in common holds exactly the points that both of them hold; where they have
/// nothing in common, there is no such point.
pub proof fn law_common_area_holds_common_points(
    a: Rectangle<Exact>,
    b: Rectangle<Exact>,
    p: Point<Exact>,
)
    ensures
        match a.common(b) {
            Some(area) => {
                &&& holds(area, p) == (holds(a, p) && holds(b, p))
                &&& area.width.value > 0real
                &&& area.height.value > 0real
            },
            None => !(holds(a, p) && holds(b, p)),
        },
        a.common(b) == b.common(a),
{
    lemma_fractions();
}

/// The middle of an area is as far from its left edge as from its right one, and as far from its
/// top as from its bottom.
pub proof fn law_middle_is_in_the_middle(area: Rectangle<Exact>)
    ensures
        ({
            let x = area.middle_x().value;
            let y = area.middle_y().value;
            &&& x - area.x.value == area.x.value + area.width.value - x
            &&& y - area.y.value == area.y.value + area.height.value - y
        }),
{
    let w = area.width.value;
    let h = area.height.value;
    assert(2real / 1real == 2real) by (nonlinear_arith);
    assert(2real * (w / 2real) == w) by (nonlinear_arith);
    assert(2real * (h / 2real) == h) by (nonlinear_arith);
}

/// Areas agree exactly if they are the same.
pub proof fn law_agreeing_areas_are_the_same(a: Rectangle<Exact>, b: Rectangle<Exact>)
    ensures
        a.agrees(b) == (a == b),
{
}

/// A cursor that is lifted above a layer has no position there until it lands again; one that is
/// not there never has one.
pub proof fn law_cursor_lands_where_it_was_lifted(
    cursor: Cursor<Exact>,
    p: Point<Exact>,
    area: Rectangle<Exact>,
)
    ensures
        cursor.lifted().spot() is None,
        cursor.lifted().landed() == cursor.landed(),
        Cursor::Available(p).lifted().landed() == Cursor::Available(p),
        Cursor::Available(p).spot() == Some(p),
        Cursor::Available(p).spot_or_origin() == p,
        Cursor::Available(p).spot_over(area) == (if holds(area, p) {
            Some(p)
        } else {
            None
        }),
        cursor.spot_over(area) is Some ==> cursor == Cursor::Available(
            cursor.spot_over(area)->0,
        ),
        cursor is Unavailable ==> cursor.landed().spot() is None,
        cursor.spot() is None ==> cursor.spot_or_origin().x.value == 0real
            && cursor.spot_or_origin().y.value == 0real,
{
    lemma_fractions();
}

} // verus!
