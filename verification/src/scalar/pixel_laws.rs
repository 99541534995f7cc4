//! How close fixed-point pixels are to the numbers that they stand for.
use vstd::prelude::*;

use crate::scalar::pixels::{truncated_quotient, Pixels, STEPS};
use crate::scalar::Arithmetic;

verus! {

/// Whether a number of steps is a length.
pub open spec fn fits(n: int) -> bool {
    i64::MIN <= n <= i64::MAX
}

/// Sums, differences and opposites that fit are exact, and so are all comparisons.
pub proof fn law_pixels_add_exactly(a: Pixels, b: Pixels)
    ensures
        fits(a.0 + b.0) ==> a.sum(b).0 == a.0 + b.0,
        fits(a.0 - b.0) ==> a.difference(b).0 == a.0 - b.0,
        fits(-a.0) ==> a.opposite().0 + a.0 == 0,
        a.below(b) == (a.0 < b.0),
        a.at_most(b) == (a.0 <= b.0),
        a.same(b) == (a == b),
        a.lesser(b).0 <= a.0 && a.lesser(b).0 <= b.0 && (a.lesser(b) == a || a.lesser(b) == b),
        a.greater(b).0 >= a.0 && a.greater(b).0 >= b.0 && (a.greater(b) == a || a.greater(b)
            == b),
        fits(-a.0) ==> a.magnitude().0 >= 0 && (a.magnitude() == a || a.magnitude().0 == -a.0),
        a.sign().0 == (if a.0 < 0 {
            -65536
        } else {
            65536
        }),
{
}

/// What is cut off of a quotient is less than the divisor, and a quotient is cut off toward zero.
proof fn lemma_quotient(a: int, b: int)
    requires
        b > 0,
    ensures
        ({
            let q = truncated_quotient(a, b);
            &&& a >= 0 ==> 0 <= q * b <= a && a < q * b + b
            &&& a <= 0 ==> a <= q * b <= 0 && q * b - b < a
        }),
{
    let size = if a < 0 {
        -a
    } else {
        a
    };
    vstd::arithmetic::div_mod::lemma_fundamental_div_mod(size, b);
    vstd::arithmetic::div_mod::lemma_mod_bound(size, b);
    vstd::arithmetic::div_mod::lemma_div_pos_is_pos(size, b);
    let q = size / b;
    assert(q * b == b * q) by (nonlinear_arith);
    assert((-q) * b == -(q * b)) by (nonlinear_arith);
    assert(q * b >= 0) by (nonlinear_arith)
        requires
            q >= 0,
            b > 0,
    ;
}

/// A product that fits is less than a step from the exact one, and not further from zero.
pub proof fn law_pixels_multiply_closely(a: Pixels, b: Pixels)
    ensures
        ({
            let exact = a.0 * b.0;
            let r = a.product(b).0 * STEPS;
            fits(truncated_quotient(exact, STEPS as int)) ==> {
                &&& exact >= 0 ==> 0 <= r <= exact && exact < r + STEPS
                &&& exact <= 0 ==> exact <= r <= 0 && r - STEPS < exact
            }
        }),
{
    lemma_quotient(a.0 * b.0, STEPS as int);
}

/// A quotient by a positive length that fits is less than a step from the exact one, and not
/// further from zero.
pub proof fn law_pixels_divide_closely(a: Pixels, b: Pixels)
    requires
        b.0 > 0,
    ensures
        ({
            let exact = a.0 * STEPS;
            let r = a.quotient(b).0 * b.0;
            fits(truncated_quotient(exact, b.0 as int)) ==> {
                &&& a.0 >= 0 ==> 0 <= r <= exact && exact < r + b.0
                &&& a.0 <= 0 ==> exact <= r <= 0 && r - b.0 < exact
            }
        }),
{
    lemma_quotient(a.0 * STEPS, b.0 as int);
}

/// What is left of a length beside whole multiples of a positive one is less than that, and on the
/// same side of zero.
pub proof fn law_pixels_have_remainders(a: Pixels, b: Pixels)
    requires
        b.0 > 0,
    ensures
        ({
            let r = a.remainder(b).0 as int;
            &&& a.0 >= 0 ==> 0 <= r < b.0
            &&& a.0 <= 0 ==> -b.0 < r <= 0
            &&& (a.0 - r) % (b.0 as int) == 0
        }),
{
    let d = b.0 as int;
    let q = truncated_quotient(a.0 as int, d);
    lemma_quotient(a.0 as int, d);
    vstd::arithmetic::div_mod::lemma_mod_multiples_basic(q, d);
}

/// Rounding gives whole pixels that are at most half a pixel away; from the middle between two it
/// goes away from zero. Rounding down gives the last whole pixels that are not above.
pub proof fn law_pixels_round_to_whole_ones(a: Pixels)
    requires
        -0x7fff_ffff_ffff_0000 <= a.0 <= 0x7fff_ffff_fffe_0000,
    ensures
        ({
            let r = a.rounded().0 as int;
            let f = a.floored().0 as int;
            &&& r % 65536 == 0
            &&& -32768 <= r - a.0 <= 32768
            &&& r - a.0 == 32768 ==> a.0 >= 0
            &&& r - a.0 == -32768 ==> a.0 < 0
            &&& f % 65536 == 0
            &&& f <= a.0 < f + 65536
        }),
{
    let n = a.0 as int;
    let up = (32768 + n) / 65536;
    let down = (32768 - n) / 65536;
    let floor = n / 65536;
    assert(up * 65536 % 65536 == 0);
    assert(floor * 65536 % 65536 == 0);
    assert(-(down * 65536) % 65536 == 0);
}

/// Indices are whole pixels, rounded down or up; there is none below zero.
pub proof fn law_pixels_as_indices(a: Pixels)
    requires
        a.0 / 65536 + 1 < usize::MAX,
    ensures
        a.0 >= 0 ==> a.floor_index() * 65536 <= a.0 && a.0 < a.floor_index() * 65536 + 65536,
        a.0 >= 0 ==> a.ceil_index() * 65536 >= a.0 && a.ceil_index() * 65536 < a.0 + 65536,
        a.0 <= 0 ==> a.floor_index() == 0 && a.ceil_index() == 0,
{
}

/// A second is a thousand million nanoseconds, and a number of things is that many pixels.
pub proof fn law_pixels_count(nanos: int, n: int)
    requires
        0 <= nanos <= u64::MAX,
        0 <= n <= 0x7fff_ffff_ffff,
    ensures
        ({
            let r = Pixels::seconds(nanos).0 * 1_000_000_000;
            r <= nanos * STEPS && nanos * STEPS < r + 1_000_000_000
        }),
        Pixels::count(n).0 == n * 65536,
{
}

/// A fraction that fits is less than a step from the exact one, and not further from zero; a whole
/// number of pixels is exact.
pub proof fn law_pixels_are_fractions(numerator: int, denominator: int)
    requires
        denominator > 0,
        fits(truncated_quotient(numerator * STEPS, denominator)),
    ensures
        ({
            let exact = numerator * STEPS;
            let r = Pixels::fraction(numerator, denominator).0 * denominator;
            &&& numerator >= 0 ==> 0 <= r <= exact && exact < r + denominator
            &&& numerator <= 0 ==> exact <= r <= 0 && r - denominator < exact
            &&& denominator == 1 ==> r == exact
        }),
{
    lemma_quotient(numerator * STEPS, denominator);
}

/// Clamping moves a length no further than it has to be moved.
pub proof fn law_pixels_are_clamped(a: Pixels, low: Pixels, high: Pixels)
    requires
        low.0 <= high.0,
    ensures
        ({
            let r = a.clamped(low, high);
            &&& low.0 <= r.0 <= high.0
            &&& low.0 <= a.0 <= high.0 ==> r == a
            &&& r.0 < a.0 ==> r == high
            &&& r.0 > a.0 ==> r == low
        }),
{
}

} // verus!
