//! Pixels as fixed-point numbers.
use vstd::prelude::*;

use crate::scalar::{as_index, is_arithmetic, zero, Arithmetic, Scalar};

verus! {

/// The number of steps that a pixel is divided into.
pub const STEPS: i64 = 65536;

/// A length in pixels, counted in steps. Results that fall between two steps are cut off toward
/// zero; results that do not fit stop at the nearest length that does, and so do quotients by zero
/// of anything but zero.
#[derive(Clone, Copy, PartialEq, Eq, Structural, Debug)]
pub struct Pixels(pub i64);

/// The length of `n` steps, as far as it can be represented.
pub open spec fn steps(n: int) -> Pixels {
    if n < i64::MIN {
        Pixels(i64::MIN)
    } else if n > i64::MAX {
        Pixels(i64::MAX)
    } else {
        Pixels(n as i64)
    }
}

/// Division that rounds toward zero, with zero for a zero divisor.
pub open spec fn truncated_quotient(a: int, b: int) -> int {
    if b == 0 {
        0
    } else {
        let size = (if a < 0 { -a } else { a }) / (if b < 0 { -b } else { b });
        if (a < 0) == (b < 0) {
            size
        } else {
            -size
        }
    }
}

/// Narrows a wide intermediate result to a length.
fn narrow(n: i128) -> (r: Pixels)
    ensures
        r == steps(n as int),
{
    if n < i64::MIN as i128 {
        Pixels(i64::MIN)
    } else if n > i64::MAX as i128 {
        Pixels(i64::MAX)
    } else {
        Pixels(n as i64)
    }
}

/// Gives a whole number of pixels in steps.
fn widen(n: i128) -> (r: i128)
    requires
        -0x1_0000_0000_0000_0000 <= n <= 0x1_0000_0000_0000_0000,
    ensures
        r == n * STEPS,
{
    n * 65536
}

/// Divides toward zero, with zero for a zero divisor.
fn divide(a: i128, b: i128) -> (r: i128)
    requires
        i128::MIN < a,
        i128::MIN < b,
    ensures
        r == truncated_quotient(a as int, b as int),
{
    if b == 0 {
        0
    } else {
        let size_a: i128 = if a < 0 { -a } else { a };
        let size_b: i128 = if b < 0 { -b } else { b };
        proof {
            vstd::arithmetic::div_mod::lemma_div_is_ordered_by_denominator(
                size_a as int,
                1,
                size_b as int,
            );
            vstd::arithmetic::div_mod::lemma_div_basics_2(size_a as int);
            vstd::arithmetic::div_mod::lemma_div_pos_is_pos(size_a as int, size_b as int);
        }
        let size: i128 = size_a / size_b;
        if (a < 0) == (b < 0) {
            size
        } else {
            -size
        }
    }
}

/// Gives a whole number as an index.
fn to_index(n: i128) -> (r: usize)
    ensures
        r == as_index(n as int),
{
    if n <= 0 {
        0
    } else if n >= usize::MAX as i128 {
        usize::MAX
    } else {
        n as usize
    }
}

/// The quotient of numbers that are not negative is not negative.
proof fn lemma_nonnegative_quotient(a: int, b: int)
    requires
        0 < b,
    ensures
        0 <= a ==> 0 <= truncated_quotient(a, b),
{
    if 0 <= a {
        vstd::arithmetic::div_mod::lemma_div_pos_is_pos(a, b);
    }
}

/// Gives a number of steps in whole pixels, rounded down.
fn find_floor(n: i128) -> (r: i128)
    requires
        -0x1_0000_0000_0000_0000 <= n <= 0x1_0000_0000_0000_0000,
    ensures
        r == n as int / STEPS as int,
{
    if n < 0 {
        -((STEPS as i128 - 1 - n) / STEPS as i128)
    } else {
        n / STEPS as i128
    }
}

/// Fixed-point pixels are ordered as numbers are.
pub proof fn law_pixels_are_arithmetic()
    ensures
        is_arithmetic::<Pixels>(),
{
    assert forall|a: Pixels, b: Pixels| a.below(b) implies zero::<Pixels>().at_most(
        #[trigger] b.difference(a),
    ) by {
    }
}

impl Arithmetic for Pixels {
    open spec fn fraction(numerator: int, denominator: int) -> Self {
        steps(truncated_quotient(numerator * STEPS, denominator))
    }

    open spec fn sum(self, other: Self) -> Self {
        steps(self.0 + other.0)
    }

    open spec fn difference(self, other: Self) -> Self {
        steps(self.0 - other.0)
    }

    open spec fn product(self, other: Self) -> Self {
        steps(truncated_quotient(self.0 * other.0, STEPS as int))
    }

    open spec fn quotient(self, other: Self) -> Self {
        if other.0 != 0 {
            steps(truncated_quotient(self.0 * STEPS, other.0 as int))
        } else if self.0 > 0 {
            Pixels(i64::MAX)
        } else if self.0 < 0 {
            Pixels(i64::MIN)
        } else {
            self
        }
    }

    open spec fn remainder(self, other: Self) -> Self {
        steps(self.0 - truncated_quotient(self.0 as int, other.0 as int) * other.0)
    }

    open spec fn opposite(self) -> Self {
        steps(-self.0)
    }

    open spec fn magnitude(self) -> Self {
        if self.0 < 0 {
            steps(-self.0)
        } else {
            self
        }
    }

    open spec fn sign(self) -> Self {
        if self.0 < 0 {
            steps(-STEPS as int)
        } else {
            steps(STEPS as int)
        }
    }

    open spec fn rounded(self) -> Self {
        let half = STEPS as int / 2;
        if self.0 < 0 {
            steps(-((half - self.0) / STEPS as int * STEPS))
        } else {
            steps((half + self.0) / STEPS as int * STEPS)
        }
    }

    open spec fn floored(self) -> Self {
        steps(self.0 as int / STEPS as int * STEPS)
    }

    open spec fn lesser(self, other: Self) -> Self {
        if self.0 <= other.0 {
            self
        } else {
            other
        }
    }

    open spec fn greater(self, other: Self) -> Self {
        if self.0 >= other.0 {
            self
        } else {
            other
        }
    }

    open spec fn clamped(self, low: Self, high: Self) -> Self {
        if self.0 < low.0 {
            low
        } else if self.0 > high.0 {
            high
        } else {
            self
        }
    }

    open spec fn below(self, other: Self) -> bool {
        self.0 < other.0
    }

    open spec fn at_most(self, other: Self) -> bool {
        self.0 <= other.0
    }

    open spec fn same(self, other: Self) -> bool {
        self.0 == other.0
    }

    open spec fn undefined(self) -> bool {
        false
    }

    open spec fn tolerance() -> Self {
        Pixels(0)
    }

    open spec fn seconds(nanos: int) -> Self {
        steps(nanos * STEPS / 1_000_000_000)
    }

    open spec fn count(n: int) -> Self {
        steps(n * STEPS)
    }

    open spec fn floor_index(self) -> usize {
        as_index(self.0 as int / STEPS as int)
    }

    open spec fn ceil_index(self) -> usize {
        as_index((self.0 + STEPS - 1) / STEPS as int)
    }
}

impl Scalar for Pixels {
    fn ratio(numerator: i32, denominator: i32) -> (r: Self) {
        proof {
            lemma_nonnegative_quotient(numerator * STEPS, denominator as int);
        }
        narrow(divide(widen(numerator as i128), denominator as i128))
    }

    fn plus(self, other: Self) -> (r: Self) {
        narrow(self.0 as i128 + other.0 as i128)
    }

    fn minus(self, other: Self) -> (r: Self) {
        narrow(self.0 as i128 - other.0 as i128)
    }

    fn times(self, other: Self) -> (r: Self) {
        let a: i128 = self.0 as i128;
        let b: i128 = other.0 as i128;
        assert(-0x4000_0000_0000_0000_0000_0000_0000_0000 <= a * b
            <= 0x4000_0000_0000_0000_0000_0000_0000_0000) by (nonlinear_arith)
            requires
                -0x8000_0000_0000_0000 <= a <= 0x7fff_ffff_ffff_ffff,
                -0x8000_0000_0000_0000 <= b <= 0x7fff_ffff_ffff_ffff,
        ;
        narrow(divide(a * b, STEPS as i128))
    }

    fn over(self, other: Self) -> (r: Self) {
        if other.0 != 0 {
            narrow(divide(widen(self.0 as i128), other.0 as i128))
        } else if self.0 > 0 {
            Pixels(i64::MAX)
        } else if self.0 < 0 {
            Pixels(i64::MIN)
        } else {
            self
        }
    }

    fn modulo(self, other: Self) -> (r: Self) {
        let q: i128 = divide(self.0 as i128, other.0 as i128);
        let b: i128 = other.0 as i128;
        let ghost size_a: int = if self.0 < 0 { -self.0 as int } else { self.0 as int };
        let ghost size_b: int = if b < 0 { -b as int } else { b as int };
        assert(-0x8000_0000_0000_0000 <= q * b <= 0x8000_0000_0000_0000) by {
            if b != 0 {
                vstd::arithmetic::div_mod::lemma_fundamental_div_mod(size_a, size_b);
                vstd::arithmetic::div_mod::lemma_mod_bound(size_a, size_b);
                vstd::arithmetic::div_mod::lemma_div_pos_is_pos(size_a, size_b);
                let size: int = size_a / size_b;
                assert(0 <= size_b * size) by (nonlinear_arith)
                    requires
                        0 <= size_b,
                        0 <= size,
                ;
                assert(size_b * size <= size_a);
                assert(size * size_b == size_b * size) by (nonlinear_arith);
                assert((-size) * size_b == -(size * size_b)) by (nonlinear_arith);
                assert(size * (-size_b) == -(size * size_b)) by (nonlinear_arith);
                assert((-size) * (-size_b) == size * size_b) by (nonlinear_arith);
            } else {
                assert(q * b == 0) by (nonlinear_arith)
                    requires
                        b == 0,
                ;
            }
        }
        narrow(self.0 as i128 - q * b)
    }

    fn negate(self) -> (r: Self) {
        narrow(-(self.0 as i128))
    }

    fn abs(self) -> (r: Self) {
        if self.0 < 0 {
            narrow(-(self.0 as i128))
        } else {
            self
        }
    }

    fn signum(self) -> (r: Self) {
        if self.0 < 0 {
            Pixels(-STEPS)
        } else {
            Pixels(STEPS)
        }
    }

    fn round(self) -> (r: Self) {
        let n: i128 = self.0 as i128;
        let step: i128 = STEPS as i128;
        if n < 0 {
            narrow(-((step / 2 - n) / step * step))
        } else {
            narrow((step / 2 + n) / step * step)
        }
    }

    fn floor(self) -> (r: Self) {
        let n: i128 = self.0 as i128;
        narrow(widen(find_floor(n)))
    }

    fn min(self, other: Self) -> (r: Self) {
        if self.0 <= other.0 {
            self
        } else {
            other
        }
    }

    fn max(self, other: Self) -> (r: Self) {
        if self.0 >= other.0 {
            self
        } else {
            other
        }
    }

    fn clamp(self, low: Self, high: Self) -> (r: Self) {
        if self.0 < low.0 {
            low
        } else if self.0 > high.0 {
            high
        } else {
            self
        }
    }

    fn lt(self, other: Self) -> (r: bool) {
        self.0 < other.0
    }

    fn le(self, other: Self) -> (r: bool) {
        self.0 <= other.0
    }

    fn eq(self, other: Self) -> (r: bool) {
        self.0 == other.0
    }

    fn is_nan(self) -> (r: bool) {
        false
    }

    fn epsilon() -> (r: Self) {
        Pixels(0)
    }

    fn from_nanos(nanos: u64) -> (r: Self) {
        narrow(widen(nanos as i128) / 1_000_000_000)
    }

    fn from_count(n: usize) -> (r: Self) {
        narrow(widen(n as i128))
    }

    fn to_floor_index(self) -> (r: usize) {
        to_index(find_floor(self.0 as i128))
    }

    fn to_ceil_index(self) -> (r: usize) {
        to_index(find_floor(self.0 as i128 + STEPS as i128 - 1))
    }
}

} // verus!
