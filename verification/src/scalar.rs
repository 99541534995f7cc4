//! The arithmetic that layout and scrolling are written in.
//!
//! Geometry is generic over the number type that a front end measures pixels in. The
//! operations are named by specification functions, so a contract can say which value a
//! computation yields without fixing how that number type rounds.
use vstd::prelude::*;

pub mod exact;
pub mod pixel_laws;
pub mod pixels;

verus! {

/// The meaning of numbers that positions, lengths and durations are measured in.
///
/// Every operation is a function of its operands. The defaults say nothing; they are for number
/// types that are used from outside of verified code.
pub trait Arithmetic: Sized {
    /// The value of the fraction `numerator / denominator`.
    closed spec fn fraction(numerator: int, denominator: int) -> Self {
        arbitrary()
    }

    /// The sum `self + other`.
    closed spec fn sum(self, other: Self) -> Self {
        arbitrary()
    }

    /// The difference `self - other`.
    closed spec fn difference(self, other: Self) -> Self {
        arbitrary()
    }

    /// The product `self * other`.
    closed spec fn product(self, other: Self) -> Self {
        arbitrary()
    }

    /// The quotient `self / other`.
    closed spec fn quotient(self, other: Self) -> Self {
        arbitrary()
    }

    /// The remainder of `self / other`.
    closed spec fn remainder(self, other: Self) -> Self {
        arbitrary()
    }

    /// The value with its sign flipped.
    closed spec fn opposite(self) -> Self {
        arbitrary()
    }

    /// The absolute value.
    closed spec fn magnitude(self) -> Self {
        arbitrary()
    }

    /// One with the sign of `self`.
    closed spec fn sign(self) -> Self {
        arbitrary()
    }

    /// The nearest whole number.
    closed spec fn rounded(self) -> Self {
        arbitrary()
    }

    /// The greatest whole number that is not above `self`.
    closed spec fn floored(self) -> Self {
        arbitrary()
    }

    /// The smaller of two values; a value that is not a number loses.
    closed spec fn lesser(self, other: Self) -> Self {
        arbitrary()
    }

    /// The larger of two values; a value that is not a number loses.
    closed spec fn greater(self, other: Self) -> Self {
        arbitrary()
    }

    /// `self` moved into the range from `low` to `high`.
    closed spec fn clamped(self, low: Self, high: Self) -> Self {
        arbitrary()
    }

    /// Whether `self < other`.
    closed spec fn below(self, other: Self) -> bool {
        arbitrary()
    }

    /// Whether `self <= other`.
    closed spec fn at_most(self, other: Self) -> bool {
        arbitrary()
    }

    /// Whether `self == other`.
    closed spec fn same(self, other: Self) -> bool {
        arbitrary()
    }

    /// Whether `self` is not a number.
    closed spec fn undefined(self) -> bool {
        arbitrary()
    }

    /// The largest distance at which two values still count as unchanged.
    closed spec fn tolerance() -> Self {
        arbitrary()
    }

    /// A duration of that many nanoseconds, in seconds.
    closed spec fn seconds(nanos: int) -> Self {
        arbitrary()
    }

    /// The number of that many things.
    closed spec fn count(n: int) -> Self {
        arbitrary()
    }

    /// `self` rounded down to an index; zero below zero.
    closed spec fn floor_index(self) -> usize {
        arbitrary()
    }

    /// `self` rounded up to an index; zero below zero.
    closed spec fn ceil_index(self) -> usize {
        arbitrary()
    }
}

/// A number that positions, lengths and durations are measured in.
///
/// What is said of the results beyond their meaning holds for fixed-point and for IEEE 754
/// numbers alike: a value that is not `at_most` itself is not a number.
pub trait Scalar: Arithmetic + Copy {
    /// Gives the fraction `numerator / denominator`.
    fn ratio(numerator: i32, denominator: i32) -> (r: Self)
        requires
            denominator > 0,
        ensures
            r == Self::fraction(numerator as int, denominator as int),
            0 <= numerator ==> Self::fraction(0, 1).at_most(r),
    ;

    /// Adds two values.
    fn plus(self, other: Self) -> (r: Self)
        ensures
            r == self.sum(other),
    ;

    /// Subtracts `other`.
    fn minus(self, other: Self) -> (r: Self)
        ensures
            r == self.difference(other),
            other.below(self) ==> Self::fraction(0, 1).at_most(r),
    ;

    /// Multiplies two values.
    fn times(self, other: Self) -> (r: Self)
        ensures
            r == self.product(other),
    ;

    /// Divides by `other`.
    fn over(self, other: Self) -> (r: Self)
        ensures
            r == self.quotient(other),
    ;

    /// Gives the remainder of a division by `other`.
    fn modulo(self, other: Self) -> (r: Self)
        ensures
            r == self.remainder(other),
    ;

    /// Flips the sign.
    fn negate(self) -> (r: Self)
        ensures
            r == self.opposite(),
    ;

    /// Drops the sign.
    fn abs(self) -> (r: Self)
        ensures
            r == self.magnitude(),
    ;

    /// Gives one with the sign of `self`.
    fn signum(self) -> (r: Self)
        ensures
            r == self.sign(),
    ;

    /// Rounds to the nearest whole number.
    fn round(self) -> (r: Self)
        ensures
            r == self.rounded(),
    ;

    /// Rounds down.
    fn floor(self) -> (r: Self)
        ensures
            r == self.floored(),
    ;

    /// Gives the smaller of two values.
    fn min(self, other: Self) -> (r: Self)
        ensures
            r == self.lesser(other),
    ;

    /// Gives the larger of two values.
    fn max(self, other: Self) -> (r: Self)
        ensures
            r == self.greater(other),
            other.at_most(other) ==> other.at_most(r),
    ;

    /// Moves `self` into the range from `low` to `high`.
    fn clamp(self, low: Self, high: Self) -> (r: Self)
        requires
            low.at_most(high),
        ensures
            r == self.clamped(low, high),
    ;

    /// Tests whether `self < other`.
    fn lt(self, other: Self) -> (r: bool)
        ensures
            r == self.below(other),
    ;

    /// Tests whether `self <= other`.
    fn le(self, other: Self) -> (r: bool)
        ensures
            r == self.at_most(other),
    ;

    /// Tests whether `self == other`.
    fn eq(self, other: Self) -> (r: bool)
        ensures
            r == self.same(other),
    ;

    /// Tests whether `self` is not a number.
    fn is_nan(self) -> (r: bool)
        ensures
            r == self.undefined(),
    ;

    /// Gives the largest distance at which two values still count as unchanged.
    fn epsilon() -> (r: Self)
        ensures
            r == Self::tolerance(),
    ;

    /// Gives a duration of that many nanoseconds in seconds.
    fn from_nanos(nanos: u64) -> (r: Self)
        ensures
            r == Self::seconds(nanos as int),
    ;

    /// Gives the number of that many things.
    fn from_count(n: usize) -> (r: Self)
        ensures
            r == Self::count(n as int),
    ;

    /// Rounds down to an index.
    fn to_floor_index(self) -> (r: usize)
        ensures
            r == self.floor_index(),
    ;

    /// Rounds up to an index.
    fn to_ceil_index(self) -> (r: usize)
        ensures
            r == self.ceil_index(),
    ;
}

/// The scalar zero.
pub open spec fn zero<S: Arithmetic>() -> S {
    S::fraction(0, 1)
}

/// The scalar that stands for a whole number.
pub open spec fn whole<S: Arithmetic>(n: int) -> S {
    S::fraction(n, 1)
}

/// The larger of a value and zero.
pub open spec fn nonnegative<S: Arithmetic>(value: S) -> S {
    value.greater(zero::<S>())
}

/// A whole number as an index; zero below zero.
pub open spec fn as_index(n: int) -> usize {
    if n <= 0 {
        0
    } else if n >= usize::MAX {
        usize::MAX
    } else {
        n as usize
    }
}

/// Whether a number type orders its numbers as numbers are ordered: clamping a number lands in
/// the range, what separates a number from a smaller one is not negative, nothing lies between a
/// number and itself, and taking more away does not leave more.
pub open spec fn is_arithmetic<S: Arithmetic>() -> bool {
    &&& forall|a: S, low: S, high: S|
        low.at_most(high) && a.at_most(a) ==> low.at_most(#[trigger] a.clamped(low, high))
            && a.clamped(low, high).at_most(high)
    &&& forall|a: S, b: S| a.below(b) ==> zero::<S>().at_most(#[trigger] b.difference(a))
    &&& forall|a: S| zero::<S>().at_most(#[trigger] a.greater(zero::<S>()))
    &&& forall|a: S| !S::fraction(1, 100).below(#[trigger] a.difference(a).magnitude())
    &&& forall|a: S, b: S, c: S| #[trigger]
        a.at_most(b) && #[trigger] b.below(c) ==> a.below(c)
    &&& forall|a: S, b: S|
        zero::<S>().at_most(b) ==> nonnegative(#[trigger] a.difference(b)).at_most(
            nonnegative(a.difference(zero())),
        )
    &&& forall|a: S, b: S|
        b.at_most(zero::<S>()) ==> nonnegative(a.difference(zero())).at_most(
            nonnegative(#[trigger] a.difference(b)),
        )
}

/// Gives the larger of a value and zero.
pub fn floor_at_zero<S: Scalar>(value: S) -> (r: S)
    ensures
        r == nonnegative(value),
        zero::<S>().at_most(r),
{
    value.max(S::ratio(0, 1))
}

} // verus!
