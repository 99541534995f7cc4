//! Numbers without rounding.
use vstd::prelude::*;

use crate::scalar::{as_index, is_arithmetic, Arithmetic};

verus! {

/// A number that is computed without rounding. It only occurs in specifications: what is proved
/// of it holds of a computation as long as that computation does not round.
pub struct Exact {
    pub value: real,
}

/// The number with a value.
pub open spec fn exact(value: real) -> Exact {
    Exact { value }
}

impl Arithmetic for Exact {
    open spec fn fraction(numerator: int, denominator: int) -> Self {
        exact(numerator as real / denominator as real)
    }

    open spec fn sum(self, other: Self) -> Self {
        exact(self.value + other.value)
    }

    open spec fn difference(self, other: Self) -> Self {
        exact(self.value - other.value)
    }

    open spec fn product(self, other: Self) -> Self {
        exact(self.value * other.value)
    }

    open spec fn quotient(self, other: Self) -> Self {
        exact(self.value / other.value)
    }

    open spec fn remainder(self, other: Self) -> Self {
        let whole = self.value / other.value;
        let cut_off = if whole < 0real {
            -((-whole).floor())
        } else {
            whole.floor()
        };
        exact(self.value - cut_off as real * other.value)
    }

    open spec fn opposite(self) -> Self {
        exact(-self.value)
    }

    open spec fn magnitude(self) -> Self {
        if self.value < 0real {
            exact(-self.value)
        } else {
            self
        }
    }

    open spec fn sign(self) -> Self {
        if self.value < 0real {
            exact(-(1real))
        } else {
            exact(1real)
        }
    }

    open spec fn rounded(self) -> Self {
        let half = 1real / 2real;
        if self.value < 0real {
            exact(-((half - self.value).floor() as real))
        } else {
            exact((half + self.value).floor() as real)
        }
    }

    open spec fn floored(self) -> Self {
        exact(self.value.floor() as real)
    }

    open spec fn lesser(self, other: Self) -> Self {
        if self.value <= other.value {
            self
        } else {
            other
        }
    }

    open spec fn greater(self, other: Self) -> Self {
        if self.value >= other.value {
            self
        } else {
            other
        }
    }

    open spec fn clamped(self, low: Self, high: Self) -> Self {
        if self.value < low.value {
            low
        } else if self.value > high.value {
            high
        } else {
            self
        }
    }

    open spec fn below(self, other: Self) -> bool {
        self.value < other.value
    }

    open spec fn at_most(self, other: Self) -> bool {
        self.value <= other.value
    }

    open spec fn same(self, other: Self) -> bool {
        self.value == other.value
    }

    open spec fn undefined(self) -> bool {
        false
    }

    open spec fn tolerance() -> Self {
        exact(0real)
    }

    open spec fn seconds(nanos: int) -> Self {
        exact(nanos as real / 1_000_000_000real)
    }

    open spec fn count(n: int) -> Self {
        exact(n as real)
    }

    open spec fn floor_index(self) -> usize {
        as_index(self.value.floor())
    }

    open spec fn ceil_index(self) -> usize {
        as_index(-((-self.value).floor()))
    }
}

/// The fractions that computations start from.
pub proof fn lemma_fractions()
    ensures
        Exact::fraction(0, 1) == exact(0real),
        Exact::fraction(1, 1) == exact(1real),
        Exact::fraction(1, 100).value > 0real,
{
    assert(0real / 1real == 0real) by (nonlinear_arith);
    assert(1real / 1real == 1real) by (nonlinear_arith);
    assert(1real / 100real > 0real) by (nonlinear_arith);
}

/// Exact numbers are ordered as numbers are.
pub proof fn law_exact_numbers_are_arithmetic()
    ensures
        is_arithmetic::<Exact>(),
{
    lemma_fractions();
}

} // verus!
