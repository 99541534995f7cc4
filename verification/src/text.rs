//! Building text.
use vstd::prelude::*;

verus! {

/// `String::push` appends a character to the text.
pub assume_specification[ String::push ](text: &mut String, c: char)
    ensures
        final(text)@ == old(text)@.push(c),
;

/// The text of an optional string.
pub open spec fn text_of(s: Option<String>) -> Option<Seq<char>> {
    match s {
        Some(s) => Some(s@),
        None => None,
    }
}

/// The lower case of a text.
pub uninterp spec fn lowercased(text: Seq<char>) -> Seq<char>;

/// `str::to_lowercase` gives the lower case of a text, by the tables of Unicode and so by
/// nothing but the text.
pub assume_specification[ str::to_lowercase ](text: &str) -> (r: String)
    ensures
        r@ == lowercased(text@),
;

/// The character of a decimal digit.
pub open spec fn digit(d: int) -> char {
    (('0' as u8 + d) as u8) as char
}

/// A number in decimal notation, without leading zeros.
pub open spec fn decimal(n: nat) -> Seq<char>
    decreases n,
{
    if n < 10 {
        seq![digit(n as int)]
    } else {
        decimal(n / 10).push(digit((n % 10) as int))
    }
}

/// Appends a number in decimal notation.
pub fn push_decimal(text: &mut String, n: usize)
    ensures
        final(text)@ == old(text)@ + decimal(n as nat),
    decreases n,
{
    let ghost before = text@;
    if n >= 10 {
        push_decimal(text, n / 10);
    }
    let d: u8 = (n % 10) as u8;
    text.push((48 + d) as char);
    assert(text@ =~= before + decimal(n as nat));
}

/// Decimal notation consists of at least one character, all of them digits.
pub proof fn lemma_decimal_digits(n: nat)
    ensures
        decimal(n).len() > 0,
        forall|i: int| 0 <= i < decimal(n).len() ==> '0' <= #[trigger] decimal(n)[i] <= '9',
    decreases n,
{
    if n >= 10 {
        lemma_decimal_digits(n / 10);
    }
}

/// Different numbers have different decimal notations.
pub proof fn law_decimal_injective(a: nat, b: nat)
    requires
        decimal(a) == decimal(b),
    ensures
        a == b,
    decreases a,
{
    lemma_decimal_digits(a / 10);
    lemma_decimal_digits(b / 10);
    assert(decimal(a).last() == digit((a % 10) as int));
    assert(decimal(b).last() == digit((b % 10) as int));
    assert(a % 10 == b % 10);
    if a >= 10 && b >= 10 {
        assert(decimal(a).drop_last() =~= decimal(a / 10));
        assert(decimal(b).drop_last() =~= decimal(b / 10));
        law_decimal_injective(a / 10, b / 10);
    } else if a >= 10 {
        assert(decimal(a).len() == decimal(a / 10).len() + 1);
        assert(decimal(b).len() == 1);
    } else if b >= 10 {
        assert(decimal(b).len() == decimal(b / 10).len() + 1);
        assert(decimal(a).len() == 1);
    }
}

/// A number that is followed by a character that is no digit can be read back: the number and
/// the rest are determined.
pub proof fn lemma_decimal_prefix(a: nat, b: nat, rest_a: Seq<char>, rest_b: Seq<char>)
    requires
        decimal(a) + rest_a == decimal(b) + rest_b,
        rest_a.len() == 0 || rest_a[0] == '/',
        rest_b.len() == 0 || rest_b[0] == '/',
    ensures
        a == b,
        rest_a == rest_b,
{
    let left = decimal(a) + rest_a;
    let right = decimal(b) + rest_b;
    let la = decimal(a).len() as int;
    let lb = decimal(b).len() as int;
    lemma_decimal_digits(a);
    lemma_decimal_digits(b);
    if la < lb {
        assert(right[la] == decimal(b)[la]);
        assert(left.len() == right.len());
        assert(left[la] == rest_a[0]);
        assert(false);
    }
    if lb < la {
        assert(left[lb] == decimal(a)[lb]);
        assert(left.len() == right.len());
        assert(right[lb] == rest_b[0]);
        assert(false);
    }
    assert(decimal(a) =~= left.take(la));
    assert(decimal(b) =~= right.take(la));
    assert(rest_a =~= left.skip(la));
    assert(rest_b =~= right.skip(la));
    law_decimal_injective(a, b);
}

/// The number that digits stand for.
pub open spec fn reading(digits: Seq<char>) -> int
    decreases digits.len(),
{
    if digits.len() == 0 {
        0
    } else {
        10 * reading(digits.drop_last()) + (digits.last() as int - '0' as int)
    }
}

/// Reading decimal notation gives the number back, and no number but zero starts with a zero.
pub proof fn law_decimal_is_read_back(n: nat)
    ensures
        reading(decimal(n)) == n,
        n > 0 ==> decimal(n)[0] != '0',
    decreases n,
{
    reveal_with_fuel(reading, 2);
    if n >= 10 {
        law_decimal_is_read_back(n / 10);
        lemma_decimal_digits(n / 10);
        assert(decimal(n).drop_last() =~= decimal(n / 10));
    } else {
        assert(decimal(n).drop_last() =~= Seq::empty());
    }
}

} // verus!
