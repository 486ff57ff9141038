//! The shape of a select-graphic-rendition escape sequence, `ESC [ n m`.
use vstd::prelude::*;

verus! {

/// The escape control character (0x1B) that opens every sequence.
pub open spec fn esc() -> char {
    '\x1B'
}

/// The ten decimal digit characters, indexed by their value.
pub open spec fn digit_chars() -> Seq<char> {
    seq!['0', '1', '2', '3', '4', '5', '6', '7', '8', '9']
}

pub open spec fn is_digit(c: char) -> bool {
    digit_chars().contains(c)
}

/// The decimal notation of `n`, most significant digit first, without leading zeros.
pub open spec fn decimal(n: nat) -> Seq<char>
    decreases n,
{
    if n < 10 {
        seq![digit_chars()[n as int]]
    } else {
        decimal(n / 10).push(digit_chars()[(n % 10) as int])
    }
}

/// The sequence that selects rendition `n`: `ESC`, `[`, the decimal digits of `n`, `m`.
pub open spec fn sgr(n: nat) -> Seq<char> {
    seq![esc(), '['] + decimal(n) + seq!['m']
}

/// A well-formed sequence: `ESC`, `[`, one or more decimal digits, and the final `m`.
pub open spec fn is_sgr(s: Seq<char>) -> bool {
    &&& s.len() >= 4
    &&& s[0] == esc()
    &&& s[1] == '['
    &&& s.last() == 'm'
    &&& forall|i: int| 2 <= i < s.len() - 1 ==> is_digit(#[trigger] s[i])
}

/// The decimal notation of a number is a non-empty run of digits.
pub proof fn lemma_decimal_digits(n: nat)
    ensures
        decimal(n).len() >= 1,
        forall|i: int| 0 <= i < decimal(n).len() ==> is_digit(#[trigger] decimal(n)[i]),
    decreases n,
{
    if n < 10 {
        assert(digit_chars().contains(digit_chars()[n as int]));
    } else {
        lemma_decimal_digits(n / 10);
        let d = digit_chars()[(n % 10) as int];
        assert(digit_chars().contains(d));
        assert forall|i: int| 0 <= i < decimal(n).len() implies is_digit(#[trigger] decimal(n)[i]) by {
            if i < decimal(n / 10).len() {
                assert(decimal(n)[i] == decimal(n / 10)[i]);
            }
        }
    }
}

/// Every number selects a well-formed sequence.
pub proof fn lemma_sgr_well_formed(n: nat)
    ensures
        is_sgr(sgr(n)),
{
    lemma_decimal_digits(n);
    let s = sgr(n);
    assert forall|i: int| 2 <= i < s.len() - 1 implies is_digit(#[trigger] s[i]) by {
        assert(s[i] == decimal(n)[i - 2]);
    }
}

} // verus!
