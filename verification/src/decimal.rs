//! Decimal notation of natural numbers: what a text of digits denotes, how a
//! number is written, and the two functions that go from one to the other.

use crate::error::ParseFailure;
use vstd::prelude::*;
use vstd::string::StringExecFns;

verus! {

/// Whether `c` is one of the ten decimal digits.
pub open spec fn is_digit(c: char) -> bool {
    '0' <= c <= '9'
}

/// The number that the digit `c` denotes.
pub open spec fn digit_value(c: char) -> nat
    recommends
        is_digit(c),
{
    (c as nat - '0' as nat) as nat
}

/// The digit that denotes `d`.
pub open spec fn digit_char(d: nat) -> char
    recommends
        d < 10,
{
    seq!['0', '1', '2', '3', '4', '5', '6', '7', '8', '9'][d as int]
}

/// Whether every character of `s` is a decimal digit.
pub open spec fn all_digits(s: Seq<char>) -> bool {
    forall|i: int| 0 <= i < s.len() ==> is_digit(#[trigger] s[i])
}

/// The number that a text of digits denotes, most significant digit first.
/// The empty text denotes zero.
pub open spec fn value_of(s: Seq<char>) -> nat
    decreases s.len(),
{
    if s.len() == 0 {
        0
    } else {
        10 * value_of(s.drop_last()) + digit_value(s.last())
    }
}

/// How `n` is written: no sign, and no leading zero but for zero itself.
pub open spec fn digits_of(n: nat) -> Seq<char>
    decreases n,
{
    if n < 10 {
        seq![digit_char(n)]
    } else {
        digits_of(n / 10).push(digit_char(n % 10))
    }
}

/// What reading `s` as a machine-sized integer gives: the number it denotes,
/// or the reason why it denotes none.
pub open spec fn parse_spec(s: Seq<char>) -> Result<usize, ParseFailure> {
    if s.len() == 0 {
        Err(ParseFailure::Empty)
    } else if !all_digits(s) {
        Err(ParseFailure::InvalidDigit)
    } else if value_of(s) > usize::MAX {
        Err(ParseFailure::PosOverflow)
    } else {
        Ok(value_of(s) as usize)
    }
}

/// A digit denotes the number that it is the digit of.
pub proof fn lemma_digit_round_trip(d: nat)
    requires
        d < 10,
    ensures
        is_digit(digit_char(d)),
        digit_value(digit_char(d)) == d,
{
}

/// The written form of a number is a text of digits that denotes it.
pub proof fn lemma_digits_of_round_trip(n: nat)
    ensures
        digits_of(n).len() >= 1,
        all_digits(digits_of(n)),
        value_of(digits_of(n)) == n,
    decreases n,
{
    if n < 10 {
        let s = digits_of(n);
        lemma_digit_round_trip(n);
        assert(s.drop_last() =~= Seq::<char>::empty());
        assert(value_of(s.drop_last()) == 0);
    } else {
        lemma_digits_of_round_trip(n / 10);
        lemma_digit_round_trip(n % 10);
        let s = digits_of(n);
        assert(s.drop_last() =~= digits_of(n / 10));
        assert(s.last() == digit_char(n % 10));
    }
}

/// Reading back what was written gives the number again.
pub proof fn lemma_parse_digits_of(n: usize)
    ensures
        parse_spec(digits_of(n as nat)) == Ok::<usize, ParseFailure>(n),
{
    lemma_digits_of_round_trip(n as nat);
}

/// Reads a text as a decimal number: one or more of the digits `0` to `9`
/// and nothing else, neither sign nor blank.
pub fn parse_usize(text: &str) -> (r: Result<usize, ParseFailure>)
    ensures
        r == parse_spec(text@),
{
    if text.is_empty() {
        return Err(ParseFailure::Empty);
    }
    let mut acc: usize = 0;
    let mut overflow: bool = false;
    for c in it: text.chars()
        invariant
            it.seq() == text@,
            all_digits(text@.take(it.index())),
            !overflow ==> acc == value_of(text@.take(it.index())),
            overflow ==> value_of(text@.take(it.index())) > usize::MAX,
    {
        let ghost k = it.index();
        proof {
            assert(text@.take(k + 1).drop_last() =~= text@.take(k));
            assert(text@.take(k + 1).last() == c);
        }
        if !(c >= '0' && c <= '9') {
            assert(!is_digit(text@[k]));
            return Err(ParseFailure::InvalidDigit);
        }
        let d: usize = (c as u32 - '0' as u32) as usize;
        assert(d == digit_value(c));
        if !overflow {
            match acc.checked_mul(10) {
                Some(tens) => match tens.checked_add(d) {
                    Some(sum) => {
                        acc = sum;
                    },
                    None => {
                        overflow = true;
                    },
                },
                None => {
                    overflow = true;
                },
            }
        }
        assert(all_digits(text@.take(k + 1))) by {
            assert forall|i: int| 0 <= i < text@.take(k + 1).len() implies is_digit(
                #[trigger] text@.take(k + 1)[i],
            ) by {
                if i < k {
                    assert(text@.take(k + 1)[i] == text@.take(k)[i]);
                }
            }
        }
    }
    assert(text@.take(text@.len() as int) =~= text@);
    if overflow {
        Err(ParseFailure::PosOverflow)
    } else {
        Ok(acc)
    }
}

/// The one-character text of a digit.
fn digit_text(d: usize) -> (r: &'static str)
    requires
        d < 10,
    ensures
        r@ == seq![digit_char(d as nat)],
{
    proof {
        reveal_strlit("0");
        reveal_strlit("1");
        reveal_strlit("2");
        reveal_strlit("3");
        reveal_strlit("4");
        reveal_strlit("5");
        reveal_strlit("6");
        reveal_strlit("7");
        reveal_strlit("8");
        reveal_strlit("9");
    }
    let r: &'static str = if d == 0 {
        "0"
    } else if d == 1 {
        "1"
    } else if d == 2 {
        "2"
    } else if d == 3 {
        "3"
    } else if d == 4 {
        "4"
    } else if d == 5 {
        "5"
    } else if d == 6 {
        "6"
    } else if d == 7 {
        "7"
    } else if d == 8 {
        "8"
    } else {
        "9"
    };
    assert(r@ =~= seq![digit_char(d as nat)]);
    r
}

/// Writes `n` in decimal notation.
pub fn to_decimal(n: usize) -> (r: String)
    ensures
        r@ == digits_of(n as nat),
    decreases n,
{
    if n < 10 {
        String::from_str(digit_text(n))
    } else {
        let mut r: String = to_decimal(n / 10);
        r.append(digit_text(n % 10));
        assert(r@ =~= digits_of(n as nat));
        r
    }
}

} // verus!
