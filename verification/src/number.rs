//! Balances travel as text. This module reads one back into a number.

use vstd::prelude::*;
use vstd::string::*;

verus! {

/// The bytes that `+`, `-`, `0` and `9` are written as.
const PLUS: u8 = 43;

const MINUS: u8 = 45;

const ZERO: u8 = 48;

const NINE: u8 = 57;

/// Whether `c` is one of the ten decimal digits.
pub open spec fn is_digit(c: char) -> bool {
    '0' <= c && c <= '9'
}

/// What a decimal digit counts for.
pub open spec fn digit_value(c: char) -> int {
    c as int - '0' as int
}

/// Whether `text` holds decimal digits and nothing else.
pub open spec fn all_digits(text: Seq<char>) -> bool {
    forall|i: int| 0 <= i < text.len() ==> is_digit(#[trigger] text[i])
}

/// The number that a run of decimal digits writes.
pub open spec fn decimal(digits: Seq<char>) -> int
    decreases digits.len(),
{
    if digits.len() == 0 {
        0
    } else {
        10 * decimal(digits.drop_last()) + digit_value(digits.last())
    }
}

/// Whether `text` begins with a sign.
pub open spec fn is_signed(text: Seq<char>) -> bool {
    text.len() > 0 && (text[0] == '+' || text[0] == '-')
}

/// The number that `text` writes: an optional `+` or `-`, then one decimal
/// digit or more, and nothing before, between or after. Any other text writes
/// no number.
pub open spec fn written_number(text: Seq<char>) -> Option<int> {
    let digits = if is_signed(text) {
        text.skip(1)
    } else {
        text
    };
    if digits.len() == 0 || !all_digits(digits) {
        None
    } else if text[0] == '-' {
        Some(-decimal(digits))
    } else {
        Some(decimal(digits))
    }
}

/// The balance that `text` writes: the number it writes, where it writes one
/// that an `i64` can hold.
pub open spec fn balance_in(text: Seq<char>) -> Option<i64> {
    match written_number(text) {
        Some(number) => if i64::MIN <= number <= i64::MAX {
            Some(number as i64)
        } else {
            None
        },
        None => None,
    }
}

/// A run of digits writes no less than any run it begins with.
pub proof fn lemma_decimal_grows(digits: Seq<char>, n: int)
    requires
        all_digits(digits),
        0 <= n <= digits.len(),
    ensures
        0 <= decimal(digits.take(n)) <= decimal(digits),
    decreases digits.len() - n,
{
    lemma_decimal_is_natural(digits.take(n));
    if n == digits.len() {
        assert(digits.take(n) =~= digits);
    } else {
        lemma_decimal_grows(digits, n + 1);
        assert(digits.take(n + 1).drop_last() =~= digits.take(n));
    }
}

/// A run of digits writes a number that is not negative.
pub proof fn lemma_decimal_is_natural(digits: Seq<char>)
    requires
        all_digits(digits),
    ensures
        0 <= decimal(digits),
    decreases digits.len(),
{
    if digits.len() > 0 {
        lemma_decimal_is_natural(digits.drop_last());
    }
}

/// Reads a balance from the text it is sent as. The result is the number
/// where `number` is an optional sign and then decimal digits that write a
/// number within the range of `i64`, and `None` for every other text.
pub fn number_string_deserializer(number: &str) -> (balance: Option<i64>)
    ensures
        balance == balance_in(number@),
{
    broadcast use is_ascii_spec_bytes;

    if !number.is_ascii() {
        proof {
            let text = number@;
            let at = choose|i: int|
                0 <= i < text.len() && !('\0' <= #[trigger] text[i] <= '\u{7f}');
            if is_signed(text) {
                if at > 0 {
                    assert(text.skip(1)[at - 1] == text[at]);
                }
            }
        }
        return None;
    }
    let bytes = number.as_bytes();
    let ghost text = number@;
    let n = bytes.len();
    if n == 0 {
        return None;
    }
    let negative = bytes[0] == MINUS;
    let start: usize = if bytes[0] == PLUS || bytes[0] == MINUS {
        1
    } else {
        0
    };
    let ghost digits = text.skip(start as int);
    if start == n {
        return None;
    }
    // The digits read so far, counted below zero: there is one more number
    // down there than above.
    let mut below: i64 = 0;
    let mut i: usize = start;
    while i < n
        invariant
            start <= i <= n,
            n == bytes@.len(),
            n == text.len(),
            start <= 1,
            text == number@,
            is_signed(text) <==> start == 1,
            digits == text.skip(start as int),
            forall|j: int| 0 <= j < text.len() ==> bytes@[j] == #[trigger] text[j] as u8,
            forall|j: int| 0 <= j < text.len() ==> '\0' <= #[trigger] text[j] <= '\u{7f}',
            all_digits(digits.take(i - start)),
            below == -decimal(digits.take(i - start)),
        decreases n - i,
    {
        let byte = bytes[i];
        let ghost c = text[i as int];
        assert(digits.take(i - start + 1).drop_last() =~= digits.take(i - start));
        assert(digits.take(i - start + 1).last() == c);
        if byte < ZERO || byte > NINE {
            return None;
        }
        assert(all_digits(digits.take(i - start + 1)));
        proof {
            lemma_decimal_is_natural(digits.take(i - start));
            assert(decimal(digits.take(i - start + 1)) == 10 * decimal(digits.take(i - start))
                + digit_value(c));
        }
        let digit: i64 = (byte - ZERO) as i64;
        let next = match below.checked_mul(10) {
            Some(tenfold) => tenfold.checked_sub(digit),
            None => None,
        };
        match next {
            Some(next) => {
                below = next;
            },
            None => {
                proof {
                    assert(text.skip(0) =~= text);
                    if all_digits(digits) {
                        lemma_decimal_grows(digits, i - start + 1);
                    }
                }
                return None;
            },
        }
        i += 1;
    }
    assert(digits.take(i - start) =~= digits);
    assert(text.skip(0) =~= text);
    if negative {
        Some(below)
    } else if below == i64::MIN {
        None
    } else {
        Some(-below)
    }
}

} // verus!
