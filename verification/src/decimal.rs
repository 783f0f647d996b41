//! Numbers written in decimal digits: reading one from text, and writing one
//! out.

use vstd::prelude::*;
use vstd::string::*;

verus! {

/// Whether `c` is one of the digits `0` to `9`.
pub open spec fn is_digit(c: char) -> bool {
    '0' <= c && c <= '9'
}

/// The number that the digit `c` stands for.
pub open spec fn digit_value(c: char) -> nat {
    (c as int - '0' as int) as nat
}

/// Whether `text` holds digits only.
pub open spec fn all_digits(text: Seq<char>) -> bool {
    forall|i: int| 0 <= i < text.len() ==> is_digit(#[trigger] text[i])
}

/// The number that the digits of `text` write, most significant first; 0 for
/// no digits.
pub open spec fn digits_value(text: Seq<char>) -> nat
    decreases text.len(),
{
    if text.len() == 0 {
        0
    } else {
        10 * digits_value(text.drop_last()) + digit_value(text.last())
    }
}

/// The number that `text` writes in decimal: `text` must be one digit or
/// more and nothing else. Leading zeros count for nothing; a sign, a blank
/// or an empty text is no number.
pub open spec fn decimal_value(text: Seq<char>) -> Option<nat> {
    if text.len() > 0 && all_digits(text) {
        Some(digits_value(text))
    } else {
        None
    }
}

/// Reads a decimal number. `None` where `text` is no decimal number, or
/// writes one that a `usize` cannot hold.
pub fn parse_decimal(text: &str) -> (value: Option<usize>)
    ensures
        value == match decimal_value(text@) {
            Some(number) => if number <= usize::MAX {
                Some(number as usize)
            } else {
                None
            },
            None => None,
        },
{
    if !text.is_ascii() {
        return None;
    }
    proof {
        is_ascii_spec_bytes(text);
    }
    let bytes = text.as_bytes();
    let length: usize = bytes.len();
    assert(length == text@.len());
    if length == 0 {
        return None;
    }
    let mut number: usize = 0;
    let mut fits: bool = true;
    let mut at: usize = 0;
    while at < length
        invariant
            at <= length,
            length == text@.len(),
            bytes@ =~= Seq::new(text@.len(), |i: int| text@[i] as u8),
            is_ascii(text),
            all_digits(text@.take(at as int)),
            fits ==> number == digits_value(text@.take(at as int)),
            !fits ==> digits_value(text@.take(at as int)) > usize::MAX,
        decreases length - at,
    {
        let byte: u8 = bytes[at];
        assert(byte == text@[at as int] as u8);
        if byte < 48 || byte > 57 {
            assert(!is_digit(text@[at as int]));
            return None;
        }
        let digit: usize = (byte - 48) as usize;
        proof {
            let before = text@.take(at as int);
            let now = text@.take(at as int + 1);
            assert(now.drop_last() =~= before);
            assert(now.last() == text@[at as int]);
            assert(digit_value(now.last()) == digit);
            assert forall|i: int| 0 <= i < now.len() implies is_digit(#[trigger] now[i]) by {
                if i < at {
                    assert(now[i] == before[i]);
                }
            }
        }
        if fits && number <= (usize::MAX - digit) / 10 {
            number = number * 10 + digit;
        } else {
            fits = false;
        }
        at += 1;
    }
    assert(text@.take(at as int) =~= text@);
    if fits {
        Some(number)
    } else {
        None
    }
}

/// The digit that stands for `value`, for a value below ten.
pub open spec fn digit_char(value: nat) -> char {
    if value == 0 {
        '0'
    } else if value == 1 {
        '1'
    } else if value == 2 {
        '2'
    } else if value == 3 {
        '3'
    } else if value == 4 {
        '4'
    } else if value == 5 {
        '5'
    } else if value == 6 {
        '6'
    } else if value == 7 {
        '7'
    } else if value == 8 {
        '8'
    } else {
        '9'
    }
}

/// `number` in decimal digits, without leading zeros.
pub open spec fn decimal_text(number: nat) -> Seq<char>
    decreases number,
{
    if number < 10 {
        seq![digit_char(number)]
    } else {
        decimal_text(number / 10).push(digit_char(number % 10))
    }
}

/// The text of one digit.
fn digit_text(value: u64) -> (text: &'static str)
    requires
        value < 10,
    ensures
        text@ == seq![digit_char(value as nat)],
{
    proof {
        reveal_strlit("0");
        reveal_strlit("1");
        reveal_strlit("2");
        reveal_strlit("3");
        reveal_strlit("4");
        reveal_strlit("5");
        reveal_strlit("6");
        reveal_strlit("7");
        reveal_strlit("8");
        reveal_strlit("9");
    }
    let text = if value == 0 {
        "0"
    } else if value == 1 {
        "1"
    } else if value == 2 {
        "2"
    } else if value == 3 {
        "3"
    } else if value == 4 {
        "4"
    } else if value == 5 {
        "5"
    } else if value == 6 {
        "6"
    } else if value == 7 {
        "7"
    } else if value == 8 {
        "8"
    } else {
        "9"
    };
    assert(text@ =~= seq![digit_char(value as nat)]);
    text
}

/// Appends `number` in decimal digits to `out`.
pub fn push_decimal(out: &mut String, number: u64)
    ensures
        final(out)@ == old(out)@ + decimal_text(number as nat),
    decreases number,
{
    if number >= 10 {
        push_decimal(out, number / 10);
    }
    out.append(digit_text(number % 10));
    proof {
        let digit = seq![digit_char((number % 10) as nat)];
        if number >= 10 {
            assert(decimal_text(number as nat) =~= decimal_text((number / 10) as nat) + digit);
            assert(out@ =~= old(out)@ + decimal_text(number as nat));
        }
    }
}

/// `number` in decimal digits.
pub fn format_decimal(number: u64) -> (text: String)
    ensures
        text@ == decimal_text(number as nat),
{
    let mut text = String::new();
    push_decimal(&mut text, number);
    assert(text@ =~= decimal_text(number as nat));
    text
}

/// What is written is read back: the decimal text of a number is a decimal
/// number, and its value is that number.
pub proof fn lemma_decimal_round_trip(number: nat)
    ensures
        decimal_value(decimal_text(number)) == Some(number),
    decreases number,
{
    let text = decimal_text(number);
    if number < 10 {
        assert(text.drop_last() =~= Seq::<char>::empty());
        assert(digits_value(text.drop_last()) == 0);
        assert(text.last() == digit_char(number));
    } else {
        lemma_decimal_round_trip(number / 10);
        let front = decimal_text(number / 10);
        assert(text.drop_last() =~= front);
        assert(text.last() == digit_char(number % 10));
        assert forall|i: int| 0 <= i < text.len() implies is_digit(#[trigger] text[i]) by {
            if i < front.len() {
                assert(text[i] == front[i]);
            }
        }
    }
}

} // verus!
