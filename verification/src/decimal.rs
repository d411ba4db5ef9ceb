//! Whole numbers as decimal text, the way a phone number travels in a
//! request.

use vstd::prelude::*;
use vstd::string::StringExecFns;
use crate::validator::{all_digits, decimal_value, is_digit, parsed_phone};

verus! {

/// The character that writes the digit `d`.
pub open spec fn digit_char(d: int) -> char {
    ('0' as int + d) as char
}

/// The decimal digits of `m`, most significant first, without leading zeros.
pub open spec fn digits_of(m: nat) -> Seq<char>
    decreases m,
{
    if m < 10 {
        seq![digit_char(m as int)]
    } else {
        digits_of(m / 10).push(digit_char((m % 10) as int))
    }
}

/// The decimal text of `n`: a minus sign where `n` is negative, then the
/// digits of its magnitude.
pub open spec fn decimal_text(n: int) -> Seq<char> {
    if n < 0 {
        seq!['-'] + digits_of((-n) as nat)
    } else {
        digits_of(n as nat)
    }
}

/// The digits of a number are digits, and they write that number.
pub proof fn lemma_digits_value(m: nat)
    ensures
        digits_of(m).len() > 0,
        all_digits(digits_of(m)),
        decimal_value(digits_of(m)) == m,
    decreases m,
{
    if m < 10 {
        let s = digits_of(m);
        assert(s.drop_last() =~= Seq::<char>::empty());
        assert(decimal_value(s.drop_last()) == 0);
        assert(s.last() == digit_char(m as int));
    } else {
        lemma_digits_value(m / 10);
        let s = digits_of(m);
        let front = digits_of(m / 10);
        assert(s.drop_last() =~= front);
        assert(s.last() == digit_char((m % 10) as int));
        assert forall|i: int| 0 <= i < s.len() implies is_digit(#[trigger] s[i]) by {
            if i < front.len() {
                assert(s[i] == front[i]);
            }
        }
    }
}

/// Reading the text of a number that is not negative gives the number back;
/// the text of a negative number is no phone number.
pub proof fn lemma_text_round_trip(n: i64)
    ensures
        n >= 0 ==> parsed_phone(decimal_text(n as int)) == Some(n),
        n < 0 ==> parsed_phone(decimal_text(n as int)) is None,
{
    if n >= 0 {
        lemma_digits_value(n as nat);
    } else {
        assert(decimal_text(n as int)[0] == '-');
        assert(!is_digit(decimal_text(n as int)[0]));
    }
}

/// The text of one digit.
fn digit_text(d: u64) -> (text: &'static str)
    requires
        d < 10,
    ensures
        text@ == seq![digit_char(d as int)],
{
    proof {
        reveal_strlit("0");
        reveal_strlit("1");
        reveal_strlit("2");
        reveal_strlit("3");
        reveal_strlit("4");
        reveal_strlit("5");
        reveal_strlit("6");
        reveal_strlit("7");
        reveal_strlit("8");
        reveal_strlit("9");
    }
    let text = if d == 0 {
        "0"
    } else if d == 1 {
        "1"
    } else if d == 2 {
        "2"
    } else if d == 3 {
        "3"
    } else if d == 4 {
        "4"
    } else if d == 5 {
        "5"
    } else if d == 6 {
        "6"
    } else if d == 7 {
        "7"
    } else if d == 8 {
        "8"
    } else {
        "9"
    };
    assert(text@ =~= seq![digit_char(d as int)]);
    text
}

/// Writes `n` in decimal.
pub fn phone_text(n: i64) -> (text: String)
    ensures
        text@ == decimal_text(n as int),
{
    let magnitude: u64 = if n < 0 {
        (-(n + 1)) as u64 + 1
    } else {
        n as u64
    };
    let mut text = String::from_str(digit_text(magnitude % 10));
    let mut rest: u64 = magnitude / 10;
    while rest > 0
        invariant
            rest == 0 ==> text@ == digits_of(magnitude as nat),
            rest > 0 ==> digits_of(rest as nat) + text@ == digits_of(magnitude as nat),
        decreases rest,
    {
        let digit = digit_text(rest % 10);
        proof {
            if rest >= 10 {
                assert(digits_of(rest as nat) + text@ =~= digits_of((rest / 10) as nat) + (digit@
                    + text@));
            } else {
                assert(digits_of(rest as nat) + text@ =~= digit@ + text@);
            }
        }
        text = String::from_str(digit).concat(text.as_str());
        rest = rest / 10;
    }
    if n < 0 {
        proof {
            reveal_strlit("-");
            assert("-"@ =~= seq!['-']);
        }
        String::from_str("-").concat(text.as_str())
    } else {
        text
    }
}

} // verus!
