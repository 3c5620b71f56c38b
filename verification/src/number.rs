//! Numbers written in decimal digits.
use vstd::prelude::*;
use vstd::utf8::{is_ascii_chars, is_ascii_chars_encode_utf8};

verus! {

/// Whether `c` is one of the digits `0` to `9`.
pub open spec fn is_digit(c: char) -> bool {
    '0' <= c && c <= '9'
}

/// The number that the digit `c` stands for.
pub open spec fn digit_value(c: char) -> nat {
    (c as u8 - '0' as u8) as nat
}

/// Whether `text` is one digit or more and nothing else.
pub open spec fn all_digits(text: Seq<char>) -> bool {
    text.len() > 0 && forall|i: int| 0 <= i < text.len() ==> is_digit(#[trigger] text[i])
}

/// The number that the digits in `text` write, the last digit counting ones.
pub open spec fn decimal_value(text: Seq<char>) -> nat
    decreases text.len(),
{
    if text.len() == 0 {
        0
    } else {
        decimal_value(text.drop_last()) * 10 + digit_value(text.last())
    }
}

/// The number that `text` writes, where `text` is made of digits alone and
/// the number is at most `max`.
pub open spec fn decimal(text: Seq<char>, max: nat) -> Option<nat> {
    if all_digits(text) && decimal_value(text) <= max {
        Some(decimal_value(text))
    } else {
        None
    }
}

/// Digits that follow can only make a number larger.
pub proof fn lemma_decimal_prefix(text: Seq<char>, k: int)
    requires
        0 <= k <= text.len(),
    ensures
        decimal_value(text.take(k)) <= decimal_value(text),
    decreases text.len(),
{
    if k == text.len() {
        assert(text.take(k) =~= text);
    } else {
        assert(text.drop_last().take(k) =~= text.take(k));
        lemma_decimal_prefix(text.drop_last(), k);
    }
}

/// Reads the number that `text` writes in decimal digits.
///
/// Returns `None` where `text` is empty, holds anything but digits, or
/// writes a number above `max`.
pub fn parse_decimal(text: &str, max: u128) -> (r: Option<u128>)
    ensures
        match r {
            Some(n) => decimal(text@, max as nat) == Some(n as nat),
            None => decimal(text@, max as nat) is None,
        },
{
    if !text.is_ascii() {
        assert(all_digits(text@) ==> is_ascii_chars(text@));
        return None;
    }
    let bytes = text.as_bytes();
    proof {
        is_ascii_chars_encode_utf8(text@);
    }
    if bytes.len() == 0 {
        return None;
    }
    let mut acc: u128 = 0;
    let mut i: usize = 0;
    assert(text@.take(0).len() == 0);
    while i < bytes.len()
        invariant
            i <= bytes.len(),
            bytes.len() == text@.len(),
            forall|j: int| 0 <= j < bytes.len() ==> text@[j] as u8 == #[trigger] bytes[j],
            is_ascii_chars(text@),
            forall|j: int| 0 <= j < i ==> is_digit(#[trigger] text@[j]),
            acc == decimal_value(text@.take(i as int)),
            acc <= max,
        decreases bytes.len() - i,
    {
        let b = bytes[i];
        let ghost c = text@[i as int];
        assert(c as u8 == b && '\0' <= c && c <= '\u{7f}');
        assert(c as u32 == b as u32);
        if b < '0' as u8 || b > '9' as u8 {
            assert(!is_digit(c));
            return None;
        }
        assert(is_digit(c));
        let digit = (b - '0' as u8) as u128;
        assert(text@.take(i + 1).drop_last() =~= text@.take(i as int));
        assert(text@.take(i + 1).last() == text@[i as int]);
        assert(decimal_value(text@.take(i + 1)) == acc * 10 + digit);
        if digit > max || acc > (max - digit) / 10 {
            proof {
                lemma_decimal_prefix(text@, i + 1);
            }
            return None;
        }
        acc = acc * 10 + digit;
        i += 1;
    }
    assert(text@.take(i as int) =~= text@);
    Some(acc)
}

} // verus!
