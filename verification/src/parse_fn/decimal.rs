//! Numbers written in decimal digits.

use crate::text::to_chars;
use vstd::prelude::*;

verus! {

/// One of the digits `0` to `9`.
pub open spec fn is_digit(c: char) -> bool {
    0x30 <= c as u32 <= 0x39
}

/// What a digit stands for.
pub open spec fn digit_value(c: char) -> nat {
    (c as u32 - 0x30) as nat
}

/// Every character of `text` is a digit.
pub open spec fn all_digits(text: Seq<char>) -> bool {
    forall|i: int| 0 <= i < text.len() ==> is_digit(#[trigger] text[i])
}

/// The number that a run of digits stands for.
pub open spec fn decimal_value(digits: Seq<char>) -> nat
    decreases digits.len(),
{
    if digits.len() == 0 {
        0
    } else {
        decimal_value(digits.drop_last()) * 10 + digit_value(digits.last())
    }
}

/// The number that `text` stands for where it is a run of at least one digit
/// and the number is at most `limit`.
pub open spec fn digits_value(text: Seq<char>, limit: nat) -> Option<nat> {
    if text.len() > 0 && all_digits(text) && decimal_value(text) <= limit {
        Some(decimal_value(text))
    } else {
        None
    }
}

/// As `digits_value`, with a plus sign allowed before the digits.
pub open spec fn unsigned_value(text: Seq<char>, limit: nat) -> Option<nat> {
    if text.len() > 0 && text[0] == '+' {
        digits_value(text.drop_first(), limit)
    } else {
        digits_value(text, limit)
    }
}

proof fn lemma_prefix_value_grows(digits: Seq<char>, i: int)
    requires
        0 <= i <= digits.len(),
    ensures
        decimal_value(digits.take(i)) <= decimal_value(digits),
    decreases digits.len() - i,
{
    if i < digits.len() {
        lemma_prefix_value_grows(digits, i + 1);
        assert(digits.take(i + 1).drop_last() =~= digits.take(i));
    } else {
        assert(digits.take(i) =~= digits);
    }
}

fn digits_from(chars: &Vec<char>, from: usize, limit: u64) -> (value: Option<u64>)
    requires
        from <= chars.len(),
    ensures
        value is Some <==> digits_value(chars@.skip(from as int), limit as nat) is Some,
        value is Some ==> value->Some_0 as nat == decimal_value(chars@.skip(from as int)),
{
    let ghost digits = chars@.skip(from as int);
    let n: usize = chars.len();
    if from == n {
        return None;
    }
    let mut total: u64 = 0;
    let mut i: usize = from;
    assert(digits.take(0) =~= Seq::<char>::empty());
    while i < n
        invariant
            from <= i <= n,
            n == chars.len(),
            digits == chars@.skip(from as int),
            total as nat == decimal_value(digits.take(i - from)),
            total <= limit,
            forall|j: int| 0 <= j < i - from ==> is_digit(#[trigger] digits[j]),
        decreases n - i,
    {
        let c: char = chars[i];
        let code: u32 = c as u32;
        assert(digits[i - from] == chars@[i as int]);
        if code < 0x30 || code > 0x39 {
            return None;
        }
        let digit: u64 = (code - 0x30) as u64;
        proof {
            assert(digits.take(i - from + 1).drop_last() =~= digits.take(i - from));
            assert(digits.take(i - from + 1).last() == digits[i - from]);
            lemma_prefix_value_grows(digits, i - from + 1);
        }
        if digit > limit || total > (limit - digit) / 10 {
            return None;
        }
        total = total * 10 + digit;
        i += 1;
    }
    assert(digits.take(n - from) =~= digits);
    Some(total)
}

/// Reads a run of digits as a number of at most `limit`.
pub fn parse_digits(text: &str, limit: u64) -> (value: Option<u64>)
    ensures
        value is Some <==> digits_value(text@, limit as nat) is Some,
        value is Some ==> Some(value->Some_0 as nat) == digits_value(text@, limit as nat),
{
    let chars = to_chars(text);
    assert(chars@.skip(0) =~= chars@);
    digits_from(&chars, 0, limit)
}

/// Reads a run of digits, with or without a plus sign before it, as a number
/// of at most `limit`.
pub fn parse_unsigned(text: &str, limit: u64) -> (value: Option<u64>)
    ensures
        value is Some <==> unsigned_value(text@, limit as nat) is Some,
        value is Some ==> Some(value->Some_0 as nat) == unsigned_value(text@, limit as nat),
{
    let chars = to_chars(text);
    if chars.len() > 0 && chars[0] == '+' {
        assert(chars@.skip(1) =~= text@.drop_first());
        digits_from(&chars, 1, limit)
    } else {
        assert(chars@.skip(0) =~= chars@);
        digits_from(&chars, 0, limit)
    }
}

} // verus!
