//! Joining of text pieces and decimal parsing of a port number.

use vstd::prelude::*;
use vstd::string::*;

verus! {

/// The character sequences of a list of strings, in order.
pub open spec fn views(items: Seq<String>) -> Seq<Seq<char>> {
    Seq::new(items.len(), |i: int| items[i]@)
}

/// The pieces of `parts` written one after the other, with `sep` between
/// each two neighbours.
pub open spec fn join_with(parts: Seq<Seq<char>>, sep: Seq<char>) -> Seq<char>
    decreases parts.len(),
{
    if parts.len() == 0 {
        Seq::empty()
    } else if parts.len() == 1 {
        parts[0]
    } else {
        join_with(parts.drop_last(), sep) + sep + parts.last()
    }
}

/// Joins `parts` with `sep` between each two neighbours.
pub fn join_strings(parts: &Vec<String>, sep: &str) -> (joined: String)
    ensures
        joined@ == join_with(views(parts@), sep@),
{
    let mut joined = String::new();
    let mut i: usize = 0;
    while i < parts.len()
        invariant
            i <= parts.len(),
            joined@ == join_with(views(parts@).take(i as int), sep@),
        decreases parts.len() - i,
    {
        proof {
            let done = views(parts@).take(i as int);
            let next = views(parts@).take(i + 1);
            assert(next.drop_last() =~= done);
            assert(next.last() == parts@[i as int]@);
            if i == 0 {
                assert(joined@ + parts@[0]@ =~= parts@[0]@);
            }
        }
        if i > 0 {
            joined.append(sep);
        }
        joined.append(parts[i].as_str());
        i = i + 1;
    }
    proof {
        assert(views(parts@).take(parts.len() as int) =~= views(parts@));
    }
    joined
}

/// Whether `c` is one of the ten decimal digits.
pub open spec fn is_digit(c: char) -> bool {
    '0' <= c && c <= '9'
}

/// The number that the decimal digits of `digits` write, most significant
/// digit first.
pub open spec fn decimal_value(digits: Seq<char>) -> nat
    decreases digits.len(),
{
    if digits.len() == 0 {
        0
    } else {
        decimal_value(digits.drop_last()) * 10 + (digits.last() as nat - '0' as nat) as nat
    }
}

/// Whether every character of `digits` is a decimal digit.
pub open spec fn all_digits(digits: Seq<char>) -> bool {
    forall|i: int| 0 <= i < digits.len() ==> is_digit(#[trigger] digits[i])
}

/// `text` without one leading plus sign, if it has one.
pub open spec fn unsigned_part(text: Seq<char>) -> Seq<char> {
    if text.len() > 0 && text[0] == '+' {
        text.subrange(1, text.len() as int)
    } else {
        text
    }
}

/// The port that `text` writes: an optional plus sign, then one or more
/// decimal digits whose value fits in sixteen bits. Anything else is no port.
pub open spec fn port_value(text: Seq<char>) -> Option<u16> {
    let digits = unsigned_part(text);
    if digits.len() > 0 && all_digits(digits) && decimal_value(digits) <= u16::MAX {
        Some(decimal_value(digits) as u16)
    } else {
        None
    }
}

/// A longer run of digits writes a number at least as large as each of its
/// prefixes.
pub proof fn lemma_decimal_value_prefix(digits: Seq<char>, k: int)
    requires
        0 <= k <= digits.len(),
        all_digits(digits),
    ensures
        decimal_value(digits.take(k)) <= decimal_value(digits),
    decreases digits.len(),
{
    if k == digits.len() {
        assert(digits.take(k) =~= digits);
    } else {
        assert(digits.drop_last().take(k) =~= digits.take(k));
        lemma_decimal_value_prefix(digits.drop_last(), k);
        assert(is_digit(digits[digits.len() - 1]));
    }
}

/// A text with a character that is neither a decimal digit nor a plus sign
/// in the first place writes no port.
pub proof fn lemma_port_needs_digits(text: Seq<char>, i: int)
    requires
        0 <= i < text.len(),
        !is_digit(text[i]),
        i > 0 || text[0] != '+',
    ensures
        port_value(text) is None,
{
    let digits = unsigned_part(text);
    if text[0] == '+' {
        assert(digits[i - 1] == text[i]);
    } else {
        assert(digits[i] == text[i]);
    }
}

/// Reads a port number from `text`.
pub fn parse_port(text: &str) -> (port: Option<u16>)
    ensures
        port == port_value(text@),
{
    let len: usize = text.unicode_len();
    if len == 0 {
        return None;
    }
    let start: usize = if text.get_char(0) == '+' { 1 } else { 0 };
    if start == len {
        return None;
    }
    let ghost digits = unsigned_part(text@);
    let mut value: u32 = 0;
    let mut i: usize = start;
    while i < len
        invariant
            start <= i <= len,
            len == text@.len(),
            digits == unsigned_part(text@),
            digits.len() == len - start,
            forall|j: int| 0 <= j < digits.len() ==> digits[j] == text@[j + start],
            all_digits(digits.take(i - start)),
            value == decimal_value(digits.take(i - start)),
            value <= u16::MAX,
        decreases len - i,
    {
        let c: char = text.get_char(i);
        if c < '0' || c > '9' {
            proof {
                assert(digits[i - start] == c);
            }
            return None;
        }
        let digit: u32 = c as u32 - '0' as u32;
        proof {
            let done = digits.take(i - start);
            let next = digits.take(i - start + 1);
            assert(next.drop_last() =~= done);
            assert(next.last() == c);
            assert(all_digits(next)) by {
                assert forall|j: int| 0 <= j < next.len() implies is_digit(#[trigger] next[j]) by {
                    if j < done.len() {
                        assert(next[j] == done[j]);
                    }
                }
            }
        }
        value = value * 10 + digit;
        if value > 65535 {
            proof {
                if all_digits(digits) {
                    lemma_decimal_value_prefix(digits, i - start + 1);
                }
            }
            return None;
        }
        i = i + 1;
    }
    proof {
        assert(digits.take(len - start) =~= digits);
    }
    Some(value as u16)
}

} // verus!
