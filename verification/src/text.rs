//! Cutting strings at separators, character by character.

use vstd::prelude::*;
use vstd::string::StrSliceExecFns;

verus! {

/// Whether `at` is the first place at which the character occurs.
pub open spec fn is_first_char(text: Seq<char>, c: char, at: int) -> bool {
    &&& 0 <= at < text.len()
    &&& text[at] == c
    &&& forall|i: int| 0 <= i < at ==> text[i] != c
}

/// The first place at which the character occurs, if it occurs.
pub open spec fn first_char(text: Seq<char>, c: char) -> Option<int> {
    if exists|at: int| is_first_char(text, c, at) {
        Some(choose|at: int| is_first_char(text, c, at))
    } else {
        None
    }
}

/// The text before the first occurrence of the separator, or all of it where
/// the separator does not occur.
pub open spec fn head(text: Seq<char>, separator: char) -> Seq<char> {
    match first_char(text, separator) {
        Some(at) => text.take(at),
        None => text,
    }
}

/// The text behind the first occurrence of the separator, if it occurs.
pub open spec fn tail(text: Seq<char>, separator: char) -> Option<Seq<char>> {
    match first_char(text, separator) {
        Some(at) => Some(text.skip(at + 1)),
        None => None,
    }
}

/// Finds the first place at which the character occurs.
pub fn find_char(text: &str, c: char) -> (found: Option<usize>)
    ensures
        match found {
            Some(at) => first_char(text@, c) == Some(at as int) && at < text@.len(),
            None => first_char(text@, c) is None,
        },
{
    let len = text.unicode_len();
    let mut at: usize = 0;
    for current in chars: text.chars()
        invariant
            chars.seq() == text@,
            len == text@.len(),
            at == chars.index(),
            forall|j: int| 0 <= j < at ==> text@[j] != c,
    {
        if current == c {
            assert(is_first_char(text@, c, at as int));
            assert(forall|other: int| is_first_char(text@, c, other) ==> other == at);
            return Some(at);
        }
        at += 1;
    }
    assert(forall|other: int| !is_first_char(text@, c, other));
    None
}

/// Cuts the text at the first occurrence of the separator: what stands
/// before it, and what stands behind it if the separator occurs.
pub fn split_first(text: &str, separator: char) -> (parts: (&str, Option<&str>))
    ensures
        parts.0@ == head(text@, separator),
        match tail(text@, separator) {
            Some(rest) => parts.1 is Some && parts.1->0@ == rest,
            None => parts.1 is None,
        },
{
    match find_char(text, separator) {
        Some(at) => {
            let len = text.unicode_len();
            (text.substring_char(0, at), Some(text.substring_char(at + 1, len)))
        },
        None => (text, None),
    }
}

/// The number that a decimal numeral stands for: the digits read from the
/// left.
pub open spec fn decimal_value(digits: Seq<char>) -> nat
    decreases digits.len(),
{
    if digits.len() == 0 {
        0
    } else {
        decimal_value(digits.drop_last()) * 10 + (digits.last() as nat - '0' as nat) as nat
    }
}

/// Whether every character is a decimal digit.
pub open spec fn is_decimal(digits: Seq<char>) -> bool {
    forall|i: int| 0 <= i < digits.len() ==> '0' <= #[trigger] digits[i] <= '9'
}

/// The digits of a numeral without the plus sign that may stand in front.
pub open spec fn unsigned(text: Seq<char>) -> Seq<char> {
    if text.len() > 0 && text[0] == '+' {
        text.skip(1)
    } else {
        text
    }
}

/// The 16-bit number that the text stands for, if it stands for one: decimal
/// digits, at least one, with or without a plus sign in front, for a number
/// of at most 65535.
pub open spec fn parsed_u16(text: Seq<char>) -> Option<u16> {
    let digits = unsigned(text);
    if digits.len() > 0 && is_decimal(digits) && decimal_value(digits) <= u16::MAX {
        Some(decimal_value(digits) as u16)
    } else {
        None
    }
}

proof fn lemma_decimal_value_grows(digits: Seq<char>, upto: int)
    requires
        is_decimal(digits),
        0 <= upto <= digits.len(),
    ensures
        decimal_value(digits.take(upto)) <= decimal_value(digits),
    decreases digits.len() - upto,
{
    if upto < digits.len() {
        lemma_decimal_value_grows(digits, upto + 1);
        assert(digits.take(upto + 1).drop_last() =~= digits.take(upto));
    } else {
        assert(digits.take(upto) =~= digits);
    }
}

/// Parses a 16-bit number in decimal notation.
pub fn parse_u16(text: &str) -> (parsed: Option<u16>)
    ensures
        parsed == parsed_u16(text@),
{
    let len = text.unicode_len();
    let start: usize = if len > 0 && text.get_char(0) == '+' {
        1
    } else {
        0
    };
    if start == len {
        return None;
    }
    let ghost digits = unsigned(text@);
    assert(digits =~= text@.skip(start as int));
    assert(digits.take(0) =~= Seq::<char>::empty());
    let mut value: u32 = 0;
    let mut i: usize = start;
    while i < len
        invariant
            len == text@.len(),
            start <= i <= len,
            digits == text@.skip(start as int),
            digits == unsigned(text@),
            is_decimal(digits.take(i - start)),
            value == decimal_value(digits.take(i - start)),
            value <= u16::MAX,
        decreases len - i,
    {
        let c = text.get_char(i);
        if !('0' <= c && c <= '9') {
            assert(digits[i - start] == c);
            assert(!is_decimal(digits));
            return None;
        }
        let digit = (c as u32) - ('0' as u32);
        proof {
            assert(digits.take(i - start + 1).drop_last() =~= digits.take(i - start));
            assert(digits.take(i - start + 1).last() == c);
        }
        value = value * 10 + digit;
        assert(value == decimal_value(digits.take(i - start + 1)));
        if value > 0xFFFF {
            proof {
                // What has been read so far is too large, and reading on
                // does not make it smaller.
                if is_decimal(digits) {
                    lemma_decimal_value_grows(digits, i - start + 1);
                }
            }
            return None;
        }
        i += 1;
    }
    assert(digits.take(len - start) =~= digits);
    Some(value as u16)
}

/// The value of a hexadecimal digit, in either case.
pub open spec fn hex_digit(c: char) -> Option<nat> {
    if '0' <= c <= '9' {
        Some((c as nat - '0' as nat) as nat)
    } else if 'a' <= c <= 'f' {
        Some((c as nat - 'a' as nat + 10) as nat)
    } else if 'A' <= c <= 'F' {
        Some((c as nat - 'A' as nat + 10) as nat)
    } else {
        None
    }
}

/// Whether every character is a hexadecimal digit.
pub open spec fn is_hex(digits: Seq<char>) -> bool {
    forall|i: int| 0 <= i < digits.len() ==> hex_digit(#[trigger] digits[i]) is Some
}

/// The number that a hexadecimal numeral stands for.
pub open spec fn hex_value(digits: Seq<char>) -> nat
    decreases digits.len(),
{
    if digits.len() == 0 {
        0
    } else {
        hex_value(digits.drop_last()) * 16 + match hex_digit(digits.last()) {
            Some(value) => value,
            None => 0,
        }
    }
}

/// The byte that the text stands for, if it stands for one: hexadecimal
/// digits, at least one, with or without a plus sign in front, for a number
/// of at most 255.
pub open spec fn parsed_hex_u8(text: Seq<char>) -> Option<u8> {
    let digits = unsigned(text);
    if digits.len() > 0 && is_hex(digits) && hex_value(digits) <= u8::MAX {
        Some(hex_value(digits) as u8)
    } else {
        None
    }
}

proof fn lemma_hex_value_grows(digits: Seq<char>, upto: int)
    requires
        0 <= upto <= digits.len(),
    ensures
        hex_value(digits.take(upto)) <= hex_value(digits),
    decreases digits.len() - upto,
{
    if upto < digits.len() {
        lemma_hex_value_grows(digits, upto + 1);
        assert(digits.take(upto + 1).drop_last() =~= digits.take(upto));
    } else {
        assert(digits.take(upto) =~= digits);
    }
}

/// Parses a byte in hexadecimal notation.
pub fn parse_hex_u8(text: &str) -> (parsed: Option<u8>)
    ensures
        parsed == parsed_hex_u8(text@),
{
    let len = text.unicode_len();
    let start: usize = if len > 0 && text.get_char(0) == '+' {
        1
    } else {
        0
    };
    if start == len {
        return None;
    }
    let ghost digits = unsigned(text@);
    assert(digits =~= text@.skip(start as int));
    assert(digits.take(0) =~= Seq::<char>::empty());
    let mut value: u32 = 0;
    let mut i: usize = start;
    while i < len
        invariant
            len == text@.len(),
            start <= i <= len,
            digits == text@.skip(start as int),
            digits == unsigned(text@),
            is_hex(digits.take(i - start)),
            value == hex_value(digits.take(i - start)),
            value <= u8::MAX,
        decreases len - i,
    {
        let c = text.get_char(i);
        let digit: u32 = if '0' <= c && c <= '9' {
            (c as u32) - ('0' as u32)
        } else if 'a' <= c && c <= 'f' {
            (c as u32) - ('a' as u32) + 10
        } else if 'A' <= c && c <= 'F' {
            (c as u32) - ('A' as u32) + 10
        } else {
            assert(digits[i - start] == c);
            assert(!is_hex(digits));
            return None;
        };
        proof {
            assert(digits.take(i - start + 1).drop_last() =~= digits.take(i - start));
            assert(digits.take(i - start + 1).last() == c);
        }
        value = value * 16 + digit;
        assert(value == hex_value(digits.take(i - start + 1)));
        if value > 0xFF {
            proof {
                lemma_hex_value_grows(digits, i - start + 1);
            }
            return None;
        }
        i += 1;
    }
    assert(digits.take(len - start) =~= digits);
    Some(value as u8)
}

/// `String::push`: appends one character.
#[verifier::external_body]
pub(crate) fn string_push(out: &mut String, c: char)
    ensures
        final(out)@ == old(out)@.push(c),
{
    out.push(c)
}

/// The uppercase hexadecimal digit for a value below 16.
pub open spec fn hex_char(value: nat) -> char
    recommends
        value < 16,
{
    if value < 10 {
        ('0' as nat + value) as char
    } else {
        ('A' as nat + value - 10) as char
    }
}

/// The uppercase hexadecimal digit for a value below 16.
pub fn hex_digit_char(value: u8) -> (c: char)
    requires
        value < 16,
    ensures
        c == hex_char(value as nat),
        hex_digit(c) == Some(value as nat),
{
    if value < 10 {
        (0x30 + value) as char
    } else {
        (0x41 + (value - 10)) as char
    }
}

/// The decimal digit for a value below ten.
pub open spec fn decimal_char(value: nat) -> char
    recommends
        value < 10,
{
    ('0' as nat + value) as char
}

/// The decimal numeral of a number, without leading zeros.
pub open spec fn decimal_text(value: nat) -> Seq<char>
    decreases value,
{
    if value < 10 {
        seq![decimal_char(value)]
    } else {
        decimal_text(value / 10).push(decimal_char(value % 10))
    }
}

/// Appends the decimal numeral of a 16-bit number.
pub fn push_decimal(out: &mut String, value: u16)
    ensures
        final(out)@ == old(out)@ + decimal_text(value as nat),
{
    reveal_with_fuel(decimal_text, 5);
    if value >= 10000 {
        string_push(out, (0x30 + (value / 10000) as u8) as char);
    }
    if value >= 1000 {
        string_push(out, (0x30 + (value / 1000 % 10) as u8) as char);
    }
    if value >= 100 {
        string_push(out, (0x30 + (value / 100 % 10) as u8) as char);
    }
    if value >= 10 {
        string_push(out, (0x30 + (value / 10 % 10) as u8) as char);
    }
    string_push(out, (0x30 + (value % 10) as u8) as char);
    assert(out@ =~= old(out)@ + decimal_text(value as nat));
}

} // verus!
