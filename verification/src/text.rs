//! Text that leaves or enters the process: C strings and decimal numbers.

use vstd::prelude::*;
use vstd::utf8::{encode_scalar, encode_utf8, is_ascii_chars, is_ascii_chars_encode_utf8};

verus! {

/// Whether two texts are the same.
pub fn same_text(a: &str, b: &str) -> (same: bool)
    ensures
        same == (a@ == b@),
{
    a.to_owned() == b.to_owned()
}

proof fn character_bytes(c: char)
    ensures
        encode_scalar(c as u32).contains(0u8) <==> c == '\0',
{
    let scalar = c as u32;
    let bytes = encode_scalar(scalar);
    assert(scalar <= 0x7f ==> ((scalar & 0x7f) as u8 == 0 <==> scalar == 0)) by (bit_vector);
    assert(0xc0u8 | ((scalar >> 6) & 0x1f) as u8 != 0) by (bit_vector);
    assert(0xe0u8 | ((scalar >> 12) & 0x0f) as u8 != 0) by (bit_vector);
    assert(0xf0u8 | ((scalar >> 18) & 0x07) as u8 != 0) by (bit_vector);
    assert(0x80u8 | (scalar & 0x3f) as u8 != 0) by (bit_vector);
    assert(0x80u8 | ((scalar >> 6) & 0x3f) as u8 != 0) by (bit_vector);
    assert(0x80u8 | ((scalar >> 12) & 0x3f) as u8 != 0) by (bit_vector);
    if scalar == 0 {
        assert(bytes[0] == 0);
    }
}

/// The UTF-8 form of a text holds a zero byte exactly where the text holds a
/// NUL character.
pub proof fn nul_bytes_are_nul_characters(text: Seq<char>)
    ensures
        encode_utf8(text).contains(0u8) <==> text.contains('\0'),
    decreases text.len(),
{
    if text.len() > 0 {
        let first = encode_scalar(text[0] as u32);
        let rest = text.drop_first();
        character_bytes(text[0]);
        nul_bytes_are_nul_characters(rest);
        assert(encode_utf8(text) == first + encode_utf8(rest));
        if encode_utf8(text).contains(0u8) {
            let i = choose|i: int| 0 <= i < encode_utf8(text).len() && encode_utf8(text)[i] == 0u8;
            if i < first.len() {
                assert(first[i] == 0u8);
                assert(text[0] == '\0');
            } else {
                assert(encode_utf8(rest)[i - first.len()] == 0u8);
                let j = choose|j: int| 0 <= j < rest.len() && rest[j] == '\0';
                assert(text[j + 1] == '\0');
            }
        }
        if text.contains('\0') {
            let j = choose|j: int| 0 <= j < text.len() && text[j] == '\0';
            if j == 0 {
                let i = choose|i: int| 0 <= i < first.len() && first[i] == 0u8;
                assert(encode_utf8(text)[i] == 0u8);
            } else {
                assert(rest[j - 1] == '\0');
                let i = choose|i: int|
                    0 <= i < encode_utf8(rest).len() && encode_utf8(rest)[i] == 0u8;
                assert(encode_utf8(text)[first.len() + i] == 0u8);
            }
        }
    }
}

/// `bytes` is the C string of `text`: its UTF-8 form and one terminator.
pub open spec fn is_c_string(bytes: Seq<u8>, text: Seq<char>) -> bool {
    bytes == encode_utf8(text).push(0u8)
}

/// The C string of a text, or `None` for a text that holds a NUL character,
/// which a C string cannot.
pub fn c_string(text: &str) -> (bytes: Option<Vec<u8>>)
    ensures
        bytes is Some <==> !text@.contains('\0'),
        bytes matches Some(b) ==> is_c_string(b@, text@),
{
    proof {
        nul_bytes_are_nul_characters(text@);
    }
    let source = text.as_bytes();
    let mut bytes: Vec<u8> = Vec::new();
    let mut i: usize = 0;
    while i < source.len()
        invariant
            i <= source.len(),
            source@ == encode_utf8(text@),
            bytes@ == source@.take(i as int),
            !bytes@.contains(0u8),
            encode_utf8(text@).contains(0u8) <==> text@.contains('\0'),
        decreases source.len() - i,
    {
        if source[i] == 0 {
            assert(source@[i as int] == 0u8);
            return None;
        }
        bytes.push(source[i]);
        assert(source@.take(i as int).push(source@[i as int]) =~= source@.take(i + 1));
        assert forall|k: int| 0 <= k < bytes@.len() implies bytes@[k] != 0u8 by {
            assert(k < i ==> source@.take(i as int)[k] == bytes@[k]);
            assert(k < i ==> source@.take(i as int).contains(bytes@[k]));
        }
        i = i + 1;
    }
    assert(source@.take(i as int) =~= source@);
    bytes.push(0);
    Some(bytes)
}

/// A reader of a C string of `text` that stops at the first zero byte reads
/// the whole text and nothing more.
pub proof fn c_string_ends_at_its_terminator(bytes: Seq<u8>, text: Seq<char>)
    requires
        is_c_string(bytes, text),
        !text.contains('\0'),
    ensures
        bytes.last() == 0u8,
        bytes.drop_last() == encode_utf8(text),
        forall|i: int| 0 <= i < bytes.len() - 1 ==> bytes[i] != 0u8,
{
    nul_bytes_are_nul_characters(text);
    assert(bytes.drop_last() =~= encode_utf8(text));
    assert forall|i: int| 0 <= i < bytes.len() - 1 implies bytes[i] != 0u8 by {
        assert(encode_utf8(text)[i] == bytes[i]);
    }
}

/// `c` is a decimal digit.
pub open spec fn is_digit(c: char) -> bool {
    '0' <= c <= '9'
}

/// `text` is one decimal digit or more, and nothing else.
pub open spec fn all_digits(text: Seq<char>) -> bool {
    &&& text.len() > 0
    &&& forall|i: int| 0 <= i < text.len() ==> is_digit(#[trigger] text[i])
}

/// The number that decimal digits stand for.
pub open spec fn digits_value(text: Seq<char>) -> int
    decreases text.len(),
{
    if text.len() == 0 {
        0
    } else {
        10 * digits_value(text.drop_last()) + (text.last() as int - '0' as int)
    }
}

/// `text` without a leading sign.
pub open spec fn unsigned_part(text: Seq<char>) -> Seq<char> {
    if text.len() > 0 && (text[0] == '-' || text[0] == '+') {
        text.drop_first()
    } else {
        text
    }
}

/// The number that `text` stands for, as a sign or none and decimal digits.
pub open spec fn decimal_value(text: Seq<char>) -> int {
    if text.len() > 0 && text[0] == '-' {
        -digits_value(unsigned_part(text))
    } else {
        digits_value(unsigned_part(text))
    }
}

/// The 32-bit integer that `text` stands for: an optional sign and one decimal
/// digit or more, in range.
pub open spec fn i32_value(text: Seq<char>) -> Option<i32> {
    if all_digits(unsigned_part(text)) && i32::MIN <= decimal_value(text) <= i32::MAX {
        Some(decimal_value(text) as i32)
    } else {
        None
    }
}

proof fn digits_value_grows(text: Seq<char>, n: int)
    requires
        forall|i: int| 0 <= i < text.len() ==> is_digit(#[trigger] text[i]),
        0 <= n <= text.len(),
    ensures
        0 <= digits_value(text.take(n)) <= digits_value(text),
    decreases text.len(),
{
    if n == text.len() {
        assert(text.take(n) =~= text);
        if n > 0 {
            digits_value_grows(text.drop_last(), n - 1);
        }
    } else {
        digits_value_grows(text.drop_last(), n);
        assert(text.drop_last().take(n) =~= text.take(n));
        assert(is_digit(text.last()));
    }
}

/// Reads a 32-bit integer.
pub fn parse_i32(text: &str) -> (value: Option<i32>)
    ensures
        value == i32_value(text@),
{
    if !text.is_ascii() {
        proof {
            let i = choose|i: int| 0 <= i < text@.len() && !('\0' <= #[trigger] text@[i] <= '\u{7f}');
            assert(!is_digit(text@[i]));
            if unsigned_part(text@) == text@ {
            } else {
                assert(unsigned_part(text@)[i - 1] == text@[i]);
            }
        }
        return None;
    }
    let ghost body = unsigned_part(text@);
    proof {
        is_ascii_chars_encode_utf8(text@);
    }
    let bytes = text.as_bytes();
    let mut negative = false;
    let mut start: usize = 0;
    if bytes.len() > 0 {
        assert(text@[0] as u8 == bytes@[0]);
        if bytes[0] == 45 {
            negative = true;
            start = 1;
        } else if bytes[0] == 43 {
            start = 1;
        }
    }
    assert(body == text@.skip(start as int));
    if start >= bytes.len() {
        return None;
    }
    let mut i: usize = start;
    let mut value: i64 = 0;
    while i < bytes.len()
        invariant
            start <= i <= bytes.len(),
            start < bytes.len(),
            start <= 1,
            is_ascii_chars(text@),
            bytes@ == encode_utf8(text@),
            bytes@.len() == text@.len(),
            forall|k: int| 0 <= k < text@.len() ==> #[trigger] text@[k] as u8 == bytes@[k],
            body == unsigned_part(text@),
            body == text@.skip(start as int),
            negative == (text@[0] == '-'),
            forall|k: int| 0 <= k < i - start ==> is_digit(#[trigger] body[k]),
            value == digits_value(body.take(i - start)),
            0 <= value <= 2147483648,
        decreases bytes.len() - i,
    {
        let byte = bytes[i];
        let ghost n = i - start;
        assert(body[n] == text@[i as int]);
        if byte < 48 || byte > 57 {
            assert(!is_digit(body[n]));
            return None;
        }
        assert(is_digit(body[n]));
        value = value * 10 + (byte as i64 - 48);
        proof {
            assert(body.take(n + 1).drop_last() =~= body.take(n));
            assert(value == digits_value(body.take(n + 1)));
        }
        if value > 2147483648 {
            proof {
                if all_digits(body) {
                    digits_value_grows(body, n + 1);
                }
            }
            return None;
        }
        i = i + 1;
    }
    assert(body.take(i - start) =~= body);
    assert(all_digits(body));
    if negative {
        Some((-value) as i32)
    } else if value <= 2147483647 {
        Some(value as i32)
    } else {
        None
    }
}

/// `text` is written like a number: one decimal digit or more, after a sign or
/// none.
pub open spec fn written_as_number(text: Seq<char>) -> bool {
    &&& text.len() > 0
    &&& ('0' <= text[0] <= '9') || ((text[0] == '-' || text[0] == '+') && text.len() > 1)
    &&& forall|i: int| 1 <= i < text.len() ==> '0' <= #[trigger] text[i] <= '9'
}

proof fn number_has_digits(text: Seq<char>)
    ensures
        written_as_number(text) <==> all_digits(unsigned_part(text)),
{
    let body = unsigned_part(text);
    if text.len() > 0 && (text[0] == '-' || text[0] == '+') {
        if all_digits(body) {
            assert forall|i: int| 1 <= i < text.len() implies '0' <= #[trigger] text[i] <= '9' by {
                assert(is_digit(body[i - 1]));
            }
        }
        if written_as_number(text) {
            assert forall|i: int| 0 <= i < body.len() implies is_digit(#[trigger] body[i]) by {
                assert(body[i] == text[i + 1]);
            }
        }
    } else {
        if all_digits(body) && text.len() > 0 {
            assert(is_digit(body[0]));
            assert forall|i: int| 1 <= i < text.len() implies '0' <= #[trigger] text[i] <= '9' by {
                assert(is_digit(body[i]));
            }
        }
        if written_as_number(text) {
            assert forall|i: int| 0 <= i < body.len() implies is_digit(#[trigger] body[i]) by {
                assert(body[i] == text[i]);
            }
        }
    }
}

proof fn digit_is_appended(text: Seq<char>, c: char)
    requires
        written_as_number(text),
        '0' <= c <= '9',
    ensures
        written_as_number(text.push(c)),
        digits_value(unsigned_part(text)) >= 0,
        digits_value(unsigned_part(text.push(c))) == 10 * digits_value(unsigned_part(text)) + (
        c as int - 48),
{
    number_has_digits(text);
    let body = unsigned_part(text);
    assert(unsigned_part(text.push(c)) =~= body.push(c));
    assert(body.push(c).drop_last() =~= body);
    assert forall|i: int| 1 <= i < text.push(c).len() implies '0' <= #[trigger] text.push(c)[i]
        <= '9' by {
        assert(i < text.len() ==> text.push(c)[i] == text[i]);
    }
    digits_value_grows(body, 0);
}

/// Only what is written like a number stands for an integer.
pub proof fn only_numbers_are_read(text: Seq<char>)
    ensures
        i32_value(text) is Some ==> written_as_number(text),
{
    number_has_digits(text);
}

/// A digit alone stands for itself, with a minus before it for its negative,
/// and a plus changes nothing.
pub proof fn digits_stand_for_themselves(c: char)
    requires
        '0' <= c <= '9',
    ensures
        i32_value(seq![c]) == Some((c as int - 48) as i32),
        i32_value(seq!['+', c]) == Some((c as int - 48) as i32),
        i32_value(seq!['-', c]) == Some((48 - c as int) as i32),
{
    assert(unsigned_part(seq![c]) =~= seq![c]);
    assert(unsigned_part(seq!['+', c]) =~= seq![c]);
    assert(unsigned_part(seq!['-', c]) =~= seq![c]);
    assert(seq![c].drop_last() =~= Seq::<char>::empty());
    assert(digits_value(seq![c].drop_last()) == 0);
    assert(digits_value(seq![c]) == c as int - 48);
}

/// One more digit makes ten times the number, and the digit, away from zero;
/// what leaves the range of 32 bits stands for no integer.
pub proof fn digits_count_tenfold(text: Seq<char>, c: char)
    requires
        i32_value(text) is Some,
        '0' <= c <= '9',
    ensures
        ({
            let shorter = i32_value(text)->0 as int;
            let longer = if text[0] == '-' {
                10 * shorter - (c as int - 48)
            } else {
                10 * shorter + (c as int - 48)
            };
            i32_value(text.push(c)) == (if -2147483648 <= longer <= 2147483647 {
                Some(longer as i32)
            } else {
                None
            })
        }),
{
    only_numbers_are_read(text);
    digit_is_appended(text, c);
    number_has_digits(text.push(c));
    assert(text.push(c)[0] == text[0]);
}

/// A number out of the range of 32 bits stays out of it with one more digit.
pub proof fn overflow_is_not_undone(text: Seq<char>, c: char)
    requires
        written_as_number(text),
        i32_value(text) is None,
        '0' <= c <= '9',
    ensures
        i32_value(text.push(c)) is None,
{
    digit_is_appended(text, c);
    number_has_digits(text);
    number_has_digits(text.push(c));
    assert(text.push(c)[0] == text[0]);
}

} // verus!
