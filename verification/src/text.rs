//! Decimal text of small numbers, in both directions.

use vstd::prelude::*;
use vstd::string::*;
use vstd::utf8::{is_ascii_chars, is_ascii_chars_encode_utf8};

verus! {

/// The ASCII code of `'+'`.
const PLUS: u8 = 43;

/// The ASCII code of `'0'`.
const ZERO: u8 = 48;

/// The ASCII code of `'9'`.
const NINE: u8 = 57;

/// The character that writes the digit `d`.
pub open spec fn digit_char(d: nat) -> char
    recommends
        d < 10,
{
    if d == 0 {
        '0'
    } else if d == 1 {
        '1'
    } else if d == 2 {
        '2'
    } else if d == 3 {
        '3'
    } else if d == 4 {
        '4'
    } else if d == 5 {
        '5'
    } else if d == 6 {
        '6'
    } else if d == 7 {
        '7'
    } else if d == 8 {
        '8'
    } else {
        '9'
    }
}

/// The decimal text of `n`: no sign, no leading zero, `"0"` for zero.
pub open spec fn decimal(n: nat) -> Seq<char>
    decreases n,
{
    if n < 10 {
        seq![digit_char(n)]
    } else {
        decimal(n / 10).push(digit_char(n % 10))
    }
}

/// Whether `c` is one of `'0'..='9'`.
pub open spec fn is_digit(c: char) -> bool {
    '0' <= c && c <= '9'
}

/// The number that the digit `c` writes.
pub open spec fn digit_value(c: char) -> nat
    recommends
        is_digit(c),
{
    (c as u32 - '0' as u32) as nat
}

/// Whether `s` holds digits and nothing else.
pub open spec fn all_digits(s: Seq<char>) -> bool {
    forall|i: int| 0 <= i < s.len() ==> is_digit(#[trigger] s[i])
}

/// The number that a run of digits writes, most significant digit first.
pub open spec fn digits_value(s: Seq<char>) -> nat
    decreases s.len(),
{
    if s.len() == 0 {
        0
    } else {
        digits_value(s.drop_last()) * 10 + digit_value(s.last())
    }
}

/// What is left of `s` once one leading `'+'` is taken away.
pub open spec fn unsigned_part(s: Seq<char>) -> Seq<char> {
    if s.len() > 0 && s[0] == '+' {
        s.subrange(1, s.len() as int)
    } else {
        s
    }
}

/// The 16-bit number written by `s`: an optional `'+'`, then one or more
/// digits whose value fits; anything else writes no number.
pub open spec fn parsed_u16(s: Seq<char>) -> Option<u16> {
    let body = unsigned_part(s);
    if body.len() > 0 && all_digits(body) && digits_value(body) <= u16::MAX {
        Some(digits_value(body) as u16)
    } else {
        None
    }
}

/// A longer run of digits never writes a smaller number than its prefix.
proof fn lemma_digits_value_grows(s: Seq<char>, n: int)
    requires
        0 <= n <= s.len(),
    ensures
        digits_value(s.take(n)) <= digits_value(s),
    decreases s.len(),
{
    if n == s.len() {
        assert(s.take(n) =~= s);
    } else {
        lemma_digits_value_grows(s.drop_last(), n);
        assert(s.drop_last().take(n) =~= s.take(n));
    }
}

/// The decimal text of a number is not empty, holds digits only, and
/// writes that number.
pub proof fn lemma_decimal_is_digits(n: nat)
    ensures
        decimal(n).len() > 0,
        all_digits(decimal(n)),
        digits_value(decimal(n)) == n,
    decreases n,
{
    let text = decimal(n);
    if n < 10 {
        assert(text.drop_last() =~= Seq::<char>::empty());
        assert(digits_value(text.drop_last()) == 0);
    } else {
        let front = decimal(n / 10);
        lemma_decimal_is_digits(n / 10);
        assert(text.drop_last() =~= front);
        assert forall|i: int| 0 <= i < text.len() implies is_digit(#[trigger] text[i]) by {
            if i < front.len() {
                assert(text[i] == front[i]);
            }
        }
    }
}

/// What is written in decimal reads back as the same number.
pub proof fn lemma_decimal_reads_back(n: u16)
    ensures
        parsed_u16(decimal(n as nat)) == Some(n),
{
    lemma_decimal_is_digits(n as nat);
    assert(is_digit(decimal(n as nat)[0]));
}

/// The one-character text of a digit.
fn digit_text(d: u16) -> (text: &'static str)
    requires
        d < 10,
    ensures
        text@ == seq![digit_char(d as nat)],
{
    proof {
        reveal_strlit("0");
        reveal_strlit("1");
        reveal_strlit("2");
        reveal_strlit("3");
        reveal_strlit("4");
        reveal_strlit("5");
        reveal_strlit("6");
        reveal_strlit("7");
        reveal_strlit("8");
        reveal_strlit("9");
    }
    let text = if d == 0 {
        "0"
    } else if d == 1 {
        "1"
    } else if d == 2 {
        "2"
    } else if d == 3 {
        "3"
    } else if d == 4 {
        "4"
    } else if d == 5 {
        "5"
    } else if d == 6 {
        "6"
    } else if d == 7 {
        "7"
    } else if d == 8 {
        "8"
    } else {
        "9"
    };
    assert(text@ =~= seq![digit_char(d as nat)]);
    text
}

/// Writes `n` in decimal.
pub fn u16_to_decimal(n: u16) -> (text: String)
    ensures
        text@ == decimal(n as nat),
    decreases n,
{
    if n < 10 {
        String::from_str(digit_text(n))
    } else {
        let mut text = u16_to_decimal(n / 10);
        text.append(digit_text(n % 10));
        assert(text@ =~= decimal(n as nat));
        text
    }
}

/// A text with a character outside ASCII writes no number.
proof fn lemma_not_ascii_is_no_number(s: Seq<char>)
    requires
        !is_ascii_chars(s),
    ensures
        parsed_u16(s) is None,
{
    let i = choose|i: int| 0 <= i < s.len() && !('\0' <= #[trigger] s[i] <= '\u{7f}');
    let body = unsigned_part(s);
    if s[0] == '+' {
        assert(body[i - 1] == s[i]);
    } else {
        assert(body[i] == s[i]);
    }
}

/// Reads a 16-bit number: an optional `'+'`, then digits only. Returns
/// `None` for an empty text, a lone sign, any other character, or a value
/// above 65535.
pub fn parse_u16(text: &str) -> (number: Option<u16>)
    ensures
        number == parsed_u16(text@),
{
    if !text.is_ascii() {
        proof {
            lemma_not_ascii_is_no_number(text@);
        }
        return None;
    }
    let bytes = text.as_bytes();
    proof {
        is_ascii_chars_encode_utf8(text@);
    }
    let len: usize = bytes.len();
    if len == 0 {
        return None;
    }
    let start: usize = if bytes[0] == PLUS {
        1
    } else {
        0
    };
    if start == len {
        return None;
    }
    let ghost body = unsigned_part(text@);
    assert(body =~= text@.subrange(start as int, len as int));
    let mut value: u32 = 0;
    let mut i: usize = start;
    while i < len
        invariant
            len == text@.len(),
            len == bytes@.len(),
            forall|k: int| 0 <= k < len ==> text@[k] as u8 == #[trigger] bytes@[k],
            is_ascii_chars(text@),
            start <= i <= len,
            body == unsigned_part(text@),
            body == text@.subrange(start as int, len as int),
            all_digits(body.take(i - start)),
            value == digits_value(body.take(i - start)),
            value <= u16::MAX,
        decreases len - i,
    {
        let b: u8 = bytes[i];
        let ghost c = text@[i as int];
        let ghost seen = body.take(i - start);
        let ghost next = body.take(i + 1 - start);
        proof {
            assert(next.drop_last() =~= seen);
            assert(c as u8 == bytes@[i as int]);
            assert(body[i - start] == c);
        }
        if !(ZERO <= b && b <= NINE) {
            assert(!is_digit(body[i - start]));
            return None;
        }
        let d: u32 = (b - ZERO) as u32;
        value = value * 10 + d;
        proof {
            assert(d == digit_value(c));
            assert forall|k: int| 0 <= k < next.len() implies is_digit(#[trigger] next[k]) by {
                if k < seen.len() {
                    assert(next[k] == seen[k]);
                }
            }
        }
        if value > 65535 {
            proof {
                lemma_digits_value_grows(body, i + 1 - start);
            }
            return None;
        }
        i = i + 1;
    }
    assert(body.take(len - start) =~= body);
    Some(value as u16)
}

} // verus!
