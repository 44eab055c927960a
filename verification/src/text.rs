//! Text of configuration values: white space, trimming, lower case.

use vstd::prelude::*;
use vstd::string::{StrSliceExecFns, StringExecFns};
use crate::komsi::decimal;

verus! {

/// Whether a character is white space in the sense of Unicode.
pub open spec fn is_white_space(c: char) -> bool {
    let code = c as u32;
    ||| 0x09 <= code <= 0x0d
    ||| code == 0x20
    ||| code == 0x85
    ||| code == 0xa0
    ||| code == 0x1680
    ||| 0x2000 <= code <= 0x200a
    ||| code == 0x2028
    ||| code == 0x2029
    ||| code == 0x202f
    ||| code == 0x205f
    ||| code == 0x3000
}

/// Whether a character is white space in the sense of Unicode.
pub fn white_space(c: char) -> (white: bool)
    ensures
        white == is_white_space(c),
{
    let code: u32 = c as u32;
    (0x09 <= code && code <= 0x0d) || code == 0x20 || code == 0x85 || code == 0xa0 || code
        == 0x1680 || (0x2000 <= code && code <= 0x200a) || code == 0x2028 || code == 0x2029 || code
        == 0x202f || code == 0x205f || code == 0x3000
}

/// The text without the white space in front of it.
pub open spec fn trim_start(text: Seq<char>) -> Seq<char>
    decreases text.len(),
{
    if text.len() > 0 && is_white_space(text[0]) {
        trim_start(text.skip(1))
    } else {
        text
    }
}

/// The text without the white space behind it.
pub open spec fn trim_end(text: Seq<char>) -> Seq<char>
    decreases text.len(),
{
    if text.len() > 0 && is_white_space(text.last()) {
        trim_end(text.drop_last())
    } else {
        text
    }
}

/// The text without the white space around it.
pub open spec fn trim(text: Seq<char>) -> Seq<char> {
    trim_end(trim_start(text))
}

/// The text without the white space around it.
pub fn trimmed(text: &str) -> (inner: &str)
    ensures
        inner@ == trim(text@),
{
    let n: usize = text.unicode_len();
    let mut start: usize = 0;
    assert(text@.skip(0) == text@);
    while start < n && white_space(text.get_char(start))
        invariant
            start <= n,
            n == text@.len(),
            trim_start(text@) == trim_start(text@.skip(start as int)),
        decreases n - start,
    {
        assert(text@.skip(start as int).skip(1) == text@.skip(start as int + 1));
        start += 1;
    }
    let mut end: usize = n;
    while end > start && white_space(text.get_char(end - 1))
        invariant
            start <= end <= n,
            n == text@.len(),
            trim(text@) == trim_end(text@.subrange(start as int, end as int)),
        decreases end,
    {
        assert(text@.subrange(start as int, end as int).drop_last() == text@.subrange(
            start as int,
            end as int - 1,
        ));
        end -= 1;
    }
    text.substring_char(start, end)
}

/// The text in lower case, as the standard library's `str::to_lowercase`
/// gives it.
pub uninterp spec fn lowercase(text: Seq<char>) -> Seq<char>;

/// Calls `str::to_lowercase`. The contract gives its result the name
/// `lowercase`: the lower case of a text depends on the text alone.
#[verifier::external_body]
pub(crate) fn to_lowercase(text: &str) -> (lower: String)
    ensures
        lower@ == lowercase(text@),
{
    text.to_lowercase()
}

/// A name as it is looked up: without the white space around it, in lower
/// case.
pub open spec fn normalize(text: Seq<char>) -> Seq<char> {
    lowercase(trim(text))
}

/// The place of the first comma at or after `from`.
pub open spec fn comma_from(text: Seq<char>, from: int) -> Option<int>
    decreases text.len() - from,
{
    if from < 0 || from >= text.len() {
        None
    } else if text[from] == ',' {
        Some(from)
    } else {
        comma_from(text, from + 1)
    }
}

/// The place of the first comma.
pub open spec fn first_comma(text: Seq<char>) -> Option<int> {
    comma_from(text, 0)
}

/// Where no comma stands between `from` and `to`, the search from `from`
/// goes on at `to`.
pub proof fn lemma_comma_from(text: Seq<char>, from: int, to: int)
    requires
        0 <= from <= to <= text.len(),
        forall|k: int| from <= k < to ==> text[k] != ',',
    ensures
        comma_from(text, from) == comma_from(text, to),
    decreases to - from,
{
    if from < to {
        lemma_comma_from(text, from + 1, to);
    }
}

/// Whether two texts are the same.
pub fn same_text(a: &str, b: &str) -> (same: bool)
    ensures
        same == (a@ == b@),
{
    String::from_str(a) == String::from_str(b)
}

/// What a character counts as a digit of a number written to the base
/// `radix`: `0` to `9`, then the letters from `a` on, small or capital.
pub open spec fn digit_of(c: char, radix: nat) -> Option<nat> {
    let code = c as nat;
    let value: int = if 48 <= code <= 57 {
        code - 48
    } else if 97 <= code <= 122 {
        code - 97 + 10
    } else if 65 <= code <= 90 {
        code - 65 + 10
    } else {
        -1
    };
    if 0 <= value < radix {
        Some(value as nat)
    } else {
        None
    }
}

/// The number that a run of digits denotes, if every character is a digit
/// and there is at least one.
pub open spec fn digits_value(text: Seq<char>, radix: nat) -> Option<nat>
    decreases text.len(),
{
    if text.len() == 0 {
        None
    } else {
        match digit_of(text.last(), radix) {
            None => None,
            Some(digit) => if text.len() == 1 {
                Some(digit)
            } else {
                match digits_value(text.drop_last(), radix) {
                    None => None,
                    Some(before) => Some(before * radix + digit),
                }
            },
        }
    }
}

/// The number that a text denotes, as the standard library reads numbers
/// without a sign of their own: digits only, with or without a `+` in
/// front, and no more than `max`.
pub open spec fn parse_unsigned(text: Seq<char>, radix: nat, max: nat) -> Option<nat> {
    let digits = if text.len() > 0 && text[0] == '+' {
        text.skip(1)
    } else {
        text
    };
    match digits_value(digits, radix) {
        Some(value) => if value <= max {
            Some(value)
        } else {
            None
        },
        None => None,
    }
}

fn digit(c: char, radix: u32) -> (value: Option<u32>)
    requires
        2 <= radix <= 36,
    ensures
        value matches Some(d) ==> digit_of(c, radix as nat) == Some(d as nat) && d < radix,
        value is None ==> digit_of(c, radix as nat) is None,
{
    let code: u32 = c as u32;
    let value: u32 = if 48 <= code && code <= 57 {
        code - 48
    } else if 97 <= code && code <= 122 {
        code - 97 + 10
    } else if 65 <= code && code <= 90 {
        code - 65 + 10
    } else {
        return None;
    };
    if value < radix {
        Some(value)
    } else {
        None
    }
}

proof fn lemma_digits_grow(text: Seq<char>, radix: nat, n: int)
    requires
        1 <= n <= text.len(),
        radix >= 2,
        digits_value(text, radix) is Some,
    ensures
        digits_value(text.take(n), radix) is Some,
        digits_value(text.take(n), radix)->0 <= digits_value(text, radix)->0,
    decreases text.len() - n,
{
    if n == text.len() {
        assert(text.take(n) == text);
    } else {
        assert(text.drop_last().take(n) == text.take(n));
        lemma_digits_grow(text.drop_last(), radix, n);
        let before = digits_value(text.drop_last(), radix)->0;
        assert(before * radix >= before) by (nonlinear_arith)
            requires
                radix >= 2,
                before >= 0,
        ;
    }
}

/// Reads a number without a sign of its own, written to the base `radix`,
/// that is no more than `max`.
pub fn read_unsigned(text: &str, radix: u32, max: u64) -> (number: Option<u64>)
    requires
        2 <= radix <= 36,
    ensures
        number matches Some(n) ==> parse_unsigned(text@, radix as nat, max as nat) == Some(
            n as nat,
        ),
        number is None ==> parse_unsigned(text@, radix as nat, max as nat) is None,
{
    let n: usize = text.unicode_len();
    let start: usize = if n > 0 && text.get_char(0) == '+' {
        1
    } else {
        0
    };
    let ghost digits = text@.skip(start as int);
    assert(text@.skip(0) == text@);
    if start == n {
        return None;
    }
    let mut value: u64 = 0;
    let mut i: usize = start;
    while i < n
        invariant
            start <= i <= n,
            n == text@.len(),
            2 <= radix <= 36,
            digits == text@.skip(start as int),
            parse_unsigned(text@, radix as nat, max as nat) == (match digits_value(
                digits,
                radix as nat,
            ) {
                Some(whole) => if whole <= max {
                    Some(whole)
                } else {
                    None
                },
                None => None,
            }),
            value <= max,
            i > start ==> digits_value(digits.take(i - start), radix as nat) == Some(value as nat),
            i == start ==> value == 0,
        decreases n - i,
    {
        let c = text.get_char(i);
        let ghost longer = digits.take(i - start + 1);
        proof {
            assert(longer.drop_last() == digits.take(i - start));
            if digits_value(digits, radix as nat) is Some {
                lemma_digits_grow(digits, radix as nat, i - start + 1);
            }
        }
        match digit(c, radix) {
            None => {
                return None;
            },
            Some(d) => {
                let ghost grown = value * radix + d;
                if d as u64 > max || value > (max - d as u64) / radix as u64 {
                    assert(grown > max) by (nonlinear_arith)
                        requires
                            d > max || value > (max - d) / (radix as int),
                            grown == value * radix + d,
                            radix >= 2,
                            value >= 0,
                            d >= 0,
                    ;
                    return None;
                }
                assert(value * radix + d <= max) by (nonlinear_arith)
                    requires
                        d <= max,
                        value <= (max - d) / (radix as int),
                        radix >= 2,
                ;
                value = value * radix as u64 + d as u64;
            },
        }
        i += 1;
    }
    assert(digits.take(n - start) == digits);
    Some(value)
}

/// A number in decimal, as a text.
pub open spec fn decimal_text(value: nat) -> Seq<char>
    decreases value,
{
    if value < 10 {
        seq![(48 + value) as char]
    } else {
        decimal_text(value / 10).push((48 + value % 10) as char)
    }
}

/// The decimal text of a number holds the same digits as its decimal bytes.
pub proof fn lemma_decimal_text(value: nat)
    ensures
        decimal_text(value).len() == decimal(value).len(),
        forall|i: int|
            0 <= i < decimal(value).len() ==> (#[trigger] decimal_text(value)[i]) as u8 == decimal(
                value,
            )[i],
    decreases value,
{
    if value >= 10 {
        lemma_decimal_text(value / 10);
    }
}

fn digit_text(d: u64) -> (text: &'static str)
    requires
        d < 10,
    ensures
        text@ == seq![(48 + d) as char],
{
    proof {
        reveal_strlit("0");
        reveal_strlit("1");
        reveal_strlit("2");
        reveal_strlit("3");
        reveal_strlit("4");
        reveal_strlit("5");
        reveal_strlit("6");
        reveal_strlit("7");
        reveal_strlit("8");
        reveal_strlit("9");
    }
    let text = match d {
        0 => "0",
        1 => "1",
        2 => "2",
        3 => "3",
        4 => "4",
        5 => "5",
        6 => "6",
        7 => "7",
        8 => "8",
        _ => "9",
    };
    text
}

/// Appends a number in decimal to a text.
pub fn append_decimal(line: &mut String, value: u64)
    ensures
        final(line)@ == old(line)@ + decimal_text(value as nat),
    decreases value,
{
    if value >= 10 {
        append_decimal(line, value / 10);
    }
    line.append(digit_text(value % 10));
}

} // verus!
