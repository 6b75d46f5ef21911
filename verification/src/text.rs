//! Decimal numbers as text, and the part of a header that follows its last slash.

use vstd::prelude::*;
use vstd::string::*;

verus! {

/// The character that writes the digit `d`.
pub open spec fn digit_char(d: nat) -> char {
    (d + 48) as char
}

pub open spec fn is_digit(c: char) -> bool {
    '0' <= c <= '9'
}

/// The number that the digit `c` writes.
pub open spec fn digit_value(c: char) -> nat {
    (c as nat - 48) as nat
}

/// `n` in decimal, without leading zeros.
pub open spec fn decimal(n: nat) -> Seq<char>
    decreases n,
{
    if n < 10 {
        seq![digit_char(n)]
    } else {
        decimal(n / 10).push(digit_char(n % 10))
    }
}

/// The number that a run of digits writes; leading zeros do not count.
pub open spec fn digits_value(digits: Seq<char>) -> nat
    decreases digits.len(),
{
    if digits.len() == 0 {
        0
    } else {
        digits_value(digits.drop_last()) * 10 + digit_value(digits.last())
    }
}

/// `text` without the plus sign that may stand in front of a number.
pub open spec fn unsigned_part(text: Seq<char>) -> Seq<char> {
    if text.len() > 0 && text[0] == '+' {
        text.skip(1)
    } else {
        text
    }
}

pub open spec fn all_digits(text: Seq<char>) -> bool {
    forall|i: int| 0 <= i < text.len() ==> is_digit(#[trigger] text[i])
}

/// The number that `text` writes: an optional plus sign, then at least one digit and nothing else.
/// `None` where it writes no number, or one that does not fit in 64 bits.
pub open spec fn number(text: Seq<char>) -> Option<u64> {
    let digits = unsigned_part(text);
    if digits.len() > 0 && all_digits(digits) && digits_value(digits) <= u64::MAX {
        Some(digits_value(digits) as u64)
    } else {
        None
    }
}

/// What follows the last slash of `text`; all of it where there is none.
pub open spec fn last_segment(text: Seq<char>) -> Seq<char>
    decreases text.len(),
{
    if text.len() == 0 || text.last() == '/' {
        Seq::empty()
    } else {
        last_segment(text.drop_last()).push(text.last())
    }
}

/// The characters that `bytes` hold, one each.
pub open spec fn ascii_chars(bytes: Seq<u8>) -> Seq<char> {
    Seq::new(bytes.len(), |i: int| bytes[i] as char)
}

/// A value that is too large stays too large when more digits follow.
proof fn lemma_prefix_value(digits: Seq<char>, n: int)
    requires
        0 <= n <= digits.len(),
    ensures
        digits_value(digits.take(n)) <= digits_value(digits),
    decreases digits.len(),
{
    if n == digits.len() {
        assert(digits.take(n) =~= digits);
    } else {
        lemma_prefix_value(digits.drop_last(), n);
        assert(digits.drop_last().take(n) =~= digits.take(n));
    }
}

/// The last segment is a suffix in which no slash stands; the character in front of it, if any,
/// is one.
pub(crate) proof fn lemma_last_segment(text: Seq<char>, start: int)
    requires
        0 <= start <= text.len(),
        forall|i: int| start <= i < text.len() ==> text[i] != '/',
        start > 0 ==> text[start - 1] == '/',
    ensures
        last_segment(text) == text.skip(start),
    decreases text.len(),
{
    if start == text.len() {
        assert(text.skip(start) =~= Seq::empty());
    } else {
        lemma_last_segment(text.drop_last(), start);
        assert(text.skip(start) =~= text.drop_last().skip(start).push(text.last()));
    }
}

/// Writing a number and reading it back gives the number.
pub proof fn law_number_reads_decimal(n: u64)
    ensures
        number(decimal(n as nat)) == Some(n),
{
    lemma_decimal(n as nat);
}

/// `decimal` writes digits only, at least one, and they have the value that was written.
pub(crate) proof fn lemma_decimal(n: nat)
    ensures
        decimal(n).len() > 0,
        all_digits(decimal(n)),
        digits_value(decimal(n)) == n,
        unsigned_part(decimal(n)) == decimal(n),
    decreases n,
{
    reveal_with_fuel(digits_value, 2);
    if n < 10 {
        assert(decimal(n).drop_last() =~= Seq::empty());
    } else {
        lemma_decimal(n / 10);
        assert(decimal(n).drop_last() =~= decimal(n / 10));
        assert(decimal(n)[0] == decimal(n / 10)[0]);
    }
    assert(is_digit(decimal(n)[0]));
}

/// Each character of an ASCII text takes one byte, which holds its number.
proof fn lemma_ascii_bytes(text: &str)
    requires
        text.is_ascii(),
    ensures
        text.spec_bytes().len() == text@.len(),
        forall|k: int|
            0 <= k < text@.len() ==> #[trigger] text.spec_bytes()[k] as int == text@[k] as int,
{
    is_ascii_spec_bytes(text);
    assert forall|k: int| 0 <= k < text@.len() implies #[trigger] text.spec_bytes()[k] as int
        == text@[k] as int by {
        assert('\0' <= text@[k] <= '\u{7f}');
    }
}

/// The text of a single digit.
fn digit_text(d: u64) -> (text: &'static str)
    requires
        d < 10,
    ensures
        text@ == seq![digit_char(d as nat)],
{
    proof {
        reveal_strlit("0");
        reveal_strlit("1");
        reveal_strlit("2");
        reveal_strlit("3");
        reveal_strlit("4");
        reveal_strlit("5");
        reveal_strlit("6");
        reveal_strlit("7");
        reveal_strlit("8");
        reveal_strlit("9");
    }
    match d {
        0 => "0",
        1 => "1",
        2 => "2",
        3 => "3",
        4 => "4",
        5 => "5",
        6 => "6",
        7 => "7",
        8 => "8",
        _ => "9",
    }
}

/// `n` in decimal.
pub(crate) fn write_decimal(n: u64) -> (text: String)
    ensures
        text@ == decimal(n as nat),
    decreases n,
{
    if n < 10 {
        digit_text(n).to_owned()
    } else {
        write_decimal(n / 10).concat(digit_text(n % 10))
    }
}

/// Reads a number: an optional plus sign, then at least one digit and nothing else.
pub(crate) fn read_number(text: &str) -> (value: Option<u64>)
    requires
        text.is_ascii(),
    ensures
        value == number(text@),
{
    let bytes: &[u8] = text.as_bytes();
    proof {
        lemma_ascii_bytes(text);
    }
    let mut i: usize = 0;
    if bytes.len() > 0 && bytes[0] == 43u8 {
        i = 1;
    }
    let ghost start = i as int;
    let ghost digits = unsigned_part(text@);
    assert(digits == text@.skip(start));
    if i == bytes.len() {
        return None;
    }
    let mut value: u64 = 0;
    while i < bytes.len()
        invariant
            bytes@.len() == text@.len(),
            forall|k: int| 0 <= k < text@.len() ==> #[trigger] bytes@[k] as int == text@[k] as int,
            0 <= start <= i <= bytes@.len(),
            digits == text@.skip(start),
            digits == unsigned_part(text@),
            all_digits(digits.take(i - start)),
            value == digits_value(digits.take(i - start)),
        decreases bytes@.len() - i,
    {
        let b: u8 = bytes[i];
        assert(digits[i - start] == text@[i as int]);
        if b < 48 || b > 57 {
            assert(!is_digit(digits[i - start]));
            return None;
        }
        proof {
            let next = digits.take(i - start + 1);
            assert(next.drop_last() =~= digits.take(i - start));
            assert(next.last() == digits[i - start]);
            lemma_prefix_value(digits, i - start + 1);
            assert(bytes@[i as int] as int == text@[i as int] as int);
            assert forall|k: int| 0 <= k < next.len() implies is_digit(#[trigger] next[k]) by {
                if k < i - start {
                    assert(next[k] == digits.take(i - start)[k]);
                }
            }
            assert(digits_value(next) == digits_value(digits.take(i - start)) * 10 + (b - 48));
        }
        let digit: u64 = (b - 48) as u64;
        match value.checked_mul(10) {
            None => {
                return None;
            },
            Some(tens) => {
                match tens.checked_add(digit) {
                    None => {
                        return None;
                    },
                    Some(next) => {
                        value = next;
                    },
                }
            },
        }
        i = i + 1;
    }
    assert(digits.take(i - start) =~= digits);
    Some(value)
}

/// What follows the last slash of `text`; all of it where there is none.
pub(crate) fn after_last_slash(text: &str) -> (segment: &str)
    requires
        text.is_ascii(),
    ensures
        segment@ == last_segment(text@),
        segment.is_ascii(),
{
    let bytes: &[u8] = text.as_bytes();
    proof {
        lemma_ascii_bytes(text);
    }
    let mut start: usize = bytes.len();
    while start > 0 && bytes[start - 1] != 47u8
        invariant
            bytes@.len() == text@.len(),
            forall|k: int| 0 <= k < text@.len() ==> #[trigger] bytes@[k] as int == text@[k] as int,
            start <= bytes@.len(),
            forall|k: int| start <= k < text@.len() ==> #[trigger] text@[k] != '/',
        decreases start,
    {
        assert(bytes@[start - 1] as int == text@[start - 1] as int);
        start = start - 1;
    }
    proof {
        if start > 0 {
            assert(bytes@[start - 1] as int == text@[start - 1] as int);
        }
        lemma_last_segment(text@, start as int);
    }
    let end: usize = bytes.len();
    text.substring_ascii(start, end)
}

} // verus!
