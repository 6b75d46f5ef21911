//! Numbers in headers and messages, and what is read off a response.

use vstd::prelude::*;

use crate::response::{head_of, HeadModel, ResponseHead};
use crate::text::{
    all_digits, ascii_chars, decimal, digits_value, is_digit, last_segment, lemma_decimal,
    lemma_last_segment, number, unsigned_part,
};
use crate::trusted::{
    content_length_of, header_of, is_header_text, is_visible_ascii, retry_count_of, status_of,
};

verus! {

/// A number below ten is written as its digit; another is written as the number of its tens followed
/// by the digit of its ones.
pub proof fn law_decimal_appends_digits(tens: nat, ones: nat)
    requires
        ones < 10,
    ensures
        decimal(ones).len() == 1,
        decimal(ones)[0] as int == 48 + ones,
        tens > 0 ==> decimal(10 * tens + ones) == decimal(tens) + decimal(ones),
{
    if tens > 0 {
        let n = 10 * tens + ones;
        assert(n / 10 == tens && n % 10 == ones);
        assert(decimal(n) =~= decimal(tens) + decimal(ones));
    }
}

/// Different numbers are written differently.
pub proof fn law_decimal_is_unambiguous(a: nat, b: nat)
    requires
        decimal(a) == decimal(b),
    ensures
        a == b,
{
    lemma_decimal(a);
    lemma_decimal(b);
}

/// One more digit makes ten times the number and the digit.
pub proof fn law_digit_adds_to_tenfold(digits: Seq<char>, digit: char)
    requires
        '0' <= digit <= '9',
    ensures
        digits_value(Seq::empty()) == 0,
        digits_value(digits.push(digit)) == 10 * digits_value(digits) + (digit as int - 48),
{
    assert(digits.push(digit).drop_last() =~= digits);
}

/// A run of digits reads as its value, with a plus sign in front or not, if that fits in 64 bits.
pub proof fn law_digits_read_as_number(digits: Seq<char>)
    requires
        digits.len() > 0,
        forall|i: int| 0 <= i < digits.len() ==> '0' <= #[trigger] digits[i] <= '9',
    ensures
        digits_value(digits) <= 0xffff_ffff_ffff_ffff ==> number(digits) == Some(
            digits_value(digits) as u64,
        ),
        digits_value(digits) > 0xffff_ffff_ffff_ffff ==> number(digits) is None,
        number(seq!['+'] + digits) == number(digits),
{
    assert forall|i: int| 0 <= i < digits.len() implies is_digit(#[trigger] digits[i]) by {}
    assert('0' <= digits[0]);
    assert((seq!['+'] + digits).skip(1) =~= digits);
}

/// Nothing reads as a number that has no digit, or anything but digits behind an optional plus sign.
pub proof fn law_other_text_is_no_number(text: Seq<char>)
    ensures
        text.len() == 0 ==> number(text) is None,
        text == seq!['+'] ==> number(text) is None,
        forall|i: int|
            0 <= i < text.len() && !('0' <= #[trigger] text[i] <= '9') && !(i == 0 && text[i] == '+')
                ==> number(text) is None,
{
    let digits = unsigned_part(text);
    if exists|i: int|
        0 <= i < text.len() && !('0' <= #[trigger] text[i] <= '9') && !(i == 0 && text[i] == '+') {
        let i = choose|i: int|
            0 <= i < text.len() && !('0' <= #[trigger] text[i] <= '9') && !(i == 0 && text[i] == '+');
        let k = if text[0] == '+' {
            i - 1
        } else {
            i
        };
        assert(digits[k] == text[i]);
        assert(!is_digit(digits[k]));
        assert(!all_digits(digits));
    }
}

/// What stands behind a slash is the last segment if no further slash does.
pub proof fn law_last_segment_follows_last_slash(front: Seq<char>, tail: Seq<char>)
    requires
        forall|i: int| 0 <= i < tail.len() ==> #[trigger] tail[i] != '/',
    ensures
        last_segment(tail) == tail,
        last_segment(front + seq!['/'] + tail) == tail,
{
    lemma_last_segment(tail, 0);
    assert(tail.skip(0) =~= tail);
    let text = front + seq!['/'] + tail;
    let start = front.len() + 1;
    assert forall|i: int| start <= i < text.len() implies text[i] != '/' by {
        assert(text[i] == tail[i - start]);
    }
    lemma_last_segment(text, start as int);
    assert(text.skip(start as int) =~= tail);
}

/// Bytes and characters of a header correspond one to one.
pub proof fn law_header_text_keeps_bytes(bytes: Seq<u8>)
    ensures
        ascii_chars(bytes).len() == bytes.len(),
        forall|i: int|
            0 <= i < bytes.len() ==> #[trigger] ascii_chars(bytes)[i] as int == bytes[i] as int,
{
}

/// The total size is the number behind the last slash of a `Content-Range` header that is visible
/// ASCII.
pub proof fn law_total_size_is_behind_last_slash(head: HeadModel, front: Seq<u8>, tail: Seq<u8>)
    requires
        forall|i: int| 0 <= i < front.len() ==> 32 <= #[trigger] front[i] < 127,
        forall|i: int| 0 <= i < tail.len() ==> 32 <= #[trigger] tail[i] < 127 && tail[i] != 47,
    ensures
        head.content_range == Some(front + seq![47u8] + tail) ==> head.total_size() == number(
            ascii_chars(tail),
        ),
        head.content_range == Some(tail) ==> head.total_size() == number(ascii_chars(tail)),
{
    let value = front + seq![47u8] + tail;
    assert forall|i: int| 0 <= i < value.len() implies is_visible_ascii(#[trigger] value[i]) by {
        if i < front.len() {
            assert(value[i] == front[i]);
        } else if i > front.len() {
            assert(value[i] == tail[i - front.len() - 1]);
        }
    }
    assert forall|i: int| 0 <= i < tail.len() implies is_visible_ascii(#[trigger] tail[i]) by {}
    assert(ascii_chars(value) =~= ascii_chars(front) + seq!['/'] + ascii_chars(tail));
    assert forall|i: int| 0 <= i < tail.len() implies #[trigger] ascii_chars(tail)[i] != '/' by {
        assert(tail[i] != 47);
    }
    law_last_segment_follows_last_slash(ascii_chars(front), ascii_chars(tail));
}

/// A total size that a server writes in decimal is the one that is read.
pub proof fn law_total_size_reads_what_is_written(
    head: HeadModel,
    front: Seq<u8>,
    tail: Seq<u8>,
    n: u64,
)
    requires
        forall|i: int| 0 <= i < front.len() ==> 32 <= #[trigger] front[i] < 127,
        ascii_chars(tail) == decimal(n as nat),
        head.content_range == Some(front + seq![47u8] + tail),
    ensures
        head.total_size() == Some(n),
{
    lemma_decimal(n as nat);
    assert forall|i: int| 0 <= i < tail.len() implies 32 <= #[trigger] tail[i] < 127 && tail[i]
        != 47 by {
        assert(is_digit(decimal(n as nat)[i]));
        assert(ascii_chars(tail)[i] as int == tail[i] as int);
    }
    law_total_size_is_behind_last_slash(head, front, tail);
}

/// Without a `Content-Range` header, or with one that is no text, there is no total size.
pub proof fn law_no_total_size_without_text(head: HeadModel)
    ensures
        head.content_range is None ==> head.total_size() is None,
        head.content_range matches Some(value) ==> forall|i: int|
            0 <= i < value.len() && !(32 <= #[trigger] value[i] < 127) && value[i] != 9
                ==> head.total_size() is None,
{
    if let Some(value) = head.content_range {
        assert forall|i: int|
            0 <= i < value.len() && !(32 <= #[trigger] value[i] < 127) && value[i]
                != 9 implies head.total_size() is None by {
            assert(!is_visible_ascii(value[i]));
            assert(!is_header_text(value));
        }
    }
}

/// A server advertises ranges exactly if its `Accept-Ranges` header consists of the five letters of
/// `bytes`, in lower case and with nothing around them.
pub proof fn law_ranges_are_advertised_in_so_many_letters(head: HeadModel)
    ensures
        head.advertises_ranges() <==> head.accept_ranges == Some(seq![98u8, 121, 116, 101, 115]),
{
    reveal_strlit("bytes");
    let letters = seq![98u8, 121, 116, 101, 115];
    if head.accept_ranges == Some(letters) {
        assert forall|i: int| 0 <= i < letters.len() implies is_visible_ascii(
            #[trigger] letters[i],
        ) by {}
        assert(ascii_chars(letters) =~= "bytes"@);
    }
    if head.advertises_ranges() {
        let value = head.accept_ranges->0;
        assert(ascii_chars(value).len() == value.len());
        assert forall|i: int| 0 <= i < 5 implies #[trigger] value[i] == letters[i] by {
            assert(ascii_chars(value)[i] == "bytes"@[i]);
        }
        assert(value =~= letters);
    }
}

/// The retries of the middleware are those that the response records, and none where it records none.
pub proof fn law_recorded_retries_are_counted(head: HeadModel)
    ensures
        match head.retry_count {
            Some(count) => head.middleware_retries() == count,
            None => head.middleware_retries() == 0,
        },
{
}

/// What is read of a response is what its accessors give.
pub proof fn law_head_is_what_the_response_says(response: reqwest::Response)
    ensures
        head_of(response).status == status_of(response),
        head_of(response).accept_ranges == header_of(response, "accept-ranges"@),
        head_of(response).content_range == header_of(response, "content-range"@),
        head_of(response).content_length == content_length_of(response),
        head_of(response).retry_count == retry_count_of(response),
{
}

/// The model of a head has all that the head has.
pub proof fn law_head_is_kept_whole(head: ResponseHead)
    ensures
        head@.status == head.status,
        head@.content_length == head.content_length,
        head@.retry_count == head.retry_count,
        match head.accept_ranges {
            Some(bytes) => head@.accept_ranges == Some(bytes@),
            None => head@.accept_ranges is None,
        },
        match head.content_range {
            Some(bytes) => head@.content_range == Some(bytes@),
            None => head@.content_range is None,
        },
        head.well_formed() <==> 100 <= head.status <= 999,
{
}

} // verus!
