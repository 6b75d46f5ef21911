//! What the download reads of a response before its body.

use vstd::prelude::*;
use vstd::utf8::*;

use crate::text::{after_last_slash, ascii_chars, last_segment, number, read_number};
use crate::trusted::{
    content_length_of, header_of, header_to_str, is_header_text, is_visible_ascii,
    response_content_length, response_header, response_retry_count, response_status,
    retry_count_of, status_of,
};

verus! {

/// The head of a response.
#[derive(Debug)]
pub struct ResponseHead {
    pub status: u16,
    /// The value of the first `Accept-Ranges` header.
    pub accept_ranges: Option<Vec<u8>>,
    /// The value of the first `Content-Range` header.
    pub content_range: Option<Vec<u8>>,
    /// The size of the body, if it is known.
    pub content_length: Option<u64>,
    /// The number of retries that the middleware needed for the response, if it recorded one.
    pub retry_count: Option<u32>,
}

/// The bytes of a header that may be missing.
pub open spec fn header_view(value: Option<Vec<u8>>) -> Option<Seq<u8>> {
    match value {
        Some(bytes) => Some(bytes@),
        None => None,
    }
}

/// The state of a [`ResponseHead`].
pub struct HeadModel {
    pub status: u16,
    pub accept_ranges: Option<Seq<u8>>,
    pub content_range: Option<Seq<u8>>,
    pub content_length: Option<u64>,
    pub retry_count: Option<u32>,
}

impl View for ResponseHead {
    type V = HeadModel;

    open spec fn view(&self) -> HeadModel {
        HeadModel {
            status: self.status,
            accept_ranges: header_view(self.accept_ranges),
            content_range: header_view(self.content_range),
            content_length: self.content_length,
            retry_count: self.retry_count,
        }
    }
}

/// Status codes have three digits.
pub open spec fn is_status(status: u16) -> bool {
    100 <= status <= 999
}

/// The head of a response of `reqwest`.
pub open spec fn head_of(response: reqwest::Response) -> HeadModel {
    HeadModel {
        status: status_of(response),
        accept_ranges: header_of(response, "accept-ranges"@),
        content_range: header_of(response, "content-range"@),
        content_length: content_length_of(response),
        retry_count: retry_count_of(response),
    }
}

impl ResponseHead {
    pub open spec fn well_formed(&self) -> bool {
        is_status(self.status)
    }

    /// Reads the head off a response of `reqwest`.
    pub fn read(response: &reqwest::Response) -> (head: ResponseHead)
        ensures
            head.well_formed(),
            head@ == head_of(*response),
    {
        ResponseHead {
            status: response_status(response),
            accept_ranges: response_header(response, "accept-ranges"),
            content_range: response_header(response, "content-range"),
            content_length: response_content_length(response),
            retry_count: response_retry_count(response),
        }
    }

    /// The size of the whole content according to the `Content-Range` header: the number behind its
    /// last slash.
    pub fn total_size(&self) -> (total: Option<u64>)
        ensures
            total == self@.total_size(),
    {
        let text: Option<String> = match &self.content_range {
            Some(value) => header_to_str(value.as_slice()),
            None => None,
        };
        match text {
            Some(text) => {
                proof {
                    lemma_header_text_is_ascii(self.content_range->0@);
                }
                read_number(after_last_slash(text.as_str()))
            },
            None => None,
        }
    }

    /// The number of retries that the middleware needed for the response.
    pub fn middleware_retries(&self) -> (retries: u32)
        ensures
            retries == self@.middleware_retries(),
    {
        match self.retry_count {
            Some(count) => count,
            None => 0,
        }
    }
}

/// The text of a header value is ASCII.
proof fn lemma_header_text_is_ascii(value: Seq<u8>)
    requires
        is_header_text(value),
    ensures
        is_ascii_chars(ascii_chars(value)),
{
    assert forall|i: int| 0 <= i < value.len() implies '\0' <= #[trigger] ascii_chars(value)[i]
        <= '\u{7f}' by {
        assert(is_visible_ascii(value[i]));
    }
}

impl HeadModel {
    /// Whether the server advertised that it serves ranges of bytes: the header says so in so many
    /// letters.
    pub open spec fn advertises_ranges(self) -> bool {
        &&& self.accept_ranges matches Some(value)
        &&& is_header_text(value)
        &&& ascii_chars(value) == "bytes"@
    }

    /// The size of the whole content according to the `Content-Range` header: the number behind its
    /// last slash. `None` where the header is missing, is no text or has no number there.
    pub open spec fn total_size(self) -> Option<u64> {
        match self.content_range {
            Some(value) => if is_header_text(value) {
                number(last_segment(ascii_chars(value)))
            } else {
                None
            },
            None => None,
        }
    }

    /// The number of retries that the middleware needed for the response.
    pub open spec fn middleware_retries(self) -> u32 {
        match self.retry_count {
            Some(count) => count,
            None => 0,
        }
    }
}

} // verus!
