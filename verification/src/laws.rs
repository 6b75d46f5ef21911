//! What holds of the library as a whole.
//!
//! - [`classifier`] says which errors and responses are worth another try.
//! - [`budget`] says what is granted and counted, and how long the waits are.
//! - [`reader`] says what a download does on each event.
//! - [`text`] says how numbers are written and headers are read.
//!
//! Here stand the laws that span these, among them those on the whole course of a download.

pub mod budget;
pub mod classifier;
pub mod reader;
pub mod text;

use std::time::SystemTime;

use vstd::prelude::*;

use crate::error::{
    first_source, io_kind, ErrorChain, ErrorLayer, IoErrorKind, IoErrorModel, MiddlewareError,
    ReqwestFailure, SourceError, WrappedReqwestError,
};
use crate::laws::classifier::{law_lone_reqwest_error, law_reqwest_error_counts_alike};
use crate::response::{is_status, HeadModel};
use crate::resumable_reader::{
    lost_connection, opened, range_header, reconnect_objection, ActionModel, EventModel,
    ReaderModel, StateModel,
};
use crate::retry::{
    chain_verdict, is_network_kind, is_transient_layer, is_wait, BackoffPolicy, RetryModel,
    Retryable, Span,
};
use crate::text::{decimal, digits_value, lemma_decimal};
use crate::trusted::{clock_nanos, success_verdict};

verus! {

/// A response with a status code, and the error that is made from such a response, are retried
/// alike, however that error is held.
pub proof fn law_response_and_status_error_agree(status: u16, failure: ReqwestFailure)
    requires
        is_status(status),
        failure.well_formed(),
        failure.status == Some(status),
    ensures
        success_verdict(status) == Some(Retryable::Transient) <==> chain_verdict(
            seq![ErrorLayer::Reqwest(failure)],
        ) == Some(Retryable::Transient),
        success_verdict(status) == Some(Retryable::Transient) <==> chain_verdict(
            seq![ErrorLayer::WrappedReqwest(WrappedReqwestError { inner: Some(failure) })],
        ) == Some(Retryable::Transient),
        success_verdict(status) == Some(Retryable::Transient) <==> chain_verdict(
            seq![ErrorLayer::Middleware(MiddlewareError::Reqwest(failure))],
        ) == Some(Retryable::Transient),
{
    law_lone_reqwest_error(failure);
    law_reqwest_error_counts_alike(failure);
}

/// The reader reconnects after an error of the body exactly if the classifier would retry that error
/// with all its sources.
pub proof fn law_stream_errors_are_classified_alike(
    reader: ReaderModel,
    err: IoErrorModel,
    chain: ErrorChain,
)
    requires
        chain@ == err.layers(),
    ensures
        reader.wants_retry(EventModel::ReadFailed(err)) <==> chain_verdict(chain@) == Some(
            Retryable::Transient,
        ),
{
}

/// The classifier judges a bare I/O error by its kind.
proof fn lemma_bare_io_error(kind: IoErrorKind)
    ensures
        is_network_kind(kind) <==> chain_verdict(seq![ErrorLayer::Io(kind)]) == Some(
            Retryable::Transient,
        ),
{
    assert(is_transient_layer(seq![ErrorLayer::Io(kind)][0]) == is_network_kind(kind));
}

/// The error that stands for a lost connection is always worth another try, so that only the number
/// of retries decides.
pub proof fn law_lost_connection_is_transient()
    ensures
        chain_verdict(lost_connection()) == Some(Retryable::Transient),
{
    assert(is_transient_layer(lost_connection()[0]));
}

/// The classifier finds errors transient or has nothing to say; it calls none fatal.
pub proof fn law_no_chain_is_fatal(layers: Seq<ErrorLayer>)
    ensures
        chain_verdict(layers) != Some(Retryable::Fatal),
{
}

/// Two chains joined are transient exactly if one of them is: neither the errors that wrap a chain
/// nor the sources behind it can hide a transient one.
pub proof fn law_joined_chains(outer: Seq<ErrorLayer>, inner: Seq<ErrorLayer>)
    ensures
        chain_verdict(outer + inner) == Some(Retryable::Transient) <==> {
            ||| chain_verdict(outer) == Some(Retryable::Transient)
            ||| chain_verdict(inner) == Some(Retryable::Transient)
        },
{
    let joined = outer + inner;
    if chain_verdict(outer) is Some {
        let i = choose|i: int| 0 <= i < outer.len() && is_transient_layer(#[trigger] outer[i]);
        assert(is_transient_layer(joined[i]));
    }
    if chain_verdict(inner) is Some {
        let i = choose|i: int| 0 <= i < inner.len() && is_transient_layer(#[trigger] inner[i]);
        assert(is_transient_layer(joined[outer.len() + i]));
    }
    if chain_verdict(joined) is Some {
        let i = choose|i: int| 0 <= i < joined.len() && is_transient_layer(#[trigger] joined[i]);
        if i < outer.len() {
            assert(is_transient_layer(outer[i]));
        } else {
            assert(is_transient_layer(inner[i - outer.len()]));
        }
    }
}

/// A source that is found is one of the sources.
proof fn lemma_first_source_is_a_source<E: SourceError>(sources: Seq<ErrorLayer>)
    ensures
        first_source::<E>(sources) matches Some(err) ==> exists|i: int|
            0 <= i < sources.len() && E::downcast(#[trigger] sources[i]) == Some(err),
    decreases sources.len(),
{
    if sources.len() > 0 {
        match E::downcast(sources[0]) {
            Some(_) => {},
            None => {
                lemma_first_source_is_a_source::<E>(sources.drop_first());
                if let Some(err) = first_source::<E>(sources) {
                    let i = choose|i: int|
                        0 <= i < sources.drop_first().len() && E::downcast(
                            #[trigger] sources.drop_first()[i],
                        ) == Some(err);
                    assert(sources[i + 1] == sources.drop_first()[i]);
                }
            },
        }
    }
}

/// If the kind that stands for a chain is one of a lost connection, the chain is transient.
proof fn lemma_nested_kind(err: ErrorChain)
    ensures
        chain_verdict(seq![ErrorLayer::Io(io_kind(err.sources@))]) == Some(Retryable::Transient)
            ==> chain_verdict(err@) == Some(Retryable::Transient),
{
    let kind = io_kind(err.sources@);
    lemma_bare_io_error(kind);
    if is_network_kind(kind) {
        lemma_first_source_is_a_source::<IoErrorKind>(err.sources@);
        let i = choose|i: int|
            0 <= i < err.sources@.len() && IoErrorKind::downcast(#[trigger] err.sources@[i])
                == Some(kind);
        assert(err@[i + 1] == err.sources@[i]);
        assert(is_transient_layer(err@[i + 1]));
    }
}

/// Turning an error of `reqwest` into an I/O error changes nothing about whether it is retried.
pub proof fn law_conversion_keeps_verdict(err: ErrorChain, converted: ErrorChain)
    requires
        converted@ == seq![ErrorLayer::Io(io_kind(err.sources@))] + err@,
    ensures
        chain_verdict(converted@) == chain_verdict(err@),
{
    law_joined_chains(seq![ErrorLayer::Io(io_kind(err.sources@))], err@);
    lemma_nested_kind(err);
}

/// An error of `reqwest` that ends a body, turned into an I/O error, makes the reader reconnect exactly
/// if the classifier would retry the error of `reqwest`.
pub proof fn law_body_errors_keep_their_verdict(
    reader: ReaderModel,
    err: ErrorChain,
    surfaced: IoErrorModel,
)
    requires
        surfaced.layers() == seq![ErrorLayer::Io(io_kind(err.sources@))] + err@,
    ensures
        reader.wants_retry(EventModel::ReadFailed(surfaced)) <==> chain_verdict(err@) == Some(
            Retryable::Transient,
        ),
{
    law_joined_chains(seq![ErrorLayer::Io(io_kind(err.sources@))], err@);
    lemma_nested_kind(err);
}

/// A body that ends with an error of the HTTP/2 layer, wherever in the chain it stands, such as the
/// reset of a stream, makes the reader reconnect.
pub proof fn law_stream_reset_is_recovered(reader: ReaderModel, err: IoErrorModel, position: int)
    requires
        0 <= position < err.sources.len(),
        err.sources[position] is H2,
    ensures
        reader.wants_retry(EventModel::ReadFailed(err)),
{
    assert(is_transient_layer(err.layers()[position + 1]));
}

/// After a retryable request that was not retried, the number of retries equals the maximum, unless
/// the retries of a lower layer overshot it.
pub proof fn law_refused_budget_is_spent(
    state: RetryModel,
    layers: Seq<ErrorLayer>,
    error_retries: nat,
    max: u32,
)
    requires
        state.policy.max_n_retries == Some(max),
        chain_verdict(layers) == Some(Retryable::Transient),
        !state.grants(layers, error_retries),
        state.total_retries + error_retries <= max,
    ensures
        state.asked(layers, error_retries).total_retries == max,
{
}

/// A budget that has refused a transient error refuses every later one.
pub proof fn law_refusal_is_final(
    state: RetryModel,
    layers: Seq<ErrorLayer>,
    error_retries: nat,
    later_layers: Seq<ErrorLayer>,
    later_retries: nat,
)
    requires
        state.can_ask(layers, error_retries),
        chain_verdict(layers) == Some(Retryable::Transient),
        !state.grants(layers, error_retries),
    ensures
        !state.asked(layers, error_retries).grants(later_layers, later_retries),
{
}

/// Unless the clock is set back between the reading that the wait is measured from and the one that
/// the policy takes, the next try is not in the past: the wait lasts exactly until then, so it is no
/// shorter than what the policy set, and longer only by the time between the two readings.
pub proof fn law_wait_is_reliable(
    policy: BackoffPolicy,
    n_past_retries: nat,
    now: SystemTime,
    asked_at: SystemTime,
    then: SystemTime,
    span: Span,
)
    requires
        policy.schedules(n_past_retries, asked_at, then),
        is_wait(now, then, span),
        clock_nanos(now) <= clock_nanos(asked_at),
    ensures
        span.total_nanos() == clock_nanos(then) - clock_nanos(now),
        span.total_nanos() >= clock_nanos(then) - clock_nanos(asked_at),
        span.total_nanos() <= policy.max_retry_interval.total_nanos() + (clock_nanos(asked_at)
            - clock_nanos(now)),
{
}

/// A question to a retry budget: an error and the retries made below.
pub struct Question {
    pub layers: Seq<ErrorLayer>,
    pub error_retries: nat,
}

/// The budget after a series of questions.
pub open spec fn asked_all(state: RetryModel, questions: Seq<Question>) -> RetryModel
    decreases questions.len(),
{
    if questions.len() == 0 {
        state
    } else {
        let before = asked_all(state, questions.drop_last());
        before.asked(questions.last().layers, questions.last().error_retries)
    }
}

/// How many of the questions were answered with a retry.
pub open spec fn granted_count(state: RetryModel, questions: Seq<Question>) -> nat
    decreases questions.len(),
{
    if questions.len() == 0 {
        0
    } else {
        let before = asked_all(state, questions.drop_last());
        let more: nat = if before.grants(questions.last().layers, questions.last().error_retries) {
            1
        } else {
            0
        };
        granted_count(state, questions.drop_last()) + more
    }
}

/// Whether each of the questions can be asked when its turn comes.
pub open spec fn can_ask_all(state: RetryModel, questions: Seq<Question>) -> bool
    decreases questions.len(),
{
    questions.len() > 0 ==> {
        &&& can_ask_all(state, questions.drop_last())
        &&& asked_all(state, questions.drop_last()).can_ask(
            questions.last().layers,
            questions.last().error_retries,
        )
    }
}

/// The number of retries that a limit leaves to a budget.
pub open spec fn retries_left(state: RetryModel, max: u32) -> int {
    if state.total_retries < max {
        max - state.total_retries
    } else {
        0
    }
}

/// However often and with whatever errors a budget is asked, it never grants more retries than the
/// limit of the policy leaves.
pub proof fn law_budget_bounds_retries(state: RetryModel, questions: Seq<Question>, max: u32)
    requires
        state.policy.max_n_retries == Some(max),
        can_ask_all(state, questions),
    ensures
        granted_count(state, questions) <= retries_left(state, max),
{
    lemma_budget(state, questions, max);
}

/// Each retry that is granted is counted, and the last one was within the limit.
proof fn lemma_budget(state: RetryModel, questions: Seq<Question>, max: u32)
    requires
        state.policy.max_n_retries == Some(max),
        can_ask_all(state, questions),
    ensures
        asked_all(state, questions).policy == state.policy,
        asked_all(state, questions).total_retries >= state.total_retries + granted_count(
            state,
            questions,
        ),
        granted_count(state, questions) <= retries_left(state, max),
    decreases questions.len(),
{
    if questions.len() > 0 {
        lemma_budget(state, questions.drop_last(), max);
    }
}

/// A download that has finished stays finished and delivers nothing more.
pub proof fn law_done_is_final(reader: ReaderModel, event: EventModel, backoff: Option<Span>)
    requires
        reader.state is Done,
        reader.expects(event),
    ensures
        reader.step(event, backoff) == (reader, ActionModel::Ready),
{
}

/// A download that has failed stays failed, and every later poll is answered with an error: the
/// first with the message, the others with an empty one.
pub proof fn law_failure_is_final(
    reader: ReaderModel,
    event: EventModel,
    backoff: Option<Span>,
    later_event: EventModel,
    later_backoff: Option<Span>,
)
    requires
        reader.state is Failed,
        reader.expects(event),
        reader.step(event, backoff).0.expects(later_event),
    ensures
        reader.step(event, backoff).1 == ActionModel::Fail(reader.state->Failed_0),
        reader.step(event, backoff).0 == (ReaderModel {
            state: StateModel::Failed(Seq::empty()),
            ..reader
        }),
        reader.step(event, backoff).0.step(later_event, later_backoff) == (
            reader.step(event, backoff).0,
            ActionModel::Fail(Seq::empty()),
        ),
{
}

/// Once the retry budget is exhausted, the consumer gets the last network error as it is: the error
/// of the body itself, or one that carries the error of the request.
pub proof fn law_exhausted_budget_reports_last_error(reader: ReaderModel, event: EventModel)
    requires
        reader.expects(event),
        reader.wants_retry(event),
    ensures
        event matches EventModel::ReadFailed(err) ==> reader.step(event, None).1
            == ActionModel::Propagate(err),
        event matches EventModel::RequestFailed(err) ==> {
            &&& reader.step(event, None).1 matches ActionModel::Exhausted(_, carried)
            &&& carried == err
        },
        reader.step(event, None).0.state is Failed,
{
}

/// A read into a buffer without room changes nothing: no retry is called for, and whatever the body
/// does next, the reader meets it as if it had not been asked.
pub proof fn law_no_room_changes_nothing(reader: ReaderModel, backoff: Option<Span>)
    requires
        reader.state is Reading,
    ensures
        reader.expects(EventModel::NoRoom),
        reader.has_room_for(EventModel::NoRoom),
        !reader.wants_retry(EventModel::NoRoom),
        reader.step(EventModel::NoRoom, backoff) == (reader, ActionModel::Ready),
{
}

/// A body that ends before the content does is never taken for the end of the stream: the reader
/// pauses for another try or fails.
pub proof fn law_short_body_is_not_the_end(
    reader: ReaderModel,
    backoff: Option<Span>,
)
    requires
        reader.expects(EventModel::Read(0)),
        reader.is_short(),
    ensures
        match backoff {
            Some(span) => reader.step(EventModel::Read(0), backoff) == (
                reader.paused(),
                ActionModel::Sleep(span),
            ),
            None => reader.step(EventModel::Read(0), backoff).1 is Fail && reader.step(
                EventModel::Read(0),
                backoff,
            ).0.state is Failed,
        },
{
}

/// The position that a `Range` header of the form `bytes=N-` asks for.
pub open spec fn range_start(header: Seq<char>) -> nat {
    digits_value(header.subrange(6, header.len() - 1))
}

/// The header that the reader sends asks for the position that it was made from.
pub proof fn law_range_header_names_position(position: nat)
    ensures
        range_start(range_header(position)) == position,
{
    reveal_strlit("bytes=");
    reveal_strlit("-");
    lemma_decimal(position);
    let header = range_header(position);
    assert(header.subrange(6, header.len() - 1) =~= decimal(position));
}

/// A download in progress, with the world around it.
pub struct Download {
    pub reader: ReaderModel,
    pub retry: RetryModel,
    /// The bytes that the consumer has got.
    pub output: Seq<u8>,
    /// Where in the content the next byte of the open body stands.
    pub cursor: nat,
    /// The `Range` header of the last request.
    pub range: Seq<char>,
}

/// What happens next, and what the budget answers if it is asked.
pub struct Happening {
    /// Retries that others who share the budget have spent meanwhile.
    pub spent_elsewhere: u32,
    pub event: EventModel,
    pub backoff: Option<Span>,
}

/// The retry budget when something happens.
pub open spec fn budget_then(download: Download, next: Happening) -> RetryModel {
    RetryModel {
        total_retries: (download.retry.total_retries + next.spent_elsewhere) as u32,
        ..download.retry
    }
}

/// A download at its beginning.
pub open spec fn begun(head: HeadModel, retry: RetryModel) -> Download {
    Download {
        reader: opened(head),
        retry,
        output: Seq::empty(),
        cursor: 0,
        range: Seq::empty(),
    }
}

/// Whether this can happen while a server serves `content`: the event fits the state of the reader,
/// the body holds the bytes that are read from it, and the budget answers as its policy says.
pub open spec fn can_happen(content: Seq<u8>, download: Download, next: Happening) -> bool {
    &&& download.reader.expects(next.event)
    &&& download.reader.has_room_for(next.event)
    &&& download.retry.total_retries + next.spent_elsewhere <= u32::MAX
    &&& next.event matches EventModel::Read(bytes) ==> download.cursor + bytes <= content.len()
    &&& download.reader.wants_retry(next.event) ==> {
        &&& budget_then(download, next).can_ask(
            lost_connection(),
            download.reader.retries_below(next.event),
        )
        &&& next.backoff is Some <==> budget_then(download, next).grants(
            lost_connection(),
            download.reader.retries_below(next.event),
        )
    }
}

/// The download after something has happened. Bytes that are read are the next ones of the content;
/// a body that the reader goes on with starts where the request asked it to if the server says that it
/// is a part of the content, and else at the beginning.
pub open spec fn after(content: Seq<u8>, download: Download, next: Happening) -> Download {
    let (reader, action) = download.reader.step(next.event, next.backoff);
    let retry = if download.reader.wants_retry(next.event) {
        budget_then(download, next).asked(
            lost_connection(),
            download.reader.retries_below(next.event),
        )
    } else {
        budget_then(download, next)
    };
    let (output, cursor) = match (next.event, action) {
        (EventModel::Read(bytes), _) => (
            download.output + content.subrange(
                download.cursor as int,
                download.cursor + bytes,
            ),
            (download.cursor + bytes) as nat,
        ),
        (EventModel::Responded(head), ActionModel::Stream) => (
            download.output,
            if head.status == 206 {
                range_start(download.range)
            } else {
                0
            },
        ),
        (_, ActionModel::Stream) => (download.output, 0),
        _ => (download.output, download.cursor),
    };
    let range = match action {
        ActionModel::Request(header) => header,
        _ => download.range,
    };
    Download { reader, retry, output, cursor, range }
}

/// The download after a series of happenings.
pub open spec fn after_all(content: Seq<u8>, start: Download, history: Seq<Happening>) -> Download
    decreases history.len(),
{
    if history.len() == 0 {
        start
    } else {
        after(content, after_all(content, start, history.drop_last()), history.last())
    }
}

/// Whether each of the happenings can happen when its turn comes.
pub open spec fn can_all_happen(
    content: Seq<u8>,
    start: Download,
    history: Seq<Happening>,
) -> bool
    decreases history.len(),
{
    history.len() > 0 ==> {
        &&& can_all_happen(content, start, history.drop_last())
        &&& can_happen(content, after_all(content, start, history.drop_last()), history.last())
    }
}

/// Whatever is lost on the way and however often the reader reconnects, what the consumer has got is
/// the beginning of the content, every byte once and in order.
pub proof fn law_stream_is_seamless(
    content: Seq<u8>,
    head: HeadModel,
    retry: RetryModel,
    history: Seq<Happening>,
)
    requires
        can_all_happen(content, begun(head, retry), history),
    ensures
        ({
            let download = after_all(content, begun(head, retry), history);
            &&& download.reader.bytes_delivered <= content.len()
            &&& download.output == content.take(download.reader.bytes_delivered as int)
        }),
{
    lemma_download(content, head, retry, history);
}

/// The count of delivered bytes grows by exactly the bytes that the consumer gets. What the consumer
/// has got already stays as it is, only a step that reports success adds to it, and the length of the
/// content never changes.
pub proof fn law_delivered_bytes_are_counted(
    content: Seq<u8>,
    download: Download,
    next: Happening,
)
    requires
        can_happen(content, download, next),
    ensures
        ({
            let later = after(content, download, next);
            let action = download.reader.step(next.event, next.backoff).1;
            &&& download.output.is_prefix_of(later.output)
            &&& later.output.len() - download.output.len() == later.reader.bytes_delivered
                - download.reader.bytes_delivered
            &&& !(action is Ready) ==> later.output == download.output
            &&& later.reader.content_length == download.reader.content_length
        }),
{
    let later = after(content, download, next);
    assert(later.output.take(download.output.len() as int) =~= download.output);
}

/// When a download whose length is known has finished, the consumer has got the whole content.
pub proof fn law_finished_download_is_complete(
    content: Seq<u8>,
    head: HeadModel,
    retry: RetryModel,
    history: Seq<Happening>,
)
    requires
        can_all_happen(content, begun(head, retry), history),
        head.content_length matches Some(length) && length == content.len(),
        after_all(content, begun(head, retry), history).reader.state is Done,
    ensures
        after_all(content, begun(head, retry), history).output == content,
{
    lemma_download(content, head, retry, history);
    let download = after_all(content, begun(head, retry), history);
    assert(content.take(content.len() as int) =~= content);
}

/// A download sends no more Range requests than the limit of its budget left retries when it began,
/// whoever else spends from the budget.
pub proof fn law_reconnects_are_bounded(
    content: Seq<u8>,
    head: HeadModel,
    retry: RetryModel,
    history: Seq<Happening>,
    max: u32,
)
    requires
        can_all_happen(content, begun(head, retry), history),
        retry.policy.max_n_retries == Some(max),
    ensures
        after_all(content, begun(head, retry), history).reader.reconnect_attempts <= retries_left(
            retry,
            max,
        ),
{
    lemma_download(content, head, retry, history);
}

/// A Range request is sent only when a pause is over, and a pause begins only with the time that the
/// budget granted for it.
pub proof fn law_requests_follow_granted_pauses(
    reader: ReaderModel,
    event: EventModel,
    backoff: Option<Span>,
)
    requires
        reader.expects(event),
    ensures
        ({
            let (later, action) = reader.step(event, backoff);
            &&& action is Request ==> {
                &&& reader.state is Backoff
                &&& event is BackoffElapsed
                &&& later.state is Reconnecting
            }
            &&& action matches ActionModel::Sleep(span) ==> {
                &&& reader.wants_retry(event)
                &&& backoff == Some(span)
                &&& later.state is Backoff
            }
            &&& later.state is Backoff && !(reader.state is Backoff) ==> action is Sleep
        }),
{
}

/// How many retries the budget granted in a series of happenings.
pub open spec fn granted_pauses(content: Seq<u8>, start: Download, history: Seq<Happening>) -> nat
    decreases history.len(),
{
    if history.len() == 0 {
        0
    } else {
        let before = after_all(content, start, history.drop_last());
        let more: nat = if before.reader.wants_retry(history.last().event)
            && history.last().backoff is Some {
            1
        } else {
            0
        };
        granted_pauses(content, start, history.drop_last()) + more
    }
}

/// Each Range request has a grant of its own: there are as many grants as requests, and one more
/// while the reader pauses.
pub proof fn law_each_request_is_granted(
    content: Seq<u8>,
    head: HeadModel,
    retry: RetryModel,
    history: Seq<Happening>,
)
    requires
        can_all_happen(content, begun(head, retry), history),
    ensures
        granted_pauses(content, begun(head, retry), history) == paid_reconnects(
            after_all(content, begun(head, retry), history).reader,
        ),
    decreases history.len(),
{
    if history.len() > 0 {
        law_each_request_is_granted(content, head, retry, history.drop_last());
    }
}

/// The retries below the download that an event tells of: those of a response that continues it, or of
/// a request that failed.
pub open spec fn retries_told(reader: ReaderModel, event: EventModel) -> nat {
    match event {
        EventModel::Responded(head) => if reconnect_objection(reader.content_length, head) is None {
            head.middleware_retries() as nat
        } else {
            0
        },
        EventModel::RequestFailed(err) => err.retries as nat,
        _ => 0,
    }
}

/// The retries that a series of happenings tells of, and those that others have spent meanwhile.
pub open spec fn all_retries_told(content: Seq<u8>, start: Download, history: Seq<Happening>) -> nat
    decreases history.len(),
{
    if history.len() == 0 {
        0
    } else {
        let before = after_all(content, start, history.drop_last());
        all_retries_told(content, start, history.drop_last()) + retries_told(
            before.reader,
            history.last().event,
        ) + history.last().spent_elsewhere as nat
    }
}

/// Every retry counts once against the budget: one of the middleware, whether its request was
/// answered or failed, is charged or still pending, and one that the budget granted is charged when
/// it is granted.
pub proof fn law_every_retry_is_charged_once(
    content: Seq<u8>,
    head: HeadModel,
    retry: RetryModel,
    history: Seq<Happening>,
)
    requires
        can_all_happen(content, begun(head, retry), history),
    ensures
        ({
            let start = begun(head, retry);
            let download = after_all(content, start, history);
            download.retry.total_retries + download.reader.pending_middleware_retries
                == retry.total_retries + head.middleware_retries() + all_retries_told(
                content,
                start,
                history,
            ) + paid_reconnects(download.reader)
        }),
    decreases history.len(),
{
    if history.len() > 0 {
        law_every_retry_is_charged_once(content, head, retry, history.drop_last());
        law_lost_connection_is_transient();
    }
}

/// The number of reconnects that the budget has paid for: those made, and the one that is due after
/// the pause.
pub open spec fn paid_reconnects(reader: ReaderModel) -> nat {
    let due: nat = if reader.state is Backoff {
        1
    } else {
        0
    };
    reader.reconnect_attempts as nat + due
}

/// What every step of a download keeps.
proof fn lemma_download(
    content: Seq<u8>,
    head: HeadModel,
    retry: RetryModel,
    history: Seq<Happening>,
)
    requires
        can_all_happen(content, begun(head, retry), history),
    ensures
        ({
            let download = after_all(content, begun(head, retry), history);
            let reader = download.reader;
            &&& reader.well_formed()
            &&& reader.content_length == head.content_length
            &&& reader.bytes_delivered <= content.len()
            &&& download.output == content.take(reader.bytes_delivered as int)
            &&& reader.state is Reading ==> download.cursor == reader.bytes_delivered
            &&& reader.state is Reconnecting ==> download.range == range_header(
                reader.bytes_delivered as nat,
            )
            &&& download.retry.policy == retry.policy
            &&& download.retry.total_retries >= retry.total_retries + paid_reconnects(reader)
            &&& retry.policy.max_n_retries matches Some(max) ==> paid_reconnects(reader)
                <= retries_left(retry, max)
        }),
    decreases history.len(),
{
    let start = begun(head, retry);
    if history.len() == 0 {
        assert(content.take(0) =~= Seq::<u8>::empty());
    } else {
        lemma_download(content, head, retry, history.drop_last());
        let before = after_all(content, start, history.drop_last());
        let next = history.last();
        law_lost_connection_is_transient();
        law_range_header_names_position(before.reader.bytes_delivered as nat);
        if let EventModel::Read(bytes) = next.event {
            let delivered = before.reader.bytes_delivered as int;
            assert(content.take(delivered) + content.subrange(delivered, delivered + bytes)
                =~= content.take(delivered + bytes));
        }
    }
}

} // verus!
