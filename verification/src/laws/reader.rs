//! What a resumable download does on each event.

use vstd::prelude::*;
use vstd::std_specs::convert::FromSpec;

use crate::error::{
    ErrorLayer, IoError, IoErrorKind, IoErrorModel, RequestError, RequestErrorModel,
};
use crate::laws::text::law_ranges_are_advertised_in_so_many_letters;
use crate::response::{head_of, HeadModel, ResponseHead};
use crate::resumable_reader::{
    is_opening, lost_connection, opened, range_header, reconnect_objection, ActionModel, EventModel,
    ReaderAction, ReaderEvent, ReaderModel, ReaderState, ResponseExt, ResumableError,
    ResumableReader, StateModel,
};
use crate::retry::{chain_verdict, Retryable, Span};
use crate::text::decimal;
use crate::trusted::status_display;

verus! {

/// A download is opened exactly if the server advertises ranges, in the five letters of `bytes`. It
/// starts by reading, with nothing delivered, the length that the response gives, and the retries
/// that it records still to be charged.
pub proof fn law_opening(head: HeadModel, reader: Result<ResumableReader, ResumableError>)
    requires
        is_opening(head, reader),
    ensures
        reader is Ok <==> head.accept_ranges == Some(seq![98u8, 121, 116, 101, 115]),
        reader matches Ok(reader) ==> {
            &&& reader@.content_length == head.content_length
            &&& reader@.bytes_delivered == 0
            &&& reader@.pending_middleware_retries == (match head.retry_count {
                Some(count) => count,
                None => 0,
            })
            &&& reader@.reconnect_attempts == 0
            &&& reader@.state is Reading
            &&& reader@ == opened(head)
        },
        reader matches Err(err) ==> err is RangeNotSupported,
{
    law_ranges_are_advertised_in_so_many_letters(head);
}

/// Each event belongs to the states in which its outside work is under way, and can come whenever the
/// counters can take it.
pub proof fn law_events_belong_to_states(reader: ReaderModel, event: EventModel)
    ensures
        reader.state is Reading ==> (reader.expects(event) <==> event is Pending || event is NoRoom
            || event is Read || event is ReadFailed),
        reader.state is Backoff ==> (reader.expects(event) <==> event is Pending
            || event is BackoffElapsed),
        reader.state is Reconnecting ==> (reader.expects(event) <==> event is Pending
            || event is Responded || event is RequestFailed),
        reader.state is Failed || reader.state is Done ==> (reader.expects(event)
            <==> event is Polled),
        event is Pending || event is NoRoom || event is Polled || event is ReadFailed
            || event is RequestFailed ==> reader.has_room_for(event),
        event matches EventModel::Read(bytes) ==> reader.bytes_delivered + bytes
            <= 0xffff_ffff_ffff_ffff ==> reader.has_room_for(event),
        event is BackoffElapsed && reader.reconnect_attempts < 0xffff_ffff ==> reader.has_room_for(
            event,
        ),
        event matches EventModel::Responded(head) ==> (match head.retry_count {
            Some(count) => reader.pending_middleware_retries + count <= 0xffff_ffff,
            None => true,
        }) ==> reader.has_room_for(event),
        event matches EventModel::Responded(head) ==> (head.status != 206 || (
        reader.content_length is Some && head.total_size() is Some && reader.content_length
            != head.total_size())) ==> reader.has_room_for(event),
{
}

/// The budget is asked in three cases and no other: the body ended before all expected bytes came, it
/// failed with an error that the classifier finds transient, or a Range request failed.
pub proof fn law_when_a_retry_is_called_for(reader: ReaderModel, event: EventModel)
    ensures
        reader.wants_retry(event) <==> {
            ||| event == EventModel::Read(0) && (reader.content_length matches Some(expected)
                && reader.bytes_delivered < expected)
            ||| event matches EventModel::ReadFailed(err) && chain_verdict(
                seq![ErrorLayer::Io(err.kind)] + err.sources,
            ) == Some(Retryable::Transient)
            ||| event is RequestFailed
        },
{
}

/// The budget is told of the pending retries, and of those of the request that has just failed.
pub proof fn law_retries_below_are_told(reader: ReaderModel, event: EventModel)
    ensures
        event matches EventModel::RequestFailed(err) ==> reader.retries_below(event)
            == reader.pending_middleware_retries + err.retries,
        !(event is RequestFailed) ==> reader.retries_below(event)
            == reader.pending_middleware_retries,
{
}

/// Bytes that come are added to those delivered and handed on, and nothing else changes.
pub proof fn law_bytes_are_handed_on(reader: ReaderModel, bytes: u64, backoff: Option<Span>)
    requires
        bytes > 0,
        reader.bytes_delivered + bytes <= 0xffff_ffff_ffff_ffff,
    ensures
        ({
            let (later, action) = reader.step(EventModel::Read(bytes), backoff);
            &&& action is Ready
            &&& later.bytes_delivered == reader.bytes_delivered + bytes
            &&& later.content_length == reader.content_length
            &&& later.pending_middleware_retries == reader.pending_middleware_retries
            &&& later.reconnect_attempts == reader.reconnect_attempts
            &&& later.state == reader.state
        }),
{
}

/// A body that ends when no expected byte is missing, because all have come or none were announced,
/// ends the stream.
pub proof fn law_full_body_ends_the_stream(reader: ReaderModel, backoff: Option<Span>)
    requires
        reader.content_length matches Some(expected) ==> expected <= reader.bytes_delivered,
    ensures
        ({
            let (later, action) = reader.step(EventModel::Read(0), backoff);
            &&& action is Ready
            &&& later.state is Done
            &&& later.content_length == reader.content_length
            &&& later.bytes_delivered == reader.bytes_delivered
            &&& later.pending_middleware_retries == reader.pending_middleware_retries
            &&& later.reconnect_attempts == reader.reconnect_attempts
        }),
{
}

/// Whether `later` has paused after `reader` was granted a retry.
pub open spec fn has_paused(
    reader: ReaderModel,
    later: ReaderModel,
    action: ActionModel,
    span: Span,
) -> bool {
    &&& action == ActionModel::Sleep(span)
    &&& later.state is Backoff
    &&& later.pending_middleware_retries == 0
    &&& later.content_length == reader.content_length
    &&& later.bytes_delivered == reader.bytes_delivered
    &&& later.reconnect_attempts == reader.reconnect_attempts
}

/// Whether `later` has given up with a message after `reader` was refused a retry.
pub open spec fn has_given_up(reader: ReaderModel, later: ReaderModel, message: Seq<char>) -> bool {
    &&& later.state == StateModel::Failed(message)
    &&& later.pending_middleware_retries == 0
    &&& later.content_length == reader.content_length
    &&& later.bytes_delivered == reader.bytes_delivered
    &&& later.reconnect_attempts == reader.reconnect_attempts
}

/// A body that ends while expected bytes are missing pauses the download for as long as the budget
/// says, and fails it where the budget refuses.
pub proof fn law_early_end_is_retried(reader: ReaderModel, expected: u64, backoff: Option<Span>)
    requires
        reader.content_length == Some(expected),
        reader.bytes_delivered < expected,
    ensures
        ({
            let (later, action) = reader.step(EventModel::Read(0), backoff);
            match backoff {
                Some(span) => has_paused(reader, later, action, span),
                None => has_given_up(reader, later, Seq::empty()) && action == ActionModel::Fail(
                    "retry budget exhausted while recovering from premature EOF"@,
                ),
            }
        }),
{
}

/// A body that fails with a transient error pauses the download for as long as the budget says. Where
/// the budget refuses, the consumer gets the error as it is, and a later poll says why.
pub proof fn law_transient_body_error_is_retried(
    reader: ReaderModel,
    err: IoErrorModel,
    backoff: Option<Span>,
)
    requires
        chain_verdict(seq![ErrorLayer::Io(err.kind)] + err.sources) == Some(Retryable::Transient),
    ensures
        ({
            let (later, action) = reader.step(EventModel::ReadFailed(err), backoff);
            match backoff {
                Some(span) => has_paused(reader, later, action, span),
                None => has_given_up(
                    reader,
                    later,
                    "retry budget exhausted after transient stream error: "@ + err.message,
                ) && action == ActionModel::Propagate(err),
            }
        }),
{
}

/// A body that fails with any other error fails the download at once, whatever the budget would say,
/// and the consumer gets the error as it is.
pub proof fn law_other_body_error_is_final(
    reader: ReaderModel,
    err: IoErrorModel,
    backoff: Option<Span>,
)
    requires
        chain_verdict(seq![ErrorLayer::Io(err.kind)] + err.sources) is None,
    ensures
        ({
            let (later, action) = reader.step(EventModel::ReadFailed(err), backoff);
            &&& action == ActionModel::Propagate(err)
            &&& later.state == StateModel::Failed("non-transient stream error: "@ + err.message)
            &&& later.content_length == reader.content_length
            &&& later.bytes_delivered == reader.bytes_delivered
            &&& later.pending_middleware_retries == reader.pending_middleware_retries
            &&& later.reconnect_attempts == reader.reconnect_attempts
        }),
{
}

/// When a pause is over, a request goes out that asks for all bytes behind those delivered. It counts
/// as one more attempt.
pub proof fn law_pause_ends_with_a_request(reader: ReaderModel, backoff: Option<Span>)
    requires
        reader.reconnect_attempts < 0xffff_ffff,
    ensures
        ({
            let (later, action) = reader.step(EventModel::BackoffElapsed, backoff);
            &&& action == ActionModel::Request(
                "bytes="@ + decimal(reader.bytes_delivered as nat) + "-"@,
            )
            &&& later.state is Reconnecting
            &&& later.reconnect_attempts == reader.reconnect_attempts + 1
            &&& later.content_length == reader.content_length
            &&& later.bytes_delivered == reader.bytes_delivered
            &&& later.pending_middleware_retries == reader.pending_middleware_retries
        }),
{
}

/// A `Range` header has the unit, the position in decimal, and an open end.
pub proof fn law_range_header_has_an_open_end(position: nat)
    ensures
        range_header(position) == "bytes="@ + decimal(position) + "-"@,
{
}

/// A response continues the download exactly if its status is 206 and, where the length of the content
/// and the total size in the response are both known, they are equal. Then its body is read, and the
/// retries that it records are to be charged.
pub proof fn law_only_partial_content_continues(
    reader: ReaderModel,
    head: HeadModel,
    backoff: Option<Span>,
)
    ensures
        ({
            let (later, action) = reader.step(EventModel::Responded(head), backoff);
            let continues = head.status == 206 && (reader.content_length is None
                || head.total_size() is None || reader.content_length == head.total_size());
            let recorded: int = match head.retry_count {
                Some(count) => count as int,
                None => 0,
            };
            &&& action is Stream <==> continues
            &&& later.state is Reading <==> continues
            &&& action is Fail <==> !continues
            &&& continues && reader.pending_middleware_retries + recorded <= 0xffff_ffff
                ==> later.pending_middleware_retries == reader.pending_middleware_retries + recorded
            &&& later.content_length == reader.content_length
            &&& later.bytes_delivered == reader.bytes_delivered
            &&& later.reconnect_attempts == reader.reconnect_attempts
        }),
{
}

/// A response that does not continue the download fails it. The consumer is told the status that came
/// instead, or the two sizes that differ, and a later poll says the same.
pub proof fn law_other_responses_are_rejected(
    reader: ReaderModel,
    head: HeadModel,
    backoff: Option<Span>,
)
    ensures
        ({
            let (later, action) = reader.step(EventModel::Responded(head), backoff);
            let status_message = "expected 206 Partial Content for resumed download, got "@
                + status_display(head.status);
            &&& head.status != 206 ==> {
                &&& action == ActionModel::Fail(status_message)
                &&& later.state == StateModel::Failed(status_message)
                &&& later.pending_middleware_retries == reader.pending_middleware_retries
            }
            &&& head.status == 206 && reader.content_length is Some && head.total_size() is Some
                && reader.content_length != head.total_size() ==> {
                let expected = reader.content_length->0;
                let total = head.total_size()->0;
                let size_message = "server reports inconsistent total size: expected "@ + decimal(
                    expected as nat,
                ) + ", got "@ + decimal(total as nat);
                &&& action == ActionModel::Fail(size_message)
                &&& later.state == StateModel::Failed(size_message)
                &&& later.pending_middleware_retries == reader.pending_middleware_retries
            }
        }),
{
}

/// There is an objection to a response exactly if its status is not 206, or if the length of the content
/// and its total size are both known and differ; the status is looked at first.
pub proof fn law_objections_to_responses(content_length: Option<u64>, head: HeadModel)
    ensures
        reconnect_objection(content_length, head) is None <==> head.status == 206 && (
        content_length is None || head.total_size() is None || content_length == head.total_size()),
        head.status != 206 ==> reconnect_objection(content_length, head) == Some(
            "expected 206 Partial Content for resumed download, got "@ + status_display(
                head.status,
            ),
        ),
        head.status == 206 && content_length is Some && head.total_size() is Some && content_length
            != head.total_size() ==> reconnect_objection(content_length, head) == Some(
            "server reports inconsistent total size: expected "@ + decimal(
                content_length->0 as nat,
            ) + ", got "@ + decimal(head.total_size()->0 as nat),
        ),
{
}

/// A Range request that fails pauses the download for as long as the budget says. Where the budget
/// refuses, the consumer gets the number of attempts and the error of the last one, and a later poll
/// says the same.
pub proof fn law_failed_request_is_retried(
    reader: ReaderModel,
    err: RequestErrorModel,
    backoff: Option<Span>,
)
    ensures
        ({
            let (later, action) = reader.step(EventModel::RequestFailed(err), backoff);
            let message = "retry budget exhausted after "@ + decimal(
                reader.reconnect_attempts as nat,
            ) + " reconnection attempt(s): "@ + err.message;
            match backoff {
                Some(span) => has_paused(reader, later, action, span),
                None => has_given_up(reader, later, message) && action == ActionModel::Exhausted(
                    message,
                    err,
                ),
            }
        }),
{
}

/// While nothing happens, nothing changes; a poll after the end is answered from the state, and a
/// failure tells its message once.
pub proof fn law_idle_polls(reader: ReaderModel, backoff: Option<Span>)
    ensures
        reader.step(EventModel::Pending, backoff) == (reader, ActionModel::Pending),
        reader.step(EventModel::NoRoom, backoff) == (reader, ActionModel::Ready),
        reader.state is Done ==> reader.step(EventModel::Polled, backoff) == (
            reader,
            ActionModel::Ready,
        ),
        reader.state matches StateModel::Failed(message) ==> {
            let (later, action) = reader.step(EventModel::Polled, backoff);
            &&& action == ActionModel::Fail(message)
            &&& later.state == StateModel::Failed(Seq::empty())
            &&& later.content_length == reader.content_length
            &&& later.bytes_delivered == reader.bytes_delivered
            &&& later.pending_middleware_retries == reader.pending_middleware_retries
            &&& later.reconnect_attempts == reader.reconnect_attempts
        },
{
}

/// A reader that is done has no expected byte missing, and every other reader is proper.
pub proof fn law_done_means_complete(reader: ReaderModel)
    ensures
        reader.well_formed() <==> (reader.state is Done ==> (reader.content_length matches Some(
            expected,
        ) ==> reader.bytes_delivered >= expected)),
{
}

/// The error that the budget is asked with is a connection that was reset, and nothing behind it.
pub proof fn law_lost_connection_is_a_bare_reset()
    ensures
        lost_connection().len() == 1,
        lost_connection()[0] == ErrorLayer::Io(IoErrorKind::ConnectionReset),
{
}

/// A response offers what its own head says.
pub proof fn law_responses_offer_their_own_head(head: ResponseHead, response: reqwest::Response)
    ensures
        ResponseExt::head(&head) == head@,
        ResponseExt::head(&response) == head_of(response),
{
}

/// An error that stops a download keeps the error that it was made from.
pub proof fn law_errors_are_kept_whole(request: RequestError, io: IoError)
    ensures
        <ResumableError as FromSpec<RequestError>>::obeys_from_spec(),
        <ResumableError as FromSpec<IoError>>::obeys_from_spec(),
        <ResumableError as FromSpec<RequestError>>::from_spec(request) == ResumableError::Request(
            request,
        ),
        <ResumableError as FromSpec<IoError>>::from_spec(io) == ResumableError::Io(io),
        request@.message == request.message@,
        request@.retries == request.retries,
        io@.kind == io.kind,
        io@.message == io.message@,
        io@.sources == io.sources@,
{
}

/// The model of a state has all that the state has.
pub proof fn law_states_are_kept_whole(state: ReaderState)
    ensures
        match state {
            ReaderState::Reading => state@ is Reading,
            ReaderState::Backoff => state@ is Backoff,
            ReaderState::Reconnecting => state@ is Reconnecting,
            ReaderState::Failed(message) => state@ == StateModel::Failed(message@),
            ReaderState::Done => state@ is Done,
        },
{
}

/// The model of an event has all that the event has.
pub proof fn law_events_are_kept_whole(event: ReaderEvent)
    ensures
        match event {
            ReaderEvent::Pending => event@ is Pending,
            ReaderEvent::Polled => event@ is Polled,
            ReaderEvent::NoRoom => event@ is NoRoom,
            ReaderEvent::Read(bytes) => event@ == EventModel::Read(bytes),
            ReaderEvent::ReadFailed(err) => {
                &&& event@ matches EventModel::ReadFailed(model)
                &&& model.kind == err.kind
                &&& model.message == err.message@
                &&& model.sources == err.sources@
            },
            ReaderEvent::BackoffElapsed => event@ is BackoffElapsed,
            ReaderEvent::Responded(head) => event@ == EventModel::Responded(head@),
            ReaderEvent::RequestFailed(err) => {
                &&& event@ matches EventModel::RequestFailed(model)
                &&& model.message == err.message@
                &&& model.retries == err.retries
            },
        },
{
}

/// The model of an action has all that the action has.
pub proof fn law_actions_are_kept_whole(action: ReaderAction)
    ensures
        match action {
            ReaderAction::Pending => action@ is Pending,
            ReaderAction::Ready => action@ is Ready,
            ReaderAction::Sleep(span) => action@ == ActionModel::Sleep(span),
            ReaderAction::Request(range) => action@ == ActionModel::Request(range@),
            ReaderAction::Stream => action@ is Stream,
            ReaderAction::Propagate(err) => {
                &&& action@ matches ActionModel::Propagate(model)
                &&& model.kind == err.kind
                &&& model.message == err.message@
                &&& model.sources == err.sources@
            },
            ReaderAction::Fail(message) => action@ == ActionModel::Fail(message@),
            ReaderAction::Exhausted(message, err) => {
                &&& action@ matches ActionModel::Exhausted(report, model)
                &&& report == message@
                &&& model.message == err.message@
                &&& model.retries == err.retries
            },
        },
{
}

} // verus!
