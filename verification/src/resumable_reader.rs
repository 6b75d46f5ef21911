//! Resumable download with transparent retry on failure.
//!
//! When a response body ends before its time, the reader asks for the rest with an HTTP `Range`
//! request that starts behind the last byte that was delivered. Whoever reads the bytes sees one
//! stream and nothing of the reconnect.
//!
//! The reader holds no connection. It is told what became of the outside work (a read, a pause, a
//! request) and says what to do next.

use std::time::SystemTime;

use vstd::prelude::*;

use crate::error::{
    ErrorChain, ErrorLayer, IoError, IoErrorKind, IoErrorModel, RequestError, RequestErrorModel,
};
use crate::response::{head_of, HeadModel, ResponseHead};
use crate::retry::{
    chain_verdict, check_network_kind, is_network_kind, is_transient_layer,
    retryable_on_request_failure, RetryModel, RetryState, Retryable, Span,
};
use crate::text::{decimal, write_decimal};
use crate::trusted::{header_to_str, status_display, status_text};

verus! {

/// The status code 206, Partial Content.
pub const PARTIAL_CONTENT: u16 = 206;

/// Error returned when the resumable download cannot proceed.
#[derive(Debug)]
pub enum ResumableError {
    /// The server does not serve ranges of bytes.
    RangeNotSupported,
    Request(RequestError),
    Io(IoError),
}

impl ResumableError {
    /// What the error displays as.
    pub fn message(&self) -> (message: String)
        ensures
            message@ == (match *self {
                ResumableError::RangeNotSupported =>
                    "Server does not support Range requests (no `Accept-Ranges: bytes` header)"@,
                ResumableError::Request(err) => err.message@,
                ResumableError::Io(err) => err.message@,
            }),
    {
        match self {
            ResumableError::RangeNotSupported => {
                "Server does not support Range requests (no `Accept-Ranges: bytes` header)".to_owned()
            },
            ResumableError::Request(err) => err.message.clone(),
            ResumableError::Io(err) => err.message.clone(),
        }
    }
}

impl From<RequestError> for ResumableError {
    fn from(err: RequestError) -> (converted: ResumableError) {
        ResumableError::Request(err)
    }
}

impl vstd::std_specs::convert::FromSpecImpl<RequestError> for ResumableError {
    open spec fn obeys_from_spec() -> bool {
        true
    }

    open spec fn from_spec(err: RequestError) -> ResumableError {
        ResumableError::Request(err)
    }
}

impl From<IoError> for ResumableError {
    fn from(err: IoError) -> (converted: ResumableError) {
        ResumableError::Io(err)
    }
}

impl vstd::std_specs::convert::FromSpecImpl<IoError> for ResumableError {
    open spec fn obeys_from_spec() -> bool {
        true
    }

    open spec fn from_spec(err: IoError) -> ResumableError {
        ResumableError::Io(err)
    }
}

/// What a response has to offer to a download that may be resumed.
pub trait ResponseExt: Sized {
    /// The head of the response.
    spec fn head(&self) -> HeadModel;

    /// Opens a [`ResumableReader`] for the body of this response, which reconnects on transient
    /// network failures using HTTP `Range` requests.
    ///
    /// Returns [`ResumableError::RangeNotSupported`] if the server did not advertise
    /// `Accept-Ranges: bytes` on the initial response.
    fn resumable_stream(&self) -> (reader: Result<ResumableReader, ResumableError>)
        ensures
            is_opening(self.head(), reader),
    ;

    /// Returns `true` if the server advertised `Accept-Ranges: bytes`.
    fn supports_range_requests(&self) -> (supported: bool)
        ensures
            supported == self.head().advertises_ranges(),
    ;
}

impl ResponseExt for ResponseHead {
    open spec fn head(&self) -> HeadModel {
        self@
    }

    fn resumable_stream(&self) -> (reader: Result<ResumableReader, ResumableError>) {
        ResumableReader::new(self)
    }

    fn supports_range_requests(&self) -> (supported: bool) {
        let text: Option<String> = match &self.accept_ranges {
            Some(value) => header_to_str(value.as_slice()),
            None => None,
        };
        match text {
            Some(text) => text == "bytes".to_owned(),
            None => false,
        }
    }
}

impl ResponseExt for reqwest::Response {
    open spec fn head(&self) -> HeadModel {
        head_of(*self)
    }

    fn resumable_stream(&self) -> (reader: Result<ResumableReader, ResumableError>) {
        ResumableReader::new(&ResponseHead::read(self))
    }

    fn supports_range_requests(&self) -> (supported: bool) {
        ResponseHead::read(self).supports_range_requests()
    }
}

/// What the reader is doing.
#[derive(Debug)]
pub enum ReaderState {
    /// Actively reading bytes from the current response body.
    Reading,
    /// Waiting out a backoff interval before issuing the next Range request.
    Backoff,
    /// A Range request is in flight.
    Reconnecting,
    /// Terminal failure: the message is surfaced by the next poll.
    Failed(String),
    /// All expected bytes have been delivered.
    Done,
}

/// What became of the outside work that the reader waits for.
#[derive(Debug)]
pub enum ReaderEvent {
    /// Nothing yet.
    Pending,
    /// The reader was polled after its end, when there is nothing to wait for.
    Polled,
    /// The consumer offered no room for bytes, and the body was not asked for any.
    NoRoom,
    /// The body delivered this many bytes; none of them at its end.
    Read(u64),
    /// The body could not be read.
    ReadFailed(IoError),
    /// The pause is over.
    BackoffElapsed,
    /// The Range request was answered.
    Responded(ResponseHead),
    /// The Range request was not answered.
    RequestFailed(RequestError),
}

/// What the reader wants done.
#[derive(Debug)]
pub enum ReaderAction {
    /// Tell the consumer to wait.
    Pending,
    /// Hand the consumer what was read: nothing at the end of the stream, and nothing where there is
    /// no room.
    Ready,
    /// Pause for this long.
    Sleep(Span),
    /// Send a request with this value of the `Range` header.
    Request(String),
    /// Read the body of the response that has arrived.
    Stream,
    /// Hand the consumer the error of the body as it is.
    Propagate(IoError),
    /// Hand the consumer an error with this message.
    Fail(String),
    /// Hand the consumer an error with this message that carries the error of the last request as it
    /// is.
    Exhausted(String, RequestError),
}

/// The state of a [`ReaderState`].
pub enum StateModel {
    Reading,
    Backoff,
    Reconnecting,
    Failed(Seq<char>),
    Done,
}

impl View for ReaderState {
    type V = StateModel;

    open spec fn view(&self) -> StateModel {
        match *self {
            ReaderState::Reading => StateModel::Reading,
            ReaderState::Backoff => StateModel::Backoff,
            ReaderState::Reconnecting => StateModel::Reconnecting,
            ReaderState::Failed(message) => StateModel::Failed(message@),
            ReaderState::Done => StateModel::Done,
        }
    }
}

/// The state of a [`ReaderEvent`].
pub enum EventModel {
    Pending,
    Polled,
    NoRoom,
    Read(u64),
    ReadFailed(IoErrorModel),
    BackoffElapsed,
    Responded(HeadModel),
    RequestFailed(RequestErrorModel),
}

impl View for ReaderEvent {
    type V = EventModel;

    open spec fn view(&self) -> EventModel {
        match *self {
            ReaderEvent::Pending => EventModel::Pending,
            ReaderEvent::Polled => EventModel::Polled,
            ReaderEvent::NoRoom => EventModel::NoRoom,
            ReaderEvent::Read(bytes) => EventModel::Read(bytes),
            ReaderEvent::ReadFailed(err) => EventModel::ReadFailed(err@),
            ReaderEvent::BackoffElapsed => EventModel::BackoffElapsed,
            ReaderEvent::Responded(head) => EventModel::Responded(head@),
            ReaderEvent::RequestFailed(err) => EventModel::RequestFailed(err@),
        }
    }
}

/// The state of a [`ReaderAction`].
pub enum ActionModel {
    Pending,
    Ready,
    Sleep(Span),
    Request(Seq<char>),
    Stream,
    Propagate(IoErrorModel),
    Fail(Seq<char>),
    Exhausted(Seq<char>, RequestErrorModel),
}

impl View for ReaderAction {
    type V = ActionModel;

    open spec fn view(&self) -> ActionModel {
        match *self {
            ReaderAction::Pending => ActionModel::Pending,
            ReaderAction::Ready => ActionModel::Ready,
            ReaderAction::Sleep(span) => ActionModel::Sleep(span),
            ReaderAction::Request(range) => ActionModel::Request(range@),
            ReaderAction::Stream => ActionModel::Stream,
            ReaderAction::Propagate(err) => ActionModel::Propagate(err@),
            ReaderAction::Fail(message) => ActionModel::Fail(message@),
            ReaderAction::Exhausted(message, err) => ActionModel::Exhausted(message@, err@),
        }
    }
}

/// The state of a [`ResumableReader`].
pub struct ReaderModel {
    /// The number of bytes that the whole content has, if it is known.
    pub content_length: Option<u64>,
    /// The number of bytes that the consumer has got.
    pub bytes_delivered: u64,
    /// Retries of the middleware that the budget has not been told of.
    pub pending_middleware_retries: u32,
    /// The number of Range requests so far.
    pub reconnect_attempts: u32,
    pub state: StateModel,
}

/// The `Range` header that asks for everything from `position` on.
pub open spec fn range_header(position: nat) -> Seq<char> {
    "bytes="@ + decimal(position) + "-"@
}

/// Why a response with this head does not continue the download, if it does not.
pub open spec fn reconnect_objection(content_length: Option<u64>, head: HeadModel) -> Option<
    Seq<char>,
> {
    if head.status != PARTIAL_CONTENT {
        Some("expected 206 Partial Content for resumed download, got "@ + status_display(head.status))
    } else {
        match (content_length, head.total_size()) {
            (Some(expected), Some(total)) => if total != expected {
                Some(
                    "server reports inconsistent total size: expected "@ + decimal(expected as nat)
                        + ", got "@ + decimal(total as nat),
                )
            } else {
                None
            },
            _ => None,
        }
    }
}

impl ReaderModel {
    /// Whether the end of the body has come before that of the content.
    pub open spec fn is_short(self) -> bool {
        self.content_length matches Some(expected) && self.bytes_delivered < expected
    }

    /// A reader that has finished has delivered all the bytes that it expects.
    pub open spec fn well_formed(self) -> bool {
        self.state is Done ==> !self.is_short()
    }

    /// Whether the event can come in this state.
    pub open spec fn expects(self, event: EventModel) -> bool {
        match event {
            EventModel::Pending => !(self.state is Failed || self.state is Done),
            EventModel::Polled => self.state is Failed || self.state is Done,
            EventModel::NoRoom => self.state is Reading,
            EventModel::Read(_) => self.state is Reading,
            EventModel::ReadFailed(_) => self.state is Reading,
            EventModel::BackoffElapsed => self.state is Backoff,
            EventModel::Responded(_) => self.state is Reconnecting,
            EventModel::RequestFailed(_) => self.state is Reconnecting,
        }
    }

    /// Whether the counters can take the event without overflow.
    pub open spec fn has_room_for(self, event: EventModel) -> bool {
        match event {
            EventModel::Read(bytes) => self.bytes_delivered + bytes <= u64::MAX,
            EventModel::BackoffElapsed => self.reconnect_attempts < u32::MAX,
            EventModel::Responded(head) => reconnect_objection(self.content_length, head) is None
                ==> self.pending_middleware_retries + head.middleware_retries() <= u32::MAX,
            _ => true,
        }
    }

    /// Whether the event calls for a retry, so that the budget is asked: the body ended early, it
    /// failed with an error that the classifier finds transient, or a Range request failed.
    pub open spec fn wants_retry(self, event: EventModel) -> bool {
        match event {
            EventModel::Read(bytes) => bytes == 0 && self.is_short(),
            EventModel::ReadFailed(err) => chain_verdict(err.layers()) == Some(
                Retryable::Transient,
            ),
            EventModel::RequestFailed(_) => true,
            _ => false,
        }
    }

    /// The retries made below that the budget is told of when it is asked on this event: those that
    /// are pending, and those of the request that has just failed.
    pub open spec fn retries_below(self, event: EventModel) -> nat {
        match event {
            EventModel::RequestFailed(err) => self.pending_middleware_retries as nat
                + err.retries as nat,
            _ => self.pending_middleware_retries as nat,
        }
    }

    /// The reader after it has been given a pause before the next try.
    pub open spec fn paused(self) -> ReaderModel {
        ReaderModel { pending_middleware_retries: 0, state: StateModel::Backoff, ..self }
    }

    /// The reader after it has been refused another try.
    pub open spec fn refused(self, message: Seq<char>) -> ReaderModel {
        ReaderModel { pending_middleware_retries: 0, state: StateModel::Failed(message), ..self }
    }

    /// What the reader does on an event, and its state after. `backoff` is the answer of the retry
    /// budget, which counts only where the event calls for a retry.
    pub open spec fn step(self, event: EventModel, backoff: Option<Span>) -> (
        ReaderModel,
        ActionModel,
    ) {
        match event {
            EventModel::Pending => (self, ActionModel::Pending),
            EventModel::Polled => match self.state {
                StateModel::Failed(message) => (
                    ReaderModel { state: StateModel::Failed(Seq::empty()), ..self },
                    ActionModel::Fail(message),
                ),
                _ => (self, ActionModel::Ready),
            },
            EventModel::NoRoom => (self, ActionModel::Ready),
            EventModel::Read(bytes) => if bytes > 0 {
                (
                    ReaderModel {
                        bytes_delivered: (self.bytes_delivered + bytes) as u64,
                        ..self
                    },
                    ActionModel::Ready,
                )
            } else if self.is_short() {
                match backoff {
                    Some(span) => (self.paused(), ActionModel::Sleep(span)),
                    None => (
                        self.refused(Seq::empty()),
                        ActionModel::Fail(
                            "retry budget exhausted while recovering from premature EOF"@,
                        ),
                    ),
                }
            } else {
                (ReaderModel { state: StateModel::Done, ..self }, ActionModel::Ready)
            },
            EventModel::ReadFailed(err) => if chain_verdict(err.layers()) == Some(
                Retryable::Transient,
            ) {
                match backoff {
                    Some(span) => (self.paused(), ActionModel::Sleep(span)),
                    None => (
                        self.refused(
                            "retry budget exhausted after transient stream error: "@ + err.message,
                        ),
                        ActionModel::Propagate(err),
                    ),
                }
            } else {
                (
                    ReaderModel {
                        state: StateModel::Failed("non-transient stream error: "@ + err.message),
                        ..self
                    },
                    ActionModel::Propagate(err),
                )
            },
            EventModel::BackoffElapsed => (
                ReaderModel {
                    reconnect_attempts: (self.reconnect_attempts + 1) as u32,
                    state: StateModel::Reconnecting,
                    ..self
                },
                ActionModel::Request(range_header(self.bytes_delivered as nat)),
            ),
            EventModel::Responded(head) => match reconnect_objection(self.content_length, head) {
                Some(message) => (
                    ReaderModel { state: StateModel::Failed(message), ..self },
                    ActionModel::Fail(message),
                ),
                None => (self.resumed(head), ActionModel::Stream),
            },
            EventModel::RequestFailed(err) => match backoff {
                Some(span) => (self.paused(), ActionModel::Sleep(span)),
                None => {
                    let report = exhausted_message(self.reconnect_attempts, err.message);
                    (self.refused(report), ActionModel::Exhausted(report, err))
                },
            },
        }
    }

    /// The reader after a response that continues the download.
    pub open spec fn resumed(self, head: HeadModel) -> ReaderModel {
        ReaderModel {
            pending_middleware_retries: (self.pending_middleware_retries
                + head.middleware_retries()) as u32,
            state: StateModel::Reading,
            ..self
        }
    }
}

/// The message of a download that has run out of retries while it reconnected.
pub open spec fn exhausted_message(attempts: u32, message: Seq<char>) -> Seq<char> {
    "retry budget exhausted after "@ + decimal(attempts as nat) + " reconnection attempt(s): "@
        + message
}

/// The layers of the error that stands for a lost connection when the budget is asked.
pub open spec fn lost_connection() -> Seq<ErrorLayer> {
    seq![ErrorLayer::Io(IoErrorKind::ConnectionReset)]
}

/// The error that stands for a lost connection when the budget is asked.
fn lost_connection_error() -> (err: ErrorChain)
    ensures
        err@ == lost_connection(),
{
    let err: ErrorChain = ErrorChain {
        error: ErrorLayer::Io(IoErrorKind::ConnectionReset),
        sources: Vec::new(),
    };
    assert(err@ =~= lost_connection());
    err
}

/// A download that resumes from HTTP `Range` requests on transient failures.
///
/// Whether an error of the body is worth a reconnect is what [`retryable_on_request_failure`] says
/// of it and its sources. Once the shared retry budget is exhausted, the consumer gets the last
/// network error so that it can report it.
#[derive(Debug)]
pub struct ResumableReader {
    /// Expected total bytes from the initial response's `Content-Length`, if known.
    content_length: Option<u64>,
    /// Byte offset already delivered to the downstream consumer.
    bytes_delivered: u64,
    /// Middleware retries accumulated across reconnection requests, pending consumption by the next
    /// question to the retry budget.
    pending_middleware_retries: u32,
    /// Number of reconnection attempts issued.
    reconnect_attempts: u32,
    /// Current state.
    state: ReaderState,
}

impl View for ResumableReader {
    type V = ReaderModel;

    closed spec fn view(&self) -> ReaderModel {
        ReaderModel {
            content_length: self.content_length,
            bytes_delivered: self.bytes_delivered,
            pending_middleware_retries: self.pending_middleware_retries,
            reconnect_attempts: self.reconnect_attempts,
            state: self.state@,
        }
    }
}

/// The reader that an initial response opens.
pub open spec fn opened(head: HeadModel) -> ReaderModel {
    ReaderModel {
        content_length: head.content_length,
        bytes_delivered: 0,
        pending_middleware_retries: head.middleware_retries(),
        reconnect_attempts: 0,
        state: StateModel::Reading,
    }
}

/// Whether `reader` is what a response with this head leads to: a reader if the server serves
/// ranges, else the error that says it does not.
pub open spec fn is_opening(
    head: HeadModel,
    reader: Result<ResumableReader, ResumableError>,
) -> bool {
    match reader {
        Ok(reader) => head.advertises_ranges() && reader@ == opened(head),
        Err(err) => !head.advertises_ranges() && err is RangeNotSupported,
    }
}

impl ResumableReader {
    /// Creates a new resumable reader from an initial successful HTTP response.
    pub fn new(initial_response: &ResponseHead) -> (reader: Result<ResumableReader, ResumableError>)
        ensures
            is_opening(initial_response@, reader),
    {
        if !initial_response.supports_range_requests() {
            return Err(ResumableError::RangeNotSupported);
        }
        Ok(
            ResumableReader {
                content_length: initial_response.content_length,
                bytes_delivered: 0,
                pending_middleware_retries: initial_response.middleware_retries(),
                reconnect_attempts: 0,
                state: ReaderState::Reading,
            },
        )
    }

    /// Returns `true` if the given I/O error came from a stream-level network failure that a
    /// Range-based reconnect could recover from, going by its kind alone.
    pub fn is_transient_error(err: &IoError) -> (transient: bool)
        ensures
            transient == is_network_kind(err.kind),
    {
        check_network_kind(err.kind)
    }

    /// Whether an error of the body is worth a reconnect: its kind says so, or an error behind it
    /// does, as a reset of an HTTP/2 stream that has no kind of its own.
    fn is_recoverable(err: &IoError) -> (recoverable: bool)
        ensures
            recoverable == (chain_verdict(err@.layers()) == Some(Retryable::Transient)),
    {
        if Self::is_transient_error(err) {
            assert(is_transient_layer(err@.layers()[0]));
            return true;
        }
        retryable_on_request_failure(&err.chain()) == Some(Retryable::Transient)
    }

    /// Consults the shared retry budget for a backoff duration, accounting for any middleware
    /// retries already incurred: those of earlier requests that are pending, and the
    /// `request_retries` of the in-flight request if it has failed.
    pub fn next_backoff(&mut self, retry_state: &mut RetryState, request_retries: u32) -> (backoff:
        Option<Span>)
        requires
            old(retry_state)@.can_ask(
                lost_connection(),
                old(self)@.pending_middleware_retries as nat + request_retries as nat,
            ),
        ensures
            backoff is Some <==> old(retry_state)@.grants(
                lost_connection(),
                old(self)@.pending_middleware_retries as nat + request_retries as nat,
            ),
            backoff matches Some(span) ==> exists|now: SystemTime| #[trigger]
                old(retry_state)@.sets_wait(
                    old(self)@.pending_middleware_retries as nat + request_retries as nat,
                    now,
                    span,
                ),
            final(self)@ == (ReaderModel { pending_middleware_retries: 0, ..old(self)@ }),
            final(retry_state)@ == old(retry_state)@.asked(
                lost_connection(),
                old(self)@.pending_middleware_retries as nat + request_retries as nat,
            ),
            final(retry_state)@.total_retries == old(retry_state)@.total_retries + old(
                self,
            )@.pending_middleware_retries + request_retries + if backoff is Some {
                1int
            } else {
                0
            },
    {
        let retries: u32 = self.pending_middleware_retries + request_retries;
        self.pending_middleware_retries = 0;
        // The error has been found transient already, so the budget is asked with one of that kind.
        let synthetic: ErrorChain = lost_connection_error();
        retry_state.should_retry(&synthetic, retries)
    }

    /// Begins a Range request that resumes from the bytes delivered, and returns its header.
    pub fn start_reconnect(&mut self) -> (range: String)
        requires
            old(self)@.reconnect_attempts < u32::MAX,
        ensures
            range@ == range_header(old(self)@.bytes_delivered as nat),
            final(self)@ == (ReaderModel {
                reconnect_attempts: (old(self)@.reconnect_attempts + 1) as u32,
                state: StateModel::Reconnecting,
                ..old(self)@
            }),
    {
        self.reconnect_attempts = self.reconnect_attempts + 1;
        self.state = ReaderState::Reconnecting;
        "bytes=".to_owned().concat(write_decimal(self.bytes_delivered).as_str()).concat("-")
    }

    /// Why a response does not continue the download, if it does not.
    fn objection(&self, response: &ResponseHead) -> (message: Option<String>)
        requires
            response.well_formed(),
        ensures
            match reconnect_objection(self@.content_length, response@) {
                Some(objection) => message matches Some(text) && text@ == objection,
                None => message is None,
            },
    {
        if response.status != PARTIAL_CONTENT {
            return Some(
                "expected 206 Partial Content for resumed download, got ".to_owned().concat(
                    status_text(response.status).as_str(),
                ),
            );
        }
        // Confirm the server's reported total size matches the original Content-Length.
        if let (Some(expected), Some(total)) = (self.content_length, response.total_size()) {
            if total != expected {
                return Some(
                    "server reports inconsistent total size: expected ".to_owned().concat(
                        write_decimal(expected).as_str(),
                    ).concat(", got ").concat(write_decimal(total).as_str()),
                );
            }
        }
        None
    }

    /// Validates a reconnect response and transitions back to reading.
    pub fn handle_reconnect_response(&mut self, response: &ResponseHead) -> (result: Result<
        (),
        String,
    >)
        requires
            response.well_formed(),
            reconnect_objection(old(self)@.content_length, response@) is None ==> old(
                self,
            )@.pending_middleware_retries + response@.middleware_retries() <= u32::MAX,
        ensures
            match reconnect_objection(old(self)@.content_length, response@) {
                Some(message) => result matches Err(text) && text@ == message && final(self)@
                    == old(self)@,
                None => result is Ok && final(self)@ == old(self)@.resumed(response@),
            },
            result is Ok <==> response.status == 206 && (old(self)@.content_length is None
                || response@.total_size() is None || old(self)@.content_length
                == response@.total_size()),
            result is Ok ==> final(self)@.state is Reading,
            final(self)@.content_length == old(self)@.content_length,
            final(self)@.bytes_delivered == old(self)@.bytes_delivered,
            final(self)@.reconnect_attempts == old(self)@.reconnect_attempts,
    {
        if let Some(message) = self.objection(response) {
            return Err(message);
        }
        // Accumulate middleware retries from the successful reconnection.
        self.pending_middleware_retries = self.pending_middleware_retries
            + response.middleware_retries();
        self.state = ReaderState::Reading;
        Ok(())
    }

    /// What the reader is doing.
    pub fn state(&self) -> (state: &ReaderState)
        ensures
            state@ == self@.state,
    {
        &self.state
    }

    /// The number of bytes that the whole content has, if it is known.
    pub fn content_length(&self) -> (length: Option<u64>)
        ensures
            length == self@.content_length,
    {
        self.content_length
    }

    /// The number of bytes that the consumer has got.
    pub fn bytes_delivered(&self) -> (bytes: u64)
        ensures
            bytes == self@.bytes_delivered,
    {
        self.bytes_delivered
    }

    /// The number of Range requests so far.
    pub fn reconnect_attempts(&self) -> (attempts: u32)
        ensures
            attempts == self@.reconnect_attempts,
    {
        self.reconnect_attempts
    }

    /// Checks that the reader can be told of an event.
    pub fn accepts(&self, event: &ReaderEvent) -> (accepted: bool)
        ensures
            accepted == {
                &&& self@.expects(event@)
                &&& self@.has_room_for(event@)
                &&& *event matches ReaderEvent::Responded(head) ==> head.well_formed()
            },
    {
        match (event, &self.state) {
            (ReaderEvent::Pending, ReaderState::Failed(_) | ReaderState::Done) => false,
            (ReaderEvent::Pending, _) => true,
            (ReaderEvent::Polled, ReaderState::Failed(_) | ReaderState::Done) => true,
            (ReaderEvent::NoRoom, ReaderState::Reading) => true,
            (ReaderEvent::Read(bytes), ReaderState::Reading) => self.bytes_delivered.checked_add(
                *bytes,
            ).is_some(),
            (ReaderEvent::ReadFailed(_), ReaderState::Reading) => true,
            (ReaderEvent::BackoffElapsed, ReaderState::Backoff) => self.reconnect_attempts
                < u32::MAX,
            (ReaderEvent::Responded(head), ReaderState::Reconnecting) => {
                head.status >= 100 && head.status <= 999 && (self.objection(head).is_some()
                    || self.pending_middleware_retries.checked_add(
                    head.middleware_retries(),
                ).is_some())
            },
            (ReaderEvent::RequestFailed(_), ReaderState::Reconnecting) => true,
            _ => false,
        }
    }

    /// Checks that the retry budget can be asked for a backoff on an event.
    pub fn can_back_off(&self, retry_state: &RetryState, event: &ReaderEvent) -> (checked: bool)
        ensures
            checked == retry_state@.can_ask(lost_connection(), self@.retries_below(event@)),
    {
        match self.pending_middleware_retries.checked_add(Self::request_retries(event)) {
            Some(retries) => retry_state.can_ask(&lost_connection_error(), retries),
            None => false,
        }
    }

    /// The retries that the middleware made for the request that has failed, if one has.
    fn request_retries(event: &ReaderEvent) -> (retries: u32)
        ensures
            retries == (match event@ {
                EventModel::RequestFailed(err) => err.retries,
                _ => 0,
            }),
    {
        match event {
            ReaderEvent::RequestFailed(err) => err.retries,
            _ => 0,
        }
    }

    /// Whether the event calls for a retry, so that the budget has to be asked.
    pub fn wants_retry(&self, event: &ReaderEvent) -> (wanted: bool)
        ensures
            wanted == self@.wants_retry(event@),
    {
        match event {
            ReaderEvent::Read(bytes) => *bytes == 0 && self.is_short(),
            ReaderEvent::ReadFailed(err) => Self::is_recoverable(err),
            ReaderEvent::RequestFailed(_) => true,
            _ => false,
        }
    }

    /// Whether the end of the body has come before that of the content.
    fn is_short(&self) -> (short: bool)
        ensures
            short == self@.is_short(),
    {
        match self.content_length {
            Some(expected) => self.bytes_delivered < expected,
            None => false,
        }
    }

    /// Acts on an event: asks the shared retry budget where the event calls for a retry, then moves
    /// to the next state and says what to do.
    pub fn poll_read(&mut self, retry_state: &mut RetryState, event: ReaderEvent) -> (action:
        ReaderAction)
        requires
            old(self)@.well_formed(),
            old(self)@.expects(event@),
            old(self)@.has_room_for(event@),
            event matches ReaderEvent::Responded(head) ==> head.well_formed(),
            old(self)@.wants_retry(event@) ==> old(retry_state)@.can_ask(
                lost_connection(),
                old(self)@.retries_below(event@),
            ),
        ensures
            final(self)@.well_formed(),
            exists|backoff: Option<Span>|
                {
                    &&& (final(self)@, action@) == #[trigger] old(self)@.step(event@, backoff)
                    &&& old(self)@.wants_retry(event@) ==> (backoff is Some <==> old(
                        retry_state,
                    )@.grants(lost_connection(), old(self)@.retries_below(event@)))
                    &&& backoff matches Some(span) ==> exists|now: SystemTime| #[trigger]
                        old(retry_state)@.sets_wait(old(self)@.retries_below(event@), now, span)
                },
            final(retry_state)@ == (if old(self)@.wants_retry(event@) {
                old(retry_state)@.asked(lost_connection(), old(self)@.retries_below(event@))
            } else {
                old(retry_state)@
            }),
            final(self)@.content_length == old(self)@.content_length,
            final(self)@.bytes_delivered == old(self)@.bytes_delivered + (match event {
                ReaderEvent::Read(bytes) => bytes as int,
                _ => 0,
            }),
            final(retry_state)@.total_retries >= old(retry_state)@.total_retries,
            event matches ReaderEvent::RequestFailed(err) ==> final(retry_state)@.total_retries
                == old(retry_state)@.total_retries + old(self)@.pending_middleware_retries
                + err.retries + (if action@ is Sleep {
                1int
            } else {
                0
            }),
    {
        let backoff: Option<Span> = if self.wants_retry(&event) {
            self.next_backoff(retry_state, Self::request_retries(&event))
        } else {
            None
        };
        let action: ReaderAction = self.advance(event, backoff);
        assert((self@, action@) == old(self)@.step(event@, backoff));
        action
    }

    /// Moves to the next state and says what to do, given the answer of the retry budget. The answer
    /// counts only where the event calls for a retry.
    pub fn advance(&mut self, event: ReaderEvent, backoff: Option<Span>) -> (action: ReaderAction)
        requires
            old(self)@.expects(event@),
            old(self)@.has_room_for(event@),
            event matches ReaderEvent::Responded(head) ==> head.well_formed(),
        ensures
            (final(self)@, action@) == old(self)@.step(event@, backoff),
    {
        match event {
            ReaderEvent::Pending => ReaderAction::Pending,
            ReaderEvent::Polled => self.finish(),
            ReaderEvent::NoRoom => ReaderAction::Ready,
            ReaderEvent::Read(bytes) => {
                if bytes > 0 {
                    self.bytes_delivered = self.bytes_delivered + bytes;
                    return ReaderAction::Ready;
                }
                if !self.is_short() {
                    self.state = ReaderState::Done;
                    return ReaderAction::Ready;
                }
                // The body ended early, which is taken for a transient failure.
                match backoff {
                    Some(span) => self.pause(span),
                    None => {
                        self.refuse(String::new());
                        ReaderAction::Fail(
                            "retry budget exhausted while recovering from premature EOF".to_owned(),
                        )
                    },
                }
            },
            ReaderEvent::ReadFailed(err) => {
                if !Self::is_recoverable(&err) {
                    self.state = ReaderState::Failed(
                        "non-transient stream error: ".to_owned().concat(err.message.as_str()),
                    );
                    return ReaderAction::Propagate(err);
                }
                match backoff {
                    Some(span) => self.pause(span),
                    None => {
                        self.refuse(
                            "retry budget exhausted after transient stream error: ".to_owned().concat(
                                err.message.as_str(),
                            ),
                        );
                        ReaderAction::Propagate(err)
                    },
                }
            },
            ReaderEvent::BackoffElapsed => ReaderAction::Request(self.start_reconnect()),
            ReaderEvent::Responded(response) => match self.handle_reconnect_response(&response) {
                Ok(()) => ReaderAction::Stream,
                Err(message) => {
                    self.state = ReaderState::Failed(message.clone());
                    ReaderAction::Fail(message)
                },
            },
            ReaderEvent::RequestFailed(err) => match backoff {
                Some(span) => self.pause(span),
                None => {
                    let message: String = "retry budget exhausted after ".to_owned().concat(
                        write_decimal(self.reconnect_attempts as u64).as_str(),
                    ).concat(" reconnection attempt(s): ").concat(err.message.as_str());
                    self.refuse(message.clone());
                    ReaderAction::Exhausted(message, err)
                },
            },
        }
    }

    /// Pauses before the next try.
    fn pause(&mut self, span: Span) -> (action: ReaderAction)
        ensures
            final(self)@ == old(self)@.paused(),
            action@ == ActionModel::Sleep(span),
    {
        self.pending_middleware_retries = 0;
        self.state = ReaderState::Backoff;
        ReaderAction::Sleep(span)
    }

    /// Gives up, since there are no tries left.
    fn refuse(&mut self, message: String)
        ensures
            final(self)@ == old(self)@.refused(message@),
    {
        self.pending_middleware_retries = 0;
        self.state = ReaderState::Failed(message);
    }

    /// Answers a poll after the end: a failure surfaces its message once.
    fn finish(&mut self) -> (action: ReaderAction)
        requires
            old(self)@.expects(EventModel::Polled),
        ensures
            (final(self)@, action@) == old(self)@.step(EventModel::Polled, None),
    {
        if let ReaderState::Done = self.state {
            return ReaderAction::Ready;
        }
        let mut state: ReaderState = ReaderState::Failed(String::new());
        std::mem::swap(&mut state, &mut self.state);
        match state {
            ReaderState::Failed(message) => ReaderAction::Fail(message),
            _ => ReaderAction::Ready,
        }
    }
}

} // verus!
