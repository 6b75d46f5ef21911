//! What a failed request leaves behind: an error, and behind it the errors that caused it.

use vstd::prelude::*;

use crate::laws::classifier::{law_kind_without_nested_io_error, law_nested_kind_is_kept};
use crate::retry::Retryable;
use crate::trusted::{
    default_on_request_error, error_status, error_verdict, request_error_status,
};

verus! {

/// The kinds of I/O error that the standard library tells apart.
#[derive(Clone, Copy, Debug, PartialEq, Eq, Structural)]
pub enum IoErrorKind {
    NotFound,
    PermissionDenied,
    ConnectionRefused,
    ConnectionReset,
    HostUnreachable,
    NetworkUnreachable,
    ConnectionAborted,
    NotConnected,
    AddrInUse,
    AddrNotAvailable,
    NetworkDown,
    BrokenPipe,
    AlreadyExists,
    WouldBlock,
    NotADirectory,
    IsADirectory,
    DirectoryNotEmpty,
    ReadOnlyFilesystem,
    StaleNetworkFileHandle,
    InvalidInput,
    InvalidData,
    TimedOut,
    WriteZero,
    StorageFull,
    NotSeekable,
    QuotaExceeded,
    FileTooLarge,
    ResourceBusy,
    ExecutableFileBusy,
    Deadlock,
    CrossesDevices,
    TooManyLinks,
    InvalidFilename,
    ArgumentListTooLong,
    Interrupted,
    Unsupported,
    UnexpectedEof,
    OutOfMemory,
    Other,
    /// A kind that the standard library has no stable name for.
    Uncategorized,
}

/// What the retry logic reads of a `reqwest::Error`.
#[derive(Clone, Copy, Debug, PartialEq, Eq, Structural)]
pub struct ReqwestFailure {
    /// The status code, where the error was made from a response.
    pub status: Option<u16>,
    /// What `reqwest_retry` makes of the error.
    pub default_verdict: Option<Retryable>,
}

/// An error of the client that wraps one of `reqwest`, if there is one inside.
#[derive(Clone, Copy, Debug, PartialEq, Eq, Structural)]
pub struct WrappedReqwestError {
    pub inner: Option<ReqwestFailure>,
}

/// An error of `reqwest_middleware`.
#[derive(Clone, Copy, Debug, PartialEq, Eq, Structural)]
pub enum MiddlewareError {
    /// Some middleware failed.
    Middleware,
    /// The client below the middleware failed.
    Reqwest(ReqwestFailure),
}

/// One error of a chain, as far as the retry logic tells errors apart.
#[derive(Clone, Copy, Debug, PartialEq, Eq, Structural)]
pub enum ErrorLayer {
    Reqwest(ReqwestFailure),
    WrappedReqwest(WrappedReqwestError),
    Middleware(MiddlewareError),
    /// Any error of the HTTP/2 layer.
    H2,
    Io(IoErrorKind),
    /// An error of some other type.
    Other,
}

/// An error together with its sources: the first is the source of the error itself, and each
/// further one is the source of the one before it. An I/O error that carries another error has that
/// one as its source.
#[derive(Debug)]
pub struct ErrorChain {
    pub error: ErrorLayer,
    pub sources: Vec<ErrorLayer>,
}

impl View for ErrorChain {
    type V = Seq<ErrorLayer>;

    /// The error, then its sources.
    open spec fn view(&self) -> Seq<ErrorLayer> {
        seq![self.error] + self.sources@
    }
}

/// An I/O error as the consumer of a stream sees it.
#[derive(Debug)]
pub struct IoError {
    pub kind: IoErrorKind,
    /// What the error displays as.
    pub message: String,
    /// The sources of the error, the nearest first.
    pub sources: Vec<ErrorLayer>,
}

/// The state of an [`IoError`].
pub struct IoErrorModel {
    pub kind: IoErrorKind,
    pub message: Seq<char>,
    pub sources: Seq<ErrorLayer>,
}

impl IoErrorModel {
    /// The error, then its sources.
    pub open spec fn layers(self) -> Seq<ErrorLayer> {
        seq![ErrorLayer::Io(self.kind)] + self.sources
    }
}

impl View for IoError {
    type V = IoErrorModel;

    open spec fn view(&self) -> IoErrorModel {
        IoErrorModel { kind: self.kind, message: self.message@, sources: self.sources@ }
    }
}

impl IoError {
    /// The error and its sources, for the search.
    pub fn chain(&self) -> (chain: ErrorChain)
        ensures
            chain@ == self@.layers(),
    {
        let sources: Vec<ErrorLayer> = self.sources.clone();
        assert(sources@ =~= self.sources@);
        ErrorChain { error: ErrorLayer::Io(self.kind), sources }
    }
}

/// An error of a request that was sent and not answered.
#[derive(Debug)]
pub struct RequestError {
    /// What the error displays as.
    pub message: String,
    /// The number of retries that the middleware made before it gave up.
    pub retries: u32,
}

/// The state of a [`RequestError`].
pub struct RequestErrorModel {
    pub message: Seq<char>,
    pub retries: u32,
}

impl View for RequestError {
    type V = RequestErrorModel;

    open spec fn view(&self) -> RequestErrorModel {
        RequestErrorModel { message: self.message@, retries: self.retries }
    }
}

/// A type of error that can be looked for in a chain.
pub trait SourceError: Sized {
    /// The error that the layer is, if it is one of this type.
    spec fn downcast(layer: ErrorLayer) -> Option<Self>;

    fn downcast_ref(layer: &ErrorLayer) -> (found: Option<&Self>)
        ensures
            match found {
                Some(err) => Self::downcast(*layer) == Some(*err),
                None => Self::downcast(*layer) is None,
            },
    ;
}

impl SourceError for IoErrorKind {
    open spec fn downcast(layer: ErrorLayer) -> Option<Self> {
        match layer {
            ErrorLayer::Io(kind) => Some(kind),
            _ => None,
        }
    }

    fn downcast_ref(layer: &ErrorLayer) -> (found: Option<&Self>) {
        match layer {
            ErrorLayer::Io(kind) => Some(kind),
            _ => None,
        }
    }
}

impl SourceError for WrappedReqwestError {
    open spec fn downcast(layer: ErrorLayer) -> Option<Self> {
        match layer {
            ErrorLayer::WrappedReqwest(err) => Some(err),
            _ => None,
        }
    }

    fn downcast_ref(layer: &ErrorLayer) -> (found: Option<&Self>) {
        match layer {
            ErrorLayer::WrappedReqwest(err) => Some(err),
            _ => None,
        }
    }
}

/// The first error of type `E` among the sources.
pub open spec fn first_source<E: SourceError>(sources: Seq<ErrorLayer>) -> Option<E>
    decreases sources.len(),
{
    if sources.len() == 0 {
        None
    } else {
        match E::downcast(sources[0]) {
            Some(err) => Some(err),
            None => first_source(sources.drop_first()),
        }
    }
}

/// Finds the first source error of a specific type. The error itself does not count.
pub fn find_source<E: SourceError>(orig: &ErrorChain) -> (found: Option<&E>)
    ensures
        match found {
            Some(err) => first_source::<E>(orig.sources@) == Some(*err),
            None => first_source::<E>(orig.sources@) is None,
        },
{
    let mut i: usize = 0;
    assert(orig.sources@.skip(0) =~= orig.sources@);
    while i < orig.sources.len()
        invariant
            i <= orig.sources@.len(),
            first_source::<E>(orig.sources@) == first_source::<E>(orig.sources@.skip(i as int)),
        decreases orig.sources@.len() - i,
    {
        assert(orig.sources@.skip(i as int).drop_first() =~= orig.sources@.skip(i + 1));
        if let Some(typed) = E::downcast_ref(&orig.sources[i]) {
            return Some(typed);
        }
        i = i + 1;
    }
    None
}

/// The I/O error kind that stands for a chain: that of the first I/O error among the sources.
pub open spec fn io_kind(sources: Seq<ErrorLayer>) -> IoErrorKind {
    match first_source::<IoErrorKind>(sources) {
        Some(kind) => kind,
        None => IoErrorKind::Other,
    }
}

/// Converts a `reqwest` error into an I/O error that keeps the kind of the I/O error nested in it,
/// so that whoever reads the stream can tell a lost connection from another failure. The original
/// error and its sources stay behind the new one. Without a nested I/O error the kind is `Other`.
pub fn reqwest_error_to_io_error(err: ErrorChain) -> (converted: ErrorChain)
    ensures
        converted@ == seq![ErrorLayer::Io(io_kind(err.sources@))] + err@,
        converted.error is Io,
        converted.sources@ == seq![err.error] + err.sources@,
        forall|i: int|
            0 <= i < err.sources@.len() && #[trigger] err.sources@[i] is Io && (forall|j: int|
                0 <= j < i ==> !(#[trigger] err.sources@[j] is Io)) ==> converted.error
                == err.sources@[i],
        (forall|i: int| 0 <= i < err.sources@.len() ==> !(#[trigger] err.sources@[i] is Io))
            ==> converted.error == ErrorLayer::Io(IoErrorKind::Other),
{
    let ghost layers = err.sources@;
    proof {
        assert forall|i: int|
            0 <= i < layers.len() && #[trigger] layers[i] is Io && (forall|j: int|
                0 <= j < i ==> !(#[trigger] layers[j] is Io)) implies layers[i] == ErrorLayer::Io(
            io_kind(layers),
        ) by {
            law_nested_kind_is_kept(layers, i, layers[i]->Io_0);
        }
        if forall|i: int| 0 <= i < layers.len() ==> !(#[trigger] layers[i] is Io) {
            law_kind_without_nested_io_error(layers);
        }
    }
    let kind: IoErrorKind = match find_source::<IoErrorKind>(&err) {
        Some(inner) => *inner,
        None => IoErrorKind::Other,
    };
    let mut sources: Vec<ErrorLayer> = err.sources;
    let ghost before = sources@;
    sources.insert(0, err.error);
    assert(sources@ =~= seq![err.error] + before);
    ErrorChain { error: ErrorLayer::Io(kind), sources }
}

impl ReqwestFailure {
    /// An error that was made from a response has the status of a client error or a server error,
    /// and `reqwest_retry` does not judge it.
    pub open spec fn well_formed(self) -> bool {
        self.status matches Some(status) ==> 400 <= status < 600 && self.default_verdict is None
    }

    /// Reads what the retry logic needs off an error of `reqwest`.
    pub fn read(err: &reqwest::Error) -> (failure: ReqwestFailure)
        ensures
            failure.well_formed(),
            failure.status == error_status(*err),
            failure.default_verdict == error_verdict(*err),
    {
        ReqwestFailure {
            status: request_error_status(err),
            default_verdict: default_on_request_error(err),
        }
    }
}

} // verus!
