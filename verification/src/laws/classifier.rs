//! Which errors and responses are worth another try, and what is kept of an error that is converted.

use vstd::prelude::*;

use crate::error::{
    first_source, io_kind, ErrorChain, ErrorLayer, IoError, IoErrorKind, MiddlewareError,
    ReqwestFailure, SourceError, WrappedReqwestError,
};
use crate::response::ResponseHead;
use crate::retry::{
    chain_verdict, is_network_kind, is_retryable_status, is_transient_layer, outcome_verdict,
    reqwest_failure, Retryable,
};

verus! {

/// A chain is transient exactly if one of its errors, taken alone, is.
pub proof fn law_chain_is_judged_by_its_layers(layers: Seq<ErrorLayer>)
    ensures
        chain_verdict(layers) == Some(Retryable::Transient) <==> exists|i: int|
            0 <= i < layers.len() && chain_verdict(seq![#[trigger] layers[i]]) == Some(
                Retryable::Transient,
            ),
        chain_verdict(layers) != Some(Retryable::Transient) <==> chain_verdict(layers) is None,
{
    assert forall|i: int| 0 <= i < layers.len() implies (chain_verdict(
        seq![#[trigger] layers[i]],
    ) == Some(Retryable::Transient)) == is_transient_layer(layers[i]) by {
        lemma_lone_layer(layers[i]);
    }
}

/// An error alone is transient exactly if its layer is.
proof fn lemma_lone_layer(layer: ErrorLayer)
    ensures
        chain_verdict(seq![layer]) == if is_transient_layer(layer) {
            Some(Retryable::Transient)
        } else {
            None
        },
{
    let lone = seq![layer];
    assert(lone[0] == layer);
    if is_transient_layer(layer) {
        assert(is_transient_layer(lone[0]));
    }
}

/// An I/O error alone is retried if its kind is one of a connection that was lost on the way, and
/// not otherwise.
pub proof fn law_lone_io_error(kind: IoErrorKind)
    ensures
        chain_verdict(seq![ErrorLayer::Io(kind)]) == if kind == IoErrorKind::BrokenPipe || kind
            == IoErrorKind::ConnectionAborted || kind == IoErrorKind::ConnectionReset || kind
            == IoErrorKind::InvalidData || kind == IoErrorKind::TimedOut || kind
            == IoErrorKind::UnexpectedEof {
            Some(Retryable::Transient)
        } else {
            None
        },
{
    lemma_lone_layer(ErrorLayer::Io(kind));
}

/// Every error of the HTTP/2 layer is retried. An error that holds none of `reqwest` and is neither of
/// the HTTP/2 layer nor an I/O error is not.
pub proof fn law_lone_error_without_reqwest(layer: ErrorLayer)
    ensures
        layer is H2 ==> chain_verdict(seq![layer]) == Some(Retryable::Transient),
        layer is Other ==> chain_verdict(seq![layer]) is None,
        layer matches ErrorLayer::Middleware(err) ==> err is Middleware ==> chain_verdict(
            seq![layer],
        ) is None,
        layer matches ErrorLayer::WrappedReqwest(err) ==> err.inner is None ==> chain_verdict(
            seq![layer],
        ) is None,
{
    lemma_lone_layer(layer);
}

/// An error of `reqwest` counts the same however it is held: by itself, inside the error of the
/// client, or inside that of the middleware.
pub proof fn law_reqwest_error_counts_alike(failure: ReqwestFailure)
    ensures
        chain_verdict(
            seq![ErrorLayer::WrappedReqwest(WrappedReqwestError { inner: Some(failure) })],
        ) == chain_verdict(seq![ErrorLayer::Reqwest(failure)]),
        chain_verdict(seq![ErrorLayer::Middleware(MiddlewareError::Reqwest(failure))])
            == chain_verdict(seq![ErrorLayer::Reqwest(failure)]),
{
    lemma_lone_layer(ErrorLayer::Reqwest(failure));
    lemma_lone_layer(ErrorLayer::WrappedReqwest(WrappedReqwestError { inner: Some(failure) }));
    lemma_lone_layer(ErrorLayer::Middleware(MiddlewareError::Reqwest(failure)));
}

/// An error of `reqwest` is retried if `reqwest_retry` would do so, or if it was made from a response
/// of an overloaded or failing server; a fatal verdict does not stand in the way of the latter.
pub proof fn law_lone_reqwest_error(failure: ReqwestFailure)
    ensures
        chain_verdict(seq![ErrorLayer::Reqwest(failure)]) == Some(Retryable::Transient) <==> {
            ||| failure.default_verdict == Some(Retryable::Transient)
            ||| failure.status == Some(408u16)
            ||| failure.status == Some(429u16)
            ||| failure.status matches Some(status) && 500 <= status <= 599
        },
{
    lemma_lone_layer(ErrorLayer::Reqwest(failure));
}

/// The kinds of a lost connection are six, and no other kind is one.
pub proof fn law_kinds_of_a_lost_connection(kind: IoErrorKind)
    ensures
        is_network_kind(kind) <==> {
            ||| kind == IoErrorKind::BrokenPipe
            ||| kind == IoErrorKind::ConnectionAborted
            ||| kind == IoErrorKind::ConnectionReset
            ||| kind == IoErrorKind::InvalidData
            ||| kind == IoErrorKind::TimedOut
            ||| kind == IoErrorKind::UnexpectedEof
        },
{
}

/// The status codes that are worth another try are those of a server error and two more.
pub proof fn law_codes_worth_another_try(status: u16)
    ensures
        is_retryable_status(status) <==> status == 408 || status == 429 || 500 <= status <= 599,
{
}

/// What is read off an error of `reqwest` that was made from a response has the status of an error and
/// no verdict.
pub proof fn law_status_errors_have_no_verdict(failure: ReqwestFailure)
    ensures
        failure.well_formed() <==> (failure.status is Some ==> 400 <= failure.status->0 <= 599
            && failure.default_verdict is None),
{
}

/// A response is worth another try, is a success, or is fatal, going by its status code alone.
pub proof fn law_responses_are_judged_by_status(response: ResponseHead)
    ensures
        ({
            let verdict = outcome_verdict(Ok(response));
            let status = response.status;
            &&& verdict == Some(Retryable::Transient) <==> status == 408 || status == 429 || 500
                <= status <= 599
            &&& verdict is None <==> 200 <= status <= 299
        }),
{
}

/// A request that ended with an error gets the verdict of the error's chain.
pub proof fn law_failed_requests_are_judged_by_their_chain(err: ErrorChain)
    ensures
        outcome_verdict(Err(err)) == chain_verdict(err@),
{
}

/// A chain is the error and then its sources in their order, with nothing left out.
pub proof fn law_chain_is_error_then_sources(err: ErrorChain)
    ensures
        err@.len() == err.sources@.len() + 1,
        err@[0] == err.error,
        forall|i: int| 0 <= i < err.sources@.len() ==> err@[i + 1] == #[trigger] err.sources@[i],
{
}

/// What the reader sees of an I/O error is all of it: the kind first, then each source in order.
pub proof fn law_io_error_is_kind_then_sources(err: IoError)
    ensures
        err@.kind == err.kind,
        err@.message == err.message@,
        err@.layers().len() == err.sources@.len() + 1,
        err@.layers()[0] == ErrorLayer::Io(err.kind),
        forall|i: int|
            0 <= i < err.sources@.len() ==> err@.layers()[i + 1] == #[trigger] err.sources@[i],
{
}

/// The search for a source finds the first one of the type: an I/O error gives its kind, the error of
/// the client gives itself, and no other layer counts.
pub proof fn law_layers_are_told_apart(layer: ErrorLayer)
    ensures
        match IoErrorKind::downcast(layer) {
            Some(kind) => layer == ErrorLayer::Io(kind),
            None => !(layer is Io),
        },
        match WrappedReqwestError::downcast(layer) {
            Some(err) => layer == ErrorLayer::WrappedReqwest(err),
            None => !(layer is WrappedReqwest),
        },
{
}

/// A source that has the type, with none of the type in front of it, is the one that is found.
pub proof fn law_first_source_is_found<E: SourceError>(sources: Seq<ErrorLayer>, position: int)
    requires
        0 <= position < sources.len(),
        E::downcast(sources[position]) is Some,
        forall|i: int| 0 <= i < position ==> E::downcast(#[trigger] sources[i]) is None,
    ensures
        first_source::<E>(sources) == E::downcast(sources[position]),
    decreases sources.len(),
{
    if position > 0 {
        assert(E::downcast(sources[0]) is None);
        let rest = sources.drop_first();
        assert forall|i: int| 0 <= i < position - 1 implies E::downcast(#[trigger] rest[i]) is None by {
            assert(rest[i] == sources[i + 1]);
        }
        law_first_source_is_found::<E>(rest, position - 1);
    }
}

/// Nothing is found where no source has the type.
pub proof fn law_missing_source_is_not_found<E: SourceError>(sources: Seq<ErrorLayer>)
    requires
        forall|i: int| 0 <= i < sources.len() ==> E::downcast(#[trigger] sources[i]) is None,
    ensures
        first_source::<E>(sources) is None,
    decreases sources.len(),
{
    if sources.len() > 0 {
        assert(E::downcast(sources[0]) is None);
        let rest = sources.drop_first();
        assert forall|i: int| 0 <= i < rest.len() implies E::downcast(#[trigger] rest[i]) is None by {
            assert(rest[i] == sources[i + 1]);
        }
        law_missing_source_is_not_found::<E>(rest);
    }
}

/// The I/O error that stands for an error of `reqwest` has the kind of the first I/O error among the
/// sources, whichever kind that is.
pub proof fn law_nested_kind_is_kept(sources: Seq<ErrorLayer>, position: int, kind: IoErrorKind)
    requires
        0 <= position < sources.len(),
        sources[position] == ErrorLayer::Io(kind),
        forall|i: int| 0 <= i < position ==> !(#[trigger] sources[i] is Io),
    ensures
        io_kind(sources) == kind,
{
    law_first_source_is_found::<IoErrorKind>(sources, position);
}

/// Without an I/O error among the sources the kind is the one for everything else.
pub proof fn law_kind_without_nested_io_error(sources: Seq<ErrorLayer>)
    requires
        forall|i: int| 0 <= i < sources.len() ==> !(#[trigger] sources[i] is Io),
    ensures
        io_kind(sources) == IoErrorKind::Other,
{
    law_missing_source_is_not_found::<IoErrorKind>(sources);
}

/// A layer holds an error of `reqwest` in one of three ways, and hands out that very error.
pub proof fn law_held_reqwest_error_is_handed_out(layer: ErrorLayer, failure: ReqwestFailure)
    ensures
        reqwest_failure(layer) == Some(failure) <==> {
            ||| layer == ErrorLayer::Reqwest(failure)
            ||| layer == ErrorLayer::WrappedReqwest(WrappedReqwestError { inner: Some(failure) })
            ||| layer == ErrorLayer::Middleware(MiddlewareError::Reqwest(failure))
        },
{
}

} // verus!
