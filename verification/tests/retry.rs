use std::time::{Duration, SystemTime};

use reqwest::StatusCode;
use resumable_http::error::{
    find_source, reqwest_error_to_io_error, ErrorChain, ErrorLayer, IoErrorKind, MiddlewareError,
    ReqwestFailure, WrappedReqwestError,
};
use resumable_http::response::ResponseHead;
use resumable_http::retry::{
    is_retryable_status_error, retryable_on_request_failure, BackoffPolicy, Jitter, RetriableError,
    RetryState, Retryable, Span, UvRetryableStrategy, REQUEST_TIMEOUT, TOO_MANY_REQUESTS,
};

fn response(status: u16) -> reqwest::Response {
    http::Response::builder()
        .status(status)
        .body("")
        .unwrap()
        .into()
}

fn chain(error: ErrorLayer, sources: Vec<ErrorLayer>) -> ErrorChain {
    ErrorChain { error, sources }
}

fn failure(status: Option<u16>, default_verdict: Option<Retryable>) -> ReqwestFailure {
    ReqwestFailure {
        status,
        default_verdict,
    }
}

fn policy(max_n_retries: Option<u32>) -> BackoffPolicy {
    BackoffPolicy {
        max_n_retries,
        min_retry_interval: Span { secs: 1, nanos: 0 },
        max_retry_interval: Span {
            secs: 60,
            nanos: 500,
        },
        jitter: Jitter::Bounded,
        base: 2,
    }
}

fn head(status: u16) -> ResponseHead {
    ResponseHead {
        status,
        accept_ranges: None,
        content_range: None,
        content_length: None,
        retry_count: None,
    }
}

/// The status that a server puts on the wire: of the informational codes only the switch of
/// protocols can end an exchange, and the others are sent as an internal error.
fn served(status: u16) -> u16 {
    if (100..200).contains(&status) && status != 101 {
        500
    } else {
        status
    }
}

/// Enumerate which status codes we are retrying.
#[test]
fn retried_status_codes() {
    let mut retried = Vec::new();
    for status in 100..599 {
        // Test all standard status codes and an example for a non-RFC code used in the wild.
        if StatusCode::from_u16(status)
            .unwrap()
            .canonical_reason()
            .is_none()
            && status != 420
        {
            continue;
        }

        let outcome = Ok(ResponseHead::read(&response(served(status))));
        let middleware_retry = UvRetryableStrategy.handle(&outcome) == Some(Retryable::Transient);

        let uv_retry = match response(served(status)).error_for_status() {
            Ok(_) => false,
            Err(err) => {
                let err = chain(ErrorLayer::Reqwest(ReqwestFailure::read(&err)), vec![]);
                retryable_on_request_failure(&err) == Some(Retryable::Transient)
            }
        };

        // Ensure we're retrying the same status code as the reqwest_retry crate.
        assert_eq!(middleware_retry, uv_retry);
        if uv_retry {
            retried.push(status);
        }
    }

    assert_eq!(
        retried,
        [100, 102, 103, 408, 429, 500, 501, 502, 503, 504, 505, 506, 507, 508, 510, 511]
    );
}

/// The search walks the sources of an error and finds the kind of the nested I/O error.
#[test]
fn reqwest_error_to_io_error_walks_source_chain() {
    let outer = chain(
        ErrorLayer::Other,
        vec![ErrorLayer::Io(IoErrorKind::ConnectionReset)],
    );
    let found = find_source::<IoErrorKind>(&outer).expect("io::Error in source chain");
    assert!(matches!(found, IoErrorKind::ConnectionReset));
}

#[test]
fn find_source_skips_the_error_itself_and_takes_the_first() {
    let err = chain(ErrorLayer::Io(IoErrorKind::BrokenPipe), vec![]);
    assert_eq!(find_source::<IoErrorKind>(&err), None);

    let err = chain(
        ErrorLayer::Io(IoErrorKind::BrokenPipe),
        vec![
            ErrorLayer::H2,
            ErrorLayer::Io(IoErrorKind::NotFound),
            ErrorLayer::Io(IoErrorKind::TimedOut),
        ],
    );
    assert_eq!(
        find_source::<IoErrorKind>(&err),
        Some(&IoErrorKind::NotFound)
    );
    assert_eq!(find_source::<WrappedReqwestError>(&err), None);

    let wrapped = WrappedReqwestError {
        inner: Some(failure(Some(404), None)),
    };
    let err = chain(
        ErrorLayer::Other,
        vec![ErrorLayer::Other, ErrorLayer::WrappedReqwest(wrapped)],
    );
    assert_eq!(find_source::<WrappedReqwestError>(&err), Some(&wrapped));
}

#[test]
fn conversion_adopts_the_nested_kind_and_keeps_the_chain() {
    let reqwest = ErrorLayer::Reqwest(failure(None, Some(Retryable::Fatal)));
    let converted = reqwest_error_to_io_error(chain(
        reqwest,
        vec![ErrorLayer::Other, ErrorLayer::Io(IoErrorKind::TimedOut)],
    ));
    assert_eq!(converted.error, ErrorLayer::Io(IoErrorKind::TimedOut));
    assert_eq!(
        converted.sources,
        [
            reqwest,
            ErrorLayer::Other,
            ErrorLayer::Io(IoErrorKind::TimedOut)
        ]
    );

    let converted = reqwest_error_to_io_error(chain(reqwest, vec![ErrorLayer::H2]));
    assert_eq!(converted.error, ErrorLayer::Io(IoErrorKind::Other));
    assert_eq!(converted.sources, [reqwest, ErrorLayer::H2]);
}

#[test]
fn conversion_keeps_the_verdict() {
    let transient = ErrorLayer::Reqwest(failure(None, Some(Retryable::Transient)));
    let fatal = ErrorLayer::Reqwest(failure(Some(404), Some(Retryable::Fatal)));
    for (error, source, verdict) in [
        (transient, ErrorLayer::Other, Some(Retryable::Transient)),
        (fatal, ErrorLayer::Other, None),
        (fatal, ErrorLayer::Io(IoErrorKind::NotFound), None),
        (
            fatal,
            ErrorLayer::Io(IoErrorKind::BrokenPipe),
            Some(Retryable::Transient),
        ),
    ] {
        let before = chain(error, vec![source]);
        assert_eq!(retryable_on_request_failure(&before), verdict);
        let after = reqwest_error_to_io_error(before);
        assert_eq!(retryable_on_request_failure(&after), verdict);
    }
}

#[test]
fn io_kinds_of_a_lost_connection_are_transient() {
    for kind in [
        IoErrorKind::BrokenPipe,
        IoErrorKind::ConnectionAborted,
        IoErrorKind::ConnectionReset,
        IoErrorKind::InvalidData,
        IoErrorKind::TimedOut,
        IoErrorKind::UnexpectedEof,
    ] {
        let err = chain(ErrorLayer::Io(kind), vec![]);
        assert_eq!(
            retryable_on_request_failure(&err),
            Some(Retryable::Transient)
        );
    }
    for kind in [
        IoErrorKind::ConnectionRefused,
        IoErrorKind::NotFound,
        IoErrorKind::PermissionDenied,
        IoErrorKind::Interrupted,
        IoErrorKind::Other,
        IoErrorKind::Uncategorized,
    ] {
        let err = chain(ErrorLayer::Io(kind), vec![]);
        assert_eq!(retryable_on_request_failure(&err), None);
    }
}

#[test]
fn every_layer_is_searched() {
    let transient = failure(None, Some(Retryable::Transient));
    let unavailable = failure(Some(503), None);
    let fatal = failure(Some(404), Some(Retryable::Fatal));
    for (layer, verdict) in [
        (ErrorLayer::Reqwest(transient), true),
        (ErrorLayer::Reqwest(unavailable), true),
        (ErrorLayer::Reqwest(fatal), false),
        (
            ErrorLayer::WrappedReqwest(WrappedReqwestError {
                inner: Some(transient),
            }),
            true,
        ),
        (
            ErrorLayer::WrappedReqwest(WrappedReqwestError { inner: None }),
            false,
        ),
        (
            ErrorLayer::Middleware(MiddlewareError::Reqwest(unavailable)),
            true,
        ),
        (
            ErrorLayer::Middleware(MiddlewareError::Reqwest(fatal)),
            false,
        ),
        (ErrorLayer::Middleware(MiddlewareError::Middleware), false),
        (ErrorLayer::H2, true),
        (ErrorLayer::Other, false),
    ] {
        let verdict = verdict.then_some(Retryable::Transient);
        assert_eq!(
            retryable_on_request_failure(&chain(layer, vec![])),
            verdict
        );
        // A fatal error in front of it changes nothing, nor does one behind it.
        let nested = chain(
            ErrorLayer::Reqwest(fatal),
            vec![ErrorLayer::Other, layer, ErrorLayer::Other],
        );
        assert_eq!(retryable_on_request_failure(&nested), verdict);
    }
}

#[test]
fn retryable_status_errors() {
    assert_eq!(REQUEST_TIMEOUT, StatusCode::REQUEST_TIMEOUT.as_u16());
    assert_eq!(TOO_MANY_REQUESTS, StatusCode::TOO_MANY_REQUESTS.as_u16());
    for (status, retryable) in [
        (None, false),
        (Some(200), false),
        (Some(404), false),
        (Some(408), true),
        (Some(428), false),
        (Some(429), true),
        (Some(499), false),
        (Some(500), true),
        (Some(599), true),
        (Some(600), false),
        (Some(7), false),
    ] {
        assert_eq!(
            is_retryable_status_error(&failure(status, None)),
            retryable
        );
    }
}

#[test]
fn strategy_follows_the_default_for_responses() {
    for status in 100..=999 {
        let default = reqwest_retry::default_on_request_success(&response(status));
        let expected = match default {
            Some(reqwest_retry::Retryable::Transient) => Some(Retryable::Transient),
            Some(reqwest_retry::Retryable::Fatal) => Some(Retryable::Fatal),
            None => None,
        };
        assert_eq!(UvRetryableStrategy.handle(&Ok(head(status))), expected);
    }
    assert_eq!(UvRetryableStrategy.handle(&Ok(head(204))), None);
    assert_eq!(
        UvRetryableStrategy.handle(&Ok(head(304))),
        Some(Retryable::Fatal)
    );
    assert_eq!(
        UvRetryableStrategy.handle(&Err(chain(ErrorLayer::H2, vec![]))),
        Some(Retryable::Transient)
    );
}

#[test]
fn failures_are_read_off_reqwest_errors() {
    let err = response(503).error_for_status().unwrap_err();
    assert_eq!(ReqwestFailure::read(&err), failure(Some(503), None));

    let err = reqwest::Client::new()
        .get("not a url")
        .build()
        .unwrap_err();
    assert_eq!(
        ReqwestFailure::read(&err),
        failure(None, Some(Retryable::Fatal))
    );
}

#[test]
fn retries_are_counted_and_bounded() {
    let lost = chain(ErrorLayer::Io(IoErrorKind::ConnectionReset), vec![]);
    let mut state = RetryState::start(policy(Some(3)), "https://example.org/".to_string());
    assert_eq!(state.total_retries(), 0);
    assert_eq!(state.url(), "https://example.org/");
    let mut granted = 0;
    for _ in 0..10 {
        assert!(state.can_ask(&lost, 0));
        if let Some(wait) = state.should_retry(&lost, 0) {
            granted += 1;
            assert!(wait.as_nanos() <= 60_000_000_500);
        }
    }
    assert_eq!(granted, 3);
    // After a failed retryable request, this equals the maximum number of retries.
    assert_eq!(state.total_retries(), 3);
}

#[test]
fn retries_of_lower_layers_are_spent() {
    let lost = chain(ErrorLayer::H2, vec![]);
    let mut state = RetryState::start(policy(Some(3)), String::new());
    assert!(state.should_retry(&lost, 2).is_some());
    assert_eq!(state.total_retries(), 3);
    assert!(state.should_retry(&lost, 4).is_none());
    assert_eq!(state.total_retries(), 7);
    assert!(state.should_retry(&lost, 0).is_none());
    assert_eq!(state.total_retries(), 7);
}

#[test]
fn fatal_errors_are_not_retried_but_counted() {
    let mut state = RetryState::start(policy(Some(3)), String::new());
    let fatal = chain(ErrorLayer::Io(IoErrorKind::NotFound), vec![]);
    assert!(state.should_retry(&fatal, 2).is_none());
    assert_eq!(state.total_retries(), 2);
}

#[test]
fn a_policy_without_limit_goes_on() {
    let lost = chain(ErrorLayer::H2, vec![]);
    let mut state = RetryState::start(policy(None), String::new());
    assert!(state.should_retry(&lost, u32::MAX - 1).is_some());
    assert_eq!(state.total_retries(), u32::MAX);
    assert!(!state.can_ask(&lost, 0));
    let fatal = chain(ErrorLayer::Other, vec![]);
    assert!(state.can_ask(&fatal, 0));
    assert!(!state.can_ask(&fatal, 1));
}

#[test]
fn without_jitter_the_wait_is_the_calculated_one() {
    let lost = chain(ErrorLayer::H2, vec![]);
    let calm = BackoffPolicy {
        jitter: Jitter::Off,
        ..policy(Some(10))
    };
    // The present is read just before the policy is asked: the wait is the interval and a little.
    for (past, interval) in [(0, 1), (1, 2), (3, 8), (5, 32), (9, 60)] {
        let mut state = RetryState::start(calm, String::new());
        let wait = state.should_retry(&lost, past).unwrap();
        assert!(wait.secs >= interval && wait.secs < interval + 5);
    }
}

#[test]
fn jitter_stays_between_its_bounds() {
    let lost = chain(ErrorLayer::H2, vec![]);
    let second = Duration::from_secs(1);
    for (jitter, past, least, most) in [
        (Jitter::Full, 0, 0, 100),
        (Jitter::Full, 1, 0, 200),
        (Jitter::Full, 9, 0, 300),
        (Jitter::Bounded, 0, 50, 100),
        (Jitter::Bounded, 1, 50, 200),
        (Jitter::Bounded, 9, 50, 300),
    ] {
        let policy = BackoffPolicy {
            min_retry_interval: Span { secs: 100, nanos: 0 },
            max_retry_interval: Span { secs: 300, nanos: 0 },
            jitter,
            ..policy(Some(10))
        };
        for _ in 0..50 {
            let mut state = RetryState::start(policy, String::new());
            let wait = state.should_retry(&lost, past).unwrap();
            let wait = Duration::new(wait.secs, wait.nanos) + second;
            assert!(wait >= Duration::from_secs(least), "{jitter:?} {past}");
            assert!(wait <= Duration::from_secs(most + 5), "{jitter:?} {past}");
        }
    }
}

#[test]
fn the_wait_is_measured_from_the_reading_that_is_given() {
    let lost = chain(ErrorLayer::H2, vec![]);
    let calm = BackoffPolicy {
        jitter: Jitter::Off,
        ..policy(Some(3))
    };
    let mut state = RetryState::start(calm, String::new());
    let hour = Duration::from_secs(3600);
    let earlier = SystemTime::now() - hour;
    let wait = state.should_retry_at(&earlier, &lost, 0).unwrap();
    assert!(wait.secs >= 3600 && wait.secs < 3610);
    let later = SystemTime::now() + hour;
    assert_eq!(
        state.should_retry_at(&later, &lost, 1),
        Some(Span { secs: 0, nanos: 0 })
    );
    assert_eq!(state.total_retries(), 3);
    assert_eq!(state.should_retry_at(&later, &lost, 0), None);
    assert_eq!(state.total_retries(), 3);
}

#[test]
fn settle_measures_the_wait_from_now() {
    let now = SystemTime::now();
    let mut state = RetryState::start(policy(Some(3)), String::new());
    let later = now + Duration::new(5, 7);
    assert_eq!(
        state.settle(&now, Some(later)),
        Some(Span { secs: 5, nanos: 7 })
    );
    assert_eq!(state.total_retries(), 1);
    // A try whose time has passed is made at once.
    assert_eq!(
        state.settle(&later, Some(now)),
        Some(Span { secs: 0, nanos: 0 })
    );
    assert_eq!(state.total_retries(), 2);
    assert_eq!(state.settle(&now, None), None);
    assert_eq!(state.total_retries(), 2);
}

#[test]
fn the_start_time_is_the_reading_that_is_given() {
    let start = SystemTime::now() - Duration::from_secs(3600);
    let state = RetryState::start_at(policy(Some(3)), "https://example.org/".to_string(), &start);
    assert_eq!(state.total_retries(), 0);
    assert_eq!(state.url(), "https://example.org/");
    let later = start + Duration::new(5, 7);
    assert_eq!(state.duration_at(&later), Ok(Span { secs: 5, nanos: 7 }));
    assert_eq!(state.duration_at(&start), Ok(Span { secs: 0, nanos: 0 }));
    let span = state.duration().unwrap();
    assert!(span.secs >= 3600 && span.secs < 3610);
}

#[test]
fn duration_is_measured_from_the_start() {
    let before = SystemTime::now();
    let state = RetryState::start(policy(Some(3)), String::new());
    let hour = before + Duration::from_secs(3600);
    let span = state.duration_at(&hour).unwrap();
    assert!(span.secs >= 3599 && span.secs <= 3600);
    let past = before - Duration::from_secs(3600);
    let ahead = state.duration_at(&past).unwrap_err();
    assert!(ahead.secs >= 3600 && ahead.secs < 3610);
    assert!(state.duration().unwrap().secs < 10);
}

#[test]
fn policies_whose_waits_overflow_are_told_apart() {
    assert!(policy(Some(3)).can_decide(0));
    let endless = Span {
        secs: u64::MAX,
        nanos: 999_999_999,
    };
    let unbounded = BackoffPolicy {
        max_retry_interval: endless,
        ..policy(None)
    };
    assert!(unbounded.can_decide(u32::MAX));
    // The shortest interval can be scaled by the first powers only.
    let eager = BackoffPolicy {
        min_retry_interval: Span {
            secs: 1 << 35,
            nanos: 0,
        },
        max_retry_interval: Span {
            secs: 1 << 36,
            nanos: 0,
        },
        ..policy(Some(100))
    };
    assert!(eager.can_decide(0));
    assert!(eager.can_decide(28));
    assert!(!eager.can_decide(29));
    assert!(!eager.can_decide(99));
    // Nothing is calculated where no retry is allowed.
    assert!(eager.can_decide(100));
    // The clock cannot be set ahead by such a wait.
    let remote = BackoffPolicy {
        min_retry_interval: endless,
        max_retry_interval: endless,
        ..policy(Some(3))
    };
    assert!(!remote.can_decide(0));
    assert!(remote.can_decide(3));
    // With bounded jitter the wait must not fall below the shortest interval.
    let vanishing = BackoffPolicy {
        base: 0,
        ..policy(Some(3))
    };
    assert!(vanishing.can_decide(0));
    assert!(!vanishing.can_decide(1));
    let constant = BackoffPolicy {
        base: 1,
        ..policy(None)
    };
    assert!(constant.can_decide(u32::MAX));
    let full = BackoffPolicy {
        jitter: Jitter::Full,
        ..vanishing
    };
    assert!(full.can_decide(1));
    let improper = BackoffPolicy {
        min_retry_interval: Span {
            secs: 0,
            nanos: 1_000_000_000,
        },
        ..policy(Some(3))
    };
    assert!(!improper.can_decide(3));
}

#[test]
fn the_longest_waits_can_be_asked_for() {
    let lost = chain(ErrorLayer::H2, vec![]);
    let patient = BackoffPolicy {
        min_retry_interval: Span {
            secs: u32::MAX as u64,
            nanos: 999_999_999,
        },
        max_retry_interval: Span {
            secs: 549_755_813_888,
            nanos: 0,
        },
        ..policy(Some(u32::MAX))
    };
    for jitter in [Jitter::Off, Jitter::Full, Jitter::Bounded] {
        for past in [0, 1, 31, 32, u32::MAX - 1] {
            let patient = BackoffPolicy { jitter, ..patient };
            assert!(patient.can_decide(past));
            let mut state = RetryState::start(patient, String::new());
            assert!(state.should_retry(&lost, past).is_some());
        }
    }
}

struct Attempted {
    retries: u32,
    next_url: bool,
}

impl RetriableError for Attempted {
    fn should_try_next_url(&self) -> bool {
        self.next_url
    }

    fn retries(&self) -> u32 {
        self.retries
    }

    fn into_retried(self, retries: u32, _duration: Span) -> Self {
        Self { retries, ..self }
    }
}

#[test]
fn errors_of_users_take_part() {
    let err = Attempted {
        retries: 1,
        next_url: false,
    };
    assert_eq!(err.retries(), 1);
    let err = err.into_retried(4, Span { secs: 2, nanos: 0 });
    assert_eq!(err.retries(), 4);
    assert!(!err.should_try_next_url());
}
