use reqwest_retry::RetryCount;
use resumable_http::error::{
    reqwest_error_to_io_error, ErrorChain, ErrorLayer, IoError, IoErrorKind, ReqwestFailure,
    RequestError,
};
use resumable_http::response::ResponseHead;
use resumable_http::resumable_reader::{
    ReaderAction, ReaderEvent, ReaderState, ResponseExt, ResumableError, ResumableReader,
    PARTIAL_CONTENT,
};
use resumable_http::retry::{BackoffPolicy, Jitter, RetryState, Span};

fn head(status: u16) -> ResponseHead {
    ResponseHead {
        status,
        accept_ranges: Some(b"bytes".to_vec()),
        content_range: None,
        content_length: None,
        retry_count: None,
    }
}

fn initial(content_length: Option<u64>) -> ResponseHead {
    ResponseHead {
        content_length,
        ..head(200)
    }
}

fn partial(content_range: &str) -> ResponseHead {
    ResponseHead {
        content_range: Some(content_range.as_bytes().to_vec()),
        ..head(206)
    }
}

fn budget(max_n_retries: u32) -> RetryState {
    let policy = BackoffPolicy {
        max_n_retries: Some(max_n_retries),
        min_retry_interval: Span { secs: 0, nanos: 1 },
        max_retry_interval: Span { secs: 1, nanos: 0 },
        jitter: Jitter::Full,
        base: 2,
    };
    RetryState::start(policy, "https://example.org/wheel".to_string())
}

fn io(kind: IoErrorKind, message: &str) -> IoError {
    IoError {
        kind,
        message: message.to_string(),
        sources: vec![],
    }
}

fn request_error(message: &str) -> RequestError {
    RequestError {
        message: message.to_string(),
        retries: 0,
    }
}

fn pause() -> Option<Span> {
    Some(Span { secs: 3, nanos: 4 })
}

/// Brings a reader to the point where a Range request is in flight.
fn reconnecting(content_length: Option<u64>, delivered: u64) -> ResumableReader {
    let mut reader = ResumableReader::new(&initial(content_length)).unwrap();
    if delivered > 0 {
        assert!(matches!(
            reader.advance(ReaderEvent::Read(delivered), None),
            ReaderAction::Ready
        ));
    }
    let lost = io(IoErrorKind::ConnectionReset, "reset");
    assert!(matches!(
        reader.advance(ReaderEvent::ReadFailed(lost), pause()),
        ReaderAction::Sleep(Span { secs: 3, nanos: 4 })
    ));
    assert!(matches!(
        reader.advance(ReaderEvent::BackoffElapsed, None),
        ReaderAction::Request(_)
    ));
    reader
}

fn failure_of(action: ReaderAction) -> String {
    match action {
        ReaderAction::Fail(message) => message,
        other => panic!("no failure: {other:?}"),
    }
}

#[test]
fn only_servers_with_ranges_are_resumed() {
    let reader = ResumableReader::new(&ResponseHead {
        retry_count: Some(2),
        ..initial(Some(10))
    })
    .unwrap();
    assert_eq!(reader.content_length(), Some(10));
    assert_eq!(reader.bytes_delivered(), 0);
    assert_eq!(reader.reconnect_attempts(), 0);
    assert!(matches!(reader.state(), ReaderState::Reading));

    for accept_ranges in [
        None,
        Some(b"none".to_vec()),
        Some(b"Bytes".to_vec()),
        Some(b"bytes ".to_vec()),
        Some(b"".to_vec()),
        Some(b"byte\xff".to_vec()),
        Some(b"bytes\x00".to_vec()),
    ] {
        let response = ResponseHead {
            accept_ranges,
            ..head(200)
        };
        assert!(!response.supports_range_requests());
        let err = response.resumable_stream().unwrap_err();
        assert!(matches!(err, ResumableError::RangeNotSupported));
        assert_eq!(
            err.message(),
            "Server does not support Range requests (no `Accept-Ranges: bytes` header)"
        );
    }
}

#[test]
fn heads_are_read_off_responses() {
    let mut response: reqwest::Response = http::Response::builder()
        .status(206)
        .header("Accept-Ranges", "bytes")
        .header("accept-ranges", "none")
        .header("content-range", "bytes 2-4/5")
        .body("abc")
        .unwrap()
        .into();
    response.extensions_mut().insert(RetryCount::new(3));
    let head = ResponseHead::read(&response);
    assert_eq!(head.status, 206);
    assert_eq!(head.accept_ranges, Some(b"bytes".to_vec()));
    assert_eq!(head.content_range, Some(b"bytes 2-4/5".to_vec()));
    assert_eq!(head.content_length, Some(3));
    assert_eq!(head.retry_count, Some(3));
    assert_eq!(head.total_size(), Some(5));
    assert_eq!(head.middleware_retries(), 3);
    assert!(response.supports_range_requests());
    let reader = response.resumable_stream().unwrap();
    assert_eq!(reader.content_length(), Some(3));

    let response: reqwest::Response = http::Response::builder()
        .status(404)
        .body("")
        .unwrap()
        .into();
    let head = ResponseHead::read(&response);
    assert_eq!(head.status, 404);
    assert_eq!(head.accept_ranges, None);
    assert_eq!(head.content_range, None);
    assert_eq!(head.retry_count, None);
    assert_eq!(head.middleware_retries(), 0);
    assert!(!response.supports_range_requests());
    assert!(response.resumable_stream().is_err());
}

#[test]
fn total_size_is_the_number_behind_the_last_slash() {
    for (content_range, total) in [
        ("bytes 0-1/1234", Some(1234)),
        ("1234", Some(1234)),
        ("a/b/7", Some(7)),
        ("bytes 0-1/+8", Some(8)),
        ("bytes 0-1/007", Some(7)),
        ("bytes 0-1/18446744073709551615", Some(u64::MAX)),
        ("bytes 0-1/18446744073709551616", None),
        ("bytes 0-1/99999999999999999999999x", None),
        ("bytes 0-1/*", None),
        ("bytes 0-1/", None),
        ("bytes 0-1/+", None),
        ("bytes 0-1/-1", None),
        ("bytes 0-1/++1", None),
        ("bytes 0-1/ 1", None),
        ("bytes 0-1/1\t", None),
        ("", None),
    ] {
        assert_eq!(partial(content_range).total_size(), total, "{content_range}");
    }
    assert_eq!(head(206).total_size(), None);
    let unreadable = ResponseHead {
        content_range: Some(b"\xe9/5".to_vec()),
        ..head(206)
    };
    assert_eq!(unreadable.total_size(), None);
}

#[test]
fn transient_stream_errors() {
    for (kind, transient) in [
        (IoErrorKind::ConnectionReset, true),
        (IoErrorKind::ConnectionAborted, true),
        (IoErrorKind::BrokenPipe, true),
        (IoErrorKind::UnexpectedEof, true),
        (IoErrorKind::TimedOut, true),
        (IoErrorKind::InvalidData, true),
        (IoErrorKind::ConnectionRefused, false),
        (IoErrorKind::Interrupted, false),
        (IoErrorKind::Other, false),
    ] {
        assert_eq!(
            ResumableReader::is_transient_error(&io(kind, "")),
            transient
        );
    }
}

#[test]
fn a_whole_body_is_delivered_and_done() {
    let mut retry = budget(3);
    let mut reader = ResumableReader::new(&initial(Some(10))).unwrap();
    for bytes in [4, 6] {
        let action = reader.poll_read(&mut retry, ReaderEvent::Read(bytes));
        assert!(matches!(action, ReaderAction::Ready));
    }
    assert_eq!(reader.bytes_delivered(), 10);
    assert!(matches!(
        reader.poll_read(&mut retry, ReaderEvent::Pending),
        ReaderAction::Pending
    ));
    assert!(matches!(reader.state(), ReaderState::Reading));
    assert!(matches!(
        reader.poll_read(&mut retry, ReaderEvent::Read(0)),
        ReaderAction::Ready
    ));
    for _ in 0..3 {
        assert!(matches!(reader.state(), ReaderState::Done));
        assert!(matches!(
            reader.poll_read(&mut retry, ReaderEvent::Polled),
            ReaderAction::Ready
        ));
    }
    assert_eq!(retry.total_retries(), 0);
}

#[test]
fn without_a_length_the_end_of_the_body_is_the_end() {
    let mut retry = budget(3);
    let mut reader = ResumableReader::new(&initial(None)).unwrap();
    assert!(!reader.wants_retry(&ReaderEvent::Read(0)));
    let action = reader.poll_read(&mut retry, ReaderEvent::Read(0));
    assert!(matches!(action, ReaderAction::Ready));
    assert!(matches!(reader.state(), ReaderState::Done));
}

/// Serves a content with interruptions, and collects what the consumer gets.
#[test]
fn the_consumer_sees_one_stream() {
    let content: Vec<u8> = (0..100u8).collect();
    let mut retry = budget(10);
    let mut reader = ResumableReader::new(&initial(Some(100))).unwrap();
    let mut output = Vec::new();
    let mut cursor = 0usize;
    let mut reads = 0;
    let mut requests = Vec::new();
    let mut range = String::new();
    while !matches!(reader.state(), ReaderState::Done) {
        let event = match reader.state() {
            ReaderState::Reading => {
                reads += 1;
                if reads % 7 == 0 {
                    ReaderEvent::ReadFailed(io(IoErrorKind::UnexpectedEof, "cut off"))
                } else if reads % 5 == 0 {
                    ReaderEvent::Read(0)
                } else {
                    let next = (cursor + 9).min(content.len());
                    output.extend_from_slice(&content[cursor..next]);
                    let bytes = (next - cursor) as u64;
                    cursor = next;
                    ReaderEvent::Read(bytes)
                }
            }
            ReaderState::Backoff => ReaderEvent::BackoffElapsed,
            ReaderState::Reconnecting => {
                let position = &range["bytes=".len()..range.len() - 1];
                cursor = position.parse().unwrap();
                ReaderEvent::Responded(partial(&format!("bytes {position}-99/100")))
            }
            other => panic!("not to be reached: {other:?}"),
        };
        assert!(reader.accepts(&event));
        match reader.poll_read(&mut retry, event) {
            ReaderAction::Request(header) => {
                requests.push(header.clone());
                range = header;
            }
            ReaderAction::Ready | ReaderAction::Sleep(_) | ReaderAction::Stream => {}
            other => panic!("not to be reached: {other:?}"),
        }
    }
    assert_eq!(output, content);
    assert_eq!(
        requests,
        ["bytes=36-", "bytes=45-", "bytes=63-", "bytes=90-", "bytes=90-"]
    );
    assert_eq!(reader.reconnect_attempts(), 5);
    assert_eq!(retry.total_retries(), 5);
}

#[test]
fn range_requests_start_behind_the_last_byte() {
    let mut reader = ResumableReader::new(&initial(None)).unwrap();
    assert_eq!(reader.start_reconnect(), "bytes=0-");
    assert!(matches!(reader.state(), ReaderState::Reconnecting));
    assert_eq!(reader.reconnect_attempts(), 1);

    let mut reader = ResumableReader::new(&initial(None)).unwrap();
    let delivered = ReaderEvent::Read(18_446_744_073_709_551_615);
    assert!(matches!(
        reader.advance(delivered, None),
        ReaderAction::Ready
    ));
    assert_eq!(reader.start_reconnect(), "bytes=18446744073709551615-");
    assert_eq!(reader.start_reconnect(), "bytes=18446744073709551615-");
    assert_eq!(reader.reconnect_attempts(), 2);
}

#[test]
fn responses_that_do_not_continue_are_rejected() {
    for (status, text) in [
        (200, "200 OK"),
        (404, "404 Not Found"),
        (416, "416 Range Not Satisfiable"),
        (599, "599 <unknown status code>"),
    ] {
        let mut reader = reconnecting(Some(10), 4);
        let message = format!("expected 206 Partial Content for resumed download, got {text}");
        let action = reader.advance(ReaderEvent::Responded(head(status)), None);
        assert_eq!(failure_of(action), message);
        // The message is surfaced once more by the next poll, then it is gone.
        let action = reader.advance(ReaderEvent::Polled, None);
        assert_eq!(failure_of(action), message);
        for _ in 0..3 {
            let action = reader.advance(ReaderEvent::Polled, None);
            assert_eq!(failure_of(action), "");
        }
    }

    let mut reader = reconnecting(Some(10), 4);
    assert_eq!(
        reader.handle_reconnect_response(&partial("bytes 4-10/11")),
        Err("server reports inconsistent total size: expected 10, got 11".to_string())
    );
    assert!(matches!(reader.state(), ReaderState::Reconnecting));
}

#[test]
fn responses_that_continue_are_read() {
    assert_eq!(PARTIAL_CONTENT, http::StatusCode::PARTIAL_CONTENT.as_u16());
    for (content_length, content_range) in [
        (Some(10), "bytes 4-9/10"),
        (Some(10), "bytes 4-9/*"),
        (None, "bytes 4-9/11"),
    ] {
        let mut reader = reconnecting(content_length, 4);
        let action = reader.advance(ReaderEvent::Responded(partial(content_range)), None);
        assert!(matches!(action, ReaderAction::Stream));
        assert!(matches!(reader.state(), ReaderState::Reading));
        assert_eq!(reader.bytes_delivered(), 4);
    }
    let mut reader = reconnecting(Some(10), 4);
    assert_eq!(reader.handle_reconnect_response(&head(206)), Ok(()));
    assert!(matches!(reader.state(), ReaderState::Reading));
}

#[test]
fn middleware_retries_are_charged_to_the_budget() {
    let mut retry = budget(10);
    let mut reader = ResumableReader::new(&ResponseHead {
        retry_count: Some(2),
        ..initial(Some(10))
    })
    .unwrap();
    assert!(reader.next_backoff(&mut retry, 0).is_some());
    assert_eq!(retry.total_retries(), 3);
    // They are charged once.
    assert!(reader.next_backoff(&mut retry, 0).is_some());
    assert_eq!(retry.total_retries(), 4);

    let mut reader = reconnecting(Some(10), 4);
    let response = ResponseHead {
        retry_count: Some(5),
        ..partial("bytes 4-9/10")
    };
    assert_eq!(reader.handle_reconnect_response(&response), Ok(()));
    assert!(reader.next_backoff(&mut retry, 0).is_some());
    assert_eq!(retry.total_retries(), 10);
    assert!(reader.next_backoff(&mut retry, 0).is_none());
    assert_eq!(retry.total_retries(), 10);
}

#[test]
fn retries_of_failed_requests_are_charged_to_the_budget() {
    let mut retry = budget(10);
    let mut reader = ResumableReader::new(&ResponseHead {
        retry_count: Some(2),
        ..initial(Some(10))
    })
    .unwrap();
    assert!(reader.next_backoff(&mut retry, 4).is_some());
    assert_eq!(retry.total_retries(), 7);

    let mut retry = budget(10);
    let mut reader = reconnecting(Some(10), 4);
    let failed = ReaderEvent::RequestFailed(RequestError {
        message: "no route".to_string(),
        retries: 3,
    });
    assert!(reader.accepts(&failed));
    assert!(reader.can_back_off(&retry, &failed));
    let action = reader.poll_read(&mut retry, failed);
    assert!(matches!(action, ReaderAction::Sleep(_)));
    assert_eq!(retry.total_retries(), 4);
    let action = reader.poll_read(&mut retry, ReaderEvent::BackoffElapsed);
    assert!(matches!(action, ReaderAction::Request(_)));
    let failed = ReaderEvent::RequestFailed(RequestError {
        message: "no route".to_string(),
        retries: 6,
    });
    match reader.poll_read(&mut retry, failed) {
        ReaderAction::Exhausted(_, err) => assert_eq!(err.retries, 6),
        other => panic!("not exhausted: {other:?}"),
    }
    assert_eq!(retry.total_retries(), 10);

    // Too many of them to be counted.
    let reader = reconnecting(Some(10), 4);
    let failed = ReaderEvent::RequestFailed(RequestError {
        message: String::new(),
        retries: u32::MAX,
    });
    assert!(reader.accepts(&failed));
    assert!(!reader.can_back_off(&retry, &failed));
}

/// Answers, failures and grants of one download are counted once each.
#[test]
fn every_retry_is_counted_once() {
    let mut retry = budget(100);
    let mut reader = ResumableReader::new(&ResponseHead {
        retry_count: Some(1),
        ..initial(Some(10))
    })
    .unwrap();
    let events = [
        ReaderEvent::Read(0),
        ReaderEvent::BackoffElapsed,
        ReaderEvent::RequestFailed(RequestError {
            message: String::new(),
            retries: 20,
        }),
        ReaderEvent::BackoffElapsed,
        ReaderEvent::Responded(ResponseHead {
            retry_count: Some(30),
            ..head(206)
        }),
        ReaderEvent::ReadFailed(io(IoErrorKind::BrokenPipe, "")),
    ];
    for event in events {
        assert!(reader.accepts(&event));
        reader.poll_read(&mut retry, event);
    }
    assert!(matches!(reader.state(), ReaderState::Backoff));
    assert_eq!(retry.total_retries(), 1 + 20 + 30 + 3);
}

#[test]
fn a_budget_spent_elsewhere_leaves_fewer_reconnects() {
    let mut retry = budget(5);
    let lost = ErrorChain {
        error: ErrorLayer::H2,
        sources: vec![],
    };
    assert!(retry.should_retry(&lost, 2).is_some());
    let mut reader = ResumableReader::new(&initial(Some(10))).unwrap();
    let mut action = reader.poll_read(&mut retry, ReaderEvent::Read(0));
    while let ReaderAction::Sleep(_) = action {
        reader.poll_read(&mut retry, ReaderEvent::BackoffElapsed);
        let failed = ReaderEvent::RequestFailed(request_error("no route"));
        action = reader.poll_read(&mut retry, failed);
    }
    assert!(matches!(action, ReaderAction::Exhausted(_, _)));
    assert_eq!(reader.reconnect_attempts(), 2);
}

#[test]
fn only_reads_are_counted_as_delivered() {
    let mut retry = budget(1);
    let mut reader = ResumableReader::new(&initial(Some(10))).unwrap();
    for (event, delivered) in [
        (ReaderEvent::Read(3), 3),
        (ReaderEvent::Pending, 3),
        (ReaderEvent::NoRoom, 3),
        (ReaderEvent::Read(2), 5),
        (ReaderEvent::Read(0), 5),
        (ReaderEvent::BackoffElapsed, 5),
        (ReaderEvent::Responded(partial("bytes 5-9/10")), 5),
        (ReaderEvent::Read(4), 9),
        (ReaderEvent::ReadFailed(io(IoErrorKind::TimedOut, "")), 9),
        (ReaderEvent::Polled, 9),
    ] {
        assert!(reader.accepts(&event));
        reader.poll_read(&mut retry, event);
        assert_eq!(reader.bytes_delivered(), delivered);
        assert_eq!(reader.content_length(), Some(10));
    }
}

#[test]
fn each_request_waits_for_its_own_pause() {
    let mut retry = budget(5);
    let mut reader = ResumableReader::new(&initial(Some(10))).unwrap();
    let mut grants = 0;
    for _ in 0..3 {
        let event = match reader.state() {
            ReaderState::Reading => ReaderEvent::Read(0),
            _ => ReaderEvent::RequestFailed(request_error("no route")),
        };
        assert!(!reader.accepts(&ReaderEvent::BackoffElapsed));
        let action = reader.poll_read(&mut retry, event);
        assert!(matches!(action, ReaderAction::Sleep(_)));
        grants += 1;
        assert_eq!(retry.total_retries(), grants);
        assert_eq!(reader.reconnect_attempts(), grants - 1);
        // Until the pause is over, nothing is sent.
        let action = reader.poll_read(&mut retry, ReaderEvent::Pending);
        assert!(matches!(action, ReaderAction::Pending));
        let action = reader.poll_read(&mut retry, ReaderEvent::BackoffElapsed);
        assert!(matches!(action, ReaderAction::Request(_)));
        assert_eq!(reader.reconnect_attempts(), grants);
    }
}

#[test]
fn a_reset_stream_is_resumed() {
    let reset = ErrorChain {
        error: ErrorLayer::Reqwest(ReqwestFailure {
            status: None,
            default_verdict: None,
        }),
        sources: vec![ErrorLayer::Other, ErrorLayer::H2],
    };
    let surfaced = reqwest_error_to_io_error(reset);
    assert_eq!(surfaced.error, ErrorLayer::Io(IoErrorKind::Other));
    let err = IoError {
        sources: surfaced.sources,
        ..io(IoErrorKind::Other, "stream error received")
    };
    assert!(!ResumableReader::is_transient_error(&err));
    let chain = err.chain();
    assert_eq!(chain.error, ErrorLayer::Io(IoErrorKind::Other));
    assert_eq!(chain.sources, err.sources);

    let mut retry = budget(3);
    let mut reader = ResumableReader::new(&initial(Some(10))).unwrap();
    reader.poll_read(&mut retry, ReaderEvent::Read(6));
    let event = ReaderEvent::ReadFailed(err);
    assert!(reader.wants_retry(&event));
    let action = reader.poll_read(&mut retry, event);
    assert!(matches!(action, ReaderAction::Sleep(_)));
    match reader.poll_read(&mut retry, ReaderEvent::BackoffElapsed) {
        ReaderAction::Request(range) => assert_eq!(range, "bytes=6-"),
        other => panic!("no request: {other:?}"),
    }
    assert_eq!(retry.total_retries(), 1);
}

#[test]
fn a_read_without_room_changes_nothing() {
    let mut retry = budget(3);
    for content_length in [None, Some(10)] {
        let mut reader = ResumableReader::new(&initial(content_length)).unwrap();
        reader.poll_read(&mut retry, ReaderEvent::Read(6));
        assert!(reader.accepts(&ReaderEvent::NoRoom));
        assert!(!reader.wants_retry(&ReaderEvent::NoRoom));
        let action = reader.poll_read(&mut retry, ReaderEvent::NoRoom);
        assert!(matches!(action, ReaderAction::Ready));
        assert!(matches!(reader.state(), ReaderState::Reading));
        assert_eq!(reader.bytes_delivered(), 6);
        reader.poll_read(&mut retry, ReaderEvent::Read(4));
        assert_eq!(reader.bytes_delivered(), 10);
    }
    assert_eq!(retry.total_retries(), 0);
    assert!(!reconnecting(None, 0).accepts(&ReaderEvent::NoRoom));
}

#[test]
fn an_early_end_without_budget_fails() {
    let mut retry = budget(0);
    let mut reader = ResumableReader::new(&initial(Some(10))).unwrap();
    assert!(reader.wants_retry(&ReaderEvent::Read(0)));
    let action = reader.poll_read(&mut retry, ReaderEvent::Read(0));
    assert_eq!(
        failure_of(action),
        "retry budget exhausted while recovering from premature EOF"
    );
    let action = reader.poll_read(&mut retry, ReaderEvent::Polled);
    assert_eq!(failure_of(action), "");
}

#[test]
fn a_transient_error_without_budget_is_propagated() {
    let mut retry = budget(0);
    let mut reader = ResumableReader::new(&initial(Some(10))).unwrap();
    let lost = io(IoErrorKind::TimedOut, "too slow");
    match reader.poll_read(&mut retry, ReaderEvent::ReadFailed(lost)) {
        ReaderAction::Propagate(err) => {
            assert_eq!(err.kind, IoErrorKind::TimedOut);
            assert_eq!(err.message, "too slow");
        }
        other => panic!("not propagated: {other:?}"),
    }
    let action = reader.poll_read(&mut retry, ReaderEvent::Polled);
    assert_eq!(
        failure_of(action),
        "retry budget exhausted after transient stream error: too slow"
    );
}

#[test]
fn other_errors_are_propagated_at_once() {
    let mut retry = budget(5);
    let mut reader = ResumableReader::new(&initial(Some(10))).unwrap();
    let denied = io(IoErrorKind::PermissionDenied, "no");
    match reader.poll_read(&mut retry, ReaderEvent::ReadFailed(denied)) {
        ReaderAction::Propagate(err) => assert_eq!(err.kind, IoErrorKind::PermissionDenied),
        other => panic!("not propagated: {other:?}"),
    }
    assert_eq!(retry.total_retries(), 0);
    let action = reader.poll_read(&mut retry, ReaderEvent::Polled);
    assert_eq!(failure_of(action), "non-transient stream error: no");
}

#[test]
fn failed_requests_are_repeated_until_the_budget_is_spent() {
    let mut retry = budget(12);
    let mut reader = ResumableReader::new(&initial(Some(10))).unwrap();
    let action = reader.poll_read(&mut retry, ReaderEvent::Read(0));
    assert!(matches!(action, ReaderAction::Sleep(_)));
    for _ in 0..11 {
        assert!(matches!(reader.state(), ReaderState::Backoff));
        let action = reader.poll_read(&mut retry, ReaderEvent::BackoffElapsed);
        assert!(matches!(action, ReaderAction::Request(_)));
        let unreachable = ReaderEvent::RequestFailed(request_error("no route"));
        let action = reader.poll_read(&mut retry, unreachable);
        assert!(matches!(action, ReaderAction::Sleep(_)));
    }
    let action = reader.poll_read(&mut retry, ReaderEvent::BackoffElapsed);
    assert!(matches!(action, ReaderAction::Request(_)));
    let unreachable = ReaderEvent::RequestFailed(request_error("no route"));
    let message = "retry budget exhausted after 12 reconnection attempt(s): no route";
    match reader.poll_read(&mut retry, unreachable) {
        ReaderAction::Exhausted(report, err) => {
            assert_eq!(report, message);
            assert_eq!(err.message, "no route");
        }
        other => panic!("not exhausted: {other:?}"),
    }
    assert_eq!(reader.reconnect_attempts(), 12);
    assert_eq!(retry.total_retries(), 12);
    let action = reader.poll_read(&mut retry, ReaderEvent::Polled);
    assert_eq!(failure_of(action), message);
}

#[test]
fn events_that_do_not_fit_are_told_apart() {
    let reader = ResumableReader::new(&initial(Some(10))).unwrap();
    assert!(reader.accepts(&ReaderEvent::Pending));
    assert!(reader.accepts(&ReaderEvent::Read(u64::MAX)));
    assert!(!reader.accepts(&ReaderEvent::Polled));
    assert!(!reader.accepts(&ReaderEvent::BackoffElapsed));
    assert!(!reader.accepts(&ReaderEvent::Responded(head(206))));

    let mut reader = reconnecting(Some(10), 4);
    assert!(reader.accepts(&ReaderEvent::Responded(head(206))));
    assert!(!reader.accepts(&ReaderEvent::Responded(head(99))));
    assert!(!reader.accepts(&ReaderEvent::Read(1)));
    let crowded = ResponseHead {
        retry_count: Some(u32::MAX),
        ..head(206)
    };
    assert_eq!(reader.handle_reconnect_response(&crowded), Ok(()));
    assert!(!reader.accepts(&ReaderEvent::Read(u64::MAX)));
    assert!(reader.accepts(&ReaderEvent::Read(0)));

    let mut retry = budget(3);
    assert!(reader.can_back_off(&retry, &ReaderEvent::Read(0)));
    let lost = ErrorChain {
        error: ErrorLayer::H2,
        sources: vec![],
    };
    assert!(retry.should_retry(&lost, 0).is_some());
    assert!(!reader.can_back_off(&retry, &ReaderEvent::Read(0)));
}

#[test]
fn errors_convert_and_display() {
    let err = ResumableError::from(request_error("refused"));
    assert!(matches!(err, ResumableError::Request(_)));
    assert_eq!(err.message(), "refused");
    let err = ResumableError::from(io(IoErrorKind::TimedOut, "slow"));
    assert!(matches!(err, ResumableError::Io(_)));
    assert_eq!(err.message(), "slow");
}
