use rewrk_core::connection::{
    is_host_name, pick_address, response_step, AttemptOutcome, ConnectAttempts, ConnectDecision, IpAddress,
    RateLimitRetry, ReWrkConnection, ReWrkConnector, ResponseStep, SocketAddress, BACKOFF_MAX,
    BACKOFF_MIN, BACKOFF_RETRIES, RETRY_MAX_DEFAULT, RETRY_PAUSE, TOO_MANY_REQUESTS,
};
use rewrk_core::producer::RequestTarget;
use rewrk_core::usage::IoUsageTracker;
use rewrk_core::validator::Header;
use rewrk_core::{HttpMode, HttpProtocol, Request, Scheme};

fn v4(last: u32, port: u16) -> SocketAddress {
    SocketAddress { ip: IpAddress::V4(0x7f00_0000 + last), port }
}

fn v6(last: u128, port: u16) -> SocketAddress {
    SocketAddress { ip: IpAddress::V6(last), port }
}

fn connector(protocol: HttpProtocol) -> ReWrkConnector {
    ReWrkConnector::new(
        b"example.com".to_vec(),
        v4(1, 8080),
        protocol,
        Scheme::Http,
        "example.com".to_string(),
    )
}

fn header(name: &str, value: &str) -> Header {
    Header { name: name.to_string(), value: value.as_bytes().to_vec() }
}

fn pairs(headers: &[Header]) -> Vec<(String, String)> {
    headers
        .iter()
        .map(|header| (header.name.clone(), String::from_utf8(header.value.clone()).unwrap()))
        .collect()
}

#[test]
fn protocol_knows_itself() {
    assert!(HttpProtocol::HTTP1.is_http1());
    assert!(!HttpProtocol::HTTP1.is_http2());
    assert!(HttpProtocol::HTTP2.is_http2());
    assert!(!HttpProtocol::HTTP2.is_http1());
    assert!(HttpMode::HTTP2.is_http2());
    assert!(HttpMode::HTTP1.is_http1());
}

#[test]
fn alpn_offers_only_the_requested_protocol() {
    assert_eq!(HttpProtocol::HTTP1.alpn(), "http/1.1");
    assert_eq!(HttpProtocol::HTTP2.alpn(), "h2");
}

#[test]
fn default_port_goes_by_scheme() {
    assert_eq!(Scheme::Http.default_port(), 80);
}

#[test]
fn first_ipv4_address_is_preferred() {
    assert_eq!(pick_address(&vec![v6(1, 80), v4(1, 80), v4(2, 80)]), Some(v4(1, 80)));
    assert_eq!(pick_address(&vec![v4(3, 80), v6(1, 80)]), Some(v4(3, 80)));
    assert_eq!(pick_address(&vec![v4(9, 1)]), Some(v4(9, 1)));
}

#[test]
fn last_address_is_taken_without_ipv4() {
    assert_eq!(pick_address(&vec![v6(1, 80), v6(2, 80), v6(3, 80)]), Some(v6(3, 80)));
    assert_eq!(pick_address(&vec![v6(7, 443)]), Some(v6(7, 443)));
}

#[test]
fn no_address_gives_none() {
    assert_eq!(pick_address(&Vec::new()), None);
}

#[test]
fn socket_address_knows_its_family() {
    assert!(v4(1, 1).is_ipv4());
    assert!(!v6(1, 1).is_ipv4());
}

#[test]
fn connector_defaults() {
    let connector = connector(HttpProtocol::HTTP1);
    assert_eq!(RETRY_MAX_DEFAULT, 3);
    assert_eq!(connector.connect_timeout().attempts_left(), 3);
    assert_eq!(connector.addr(), v4(1, 8080));
    assert_eq!(connector.host(), "example.com");
    assert!(matches!(connector.scheme(), Scheme::Http));
    assert!(!connector.http2_only());
    assert!(!connector.connect(IoUsageTracker::new()).retry().enabled);
}

#[test]
fn http2_connector_restricts_the_handshake() {
    assert!(connector(HttpProtocol::HTTP2).http2_only());
}

#[test]
fn connector_settings_can_be_changed() {
    let mut connector = connector(HttpProtocol::HTTP1);
    connector.set_retry_max(7);
    assert_eq!(connector.connect_timeout().attempts_left(), 7);
    connector.enable_ratelimit_retry();
    assert!(connector.connect(IoUsageTracker::new()).retry().enabled);
    assert_eq!(connector.connect_timeout().attempts_left(), 7);
    assert_eq!(connector.addr(), v4(1, 8080));
    let copy = connector.clone();
    assert_eq!(copy.host(), "example.com");
    assert_eq!(copy.connect_timeout().attempts_left(), 7);
}

#[test]
fn connection_is_returned_at_once() {
    let mut attempts = ConnectAttempts::new(3);
    let decision: ConnectDecision<u8, &str> = attempts.step(AttemptOutcome::Connected(42));
    assert!(matches!(decision, ConnectDecision::Done(Ok(Some(42)))));
    assert_eq!(attempts.attempts_left(), 3);
}

#[test]
fn failed_attempt_is_repeated_while_budget_is_left() {
    let mut attempts = ConnectAttempts::new(2);
    assert_eq!(RETRY_PAUSE, 500_000_000);
    let first: ConnectDecision<u8, &str> = attempts.step(AttemptOutcome::Failed("first"));
    assert!(matches!(first, ConnectDecision::RetryAfter(500_000_000)));
    assert_eq!(attempts.attempts_left(), 1);
    let second: ConnectDecision<u8, &str> = attempts.step(AttemptOutcome::Failed("second"));
    assert!(matches!(second, ConnectDecision::RetryAfter(500_000_000)));
    assert_eq!(attempts.attempts_left(), 0);
    let third: ConnectDecision<u8, &str> = attempts.step(AttemptOutcome::Failed("third"));
    assert!(matches!(third, ConnectDecision::Done(Err("third"))));
    assert_eq!(attempts.attempts_left(), 0);
}

#[test]
fn default_budget_allows_four_attempts() {
    let mut attempts = connector(HttpProtocol::HTTP1).connect_timeout();
    let mut pauses = 0;
    let last = loop {
        let decision: ConnectDecision<u8, usize> = attempts.step(AttemptOutcome::Failed(pauses));
        match decision {
            ConnectDecision::RetryAfter(nanos) => {
                assert_eq!(nanos, 500_000_000);
                pauses += 1;
            },
            ConnectDecision::Done(result) => break result,
        }
    };
    assert_eq!(pauses, 3);
    assert!(matches!(last, Err(3)));
}

#[test]
fn no_budget_returns_the_first_error() {
    let mut attempts = ConnectAttempts::new(0);
    let decision: ConnectDecision<u8, &str> = attempts.step(AttemptOutcome::Failed("refused"));
    assert!(matches!(decision, ConnectDecision::Done(Err("refused"))));
}

#[test]
fn deadline_without_a_failure_returns_nothing() {
    let mut attempts = ConnectAttempts::new(3);
    let decision: ConnectDecision<u8, &str> = attempts.step(AttemptOutcome::DeadlineElapsed);
    assert!(matches!(decision, ConnectDecision::Done(Ok(None))));
}

#[test]
fn deadline_after_a_failure_returns_nothing() {
    let mut attempts = ConnectAttempts::new(3);
    let _: ConnectDecision<u8, &str> = attempts.step(AttemptOutcome::Failed("first"));
    let _: ConnectDecision<u8, &str> = attempts.step(AttemptOutcome::Failed("second"));
    let decision: ConnectDecision<u8, &str> = attempts.step(AttemptOutcome::DeadlineElapsed);
    assert!(matches!(decision, ConnectDecision::Done(Ok(None))));
    let mut spent = ConnectAttempts::new(0);
    let decision: ConnectDecision<u8, &str> = spent.step(AttemptOutcome::DeadlineElapsed);
    assert!(matches!(decision, ConnectDecision::Done(Ok(None))));
}

#[test]
fn rate_limit_is_ignored_unless_enabled() {
    let mut retry = RateLimitRetry::new(false);
    assert_eq!(retry.on_response(429), ResponseStep::Deliver);
    assert_eq!(retry.attempt, 0);
    assert_eq!(response_step(false, 0, 429, 9), ResponseStep::Deliver);
}

#[test]
fn other_statuses_are_delivered() {
    let mut retry = RateLimitRetry::new(true);
    for status in [200u16, 404, 428, 430, 500, 503] {
        assert_eq!(retry.on_response(status), ResponseStep::Deliver);
    }
    assert_eq!(retry.attempt, 0);
    assert_eq!(TOO_MANY_REQUESTS, 429);
}

#[test]
fn rate_limited_request_is_repeated_twelve_times() {
    let mut retry = RateLimitRetry::new(true);
    assert_eq!(BACKOFF_RETRIES, 12);
    assert_eq!(BACKOFF_MIN, 500_000_000);
    assert_eq!(BACKOFF_MAX, 30_000_000_000);
    let mut pauses = Vec::new();
    for attempt in 0..12u32 {
        assert_eq!(retry.attempt, attempt);
        match retry.on_response(429) {
            ResponseStep::RetryAfter(pause) => pauses.push(pause),
            ResponseStep::Deliver => panic!("attempt {} was not repeated", attempt),
        }
    }
    assert_eq!(retry.attempt, 12);
    assert_eq!(retry.on_response(429), ResponseStep::Deliver);
    assert_eq!(retry.attempt, 12);
    assert!(pauses.iter().all(|pause| BACKOFF_MIN <= *pause && *pause <= BACKOFF_MAX));
    // The pauses grow from the shortest to the longest.
    assert!(pauses[0] < 1_000_000_000);
    assert_eq!(pauses[11], BACKOFF_MAX);
    assert!(pauses[4] > pauses[0]);
}

#[test]
fn repetition_ends_with_the_first_other_status() {
    let mut retry = RateLimitRetry::new(true);
    assert!(matches!(retry.on_response(429), ResponseStep::RetryAfter(_)));
    assert!(matches!(retry.on_response(429), ResponseStep::RetryAfter(_)));
    assert_eq!(retry.on_response(200), ResponseStep::Deliver);
    assert_eq!(retry.attempt, 2);
}

#[test]
fn response_step_for_a_given_pause() {
    assert_eq!(response_step(true, 0, 429, 77), ResponseStep::RetryAfter(77));
    assert_eq!(response_step(true, 11, 429, 5), ResponseStep::RetryAfter(5));
    assert_eq!(response_step(true, 12, 429, 5), ResponseStep::Deliver);
    assert_eq!(response_step(true, 3, 200, 5), ResponseStep::Deliver);
}

#[test]
fn request_keeps_only_path_and_query() {
    let connection = ReWrkConnection::new(b"example.com".to_vec(), IoUsageTracker::new(), false);
    let request = Request {
        method: "POST".to_string(),
        target: RequestTarget {
            scheme: Some("https".to_string()),
            authority: Some("other.test:9000".to_string()),
            path_and_query: Some("/search?q=1".to_string()),
        },
        headers: vec![header("accept", "*/*")],
        body: b"payload".to_vec(),
    };
    let ready = connection.prepare_request(request);
    assert_eq!(ready.method, "POST");
    assert_eq!(ready.body, b"payload");
    assert_eq!(ready.target.scheme, None);
    assert_eq!(ready.target.authority, None);
    assert_eq!(ready.target.path_and_query.as_deref(), Some("/search?q=1"));
}

#[test]
fn request_without_a_path_stays_without() {
    let connection = ReWrkConnection::new(b"h".to_vec(), IoUsageTracker::new(), false);
    let request = Request {
        method: "GET".to_string(),
        target: RequestTarget { scheme: None, authority: None, path_and_query: None },
        headers: Vec::new(),
        body: Vec::new(),
    };
    let ready = connection.prepare_request(request);
    assert_eq!(ready.target.path_and_query, None);
    assert_eq!(pairs(&ready.headers), vec![("host".to_string(), "h".to_string())]);
}

#[test]
fn host_header_is_overwritten() {
    let connection = ReWrkConnection::new(b"example.com".to_vec(), IoUsageTracker::new(), false);
    let request = Request {
        method: "GET".to_string(),
        target: RequestTarget {
            scheme: None,
            authority: None,
            path_and_query: Some("/".to_string()),
        },
        headers: vec![
            header("accept", "*/*"),
            header("host", "wrong.test"),
            header("x-trace", "1"),
            header("host", "also-wrong.test"),
            header("hostess", "kept"),
        ],
        body: Vec::new(),
    };
    let ready = connection.prepare_request(request);
    assert_eq!(
        pairs(&ready.headers),
        vec![
            ("accept".to_string(), "*/*".to_string()),
            ("x-trace".to_string(), "1".to_string()),
            ("hostess".to_string(), "kept".to_string()),
            ("host".to_string(), "example.com".to_string()),
        ]
    );
}

#[test]
fn connection_counts_its_bytes() {
    let tracker = IoUsageTracker::new();
    let connection = ReWrkConnection::new(Vec::new(), tracker.clone(), true);
    assert!(connection.retry().enabled);
    assert_eq!(connection.retry().attempt, 0);
    assert_eq!(connection.usage().get_received_count(), 0);
    assert_eq!(connection.usage().get_written_count(), 0);
    tracker.add_received(100);
    tracker.add_written(7);
    tracker.add_received(20);
    assert_eq!(connection.usage().get_received_count(), 120);
    assert_eq!(connection.usage().get_written_count(), 7);
    assert_eq!(tracker.get_received_count(), 120);
}

#[test]
fn host_header_is_overwritten_in_any_case() {
    let connection = ReWrkConnection::new(b"example.com".to_vec(), IoUsageTracker::new(), false);
    let request = Request {
        method: "GET".to_string(),
        target: RequestTarget { scheme: None, authority: None, path_and_query: None },
        headers: vec![
            header("Host", "wrong.test"),
            header("accept", "*/*"),
            header("HOST", "wrong.test"),
            header("hOsT", "wrong.test"),
            header("host ", "kept"),
            header("ho\u{17f}t", "kept"),
        ],
        body: Vec::new(),
    };
    let ready = connection.prepare_request(request);
    assert_eq!(
        pairs(&ready.headers),
        vec![
            ("accept".to_string(), "*/*".to_string()),
            ("host ".to_string(), "kept".to_string()),
            ("ho\u{17f}t".to_string(), "kept".to_string()),
            ("host".to_string(), "example.com".to_string()),
        ]
    );
    let only = Request {
        method: "GET".to_string(),
        target: RequestTarget { scheme: None, authority: None, path_and_query: None },
        headers: vec![header("Host", "wrong.test")],
        body: Vec::new(),
    };
    assert_eq!(
        pairs(&connection.prepare_request(only).headers),
        vec![("host".to_string(), "example.com".to_string())]
    );
}

#[test]
fn host_name_is_known_in_any_case() {
    for name in ["host", "Host", "HOST", "hOST", "hoSt"] {
        assert!(is_host_name(name));
    }
    for name in ["", "hos", "hosts", "h\u{f6}st", "ho\u{17f}t", "h0st", " host", "hast"] {
        assert!(!is_host_name(name));
    }
}

#[test]
fn pauses_double_within_their_jitter() {
    for _ in 0..50 {
        let mut retry = RateLimitRetry::new(true);
        let mut base: u128 = 500_000_000;
        for attempt in 0..12u32 {
            let pause = match retry.on_response(429) {
                ResponseStep::RetryAfter(pause) => pause as u128,
                ResponseStep::Deliver => panic!("attempt {} was not repeated", attempt),
            };
            let clamp = |nanos: u128| nanos.clamp(500_000_000, 30_000_000_000);
            assert!(clamp(base * 71 / 100) <= pause, "attempt {}: {}", attempt, pause);
            assert!(pause <= clamp(base * 129 / 100), "attempt {}: {}", attempt, pause);
            base *= 2;
        }
    }
}
