use rewrk_core::collector::CollectorActor;
use rewrk_core::connection::{IpAddress, SocketAddress};
use rewrk_core::headers::header_value_of;
use rewrk_core::producer::{GoSignal, ProducerAction, ProducerStart, ProducerYield, RequestTarget};
use rewrk_core::connection::tls_settings;
use rewrk_core::runtime::{
    create_connector, default_num_workers, host_lookup, read_scheme, BaseUri, HostLookup,
};
use rewrk_core::validator::ResponseHead;
use rewrk_core::worker::WorkerShare;
use rewrk_core::{
    Batch, BenchmarkError, DefaultValidator, HttpProtocol, ProducerActor, ReWrkBenchmark, Request,
    RequestBatch, RequestKey, ResponseValidator, SampleMetadata, Scheme, ValidationError,
    DEFAULT_WINDOW_DURATION,
};

fn uri(scheme: Option<&str>, host: Option<&str>, port: Option<u16>) -> BaseUri {
    BaseUri { scheme: scheme.map(str::to_string), host: host.map(str::to_string), port }
}

fn local(port: u16) -> SocketAddress {
    SocketAddress { ip: IpAddress::V4(0x7f00_0001), port }
}

fn lookup(host: &str, port: u16) -> HostLookup {
    HostLookup {
        scheme: Scheme::Http,
        host: host.to_string(),
        port,
        protocol: HttpProtocol::HTTP1,
    }
}

#[test]
fn uri_text_is_read() {
    let parsed = BaseUri::parse("http://127.0.0.1:1").expect("a URI");
    assert_eq!(parsed.scheme.as_deref(), Some("http"));
    assert_eq!(parsed.host.as_deref(), Some("127.0.0.1"));
    assert_eq!(parsed.port, Some(1));
    let parsed = BaseUri::parse("https://example.com/path?q=1").expect("a URI");
    assert_eq!(parsed.scheme.as_deref(), Some("https"));
    assert_eq!(parsed.host.as_deref(), Some("example.com"));
    assert_eq!(parsed.port, None);
}

#[test]
fn uri_without_scheme_or_authority_is_read() {
    let parsed = BaseUri::parse("/only/a/path").expect("a URI");
    assert_eq!(parsed.scheme, None);
    assert_eq!(parsed.host, None);
    assert_eq!(parsed.port, None);
    let parsed = BaseUri::parse("example.com:8080").expect("a URI");
    assert_eq!(parsed.scheme, None);
    assert_eq!(parsed.host.as_deref(), Some("example.com"));
    assert_eq!(parsed.port, Some(8080));
}

#[test]
fn text_that_is_no_uri_is_refused() {
    assert!(BaseUri::parse("").is_none());
    assert!(BaseUri::parse("http://exa mple.com").is_none());
}

#[test]
fn missing_scheme_is_refused() {
    let result = host_lookup(&uri(None, Some("example.com"), None), HttpProtocol::HTTP1);
    assert!(matches!(result, Err(BenchmarkError::MissingScheme)));
    assert!(matches!(
        read_scheme(&uri(None, None, None), HttpProtocol::HTTP2),
        Err(BenchmarkError::MissingScheme)
    ));
}

#[test]
fn other_schemes_are_refused() {
    let result = host_lookup(&uri(Some("ftp"), Some("example.com"), None), HttpProtocol::HTTP1);
    assert!(matches!(result, Err(BenchmarkError::InvalidScheme(scheme)) if scheme == "ftp"));
    let result = read_scheme(&uri(Some("HTTP"), None, None), HttpProtocol::HTTP1);
    assert!(matches!(result, Err(BenchmarkError::InvalidScheme(scheme)) if scheme == "HTTP"));
    let result = read_scheme(&uri(Some(""), None, None), HttpProtocol::HTTP1);
    assert!(matches!(result, Err(BenchmarkError::InvalidScheme(scheme)) if scheme.is_empty()));
}

#[test]
fn missing_host_is_refused() {
    let result = host_lookup(&uri(Some("http"), None, None), HttpProtocol::HTTP1);
    assert!(matches!(result, Err(BenchmarkError::MissingHost)));
}

#[test]
fn port_defaults_by_scheme() {
    let found = host_lookup(&uri(Some("http"), Some("example.com"), None), HttpProtocol::HTTP1)
        .expect("a target");
    assert!(matches!(found.scheme, Scheme::Http));
    assert_eq!(found.host, "example.com");
    assert_eq!(found.port, 80);
    assert_eq!(found.protocol, HttpProtocol::HTTP1);
    let found = host_lookup(&uri(Some("http"), Some("example.com"), Some(8080)), HttpProtocol::HTTP2)
        .expect("a target");
    assert_eq!(found.port, 8080);
    assert_eq!(found.protocol, HttpProtocol::HTTP2);
}

#[test]
fn https_builds_a_tls_context() {
    for protocol in [HttpProtocol::HTTP1, HttpProtocol::HTTP2] {
        let found = host_lookup(&uri(Some("https"), Some("example.com"), None), protocol)
            .expect("a target");
        match &found.scheme {
            Scheme::Https(context) => {
                assert!(context.settings().accept_invalid_certs);
                assert!(context.settings().accept_invalid_hostnames);
                assert_eq!(context.settings().alpn, protocol.alpn());
            },
            Scheme::Http => panic!("https gives a TLS context"),
        }
        assert_eq!(found.scheme.default_port(), 443);
        assert_eq!(found.port, 443);
    }
    let found = host_lookup(&uri(Some("https"), Some("example.com"), Some(80)), HttpProtocol::HTTP1)
        .expect("a target");
    assert_eq!(found.port, 80);
    assert!(matches!(
        host_lookup(&uri(Some("https"), None, None), HttpProtocol::HTTP1),
        Err(BenchmarkError::MissingHost)
    ));
}

#[test]
fn unreachable_host_still_gives_a_connector() {
    let parsed = BaseUri::parse("http://127.0.0.1:1").expect("a URI");
    let target = host_lookup(&parsed, HttpProtocol::HTTP1).expect("a target");
    assert_eq!(target.port, 1);
    let connector = create_connector(target, Ok(vec![local(1)])).expect("a connector");
    assert_eq!(connector.addr(), local(1));
    assert_eq!(connector.host(), "127.0.0.1");
    assert!(!connector.http2_only());
    assert_eq!(connector.connect_timeout().attempts_left(), 3);
}

#[test]
fn connector_prefers_ipv4() {
    let six = SocketAddress { ip: IpAddress::V6(1), port: 80 };
    let connector =
        create_connector(lookup("localhost", 80), Ok(vec![six, local(80), local(81)])).unwrap();
    assert_eq!(connector.addr(), local(80));
    let connector = create_connector(lookup("localhost", 80), Ok(vec![six])).unwrap();
    assert_eq!(connector.addr(), six);
}

#[test]
fn failed_lookup_is_refused_with_its_error() {
    let failure = std::io::Error::new(std::io::ErrorKind::NotFound, "no such host");
    let result = create_connector(lookup("nowhere.test", 80), Err(failure));
    assert!(matches!(result, Err(BenchmarkError::AddressLookup(error))
        if error.kind() == std::io::ErrorKind::NotFound && error.to_string() == "no such host"));
}

#[test]
fn lookup_without_an_address_is_refused() {
    let result = create_connector(lookup("nowhere.test", 80), Ok(Vec::new()));
    assert!(matches!(result, Err(BenchmarkError::AddressLookup(error))
        if error.kind() == std::io::ErrorKind::Other
            && error.to_string() == "Failed to lookup hostname"));
}

#[test]
fn host_that_is_no_header_value_is_refused() {
    let result = create_connector(lookup("bad\nhost", 80), Ok(vec![local(80)]));
    assert!(matches!(result, Err(BenchmarkError::MissingHost)));
    let result = create_connector(lookup("bad\u{7f}host", 80), Ok(vec![local(80)]));
    assert!(matches!(result, Err(BenchmarkError::MissingHost)));
    assert!(create_connector(lookup("tab\tis fine", 80), Ok(vec![local(80)])).is_ok());
}

#[test]
fn host_header_is_the_host() {
    let connector = create_connector(lookup("example.com", 8080), Ok(vec![local(8080)])).unwrap();
    let connection = connector.connect(rewrk_core::usage::IoUsageTracker::new());
    let request = Request {
        method: "GET".to_string(),
        target: RequestTarget { scheme: None, authority: None, path_and_query: None },
        headers: Vec::new(),
        body: Vec::new(),
    };
    let ready = connection.prepare_request(request);
    assert_eq!(ready.headers.len(), 1);
    assert_eq!(ready.headers[0].name, "host");
    assert_eq!(ready.headers[0].value, b"example.com");
    let connector = create_connector(lookup("bücher.example", 80), Ok(vec![local(80)])).unwrap();
    let ready = connector.connect(rewrk_core::usage::IoUsageTracker::new()).prepare_request(Request {
        method: "GET".to_string(),
        target: RequestTarget { scheme: None, authority: None, path_and_query: None },
        headers: Vec::new(),
        body: Vec::new(),
    });
    assert_eq!(ready.headers[0].value, "bücher.example".as_bytes());
}

#[test]
fn default_workers_leave_one_cpu_free() {
    assert_eq!(default_num_workers(0), 1);
    assert_eq!(default_num_workers(1), 1);
    assert_eq!(default_num_workers(2), 1);
    assert_eq!(default_num_workers(3), 2);
    assert_eq!(default_num_workers(64), 63);
    assert_eq!(default_num_workers(usize::MAX), usize::MAX - 1);
}

#[test]
fn benchmark_defaults() {
    let connector = create_connector(lookup("example.com", 80), Ok(vec![local(80)])).unwrap();
    let (mailbox, _inbox) = CollectorActor::mailbox();
    let benchmark = ReWrkBenchmark::create(connector, 64, mailbox);
    assert!(benchmark.num_workers() >= 1);
    assert_eq!(benchmark.concurrency(), 64);
    assert_eq!(benchmark.sample_window(), 10_000_000_000);
    assert_eq!(DEFAULT_WINDOW_DURATION, 10_000_000_000);
    assert_eq!(benchmark.connector().addr(), local(80));
    assert_eq!(benchmark.connector().connect_timeout().attempts_left(), 3);
    assert!(!benchmark.shutdown_handle().should_abort());
    let head = ResponseHead { status: 204, headers: Vec::new() };
    assert!(benchmark.validator().validate(RequestKey::new(0, 0), head, Vec::new()).is_ok());
}

#[test]
fn benchmark_settings_can_be_changed() {
    let connector = create_connector(lookup("example.com", 80), Ok(vec![local(80)])).unwrap();
    let (mailbox, inbox) = CollectorActor::mailbox();
    let mut benchmark = ReWrkBenchmark::with_workers(connector, 10, mailbox, 8);
    assert_eq!(benchmark.num_workers(), 8);
    benchmark.set_num_workers(4);
    benchmark.set_sample_window(30_000_000_000);
    benchmark.set_connection_retry_max(9);
    assert_eq!(benchmark.num_workers(), 4);
    assert_eq!(benchmark.concurrency(), 10);
    assert_eq!(benchmark.sample_window(), 30_000_000_000);
    assert_eq!(benchmark.connector().connect_timeout().attempts_left(), 9);
    assert_eq!(
        benchmark.run(),
        vec![
            WorkerShare { worker_id: 0, concurrency: 3 },
            WorkerShare { worker_id: 1, concurrency: 3 },
            WorkerShare { worker_id: 2, concurrency: 2 },
            WorkerShare { worker_id: 3, concurrency: 2 },
        ]
    );
    let factory = benchmark.sample_factory(3, 1);
    assert_eq!(factory.window_timeout(), 30_000_000_000);
    assert_eq!(factory.metadata(), SampleMetadata { worker_id: 3, concurrency_id: 1 });
    assert!(factory.submit_sample(factory.new_sample(5)).is_ok());
    assert_eq!(inbox.try_recv().expect("a sample").tag(), 5);
}

struct RejectAll;

impl ResponseValidator for RejectAll {
    fn validate(
        &self,
        _request_key: RequestKey,
        _head: ResponseHead,
        _body: Vec<u8>,
    ) -> Result<(), ValidationError> {
        Err(ValidationError::Other("rejected".to_string()))
    }
}

#[test]
fn benchmark_validator_can_be_replaced() {
    let connector = create_connector(lookup("example.com", 80), Ok(vec![local(80)])).unwrap();
    let (mailbox, _inbox) = CollectorActor::mailbox();
    let benchmark = ReWrkBenchmark::with_workers(connector, 2, mailbox, 2).set_validator(RejectAll);
    assert_eq!(benchmark.num_workers(), 2);
    assert_eq!(benchmark.concurrency(), 2);
    let head = ResponseHead { status: 200, headers: Vec::new() };
    assert!(benchmark.validator().validate(RequestKey::new(0, 0), head, Vec::new()).is_err());
}

#[test]
fn benchmark_shutdown_sets_the_flag() {
    let connector = create_connector(lookup("example.com", 80), Ok(vec![local(80)])).unwrap();
    let (mailbox, _inbox) = CollectorActor::mailbox();
    let benchmark = ReWrkBenchmark::with_workers(connector, 2, mailbox, 1);
    let handle = benchmark.shutdown_handle().clone();
    assert!(!handle.should_abort());
    benchmark.shutdown();
    assert!(handle.should_abort());
    assert!(benchmark.shutdown_handle().should_abort());
}

#[test]
fn default_validator_accepts_success_only() {
    let validator = DefaultValidator;
    let key = RequestKey::new(0, 0);
    for status in [200u16, 201, 204, 299] {
        let head = ResponseHead { status, headers: Vec::new() };
        assert!(validator.validate(key, head, Vec::new()).is_ok());
    }
    for status in [100u16, 199, 300, 301, 404, 429, 500, 599] {
        let head = ResponseHead { status, headers: Vec::new() };
        let verdict = validator.validate(key, head, b"body".to_vec());
        assert!(matches!(verdict, Err(ValidationError::InvalidStatus(code, headers))
            if code == status && headers.is_empty()));
    }
}

#[test]
fn producer_buffer_holds_four_batches_per_connection() {
    assert_eq!(ProducerActor::buffer_size(0), 0);
    assert_eq!(ProducerActor::buffer_size(1), 4);
    assert_eq!(ProducerActor::buffer_size(16), 64);
    assert_eq!(ProducerActor::buffer_size(usize::MAX / 4), usize::MAX - 3);
}

#[test]
fn producer_actor_follows_its_producer() {
    assert!(matches!(ProducerActor::on_yield(ProducerYield::End), ProducerAction::Close));
    assert!(matches!(ProducerActor::on_yield(ProducerYield::Failed), ProducerAction::LogAndClose));
    let batch = Batch { tag: 3, first_request_id: 10, requests: Vec::new() };
    assert!(matches!(ProducerActor::on_yield(ProducerYield::Batch(batch)),
        ProducerAction::Send(sent) if sent.tag == 3 && sent.first_request_id == 10));
}

#[test]
fn batch_numbers_its_requests() {
    let request = || Request {
        method: "GET".to_string(),
        target: RequestTarget { scheme: None, authority: None, path_and_query: None },
        headers: Vec::new(),
        body: Vec::new(),
    };
    let batch = Batch { tag: 0, first_request_id: usize::MAX - 2, requests: vec![request(), request()] };
    assert!(batch.is_numbered());
    let batch = Batch {
        tag: 0,
        first_request_id: usize::MAX - 2,
        requests: vec![request(), request(), request()],
    };
    assert!(!batch.is_numbered());
    assert!(matches!(RequestBatch::Batch(batch), RequestBatch::Batch(_)));
    assert!(matches!(RequestBatch::End, RequestBatch::End));
}

#[test]
fn producer_waits_for_the_go() {
    assert_eq!(ProducerActor::on_go(GoSignal::Go), ProducerStart::Produce);
    assert_eq!(ProducerActor::on_go(GoSignal::Dropped), ProducerStart::Close);
}

#[test]
fn tls_context_is_lenient_and_offers_one_protocol() {
    let settings = tls_settings(HttpProtocol::HTTP1);
    assert!(settings.accept_invalid_certs);
    assert!(settings.accept_invalid_hostnames);
    assert_eq!(settings.alpn, "http/1.1");
    let settings = tls_settings(HttpProtocol::HTTP2);
    assert!(settings.accept_invalid_certs);
    assert!(settings.accept_invalid_hostnames);
    assert_eq!(settings.alpn, "h2");
}

#[test]
fn header_value_keeps_its_bytes() {
    assert_eq!(header_value_of(b"text/plain"), Some(b"text/plain".to_vec()));
    assert_eq!(header_value_of(b""), Some(Vec::new()));
    assert_eq!(header_value_of(b"a\tb \xff\x80"), Some(b"a\tb \xff\x80".to_vec()));
    assert_eq!(header_value_of(b"a\nb"), None);
    assert_eq!(header_value_of(b"\x1f"), None);
    assert_eq!(header_value_of(b"ok\x7f"), None);
    assert_eq!(header_value_of(b"\x00"), None);
    for byte in 0..=255u8 {
        let valid = http::HeaderValue::from_bytes(&[byte]).is_ok();
        assert_eq!(header_value_of(&[byte]).is_some(), valid);
    }
}
