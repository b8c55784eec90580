use rewrk_core::args::{
    find_separator, parse_duration, parse_duration_bytes, parse_header, parse_header_bytes,
    DurationError, HeaderError,
};
use rewrk_core::connection::{IpAddress, SocketAddress};
use rewrk_core::proto::{
    decimal, get_preferred_ip, host_header_text, BenchType, Http, Http2, HttpConnector, UriScheme,
};
use rewrk_core::results::{count_error, find_message, reverse, ErrorCount, WorkerResult};
use rewrk_core::utils::{div_mod, humanize, HumanDuration, RoundRobin};

fn v4(last: u32) -> SocketAddress {
    SocketAddress { ip: IpAddress::V4(last), port: 80 }
}

fn v6(last: u128) -> SocketAddress {
    SocketAddress { ip: IpAddress::V6(last), port: 80 }
}

fn count(message: &str, count: usize) -> ErrorCount {
    ErrorCount { message: message.to_string(), count }
}

fn counts(result: &WorkerResult) -> Vec<(String, usize)> {
    result.error_map.iter().map(|entry| (entry.message.clone(), entry.count)).collect()
}

#[test]
fn div_mod_divides_with_remainder() {
    assert_eq!(div_mod(10_000, 60), (166, 40));
    assert_eq!(div_mod(59, 60), (0, 59));
    assert_eq!(div_mod(0, 7), (0, 0));
    assert_eq!(div_mod(u64::MAX, 1), (u64::MAX, 0));
    assert_eq!(div_mod(u64::MAX, u64::MAX), (1, 0));
}

#[test]
fn seconds_are_split_for_readers() {
    assert_eq!(humanize(10_000), HumanDuration { days: 0, hours: 2, minutes: 46, seconds: 40 });
    assert_eq!(humanize(0), HumanDuration { days: 0, hours: 0, minutes: 0, seconds: 0 });
    assert_eq!(humanize(86_399), HumanDuration { days: 0, hours: 23, minutes: 59, seconds: 59 });
    assert_eq!(humanize(86_400), HumanDuration { days: 1, hours: 0, minutes: 0, seconds: 0 });
    assert_eq!(humanize(963_124), HumanDuration { days: 11, hours: 3, minutes: 32, seconds: 4 });
    let most = humanize(u64::MAX);
    assert_eq!(
        ((most.days as u128 * 24 + most.hours as u128) * 60 + most.minutes as u128) * 60
            + most.seconds as u128,
        u64::MAX as u128
    );
}

#[test]
fn turns_go_round() {
    let mut turns = RoundRobin::new(3);
    let handed: Vec<usize> = (0..7).map(|_| turns.next()).collect();
    assert_eq!(handed, vec![0, 1, 2, 0, 1, 2, 0]);
    assert_eq!(turns.cursor, 1);
    let mut alone = RoundRobin::new(1);
    assert_eq!(alone.next(), 0);
    assert_eq!(alone.next(), 0);
}

#[test]
fn bench_type_knows_itself() {
    assert!(BenchType::HTTP1.is_http1());
    assert!(!BenchType::HTTP1.is_http2());
    assert!(BenchType::HTTP2.is_http2());
    assert!(!BenchType::HTTP2.is_http1());
}

#[test]
fn protocols_name_their_alpn() {
    assert!(!Http.is_http2());
    assert!(Http2.is_http2());
    assert_eq!(Http.alpn_protocols(), vec![b"http/1.1".to_vec()]);
    assert_eq!(Http2.alpn_protocols(), vec![b"h2".to_vec()]);
    assert_eq!(HttpConnector::new(), HttpConnector);
}

#[test]
fn uri_scheme_defaults_to_http() {
    assert_eq!(UriScheme::from(Some("https")), UriScheme::HTTPS);
    assert_eq!(UriScheme::from(Some("http")), UriScheme::HTTP);
    assert_eq!(UriScheme::from(Some("ftp")), UriScheme::HTTP);
    assert_eq!(UriScheme::from(Some("HTTPS")), UriScheme::HTTP);
    assert_eq!(UriScheme::from(None), UriScheme::HTTP);
    assert_eq!(UriScheme::HTTP.default_port(), 80);
    assert_eq!(UriScheme::HTTPS.default_port(), 443);
}

#[test]
fn front_end_prefers_ipv4_then_the_first_address() {
    assert_eq!(get_preferred_ip(&vec![v6(1), v4(1), v4(2)]), Some(v4(1)));
    assert_eq!(get_preferred_ip(&vec![v4(3), v6(1)]), Some(v4(3)));
    assert_eq!(get_preferred_ip(&vec![v6(1), v6(2), v6(3)]), Some(v6(1)));
    assert_eq!(get_preferred_ip(&vec![v6(9)]), Some(v6(9)));
    assert_eq!(get_preferred_ip(&Vec::new()), None);
}

#[test]
fn duration_adds_its_units() {
    assert_eq!(parse_duration("11d 3h 32m 4s"), Ok(963_124));
    assert_eq!(parse_duration("12d 24h 5m 45s"), Ok(12 * 86_400 + 24 * 3_600 + 5 * 60 + 45));
    assert_eq!(parse_duration("1s"), Ok(1));
    assert_eq!(parse_duration("10s"), Ok(10));
    assert_eq!(parse_duration("5m"), Ok(300));
    assert_eq!(parse_duration("2h"), Ok(7_200));
    assert_eq!(parse_duration("1d"), Ok(86_400));
    assert_eq!(parse_duration("1s1s1s"), Ok(3));
    assert_eq!(parse_duration("007s"), Ok(7));
}

#[test]
fn duration_passes_over_what_is_no_number_with_a_unit() {
    // A number counts only if its unit follows directly.
    assert_eq!(parse_duration("5 s 3m"), Ok(180));
    assert_eq!(parse_duration("12x34s"), Ok(34));
    assert_eq!(parse_duration("10min"), Ok(600));
    assert_eq!(parse_duration("1h30"), Ok(3_600));
    assert_eq!(parse_duration("30 1h"), Ok(3_600));
    assert_eq!(parse_duration("ss5sds"), Ok(5));
    assert_eq!(parse_duration("4S 2s"), Ok(2));
    assert_eq!(parse_duration("läuft 3m"), Ok(180));
    assert_eq!(parse_duration("٣s 2s"), Ok(2));
    assert_eq!(parse_duration_bytes(&[0xff, b'9', b's', 0x80]), Ok(9));
}

#[test]
fn duration_without_time_is_refused() {
    assert_eq!(parse_duration(""), Err(DurationError::NoDuration));
    assert_eq!(parse_duration("soon"), Err(DurationError::NoDuration));
    assert_eq!(parse_duration("15"), Err(DurationError::NoDuration));
    assert_eq!(parse_duration("0s"), Err(DurationError::NoDuration));
    assert_eq!(parse_duration("0d 0h 0m 0s"), Err(DurationError::NoDuration));
    assert_eq!(parse_duration("d"), Err(DurationError::NoDuration));
}

#[test]
fn duration_beyond_counting_is_refused() {
    assert_eq!(parse_duration("18446744073709551615s"), Ok(u64::MAX));
    assert_eq!(parse_duration("18446744073709551616s"), Err(DurationError::TooLarge));
    assert_eq!(parse_duration("18446744073709551615s 1s"), Err(DurationError::TooLarge));
    assert_eq!(parse_duration("18446744073709551614s 1s"), Ok(u64::MAX));
    assert_eq!(parse_duration("213503982334601d"), Ok(213_503_982_334_601 * 86_400));
    assert_eq!(parse_duration("213503982334602d"), Err(DurationError::TooLarge));
    assert_eq!(parse_duration("99999999999999999999999999999999999999999h"), Err(DurationError::TooLarge));
    // A number without a unit is passed over however large it is.
    assert_eq!(parse_duration("99999999999999999999999999999999999999999 1s"), Ok(1));
}

#[test]
fn separator_is_found_first() {
    assert_eq!(find_separator(b"a: b"), Some(1));
    assert_eq!(find_separator(b"a:b: c: d"), Some(3));
    assert_eq!(find_separator(b": "), Some(0));
    assert_eq!(find_separator(b"a:"), None);
    assert_eq!(find_separator(b"a :b"), None);
    assert_eq!(find_separator(b""), None);
}

#[test]
fn header_is_read() {
    let header = parse_header("content-type: text/plain").expect("a header");
    assert_eq!(header.name, "content-type");
    assert_eq!(header.value, b"text/plain");
    let header = parse_header("X-Trace-Id: a: b").expect("a header");
    assert_eq!(header.name, "x-trace-id");
    assert_eq!(header.value, b"a: b");
    let header = parse_header("accept: ").expect("a header");
    assert_eq!(header.name, "accept");
    assert!(header.value.is_empty());
    let header = parse_header_bytes(b"x-raw: \xff\t!").expect("a header");
    assert_eq!(header.value, b"\xff\t!");
}

#[test]
fn header_errors_come_in_order() {
    assert!(matches!(parse_header("content-type"), Err(HeaderError::MissingColon)));
    assert!(matches!(parse_header("content-type:text/plain"), Err(HeaderError::MissingColon)));
    assert!(matches!(parse_header(""), Err(HeaderError::MissingColon)));
    assert!(matches!(parse_header("bad name: value"), Err(HeaderError::InvalidName)));
    assert!(matches!(parse_header(": value"), Err(HeaderError::InvalidName)));
    assert!(matches!(parse_header("bad name: bad\nvalue"), Err(HeaderError::InvalidName)));
    assert!(matches!(parse_header("name: bad\nvalue"), Err(HeaderError::InvalidValue)));
    assert!(matches!(parse_header("name: bad\u{7f}"), Err(HeaderError::InvalidValue)));
}

#[test]
fn empty_result_holds_nothing() {
    let result = WorkerResult::default();
    assert!(result.total_times.is_empty());
    assert!(result.request_times.is_empty());
    assert!(result.buffer_sizes.is_empty());
    assert!(result.error_map.is_empty());
    assert_eq!(result.total_requests(), 0);
    assert_eq!(result.total_transfer(), 0);
    assert_eq!(result.max_request_latency(), 0);
    assert_eq!(result.min_request_latency(), 0);
}

#[test]
fn results_are_combined() {
    let first = WorkerResult {
        total_times: vec![1_000],
        request_times: vec![30, 10],
        buffer_sizes: vec![500],
        error_map: vec![count("connection closed", 2), count("timeout", 1)],
    };
    let second = WorkerResult {
        total_times: vec![2_000],
        request_times: vec![20],
        buffer_sizes: vec![700],
        error_map: vec![count("timeout", 4), count("reset", 1), count("reset", 2)],
    };
    let combined = WorkerResult::default().combine(first).combine(second);
    assert_eq!(combined.total_times, vec![1_000, 2_000]);
    assert_eq!(combined.request_times, vec![30, 10, 20]);
    assert_eq!(combined.buffer_sizes, vec![500, 700]);
    assert_eq!(
        counts(&combined),
        vec![
            ("connection closed".to_string(), 2),
            ("timeout".to_string(), 5),
            ("reset".to_string(), 3),
        ]
    );
    assert_eq!(combined.total_requests(), 3);
    assert_eq!(combined.total_transfer(), 1_200);
    assert_eq!(combined.max_request_latency(), 30);
    assert_eq!(combined.min_request_latency(), 10);
}

#[test]
fn latencies_are_sorted_longest_first() {
    let mut result = WorkerResult {
        total_times: vec![9],
        request_times: vec![3, 9, 1, 9, 4],
        buffer_sizes: vec![1],
        error_map: vec![count("x", 1)],
    };
    result.sort_request_times();
    assert_eq!(result.request_times, vec![9, 9, 4, 3, 1]);
    assert_eq!(result.total_times, vec![9]);
    assert_eq!(result.buffer_sizes, vec![1]);
    assert_eq!(counts(&result), vec![("x".to_string(), 1)]);
    assert_eq!(result.max_request_latency(), 9);
    assert_eq!(result.min_request_latency(), 1);
}

#[test]
fn values_are_turned_around() {
    let mut values = vec![1, 2, 3, 4];
    reverse(&mut values);
    assert_eq!(values, vec![4, 3, 2, 1]);
    let mut none: Vec<u64> = Vec::new();
    reverse(&mut none);
    assert!(none.is_empty());
}

#[test]
fn message_is_found_by_its_text() {
    let held = vec![count("a", 1), count("b", 2), count("a", 3)];
    assert_eq!(find_message(&held, &"b".to_string()), Some(1));
    assert_eq!(find_message(&held, &"a".to_string()), Some(0));
    assert_eq!(find_message(&held, &"c".to_string()), None);
    assert_eq!(find_message(&Vec::new(), &"a".to_string()), None);
}

#[test]
fn errors_are_counted_by_message() {
    let mut held = Vec::new();
    count_error(&mut held, "timeout".to_string());
    count_error(&mut held, "reset".to_string());
    count_error(&mut held, "timeout".to_string());
    count_error(&mut held, "timeout".to_string());
    let seen: Vec<(String, usize)> =
        held.iter().map(|entry| (entry.message.clone(), entry.count)).collect();
    assert_eq!(seen, vec![("timeout".to_string(), 3), ("reset".to_string(), 1)]);
}

#[test]
fn host_header_names_the_port_unless_it_is_80() {
    assert_eq!(host_header_text("example.com", 80), "example.com");
    assert_eq!(host_header_text("example.com", 8080), "example.com:8080");
    assert_eq!(host_header_text("example.com", 443), "example.com:443");
    assert_eq!(host_header_text("127.0.0.1", 1), "127.0.0.1:1");
    assert_eq!(host_header_text("h", 0), "h:0");
    assert_eq!(host_header_text("b\u{fc}cher.example", 65535), "b\u{fc}cher.example:65535");
    assert_eq!(host_header_text("", 81), ":81");
}

#[test]
fn numbers_are_written_in_decimal() {
    for number in [0u16, 1, 9, 10, 11, 99, 100, 101, 999, 1_000, 9_999, 10_000, 65_535] {
        assert_eq!(decimal(number), number.to_string());
    }
}
