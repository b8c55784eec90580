//! The connector: what it takes to reach the server, how often a failed
//! attempt is repeated, and how a request is made ready for the connection
//! it is sent on.

use std::time::Duration;

use vstd::arithmetic::power2::{lemma2_to64, lemma_pow2_strictly_increases, pow2};
use vstd::prelude::*;
use vstd::string::StrSliceExecFns;

use crate::producer::{Request, RequestTarget};
use crate::usage::IoUsageTracker;
use crate::validator::{headers_view, Header, HeaderView};

verus! {

/// `tokio_native_tls::TlsConnector`, a TLS context, as a type that values
/// pass through unread.
#[verifier::external_type_specification]
#[verifier::external_body]
pub struct ExTlsConnector(tokio_native_tls::TlsConnector);

/// `native_tls::Error`, the error of the TLS library, as a type that
/// values pass through unread.
#[verifier::external_type_specification]
#[verifier::external_body]
pub struct ExTlsError(native_tls::Error);

/// `std::io::Error` as a type that values pass through unread.
#[verifier::external_type_specification]
#[verifier::external_body]
pub struct ExIoError(std::io::Error);

/// `Clone` of `tokio_native_tls::TlsConnector`: another handle to the same
/// TLS configuration. Nothing is claimed of it.
pub assume_specification[ <tokio_native_tls::TlsConnector as Clone>::clone ](
    connector: &tokio_native_tls::TlsConnector,
) -> tokio_native_tls::TlsConnector
;

/// The maximum number of attempts to try connect before aborting.
pub const RETRY_MAX_DEFAULT: usize = 3;

/// The pause between two attempts to connect, in nanoseconds: 500 ms.
pub const RETRY_PAUSE: u64 = 500_000_000;

/// The shortest pause before a rate-limited request is repeated: 500 ms.
pub const BACKOFF_MIN: u64 = 500_000_000;

/// The longest pause before a rate-limited request is repeated: 30 s.
pub const BACKOFF_MAX: u64 = 30_000_000_000;

/// The number of times a rate-limited request is repeated after a pause.
pub const BACKOFF_RETRIES: u32 = 12;

/// The status with which a server says that it is limiting the rate.
pub const TOO_MANY_REQUESTS: u16 = 429;

/// The type of bench that is being ran.
#[derive(Clone, Copy, Debug, PartialEq, Eq, Structural)]
pub enum HttpProtocol {
    /// Sets the http protocol to be used as h1
    HTTP1,
    /// Sets the http protocol to be used as h2
    HTTP2,
}

/// The type of bench that is being ran.
pub type HttpMode = HttpProtocol;

impl HttpProtocol {
    pub fn is_http1(&self) -> (answer: bool)
        ensures
            answer == (*self == HttpProtocol::HTTP1),
    {
        matches!(self, Self::HTTP1)
    }

    pub fn is_http2(&self) -> (answer: bool)
        ensures
            answer == (*self == HttpProtocol::HTTP2),
    {
        matches!(self, Self::HTTP2)
    }

    /// The one protocol that is offered in the TLS handshake.
    pub open spec fn spec_alpn(&self) -> Seq<char> {
        match self {
            HttpProtocol::HTTP1 => "http/1.1"@,
            HttpProtocol::HTTP2 => "h2"@,
        }
    }

    /// The one protocol that is offered in the TLS handshake: `h2` for
    /// HTTP/2 and `http/1.1` otherwise.
    pub fn alpn(&self) -> (name: &'static str)
        ensures
            name@ == self.spec_alpn(),
    {
        match self {
            HttpProtocol::HTTP1 => "http/1.1",
            HttpProtocol::HTTP2 => "h2",
        }
    }
}

/// The settings of a TLS context.
#[derive(Debug, Clone, Copy)]
pub struct TlsSettings {
    /// Whether certificates that cannot be validated are accepted.
    pub accept_invalid_certs: bool,
    /// Whether certificates for another host name are accepted.
    pub accept_invalid_hostnames: bool,
    /// The one protocol that is offered in the handshake.
    pub alpn: &'static str,
}

/// Whether the settings are those of a benchmark of the protocol: this is a
/// benchmarking tool and no client, so invalid certificates and host names
/// are accepted. Only the protocol of the benchmark is offered.
pub open spec fn serves(settings: TlsSettings, protocol: HttpProtocol) -> bool {
    &&& settings.accept_invalid_certs
    &&& settings.accept_invalid_hostnames
    &&& settings.alpn@ == protocol.spec_alpn()
}

/// The settings of the TLS context of a benchmark of the protocol.
pub fn tls_settings(protocol: HttpProtocol) -> (settings: TlsSettings)
    ensures
        settings.accept_invalid_certs,
        settings.accept_invalid_hostnames,
        settings.alpn@ == protocol.spec_alpn(),
        serves(settings, protocol),
{
    TlsSettings {
        accept_invalid_certs: true,
        accept_invalid_hostnames: true,
        alpn: protocol.alpn(),
    }
}

/// A TLS context together with the settings it was built from.
#[derive(Clone)]
pub struct TlsContext {
    settings: TlsSettings,
    connector: tokio_native_tls::TlsConnector,
}

impl TlsContext {
    /// The settings that the context was built from.
    pub closed spec fn spec_settings(&self) -> TlsSettings {
        self.settings
    }

    /// The context itself.
    pub closed spec fn spec_connector(&self) -> tokio_native_tls::TlsConnector {
        self.connector
    }

    /// The settings that the context was built from.
    pub fn settings(&self) -> (settings: TlsSettings)
        ensures
            settings == self.spec_settings(),
    {
        self.settings
    }

    /// The context itself, to make TLS connections with.
    pub fn connector(&self) -> (connector: &tokio_native_tls::TlsConnector)
        ensures
            *connector == self.spec_connector(),
    {
        &self.connector
    }
}

/// `native_tls::TlsConnector::builder`, its switches for invalid
/// certificates and host names, `request_alpns` with the one protocol, and
/// `build`, wrapped for tokio: a TLS context built from these settings, or
/// the error of the TLS library.
#[verifier::external_body]
pub(crate) fn build_tls_context(settings: TlsSettings) -> (built: Result<
    TlsContext,
    native_tls::Error,
>)
    ensures
        built matches Ok(context) ==> context.spec_settings() == settings,
{
    let mut builder = native_tls::TlsConnector::builder();
    builder.danger_accept_invalid_certs(settings.accept_invalid_certs);
    builder.danger_accept_invalid_hostnames(settings.accept_invalid_hostnames);
    builder.request_alpns(&[settings.alpn]);
    match builder.build() {
        Ok(connector) => Ok(
            TlsContext { settings, connector: tokio_native_tls::TlsConnector::from(connector) },
        ),
        Err(error) => Err(error),
    }
}

/// The HTTP scheme used for the connection.
#[derive(Clone)]
pub enum Scheme {
    Http,
    Https(TlsContext),
}

impl Scheme {
    pub fn default_port(&self) -> (port: u16)
        ensures
            port == if *self is Http {
                80u16
            } else {
                443u16
            },
    {
        match self {
            Self::Http => 80,
            Self::Https(_) => 443,
        }
    }
}

/// An IP address, as the number that its bytes spell in network order.
#[derive(Debug, Clone, Copy, PartialEq, Eq, Structural)]
pub enum IpAddress {
    V4(u32),
    V6(u128),
}

/// The address of a socket: an IP address and a port.
#[derive(Debug, Clone, Copy, PartialEq, Eq, Structural)]
pub struct SocketAddress {
    pub ip: IpAddress,
    pub port: u16,
}

impl SocketAddress {
    pub fn is_ipv4(&self) -> (answer: bool)
        ensures
            answer == (self.ip is V4),
    {
        matches!(self.ip, IpAddress::V4(_))
    }
}

/// The first IPv4 address among the addresses, if there is one.
pub open spec fn first_ipv4(addresses: Seq<SocketAddress>) -> Option<SocketAddress>
    decreases addresses.len(),
{
    if addresses.len() == 0 {
        None
    } else if addresses[0].ip is V4 {
        Some(addresses[0])
    } else {
        first_ipv4(addresses.drop_first())
    }
}

/// The address to connect to among those a host resolves to: the first IPv4
/// address, or the last address if none is IPv4, or none if there is none.
pub open spec fn preferred_address(addresses: Seq<SocketAddress>) -> Option<SocketAddress> {
    match first_ipv4(addresses) {
        Some(address) => Some(address),
        None => if addresses.len() > 0 {
            Some(addresses.last())
        } else {
            None
        },
    }
}

/// Picks the address to connect to: IPv4 is preferred.
pub fn pick_address(addresses: &Vec<SocketAddress>) -> (picked: Option<SocketAddress>)
    ensures
        picked == preferred_address(addresses@),
{
    let mut last_addr: Option<SocketAddress> = None;
    let mut i: usize = 0;
    assert(addresses@.skip(0) =~= addresses@);
    while i < addresses.len()
        invariant
            i <= addresses.len(),
            first_ipv4(addresses@) == first_ipv4(addresses@.skip(i as int)),
            i == 0 ==> last_addr is None,
            i > 0 ==> last_addr == Some(addresses[i - 1]),
        decreases addresses.len() - i,
    {
        let addr = addresses[i];
        let ghost rest = addresses@.skip(i as int);
        assert(rest[0] == addr);
        assert(rest.drop_first() =~= addresses@.skip(i + 1));
        last_addr = Some(addr);
        if addr.is_ipv4() {
            return last_addr;
        }
        i += 1;
    }
    last_addr
}

/// What came of one attempt to connect.
pub enum AttemptOutcome<C, E> {
    /// The deadline passed before the attempt ended.
    DeadlineElapsed,
    /// The attempt failed.
    Failed(E),
    /// The connection stands.
    Connected(C),
}

/// What the connector does after an attempt.
pub enum ConnectDecision<C, E> {
    /// Return this: the connection, or nothing when the deadline has passed,
    /// or the error of the attempt that used up the last repetition.
    Done(Result<Option<C>, E>),
    /// Sleep for this many nanoseconds and try again.
    RetryAfter(u64),
}

/// The state of a connector while it tries to connect within a deadline.
#[derive(Debug, Clone, Copy, PartialEq, Eq, Structural)]
pub struct ConnectAttempts {
    attempts_left: usize,
}

/// What the connector does after an attempt, given how many repetitions it
/// has left.
pub open spec fn connect_decision<C, E>(
    attempts_left: usize,
    outcome: AttemptOutcome<C, E>,
) -> ConnectDecision<C, E> {
    match outcome {
        AttemptOutcome::DeadlineElapsed => ConnectDecision::Done(Ok(None)),
        AttemptOutcome::Failed(error) => if attempts_left == 0 {
            ConnectDecision::Done(Err(error))
        } else {
            ConnectDecision::RetryAfter(RETRY_PAUSE)
        },
        AttemptOutcome::Connected(connection) => ConnectDecision::Done(Ok(Some(connection))),
    }
}

/// The repetitions that are left of `retry_max` after the given number of
/// failed attempts.
pub open spec fn attempts_left_after(retry_max: usize, failed: nat) -> usize {
    if failed >= retry_max {
        0
    } else {
        (retry_max - failed) as usize
    }
}

/// A connector with `retry_max` repetitions makes at most `retry_max + 1`
/// attempts: each of the first `retry_max` failures is followed by a pause
/// of 500 ms and another attempt, and the failure after them is returned as
/// the error. A connection is returned at once, and a deadline that passes
/// gives the timed-out result, nothing, whatever has failed before.
pub proof fn lemma_connect_budget<C, E>(retry_max: usize, failed: nat, error: E, connection: C)
    requires
        failed <= retry_max,
    ensures
        connect_decision::<C, E>(
            attempts_left_after(retry_max, failed),
            AttemptOutcome::Failed(error),
        ) == if failed < retry_max {
            ConnectDecision::<C, E>::RetryAfter(RETRY_PAUSE)
        } else {
            ConnectDecision::<C, E>::Done(Err(error))
        },
        failed < retry_max ==> attempts_left_after(retry_max, failed) - 1 == attempts_left_after(
            retry_max,
            failed + 1,
        ),
        connect_decision::<C, E>(
            attempts_left_after(retry_max, failed),
            AttemptOutcome::DeadlineElapsed,
        ) == ConnectDecision::<C, E>::Done(Ok(None)),
        connect_decision::<C, E>(
            attempts_left_after(retry_max, failed),
            AttemptOutcome::Connected(connection),
        ) == ConnectDecision::<C, E>::Done(Ok(Some(connection))),
{
}

impl ConnectAttempts {
    /// The number of times a failed attempt can still be repeated.
    pub closed spec fn spec_attempts_left(&self) -> usize {
        self.attempts_left
    }

    /// The state before the first attempt.
    pub fn new(retry_max: usize) -> (attempts: Self)
        ensures
            attempts.spec_attempts_left() == retry_max,
            attempts.spec_attempts_left() == attempts_left_after(retry_max, 0),
    {
        ConnectAttempts { attempts_left: retry_max }
    }

    /// The number of times a failed attempt can still be repeated.
    pub fn attempts_left(&self) -> (left: usize)
        ensures
            left == self.spec_attempts_left(),
    {
        self.attempts_left
    }

    /// Decides what follows an attempt.
    ///
    /// A connection is returned at once. A failure is repeated after a pause
    /// of 500 ms as long as repetitions are left, and returned as the error
    /// otherwise. When the deadline has passed, the answer is the timed-out
    /// result: no connection and no error.
    pub fn step<C, E>(&mut self, outcome: AttemptOutcome<C, E>) -> (decision: ConnectDecision<C, E>)
        ensures
            decision == connect_decision(old(self).spec_attempts_left(), outcome),
            final(self).spec_attempts_left() == if decision is RetryAfter {
                (old(self).spec_attempts_left() - 1) as usize
            } else {
                old(self).spec_attempts_left()
            },
    {
        match outcome {
            AttemptOutcome::DeadlineElapsed => ConnectDecision::Done(Ok(None)),
            AttemptOutcome::Failed(error) => {
                if self.attempts_left == 0 {
                    return ConnectDecision::Done(Err(error));
                }
                self.attempts_left = self.attempts_left - 1;
                ConnectDecision::RetryAfter(RETRY_PAUSE)
            },
            AttemptOutcome::Connected(connection) => ConnectDecision::Done(Ok(Some(connection))),
        }
    }
}

/// The initial HTTP connector for benchmarking.
#[derive(Clone)]
pub struct ReWrkConnector {
    host_header: Vec<u8>,
    addr: SocketAddress,
    protocol: HttpProtocol,
    scheme: Scheme,
    host: String,
    retry_max: usize,
    retry_429s: bool,
}

impl ReWrkConnector {
    pub closed spec fn spec_host_header(&self) -> Seq<u8> {
        self.host_header@
    }

    pub closed spec fn spec_addr(&self) -> SocketAddress {
        self.addr
    }

    pub closed spec fn spec_protocol(&self) -> HttpProtocol {
        self.protocol
    }

    pub closed spec fn spec_scheme(&self) -> Scheme {
        self.scheme
    }

    pub closed spec fn spec_host(&self) -> Seq<char> {
        self.host@
    }

    pub closed spec fn spec_retry_max(&self) -> usize {
        self.retry_max
    }

    pub closed spec fn spec_retry_429s(&self) -> bool {
        self.retry_429s
    }

    /// Create a new connector. It repeats a failed attempt to connect up to
    /// three times and does not repeat rate-limited requests.
    pub fn new(
        host_header: Vec<u8>,
        addr: SocketAddress,
        protocol: HttpProtocol,
        scheme: Scheme,
        host: String,
    ) -> (connector: Self)
        ensures
            connector.spec_host_header() == host_header@,
            connector.spec_addr() == addr,
            connector.spec_protocol() == protocol,
            connector.spec_scheme() == scheme,
            connector.spec_host() == host@,
            connector.spec_retry_max() == RETRY_MAX_DEFAULT,
            !connector.spec_retry_429s(),
    {
        Self {
            host_header,
            addr,
            protocol,
            scheme,
            host,
            retry_max: RETRY_MAX_DEFAULT,
            retry_429s: false,
        }
    }

    /// Set a new max retry attempt.
    pub fn set_retry_max(&mut self, max: usize)
        ensures
            final(self).spec_retry_max() == max,
            final(self).spec_host_header() == old(self).spec_host_header(),
            final(self).spec_addr() == old(self).spec_addr(),
            final(self).spec_protocol() == old(self).spec_protocol(),
            final(self).spec_scheme() == old(self).spec_scheme(),
            final(self).spec_host() == old(self).spec_host(),
            final(self).spec_retry_429s() == old(self).spec_retry_429s(),
    {
        self.retry_max = max;
    }

    /// Allow the connection to retry 429 errors with exponential backoff.
    pub fn enable_ratelimit_retry(&mut self)
        ensures
            final(self).spec_retry_429s(),
            final(self).spec_host_header() == old(self).spec_host_header(),
            final(self).spec_addr() == old(self).spec_addr(),
            final(self).spec_protocol() == old(self).spec_protocol(),
            final(self).spec_scheme() == old(self).spec_scheme(),
            final(self).spec_host() == old(self).spec_host(),
            final(self).spec_retry_max() == old(self).spec_retry_max(),
    {
        self.retry_429s = true;
    }

    /// The address to open the TCP connection to.
    pub fn addr(&self) -> (addr: SocketAddress)
        ensures
            addr == self.spec_addr(),
    {
        self.addr
    }

    /// The scheme, with the TLS context if it is HTTPS.
    pub fn scheme(&self) -> (scheme: &Scheme)
        ensures
            *scheme == self.spec_scheme(),
    {
        &self.scheme
    }

    /// The host name, which the TLS handshake names as the server.
    pub fn host(&self) -> (host: &String)
        ensures
            host@ == self.spec_host(),
    {
        &self.host
    }

    /// Whether the HTTP handshake is restricted to HTTP/2: if and only if
    /// the protocol is HTTP/2.
    pub fn http2_only(&self) -> (answer: bool)
        ensures
            answer == (self.spec_protocol() == HttpProtocol::HTTP2),
    {
        self.protocol.is_http2()
    }

    /// The state in which the connector starts to connect within a deadline:
    /// the full retry budget is left.
    pub fn connect_timeout(&self) -> (attempts: ConnectAttempts)
        ensures
            attempts.spec_attempts_left() == self.spec_retry_max(),
    {
        ConnectAttempts::new(self.retry_max)
    }

    /// What an established connection takes over from its connector: the
    /// value of the host header, the byte counters of its stream, and
    /// whether rate-limited requests are repeated.
    pub fn connect(&self, io_tracker: IoUsageTracker) -> (connection: ReWrkConnection)
        ensures
            connection.spec_host_header() == self.spec_host_header(),
            connection.spec_retry_429s() == self.spec_retry_429s(),
            connection.spec_usage() == io_tracker,
    {
        ReWrkConnection::new(self.host_header.clone(), io_tracker, self.retry_429s)
    }
}

/// The name of the header that says which host a request is for.
pub open spec fn host_name() -> Seq<char> {
    "host"@
}

/// Whether a header name names the host: it spells `host` in any mix of
/// upper and lower case.
pub open spec fn names_host(name: Seq<char>) -> bool {
    &&& name.len() == 4
    &&& (name[0] == 'h' || name[0] == 'H')
    &&& (name[1] == 'o' || name[1] == 'O')
    &&& (name[2] == 's' || name[2] == 'S')
    &&& (name[3] == 't' || name[3] == 'T')
}

/// Whether a header name names the host, in whatever case it is spelled.
pub fn is_host_name(name: &str) -> (answer: bool)
    ensures
        answer == names_host(name@),
{
    if name.unicode_len() != 4 {
        return false;
    }
    let first = name.get_char(0);
    let second = name.get_char(1);
    let third = name.get_char(2);
    let fourth = name.get_char(3);
    (first == 'h' || first == 'H') && (second == 'o' || second == 'O') && (third == 's' || third
        == 'S') && (fourth == 't' || fourth == 'T')
}

/// The headers in order without those that name the host, in whatever case
/// the name is spelled.
pub open spec fn without_host(headers: Seq<HeaderView>) -> Seq<HeaderView>
    decreases headers.len(),
{
    if headers.len() == 0 {
        Seq::empty()
    } else if names_host(headers.last().name) {
        without_host(headers.drop_last())
    } else {
        without_host(headers.drop_last()).push(headers.last())
    }
}

/// The headers with the host set to `value`: every header that names the
/// host is dropped, and one that names it with `value` is added.
pub open spec fn with_host(headers: Seq<HeaderView>, value: Seq<u8>) -> Seq<HeaderView> {
    without_host(headers).push(HeaderView { name: host_name(), value })
}

/// How a response is dealt with while rate-limited requests are repeated.
#[derive(Debug, Clone, Copy, PartialEq, Eq, Structural)]
pub enum ResponseStep {
    /// The response is the answer to the request.
    Deliver,
    /// Sleep for this many nanoseconds and send the request again.
    RetryAfter(u64),
}

/// Whether a response makes the connection repeat its request: repeating is
/// on, the status says that the rate is limited, and the request has not
/// been repeated twelve times yet.
pub open spec fn repeats_request(enabled: bool, attempt: u32, status: u16) -> bool {
    enabled && attempt < BACKOFF_RETRIES && status == TOO_MANY_REQUESTS
}

/// What is done with a response, given the pause that a repetition would
/// follow.
pub fn response_step(enabled: bool, attempt: u32, status: u16, pause: u64) -> (step: ResponseStep)
    ensures
        step == if repeats_request(enabled, attempt, status) {
            ResponseStep::RetryAfter(pause)
        } else {
            ResponseStep::Deliver
        },
{
    if enabled && attempt < BACKOFF_RETRIES && status == TOO_MANY_REQUESTS {
        ResponseStep::RetryAfter(pause)
    } else {
        ResponseStep::Deliver
    }
}

/// The pause before repetition number `attempt` without jitter and bounds:
/// the shortest pause doubled with every attempt.
pub open spec fn backoff_base(min: u64, attempt: u32) -> nat {
    min as nat * pow2(attempt as nat)
}

/// A pause cut to the bounds.
pub open spec fn clamp_pause(nanos: nat, min: u64, max: u64) -> nat {
    if nanos > max {
        max as nat
    } else if nanos < min {
        min as nat
    } else {
        nanos
    }
}

/// The shortest pause before repetition number `attempt`: the doubled pause
/// less 29 hundredths of it, cut to the bounds.
pub open spec fn shortest_pause(min: u64, max: u64, attempt: u32) -> nat {
    clamp_pause(backoff_base(min, attempt) * 71 / 100, min, max)
}

/// The longest pause before repetition number `attempt`: the doubled pause
/// and 29 hundredths of it, cut to the bounds.
pub open spec fn longest_pause(min: u64, max: u64, attempt: u32) -> nat {
    clamp_pause(backoff_base(min, attempt) * 129 / 100, min, max)
}

/// `exponential_backoff::Backoff::next` on a backoff made by
/// `Backoff::new(retries, min, max)`: the pause before repetition number
/// `attempt`, in nanoseconds. There is none exactly for the attempt after
/// the last. The pause is `min` doubled `attempt` times, moved at random by
/// up to 29 hundredths of itself and then cut to the two bounds. The bounds
/// per attempt are stated where the doubled pause stays far below what a
/// duration can hold.
#[verifier::external_body]
fn backoff_pause(retries: u32, min: u64, max: u64, attempt: u32) -> (pause: Option<u64>)
    requires
        retries >= 1,
        min <= max,
        attempt < u32::MAX,
    ensures
        pause is None <==> attempt == retries + 1,
        pause matches Some(nanos) ==> min <= nanos <= max,
        pause matches Some(nanos) ==> (attempt < 32 && backoff_base(min, attempt)
            <= 0xffff_ffff_ffff_ffffint / 200 ==> shortest_pause(min, max, attempt) <= nanos
            <= longest_pause(min, max, attempt)),
{
    let backoff = exponential_backoff::Backoff::new(
        retries,
        Duration::from_nanos(min),
        Duration::from_nanos(max),
    );
    match backoff.next(attempt) {
        Some(pause) => Some(pause.as_nanos() as u64),
        None => None,
    }
}

/// The repetitions of one request on a connection that repeats rate-limited
/// requests.
#[derive(Debug, Clone, Copy, PartialEq, Eq, Structural)]
pub struct RateLimitRetry {
    /// Whether rate-limited requests are repeated at all.
    pub enabled: bool,
    /// How often the request has been repeated.
    pub attempt: u32,
}

impl RateLimitRetry {
    /// The state before the request is sent for the first time.
    pub fn new(enabled: bool) -> (retry: Self)
        ensures
            retry.enabled == enabled,
            retry.attempt == 0,
    {
        RateLimitRetry { enabled, attempt: 0 }
    }

    /// Decides what is done with a response of the given status.
    ///
    /// While repeating is on, a response that says that the rate is limited
    /// has the request repeated after a pause, up to twelve times. The pause
    /// starts at 500 ms and doubles with every repetition up to 30 s, moved
    /// at random by less than three tenths of itself. Every other response
    /// is delivered, and so is the one that follows the twelfth repetition.
    pub fn on_response(&mut self, status: u16) -> (step: ResponseStep)
        ensures
            step is RetryAfter <==> repeats_request(old(self).enabled, old(self).attempt, status),
            step matches ResponseStep::RetryAfter(pause) ==> BACKOFF_MIN <= pause <= BACKOFF_MAX,
            step matches ResponseStep::RetryAfter(pause) ==> shortest_pause(
                BACKOFF_MIN,
                BACKOFF_MAX,
                old(self).attempt,
            ) <= pause <= longest_pause(BACKOFF_MIN, BACKOFF_MAX, old(self).attempt),
            final(self).enabled == old(self).enabled,
            final(self).attempt == if step is RetryAfter {
                (old(self).attempt + 1) as u32
            } else {
                old(self).attempt
            },
    {
        if self.enabled && self.attempt < BACKOFF_RETRIES && status == TOO_MANY_REQUESTS {
            proof {
                lemma2_to64();
                lemma_pow2_strictly_increases(self.attempt as nat, 12);
                let doubled = pow2(self.attempt as nat);
                assert(BACKOFF_MIN * doubled <= 0xffff_ffff_ffff_ffffint / 200) by (nonlinear_arith)
                    requires
                        doubled < 4096,
                        BACKOFF_MIN == 500_000_000,
                ;
            }
            let pause = match backoff_pause(BACKOFF_RETRIES, BACKOFF_MIN, BACKOFF_MAX, self.attempt) {
                Some(pause) => pause,
                None => BACKOFF_MAX,
            };
            let step = response_step(self.enabled, self.attempt, status, pause);
            self.attempt = self.attempt + 1;
            step
        } else {
            ResponseStep::Deliver
        }
    }
}

/// An established HTTP connection for benchmarking: what the library knows
/// of it besides the stream.
pub struct ReWrkConnection {
    host_header: Vec<u8>,
    io_tracker: IoUsageTracker,
    retry_429s: bool,
}

impl ReWrkConnection {
    pub closed spec fn spec_host_header(&self) -> Seq<u8> {
        self.host_header@
    }

    pub closed spec fn spec_retry_429s(&self) -> bool {
        self.retry_429s
    }

    /// The byte counters that the connection was made with.
    pub closed spec fn spec_usage(&self) -> IoUsageTracker {
        self.io_tracker
    }

    #[inline]
    /// Creates a new live connection from an existing stream
    pub fn new(host_header: Vec<u8>, io_tracker: IoUsageTracker, retry_429s: bool) -> (connection:
        Self)
        ensures
            connection.spec_host_header() == host_header@,
            connection.spec_retry_429s() == retry_429s,
            connection.spec_usage() == io_tracker,
    {
        Self { host_header, io_tracker, retry_429s }
    }

    #[inline]
    /// The byte counters of the stream of this connection.
    pub fn usage(&self) -> (tracker: &IoUsageTracker)
        ensures
            *tracker == self.spec_usage(),
    {
        &self.io_tracker
    }

    /// The state in which a request starts: it has not been repeated yet.
    pub fn retry(&self) -> (retry: RateLimitRetry)
        ensures
            retry.enabled == self.spec_retry_429s(),
            retry.attempt == 0,
    {
        RateLimitRetry::new(self.retry_429s)
    }

    #[inline]
    /// Makes a request ready to be sent on this connection.
    ///
    /// Of the target only the path and query stay: scheme and authority are
    /// those of the connection. The host header is overwritten with the
    /// value of the connection: every header that names the host, in
    /// whatever case, is dropped, and one header `host` with the value of the
    /// connection is added. Method, body and all other headers stay as they
    /// are.
    pub fn prepare_request(&self, request: Request) -> (ready: Request)
        ensures
            ready.method == request.method,
            ready.body == request.body,
            ready.target.scheme is None,
            ready.target.authority is None,
            ready.target.path_and_query == request.target.path_and_query,
            headers_view(ready.headers@) == with_host(
                headers_view(request.headers@),
                self.spec_host_header(),
            ),
    {
        let Request { method, target, headers, body } = request;
        let host = "host".to_owned();
        let mut kept: Vec<Header> = Vec::new();
        let mut i: usize = 0;
        assert(headers_view(headers@).take(0) =~= Seq::<HeaderView>::empty());
        while i < headers.len()
            invariant
                i <= headers.len(),
                host@ == host_name(),
                headers_view(kept@) == without_host(headers_view(headers@).take(i as int)),
            decreases headers.len() - i,
        {
            let ghost seen = headers_view(headers@).take(i + 1);
            assert(seen.drop_last() =~= headers_view(headers@).take(i as int));
            assert(seen.last() == headers[i as int]@);
            if !is_host_name(headers[i].name.as_str()) {
                let ghost before = headers_view(kept@);
                kept.push(headers[i].duplicate());
                assert(headers_view(kept@) =~= before.push(headers[i as int]@));
            }
            i += 1;
        }
        assert(headers_view(headers@).take(headers.len() as int) =~= headers_view(headers@));
        let ghost before = headers_view(kept@);
        kept.push(Header { name: host, value: self.host_header.clone() });
        assert(headers_view(kept@) =~= before.push(
            HeaderView { name: host_name(), value: self.spec_host_header() },
        ));
        Request {
            method,
            target: RequestTarget {
                scheme: None,
                authority: None,
                path_and_query: target.path_and_query,
            },
            headers: kept,
            body,
        }
    }
}

} // verus!
