//! The benchmark orchestrator: how a base URI becomes a connector, and the
//! settings of a benchmark.

use vstd::prelude::*;
use vstd::utf8::encode_utf8;

use crate::collector::{mailbox_capacity, CollectorMailbox};
use crate::connection::{
    build_tls_context, pick_address, preferred_address, serves, tls_settings, HttpProtocol,
    ReWrkConnector, Scheme, SocketAddress, TlsContext,
};
use crate::headers::{header_value_of, is_header_value};
use crate::sample::{SampleFactory, SampleMetadata};
use crate::validator::{DefaultValidator, ResponseValidator};
use crate::worker::{slots_of, split_concurrency, ShutdownHandle, WorkerShare};

verus! {

/// The default period of time that should elapse before a
/// [Sample](crate::sample::Sample) is sent to a collector: 10 s, in
/// nanoseconds.
pub const DEFAULT_WINDOW_DURATION: u64 = 10_000_000_000;

/// Why a benchmark could not be created.
#[derive(Debug)]
pub enum BenchmarkError {
    /// The base URI is missing the HTTP scheme.
    MissingScheme,
    /// The base URI has a scheme which is not supported.
    InvalidScheme(String),
    /// The base URI is missing the server host.
    MissingHost,
    /// An error occurred while building the TLS config.
    TlsError(native_tls::Error),
    /// The system failed to resolve the socket address.
    AddressLookup(std::io::Error),
}

/// What a benchmark reads of its base URI.
#[derive(Debug)]
pub struct BaseUri {
    /// The scheme, if the URI names one.
    pub scheme: Option<String>,
    /// The host of the authority, if the URI has an authority.
    pub host: Option<String>,
    /// The port of the authority, if it names one.
    pub port: Option<u16>,
}

/// The mathematical content of a [`BaseUri`].
pub ghost struct BaseUriView {
    pub scheme: Option<Seq<char>>,
    pub host: Option<Seq<char>>,
    pub port: Option<u16>,
}

/// The content of an optional string.
pub open spec fn text_view(text: Option<String>) -> Option<Seq<char>> {
    match text {
        Some(text) => Some(text@),
        None => None,
    }
}

impl View for BaseUri {
    type V = BaseUriView;

    open spec fn view(&self) -> BaseUriView {
        BaseUriView {
            scheme: text_view(self.scheme),
            host: text_view(self.host),
            port: self.port,
        }
    }
}

/// What `http::Uri` reads in a text: nothing if the text is no URI, and
/// otherwise its scheme, the host of its authority and the port of its
/// authority, as far as the URI has them.
pub uninterp spec fn uri_parts(text: Seq<char>) -> Option<BaseUriView>;

/// The content of an optional base URI.
pub open spec fn base_uri_view(uri: Option<BaseUri>) -> Option<BaseUriView> {
    match uri {
        Some(uri) => Some(uri@),
        None => None,
    }
}

/// `str::parse::<http::Uri>`, then `Uri::scheme_str`, `Authority::host` and
/// `Authority::port_u16`: the parts of the URI that the text spells.
#[verifier::external_body]
fn read_uri(text: &str) -> (uri: Option<BaseUri>)
    ensures
        base_uri_view(uri) == uri_parts(text@),
{
    let uri = match text.parse::<http::Uri>() {
        Ok(uri) => uri,
        Err(_) => return None,
    };
    let scheme = match uri.scheme_str() {
        Some(scheme) => Some(scheme.to_owned()),
        None => None,
    };
    match uri.authority() {
        Some(authority) => Some(
            BaseUri { scheme, host: Some(authority.host().to_owned()), port: authority.port_u16() },
        ),
        None => Some(BaseUri { scheme, host: None, port: None }),
    }
}

impl BaseUri {
    /// Reads a URI from its text, if the text is a URI.
    pub fn parse(text: &str) -> (uri: Option<BaseUri>)
        ensures
            base_uri_view(uri) == uri_parts(text@),
    {
        read_uri(text)
    }
}

/// `std::io::Error::new` with `ErrorKind::Other`: an error with the given
/// message.
#[verifier::external_body]
fn other_io_error(message: &str) -> std::io::Error {
    std::io::Error::new(std::io::ErrorKind::Other, message)
}

/// `num_cpus::get`: the number of CPUs that are available to this process,
/// which only the machine decides.
#[verifier::external_body]
fn available_cpus() -> usize {
    num_cpus::get()
}

/// The number of workers of a benchmark on a machine with `cpus` CPUs: one
/// less than the CPUs, and at least one.
pub open spec fn default_workers(cpus: usize) -> int {
    if cpus - 1 >= 1 {
        cpus - 1
    } else {
        1
    }
}

/// The number of workers of a benchmark on a machine with `cpus` CPUs.
pub fn default_num_workers(cpus: usize) -> (workers: usize)
    ensures
        workers == default_workers(cpus),
{
    if cpus >= 2 {
        cpus - 1
    } else {
        1
    }
}

/// What is known of the server before its address is looked up.
pub struct HostLookup {
    /// The scheme, with the TLS context if it is HTTPS.
    pub scheme: Scheme,
    /// The host to look up.
    pub host: String,
    /// The port: that of the URI, or the default port of the scheme.
    pub port: u16,
    /// The protocol of the benchmark.
    pub protocol: HttpProtocol,
}

/// The scheme of a benchmark over HTTPS, given what came of building its TLS
/// context.
pub fn https_scheme(built: Result<TlsContext, native_tls::Error>) -> (scheme: Result<
    Scheme,
    BenchmarkError,
>)
    ensures
        scheme == match built {
            Ok(connector) => Ok::<Scheme, BenchmarkError>(Scheme::Https(connector)),
            Err(error) => Err(BenchmarkError::TlsError(error)),
        },
{
    match built {
        Ok(connector) => Ok(Scheme::Https(connector)),
        Err(error) => Err(BenchmarkError::TlsError(error)),
    }
}

/// How the scheme of a base URI is understood.
pub ghost enum SchemeKind {
    Missing,
    Http,
    Https,
    Invalid,
}

/// How the scheme of a base URI is understood: only `http` and `https` are
/// schemes of a benchmark.
pub open spec fn scheme_kind(scheme: Option<Seq<char>>) -> SchemeKind {
    match scheme {
        None => SchemeKind::Missing,
        Some(name) => if name == "http"@ {
            SchemeKind::Http
        } else if name == "https"@ {
            SchemeKind::Https
        } else {
            SchemeKind::Invalid
        },
    }
}

/// Reads the scheme of a base URI. For `https` it builds the TLS context of
/// the benchmark, which accepts invalid certificates and host names and
/// offers the one protocol of the benchmark.
///
/// A URI without a scheme is refused with `MissingScheme`, and a scheme
/// other than `http` and `https` with `InvalidScheme`. For `https` the
/// TLS library decides between the scheme and `TlsError`.
pub fn read_scheme(uri: &BaseUri, protocol: HttpProtocol) -> (scheme: Result<Scheme, BenchmarkError>)
    ensures
        match scheme_kind(uri@.scheme) {
            SchemeKind::Missing => scheme == Err::<Scheme, BenchmarkError>(BenchmarkError::MissingScheme),
            SchemeKind::Http => scheme == Ok::<Scheme, BenchmarkError>(Scheme::Http),
            SchemeKind::Https => (scheme matches Ok(Scheme::Https(context)) && serves(
                context.spec_settings(),
                protocol,
            )) || scheme matches Err(BenchmarkError::TlsError(_)),
            SchemeKind::Invalid => scheme matches Err(BenchmarkError::InvalidScheme(name)) && Some(name@)
                == uri@.scheme,
        },
{
    let name = match &uri.scheme {
        None => return Err(BenchmarkError::MissingScheme),
        Some(name) => name,
    };
    if *name == "http".to_owned() {
        Ok(Scheme::Http)
    } else if *name == "https".to_owned() {
        https_scheme(build_tls_context(tls_settings(protocol)))
    } else {
        Err(BenchmarkError::InvalidScheme(name.clone()))
    }
}

/// Reads from a base URI what is needed to look up the server: the scheme,
/// the host and the port, which is the default port of the scheme where the
/// URI names none.
///
/// The scheme is read first, as in [`read_scheme`]. A URI without a host is
/// then refused with `MissingHost`.
pub fn host_lookup(uri: &BaseUri, protocol: HttpProtocol) -> (lookup: Result<HostLookup, BenchmarkError>)
    ensures
        match scheme_kind(uri@.scheme) {
            SchemeKind::Missing => lookup matches Err(BenchmarkError::MissingScheme),
            SchemeKind::Invalid => lookup matches Err(BenchmarkError::InvalidScheme(name)) && Some(name@)
                == uri@.scheme,
            SchemeKind::Http => match uri@.host {
                None => lookup matches Err(BenchmarkError::MissingHost),
                Some(host) => lookup matches Ok(found) && found.scheme is Http && found.host@
                    == host && found.protocol == protocol && found.port == match uri@.port {
                    Some(port) => port,
                    None => 80u16,
                },
            },
            SchemeKind::Https => lookup matches Err(BenchmarkError::TlsError(_)) || match uri@.host {
                None => lookup matches Err(BenchmarkError::MissingHost),
                Some(host) => lookup matches Ok(found) && (found.scheme matches Scheme::Https(
                    context,
                ) && serves(context.spec_settings(), protocol)) && found.host@ == host && found.protocol == protocol && found.port == match uri@.port {
                    Some(port) => port,
                    None => 443u16,
                },
            },
        },
{
    let scheme = match read_scheme(uri, protocol) {
        Ok(scheme) => scheme,
        Err(error) => return Err(error),
    };
    let host = match &uri.host {
        None => return Err(BenchmarkError::MissingHost),
        Some(host) => host.clone(),
    };
    let port = match uri.port {
        Some(port) => port,
        None => scheme.default_port(),
    };
    Ok(HostLookup { scheme, host, port, protocol })
}

/// Creates a new [ReWrkConnector] for a server whose address was looked up.
///
/// A failed lookup is refused with `AddressLookup` and its error, and so is
/// a lookup that found no address. Of the addresses found, the first IPv4
/// address is taken, or the last address if none is IPv4. A host that cannot
/// be the value of a header is refused with `MissingHost`.
pub fn create_connector(
    target: HostLookup,
    addresses: Result<Vec<SocketAddress>, std::io::Error>,
) -> (connector: Result<ReWrkConnector, BenchmarkError>)
    ensures
        match addresses {
            Err(error) => connector == Err::<ReWrkConnector, BenchmarkError>(BenchmarkError::AddressLookup(error)),
            Ok(found) => match preferred_address(found@) {
                None => connector matches Err(BenchmarkError::AddressLookup(_)),
                Some(address) => if is_header_value(encode_utf8(target.host@)) {
                    connector matches Ok(made) && made.spec_addr() == address
                        && made.spec_host_header() == encode_utf8(target.host@)
                        && made.spec_host() == target.host@ && made.spec_protocol()
                        == target.protocol && made.spec_scheme() == target.scheme
                        && made.spec_retry_max() == crate::connection::RETRY_MAX_DEFAULT
                        && !made.spec_retry_429s()
                } else {
                    connector matches Err(BenchmarkError::MissingHost)
                },
            },
        },
{
    let found = match addresses {
        Ok(found) => found,
        Err(error) => return Err(BenchmarkError::AddressLookup(error)),
    };
    // Prefer ipv4.
    let addr = match pick_address(&found) {
        Some(addr) => addr,
        None => return Err(BenchmarkError::AddressLookup(other_io_error("Failed to lookup hostname"))),
    };
    let host_header = match header_value_of(target.host.as_str().as_bytes()) {
        Some(value) => value,
        None => return Err(BenchmarkError::MissingHost),
    };
    let HostLookup { scheme, host, port: _, protocol } = target;
    Ok(ReWrkConnector::new(host_header, addr, protocol, scheme, host))
}

/// The core benchmarker runtime: the settings of a benchmark and what its
/// workers share.
///
/// By default a benchmark uses `n - 1` workers where `n` is the number of
/// logical CPU cores available, and at least one; this can be overridden
/// using [ReWrkBenchmark::set_num_workers].
pub struct ReWrkBenchmark<V: ResponseValidator> {
    shutdown: ShutdownHandle,
    num_workers: usize,
    concurrency: usize,
    /// The benchmarking connector.
    connector: ReWrkConnector,
    /// The selected validator for the benchmark.
    validator: V,
    /// The factory that the sample factories of all connections are made
    /// from: it holds the sample window and the mailbox of the collector.
    factory: SampleFactory,
}

impl<V: ResponseValidator> ReWrkBenchmark<V> {
    pub closed spec fn spec_num_workers(&self) -> usize {
        self.num_workers
    }

    pub closed spec fn spec_concurrency(&self) -> usize {
        self.concurrency
    }

    pub closed spec fn spec_sample_window(&self) -> u64 {
        self.factory.window()
    }

    pub closed spec fn spec_connector(&self) -> ReWrkConnector {
        self.connector
    }

    pub closed spec fn spec_validator(&self) -> V {
        self.validator
    }

    /// The handle of the benchmark to its shutdown flag.
    pub closed spec fn spec_shutdown_handle(&self) -> ShutdownHandle {
        self.shutdown
    }

    /// The number of workers.
    pub fn num_workers(&self) -> (workers: usize)
        ensures
            workers == self.spec_num_workers(),
    {
        self.num_workers
    }

    /// The number of connections of all workers together.
    pub fn concurrency(&self) -> (concurrency: usize)
        ensures
            concurrency == self.spec_concurrency(),
    {
        self.concurrency
    }

    /// The sample window, in nanoseconds.
    pub fn sample_window(&self) -> (nanos: u64)
        ensures
            nanos == self.spec_sample_window(),
    {
        self.factory.window_timeout()
    }

    /// The connector that every worker connects with.
    pub fn connector(&self) -> (connector: &ReWrkConnector)
        ensures
            *connector == self.spec_connector(),
    {
        &self.connector
    }

    /// The validator of the benchmark.
    pub fn validator(&self) -> (validator: &V)
        ensures
            *validator == self.spec_validator(),
    {
        &self.validator
    }

    /// The handle of the benchmark to its shutdown flag. A clone of it is
    /// another handle to the same flag.
    pub fn shutdown_handle(&self) -> (handle: &ShutdownHandle)
        ensures
            *handle == self.spec_shutdown_handle(),
    {
        &self.shutdown
    }

    /// The shares of the workers of a run: the concurrency is split evenly
    /// over the workers, and the first workers take what is left over.
    pub fn run(&self) -> (shares: Vec<WorkerShare>)
        requires
            self.spec_num_workers() > 0,
        ensures
            shares.len() == self.spec_num_workers(),
            forall|i: int|
                0 <= i < shares.len() ==> (#[trigger] shares[i]).worker_id == i
                    && shares[i].concurrency == slots_of(
                    i,
                    self.spec_num_workers() as int,
                    self.spec_concurrency() as int,
                ),
    {
        split_concurrency(self.num_workers, self.concurrency)
    }

    /// The sample factory of one connection of one worker. It submits to the
    /// collector of the benchmark after the sample window of the benchmark.
    pub fn sample_factory(&self, worker_id: usize, concurrency_id: usize) -> (factory: SampleFactory)
        ensures
            factory.window() == self.spec_sample_window(),
            factory.spec_metadata() == (SampleMetadata { worker_id, concurrency_id }),
    {
        self.factory.with_metadata(SampleMetadata { worker_id, concurrency_id })
    }

    /// Sets the shutdown flag for the running benchmark.
    pub fn shutdown(&self) {
        self.shutdown.set_abort();
    }

    /// Sets the maximum number of times the connector will attempt to
    /// connect to the server before error.
    pub fn set_connection_retry_max(&mut self, max: usize)
        ensures
            final(self).spec_connector().spec_retry_max() == max,
            final(self).spec_connector().spec_addr() == old(self).spec_connector().spec_addr(),
            final(self).spec_connector().spec_host() == old(self).spec_connector().spec_host(),
            final(self).spec_connector().spec_retry_429s() == old(
                self,
            ).spec_connector().spec_retry_429s(),
            final(self).spec_num_workers() == old(self).spec_num_workers(),
            final(self).spec_concurrency() == old(self).spec_concurrency(),
            final(self).spec_sample_window() == old(self).spec_sample_window(),
            final(self).spec_validator() == old(self).spec_validator(),
            final(self).spec_shutdown_handle() == old(self).spec_shutdown_handle(),
    {
        self.connector.set_retry_max(max)
    }

    /// Sets the benchmark validator.
    pub fn set_validator<W: ResponseValidator>(self, validator: W) -> (benchmark: ReWrkBenchmark<W>)
        ensures
            benchmark.spec_validator() == validator,
            benchmark.spec_num_workers() == self.spec_num_workers(),
            benchmark.spec_concurrency() == self.spec_concurrency(),
            benchmark.spec_sample_window() == self.spec_sample_window(),
            benchmark.spec_connector() == self.spec_connector(),
            benchmark.spec_shutdown_handle() == self.spec_shutdown_handle(),
    {
        ReWrkBenchmark {
            shutdown: self.shutdown,
            num_workers: self.num_workers,
            concurrency: self.concurrency,
            connector: self.connector,
            validator,
            factory: self.factory,
        }
    }

    /// Set the number of workers to spawn.
    pub fn set_num_workers(&mut self, n: usize)
        ensures
            final(self).spec_num_workers() == n,
            final(self).spec_concurrency() == old(self).spec_concurrency(),
            final(self).spec_sample_window() == old(self).spec_sample_window(),
            final(self).spec_connector() == old(self).spec_connector(),
            final(self).spec_validator() == old(self).spec_validator(),
            final(self).spec_shutdown_handle() == old(self).spec_shutdown_handle(),
    {
        self.num_workers = n;
    }

    /// Set the duration which should elapse before a sample is submitted to
    /// be processed in the collector, in nanoseconds.
    pub fn set_sample_window(&mut self, dur: u64)
        ensures
            final(self).spec_sample_window() == dur,
            final(self).spec_num_workers() == old(self).spec_num_workers(),
            final(self).spec_concurrency() == old(self).spec_concurrency(),
            final(self).spec_connector() == old(self).spec_connector(),
            final(self).spec_validator() == old(self).spec_validator(),
            final(self).spec_shutdown_handle() == old(self).spec_shutdown_handle(),
    {
        self.factory = self.factory.with_window(dur);
    }
}

impl ReWrkBenchmark<DefaultValidator> {
    /// Creates a benchmark with `workers` workers, the default validator and
    /// the default sample window of 10 s.
    pub fn with_workers(
        connector: ReWrkConnector,
        concurrency: usize,
        collector: CollectorMailbox,
        workers: usize,
    ) -> (benchmark: Self)
        requires
            mailbox_capacity(collector) is None,
        ensures
            benchmark.spec_num_workers() == workers,
            benchmark.spec_concurrency() == concurrency,
            benchmark.spec_sample_window() == DEFAULT_WINDOW_DURATION,
            benchmark.spec_connector() == connector,
    {
        ReWrkBenchmark {
            shutdown: ShutdownHandle::new(),
            num_workers: workers,
            concurrency,
            connector,
            validator: DefaultValidator,
            factory: SampleFactory::new(
                DEFAULT_WINDOW_DURATION,
                SampleMetadata { worker_id: 0, concurrency_id: 0 },
                collector,
            ),
        }
    }

    /// Creates a new [ReWrkBenchmark].
    ///
    /// The benchmark has the default validator and the default sample window
    /// of 10 s. Its number of workers is one less than the number of CPUs
    /// of the machine, and at least one.
    pub fn create(connector: ReWrkConnector, concurrency: usize, collector: CollectorMailbox) -> (benchmark:
        Self)
        requires
            mailbox_capacity(collector) is None,
        ensures
            benchmark.spec_num_workers() >= 1,
            benchmark.spec_concurrency() == concurrency,
            benchmark.spec_sample_window() == DEFAULT_WINDOW_DURATION,
            benchmark.spec_connector() == connector,
    {
        let num_workers = default_num_workers(available_cpus());
        Self::with_workers(connector, concurrency, collector, num_workers)
    }
}

} // verus!
