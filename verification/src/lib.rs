//! HTTP load generation core: request identity, sample recording and the
//! decisions of the worker runtime, with machine-checked contracts.

use std::cmp::Ordering;

use vstd::prelude::*;

pub mod args;
pub mod collector;
pub mod connection;
pub mod headers;
pub mod producer;
pub mod proto;
pub mod results;
pub mod runtime;
pub mod sample;
pub mod sample_merger;
pub mod slot;
pub mod sorting;
pub mod timings;
pub mod usage;
pub mod utils;
pub mod validator;
pub mod worker;

pub use connection::{HttpMode, HttpProtocol, Scheme};
pub use producer::{Batch, ProducerActor, Request, RequestBatch};
pub use runtime::{BenchmarkError, ReWrkBenchmark, DEFAULT_WINDOW_DURATION};
pub use sample::{Sample, SampleFactory, SampleMetadata, Shutdown};
pub use sample_merger::SampleMerger;
pub use slot::WorkerConnection;
pub use timings::RuntimeTimings;
pub use validator::{DefaultValidator, ResponseValidator, ValidationError};
pub use worker::ShutdownHandle;

verus! {

/// A unique ID for each request which is executed.
///
/// The pair `(worker_id, request_id)` lets a validator work out which request
/// of a producer a response belongs to. Equality, ordering and hashing go by
/// the two components in that order.
#[derive(Copy, Clone, Debug, Hash, PartialEq, Eq, Ord, Structural)]
pub struct RequestKey(usize, usize);

impl RequestKey {
    /// The key of the given worker and request.
    pub closed spec fn spec_new(worker_id: usize, request_id: usize) -> RequestKey {
        RequestKey(worker_id, request_id)
    }

    /// The worker that executes the request.
    pub closed spec fn spec_worker_id(&self) -> usize {
        self.0
    }

    /// The position of the request in the worker's stream of requests.
    pub closed spec fn spec_request_id(&self) -> usize {
        self.1
    }

    /// The key of request `request_id` of worker `worker_id`.
    pub fn new(worker_id: usize, request_id: usize) -> (key: Self)
        ensures
            key == Self::spec_new(worker_id, request_id),
            key.spec_worker_id() == worker_id,
            key.spec_request_id() == request_id,
    {
        Self(worker_id, request_id)
    }

    /// A key holds exactly the two numbers it was made of.
    pub broadcast proof fn lemma_components(worker_id: usize, request_id: usize)
        ensures
            (#[trigger] Self::spec_new(worker_id, request_id)).spec_worker_id() == worker_id,
            Self::spec_new(worker_id, request_id).spec_request_id() == request_id,
    {
    }

    #[inline]
    #[verifier::when_used_as_spec(spec_worker_id)]
    pub fn worker_id(&self) -> (id: usize)
        ensures
            id == self.spec_worker_id(),
    {
        self.0
    }

    #[inline]
    #[verifier::when_used_as_spec(spec_request_id)]
    pub fn request_id(&self) -> (id: usize)
        ensures
            id == self.spec_request_id(),
    {
        self.1
    }
}

impl PartialOrd for RequestKey {
    /// Keys are ordered by their worker, and keys of one worker by their
    /// request.
    fn partial_cmp(&self, other: &Self) -> (order: Option<Ordering>) {
        if self.0 < other.0 {
            Some(Ordering::Less)
        } else if self.0 > other.0 {
            Some(Ordering::Greater)
        } else if self.1 < other.1 {
            Some(Ordering::Less)
        } else if self.1 > other.1 {
            Some(Ordering::Greater)
        } else {
            Some(Ordering::Equal)
        }
    }
}

impl vstd::std_specs::cmp::PartialOrdSpecImpl for RequestKey {
    open spec fn obeys_partial_cmp_spec() -> bool {
        true
    }

    open spec fn partial_cmp_spec(&self, other: &Self) -> Option<Ordering> {
        if self.spec_worker_id() < other.spec_worker_id() {
            Some(Ordering::Less)
        } else if self.spec_worker_id() > other.spec_worker_id() {
            Some(Ordering::Greater)
        } else if self.spec_request_id() < other.spec_request_id() {
            Some(Ordering::Less)
        } else if self.spec_request_id() > other.spec_request_id() {
            Some(Ordering::Greater)
        } else {
            Some(Ordering::Equal)
        }
    }
}

} // verus!
