//! One connection of a worker while it benchmarks: what it records for each
//! request, when it closes a window of samples, and when it stops.
//!
//! The connection itself, the producer and the clock are driven by the
//! caller. It reports what happened, each time with the reading of a
//! monotonic clock in nanoseconds, and is told how to go on. The sample of
//! a window that is closed is handed back to the caller, who takes it to the
//! collector and says whether the collector took it.

use vstd::prelude::*;

use crate::sample::{
    lemma_sum_durations_bound, sum_durations, transfer_rate, Sample, SampleFactory, SampleMetadata,
    SampleView, Shutdown,
};
use crate::timings::RuntimeTimings;
use crate::validator::{ResponseHead, ResponseValidator, ValidationError, ValidationErrorView};
use crate::worker::{batch_key, ShutdownHandle};
use crate::RequestKey;

verus! {

/// What is known of a transport error: the answers of the HTTP client to each
/// of its questions about the error.
#[derive(Debug, Clone, Copy, PartialEq, Eq, Structural)]
pub struct TransportErrorKind {
    pub body_write_aborted: bool,
    pub closed: bool,
    pub connect: bool,
    pub incomplete_message: bool,
    pub parse: bool,
    pub parse_too_large: bool,
    pub parse_status: bool,
    pub timeout: bool,
}

/// What a transport error means for the connection.
#[derive(Debug, Clone, Copy, PartialEq, Eq, Structural)]
pub enum TransportFailure {
    /// The connection is gone.
    Aborted,
    /// The response could not be read as HTTP.
    Malformed,
    /// The response took too long.
    TimedOut,
    /// Anything else: the error goes to the worker.
    Other,
}

/// The class of a transport error. A lost connection outranks a malformed
/// response, which outranks a timeout.
pub open spec fn classification(kind: TransportErrorKind) -> TransportFailure {
    if kind.body_write_aborted || kind.closed || kind.connect {
        TransportFailure::Aborted
    } else if kind.incomplete_message || kind.parse || kind.parse_too_large || kind.parse_status {
        TransportFailure::Malformed
    } else if kind.timeout {
        TransportFailure::TimedOut
    } else {
        TransportFailure::Other
    }
}

/// Sorts a transport error into its class.
pub fn classify(kind: TransportErrorKind) -> (failure: TransportFailure)
    ensures
        failure == classification(kind),
{
    if kind.body_write_aborted || kind.closed || kind.connect {
        TransportFailure::Aborted
    } else if kind.incomplete_message || kind.parse || kind.parse_too_large || kind.parse_status {
        TransportFailure::Malformed
    } else if kind.timeout {
        TransportFailure::TimedOut
    } else {
        TransportFailure::Other
    }
}

/// Whether a connection takes up another batch, given whether it has set the
/// shutdown flag itself and what it read from the flag: only if neither.
pub fn goes_on(stopped: bool, abort_requested: bool) -> (go: bool)
    ensures
        go == (!stopped && !abort_requested),
{
    !stopped && !abort_requested
}

/// How the connection goes on after a request.
#[derive(Debug, Clone, Copy, PartialEq, Eq, Structural)]
pub enum SlotDirective {
    /// Go on with the next request.
    Continue,
    /// Stop: the shutdown flag has been set.
    Abort,
    /// Stop and report the transport error: the shutdown flag has been set.
    Fail,
}

/// What was read when a request was sent.
#[derive(Debug, Clone, Copy, PartialEq, Eq, Structural)]
pub struct PendingRequest {
    /// The bytes received on the connection so far.
    pub read_start: u64,
    /// The bytes written to the connection so far.
    pub write_start: u64,
    /// The time the request was sent.
    pub started_at: u64,
}

/// The reason recorded for a response that could not be read as HTTP.
pub open spec fn invalid_body_reason() -> Seq<char> {
    "invalid-http-body"@
}

/// The mathematical content of a [`WorkerConnection`].
pub ghost struct SlotView {
    /// The sample of the open window.
    pub sample: SampleView,
    /// The time after which a window is closed.
    pub window: u64,
    /// The metadata of every sample of this connection.
    pub metadata: SampleMetadata,
    /// When the open window was opened.
    pub window_start: u64,
    /// The latest time the connection was told of.
    pub clock: u64,
    /// When the batch in progress was received, if one is in progress.
    pub batch_started_at: Option<u64>,
    pub timings: RuntimeTimings,
    /// No batch has been received yet.
    pub first_batch: bool,
    /// The request that is waiting for its response, if any.
    pub pending: Option<PendingRequest>,
    /// The samples of the windows that were closed so far, in order. Each
    /// was handed to the caller for the collector.
    pub submitted: Seq<SampleView>,
    /// When the last window was closed, as long as the caller has not said
    /// whether the collector took its sample.
    pub unconfirmed: Option<u64>,
    /// This connection has set the shutdown flag.
    pub stopped: bool,
}

impl SlotView {
    /// A connection that has just been established at time `now`.
    pub open spec fn initial(window: u64, metadata: SampleMetadata, now: u64) -> SlotView {
        SlotView {
            sample: SampleView::empty(0, metadata),
            window,
            metadata,
            window_start: now,
            clock: now,
            batch_started_at: None,
            timings: RuntimeTimings { producer_wait_runtime: 0, execute_wait_runtime: 0 },
            first_batch: true,
            pending: None,
            submitted: Seq::empty(),
            unconfirmed: None,
            stopped: false,
        }
    }

    /// What holds of a connection at all times. Among it: every sample that
    /// was handed to the collector is consistent, and its window lasted at
    /// least as long as each of its requests.
    pub open spec fn wf(self) -> bool {
        &&& self.sample.consistent()
        &&& self.sample.metadata == self.metadata
        &&& self.sample.total_duration == 0
        &&& self.sample.total_requests >= self.sample.total_successful_requests
            + self.sample.errors.len() + if self.pending is Some {
            1int
        } else {
            0int
        }
        &&& self.sample.total_requests <= usize::MAX
        &&& self.window_start <= self.clock
        &&& forall|i: int|
            0 <= i < self.sample.latency.len() ==> self.sample.latency[i] <= self.clock
                - self.window_start
        &&& self.pending matches Some(p) ==> self.window_start <= p.started_at <= self.clock
        &&& self.first_batch ==> self.sample == SampleView::empty(0, self.metadata)
            && self.pending is None && self.batch_started_at is None
        &&& match self.batch_started_at {
            Some(t) => self.timings.producer_wait_runtime + self.timings.execute_wait_runtime <= t
                <= self.clock,
            None => self.timings.producer_wait_runtime + self.timings.execute_wait_runtime
                <= self.clock,
        }
        &&& forall|i: int|
            0 <= i < self.submitted.len() ==> (#[trigger] self.submitted[i]).consistent()
                && self.submitted[i].covers_latencies()
        &&& self.unconfirmed matches Some(closed) ==> {
            &&& self.window_start <= closed <= self.clock
            &&& forall|i: int|
                0 <= i < self.sample.latency.len() ==> self.sample.latency[i] <= self.clock
                    - closed
            &&& self.pending matches Some(p) ==> closed <= p.started_at
        }
    }

    /// The sample of the open window as it is handed to the collector when
    /// the window is closed at time `now`.
    pub open spec fn sealed(self, now: u64) -> SampleView {
        SampleView { total_duration: (now - self.window_start) as nat, ..self.sample }
    }

    /// The connection after it closed its window at time `now` and opened a
    /// window for `next_tag`. The sample of the closed window is handed to
    /// the caller, who takes it to the collector and says how that went.
    /// Until then the new window counts from where the old one started.
    pub open spec fn after_seal(self, next_tag: usize, now: u64) -> SlotView {
        SlotView {
            sample: SampleView::empty(next_tag, self.metadata),
            submitted: self.submitted.push(self.sealed(now)),
            clock: now,
            pending: None,
            unconfirmed: Some(now),
            ..self
        }
    }

    /// The connection after it was told whether the collector took the
    /// sample of the window that was closed last. If so, the open window
    /// counts from the time the last was closed. If not, the collector is
    /// gone and the connection sets the shutdown flag.
    pub open spec fn after_delivery(self, delivered: bool) -> SlotView {
        SlotView {
            window_start: match self.unconfirmed {
                Some(closed) => if delivered {
                    closed
                } else {
                    self.window_start
                },
                None => self.window_start,
            },
            stopped: self.stopped || !delivered,
            unconfirmed: None,
            ..self
        }
    }

    /// The connection after a batch arrived at `now` for which it had waited
    /// since `waited_since`, before it looks at the batch's tag.
    pub open spec fn after_batch_received(self, waited_since: u64, now: u64) -> SlotView {
        SlotView {
            timings: RuntimeTimings {
                producer_wait_runtime: (self.timings.producer_wait_runtime + (now
                    - waited_since)) as u64,
                execute_wait_runtime: self.timings.execute_wait_runtime,
            },
            first_batch: false,
            window_start: if self.first_batch {
                now
            } else {
                self.window_start
            },
            clock: now,
            batch_started_at: Some(now),
            unconfirmed: if self.first_batch {
                None
            } else {
                self.unconfirmed
            },
            ..self
        }
    }

    /// The connection after it took up a batch with the given tag.
    ///
    /// The window that is open when the first batch arrives has recorded
    /// nothing: it takes the tag of that batch, and nothing is handed over.
    /// Later, a batch with another tag than the open window closes the
    /// window.
    pub open spec fn after_begin_batch(self, waited_since: u64, now: u64, tag: usize) -> SlotView {
        let received = self.after_batch_received(waited_since, now);
        if self.first_batch {
            SlotView { sample: SampleView::empty(tag, self.metadata), ..received }
        } else if received.sample.tag != tag {
            received.after_seal(tag, now)
        } else {
            received
        }
    }

    /// Whether a batch with the given tag closes the open window: not the
    /// first batch, and later only a batch with another tag.
    pub open spec fn batch_closes_window(self, tag: usize) -> bool {
        !self.first_batch && self.sample.tag != tag
    }

    /// The connection after it sent a request at time `now`.
    pub open spec fn after_begin_request(self, read: u64, write: u64, now: u64) -> SlotView {
        SlotView {
            sample: SampleView {
                total_requests: self.sample.total_requests + 1nat,
                ..self.sample
            },
            pending: Some(PendingRequest { read_start: read, write_start: write, started_at: now }),
            clock: now,
            ..self
        }
    }

    /// The error that is recorded for a transport failure, if any.
    pub open spec fn recorded_failure(failure: TransportFailure) -> Option<ValidationErrorView> {
        match failure {
            TransportFailure::Aborted => Some(ValidationErrorView::ConnectionAborted),
            TransportFailure::Malformed => Some(
                ValidationErrorView::InvalidBody(invalid_body_reason()),
            ),
            TransportFailure::TimedOut => Some(ValidationErrorView::Timeout),
            TransportFailure::Other => None,
        }
    }

    /// How the connection goes on after a transport failure.
    pub open spec fn directive_after_failure(failure: TransportFailure) -> SlotDirective {
        match failure {
            TransportFailure::Aborted => SlotDirective::Abort,
            TransportFailure::Malformed => SlotDirective::Continue,
            TransportFailure::TimedOut => SlotDirective::Continue,
            TransportFailure::Other => SlotDirective::Fail,
        }
    }

    /// The connection after the pending request failed in transport.
    pub open spec fn after_failure(self, failure: TransportFailure) -> SlotView {
        SlotView {
            sample: match Self::recorded_failure(failure) {
                Some(error) => SampleView {
                    errors: self.sample.errors.push(error),
                    ..self.sample
                },
                None => self.sample,
            },
            pending: None,
            stopped: self.stopped || Self::directive_after_failure(failure)
                != SlotDirective::Continue,
            ..self
        }
    }

    /// The sample of the open window after the response to the pending
    /// request was judged at time `now`.
    pub open spec fn recorded(
        self,
        verdict: Result<(), ValidationErrorView>,
        read_end: u64,
        write_end: u64,
        now: u64,
    ) -> SampleView
        recommends
            self.pending is Some,
    {
        let pending = self.pending->0;
        let elapsed = (now - pending.started_at) as u64;
        match verdict {
            Err(error) => SampleView { errors: self.sample.errors.push(error), ..self.sample },
            Ok(()) => SampleView {
                total_successful_requests: self.sample.total_successful_requests + 1nat,
                total_latency_duration: self.sample.total_latency_duration + elapsed as nat,
                latency: self.sample.latency.push(elapsed),
                read_transfer: self.sample.read_transfer.push(
                    transfer_rate(pending.read_start, read_end, elapsed) as u32,
                ),
                write_transfer: self.sample.write_transfer.push(
                    transfer_rate(pending.write_start, write_end, elapsed) as u32,
                ),
                ..self.sample
            },
        }
    }

    /// Whether the window is due to be closed at time `now`.
    pub open spec fn window_elapsed(self, now: u64) -> bool {
        self.window <= now - self.window_start
    }

    /// The connection after the response to the pending request was judged
    /// at time `now`.
    pub open spec fn after_response(
        self,
        verdict: Result<(), ValidationErrorView>,
        read_end: u64,
        write_end: u64,
        now: u64,
    ) -> SlotView {
        let recorded = SlotView {
            sample: self.recorded(verdict, read_end, write_end, now),
            pending: None,
            clock: now,
            ..self
        };
        if self.window_elapsed(now) {
            recorded.after_seal(recorded.sample.tag, now)
        } else {
            recorded
        }
    }

    /// The connection after the batch in progress ended at time `now`.
    pub open spec fn after_end_batch(self, now: u64) -> SlotView
        recommends
            self.batch_started_at is Some,
    {
        SlotView {
            timings: RuntimeTimings {
                producer_wait_runtime: self.timings.producer_wait_runtime,
                execute_wait_runtime: (self.timings.execute_wait_runtime + (now
                    - self.batch_started_at->0)) as u64,
            },
            batch_started_at: None,
            clock: now,
            ..self
        }
    }
}

/// The sample of a window that is closed at or after the latest time its
/// connection was told of holds one latency and one rate of each direction
/// per successful request, no more successes and errors than requests, a
/// latency total that is the sum of its latencies, and a duration that no
/// latency exceeds.
pub proof fn lemma_sealed_sample_is_sound(slot: SlotView, now: u64)
    requires
        slot.wf(),
        slot.clock <= now,
    ensures
        slot.sealed(now).consistent(),
        slot.sealed(now).covers_latencies(),
        slot.sealed(now).total_requests >= slot.sealed(now).total_successful_requests
            + slot.sealed(now).errors.len(),
{
}

/// Closing the window keeps the connection well formed.
pub proof fn lemma_after_seal_wf(slot: SlotView, next_tag: usize, now: u64)
    requires
        slot.wf(),
        slot.clock <= now,
        slot.first_batch ==> next_tag == 0,
    ensures
        slot.after_seal(next_tag, now).wf(),
        slot.after_seal(next_tag, now).sample.tag == next_tag,
{
    lemma_sealed_sample_is_sound(slot, now);
}

/// The word of the caller on the last hand-over keeps the connection well
/// formed.
pub proof fn lemma_after_delivery_wf(slot: SlotView, delivered: bool)
    requires
        slot.wf(),
    ensures
        slot.after_delivery(delivered).wf(),
{
}

/// Taking up a batch keeps the connection well formed.
pub proof fn lemma_after_begin_batch_wf(
    slot: SlotView,
    waited_since: u64,
    now: u64,
    tag: usize,
)
    requires
        slot.wf(),
        slot.clock <= waited_since <= now,
    ensures
        slot.after_batch_received(waited_since, now).wf(),
        slot.after_begin_batch(waited_since, now, tag).wf(),
        slot.after_begin_batch(waited_since, now, tag).sample.tag == tag,
        slot.after_begin_batch(waited_since, now, tag).batch_started_at is Some,
{
    let received = slot.after_batch_received(waited_since, now);
    assert(received.wf());
    lemma_after_seal_wf(received, tag, now);
    if slot.first_batch {
        assert(sum_durations(SampleView::empty(tag, slot.metadata).latency) == 0);
    }
}

/// Sending a request keeps the connection well formed.
pub proof fn lemma_after_begin_request_wf(slot: SlotView, read: u64, write: u64, now: u64)
    requires
        slot.wf(),
        slot.clock <= now,
        slot.batch_started_at is Some,
        slot.sample.total_requests < usize::MAX,
    ensures
        slot.after_begin_request(read, write, now).wf(),
{
}

/// A transport failure keeps the connection well formed.
pub proof fn lemma_after_failure_wf(slot: SlotView, failure: TransportFailure)
    requires
        slot.wf(),
        slot.pending is Some,
    ensures
        slot.after_failure(failure).wf(),
{
}

/// A judged response keeps the connection well formed.
pub proof fn lemma_after_response_wf(
    slot: SlotView,
    verdict: Result<(), ValidationErrorView>,
    read_end: u64,
    write_end: u64,
    now: u64,
)
    requires
        slot.wf(),
        slot.pending is Some,
        slot.clock <= now,
    ensures
        slot.after_response(verdict, read_end, write_end, now).wf(),
        (SlotView {
            sample: slot.recorded(verdict, read_end, write_end, now),
            pending: None,
            clock: now,
            ..slot
        }).wf(),
{
    let recorded = SlotView {
        sample: slot.recorded(verdict, read_end, write_end, now),
        pending: None,
        clock: now,
        ..slot
    };
    let elapsed = (now - slot.pending->0.started_at) as u64;
    assert(slot.sample.latency.push(elapsed).drop_last() =~= slot.sample.latency);
    assert(recorded.wf());
    lemma_after_seal_wf(recorded, recorded.sample.tag, now);
}

/// The end of a batch keeps the connection well formed.
pub proof fn lemma_after_end_batch_wf(slot: SlotView, now: u64)
    requires
        slot.wf(),
        slot.batch_started_at is Some,
        slot.clock <= now,
    ensures
        slot.after_end_batch(now).wf(),
{
}

/// One connection of a worker while it benchmarks.
///
/// It owns the sample of the open window. The caller drives the connection
/// and the producer and reports each event with the reading of a monotonic
/// clock in nanoseconds.
pub struct WorkerConnection<V: ResponseValidator> {
    /// The sample factory for producing metric samples.
    sample_factory: SampleFactory,
    /// The current sample being populated with metrics.
    sample: Sample,
    /// The selected validator for the benchmark.
    validator: V,
    /// The point in time when the last sample was submitted to the collectors.
    last_sent_sample: u64,
    /// A signal flag telling all workers to shutdown.
    shutdown: ShutdownHandle,
    /// Internal timings which are useful for debugging.
    timings: RuntimeTimings,
    /// A check for if the first batch has been received already.
    ///
    /// This is so that the window can be restarted when benchmarking
    /// starts, which would otherwise skew results.
    is_first_batch: bool,
    /// The latest time this connection was told of.
    clock: u64,
    /// When the batch in progress was received.
    batch_started_at: Option<u64>,
    /// The request that is waiting for its response.
    pending: Option<PendingRequest>,
    /// The samples of the windows that were closed so far.
    submitted: Ghost<Seq<SampleView>>,
    /// When the last window was closed, as long as the caller has not said
    /// whether the collector took its sample.
    unconfirmed: Option<u64>,
    /// Whether this connection has set the shutdown flag.
    stopped: bool,
}

impl<V: ResponseValidator> View for WorkerConnection<V> {
    type V = SlotView;

    closed spec fn view(&self) -> SlotView {
        SlotView {
            sample: self.sample@,
            window: self.sample_factory.window(),
            metadata: self.sample_factory.spec_metadata(),
            window_start: self.last_sent_sample,
            clock: self.clock,
            batch_started_at: self.batch_started_at,
            timings: self.timings,
            first_batch: self.is_first_batch,
            pending: self.pending,
            submitted: self.submitted@,
            unconfirmed: self.unconfirmed,
            stopped: self.stopped,
        }
    }
}

impl<V: ResponseValidator> WorkerConnection<V> {
    /// The validator that judges the responses on this connection.
    pub closed spec fn spec_validator(&self) -> V {
        self.validator
    }

    /// Create a new worker instance for a connection established at `now`.
    pub fn new(sample_factory: SampleFactory, validator: V, shutdown: ShutdownHandle, now: u64) -> (slot:
        Self)
        ensures
            slot@ == SlotView::initial(sample_factory.window(), sample_factory.spec_metadata(), now),
            slot@.wf(),
            slot.spec_validator() == validator,
    {
        let sample = sample_factory.new_sample(0);
        Self {
            sample_factory,
            sample,
            validator,
            last_sent_sample: now,
            shutdown,
            timings: RuntimeTimings::new(),
            is_first_batch: true,
            clock: now,
            batch_started_at: None,
            pending: None,
            submitted: Ghost(Seq::empty()),
            unconfirmed: None,
            stopped: false,
        }
    }

    /// Whether the connection takes up another batch: not once it has set
    /// the shutdown flag itself, and otherwise as long as the flag, which
    /// every worker and the orchestrator can set, is not set.
    pub fn should_continue(&self) -> (go: bool)
        ensures
            self@.stopped ==> !go,
    {
        goes_on(self.stopped, self.shutdown.should_abort())
    }

    /// Whether this connection has set the shutdown flag.
    pub fn stopped(&self) -> (answer: bool)
        ensures
            answer == self@.stopped,
    {
        self.stopped
    }

    /// The latest time this connection was told of.
    pub fn clock(&self) -> (now: u64)
        ensures
            now == self@.clock,
    {
        self.clock
    }

    /// Whether a batch is in progress.
    pub fn in_batch(&self) -> (answer: bool)
        ensures
            answer == (self@.batch_started_at is Some),
    {
        self.batch_started_at.is_some()
    }

    /// The request that is waiting for its response, if any.
    pub fn pending(&self) -> (pending: Option<PendingRequest>)
        ensures
            pending == self@.pending,
    {
        self.pending
    }

    /// The sample of the open window.
    pub fn sample(&self) -> (sample: &Sample)
        ensures
            sample@ == self@.sample,
    {
        &self.sample
    }

    /// The time spent waiting so far.
    pub fn timings(&self) -> (timings: RuntimeTimings)
        ensures
            timings == self@.timings,
    {
        self.timings
    }

    /// The key of request number `n` of a batch whose first request has the
    /// ID `first_request_id`: this connection's worker and the ID counted on
    /// from the first.
    pub fn request_key(&self, first_request_id: usize, n: usize) -> (key: RequestKey)
        requires
            first_request_id + n <= usize::MAX,
        ensures
            key == batch_key(self@.metadata.worker_id, first_request_id, n as int),
            key.spec_worker_id() == self@.metadata.worker_id,
            key.spec_request_id() == first_request_id + n,
    {
        RequestKey::new(self.sample_factory.metadata().worker_id, first_request_id + n)
    }

    /// Sets the abort flag across workers.
    fn set_abort(&mut self)
        ensures
            final(self)@ == (SlotView { stopped: true, ..old(self)@ }),
            final(self).spec_validator() == old(self).spec_validator(),
    {
        self.stopped = true;
        self.shutdown.set_abort()
    }

    /// Closes the window at time `now`: hands out the sample of the open
    /// window with its duration set and starts an empty sample for
    /// `next_sample_tag`.
    fn seal(&mut self, next_sample_tag: usize, now: u64) -> (sealed: Sample)
        requires
            old(self)@.wf(),
            old(self)@.clock <= now,
            old(self)@.first_batch ==> next_sample_tag == 0,
        ensures
            sealed@ == old(self)@.sealed(now),
            sealed@.consistent(),
            sealed@.covers_latencies(),
            final(self)@ == old(self)@.after_seal(next_sample_tag, now),
            final(self)@.wf(),
            final(self).spec_validator() == old(self).spec_validator(),
    {
        let mut old_sample = self.sample_factory.new_sample(next_sample_tag);
        core::mem::swap(&mut self.sample, &mut old_sample);
        old_sample.set_total_duration(now - self.last_sent_sample);
        self.clock = now;
        self.pending = None;
        self.unconfirmed = Some(now);
        self.submitted = Ghost(self.submitted@.push(old_sample@));
        proof {
            lemma_sealed_sample_is_sound(old(self)@, now);
            lemma_after_seal_wf(old(self)@, next_sample_tag, now);
        }
        old_sample
    }

    /// Attempts to submit a sample to the collector of this connection. The
    /// answer is `Err(Shutdown)` when the collector is gone, which only the
    /// state of the channel decides. The connection stays as it is.
    pub fn submit(&self, sample: Sample) -> (verdict: Result<(), Shutdown>) {
        self.sample_factory.submit_sample(sample)
    }

    /// Takes the word on how the hand-over of the last closed window went,
    /// and says how to go on.
    ///
    /// If the collector took the sample, the open window counts from the
    /// time the last was closed, and the connection goes on. If the
    /// collector is gone, the connection sets the shutdown flag and stops.
    pub fn delivered(&mut self, verdict: Result<(), Shutdown>) -> (directive: SlotDirective)
        requires
            old(self)@.wf(),
        ensures
            final(self)@ == old(self)@.after_delivery(verdict is Ok),
            final(self)@.wf(),
            directive == if verdict is Ok {
                SlotDirective::Continue
            } else {
                SlotDirective::Abort
            },
            directive != SlotDirective::Continue ==> final(self)@.stopped,
            final(self).spec_validator() == old(self).spec_validator(),
    {
        proof {
            lemma_after_delivery_wf(old(self)@, verdict is Ok);
        }
        let closed = self.unconfirmed;
        self.unconfirmed = None;
        match verdict {
            Ok(()) => {
                match closed {
                    Some(at) => {
                        self.last_sent_sample = at;
                    },
                    None => {},
                }
                SlotDirective::Continue
            },
            Err(_) => {
                self.set_abort();
                SlotDirective::Abort
            },
        }
    }

    /// Takes up a batch with the given tag that arrived at `now`, after the
    /// connection had waited for it since `waited_since`.
    ///
    /// The wait is added to the producer wait. The first batch restarts the
    /// window and gives it its tag; nothing is handed over. Later, a tag other
    /// than that of the open window closes the window: its sample is handed
    /// back for the collector, and an empty sample with the new tag takes its
    /// place. The requests of the batch follow once the caller has handed
    /// the sample over and was told to go on.
    pub fn begin_batch(&mut self, waited_since: u64, now: u64, tag: usize) -> (sealed: Option<
        Sample,
    >)
        requires
            old(self)@.wf(),
            old(self)@.clock <= waited_since <= now,
        ensures
            final(self)@ == old(self)@.after_begin_batch(waited_since, now, tag),
            final(self)@.wf(),
            sealed is Some <==> old(self)@.batch_closes_window(tag),
            sealed matches Some(sample) ==> sample@ == old(self)@.after_batch_received(
                waited_since,
                now,
            ).sealed(now) && sample@.consistent() && sample@.covers_latencies(),
            final(self).spec_validator() == old(self).spec_validator(),
    {
        proof {
            lemma_after_begin_batch_wf(old(self)@, waited_since, now, tag);
        }
        self.timings.producer_wait_runtime = self.timings.producer_wait_runtime + (now
            - waited_since);
        let first_batch = self.is_first_batch;
        if self.is_first_batch {
            self.is_first_batch = false;
            self.last_sent_sample = now;
            self.unconfirmed = None;
        }
        self.clock = now;
        self.batch_started_at = Some(now);
        assert(self@ == old(self)@.after_batch_received(waited_since, now));
        if first_batch {
            if self.sample.tag() != tag {
                self.sample = self.sample_factory.new_sample(tag);
            }
            None
        } else if self.sample.tag() != tag {
            Some(self.seal(tag, now))
        } else {
            None
        }
    }

    /// Counts a request that is sent at `now`, and keeps the readings of the
    /// connection's byte counters for its transfer rates.
    pub fn begin_request(&mut self, read: u64, write: u64, now: u64)
        requires
            old(self)@.wf(),
            old(self)@.clock <= now,
            old(self)@.batch_started_at is Some,
            old(self)@.sample.total_requests < usize::MAX,
        ensures
            final(self)@ == old(self)@.after_begin_request(read, write, now),
            final(self)@.wf(),
            final(self).spec_validator() == old(self).spec_validator(),
    {
        proof {
            lemma_after_begin_request_wf(old(self)@, read, write, now);
        }
        self.sample.record_total_request();
        self.pending = Some(PendingRequest { read_start: read, write_start: write, started_at: now });
        self.clock = now;
    }

    /// Records that the pending request failed in transport, and says how to
    /// go on.
    ///
    /// A lost connection is recorded as `ConnectionAborted` and stops the
    /// connection. A malformed response is recorded as `InvalidBody` and a
    /// timeout as `Timeout`; after both the next request follows. Of any
    /// other failure nothing is recorded: the connection stops and the error
    /// goes to the worker. Whenever the connection stops, the shutdown flag
    /// is set.
    pub fn fail_request(&mut self, failure: TransportFailure) -> (directive: SlotDirective)
        requires
            old(self)@.wf(),
            old(self)@.pending is Some,
        ensures
            final(self)@ == old(self)@.after_failure(failure),
            final(self)@.wf(),
            directive == SlotView::directive_after_failure(failure),
            directive != SlotDirective::Continue ==> final(self)@.stopped,
            final(self).spec_validator() == old(self).spec_validator(),
    {
        proof {
            lemma_after_failure_wf(old(self)@, failure);
        }
        self.pending = None;
        match failure {
            TransportFailure::Aborted => {
                self.sample.record_error(ValidationError::ConnectionAborted);
                self.set_abort();
                SlotDirective::Abort
            },
            TransportFailure::Malformed => {
                self.sample.record_error(ValidationError::InvalidBody("invalid-http-body".to_owned()));
                SlotDirective::Continue
            },
            TransportFailure::TimedOut => {
                self.sample.record_error(ValidationError::Timeout);
                SlotDirective::Continue
            },
            TransportFailure::Other => {
                self.set_abort();
                SlotDirective::Fail
            },
        }
    }

    /// Records the verdict on the response to the pending request, which
    /// arrived at `now`.
    ///
    /// A rejected response adds its error to the sample. An accepted one
    /// counts as successful and adds its latency and the two transfer rates
    /// over that latency. If the window is due afterwards, it is closed: its
    /// sample, with this request in it, is handed back for the collector, and
    /// a new window with the same tag is opened.
    pub fn record_response(
        &mut self,
        verdict: Result<(), ValidationError>,
        read_end: u64,
        write_end: u64,
        now: u64,
    ) -> (sealed: Option<Sample>)
        requires
            old(self)@.wf(),
            old(self)@.clock <= now,
            old(self)@.pending matches Some(p) && p.read_start <= read_end && p.write_start
                <= write_end,
        ensures
            final(self)@ == old(self)@.after_response(
                result_view(verdict),
                read_end,
                write_end,
                now,
            ),
            final(self)@.wf(),
            sealed is Some <==> old(self)@.window_elapsed(now),
            sealed matches Some(sample) ==> sample@ == (SampleView {
                total_duration: (now - old(self)@.window_start) as nat,
                ..old(self)@.recorded(result_view(verdict), read_end, write_end, now)
            }) && sample@.consistent() && sample@.covers_latencies(),
            final(self).spec_validator() == old(self).spec_validator(),
    {
        proof {
            lemma_after_response_wf(old(self)@, result_view(verdict), read_end, write_end, now);
            lemma_sum_durations_bound(old(self)@.sample.latency);
        }
        let pending = match self.pending {
            Some(p) => p,
            None => {
                proof {
                    assert(false);
                }
                return None;
            },
        };
        let elapsed_time: u64 = now - pending.started_at;
        self.pending = None;
        self.clock = now;
        match verdict {
            Err(e) => {
                self.sample.record_error(e);
            },
            Ok(()) => {
                let ghost recorded = self@.sample.latency.len();
                assert(recorded * 0xffff_ffff_ffff_ffff + elapsed_time <= u128::MAX)
                    by (nonlinear_arith)
                    requires
                        recorded < usize::MAX,
                        usize::MAX <= 0xffff_ffff_ffff_ffff,
                        elapsed_time <= 0xffff_ffff_ffff_ffff,
                        u128::MAX == 0xffff_ffff_ffff_ffff_ffff_ffff_ffff_ffff,
                ;
                self.sample.record_successful_request();
                self.sample.record_latency(elapsed_time);
                self.sample.record_read_transfer(pending.read_start, read_end, elapsed_time);
                self.sample.record_write_transfer(pending.write_start, write_end, elapsed_time);
            },
        }
        assert(self@.sample == old(self)@.recorded(result_view(verdict), read_end, write_end, now));
        // Submit the sample if it's window interval has elapsed.
        if self.sample_factory.should_submit(now - self.last_sent_sample) {
            let batch_tag = self.sample.tag();
            Some(self.seal(batch_tag, now))
        } else {
            None
        }
    }

    /// Hands the response to the pending request, which arrived at `now`, to
    /// the validator and records the verdict as [`Self::record_response`]
    /// does.
    pub fn complete_request(
        &mut self,
        key: RequestKey,
        head: ResponseHead,
        body: Vec<u8>,
        read_end: u64,
        write_end: u64,
        now: u64,
    ) -> (sealed: Option<Sample>)
        requires
            old(self)@.wf(),
            old(self)@.clock <= now,
            old(self)@.pending matches Some(p) && p.read_start <= read_end && p.write_start
                <= write_end,
        ensures
            exists|verdict: Result<(), ValidationError>|
                #[trigger] old(self).spec_validator().may_answer(key, head, body, verdict) && final(self)@
                    == old(self)@.after_response(result_view(verdict), read_end, write_end, now) && (
                sealed matches Some(sample) ==> sample@ == (SampleView {
                    total_duration: (now - old(self)@.window_start) as nat,
                    ..old(self)@.recorded(result_view(verdict), read_end, write_end, now)
                })),
            final(self)@.wf(),
            sealed is Some <==> old(self)@.window_elapsed(now),
            sealed matches Some(sample) ==> sample@.consistent() && sample@.covers_latencies(),
            final(self).spec_validator() == old(self).spec_validator(),
    {
        let verdict = self.validator.validate(key, head, body);
        let ghost judged = verdict;
        let sealed = self.record_response(verdict, read_end, write_end, now);
        assert(old(self).spec_validator().may_answer(key, head, body, judged) && self@ == old(self)@.after_response(
            result_view(judged),
            read_end,
            write_end,
            now,
        ) && (sealed matches Some(sample) ==> sample@ == (SampleView {
            total_duration: (now - old(self)@.window_start) as nat,
            ..old(self)@.recorded(result_view(judged), read_end, write_end, now)
        })));
        sealed
    }

    /// Ends the batch in progress at time `now`: the time since it was taken
    /// up is added to the execute wait.
    pub fn end_batch(&mut self, now: u64)
        requires
            old(self)@.wf(),
            old(self)@.clock <= now,
            old(self)@.batch_started_at is Some,
        ensures
            final(self)@ == old(self)@.after_end_batch(now),
            final(self)@.wf(),
            final(self).spec_validator() == old(self).spec_validator(),
    {
        proof {
            lemma_after_end_batch_wf(old(self)@, now);
        }
        let started = match self.batch_started_at {
            Some(t) => t,
            None => now,
        };
        self.timings.execute_wait_runtime = self.timings.execute_wait_runtime + (now - started);
        self.batch_started_at = None;
        self.clock = now;
    }

    /// Ends the connection's part in the benchmark at time `now`: the window
    /// is closed, and its sample, however little it holds, is handed back
    /// for the collector together with the accumulated timings.
    pub fn finish(&mut self, now: u64) -> (last: (Sample, RuntimeTimings))
        requires
            old(self)@.wf(),
            old(self)@.clock <= now,
        ensures
            last.0@ == old(self)@.sealed(now),
            last.0@.consistent(),
            last.0@.covers_latencies(),
            last.1 == old(self)@.timings,
            final(self)@ == old(self)@.after_seal(0, now),
            final(self)@.wf(),
            final(self).spec_validator() == old(self).spec_validator(),
    {
        // Submit the remaining sample.
        let sample = self.seal(0, now);
        (sample, self.timings)
    }
}

/// The content of a verdict.
pub open spec fn result_view(verdict: Result<(), ValidationError>) -> Result<
    (),
    ValidationErrorView,
> {
    match verdict {
        Ok(()) => Ok(()),
        Err(error) => Err(error@),
    }
}

/// What a connection is told between its creation and its end.
pub ghost enum SlotEvent {
    /// A batch was taken up.
    BatchReceived { waited_since: u64, now: u64, tag: usize },
    /// A request was sent.
    RequestStarted { read: u64, write: u64, now: u64 },
    /// The pending request failed in transport.
    RequestFailed { failure: TransportFailure },
    /// The response to the pending request was judged.
    ResponseJudged {
        verdict: Result<(), ValidationErrorView>,
        read_end: u64,
        write_end: u64,
        now: u64,
    },
    /// The caller said whether the collector took the sample of the window
    /// that was closed last.
    Delivered { delivered: bool },
    /// The batch in progress ended.
    BatchEnded { now: u64 },
}

impl SlotView {
    /// Whether the connection can be told of the event: time does not run
    /// backwards, requests are sent within a batch, and only a pending
    /// request fails or is answered.
    pub open spec fn admits(self, event: SlotEvent) -> bool {
        match event {
            SlotEvent::BatchReceived { waited_since, now, .. } => self.clock <= waited_since
                <= now,
            SlotEvent::RequestStarted { now, .. } => self.clock <= now
                && self.batch_started_at is Some && self.sample.total_requests < usize::MAX,
            SlotEvent::RequestFailed { .. } => self.pending is Some,
            SlotEvent::ResponseJudged { read_end, write_end, now, .. } => self.clock <= now && (
            self.pending matches Some(p) && p.read_start <= read_end && p.write_start
                <= write_end),
            SlotEvent::Delivered { .. } => true,
            SlotEvent::BatchEnded { now } => self.clock <= now && self.batch_started_at is Some,
        }
    }

    /// The connection after the event.
    pub open spec fn after(self, event: SlotEvent) -> SlotView {
        match event {
            SlotEvent::BatchReceived { waited_since, now, tag } => self.after_begin_batch(
                waited_since,
                now,
                tag,
            ),
            SlotEvent::RequestStarted { read, write, now } => self.after_begin_request(
                read,
                write,
                now,
            ),
            SlotEvent::RequestFailed { failure } => self.after_failure(failure),
            SlotEvent::ResponseJudged {
                verdict,
                read_end,
                write_end,
                now,
            } => self.after_response(verdict, read_end, write_end, now),
            SlotEvent::Delivered { delivered } => self.after_delivery(delivered),
            SlotEvent::BatchEnded { now } => self.after_end_batch(now),
        }
    }

    /// Whether the event closes no window: the first batch, a batch with the
    /// tag of the open window, or a response before the window is due. Other
    /// events never close one.
    pub open spec fn is_calm(self, event: SlotEvent) -> bool {
        match event {
            SlotEvent::BatchReceived { tag, .. } => !self.batch_closes_window(tag),
            SlotEvent::ResponseJudged { now, .. } => !self.window_elapsed(now),
            _ => true,
        }
    }

    /// The connection after the events in order.
    pub open spec fn after_all(self, events: Seq<SlotEvent>) -> SlotView
        decreases events.len(),
    {
        if events.len() == 0 {
            self
        } else {
            self.after_all(events.drop_last()).after(events.last())
        }
    }

    /// Whether the connection can be told of the events in order.
    pub open spec fn admits_all(self, events: Seq<SlotEvent>) -> bool
        decreases events.len(),
    {
        events.len() == 0 || (self.admits_all(events.drop_last()) && self.after_all(
            events.drop_last(),
        ).admits(events.last()))
    }

    /// Whether each of the events in order is calm.
    pub open spec fn all_calm(self, events: Seq<SlotEvent>) -> bool
        decreases events.len(),
    {
        events.len() == 0 || (self.all_calm(events.drop_last()) && self.after_all(
            events.drop_last(),
        ).is_calm(events.last()))
    }

    /// Whether every batch among the events has the given tag.
    pub open spec fn only_tag(events: Seq<SlotEvent>, tag: usize) -> bool {
        forall|i: int|
            0 <= i < events.len() ==> ((#[trigger] events[i]) matches SlotEvent::BatchReceived {
                tag: other,
                ..
            } ==> other == tag)
    }

    /// The connection after the events in order and its end at time `end`.
    pub open spec fn finished(self, events: Seq<SlotEvent>, end: u64) -> SlotView {
        self.after_all(events).after_seal(0, end)
    }
}

/// Every event that a connection admits keeps it well formed, and neither
/// turns its clock back nor takes back a sample that was handed over.
pub proof fn lemma_event_keeps_wf(slot: SlotView, event: SlotEvent)
    requires
        slot.wf(),
        slot.admits(event),
    ensures
        slot.after(event).wf(),
        slot.clock <= slot.after(event).clock,
        slot.submitted.len() <= slot.after(event).submitted.len(),
        slot.after(event).submitted.take(slot.submitted.len() as int) == slot.submitted,
{
    match event {
        SlotEvent::BatchReceived { waited_since, now, tag } => {
            lemma_after_begin_batch_wf(slot, waited_since, now, tag);
        },
        SlotEvent::RequestStarted { read, write, now } => {
            lemma_after_begin_request_wf(slot, read, write, now);
        },
        SlotEvent::RequestFailed { failure } => {
            lemma_after_failure_wf(slot, failure);
        },
        SlotEvent::ResponseJudged { verdict, read_end, write_end, now } => {
            lemma_after_response_wf(slot, verdict, read_end, write_end, now);
        },
        SlotEvent::Delivered { delivered } => {
            lemma_after_delivery_wf(slot, delivered);
        },
        SlotEvent::BatchEnded { now } => {
            lemma_after_end_batch_wf(slot, now);
        },
    }
    assert(slot.after(event).submitted.take(slot.submitted.len() as int) =~= slot.submitted);
}

/// A connection stays well formed over any events it admits.
pub proof fn lemma_events_keep_wf(slot: SlotView, events: Seq<SlotEvent>)
    requires
        slot.wf(),
        slot.admits_all(events),
    ensures
        slot.after_all(events).wf(),
        slot.clock <= slot.after_all(events).clock,
    decreases events.len(),
{
    if events.len() > 0 {
        lemma_events_keep_wf(slot, events.drop_last());
        lemma_event_keeps_wf(slot.after_all(events.drop_last()), events.last());
    }
}

/// Every sample that a connection hands over for the collector, up to the
/// one at its end, is sound: it holds one latency and one transfer rate of
/// each direction per successful request, its requests are at least its
/// successes and errors together, its latency total is the sum of its
/// latencies, and its window lasted at least as long as the longest of
/// them.
pub proof fn lemma_every_submitted_sample_is_sound(
    window: u64,
    metadata: SampleMetadata,
    start: u64,
    events: Seq<SlotEvent>,
    end: u64,
    index: int,
)
    requires
        SlotView::initial(window, metadata, start).admits_all(events),
        SlotView::initial(window, metadata, start).after_all(events).clock <= end,
        0 <= index < SlotView::initial(window, metadata, start).finished(events, end).submitted.len(),
    ensures
        ({
            let sample = SlotView::initial(window, metadata, start).finished(
                events,
                end,
            ).submitted[index];
            &&& sample.latency.len() == sample.total_successful_requests
            &&& sample.read_transfer.len() == sample.total_successful_requests
            &&& sample.write_transfer.len() == sample.total_successful_requests
            &&& sample.total_requests >= sample.total_successful_requests + sample.errors.len()
            &&& sum_durations(sample.latency) == sample.total_latency_duration
            &&& forall|i: int|
                0 <= i < sample.latency.len() ==> sample.latency[i] <= sample.total_duration
        }),
{
    let slot = SlotView::initial(window, metadata, start);
    lemma_events_keep_wf(slot, events);
    lemma_after_seal_wf(slot.after_all(events), 0, end);
}

/// A connection that ends before one window has elapsed, and whose batches
/// all have the tag of the first, hands over exactly one sample: the one at
/// its end. It carries the tag of the batches, which is 0 where all batches
/// have tag 0 and where there was no batch.
pub proof fn lemma_short_run_submits_one_sample(
    window: u64,
    metadata: SampleMetadata,
    start: u64,
    events: Seq<SlotEvent>,
    end: u64,
    tag: usize,
)
    requires
        SlotView::initial(window, metadata, start).all_calm(events),
        SlotView::only_tag(events, tag),
    ensures
        SlotView::initial(window, metadata, start).after_all(events).submitted.len() == 0,
        SlotView::initial(window, metadata, start).finished(events, end).submitted.len() == 1,
        SlotView::initial(window, metadata, start).finished(events, end).submitted[0].tag
            == if SlotView::initial(window, metadata, start).after_all(events).first_batch {
            0
        } else {
            tag
        },
        tag == 0 ==> SlotView::initial(window, metadata, start).finished(
            events,
            end,
        ).submitted[0].tag == 0,
        SlotView::initial(window, metadata, start).finished(events, end).submitted[0].metadata
            == metadata,
{
    lemma_calm_events_submit_nothing(SlotView::initial(window, metadata, start), events, tag);
}

proof fn lemma_calm_events_submit_nothing(slot: SlotView, events: Seq<SlotEvent>, tag: usize)
    requires
        slot.first_batch,
        slot.sample.tag == 0,
        slot.sample.metadata == slot.metadata,
        slot.all_calm(events),
        SlotView::only_tag(events, tag),
    ensures
        slot.after_all(events).submitted == slot.submitted,
        slot.after_all(events).sample.tag == if slot.after_all(events).first_batch {
            0
        } else {
            tag
        },
        slot.after_all(events).sample.metadata == slot.metadata,
        slot.after_all(events).metadata == slot.metadata,
    decreases events.len(),
{
    if events.len() > 0 {
        let before = events.drop_last();
        assert(SlotView::only_tag(before, tag)) by {
            assert forall|i: int| 0 <= i < before.len() implies ((#[trigger] before[i]) matches SlotEvent::BatchReceived {
                tag: other,
                ..
            } ==> other == tag) by {
                assert(before[i] == events[i]);
            }
        }
        lemma_calm_events_submit_nothing(slot, before, tag);
        assert(events[events.len() - 1] == events.last());
    }
}

/// After the first batch, a batch whose tag differs from that of the open
/// window closes the window before any of its requests is sent: the sample
/// that is handed over carries the old tag and everything recorded under
/// it, and the window that takes the requests of the batch starts empty
/// under the new tag. A batch with the tag of the open window hands over
/// nothing and leaves the sample as it is. The first batch hands over
/// nothing either: the empty window takes its tag.
pub proof fn lemma_tag_change_closes_window(
    slot: SlotView,
    waited_since: u64,
    now: u64,
    tag: usize,
)
    ensures
        !slot.first_batch && slot.sample.tag != tag ==> {
            let after = slot.after_begin_batch(waited_since, now, tag);
            let sample = after.submitted.last();
            &&& after.submitted.len() == slot.submitted.len() + 1
            &&& after.submitted.drop_last() == slot.submitted
            &&& sample.tag == slot.sample.tag
            &&& sample.total_requests == slot.sample.total_requests
            &&& sample.total_successful_requests == slot.sample.total_successful_requests
            &&& sample.latency == slot.sample.latency
            &&& sample.read_transfer == slot.sample.read_transfer
            &&& sample.write_transfer == slot.sample.write_transfer
            &&& sample.errors == slot.sample.errors
            &&& after.sample == SampleView::empty(tag, slot.metadata)
        },
        !slot.first_batch && slot.sample.tag == tag ==> {
            let after = slot.after_begin_batch(waited_since, now, tag);
            &&& after.submitted == slot.submitted
            &&& after.sample == slot.sample
        },
        slot.first_batch ==> {
            let after = slot.after_begin_batch(waited_since, now, tag);
            &&& after.submitted == slot.submitted
            &&& after.sample == SampleView::empty(tag, slot.metadata)
            &&& !after.first_batch
        },
{
    if !slot.first_batch && slot.sample.tag != tag {
        let after = slot.after_begin_batch(waited_since, now, tag);
        assert(after.submitted.drop_last() =~= slot.submitted);
    }
}

/// The sample that takes the record of a response keeps one latency and one
/// transfer rate of each direction per successful request: an accepted
/// response adds one to each of the four, a rejected one leaves all four as
/// they are. This holds of the sample whether it stays the open window or is
/// handed over by this very response.
pub proof fn lemma_response_keeps_measurements_in_step(
    slot: SlotView,
    verdict: Result<(), ValidationErrorView>,
    read_end: u64,
    write_end: u64,
    now: u64,
)
    requires
        slot.sample.latency.len() == slot.sample.total_successful_requests,
        slot.sample.read_transfer.len() == slot.sample.total_successful_requests,
        slot.sample.write_transfer.len() == slot.sample.total_successful_requests,
    ensures
        ({
            let recorded = slot.recorded(verdict, read_end, write_end, now);
            let after = slot.after_response(verdict, read_end, write_end, now);
            let grown: nat = if verdict is Ok {
                1
            } else {
                0
            };
            &&& recorded.latency.len() == recorded.total_successful_requests
            &&& recorded.read_transfer.len() == recorded.total_successful_requests
            &&& recorded.write_transfer.len() == recorded.total_successful_requests
            &&& recorded.total_successful_requests == slot.sample.total_successful_requests
                + grown
            &&& recorded.latency.len() == slot.sample.latency.len() + grown
            &&& recorded.read_transfer.len() == slot.sample.read_transfer.len() + grown
            &&& recorded.write_transfer.len() == slot.sample.write_transfer.len() + grown
            &&& if slot.window_elapsed(now) {
                &&& after.submitted.len() == slot.submitted.len() + 1
                &&& after.submitted.last() == (SampleView {
                    total_duration: (now - slot.window_start) as nat,
                    ..recorded
                })
            } else {
                &&& after.submitted == slot.submitted
                &&& after.sample == recorded
            }
        }),
{
}

/// A transport failure records no measurement: latencies, transfer rates and
/// the count of successes stay as they are, and no sample is handed over.
pub proof fn lemma_failure_records_no_measurement(slot: SlotView, failure: TransportFailure)
    ensures
        slot.after_failure(failure).sample.latency == slot.sample.latency,
        slot.after_failure(failure).sample.read_transfer == slot.sample.read_transfer,
        slot.after_failure(failure).sample.write_transfer == slot.sample.write_transfer,
        slot.after_failure(failure).sample.total_successful_requests
            == slot.sample.total_successful_requests,
        slot.after_failure(failure).sample.total_requests == slot.sample.total_requests,
        slot.after_failure(failure).submitted == slot.submitted,
{
}

/// A request counts once, and its outcome at most once: after a request and
/// its response or failure the sample has one request more, and one more
/// among successes and errors, or none more where the failure is handed to
/// the worker. So the requests stay at least the successes and errors
/// together.
pub proof fn lemma_request_keeps_counts(
    slot: SlotView,
    read: u64,
    write: u64,
    sent: u64,
    verdict: Result<(), ValidationErrorView>,
    read_end: u64,
    write_end: u64,
    now: u64,
    failure: TransportFailure,
)
    requires
        slot.sample.total_requests >= slot.sample.total_successful_requests
            + slot.sample.errors.len(),
    ensures
        ({
            let started = slot.after_begin_request(read, write, sent);
            let answered = started.recorded(verdict, read_end, write_end, now);
            let failed = started.after_failure(failure).sample;
            let settled = slot.sample.total_successful_requests + slot.sample.errors.len();
            &&& started.sample.total_requests == slot.sample.total_requests + 1
            &&& answered.total_requests == slot.sample.total_requests + 1
            &&& answered.total_successful_requests + answered.errors.len() == settled + 1
            &&& answered.total_requests >= answered.total_successful_requests
                + answered.errors.len()
            &&& failed.total_requests == slot.sample.total_requests + 1
            &&& failed.total_successful_requests + failed.errors.len() == settled + if failure
                == TransportFailure::Other {
                0int
            } else {
                1int
            }
            &&& failed.total_requests >= failed.total_successful_requests + failed.errors.len()
        }),
{
}

/// A request that loses its transport is counted and recorded as
/// `ConnectionAborted`, and nothing else of the sample changes: no success,
/// no latency, no transfer rate. No sample is handed over, and the
/// connection is told to stop and has set the shutdown flag.
pub proof fn lemma_lost_connection_is_recorded(
    slot: SlotView,
    read: u64,
    write: u64,
    sent: u64,
    kind: TransportErrorKind,
)
    requires
        kind.body_write_aborted || kind.closed || kind.connect,
    ensures
        ({
            let after = slot.after_begin_request(read, write, sent).after_failure(
                classification(kind),
            );
            &&& SlotView::directive_after_failure(classification(kind)) == SlotDirective::Abort
            &&& after.stopped
            &&& after.pending is None
            &&& after.sample.errors == slot.sample.errors.push(
                ValidationErrorView::ConnectionAborted,
            )
            &&& after.sample.total_requests == slot.sample.total_requests + 1
            &&& after.sample.total_successful_requests == slot.sample.total_successful_requests
            &&& after.sample.latency == slot.sample.latency
            &&& after.sample.read_transfer == slot.sample.read_transfer
            &&& after.sample.write_transfer == slot.sample.write_transfer
            &&& after.submitted == slot.submitted
        }),
{
}

/// A connection that loses its transport on the very first request records
/// `ConnectionAborted`, is told to stop, and hands over a single sample: the
/// one at its end, which carries the tag of the batch and holds that request
/// and that error.
pub proof fn lemma_disconnect_on_first_request(
    window: u64,
    metadata: SampleMetadata,
    start: u64,
    waited_since: u64,
    received: u64,
    tag: usize,
    read: u64,
    write: u64,
    sent: u64,
    batch_end: u64,
    end: u64,
)
    ensures
        ({
            let events = seq![
                SlotEvent::BatchReceived { waited_since, now: received, tag },
                SlotEvent::RequestStarted { read, write, now: sent },
                SlotEvent::RequestFailed { failure: TransportFailure::Aborted },
                SlotEvent::BatchEnded { now: batch_end },
            ];
            let submitted = SlotView::initial(window, metadata, start).finished(
                events,
                end,
            ).submitted;
            &&& SlotView::directive_after_failure(TransportFailure::Aborted)
                == SlotDirective::Abort
            &&& SlotView::initial(window, metadata, start).after_all(events).stopped
            &&& submitted.len() == 1
            &&& submitted[0].tag == tag
            &&& submitted[0].total_requests == 1
            &&& submitted[0].total_successful_requests == 0
            &&& submitted[0].latency.len() == 0
            &&& submitted[0].errors == seq![ValidationErrorView::ConnectionAborted]
        }),
{
    let slot = SlotView::initial(window, metadata, start);
    let e0 = SlotEvent::BatchReceived { waited_since, now: received, tag };
    let e1 = SlotEvent::RequestStarted { read, write, now: sent };
    let e2 = SlotEvent::RequestFailed { failure: TransportFailure::Aborted };
    let e3 = SlotEvent::BatchEnded { now: batch_end };
    let events = seq![e0, e1, e2, e3];
    let three = seq![e0, e1, e2];
    let two = seq![e0, e1];
    let one = seq![e0];
    assert(events.drop_last() =~= three);
    assert(three.drop_last() =~= two);
    assert(two.drop_last() =~= one);
    assert(one.drop_last() =~= Seq::<SlotEvent>::empty());
    assert(slot.after_all(Seq::<SlotEvent>::empty()) == slot);
    assert(slot.after_all(one) == slot.after(e0));
    assert(slot.after_all(two) == slot.after(e0).after(e1));
    assert(slot.after_all(three) == slot.after(e0).after(e1).after(e2));
    assert(slot.after_all(events) == slot.after(e0).after(e1).after(e2).after(e3));
    let last = slot.finished(events, end).submitted;
    assert(last[0].errors =~= seq![ValidationErrorView::ConnectionAborted]);
}

} // verus!
