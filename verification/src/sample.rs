//! Samples: the metrics of one time window of one connection, and the
//! factory that creates and submits them.

use vstd::prelude::*;
use vstd::relations::{sorted_by, total_ordering};
use vstd::seq_lib::{commutative_foldl, lemma_fold_left_permutation, lemma_sorted_unique};

use crate::collector::{
    capacity_of, clone_mailbox, mailbox_capacity, try_send_sample, CollectorMailbox, SendOutcome,
};
use crate::sorting::sort;
use crate::validator::{errors_view, ValidationError, ValidationErrorView};

verus! {

/// Where a sample was taken.
#[derive(Debug, Clone, Copy, PartialEq, Eq, Structural)]
pub struct SampleMetadata {
    /// The unique ID of the worker thread.
    pub worker_id: usize,
    /// The slot of the connection within its worker.
    pub concurrency_id: usize,
}

/// The sum of a sequence of durations.
pub open spec fn sum_durations(durations: Seq<u64>) -> nat
    decreases durations.len(),
{
    if durations.len() == 0 {
        0
    } else {
        sum_durations(durations.drop_last()) + durations.last() as nat
    }
}

/// No duration is followed by a smaller one.
pub open spec fn durations_ascend(durations: Seq<u64>) -> bool {
    forall|i: int, j: int| 0 <= i < j < durations.len() ==> durations[i] <= durations[j]
}

/// No rate is followed by a smaller one.
pub open spec fn rates_ascend(rates: Seq<u32>) -> bool {
    forall|i: int, j: int| 0 <= i < j < rates.len() ==> rates[i] <= rates[j]
}

/// `bytes` per second over `nanos` nanoseconds, rounded to the nearest whole
/// number with halves rounded up; zero when no time has passed.
pub open spec fn rounded_rate(bytes: nat, nanos: nat) -> nat {
    if nanos == 0 {
        0
    } else {
        (2 * bytes * 1_000_000_000 + nanos) / (2 * nanos)
    }
}

/// The transfer rate that is recorded for a request: the rounded rate of the
/// bytes moved between the two counter readings, cut to its low 32 bits.
pub open spec fn transfer_rate(start: u64, stop: u64, nanos: u64) -> nat {
    rounded_rate((stop - start) as nat, nanos as nat) % 0x1_0000_0000
}

/// The rate in bytes per second at which a counter went from `start` to
/// `stop` within `nanos` nanoseconds.
pub fn calculate_rate(start: u64, stop: u64, nanos: u64) -> (rate: u32)
    requires
        start <= stop,
    ensures
        rate == transfer_rate(start, stop, nanos),
{
    if nanos == 0 {
        return 0;
    }
    let bytes: u128 = (stop - start) as u128;
    let span: u128 = nanos as u128;
    assert(2 * bytes * 1_000_000_000 <= 2 * 0xffff_ffff_ffff_ffff * 1_000_000_000) by (nonlinear_arith)
        requires
            bytes <= 0xffff_ffff_ffff_ffff,
    ;
    let scaled: u128 = 2 * bytes * 1_000_000_000 + span;
    let rounded: u128 = scaled / (2 * span);
    (rounded % 0x1_0000_0000) as u32
}

/// The mathematical content of a [`Sample`].
pub ghost struct SampleView {
    pub tag: usize,
    pub metadata: SampleMetadata,
    pub total_duration: nat,
    pub total_requests: nat,
    pub total_successful_requests: nat,
    pub total_latency_duration: nat,
    pub latency: Seq<u64>,
    pub read_transfer: Seq<u32>,
    pub write_transfer: Seq<u32>,
    pub errors: Seq<ValidationErrorView>,
}

impl SampleView {
    /// The sample that a window starts with.
    pub open spec fn empty(tag: usize, metadata: SampleMetadata) -> SampleView {
        SampleView {
            tag,
            metadata,
            total_duration: 0,
            total_requests: 0,
            total_successful_requests: 0,
            total_latency_duration: 0,
            latency: Seq::empty(),
            read_transfer: Seq::empty(),
            write_transfer: Seq::empty(),
            errors: Seq::empty(),
        }
    }

    /// The counts agree with the sequences: one latency and one rate of each
    /// direction per successful request, no more successes and errors
    /// than requests, and the latencies add up to the recorded total.
    pub open spec fn consistent(self) -> bool {
        &&& self.latency.len() == self.total_successful_requests
        &&& self.read_transfer.len() == self.total_successful_requests
        &&& self.write_transfer.len() == self.total_successful_requests
        &&& self.total_requests >= self.total_successful_requests + self.errors.len()
        &&& sum_durations(self.latency) == self.total_latency_duration
    }

    /// The window lasted at least as long as each of its requests.
    pub open spec fn covers_latencies(self) -> bool {
        forall|i: int| 0 <= i < self.latency.len() ==> self.latency[i] <= self.total_duration
    }

    /// The three sequences of measurements are in ascending order.
    pub open spec fn ordered(self) -> bool {
        &&& durations_ascend(self.latency)
        &&& rates_ascend(self.read_transfer)
        &&& rates_ascend(self.write_transfer)
    }

    /// `self` with each of its three sequences of measurements rearranged
    /// into `other`'s, and everything else equal.
    pub open spec fn rearranged_into(self, other: SampleView) -> bool {
        &&& other.tag == self.tag
        &&& other.metadata == self.metadata
        &&& other.total_duration == self.total_duration
        &&& other.total_requests == self.total_requests
        &&& other.total_successful_requests == self.total_successful_requests
        &&& other.total_latency_duration == self.total_latency_duration
        &&& other.errors == self.errors
        &&& other.latency.to_multiset() == self.latency.to_multiset()
        &&& other.read_transfer.to_multiset() == self.read_transfer.to_multiset()
        &&& other.write_transfer.to_multiset() == self.write_transfer.to_multiset()
    }

    /// The sum of two samples: the scalars added, the sequences of `other`
    /// appended to those of `self`, under the tag and metadata of `self`.
    pub open spec fn plus(self, other: SampleView) -> SampleView {
        SampleView {
            tag: self.tag,
            metadata: self.metadata,
            total_duration: self.total_duration + other.total_duration,
            total_requests: self.total_requests + other.total_requests,
            total_successful_requests: self.total_successful_requests
                + other.total_successful_requests,
            total_latency_duration: self.total_latency_duration + other.total_latency_duration,
            latency: self.latency + other.latency,
            read_transfer: self.read_transfer + other.read_transfer,
            write_transfer: self.write_transfer + other.write_transfer,
            errors: self.errors + other.errors,
        }
    }
}

/// A collection of metrics taken from the benchmark for a given time window.
///
/// The sample holds the latency and the transfer rates of each successful
/// request along with any errors, the worker ID and the tag that groups
/// results. Durations are in nanoseconds, rates in bytes per second.
#[derive(Debug, Clone)]
pub struct Sample {
    tag: usize,
    metadata: SampleMetadata,
    total_duration: u64,
    total_requests: usize,
    total_successful_requests: usize,
    total_latency_duration: u128,
    latency: Vec<u64>,
    read_transfer: Vec<u32>,
    write_transfer: Vec<u32>,
    errors: Vec<ValidationError>,
}

impl View for Sample {
    type V = SampleView;

    closed spec fn view(&self) -> SampleView {
        SampleView {
            tag: self.tag,
            metadata: self.metadata,
            total_duration: self.total_duration as nat,
            total_requests: self.total_requests as nat,
            total_successful_requests: self.total_successful_requests as nat,
            total_latency_duration: self.total_latency_duration as nat,
            latency: self.latency@,
            read_transfer: self.read_transfer@,
            write_transfer: self.write_transfer@,
            errors: errors_view(self.errors@),
        }
    }
}

/// The total of a sequence of durations is at most as many times the
/// largest duration as the sequence is long.
pub proof fn lemma_sum_durations_bound(durations: Seq<u64>)
    ensures
        sum_durations(durations) <= durations.len() * 0xffff_ffff_ffff_ffff,
    decreases durations.len(),
{
    if durations.len() > 0 {
        lemma_sum_durations_bound(durations.drop_last());
        assert((durations.len() - 1) * 0xffff_ffff_ffff_ffff + 0xffff_ffff_ffff_ffff
            == durations.len() * 0xffff_ffff_ffff_ffff) by (nonlinear_arith);
    }
}

/// The total of two sequences joined is the sum of their totals.
pub proof fn lemma_sum_durations_concat(front: Seq<u64>, back: Seq<u64>)
    ensures
        sum_durations(front + back) == sum_durations(front) + sum_durations(back),
    decreases back.len(),
{
    if back.len() == 0 {
        assert(front + back =~= front);
    } else {
        lemma_sum_durations_concat(front, back.drop_last());
        assert((front + back).drop_last() =~= front + back.drop_last());
    }
}

/// Rearranging a sequence of durations does not change its total.
pub proof fn lemma_sum_durations_rearranged(first: Seq<u64>, second: Seq<u64>)
    requires
        first.to_multiset() == second.to_multiset(),
    ensures
        sum_durations(first) == sum_durations(second),
{
    let step = |total: nat, nanos: u64| (total + nanos) as nat;
    assert(commutative_foldl(step));
    lemma_sum_durations_is_fold(first);
    lemma_sum_durations_is_fold(second);
    lemma_fold_left_permutation(first, second, step, 0nat);
}

proof fn lemma_sum_durations_is_fold(durations: Seq<u64>)
    ensures
        sum_durations(durations) == durations.fold_left(
            0nat,
            |total: nat, nanos: u64| (total + nanos) as nat,
        ),
    decreases durations.len(),
{
    if durations.len() > 0 {
        lemma_sum_durations_is_fold(durations.drop_last());
    }
}

/// Two ascending arrangements of the same durations are the same sequence.
pub proof fn lemma_ascending_durations_unique(first: Seq<u64>, second: Seq<u64>)
    requires
        durations_ascend(first),
        durations_ascend(second),
        first.to_multiset() == second.to_multiset(),
    ensures
        first == second,
{
    let leq = |a: u64, b: u64| a <= b;
    assert(total_ordering(leq));
    assert(sorted_by(first, leq));
    assert(sorted_by(second, leq));
    lemma_sorted_unique(first, second, leq);
}

/// Two ascending arrangements of the same rates are the same sequence.
pub proof fn lemma_ascending_rates_unique(first: Seq<u32>, second: Seq<u32>)
    requires
        rates_ascend(first),
        rates_ascend(second),
        first.to_multiset() == second.to_multiset(),
    ensures
        first == second,
{
    let leq = |a: u32, b: u32| a <= b;
    assert(total_ordering(leq));
    assert(sorted_by(first, leq));
    assert(sorted_by(second, leq));
    lemma_sorted_unique(first, second, leq);
}

/// Sorting is idempotent: a sample whose measurements are already in
/// ascending order has only one ordered rearrangement, itself. So the
/// ordering step applied a second time changes nothing.
pub proof fn lemma_ordered_rearrangement_is_identity(before: SampleView, after: SampleView)
    requires
        before.ordered(),
        after.ordered(),
        before.rearranged_into(after),
    ensures
        after == before,
{
    lemma_ascending_durations_unique(before.latency, after.latency);
    lemma_ascending_rates_unique(before.read_transfer, after.read_transfer);
    lemma_ascending_rates_unique(before.write_transfer, after.write_transfer);
}

/// Rearranging the measurements of a sample keeps its counts and totals in
/// agreement with its sequences.
pub proof fn lemma_rearranged_stays_consistent(before: SampleView, after: SampleView)
    requires
        before.consistent(),
        before.rearranged_into(after),
    ensures
        after.consistent(),
{
    broadcast use vstd::seq_lib::group_to_multiset_ensures;

    lemma_sum_durations_rearranged(before.latency, after.latency);
    assert(after.latency.len() == after.latency.to_multiset().len());
    assert(before.latency.len() == before.latency.to_multiset().len());
    assert(after.read_transfer.len() == after.read_transfer.to_multiset().len());
    assert(before.read_transfer.len() == before.read_transfer.to_multiset().len());
    assert(after.write_transfer.len() == after.write_transfer.to_multiset().len());
    assert(before.write_transfer.len() == before.write_transfer.to_multiset().len());
}

/// Rearranging the measurements of a sample keeps every latency within the
/// duration of the window.
pub proof fn lemma_rearranged_stays_covered(before: SampleView, after: SampleView)
    requires
        before.covers_latencies(),
        before.rearranged_into(after),
    ensures
        after.covers_latencies(),
{
    broadcast use vstd::seq_lib::group_to_multiset_ensures;

    assert forall|i: int| 0 <= i < after.latency.len() implies after.latency[i]
        <= after.total_duration by {
        assert(after.latency.to_multiset().count(after.latency[i]) > 0);
        assert(before.latency.contains(after.latency[i]));
    }
}

/// Addition of samples is associative.
pub proof fn lemma_plus_associative(a: SampleView, b: SampleView, c: SampleView)
    ensures
        a.plus(b).plus(c) == a.plus(b.plus(c)),
{
    assert(a.plus(b).plus(c).latency =~= a.plus(b.plus(c)).latency);
    assert(a.plus(b).plus(c).read_transfer =~= a.plus(b.plus(c)).read_transfer);
    assert(a.plus(b).plus(c).write_transfer =~= a.plus(b.plus(c)).write_transfer);
    assert(a.plus(b).plus(c).errors =~= a.plus(b.plus(c)).errors);
}

/// Addition of samples is commutative in every scalar field, and the
/// measurements of the two sums are rearrangements of each other.
pub proof fn lemma_plus_commutative(a: SampleView, b: SampleView)
    ensures
        a.plus(b).total_duration == b.plus(a).total_duration,
        a.plus(b).total_requests == b.plus(a).total_requests,
        a.plus(b).total_successful_requests == b.plus(a).total_successful_requests,
        a.plus(b).total_latency_duration == b.plus(a).total_latency_duration,
        a.plus(b).latency.to_multiset() == b.plus(a).latency.to_multiset(),
        a.plus(b).read_transfer.to_multiset() == b.plus(a).read_transfer.to_multiset(),
        a.plus(b).write_transfer.to_multiset() == b.plus(a).write_transfer.to_multiset(),
        a.plus(b).errors.to_multiset() == b.plus(a).errors.to_multiset(),
{
    vstd::seq_lib::lemma_seq_union_to_multiset_commutative(a.latency, b.latency);
    vstd::seq_lib::lemma_seq_union_to_multiset_commutative(a.read_transfer, b.read_transfer);
    vstd::seq_lib::lemma_seq_union_to_multiset_commutative(a.write_transfer, b.write_transfer);
    vstd::seq_lib::lemma_seq_union_to_multiset_commutative(a.errors, b.errors);
}

/// Addition of samples keeps each sequence of the left operand in front of
/// the same sequence of the right operand, element for element.
pub proof fn lemma_plus_concatenates(a: SampleView, b: SampleView)
    ensures
        a.plus(b).latency.len() == a.latency.len() + b.latency.len(),
        a.plus(b).latency.subrange(0, a.latency.len() as int) == a.latency,
        a.plus(b).latency.subrange(a.latency.len() as int, a.plus(b).latency.len() as int)
            == b.latency,
        a.plus(b).read_transfer == a.read_transfer + b.read_transfer,
        a.plus(b).write_transfer == a.write_transfer + b.write_transfer,
        a.plus(b).errors == a.errors + b.errors,
{
    assert(a.plus(b).latency.subrange(0, a.latency.len() as int) =~= a.latency);
    assert(a.plus(b).latency.subrange(a.latency.len() as int, a.plus(b).latency.len() as int)
        =~= b.latency);
}

/// Adding an empty sample on the right changes nothing.
pub proof fn lemma_plus_empty(a: SampleView, tag: usize, metadata: SampleMetadata)
    ensures
        a.plus(SampleView::empty(tag, metadata)) == a,
{
    let sum = a.plus(SampleView::empty(tag, metadata));
    assert(sum.latency =~= a.latency);
    assert(sum.read_transfer =~= a.read_transfer);
    assert(sum.write_transfer =~= a.write_transfer);
    assert(sum.errors =~= a.errors);
}

/// The sum of two consistent samples is consistent.
pub proof fn lemma_plus_consistent(a: SampleView, b: SampleView)
    requires
        a.consistent(),
        b.consistent(),
    ensures
        a.plus(b).consistent(),
{
    lemma_sum_durations_concat(a.latency, b.latency);
}

/// Puts durations in ascending order.
pub fn sort_durations(values: &mut Vec<u64>)
    ensures
        durations_ascend(final(values)@),
        final(values)@.to_multiset() == old(values)@.to_multiset(),
{
    sort(values);
}

/// Puts rates in ascending order.
pub fn sort_rates(values: &mut Vec<u32>)
    ensures
        rates_ascend(final(values)@),
        final(values)@.to_multiset() == old(values)@.to_multiset(),
{
    sort(values);
}

impl Sample {
    /// An empty sample under the given tag and metadata.
    pub fn new(tag: usize, metadata: SampleMetadata) -> (sample: Sample)
        ensures
            sample@ == SampleView::empty(tag, metadata),
    {
        let sample = Sample {
            tag,
            metadata,
            total_duration: 0,
            total_requests: 0,
            total_successful_requests: 0,
            total_latency_duration: 0,
            latency: Vec::new(),
            read_transfer: Vec::new(),
            write_transfer: Vec::new(),
            errors: Vec::with_capacity(4),
        };
        assert(sample@.errors =~= Seq::empty());
        sample
    }

    /// The sample metadata.
    pub fn metadata(&self) -> (metadata: SampleMetadata)
        ensures
            metadata == self@.metadata,
    {
        self.metadata
    }

    /// The latency of each successful request, in nanoseconds.
    pub fn latency(&self) -> (latency: &Vec<u64>)
        ensures
            latency@ == self@.latency,
    {
        &self.latency
    }

    /// The rate at which each successful request was written, in bytes per second.
    pub fn write_transfer(&self) -> (rates: &Vec<u32>)
        ensures
            rates@ == self@.write_transfer,
    {
        &self.write_transfer
    }

    /// The rate at which each successful response was read, in bytes per second.
    pub fn read_transfer(&self) -> (rates: &Vec<u32>)
        ensures
            rates@ == self@.read_transfer,
    {
        &self.read_transfer
    }

    /// The errors recorded in this window.
    pub fn errors(&self) -> (errors: &Vec<ValidationError>)
        ensures
            errors_view(errors@) == self@.errors,
    {
        &self.errors
    }

    #[inline]
    /// The current sample batch tag.
    pub fn tag(&self) -> (tag: usize)
        ensures
            tag == self@.tag,
    {
        self.tag
    }

    /// The time from the opening of the window to its close, in nanoseconds.
    pub fn total_duration(&self) -> (nanos: u64)
        ensures
            nanos == self@.total_duration,
    {
        self.total_duration
    }

    /// The number of requests that were started in this window.
    pub fn total_requests(&self) -> (count: usize)
        ensures
            count == self@.total_requests,
    {
        self.total_requests
    }

    /// The number of requests whose response passed validation.
    pub fn total_successful_requests(&self) -> (count: usize)
        ensures
            count == self@.total_successful_requests,
    {
        self.total_successful_requests
    }

    /// The sum of the latencies of the successful requests, in nanoseconds.
    pub fn total_latency_duration(&self) -> (nanos: u128)
        ensures
            nanos == self@.total_latency_duration,
    {
        self.total_latency_duration
    }

    #[inline]
    /// Count a request that is about to be sent.
    pub fn record_total_request(&mut self)
        requires
            old(self)@.total_requests < usize::MAX,
        ensures
            final(self)@ == (SampleView {
                total_requests: old(self)@.total_requests + 1nat,
                ..old(self)@
            }),
    {
        self.total_requests = self.total_requests + 1;
    }

    #[inline]
    /// Count a request whose response passed validation.
    pub fn record_successful_request(&mut self)
        requires
            old(self)@.total_successful_requests < usize::MAX,
        ensures
            final(self)@ == (SampleView {
                total_successful_requests: old(self)@.total_successful_requests + 1nat,
                ..old(self)@
            }),
    {
        self.total_successful_requests = self.total_successful_requests + 1;
    }

    #[inline]
    /// Record a request validation error.
    pub fn record_error(&mut self, e: ValidationError)
        ensures
            final(self)@ == (SampleView { errors: old(self)@.errors.push(e@), ..old(self)@ }),
    {
        self.errors.push(e);
        assert(final(self)@.errors =~= old(self)@.errors.push(e@));
    }

    #[inline]
    /// Record a latency duration, in nanoseconds.
    pub fn record_latency(&mut self, nanos: u64)
        requires
            old(self)@.total_latency_duration + nanos <= u128::MAX,
        ensures
            final(self)@ == (SampleView {
                latency: old(self)@.latency.push(nanos),
                total_latency_duration: old(self)@.total_latency_duration + nanos as nat,
                ..old(self)@
            }),
    {
        self.latency.push(nanos);
        self.total_latency_duration = self.total_latency_duration + nanos as u128;
    }

    #[inline]
    /// Record a write transfer rate.
    pub fn record_write_transfer(&mut self, start_count: u64, end_count: u64, nanos: u64)
        requires
            start_count <= end_count,
        ensures
            final(self)@ == (SampleView {
                write_transfer: old(self)@.write_transfer.push(
                    transfer_rate(start_count, end_count, nanos) as u32,
                ),
                ..old(self)@
            }),
    {
        self.write_transfer.push(calculate_rate(start_count, end_count, nanos));
    }

    #[inline]
    /// Record a read transfer rate.
    pub fn record_read_transfer(&mut self, start_count: u64, end_count: u64, nanos: u64)
        requires
            start_count <= end_count,
        ensures
            final(self)@ == (SampleView {
                read_transfer: old(self)@.read_transfer.push(
                    transfer_rate(start_count, end_count, nanos) as u32,
                ),
                ..old(self)@
            }),
    {
        self.read_transfer.push(calculate_rate(start_count, end_count, nanos));
    }

    /// Set the time the window was open, in nanoseconds.
    pub fn set_total_duration(&mut self, nanos: u64)
        ensures
            final(self)@ == (SampleView { total_duration: nanos as nat, ..old(self)@ }),
    {
        self.total_duration = nanos;
    }
    /// Put the latencies and both sequences of transfer rates in ascending
    /// order, each on its own. Nothing else changes, and a sample that is
    /// already in order stays as it is.
    pub fn sort_values(&mut self)
        ensures
            final(self)@.ordered(),
            old(self)@.rearranged_into(final(self)@),
            old(self)@.consistent() ==> final(self)@.consistent(),
            old(self)@.covers_latencies() ==> final(self)@.covers_latencies(),
            old(self)@.ordered() ==> final(self)@ == old(self)@,
    {
        sort_durations(&mut self.latency);
        sort_rates(&mut self.read_transfer);
        sort_rates(&mut self.write_transfer);
        proof {
            if old(self)@.consistent() {
                lemma_rearranged_stays_consistent(old(self)@, self@);
            }
            if old(self)@.covers_latencies() {
                lemma_rearranged_stays_covered(old(self)@, self@);
            }
            if old(self)@.ordered() {
                lemma_ordered_rearrangement_is_identity(old(self)@, self@);
            }
        }
    }

    /// Whether the scalar sums of `self` and `other` can be held.
    pub open spec fn can_add(&self, other: &Sample) -> bool {
        &&& self@.total_duration + other@.total_duration <= u64::MAX
        &&& self@.total_requests + other@.total_requests <= usize::MAX
        &&& self@.total_successful_requests + other@.total_successful_requests <= usize::MAX
        &&& self@.total_latency_duration + other@.total_latency_duration <= u128::MAX
    }

    /// The sum of two samples: scalars are added, and the measurements and
    /// errors of `other` are appended to those of `self`. The sum keeps the
    /// tag and the metadata of `self`.
    pub fn add(self, other: Sample) -> (sum: Sample)
        requires
            self.can_add(&other),
        ensures
            sum@ == self@.plus(other@),
    {
        let mut sum = self;
        let mut other = other;
        sum.total_duration = sum.total_duration + other.total_duration;
        sum.total_requests = sum.total_requests + other.total_requests;
        sum.total_successful_requests = sum.total_successful_requests
            + other.total_successful_requests;
        sum.total_latency_duration = sum.total_latency_duration + other.total_latency_duration;
        sum.latency.append(&mut other.latency);
        sum.read_transfer.append(&mut other.read_transfer);
        sum.write_transfer.append(&mut other.write_transfer);
        let ghost front = sum.errors@;
        let ghost back = other.errors@;
        sum.errors.append(&mut other.errors);
        assert(errors_view(front + back) =~= errors_view(front) + errors_view(back));
        sum
    }

    /// A copy with the same content.
    pub fn duplicate(&self) -> (copy: Sample)
        ensures
            copy@ == self@,
    {
        let mut errors: Vec<ValidationError> = Vec::new();
        let mut i: usize = 0;
        while i < self.errors.len()
            invariant
                i <= self.errors.len(),
                errors.len() == i,
                forall|j: int| 0 <= j < i ==> errors[j]@ == self.errors[j]@,
            decreases self.errors.len() - i,
        {
            errors.push(self.errors[i].duplicate());
            i += 1;
        }
        assert(errors_view(errors@) =~= errors_view(self.errors@));
        Sample {
            tag: self.tag,
            metadata: self.metadata,
            total_duration: self.total_duration,
            total_requests: self.total_requests,
            total_successful_requests: self.total_successful_requests,
            total_latency_duration: self.total_latency_duration,
            latency: self.latency.clone(),
            read_transfer: self.read_transfer.clone(),
            write_transfer: self.write_transfer.clone(),
            errors,
        }
    }
}

/// The service worker has shutdown and should no longer process requests.
#[derive(Debug, Clone, Copy, PartialEq, Eq, Structural)]
pub struct Shutdown;

/// What the submitter of a sample is told for each way the hand-over can
/// end on a mailbox without a bound: to go on when the sample was taken, to
/// shut down when the collector is gone.
pub open spec fn submission_verdict(outcome: SendOutcome) -> Result<(), Shutdown> {
    if outcome == SendOutcome::Sent {
        Ok(())
    } else {
        Err(Shutdown)
    }
}

/// Whether the worker goes on or shuts down after an attempt to hand over a
/// sample. A full mailbox is left out: the mailbox has no bound.
pub fn submission_result(outcome: SendOutcome) -> (verdict: Result<(), Shutdown>)
    requires
        outcome != SendOutcome::Full,
    ensures
        verdict == submission_verdict(outcome),
        verdict is Err <==> outcome == SendOutcome::Disconnected,
{
    match outcome {
        SendOutcome::Sent => Ok(()),
        _ => Err(Shutdown),
    }
}

/// A sample factory produces and submits samples.
pub struct SampleFactory {
    /// The duration which should elapse before a sample is submitted to be
    /// processed, in nanoseconds.
    window_timeout: u64,
    /// Metadata associated with the specific sample factory thread.
    metadata: SampleMetadata,
    submitter: CollectorMailbox,
}

impl SampleFactory {
    #[verifier::type_invariant]
    spec fn unbounded(&self) -> bool {
        mailbox_capacity(self.submitter) is None
    }

    /// The window after which a sample is due, in nanoseconds.
    pub closed spec fn window(&self) -> u64 {
        self.window_timeout
    }

    /// The metadata that every sample of this factory carries.
    pub closed spec fn spec_metadata(&self) -> SampleMetadata {
        self.metadata
    }

    /// Create a new sample factory that submits to a mailbox without a bound.
    pub fn new(window_timeout: u64, metadata: SampleMetadata, submitter: CollectorMailbox) -> (factory:
        Self)
        requires
            mailbox_capacity(submitter) is None,
        ensures
            factory.window() == window_timeout,
            factory.spec_metadata() == metadata,
    {
        Self { window_timeout, metadata, submitter }
    }

    /// Create a new sample factory unless the mailbox has a bound.
    pub fn for_mailbox(
        window_timeout: u64,
        metadata: SampleMetadata,
        submitter: CollectorMailbox,
    ) -> (factory: Option<Self>)
        ensures
            factory is Some <==> mailbox_capacity(submitter) is None,
            factory matches Some(f) ==> f.window() == window_timeout && f.spec_metadata()
                == metadata,
    {
        match capacity_of(&submitter) {
            None => Some(Self::new(window_timeout, metadata, submitter)),
            Some(_) => None,
        }
    }

    /// A factory with the same window that submits to the same mailbox under
    /// other metadata.
    pub fn with_metadata(&self, metadata: SampleMetadata) -> (factory: Self)
        ensures
            factory.window() == self.window(),
            factory.spec_metadata() == metadata,
    {
        proof {
            use_type_invariant(self);
        }
        Self {
            window_timeout: self.window_timeout,
            metadata,
            submitter: clone_mailbox(&self.submitter),
        }
    }

    /// A factory with the same metadata that submits to the same mailbox
    /// after another window.
    pub fn with_window(&self, window_timeout: u64) -> (factory: Self)
        ensures
            factory.window() == window_timeout,
            factory.spec_metadata() == self.spec_metadata(),
    {
        proof {
            use_type_invariant(self);
        }
        Self {
            window_timeout,
            metadata: self.metadata,
            submitter: clone_mailbox(&self.submitter),
        }
    }

    /// The window after which a sample is due, in nanoseconds.
    pub fn window_timeout(&self) -> (nanos: u64)
        ensures
            nanos == self.window(),
    {
        self.window_timeout
    }

    /// The metadata that every sample of this factory carries.
    pub fn metadata(&self) -> (metadata: SampleMetadata)
        ensures
            metadata == self.spec_metadata(),
    {
        self.metadata
    }

    #[inline]
    /// Check if the handler should submit the current sample, `elapsed`
    /// nanoseconds after its window was opened.
    pub fn should_submit(&self, elapsed: u64) -> (due: bool)
        ensures
            due == (self.window() <= elapsed),
    {
        self.window_timeout <= elapsed
    }

    #[inline]
    /// Create a new sample to record metrics.
    pub fn new_sample(&self, tag: usize) -> (sample: Sample)
        ensures
            sample@ == SampleView::empty(tag, self.spec_metadata()),
    {
        Sample::new(tag, self.metadata)
    }

    #[inline]
    /// Attempts to submit a sample to the processor. This never blocks. The
    /// answer is `Err(Shutdown)` when the collector is gone, which only the
    /// state of the channel decides.
    pub fn submit_sample(&self, sample: Sample) -> (verdict: Result<(), Shutdown>) {
        proof {
            use_type_invariant(self);
        }
        let outcome = try_send_sample(&self.submitter, sample);
        submission_result(outcome)
    }
}

} // verus!
