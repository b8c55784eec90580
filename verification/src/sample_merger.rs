//! A merger of samples for collectors.

use std::collections::BTreeMap;

use vstd::prelude::*;
use vstd::std_specs::btree::*;
use vstd::std_specs::cmp::OrdSpec;
use vstd::std_specs::iter::IteratorSpec;

use crate::sample::{Sample, SampleMetadata, SampleView};

verus! {

broadcast use vstd::std_specs::btree::group_btree_axioms;

/// What samples are merged by: the tag, the worker and the connection of the
/// worker.
pub type SampleKey = (usize, usize, usize);

/// The key under which a sample is merged.
pub open spec fn key_of(sample: SampleView) -> SampleKey {
    (sample.tag, sample.metadata.worker_id, sample.metadata.concurrency_id)
}

/// Whether the scalars of two samples can be added without passing the
/// largest number that their fields hold.
pub open spec fn sums_fit(held: SampleView, added: SampleView) -> bool {
    &&& held.total_duration + added.total_duration <= u64::MAX
    &&& held.total_requests + added.total_requests <= usize::MAX
    &&& held.total_successful_requests + added.total_successful_requests <= usize::MAX
    &&& held.total_latency_duration + added.total_latency_duration <= u128::MAX
}

/// The entries of a merger after a sample was added: the sample is added to
/// the entry under its key, or stored as it is where there is no such entry.
/// Entries under other keys stay as they are.
pub open spec fn merged(entries: Map<SampleKey, SampleView>, sample: SampleView) -> Map<
    SampleKey,
    SampleView,
> {
    entries.insert(
        key_of(sample),
        if entries.contains_key(key_of(sample)) {
            entries[key_of(sample)].plus(sample)
        } else {
            sample
        },
    )
}

/// Adding a sample changes the entry under its key and no other: that entry
/// becomes the held entry plus the sample, with the sequences of the sample
/// behind those of the entry and the scalars added, or the sample itself
/// where nothing was held.
pub proof fn lemma_merged_entry(entries: Map<SampleKey, SampleView>, sample: SampleView)
    ensures
        merged(entries, sample).contains_key(key_of(sample)),
        entries.contains_key(key_of(sample)) ==> {
            let held = entries[key_of(sample)];
            let sum = merged(entries, sample)[key_of(sample)];
            &&& sum == held.plus(sample)
            &&& sum.latency == held.latency + sample.latency
            &&& sum.read_transfer == held.read_transfer + sample.read_transfer
            &&& sum.write_transfer == held.write_transfer + sample.write_transfer
            &&& sum.errors == held.errors + sample.errors
            &&& sum.total_requests == held.total_requests + sample.total_requests
            &&& sum.total_successful_requests == held.total_successful_requests
                + sample.total_successful_requests
            &&& sum.total_duration == held.total_duration + sample.total_duration
            &&& sum.total_latency_duration == held.total_latency_duration
                + sample.total_latency_duration
        },
        !entries.contains_key(key_of(sample)) ==> merged(entries, sample)[key_of(sample)]
            == sample,
        forall|other: SampleKey|
            other != key_of(sample) ==> (merged(entries, sample).contains_key(other)
                <==> entries.contains_key(other)) && (entries.contains_key(other) ==> merged(
                entries,
                sample,
            )[other] == entries[other]),
{
}

/// The scalar totals of a merged entry depend neither on the order in which
/// its samples were added nor on how they were grouped before. Three samples
/// of one key added one after the other, and the third added before the sum
/// of the second and the first, give the same counts, the same durations and
/// as many measurements and errors.
pub proof fn lemma_merge_order_free(a: SampleView, b: SampleView, c: SampleView)
    requires
        key_of(a) == key_of(b),
        key_of(b) == key_of(c),
    ensures
        ({
            let none = Map::<SampleKey, SampleView>::empty();
            let first = merged(merged(merged(none, a), b), c)[key_of(a)];
            let second = merged(merged(none, c), b.plus(a))[key_of(a)];
            &&& first.total_requests == second.total_requests
            &&& first.total_successful_requests == second.total_successful_requests
            &&& first.total_duration == second.total_duration
            &&& first.total_latency_duration == second.total_latency_duration
            &&& first.latency.len() == second.latency.len()
            &&& first.read_transfer.len() == second.read_transfer.len()
            &&& first.write_transfer.len() == second.write_transfer.len()
            &&& first.errors.len() == second.errors.len()
            &&& first == a.plus(b).plus(c)
            &&& second == c.plus(b.plus(a))
        }),
{
    let none = Map::<SampleKey, SampleView>::empty();
    assert(!none.contains_key(key_of(a)));
    assert(!none.contains_key(key_of(c)));
    assert(key_of(b.plus(a)) == key_of(a));
}

/// An empty sample changes nothing: added to an entry of its key it leaves
/// the entry as it is, and an entry added to it is stored as it is.
pub proof fn lemma_merge_empty(
    entries: Map<SampleKey, SampleView>,
    sample: SampleView,
    tag: usize,
    metadata: SampleMetadata,
)
    requires
        key_of(sample) == key_of(SampleView::empty(tag, metadata)),
    ensures
        entries.contains_key(key_of(sample)) ==> merged(
            entries,
            SampleView::empty(tag, metadata),
        ) == entries,
        merged(
            merged(Map::<SampleKey, SampleView>::empty(), SampleView::empty(tag, metadata)),
            sample,
        )[key_of(sample)] == sample,
{
    let none = Map::<SampleKey, SampleView>::empty();
    let empty = SampleView::empty(tag, metadata);
    assert(!none.contains_key(key_of(empty)));
    let sum = empty.plus(sample);
    assert(sum.latency =~= sample.latency);
    assert(sum.read_transfer =~= sample.read_transfer);
    assert(sum.write_transfer =~= sample.write_transfer);
    assert(sum.errors =~= sample.errors);
    assert(sum == sample);
    if entries.contains_key(key_of(sample)) {
        crate::sample::lemma_plus_empty(entries[key_of(sample)], tag, metadata);
        assert(merged(entries, empty) =~= entries);
    }
}

/// The order of keys: by tag, then by worker, then by connection.
pub open spec fn key_before(first: SampleKey, second: SampleKey) -> bool {
    first.0 < second.0 || (first.0 == second.0 && (first.1 < second.1 || (first.1 == second.1
        && first.2 < second.2)))
}

/// A smart sample merger.
///
/// This ensures samples are merged correctly forming correct totals taking
/// into account concurrency and tags.
pub struct SampleMerger {
    entries: BTreeMap<SampleKey, Sample>,
}

pub struct MergedSample {
    /// The tag that the sample is associated with.
    pub tag: usize,
    /// The worker ID.
    pub worker_id: usize,
    /// The concurrency ID.
    pub concurrency_id: usize,
    /// The total sample result.
    pub sample: Sample,
}

impl View for SampleMerger {
    type V = Map<SampleKey, SampleView>;

    closed spec fn view(&self) -> Map<SampleKey, SampleView> {
        Map::new(|key: SampleKey| self.entries@.contains_key(key), |key: SampleKey| self.entries@[key]@)
    }
}

impl SampleMerger {
    /// A merger that holds no sample.
    pub fn new() -> (merger: Self)
        ensures
            merger@ == Map::<SampleKey, SampleView>::empty(),
    {
        let merger = SampleMerger { entries: BTreeMap::new() };
        assert(merger@ =~= Map::<SampleKey, SampleView>::empty());
        merger
    }

    /// Whether the sample can be added: the scalars of the entry under its
    /// key, if there is one, and its own can be added.
    pub open spec fn accepts(&self, sample: SampleView) -> bool {
        self@.contains_key(key_of(sample)) ==> sums_fit(self@[key_of(sample)], sample)
    }

    /// Whether the sample can be added.
    pub fn can_add_sample(&self, sample: &Sample) -> (ok: bool)
        ensures
            ok == self.accepts(sample@),
    {
        let key = (sample.tag(), sample.metadata().worker_id, sample.metadata().concurrency_id);
        assert(vstd::laws_cmp::obeys_cmp::<SampleKey>());
        match self.entries.get(&key) {
            Some(held) => {
                assert(self@.contains_key(key_of(sample@)) && self@[key_of(sample@)] == held@);
                held.total_duration() <= u64::MAX - sample.total_duration()
                    && held.total_requests() <= usize::MAX - sample.total_requests()
                    && held.total_successful_requests() <= usize::MAX
                    - sample.total_successful_requests() && held.total_latency_duration()
                    <= u128::MAX - sample.total_latency_duration()
            },
            None => {
                assert(!self@.contains_key(key_of(sample@)));
                true
            },
        }
    }

    /// Add a new sample to the merger if it can be added. A sample that
    /// cannot be added is handed back, and the merger stays as it is.
    pub fn try_add_sample(&mut self, sample: Sample) -> (refused: Option<Sample>)
        ensures
            old(self).accepts(sample@) ==> refused is None && final(self)@ == merged(
                old(self)@,
                sample@,
            ),
            !old(self).accepts(sample@) ==> refused == Some(sample) && final(self)@ == old(self)@,
    {
        if self.can_add_sample(&sample) {
            self.add_sample(sample);
            None
        } else {
            Some(sample)
        }
    }

    /// Add a new sample to the merger.
    pub fn add_sample(&mut self, sample: Sample)
        requires
            old(self).accepts(sample@),
        ensures
            final(self)@ == merged(old(self)@, sample@),
    {
        let key = (sample.tag(), sample.metadata().worker_id, sample.metadata().concurrency_id);
        assert(vstd::laws_cmp::obeys_cmp::<SampleKey>());
        match self.entries.remove(&key) {
            Some(held) => {
                let sum = held.add(sample);
                self.entries.insert(key, sum);
            },
            None => {
                self.entries.insert(key, sample);
            },
        }
        assert(final(self)@ =~= old(self)@.insert(
            key_of(sample@),
            if old(self)@.contains_key(key_of(sample@)) {
                old(self)@[key_of(sample@)].plus(sample@)
            } else {
                sample@
            },
        ));
    }

    /// The merged samples, one for each key, in ascending order of their
    /// keys.
    pub fn iter_samples(&self) -> (merged: Vec<MergedSample>)
        ensures
            merged.len() == self@.dom().len(),
            forall|i: int|
                0 <= i < merged.len() ==> {
                    let entry = #[trigger] merged[i];
                    &&& self@.contains_key((entry.tag, entry.worker_id, entry.concurrency_id))
                    &&& entry.sample@ == self@[(entry.tag, entry.worker_id, entry.concurrency_id)]
                },
            forall|i: int, j: int|
                0 <= i < j < merged.len() ==> key_before(
                    (merged[i].tag, merged[i].worker_id, merged[i].concurrency_id),
                    (merged[j].tag, merged[j].worker_id, merged[j].concurrency_id),
                ),
    {
        let mut merged: Vec<MergedSample> = Vec::new();
        assert(vstd::laws_cmp::obeys_cmp::<SampleKey>());
        let entries = self.entries.iter();
        proof {
            let pairs = entries.remaining();
            let keys = pairs.map_values(|kv: (&SampleKey, &Sample)| *kv.0);
            assert(increasing_seq(keys));
            assert forall|i: int, j: int| 0 <= i < j < pairs.len() implies key_before(
                *pairs[i].0,
                *pairs[j].0,
            ) by {
                assert(keys[i] == *pairs[i].0);
                assert(keys[j] == *pairs[j].0);
                assert(keys[i].cmp_spec(&keys[j]) is Less);
            }
        }
        for entry in it: entries
            invariant
                merged.len() == it.index(),
                forall|i: int, j: int|
                    0 <= i < j < it.seq().len() ==> key_before(*it.seq()[i].0, *it.seq()[j].0),
                it.seq().len() == self.entries@.dom().len(),
                forall|i: int|
                    0 <= i < it.seq().len() ==> self.entries@.contains_key(*(#[trigger] it.seq()[i]).0)
                        && self.entries@[*it.seq()[i].0] == *it.seq()[i].1,
                forall|i: int|
                    0 <= i < merged.len() ==> {
                        let e = #[trigger] merged[i];
                        &&& (e.tag, e.worker_id, e.concurrency_id) == *it.seq()[i].0
                        &&& e.sample@ == (*it.seq()[i].1)@
                    },
        {
            let (key, sample) = entry;
            merged.push(
                MergedSample {
                    tag: key.0,
                    worker_id: key.1,
                    concurrency_id: key.2,
                    sample: sample.duplicate(),
                },
            );
        }
        assert(self@.dom() =~= self.entries@.dom());
        merged
    }
}

} // verus!
