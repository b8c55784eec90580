//! The results of the workers of the command line front end, and how they
//! are combined.

use vstd::prelude::*;

use crate::sample::{durations_ascend, sort_durations};

verus! {

/// How often an error occurred.
#[derive(Debug)]
pub struct ErrorCount {
    pub message: String,
    pub count: usize,
}

/// How often the message occurred according to the counts.
pub open spec fn count_of(counts: Seq<ErrorCount>, message: Seq<char>) -> nat
    decreases counts.len(),
{
    if counts.len() == 0 {
        0
    } else {
        count_of(counts.drop_last(), message) + if counts.last().message@ == message {
            counts.last().count as nat
        } else {
            0nat
        }
    }
}

/// No message has two counts.
pub open spec fn messages_differ(counts: Seq<ErrorCount>) -> bool {
    forall|i: int, j: int|
        0 <= i < j < counts.len() ==> counts[i].message@ != counts[j].message@
}

/// The sum of the sizes.
pub open spec fn sum_sizes(sizes: Seq<usize>) -> nat
    decreases sizes.len(),
{
    if sizes.len() == 0 {
        0
    } else {
        sum_sizes(sizes.drop_last()) + sizes.last() as nat
    }
}

/// No duration is followed by a larger one.
pub open spec fn durations_descend(durations: Seq<u64>) -> bool {
    forall|i: int, j: int| 0 <= i < j < durations.len() ==> durations[i] >= durations[j]
}

/// The largest of the durations, and zero if there is none.
pub open spec fn longest(durations: Seq<u64>) -> u64
    decreases durations.len(),
{
    if durations.len() == 0 {
        0
    } else if durations.len() == 1 || durations.last() >= longest(durations.drop_last()) {
        durations.last()
    } else {
        longest(durations.drop_last())
    }
}

/// The smallest of the durations, and zero if there is none.
pub open spec fn shortest(durations: Seq<u64>) -> u64
    decreases durations.len(),
{
    if durations.len() == 0 {
        0
    } else if durations.len() == 1 || durations.last() < shortest(durations.drop_last()) {
        durations.last()
    } else {
        shortest(durations.drop_last())
    }
}

/// The longest duration is one of the durations and none is longer; the
/// shortest is one of them and none is shorter.
pub proof fn lemma_longest_and_shortest(durations: Seq<u64>)
    requires
        durations.len() > 0,
    ensures
        durations.contains(longest(durations)),
        durations.contains(shortest(durations)),
        forall|i: int|
            0 <= i < durations.len() ==> shortest(durations) <= (#[trigger] durations[i])
                && durations[i] <= longest(durations),
    decreases durations.len(),
{
    if durations.len() > 1 {
        let rest = durations.drop_last();
        lemma_longest_and_shortest(rest);
        let i = choose|i: int| 0 <= i < rest.len() && rest[i] == longest(rest);
        assert(durations[i] == longest(rest));
        let j = choose|j: int| 0 <= j < rest.len() && rest[j] == shortest(rest);
        assert(durations[j] == shortest(rest));
        assert(durations[durations.len() - 1] == durations.last());
        assert forall|k: int| 0 <= k < durations.len() implies shortest(durations) <= (
        #[trigger] durations[k]) && durations[k] <= longest(durations) by {
            if k < rest.len() {
                assert(rest[k] == durations[k]);
            }
        }
    } else {
        assert(durations[0] == durations.last());
    }
}

proof fn lemma_count_of_push(counts: Seq<ErrorCount>, entry: ErrorCount, message: Seq<char>)
    ensures
        count_of(counts.push(entry), message) == count_of(counts, message) + if entry.message@
            == message {
            entry.count as nat
        } else {
            0nat
        },
{
    assert(counts.push(entry).drop_last() =~= counts);
}

proof fn lemma_count_of_update(
    counts: Seq<ErrorCount>,
    at: int,
    entry: ErrorCount,
    message: Seq<char>,
)
    requires
        0 <= at < counts.len(),
        entry.message@ == counts[at].message@,
    ensures
        count_of(counts.update(at, entry), message) + (if entry.message@ == message {
            counts[at].count as nat
        } else {
            0nat
        }) == count_of(counts, message) + if entry.message@ == message {
            entry.count as nat
        } else {
            0nat
        },
    decreases counts.len(),
{
    if at == counts.len() - 1 {
        assert(counts.update(at, entry).drop_last() =~= counts.drop_last());
    } else {
        lemma_count_of_update(counts.drop_last(), at, entry, message);
        assert(counts.update(at, entry).drop_last() =~= counts.drop_last().update(at, entry));
    }
}

proof fn lemma_count_of_entry(counts: Seq<ErrorCount>, at: int)
    requires
        0 <= at < counts.len(),
    ensures
        counts[at].count <= count_of(counts, counts[at].message@),
    decreases counts.len(),
{
    if at < counts.len() - 1 {
        lemma_count_of_entry(counts.drop_last(), at);
    }
}

proof fn lemma_count_of_take(counts: Seq<ErrorCount>, until: int, message: Seq<char>)
    requires
        0 <= until <= counts.len(),
    ensures
        count_of(counts.take(until), message) <= count_of(counts, message),
    decreases counts.len() - until,
{
    if until == counts.len() {
        assert(counts.take(until) =~= counts);
    } else {
        lemma_count_of_take(counts, until + 1, message);
        assert(counts.take(until + 1).drop_last() =~= counts.take(until));
    }
}

proof fn lemma_sum_sizes_take(sizes: Seq<usize>, until: int)
    requires
        0 <= until <= sizes.len(),
    ensures
        sum_sizes(sizes.take(until)) <= sum_sizes(sizes),
    decreases sizes.len() - until,
{
    if until == sizes.len() {
        assert(sizes.take(until) =~= sizes);
    } else {
        lemma_sum_sizes_take(sizes, until + 1);
        assert(sizes.take(until + 1).drop_last() =~= sizes.take(until));
    }
}

/// Contains and handles results from the workers. Durations are in
/// nanoseconds.
#[derive(Debug)]
pub struct WorkerResult {
    /// The total time taken for each worker.
    pub total_times: Vec<u64>,
    /// The vec of latencies per request stored.
    pub request_times: Vec<u64>,
    /// The amount of data read from each worker.
    pub buffer_sizes: Vec<usize>,
    /// How often each error occurred. No message has two counts.
    pub error_map: Vec<ErrorCount>,
}

impl WorkerResult {
    /// Creates a empty result, useful for merging results into one
    /// consumer.
    pub fn default() -> (result: Self)
        ensures
            result.total_times@.len() == 0,
            result.request_times@.len() == 0,
            result.buffer_sizes@.len() == 0,
            result.error_map@.len() == 0,
    {
        Self {
            total_times: Vec::new(),
            request_times: Vec::new(),
            buffer_sizes: Vec::new(),
            error_map: Vec::new(),
        }
    }

    /// Whether the error counts of `self` and `other` can be added.
    pub open spec fn can_combine(&self, other: &WorkerResult) -> bool {
        forall|message: Seq<char>|
            count_of(self.error_map@, message) + count_of(other.error_map@, message) <= usize::MAX
    }

    /// Consumes both self and other producing a combined result: the times
    /// and sizes of `other` follow those of `self`, and every error has
    /// occurred as often as in both together.
    pub fn combine(self, other: Self) -> (combined: Self)
        requires
            self.can_combine(&other),
            messages_differ(self.error_map@),
        ensures
            combined.request_times@ == self.request_times@ + other.request_times@,
            combined.total_times@ == self.total_times@ + other.total_times@,
            combined.buffer_sizes@ == self.buffer_sizes@ + other.buffer_sizes@,
            forall|message: Seq<char>|
                count_of(combined.error_map@, message) == count_of(self.error_map@, message)
                    + count_of(other.error_map@, message),
            messages_differ(combined.error_map@),
    {
        let ghost wanted_requests = self.request_times@ + other.request_times@;
        let ghost wanted_totals = self.total_times@ + other.total_times@;
        let ghost wanted_sizes = self.buffer_sizes@ + other.buffer_sizes@;
        let ghost added_errors = other.error_map@;
        let mut combined = self;
        let mut other = other;
        combined.request_times.append(&mut other.request_times);
        combined.total_times.append(&mut other.total_times);
        combined.buffer_sizes.append(&mut other.buffer_sizes);
        let ghost before = combined.error_map@;
        // Insert/add new errors to current error map.
        let mut j: usize = 0;
        assert(other.error_map@.take(0) =~= Seq::<ErrorCount>::empty());
        while j < other.error_map.len()
            invariant
                j <= other.error_map.len(),
                combined.request_times@ == wanted_requests,
                combined.total_times@ == wanted_totals,
                combined.buffer_sizes@ == wanted_sizes,
                other.error_map@ == added_errors,
                messages_differ(combined.error_map@),
                forall|message: Seq<char>|
                    count_of(combined.error_map@, message) == count_of(before, message) + count_of(
                        other.error_map@.take(j as int),
                        message,
                    ),
                forall|message: Seq<char>|
                    count_of(before, message) + count_of(other.error_map@, message) <= usize::MAX,
            decreases other.error_map.len() - j,
        {
            let ghost entry = other.error_map@[j as int];
            let ghost held = combined.error_map@;
            proof {
                assert(other.error_map@.take(j + 1).drop_last() =~= other.error_map@.take(j as int));
                lemma_count_of_take(other.error_map@, j + 1, entry.message@);
            }
            let found = find_message(&combined.error_map, &other.error_map[j].message);
            match found {
                Some(at) => {
                    proof {
                        lemma_count_of_entry(held, at as int);
                    }
                    let updated = ErrorCount {
                        message: other.error_map[j].message.clone(),
                        count: combined.error_map[at].count + other.error_map[j].count,
                    };
                    combined.error_map.set(at, updated);
                    proof {
                        assert forall|message: Seq<char>|
                            count_of(combined.error_map@, message) == count_of(before, message)
                                + count_of(other.error_map@.take(j + 1), message) by {
                            lemma_count_of_update(held, at as int, updated, message);
                        }
                    }
                },
                None => {
                    let added = ErrorCount {
                        message: other.error_map[j].message.clone(),
                        count: other.error_map[j].count,
                    };
                    combined.error_map.push(added);
                    proof {
                        assert forall|message: Seq<char>|
                            count_of(combined.error_map@, message) == count_of(before, message)
                                + count_of(other.error_map@.take(j + 1), message) by {
                            lemma_count_of_push(held, added, message);
                        }
                    }
                },
            }
            j += 1;
        }
        assert(other.error_map@.take(other.error_map.len() as int) =~= other.error_map@);
        combined
    }

    /// Simple helper returning the amount of requests overall.
    pub fn total_requests(&self) -> (count: usize)
        ensures
            count == self.request_times@.len(),
    {
        self.request_times.len()
    }

    /// Calculates the total transfer in bytes.
    pub fn total_transfer(&self) -> (bytes: usize)
        requires
            sum_sizes(self.buffer_sizes@) <= usize::MAX,
        ensures
            bytes == sum_sizes(self.buffer_sizes@),
    {
        let mut bytes: usize = 0;
        let mut i: usize = 0;
        assert(self.buffer_sizes@.take(0) =~= Seq::<usize>::empty());
        while i < self.buffer_sizes.len()
            invariant
                i <= self.buffer_sizes.len(),
                bytes == sum_sizes(self.buffer_sizes@.take(i as int)),
                sum_sizes(self.buffer_sizes@) <= usize::MAX,
            decreases self.buffer_sizes.len() - i,
        {
            proof {
                assert(self.buffer_sizes@.take(i + 1).drop_last() =~= self.buffer_sizes@.take(
                    i as int,
                ));
                lemma_sum_sizes_take(self.buffer_sizes@, i + 1);
            }
            bytes = bytes + self.buffer_sizes[i];
            i += 1;
        }
        assert(self.buffer_sizes@.take(self.buffer_sizes.len() as int) =~= self.buffer_sizes@);
        bytes
    }

    /// Calculates the max latency overall from all requests.
    pub fn max_request_latency(&self) -> (nanos: u64)
        ensures
            nanos == longest(self.request_times@),
            self.request_times@.len() > 0 ==> self.request_times@.contains(nanos),
            forall|i: int| 0 <= i < self.request_times@.len() ==> self.request_times@[i] <= nanos,
    {
        proof {
            if self.request_times@.len() > 0 {
                lemma_longest_and_shortest(self.request_times@);
            }
        }
        let mut nanos: u64 = 0;
        let mut i: usize = 0;
        assert(self.request_times@.take(0) =~= Seq::<u64>::empty());
        while i < self.request_times.len()
            invariant
                i <= self.request_times.len(),
                nanos == longest(self.request_times@.take(i as int)),
            decreases self.request_times.len() - i,
        {
            assert(self.request_times@.take(i + 1).drop_last() =~= self.request_times@.take(
                i as int,
            ));
            if i == 0 || self.request_times[i] >= nanos {
                nanos = self.request_times[i];
            }
            i += 1;
        }
        assert(self.request_times@.take(self.request_times.len() as int) =~= self.request_times@);
        nanos
    }

    /// Calculates the min latency overall from all requests.
    pub fn min_request_latency(&self) -> (nanos: u64)
        ensures
            nanos == shortest(self.request_times@),
            self.request_times@.len() > 0 ==> self.request_times@.contains(nanos),
            forall|i: int| 0 <= i < self.request_times@.len() ==> nanos <= self.request_times@[i],
    {
        proof {
            if self.request_times@.len() > 0 {
                lemma_longest_and_shortest(self.request_times@);
            }
        }
        let mut nanos: u64 = 0;
        let mut i: usize = 0;
        assert(self.request_times@.take(0) =~= Seq::<u64>::empty());
        while i < self.request_times.len()
            invariant
                i <= self.request_times.len(),
                nanos == shortest(self.request_times@.take(i as int)),
            decreases self.request_times.len() - i,
        {
            assert(self.request_times@.take(i + 1).drop_last() =~= self.request_times@.take(
                i as int,
            ));
            if i == 0 || self.request_times[i] < nanos {
                nanos = self.request_times[i];
            }
            i += 1;
        }
        assert(self.request_times@.take(self.request_times.len() as int) =~= self.request_times@);
        nanos
    }

    /// Sorts the list of times, the longest first.
    ///
    /// This is needed before calculating the Pn percentiles, this must be
    /// manually ran to same some compute time.
    pub fn sort_request_times(&mut self)
        ensures
            durations_descend(final(self).request_times@),
            final(self).request_times@.to_multiset() == old(self).request_times@.to_multiset(),
            final(self).total_times == old(self).total_times,
            final(self).buffer_sizes == old(self).buffer_sizes,
            final(self).error_map == old(self).error_map,
    {
        sort_durations(&mut self.request_times);
        reverse(&mut self.request_times);
    }
}

/// Counts one more occurrence of the error with the given message.
pub fn count_error(error_map: &mut Vec<ErrorCount>, message: String)
    requires
        count_of(old(error_map)@, message@) < usize::MAX,
        messages_differ(old(error_map)@),
    ensures
        forall|other: Seq<char>|
            count_of(final(error_map)@, other) == count_of(old(error_map)@, other) + if other
                == message@ {
                1nat
            } else {
                0nat
            },
        messages_differ(final(error_map)@),
{
    let ghost held = error_map@;
    match find_message(error_map, &message) {
        Some(at) => {
            proof {
                lemma_count_of_entry(held, at as int);
            }
            let updated = ErrorCount { message, count: error_map[at].count + 1 };
            error_map.set(at, updated);
            proof {
                assert forall|other: Seq<char>|
                    count_of(error_map@, other) == count_of(held, other) + if other == message@ {
                        1nat
                    } else {
                        0nat
                    } by {
                    lemma_count_of_update(held, at as int, updated, other);
                }
            }
        },
        None => {
            let added = ErrorCount { message, count: 1 };
            error_map.push(added);
            proof {
                assert forall|other: Seq<char>|
                    count_of(error_map@, other) == count_of(held, other) + if other == message@ {
                        1nat
                    } else {
                        0nat
                    } by {
                    lemma_count_of_push(held, added, other);
                }
            }
        },
    }
}

/// Turns the order of the values around.
pub fn reverse(values: &mut Vec<u64>)
    ensures
        final(values)@ == old(values)@.reverse(),
        final(values)@.to_multiset() == old(values)@.to_multiset(),
        durations_ascend(old(values)@) ==> durations_descend(final(values)@),
{
    let len = values.len();
    let mut turned: Vec<u64> = Vec::new();
    let mut i: usize = 0;
    while i < len
        invariant
            i <= len,
            len == values.len(),
            turned.len() == i,
            forall|k: int| 0 <= k < i ==> turned[k] == values[len - 1 - k],
        decreases len - i,
    {
        turned.push(values[len - 1 - i]);
        i += 1;
    }
    proof {
        assert(turned@ =~= values@.reverse());
        values@.lemma_reverse_to_multiset();
    }
    *values = turned;
}

/// The position of the count of the message, if it has one.
pub fn find_message(counts: &Vec<ErrorCount>, message: &String) -> (found: Option<usize>)
    ensures
        match found {
            Some(at) => at < counts.len() && counts[at as int].message@ == message@,
            None => forall|i: int| 0 <= i < counts.len() ==> counts[i].message@ != message@,
        },
{
    let mut i: usize = 0;
    while i < counts.len()
        invariant
            i <= counts.len(),
            forall|k: int| 0 <= k < i ==> counts[k].message@ != message@,
        decreases counts.len() - i,
    {
        if counts[i].message == *message {
            return Some(i);
        }
        i += 1;
    }
    None
}

} // verus!
