use rewrk_core::sample_merger::MergedSample;
use rewrk_core::timings::RuntimeTimings as Timings;
use rewrk_core::{Sample, SampleMerger, SampleMetadata, ValidationError};

fn sample(tag: usize, worker_id: usize, concurrency_id: usize, latencies: &[u64]) -> Sample {
    let mut sample = Sample::new(tag, SampleMetadata { worker_id, concurrency_id });
    for latency in latencies {
        sample.record_total_request();
        sample.record_successful_request();
        sample.record_latency(*latency);
        sample.record_read_transfer(0, 10, *latency);
        sample.record_write_transfer(0, 20, *latency);
    }
    sample.set_total_duration(latencies.iter().sum());
    sample
}

fn keys(merged: &[MergedSample]) -> Vec<(usize, usize, usize)> {
    merged.iter().map(|entry| (entry.tag, entry.worker_id, entry.concurrency_id)).collect()
}

#[test]
fn empty_merger_has_no_samples() {
    assert!(SampleMerger::new().iter_samples().is_empty());
}

#[test]
fn samples_of_one_key_are_added() {
    let mut merger = SampleMerger::new();
    merger.add_sample(sample(1, 0, 0, &[10, 20]));
    merger.add_sample(sample(1, 0, 0, &[5]));
    let mut third = sample(1, 0, 0, &[]);
    third.record_total_request();
    third.record_error(ValidationError::Timeout);
    merger.add_sample(third);
    let merged = merger.iter_samples();
    assert_eq!(keys(&merged), vec![(1, 0, 0)]);
    let total = &merged[0].sample;
    assert_eq!(total.latency(), &vec![10, 20, 5]);
    assert_eq!(total.total_requests(), 4);
    assert_eq!(total.total_successful_requests(), 3);
    assert_eq!(total.total_duration(), 35);
    assert_eq!(total.total_latency_duration(), 35);
    assert_eq!(total.errors().len(), 1);
    assert_eq!(total.read_transfer().len(), 3);
}

#[test]
fn samples_are_kept_apart_by_tag_worker_and_connection() {
    let mut merger = SampleMerger::new();
    merger.add_sample(sample(2, 0, 0, &[1]));
    merger.add_sample(sample(1, 1, 0, &[2]));
    merger.add_sample(sample(1, 0, 1, &[3]));
    merger.add_sample(sample(1, 0, 0, &[4]));
    merger.add_sample(sample(1, 0, 1, &[5]));
    merger.add_sample(sample(0, 9, 9, &[6]));
    let merged = merger.iter_samples();
    assert_eq!(keys(&merged), vec![(0, 9, 9), (1, 0, 0), (1, 0, 1), (1, 1, 0), (2, 0, 0)]);
    assert_eq!(merged[0].sample.latency(), &vec![6]);
    assert_eq!(merged[1].sample.latency(), &vec![4]);
    assert_eq!(merged[2].sample.latency(), &vec![3, 5]);
    assert_eq!(merged[3].sample.latency(), &vec![2]);
    assert_eq!(merged[4].sample.latency(), &vec![1]);
    for entry in &merged {
        assert_eq!(entry.sample.tag(), entry.tag);
        assert_eq!(entry.sample.metadata().worker_id, entry.worker_id);
        assert_eq!(entry.sample.metadata().concurrency_id, entry.concurrency_id);
    }
}

#[test]
fn iterating_leaves_the_merger_as_it_is() {
    let mut merger = SampleMerger::new();
    merger.add_sample(sample(1, 0, 0, &[10]));
    let first = merger.iter_samples();
    let second = merger.iter_samples();
    assert_eq!(keys(&first), keys(&second));
    assert_eq!(first[0].sample.latency(), second[0].sample.latency());
    merger.add_sample(sample(1, 0, 0, &[11]));
    assert_eq!(merger.iter_samples()[0].sample.latency(), &vec![10, 11]);
}

#[test]
fn timings_add_component_wise() {
    let first = Timings { producer_wait_runtime: 5, execute_wait_runtime: 100 };
    let second = Timings { producer_wait_runtime: 7, execute_wait_runtime: 1 };
    assert_eq!(first.add(second), Timings { producer_wait_runtime: 12, execute_wait_runtime: 101 });
    assert_eq!(first.add(second), second.add(first));
    assert_eq!(first.add(Timings::new()), first);
    let mut total = first;
    total.add_assign(second);
    total.add_assign(second);
    assert_eq!(total, Timings { producer_wait_runtime: 19, execute_wait_runtime: 102 });
}

#[test]
fn timings_start_at_zero() {
    assert_eq!(Timings::new(), Timings { producer_wait_runtime: 0, execute_wait_runtime: 0 });
    assert_eq!(Timings::default(), Timings::new());
}

#[test]
fn timings_of_all_connections_are_summed() {
    assert_eq!(Timings::from_iter(&Vec::new()), Timings::new());
    let parts = vec![
        Timings { producer_wait_runtime: 1, execute_wait_runtime: 10 },
        Timings { producer_wait_runtime: 2, execute_wait_runtime: 20 },
        Timings { producer_wait_runtime: 3, execute_wait_runtime: 30 },
    ];
    assert_eq!(
        Timings::from_iter(&parts),
        Timings { producer_wait_runtime: 6, execute_wait_runtime: 60 }
    );
    let large = vec![
        Timings { producer_wait_runtime: u64::MAX - 1, execute_wait_runtime: 0 },
        Timings { producer_wait_runtime: 1, execute_wait_runtime: u64::MAX },
    ];
    assert_eq!(
        Timings::from_iter(&large),
        Timings { producer_wait_runtime: u64::MAX, execute_wait_runtime: u64::MAX }
    );
}

#[test]
fn merger_says_whether_a_sample_can_be_added() {
    let mut merger = SampleMerger::new();
    let mut large = sample(1, 0, 0, &[]);
    large.set_total_duration(u64::MAX - 5);
    assert!(merger.can_add_sample(&large));
    merger.add_sample(large);
    let mut fits = sample(1, 0, 0, &[]);
    fits.set_total_duration(5);
    assert!(merger.can_add_sample(&fits));
    let mut too_long = sample(1, 0, 0, &[]);
    too_long.set_total_duration(6);
    assert!(!merger.can_add_sample(&too_long));
    // Another key starts a new entry.
    let mut elsewhere = sample(1, 0, 1, &[]);
    elsewhere.set_total_duration(u64::MAX);
    assert!(merger.can_add_sample(&elsewhere));
    merger.add_sample(fits);
    assert_eq!(merger.iter_samples()[0].sample.total_duration(), u64::MAX);
}

#[test]
fn merged_totals_do_not_depend_on_order_or_grouping() {
    let mut first = SampleMerger::new();
    first.add_sample(sample(2, 1, 1, &[1, 2]));
    first.add_sample(sample(2, 1, 1, &[3]));
    first.add_sample(sample(2, 1, 1, &[4, 5, 6]));
    let mut second = SampleMerger::new();
    second.add_sample(sample(2, 1, 1, &[4, 5, 6]));
    second.add_sample(sample(2, 1, 1, &[3]).add(sample(2, 1, 1, &[1, 2])));
    let one = &first.iter_samples()[0].sample;
    let other = &second.iter_samples()[0].sample;
    assert_eq!(one.total_requests(), other.total_requests());
    assert_eq!(one.total_successful_requests(), other.total_successful_requests());
    assert_eq!(one.total_duration(), other.total_duration());
    assert_eq!(one.total_latency_duration(), other.total_latency_duration());
    assert_eq!(one.latency().len(), other.latency().len());
    assert_eq!(one.latency(), &vec![1, 2, 3, 4, 5, 6]);
    assert_eq!(other.latency(), &vec![4, 5, 6, 3, 1, 2]);
}

#[test]
fn empty_sample_changes_no_entry() {
    let mut merger = SampleMerger::new();
    merger.add_sample(Sample::new(4, SampleMetadata { worker_id: 1, concurrency_id: 2 }));
    merger.add_sample(sample(4, 1, 2, &[7, 8]));
    merger.add_sample(Sample::new(4, SampleMetadata { worker_id: 1, concurrency_id: 2 }));
    let merged = merger.iter_samples();
    assert_eq!(merged.len(), 1);
    assert_eq!(merged[0].sample.latency(), &vec![7, 8]);
    assert_eq!(merged[0].sample.total_requests(), 2);
    assert_eq!(merged[0].sample.total_duration(), 15);
}

#[test]
fn sample_that_cannot_be_added_is_handed_back() {
    let mut merger = SampleMerger::new();
    let mut large = sample(1, 0, 0, &[]);
    large.set_total_duration(u64::MAX);
    assert!(merger.try_add_sample(large).is_none());
    let mut one_more = sample(1, 0, 0, &[3]);
    one_more.set_total_duration(1);
    let refused = merger.try_add_sample(one_more).expect("refused");
    assert_eq!(refused.latency(), &vec![3]);
    assert_eq!(refused.total_duration(), 1);
    let merged = merger.iter_samples();
    assert_eq!(merged.len(), 1);
    assert_eq!(merged[0].sample.total_duration(), u64::MAX);
    assert!(merged[0].sample.latency().is_empty());
    assert!(merger.try_add_sample(sample(1, 0, 0, &[])).is_none());
}
