//! The mailbox through which samples reach the collector.

use vstd::prelude::*;

use crate::sample::Sample;

verus! {

/// `flume::Sender`, the sending half of a channel, as a type that values
/// pass through unread.
#[verifier::external_type_specification]
#[verifier::external_body]
#[verifier::reject_recursive_types(T)]
pub struct ExSender<T>(flume::Sender<T>);

/// `flume::Receiver`, the receiving half of a channel, as a type that
/// values pass through unread.
#[verifier::external_type_specification]
#[verifier::external_body]
#[verifier::reject_recursive_types(T)]
pub struct ExReceiver<T>(flume::Receiver<T>);

/// The sending half of the channel that carries samples to the collector.
pub type CollectorMailbox = flume::Sender<Sample>;

/// The capacity a channel was created with: `None` for a channel without a
/// bound. It is fixed when the channel is made and shared by every handle.
pub uninterp spec fn mailbox_capacity(mailbox: flume::Sender<Sample>) -> Option<usize>;

/// How an attempt to hand a sample to the collector ended.
#[derive(Debug, Clone, Copy, PartialEq, Eq, Structural)]
pub enum SendOutcome {
    /// The sample is in the channel.
    Sent,
    /// The channel has a bound and was full.
    Full,
    /// Every receiver of the channel is gone.
    Disconnected,
}

/// `flume::unbounded`: a new channel without a bound, as its two halves.
#[verifier::external_body]
fn unbounded_mailbox() -> (channel: (CollectorMailbox, flume::Receiver<Sample>))
    ensures
        mailbox_capacity(channel.0) is None,
{
    flume::unbounded()
}

/// `flume::Sender::capacity`: the bound the channel was created with.
#[verifier::external_body]
pub(crate) fn capacity_of(mailbox: &CollectorMailbox) -> (capacity: Option<usize>)
    ensures
        capacity == mailbox_capacity(*mailbox),
{
    mailbox.capacity()
}

/// `flume::Sender::clone`: another handle to the same channel, which
/// therefore has the same capacity.
#[verifier::external_body]
pub(crate) fn clone_mailbox(mailbox: &CollectorMailbox) -> (handle: CollectorMailbox)
    ensures
        mailbox_capacity(handle) == mailbox_capacity(*mailbox),
{
    mailbox.clone()
}

/// `flume::Sender::try_send`: hands the sample to the channel without
/// waiting. Whether that succeeds depends on the receivers and on what the
/// channel holds; the one thing certain is that a channel without a bound
/// is never full.
#[verifier::external_body]
pub(crate) fn try_send_sample(mailbox: &CollectorMailbox, sample: Sample) -> (outcome: SendOutcome)
    ensures
        mailbox_capacity(*mailbox) is None ==> outcome != SendOutcome::Full,
{
    match mailbox.try_send(sample) {
        Ok(()) => SendOutcome::Sent,
        Err(flume::TrySendError::Full(_)) => SendOutcome::Full,
        Err(flume::TrySendError::Disconnected(_)) => SendOutcome::Disconnected,
    }
}

/// The collector actor is the single consumer of samples: it takes each
/// sample from its mailbox, puts the measurements in order and hands the
/// sample to the user's collector.
pub struct CollectorActor;

impl CollectorActor {
    /// The channel between the workers and the collector actor. It has no
    /// bound, so that no sample is ever dropped or held back.
    pub fn mailbox() -> (channel: (CollectorMailbox, flume::Receiver<Sample>))
        ensures
            mailbox_capacity(channel.0) is None,
    {
        unbounded_mailbox()
    }

    /// Prepares a received sample for the user's collector: its latencies
    /// and transfer rates are put in ascending order, so that quantiles can
    /// be read off at once. Nothing else about the sample changes.
    pub fn ingest(sample: Sample) -> (ready: Sample)
        ensures
            ready@.ordered(),
            sample@.rearranged_into(ready@),
            sample@.consistent() ==> ready@.consistent(),
            sample@.covers_latencies() ==> ready@.covers_latencies(),
            sample@.ordered() ==> ready@ == sample@,
    {
        let mut ready = sample;
        ready.sort_values();
        ready
    }
}

} // verus!
